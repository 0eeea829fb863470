//! Byte-to-text encodings used by the PKCE challenge: lowercase hexadecimal
//! and base64url without padding (RFC 4648 §5).

use vstd::prelude::*;

verus! {

/// The lowercase hexadecimal digit for a value below 16.
pub open spec fn hex_digit(v: int) -> char
    recommends
        0 <= v < 16,
{
    if v < 10 {
        (('0' as u8) + v as u8) as char
    } else {
        (('a' as u8) + (v - 10) as u8) as char
    }
}

/// The lowercase hexadecimal rendering of a byte sequence: two digits per
/// byte, high nibble first.
pub open spec fn hex_of(s: Seq<u8>) -> Seq<char>
    decreases s.len(),
{
    if s.len() == 0 {
        Seq::<char>::empty()
    } else {
        seq![hex_digit(s[0] as int / 16), hex_digit(s[0] as int % 16)] + hex_of(s.skip(1))
    }
}

/// A hexadecimal rendering is twice as long as its input.
pub proof fn lemma_hex_of_len(s: Seq<u8>)
    ensures
        hex_of(s).len() == 2 * s.len(),
    decreases s.len(),
{
    if s.len() > 0 {
        lemma_hex_of_len(s.skip(1));
    }
}

fn hex_digit_exec(v: u8) -> (c: char)
    requires
        v < 16,
    ensures
        c == hex_digit(v as int),
{
    if v < 10 {
        (('0' as u8) + v) as char
    } else {
        (('a' as u8) + (v - 10)) as char
    }
}

/// Renders a byte sequence in lowercase hexadecimal.
pub fn hex_encode(bytes: &[u8]) -> (r: String)
    ensures
        r@ == hex_of(bytes@),
{
    let mut out = String::new();
    let mut i: usize = 0;
    proof {
        assert(bytes@.skip(0) =~= bytes@);
    }
    while i < bytes.len()
        invariant
            i <= bytes@.len(),
            out@ + hex_of(bytes@.skip(i as int)) == hex_of(bytes@),
        decreases bytes@.len() - i,
    {
        let b = bytes[i];
        let hi = hex_digit_exec(b / 16);
        let lo = hex_digit_exec(b % 16);
        out.push(hi);
        out.push(lo);
        proof {
            assert(bytes@.skip(i as int).skip(1) =~= bytes@.skip(i + 1));
            assert(bytes@.skip(i as int)[0] == bytes@[i as int]);
        }
        i = i + 1;
    }
    proof {
        assert(bytes@.skip(bytes@.len() as int) =~= Seq::<u8>::empty());
        assert(out@ =~= hex_of(bytes@));
    }
    out
}

/// The uppercase hexadecimal digit for a value below 16, as percent
/// escapes use it.
pub open spec fn hex_digit_upper(v: int) -> char
    recommends
        0 <= v < 16,
{
    if v < 10 {
        (('0' as u8) + v as u8) as char
    } else {
        (('A' as u8) + (v - 10) as u8) as char
    }
}

/// A byte that percent-encoding passes through unchanged: the unreserved
/// characters of RFC 3986 §2.3.
pub open spec fn is_unreserved_byte(b: u8) -> bool {
    ||| ('A' as u8) <= b <= ('Z' as u8)
    ||| ('a' as u8) <= b <= ('z' as u8)
    ||| ('0' as u8) <= b <= ('9' as u8)
    ||| b == ('-' as u8)
    ||| b == ('_' as u8)
    ||| b == ('.' as u8)
    ||| b == ('~' as u8)
}

/// The percent-encoding of a byte sequence: unreserved bytes stand as
/// themselves, every other byte as '%' and two uppercase hex digits.
pub open spec fn pct_of(s: Seq<u8>) -> Seq<char>
    decreases s.len(),
{
    if s.len() == 0 {
        Seq::<char>::empty()
    } else {
        (if is_unreserved_byte(s[0]) {
            seq![s[0] as char]
        } else {
            seq!['%', hex_digit_upper(s[0] as int / 16), hex_digit_upper(s[0] as int % 16)]
        }) + pct_of(s.skip(1))
    }
}

fn hex_digit_upper_exec(v: u8) -> (c: char)
    requires
        v < 16,
    ensures
        c == hex_digit_upper(v as int),
{
    if v < 10 {
        (('0' as u8) + v) as char
    } else {
        (('A' as u8) + (v - 10)) as char
    }
}

/// Percent-encodes a byte sequence per RFC 3986.
pub fn pct_encode(bytes: &[u8]) -> (r: String)
    ensures
        r@ == pct_of(bytes@),
{
    let mut out = String::new();
    let mut i: usize = 0;
    proof {
        assert(bytes@.skip(0) =~= bytes@);
    }
    while i < bytes.len()
        invariant
            i <= bytes@.len(),
            out@ + pct_of(bytes@.skip(i as int)) == pct_of(bytes@),
        decreases bytes@.len() - i,
    {
        let b = bytes[i];
        let unreserved = (('A' as u8) <= b && b <= ('Z' as u8)) || (('a' as u8) <= b && b <= (
        'z' as u8)) || (('0' as u8) <= b && b <= ('9' as u8)) || b == ('-' as u8) || b == (
        '_' as u8) || b == ('.' as u8) || b == ('~' as u8);
        if unreserved {
            out.push(b as char);
        } else {
            out.push('%');
            out.push(hex_digit_upper_exec(b / 16));
            out.push(hex_digit_upper_exec(b % 16));
        }
        proof {
            assert(bytes@.skip(i as int).skip(1) =~= bytes@.skip(i + 1));
            assert(bytes@.skip(i as int)[0] == bytes@[i as int]);
        }
        i = i + 1;
    }
    proof {
        assert(bytes@.skip(bytes@.len() as int) =~= Seq::<u8>::empty());
        assert(out@ =~= pct_of(bytes@));
    }
    out
}

/// The base64url alphabet of RFC 4648 §5: letters, digits, '-' and '_'.
pub open spec fn b64_char(v: int) -> char
    recommends
        0 <= v < 64,
{
    if v < 26 {
        (('A' as u8) + v as u8) as char
    } else if v < 52 {
        (('a' as u8) + (v - 26) as u8) as char
    } else if v < 62 {
        (('0' as u8) + (v - 52) as u8) as char
    } else if v == 62 {
        '-'
    } else {
        '_'
    }
}

/// Base64url without padding: full three-byte groups yield four characters;
/// a trailing byte yields two and a trailing pair of bytes yields three.
pub open spec fn base64url_of(s: Seq<u8>) -> Seq<char>
    decreases s.len(),
{
    if s.len() == 0 {
        Seq::<char>::empty()
    } else if s.len() == 1 {
        seq![b64_char(s[0] as int / 4), b64_char((s[0] as int % 4) * 16)]
    } else if s.len() == 2 {
        seq![
            b64_char(s[0] as int / 4),
            b64_char((s[0] as int % 4) * 16 + s[1] as int / 16),
            b64_char((s[1] as int % 16) * 4),
        ]
    } else {
        seq![
            b64_char(s[0] as int / 4),
            b64_char((s[0] as int % 4) * 16 + s[1] as int / 16),
            b64_char((s[1] as int % 16) * 4 + s[2] as int / 64),
            b64_char(s[2] as int % 64),
        ] + base64url_of(s.skip(3))
    }
}

/// The length of an unpadded base64url encoding: four characters for each
/// full three-byte group, and two or three for a trailing byte or pair.
pub proof fn lemma_base64url_of_len(s: Seq<u8>)
    ensures
        base64url_of(s).len() == 4 * (s.len() as int / 3) + (
        if s.len() as int % 3 == 0 {
            0int
        } else {
            s.len() as int % 3 + 1
        }),
    decreases s.len(),
{
    let n = s.len() as int;
    if n >= 3 {
        lemma_base64url_of_len(s.skip(3));
        assert(s.skip(3).len() == n - 3);
        assert((n - 3) / 3 == n / 3 - 1) by (nonlinear_arith)
            requires n >= 3;
        assert((n - 3) % 3 == n % 3) by (nonlinear_arith)
            requires n >= 3;
    }
}

fn b64_char_exec(v: u8) -> (c: char)
    requires
        v < 64,
    ensures
        c == b64_char(v as int),
{
    if v < 26 {
        (('A' as u8) + v) as char
    } else if v < 52 {
        (('a' as u8) + (v - 26)) as char
    } else if v < 62 {
        (('0' as u8) + (v - 52)) as char
    } else if v == 62 {
        '-'
    } else {
        '_'
    }
}

/// Encodes a byte sequence as base64url without padding.
pub fn base64url_encode(bytes: &[u8]) -> (r: String)
    ensures
        r@ == base64url_of(bytes@),
{
    let mut out = String::new();
    let mut i: usize = 0;
    proof {
        assert(bytes@.skip(0) =~= bytes@);
    }
    while bytes.len() - i >= 3
        invariant
            i <= bytes@.len(),
            out@ + base64url_of(bytes@.skip(i as int)) == base64url_of(bytes@),
        decreases bytes@.len() - i,
    {
        let b0 = bytes[i];
        let b1 = bytes[i + 1];
        let b2 = bytes[i + 2];
        out.push(b64_char_exec(b0 / 4));
        out.push(b64_char_exec((b0 % 4) * 16 + b1 / 16));
        out.push(b64_char_exec((b1 % 16) * 4 + b2 / 64));
        out.push(b64_char_exec(b2 % 64));
        proof {
            let rest = bytes@.skip(i as int);
            assert(rest.len() >= 3);
            assert(rest[0] == bytes@[i as int]);
            assert(rest[1] == bytes@[i + 1]);
            assert(rest[2] == bytes@[i + 2]);
            assert(rest.skip(3) =~= bytes@.skip(i + 3));
        }
        i = i + 3;
    }
    if bytes.len() - i == 1 {
        let b0 = bytes[i];
        out.push(b64_char_exec(b0 / 4));
        out.push(b64_char_exec((b0 % 4) * 16));
        proof {
            let rest = bytes@.skip(i as int);
            assert(rest.len() == 1);
            assert(rest[0] == bytes@[i as int]);
        }
    } else if bytes.len() - i == 2 {
        let b0 = bytes[i];
        let b1 = bytes[i + 1];
        out.push(b64_char_exec(b0 / 4));
        out.push(b64_char_exec((b0 % 4) * 16 + b1 / 16));
        out.push(b64_char_exec((b1 % 16) * 4));
        proof {
            let rest = bytes@.skip(i as int);
            assert(rest.len() == 2);
            assert(rest[0] == bytes@[i as int]);
            assert(rest[1] == bytes@[i + 1]);
        }
    } else {
        proof {
            assert(bytes@.skip(i as int) =~= Seq::<u8>::empty());
        }
    }
    proof {
        assert(out@ =~= base64url_of(bytes@));
    }
    out
}

} // verus!
