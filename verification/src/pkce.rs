//! PKCE (RFC 7636) verifier and challenge generation.
//!
//! The verifier is a fresh random alphanumeric string. The challenge is the
//! base64url encoding, without padding, of the SHA-256 digest of the
//! verifier's bytes, per RFC 7636 §4.2; this crate uses that canonical
//! encoding rather than a hexadecimal rendering of the digest, and keeps a
//! hexadecimal digest function alongside for callers that want one.

use vstd::prelude::*;

use crate::encoding::base64url_of;
use crate::encoding::base64url_encode;
use crate::encoding::hex_of;
use crate::encoding::hex_encode;

verus! {

use vstd::string::StringSliceAdditionalSpecFns;

/// The UTF-8 bytes of a character sequence; for the alphanumeric strings
/// this crate hashes, one byte per character.
pub open spec fn utf8_bytes_of(s: Seq<char>) -> Seq<u8> {
    vstd::utf8::encode_utf8(s)
}

/// The SHA-256 digest of a byte sequence, as the sha2 crate computes it.
/// The digest is a function of the input bytes alone.
pub uninterp spec fn sha256_of(s: Seq<u8>) -> Seq<u8>;

/// Relies on sha2::Sha256 (update then finalize): the digest depends on the
/// hashed bytes alone and is always 32 bytes long.
#[verifier::external_body]
fn sha256_digest(input: &[u8]) -> (r: Vec<u8>)
    ensures
        r@ == sha256_of(input@),
        r@.len() == 32,
{
    let mut hasher = <sha2::Sha256 as sha2::Digest>::new();
    sha2::Digest::update(&mut hasher, input);
    sha2::Digest::finalize(hasher).to_vec()
}

/// The PKCE challenge derived from a verifier's bytes: base64url, without
/// padding, of the SHA-256 digest.
pub open spec fn challenge_of(verifier: Seq<u8>) -> Seq<char> {
    base64url_of(sha256_of(verifier))
}

/// The challenge is a function of the verifier alone: a fixed verifier
/// yields a fixed challenge.
pub proof fn lemma_challenge_deterministic(v1: Seq<u8>, v2: Seq<u8>)
    requires
        v1 == v2,
    ensures
        challenge_of(v1) == challenge_of(v2),
{
}

/// Computes the PKCE challenge of a verifier string: 43 characters, the
/// unpadded base64url form of the 32-byte digest.
pub fn pkce_challenge(verifier: &str) -> (r: String)
    ensures
        r@ == challenge_of(verifier.spec_bytes()),
        r@.len() == 43,
{
    let digest = sha256_digest(verifier.as_bytes());
    proof {
        crate::encoding::lemma_base64url_of_len(digest@);
    }
    base64url_encode(digest.as_slice())
}

/// The lowercase hexadecimal SHA-256 digest of a string's bytes: 64 hex
/// characters.
pub fn sha256_hash(input: &str) -> (r: String)
    ensures
        r@ == hex_of(sha256_of(input.spec_bytes())),
        r@.len() == 64,
{
    let digest = sha256_digest(input.as_bytes());
    proof {
        crate::encoding::lemma_hex_of_len(digest@);
    }
    hex_encode(digest.as_slice())
}

/// The length of a PKCE verifier, per RFC 7636 within 43..=128.
pub const VERIFIER_LENGTH: usize = 128;

/// A PKCE verifier/challenge pair. The method is always S256.
pub struct PkcePair {
    pub verifier: String,
    pub challenge: String,
}

impl PkcePair {
    /// A pair is well formed when the verifier is a string of the fixed
    /// length over the alphanumeric alphabet and the challenge is derived
    /// from it per RFC 7636 §4.2.
    pub open spec fn wf(&self) -> bool {
        &&& self.verifier@.len() == VERIFIER_LENGTH
        &&& forall|i: int|
            0 <= i < self.verifier@.len() ==> is_alphanumeric_char(#[trigger] self.verifier@[i])
        &&& self.challenge@ == challenge_of(utf8_bytes_of(self.verifier@))
    }

    /// Draws a fresh random verifier and derives its challenge.
    pub fn generate() -> (r: PkcePair)
        ensures
            r.wf(),
    {
        let verifier = generate_random_string(VERIFIER_LENGTH);
        let challenge = pkce_challenge(verifier.as_str());
        PkcePair { verifier, challenge }
    }
}

/// A character of the unambiguous alphanumeric alphabet the verifier is
/// drawn from: ASCII letters and digits.
pub open spec fn is_alphanumeric_char(c: char) -> bool {
    ('A' <= c && c <= 'Z') || ('a' <= c && c <= 'z') || ('0' <= c && c <= '9')
}

/// The alphabet character picked for one random byte: the byte is reduced
/// modulo the alphabet size, 62, and indexes capitals, then lower case,
/// then digits.
pub open spec fn spec_alphanumeric_of_byte(b: u8) -> char {
    let i = b % 62;
    if i < 26 {
        (('A' as u8) + i) as char
    } else if i < 52 {
        (('a' as u8) + (i - 26)) as char
    } else {
        (('0' as u8) + (i - 52)) as char
    }
}

fn alphanumeric_of_byte(b: u8) -> (c: char)
    ensures
        c == spec_alphanumeric_of_byte(b),
        is_alphanumeric_char(c),
{
    let i: u8 = b % 62;
    if i < 26 {
        (('A' as u8) + i) as char
    } else if i < 52 {
        (('a' as u8) + (i - 26)) as char
    } else {
        (('0' as u8) + (i - 52)) as char
    }
}

/// Relies on rand::random: one byte from the thread-local cryptographically
/// secure generator. Nothing can be promised of a random value.
#[verifier::external_body]
fn random_byte() -> u8 {
    rand::random::<u8>()
}

/// A random string of exactly `length` characters, each drawn from the
/// alphanumeric alphabet.
pub fn generate_random_string(length: usize) -> (r: String)
    ensures
        r@.len() == length,
        forall|i: int| 0 <= i < r@.len() ==> is_alphanumeric_char(#[trigger] r@[i]),
{
    let mut out = String::new();
    let mut i: usize = 0;
    while i < length
        invariant
            i <= length,
            out@.len() == i,
            forall|j: int| 0 <= j < out@.len() ==> is_alphanumeric_char(#[trigger] out@[j]),
        decreases length - i,
    {
        let b = random_byte();
        let c = alphanumeric_of_byte(b);
        out.push(c);
        i = i + 1;
    }
    out
}

} // verus!
