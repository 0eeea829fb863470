//! The callback listener's pure core: parsing the redirect's query string
//! into parameters, deciding the response for one request, and the
//! write-once result slot the listener shares with the orchestrator.
//!
//! The HTTP server itself is plumbing outside this library; it hands each
//! request's query string in and sends the returned body back.

use vstd::prelude::*;

use crate::jsonval::opt_str_view;

verus! {

/// The index of the first occurrence of `t` in `s`, or `s.len()` when `t`
/// does not occur.
pub open spec fn char_index(s: Seq<char>, t: char) -> int
    decreases s.len(),
{
    if s.len() == 0 {
        0
    } else if s[0] == t {
        0
    } else {
        1 + char_index(s.skip(1), t)
    }
}

/// A position before which `t` does not occur, and at which `t` stands
/// unless it is the end, is the first occurrence.
pub proof fn lemma_char_index_at(s: Seq<char>, t: char, i: int)
    requires
        0 <= i <= s.len(),
        forall|j: int| 0 <= j < i ==> s[j] != t,
        i < s.len() ==> s[i] == t,
    ensures
        char_index(s, t) == i,
    decreases i,
{
    if i == 0 {
        if s.len() > 0 && s[0] != t {
            assert(false);
        }
    } else {
        assert(s[0] != t);
        assert(forall|j: int| 0 <= j < i - 1 ==> s.skip(1)[j] == s[j + 1]);
        lemma_char_index_at(s.skip(1), t, i - 1);
    }
}

/// One `key=value` segment: the part before the first '=' and the part
/// after it; a segment without '=' is all key, with an empty value.
pub open spec fn pair_of_segment(p: Seq<char>) -> (Seq<char>, Seq<char>) {
    let k = char_index(p, '=');
    if k == p.len() {
        (p, Seq::<char>::empty())
    } else {
        (p.take(k), p.skip(k + 1))
    }
}

/// The segments of a query string, split on '&', each read as a
/// key/value pair. The string itself is taken as at least one segment.
pub open spec fn parse_segments(s: Seq<char>) -> Seq<(Seq<char>, Seq<char>)>
    decreases s.len(),
{
    let a = char_index(s, '&');
    if a < 0 || a >= s.len() {
        seq![pair_of_segment(s)]
    } else {
        seq![pair_of_segment(s.take(a))] + parse_segments(s.skip(a + 1))
    }
}

/// The key/value pairs of a query string; an empty string holds none.
pub open spec fn parse_query_of(s: Seq<char>) -> Seq<(Seq<char>, Seq<char>)> {
    if s.len() == 0 {
        Seq::<(Seq<char>, Seq<char>)>::empty()
    } else {
        parse_segments(s)
    }
}

/// The value under the first pair whose key is `key`, if any.
pub open spec fn lookup_param(ps: Seq<(Seq<char>, Seq<char>)>, key: Seq<char>) -> Option<
    Seq<char>,
>
    decreases ps.len(),
{
    if ps.len() == 0 {
        None
    } else if ps[0].0 == key {
        Some(ps[0].1)
    } else {
        lookup_param(ps.skip(1), key)
    }
}

/// The views of a vector of string pairs.
pub open spec fn views_of_pairs(ps: Seq<(String, String)>) -> Seq<(Seq<char>, Seq<char>)> {
    ps.map(|i: int, p: (String, String)| (p.0@, p.1@))
}

/// The characters of a string, as a vector.
fn chars_vec(s: &str) -> (r: Vec<char>)
    ensures
        r@ == s@,
{
    let mut v: Vec<char> = Vec::new();
    for c in it: s.chars()
        invariant
            v@ == it.seq().take(it.index() as int),
    {
        v.push(c);
    }
    proof {
        assert(v@ =~= s@);
    }
    v
}

/// The first position in `[from, until)` holding `t`, or `until`.
fn find_from_until(cs: &Vec<char>, from: usize, until: usize, t: char) -> (r: usize)
    requires
        from <= until <= cs@.len(),
    ensures
        from <= r <= until,
        forall|j: int| from <= j < r ==> cs@[j] != t,
        r < until ==> cs@[r as int] == t,
{
    let mut j: usize = from;
    while j < until
        invariant
            from <= j <= until <= cs@.len(),
            forall|k: int| from <= k < j ==> cs@[k] != t,
        decreases until - j,
    {
        if cs[j] == t {
            return j;
        }
        j = j + 1;
    }
    j
}

/// The string holding `cs[from .. to]`.
fn string_range(cs: &Vec<char>, from: usize, to: usize) -> (r: String)
    requires
        from <= to <= cs@.len(),
    ensures
        r@ == cs@.subrange(from as int, to as int),
{
    let mut out = String::new();
    let mut j: usize = from;
    while j < to
        invariant
            from <= j <= to <= cs@.len(),
            out@ == cs@.subrange(from as int, j as int),
        decreases to - j,
    {
        out.push(cs[j]);
        proof {
            assert(out@ =~= cs@.subrange(from as int, j + 1));
        }
        j = j + 1;
    }
    out
}

/// Parses a query string such as `code=abc&state=xyz` into its key/value
/// pairs, split on '&' and on the first '=' of each segment. Keys and
/// values are taken verbatim, without percent-decoding: the codes and
/// state tokens this listener receives are URL-safe as sent.
pub fn parse_query(s: &str) -> (r: Vec<(String, String)>)
    ensures
        views_of_pairs(r@) == parse_query_of(s@),
{
    let cs = chars_vec(s);
    let mut pairs: Vec<(String, String)> = Vec::new();
    if cs.len() == 0 {
        proof {
            assert(views_of_pairs(pairs@) =~= parse_query_of(s@));
        }
        return pairs;
    }
    let mut pos: usize = 0;
    let mut done: bool = false;
    proof {
        assert(cs@.skip(0) =~= cs@);
        assert(views_of_pairs(pairs@) =~= Seq::<(Seq<char>, Seq<char>)>::empty());
        assert(views_of_pairs(pairs@) + parse_segments(cs@) =~= parse_segments(cs@));
    }
    while !done
        invariant
            cs@ == s@,
            !done ==> pos <= cs@.len(),
            !done ==> views_of_pairs(pairs@) + parse_segments(cs@.skip(pos as int))
                == parse_segments(cs@),
            done ==> views_of_pairs(pairs@) == parse_segments(cs@),
        decreases (if done { 0int } else { cs@.len() - pos + 1 }),
    {
        let a = find_from_until(&cs, pos, cs.len(), '&');
        let k = find_from_until(&cs, pos, a, '=');
        let key = string_range(&cs, pos, k);
        let value = if k < a {
            string_range(&cs, k + 1, a)
        } else {
            String::new()
        };
        proof {
            let rest = cs@.skip(pos as int);
            assert(forall|j: int| 0 <= j < a - pos ==> rest[j] == cs@[pos + j]);
            lemma_char_index_at(rest, '&', a - pos);
            let seg = rest.take(a - pos);
            assert(forall|j: int| 0 <= j < k - pos ==> seg[j] == cs@[pos + j]);
            lemma_char_index_at(seg, '=', k - pos);
            assert(key@ =~= seg.take(k - pos));
            if k < a {
                assert(value@ =~= seg.skip(k - pos + 1));
            } else {
                assert(seg =~= key@);
            }
            assert(pair_of_segment(seg) == (key@, value@));
            assert(views_of_pairs(pairs@.push((key, value))) =~= views_of_pairs(pairs@).push(
                (key@, value@),
            ));
            if a == cs@.len() {
                assert(seg =~= rest);
                assert(parse_segments(rest) =~= seq![(key@, value@)]);
            } else {
                assert(rest.skip(a - pos + 1) =~= cs@.skip(a + 1));
                assert(parse_segments(rest) =~= seq![(key@, value@)] + parse_segments(
                    cs@.skip(a + 1),
                ));
            }
        }
        pairs.push((key, value));
        if a == cs.len() {
            done = true;
        } else {
            pos = a + 1;
        }
    }
    pairs
}

/// The value under the first parameter named `key`, if any.
pub fn find_param(params: &Vec<(String, String)>, key: &String) -> (r: Option<String>)
    ensures
        opt_str_view(r) == lookup_param(views_of_pairs(params@), key@),
{
    let mut i: usize = 0;
    proof {
        assert(views_of_pairs(params@).skip(0) =~= views_of_pairs(params@));
    }
    while i < params.len()
        invariant
            i <= params@.len(),
            lookup_param(views_of_pairs(params@), key@) == lookup_param(
                views_of_pairs(params@).skip(i as int),
                key@,
            ),
        decreases params@.len() - i,
    {
        proof {
            let ps = views_of_pairs(params@);
            assert(ps[i as int] == (params@[i as int].0@, params@[i as int].1@));
            assert(ps.skip(i as int)[0] == ps[i as int]);
        }
        if params[i].0.eq(key) {
            return Some(params[i].1.clone());
        }
        proof {
            assert(views_of_pairs(params@).skip(i as int).skip(1) =~= views_of_pairs(
                params@,
            ).skip(i + 1));
        }
        i = i + 1;
    }
    proof {
        assert(views_of_pairs(params@).skip(i as int) =~= Seq::<(Seq<char>, Seq<char>)>::empty());
    }
    None
}

/// The `code` parameter of a parsed query.
pub open spec fn code_of(ps: Seq<(Seq<char>, Seq<char>)>) -> Option<Seq<char>> {
    lookup_param(ps, "code"@)
}

/// The `state` parameter of a parsed query.
pub open spec fn state_of(ps: Seq<(Seq<char>, Seq<char>)>) -> Option<Seq<char>> {
    lookup_param(ps, "state"@)
}

/// What one redirect request delivered: an authorization code, or an error,
/// together with the provider's echoed state.
#[derive(Debug, Clone)]
pub struct CallbackResult {
    pub code: Option<String>,
    pub error: Option<String>,
    pub returned_state: Option<String>,
}

/// The mathematical content of a callback result.
pub ghost struct CallbackView {
    pub code: Option<Seq<char>>,
    pub error: Option<Seq<char>>,
    pub returned_state: Option<Seq<char>>,
}

/// The view of a callback result.
pub open spec fn view_of_result(r: CallbackResult) -> CallbackView {
    CallbackView {
        code: opt_str_view(r.code),
        error: opt_str_view(r.error),
        returned_state: opt_str_view(r.returned_state),
    }
}

/// The write-once slot the listener shares with the orchestrator: the first
/// captured result stays; later writes are accepted and dropped.
pub struct CallbackSlot {
    pub result: Option<CallbackResult>,
}

/// The view of a slot's content.
pub open spec fn slot_view(s: CallbackSlot) -> Option<CallbackView> {
    match s.result {
        Some(r) => Some(view_of_result(r)),
        None => None,
    }
}

impl CallbackSlot {
    /// An empty slot, holding no result yet.
    pub fn new() -> (r: Self)
        ensures
            r.result is None,
    {
        CallbackSlot { result: None }
    }

    /// Stores a result only when none is stored yet: the first writer wins
    /// and no later request overwrites a captured result.
    pub fn record(&mut self, r: CallbackResult)
        ensures
            old(self).result is Some ==> slot_view(*final(self)) == slot_view(*old(self)),
            old(self).result is None ==> slot_view(*final(self)) == Some(view_of_result(r)),
    {
        if self.result.is_none() {
            self.result = Some(r);
        }
    }
}

/// The result one request would deliver: the code and echoed state when a
/// code parameter is present, else a missing-code error.
pub fn callback_outcome(params: &Vec<(String, String)>) -> (r: CallbackResult)
    ensures
        ({
            let q = views_of_pairs(params@);
            match code_of(q) {
                Some(c) => view_of_result(r) == (CallbackView {
                    code: Some(c),
                    error: None,
                    returned_state: state_of(q),
                }),
                None => view_of_result(r) == (CallbackView {
                    code: None,
                    error: Some("missing code"@),
                    returned_state: state_of(q),
                }),
            }
        }),
{
    let code_key = "code".to_owned();
    let state_key = "state".to_owned();
    let code = find_param(params, &code_key);
    let state = find_param(params, &state_key);
    match code {
        Some(c) => CallbackResult { code: Some(c), error: None, returned_state: state },
        None => CallbackResult {
            code: None,
            error: Some("missing code".to_owned()),
            returned_state: state,
        },
    }
}

/// Serves one GET of the callback endpoint: a request carrying a code is
/// acknowledged and its result recorded, first writer wins; a request
/// without a code is answered with an error body and captures nothing.
pub fn handle_request(slot: &mut CallbackSlot, params: &Vec<(String, String)>) -> (resp: String)
    ensures
        ({
            let q = views_of_pairs(params@);
            match code_of(q) {
                Some(c) => {
                    &&& resp@ == "Received code: "@ + c
                    &&& (old(slot).result is Some ==> slot_view(*final(slot)) == slot_view(
                        *old(slot),
                    ))
                    &&& (old(slot).result is None ==> slot_view(*final(slot)) == Some(
                        (CallbackView { code: Some(c), error: None, returned_state: state_of(q) }),
                    ))
                },
                None => {
                    &&& resp@ == "Missing code parameter"@
                    &&& slot_view(*final(slot)) == slot_view(*old(slot))
                },
            }
        }),
{
    let code_key = "code".to_owned();
    let state_key = "state".to_owned();
    let code = find_param(params, &code_key);
    match code {
        Some(c) => {
            let state = find_param(params, &state_key);
            let mut resp = "Received code: ".to_owned();
            resp.append(c.as_str());
            slot.record(CallbackResult { code: Some(c), error: None, returned_state: state });
            resp
        },
        None => "Missing code parameter".to_owned(),
    }
}

} // verus!
