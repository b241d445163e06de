//! Structured answers: the JSON text a model returns, cleaned of markdown fences
//! and parsed into a JSON value.
use vstd::prelude::*;
use crate::text::{chars_of, occurs_at, occurs_at_exec, string_of_range, sub_vec, trim, trim_bounds};

verus! {

broadcast use vstd::string::group_string_axioms;

/// A JSON value; opaque to the proofs, carried through to the caller.
#[verifier::external_type_specification]
#[verifier::external_body]
pub struct ExJsonValue(serde_json::Value);

/// What `serde_json::from_str` makes of `text`: the JSON value it holds (surrounding
/// white space allowed), or the parser's message when it is not one well-formed JSON
/// value.
pub uninterp spec fn json_parse(text: Seq<char>) -> Result<serde_json::Value, Seq<char>>;

/// The parser's message on `text`; `None` when `text` parses.
pub open spec fn json_parse_error(text: Seq<char>) -> Option<Seq<char>> {
    match json_parse(text) {
        Ok(_) => None,
        Err(e) => Some(e),
    }
}

/// Whether `text` is one well-formed JSON value, as `serde_json::from_str` decides it.
pub open spec fn json_text_parses(text: Seq<char>) -> bool {
    json_parse(text) is Ok
}

/// Parses JSON text with `serde_json::from_str`: the value the text holds, or the
/// parser's message. Both are named by `json_parse`, a function of the text alone; what
/// the value holds inside is left unsaid, as the value is opaque here.
#[verifier::external_body]
pub(crate) fn json_from_str(text: &str) -> (r: Result<serde_json::Value, String>)
    ensures
        match r {
            Ok(v) => json_parse(text@) == Ok::<serde_json::Value, Seq<char>>(v),
            Err(e) => json_parse(text@) == Err::<serde_json::Value, Seq<char>>(e@),
        },
{
    match serde_json::from_str::<serde_json::Value>(text) {
        Ok(value) => Ok(value),
        Err(error) => Err(error.to_string()),
    }
}

/// The opening of a markdown fence.
pub open spec fn fence3() -> Seq<char> {
    seq!['`', '`', '`']
}

/// The opening of a markdown fence labelled `json`.
pub open spec fn fence_json() -> Seq<char> {
    seq!['`', '`', '`', 'j', 's', 'o', 'n']
}

/// `s` with every trailing copy of `p` removed (`str::trim_end_matches`).
pub open spec fn trim_end_matches(s: Seq<char>, p: Seq<char>) -> Seq<char>
    decreases s.len(),
{
    if p.len() > 0 && s.len() >= p.len() && s.skip(s.len() - p.len()) == p {
        trim_end_matches(s.take(s.len() - p.len()), p)
    } else {
        s
    }
}

/// The JSON text inside a model's answer: the trimmed answer, or the content of
/// a leading markdown fence (labelled `json` or not) with the closing fence removed.
pub open spec fn normalize_json_content_spec(content: Seq<char>) -> Seq<char> {
    let t = trim(content);
    if occurs_at(t, fence_json(), 0) {
        trim(trim_end_matches(trim(t.skip(7)), fence3()))
    } else if occurs_at(t, fence3(), 0) {
        trim_end_matches(trim(t.skip(3)), fence3())
    } else {
        t
    }
}

/// The bound `hi` such that `v[..hi]` is `v[..end]` with trailing fences removed.
fn trim_end_fences(v: &Vec<char>, end: usize) -> (hi: usize)
    requires
        end <= v@.len(),
    ensures
        hi <= end,
        v@.take(hi as int) == trim_end_matches(v@.take(end as int), fence3()),
{
    let f = vec!['`', '`', '`'];
    assert(f@ =~= fence3());
    let mut hi = end;
    while hi >= 3 && occurs_at_exec(v, &f, hi - 3)
        invariant
            f@ == fence3(),
            hi <= end <= v@.len(),
            trim_end_matches(v@.take(hi as int), fence3()) == trim_end_matches(
                v@.take(end as int),
                fence3(),
            ),
        decreases hi,
    {
        let ghost t = v@.take(hi as int);
        assert(t.skip(hi - 3) =~= v@.subrange(hi - 3, hi as int));
        assert(t.take(hi - 3) =~= v@.take(hi - 3));
        hi -= 3;
    }
    let ghost t = v@.take(hi as int);
    if hi >= 3 {
        assert(t.skip(hi - 3) =~= v@.subrange(hi - 3, hi as int));
    }
    hi
}

/// Strips white space and markdown fences from a model's answer.
pub fn normalize_json_content(content: &str) -> (r: String)
    ensures
        r@ == normalize_json_content_spec(content@),
{
    let v = chars_of(content);
    let (lo, hi) = trim_bounds(&v);
    let t = sub_vec(&v, lo, hi);
    let fj = vec!['`', '`', '`', 'j', 's', 'o', 'n'];
    assert(fj@ =~= fence_json());
    let f = vec!['`', '`', '`'];
    assert(f@ =~= fence3());
    if occurs_at_exec(&t, &fj, 0) {
        let rest = sub_vec(&t, 7, t.len());
        assert(rest@ =~= t@.skip(7));
        let (a, b) = trim_bounds(&rest);
        let inner = sub_vec(&rest, a, b);
        let e = trim_end_fences(&inner, inner.len());
        assert(inner@.take(inner@.len() as int) =~= inner@);
        let stripped = sub_vec(&inner, 0, e);
        assert(stripped@ =~= inner@.take(e as int));
        let (c, d) = trim_bounds(&stripped);
        string_of_range(&stripped, c, d)
    } else if occurs_at_exec(&t, &f, 0) {
        let rest = sub_vec(&t, 3, t.len());
        assert(rest@ =~= t@.skip(3));
        let (a, b) = trim_bounds(&rest);
        let inner = sub_vec(&rest, a, b);
        let e = trim_end_fences(&inner, inner.len());
        assert(inner@.take(inner@.len() as int) =~= inner@);
        let r = string_of_range(&inner, 0, e);
        assert(inner@.subrange(0, e as int) =~= inner@.take(e as int));
        r
    } else {
        string_of_range(&v, lo, hi)
    }
}

/// Parses a model's answer as JSON after removing white space and markdown fences.
/// Fails, with the parser's message, exactly when the cleaned text is not JSON.
pub fn parse_structured_content(content: &str) -> (r: Result<serde_json::Value, String>)
    ensures
        match r {
            Ok(v) => json_parse(normalize_json_content_spec(content@)) == Ok::<
                serde_json::Value,
                Seq<char>,
            >(v),
            Err(e) => json_parse_error(normalize_json_content_spec(content@)) == Some(e@),
        },
{
    let text = normalize_json_content(content);
    json_from_str(text.as_str())
}

} // verus!
