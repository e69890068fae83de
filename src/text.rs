use vstd::prelude::*;

verus! {

/// A character that the regex class `\s` matches: Unicode's `White_Space`
/// property.
pub open spec fn is_whitespace(c: char) -> bool {
    ('\t' <= c && c <= '\r') || c == ' ' || c == '\u{85}' || c == '\u{a0}' || c == '\u{1680}'
        || ('\u{2000}' <= c && c <= '\u{200a}') || c == '\u{2028}' || c == '\u{2029}'
        || c == '\u{202f}' || c == '\u{205f}' || c == '\u{3000}'
}

/// `s` with every maximal run of whitespace replaced by one space, where
/// `in_run` says whether the characters just before `s` were already such a
/// run (and so already stand as a space).
pub open spec fn collapse_from(s: Seq<char>, in_run: bool) -> Seq<char>
    decreases s.len(),
{
    if s.len() == 0 {
        s
    } else if is_whitespace(s[0]) {
        if in_run {
            collapse_from(s.drop_first(), true)
        } else {
            seq![' '] + collapse_from(s.drop_first(), true)
        }
    } else {
        seq![s[0]] + collapse_from(s.drop_first(), false)
    }
}

/// `s` with every maximal run of whitespace replaced by one space; leading
/// and trailing runs become one space too and are not trimmed.
pub open spec fn collapse(s: Seq<char>) -> Seq<char> {
    collapse_from(s, false)
}

/// Relies on `regex::Regex::new` and `Regex::replace_all`: the pattern `\s+`
/// is valid, so compiling it cannot fail, and with `" "` (which holds no `$`)
/// as the replacement every leftmost, longest run of `White_Space`
/// characters becomes one space.
#[verifier::external_body]
fn regex_collapse(s: &str) -> (r: String)
    ensures
        r@ == collapse(s@),
{
    let re = regex::Regex::new(r"\s+").unwrap();
    re.replace_all(s, " ").to_string()
}

/// Replaces every maximal run of whitespace in `s` by a single space.
pub fn normalize_whitespace(s: &str) -> (r: String)
    ensures
        r@ == collapse(s@),
{
    regex_collapse(s)
}

proof fn lemma_collapse_from_prepend(c: char, t: Seq<char>, in_run: bool)
    ensures
        collapse_from(seq![c] + t, in_run) == (if is_whitespace(c) {
            if in_run {
                collapse_from(t, true)
            } else {
                seq![' '] + collapse_from(t, true)
            }
        } else {
            seq![c] + collapse_from(t, false)
        }),
{
    let s = seq![c] + t;
    assert(s[0] == c);
    assert(s.drop_first() =~= t);
}

proof fn lemma_collapse_from_idempotent(s: Seq<char>, in_run: bool)
    ensures
        collapse_from(collapse_from(s, in_run), in_run) == collapse_from(s, in_run),
    decreases s.len(),
{
    if s.len() > 0 {
        let t = s.drop_first();
        if is_whitespace(s[0]) {
            lemma_collapse_from_idempotent(t, true);
            if !in_run {
                lemma_collapse_from_prepend(' ', collapse_from(t, true), false);
            }
        } else {
            lemma_collapse_from_idempotent(t, false);
            lemma_collapse_from_prepend(s[0], collapse_from(t, false), in_run);
        }
    }
}

/// Normalizing whitespace twice gives what normalizing it once gives.
pub proof fn lemma_normalize_idempotent(s: Seq<char>)
    ensures
        collapse(collapse(s)) == collapse(s),
{
    lemma_collapse_from_idempotent(s, false);
}

proof fn lemma_collapse_from_no_whitespace(s: Seq<char>, in_run: bool)
    requires
        forall|i: int| 0 <= i < s.len() ==> !is_whitespace(#[trigger] s[i]),
    ensures
        collapse_from(s, in_run) == s,
    decreases s.len(),
{
    if s.len() > 0 {
        let t = s.drop_first();
        assert forall|i: int| 0 <= i < t.len() implies !is_whitespace(#[trigger] t[i]) by {
            assert(t[i] == s[i + 1]);
        }
        lemma_collapse_from_no_whitespace(t, false);
        assert(seq![s[0]] + t =~= s);
    }
}

/// A string without whitespace is left as it is by normalizing.
pub proof fn lemma_normalize_no_whitespace(s: Seq<char>)
    requires
        forall|i: int| 0 <= i < s.len() ==> !is_whitespace(#[trigger] s[i]),
    ensures
        collapse(s) == s,
{
    lemma_collapse_from_no_whitespace(s, false);
}

} // verus!
