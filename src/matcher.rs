//! Structural matching over script text: the calls into the regex engine, and
//! the ordered trial of candidate patterns.
use vstd::prelude::*;

verus! {

/// The text of capture group `group` in the leftmost-first match of
/// `pattern` in `text`; none when the pattern does not compile, does not
/// match, or the group took no part in the match.
pub uninterp spec fn regex_capture(pattern: Seq<char>, text: Seq<char>, group: nat) -> Option<
    Seq<char>,
>;

/// `text` with every non-overlapping match of `pattern` replaced by
/// `replacement`; none when the pattern does not compile.
pub uninterp spec fn regex_replace_all(
    pattern: Seq<char>,
    text: Seq<char>,
    replacement: Seq<char>,
) -> Option<Seq<char>>;

/// The characters of an optional string.
pub open spec fn opt_view(o: Option<String>) -> Option<Seq<char>> {
    match o {
        Some(s) => Some(s@),
        None => None,
    }
}

/// The characters of each string of a list.
pub open spec fn views(v: Seq<String>) -> Seq<Seq<char>> {
    v.map_values(|p: String| p@)
}

/// Relies on `regex::Regex::new`, `Regex::captures` and `Captures::get`:
/// compiles `pattern`, finds its leftmost-first match in `text` and hands
/// back the text of one capture group.
#[verifier::external_body]
pub(crate) fn capture(pattern: &str, text: &str, group: usize) -> (r: Option<String>)
    ensures
        opt_view(r) == regex_capture(pattern@, text@, group as nat),
{
    let re = match regex::Regex::new(pattern) {
        Ok(re) => re,
        Err(_) => return None,
    };
    let caps = re.captures(text)?;
    let m = caps.get(group)?;
    Some(m.as_str().to_string())
}

/// Relies on `regex::Regex::new` and `Regex::replace_all`: compiles `pattern`
/// and replaces each of its matches in `text` by `replacement`.
#[verifier::external_body]
pub(crate) fn replace_all(pattern: &str, text: &str, replacement: &str) -> (r: Option<String>)
    ensures
        opt_view(r) == regex_replace_all(pattern@, text@, replacement@),
{
    let re = match regex::Regex::new(pattern) {
        Ok(re) => re,
        Err(_) => return None,
    };
    Some(re.replace_all(text, replacement).into_owned())
}

/// The position of the first pattern, from position `i` on, whose first
/// capture group matches in `text`.
pub open spec fn first_match_from(patterns: Seq<Seq<char>>, text: Seq<char>, i: int) -> Option<int>
    decreases patterns.len() - i,
{
    if i < 0 || i >= patterns.len() {
        None
    } else if regex_capture(patterns[i], text, 1) is Some {
        Some(i)
    } else {
        first_match_from(patterns, text, i + 1)
    }
}

/// The position of the first pattern of the list whose first capture group matches in `text`.
pub open spec fn first_match(patterns: Seq<Seq<char>>, text: Seq<char>) -> Option<int> {
    first_match_from(patterns, text, 0)
}

/// Tries the candidate patterns in their order and stops at the first whose
/// first capture group matches; none when all of them fail.
pub fn first_matching(patterns: &Vec<String>, text: &str) -> (r: Option<usize>)
    ensures
        match r {
            Some(i) => i < patterns.len() && first_match(views(patterns@), text@) == Some(i as int),
            None => first_match(views(patterns@), text@) is None,
        },
{
    let ghost ps = views(patterns@);
    let mut i: usize = 0;
    while i < patterns.len()
        invariant
            i <= patterns.len(),
            ps == views(patterns@),
            first_match_from(ps, text@, 0) == first_match_from(ps, text@, i as int),
        decreases patterns.len() - i,
    {
        let found = capture(patterns[i].as_str(), text, 1);
        if found.is_some() {
            return Some(i);
        }
        i = i + 1;
    }
    None
}

/// Earliest success: the candidate that `first_match` picks matches, every
/// candidate before it fails, and it picks none only when all of them fail.
pub proof fn lemma_first_match_is_earliest(patterns: Seq<Seq<char>>, text: Seq<char>)
    ensures
        match first_match(patterns, text) {
            Some(i) => 0 <= i < patterns.len() && regex_capture(patterns[i], text, 1) is Some
                && forall|j: int| 0 <= j < i ==> regex_capture(patterns[j], text, 1) is None,
            None => forall|j: int|
                0 <= j < patterns.len() ==> regex_capture(patterns[j], text, 1) is None,
        },
{
    lemma_first_match_from(patterns, text, 0);
}

proof fn lemma_first_match_from(patterns: Seq<Seq<char>>, text: Seq<char>, k: int)
    requires
        0 <= k <= patterns.len(),
    ensures
        match first_match_from(patterns, text, k) {
            Some(i) => k <= i < patterns.len() && regex_capture(patterns[i], text, 1) is Some
                && forall|j: int| k <= j < i ==> regex_capture(patterns[j], text, 1) is None,
            None => forall|j: int|
                k <= j < patterns.len() ==> regex_capture(patterns[j], text, 1) is None,
        },
    decreases patterns.len() - k,
{
    if k < patterns.len() && regex_capture(patterns[k], text, 1) is None {
        lemma_first_match_from(patterns, text, k + 1);
    }
}

} // verus!
