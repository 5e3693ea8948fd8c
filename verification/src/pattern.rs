//! Matching of text against regular expressions, done by the `regex` crate.
//!
//! What a pattern matches is not derived here: each result carries a name, and the
//! functions that read a result state what they make of it.

use vstd::prelude::*;

verus! {

/// The capture groups of the leftmost match of `pattern` in `text`, group 0 first, each
/// with the text it matched where it took part; nothing where `text` holds no match or
/// `pattern` is not accepted as a regular expression.
pub uninterp spec fn first_captures(pattern: Seq<char>, text: Seq<char>) -> Option<
    Seq<Option<Seq<char>>>,
>;

/// The texts of the successive non-overlapping matches of `pattern` in `text`, from left
/// to right; none where `pattern` is not accepted as a regular expression.
pub uninterp spec fn all_matches(pattern: Seq<char>, text: Seq<char>) -> Seq<Seq<char>>;

/// Searches `text` for the leftmost match of `pattern` and hands out its groups.
///
/// Compiles with `regex::Regex::new` and searches with `regex::Regex::captures`. Nothing
/// is claimed about which text matches: the result is only given its name.
#[verifier::external_body]
pub(crate) fn captures(pattern: &str, text: &str) -> (r: Option<Vec<Option<String>>>)
    ensures
        r.deep_view() == first_captures(pattern@, text@),
{
    match regex::Regex::new(pattern) {
        Ok(re) => re.captures(text).map(
            |found| found.iter().map(|group| group.map(|m| m.as_str().to_string())).collect(),
        ),
        Err(_) => None,
    }
}

/// Collects the successive matches of `pattern` in `text`.
///
/// Compiles with `regex::Regex::new` and walks `regex::Regex::find_iter`. Nothing is
/// claimed about which text matches: the result is only given its name.
#[verifier::external_body]
pub(crate) fn find_all(pattern: &str, text: &str) -> (r: Vec<String>)
    ensures
        r.deep_view() == all_matches(pattern@, text@),
{
    match regex::Regex::new(pattern) {
        Ok(re) => re.find_iter(text).map(|m| m.as_str().to_string()).collect(),
        Err(_) => Vec::new(),
    }
}

} // verus!
