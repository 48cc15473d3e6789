//! Regular expressions and letter case.

use regex::Regex;
use vstd::prelude::*;

verus! {

/// Does the regular expression match somewhere in the text? It does not where the pattern is no
/// regular expression.
pub uninterp spec fn regex_is_match(pattern: Seq<char>, text: Seq<char>) -> bool;

/// What two named groups hold in the first match of a regular expression in the text: the first
/// group, which has to take part in the match, and the second one, which need not. There is
/// nothing where the pattern is no regular expression, where it does not match, or where the first
/// group takes no part.
pub uninterp spec fn regex_named_groups(
    pattern: Seq<char>,
    text: Seq<char>,
    first: Seq<char>,
    second: Seq<char>,
) -> Option<(Seq<char>, Option<Seq<char>>)>;

/// A text with its letters in lower case.
pub uninterp spec fn lowercase(text: Seq<char>) -> Seq<char>;

/// Calls `regex::Regex::is_match` on the pattern compiled by `regex::Regex::new`. The contract
/// names the answer, which depends on the pattern and the text alone.
#[verifier::external_body]
pub(crate) fn is_match(pattern: &str, text: &str) -> (found: bool)
    ensures
        found == regex_is_match(pattern@, text@),
{
    match Regex::new(pattern) {
        Ok(regex) => regex.is_match(text),
        Err(_) => false,
    }
}

/// Calls `regex::Regex::captures` on the pattern compiled by `regex::Regex::new`, and
/// `regex::Captures::name` for the two groups. The contract names the texts of the groups, which
/// depend on the arguments alone.
#[verifier::external_body]
pub(crate) fn named_groups(pattern: &str, text: &str, first: &str, second: &str) -> (groups: Option<
    (String, Option<String>),
>)
    ensures
        groups.deep_view() == regex_named_groups(pattern@, text@, first@, second@),
{
    let captures = Regex::new(pattern).ok()?.captures(text)?;
    let first = captures.name(first)?.as_str().to_string();
    Some((first, captures.name(second).map(|group| group.as_str().to_string())))
}

/// Calls `str::to_lowercase`. The contract names the result, which depends on the text alone.
#[verifier::external_body]
pub(crate) fn to_lowercase(text: &str) -> (lower: String)
    ensures
        lower@ == lowercase(text@),
{
    text.to_lowercase()
}

} // verus!
