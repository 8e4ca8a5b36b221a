//! The one place where the `regex` crate is called.

use regex::Regex;
use vstd::prelude::*;

verus! {

/// `regex::Error`, carried through opaquely.
#[verifier::external_type_specification]
#[verifier::external_body]
pub struct ExRegexError(regex::Error);

/// What the `regex` crate finds for capture group 1 of `pattern` in
/// `haystack`.
///
/// * `None`: `Regex::new(pattern)` is an error.
/// * `Some(None)`: the pattern compiles, and either it matches nowhere in
///   the haystack or group 1 took no part in the leftmost match.
/// * `Some(Some(text))`: the substring of the haystack that group 1 spans
///   in the leftmost match.
///
/// The matching itself is the crate's business and is not restated here.
pub uninterp spec fn regex_first_group(pattern: Seq<char>, haystack: Seq<char>) -> Option<
    Option<Seq<char>>,
>;

/// Compiles `pattern` with `Regex::new`, searches `haystack` with
/// `Regex::captures` and copies out group 1 through `Captures::get` and
/// `Match::as_str`.
///
/// Trusted: the result is `regex_first_group` of the two texts, with a
/// compile error handed back as `Err`. The crate documents `Regex::new` and
/// `Regex::captures` as free of panics for every input, and `Captures::get`
/// returns `None` rather than panicking for a group that is missing.
#[verifier::external_body]
pub(crate) fn first_group(pattern: &str, haystack: &str) -> (found: Result<
    Option<String>,
    regex::Error,
>)
    ensures
        match found {
            Ok(group) => regex_first_group(pattern@, haystack@) == Some(group.deep_view()),
            Err(_) => regex_first_group(pattern@, haystack@) is None,
        },
{
    let re = Regex::new(pattern)?;
    Ok(re.captures(haystack).and_then(|c| c.get(1)).map(|m| m.as_str().to_string()))
}

/// The text captured by group 1 of `pattern` in `haystack`, if any; a
/// pattern that does not compile captures nothing.
pub open spec fn captured(pattern: Seq<char>, haystack: Seq<char>) -> Option<Seq<char>> {
    match regex_first_group(pattern, haystack) {
        Some(Some(text)) => Some(text),
        _ => None,
    }
}

/// Group 1 of the leftmost match of `pattern` in `haystack`.
pub fn capture(pattern: &str, haystack: &str) -> (found: Option<String>)
    ensures
        found.deep_view() == captured(pattern@, haystack@),
{
    match first_group(pattern, haystack) {
        Ok(group) => group,
        Err(_) => None,
    }
}

} // verus!
