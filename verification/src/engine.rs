//! The boundary to the regular-expression engine.
//!
//! Everything the router knows about the engine is stated here; the rest of
//! the crate is proved on top of these statements.

use vstd::prelude::*;
use regex::Regex;

verus! {

/// A compiled regular expression of the engine.
#[verifier::external_type_specification]
#[verifier::external_body]
pub struct ExRegex(regex::Regex);

/// The engine's diagnostic for a pattern that it refuses.
#[verifier::external_type_specification]
#[verifier::external_body]
pub struct ExRegexError(regex::Error);

/// The engine's answer to `pattern`: the compiled expression, or the
/// diagnostic with which the pattern is refused.
pub uninterp spec fn compiled(pattern: Seq<char>) -> Result<Regex, regex::Error>;

/// The capture groups of the leftmost-first match of `re` in `haystack`,
/// group 0 (the whole match) first; `None` where there is no match. An
/// entry is `None` where its group took no part in the match.
pub uninterp spec fn search(re: Regex, haystack: Seq<char>) -> Option<Seq<Option<Seq<char>>>>;

/// The views of a list of optional string slices.
pub open spec fn texts(groups: Seq<Option<&str>>) -> Seq<Option<Seq<char>>> {
    groups.map_values(
        |g: Option<&str>|
            match g {
                Some(s) => Some(s@),
                None => None,
            },
    )
}

/// Calls `Regex::new`, which parses and compiles `pattern` with the
/// engine's default options. What it answers depends on the pattern alone.
#[verifier::external_body]
pub(crate) fn compile(pattern: &str) -> (result: Result<Regex, regex::Error>)
    ensures
        result == compiled(pattern@),
{
    Regex::new(pattern)
}

/// Calls `Regex::captures`, and hands out the text of each group in the
/// order of `Captures::iter`. The search depends on the expression and the
/// haystack alone.
#[verifier::external_body]
pub(crate) fn capture<'h>(re: &Regex, haystack: &'h str) -> (result: Option<Vec<Option<&'h str>>>)
    ensures
        match result {
            Some(groups) => search(*re, haystack@) == Some(texts(groups@)),
            None => search(*re, haystack@).is_none(),
        },
{
    re.captures(haystack).map(|caps| caps.iter().map(|g| g.map(|m| m.as_str())).collect())
}

} // verus!
