//! The regular expressions of the `regex` crate, as far as the rules use them.
//! Nothing in this file is proved: each contract states what the crate's
//! source shows of the function that the body calls.

use vstd::prelude::*;

verus! {

/// `regex::Regex`: a compiled pattern, opaque to the verifier.
#[verifier::external_type_specification]
#[verifier::external_body]
pub struct ExRegex(regex::Regex);

/// `regex::Error`: why a pattern was not compiled.
#[verifier::external_type_specification]
#[verifier::external_body]
pub struct ExRegexError(regex::Error);

/// The pattern text that a compiled expression was built from, as
/// `Regex::as_str` returns it.
pub uninterp spec fn pattern_text(re: regex::Regex) -> Seq<char>;

/// The text that `Regex::replace_all` returns for a compiled expression, a
/// haystack and a replacement template: every non-overlapping match, leftmost
/// first, replaced by the expanded template.
pub uninterp spec fn replaced_all(re: regex::Regex, haystack: Seq<char>, template: Seq<char>) -> Seq<char>;

/// Whether `Regex::is_match` finds a match of the expression in a text.
pub uninterp spec fn has_match(re: regex::Regex, haystack: Seq<char>) -> bool;

/// What `Regex::new` makes of a pattern text: the compiled expression, or
/// nothing where it refuses the pattern.
pub uninterp spec fn compiled(pattern: Seq<char>) -> Option<regex::Regex>;

/// Whether a pattern text is a regular expression that compiles.
pub open spec fn compiles(pattern: Seq<char>) -> bool {
    compiled(pattern) is Some
}

/// Calls `Regex::new`, whose outcome depends on the pattern text alone. A
/// compiled expression keeps the pattern text it was given.
#[verifier::external_body]
pub(crate) fn compile(pattern: &str) -> (r: Result<regex::Regex, regex::Error>)
    ensures
        match r {
            Ok(re) => compiled(pattern@) == Some(re) && pattern_text(re) == pattern@,
            Err(_) => compiled(pattern@) is None,
        },
{
    regex::Regex::new(pattern)
}

/// `Regex::clone`, which the crate derives: the copy is the same expression.
pub assume_specification[ <regex::Regex as Clone>::clone ](re: &regex::Regex) -> (out: regex::Regex)
    ensures
        out == *re,
;

/// Calls `Regex::as_str`: the result is the pattern text of the expression.
#[verifier::external_body]
pub(crate) fn pattern_str(re: &regex::Regex) -> (s: &str)
    ensures
        s@ == pattern_text(*re),
{
    re.as_str()
}

/// Calls `Regex::is_match`.
#[verifier::external_body]
pub(crate) fn is_match(re: &regex::Regex, haystack: &str) -> (b: bool)
    ensures
        b == has_match(*re, haystack@),
{
    re.is_match(haystack)
}

/// Calls `Regex::replace_all` with a string template and owns the result.
#[verifier::external_body]
pub(crate) fn replace_all(re: &regex::Regex, haystack: &str, template: &str) -> (out: String)
    ensures
        out@ == replaced_all(*re, haystack@, template@),
{
    re.replace_all(haystack, template).into_owned()
}

} // verus!
