//! Regular expressions, through the `regex` crate.
//!
//! What a pattern accepts and which texts it matches are named, not
//! restated: [`regex_compiles`] and [`regex_is_match`] stand for the results
//! of `regex::Regex::new` and `regex::Regex::is_match`, which depend on the
//! pattern and the text alone.

use vstd::prelude::*;

verus! {

#[verifier::external_type_specification]
#[verifier::external_body]
pub struct ExRegex(regex::Regex);

#[verifier::external_type_specification]
#[verifier::external_body]
pub struct ExRegexError(regex::Error);

/// Whether `regex::Regex::new` accepts `pattern`.
pub uninterp spec fn regex_compiles(pattern: Seq<char>) -> bool;

/// Whether the regex compiled from `pattern` finds a match anywhere in
/// `text` (`regex::Regex::is_match`, an unanchored search).
pub uninterp spec fn regex_is_match(pattern: Seq<char>, text: Seq<char>) -> bool;

/// A compiled regular expression together with the pattern it came from.
/// Only [`Pattern::compile`] builds one, so `compiled` is always the
/// compilation of `source`.
pub struct Pattern {
    source: String,
    compiled: regex::Regex,
}

impl Pattern {
    /// The pattern text this regex was compiled from.
    pub closed spec fn source(&self) -> Seq<char> {
        self.source@
    }

    /// Compiles `pattern` with `regex::Regex::new`.
    ///
    /// Trusted: it returns `Ok` exactly when `regex::Regex::new` accepts the
    /// pattern, and the result remembers the pattern it was built from.
    #[verifier::external_body]
    pub(crate) fn compile(pattern: &str) -> (r: Result<Pattern, regex::Error>)
        ensures
            r is Ok <==> regex_compiles(pattern@),
            r matches Ok(p) ==> p.source() == pattern@,
    {
        match regex::Regex::new(pattern) {
            Ok(compiled) => Ok(Pattern { source: pattern.to_string(), compiled }),
            Err(e) => Err(e),
        }
    }

    /// Searches `text` with `regex::Regex::is_match`.
    ///
    /// Trusted: the answer is the named [`regex_is_match`] of the pattern
    /// this regex was compiled from and of `text`.
    #[verifier::external_body]
    pub(crate) fn is_match(&self, text: &str) -> (b: bool)
        ensures
            b == regex_is_match(self.source(), text@),
    {
        self.compiled.is_match(text)
    }
}

/// The message of a `regex::Error` (its `Display`). Nothing is stated of the
/// text.
#[verifier::external_body]
pub(crate) fn regex_error_text(e: &regex::Error) -> String {
    e.to_string()
}

} // verus!
