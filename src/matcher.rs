//! Compiled regular expressions, from the `regex` crate.
//!
//! A `Matcher` keeps the text it was compiled from beside the compiled
//! expression, so that contracts can speak of what it matches through
//! that text.

use vstd::prelude::*;

verus! {

#[verifier::external_type_specification]
#[verifier::external_body]
pub struct ExRegex(regex::Regex);

/// Whether `regex::Regex::new` accepts the pattern (its syntax is valid and
/// the compiled program stays under the default size limit).
pub uninterp spec fn regex_compiles(pattern: Seq<char>) -> bool;

/// Whether the expression compiled from `pattern` matches anywhere in
/// `haystack`, as `regex::Regex::is_match` decides it.
pub uninterp spec fn regex_matches(pattern: Seq<char>, haystack: Seq<char>) -> bool;

/// The `Debug` text of the `regex::Error` that `regex::Regex::new` returns
/// for a rejected pattern.
pub uninterp spec fn regex_diagnostic(pattern: Seq<char>) -> Seq<char>;

/// Relies on `regex::Regex::new`: it succeeds or fails depending on the
/// pattern alone (the default builder configuration is fixed), and its error,
/// kept as its `Debug` text, depends on the pattern alone too.
#[verifier::external_body]
fn compile(pattern: &str) -> (r: Result<regex::Regex, String>)
    ensures
        r.is_ok() == regex_compiles(pattern@),
        r matches Err(d) ==> d@ == regex_diagnostic(pattern@),
{
    match regex::Regex::new(pattern) {
        Ok(re) => Ok(re),
        Err(e) => Err(format!("{:?}", e)),
    }
}

/// A compiled regular expression together with its source text.
#[derive(Debug)]
pub struct Matcher {
    source: String,
    regex: regex::Regex,
}

impl Matcher {
    /// The text that this matcher was compiled from.
    pub closed spec fn source(&self) -> Seq<char> {
        self.source@
    }

    /// Compiles `pattern`; fails exactly when the regex crate rejects it,
    /// with the compiler's diagnostic.
    pub fn new(pattern: &str) -> (r: Result<Matcher, String>)
        ensures
            r.is_ok() == regex_compiles(pattern@),
            r matches Ok(m) ==> m.source() == pattern@,
            r matches Err(d) ==> d@ == regex_diagnostic(pattern@),
    {
        match compile(pattern) {
            Ok(regex) => Ok(Matcher { source: String::from_str(pattern), regex }),
            Err(e) => Err(e),
        }
    }

    /// The text that this matcher was compiled from.
    pub fn as_str(&self) -> (r: &str)
        ensures
            r@ == self.source(),
    {
        self.source.as_str()
    }

    /// Relies on `regex::Regex::is_match`: whether the expression matches
    /// anywhere in `haystack`. The only constructor, `Matcher::new`,
    /// compiles `regex` from `source`.
    #[verifier::external_body]
    pub(crate) fn is_match(&self, haystack: &str) -> (r: bool)
        ensures
            r == regex_matches(self.source(), haystack@),
    {
        self.regex.is_match(haystack)
    }
}

} // verus!
