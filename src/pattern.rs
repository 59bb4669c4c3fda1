//! Builds the content pattern from the term, case and regexp options.

use vstd::prelude::*;
use crate::config::SearchConfig;
use crate::error::SearchError;
use crate::matcher::{regex_compiles, regex_diagnostic, regex_matches, Matcher};

verus! {

/// Whether `case` asks for a case-sensitive term: exactly `y` or `Y`.
pub open spec fn is_case_sensitive(case: Seq<char>) -> bool {
    case == "y"@ || case == "Y"@
}

/// The expression compiled for the content: `regexp` verbatim when it is
/// non-empty, else `term`, prefixed with the case-insensitive flag unless
/// `case` asks for case sensitivity.
pub open spec fn content_source(regexp: Seq<char>, case: Seq<char>, term: Seq<char>) -> Seq<char> {
    if regexp.len() > 0 {
        regexp
    } else if is_case_sensitive(case) {
        term
    } else {
        "(?i)"@ + term
    }
}

/// A non-empty `regexp` decides the content pattern alone: term and case
/// change neither its text nor what it matches.
pub proof fn regexp_overrides_term(
    regexp: Seq<char>,
    case1: Seq<char>,
    term1: Seq<char>,
    case2: Seq<char>,
    term2: Seq<char>,
)
    requires
        regexp.len() > 0,
    ensures
        content_source(regexp, case1, term1) == content_source(regexp, case2, term2),
        regex_compiles(content_source(regexp, case1, term1)) == regex_compiles(
            content_source(regexp, case2, term2),
        ),
        forall|hay: Seq<char>|
            regex_matches(content_source(regexp, case1, term1), hay) == regex_matches(
                content_source(regexp, case2, term2),
                hay,
            ),
{
}

/// Compiles the content pattern from `regexp`, `case` and `term`.
pub fn set_regex(regexp: &str, case: &str, term: &str) -> (r: Result<Matcher, String>)
    ensures
        r.is_ok() == regex_compiles(content_source(regexp@, case@, term@)),
        r matches Ok(m) ==> m.source() == content_source(regexp@, case@, term@),
        r matches Err(d) ==> d@ == regex_diagnostic(content_source(regexp@, case@, term@)),
{
    if !regexp.is_empty() {
        Matcher::new(regexp)
    } else {
        let case = String::from_str(case);
        let sensitive = case == String::from_str("y") || case == String::from_str("Y");
        let search_term = if sensitive {
            String::from_str(term)
        } else {
            String::from_str("(?i)").concat(term)
        };
        Matcher::new(search_term.as_str())
    }
}

/// Compiles the content pattern of `flags`; on failure the error carries
/// the raw inputs and the compiler's diagnostic.
pub fn set_search_term(flags: &SearchConfig) -> (r: Result<Matcher, SearchError>)
    ensures
        r.is_ok() == regex_compiles(content_source(flags.regexp@, flags.case@, flags.term@)),
        r matches Ok(m) ==> m.source() == content_source(flags.regexp@, flags.case@, flags.term@),
        r matches Err(e) ==> e matches SearchError::PatternError { regexp, case, term, .. } && regexp@
            == flags.regexp@ && case@ == flags.case@ && term@ == flags.term@,
        r matches Err(SearchError::PatternError { diagnostic, .. }) ==> diagnostic@ == regex_diagnostic(
            content_source(flags.regexp@, flags.case@, flags.term@),
        ),
{
    match set_regex(flags.regexp.as_str(), flags.case.as_str(), flags.term.as_str()) {
        Ok(m) => Ok(m),
        Err(e) => Err(
            SearchError::PatternError {
                regexp: flags.regexp.clone(),
                case: flags.case.clone(),
                term: flags.term.clone(),
                diagnostic: e,
            },
        ),
    }
}

} // verus!
