//! Why a search run cannot start, and the text reported for it.

use vstd::prelude::*;

verus! {

/// A failure detected before any file is looked at; each one ends the run.
#[derive(Debug)]
pub enum SearchError {
    /// Neither a term nor a regular expression was given.
    UsageError,
    /// The content pattern does not compile. It carries the raw inputs and
    /// the compiler's diagnostic.
    PatternError { regexp: String, case: String, term: String, diagnostic: String },
    /// More than the allowed number of extensions was given.
    TooManyExtensions,
    /// The suffix pattern built from one extension does not compile.
    InvalidExtension { pattern: String },
}

/// The text reported for an error.
pub open spec fn error_message(e: &SearchError) -> Seq<char> {
    match e {
        SearchError::UsageError => "There is no term or regexp defined! Example: file_crawler term=\"find me\" or file_crawler regexp=^startswith"@,
        SearchError::PatternError { regexp, case, term, diagnostic } => if regexp@.len() > 0 {
            "Problem regexp "@ + regexp@ + " into regex "@ + diagnostic@
        } else {
            "Problem parsing term \""@ + term@ + "\" and case \""@ + case@ + "\" into regex "@
                + diagnostic@
        },
        SearchError::TooManyExtensions => "Surpassed 25 extensions"@,
        SearchError::InvalidExtension { pattern } => "Failed to accept extension "@ + pattern@,
    }
}

impl SearchError {
    /// The text reported for this error.
    pub fn message(&self) -> (r: String)
        ensures
            r@ == error_message(self),
    {
        match self {
            SearchError::UsageError => String::from_str(
                "There is no term or regexp defined! Example: file_crawler term=\"find me\" or file_crawler regexp=^startswith",
            ),
            SearchError::PatternError { regexp, case, term, diagnostic } => {
                if !regexp.as_str().is_empty() {
                    String::from_str("Problem regexp ").concat(regexp.as_str()).concat(
                        " into regex ",
                    ).concat(diagnostic.as_str())
                } else {
                    String::from_str("Problem parsing term \"").concat(term.as_str()).concat(
                        "\" and case \"",
                    ).concat(case.as_str()).concat("\" into regex ").concat(diagnostic.as_str())
                }
            },
            SearchError::TooManyExtensions => String::from_str("Surpassed 25 extensions"),
            SearchError::InvalidExtension { pattern } => String::from_str(
                "Failed to accept extension ",
            ).concat(pattern.as_str()),
        }
    }
}

} // verus!
