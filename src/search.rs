//! One search run: the matchers prepared from the options, and the
//! decision taken for each file that a traversal finds.

use vstd::prelude::*;
use crate::config::{has_required, has_search, SearchConfig};
use crate::error::SearchError;
use crate::extensions::{
    all_compile, ext_tokens, extensions_factory, first_invalid, is_valid_file, name_matches,
    sources, suffix_pattern, MAX_EXTENSIONS,
};
use crate::matcher::{regex_compiles, regex_diagnostic, regex_matches, Matcher};
use crate::pattern::{content_source, set_search_term};

verus! {

/// The compiled matchers and start directory of a run.
pub struct Search {
    /// The pattern tested against each file's whole content.
    pub pattern: Matcher,
    /// The file-name suffix matchers, one per extension.
    pub extensions: Vec<Matcher>,
    /// The directory the traversal starts from.
    pub root: String,
}

/// The content pattern text that the options give.
pub open spec fn content_of(c: SearchConfig) -> Seq<char> {
    content_source(c.regexp@, c.case@, c.term@)
}

/// Whether the content matches: a file whose content could not be read as
/// text (`None`) never matches.
pub open spec fn content_matches(pattern: Seq<char>, contents: Option<String>) -> bool {
    match contents {
        Some(c) => regex_matches(pattern, c@),
        None => false,
    }
}

/// Whether a file whose content was read (or failed to be read) matches
/// the pattern.
pub fn file_has_match(contents: &Option<String>, search_reg: &Matcher) -> (r: bool)
    ensures
        r == content_matches(search_reg.source(), *contents),
{
    match contents {
        Some(c) => search_reg.is_match(c.as_str()),
        None => false,
    }
}

/// Prepares a run from the options. The checks come in order: a term or
/// regexp must be given, the content pattern must compile, there may be at
/// most `MAX_EXTENSIONS` extensions, and each suffix pattern must compile.
pub fn prepare(flags: &SearchConfig) -> (r: Result<Search, SearchError>)
    ensures
        (r matches Err(SearchError::UsageError)) <==> !has_search(flags@),
        r.is_ok() <==> has_search(flags@) && regex_compiles(content_of(*flags))
            && ext_tokens(flags.ext@).len() <= MAX_EXTENSIONS && all_compile(
            ext_tokens(flags.ext@),
        ),
        has_search(flags@) && !regex_compiles(content_of(*flags)) ==> (r matches Err(
            SearchError::PatternError { regexp, case, term, diagnostic },
        ) && regexp@ == flags.regexp@ && case@ == flags.case@ && term@ == flags.term@
            && diagnostic@ == regex_diagnostic(content_of(*flags))),
        has_search(flags@) && regex_compiles(content_of(*flags)) && ext_tokens(flags.ext@).len()
            > MAX_EXTENSIONS ==> (r matches Err(SearchError::TooManyExtensions)),
        has_search(flags@) && regex_compiles(content_of(*flags)) && ext_tokens(flags.ext@).len()
            <= MAX_EXTENSIONS && !all_compile(ext_tokens(flags.ext@)) ==> (r matches Err(
            SearchError::InvalidExtension { pattern },
        ) && exists|i: int|
            first_invalid(ext_tokens(flags.ext@), i) && pattern@ == suffix_pattern(
                ext_tokens(flags.ext@)[i],
            )),
        r matches Ok(s) ==> {
            &&& s.pattern.source() == content_of(*flags)
            &&& sources(s.extensions@) == ext_tokens(flags.ext@).map_values(
                |t: Seq<char>| suffix_pattern(t),
            )
            &&& s.root@ == flags.root@
        },
{
    if !has_required(flags) {
        return Err(SearchError::UsageError);
    }
    let pattern = match set_search_term(flags) {
        Ok(m) => m,
        Err(e) => {
            return Err(e);
        },
    };
    let extensions = match extensions_factory(flags.ext.as_str()) {
        Ok(v) => v,
        Err(e) => {
            return Err(e);
        },
    };
    Ok(Search { pattern, extensions, root: flags.root.clone() })
}

impl Search {
    /// Whether a found entry is read: it must be a regular file whose name
    /// some extension matcher accepts.
    pub fn should_read(&self, is_file: bool, file_name: &str) -> (r: bool)
        ensures
            r == (is_file && name_matches(self.extensions@, file_name@)),
    {
        is_file && is_valid_file(file_name, &self.extensions)
    }

    /// The line reported for a file that was read: its path when the
    /// content matches, nothing otherwise.
    pub fn report_for(&self, path: &str, contents: &Option<String>) -> (r: Option<String>)
        ensures
            r is Some <==> content_matches(self.pattern.source(), *contents),
            r matches Some(line) ==> line@ == path@,
    {
        if file_has_match(contents, &self.pattern) {
            Some(String::from_str(path))
        } else {
            None
        }
    }
}

} // verus!
