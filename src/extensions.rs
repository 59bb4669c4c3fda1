//! Builds the file-name suffix matchers from the comma-separated extension
//! list, and checks a file name against them.

use vstd::prelude::*;
use crate::error::SearchError;
use crate::matcher::{regex_compiles, regex_matches, Matcher};
use crate::text::{split_at_char, split_on};

verus! {

/// The largest number of extensions a search accepts.
pub const MAX_EXTENSIONS: usize = 25;

/// The extension tokens of a comma-separated list.
pub open spec fn ext_tokens(ext: Seq<char>) -> Seq<Seq<char>> {
    split_on(ext, ',')
}

/// The case-insensitive pattern for names ending in the extension: an
/// escaped dot is put before a token that does not start with one, and the
/// pattern is anchored at the end.
pub open spec fn suffix_pattern(token: Seq<char>) -> Seq<char> {
    if token.len() > 0 && token[0] == '.' {
        "(?i)\\"@ + token + "$"@
    } else {
        "(?i)\\."@ + token + "$"@
    }
}

/// Every token's suffix pattern compiles.
pub open spec fn all_compile(tokens: Seq<Seq<char>>) -> bool {
    forall|i: int| 0 <= i < tokens.len() ==> regex_compiles(#[trigger] suffix_pattern(tokens[i]))
}

/// `i` is the first token whose suffix pattern does not compile.
pub open spec fn first_invalid(tokens: Seq<Seq<char>>, i: int) -> bool {
    &&& 0 <= i < tokens.len()
    &&& !regex_compiles(suffix_pattern(tokens[i]))
    &&& forall|j: int| 0 <= j < i ==> regex_compiles(#[trigger] suffix_pattern(tokens[j]))
}

/// The sources of a list of matchers.
pub open spec fn sources(ms: Seq<Matcher>) -> Seq<Seq<char>> {
    ms.map_values(|m: Matcher| m.source())
}

/// Whether some matcher matches `name`.
pub open spec fn name_matches(ms: Seq<Matcher>, name: Seq<char>) -> bool {
    exists|i: int| 0 <= i < ms.len() && regex_matches(#[trigger] ms[i].source(), name)
}

/// Builds the suffix pattern of one extension token.
fn suffix_pattern_of(token: &str) -> (r: String)
    ensures
        r@ == suffix_pattern(token@),
{
    if !token.is_empty() && token.get_char(0) == '.' {
        String::from_str("(?i)\\").concat(token).concat("$")
    } else {
        String::from_str("(?i)\\.").concat(token).concat("$")
    }
}

/// Builds one matcher per extension in `ext`. Fails with
/// `TooManyExtensions` when there are more than `MAX_EXTENSIONS`, else with
/// `InvalidExtension` naming the first suffix pattern that does not compile.
pub fn extensions_factory(ext: &str) -> (r: Result<Vec<Matcher>, SearchError>)
    ensures
        (r matches Err(SearchError::TooManyExtensions)) <==> ext_tokens(ext@).len()
            > MAX_EXTENSIONS,
        r.is_ok() <==> ext_tokens(ext@).len() <= MAX_EXTENSIONS && all_compile(ext_tokens(ext@)),
        r matches Ok(v) ==> sources(v@) == ext_tokens(ext@).map_values(
            |t: Seq<char>| suffix_pattern(t),
        ),
        r matches Err(e) ==> (e matches SearchError::TooManyExtensions) || (e matches SearchError::InvalidExtension { pattern } && exists|i: int|
            first_invalid(ext_tokens(ext@), i) && pattern@ == suffix_pattern(
                ext_tokens(ext@)[i],
            )),
{
    let raw = split_at_char(ext, ',');
    let ghost tokens = ext_tokens(ext@);
    assert(raw@.len() == tokens.len());
    if raw.len() > MAX_EXTENSIONS {
        return Err(SearchError::TooManyExtensions);
    }
    let mut matchers: Vec<Matcher> = Vec::new();
    let mut i: usize = 0;
    while i < raw.len()
        invariant
            raw@.map_values(|t: String| t@) == tokens,
            raw@.len() == tokens.len(),
            tokens == ext_tokens(ext@),
            tokens.len() <= MAX_EXTENSIONS,
            i <= raw@.len(),
            sources(matchers@) == tokens.subrange(0, i as int).map_values(
                |t: Seq<char>| suffix_pattern(t),
            ),
            forall|j: int| 0 <= j < i ==> regex_compiles(#[trigger] suffix_pattern(tokens[j])),
        decreases raw@.len() - i,
    {
        assert(raw@[i as int]@ == tokens[i as int]);
        let pattern = suffix_pattern_of(raw[i].as_str());
        match Matcher::new(pattern.as_str()) {
            Ok(m) => {
                let ghost before = matchers@;
                matchers.push(m);
                assert(matchers@ =~= before.push(m));
                assert(sources(matchers@) =~= sources(before).push(suffix_pattern(tokens[i as int])));
                assert(sources(matchers@) =~= tokens.subrange(0, i as int + 1).map_values(
                    |t: Seq<char>| suffix_pattern(t),
                ));
            },
            Err(_) => {
                assert(first_invalid(tokens, i as int));
                assert(!all_compile(tokens));
                return Err(SearchError::InvalidExtension { pattern });
            },
        }
        i = i + 1;
    }
    assert(tokens.subrange(0, i as int) =~= tokens);
    Ok(matchers)
}

/// Whether some extension matcher accepts the file name.
pub fn is_valid_file(file_name: &str, extensions: &Vec<Matcher>) -> (r: bool)
    ensures
        r == name_matches(extensions@, file_name@),
{
    let mut i: usize = 0;
    while i < extensions.len()
        invariant
            i <= extensions@.len(),
            forall|j: int|
                0 <= j < i ==> !regex_matches(#[trigger] extensions@[j].source(), file_name@),
        decreases extensions@.len() - i,
    {
        if extensions[i].is_match(file_name) {
            return true;
        }
        i = i + 1;
    }
    false
}

} // verus!
