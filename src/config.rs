//! Search options: their defaults, and how `key=value` arguments set them.

use vstd::prelude::*;
use crate::text::{find_char, is_first};

verus! {

/// The options of one search run.
pub struct SearchConfig {
    /// Literal text to search for.
    pub term: String,
    /// Directory to search from.
    pub root: String,
    /// Comma-separated list of file extensions to include.
    pub ext: String,
    /// `y` or `Y` for a case-sensitive term; anything else ignores case.
    pub case: String,
    /// A regular expression that, when non-empty, replaces term and case.
    pub regexp: String,
    /// `console`, or the path of a file to append matches to.
    pub log: String,
}

/// The option values of a `SearchConfig`, as character sequences.
pub struct ConfigView {
    pub term: Seq<char>,
    pub root: Seq<char>,
    pub ext: Seq<char>,
    pub case: Seq<char>,
    pub regexp: Seq<char>,
    pub log: Seq<char>,
}

impl View for SearchConfig {
    type V = ConfigView;

    open spec fn view(&self) -> ConfigView {
        ConfigView {
            term: self.term@,
            root: self.root@,
            ext: self.ext@,
            case: self.case@,
            regexp: self.regexp@,
            log: self.log@,
        }
    }
}

/// The options before any argument is applied.
pub open spec fn default_config() -> ConfigView {
    ConfigView {
        term: ""@,
        root: "./"@,
        ext: "txt"@,
        case: "n"@,
        regexp: ""@,
        log: "console"@,
    }
}

/// The options after `key` is set to `value`; an unknown key changes nothing.
pub open spec fn with_setting(c: ConfigView, key: Seq<char>, value: Seq<char>) -> ConfigView {
    if key == "term"@ {
        ConfigView { term: value, ..c }
    } else if key == "root"@ {
        ConfigView { root: value, ..c }
    } else if key == "ext"@ {
        ConfigView { ext: value, ..c }
    } else if key == "case"@ {
        ConfigView { case: value, ..c }
    } else if key == "regexp"@ {
        ConfigView { regexp: value, ..c }
    } else if key == "log"@ {
        ConfigView { log: value, ..c }
    } else {
        c
    }
}

/// The key and value of an argument `key=value`, split at its first `=`;
/// an argument without `=` is no setting.
pub open spec fn setting_of(arg: Seq<char>) -> Option<(Seq<char>, Seq<char>)> {
    if exists|k: int| is_first(arg, '=', k) {
        let k = choose|k: int| is_first(arg, '=', k);
        Some((arg.subrange(0, k), arg.subrange(k + 1, arg.len() as int)))
    } else {
        None
    }
}

/// The options after applying each argument in turn, so that a later
/// setting of a key overrides an earlier one.
pub open spec fn apply_args(c: ConfigView, args: Seq<Seq<char>>) -> ConfigView
    decreases args.len(),
{
    if args.len() == 0 {
        c
    } else {
        let before = apply_args(c, args.drop_last());
        match setting_of(args.last()) {
            Some((key, value)) => with_setting(before, key, value),
            None => before,
        }
    }
}

/// Whether the options name something to search for.
pub open spec fn has_search(c: ConfigView) -> bool {
    c.term.len() > 0 || c.regexp.len() > 0
}

/// The default options.
pub fn define_flags() -> (r: SearchConfig)
    ensures
        r@ == default_config(),
{
    SearchConfig {
        term: String::from_str(""),
        root: String::from_str("./"),
        ext: String::from_str("txt"),
        case: String::from_str("n"),
        regexp: String::from_str(""),
        log: String::from_str("console"),
    }
}

/// Sets option `key` to `value`; an unknown key changes nothing.
pub fn set_flag(flags: &mut SearchConfig, key: String, value: String)
    ensures
        final(flags)@ == with_setting(old(flags)@, key@, value@),
{
    if key == String::from_str("term") {
        flags.term = value;
    } else if key == String::from_str("root") {
        flags.root = value;
    } else if key == String::from_str("ext") {
        flags.ext = value;
    } else if key == String::from_str("case") {
        flags.case = value;
    } else if key == String::from_str("regexp") {
        flags.regexp = value;
    } else if key == String::from_str("log") {
        flags.log = value;
    }
}

/// Applies each `key=value` argument in turn; arguments without `=` and
/// unknown keys are ignored.
pub fn set_flags(args: &Vec<String>, flags: &mut SearchConfig)
    ensures
        final(flags)@ == apply_args(old(flags)@, args@.map_values(|a: String| a@)),
{
    let ghost start = flags@;
    let mut i: usize = 0;
    while i < args.len()
        invariant
            i <= args@.len(),
            flags@ == apply_args(start, args@.map_values(|a: String| a@).subrange(0, i as int)),
        decreases args@.len() - i,
    {
        let arg = args[i].as_str();
        let ghost seen = args@.map_values(|a: String| a@).subrange(0, i as int + 1);
        assert(seen.drop_last() =~= args@.map_values(|a: String| a@).subrange(0, i as int));
        assert(seen.last() == arg@);
        match find_char(arg, '=') {
            Some(k) => {
                let n: usize = arg.unicode_len();
                let key = String::from_str(arg.substring_char(0, k));
                let value = String::from_str(arg.substring_char(k + 1, n));
                proof {
                    let kk = choose|kk: int| is_first(arg@, '=', kk);
                    crate::text::lemma_first_unique(arg@, '=', k as int, kk);
                }
                set_flag(flags, key, value);
            },
            None => {
                assert(!exists|k: int| is_first(arg@, '=', k));
            },
        }
        i = i + 1;
    }
    assert(args@.map_values(|a: String| a@).subrange(0, args@.len() as int)
        =~= args@.map_values(|a: String| a@));
}

/// Whether a term or a regular expression is given.
pub fn has_required(flags: &SearchConfig) -> (r: bool)
    ensures
        r == has_search(flags@),
{
    !flags.term.as_str().is_empty() || !flags.regexp.as_str().is_empty()
}

} // verus!
