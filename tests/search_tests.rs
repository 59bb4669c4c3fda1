use file_crawler::config::{define_flags, has_required, set_flags, SearchConfig};
use file_crawler::error::SearchError;
use file_crawler::extensions::{extensions_factory, is_valid_file};
use file_crawler::matcher::Matcher;
use file_crawler::pattern::{set_regex, set_search_term};
use file_crawler::report::{log_factory, LogTarget};
use file_crawler::search::{file_has_match, prepare, Search};
use file_crawler::text::{find_char, split_at_char};

fn config_with(args: &[&str]) -> SearchConfig {
    let args: Vec<String> = args.iter().map(|a| a.to_string()).collect();
    let mut flags = define_flags();
    set_flags(&args, &mut flags);
    flags
}

fn hits(m: &Matcher, hay: &str) -> bool {
    file_has_match(&Some(hay.to_string()), m)
}

fn ready(args: &[&str]) -> Search {
    match prepare(&config_with(args)) {
        Ok(s) => s,
        Err(e) => panic!("preparation failed: {}", e.message()),
    }
}

#[test]
fn defaults_are_set() {
    let flags = define_flags();
    assert_eq!(flags.term, "");
    assert_eq!(flags.root, "./");
    assert_eq!(flags.ext, "txt");
    assert_eq!(flags.case, "n");
    assert_eq!(flags.regexp, "");
    assert_eq!(flags.log, "console");
}

#[test]
fn settings_override_in_order() {
    let flags = config_with(&["prog", "term=one", "help-me", "colour=red", "term=two", "ext=md,rs"]);
    assert_eq!(flags.term, "two");
    assert_eq!(flags.ext, "md,rs");
    assert_eq!(flags.root, "./");
}

#[test]
fn value_keeps_later_equals_signs() {
    let flags = config_with(&["regexp=a=b", "root="]);
    assert_eq!(flags.regexp, "a=b");
    assert_eq!(flags.root, "");
}

#[test]
fn required_needs_term_or_regexp() {
    assert!(!has_required(&define_flags()));
    assert!(has_required(&config_with(&["term=x"])));
    assert!(has_required(&config_with(&["regexp=^x"])));
}

#[test]
fn split_keeps_empty_pieces() {
    let pieces = split_at_char("a,,b,", ',');
    assert_eq!(pieces, vec!["a", "", "b", ""]);
    assert_eq!(split_at_char("", ','), vec![""]);
}

#[test]
fn find_char_gives_first_position() {
    assert_eq!(find_char("k=v=w", '='), Some(1));
    assert_eq!(find_char("kv", '='), None);
}

#[test]
fn term_ignores_case_by_default() {
    let m = set_regex("", "n", "Find Me").unwrap();
    assert_eq!(m.as_str(), "(?i)Find Me");
    assert!(hits(&m, "we must find me now"));
    assert!(hits(&m, "FIND ME"));
    assert!(hits(&m, "Find Me"));
    assert!(!hits(&m, "find you"));
}

#[test]
fn term_with_case_y_is_exact() {
    for case in ["y", "Y"] {
        let m = set_regex("", case, "Find Me").unwrap();
        assert_eq!(m.as_str(), "Find Me");
        assert!(hits(&m, "xx Find Me xx"));
        assert!(!hits(&m, "find me"));
        assert!(!hits(&m, "FIND ME"));
    }
}

#[test]
fn other_case_values_ignore_case() {
    for case in ["yes", "Y ", ""] {
        let m = set_regex("", case, "abc").unwrap();
        assert!(hits(&m, "ABC"));
    }
}

#[test]
fn regexp_overrides_term_and_case() {
    let a = set_regex("^start", "y", "whatever").unwrap();
    let b = set_regex("^start", "n", "").unwrap();
    assert_eq!(a.as_str(), "^start");
    assert_eq!(b.as_str(), "^start");
    for hay in ["start here", "Start here", "not start"] {
        assert_eq!(hits(&a, hay), hits(&b, hay));
    }
    assert!(hits(&a, "start here"));
    assert!(!hits(&a, "Start here"));
}

#[test]
fn bad_regexp_is_a_pattern_error() {
    let flags = config_with(&["regexp=(", "term=t"]);
    match set_search_term(&flags) {
        Err(e) => {
            assert!(matches!(e, SearchError::PatternError { .. }));
            assert!(e.message().starts_with("Problem regexp ( into regex "));
        }
        Ok(_) => panic!("an unclosed group compiled"),
    }
}

#[test]
fn bad_term_is_a_pattern_error() {
    let flags = config_with(&["term=a(b"]);
    match prepare(&flags) {
        Err(e) => {
            assert!(e.message().starts_with("Problem parsing term \"a(b\" and case \"n\" into regex "));
        }
        Ok(_) => panic!("an unclosed group compiled"),
    }
}

#[test]
fn twenty_five_extensions_are_accepted() {
    let list: Vec<String> = (0..25).map(|i| format!("e{}", i)).collect();
    let exts = extensions_factory(&list.join(",")).unwrap();
    assert_eq!(exts.len(), 25);
    assert_eq!(exts[0].as_str(), "(?i)\\.e0$");
    assert!(is_valid_file("notes.E24", &exts));
    assert!(!is_valid_file("notes.e25", &exts));
}

#[test]
fn twenty_six_extensions_are_refused() {
    let list: Vec<String> = (0..26).map(|i| format!("e{}", i)).collect();
    match extensions_factory(&list.join(",")) {
        Err(e) => {
            assert!(matches!(e, SearchError::TooManyExtensions));
            assert_eq!(e.message(), "Surpassed 25 extensions");
        }
        Ok(_) => panic!("26 extensions were accepted"),
    }
}

#[test]
fn extension_matching_ignores_case_and_needs_the_dot() {
    let exts = extensions_factory("txt").unwrap();
    assert_eq!(exts.len(), 1);
    assert!(is_valid_file("a.txt", &exts));
    assert!(is_valid_file("b.TXT", &exts));
    assert!(!is_valid_file("atxt", &exts));
    assert!(!is_valid_file("a.txt.bak", &exts));
    assert!(!is_valid_file("c.md", &exts));
}

#[test]
fn leading_dot_is_not_doubled() {
    let exts = extensions_factory(".md,rs").unwrap();
    assert_eq!(exts[0].as_str(), "(?i)\\.md$");
    assert_eq!(exts[1].as_str(), "(?i)\\.rs$");
    assert!(is_valid_file("README.MD", &exts));
    assert!(is_valid_file("lib.rs", &exts));
    assert!(!is_valid_file("README..md.x", &exts));
}

#[test]
fn invalid_extension_aborts_the_set() {
    match extensions_factory("txt,(,md") {
        Err(SearchError::InvalidExtension { pattern }) => {
            assert_eq!(pattern, "(?i)\\.($");
        }
        _ => panic!("an unclosed group was accepted"),
    }
    let e = extensions_factory("(").err().unwrap();
    assert_eq!(e.message(), "Failed to accept extension (?i)\\.($");
}

#[test]
fn unreadable_file_never_matches() {
    let m = Matcher::new("").unwrap();
    assert!(!file_has_match(&None, &m));
    assert!(file_has_match(&Some(String::new()), &m));
    let s = ready(&["term=hello"]);
    assert_eq!(s.report_for("root/gone.txt", &None), None);
}

#[test]
fn usage_error_when_nothing_to_search() {
    for args in [&["term=", "regexp="][..], &[][..]] {
        match prepare(&config_with(args)) {
            Err(e) => {
                assert!(matches!(e, SearchError::UsageError));
                assert!(e.message().starts_with("There is no term or regexp defined!"));
            }
            Ok(_) => panic!("a run was prepared without a term"),
        }
    }
}

#[test]
fn usage_error_comes_before_extension_errors() {
    let e = prepare(&config_with(&["ext=a,b,c,d,e,f,g,h,i,j,k,l,m,n,o,p,q,r,s,t,u,v,w,x,y,z"]))
        .err()
        .unwrap();
    assert!(matches!(e, SearchError::UsageError));
    let e = prepare(&config_with(&["term=x", "ext=a,b,c,d,e,f,g,h,i,j,k,l,m,n,o,p,q,r,s,t,u,v,w,x,y,z"]))
        .err()
        .unwrap();
    assert!(matches!(e, SearchError::TooManyExtensions));
}

#[test]
fn tree_scenario_reports_matching_txt_files() {
    let s = ready(&["term=hello", "ext=txt", "root=root"]);
    assert_eq!(s.root, "root");
    let tree: [(&str, &str, bool, &str); 4] = [
        ("root/a.txt", "a.txt", true, "hello"),
        ("root/b.TXT", "b.TXT", true, "HELLO"),
        ("root/sub", "sub", false, ""),
        ("root/sub/c.md", "c.md", true, "hello"),
    ];
    let mut reported: Vec<String> = Vec::new();
    for (path, name, is_file, content) in tree {
        if s.should_read(is_file, name) {
            if let Some(line) = s.report_for(path, &Some(content.to_string())) {
                reported.push(line);
            }
        }
    }
    assert_eq!(reported, vec!["root/a.txt", "root/b.TXT"]);
}

#[test]
fn console_output_is_concatenated() {
    let t = log_factory("console");
    assert!(matches!(t, LogTarget::Console));
    let out: String = ["root/a.txt", "root/b.TXT"].iter().map(|m| t.render(m)).collect();
    assert_eq!(out, "root/a.txtroot/b.TXT");
}

#[test]
fn file_output_is_one_line_per_message() {
    let t = log_factory("/tmp/found.log");
    assert!(matches!(&t, LogTarget::File { path } if path == "/tmp/found.log"));
    let mut out = String::from("earlier\n");
    for m in ["root/a.txt", "root/b.TXT"] {
        out.push_str(&t.render(m));
    }
    assert_eq!(out, "earlier\nroot/a.txt\nroot/b.TXT\n");
}

#[test]
fn pattern_error_carries_compiler_diagnostic() {
    let expected = format!("{:?}", regex::Regex::new("(?i)a(b").unwrap_err());
    match prepare(&config_with(&["term=a(b"])) {
        Err(SearchError::PatternError { regexp, case, term, diagnostic }) => {
            assert_eq!(regexp, "");
            assert_eq!(case, "n");
            assert_eq!(term, "a(b");
            assert_eq!(diagnostic, expected);
        }
        _ => panic!("an unclosed group compiled"),
    }
    let expected = format!("{:?}", regex::Regex::new("(").unwrap_err());
    let e = set_regex("(", "y", "ignored").err().unwrap();
    assert_eq!(e, expected);
    let e = set_search_term(&config_with(&["regexp=("])).err().unwrap();
    assert_eq!(e.message(), format!("Problem regexp ( into regex {}", expected));
}
