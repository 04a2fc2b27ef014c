use my_git_helper::options::{list_branch_options, local_option, remote_option, sort_by_display, SelectOption};
use my_git_helper::text::{
    contains, ends_with, is_whitespace, join, precedes, same, split_lines, starts_with, strip_prefix, trim,
    trim_start_matches,
};

fn option(display: &str, value: &str) -> SelectOption<String> {
    SelectOption { display: display.to_string(), value: value.to_string() }
}

#[test]
fn trim_removes_unicode_white_space_at_both_ends() {
    assert_eq!(trim("  a b \t\r\n"), "a b");
    assert_eq!(trim("\u{3000}x\u{00A0}"), "x");
    assert_eq!(trim("\u{2003}\u{200A}é\u{2028}\u{2029}"), "é");
    assert_eq!(trim(" \n "), "");
    assert_eq!(trim(""), "");
    assert_eq!(trim("\u{200B}a"), "\u{200B}a");
    for c in ['\t', '\n', '\u{0B}', '\u{0C}', '\r', ' ', '\u{85}', '\u{1680}', '\u{202F}', '\u{205F}'] {
        assert!(is_whitespace(c), "{:?}", c);
        assert_eq!(is_whitespace(c), c.is_whitespace());
    }
    for c in ['a', '\u{8}', '\u{E}', '\u{200B}', '\u{2060}', '\u{FEFF}', '0'] {
        assert!(!is_whitespace(c), "{:?}", c);
    }
    for n in 0u32..0x3100 {
        if let Some(c) = char::from_u32(n) {
            assert_eq!(is_whitespace(c), c.is_whitespace(), "U+{:04X}", n);
        }
    }
}

#[test]
fn trimming_agrees_with_the_standard_library() {
    for s in ["", " ", "a", " a", "a ", "  a  b  ", "\n\ta\u{85}", "\r\n", "* main", "日本 語 "] {
        assert_eq!(trim(s), s.trim(), "{:?}", s);
        assert_eq!(trim_start_matches(s, "* "), s.trim_start_matches("* "), "{:?}", s);
    }
}

#[test]
fn prefixes_suffixes_and_infixes() {
    assert!(starts_with("origin/main", "origin/"));
    assert!(!starts_with("origin", "origin/"));
    assert!(starts_with("x", ""));
    assert!(ends_with("remotes/origin/HEAD", "/HEAD"));
    assert!(!ends_with("HEAD", "/HEAD"));
    assert_eq!(strip_prefix("origin/a/b", "origin/"), Some("a/b".to_string()));
    assert_eq!(strip_prefix("origina", "origin/"), None);
    assert_eq!(trim_start_matches("* * main", "* "), "main");
    assert_eq!(trim_start_matches("main", ""), "main");
    assert!(contains("HEAD -> origin/main", "->"));
    assert!(contains("abc", ""));
    assert!(contains("abc", "abc"));
    assert!(!contains("ab", "abc"));
    assert!(!contains("a-b>c", "->"));
    assert!(same("héllo", "héllo"));
    assert!(!same("a", "ab"));
    assert_eq!(join("a", "b"), "ab");
    assert_eq!(join("", ""), "");
}

#[test]
fn lines_are_split_at_line_feeds() {
    assert_eq!(split_lines(""), Vec::<String>::new());
    assert_eq!(split_lines("a"), vec!["a"]);
    assert_eq!(split_lines("a\n"), vec!["a"]);
    assert_eq!(split_lines("a\nb"), vec!["a", "b"]);
    assert_eq!(split_lines("\n"), vec![""]);
    assert_eq!(split_lines("a\n\nb\n"), vec!["a", "", "b"]);
    for s in ["", "x", "x\n", "\n\n", "a\nb\nc", "* main\n  dev\n"] {
        let expected: Vec<String> = s.lines().map(|l| l.to_string()).collect();
        assert_eq!(split_lines(s), expected, "{:?}", s);
    }
}

#[test]
fn order_is_by_code_point() {
    assert!(precedes("", ""));
    assert!(precedes("", "a"));
    assert!(!precedes("a", ""));
    assert!(precedes("a", "a"));
    assert!(precedes("a", "b"));
    assert!(!precedes("b", "a"));
    assert!(precedes("ab", "abc"));
    assert!(!precedes("abc", "ab"));
    assert!(precedes("Z", "a"));
    let samples = ["", "a", "ab", "b", "B", "é", "z", "日本", "a (local)", "a (origin)", "\u{10000}", "\u{FFFF}"];
    for a in samples {
        for b in samples {
            assert_eq!(precedes(a, b), a <= b, "{:?} {:?}", a, b);
        }
    }
}

#[test]
fn an_option_reads_as_its_label() {
    assert_eq!(option("main (local)", "main").to_string(), "main (local)");
}

#[test]
fn a_line_of_the_local_listing() {
    assert_eq!(local_option("* main"), Some(option("main (local)", "main")));
    assert_eq!(local_option("  feature/x  "), Some(option("feature/x (local)", "feature/x")));
    assert_eq!(local_option(""), None);
    assert_eq!(local_option("   "), None);
    assert_eq!(local_option("  remotes/origin/HEAD -> origin/main"), None);
}

#[test]
fn a_line_of_the_full_listing() {
    assert_eq!(remote_option("  remotes/origin/main"), Some(option("main (origin)", "origin/main")));
    assert_eq!(remote_option("  remotes/origin/HEAD -> origin/main"), None);
    assert_eq!(remote_option("* main"), None);
    assert_eq!(remote_option("  remotes/upstream/main"), None);
}

#[test]
fn options_are_merged_deduplicated_and_sorted_by_label() {
    let local = "  zeta\n* main\n  alpha\n  main\n";
    let all = "  zeta\n* main\n  alpha\n  remotes/origin/HEAD -> origin/main\n  remotes/origin/main\n  remotes/origin/beta\n  remotes/origin/main\n";
    assert_eq!(
        list_branch_options(local, all),
        vec![
            option("alpha (local)", "alpha"),
            option("beta (origin)", "origin/beta"),
            option("main (local)", "main"),
            option("main (origin)", "origin/main"),
            option("zeta (local)", "zeta"),
        ]
    );
    assert_eq!(list_branch_options("", ""), vec![]);
}

#[test]
fn a_local_branch_named_like_a_remote_one_wins_the_value() {
    let options = list_branch_options("  origin/x\n", "  origin/x\n  remotes/origin/x\n");
    assert_eq!(options, vec![option("origin/x (local)", "origin/x")]);
}

#[test]
fn sorting_is_stable_and_agrees_with_the_standard_library() {
    let input = vec![
        option("b", "1"),
        option("a", "2"),
        option("b", "3"),
        option("", "4"),
        option("a", "5"),
        option("ab", "6"),
    ];
    let mut expected = input.clone();
    expected.sort_by(|x, y| x.display.cmp(&y.display));
    assert_eq!(sort_by_display(&input), expected);
    assert_eq!(
        sort_by_display(&input).iter().map(|o| o.value.as_str()).collect::<Vec<_>>(),
        vec!["4", "2", "5", "6", "1", "3"]
    );
}
