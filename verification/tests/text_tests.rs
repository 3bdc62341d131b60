use sdk_harness::text::{
    contains_str, find_str, parse_usize_dec, split_lines, split_on, str_eq, str_starts_with,
    trim_ws,
};

#[test]
fn str_eq_basics() {
    assert!(str_eq("", ""));
    assert!(str_eq("abc", "abc"));
    assert!(!str_eq("abc", "abd"));
    assert!(!str_eq("abc", "abcd"));
}

#[test]
fn starts_with_basics() {
    assert!(str_starts_with("error[E0308]: x", "error[E"));
    assert!(str_starts_with("anything", ""));
    assert!(!str_starts_with("err", "error"));
    assert!(!str_starts_with("warning: x", "error"));
}

#[test]
fn find_str_first_occurrence() {
    assert_eq!(find_str("a --> b --> c", "-->"), Some(2));
    assert_eq!(find_str("abc", "x"), None);
    assert_eq!(find_str("abc", ""), Some(0));
    assert!(contains_str("error at --> here", "-->"));
    assert!(!contains_str("nothing", "-->"));
}

#[test]
fn split_on_colons() {
    let parts = split_on("src/main.rs:63:9", ':');
    let parts: Vec<&str> = parts.iter().map(|s| s.as_str()).collect();
    assert_eq!(parts, vec!["src/main.rs", "63", "9"]);
    let parts = split_on("", ':');
    let parts: Vec<&str> = parts.iter().map(|s| s.as_str()).collect();
    assert_eq!(parts, vec![""]);
    let parts = split_on("::", ':');
    assert_eq!(parts.len(), 3);
}

#[test]
fn split_lines_matches_std() {
    for s in ["", "a", "a\n", "a\nb", "a\r\nb", "\n", "a\n\nb\n", "end\r"] {
        let got: Vec<String> = split_lines(s).into_iter().collect();
        let want: Vec<String> = s.lines().map(|l| l.to_string()).collect();
        assert_eq!(got, want, "split_lines disagrees on {:?}", s);
    }
}

#[test]
fn trim_ws_basics() {
    assert_eq!(trim_ws("  x \n").as_str(), "x");
    assert_eq!(trim_ws("\t\r\n ").as_str(), "");
    assert_eq!(trim_ws("a b").as_str(), "a b");
    assert_eq!(trim_ws("null\n").as_str(), "null");
}

#[test]
fn parse_usize_basics() {
    assert_eq!(parse_usize_dec("0"), Some(0));
    assert_eq!(parse_usize_dec("63"), Some(63));
    assert_eq!(parse_usize_dec(""), None);
    assert_eq!(parse_usize_dec("12a"), None);
    assert_eq!(parse_usize_dec("+5"), None);
    assert_eq!(parse_usize_dec("18446744073709551615"), Some(usize::MAX));
    assert_eq!(parse_usize_dec("18446744073709551616"), None);
    assert_eq!(parse_usize_dec("99999999999999999999999"), None);
}
