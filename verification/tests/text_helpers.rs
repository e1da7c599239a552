use loon::text::{decimal_string, join_lines, replace_all, split_lines, trim};

#[test]
fn trim_removes_unicode_whitespace() {
    assert_eq!(trim("  \t hello world \n"), "hello world");
    assert_eq!(trim("\u{3000}x\u{a0}"), "x");
    assert_eq!(trim("   "), "");
    assert_eq!(trim(""), "");
    assert_eq!(trim("a b"), "a b");
}

#[test]
fn split_lines_matches_std_lines() {
    let cases = ["", "a", "a\n", "a\nb", "a\r\nb\r\n", "\n\n", "x\r", "a\rb\n", "é\nü"];
    for c in cases {
        let ours: Vec<String> = split_lines(c);
        let std_lines: Vec<String> = c.lines().map(|l| l.to_string()).collect();
        assert_eq!(ours, std_lines, "input {:?}", c);
    }
}

#[test]
fn join_lines_inserts_newlines() {
    let v = vec!["a".to_string(), "".to_string(), "c".to_string()];
    assert_eq!(join_lines(&v), "a\n\nc");
    assert_eq!(join_lines(&Vec::new()), "");
}

#[test]
fn replace_all_matches_std_replace() {
    let cases = [
        ("{{x}} and {{x}}", "{{x}}", "Y"),
        ("aaa", "aa", "b"),
        ("none here", "{{x}}", "Y"),
        ("ab", "abc", "z"),
        ("{{x}}", "{{x}}", ""),
    ];
    for (s, p, r) in cases {
        assert_eq!(replace_all(s, p, r), s.replace(p, r));
    }
}

#[test]
fn decimal_renders_digits() {
    assert_eq!(decimal_string(0), "0");
    assert_eq!(decimal_string(7), "7");
    assert_eq!(decimal_string(1725029869), "1725029869");
    assert_eq!(decimal_string(u64::MAX), u64::MAX.to_string());
}
