use fortitude::text::{lines_of, split_first, split_on_char, substring, trim};

#[test]
fn trimming_white_space() {
    assert_eq!(trim("  hello world \t\n"), "hello world");
    assert_eq!(trim("\u{3000}\u{00A0}wide\u{2029}"), "wide");
    assert_eq!(trim("   "), "");
    assert_eq!(trim(""), "");
    assert_eq!(trim("a b"), "a b");
    assert_eq!(trim("\u{200B}x"), "\u{200B}x");
    for s in ["\u{85}x\u{1680}", " \r\n y \u{202F}", "\u{2000}\u{200A}z\u{205F}"] {
        assert_eq!(trim(s), s.trim());
    }
}

#[test]
fn splitting_lines() {
    assert_eq!(lines_of("a\nb\r\nc"), vec!["a".to_string(), "b".to_string(), "c".to_string()]);
    assert_eq!(lines_of("a\n\nb\n"), vec!["a".to_string(), "".to_string(), "b".to_string()]);
    assert!(lines_of("").is_empty());
    assert_eq!(lines_of("\r\n"), vec!["".to_string()]);
    for s in ["x\ry\n", "\n\n", "end\r"] {
        let expected: Vec<String> = s.lines().map(|l| l.to_string()).collect();
        assert_eq!(lines_of(s), expected);
    }
}

#[test]
fn splitting_at_separators() {
    assert_eq!(split_first("key::value::more", "::"), "key");
    assert_eq!(split_first("no separator", "::"), "no separator");
    assert_eq!(split_first("::lead", "::"), "");
    assert_eq!(split_on_char("a,,b,", ','), vec!["a", "", "b", ""]);
    assert_eq!(split_on_char("", ','), vec![""]);
    assert_eq!(split_on_char("é,ü", ','), vec!["é", "ü"]);
    assert_eq!(substring("héllo", 1, 4), "éll");
}
