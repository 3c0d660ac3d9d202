use easy_proxy::decimal::{decimal, parse_number};
use easy_proxy::text::{
    begins, chars_of, has, joined, lines_of, replaced_char, same_text, split_chars, squeezed,
    string_of, trimmed, trimmed_end_char, trimmed_start, white_space, words_of,
};

fn strings(v: &[&str]) -> Vec<String> {
    v.iter().map(|s| s.to_string()).collect()
}

#[test]
fn characters_and_back() {
    assert_eq!(string_of(&chars_of("a中\u{1f600}")), "a中\u{1f600}");
    assert!(same_text("中", "中"));
    assert!(!same_text("中", "国"));
    assert!(white_space('\u{3000}') && white_space('\u{85}') && !white_space('\u{200b}'));
}

#[test]
fn trimming() {
    for s in ["", " ", " a ", "\u{3000}a b\u{2003}", "\t\r\na\u{85}"] {
        assert_eq!(trimmed(s), s.trim());
        assert_eq!(trimmed_start(s), s.trim_start());
    }
    assert_eq!(trimmed_end_char("pw\n\n", '\n'), "pw");
    assert_eq!(trimmed_end_char("\n", '\n'), "");
}

#[test]
fn searching() {
    for (h, n) in [("", ""), ("abc", ""), ("abc", "bc"), ("abc", "bd"), ("aab", "ab"), ("a", "aa")] {
        assert_eq!(has(h, n), h.contains(n));
        assert_eq!(begins(h, n), h.starts_with(n));
    }
}

#[test]
fn splitting_and_joining() {
    for s in ["", "a", "a.b", ".a..b.", "..."] {
        let expect: Vec<&str> = s.split('.').collect();
        assert_eq!(split_chars(&chars_of(s), '.'), strings(&expect));
    }
    for s in ["", " ", "a b", "  a \u{3000} b\n"] {
        let expect: Vec<&str> = s.split_whitespace().collect();
        assert_eq!(words_of(s), strings(&expect));
        assert_eq!(squeezed(s), expect.join(" "));
    }
    for s in ["", "\n", "a", "a\n", "a\r\nb", "a\n\nb\r", "\r\n"] {
        let expect: Vec<&str> = s.lines().collect();
        assert_eq!(lines_of(s), strings(&expect));
    }
    assert_eq!(joined(&strings(&["a", "b"]), ", "), "a, b");
    assert_eq!(joined(&[], ", "), "");
    assert_eq!(replaced_char("a'b'", '\'', "-"), "a-b-");
}

#[test]
fn numbers_and_back() {
    for n in [0u64, 7, 10, 65535, u64::MAX] {
        assert_eq!(decimal(n), n.to_string());
        assert_eq!(parse_number(&decimal(n), u64::MAX), Some(n));
    }
    assert_eq!(parse_number("+5", 10), Some(5));
    assert_eq!(parse_number("0010", 10), Some(10));
    assert_eq!(parse_number("11", 10), None);
    assert_eq!(parse_number("", 10), None);
    assert_eq!(parse_number("+", 10), None);
    assert_eq!(parse_number("-1", 10), None);
    assert_eq!(parse_number("1a", 10), None);
    assert_eq!(parse_number("18446744073709551616", u64::MAX), None);
}
