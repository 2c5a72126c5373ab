use taicho::text::{chars_of, contains, starts_with, str_eq, to_ascii_lowercase, trim};
use taicho::ui::messages::truncate;

#[test]
fn trim_matches_std() {
    for s in ["", "   ", " a b ", "\u{3000}x\u{85}", "\t\n\r\u{b}\u{c}y", "\u{200b}z", "plain"] {
        assert_eq!(trim(s), s.trim(), "{s:?}");
    }
}

#[test]
fn prefix_infix_and_case() {
    assert!(starts_with("https://x", "https://"));
    assert!(!starts_with("http", "https"));
    assert!(contains("abcAPI_KEY=1", "API_KEY="));
    assert!(!contains("abc", "abcd"));
    assert!(contains("abc", ""));
    assert_eq!(to_ascii_lowercase("AbÇ.PDF"), "abÇ.pdf");
    assert!(str_eq("é", "é"));
    assert!(!str_eq("a", "ab"));
    assert_eq!(chars_of("hé"), vec!['h', 'é']);
}

#[test]
fn truncate_keeps_whole_characters() {
    assert_eq!(truncate("hello", 10), "hello");
    assert_eq!(truncate("hello", 3), "hel");
    assert_eq!(truncate("héllo", 2), "h");
    assert_eq!(truncate("héllo", 3), "hé");
    assert_eq!(truncate("日本語", 4), "日");
    assert_eq!(truncate("😀a", 3), "");
    assert_eq!(truncate("", 0), "");
}
