use base_search::number::{i64_to_string, parse_i64, parse_unsigned_str, u64_to_string};
use base_search::text::{
    collapse_ws, is_blank, join_strings, str_contains, str_starts_with, to_ascii_lowercase,
    to_ascii_uppercase, trim_str,
};

#[test]
fn collapse_ws_keeps_single_spaces_between_words() {
    assert_eq!(collapse_ws("  a \t\n b   c  "), "a b c");
    assert_eq!(collapse_ws("\u{00A0}Київ\u{2003}Одеса "), "Київ Одеса");
    assert_eq!(collapse_ws("   "), "");
    assert_eq!(collapse_ws(""), "");
    let once = collapse_ws(" x  y ");
    assert_eq!(collapse_ws(&once), once);
}

#[test]
fn trimming_and_blank_text() {
    assert_eq!(trim_str("\t a b \n"), "a b");
    assert!(is_blank(" \u{3000}\r\n"));
    assert!(!is_blank(" a "));
    assert!(is_blank(""));
}

#[test]
fn joining_and_searching_text() {
    let parts = vec!["a".to_string(), "".to_string(), "c".to_string()];
    assert_eq!(join_strings(&parts, ", "), "a, , c");
    assert_eq!(join_strings(&Vec::new(), ", "), "");
    assert!(str_contains("Код товару", "товар"));
    assert!(str_contains("abc", ""));
    assert!(!str_contains("abc", "abcd"));
    assert!(str_starts_with("--limit", "--"));
    assert!(!str_starts_with("-", "--"));
    assert_eq!(to_ascii_lowercase("AbC-Ї"), "abc-Ї");
    assert_eq!(to_ascii_uppercase("cn"), "CN");
}

#[test]
fn integers_render_and_parse_like_std() {
    assert_eq!(u64_to_string(0), "0");
    assert_eq!(u64_to_string(u64::MAX), u64::MAX.to_string());
    assert_eq!(i64_to_string(i64::MIN), i64::MIN.to_string());
    assert_eq!(i64_to_string(-7), "-7");
    assert_eq!(parse_unsigned_str("+42", u64::MAX), Some(42));
    assert_eq!(parse_unsigned_str("18446744073709551616", u64::MAX), None);
    assert_eq!(parse_unsigned_str("70000", 65535), None);
    assert_eq!(parse_unsigned_str("", u64::MAX), None);
    assert_eq!(parse_unsigned_str("1 2", u64::MAX), None);
    assert_eq!(parse_i64("-9223372036854775808"), Some(i64::MIN));
    assert_eq!(parse_i64("9223372036854775808"), None);
    assert_eq!(parse_i64("-"), None);
    assert_eq!(parse_i64("+5"), Some(5));
}
