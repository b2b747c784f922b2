use stack_nails::text::{decimal_string, parse_u32_exec, replace_all_exec, replace_char_exec};

#[test]
fn replace_all_replaces_every_occurrence() {
    assert_eq!(replace_all_exec("a-$X-b-$X", "$X", "yy"), "a-yy-b-yy");
}

#[test]
fn replace_all_takes_non_overlapping_matches_from_the_left() {
    assert_eq!(replace_all_exec("aaa", "aa", "b"), "ba");
}

#[test]
fn replace_all_without_occurrence_keeps_text() {
    assert_eq!(replace_all_exec("no placeholders", "$TOKEN", "secret"), "no placeholders");
}

#[test]
fn replace_char_escapes_quotes() {
    assert_eq!(replace_char_exec("a\"b\"", '"', "\\\""), "a\\\"b\\\"");
}

#[test]
fn decimal_of_numbers() {
    assert_eq!(decimal_string(0), "0");
    assert_eq!(decimal_string(7903), "7903");
    assert_eq!(decimal_string(u64::MAX), u64::MAX.to_string());
}

#[test]
fn parse_u32_like_from_str() {
    assert_eq!(parse_u32_exec("0"), Some(0));
    assert_eq!(parse_u32_exec("+12"), Some(12));
    assert_eq!(parse_u32_exec("4294967295"), Some(u32::MAX));
    assert_eq!(parse_u32_exec("4294967296"), None);
    assert_eq!(parse_u32_exec(""), None);
    assert_eq!(parse_u32_exec("+"), None);
    assert_eq!(parse_u32_exec("-1"), None);
    assert_eq!(parse_u32_exec("12a"), None);
    assert_eq!(parse_u32_exec("007"), Some(7));
    for s in ["0", "+5", "99999999999", "x", "", "18446744073709551616"] {
        assert_eq!(parse_u32_exec(s), s.parse::<u32>().ok());
    }
}
