use stack_nails::secret::{decode_secret_field, read_secret_field, Secret};

#[test]
fn decode_prefers_data() {
    let mut s = Secret::new();
    s.set_data("k".to_string(), b"from-data".to_vec());
    s.set_string_data("k".to_string(), "from-string-data".to_string());
    assert_eq!(decode_secret_field(&s, "k"), Some("from-data".to_string()));
}

#[test]
fn decode_falls_back_on_empty_or_invalid_data() {
    let mut s = Secret::new();
    s.set_data("empty".to_string(), Vec::new());
    s.set_data("bad".to_string(), vec![0xff, 0xfe]);
    s.set_string_data("empty".to_string(), "fallback".to_string());
    s.set_string_data("bad".to_string(), "text".to_string());
    assert_eq!(decode_secret_field(&s, "empty"), Some("fallback".to_string()));
    assert_eq!(decode_secret_field(&s, "bad"), Some("text".to_string()));
}

#[test]
fn decode_ignores_empty_string_data_and_missing_keys() {
    let mut s = Secret::new();
    s.set_string_data("blank".to_string(), String::new());
    assert_eq!(decode_secret_field(&s, "blank"), None);
    assert_eq!(decode_secret_field(&s, "absent"), None);
    assert_eq!(decode_secret_field(&Secret::new(), "absent"), None);
}

#[test]
fn read_field_keeps_empty_text_and_rejects_invalid_utf8() {
    let mut s = Secret::new();
    s.set_data("empty".to_string(), Vec::new());
    s.set_data("bad".to_string(), vec![0xc0, 0x80]);
    s.set_data("utf8".to_string(), "h\u{e9}".as_bytes().to_vec());
    assert_eq!(read_secret_field(&s, "empty"), Some(String::new()));
    assert_eq!(read_secret_field(&s, "bad"), None);
    assert_eq!(read_secret_field(&s, "utf8"), Some("h\u{e9}".to_string()));
    s.set_string_data("only-string".to_string(), "x".to_string());
    assert_eq!(read_secret_field(&s, "only-string"), None);
}

#[test]
fn set_data_overwrites_the_key() {
    let mut s = Secret::new();
    s.set_data("k".to_string(), b"one".to_vec());
    s.set_data("other".to_string(), b"two".to_vec());
    s.set_data("k".to_string(), b"three".to_vec());
    assert_eq!(read_secret_field(&s, "k"), Some("three".to_string()));
    assert_eq!(read_secret_field(&s, "other"), Some("two".to_string()));
}
