use go_getta::api::file_upload::FileType;
use go_getta::api::user_data::decode_username;
use go_getta::db::{is_key_file, key_from_file};
use go_getta::text::{blank, contains_forbidden_username_char, extract_cookie, parse_i64_text};

#[test]
fn cookie_is_found_among_others() {
    let jar = "theme=dark; session_id=abc-123; lang=en".to_string();
    assert_eq!(extract_cookie(jar, "session_id".to_string()), Some("abc-123".to_string()));
}

#[test]
fn cookie_at_the_end_runs_to_the_end() {
    let jar = "theme=dark; session_id=xyz".to_string();
    assert_eq!(extract_cookie(jar, "session_id".to_string()), Some("xyz".to_string()));
}

#[test]
fn missing_cookie_is_none() {
    let jar = "theme=dark; lang=en".to_string();
    assert_eq!(extract_cookie(jar, "session_id".to_string()), None);
}

#[test]
fn cookie_value_may_be_empty() {
    let jar = "session_id=;theme=dark".to_string();
    assert_eq!(extract_cookie(jar, "session_id".to_string()), Some(String::new()));
}

#[test]
fn cookie_round_trip_on_concrete_values() {
    let jar = format!("{}={};{}", "k", "value", "rest=1");
    assert_eq!(extract_cookie(jar, "k".to_string()), Some("value".to_string()));
}

#[test]
fn numbers_parse_as_i64() {
    assert_eq!(parse_i64_text("0"), Some(0));
    assert_eq!(parse_i64_text("42"), Some(42));
    assert_eq!(parse_i64_text("-7"), Some(-7));
    assert_eq!(parse_i64_text("+3"), Some(3));
    assert_eq!(parse_i64_text("9223372036854775807"), Some(i64::MAX));
    assert_eq!(parse_i64_text("-9223372036854775808"), Some(i64::MIN));
}

#[test]
fn non_numbers_do_not_parse() {
    assert_eq!(parse_i64_text(""), None);
    assert_eq!(parse_i64_text("-"), None);
    assert_eq!(parse_i64_text("1a"), None);
    assert_eq!(parse_i64_text(" 1"), None);
    assert_eq!(parse_i64_text("9223372036854775808"), None);
}

#[test]
fn file_types_by_top_level_mime_type() {
    assert_eq!(FileType::try_from("image/png"), Some(FileType::Image));
    assert_eq!(FileType::try_from("video/mp4"), Some(FileType::Video));
    assert_eq!(FileType::try_from("audio/ogg"), Some(FileType::Audio));
    assert_eq!(FileType::try_from("audio"), Some(FileType::Audio));
    assert_eq!(FileType::try_from("text/plain"), None);
    assert_eq!(FileType::try_from("images/png"), None);
    assert_eq!(FileType::try_from(""), None);
}

#[test]
fn usernames_decode_percent_escapes() {
    assert_eq!(decode_username("alice%20smith"), "alice smith");
    assert_eq!(decode_username("caf%C3%A9"), "café");
}

#[test]
fn plain_usernames_decode_to_themselves() {
    assert_eq!(decode_username("bob"), "bob");
    assert_eq!(decode_username("jürgen"), "jürgen");
}

#[test]
fn invalid_utf8_is_replaced() {
    assert_eq!(decode_username("a%FFb"), "a\u{FFFD}b");
}

#[test]
fn forbidden_username_characters() {
    assert!(contains_forbidden_username_char("a b"));
    assert!(contains_forbidden_username_char("a/b"));
    assert!(contains_forbidden_username_char("a\\b"));
    assert!(contains_forbidden_username_char("me@home"));
    assert!(!contains_forbidden_username_char("alice_99"));
}

#[test]
fn blank_text() {
    assert!(blank(""));
    assert!(blank(" \t\n"));
    assert!(!blank(" x "));
}

#[test]
fn key_files_end_in_ggkey() {
    assert!(is_key_file("one.ggkey"));
    assert!(is_key_file("a.b.ggkey"));
    assert!(is_key_file("ggkey"));
    assert!(!is_key_file("one.ggkey.bak"));
    assert!(!is_key_file("one.txt"));
}

#[test]
fn keys_longer_than_32_bytes_are_skipped() {
    let k = key_from_file("0123456789abcdef0123456789abcdef".to_string()).unwrap();
    assert_eq!(k.key, "0123456789abcdef0123456789abcdef");
    assert!(!k.used);
    assert!(key_from_file("0123456789abcdef0123456789abcdef0".to_string()).is_none());
}

#[test]
fn percent_signs_without_two_hex_digits_are_kept() {
    assert_eq!(decode_username("50%"), "50%");
    assert_eq!(decode_username("a%2"), "a%2");
    assert_eq!(decode_username("%zz%41"), "%zzA");
    assert_eq!(decode_username("%4g"), "%4g");
    assert_eq!(decode_username("%%41"), "%A");
    assert_eq!(decode_username("a+b"), "a+b");
}
