use proxma::models::{default_body_size, default_password, default_realm, default_username, Auth, AuthType, Cache, Webserver};
use proxma::text::{
    decimal_string, join_strings, parse_u16, parse_u16_checked, replace_char, signed_decimal_string, split, trim,
    IntErrorKind,
};

#[test]
fn trim_drops_surrounding_whitespace_only() {
    assert_eq!(trim("  a b \n"), "a b");
    assert_eq!(trim("\t\n "), "");
    assert_eq!(trim("x"), "x");
}

#[test]
fn split_keeps_empty_pieces() {
    assert_eq!(split("a,,b", ','), vec!["a".to_string(), "".to_string(), "b".to_string()]);
    assert_eq!(split("", ','), vec!["".to_string()]);
    assert_eq!(split("a,", ','), vec!["a".to_string(), "".to_string()]);
}

#[test]
fn join_puts_separator_between_pieces() {
    let v = vec!["a".to_string(), "b".to_string(), "c".to_string()];
    assert_eq!(join_strings(&v, ", "), "a, b, c");
    assert_eq!(join_strings(&Vec::new(), ", "), "");
}

#[test]
fn replace_char_replaces_every_occurrence() {
    assert_eq!(replace_char("a.b.c", '.', '_'), "a_b_c");
}

#[test]
fn decimal_notation() {
    assert_eq!(decimal_string(0), "0");
    assert_eq!(decimal_string(65535), "65535");
    assert_eq!(signed_decimal_string(-42), "-42");
    assert_eq!(signed_decimal_string(i64::MIN), "-9223372036854775808");
    assert_eq!(signed_decimal_string(7), "7");
}

#[test]
fn parse_u16_as_std_does() {
    assert_eq!(parse_u16("8080"), Some(8080));
    assert_eq!(parse_u16("+80"), Some(80));
    assert_eq!(parse_u16("65536"), None);
    assert_eq!(parse_u16("-1"), None);
    assert_eq!(parse_u16(""), None);
    assert_eq!(parse_u16("8o"), None);
}

#[test]
fn parse_u16_checked_tells_why() {
    assert_eq!(parse_u16_checked("10"), Ok(10));
    assert_eq!(parse_u16_checked(""), Err(IntErrorKind::Empty));
    assert_eq!(parse_u16_checked("+"), Err(IntErrorKind::InvalidDigit));
    assert_eq!(parse_u16_checked("1x"), Err(IntErrorKind::InvalidDigit));
    assert_eq!(parse_u16_checked("70000"), Err(IntErrorKind::PosOverflow));
    assert_eq!(parse_u16_checked("70000x"), Err(IntErrorKind::PosOverflow));
    assert_eq!(parse_u16_checked("7000x0"), Err(IntErrorKind::InvalidDigit));
    assert_eq!("70000".parse::<u16>().is_err(), true);
}

#[test]
fn auth_type_labels_ignore_case() {
    assert_eq!(AuthType::from_str_label("BEARER"), AuthType::Bearer);
    assert_eq!(AuthType::from_str_label("Both"), AuthType::Both);
    assert_eq!(AuthType::from_str_label("basic"), AuthType::Basic);
    assert_eq!(AuthType::from_str_label("anything"), AuthType::Basic);
    assert_eq!(AuthType::Bearer.name(), "bearer");
    assert_eq!(AuthType::Both.name(), "both");
}

#[test]
fn auth_defaults() {
    let a = Auth::default();
    assert!(!a.enabled);
    assert_eq!(a.auth_type, AuthType::Basic);
    assert_eq!(a.realm, default_realm());
    assert_eq!(a.username, default_username());
    assert_eq!(a.password, default_password());
    assert_eq!(default_realm(), "Restricted Area");
    assert_eq!(default_username(), "root");
}

#[test]
fn webserver_defaults() {
    let w = Webserver::default();
    assert_eq!(w.client_max_body_size, "100m");
    assert_eq!(default_body_size(), "100m");
    assert_eq!(w.keepalive_timeout, "75s");
    assert_eq!(w.proxy_read_timeout, "60s");
}

#[test]
fn cache_builders() {
    let c = Cache::default();
    assert!(!c.enabled);
    let e = Cache::enabled();
    assert!(e.enabled);
    assert_eq!(e.size, "500m");
    assert_eq!(e.memory, "10");
    assert_eq!(e.ttl, "60m");
    let n = Cache::new("1g", "64", "1h").with_max_size("2g").with_memory_size("128").with_valid_duration("7d");
    assert!(n.enabled);
    assert_eq!(n.size, "2g");
    assert_eq!(n.memory, "128");
    assert_eq!(n.ttl, "7d");
}
