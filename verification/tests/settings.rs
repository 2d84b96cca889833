use authkit::config::{parse_i64, parse_u16, parse_u32, parse_u64, Config};

#[test]
fn parses_plain_decimal_numbers() {
    assert_eq!(parse_u64("0"), Some(0));
    assert_eq!(parse_u64("86400"), Some(86400));
    assert_eq!(parse_u64("0086400"), Some(86400));
    assert_eq!(parse_i64("86400"), Some(86400));
    assert_eq!(parse_i64("-5"), Some(-5));
    assert_eq!(parse_i64("-0"), Some(0));
    assert_eq!(parse_i64("0"), Some(0));
}

#[test]
fn accepts_a_leading_plus_like_std() {
    assert_eq!(parse_u64("+12"), Some(12));
    assert_eq!(parse_i64("+3600"), Some(3600));
    assert_eq!(parse_u64("+"), None);
    assert_eq!(parse_u64("++1"), None);
    assert_eq!(parse_i64("+-1"), None);
}

#[test]
fn rejects_non_numbers() {
    assert_eq!(parse_u64(""), None);
    assert_eq!(parse_u64("12a"), None);
    assert_eq!(parse_u64(" 12"), None);
    assert_eq!(parse_i64("-"), None);
    assert_eq!(parse_i64("--5"), None);
    assert_eq!(parse_i64("12.5"), None);
}

#[test]
fn range_boundaries_match_the_types() {
    assert_eq!(parse_u64("18446744073709551615"), Some(u64::MAX));
    assert_eq!(parse_u64("18446744073709551616"), None);
    assert_eq!(parse_u64("99999999999999999999999999"), None);
    assert_eq!(parse_i64("9223372036854775807"), Some(i64::MAX));
    assert_eq!(parse_i64("9223372036854775808"), None);
    assert_eq!(parse_i64("-9223372036854775808"), Some(i64::MIN));
    assert_eq!(parse_i64("-9223372036854775809"), None);
}

#[test]
fn agrees_with_std_parse_on_samples() {
    for s in [
        "0",
        "7",
        "+42",
        "0099",
        "18446744073709551615",
        "18446744073709551616",
        "1e3",
        "-1",
        "",
        "+",
    ] {
        assert_eq!(parse_u64(s), s.parse::<u64>().ok(), "u64 {:?}", s);
        assert_eq!(parse_i64(s), s.parse::<i64>().ok(), "i64 {:?}", s);
    }
    for s in ["-9223372036854775808", "-9223372036854775809", "+127", "-00"] {
        assert_eq!(parse_i64(s), s.parse::<i64>().ok(), "i64 {:?}", s);
    }
}

#[test]
fn ranged_parsers_enforce_their_bounds() {
    assert_eq!(parse_u16("8080"), Some(8080));
    assert_eq!(parse_u16("65535"), Some(65535));
    assert_eq!(parse_u16("65536"), None);
    assert_eq!(parse_u32("12"), Some(12));
    assert_eq!(parse_u32("4294967295"), Some(4294967295));
    assert_eq!(parse_u32("4294967296"), None);
}

#[test]
fn resolve_applies_documented_defaults() {
    let c = Config::resolve(
        "sqlite::memory:".to_string(),
        "secret".to_string(),
        None,
        None,
        None,
        None,
    );
    assert_eq!(c.database_url, "sqlite::memory:");
    assert_eq!(c.jwt_secret, "secret");
    assert_eq!(c.jwt_expiration, 86400);
    assert_eq!(c.server_host, "127.0.0.1");
    assert_eq!(c.server_port, 8080);
    assert_eq!(c.bcrypt_cost, 12);
}

#[test]
fn resolve_takes_parsable_values_and_falls_back_on_garbage() {
    let c = Config::resolve(
        "postgres://db".to_string(),
        "secret".to_string(),
        Some("+3600".to_string()),
        Some("0.0.0.0".to_string()),
        Some("9090".to_string()),
        Some("10".to_string()),
    );
    assert_eq!(c.jwt_expiration, 3600);
    assert_eq!(c.server_host, "0.0.0.0");
    assert_eq!(c.server_port, 9090);
    assert_eq!(c.bcrypt_cost, 10);

    let fallback = Config::resolve(
        "postgres://db".to_string(),
        "secret".to_string(),
        Some("not-a-number".to_string()),
        None,
        Some("99999".to_string()),
        Some("-1".to_string()),
    );
    assert_eq!(fallback.jwt_expiration, 86400);
    assert_eq!(fallback.server_port, 8080);
    assert_eq!(fallback.bcrypt_cost, 12);
}
