use user_auth::config::{
    listen_port, parse_u64, token_ttl, AuthConfig, DEFAULT_PORT, DEFAULT_TOKEN_TTL, PORT_SETTING,
    SECRET_SETTING, TOKEN_TTL_SETTING,
};

#[test]
fn parse_u64_reads_plain_numbers() {
    assert_eq!(parse_u64("0"), Some(0));
    assert_eq!(parse_u64("42"), Some(42));
    assert_eq!(parse_u64("5000"), Some(5000));
    assert_eq!(parse_u64("0007"), Some(7));
}

#[test]
fn parse_u64_accepts_a_leading_plus() {
    assert_eq!(parse_u64("+7"), Some(7));
    assert_eq!(parse_u64("+"), None);
    assert_eq!(parse_u64("++7"), None);
}

#[test]
fn parse_u64_stops_at_the_largest_value() {
    assert_eq!(parse_u64("18446744073709551615"), Some(u64::MAX));
    assert_eq!(parse_u64("18446744073709551616"), None);
    assert_eq!(parse_u64("99999999999999999999999"), None);
    assert_eq!(parse_u64("000000000000000000000000000000000000005"), Some(5));
}

#[test]
fn parse_u64_refuses_everything_else() {
    assert_eq!(parse_u64(""), None);
    assert_eq!(parse_u64("-1"), None);
    assert_eq!(parse_u64("12a"), None);
    assert_eq!(parse_u64(" 12"), None);
    assert_eq!(parse_u64("12 "), None);
    assert_eq!(parse_u64("1_000"), None);
    assert_eq!(parse_u64("1.5"), None);
    assert_eq!(parse_u64("\u{0663}"), None);
}

#[test]
fn parse_u64_agrees_with_the_standard_parser() {
    let samples = vec![
        "", "+", "-", "0", "+0", "-0", "1", "09", "5000", "18446744073709551615",
        "18446744073709551616", "1e3", "0x10", "12\n", "\u{ff11}", "+18446744073709551615",
    ];
    for text in samples {
        assert_eq!(parse_u64(text), text.parse::<u64>().ok(), "{:?}", text);
    }
}

#[test]
fn token_ttl_falls_back_to_the_default() {
    assert_eq!(DEFAULT_TOKEN_TTL, 5000);
    assert_eq!(token_ttl(None), 5000);
    assert_eq!(token_ttl(Some("sixty")), 5000);
    assert_eq!(token_ttl(Some("")), 5000);
    assert_eq!(token_ttl(Some("-60")), 5000);
}

#[test]
fn token_ttl_takes_the_setting_as_seconds() {
    assert_eq!(token_ttl(Some("60")), 60);
    assert_eq!(token_ttl(Some("0")), 0);
    assert_eq!(token_ttl(Some("86400")), 86400);
}

#[test]
fn listen_port_defaults_to_8080() {
    assert_eq!(DEFAULT_PORT, 8080);
    assert_eq!(listen_port(None), Some(8080));
}

#[test]
fn listen_port_reads_sixteen_bit_numbers_only() {
    assert_eq!(listen_port(Some("3000")), Some(3000));
    assert_eq!(listen_port(Some("65535")), Some(65535));
    assert_eq!(listen_port(Some("65536")), None);
    assert_eq!(listen_port(Some("http")), None);
    assert_eq!(listen_port(Some("")), None);
}

#[test]
fn config_keeps_the_secret_and_reads_the_lifetime() {
    let config = AuthConfig::new("secret_banget".to_string(), Some("120"));
    assert_eq!(config.secret, "secret_banget");
    assert_eq!(config.token_ttl, 120);
    let config = AuthConfig::new("secret_banget".to_string(), None);
    assert_eq!(config.token_ttl, 5000);
}

#[test]
fn setting_names_are_fixed() {
    assert_eq!(TOKEN_TTL_SETTING, "EXP_TOKEN_IN_MINUTE");
    assert_eq!(PORT_SETTING, "APP_PORT");
    assert_eq!(SECRET_SETTING, "JWT_SECRET");
}
