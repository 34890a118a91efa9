use captcha_auth::settings::{parse_flag, parse_i64, parse_u16, ConfigError, Settings};

#[test]
fn u16_parsing() {
    assert_eq!(parse_u16("3000"), Some(3000));
    assert_eq!(parse_u16("+80"), Some(80));
    assert_eq!(parse_u16("65535"), Some(65535));
    assert_eq!(parse_u16("65536"), None);
    assert_eq!(parse_u16("-1"), None);
    assert_eq!(parse_u16(""), None);
    assert_eq!(parse_u16("+"), None);
    assert_eq!(parse_u16(" 80"), None);
    assert_eq!(parse_u16("00012"), Some(12));
}

#[test]
fn i64_parsing() {
    assert_eq!(parse_i64("604800"), Some(604800));
    assert_eq!(parse_i64("-42"), Some(-42));
    assert_eq!(parse_i64("+7"), Some(7));
    assert_eq!(parse_i64("9223372036854775807"), Some(i64::MAX));
    assert_eq!(parse_i64("-9223372036854775808"), Some(i64::MIN));
    assert_eq!(parse_i64("9223372036854775808"), None);
    assert_eq!(parse_i64("-"), None);
    assert_eq!(parse_i64("12a"), None);
    assert_eq!(parse_i64("99999999999999999999999"), None);
}

#[test]
fn flag_values() {
    assert!(parse_flag(Some(" TRUE ")));
    assert!(parse_flag(Some("true")));
    assert!(!parse_flag(Some("yes")));
    assert!(!parse_flag(Some("")));
    assert!(!parse_flag(None));
}

#[test]
fn settings_defaults() {
    let s = Settings::from_vars(None, None, Some("mysql://db"), None, Some("k"), None).unwrap();
    assert_eq!(s.server_host, "127.0.0.1");
    assert_eq!(s.server_port, 3000);
    assert_eq!(s.database_url, "mysql://db");
    assert!(!s.debug_captcha);
    assert_eq!(s.jwt_secret, "k");
    assert_eq!(s.jwt_expire_seconds, 604800);
}

#[test]
fn settings_given_values() {
    let s = Settings::from_vars(Some("0.0.0.0"), Some("8080"), Some("u"), Some("True"), Some("k"), Some("60"))
        .unwrap();
    assert_eq!(s.server_host, "0.0.0.0");
    assert_eq!(s.server_port, 8080);
    assert!(s.debug_captcha);
    assert_eq!(s.jwt_expire_seconds, 60);
}

#[test]
fn settings_errors() {
    assert_eq!(
        Settings::from_vars(None, Some("x"), Some("u"), None, Some("k"), None).err(),
        Some(ConfigError::BadPort)
    );
    assert_eq!(
        Settings::from_vars(None, None, None, None, Some("k"), None).err(),
        Some(ConfigError::MissingDatabaseUrl)
    );
    assert_eq!(
        Settings::from_vars(None, None, Some("u"), None, None, None).err(),
        Some(ConfigError::MissingJwtSecret)
    );
    assert_eq!(
        Settings::from_vars(None, None, Some("u"), None, Some("k"), Some("week")).err(),
        Some(ConfigError::BadExpireSeconds)
    );
}
