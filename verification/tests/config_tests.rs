use weaver::config::Config;
use weaver::decimal::{parse_bool_bytes, parse_i64_bytes, parse_u64_bytes, u64_to_decimal};

#[test]
fn test_decimal_rendering() {
    assert_eq!(u64_to_decimal(0), "0");
    assert_eq!(u64_to_decimal(9), "9");
    assert_eq!(u64_to_decimal(10), "10");
    assert_eq!(u64_to_decimal(1234), "1234");
    assert_eq!(u64_to_decimal(18446744073709551615), "18446744073709551615");
}

#[test]
fn test_parse_u64() {
    assert_eq!(parse_u64_bytes(b"0"), Some(0));
    assert_eq!(parse_u64_bytes(b"3600"), Some(3600));
    assert_eq!(parse_u64_bytes(b"+5"), Some(5));
    assert_eq!(parse_u64_bytes(b"18446744073709551615"), Some(u64::MAX));
    assert_eq!(parse_u64_bytes(b"18446744073709551616"), None);
    assert_eq!(parse_u64_bytes(b""), None);
    assert_eq!(parse_u64_bytes(b"+"), None);
    assert_eq!(parse_u64_bytes(b"12x"), None);
    assert_eq!(parse_u64_bytes(b"-1"), None);
}

#[test]
fn test_parse_i64() {
    assert_eq!(parse_i64_bytes(b"24"), Some(24));
    assert_eq!(parse_i64_bytes(b"-24"), Some(-24));
    assert_eq!(parse_i64_bytes(b"+24"), Some(24));
    assert_eq!(parse_i64_bytes(b"9223372036854775807"), Some(i64::MAX));
    assert_eq!(parse_i64_bytes(b"9223372036854775808"), None);
    assert_eq!(parse_i64_bytes(b"-9223372036854775808"), Some(i64::MIN));
    assert_eq!(parse_i64_bytes(b"-9223372036854775809"), None);
    assert_eq!(parse_i64_bytes(b"-"), None);
    assert_eq!(parse_i64_bytes(b""), None);
}

#[test]
fn test_parse_bool() {
    assert_eq!(parse_bool_bytes(b"true"), Some(true));
    assert_eq!(parse_bool_bytes(b"false"), Some(false));
    assert_eq!(parse_bool_bytes(b"True"), None);
    assert_eq!(parse_bool_bytes(b"1"), None);
    assert_eq!(parse_bool_bytes(b""), None);
}

#[test]
fn test_config_defaults() {
    let c = Config::from_settings(
        None, None, None, None, None, None, None, None, None, None,
    );
    assert_eq!(c.host, "0.0.0.0");
    assert_eq!(c.port, 8080);
    assert_eq!(c.temp_dir, "/tmp/weaver");
    assert_eq!(c.binary_expiration_hours, 24);
    assert_eq!(c.cleanup_interval, 3600);
    assert_eq!(c.redis_url, "redis://127.0.0.1:6379");
    assert_eq!(c.main_server_url, "http://localhost:8080");
    assert_eq!(c.max_file_size, 209715200);
    assert_eq!(c.binary_ttl, 3600);
    assert!(!c.enable_qemu_testing);
}

#[test]
fn test_config_parses_settings() {
    let c = Config::from_settings(
        Some("127.0.0.1".to_string()),
        Some("9001".to_string()),
        Some("/var/tmp/weaver".to_string()),
        Some("-6".to_string()),
        Some("120".to_string()),
        Some("redis://redis:6379".to_string()),
        Some("http://upstream:8080".to_string()),
        Some("1048576".to_string()),
        Some("7200".to_string()),
        Some("true".to_string()),
    );
    assert_eq!(c.host, "127.0.0.1");
    assert_eq!(c.port, 9001);
    assert_eq!(c.temp_dir, "/var/tmp/weaver");
    assert_eq!(c.binary_expiration_hours, -6);
    assert_eq!(c.cleanup_interval, 120);
    assert_eq!(c.redis_url, "redis://redis:6379");
    assert_eq!(c.main_server_url, "http://upstream:8080");
    assert_eq!(c.max_file_size, 1048576);
    assert_eq!(c.binary_ttl, 7200);
    assert!(c.enable_qemu_testing);
}

#[test]
fn test_config_malformed_settings_fall_back() {
    let c = Config::from_settings(
        None,
        Some("not-a-port".to_string()),
        None,
        Some("2^10".to_string()),
        Some("-1".to_string()),
        None,
        None,
        Some("huge but wrong".to_string()),
        Some("".to_string()),
        Some("yes".to_string()),
    );
    assert_eq!(c.port, 8080);
    assert_eq!(c.binary_expiration_hours, 24);
    assert_eq!(c.cleanup_interval, 3600);
    assert_eq!(c.max_file_size, 209715200);
    assert_eq!(c.binary_ttl, 3600);
    assert!(!c.enable_qemu_testing);
}

#[test]
fn test_config_out_of_range_port_falls_back() {
    let c = Config::from_settings(
        None,
        Some("70000".to_string()),
        None,
        None,
        None,
        None,
        None,
        None,
        None,
        None,
    );
    assert_eq!(c.port, 8080);
}
