use cf_ddns::{parse_trace_ip, record_url, redact, AppConfig, SyncError, DEFAULT_INTERVAL};

#[test]
fn trace_body_yields_ip() {
    let body = "fl=29f1\nh=cloudflare.com\nip=203.0.113.5\nts=1700000000.1\nvisit_scheme=https\n";
    assert_eq!(parse_trace_ip(body), Ok("203.0.113.5".to_string()));
}

#[test]
fn trace_ip_on_first_or_last_line() {
    assert_eq!(parse_trace_ip("ip=198.51.100.9"), Ok("198.51.100.9".to_string()));
    assert_eq!(parse_trace_ip("a=b\nip=10.0.0.1"), Ok("10.0.0.1".to_string()));
}

#[test]
fn trace_first_ip_line_wins() {
    assert_eq!(parse_trace_ip("ip=1.1.1.1\nip=2.2.2.2\n"), Ok("1.1.1.1".to_string()));
}

#[test]
fn trace_skips_lines_with_extra_fields() {
    assert_eq!(parse_trace_ip("ip=a=b\nip=9.9.9.9\n"), Ok("9.9.9.9".to_string()));
    assert_eq!(parse_trace_ip("vip=1.2.3.4\nip=5.6.7.8"), Ok("5.6.7.8".to_string()));
}

#[test]
fn trace_empty_value_is_accepted() {
    assert_eq!(parse_trace_ip("ip=\n"), Ok(String::new()));
}

#[test]
fn trace_without_ip_is_not_found() {
    assert_eq!(parse_trace_ip(""), Err(SyncError::NotFound));
    assert_eq!(parse_trace_ip("h=x\nloc=NL\n"), Err(SyncError::NotFound));
    assert_eq!(parse_trace_ip("ip\nip:1.2.3.4\nipx=1"), Err(SyncError::NotFound));
}

#[test]
fn record_url_has_zone_and_record() {
    assert_eq!(
        record_url("zone123", "rec456"),
        "https://api.cloudflare.com/client/v4/zones/zone123/dns_records/rec456"
    );
}

#[test]
fn token_is_masked_to_its_length() {
    assert_eq!(redact("tok-1234567890"), "*".repeat(14));
    assert_eq!(redact("abc"), "***");
    assert_eq!(redact("x"), "*");
    assert_eq!(redact(""), "");
    assert_eq!(redact("pässwörd"), "********");
}

#[test]
fn settings_default_interval() {
    let c = AppConfig::from_settings(
        None,
        Some("z".to_string()),
        Some("r".to_string()),
        Some("t".to_string()),
    )
    .unwrap();
    assert_eq!(c.interval, DEFAULT_INTERVAL);
    assert_eq!(c.interval, 120);
    assert_eq!(c.zone_id, "z");
    assert_eq!(c.record_id, "r");
    assert_eq!(c.token, "t");
}

#[test]
fn settings_explicit_interval() {
    let c = AppConfig::from_settings(
        Some(30),
        Some("z".to_string()),
        Some("r".to_string()),
        Some("t".to_string()),
    )
    .unwrap();
    assert_eq!(c.interval, 30);
}

#[test]
fn settings_missing_values_are_fatal() {
    let z = || Some("z".to_string());
    assert_eq!(AppConfig::from_settings(None, None, z(), z()).err(), Some(SyncError::ConfigMissing));
    assert_eq!(AppConfig::from_settings(None, z(), None, z()).err(), Some(SyncError::ConfigMissing));
    assert_eq!(AppConfig::from_settings(None, z(), z(), None).err(), Some(SyncError::ConfigMissing));
    assert_eq!(AppConfig::from_settings(Some(0), z(), z(), z()).err(), Some(SyncError::ConfigMissing));
}

#[test]
fn only_config_errors_are_fatal() {
    assert!(!SyncError::ConfigMissing.is_recoverable());
    assert!(SyncError::Transport.is_recoverable());
    assert!(SyncError::UnexpectedStatus(500).is_recoverable());
    assert!(SyncError::ApiFailure.is_recoverable());
    assert!(SyncError::Malformed.is_recoverable());
    assert!(SyncError::NotFound.is_recoverable());
}
