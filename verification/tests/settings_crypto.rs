//! Default settings, API-key status masking and validation, and the
//! derived key's hex rendering.

use tax_engine::crypto::DerivedKey;
use tax_engine::settings::{api_key_format_ok, get_api_key_status, AppSettings};

#[test]
fn default_settings_values() {
    let settings = AppSettings::default();
    assert_eq!(settings.theme, "dark");
    assert_eq!(settings.default_tax_year, 2024);
    assert_eq!(settings.default_filing_status, "single");
    assert_eq!(settings.default_state, None);
    assert!(settings.auto_save);
    assert!(settings.show_tooltips);
    assert_eq!(settings.currency_format, "USD");
    assert_eq!(settings.date_format, "MM/DD/YYYY");
}

#[test]
fn api_key_status_reports_missing_key() {
    let status = get_api_key_status(None);
    assert!(!status.configured);
    assert_eq!(status.masked_key, None);
}

#[test]
fn api_key_status_masks_long_keys() {
    let status = get_api_key_status(Some("sk-ant-abc123xyz"));
    assert!(status.configured);
    assert_eq!(status.masked_key, Some("sk-a...3xyz".to_string()));
}

#[test]
fn api_key_status_hides_short_keys() {
    let status = get_api_key_status(Some("short"));
    assert!(status.configured);
    assert_eq!(status.masked_key, Some("****".to_string()));
}

#[test]
fn api_key_format_validation() {
    assert!(api_key_format_ok(""));
    assert!(api_key_format_ok("sk-ant-"));
    assert!(api_key_format_ok("sk-ant-abc123"));
    assert!(!api_key_format_ok("sk-oth-abc123"));
    assert!(!api_key_format_ok("abc"));
    assert!(!api_key_format_ok("sk-ant"));
}

#[test]
fn derived_key_round_trips_bytes() {
    let key = DerivedKey::new(vec![0x00, 0xab, 0xff, 0x10]);
    assert_eq!(key.as_bytes(), &[0x00, 0xab, 0xff, 0x10]);
}

#[test]
fn derived_key_hex_is_lowercase_two_digits_per_byte() {
    let key = DerivedKey::new(vec![0x00, 0xab, 0xff, 0x10]);
    assert_eq!(key.as_hex(), "00abff10");

    let empty = DerivedKey::new(Vec::new());
    assert_eq!(empty.as_hex(), "");

    let thirty_two = DerivedKey::new(vec![0x5a; 32]);
    assert_eq!(thirty_two.as_hex().len(), 64);
    assert_eq!(&thirty_two.as_hex()[..4], "5a5a");
}
