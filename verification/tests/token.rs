//! Tests of the hourly token derivation and the key manager.

use my_bus_tracker::time::{HourStamp, UtcInstant};
use my_bus_tracker::{generate_api_key, ApiKey};

fn instant(year: i32, month: u8, day: u8, hour: u8, day_number: i64) -> UtcInstant {
    UtcInstant { stamp: HourStamp { year, month, day, hour }, day_number }
}

#[test]
fn token_is_md5_of_secret_and_stamp() {
    let now = instant(2026, 10, 11, 14, 739901);
    let key = generate_api_key("mysecret", &now);
    let expected = format!("{:x}", md5::compute("mysecret2026101114"));
    assert_eq!(key, expected);
}

#[test]
fn token_stamp_is_zero_padded() {
    let now = instant(2026, 1, 2, 3, 739619);
    let key = generate_api_key("k", &now);
    let expected = format!("{:x}", md5::compute("k2026010203"));
    assert_eq!(key, expected);
}

#[test]
fn token_stamp_pads_small_years() {
    let now = instant(999, 12, 31, 23, 364877);
    let key = generate_api_key("k", &now);
    let expected = format!("{:x}", md5::compute("k0999123123"));
    assert_eq!(key, expected);
}

#[test]
fn token_is_deterministic() {
    let now = instant(2026, 10, 11, 14, 739901);
    let first = generate_api_key("mysecret", &now);
    let second = generate_api_key("mysecret", &now);
    assert_eq!(first, second);
}

#[test]
fn key_reads_within_one_hour_are_stable() {
    let now = instant(2026, 10, 11, 14, 739901);
    let mut key = ApiKey::new_at("mysecret", &now);
    let first = key.get_key_at(&now);
    let second = key.get_key_at(&now);
    assert_eq!(first, second);
    assert_eq!(first, format!("{:x}", md5::compute("mysecret2026101114")));
}

#[test]
fn key_read_after_hour_boundary_uses_new_stamp() {
    let before = instant(2026, 10, 11, 14, 739901);
    let after = instant(2026, 10, 11, 15, 739901);
    let mut key = ApiKey::new_at("mysecret", &before);
    let old_key = key.get_key_at(&before);
    let new_key = key.get_key_at(&after);
    assert_eq!(new_key, format!("{:x}", md5::compute("mysecret2026101115")));
    assert_ne!(old_key, new_key);
}

#[test]
fn key_read_after_day_boundary_uses_new_stamp() {
    let before = instant(2026, 10, 11, 23, 739901);
    let after = instant(2026, 10, 12, 0, 739902);
    let mut key = ApiKey::new_at("mysecret", &before);
    let old_key = key.get_key_at(&before);
    let new_key = key.get_key_at(&after);
    assert_eq!(new_key, format!("{:x}", md5::compute("mysecret2026101200")));
    assert_ne!(old_key, new_key);
}

#[test]
fn key_from_clock_is_lowercase_hex() {
    let mut key = ApiKey::new("mysecret");
    let current = key.get_key();
    assert_eq!(current.len(), 32);
    assert!(current.chars().all(|c| c.is_ascii_digit() || ('a'..='f').contains(&c)));
}
