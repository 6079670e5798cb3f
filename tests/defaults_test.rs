use chrono::Utc;
use scaffolding_core::defaults;

#[test]
fn test_id() {
    assert_eq!(defaults::id().len(), "54324f57-9e6b-4142-b68d-1d4c86572d0a".len());
}

#[test]
fn id_has_uuid_shape() {
    let id = defaults::id();
    for (i, c) in id.chars().enumerate() {
        if i == 8 || i == 13 || i == 18 || i == 23 {
            assert_eq!(c, '-');
        } else {
            assert!(c.is_ascii_hexdigit() && !c.is_ascii_uppercase());
        }
    }
    assert_ne!(defaults::id(), id);
}

#[test]
fn test_add_days() {
    assert_eq!(defaults::add_days(1711295319, 1), 1711381719);
}

#[test]
fn add_days_moves_backwards_too() {
    assert_eq!(defaults::add_days(1711295319, -1), 1711295319 - 86400);
    assert_eq!(defaults::add_days(1711295319, 0), 1711295319);
}

#[test]
fn test_add_months() {
    assert_eq!(defaults::add_months(1711295319, 1), 1713973719);
    // 2023-01-29 plus one month is 2023-02-28
    assert_eq!(defaults::add_months(1674993600, 1), 1677585600);
}

#[test]
fn test_add_years() {
    assert_eq!(defaults::add_years(1711295319, 1), 1742831319);
    // 2024-02-29 plus one year is 2025-02-28
    assert_eq!(defaults::add_years(1709208000, 1), 1740744000);
}

#[test]
fn test_never() {
    assert_eq!(defaults::never(), 253402261199);
}

#[test]
fn test_now() {
    assert_eq!(defaults::now(), Utc::now().timestamp());
}

#[test]
fn default_access_is_public() {
    assert_eq!(defaults::access(), "public");
}
