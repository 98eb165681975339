use std::collections::BTreeMap;

use licensepack::components::{LicenseCondition, LicensePermission, LicenseRestriction};

#[test]
fn test_condition_is_active() {
    let cond = LicenseCondition {
        condition_id: "c-001".to_string(),
        condition_type: "capital".to_string(),
        description: "Min capital".to_string(),
        metric: Some("minimum_capital".to_string()),
        threshold: Some("1000000".to_string()),
        currency: Some("PKR".to_string()),
        operator: Some(">=".to_string()),
        frequency: Some("continuous".to_string()),
        reporting_frequency: None,
        effective_date: None,
        expiry_date: Some("2027-12-31".to_string()),
        status: "active".to_string(),
    };
    assert!(cond.is_active("2026-06-15"));
    assert!(!cond.is_active("2028-01-01"));
}

#[test]
fn test_condition_is_active_waived() {
    let cond = LicenseCondition {
        condition_id: "c-001".to_string(),
        condition_type: "capital".to_string(),
        description: "Waived condition".to_string(),
        metric: None,
        threshold: None,
        currency: None,
        operator: None,
        frequency: None,
        reporting_frequency: None,
        effective_date: None,
        expiry_date: None,
        status: "waived".to_string(),
    };
    assert!(!cond.is_active("2026-06-15"));
}

#[test]
fn test_condition_is_active_no_expiry() {
    let cond = LicenseCondition {
        condition_id: "c-002".to_string(),
        condition_type: "operational".to_string(),
        description: "No expiry".to_string(),
        metric: None,
        threshold: None,
        currency: None,
        operator: None,
        frequency: None,
        reporting_frequency: None,
        effective_date: None,
        expiry_date: None,
        status: "active".to_string(),
    };
    assert!(cond.is_active("2099-12-31"));
}

#[test]
fn test_permission_permits_activity() {
    let perm = LicensePermission {
        permission_id: "p-001".to_string(),
        activity: "payment_services".to_string(),
        scope: BTreeMap::new(),
        limits: BTreeMap::new(),
        effective_date: None,
        status: "active".to_string(),
    };
    assert!(perm.permits_activity("payment_services"));
    assert!(!perm.permits_activity("crypto_exchange"));
}

#[test]
fn test_license_restriction_blocks_activity() {
    let rest = LicenseRestriction {
        restriction_id: "r-001".to_string(),
        restriction_type: "activity".to_string(),
        description: "No crypto".to_string(),
        blocked_activities: vec!["crypto_exchange".to_string()],
        blocked_jurisdictions: vec![],
        allowed_jurisdictions: vec![],
        blocked_products: vec![],
        blocked_client_types: vec![],
        max_leverage: None,
        effective_date: None,
        status: "active".to_string(),
    };
    assert!(rest.blocks_activity("crypto_exchange"));
    assert!(!rest.blocks_activity("payment_services"));
}

#[test]
fn test_license_restriction_blocks_jurisdiction() {
    let rest = LicenseRestriction {
        restriction_id: "r-002".to_string(),
        restriction_type: "geographic".to_string(),
        description: "Global except US".to_string(),
        blocked_activities: vec![],
        blocked_jurisdictions: vec!["*".to_string()],
        allowed_jurisdictions: vec!["pk".to_string(), "ae".to_string()],
        blocked_products: vec![],
        blocked_client_types: vec![],
        max_leverage: None,
        effective_date: None,
        status: "active".to_string(),
    };
    assert!(rest.blocks_jurisdiction("us"));
    assert!(!rest.blocks_jurisdiction("pk"));
    assert!(!rest.blocks_jurisdiction("ae"));
}

#[test]
fn test_restriction_specific_blocked_jurisdictions() {
    let rest = LicenseRestriction {
        restriction_id: "r-003".to_string(),
        restriction_type: "geographic".to_string(),
        description: "Block specific countries".to_string(),
        blocked_activities: vec![],
        blocked_jurisdictions: vec!["us".to_string(), "cn".to_string()],
        allowed_jurisdictions: vec![],
        blocked_products: vec![],
        blocked_client_types: vec![],
        max_leverage: None,
        effective_date: None,
        status: "active".to_string(),
    };
    assert!(rest.blocks_jurisdiction("us"));
    assert!(rest.blocks_jurisdiction("cn"));
    assert!(!rest.blocks_jurisdiction("pk"));
    assert!(!rest.blocks_jurisdiction("ae"));
}

#[test]
fn test_restriction_inactive_does_not_block() {
    let rest = LicenseRestriction {
        restriction_id: "r-004".to_string(),
        restriction_type: "geographic".to_string(),
        description: "Waived restriction".to_string(),
        blocked_activities: vec!["crypto_exchange".to_string()],
        blocked_jurisdictions: vec!["us".to_string()],
        allowed_jurisdictions: vec![],
        blocked_products: vec![],
        blocked_client_types: vec![],
        max_leverage: None,
        effective_date: None,
        status: "waived".to_string(),
    };
    assert!(!rest.blocks_activity("crypto_exchange"));
    assert!(!rest.blocks_jurisdiction("us"));
}

use licensepack::components::{date_before, date_before_parsed};
use licensepack::text::{char_is_whitespace, trim_is_empty};
use licensepack::table::{compare_text, TextOrder};

fn condition(id: &str, status: &str, expiry: Option<&str>) -> LicenseCondition {
    LicenseCondition {
        condition_id: id.to_string(),
        condition_type: "capital".to_string(),
        description: "d".to_string(),
        metric: None,
        threshold: None,
        currency: None,
        operator: None,
        frequency: None,
        reporting_frequency: None,
        effective_date: None,
        expiry_date: expiry.map(|e| e.to_string()),
        status: status.to_string(),
    }
}

#[test]
fn condition_validity_needs_non_blank_id() {
    assert!(condition("c-1", "active", None).is_valid());
    assert!(!condition("", "active", None).is_valid());
    assert!(!condition(" \t\n", "active", None).is_valid());
    assert!(!condition("\u{3000}\u{a0}", "active", None).is_valid());
    assert!(condition("  x  ", "active", None).is_valid());
}

#[test]
fn whitespace_classification_matches_std() {
    for c in ['\t', '\n', '\u{b}', '\u{c}', '\r', ' ', '\u{85}', '\u{a0}', '\u{1680}', '\u{2000}', '\u{200a}', '\u{2028}', '\u{2029}', '\u{202f}', '\u{205f}', '\u{3000}', 'a', '0', '\u{200b}', '\u{1f}', '\u{feff}'] {
        assert_eq!(char_is_whitespace(c), c.is_whitespace(), "{:?}", c);
    }
    assert!(trim_is_empty(""));
    assert!(trim_is_empty("   "));
    assert!(!trim_is_empty(" a "));
}

#[test]
fn condition_expiring_today_is_still_active() {
    let cond = condition("c-1", "active", Some("2026-06-15"));
    assert!(cond.is_active("2026-06-15"));
    assert!(!cond.is_active("2026-06-16"));
}

#[test]
fn condition_with_malformed_expiry_is_inactive() {
    let cond = condition("c-1", "active", Some("31/12/2027"));
    assert!(!cond.is_active("2026-06-15"));
    let cond = condition("c-1", "active", Some("2027-12-31"));
    assert!(!cond.is_active("not a date"));
}

#[test]
fn date_before_orders_dates() {
    assert!(date_before("2025-12-31", "2026-01-01"));
    assert!(date_before("2026-01-31", "2026-02-01"));
    assert!(date_before("2026-02-01", "2026-02-02"));
    assert!(!date_before("2026-02-02", "2026-02-02"));
    assert!(!date_before("2026-02-03", "2026-02-02"));
    assert!(date_before("2026-02-30", "2026-01-01"));
    assert!(date_before("2026-01-01", ""));
}

#[test]
fn date_before_parsed_decides_from_parts() {
    assert!(date_before_parsed(Some((2025, 12, 31)), Some((2026, 1, 1))));
    assert!(date_before_parsed(Some((2026, 1, 31)), Some((2026, 2, 1))));
    assert!(date_before_parsed(Some((2026, 2, 1)), Some((2026, 2, 2))));
    assert!(!date_before_parsed(Some((2026, 2, 2)), Some((2026, 2, 2))));
    assert!(!date_before_parsed(Some((2027, 1, 1)), Some((2026, 12, 31))));
    assert!(date_before_parsed(None, Some((2026, 1, 1))));
    assert!(date_before_parsed(Some((2026, 1, 1)), None));
    assert!(date_before_parsed(None, None));
}

#[test]
fn restriction_never_blocks_empty_jurisdiction() {
    let rest = LicenseRestriction {
        restriction_id: "r".to_string(),
        restriction_type: "geographic".to_string(),
        description: "all".to_string(),
        blocked_activities: vec![],
        blocked_jurisdictions: vec!["*".to_string(), "".to_string()],
        allowed_jurisdictions: vec![],
        blocked_products: vec![],
        blocked_client_types: vec![],
        max_leverage: None,
        effective_date: None,
        status: "active".to_string(),
    };
    assert!(!rest.blocks_jurisdiction(""));
    assert!(rest.blocks_jurisdiction("fr"));
}

#[test]
fn permission_requires_active_status() {
    let perm = LicensePermission {
        permission_id: "p".to_string(),
        activity: "payment_services".to_string(),
        scope: BTreeMap::new(),
        limits: BTreeMap::new(),
        effective_date: None,
        status: "revoked".to_string(),
    };
    assert!(!perm.permits_activity("payment_services"));
}

#[test]
fn text_order_is_by_code_point() {
    assert_eq!(compare_text("abc", "abd"), TextOrder::Before);
    assert_eq!(compare_text("abd", "abc"), TextOrder::After);
    assert_eq!(compare_text("ab", "abc"), TextOrder::Before);
    assert_eq!(compare_text("abc", "abc"), TextOrder::Same);
    assert_eq!(compare_text("Z", "a"), TextOrder::Before);
    assert_eq!(compare_text("\u{e9}", "z"), TextOrder::After);
    assert_eq!(compare_text("", ""), TextOrder::Same);
}

#[test]
fn date_before_chains_and_is_asymmetric() {
    let dates = ["2024-02-29", "2025-01-01", "2025-06-30", "2026-12-31"];
    for a in dates {
        assert!(!date_before(a, a));
        for b in dates {
            assert!(!(date_before(a, b) && date_before(b, a)));
            for c in dates {
                if date_before(a, b) && date_before(b, c) {
                    assert!(date_before(a, c));
                }
            }
        }
    }
}
