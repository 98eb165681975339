use std::collections::BTreeMap;

use licensepack::components::LicenseHolder;
use licensepack::license::LicenseTypeDefinition;
use licensepack::table::KeyedTable;
use licensepack::pack::{decide_verification, License, Licensepack};
use licensepack::types::{LicenseComplianceState, LicenseStatus};

fn make_test_license(id: &str, status: LicenseStatus) -> License {
    License {
        license_id: id.to_string(),
        license_type_id: "test:emi".to_string(),
        license_number: Some("LIC-001".to_string()),
        status,
        issued_date: "2025-01-01".to_string(),
        holder_id: "holder-001".to_string(),
        holder_legal_name: "Test Corp".to_string(),
        regulator_id: "fsra".to_string(),
        status_effective_date: None,
        status_reason: None,
        effective_date: Some("2025-01-01".to_string()),
        expiry_date: Some("2027-12-31".to_string()),
        holder_registration_number: None,
        holder_did: Some("did:web:test.example".to_string()),
        issuing_authority: None,
        permitted_activities: vec!["payment_services".to_string(), "e_money".to_string()],
        asset_classes_authorized: vec![],
        client_types_permitted: vec![],
        geographic_scope: vec![],
        prudential_category: None,
        capital_requirement: BTreeMap::new(),
        conditions: vec![],
        permissions: vec![],
        restrictions: vec![],
    }
}

fn make_test_holder(id: &str) -> LicenseHolder {
    LicenseHolder {
        holder_id: id.to_string(),
        entity_type: "company".to_string(),
        legal_name: "Test Corporation Ltd".to_string(),
        trading_names: vec!["TestCo".to_string()],
        registration_number: Some("REG-001".to_string()),
        incorporation_date: Some("2020-01-01".to_string()),
        jurisdiction_of_incorporation: Some("pk".to_string()),
        did: Some("did:web:test.example".to_string()),
        registered_address: BTreeMap::new(),
        contact: BTreeMap::new(),
        controllers: vec![],
        beneficial_owners: vec![],
        group_structure: BTreeMap::new(),
    }
}

fn make_test_license_type(id: &str) -> LicenseTypeDefinition {
    LicenseTypeDefinition {
        license_type_id: id.to_string(),
        name: "Test License Type".to_string(),
        description: "A test license type".to_string(),
        regulator_id: "fsra".to_string(),
        category: Some("financial".to_string()),
        permitted_activities: vec!["trading".to_string()],
        requirements: KeyedTable::new(),
        application_fee: KeyedTable::new(),
        annual_fee: KeyedTable::new(),
        validity_period_years: Some(3),
    }
}

#[test]
fn test_licensepack_add_and_get() {
    let mut pack = Licensepack::new("pk".to_string(), "Test Pack".to_string());
    let lic = make_test_license("lic-001", LicenseStatus::Active);
    pack.add_license(lic);

    assert!(pack.get_license("lic-001").is_some());
    assert!(pack.get_license("lic-999").is_none());
}

#[test]
fn test_licensepack_get_by_holder_did() {
    let mut pack = Licensepack::new("pk".to_string(), "Test Pack".to_string());
    pack.add_license(make_test_license("lic-001", LicenseStatus::Active));
    pack.add_license(make_test_license("lic-002", LicenseStatus::Suspended));

    let holder_licenses = pack.get_licenses_by_holder_did("did:web:test.example");
    assert_eq!(holder_licenses.len(), 2);

    let no_licenses = pack.get_licenses_by_holder_did("did:web:unknown");
    assert!(no_licenses.is_empty());
}

#[test]
fn test_licensepack_delta() {
    let mut prev = Licensepack::new("pk".to_string(), "Previous".to_string());
    prev.add_license(make_test_license("lic-001", LicenseStatus::Active));
    prev.add_license(make_test_license("lic-002", LicenseStatus::Active));

    let mut curr = Licensepack::new("pk".to_string(), "Current".to_string());
    curr.add_license(make_test_license("lic-001", LicenseStatus::Suspended));
    curr.add_license(make_test_license("lic-003", LicenseStatus::Active));

    let delta = curr.compute_delta(&prev);
    assert_eq!(delta.granted.len(), 1);
    assert_eq!(delta.revoked.len(), 1);
    assert_eq!(delta.suspended.len(), 1);
}

#[test]
fn test_licensepack_add_license_type() {
    let mut pack = Licensepack::new("pk".to_string(), "Test".to_string());
    assert!(pack.license_types.is_empty());

    pack.add_license_type(make_test_license_type("lt-001"));
    assert_eq!(pack.license_types.len(), 1);
    assert!(pack.license_types.contains_key("lt-001"));
    assert!(pack.digest.is_none());
}

#[test]
fn test_compute_delta_no_changes() {
    let mut pack = Licensepack::new("pk".to_string(), "Same".to_string());
    pack.add_license(make_test_license("lic-001", LicenseStatus::Active));

    let mut prev = Licensepack::new("pk".to_string(), "Same".to_string());
    prev.add_license(make_test_license("lic-001", LicenseStatus::Active));

    let delta = pack.compute_delta(&prev);
    assert_eq!(delta.granted.len(), 0);
    assert_eq!(delta.revoked.len(), 0);
    assert_eq!(delta.suspended.len(), 0);
    assert_eq!(delta.reinstated.len(), 0);
}

#[test]
fn test_compute_delta_reinstated() {
    let mut prev = Licensepack::new("pk".to_string(), "Prev".to_string());
    prev.add_license(make_test_license("lic-001", LicenseStatus::Suspended));

    let mut curr = Licensepack::new("pk".to_string(), "Curr".to_string());
    curr.add_license(make_test_license("lic-001", LicenseStatus::Active));

    let delta = curr.compute_delta(&prev);
    assert_eq!(delta.reinstated.len(), 1);
}

#[test]
fn test_compute_delta_empty_packs() {
    let prev = Licensepack::new("pk".to_string(), "Prev".to_string());
    let curr = Licensepack::new("pk".to_string(), "Curr".to_string());

    let delta = curr.compute_delta(&prev);
    assert_eq!(delta.granted.len(), 0);
    assert_eq!(delta.revoked.len(), 0);
}

#[test]
fn test_compute_delta_all_new() {
    let prev = Licensepack::new("pk".to_string(), "Prev".to_string());
    let mut curr = Licensepack::new("pk".to_string(), "Curr".to_string());
    curr.add_license(make_test_license("lic-001", LicenseStatus::Active));
    curr.add_license(make_test_license("lic-002", LicenseStatus::Active));

    let delta = curr.compute_delta(&prev);
    assert_eq!(delta.granted.len(), 2);
}

#[test]
fn test_compute_delta_status_revoked() {
    let mut prev = Licensepack::new("pk".to_string(), "Prev".to_string());
    prev.add_license(make_test_license("lic-001", LicenseStatus::Active));

    let mut curr = Licensepack::new("pk".to_string(), "Curr".to_string());
    curr.add_license(make_test_license("lic-001", LicenseStatus::Revoked));

    let delta = curr.compute_delta(&prev);
    assert_eq!(delta.revoked.len(), 1);
}

#[test]
fn add_holder_clears_digest() {
    let mut pack = Licensepack::new("pk".to_string(), "Test".to_string());
    pack.digest = Some("cached".to_string());
    pack.add_holder(make_test_holder("h-001"));
    assert!(pack.digest.is_none());
    assert_eq!(pack.holders.len(), 1);
}

#[test]
fn new_pack_is_empty_at_version_one() {
    let pack = Licensepack::new("pk".to_string(), "Test".to_string());
    assert_eq!(pack.version, "1.0");
    assert_eq!(pack.jurisdiction, "pk");
    assert_eq!(pack.name, "Test");
    assert!(pack.digest.is_none());
    assert!(pack.metadata.is_none());
    assert!(pack.licenses.is_empty());
    assert!(pack.holders.is_empty());
}

#[test]
fn add_license_replaces_same_id() {
    let mut pack = Licensepack::new("pk".to_string(), "Test".to_string());
    pack.add_license(make_test_license("lic-001", LicenseStatus::Active));
    pack.add_license(make_test_license("lic-001", LicenseStatus::Revoked));
    assert_eq!(pack.licenses.len(), 1);
    assert_eq!(pack.get_license("lic-001").unwrap().status, LicenseStatus::Revoked);
}

#[test]
fn licenses_are_kept_in_identifier_order() {
    let mut pack = Licensepack::new("pk".to_string(), "Test".to_string());
    pack.add_license(make_test_license("lic-003", LicenseStatus::Active));
    pack.add_license(make_test_license("lic-001", LicenseStatus::Active));
    pack.add_license(make_test_license("lic-002", LicenseStatus::Active));
    pack.add_license(make_test_license("LIC-000", LicenseStatus::Active));
    let ids: Vec<&str> = (0..pack.licenses.len()).map(|i| pack.licenses.key_at(i).as_str()).collect();
    assert_eq!(ids, vec!["LIC-000", "lic-001", "lic-002", "lic-003"]);
    let by_did: Vec<&str> = pack
        .get_licenses_by_holder_did("did:web:test.example")
        .iter()
        .map(|l| l.license_id.as_str())
        .collect();
    assert_eq!(by_did, vec!["LIC-000", "lic-001", "lic-002", "lic-003"]);
}

#[test]
fn empty_holder_did_matches_nothing() {
    let mut pack = Licensepack::new("pk".to_string(), "Test".to_string());
    let mut lic = make_test_license("lic-001", LicenseStatus::Active);
    lic.holder_did = Some(String::new());
    pack.add_license(lic);
    assert!(pack.get_licenses_by_holder_did("").is_empty());
}

#[test]
fn delta_lists_each_kind_of_change() {
    let mut prev = Licensepack::new("pk".to_string(), "Prev".to_string());
    prev.add_license(make_test_license("a-gone-active", LicenseStatus::Active));
    prev.add_license(make_test_license("b-gone-pending", LicenseStatus::Pending));
    prev.add_license(make_test_license("c-revoked", LicenseStatus::Active));
    prev.add_license(make_test_license("d-reinstated", LicenseStatus::Suspended));
    prev.add_license(make_test_license("e-suspended", LicenseStatus::Pending));
    prev.add_license(make_test_license("f-still-suspended", LicenseStatus::Suspended));

    let mut curr = Licensepack::new("pk".to_string(), "Curr".to_string());
    curr.add_license(make_test_license("c-revoked", LicenseStatus::Revoked));
    curr.add_license(make_test_license("d-reinstated", LicenseStatus::Active));
    curr.add_license(make_test_license("e-suspended", LicenseStatus::Suspended));
    curr.add_license(make_test_license("f-still-suspended", LicenseStatus::Suspended));
    curr.add_license(make_test_license("g-new-active", LicenseStatus::Active));
    curr.add_license(make_test_license("h-new-suspended", LicenseStatus::Suspended));
    curr.add_license(make_test_license("i-new-pending", LicenseStatus::Pending));

    let delta = curr.compute_delta(&prev);
    assert_eq!(delta.granted, vec!["g-new-active".to_string()]);
    assert_eq!(delta.revoked, vec!["a-gone-active".to_string(), "c-revoked".to_string()]);
    assert_eq!(delta.suspended, vec!["e-suspended".to_string(), "h-new-suspended".to_string()]);
    assert_eq!(delta.reinstated, vec!["d-reinstated".to_string()]);
}

#[test]
fn delta_of_pack_with_itself_is_empty() {
    let mut pack = Licensepack::new("pk".to_string(), "Same".to_string());
    pack.add_license(make_test_license("lic-001", LicenseStatus::Active));
    pack.add_license(make_test_license("lic-002", LicenseStatus::Suspended));
    pack.add_license(make_test_license("lic-003", LicenseStatus::Revoked));
    let delta = pack.compute_delta(&pack);
    assert!(delta.granted.is_empty());
    assert!(delta.revoked.is_empty());
    assert!(delta.suspended.is_empty());
    assert!(delta.reinstated.is_empty());
}

#[test]
fn get_after_add_returns_the_license() {
    let mut pack = Licensepack::new("pk".to_string(), "Test".to_string());
    pack.add_license(make_test_license("lic-001", LicenseStatus::Pending));
    pack.add_license(make_test_license("lic-002", LicenseStatus::Active));
    assert_eq!(pack.get_license("lic-002").unwrap().status, LicenseStatus::Active);
    assert_eq!(pack.get_license("lic-001").unwrap().status, LicenseStatus::Pending);
}

#[test]
fn verification_with_no_licenses_is_non_compliant() {
    let r = decide_verification(&vec![]);
    assert_eq!(r, (false, LicenseComplianceState::NonCompliant, None));
}

#[test]
fn verification_prefers_first_compliant() {
    let r = decide_verification(&vec![
        ("lic-001".to_string(), LicenseComplianceState::Suspended),
        ("lic-002".to_string(), LicenseComplianceState::Compliant),
        ("lic-003".to_string(), LicenseComplianceState::Compliant),
    ]);
    assert_eq!(r, (true, LicenseComplianceState::Compliant, Some("lic-002".to_string())));
}

#[test]
fn verification_pending_ranks_above_suspended() {
    let r = decide_verification(&vec![
        ("lic-001".to_string(), LicenseComplianceState::Pending),
        ("lic-002".to_string(), LicenseComplianceState::Suspended),
    ]);
    assert_eq!(r, (false, LicenseComplianceState::Pending, None));
}

#[test]
fn verification_lone_suspended_is_suspended() {
    let r = decide_verification(&vec![
        ("lic-001".to_string(), LicenseComplianceState::NonCompliant),
        ("lic-002".to_string(), LicenseComplianceState::Suspended),
    ]);
    assert_eq!(r, (false, LicenseComplianceState::Suspended, None));
}

#[test]
fn verification_pending() {
    let r = decide_verification(&vec![
        ("lic-001".to_string(), LicenseComplianceState::NonCompliant),
        ("lic-002".to_string(), LicenseComplianceState::Pending),
    ]);
    assert_eq!(r, (false, LicenseComplianceState::Pending, None));
}

#[test]
fn verification_unknown_ranks_above_suspended() {
    let r = decide_verification(&vec![("lic-001".to_string(), LicenseComplianceState::Unknown)]);
    assert_eq!(r, (false, LicenseComplianceState::Unknown, None));
    let r = decide_verification(&vec![
        ("lic-001".to_string(), LicenseComplianceState::Suspended),
        ("lic-002".to_string(), LicenseComplianceState::Unknown),
        ("lic-003".to_string(), LicenseComplianceState::NonCompliant),
    ]);
    assert_eq!(r, (false, LicenseComplianceState::Unknown, None));
    let r = decide_verification(&vec![
        ("lic-001".to_string(), LicenseComplianceState::Unknown),
        ("lic-002".to_string(), LicenseComplianceState::Pending),
    ]);
    assert_eq!(r, (false, LicenseComplianceState::Pending, None));
}

#[test]
fn verification_all_non_compliant() {
    let r = decide_verification(&vec![
        ("lic-001".to_string(), LicenseComplianceState::NonCompliant),
        ("lic-002".to_string(), LicenseComplianceState::NonCompliant),
    ]);
    assert_eq!(r, (false, LicenseComplianceState::NonCompliant, None));
}

#[test]
fn delta_kinds_share_no_identifier() {
    let mut prev = Licensepack::new("pk".to_string(), "Prev".to_string());
    prev.add_license(make_test_license("a", LicenseStatus::Active));
    prev.add_license(make_test_license("b", LicenseStatus::Suspended));
    prev.add_license(make_test_license("c", LicenseStatus::Active));
    prev.add_license(make_test_license("d", LicenseStatus::Pending));
    let mut curr = Licensepack::new("pk".to_string(), "Curr".to_string());
    curr.add_license(make_test_license("b", LicenseStatus::Active));
    curr.add_license(make_test_license("c", LicenseStatus::Revoked));
    curr.add_license(make_test_license("d", LicenseStatus::Suspended));
    curr.add_license(make_test_license("e", LicenseStatus::Active));
    let delta = curr.compute_delta(&prev);
    let lists = [&delta.granted, &delta.revoked, &delta.suspended, &delta.reinstated];
    for (i, x) in lists.iter().enumerate() {
        for (j, y) in lists.iter().enumerate() {
            if i != j {
                assert!(x.iter().all(|id| !y.contains(id)));
            }
        }
    }
    assert_eq!(delta.granted, vec!["e".to_string()]);
    assert_eq!(delta.revoked, vec!["a".to_string(), "c".to_string()]);
    assert_eq!(delta.suspended, vec!["d".to_string()]);
    assert_eq!(delta.reinstated, vec!["b".to_string()]);
}

#[test]
fn delta_from_empty_pack_grants_active_and_lists_suspended() {
    let prev = Licensepack::new("pk".to_string(), "Empty".to_string());
    let mut curr = Licensepack::new("pk".to_string(), "Curr".to_string());
    curr.add_license(make_test_license("lic-003", LicenseStatus::Active));
    curr.add_license(make_test_license("lic-001", LicenseStatus::Suspended));
    curr.add_license(make_test_license("lic-002", LicenseStatus::Active));
    curr.add_license(make_test_license("lic-004", LicenseStatus::Revoked));
    let delta = curr.compute_delta(&prev);
    assert_eq!(delta.granted, vec!["lic-002".to_string(), "lic-003".to_string()]);
    assert_eq!(delta.suspended, vec!["lic-001".to_string()]);
    assert!(delta.reinstated.is_empty());
    assert!(delta.revoked.is_empty());
}

#[test]
fn delta_to_empty_pack_revokes_the_active() {
    let mut prev = Licensepack::new("pk".to_string(), "Prev".to_string());
    prev.add_license(make_test_license("lic-002", LicenseStatus::Active));
    prev.add_license(make_test_license("lic-001", LicenseStatus::Active));
    prev.add_license(make_test_license("lic-003", LicenseStatus::Suspended));
    let curr = Licensepack::new("pk".to_string(), "Empty".to_string());
    let delta = curr.compute_delta(&prev);
    assert_eq!(delta.revoked, vec!["lic-001".to_string(), "lic-002".to_string()]);
    assert!(delta.granted.is_empty());
    assert!(delta.suspended.is_empty());
    assert!(delta.reinstated.is_empty());
}
