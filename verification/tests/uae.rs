use licensepack::uae::{
    adgm_license_types, difc_license_types, uae_license_types, uae_regulators,
};

#[test]
fn uae_has_expected_regulators() {
    let regs = uae_regulators();
    assert!(regs.len() >= 16, "expected >= 16 regulators, got {}", regs.len());
}

#[test]
fn adgm_has_extensive_coverage() {
    let types = adgm_license_types();
    assert!(types.len() >= 15, "ADGM should have >= 15 license types, got {}", types.len());
    let ids: Vec<&str> = types.iter().map(|t| t.license_type_id.as_str()).collect();
    assert!(ids.contains(&"ae-adgm-fsra:digital-asset-exchange"), "ADGM missing digital asset exchange");
    assert!(ids.contains(&"ae-adgm-fsra:casp"), "ADGM missing CASP");
}

#[test]
fn difc_has_extensive_coverage() {
    let types = difc_license_types();
    assert!(types.len() >= 14, "DIFC should have >= 14 license types, got {}", types.len());
}

#[test]
fn uae_all_license_types_have_unique_ids() {
    let types = uae_license_types();
    let mut ids = std::collections::HashSet::new();
    for lt in &types {
        assert!(ids.insert(&lt.license_type_id), "duplicate: {}", lt.license_type_id);
    }
}

#[test]
fn uae_all_license_types_have_valid_fields() {
    for lt in uae_license_types() {
        assert!(!lt.license_type_id.is_empty());
        assert!(!lt.name.is_empty(), "empty name for {}", lt.license_type_id);
        assert!(lt.category.is_some(), "missing category for {}", lt.license_type_id);
        assert!(!lt.permitted_activities.is_empty(), "no activities for {}", lt.license_type_id);
    }
}
