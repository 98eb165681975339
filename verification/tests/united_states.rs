use licensepack::united_states::{
    ca_license_types, ny_license_types, us_license_types, us_regulators, wy_license_types,
};

#[test]
fn us_has_56_jurisdictions() {
    let regs = us_regulators();
    // 8 detailed states (4 regulators each) + 48 standard states (4 each) = 224
    assert!(regs.len() >= 224, "expected >= 224 regulators, got {}", regs.len());
}

#[test]
fn all_regulators_have_us_jurisdiction() {
    for reg in us_regulators() {
        assert!(
            reg.jurisdiction_id.starts_with("us"),
            "{} has unexpected jurisdiction_id: {}",
            reg.regulator_id, reg.jurisdiction_id
        );
    }
}

#[test]
fn united_states_all_license_types_have_unique_ids() {
    let types = us_license_types();
    let mut ids = std::collections::HashSet::new();
    for lt in &types {
        assert!(ids.insert(&lt.license_type_id), "duplicate: {}", lt.license_type_id);
    }
}

#[test]
fn key_states_have_enhanced_coverage() {
    let ny = ny_license_types();
    assert!(ny.len() >= 9, "NY should have >= 9 license types, got {}", ny.len());
    let ids: Vec<&str> = ny.iter().map(|t| t.license_type_id.as_str()).collect();
    assert!(ids.contains(&"us-ny-dfs:bitlicense"), "NY missing BitLicense");

    let ca = ca_license_types();
    assert!(ca.len() >= 8, "CA should have >= 8 license types, got {}", ca.len());

    let wy = wy_license_types();
    let wy_ids: Vec<&str> = wy.iter().map(|t| t.license_type_id.as_str()).collect();
    assert!(wy_ids.contains(&"us-wy-sos:dao-llc"), "WY missing DAO LLC");
    assert!(wy_ids.contains(&"us-wy-dob:spdi-charter"), "WY missing SPDI");
}

#[test]
fn united_states_all_license_types_have_valid_fields() {
    for lt in us_license_types() {
        assert!(!lt.license_type_id.is_empty(), "empty license_type_id");
        assert!(!lt.name.is_empty(), "empty name for {}", lt.license_type_id);
        assert!(!lt.description.is_empty(), "empty desc for {}", lt.license_type_id);
        assert!(!lt.regulator_id.is_empty(), "empty reg_id for {}", lt.license_type_id);
        assert!(lt.category.is_some(), "missing category for {}", lt.license_type_id);
        assert!(!lt.permitted_activities.is_empty(), "no activities for {}", lt.license_type_id);
    }
}
