use licensepack::bvi::{
    bvi_license_types, bvi_regulators, fsc_license_types, rca_license_types,
};

#[test]
fn bvi_has_two_regulators() {
    let regs = bvi_regulators();
    assert_eq!(regs.len(), 2);

    let ids: Vec<&str> = regs.iter().map(|r| r.regulator_id.as_str()).collect();
    assert!(ids.contains(&"vg-fsc"), "missing FSC");
    assert!(ids.contains(&"vg-rca"), "missing RCA");
}

#[test]
fn all_regulators_are_bvi_jurisdiction() {
    for reg in bvi_regulators() {
        assert_eq!(reg.jurisdiction_id, "vg", "{} is not vg", reg.regulator_id);
    }
}

#[test]
fn bvi_license_types_cover_all_authorities() {
    let types = bvi_license_types();
    assert!(
        types.len() >= 25,
        "expected >= 25 license types, got {}",
        types.len()
    );

    let mut authority_ids: std::collections::HashSet<&str> = std::collections::HashSet::new();
    for lt in &types {
        authority_ids.insert(&lt.regulator_id);
    }
    assert!(authority_ids.contains("vg-fsc"), "no FSC license types");
    assert!(authority_ids.contains("vg-rca"), "no RCA license types");
}

#[test]
fn fsc_has_banking_licenses() {
    let types = fsc_license_types();
    let ids: Vec<&str> = types.iter().map(|t| t.license_type_id.as_str()).collect();
    assert!(ids.contains(&"vg-fsc:banking-class-i"));
    assert!(ids.contains(&"vg-fsc:banking-class-ii"));
}

#[test]
fn fsc_has_insurance_licenses() {
    let types = fsc_license_types();
    let ids: Vec<&str> = types.iter().map(|t| t.license_type_id.as_str()).collect();
    assert!(ids.contains(&"vg-fsc:insurance-general"));
    assert!(ids.contains(&"vg-fsc:insurance-long-term"));
    assert!(ids.contains(&"vg-fsc:insurance-manager"));
    assert!(ids.contains(&"vg-fsc:insurance-broker"));
    assert!(ids.contains(&"vg-fsc:insurance-agent"));
}

#[test]
fn fsc_has_investment_business_licenses() {
    let types = fsc_license_types();
    let ids: Vec<&str> = types.iter().map(|t| t.license_type_id.as_str()).collect();
    assert!(ids.contains(&"vg-fsc:fund-manager"));
    assert!(ids.contains(&"vg-fsc:investment-adviser"));
    assert!(ids.contains(&"vg-fsc:broker-dealer"));
    assert!(ids.contains(&"vg-fsc:exchange"));
}

#[test]
fn fsc_has_money_services_licenses() {
    let types = fsc_license_types();
    let ids: Vec<&str> = types.iter().map(|t| t.license_type_id.as_str()).collect();
    assert!(ids.contains(&"vg-fsc:money-services-business"));
    assert!(ids.contains(&"vg-fsc:financing-business"));
}

#[test]
fn fsc_has_mutual_fund_licenses() {
    let types = fsc_license_types();
    let ids: Vec<&str> = types.iter().map(|t| t.license_type_id.as_str()).collect();
    assert!(ids.contains(&"vg-fsc:mutual-fund-professional"));
    assert!(ids.contains(&"vg-fsc:mutual-fund-private"));
    assert!(ids.contains(&"vg-fsc:mutual-fund-public"));
    assert!(ids.contains(&"vg-fsc:mutual-fund-recognized-foreign"));
}

#[test]
fn fsc_has_company_management_licenses() {
    let types = fsc_license_types();
    let ids: Vec<&str> = types.iter().map(|t| t.license_type_id.as_str()).collect();
    assert!(ids.contains(&"vg-fsc:csp"));
    assert!(ids.contains(&"vg-fsc:trust-business"));
}

#[test]
fn fsc_has_credit_union_license() {
    let types = fsc_license_types();
    let ids: Vec<&str> = types.iter().map(|t| t.license_type_id.as_str()).collect();
    assert!(ids.contains(&"vg-fsc:credit-union"));
}

#[test]
fn fsc_has_digital_assets_license() {
    let types = fsc_license_types();
    let ids: Vec<&str> = types.iter().map(|t| t.license_type_id.as_str()).collect();
    assert!(ids.contains(&"vg-fsc:vasp"));
}

#[test]
fn rca_has_corporate_registrations() {
    let types = rca_license_types();
    let ids: Vec<&str> = types.iter().map(|t| t.license_type_id.as_str()).collect();
    assert!(ids.contains(&"vg-rca:business-company"));
    assert!(ids.contains(&"vg-rca:limited-partnership"));
    assert!(ids.contains(&"vg-rca:segregated-portfolio-company"));
    assert!(ids.contains(&"vg-rca:foreign-company"));
}

#[test]
fn bvi_all_license_types_have_unique_ids() {
    let types = bvi_license_types();
    let mut ids = std::collections::HashSet::new();
    for lt in &types {
        assert!(
            ids.insert(&lt.license_type_id),
            "duplicate license_type_id: {}",
            lt.license_type_id
        );
    }
}

#[test]
fn bvi_all_license_types_have_valid_fields() {
    for lt in bvi_license_types() {
        assert!(
            !lt.license_type_id.is_empty(),
            "empty license_type_id for {}",
            lt.name
        );
        assert!(!lt.name.is_empty(), "empty name for {}", lt.license_type_id);
        assert!(
            !lt.description.is_empty(),
            "empty description for {}",
            lt.license_type_id
        );
        assert!(
            !lt.regulator_id.is_empty(),
            "empty regulator_id for {}",
            lt.license_type_id
        );
        assert!(
            lt.category.is_some(),
            "missing category for {}",
            lt.license_type_id
        );
    }
}

#[test]
fn bvi_all_license_types_have_permitted_activities() {
    for lt in bvi_license_types() {
        assert!(
            !lt.permitted_activities.is_empty(),
            "no permitted_activities for {}",
            lt.license_type_id
        );
    }
}
