use licensepack::cayman::{
    cayman_license_types, cayman_regulators, cima_license_types, ditc_license_types, roc_license_types,
};

#[test]
fn cayman_has_three_regulators() {
    let regs = cayman_regulators();
    assert_eq!(regs.len(), 3);

    let ids: Vec<&str> = regs.iter().map(|r| r.regulator_id.as_str()).collect();
    assert!(ids.contains(&"ky-cima"), "missing CIMA");
    assert!(ids.contains(&"ky-roc"), "missing ROC");
    assert!(ids.contains(&"ky-ditc"), "missing DITC");
}

#[test]
fn all_regulators_are_cayman_jurisdiction() {
    for reg in cayman_regulators() {
        assert_eq!(reg.jurisdiction_id, "ky", "{} is not ky", reg.regulator_id);
    }
}

#[test]
fn cayman_license_types_cover_all_authorities() {
    let types = cayman_license_types();
    assert!(
        types.len() >= 26,
        "expected >= 26 license types, got {}",
        types.len()
    );

    let mut authority_ids: std::collections::HashSet<&str> = std::collections::HashSet::new();
    for lt in &types {
        authority_ids.insert(&lt.regulator_id);
    }
    assert!(authority_ids.contains("ky-cima"), "no CIMA license types");
    assert!(authority_ids.contains("ky-roc"), "no ROC license types");
    assert!(authority_ids.contains("ky-ditc"), "no DITC license types");
}

#[test]
fn cima_has_banking_licenses() {
    let types = cima_license_types();
    let ids: Vec<&str> = types.iter().map(|t| t.license_type_id.as_str()).collect();
    assert!(ids.contains(&"ky-cima:banking-class-a"));
    assert!(ids.contains(&"ky-cima:banking-class-b"));
}

#[test]
fn cima_has_insurance_licenses() {
    let types = cima_license_types();
    let ids: Vec<&str> = types.iter().map(|t| t.license_type_id.as_str()).collect();
    assert!(ids.contains(&"ky-cima:insurance-class-a"));
    assert!(ids.contains(&"ky-cima:insurance-class-b"));
    assert!(ids.contains(&"ky-cima:insurance-class-c"));
    assert!(ids.contains(&"ky-cima:insurance-manager"));
    assert!(ids.contains(&"ky-cima:insurance-broker"));
    assert!(ids.contains(&"ky-cima:insurance-agent"));
}

#[test]
fn cima_has_securities_licenses() {
    let types = cima_license_types();
    let ids: Vec<&str> = types.iter().map(|t| t.license_type_id.as_str()).collect();
    assert!(ids.contains(&"ky-cima:securities"));
    assert!(ids.contains(&"ky-cima:fund-administration"));
    assert!(ids.contains(&"ky-cima:mutual-fund"));
    assert!(ids.contains(&"ky-cima:securities-vasp"));
}

#[test]
fn cima_has_money_services_licenses() {
    let types = cima_license_types();
    let ids: Vec<&str> = types.iter().map(|t| t.license_type_id.as_str()).collect();
    assert!(ids.contains(&"ky-cima:money-transmission"));
    assert!(ids.contains(&"ky-cima:currency-exchange"));
}

#[test]
fn cima_has_trust_and_corporate_licenses() {
    let types = cima_license_types();
    let ids: Vec<&str> = types.iter().map(|t| t.license_type_id.as_str()).collect();
    assert!(ids.contains(&"ky-cima:trust-license"));
    assert!(ids.contains(&"ky-cima:company-management"));
}

#[test]
fn cima_has_credit_union_license() {
    let types = cima_license_types();
    let ids: Vec<&str> = types.iter().map(|t| t.license_type_id.as_str()).collect();
    assert!(ids.contains(&"ky-cima:cooperative-credit-union"));
}

#[test]
fn cima_has_vasp_license() {
    let types = cima_license_types();
    let ids: Vec<&str> = types.iter().map(|t| t.license_type_id.as_str()).collect();
    assert!(ids.contains(&"ky-cima:vasp"));
}

#[test]
fn roc_has_corporate_registrations() {
    let types = roc_license_types();
    let ids: Vec<&str> = types.iter().map(|t| t.license_type_id.as_str()).collect();
    assert!(ids.contains(&"ky-roc:exempt-company"));
    assert!(ids.contains(&"ky-roc:ordinary-company"));
    assert!(ids.contains(&"ky-roc:foreign-company"));
    assert!(ids.contains(&"ky-roc:llc"));
    assert!(ids.contains(&"ky-roc:foundation-company"));
    assert!(ids.contains(&"ky-roc:segregated-portfolio-company"));
}

#[test]
fn ditc_has_tax_compliance_registrations() {
    let types = ditc_license_types();
    let ids: Vec<&str> = types.iter().map(|t| t.license_type_id.as_str()).collect();
    assert!(ids.contains(&"ky-ditc:crs-compliance"));
    assert!(ids.contains(&"ky-ditc:fatca-compliance"));
}

#[test]
fn cayman_all_license_types_have_unique_ids() {
    let types = cayman_license_types();
    let mut ids = std::collections::HashSet::new();
    for lt in &types {
        assert!(
            ids.insert(&lt.license_type_id),
            "duplicate license_type_id: {}",
            lt.license_type_id
        );
    }
}

#[test]
fn cayman_all_license_types_have_valid_fields() {
    for lt in cayman_license_types() {
        assert!(
            !lt.license_type_id.is_empty(),
            "empty license_type_id for {}",
            lt.name
        );
        assert!(!lt.name.is_empty(), "empty name for {}", lt.license_type_id);
        assert!(
            !lt.description.is_empty(),
            "empty description for {}",
            lt.license_type_id
        );
        assert!(
            !lt.regulator_id.is_empty(),
            "empty regulator_id for {}",
            lt.license_type_id
        );
        assert!(
            lt.category.is_some(),
            "missing category for {}",
            lt.license_type_id
        );
    }
}

#[test]
fn cayman_all_license_types_have_permitted_activities() {
    for lt in cayman_license_types() {
        assert!(
            !lt.permitted_activities.is_empty(),
            "no permitted_activities for {}",
            lt.license_type_id
        );
    }
}
