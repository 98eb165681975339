use licensepack::seychelles::{
    cbs_license_types, fsa_license_types, seychelles_license_types, seychelles_regulators, src_license_types,
};

#[test]
fn seychelles_has_three_regulators() {
    let regs = seychelles_regulators();
    assert_eq!(regs.len(), 3);

    let ids: Vec<&str> = regs.iter().map(|r| r.regulator_id.as_str()).collect();
    assert!(ids.contains(&"sc-fsa"), "missing FSA");
    assert!(ids.contains(&"sc-cbs"), "missing CBS");
    assert!(ids.contains(&"sc-src"), "missing SRC");
}

#[test]
fn all_regulators_are_seychelles_jurisdiction() {
    for reg in seychelles_regulators() {
        assert_eq!(reg.jurisdiction_id, "sc", "{} is not sc", reg.regulator_id);
    }
}

#[test]
fn seychelles_license_types_cover_all_authorities() {
    let types = seychelles_license_types();
    assert!(
        types.len() >= 20,
        "expected >= 20 license types, got {}",
        types.len()
    );

    let mut authority_ids: std::collections::HashSet<&str> = std::collections::HashSet::new();
    for lt in &types {
        authority_ids.insert(&lt.regulator_id);
    }
    assert!(authority_ids.contains("sc-fsa"), "no FSA license types");
    assert!(authority_ids.contains("sc-cbs"), "no CBS license types");
    assert!(authority_ids.contains("sc-src"), "no SRC license types");
}

#[test]
fn fsa_has_securities_licenses() {
    let types = fsa_license_types();
    let ids: Vec<&str> = types.iter().map(|t| t.license_type_id.as_str()).collect();
    assert!(ids.contains(&"sc-fsa:securities-dealer"));
    assert!(ids.contains(&"sc-fsa:investment-adviser"));
    assert!(ids.contains(&"sc-fsa:fund-management"));
}

#[test]
fn fsa_has_insurance_licenses() {
    let types = fsa_license_types();
    let ids: Vec<&str> = types.iter().map(|t| t.license_type_id.as_str()).collect();
    assert!(ids.contains(&"sc-fsa:insurance-domestic"));
    assert!(ids.contains(&"sc-fsa:insurance-captive"));
    assert!(ids.contains(&"sc-fsa:insurance-broker"));
    assert!(ids.contains(&"sc-fsa:insurance-agent"));
}

#[test]
fn fsa_has_corporate_licenses() {
    let types = fsa_license_types();
    let ids: Vec<&str> = types.iter().map(|t| t.license_type_id.as_str()).collect();
    assert!(ids.contains(&"sc-fsa:ibc"));
    assert!(ids.contains(&"sc-fsa:gbc"));
    assert!(ids.contains(&"sc-fsa:csp"));
}

#[test]
fn fsa_has_money_changing_license() {
    let types = fsa_license_types();
    let ids: Vec<&str> = types.iter().map(|t| t.license_type_id.as_str()).collect();
    assert!(ids.contains(&"sc-fsa:money-changing"));
}

#[test]
fn fsa_has_credit_union_license() {
    let types = fsa_license_types();
    let ids: Vec<&str> = types.iter().map(|t| t.license_type_id.as_str()).collect();
    assert!(ids.contains(&"sc-fsa:credit-union"));
}

#[test]
fn fsa_has_digital_asset_license() {
    let types = fsa_license_types();
    let ids: Vec<&str> = types.iter().map(|t| t.license_type_id.as_str()).collect();
    assert!(ids.contains(&"sc-fsa:digital-asset-service-provider"));
}

#[test]
fn cbs_has_banking_licenses() {
    let types = cbs_license_types();
    let ids: Vec<&str> = types.iter().map(|t| t.license_type_id.as_str()).collect();
    assert!(ids.contains(&"sc-cbs:banking-domestic"));
    assert!(ids.contains(&"sc-cbs:banking-offshore"));
}

#[test]
fn cbs_has_money_transfer_and_exchange_licenses() {
    let types = cbs_license_types();
    let ids: Vec<&str> = types.iter().map(|t| t.license_type_id.as_str()).collect();
    assert!(ids.contains(&"sc-cbs:money-value-transfer"));
    assert!(ids.contains(&"sc-cbs:bureau-de-change"));
}

#[test]
fn cbs_has_payment_service_provider_license() {
    let types = cbs_license_types();
    let ids: Vec<&str> = types.iter().map(|t| t.license_type_id.as_str()).collect();
    assert!(ids.contains(&"sc-cbs:payment-service-provider"));
}

#[test]
fn src_has_registration_types() {
    let types = src_license_types();
    let ids: Vec<&str> = types.iter().map(|t| t.license_type_id.as_str()).collect();
    assert!(ids.contains(&"sc-src:business-registration"));
    assert!(ids.contains(&"sc-src:tax-registration"));
}

#[test]
fn seychelles_all_license_types_have_unique_ids() {
    let types = seychelles_license_types();
    let mut ids = std::collections::HashSet::new();
    for lt in &types {
        assert!(
            ids.insert(&lt.license_type_id),
            "duplicate license_type_id: {}",
            lt.license_type_id
        );
    }
}

#[test]
fn seychelles_all_license_types_have_valid_fields() {
    for lt in seychelles_license_types() {
        assert!(
            !lt.license_type_id.is_empty(),
            "empty license_type_id for {}",
            lt.name
        );
        assert!(!lt.name.is_empty(), "empty name for {}", lt.license_type_id);
        assert!(
            !lt.description.is_empty(),
            "empty description for {}",
            lt.license_type_id
        );
        assert!(
            !lt.regulator_id.is_empty(),
            "empty regulator_id for {}",
            lt.license_type_id
        );
        assert!(
            lt.category.is_some(),
            "missing category for {}",
            lt.license_type_id
        );
    }
}

#[test]
fn seychelles_all_license_types_have_permitted_activities() {
    for lt in seychelles_license_types() {
        assert!(
            !lt.permitted_activities.is_empty(),
            "no permitted_activities for {}",
            lt.license_type_id
        );
    }
}
