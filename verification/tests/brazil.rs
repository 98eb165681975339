use licensepack::brazil::{
    bcb_license_types, brazil_license_types, brazil_regulators, cvm_license_types, drei_license_types, susep_license_types,
};

#[test]
fn brazil_has_four_regulators() {
    let regs = brazil_regulators();
    assert_eq!(regs.len(), 4);

    let ids: Vec<&str> = regs.iter().map(|r| r.regulator_id.as_str()).collect();
    assert!(ids.contains(&"br-bcb"), "missing BCB");
    assert!(ids.contains(&"br-cvm"), "missing CVM");
    assert!(ids.contains(&"br-susep"), "missing SUSEP");
    assert!(ids.contains(&"br-drei"), "missing DREI");
}

#[test]
fn all_regulators_are_brazil_jurisdiction() {
    for reg in brazil_regulators() {
        assert_eq!(reg.jurisdiction_id, "br", "{} is not br", reg.regulator_id);
    }
}

#[test]
fn brazil_license_types_cover_all_authorities() {
    let types = brazil_license_types();
    assert!(
        types.len() >= 21,
        "expected >= 21 license types, got {}",
        types.len()
    );

    let mut authority_ids: std::collections::HashSet<&str> = std::collections::HashSet::new();
    for lt in &types {
        authority_ids.insert(&lt.regulator_id);
    }
    assert!(authority_ids.contains("br-bcb"), "no BCB license types");
    assert!(authority_ids.contains("br-cvm"), "no CVM license types");
    assert!(authority_ids.contains("br-susep"), "no SUSEP license types");
    assert!(authority_ids.contains("br-drei"), "no DREI license types");
}

#[test]
fn bcb_has_banking_and_payments() {
    let types = bcb_license_types();
    let ids: Vec<&str> = types.iter().map(|t| t.license_type_id.as_str()).collect();
    assert!(ids.contains(&"br-bcb:commercial-bank"));
    assert!(ids.contains(&"br-bcb:investment-bank"));
    assert!(ids.contains(&"br-bcb:payment-institution-issuer"));
    assert!(ids.contains(&"br-bcb:payment-institution-acquirer"));
    assert!(ids.contains(&"br-bcb:vasp-authorization"));
}

#[test]
fn cvm_has_securities_licenses() {
    let types = cvm_license_types();
    let ids: Vec<&str> = types.iter().map(|t| t.license_type_id.as_str()).collect();
    assert!(ids.contains(&"br-cvm:securities-broker"));
    assert!(ids.contains(&"br-cvm:fund-manager"));
    assert!(ids.contains(&"br-cvm:securitizer"));
    assert!(ids.contains(&"br-cvm:crowdfunding-platform"));
}

#[test]
fn susep_has_insurance_licenses() {
    let types = susep_license_types();
    let ids: Vec<&str> = types.iter().map(|t| t.license_type_id.as_str()).collect();
    assert!(ids.contains(&"br-susep:insurance-company"));
    assert!(ids.contains(&"br-susep:reinsurer"));
    assert!(ids.contains(&"br-susep:insurance-broker"));
    assert!(ids.contains(&"br-susep:open-pension-fund"));
}

#[test]
fn drei_has_corporate_registrations() {
    let types = drei_license_types();
    let ids: Vec<&str> = types.iter().map(|t| t.license_type_id.as_str()).collect();
    assert!(ids.contains(&"br-drei:sa"));
    assert!(ids.contains(&"br-drei:ltda"));
    assert!(ids.contains(&"br-drei:eireli"));
    assert!(ids.contains(&"br-drei:mei"));
}

#[test]
fn brazil_all_license_types_have_unique_ids() {
    let types = brazil_license_types();
    let mut ids = std::collections::HashSet::new();
    for lt in &types {
        assert!(
            ids.insert(&lt.license_type_id),
            "duplicate license_type_id: {}",
            lt.license_type_id
        );
    }
}

#[test]
fn brazil_all_license_types_have_valid_fields() {
    for lt in brazil_license_types() {
        assert!(
            !lt.license_type_id.is_empty(),
            "empty license_type_id for {}",
            lt.name
        );
        assert!(!lt.name.is_empty(), "empty name for {}", lt.license_type_id);
        assert!(
            !lt.description.is_empty(),
            "empty description for {}",
            lt.license_type_id
        );
        assert!(
            !lt.regulator_id.is_empty(),
            "empty regulator_id for {}",
            lt.license_type_id
        );
        assert!(
            lt.category.is_some(),
            "missing category for {}",
            lt.license_type_id
        );
    }
}

#[test]
fn brazil_all_license_types_have_permitted_activities() {
    for lt in brazil_license_types() {
        assert!(
            !lt.permitted_activities.is_empty(),
            "no permitted_activities for {}",
            lt.license_type_id
        );
    }
}
