use licensepack::kenya::{
    cbk_license_types, cma_license_types, ira_license_types, kenya_license_types, kenya_regulators, nse_license_types,
};

#[test]
fn kenya_has_four_regulators() {
    let regs = kenya_regulators();
    assert_eq!(regs.len(), 4);

    let ids: Vec<&str> = regs.iter().map(|r| r.regulator_id.as_str()).collect();
    assert!(ids.contains(&"ke-cbk"), "missing CBK");
    assert!(ids.contains(&"ke-cma"), "missing CMA");
    assert!(ids.contains(&"ke-ira"), "missing IRA");
    assert!(ids.contains(&"ke-nse"), "missing NSE");
}

#[test]
fn all_regulators_are_kenya_jurisdiction() {
    for reg in kenya_regulators() {
        assert_eq!(reg.jurisdiction_id, "ke", "{} is not ke", reg.regulator_id);
    }
}

#[test]
fn kenya_license_types_cover_all_authorities() {
    let types = kenya_license_types();
    assert!(
        types.len() >= 20,
        "expected >= 20 license types, got {}",
        types.len()
    );

    let mut authority_ids: std::collections::HashSet<&str> = std::collections::HashSet::new();
    for lt in &types {
        authority_ids.insert(&lt.regulator_id);
    }
    assert!(authority_ids.contains("ke-cbk"), "no CBK license types");
    assert!(authority_ids.contains("ke-cma"), "no CMA license types");
    assert!(authority_ids.contains("ke-ira"), "no IRA license types");
    assert!(authority_ids.contains("ke-nse"), "no NSE license types");
}

#[test]
fn cbk_has_banking_and_payments() {
    let types = cbk_license_types();
    let ids: Vec<&str> = types.iter().map(|t| t.license_type_id.as_str()).collect();
    assert!(ids.contains(&"ke-cbk:commercial-bank"));
    assert!(ids.contains(&"ke-cbk:microfinance-bank"));
    assert!(ids.contains(&"ke-cbk:payment-service-provider"));
    assert!(ids.contains(&"ke-cbk:digital-credit-provider"));
}

#[test]
fn cma_has_securities_licenses() {
    let types = cma_license_types();
    let ids: Vec<&str> = types.iter().map(|t| t.license_type_id.as_str()).collect();
    assert!(ids.contains(&"ke-cma:stockbroker"));
    assert!(ids.contains(&"ke-cma:fund-manager"));
    assert!(ids.contains(&"ke-cma:investment-adviser"));
    assert!(ids.contains(&"ke-cma:credit-rating-agency"));
}

#[test]
fn ira_has_insurance_licenses() {
    let types = ira_license_types();
    let ids: Vec<&str> = types.iter().map(|t| t.license_type_id.as_str()).collect();
    assert!(ids.contains(&"ke-ira:general-insurer"));
    assert!(ids.contains(&"ke-ira:life-insurer"));
    assert!(ids.contains(&"ke-ira:insurance-broker"));
    assert!(ids.contains(&"ke-ira:reinsurer"));
}

#[test]
fn nse_has_listing_compliance() {
    let types = nse_license_types();
    let ids: Vec<&str> = types.iter().map(|t| t.license_type_id.as_str()).collect();
    assert!(ids.contains(&"ke-nse:listed-company"));
}

#[test]
fn kenya_all_license_types_have_unique_ids() {
    let types = kenya_license_types();
    let mut ids = std::collections::HashSet::new();
    for lt in &types {
        assert!(
            ids.insert(&lt.license_type_id),
            "duplicate license_type_id: {}",
            lt.license_type_id
        );
    }
}

#[test]
fn kenya_all_license_types_have_valid_fields() {
    for lt in kenya_license_types() {
        assert!(
            !lt.license_type_id.is_empty(),
            "empty license_type_id for {}",
            lt.name
        );
        assert!(!lt.name.is_empty(), "empty name for {}", lt.license_type_id);
        assert!(
            !lt.description.is_empty(),
            "empty description for {}",
            lt.license_type_id
        );
        assert!(
            !lt.regulator_id.is_empty(),
            "empty regulator_id for {}",
            lt.license_type_id
        );
        assert!(
            lt.category.is_some(),
            "missing category for {}",
            lt.license_type_id
        );
    }
}

#[test]
fn kenya_all_license_types_have_permitted_activities() {
    for lt in kenya_license_types() {
        assert!(
            !lt.permitted_activities.is_empty(),
            "no permitted_activities for {}",
            lt.license_type_id
        );
    }
}
