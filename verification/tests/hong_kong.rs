use licensepack::hong_kong::{
    cr_license_types, hkma_license_types, hong_kong_license_types, hong_kong_regulators, ia_license_types, mpfa_license_types, sfc_license_types,
};

#[test]
fn hong_kong_has_five_regulators() {
    let regs = hong_kong_regulators();
    assert_eq!(regs.len(), 5);

    let ids: Vec<&str> = regs.iter().map(|r| r.regulator_id.as_str()).collect();
    assert!(ids.contains(&"hk-sfc"), "missing SFC");
    assert!(ids.contains(&"hk-hkma"), "missing HKMA");
    assert!(ids.contains(&"hk-ia"), "missing IA");
    assert!(ids.contains(&"hk-mpfa"), "missing MPFA");
    assert!(ids.contains(&"hk-cr"), "missing CR");
}

#[test]
fn all_regulators_are_hk_jurisdiction() {
    for reg in hong_kong_regulators() {
        assert_eq!(reg.jurisdiction_id, "hk", "{} is not hk", reg.regulator_id);
    }
}

#[test]
fn hong_kong_license_types_cover_all_authorities() {
    let types = hong_kong_license_types();
    assert!(
        types.len() >= 26,
        "expected >= 26 license types, got {}",
        types.len()
    );

    let mut authority_ids: std::collections::HashSet<&str> = std::collections::HashSet::new();
    for lt in &types {
        authority_ids.insert(&lt.regulator_id);
    }
    assert!(authority_ids.contains("hk-sfc"), "no SFC license types");
    assert!(authority_ids.contains("hk-hkma"), "no HKMA license types");
    assert!(authority_ids.contains("hk-ia"), "no IA license types");
    assert!(authority_ids.contains("hk-mpfa"), "no MPFA license types");
    assert!(authority_ids.contains("hk-cr"), "no CR license types");
}

#[test]
fn sfc_has_types_1_through_10_and_va() {
    let types = sfc_license_types();
    let ids: Vec<&str> = types.iter().map(|t| t.license_type_id.as_str()).collect();
    assert!(ids.contains(&"hk-sfc:type-1-dealing-securities"));
    assert!(ids.contains(&"hk-sfc:type-2-dealing-futures"));
    assert!(ids.contains(&"hk-sfc:type-3-leveraged-forex"));
    assert!(ids.contains(&"hk-sfc:type-4-advising-securities"));
    assert!(ids.contains(&"hk-sfc:type-5-advising-futures"));
    assert!(ids.contains(&"hk-sfc:type-6-corporate-finance"));
    assert!(ids.contains(&"hk-sfc:type-7-automated-trading"));
    assert!(ids.contains(&"hk-sfc:type-8-securities-margin"));
    assert!(ids.contains(&"hk-sfc:type-9-asset-management"));
    assert!(ids.contains(&"hk-sfc:type-10-credit-rating"));
    assert!(ids.contains(&"hk-sfc:va-trading-platform"));
    assert_eq!(types.len(), 11, "SFC should have 11 license types");
}

#[test]
fn hkma_has_banking_svf_and_mso() {
    let types = hkma_license_types();
    let ids: Vec<&str> = types.iter().map(|t| t.license_type_id.as_str()).collect();
    assert!(ids.contains(&"hk-hkma:licensed-bank"));
    assert!(ids.contains(&"hk-hkma:restricted-license-bank"));
    assert!(ids.contains(&"hk-hkma:deposit-taking-company"));
    assert!(ids.contains(&"hk-hkma:svf"));
    assert!(ids.contains(&"hk-hkma:mso"));
}

#[test]
fn ia_has_insurer_and_intermediary_licenses() {
    let types = ia_license_types();
    let ids: Vec<&str> = types.iter().map(|t| t.license_type_id.as_str()).collect();
    assert!(ids.contains(&"hk-ia:insurer-long-term"));
    assert!(ids.contains(&"hk-ia:insurer-general"));
    assert!(ids.contains(&"hk-ia:insurer-composite"));
    assert!(ids.contains(&"hk-ia:insurance-broker"));
    assert!(ids.contains(&"hk-ia:insurance-agent"));
}

#[test]
fn mpfa_has_trustee_license() {
    let types = mpfa_license_types();
    let ids: Vec<&str> = types.iter().map(|t| t.license_type_id.as_str()).collect();
    assert!(ids.contains(&"hk-mpfa:mpf-trustee"));
}

#[test]
fn cr_has_company_and_tcsp_licenses() {
    let types = cr_license_types();
    let ids: Vec<&str> = types.iter().map(|t| t.license_type_id.as_str()).collect();
    assert!(ids.contains(&"hk-cr:private-limited-company"));
    assert!(ids.contains(&"hk-cr:public-company"));
    assert!(ids.contains(&"hk-cr:non-hk-company"));
    assert!(ids.contains(&"hk-cr:tcsp"));
}

#[test]
fn hong_kong_all_license_types_have_unique_ids() {
    let types = hong_kong_license_types();
    let mut ids = std::collections::HashSet::new();
    for lt in &types {
        assert!(
            ids.insert(&lt.license_type_id),
            "duplicate license_type_id: {}",
            lt.license_type_id
        );
    }
}

#[test]
fn hong_kong_all_license_types_have_valid_fields() {
    for lt in hong_kong_license_types() {
        assert!(
            !lt.license_type_id.is_empty(),
            "empty license_type_id for {}",
            lt.name
        );
        assert!(!lt.name.is_empty(), "empty name for {}", lt.license_type_id);
        assert!(
            !lt.description.is_empty(),
            "empty description for {}",
            lt.license_type_id
        );
        assert!(
            !lt.regulator_id.is_empty(),
            "empty regulator_id for {}",
            lt.license_type_id
        );
        assert!(
            lt.category.is_some(),
            "missing category for {}",
            lt.license_type_id
        );
    }
}

#[test]
fn hong_kong_all_license_types_have_permitted_activities() {
    for lt in hong_kong_license_types() {
        assert!(
            !lt.permitted_activities.is_empty(),
            "no permitted_activities for {}",
            lt.license_type_id
        );
    }
}
