use licensepack::pakistan::{
    drap_license_types, pakistan_license_types, pakistan_regulators, pemra_license_types, pta_license_types, sbp_license_types, secp_license_types,
};

#[test]
fn pakistan_has_five_regulators() {
    let regs = pakistan_regulators();
    assert_eq!(regs.len(), 5);

    let ids: Vec<&str> = regs.iter().map(|r| r.regulator_id.as_str()).collect();
    assert!(ids.contains(&"pk-secp"), "missing SECP");
    assert!(ids.contains(&"pk-sbp"), "missing SBP");
    assert!(ids.contains(&"pk-pta"), "missing PTA");
    assert!(ids.contains(&"pk-pemra"), "missing PEMRA");
    assert!(ids.contains(&"pk-drap"), "missing DRAP");
}

#[test]
fn all_regulators_are_pakistan_jurisdiction() {
    for reg in pakistan_regulators() {
        assert_eq!(reg.jurisdiction_id, "pk", "{} is not pk", reg.regulator_id);
    }
}

#[test]
fn pakistan_license_types_cover_all_authorities() {
    let types = pakistan_license_types();
    assert!(
        types.len() >= 17,
        "expected >= 17 license types, got {}",
        types.len()
    );

    // Verify each authority has at least one license type.
    let mut authority_ids: std::collections::HashSet<&str> = std::collections::HashSet::new();
    for lt in &types {
        authority_ids.insert(&lt.regulator_id);
    }
    assert!(authority_ids.contains("pk-secp"), "no SECP license types");
    assert!(authority_ids.contains("pk-sbp"), "no SBP license types");
    assert!(authority_ids.contains("pk-pta"), "no PTA license types");
    assert!(authority_ids.contains("pk-pemra"), "no PEMRA license types");
    assert!(authority_ids.contains("pk-drap"), "no DRAP license types");
}

#[test]
fn secp_has_company_registration_and_broker() {
    let types = secp_license_types();
    let ids: Vec<&str> = types.iter().map(|t| t.license_type_id.as_str()).collect();
    assert!(ids.contains(&"pk-secp:company-registration"));
    assert!(ids.contains(&"pk-secp:securities-broker"));
    assert!(ids.contains(&"pk-secp:nbfc"));
    assert!(ids.contains(&"pk-secp:insurance"));
}

#[test]
fn sbp_has_banking_and_emi() {
    let types = sbp_license_types();
    let ids: Vec<&str> = types.iter().map(|t| t.license_type_id.as_str()).collect();
    assert!(ids.contains(&"pk-sbp:commercial-bank"));
    assert!(ids.contains(&"pk-sbp:microfinance-bank"));
    assert!(ids.contains(&"pk-sbp:emi"));
    assert!(ids.contains(&"pk-sbp:exchange-company"));
}

#[test]
fn pta_has_telecom_licenses() {
    let types = pta_license_types();
    let ids: Vec<&str> = types.iter().map(|t| t.license_type_id.as_str()).collect();
    assert!(ids.contains(&"pk-pta:cmto"));
    assert!(ids.contains(&"pk-pta:isp"));
    assert!(ids.contains(&"pk-pta:llo"));
}

#[test]
fn pemra_has_media_licenses() {
    let types = pemra_license_types();
    let ids: Vec<&str> = types.iter().map(|t| t.license_type_id.as_str()).collect();
    assert!(ids.contains(&"pk-pemra:satellite-tv"));
    assert!(ids.contains(&"pk-pemra:fm-radio"));
    assert!(ids.contains(&"pk-pemra:cable-tv"));
}

#[test]
fn drap_has_pharmaceutical_licenses() {
    let types = drap_license_types();
    let ids: Vec<&str> = types.iter().map(|t| t.license_type_id.as_str()).collect();
    assert!(ids.contains(&"pk-drap:drug-manufacturing"));
    assert!(ids.contains(&"pk-drap:drug-import"));
    assert!(ids.contains(&"pk-drap:medical-device"));
}

#[test]
fn pakistan_all_license_types_have_unique_ids() {
    let types = pakistan_license_types();
    let mut ids = std::collections::HashSet::new();
    for lt in &types {
        assert!(
            ids.insert(&lt.license_type_id),
            "duplicate license_type_id: {}",
            lt.license_type_id
        );
    }
}

#[test]
fn pakistan_all_license_types_have_valid_fields() {
    for lt in pakistan_license_types() {
        assert!(
            !lt.license_type_id.is_empty(),
            "empty license_type_id for {}",
            lt.name
        );
        assert!(!lt.name.is_empty(), "empty name for {}", lt.license_type_id);
        assert!(
            !lt.description.is_empty(),
            "empty description for {}",
            lt.license_type_id
        );
        assert!(
            !lt.regulator_id.is_empty(),
            "empty regulator_id for {}",
            lt.license_type_id
        );
        assert!(
            lt.category.is_some(),
            "missing category for {}",
            lt.license_type_id
        );
    }
}

#[test]
fn pakistan_all_license_types_have_permitted_activities() {
    for lt in pakistan_license_types() {
        assert!(
            !lt.permitted_activities.is_empty(),
            "no permitted_activities for {}",
            lt.license_type_id
        );
    }
}
