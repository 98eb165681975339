use licensepack::kazakhstan::{
    afsa_license_types, aifc_registrar_license_types, alatau_admin_license_types, ardfm_license_types, kazakhstan_license_types, kazakhstan_regulators,
};

#[test]
fn kazakhstan_has_five_regulators() {
    let regs = kazakhstan_regulators();
    assert_eq!(regs.len(), 5);

    let ids: Vec<&str> = regs.iter().map(|r| r.regulator_id.as_str()).collect();
    assert!(ids.contains(&"kz-ardfm"), "missing ARDFM");
    assert!(ids.contains(&"kz-nb"), "missing NB RK");
    assert!(ids.contains(&"kz-aifc-afsa"), "missing AFSA");
    assert!(ids.contains(&"kz-aifc-rc"), "missing AIFC Registrar");
    assert!(ids.contains(&"kz-alatau-admin"), "missing Alatau City Admin");
}

#[test]
fn kazakhstan_regulators_have_correct_jurisdictions() {
    let regs = kazakhstan_regulators();
    for reg in &regs {
        match reg.regulator_id.as_str() {
            "kz-ardfm" | "kz-nb" => {
                assert_eq!(reg.jurisdiction_id, "kz", "{} is not kz", reg.regulator_id);
            }
            "kz-aifc-afsa" | "kz-aifc-rc" => {
                assert_eq!(
                    reg.jurisdiction_id, "kz-aifc",
                    "{} is not kz-aifc",
                    reg.regulator_id
                );
            }
            "kz-alatau-admin" => {
                assert_eq!(
                    reg.jurisdiction_id, "kz-alatau",
                    "{} is not kz-alatau",
                    reg.regulator_id
                );
            }
            _ => panic!("unexpected regulator_id: {}", reg.regulator_id),
        }
    }
}

#[test]
fn kazakhstan_license_types_cover_all_authorities() {
    let types = kazakhstan_license_types();
    assert!(
        types.len() >= 33,
        "expected >= 33 license types, got {}",
        types.len()
    );

    let mut authority_ids: std::collections::HashSet<&str> = std::collections::HashSet::new();
    for lt in &types {
        authority_ids.insert(&lt.regulator_id);
    }
    assert!(authority_ids.contains("kz-ardfm"), "no ARDFM license types");
    assert!(authority_ids.contains("kz-nb"), "no NB RK license types");
    assert!(
        authority_ids.contains("kz-aifc-afsa"),
        "no AFSA license types"
    );
    assert!(
        authority_ids.contains("kz-aifc-rc"),
        "no AIFC Registrar license types"
    );
    assert!(
        authority_ids.contains("kz-alatau-admin"),
        "no Alatau City license types"
    );
}

#[test]
fn ardfm_has_financial_licenses() {
    let types = ardfm_license_types();
    let ids: Vec<&str> = types.iter().map(|t| t.license_type_id.as_str()).collect();
    assert!(ids.contains(&"kz-ardfm:banking"));
    assert!(ids.contains(&"kz-ardfm:insurance"));
    assert!(ids.contains(&"kz-ardfm:securities"));
    assert!(ids.contains(&"kz-ardfm:microfinance"));
    assert!(ids.contains(&"kz-ardfm:payment"));
}

#[test]
fn afsa_has_aifc_licenses() {
    let types = afsa_license_types();
    let ids: Vec<&str> = types.iter().map(|t| t.license_type_id.as_str()).collect();
    assert!(ids.contains(&"kz-aifc-afsa:banking-business"));
    assert!(ids.contains(&"kz-aifc-afsa:digital-asset-trading-facility"));
    assert!(ids.contains(&"kz-aifc-afsa:crowdfunding-investment"));
    assert!(ids.contains(&"kz-aifc-afsa:e-money"));
    assert!(ids.contains(&"kz-aifc-afsa:insurance-broker"));
}

#[test]
fn aifc_registrar_has_entity_registrations() {
    let types = aifc_registrar_license_types();
    let ids: Vec<&str> = types.iter().map(|t| t.license_type_id.as_str()).collect();
    assert!(ids.contains(&"kz-aifc-rc:aifc-company"));
    assert!(ids.contains(&"kz-aifc-rc:aifc-partnership"));
    assert!(ids.contains(&"kz-aifc-rc:aifc-foundation"));
    assert!(ids.contains(&"kz-aifc-rc:aifc-spv"));
    assert!(ids.contains(&"kz-aifc-rc:foreign-company"));
}

#[test]
fn alatau_has_technology_licenses() {
    let types = alatau_admin_license_types();
    let ids: Vec<&str> = types.iter().map(|t| t.license_type_id.as_str()).collect();
    assert!(ids.contains(&"kz-alatau-admin:tech-park-participant"));
    assert!(ids.contains(&"kz-alatau-admin:innovation-license"));
    assert!(ids.contains(&"kz-alatau-admin:it-services"));
}

#[test]
fn kazakhstan_all_license_types_have_unique_ids() {
    let types = kazakhstan_license_types();
    let mut ids = std::collections::HashSet::new();
    for lt in &types {
        assert!(
            ids.insert(&lt.license_type_id),
            "duplicate license_type_id: {}",
            lt.license_type_id
        );
    }
}

#[test]
fn kazakhstan_all_license_types_have_valid_fields() {
    for lt in kazakhstan_license_types() {
        assert!(
            !lt.license_type_id.is_empty(),
            "empty license_type_id for {}",
            lt.name
        );
        assert!(!lt.name.is_empty(), "empty name for {}", lt.license_type_id);
        assert!(
            !lt.description.is_empty(),
            "empty description for {}",
            lt.license_type_id
        );
        assert!(
            !lt.regulator_id.is_empty(),
            "empty regulator_id for {}",
            lt.license_type_id
        );
        assert!(
            lt.category.is_some(),
            "missing category for {}",
            lt.license_type_id
        );
    }
}

#[test]
fn kazakhstan_all_license_types_have_permitted_activities() {
    for lt in kazakhstan_license_types() {
        assert!(
            !lt.permitted_activities.is_empty(),
            "no permitted_activities for {}",
            lt.license_type_id
        );
    }
}
