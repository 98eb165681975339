use licensepack::singapore::{
    acra_license_types, imda_license_types, mas_license_types, singapore_license_types, singapore_regulators,
};

#[test]
fn singapore_has_three_regulators() {
    let regs = singapore_regulators();
    assert_eq!(regs.len(), 3);

    let ids: Vec<&str> = regs.iter().map(|r| r.regulator_id.as_str()).collect();
    assert!(ids.contains(&"sg-mas"), "missing MAS");
    assert!(ids.contains(&"sg-acra"), "missing ACRA");
    assert!(ids.contains(&"sg-imda"), "missing IMDA");
}

#[test]
fn all_regulators_are_sg_jurisdiction() {
    for reg in singapore_regulators() {
        assert_eq!(reg.jurisdiction_id, "sg", "{} is not sg", reg.regulator_id);
    }
}

#[test]
fn singapore_license_types_cover_all_authorities() {
    let types = singapore_license_types();
    assert!(
        types.len() >= 35,
        "expected >= 35 license types, got {}",
        types.len()
    );

    let mut authority_ids: std::collections::HashSet<&str> = std::collections::HashSet::new();
    for lt in &types {
        authority_ids.insert(&lt.regulator_id);
    }
    assert!(authority_ids.contains("sg-mas"), "no MAS license types");
    assert!(authority_ids.contains("sg-acra"), "no ACRA license types");
    assert!(authority_ids.contains("sg-imda"), "no IMDA license types");
}

#[test]
fn mas_has_banking_licenses() {
    let types = mas_license_types();
    let ids: Vec<&str> = types.iter().map(|t| t.license_type_id.as_str()).collect();
    assert!(ids.contains(&"sg-mas:full-bank"));
    assert!(ids.contains(&"sg-mas:wholesale-bank"));
    assert!(ids.contains(&"sg-mas:merchant-bank"));
    assert!(ids.contains(&"sg-mas:digital-bank"));
}

#[test]
fn mas_has_insurance_licenses() {
    let types = mas_license_types();
    let ids: Vec<&str> = types.iter().map(|t| t.license_type_id.as_str()).collect();
    assert!(ids.contains(&"sg-mas:direct-insurer"));
    assert!(ids.contains(&"sg-mas:reinsurer"));
    assert!(ids.contains(&"sg-mas:insurance-broker"));
    assert!(ids.contains(&"sg-mas:lloyds-asia"));
}

#[test]
fn mas_has_cms_licenses() {
    let types = mas_license_types();
    let ids: Vec<&str> = types.iter().map(|t| t.license_type_id.as_str()).collect();
    assert!(ids.contains(&"sg-mas:cms-dealing"));
    assert!(ids.contains(&"sg-mas:cms-advising"));
    assert!(ids.contains(&"sg-mas:cms-fund-management"));
    assert!(ids.contains(&"sg-mas:cms-reit-management"));
    assert!(ids.contains(&"sg-mas:cms-credit-rating"));
    assert!(ids.contains(&"sg-mas:cms-custodial"));
}

#[test]
fn mas_has_payment_services_licenses() {
    let types = mas_license_types();
    let ids: Vec<&str> = types.iter().map(|t| t.license_type_id.as_str()).collect();
    assert!(ids.contains(&"sg-mas:sps-money-changing"));
    assert!(ids.contains(&"sg-mas:sps-cross-border-transfer"));
    assert!(ids.contains(&"sg-mas:sps-domestic-transfer"));
    assert!(ids.contains(&"sg-mas:sps-merchant-acquisition"));
    assert!(ids.contains(&"sg-mas:sps-e-money-issuance"));
    assert!(ids.contains(&"sg-mas:sps-dpt"));
    assert!(ids.contains(&"sg-mas:sps-money-lending"));
}

#[test]
fn mas_has_trust_fa_vcc_dpt() {
    let types = mas_license_types();
    let ids: Vec<&str> = types.iter().map(|t| t.license_type_id.as_str()).collect();
    assert!(ids.contains(&"sg-mas:trust-company"));
    assert!(ids.contains(&"sg-mas:financial-adviser"));
    assert!(ids.contains(&"sg-mas:vcc"));
    assert!(ids.contains(&"sg-mas:dpt-service-provider"));
}

#[test]
fn acra_has_entity_registrations() {
    let types = acra_license_types();
    let ids: Vec<&str> = types.iter().map(|t| t.license_type_id.as_str()).collect();
    assert!(ids.contains(&"sg-acra:private-limited-company"));
    assert!(ids.contains(&"sg-acra:public-company"));
    assert!(ids.contains(&"sg-acra:llp"));
    assert!(ids.contains(&"sg-acra:lp"));
    assert!(ids.contains(&"sg-acra:sole-proprietorship"));
    assert!(ids.contains(&"sg-acra:foreign-company"));
    assert!(ids.contains(&"sg-acra:registered-filing-agent"));
    assert!(ids.contains(&"sg-acra:corporate-service-provider"));
}

#[test]
fn imda_has_telecom_licenses() {
    let types = imda_license_types();
    let ids: Vec<&str> = types.iter().map(|t| t.license_type_id.as_str()).collect();
    assert!(ids.contains(&"sg-imda:facilities-based-operator"));
    assert!(ids.contains(&"sg-imda:services-based-operator"));
}

#[test]
fn singapore_all_license_types_have_unique_ids() {
    let types = singapore_license_types();
    let mut ids = std::collections::HashSet::new();
    for lt in &types {
        assert!(
            ids.insert(&lt.license_type_id),
            "duplicate license_type_id: {}",
            lt.license_type_id
        );
    }
}

#[test]
fn singapore_all_license_types_have_valid_fields() {
    for lt in singapore_license_types() {
        assert!(
            !lt.license_type_id.is_empty(),
            "empty license_type_id for {}",
            lt.name
        );
        assert!(!lt.name.is_empty(), "empty name for {}", lt.license_type_id);
        assert!(
            !lt.description.is_empty(),
            "empty description for {}",
            lt.license_type_id
        );
        assert!(
            !lt.regulator_id.is_empty(),
            "empty regulator_id for {}",
            lt.license_type_id
        );
        assert!(
            lt.category.is_some(),
            "missing category for {}",
            lt.license_type_id
        );
    }
}

#[test]
fn singapore_all_license_types_have_permitted_activities() {
    for lt in singapore_license_types() {
        assert!(
            !lt.permitted_activities.is_empty(),
            "no permitted_activities for {}",
            lt.license_type_id
        );
    }
}
