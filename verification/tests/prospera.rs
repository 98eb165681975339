use licensepack::prospera::{
    cnbs_license_types, prospera_cr_license_types, prospera_license_types, prospera_rc_license_types, prospera_regulators,
};
use licensepack::license::RequirementValue;

#[test]
fn prospera_has_three_regulators() {
    let regs = prospera_regulators();
    assert_eq!(regs.len(), 3);

    let ids: Vec<&str> = regs.iter().map(|r| r.regulator_id.as_str()).collect();
    assert!(ids.contains(&"hn-prospera-rc"), "missing Prospera RC");
    assert!(ids.contains(&"hn-prospera-cr"), "missing Prospera CR");
    assert!(ids.contains(&"hn-cnbs"), "missing CNBS");
}

#[test]
fn all_regulators_are_hn_prospera_jurisdiction() {
    for reg in prospera_regulators() {
        assert_eq!(
            reg.jurisdiction_id, "hn-prospera",
            "{} is not hn-prospera",
            reg.regulator_id
        );
    }
}

#[test]
fn prospera_license_types_cover_all_authorities() {
    let types = prospera_license_types();
    assert!(
        types.len() >= 11,
        "expected >= 11 license types, got {}",
        types.len()
    );

    let mut authority_ids: std::collections::HashSet<&str> = std::collections::HashSet::new();
    for lt in &types {
        authority_ids.insert(&lt.regulator_id);
    }
    assert!(authority_ids.contains("hn-prospera-rc"), "no Prospera RC license types");
    assert!(authority_ids.contains("hn-prospera-cr"), "no Prospera CR license types");
    assert!(authority_ids.contains("hn-cnbs"), "no CNBS license types");
}

#[test]
fn prospera_rc_has_entity_and_financial_licenses() {
    let types = prospera_rc_license_types();
    let ids: Vec<&str> = types.iter().map(|t| t.license_type_id.as_str()).collect();
    assert!(ids.contains(&"hn-prospera-rc:e-residency"));
    assert!(ids.contains(&"hn-prospera-rc:prospera-llc"));
    assert!(ids.contains(&"hn-prospera-rc:prospera-corporation"));
    assert!(ids.contains(&"hn-prospera-rc:regulated-business-insurance"));
    assert!(ids.contains(&"hn-prospera-rc:financial-services-modular"));
    assert!(ids.contains(&"hn-prospera-rc:professional-services"));
    assert!(ids.contains(&"hn-prospera-rc:arbitration-provider"));
    assert!(ids.contains(&"hn-prospera-rc:digital-asset-service-provider"));
}

#[test]
fn prospera_cr_has_resident_registrations() {
    let types = prospera_cr_license_types();
    let ids: Vec<&str> = types.iter().map(|t| t.license_type_id.as_str()).collect();
    assert!(ids.contains(&"hn-prospera-cr:physical-resident"));
    assert!(ids.contains(&"hn-prospera-cr:e-resident"));
}

#[test]
fn cnbs_has_banking_license() {
    let types = cnbs_license_types();
    let ids: Vec<&str> = types.iter().map(|t| t.license_type_id.as_str()).collect();
    assert!(ids.contains(&"hn-cnbs:banking-license"));
}

#[test]
fn insurance_based_licenses_require_liability_insurance() {
    let insurance_license_ids = [
        "hn-prospera-rc:regulated-business-insurance",
        "hn-prospera-rc:financial-services-modular",
        "hn-prospera-rc:professional-services",
        "hn-prospera-rc:arbitration-provider",
        "hn-prospera-rc:digital-asset-service-provider",
    ];

    for lt in prospera_rc_license_types() {
        if insurance_license_ids.contains(&lt.license_type_id.as_str()) {
            assert!(
                lt.requirement("regulatory_liability_insurance_required").is_some(),
                "{} should require regulatory_liability_insurance_required",
                lt.license_type_id
            );
            let val = lt.requirement("regulatory_liability_insurance_required").unwrap();
            assert_eq!(
                *val,
                RequirementValue::Flag(true),
                "{} regulatory_liability_insurance_required should be true",
                lt.license_type_id
            );
        }
    }
}

#[test]
fn financial_licenses_require_insurance_coverage_minimum() {
    let financial_ids = [
        "hn-prospera-rc:regulated-business-insurance",
        "hn-prospera-rc:financial-services-modular",
        "hn-prospera-rc:digital-asset-service-provider",
    ];

    for lt in prospera_rc_license_types() {
        if financial_ids.contains(&lt.license_type_id.as_str()) {
            assert!(
                lt.requirement("insurance_coverage_minimum_usd").is_some(),
                "{} should specify insurance_coverage_minimum_usd",
                lt.license_type_id
            );
            let min = match lt.requirement("insurance_coverage_minimum_usd") {
                Some(RequirementValue::Number(n)) => *n,
                _ => panic!("insurance_coverage_minimum_usd should be a number"),
            };
            assert!(
                min >= 100000,
                "{} insurance_coverage_minimum_usd should be >= 100000, got {}",
                lt.license_type_id,
                min
            );
        }
    }
}

#[test]
fn digital_asset_provider_has_highest_insurance_minimum() {
    let types = prospera_rc_license_types();
    let dasp = types
        .iter()
        .find(|t| t.license_type_id == "hn-prospera-rc:digital-asset-service-provider")
        .expect("missing digital-asset-service-provider");

    let min = match dasp.requirement("insurance_coverage_minimum_usd") {
        Some(RequirementValue::Number(n)) => *n,
        _ => panic!("should be a number"),
    };
    assert_eq!(min, 1000000, "digital-asset-service-provider should require $1M coverage");
}

#[test]
fn prospera_all_license_types_have_unique_ids() {
    let types = prospera_license_types();
    let mut ids = std::collections::HashSet::new();
    for lt in &types {
        assert!(
            ids.insert(&lt.license_type_id),
            "duplicate license_type_id: {}",
            lt.license_type_id
        );
    }
}

#[test]
fn prospera_all_license_types_have_valid_fields() {
    for lt in prospera_license_types() {
        assert!(
            !lt.license_type_id.is_empty(),
            "empty license_type_id for {}",
            lt.name
        );
        assert!(!lt.name.is_empty(), "empty name for {}", lt.license_type_id);
        assert!(
            !lt.description.is_empty(),
            "empty description for {}",
            lt.license_type_id
        );
        assert!(
            !lt.regulator_id.is_empty(),
            "empty regulator_id for {}",
            lt.license_type_id
        );
        assert!(
            lt.category.is_some(),
            "missing category for {}",
            lt.license_type_id
        );
    }
}

#[test]
fn prospera_all_license_types_have_permitted_activities() {
    for lt in prospera_license_types() {
        assert!(
            !lt.permitted_activities.is_empty(),
            "no permitted_activities for {}",
            lt.license_type_id
        );
    }
}

#[test]
fn e_residency_has_identity_requirement() {
    let types = prospera_rc_license_types();
    let eresidency = types
        .iter()
        .find(|t| t.license_type_id == "hn-prospera-rc:e-residency")
        .expect("missing e-residency");
    assert!(
        eresidency.requirement("identity_verification").is_some(),
        "e-residency should require identity_verification"
    );
}

#[test]
fn modular_financial_services_requires_aml() {
    let types = prospera_rc_license_types();
    let modular = types
        .iter()
        .find(|t| t.license_type_id == "hn-prospera-rc:financial-services-modular")
        .expect("missing financial-services-modular");
    assert!(
        modular.requirement("aml_cft_program_required").is_some(),
        "financial-services-modular should require AML/CFT program"
    );
}
