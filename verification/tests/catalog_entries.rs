use licensepack::brazil::bcb_regulator;
use licensepack::prospera::prospera_rc_license_types;
use licensepack::uae::{ded_license_types, ded_regulators, federal_license_types, federal_regulators, uae_regulators};
use licensepack::united_states::{al_license_types, al_regulators, us_license_types, us_regulators};
use licensepack::license::{license_type, RequirementValue};

#[test]
fn bcb_regulator_profile() {
    let r = bcb_regulator();
    assert_eq!(r.regulator_id, "br-bcb");
    assert_eq!(r.name, "Banco Central do Brasil");
    assert_eq!(r.jurisdiction_id, "br");
    assert_eq!(r.registry_url.as_deref(), Some("https://www.bcb.gov.br"));
    assert!(r.did.is_none());
    assert_eq!(r.api_capabilities, vec!["institution_registry".to_string(), "pix_integration".to_string()]);
}

#[test]
fn state_helpers_build_identifiers_from_jurisdiction() {
    let regs = al_regulators();
    let ids: Vec<&str> = regs.iter().map(|r| r.regulator_id.as_str()).collect();
    assert_eq!(ids, vec!["us-al-sos", "us-al-bank", "us-al-ins", "us-al-sec"]);
    assert_eq!(regs[0].registry_url.as_deref(), Some("https://www.sos.alabama.gov"));
    assert!(regs[2].registry_url.is_none());
    let types = al_license_types();
    assert_eq!(types.len(), 6);
    assert_eq!(types[0].license_type_id, "us-al-sos:corp-registration");
    assert_eq!(types[0].description, "Registration of a corporation in Alabama");
    assert_eq!(types[2].regulator_id, "us-al-bank");
    assert_eq!(types[2].application_fee.len(), 1);
    assert_eq!(types[2].application_fee.get("USD"), Some(&"500".to_string()));
    assert_eq!(types[3].validity_period_years, Some(2));
}

#[test]
fn us_catalog_sizes() {
    assert_eq!(us_regulators().len(), 224);
    let types = us_license_types();
    assert!(types.iter().all(|t| t.license_type_id.starts_with("us-")));
}

#[test]
fn uae_fees_are_single_currency_entries() {
    let types = federal_license_types();
    assert!(types[0].application_fee.is_empty());
    assert_eq!(types[2].application_fee.len(), 1);
    assert_eq!(types[2].application_fee.get("AED"), Some(&"50000".to_string()));
    assert_eq!(types[2].annual_fee.len(), 1);
    assert_eq!(types[2].annual_fee.key_at(0), "AED");
    assert_eq!(types[2].annual_fee.value_at(0), "25000");
    assert_eq!(types[2].validity_period_years, Some(1));
    assert_eq!(federal_regulators().len(), 3);
}

#[test]
fn prospera_requirements_are_in_name_order() {
    let types = prospera_rc_license_types();
    let e = &types[0];
    let names: Vec<&str> = (0..e.requirements.len()).map(|i| e.requirements.key_at(i).as_str()).collect();
    assert_eq!(names, vec!["identity_verification", "minimum_age"]);
    assert_eq!(e.requirement("minimum_age"), Some(&RequirementValue::Number(18)));
    assert_eq!(e.requirement("identity_verification"), Some(&RequirementValue::Flag(true)));
    assert_eq!(e.requirement("absent"), None);
}

#[test]
fn uae_covers_dubai_mainland_ded() {
    let regs = uae_regulators();
    let ded: Vec<_> = regs.iter().filter(|r| r.jurisdiction_id == "ae-dubai").collect();
    assert_eq!(ded.len(), 1);
    assert_eq!(ded[0].regulator_id, "ae-dubai-ded");
    assert_eq!(ded_regulators().len(), 1);
    let types = ded_license_types();
    assert_eq!(types.len(), 3);
    assert!(types.iter().all(|t| t.regulator_id == "ae-dubai-ded"
        && t.license_type_id.starts_with("ae-dubai-ded:")));
    assert_eq!(regs.len(), 20);
}

#[test]
fn license_type_ids_start_with_their_regulator() {
    let all = [
        licensepack::additional::additional_license_types(),
        licensepack::brazil::brazil_license_types(),
        licensepack::bvi::bvi_license_types(),
        licensepack::cayman::cayman_license_types(),
        licensepack::china::china_license_types(),
        licensepack::hong_kong::hong_kong_license_types(),
        licensepack::kazakhstan::kazakhstan_license_types(),
        licensepack::kenya::kenya_license_types(),
        licensepack::pakistan::pakistan_license_types(),
        licensepack::prospera::prospera_license_types(),
        licensepack::qatar::qatar_license_types(),
        licensepack::seychelles::seychelles_license_types(),
        licensepack::singapore::singapore_license_types(),
        licensepack::uae::uae_license_types(),
        us_license_types(),
    ];
    for types in all {
        for t in types {
            assert!(t.license_type_id.starts_with(&format!("{}:", t.regulator_id)), "{}", t.license_type_id);
        }
    }
    assert_eq!(us_license_types().len(), 342);
}

#[test]
fn requirement_values_of_every_json_kind_are_kept() {
    let t = license_type(
        "x-reg:kind",
        "Kind",
        "Licence with requirements of each kind",
        "x-reg",
        Some("trade"),
        &["trading"],
        &[
            ("a_flag", RequirementValue::Flag(false)),
            ("b_count", RequirementValue::Number(7)),
            ("c_offset", RequirementValue::Integer(-3)),
            ("d_text", RequirementValue::Text("annual".to_string())),
            ("e_ratio", RequirementValue::Json(serde_json::Value::from(1.5f64))),
        ],
        &[],
        &[],
        None,
    );
    assert_eq!(t.requirements.len(), 5);
    assert_eq!(t.requirement("a_flag"), Some(&RequirementValue::Flag(false)));
    assert_eq!(t.requirement("c_offset"), Some(&RequirementValue::Integer(-3)));
    assert_eq!(t.requirement("d_text"), Some(&RequirementValue::Text("annual".to_string())));
    assert_eq!(
        t.requirement("e_ratio"),
        Some(&RequirementValue::Json(serde_json::Value::from(1.5f64)))
    );
    assert_eq!(t.requirement("z_absent"), None);
}
