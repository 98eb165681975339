use licensepack::qatar::{
    qatar_license_types, qatar_regulators, qcb_license_types, qfc_auth_license_types, qfcra_license_types, qfma_license_types,
};

#[test]
fn qatar_has_four_regulators() {
    let regs = qatar_regulators();
    assert_eq!(regs.len(), 4);

    let ids: Vec<&str> = regs.iter().map(|r| r.regulator_id.as_str()).collect();
    assert!(ids.contains(&"qa-qcb"), "missing QCB");
    assert!(ids.contains(&"qa-qfma"), "missing QFMA");
    assert!(ids.contains(&"qa-qfc-ra"), "missing QFCRA");
    assert!(ids.contains(&"qa-qfc-auth"), "missing QFC Authority");
}

#[test]
fn qatar_onshore_regulators_have_qa_jurisdiction() {
    let regs = qatar_regulators();
    for reg in &regs {
        match reg.regulator_id.as_str() {
            "qa-qcb" | "qa-qfma" => {
                assert_eq!(reg.jurisdiction_id, "qa", "{} is not qa", reg.regulator_id);
            }
            "qa-qfc-ra" | "qa-qfc-auth" => {
                assert_eq!(
                    reg.jurisdiction_id, "qa-qfc",
                    "{} is not qa-qfc",
                    reg.regulator_id
                );
            }
            _ => panic!("unexpected regulator_id: {}", reg.regulator_id),
        }
    }
}

#[test]
fn qatar_license_types_cover_all_authorities() {
    let types = qatar_license_types();
    assert!(
        types.len() >= 32,
        "expected >= 32 license types, got {}",
        types.len()
    );

    let mut authority_ids: std::collections::HashSet<&str> = std::collections::HashSet::new();
    for lt in &types {
        authority_ids.insert(&lt.regulator_id);
    }
    assert!(authority_ids.contains("qa-qcb"), "no QCB license types");
    assert!(authority_ids.contains("qa-qfma"), "no QFMA license types");
    assert!(
        authority_ids.contains("qa-qfc-ra"),
        "no QFCRA license types"
    );
    assert!(
        authority_ids.contains("qa-qfc-auth"),
        "no QFC Authority license types"
    );
}

#[test]
fn qcb_has_banking_and_insurance() {
    let types = qcb_license_types();
    let ids: Vec<&str> = types.iter().map(|t| t.license_type_id.as_str()).collect();
    assert!(ids.contains(&"qa-qcb:commercial-bank"));
    assert!(ids.contains(&"qa-qcb:islamic-bank"));
    assert!(ids.contains(&"qa-qcb:insurer"));
    assert!(ids.contains(&"qa-qcb:payment-service-provider"));
    assert!(ids.contains(&"qa-qcb:money-exchange"));
}

#[test]
fn qfma_has_securities_licenses() {
    let types = qfma_license_types();
    let ids: Vec<&str> = types.iter().map(|t| t.license_type_id.as_str()).collect();
    assert!(ids.contains(&"qa-qfma:securities-broker"));
    assert!(ids.contains(&"qa-qfma:investment-manager"));
    assert!(ids.contains(&"qa-qfma:custodian"));
}

#[test]
fn qfcra_has_financial_centre_licenses() {
    let types = qfcra_license_types();
    let ids: Vec<&str> = types.iter().map(|t| t.license_type_id.as_str()).collect();
    assert!(ids.contains(&"qa-qfc-ra:banking-business"));
    assert!(ids.contains(&"qa-qfc-ra:insurance-general"));
    assert!(ids.contains(&"qa-qfc-ra:investment-management"));
    assert!(ids.contains(&"qa-qfc-ra:digital-asset-services"));
    assert!(ids.contains(&"qa-qfc-ra:trust-services"));
}

#[test]
fn qfc_auth_has_entity_registrations() {
    let types = qfc_auth_license_types();
    let ids: Vec<&str> = types.iter().map(|t| t.license_type_id.as_str()).collect();
    assert!(ids.contains(&"qa-qfc-auth:qfc-company"));
    assert!(ids.contains(&"qa-qfc-auth:qfc-llc"));
    assert!(ids.contains(&"qa-qfc-auth:qfc-branch"));
    assert!(ids.contains(&"qa-qfc-auth:qfc-spv"));
    assert!(ids.contains(&"qa-qfc-auth:qfc-foundation"));
}

#[test]
fn qatar_all_license_types_have_unique_ids() {
    let types = qatar_license_types();
    let mut ids = std::collections::HashSet::new();
    for lt in &types {
        assert!(
            ids.insert(&lt.license_type_id),
            "duplicate license_type_id: {}",
            lt.license_type_id
        );
    }
}

#[test]
fn qatar_all_license_types_have_valid_fields() {
    for lt in qatar_license_types() {
        assert!(
            !lt.license_type_id.is_empty(),
            "empty license_type_id for {}",
            lt.name
        );
        assert!(!lt.name.is_empty(), "empty name for {}", lt.license_type_id);
        assert!(
            !lt.description.is_empty(),
            "empty description for {}",
            lt.license_type_id
        );
        assert!(
            !lt.regulator_id.is_empty(),
            "empty regulator_id for {}",
            lt.license_type_id
        );
        assert!(
            lt.category.is_some(),
            "missing category for {}",
            lt.license_type_id
        );
    }
}

#[test]
fn qatar_all_license_types_have_permitted_activities() {
    for lt in qatar_license_types() {
        assert!(
            !lt.permitted_activities.is_empty(),
            "no permitted_activities for {}",
            lt.license_type_id
        );
    }
}
