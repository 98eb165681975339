use licensepack::additional::{
    additional_license_types, additional_regulators, bdp_license_types, bi_license_types, bot_license_types, cbe_license_types, cbi_license_types, cmvm_license_types, cro_license_types, fra_license_types, fsca_license_types, ojk_license_types, sarb_license_types, zanzibar_br_license_types,
};

#[test]
fn additional_has_twelve_regulators() {
    let regs = additional_regulators();
    assert_eq!(regs.len(), 12);

    let ids: Vec<&str> = regs.iter().map(|r| r.regulator_id.as_str()).collect();
    // Portugal
    assert!(ids.contains(&"pt-bdp"), "missing BdP");
    assert!(ids.contains(&"pt-cmvm"), "missing CMVM");
    // Indonesia
    assert!(ids.contains(&"id-ojk"), "missing OJK");
    assert!(ids.contains(&"id-bi"), "missing BI");
    // South Africa
    assert!(ids.contains(&"za-sarb"), "missing SARB");
    assert!(ids.contains(&"za-fsca"), "missing FSCA");
    // Egypt
    assert!(ids.contains(&"eg-cbe"), "missing CBE");
    assert!(ids.contains(&"eg-fra"), "missing FRA");
    // Tanzania / Zanzibar
    assert!(ids.contains(&"tz-bot"), "missing BOT");
    assert!(ids.contains(&"tz-zanzibar-br"), "missing Zanzibar BR");
    // Ireland
    assert!(ids.contains(&"ie-cbi"), "missing CBI");
    assert!(ids.contains(&"ie-cro"), "missing CRO");
}

#[test]
fn regulators_have_correct_jurisdictions() {
    let regs = additional_regulators();
    for reg in &regs {
        match reg.regulator_id.as_str() {
            "pt-bdp" | "pt-cmvm" => {
                assert_eq!(reg.jurisdiction_id, "pt", "{} is not pt", reg.regulator_id);
            }
            "id-ojk" | "id-bi" => {
                assert_eq!(reg.jurisdiction_id, "id", "{} is not id", reg.regulator_id);
            }
            "za-sarb" | "za-fsca" => {
                assert_eq!(reg.jurisdiction_id, "za", "{} is not za", reg.regulator_id);
            }
            "eg-cbe" | "eg-fra" => {
                assert_eq!(reg.jurisdiction_id, "eg", "{} is not eg", reg.regulator_id);
            }
            "tz-bot" => {
                assert_eq!(reg.jurisdiction_id, "tz", "{} is not tz", reg.regulator_id);
            }
            "tz-zanzibar-br" => {
                assert_eq!(
                    reg.jurisdiction_id, "tz-zanzibar",
                    "{} is not tz-zanzibar",
                    reg.regulator_id
                );
            }
            "ie-cbi" | "ie-cro" => {
                assert_eq!(reg.jurisdiction_id, "ie", "{} is not ie", reg.regulator_id);
            }
            _ => panic!("unexpected regulator_id: {}", reg.regulator_id),
        }
    }
}

#[test]
fn additional_license_types_cover_all_authorities() {
    let types = additional_license_types();
    assert!(
        types.len() >= 62,
        "expected >= 62 license types, got {}",
        types.len()
    );

    let mut authority_ids: std::collections::HashSet<&str> = std::collections::HashSet::new();
    for lt in &types {
        authority_ids.insert(&lt.regulator_id);
    }
    assert!(authority_ids.contains("pt-bdp"), "no BdP license types");
    assert!(authority_ids.contains("pt-cmvm"), "no CMVM license types");
    assert!(authority_ids.contains("id-ojk"), "no OJK license types");
    assert!(authority_ids.contains("id-bi"), "no BI license types");
    assert!(authority_ids.contains("za-sarb"), "no SARB license types");
    assert!(authority_ids.contains("za-fsca"), "no FSCA license types");
    assert!(authority_ids.contains("eg-cbe"), "no CBE license types");
    assert!(authority_ids.contains("eg-fra"), "no FRA license types");
    assert!(authority_ids.contains("tz-bot"), "no BOT license types");
    assert!(
        authority_ids.contains("tz-zanzibar-br"),
        "no Zanzibar BR license types"
    );
    assert!(authority_ids.contains("ie-cbi"), "no CBI license types");
    assert!(authority_ids.contains("ie-cro"), "no CRO license types");
}

#[test]
fn portugal_has_banking_and_securities() {
    let bdp = bdp_license_types();
    let bdp_ids: Vec<&str> = bdp.iter().map(|t| t.license_type_id.as_str()).collect();
    assert!(bdp_ids.contains(&"pt-bdp:credit-institution"));
    assert!(bdp_ids.contains(&"pt-bdp:vasp"));

    let cmvm = cmvm_license_types();
    let cmvm_ids: Vec<&str> = cmvm.iter().map(|t| t.license_type_id.as_str()).collect();
    assert!(cmvm_ids.contains(&"pt-cmvm:investment-firm"));
    assert!(cmvm_ids.contains(&"pt-cmvm:fund-manager"));
}

#[test]
fn indonesia_has_banking_and_payments() {
    let ojk = ojk_license_types();
    let ojk_ids: Vec<&str> = ojk.iter().map(|t| t.license_type_id.as_str()).collect();
    assert!(ojk_ids.contains(&"id-ojk:commercial-bank"));
    assert!(ojk_ids.contains(&"id-ojk:fintech-lending"));

    let bi = bi_license_types();
    let bi_ids: Vec<&str> = bi.iter().map(|t| t.license_type_id.as_str()).collect();
    assert!(bi_ids.contains(&"id-bi:payment-system-provider"));
    assert!(bi_ids.contains(&"id-bi:e-money-issuer"));
}

#[test]
fn south_africa_has_banking_and_financial_services() {
    let sarb = sarb_license_types();
    let sarb_ids: Vec<&str> = sarb.iter().map(|t| t.license_type_id.as_str()).collect();
    assert!(sarb_ids.contains(&"za-sarb:banking"));
    assert!(sarb_ids.contains(&"za-sarb:casp"));

    let fsca = fsca_license_types();
    let fsca_ids: Vec<&str> = fsca.iter().map(|t| t.license_type_id.as_str()).collect();
    assert!(fsca_ids.contains(&"za-fsca:fsp"));
    assert!(fsca_ids.contains(&"za-fsca:insurance"));
}

#[test]
fn egypt_has_banking_and_non_bank() {
    let cbe = cbe_license_types();
    let cbe_ids: Vec<&str> = cbe.iter().map(|t| t.license_type_id.as_str()).collect();
    assert!(cbe_ids.contains(&"eg-cbe:commercial-bank"));
    assert!(cbe_ids.contains(&"eg-cbe:payment-service-provider"));

    let fra = fra_license_types();
    let fra_ids: Vec<&str> = fra.iter().map(|t| t.license_type_id.as_str()).collect();
    assert!(fra_ids.contains(&"eg-fra:securities-brokerage"));
    assert!(fra_ids.contains(&"eg-fra:insurance"));
}

#[test]
fn tanzania_has_banking_and_zanzibar() {
    let bot = bot_license_types();
    let bot_ids: Vec<&str> = bot.iter().map(|t| t.license_type_id.as_str()).collect();
    assert!(bot_ids.contains(&"tz-bot:commercial-bank"));
    assert!(bot_ids.contains(&"tz-bot:mobile-money"));

    let znz = zanzibar_br_license_types();
    let znz_ids: Vec<&str> = znz.iter().map(|t| t.license_type_id.as_str()).collect();
    assert!(znz_ids.contains(&"tz-zanzibar-br:business-license"));
    assert!(znz_ids.contains(&"tz-zanzibar-br:company-registration"));
}

#[test]
fn ireland_has_banking_and_corporate() {
    let cbi = cbi_license_types();
    let cbi_ids: Vec<&str> = cbi.iter().map(|t| t.license_type_id.as_str()).collect();
    assert!(cbi_ids.contains(&"ie-cbi:credit-institution"));
    assert!(cbi_ids.contains(&"ie-cbi:vasp"));
    assert!(cbi_ids.contains(&"ie-cbi:e-money-institution"));

    let cro = cro_license_types();
    let cro_ids: Vec<&str> = cro.iter().map(|t| t.license_type_id.as_str()).collect();
    assert!(cro_ids.contains(&"ie-cro:private-company-limited"));
    assert!(cro_ids.contains(&"ie-cro:icav"));
}

#[test]
fn additional_all_license_types_have_unique_ids() {
    let types = additional_license_types();
    let mut ids = std::collections::HashSet::new();
    for lt in &types {
        assert!(
            ids.insert(&lt.license_type_id),
            "duplicate license_type_id: {}",
            lt.license_type_id
        );
    }
}

#[test]
fn additional_all_license_types_have_valid_fields() {
    for lt in additional_license_types() {
        assert!(
            !lt.license_type_id.is_empty(),
            "empty license_type_id for {}",
            lt.name
        );
        assert!(!lt.name.is_empty(), "empty name for {}", lt.license_type_id);
        assert!(
            !lt.description.is_empty(),
            "empty description for {}",
            lt.license_type_id
        );
        assert!(
            !lt.regulator_id.is_empty(),
            "empty regulator_id for {}",
            lt.license_type_id
        );
        assert!(
            lt.category.is_some(),
            "missing category for {}",
            lt.license_type_id
        );
    }
}

#[test]
fn additional_all_license_types_have_permitted_activities() {
    for lt in additional_license_types() {
        assert!(
            !lt.permitted_activities.is_empty(),
            "no permitted_activities for {}",
            lt.license_type_id
        );
    }
}
