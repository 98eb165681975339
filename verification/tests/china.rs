use std::collections::BTreeMap;

use licensepack::china::{
    beijing_frb_license_types, china_license_types, china_regulators, csrc_license_types, hainan_ftp_license_types, hangzhou_cb_license_types, nfra_license_types, pboc_license_types, safe_license_types, shanghai_frb_license_types, shanghai_ftz_license_types, shenzhen_frb_license_types,
};

#[test]
fn china_has_ten_regulators() {
    let regs = china_regulators();
    assert_eq!(regs.len(), 10);

    let ids: Vec<&str> = regs.iter().map(|r| r.regulator_id.as_str()).collect();
    assert!(ids.contains(&"cn-pboc"), "missing PBOC");
    assert!(ids.contains(&"cn-nfra"), "missing NFRA");
    assert!(ids.contains(&"cn-csrc"), "missing CSRC");
    assert!(ids.contains(&"cn-safe"), "missing SAFE");
    assert!(ids.contains(&"cn-hainan-ftp"), "missing Hainan FTP");
    assert!(ids.contains(&"cn-hangzhou-cb"), "missing Hangzhou CB");
    assert!(ids.contains(&"cn-shenzhen-frb"), "missing Shenzhen FRB");
    assert!(ids.contains(&"cn-shanghai-ftz"), "missing Shanghai FTZ");
    assert!(ids.contains(&"cn-shanghai-frb"), "missing Shanghai FRB");
    assert!(ids.contains(&"cn-beijing-frb"), "missing Beijing FRB");
}

#[test]
fn national_regulators_have_cn_jurisdiction() {
    let national_ids = ["cn-pboc", "cn-nfra", "cn-csrc", "cn-safe"];
    for reg in china_regulators() {
        if national_ids.contains(&reg.regulator_id.as_str()) {
            assert_eq!(
                reg.jurisdiction_id, "cn",
                "{} should have jurisdiction cn",
                reg.regulator_id
            );
        }
    }
}

#[test]
fn subnational_regulators_have_correct_jurisdictions() {
    let expected: BTreeMap<&str, &str> = [
        ("cn-hainan-ftp", "cn-hainan"),
        ("cn-hangzhou-cb", "cn-hangzhou"),
        ("cn-shenzhen-frb", "cn-shenzhen"),
        ("cn-shanghai-ftz", "cn-shanghai"),
        ("cn-shanghai-frb", "cn-shanghai"),
        ("cn-beijing-frb", "cn-beijing"),
    ]
    .into_iter()
    .collect();

    for reg in china_regulators() {
        if let Some(expected_jid) = expected.get(reg.regulator_id.as_str()) {
            assert_eq!(
                reg.jurisdiction_id, *expected_jid,
                "{} should have jurisdiction {}",
                reg.regulator_id, expected_jid
            );
        }
    }
}

#[test]
fn china_license_types_cover_all_authorities() {
    let types = china_license_types();
    assert!(
        types.len() >= 28,
        "expected >= 28 license types, got {}",
        types.len()
    );

    let mut authority_ids: std::collections::HashSet<&str> = std::collections::HashSet::new();
    for lt in &types {
        authority_ids.insert(&lt.regulator_id);
    }
    assert!(authority_ids.contains("cn-pboc"), "no PBOC license types");
    assert!(authority_ids.contains("cn-nfra"), "no NFRA license types");
    assert!(authority_ids.contains("cn-csrc"), "no CSRC license types");
    assert!(authority_ids.contains("cn-safe"), "no SAFE license types");
    assert!(authority_ids.contains("cn-hainan-ftp"), "no Hainan FTP license types");
    assert!(authority_ids.contains("cn-hangzhou-cb"), "no Hangzhou CB license types");
    assert!(authority_ids.contains("cn-shenzhen-frb"), "no Shenzhen FRB license types");
    assert!(authority_ids.contains("cn-shanghai-ftz"), "no Shanghai FTZ license types");
    assert!(authority_ids.contains("cn-shanghai-frb"), "no Shanghai FRB license types");
    assert!(authority_ids.contains("cn-beijing-frb"), "no Beijing FRB license types");
}

#[test]
fn pboc_has_payment_and_credit_licenses() {
    let types = pboc_license_types();
    let ids: Vec<&str> = types.iter().map(|t| t.license_type_id.as_str()).collect();
    assert!(ids.contains(&"cn-pboc:payment-institution"));
    assert!(ids.contains(&"cn-pboc:cross-border-payment"));
    assert!(ids.contains(&"cn-pboc:credit-reporting"));
}

#[test]
fn nfra_has_banking_and_insurance_licenses() {
    let types = nfra_license_types();
    let ids: Vec<&str> = types.iter().map(|t| t.license_type_id.as_str()).collect();
    assert!(ids.contains(&"cn-nfra:commercial-bank"));
    assert!(ids.contains(&"cn-nfra:insurance-company"));
    assert!(ids.contains(&"cn-nfra:trust-company"));
    assert!(ids.contains(&"cn-nfra:consumer-finance"));
}

#[test]
fn csrc_has_securities_and_fund_licenses() {
    let types = csrc_license_types();
    let ids: Vec<&str> = types.iter().map(|t| t.license_type_id.as_str()).collect();
    assert!(ids.contains(&"cn-csrc:securities-company"));
    assert!(ids.contains(&"cn-csrc:fund-management"));
    assert!(ids.contains(&"cn-csrc:futures-company"));
    assert!(ids.contains(&"cn-csrc:investment-advisory"));
}

#[test]
fn safe_has_forex_licenses() {
    let types = safe_license_types();
    let ids: Vec<&str> = types.iter().map(|t| t.license_type_id.as_str()).collect();
    assert!(ids.contains(&"cn-safe:forex-trading"));
    assert!(ids.contains(&"cn-safe:cross-border-investment"));
}

#[test]
fn hainan_has_ftp_and_qflp_qdlp_licenses() {
    let types = hainan_ftp_license_types();
    let ids: Vec<&str> = types.iter().map(|t| t.license_type_id.as_str()).collect();
    assert!(ids.contains(&"cn-hainan-ftp:cross-border-trade"));
    assert!(ids.contains(&"cn-hainan-ftp:negative-list-sector"));
    assert!(ids.contains(&"cn-hainan-ftp:qflp"));
    assert!(ids.contains(&"cn-hainan-ftp:qdlp"));
}

#[test]
fn hangzhou_has_ecommerce_and_digital_trade() {
    let types = hangzhou_cb_license_types();
    let ids: Vec<&str> = types.iter().map(|t| t.license_type_id.as_str()).collect();
    assert!(ids.contains(&"cn-hangzhou-cb:cross-border-ecommerce"));
    assert!(ids.contains(&"cn-hangzhou-cb:digital-trade"));
}

#[test]
fn shenzhen_has_fintech_and_digital_rmb_licenses() {
    let types = shenzhen_frb_license_types();
    let ids: Vec<&str> = types.iter().map(|t| t.license_type_id.as_str()).collect();
    assert!(ids.contains(&"cn-shenzhen-frb:fintech-sandbox"));
    assert!(ids.contains(&"cn-shenzhen-frb:digital-rmb-pilot"));
    assert!(ids.contains(&"cn-shenzhen-frb:qianhai-cooperation"));
    assert!(ids.contains(&"cn-shenzhen-frb:digital-asset-pilot"));
}

#[test]
fn shanghai_ftz_has_wfoe_and_financial_innovation() {
    let types = shanghai_ftz_license_types();
    let ids: Vec<&str> = types.iter().map(|t| t.license_type_id.as_str()).collect();
    assert!(ids.contains(&"cn-shanghai-ftz:business-registration"));
    assert!(ids.contains(&"cn-shanghai-ftz:wfoe"));
    assert!(ids.contains(&"cn-shanghai-ftz:financial-innovation"));
}

#[test]
fn shanghai_frb_has_local_finance_and_fintech() {
    let types = shanghai_frb_license_types();
    let ids: Vec<&str> = types.iter().map(|t| t.license_type_id.as_str()).collect();
    assert!(ids.contains(&"cn-shanghai-frb:local-financial-org"));
    assert!(ids.contains(&"cn-shanghai-frb:fintech-pilot"));
}

#[test]
fn beijing_has_sandbox_and_digital_asset_licenses() {
    let types = beijing_frb_license_types();
    let ids: Vec<&str> = types.iter().map(|t| t.license_type_id.as_str()).collect();
    assert!(ids.contains(&"cn-beijing-frb:fintech-sandbox"));
    assert!(ids.contains(&"cn-beijing-frb:local-financial-org"));
    assert!(ids.contains(&"cn-beijing-frb:digital-asset-pilot"));
}

#[test]
fn china_all_license_types_have_unique_ids() {
    let types = china_license_types();
    let mut ids = std::collections::HashSet::new();
    for lt in &types {
        assert!(
            ids.insert(&lt.license_type_id),
            "duplicate license_type_id: {}",
            lt.license_type_id
        );
    }
}

#[test]
fn china_all_license_types_have_valid_fields() {
    for lt in china_license_types() {
        assert!(
            !lt.license_type_id.is_empty(),
            "empty license_type_id for {}",
            lt.name
        );
        assert!(!lt.name.is_empty(), "empty name for {}", lt.license_type_id);
        assert!(
            !lt.description.is_empty(),
            "empty description for {}",
            lt.license_type_id
        );
        assert!(
            !lt.regulator_id.is_empty(),
            "empty regulator_id for {}",
            lt.license_type_id
        );
        assert!(
            lt.category.is_some(),
            "missing category for {}",
            lt.license_type_id
        );
    }
}

#[test]
fn china_all_license_types_have_permitted_activities() {
    for lt in china_license_types() {
        assert!(
            !lt.permitted_activities.is_empty(),
            "no permitted_activities for {}",
            lt.license_type_id
        );
    }
}
