//! # China Regulatory Authority License Mappings
//!
//! China-specific license type definitions covering national and sub-national
//! regulatory authorities across key economic zones:
//!
//! ## National Level (jurisdiction: `cn`)
//!
//! | Authority | Full Name | Domain |
//! |-----------|-----------|--------|
//! | **PBOC** | People's Bank of China | Banking, Payment Services |
//! | **NFRA** | National Financial Regulatory Administration | Banking Supervision, Insurance |
//! | **CSRC** | China Securities Regulatory Commission | Securities, Funds, Futures |
//! | **SAFE** | State Administration of Foreign Exchange | Forex |
//!
//! ## Sub-National Zones
//!
//! | Zone | Jurisdiction ID | Key Authority |
//! |------|-----------------|---------------|
//! | Hainan Free Trade Port | `cn-hainan` | Hainan FTP Administration |
//! | Hangzhou | `cn-hangzhou` | Hangzhou Commerce Bureau |
//! | Shenzhen EZ | `cn-shenzhen` | Shenzhen Financial Regulatory Bureau |
//! | Shanghai | `cn-shanghai` | Shanghai FTZ Administration, Shanghai Financial Regulatory Bureau |
//! | Beijing | `cn-beijing` | Beijing Financial Regulatory Bureau |
//!
//! Each authority is represented as a [`LicensepackRegulator`] with its
//! associated [`LicenseTypeDefinition`] entries.

use vstd::prelude::*;

use crate::license::{
    license_type, license_type_view, license_types_view, regulator, regulator_view,
    regulators_view, LicenseTypeDefinition, LicenseTypeView, LicensepackRegulator,
    RegulatorView, RequirementValue,
    lemma_license_types_view_append, lemma_regulators_view_append,
};

use crate::catalog::{
    apart_each, id_fresh_each, ids_distinct_each, lemma_apart_each, lemma_ids_apart_append, lemma_ids_distinct_append, lemma_ids_distinct_each, license_type_ids_apart, license_type_ids_distinct, complete_each, every_regulator_grants, granted_by_each, granted_by_listed_regulators, grants_each, grants_some, has_prefix, in_country_each, lemma_complete_append, lemma_complete_each, lemma_every_combine, lemma_granted_by_each, lemma_granted_combine, lemma_grants_each, lemma_in_country_append, lemma_in_country_each, license_types_complete, regulators_in_country,
};

use crate::catalog::{
    lemma_prefixed_append, lemma_prefixed_each, license_type_id_prefixed, license_type_ids_prefixed,
    prefixed_each,
};

verus! {

/// The view of `pboc_regulator`.
pub open spec fn spec_pboc_regulator() -> RegulatorView {
    regulator_view(
        "cn-pboc"@,
        "People's Bank of China"@,
        "cn"@,
        Some("http://www.pbc.gov.cn"@),
        seq!["institution_query"@, "payment_license_registry"@],
    )
}

/// PBOC regulator profile.
pub fn pboc_regulator() -> (r: LicensepackRegulator)
    ensures
        r@ == spec_pboc_regulator(),
        r@ == regulator_view(
            "cn-pboc"@,
            "People's Bank of China"@,
            "cn"@,
            Some("http://www.pbc.gov.cn"@),
            seq!["institution_query"@, "payment_license_registry"@],
        ),
{
    let r =
        regulator(
            "cn-pboc",
            "People's Bank of China",
            "cn",
            Some("http://www.pbc.gov.cn"),
            &["institution_query", "payment_license_registry"],
        );
    proof {
        assert(r@ =~~= spec_pboc_regulator());
    }
    r
}

/// The view of `pboc_license_types`.
pub open spec fn spec_pboc_license_types() -> Seq<LicenseTypeView> {
    seq![
        license_type_view(
            "cn-pboc:payment-institution"@,
            "Payment Institution License"@,
            "License to operate non-bank payment services under PBOC regulations"@,
            "cn-pboc"@,
            Some("financial"@),
            seq!["internet_payment"@, "mobile_payment"@, "prepaid_card_issuance"@, "bank_card_acquiring"@],
            seq![],
            seq![],
            seq![],
            Some(5i32),
        ),
        license_type_view(
            "cn-pboc:cross-border-payment"@,
            "Cross-Border Payment License"@,
            "License for cross-border RMB payment and settlement services"@,
            "cn-pboc"@,
            Some("financial"@),
            seq!["cross_border_rmb_settlement"@, "trade_finance_payment"@],
            seq![],
            seq![],
            seq![],
            Some(5i32),
        ),
        license_type_view(
            "cn-pboc:credit-reporting"@,
            "Credit Reporting License"@,
            "License to operate credit reporting services under PBOC oversight"@,
            "cn-pboc"@,
            Some("financial"@),
            seq!["personal_credit_reporting"@, "enterprise_credit_reporting"@],
            seq![],
            seq![],
            seq![],
            Some(3i32),
        )
    ]
}

/// PBOC license type definitions.
pub fn pboc_license_types() -> (r: Vec<LicenseTypeDefinition>)
    ensures
        license_types_view(r@) == spec_pboc_license_types(),
        license_types_view(r@) == seq![
            license_type_view(
                "cn-pboc:payment-institution"@,
                "Payment Institution License"@,
                "License to operate non-bank payment services under PBOC regulations"@,
                "cn-pboc"@,
                Some("financial"@),
                seq!["internet_payment"@, "mobile_payment"@, "prepaid_card_issuance"@, "bank_card_acquiring"@],
                seq![],
                seq![],
                seq![],
                Some(5i32),
            ),
            license_type_view(
                "cn-pboc:cross-border-payment"@,
                "Cross-Border Payment License"@,
                "License for cross-border RMB payment and settlement services"@,
                "cn-pboc"@,
                Some("financial"@),
                seq!["cross_border_rmb_settlement"@, "trade_finance_payment"@],
                seq![],
                seq![],
                seq![],
                Some(5i32),
            ),
            license_type_view(
                "cn-pboc:credit-reporting"@,
                "Credit Reporting License"@,
                "License to operate credit reporting services under PBOC oversight"@,
                "cn-pboc"@,
                Some("financial"@),
                seq!["personal_credit_reporting"@, "enterprise_credit_reporting"@],
                seq![],
                seq![],
                seq![],
                Some(3i32),
            )
        ],
{
    let r = vec![
        license_type(
            "cn-pboc:payment-institution",
            "Payment Institution License",
            "License to operate non-bank payment services under PBOC regulations",
            "cn-pboc",
            Some("financial"),
            &["internet_payment", "mobile_payment", "prepaid_card_issuance", "bank_card_acquiring"],
            &[],
            &[],
            &[],
            Some(5i32),
        ),
        license_type(
            "cn-pboc:cross-border-payment",
            "Cross-Border Payment License",
            "License for cross-border RMB payment and settlement services",
            "cn-pboc",
            Some("financial"),
            &["cross_border_rmb_settlement", "trade_finance_payment"],
            &[],
            &[],
            &[],
            Some(5i32),
        ),
        license_type(
            "cn-pboc:credit-reporting",
            "Credit Reporting License",
            "License to operate credit reporting services under PBOC oversight",
            "cn-pboc",
            Some("financial"),
            &["personal_credit_reporting", "enterprise_credit_reporting"],
            &[],
            &[],
            &[],
            Some(3i32),
        )
    ];
    proof {
        assert(license_types_view(r@) =~~= spec_pboc_license_types());
    }
    r
}

/// The view of `nfra_regulator`.
pub open spec fn spec_nfra_regulator() -> RegulatorView {
    regulator_view(
        "cn-nfra"@,
        "National Financial Regulatory Administration"@,
        "cn"@,
        Some("https://www.nfra.gov.cn"@),
        seq!["bank_registry"@, "insurance_registry"@],
    )
}

/// NFRA regulator profile (formerly CBIRC).
pub fn nfra_regulator() -> (r: LicensepackRegulator)
    ensures
        r@ == spec_nfra_regulator(),
        r@ == regulator_view(
            "cn-nfra"@,
            "National Financial Regulatory Administration"@,
            "cn"@,
            Some("https://www.nfra.gov.cn"@),
            seq!["bank_registry"@, "insurance_registry"@],
        ),
{
    let r =
        regulator(
            "cn-nfra",
            "National Financial Regulatory Administration",
            "cn",
            Some("https://www.nfra.gov.cn"),
            &["bank_registry", "insurance_registry"],
        );
    proof {
        assert(r@ =~~= spec_nfra_regulator());
    }
    r
}

/// The view of `nfra_license_types`.
pub open spec fn spec_nfra_license_types() -> Seq<LicenseTypeView> {
    seq![
        license_type_view(
            "cn-nfra:commercial-bank"@,
            "Commercial Banking License"@,
            "License to operate as a commercial bank under NFRA supervision"@,
            "cn-nfra"@,
            Some("financial"@),
            seq!["deposit_taking"@, "lending"@, "settlement"@, "trade_finance"@],
            seq![],
            seq![],
            seq![],
            None,
        ),
        license_type_view(
            "cn-nfra:insurance-company"@,
            "Insurance Company License"@,
            "License to operate an insurance company in China"@,
            "cn-nfra"@,
            Some("insurance"@),
            seq!["life_insurance"@, "property_insurance"@, "reinsurance"@, "health_insurance"@],
            seq![],
            seq![],
            seq![],
            None,
        ),
        license_type_view(
            "cn-nfra:trust-company"@,
            "Trust Company License"@,
            "License to operate a trust company under NFRA regulations"@,
            "cn-nfra"@,
            Some("financial"@),
            seq!["trust_management"@, "wealth_management"@, "asset_securitization"@],
            seq![],
            seq![],
            seq![],
            None,
        ),
        license_type_view(
            "cn-nfra:consumer-finance"@,
            "Consumer Finance Company License"@,
            "License to provide consumer lending services"@,
            "cn-nfra"@,
            Some("financial"@),
            seq!["consumer_lending"@, "personal_credit"@],
            seq![],
            seq![],
            seq![],
            None,
        )
    ]
}

/// NFRA license type definitions.
pub fn nfra_license_types() -> (r: Vec<LicenseTypeDefinition>)
    ensures
        license_types_view(r@) == spec_nfra_license_types(),
        license_types_view(r@) == seq![
            license_type_view(
                "cn-nfra:commercial-bank"@,
                "Commercial Banking License"@,
                "License to operate as a commercial bank under NFRA supervision"@,
                "cn-nfra"@,
                Some("financial"@),
                seq!["deposit_taking"@, "lending"@, "settlement"@, "trade_finance"@],
                seq![],
                seq![],
                seq![],
                None,
            ),
            license_type_view(
                "cn-nfra:insurance-company"@,
                "Insurance Company License"@,
                "License to operate an insurance company in China"@,
                "cn-nfra"@,
                Some("insurance"@),
                seq!["life_insurance"@, "property_insurance"@, "reinsurance"@, "health_insurance"@],
                seq![],
                seq![],
                seq![],
                None,
            ),
            license_type_view(
                "cn-nfra:trust-company"@,
                "Trust Company License"@,
                "License to operate a trust company under NFRA regulations"@,
                "cn-nfra"@,
                Some("financial"@),
                seq!["trust_management"@, "wealth_management"@, "asset_securitization"@],
                seq![],
                seq![],
                seq![],
                None,
            ),
            license_type_view(
                "cn-nfra:consumer-finance"@,
                "Consumer Finance Company License"@,
                "License to provide consumer lending services"@,
                "cn-nfra"@,
                Some("financial"@),
                seq!["consumer_lending"@, "personal_credit"@],
                seq![],
                seq![],
                seq![],
                None,
            )
        ],
{
    let r = vec![
        license_type(
            "cn-nfra:commercial-bank",
            "Commercial Banking License",
            "License to operate as a commercial bank under NFRA supervision",
            "cn-nfra",
            Some("financial"),
            &["deposit_taking", "lending", "settlement", "trade_finance"],
            &[],
            &[],
            &[],
            None,
        ),
        license_type(
            "cn-nfra:insurance-company",
            "Insurance Company License",
            "License to operate an insurance company in China",
            "cn-nfra",
            Some("insurance"),
            &["life_insurance", "property_insurance", "reinsurance", "health_insurance"],
            &[],
            &[],
            &[],
            None,
        ),
        license_type(
            "cn-nfra:trust-company",
            "Trust Company License",
            "License to operate a trust company under NFRA regulations",
            "cn-nfra",
            Some("financial"),
            &["trust_management", "wealth_management", "asset_securitization"],
            &[],
            &[],
            &[],
            None,
        ),
        license_type(
            "cn-nfra:consumer-finance",
            "Consumer Finance Company License",
            "License to provide consumer lending services",
            "cn-nfra",
            Some("financial"),
            &["consumer_lending", "personal_credit"],
            &[],
            &[],
            &[],
            None,
        )
    ];
    proof {
        assert(license_types_view(r@) =~~= spec_nfra_license_types());
    }
    r
}

/// The view of `csrc_regulator`.
pub open spec fn spec_csrc_regulator() -> RegulatorView {
    regulator_view(
        "cn-csrc"@,
        "China Securities Regulatory Commission"@,
        "cn"@,
        Some("http://www.csrc.gov.cn"@),
        seq!["securities_registry"@, "fund_registry"@],
    )
}

/// CSRC regulator profile.
pub fn csrc_regulator() -> (r: LicensepackRegulator)
    ensures
        r@ == spec_csrc_regulator(),
        r@ == regulator_view(
            "cn-csrc"@,
            "China Securities Regulatory Commission"@,
            "cn"@,
            Some("http://www.csrc.gov.cn"@),
            seq!["securities_registry"@, "fund_registry"@],
        ),
{
    let r =
        regulator(
            "cn-csrc",
            "China Securities Regulatory Commission",
            "cn",
            Some("http://www.csrc.gov.cn"),
            &["securities_registry", "fund_registry"],
        );
    proof {
        assert(r@ =~~= spec_csrc_regulator());
    }
    r
}

/// The view of `csrc_license_types`.
pub open spec fn spec_csrc_license_types() -> Seq<LicenseTypeView> {
    seq![
        license_type_view(
            "cn-csrc:securities-company"@,
            "Securities Company License"@,
            "License to operate as a securities company (broker-dealer)"@,
            "cn-csrc"@,
            Some("financial"@),
            seq!["securities_brokerage"@, "securities_underwriting"@, "proprietary_trading"@, "asset_management"@],
            seq![],
            seq![],
            seq![],
            None,
        ),
        license_type_view(
            "cn-csrc:fund-management"@,
            "Fund Management Company License"@,
            "License to manage public and private investment funds"@,
            "cn-csrc"@,
            Some("financial"@),
            seq!["public_fund_management"@, "private_fund_management"@, "investment_advisory"@],
            seq![],
            seq![],
            seq![],
            None,
        ),
        license_type_view(
            "cn-csrc:futures-company"@,
            "Futures Company License"@,
            "License to operate as a futures brokerage company"@,
            "cn-csrc"@,
            Some("financial"@),
            seq!["futures_brokerage"@, "commodity_futures"@, "financial_futures"@],
            seq![],
            seq![],
            seq![],
            None,
        ),
        license_type_view(
            "cn-csrc:investment-advisory"@,
            "Securities Investment Advisory License"@,
            "License to provide securities investment advisory services"@,
            "cn-csrc"@,
            Some("financial"@),
            seq!["investment_advisory"@, "financial_consulting"@],
            seq![],
            seq![],
            seq![],
            Some(3i32),
        )
    ]
}

/// CSRC license type definitions.
pub fn csrc_license_types() -> (r: Vec<LicenseTypeDefinition>)
    ensures
        license_types_view(r@) == spec_csrc_license_types(),
        license_types_view(r@) == seq![
            license_type_view(
                "cn-csrc:securities-company"@,
                "Securities Company License"@,
                "License to operate as a securities company (broker-dealer)"@,
                "cn-csrc"@,
                Some("financial"@),
                seq!["securities_brokerage"@, "securities_underwriting"@, "proprietary_trading"@, "asset_management"@],
                seq![],
                seq![],
                seq![],
                None,
            ),
            license_type_view(
                "cn-csrc:fund-management"@,
                "Fund Management Company License"@,
                "License to manage public and private investment funds"@,
                "cn-csrc"@,
                Some("financial"@),
                seq!["public_fund_management"@, "private_fund_management"@, "investment_advisory"@],
                seq![],
                seq![],
                seq![],
                None,
            ),
            license_type_view(
                "cn-csrc:futures-company"@,
                "Futures Company License"@,
                "License to operate as a futures brokerage company"@,
                "cn-csrc"@,
                Some("financial"@),
                seq!["futures_brokerage"@, "commodity_futures"@, "financial_futures"@],
                seq![],
                seq![],
                seq![],
                None,
            ),
            license_type_view(
                "cn-csrc:investment-advisory"@,
                "Securities Investment Advisory License"@,
                "License to provide securities investment advisory services"@,
                "cn-csrc"@,
                Some("financial"@),
                seq!["investment_advisory"@, "financial_consulting"@],
                seq![],
                seq![],
                seq![],
                Some(3i32),
            )
        ],
{
    let r = vec![
        license_type(
            "cn-csrc:securities-company",
            "Securities Company License",
            "License to operate as a securities company (broker-dealer)",
            "cn-csrc",
            Some("financial"),
            &["securities_brokerage", "securities_underwriting", "proprietary_trading", "asset_management"],
            &[],
            &[],
            &[],
            None,
        ),
        license_type(
            "cn-csrc:fund-management",
            "Fund Management Company License",
            "License to manage public and private investment funds",
            "cn-csrc",
            Some("financial"),
            &["public_fund_management", "private_fund_management", "investment_advisory"],
            &[],
            &[],
            &[],
            None,
        ),
        license_type(
            "cn-csrc:futures-company",
            "Futures Company License",
            "License to operate as a futures brokerage company",
            "cn-csrc",
            Some("financial"),
            &["futures_brokerage", "commodity_futures", "financial_futures"],
            &[],
            &[],
            &[],
            None,
        ),
        license_type(
            "cn-csrc:investment-advisory",
            "Securities Investment Advisory License",
            "License to provide securities investment advisory services",
            "cn-csrc",
            Some("financial"),
            &["investment_advisory", "financial_consulting"],
            &[],
            &[],
            &[],
            Some(3i32),
        )
    ];
    proof {
        assert(license_types_view(r@) =~~= spec_csrc_license_types());
    }
    r
}

/// The view of `safe_regulator`.
pub open spec fn spec_safe_regulator() -> RegulatorView {
    regulator_view(
        "cn-safe"@,
        "State Administration of Foreign Exchange"@,
        "cn"@,
        Some("https://www.safe.gov.cn"@),
        seq!["forex_registry"@],
    )
}

/// SAFE regulator profile.
pub fn safe_regulator() -> (r: LicensepackRegulator)
    ensures
        r@ == spec_safe_regulator(),
        r@ == regulator_view(
            "cn-safe"@,
            "State Administration of Foreign Exchange"@,
            "cn"@,
            Some("https://www.safe.gov.cn"@),
            seq!["forex_registry"@],
        ),
{
    let r =
        regulator(
            "cn-safe",
            "State Administration of Foreign Exchange",
            "cn",
            Some("https://www.safe.gov.cn"),
            &["forex_registry"],
        );
    proof {
        assert(r@ =~~= spec_safe_regulator());
    }
    r
}

/// The view of `safe_license_types`.
pub open spec fn spec_safe_license_types() -> Seq<LicenseTypeView> {
    seq![
        license_type_view(
            "cn-safe:forex-trading"@,
            "Foreign Exchange Trading License"@,
            "License to conduct foreign exchange trading and settlement"@,
            "cn-safe"@,
            Some("financial"@),
            seq!["forex_trading"@, "forex_settlement"@, "cross_border_capital"@],
            seq![],
            seq![],
            seq![],
            Some(3i32),
        ),
        license_type_view(
            "cn-safe:cross-border-investment"@,
            "Cross-Border Investment Registration"@,
            "Registration for qualified cross-border investment activities"@,
            "cn-safe"@,
            Some("financial"@),
            seq!["outbound_direct_investment"@, "inbound_direct_investment"@],
            seq![],
            seq![],
            seq![],
            None,
        )
    ]
}

/// SAFE license type definitions.
pub fn safe_license_types() -> (r: Vec<LicenseTypeDefinition>)
    ensures
        license_types_view(r@) == spec_safe_license_types(),
        license_types_view(r@) == seq![
            license_type_view(
                "cn-safe:forex-trading"@,
                "Foreign Exchange Trading License"@,
                "License to conduct foreign exchange trading and settlement"@,
                "cn-safe"@,
                Some("financial"@),
                seq!["forex_trading"@, "forex_settlement"@, "cross_border_capital"@],
                seq![],
                seq![],
                seq![],
                Some(3i32),
            ),
            license_type_view(
                "cn-safe:cross-border-investment"@,
                "Cross-Border Investment Registration"@,
                "Registration for qualified cross-border investment activities"@,
                "cn-safe"@,
                Some("financial"@),
                seq!["outbound_direct_investment"@, "inbound_direct_investment"@],
                seq![],
                seq![],
                seq![],
                None,
            )
        ],
{
    let r = vec![
        license_type(
            "cn-safe:forex-trading",
            "Foreign Exchange Trading License",
            "License to conduct foreign exchange trading and settlement",
            "cn-safe",
            Some("financial"),
            &["forex_trading", "forex_settlement", "cross_border_capital"],
            &[],
            &[],
            &[],
            Some(3i32),
        ),
        license_type(
            "cn-safe:cross-border-investment",
            "Cross-Border Investment Registration",
            "Registration for qualified cross-border investment activities",
            "cn-safe",
            Some("financial"),
            &["outbound_direct_investment", "inbound_direct_investment"],
            &[],
            &[],
            &[],
            None,
        )
    ];
    proof {
        assert(license_types_view(r@) =~~= spec_safe_license_types());
    }
    r
}

/// The view of `hainan_ftp_regulator`.
pub open spec fn spec_hainan_ftp_regulator() -> RegulatorView {
    regulator_view(
        "cn-hainan-ftp"@,
        "Hainan Free Trade Port Administration"@,
        "cn-hainan"@,
        Some("https://www.hainan.gov.cn"@),
        seq!["ftp_business_registry"@],
    )
}

/// Hainan Free Trade Port Administration regulator profile.
pub fn hainan_ftp_regulator() -> (r: LicensepackRegulator)
    ensures
        r@ == spec_hainan_ftp_regulator(),
        r@ == regulator_view(
            "cn-hainan-ftp"@,
            "Hainan Free Trade Port Administration"@,
            "cn-hainan"@,
            Some("https://www.hainan.gov.cn"@),
            seq!["ftp_business_registry"@],
        ),
{
    let r =
        regulator(
            "cn-hainan-ftp",
            "Hainan Free Trade Port Administration",
            "cn-hainan",
            Some("https://www.hainan.gov.cn"),
            &["ftp_business_registry"],
        );
    proof {
        assert(r@ =~~= spec_hainan_ftp_regulator());
    }
    r
}

/// The view of `hainan_ftp_license_types`.
pub open spec fn spec_hainan_ftp_license_types() -> Seq<LicenseTypeView> {
    seq![
        license_type_view(
            "cn-hainan-ftp:cross-border-trade"@,
            "Cross-Border Trade License"@,
            "License for cross-border trade operations within the Hainan FTP"@,
            "cn-hainan-ftp"@,
            Some("trade"@),
            seq!["cross_border_goods_trade"@, "cross_border_services_trade"@, "bonded_logistics"@],
            seq![],
            seq![],
            seq![],
            Some(5i32),
        ),
        license_type_view(
            "cn-hainan-ftp:negative-list-sector"@,
            "Negative List Sector Approval"@,
            "Special approval for foreign investment in negative list sectors within Hainan FTP"@,
            "cn-hainan-ftp"@,
            Some("trade"@),
            seq!["restricted_sector_investment"@, "joint_venture_operation"@],
            seq![],
            seq![],
            seq![],
            None,
        ),
        license_type_view(
            "cn-hainan-ftp:qflp"@,
            "Qualified Foreign Limited Partner (QFLP) License"@,
            "License for qualified foreign LPs to invest in domestic PE/VC funds via Hainan"@,
            "cn-hainan-ftp"@,
            Some("financial"@),
            seq!["pe_fund_investment"@, "vc_fund_investment"@],
            seq![],
            seq![],
            seq![],
            Some(3i32),
        ),
        license_type_view(
            "cn-hainan-ftp:qdlp"@,
            "Qualified Domestic Limited Partner (QDLP) License"@,
            "License for domestic LPs to invest in overseas funds via Hainan FTP"@,
            "cn-hainan-ftp"@,
            Some("financial"@),
            seq!["overseas_fund_investment"@, "cross_border_asset_allocation"@],
            seq![],
            seq![],
            seq![],
            Some(3i32),
        )
    ]
}

/// Hainan FTP license type definitions.
pub fn hainan_ftp_license_types() -> (r: Vec<LicenseTypeDefinition>)
    ensures
        license_types_view(r@) == spec_hainan_ftp_license_types(),
        license_types_view(r@) == seq![
            license_type_view(
                "cn-hainan-ftp:cross-border-trade"@,
                "Cross-Border Trade License"@,
                "License for cross-border trade operations within the Hainan FTP"@,
                "cn-hainan-ftp"@,
                Some("trade"@),
                seq!["cross_border_goods_trade"@, "cross_border_services_trade"@, "bonded_logistics"@],
                seq![],
                seq![],
                seq![],
                Some(5i32),
            ),
            license_type_view(
                "cn-hainan-ftp:negative-list-sector"@,
                "Negative List Sector Approval"@,
                "Special approval for foreign investment in negative list sectors within Hainan FTP"@,
                "cn-hainan-ftp"@,
                Some("trade"@),
                seq!["restricted_sector_investment"@, "joint_venture_operation"@],
                seq![],
                seq![],
                seq![],
                None,
            ),
            license_type_view(
                "cn-hainan-ftp:qflp"@,
                "Qualified Foreign Limited Partner (QFLP) License"@,
                "License for qualified foreign LPs to invest in domestic PE/VC funds via Hainan"@,
                "cn-hainan-ftp"@,
                Some("financial"@),
                seq!["pe_fund_investment"@, "vc_fund_investment"@],
                seq![],
                seq![],
                seq![],
                Some(3i32),
            ),
            license_type_view(
                "cn-hainan-ftp:qdlp"@,
                "Qualified Domestic Limited Partner (QDLP) License"@,
                "License for domestic LPs to invest in overseas funds via Hainan FTP"@,
                "cn-hainan-ftp"@,
                Some("financial"@),
                seq!["overseas_fund_investment"@, "cross_border_asset_allocation"@],
                seq![],
                seq![],
                seq![],
                Some(3i32),
            )
        ],
{
    let r = vec![
        license_type(
            "cn-hainan-ftp:cross-border-trade",
            "Cross-Border Trade License",
            "License for cross-border trade operations within the Hainan FTP",
            "cn-hainan-ftp",
            Some("trade"),
            &["cross_border_goods_trade", "cross_border_services_trade", "bonded_logistics"],
            &[],
            &[],
            &[],
            Some(5i32),
        ),
        license_type(
            "cn-hainan-ftp:negative-list-sector",
            "Negative List Sector Approval",
            "Special approval for foreign investment in negative list sectors within Hainan FTP",
            "cn-hainan-ftp",
            Some("trade"),
            &["restricted_sector_investment", "joint_venture_operation"],
            &[],
            &[],
            &[],
            None,
        ),
        license_type(
            "cn-hainan-ftp:qflp",
            "Qualified Foreign Limited Partner (QFLP) License",
            "License for qualified foreign LPs to invest in domestic PE/VC funds via Hainan",
            "cn-hainan-ftp",
            Some("financial"),
            &["pe_fund_investment", "vc_fund_investment"],
            &[],
            &[],
            &[],
            Some(3i32),
        ),
        license_type(
            "cn-hainan-ftp:qdlp",
            "Qualified Domestic Limited Partner (QDLP) License",
            "License for domestic LPs to invest in overseas funds via Hainan FTP",
            "cn-hainan-ftp",
            Some("financial"),
            &["overseas_fund_investment", "cross_border_asset_allocation"],
            &[],
            &[],
            &[],
            Some(3i32),
        )
    ];
    proof {
        assert(license_types_view(r@) =~~= spec_hainan_ftp_license_types());
    }
    r
}

/// The view of `hangzhou_cb_regulator`.
pub open spec fn spec_hangzhou_cb_regulator() -> RegulatorView {
    regulator_view(
        "cn-hangzhou-cb"@,
        "Hangzhou Commerce Bureau"@,
        "cn-hangzhou"@,
        Some("https://www.hangzhou.gov.cn"@),
        seq!["ecommerce_registry"@],
    )
}

/// Hangzhou Commerce Bureau regulator profile.
pub fn hangzhou_cb_regulator() -> (r: LicensepackRegulator)
    ensures
        r@ == spec_hangzhou_cb_regulator(),
        r@ == regulator_view(
            "cn-hangzhou-cb"@,
            "Hangzhou Commerce Bureau"@,
            "cn-hangzhou"@,
            Some("https://www.hangzhou.gov.cn"@),
            seq!["ecommerce_registry"@],
        ),
{
    let r =
        regulator(
            "cn-hangzhou-cb",
            "Hangzhou Commerce Bureau",
            "cn-hangzhou",
            Some("https://www.hangzhou.gov.cn"),
            &["ecommerce_registry"],
        );
    proof {
        assert(r@ =~~= spec_hangzhou_cb_regulator());
    }
    r
}

/// The view of `hangzhou_cb_license_types`.
pub open spec fn spec_hangzhou_cb_license_types() -> Seq<LicenseTypeView> {
    seq![
        license_type_view(
            "cn-hangzhou-cb:cross-border-ecommerce"@,
            "Cross-Border E-Commerce Pilot License"@,
            "License for cross-border e-commerce operations under the Hangzhou CBEC pilot zone"@,
            "cn-hangzhou-cb"@,
            Some("trade"@),
            seq!["cross_border_ecommerce"@, "bonded_import"@, "direct_mail_import"@],
            seq![],
            seq![],
            seq![],
            Some(3i32),
        ),
        license_type_view(
            "cn-hangzhou-cb:digital-trade"@,
            "Digital Trade License"@,
            "License for digital trade services in the Hangzhou digital economy zone"@,
            "cn-hangzhou-cb"@,
            Some("trade"@),
            seq!["digital_services_trade"@, "data_cross_border_transfer"@, "digital_content_trade"@],
            seq![],
            seq![],
            seq![],
            Some(3i32),
        )
    ]
}

/// Hangzhou Commerce Bureau license type definitions.
pub fn hangzhou_cb_license_types() -> (r: Vec<LicenseTypeDefinition>)
    ensures
        license_types_view(r@) == spec_hangzhou_cb_license_types(),
        license_types_view(r@) == seq![
            license_type_view(
                "cn-hangzhou-cb:cross-border-ecommerce"@,
                "Cross-Border E-Commerce Pilot License"@,
                "License for cross-border e-commerce operations under the Hangzhou CBEC pilot zone"@,
                "cn-hangzhou-cb"@,
                Some("trade"@),
                seq!["cross_border_ecommerce"@, "bonded_import"@, "direct_mail_import"@],
                seq![],
                seq![],
                seq![],
                Some(3i32),
            ),
            license_type_view(
                "cn-hangzhou-cb:digital-trade"@,
                "Digital Trade License"@,
                "License for digital trade services in the Hangzhou digital economy zone"@,
                "cn-hangzhou-cb"@,
                Some("trade"@),
                seq!["digital_services_trade"@, "data_cross_border_transfer"@, "digital_content_trade"@],
                seq![],
                seq![],
                seq![],
                Some(3i32),
            )
        ],
{
    let r = vec![
        license_type(
            "cn-hangzhou-cb:cross-border-ecommerce",
            "Cross-Border E-Commerce Pilot License",
            "License for cross-border e-commerce operations under the Hangzhou CBEC pilot zone",
            "cn-hangzhou-cb",
            Some("trade"),
            &["cross_border_ecommerce", "bonded_import", "direct_mail_import"],
            &[],
            &[],
            &[],
            Some(3i32),
        ),
        license_type(
            "cn-hangzhou-cb:digital-trade",
            "Digital Trade License",
            "License for digital trade services in the Hangzhou digital economy zone",
            "cn-hangzhou-cb",
            Some("trade"),
            &["digital_services_trade", "data_cross_border_transfer", "digital_content_trade"],
            &[],
            &[],
            &[],
            Some(3i32),
        )
    ];
    proof {
        assert(license_types_view(r@) =~~= spec_hangzhou_cb_license_types());
    }
    r
}

/// The view of `shenzhen_frb_regulator`.
pub open spec fn spec_shenzhen_frb_regulator() -> RegulatorView {
    regulator_view(
        "cn-shenzhen-frb"@,
        "Shenzhen Financial Regulatory Bureau"@,
        "cn-shenzhen"@,
        Some("https://jr.sz.gov.cn"@),
        seq!["fintech_sandbox_registry"@],
    )
}

/// Shenzhen Financial Regulatory Bureau regulator profile.
pub fn shenzhen_frb_regulator() -> (r: LicensepackRegulator)
    ensures
        r@ == spec_shenzhen_frb_regulator(),
        r@ == regulator_view(
            "cn-shenzhen-frb"@,
            "Shenzhen Financial Regulatory Bureau"@,
            "cn-shenzhen"@,
            Some("https://jr.sz.gov.cn"@),
            seq!["fintech_sandbox_registry"@],
        ),
{
    let r =
        regulator(
            "cn-shenzhen-frb",
            "Shenzhen Financial Regulatory Bureau",
            "cn-shenzhen",
            Some("https://jr.sz.gov.cn"),
            &["fintech_sandbox_registry"],
        );
    proof {
        assert(r@ =~~= spec_shenzhen_frb_regulator());
    }
    r
}

/// The view of `shenzhen_frb_license_types`.
pub open spec fn spec_shenzhen_frb_license_types() -> Seq<LicenseTypeView> {
    seq![
        license_type_view(
            "cn-shenzhen-frb:fintech-sandbox"@,
            "Fintech Regulatory Sandbox License"@,
            "License to operate within the Shenzhen fintech regulatory sandbox program"@,
            "cn-shenzhen-frb"@,
            Some("financial"@),
            seq!["fintech_innovation_testing"@, "sandbox_product_launch"@],
            seq![],
            seq![],
            seq![],
            Some(2i32),
        ),
        license_type_view(
            "cn-shenzhen-frb:digital-rmb-pilot"@,
            "Digital RMB Pilot Operator License"@,
            "License to participate as an operator in the digital RMB (e-CNY) pilot program"@,
            "cn-shenzhen-frb"@,
            Some("financial"@),
            seq!["digital_rmb_distribution"@, "digital_rmb_wallet_services"@, "digital_rmb_merchant_acceptance"@],
            seq![],
            seq![],
            seq![],
            Some(3i32),
        ),
        license_type_view(
            "cn-shenzhen-frb:qianhai-cooperation"@,
            "Qianhai Cooperation Zone Financial License"@,
            "License for financial services within the Qianhai Shenzhen-Hong Kong cooperation zone"@,
            "cn-shenzhen-frb"@,
            Some("financial"@),
            seq!["cross_border_lending"@, "cross_border_asset_management"@, "rmb_internationalization_services"@],
            seq![],
            seq![],
            seq![],
            Some(5i32),
        ),
        license_type_view(
            "cn-shenzhen-frb:digital-asset-pilot"@,
            "Digital Asset Pilot License"@,
            "Pilot license for digital asset services under Shenzhen EZ innovation framework"@,
            "cn-shenzhen-frb"@,
            Some("financial"@),
            seq!["digital_asset_custody"@, "digital_asset_trading_pilot"@],
            seq![],
            seq![],
            seq![],
            Some(2i32),
        )
    ]
}

/// Shenzhen Financial Regulatory Bureau license type definitions.
pub fn shenzhen_frb_license_types() -> (r: Vec<LicenseTypeDefinition>)
    ensures
        license_types_view(r@) == spec_shenzhen_frb_license_types(),
        license_types_view(r@) == seq![
            license_type_view(
                "cn-shenzhen-frb:fintech-sandbox"@,
                "Fintech Regulatory Sandbox License"@,
                "License to operate within the Shenzhen fintech regulatory sandbox program"@,
                "cn-shenzhen-frb"@,
                Some("financial"@),
                seq!["fintech_innovation_testing"@, "sandbox_product_launch"@],
                seq![],
                seq![],
                seq![],
                Some(2i32),
            ),
            license_type_view(
                "cn-shenzhen-frb:digital-rmb-pilot"@,
                "Digital RMB Pilot Operator License"@,
                "License to participate as an operator in the digital RMB (e-CNY) pilot program"@,
                "cn-shenzhen-frb"@,
                Some("financial"@),
                seq!["digital_rmb_distribution"@, "digital_rmb_wallet_services"@, "digital_rmb_merchant_acceptance"@],
                seq![],
                seq![],
                seq![],
                Some(3i32),
            ),
            license_type_view(
                "cn-shenzhen-frb:qianhai-cooperation"@,
                "Qianhai Cooperation Zone Financial License"@,
                "License for financial services within the Qianhai Shenzhen-Hong Kong cooperation zone"@,
                "cn-shenzhen-frb"@,
                Some("financial"@),
                seq!["cross_border_lending"@, "cross_border_asset_management"@, "rmb_internationalization_services"@],
                seq![],
                seq![],
                seq![],
                Some(5i32),
            ),
            license_type_view(
                "cn-shenzhen-frb:digital-asset-pilot"@,
                "Digital Asset Pilot License"@,
                "Pilot license for digital asset services under Shenzhen EZ innovation framework"@,
                "cn-shenzhen-frb"@,
                Some("financial"@),
                seq!["digital_asset_custody"@, "digital_asset_trading_pilot"@],
                seq![],
                seq![],
                seq![],
                Some(2i32),
            )
        ],
{
    let r = vec![
        license_type(
            "cn-shenzhen-frb:fintech-sandbox",
            "Fintech Regulatory Sandbox License",
            "License to operate within the Shenzhen fintech regulatory sandbox program",
            "cn-shenzhen-frb",
            Some("financial"),
            &["fintech_innovation_testing", "sandbox_product_launch"],
            &[],
            &[],
            &[],
            Some(2i32),
        ),
        license_type(
            "cn-shenzhen-frb:digital-rmb-pilot",
            "Digital RMB Pilot Operator License",
            "License to participate as an operator in the digital RMB (e-CNY) pilot program",
            "cn-shenzhen-frb",
            Some("financial"),
            &["digital_rmb_distribution", "digital_rmb_wallet_services", "digital_rmb_merchant_acceptance"],
            &[],
            &[],
            &[],
            Some(3i32),
        ),
        license_type(
            "cn-shenzhen-frb:qianhai-cooperation",
            "Qianhai Cooperation Zone Financial License",
            "License for financial services within the Qianhai Shenzhen-Hong Kong cooperation zone",
            "cn-shenzhen-frb",
            Some("financial"),
            &["cross_border_lending", "cross_border_asset_management", "rmb_internationalization_services"],
            &[],
            &[],
            &[],
            Some(5i32),
        ),
        license_type(
            "cn-shenzhen-frb:digital-asset-pilot",
            "Digital Asset Pilot License",
            "Pilot license for digital asset services under Shenzhen EZ innovation framework",
            "cn-shenzhen-frb",
            Some("financial"),
            &["digital_asset_custody", "digital_asset_trading_pilot"],
            &[],
            &[],
            &[],
            Some(2i32),
        )
    ];
    proof {
        assert(license_types_view(r@) =~~= spec_shenzhen_frb_license_types());
    }
    r
}

/// The view of `shanghai_ftz_regulator`.
pub open spec fn spec_shanghai_ftz_regulator() -> RegulatorView {
    regulator_view(
        "cn-shanghai-ftz"@,
        "Shanghai Free Trade Zone Administration"@,
        "cn-shanghai"@,
        Some("https://www.china-shftz.gov.cn"@),
        seq!["ftz_business_registry"@],
    )
}

/// Shanghai FTZ Administration regulator profile.
pub fn shanghai_ftz_regulator() -> (r: LicensepackRegulator)
    ensures
        r@ == spec_shanghai_ftz_regulator(),
        r@ == regulator_view(
            "cn-shanghai-ftz"@,
            "Shanghai Free Trade Zone Administration"@,
            "cn-shanghai"@,
            Some("https://www.china-shftz.gov.cn"@),
            seq!["ftz_business_registry"@],
        ),
{
    let r =
        regulator(
            "cn-shanghai-ftz",
            "Shanghai Free Trade Zone Administration",
            "cn-shanghai",
            Some("https://www.china-shftz.gov.cn"),
            &["ftz_business_registry"],
        );
    proof {
        assert(r@ =~~= spec_shanghai_ftz_regulator());
    }
    r
}

/// The view of `shanghai_ftz_license_types`.
pub open spec fn spec_shanghai_ftz_license_types() -> Seq<LicenseTypeView> {
    seq![
        license_type_view(
            "cn-shanghai-ftz:business-registration"@,
            "FTZ Business Registration"@,
            "Business registration within the Shanghai Free Trade Zone"@,
            "cn-shanghai-ftz"@,
            Some("corporate"@),
            seq!["ftz_business_operations"@, "international_trade"@],
            seq![],
            seq![],
            seq![],
            None,
        ),
        license_type_view(
            "cn-shanghai-ftz:wfoe"@,
            "Wholly Foreign-Owned Enterprise (WFOE) Registration"@,
            "Registration of a WFOE within the Shanghai FTZ under simplified procedures"@,
            "cn-shanghai-ftz"@,
            Some("corporate"@),
            seq!["foreign_invested_operations"@, "profit_repatriation"@, "cross_border_settlement"@],
            seq![],
            seq![],
            seq![],
            None,
        ),
        license_type_view(
            "cn-shanghai-ftz:financial-innovation"@,
            "Financial Innovation Pilot License"@,
            "Pilot license for innovative financial services within the Shanghai FTZ"@,
            "cn-shanghai-ftz"@,
            Some("financial"@),
            seq!["innovative_financial_products"@, "cross_border_financial_services"@],
            seq![],
            seq![],
            seq![],
            Some(3i32),
        )
    ]
}

/// Shanghai FTZ Administration license type definitions.
pub fn shanghai_ftz_license_types() -> (r: Vec<LicenseTypeDefinition>)
    ensures
        license_types_view(r@) == spec_shanghai_ftz_license_types(),
        license_types_view(r@) == seq![
            license_type_view(
                "cn-shanghai-ftz:business-registration"@,
                "FTZ Business Registration"@,
                "Business registration within the Shanghai Free Trade Zone"@,
                "cn-shanghai-ftz"@,
                Some("corporate"@),
                seq!["ftz_business_operations"@, "international_trade"@],
                seq![],
                seq![],
                seq![],
                None,
            ),
            license_type_view(
                "cn-shanghai-ftz:wfoe"@,
                "Wholly Foreign-Owned Enterprise (WFOE) Registration"@,
                "Registration of a WFOE within the Shanghai FTZ under simplified procedures"@,
                "cn-shanghai-ftz"@,
                Some("corporate"@),
                seq!["foreign_invested_operations"@, "profit_repatriation"@, "cross_border_settlement"@],
                seq![],
                seq![],
                seq![],
                None,
            ),
            license_type_view(
                "cn-shanghai-ftz:financial-innovation"@,
                "Financial Innovation Pilot License"@,
                "Pilot license for innovative financial services within the Shanghai FTZ"@,
                "cn-shanghai-ftz"@,
                Some("financial"@),
                seq!["innovative_financial_products"@, "cross_border_financial_services"@],
                seq![],
                seq![],
                seq![],
                Some(3i32),
            )
        ],
{
    let r = vec![
        license_type(
            "cn-shanghai-ftz:business-registration",
            "FTZ Business Registration",
            "Business registration within the Shanghai Free Trade Zone",
            "cn-shanghai-ftz",
            Some("corporate"),
            &["ftz_business_operations", "international_trade"],
            &[],
            &[],
            &[],
            None,
        ),
        license_type(
            "cn-shanghai-ftz:wfoe",
            "Wholly Foreign-Owned Enterprise (WFOE) Registration",
            "Registration of a WFOE within the Shanghai FTZ under simplified procedures",
            "cn-shanghai-ftz",
            Some("corporate"),
            &["foreign_invested_operations", "profit_repatriation", "cross_border_settlement"],
            &[],
            &[],
            &[],
            None,
        ),
        license_type(
            "cn-shanghai-ftz:financial-innovation",
            "Financial Innovation Pilot License",
            "Pilot license for innovative financial services within the Shanghai FTZ",
            "cn-shanghai-ftz",
            Some("financial"),
            &["innovative_financial_products", "cross_border_financial_services"],
            &[],
            &[],
            &[],
            Some(3i32),
        )
    ];
    proof {
        assert(license_types_view(r@) =~~= spec_shanghai_ftz_license_types());
    }
    r
}

/// The view of `shanghai_frb_regulator`.
pub open spec fn spec_shanghai_frb_regulator() -> RegulatorView {
    regulator_view(
        "cn-shanghai-frb"@,
        "Shanghai Financial Regulatory Bureau"@,
        "cn-shanghai"@,
        Some("https://jrj.sh.gov.cn"@),
        seq!["financial_institution_registry"@],
    )
}

/// Shanghai Financial Regulatory Bureau regulator profile.
pub fn shanghai_frb_regulator() -> (r: LicensepackRegulator)
    ensures
        r@ == spec_shanghai_frb_regulator(),
        r@ == regulator_view(
            "cn-shanghai-frb"@,
            "Shanghai Financial Regulatory Bureau"@,
            "cn-shanghai"@,
            Some("https://jrj.sh.gov.cn"@),
            seq!["financial_institution_registry"@],
        ),
{
    let r =
        regulator(
            "cn-shanghai-frb",
            "Shanghai Financial Regulatory Bureau",
            "cn-shanghai",
            Some("https://jrj.sh.gov.cn"),
            &["financial_institution_registry"],
        );
    proof {
        assert(r@ =~~= spec_shanghai_frb_regulator());
    }
    r
}

/// The view of `shanghai_frb_license_types`.
pub open spec fn spec_shanghai_frb_license_types() -> Seq<LicenseTypeView> {
    seq![
        license_type_view(
            "cn-shanghai-frb:local-financial-org"@,
            "Local Financial Organization License"@,
            "License for local financial organizations including small loan and guarantee companies"@,
            "cn-shanghai-frb"@,
            Some("financial"@),
            seq!["small_loan_services"@, "financing_guarantee"@, "commercial_factoring"@],
            seq![],
            seq![],
            seq![],
            Some(3i32),
        ),
        license_type_view(
            "cn-shanghai-frb:fintech-pilot"@,
            "Shanghai Fintech Pilot License"@,
            "License for fintech pilot programs under Shanghai financial regulatory oversight"@,
            "cn-shanghai-frb"@,
            Some("financial"@),
            seq!["fintech_innovation_testing"@, "regtech_services"@],
            seq![],
            seq![],
            seq![],
            Some(2i32),
        )
    ]
}

/// Shanghai Financial Regulatory Bureau license type definitions.
pub fn shanghai_frb_license_types() -> (r: Vec<LicenseTypeDefinition>)
    ensures
        license_types_view(r@) == spec_shanghai_frb_license_types(),
        license_types_view(r@) == seq![
            license_type_view(
                "cn-shanghai-frb:local-financial-org"@,
                "Local Financial Organization License"@,
                "License for local financial organizations including small loan and guarantee companies"@,
                "cn-shanghai-frb"@,
                Some("financial"@),
                seq!["small_loan_services"@, "financing_guarantee"@, "commercial_factoring"@],
                seq![],
                seq![],
                seq![],
                Some(3i32),
            ),
            license_type_view(
                "cn-shanghai-frb:fintech-pilot"@,
                "Shanghai Fintech Pilot License"@,
                "License for fintech pilot programs under Shanghai financial regulatory oversight"@,
                "cn-shanghai-frb"@,
                Some("financial"@),
                seq!["fintech_innovation_testing"@, "regtech_services"@],
                seq![],
                seq![],
                seq![],
                Some(2i32),
            )
        ],
{
    let r = vec![
        license_type(
            "cn-shanghai-frb:local-financial-org",
            "Local Financial Organization License",
            "License for local financial organizations including small loan and guarantee companies",
            "cn-shanghai-frb",
            Some("financial"),
            &["small_loan_services", "financing_guarantee", "commercial_factoring"],
            &[],
            &[],
            &[],
            Some(3i32),
        ),
        license_type(
            "cn-shanghai-frb:fintech-pilot",
            "Shanghai Fintech Pilot License",
            "License for fintech pilot programs under Shanghai financial regulatory oversight",
            "cn-shanghai-frb",
            Some("financial"),
            &["fintech_innovation_testing", "regtech_services"],
            &[],
            &[],
            &[],
            Some(2i32),
        )
    ];
    proof {
        assert(license_types_view(r@) =~~= spec_shanghai_frb_license_types());
    }
    r
}

/// The view of `beijing_frb_regulator`.
pub open spec fn spec_beijing_frb_regulator() -> RegulatorView {
    regulator_view(
        "cn-beijing-frb"@,
        "Beijing Financial Regulatory Bureau"@,
        "cn-beijing"@,
        Some("https://jrj.beijing.gov.cn"@),
        seq!["fintech_sandbox_registry"@],
    )
}

/// Beijing Financial Regulatory Bureau regulator profile.
pub fn beijing_frb_regulator() -> (r: LicensepackRegulator)
    ensures
        r@ == spec_beijing_frb_regulator(),
        r@ == regulator_view(
            "cn-beijing-frb"@,
            "Beijing Financial Regulatory Bureau"@,
            "cn-beijing"@,
            Some("https://jrj.beijing.gov.cn"@),
            seq!["fintech_sandbox_registry"@],
        ),
{
    let r =
        regulator(
            "cn-beijing-frb",
            "Beijing Financial Regulatory Bureau",
            "cn-beijing",
            Some("https://jrj.beijing.gov.cn"),
            &["fintech_sandbox_registry"],
        );
    proof {
        assert(r@ =~~= spec_beijing_frb_regulator());
    }
    r
}

/// The view of `beijing_frb_license_types`.
pub open spec fn spec_beijing_frb_license_types() -> Seq<LicenseTypeView> {
    seq![
        license_type_view(
            "cn-beijing-frb:fintech-sandbox"@,
            "Beijing Fintech Regulatory Sandbox License"@,
            "License for fintech innovation under the Beijing regulatory sandbox program"@,
            "cn-beijing-frb"@,
            Some("financial"@),
            seq!["fintech_innovation_testing"@, "sandbox_product_launch"@],
            seq![],
            seq![],
            seq![],
            Some(2i32),
        ),
        license_type_view(
            "cn-beijing-frb:local-financial-org"@,
            "Beijing Local Financial Organization License"@,
            "License for local financial organizations operating in Beijing municipality"@,
            "cn-beijing-frb"@,
            Some("financial"@),
            seq!["small_loan_services"@, "financing_guarantee"@, "pawn_brokerage"@],
            seq![],
            seq![],
            seq![],
            Some(3i32),
        ),
        license_type_view(
            "cn-beijing-frb:digital-asset-pilot"@,
            "Beijing Digital Asset Pilot License"@,
            "Pilot license for digital asset services under Beijing innovation framework"@,
            "cn-beijing-frb"@,
            Some("financial"@),
            seq!["digital_asset_custody_pilot"@, "nft_marketplace_pilot"@],
            seq![],
            seq![],
            seq![],
            Some(2i32),
        )
    ]
}

/// Beijing Financial Regulatory Bureau license type definitions.
pub fn beijing_frb_license_types() -> (r: Vec<LicenseTypeDefinition>)
    ensures
        license_types_view(r@) == spec_beijing_frb_license_types(),
        license_types_view(r@) == seq![
            license_type_view(
                "cn-beijing-frb:fintech-sandbox"@,
                "Beijing Fintech Regulatory Sandbox License"@,
                "License for fintech innovation under the Beijing regulatory sandbox program"@,
                "cn-beijing-frb"@,
                Some("financial"@),
                seq!["fintech_innovation_testing"@, "sandbox_product_launch"@],
                seq![],
                seq![],
                seq![],
                Some(2i32),
            ),
            license_type_view(
                "cn-beijing-frb:local-financial-org"@,
                "Beijing Local Financial Organization License"@,
                "License for local financial organizations operating in Beijing municipality"@,
                "cn-beijing-frb"@,
                Some("financial"@),
                seq!["small_loan_services"@, "financing_guarantee"@, "pawn_brokerage"@],
                seq![],
                seq![],
                seq![],
                Some(3i32),
            ),
            license_type_view(
                "cn-beijing-frb:digital-asset-pilot"@,
                "Beijing Digital Asset Pilot License"@,
                "Pilot license for digital asset services under Beijing innovation framework"@,
                "cn-beijing-frb"@,
                Some("financial"@),
                seq!["digital_asset_custody_pilot"@, "nft_marketplace_pilot"@],
                seq![],
                seq![],
                seq![],
                Some(2i32),
            )
        ],
{
    let r = vec![
        license_type(
            "cn-beijing-frb:fintech-sandbox",
            "Beijing Fintech Regulatory Sandbox License",
            "License for fintech innovation under the Beijing regulatory sandbox program",
            "cn-beijing-frb",
            Some("financial"),
            &["fintech_innovation_testing", "sandbox_product_launch"],
            &[],
            &[],
            &[],
            Some(2i32),
        ),
        license_type(
            "cn-beijing-frb:local-financial-org",
            "Beijing Local Financial Organization License",
            "License for local financial organizations operating in Beijing municipality",
            "cn-beijing-frb",
            Some("financial"),
            &["small_loan_services", "financing_guarantee", "pawn_brokerage"],
            &[],
            &[],
            &[],
            Some(3i32),
        ),
        license_type(
            "cn-beijing-frb:digital-asset-pilot",
            "Beijing Digital Asset Pilot License",
            "Pilot license for digital asset services under Beijing innovation framework",
            "cn-beijing-frb",
            Some("financial"),
            &["digital_asset_custody_pilot", "nft_marketplace_pilot"],
            &[],
            &[],
            &[],
            Some(2i32),
        )
    ];
    proof {
        assert(license_types_view(r@) =~~= spec_beijing_frb_license_types());
    }
    r
}

/// The view of `china_regulators`.
pub open spec fn spec_china_regulators() -> Seq<RegulatorView> {
    seq![spec_pboc_regulator(), spec_nfra_regulator(), spec_csrc_regulator(), spec_safe_regulator(), spec_hainan_ftp_regulator(), spec_hangzhou_cb_regulator(), spec_shenzhen_frb_regulator(), spec_shanghai_ftz_regulator(), spec_shanghai_frb_regulator(), spec_beijing_frb_regulator()]
}

/// All China regulatory authorities across national and sub-national levels.
pub fn china_regulators() -> (r: Vec<LicensepackRegulator>)
    ensures
        regulators_view(r@) == spec_china_regulators(),
        regulators_view(r@) == seq![spec_pboc_regulator(), spec_nfra_regulator(), spec_csrc_regulator(), spec_safe_regulator(), spec_hainan_ftp_regulator(), spec_hangzhou_cb_regulator(), spec_shenzhen_frb_regulator(), spec_shanghai_ftz_regulator(), spec_shanghai_frb_regulator(), spec_beijing_frb_regulator()],
{
    let r = vec![pboc_regulator(), nfra_regulator(), csrc_regulator(), safe_regulator(), hainan_ftp_regulator(), hangzhou_cb_regulator(), shenzhen_frb_regulator(), shanghai_ftz_regulator(), shanghai_frb_regulator(), beijing_frb_regulator()];
    proof {
        assert(regulators_view(r@) =~~= spec_china_regulators());
    }
    r
}

/// The view of `china_license_types`.
pub open spec fn spec_china_license_types() -> Seq<LicenseTypeView> {
    spec_pboc_license_types()
        + spec_nfra_license_types()
        + spec_csrc_license_types()
        + spec_safe_license_types()
        + spec_hainan_ftp_license_types()
        + spec_hangzhou_cb_license_types()
        + spec_shenzhen_frb_license_types()
        + spec_shanghai_ftz_license_types()
        + spec_shanghai_frb_license_types()
        + spec_beijing_frb_license_types()
}

/// All China license type definitions across all authorities and zones.
pub fn china_license_types() -> (r: Vec<LicenseTypeDefinition>)
    ensures
        license_types_view(r@) == spec_china_license_types(),
        license_types_view(r@) == spec_pboc_license_types()
            + spec_nfra_license_types()
            + spec_csrc_license_types()
            + spec_safe_license_types()
            + spec_hainan_ftp_license_types()
            + spec_hangzhou_cb_license_types()
            + spec_shenzhen_frb_license_types()
            + spec_shanghai_ftz_license_types()
            + spec_shanghai_frb_license_types()
            + spec_beijing_frb_license_types(),
{
    let mut all: Vec<LicenseTypeDefinition> = Vec::new();
    proof {
        assert(license_types_view(all@) =~= Seq::<LicenseTypeView>::empty());
    }
    let ghost before = all@;
    let mut part = pboc_license_types();
    let ghost added = part@;
    all.append(&mut part);
    proof {
        lemma_license_types_view_append(before, added);
        assert(license_types_view(all@) =~= spec_pboc_license_types());
    }
    let ghost before = all@;
    let mut part = nfra_license_types();
    let ghost added = part@;
    all.append(&mut part);
    proof {
        lemma_license_types_view_append(before, added);
        assert(license_types_view(all@) =~= spec_pboc_license_types() + spec_nfra_license_types());
    }
    let ghost before = all@;
    let mut part = csrc_license_types();
    let ghost added = part@;
    all.append(&mut part);
    proof {
        lemma_license_types_view_append(before, added);
        assert(license_types_view(all@) =~= spec_pboc_license_types() + spec_nfra_license_types() + spec_csrc_license_types());
    }
    let ghost before = all@;
    let mut part = safe_license_types();
    let ghost added = part@;
    all.append(&mut part);
    proof {
        lemma_license_types_view_append(before, added);
        assert(license_types_view(all@) =~= spec_pboc_license_types() + spec_nfra_license_types() + spec_csrc_license_types() + spec_safe_license_types());
    }
    let ghost before = all@;
    let mut part = hainan_ftp_license_types();
    let ghost added = part@;
    all.append(&mut part);
    proof {
        lemma_license_types_view_append(before, added);
        assert(license_types_view(all@) =~= spec_pboc_license_types() + spec_nfra_license_types() + spec_csrc_license_types() + spec_safe_license_types() + spec_hainan_ftp_license_types());
    }
    let ghost before = all@;
    let mut part = hangzhou_cb_license_types();
    let ghost added = part@;
    all.append(&mut part);
    proof {
        lemma_license_types_view_append(before, added);
        assert(license_types_view(all@) =~= spec_pboc_license_types() + spec_nfra_license_types() + spec_csrc_license_types() + spec_safe_license_types() + spec_hainan_ftp_license_types() + spec_hangzhou_cb_license_types());
    }
    let ghost before = all@;
    let mut part = shenzhen_frb_license_types();
    let ghost added = part@;
    all.append(&mut part);
    proof {
        lemma_license_types_view_append(before, added);
        assert(license_types_view(all@) =~= spec_pboc_license_types() + spec_nfra_license_types() + spec_csrc_license_types() + spec_safe_license_types() + spec_hainan_ftp_license_types() + spec_hangzhou_cb_license_types() + spec_shenzhen_frb_license_types());
    }
    let ghost before = all@;
    let mut part = shanghai_ftz_license_types();
    let ghost added = part@;
    all.append(&mut part);
    proof {
        lemma_license_types_view_append(before, added);
        assert(license_types_view(all@) =~= spec_pboc_license_types() + spec_nfra_license_types() + spec_csrc_license_types() + spec_safe_license_types() + spec_hainan_ftp_license_types() + spec_hangzhou_cb_license_types() + spec_shenzhen_frb_license_types() + spec_shanghai_ftz_license_types());
    }
    let ghost before = all@;
    let mut part = shanghai_frb_license_types();
    let ghost added = part@;
    all.append(&mut part);
    proof {
        lemma_license_types_view_append(before, added);
        assert(license_types_view(all@) =~= spec_pboc_license_types() + spec_nfra_license_types() + spec_csrc_license_types() + spec_safe_license_types() + spec_hainan_ftp_license_types() + spec_hangzhou_cb_license_types() + spec_shenzhen_frb_license_types() + spec_shanghai_ftz_license_types() + spec_shanghai_frb_license_types());
    }
    let ghost before = all@;
    let mut part = beijing_frb_license_types();
    let ghost added = part@;
    all.append(&mut part);
    proof {
        lemma_license_types_view_append(before, added);
        assert(license_types_view(all@) =~= spec_pboc_license_types() + spec_nfra_license_types() + spec_csrc_license_types() + spec_safe_license_types() + spec_hainan_ftp_license_types() + spec_hangzhou_cb_license_types() + spec_shenzhen_frb_license_types() + spec_shanghai_ftz_license_types() + spec_shanghai_frb_license_types() + spec_beijing_frb_license_types());
    }
    all
}

/// The licence types of `pboc_license_types` are complete, granted by its regulators, and
/// each of its regulators grants at least one of them.
proof fn lemma_pboc_group()
    ensures
        license_types_complete(spec_pboc_license_types()),
        granted_by_listed_regulators(spec_pboc_license_types(), seq![spec_pboc_regulator()]),
        every_regulator_grants(spec_pboc_license_types(), seq![spec_pboc_regulator()]),
        regulators_in_country(seq![spec_pboc_regulator()], "cn"@),
{
    assert(complete_each(spec_pboc_license_types())) by {
        reveal_strlit("cn-pboc:payment-institution");
        reveal_strlit("Payment Institution License");
        reveal_strlit("License to operate non-bank payment services under PBOC regulations");
        reveal_strlit("cn-pboc");
        reveal_strlit("cn-pboc:cross-border-payment");
        reveal_strlit("Cross-Border Payment License");
        reveal_strlit("License for cross-border RMB payment and settlement services");
        reveal_strlit("cn-pboc:credit-reporting");
        reveal_strlit("Credit Reporting License");
        reveal_strlit("License to operate credit reporting services under PBOC oversight");
        reveal_with_fuel(complete_each, 4);
    }
    lemma_complete_each(spec_pboc_license_types());
    assert(granted_by_each(spec_pboc_license_types(), seq![spec_pboc_regulator()][0].regulator_id)) by {
        reveal_with_fuel(granted_by_each, 4);
    }
    lemma_granted_by_each(spec_pboc_license_types(), seq![spec_pboc_regulator()], 0);
    assert(grants_some(spec_pboc_license_types(), seq![spec_pboc_regulator()][0].regulator_id)) by {
        assert(spec_pboc_license_types()[0].regulator_id == seq![spec_pboc_regulator()][0].regulator_id);
    }
    assert(grants_each(spec_pboc_license_types(), seq![spec_pboc_regulator()])) by {
        reveal_with_fuel(grants_each, 2);
    }
    lemma_grants_each(spec_pboc_license_types(), seq![spec_pboc_regulator()]);
    assert(has_prefix("cn"@, "cn"@)) by {
        reveal_strlit("cn");
        reveal_strlit("cn");
        assert("cn"@.subrange(0, 2) =~= "cn"@);
    }
    assert(in_country_each(seq![spec_pboc_regulator()], "cn"@)) by {
        reveal_with_fuel(in_country_each, 2);
    }
    lemma_in_country_each(seq![spec_pboc_regulator()], "cn"@);
}

/// The licence types of `nfra_license_types` are complete, granted by its regulators, and
/// each of its regulators grants at least one of them.
proof fn lemma_nfra_group()
    ensures
        license_types_complete(spec_nfra_license_types()),
        granted_by_listed_regulators(spec_nfra_license_types(), seq![spec_nfra_regulator()]),
        every_regulator_grants(spec_nfra_license_types(), seq![spec_nfra_regulator()]),
        regulators_in_country(seq![spec_nfra_regulator()], "cn"@),
{
    assert(complete_each(spec_nfra_license_types())) by {
        reveal_strlit("cn-nfra:commercial-bank");
        reveal_strlit("Commercial Banking License");
        reveal_strlit("License to operate as a commercial bank under NFRA supervision");
        reveal_strlit("cn-nfra");
        reveal_strlit("cn-nfra:insurance-company");
        reveal_strlit("Insurance Company License");
        reveal_strlit("License to operate an insurance company in China");
        reveal_strlit("cn-nfra:trust-company");
        reveal_strlit("Trust Company License");
        reveal_strlit("License to operate a trust company under NFRA regulations");
        reveal_strlit("cn-nfra:consumer-finance");
        reveal_strlit("Consumer Finance Company License");
        reveal_strlit("License to provide consumer lending services");
        reveal_with_fuel(complete_each, 5);
    }
    lemma_complete_each(spec_nfra_license_types());
    assert(granted_by_each(spec_nfra_license_types(), seq![spec_nfra_regulator()][0].regulator_id)) by {
        reveal_with_fuel(granted_by_each, 5);
    }
    lemma_granted_by_each(spec_nfra_license_types(), seq![spec_nfra_regulator()], 0);
    assert(grants_some(spec_nfra_license_types(), seq![spec_nfra_regulator()][0].regulator_id)) by {
        assert(spec_nfra_license_types()[0].regulator_id == seq![spec_nfra_regulator()][0].regulator_id);
    }
    assert(grants_each(spec_nfra_license_types(), seq![spec_nfra_regulator()])) by {
        reveal_with_fuel(grants_each, 2);
    }
    lemma_grants_each(spec_nfra_license_types(), seq![spec_nfra_regulator()]);
    assert(has_prefix("cn"@, "cn"@)) by {
        reveal_strlit("cn");
        reveal_strlit("cn");
        assert("cn"@.subrange(0, 2) =~= "cn"@);
    }
    assert(in_country_each(seq![spec_nfra_regulator()], "cn"@)) by {
        reveal_with_fuel(in_country_each, 2);
    }
    lemma_in_country_each(seq![spec_nfra_regulator()], "cn"@);
}

/// The licence types of `csrc_license_types` are complete, granted by its regulators, and
/// each of its regulators grants at least one of them.
proof fn lemma_csrc_group()
    ensures
        license_types_complete(spec_csrc_license_types()),
        granted_by_listed_regulators(spec_csrc_license_types(), seq![spec_csrc_regulator()]),
        every_regulator_grants(spec_csrc_license_types(), seq![spec_csrc_regulator()]),
        regulators_in_country(seq![spec_csrc_regulator()], "cn"@),
{
    assert(complete_each(spec_csrc_license_types())) by {
        reveal_strlit("cn-csrc:securities-company");
        reveal_strlit("Securities Company License");
        reveal_strlit("License to operate as a securities company (broker-dealer)");
        reveal_strlit("cn-csrc");
        reveal_strlit("cn-csrc:fund-management");
        reveal_strlit("Fund Management Company License");
        reveal_strlit("License to manage public and private investment funds");
        reveal_strlit("cn-csrc:futures-company");
        reveal_strlit("Futures Company License");
        reveal_strlit("License to operate as a futures brokerage company");
        reveal_strlit("cn-csrc:investment-advisory");
        reveal_strlit("Securities Investment Advisory License");
        reveal_strlit("License to provide securities investment advisory services");
        reveal_with_fuel(complete_each, 5);
    }
    lemma_complete_each(spec_csrc_license_types());
    assert(granted_by_each(spec_csrc_license_types(), seq![spec_csrc_regulator()][0].regulator_id)) by {
        reveal_with_fuel(granted_by_each, 5);
    }
    lemma_granted_by_each(spec_csrc_license_types(), seq![spec_csrc_regulator()], 0);
    assert(grants_some(spec_csrc_license_types(), seq![spec_csrc_regulator()][0].regulator_id)) by {
        assert(spec_csrc_license_types()[0].regulator_id == seq![spec_csrc_regulator()][0].regulator_id);
    }
    assert(grants_each(spec_csrc_license_types(), seq![spec_csrc_regulator()])) by {
        reveal_with_fuel(grants_each, 2);
    }
    lemma_grants_each(spec_csrc_license_types(), seq![spec_csrc_regulator()]);
    assert(has_prefix("cn"@, "cn"@)) by {
        reveal_strlit("cn");
        reveal_strlit("cn");
        assert("cn"@.subrange(0, 2) =~= "cn"@);
    }
    assert(in_country_each(seq![spec_csrc_regulator()], "cn"@)) by {
        reveal_with_fuel(in_country_each, 2);
    }
    lemma_in_country_each(seq![spec_csrc_regulator()], "cn"@);
}

/// The licence types of `safe_license_types` are complete, granted by its regulators, and
/// each of its regulators grants at least one of them.
proof fn lemma_safe_group()
    ensures
        license_types_complete(spec_safe_license_types()),
        granted_by_listed_regulators(spec_safe_license_types(), seq![spec_safe_regulator()]),
        every_regulator_grants(spec_safe_license_types(), seq![spec_safe_regulator()]),
        regulators_in_country(seq![spec_safe_regulator()], "cn"@),
{
    assert(complete_each(spec_safe_license_types())) by {
        reveal_strlit("cn-safe:forex-trading");
        reveal_strlit("Foreign Exchange Trading License");
        reveal_strlit("License to conduct foreign exchange trading and settlement");
        reveal_strlit("cn-safe");
        reveal_strlit("cn-safe:cross-border-investment");
        reveal_strlit("Cross-Border Investment Registration");
        reveal_strlit("Registration for qualified cross-border investment activities");
        reveal_with_fuel(complete_each, 3);
    }
    lemma_complete_each(spec_safe_license_types());
    assert(granted_by_each(spec_safe_license_types(), seq![spec_safe_regulator()][0].regulator_id)) by {
        reveal_with_fuel(granted_by_each, 3);
    }
    lemma_granted_by_each(spec_safe_license_types(), seq![spec_safe_regulator()], 0);
    assert(grants_some(spec_safe_license_types(), seq![spec_safe_regulator()][0].regulator_id)) by {
        assert(spec_safe_license_types()[0].regulator_id == seq![spec_safe_regulator()][0].regulator_id);
    }
    assert(grants_each(spec_safe_license_types(), seq![spec_safe_regulator()])) by {
        reveal_with_fuel(grants_each, 2);
    }
    lemma_grants_each(spec_safe_license_types(), seq![spec_safe_regulator()]);
    assert(has_prefix("cn"@, "cn"@)) by {
        reveal_strlit("cn");
        reveal_strlit("cn");
        assert("cn"@.subrange(0, 2) =~= "cn"@);
    }
    assert(in_country_each(seq![spec_safe_regulator()], "cn"@)) by {
        reveal_with_fuel(in_country_each, 2);
    }
    lemma_in_country_each(seq![spec_safe_regulator()], "cn"@);
}

/// The licence types of `hainan_ftp_license_types` are complete, granted by its regulators, and
/// each of its regulators grants at least one of them.
proof fn lemma_hainan_ftp_group()
    ensures
        license_types_complete(spec_hainan_ftp_license_types()),
        granted_by_listed_regulators(spec_hainan_ftp_license_types(), seq![spec_hainan_ftp_regulator()]),
        every_regulator_grants(spec_hainan_ftp_license_types(), seq![spec_hainan_ftp_regulator()]),
        regulators_in_country(seq![spec_hainan_ftp_regulator()], "cn"@),
{
    assert(complete_each(spec_hainan_ftp_license_types())) by {
        reveal_strlit("cn-hainan-ftp:cross-border-trade");
        reveal_strlit("Cross-Border Trade License");
        reveal_strlit("License for cross-border trade operations within the Hainan FTP");
        reveal_strlit("cn-hainan-ftp");
        reveal_strlit("cn-hainan-ftp:negative-list-sector");
        reveal_strlit("Negative List Sector Approval");
        reveal_strlit("Special approval for foreign investment in negative list sectors within Hainan FTP");
        reveal_strlit("cn-hainan-ftp:qflp");
        reveal_strlit("Qualified Foreign Limited Partner (QFLP) License");
        reveal_strlit("License for qualified foreign LPs to invest in domestic PE/VC funds via Hainan");
        reveal_strlit("cn-hainan-ftp:qdlp");
        reveal_strlit("Qualified Domestic Limited Partner (QDLP) License");
        reveal_strlit("License for domestic LPs to invest in overseas funds via Hainan FTP");
        reveal_with_fuel(complete_each, 5);
    }
    lemma_complete_each(spec_hainan_ftp_license_types());
    assert(granted_by_each(spec_hainan_ftp_license_types(), seq![spec_hainan_ftp_regulator()][0].regulator_id)) by {
        reveal_with_fuel(granted_by_each, 5);
    }
    lemma_granted_by_each(spec_hainan_ftp_license_types(), seq![spec_hainan_ftp_regulator()], 0);
    assert(grants_some(spec_hainan_ftp_license_types(), seq![spec_hainan_ftp_regulator()][0].regulator_id)) by {
        assert(spec_hainan_ftp_license_types()[0].regulator_id == seq![spec_hainan_ftp_regulator()][0].regulator_id);
    }
    assert(grants_each(spec_hainan_ftp_license_types(), seq![spec_hainan_ftp_regulator()])) by {
        reveal_with_fuel(grants_each, 2);
    }
    lemma_grants_each(spec_hainan_ftp_license_types(), seq![spec_hainan_ftp_regulator()]);
    assert(has_prefix("cn-hainan"@, "cn"@)) by {
        reveal_strlit("cn-hainan");
        reveal_strlit("cn");
        assert("cn-hainan"@.subrange(0, 2) =~= "cn"@);
    }
    assert(in_country_each(seq![spec_hainan_ftp_regulator()], "cn"@)) by {
        reveal_with_fuel(in_country_each, 2);
    }
    lemma_in_country_each(seq![spec_hainan_ftp_regulator()], "cn"@);
}

/// The licence types of `hangzhou_cb_license_types` are complete, granted by its regulators, and
/// each of its regulators grants at least one of them.
proof fn lemma_hangzhou_cb_group()
    ensures
        license_types_complete(spec_hangzhou_cb_license_types()),
        granted_by_listed_regulators(spec_hangzhou_cb_license_types(), seq![spec_hangzhou_cb_regulator()]),
        every_regulator_grants(spec_hangzhou_cb_license_types(), seq![spec_hangzhou_cb_regulator()]),
        regulators_in_country(seq![spec_hangzhou_cb_regulator()], "cn"@),
{
    assert(complete_each(spec_hangzhou_cb_license_types())) by {
        reveal_strlit("cn-hangzhou-cb:cross-border-ecommerce");
        reveal_strlit("Cross-Border E-Commerce Pilot License");
        reveal_strlit("License for cross-border e-commerce operations under the Hangzhou CBEC pilot zone");
        reveal_strlit("cn-hangzhou-cb");
        reveal_strlit("cn-hangzhou-cb:digital-trade");
        reveal_strlit("Digital Trade License");
        reveal_strlit("License for digital trade services in the Hangzhou digital economy zone");
        reveal_with_fuel(complete_each, 3);
    }
    lemma_complete_each(spec_hangzhou_cb_license_types());
    assert(granted_by_each(spec_hangzhou_cb_license_types(), seq![spec_hangzhou_cb_regulator()][0].regulator_id)) by {
        reveal_with_fuel(granted_by_each, 3);
    }
    lemma_granted_by_each(spec_hangzhou_cb_license_types(), seq![spec_hangzhou_cb_regulator()], 0);
    assert(grants_some(spec_hangzhou_cb_license_types(), seq![spec_hangzhou_cb_regulator()][0].regulator_id)) by {
        assert(spec_hangzhou_cb_license_types()[0].regulator_id == seq![spec_hangzhou_cb_regulator()][0].regulator_id);
    }
    assert(grants_each(spec_hangzhou_cb_license_types(), seq![spec_hangzhou_cb_regulator()])) by {
        reveal_with_fuel(grants_each, 2);
    }
    lemma_grants_each(spec_hangzhou_cb_license_types(), seq![spec_hangzhou_cb_regulator()]);
    assert(has_prefix("cn-hangzhou"@, "cn"@)) by {
        reveal_strlit("cn-hangzhou");
        reveal_strlit("cn");
        assert("cn-hangzhou"@.subrange(0, 2) =~= "cn"@);
    }
    assert(in_country_each(seq![spec_hangzhou_cb_regulator()], "cn"@)) by {
        reveal_with_fuel(in_country_each, 2);
    }
    lemma_in_country_each(seq![spec_hangzhou_cb_regulator()], "cn"@);
}

/// The licence types of `shenzhen_frb_license_types` are complete, granted by its regulators, and
/// each of its regulators grants at least one of them.
proof fn lemma_shenzhen_frb_group()
    ensures
        license_types_complete(spec_shenzhen_frb_license_types()),
        granted_by_listed_regulators(spec_shenzhen_frb_license_types(), seq![spec_shenzhen_frb_regulator()]),
        every_regulator_grants(spec_shenzhen_frb_license_types(), seq![spec_shenzhen_frb_regulator()]),
        regulators_in_country(seq![spec_shenzhen_frb_regulator()], "cn"@),
{
    assert(complete_each(spec_shenzhen_frb_license_types())) by {
        reveal_strlit("cn-shenzhen-frb:fintech-sandbox");
        reveal_strlit("Fintech Regulatory Sandbox License");
        reveal_strlit("License to operate within the Shenzhen fintech regulatory sandbox program");
        reveal_strlit("cn-shenzhen-frb");
        reveal_strlit("cn-shenzhen-frb:digital-rmb-pilot");
        reveal_strlit("Digital RMB Pilot Operator License");
        reveal_strlit("License to participate as an operator in the digital RMB (e-CNY) pilot program");
        reveal_strlit("cn-shenzhen-frb:qianhai-cooperation");
        reveal_strlit("Qianhai Cooperation Zone Financial License");
        reveal_strlit("License for financial services within the Qianhai Shenzhen-Hong Kong cooperation zone");
        reveal_strlit("cn-shenzhen-frb:digital-asset-pilot");
        reveal_strlit("Digital Asset Pilot License");
        reveal_strlit("Pilot license for digital asset services under Shenzhen EZ innovation framework");
        reveal_with_fuel(complete_each, 5);
    }
    lemma_complete_each(spec_shenzhen_frb_license_types());
    assert(granted_by_each(spec_shenzhen_frb_license_types(), seq![spec_shenzhen_frb_regulator()][0].regulator_id)) by {
        reveal_with_fuel(granted_by_each, 5);
    }
    lemma_granted_by_each(spec_shenzhen_frb_license_types(), seq![spec_shenzhen_frb_regulator()], 0);
    assert(grants_some(spec_shenzhen_frb_license_types(), seq![spec_shenzhen_frb_regulator()][0].regulator_id)) by {
        assert(spec_shenzhen_frb_license_types()[0].regulator_id == seq![spec_shenzhen_frb_regulator()][0].regulator_id);
    }
    assert(grants_each(spec_shenzhen_frb_license_types(), seq![spec_shenzhen_frb_regulator()])) by {
        reveal_with_fuel(grants_each, 2);
    }
    lemma_grants_each(spec_shenzhen_frb_license_types(), seq![spec_shenzhen_frb_regulator()]);
    assert(has_prefix("cn-shenzhen"@, "cn"@)) by {
        reveal_strlit("cn-shenzhen");
        reveal_strlit("cn");
        assert("cn-shenzhen"@.subrange(0, 2) =~= "cn"@);
    }
    assert(in_country_each(seq![spec_shenzhen_frb_regulator()], "cn"@)) by {
        reveal_with_fuel(in_country_each, 2);
    }
    lemma_in_country_each(seq![spec_shenzhen_frb_regulator()], "cn"@);
}

/// The licence types of `shanghai_ftz_license_types` are complete, granted by its regulators, and
/// each of its regulators grants at least one of them.
proof fn lemma_shanghai_ftz_group()
    ensures
        license_types_complete(spec_shanghai_ftz_license_types()),
        granted_by_listed_regulators(spec_shanghai_ftz_license_types(), seq![spec_shanghai_ftz_regulator()]),
        every_regulator_grants(spec_shanghai_ftz_license_types(), seq![spec_shanghai_ftz_regulator()]),
        regulators_in_country(seq![spec_shanghai_ftz_regulator()], "cn"@),
{
    assert(complete_each(spec_shanghai_ftz_license_types())) by {
        reveal_strlit("cn-shanghai-ftz:business-registration");
        reveal_strlit("FTZ Business Registration");
        reveal_strlit("Business registration within the Shanghai Free Trade Zone");
        reveal_strlit("cn-shanghai-ftz");
        reveal_strlit("cn-shanghai-ftz:wfoe");
        reveal_strlit("Wholly Foreign-Owned Enterprise (WFOE) Registration");
        reveal_strlit("Registration of a WFOE within the Shanghai FTZ under simplified procedures");
        reveal_strlit("cn-shanghai-ftz:financial-innovation");
        reveal_strlit("Financial Innovation Pilot License");
        reveal_strlit("Pilot license for innovative financial services within the Shanghai FTZ");
        reveal_with_fuel(complete_each, 4);
    }
    lemma_complete_each(spec_shanghai_ftz_license_types());
    assert(granted_by_each(spec_shanghai_ftz_license_types(), seq![spec_shanghai_ftz_regulator()][0].regulator_id)) by {
        reveal_with_fuel(granted_by_each, 4);
    }
    lemma_granted_by_each(spec_shanghai_ftz_license_types(), seq![spec_shanghai_ftz_regulator()], 0);
    assert(grants_some(spec_shanghai_ftz_license_types(), seq![spec_shanghai_ftz_regulator()][0].regulator_id)) by {
        assert(spec_shanghai_ftz_license_types()[0].regulator_id == seq![spec_shanghai_ftz_regulator()][0].regulator_id);
    }
    assert(grants_each(spec_shanghai_ftz_license_types(), seq![spec_shanghai_ftz_regulator()])) by {
        reveal_with_fuel(grants_each, 2);
    }
    lemma_grants_each(spec_shanghai_ftz_license_types(), seq![spec_shanghai_ftz_regulator()]);
    assert(has_prefix("cn-shanghai"@, "cn"@)) by {
        reveal_strlit("cn-shanghai");
        reveal_strlit("cn");
        assert("cn-shanghai"@.subrange(0, 2) =~= "cn"@);
    }
    assert(in_country_each(seq![spec_shanghai_ftz_regulator()], "cn"@)) by {
        reveal_with_fuel(in_country_each, 2);
    }
    lemma_in_country_each(seq![spec_shanghai_ftz_regulator()], "cn"@);
}

/// The licence types of `shanghai_frb_license_types` are complete, granted by its regulators, and
/// each of its regulators grants at least one of them.
proof fn lemma_shanghai_frb_group()
    ensures
        license_types_complete(spec_shanghai_frb_license_types()),
        granted_by_listed_regulators(spec_shanghai_frb_license_types(), seq![spec_shanghai_frb_regulator()]),
        every_regulator_grants(spec_shanghai_frb_license_types(), seq![spec_shanghai_frb_regulator()]),
        regulators_in_country(seq![spec_shanghai_frb_regulator()], "cn"@),
{
    assert(complete_each(spec_shanghai_frb_license_types())) by {
        reveal_strlit("cn-shanghai-frb:local-financial-org");
        reveal_strlit("Local Financial Organization License");
        reveal_strlit("License for local financial organizations including small loan and guarantee companies");
        reveal_strlit("cn-shanghai-frb");
        reveal_strlit("cn-shanghai-frb:fintech-pilot");
        reveal_strlit("Shanghai Fintech Pilot License");
        reveal_strlit("License for fintech pilot programs under Shanghai financial regulatory oversight");
        reveal_with_fuel(complete_each, 3);
    }
    lemma_complete_each(spec_shanghai_frb_license_types());
    assert(granted_by_each(spec_shanghai_frb_license_types(), seq![spec_shanghai_frb_regulator()][0].regulator_id)) by {
        reveal_with_fuel(granted_by_each, 3);
    }
    lemma_granted_by_each(spec_shanghai_frb_license_types(), seq![spec_shanghai_frb_regulator()], 0);
    assert(grants_some(spec_shanghai_frb_license_types(), seq![spec_shanghai_frb_regulator()][0].regulator_id)) by {
        assert(spec_shanghai_frb_license_types()[0].regulator_id == seq![spec_shanghai_frb_regulator()][0].regulator_id);
    }
    assert(grants_each(spec_shanghai_frb_license_types(), seq![spec_shanghai_frb_regulator()])) by {
        reveal_with_fuel(grants_each, 2);
    }
    lemma_grants_each(spec_shanghai_frb_license_types(), seq![spec_shanghai_frb_regulator()]);
    assert(has_prefix("cn-shanghai"@, "cn"@)) by {
        reveal_strlit("cn-shanghai");
        reveal_strlit("cn");
        assert("cn-shanghai"@.subrange(0, 2) =~= "cn"@);
    }
    assert(in_country_each(seq![spec_shanghai_frb_regulator()], "cn"@)) by {
        reveal_with_fuel(in_country_each, 2);
    }
    lemma_in_country_each(seq![spec_shanghai_frb_regulator()], "cn"@);
}

/// The licence types of `beijing_frb_license_types` are complete, granted by its regulators, and
/// each of its regulators grants at least one of them.
proof fn lemma_beijing_frb_group()
    ensures
        license_types_complete(spec_beijing_frb_license_types()),
        granted_by_listed_regulators(spec_beijing_frb_license_types(), seq![spec_beijing_frb_regulator()]),
        every_regulator_grants(spec_beijing_frb_license_types(), seq![spec_beijing_frb_regulator()]),
        regulators_in_country(seq![spec_beijing_frb_regulator()], "cn"@),
{
    assert(complete_each(spec_beijing_frb_license_types())) by {
        reveal_strlit("cn-beijing-frb:fintech-sandbox");
        reveal_strlit("Beijing Fintech Regulatory Sandbox License");
        reveal_strlit("License for fintech innovation under the Beijing regulatory sandbox program");
        reveal_strlit("cn-beijing-frb");
        reveal_strlit("cn-beijing-frb:local-financial-org");
        reveal_strlit("Beijing Local Financial Organization License");
        reveal_strlit("License for local financial organizations operating in Beijing municipality");
        reveal_strlit("cn-beijing-frb:digital-asset-pilot");
        reveal_strlit("Beijing Digital Asset Pilot License");
        reveal_strlit("Pilot license for digital asset services under Beijing innovation framework");
        reveal_with_fuel(complete_each, 4);
    }
    lemma_complete_each(spec_beijing_frb_license_types());
    assert(granted_by_each(spec_beijing_frb_license_types(), seq![spec_beijing_frb_regulator()][0].regulator_id)) by {
        reveal_with_fuel(granted_by_each, 4);
    }
    lemma_granted_by_each(spec_beijing_frb_license_types(), seq![spec_beijing_frb_regulator()], 0);
    assert(grants_some(spec_beijing_frb_license_types(), seq![spec_beijing_frb_regulator()][0].regulator_id)) by {
        assert(spec_beijing_frb_license_types()[0].regulator_id == seq![spec_beijing_frb_regulator()][0].regulator_id);
    }
    assert(grants_each(spec_beijing_frb_license_types(), seq![spec_beijing_frb_regulator()])) by {
        reveal_with_fuel(grants_each, 2);
    }
    lemma_grants_each(spec_beijing_frb_license_types(), seq![spec_beijing_frb_regulator()]);
    assert(has_prefix("cn-beijing"@, "cn"@)) by {
        reveal_strlit("cn-beijing");
        reveal_strlit("cn");
        assert("cn-beijing"@.subrange(0, 2) =~= "cn"@);
    }
    assert(in_country_each(seq![spec_beijing_frb_regulator()], "cn"@)) by {
        reveal_with_fuel(in_country_each, 2);
    }
    lemma_in_country_each(seq![spec_beijing_frb_regulator()], "cn"@);
}

/// The catalog of China is consistent: every licence type has a non-empty identifier, name, description and
/// regulator identifier, a category, and at least one permitted activity;
/// every licence type is granted by one of its regulators;
/// every regulator grants at least one licence type;
/// every regulator belongs to a jurisdiction whose identifier starts with `cn`.
pub proof fn lemma_china_catalog_consistent()
    ensures
        license_types_complete(spec_china_license_types()),
        granted_by_listed_regulators(spec_china_license_types(), spec_china_regulators()),
        every_regulator_grants(spec_china_license_types(), spec_china_regulators()),
        regulators_in_country(spec_china_regulators(), "cn"@),
{
    lemma_pboc_group();
    lemma_nfra_group();
    lemma_csrc_group();
    lemma_safe_group();
    lemma_hainan_ftp_group();
    lemma_hangzhou_cb_group();
    lemma_shenzhen_frb_group();
    lemma_shanghai_ftz_group();
    lemma_shanghai_frb_group();
    lemma_beijing_frb_group();
    assert(spec_china_regulators() =~= seq![spec_pboc_regulator()] + seq![spec_nfra_regulator()] + seq![spec_csrc_regulator()] + seq![spec_safe_regulator()] + seq![spec_hainan_ftp_regulator()] + seq![spec_hangzhou_cb_regulator()] + seq![spec_shenzhen_frb_regulator()] + seq![spec_shanghai_ftz_regulator()] + seq![spec_shanghai_frb_regulator()] + seq![spec_beijing_frb_regulator()]);
    assert(spec_china_license_types() =~= spec_pboc_license_types() + spec_nfra_license_types() + spec_csrc_license_types() + spec_safe_license_types() + spec_hainan_ftp_license_types() + spec_hangzhou_cb_license_types() + spec_shenzhen_frb_license_types() + spec_shanghai_ftz_license_types() + spec_shanghai_frb_license_types() + spec_beijing_frb_license_types());
    lemma_complete_append(spec_pboc_license_types(), spec_nfra_license_types());
    lemma_granted_combine(spec_pboc_license_types(), seq![spec_pboc_regulator()], spec_nfra_license_types(), seq![spec_nfra_regulator()]);
    lemma_every_combine(spec_pboc_license_types(), seq![spec_pboc_regulator()], spec_nfra_license_types(), seq![spec_nfra_regulator()]);
    lemma_in_country_append(seq![spec_pboc_regulator()], seq![spec_nfra_regulator()], "cn"@);
    lemma_complete_append(spec_pboc_license_types() + spec_nfra_license_types(), spec_csrc_license_types());
    lemma_granted_combine(spec_pboc_license_types() + spec_nfra_license_types(), seq![spec_pboc_regulator()] + seq![spec_nfra_regulator()], spec_csrc_license_types(), seq![spec_csrc_regulator()]);
    lemma_every_combine(spec_pboc_license_types() + spec_nfra_license_types(), seq![spec_pboc_regulator()] + seq![spec_nfra_regulator()], spec_csrc_license_types(), seq![spec_csrc_regulator()]);
    lemma_in_country_append(seq![spec_pboc_regulator()] + seq![spec_nfra_regulator()], seq![spec_csrc_regulator()], "cn"@);
    lemma_complete_append(spec_pboc_license_types() + spec_nfra_license_types() + spec_csrc_license_types(), spec_safe_license_types());
    lemma_granted_combine(spec_pboc_license_types() + spec_nfra_license_types() + spec_csrc_license_types(), seq![spec_pboc_regulator()] + seq![spec_nfra_regulator()] + seq![spec_csrc_regulator()], spec_safe_license_types(), seq![spec_safe_regulator()]);
    lemma_every_combine(spec_pboc_license_types() + spec_nfra_license_types() + spec_csrc_license_types(), seq![spec_pboc_regulator()] + seq![spec_nfra_regulator()] + seq![spec_csrc_regulator()], spec_safe_license_types(), seq![spec_safe_regulator()]);
    lemma_in_country_append(seq![spec_pboc_regulator()] + seq![spec_nfra_regulator()] + seq![spec_csrc_regulator()], seq![spec_safe_regulator()], "cn"@);
    lemma_complete_append(spec_pboc_license_types() + spec_nfra_license_types() + spec_csrc_license_types() + spec_safe_license_types(), spec_hainan_ftp_license_types());
    lemma_granted_combine(spec_pboc_license_types() + spec_nfra_license_types() + spec_csrc_license_types() + spec_safe_license_types(), seq![spec_pboc_regulator()] + seq![spec_nfra_regulator()] + seq![spec_csrc_regulator()] + seq![spec_safe_regulator()], spec_hainan_ftp_license_types(), seq![spec_hainan_ftp_regulator()]);
    lemma_every_combine(spec_pboc_license_types() + spec_nfra_license_types() + spec_csrc_license_types() + spec_safe_license_types(), seq![spec_pboc_regulator()] + seq![spec_nfra_regulator()] + seq![spec_csrc_regulator()] + seq![spec_safe_regulator()], spec_hainan_ftp_license_types(), seq![spec_hainan_ftp_regulator()]);
    lemma_in_country_append(seq![spec_pboc_regulator()] + seq![spec_nfra_regulator()] + seq![spec_csrc_regulator()] + seq![spec_safe_regulator()], seq![spec_hainan_ftp_regulator()], "cn"@);
    lemma_complete_append(spec_pboc_license_types() + spec_nfra_license_types() + spec_csrc_license_types() + spec_safe_license_types() + spec_hainan_ftp_license_types(), spec_hangzhou_cb_license_types());
    lemma_granted_combine(spec_pboc_license_types() + spec_nfra_license_types() + spec_csrc_license_types() + spec_safe_license_types() + spec_hainan_ftp_license_types(), seq![spec_pboc_regulator()] + seq![spec_nfra_regulator()] + seq![spec_csrc_regulator()] + seq![spec_safe_regulator()] + seq![spec_hainan_ftp_regulator()], spec_hangzhou_cb_license_types(), seq![spec_hangzhou_cb_regulator()]);
    lemma_every_combine(spec_pboc_license_types() + spec_nfra_license_types() + spec_csrc_license_types() + spec_safe_license_types() + spec_hainan_ftp_license_types(), seq![spec_pboc_regulator()] + seq![spec_nfra_regulator()] + seq![spec_csrc_regulator()] + seq![spec_safe_regulator()] + seq![spec_hainan_ftp_regulator()], spec_hangzhou_cb_license_types(), seq![spec_hangzhou_cb_regulator()]);
    lemma_in_country_append(seq![spec_pboc_regulator()] + seq![spec_nfra_regulator()] + seq![spec_csrc_regulator()] + seq![spec_safe_regulator()] + seq![spec_hainan_ftp_regulator()], seq![spec_hangzhou_cb_regulator()], "cn"@);
    lemma_complete_append(spec_pboc_license_types() + spec_nfra_license_types() + spec_csrc_license_types() + spec_safe_license_types() + spec_hainan_ftp_license_types() + spec_hangzhou_cb_license_types(), spec_shenzhen_frb_license_types());
    lemma_granted_combine(spec_pboc_license_types() + spec_nfra_license_types() + spec_csrc_license_types() + spec_safe_license_types() + spec_hainan_ftp_license_types() + spec_hangzhou_cb_license_types(), seq![spec_pboc_regulator()] + seq![spec_nfra_regulator()] + seq![spec_csrc_regulator()] + seq![spec_safe_regulator()] + seq![spec_hainan_ftp_regulator()] + seq![spec_hangzhou_cb_regulator()], spec_shenzhen_frb_license_types(), seq![spec_shenzhen_frb_regulator()]);
    lemma_every_combine(spec_pboc_license_types() + spec_nfra_license_types() + spec_csrc_license_types() + spec_safe_license_types() + spec_hainan_ftp_license_types() + spec_hangzhou_cb_license_types(), seq![spec_pboc_regulator()] + seq![spec_nfra_regulator()] + seq![spec_csrc_regulator()] + seq![spec_safe_regulator()] + seq![spec_hainan_ftp_regulator()] + seq![spec_hangzhou_cb_regulator()], spec_shenzhen_frb_license_types(), seq![spec_shenzhen_frb_regulator()]);
    lemma_in_country_append(seq![spec_pboc_regulator()] + seq![spec_nfra_regulator()] + seq![spec_csrc_regulator()] + seq![spec_safe_regulator()] + seq![spec_hainan_ftp_regulator()] + seq![spec_hangzhou_cb_regulator()], seq![spec_shenzhen_frb_regulator()], "cn"@);
    lemma_complete_append(spec_pboc_license_types() + spec_nfra_license_types() + spec_csrc_license_types() + spec_safe_license_types() + spec_hainan_ftp_license_types() + spec_hangzhou_cb_license_types() + spec_shenzhen_frb_license_types(), spec_shanghai_ftz_license_types());
    lemma_granted_combine(spec_pboc_license_types() + spec_nfra_license_types() + spec_csrc_license_types() + spec_safe_license_types() + spec_hainan_ftp_license_types() + spec_hangzhou_cb_license_types() + spec_shenzhen_frb_license_types(), seq![spec_pboc_regulator()] + seq![spec_nfra_regulator()] + seq![spec_csrc_regulator()] + seq![spec_safe_regulator()] + seq![spec_hainan_ftp_regulator()] + seq![spec_hangzhou_cb_regulator()] + seq![spec_shenzhen_frb_regulator()], spec_shanghai_ftz_license_types(), seq![spec_shanghai_ftz_regulator()]);
    lemma_every_combine(spec_pboc_license_types() + spec_nfra_license_types() + spec_csrc_license_types() + spec_safe_license_types() + spec_hainan_ftp_license_types() + spec_hangzhou_cb_license_types() + spec_shenzhen_frb_license_types(), seq![spec_pboc_regulator()] + seq![spec_nfra_regulator()] + seq![spec_csrc_regulator()] + seq![spec_safe_regulator()] + seq![spec_hainan_ftp_regulator()] + seq![spec_hangzhou_cb_regulator()] + seq![spec_shenzhen_frb_regulator()], spec_shanghai_ftz_license_types(), seq![spec_shanghai_ftz_regulator()]);
    lemma_in_country_append(seq![spec_pboc_regulator()] + seq![spec_nfra_regulator()] + seq![spec_csrc_regulator()] + seq![spec_safe_regulator()] + seq![spec_hainan_ftp_regulator()] + seq![spec_hangzhou_cb_regulator()] + seq![spec_shenzhen_frb_regulator()], seq![spec_shanghai_ftz_regulator()], "cn"@);
    lemma_complete_append(spec_pboc_license_types() + spec_nfra_license_types() + spec_csrc_license_types() + spec_safe_license_types() + spec_hainan_ftp_license_types() + spec_hangzhou_cb_license_types() + spec_shenzhen_frb_license_types() + spec_shanghai_ftz_license_types(), spec_shanghai_frb_license_types());
    lemma_granted_combine(spec_pboc_license_types() + spec_nfra_license_types() + spec_csrc_license_types() + spec_safe_license_types() + spec_hainan_ftp_license_types() + spec_hangzhou_cb_license_types() + spec_shenzhen_frb_license_types() + spec_shanghai_ftz_license_types(), seq![spec_pboc_regulator()] + seq![spec_nfra_regulator()] + seq![spec_csrc_regulator()] + seq![spec_safe_regulator()] + seq![spec_hainan_ftp_regulator()] + seq![spec_hangzhou_cb_regulator()] + seq![spec_shenzhen_frb_regulator()] + seq![spec_shanghai_ftz_regulator()], spec_shanghai_frb_license_types(), seq![spec_shanghai_frb_regulator()]);
    lemma_every_combine(spec_pboc_license_types() + spec_nfra_license_types() + spec_csrc_license_types() + spec_safe_license_types() + spec_hainan_ftp_license_types() + spec_hangzhou_cb_license_types() + spec_shenzhen_frb_license_types() + spec_shanghai_ftz_license_types(), seq![spec_pboc_regulator()] + seq![spec_nfra_regulator()] + seq![spec_csrc_regulator()] + seq![spec_safe_regulator()] + seq![spec_hainan_ftp_regulator()] + seq![spec_hangzhou_cb_regulator()] + seq![spec_shenzhen_frb_regulator()] + seq![spec_shanghai_ftz_regulator()], spec_shanghai_frb_license_types(), seq![spec_shanghai_frb_regulator()]);
    lemma_in_country_append(seq![spec_pboc_regulator()] + seq![spec_nfra_regulator()] + seq![spec_csrc_regulator()] + seq![spec_safe_regulator()] + seq![spec_hainan_ftp_regulator()] + seq![spec_hangzhou_cb_regulator()] + seq![spec_shenzhen_frb_regulator()] + seq![spec_shanghai_ftz_regulator()], seq![spec_shanghai_frb_regulator()], "cn"@);
    lemma_complete_append(spec_pboc_license_types() + spec_nfra_license_types() + spec_csrc_license_types() + spec_safe_license_types() + spec_hainan_ftp_license_types() + spec_hangzhou_cb_license_types() + spec_shenzhen_frb_license_types() + spec_shanghai_ftz_license_types() + spec_shanghai_frb_license_types(), spec_beijing_frb_license_types());
    lemma_granted_combine(spec_pboc_license_types() + spec_nfra_license_types() + spec_csrc_license_types() + spec_safe_license_types() + spec_hainan_ftp_license_types() + spec_hangzhou_cb_license_types() + spec_shenzhen_frb_license_types() + spec_shanghai_ftz_license_types() + spec_shanghai_frb_license_types(), seq![spec_pboc_regulator()] + seq![spec_nfra_regulator()] + seq![spec_csrc_regulator()] + seq![spec_safe_regulator()] + seq![spec_hainan_ftp_regulator()] + seq![spec_hangzhou_cb_regulator()] + seq![spec_shenzhen_frb_regulator()] + seq![spec_shanghai_ftz_regulator()] + seq![spec_shanghai_frb_regulator()], spec_beijing_frb_license_types(), seq![spec_beijing_frb_regulator()]);
    lemma_every_combine(spec_pboc_license_types() + spec_nfra_license_types() + spec_csrc_license_types() + spec_safe_license_types() + spec_hainan_ftp_license_types() + spec_hangzhou_cb_license_types() + spec_shenzhen_frb_license_types() + spec_shanghai_ftz_license_types() + spec_shanghai_frb_license_types(), seq![spec_pboc_regulator()] + seq![spec_nfra_regulator()] + seq![spec_csrc_regulator()] + seq![spec_safe_regulator()] + seq![spec_hainan_ftp_regulator()] + seq![spec_hangzhou_cb_regulator()] + seq![spec_shenzhen_frb_regulator()] + seq![spec_shanghai_ftz_regulator()] + seq![spec_shanghai_frb_regulator()], spec_beijing_frb_license_types(), seq![spec_beijing_frb_regulator()]);
    lemma_in_country_append(seq![spec_pboc_regulator()] + seq![spec_nfra_regulator()] + seq![spec_csrc_regulator()] + seq![spec_safe_regulator()] + seq![spec_hainan_ftp_regulator()] + seq![spec_hangzhou_cb_regulator()] + seq![spec_shenzhen_frb_regulator()] + seq![spec_shanghai_ftz_regulator()] + seq![spec_shanghai_frb_regulator()], seq![spec_beijing_frb_regulator()], "cn"@);
}

/// No two licence types of `pboc_license_types` share an identifier.
proof fn lemma_pboc_license_types_ids_distinct()
    ensures
        license_type_ids_distinct(spec_pboc_license_types()),
{
    let t = spec_pboc_license_types();
    assert(ids_distinct_each(t)) by {
        reveal_strlit("cn-pboc:credit-reporting");
        reveal_strlit("cn-pboc:cross-border-payment");
        reveal_strlit("cn-pboc:payment-institution");
        assert(t[0].license_type_id[8] != t[1].license_type_id[8]);
        assert(t[0].license_type_id[8] != t[2].license_type_id[8]);
        assert(t[1].license_type_id[10] != t[2].license_type_id[10]);
        reveal_with_fuel(ids_distinct_each, 4);
        reveal_with_fuel(id_fresh_each, 4);
    }
    lemma_ids_distinct_each(t);
}

/// No two licence types of `nfra_license_types` share an identifier.
proof fn lemma_nfra_license_types_ids_distinct()
    ensures
        license_type_ids_distinct(spec_nfra_license_types()),
{
    let t = spec_nfra_license_types();
    assert(ids_distinct_each(t)) by {
        reveal_strlit("cn-nfra:commercial-bank");
        reveal_strlit("cn-nfra:consumer-finance");
        reveal_strlit("cn-nfra:insurance-company");
        reveal_strlit("cn-nfra:trust-company");
        assert(t[0].license_type_id[8] != t[1].license_type_id[8]);
        assert(t[0].license_type_id[8] != t[2].license_type_id[8]);
        assert(t[1].license_type_id[8] != t[2].license_type_id[8]);
        assert(t[0].license_type_id[10] != t[3].license_type_id[10]);
        assert(t[1].license_type_id[8] != t[3].license_type_id[8]);
        assert(t[2].license_type_id[8] != t[3].license_type_id[8]);
        reveal_with_fuel(ids_distinct_each, 5);
        reveal_with_fuel(id_fresh_each, 5);
    }
    lemma_ids_distinct_each(t);
}

/// No two licence types of `csrc_license_types` share an identifier.
proof fn lemma_csrc_license_types_ids_distinct()
    ensures
        license_type_ids_distinct(spec_csrc_license_types()),
{
    let t = spec_csrc_license_types();
    assert(ids_distinct_each(t)) by {
        reveal_strlit("cn-csrc:fund-management");
        reveal_strlit("cn-csrc:futures-company");
        reveal_strlit("cn-csrc:investment-advisory");
        reveal_strlit("cn-csrc:securities-company");
        assert(t[0].license_type_id[8] != t[1].license_type_id[8]);
        assert(t[0].license_type_id[8] != t[2].license_type_id[8]);
        assert(t[1].license_type_id[10] != t[2].license_type_id[10]);
        assert(t[0].license_type_id[8] != t[3].license_type_id[8]);
        assert(t[1].license_type_id[8] != t[3].license_type_id[8]);
        assert(t[2].license_type_id[8] != t[3].license_type_id[8]);
        reveal_with_fuel(ids_distinct_each, 5);
        reveal_with_fuel(id_fresh_each, 5);
    }
    lemma_ids_distinct_each(t);
}

/// No two licence types of `safe_license_types` share an identifier.
proof fn lemma_safe_license_types_ids_distinct()
    ensures
        license_type_ids_distinct(spec_safe_license_types()),
{
    let t = spec_safe_license_types();
    assert(ids_distinct_each(t)) by {
        reveal_strlit("cn-safe:cross-border-investment");
        reveal_strlit("cn-safe:forex-trading");
        assert(t[0].license_type_id[8] != t[1].license_type_id[8]);
        reveal_with_fuel(ids_distinct_each, 3);
        reveal_with_fuel(id_fresh_each, 3);
    }
    lemma_ids_distinct_each(t);
}

/// No two licence types of `hainan_ftp_license_types` share an identifier.
proof fn lemma_hainan_ftp_license_types_ids_distinct()
    ensures
        license_type_ids_distinct(spec_hainan_ftp_license_types()),
{
    let t = spec_hainan_ftp_license_types();
    assert(ids_distinct_each(t)) by {
        reveal_strlit("cn-hainan-ftp:cross-border-trade");
        reveal_strlit("cn-hainan-ftp:negative-list-sector");
        reveal_strlit("cn-hainan-ftp:qdlp");
        reveal_strlit("cn-hainan-ftp:qflp");
        assert(t[0].license_type_id[14] != t[1].license_type_id[14]);
        assert(t[0].license_type_id[14] != t[2].license_type_id[14]);
        assert(t[1].license_type_id[14] != t[2].license_type_id[14]);
        assert(t[0].license_type_id[14] != t[3].license_type_id[14]);
        assert(t[1].license_type_id[14] != t[3].license_type_id[14]);
        assert(t[2].license_type_id[15] != t[3].license_type_id[15]);
        reveal_with_fuel(ids_distinct_each, 5);
        reveal_with_fuel(id_fresh_each, 5);
    }
    lemma_ids_distinct_each(t);
}

/// No two licence types of `hangzhou_cb_license_types` share an identifier.
proof fn lemma_hangzhou_cb_license_types_ids_distinct()
    ensures
        license_type_ids_distinct(spec_hangzhou_cb_license_types()),
{
    let t = spec_hangzhou_cb_license_types();
    assert(ids_distinct_each(t)) by {
        reveal_strlit("cn-hangzhou-cb:cross-border-ecommerce");
        reveal_strlit("cn-hangzhou-cb:digital-trade");
        assert(t[0].license_type_id[15] != t[1].license_type_id[15]);
        reveal_with_fuel(ids_distinct_each, 3);
        reveal_with_fuel(id_fresh_each, 3);
    }
    lemma_ids_distinct_each(t);
}

/// No two licence types of `shenzhen_frb_license_types` share an identifier.
proof fn lemma_shenzhen_frb_license_types_ids_distinct()
    ensures
        license_type_ids_distinct(spec_shenzhen_frb_license_types()),
{
    let t = spec_shenzhen_frb_license_types();
    assert(ids_distinct_each(t)) by {
        reveal_strlit("cn-shenzhen-frb:digital-asset-pilot");
        reveal_strlit("cn-shenzhen-frb:digital-rmb-pilot");
        reveal_strlit("cn-shenzhen-frb:fintech-sandbox");
        reveal_strlit("cn-shenzhen-frb:qianhai-cooperation");
        assert(t[0].license_type_id[16] != t[1].license_type_id[16]);
        assert(t[0].license_type_id[16] != t[2].license_type_id[16]);
        assert(t[1].license_type_id[16] != t[2].license_type_id[16]);
        assert(t[0].license_type_id[16] != t[3].license_type_id[16]);
        assert(t[1].license_type_id[24] != t[3].license_type_id[24]);
        assert(t[2].license_type_id[16] != t[3].license_type_id[16]);
        reveal_with_fuel(ids_distinct_each, 5);
        reveal_with_fuel(id_fresh_each, 5);
    }
    lemma_ids_distinct_each(t);
}

/// No two licence types of `shanghai_ftz_license_types` share an identifier.
proof fn lemma_shanghai_ftz_license_types_ids_distinct()
    ensures
        license_type_ids_distinct(spec_shanghai_ftz_license_types()),
{
    let t = spec_shanghai_ftz_license_types();
    assert(ids_distinct_each(t)) by {
        reveal_strlit("cn-shanghai-ftz:business-registration");
        reveal_strlit("cn-shanghai-ftz:financial-innovation");
        reveal_strlit("cn-shanghai-ftz:wfoe");
        assert(t[0].license_type_id[16] != t[1].license_type_id[16]);
        assert(t[0].license_type_id[16] != t[2].license_type_id[16]);
        assert(t[1].license_type_id[16] != t[2].license_type_id[16]);
        reveal_with_fuel(ids_distinct_each, 4);
        reveal_with_fuel(id_fresh_each, 4);
    }
    lemma_ids_distinct_each(t);
}

/// No two licence types of `shanghai_frb_license_types` share an identifier.
proof fn lemma_shanghai_frb_license_types_ids_distinct()
    ensures
        license_type_ids_distinct(spec_shanghai_frb_license_types()),
{
    let t = spec_shanghai_frb_license_types();
    assert(ids_distinct_each(t)) by {
        reveal_strlit("cn-shanghai-frb:fintech-pilot");
        reveal_strlit("cn-shanghai-frb:local-financial-org");
        assert(t[0].license_type_id[16] != t[1].license_type_id[16]);
        reveal_with_fuel(ids_distinct_each, 3);
        reveal_with_fuel(id_fresh_each, 3);
    }
    lemma_ids_distinct_each(t);
}

/// No two licence types of `beijing_frb_license_types` share an identifier.
proof fn lemma_beijing_frb_license_types_ids_distinct()
    ensures
        license_type_ids_distinct(spec_beijing_frb_license_types()),
{
    let t = spec_beijing_frb_license_types();
    assert(ids_distinct_each(t)) by {
        reveal_strlit("cn-beijing-frb:digital-asset-pilot");
        reveal_strlit("cn-beijing-frb:fintech-sandbox");
        reveal_strlit("cn-beijing-frb:local-financial-org");
        assert(t[0].license_type_id[15] != t[1].license_type_id[15]);
        assert(t[0].license_type_id[15] != t[2].license_type_id[15]);
        assert(t[1].license_type_id[15] != t[2].license_type_id[15]);
        reveal_with_fuel(ids_distinct_each, 4);
        reveal_with_fuel(id_fresh_each, 4);
    }
    lemma_ids_distinct_each(t);
}

/// No licence type of `pboc_license_types` shares an identifier with one of `nfra_license_types`.
proof fn lemma_pboc_license_types_apart_from_nfra_license_types()
    ensures
        license_type_ids_apart(spec_pboc_license_types(), spec_nfra_license_types()),
{
    let a = spec_pboc_license_types();
    let b = spec_nfra_license_types();
    assert(apart_each(a, b)) by {
        reveal_strlit("cn-nfra:commercial-bank");
        reveal_strlit("cn-nfra:consumer-finance");
        reveal_strlit("cn-nfra:insurance-company");
        reveal_strlit("cn-nfra:trust-company");
        reveal_strlit("cn-pboc:credit-reporting");
        reveal_strlit("cn-pboc:cross-border-payment");
        reveal_strlit("cn-pboc:payment-institution");
        assert(a[0].license_type_id[3] != b[0].license_type_id[3]);
        assert(a[0].license_type_id[3] != b[1].license_type_id[3]);
        assert(a[0].license_type_id[3] != b[2].license_type_id[3]);
        assert(a[0].license_type_id[3] != b[3].license_type_id[3]);
        assert(a[1].license_type_id[3] != b[0].license_type_id[3]);
        assert(a[1].license_type_id[3] != b[1].license_type_id[3]);
        assert(a[1].license_type_id[3] != b[2].license_type_id[3]);
        assert(a[1].license_type_id[3] != b[3].license_type_id[3]);
        assert(a[2].license_type_id[3] != b[0].license_type_id[3]);
        assert(a[2].license_type_id[3] != b[1].license_type_id[3]);
        assert(a[2].license_type_id[3] != b[2].license_type_id[3]);
        assert(a[2].license_type_id[3] != b[3].license_type_id[3]);
        reveal_with_fuel(apart_each, 4);
        reveal_with_fuel(id_fresh_each, 5);
    }
    lemma_apart_each(a, b);
}

/// No licence type of `pboc_license_types` shares an identifier with one of `csrc_license_types`.
proof fn lemma_pboc_license_types_apart_from_csrc_license_types()
    ensures
        license_type_ids_apart(spec_pboc_license_types(), spec_csrc_license_types()),
{
    let a = spec_pboc_license_types();
    let b = spec_csrc_license_types();
    assert(apart_each(a, b)) by {
        reveal_strlit("cn-csrc:fund-management");
        reveal_strlit("cn-csrc:futures-company");
        reveal_strlit("cn-csrc:investment-advisory");
        reveal_strlit("cn-csrc:securities-company");
        reveal_strlit("cn-pboc:credit-reporting");
        reveal_strlit("cn-pboc:cross-border-payment");
        reveal_strlit("cn-pboc:payment-institution");
        assert(a[0].license_type_id[3] != b[0].license_type_id[3]);
        assert(a[0].license_type_id[3] != b[1].license_type_id[3]);
        assert(a[0].license_type_id[3] != b[2].license_type_id[3]);
        assert(a[0].license_type_id[3] != b[3].license_type_id[3]);
        assert(a[1].license_type_id[3] != b[0].license_type_id[3]);
        assert(a[1].license_type_id[3] != b[1].license_type_id[3]);
        assert(a[1].license_type_id[3] != b[2].license_type_id[3]);
        assert(a[1].license_type_id[3] != b[3].license_type_id[3]);
        assert(a[2].license_type_id[3] != b[0].license_type_id[3]);
        assert(a[2].license_type_id[3] != b[1].license_type_id[3]);
        assert(a[2].license_type_id[3] != b[2].license_type_id[3]);
        assert(a[2].license_type_id[3] != b[3].license_type_id[3]);
        reveal_with_fuel(apart_each, 4);
        reveal_with_fuel(id_fresh_each, 5);
    }
    lemma_apart_each(a, b);
}

/// No licence type of `pboc_license_types` shares an identifier with one of `safe_license_types`.
proof fn lemma_pboc_license_types_apart_from_safe_license_types()
    ensures
        license_type_ids_apart(spec_pboc_license_types(), spec_safe_license_types()),
{
    let a = spec_pboc_license_types();
    let b = spec_safe_license_types();
    assert(apart_each(a, b)) by {
        reveal_strlit("cn-pboc:credit-reporting");
        reveal_strlit("cn-pboc:cross-border-payment");
        reveal_strlit("cn-pboc:payment-institution");
        reveal_strlit("cn-safe:cross-border-investment");
        reveal_strlit("cn-safe:forex-trading");
        assert(a[0].license_type_id[3] != b[0].license_type_id[3]);
        assert(a[0].license_type_id[3] != b[1].license_type_id[3]);
        assert(a[1].license_type_id[3] != b[0].license_type_id[3]);
        assert(a[1].license_type_id[3] != b[1].license_type_id[3]);
        assert(a[2].license_type_id[3] != b[0].license_type_id[3]);
        assert(a[2].license_type_id[3] != b[1].license_type_id[3]);
        reveal_with_fuel(apart_each, 4);
        reveal_with_fuel(id_fresh_each, 3);
    }
    lemma_apart_each(a, b);
}

/// No licence type of `pboc_license_types` shares an identifier with one of `hainan_ftp_license_types`.
proof fn lemma_pboc_license_types_apart_from_hainan_ftp_license_types()
    ensures
        license_type_ids_apart(spec_pboc_license_types(), spec_hainan_ftp_license_types()),
{
    let a = spec_pboc_license_types();
    let b = spec_hainan_ftp_license_types();
    assert(apart_each(a, b)) by {
        reveal_strlit("cn-hainan-ftp:cross-border-trade");
        reveal_strlit("cn-hainan-ftp:negative-list-sector");
        reveal_strlit("cn-hainan-ftp:qdlp");
        reveal_strlit("cn-hainan-ftp:qflp");
        reveal_strlit("cn-pboc:credit-reporting");
        reveal_strlit("cn-pboc:cross-border-payment");
        reveal_strlit("cn-pboc:payment-institution");
        assert(a[0].license_type_id[3] != b[0].license_type_id[3]);
        assert(a[0].license_type_id[3] != b[1].license_type_id[3]);
        assert(a[0].license_type_id[3] != b[2].license_type_id[3]);
        assert(a[0].license_type_id[3] != b[3].license_type_id[3]);
        assert(a[1].license_type_id[3] != b[0].license_type_id[3]);
        assert(a[1].license_type_id[3] != b[1].license_type_id[3]);
        assert(a[1].license_type_id[3] != b[2].license_type_id[3]);
        assert(a[1].license_type_id[3] != b[3].license_type_id[3]);
        assert(a[2].license_type_id[3] != b[0].license_type_id[3]);
        assert(a[2].license_type_id[3] != b[1].license_type_id[3]);
        assert(a[2].license_type_id[3] != b[2].license_type_id[3]);
        assert(a[2].license_type_id[3] != b[3].license_type_id[3]);
        reveal_with_fuel(apart_each, 4);
        reveal_with_fuel(id_fresh_each, 5);
    }
    lemma_apart_each(a, b);
}

/// No licence type of `pboc_license_types` shares an identifier with one of `hangzhou_cb_license_types`.
proof fn lemma_pboc_license_types_apart_from_hangzhou_cb_license_types()
    ensures
        license_type_ids_apart(spec_pboc_license_types(), spec_hangzhou_cb_license_types()),
{
    let a = spec_pboc_license_types();
    let b = spec_hangzhou_cb_license_types();
    assert(apart_each(a, b)) by {
        reveal_strlit("cn-hangzhou-cb:cross-border-ecommerce");
        reveal_strlit("cn-hangzhou-cb:digital-trade");
        reveal_strlit("cn-pboc:credit-reporting");
        reveal_strlit("cn-pboc:cross-border-payment");
        reveal_strlit("cn-pboc:payment-institution");
        assert(a[0].license_type_id[3] != b[0].license_type_id[3]);
        assert(a[0].license_type_id[3] != b[1].license_type_id[3]);
        assert(a[1].license_type_id[3] != b[0].license_type_id[3]);
        assert(a[1].license_type_id[3] != b[1].license_type_id[3]);
        assert(a[2].license_type_id[3] != b[0].license_type_id[3]);
        assert(a[2].license_type_id[3] != b[1].license_type_id[3]);
        reveal_with_fuel(apart_each, 4);
        reveal_with_fuel(id_fresh_each, 3);
    }
    lemma_apart_each(a, b);
}

/// No licence type of `pboc_license_types` shares an identifier with one of `shenzhen_frb_license_types`.
proof fn lemma_pboc_license_types_apart_from_shenzhen_frb_license_types()
    ensures
        license_type_ids_apart(spec_pboc_license_types(), spec_shenzhen_frb_license_types()),
{
    let a = spec_pboc_license_types();
    let b = spec_shenzhen_frb_license_types();
    assert(apart_each(a, b)) by {
        reveal_strlit("cn-pboc:credit-reporting");
        reveal_strlit("cn-pboc:cross-border-payment");
        reveal_strlit("cn-pboc:payment-institution");
        reveal_strlit("cn-shenzhen-frb:digital-asset-pilot");
        reveal_strlit("cn-shenzhen-frb:digital-rmb-pilot");
        reveal_strlit("cn-shenzhen-frb:fintech-sandbox");
        reveal_strlit("cn-shenzhen-frb:qianhai-cooperation");
        assert(a[0].license_type_id[3] != b[0].license_type_id[3]);
        assert(a[0].license_type_id[3] != b[1].license_type_id[3]);
        assert(a[0].license_type_id[3] != b[2].license_type_id[3]);
        assert(a[0].license_type_id[3] != b[3].license_type_id[3]);
        assert(a[1].license_type_id[3] != b[0].license_type_id[3]);
        assert(a[1].license_type_id[3] != b[1].license_type_id[3]);
        assert(a[1].license_type_id[3] != b[2].license_type_id[3]);
        assert(a[1].license_type_id[3] != b[3].license_type_id[3]);
        assert(a[2].license_type_id[3] != b[0].license_type_id[3]);
        assert(a[2].license_type_id[3] != b[1].license_type_id[3]);
        assert(a[2].license_type_id[3] != b[2].license_type_id[3]);
        assert(a[2].license_type_id[3] != b[3].license_type_id[3]);
        reveal_with_fuel(apart_each, 4);
        reveal_with_fuel(id_fresh_each, 5);
    }
    lemma_apart_each(a, b);
}

/// No licence type of `pboc_license_types` shares an identifier with one of `shanghai_ftz_license_types`.
proof fn lemma_pboc_license_types_apart_from_shanghai_ftz_license_types()
    ensures
        license_type_ids_apart(spec_pboc_license_types(), spec_shanghai_ftz_license_types()),
{
    let a = spec_pboc_license_types();
    let b = spec_shanghai_ftz_license_types();
    assert(apart_each(a, b)) by {
        reveal_strlit("cn-pboc:credit-reporting");
        reveal_strlit("cn-pboc:cross-border-payment");
        reveal_strlit("cn-pboc:payment-institution");
        reveal_strlit("cn-shanghai-ftz:business-registration");
        reveal_strlit("cn-shanghai-ftz:financial-innovation");
        reveal_strlit("cn-shanghai-ftz:wfoe");
        assert(a[0].license_type_id[3] != b[0].license_type_id[3]);
        assert(a[0].license_type_id[3] != b[1].license_type_id[3]);
        assert(a[0].license_type_id[3] != b[2].license_type_id[3]);
        assert(a[1].license_type_id[3] != b[0].license_type_id[3]);
        assert(a[1].license_type_id[3] != b[1].license_type_id[3]);
        assert(a[1].license_type_id[3] != b[2].license_type_id[3]);
        assert(a[2].license_type_id[3] != b[0].license_type_id[3]);
        assert(a[2].license_type_id[3] != b[1].license_type_id[3]);
        assert(a[2].license_type_id[3] != b[2].license_type_id[3]);
        reveal_with_fuel(apart_each, 4);
        reveal_with_fuel(id_fresh_each, 4);
    }
    lemma_apart_each(a, b);
}

/// No licence type of `pboc_license_types` shares an identifier with one of `shanghai_frb_license_types`.
proof fn lemma_pboc_license_types_apart_from_shanghai_frb_license_types()
    ensures
        license_type_ids_apart(spec_pboc_license_types(), spec_shanghai_frb_license_types()),
{
    let a = spec_pboc_license_types();
    let b = spec_shanghai_frb_license_types();
    assert(apart_each(a, b)) by {
        reveal_strlit("cn-pboc:credit-reporting");
        reveal_strlit("cn-pboc:cross-border-payment");
        reveal_strlit("cn-pboc:payment-institution");
        reveal_strlit("cn-shanghai-frb:fintech-pilot");
        reveal_strlit("cn-shanghai-frb:local-financial-org");
        assert(a[0].license_type_id[3] != b[0].license_type_id[3]);
        assert(a[0].license_type_id[3] != b[1].license_type_id[3]);
        assert(a[1].license_type_id[3] != b[0].license_type_id[3]);
        assert(a[1].license_type_id[3] != b[1].license_type_id[3]);
        assert(a[2].license_type_id[3] != b[0].license_type_id[3]);
        assert(a[2].license_type_id[3] != b[1].license_type_id[3]);
        reveal_with_fuel(apart_each, 4);
        reveal_with_fuel(id_fresh_each, 3);
    }
    lemma_apart_each(a, b);
}

/// No licence type of `pboc_license_types` shares an identifier with one of `beijing_frb_license_types`.
proof fn lemma_pboc_license_types_apart_from_beijing_frb_license_types()
    ensures
        license_type_ids_apart(spec_pboc_license_types(), spec_beijing_frb_license_types()),
{
    let a = spec_pboc_license_types();
    let b = spec_beijing_frb_license_types();
    assert(apart_each(a, b)) by {
        reveal_strlit("cn-beijing-frb:digital-asset-pilot");
        reveal_strlit("cn-beijing-frb:fintech-sandbox");
        reveal_strlit("cn-beijing-frb:local-financial-org");
        reveal_strlit("cn-pboc:credit-reporting");
        reveal_strlit("cn-pboc:cross-border-payment");
        reveal_strlit("cn-pboc:payment-institution");
        assert(a[0].license_type_id[3] != b[0].license_type_id[3]);
        assert(a[0].license_type_id[3] != b[1].license_type_id[3]);
        assert(a[0].license_type_id[3] != b[2].license_type_id[3]);
        assert(a[1].license_type_id[3] != b[0].license_type_id[3]);
        assert(a[1].license_type_id[3] != b[1].license_type_id[3]);
        assert(a[1].license_type_id[3] != b[2].license_type_id[3]);
        assert(a[2].license_type_id[3] != b[0].license_type_id[3]);
        assert(a[2].license_type_id[3] != b[1].license_type_id[3]);
        assert(a[2].license_type_id[3] != b[2].license_type_id[3]);
        reveal_with_fuel(apart_each, 4);
        reveal_with_fuel(id_fresh_each, 4);
    }
    lemma_apart_each(a, b);
}

/// No licence type of `nfra_license_types` shares an identifier with one of `csrc_license_types`.
proof fn lemma_nfra_license_types_apart_from_csrc_license_types()
    ensures
        license_type_ids_apart(spec_nfra_license_types(), spec_csrc_license_types()),
{
    let a = spec_nfra_license_types();
    let b = spec_csrc_license_types();
    assert(apart_each(a, b)) by {
        reveal_strlit("cn-csrc:fund-management");
        reveal_strlit("cn-csrc:futures-company");
        reveal_strlit("cn-csrc:investment-advisory");
        reveal_strlit("cn-csrc:securities-company");
        reveal_strlit("cn-nfra:commercial-bank");
        reveal_strlit("cn-nfra:consumer-finance");
        reveal_strlit("cn-nfra:insurance-company");
        reveal_strlit("cn-nfra:trust-company");
        assert(a[0].license_type_id[3] != b[0].license_type_id[3]);
        assert(a[0].license_type_id[3] != b[1].license_type_id[3]);
        assert(a[0].license_type_id[3] != b[2].license_type_id[3]);
        assert(a[0].license_type_id[3] != b[3].license_type_id[3]);
        assert(a[1].license_type_id[3] != b[0].license_type_id[3]);
        assert(a[1].license_type_id[3] != b[1].license_type_id[3]);
        assert(a[1].license_type_id[3] != b[2].license_type_id[3]);
        assert(a[1].license_type_id[3] != b[3].license_type_id[3]);
        assert(a[2].license_type_id[3] != b[0].license_type_id[3]);
        assert(a[2].license_type_id[3] != b[1].license_type_id[3]);
        assert(a[2].license_type_id[3] != b[2].license_type_id[3]);
        assert(a[2].license_type_id[3] != b[3].license_type_id[3]);
        assert(a[3].license_type_id[3] != b[0].license_type_id[3]);
        assert(a[3].license_type_id[3] != b[1].license_type_id[3]);
        assert(a[3].license_type_id[3] != b[2].license_type_id[3]);
        assert(a[3].license_type_id[3] != b[3].license_type_id[3]);
        reveal_with_fuel(apart_each, 5);
        reveal_with_fuel(id_fresh_each, 5);
    }
    lemma_apart_each(a, b);
}

/// No licence type of `nfra_license_types` shares an identifier with one of `safe_license_types`.
proof fn lemma_nfra_license_types_apart_from_safe_license_types()
    ensures
        license_type_ids_apart(spec_nfra_license_types(), spec_safe_license_types()),
{
    let a = spec_nfra_license_types();
    let b = spec_safe_license_types();
    assert(apart_each(a, b)) by {
        reveal_strlit("cn-nfra:commercial-bank");
        reveal_strlit("cn-nfra:consumer-finance");
        reveal_strlit("cn-nfra:insurance-company");
        reveal_strlit("cn-nfra:trust-company");
        reveal_strlit("cn-safe:cross-border-investment");
        reveal_strlit("cn-safe:forex-trading");
        assert(a[0].license_type_id[3] != b[0].license_type_id[3]);
        assert(a[0].license_type_id[3] != b[1].license_type_id[3]);
        assert(a[1].license_type_id[3] != b[0].license_type_id[3]);
        assert(a[1].license_type_id[3] != b[1].license_type_id[3]);
        assert(a[2].license_type_id[3] != b[0].license_type_id[3]);
        assert(a[2].license_type_id[3] != b[1].license_type_id[3]);
        assert(a[3].license_type_id[3] != b[0].license_type_id[3]);
        assert(a[3].license_type_id[3] != b[1].license_type_id[3]);
        reveal_with_fuel(apart_each, 5);
        reveal_with_fuel(id_fresh_each, 3);
    }
    lemma_apart_each(a, b);
}

/// No licence type of `nfra_license_types` shares an identifier with one of `hainan_ftp_license_types`.
proof fn lemma_nfra_license_types_apart_from_hainan_ftp_license_types()
    ensures
        license_type_ids_apart(spec_nfra_license_types(), spec_hainan_ftp_license_types()),
{
    let a = spec_nfra_license_types();
    let b = spec_hainan_ftp_license_types();
    assert(apart_each(a, b)) by {
        reveal_strlit("cn-hainan-ftp:cross-border-trade");
        reveal_strlit("cn-hainan-ftp:negative-list-sector");
        reveal_strlit("cn-hainan-ftp:qdlp");
        reveal_strlit("cn-hainan-ftp:qflp");
        reveal_strlit("cn-nfra:commercial-bank");
        reveal_strlit("cn-nfra:consumer-finance");
        reveal_strlit("cn-nfra:insurance-company");
        reveal_strlit("cn-nfra:trust-company");
        assert(a[0].license_type_id[3] != b[0].license_type_id[3]);
        assert(a[0].license_type_id[3] != b[1].license_type_id[3]);
        assert(a[0].license_type_id[3] != b[2].license_type_id[3]);
        assert(a[0].license_type_id[3] != b[3].license_type_id[3]);
        assert(a[1].license_type_id[3] != b[0].license_type_id[3]);
        assert(a[1].license_type_id[3] != b[1].license_type_id[3]);
        assert(a[1].license_type_id[3] != b[2].license_type_id[3]);
        assert(a[1].license_type_id[3] != b[3].license_type_id[3]);
        assert(a[2].license_type_id[3] != b[0].license_type_id[3]);
        assert(a[2].license_type_id[3] != b[1].license_type_id[3]);
        assert(a[2].license_type_id[3] != b[2].license_type_id[3]);
        assert(a[2].license_type_id[3] != b[3].license_type_id[3]);
        assert(a[3].license_type_id[3] != b[0].license_type_id[3]);
        assert(a[3].license_type_id[3] != b[1].license_type_id[3]);
        assert(a[3].license_type_id[3] != b[2].license_type_id[3]);
        assert(a[3].license_type_id[3] != b[3].license_type_id[3]);
        reveal_with_fuel(apart_each, 5);
        reveal_with_fuel(id_fresh_each, 5);
    }
    lemma_apart_each(a, b);
}

/// No licence type of `nfra_license_types` shares an identifier with one of `hangzhou_cb_license_types`.
proof fn lemma_nfra_license_types_apart_from_hangzhou_cb_license_types()
    ensures
        license_type_ids_apart(spec_nfra_license_types(), spec_hangzhou_cb_license_types()),
{
    let a = spec_nfra_license_types();
    let b = spec_hangzhou_cb_license_types();
    assert(apart_each(a, b)) by {
        reveal_strlit("cn-hangzhou-cb:cross-border-ecommerce");
        reveal_strlit("cn-hangzhou-cb:digital-trade");
        reveal_strlit("cn-nfra:commercial-bank");
        reveal_strlit("cn-nfra:consumer-finance");
        reveal_strlit("cn-nfra:insurance-company");
        reveal_strlit("cn-nfra:trust-company");
        assert(a[0].license_type_id[3] != b[0].license_type_id[3]);
        assert(a[0].license_type_id[3] != b[1].license_type_id[3]);
        assert(a[1].license_type_id[3] != b[0].license_type_id[3]);
        assert(a[1].license_type_id[3] != b[1].license_type_id[3]);
        assert(a[2].license_type_id[3] != b[0].license_type_id[3]);
        assert(a[2].license_type_id[3] != b[1].license_type_id[3]);
        assert(a[3].license_type_id[3] != b[0].license_type_id[3]);
        assert(a[3].license_type_id[3] != b[1].license_type_id[3]);
        reveal_with_fuel(apart_each, 5);
        reveal_with_fuel(id_fresh_each, 3);
    }
    lemma_apart_each(a, b);
}

/// No licence type of `nfra_license_types` shares an identifier with one of `shenzhen_frb_license_types`.
proof fn lemma_nfra_license_types_apart_from_shenzhen_frb_license_types()
    ensures
        license_type_ids_apart(spec_nfra_license_types(), spec_shenzhen_frb_license_types()),
{
    let a = spec_nfra_license_types();
    let b = spec_shenzhen_frb_license_types();
    assert(apart_each(a, b)) by {
        reveal_strlit("cn-nfra:commercial-bank");
        reveal_strlit("cn-nfra:consumer-finance");
        reveal_strlit("cn-nfra:insurance-company");
        reveal_strlit("cn-nfra:trust-company");
        reveal_strlit("cn-shenzhen-frb:digital-asset-pilot");
        reveal_strlit("cn-shenzhen-frb:digital-rmb-pilot");
        reveal_strlit("cn-shenzhen-frb:fintech-sandbox");
        reveal_strlit("cn-shenzhen-frb:qianhai-cooperation");
        assert(a[0].license_type_id[3] != b[0].license_type_id[3]);
        assert(a[0].license_type_id[3] != b[1].license_type_id[3]);
        assert(a[0].license_type_id[3] != b[2].license_type_id[3]);
        assert(a[0].license_type_id[3] != b[3].license_type_id[3]);
        assert(a[1].license_type_id[3] != b[0].license_type_id[3]);
        assert(a[1].license_type_id[3] != b[1].license_type_id[3]);
        assert(a[1].license_type_id[3] != b[2].license_type_id[3]);
        assert(a[1].license_type_id[3] != b[3].license_type_id[3]);
        assert(a[2].license_type_id[3] != b[0].license_type_id[3]);
        assert(a[2].license_type_id[3] != b[1].license_type_id[3]);
        assert(a[2].license_type_id[3] != b[2].license_type_id[3]);
        assert(a[2].license_type_id[3] != b[3].license_type_id[3]);
        assert(a[3].license_type_id[3] != b[0].license_type_id[3]);
        assert(a[3].license_type_id[3] != b[1].license_type_id[3]);
        assert(a[3].license_type_id[3] != b[2].license_type_id[3]);
        assert(a[3].license_type_id[3] != b[3].license_type_id[3]);
        reveal_with_fuel(apart_each, 5);
        reveal_with_fuel(id_fresh_each, 5);
    }
    lemma_apart_each(a, b);
}

/// No licence type of `nfra_license_types` shares an identifier with one of `shanghai_ftz_license_types`.
proof fn lemma_nfra_license_types_apart_from_shanghai_ftz_license_types()
    ensures
        license_type_ids_apart(spec_nfra_license_types(), spec_shanghai_ftz_license_types()),
{
    let a = spec_nfra_license_types();
    let b = spec_shanghai_ftz_license_types();
    assert(apart_each(a, b)) by {
        reveal_strlit("cn-nfra:commercial-bank");
        reveal_strlit("cn-nfra:consumer-finance");
        reveal_strlit("cn-nfra:insurance-company");
        reveal_strlit("cn-nfra:trust-company");
        reveal_strlit("cn-shanghai-ftz:business-registration");
        reveal_strlit("cn-shanghai-ftz:financial-innovation");
        reveal_strlit("cn-shanghai-ftz:wfoe");
        assert(a[0].license_type_id[3] != b[0].license_type_id[3]);
        assert(a[0].license_type_id[3] != b[1].license_type_id[3]);
        assert(a[0].license_type_id[3] != b[2].license_type_id[3]);
        assert(a[1].license_type_id[3] != b[0].license_type_id[3]);
        assert(a[1].license_type_id[3] != b[1].license_type_id[3]);
        assert(a[1].license_type_id[3] != b[2].license_type_id[3]);
        assert(a[2].license_type_id[3] != b[0].license_type_id[3]);
        assert(a[2].license_type_id[3] != b[1].license_type_id[3]);
        assert(a[2].license_type_id[3] != b[2].license_type_id[3]);
        assert(a[3].license_type_id[3] != b[0].license_type_id[3]);
        assert(a[3].license_type_id[3] != b[1].license_type_id[3]);
        assert(a[3].license_type_id[3] != b[2].license_type_id[3]);
        reveal_with_fuel(apart_each, 5);
        reveal_with_fuel(id_fresh_each, 4);
    }
    lemma_apart_each(a, b);
}

/// No licence type of `nfra_license_types` shares an identifier with one of `shanghai_frb_license_types`.
proof fn lemma_nfra_license_types_apart_from_shanghai_frb_license_types()
    ensures
        license_type_ids_apart(spec_nfra_license_types(), spec_shanghai_frb_license_types()),
{
    let a = spec_nfra_license_types();
    let b = spec_shanghai_frb_license_types();
    assert(apart_each(a, b)) by {
        reveal_strlit("cn-nfra:commercial-bank");
        reveal_strlit("cn-nfra:consumer-finance");
        reveal_strlit("cn-nfra:insurance-company");
        reveal_strlit("cn-nfra:trust-company");
        reveal_strlit("cn-shanghai-frb:fintech-pilot");
        reveal_strlit("cn-shanghai-frb:local-financial-org");
        assert(a[0].license_type_id[3] != b[0].license_type_id[3]);
        assert(a[0].license_type_id[3] != b[1].license_type_id[3]);
        assert(a[1].license_type_id[3] != b[0].license_type_id[3]);
        assert(a[1].license_type_id[3] != b[1].license_type_id[3]);
        assert(a[2].license_type_id[3] != b[0].license_type_id[3]);
        assert(a[2].license_type_id[3] != b[1].license_type_id[3]);
        assert(a[3].license_type_id[3] != b[0].license_type_id[3]);
        assert(a[3].license_type_id[3] != b[1].license_type_id[3]);
        reveal_with_fuel(apart_each, 5);
        reveal_with_fuel(id_fresh_each, 3);
    }
    lemma_apart_each(a, b);
}

/// No licence type of `nfra_license_types` shares an identifier with one of `beijing_frb_license_types`.
proof fn lemma_nfra_license_types_apart_from_beijing_frb_license_types()
    ensures
        license_type_ids_apart(spec_nfra_license_types(), spec_beijing_frb_license_types()),
{
    let a = spec_nfra_license_types();
    let b = spec_beijing_frb_license_types();
    assert(apart_each(a, b)) by {
        reveal_strlit("cn-beijing-frb:digital-asset-pilot");
        reveal_strlit("cn-beijing-frb:fintech-sandbox");
        reveal_strlit("cn-beijing-frb:local-financial-org");
        reveal_strlit("cn-nfra:commercial-bank");
        reveal_strlit("cn-nfra:consumer-finance");
        reveal_strlit("cn-nfra:insurance-company");
        reveal_strlit("cn-nfra:trust-company");
        assert(a[0].license_type_id[3] != b[0].license_type_id[3]);
        assert(a[0].license_type_id[3] != b[1].license_type_id[3]);
        assert(a[0].license_type_id[3] != b[2].license_type_id[3]);
        assert(a[1].license_type_id[3] != b[0].license_type_id[3]);
        assert(a[1].license_type_id[3] != b[1].license_type_id[3]);
        assert(a[1].license_type_id[3] != b[2].license_type_id[3]);
        assert(a[2].license_type_id[3] != b[0].license_type_id[3]);
        assert(a[2].license_type_id[3] != b[1].license_type_id[3]);
        assert(a[2].license_type_id[3] != b[2].license_type_id[3]);
        assert(a[3].license_type_id[3] != b[0].license_type_id[3]);
        assert(a[3].license_type_id[3] != b[1].license_type_id[3]);
        assert(a[3].license_type_id[3] != b[2].license_type_id[3]);
        reveal_with_fuel(apart_each, 5);
        reveal_with_fuel(id_fresh_each, 4);
    }
    lemma_apart_each(a, b);
}

/// No licence type of `csrc_license_types` shares an identifier with one of `safe_license_types`.
proof fn lemma_csrc_license_types_apart_from_safe_license_types()
    ensures
        license_type_ids_apart(spec_csrc_license_types(), spec_safe_license_types()),
{
    let a = spec_csrc_license_types();
    let b = spec_safe_license_types();
    assert(apart_each(a, b)) by {
        reveal_strlit("cn-csrc:fund-management");
        reveal_strlit("cn-csrc:futures-company");
        reveal_strlit("cn-csrc:investment-advisory");
        reveal_strlit("cn-csrc:securities-company");
        reveal_strlit("cn-safe:cross-border-investment");
        reveal_strlit("cn-safe:forex-trading");
        assert(a[0].license_type_id[3] != b[0].license_type_id[3]);
        assert(a[0].license_type_id[3] != b[1].license_type_id[3]);
        assert(a[1].license_type_id[3] != b[0].license_type_id[3]);
        assert(a[1].license_type_id[3] != b[1].license_type_id[3]);
        assert(a[2].license_type_id[3] != b[0].license_type_id[3]);
        assert(a[2].license_type_id[3] != b[1].license_type_id[3]);
        assert(a[3].license_type_id[3] != b[0].license_type_id[3]);
        assert(a[3].license_type_id[3] != b[1].license_type_id[3]);
        reveal_with_fuel(apart_each, 5);
        reveal_with_fuel(id_fresh_each, 3);
    }
    lemma_apart_each(a, b);
}

/// No licence type of `csrc_license_types` shares an identifier with one of `hainan_ftp_license_types`.
proof fn lemma_csrc_license_types_apart_from_hainan_ftp_license_types()
    ensures
        license_type_ids_apart(spec_csrc_license_types(), spec_hainan_ftp_license_types()),
{
    let a = spec_csrc_license_types();
    let b = spec_hainan_ftp_license_types();
    assert(apart_each(a, b)) by {
        reveal_strlit("cn-csrc:fund-management");
        reveal_strlit("cn-csrc:futures-company");
        reveal_strlit("cn-csrc:investment-advisory");
        reveal_strlit("cn-csrc:securities-company");
        reveal_strlit("cn-hainan-ftp:cross-border-trade");
        reveal_strlit("cn-hainan-ftp:negative-list-sector");
        reveal_strlit("cn-hainan-ftp:qdlp");
        reveal_strlit("cn-hainan-ftp:qflp");
        assert(a[0].license_type_id[3] != b[0].license_type_id[3]);
        assert(a[0].license_type_id[3] != b[1].license_type_id[3]);
        assert(a[0].license_type_id[3] != b[2].license_type_id[3]);
        assert(a[0].license_type_id[3] != b[3].license_type_id[3]);
        assert(a[1].license_type_id[3] != b[0].license_type_id[3]);
        assert(a[1].license_type_id[3] != b[1].license_type_id[3]);
        assert(a[1].license_type_id[3] != b[2].license_type_id[3]);
        assert(a[1].license_type_id[3] != b[3].license_type_id[3]);
        assert(a[2].license_type_id[3] != b[0].license_type_id[3]);
        assert(a[2].license_type_id[3] != b[1].license_type_id[3]);
        assert(a[2].license_type_id[3] != b[2].license_type_id[3]);
        assert(a[2].license_type_id[3] != b[3].license_type_id[3]);
        assert(a[3].license_type_id[3] != b[0].license_type_id[3]);
        assert(a[3].license_type_id[3] != b[1].license_type_id[3]);
        assert(a[3].license_type_id[3] != b[2].license_type_id[3]);
        assert(a[3].license_type_id[3] != b[3].license_type_id[3]);
        reveal_with_fuel(apart_each, 5);
        reveal_with_fuel(id_fresh_each, 5);
    }
    lemma_apart_each(a, b);
}

/// No licence type of `csrc_license_types` shares an identifier with one of `hangzhou_cb_license_types`.
proof fn lemma_csrc_license_types_apart_from_hangzhou_cb_license_types()
    ensures
        license_type_ids_apart(spec_csrc_license_types(), spec_hangzhou_cb_license_types()),
{
    let a = spec_csrc_license_types();
    let b = spec_hangzhou_cb_license_types();
    assert(apart_each(a, b)) by {
        reveal_strlit("cn-csrc:fund-management");
        reveal_strlit("cn-csrc:futures-company");
        reveal_strlit("cn-csrc:investment-advisory");
        reveal_strlit("cn-csrc:securities-company");
        reveal_strlit("cn-hangzhou-cb:cross-border-ecommerce");
        reveal_strlit("cn-hangzhou-cb:digital-trade");
        assert(a[0].license_type_id[3] != b[0].license_type_id[3]);
        assert(a[0].license_type_id[3] != b[1].license_type_id[3]);
        assert(a[1].license_type_id[3] != b[0].license_type_id[3]);
        assert(a[1].license_type_id[3] != b[1].license_type_id[3]);
        assert(a[2].license_type_id[3] != b[0].license_type_id[3]);
        assert(a[2].license_type_id[3] != b[1].license_type_id[3]);
        assert(a[3].license_type_id[3] != b[0].license_type_id[3]);
        assert(a[3].license_type_id[3] != b[1].license_type_id[3]);
        reveal_with_fuel(apart_each, 5);
        reveal_with_fuel(id_fresh_each, 3);
    }
    lemma_apart_each(a, b);
}

/// No licence type of `csrc_license_types` shares an identifier with one of `shenzhen_frb_license_types`.
proof fn lemma_csrc_license_types_apart_from_shenzhen_frb_license_types()
    ensures
        license_type_ids_apart(spec_csrc_license_types(), spec_shenzhen_frb_license_types()),
{
    let a = spec_csrc_license_types();
    let b = spec_shenzhen_frb_license_types();
    assert(apart_each(a, b)) by {
        reveal_strlit("cn-csrc:fund-management");
        reveal_strlit("cn-csrc:futures-company");
        reveal_strlit("cn-csrc:investment-advisory");
        reveal_strlit("cn-csrc:securities-company");
        reveal_strlit("cn-shenzhen-frb:digital-asset-pilot");
        reveal_strlit("cn-shenzhen-frb:digital-rmb-pilot");
        reveal_strlit("cn-shenzhen-frb:fintech-sandbox");
        reveal_strlit("cn-shenzhen-frb:qianhai-cooperation");
        assert(a[0].license_type_id[3] != b[0].license_type_id[3]);
        assert(a[0].license_type_id[3] != b[1].license_type_id[3]);
        assert(a[0].license_type_id[3] != b[2].license_type_id[3]);
        assert(a[0].license_type_id[3] != b[3].license_type_id[3]);
        assert(a[1].license_type_id[3] != b[0].license_type_id[3]);
        assert(a[1].license_type_id[3] != b[1].license_type_id[3]);
        assert(a[1].license_type_id[3] != b[2].license_type_id[3]);
        assert(a[1].license_type_id[3] != b[3].license_type_id[3]);
        assert(a[2].license_type_id[3] != b[0].license_type_id[3]);
        assert(a[2].license_type_id[3] != b[1].license_type_id[3]);
        assert(a[2].license_type_id[3] != b[2].license_type_id[3]);
        assert(a[2].license_type_id[3] != b[3].license_type_id[3]);
        assert(a[3].license_type_id[3] != b[0].license_type_id[3]);
        assert(a[3].license_type_id[3] != b[1].license_type_id[3]);
        assert(a[3].license_type_id[3] != b[2].license_type_id[3]);
        assert(a[3].license_type_id[3] != b[3].license_type_id[3]);
        reveal_with_fuel(apart_each, 5);
        reveal_with_fuel(id_fresh_each, 5);
    }
    lemma_apart_each(a, b);
}

/// No licence type of `csrc_license_types` shares an identifier with one of `shanghai_ftz_license_types`.
proof fn lemma_csrc_license_types_apart_from_shanghai_ftz_license_types()
    ensures
        license_type_ids_apart(spec_csrc_license_types(), spec_shanghai_ftz_license_types()),
{
    let a = spec_csrc_license_types();
    let b = spec_shanghai_ftz_license_types();
    assert(apart_each(a, b)) by {
        reveal_strlit("cn-csrc:fund-management");
        reveal_strlit("cn-csrc:futures-company");
        reveal_strlit("cn-csrc:investment-advisory");
        reveal_strlit("cn-csrc:securities-company");
        reveal_strlit("cn-shanghai-ftz:business-registration");
        reveal_strlit("cn-shanghai-ftz:financial-innovation");
        reveal_strlit("cn-shanghai-ftz:wfoe");
        assert(a[0].license_type_id[3] != b[0].license_type_id[3]);
        assert(a[0].license_type_id[3] != b[1].license_type_id[3]);
        assert(a[0].license_type_id[3] != b[2].license_type_id[3]);
        assert(a[1].license_type_id[3] != b[0].license_type_id[3]);
        assert(a[1].license_type_id[3] != b[1].license_type_id[3]);
        assert(a[1].license_type_id[3] != b[2].license_type_id[3]);
        assert(a[2].license_type_id[3] != b[0].license_type_id[3]);
        assert(a[2].license_type_id[3] != b[1].license_type_id[3]);
        assert(a[2].license_type_id[3] != b[2].license_type_id[3]);
        assert(a[3].license_type_id[3] != b[0].license_type_id[3]);
        assert(a[3].license_type_id[3] != b[1].license_type_id[3]);
        assert(a[3].license_type_id[3] != b[2].license_type_id[3]);
        reveal_with_fuel(apart_each, 5);
        reveal_with_fuel(id_fresh_each, 4);
    }
    lemma_apart_each(a, b);
}

/// No licence type of `csrc_license_types` shares an identifier with one of `shanghai_frb_license_types`.
proof fn lemma_csrc_license_types_apart_from_shanghai_frb_license_types()
    ensures
        license_type_ids_apart(spec_csrc_license_types(), spec_shanghai_frb_license_types()),
{
    let a = spec_csrc_license_types();
    let b = spec_shanghai_frb_license_types();
    assert(apart_each(a, b)) by {
        reveal_strlit("cn-csrc:fund-management");
        reveal_strlit("cn-csrc:futures-company");
        reveal_strlit("cn-csrc:investment-advisory");
        reveal_strlit("cn-csrc:securities-company");
        reveal_strlit("cn-shanghai-frb:fintech-pilot");
        reveal_strlit("cn-shanghai-frb:local-financial-org");
        assert(a[0].license_type_id[3] != b[0].license_type_id[3]);
        assert(a[0].license_type_id[3] != b[1].license_type_id[3]);
        assert(a[1].license_type_id[3] != b[0].license_type_id[3]);
        assert(a[1].license_type_id[3] != b[1].license_type_id[3]);
        assert(a[2].license_type_id[3] != b[0].license_type_id[3]);
        assert(a[2].license_type_id[3] != b[1].license_type_id[3]);
        assert(a[3].license_type_id[3] != b[0].license_type_id[3]);
        assert(a[3].license_type_id[3] != b[1].license_type_id[3]);
        reveal_with_fuel(apart_each, 5);
        reveal_with_fuel(id_fresh_each, 3);
    }
    lemma_apart_each(a, b);
}

/// No licence type of `csrc_license_types` shares an identifier with one of `beijing_frb_license_types`.
proof fn lemma_csrc_license_types_apart_from_beijing_frb_license_types()
    ensures
        license_type_ids_apart(spec_csrc_license_types(), spec_beijing_frb_license_types()),
{
    let a = spec_csrc_license_types();
    let b = spec_beijing_frb_license_types();
    assert(apart_each(a, b)) by {
        reveal_strlit("cn-beijing-frb:digital-asset-pilot");
        reveal_strlit("cn-beijing-frb:fintech-sandbox");
        reveal_strlit("cn-beijing-frb:local-financial-org");
        reveal_strlit("cn-csrc:fund-management");
        reveal_strlit("cn-csrc:futures-company");
        reveal_strlit("cn-csrc:investment-advisory");
        reveal_strlit("cn-csrc:securities-company");
        assert(a[0].license_type_id[3] != b[0].license_type_id[3]);
        assert(a[0].license_type_id[3] != b[1].license_type_id[3]);
        assert(a[0].license_type_id[3] != b[2].license_type_id[3]);
        assert(a[1].license_type_id[3] != b[0].license_type_id[3]);
        assert(a[1].license_type_id[3] != b[1].license_type_id[3]);
        assert(a[1].license_type_id[3] != b[2].license_type_id[3]);
        assert(a[2].license_type_id[3] != b[0].license_type_id[3]);
        assert(a[2].license_type_id[3] != b[1].license_type_id[3]);
        assert(a[2].license_type_id[3] != b[2].license_type_id[3]);
        assert(a[3].license_type_id[3] != b[0].license_type_id[3]);
        assert(a[3].license_type_id[3] != b[1].license_type_id[3]);
        assert(a[3].license_type_id[3] != b[2].license_type_id[3]);
        reveal_with_fuel(apart_each, 5);
        reveal_with_fuel(id_fresh_each, 4);
    }
    lemma_apart_each(a, b);
}

/// No licence type of `safe_license_types` shares an identifier with one of `hainan_ftp_license_types`.
proof fn lemma_safe_license_types_apart_from_hainan_ftp_license_types()
    ensures
        license_type_ids_apart(spec_safe_license_types(), spec_hainan_ftp_license_types()),
{
    let a = spec_safe_license_types();
    let b = spec_hainan_ftp_license_types();
    assert(apart_each(a, b)) by {
        reveal_strlit("cn-hainan-ftp:cross-border-trade");
        reveal_strlit("cn-hainan-ftp:negative-list-sector");
        reveal_strlit("cn-hainan-ftp:qdlp");
        reveal_strlit("cn-hainan-ftp:qflp");
        reveal_strlit("cn-safe:cross-border-investment");
        reveal_strlit("cn-safe:forex-trading");
        assert(a[0].license_type_id[3] != b[0].license_type_id[3]);
        assert(a[0].license_type_id[3] != b[1].license_type_id[3]);
        assert(a[0].license_type_id[3] != b[2].license_type_id[3]);
        assert(a[0].license_type_id[3] != b[3].license_type_id[3]);
        assert(a[1].license_type_id[3] != b[0].license_type_id[3]);
        assert(a[1].license_type_id[3] != b[1].license_type_id[3]);
        assert(a[1].license_type_id[3] != b[2].license_type_id[3]);
        assert(a[1].license_type_id[3] != b[3].license_type_id[3]);
        reveal_with_fuel(apart_each, 3);
        reveal_with_fuel(id_fresh_each, 5);
    }
    lemma_apart_each(a, b);
}

/// No licence type of `safe_license_types` shares an identifier with one of `hangzhou_cb_license_types`.
proof fn lemma_safe_license_types_apart_from_hangzhou_cb_license_types()
    ensures
        license_type_ids_apart(spec_safe_license_types(), spec_hangzhou_cb_license_types()),
{
    let a = spec_safe_license_types();
    let b = spec_hangzhou_cb_license_types();
    assert(apart_each(a, b)) by {
        reveal_strlit("cn-hangzhou-cb:cross-border-ecommerce");
        reveal_strlit("cn-hangzhou-cb:digital-trade");
        reveal_strlit("cn-safe:cross-border-investment");
        reveal_strlit("cn-safe:forex-trading");
        assert(a[0].license_type_id[3] != b[0].license_type_id[3]);
        assert(a[0].license_type_id[3] != b[1].license_type_id[3]);
        assert(a[1].license_type_id[3] != b[0].license_type_id[3]);
        assert(a[1].license_type_id[3] != b[1].license_type_id[3]);
        reveal_with_fuel(apart_each, 3);
        reveal_with_fuel(id_fresh_each, 3);
    }
    lemma_apart_each(a, b);
}

/// No licence type of `safe_license_types` shares an identifier with one of `shenzhen_frb_license_types`.
proof fn lemma_safe_license_types_apart_from_shenzhen_frb_license_types()
    ensures
        license_type_ids_apart(spec_safe_license_types(), spec_shenzhen_frb_license_types()),
{
    let a = spec_safe_license_types();
    let b = spec_shenzhen_frb_license_types();
    assert(apart_each(a, b)) by {
        reveal_strlit("cn-safe:cross-border-investment");
        reveal_strlit("cn-safe:forex-trading");
        reveal_strlit("cn-shenzhen-frb:digital-asset-pilot");
        reveal_strlit("cn-shenzhen-frb:digital-rmb-pilot");
        reveal_strlit("cn-shenzhen-frb:fintech-sandbox");
        reveal_strlit("cn-shenzhen-frb:qianhai-cooperation");
        assert(a[0].license_type_id[4] != b[0].license_type_id[4]);
        assert(a[0].license_type_id[4] != b[1].license_type_id[4]);
        assert(a[0].license_type_id[4] != b[2].license_type_id[4]);
        assert(a[0].license_type_id[4] != b[3].license_type_id[4]);
        assert(a[1].license_type_id[4] != b[0].license_type_id[4]);
        assert(a[1].license_type_id[4] != b[1].license_type_id[4]);
        assert(a[1].license_type_id[4] != b[2].license_type_id[4]);
        assert(a[1].license_type_id[4] != b[3].license_type_id[4]);
        reveal_with_fuel(apart_each, 3);
        reveal_with_fuel(id_fresh_each, 5);
    }
    lemma_apart_each(a, b);
}

/// No licence type of `safe_license_types` shares an identifier with one of `shanghai_ftz_license_types`.
proof fn lemma_safe_license_types_apart_from_shanghai_ftz_license_types()
    ensures
        license_type_ids_apart(spec_safe_license_types(), spec_shanghai_ftz_license_types()),
{
    let a = spec_safe_license_types();
    let b = spec_shanghai_ftz_license_types();
    assert(apart_each(a, b)) by {
        reveal_strlit("cn-safe:cross-border-investment");
        reveal_strlit("cn-safe:forex-trading");
        reveal_strlit("cn-shanghai-ftz:business-registration");
        reveal_strlit("cn-shanghai-ftz:financial-innovation");
        reveal_strlit("cn-shanghai-ftz:wfoe");
        assert(a[0].license_type_id[4] != b[0].license_type_id[4]);
        assert(a[0].license_type_id[4] != b[1].license_type_id[4]);
        assert(a[0].license_type_id[4] != b[2].license_type_id[4]);
        assert(a[1].license_type_id[4] != b[0].license_type_id[4]);
        assert(a[1].license_type_id[4] != b[1].license_type_id[4]);
        assert(a[1].license_type_id[4] != b[2].license_type_id[4]);
        reveal_with_fuel(apart_each, 3);
        reveal_with_fuel(id_fresh_each, 4);
    }
    lemma_apart_each(a, b);
}

/// No licence type of `safe_license_types` shares an identifier with one of `shanghai_frb_license_types`.
proof fn lemma_safe_license_types_apart_from_shanghai_frb_license_types()
    ensures
        license_type_ids_apart(spec_safe_license_types(), spec_shanghai_frb_license_types()),
{
    let a = spec_safe_license_types();
    let b = spec_shanghai_frb_license_types();
    assert(apart_each(a, b)) by {
        reveal_strlit("cn-safe:cross-border-investment");
        reveal_strlit("cn-safe:forex-trading");
        reveal_strlit("cn-shanghai-frb:fintech-pilot");
        reveal_strlit("cn-shanghai-frb:local-financial-org");
        assert(a[0].license_type_id[4] != b[0].license_type_id[4]);
        assert(a[0].license_type_id[4] != b[1].license_type_id[4]);
        assert(a[1].license_type_id[4] != b[0].license_type_id[4]);
        assert(a[1].license_type_id[4] != b[1].license_type_id[4]);
        reveal_with_fuel(apart_each, 3);
        reveal_with_fuel(id_fresh_each, 3);
    }
    lemma_apart_each(a, b);
}

/// No licence type of `safe_license_types` shares an identifier with one of `beijing_frb_license_types`.
proof fn lemma_safe_license_types_apart_from_beijing_frb_license_types()
    ensures
        license_type_ids_apart(spec_safe_license_types(), spec_beijing_frb_license_types()),
{
    let a = spec_safe_license_types();
    let b = spec_beijing_frb_license_types();
    assert(apart_each(a, b)) by {
        reveal_strlit("cn-beijing-frb:digital-asset-pilot");
        reveal_strlit("cn-beijing-frb:fintech-sandbox");
        reveal_strlit("cn-beijing-frb:local-financial-org");
        reveal_strlit("cn-safe:cross-border-investment");
        reveal_strlit("cn-safe:forex-trading");
        assert(a[0].license_type_id[3] != b[0].license_type_id[3]);
        assert(a[0].license_type_id[3] != b[1].license_type_id[3]);
        assert(a[0].license_type_id[3] != b[2].license_type_id[3]);
        assert(a[1].license_type_id[3] != b[0].license_type_id[3]);
        assert(a[1].license_type_id[3] != b[1].license_type_id[3]);
        assert(a[1].license_type_id[3] != b[2].license_type_id[3]);
        reveal_with_fuel(apart_each, 3);
        reveal_with_fuel(id_fresh_each, 4);
    }
    lemma_apart_each(a, b);
}

/// No licence type of `hainan_ftp_license_types` shares an identifier with one of `hangzhou_cb_license_types`.
proof fn lemma_hainan_ftp_license_types_apart_from_hangzhou_cb_license_types()
    ensures
        license_type_ids_apart(spec_hainan_ftp_license_types(), spec_hangzhou_cb_license_types()),
{
    let a = spec_hainan_ftp_license_types();
    let b = spec_hangzhou_cb_license_types();
    assert(apart_each(a, b)) by {
        reveal_strlit("cn-hainan-ftp:cross-border-trade");
        reveal_strlit("cn-hainan-ftp:negative-list-sector");
        reveal_strlit("cn-hainan-ftp:qdlp");
        reveal_strlit("cn-hainan-ftp:qflp");
        reveal_strlit("cn-hangzhou-cb:cross-border-ecommerce");
        reveal_strlit("cn-hangzhou-cb:digital-trade");
        assert(a[0].license_type_id[5] != b[0].license_type_id[5]);
        assert(a[0].license_type_id[5] != b[1].license_type_id[5]);
        assert(a[1].license_type_id[5] != b[0].license_type_id[5]);
        assert(a[1].license_type_id[5] != b[1].license_type_id[5]);
        assert(a[2].license_type_id[5] != b[0].license_type_id[5]);
        assert(a[2].license_type_id[5] != b[1].license_type_id[5]);
        assert(a[3].license_type_id[5] != b[0].license_type_id[5]);
        assert(a[3].license_type_id[5] != b[1].license_type_id[5]);
        reveal_with_fuel(apart_each, 5);
        reveal_with_fuel(id_fresh_each, 3);
    }
    lemma_apart_each(a, b);
}

/// No licence type of `hainan_ftp_license_types` shares an identifier with one of `shenzhen_frb_license_types`.
proof fn lemma_hainan_ftp_license_types_apart_from_shenzhen_frb_license_types()
    ensures
        license_type_ids_apart(spec_hainan_ftp_license_types(), spec_shenzhen_frb_license_types()),
{
    let a = spec_hainan_ftp_license_types();
    let b = spec_shenzhen_frb_license_types();
    assert(apart_each(a, b)) by {
        reveal_strlit("cn-hainan-ftp:cross-border-trade");
        reveal_strlit("cn-hainan-ftp:negative-list-sector");
        reveal_strlit("cn-hainan-ftp:qdlp");
        reveal_strlit("cn-hainan-ftp:qflp");
        reveal_strlit("cn-shenzhen-frb:digital-asset-pilot");
        reveal_strlit("cn-shenzhen-frb:digital-rmb-pilot");
        reveal_strlit("cn-shenzhen-frb:fintech-sandbox");
        reveal_strlit("cn-shenzhen-frb:qianhai-cooperation");
        assert(a[0].license_type_id[3] != b[0].license_type_id[3]);
        assert(a[0].license_type_id[3] != b[1].license_type_id[3]);
        assert(a[0].license_type_id[3] != b[2].license_type_id[3]);
        assert(a[0].license_type_id[3] != b[3].license_type_id[3]);
        assert(a[1].license_type_id[3] != b[0].license_type_id[3]);
        assert(a[1].license_type_id[3] != b[1].license_type_id[3]);
        assert(a[1].license_type_id[3] != b[2].license_type_id[3]);
        assert(a[1].license_type_id[3] != b[3].license_type_id[3]);
        assert(a[2].license_type_id[3] != b[0].license_type_id[3]);
        assert(a[2].license_type_id[3] != b[1].license_type_id[3]);
        assert(a[2].license_type_id[3] != b[2].license_type_id[3]);
        assert(a[2].license_type_id[3] != b[3].license_type_id[3]);
        assert(a[3].license_type_id[3] != b[0].license_type_id[3]);
        assert(a[3].license_type_id[3] != b[1].license_type_id[3]);
        assert(a[3].license_type_id[3] != b[2].license_type_id[3]);
        assert(a[3].license_type_id[3] != b[3].license_type_id[3]);
        reveal_with_fuel(apart_each, 5);
        reveal_with_fuel(id_fresh_each, 5);
    }
    lemma_apart_each(a, b);
}

/// No licence type of `hainan_ftp_license_types` shares an identifier with one of `shanghai_ftz_license_types`.
proof fn lemma_hainan_ftp_license_types_apart_from_shanghai_ftz_license_types()
    ensures
        license_type_ids_apart(spec_hainan_ftp_license_types(), spec_shanghai_ftz_license_types()),
{
    let a = spec_hainan_ftp_license_types();
    let b = spec_shanghai_ftz_license_types();
    assert(apart_each(a, b)) by {
        reveal_strlit("cn-hainan-ftp:cross-border-trade");
        reveal_strlit("cn-hainan-ftp:negative-list-sector");
        reveal_strlit("cn-hainan-ftp:qdlp");
        reveal_strlit("cn-hainan-ftp:qflp");
        reveal_strlit("cn-shanghai-ftz:business-registration");
        reveal_strlit("cn-shanghai-ftz:financial-innovation");
        reveal_strlit("cn-shanghai-ftz:wfoe");
        assert(a[0].license_type_id[3] != b[0].license_type_id[3]);
        assert(a[0].license_type_id[3] != b[1].license_type_id[3]);
        assert(a[0].license_type_id[3] != b[2].license_type_id[3]);
        assert(a[1].license_type_id[3] != b[0].license_type_id[3]);
        assert(a[1].license_type_id[3] != b[1].license_type_id[3]);
        assert(a[1].license_type_id[3] != b[2].license_type_id[3]);
        assert(a[2].license_type_id[3] != b[0].license_type_id[3]);
        assert(a[2].license_type_id[3] != b[1].license_type_id[3]);
        assert(a[2].license_type_id[3] != b[2].license_type_id[3]);
        assert(a[3].license_type_id[3] != b[0].license_type_id[3]);
        assert(a[3].license_type_id[3] != b[1].license_type_id[3]);
        assert(a[3].license_type_id[3] != b[2].license_type_id[3]);
        reveal_with_fuel(apart_each, 5);
        reveal_with_fuel(id_fresh_each, 4);
    }
    lemma_apart_each(a, b);
}

/// No licence type of `hainan_ftp_license_types` shares an identifier with one of `shanghai_frb_license_types`.
proof fn lemma_hainan_ftp_license_types_apart_from_shanghai_frb_license_types()
    ensures
        license_type_ids_apart(spec_hainan_ftp_license_types(), spec_shanghai_frb_license_types()),
{
    let a = spec_hainan_ftp_license_types();
    let b = spec_shanghai_frb_license_types();
    assert(apart_each(a, b)) by {
        reveal_strlit("cn-hainan-ftp:cross-border-trade");
        reveal_strlit("cn-hainan-ftp:negative-list-sector");
        reveal_strlit("cn-hainan-ftp:qdlp");
        reveal_strlit("cn-hainan-ftp:qflp");
        reveal_strlit("cn-shanghai-frb:fintech-pilot");
        reveal_strlit("cn-shanghai-frb:local-financial-org");
        assert(a[0].license_type_id[3] != b[0].license_type_id[3]);
        assert(a[0].license_type_id[3] != b[1].license_type_id[3]);
        assert(a[1].license_type_id[3] != b[0].license_type_id[3]);
        assert(a[1].license_type_id[3] != b[1].license_type_id[3]);
        assert(a[2].license_type_id[3] != b[0].license_type_id[3]);
        assert(a[2].license_type_id[3] != b[1].license_type_id[3]);
        assert(a[3].license_type_id[3] != b[0].license_type_id[3]);
        assert(a[3].license_type_id[3] != b[1].license_type_id[3]);
        reveal_with_fuel(apart_each, 5);
        reveal_with_fuel(id_fresh_each, 3);
    }
    lemma_apart_each(a, b);
}

/// No licence type of `hainan_ftp_license_types` shares an identifier with one of `beijing_frb_license_types`.
proof fn lemma_hainan_ftp_license_types_apart_from_beijing_frb_license_types()
    ensures
        license_type_ids_apart(spec_hainan_ftp_license_types(), spec_beijing_frb_license_types()),
{
    let a = spec_hainan_ftp_license_types();
    let b = spec_beijing_frb_license_types();
    assert(apart_each(a, b)) by {
        reveal_strlit("cn-beijing-frb:digital-asset-pilot");
        reveal_strlit("cn-beijing-frb:fintech-sandbox");
        reveal_strlit("cn-beijing-frb:local-financial-org");
        reveal_strlit("cn-hainan-ftp:cross-border-trade");
        reveal_strlit("cn-hainan-ftp:negative-list-sector");
        reveal_strlit("cn-hainan-ftp:qdlp");
        reveal_strlit("cn-hainan-ftp:qflp");
        assert(a[0].license_type_id[3] != b[0].license_type_id[3]);
        assert(a[0].license_type_id[3] != b[1].license_type_id[3]);
        assert(a[0].license_type_id[3] != b[2].license_type_id[3]);
        assert(a[1].license_type_id[3] != b[0].license_type_id[3]);
        assert(a[1].license_type_id[3] != b[1].license_type_id[3]);
        assert(a[1].license_type_id[3] != b[2].license_type_id[3]);
        assert(a[2].license_type_id[3] != b[0].license_type_id[3]);
        assert(a[2].license_type_id[3] != b[1].license_type_id[3]);
        assert(a[2].license_type_id[3] != b[2].license_type_id[3]);
        assert(a[3].license_type_id[3] != b[0].license_type_id[3]);
        assert(a[3].license_type_id[3] != b[1].license_type_id[3]);
        assert(a[3].license_type_id[3] != b[2].license_type_id[3]);
        reveal_with_fuel(apart_each, 5);
        reveal_with_fuel(id_fresh_each, 4);
    }
    lemma_apart_each(a, b);
}

/// No licence type of `hangzhou_cb_license_types` shares an identifier with one of `shenzhen_frb_license_types`.
proof fn lemma_hangzhou_cb_license_types_apart_from_shenzhen_frb_license_types()
    ensures
        license_type_ids_apart(spec_hangzhou_cb_license_types(), spec_shenzhen_frb_license_types()),
{
    let a = spec_hangzhou_cb_license_types();
    let b = spec_shenzhen_frb_license_types();
    assert(apart_each(a, b)) by {
        reveal_strlit("cn-hangzhou-cb:cross-border-ecommerce");
        reveal_strlit("cn-hangzhou-cb:digital-trade");
        reveal_strlit("cn-shenzhen-frb:digital-asset-pilot");
        reveal_strlit("cn-shenzhen-frb:digital-rmb-pilot");
        reveal_strlit("cn-shenzhen-frb:fintech-sandbox");
        reveal_strlit("cn-shenzhen-frb:qianhai-cooperation");
        assert(a[0].license_type_id[3] != b[0].license_type_id[3]);
        assert(a[0].license_type_id[3] != b[1].license_type_id[3]);
        assert(a[0].license_type_id[3] != b[2].license_type_id[3]);
        assert(a[0].license_type_id[3] != b[3].license_type_id[3]);
        assert(a[1].license_type_id[3] != b[0].license_type_id[3]);
        assert(a[1].license_type_id[3] != b[1].license_type_id[3]);
        assert(a[1].license_type_id[3] != b[2].license_type_id[3]);
        assert(a[1].license_type_id[3] != b[3].license_type_id[3]);
        reveal_with_fuel(apart_each, 3);
        reveal_with_fuel(id_fresh_each, 5);
    }
    lemma_apart_each(a, b);
}

/// No licence type of `hangzhou_cb_license_types` shares an identifier with one of `shanghai_ftz_license_types`.
proof fn lemma_hangzhou_cb_license_types_apart_from_shanghai_ftz_license_types()
    ensures
        license_type_ids_apart(spec_hangzhou_cb_license_types(), spec_shanghai_ftz_license_types()),
{
    let a = spec_hangzhou_cb_license_types();
    let b = spec_shanghai_ftz_license_types();
    assert(apart_each(a, b)) by {
        reveal_strlit("cn-hangzhou-cb:cross-border-ecommerce");
        reveal_strlit("cn-hangzhou-cb:digital-trade");
        reveal_strlit("cn-shanghai-ftz:business-registration");
        reveal_strlit("cn-shanghai-ftz:financial-innovation");
        reveal_strlit("cn-shanghai-ftz:wfoe");
        assert(a[0].license_type_id[3] != b[0].license_type_id[3]);
        assert(a[0].license_type_id[3] != b[1].license_type_id[3]);
        assert(a[0].license_type_id[3] != b[2].license_type_id[3]);
        assert(a[1].license_type_id[3] != b[0].license_type_id[3]);
        assert(a[1].license_type_id[3] != b[1].license_type_id[3]);
        assert(a[1].license_type_id[3] != b[2].license_type_id[3]);
        reveal_with_fuel(apart_each, 3);
        reveal_with_fuel(id_fresh_each, 4);
    }
    lemma_apart_each(a, b);
}

/// No licence type of `hangzhou_cb_license_types` shares an identifier with one of `shanghai_frb_license_types`.
proof fn lemma_hangzhou_cb_license_types_apart_from_shanghai_frb_license_types()
    ensures
        license_type_ids_apart(spec_hangzhou_cb_license_types(), spec_shanghai_frb_license_types()),
{
    let a = spec_hangzhou_cb_license_types();
    let b = spec_shanghai_frb_license_types();
    assert(apart_each(a, b)) by {
        reveal_strlit("cn-hangzhou-cb:cross-border-ecommerce");
        reveal_strlit("cn-hangzhou-cb:digital-trade");
        reveal_strlit("cn-shanghai-frb:fintech-pilot");
        reveal_strlit("cn-shanghai-frb:local-financial-org");
        assert(a[0].license_type_id[3] != b[0].license_type_id[3]);
        assert(a[0].license_type_id[3] != b[1].license_type_id[3]);
        assert(a[1].license_type_id[3] != b[0].license_type_id[3]);
        assert(a[1].license_type_id[3] != b[1].license_type_id[3]);
        reveal_with_fuel(apart_each, 3);
        reveal_with_fuel(id_fresh_each, 3);
    }
    lemma_apart_each(a, b);
}

/// No licence type of `hangzhou_cb_license_types` shares an identifier with one of `beijing_frb_license_types`.
proof fn lemma_hangzhou_cb_license_types_apart_from_beijing_frb_license_types()
    ensures
        license_type_ids_apart(spec_hangzhou_cb_license_types(), spec_beijing_frb_license_types()),
{
    let a = spec_hangzhou_cb_license_types();
    let b = spec_beijing_frb_license_types();
    assert(apart_each(a, b)) by {
        reveal_strlit("cn-beijing-frb:digital-asset-pilot");
        reveal_strlit("cn-beijing-frb:fintech-sandbox");
        reveal_strlit("cn-beijing-frb:local-financial-org");
        reveal_strlit("cn-hangzhou-cb:cross-border-ecommerce");
        reveal_strlit("cn-hangzhou-cb:digital-trade");
        assert(a[0].license_type_id[3] != b[0].license_type_id[3]);
        assert(a[0].license_type_id[3] != b[1].license_type_id[3]);
        assert(a[0].license_type_id[3] != b[2].license_type_id[3]);
        assert(a[1].license_type_id[3] != b[0].license_type_id[3]);
        assert(a[1].license_type_id[3] != b[1].license_type_id[3]);
        assert(a[1].license_type_id[3] != b[2].license_type_id[3]);
        reveal_with_fuel(apart_each, 3);
        reveal_with_fuel(id_fresh_each, 4);
    }
    lemma_apart_each(a, b);
}

/// No licence type of `shenzhen_frb_license_types` shares an identifier with one of `shanghai_ftz_license_types`.
proof fn lemma_shenzhen_frb_license_types_apart_from_shanghai_ftz_license_types()
    ensures
        license_type_ids_apart(spec_shenzhen_frb_license_types(), spec_shanghai_ftz_license_types()),
{
    let a = spec_shenzhen_frb_license_types();
    let b = spec_shanghai_ftz_license_types();
    assert(apart_each(a, b)) by {
        reveal_strlit("cn-shanghai-ftz:business-registration");
        reveal_strlit("cn-shanghai-ftz:financial-innovation");
        reveal_strlit("cn-shanghai-ftz:wfoe");
        reveal_strlit("cn-shenzhen-frb:digital-asset-pilot");
        reveal_strlit("cn-shenzhen-frb:digital-rmb-pilot");
        reveal_strlit("cn-shenzhen-frb:fintech-sandbox");
        reveal_strlit("cn-shenzhen-frb:qianhai-cooperation");
        assert(a[0].license_type_id[5] != b[0].license_type_id[5]);
        assert(a[0].license_type_id[5] != b[1].license_type_id[5]);
        assert(a[0].license_type_id[5] != b[2].license_type_id[5]);
        assert(a[1].license_type_id[5] != b[0].license_type_id[5]);
        assert(a[1].license_type_id[5] != b[1].license_type_id[5]);
        assert(a[1].license_type_id[5] != b[2].license_type_id[5]);
        assert(a[2].license_type_id[5] != b[0].license_type_id[5]);
        assert(a[2].license_type_id[5] != b[1].license_type_id[5]);
        assert(a[2].license_type_id[5] != b[2].license_type_id[5]);
        assert(a[3].license_type_id[5] != b[0].license_type_id[5]);
        assert(a[3].license_type_id[5] != b[1].license_type_id[5]);
        assert(a[3].license_type_id[5] != b[2].license_type_id[5]);
        reveal_with_fuel(apart_each, 5);
        reveal_with_fuel(id_fresh_each, 4);
    }
    lemma_apart_each(a, b);
}

/// No licence type of `shenzhen_frb_license_types` shares an identifier with one of `shanghai_frb_license_types`.
proof fn lemma_shenzhen_frb_license_types_apart_from_shanghai_frb_license_types()
    ensures
        license_type_ids_apart(spec_shenzhen_frb_license_types(), spec_shanghai_frb_license_types()),
{
    let a = spec_shenzhen_frb_license_types();
    let b = spec_shanghai_frb_license_types();
    assert(apart_each(a, b)) by {
        reveal_strlit("cn-shanghai-frb:fintech-pilot");
        reveal_strlit("cn-shanghai-frb:local-financial-org");
        reveal_strlit("cn-shenzhen-frb:digital-asset-pilot");
        reveal_strlit("cn-shenzhen-frb:digital-rmb-pilot");
        reveal_strlit("cn-shenzhen-frb:fintech-sandbox");
        reveal_strlit("cn-shenzhen-frb:qianhai-cooperation");
        assert(a[0].license_type_id[5] != b[0].license_type_id[5]);
        assert(a[0].license_type_id[5] != b[1].license_type_id[5]);
        assert(a[1].license_type_id[5] != b[0].license_type_id[5]);
        assert(a[1].license_type_id[5] != b[1].license_type_id[5]);
        assert(a[2].license_type_id[5] != b[0].license_type_id[5]);
        assert(a[2].license_type_id[5] != b[1].license_type_id[5]);
        assert(a[3].license_type_id[5] != b[0].license_type_id[5]);
        assert(a[3].license_type_id[5] != b[1].license_type_id[5]);
        reveal_with_fuel(apart_each, 5);
        reveal_with_fuel(id_fresh_each, 3);
    }
    lemma_apart_each(a, b);
}

/// No licence type of `shenzhen_frb_license_types` shares an identifier with one of `beijing_frb_license_types`.
proof fn lemma_shenzhen_frb_license_types_apart_from_beijing_frb_license_types()
    ensures
        license_type_ids_apart(spec_shenzhen_frb_license_types(), spec_beijing_frb_license_types()),
{
    let a = spec_shenzhen_frb_license_types();
    let b = spec_beijing_frb_license_types();
    assert(apart_each(a, b)) by {
        reveal_strlit("cn-beijing-frb:digital-asset-pilot");
        reveal_strlit("cn-beijing-frb:fintech-sandbox");
        reveal_strlit("cn-beijing-frb:local-financial-org");
        reveal_strlit("cn-shenzhen-frb:digital-asset-pilot");
        reveal_strlit("cn-shenzhen-frb:digital-rmb-pilot");
        reveal_strlit("cn-shenzhen-frb:fintech-sandbox");
        reveal_strlit("cn-shenzhen-frb:qianhai-cooperation");
        assert(a[0].license_type_id[3] != b[0].license_type_id[3]);
        assert(a[0].license_type_id[3] != b[1].license_type_id[3]);
        assert(a[0].license_type_id[3] != b[2].license_type_id[3]);
        assert(a[1].license_type_id[3] != b[0].license_type_id[3]);
        assert(a[1].license_type_id[3] != b[1].license_type_id[3]);
        assert(a[1].license_type_id[3] != b[2].license_type_id[3]);
        assert(a[2].license_type_id[3] != b[0].license_type_id[3]);
        assert(a[2].license_type_id[3] != b[1].license_type_id[3]);
        assert(a[2].license_type_id[3] != b[2].license_type_id[3]);
        assert(a[3].license_type_id[3] != b[0].license_type_id[3]);
        assert(a[3].license_type_id[3] != b[1].license_type_id[3]);
        assert(a[3].license_type_id[3] != b[2].license_type_id[3]);
        reveal_with_fuel(apart_each, 5);
        reveal_with_fuel(id_fresh_each, 4);
    }
    lemma_apart_each(a, b);
}

/// No licence type of `shanghai_ftz_license_types` shares an identifier with one of `shanghai_frb_license_types`.
proof fn lemma_shanghai_ftz_license_types_apart_from_shanghai_frb_license_types()
    ensures
        license_type_ids_apart(spec_shanghai_ftz_license_types(), spec_shanghai_frb_license_types()),
{
    let a = spec_shanghai_ftz_license_types();
    let b = spec_shanghai_frb_license_types();
    assert(apart_each(a, b)) by {
        reveal_strlit("cn-shanghai-frb:fintech-pilot");
        reveal_strlit("cn-shanghai-frb:local-financial-org");
        reveal_strlit("cn-shanghai-ftz:business-registration");
        reveal_strlit("cn-shanghai-ftz:financial-innovation");
        reveal_strlit("cn-shanghai-ftz:wfoe");
        assert(a[0].license_type_id[13] != b[0].license_type_id[13]);
        assert(a[0].license_type_id[13] != b[1].license_type_id[13]);
        assert(a[1].license_type_id[13] != b[0].license_type_id[13]);
        assert(a[1].license_type_id[13] != b[1].license_type_id[13]);
        assert(a[2].license_type_id[13] != b[0].license_type_id[13]);
        assert(a[2].license_type_id[13] != b[1].license_type_id[13]);
        reveal_with_fuel(apart_each, 4);
        reveal_with_fuel(id_fresh_each, 3);
    }
    lemma_apart_each(a, b);
}

/// No licence type of `shanghai_ftz_license_types` shares an identifier with one of `beijing_frb_license_types`.
proof fn lemma_shanghai_ftz_license_types_apart_from_beijing_frb_license_types()
    ensures
        license_type_ids_apart(spec_shanghai_ftz_license_types(), spec_beijing_frb_license_types()),
{
    let a = spec_shanghai_ftz_license_types();
    let b = spec_beijing_frb_license_types();
    assert(apart_each(a, b)) by {
        reveal_strlit("cn-beijing-frb:digital-asset-pilot");
        reveal_strlit("cn-beijing-frb:fintech-sandbox");
        reveal_strlit("cn-beijing-frb:local-financial-org");
        reveal_strlit("cn-shanghai-ftz:business-registration");
        reveal_strlit("cn-shanghai-ftz:financial-innovation");
        reveal_strlit("cn-shanghai-ftz:wfoe");
        assert(a[0].license_type_id[3] != b[0].license_type_id[3]);
        assert(a[0].license_type_id[3] != b[1].license_type_id[3]);
        assert(a[0].license_type_id[3] != b[2].license_type_id[3]);
        assert(a[1].license_type_id[3] != b[0].license_type_id[3]);
        assert(a[1].license_type_id[3] != b[1].license_type_id[3]);
        assert(a[1].license_type_id[3] != b[2].license_type_id[3]);
        assert(a[2].license_type_id[3] != b[0].license_type_id[3]);
        assert(a[2].license_type_id[3] != b[1].license_type_id[3]);
        assert(a[2].license_type_id[3] != b[2].license_type_id[3]);
        reveal_with_fuel(apart_each, 4);
        reveal_with_fuel(id_fresh_each, 4);
    }
    lemma_apart_each(a, b);
}

/// No licence type of `shanghai_frb_license_types` shares an identifier with one of `beijing_frb_license_types`.
proof fn lemma_shanghai_frb_license_types_apart_from_beijing_frb_license_types()
    ensures
        license_type_ids_apart(spec_shanghai_frb_license_types(), spec_beijing_frb_license_types()),
{
    let a = spec_shanghai_frb_license_types();
    let b = spec_beijing_frb_license_types();
    assert(apart_each(a, b)) by {
        reveal_strlit("cn-beijing-frb:digital-asset-pilot");
        reveal_strlit("cn-beijing-frb:fintech-sandbox");
        reveal_strlit("cn-beijing-frb:local-financial-org");
        reveal_strlit("cn-shanghai-frb:fintech-pilot");
        reveal_strlit("cn-shanghai-frb:local-financial-org");
        assert(a[0].license_type_id[3] != b[0].license_type_id[3]);
        assert(a[0].license_type_id[3] != b[1].license_type_id[3]);
        assert(a[0].license_type_id[3] != b[2].license_type_id[3]);
        assert(a[1].license_type_id[3] != b[0].license_type_id[3]);
        assert(a[1].license_type_id[3] != b[1].license_type_id[3]);
        assert(a[1].license_type_id[3] != b[2].license_type_id[3]);
        reveal_with_fuel(apart_each, 3);
        reveal_with_fuel(id_fresh_each, 4);
    }
    lemma_apart_each(a, b);
}

/// No two licence types of `china_license_types` share an identifier.
pub proof fn lemma_china_license_type_ids_distinct()
    ensures
        license_type_ids_distinct(spec_china_license_types()),
{
    lemma_pboc_license_types_ids_distinct();
    lemma_nfra_license_types_ids_distinct();
    lemma_csrc_license_types_ids_distinct();
    lemma_safe_license_types_ids_distinct();
    lemma_hainan_ftp_license_types_ids_distinct();
    lemma_hangzhou_cb_license_types_ids_distinct();
    lemma_shenzhen_frb_license_types_ids_distinct();
    lemma_shanghai_ftz_license_types_ids_distinct();
    lemma_shanghai_frb_license_types_ids_distinct();
    lemma_beijing_frb_license_types_ids_distinct();
    assert(spec_china_license_types() =~= spec_pboc_license_types() + spec_nfra_license_types() + spec_csrc_license_types() + spec_safe_license_types() + spec_hainan_ftp_license_types() + spec_hangzhou_cb_license_types() + spec_shenzhen_frb_license_types() + spec_shanghai_ftz_license_types() + spec_shanghai_frb_license_types() + spec_beijing_frb_license_types());
    let acc = spec_pboc_license_types();
    lemma_pboc_license_types_apart_from_nfra_license_types();
    let part = spec_pboc_license_types();
    lemma_ids_distinct_append(acc, spec_nfra_license_types());
    let acc = acc + spec_nfra_license_types();
    lemma_pboc_license_types_apart_from_csrc_license_types();
    lemma_nfra_license_types_apart_from_csrc_license_types();
    let part = spec_pboc_license_types();
    lemma_ids_apart_append(part, spec_nfra_license_types(), spec_csrc_license_types());
    let part = part + spec_nfra_license_types();
    lemma_ids_distinct_append(acc, spec_csrc_license_types());
    let acc = acc + spec_csrc_license_types();
    lemma_pboc_license_types_apart_from_safe_license_types();
    lemma_nfra_license_types_apart_from_safe_license_types();
    lemma_csrc_license_types_apart_from_safe_license_types();
    let part = spec_pboc_license_types();
    lemma_ids_apart_append(part, spec_nfra_license_types(), spec_safe_license_types());
    let part = part + spec_nfra_license_types();
    lemma_ids_apart_append(part, spec_csrc_license_types(), spec_safe_license_types());
    let part = part + spec_csrc_license_types();
    lemma_ids_distinct_append(acc, spec_safe_license_types());
    let acc = acc + spec_safe_license_types();
    lemma_pboc_license_types_apart_from_hainan_ftp_license_types();
    lemma_nfra_license_types_apart_from_hainan_ftp_license_types();
    lemma_csrc_license_types_apart_from_hainan_ftp_license_types();
    lemma_safe_license_types_apart_from_hainan_ftp_license_types();
    let part = spec_pboc_license_types();
    lemma_ids_apart_append(part, spec_nfra_license_types(), spec_hainan_ftp_license_types());
    let part = part + spec_nfra_license_types();
    lemma_ids_apart_append(part, spec_csrc_license_types(), spec_hainan_ftp_license_types());
    let part = part + spec_csrc_license_types();
    lemma_ids_apart_append(part, spec_safe_license_types(), spec_hainan_ftp_license_types());
    let part = part + spec_safe_license_types();
    lemma_ids_distinct_append(acc, spec_hainan_ftp_license_types());
    let acc = acc + spec_hainan_ftp_license_types();
    lemma_pboc_license_types_apart_from_hangzhou_cb_license_types();
    lemma_nfra_license_types_apart_from_hangzhou_cb_license_types();
    lemma_csrc_license_types_apart_from_hangzhou_cb_license_types();
    lemma_safe_license_types_apart_from_hangzhou_cb_license_types();
    lemma_hainan_ftp_license_types_apart_from_hangzhou_cb_license_types();
    let part = spec_pboc_license_types();
    lemma_ids_apart_append(part, spec_nfra_license_types(), spec_hangzhou_cb_license_types());
    let part = part + spec_nfra_license_types();
    lemma_ids_apart_append(part, spec_csrc_license_types(), spec_hangzhou_cb_license_types());
    let part = part + spec_csrc_license_types();
    lemma_ids_apart_append(part, spec_safe_license_types(), spec_hangzhou_cb_license_types());
    let part = part + spec_safe_license_types();
    lemma_ids_apart_append(part, spec_hainan_ftp_license_types(), spec_hangzhou_cb_license_types());
    let part = part + spec_hainan_ftp_license_types();
    lemma_ids_distinct_append(acc, spec_hangzhou_cb_license_types());
    let acc = acc + spec_hangzhou_cb_license_types();
    lemma_pboc_license_types_apart_from_shenzhen_frb_license_types();
    lemma_nfra_license_types_apart_from_shenzhen_frb_license_types();
    lemma_csrc_license_types_apart_from_shenzhen_frb_license_types();
    lemma_safe_license_types_apart_from_shenzhen_frb_license_types();
    lemma_hainan_ftp_license_types_apart_from_shenzhen_frb_license_types();
    lemma_hangzhou_cb_license_types_apart_from_shenzhen_frb_license_types();
    let part = spec_pboc_license_types();
    lemma_ids_apart_append(part, spec_nfra_license_types(), spec_shenzhen_frb_license_types());
    let part = part + spec_nfra_license_types();
    lemma_ids_apart_append(part, spec_csrc_license_types(), spec_shenzhen_frb_license_types());
    let part = part + spec_csrc_license_types();
    lemma_ids_apart_append(part, spec_safe_license_types(), spec_shenzhen_frb_license_types());
    let part = part + spec_safe_license_types();
    lemma_ids_apart_append(part, spec_hainan_ftp_license_types(), spec_shenzhen_frb_license_types());
    let part = part + spec_hainan_ftp_license_types();
    lemma_ids_apart_append(part, spec_hangzhou_cb_license_types(), spec_shenzhen_frb_license_types());
    let part = part + spec_hangzhou_cb_license_types();
    lemma_ids_distinct_append(acc, spec_shenzhen_frb_license_types());
    let acc = acc + spec_shenzhen_frb_license_types();
    lemma_pboc_license_types_apart_from_shanghai_ftz_license_types();
    lemma_nfra_license_types_apart_from_shanghai_ftz_license_types();
    lemma_csrc_license_types_apart_from_shanghai_ftz_license_types();
    lemma_safe_license_types_apart_from_shanghai_ftz_license_types();
    lemma_hainan_ftp_license_types_apart_from_shanghai_ftz_license_types();
    lemma_hangzhou_cb_license_types_apart_from_shanghai_ftz_license_types();
    lemma_shenzhen_frb_license_types_apart_from_shanghai_ftz_license_types();
    let part = spec_pboc_license_types();
    lemma_ids_apart_append(part, spec_nfra_license_types(), spec_shanghai_ftz_license_types());
    let part = part + spec_nfra_license_types();
    lemma_ids_apart_append(part, spec_csrc_license_types(), spec_shanghai_ftz_license_types());
    let part = part + spec_csrc_license_types();
    lemma_ids_apart_append(part, spec_safe_license_types(), spec_shanghai_ftz_license_types());
    let part = part + spec_safe_license_types();
    lemma_ids_apart_append(part, spec_hainan_ftp_license_types(), spec_shanghai_ftz_license_types());
    let part = part + spec_hainan_ftp_license_types();
    lemma_ids_apart_append(part, spec_hangzhou_cb_license_types(), spec_shanghai_ftz_license_types());
    let part = part + spec_hangzhou_cb_license_types();
    lemma_ids_apart_append(part, spec_shenzhen_frb_license_types(), spec_shanghai_ftz_license_types());
    let part = part + spec_shenzhen_frb_license_types();
    lemma_ids_distinct_append(acc, spec_shanghai_ftz_license_types());
    let acc = acc + spec_shanghai_ftz_license_types();
    lemma_pboc_license_types_apart_from_shanghai_frb_license_types();
    lemma_nfra_license_types_apart_from_shanghai_frb_license_types();
    lemma_csrc_license_types_apart_from_shanghai_frb_license_types();
    lemma_safe_license_types_apart_from_shanghai_frb_license_types();
    lemma_hainan_ftp_license_types_apart_from_shanghai_frb_license_types();
    lemma_hangzhou_cb_license_types_apart_from_shanghai_frb_license_types();
    lemma_shenzhen_frb_license_types_apart_from_shanghai_frb_license_types();
    lemma_shanghai_ftz_license_types_apart_from_shanghai_frb_license_types();
    let part = spec_pboc_license_types();
    lemma_ids_apart_append(part, spec_nfra_license_types(), spec_shanghai_frb_license_types());
    let part = part + spec_nfra_license_types();
    lemma_ids_apart_append(part, spec_csrc_license_types(), spec_shanghai_frb_license_types());
    let part = part + spec_csrc_license_types();
    lemma_ids_apart_append(part, spec_safe_license_types(), spec_shanghai_frb_license_types());
    let part = part + spec_safe_license_types();
    lemma_ids_apart_append(part, spec_hainan_ftp_license_types(), spec_shanghai_frb_license_types());
    let part = part + spec_hainan_ftp_license_types();
    lemma_ids_apart_append(part, spec_hangzhou_cb_license_types(), spec_shanghai_frb_license_types());
    let part = part + spec_hangzhou_cb_license_types();
    lemma_ids_apart_append(part, spec_shenzhen_frb_license_types(), spec_shanghai_frb_license_types());
    let part = part + spec_shenzhen_frb_license_types();
    lemma_ids_apart_append(part, spec_shanghai_ftz_license_types(), spec_shanghai_frb_license_types());
    let part = part + spec_shanghai_ftz_license_types();
    lemma_ids_distinct_append(acc, spec_shanghai_frb_license_types());
    let acc = acc + spec_shanghai_frb_license_types();
    lemma_pboc_license_types_apart_from_beijing_frb_license_types();
    lemma_nfra_license_types_apart_from_beijing_frb_license_types();
    lemma_csrc_license_types_apart_from_beijing_frb_license_types();
    lemma_safe_license_types_apart_from_beijing_frb_license_types();
    lemma_hainan_ftp_license_types_apart_from_beijing_frb_license_types();
    lemma_hangzhou_cb_license_types_apart_from_beijing_frb_license_types();
    lemma_shenzhen_frb_license_types_apart_from_beijing_frb_license_types();
    lemma_shanghai_ftz_license_types_apart_from_beijing_frb_license_types();
    lemma_shanghai_frb_license_types_apart_from_beijing_frb_license_types();
    let part = spec_pboc_license_types();
    lemma_ids_apart_append(part, spec_nfra_license_types(), spec_beijing_frb_license_types());
    let part = part + spec_nfra_license_types();
    lemma_ids_apart_append(part, spec_csrc_license_types(), spec_beijing_frb_license_types());
    let part = part + spec_csrc_license_types();
    lemma_ids_apart_append(part, spec_safe_license_types(), spec_beijing_frb_license_types());
    let part = part + spec_safe_license_types();
    lemma_ids_apart_append(part, spec_hainan_ftp_license_types(), spec_beijing_frb_license_types());
    let part = part + spec_hainan_ftp_license_types();
    lemma_ids_apart_append(part, spec_hangzhou_cb_license_types(), spec_beijing_frb_license_types());
    let part = part + spec_hangzhou_cb_license_types();
    lemma_ids_apart_append(part, spec_shenzhen_frb_license_types(), spec_beijing_frb_license_types());
    let part = part + spec_shenzhen_frb_license_types();
    lemma_ids_apart_append(part, spec_shanghai_ftz_license_types(), spec_beijing_frb_license_types());
    let part = part + spec_shanghai_ftz_license_types();
    lemma_ids_apart_append(part, spec_shanghai_frb_license_types(), spec_beijing_frb_license_types());
    let part = part + spec_shanghai_frb_license_types();
    lemma_ids_distinct_append(acc, spec_beijing_frb_license_types());
    let acc = acc + spec_beijing_frb_license_types();
    assert(spec_china_license_types() == acc);
}

/// Each licence-type identifier of `pboc_license_types` starts with its regulator's
/// identifier and a colon.
proof fn lemma_pboc_license_types_prefixed()
    ensures
        license_type_ids_prefixed(spec_pboc_license_types()),
{
    let ts = spec_pboc_license_types();
    assert(license_type_id_prefixed(ts[0])) by {
        reveal_strlit("cn-pboc:payment-institution");
        reveal_strlit("cn-pboc");
        reveal_strlit(":");
        assert(ts[0].license_type_id.subrange(0, (ts[0].regulator_id + ":"@).len() as int) =~= ts[0].regulator_id + ":"@);
    }
    assert(license_type_id_prefixed(ts[1])) by {
        reveal_strlit("cn-pboc:cross-border-payment");
        reveal_strlit("cn-pboc");
        reveal_strlit(":");
        assert(ts[1].license_type_id.subrange(0, (ts[1].regulator_id + ":"@).len() as int) =~= ts[1].regulator_id + ":"@);
    }
    assert(license_type_id_prefixed(ts[2])) by {
        reveal_strlit("cn-pboc:credit-reporting");
        reveal_strlit("cn-pboc");
        reveal_strlit(":");
        assert(ts[2].license_type_id.subrange(0, (ts[2].regulator_id + ":"@).len() as int) =~= ts[2].regulator_id + ":"@);
    }
    assert(prefixed_each(ts)) by {
        reveal_with_fuel(prefixed_each, 4);
    }
    lemma_prefixed_each(ts);
}

/// Each licence-type identifier of `nfra_license_types` starts with its regulator's
/// identifier and a colon.
proof fn lemma_nfra_license_types_prefixed()
    ensures
        license_type_ids_prefixed(spec_nfra_license_types()),
{
    let ts = spec_nfra_license_types();
    assert(license_type_id_prefixed(ts[0])) by {
        reveal_strlit("cn-nfra:commercial-bank");
        reveal_strlit("cn-nfra");
        reveal_strlit(":");
        assert(ts[0].license_type_id.subrange(0, (ts[0].regulator_id + ":"@).len() as int) =~= ts[0].regulator_id + ":"@);
    }
    assert(license_type_id_prefixed(ts[1])) by {
        reveal_strlit("cn-nfra:insurance-company");
        reveal_strlit("cn-nfra");
        reveal_strlit(":");
        assert(ts[1].license_type_id.subrange(0, (ts[1].regulator_id + ":"@).len() as int) =~= ts[1].regulator_id + ":"@);
    }
    assert(license_type_id_prefixed(ts[2])) by {
        reveal_strlit("cn-nfra:trust-company");
        reveal_strlit("cn-nfra");
        reveal_strlit(":");
        assert(ts[2].license_type_id.subrange(0, (ts[2].regulator_id + ":"@).len() as int) =~= ts[2].regulator_id + ":"@);
    }
    assert(license_type_id_prefixed(ts[3])) by {
        reveal_strlit("cn-nfra:consumer-finance");
        reveal_strlit("cn-nfra");
        reveal_strlit(":");
        assert(ts[3].license_type_id.subrange(0, (ts[3].regulator_id + ":"@).len() as int) =~= ts[3].regulator_id + ":"@);
    }
    assert(prefixed_each(ts)) by {
        reveal_with_fuel(prefixed_each, 5);
    }
    lemma_prefixed_each(ts);
}

/// Each licence-type identifier of `csrc_license_types` starts with its regulator's
/// identifier and a colon.
proof fn lemma_csrc_license_types_prefixed()
    ensures
        license_type_ids_prefixed(spec_csrc_license_types()),
{
    let ts = spec_csrc_license_types();
    assert(license_type_id_prefixed(ts[0])) by {
        reveal_strlit("cn-csrc:securities-company");
        reveal_strlit("cn-csrc");
        reveal_strlit(":");
        assert(ts[0].license_type_id.subrange(0, (ts[0].regulator_id + ":"@).len() as int) =~= ts[0].regulator_id + ":"@);
    }
    assert(license_type_id_prefixed(ts[1])) by {
        reveal_strlit("cn-csrc:fund-management");
        reveal_strlit("cn-csrc");
        reveal_strlit(":");
        assert(ts[1].license_type_id.subrange(0, (ts[1].regulator_id + ":"@).len() as int) =~= ts[1].regulator_id + ":"@);
    }
    assert(license_type_id_prefixed(ts[2])) by {
        reveal_strlit("cn-csrc:futures-company");
        reveal_strlit("cn-csrc");
        reveal_strlit(":");
        assert(ts[2].license_type_id.subrange(0, (ts[2].regulator_id + ":"@).len() as int) =~= ts[2].regulator_id + ":"@);
    }
    assert(license_type_id_prefixed(ts[3])) by {
        reveal_strlit("cn-csrc:investment-advisory");
        reveal_strlit("cn-csrc");
        reveal_strlit(":");
        assert(ts[3].license_type_id.subrange(0, (ts[3].regulator_id + ":"@).len() as int) =~= ts[3].regulator_id + ":"@);
    }
    assert(prefixed_each(ts)) by {
        reveal_with_fuel(prefixed_each, 5);
    }
    lemma_prefixed_each(ts);
}

/// Each licence-type identifier of `safe_license_types` starts with its regulator's
/// identifier and a colon.
proof fn lemma_safe_license_types_prefixed()
    ensures
        license_type_ids_prefixed(spec_safe_license_types()),
{
    let ts = spec_safe_license_types();
    assert(license_type_id_prefixed(ts[0])) by {
        reveal_strlit("cn-safe:forex-trading");
        reveal_strlit("cn-safe");
        reveal_strlit(":");
        assert(ts[0].license_type_id.subrange(0, (ts[0].regulator_id + ":"@).len() as int) =~= ts[0].regulator_id + ":"@);
    }
    assert(license_type_id_prefixed(ts[1])) by {
        reveal_strlit("cn-safe:cross-border-investment");
        reveal_strlit("cn-safe");
        reveal_strlit(":");
        assert(ts[1].license_type_id.subrange(0, (ts[1].regulator_id + ":"@).len() as int) =~= ts[1].regulator_id + ":"@);
    }
    assert(prefixed_each(ts)) by {
        reveal_with_fuel(prefixed_each, 3);
    }
    lemma_prefixed_each(ts);
}

/// Each licence-type identifier of `hainan_ftp_license_types` starts with its regulator's
/// identifier and a colon.
proof fn lemma_hainan_ftp_license_types_prefixed()
    ensures
        license_type_ids_prefixed(spec_hainan_ftp_license_types()),
{
    let ts = spec_hainan_ftp_license_types();
    assert(license_type_id_prefixed(ts[0])) by {
        reveal_strlit("cn-hainan-ftp:cross-border-trade");
        reveal_strlit("cn-hainan-ftp");
        reveal_strlit(":");
        assert(ts[0].license_type_id.subrange(0, (ts[0].regulator_id + ":"@).len() as int) =~= ts[0].regulator_id + ":"@);
    }
    assert(license_type_id_prefixed(ts[1])) by {
        reveal_strlit("cn-hainan-ftp:negative-list-sector");
        reveal_strlit("cn-hainan-ftp");
        reveal_strlit(":");
        assert(ts[1].license_type_id.subrange(0, (ts[1].regulator_id + ":"@).len() as int) =~= ts[1].regulator_id + ":"@);
    }
    assert(license_type_id_prefixed(ts[2])) by {
        reveal_strlit("cn-hainan-ftp:qflp");
        reveal_strlit("cn-hainan-ftp");
        reveal_strlit(":");
        assert(ts[2].license_type_id.subrange(0, (ts[2].regulator_id + ":"@).len() as int) =~= ts[2].regulator_id + ":"@);
    }
    assert(license_type_id_prefixed(ts[3])) by {
        reveal_strlit("cn-hainan-ftp:qdlp");
        reveal_strlit("cn-hainan-ftp");
        reveal_strlit(":");
        assert(ts[3].license_type_id.subrange(0, (ts[3].regulator_id + ":"@).len() as int) =~= ts[3].regulator_id + ":"@);
    }
    assert(prefixed_each(ts)) by {
        reveal_with_fuel(prefixed_each, 5);
    }
    lemma_prefixed_each(ts);
}

/// Each licence-type identifier of `hangzhou_cb_license_types` starts with its regulator's
/// identifier and a colon.
proof fn lemma_hangzhou_cb_license_types_prefixed()
    ensures
        license_type_ids_prefixed(spec_hangzhou_cb_license_types()),
{
    let ts = spec_hangzhou_cb_license_types();
    assert(license_type_id_prefixed(ts[0])) by {
        reveal_strlit("cn-hangzhou-cb:cross-border-ecommerce");
        reveal_strlit("cn-hangzhou-cb");
        reveal_strlit(":");
        assert(ts[0].license_type_id.subrange(0, (ts[0].regulator_id + ":"@).len() as int) =~= ts[0].regulator_id + ":"@);
    }
    assert(license_type_id_prefixed(ts[1])) by {
        reveal_strlit("cn-hangzhou-cb:digital-trade");
        reveal_strlit("cn-hangzhou-cb");
        reveal_strlit(":");
        assert(ts[1].license_type_id.subrange(0, (ts[1].regulator_id + ":"@).len() as int) =~= ts[1].regulator_id + ":"@);
    }
    assert(prefixed_each(ts)) by {
        reveal_with_fuel(prefixed_each, 3);
    }
    lemma_prefixed_each(ts);
}

/// Each licence-type identifier of `shenzhen_frb_license_types` starts with its regulator's
/// identifier and a colon.
proof fn lemma_shenzhen_frb_license_types_prefixed()
    ensures
        license_type_ids_prefixed(spec_shenzhen_frb_license_types()),
{
    let ts = spec_shenzhen_frb_license_types();
    assert(license_type_id_prefixed(ts[0])) by {
        reveal_strlit("cn-shenzhen-frb:fintech-sandbox");
        reveal_strlit("cn-shenzhen-frb");
        reveal_strlit(":");
        assert(ts[0].license_type_id.subrange(0, (ts[0].regulator_id + ":"@).len() as int) =~= ts[0].regulator_id + ":"@);
    }
    assert(license_type_id_prefixed(ts[1])) by {
        reveal_strlit("cn-shenzhen-frb:digital-rmb-pilot");
        reveal_strlit("cn-shenzhen-frb");
        reveal_strlit(":");
        assert(ts[1].license_type_id.subrange(0, (ts[1].regulator_id + ":"@).len() as int) =~= ts[1].regulator_id + ":"@);
    }
    assert(license_type_id_prefixed(ts[2])) by {
        reveal_strlit("cn-shenzhen-frb:qianhai-cooperation");
        reveal_strlit("cn-shenzhen-frb");
        reveal_strlit(":");
        assert(ts[2].license_type_id.subrange(0, (ts[2].regulator_id + ":"@).len() as int) =~= ts[2].regulator_id + ":"@);
    }
    assert(license_type_id_prefixed(ts[3])) by {
        reveal_strlit("cn-shenzhen-frb:digital-asset-pilot");
        reveal_strlit("cn-shenzhen-frb");
        reveal_strlit(":");
        assert(ts[3].license_type_id.subrange(0, (ts[3].regulator_id + ":"@).len() as int) =~= ts[3].regulator_id + ":"@);
    }
    assert(prefixed_each(ts)) by {
        reveal_with_fuel(prefixed_each, 5);
    }
    lemma_prefixed_each(ts);
}

/// Each licence-type identifier of `shanghai_ftz_license_types` starts with its regulator's
/// identifier and a colon.
proof fn lemma_shanghai_ftz_license_types_prefixed()
    ensures
        license_type_ids_prefixed(spec_shanghai_ftz_license_types()),
{
    let ts = spec_shanghai_ftz_license_types();
    assert(license_type_id_prefixed(ts[0])) by {
        reveal_strlit("cn-shanghai-ftz:business-registration");
        reveal_strlit("cn-shanghai-ftz");
        reveal_strlit(":");
        assert(ts[0].license_type_id.subrange(0, (ts[0].regulator_id + ":"@).len() as int) =~= ts[0].regulator_id + ":"@);
    }
    assert(license_type_id_prefixed(ts[1])) by {
        reveal_strlit("cn-shanghai-ftz:wfoe");
        reveal_strlit("cn-shanghai-ftz");
        reveal_strlit(":");
        assert(ts[1].license_type_id.subrange(0, (ts[1].regulator_id + ":"@).len() as int) =~= ts[1].regulator_id + ":"@);
    }
    assert(license_type_id_prefixed(ts[2])) by {
        reveal_strlit("cn-shanghai-ftz:financial-innovation");
        reveal_strlit("cn-shanghai-ftz");
        reveal_strlit(":");
        assert(ts[2].license_type_id.subrange(0, (ts[2].regulator_id + ":"@).len() as int) =~= ts[2].regulator_id + ":"@);
    }
    assert(prefixed_each(ts)) by {
        reveal_with_fuel(prefixed_each, 4);
    }
    lemma_prefixed_each(ts);
}

/// Each licence-type identifier of `shanghai_frb_license_types` starts with its regulator's
/// identifier and a colon.
proof fn lemma_shanghai_frb_license_types_prefixed()
    ensures
        license_type_ids_prefixed(spec_shanghai_frb_license_types()),
{
    let ts = spec_shanghai_frb_license_types();
    assert(license_type_id_prefixed(ts[0])) by {
        reveal_strlit("cn-shanghai-frb:local-financial-org");
        reveal_strlit("cn-shanghai-frb");
        reveal_strlit(":");
        assert(ts[0].license_type_id.subrange(0, (ts[0].regulator_id + ":"@).len() as int) =~= ts[0].regulator_id + ":"@);
    }
    assert(license_type_id_prefixed(ts[1])) by {
        reveal_strlit("cn-shanghai-frb:fintech-pilot");
        reveal_strlit("cn-shanghai-frb");
        reveal_strlit(":");
        assert(ts[1].license_type_id.subrange(0, (ts[1].regulator_id + ":"@).len() as int) =~= ts[1].regulator_id + ":"@);
    }
    assert(prefixed_each(ts)) by {
        reveal_with_fuel(prefixed_each, 3);
    }
    lemma_prefixed_each(ts);
}

/// Each licence-type identifier of `beijing_frb_license_types` starts with its regulator's
/// identifier and a colon.
proof fn lemma_beijing_frb_license_types_prefixed()
    ensures
        license_type_ids_prefixed(spec_beijing_frb_license_types()),
{
    let ts = spec_beijing_frb_license_types();
    assert(license_type_id_prefixed(ts[0])) by {
        reveal_strlit("cn-beijing-frb:fintech-sandbox");
        reveal_strlit("cn-beijing-frb");
        reveal_strlit(":");
        assert(ts[0].license_type_id.subrange(0, (ts[0].regulator_id + ":"@).len() as int) =~= ts[0].regulator_id + ":"@);
    }
    assert(license_type_id_prefixed(ts[1])) by {
        reveal_strlit("cn-beijing-frb:local-financial-org");
        reveal_strlit("cn-beijing-frb");
        reveal_strlit(":");
        assert(ts[1].license_type_id.subrange(0, (ts[1].regulator_id + ":"@).len() as int) =~= ts[1].regulator_id + ":"@);
    }
    assert(license_type_id_prefixed(ts[2])) by {
        reveal_strlit("cn-beijing-frb:digital-asset-pilot");
        reveal_strlit("cn-beijing-frb");
        reveal_strlit(":");
        assert(ts[2].license_type_id.subrange(0, (ts[2].regulator_id + ":"@).len() as int) =~= ts[2].regulator_id + ":"@);
    }
    assert(prefixed_each(ts)) by {
        reveal_with_fuel(prefixed_each, 4);
    }
    lemma_prefixed_each(ts);
}

/// Every licence-type identifier of the Chinese catalog starts with the
/// identifier of the regulator that grants it, followed by a colon.
pub proof fn lemma_china_license_types_prefixed()
    ensures
        license_type_ids_prefixed(spec_china_license_types()),
{
    lemma_pboc_license_types_prefixed();
    lemma_nfra_license_types_prefixed();
    lemma_csrc_license_types_prefixed();
    lemma_safe_license_types_prefixed();
    lemma_hainan_ftp_license_types_prefixed();
    lemma_hangzhou_cb_license_types_prefixed();
    lemma_shenzhen_frb_license_types_prefixed();
    lemma_shanghai_ftz_license_types_prefixed();
    lemma_shanghai_frb_license_types_prefixed();
    lemma_beijing_frb_license_types_prefixed();
    lemma_prefixed_append(spec_pboc_license_types(), spec_nfra_license_types());
    lemma_prefixed_append(spec_pboc_license_types() + spec_nfra_license_types(), spec_csrc_license_types());
    lemma_prefixed_append(spec_pboc_license_types() + spec_nfra_license_types() + spec_csrc_license_types(), spec_safe_license_types());
    lemma_prefixed_append(spec_pboc_license_types() + spec_nfra_license_types() + spec_csrc_license_types() + spec_safe_license_types(), spec_hainan_ftp_license_types());
    lemma_prefixed_append(spec_pboc_license_types() + spec_nfra_license_types() + spec_csrc_license_types() + spec_safe_license_types() + spec_hainan_ftp_license_types(), spec_hangzhou_cb_license_types());
    lemma_prefixed_append(spec_pboc_license_types() + spec_nfra_license_types() + spec_csrc_license_types() + spec_safe_license_types() + spec_hainan_ftp_license_types() + spec_hangzhou_cb_license_types(), spec_shenzhen_frb_license_types());
    lemma_prefixed_append(spec_pboc_license_types() + spec_nfra_license_types() + spec_csrc_license_types() + spec_safe_license_types() + spec_hainan_ftp_license_types() + spec_hangzhou_cb_license_types() + spec_shenzhen_frb_license_types(), spec_shanghai_ftz_license_types());
    lemma_prefixed_append(spec_pboc_license_types() + spec_nfra_license_types() + spec_csrc_license_types() + spec_safe_license_types() + spec_hainan_ftp_license_types() + spec_hangzhou_cb_license_types() + spec_shenzhen_frb_license_types() + spec_shanghai_ftz_license_types(), spec_shanghai_frb_license_types());
    lemma_prefixed_append(spec_pboc_license_types() + spec_nfra_license_types() + spec_csrc_license_types() + spec_safe_license_types() + spec_hainan_ftp_license_types() + spec_hangzhou_cb_license_types() + spec_shenzhen_frb_license_types() + spec_shanghai_ftz_license_types() + spec_shanghai_frb_license_types(), spec_beijing_frb_license_types());
    assert(spec_china_license_types() =~= spec_pboc_license_types() + spec_nfra_license_types() + spec_csrc_license_types() + spec_safe_license_types() + spec_hainan_ftp_license_types() + spec_hangzhou_cb_license_types() + spec_shenzhen_frb_license_types() + spec_shanghai_ftz_license_types() + spec_shanghai_frb_license_types() + spec_beijing_frb_license_types());
}

} // verus!
