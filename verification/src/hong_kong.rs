//! # Hong Kong SAR Regulatory Authority License Mappings
//!
//! Hong Kong SAR-specific license type definitions covering the major
//! regulatory authorities:
//!
//! | Authority | Full Name | Domain |
//! |-----------|-----------|--------|
//! | **SFC** | Securities and Futures Commission | Securities, Asset Management, VA Trading |
//! | **HKMA** | Hong Kong Monetary Authority | Banking, SVF, MSO |
//! | **IA** | Insurance Authority | Insurance |
//! | **MPFA** | Mandatory Provident Fund Authority | MPF Trustees |
//! | **CR** | Companies Registry | Company Registration, TCSP |
//!
//! Each authority is represented as a [`LicensepackRegulator`] with its
//! associated [`LicenseTypeDefinition`] entries. These definitions provide
//! the Hong Kong-specific license taxonomy used by the compliance tensor's
//! LICENSING domain evaluation.

use vstd::prelude::*;

use crate::license::{
    license_type, license_type_view, license_types_view, regulator, regulator_view,
    regulators_view, LicenseTypeDefinition, LicenseTypeView, LicensepackRegulator,
    RegulatorView, RequirementValue,
    lemma_license_types_view_append, lemma_regulators_view_append,
};

use crate::catalog::{
    apart_each, id_fresh_each, ids_distinct_each, lemma_apart_each, lemma_ids_apart_append, lemma_ids_distinct_append, lemma_ids_distinct_each, license_type_ids_apart, license_type_ids_distinct, complete_each, every_regulator_grants, granted_by_each, granted_by_listed_regulators, grants_each, grants_some, in_jurisdiction_each, lemma_complete_append, lemma_complete_each, lemma_every_combine, lemma_granted_by_each, lemma_granted_combine, lemma_grants_each, lemma_in_jurisdiction_append, lemma_in_jurisdiction_each, license_types_complete, regulators_in_jurisdiction,
};

use crate::catalog::{
    lemma_prefixed_append, lemma_prefixed_each, license_type_id_prefixed, license_type_ids_prefixed,
    prefixed_each,
};

verus! {

/// The view of `sfc_regulator`.
pub open spec fn spec_sfc_regulator() -> RegulatorView {
    regulator_view(
        "hk-sfc"@,
        "Securities and Futures Commission"@,
        "hk"@,
        Some("https://www.sfc.hk"@),
        seq!["licensed_persons_register"@, "public_register_search"@],
    )
}

/// SFC regulator profile.
pub fn sfc_regulator() -> (r: LicensepackRegulator)
    ensures
        r@ == spec_sfc_regulator(),
        r@ == regulator_view(
            "hk-sfc"@,
            "Securities and Futures Commission"@,
            "hk"@,
            Some("https://www.sfc.hk"@),
            seq!["licensed_persons_register"@, "public_register_search"@],
        ),
{
    let r =
        regulator(
            "hk-sfc",
            "Securities and Futures Commission",
            "hk",
            Some("https://www.sfc.hk"),
            &["licensed_persons_register", "public_register_search"],
        );
    proof {
        assert(r@ =~~= spec_sfc_regulator());
    }
    r
}

/// The view of `sfc_license_types`.
pub open spec fn spec_sfc_license_types() -> Seq<LicenseTypeView> {
    seq![
        license_type_view(
            "hk-sfc:type-1-dealing-securities"@,
            "Type 1 — Dealing in Securities"@,
            "SFC license for dealing in securities under the Securities and Futures Ordinance"@,
            "hk-sfc"@,
            Some("financial"@),
            seq!["securities_dealing"@, "securities_distribution"@],
            seq![],
            seq![("HKD"@, "5260"@)],
            seq![("HKD"@, "4650"@)],
            None,
        ),
        license_type_view(
            "hk-sfc:type-2-dealing-futures"@,
            "Type 2 — Dealing in Futures Contracts"@,
            "SFC license for dealing in futures contracts"@,
            "hk-sfc"@,
            Some("financial"@),
            seq!["futures_dealing"@, "futures_distribution"@],
            seq![],
            seq![("HKD"@, "5260"@)],
            seq![("HKD"@, "4650"@)],
            None,
        ),
        license_type_view(
            "hk-sfc:type-3-leveraged-forex"@,
            "Type 3 — Leveraged Foreign Exchange Trading"@,
            "SFC license for leveraged foreign exchange trading"@,
            "hk-sfc"@,
            Some("financial"@),
            seq!["leveraged_forex_trading"@],
            seq![],
            seq![("HKD"@, "5260"@)],
            seq![("HKD"@, "4650"@)],
            None,
        ),
        license_type_view(
            "hk-sfc:type-4-advising-securities"@,
            "Type 4 — Advising on Securities"@,
            "SFC license for advising on securities"@,
            "hk-sfc"@,
            Some("financial"@),
            seq!["securities_advisory"@, "research_analysis"@],
            seq![],
            seq![("HKD"@, "5260"@)],
            seq![("HKD"@, "4650"@)],
            None,
        ),
        license_type_view(
            "hk-sfc:type-5-advising-futures"@,
            "Type 5 — Advising on Futures Contracts"@,
            "SFC license for advising on futures contracts"@,
            "hk-sfc"@,
            Some("financial"@),
            seq!["futures_advisory"@],
            seq![],
            seq![("HKD"@, "5260"@)],
            seq![("HKD"@, "4650"@)],
            None,
        ),
        license_type_view(
            "hk-sfc:type-6-corporate-finance"@,
            "Type 6 — Advising on Corporate Finance"@,
            "SFC license for advising on corporate finance"@,
            "hk-sfc"@,
            Some("financial"@),
            seq!["corporate_finance_advisory"@, "sponsor_services"@],
            seq![],
            seq![("HKD"@, "5260"@)],
            seq![("HKD"@, "4650"@)],
            None,
        ),
        license_type_view(
            "hk-sfc:type-7-automated-trading"@,
            "Type 7 — Providing Automated Trading Services"@,
            "SFC license for providing automated trading services"@,
            "hk-sfc"@,
            Some("financial"@),
            seq!["automated_trading_services"@, "dark_pool_operation"@],
            seq![],
            seq![("HKD"@, "5260"@)],
            seq![("HKD"@, "4650"@)],
            None,
        ),
        license_type_view(
            "hk-sfc:type-8-securities-margin"@,
            "Type 8 — Securities Margin Financing"@,
            "SFC license for securities margin financing"@,
            "hk-sfc"@,
            Some("financial"@),
            seq!["securities_margin_financing"@],
            seq![],
            seq![("HKD"@, "5260"@)],
            seq![("HKD"@, "4650"@)],
            None,
        ),
        license_type_view(
            "hk-sfc:type-9-asset-management"@,
            "Type 9 — Asset Management"@,
            "SFC license for asset management (fund management)"@,
            "hk-sfc"@,
            Some("financial"@),
            seq!["fund_management"@, "discretionary_account_management"@, "reit_management"@],
            seq![],
            seq![("HKD"@, "5260"@)],
            seq![("HKD"@, "4650"@)],
            None,
        ),
        license_type_view(
            "hk-sfc:type-10-credit-rating"@,
            "Type 10 — Providing Credit Rating Services"@,
            "SFC license for providing credit rating services"@,
            "hk-sfc"@,
            Some("financial"@),
            seq!["credit_rating"@],
            seq![],
            seq![("HKD"@, "5260"@)],
            seq![("HKD"@, "4650"@)],
            None,
        ),
        license_type_view(
            "hk-sfc:va-trading-platform"@,
            "Virtual Asset Trading Platform License"@,
            "SFC license to operate a virtual asset trading platform under the AMLO regime"@,
            "hk-sfc"@,
            Some("financial"@),
            seq!["virtual_asset_trading"@, "virtual_asset_custody"@, "virtual_asset_matching"@],
            seq![],
            seq![],
            seq![],
            Some(1i32),
        )
    ]
}

/// SFC license type definitions (Types 1-10 + VA trading platform).
pub fn sfc_license_types() -> (r: Vec<LicenseTypeDefinition>)
    ensures
        license_types_view(r@) == spec_sfc_license_types(),
        license_types_view(r@) == seq![
            license_type_view(
                "hk-sfc:type-1-dealing-securities"@,
                "Type 1 — Dealing in Securities"@,
                "SFC license for dealing in securities under the Securities and Futures Ordinance"@,
                "hk-sfc"@,
                Some("financial"@),
                seq!["securities_dealing"@, "securities_distribution"@],
                seq![],
                seq![("HKD"@, "5260"@)],
                seq![("HKD"@, "4650"@)],
                None,
            ),
            license_type_view(
                "hk-sfc:type-2-dealing-futures"@,
                "Type 2 — Dealing in Futures Contracts"@,
                "SFC license for dealing in futures contracts"@,
                "hk-sfc"@,
                Some("financial"@),
                seq!["futures_dealing"@, "futures_distribution"@],
                seq![],
                seq![("HKD"@, "5260"@)],
                seq![("HKD"@, "4650"@)],
                None,
            ),
            license_type_view(
                "hk-sfc:type-3-leveraged-forex"@,
                "Type 3 — Leveraged Foreign Exchange Trading"@,
                "SFC license for leveraged foreign exchange trading"@,
                "hk-sfc"@,
                Some("financial"@),
                seq!["leveraged_forex_trading"@],
                seq![],
                seq![("HKD"@, "5260"@)],
                seq![("HKD"@, "4650"@)],
                None,
            ),
            license_type_view(
                "hk-sfc:type-4-advising-securities"@,
                "Type 4 — Advising on Securities"@,
                "SFC license for advising on securities"@,
                "hk-sfc"@,
                Some("financial"@),
                seq!["securities_advisory"@, "research_analysis"@],
                seq![],
                seq![("HKD"@, "5260"@)],
                seq![("HKD"@, "4650"@)],
                None,
            ),
            license_type_view(
                "hk-sfc:type-5-advising-futures"@,
                "Type 5 — Advising on Futures Contracts"@,
                "SFC license for advising on futures contracts"@,
                "hk-sfc"@,
                Some("financial"@),
                seq!["futures_advisory"@],
                seq![],
                seq![("HKD"@, "5260"@)],
                seq![("HKD"@, "4650"@)],
                None,
            ),
            license_type_view(
                "hk-sfc:type-6-corporate-finance"@,
                "Type 6 — Advising on Corporate Finance"@,
                "SFC license for advising on corporate finance"@,
                "hk-sfc"@,
                Some("financial"@),
                seq!["corporate_finance_advisory"@, "sponsor_services"@],
                seq![],
                seq![("HKD"@, "5260"@)],
                seq![("HKD"@, "4650"@)],
                None,
            ),
            license_type_view(
                "hk-sfc:type-7-automated-trading"@,
                "Type 7 — Providing Automated Trading Services"@,
                "SFC license for providing automated trading services"@,
                "hk-sfc"@,
                Some("financial"@),
                seq!["automated_trading_services"@, "dark_pool_operation"@],
                seq![],
                seq![("HKD"@, "5260"@)],
                seq![("HKD"@, "4650"@)],
                None,
            ),
            license_type_view(
                "hk-sfc:type-8-securities-margin"@,
                "Type 8 — Securities Margin Financing"@,
                "SFC license for securities margin financing"@,
                "hk-sfc"@,
                Some("financial"@),
                seq!["securities_margin_financing"@],
                seq![],
                seq![("HKD"@, "5260"@)],
                seq![("HKD"@, "4650"@)],
                None,
            ),
            license_type_view(
                "hk-sfc:type-9-asset-management"@,
                "Type 9 — Asset Management"@,
                "SFC license for asset management (fund management)"@,
                "hk-sfc"@,
                Some("financial"@),
                seq!["fund_management"@, "discretionary_account_management"@, "reit_management"@],
                seq![],
                seq![("HKD"@, "5260"@)],
                seq![("HKD"@, "4650"@)],
                None,
            ),
            license_type_view(
                "hk-sfc:type-10-credit-rating"@,
                "Type 10 — Providing Credit Rating Services"@,
                "SFC license for providing credit rating services"@,
                "hk-sfc"@,
                Some("financial"@),
                seq!["credit_rating"@],
                seq![],
                seq![("HKD"@, "5260"@)],
                seq![("HKD"@, "4650"@)],
                None,
            ),
            license_type_view(
                "hk-sfc:va-trading-platform"@,
                "Virtual Asset Trading Platform License"@,
                "SFC license to operate a virtual asset trading platform under the AMLO regime"@,
                "hk-sfc"@,
                Some("financial"@),
                seq!["virtual_asset_trading"@, "virtual_asset_custody"@, "virtual_asset_matching"@],
                seq![],
                seq![],
                seq![],
                Some(1i32),
            )
        ],
{
    let r = vec![
        license_type(
            "hk-sfc:type-1-dealing-securities",
            "Type 1 — Dealing in Securities",
            "SFC license for dealing in securities under the Securities and Futures Ordinance",
            "hk-sfc",
            Some("financial"),
            &["securities_dealing", "securities_distribution"],
            &[],
            &[("HKD", "5260")],
            &[("HKD", "4650")],
            None,
        ),
        license_type(
            "hk-sfc:type-2-dealing-futures",
            "Type 2 — Dealing in Futures Contracts",
            "SFC license for dealing in futures contracts",
            "hk-sfc",
            Some("financial"),
            &["futures_dealing", "futures_distribution"],
            &[],
            &[("HKD", "5260")],
            &[("HKD", "4650")],
            None,
        ),
        license_type(
            "hk-sfc:type-3-leveraged-forex",
            "Type 3 — Leveraged Foreign Exchange Trading",
            "SFC license for leveraged foreign exchange trading",
            "hk-sfc",
            Some("financial"),
            &["leveraged_forex_trading"],
            &[],
            &[("HKD", "5260")],
            &[("HKD", "4650")],
            None,
        ),
        license_type(
            "hk-sfc:type-4-advising-securities",
            "Type 4 — Advising on Securities",
            "SFC license for advising on securities",
            "hk-sfc",
            Some("financial"),
            &["securities_advisory", "research_analysis"],
            &[],
            &[("HKD", "5260")],
            &[("HKD", "4650")],
            None,
        ),
        license_type(
            "hk-sfc:type-5-advising-futures",
            "Type 5 — Advising on Futures Contracts",
            "SFC license for advising on futures contracts",
            "hk-sfc",
            Some("financial"),
            &["futures_advisory"],
            &[],
            &[("HKD", "5260")],
            &[("HKD", "4650")],
            None,
        ),
        license_type(
            "hk-sfc:type-6-corporate-finance",
            "Type 6 — Advising on Corporate Finance",
            "SFC license for advising on corporate finance",
            "hk-sfc",
            Some("financial"),
            &["corporate_finance_advisory", "sponsor_services"],
            &[],
            &[("HKD", "5260")],
            &[("HKD", "4650")],
            None,
        ),
        license_type(
            "hk-sfc:type-7-automated-trading",
            "Type 7 — Providing Automated Trading Services",
            "SFC license for providing automated trading services",
            "hk-sfc",
            Some("financial"),
            &["automated_trading_services", "dark_pool_operation"],
            &[],
            &[("HKD", "5260")],
            &[("HKD", "4650")],
            None,
        ),
        license_type(
            "hk-sfc:type-8-securities-margin",
            "Type 8 — Securities Margin Financing",
            "SFC license for securities margin financing",
            "hk-sfc",
            Some("financial"),
            &["securities_margin_financing"],
            &[],
            &[("HKD", "5260")],
            &[("HKD", "4650")],
            None,
        ),
        license_type(
            "hk-sfc:type-9-asset-management",
            "Type 9 — Asset Management",
            "SFC license for asset management (fund management)",
            "hk-sfc",
            Some("financial"),
            &["fund_management", "discretionary_account_management", "reit_management"],
            &[],
            &[("HKD", "5260")],
            &[("HKD", "4650")],
            None,
        ),
        license_type(
            "hk-sfc:type-10-credit-rating",
            "Type 10 — Providing Credit Rating Services",
            "SFC license for providing credit rating services",
            "hk-sfc",
            Some("financial"),
            &["credit_rating"],
            &[],
            &[("HKD", "5260")],
            &[("HKD", "4650")],
            None,
        ),
        license_type(
            "hk-sfc:va-trading-platform",
            "Virtual Asset Trading Platform License",
            "SFC license to operate a virtual asset trading platform under the AMLO regime",
            "hk-sfc",
            Some("financial"),
            &["virtual_asset_trading", "virtual_asset_custody", "virtual_asset_matching"],
            &[],
            &[],
            &[],
            Some(1i32),
        )
    ];
    proof {
        assert(license_types_view(r@) =~~= spec_sfc_license_types());
    }
    r
}

/// The view of `hkma_regulator`.
pub open spec fn spec_hkma_regulator() -> RegulatorView {
    regulator_view(
        "hk-hkma"@,
        "Hong Kong Monetary Authority"@,
        "hk"@,
        Some("https://www.hkma.gov.hk"@),
        seq!["authorized_institutions_register"@, "svf_licensee_register"@],
    )
}

/// HKMA regulator profile.
pub fn hkma_regulator() -> (r: LicensepackRegulator)
    ensures
        r@ == spec_hkma_regulator(),
        r@ == regulator_view(
            "hk-hkma"@,
            "Hong Kong Monetary Authority"@,
            "hk"@,
            Some("https://www.hkma.gov.hk"@),
            seq!["authorized_institutions_register"@, "svf_licensee_register"@],
        ),
{
    let r =
        regulator(
            "hk-hkma",
            "Hong Kong Monetary Authority",
            "hk",
            Some("https://www.hkma.gov.hk"),
            &["authorized_institutions_register", "svf_licensee_register"],
        );
    proof {
        assert(r@ =~~= spec_hkma_regulator());
    }
    r
}

/// The view of `hkma_license_types`.
pub open spec fn spec_hkma_license_types() -> Seq<LicenseTypeView> {
    seq![
        license_type_view(
            "hk-hkma:licensed-bank"@,
            "Licensed Bank"@,
            "Authorization as a licensed bank under the Banking Ordinance"@,
            "hk-hkma"@,
            Some("financial"@),
            seq!["deposit_taking"@, "lending"@, "trade_finance"@, "foreign_exchange"@, "payment_services"@],
            seq![],
            seq![],
            seq![],
            None,
        ),
        license_type_view(
            "hk-hkma:restricted-license-bank"@,
            "Restricted License Bank"@,
            "Authorization as a restricted license bank (deposits >= HKD 500,000)"@,
            "hk-hkma"@,
            Some("financial"@),
            seq!["restricted_deposit_taking"@, "lending"@, "trade_finance"@],
            seq![],
            seq![],
            seq![],
            None,
        ),
        license_type_view(
            "hk-hkma:deposit-taking-company"@,
            "Deposit-Taking Company"@,
            "Authorization as a deposit-taking company under the Banking Ordinance"@,
            "hk-hkma"@,
            Some("financial"@),
            seq!["limited_deposit_taking"@, "consumer_finance"@],
            seq![],
            seq![],
            seq![],
            None,
        ),
        license_type_view(
            "hk-hkma:svf"@,
            "Stored Value Facility License"@,
            "License to issue stored value facilities under the Payment Systems and Stored Value Facilities Ordinance"@,
            "hk-hkma"@,
            Some("financial"@),
            seq!["stored_value_facility_issuance"@, "e_money_services"@],
            seq![],
            seq![],
            seq![],
            Some(10i32),
        ),
        license_type_view(
            "hk-hkma:mso"@,
            "Money Service Operator License"@,
            "License to operate money service under the Anti-Money Laundering and Counter-Terrorist Financing Ordinance"@,
            "hk-hkma"@,
            Some("financial"@),
            seq!["money_changing"@, "remittance"@],
            seq![],
            seq![("HKD"@, "2770"@)],
            seq![("HKD"@, "570"@)],
            Some(2i32),
        )
    ]
}

/// HKMA license type definitions.
pub fn hkma_license_types() -> (r: Vec<LicenseTypeDefinition>)
    ensures
        license_types_view(r@) == spec_hkma_license_types(),
        license_types_view(r@) == seq![
            license_type_view(
                "hk-hkma:licensed-bank"@,
                "Licensed Bank"@,
                "Authorization as a licensed bank under the Banking Ordinance"@,
                "hk-hkma"@,
                Some("financial"@),
                seq!["deposit_taking"@, "lending"@, "trade_finance"@, "foreign_exchange"@, "payment_services"@],
                seq![],
                seq![],
                seq![],
                None,
            ),
            license_type_view(
                "hk-hkma:restricted-license-bank"@,
                "Restricted License Bank"@,
                "Authorization as a restricted license bank (deposits >= HKD 500,000)"@,
                "hk-hkma"@,
                Some("financial"@),
                seq!["restricted_deposit_taking"@, "lending"@, "trade_finance"@],
                seq![],
                seq![],
                seq![],
                None,
            ),
            license_type_view(
                "hk-hkma:deposit-taking-company"@,
                "Deposit-Taking Company"@,
                "Authorization as a deposit-taking company under the Banking Ordinance"@,
                "hk-hkma"@,
                Some("financial"@),
                seq!["limited_deposit_taking"@, "consumer_finance"@],
                seq![],
                seq![],
                seq![],
                None,
            ),
            license_type_view(
                "hk-hkma:svf"@,
                "Stored Value Facility License"@,
                "License to issue stored value facilities under the Payment Systems and Stored Value Facilities Ordinance"@,
                "hk-hkma"@,
                Some("financial"@),
                seq!["stored_value_facility_issuance"@, "e_money_services"@],
                seq![],
                seq![],
                seq![],
                Some(10i32),
            ),
            license_type_view(
                "hk-hkma:mso"@,
                "Money Service Operator License"@,
                "License to operate money service under the Anti-Money Laundering and Counter-Terrorist Financing Ordinance"@,
                "hk-hkma"@,
                Some("financial"@),
                seq!["money_changing"@, "remittance"@],
                seq![],
                seq![("HKD"@, "2770"@)],
                seq![("HKD"@, "570"@)],
                Some(2i32),
            )
        ],
{
    let r = vec![
        license_type(
            "hk-hkma:licensed-bank",
            "Licensed Bank",
            "Authorization as a licensed bank under the Banking Ordinance",
            "hk-hkma",
            Some("financial"),
            &["deposit_taking", "lending", "trade_finance", "foreign_exchange", "payment_services"],
            &[],
            &[],
            &[],
            None,
        ),
        license_type(
            "hk-hkma:restricted-license-bank",
            "Restricted License Bank",
            "Authorization as a restricted license bank (deposits >= HKD 500,000)",
            "hk-hkma",
            Some("financial"),
            &["restricted_deposit_taking", "lending", "trade_finance"],
            &[],
            &[],
            &[],
            None,
        ),
        license_type(
            "hk-hkma:deposit-taking-company",
            "Deposit-Taking Company",
            "Authorization as a deposit-taking company under the Banking Ordinance",
            "hk-hkma",
            Some("financial"),
            &["limited_deposit_taking", "consumer_finance"],
            &[],
            &[],
            &[],
            None,
        ),
        license_type(
            "hk-hkma:svf",
            "Stored Value Facility License",
            "License to issue stored value facilities under the Payment Systems and Stored Value Facilities Ordinance",
            "hk-hkma",
            Some("financial"),
            &["stored_value_facility_issuance", "e_money_services"],
            &[],
            &[],
            &[],
            Some(10i32),
        ),
        license_type(
            "hk-hkma:mso",
            "Money Service Operator License",
            "License to operate money service under the Anti-Money Laundering and Counter-Terrorist Financing Ordinance",
            "hk-hkma",
            Some("financial"),
            &["money_changing", "remittance"],
            &[],
            &[("HKD", "2770")],
            &[("HKD", "570")],
            Some(2i32),
        )
    ];
    proof {
        assert(license_types_view(r@) =~~= spec_hkma_license_types());
    }
    r
}

/// The view of `ia_regulator`.
pub open spec fn spec_ia_regulator() -> RegulatorView {
    regulator_view(
        "hk-ia"@,
        "Insurance Authority"@,
        "hk"@,
        Some("https://www.ia.org.hk"@),
        seq!["insurer_register"@, "intermediary_register"@],
    )
}

/// IA regulator profile.
pub fn ia_regulator() -> (r: LicensepackRegulator)
    ensures
        r@ == spec_ia_regulator(),
        r@ == regulator_view(
            "hk-ia"@,
            "Insurance Authority"@,
            "hk"@,
            Some("https://www.ia.org.hk"@),
            seq!["insurer_register"@, "intermediary_register"@],
        ),
{
    let r =
        regulator(
            "hk-ia",
            "Insurance Authority",
            "hk",
            Some("https://www.ia.org.hk"),
            &["insurer_register", "intermediary_register"],
        );
    proof {
        assert(r@ =~~= spec_ia_regulator());
    }
    r
}

/// The view of `ia_license_types`.
pub open spec fn spec_ia_license_types() -> Seq<LicenseTypeView> {
    seq![
        license_type_view(
            "hk-ia:insurer-long-term"@,
            "Insurance Company Authorization — Long Term"@,
            "Authorization to carry on long term (life) insurance business"@,
            "hk-ia"@,
            Some("insurance"@),
            seq!["life_insurance"@, "annuity_products"@, "linked_insurance"@],
            seq![],
            seq![],
            seq![],
            None,
        ),
        license_type_view(
            "hk-ia:insurer-general"@,
            "Insurance Company Authorization — General"@,
            "Authorization to carry on general (non-life) insurance business"@,
            "hk-ia"@,
            Some("insurance"@),
            seq!["property_insurance"@, "liability_insurance"@, "marine_insurance"@],
            seq![],
            seq![],
            seq![],
            None,
        ),
        license_type_view(
            "hk-ia:insurer-composite"@,
            "Insurance Company Authorization — Composite"@,
            "Authorization to carry on both long term and general insurance business"@,
            "hk-ia"@,
            Some("insurance"@),
            seq!["life_insurance"@, "general_insurance"@],
            seq![],
            seq![],
            seq![],
            None,
        ),
        license_type_view(
            "hk-ia:insurance-broker"@,
            "Licensed Insurance Broker"@,
            "License to act as an insurance broker in Hong Kong"@,
            "hk-ia"@,
            Some("insurance"@),
            seq!["insurance_broking"@, "risk_advisory"@],
            seq![],
            seq![],
            seq![],
            Some(3i32),
        ),
        license_type_view(
            "hk-ia:insurance-agent"@,
            "Licensed Insurance Agent"@,
            "License to act as an insurance agent in Hong Kong"@,
            "hk-ia"@,
            Some("insurance"@),
            seq!["insurance_agency"@, "policy_solicitation"@],
            seq![],
            seq![],
            seq![],
            Some(3i32),
        )
    ]
}

/// IA license type definitions.
pub fn ia_license_types() -> (r: Vec<LicenseTypeDefinition>)
    ensures
        license_types_view(r@) == spec_ia_license_types(),
        license_types_view(r@) == seq![
            license_type_view(
                "hk-ia:insurer-long-term"@,
                "Insurance Company Authorization — Long Term"@,
                "Authorization to carry on long term (life) insurance business"@,
                "hk-ia"@,
                Some("insurance"@),
                seq!["life_insurance"@, "annuity_products"@, "linked_insurance"@],
                seq![],
                seq![],
                seq![],
                None,
            ),
            license_type_view(
                "hk-ia:insurer-general"@,
                "Insurance Company Authorization — General"@,
                "Authorization to carry on general (non-life) insurance business"@,
                "hk-ia"@,
                Some("insurance"@),
                seq!["property_insurance"@, "liability_insurance"@, "marine_insurance"@],
                seq![],
                seq![],
                seq![],
                None,
            ),
            license_type_view(
                "hk-ia:insurer-composite"@,
                "Insurance Company Authorization — Composite"@,
                "Authorization to carry on both long term and general insurance business"@,
                "hk-ia"@,
                Some("insurance"@),
                seq!["life_insurance"@, "general_insurance"@],
                seq![],
                seq![],
                seq![],
                None,
            ),
            license_type_view(
                "hk-ia:insurance-broker"@,
                "Licensed Insurance Broker"@,
                "License to act as an insurance broker in Hong Kong"@,
                "hk-ia"@,
                Some("insurance"@),
                seq!["insurance_broking"@, "risk_advisory"@],
                seq![],
                seq![],
                seq![],
                Some(3i32),
            ),
            license_type_view(
                "hk-ia:insurance-agent"@,
                "Licensed Insurance Agent"@,
                "License to act as an insurance agent in Hong Kong"@,
                "hk-ia"@,
                Some("insurance"@),
                seq!["insurance_agency"@, "policy_solicitation"@],
                seq![],
                seq![],
                seq![],
                Some(3i32),
            )
        ],
{
    let r = vec![
        license_type(
            "hk-ia:insurer-long-term",
            "Insurance Company Authorization — Long Term",
            "Authorization to carry on long term (life) insurance business",
            "hk-ia",
            Some("insurance"),
            &["life_insurance", "annuity_products", "linked_insurance"],
            &[],
            &[],
            &[],
            None,
        ),
        license_type(
            "hk-ia:insurer-general",
            "Insurance Company Authorization — General",
            "Authorization to carry on general (non-life) insurance business",
            "hk-ia",
            Some("insurance"),
            &["property_insurance", "liability_insurance", "marine_insurance"],
            &[],
            &[],
            &[],
            None,
        ),
        license_type(
            "hk-ia:insurer-composite",
            "Insurance Company Authorization — Composite",
            "Authorization to carry on both long term and general insurance business",
            "hk-ia",
            Some("insurance"),
            &["life_insurance", "general_insurance"],
            &[],
            &[],
            &[],
            None,
        ),
        license_type(
            "hk-ia:insurance-broker",
            "Licensed Insurance Broker",
            "License to act as an insurance broker in Hong Kong",
            "hk-ia",
            Some("insurance"),
            &["insurance_broking", "risk_advisory"],
            &[],
            &[],
            &[],
            Some(3i32),
        ),
        license_type(
            "hk-ia:insurance-agent",
            "Licensed Insurance Agent",
            "License to act as an insurance agent in Hong Kong",
            "hk-ia",
            Some("insurance"),
            &["insurance_agency", "policy_solicitation"],
            &[],
            &[],
            &[],
            Some(3i32),
        )
    ];
    proof {
        assert(license_types_view(r@) =~~= spec_ia_license_types());
    }
    r
}

/// The view of `mpfa_regulator`.
pub open spec fn spec_mpfa_regulator() -> RegulatorView {
    regulator_view(
        "hk-mpfa"@,
        "Mandatory Provident Fund Schemes Authority"@,
        "hk"@,
        Some("https://www.mpfa.org.hk"@),
        seq!["trustee_register"@],
    )
}

/// MPFA regulator profile.
pub fn mpfa_regulator() -> (r: LicensepackRegulator)
    ensures
        r@ == spec_mpfa_regulator(),
        r@ == regulator_view(
            "hk-mpfa"@,
            "Mandatory Provident Fund Schemes Authority"@,
            "hk"@,
            Some("https://www.mpfa.org.hk"@),
            seq!["trustee_register"@],
        ),
{
    let r =
        regulator(
            "hk-mpfa",
            "Mandatory Provident Fund Schemes Authority",
            "hk",
            Some("https://www.mpfa.org.hk"),
            &["trustee_register"],
        );
    proof {
        assert(r@ =~~= spec_mpfa_regulator());
    }
    r
}

/// The view of `mpfa_license_types`.
pub open spec fn spec_mpfa_license_types() -> Seq<LicenseTypeView> {
    seq![
        license_type_view(
            "hk-mpfa:mpf-trustee"@,
            "MPF Approved Trustee"@,
            "Approval to act as a trustee of MPF schemes under the MPF Schemes Ordinance"@,
            "hk-mpfa"@,
            Some("financial"@),
            seq!["mpf_trusteeship"@, "mpf_scheme_administration"@],
            seq![],
            seq![],
            seq![],
            None,
        )
    ]
}

/// MPFA license type definitions.
pub fn mpfa_license_types() -> (r: Vec<LicenseTypeDefinition>)
    ensures
        license_types_view(r@) == spec_mpfa_license_types(),
        license_types_view(r@) == seq![
            license_type_view(
                "hk-mpfa:mpf-trustee"@,
                "MPF Approved Trustee"@,
                "Approval to act as a trustee of MPF schemes under the MPF Schemes Ordinance"@,
                "hk-mpfa"@,
                Some("financial"@),
                seq!["mpf_trusteeship"@, "mpf_scheme_administration"@],
                seq![],
                seq![],
                seq![],
                None,
            )
        ],
{
    let r = vec![
        license_type(
            "hk-mpfa:mpf-trustee",
            "MPF Approved Trustee",
            "Approval to act as a trustee of MPF schemes under the MPF Schemes Ordinance",
            "hk-mpfa",
            Some("financial"),
            &["mpf_trusteeship", "mpf_scheme_administration"],
            &[],
            &[],
            &[],
            None,
        )
    ];
    proof {
        assert(license_types_view(r@) =~~= spec_mpfa_license_types());
    }
    r
}

/// The view of `cr_regulator`.
pub open spec fn spec_cr_regulator() -> RegulatorView {
    regulator_view(
        "hk-cr"@,
        "Companies Registry"@,
        "hk"@,
        Some("https://www.cr.gov.hk"@),
        seq!["company_search"@, "tcsp_register"@],
    )
}

/// Companies Registry regulator profile.
pub fn cr_regulator() -> (r: LicensepackRegulator)
    ensures
        r@ == spec_cr_regulator(),
        r@ == regulator_view(
            "hk-cr"@,
            "Companies Registry"@,
            "hk"@,
            Some("https://www.cr.gov.hk"@),
            seq!["company_search"@, "tcsp_register"@],
        ),
{
    let r =
        regulator(
            "hk-cr",
            "Companies Registry",
            "hk",
            Some("https://www.cr.gov.hk"),
            &["company_search", "tcsp_register"],
        );
    proof {
        assert(r@ =~~= spec_cr_regulator());
    }
    r
}

/// The view of `cr_license_types`.
pub open spec fn spec_cr_license_types() -> Seq<LicenseTypeView> {
    seq![
        license_type_view(
            "hk-cr:private-limited-company"@,
            "Private Limited Company Registration"@,
            "Registration of a private company limited by shares under the Companies Ordinance"@,
            "hk-cr"@,
            Some("corporate"@),
            seq!["business_operations"@, "capital_raising_private"@],
            seq![],
            seq![("HKD"@, "1720"@)],
            seq![("HKD"@, "105"@)],
            None,
        ),
        license_type_view(
            "hk-cr:public-company"@,
            "Public Company Registration"@,
            "Registration of a public company under the Companies Ordinance"@,
            "hk-cr"@,
            Some("corporate"@),
            seq!["business_operations"@, "public_capital_raising"@, "shares_listing"@],
            seq![],
            seq![("HKD"@, "1720"@)],
            seq![("HKD"@, "105"@)],
            None,
        ),
        license_type_view(
            "hk-cr:non-hk-company"@,
            "Non-Hong Kong Company Registration"@,
            "Registration of a non-Hong Kong company establishing a place of business in HK"@,
            "hk-cr"@,
            Some("corporate"@),
            seq!["branch_operations"@, "representative_office"@],
            seq![],
            seq![("HKD"@, "1720"@)],
            seq![("HKD"@, "105"@)],
            None,
        ),
        license_type_view(
            "hk-cr:tcsp"@,
            "Trust or Company Service Provider License"@,
            "License to carry on trust or company service provider business under AMLO"@,
            "hk-cr"@,
            Some("professional"@),
            seq!["company_formation"@, "registered_office_services"@, "directorship_services"@, "trust_services"@, "nominee_services"@],
            seq![],
            seq![("HKD"@, "2340"@)],
            seq![("HKD"@, "2340"@)],
            Some(3i32),
        )
    ]
}

/// Companies Registry license type definitions.
pub fn cr_license_types() -> (r: Vec<LicenseTypeDefinition>)
    ensures
        license_types_view(r@) == spec_cr_license_types(),
        license_types_view(r@) == seq![
            license_type_view(
                "hk-cr:private-limited-company"@,
                "Private Limited Company Registration"@,
                "Registration of a private company limited by shares under the Companies Ordinance"@,
                "hk-cr"@,
                Some("corporate"@),
                seq!["business_operations"@, "capital_raising_private"@],
                seq![],
                seq![("HKD"@, "1720"@)],
                seq![("HKD"@, "105"@)],
                None,
            ),
            license_type_view(
                "hk-cr:public-company"@,
                "Public Company Registration"@,
                "Registration of a public company under the Companies Ordinance"@,
                "hk-cr"@,
                Some("corporate"@),
                seq!["business_operations"@, "public_capital_raising"@, "shares_listing"@],
                seq![],
                seq![("HKD"@, "1720"@)],
                seq![("HKD"@, "105"@)],
                None,
            ),
            license_type_view(
                "hk-cr:non-hk-company"@,
                "Non-Hong Kong Company Registration"@,
                "Registration of a non-Hong Kong company establishing a place of business in HK"@,
                "hk-cr"@,
                Some("corporate"@),
                seq!["branch_operations"@, "representative_office"@],
                seq![],
                seq![("HKD"@, "1720"@)],
                seq![("HKD"@, "105"@)],
                None,
            ),
            license_type_view(
                "hk-cr:tcsp"@,
                "Trust or Company Service Provider License"@,
                "License to carry on trust or company service provider business under AMLO"@,
                "hk-cr"@,
                Some("professional"@),
                seq!["company_formation"@, "registered_office_services"@, "directorship_services"@, "trust_services"@, "nominee_services"@],
                seq![],
                seq![("HKD"@, "2340"@)],
                seq![("HKD"@, "2340"@)],
                Some(3i32),
            )
        ],
{
    let r = vec![
        license_type(
            "hk-cr:private-limited-company",
            "Private Limited Company Registration",
            "Registration of a private company limited by shares under the Companies Ordinance",
            "hk-cr",
            Some("corporate"),
            &["business_operations", "capital_raising_private"],
            &[],
            &[("HKD", "1720")],
            &[("HKD", "105")],
            None,
        ),
        license_type(
            "hk-cr:public-company",
            "Public Company Registration",
            "Registration of a public company under the Companies Ordinance",
            "hk-cr",
            Some("corporate"),
            &["business_operations", "public_capital_raising", "shares_listing"],
            &[],
            &[("HKD", "1720")],
            &[("HKD", "105")],
            None,
        ),
        license_type(
            "hk-cr:non-hk-company",
            "Non-Hong Kong Company Registration",
            "Registration of a non-Hong Kong company establishing a place of business in HK",
            "hk-cr",
            Some("corporate"),
            &["branch_operations", "representative_office"],
            &[],
            &[("HKD", "1720")],
            &[("HKD", "105")],
            None,
        ),
        license_type(
            "hk-cr:tcsp",
            "Trust or Company Service Provider License",
            "License to carry on trust or company service provider business under AMLO",
            "hk-cr",
            Some("professional"),
            &["company_formation", "registered_office_services", "directorship_services", "trust_services", "nominee_services"],
            &[],
            &[("HKD", "2340")],
            &[("HKD", "2340")],
            Some(3i32),
        )
    ];
    proof {
        assert(license_types_view(r@) =~~= spec_cr_license_types());
    }
    r
}

/// The view of `hong_kong_regulators`.
pub open spec fn spec_hong_kong_regulators() -> Seq<RegulatorView> {
    seq![spec_sfc_regulator(), spec_hkma_regulator(), spec_ia_regulator(), spec_mpfa_regulator(), spec_cr_regulator()]
}

/// All Hong Kong SAR regulatory authorities.
pub fn hong_kong_regulators() -> (r: Vec<LicensepackRegulator>)
    ensures
        regulators_view(r@) == spec_hong_kong_regulators(),
        regulators_view(r@) == seq![spec_sfc_regulator(), spec_hkma_regulator(), spec_ia_regulator(), spec_mpfa_regulator(), spec_cr_regulator()],
{
    let r = vec![sfc_regulator(), hkma_regulator(), ia_regulator(), mpfa_regulator(), cr_regulator()];
    proof {
        assert(regulators_view(r@) =~~= spec_hong_kong_regulators());
    }
    r
}

/// The view of `hong_kong_license_types`.
pub open spec fn spec_hong_kong_license_types() -> Seq<LicenseTypeView> {
    spec_sfc_license_types()
        + spec_hkma_license_types()
        + spec_ia_license_types()
        + spec_mpfa_license_types()
        + spec_cr_license_types()
}

/// All Hong Kong SAR license type definitions across all authorities.
pub fn hong_kong_license_types() -> (r: Vec<LicenseTypeDefinition>)
    ensures
        license_types_view(r@) == spec_hong_kong_license_types(),
        license_types_view(r@) == spec_sfc_license_types()
            + spec_hkma_license_types()
            + spec_ia_license_types()
            + spec_mpfa_license_types()
            + spec_cr_license_types(),
{
    let mut all: Vec<LicenseTypeDefinition> = Vec::new();
    proof {
        assert(license_types_view(all@) =~= Seq::<LicenseTypeView>::empty());
    }
    let ghost before = all@;
    let mut part = sfc_license_types();
    let ghost added = part@;
    all.append(&mut part);
    proof {
        lemma_license_types_view_append(before, added);
        assert(license_types_view(all@) =~= spec_sfc_license_types());
    }
    let ghost before = all@;
    let mut part = hkma_license_types();
    let ghost added = part@;
    all.append(&mut part);
    proof {
        lemma_license_types_view_append(before, added);
        assert(license_types_view(all@) =~= spec_sfc_license_types() + spec_hkma_license_types());
    }
    let ghost before = all@;
    let mut part = ia_license_types();
    let ghost added = part@;
    all.append(&mut part);
    proof {
        lemma_license_types_view_append(before, added);
        assert(license_types_view(all@) =~= spec_sfc_license_types() + spec_hkma_license_types() + spec_ia_license_types());
    }
    let ghost before = all@;
    let mut part = mpfa_license_types();
    let ghost added = part@;
    all.append(&mut part);
    proof {
        lemma_license_types_view_append(before, added);
        assert(license_types_view(all@) =~= spec_sfc_license_types() + spec_hkma_license_types() + spec_ia_license_types() + spec_mpfa_license_types());
    }
    let ghost before = all@;
    let mut part = cr_license_types();
    let ghost added = part@;
    all.append(&mut part);
    proof {
        lemma_license_types_view_append(before, added);
        assert(license_types_view(all@) =~= spec_sfc_license_types() + spec_hkma_license_types() + spec_ia_license_types() + spec_mpfa_license_types() + spec_cr_license_types());
    }
    all
}

/// The licence types of `sfc_license_types` are complete, granted by its regulators, and
/// each of its regulators grants at least one of them.
proof fn lemma_sfc_group()
    ensures
        license_types_complete(spec_sfc_license_types()),
        granted_by_listed_regulators(spec_sfc_license_types(), seq![spec_sfc_regulator()]),
        every_regulator_grants(spec_sfc_license_types(), seq![spec_sfc_regulator()]),
        regulators_in_jurisdiction(seq![spec_sfc_regulator()], "hk"@),
{
    assert(complete_each(spec_sfc_license_types())) by {
        reveal_strlit("hk-sfc:type-1-dealing-securities");
        reveal_strlit("Type 1 — Dealing in Securities");
        reveal_strlit("SFC license for dealing in securities under the Securities and Futures Ordinance");
        reveal_strlit("hk-sfc");
        reveal_strlit("hk-sfc:type-2-dealing-futures");
        reveal_strlit("Type 2 — Dealing in Futures Contracts");
        reveal_strlit("SFC license for dealing in futures contracts");
        reveal_strlit("hk-sfc:type-3-leveraged-forex");
        reveal_strlit("Type 3 — Leveraged Foreign Exchange Trading");
        reveal_strlit("SFC license for leveraged foreign exchange trading");
        reveal_strlit("hk-sfc:type-4-advising-securities");
        reveal_strlit("Type 4 — Advising on Securities");
        reveal_strlit("SFC license for advising on securities");
        reveal_strlit("hk-sfc:type-5-advising-futures");
        reveal_strlit("Type 5 — Advising on Futures Contracts");
        reveal_strlit("SFC license for advising on futures contracts");
        reveal_strlit("hk-sfc:type-6-corporate-finance");
        reveal_strlit("Type 6 — Advising on Corporate Finance");
        reveal_strlit("SFC license for advising on corporate finance");
        reveal_strlit("hk-sfc:type-7-automated-trading");
        reveal_strlit("Type 7 — Providing Automated Trading Services");
        reveal_strlit("SFC license for providing automated trading services");
        reveal_strlit("hk-sfc:type-8-securities-margin");
        reveal_strlit("Type 8 — Securities Margin Financing");
        reveal_strlit("SFC license for securities margin financing");
        reveal_strlit("hk-sfc:type-9-asset-management");
        reveal_strlit("Type 9 — Asset Management");
        reveal_strlit("SFC license for asset management (fund management)");
        reveal_strlit("hk-sfc:type-10-credit-rating");
        reveal_strlit("Type 10 — Providing Credit Rating Services");
        reveal_strlit("SFC license for providing credit rating services");
        reveal_strlit("hk-sfc:va-trading-platform");
        reveal_strlit("Virtual Asset Trading Platform License");
        reveal_strlit("SFC license to operate a virtual asset trading platform under the AMLO regime");
        reveal_with_fuel(complete_each, 12);
    }
    lemma_complete_each(spec_sfc_license_types());
    assert(granted_by_each(spec_sfc_license_types(), seq![spec_sfc_regulator()][0].regulator_id)) by {
        reveal_with_fuel(granted_by_each, 12);
    }
    lemma_granted_by_each(spec_sfc_license_types(), seq![spec_sfc_regulator()], 0);
    assert(grants_some(spec_sfc_license_types(), seq![spec_sfc_regulator()][0].regulator_id)) by {
        assert(spec_sfc_license_types()[0].regulator_id == seq![spec_sfc_regulator()][0].regulator_id);
    }
    assert(grants_each(spec_sfc_license_types(), seq![spec_sfc_regulator()])) by {
        reveal_with_fuel(grants_each, 2);
    }
    lemma_grants_each(spec_sfc_license_types(), seq![spec_sfc_regulator()]);
    assert(in_jurisdiction_each(seq![spec_sfc_regulator()], "hk"@)) by {
        reveal_with_fuel(in_jurisdiction_each, 2);
    }
    lemma_in_jurisdiction_each(seq![spec_sfc_regulator()], "hk"@);
}

/// The licence types of `hkma_license_types` are complete, granted by its regulators, and
/// each of its regulators grants at least one of them.
proof fn lemma_hkma_group()
    ensures
        license_types_complete(spec_hkma_license_types()),
        granted_by_listed_regulators(spec_hkma_license_types(), seq![spec_hkma_regulator()]),
        every_regulator_grants(spec_hkma_license_types(), seq![spec_hkma_regulator()]),
        regulators_in_jurisdiction(seq![spec_hkma_regulator()], "hk"@),
{
    assert(complete_each(spec_hkma_license_types())) by {
        reveal_strlit("hk-hkma:licensed-bank");
        reveal_strlit("Licensed Bank");
        reveal_strlit("Authorization as a licensed bank under the Banking Ordinance");
        reveal_strlit("hk-hkma");
        reveal_strlit("hk-hkma:restricted-license-bank");
        reveal_strlit("Restricted License Bank");
        reveal_strlit("Authorization as a restricted license bank (deposits >= HKD 500,000)");
        reveal_strlit("hk-hkma:deposit-taking-company");
        reveal_strlit("Deposit-Taking Company");
        reveal_strlit("Authorization as a deposit-taking company under the Banking Ordinance");
        reveal_strlit("hk-hkma:svf");
        reveal_strlit("Stored Value Facility License");
        reveal_strlit("License to issue stored value facilities under the Payment Systems and Stored Value Facilities Ordinance");
        reveal_strlit("hk-hkma:mso");
        reveal_strlit("Money Service Operator License");
        reveal_strlit("License to operate money service under the Anti-Money Laundering and Counter-Terrorist Financing Ordinance");
        reveal_with_fuel(complete_each, 6);
    }
    lemma_complete_each(spec_hkma_license_types());
    assert(granted_by_each(spec_hkma_license_types(), seq![spec_hkma_regulator()][0].regulator_id)) by {
        reveal_with_fuel(granted_by_each, 6);
    }
    lemma_granted_by_each(spec_hkma_license_types(), seq![spec_hkma_regulator()], 0);
    assert(grants_some(spec_hkma_license_types(), seq![spec_hkma_regulator()][0].regulator_id)) by {
        assert(spec_hkma_license_types()[0].regulator_id == seq![spec_hkma_regulator()][0].regulator_id);
    }
    assert(grants_each(spec_hkma_license_types(), seq![spec_hkma_regulator()])) by {
        reveal_with_fuel(grants_each, 2);
    }
    lemma_grants_each(spec_hkma_license_types(), seq![spec_hkma_regulator()]);
    assert(in_jurisdiction_each(seq![spec_hkma_regulator()], "hk"@)) by {
        reveal_with_fuel(in_jurisdiction_each, 2);
    }
    lemma_in_jurisdiction_each(seq![spec_hkma_regulator()], "hk"@);
}

/// The licence types of `ia_license_types` are complete, granted by its regulators, and
/// each of its regulators grants at least one of them.
proof fn lemma_ia_group()
    ensures
        license_types_complete(spec_ia_license_types()),
        granted_by_listed_regulators(spec_ia_license_types(), seq![spec_ia_regulator()]),
        every_regulator_grants(spec_ia_license_types(), seq![spec_ia_regulator()]),
        regulators_in_jurisdiction(seq![spec_ia_regulator()], "hk"@),
{
    assert(complete_each(spec_ia_license_types())) by {
        reveal_strlit("hk-ia:insurer-long-term");
        reveal_strlit("Insurance Company Authorization — Long Term");
        reveal_strlit("Authorization to carry on long term (life) insurance business");
        reveal_strlit("hk-ia");
        reveal_strlit("hk-ia:insurer-general");
        reveal_strlit("Insurance Company Authorization — General");
        reveal_strlit("Authorization to carry on general (non-life) insurance business");
        reveal_strlit("hk-ia:insurer-composite");
        reveal_strlit("Insurance Company Authorization — Composite");
        reveal_strlit("Authorization to carry on both long term and general insurance business");
        reveal_strlit("hk-ia:insurance-broker");
        reveal_strlit("Licensed Insurance Broker");
        reveal_strlit("License to act as an insurance broker in Hong Kong");
        reveal_strlit("hk-ia:insurance-agent");
        reveal_strlit("Licensed Insurance Agent");
        reveal_strlit("License to act as an insurance agent in Hong Kong");
        reveal_with_fuel(complete_each, 6);
    }
    lemma_complete_each(spec_ia_license_types());
    assert(granted_by_each(spec_ia_license_types(), seq![spec_ia_regulator()][0].regulator_id)) by {
        reveal_with_fuel(granted_by_each, 6);
    }
    lemma_granted_by_each(spec_ia_license_types(), seq![spec_ia_regulator()], 0);
    assert(grants_some(spec_ia_license_types(), seq![spec_ia_regulator()][0].regulator_id)) by {
        assert(spec_ia_license_types()[0].regulator_id == seq![spec_ia_regulator()][0].regulator_id);
    }
    assert(grants_each(spec_ia_license_types(), seq![spec_ia_regulator()])) by {
        reveal_with_fuel(grants_each, 2);
    }
    lemma_grants_each(spec_ia_license_types(), seq![spec_ia_regulator()]);
    assert(in_jurisdiction_each(seq![spec_ia_regulator()], "hk"@)) by {
        reveal_with_fuel(in_jurisdiction_each, 2);
    }
    lemma_in_jurisdiction_each(seq![spec_ia_regulator()], "hk"@);
}

/// The licence types of `mpfa_license_types` are complete, granted by its regulators, and
/// each of its regulators grants at least one of them.
proof fn lemma_mpfa_group()
    ensures
        license_types_complete(spec_mpfa_license_types()),
        granted_by_listed_regulators(spec_mpfa_license_types(), seq![spec_mpfa_regulator()]),
        every_regulator_grants(spec_mpfa_license_types(), seq![spec_mpfa_regulator()]),
        regulators_in_jurisdiction(seq![spec_mpfa_regulator()], "hk"@),
{
    assert(complete_each(spec_mpfa_license_types())) by {
        reveal_strlit("hk-mpfa:mpf-trustee");
        reveal_strlit("MPF Approved Trustee");
        reveal_strlit("Approval to act as a trustee of MPF schemes under the MPF Schemes Ordinance");
        reveal_strlit("hk-mpfa");
        reveal_with_fuel(complete_each, 2);
    }
    lemma_complete_each(spec_mpfa_license_types());
    assert(granted_by_each(spec_mpfa_license_types(), seq![spec_mpfa_regulator()][0].regulator_id)) by {
        reveal_with_fuel(granted_by_each, 2);
    }
    lemma_granted_by_each(spec_mpfa_license_types(), seq![spec_mpfa_regulator()], 0);
    assert(grants_some(spec_mpfa_license_types(), seq![spec_mpfa_regulator()][0].regulator_id)) by {
        assert(spec_mpfa_license_types()[0].regulator_id == seq![spec_mpfa_regulator()][0].regulator_id);
    }
    assert(grants_each(spec_mpfa_license_types(), seq![spec_mpfa_regulator()])) by {
        reveal_with_fuel(grants_each, 2);
    }
    lemma_grants_each(spec_mpfa_license_types(), seq![spec_mpfa_regulator()]);
    assert(in_jurisdiction_each(seq![spec_mpfa_regulator()], "hk"@)) by {
        reveal_with_fuel(in_jurisdiction_each, 2);
    }
    lemma_in_jurisdiction_each(seq![spec_mpfa_regulator()], "hk"@);
}

/// The licence types of `cr_license_types` are complete, granted by its regulators, and
/// each of its regulators grants at least one of them.
proof fn lemma_cr_group()
    ensures
        license_types_complete(spec_cr_license_types()),
        granted_by_listed_regulators(spec_cr_license_types(), seq![spec_cr_regulator()]),
        every_regulator_grants(spec_cr_license_types(), seq![spec_cr_regulator()]),
        regulators_in_jurisdiction(seq![spec_cr_regulator()], "hk"@),
{
    assert(complete_each(spec_cr_license_types())) by {
        reveal_strlit("hk-cr:private-limited-company");
        reveal_strlit("Private Limited Company Registration");
        reveal_strlit("Registration of a private company limited by shares under the Companies Ordinance");
        reveal_strlit("hk-cr");
        reveal_strlit("hk-cr:public-company");
        reveal_strlit("Public Company Registration");
        reveal_strlit("Registration of a public company under the Companies Ordinance");
        reveal_strlit("hk-cr:non-hk-company");
        reveal_strlit("Non-Hong Kong Company Registration");
        reveal_strlit("Registration of a non-Hong Kong company establishing a place of business in HK");
        reveal_strlit("hk-cr:tcsp");
        reveal_strlit("Trust or Company Service Provider License");
        reveal_strlit("License to carry on trust or company service provider business under AMLO");
        reveal_with_fuel(complete_each, 5);
    }
    lemma_complete_each(spec_cr_license_types());
    assert(granted_by_each(spec_cr_license_types(), seq![spec_cr_regulator()][0].regulator_id)) by {
        reveal_with_fuel(granted_by_each, 5);
    }
    lemma_granted_by_each(spec_cr_license_types(), seq![spec_cr_regulator()], 0);
    assert(grants_some(spec_cr_license_types(), seq![spec_cr_regulator()][0].regulator_id)) by {
        assert(spec_cr_license_types()[0].regulator_id == seq![spec_cr_regulator()][0].regulator_id);
    }
    assert(grants_each(spec_cr_license_types(), seq![spec_cr_regulator()])) by {
        reveal_with_fuel(grants_each, 2);
    }
    lemma_grants_each(spec_cr_license_types(), seq![spec_cr_regulator()]);
    assert(in_jurisdiction_each(seq![spec_cr_regulator()], "hk"@)) by {
        reveal_with_fuel(in_jurisdiction_each, 2);
    }
    lemma_in_jurisdiction_each(seq![spec_cr_regulator()], "hk"@);
}

/// The catalog of Hong Kong is consistent: every licence type has a non-empty identifier, name, description and
/// regulator identifier, a category, and at least one permitted activity;
/// every licence type is granted by one of its regulators;
/// every regulator grants at least one licence type;
/// every regulator belongs to jurisdiction `hk`.
pub proof fn lemma_hong_kong_catalog_consistent()
    ensures
        license_types_complete(spec_hong_kong_license_types()),
        granted_by_listed_regulators(spec_hong_kong_license_types(), spec_hong_kong_regulators()),
        every_regulator_grants(spec_hong_kong_license_types(), spec_hong_kong_regulators()),
        regulators_in_jurisdiction(spec_hong_kong_regulators(), "hk"@),
{
    lemma_sfc_group();
    lemma_hkma_group();
    lemma_ia_group();
    lemma_mpfa_group();
    lemma_cr_group();
    assert(spec_hong_kong_regulators() =~= seq![spec_sfc_regulator()] + seq![spec_hkma_regulator()] + seq![spec_ia_regulator()] + seq![spec_mpfa_regulator()] + seq![spec_cr_regulator()]);
    assert(spec_hong_kong_license_types() =~= spec_sfc_license_types() + spec_hkma_license_types() + spec_ia_license_types() + spec_mpfa_license_types() + spec_cr_license_types());
    lemma_complete_append(spec_sfc_license_types(), spec_hkma_license_types());
    lemma_granted_combine(spec_sfc_license_types(), seq![spec_sfc_regulator()], spec_hkma_license_types(), seq![spec_hkma_regulator()]);
    lemma_every_combine(spec_sfc_license_types(), seq![spec_sfc_regulator()], spec_hkma_license_types(), seq![spec_hkma_regulator()]);
    lemma_in_jurisdiction_append(seq![spec_sfc_regulator()], seq![spec_hkma_regulator()], "hk"@);
    lemma_complete_append(spec_sfc_license_types() + spec_hkma_license_types(), spec_ia_license_types());
    lemma_granted_combine(spec_sfc_license_types() + spec_hkma_license_types(), seq![spec_sfc_regulator()] + seq![spec_hkma_regulator()], spec_ia_license_types(), seq![spec_ia_regulator()]);
    lemma_every_combine(spec_sfc_license_types() + spec_hkma_license_types(), seq![spec_sfc_regulator()] + seq![spec_hkma_regulator()], spec_ia_license_types(), seq![spec_ia_regulator()]);
    lemma_in_jurisdiction_append(seq![spec_sfc_regulator()] + seq![spec_hkma_regulator()], seq![spec_ia_regulator()], "hk"@);
    lemma_complete_append(spec_sfc_license_types() + spec_hkma_license_types() + spec_ia_license_types(), spec_mpfa_license_types());
    lemma_granted_combine(spec_sfc_license_types() + spec_hkma_license_types() + spec_ia_license_types(), seq![spec_sfc_regulator()] + seq![spec_hkma_regulator()] + seq![spec_ia_regulator()], spec_mpfa_license_types(), seq![spec_mpfa_regulator()]);
    lemma_every_combine(spec_sfc_license_types() + spec_hkma_license_types() + spec_ia_license_types(), seq![spec_sfc_regulator()] + seq![spec_hkma_regulator()] + seq![spec_ia_regulator()], spec_mpfa_license_types(), seq![spec_mpfa_regulator()]);
    lemma_in_jurisdiction_append(seq![spec_sfc_regulator()] + seq![spec_hkma_regulator()] + seq![spec_ia_regulator()], seq![spec_mpfa_regulator()], "hk"@);
    lemma_complete_append(spec_sfc_license_types() + spec_hkma_license_types() + spec_ia_license_types() + spec_mpfa_license_types(), spec_cr_license_types());
    lemma_granted_combine(spec_sfc_license_types() + spec_hkma_license_types() + spec_ia_license_types() + spec_mpfa_license_types(), seq![spec_sfc_regulator()] + seq![spec_hkma_regulator()] + seq![spec_ia_regulator()] + seq![spec_mpfa_regulator()], spec_cr_license_types(), seq![spec_cr_regulator()]);
    lemma_every_combine(spec_sfc_license_types() + spec_hkma_license_types() + spec_ia_license_types() + spec_mpfa_license_types(), seq![spec_sfc_regulator()] + seq![spec_hkma_regulator()] + seq![spec_ia_regulator()] + seq![spec_mpfa_regulator()], spec_cr_license_types(), seq![spec_cr_regulator()]);
    lemma_in_jurisdiction_append(seq![spec_sfc_regulator()] + seq![spec_hkma_regulator()] + seq![spec_ia_regulator()] + seq![spec_mpfa_regulator()], seq![spec_cr_regulator()], "hk"@);
}

/// No two licence types of `sfc_license_types` share an identifier.
proof fn lemma_sfc_license_types_ids_distinct()
    ensures
        license_type_ids_distinct(spec_sfc_license_types()),
{
    let t = spec_sfc_license_types();
    assert(ids_distinct_each(t)) by {
        reveal_strlit("hk-sfc:type-1-dealing-securities");
        reveal_strlit("hk-sfc:type-10-credit-rating");
        reveal_strlit("hk-sfc:type-2-dealing-futures");
        reveal_strlit("hk-sfc:type-3-leveraged-forex");
        reveal_strlit("hk-sfc:type-4-advising-securities");
        reveal_strlit("hk-sfc:type-5-advising-futures");
        reveal_strlit("hk-sfc:type-6-corporate-finance");
        reveal_strlit("hk-sfc:type-7-automated-trading");
        reveal_strlit("hk-sfc:type-8-securities-margin");
        reveal_strlit("hk-sfc:type-9-asset-management");
        reveal_strlit("hk-sfc:va-trading-platform");
        assert(t[0].license_type_id[12] != t[1].license_type_id[12]);
        assert(t[0].license_type_id[12] != t[2].license_type_id[12]);
        assert(t[1].license_type_id[12] != t[2].license_type_id[12]);
        assert(t[0].license_type_id[12] != t[3].license_type_id[12]);
        assert(t[1].license_type_id[12] != t[3].license_type_id[12]);
        assert(t[2].license_type_id[12] != t[3].license_type_id[12]);
        assert(t[0].license_type_id[12] != t[4].license_type_id[12]);
        assert(t[1].license_type_id[12] != t[4].license_type_id[12]);
        assert(t[2].license_type_id[12] != t[4].license_type_id[12]);
        assert(t[3].license_type_id[12] != t[4].license_type_id[12]);
        assert(t[0].license_type_id[12] != t[5].license_type_id[12]);
        assert(t[1].license_type_id[12] != t[5].license_type_id[12]);
        assert(t[2].license_type_id[12] != t[5].license_type_id[12]);
        assert(t[3].license_type_id[12] != t[5].license_type_id[12]);
        assert(t[4].license_type_id[12] != t[5].license_type_id[12]);
        assert(t[0].license_type_id[12] != t[6].license_type_id[12]);
        assert(t[1].license_type_id[12] != t[6].license_type_id[12]);
        assert(t[2].license_type_id[12] != t[6].license_type_id[12]);
        assert(t[3].license_type_id[12] != t[6].license_type_id[12]);
        assert(t[4].license_type_id[12] != t[6].license_type_id[12]);
        assert(t[5].license_type_id[12] != t[6].license_type_id[12]);
        assert(t[0].license_type_id[12] != t[7].license_type_id[12]);
        assert(t[1].license_type_id[12] != t[7].license_type_id[12]);
        assert(t[2].license_type_id[12] != t[7].license_type_id[12]);
        assert(t[3].license_type_id[12] != t[7].license_type_id[12]);
        assert(t[4].license_type_id[12] != t[7].license_type_id[12]);
        assert(t[5].license_type_id[12] != t[7].license_type_id[12]);
        assert(t[6].license_type_id[12] != t[7].license_type_id[12]);
        assert(t[0].license_type_id[12] != t[8].license_type_id[12]);
        assert(t[1].license_type_id[12] != t[8].license_type_id[12]);
        assert(t[2].license_type_id[12] != t[8].license_type_id[12]);
        assert(t[3].license_type_id[12] != t[8].license_type_id[12]);
        assert(t[4].license_type_id[12] != t[8].license_type_id[12]);
        assert(t[5].license_type_id[12] != t[8].license_type_id[12]);
        assert(t[6].license_type_id[12] != t[8].license_type_id[12]);
        assert(t[7].license_type_id[12] != t[8].license_type_id[12]);
        assert(t[0].license_type_id[13] != t[9].license_type_id[13]);
        assert(t[1].license_type_id[12] != t[9].license_type_id[12]);
        assert(t[2].license_type_id[12] != t[9].license_type_id[12]);
        assert(t[3].license_type_id[12] != t[9].license_type_id[12]);
        assert(t[4].license_type_id[12] != t[9].license_type_id[12]);
        assert(t[5].license_type_id[12] != t[9].license_type_id[12]);
        assert(t[6].license_type_id[12] != t[9].license_type_id[12]);
        assert(t[7].license_type_id[12] != t[9].license_type_id[12]);
        assert(t[8].license_type_id[12] != t[9].license_type_id[12]);
        assert(t[0].license_type_id[7] != t[10].license_type_id[7]);
        assert(t[1].license_type_id[7] != t[10].license_type_id[7]);
        assert(t[2].license_type_id[7] != t[10].license_type_id[7]);
        assert(t[3].license_type_id[7] != t[10].license_type_id[7]);
        assert(t[4].license_type_id[7] != t[10].license_type_id[7]);
        assert(t[5].license_type_id[7] != t[10].license_type_id[7]);
        assert(t[6].license_type_id[7] != t[10].license_type_id[7]);
        assert(t[7].license_type_id[7] != t[10].license_type_id[7]);
        assert(t[8].license_type_id[7] != t[10].license_type_id[7]);
        assert(t[9].license_type_id[7] != t[10].license_type_id[7]);
        reveal_with_fuel(ids_distinct_each, 12);
        reveal_with_fuel(id_fresh_each, 12);
    }
    lemma_ids_distinct_each(t);
}

/// No two licence types of `hkma_license_types` share an identifier.
proof fn lemma_hkma_license_types_ids_distinct()
    ensures
        license_type_ids_distinct(spec_hkma_license_types()),
{
    let t = spec_hkma_license_types();
    assert(ids_distinct_each(t)) by {
        reveal_strlit("hk-hkma:deposit-taking-company");
        reveal_strlit("hk-hkma:licensed-bank");
        reveal_strlit("hk-hkma:mso");
        reveal_strlit("hk-hkma:restricted-license-bank");
        reveal_strlit("hk-hkma:svf");
        assert(t[0].license_type_id[8] != t[1].license_type_id[8]);
        assert(t[0].license_type_id[8] != t[2].license_type_id[8]);
        assert(t[1].license_type_id[8] != t[2].license_type_id[8]);
        assert(t[0].license_type_id[8] != t[3].license_type_id[8]);
        assert(t[1].license_type_id[8] != t[3].license_type_id[8]);
        assert(t[2].license_type_id[8] != t[3].license_type_id[8]);
        assert(t[0].license_type_id[8] != t[4].license_type_id[8]);
        assert(t[1].license_type_id[8] != t[4].license_type_id[8]);
        assert(t[2].license_type_id[8] != t[4].license_type_id[8]);
        assert(t[3].license_type_id[8] != t[4].license_type_id[8]);
        reveal_with_fuel(ids_distinct_each, 6);
        reveal_with_fuel(id_fresh_each, 6);
    }
    lemma_ids_distinct_each(t);
}

/// No two licence types of `ia_license_types` share an identifier.
proof fn lemma_ia_license_types_ids_distinct()
    ensures
        license_type_ids_distinct(spec_ia_license_types()),
{
    let t = spec_ia_license_types();
    assert(ids_distinct_each(t)) by {
        reveal_strlit("hk-ia:insurance-agent");
        reveal_strlit("hk-ia:insurance-broker");
        reveal_strlit("hk-ia:insurer-composite");
        reveal_strlit("hk-ia:insurer-general");
        reveal_strlit("hk-ia:insurer-long-term");
        assert(t[0].license_type_id[14] != t[1].license_type_id[14]);
        assert(t[0].license_type_id[14] != t[2].license_type_id[14]);
        assert(t[1].license_type_id[14] != t[2].license_type_id[14]);
        assert(t[0].license_type_id[11] != t[3].license_type_id[11]);
        assert(t[1].license_type_id[11] != t[3].license_type_id[11]);
        assert(t[2].license_type_id[11] != t[3].license_type_id[11]);
        assert(t[0].license_type_id[11] != t[4].license_type_id[11]);
        assert(t[1].license_type_id[11] != t[4].license_type_id[11]);
        assert(t[2].license_type_id[11] != t[4].license_type_id[11]);
        assert(t[3].license_type_id[16] != t[4].license_type_id[16]);
        reveal_with_fuel(ids_distinct_each, 6);
        reveal_with_fuel(id_fresh_each, 6);
    }
    lemma_ids_distinct_each(t);
}

/// No two licence types of `mpfa_license_types` share an identifier.
proof fn lemma_mpfa_license_types_ids_distinct()
    ensures
        license_type_ids_distinct(spec_mpfa_license_types()),
{
    let t = spec_mpfa_license_types();
    assert(ids_distinct_each(t)) by {
        reveal_strlit("hk-mpfa:mpf-trustee");
        reveal_with_fuel(ids_distinct_each, 2);
        reveal_with_fuel(id_fresh_each, 2);
    }
    lemma_ids_distinct_each(t);
}

/// No two licence types of `cr_license_types` share an identifier.
proof fn lemma_cr_license_types_ids_distinct()
    ensures
        license_type_ids_distinct(spec_cr_license_types()),
{
    let t = spec_cr_license_types();
    assert(ids_distinct_each(t)) by {
        reveal_strlit("hk-cr:non-hk-company");
        reveal_strlit("hk-cr:private-limited-company");
        reveal_strlit("hk-cr:public-company");
        reveal_strlit("hk-cr:tcsp");
        assert(t[0].license_type_id[7] != t[1].license_type_id[7]);
        assert(t[0].license_type_id[6] != t[2].license_type_id[6]);
        assert(t[1].license_type_id[6] != t[2].license_type_id[6]);
        assert(t[0].license_type_id[6] != t[3].license_type_id[6]);
        assert(t[1].license_type_id[6] != t[3].license_type_id[6]);
        assert(t[2].license_type_id[6] != t[3].license_type_id[6]);
        reveal_with_fuel(ids_distinct_each, 5);
        reveal_with_fuel(id_fresh_each, 5);
    }
    lemma_ids_distinct_each(t);
}

/// No licence type of `sfc_license_types` shares an identifier with one of `hkma_license_types`.
proof fn lemma_sfc_license_types_apart_from_hkma_license_types()
    ensures
        license_type_ids_apart(spec_sfc_license_types(), spec_hkma_license_types()),
{
    let a = spec_sfc_license_types();
    let b = spec_hkma_license_types();
    assert(apart_each(a, b)) by {
        reveal_strlit("hk-hkma:deposit-taking-company");
        reveal_strlit("hk-hkma:licensed-bank");
        reveal_strlit("hk-hkma:mso");
        reveal_strlit("hk-hkma:restricted-license-bank");
        reveal_strlit("hk-hkma:svf");
        reveal_strlit("hk-sfc:type-1-dealing-securities");
        reveal_strlit("hk-sfc:type-10-credit-rating");
        reveal_strlit("hk-sfc:type-2-dealing-futures");
        reveal_strlit("hk-sfc:type-3-leveraged-forex");
        reveal_strlit("hk-sfc:type-4-advising-securities");
        reveal_strlit("hk-sfc:type-5-advising-futures");
        reveal_strlit("hk-sfc:type-6-corporate-finance");
        reveal_strlit("hk-sfc:type-7-automated-trading");
        reveal_strlit("hk-sfc:type-8-securities-margin");
        reveal_strlit("hk-sfc:type-9-asset-management");
        reveal_strlit("hk-sfc:va-trading-platform");
        assert(a[0].license_type_id[3] != b[0].license_type_id[3]);
        assert(a[0].license_type_id[3] != b[1].license_type_id[3]);
        assert(a[0].license_type_id[3] != b[2].license_type_id[3]);
        assert(a[0].license_type_id[3] != b[3].license_type_id[3]);
        assert(a[0].license_type_id[3] != b[4].license_type_id[3]);
        assert(a[1].license_type_id[3] != b[0].license_type_id[3]);
        assert(a[1].license_type_id[3] != b[1].license_type_id[3]);
        assert(a[1].license_type_id[3] != b[2].license_type_id[3]);
        assert(a[1].license_type_id[3] != b[3].license_type_id[3]);
        assert(a[1].license_type_id[3] != b[4].license_type_id[3]);
        assert(a[2].license_type_id[3] != b[0].license_type_id[3]);
        assert(a[2].license_type_id[3] != b[1].license_type_id[3]);
        assert(a[2].license_type_id[3] != b[2].license_type_id[3]);
        assert(a[2].license_type_id[3] != b[3].license_type_id[3]);
        assert(a[2].license_type_id[3] != b[4].license_type_id[3]);
        assert(a[3].license_type_id[3] != b[0].license_type_id[3]);
        assert(a[3].license_type_id[3] != b[1].license_type_id[3]);
        assert(a[3].license_type_id[3] != b[2].license_type_id[3]);
        assert(a[3].license_type_id[3] != b[3].license_type_id[3]);
        assert(a[3].license_type_id[3] != b[4].license_type_id[3]);
        assert(a[4].license_type_id[3] != b[0].license_type_id[3]);
        assert(a[4].license_type_id[3] != b[1].license_type_id[3]);
        assert(a[4].license_type_id[3] != b[2].license_type_id[3]);
        assert(a[4].license_type_id[3] != b[3].license_type_id[3]);
        assert(a[4].license_type_id[3] != b[4].license_type_id[3]);
        assert(a[5].license_type_id[3] != b[0].license_type_id[3]);
        assert(a[5].license_type_id[3] != b[1].license_type_id[3]);
        assert(a[5].license_type_id[3] != b[2].license_type_id[3]);
        assert(a[5].license_type_id[3] != b[3].license_type_id[3]);
        assert(a[5].license_type_id[3] != b[4].license_type_id[3]);
        assert(a[6].license_type_id[3] != b[0].license_type_id[3]);
        assert(a[6].license_type_id[3] != b[1].license_type_id[3]);
        assert(a[6].license_type_id[3] != b[2].license_type_id[3]);
        assert(a[6].license_type_id[3] != b[3].license_type_id[3]);
        assert(a[6].license_type_id[3] != b[4].license_type_id[3]);
        assert(a[7].license_type_id[3] != b[0].license_type_id[3]);
        assert(a[7].license_type_id[3] != b[1].license_type_id[3]);
        assert(a[7].license_type_id[3] != b[2].license_type_id[3]);
        assert(a[7].license_type_id[3] != b[3].license_type_id[3]);
        assert(a[7].license_type_id[3] != b[4].license_type_id[3]);
        assert(a[8].license_type_id[3] != b[0].license_type_id[3]);
        assert(a[8].license_type_id[3] != b[1].license_type_id[3]);
        assert(a[8].license_type_id[3] != b[2].license_type_id[3]);
        assert(a[8].license_type_id[3] != b[3].license_type_id[3]);
        assert(a[8].license_type_id[3] != b[4].license_type_id[3]);
        assert(a[9].license_type_id[3] != b[0].license_type_id[3]);
        assert(a[9].license_type_id[3] != b[1].license_type_id[3]);
        assert(a[9].license_type_id[3] != b[2].license_type_id[3]);
        assert(a[9].license_type_id[3] != b[3].license_type_id[3]);
        assert(a[9].license_type_id[3] != b[4].license_type_id[3]);
        assert(a[10].license_type_id[3] != b[0].license_type_id[3]);
        assert(a[10].license_type_id[3] != b[1].license_type_id[3]);
        assert(a[10].license_type_id[3] != b[2].license_type_id[3]);
        assert(a[10].license_type_id[3] != b[3].license_type_id[3]);
        assert(a[10].license_type_id[3] != b[4].license_type_id[3]);
        reveal_with_fuel(apart_each, 12);
        reveal_with_fuel(id_fresh_each, 6);
    }
    lemma_apart_each(a, b);
}

/// No licence type of `sfc_license_types` shares an identifier with one of `ia_license_types`.
proof fn lemma_sfc_license_types_apart_from_ia_license_types()
    ensures
        license_type_ids_apart(spec_sfc_license_types(), spec_ia_license_types()),
{
    let a = spec_sfc_license_types();
    let b = spec_ia_license_types();
    assert(apart_each(a, b)) by {
        reveal_strlit("hk-ia:insurance-agent");
        reveal_strlit("hk-ia:insurance-broker");
        reveal_strlit("hk-ia:insurer-composite");
        reveal_strlit("hk-ia:insurer-general");
        reveal_strlit("hk-ia:insurer-long-term");
        reveal_strlit("hk-sfc:type-1-dealing-securities");
        reveal_strlit("hk-sfc:type-10-credit-rating");
        reveal_strlit("hk-sfc:type-2-dealing-futures");
        reveal_strlit("hk-sfc:type-3-leveraged-forex");
        reveal_strlit("hk-sfc:type-4-advising-securities");
        reveal_strlit("hk-sfc:type-5-advising-futures");
        reveal_strlit("hk-sfc:type-6-corporate-finance");
        reveal_strlit("hk-sfc:type-7-automated-trading");
        reveal_strlit("hk-sfc:type-8-securities-margin");
        reveal_strlit("hk-sfc:type-9-asset-management");
        reveal_strlit("hk-sfc:va-trading-platform");
        assert(a[0].license_type_id[3] != b[0].license_type_id[3]);
        assert(a[0].license_type_id[3] != b[1].license_type_id[3]);
        assert(a[0].license_type_id[3] != b[2].license_type_id[3]);
        assert(a[0].license_type_id[3] != b[3].license_type_id[3]);
        assert(a[0].license_type_id[3] != b[4].license_type_id[3]);
        assert(a[1].license_type_id[3] != b[0].license_type_id[3]);
        assert(a[1].license_type_id[3] != b[1].license_type_id[3]);
        assert(a[1].license_type_id[3] != b[2].license_type_id[3]);
        assert(a[1].license_type_id[3] != b[3].license_type_id[3]);
        assert(a[1].license_type_id[3] != b[4].license_type_id[3]);
        assert(a[2].license_type_id[3] != b[0].license_type_id[3]);
        assert(a[2].license_type_id[3] != b[1].license_type_id[3]);
        assert(a[2].license_type_id[3] != b[2].license_type_id[3]);
        assert(a[2].license_type_id[3] != b[3].license_type_id[3]);
        assert(a[2].license_type_id[3] != b[4].license_type_id[3]);
        assert(a[3].license_type_id[3] != b[0].license_type_id[3]);
        assert(a[3].license_type_id[3] != b[1].license_type_id[3]);
        assert(a[3].license_type_id[3] != b[2].license_type_id[3]);
        assert(a[3].license_type_id[3] != b[3].license_type_id[3]);
        assert(a[3].license_type_id[3] != b[4].license_type_id[3]);
        assert(a[4].license_type_id[3] != b[0].license_type_id[3]);
        assert(a[4].license_type_id[3] != b[1].license_type_id[3]);
        assert(a[4].license_type_id[3] != b[2].license_type_id[3]);
        assert(a[4].license_type_id[3] != b[3].license_type_id[3]);
        assert(a[4].license_type_id[3] != b[4].license_type_id[3]);
        assert(a[5].license_type_id[3] != b[0].license_type_id[3]);
        assert(a[5].license_type_id[3] != b[1].license_type_id[3]);
        assert(a[5].license_type_id[3] != b[2].license_type_id[3]);
        assert(a[5].license_type_id[3] != b[3].license_type_id[3]);
        assert(a[5].license_type_id[3] != b[4].license_type_id[3]);
        assert(a[6].license_type_id[3] != b[0].license_type_id[3]);
        assert(a[6].license_type_id[3] != b[1].license_type_id[3]);
        assert(a[6].license_type_id[3] != b[2].license_type_id[3]);
        assert(a[6].license_type_id[3] != b[3].license_type_id[3]);
        assert(a[6].license_type_id[3] != b[4].license_type_id[3]);
        assert(a[7].license_type_id[3] != b[0].license_type_id[3]);
        assert(a[7].license_type_id[3] != b[1].license_type_id[3]);
        assert(a[7].license_type_id[3] != b[2].license_type_id[3]);
        assert(a[7].license_type_id[3] != b[3].license_type_id[3]);
        assert(a[7].license_type_id[3] != b[4].license_type_id[3]);
        assert(a[8].license_type_id[3] != b[0].license_type_id[3]);
        assert(a[8].license_type_id[3] != b[1].license_type_id[3]);
        assert(a[8].license_type_id[3] != b[2].license_type_id[3]);
        assert(a[8].license_type_id[3] != b[3].license_type_id[3]);
        assert(a[8].license_type_id[3] != b[4].license_type_id[3]);
        assert(a[9].license_type_id[3] != b[0].license_type_id[3]);
        assert(a[9].license_type_id[3] != b[1].license_type_id[3]);
        assert(a[9].license_type_id[3] != b[2].license_type_id[3]);
        assert(a[9].license_type_id[3] != b[3].license_type_id[3]);
        assert(a[9].license_type_id[3] != b[4].license_type_id[3]);
        assert(a[10].license_type_id[3] != b[0].license_type_id[3]);
        assert(a[10].license_type_id[3] != b[1].license_type_id[3]);
        assert(a[10].license_type_id[3] != b[2].license_type_id[3]);
        assert(a[10].license_type_id[3] != b[3].license_type_id[3]);
        assert(a[10].license_type_id[3] != b[4].license_type_id[3]);
        reveal_with_fuel(apart_each, 12);
        reveal_with_fuel(id_fresh_each, 6);
    }
    lemma_apart_each(a, b);
}

/// No licence type of `sfc_license_types` shares an identifier with one of `mpfa_license_types`.
proof fn lemma_sfc_license_types_apart_from_mpfa_license_types()
    ensures
        license_type_ids_apart(spec_sfc_license_types(), spec_mpfa_license_types()),
{
    let a = spec_sfc_license_types();
    let b = spec_mpfa_license_types();
    assert(apart_each(a, b)) by {
        reveal_strlit("hk-mpfa:mpf-trustee");
        reveal_strlit("hk-sfc:type-1-dealing-securities");
        reveal_strlit("hk-sfc:type-10-credit-rating");
        reveal_strlit("hk-sfc:type-2-dealing-futures");
        reveal_strlit("hk-sfc:type-3-leveraged-forex");
        reveal_strlit("hk-sfc:type-4-advising-securities");
        reveal_strlit("hk-sfc:type-5-advising-futures");
        reveal_strlit("hk-sfc:type-6-corporate-finance");
        reveal_strlit("hk-sfc:type-7-automated-trading");
        reveal_strlit("hk-sfc:type-8-securities-margin");
        reveal_strlit("hk-sfc:type-9-asset-management");
        reveal_strlit("hk-sfc:va-trading-platform");
        assert(a[0].license_type_id[3] != b[0].license_type_id[3]);
        assert(a[1].license_type_id[3] != b[0].license_type_id[3]);
        assert(a[2].license_type_id[3] != b[0].license_type_id[3]);
        assert(a[3].license_type_id[3] != b[0].license_type_id[3]);
        assert(a[4].license_type_id[3] != b[0].license_type_id[3]);
        assert(a[5].license_type_id[3] != b[0].license_type_id[3]);
        assert(a[6].license_type_id[3] != b[0].license_type_id[3]);
        assert(a[7].license_type_id[3] != b[0].license_type_id[3]);
        assert(a[8].license_type_id[3] != b[0].license_type_id[3]);
        assert(a[9].license_type_id[3] != b[0].license_type_id[3]);
        assert(a[10].license_type_id[3] != b[0].license_type_id[3]);
        reveal_with_fuel(apart_each, 12);
        reveal_with_fuel(id_fresh_each, 2);
    }
    lemma_apart_each(a, b);
}

/// No licence type of `sfc_license_types` shares an identifier with one of `cr_license_types`.
proof fn lemma_sfc_license_types_apart_from_cr_license_types()
    ensures
        license_type_ids_apart(spec_sfc_license_types(), spec_cr_license_types()),
{
    let a = spec_sfc_license_types();
    let b = spec_cr_license_types();
    assert(apart_each(a, b)) by {
        reveal_strlit("hk-cr:non-hk-company");
        reveal_strlit("hk-cr:private-limited-company");
        reveal_strlit("hk-cr:public-company");
        reveal_strlit("hk-cr:tcsp");
        reveal_strlit("hk-sfc:type-1-dealing-securities");
        reveal_strlit("hk-sfc:type-10-credit-rating");
        reveal_strlit("hk-sfc:type-2-dealing-futures");
        reveal_strlit("hk-sfc:type-3-leveraged-forex");
        reveal_strlit("hk-sfc:type-4-advising-securities");
        reveal_strlit("hk-sfc:type-5-advising-futures");
        reveal_strlit("hk-sfc:type-6-corporate-finance");
        reveal_strlit("hk-sfc:type-7-automated-trading");
        reveal_strlit("hk-sfc:type-8-securities-margin");
        reveal_strlit("hk-sfc:type-9-asset-management");
        reveal_strlit("hk-sfc:va-trading-platform");
        assert(a[0].license_type_id[3] != b[0].license_type_id[3]);
        assert(a[0].license_type_id[3] != b[1].license_type_id[3]);
        assert(a[0].license_type_id[3] != b[2].license_type_id[3]);
        assert(a[0].license_type_id[3] != b[3].license_type_id[3]);
        assert(a[1].license_type_id[3] != b[0].license_type_id[3]);
        assert(a[1].license_type_id[3] != b[1].license_type_id[3]);
        assert(a[1].license_type_id[3] != b[2].license_type_id[3]);
        assert(a[1].license_type_id[3] != b[3].license_type_id[3]);
        assert(a[2].license_type_id[3] != b[0].license_type_id[3]);
        assert(a[2].license_type_id[3] != b[1].license_type_id[3]);
        assert(a[2].license_type_id[3] != b[2].license_type_id[3]);
        assert(a[2].license_type_id[3] != b[3].license_type_id[3]);
        assert(a[3].license_type_id[3] != b[0].license_type_id[3]);
        assert(a[3].license_type_id[3] != b[1].license_type_id[3]);
        assert(a[3].license_type_id[3] != b[2].license_type_id[3]);
        assert(a[3].license_type_id[3] != b[3].license_type_id[3]);
        assert(a[4].license_type_id[3] != b[0].license_type_id[3]);
        assert(a[4].license_type_id[3] != b[1].license_type_id[3]);
        assert(a[4].license_type_id[3] != b[2].license_type_id[3]);
        assert(a[4].license_type_id[3] != b[3].license_type_id[3]);
        assert(a[5].license_type_id[3] != b[0].license_type_id[3]);
        assert(a[5].license_type_id[3] != b[1].license_type_id[3]);
        assert(a[5].license_type_id[3] != b[2].license_type_id[3]);
        assert(a[5].license_type_id[3] != b[3].license_type_id[3]);
        assert(a[6].license_type_id[3] != b[0].license_type_id[3]);
        assert(a[6].license_type_id[3] != b[1].license_type_id[3]);
        assert(a[6].license_type_id[3] != b[2].license_type_id[3]);
        assert(a[6].license_type_id[3] != b[3].license_type_id[3]);
        assert(a[7].license_type_id[3] != b[0].license_type_id[3]);
        assert(a[7].license_type_id[3] != b[1].license_type_id[3]);
        assert(a[7].license_type_id[3] != b[2].license_type_id[3]);
        assert(a[7].license_type_id[3] != b[3].license_type_id[3]);
        assert(a[8].license_type_id[3] != b[0].license_type_id[3]);
        assert(a[8].license_type_id[3] != b[1].license_type_id[3]);
        assert(a[8].license_type_id[3] != b[2].license_type_id[3]);
        assert(a[8].license_type_id[3] != b[3].license_type_id[3]);
        assert(a[9].license_type_id[3] != b[0].license_type_id[3]);
        assert(a[9].license_type_id[3] != b[1].license_type_id[3]);
        assert(a[9].license_type_id[3] != b[2].license_type_id[3]);
        assert(a[9].license_type_id[3] != b[3].license_type_id[3]);
        assert(a[10].license_type_id[3] != b[0].license_type_id[3]);
        assert(a[10].license_type_id[3] != b[1].license_type_id[3]);
        assert(a[10].license_type_id[3] != b[2].license_type_id[3]);
        assert(a[10].license_type_id[3] != b[3].license_type_id[3]);
        reveal_with_fuel(apart_each, 12);
        reveal_with_fuel(id_fresh_each, 5);
    }
    lemma_apart_each(a, b);
}

/// No licence type of `hkma_license_types` shares an identifier with one of `ia_license_types`.
proof fn lemma_hkma_license_types_apart_from_ia_license_types()
    ensures
        license_type_ids_apart(spec_hkma_license_types(), spec_ia_license_types()),
{
    let a = spec_hkma_license_types();
    let b = spec_ia_license_types();
    assert(apart_each(a, b)) by {
        reveal_strlit("hk-hkma:deposit-taking-company");
        reveal_strlit("hk-hkma:licensed-bank");
        reveal_strlit("hk-hkma:mso");
        reveal_strlit("hk-hkma:restricted-license-bank");
        reveal_strlit("hk-hkma:svf");
        reveal_strlit("hk-ia:insurance-agent");
        reveal_strlit("hk-ia:insurance-broker");
        reveal_strlit("hk-ia:insurer-composite");
        reveal_strlit("hk-ia:insurer-general");
        reveal_strlit("hk-ia:insurer-long-term");
        assert(a[0].license_type_id[3] != b[0].license_type_id[3]);
        assert(a[0].license_type_id[3] != b[1].license_type_id[3]);
        assert(a[0].license_type_id[3] != b[2].license_type_id[3]);
        assert(a[0].license_type_id[3] != b[3].license_type_id[3]);
        assert(a[0].license_type_id[3] != b[4].license_type_id[3]);
        assert(a[1].license_type_id[3] != b[0].license_type_id[3]);
        assert(a[1].license_type_id[3] != b[1].license_type_id[3]);
        assert(a[1].license_type_id[3] != b[2].license_type_id[3]);
        assert(a[1].license_type_id[3] != b[3].license_type_id[3]);
        assert(a[1].license_type_id[3] != b[4].license_type_id[3]);
        assert(a[2].license_type_id[3] != b[0].license_type_id[3]);
        assert(a[2].license_type_id[3] != b[1].license_type_id[3]);
        assert(a[2].license_type_id[3] != b[2].license_type_id[3]);
        assert(a[2].license_type_id[3] != b[3].license_type_id[3]);
        assert(a[2].license_type_id[3] != b[4].license_type_id[3]);
        assert(a[3].license_type_id[3] != b[0].license_type_id[3]);
        assert(a[3].license_type_id[3] != b[1].license_type_id[3]);
        assert(a[3].license_type_id[3] != b[2].license_type_id[3]);
        assert(a[3].license_type_id[3] != b[3].license_type_id[3]);
        assert(a[3].license_type_id[3] != b[4].license_type_id[3]);
        assert(a[4].license_type_id[3] != b[0].license_type_id[3]);
        assert(a[4].license_type_id[3] != b[1].license_type_id[3]);
        assert(a[4].license_type_id[3] != b[2].license_type_id[3]);
        assert(a[4].license_type_id[3] != b[3].license_type_id[3]);
        assert(a[4].license_type_id[3] != b[4].license_type_id[3]);
        reveal_with_fuel(apart_each, 6);
        reveal_with_fuel(id_fresh_each, 6);
    }
    lemma_apart_each(a, b);
}

/// No licence type of `hkma_license_types` shares an identifier with one of `mpfa_license_types`.
proof fn lemma_hkma_license_types_apart_from_mpfa_license_types()
    ensures
        license_type_ids_apart(spec_hkma_license_types(), spec_mpfa_license_types()),
{
    let a = spec_hkma_license_types();
    let b = spec_mpfa_license_types();
    assert(apart_each(a, b)) by {
        reveal_strlit("hk-hkma:deposit-taking-company");
        reveal_strlit("hk-hkma:licensed-bank");
        reveal_strlit("hk-hkma:mso");
        reveal_strlit("hk-hkma:restricted-license-bank");
        reveal_strlit("hk-hkma:svf");
        reveal_strlit("hk-mpfa:mpf-trustee");
        assert(a[0].license_type_id[3] != b[0].license_type_id[3]);
        assert(a[1].license_type_id[3] != b[0].license_type_id[3]);
        assert(a[2].license_type_id[3] != b[0].license_type_id[3]);
        assert(a[3].license_type_id[3] != b[0].license_type_id[3]);
        assert(a[4].license_type_id[3] != b[0].license_type_id[3]);
        reveal_with_fuel(apart_each, 6);
        reveal_with_fuel(id_fresh_each, 2);
    }
    lemma_apart_each(a, b);
}

/// No licence type of `hkma_license_types` shares an identifier with one of `cr_license_types`.
proof fn lemma_hkma_license_types_apart_from_cr_license_types()
    ensures
        license_type_ids_apart(spec_hkma_license_types(), spec_cr_license_types()),
{
    let a = spec_hkma_license_types();
    let b = spec_cr_license_types();
    assert(apart_each(a, b)) by {
        reveal_strlit("hk-cr:non-hk-company");
        reveal_strlit("hk-cr:private-limited-company");
        reveal_strlit("hk-cr:public-company");
        reveal_strlit("hk-cr:tcsp");
        reveal_strlit("hk-hkma:deposit-taking-company");
        reveal_strlit("hk-hkma:licensed-bank");
        reveal_strlit("hk-hkma:mso");
        reveal_strlit("hk-hkma:restricted-license-bank");
        reveal_strlit("hk-hkma:svf");
        assert(a[0].license_type_id[3] != b[0].license_type_id[3]);
        assert(a[0].license_type_id[3] != b[1].license_type_id[3]);
        assert(a[0].license_type_id[3] != b[2].license_type_id[3]);
        assert(a[0].license_type_id[3] != b[3].license_type_id[3]);
        assert(a[1].license_type_id[3] != b[0].license_type_id[3]);
        assert(a[1].license_type_id[3] != b[1].license_type_id[3]);
        assert(a[1].license_type_id[3] != b[2].license_type_id[3]);
        assert(a[1].license_type_id[3] != b[3].license_type_id[3]);
        assert(a[2].license_type_id[3] != b[0].license_type_id[3]);
        assert(a[2].license_type_id[3] != b[1].license_type_id[3]);
        assert(a[2].license_type_id[3] != b[2].license_type_id[3]);
        assert(a[2].license_type_id[3] != b[3].license_type_id[3]);
        assert(a[3].license_type_id[3] != b[0].license_type_id[3]);
        assert(a[3].license_type_id[3] != b[1].license_type_id[3]);
        assert(a[3].license_type_id[3] != b[2].license_type_id[3]);
        assert(a[3].license_type_id[3] != b[3].license_type_id[3]);
        assert(a[4].license_type_id[3] != b[0].license_type_id[3]);
        assert(a[4].license_type_id[3] != b[1].license_type_id[3]);
        assert(a[4].license_type_id[3] != b[2].license_type_id[3]);
        assert(a[4].license_type_id[3] != b[3].license_type_id[3]);
        reveal_with_fuel(apart_each, 6);
        reveal_with_fuel(id_fresh_each, 5);
    }
    lemma_apart_each(a, b);
}

/// No licence type of `ia_license_types` shares an identifier with one of `mpfa_license_types`.
proof fn lemma_ia_license_types_apart_from_mpfa_license_types()
    ensures
        license_type_ids_apart(spec_ia_license_types(), spec_mpfa_license_types()),
{
    let a = spec_ia_license_types();
    let b = spec_mpfa_license_types();
    assert(apart_each(a, b)) by {
        reveal_strlit("hk-ia:insurance-agent");
        reveal_strlit("hk-ia:insurance-broker");
        reveal_strlit("hk-ia:insurer-composite");
        reveal_strlit("hk-ia:insurer-general");
        reveal_strlit("hk-ia:insurer-long-term");
        reveal_strlit("hk-mpfa:mpf-trustee");
        assert(a[0].license_type_id[3] != b[0].license_type_id[3]);
        assert(a[1].license_type_id[3] != b[0].license_type_id[3]);
        assert(a[2].license_type_id[3] != b[0].license_type_id[3]);
        assert(a[3].license_type_id[3] != b[0].license_type_id[3]);
        assert(a[4].license_type_id[3] != b[0].license_type_id[3]);
        reveal_with_fuel(apart_each, 6);
        reveal_with_fuel(id_fresh_each, 2);
    }
    lemma_apart_each(a, b);
}

/// No licence type of `ia_license_types` shares an identifier with one of `cr_license_types`.
proof fn lemma_ia_license_types_apart_from_cr_license_types()
    ensures
        license_type_ids_apart(spec_ia_license_types(), spec_cr_license_types()),
{
    let a = spec_ia_license_types();
    let b = spec_cr_license_types();
    assert(apart_each(a, b)) by {
        reveal_strlit("hk-cr:non-hk-company");
        reveal_strlit("hk-cr:private-limited-company");
        reveal_strlit("hk-cr:public-company");
        reveal_strlit("hk-cr:tcsp");
        reveal_strlit("hk-ia:insurance-agent");
        reveal_strlit("hk-ia:insurance-broker");
        reveal_strlit("hk-ia:insurer-composite");
        reveal_strlit("hk-ia:insurer-general");
        reveal_strlit("hk-ia:insurer-long-term");
        assert(a[0].license_type_id[3] != b[0].license_type_id[3]);
        assert(a[0].license_type_id[3] != b[1].license_type_id[3]);
        assert(a[0].license_type_id[3] != b[2].license_type_id[3]);
        assert(a[0].license_type_id[3] != b[3].license_type_id[3]);
        assert(a[1].license_type_id[3] != b[0].license_type_id[3]);
        assert(a[1].license_type_id[3] != b[1].license_type_id[3]);
        assert(a[1].license_type_id[3] != b[2].license_type_id[3]);
        assert(a[1].license_type_id[3] != b[3].license_type_id[3]);
        assert(a[2].license_type_id[3] != b[0].license_type_id[3]);
        assert(a[2].license_type_id[3] != b[1].license_type_id[3]);
        assert(a[2].license_type_id[3] != b[2].license_type_id[3]);
        assert(a[2].license_type_id[3] != b[3].license_type_id[3]);
        assert(a[3].license_type_id[3] != b[0].license_type_id[3]);
        assert(a[3].license_type_id[3] != b[1].license_type_id[3]);
        assert(a[3].license_type_id[3] != b[2].license_type_id[3]);
        assert(a[3].license_type_id[3] != b[3].license_type_id[3]);
        assert(a[4].license_type_id[3] != b[0].license_type_id[3]);
        assert(a[4].license_type_id[3] != b[1].license_type_id[3]);
        assert(a[4].license_type_id[3] != b[2].license_type_id[3]);
        assert(a[4].license_type_id[3] != b[3].license_type_id[3]);
        reveal_with_fuel(apart_each, 6);
        reveal_with_fuel(id_fresh_each, 5);
    }
    lemma_apart_each(a, b);
}

/// No licence type of `mpfa_license_types` shares an identifier with one of `cr_license_types`.
proof fn lemma_mpfa_license_types_apart_from_cr_license_types()
    ensures
        license_type_ids_apart(spec_mpfa_license_types(), spec_cr_license_types()),
{
    let a = spec_mpfa_license_types();
    let b = spec_cr_license_types();
    assert(apart_each(a, b)) by {
        reveal_strlit("hk-cr:non-hk-company");
        reveal_strlit("hk-cr:private-limited-company");
        reveal_strlit("hk-cr:public-company");
        reveal_strlit("hk-cr:tcsp");
        reveal_strlit("hk-mpfa:mpf-trustee");
        assert(a[0].license_type_id[3] != b[0].license_type_id[3]);
        assert(a[0].license_type_id[3] != b[1].license_type_id[3]);
        assert(a[0].license_type_id[3] != b[2].license_type_id[3]);
        assert(a[0].license_type_id[3] != b[3].license_type_id[3]);
        reveal_with_fuel(apart_each, 2);
        reveal_with_fuel(id_fresh_each, 5);
    }
    lemma_apart_each(a, b);
}

/// No two licence types of `hong_kong_license_types` share an identifier.
pub proof fn lemma_hong_kong_license_type_ids_distinct()
    ensures
        license_type_ids_distinct(spec_hong_kong_license_types()),
{
    lemma_sfc_license_types_ids_distinct();
    lemma_hkma_license_types_ids_distinct();
    lemma_ia_license_types_ids_distinct();
    lemma_mpfa_license_types_ids_distinct();
    lemma_cr_license_types_ids_distinct();
    assert(spec_hong_kong_license_types() =~= spec_sfc_license_types() + spec_hkma_license_types() + spec_ia_license_types() + spec_mpfa_license_types() + spec_cr_license_types());
    let acc = spec_sfc_license_types();
    lemma_sfc_license_types_apart_from_hkma_license_types();
    let part = spec_sfc_license_types();
    lemma_ids_distinct_append(acc, spec_hkma_license_types());
    let acc = acc + spec_hkma_license_types();
    lemma_sfc_license_types_apart_from_ia_license_types();
    lemma_hkma_license_types_apart_from_ia_license_types();
    let part = spec_sfc_license_types();
    lemma_ids_apart_append(part, spec_hkma_license_types(), spec_ia_license_types());
    let part = part + spec_hkma_license_types();
    lemma_ids_distinct_append(acc, spec_ia_license_types());
    let acc = acc + spec_ia_license_types();
    lemma_sfc_license_types_apart_from_mpfa_license_types();
    lemma_hkma_license_types_apart_from_mpfa_license_types();
    lemma_ia_license_types_apart_from_mpfa_license_types();
    let part = spec_sfc_license_types();
    lemma_ids_apart_append(part, spec_hkma_license_types(), spec_mpfa_license_types());
    let part = part + spec_hkma_license_types();
    lemma_ids_apart_append(part, spec_ia_license_types(), spec_mpfa_license_types());
    let part = part + spec_ia_license_types();
    lemma_ids_distinct_append(acc, spec_mpfa_license_types());
    let acc = acc + spec_mpfa_license_types();
    lemma_sfc_license_types_apart_from_cr_license_types();
    lemma_hkma_license_types_apart_from_cr_license_types();
    lemma_ia_license_types_apart_from_cr_license_types();
    lemma_mpfa_license_types_apart_from_cr_license_types();
    let part = spec_sfc_license_types();
    lemma_ids_apart_append(part, spec_hkma_license_types(), spec_cr_license_types());
    let part = part + spec_hkma_license_types();
    lemma_ids_apart_append(part, spec_ia_license_types(), spec_cr_license_types());
    let part = part + spec_ia_license_types();
    lemma_ids_apart_append(part, spec_mpfa_license_types(), spec_cr_license_types());
    let part = part + spec_mpfa_license_types();
    lemma_ids_distinct_append(acc, spec_cr_license_types());
    let acc = acc + spec_cr_license_types();
    assert(spec_hong_kong_license_types() == acc);
}

/// Each licence-type identifier of `sfc_license_types` starts with its regulator's
/// identifier and a colon.
proof fn lemma_sfc_license_types_prefixed()
    ensures
        license_type_ids_prefixed(spec_sfc_license_types()),
{
    let ts = spec_sfc_license_types();
    assert(license_type_id_prefixed(ts[0])) by {
        reveal_strlit("hk-sfc:type-1-dealing-securities");
        reveal_strlit("hk-sfc");
        reveal_strlit(":");
        assert(ts[0].license_type_id.subrange(0, (ts[0].regulator_id + ":"@).len() as int) =~= ts[0].regulator_id + ":"@);
    }
    assert(license_type_id_prefixed(ts[1])) by {
        reveal_strlit("hk-sfc:type-2-dealing-futures");
        reveal_strlit("hk-sfc");
        reveal_strlit(":");
        assert(ts[1].license_type_id.subrange(0, (ts[1].regulator_id + ":"@).len() as int) =~= ts[1].regulator_id + ":"@);
    }
    assert(license_type_id_prefixed(ts[2])) by {
        reveal_strlit("hk-sfc:type-3-leveraged-forex");
        reveal_strlit("hk-sfc");
        reveal_strlit(":");
        assert(ts[2].license_type_id.subrange(0, (ts[2].regulator_id + ":"@).len() as int) =~= ts[2].regulator_id + ":"@);
    }
    assert(license_type_id_prefixed(ts[3])) by {
        reveal_strlit("hk-sfc:type-4-advising-securities");
        reveal_strlit("hk-sfc");
        reveal_strlit(":");
        assert(ts[3].license_type_id.subrange(0, (ts[3].regulator_id + ":"@).len() as int) =~= ts[3].regulator_id + ":"@);
    }
    assert(license_type_id_prefixed(ts[4])) by {
        reveal_strlit("hk-sfc:type-5-advising-futures");
        reveal_strlit("hk-sfc");
        reveal_strlit(":");
        assert(ts[4].license_type_id.subrange(0, (ts[4].regulator_id + ":"@).len() as int) =~= ts[4].regulator_id + ":"@);
    }
    assert(license_type_id_prefixed(ts[5])) by {
        reveal_strlit("hk-sfc:type-6-corporate-finance");
        reveal_strlit("hk-sfc");
        reveal_strlit(":");
        assert(ts[5].license_type_id.subrange(0, (ts[5].regulator_id + ":"@).len() as int) =~= ts[5].regulator_id + ":"@);
    }
    assert(license_type_id_prefixed(ts[6])) by {
        reveal_strlit("hk-sfc:type-7-automated-trading");
        reveal_strlit("hk-sfc");
        reveal_strlit(":");
        assert(ts[6].license_type_id.subrange(0, (ts[6].regulator_id + ":"@).len() as int) =~= ts[6].regulator_id + ":"@);
    }
    assert(license_type_id_prefixed(ts[7])) by {
        reveal_strlit("hk-sfc:type-8-securities-margin");
        reveal_strlit("hk-sfc");
        reveal_strlit(":");
        assert(ts[7].license_type_id.subrange(0, (ts[7].regulator_id + ":"@).len() as int) =~= ts[7].regulator_id + ":"@);
    }
    assert(license_type_id_prefixed(ts[8])) by {
        reveal_strlit("hk-sfc:type-9-asset-management");
        reveal_strlit("hk-sfc");
        reveal_strlit(":");
        assert(ts[8].license_type_id.subrange(0, (ts[8].regulator_id + ":"@).len() as int) =~= ts[8].regulator_id + ":"@);
    }
    assert(license_type_id_prefixed(ts[9])) by {
        reveal_strlit("hk-sfc:type-10-credit-rating");
        reveal_strlit("hk-sfc");
        reveal_strlit(":");
        assert(ts[9].license_type_id.subrange(0, (ts[9].regulator_id + ":"@).len() as int) =~= ts[9].regulator_id + ":"@);
    }
    assert(license_type_id_prefixed(ts[10])) by {
        reveal_strlit("hk-sfc:va-trading-platform");
        reveal_strlit("hk-sfc");
        reveal_strlit(":");
        assert(ts[10].license_type_id.subrange(0, (ts[10].regulator_id + ":"@).len() as int) =~= ts[10].regulator_id + ":"@);
    }
    assert(prefixed_each(ts)) by {
        reveal_with_fuel(prefixed_each, 12);
    }
    lemma_prefixed_each(ts);
}

/// Each licence-type identifier of `hkma_license_types` starts with its regulator's
/// identifier and a colon.
proof fn lemma_hkma_license_types_prefixed()
    ensures
        license_type_ids_prefixed(spec_hkma_license_types()),
{
    let ts = spec_hkma_license_types();
    assert(license_type_id_prefixed(ts[0])) by {
        reveal_strlit("hk-hkma:licensed-bank");
        reveal_strlit("hk-hkma");
        reveal_strlit(":");
        assert(ts[0].license_type_id.subrange(0, (ts[0].regulator_id + ":"@).len() as int) =~= ts[0].regulator_id + ":"@);
    }
    assert(license_type_id_prefixed(ts[1])) by {
        reveal_strlit("hk-hkma:restricted-license-bank");
        reveal_strlit("hk-hkma");
        reveal_strlit(":");
        assert(ts[1].license_type_id.subrange(0, (ts[1].regulator_id + ":"@).len() as int) =~= ts[1].regulator_id + ":"@);
    }
    assert(license_type_id_prefixed(ts[2])) by {
        reveal_strlit("hk-hkma:deposit-taking-company");
        reveal_strlit("hk-hkma");
        reveal_strlit(":");
        assert(ts[2].license_type_id.subrange(0, (ts[2].regulator_id + ":"@).len() as int) =~= ts[2].regulator_id + ":"@);
    }
    assert(license_type_id_prefixed(ts[3])) by {
        reveal_strlit("hk-hkma:svf");
        reveal_strlit("hk-hkma");
        reveal_strlit(":");
        assert(ts[3].license_type_id.subrange(0, (ts[3].regulator_id + ":"@).len() as int) =~= ts[3].regulator_id + ":"@);
    }
    assert(license_type_id_prefixed(ts[4])) by {
        reveal_strlit("hk-hkma:mso");
        reveal_strlit("hk-hkma");
        reveal_strlit(":");
        assert(ts[4].license_type_id.subrange(0, (ts[4].regulator_id + ":"@).len() as int) =~= ts[4].regulator_id + ":"@);
    }
    assert(prefixed_each(ts)) by {
        reveal_with_fuel(prefixed_each, 6);
    }
    lemma_prefixed_each(ts);
}

/// Each licence-type identifier of `ia_license_types` starts with its regulator's
/// identifier and a colon.
proof fn lemma_ia_license_types_prefixed()
    ensures
        license_type_ids_prefixed(spec_ia_license_types()),
{
    let ts = spec_ia_license_types();
    assert(license_type_id_prefixed(ts[0])) by {
        reveal_strlit("hk-ia:insurer-long-term");
        reveal_strlit("hk-ia");
        reveal_strlit(":");
        assert(ts[0].license_type_id.subrange(0, (ts[0].regulator_id + ":"@).len() as int) =~= ts[0].regulator_id + ":"@);
    }
    assert(license_type_id_prefixed(ts[1])) by {
        reveal_strlit("hk-ia:insurer-general");
        reveal_strlit("hk-ia");
        reveal_strlit(":");
        assert(ts[1].license_type_id.subrange(0, (ts[1].regulator_id + ":"@).len() as int) =~= ts[1].regulator_id + ":"@);
    }
    assert(license_type_id_prefixed(ts[2])) by {
        reveal_strlit("hk-ia:insurer-composite");
        reveal_strlit("hk-ia");
        reveal_strlit(":");
        assert(ts[2].license_type_id.subrange(0, (ts[2].regulator_id + ":"@).len() as int) =~= ts[2].regulator_id + ":"@);
    }
    assert(license_type_id_prefixed(ts[3])) by {
        reveal_strlit("hk-ia:insurance-broker");
        reveal_strlit("hk-ia");
        reveal_strlit(":");
        assert(ts[3].license_type_id.subrange(0, (ts[3].regulator_id + ":"@).len() as int) =~= ts[3].regulator_id + ":"@);
    }
    assert(license_type_id_prefixed(ts[4])) by {
        reveal_strlit("hk-ia:insurance-agent");
        reveal_strlit("hk-ia");
        reveal_strlit(":");
        assert(ts[4].license_type_id.subrange(0, (ts[4].regulator_id + ":"@).len() as int) =~= ts[4].regulator_id + ":"@);
    }
    assert(prefixed_each(ts)) by {
        reveal_with_fuel(prefixed_each, 6);
    }
    lemma_prefixed_each(ts);
}

/// Each licence-type identifier of `mpfa_license_types` starts with its regulator's
/// identifier and a colon.
proof fn lemma_mpfa_license_types_prefixed()
    ensures
        license_type_ids_prefixed(spec_mpfa_license_types()),
{
    let ts = spec_mpfa_license_types();
    assert(license_type_id_prefixed(ts[0])) by {
        reveal_strlit("hk-mpfa:mpf-trustee");
        reveal_strlit("hk-mpfa");
        reveal_strlit(":");
        assert(ts[0].license_type_id.subrange(0, (ts[0].regulator_id + ":"@).len() as int) =~= ts[0].regulator_id + ":"@);
    }
    assert(prefixed_each(ts)) by {
        reveal_with_fuel(prefixed_each, 2);
    }
    lemma_prefixed_each(ts);
}

/// Each licence-type identifier of `cr_license_types` starts with its regulator's
/// identifier and a colon.
proof fn lemma_cr_license_types_prefixed()
    ensures
        license_type_ids_prefixed(spec_cr_license_types()),
{
    let ts = spec_cr_license_types();
    assert(license_type_id_prefixed(ts[0])) by {
        reveal_strlit("hk-cr:private-limited-company");
        reveal_strlit("hk-cr");
        reveal_strlit(":");
        assert(ts[0].license_type_id.subrange(0, (ts[0].regulator_id + ":"@).len() as int) =~= ts[0].regulator_id + ":"@);
    }
    assert(license_type_id_prefixed(ts[1])) by {
        reveal_strlit("hk-cr:public-company");
        reveal_strlit("hk-cr");
        reveal_strlit(":");
        assert(ts[1].license_type_id.subrange(0, (ts[1].regulator_id + ":"@).len() as int) =~= ts[1].regulator_id + ":"@);
    }
    assert(license_type_id_prefixed(ts[2])) by {
        reveal_strlit("hk-cr:non-hk-company");
        reveal_strlit("hk-cr");
        reveal_strlit(":");
        assert(ts[2].license_type_id.subrange(0, (ts[2].regulator_id + ":"@).len() as int) =~= ts[2].regulator_id + ":"@);
    }
    assert(license_type_id_prefixed(ts[3])) by {
        reveal_strlit("hk-cr:tcsp");
        reveal_strlit("hk-cr");
        reveal_strlit(":");
        assert(ts[3].license_type_id.subrange(0, (ts[3].regulator_id + ":"@).len() as int) =~= ts[3].regulator_id + ":"@);
    }
    assert(prefixed_each(ts)) by {
        reveal_with_fuel(prefixed_each, 5);
    }
    lemma_prefixed_each(ts);
}

/// Every licence-type identifier of the Hong Kong catalog starts with the
/// identifier of the regulator that grants it, followed by a colon.
pub proof fn lemma_hong_kong_license_types_prefixed()
    ensures
        license_type_ids_prefixed(spec_hong_kong_license_types()),
{
    lemma_sfc_license_types_prefixed();
    lemma_hkma_license_types_prefixed();
    lemma_ia_license_types_prefixed();
    lemma_mpfa_license_types_prefixed();
    lemma_cr_license_types_prefixed();
    lemma_prefixed_append(spec_sfc_license_types(), spec_hkma_license_types());
    lemma_prefixed_append(spec_sfc_license_types() + spec_hkma_license_types(), spec_ia_license_types());
    lemma_prefixed_append(spec_sfc_license_types() + spec_hkma_license_types() + spec_ia_license_types(), spec_mpfa_license_types());
    lemma_prefixed_append(spec_sfc_license_types() + spec_hkma_license_types() + spec_ia_license_types() + spec_mpfa_license_types(), spec_cr_license_types());
    assert(spec_hong_kong_license_types() =~= spec_sfc_license_types() + spec_hkma_license_types() + spec_ia_license_types() + spec_mpfa_license_types() + spec_cr_license_types());
}

} // verus!
