//! # Qatar + QFC Regulatory Authority License Mappings
//!
//! Qatar-specific license type definitions covering the onshore regulators
//! and the Qatar Financial Centre (QFC) free zone:
//!
//! | Authority | Full Name | Domain |
//! |-----------|-----------|--------|
//! | **QCB** | Qatar Central Bank | Banking, Insurance, Payments |
//! | **QFMA** | Qatar Financial Markets Authority | Securities, Investment |
//! | **QFCRA** | QFC Regulatory Authority | Financial Services (QFC) |
//! | **QFC Authority** | QFC Authority (Business Registration) | Corporate (QFC) |
//!
//! Each authority is represented as a [`LicensepackRegulator`] with its
//! associated [`LicenseTypeDefinition`] entries. These definitions provide
//! the Qatar-specific license taxonomy used by the compliance tensor's
//! LICENSING domain evaluation.

use vstd::prelude::*;

use crate::license::{
    license_type, license_type_view, license_types_view, regulator, regulator_view,
    regulators_view, LicenseTypeDefinition, LicenseTypeView, LicensepackRegulator,
    RegulatorView, RequirementValue,
    lemma_license_types_view_append, lemma_regulators_view_append,
};

use crate::catalog::{
    apart_each, id_fresh_each, ids_distinct_each, lemma_apart_each, lemma_ids_apart_append, lemma_ids_distinct_append, lemma_ids_distinct_each, license_type_ids_apart, license_type_ids_distinct, complete_each, every_regulator_grants, granted_by_each, granted_by_listed_regulators, grants_each, grants_some, has_prefix, in_country_each, lemma_complete_append, lemma_complete_each, lemma_every_combine, lemma_granted_by_each, lemma_granted_combine, lemma_grants_each, lemma_in_country_append, lemma_in_country_each, license_types_complete, regulators_in_country,
};

use crate::catalog::{
    lemma_prefixed_append, lemma_prefixed_each, license_type_id_prefixed, license_type_ids_prefixed,
    prefixed_each,
};

verus! {

/// The view of `qcb_regulator`.
pub open spec fn spec_qcb_regulator() -> RegulatorView {
    regulator_view(
        "qa-qcb"@,
        "Qatar Central Bank"@,
        "qa"@,
        Some("https://www.qcb.gov.qa"@),
        seq!["bank_registry"@, "license_status"@],
    )
}

/// QCB regulator profile.
pub fn qcb_regulator() -> (r: LicensepackRegulator)
    ensures
        r@ == spec_qcb_regulator(),
        r@ == regulator_view(
            "qa-qcb"@,
            "Qatar Central Bank"@,
            "qa"@,
            Some("https://www.qcb.gov.qa"@),
            seq!["bank_registry"@, "license_status"@],
        ),
{
    let r =
        regulator(
            "qa-qcb",
            "Qatar Central Bank",
            "qa",
            Some("https://www.qcb.gov.qa"),
            &["bank_registry", "license_status"],
        );
    proof {
        assert(r@ =~~= spec_qcb_regulator());
    }
    r
}

/// The view of `qcb_license_types`.
pub open spec fn spec_qcb_license_types() -> Seq<LicenseTypeView> {
    seq![
        license_type_view(
            "qa-qcb:commercial-bank"@,
            "Commercial Banking License"@,
            "License to operate as a commercial bank in Qatar"@,
            "qa-qcb"@,
            Some("financial"@),
            seq!["deposit_taking"@, "lending"@, "trade_finance"@, "foreign_exchange"@, "payment_services"@],
            seq![],
            seq![],
            seq![],
            None,
        ),
        license_type_view(
            "qa-qcb:islamic-bank"@,
            "Islamic Banking License"@,
            "License to operate as an Islamic bank under Sharia-compliant principles"@,
            "qa-qcb"@,
            Some("financial"@),
            seq!["islamic_deposit_taking"@, "islamic_financing"@, "murabaha"@, "ijara"@, "sukuk"@],
            seq![],
            seq![],
            seq![],
            None,
        ),
        license_type_view(
            "qa-qcb:investment-bank"@,
            "Investment Banking License"@,
            "License to operate as an investment bank in Qatar"@,
            "qa-qcb"@,
            Some("financial"@),
            seq!["underwriting"@, "advisory"@, "capital_markets"@, "proprietary_trading"@],
            seq![],
            seq![],
            seq![],
            None,
        ),
        license_type_view(
            "qa-qcb:specialized-bank"@,
            "Specialized Banking License"@,
            "License to operate a specialized banking institution in Qatar"@,
            "qa-qcb"@,
            Some("financial"@),
            seq!["specialized_lending"@, "development_finance"@],
            seq![],
            seq![],
            seq![],
            None,
        ),
        license_type_view(
            "qa-qcb:insurer"@,
            "Insurance Company License"@,
            "License to operate as an insurance company in Qatar"@,
            "qa-qcb"@,
            Some("insurance"@),
            seq!["general_insurance"@, "life_insurance"@, "underwriting"@],
            seq![],
            seq![],
            seq![],
            Some(1i32),
        ),
        license_type_view(
            "qa-qcb:reinsurer"@,
            "Reinsurance License"@,
            "License to operate as a reinsurer in Qatar"@,
            "qa-qcb"@,
            Some("insurance"@),
            seq!["reinsurance"@, "retrocession"@],
            seq![],
            seq![],
            seq![],
            Some(1i32),
        ),
        license_type_view(
            "qa-qcb:insurance-broker"@,
            "Insurance Broker License"@,
            "License to operate as an insurance broker in Qatar"@,
            "qa-qcb"@,
            Some("insurance"@),
            seq!["insurance_brokerage"@, "risk_advisory"@],
            seq![],
            seq![],
            seq![],
            Some(1i32),
        ),
        license_type_view(
            "qa-qcb:insurance-agent"@,
            "Insurance Agent License"@,
            "License to operate as an insurance agent in Qatar"@,
            "qa-qcb"@,
            Some("insurance"@),
            seq!["insurance_sales"@, "policy_servicing"@],
            seq![],
            seq![],
            seq![],
            Some(1i32),
        ),
        license_type_view(
            "qa-qcb:payment-service-provider"@,
            "Payment Service Provider License"@,
            "License to provide payment services in Qatar"@,
            "qa-qcb"@,
            Some("financial"@),
            seq!["payment_processing"@, "payment_initiation"@, "e_money"@],
            seq![],
            seq![],
            seq![],
            Some(3i32),
        ),
        license_type_view(
            "qa-qcb:money-exchange"@,
            "Money Exchange License"@,
            "License to operate a money exchange business in Qatar"@,
            "qa-qcb"@,
            Some("financial"@),
            seq!["foreign_exchange"@, "remittance"@],
            seq![],
            seq![],
            seq![],
            Some(3i32),
        )
    ]
}

/// QCB license type definitions.
pub fn qcb_license_types() -> (r: Vec<LicenseTypeDefinition>)
    ensures
        license_types_view(r@) == spec_qcb_license_types(),
        license_types_view(r@) == seq![
            license_type_view(
                "qa-qcb:commercial-bank"@,
                "Commercial Banking License"@,
                "License to operate as a commercial bank in Qatar"@,
                "qa-qcb"@,
                Some("financial"@),
                seq!["deposit_taking"@, "lending"@, "trade_finance"@, "foreign_exchange"@, "payment_services"@],
                seq![],
                seq![],
                seq![],
                None,
            ),
            license_type_view(
                "qa-qcb:islamic-bank"@,
                "Islamic Banking License"@,
                "License to operate as an Islamic bank under Sharia-compliant principles"@,
                "qa-qcb"@,
                Some("financial"@),
                seq!["islamic_deposit_taking"@, "islamic_financing"@, "murabaha"@, "ijara"@, "sukuk"@],
                seq![],
                seq![],
                seq![],
                None,
            ),
            license_type_view(
                "qa-qcb:investment-bank"@,
                "Investment Banking License"@,
                "License to operate as an investment bank in Qatar"@,
                "qa-qcb"@,
                Some("financial"@),
                seq!["underwriting"@, "advisory"@, "capital_markets"@, "proprietary_trading"@],
                seq![],
                seq![],
                seq![],
                None,
            ),
            license_type_view(
                "qa-qcb:specialized-bank"@,
                "Specialized Banking License"@,
                "License to operate a specialized banking institution in Qatar"@,
                "qa-qcb"@,
                Some("financial"@),
                seq!["specialized_lending"@, "development_finance"@],
                seq![],
                seq![],
                seq![],
                None,
            ),
            license_type_view(
                "qa-qcb:insurer"@,
                "Insurance Company License"@,
                "License to operate as an insurance company in Qatar"@,
                "qa-qcb"@,
                Some("insurance"@),
                seq!["general_insurance"@, "life_insurance"@, "underwriting"@],
                seq![],
                seq![],
                seq![],
                Some(1i32),
            ),
            license_type_view(
                "qa-qcb:reinsurer"@,
                "Reinsurance License"@,
                "License to operate as a reinsurer in Qatar"@,
                "qa-qcb"@,
                Some("insurance"@),
                seq!["reinsurance"@, "retrocession"@],
                seq![],
                seq![],
                seq![],
                Some(1i32),
            ),
            license_type_view(
                "qa-qcb:insurance-broker"@,
                "Insurance Broker License"@,
                "License to operate as an insurance broker in Qatar"@,
                "qa-qcb"@,
                Some("insurance"@),
                seq!["insurance_brokerage"@, "risk_advisory"@],
                seq![],
                seq![],
                seq![],
                Some(1i32),
            ),
            license_type_view(
                "qa-qcb:insurance-agent"@,
                "Insurance Agent License"@,
                "License to operate as an insurance agent in Qatar"@,
                "qa-qcb"@,
                Some("insurance"@),
                seq!["insurance_sales"@, "policy_servicing"@],
                seq![],
                seq![],
                seq![],
                Some(1i32),
            ),
            license_type_view(
                "qa-qcb:payment-service-provider"@,
                "Payment Service Provider License"@,
                "License to provide payment services in Qatar"@,
                "qa-qcb"@,
                Some("financial"@),
                seq!["payment_processing"@, "payment_initiation"@, "e_money"@],
                seq![],
                seq![],
                seq![],
                Some(3i32),
            ),
            license_type_view(
                "qa-qcb:money-exchange"@,
                "Money Exchange License"@,
                "License to operate a money exchange business in Qatar"@,
                "qa-qcb"@,
                Some("financial"@),
                seq!["foreign_exchange"@, "remittance"@],
                seq![],
                seq![],
                seq![],
                Some(3i32),
            )
        ],
{
    let r = vec![
        license_type(
            "qa-qcb:commercial-bank",
            "Commercial Banking License",
            "License to operate as a commercial bank in Qatar",
            "qa-qcb",
            Some("financial"),
            &["deposit_taking", "lending", "trade_finance", "foreign_exchange", "payment_services"],
            &[],
            &[],
            &[],
            None,
        ),
        license_type(
            "qa-qcb:islamic-bank",
            "Islamic Banking License",
            "License to operate as an Islamic bank under Sharia-compliant principles",
            "qa-qcb",
            Some("financial"),
            &["islamic_deposit_taking", "islamic_financing", "murabaha", "ijara", "sukuk"],
            &[],
            &[],
            &[],
            None,
        ),
        license_type(
            "qa-qcb:investment-bank",
            "Investment Banking License",
            "License to operate as an investment bank in Qatar",
            "qa-qcb",
            Some("financial"),
            &["underwriting", "advisory", "capital_markets", "proprietary_trading"],
            &[],
            &[],
            &[],
            None,
        ),
        license_type(
            "qa-qcb:specialized-bank",
            "Specialized Banking License",
            "License to operate a specialized banking institution in Qatar",
            "qa-qcb",
            Some("financial"),
            &["specialized_lending", "development_finance"],
            &[],
            &[],
            &[],
            None,
        ),
        license_type(
            "qa-qcb:insurer",
            "Insurance Company License",
            "License to operate as an insurance company in Qatar",
            "qa-qcb",
            Some("insurance"),
            &["general_insurance", "life_insurance", "underwriting"],
            &[],
            &[],
            &[],
            Some(1i32),
        ),
        license_type(
            "qa-qcb:reinsurer",
            "Reinsurance License",
            "License to operate as a reinsurer in Qatar",
            "qa-qcb",
            Some("insurance"),
            &["reinsurance", "retrocession"],
            &[],
            &[],
            &[],
            Some(1i32),
        ),
        license_type(
            "qa-qcb:insurance-broker",
            "Insurance Broker License",
            "License to operate as an insurance broker in Qatar",
            "qa-qcb",
            Some("insurance"),
            &["insurance_brokerage", "risk_advisory"],
            &[],
            &[],
            &[],
            Some(1i32),
        ),
        license_type(
            "qa-qcb:insurance-agent",
            "Insurance Agent License",
            "License to operate as an insurance agent in Qatar",
            "qa-qcb",
            Some("insurance"),
            &["insurance_sales", "policy_servicing"],
            &[],
            &[],
            &[],
            Some(1i32),
        ),
        license_type(
            "qa-qcb:payment-service-provider",
            "Payment Service Provider License",
            "License to provide payment services in Qatar",
            "qa-qcb",
            Some("financial"),
            &["payment_processing", "payment_initiation", "e_money"],
            &[],
            &[],
            &[],
            Some(3i32),
        ),
        license_type(
            "qa-qcb:money-exchange",
            "Money Exchange License",
            "License to operate a money exchange business in Qatar",
            "qa-qcb",
            Some("financial"),
            &["foreign_exchange", "remittance"],
            &[],
            &[],
            &[],
            Some(3i32),
        )
    ];
    proof {
        assert(license_types_view(r@) =~~= spec_qcb_license_types());
    }
    r
}

/// The view of `qfma_regulator`.
pub open spec fn spec_qfma_regulator() -> RegulatorView {
    regulator_view(
        "qa-qfma"@,
        "Qatar Financial Markets Authority"@,
        "qa"@,
        Some("https://www.qfma.org.qa"@),
        seq!["license_query"@],
    )
}

/// QFMA regulator profile.
pub fn qfma_regulator() -> (r: LicensepackRegulator)
    ensures
        r@ == spec_qfma_regulator(),
        r@ == regulator_view(
            "qa-qfma"@,
            "Qatar Financial Markets Authority"@,
            "qa"@,
            Some("https://www.qfma.org.qa"@),
            seq!["license_query"@],
        ),
{
    let r =
        regulator(
            "qa-qfma",
            "Qatar Financial Markets Authority",
            "qa",
            Some("https://www.qfma.org.qa"),
            &["license_query"],
        );
    proof {
        assert(r@ =~~= spec_qfma_regulator());
    }
    r
}

/// The view of `qfma_license_types`.
pub open spec fn spec_qfma_license_types() -> Seq<LicenseTypeView> {
    seq![
        license_type_view(
            "qa-qfma:securities-broker"@,
            "Securities Broker License"@,
            "License to operate as a securities broker on the Qatar Stock Exchange"@,
            "qa-qfma"@,
            Some("financial"@),
            seq!["securities_brokerage"@, "order_execution"@, "trading"@],
            seq![],
            seq![],
            seq![],
            Some(3i32),
        ),
        license_type_view(
            "qa-qfma:investment-manager"@,
            "Investment Manager License"@,
            "License to manage investment portfolios in Qatar"@,
            "qa-qfma"@,
            Some("financial"@),
            seq!["portfolio_management"@, "investment_advisory"@, "discretionary_management"@],
            seq![],
            seq![],
            seq![],
            Some(3i32),
        ),
        license_type_view(
            "qa-qfma:fund-administrator"@,
            "Fund Administrator License"@,
            "License to provide fund administration services in Qatar"@,
            "qa-qfma"@,
            Some("financial"@),
            seq!["fund_administration"@, "nav_calculation"@, "investor_services"@],
            seq![],
            seq![],
            seq![],
            Some(3i32),
        ),
        license_type_view(
            "qa-qfma:market-making"@,
            "Market Making License"@,
            "License to operate as a market maker on the Qatar Stock Exchange"@,
            "qa-qfma"@,
            Some("financial"@),
            seq!["market_making"@, "liquidity_provision"@],
            seq![],
            seq![],
            seq![],
            Some(3i32),
        ),
        license_type_view(
            "qa-qfma:custodian"@,
            "Custodian License"@,
            "License to provide custody services for securities in Qatar"@,
            "qa-qfma"@,
            Some("financial"@),
            seq!["custody_services"@, "safekeeping"@, "settlement"@],
            seq![],
            seq![],
            seq![],
            Some(3i32),
        )
    ]
}

/// QFMA license type definitions.
pub fn qfma_license_types() -> (r: Vec<LicenseTypeDefinition>)
    ensures
        license_types_view(r@) == spec_qfma_license_types(),
        license_types_view(r@) == seq![
            license_type_view(
                "qa-qfma:securities-broker"@,
                "Securities Broker License"@,
                "License to operate as a securities broker on the Qatar Stock Exchange"@,
                "qa-qfma"@,
                Some("financial"@),
                seq!["securities_brokerage"@, "order_execution"@, "trading"@],
                seq![],
                seq![],
                seq![],
                Some(3i32),
            ),
            license_type_view(
                "qa-qfma:investment-manager"@,
                "Investment Manager License"@,
                "License to manage investment portfolios in Qatar"@,
                "qa-qfma"@,
                Some("financial"@),
                seq!["portfolio_management"@, "investment_advisory"@, "discretionary_management"@],
                seq![],
                seq![],
                seq![],
                Some(3i32),
            ),
            license_type_view(
                "qa-qfma:fund-administrator"@,
                "Fund Administrator License"@,
                "License to provide fund administration services in Qatar"@,
                "qa-qfma"@,
                Some("financial"@),
                seq!["fund_administration"@, "nav_calculation"@, "investor_services"@],
                seq![],
                seq![],
                seq![],
                Some(3i32),
            ),
            license_type_view(
                "qa-qfma:market-making"@,
                "Market Making License"@,
                "License to operate as a market maker on the Qatar Stock Exchange"@,
                "qa-qfma"@,
                Some("financial"@),
                seq!["market_making"@, "liquidity_provision"@],
                seq![],
                seq![],
                seq![],
                Some(3i32),
            ),
            license_type_view(
                "qa-qfma:custodian"@,
                "Custodian License"@,
                "License to provide custody services for securities in Qatar"@,
                "qa-qfma"@,
                Some("financial"@),
                seq!["custody_services"@, "safekeeping"@, "settlement"@],
                seq![],
                seq![],
                seq![],
                Some(3i32),
            )
        ],
{
    let r = vec![
        license_type(
            "qa-qfma:securities-broker",
            "Securities Broker License",
            "License to operate as a securities broker on the Qatar Stock Exchange",
            "qa-qfma",
            Some("financial"),
            &["securities_brokerage", "order_execution", "trading"],
            &[],
            &[],
            &[],
            Some(3i32),
        ),
        license_type(
            "qa-qfma:investment-manager",
            "Investment Manager License",
            "License to manage investment portfolios in Qatar",
            "qa-qfma",
            Some("financial"),
            &["portfolio_management", "investment_advisory", "discretionary_management"],
            &[],
            &[],
            &[],
            Some(3i32),
        ),
        license_type(
            "qa-qfma:fund-administrator",
            "Fund Administrator License",
            "License to provide fund administration services in Qatar",
            "qa-qfma",
            Some("financial"),
            &["fund_administration", "nav_calculation", "investor_services"],
            &[],
            &[],
            &[],
            Some(3i32),
        ),
        license_type(
            "qa-qfma:market-making",
            "Market Making License",
            "License to operate as a market maker on the Qatar Stock Exchange",
            "qa-qfma",
            Some("financial"),
            &["market_making", "liquidity_provision"],
            &[],
            &[],
            &[],
            Some(3i32),
        ),
        license_type(
            "qa-qfma:custodian",
            "Custodian License",
            "License to provide custody services for securities in Qatar",
            "qa-qfma",
            Some("financial"),
            &["custody_services", "safekeeping", "settlement"],
            &[],
            &[],
            &[],
            Some(3i32),
        )
    ];
    proof {
        assert(license_types_view(r@) =~~= spec_qfma_license_types());
    }
    r
}

/// The view of `qfcra_regulator`.
pub open spec fn spec_qfcra_regulator() -> RegulatorView {
    regulator_view(
        "qa-qfc-ra"@,
        "QFC Regulatory Authority"@,
        "qa-qfc"@,
        Some("https://www.qfcra.com"@),
        seq!["firm_directory"@, "license_status"@],
    )
}

/// QFCRA regulator profile.
pub fn qfcra_regulator() -> (r: LicensepackRegulator)
    ensures
        r@ == spec_qfcra_regulator(),
        r@ == regulator_view(
            "qa-qfc-ra"@,
            "QFC Regulatory Authority"@,
            "qa-qfc"@,
            Some("https://www.qfcra.com"@),
            seq!["firm_directory"@, "license_status"@],
        ),
{
    let r =
        regulator(
            "qa-qfc-ra",
            "QFC Regulatory Authority",
            "qa-qfc",
            Some("https://www.qfcra.com"),
            &["firm_directory", "license_status"],
        );
    proof {
        assert(r@ =~~= spec_qfcra_regulator());
    }
    r
}

/// The view of `qfcra_license_types`.
pub open spec fn spec_qfcra_license_types() -> Seq<LicenseTypeView> {
    seq![
        license_type_view(
            "qa-qfc-ra:banking-business"@,
            "Banking Business License"@,
            "License to conduct banking business within the QFC"@,
            "qa-qfc-ra"@,
            Some("financial"@),
            seq!["deposit_taking"@, "lending"@, "trade_finance"@, "payment_services"@],
            seq![],
            seq![],
            seq![],
            None,
        ),
        license_type_view(
            "qa-qfc-ra:insurance-general"@,
            "General Insurance Business License"@,
            "License to conduct general insurance business within the QFC"@,
            "qa-qfc-ra"@,
            Some("insurance"@),
            seq!["general_insurance"@, "property_insurance"@, "casualty_insurance"@],
            seq![],
            seq![],
            seq![],
            Some(1i32),
        ),
        license_type_view(
            "qa-qfc-ra:insurance-long-term"@,
            "Long-Term Insurance Business License"@,
            "License to conduct long-term (life) insurance business within the QFC"@,
            "qa-qfc-ra"@,
            Some("insurance"@),
            seq!["life_insurance"@, "annuities"@, "pension_products"@],
            seq![],
            seq![],
            seq![],
            Some(1i32),
        ),
        license_type_view(
            "qa-qfc-ra:insurance-mediation"@,
            "Insurance Mediation License"@,
            "License to conduct insurance mediation within the QFC"@,
            "qa-qfc-ra"@,
            Some("insurance"@),
            seq!["insurance_brokerage"@, "insurance_advisory"@],
            seq![],
            seq![],
            seq![],
            Some(1i32),
        ),
        license_type_view(
            "qa-qfc-ra:investment-management"@,
            "Investment Management License"@,
            "License to manage investments within the QFC"@,
            "qa-qfc-ra"@,
            Some("financial"@),
            seq!["portfolio_management"@, "discretionary_management"@, "fund_management"@],
            seq![],
            seq![],
            seq![],
            Some(3i32),
        ),
        license_type_view(
            "qa-qfc-ra:advisory-services"@,
            "Advisory Services License"@,
            "License to provide financial advisory services within the QFC"@,
            "qa-qfc-ra"@,
            Some("financial"@),
            seq!["investment_advisory"@, "financial_planning"@],
            seq![],
            seq![],
            seq![],
            Some(3i32),
        ),
        license_type_view(
            "qa-qfc-ra:fund-administration"@,
            "Fund Administration License"@,
            "License to provide fund administration services within the QFC"@,
            "qa-qfc-ra"@,
            Some("financial"@),
            seq!["fund_administration"@, "nav_calculation"@, "transfer_agency"@],
            seq![],
            seq![],
            seq![],
            Some(3i32),
        ),
        license_type_view(
            "qa-qfc-ra:trust-services"@,
            "Trust Services License"@,
            "License to provide trust services within the QFC"@,
            "qa-qfc-ra"@,
            Some("financial"@),
            seq!["trust_administration"@, "fiduciary_services"@],
            seq![],
            seq![],
            seq![],
            Some(3i32),
        ),
        license_type_view(
            "qa-qfc-ra:money-transmission"@,
            "Money Transmission License"@,
            "License to provide money transmission services within the QFC"@,
            "qa-qfc-ra"@,
            Some("financial"@),
            seq!["money_transmission"@, "remittance"@, "payment_services"@],
            seq![],
            seq![],
            seq![],
            Some(3i32),
        ),
        license_type_view(
            "qa-qfc-ra:digital-asset-services"@,
            "Digital Asset Services License"@,
            "License to provide digital asset services within the QFC"@,
            "qa-qfc-ra"@,
            Some("financial"@),
            seq!["digital_asset_exchange"@, "digital_asset_custody"@, "digital_asset_advisory"@],
            seq![],
            seq![],
            seq![],
            Some(3i32),
        ),
        license_type_view(
            "qa-qfc-ra:credit-rating-agency"@,
            "Credit Rating Agency License"@,
            "License to operate as a credit rating agency within the QFC"@,
            "qa-qfc-ra"@,
            Some("financial"@),
            seq!["credit_rating"@, "rating_advisory"@],
            seq![],
            seq![],
            seq![],
            Some(3i32),
        )
    ]
}

/// QFCRA license type definitions.
pub fn qfcra_license_types() -> (r: Vec<LicenseTypeDefinition>)
    ensures
        license_types_view(r@) == spec_qfcra_license_types(),
        license_types_view(r@) == seq![
            license_type_view(
                "qa-qfc-ra:banking-business"@,
                "Banking Business License"@,
                "License to conduct banking business within the QFC"@,
                "qa-qfc-ra"@,
                Some("financial"@),
                seq!["deposit_taking"@, "lending"@, "trade_finance"@, "payment_services"@],
                seq![],
                seq![],
                seq![],
                None,
            ),
            license_type_view(
                "qa-qfc-ra:insurance-general"@,
                "General Insurance Business License"@,
                "License to conduct general insurance business within the QFC"@,
                "qa-qfc-ra"@,
                Some("insurance"@),
                seq!["general_insurance"@, "property_insurance"@, "casualty_insurance"@],
                seq![],
                seq![],
                seq![],
                Some(1i32),
            ),
            license_type_view(
                "qa-qfc-ra:insurance-long-term"@,
                "Long-Term Insurance Business License"@,
                "License to conduct long-term (life) insurance business within the QFC"@,
                "qa-qfc-ra"@,
                Some("insurance"@),
                seq!["life_insurance"@, "annuities"@, "pension_products"@],
                seq![],
                seq![],
                seq![],
                Some(1i32),
            ),
            license_type_view(
                "qa-qfc-ra:insurance-mediation"@,
                "Insurance Mediation License"@,
                "License to conduct insurance mediation within the QFC"@,
                "qa-qfc-ra"@,
                Some("insurance"@),
                seq!["insurance_brokerage"@, "insurance_advisory"@],
                seq![],
                seq![],
                seq![],
                Some(1i32),
            ),
            license_type_view(
                "qa-qfc-ra:investment-management"@,
                "Investment Management License"@,
                "License to manage investments within the QFC"@,
                "qa-qfc-ra"@,
                Some("financial"@),
                seq!["portfolio_management"@, "discretionary_management"@, "fund_management"@],
                seq![],
                seq![],
                seq![],
                Some(3i32),
            ),
            license_type_view(
                "qa-qfc-ra:advisory-services"@,
                "Advisory Services License"@,
                "License to provide financial advisory services within the QFC"@,
                "qa-qfc-ra"@,
                Some("financial"@),
                seq!["investment_advisory"@, "financial_planning"@],
                seq![],
                seq![],
                seq![],
                Some(3i32),
            ),
            license_type_view(
                "qa-qfc-ra:fund-administration"@,
                "Fund Administration License"@,
                "License to provide fund administration services within the QFC"@,
                "qa-qfc-ra"@,
                Some("financial"@),
                seq!["fund_administration"@, "nav_calculation"@, "transfer_agency"@],
                seq![],
                seq![],
                seq![],
                Some(3i32),
            ),
            license_type_view(
                "qa-qfc-ra:trust-services"@,
                "Trust Services License"@,
                "License to provide trust services within the QFC"@,
                "qa-qfc-ra"@,
                Some("financial"@),
                seq!["trust_administration"@, "fiduciary_services"@],
                seq![],
                seq![],
                seq![],
                Some(3i32),
            ),
            license_type_view(
                "qa-qfc-ra:money-transmission"@,
                "Money Transmission License"@,
                "License to provide money transmission services within the QFC"@,
                "qa-qfc-ra"@,
                Some("financial"@),
                seq!["money_transmission"@, "remittance"@, "payment_services"@],
                seq![],
                seq![],
                seq![],
                Some(3i32),
            ),
            license_type_view(
                "qa-qfc-ra:digital-asset-services"@,
                "Digital Asset Services License"@,
                "License to provide digital asset services within the QFC"@,
                "qa-qfc-ra"@,
                Some("financial"@),
                seq!["digital_asset_exchange"@, "digital_asset_custody"@, "digital_asset_advisory"@],
                seq![],
                seq![],
                seq![],
                Some(3i32),
            ),
            license_type_view(
                "qa-qfc-ra:credit-rating-agency"@,
                "Credit Rating Agency License"@,
                "License to operate as a credit rating agency within the QFC"@,
                "qa-qfc-ra"@,
                Some("financial"@),
                seq!["credit_rating"@, "rating_advisory"@],
                seq![],
                seq![],
                seq![],
                Some(3i32),
            )
        ],
{
    let r = vec![
        license_type(
            "qa-qfc-ra:banking-business",
            "Banking Business License",
            "License to conduct banking business within the QFC",
            "qa-qfc-ra",
            Some("financial"),
            &["deposit_taking", "lending", "trade_finance", "payment_services"],
            &[],
            &[],
            &[],
            None,
        ),
        license_type(
            "qa-qfc-ra:insurance-general",
            "General Insurance Business License",
            "License to conduct general insurance business within the QFC",
            "qa-qfc-ra",
            Some("insurance"),
            &["general_insurance", "property_insurance", "casualty_insurance"],
            &[],
            &[],
            &[],
            Some(1i32),
        ),
        license_type(
            "qa-qfc-ra:insurance-long-term",
            "Long-Term Insurance Business License",
            "License to conduct long-term (life) insurance business within the QFC",
            "qa-qfc-ra",
            Some("insurance"),
            &["life_insurance", "annuities", "pension_products"],
            &[],
            &[],
            &[],
            Some(1i32),
        ),
        license_type(
            "qa-qfc-ra:insurance-mediation",
            "Insurance Mediation License",
            "License to conduct insurance mediation within the QFC",
            "qa-qfc-ra",
            Some("insurance"),
            &["insurance_brokerage", "insurance_advisory"],
            &[],
            &[],
            &[],
            Some(1i32),
        ),
        license_type(
            "qa-qfc-ra:investment-management",
            "Investment Management License",
            "License to manage investments within the QFC",
            "qa-qfc-ra",
            Some("financial"),
            &["portfolio_management", "discretionary_management", "fund_management"],
            &[],
            &[],
            &[],
            Some(3i32),
        ),
        license_type(
            "qa-qfc-ra:advisory-services",
            "Advisory Services License",
            "License to provide financial advisory services within the QFC",
            "qa-qfc-ra",
            Some("financial"),
            &["investment_advisory", "financial_planning"],
            &[],
            &[],
            &[],
            Some(3i32),
        ),
        license_type(
            "qa-qfc-ra:fund-administration",
            "Fund Administration License",
            "License to provide fund administration services within the QFC",
            "qa-qfc-ra",
            Some("financial"),
            &["fund_administration", "nav_calculation", "transfer_agency"],
            &[],
            &[],
            &[],
            Some(3i32),
        ),
        license_type(
            "qa-qfc-ra:trust-services",
            "Trust Services License",
            "License to provide trust services within the QFC",
            "qa-qfc-ra",
            Some("financial"),
            &["trust_administration", "fiduciary_services"],
            &[],
            &[],
            &[],
            Some(3i32),
        ),
        license_type(
            "qa-qfc-ra:money-transmission",
            "Money Transmission License",
            "License to provide money transmission services within the QFC",
            "qa-qfc-ra",
            Some("financial"),
            &["money_transmission", "remittance", "payment_services"],
            &[],
            &[],
            &[],
            Some(3i32),
        ),
        license_type(
            "qa-qfc-ra:digital-asset-services",
            "Digital Asset Services License",
            "License to provide digital asset services within the QFC",
            "qa-qfc-ra",
            Some("financial"),
            &["digital_asset_exchange", "digital_asset_custody", "digital_asset_advisory"],
            &[],
            &[],
            &[],
            Some(3i32),
        ),
        license_type(
            "qa-qfc-ra:credit-rating-agency",
            "Credit Rating Agency License",
            "License to operate as a credit rating agency within the QFC",
            "qa-qfc-ra",
            Some("financial"),
            &["credit_rating", "rating_advisory"],
            &[],
            &[],
            &[],
            Some(3i32),
        )
    ];
    proof {
        assert(license_types_view(r@) =~~= spec_qfcra_license_types());
    }
    r
}

/// The view of `qfc_auth_regulator`.
pub open spec fn spec_qfc_auth_regulator() -> RegulatorView {
    regulator_view(
        "qa-qfc-auth"@,
        "QFC Authority (Business Registration)"@,
        "qa-qfc"@,
        Some("https://www.qfc.qa"@),
        seq!["company_search"@, "registration_status"@],
    )
}

/// QFC Authority (Business Registration) regulator profile.
pub fn qfc_auth_regulator() -> (r: LicensepackRegulator)
    ensures
        r@ == spec_qfc_auth_regulator(),
        r@ == regulator_view(
            "qa-qfc-auth"@,
            "QFC Authority (Business Registration)"@,
            "qa-qfc"@,
            Some("https://www.qfc.qa"@),
            seq!["company_search"@, "registration_status"@],
        ),
{
    let r =
        regulator(
            "qa-qfc-auth",
            "QFC Authority (Business Registration)",
            "qa-qfc",
            Some("https://www.qfc.qa"),
            &["company_search", "registration_status"],
        );
    proof {
        assert(r@ =~~= spec_qfc_auth_regulator());
    }
    r
}

/// The view of `qfc_auth_license_types`.
pub open spec fn spec_qfc_auth_license_types() -> Seq<LicenseTypeView> {
    seq![
        license_type_view(
            "qa-qfc-auth:qfc-company"@,
            "QFC Company Registration"@,
            "Registration of a company within the Qatar Financial Centre"@,
            "qa-qfc-auth"@,
            Some("corporate"@),
            seq!["business_operations"@, "financial_services"@],
            seq![],
            seq![],
            seq![],
            None,
        ),
        license_type_view(
            "qa-qfc-auth:qfc-llc"@,
            "QFC LLC Registration"@,
            "Registration of a limited liability company within the QFC"@,
            "qa-qfc-auth"@,
            Some("corporate"@),
            seq!["business_operations"@, "professional_services"@],
            seq![],
            seq![],
            seq![],
            None,
        ),
        license_type_view(
            "qa-qfc-auth:qfc-branch"@,
            "QFC Branch Registration"@,
            "Registration of a foreign company branch within the QFC"@,
            "qa-qfc-auth"@,
            Some("corporate"@),
            seq!["branch_operations"@, "representative_office"@],
            seq![],
            seq![],
            seq![],
            None,
        ),
        license_type_view(
            "qa-qfc-auth:qfc-partnership"@,
            "QFC Partnership Registration"@,
            "Registration of a partnership within the QFC"@,
            "qa-qfc-auth"@,
            Some("corporate"@),
            seq!["partnership_operations"@, "professional_services"@],
            seq![],
            seq![],
            seq![],
            None,
        ),
        license_type_view(
            "qa-qfc-auth:qfc-spv"@,
            "QFC SPV Registration"@,
            "Registration of a special purpose vehicle within the QFC"@,
            "qa-qfc-auth"@,
            Some("corporate"@),
            seq!["securitization"@, "asset_holding"@],
            seq![],
            seq![],
            seq![],
            None,
        ),
        license_type_view(
            "qa-qfc-auth:qfc-foundation"@,
            "QFC Foundation Registration"@,
            "Registration of a foundation within the QFC"@,
            "qa-qfc-auth"@,
            Some("corporate"@),
            seq!["asset_holding"@, "wealth_preservation"@],
            seq![],
            seq![],
            seq![],
            None,
        )
    ]
}

/// QFC Authority license type definitions.
pub fn qfc_auth_license_types() -> (r: Vec<LicenseTypeDefinition>)
    ensures
        license_types_view(r@) == spec_qfc_auth_license_types(),
        license_types_view(r@) == seq![
            license_type_view(
                "qa-qfc-auth:qfc-company"@,
                "QFC Company Registration"@,
                "Registration of a company within the Qatar Financial Centre"@,
                "qa-qfc-auth"@,
                Some("corporate"@),
                seq!["business_operations"@, "financial_services"@],
                seq![],
                seq![],
                seq![],
                None,
            ),
            license_type_view(
                "qa-qfc-auth:qfc-llc"@,
                "QFC LLC Registration"@,
                "Registration of a limited liability company within the QFC"@,
                "qa-qfc-auth"@,
                Some("corporate"@),
                seq!["business_operations"@, "professional_services"@],
                seq![],
                seq![],
                seq![],
                None,
            ),
            license_type_view(
                "qa-qfc-auth:qfc-branch"@,
                "QFC Branch Registration"@,
                "Registration of a foreign company branch within the QFC"@,
                "qa-qfc-auth"@,
                Some("corporate"@),
                seq!["branch_operations"@, "representative_office"@],
                seq![],
                seq![],
                seq![],
                None,
            ),
            license_type_view(
                "qa-qfc-auth:qfc-partnership"@,
                "QFC Partnership Registration"@,
                "Registration of a partnership within the QFC"@,
                "qa-qfc-auth"@,
                Some("corporate"@),
                seq!["partnership_operations"@, "professional_services"@],
                seq![],
                seq![],
                seq![],
                None,
            ),
            license_type_view(
                "qa-qfc-auth:qfc-spv"@,
                "QFC SPV Registration"@,
                "Registration of a special purpose vehicle within the QFC"@,
                "qa-qfc-auth"@,
                Some("corporate"@),
                seq!["securitization"@, "asset_holding"@],
                seq![],
                seq![],
                seq![],
                None,
            ),
            license_type_view(
                "qa-qfc-auth:qfc-foundation"@,
                "QFC Foundation Registration"@,
                "Registration of a foundation within the QFC"@,
                "qa-qfc-auth"@,
                Some("corporate"@),
                seq!["asset_holding"@, "wealth_preservation"@],
                seq![],
                seq![],
                seq![],
                None,
            )
        ],
{
    let r = vec![
        license_type(
            "qa-qfc-auth:qfc-company",
            "QFC Company Registration",
            "Registration of a company within the Qatar Financial Centre",
            "qa-qfc-auth",
            Some("corporate"),
            &["business_operations", "financial_services"],
            &[],
            &[],
            &[],
            None,
        ),
        license_type(
            "qa-qfc-auth:qfc-llc",
            "QFC LLC Registration",
            "Registration of a limited liability company within the QFC",
            "qa-qfc-auth",
            Some("corporate"),
            &["business_operations", "professional_services"],
            &[],
            &[],
            &[],
            None,
        ),
        license_type(
            "qa-qfc-auth:qfc-branch",
            "QFC Branch Registration",
            "Registration of a foreign company branch within the QFC",
            "qa-qfc-auth",
            Some("corporate"),
            &["branch_operations", "representative_office"],
            &[],
            &[],
            &[],
            None,
        ),
        license_type(
            "qa-qfc-auth:qfc-partnership",
            "QFC Partnership Registration",
            "Registration of a partnership within the QFC",
            "qa-qfc-auth",
            Some("corporate"),
            &["partnership_operations", "professional_services"],
            &[],
            &[],
            &[],
            None,
        ),
        license_type(
            "qa-qfc-auth:qfc-spv",
            "QFC SPV Registration",
            "Registration of a special purpose vehicle within the QFC",
            "qa-qfc-auth",
            Some("corporate"),
            &["securitization", "asset_holding"],
            &[],
            &[],
            &[],
            None,
        ),
        license_type(
            "qa-qfc-auth:qfc-foundation",
            "QFC Foundation Registration",
            "Registration of a foundation within the QFC",
            "qa-qfc-auth",
            Some("corporate"),
            &["asset_holding", "wealth_preservation"],
            &[],
            &[],
            &[],
            None,
        )
    ];
    proof {
        assert(license_types_view(r@) =~~= spec_qfc_auth_license_types());
    }
    r
}

/// The view of `qatar_regulators`.
pub open spec fn spec_qatar_regulators() -> Seq<RegulatorView> {
    seq![spec_qcb_regulator(), spec_qfma_regulator(), spec_qfcra_regulator(), spec_qfc_auth_regulator()]
}

/// All Qatar and QFC regulatory authorities.
pub fn qatar_regulators() -> (r: Vec<LicensepackRegulator>)
    ensures
        regulators_view(r@) == spec_qatar_regulators(),
        regulators_view(r@) == seq![spec_qcb_regulator(), spec_qfma_regulator(), spec_qfcra_regulator(), spec_qfc_auth_regulator()],
{
    let r = vec![qcb_regulator(), qfma_regulator(), qfcra_regulator(), qfc_auth_regulator()];
    proof {
        assert(regulators_view(r@) =~~= spec_qatar_regulators());
    }
    r
}

/// The view of `qatar_license_types`.
pub open spec fn spec_qatar_license_types() -> Seq<LicenseTypeView> {
    spec_qcb_license_types()
        + spec_qfma_license_types()
        + spec_qfcra_license_types()
        + spec_qfc_auth_license_types()
}

/// All Qatar and QFC license type definitions across all authorities.
pub fn qatar_license_types() -> (r: Vec<LicenseTypeDefinition>)
    ensures
        license_types_view(r@) == spec_qatar_license_types(),
        license_types_view(r@) == spec_qcb_license_types()
            + spec_qfma_license_types()
            + spec_qfcra_license_types()
            + spec_qfc_auth_license_types(),
{
    let mut all: Vec<LicenseTypeDefinition> = Vec::new();
    proof {
        assert(license_types_view(all@) =~= Seq::<LicenseTypeView>::empty());
    }
    let ghost before = all@;
    let mut part = qcb_license_types();
    let ghost added = part@;
    all.append(&mut part);
    proof {
        lemma_license_types_view_append(before, added);
        assert(license_types_view(all@) =~= spec_qcb_license_types());
    }
    let ghost before = all@;
    let mut part = qfma_license_types();
    let ghost added = part@;
    all.append(&mut part);
    proof {
        lemma_license_types_view_append(before, added);
        assert(license_types_view(all@) =~= spec_qcb_license_types() + spec_qfma_license_types());
    }
    let ghost before = all@;
    let mut part = qfcra_license_types();
    let ghost added = part@;
    all.append(&mut part);
    proof {
        lemma_license_types_view_append(before, added);
        assert(license_types_view(all@) =~= spec_qcb_license_types() + spec_qfma_license_types() + spec_qfcra_license_types());
    }
    let ghost before = all@;
    let mut part = qfc_auth_license_types();
    let ghost added = part@;
    all.append(&mut part);
    proof {
        lemma_license_types_view_append(before, added);
        assert(license_types_view(all@) =~= spec_qcb_license_types() + spec_qfma_license_types() + spec_qfcra_license_types() + spec_qfc_auth_license_types());
    }
    all
}

/// The licence types of `qcb_license_types` are complete, granted by its regulators, and
/// each of its regulators grants at least one of them.
proof fn lemma_qcb_group()
    ensures
        license_types_complete(spec_qcb_license_types()),
        granted_by_listed_regulators(spec_qcb_license_types(), seq![spec_qcb_regulator()]),
        every_regulator_grants(spec_qcb_license_types(), seq![spec_qcb_regulator()]),
        regulators_in_country(seq![spec_qcb_regulator()], "qa"@),
{
    assert(complete_each(spec_qcb_license_types())) by {
        reveal_strlit("qa-qcb:commercial-bank");
        reveal_strlit("Commercial Banking License");
        reveal_strlit("License to operate as a commercial bank in Qatar");
        reveal_strlit("qa-qcb");
        reveal_strlit("qa-qcb:islamic-bank");
        reveal_strlit("Islamic Banking License");
        reveal_strlit("License to operate as an Islamic bank under Sharia-compliant principles");
        reveal_strlit("qa-qcb:investment-bank");
        reveal_strlit("Investment Banking License");
        reveal_strlit("License to operate as an investment bank in Qatar");
        reveal_strlit("qa-qcb:specialized-bank");
        reveal_strlit("Specialized Banking License");
        reveal_strlit("License to operate a specialized banking institution in Qatar");
        reveal_strlit("qa-qcb:insurer");
        reveal_strlit("Insurance Company License");
        reveal_strlit("License to operate as an insurance company in Qatar");
        reveal_strlit("qa-qcb:reinsurer");
        reveal_strlit("Reinsurance License");
        reveal_strlit("License to operate as a reinsurer in Qatar");
        reveal_strlit("qa-qcb:insurance-broker");
        reveal_strlit("Insurance Broker License");
        reveal_strlit("License to operate as an insurance broker in Qatar");
        reveal_strlit("qa-qcb:insurance-agent");
        reveal_strlit("Insurance Agent License");
        reveal_strlit("License to operate as an insurance agent in Qatar");
        reveal_strlit("qa-qcb:payment-service-provider");
        reveal_strlit("Payment Service Provider License");
        reveal_strlit("License to provide payment services in Qatar");
        reveal_strlit("qa-qcb:money-exchange");
        reveal_strlit("Money Exchange License");
        reveal_strlit("License to operate a money exchange business in Qatar");
        reveal_with_fuel(complete_each, 11);
    }
    lemma_complete_each(spec_qcb_license_types());
    assert(granted_by_each(spec_qcb_license_types(), seq![spec_qcb_regulator()][0].regulator_id)) by {
        reveal_with_fuel(granted_by_each, 11);
    }
    lemma_granted_by_each(spec_qcb_license_types(), seq![spec_qcb_regulator()], 0);
    assert(grants_some(spec_qcb_license_types(), seq![spec_qcb_regulator()][0].regulator_id)) by {
        assert(spec_qcb_license_types()[0].regulator_id == seq![spec_qcb_regulator()][0].regulator_id);
    }
    assert(grants_each(spec_qcb_license_types(), seq![spec_qcb_regulator()])) by {
        reveal_with_fuel(grants_each, 2);
    }
    lemma_grants_each(spec_qcb_license_types(), seq![spec_qcb_regulator()]);
    assert(has_prefix("qa"@, "qa"@)) by {
        reveal_strlit("qa");
        reveal_strlit("qa");
        assert("qa"@.subrange(0, 2) =~= "qa"@);
    }
    assert(in_country_each(seq![spec_qcb_regulator()], "qa"@)) by {
        reveal_with_fuel(in_country_each, 2);
    }
    lemma_in_country_each(seq![spec_qcb_regulator()], "qa"@);
}

/// The licence types of `qfma_license_types` are complete, granted by its regulators, and
/// each of its regulators grants at least one of them.
proof fn lemma_qfma_group()
    ensures
        license_types_complete(spec_qfma_license_types()),
        granted_by_listed_regulators(spec_qfma_license_types(), seq![spec_qfma_regulator()]),
        every_regulator_grants(spec_qfma_license_types(), seq![spec_qfma_regulator()]),
        regulators_in_country(seq![spec_qfma_regulator()], "qa"@),
{
    assert(complete_each(spec_qfma_license_types())) by {
        reveal_strlit("qa-qfma:securities-broker");
        reveal_strlit("Securities Broker License");
        reveal_strlit("License to operate as a securities broker on the Qatar Stock Exchange");
        reveal_strlit("qa-qfma");
        reveal_strlit("qa-qfma:investment-manager");
        reveal_strlit("Investment Manager License");
        reveal_strlit("License to manage investment portfolios in Qatar");
        reveal_strlit("qa-qfma:fund-administrator");
        reveal_strlit("Fund Administrator License");
        reveal_strlit("License to provide fund administration services in Qatar");
        reveal_strlit("qa-qfma:market-making");
        reveal_strlit("Market Making License");
        reveal_strlit("License to operate as a market maker on the Qatar Stock Exchange");
        reveal_strlit("qa-qfma:custodian");
        reveal_strlit("Custodian License");
        reveal_strlit("License to provide custody services for securities in Qatar");
        reveal_with_fuel(complete_each, 6);
    }
    lemma_complete_each(spec_qfma_license_types());
    assert(granted_by_each(spec_qfma_license_types(), seq![spec_qfma_regulator()][0].regulator_id)) by {
        reveal_with_fuel(granted_by_each, 6);
    }
    lemma_granted_by_each(spec_qfma_license_types(), seq![spec_qfma_regulator()], 0);
    assert(grants_some(spec_qfma_license_types(), seq![spec_qfma_regulator()][0].regulator_id)) by {
        assert(spec_qfma_license_types()[0].regulator_id == seq![spec_qfma_regulator()][0].regulator_id);
    }
    assert(grants_each(spec_qfma_license_types(), seq![spec_qfma_regulator()])) by {
        reveal_with_fuel(grants_each, 2);
    }
    lemma_grants_each(spec_qfma_license_types(), seq![spec_qfma_regulator()]);
    assert(has_prefix("qa"@, "qa"@)) by {
        reveal_strlit("qa");
        reveal_strlit("qa");
        assert("qa"@.subrange(0, 2) =~= "qa"@);
    }
    assert(in_country_each(seq![spec_qfma_regulator()], "qa"@)) by {
        reveal_with_fuel(in_country_each, 2);
    }
    lemma_in_country_each(seq![spec_qfma_regulator()], "qa"@);
}

/// The licence types of `qfcra_license_types` are complete, granted by its regulators, and
/// each of its regulators grants at least one of them.
proof fn lemma_qfcra_group()
    ensures
        license_types_complete(spec_qfcra_license_types()),
        granted_by_listed_regulators(spec_qfcra_license_types(), seq![spec_qfcra_regulator()]),
        every_regulator_grants(spec_qfcra_license_types(), seq![spec_qfcra_regulator()]),
        regulators_in_country(seq![spec_qfcra_regulator()], "qa"@),
{
    assert(complete_each(spec_qfcra_license_types())) by {
        reveal_strlit("qa-qfc-ra:banking-business");
        reveal_strlit("Banking Business License");
        reveal_strlit("License to conduct banking business within the QFC");
        reveal_strlit("qa-qfc-ra");
        reveal_strlit("qa-qfc-ra:insurance-general");
        reveal_strlit("General Insurance Business License");
        reveal_strlit("License to conduct general insurance business within the QFC");
        reveal_strlit("qa-qfc-ra:insurance-long-term");
        reveal_strlit("Long-Term Insurance Business License");
        reveal_strlit("License to conduct long-term (life) insurance business within the QFC");
        reveal_strlit("qa-qfc-ra:insurance-mediation");
        reveal_strlit("Insurance Mediation License");
        reveal_strlit("License to conduct insurance mediation within the QFC");
        reveal_strlit("qa-qfc-ra:investment-management");
        reveal_strlit("Investment Management License");
        reveal_strlit("License to manage investments within the QFC");
        reveal_strlit("qa-qfc-ra:advisory-services");
        reveal_strlit("Advisory Services License");
        reveal_strlit("License to provide financial advisory services within the QFC");
        reveal_strlit("qa-qfc-ra:fund-administration");
        reveal_strlit("Fund Administration License");
        reveal_strlit("License to provide fund administration services within the QFC");
        reveal_strlit("qa-qfc-ra:trust-services");
        reveal_strlit("Trust Services License");
        reveal_strlit("License to provide trust services within the QFC");
        reveal_strlit("qa-qfc-ra:money-transmission");
        reveal_strlit("Money Transmission License");
        reveal_strlit("License to provide money transmission services within the QFC");
        reveal_strlit("qa-qfc-ra:digital-asset-services");
        reveal_strlit("Digital Asset Services License");
        reveal_strlit("License to provide digital asset services within the QFC");
        reveal_strlit("qa-qfc-ra:credit-rating-agency");
        reveal_strlit("Credit Rating Agency License");
        reveal_strlit("License to operate as a credit rating agency within the QFC");
        reveal_with_fuel(complete_each, 12);
    }
    lemma_complete_each(spec_qfcra_license_types());
    assert(granted_by_each(spec_qfcra_license_types(), seq![spec_qfcra_regulator()][0].regulator_id)) by {
        reveal_with_fuel(granted_by_each, 12);
    }
    lemma_granted_by_each(spec_qfcra_license_types(), seq![spec_qfcra_regulator()], 0);
    assert(grants_some(spec_qfcra_license_types(), seq![spec_qfcra_regulator()][0].regulator_id)) by {
        assert(spec_qfcra_license_types()[0].regulator_id == seq![spec_qfcra_regulator()][0].regulator_id);
    }
    assert(grants_each(spec_qfcra_license_types(), seq![spec_qfcra_regulator()])) by {
        reveal_with_fuel(grants_each, 2);
    }
    lemma_grants_each(spec_qfcra_license_types(), seq![spec_qfcra_regulator()]);
    assert(has_prefix("qa-qfc"@, "qa"@)) by {
        reveal_strlit("qa-qfc");
        reveal_strlit("qa");
        assert("qa-qfc"@.subrange(0, 2) =~= "qa"@);
    }
    assert(in_country_each(seq![spec_qfcra_regulator()], "qa"@)) by {
        reveal_with_fuel(in_country_each, 2);
    }
    lemma_in_country_each(seq![spec_qfcra_regulator()], "qa"@);
}

/// The licence types of `qfc_auth_license_types` are complete, granted by its regulators, and
/// each of its regulators grants at least one of them.
proof fn lemma_qfc_auth_group()
    ensures
        license_types_complete(spec_qfc_auth_license_types()),
        granted_by_listed_regulators(spec_qfc_auth_license_types(), seq![spec_qfc_auth_regulator()]),
        every_regulator_grants(spec_qfc_auth_license_types(), seq![spec_qfc_auth_regulator()]),
        regulators_in_country(seq![spec_qfc_auth_regulator()], "qa"@),
{
    assert(complete_each(spec_qfc_auth_license_types())) by {
        reveal_strlit("qa-qfc-auth:qfc-company");
        reveal_strlit("QFC Company Registration");
        reveal_strlit("Registration of a company within the Qatar Financial Centre");
        reveal_strlit("qa-qfc-auth");
        reveal_strlit("qa-qfc-auth:qfc-llc");
        reveal_strlit("QFC LLC Registration");
        reveal_strlit("Registration of a limited liability company within the QFC");
        reveal_strlit("qa-qfc-auth:qfc-branch");
        reveal_strlit("QFC Branch Registration");
        reveal_strlit("Registration of a foreign company branch within the QFC");
        reveal_strlit("qa-qfc-auth:qfc-partnership");
        reveal_strlit("QFC Partnership Registration");
        reveal_strlit("Registration of a partnership within the QFC");
        reveal_strlit("qa-qfc-auth:qfc-spv");
        reveal_strlit("QFC SPV Registration");
        reveal_strlit("Registration of a special purpose vehicle within the QFC");
        reveal_strlit("qa-qfc-auth:qfc-foundation");
        reveal_strlit("QFC Foundation Registration");
        reveal_strlit("Registration of a foundation within the QFC");
        reveal_with_fuel(complete_each, 7);
    }
    lemma_complete_each(spec_qfc_auth_license_types());
    assert(granted_by_each(spec_qfc_auth_license_types(), seq![spec_qfc_auth_regulator()][0].regulator_id)) by {
        reveal_with_fuel(granted_by_each, 7);
    }
    lemma_granted_by_each(spec_qfc_auth_license_types(), seq![spec_qfc_auth_regulator()], 0);
    assert(grants_some(spec_qfc_auth_license_types(), seq![spec_qfc_auth_regulator()][0].regulator_id)) by {
        assert(spec_qfc_auth_license_types()[0].regulator_id == seq![spec_qfc_auth_regulator()][0].regulator_id);
    }
    assert(grants_each(spec_qfc_auth_license_types(), seq![spec_qfc_auth_regulator()])) by {
        reveal_with_fuel(grants_each, 2);
    }
    lemma_grants_each(spec_qfc_auth_license_types(), seq![spec_qfc_auth_regulator()]);
    assert(has_prefix("qa-qfc"@, "qa"@)) by {
        reveal_strlit("qa-qfc");
        reveal_strlit("qa");
        assert("qa-qfc"@.subrange(0, 2) =~= "qa"@);
    }
    assert(in_country_each(seq![spec_qfc_auth_regulator()], "qa"@)) by {
        reveal_with_fuel(in_country_each, 2);
    }
    lemma_in_country_each(seq![spec_qfc_auth_regulator()], "qa"@);
}

/// The catalog of Qatar is consistent: every licence type has a non-empty identifier, name, description and
/// regulator identifier, a category, and at least one permitted activity;
/// every licence type is granted by one of its regulators;
/// every regulator grants at least one licence type;
/// every regulator belongs to a jurisdiction whose identifier starts with `qa`.
pub proof fn lemma_qatar_catalog_consistent()
    ensures
        license_types_complete(spec_qatar_license_types()),
        granted_by_listed_regulators(spec_qatar_license_types(), spec_qatar_regulators()),
        every_regulator_grants(spec_qatar_license_types(), spec_qatar_regulators()),
        regulators_in_country(spec_qatar_regulators(), "qa"@),
{
    lemma_qcb_group();
    lemma_qfma_group();
    lemma_qfcra_group();
    lemma_qfc_auth_group();
    assert(spec_qatar_regulators() =~= seq![spec_qcb_regulator()] + seq![spec_qfma_regulator()] + seq![spec_qfcra_regulator()] + seq![spec_qfc_auth_regulator()]);
    assert(spec_qatar_license_types() =~= spec_qcb_license_types() + spec_qfma_license_types() + spec_qfcra_license_types() + spec_qfc_auth_license_types());
    lemma_complete_append(spec_qcb_license_types(), spec_qfma_license_types());
    lemma_granted_combine(spec_qcb_license_types(), seq![spec_qcb_regulator()], spec_qfma_license_types(), seq![spec_qfma_regulator()]);
    lemma_every_combine(spec_qcb_license_types(), seq![spec_qcb_regulator()], spec_qfma_license_types(), seq![spec_qfma_regulator()]);
    lemma_in_country_append(seq![spec_qcb_regulator()], seq![spec_qfma_regulator()], "qa"@);
    lemma_complete_append(spec_qcb_license_types() + spec_qfma_license_types(), spec_qfcra_license_types());
    lemma_granted_combine(spec_qcb_license_types() + spec_qfma_license_types(), seq![spec_qcb_regulator()] + seq![spec_qfma_regulator()], spec_qfcra_license_types(), seq![spec_qfcra_regulator()]);
    lemma_every_combine(spec_qcb_license_types() + spec_qfma_license_types(), seq![spec_qcb_regulator()] + seq![spec_qfma_regulator()], spec_qfcra_license_types(), seq![spec_qfcra_regulator()]);
    lemma_in_country_append(seq![spec_qcb_regulator()] + seq![spec_qfma_regulator()], seq![spec_qfcra_regulator()], "qa"@);
    lemma_complete_append(spec_qcb_license_types() + spec_qfma_license_types() + spec_qfcra_license_types(), spec_qfc_auth_license_types());
    lemma_granted_combine(spec_qcb_license_types() + spec_qfma_license_types() + spec_qfcra_license_types(), seq![spec_qcb_regulator()] + seq![spec_qfma_regulator()] + seq![spec_qfcra_regulator()], spec_qfc_auth_license_types(), seq![spec_qfc_auth_regulator()]);
    lemma_every_combine(spec_qcb_license_types() + spec_qfma_license_types() + spec_qfcra_license_types(), seq![spec_qcb_regulator()] + seq![spec_qfma_regulator()] + seq![spec_qfcra_regulator()], spec_qfc_auth_license_types(), seq![spec_qfc_auth_regulator()]);
    lemma_in_country_append(seq![spec_qcb_regulator()] + seq![spec_qfma_regulator()] + seq![spec_qfcra_regulator()], seq![spec_qfc_auth_regulator()], "qa"@);
}

/// No two licence types of `qcb_license_types` share an identifier.
proof fn lemma_qcb_license_types_ids_distinct()
    ensures
        license_type_ids_distinct(spec_qcb_license_types()),
{
    let t = spec_qcb_license_types();
    assert(ids_distinct_each(t)) by {
        reveal_strlit("qa-qcb:commercial-bank");
        reveal_strlit("qa-qcb:insurance-agent");
        reveal_strlit("qa-qcb:insurance-broker");
        reveal_strlit("qa-qcb:insurer");
        reveal_strlit("qa-qcb:investment-bank");
        reveal_strlit("qa-qcb:islamic-bank");
        reveal_strlit("qa-qcb:money-exchange");
        reveal_strlit("qa-qcb:payment-service-provider");
        reveal_strlit("qa-qcb:reinsurer");
        reveal_strlit("qa-qcb:specialized-bank");
        assert(t[0].license_type_id[7] != t[1].license_type_id[7]);
        assert(t[0].license_type_id[7] != t[2].license_type_id[7]);
        assert(t[1].license_type_id[8] != t[2].license_type_id[8]);
        assert(t[0].license_type_id[7] != t[3].license_type_id[7]);
        assert(t[1].license_type_id[7] != t[3].license_type_id[7]);
        assert(t[2].license_type_id[7] != t[3].license_type_id[7]);
        assert(t[0].license_type_id[7] != t[4].license_type_id[7]);
        assert(t[1].license_type_id[8] != t[4].license_type_id[8]);
        assert(t[2].license_type_id[9] != t[4].license_type_id[9]);
        assert(t[3].license_type_id[7] != t[4].license_type_id[7]);
        assert(t[0].license_type_id[7] != t[5].license_type_id[7]);
        assert(t[1].license_type_id[7] != t[5].license_type_id[7]);
        assert(t[2].license_type_id[7] != t[5].license_type_id[7]);
        assert(t[3].license_type_id[7] != t[5].license_type_id[7]);
        assert(t[4].license_type_id[7] != t[5].license_type_id[7]);
        assert(t[0].license_type_id[7] != t[6].license_type_id[7]);
        assert(t[1].license_type_id[8] != t[6].license_type_id[8]);
        assert(t[2].license_type_id[9] != t[6].license_type_id[9]);
        assert(t[3].license_type_id[7] != t[6].license_type_id[7]);
        assert(t[4].license_type_id[12] != t[6].license_type_id[12]);
        assert(t[5].license_type_id[7] != t[6].license_type_id[7]);
        assert(t[0].license_type_id[7] != t[7].license_type_id[7]);
        assert(t[1].license_type_id[8] != t[7].license_type_id[8]);
        assert(t[2].license_type_id[9] != t[7].license_type_id[9]);
        assert(t[3].license_type_id[7] != t[7].license_type_id[7]);
        assert(t[4].license_type_id[12] != t[7].license_type_id[12]);
        assert(t[5].license_type_id[7] != t[7].license_type_id[7]);
        assert(t[6].license_type_id[17] != t[7].license_type_id[17]);
        assert(t[0].license_type_id[7] != t[8].license_type_id[7]);
        assert(t[1].license_type_id[7] != t[8].license_type_id[7]);
        assert(t[2].license_type_id[7] != t[8].license_type_id[7]);
        assert(t[3].license_type_id[7] != t[8].license_type_id[7]);
        assert(t[4].license_type_id[7] != t[8].license_type_id[7]);
        assert(t[5].license_type_id[7] != t[8].license_type_id[7]);
        assert(t[6].license_type_id[7] != t[8].license_type_id[7]);
        assert(t[7].license_type_id[7] != t[8].license_type_id[7]);
        assert(t[0].license_type_id[7] != t[9].license_type_id[7]);
        assert(t[1].license_type_id[7] != t[9].license_type_id[7]);
        assert(t[2].license_type_id[7] != t[9].license_type_id[7]);
        assert(t[3].license_type_id[7] != t[9].license_type_id[7]);
        assert(t[4].license_type_id[7] != t[9].license_type_id[7]);
        assert(t[5].license_type_id[7] != t[9].license_type_id[7]);
        assert(t[6].license_type_id[7] != t[9].license_type_id[7]);
        assert(t[7].license_type_id[7] != t[9].license_type_id[7]);
        assert(t[8].license_type_id[7] != t[9].license_type_id[7]);
        reveal_with_fuel(ids_distinct_each, 11);
        reveal_with_fuel(id_fresh_each, 11);
    }
    lemma_ids_distinct_each(t);
}

/// No two licence types of `qfma_license_types` share an identifier.
proof fn lemma_qfma_license_types_ids_distinct()
    ensures
        license_type_ids_distinct(spec_qfma_license_types()),
{
    let t = spec_qfma_license_types();
    assert(ids_distinct_each(t)) by {
        reveal_strlit("qa-qfma:custodian");
        reveal_strlit("qa-qfma:fund-administrator");
        reveal_strlit("qa-qfma:investment-manager");
        reveal_strlit("qa-qfma:market-making");
        reveal_strlit("qa-qfma:securities-broker");
        assert(t[0].license_type_id[8] != t[1].license_type_id[8]);
        assert(t[0].license_type_id[8] != t[2].license_type_id[8]);
        assert(t[1].license_type_id[8] != t[2].license_type_id[8]);
        assert(t[0].license_type_id[8] != t[3].license_type_id[8]);
        assert(t[1].license_type_id[8] != t[3].license_type_id[8]);
        assert(t[2].license_type_id[8] != t[3].license_type_id[8]);
        assert(t[0].license_type_id[8] != t[4].license_type_id[8]);
        assert(t[1].license_type_id[8] != t[4].license_type_id[8]);
        assert(t[2].license_type_id[8] != t[4].license_type_id[8]);
        assert(t[3].license_type_id[8] != t[4].license_type_id[8]);
        reveal_with_fuel(ids_distinct_each, 6);
        reveal_with_fuel(id_fresh_each, 6);
    }
    lemma_ids_distinct_each(t);
}

/// No two licence types of `qfcra_license_types` share an identifier.
proof fn lemma_qfcra_license_types_ids_distinct()
    ensures
        license_type_ids_distinct(spec_qfcra_license_types()),
{
    let t = spec_qfcra_license_types();
    assert(ids_distinct_each(t)) by {
        reveal_strlit("qa-qfc-ra:advisory-services");
        reveal_strlit("qa-qfc-ra:banking-business");
        reveal_strlit("qa-qfc-ra:credit-rating-agency");
        reveal_strlit("qa-qfc-ra:digital-asset-services");
        reveal_strlit("qa-qfc-ra:fund-administration");
        reveal_strlit("qa-qfc-ra:insurance-general");
        reveal_strlit("qa-qfc-ra:insurance-long-term");
        reveal_strlit("qa-qfc-ra:insurance-mediation");
        reveal_strlit("qa-qfc-ra:investment-management");
        reveal_strlit("qa-qfc-ra:money-transmission");
        reveal_strlit("qa-qfc-ra:trust-services");
        assert(t[0].license_type_id[10] != t[1].license_type_id[10]);
        assert(t[0].license_type_id[10] != t[2].license_type_id[10]);
        assert(t[1].license_type_id[20] != t[2].license_type_id[20]);
        assert(t[0].license_type_id[10] != t[3].license_type_id[10]);
        assert(t[1].license_type_id[20] != t[3].license_type_id[20]);
        assert(t[2].license_type_id[20] != t[3].license_type_id[20]);
        assert(t[0].license_type_id[10] != t[4].license_type_id[10]);
        assert(t[1].license_type_id[12] != t[4].license_type_id[12]);
        assert(t[2].license_type_id[12] != t[4].license_type_id[12]);
        assert(t[3].license_type_id[12] != t[4].license_type_id[12]);
        assert(t[0].license_type_id[10] != t[5].license_type_id[10]);
        assert(t[1].license_type_id[10] != t[5].license_type_id[10]);
        assert(t[2].license_type_id[10] != t[5].license_type_id[10]);
        assert(t[3].license_type_id[10] != t[5].license_type_id[10]);
        assert(t[4].license_type_id[10] != t[5].license_type_id[10]);
        assert(t[0].license_type_id[10] != t[6].license_type_id[10]);
        assert(t[1].license_type_id[10] != t[6].license_type_id[10]);
        assert(t[2].license_type_id[10] != t[6].license_type_id[10]);
        assert(t[3].license_type_id[10] != t[6].license_type_id[10]);
        assert(t[4].license_type_id[10] != t[6].license_type_id[10]);
        assert(t[5].license_type_id[10] != t[6].license_type_id[10]);
        assert(t[0].license_type_id[10] != t[7].license_type_id[10]);
        assert(t[1].license_type_id[10] != t[7].license_type_id[10]);
        assert(t[2].license_type_id[10] != t[7].license_type_id[10]);
        assert(t[3].license_type_id[10] != t[7].license_type_id[10]);
        assert(t[4].license_type_id[10] != t[7].license_type_id[10]);
        assert(t[5].license_type_id[10] != t[7].license_type_id[10]);
        assert(t[6].license_type_id[10] != t[7].license_type_id[10]);
        assert(t[0].license_type_id[10] != t[8].license_type_id[10]);
        assert(t[1].license_type_id[10] != t[8].license_type_id[10]);
        assert(t[2].license_type_id[10] != t[8].license_type_id[10]);
        assert(t[3].license_type_id[10] != t[8].license_type_id[10]);
        assert(t[4].license_type_id[10] != t[8].license_type_id[10]);
        assert(t[5].license_type_id[10] != t[8].license_type_id[10]);
        assert(t[6].license_type_id[10] != t[8].license_type_id[10]);
        assert(t[7].license_type_id[10] != t[8].license_type_id[10]);
        assert(t[0].license_type_id[10] != t[9].license_type_id[10]);
        assert(t[1].license_type_id[10] != t[9].license_type_id[10]);
        assert(t[2].license_type_id[10] != t[9].license_type_id[10]);
        assert(t[3].license_type_id[10] != t[9].license_type_id[10]);
        assert(t[4].license_type_id[10] != t[9].license_type_id[10]);
        assert(t[5].license_type_id[10] != t[9].license_type_id[10]);
        assert(t[6].license_type_id[10] != t[9].license_type_id[10]);
        assert(t[7].license_type_id[10] != t[9].license_type_id[10]);
        assert(t[8].license_type_id[10] != t[9].license_type_id[10]);
        assert(t[0].license_type_id[10] != t[10].license_type_id[10]);
        assert(t[1].license_type_id[10] != t[10].license_type_id[10]);
        assert(t[2].license_type_id[10] != t[10].license_type_id[10]);
        assert(t[3].license_type_id[10] != t[10].license_type_id[10]);
        assert(t[4].license_type_id[10] != t[10].license_type_id[10]);
        assert(t[5].license_type_id[10] != t[10].license_type_id[10]);
        assert(t[6].license_type_id[10] != t[10].license_type_id[10]);
        assert(t[7].license_type_id[10] != t[10].license_type_id[10]);
        assert(t[8].license_type_id[10] != t[10].license_type_id[10]);
        assert(t[9].license_type_id[10] != t[10].license_type_id[10]);
        reveal_with_fuel(ids_distinct_each, 12);
        reveal_with_fuel(id_fresh_each, 12);
    }
    lemma_ids_distinct_each(t);
}

/// No two licence types of `qfc_auth_license_types` share an identifier.
proof fn lemma_qfc_auth_license_types_ids_distinct()
    ensures
        license_type_ids_distinct(spec_qfc_auth_license_types()),
{
    let t = spec_qfc_auth_license_types();
    assert(ids_distinct_each(t)) by {
        reveal_strlit("qa-qfc-auth:qfc-branch");
        reveal_strlit("qa-qfc-auth:qfc-company");
        reveal_strlit("qa-qfc-auth:qfc-foundation");
        reveal_strlit("qa-qfc-auth:qfc-llc");
        reveal_strlit("qa-qfc-auth:qfc-partnership");
        reveal_strlit("qa-qfc-auth:qfc-spv");
        assert(t[0].license_type_id[16] != t[1].license_type_id[16]);
        assert(t[0].license_type_id[16] != t[2].license_type_id[16]);
        assert(t[1].license_type_id[16] != t[2].license_type_id[16]);
        assert(t[0].license_type_id[16] != t[3].license_type_id[16]);
        assert(t[1].license_type_id[16] != t[3].license_type_id[16]);
        assert(t[2].license_type_id[16] != t[3].license_type_id[16]);
        assert(t[0].license_type_id[16] != t[4].license_type_id[16]);
        assert(t[1].license_type_id[16] != t[4].license_type_id[16]);
        assert(t[2].license_type_id[16] != t[4].license_type_id[16]);
        assert(t[3].license_type_id[16] != t[4].license_type_id[16]);
        assert(t[0].license_type_id[16] != t[5].license_type_id[16]);
        assert(t[1].license_type_id[16] != t[5].license_type_id[16]);
        assert(t[2].license_type_id[16] != t[5].license_type_id[16]);
        assert(t[3].license_type_id[16] != t[5].license_type_id[16]);
        assert(t[4].license_type_id[16] != t[5].license_type_id[16]);
        reveal_with_fuel(ids_distinct_each, 7);
        reveal_with_fuel(id_fresh_each, 7);
    }
    lemma_ids_distinct_each(t);
}

/// No licence type of `qcb_license_types` shares an identifier with one of `qfma_license_types`.
proof fn lemma_qcb_license_types_apart_from_qfma_license_types()
    ensures
        license_type_ids_apart(spec_qcb_license_types(), spec_qfma_license_types()),
{
    let a = spec_qcb_license_types();
    let b = spec_qfma_license_types();
    assert(apart_each(a, b)) by {
        reveal_strlit("qa-qcb:commercial-bank");
        reveal_strlit("qa-qcb:insurance-agent");
        reveal_strlit("qa-qcb:insurance-broker");
        reveal_strlit("qa-qcb:insurer");
        reveal_strlit("qa-qcb:investment-bank");
        reveal_strlit("qa-qcb:islamic-bank");
        reveal_strlit("qa-qcb:money-exchange");
        reveal_strlit("qa-qcb:payment-service-provider");
        reveal_strlit("qa-qcb:reinsurer");
        reveal_strlit("qa-qcb:specialized-bank");
        reveal_strlit("qa-qfma:custodian");
        reveal_strlit("qa-qfma:fund-administrator");
        reveal_strlit("qa-qfma:investment-manager");
        reveal_strlit("qa-qfma:market-making");
        reveal_strlit("qa-qfma:securities-broker");
        assert(a[0].license_type_id[4] != b[0].license_type_id[4]);
        assert(a[0].license_type_id[4] != b[1].license_type_id[4]);
        assert(a[0].license_type_id[4] != b[2].license_type_id[4]);
        assert(a[0].license_type_id[4] != b[3].license_type_id[4]);
        assert(a[0].license_type_id[4] != b[4].license_type_id[4]);
        assert(a[1].license_type_id[4] != b[0].license_type_id[4]);
        assert(a[1].license_type_id[4] != b[1].license_type_id[4]);
        assert(a[1].license_type_id[4] != b[2].license_type_id[4]);
        assert(a[1].license_type_id[4] != b[3].license_type_id[4]);
        assert(a[1].license_type_id[4] != b[4].license_type_id[4]);
        assert(a[2].license_type_id[4] != b[0].license_type_id[4]);
        assert(a[2].license_type_id[4] != b[1].license_type_id[4]);
        assert(a[2].license_type_id[4] != b[2].license_type_id[4]);
        assert(a[2].license_type_id[4] != b[3].license_type_id[4]);
        assert(a[2].license_type_id[4] != b[4].license_type_id[4]);
        assert(a[3].license_type_id[4] != b[0].license_type_id[4]);
        assert(a[3].license_type_id[4] != b[1].license_type_id[4]);
        assert(a[3].license_type_id[4] != b[2].license_type_id[4]);
        assert(a[3].license_type_id[4] != b[3].license_type_id[4]);
        assert(a[3].license_type_id[4] != b[4].license_type_id[4]);
        assert(a[4].license_type_id[4] != b[0].license_type_id[4]);
        assert(a[4].license_type_id[4] != b[1].license_type_id[4]);
        assert(a[4].license_type_id[4] != b[2].license_type_id[4]);
        assert(a[4].license_type_id[4] != b[3].license_type_id[4]);
        assert(a[4].license_type_id[4] != b[4].license_type_id[4]);
        assert(a[5].license_type_id[4] != b[0].license_type_id[4]);
        assert(a[5].license_type_id[4] != b[1].license_type_id[4]);
        assert(a[5].license_type_id[4] != b[2].license_type_id[4]);
        assert(a[5].license_type_id[4] != b[3].license_type_id[4]);
        assert(a[5].license_type_id[4] != b[4].license_type_id[4]);
        assert(a[6].license_type_id[4] != b[0].license_type_id[4]);
        assert(a[6].license_type_id[4] != b[1].license_type_id[4]);
        assert(a[6].license_type_id[4] != b[2].license_type_id[4]);
        assert(a[6].license_type_id[4] != b[3].license_type_id[4]);
        assert(a[6].license_type_id[4] != b[4].license_type_id[4]);
        assert(a[7].license_type_id[4] != b[0].license_type_id[4]);
        assert(a[7].license_type_id[4] != b[1].license_type_id[4]);
        assert(a[7].license_type_id[4] != b[2].license_type_id[4]);
        assert(a[7].license_type_id[4] != b[3].license_type_id[4]);
        assert(a[7].license_type_id[4] != b[4].license_type_id[4]);
        assert(a[8].license_type_id[4] != b[0].license_type_id[4]);
        assert(a[8].license_type_id[4] != b[1].license_type_id[4]);
        assert(a[8].license_type_id[4] != b[2].license_type_id[4]);
        assert(a[8].license_type_id[4] != b[3].license_type_id[4]);
        assert(a[8].license_type_id[4] != b[4].license_type_id[4]);
        assert(a[9].license_type_id[4] != b[0].license_type_id[4]);
        assert(a[9].license_type_id[4] != b[1].license_type_id[4]);
        assert(a[9].license_type_id[4] != b[2].license_type_id[4]);
        assert(a[9].license_type_id[4] != b[3].license_type_id[4]);
        assert(a[9].license_type_id[4] != b[4].license_type_id[4]);
        reveal_with_fuel(apart_each, 11);
        reveal_with_fuel(id_fresh_each, 6);
    }
    lemma_apart_each(a, b);
}

/// No licence type of `qcb_license_types` shares an identifier with one of `qfcra_license_types`.
proof fn lemma_qcb_license_types_apart_from_qfcra_license_types()
    ensures
        license_type_ids_apart(spec_qcb_license_types(), spec_qfcra_license_types()),
{
    let a = spec_qcb_license_types();
    let b = spec_qfcra_license_types();
    assert(apart_each(a, b)) by {
        reveal_strlit("qa-qcb:commercial-bank");
        reveal_strlit("qa-qcb:insurance-agent");
        reveal_strlit("qa-qcb:insurance-broker");
        reveal_strlit("qa-qcb:insurer");
        reveal_strlit("qa-qcb:investment-bank");
        reveal_strlit("qa-qcb:islamic-bank");
        reveal_strlit("qa-qcb:money-exchange");
        reveal_strlit("qa-qcb:payment-service-provider");
        reveal_strlit("qa-qcb:reinsurer");
        reveal_strlit("qa-qcb:specialized-bank");
        reveal_strlit("qa-qfc-ra:advisory-services");
        reveal_strlit("qa-qfc-ra:banking-business");
        reveal_strlit("qa-qfc-ra:credit-rating-agency");
        reveal_strlit("qa-qfc-ra:digital-asset-services");
        reveal_strlit("qa-qfc-ra:fund-administration");
        reveal_strlit("qa-qfc-ra:insurance-general");
        reveal_strlit("qa-qfc-ra:insurance-long-term");
        reveal_strlit("qa-qfc-ra:insurance-mediation");
        reveal_strlit("qa-qfc-ra:investment-management");
        reveal_strlit("qa-qfc-ra:money-transmission");
        reveal_strlit("qa-qfc-ra:trust-services");
        assert(a[0].license_type_id[4] != b[0].license_type_id[4]);
        assert(a[0].license_type_id[4] != b[1].license_type_id[4]);
        assert(a[0].license_type_id[4] != b[2].license_type_id[4]);
        assert(a[0].license_type_id[4] != b[3].license_type_id[4]);
        assert(a[0].license_type_id[4] != b[4].license_type_id[4]);
        assert(a[0].license_type_id[4] != b[5].license_type_id[4]);
        assert(a[0].license_type_id[4] != b[6].license_type_id[4]);
        assert(a[0].license_type_id[4] != b[7].license_type_id[4]);
        assert(a[0].license_type_id[4] != b[8].license_type_id[4]);
        assert(a[0].license_type_id[4] != b[9].license_type_id[4]);
        assert(a[0].license_type_id[4] != b[10].license_type_id[4]);
        assert(a[1].license_type_id[4] != b[0].license_type_id[4]);
        assert(a[1].license_type_id[4] != b[1].license_type_id[4]);
        assert(a[1].license_type_id[4] != b[2].license_type_id[4]);
        assert(a[1].license_type_id[4] != b[3].license_type_id[4]);
        assert(a[1].license_type_id[4] != b[4].license_type_id[4]);
        assert(a[1].license_type_id[4] != b[5].license_type_id[4]);
        assert(a[1].license_type_id[4] != b[6].license_type_id[4]);
        assert(a[1].license_type_id[4] != b[7].license_type_id[4]);
        assert(a[1].license_type_id[4] != b[8].license_type_id[4]);
        assert(a[1].license_type_id[4] != b[9].license_type_id[4]);
        assert(a[1].license_type_id[4] != b[10].license_type_id[4]);
        assert(a[2].license_type_id[4] != b[0].license_type_id[4]);
        assert(a[2].license_type_id[4] != b[1].license_type_id[4]);
        assert(a[2].license_type_id[4] != b[2].license_type_id[4]);
        assert(a[2].license_type_id[4] != b[3].license_type_id[4]);
        assert(a[2].license_type_id[4] != b[4].license_type_id[4]);
        assert(a[2].license_type_id[4] != b[5].license_type_id[4]);
        assert(a[2].license_type_id[4] != b[6].license_type_id[4]);
        assert(a[2].license_type_id[4] != b[7].license_type_id[4]);
        assert(a[2].license_type_id[4] != b[8].license_type_id[4]);
        assert(a[2].license_type_id[4] != b[9].license_type_id[4]);
        assert(a[2].license_type_id[4] != b[10].license_type_id[4]);
        assert(a[3].license_type_id[4] != b[0].license_type_id[4]);
        assert(a[3].license_type_id[4] != b[1].license_type_id[4]);
        assert(a[3].license_type_id[4] != b[2].license_type_id[4]);
        assert(a[3].license_type_id[4] != b[3].license_type_id[4]);
        assert(a[3].license_type_id[4] != b[4].license_type_id[4]);
        assert(a[3].license_type_id[4] != b[5].license_type_id[4]);
        assert(a[3].license_type_id[4] != b[6].license_type_id[4]);
        assert(a[3].license_type_id[4] != b[7].license_type_id[4]);
        assert(a[3].license_type_id[4] != b[8].license_type_id[4]);
        assert(a[3].license_type_id[4] != b[9].license_type_id[4]);
        assert(a[3].license_type_id[4] != b[10].license_type_id[4]);
        assert(a[4].license_type_id[4] != b[0].license_type_id[4]);
        assert(a[4].license_type_id[4] != b[1].license_type_id[4]);
        assert(a[4].license_type_id[4] != b[2].license_type_id[4]);
        assert(a[4].license_type_id[4] != b[3].license_type_id[4]);
        assert(a[4].license_type_id[4] != b[4].license_type_id[4]);
        assert(a[4].license_type_id[4] != b[5].license_type_id[4]);
        assert(a[4].license_type_id[4] != b[6].license_type_id[4]);
        assert(a[4].license_type_id[4] != b[7].license_type_id[4]);
        assert(a[4].license_type_id[4] != b[8].license_type_id[4]);
        assert(a[4].license_type_id[4] != b[9].license_type_id[4]);
        assert(a[4].license_type_id[4] != b[10].license_type_id[4]);
        assert(a[5].license_type_id[4] != b[0].license_type_id[4]);
        assert(a[5].license_type_id[4] != b[1].license_type_id[4]);
        assert(a[5].license_type_id[4] != b[2].license_type_id[4]);
        assert(a[5].license_type_id[4] != b[3].license_type_id[4]);
        assert(a[5].license_type_id[4] != b[4].license_type_id[4]);
        assert(a[5].license_type_id[4] != b[5].license_type_id[4]);
        assert(a[5].license_type_id[4] != b[6].license_type_id[4]);
        assert(a[5].license_type_id[4] != b[7].license_type_id[4]);
        assert(a[5].license_type_id[4] != b[8].license_type_id[4]);
        assert(a[5].license_type_id[4] != b[9].license_type_id[4]);
        assert(a[5].license_type_id[4] != b[10].license_type_id[4]);
        assert(a[6].license_type_id[4] != b[0].license_type_id[4]);
        assert(a[6].license_type_id[4] != b[1].license_type_id[4]);
        assert(a[6].license_type_id[4] != b[2].license_type_id[4]);
        assert(a[6].license_type_id[4] != b[3].license_type_id[4]);
        assert(a[6].license_type_id[4] != b[4].license_type_id[4]);
        assert(a[6].license_type_id[4] != b[5].license_type_id[4]);
        assert(a[6].license_type_id[4] != b[6].license_type_id[4]);
        assert(a[6].license_type_id[4] != b[7].license_type_id[4]);
        assert(a[6].license_type_id[4] != b[8].license_type_id[4]);
        assert(a[6].license_type_id[4] != b[9].license_type_id[4]);
        assert(a[6].license_type_id[4] != b[10].license_type_id[4]);
        assert(a[7].license_type_id[4] != b[0].license_type_id[4]);
        assert(a[7].license_type_id[4] != b[1].license_type_id[4]);
        assert(a[7].license_type_id[4] != b[2].license_type_id[4]);
        assert(a[7].license_type_id[4] != b[3].license_type_id[4]);
        assert(a[7].license_type_id[4] != b[4].license_type_id[4]);
        assert(a[7].license_type_id[4] != b[5].license_type_id[4]);
        assert(a[7].license_type_id[4] != b[6].license_type_id[4]);
        assert(a[7].license_type_id[4] != b[7].license_type_id[4]);
        assert(a[7].license_type_id[4] != b[8].license_type_id[4]);
        assert(a[7].license_type_id[4] != b[9].license_type_id[4]);
        assert(a[7].license_type_id[4] != b[10].license_type_id[4]);
        assert(a[8].license_type_id[4] != b[0].license_type_id[4]);
        assert(a[8].license_type_id[4] != b[1].license_type_id[4]);
        assert(a[8].license_type_id[4] != b[2].license_type_id[4]);
        assert(a[8].license_type_id[4] != b[3].license_type_id[4]);
        assert(a[8].license_type_id[4] != b[4].license_type_id[4]);
        assert(a[8].license_type_id[4] != b[5].license_type_id[4]);
        assert(a[8].license_type_id[4] != b[6].license_type_id[4]);
        assert(a[8].license_type_id[4] != b[7].license_type_id[4]);
        assert(a[8].license_type_id[4] != b[8].license_type_id[4]);
        assert(a[8].license_type_id[4] != b[9].license_type_id[4]);
        assert(a[8].license_type_id[4] != b[10].license_type_id[4]);
        assert(a[9].license_type_id[4] != b[0].license_type_id[4]);
        assert(a[9].license_type_id[4] != b[1].license_type_id[4]);
        assert(a[9].license_type_id[4] != b[2].license_type_id[4]);
        assert(a[9].license_type_id[4] != b[3].license_type_id[4]);
        assert(a[9].license_type_id[4] != b[4].license_type_id[4]);
        assert(a[9].license_type_id[4] != b[5].license_type_id[4]);
        assert(a[9].license_type_id[4] != b[6].license_type_id[4]);
        assert(a[9].license_type_id[4] != b[7].license_type_id[4]);
        assert(a[9].license_type_id[4] != b[8].license_type_id[4]);
        assert(a[9].license_type_id[4] != b[9].license_type_id[4]);
        assert(a[9].license_type_id[4] != b[10].license_type_id[4]);
        reveal_with_fuel(apart_each, 11);
        reveal_with_fuel(id_fresh_each, 12);
    }
    lemma_apart_each(a, b);
}

/// No licence type of `qcb_license_types` shares an identifier with one of `qfc_auth_license_types`.
proof fn lemma_qcb_license_types_apart_from_qfc_auth_license_types()
    ensures
        license_type_ids_apart(spec_qcb_license_types(), spec_qfc_auth_license_types()),
{
    let a = spec_qcb_license_types();
    let b = spec_qfc_auth_license_types();
    assert(apart_each(a, b)) by {
        reveal_strlit("qa-qcb:commercial-bank");
        reveal_strlit("qa-qcb:insurance-agent");
        reveal_strlit("qa-qcb:insurance-broker");
        reveal_strlit("qa-qcb:insurer");
        reveal_strlit("qa-qcb:investment-bank");
        reveal_strlit("qa-qcb:islamic-bank");
        reveal_strlit("qa-qcb:money-exchange");
        reveal_strlit("qa-qcb:payment-service-provider");
        reveal_strlit("qa-qcb:reinsurer");
        reveal_strlit("qa-qcb:specialized-bank");
        reveal_strlit("qa-qfc-auth:qfc-branch");
        reveal_strlit("qa-qfc-auth:qfc-company");
        reveal_strlit("qa-qfc-auth:qfc-foundation");
        reveal_strlit("qa-qfc-auth:qfc-llc");
        reveal_strlit("qa-qfc-auth:qfc-partnership");
        reveal_strlit("qa-qfc-auth:qfc-spv");
        assert(a[0].license_type_id[4] != b[0].license_type_id[4]);
        assert(a[0].license_type_id[4] != b[1].license_type_id[4]);
        assert(a[0].license_type_id[4] != b[2].license_type_id[4]);
        assert(a[0].license_type_id[4] != b[3].license_type_id[4]);
        assert(a[0].license_type_id[4] != b[4].license_type_id[4]);
        assert(a[0].license_type_id[4] != b[5].license_type_id[4]);
        assert(a[1].license_type_id[4] != b[0].license_type_id[4]);
        assert(a[1].license_type_id[4] != b[1].license_type_id[4]);
        assert(a[1].license_type_id[4] != b[2].license_type_id[4]);
        assert(a[1].license_type_id[4] != b[3].license_type_id[4]);
        assert(a[1].license_type_id[4] != b[4].license_type_id[4]);
        assert(a[1].license_type_id[4] != b[5].license_type_id[4]);
        assert(a[2].license_type_id[4] != b[0].license_type_id[4]);
        assert(a[2].license_type_id[4] != b[1].license_type_id[4]);
        assert(a[2].license_type_id[4] != b[2].license_type_id[4]);
        assert(a[2].license_type_id[4] != b[3].license_type_id[4]);
        assert(a[2].license_type_id[4] != b[4].license_type_id[4]);
        assert(a[2].license_type_id[4] != b[5].license_type_id[4]);
        assert(a[3].license_type_id[4] != b[0].license_type_id[4]);
        assert(a[3].license_type_id[4] != b[1].license_type_id[4]);
        assert(a[3].license_type_id[4] != b[2].license_type_id[4]);
        assert(a[3].license_type_id[4] != b[3].license_type_id[4]);
        assert(a[3].license_type_id[4] != b[4].license_type_id[4]);
        assert(a[3].license_type_id[4] != b[5].license_type_id[4]);
        assert(a[4].license_type_id[4] != b[0].license_type_id[4]);
        assert(a[4].license_type_id[4] != b[1].license_type_id[4]);
        assert(a[4].license_type_id[4] != b[2].license_type_id[4]);
        assert(a[4].license_type_id[4] != b[3].license_type_id[4]);
        assert(a[4].license_type_id[4] != b[4].license_type_id[4]);
        assert(a[4].license_type_id[4] != b[5].license_type_id[4]);
        assert(a[5].license_type_id[4] != b[0].license_type_id[4]);
        assert(a[5].license_type_id[4] != b[1].license_type_id[4]);
        assert(a[5].license_type_id[4] != b[2].license_type_id[4]);
        assert(a[5].license_type_id[4] != b[3].license_type_id[4]);
        assert(a[5].license_type_id[4] != b[4].license_type_id[4]);
        assert(a[5].license_type_id[4] != b[5].license_type_id[4]);
        assert(a[6].license_type_id[4] != b[0].license_type_id[4]);
        assert(a[6].license_type_id[4] != b[1].license_type_id[4]);
        assert(a[6].license_type_id[4] != b[2].license_type_id[4]);
        assert(a[6].license_type_id[4] != b[3].license_type_id[4]);
        assert(a[6].license_type_id[4] != b[4].license_type_id[4]);
        assert(a[6].license_type_id[4] != b[5].license_type_id[4]);
        assert(a[7].license_type_id[4] != b[0].license_type_id[4]);
        assert(a[7].license_type_id[4] != b[1].license_type_id[4]);
        assert(a[7].license_type_id[4] != b[2].license_type_id[4]);
        assert(a[7].license_type_id[4] != b[3].license_type_id[4]);
        assert(a[7].license_type_id[4] != b[4].license_type_id[4]);
        assert(a[7].license_type_id[4] != b[5].license_type_id[4]);
        assert(a[8].license_type_id[4] != b[0].license_type_id[4]);
        assert(a[8].license_type_id[4] != b[1].license_type_id[4]);
        assert(a[8].license_type_id[4] != b[2].license_type_id[4]);
        assert(a[8].license_type_id[4] != b[3].license_type_id[4]);
        assert(a[8].license_type_id[4] != b[4].license_type_id[4]);
        assert(a[8].license_type_id[4] != b[5].license_type_id[4]);
        assert(a[9].license_type_id[4] != b[0].license_type_id[4]);
        assert(a[9].license_type_id[4] != b[1].license_type_id[4]);
        assert(a[9].license_type_id[4] != b[2].license_type_id[4]);
        assert(a[9].license_type_id[4] != b[3].license_type_id[4]);
        assert(a[9].license_type_id[4] != b[4].license_type_id[4]);
        assert(a[9].license_type_id[4] != b[5].license_type_id[4]);
        reveal_with_fuel(apart_each, 11);
        reveal_with_fuel(id_fresh_each, 7);
    }
    lemma_apart_each(a, b);
}

/// No licence type of `qfma_license_types` shares an identifier with one of `qfcra_license_types`.
proof fn lemma_qfma_license_types_apart_from_qfcra_license_types()
    ensures
        license_type_ids_apart(spec_qfma_license_types(), spec_qfcra_license_types()),
{
    let a = spec_qfma_license_types();
    let b = spec_qfcra_license_types();
    assert(apart_each(a, b)) by {
        reveal_strlit("qa-qfc-ra:advisory-services");
        reveal_strlit("qa-qfc-ra:banking-business");
        reveal_strlit("qa-qfc-ra:credit-rating-agency");
        reveal_strlit("qa-qfc-ra:digital-asset-services");
        reveal_strlit("qa-qfc-ra:fund-administration");
        reveal_strlit("qa-qfc-ra:insurance-general");
        reveal_strlit("qa-qfc-ra:insurance-long-term");
        reveal_strlit("qa-qfc-ra:insurance-mediation");
        reveal_strlit("qa-qfc-ra:investment-management");
        reveal_strlit("qa-qfc-ra:money-transmission");
        reveal_strlit("qa-qfc-ra:trust-services");
        reveal_strlit("qa-qfma:custodian");
        reveal_strlit("qa-qfma:fund-administrator");
        reveal_strlit("qa-qfma:investment-manager");
        reveal_strlit("qa-qfma:market-making");
        reveal_strlit("qa-qfma:securities-broker");
        assert(a[0].license_type_id[5] != b[0].license_type_id[5]);
        assert(a[0].license_type_id[5] != b[1].license_type_id[5]);
        assert(a[0].license_type_id[5] != b[2].license_type_id[5]);
        assert(a[0].license_type_id[5] != b[3].license_type_id[5]);
        assert(a[0].license_type_id[5] != b[4].license_type_id[5]);
        assert(a[0].license_type_id[5] != b[5].license_type_id[5]);
        assert(a[0].license_type_id[5] != b[6].license_type_id[5]);
        assert(a[0].license_type_id[5] != b[7].license_type_id[5]);
        assert(a[0].license_type_id[5] != b[8].license_type_id[5]);
        assert(a[0].license_type_id[5] != b[9].license_type_id[5]);
        assert(a[0].license_type_id[5] != b[10].license_type_id[5]);
        assert(a[1].license_type_id[5] != b[0].license_type_id[5]);
        assert(a[1].license_type_id[5] != b[1].license_type_id[5]);
        assert(a[1].license_type_id[5] != b[2].license_type_id[5]);
        assert(a[1].license_type_id[5] != b[3].license_type_id[5]);
        assert(a[1].license_type_id[5] != b[4].license_type_id[5]);
        assert(a[1].license_type_id[5] != b[5].license_type_id[5]);
        assert(a[1].license_type_id[5] != b[6].license_type_id[5]);
        assert(a[1].license_type_id[5] != b[7].license_type_id[5]);
        assert(a[1].license_type_id[5] != b[8].license_type_id[5]);
        assert(a[1].license_type_id[5] != b[9].license_type_id[5]);
        assert(a[1].license_type_id[5] != b[10].license_type_id[5]);
        assert(a[2].license_type_id[5] != b[0].license_type_id[5]);
        assert(a[2].license_type_id[5] != b[1].license_type_id[5]);
        assert(a[2].license_type_id[5] != b[2].license_type_id[5]);
        assert(a[2].license_type_id[5] != b[3].license_type_id[5]);
        assert(a[2].license_type_id[5] != b[4].license_type_id[5]);
        assert(a[2].license_type_id[5] != b[5].license_type_id[5]);
        assert(a[2].license_type_id[5] != b[6].license_type_id[5]);
        assert(a[2].license_type_id[5] != b[7].license_type_id[5]);
        assert(a[2].license_type_id[5] != b[8].license_type_id[5]);
        assert(a[2].license_type_id[5] != b[9].license_type_id[5]);
        assert(a[2].license_type_id[5] != b[10].license_type_id[5]);
        assert(a[3].license_type_id[5] != b[0].license_type_id[5]);
        assert(a[3].license_type_id[5] != b[1].license_type_id[5]);
        assert(a[3].license_type_id[5] != b[2].license_type_id[5]);
        assert(a[3].license_type_id[5] != b[3].license_type_id[5]);
        assert(a[3].license_type_id[5] != b[4].license_type_id[5]);
        assert(a[3].license_type_id[5] != b[5].license_type_id[5]);
        assert(a[3].license_type_id[5] != b[6].license_type_id[5]);
        assert(a[3].license_type_id[5] != b[7].license_type_id[5]);
        assert(a[3].license_type_id[5] != b[8].license_type_id[5]);
        assert(a[3].license_type_id[5] != b[9].license_type_id[5]);
        assert(a[3].license_type_id[5] != b[10].license_type_id[5]);
        assert(a[4].license_type_id[5] != b[0].license_type_id[5]);
        assert(a[4].license_type_id[5] != b[1].license_type_id[5]);
        assert(a[4].license_type_id[5] != b[2].license_type_id[5]);
        assert(a[4].license_type_id[5] != b[3].license_type_id[5]);
        assert(a[4].license_type_id[5] != b[4].license_type_id[5]);
        assert(a[4].license_type_id[5] != b[5].license_type_id[5]);
        assert(a[4].license_type_id[5] != b[6].license_type_id[5]);
        assert(a[4].license_type_id[5] != b[7].license_type_id[5]);
        assert(a[4].license_type_id[5] != b[8].license_type_id[5]);
        assert(a[4].license_type_id[5] != b[9].license_type_id[5]);
        assert(a[4].license_type_id[5] != b[10].license_type_id[5]);
        reveal_with_fuel(apart_each, 6);
        reveal_with_fuel(id_fresh_each, 12);
    }
    lemma_apart_each(a, b);
}

/// No licence type of `qfma_license_types` shares an identifier with one of `qfc_auth_license_types`.
proof fn lemma_qfma_license_types_apart_from_qfc_auth_license_types()
    ensures
        license_type_ids_apart(spec_qfma_license_types(), spec_qfc_auth_license_types()),
{
    let a = spec_qfma_license_types();
    let b = spec_qfc_auth_license_types();
    assert(apart_each(a, b)) by {
        reveal_strlit("qa-qfc-auth:qfc-branch");
        reveal_strlit("qa-qfc-auth:qfc-company");
        reveal_strlit("qa-qfc-auth:qfc-foundation");
        reveal_strlit("qa-qfc-auth:qfc-llc");
        reveal_strlit("qa-qfc-auth:qfc-partnership");
        reveal_strlit("qa-qfc-auth:qfc-spv");
        reveal_strlit("qa-qfma:custodian");
        reveal_strlit("qa-qfma:fund-administrator");
        reveal_strlit("qa-qfma:investment-manager");
        reveal_strlit("qa-qfma:market-making");
        reveal_strlit("qa-qfma:securities-broker");
        assert(a[0].license_type_id[5] != b[0].license_type_id[5]);
        assert(a[0].license_type_id[5] != b[1].license_type_id[5]);
        assert(a[0].license_type_id[5] != b[2].license_type_id[5]);
        assert(a[0].license_type_id[5] != b[3].license_type_id[5]);
        assert(a[0].license_type_id[5] != b[4].license_type_id[5]);
        assert(a[0].license_type_id[5] != b[5].license_type_id[5]);
        assert(a[1].license_type_id[5] != b[0].license_type_id[5]);
        assert(a[1].license_type_id[5] != b[1].license_type_id[5]);
        assert(a[1].license_type_id[5] != b[2].license_type_id[5]);
        assert(a[1].license_type_id[5] != b[3].license_type_id[5]);
        assert(a[1].license_type_id[5] != b[4].license_type_id[5]);
        assert(a[1].license_type_id[5] != b[5].license_type_id[5]);
        assert(a[2].license_type_id[5] != b[0].license_type_id[5]);
        assert(a[2].license_type_id[5] != b[1].license_type_id[5]);
        assert(a[2].license_type_id[5] != b[2].license_type_id[5]);
        assert(a[2].license_type_id[5] != b[3].license_type_id[5]);
        assert(a[2].license_type_id[5] != b[4].license_type_id[5]);
        assert(a[2].license_type_id[5] != b[5].license_type_id[5]);
        assert(a[3].license_type_id[5] != b[0].license_type_id[5]);
        assert(a[3].license_type_id[5] != b[1].license_type_id[5]);
        assert(a[3].license_type_id[5] != b[2].license_type_id[5]);
        assert(a[3].license_type_id[5] != b[3].license_type_id[5]);
        assert(a[3].license_type_id[5] != b[4].license_type_id[5]);
        assert(a[3].license_type_id[5] != b[5].license_type_id[5]);
        assert(a[4].license_type_id[5] != b[0].license_type_id[5]);
        assert(a[4].license_type_id[5] != b[1].license_type_id[5]);
        assert(a[4].license_type_id[5] != b[2].license_type_id[5]);
        assert(a[4].license_type_id[5] != b[3].license_type_id[5]);
        assert(a[4].license_type_id[5] != b[4].license_type_id[5]);
        assert(a[4].license_type_id[5] != b[5].license_type_id[5]);
        reveal_with_fuel(apart_each, 6);
        reveal_with_fuel(id_fresh_each, 7);
    }
    lemma_apart_each(a, b);
}

/// No licence type of `qfcra_license_types` shares an identifier with one of `qfc_auth_license_types`.
proof fn lemma_qfcra_license_types_apart_from_qfc_auth_license_types()
    ensures
        license_type_ids_apart(spec_qfcra_license_types(), spec_qfc_auth_license_types()),
{
    let a = spec_qfcra_license_types();
    let b = spec_qfc_auth_license_types();
    assert(apart_each(a, b)) by {
        reveal_strlit("qa-qfc-auth:qfc-branch");
        reveal_strlit("qa-qfc-auth:qfc-company");
        reveal_strlit("qa-qfc-auth:qfc-foundation");
        reveal_strlit("qa-qfc-auth:qfc-llc");
        reveal_strlit("qa-qfc-auth:qfc-partnership");
        reveal_strlit("qa-qfc-auth:qfc-spv");
        reveal_strlit("qa-qfc-ra:advisory-services");
        reveal_strlit("qa-qfc-ra:banking-business");
        reveal_strlit("qa-qfc-ra:credit-rating-agency");
        reveal_strlit("qa-qfc-ra:digital-asset-services");
        reveal_strlit("qa-qfc-ra:fund-administration");
        reveal_strlit("qa-qfc-ra:insurance-general");
        reveal_strlit("qa-qfc-ra:insurance-long-term");
        reveal_strlit("qa-qfc-ra:insurance-mediation");
        reveal_strlit("qa-qfc-ra:investment-management");
        reveal_strlit("qa-qfc-ra:money-transmission");
        reveal_strlit("qa-qfc-ra:trust-services");
        assert(a[0].license_type_id[7] != b[0].license_type_id[7]);
        assert(a[0].license_type_id[7] != b[1].license_type_id[7]);
        assert(a[0].license_type_id[7] != b[2].license_type_id[7]);
        assert(a[0].license_type_id[7] != b[3].license_type_id[7]);
        assert(a[0].license_type_id[7] != b[4].license_type_id[7]);
        assert(a[0].license_type_id[7] != b[5].license_type_id[7]);
        assert(a[1].license_type_id[7] != b[0].license_type_id[7]);
        assert(a[1].license_type_id[7] != b[1].license_type_id[7]);
        assert(a[1].license_type_id[7] != b[2].license_type_id[7]);
        assert(a[1].license_type_id[7] != b[3].license_type_id[7]);
        assert(a[1].license_type_id[7] != b[4].license_type_id[7]);
        assert(a[1].license_type_id[7] != b[5].license_type_id[7]);
        assert(a[2].license_type_id[7] != b[0].license_type_id[7]);
        assert(a[2].license_type_id[7] != b[1].license_type_id[7]);
        assert(a[2].license_type_id[7] != b[2].license_type_id[7]);
        assert(a[2].license_type_id[7] != b[3].license_type_id[7]);
        assert(a[2].license_type_id[7] != b[4].license_type_id[7]);
        assert(a[2].license_type_id[7] != b[5].license_type_id[7]);
        assert(a[3].license_type_id[7] != b[0].license_type_id[7]);
        assert(a[3].license_type_id[7] != b[1].license_type_id[7]);
        assert(a[3].license_type_id[7] != b[2].license_type_id[7]);
        assert(a[3].license_type_id[7] != b[3].license_type_id[7]);
        assert(a[3].license_type_id[7] != b[4].license_type_id[7]);
        assert(a[3].license_type_id[7] != b[5].license_type_id[7]);
        assert(a[4].license_type_id[7] != b[0].license_type_id[7]);
        assert(a[4].license_type_id[7] != b[1].license_type_id[7]);
        assert(a[4].license_type_id[7] != b[2].license_type_id[7]);
        assert(a[4].license_type_id[7] != b[3].license_type_id[7]);
        assert(a[4].license_type_id[7] != b[4].license_type_id[7]);
        assert(a[4].license_type_id[7] != b[5].license_type_id[7]);
        assert(a[5].license_type_id[7] != b[0].license_type_id[7]);
        assert(a[5].license_type_id[7] != b[1].license_type_id[7]);
        assert(a[5].license_type_id[7] != b[2].license_type_id[7]);
        assert(a[5].license_type_id[7] != b[3].license_type_id[7]);
        assert(a[5].license_type_id[7] != b[4].license_type_id[7]);
        assert(a[5].license_type_id[7] != b[5].license_type_id[7]);
        assert(a[6].license_type_id[7] != b[0].license_type_id[7]);
        assert(a[6].license_type_id[7] != b[1].license_type_id[7]);
        assert(a[6].license_type_id[7] != b[2].license_type_id[7]);
        assert(a[6].license_type_id[7] != b[3].license_type_id[7]);
        assert(a[6].license_type_id[7] != b[4].license_type_id[7]);
        assert(a[6].license_type_id[7] != b[5].license_type_id[7]);
        assert(a[7].license_type_id[7] != b[0].license_type_id[7]);
        assert(a[7].license_type_id[7] != b[1].license_type_id[7]);
        assert(a[7].license_type_id[7] != b[2].license_type_id[7]);
        assert(a[7].license_type_id[7] != b[3].license_type_id[7]);
        assert(a[7].license_type_id[7] != b[4].license_type_id[7]);
        assert(a[7].license_type_id[7] != b[5].license_type_id[7]);
        assert(a[8].license_type_id[7] != b[0].license_type_id[7]);
        assert(a[8].license_type_id[7] != b[1].license_type_id[7]);
        assert(a[8].license_type_id[7] != b[2].license_type_id[7]);
        assert(a[8].license_type_id[7] != b[3].license_type_id[7]);
        assert(a[8].license_type_id[7] != b[4].license_type_id[7]);
        assert(a[8].license_type_id[7] != b[5].license_type_id[7]);
        assert(a[9].license_type_id[7] != b[0].license_type_id[7]);
        assert(a[9].license_type_id[7] != b[1].license_type_id[7]);
        assert(a[9].license_type_id[7] != b[2].license_type_id[7]);
        assert(a[9].license_type_id[7] != b[3].license_type_id[7]);
        assert(a[9].license_type_id[7] != b[4].license_type_id[7]);
        assert(a[9].license_type_id[7] != b[5].license_type_id[7]);
        assert(a[10].license_type_id[7] != b[0].license_type_id[7]);
        assert(a[10].license_type_id[7] != b[1].license_type_id[7]);
        assert(a[10].license_type_id[7] != b[2].license_type_id[7]);
        assert(a[10].license_type_id[7] != b[3].license_type_id[7]);
        assert(a[10].license_type_id[7] != b[4].license_type_id[7]);
        assert(a[10].license_type_id[7] != b[5].license_type_id[7]);
        reveal_with_fuel(apart_each, 12);
        reveal_with_fuel(id_fresh_each, 7);
    }
    lemma_apart_each(a, b);
}

/// No two licence types of `qatar_license_types` share an identifier.
pub proof fn lemma_qatar_license_type_ids_distinct()
    ensures
        license_type_ids_distinct(spec_qatar_license_types()),
{
    lemma_qcb_license_types_ids_distinct();
    lemma_qfma_license_types_ids_distinct();
    lemma_qfcra_license_types_ids_distinct();
    lemma_qfc_auth_license_types_ids_distinct();
    assert(spec_qatar_license_types() =~= spec_qcb_license_types() + spec_qfma_license_types() + spec_qfcra_license_types() + spec_qfc_auth_license_types());
    let acc = spec_qcb_license_types();
    lemma_qcb_license_types_apart_from_qfma_license_types();
    let part = spec_qcb_license_types();
    lemma_ids_distinct_append(acc, spec_qfma_license_types());
    let acc = acc + spec_qfma_license_types();
    lemma_qcb_license_types_apart_from_qfcra_license_types();
    lemma_qfma_license_types_apart_from_qfcra_license_types();
    let part = spec_qcb_license_types();
    lemma_ids_apart_append(part, spec_qfma_license_types(), spec_qfcra_license_types());
    let part = part + spec_qfma_license_types();
    lemma_ids_distinct_append(acc, spec_qfcra_license_types());
    let acc = acc + spec_qfcra_license_types();
    lemma_qcb_license_types_apart_from_qfc_auth_license_types();
    lemma_qfma_license_types_apart_from_qfc_auth_license_types();
    lemma_qfcra_license_types_apart_from_qfc_auth_license_types();
    let part = spec_qcb_license_types();
    lemma_ids_apart_append(part, spec_qfma_license_types(), spec_qfc_auth_license_types());
    let part = part + spec_qfma_license_types();
    lemma_ids_apart_append(part, spec_qfcra_license_types(), spec_qfc_auth_license_types());
    let part = part + spec_qfcra_license_types();
    lemma_ids_distinct_append(acc, spec_qfc_auth_license_types());
    let acc = acc + spec_qfc_auth_license_types();
    assert(spec_qatar_license_types() == acc);
}

/// Each licence-type identifier of `qcb_license_types` starts with its regulator's
/// identifier and a colon.
proof fn lemma_qcb_license_types_prefixed()
    ensures
        license_type_ids_prefixed(spec_qcb_license_types()),
{
    let ts = spec_qcb_license_types();
    assert(license_type_id_prefixed(ts[0])) by {
        reveal_strlit("qa-qcb:commercial-bank");
        reveal_strlit("qa-qcb");
        reveal_strlit(":");
        assert(ts[0].license_type_id.subrange(0, (ts[0].regulator_id + ":"@).len() as int) =~= ts[0].regulator_id + ":"@);
    }
    assert(license_type_id_prefixed(ts[1])) by {
        reveal_strlit("qa-qcb:islamic-bank");
        reveal_strlit("qa-qcb");
        reveal_strlit(":");
        assert(ts[1].license_type_id.subrange(0, (ts[1].regulator_id + ":"@).len() as int) =~= ts[1].regulator_id + ":"@);
    }
    assert(license_type_id_prefixed(ts[2])) by {
        reveal_strlit("qa-qcb:investment-bank");
        reveal_strlit("qa-qcb");
        reveal_strlit(":");
        assert(ts[2].license_type_id.subrange(0, (ts[2].regulator_id + ":"@).len() as int) =~= ts[2].regulator_id + ":"@);
    }
    assert(license_type_id_prefixed(ts[3])) by {
        reveal_strlit("qa-qcb:specialized-bank");
        reveal_strlit("qa-qcb");
        reveal_strlit(":");
        assert(ts[3].license_type_id.subrange(0, (ts[3].regulator_id + ":"@).len() as int) =~= ts[3].regulator_id + ":"@);
    }
    assert(license_type_id_prefixed(ts[4])) by {
        reveal_strlit("qa-qcb:insurer");
        reveal_strlit("qa-qcb");
        reveal_strlit(":");
        assert(ts[4].license_type_id.subrange(0, (ts[4].regulator_id + ":"@).len() as int) =~= ts[4].regulator_id + ":"@);
    }
    assert(license_type_id_prefixed(ts[5])) by {
        reveal_strlit("qa-qcb:reinsurer");
        reveal_strlit("qa-qcb");
        reveal_strlit(":");
        assert(ts[5].license_type_id.subrange(0, (ts[5].regulator_id + ":"@).len() as int) =~= ts[5].regulator_id + ":"@);
    }
    assert(license_type_id_prefixed(ts[6])) by {
        reveal_strlit("qa-qcb:insurance-broker");
        reveal_strlit("qa-qcb");
        reveal_strlit(":");
        assert(ts[6].license_type_id.subrange(0, (ts[6].regulator_id + ":"@).len() as int) =~= ts[6].regulator_id + ":"@);
    }
    assert(license_type_id_prefixed(ts[7])) by {
        reveal_strlit("qa-qcb:insurance-agent");
        reveal_strlit("qa-qcb");
        reveal_strlit(":");
        assert(ts[7].license_type_id.subrange(0, (ts[7].regulator_id + ":"@).len() as int) =~= ts[7].regulator_id + ":"@);
    }
    assert(license_type_id_prefixed(ts[8])) by {
        reveal_strlit("qa-qcb:payment-service-provider");
        reveal_strlit("qa-qcb");
        reveal_strlit(":");
        assert(ts[8].license_type_id.subrange(0, (ts[8].regulator_id + ":"@).len() as int) =~= ts[8].regulator_id + ":"@);
    }
    assert(license_type_id_prefixed(ts[9])) by {
        reveal_strlit("qa-qcb:money-exchange");
        reveal_strlit("qa-qcb");
        reveal_strlit(":");
        assert(ts[9].license_type_id.subrange(0, (ts[9].regulator_id + ":"@).len() as int) =~= ts[9].regulator_id + ":"@);
    }
    assert(prefixed_each(ts)) by {
        reveal_with_fuel(prefixed_each, 11);
    }
    lemma_prefixed_each(ts);
}

/// Each licence-type identifier of `qfma_license_types` starts with its regulator's
/// identifier and a colon.
proof fn lemma_qfma_license_types_prefixed()
    ensures
        license_type_ids_prefixed(spec_qfma_license_types()),
{
    let ts = spec_qfma_license_types();
    assert(license_type_id_prefixed(ts[0])) by {
        reveal_strlit("qa-qfma:securities-broker");
        reveal_strlit("qa-qfma");
        reveal_strlit(":");
        assert(ts[0].license_type_id.subrange(0, (ts[0].regulator_id + ":"@).len() as int) =~= ts[0].regulator_id + ":"@);
    }
    assert(license_type_id_prefixed(ts[1])) by {
        reveal_strlit("qa-qfma:investment-manager");
        reveal_strlit("qa-qfma");
        reveal_strlit(":");
        assert(ts[1].license_type_id.subrange(0, (ts[1].regulator_id + ":"@).len() as int) =~= ts[1].regulator_id + ":"@);
    }
    assert(license_type_id_prefixed(ts[2])) by {
        reveal_strlit("qa-qfma:fund-administrator");
        reveal_strlit("qa-qfma");
        reveal_strlit(":");
        assert(ts[2].license_type_id.subrange(0, (ts[2].regulator_id + ":"@).len() as int) =~= ts[2].regulator_id + ":"@);
    }
    assert(license_type_id_prefixed(ts[3])) by {
        reveal_strlit("qa-qfma:market-making");
        reveal_strlit("qa-qfma");
        reveal_strlit(":");
        assert(ts[3].license_type_id.subrange(0, (ts[3].regulator_id + ":"@).len() as int) =~= ts[3].regulator_id + ":"@);
    }
    assert(license_type_id_prefixed(ts[4])) by {
        reveal_strlit("qa-qfma:custodian");
        reveal_strlit("qa-qfma");
        reveal_strlit(":");
        assert(ts[4].license_type_id.subrange(0, (ts[4].regulator_id + ":"@).len() as int) =~= ts[4].regulator_id + ":"@);
    }
    assert(prefixed_each(ts)) by {
        reveal_with_fuel(prefixed_each, 6);
    }
    lemma_prefixed_each(ts);
}

/// Each licence-type identifier of `qfcra_license_types` starts with its regulator's
/// identifier and a colon.
proof fn lemma_qfcra_license_types_prefixed()
    ensures
        license_type_ids_prefixed(spec_qfcra_license_types()),
{
    let ts = spec_qfcra_license_types();
    assert(license_type_id_prefixed(ts[0])) by {
        reveal_strlit("qa-qfc-ra:banking-business");
        reveal_strlit("qa-qfc-ra");
        reveal_strlit(":");
        assert(ts[0].license_type_id.subrange(0, (ts[0].regulator_id + ":"@).len() as int) =~= ts[0].regulator_id + ":"@);
    }
    assert(license_type_id_prefixed(ts[1])) by {
        reveal_strlit("qa-qfc-ra:insurance-general");
        reveal_strlit("qa-qfc-ra");
        reveal_strlit(":");
        assert(ts[1].license_type_id.subrange(0, (ts[1].regulator_id + ":"@).len() as int) =~= ts[1].regulator_id + ":"@);
    }
    assert(license_type_id_prefixed(ts[2])) by {
        reveal_strlit("qa-qfc-ra:insurance-long-term");
        reveal_strlit("qa-qfc-ra");
        reveal_strlit(":");
        assert(ts[2].license_type_id.subrange(0, (ts[2].regulator_id + ":"@).len() as int) =~= ts[2].regulator_id + ":"@);
    }
    assert(license_type_id_prefixed(ts[3])) by {
        reveal_strlit("qa-qfc-ra:insurance-mediation");
        reveal_strlit("qa-qfc-ra");
        reveal_strlit(":");
        assert(ts[3].license_type_id.subrange(0, (ts[3].regulator_id + ":"@).len() as int) =~= ts[3].regulator_id + ":"@);
    }
    assert(license_type_id_prefixed(ts[4])) by {
        reveal_strlit("qa-qfc-ra:investment-management");
        reveal_strlit("qa-qfc-ra");
        reveal_strlit(":");
        assert(ts[4].license_type_id.subrange(0, (ts[4].regulator_id + ":"@).len() as int) =~= ts[4].regulator_id + ":"@);
    }
    assert(license_type_id_prefixed(ts[5])) by {
        reveal_strlit("qa-qfc-ra:advisory-services");
        reveal_strlit("qa-qfc-ra");
        reveal_strlit(":");
        assert(ts[5].license_type_id.subrange(0, (ts[5].regulator_id + ":"@).len() as int) =~= ts[5].regulator_id + ":"@);
    }
    assert(license_type_id_prefixed(ts[6])) by {
        reveal_strlit("qa-qfc-ra:fund-administration");
        reveal_strlit("qa-qfc-ra");
        reveal_strlit(":");
        assert(ts[6].license_type_id.subrange(0, (ts[6].regulator_id + ":"@).len() as int) =~= ts[6].regulator_id + ":"@);
    }
    assert(license_type_id_prefixed(ts[7])) by {
        reveal_strlit("qa-qfc-ra:trust-services");
        reveal_strlit("qa-qfc-ra");
        reveal_strlit(":");
        assert(ts[7].license_type_id.subrange(0, (ts[7].regulator_id + ":"@).len() as int) =~= ts[7].regulator_id + ":"@);
    }
    assert(license_type_id_prefixed(ts[8])) by {
        reveal_strlit("qa-qfc-ra:money-transmission");
        reveal_strlit("qa-qfc-ra");
        reveal_strlit(":");
        assert(ts[8].license_type_id.subrange(0, (ts[8].regulator_id + ":"@).len() as int) =~= ts[8].regulator_id + ":"@);
    }
    assert(license_type_id_prefixed(ts[9])) by {
        reveal_strlit("qa-qfc-ra:digital-asset-services");
        reveal_strlit("qa-qfc-ra");
        reveal_strlit(":");
        assert(ts[9].license_type_id.subrange(0, (ts[9].regulator_id + ":"@).len() as int) =~= ts[9].regulator_id + ":"@);
    }
    assert(license_type_id_prefixed(ts[10])) by {
        reveal_strlit("qa-qfc-ra:credit-rating-agency");
        reveal_strlit("qa-qfc-ra");
        reveal_strlit(":");
        assert(ts[10].license_type_id.subrange(0, (ts[10].regulator_id + ":"@).len() as int) =~= ts[10].regulator_id + ":"@);
    }
    assert(prefixed_each(ts)) by {
        reveal_with_fuel(prefixed_each, 12);
    }
    lemma_prefixed_each(ts);
}

/// Each licence-type identifier of `qfc_auth_license_types` starts with its regulator's
/// identifier and a colon.
proof fn lemma_qfc_auth_license_types_prefixed()
    ensures
        license_type_ids_prefixed(spec_qfc_auth_license_types()),
{
    let ts = spec_qfc_auth_license_types();
    assert(license_type_id_prefixed(ts[0])) by {
        reveal_strlit("qa-qfc-auth:qfc-company");
        reveal_strlit("qa-qfc-auth");
        reveal_strlit(":");
        assert(ts[0].license_type_id.subrange(0, (ts[0].regulator_id + ":"@).len() as int) =~= ts[0].regulator_id + ":"@);
    }
    assert(license_type_id_prefixed(ts[1])) by {
        reveal_strlit("qa-qfc-auth:qfc-llc");
        reveal_strlit("qa-qfc-auth");
        reveal_strlit(":");
        assert(ts[1].license_type_id.subrange(0, (ts[1].regulator_id + ":"@).len() as int) =~= ts[1].regulator_id + ":"@);
    }
    assert(license_type_id_prefixed(ts[2])) by {
        reveal_strlit("qa-qfc-auth:qfc-branch");
        reveal_strlit("qa-qfc-auth");
        reveal_strlit(":");
        assert(ts[2].license_type_id.subrange(0, (ts[2].regulator_id + ":"@).len() as int) =~= ts[2].regulator_id + ":"@);
    }
    assert(license_type_id_prefixed(ts[3])) by {
        reveal_strlit("qa-qfc-auth:qfc-partnership");
        reveal_strlit("qa-qfc-auth");
        reveal_strlit(":");
        assert(ts[3].license_type_id.subrange(0, (ts[3].regulator_id + ":"@).len() as int) =~= ts[3].regulator_id + ":"@);
    }
    assert(license_type_id_prefixed(ts[4])) by {
        reveal_strlit("qa-qfc-auth:qfc-spv");
        reveal_strlit("qa-qfc-auth");
        reveal_strlit(":");
        assert(ts[4].license_type_id.subrange(0, (ts[4].regulator_id + ":"@).len() as int) =~= ts[4].regulator_id + ":"@);
    }
    assert(license_type_id_prefixed(ts[5])) by {
        reveal_strlit("qa-qfc-auth:qfc-foundation");
        reveal_strlit("qa-qfc-auth");
        reveal_strlit(":");
        assert(ts[5].license_type_id.subrange(0, (ts[5].regulator_id + ":"@).len() as int) =~= ts[5].regulator_id + ":"@);
    }
    assert(prefixed_each(ts)) by {
        reveal_with_fuel(prefixed_each, 7);
    }
    lemma_prefixed_each(ts);
}

/// Every licence-type identifier of the Qatari catalog starts with the
/// identifier of the regulator that grants it, followed by a colon.
pub proof fn lemma_qatar_license_types_prefixed()
    ensures
        license_type_ids_prefixed(spec_qatar_license_types()),
{
    lemma_qcb_license_types_prefixed();
    lemma_qfma_license_types_prefixed();
    lemma_qfcra_license_types_prefixed();
    lemma_qfc_auth_license_types_prefixed();
    lemma_prefixed_append(spec_qcb_license_types(), spec_qfma_license_types());
    lemma_prefixed_append(spec_qcb_license_types() + spec_qfma_license_types(), spec_qfcra_license_types());
    lemma_prefixed_append(spec_qcb_license_types() + spec_qfma_license_types() + spec_qfcra_license_types(), spec_qfc_auth_license_types());
    assert(spec_qatar_license_types() =~= spec_qcb_license_types() + spec_qfma_license_types() + spec_qfcra_license_types() + spec_qfc_auth_license_types());
}

} // verus!
