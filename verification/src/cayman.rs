//! # Cayman Islands Regulatory Authority License Mappings
//!
//! Cayman Islands-specific license type definitions covering the three major
//! regulatory authorities:
//!
//! | Authority | Full Name | Domain |
//! |-----------|-----------|--------|
//! | **CIMA** | Cayman Islands Monetary Authority | Financial, Insurance, Securities, Money Services |
//! | **ROC** | Registrar of Companies | Corporate Registration |
//! | **DITC** | Department of International Tax Cooperation | Tax Compliance |
//!
//! Each authority is represented as a [`LicensepackRegulator`] with its
//! associated [`LicenseTypeDefinition`] entries. These definitions provide
//! the Cayman Islands-specific license taxonomy used by the compliance tensor's
//! LICENSING domain evaluation.

use vstd::prelude::*;

use crate::license::{
    license_type, license_type_view, license_types_view, regulator, regulator_view,
    regulators_view, LicenseTypeDefinition, LicenseTypeView, LicensepackRegulator,
    RegulatorView, RequirementValue,
    lemma_license_types_view_append, lemma_regulators_view_append,
};

use crate::catalog::{
    apart_each, id_fresh_each, ids_distinct_each, lemma_apart_each, lemma_ids_apart_append, lemma_ids_distinct_append, lemma_ids_distinct_each, license_type_ids_apart, license_type_ids_distinct, complete_each, every_regulator_grants, granted_by_each, granted_by_listed_regulators, grants_each, grants_some, in_jurisdiction_each, lemma_complete_append, lemma_complete_each, lemma_every_combine, lemma_granted_by_each, lemma_granted_combine, lemma_grants_each, lemma_in_jurisdiction_append, lemma_in_jurisdiction_each, license_types_complete, regulators_in_jurisdiction,
};

use crate::catalog::{
    lemma_prefixed_append, lemma_prefixed_each, license_type_id_prefixed, license_type_ids_prefixed,
    prefixed_each,
};

verus! {

/// The view of `cima_regulator`.
pub open spec fn spec_cima_regulator() -> RegulatorView {
    regulator_view(
        "ky-cima"@,
        "Cayman Islands Monetary Authority"@,
        "ky"@,
        Some("https://www.cima.ky"@),
        seq!["license_search"@, "entity_registry"@],
    )
}

/// CIMA regulator profile.
pub fn cima_regulator() -> (r: LicensepackRegulator)
    ensures
        r@ == spec_cima_regulator(),
        r@ == regulator_view(
            "ky-cima"@,
            "Cayman Islands Monetary Authority"@,
            "ky"@,
            Some("https://www.cima.ky"@),
            seq!["license_search"@, "entity_registry"@],
        ),
{
    let r =
        regulator(
            "ky-cima",
            "Cayman Islands Monetary Authority",
            "ky",
            Some("https://www.cima.ky"),
            &["license_search", "entity_registry"],
        );
    proof {
        assert(r@ =~~= spec_cima_regulator());
    }
    r
}

/// The view of `cima_license_types`.
pub open spec fn spec_cima_license_types() -> Seq<LicenseTypeView> {
    seq![
        license_type_view(
            "ky-cima:banking-class-a"@,
            "Class A Banking License (Unrestricted)"@,
            "Unrestricted banking license to conduct domestic and international banking business under the Banks and Trust Companies Act"@,
            "ky-cima"@,
            Some("financial"@),
            seq!["deposit_taking"@, "lending"@, "foreign_exchange"@, "trade_finance"@, "domestic_banking"@, "international_banking"@],
            seq![],
            seq![("KYD"@, "30500"@)],
            seq![("KYD"@, "60000"@)],
            None,
        ),
        license_type_view(
            "ky-cima:banking-class-b"@,
            "Class B Banking License (Restricted)"@,
            "Restricted banking license for international banking business only, not permitted to take deposits from Cayman residents"@,
            "ky-cima"@,
            Some("financial"@),
            seq!["international_deposit_taking"@, "international_lending"@, "foreign_exchange"@, "trade_finance"@],
            seq![],
            seq![("KYD"@, "12200"@)],
            seq![("KYD"@, "36600"@)],
            None,
        ),
        license_type_view(
            "ky-cima:insurance-class-a"@,
            "Class A Insurance License (Domestic)"@,
            "License to carry on domestic insurance business in the Cayman Islands under the Insurance Act"@,
            "ky-cima"@,
            Some("insurance"@),
            seq!["domestic_insurance"@, "general_insurance"@, "life_insurance"@],
            seq![],
            seq![("KYD"@, "6100"@)],
            seq![("KYD"@, "6100"@)],
            Some(1i32),
        ),
        license_type_view(
            "ky-cima:insurance-class-b"@,
            "Class B Insurance License (External/Captive)"@,
            "License to carry on external or captive insurance business"@,
            "ky-cima"@,
            Some("insurance"@),
            seq!["captive_insurance"@, "external_insurance"@, "reinsurance_captive"@],
            seq![],
            seq![("KYD"@, "6100"@)],
            seq![("KYD"@, "9150"@)],
            Some(1i32),
        ),
        license_type_view(
            "ky-cima:insurance-class-c"@,
            "Class C Insurance License (Reinsurer)"@,
            "License to carry on reinsurance business"@,
            "ky-cima"@,
            Some("insurance"@),
            seq!["reinsurance"@, "retrocession"@],
            seq![],
            seq![("KYD"@, "6100"@)],
            seq![("KYD"@, "9150"@)],
            Some(1i32),
        ),
        license_type_view(
            "ky-cima:insurance-manager"@,
            "Insurance Manager License"@,
            "License to act as an insurance manager in the Cayman Islands"@,
            "ky-cima"@,
            Some("insurance"@),
            seq!["insurance_management"@, "captive_management"@],
            seq![],
            seq![("KYD"@, "6100"@)],
            seq![("KYD"@, "6100"@)],
            Some(1i32),
        ),
        license_type_view(
            "ky-cima:insurance-broker"@,
            "Insurance Broker License"@,
            "License to act as an insurance broker"@,
            "ky-cima"@,
            Some("insurance"@),
            seq!["insurance_brokerage"@, "insurance_placement"@],
            seq![],
            seq![("KYD"@, "3050"@)],
            seq![("KYD"@, "3050"@)],
            Some(1i32),
        ),
        license_type_view(
            "ky-cima:insurance-agent"@,
            "Insurance Agent License"@,
            "License to act as an insurance agent"@,
            "ky-cima"@,
            Some("insurance"@),
            seq!["insurance_solicitation"@, "insurance_sales"@],
            seq![],
            seq![("KYD"@, "1525"@)],
            seq![("KYD"@, "1525"@)],
            Some(1i32),
        ),
        license_type_view(
            "ky-cima:securities"@,
            "Securities Investment Business License"@,
            "License to carry on securities investment business under the Securities Investment Business Act"@,
            "ky-cima"@,
            Some("financial"@),
            seq!["securities_dealing"@, "securities_brokerage"@, "portfolio_management"@, "investment_advisory"@],
            seq![],
            seq![("KYD"@, "6100"@)],
            seq![("KYD"@, "6100"@)],
            Some(1i32),
        ),
        license_type_view(
            "ky-cima:fund-administration"@,
            "Fund Administration License"@,
            "License to provide fund administration services"@,
            "ky-cima"@,
            Some("financial"@),
            seq!["fund_administration"@, "nav_calculation"@, "investor_servicing"@],
            seq![],
            seq![("KYD"@, "6100"@)],
            seq![("KYD"@, "6100"@)],
            Some(1i32),
        ),
        license_type_view(
            "ky-cima:mutual-fund"@,
            "Mutual Fund Registration"@,
            "Registration of a mutual fund under the Mutual Funds Act"@,
            "ky-cima"@,
            Some("financial"@),
            seq!["collective_investment"@, "fund_operations"@],
            seq![],
            seq![("KYD"@, "3050"@)],
            seq![("KYD"@, "4270"@)],
            None,
        ),
        license_type_view(
            "ky-cima:securities-vasp"@,
            "Virtual Asset Service Provider (Securities) License"@,
            "License to provide virtual asset services under the Virtual Asset (Service Providers) Act"@,
            "ky-cima"@,
            Some("financial"@),
            seq!["virtual_asset_exchange"@, "virtual_asset_custody"@, "virtual_asset_transfer"@],
            seq![],
            seq![("KYD"@, "6100"@)],
            seq![("KYD"@, "6100"@)],
            Some(1i32),
        ),
        license_type_view(
            "ky-cima:money-transmission"@,
            "Money Transmission License"@,
            "License to operate a money transmission or remittance business under the Money Services Act"@,
            "ky-cima"@,
            Some("financial"@),
            seq!["money_transmission"@, "remittance"@, "payment_services"@],
            seq![],
            seq![("KYD"@, "3050"@)],
            seq![("KYD"@, "3050"@)],
            Some(1i32),
        ),
        license_type_view(
            "ky-cima:currency-exchange"@,
            "Currency Exchange License"@,
            "License to operate a currency exchange business"@,
            "ky-cima"@,
            Some("financial"@),
            seq!["currency_exchange"@, "foreign_exchange"@],
            seq![],
            seq![("KYD"@, "3050"@)],
            seq![("KYD"@, "3050"@)],
            Some(1i32),
        ),
        license_type_view(
            "ky-cima:trust-license"@,
            "Trust License"@,
            "License to carry on trust business under the Banks and Trust Companies Act"@,
            "ky-cima"@,
            Some("financial"@),
            seq!["trust_administration"@, "trust_services"@, "fiduciary_services"@],
            seq![],
            seq![("KYD"@, "12200"@)],
            seq![("KYD"@, "12200"@)],
            None,
        ),
        license_type_view(
            "ky-cima:company-management"@,
            "Company Management License"@,
            "License to provide company management services under the Companies Management Act"@,
            "ky-cima"@,
            Some("corporate"@),
            seq!["company_formation"@, "registered_office_services"@, "corporate_administration"@, "directorship_services"@],
            seq![],
            seq![("KYD"@, "6100"@)],
            seq![("KYD"@, "6100"@)],
            Some(1i32),
        ),
        license_type_view(
            "ky-cima:cooperative-credit-union"@,
            "Cooperative Credit Union License"@,
            "License to operate a cooperative credit union under the Cooperative Societies Act"@,
            "ky-cima"@,
            Some("financial"@),
            seq!["member_deposit_taking"@, "member_lending"@, "cooperative_services"@],
            seq![],
            seq![],
            seq![],
            None,
        ),
        license_type_view(
            "ky-cima:vasp"@,
            "Virtual Asset Service Provider (VASP) License"@,
            "Registration as a virtual asset service provider under the Virtual Asset (Service Providers) Act"@,
            "ky-cima"@,
            Some("financial"@),
            seq!["virtual_asset_exchange"@, "virtual_asset_custody"@, "virtual_asset_transfer"@, "virtual_asset_issuance"@],
            seq![],
            seq![("KYD"@, "6100"@)],
            seq![("KYD"@, "6100"@)],
            Some(1i32),
        )
    ]
}

/// CIMA license type definitions.
pub fn cima_license_types() -> (r: Vec<LicenseTypeDefinition>)
    ensures
        license_types_view(r@) == spec_cima_license_types(),
        license_types_view(r@) == seq![
            license_type_view(
                "ky-cima:banking-class-a"@,
                "Class A Banking License (Unrestricted)"@,
                "Unrestricted banking license to conduct domestic and international banking business under the Banks and Trust Companies Act"@,
                "ky-cima"@,
                Some("financial"@),
                seq!["deposit_taking"@, "lending"@, "foreign_exchange"@, "trade_finance"@, "domestic_banking"@, "international_banking"@],
                seq![],
                seq![("KYD"@, "30500"@)],
                seq![("KYD"@, "60000"@)],
                None,
            ),
            license_type_view(
                "ky-cima:banking-class-b"@,
                "Class B Banking License (Restricted)"@,
                "Restricted banking license for international banking business only, not permitted to take deposits from Cayman residents"@,
                "ky-cima"@,
                Some("financial"@),
                seq!["international_deposit_taking"@, "international_lending"@, "foreign_exchange"@, "trade_finance"@],
                seq![],
                seq![("KYD"@, "12200"@)],
                seq![("KYD"@, "36600"@)],
                None,
            ),
            license_type_view(
                "ky-cima:insurance-class-a"@,
                "Class A Insurance License (Domestic)"@,
                "License to carry on domestic insurance business in the Cayman Islands under the Insurance Act"@,
                "ky-cima"@,
                Some("insurance"@),
                seq!["domestic_insurance"@, "general_insurance"@, "life_insurance"@],
                seq![],
                seq![("KYD"@, "6100"@)],
                seq![("KYD"@, "6100"@)],
                Some(1i32),
            ),
            license_type_view(
                "ky-cima:insurance-class-b"@,
                "Class B Insurance License (External/Captive)"@,
                "License to carry on external or captive insurance business"@,
                "ky-cima"@,
                Some("insurance"@),
                seq!["captive_insurance"@, "external_insurance"@, "reinsurance_captive"@],
                seq![],
                seq![("KYD"@, "6100"@)],
                seq![("KYD"@, "9150"@)],
                Some(1i32),
            ),
            license_type_view(
                "ky-cima:insurance-class-c"@,
                "Class C Insurance License (Reinsurer)"@,
                "License to carry on reinsurance business"@,
                "ky-cima"@,
                Some("insurance"@),
                seq!["reinsurance"@, "retrocession"@],
                seq![],
                seq![("KYD"@, "6100"@)],
                seq![("KYD"@, "9150"@)],
                Some(1i32),
            ),
            license_type_view(
                "ky-cima:insurance-manager"@,
                "Insurance Manager License"@,
                "License to act as an insurance manager in the Cayman Islands"@,
                "ky-cima"@,
                Some("insurance"@),
                seq!["insurance_management"@, "captive_management"@],
                seq![],
                seq![("KYD"@, "6100"@)],
                seq![("KYD"@, "6100"@)],
                Some(1i32),
            ),
            license_type_view(
                "ky-cima:insurance-broker"@,
                "Insurance Broker License"@,
                "License to act as an insurance broker"@,
                "ky-cima"@,
                Some("insurance"@),
                seq!["insurance_brokerage"@, "insurance_placement"@],
                seq![],
                seq![("KYD"@, "3050"@)],
                seq![("KYD"@, "3050"@)],
                Some(1i32),
            ),
            license_type_view(
                "ky-cima:insurance-agent"@,
                "Insurance Agent License"@,
                "License to act as an insurance agent"@,
                "ky-cima"@,
                Some("insurance"@),
                seq!["insurance_solicitation"@, "insurance_sales"@],
                seq![],
                seq![("KYD"@, "1525"@)],
                seq![("KYD"@, "1525"@)],
                Some(1i32),
            ),
            license_type_view(
                "ky-cima:securities"@,
                "Securities Investment Business License"@,
                "License to carry on securities investment business under the Securities Investment Business Act"@,
                "ky-cima"@,
                Some("financial"@),
                seq!["securities_dealing"@, "securities_brokerage"@, "portfolio_management"@, "investment_advisory"@],
                seq![],
                seq![("KYD"@, "6100"@)],
                seq![("KYD"@, "6100"@)],
                Some(1i32),
            ),
            license_type_view(
                "ky-cima:fund-administration"@,
                "Fund Administration License"@,
                "License to provide fund administration services"@,
                "ky-cima"@,
                Some("financial"@),
                seq!["fund_administration"@, "nav_calculation"@, "investor_servicing"@],
                seq![],
                seq![("KYD"@, "6100"@)],
                seq![("KYD"@, "6100"@)],
                Some(1i32),
            ),
            license_type_view(
                "ky-cima:mutual-fund"@,
                "Mutual Fund Registration"@,
                "Registration of a mutual fund under the Mutual Funds Act"@,
                "ky-cima"@,
                Some("financial"@),
                seq!["collective_investment"@, "fund_operations"@],
                seq![],
                seq![("KYD"@, "3050"@)],
                seq![("KYD"@, "4270"@)],
                None,
            ),
            license_type_view(
                "ky-cima:securities-vasp"@,
                "Virtual Asset Service Provider (Securities) License"@,
                "License to provide virtual asset services under the Virtual Asset (Service Providers) Act"@,
                "ky-cima"@,
                Some("financial"@),
                seq!["virtual_asset_exchange"@, "virtual_asset_custody"@, "virtual_asset_transfer"@],
                seq![],
                seq![("KYD"@, "6100"@)],
                seq![("KYD"@, "6100"@)],
                Some(1i32),
            ),
            license_type_view(
                "ky-cima:money-transmission"@,
                "Money Transmission License"@,
                "License to operate a money transmission or remittance business under the Money Services Act"@,
                "ky-cima"@,
                Some("financial"@),
                seq!["money_transmission"@, "remittance"@, "payment_services"@],
                seq![],
                seq![("KYD"@, "3050"@)],
                seq![("KYD"@, "3050"@)],
                Some(1i32),
            ),
            license_type_view(
                "ky-cima:currency-exchange"@,
                "Currency Exchange License"@,
                "License to operate a currency exchange business"@,
                "ky-cima"@,
                Some("financial"@),
                seq!["currency_exchange"@, "foreign_exchange"@],
                seq![],
                seq![("KYD"@, "3050"@)],
                seq![("KYD"@, "3050"@)],
                Some(1i32),
            ),
            license_type_view(
                "ky-cima:trust-license"@,
                "Trust License"@,
                "License to carry on trust business under the Banks and Trust Companies Act"@,
                "ky-cima"@,
                Some("financial"@),
                seq!["trust_administration"@, "trust_services"@, "fiduciary_services"@],
                seq![],
                seq![("KYD"@, "12200"@)],
                seq![("KYD"@, "12200"@)],
                None,
            ),
            license_type_view(
                "ky-cima:company-management"@,
                "Company Management License"@,
                "License to provide company management services under the Companies Management Act"@,
                "ky-cima"@,
                Some("corporate"@),
                seq!["company_formation"@, "registered_office_services"@, "corporate_administration"@, "directorship_services"@],
                seq![],
                seq![("KYD"@, "6100"@)],
                seq![("KYD"@, "6100"@)],
                Some(1i32),
            ),
            license_type_view(
                "ky-cima:cooperative-credit-union"@,
                "Cooperative Credit Union License"@,
                "License to operate a cooperative credit union under the Cooperative Societies Act"@,
                "ky-cima"@,
                Some("financial"@),
                seq!["member_deposit_taking"@, "member_lending"@, "cooperative_services"@],
                seq![],
                seq![],
                seq![],
                None,
            ),
            license_type_view(
                "ky-cima:vasp"@,
                "Virtual Asset Service Provider (VASP) License"@,
                "Registration as a virtual asset service provider under the Virtual Asset (Service Providers) Act"@,
                "ky-cima"@,
                Some("financial"@),
                seq!["virtual_asset_exchange"@, "virtual_asset_custody"@, "virtual_asset_transfer"@, "virtual_asset_issuance"@],
                seq![],
                seq![("KYD"@, "6100"@)],
                seq![("KYD"@, "6100"@)],
                Some(1i32),
            )
        ],
{
    let r = vec![
        license_type(
            "ky-cima:banking-class-a",
            "Class A Banking License (Unrestricted)",
            "Unrestricted banking license to conduct domestic and international banking business under the Banks and Trust Companies Act",
            "ky-cima",
            Some("financial"),
            &["deposit_taking", "lending", "foreign_exchange", "trade_finance", "domestic_banking", "international_banking"],
            &[],
            &[("KYD", "30500")],
            &[("KYD", "60000")],
            None,
        ),
        license_type(
            "ky-cima:banking-class-b",
            "Class B Banking License (Restricted)",
            "Restricted banking license for international banking business only, not permitted to take deposits from Cayman residents",
            "ky-cima",
            Some("financial"),
            &["international_deposit_taking", "international_lending", "foreign_exchange", "trade_finance"],
            &[],
            &[("KYD", "12200")],
            &[("KYD", "36600")],
            None,
        ),
        license_type(
            "ky-cima:insurance-class-a",
            "Class A Insurance License (Domestic)",
            "License to carry on domestic insurance business in the Cayman Islands under the Insurance Act",
            "ky-cima",
            Some("insurance"),
            &["domestic_insurance", "general_insurance", "life_insurance"],
            &[],
            &[("KYD", "6100")],
            &[("KYD", "6100")],
            Some(1i32),
        ),
        license_type(
            "ky-cima:insurance-class-b",
            "Class B Insurance License (External/Captive)",
            "License to carry on external or captive insurance business",
            "ky-cima",
            Some("insurance"),
            &["captive_insurance", "external_insurance", "reinsurance_captive"],
            &[],
            &[("KYD", "6100")],
            &[("KYD", "9150")],
            Some(1i32),
        ),
        license_type(
            "ky-cima:insurance-class-c",
            "Class C Insurance License (Reinsurer)",
            "License to carry on reinsurance business",
            "ky-cima",
            Some("insurance"),
            &["reinsurance", "retrocession"],
            &[],
            &[("KYD", "6100")],
            &[("KYD", "9150")],
            Some(1i32),
        ),
        license_type(
            "ky-cima:insurance-manager",
            "Insurance Manager License",
            "License to act as an insurance manager in the Cayman Islands",
            "ky-cima",
            Some("insurance"),
            &["insurance_management", "captive_management"],
            &[],
            &[("KYD", "6100")],
            &[("KYD", "6100")],
            Some(1i32),
        ),
        license_type(
            "ky-cima:insurance-broker",
            "Insurance Broker License",
            "License to act as an insurance broker",
            "ky-cima",
            Some("insurance"),
            &["insurance_brokerage", "insurance_placement"],
            &[],
            &[("KYD", "3050")],
            &[("KYD", "3050")],
            Some(1i32),
        ),
        license_type(
            "ky-cima:insurance-agent",
            "Insurance Agent License",
            "License to act as an insurance agent",
            "ky-cima",
            Some("insurance"),
            &["insurance_solicitation", "insurance_sales"],
            &[],
            &[("KYD", "1525")],
            &[("KYD", "1525")],
            Some(1i32),
        ),
        license_type(
            "ky-cima:securities",
            "Securities Investment Business License",
            "License to carry on securities investment business under the Securities Investment Business Act",
            "ky-cima",
            Some("financial"),
            &["securities_dealing", "securities_brokerage", "portfolio_management", "investment_advisory"],
            &[],
            &[("KYD", "6100")],
            &[("KYD", "6100")],
            Some(1i32),
        ),
        license_type(
            "ky-cima:fund-administration",
            "Fund Administration License",
            "License to provide fund administration services",
            "ky-cima",
            Some("financial"),
            &["fund_administration", "nav_calculation", "investor_servicing"],
            &[],
            &[("KYD", "6100")],
            &[("KYD", "6100")],
            Some(1i32),
        ),
        license_type(
            "ky-cima:mutual-fund",
            "Mutual Fund Registration",
            "Registration of a mutual fund under the Mutual Funds Act",
            "ky-cima",
            Some("financial"),
            &["collective_investment", "fund_operations"],
            &[],
            &[("KYD", "3050")],
            &[("KYD", "4270")],
            None,
        ),
        license_type(
            "ky-cima:securities-vasp",
            "Virtual Asset Service Provider (Securities) License",
            "License to provide virtual asset services under the Virtual Asset (Service Providers) Act",
            "ky-cima",
            Some("financial"),
            &["virtual_asset_exchange", "virtual_asset_custody", "virtual_asset_transfer"],
            &[],
            &[("KYD", "6100")],
            &[("KYD", "6100")],
            Some(1i32),
        ),
        license_type(
            "ky-cima:money-transmission",
            "Money Transmission License",
            "License to operate a money transmission or remittance business under the Money Services Act",
            "ky-cima",
            Some("financial"),
            &["money_transmission", "remittance", "payment_services"],
            &[],
            &[("KYD", "3050")],
            &[("KYD", "3050")],
            Some(1i32),
        ),
        license_type(
            "ky-cima:currency-exchange",
            "Currency Exchange License",
            "License to operate a currency exchange business",
            "ky-cima",
            Some("financial"),
            &["currency_exchange", "foreign_exchange"],
            &[],
            &[("KYD", "3050")],
            &[("KYD", "3050")],
            Some(1i32),
        ),
        license_type(
            "ky-cima:trust-license",
            "Trust License",
            "License to carry on trust business under the Banks and Trust Companies Act",
            "ky-cima",
            Some("financial"),
            &["trust_administration", "trust_services", "fiduciary_services"],
            &[],
            &[("KYD", "12200")],
            &[("KYD", "12200")],
            None,
        ),
        license_type(
            "ky-cima:company-management",
            "Company Management License",
            "License to provide company management services under the Companies Management Act",
            "ky-cima",
            Some("corporate"),
            &["company_formation", "registered_office_services", "corporate_administration", "directorship_services"],
            &[],
            &[("KYD", "6100")],
            &[("KYD", "6100")],
            Some(1i32),
        ),
        license_type(
            "ky-cima:cooperative-credit-union",
            "Cooperative Credit Union License",
            "License to operate a cooperative credit union under the Cooperative Societies Act",
            "ky-cima",
            Some("financial"),
            &["member_deposit_taking", "member_lending", "cooperative_services"],
            &[],
            &[],
            &[],
            None,
        ),
        license_type(
            "ky-cima:vasp",
            "Virtual Asset Service Provider (VASP) License",
            "Registration as a virtual asset service provider under the Virtual Asset (Service Providers) Act",
            "ky-cima",
            Some("financial"),
            &["virtual_asset_exchange", "virtual_asset_custody", "virtual_asset_transfer", "virtual_asset_issuance"],
            &[],
            &[("KYD", "6100")],
            &[("KYD", "6100")],
            Some(1i32),
        )
    ];
    proof {
        assert(license_types_view(r@) =~~= spec_cima_license_types());
    }
    r
}

/// The view of `roc_regulator`.
pub open spec fn spec_roc_regulator() -> RegulatorView {
    regulator_view(
        "ky-roc"@,
        "Cayman Islands Registrar of Companies"@,
        "ky"@,
        Some("https://www.ciregistry.ky"@),
        seq!["company_search"@],
    )
}

/// Cayman Islands Registrar of Companies regulator profile.
pub fn roc_regulator() -> (r: LicensepackRegulator)
    ensures
        r@ == spec_roc_regulator(),
        r@ == regulator_view(
            "ky-roc"@,
            "Cayman Islands Registrar of Companies"@,
            "ky"@,
            Some("https://www.ciregistry.ky"@),
            seq!["company_search"@],
        ),
{
    let r =
        regulator(
            "ky-roc",
            "Cayman Islands Registrar of Companies",
            "ky",
            Some("https://www.ciregistry.ky"),
            &["company_search"],
        );
    proof {
        assert(r@ =~~= spec_roc_regulator());
    }
    r
}

/// The view of `roc_license_types`.
pub open spec fn spec_roc_license_types() -> Seq<LicenseTypeView> {
    seq![
        license_type_view(
            "ky-roc:exempt-company"@,
            "Exempt Company Registration"@,
            "Registration of an exempted company under the Companies Act"@,
            "ky-roc"@,
            Some("corporate"@),
            seq!["business_operations"@, "holding_company"@, "international_trading"@],
            seq![],
            seq![("KYD"@, "732"@)],
            seq![("KYD"@, "854"@)],
            None,
        ),
        license_type_view(
            "ky-roc:ordinary-company"@,
            "Ordinary Company Registration"@,
            "Registration of an ordinary (resident) company under the Companies Act"@,
            "ky-roc"@,
            Some("corporate"@),
            seq!["domestic_business_operations"@, "local_trading"@],
            seq![],
            seq![("KYD"@, "366"@)],
            seq![("KYD"@, "427"@)],
            None,
        ),
        license_type_view(
            "ky-roc:foreign-company"@,
            "Foreign Company Registration"@,
            "Registration of a foreign company to conduct business in the Cayman Islands"@,
            "ky-roc"@,
            Some("corporate"@),
            seq!["foreign_business_operations"@],
            seq![],
            seq![("KYD"@, "732"@)],
            seq![("KYD"@, "854"@)],
            None,
        ),
        license_type_view(
            "ky-roc:llc"@,
            "Limited Liability Company Registration"@,
            "Registration of a limited liability company (LLC) under the LLC Act"@,
            "ky-roc"@,
            Some("corporate"@),
            seq!["business_operations"@, "holding_company"@],
            seq![],
            seq![("KYD"@, "732"@)],
            seq![("KYD"@, "854"@)],
            None,
        ),
        license_type_view(
            "ky-roc:foundation-company"@,
            "Foundation Company Registration"@,
            "Registration of a foundation company under the Foundation Companies Act"@,
            "ky-roc"@,
            Some("corporate"@),
            seq!["foundation_operations"@, "charitable_purposes"@, "asset_holding"@],
            seq![],
            seq![("KYD"@, "732"@)],
            seq![("KYD"@, "854"@)],
            None,
        ),
        license_type_view(
            "ky-roc:segregated-portfolio-company"@,
            "Segregated Portfolio Company Registration"@,
            "Registration of a segregated portfolio company (SPC) under the Companies Act"@,
            "ky-roc"@,
            Some("corporate"@),
            seq!["segregated_portfolio_operations"@, "fund_structuring"@, "insurance_structuring"@],
            seq![],
            seq![("KYD"@, "2439"@)],
            seq![("KYD"@, "2927"@)],
            None,
        )
    ]
}

/// ROC license type definitions (corporate registrations).
pub fn roc_license_types() -> (r: Vec<LicenseTypeDefinition>)
    ensures
        license_types_view(r@) == spec_roc_license_types(),
        license_types_view(r@) == seq![
            license_type_view(
                "ky-roc:exempt-company"@,
                "Exempt Company Registration"@,
                "Registration of an exempted company under the Companies Act"@,
                "ky-roc"@,
                Some("corporate"@),
                seq!["business_operations"@, "holding_company"@, "international_trading"@],
                seq![],
                seq![("KYD"@, "732"@)],
                seq![("KYD"@, "854"@)],
                None,
            ),
            license_type_view(
                "ky-roc:ordinary-company"@,
                "Ordinary Company Registration"@,
                "Registration of an ordinary (resident) company under the Companies Act"@,
                "ky-roc"@,
                Some("corporate"@),
                seq!["domestic_business_operations"@, "local_trading"@],
                seq![],
                seq![("KYD"@, "366"@)],
                seq![("KYD"@, "427"@)],
                None,
            ),
            license_type_view(
                "ky-roc:foreign-company"@,
                "Foreign Company Registration"@,
                "Registration of a foreign company to conduct business in the Cayman Islands"@,
                "ky-roc"@,
                Some("corporate"@),
                seq!["foreign_business_operations"@],
                seq![],
                seq![("KYD"@, "732"@)],
                seq![("KYD"@, "854"@)],
                None,
            ),
            license_type_view(
                "ky-roc:llc"@,
                "Limited Liability Company Registration"@,
                "Registration of a limited liability company (LLC) under the LLC Act"@,
                "ky-roc"@,
                Some("corporate"@),
                seq!["business_operations"@, "holding_company"@],
                seq![],
                seq![("KYD"@, "732"@)],
                seq![("KYD"@, "854"@)],
                None,
            ),
            license_type_view(
                "ky-roc:foundation-company"@,
                "Foundation Company Registration"@,
                "Registration of a foundation company under the Foundation Companies Act"@,
                "ky-roc"@,
                Some("corporate"@),
                seq!["foundation_operations"@, "charitable_purposes"@, "asset_holding"@],
                seq![],
                seq![("KYD"@, "732"@)],
                seq![("KYD"@, "854"@)],
                None,
            ),
            license_type_view(
                "ky-roc:segregated-portfolio-company"@,
                "Segregated Portfolio Company Registration"@,
                "Registration of a segregated portfolio company (SPC) under the Companies Act"@,
                "ky-roc"@,
                Some("corporate"@),
                seq!["segregated_portfolio_operations"@, "fund_structuring"@, "insurance_structuring"@],
                seq![],
                seq![("KYD"@, "2439"@)],
                seq![("KYD"@, "2927"@)],
                None,
            )
        ],
{
    let r = vec![
        license_type(
            "ky-roc:exempt-company",
            "Exempt Company Registration",
            "Registration of an exempted company under the Companies Act",
            "ky-roc",
            Some("corporate"),
            &["business_operations", "holding_company", "international_trading"],
            &[],
            &[("KYD", "732")],
            &[("KYD", "854")],
            None,
        ),
        license_type(
            "ky-roc:ordinary-company",
            "Ordinary Company Registration",
            "Registration of an ordinary (resident) company under the Companies Act",
            "ky-roc",
            Some("corporate"),
            &["domestic_business_operations", "local_trading"],
            &[],
            &[("KYD", "366")],
            &[("KYD", "427")],
            None,
        ),
        license_type(
            "ky-roc:foreign-company",
            "Foreign Company Registration",
            "Registration of a foreign company to conduct business in the Cayman Islands",
            "ky-roc",
            Some("corporate"),
            &["foreign_business_operations"],
            &[],
            &[("KYD", "732")],
            &[("KYD", "854")],
            None,
        ),
        license_type(
            "ky-roc:llc",
            "Limited Liability Company Registration",
            "Registration of a limited liability company (LLC) under the LLC Act",
            "ky-roc",
            Some("corporate"),
            &["business_operations", "holding_company"],
            &[],
            &[("KYD", "732")],
            &[("KYD", "854")],
            None,
        ),
        license_type(
            "ky-roc:foundation-company",
            "Foundation Company Registration",
            "Registration of a foundation company under the Foundation Companies Act",
            "ky-roc",
            Some("corporate"),
            &["foundation_operations", "charitable_purposes", "asset_holding"],
            &[],
            &[("KYD", "732")],
            &[("KYD", "854")],
            None,
        ),
        license_type(
            "ky-roc:segregated-portfolio-company",
            "Segregated Portfolio Company Registration",
            "Registration of a segregated portfolio company (SPC) under the Companies Act",
            "ky-roc",
            Some("corporate"),
            &["segregated_portfolio_operations", "fund_structuring", "insurance_structuring"],
            &[],
            &[("KYD", "2439")],
            &[("KYD", "2927")],
            None,
        )
    ];
    proof {
        assert(license_types_view(r@) =~~= spec_roc_license_types());
    }
    r
}

/// The view of `ditc_regulator`.
pub open spec fn spec_ditc_regulator() -> RegulatorView {
    regulator_view(
        "ky-ditc"@,
        "Department of International Tax Cooperation"@,
        "ky"@,
        Some("https://www.ditc.ky"@),
        seq!["compliance_status"@],
    )
}

/// DITC regulator profile.
pub fn ditc_regulator() -> (r: LicensepackRegulator)
    ensures
        r@ == spec_ditc_regulator(),
        r@ == regulator_view(
            "ky-ditc"@,
            "Department of International Tax Cooperation"@,
            "ky"@,
            Some("https://www.ditc.ky"@),
            seq!["compliance_status"@],
        ),
{
    let r =
        regulator(
            "ky-ditc",
            "Department of International Tax Cooperation",
            "ky",
            Some("https://www.ditc.ky"),
            &["compliance_status"],
        );
    proof {
        assert(r@ =~~= spec_ditc_regulator());
    }
    r
}

/// The view of `ditc_license_types`.
pub open spec fn spec_ditc_license_types() -> Seq<LicenseTypeView> {
    seq![
        license_type_view(
            "ky-ditc:crs-compliance"@,
            "CRS Compliance Registration"@,
            "Registration for Common Reporting Standard (CRS) compliance under the Tax Information Authority Act"@,
            "ky-ditc"@,
            Some("tax_compliance"@),
            seq!["crs_reporting"@, "automatic_exchange_of_information"@],
            seq![],
            seq![],
            seq![],
            None,
        ),
        license_type_view(
            "ky-ditc:fatca-compliance"@,
            "FATCA Compliance Registration"@,
            "Registration for Foreign Account Tax Compliance Act (FATCA) compliance under the Cayman-US IGA"@,
            "ky-ditc"@,
            Some("tax_compliance"@),
            seq!["fatca_reporting"@, "us_tax_information_exchange"@],
            seq![],
            seq![],
            seq![],
            None,
        )
    ]
}

/// DITC license type definitions (tax compliance registrations).
pub fn ditc_license_types() -> (r: Vec<LicenseTypeDefinition>)
    ensures
        license_types_view(r@) == spec_ditc_license_types(),
        license_types_view(r@) == seq![
            license_type_view(
                "ky-ditc:crs-compliance"@,
                "CRS Compliance Registration"@,
                "Registration for Common Reporting Standard (CRS) compliance under the Tax Information Authority Act"@,
                "ky-ditc"@,
                Some("tax_compliance"@),
                seq!["crs_reporting"@, "automatic_exchange_of_information"@],
                seq![],
                seq![],
                seq![],
                None,
            ),
            license_type_view(
                "ky-ditc:fatca-compliance"@,
                "FATCA Compliance Registration"@,
                "Registration for Foreign Account Tax Compliance Act (FATCA) compliance under the Cayman-US IGA"@,
                "ky-ditc"@,
                Some("tax_compliance"@),
                seq!["fatca_reporting"@, "us_tax_information_exchange"@],
                seq![],
                seq![],
                seq![],
                None,
            )
        ],
{
    let r = vec![
        license_type(
            "ky-ditc:crs-compliance",
            "CRS Compliance Registration",
            "Registration for Common Reporting Standard (CRS) compliance under the Tax Information Authority Act",
            "ky-ditc",
            Some("tax_compliance"),
            &["crs_reporting", "automatic_exchange_of_information"],
            &[],
            &[],
            &[],
            None,
        ),
        license_type(
            "ky-ditc:fatca-compliance",
            "FATCA Compliance Registration",
            "Registration for Foreign Account Tax Compliance Act (FATCA) compliance under the Cayman-US IGA",
            "ky-ditc",
            Some("tax_compliance"),
            &["fatca_reporting", "us_tax_information_exchange"],
            &[],
            &[],
            &[],
            None,
        )
    ];
    proof {
        assert(license_types_view(r@) =~~= spec_ditc_license_types());
    }
    r
}

/// The view of `cayman_regulators`.
pub open spec fn spec_cayman_regulators() -> Seq<RegulatorView> {
    seq![spec_cima_regulator(), spec_roc_regulator(), spec_ditc_regulator()]
}

/// All Cayman Islands regulatory authorities.
pub fn cayman_regulators() -> (r: Vec<LicensepackRegulator>)
    ensures
        regulators_view(r@) == spec_cayman_regulators(),
        regulators_view(r@) == seq![spec_cima_regulator(), spec_roc_regulator(), spec_ditc_regulator()],
{
    let r = vec![cima_regulator(), roc_regulator(), ditc_regulator()];
    proof {
        assert(regulators_view(r@) =~~= spec_cayman_regulators());
    }
    r
}

/// The view of `cayman_license_types`.
pub open spec fn spec_cayman_license_types() -> Seq<LicenseTypeView> {
    spec_cima_license_types()
        + spec_roc_license_types()
        + spec_ditc_license_types()
}

/// All Cayman Islands license type definitions across all authorities.
pub fn cayman_license_types() -> (r: Vec<LicenseTypeDefinition>)
    ensures
        license_types_view(r@) == spec_cayman_license_types(),
        license_types_view(r@) == spec_cima_license_types()
            + spec_roc_license_types()
            + spec_ditc_license_types(),
{
    let mut all: Vec<LicenseTypeDefinition> = Vec::new();
    proof {
        assert(license_types_view(all@) =~= Seq::<LicenseTypeView>::empty());
    }
    let ghost before = all@;
    let mut part = cima_license_types();
    let ghost added = part@;
    all.append(&mut part);
    proof {
        lemma_license_types_view_append(before, added);
        assert(license_types_view(all@) =~= spec_cima_license_types());
    }
    let ghost before = all@;
    let mut part = roc_license_types();
    let ghost added = part@;
    all.append(&mut part);
    proof {
        lemma_license_types_view_append(before, added);
        assert(license_types_view(all@) =~= spec_cima_license_types() + spec_roc_license_types());
    }
    let ghost before = all@;
    let mut part = ditc_license_types();
    let ghost added = part@;
    all.append(&mut part);
    proof {
        lemma_license_types_view_append(before, added);
        assert(license_types_view(all@) =~= spec_cima_license_types() + spec_roc_license_types() + spec_ditc_license_types());
    }
    all
}

/// The licence types of `cima_license_types` are complete, granted by its regulators, and
/// each of its regulators grants at least one of them.
proof fn lemma_cima_group()
    ensures
        license_types_complete(spec_cima_license_types()),
        granted_by_listed_regulators(spec_cima_license_types(), seq![spec_cima_regulator()]),
        every_regulator_grants(spec_cima_license_types(), seq![spec_cima_regulator()]),
        regulators_in_jurisdiction(seq![spec_cima_regulator()], "ky"@),
{
    assert(complete_each(spec_cima_license_types())) by {
        reveal_strlit("ky-cima:banking-class-a");
        reveal_strlit("Class A Banking License (Unrestricted)");
        reveal_strlit("Unrestricted banking license to conduct domestic and international banking business under the Banks and Trust Companies Act");
        reveal_strlit("ky-cima");
        reveal_strlit("ky-cima:banking-class-b");
        reveal_strlit("Class B Banking License (Restricted)");
        reveal_strlit("Restricted banking license for international banking business only, not permitted to take deposits from Cayman residents");
        reveal_strlit("ky-cima:insurance-class-a");
        reveal_strlit("Class A Insurance License (Domestic)");
        reveal_strlit("License to carry on domestic insurance business in the Cayman Islands under the Insurance Act");
        reveal_strlit("ky-cima:insurance-class-b");
        reveal_strlit("Class B Insurance License (External/Captive)");
        reveal_strlit("License to carry on external or captive insurance business");
        reveal_strlit("ky-cima:insurance-class-c");
        reveal_strlit("Class C Insurance License (Reinsurer)");
        reveal_strlit("License to carry on reinsurance business");
        reveal_strlit("ky-cima:insurance-manager");
        reveal_strlit("Insurance Manager License");
        reveal_strlit("License to act as an insurance manager in the Cayman Islands");
        reveal_strlit("ky-cima:insurance-broker");
        reveal_strlit("Insurance Broker License");
        reveal_strlit("License to act as an insurance broker");
        reveal_strlit("ky-cima:insurance-agent");
        reveal_strlit("Insurance Agent License");
        reveal_strlit("License to act as an insurance agent");
        reveal_strlit("ky-cima:securities");
        reveal_strlit("Securities Investment Business License");
        reveal_strlit("License to carry on securities investment business under the Securities Investment Business Act");
        reveal_strlit("ky-cima:fund-administration");
        reveal_strlit("Fund Administration License");
        reveal_strlit("License to provide fund administration services");
        reveal_strlit("ky-cima:mutual-fund");
        reveal_strlit("Mutual Fund Registration");
        reveal_strlit("Registration of a mutual fund under the Mutual Funds Act");
        reveal_strlit("ky-cima:securities-vasp");
        reveal_strlit("Virtual Asset Service Provider (Securities) License");
        reveal_strlit("License to provide virtual asset services under the Virtual Asset (Service Providers) Act");
        reveal_strlit("ky-cima:money-transmission");
        reveal_strlit("Money Transmission License");
        reveal_strlit("License to operate a money transmission or remittance business under the Money Services Act");
        reveal_strlit("ky-cima:currency-exchange");
        reveal_strlit("Currency Exchange License");
        reveal_strlit("License to operate a currency exchange business");
        reveal_strlit("ky-cima:trust-license");
        reveal_strlit("Trust License");
        reveal_strlit("License to carry on trust business under the Banks and Trust Companies Act");
        reveal_strlit("ky-cima:company-management");
        reveal_strlit("Company Management License");
        reveal_strlit("License to provide company management services under the Companies Management Act");
        reveal_strlit("ky-cima:cooperative-credit-union");
        reveal_strlit("Cooperative Credit Union License");
        reveal_strlit("License to operate a cooperative credit union under the Cooperative Societies Act");
        reveal_strlit("ky-cima:vasp");
        reveal_strlit("Virtual Asset Service Provider (VASP) License");
        reveal_strlit("Registration as a virtual asset service provider under the Virtual Asset (Service Providers) Act");
        reveal_with_fuel(complete_each, 19);
    }
    lemma_complete_each(spec_cima_license_types());
    assert(granted_by_each(spec_cima_license_types(), seq![spec_cima_regulator()][0].regulator_id)) by {
        reveal_with_fuel(granted_by_each, 19);
    }
    lemma_granted_by_each(spec_cima_license_types(), seq![spec_cima_regulator()], 0);
    assert(grants_some(spec_cima_license_types(), seq![spec_cima_regulator()][0].regulator_id)) by {
        assert(spec_cima_license_types()[0].regulator_id == seq![spec_cima_regulator()][0].regulator_id);
    }
    assert(grants_each(spec_cima_license_types(), seq![spec_cima_regulator()])) by {
        reveal_with_fuel(grants_each, 2);
    }
    lemma_grants_each(spec_cima_license_types(), seq![spec_cima_regulator()]);
    assert(in_jurisdiction_each(seq![spec_cima_regulator()], "ky"@)) by {
        reveal_with_fuel(in_jurisdiction_each, 2);
    }
    lemma_in_jurisdiction_each(seq![spec_cima_regulator()], "ky"@);
}

/// The licence types of `roc_license_types` are complete, granted by its regulators, and
/// each of its regulators grants at least one of them.
proof fn lemma_roc_group()
    ensures
        license_types_complete(spec_roc_license_types()),
        granted_by_listed_regulators(spec_roc_license_types(), seq![spec_roc_regulator()]),
        every_regulator_grants(spec_roc_license_types(), seq![spec_roc_regulator()]),
        regulators_in_jurisdiction(seq![spec_roc_regulator()], "ky"@),
{
    assert(complete_each(spec_roc_license_types())) by {
        reveal_strlit("ky-roc:exempt-company");
        reveal_strlit("Exempt Company Registration");
        reveal_strlit("Registration of an exempted company under the Companies Act");
        reveal_strlit("ky-roc");
        reveal_strlit("ky-roc:ordinary-company");
        reveal_strlit("Ordinary Company Registration");
        reveal_strlit("Registration of an ordinary (resident) company under the Companies Act");
        reveal_strlit("ky-roc:foreign-company");
        reveal_strlit("Foreign Company Registration");
        reveal_strlit("Registration of a foreign company to conduct business in the Cayman Islands");
        reveal_strlit("ky-roc:llc");
        reveal_strlit("Limited Liability Company Registration");
        reveal_strlit("Registration of a limited liability company (LLC) under the LLC Act");
        reveal_strlit("ky-roc:foundation-company");
        reveal_strlit("Foundation Company Registration");
        reveal_strlit("Registration of a foundation company under the Foundation Companies Act");
        reveal_strlit("ky-roc:segregated-portfolio-company");
        reveal_strlit("Segregated Portfolio Company Registration");
        reveal_strlit("Registration of a segregated portfolio company (SPC) under the Companies Act");
        reveal_with_fuel(complete_each, 7);
    }
    lemma_complete_each(spec_roc_license_types());
    assert(granted_by_each(spec_roc_license_types(), seq![spec_roc_regulator()][0].regulator_id)) by {
        reveal_with_fuel(granted_by_each, 7);
    }
    lemma_granted_by_each(spec_roc_license_types(), seq![spec_roc_regulator()], 0);
    assert(grants_some(spec_roc_license_types(), seq![spec_roc_regulator()][0].regulator_id)) by {
        assert(spec_roc_license_types()[0].regulator_id == seq![spec_roc_regulator()][0].regulator_id);
    }
    assert(grants_each(spec_roc_license_types(), seq![spec_roc_regulator()])) by {
        reveal_with_fuel(grants_each, 2);
    }
    lemma_grants_each(spec_roc_license_types(), seq![spec_roc_regulator()]);
    assert(in_jurisdiction_each(seq![spec_roc_regulator()], "ky"@)) by {
        reveal_with_fuel(in_jurisdiction_each, 2);
    }
    lemma_in_jurisdiction_each(seq![spec_roc_regulator()], "ky"@);
}

/// The licence types of `ditc_license_types` are complete, granted by its regulators, and
/// each of its regulators grants at least one of them.
proof fn lemma_ditc_group()
    ensures
        license_types_complete(spec_ditc_license_types()),
        granted_by_listed_regulators(spec_ditc_license_types(), seq![spec_ditc_regulator()]),
        every_regulator_grants(spec_ditc_license_types(), seq![spec_ditc_regulator()]),
        regulators_in_jurisdiction(seq![spec_ditc_regulator()], "ky"@),
{
    assert(complete_each(spec_ditc_license_types())) by {
        reveal_strlit("ky-ditc:crs-compliance");
        reveal_strlit("CRS Compliance Registration");
        reveal_strlit("Registration for Common Reporting Standard (CRS) compliance under the Tax Information Authority Act");
        reveal_strlit("ky-ditc");
        reveal_strlit("ky-ditc:fatca-compliance");
        reveal_strlit("FATCA Compliance Registration");
        reveal_strlit("Registration for Foreign Account Tax Compliance Act (FATCA) compliance under the Cayman-US IGA");
        reveal_with_fuel(complete_each, 3);
    }
    lemma_complete_each(spec_ditc_license_types());
    assert(granted_by_each(spec_ditc_license_types(), seq![spec_ditc_regulator()][0].regulator_id)) by {
        reveal_with_fuel(granted_by_each, 3);
    }
    lemma_granted_by_each(spec_ditc_license_types(), seq![spec_ditc_regulator()], 0);
    assert(grants_some(spec_ditc_license_types(), seq![spec_ditc_regulator()][0].regulator_id)) by {
        assert(spec_ditc_license_types()[0].regulator_id == seq![spec_ditc_regulator()][0].regulator_id);
    }
    assert(grants_each(spec_ditc_license_types(), seq![spec_ditc_regulator()])) by {
        reveal_with_fuel(grants_each, 2);
    }
    lemma_grants_each(spec_ditc_license_types(), seq![spec_ditc_regulator()]);
    assert(in_jurisdiction_each(seq![spec_ditc_regulator()], "ky"@)) by {
        reveal_with_fuel(in_jurisdiction_each, 2);
    }
    lemma_in_jurisdiction_each(seq![spec_ditc_regulator()], "ky"@);
}

/// The catalog of the Cayman Islands is consistent: every licence type has a non-empty identifier, name, description and
/// regulator identifier, a category, and at least one permitted activity;
/// every licence type is granted by one of its regulators;
/// every regulator grants at least one licence type;
/// every regulator belongs to jurisdiction `ky`.
pub proof fn lemma_cayman_catalog_consistent()
    ensures
        license_types_complete(spec_cayman_license_types()),
        granted_by_listed_regulators(spec_cayman_license_types(), spec_cayman_regulators()),
        every_regulator_grants(spec_cayman_license_types(), spec_cayman_regulators()),
        regulators_in_jurisdiction(spec_cayman_regulators(), "ky"@),
{
    lemma_cima_group();
    lemma_roc_group();
    lemma_ditc_group();
    assert(spec_cayman_regulators() =~= seq![spec_cima_regulator()] + seq![spec_roc_regulator()] + seq![spec_ditc_regulator()]);
    assert(spec_cayman_license_types() =~= spec_cima_license_types() + spec_roc_license_types() + spec_ditc_license_types());
    lemma_complete_append(spec_cima_license_types(), spec_roc_license_types());
    lemma_granted_combine(spec_cima_license_types(), seq![spec_cima_regulator()], spec_roc_license_types(), seq![spec_roc_regulator()]);
    lemma_every_combine(spec_cima_license_types(), seq![spec_cima_regulator()], spec_roc_license_types(), seq![spec_roc_regulator()]);
    lemma_in_jurisdiction_append(seq![spec_cima_regulator()], seq![spec_roc_regulator()], "ky"@);
    lemma_complete_append(spec_cima_license_types() + spec_roc_license_types(), spec_ditc_license_types());
    lemma_granted_combine(spec_cima_license_types() + spec_roc_license_types(), seq![spec_cima_regulator()] + seq![spec_roc_regulator()], spec_ditc_license_types(), seq![spec_ditc_regulator()]);
    lemma_every_combine(spec_cima_license_types() + spec_roc_license_types(), seq![spec_cima_regulator()] + seq![spec_roc_regulator()], spec_ditc_license_types(), seq![spec_ditc_regulator()]);
    lemma_in_jurisdiction_append(seq![spec_cima_regulator()] + seq![spec_roc_regulator()], seq![spec_ditc_regulator()], "ky"@);
}

/// No two licence types of `cima_license_types` share an identifier.
proof fn lemma_cima_license_types_ids_distinct()
    ensures
        license_type_ids_distinct(spec_cima_license_types()),
{
    let t = spec_cima_license_types();
    assert(ids_distinct_each(t)) by {
        reveal_strlit("ky-cima:banking-class-a");
        reveal_strlit("ky-cima:banking-class-b");
        reveal_strlit("ky-cima:company-management");
        reveal_strlit("ky-cima:cooperative-credit-union");
        reveal_strlit("ky-cima:currency-exchange");
        reveal_strlit("ky-cima:fund-administration");
        reveal_strlit("ky-cima:insurance-agent");
        reveal_strlit("ky-cima:insurance-broker");
        reveal_strlit("ky-cima:insurance-class-a");
        reveal_strlit("ky-cima:insurance-class-b");
        reveal_strlit("ky-cima:insurance-class-c");
        reveal_strlit("ky-cima:insurance-manager");
        reveal_strlit("ky-cima:money-transmission");
        reveal_strlit("ky-cima:mutual-fund");
        reveal_strlit("ky-cima:securities");
        reveal_strlit("ky-cima:securities-vasp");
        reveal_strlit("ky-cima:trust-license");
        reveal_strlit("ky-cima:vasp");
        assert(t[0].license_type_id[22] != t[1].license_type_id[22]);
        assert(t[0].license_type_id[8] != t[2].license_type_id[8]);
        assert(t[1].license_type_id[8] != t[2].license_type_id[8]);
        assert(t[0].license_type_id[8] != t[3].license_type_id[8]);
        assert(t[1].license_type_id[8] != t[3].license_type_id[8]);
        assert(t[2].license_type_id[24] != t[3].license_type_id[24]);
        assert(t[0].license_type_id[8] != t[4].license_type_id[8]);
        assert(t[1].license_type_id[8] != t[4].license_type_id[8]);
        assert(t[2].license_type_id[24] != t[4].license_type_id[24]);
        assert(t[3].license_type_id[24] != t[4].license_type_id[24]);
        assert(t[0].license_type_id[8] != t[5].license_type_id[8]);
        assert(t[1].license_type_id[8] != t[5].license_type_id[8]);
        assert(t[2].license_type_id[18] != t[5].license_type_id[18]);
        assert(t[3].license_type_id[18] != t[5].license_type_id[18]);
        assert(t[4].license_type_id[18] != t[5].license_type_id[18]);
        assert(t[0].license_type_id[8] != t[6].license_type_id[8]);
        assert(t[1].license_type_id[8] != t[6].license_type_id[8]);
        assert(t[2].license_type_id[18] != t[6].license_type_id[18]);
        assert(t[3].license_type_id[18] != t[6].license_type_id[18]);
        assert(t[4].license_type_id[18] != t[6].license_type_id[18]);
        assert(t[5].license_type_id[18] != t[6].license_type_id[18]);
        assert(t[0].license_type_id[8] != t[7].license_type_id[8]);
        assert(t[1].license_type_id[8] != t[7].license_type_id[8]);
        assert(t[2].license_type_id[18] != t[7].license_type_id[18]);
        assert(t[3].license_type_id[18] != t[7].license_type_id[18]);
        assert(t[4].license_type_id[18] != t[7].license_type_id[18]);
        assert(t[5].license_type_id[18] != t[7].license_type_id[18]);
        assert(t[6].license_type_id[18] != t[7].license_type_id[18]);
        assert(t[0].license_type_id[8] != t[8].license_type_id[8]);
        assert(t[1].license_type_id[8] != t[8].license_type_id[8]);
        assert(t[2].license_type_id[8] != t[8].license_type_id[8]);
        assert(t[3].license_type_id[8] != t[8].license_type_id[8]);
        assert(t[4].license_type_id[8] != t[8].license_type_id[8]);
        assert(t[5].license_type_id[8] != t[8].license_type_id[8]);
        assert(t[6].license_type_id[8] != t[8].license_type_id[8]);
        assert(t[7].license_type_id[8] != t[8].license_type_id[8]);
        assert(t[0].license_type_id[8] != t[9].license_type_id[8]);
        assert(t[1].license_type_id[8] != t[9].license_type_id[8]);
        assert(t[2].license_type_id[8] != t[9].license_type_id[8]);
        assert(t[3].license_type_id[8] != t[9].license_type_id[8]);
        assert(t[4].license_type_id[8] != t[9].license_type_id[8]);
        assert(t[5].license_type_id[8] != t[9].license_type_id[8]);
        assert(t[6].license_type_id[8] != t[9].license_type_id[8]);
        assert(t[7].license_type_id[8] != t[9].license_type_id[8]);
        assert(t[8].license_type_id[8] != t[9].license_type_id[8]);
        assert(t[0].license_type_id[8] != t[10].license_type_id[8]);
        assert(t[1].license_type_id[8] != t[10].license_type_id[8]);
        assert(t[2].license_type_id[8] != t[10].license_type_id[8]);
        assert(t[3].license_type_id[8] != t[10].license_type_id[8]);
        assert(t[4].license_type_id[8] != t[10].license_type_id[8]);
        assert(t[5].license_type_id[8] != t[10].license_type_id[8]);
        assert(t[6].license_type_id[8] != t[10].license_type_id[8]);
        assert(t[7].license_type_id[8] != t[10].license_type_id[8]);
        assert(t[8].license_type_id[8] != t[10].license_type_id[8]);
        assert(t[9].license_type_id[8] != t[10].license_type_id[8]);
        assert(t[0].license_type_id[8] != t[11].license_type_id[8]);
        assert(t[1].license_type_id[8] != t[11].license_type_id[8]);
        assert(t[2].license_type_id[8] != t[11].license_type_id[8]);
        assert(t[3].license_type_id[8] != t[11].license_type_id[8]);
        assert(t[4].license_type_id[8] != t[11].license_type_id[8]);
        assert(t[5].license_type_id[8] != t[11].license_type_id[8]);
        assert(t[6].license_type_id[8] != t[11].license_type_id[8]);
        assert(t[7].license_type_id[8] != t[11].license_type_id[8]);
        assert(t[8].license_type_id.len() != t[11].license_type_id.len());
        assert(t[9].license_type_id[8] != t[11].license_type_id[8]);
        assert(t[10].license_type_id[8] != t[11].license_type_id[8]);
        assert(t[0].license_type_id[8] != t[12].license_type_id[8]);
        assert(t[1].license_type_id[8] != t[12].license_type_id[8]);
        assert(t[2].license_type_id[8] != t[12].license_type_id[8]);
        assert(t[3].license_type_id[8] != t[12].license_type_id[8]);
        assert(t[4].license_type_id[8] != t[12].license_type_id[8]);
        assert(t[5].license_type_id[8] != t[12].license_type_id[8]);
        assert(t[6].license_type_id[8] != t[12].license_type_id[8]);
        assert(t[7].license_type_id[8] != t[12].license_type_id[8]);
        assert(t[8].license_type_id[8] != t[12].license_type_id[8]);
        assert(t[9].license_type_id[8] != t[12].license_type_id[8]);
        assert(t[10].license_type_id[9] != t[12].license_type_id[9]);
        assert(t[11].license_type_id[8] != t[12].license_type_id[8]);
        assert(t[0].license_type_id[8] != t[13].license_type_id[8]);
        assert(t[1].license_type_id[8] != t[13].license_type_id[8]);
        assert(t[2].license_type_id[8] != t[13].license_type_id[8]);
        assert(t[3].license_type_id[8] != t[13].license_type_id[8]);
        assert(t[4].license_type_id[8] != t[13].license_type_id[8]);
        assert(t[5].license_type_id[8] != t[13].license_type_id[8]);
        assert(t[6].license_type_id[8] != t[13].license_type_id[8]);
        assert(t[7].license_type_id[8] != t[13].license_type_id[8]);
        assert(t[8].license_type_id[8] != t[13].license_type_id[8]);
        assert(t[9].license_type_id[8] != t[13].license_type_id[8]);
        assert(t[10].license_type_id[8] != t[13].license_type_id[8]);
        assert(t[11].license_type_id[8] != t[13].license_type_id[8]);
        assert(t[12].license_type_id[8] != t[13].license_type_id[8]);
        assert(t[0].license_type_id[8] != t[14].license_type_id[8]);
        assert(t[1].license_type_id[8] != t[14].license_type_id[8]);
        assert(t[2].license_type_id[8] != t[14].license_type_id[8]);
        assert(t[3].license_type_id[8] != t[14].license_type_id[8]);
        assert(t[4].license_type_id[8] != t[14].license_type_id[8]);
        assert(t[5].license_type_id[8] != t[14].license_type_id[8]);
        assert(t[6].license_type_id[8] != t[14].license_type_id[8]);
        assert(t[7].license_type_id[8] != t[14].license_type_id[8]);
        assert(t[8].license_type_id[8] != t[14].license_type_id[8]);
        assert(t[9].license_type_id[8] != t[14].license_type_id[8]);
        assert(t[10].license_type_id[8] != t[14].license_type_id[8]);
        assert(t[11].license_type_id[8] != t[14].license_type_id[8]);
        assert(t[12].license_type_id[8] != t[14].license_type_id[8]);
        assert(t[13].license_type_id[8] != t[14].license_type_id[8]);
        assert(t[0].license_type_id[8] != t[15].license_type_id[8]);
        assert(t[1].license_type_id[8] != t[15].license_type_id[8]);
        assert(t[2].license_type_id[8] != t[15].license_type_id[8]);
        assert(t[3].license_type_id[8] != t[15].license_type_id[8]);
        assert(t[4].license_type_id[8] != t[15].license_type_id[8]);
        assert(t[5].license_type_id[8] != t[15].license_type_id[8]);
        assert(t[6].license_type_id[8] != t[15].license_type_id[8]);
        assert(t[7].license_type_id[8] != t[15].license_type_id[8]);
        assert(t[8].license_type_id[8] != t[15].license_type_id[8]);
        assert(t[9].license_type_id[8] != t[15].license_type_id[8]);
        assert(t[10].license_type_id[8] != t[15].license_type_id[8]);
        assert(t[11].license_type_id[8] != t[15].license_type_id[8]);
        assert(t[12].license_type_id[8] != t[15].license_type_id[8]);
        assert(t[13].license_type_id[9] != t[15].license_type_id[9]);
        assert(t[14].license_type_id[8] != t[15].license_type_id[8]);
        assert(t[0].license_type_id[8] != t[16].license_type_id[8]);
        assert(t[1].license_type_id[8] != t[16].license_type_id[8]);
        assert(t[2].license_type_id[8] != t[16].license_type_id[8]);
        assert(t[3].license_type_id[8] != t[16].license_type_id[8]);
        assert(t[4].license_type_id[8] != t[16].license_type_id[8]);
        assert(t[5].license_type_id[8] != t[16].license_type_id[8]);
        assert(t[6].license_type_id[8] != t[16].license_type_id[8]);
        assert(t[7].license_type_id[8] != t[16].license_type_id[8]);
        assert(t[8].license_type_id[8] != t[16].license_type_id[8]);
        assert(t[9].license_type_id[8] != t[16].license_type_id[8]);
        assert(t[10].license_type_id[8] != t[16].license_type_id[8]);
        assert(t[11].license_type_id[8] != t[16].license_type_id[8]);
        assert(t[12].license_type_id[8] != t[16].license_type_id[8]);
        assert(t[13].license_type_id[9] != t[16].license_type_id[9]);
        assert(t[14].license_type_id[8] != t[16].license_type_id[8]);
        assert(t[15].license_type_id[10] != t[16].license_type_id[10]);
        assert(t[0].license_type_id[8] != t[17].license_type_id[8]);
        assert(t[1].license_type_id[8] != t[17].license_type_id[8]);
        assert(t[2].license_type_id[8] != t[17].license_type_id[8]);
        assert(t[3].license_type_id[8] != t[17].license_type_id[8]);
        assert(t[4].license_type_id[8] != t[17].license_type_id[8]);
        assert(t[5].license_type_id[8] != t[17].license_type_id[8]);
        assert(t[6].license_type_id[8] != t[17].license_type_id[8]);
        assert(t[7].license_type_id[8] != t[17].license_type_id[8]);
        assert(t[8].license_type_id[8] != t[17].license_type_id[8]);
        assert(t[9].license_type_id[8] != t[17].license_type_id[8]);
        assert(t[10].license_type_id[8] != t[17].license_type_id[8]);
        assert(t[11].license_type_id[8] != t[17].license_type_id[8]);
        assert(t[12].license_type_id[8] != t[17].license_type_id[8]);
        assert(t[13].license_type_id[8] != t[17].license_type_id[8]);
        assert(t[14].license_type_id[8] != t[17].license_type_id[8]);
        assert(t[15].license_type_id[8] != t[17].license_type_id[8]);
        assert(t[16].license_type_id[8] != t[17].license_type_id[8]);
        reveal_with_fuel(ids_distinct_each, 19);
        reveal_with_fuel(id_fresh_each, 19);
    }
    lemma_ids_distinct_each(t);
}

/// No two licence types of `roc_license_types` share an identifier.
proof fn lemma_roc_license_types_ids_distinct()
    ensures
        license_type_ids_distinct(spec_roc_license_types()),
{
    let t = spec_roc_license_types();
    assert(ids_distinct_each(t)) by {
        reveal_strlit("ky-roc:exempt-company");
        reveal_strlit("ky-roc:foreign-company");
        reveal_strlit("ky-roc:foundation-company");
        reveal_strlit("ky-roc:llc");
        reveal_strlit("ky-roc:ordinary-company");
        reveal_strlit("ky-roc:segregated-portfolio-company");
        assert(t[0].license_type_id[7] != t[1].license_type_id[7]);
        assert(t[0].license_type_id[7] != t[2].license_type_id[7]);
        assert(t[1].license_type_id[7] != t[2].license_type_id[7]);
        assert(t[0].license_type_id[7] != t[3].license_type_id[7]);
        assert(t[1].license_type_id[7] != t[3].license_type_id[7]);
        assert(t[2].license_type_id[7] != t[3].license_type_id[7]);
        assert(t[0].license_type_id[7] != t[4].license_type_id[7]);
        assert(t[1].license_type_id[7] != t[4].license_type_id[7]);
        assert(t[2].license_type_id[9] != t[4].license_type_id[9]);
        assert(t[3].license_type_id[7] != t[4].license_type_id[7]);
        assert(t[0].license_type_id[7] != t[5].license_type_id[7]);
        assert(t[1].license_type_id[7] != t[5].license_type_id[7]);
        assert(t[2].license_type_id[7] != t[5].license_type_id[7]);
        assert(t[3].license_type_id[7] != t[5].license_type_id[7]);
        assert(t[4].license_type_id[7] != t[5].license_type_id[7]);
        reveal_with_fuel(ids_distinct_each, 7);
        reveal_with_fuel(id_fresh_each, 7);
    }
    lemma_ids_distinct_each(t);
}

/// No two licence types of `ditc_license_types` share an identifier.
proof fn lemma_ditc_license_types_ids_distinct()
    ensures
        license_type_ids_distinct(spec_ditc_license_types()),
{
    let t = spec_ditc_license_types();
    assert(ids_distinct_each(t)) by {
        reveal_strlit("ky-ditc:crs-compliance");
        reveal_strlit("ky-ditc:fatca-compliance");
        assert(t[0].license_type_id[8] != t[1].license_type_id[8]);
        reveal_with_fuel(ids_distinct_each, 3);
        reveal_with_fuel(id_fresh_each, 3);
    }
    lemma_ids_distinct_each(t);
}

/// No licence type of `cima_license_types` shares an identifier with one of `roc_license_types`.
proof fn lemma_cima_license_types_apart_from_roc_license_types()
    ensures
        license_type_ids_apart(spec_cima_license_types(), spec_roc_license_types()),
{
    let a = spec_cima_license_types();
    let b = spec_roc_license_types();
    assert(apart_each(a, b)) by {
        reveal_strlit("ky-cima:banking-class-a");
        reveal_strlit("ky-cima:banking-class-b");
        reveal_strlit("ky-cima:company-management");
        reveal_strlit("ky-cima:cooperative-credit-union");
        reveal_strlit("ky-cima:currency-exchange");
        reveal_strlit("ky-cima:fund-administration");
        reveal_strlit("ky-cima:insurance-agent");
        reveal_strlit("ky-cima:insurance-broker");
        reveal_strlit("ky-cima:insurance-class-a");
        reveal_strlit("ky-cima:insurance-class-b");
        reveal_strlit("ky-cima:insurance-class-c");
        reveal_strlit("ky-cima:insurance-manager");
        reveal_strlit("ky-cima:money-transmission");
        reveal_strlit("ky-cima:mutual-fund");
        reveal_strlit("ky-cima:securities");
        reveal_strlit("ky-cima:securities-vasp");
        reveal_strlit("ky-cima:trust-license");
        reveal_strlit("ky-cima:vasp");
        reveal_strlit("ky-roc:exempt-company");
        reveal_strlit("ky-roc:foreign-company");
        reveal_strlit("ky-roc:foundation-company");
        reveal_strlit("ky-roc:llc");
        reveal_strlit("ky-roc:ordinary-company");
        reveal_strlit("ky-roc:segregated-portfolio-company");
        assert(a[0].license_type_id[3] != b[0].license_type_id[3]);
        assert(a[0].license_type_id[3] != b[1].license_type_id[3]);
        assert(a[0].license_type_id[3] != b[2].license_type_id[3]);
        assert(a[0].license_type_id[3] != b[3].license_type_id[3]);
        assert(a[0].license_type_id[3] != b[4].license_type_id[3]);
        assert(a[0].license_type_id[3] != b[5].license_type_id[3]);
        assert(a[1].license_type_id[3] != b[0].license_type_id[3]);
        assert(a[1].license_type_id[3] != b[1].license_type_id[3]);
        assert(a[1].license_type_id[3] != b[2].license_type_id[3]);
        assert(a[1].license_type_id[3] != b[3].license_type_id[3]);
        assert(a[1].license_type_id[3] != b[4].license_type_id[3]);
        assert(a[1].license_type_id[3] != b[5].license_type_id[3]);
        assert(a[2].license_type_id[3] != b[0].license_type_id[3]);
        assert(a[2].license_type_id[3] != b[1].license_type_id[3]);
        assert(a[2].license_type_id[3] != b[2].license_type_id[3]);
        assert(a[2].license_type_id[3] != b[3].license_type_id[3]);
        assert(a[2].license_type_id[3] != b[4].license_type_id[3]);
        assert(a[2].license_type_id[3] != b[5].license_type_id[3]);
        assert(a[3].license_type_id[3] != b[0].license_type_id[3]);
        assert(a[3].license_type_id[3] != b[1].license_type_id[3]);
        assert(a[3].license_type_id[3] != b[2].license_type_id[3]);
        assert(a[3].license_type_id[3] != b[3].license_type_id[3]);
        assert(a[3].license_type_id[3] != b[4].license_type_id[3]);
        assert(a[3].license_type_id[3] != b[5].license_type_id[3]);
        assert(a[4].license_type_id[3] != b[0].license_type_id[3]);
        assert(a[4].license_type_id[3] != b[1].license_type_id[3]);
        assert(a[4].license_type_id[3] != b[2].license_type_id[3]);
        assert(a[4].license_type_id[3] != b[3].license_type_id[3]);
        assert(a[4].license_type_id[3] != b[4].license_type_id[3]);
        assert(a[4].license_type_id[3] != b[5].license_type_id[3]);
        assert(a[5].license_type_id[3] != b[0].license_type_id[3]);
        assert(a[5].license_type_id[3] != b[1].license_type_id[3]);
        assert(a[5].license_type_id[3] != b[2].license_type_id[3]);
        assert(a[5].license_type_id[3] != b[3].license_type_id[3]);
        assert(a[5].license_type_id[3] != b[4].license_type_id[3]);
        assert(a[5].license_type_id[3] != b[5].license_type_id[3]);
        assert(a[6].license_type_id[3] != b[0].license_type_id[3]);
        assert(a[6].license_type_id[3] != b[1].license_type_id[3]);
        assert(a[6].license_type_id[3] != b[2].license_type_id[3]);
        assert(a[6].license_type_id[3] != b[3].license_type_id[3]);
        assert(a[6].license_type_id[3] != b[4].license_type_id[3]);
        assert(a[6].license_type_id[3] != b[5].license_type_id[3]);
        assert(a[7].license_type_id[3] != b[0].license_type_id[3]);
        assert(a[7].license_type_id[3] != b[1].license_type_id[3]);
        assert(a[7].license_type_id[3] != b[2].license_type_id[3]);
        assert(a[7].license_type_id[3] != b[3].license_type_id[3]);
        assert(a[7].license_type_id[3] != b[4].license_type_id[3]);
        assert(a[7].license_type_id[3] != b[5].license_type_id[3]);
        assert(a[8].license_type_id[3] != b[0].license_type_id[3]);
        assert(a[8].license_type_id[3] != b[1].license_type_id[3]);
        assert(a[8].license_type_id[3] != b[2].license_type_id[3]);
        assert(a[8].license_type_id[3] != b[3].license_type_id[3]);
        assert(a[8].license_type_id[3] != b[4].license_type_id[3]);
        assert(a[8].license_type_id[3] != b[5].license_type_id[3]);
        assert(a[9].license_type_id[3] != b[0].license_type_id[3]);
        assert(a[9].license_type_id[3] != b[1].license_type_id[3]);
        assert(a[9].license_type_id[3] != b[2].license_type_id[3]);
        assert(a[9].license_type_id[3] != b[3].license_type_id[3]);
        assert(a[9].license_type_id[3] != b[4].license_type_id[3]);
        assert(a[9].license_type_id[3] != b[5].license_type_id[3]);
        assert(a[10].license_type_id[3] != b[0].license_type_id[3]);
        assert(a[10].license_type_id[3] != b[1].license_type_id[3]);
        assert(a[10].license_type_id[3] != b[2].license_type_id[3]);
        assert(a[10].license_type_id[3] != b[3].license_type_id[3]);
        assert(a[10].license_type_id[3] != b[4].license_type_id[3]);
        assert(a[10].license_type_id[3] != b[5].license_type_id[3]);
        assert(a[11].license_type_id[3] != b[0].license_type_id[3]);
        assert(a[11].license_type_id[3] != b[1].license_type_id[3]);
        assert(a[11].license_type_id[3] != b[2].license_type_id[3]);
        assert(a[11].license_type_id[3] != b[3].license_type_id[3]);
        assert(a[11].license_type_id[3] != b[4].license_type_id[3]);
        assert(a[11].license_type_id[3] != b[5].license_type_id[3]);
        assert(a[12].license_type_id[3] != b[0].license_type_id[3]);
        assert(a[12].license_type_id[3] != b[1].license_type_id[3]);
        assert(a[12].license_type_id[3] != b[2].license_type_id[3]);
        assert(a[12].license_type_id[3] != b[3].license_type_id[3]);
        assert(a[12].license_type_id[3] != b[4].license_type_id[3]);
        assert(a[12].license_type_id[3] != b[5].license_type_id[3]);
        assert(a[13].license_type_id[3] != b[0].license_type_id[3]);
        assert(a[13].license_type_id[3] != b[1].license_type_id[3]);
        assert(a[13].license_type_id[3] != b[2].license_type_id[3]);
        assert(a[13].license_type_id[3] != b[3].license_type_id[3]);
        assert(a[13].license_type_id[3] != b[4].license_type_id[3]);
        assert(a[13].license_type_id[3] != b[5].license_type_id[3]);
        assert(a[14].license_type_id[3] != b[0].license_type_id[3]);
        assert(a[14].license_type_id[3] != b[1].license_type_id[3]);
        assert(a[14].license_type_id[3] != b[2].license_type_id[3]);
        assert(a[14].license_type_id[3] != b[3].license_type_id[3]);
        assert(a[14].license_type_id[3] != b[4].license_type_id[3]);
        assert(a[14].license_type_id[3] != b[5].license_type_id[3]);
        assert(a[15].license_type_id[3] != b[0].license_type_id[3]);
        assert(a[15].license_type_id[3] != b[1].license_type_id[3]);
        assert(a[15].license_type_id[3] != b[2].license_type_id[3]);
        assert(a[15].license_type_id[3] != b[3].license_type_id[3]);
        assert(a[15].license_type_id[3] != b[4].license_type_id[3]);
        assert(a[15].license_type_id[3] != b[5].license_type_id[3]);
        assert(a[16].license_type_id[3] != b[0].license_type_id[3]);
        assert(a[16].license_type_id[3] != b[1].license_type_id[3]);
        assert(a[16].license_type_id[3] != b[2].license_type_id[3]);
        assert(a[16].license_type_id[3] != b[3].license_type_id[3]);
        assert(a[16].license_type_id[3] != b[4].license_type_id[3]);
        assert(a[16].license_type_id[3] != b[5].license_type_id[3]);
        assert(a[17].license_type_id[3] != b[0].license_type_id[3]);
        assert(a[17].license_type_id[3] != b[1].license_type_id[3]);
        assert(a[17].license_type_id[3] != b[2].license_type_id[3]);
        assert(a[17].license_type_id[3] != b[3].license_type_id[3]);
        assert(a[17].license_type_id[3] != b[4].license_type_id[3]);
        assert(a[17].license_type_id[3] != b[5].license_type_id[3]);
        reveal_with_fuel(apart_each, 19);
        reveal_with_fuel(id_fresh_each, 7);
    }
    lemma_apart_each(a, b);
}

/// No licence type of `cima_license_types` shares an identifier with one of `ditc_license_types`.
proof fn lemma_cima_license_types_apart_from_ditc_license_types()
    ensures
        license_type_ids_apart(spec_cima_license_types(), spec_ditc_license_types()),
{
    let a = spec_cima_license_types();
    let b = spec_ditc_license_types();
    assert(apart_each(a, b)) by {
        reveal_strlit("ky-cima:banking-class-a");
        reveal_strlit("ky-cima:banking-class-b");
        reveal_strlit("ky-cima:company-management");
        reveal_strlit("ky-cima:cooperative-credit-union");
        reveal_strlit("ky-cima:currency-exchange");
        reveal_strlit("ky-cima:fund-administration");
        reveal_strlit("ky-cima:insurance-agent");
        reveal_strlit("ky-cima:insurance-broker");
        reveal_strlit("ky-cima:insurance-class-a");
        reveal_strlit("ky-cima:insurance-class-b");
        reveal_strlit("ky-cima:insurance-class-c");
        reveal_strlit("ky-cima:insurance-manager");
        reveal_strlit("ky-cima:money-transmission");
        reveal_strlit("ky-cima:mutual-fund");
        reveal_strlit("ky-cima:securities");
        reveal_strlit("ky-cima:securities-vasp");
        reveal_strlit("ky-cima:trust-license");
        reveal_strlit("ky-cima:vasp");
        reveal_strlit("ky-ditc:crs-compliance");
        reveal_strlit("ky-ditc:fatca-compliance");
        assert(a[0].license_type_id[3] != b[0].license_type_id[3]);
        assert(a[0].license_type_id[3] != b[1].license_type_id[3]);
        assert(a[1].license_type_id[3] != b[0].license_type_id[3]);
        assert(a[1].license_type_id[3] != b[1].license_type_id[3]);
        assert(a[2].license_type_id[3] != b[0].license_type_id[3]);
        assert(a[2].license_type_id[3] != b[1].license_type_id[3]);
        assert(a[3].license_type_id[3] != b[0].license_type_id[3]);
        assert(a[3].license_type_id[3] != b[1].license_type_id[3]);
        assert(a[4].license_type_id[3] != b[0].license_type_id[3]);
        assert(a[4].license_type_id[3] != b[1].license_type_id[3]);
        assert(a[5].license_type_id[3] != b[0].license_type_id[3]);
        assert(a[5].license_type_id[3] != b[1].license_type_id[3]);
        assert(a[6].license_type_id[3] != b[0].license_type_id[3]);
        assert(a[6].license_type_id[3] != b[1].license_type_id[3]);
        assert(a[7].license_type_id[3] != b[0].license_type_id[3]);
        assert(a[7].license_type_id[3] != b[1].license_type_id[3]);
        assert(a[8].license_type_id[3] != b[0].license_type_id[3]);
        assert(a[8].license_type_id[3] != b[1].license_type_id[3]);
        assert(a[9].license_type_id[3] != b[0].license_type_id[3]);
        assert(a[9].license_type_id[3] != b[1].license_type_id[3]);
        assert(a[10].license_type_id[3] != b[0].license_type_id[3]);
        assert(a[10].license_type_id[3] != b[1].license_type_id[3]);
        assert(a[11].license_type_id[3] != b[0].license_type_id[3]);
        assert(a[11].license_type_id[3] != b[1].license_type_id[3]);
        assert(a[12].license_type_id[3] != b[0].license_type_id[3]);
        assert(a[12].license_type_id[3] != b[1].license_type_id[3]);
        assert(a[13].license_type_id[3] != b[0].license_type_id[3]);
        assert(a[13].license_type_id[3] != b[1].license_type_id[3]);
        assert(a[14].license_type_id[3] != b[0].license_type_id[3]);
        assert(a[14].license_type_id[3] != b[1].license_type_id[3]);
        assert(a[15].license_type_id[3] != b[0].license_type_id[3]);
        assert(a[15].license_type_id[3] != b[1].license_type_id[3]);
        assert(a[16].license_type_id[3] != b[0].license_type_id[3]);
        assert(a[16].license_type_id[3] != b[1].license_type_id[3]);
        assert(a[17].license_type_id[3] != b[0].license_type_id[3]);
        assert(a[17].license_type_id[3] != b[1].license_type_id[3]);
        reveal_with_fuel(apart_each, 19);
        reveal_with_fuel(id_fresh_each, 3);
    }
    lemma_apart_each(a, b);
}

/// No licence type of `roc_license_types` shares an identifier with one of `ditc_license_types`.
proof fn lemma_roc_license_types_apart_from_ditc_license_types()
    ensures
        license_type_ids_apart(spec_roc_license_types(), spec_ditc_license_types()),
{
    let a = spec_roc_license_types();
    let b = spec_ditc_license_types();
    assert(apart_each(a, b)) by {
        reveal_strlit("ky-ditc:crs-compliance");
        reveal_strlit("ky-ditc:fatca-compliance");
        reveal_strlit("ky-roc:exempt-company");
        reveal_strlit("ky-roc:foreign-company");
        reveal_strlit("ky-roc:foundation-company");
        reveal_strlit("ky-roc:llc");
        reveal_strlit("ky-roc:ordinary-company");
        reveal_strlit("ky-roc:segregated-portfolio-company");
        assert(a[0].license_type_id[3] != b[0].license_type_id[3]);
        assert(a[0].license_type_id[3] != b[1].license_type_id[3]);
        assert(a[1].license_type_id[3] != b[0].license_type_id[3]);
        assert(a[1].license_type_id[3] != b[1].license_type_id[3]);
        assert(a[2].license_type_id[3] != b[0].license_type_id[3]);
        assert(a[2].license_type_id[3] != b[1].license_type_id[3]);
        assert(a[3].license_type_id[3] != b[0].license_type_id[3]);
        assert(a[3].license_type_id[3] != b[1].license_type_id[3]);
        assert(a[4].license_type_id[3] != b[0].license_type_id[3]);
        assert(a[4].license_type_id[3] != b[1].license_type_id[3]);
        assert(a[5].license_type_id[3] != b[0].license_type_id[3]);
        assert(a[5].license_type_id[3] != b[1].license_type_id[3]);
        reveal_with_fuel(apart_each, 7);
        reveal_with_fuel(id_fresh_each, 3);
    }
    lemma_apart_each(a, b);
}

/// No two licence types of `cayman_license_types` share an identifier.
pub proof fn lemma_cayman_license_type_ids_distinct()
    ensures
        license_type_ids_distinct(spec_cayman_license_types()),
{
    lemma_cima_license_types_ids_distinct();
    lemma_roc_license_types_ids_distinct();
    lemma_ditc_license_types_ids_distinct();
    assert(spec_cayman_license_types() =~= spec_cima_license_types() + spec_roc_license_types() + spec_ditc_license_types());
    let acc = spec_cima_license_types();
    lemma_cima_license_types_apart_from_roc_license_types();
    let part = spec_cima_license_types();
    lemma_ids_distinct_append(acc, spec_roc_license_types());
    let acc = acc + spec_roc_license_types();
    lemma_cima_license_types_apart_from_ditc_license_types();
    lemma_roc_license_types_apart_from_ditc_license_types();
    let part = spec_cima_license_types();
    lemma_ids_apart_append(part, spec_roc_license_types(), spec_ditc_license_types());
    let part = part + spec_roc_license_types();
    lemma_ids_distinct_append(acc, spec_ditc_license_types());
    let acc = acc + spec_ditc_license_types();
    assert(spec_cayman_license_types() == acc);
}

/// Each licence-type identifier of `cima_license_types` starts with its regulator's
/// identifier and a colon.
proof fn lemma_cima_license_types_prefixed()
    ensures
        license_type_ids_prefixed(spec_cima_license_types()),
{
    let ts = spec_cima_license_types();
    assert(license_type_id_prefixed(ts[0])) by {
        reveal_strlit("ky-cima:banking-class-a");
        reveal_strlit("ky-cima");
        reveal_strlit(":");
        assert(ts[0].license_type_id.subrange(0, (ts[0].regulator_id + ":"@).len() as int) =~= ts[0].regulator_id + ":"@);
    }
    assert(license_type_id_prefixed(ts[1])) by {
        reveal_strlit("ky-cima:banking-class-b");
        reveal_strlit("ky-cima");
        reveal_strlit(":");
        assert(ts[1].license_type_id.subrange(0, (ts[1].regulator_id + ":"@).len() as int) =~= ts[1].regulator_id + ":"@);
    }
    assert(license_type_id_prefixed(ts[2])) by {
        reveal_strlit("ky-cima:insurance-class-a");
        reveal_strlit("ky-cima");
        reveal_strlit(":");
        assert(ts[2].license_type_id.subrange(0, (ts[2].regulator_id + ":"@).len() as int) =~= ts[2].regulator_id + ":"@);
    }
    assert(license_type_id_prefixed(ts[3])) by {
        reveal_strlit("ky-cima:insurance-class-b");
        reveal_strlit("ky-cima");
        reveal_strlit(":");
        assert(ts[3].license_type_id.subrange(0, (ts[3].regulator_id + ":"@).len() as int) =~= ts[3].regulator_id + ":"@);
    }
    assert(license_type_id_prefixed(ts[4])) by {
        reveal_strlit("ky-cima:insurance-class-c");
        reveal_strlit("ky-cima");
        reveal_strlit(":");
        assert(ts[4].license_type_id.subrange(0, (ts[4].regulator_id + ":"@).len() as int) =~= ts[4].regulator_id + ":"@);
    }
    assert(license_type_id_prefixed(ts[5])) by {
        reveal_strlit("ky-cima:insurance-manager");
        reveal_strlit("ky-cima");
        reveal_strlit(":");
        assert(ts[5].license_type_id.subrange(0, (ts[5].regulator_id + ":"@).len() as int) =~= ts[5].regulator_id + ":"@);
    }
    assert(license_type_id_prefixed(ts[6])) by {
        reveal_strlit("ky-cima:insurance-broker");
        reveal_strlit("ky-cima");
        reveal_strlit(":");
        assert(ts[6].license_type_id.subrange(0, (ts[6].regulator_id + ":"@).len() as int) =~= ts[6].regulator_id + ":"@);
    }
    assert(license_type_id_prefixed(ts[7])) by {
        reveal_strlit("ky-cima:insurance-agent");
        reveal_strlit("ky-cima");
        reveal_strlit(":");
        assert(ts[7].license_type_id.subrange(0, (ts[7].regulator_id + ":"@).len() as int) =~= ts[7].regulator_id + ":"@);
    }
    assert(license_type_id_prefixed(ts[8])) by {
        reveal_strlit("ky-cima:securities");
        reveal_strlit("ky-cima");
        reveal_strlit(":");
        assert(ts[8].license_type_id.subrange(0, (ts[8].regulator_id + ":"@).len() as int) =~= ts[8].regulator_id + ":"@);
    }
    assert(license_type_id_prefixed(ts[9])) by {
        reveal_strlit("ky-cima:fund-administration");
        reveal_strlit("ky-cima");
        reveal_strlit(":");
        assert(ts[9].license_type_id.subrange(0, (ts[9].regulator_id + ":"@).len() as int) =~= ts[9].regulator_id + ":"@);
    }
    assert(license_type_id_prefixed(ts[10])) by {
        reveal_strlit("ky-cima:mutual-fund");
        reveal_strlit("ky-cima");
        reveal_strlit(":");
        assert(ts[10].license_type_id.subrange(0, (ts[10].regulator_id + ":"@).len() as int) =~= ts[10].regulator_id + ":"@);
    }
    assert(license_type_id_prefixed(ts[11])) by {
        reveal_strlit("ky-cima:securities-vasp");
        reveal_strlit("ky-cima");
        reveal_strlit(":");
        assert(ts[11].license_type_id.subrange(0, (ts[11].regulator_id + ":"@).len() as int) =~= ts[11].regulator_id + ":"@);
    }
    assert(license_type_id_prefixed(ts[12])) by {
        reveal_strlit("ky-cima:money-transmission");
        reveal_strlit("ky-cima");
        reveal_strlit(":");
        assert(ts[12].license_type_id.subrange(0, (ts[12].regulator_id + ":"@).len() as int) =~= ts[12].regulator_id + ":"@);
    }
    assert(license_type_id_prefixed(ts[13])) by {
        reveal_strlit("ky-cima:currency-exchange");
        reveal_strlit("ky-cima");
        reveal_strlit(":");
        assert(ts[13].license_type_id.subrange(0, (ts[13].regulator_id + ":"@).len() as int) =~= ts[13].regulator_id + ":"@);
    }
    assert(license_type_id_prefixed(ts[14])) by {
        reveal_strlit("ky-cima:trust-license");
        reveal_strlit("ky-cima");
        reveal_strlit(":");
        assert(ts[14].license_type_id.subrange(0, (ts[14].regulator_id + ":"@).len() as int) =~= ts[14].regulator_id + ":"@);
    }
    assert(license_type_id_prefixed(ts[15])) by {
        reveal_strlit("ky-cima:company-management");
        reveal_strlit("ky-cima");
        reveal_strlit(":");
        assert(ts[15].license_type_id.subrange(0, (ts[15].regulator_id + ":"@).len() as int) =~= ts[15].regulator_id + ":"@);
    }
    assert(license_type_id_prefixed(ts[16])) by {
        reveal_strlit("ky-cima:cooperative-credit-union");
        reveal_strlit("ky-cima");
        reveal_strlit(":");
        assert(ts[16].license_type_id.subrange(0, (ts[16].regulator_id + ":"@).len() as int) =~= ts[16].regulator_id + ":"@);
    }
    assert(license_type_id_prefixed(ts[17])) by {
        reveal_strlit("ky-cima:vasp");
        reveal_strlit("ky-cima");
        reveal_strlit(":");
        assert(ts[17].license_type_id.subrange(0, (ts[17].regulator_id + ":"@).len() as int) =~= ts[17].regulator_id + ":"@);
    }
    assert(prefixed_each(ts)) by {
        reveal_with_fuel(prefixed_each, 19);
    }
    lemma_prefixed_each(ts);
}

/// Each licence-type identifier of `roc_license_types` starts with its regulator's
/// identifier and a colon.
proof fn lemma_roc_license_types_prefixed()
    ensures
        license_type_ids_prefixed(spec_roc_license_types()),
{
    let ts = spec_roc_license_types();
    assert(license_type_id_prefixed(ts[0])) by {
        reveal_strlit("ky-roc:exempt-company");
        reveal_strlit("ky-roc");
        reveal_strlit(":");
        assert(ts[0].license_type_id.subrange(0, (ts[0].regulator_id + ":"@).len() as int) =~= ts[0].regulator_id + ":"@);
    }
    assert(license_type_id_prefixed(ts[1])) by {
        reveal_strlit("ky-roc:ordinary-company");
        reveal_strlit("ky-roc");
        reveal_strlit(":");
        assert(ts[1].license_type_id.subrange(0, (ts[1].regulator_id + ":"@).len() as int) =~= ts[1].regulator_id + ":"@);
    }
    assert(license_type_id_prefixed(ts[2])) by {
        reveal_strlit("ky-roc:foreign-company");
        reveal_strlit("ky-roc");
        reveal_strlit(":");
        assert(ts[2].license_type_id.subrange(0, (ts[2].regulator_id + ":"@).len() as int) =~= ts[2].regulator_id + ":"@);
    }
    assert(license_type_id_prefixed(ts[3])) by {
        reveal_strlit("ky-roc:llc");
        reveal_strlit("ky-roc");
        reveal_strlit(":");
        assert(ts[3].license_type_id.subrange(0, (ts[3].regulator_id + ":"@).len() as int) =~= ts[3].regulator_id + ":"@);
    }
    assert(license_type_id_prefixed(ts[4])) by {
        reveal_strlit("ky-roc:foundation-company");
        reveal_strlit("ky-roc");
        reveal_strlit(":");
        assert(ts[4].license_type_id.subrange(0, (ts[4].regulator_id + ":"@).len() as int) =~= ts[4].regulator_id + ":"@);
    }
    assert(license_type_id_prefixed(ts[5])) by {
        reveal_strlit("ky-roc:segregated-portfolio-company");
        reveal_strlit("ky-roc");
        reveal_strlit(":");
        assert(ts[5].license_type_id.subrange(0, (ts[5].regulator_id + ":"@).len() as int) =~= ts[5].regulator_id + ":"@);
    }
    assert(prefixed_each(ts)) by {
        reveal_with_fuel(prefixed_each, 7);
    }
    lemma_prefixed_each(ts);
}

/// Each licence-type identifier of `ditc_license_types` starts with its regulator's
/// identifier and a colon.
proof fn lemma_ditc_license_types_prefixed()
    ensures
        license_type_ids_prefixed(spec_ditc_license_types()),
{
    let ts = spec_ditc_license_types();
    assert(license_type_id_prefixed(ts[0])) by {
        reveal_strlit("ky-ditc:crs-compliance");
        reveal_strlit("ky-ditc");
        reveal_strlit(":");
        assert(ts[0].license_type_id.subrange(0, (ts[0].regulator_id + ":"@).len() as int) =~= ts[0].regulator_id + ":"@);
    }
    assert(license_type_id_prefixed(ts[1])) by {
        reveal_strlit("ky-ditc:fatca-compliance");
        reveal_strlit("ky-ditc");
        reveal_strlit(":");
        assert(ts[1].license_type_id.subrange(0, (ts[1].regulator_id + ":"@).len() as int) =~= ts[1].regulator_id + ":"@);
    }
    assert(prefixed_each(ts)) by {
        reveal_with_fuel(prefixed_each, 3);
    }
    lemma_prefixed_each(ts);
}

/// Every licence-type identifier of the Cayman Islands catalog starts with the
/// identifier of the regulator that grants it, followed by a colon.
pub proof fn lemma_cayman_license_types_prefixed()
    ensures
        license_type_ids_prefixed(spec_cayman_license_types()),
{
    lemma_cima_license_types_prefixed();
    lemma_roc_license_types_prefixed();
    lemma_ditc_license_types_prefixed();
    lemma_prefixed_append(spec_cima_license_types(), spec_roc_license_types());
    lemma_prefixed_append(spec_cima_license_types() + spec_roc_license_types(), spec_ditc_license_types());
    assert(spec_cayman_license_types() =~= spec_cima_license_types() + spec_roc_license_types() + spec_ditc_license_types());
}

} // verus!
