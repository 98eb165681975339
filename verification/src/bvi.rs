//! # British Virgin Islands Regulatory Authority License Mappings
//!
//! BVI-specific license type definitions covering the two major
//! regulatory authorities:
//!
//! | Authority | Full Name | Domain |
//! |-----------|-----------|--------|
//! | **BVI FSC** | Financial Services Commission | Financial, Insurance, Investment, Digital Assets |
//! | **BVI RCA** | Registry of Corporate Affairs | Corporate Registration |
//!
//! Each authority is represented as a [`LicensepackRegulator`] with its
//! associated [`LicenseTypeDefinition`] entries. These definitions provide
//! the BVI-specific license taxonomy used by the compliance tensor's
//! LICENSING domain evaluation.

use vstd::prelude::*;

use crate::license::{
    license_type, license_type_view, license_types_view, regulator, regulator_view,
    regulators_view, LicenseTypeDefinition, LicenseTypeView, LicensepackRegulator,
    RegulatorView, RequirementValue,
    lemma_license_types_view_append, lemma_regulators_view_append,
};

use crate::catalog::{
    apart_each, id_fresh_each, ids_distinct_each, lemma_apart_each, lemma_ids_distinct_append, lemma_ids_distinct_each, license_type_ids_apart, license_type_ids_distinct, complete_each, every_regulator_grants, granted_by_each, granted_by_listed_regulators, grants_each, grants_some, in_jurisdiction_each, lemma_complete_append, lemma_complete_each, lemma_every_combine, lemma_granted_by_each, lemma_granted_combine, lemma_grants_each, lemma_in_jurisdiction_append, lemma_in_jurisdiction_each, license_types_complete, regulators_in_jurisdiction,
};

use crate::catalog::{
    lemma_prefixed_append, lemma_prefixed_each, license_type_id_prefixed, license_type_ids_prefixed,
    prefixed_each,
};

verus! {

/// The view of `fsc_regulator`.
pub open spec fn spec_fsc_regulator() -> RegulatorView {
    regulator_view(
        "vg-fsc"@,
        "BVI Financial Services Commission"@,
        "vg"@,
        Some("https://www.bvifsc.vg"@),
        seq!["license_search"@, "entity_registry"@],
    )
}

/// BVI FSC regulator profile.
pub fn fsc_regulator() -> (r: LicensepackRegulator)
    ensures
        r@ == spec_fsc_regulator(),
        r@ == regulator_view(
            "vg-fsc"@,
            "BVI Financial Services Commission"@,
            "vg"@,
            Some("https://www.bvifsc.vg"@),
            seq!["license_search"@, "entity_registry"@],
        ),
{
    let r =
        regulator(
            "vg-fsc",
            "BVI Financial Services Commission",
            "vg",
            Some("https://www.bvifsc.vg"),
            &["license_search", "entity_registry"],
        );
    proof {
        assert(r@ =~~= spec_fsc_regulator());
    }
    r
}

/// The view of `fsc_license_types`.
pub open spec fn spec_fsc_license_types() -> Seq<LicenseTypeView> {
    seq![
        license_type_view(
            "vg-fsc:banking-class-i"@,
            "Class I Banking License (Offshore)"@,
            "Class I general banking license for offshore banking business under the Banks and Trust Companies Act"@,
            "vg-fsc"@,
            Some("financial"@),
            seq!["deposit_taking"@, "lending"@, "foreign_exchange"@, "trade_finance"@],
            seq![],
            seq![("USD"@, "10000"@)],
            seq![("USD"@, "20000"@)],
            None,
        ),
        license_type_view(
            "vg-fsc:banking-class-ii"@,
            "Class II Banking License (Restricted)"@,
            "Class II restricted banking license for limited banking operations"@,
            "vg-fsc"@,
            Some("financial"@),
            seq!["restricted_deposit_taking"@, "restricted_lending"@],
            seq![],
            seq![("USD"@, "5000"@)],
            seq![("USD"@, "10000"@)],
            None,
        ),
        license_type_view(
            "vg-fsc:insurance-general"@,
            "General Insurance License"@,
            "License to carry on general insurance business under the Insurance Act"@,
            "vg-fsc"@,
            Some("insurance"@),
            seq!["general_insurance"@, "property_insurance"@, "casualty_insurance"@],
            seq![],
            seq![("USD"@, "5000"@)],
            seq![("USD"@, "5000"@)],
            Some(1i32),
        ),
        license_type_view(
            "vg-fsc:insurance-long-term"@,
            "Long-Term Insurance License"@,
            "License to carry on long-term (life) insurance business"@,
            "vg-fsc"@,
            Some("insurance"@),
            seq!["life_insurance"@, "annuities"@],
            seq![],
            seq![("USD"@, "5000"@)],
            seq![("USD"@, "5000"@)],
            Some(1i32),
        ),
        license_type_view(
            "vg-fsc:insurance-manager"@,
            "Insurance Manager License"@,
            "License to act as an insurance manager in the BVI"@,
            "vg-fsc"@,
            Some("insurance"@),
            seq!["insurance_management"@, "captive_management"@],
            seq![],
            seq![("USD"@, "2500"@)],
            seq![("USD"@, "2500"@)],
            Some(1i32),
        ),
        license_type_view(
            "vg-fsc:insurance-broker"@,
            "Insurance Broker License"@,
            "License to act as an insurance broker"@,
            "vg-fsc"@,
            Some("insurance"@),
            seq!["insurance_brokerage"@, "insurance_placement"@],
            seq![],
            seq![("USD"@, "2500"@)],
            seq![("USD"@, "2500"@)],
            Some(1i32),
        ),
        license_type_view(
            "vg-fsc:insurance-agent"@,
            "Insurance Agent License"@,
            "License to act as an insurance agent"@,
            "vg-fsc"@,
            Some("insurance"@),
            seq!["insurance_solicitation"@, "insurance_sales"@],
            seq![],
            seq![("USD"@, "1000"@)],
            seq![("USD"@, "1000"@)],
            Some(1i32),
        ),
        license_type_view(
            "vg-fsc:fund-manager"@,
            "Fund Manager License"@,
            "License to manage investment funds under the Securities and Investment Business Act"@,
            "vg-fsc"@,
            Some("financial"@),
            seq!["fund_management"@, "portfolio_management"@, "asset_allocation"@],
            seq![],
            seq![("USD"@, "5000"@)],
            seq![("USD"@, "5000"@)],
            Some(1i32),
        ),
        license_type_view(
            "vg-fsc:investment-adviser"@,
            "Investment Adviser License"@,
            "License to provide investment advisory services"@,
            "vg-fsc"@,
            Some("financial"@),
            seq!["investment_advisory"@, "financial_planning"@],
            seq![],
            seq![("USD"@, "3000"@)],
            seq![("USD"@, "3000"@)],
            Some(1i32),
        ),
        license_type_view(
            "vg-fsc:broker-dealer"@,
            "Broker-Dealer License"@,
            "License to operate as a broker-dealer in securities"@,
            "vg-fsc"@,
            Some("financial"@),
            seq!["securities_brokerage"@, "securities_dealing"@, "trading"@],
            seq![],
            seq![("USD"@, "5000"@)],
            seq![("USD"@, "5000"@)],
            Some(1i32),
        ),
        license_type_view(
            "vg-fsc:exchange"@,
            "Exchange License"@,
            "License to operate a securities or commodities exchange"@,
            "vg-fsc"@,
            Some("financial"@),
            seq!["exchange_operations"@, "order_matching"@, "market_operations"@],
            seq![],
            seq![("USD"@, "10000"@)],
            seq![("USD"@, "10000"@)],
            Some(1i32),
        ),
        license_type_view(
            "vg-fsc:money-services-business"@,
            "Money Services Business License"@,
            "License to operate a money services business (MSB) including remittance and money transmission"@,
            "vg-fsc"@,
            Some("financial"@),
            seq!["money_transmission"@, "remittance"@, "currency_exchange"@],
            seq![],
            seq![("USD"@, "3000"@)],
            seq![("USD"@, "3000"@)],
            Some(1i32),
        ),
        license_type_view(
            "vg-fsc:financing-business"@,
            "Financing Business License"@,
            "License to carry on financing business including lending and credit"@,
            "vg-fsc"@,
            Some("financial"@),
            seq!["lending"@, "credit_facilities"@, "financing"@],
            seq![],
            seq![("USD"@, "3000"@)],
            seq![("USD"@, "3000"@)],
            Some(1i32),
        ),
        license_type_view(
            "vg-fsc:mutual-fund-professional"@,
            "Professional Mutual Fund"@,
            "Recognition as a professional mutual fund (minimum initial investment USD 100,000)"@,
            "vg-fsc"@,
            Some("financial"@),
            seq!["collective_investment"@, "professional_fund_operations"@],
            seq![],
            seq![("USD"@, "1500"@)],
            seq![("USD"@, "1500"@)],
            None,
        ),
        license_type_view(
            "vg-fsc:mutual-fund-private"@,
            "Private Mutual Fund"@,
            "Recognition as a private mutual fund (max 50 investors)"@,
            "vg-fsc"@,
            Some("financial"@),
            seq!["collective_investment"@, "private_fund_operations"@],
            seq![],
            seq![("USD"@, "1500"@)],
            seq![("USD"@, "1500"@)],
            None,
        ),
        license_type_view(
            "vg-fsc:mutual-fund-public"@,
            "Public Mutual Fund"@,
            "Registration of a public mutual fund"@,
            "vg-fsc"@,
            Some("financial"@),
            seq!["collective_investment"@, "public_fund_operations"@],
            seq![],
            seq![("USD"@, "2500"@)],
            seq![("USD"@, "2500"@)],
            None,
        ),
        license_type_view(
            "vg-fsc:mutual-fund-recognized-foreign"@,
            "Recognized Foreign Mutual Fund"@,
            "Recognition of a foreign mutual fund for distribution in the BVI"@,
            "vg-fsc"@,
            Some("financial"@),
            seq!["collective_investment"@, "foreign_fund_distribution"@],
            seq![],
            seq![("USD"@, "1500"@)],
            seq![("USD"@, "1500"@)],
            None,
        ),
        license_type_view(
            "vg-fsc:csp"@,
            "Company Service Provider License"@,
            "License to provide company management and registered agent services"@,
            "vg-fsc"@,
            Some("corporate"@),
            seq!["company_formation"@, "registered_agent_services"@, "corporate_administration"@],
            seq![],
            seq![("USD"@, "5000"@)],
            seq![("USD"@, "5000"@)],
            Some(1i32),
        ),
        license_type_view(
            "vg-fsc:trust-business"@,
            "Trust Business License"@,
            "License to carry on trust business under the Banks and Trust Companies Act"@,
            "vg-fsc"@,
            Some("financial"@),
            seq!["trust_administration"@, "trust_services"@, "fiduciary_services"@],
            seq![],
            seq![("USD"@, "5000"@)],
            seq![("USD"@, "5000"@)],
            None,
        ),
        license_type_view(
            "vg-fsc:credit-union"@,
            "Credit Union License"@,
            "License to operate a credit union under the Co-operative Societies Act"@,
            "vg-fsc"@,
            Some("financial"@),
            seq!["member_deposit_taking"@, "member_lending"@],
            seq![],
            seq![],
            seq![],
            None,
        ),
        license_type_view(
            "vg-fsc:vasp"@,
            "Virtual Asset Service Provider (VASP) License"@,
            "License to operate as a virtual asset service provider under the Virtual Assets Service Providers Act"@,
            "vg-fsc"@,
            Some("financial"@),
            seq!["virtual_asset_exchange"@, "virtual_asset_custody"@, "virtual_asset_transfer"@, "virtual_asset_issuance"@],
            seq![],
            seq![("USD"@, "5000"@)],
            seq![("USD"@, "5000"@)],
            Some(1i32),
        )
    ]
}

/// BVI FSC license type definitions.
pub fn fsc_license_types() -> (r: Vec<LicenseTypeDefinition>)
    ensures
        license_types_view(r@) == spec_fsc_license_types(),
        license_types_view(r@) == seq![
            license_type_view(
                "vg-fsc:banking-class-i"@,
                "Class I Banking License (Offshore)"@,
                "Class I general banking license for offshore banking business under the Banks and Trust Companies Act"@,
                "vg-fsc"@,
                Some("financial"@),
                seq!["deposit_taking"@, "lending"@, "foreign_exchange"@, "trade_finance"@],
                seq![],
                seq![("USD"@, "10000"@)],
                seq![("USD"@, "20000"@)],
                None,
            ),
            license_type_view(
                "vg-fsc:banking-class-ii"@,
                "Class II Banking License (Restricted)"@,
                "Class II restricted banking license for limited banking operations"@,
                "vg-fsc"@,
                Some("financial"@),
                seq!["restricted_deposit_taking"@, "restricted_lending"@],
                seq![],
                seq![("USD"@, "5000"@)],
                seq![("USD"@, "10000"@)],
                None,
            ),
            license_type_view(
                "vg-fsc:insurance-general"@,
                "General Insurance License"@,
                "License to carry on general insurance business under the Insurance Act"@,
                "vg-fsc"@,
                Some("insurance"@),
                seq!["general_insurance"@, "property_insurance"@, "casualty_insurance"@],
                seq![],
                seq![("USD"@, "5000"@)],
                seq![("USD"@, "5000"@)],
                Some(1i32),
            ),
            license_type_view(
                "vg-fsc:insurance-long-term"@,
                "Long-Term Insurance License"@,
                "License to carry on long-term (life) insurance business"@,
                "vg-fsc"@,
                Some("insurance"@),
                seq!["life_insurance"@, "annuities"@],
                seq![],
                seq![("USD"@, "5000"@)],
                seq![("USD"@, "5000"@)],
                Some(1i32),
            ),
            license_type_view(
                "vg-fsc:insurance-manager"@,
                "Insurance Manager License"@,
                "License to act as an insurance manager in the BVI"@,
                "vg-fsc"@,
                Some("insurance"@),
                seq!["insurance_management"@, "captive_management"@],
                seq![],
                seq![("USD"@, "2500"@)],
                seq![("USD"@, "2500"@)],
                Some(1i32),
            ),
            license_type_view(
                "vg-fsc:insurance-broker"@,
                "Insurance Broker License"@,
                "License to act as an insurance broker"@,
                "vg-fsc"@,
                Some("insurance"@),
                seq!["insurance_brokerage"@, "insurance_placement"@],
                seq![],
                seq![("USD"@, "2500"@)],
                seq![("USD"@, "2500"@)],
                Some(1i32),
            ),
            license_type_view(
                "vg-fsc:insurance-agent"@,
                "Insurance Agent License"@,
                "License to act as an insurance agent"@,
                "vg-fsc"@,
                Some("insurance"@),
                seq!["insurance_solicitation"@, "insurance_sales"@],
                seq![],
                seq![("USD"@, "1000"@)],
                seq![("USD"@, "1000"@)],
                Some(1i32),
            ),
            license_type_view(
                "vg-fsc:fund-manager"@,
                "Fund Manager License"@,
                "License to manage investment funds under the Securities and Investment Business Act"@,
                "vg-fsc"@,
                Some("financial"@),
                seq!["fund_management"@, "portfolio_management"@, "asset_allocation"@],
                seq![],
                seq![("USD"@, "5000"@)],
                seq![("USD"@, "5000"@)],
                Some(1i32),
            ),
            license_type_view(
                "vg-fsc:investment-adviser"@,
                "Investment Adviser License"@,
                "License to provide investment advisory services"@,
                "vg-fsc"@,
                Some("financial"@),
                seq!["investment_advisory"@, "financial_planning"@],
                seq![],
                seq![("USD"@, "3000"@)],
                seq![("USD"@, "3000"@)],
                Some(1i32),
            ),
            license_type_view(
                "vg-fsc:broker-dealer"@,
                "Broker-Dealer License"@,
                "License to operate as a broker-dealer in securities"@,
                "vg-fsc"@,
                Some("financial"@),
                seq!["securities_brokerage"@, "securities_dealing"@, "trading"@],
                seq![],
                seq![("USD"@, "5000"@)],
                seq![("USD"@, "5000"@)],
                Some(1i32),
            ),
            license_type_view(
                "vg-fsc:exchange"@,
                "Exchange License"@,
                "License to operate a securities or commodities exchange"@,
                "vg-fsc"@,
                Some("financial"@),
                seq!["exchange_operations"@, "order_matching"@, "market_operations"@],
                seq![],
                seq![("USD"@, "10000"@)],
                seq![("USD"@, "10000"@)],
                Some(1i32),
            ),
            license_type_view(
                "vg-fsc:money-services-business"@,
                "Money Services Business License"@,
                "License to operate a money services business (MSB) including remittance and money transmission"@,
                "vg-fsc"@,
                Some("financial"@),
                seq!["money_transmission"@, "remittance"@, "currency_exchange"@],
                seq![],
                seq![("USD"@, "3000"@)],
                seq![("USD"@, "3000"@)],
                Some(1i32),
            ),
            license_type_view(
                "vg-fsc:financing-business"@,
                "Financing Business License"@,
                "License to carry on financing business including lending and credit"@,
                "vg-fsc"@,
                Some("financial"@),
                seq!["lending"@, "credit_facilities"@, "financing"@],
                seq![],
                seq![("USD"@, "3000"@)],
                seq![("USD"@, "3000"@)],
                Some(1i32),
            ),
            license_type_view(
                "vg-fsc:mutual-fund-professional"@,
                "Professional Mutual Fund"@,
                "Recognition as a professional mutual fund (minimum initial investment USD 100,000)"@,
                "vg-fsc"@,
                Some("financial"@),
                seq!["collective_investment"@, "professional_fund_operations"@],
                seq![],
                seq![("USD"@, "1500"@)],
                seq![("USD"@, "1500"@)],
                None,
            ),
            license_type_view(
                "vg-fsc:mutual-fund-private"@,
                "Private Mutual Fund"@,
                "Recognition as a private mutual fund (max 50 investors)"@,
                "vg-fsc"@,
                Some("financial"@),
                seq!["collective_investment"@, "private_fund_operations"@],
                seq![],
                seq![("USD"@, "1500"@)],
                seq![("USD"@, "1500"@)],
                None,
            ),
            license_type_view(
                "vg-fsc:mutual-fund-public"@,
                "Public Mutual Fund"@,
                "Registration of a public mutual fund"@,
                "vg-fsc"@,
                Some("financial"@),
                seq!["collective_investment"@, "public_fund_operations"@],
                seq![],
                seq![("USD"@, "2500"@)],
                seq![("USD"@, "2500"@)],
                None,
            ),
            license_type_view(
                "vg-fsc:mutual-fund-recognized-foreign"@,
                "Recognized Foreign Mutual Fund"@,
                "Recognition of a foreign mutual fund for distribution in the BVI"@,
                "vg-fsc"@,
                Some("financial"@),
                seq!["collective_investment"@, "foreign_fund_distribution"@],
                seq![],
                seq![("USD"@, "1500"@)],
                seq![("USD"@, "1500"@)],
                None,
            ),
            license_type_view(
                "vg-fsc:csp"@,
                "Company Service Provider License"@,
                "License to provide company management and registered agent services"@,
                "vg-fsc"@,
                Some("corporate"@),
                seq!["company_formation"@, "registered_agent_services"@, "corporate_administration"@],
                seq![],
                seq![("USD"@, "5000"@)],
                seq![("USD"@, "5000"@)],
                Some(1i32),
            ),
            license_type_view(
                "vg-fsc:trust-business"@,
                "Trust Business License"@,
                "License to carry on trust business under the Banks and Trust Companies Act"@,
                "vg-fsc"@,
                Some("financial"@),
                seq!["trust_administration"@, "trust_services"@, "fiduciary_services"@],
                seq![],
                seq![("USD"@, "5000"@)],
                seq![("USD"@, "5000"@)],
                None,
            ),
            license_type_view(
                "vg-fsc:credit-union"@,
                "Credit Union License"@,
                "License to operate a credit union under the Co-operative Societies Act"@,
                "vg-fsc"@,
                Some("financial"@),
                seq!["member_deposit_taking"@, "member_lending"@],
                seq![],
                seq![],
                seq![],
                None,
            ),
            license_type_view(
                "vg-fsc:vasp"@,
                "Virtual Asset Service Provider (VASP) License"@,
                "License to operate as a virtual asset service provider under the Virtual Assets Service Providers Act"@,
                "vg-fsc"@,
                Some("financial"@),
                seq!["virtual_asset_exchange"@, "virtual_asset_custody"@, "virtual_asset_transfer"@, "virtual_asset_issuance"@],
                seq![],
                seq![("USD"@, "5000"@)],
                seq![("USD"@, "5000"@)],
                Some(1i32),
            )
        ],
{
    let r = vec![
        license_type(
            "vg-fsc:banking-class-i",
            "Class I Banking License (Offshore)",
            "Class I general banking license for offshore banking business under the Banks and Trust Companies Act",
            "vg-fsc",
            Some("financial"),
            &["deposit_taking", "lending", "foreign_exchange", "trade_finance"],
            &[],
            &[("USD", "10000")],
            &[("USD", "20000")],
            None,
        ),
        license_type(
            "vg-fsc:banking-class-ii",
            "Class II Banking License (Restricted)",
            "Class II restricted banking license for limited banking operations",
            "vg-fsc",
            Some("financial"),
            &["restricted_deposit_taking", "restricted_lending"],
            &[],
            &[("USD", "5000")],
            &[("USD", "10000")],
            None,
        ),
        license_type(
            "vg-fsc:insurance-general",
            "General Insurance License",
            "License to carry on general insurance business under the Insurance Act",
            "vg-fsc",
            Some("insurance"),
            &["general_insurance", "property_insurance", "casualty_insurance"],
            &[],
            &[("USD", "5000")],
            &[("USD", "5000")],
            Some(1i32),
        ),
        license_type(
            "vg-fsc:insurance-long-term",
            "Long-Term Insurance License",
            "License to carry on long-term (life) insurance business",
            "vg-fsc",
            Some("insurance"),
            &["life_insurance", "annuities"],
            &[],
            &[("USD", "5000")],
            &[("USD", "5000")],
            Some(1i32),
        ),
        license_type(
            "vg-fsc:insurance-manager",
            "Insurance Manager License",
            "License to act as an insurance manager in the BVI",
            "vg-fsc",
            Some("insurance"),
            &["insurance_management", "captive_management"],
            &[],
            &[("USD", "2500")],
            &[("USD", "2500")],
            Some(1i32),
        ),
        license_type(
            "vg-fsc:insurance-broker",
            "Insurance Broker License",
            "License to act as an insurance broker",
            "vg-fsc",
            Some("insurance"),
            &["insurance_brokerage", "insurance_placement"],
            &[],
            &[("USD", "2500")],
            &[("USD", "2500")],
            Some(1i32),
        ),
        license_type(
            "vg-fsc:insurance-agent",
            "Insurance Agent License",
            "License to act as an insurance agent",
            "vg-fsc",
            Some("insurance"),
            &["insurance_solicitation", "insurance_sales"],
            &[],
            &[("USD", "1000")],
            &[("USD", "1000")],
            Some(1i32),
        ),
        license_type(
            "vg-fsc:fund-manager",
            "Fund Manager License",
            "License to manage investment funds under the Securities and Investment Business Act",
            "vg-fsc",
            Some("financial"),
            &["fund_management", "portfolio_management", "asset_allocation"],
            &[],
            &[("USD", "5000")],
            &[("USD", "5000")],
            Some(1i32),
        ),
        license_type(
            "vg-fsc:investment-adviser",
            "Investment Adviser License",
            "License to provide investment advisory services",
            "vg-fsc",
            Some("financial"),
            &["investment_advisory", "financial_planning"],
            &[],
            &[("USD", "3000")],
            &[("USD", "3000")],
            Some(1i32),
        ),
        license_type(
            "vg-fsc:broker-dealer",
            "Broker-Dealer License",
            "License to operate as a broker-dealer in securities",
            "vg-fsc",
            Some("financial"),
            &["securities_brokerage", "securities_dealing", "trading"],
            &[],
            &[("USD", "5000")],
            &[("USD", "5000")],
            Some(1i32),
        ),
        license_type(
            "vg-fsc:exchange",
            "Exchange License",
            "License to operate a securities or commodities exchange",
            "vg-fsc",
            Some("financial"),
            &["exchange_operations", "order_matching", "market_operations"],
            &[],
            &[("USD", "10000")],
            &[("USD", "10000")],
            Some(1i32),
        ),
        license_type(
            "vg-fsc:money-services-business",
            "Money Services Business License",
            "License to operate a money services business (MSB) including remittance and money transmission",
            "vg-fsc",
            Some("financial"),
            &["money_transmission", "remittance", "currency_exchange"],
            &[],
            &[("USD", "3000")],
            &[("USD", "3000")],
            Some(1i32),
        ),
        license_type(
            "vg-fsc:financing-business",
            "Financing Business License",
            "License to carry on financing business including lending and credit",
            "vg-fsc",
            Some("financial"),
            &["lending", "credit_facilities", "financing"],
            &[],
            &[("USD", "3000")],
            &[("USD", "3000")],
            Some(1i32),
        ),
        license_type(
            "vg-fsc:mutual-fund-professional",
            "Professional Mutual Fund",
            "Recognition as a professional mutual fund (minimum initial investment USD 100,000)",
            "vg-fsc",
            Some("financial"),
            &["collective_investment", "professional_fund_operations"],
            &[],
            &[("USD", "1500")],
            &[("USD", "1500")],
            None,
        ),
        license_type(
            "vg-fsc:mutual-fund-private",
            "Private Mutual Fund",
            "Recognition as a private mutual fund (max 50 investors)",
            "vg-fsc",
            Some("financial"),
            &["collective_investment", "private_fund_operations"],
            &[],
            &[("USD", "1500")],
            &[("USD", "1500")],
            None,
        ),
        license_type(
            "vg-fsc:mutual-fund-public",
            "Public Mutual Fund",
            "Registration of a public mutual fund",
            "vg-fsc",
            Some("financial"),
            &["collective_investment", "public_fund_operations"],
            &[],
            &[("USD", "2500")],
            &[("USD", "2500")],
            None,
        ),
        license_type(
            "vg-fsc:mutual-fund-recognized-foreign",
            "Recognized Foreign Mutual Fund",
            "Recognition of a foreign mutual fund for distribution in the BVI",
            "vg-fsc",
            Some("financial"),
            &["collective_investment", "foreign_fund_distribution"],
            &[],
            &[("USD", "1500")],
            &[("USD", "1500")],
            None,
        ),
        license_type(
            "vg-fsc:csp",
            "Company Service Provider License",
            "License to provide company management and registered agent services",
            "vg-fsc",
            Some("corporate"),
            &["company_formation", "registered_agent_services", "corporate_administration"],
            &[],
            &[("USD", "5000")],
            &[("USD", "5000")],
            Some(1i32),
        ),
        license_type(
            "vg-fsc:trust-business",
            "Trust Business License",
            "License to carry on trust business under the Banks and Trust Companies Act",
            "vg-fsc",
            Some("financial"),
            &["trust_administration", "trust_services", "fiduciary_services"],
            &[],
            &[("USD", "5000")],
            &[("USD", "5000")],
            None,
        ),
        license_type(
            "vg-fsc:credit-union",
            "Credit Union License",
            "License to operate a credit union under the Co-operative Societies Act",
            "vg-fsc",
            Some("financial"),
            &["member_deposit_taking", "member_lending"],
            &[],
            &[],
            &[],
            None,
        ),
        license_type(
            "vg-fsc:vasp",
            "Virtual Asset Service Provider (VASP) License",
            "License to operate as a virtual asset service provider under the Virtual Assets Service Providers Act",
            "vg-fsc",
            Some("financial"),
            &["virtual_asset_exchange", "virtual_asset_custody", "virtual_asset_transfer", "virtual_asset_issuance"],
            &[],
            &[("USD", "5000")],
            &[("USD", "5000")],
            Some(1i32),
        )
    ];
    proof {
        assert(license_types_view(r@) =~~= spec_fsc_license_types());
    }
    r
}

/// The view of `rca_regulator`.
pub open spec fn spec_rca_regulator() -> RegulatorView {
    regulator_view(
        "vg-rca"@,
        "BVI Registry of Corporate Affairs"@,
        "vg"@,
        Some("https://www.bvi.gov.vg/registry-corporate-affairs"@),
        seq!["company_search"@],
    )
}

/// BVI Registry of Corporate Affairs regulator profile.
pub fn rca_regulator() -> (r: LicensepackRegulator)
    ensures
        r@ == spec_rca_regulator(),
        r@ == regulator_view(
            "vg-rca"@,
            "BVI Registry of Corporate Affairs"@,
            "vg"@,
            Some("https://www.bvi.gov.vg/registry-corporate-affairs"@),
            seq!["company_search"@],
        ),
{
    let r =
        regulator(
            "vg-rca",
            "BVI Registry of Corporate Affairs",
            "vg",
            Some("https://www.bvi.gov.vg/registry-corporate-affairs"),
            &["company_search"],
        );
    proof {
        assert(r@ =~~= spec_rca_regulator());
    }
    r
}

/// The view of `rca_license_types`.
pub open spec fn spec_rca_license_types() -> Seq<LicenseTypeView> {
    seq![
        license_type_view(
            "vg-rca:business-company"@,
            "BVI Business Company (BC) Registration"@,
            "Registration of a BVI Business Company under the BVI Business Companies Act"@,
            "vg-rca"@,
            Some("corporate"@),
            seq!["business_operations"@, "holding_company"@, "trading"@],
            seq![],
            seq![("USD"@, "450"@)],
            seq![("USD"@, "450"@)],
            None,
        ),
        license_type_view(
            "vg-rca:limited-partnership"@,
            "Limited Partnership Registration"@,
            "Registration of a limited partnership under the Limited Partnership Act"@,
            "vg-rca"@,
            Some("corporate"@),
            seq!["partnership_operations"@, "investment_holding"@],
            seq![],
            seq![("USD"@, "250"@)],
            seq![("USD"@, "250"@)],
            None,
        ),
        license_type_view(
            "vg-rca:segregated-portfolio-company"@,
            "Segregated Portfolio Company Registration"@,
            "Registration of a segregated portfolio company (SPC) under the BVI Business Companies Act"@,
            "vg-rca"@,
            Some("corporate"@),
            seq!["segregated_portfolio_operations"@, "fund_structuring"@, "insurance_structuring"@],
            seq![],
            seq![("USD"@, "650"@)],
            seq![("USD"@, "650"@)],
            None,
        ),
        license_type_view(
            "vg-rca:foreign-company"@,
            "Foreign Company Registration"@,
            "Registration of a foreign company to conduct business in the BVI"@,
            "vg-rca"@,
            Some("corporate"@),
            seq!["foreign_business_operations"@],
            seq![],
            seq![("USD"@, "450"@)],
            seq![("USD"@, "450"@)],
            None,
        )
    ]
}

/// BVI RCA license type definitions (corporate registrations).
pub fn rca_license_types() -> (r: Vec<LicenseTypeDefinition>)
    ensures
        license_types_view(r@) == spec_rca_license_types(),
        license_types_view(r@) == seq![
            license_type_view(
                "vg-rca:business-company"@,
                "BVI Business Company (BC) Registration"@,
                "Registration of a BVI Business Company under the BVI Business Companies Act"@,
                "vg-rca"@,
                Some("corporate"@),
                seq!["business_operations"@, "holding_company"@, "trading"@],
                seq![],
                seq![("USD"@, "450"@)],
                seq![("USD"@, "450"@)],
                None,
            ),
            license_type_view(
                "vg-rca:limited-partnership"@,
                "Limited Partnership Registration"@,
                "Registration of a limited partnership under the Limited Partnership Act"@,
                "vg-rca"@,
                Some("corporate"@),
                seq!["partnership_operations"@, "investment_holding"@],
                seq![],
                seq![("USD"@, "250"@)],
                seq![("USD"@, "250"@)],
                None,
            ),
            license_type_view(
                "vg-rca:segregated-portfolio-company"@,
                "Segregated Portfolio Company Registration"@,
                "Registration of a segregated portfolio company (SPC) under the BVI Business Companies Act"@,
                "vg-rca"@,
                Some("corporate"@),
                seq!["segregated_portfolio_operations"@, "fund_structuring"@, "insurance_structuring"@],
                seq![],
                seq![("USD"@, "650"@)],
                seq![("USD"@, "650"@)],
                None,
            ),
            license_type_view(
                "vg-rca:foreign-company"@,
                "Foreign Company Registration"@,
                "Registration of a foreign company to conduct business in the BVI"@,
                "vg-rca"@,
                Some("corporate"@),
                seq!["foreign_business_operations"@],
                seq![],
                seq![("USD"@, "450"@)],
                seq![("USD"@, "450"@)],
                None,
            )
        ],
{
    let r = vec![
        license_type(
            "vg-rca:business-company",
            "BVI Business Company (BC) Registration",
            "Registration of a BVI Business Company under the BVI Business Companies Act",
            "vg-rca",
            Some("corporate"),
            &["business_operations", "holding_company", "trading"],
            &[],
            &[("USD", "450")],
            &[("USD", "450")],
            None,
        ),
        license_type(
            "vg-rca:limited-partnership",
            "Limited Partnership Registration",
            "Registration of a limited partnership under the Limited Partnership Act",
            "vg-rca",
            Some("corporate"),
            &["partnership_operations", "investment_holding"],
            &[],
            &[("USD", "250")],
            &[("USD", "250")],
            None,
        ),
        license_type(
            "vg-rca:segregated-portfolio-company",
            "Segregated Portfolio Company Registration",
            "Registration of a segregated portfolio company (SPC) under the BVI Business Companies Act",
            "vg-rca",
            Some("corporate"),
            &["segregated_portfolio_operations", "fund_structuring", "insurance_structuring"],
            &[],
            &[("USD", "650")],
            &[("USD", "650")],
            None,
        ),
        license_type(
            "vg-rca:foreign-company",
            "Foreign Company Registration",
            "Registration of a foreign company to conduct business in the BVI",
            "vg-rca",
            Some("corporate"),
            &["foreign_business_operations"],
            &[],
            &[("USD", "450")],
            &[("USD", "450")],
            None,
        )
    ];
    proof {
        assert(license_types_view(r@) =~~= spec_rca_license_types());
    }
    r
}

/// The view of `bvi_regulators`.
pub open spec fn spec_bvi_regulators() -> Seq<RegulatorView> {
    seq![spec_fsc_regulator(), spec_rca_regulator()]
}

/// All BVI regulatory authorities.
pub fn bvi_regulators() -> (r: Vec<LicensepackRegulator>)
    ensures
        regulators_view(r@) == spec_bvi_regulators(),
        regulators_view(r@) == seq![spec_fsc_regulator(), spec_rca_regulator()],
{
    let r = vec![fsc_regulator(), rca_regulator()];
    proof {
        assert(regulators_view(r@) =~~= spec_bvi_regulators());
    }
    r
}

/// The view of `bvi_license_types`.
pub open spec fn spec_bvi_license_types() -> Seq<LicenseTypeView> {
    spec_fsc_license_types()
        + spec_rca_license_types()
}

/// All BVI license type definitions across all authorities.
pub fn bvi_license_types() -> (r: Vec<LicenseTypeDefinition>)
    ensures
        license_types_view(r@) == spec_bvi_license_types(),
        license_types_view(r@) == spec_fsc_license_types()
            + spec_rca_license_types(),
{
    let mut all: Vec<LicenseTypeDefinition> = Vec::new();
    proof {
        assert(license_types_view(all@) =~= Seq::<LicenseTypeView>::empty());
    }
    let ghost before = all@;
    let mut part = fsc_license_types();
    let ghost added = part@;
    all.append(&mut part);
    proof {
        lemma_license_types_view_append(before, added);
        assert(license_types_view(all@) =~= spec_fsc_license_types());
    }
    let ghost before = all@;
    let mut part = rca_license_types();
    let ghost added = part@;
    all.append(&mut part);
    proof {
        lemma_license_types_view_append(before, added);
        assert(license_types_view(all@) =~= spec_fsc_license_types() + spec_rca_license_types());
    }
    all
}

/// The licence types of `fsc_license_types` are complete, granted by its regulators, and
/// each of its regulators grants at least one of them.
proof fn lemma_fsc_group()
    ensures
        license_types_complete(spec_fsc_license_types()),
        granted_by_listed_regulators(spec_fsc_license_types(), seq![spec_fsc_regulator()]),
        every_regulator_grants(spec_fsc_license_types(), seq![spec_fsc_regulator()]),
        regulators_in_jurisdiction(seq![spec_fsc_regulator()], "vg"@),
{
    assert(complete_each(spec_fsc_license_types())) by {
        reveal_strlit("vg-fsc:banking-class-i");
        reveal_strlit("Class I Banking License (Offshore)");
        reveal_strlit("Class I general banking license for offshore banking business under the Banks and Trust Companies Act");
        reveal_strlit("vg-fsc");
        reveal_strlit("vg-fsc:banking-class-ii");
        reveal_strlit("Class II Banking License (Restricted)");
        reveal_strlit("Class II restricted banking license for limited banking operations");
        reveal_strlit("vg-fsc:insurance-general");
        reveal_strlit("General Insurance License");
        reveal_strlit("License to carry on general insurance business under the Insurance Act");
        reveal_strlit("vg-fsc:insurance-long-term");
        reveal_strlit("Long-Term Insurance License");
        reveal_strlit("License to carry on long-term (life) insurance business");
        reveal_strlit("vg-fsc:insurance-manager");
        reveal_strlit("Insurance Manager License");
        reveal_strlit("License to act as an insurance manager in the BVI");
        reveal_strlit("vg-fsc:insurance-broker");
        reveal_strlit("Insurance Broker License");
        reveal_strlit("License to act as an insurance broker");
        reveal_strlit("vg-fsc:insurance-agent");
        reveal_strlit("Insurance Agent License");
        reveal_strlit("License to act as an insurance agent");
        reveal_strlit("vg-fsc:fund-manager");
        reveal_strlit("Fund Manager License");
        reveal_strlit("License to manage investment funds under the Securities and Investment Business Act");
        reveal_strlit("vg-fsc:investment-adviser");
        reveal_strlit("Investment Adviser License");
        reveal_strlit("License to provide investment advisory services");
        reveal_strlit("vg-fsc:broker-dealer");
        reveal_strlit("Broker-Dealer License");
        reveal_strlit("License to operate as a broker-dealer in securities");
        reveal_strlit("vg-fsc:exchange");
        reveal_strlit("Exchange License");
        reveal_strlit("License to operate a securities or commodities exchange");
        reveal_strlit("vg-fsc:money-services-business");
        reveal_strlit("Money Services Business License");
        reveal_strlit("License to operate a money services business (MSB) including remittance and money transmission");
        reveal_strlit("vg-fsc:financing-business");
        reveal_strlit("Financing Business License");
        reveal_strlit("License to carry on financing business including lending and credit");
        reveal_strlit("vg-fsc:mutual-fund-professional");
        reveal_strlit("Professional Mutual Fund");
        reveal_strlit("Recognition as a professional mutual fund (minimum initial investment USD 100,000)");
        reveal_strlit("vg-fsc:mutual-fund-private");
        reveal_strlit("Private Mutual Fund");
        reveal_strlit("Recognition as a private mutual fund (max 50 investors)");
        reveal_strlit("vg-fsc:mutual-fund-public");
        reveal_strlit("Public Mutual Fund");
        reveal_strlit("Registration of a public mutual fund");
        reveal_strlit("vg-fsc:mutual-fund-recognized-foreign");
        reveal_strlit("Recognized Foreign Mutual Fund");
        reveal_strlit("Recognition of a foreign mutual fund for distribution in the BVI");
        reveal_strlit("vg-fsc:csp");
        reveal_strlit("Company Service Provider License");
        reveal_strlit("License to provide company management and registered agent services");
        reveal_strlit("vg-fsc:trust-business");
        reveal_strlit("Trust Business License");
        reveal_strlit("License to carry on trust business under the Banks and Trust Companies Act");
        reveal_strlit("vg-fsc:credit-union");
        reveal_strlit("Credit Union License");
        reveal_strlit("License to operate a credit union under the Co-operative Societies Act");
        reveal_strlit("vg-fsc:vasp");
        reveal_strlit("Virtual Asset Service Provider (VASP) License");
        reveal_strlit("License to operate as a virtual asset service provider under the Virtual Assets Service Providers Act");
        reveal_with_fuel(complete_each, 22);
    }
    lemma_complete_each(spec_fsc_license_types());
    assert(granted_by_each(spec_fsc_license_types(), seq![spec_fsc_regulator()][0].regulator_id)) by {
        reveal_with_fuel(granted_by_each, 22);
    }
    lemma_granted_by_each(spec_fsc_license_types(), seq![spec_fsc_regulator()], 0);
    assert(grants_some(spec_fsc_license_types(), seq![spec_fsc_regulator()][0].regulator_id)) by {
        assert(spec_fsc_license_types()[0].regulator_id == seq![spec_fsc_regulator()][0].regulator_id);
    }
    assert(grants_each(spec_fsc_license_types(), seq![spec_fsc_regulator()])) by {
        reveal_with_fuel(grants_each, 2);
    }
    lemma_grants_each(spec_fsc_license_types(), seq![spec_fsc_regulator()]);
    assert(in_jurisdiction_each(seq![spec_fsc_regulator()], "vg"@)) by {
        reveal_with_fuel(in_jurisdiction_each, 2);
    }
    lemma_in_jurisdiction_each(seq![spec_fsc_regulator()], "vg"@);
}

/// The licence types of `rca_license_types` are complete, granted by its regulators, and
/// each of its regulators grants at least one of them.
proof fn lemma_rca_group()
    ensures
        license_types_complete(spec_rca_license_types()),
        granted_by_listed_regulators(spec_rca_license_types(), seq![spec_rca_regulator()]),
        every_regulator_grants(spec_rca_license_types(), seq![spec_rca_regulator()]),
        regulators_in_jurisdiction(seq![spec_rca_regulator()], "vg"@),
{
    assert(complete_each(spec_rca_license_types())) by {
        reveal_strlit("vg-rca:business-company");
        reveal_strlit("BVI Business Company (BC) Registration");
        reveal_strlit("Registration of a BVI Business Company under the BVI Business Companies Act");
        reveal_strlit("vg-rca");
        reveal_strlit("vg-rca:limited-partnership");
        reveal_strlit("Limited Partnership Registration");
        reveal_strlit("Registration of a limited partnership under the Limited Partnership Act");
        reveal_strlit("vg-rca:segregated-portfolio-company");
        reveal_strlit("Segregated Portfolio Company Registration");
        reveal_strlit("Registration of a segregated portfolio company (SPC) under the BVI Business Companies Act");
        reveal_strlit("vg-rca:foreign-company");
        reveal_strlit("Foreign Company Registration");
        reveal_strlit("Registration of a foreign company to conduct business in the BVI");
        reveal_with_fuel(complete_each, 5);
    }
    lemma_complete_each(spec_rca_license_types());
    assert(granted_by_each(spec_rca_license_types(), seq![spec_rca_regulator()][0].regulator_id)) by {
        reveal_with_fuel(granted_by_each, 5);
    }
    lemma_granted_by_each(spec_rca_license_types(), seq![spec_rca_regulator()], 0);
    assert(grants_some(spec_rca_license_types(), seq![spec_rca_regulator()][0].regulator_id)) by {
        assert(spec_rca_license_types()[0].regulator_id == seq![spec_rca_regulator()][0].regulator_id);
    }
    assert(grants_each(spec_rca_license_types(), seq![spec_rca_regulator()])) by {
        reveal_with_fuel(grants_each, 2);
    }
    lemma_grants_each(spec_rca_license_types(), seq![spec_rca_regulator()]);
    assert(in_jurisdiction_each(seq![spec_rca_regulator()], "vg"@)) by {
        reveal_with_fuel(in_jurisdiction_each, 2);
    }
    lemma_in_jurisdiction_each(seq![spec_rca_regulator()], "vg"@);
}

/// The catalog of the British Virgin Islands is consistent: every licence type has a non-empty identifier, name, description and
/// regulator identifier, a category, and at least one permitted activity;
/// every licence type is granted by one of its regulators;
/// every regulator grants at least one licence type;
/// every regulator belongs to jurisdiction `vg`.
pub proof fn lemma_bvi_catalog_consistent()
    ensures
        license_types_complete(spec_bvi_license_types()),
        granted_by_listed_regulators(spec_bvi_license_types(), spec_bvi_regulators()),
        every_regulator_grants(spec_bvi_license_types(), spec_bvi_regulators()),
        regulators_in_jurisdiction(spec_bvi_regulators(), "vg"@),
{
    lemma_fsc_group();
    lemma_rca_group();
    assert(spec_bvi_regulators() =~= seq![spec_fsc_regulator()] + seq![spec_rca_regulator()]);
    assert(spec_bvi_license_types() =~= spec_fsc_license_types() + spec_rca_license_types());
    lemma_complete_append(spec_fsc_license_types(), spec_rca_license_types());
    lemma_granted_combine(spec_fsc_license_types(), seq![spec_fsc_regulator()], spec_rca_license_types(), seq![spec_rca_regulator()]);
    lemma_every_combine(spec_fsc_license_types(), seq![spec_fsc_regulator()], spec_rca_license_types(), seq![spec_rca_regulator()]);
    lemma_in_jurisdiction_append(seq![spec_fsc_regulator()], seq![spec_rca_regulator()], "vg"@);
}

/// No two licence types of `fsc_license_types` share an identifier.
proof fn lemma_fsc_license_types_ids_distinct()
    ensures
        license_type_ids_distinct(spec_fsc_license_types()),
{
    let t = spec_fsc_license_types();
    assert(ids_distinct_each(t)) by {
        reveal_strlit("vg-fsc:banking-class-i");
        reveal_strlit("vg-fsc:banking-class-ii");
        reveal_strlit("vg-fsc:broker-dealer");
        reveal_strlit("vg-fsc:credit-union");
        reveal_strlit("vg-fsc:csp");
        reveal_strlit("vg-fsc:exchange");
        reveal_strlit("vg-fsc:financing-business");
        reveal_strlit("vg-fsc:fund-manager");
        reveal_strlit("vg-fsc:insurance-agent");
        reveal_strlit("vg-fsc:insurance-broker");
        reveal_strlit("vg-fsc:insurance-general");
        reveal_strlit("vg-fsc:insurance-long-term");
        reveal_strlit("vg-fsc:insurance-manager");
        reveal_strlit("vg-fsc:investment-adviser");
        reveal_strlit("vg-fsc:money-services-business");
        reveal_strlit("vg-fsc:mutual-fund-private");
        reveal_strlit("vg-fsc:mutual-fund-professional");
        reveal_strlit("vg-fsc:mutual-fund-public");
        reveal_strlit("vg-fsc:mutual-fund-recognized-foreign");
        reveal_strlit("vg-fsc:trust-business");
        reveal_strlit("vg-fsc:vasp");
        assert(t[0].license_type_id.len() != t[1].license_type_id.len());
        assert(t[0].license_type_id[7] != t[2].license_type_id[7]);
        assert(t[1].license_type_id[7] != t[2].license_type_id[7]);
        assert(t[0].license_type_id[7] != t[3].license_type_id[7]);
        assert(t[1].license_type_id[7] != t[3].license_type_id[7]);
        assert(t[2].license_type_id[17] != t[3].license_type_id[17]);
        assert(t[0].license_type_id[7] != t[4].license_type_id[7]);
        assert(t[1].license_type_id[7] != t[4].license_type_id[7]);
        assert(t[2].license_type_id[17] != t[4].license_type_id[17]);
        assert(t[3].license_type_id[17] != t[4].license_type_id[17]);
        assert(t[0].license_type_id[7] != t[5].license_type_id[7]);
        assert(t[1].license_type_id[7] != t[5].license_type_id[7]);
        assert(t[2].license_type_id[17] != t[5].license_type_id[17]);
        assert(t[3].license_type_id[17] != t[5].license_type_id[17]);
        assert(t[4].license_type_id[17] != t[5].license_type_id[17]);
        assert(t[0].license_type_id[7] != t[6].license_type_id[7]);
        assert(t[1].license_type_id[7] != t[6].license_type_id[7]);
        assert(t[2].license_type_id[17] != t[6].license_type_id[17]);
        assert(t[3].license_type_id[17] != t[6].license_type_id[17]);
        assert(t[4].license_type_id[17] != t[6].license_type_id[17]);
        assert(t[5].license_type_id[17] != t[6].license_type_id[17]);
        assert(t[0].license_type_id[7] != t[7].license_type_id[7]);
        assert(t[1].license_type_id[7] != t[7].license_type_id[7]);
        assert(t[2].license_type_id[7] != t[7].license_type_id[7]);
        assert(t[3].license_type_id[7] != t[7].license_type_id[7]);
        assert(t[4].license_type_id[7] != t[7].license_type_id[7]);
        assert(t[5].license_type_id[7] != t[7].license_type_id[7]);
        assert(t[6].license_type_id[7] != t[7].license_type_id[7]);
        assert(t[0].license_type_id[7] != t[8].license_type_id[7]);
        assert(t[1].license_type_id[7] != t[8].license_type_id[7]);
        assert(t[2].license_type_id[9] != t[8].license_type_id[9]);
        assert(t[3].license_type_id[9] != t[8].license_type_id[9]);
        assert(t[4].license_type_id[9] != t[8].license_type_id[9]);
        assert(t[5].license_type_id[9] != t[8].license_type_id[9]);
        assert(t[6].license_type_id[9] != t[8].license_type_id[9]);
        assert(t[7].license_type_id[7] != t[8].license_type_id[7]);
        assert(t[0].license_type_id[8] != t[9].license_type_id[8]);
        assert(t[1].license_type_id[8] != t[9].license_type_id[8]);
        assert(t[2].license_type_id[7] != t[9].license_type_id[7]);
        assert(t[3].license_type_id[7] != t[9].license_type_id[7]);
        assert(t[4].license_type_id[7] != t[9].license_type_id[7]);
        assert(t[5].license_type_id[7] != t[9].license_type_id[7]);
        assert(t[6].license_type_id[7] != t[9].license_type_id[7]);
        assert(t[7].license_type_id[7] != t[9].license_type_id[7]);
        assert(t[8].license_type_id[7] != t[9].license_type_id[7]);
        assert(t[0].license_type_id[7] != t[10].license_type_id[7]);
        assert(t[1].license_type_id[7] != t[10].license_type_id[7]);
        assert(t[2].license_type_id[7] != t[10].license_type_id[7]);
        assert(t[3].license_type_id[7] != t[10].license_type_id[7]);
        assert(t[4].license_type_id[7] != t[10].license_type_id[7]);
        assert(t[5].license_type_id[7] != t[10].license_type_id[7]);
        assert(t[6].license_type_id[7] != t[10].license_type_id[7]);
        assert(t[7].license_type_id[7] != t[10].license_type_id[7]);
        assert(t[8].license_type_id[7] != t[10].license_type_id[7]);
        assert(t[9].license_type_id[7] != t[10].license_type_id[7]);
        assert(t[0].license_type_id[7] != t[11].license_type_id[7]);
        assert(t[1].license_type_id[7] != t[11].license_type_id[7]);
        assert(t[2].license_type_id[7] != t[11].license_type_id[7]);
        assert(t[3].license_type_id[7] != t[11].license_type_id[7]);
        assert(t[4].license_type_id[7] != t[11].license_type_id[7]);
        assert(t[5].license_type_id[7] != t[11].license_type_id[7]);
        assert(t[6].license_type_id[7] != t[11].license_type_id[7]);
        assert(t[7].license_type_id[7] != t[11].license_type_id[7]);
        assert(t[8].license_type_id[7] != t[11].license_type_id[7]);
        assert(t[9].license_type_id[7] != t[11].license_type_id[7]);
        assert(t[10].license_type_id[7] != t[11].license_type_id[7]);
        assert(t[0].license_type_id[7] != t[12].license_type_id[7]);
        assert(t[1].license_type_id[7] != t[12].license_type_id[7]);
        assert(t[2].license_type_id[7] != t[12].license_type_id[7]);
        assert(t[3].license_type_id[7] != t[12].license_type_id[7]);
        assert(t[4].license_type_id[7] != t[12].license_type_id[7]);
        assert(t[5].license_type_id[7] != t[12].license_type_id[7]);
        assert(t[6].license_type_id[7] != t[12].license_type_id[7]);
        assert(t[7].license_type_id[8] != t[12].license_type_id[8]);
        assert(t[8].license_type_id[7] != t[12].license_type_id[7]);
        assert(t[9].license_type_id[7] != t[12].license_type_id[7]);
        assert(t[10].license_type_id[7] != t[12].license_type_id[7]);
        assert(t[11].license_type_id[7] != t[12].license_type_id[7]);
        assert(t[0].license_type_id[7] != t[13].license_type_id[7]);
        assert(t[1].license_type_id[7] != t[13].license_type_id[7]);
        assert(t[2].license_type_id[7] != t[13].license_type_id[7]);
        assert(t[3].license_type_id[7] != t[13].license_type_id[7]);
        assert(t[4].license_type_id[7] != t[13].license_type_id[7]);
        assert(t[5].license_type_id[7] != t[13].license_type_id[7]);
        assert(t[6].license_type_id[7] != t[13].license_type_id[7]);
        assert(t[7].license_type_id[7] != t[13].license_type_id[7]);
        assert(t[8].license_type_id[7] != t[13].license_type_id[7]);
        assert(t[9].license_type_id[7] != t[13].license_type_id[7]);
        assert(t[10].license_type_id[7] != t[13].license_type_id[7]);
        assert(t[11].license_type_id[8] != t[13].license_type_id[8]);
        assert(t[12].license_type_id[7] != t[13].license_type_id[7]);
        assert(t[0].license_type_id[7] != t[14].license_type_id[7]);
        assert(t[1].license_type_id[7] != t[14].license_type_id[7]);
        assert(t[2].license_type_id[7] != t[14].license_type_id[7]);
        assert(t[3].license_type_id[7] != t[14].license_type_id[7]);
        assert(t[4].license_type_id[7] != t[14].license_type_id[7]);
        assert(t[5].license_type_id[7] != t[14].license_type_id[7]);
        assert(t[6].license_type_id[7] != t[14].license_type_id[7]);
        assert(t[7].license_type_id[7] != t[14].license_type_id[7]);
        assert(t[8].license_type_id[7] != t[14].license_type_id[7]);
        assert(t[9].license_type_id[7] != t[14].license_type_id[7]);
        assert(t[10].license_type_id[7] != t[14].license_type_id[7]);
        assert(t[11].license_type_id[8] != t[14].license_type_id[8]);
        assert(t[12].license_type_id[7] != t[14].license_type_id[7]);
        assert(t[13].license_type_id[21] != t[14].license_type_id[21]);
        assert(t[0].license_type_id[7] != t[15].license_type_id[7]);
        assert(t[1].license_type_id[7] != t[15].license_type_id[7]);
        assert(t[2].license_type_id[7] != t[15].license_type_id[7]);
        assert(t[3].license_type_id[7] != t[15].license_type_id[7]);
        assert(t[4].license_type_id[7] != t[15].license_type_id[7]);
        assert(t[5].license_type_id[7] != t[15].license_type_id[7]);
        assert(t[6].license_type_id[7] != t[15].license_type_id[7]);
        assert(t[7].license_type_id[7] != t[15].license_type_id[7]);
        assert(t[8].license_type_id[7] != t[15].license_type_id[7]);
        assert(t[9].license_type_id[7] != t[15].license_type_id[7]);
        assert(t[10].license_type_id[7] != t[15].license_type_id[7]);
        assert(t[11].license_type_id[8] != t[15].license_type_id[8]);
        assert(t[12].license_type_id[7] != t[15].license_type_id[7]);
        assert(t[13].license_type_id[20] != t[15].license_type_id[20]);
        assert(t[14].license_type_id[20] != t[15].license_type_id[20]);
        assert(t[0].license_type_id[7] != t[16].license_type_id[7]);
        assert(t[1].license_type_id[7] != t[16].license_type_id[7]);
        assert(t[2].license_type_id[7] != t[16].license_type_id[7]);
        assert(t[3].license_type_id[7] != t[16].license_type_id[7]);
        assert(t[4].license_type_id[7] != t[16].license_type_id[7]);
        assert(t[5].license_type_id[7] != t[16].license_type_id[7]);
        assert(t[6].license_type_id[7] != t[16].license_type_id[7]);
        assert(t[7].license_type_id[7] != t[16].license_type_id[7]);
        assert(t[8].license_type_id[7] != t[16].license_type_id[7]);
        assert(t[9].license_type_id[7] != t[16].license_type_id[7]);
        assert(t[10].license_type_id[7] != t[16].license_type_id[7]);
        assert(t[11].license_type_id[8] != t[16].license_type_id[8]);
        assert(t[12].license_type_id[7] != t[16].license_type_id[7]);
        assert(t[13].license_type_id[19] != t[16].license_type_id[19]);
        assert(t[14].license_type_id[19] != t[16].license_type_id[19]);
        assert(t[15].license_type_id[19] != t[16].license_type_id[19]);
        assert(t[0].license_type_id[7] != t[17].license_type_id[7]);
        assert(t[1].license_type_id[7] != t[17].license_type_id[7]);
        assert(t[2].license_type_id[7] != t[17].license_type_id[7]);
        assert(t[3].license_type_id[7] != t[17].license_type_id[7]);
        assert(t[4].license_type_id[7] != t[17].license_type_id[7]);
        assert(t[5].license_type_id[7] != t[17].license_type_id[7]);
        assert(t[6].license_type_id[7] != t[17].license_type_id[7]);
        assert(t[7].license_type_id[7] != t[17].license_type_id[7]);
        assert(t[8].license_type_id[7] != t[17].license_type_id[7]);
        assert(t[9].license_type_id[7] != t[17].license_type_id[7]);
        assert(t[10].license_type_id[7] != t[17].license_type_id[7]);
        assert(t[11].license_type_id[7] != t[17].license_type_id[7]);
        assert(t[12].license_type_id[7] != t[17].license_type_id[7]);
        assert(t[13].license_type_id[7] != t[17].license_type_id[7]);
        assert(t[14].license_type_id[7] != t[17].license_type_id[7]);
        assert(t[15].license_type_id[7] != t[17].license_type_id[7]);
        assert(t[16].license_type_id[7] != t[17].license_type_id[7]);
        assert(t[0].license_type_id[7] != t[18].license_type_id[7]);
        assert(t[1].license_type_id[7] != t[18].license_type_id[7]);
        assert(t[2].license_type_id[7] != t[18].license_type_id[7]);
        assert(t[3].license_type_id[7] != t[18].license_type_id[7]);
        assert(t[4].license_type_id[7] != t[18].license_type_id[7]);
        assert(t[5].license_type_id[7] != t[18].license_type_id[7]);
        assert(t[6].license_type_id[7] != t[18].license_type_id[7]);
        assert(t[7].license_type_id[7] != t[18].license_type_id[7]);
        assert(t[8].license_type_id[7] != t[18].license_type_id[7]);
        assert(t[9].license_type_id[7] != t[18].license_type_id[7]);
        assert(t[10].license_type_id[7] != t[18].license_type_id[7]);
        assert(t[11].license_type_id[7] != t[18].license_type_id[7]);
        assert(t[12].license_type_id[7] != t[18].license_type_id[7]);
        assert(t[13].license_type_id[7] != t[18].license_type_id[7]);
        assert(t[14].license_type_id[7] != t[18].license_type_id[7]);
        assert(t[15].license_type_id[7] != t[18].license_type_id[7]);
        assert(t[16].license_type_id[7] != t[18].license_type_id[7]);
        assert(t[17].license_type_id[7] != t[18].license_type_id[7]);
        assert(t[0].license_type_id[7] != t[19].license_type_id[7]);
        assert(t[1].license_type_id[7] != t[19].license_type_id[7]);
        assert(t[2].license_type_id[7] != t[19].license_type_id[7]);
        assert(t[3].license_type_id[7] != t[19].license_type_id[7]);
        assert(t[4].license_type_id[7] != t[19].license_type_id[7]);
        assert(t[5].license_type_id[7] != t[19].license_type_id[7]);
        assert(t[6].license_type_id[7] != t[19].license_type_id[7]);
        assert(t[7].license_type_id[7] != t[19].license_type_id[7]);
        assert(t[8].license_type_id[7] != t[19].license_type_id[7]);
        assert(t[9].license_type_id[7] != t[19].license_type_id[7]);
        assert(t[10].license_type_id[7] != t[19].license_type_id[7]);
        assert(t[11].license_type_id[7] != t[19].license_type_id[7]);
        assert(t[12].license_type_id[7] != t[19].license_type_id[7]);
        assert(t[13].license_type_id[7] != t[19].license_type_id[7]);
        assert(t[14].license_type_id[7] != t[19].license_type_id[7]);
        assert(t[15].license_type_id[7] != t[19].license_type_id[7]);
        assert(t[16].license_type_id[7] != t[19].license_type_id[7]);
        assert(t[17].license_type_id[8] != t[19].license_type_id[8]);
        assert(t[18].license_type_id[7] != t[19].license_type_id[7]);
        assert(t[0].license_type_id[7] != t[20].license_type_id[7]);
        assert(t[1].license_type_id[7] != t[20].license_type_id[7]);
        assert(t[2].license_type_id[7] != t[20].license_type_id[7]);
        assert(t[3].license_type_id[7] != t[20].license_type_id[7]);
        assert(t[4].license_type_id[7] != t[20].license_type_id[7]);
        assert(t[5].license_type_id[7] != t[20].license_type_id[7]);
        assert(t[6].license_type_id[7] != t[20].license_type_id[7]);
        assert(t[7].license_type_id[7] != t[20].license_type_id[7]);
        assert(t[8].license_type_id[7] != t[20].license_type_id[7]);
        assert(t[9].license_type_id[7] != t[20].license_type_id[7]);
        assert(t[10].license_type_id[7] != t[20].license_type_id[7]);
        assert(t[11].license_type_id[7] != t[20].license_type_id[7]);
        assert(t[12].license_type_id[7] != t[20].license_type_id[7]);
        assert(t[13].license_type_id[7] != t[20].license_type_id[7]);
        assert(t[14].license_type_id[7] != t[20].license_type_id[7]);
        assert(t[15].license_type_id[7] != t[20].license_type_id[7]);
        assert(t[16].license_type_id[7] != t[20].license_type_id[7]);
        assert(t[17].license_type_id[7] != t[20].license_type_id[7]);
        assert(t[18].license_type_id[7] != t[20].license_type_id[7]);
        assert(t[19].license_type_id[7] != t[20].license_type_id[7]);
        reveal_with_fuel(ids_distinct_each, 22);
        reveal_with_fuel(id_fresh_each, 22);
    }
    lemma_ids_distinct_each(t);
}

/// No two licence types of `rca_license_types` share an identifier.
proof fn lemma_rca_license_types_ids_distinct()
    ensures
        license_type_ids_distinct(spec_rca_license_types()),
{
    let t = spec_rca_license_types();
    assert(ids_distinct_each(t)) by {
        reveal_strlit("vg-rca:business-company");
        reveal_strlit("vg-rca:foreign-company");
        reveal_strlit("vg-rca:limited-partnership");
        reveal_strlit("vg-rca:segregated-portfolio-company");
        assert(t[0].license_type_id[7] != t[1].license_type_id[7]);
        assert(t[0].license_type_id[7] != t[2].license_type_id[7]);
        assert(t[1].license_type_id[7] != t[2].license_type_id[7]);
        assert(t[0].license_type_id[7] != t[3].license_type_id[7]);
        assert(t[1].license_type_id[7] != t[3].license_type_id[7]);
        assert(t[2].license_type_id[7] != t[3].license_type_id[7]);
        reveal_with_fuel(ids_distinct_each, 5);
        reveal_with_fuel(id_fresh_each, 5);
    }
    lemma_ids_distinct_each(t);
}

/// No licence type of `fsc_license_types` shares an identifier with one of `rca_license_types`.
proof fn lemma_fsc_license_types_apart_from_rca_license_types()
    ensures
        license_type_ids_apart(spec_fsc_license_types(), spec_rca_license_types()),
{
    let a = spec_fsc_license_types();
    let b = spec_rca_license_types();
    assert(apart_each(a, b)) by {
        reveal_strlit("vg-fsc:banking-class-i");
        reveal_strlit("vg-fsc:banking-class-ii");
        reveal_strlit("vg-fsc:broker-dealer");
        reveal_strlit("vg-fsc:credit-union");
        reveal_strlit("vg-fsc:csp");
        reveal_strlit("vg-fsc:exchange");
        reveal_strlit("vg-fsc:financing-business");
        reveal_strlit("vg-fsc:fund-manager");
        reveal_strlit("vg-fsc:insurance-agent");
        reveal_strlit("vg-fsc:insurance-broker");
        reveal_strlit("vg-fsc:insurance-general");
        reveal_strlit("vg-fsc:insurance-long-term");
        reveal_strlit("vg-fsc:insurance-manager");
        reveal_strlit("vg-fsc:investment-adviser");
        reveal_strlit("vg-fsc:money-services-business");
        reveal_strlit("vg-fsc:mutual-fund-private");
        reveal_strlit("vg-fsc:mutual-fund-professional");
        reveal_strlit("vg-fsc:mutual-fund-public");
        reveal_strlit("vg-fsc:mutual-fund-recognized-foreign");
        reveal_strlit("vg-fsc:trust-business");
        reveal_strlit("vg-fsc:vasp");
        reveal_strlit("vg-rca:business-company");
        reveal_strlit("vg-rca:foreign-company");
        reveal_strlit("vg-rca:limited-partnership");
        reveal_strlit("vg-rca:segregated-portfolio-company");
        assert(a[0].license_type_id[3] != b[0].license_type_id[3]);
        assert(a[0].license_type_id[3] != b[1].license_type_id[3]);
        assert(a[0].license_type_id[3] != b[2].license_type_id[3]);
        assert(a[0].license_type_id[3] != b[3].license_type_id[3]);
        assert(a[1].license_type_id[3] != b[0].license_type_id[3]);
        assert(a[1].license_type_id[3] != b[1].license_type_id[3]);
        assert(a[1].license_type_id[3] != b[2].license_type_id[3]);
        assert(a[1].license_type_id[3] != b[3].license_type_id[3]);
        assert(a[2].license_type_id[3] != b[0].license_type_id[3]);
        assert(a[2].license_type_id[3] != b[1].license_type_id[3]);
        assert(a[2].license_type_id[3] != b[2].license_type_id[3]);
        assert(a[2].license_type_id[3] != b[3].license_type_id[3]);
        assert(a[3].license_type_id[3] != b[0].license_type_id[3]);
        assert(a[3].license_type_id[3] != b[1].license_type_id[3]);
        assert(a[3].license_type_id[3] != b[2].license_type_id[3]);
        assert(a[3].license_type_id[3] != b[3].license_type_id[3]);
        assert(a[4].license_type_id[3] != b[0].license_type_id[3]);
        assert(a[4].license_type_id[3] != b[1].license_type_id[3]);
        assert(a[4].license_type_id[3] != b[2].license_type_id[3]);
        assert(a[4].license_type_id[3] != b[3].license_type_id[3]);
        assert(a[5].license_type_id[3] != b[0].license_type_id[3]);
        assert(a[5].license_type_id[3] != b[1].license_type_id[3]);
        assert(a[5].license_type_id[3] != b[2].license_type_id[3]);
        assert(a[5].license_type_id[3] != b[3].license_type_id[3]);
        assert(a[6].license_type_id[3] != b[0].license_type_id[3]);
        assert(a[6].license_type_id[3] != b[1].license_type_id[3]);
        assert(a[6].license_type_id[3] != b[2].license_type_id[3]);
        assert(a[6].license_type_id[3] != b[3].license_type_id[3]);
        assert(a[7].license_type_id[3] != b[0].license_type_id[3]);
        assert(a[7].license_type_id[3] != b[1].license_type_id[3]);
        assert(a[7].license_type_id[3] != b[2].license_type_id[3]);
        assert(a[7].license_type_id[3] != b[3].license_type_id[3]);
        assert(a[8].license_type_id[3] != b[0].license_type_id[3]);
        assert(a[8].license_type_id[3] != b[1].license_type_id[3]);
        assert(a[8].license_type_id[3] != b[2].license_type_id[3]);
        assert(a[8].license_type_id[3] != b[3].license_type_id[3]);
        assert(a[9].license_type_id[3] != b[0].license_type_id[3]);
        assert(a[9].license_type_id[3] != b[1].license_type_id[3]);
        assert(a[9].license_type_id[3] != b[2].license_type_id[3]);
        assert(a[9].license_type_id[3] != b[3].license_type_id[3]);
        assert(a[10].license_type_id[3] != b[0].license_type_id[3]);
        assert(a[10].license_type_id[3] != b[1].license_type_id[3]);
        assert(a[10].license_type_id[3] != b[2].license_type_id[3]);
        assert(a[10].license_type_id[3] != b[3].license_type_id[3]);
        assert(a[11].license_type_id[3] != b[0].license_type_id[3]);
        assert(a[11].license_type_id[3] != b[1].license_type_id[3]);
        assert(a[11].license_type_id[3] != b[2].license_type_id[3]);
        assert(a[11].license_type_id[3] != b[3].license_type_id[3]);
        assert(a[12].license_type_id[3] != b[0].license_type_id[3]);
        assert(a[12].license_type_id[3] != b[1].license_type_id[3]);
        assert(a[12].license_type_id[3] != b[2].license_type_id[3]);
        assert(a[12].license_type_id[3] != b[3].license_type_id[3]);
        assert(a[13].license_type_id[3] != b[0].license_type_id[3]);
        assert(a[13].license_type_id[3] != b[1].license_type_id[3]);
        assert(a[13].license_type_id[3] != b[2].license_type_id[3]);
        assert(a[13].license_type_id[3] != b[3].license_type_id[3]);
        assert(a[14].license_type_id[3] != b[0].license_type_id[3]);
        assert(a[14].license_type_id[3] != b[1].license_type_id[3]);
        assert(a[14].license_type_id[3] != b[2].license_type_id[3]);
        assert(a[14].license_type_id[3] != b[3].license_type_id[3]);
        assert(a[15].license_type_id[3] != b[0].license_type_id[3]);
        assert(a[15].license_type_id[3] != b[1].license_type_id[3]);
        assert(a[15].license_type_id[3] != b[2].license_type_id[3]);
        assert(a[15].license_type_id[3] != b[3].license_type_id[3]);
        assert(a[16].license_type_id[3] != b[0].license_type_id[3]);
        assert(a[16].license_type_id[3] != b[1].license_type_id[3]);
        assert(a[16].license_type_id[3] != b[2].license_type_id[3]);
        assert(a[16].license_type_id[3] != b[3].license_type_id[3]);
        assert(a[17].license_type_id[3] != b[0].license_type_id[3]);
        assert(a[17].license_type_id[3] != b[1].license_type_id[3]);
        assert(a[17].license_type_id[3] != b[2].license_type_id[3]);
        assert(a[17].license_type_id[3] != b[3].license_type_id[3]);
        assert(a[18].license_type_id[3] != b[0].license_type_id[3]);
        assert(a[18].license_type_id[3] != b[1].license_type_id[3]);
        assert(a[18].license_type_id[3] != b[2].license_type_id[3]);
        assert(a[18].license_type_id[3] != b[3].license_type_id[3]);
        assert(a[19].license_type_id[3] != b[0].license_type_id[3]);
        assert(a[19].license_type_id[3] != b[1].license_type_id[3]);
        assert(a[19].license_type_id[3] != b[2].license_type_id[3]);
        assert(a[19].license_type_id[3] != b[3].license_type_id[3]);
        assert(a[20].license_type_id[3] != b[0].license_type_id[3]);
        assert(a[20].license_type_id[3] != b[1].license_type_id[3]);
        assert(a[20].license_type_id[3] != b[2].license_type_id[3]);
        assert(a[20].license_type_id[3] != b[3].license_type_id[3]);
        reveal_with_fuel(apart_each, 22);
        reveal_with_fuel(id_fresh_each, 5);
    }
    lemma_apart_each(a, b);
}

/// No two licence types of `bvi_license_types` share an identifier.
pub proof fn lemma_bvi_license_type_ids_distinct()
    ensures
        license_type_ids_distinct(spec_bvi_license_types()),
{
    lemma_fsc_license_types_ids_distinct();
    lemma_rca_license_types_ids_distinct();
    assert(spec_bvi_license_types() =~= spec_fsc_license_types() + spec_rca_license_types());
    let acc = spec_fsc_license_types();
    lemma_fsc_license_types_apart_from_rca_license_types();
    let part = spec_fsc_license_types();
    lemma_ids_distinct_append(acc, spec_rca_license_types());
    let acc = acc + spec_rca_license_types();
    assert(spec_bvi_license_types() == acc);
}

/// Each licence-type identifier of `fsc_license_types` starts with its regulator's
/// identifier and a colon.
proof fn lemma_fsc_license_types_prefixed()
    ensures
        license_type_ids_prefixed(spec_fsc_license_types()),
{
    let ts = spec_fsc_license_types();
    assert(license_type_id_prefixed(ts[0])) by {
        reveal_strlit("vg-fsc:banking-class-i");
        reveal_strlit("vg-fsc");
        reveal_strlit(":");
        assert(ts[0].license_type_id.subrange(0, (ts[0].regulator_id + ":"@).len() as int) =~= ts[0].regulator_id + ":"@);
    }
    assert(license_type_id_prefixed(ts[1])) by {
        reveal_strlit("vg-fsc:banking-class-ii");
        reveal_strlit("vg-fsc");
        reveal_strlit(":");
        assert(ts[1].license_type_id.subrange(0, (ts[1].regulator_id + ":"@).len() as int) =~= ts[1].regulator_id + ":"@);
    }
    assert(license_type_id_prefixed(ts[2])) by {
        reveal_strlit("vg-fsc:insurance-general");
        reveal_strlit("vg-fsc");
        reveal_strlit(":");
        assert(ts[2].license_type_id.subrange(0, (ts[2].regulator_id + ":"@).len() as int) =~= ts[2].regulator_id + ":"@);
    }
    assert(license_type_id_prefixed(ts[3])) by {
        reveal_strlit("vg-fsc:insurance-long-term");
        reveal_strlit("vg-fsc");
        reveal_strlit(":");
        assert(ts[3].license_type_id.subrange(0, (ts[3].regulator_id + ":"@).len() as int) =~= ts[3].regulator_id + ":"@);
    }
    assert(license_type_id_prefixed(ts[4])) by {
        reveal_strlit("vg-fsc:insurance-manager");
        reveal_strlit("vg-fsc");
        reveal_strlit(":");
        assert(ts[4].license_type_id.subrange(0, (ts[4].regulator_id + ":"@).len() as int) =~= ts[4].regulator_id + ":"@);
    }
    assert(license_type_id_prefixed(ts[5])) by {
        reveal_strlit("vg-fsc:insurance-broker");
        reveal_strlit("vg-fsc");
        reveal_strlit(":");
        assert(ts[5].license_type_id.subrange(0, (ts[5].regulator_id + ":"@).len() as int) =~= ts[5].regulator_id + ":"@);
    }
    assert(license_type_id_prefixed(ts[6])) by {
        reveal_strlit("vg-fsc:insurance-agent");
        reveal_strlit("vg-fsc");
        reveal_strlit(":");
        assert(ts[6].license_type_id.subrange(0, (ts[6].regulator_id + ":"@).len() as int) =~= ts[6].regulator_id + ":"@);
    }
    assert(license_type_id_prefixed(ts[7])) by {
        reveal_strlit("vg-fsc:fund-manager");
        reveal_strlit("vg-fsc");
        reveal_strlit(":");
        assert(ts[7].license_type_id.subrange(0, (ts[7].regulator_id + ":"@).len() as int) =~= ts[7].regulator_id + ":"@);
    }
    assert(license_type_id_prefixed(ts[8])) by {
        reveal_strlit("vg-fsc:investment-adviser");
        reveal_strlit("vg-fsc");
        reveal_strlit(":");
        assert(ts[8].license_type_id.subrange(0, (ts[8].regulator_id + ":"@).len() as int) =~= ts[8].regulator_id + ":"@);
    }
    assert(license_type_id_prefixed(ts[9])) by {
        reveal_strlit("vg-fsc:broker-dealer");
        reveal_strlit("vg-fsc");
        reveal_strlit(":");
        assert(ts[9].license_type_id.subrange(0, (ts[9].regulator_id + ":"@).len() as int) =~= ts[9].regulator_id + ":"@);
    }
    assert(license_type_id_prefixed(ts[10])) by {
        reveal_strlit("vg-fsc:exchange");
        reveal_strlit("vg-fsc");
        reveal_strlit(":");
        assert(ts[10].license_type_id.subrange(0, (ts[10].regulator_id + ":"@).len() as int) =~= ts[10].regulator_id + ":"@);
    }
    assert(license_type_id_prefixed(ts[11])) by {
        reveal_strlit("vg-fsc:money-services-business");
        reveal_strlit("vg-fsc");
        reveal_strlit(":");
        assert(ts[11].license_type_id.subrange(0, (ts[11].regulator_id + ":"@).len() as int) =~= ts[11].regulator_id + ":"@);
    }
    assert(license_type_id_prefixed(ts[12])) by {
        reveal_strlit("vg-fsc:financing-business");
        reveal_strlit("vg-fsc");
        reveal_strlit(":");
        assert(ts[12].license_type_id.subrange(0, (ts[12].regulator_id + ":"@).len() as int) =~= ts[12].regulator_id + ":"@);
    }
    assert(license_type_id_prefixed(ts[13])) by {
        reveal_strlit("vg-fsc:mutual-fund-professional");
        reveal_strlit("vg-fsc");
        reveal_strlit(":");
        assert(ts[13].license_type_id.subrange(0, (ts[13].regulator_id + ":"@).len() as int) =~= ts[13].regulator_id + ":"@);
    }
    assert(license_type_id_prefixed(ts[14])) by {
        reveal_strlit("vg-fsc:mutual-fund-private");
        reveal_strlit("vg-fsc");
        reveal_strlit(":");
        assert(ts[14].license_type_id.subrange(0, (ts[14].regulator_id + ":"@).len() as int) =~= ts[14].regulator_id + ":"@);
    }
    assert(license_type_id_prefixed(ts[15])) by {
        reveal_strlit("vg-fsc:mutual-fund-public");
        reveal_strlit("vg-fsc");
        reveal_strlit(":");
        assert(ts[15].license_type_id.subrange(0, (ts[15].regulator_id + ":"@).len() as int) =~= ts[15].regulator_id + ":"@);
    }
    assert(license_type_id_prefixed(ts[16])) by {
        reveal_strlit("vg-fsc:mutual-fund-recognized-foreign");
        reveal_strlit("vg-fsc");
        reveal_strlit(":");
        assert(ts[16].license_type_id.subrange(0, (ts[16].regulator_id + ":"@).len() as int) =~= ts[16].regulator_id + ":"@);
    }
    assert(license_type_id_prefixed(ts[17])) by {
        reveal_strlit("vg-fsc:csp");
        reveal_strlit("vg-fsc");
        reveal_strlit(":");
        assert(ts[17].license_type_id.subrange(0, (ts[17].regulator_id + ":"@).len() as int) =~= ts[17].regulator_id + ":"@);
    }
    assert(license_type_id_prefixed(ts[18])) by {
        reveal_strlit("vg-fsc:trust-business");
        reveal_strlit("vg-fsc");
        reveal_strlit(":");
        assert(ts[18].license_type_id.subrange(0, (ts[18].regulator_id + ":"@).len() as int) =~= ts[18].regulator_id + ":"@);
    }
    assert(license_type_id_prefixed(ts[19])) by {
        reveal_strlit("vg-fsc:credit-union");
        reveal_strlit("vg-fsc");
        reveal_strlit(":");
        assert(ts[19].license_type_id.subrange(0, (ts[19].regulator_id + ":"@).len() as int) =~= ts[19].regulator_id + ":"@);
    }
    assert(license_type_id_prefixed(ts[20])) by {
        reveal_strlit("vg-fsc:vasp");
        reveal_strlit("vg-fsc");
        reveal_strlit(":");
        assert(ts[20].license_type_id.subrange(0, (ts[20].regulator_id + ":"@).len() as int) =~= ts[20].regulator_id + ":"@);
    }
    assert(prefixed_each(ts)) by {
        reveal_with_fuel(prefixed_each, 22);
    }
    lemma_prefixed_each(ts);
}

/// Each licence-type identifier of `rca_license_types` starts with its regulator's
/// identifier and a colon.
proof fn lemma_rca_license_types_prefixed()
    ensures
        license_type_ids_prefixed(spec_rca_license_types()),
{
    let ts = spec_rca_license_types();
    assert(license_type_id_prefixed(ts[0])) by {
        reveal_strlit("vg-rca:business-company");
        reveal_strlit("vg-rca");
        reveal_strlit(":");
        assert(ts[0].license_type_id.subrange(0, (ts[0].regulator_id + ":"@).len() as int) =~= ts[0].regulator_id + ":"@);
    }
    assert(license_type_id_prefixed(ts[1])) by {
        reveal_strlit("vg-rca:limited-partnership");
        reveal_strlit("vg-rca");
        reveal_strlit(":");
        assert(ts[1].license_type_id.subrange(0, (ts[1].regulator_id + ":"@).len() as int) =~= ts[1].regulator_id + ":"@);
    }
    assert(license_type_id_prefixed(ts[2])) by {
        reveal_strlit("vg-rca:segregated-portfolio-company");
        reveal_strlit("vg-rca");
        reveal_strlit(":");
        assert(ts[2].license_type_id.subrange(0, (ts[2].regulator_id + ":"@).len() as int) =~= ts[2].regulator_id + ":"@);
    }
    assert(license_type_id_prefixed(ts[3])) by {
        reveal_strlit("vg-rca:foreign-company");
        reveal_strlit("vg-rca");
        reveal_strlit(":");
        assert(ts[3].license_type_id.subrange(0, (ts[3].regulator_id + ":"@).len() as int) =~= ts[3].regulator_id + ":"@);
    }
    assert(prefixed_each(ts)) by {
        reveal_with_fuel(prefixed_each, 5);
    }
    lemma_prefixed_each(ts);
}

/// Every licence-type identifier of the British Virgin Islands catalog starts with the
/// identifier of the regulator that grants it, followed by a colon.
pub proof fn lemma_bvi_license_types_prefixed()
    ensures
        license_type_ids_prefixed(spec_bvi_license_types()),
{
    lemma_fsc_license_types_prefixed();
    lemma_rca_license_types_prefixed();
    lemma_prefixed_append(spec_fsc_license_types(), spec_rca_license_types());
    assert(spec_bvi_license_types() =~= spec_fsc_license_types() + spec_rca_license_types());
}

} // verus!
