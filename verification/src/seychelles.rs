//! # Seychelles Regulatory Authority License Mappings
//!
//! Seychelles-specific license type definitions covering the three major
//! regulatory authorities:
//!
//! | Authority | Full Name | Domain |
//! |-----------|-----------|--------|
//! | **FSA** | Financial Services Authority of Seychelles | Securities, Insurance, Corporate, Digital Assets |
//! | **CBS** | Central Bank of Seychelles | Banking, Payments, Remittance |
//! | **SRC** | Seychelles Revenue Commission | Business & Tax Registration |
//!
//! Each authority is represented as a [`LicensepackRegulator`] with its
//! associated [`LicenseTypeDefinition`] entries. These definitions provide
//! the Seychelles-specific license taxonomy used by the compliance tensor's
//! LICENSING domain evaluation.

use vstd::prelude::*;

use crate::license::{
    license_type, license_type_view, license_types_view, regulator, regulator_view,
    regulators_view, LicenseTypeDefinition, LicenseTypeView, LicensepackRegulator,
    RegulatorView, RequirementValue,
    lemma_license_types_view_append, lemma_regulators_view_append,
};

use crate::catalog::{
    apart_each, id_fresh_each, ids_distinct_each, lemma_apart_each, lemma_ids_apart_append, lemma_ids_distinct_append, lemma_ids_distinct_each, license_type_ids_apart, license_type_ids_distinct, complete_each, every_regulator_grants, granted_by_each, granted_by_listed_regulators, grants_each, grants_some, in_jurisdiction_each, lemma_complete_append, lemma_complete_each, lemma_every_combine, lemma_granted_by_each, lemma_granted_combine, lemma_grants_each, lemma_in_jurisdiction_append, lemma_in_jurisdiction_each, license_types_complete, regulators_in_jurisdiction,
};

use crate::catalog::{
    lemma_prefixed_append, lemma_prefixed_each, license_type_id_prefixed, license_type_ids_prefixed,
    prefixed_each,
};

verus! {

/// The view of `fsa_regulator`.
pub open spec fn spec_fsa_regulator() -> RegulatorView {
    regulator_view(
        "sc-fsa"@,
        "Financial Services Authority of Seychelles"@,
        "sc"@,
        Some("https://www.fsaseychelles.sc"@),
        seq!["license_search"@, "entity_registry"@],
    )
}

/// FSA regulator profile.
pub fn fsa_regulator() -> (r: LicensepackRegulator)
    ensures
        r@ == spec_fsa_regulator(),
        r@ == regulator_view(
            "sc-fsa"@,
            "Financial Services Authority of Seychelles"@,
            "sc"@,
            Some("https://www.fsaseychelles.sc"@),
            seq!["license_search"@, "entity_registry"@],
        ),
{
    let r =
        regulator(
            "sc-fsa",
            "Financial Services Authority of Seychelles",
            "sc",
            Some("https://www.fsaseychelles.sc"),
            &["license_search", "entity_registry"],
        );
    proof {
        assert(r@ =~~= spec_fsa_regulator());
    }
    r
}

/// The view of `fsa_license_types`.
pub open spec fn spec_fsa_license_types() -> Seq<LicenseTypeView> {
    seq![
        license_type_view(
            "sc-fsa:securities-dealer"@,
            "Securities Dealer License"@,
            "License to deal in securities under the Securities Act"@,
            "sc-fsa"@,
            Some("financial"@),
            seq!["securities_dealing"@, "securities_brokerage"@, "trading"@],
            seq![],
            seq![("USD"@, "3000"@)],
            seq![("USD"@, "3000"@)],
            Some(1i32),
        ),
        license_type_view(
            "sc-fsa:investment-adviser"@,
            "Investment Adviser License"@,
            "License to provide investment advisory services"@,
            "sc-fsa"@,
            Some("financial"@),
            seq!["investment_advisory"@, "financial_planning"@],
            seq![],
            seq![("USD"@, "2000"@)],
            seq![("USD"@, "2000"@)],
            Some(1i32),
        ),
        license_type_view(
            "sc-fsa:fund-management"@,
            "Fund Management License"@,
            "License to manage investment funds under the Mutual Fund and Hedge Fund Act"@,
            "sc-fsa"@,
            Some("financial"@),
            seq!["fund_management"@, "portfolio_management"@, "asset_allocation"@],
            seq![],
            seq![("USD"@, "3000"@)],
            seq![("USD"@, "3000"@)],
            Some(1i32),
        ),
        license_type_view(
            "sc-fsa:insurance-domestic"@,
            "Domestic Insurance License"@,
            "License to carry on domestic insurance business under the Insurance Act"@,
            "sc-fsa"@,
            Some("insurance"@),
            seq!["domestic_insurance"@, "general_insurance"@, "life_insurance"@],
            seq![],
            seq![("SCR"@, "25000"@)],
            seq![("SCR"@, "25000"@)],
            Some(1i32),
        ),
        license_type_view(
            "sc-fsa:insurance-captive"@,
            "Captive Insurance License"@,
            "License to carry on captive insurance business"@,
            "sc-fsa"@,
            Some("insurance"@),
            seq!["captive_insurance"@, "self_insurance"@],
            seq![],
            seq![("USD"@, "3000"@)],
            seq![("USD"@, "3000"@)],
            Some(1i32),
        ),
        license_type_view(
            "sc-fsa:insurance-broker"@,
            "Insurance Broker License"@,
            "License to act as an insurance broker"@,
            "sc-fsa"@,
            Some("insurance"@),
            seq!["insurance_brokerage"@, "insurance_placement"@],
            seq![],
            seq![("SCR"@, "10000"@)],
            seq![("SCR"@, "10000"@)],
            Some(1i32),
        ),
        license_type_view(
            "sc-fsa:insurance-agent"@,
            "Insurance Agent License"@,
            "License to act as an insurance agent"@,
            "sc-fsa"@,
            Some("insurance"@),
            seq!["insurance_solicitation"@, "insurance_sales"@],
            seq![],
            seq![("SCR"@, "5000"@)],
            seq![("SCR"@, "5000"@)],
            Some(1i32),
        ),
        license_type_view(
            "sc-fsa:ibc"@,
            "International Business Company (IBC) Registration"@,
            "Registration of an International Business Company (legacy, now Global Business Company) under the IBC Act"@,
            "sc-fsa"@,
            Some("corporate"@),
            seq!["international_trading"@, "holding_company"@, "investment_holding"@],
            seq![],
            seq![("USD"@, "100"@)],
            seq![("USD"@, "100"@)],
            None,
        ),
        license_type_view(
            "sc-fsa:gbc"@,
            "Global Business Company (GBC) Registration"@,
            "Registration of a Global Business Company under the Companies (Special Licenses) Act"@,
            "sc-fsa"@,
            Some("corporate"@),
            seq!["international_trading"@, "holding_company"@, "investment_holding"@, "headquarters_operations"@],
            seq![],
            seq![("USD"@, "1000"@)],
            seq![("USD"@, "1000"@)],
            None,
        ),
        license_type_view(
            "sc-fsa:csp"@,
            "Corporate Service Provider License"@,
            "License to provide corporate services including company formation and registered agent services"@,
            "sc-fsa"@,
            Some("corporate"@),
            seq!["company_formation"@, "registered_agent_services"@, "corporate_administration"@, "nominee_services"@],
            seq![],
            seq![("USD"@, "2000"@)],
            seq![("USD"@, "2000"@)],
            Some(1i32),
        ),
        license_type_view(
            "sc-fsa:money-changing"@,
            "Money Changing License"@,
            "License to operate a money changing (bureau de change) business under FSA oversight"@,
            "sc-fsa"@,
            Some("financial"@),
            seq!["currency_exchange"@, "foreign_exchange"@],
            seq![],
            seq![("SCR"@, "5000"@)],
            seq![("SCR"@, "5000"@)],
            Some(1i32),
        ),
        license_type_view(
            "sc-fsa:credit-union"@,
            "Credit Union License"@,
            "License to operate a credit union under the Credit Union Act"@,
            "sc-fsa"@,
            Some("financial"@),
            seq!["member_deposit_taking"@, "member_lending"@],
            seq![],
            seq![],
            seq![],
            None,
        ),
        license_type_view(
            "sc-fsa:digital-asset-service-provider"@,
            "Digital Asset Service Provider License"@,
            "License to operate as a digital asset service provider under the Digital Asset Business Act"@,
            "sc-fsa"@,
            Some("financial"@),
            seq!["digital_asset_exchange"@, "digital_asset_custody"@, "digital_asset_transfer"@, "digital_asset_issuance"@],
            seq![],
            seq![("USD"@, "5000"@)],
            seq![("USD"@, "5000"@)],
            Some(1i32),
        )
    ]
}

/// FSA license type definitions.
pub fn fsa_license_types() -> (r: Vec<LicenseTypeDefinition>)
    ensures
        license_types_view(r@) == spec_fsa_license_types(),
        license_types_view(r@) == seq![
            license_type_view(
                "sc-fsa:securities-dealer"@,
                "Securities Dealer License"@,
                "License to deal in securities under the Securities Act"@,
                "sc-fsa"@,
                Some("financial"@),
                seq!["securities_dealing"@, "securities_brokerage"@, "trading"@],
                seq![],
                seq![("USD"@, "3000"@)],
                seq![("USD"@, "3000"@)],
                Some(1i32),
            ),
            license_type_view(
                "sc-fsa:investment-adviser"@,
                "Investment Adviser License"@,
                "License to provide investment advisory services"@,
                "sc-fsa"@,
                Some("financial"@),
                seq!["investment_advisory"@, "financial_planning"@],
                seq![],
                seq![("USD"@, "2000"@)],
                seq![("USD"@, "2000"@)],
                Some(1i32),
            ),
            license_type_view(
                "sc-fsa:fund-management"@,
                "Fund Management License"@,
                "License to manage investment funds under the Mutual Fund and Hedge Fund Act"@,
                "sc-fsa"@,
                Some("financial"@),
                seq!["fund_management"@, "portfolio_management"@, "asset_allocation"@],
                seq![],
                seq![("USD"@, "3000"@)],
                seq![("USD"@, "3000"@)],
                Some(1i32),
            ),
            license_type_view(
                "sc-fsa:insurance-domestic"@,
                "Domestic Insurance License"@,
                "License to carry on domestic insurance business under the Insurance Act"@,
                "sc-fsa"@,
                Some("insurance"@),
                seq!["domestic_insurance"@, "general_insurance"@, "life_insurance"@],
                seq![],
                seq![("SCR"@, "25000"@)],
                seq![("SCR"@, "25000"@)],
                Some(1i32),
            ),
            license_type_view(
                "sc-fsa:insurance-captive"@,
                "Captive Insurance License"@,
                "License to carry on captive insurance business"@,
                "sc-fsa"@,
                Some("insurance"@),
                seq!["captive_insurance"@, "self_insurance"@],
                seq![],
                seq![("USD"@, "3000"@)],
                seq![("USD"@, "3000"@)],
                Some(1i32),
            ),
            license_type_view(
                "sc-fsa:insurance-broker"@,
                "Insurance Broker License"@,
                "License to act as an insurance broker"@,
                "sc-fsa"@,
                Some("insurance"@),
                seq!["insurance_brokerage"@, "insurance_placement"@],
                seq![],
                seq![("SCR"@, "10000"@)],
                seq![("SCR"@, "10000"@)],
                Some(1i32),
            ),
            license_type_view(
                "sc-fsa:insurance-agent"@,
                "Insurance Agent License"@,
                "License to act as an insurance agent"@,
                "sc-fsa"@,
                Some("insurance"@),
                seq!["insurance_solicitation"@, "insurance_sales"@],
                seq![],
                seq![("SCR"@, "5000"@)],
                seq![("SCR"@, "5000"@)],
                Some(1i32),
            ),
            license_type_view(
                "sc-fsa:ibc"@,
                "International Business Company (IBC) Registration"@,
                "Registration of an International Business Company (legacy, now Global Business Company) under the IBC Act"@,
                "sc-fsa"@,
                Some("corporate"@),
                seq!["international_trading"@, "holding_company"@, "investment_holding"@],
                seq![],
                seq![("USD"@, "100"@)],
                seq![("USD"@, "100"@)],
                None,
            ),
            license_type_view(
                "sc-fsa:gbc"@,
                "Global Business Company (GBC) Registration"@,
                "Registration of a Global Business Company under the Companies (Special Licenses) Act"@,
                "sc-fsa"@,
                Some("corporate"@),
                seq!["international_trading"@, "holding_company"@, "investment_holding"@, "headquarters_operations"@],
                seq![],
                seq![("USD"@, "1000"@)],
                seq![("USD"@, "1000"@)],
                None,
            ),
            license_type_view(
                "sc-fsa:csp"@,
                "Corporate Service Provider License"@,
                "License to provide corporate services including company formation and registered agent services"@,
                "sc-fsa"@,
                Some("corporate"@),
                seq!["company_formation"@, "registered_agent_services"@, "corporate_administration"@, "nominee_services"@],
                seq![],
                seq![("USD"@, "2000"@)],
                seq![("USD"@, "2000"@)],
                Some(1i32),
            ),
            license_type_view(
                "sc-fsa:money-changing"@,
                "Money Changing License"@,
                "License to operate a money changing (bureau de change) business under FSA oversight"@,
                "sc-fsa"@,
                Some("financial"@),
                seq!["currency_exchange"@, "foreign_exchange"@],
                seq![],
                seq![("SCR"@, "5000"@)],
                seq![("SCR"@, "5000"@)],
                Some(1i32),
            ),
            license_type_view(
                "sc-fsa:credit-union"@,
                "Credit Union License"@,
                "License to operate a credit union under the Credit Union Act"@,
                "sc-fsa"@,
                Some("financial"@),
                seq!["member_deposit_taking"@, "member_lending"@],
                seq![],
                seq![],
                seq![],
                None,
            ),
            license_type_view(
                "sc-fsa:digital-asset-service-provider"@,
                "Digital Asset Service Provider License"@,
                "License to operate as a digital asset service provider under the Digital Asset Business Act"@,
                "sc-fsa"@,
                Some("financial"@),
                seq!["digital_asset_exchange"@, "digital_asset_custody"@, "digital_asset_transfer"@, "digital_asset_issuance"@],
                seq![],
                seq![("USD"@, "5000"@)],
                seq![("USD"@, "5000"@)],
                Some(1i32),
            )
        ],
{
    let r = vec![
        license_type(
            "sc-fsa:securities-dealer",
            "Securities Dealer License",
            "License to deal in securities under the Securities Act",
            "sc-fsa",
            Some("financial"),
            &["securities_dealing", "securities_brokerage", "trading"],
            &[],
            &[("USD", "3000")],
            &[("USD", "3000")],
            Some(1i32),
        ),
        license_type(
            "sc-fsa:investment-adviser",
            "Investment Adviser License",
            "License to provide investment advisory services",
            "sc-fsa",
            Some("financial"),
            &["investment_advisory", "financial_planning"],
            &[],
            &[("USD", "2000")],
            &[("USD", "2000")],
            Some(1i32),
        ),
        license_type(
            "sc-fsa:fund-management",
            "Fund Management License",
            "License to manage investment funds under the Mutual Fund and Hedge Fund Act",
            "sc-fsa",
            Some("financial"),
            &["fund_management", "portfolio_management", "asset_allocation"],
            &[],
            &[("USD", "3000")],
            &[("USD", "3000")],
            Some(1i32),
        ),
        license_type(
            "sc-fsa:insurance-domestic",
            "Domestic Insurance License",
            "License to carry on domestic insurance business under the Insurance Act",
            "sc-fsa",
            Some("insurance"),
            &["domestic_insurance", "general_insurance", "life_insurance"],
            &[],
            &[("SCR", "25000")],
            &[("SCR", "25000")],
            Some(1i32),
        ),
        license_type(
            "sc-fsa:insurance-captive",
            "Captive Insurance License",
            "License to carry on captive insurance business",
            "sc-fsa",
            Some("insurance"),
            &["captive_insurance", "self_insurance"],
            &[],
            &[("USD", "3000")],
            &[("USD", "3000")],
            Some(1i32),
        ),
        license_type(
            "sc-fsa:insurance-broker",
            "Insurance Broker License",
            "License to act as an insurance broker",
            "sc-fsa",
            Some("insurance"),
            &["insurance_brokerage", "insurance_placement"],
            &[],
            &[("SCR", "10000")],
            &[("SCR", "10000")],
            Some(1i32),
        ),
        license_type(
            "sc-fsa:insurance-agent",
            "Insurance Agent License",
            "License to act as an insurance agent",
            "sc-fsa",
            Some("insurance"),
            &["insurance_solicitation", "insurance_sales"],
            &[],
            &[("SCR", "5000")],
            &[("SCR", "5000")],
            Some(1i32),
        ),
        license_type(
            "sc-fsa:ibc",
            "International Business Company (IBC) Registration",
            "Registration of an International Business Company (legacy, now Global Business Company) under the IBC Act",
            "sc-fsa",
            Some("corporate"),
            &["international_trading", "holding_company", "investment_holding"],
            &[],
            &[("USD", "100")],
            &[("USD", "100")],
            None,
        ),
        license_type(
            "sc-fsa:gbc",
            "Global Business Company (GBC) Registration",
            "Registration of a Global Business Company under the Companies (Special Licenses) Act",
            "sc-fsa",
            Some("corporate"),
            &["international_trading", "holding_company", "investment_holding", "headquarters_operations"],
            &[],
            &[("USD", "1000")],
            &[("USD", "1000")],
            None,
        ),
        license_type(
            "sc-fsa:csp",
            "Corporate Service Provider License",
            "License to provide corporate services including company formation and registered agent services",
            "sc-fsa",
            Some("corporate"),
            &["company_formation", "registered_agent_services", "corporate_administration", "nominee_services"],
            &[],
            &[("USD", "2000")],
            &[("USD", "2000")],
            Some(1i32),
        ),
        license_type(
            "sc-fsa:money-changing",
            "Money Changing License",
            "License to operate a money changing (bureau de change) business under FSA oversight",
            "sc-fsa",
            Some("financial"),
            &["currency_exchange", "foreign_exchange"],
            &[],
            &[("SCR", "5000")],
            &[("SCR", "5000")],
            Some(1i32),
        ),
        license_type(
            "sc-fsa:credit-union",
            "Credit Union License",
            "License to operate a credit union under the Credit Union Act",
            "sc-fsa",
            Some("financial"),
            &["member_deposit_taking", "member_lending"],
            &[],
            &[],
            &[],
            None,
        ),
        license_type(
            "sc-fsa:digital-asset-service-provider",
            "Digital Asset Service Provider License",
            "License to operate as a digital asset service provider under the Digital Asset Business Act",
            "sc-fsa",
            Some("financial"),
            &["digital_asset_exchange", "digital_asset_custody", "digital_asset_transfer", "digital_asset_issuance"],
            &[],
            &[("USD", "5000")],
            &[("USD", "5000")],
            Some(1i32),
        )
    ];
    proof {
        assert(license_types_view(r@) =~~= spec_fsa_license_types());
    }
    r
}

/// The view of `cbs_regulator`.
pub open spec fn spec_cbs_regulator() -> RegulatorView {
    regulator_view(
        "sc-cbs"@,
        "Central Bank of Seychelles"@,
        "sc"@,
        Some("https://www.cbs.sc"@),
        seq!["bank_registry"@],
    )
}

/// CBS regulator profile.
pub fn cbs_regulator() -> (r: LicensepackRegulator)
    ensures
        r@ == spec_cbs_regulator(),
        r@ == regulator_view(
            "sc-cbs"@,
            "Central Bank of Seychelles"@,
            "sc"@,
            Some("https://www.cbs.sc"@),
            seq!["bank_registry"@],
        ),
{
    let r =
        regulator(
            "sc-cbs",
            "Central Bank of Seychelles",
            "sc",
            Some("https://www.cbs.sc"),
            &["bank_registry"],
        );
    proof {
        assert(r@ =~~= spec_cbs_regulator());
    }
    r
}

/// The view of `cbs_license_types`.
pub open spec fn spec_cbs_license_types() -> Seq<LicenseTypeView> {
    seq![
        license_type_view(
            "sc-cbs:banking-domestic"@,
            "Domestic Banking License"@,
            "License to carry on domestic banking business under the Financial Institutions Act"@,
            "sc-cbs"@,
            Some("financial"@),
            seq!["deposit_taking"@, "lending"@, "trade_finance"@, "domestic_banking"@, "payment_services"@],
            seq![],
            seq![("SCR"@, "100000"@)],
            seq![("SCR"@, "100000"@)],
            None,
        ),
        license_type_view(
            "sc-cbs:banking-offshore"@,
            "Offshore Banking License"@,
            "License to carry on offshore banking business"@,
            "sc-cbs"@,
            Some("financial"@),
            seq!["international_deposit_taking"@, "international_lending"@, "foreign_exchange"@, "trade_finance"@],
            seq![],
            seq![("USD"@, "10000"@)],
            seq![("USD"@, "10000"@)],
            None,
        ),
        license_type_view(
            "sc-cbs:money-value-transfer"@,
            "Money Value Transfer (Remittance) License"@,
            "License to operate a money value transfer (remittance) service"@,
            "sc-cbs"@,
            Some("financial"@),
            seq!["remittance"@, "money_transfer"@, "payment_services"@],
            seq![],
            seq![("SCR"@, "25000"@)],
            seq![("SCR"@, "25000"@)],
            Some(1i32),
        ),
        license_type_view(
            "sc-cbs:bureau-de-change"@,
            "Bureau de Change License"@,
            "License to operate a bureau de change (foreign currency exchange)"@,
            "sc-cbs"@,
            Some("financial"@),
            seq!["currency_exchange"@, "foreign_exchange"@],
            seq![],
            seq![("SCR"@, "10000"@)],
            seq![("SCR"@, "10000"@)],
            Some(1i32),
        ),
        license_type_view(
            "sc-cbs:payment-service-provider"@,
            "Payment Service Provider License"@,
            "License to operate as a payment service provider under the National Payment System Act"@,
            "sc-cbs"@,
            Some("financial"@),
            seq!["payment_processing"@, "payment_services"@, "e_money_issuance"@],
            seq![],
            seq![("SCR"@, "25000"@)],
            seq![("SCR"@, "25000"@)],
            Some(1i32),
        )
    ]
}

/// CBS license type definitions.
pub fn cbs_license_types() -> (r: Vec<LicenseTypeDefinition>)
    ensures
        license_types_view(r@) == spec_cbs_license_types(),
        license_types_view(r@) == seq![
            license_type_view(
                "sc-cbs:banking-domestic"@,
                "Domestic Banking License"@,
                "License to carry on domestic banking business under the Financial Institutions Act"@,
                "sc-cbs"@,
                Some("financial"@),
                seq!["deposit_taking"@, "lending"@, "trade_finance"@, "domestic_banking"@, "payment_services"@],
                seq![],
                seq![("SCR"@, "100000"@)],
                seq![("SCR"@, "100000"@)],
                None,
            ),
            license_type_view(
                "sc-cbs:banking-offshore"@,
                "Offshore Banking License"@,
                "License to carry on offshore banking business"@,
                "sc-cbs"@,
                Some("financial"@),
                seq!["international_deposit_taking"@, "international_lending"@, "foreign_exchange"@, "trade_finance"@],
                seq![],
                seq![("USD"@, "10000"@)],
                seq![("USD"@, "10000"@)],
                None,
            ),
            license_type_view(
                "sc-cbs:money-value-transfer"@,
                "Money Value Transfer (Remittance) License"@,
                "License to operate a money value transfer (remittance) service"@,
                "sc-cbs"@,
                Some("financial"@),
                seq!["remittance"@, "money_transfer"@, "payment_services"@],
                seq![],
                seq![("SCR"@, "25000"@)],
                seq![("SCR"@, "25000"@)],
                Some(1i32),
            ),
            license_type_view(
                "sc-cbs:bureau-de-change"@,
                "Bureau de Change License"@,
                "License to operate a bureau de change (foreign currency exchange)"@,
                "sc-cbs"@,
                Some("financial"@),
                seq!["currency_exchange"@, "foreign_exchange"@],
                seq![],
                seq![("SCR"@, "10000"@)],
                seq![("SCR"@, "10000"@)],
                Some(1i32),
            ),
            license_type_view(
                "sc-cbs:payment-service-provider"@,
                "Payment Service Provider License"@,
                "License to operate as a payment service provider under the National Payment System Act"@,
                "sc-cbs"@,
                Some("financial"@),
                seq!["payment_processing"@, "payment_services"@, "e_money_issuance"@],
                seq![],
                seq![("SCR"@, "25000"@)],
                seq![("SCR"@, "25000"@)],
                Some(1i32),
            )
        ],
{
    let r = vec![
        license_type(
            "sc-cbs:banking-domestic",
            "Domestic Banking License",
            "License to carry on domestic banking business under the Financial Institutions Act",
            "sc-cbs",
            Some("financial"),
            &["deposit_taking", "lending", "trade_finance", "domestic_banking", "payment_services"],
            &[],
            &[("SCR", "100000")],
            &[("SCR", "100000")],
            None,
        ),
        license_type(
            "sc-cbs:banking-offshore",
            "Offshore Banking License",
            "License to carry on offshore banking business",
            "sc-cbs",
            Some("financial"),
            &["international_deposit_taking", "international_lending", "foreign_exchange", "trade_finance"],
            &[],
            &[("USD", "10000")],
            &[("USD", "10000")],
            None,
        ),
        license_type(
            "sc-cbs:money-value-transfer",
            "Money Value Transfer (Remittance) License",
            "License to operate a money value transfer (remittance) service",
            "sc-cbs",
            Some("financial"),
            &["remittance", "money_transfer", "payment_services"],
            &[],
            &[("SCR", "25000")],
            &[("SCR", "25000")],
            Some(1i32),
        ),
        license_type(
            "sc-cbs:bureau-de-change",
            "Bureau de Change License",
            "License to operate a bureau de change (foreign currency exchange)",
            "sc-cbs",
            Some("financial"),
            &["currency_exchange", "foreign_exchange"],
            &[],
            &[("SCR", "10000")],
            &[("SCR", "10000")],
            Some(1i32),
        ),
        license_type(
            "sc-cbs:payment-service-provider",
            "Payment Service Provider License",
            "License to operate as a payment service provider under the National Payment System Act",
            "sc-cbs",
            Some("financial"),
            &["payment_processing", "payment_services", "e_money_issuance"],
            &[],
            &[("SCR", "25000")],
            &[("SCR", "25000")],
            Some(1i32),
        )
    ];
    proof {
        assert(license_types_view(r@) =~~= spec_cbs_license_types());
    }
    r
}

/// The view of `src_regulator`.
pub open spec fn spec_src_regulator() -> RegulatorView {
    regulator_view(
        "sc-src"@,
        "Seychelles Revenue Commission"@,
        "sc"@,
        Some("https://www.src.gov.sc"@),
        seq!["registration_status"@],
    )
}

/// SRC regulator profile.
pub fn src_regulator() -> (r: LicensepackRegulator)
    ensures
        r@ == spec_src_regulator(),
        r@ == regulator_view(
            "sc-src"@,
            "Seychelles Revenue Commission"@,
            "sc"@,
            Some("https://www.src.gov.sc"@),
            seq!["registration_status"@],
        ),
{
    let r =
        regulator(
            "sc-src",
            "Seychelles Revenue Commission",
            "sc",
            Some("https://www.src.gov.sc"),
            &["registration_status"],
        );
    proof {
        assert(r@ =~~= spec_src_regulator());
    }
    r
}

/// The view of `src_license_types`.
pub open spec fn spec_src_license_types() -> Seq<LicenseTypeView> {
    seq![
        license_type_view(
            "sc-src:business-registration"@,
            "Business Registration"@,
            "Registration of a business entity with the Seychelles Revenue Commission"@,
            "sc-src"@,
            Some("corporate"@),
            seq!["business_operations"@, "local_trading"@],
            seq![],
            seq![("SCR"@, "1000"@)],
            seq![],
            None,
        ),
        license_type_view(
            "sc-src:tax-registration"@,
            "Tax Registration"@,
            "Tax registration for VAT and business tax purposes with the Seychelles Revenue Commission"@,
            "sc-src"@,
            Some("tax_compliance"@),
            seq!["tax_reporting"@, "vat_collection"@],
            seq![],
            seq![],
            seq![],
            None,
        )
    ]
}

/// SRC license type definitions (business and tax registrations).
pub fn src_license_types() -> (r: Vec<LicenseTypeDefinition>)
    ensures
        license_types_view(r@) == spec_src_license_types(),
        license_types_view(r@) == seq![
            license_type_view(
                "sc-src:business-registration"@,
                "Business Registration"@,
                "Registration of a business entity with the Seychelles Revenue Commission"@,
                "sc-src"@,
                Some("corporate"@),
                seq!["business_operations"@, "local_trading"@],
                seq![],
                seq![("SCR"@, "1000"@)],
                seq![],
                None,
            ),
            license_type_view(
                "sc-src:tax-registration"@,
                "Tax Registration"@,
                "Tax registration for VAT and business tax purposes with the Seychelles Revenue Commission"@,
                "sc-src"@,
                Some("tax_compliance"@),
                seq!["tax_reporting"@, "vat_collection"@],
                seq![],
                seq![],
                seq![],
                None,
            )
        ],
{
    let r = vec![
        license_type(
            "sc-src:business-registration",
            "Business Registration",
            "Registration of a business entity with the Seychelles Revenue Commission",
            "sc-src",
            Some("corporate"),
            &["business_operations", "local_trading"],
            &[],
            &[("SCR", "1000")],
            &[],
            None,
        ),
        license_type(
            "sc-src:tax-registration",
            "Tax Registration",
            "Tax registration for VAT and business tax purposes with the Seychelles Revenue Commission",
            "sc-src",
            Some("tax_compliance"),
            &["tax_reporting", "vat_collection"],
            &[],
            &[],
            &[],
            None,
        )
    ];
    proof {
        assert(license_types_view(r@) =~~= spec_src_license_types());
    }
    r
}

/// The view of `seychelles_regulators`.
pub open spec fn spec_seychelles_regulators() -> Seq<RegulatorView> {
    seq![spec_fsa_regulator(), spec_cbs_regulator(), spec_src_regulator()]
}

/// All Seychelles regulatory authorities.
pub fn seychelles_regulators() -> (r: Vec<LicensepackRegulator>)
    ensures
        regulators_view(r@) == spec_seychelles_regulators(),
        regulators_view(r@) == seq![spec_fsa_regulator(), spec_cbs_regulator(), spec_src_regulator()],
{
    let r = vec![fsa_regulator(), cbs_regulator(), src_regulator()];
    proof {
        assert(regulators_view(r@) =~~= spec_seychelles_regulators());
    }
    r
}

/// The view of `seychelles_license_types`.
pub open spec fn spec_seychelles_license_types() -> Seq<LicenseTypeView> {
    spec_fsa_license_types()
        + spec_cbs_license_types()
        + spec_src_license_types()
}

/// All Seychelles license type definitions across all authorities.
pub fn seychelles_license_types() -> (r: Vec<LicenseTypeDefinition>)
    ensures
        license_types_view(r@) == spec_seychelles_license_types(),
        license_types_view(r@) == spec_fsa_license_types()
            + spec_cbs_license_types()
            + spec_src_license_types(),
{
    let mut all: Vec<LicenseTypeDefinition> = Vec::new();
    proof {
        assert(license_types_view(all@) =~= Seq::<LicenseTypeView>::empty());
    }
    let ghost before = all@;
    let mut part = fsa_license_types();
    let ghost added = part@;
    all.append(&mut part);
    proof {
        lemma_license_types_view_append(before, added);
        assert(license_types_view(all@) =~= spec_fsa_license_types());
    }
    let ghost before = all@;
    let mut part = cbs_license_types();
    let ghost added = part@;
    all.append(&mut part);
    proof {
        lemma_license_types_view_append(before, added);
        assert(license_types_view(all@) =~= spec_fsa_license_types() + spec_cbs_license_types());
    }
    let ghost before = all@;
    let mut part = src_license_types();
    let ghost added = part@;
    all.append(&mut part);
    proof {
        lemma_license_types_view_append(before, added);
        assert(license_types_view(all@) =~= spec_fsa_license_types() + spec_cbs_license_types() + spec_src_license_types());
    }
    all
}

/// The licence types of `fsa_license_types` are complete, granted by its regulators, and
/// each of its regulators grants at least one of them.
proof fn lemma_fsa_group()
    ensures
        license_types_complete(spec_fsa_license_types()),
        granted_by_listed_regulators(spec_fsa_license_types(), seq![spec_fsa_regulator()]),
        every_regulator_grants(spec_fsa_license_types(), seq![spec_fsa_regulator()]),
        regulators_in_jurisdiction(seq![spec_fsa_regulator()], "sc"@),
{
    assert(complete_each(spec_fsa_license_types())) by {
        reveal_strlit("sc-fsa:securities-dealer");
        reveal_strlit("Securities Dealer License");
        reveal_strlit("License to deal in securities under the Securities Act");
        reveal_strlit("sc-fsa");
        reveal_strlit("sc-fsa:investment-adviser");
        reveal_strlit("Investment Adviser License");
        reveal_strlit("License to provide investment advisory services");
        reveal_strlit("sc-fsa:fund-management");
        reveal_strlit("Fund Management License");
        reveal_strlit("License to manage investment funds under the Mutual Fund and Hedge Fund Act");
        reveal_strlit("sc-fsa:insurance-domestic");
        reveal_strlit("Domestic Insurance License");
        reveal_strlit("License to carry on domestic insurance business under the Insurance Act");
        reveal_strlit("sc-fsa:insurance-captive");
        reveal_strlit("Captive Insurance License");
        reveal_strlit("License to carry on captive insurance business");
        reveal_strlit("sc-fsa:insurance-broker");
        reveal_strlit("Insurance Broker License");
        reveal_strlit("License to act as an insurance broker");
        reveal_strlit("sc-fsa:insurance-agent");
        reveal_strlit("Insurance Agent License");
        reveal_strlit("License to act as an insurance agent");
        reveal_strlit("sc-fsa:ibc");
        reveal_strlit("International Business Company (IBC) Registration");
        reveal_strlit("Registration of an International Business Company (legacy, now Global Business Company) under the IBC Act");
        reveal_strlit("sc-fsa:gbc");
        reveal_strlit("Global Business Company (GBC) Registration");
        reveal_strlit("Registration of a Global Business Company under the Companies (Special Licenses) Act");
        reveal_strlit("sc-fsa:csp");
        reveal_strlit("Corporate Service Provider License");
        reveal_strlit("License to provide corporate services including company formation and registered agent services");
        reveal_strlit("sc-fsa:money-changing");
        reveal_strlit("Money Changing License");
        reveal_strlit("License to operate a money changing (bureau de change) business under FSA oversight");
        reveal_strlit("sc-fsa:credit-union");
        reveal_strlit("Credit Union License");
        reveal_strlit("License to operate a credit union under the Credit Union Act");
        reveal_strlit("sc-fsa:digital-asset-service-provider");
        reveal_strlit("Digital Asset Service Provider License");
        reveal_strlit("License to operate as a digital asset service provider under the Digital Asset Business Act");
        reveal_with_fuel(complete_each, 14);
    }
    lemma_complete_each(spec_fsa_license_types());
    assert(granted_by_each(spec_fsa_license_types(), seq![spec_fsa_regulator()][0].regulator_id)) by {
        reveal_with_fuel(granted_by_each, 14);
    }
    lemma_granted_by_each(spec_fsa_license_types(), seq![spec_fsa_regulator()], 0);
    assert(grants_some(spec_fsa_license_types(), seq![spec_fsa_regulator()][0].regulator_id)) by {
        assert(spec_fsa_license_types()[0].regulator_id == seq![spec_fsa_regulator()][0].regulator_id);
    }
    assert(grants_each(spec_fsa_license_types(), seq![spec_fsa_regulator()])) by {
        reveal_with_fuel(grants_each, 2);
    }
    lemma_grants_each(spec_fsa_license_types(), seq![spec_fsa_regulator()]);
    assert(in_jurisdiction_each(seq![spec_fsa_regulator()], "sc"@)) by {
        reveal_with_fuel(in_jurisdiction_each, 2);
    }
    lemma_in_jurisdiction_each(seq![spec_fsa_regulator()], "sc"@);
}

/// The licence types of `cbs_license_types` are complete, granted by its regulators, and
/// each of its regulators grants at least one of them.
proof fn lemma_cbs_group()
    ensures
        license_types_complete(spec_cbs_license_types()),
        granted_by_listed_regulators(spec_cbs_license_types(), seq![spec_cbs_regulator()]),
        every_regulator_grants(spec_cbs_license_types(), seq![spec_cbs_regulator()]),
        regulators_in_jurisdiction(seq![spec_cbs_regulator()], "sc"@),
{
    assert(complete_each(spec_cbs_license_types())) by {
        reveal_strlit("sc-cbs:banking-domestic");
        reveal_strlit("Domestic Banking License");
        reveal_strlit("License to carry on domestic banking business under the Financial Institutions Act");
        reveal_strlit("sc-cbs");
        reveal_strlit("sc-cbs:banking-offshore");
        reveal_strlit("Offshore Banking License");
        reveal_strlit("License to carry on offshore banking business");
        reveal_strlit("sc-cbs:money-value-transfer");
        reveal_strlit("Money Value Transfer (Remittance) License");
        reveal_strlit("License to operate a money value transfer (remittance) service");
        reveal_strlit("sc-cbs:bureau-de-change");
        reveal_strlit("Bureau de Change License");
        reveal_strlit("License to operate a bureau de change (foreign currency exchange)");
        reveal_strlit("sc-cbs:payment-service-provider");
        reveal_strlit("Payment Service Provider License");
        reveal_strlit("License to operate as a payment service provider under the National Payment System Act");
        reveal_with_fuel(complete_each, 6);
    }
    lemma_complete_each(spec_cbs_license_types());
    assert(granted_by_each(spec_cbs_license_types(), seq![spec_cbs_regulator()][0].regulator_id)) by {
        reveal_with_fuel(granted_by_each, 6);
    }
    lemma_granted_by_each(spec_cbs_license_types(), seq![spec_cbs_regulator()], 0);
    assert(grants_some(spec_cbs_license_types(), seq![spec_cbs_regulator()][0].regulator_id)) by {
        assert(spec_cbs_license_types()[0].regulator_id == seq![spec_cbs_regulator()][0].regulator_id);
    }
    assert(grants_each(spec_cbs_license_types(), seq![spec_cbs_regulator()])) by {
        reveal_with_fuel(grants_each, 2);
    }
    lemma_grants_each(spec_cbs_license_types(), seq![spec_cbs_regulator()]);
    assert(in_jurisdiction_each(seq![spec_cbs_regulator()], "sc"@)) by {
        reveal_with_fuel(in_jurisdiction_each, 2);
    }
    lemma_in_jurisdiction_each(seq![spec_cbs_regulator()], "sc"@);
}

/// The licence types of `src_license_types` are complete, granted by its regulators, and
/// each of its regulators grants at least one of them.
proof fn lemma_src_group()
    ensures
        license_types_complete(spec_src_license_types()),
        granted_by_listed_regulators(spec_src_license_types(), seq![spec_src_regulator()]),
        every_regulator_grants(spec_src_license_types(), seq![spec_src_regulator()]),
        regulators_in_jurisdiction(seq![spec_src_regulator()], "sc"@),
{
    assert(complete_each(spec_src_license_types())) by {
        reveal_strlit("sc-src:business-registration");
        reveal_strlit("Business Registration");
        reveal_strlit("Registration of a business entity with the Seychelles Revenue Commission");
        reveal_strlit("sc-src");
        reveal_strlit("sc-src:tax-registration");
        reveal_strlit("Tax Registration");
        reveal_strlit("Tax registration for VAT and business tax purposes with the Seychelles Revenue Commission");
        reveal_with_fuel(complete_each, 3);
    }
    lemma_complete_each(spec_src_license_types());
    assert(granted_by_each(spec_src_license_types(), seq![spec_src_regulator()][0].regulator_id)) by {
        reveal_with_fuel(granted_by_each, 3);
    }
    lemma_granted_by_each(spec_src_license_types(), seq![spec_src_regulator()], 0);
    assert(grants_some(spec_src_license_types(), seq![spec_src_regulator()][0].regulator_id)) by {
        assert(spec_src_license_types()[0].regulator_id == seq![spec_src_regulator()][0].regulator_id);
    }
    assert(grants_each(spec_src_license_types(), seq![spec_src_regulator()])) by {
        reveal_with_fuel(grants_each, 2);
    }
    lemma_grants_each(spec_src_license_types(), seq![spec_src_regulator()]);
    assert(in_jurisdiction_each(seq![spec_src_regulator()], "sc"@)) by {
        reveal_with_fuel(in_jurisdiction_each, 2);
    }
    lemma_in_jurisdiction_each(seq![spec_src_regulator()], "sc"@);
}

/// The catalog of Seychelles is consistent: every licence type has a non-empty identifier, name, description and
/// regulator identifier, a category, and at least one permitted activity;
/// every licence type is granted by one of its regulators;
/// every regulator grants at least one licence type;
/// every regulator belongs to jurisdiction `sc`.
pub proof fn lemma_seychelles_catalog_consistent()
    ensures
        license_types_complete(spec_seychelles_license_types()),
        granted_by_listed_regulators(spec_seychelles_license_types(), spec_seychelles_regulators()),
        every_regulator_grants(spec_seychelles_license_types(), spec_seychelles_regulators()),
        regulators_in_jurisdiction(spec_seychelles_regulators(), "sc"@),
{
    lemma_fsa_group();
    lemma_cbs_group();
    lemma_src_group();
    assert(spec_seychelles_regulators() =~= seq![spec_fsa_regulator()] + seq![spec_cbs_regulator()] + seq![spec_src_regulator()]);
    assert(spec_seychelles_license_types() =~= spec_fsa_license_types() + spec_cbs_license_types() + spec_src_license_types());
    lemma_complete_append(spec_fsa_license_types(), spec_cbs_license_types());
    lemma_granted_combine(spec_fsa_license_types(), seq![spec_fsa_regulator()], spec_cbs_license_types(), seq![spec_cbs_regulator()]);
    lemma_every_combine(spec_fsa_license_types(), seq![spec_fsa_regulator()], spec_cbs_license_types(), seq![spec_cbs_regulator()]);
    lemma_in_jurisdiction_append(seq![spec_fsa_regulator()], seq![spec_cbs_regulator()], "sc"@);
    lemma_complete_append(spec_fsa_license_types() + spec_cbs_license_types(), spec_src_license_types());
    lemma_granted_combine(spec_fsa_license_types() + spec_cbs_license_types(), seq![spec_fsa_regulator()] + seq![spec_cbs_regulator()], spec_src_license_types(), seq![spec_src_regulator()]);
    lemma_every_combine(spec_fsa_license_types() + spec_cbs_license_types(), seq![spec_fsa_regulator()] + seq![spec_cbs_regulator()], spec_src_license_types(), seq![spec_src_regulator()]);
    lemma_in_jurisdiction_append(seq![spec_fsa_regulator()] + seq![spec_cbs_regulator()], seq![spec_src_regulator()], "sc"@);
}

/// No two licence types of `fsa_license_types` share an identifier.
proof fn lemma_fsa_license_types_ids_distinct()
    ensures
        license_type_ids_distinct(spec_fsa_license_types()),
{
    let t = spec_fsa_license_types();
    assert(ids_distinct_each(t)) by {
        reveal_strlit("sc-fsa:credit-union");
        reveal_strlit("sc-fsa:csp");
        reveal_strlit("sc-fsa:digital-asset-service-provider");
        reveal_strlit("sc-fsa:fund-management");
        reveal_strlit("sc-fsa:gbc");
        reveal_strlit("sc-fsa:ibc");
        reveal_strlit("sc-fsa:insurance-agent");
        reveal_strlit("sc-fsa:insurance-broker");
        reveal_strlit("sc-fsa:insurance-captive");
        reveal_strlit("sc-fsa:insurance-domestic");
        reveal_strlit("sc-fsa:investment-adviser");
        reveal_strlit("sc-fsa:money-changing");
        reveal_strlit("sc-fsa:securities-dealer");
        assert(t[0].license_type_id[7] != t[1].license_type_id[7]);
        assert(t[0].license_type_id[7] != t[2].license_type_id[7]);
        assert(t[1].license_type_id[7] != t[2].license_type_id[7]);
        assert(t[0].license_type_id[7] != t[3].license_type_id[7]);
        assert(t[1].license_type_id[9] != t[3].license_type_id[9]);
        assert(t[2].license_type_id[7] != t[3].license_type_id[7]);
        assert(t[0].license_type_id[7] != t[4].license_type_id[7]);
        assert(t[1].license_type_id[9] != t[4].license_type_id[9]);
        assert(t[2].license_type_id[7] != t[4].license_type_id[7]);
        assert(t[3].license_type_id[17] != t[4].license_type_id[17]);
        assert(t[0].license_type_id[7] != t[5].license_type_id[7]);
        assert(t[1].license_type_id[9] != t[5].license_type_id[9]);
        assert(t[2].license_type_id[7] != t[5].license_type_id[7]);
        assert(t[3].license_type_id[17] != t[5].license_type_id[17]);
        assert(t[4].license_type_id[17] != t[5].license_type_id[17]);
        assert(t[0].license_type_id[7] != t[6].license_type_id[7]);
        assert(t[1].license_type_id[9] != t[6].license_type_id[9]);
        assert(t[2].license_type_id[7] != t[6].license_type_id[7]);
        assert(t[3].license_type_id[17] != t[6].license_type_id[17]);
        assert(t[4].license_type_id[17] != t[6].license_type_id[17]);
        assert(t[5].license_type_id[17] != t[6].license_type_id[17]);
        assert(t[0].license_type_id[7] != t[7].license_type_id[7]);
        assert(t[1].license_type_id[8] != t[7].license_type_id[8]);
        assert(t[2].license_type_id[7] != t[7].license_type_id[7]);
        assert(t[3].license_type_id[8] != t[7].license_type_id[8]);
        assert(t[4].license_type_id[8] != t[7].license_type_id[8]);
        assert(t[5].license_type_id[8] != t[7].license_type_id[8]);
        assert(t[6].license_type_id[8] != t[7].license_type_id[8]);
        assert(t[0].license_type_id[7] != t[8].license_type_id[7]);
        assert(t[1].license_type_id[7] != t[8].license_type_id[7]);
        assert(t[2].license_type_id[7] != t[8].license_type_id[7]);
        assert(t[3].license_type_id[7] != t[8].license_type_id[7]);
        assert(t[4].license_type_id[7] != t[8].license_type_id[7]);
        assert(t[5].license_type_id[7] != t[8].license_type_id[7]);
        assert(t[6].license_type_id[7] != t[8].license_type_id[7]);
        assert(t[7].license_type_id[7] != t[8].license_type_id[7]);
        assert(t[0].license_type_id[7] != t[9].license_type_id[7]);
        assert(t[1].license_type_id[7] != t[9].license_type_id[7]);
        assert(t[2].license_type_id[7] != t[9].license_type_id[7]);
        assert(t[3].license_type_id[7] != t[9].license_type_id[7]);
        assert(t[4].license_type_id[7] != t[9].license_type_id[7]);
        assert(t[5].license_type_id[7] != t[9].license_type_id[7]);
        assert(t[6].license_type_id[7] != t[9].license_type_id[7]);
        assert(t[7].license_type_id[7] != t[9].license_type_id[7]);
        assert(t[8].license_type_id[7] != t[9].license_type_id[7]);
        assert(t[0].license_type_id[7] != t[10].license_type_id[7]);
        assert(t[1].license_type_id[7] != t[10].license_type_id[7]);
        assert(t[2].license_type_id[7] != t[10].license_type_id[7]);
        assert(t[3].license_type_id[7] != t[10].license_type_id[7]);
        assert(t[4].license_type_id[7] != t[10].license_type_id[7]);
        assert(t[5].license_type_id[7] != t[10].license_type_id[7]);
        assert(t[6].license_type_id[7] != t[10].license_type_id[7]);
        assert(t[7].license_type_id[7] != t[10].license_type_id[7]);
        assert(t[8].license_type_id[7] != t[10].license_type_id[7]);
        assert(t[9].license_type_id[7] != t[10].license_type_id[7]);
        assert(t[0].license_type_id[7] != t[11].license_type_id[7]);
        assert(t[1].license_type_id[7] != t[11].license_type_id[7]);
        assert(t[2].license_type_id[7] != t[11].license_type_id[7]);
        assert(t[3].license_type_id[7] != t[11].license_type_id[7]);
        assert(t[4].license_type_id[7] != t[11].license_type_id[7]);
        assert(t[5].license_type_id[7] != t[11].license_type_id[7]);
        assert(t[6].license_type_id[7] != t[11].license_type_id[7]);
        assert(t[7].license_type_id[7] != t[11].license_type_id[7]);
        assert(t[8].license_type_id[7] != t[11].license_type_id[7]);
        assert(t[9].license_type_id[8] != t[11].license_type_id[8]);
        assert(t[10].license_type_id[7] != t[11].license_type_id[7]);
        assert(t[0].license_type_id[7] != t[12].license_type_id[7]);
        assert(t[1].license_type_id[7] != t[12].license_type_id[7]);
        assert(t[2].license_type_id[7] != t[12].license_type_id[7]);
        assert(t[3].license_type_id[7] != t[12].license_type_id[7]);
        assert(t[4].license_type_id[7] != t[12].license_type_id[7]);
        assert(t[5].license_type_id[7] != t[12].license_type_id[7]);
        assert(t[6].license_type_id[7] != t[12].license_type_id[7]);
        assert(t[7].license_type_id[7] != t[12].license_type_id[7]);
        assert(t[8].license_type_id[7] != t[12].license_type_id[7]);
        assert(t[9].license_type_id[7] != t[12].license_type_id[7]);
        assert(t[10].license_type_id[7] != t[12].license_type_id[7]);
        assert(t[11].license_type_id[7] != t[12].license_type_id[7]);
        reveal_with_fuel(ids_distinct_each, 14);
        reveal_with_fuel(id_fresh_each, 14);
    }
    lemma_ids_distinct_each(t);
}

/// No two licence types of `cbs_license_types` share an identifier.
proof fn lemma_cbs_license_types_ids_distinct()
    ensures
        license_type_ids_distinct(spec_cbs_license_types()),
{
    let t = spec_cbs_license_types();
    assert(ids_distinct_each(t)) by {
        reveal_strlit("sc-cbs:banking-domestic");
        reveal_strlit("sc-cbs:banking-offshore");
        reveal_strlit("sc-cbs:bureau-de-change");
        reveal_strlit("sc-cbs:money-value-transfer");
        reveal_strlit("sc-cbs:payment-service-provider");
        assert(t[0].license_type_id[15] != t[1].license_type_id[15]);
        assert(t[0].license_type_id[7] != t[2].license_type_id[7]);
        assert(t[1].license_type_id[7] != t[2].license_type_id[7]);
        assert(t[0].license_type_id[8] != t[3].license_type_id[8]);
        assert(t[1].license_type_id[8] != t[3].license_type_id[8]);
        assert(t[2].license_type_id[7] != t[3].license_type_id[7]);
        assert(t[0].license_type_id[7] != t[4].license_type_id[7]);
        assert(t[1].license_type_id[7] != t[4].license_type_id[7]);
        assert(t[2].license_type_id[7] != t[4].license_type_id[7]);
        assert(t[3].license_type_id[7] != t[4].license_type_id[7]);
        reveal_with_fuel(ids_distinct_each, 6);
        reveal_with_fuel(id_fresh_each, 6);
    }
    lemma_ids_distinct_each(t);
}

/// No two licence types of `src_license_types` share an identifier.
proof fn lemma_src_license_types_ids_distinct()
    ensures
        license_type_ids_distinct(spec_src_license_types()),
{
    let t = spec_src_license_types();
    assert(ids_distinct_each(t)) by {
        reveal_strlit("sc-src:business-registration");
        reveal_strlit("sc-src:tax-registration");
        assert(t[0].license_type_id[7] != t[1].license_type_id[7]);
        reveal_with_fuel(ids_distinct_each, 3);
        reveal_with_fuel(id_fresh_each, 3);
    }
    lemma_ids_distinct_each(t);
}

/// No licence type of `fsa_license_types` shares an identifier with one of `cbs_license_types`.
proof fn lemma_fsa_license_types_apart_from_cbs_license_types()
    ensures
        license_type_ids_apart(spec_fsa_license_types(), spec_cbs_license_types()),
{
    let a = spec_fsa_license_types();
    let b = spec_cbs_license_types();
    assert(apart_each(a, b)) by {
        reveal_strlit("sc-cbs:banking-domestic");
        reveal_strlit("sc-cbs:banking-offshore");
        reveal_strlit("sc-cbs:bureau-de-change");
        reveal_strlit("sc-cbs:money-value-transfer");
        reveal_strlit("sc-cbs:payment-service-provider");
        reveal_strlit("sc-fsa:credit-union");
        reveal_strlit("sc-fsa:csp");
        reveal_strlit("sc-fsa:digital-asset-service-provider");
        reveal_strlit("sc-fsa:fund-management");
        reveal_strlit("sc-fsa:gbc");
        reveal_strlit("sc-fsa:ibc");
        reveal_strlit("sc-fsa:insurance-agent");
        reveal_strlit("sc-fsa:insurance-broker");
        reveal_strlit("sc-fsa:insurance-captive");
        reveal_strlit("sc-fsa:insurance-domestic");
        reveal_strlit("sc-fsa:investment-adviser");
        reveal_strlit("sc-fsa:money-changing");
        reveal_strlit("sc-fsa:securities-dealer");
        assert(a[0].license_type_id[3] != b[0].license_type_id[3]);
        assert(a[0].license_type_id[3] != b[1].license_type_id[3]);
        assert(a[0].license_type_id[3] != b[2].license_type_id[3]);
        assert(a[0].license_type_id[3] != b[3].license_type_id[3]);
        assert(a[0].license_type_id[3] != b[4].license_type_id[3]);
        assert(a[1].license_type_id[3] != b[0].license_type_id[3]);
        assert(a[1].license_type_id[3] != b[1].license_type_id[3]);
        assert(a[1].license_type_id[3] != b[2].license_type_id[3]);
        assert(a[1].license_type_id[3] != b[3].license_type_id[3]);
        assert(a[1].license_type_id[3] != b[4].license_type_id[3]);
        assert(a[2].license_type_id[3] != b[0].license_type_id[3]);
        assert(a[2].license_type_id[3] != b[1].license_type_id[3]);
        assert(a[2].license_type_id[3] != b[2].license_type_id[3]);
        assert(a[2].license_type_id[3] != b[3].license_type_id[3]);
        assert(a[2].license_type_id[3] != b[4].license_type_id[3]);
        assert(a[3].license_type_id[3] != b[0].license_type_id[3]);
        assert(a[3].license_type_id[3] != b[1].license_type_id[3]);
        assert(a[3].license_type_id[3] != b[2].license_type_id[3]);
        assert(a[3].license_type_id[3] != b[3].license_type_id[3]);
        assert(a[3].license_type_id[3] != b[4].license_type_id[3]);
        assert(a[4].license_type_id[3] != b[0].license_type_id[3]);
        assert(a[4].license_type_id[3] != b[1].license_type_id[3]);
        assert(a[4].license_type_id[3] != b[2].license_type_id[3]);
        assert(a[4].license_type_id[3] != b[3].license_type_id[3]);
        assert(a[4].license_type_id[3] != b[4].license_type_id[3]);
        assert(a[5].license_type_id[3] != b[0].license_type_id[3]);
        assert(a[5].license_type_id[3] != b[1].license_type_id[3]);
        assert(a[5].license_type_id[3] != b[2].license_type_id[3]);
        assert(a[5].license_type_id[3] != b[3].license_type_id[3]);
        assert(a[5].license_type_id[3] != b[4].license_type_id[3]);
        assert(a[6].license_type_id[3] != b[0].license_type_id[3]);
        assert(a[6].license_type_id[3] != b[1].license_type_id[3]);
        assert(a[6].license_type_id[3] != b[2].license_type_id[3]);
        assert(a[6].license_type_id[3] != b[3].license_type_id[3]);
        assert(a[6].license_type_id[3] != b[4].license_type_id[3]);
        assert(a[7].license_type_id[3] != b[0].license_type_id[3]);
        assert(a[7].license_type_id[3] != b[1].license_type_id[3]);
        assert(a[7].license_type_id[3] != b[2].license_type_id[3]);
        assert(a[7].license_type_id[3] != b[3].license_type_id[3]);
        assert(a[7].license_type_id[3] != b[4].license_type_id[3]);
        assert(a[8].license_type_id[3] != b[0].license_type_id[3]);
        assert(a[8].license_type_id[3] != b[1].license_type_id[3]);
        assert(a[8].license_type_id[3] != b[2].license_type_id[3]);
        assert(a[8].license_type_id[3] != b[3].license_type_id[3]);
        assert(a[8].license_type_id[3] != b[4].license_type_id[3]);
        assert(a[9].license_type_id[3] != b[0].license_type_id[3]);
        assert(a[9].license_type_id[3] != b[1].license_type_id[3]);
        assert(a[9].license_type_id[3] != b[2].license_type_id[3]);
        assert(a[9].license_type_id[3] != b[3].license_type_id[3]);
        assert(a[9].license_type_id[3] != b[4].license_type_id[3]);
        assert(a[10].license_type_id[3] != b[0].license_type_id[3]);
        assert(a[10].license_type_id[3] != b[1].license_type_id[3]);
        assert(a[10].license_type_id[3] != b[2].license_type_id[3]);
        assert(a[10].license_type_id[3] != b[3].license_type_id[3]);
        assert(a[10].license_type_id[3] != b[4].license_type_id[3]);
        assert(a[11].license_type_id[3] != b[0].license_type_id[3]);
        assert(a[11].license_type_id[3] != b[1].license_type_id[3]);
        assert(a[11].license_type_id[3] != b[2].license_type_id[3]);
        assert(a[11].license_type_id[3] != b[3].license_type_id[3]);
        assert(a[11].license_type_id[3] != b[4].license_type_id[3]);
        assert(a[12].license_type_id[3] != b[0].license_type_id[3]);
        assert(a[12].license_type_id[3] != b[1].license_type_id[3]);
        assert(a[12].license_type_id[3] != b[2].license_type_id[3]);
        assert(a[12].license_type_id[3] != b[3].license_type_id[3]);
        assert(a[12].license_type_id[3] != b[4].license_type_id[3]);
        reveal_with_fuel(apart_each, 14);
        reveal_with_fuel(id_fresh_each, 6);
    }
    lemma_apart_each(a, b);
}

/// No licence type of `fsa_license_types` shares an identifier with one of `src_license_types`.
proof fn lemma_fsa_license_types_apart_from_src_license_types()
    ensures
        license_type_ids_apart(spec_fsa_license_types(), spec_src_license_types()),
{
    let a = spec_fsa_license_types();
    let b = spec_src_license_types();
    assert(apart_each(a, b)) by {
        reveal_strlit("sc-fsa:credit-union");
        reveal_strlit("sc-fsa:csp");
        reveal_strlit("sc-fsa:digital-asset-service-provider");
        reveal_strlit("sc-fsa:fund-management");
        reveal_strlit("sc-fsa:gbc");
        reveal_strlit("sc-fsa:ibc");
        reveal_strlit("sc-fsa:insurance-agent");
        reveal_strlit("sc-fsa:insurance-broker");
        reveal_strlit("sc-fsa:insurance-captive");
        reveal_strlit("sc-fsa:insurance-domestic");
        reveal_strlit("sc-fsa:investment-adviser");
        reveal_strlit("sc-fsa:money-changing");
        reveal_strlit("sc-fsa:securities-dealer");
        reveal_strlit("sc-src:business-registration");
        reveal_strlit("sc-src:tax-registration");
        assert(a[0].license_type_id[3] != b[0].license_type_id[3]);
        assert(a[0].license_type_id[3] != b[1].license_type_id[3]);
        assert(a[1].license_type_id[3] != b[0].license_type_id[3]);
        assert(a[1].license_type_id[3] != b[1].license_type_id[3]);
        assert(a[2].license_type_id[3] != b[0].license_type_id[3]);
        assert(a[2].license_type_id[3] != b[1].license_type_id[3]);
        assert(a[3].license_type_id[3] != b[0].license_type_id[3]);
        assert(a[3].license_type_id[3] != b[1].license_type_id[3]);
        assert(a[4].license_type_id[3] != b[0].license_type_id[3]);
        assert(a[4].license_type_id[3] != b[1].license_type_id[3]);
        assert(a[5].license_type_id[3] != b[0].license_type_id[3]);
        assert(a[5].license_type_id[3] != b[1].license_type_id[3]);
        assert(a[6].license_type_id[3] != b[0].license_type_id[3]);
        assert(a[6].license_type_id[3] != b[1].license_type_id[3]);
        assert(a[7].license_type_id[3] != b[0].license_type_id[3]);
        assert(a[7].license_type_id[3] != b[1].license_type_id[3]);
        assert(a[8].license_type_id[3] != b[0].license_type_id[3]);
        assert(a[8].license_type_id[3] != b[1].license_type_id[3]);
        assert(a[9].license_type_id[3] != b[0].license_type_id[3]);
        assert(a[9].license_type_id[3] != b[1].license_type_id[3]);
        assert(a[10].license_type_id[3] != b[0].license_type_id[3]);
        assert(a[10].license_type_id[3] != b[1].license_type_id[3]);
        assert(a[11].license_type_id[3] != b[0].license_type_id[3]);
        assert(a[11].license_type_id[3] != b[1].license_type_id[3]);
        assert(a[12].license_type_id[3] != b[0].license_type_id[3]);
        assert(a[12].license_type_id[3] != b[1].license_type_id[3]);
        reveal_with_fuel(apart_each, 14);
        reveal_with_fuel(id_fresh_each, 3);
    }
    lemma_apart_each(a, b);
}

/// No licence type of `cbs_license_types` shares an identifier with one of `src_license_types`.
proof fn lemma_cbs_license_types_apart_from_src_license_types()
    ensures
        license_type_ids_apart(spec_cbs_license_types(), spec_src_license_types()),
{
    let a = spec_cbs_license_types();
    let b = spec_src_license_types();
    assert(apart_each(a, b)) by {
        reveal_strlit("sc-cbs:banking-domestic");
        reveal_strlit("sc-cbs:banking-offshore");
        reveal_strlit("sc-cbs:bureau-de-change");
        reveal_strlit("sc-cbs:money-value-transfer");
        reveal_strlit("sc-cbs:payment-service-provider");
        reveal_strlit("sc-src:business-registration");
        reveal_strlit("sc-src:tax-registration");
        assert(a[0].license_type_id[3] != b[0].license_type_id[3]);
        assert(a[0].license_type_id[3] != b[1].license_type_id[3]);
        assert(a[1].license_type_id[3] != b[0].license_type_id[3]);
        assert(a[1].license_type_id[3] != b[1].license_type_id[3]);
        assert(a[2].license_type_id[3] != b[0].license_type_id[3]);
        assert(a[2].license_type_id[3] != b[1].license_type_id[3]);
        assert(a[3].license_type_id[3] != b[0].license_type_id[3]);
        assert(a[3].license_type_id[3] != b[1].license_type_id[3]);
        assert(a[4].license_type_id[3] != b[0].license_type_id[3]);
        assert(a[4].license_type_id[3] != b[1].license_type_id[3]);
        reveal_with_fuel(apart_each, 6);
        reveal_with_fuel(id_fresh_each, 3);
    }
    lemma_apart_each(a, b);
}

/// No two licence types of `seychelles_license_types` share an identifier.
pub proof fn lemma_seychelles_license_type_ids_distinct()
    ensures
        license_type_ids_distinct(spec_seychelles_license_types()),
{
    lemma_fsa_license_types_ids_distinct();
    lemma_cbs_license_types_ids_distinct();
    lemma_src_license_types_ids_distinct();
    assert(spec_seychelles_license_types() =~= spec_fsa_license_types() + spec_cbs_license_types() + spec_src_license_types());
    let acc = spec_fsa_license_types();
    lemma_fsa_license_types_apart_from_cbs_license_types();
    let part = spec_fsa_license_types();
    lemma_ids_distinct_append(acc, spec_cbs_license_types());
    let acc = acc + spec_cbs_license_types();
    lemma_fsa_license_types_apart_from_src_license_types();
    lemma_cbs_license_types_apart_from_src_license_types();
    let part = spec_fsa_license_types();
    lemma_ids_apart_append(part, spec_cbs_license_types(), spec_src_license_types());
    let part = part + spec_cbs_license_types();
    lemma_ids_distinct_append(acc, spec_src_license_types());
    let acc = acc + spec_src_license_types();
    assert(spec_seychelles_license_types() == acc);
}

/// Each licence-type identifier of `fsa_license_types` starts with its regulator's
/// identifier and a colon.
proof fn lemma_fsa_license_types_prefixed()
    ensures
        license_type_ids_prefixed(spec_fsa_license_types()),
{
    let ts = spec_fsa_license_types();
    assert(license_type_id_prefixed(ts[0])) by {
        reveal_strlit("sc-fsa:securities-dealer");
        reveal_strlit("sc-fsa");
        reveal_strlit(":");
        assert(ts[0].license_type_id.subrange(0, (ts[0].regulator_id + ":"@).len() as int) =~= ts[0].regulator_id + ":"@);
    }
    assert(license_type_id_prefixed(ts[1])) by {
        reveal_strlit("sc-fsa:investment-adviser");
        reveal_strlit("sc-fsa");
        reveal_strlit(":");
        assert(ts[1].license_type_id.subrange(0, (ts[1].regulator_id + ":"@).len() as int) =~= ts[1].regulator_id + ":"@);
    }
    assert(license_type_id_prefixed(ts[2])) by {
        reveal_strlit("sc-fsa:fund-management");
        reveal_strlit("sc-fsa");
        reveal_strlit(":");
        assert(ts[2].license_type_id.subrange(0, (ts[2].regulator_id + ":"@).len() as int) =~= ts[2].regulator_id + ":"@);
    }
    assert(license_type_id_prefixed(ts[3])) by {
        reveal_strlit("sc-fsa:insurance-domestic");
        reveal_strlit("sc-fsa");
        reveal_strlit(":");
        assert(ts[3].license_type_id.subrange(0, (ts[3].regulator_id + ":"@).len() as int) =~= ts[3].regulator_id + ":"@);
    }
    assert(license_type_id_prefixed(ts[4])) by {
        reveal_strlit("sc-fsa:insurance-captive");
        reveal_strlit("sc-fsa");
        reveal_strlit(":");
        assert(ts[4].license_type_id.subrange(0, (ts[4].regulator_id + ":"@).len() as int) =~= ts[4].regulator_id + ":"@);
    }
    assert(license_type_id_prefixed(ts[5])) by {
        reveal_strlit("sc-fsa:insurance-broker");
        reveal_strlit("sc-fsa");
        reveal_strlit(":");
        assert(ts[5].license_type_id.subrange(0, (ts[5].regulator_id + ":"@).len() as int) =~= ts[5].regulator_id + ":"@);
    }
    assert(license_type_id_prefixed(ts[6])) by {
        reveal_strlit("sc-fsa:insurance-agent");
        reveal_strlit("sc-fsa");
        reveal_strlit(":");
        assert(ts[6].license_type_id.subrange(0, (ts[6].regulator_id + ":"@).len() as int) =~= ts[6].regulator_id + ":"@);
    }
    assert(license_type_id_prefixed(ts[7])) by {
        reveal_strlit("sc-fsa:ibc");
        reveal_strlit("sc-fsa");
        reveal_strlit(":");
        assert(ts[7].license_type_id.subrange(0, (ts[7].regulator_id + ":"@).len() as int) =~= ts[7].regulator_id + ":"@);
    }
    assert(license_type_id_prefixed(ts[8])) by {
        reveal_strlit("sc-fsa:gbc");
        reveal_strlit("sc-fsa");
        reveal_strlit(":");
        assert(ts[8].license_type_id.subrange(0, (ts[8].regulator_id + ":"@).len() as int) =~= ts[8].regulator_id + ":"@);
    }
    assert(license_type_id_prefixed(ts[9])) by {
        reveal_strlit("sc-fsa:csp");
        reveal_strlit("sc-fsa");
        reveal_strlit(":");
        assert(ts[9].license_type_id.subrange(0, (ts[9].regulator_id + ":"@).len() as int) =~= ts[9].regulator_id + ":"@);
    }
    assert(license_type_id_prefixed(ts[10])) by {
        reveal_strlit("sc-fsa:money-changing");
        reveal_strlit("sc-fsa");
        reveal_strlit(":");
        assert(ts[10].license_type_id.subrange(0, (ts[10].regulator_id + ":"@).len() as int) =~= ts[10].regulator_id + ":"@);
    }
    assert(license_type_id_prefixed(ts[11])) by {
        reveal_strlit("sc-fsa:credit-union");
        reveal_strlit("sc-fsa");
        reveal_strlit(":");
        assert(ts[11].license_type_id.subrange(0, (ts[11].regulator_id + ":"@).len() as int) =~= ts[11].regulator_id + ":"@);
    }
    assert(license_type_id_prefixed(ts[12])) by {
        reveal_strlit("sc-fsa:digital-asset-service-provider");
        reveal_strlit("sc-fsa");
        reveal_strlit(":");
        assert(ts[12].license_type_id.subrange(0, (ts[12].regulator_id + ":"@).len() as int) =~= ts[12].regulator_id + ":"@);
    }
    assert(prefixed_each(ts)) by {
        reveal_with_fuel(prefixed_each, 14);
    }
    lemma_prefixed_each(ts);
}

/// Each licence-type identifier of `cbs_license_types` starts with its regulator's
/// identifier and a colon.
proof fn lemma_cbs_license_types_prefixed()
    ensures
        license_type_ids_prefixed(spec_cbs_license_types()),
{
    let ts = spec_cbs_license_types();
    assert(license_type_id_prefixed(ts[0])) by {
        reveal_strlit("sc-cbs:banking-domestic");
        reveal_strlit("sc-cbs");
        reveal_strlit(":");
        assert(ts[0].license_type_id.subrange(0, (ts[0].regulator_id + ":"@).len() as int) =~= ts[0].regulator_id + ":"@);
    }
    assert(license_type_id_prefixed(ts[1])) by {
        reveal_strlit("sc-cbs:banking-offshore");
        reveal_strlit("sc-cbs");
        reveal_strlit(":");
        assert(ts[1].license_type_id.subrange(0, (ts[1].regulator_id + ":"@).len() as int) =~= ts[1].regulator_id + ":"@);
    }
    assert(license_type_id_prefixed(ts[2])) by {
        reveal_strlit("sc-cbs:money-value-transfer");
        reveal_strlit("sc-cbs");
        reveal_strlit(":");
        assert(ts[2].license_type_id.subrange(0, (ts[2].regulator_id + ":"@).len() as int) =~= ts[2].regulator_id + ":"@);
    }
    assert(license_type_id_prefixed(ts[3])) by {
        reveal_strlit("sc-cbs:bureau-de-change");
        reveal_strlit("sc-cbs");
        reveal_strlit(":");
        assert(ts[3].license_type_id.subrange(0, (ts[3].regulator_id + ":"@).len() as int) =~= ts[3].regulator_id + ":"@);
    }
    assert(license_type_id_prefixed(ts[4])) by {
        reveal_strlit("sc-cbs:payment-service-provider");
        reveal_strlit("sc-cbs");
        reveal_strlit(":");
        assert(ts[4].license_type_id.subrange(0, (ts[4].regulator_id + ":"@).len() as int) =~= ts[4].regulator_id + ":"@);
    }
    assert(prefixed_each(ts)) by {
        reveal_with_fuel(prefixed_each, 6);
    }
    lemma_prefixed_each(ts);
}

/// Each licence-type identifier of `src_license_types` starts with its regulator's
/// identifier and a colon.
proof fn lemma_src_license_types_prefixed()
    ensures
        license_type_ids_prefixed(spec_src_license_types()),
{
    let ts = spec_src_license_types();
    assert(license_type_id_prefixed(ts[0])) by {
        reveal_strlit("sc-src:business-registration");
        reveal_strlit("sc-src");
        reveal_strlit(":");
        assert(ts[0].license_type_id.subrange(0, (ts[0].regulator_id + ":"@).len() as int) =~= ts[0].regulator_id + ":"@);
    }
    assert(license_type_id_prefixed(ts[1])) by {
        reveal_strlit("sc-src:tax-registration");
        reveal_strlit("sc-src");
        reveal_strlit(":");
        assert(ts[1].license_type_id.subrange(0, (ts[1].regulator_id + ":"@).len() as int) =~= ts[1].regulator_id + ":"@);
    }
    assert(prefixed_each(ts)) by {
        reveal_with_fuel(prefixed_each, 3);
    }
    lemma_prefixed_each(ts);
}

/// Every licence-type identifier of the Seychelles catalog starts with the
/// identifier of the regulator that grants it, followed by a colon.
pub proof fn lemma_seychelles_license_types_prefixed()
    ensures
        license_type_ids_prefixed(spec_seychelles_license_types()),
{
    lemma_fsa_license_types_prefixed();
    lemma_cbs_license_types_prefixed();
    lemma_src_license_types_prefixed();
    lemma_prefixed_append(spec_fsa_license_types(), spec_cbs_license_types());
    lemma_prefixed_append(spec_fsa_license_types() + spec_cbs_license_types(), spec_src_license_types());
    assert(spec_seychelles_license_types() =~= spec_fsa_license_types() + spec_cbs_license_types() + spec_src_license_types());
}

} // verus!
