//! # Kazakhstan + AIFC + Alatau City Regulatory Authority License Mappings
//!
//! Kazakhstan-specific license type definitions covering onshore regulators,
//! the Astana International Financial Centre (AIFC), and the Alatau City
//! technology zone:
//!
//! | Authority | Full Name | Domain |
//! |-----------|-----------|--------|
//! | **ARDFM** | Agency for Regulation and Development of Financial Market | Financial |
//! | **NB RK** | National Bank of Kazakhstan | Monetary Policy, Payments |
//! | **AFSA** | Astana Financial Services Authority | Financial Services (AIFC) |
//! | **AIFC Registrar** | AIFC Registrar of Companies | Corporate (AIFC) |
//! | **Alatau City Admin** | Alatau City Administration | Technology, Innovation |
//!
//! Each authority is represented as a [`LicensepackRegulator`] with its
//! associated [`LicenseTypeDefinition`] entries. These definitions provide
//! the Kazakhstan-specific license taxonomy used by the compliance tensor's
//! LICENSING domain evaluation.

use vstd::prelude::*;

use crate::license::{
    license_type, license_type_view, license_types_view, regulator, regulator_view,
    regulators_view, LicenseTypeDefinition, LicenseTypeView, LicensepackRegulator,
    RegulatorView, RequirementValue,
    lemma_license_types_view_append, lemma_regulators_view_append,
};

use crate::catalog::{
    apart_each, id_fresh_each, ids_distinct_each, lemma_apart_each, lemma_ids_apart_append, lemma_ids_distinct_append, lemma_ids_distinct_each, license_type_ids_apart, license_type_ids_distinct, complete_each, every_regulator_grants, granted_by_each, granted_by_listed_regulators, grants_each, grants_some, has_prefix, in_country_each, lemma_complete_append, lemma_complete_each, lemma_every_combine, lemma_granted_by_each, lemma_granted_combine, lemma_grants_each, lemma_in_country_append, lemma_in_country_each, license_types_complete, regulators_in_country,
};

use crate::catalog::{
    lemma_prefixed_append, lemma_prefixed_each, license_type_id_prefixed, license_type_ids_prefixed,
    prefixed_each,
};

verus! {

/// The view of `ardfm_regulator`.
pub open spec fn spec_ardfm_regulator() -> RegulatorView {
    regulator_view(
        "kz-ardfm"@,
        "Agency for Regulation and Development of Financial Market"@,
        "kz"@,
        Some("https://www.gov.kz/memleket/entities/ardfm"@),
        seq!["license_registry"@],
    )
}

/// ARDFM regulator profile.
pub fn ardfm_regulator() -> (r: LicensepackRegulator)
    ensures
        r@ == spec_ardfm_regulator(),
        r@ == regulator_view(
            "kz-ardfm"@,
            "Agency for Regulation and Development of Financial Market"@,
            "kz"@,
            Some("https://www.gov.kz/memleket/entities/ardfm"@),
            seq!["license_registry"@],
        ),
{
    let r =
        regulator(
            "kz-ardfm",
            "Agency for Regulation and Development of Financial Market",
            "kz",
            Some("https://www.gov.kz/memleket/entities/ardfm"),
            &["license_registry"],
        );
    proof {
        assert(r@ =~~= spec_ardfm_regulator());
    }
    r
}

/// The view of `ardfm_license_types`.
pub open spec fn spec_ardfm_license_types() -> Seq<LicenseTypeView> {
    seq![
        license_type_view(
            "kz-ardfm:banking"@,
            "Banking License"@,
            "License to conduct banking operations in the Republic of Kazakhstan"@,
            "kz-ardfm"@,
            Some("financial"@),
            seq!["deposit_taking"@, "lending"@, "trade_finance"@, "foreign_exchange"@],
            seq![],
            seq![],
            seq![],
            None,
        ),
        license_type_view(
            "kz-ardfm:insurance"@,
            "Insurance License"@,
            "License to conduct insurance business in Kazakhstan"@,
            "kz-ardfm"@,
            Some("insurance"@),
            seq!["general_insurance"@, "life_insurance"@, "reinsurance"@],
            seq![],
            seq![],
            seq![],
            Some(1i32),
        ),
        license_type_view(
            "kz-ardfm:securities"@,
            "Securities Market License"@,
            "License to operate on the securities market of Kazakhstan"@,
            "kz-ardfm"@,
            Some("financial"@),
            seq!["securities_brokerage"@, "securities_dealing"@, "investment_management"@],
            seq![],
            seq![],
            seq![],
            Some(3i32),
        ),
        license_type_view(
            "kz-ardfm:microfinance"@,
            "Microfinance Organization License"@,
            "License to operate as a microfinance organization in Kazakhstan"@,
            "kz-ardfm"@,
            Some("financial"@),
            seq!["micro_lending"@, "micro_credit"@],
            seq![],
            seq![],
            seq![],
            Some(3i32),
        ),
        license_type_view(
            "kz-ardfm:payment"@,
            "Payment Organization License"@,
            "License to provide payment services in Kazakhstan"@,
            "kz-ardfm"@,
            Some("financial"@),
            seq!["payment_processing"@, "payment_services"@, "e_money"@],
            seq![],
            seq![],
            seq![],
            Some(3i32),
        )
    ]
}

/// ARDFM license type definitions.
pub fn ardfm_license_types() -> (r: Vec<LicenseTypeDefinition>)
    ensures
        license_types_view(r@) == spec_ardfm_license_types(),
        license_types_view(r@) == seq![
            license_type_view(
                "kz-ardfm:banking"@,
                "Banking License"@,
                "License to conduct banking operations in the Republic of Kazakhstan"@,
                "kz-ardfm"@,
                Some("financial"@),
                seq!["deposit_taking"@, "lending"@, "trade_finance"@, "foreign_exchange"@],
                seq![],
                seq![],
                seq![],
                None,
            ),
            license_type_view(
                "kz-ardfm:insurance"@,
                "Insurance License"@,
                "License to conduct insurance business in Kazakhstan"@,
                "kz-ardfm"@,
                Some("insurance"@),
                seq!["general_insurance"@, "life_insurance"@, "reinsurance"@],
                seq![],
                seq![],
                seq![],
                Some(1i32),
            ),
            license_type_view(
                "kz-ardfm:securities"@,
                "Securities Market License"@,
                "License to operate on the securities market of Kazakhstan"@,
                "kz-ardfm"@,
                Some("financial"@),
                seq!["securities_brokerage"@, "securities_dealing"@, "investment_management"@],
                seq![],
                seq![],
                seq![],
                Some(3i32),
            ),
            license_type_view(
                "kz-ardfm:microfinance"@,
                "Microfinance Organization License"@,
                "License to operate as a microfinance organization in Kazakhstan"@,
                "kz-ardfm"@,
                Some("financial"@),
                seq!["micro_lending"@, "micro_credit"@],
                seq![],
                seq![],
                seq![],
                Some(3i32),
            ),
            license_type_view(
                "kz-ardfm:payment"@,
                "Payment Organization License"@,
                "License to provide payment services in Kazakhstan"@,
                "kz-ardfm"@,
                Some("financial"@),
                seq!["payment_processing"@, "payment_services"@, "e_money"@],
                seq![],
                seq![],
                seq![],
                Some(3i32),
            )
        ],
{
    let r = vec![
        license_type(
            "kz-ardfm:banking",
            "Banking License",
            "License to conduct banking operations in the Republic of Kazakhstan",
            "kz-ardfm",
            Some("financial"),
            &["deposit_taking", "lending", "trade_finance", "foreign_exchange"],
            &[],
            &[],
            &[],
            None,
        ),
        license_type(
            "kz-ardfm:insurance",
            "Insurance License",
            "License to conduct insurance business in Kazakhstan",
            "kz-ardfm",
            Some("insurance"),
            &["general_insurance", "life_insurance", "reinsurance"],
            &[],
            &[],
            &[],
            Some(1i32),
        ),
        license_type(
            "kz-ardfm:securities",
            "Securities Market License",
            "License to operate on the securities market of Kazakhstan",
            "kz-ardfm",
            Some("financial"),
            &["securities_brokerage", "securities_dealing", "investment_management"],
            &[],
            &[],
            &[],
            Some(3i32),
        ),
        license_type(
            "kz-ardfm:microfinance",
            "Microfinance Organization License",
            "License to operate as a microfinance organization in Kazakhstan",
            "kz-ardfm",
            Some("financial"),
            &["micro_lending", "micro_credit"],
            &[],
            &[],
            &[],
            Some(3i32),
        ),
        license_type(
            "kz-ardfm:payment",
            "Payment Organization License",
            "License to provide payment services in Kazakhstan",
            "kz-ardfm",
            Some("financial"),
            &["payment_processing", "payment_services", "e_money"],
            &[],
            &[],
            &[],
            Some(3i32),
        )
    ];
    proof {
        assert(license_types_view(r@) =~~= spec_ardfm_license_types());
    }
    r
}

/// The view of `nbrk_regulator`.
pub open spec fn spec_nbrk_regulator() -> RegulatorView {
    regulator_view(
        "kz-nb"@,
        "National Bank of Kazakhstan"@,
        "kz"@,
        Some("https://www.nationalbank.kz"@),
        seq!["monetary_data"@, "payment_oversight"@],
    )
}

/// NB RK regulator profile.
pub fn nbrk_regulator() -> (r: LicensepackRegulator)
    ensures
        r@ == spec_nbrk_regulator(),
        r@ == regulator_view(
            "kz-nb"@,
            "National Bank of Kazakhstan"@,
            "kz"@,
            Some("https://www.nationalbank.kz"@),
            seq!["monetary_data"@, "payment_oversight"@],
        ),
{
    let r =
        regulator(
            "kz-nb",
            "National Bank of Kazakhstan",
            "kz",
            Some("https://www.nationalbank.kz"),
            &["monetary_data", "payment_oversight"],
        );
    proof {
        assert(r@ =~~= spec_nbrk_regulator());
    }
    r
}

/// The view of `nbrk_license_types`.
pub open spec fn spec_nbrk_license_types() -> Seq<LicenseTypeView> {
    seq![
        license_type_view(
            "kz-nb:monetary-policy"@,
            "Monetary Policy Participant"@,
            "Authorization to participate in National Bank monetary operations"@,
            "kz-nb"@,
            Some("financial"@),
            seq!["open_market_operations"@, "reserve_requirements"@],
            seq![],
            seq![],
            seq![],
            None,
        ),
        license_type_view(
            "kz-nb:payment-system-oversight"@,
            "Payment System Operator Authorization"@,
            "Authorization to operate a payment system under NB RK oversight"@,
            "kz-nb"@,
            Some("financial"@),
            seq!["payment_system_operation"@, "clearing"@, "settlement"@],
            seq![],
            seq![],
            seq![],
            None,
        )
    ]
}

/// NB RK license type definitions.
pub fn nbrk_license_types() -> (r: Vec<LicenseTypeDefinition>)
    ensures
        license_types_view(r@) == spec_nbrk_license_types(),
        license_types_view(r@) == seq![
            license_type_view(
                "kz-nb:monetary-policy"@,
                "Monetary Policy Participant"@,
                "Authorization to participate in National Bank monetary operations"@,
                "kz-nb"@,
                Some("financial"@),
                seq!["open_market_operations"@, "reserve_requirements"@],
                seq![],
                seq![],
                seq![],
                None,
            ),
            license_type_view(
                "kz-nb:payment-system-oversight"@,
                "Payment System Operator Authorization"@,
                "Authorization to operate a payment system under NB RK oversight"@,
                "kz-nb"@,
                Some("financial"@),
                seq!["payment_system_operation"@, "clearing"@, "settlement"@],
                seq![],
                seq![],
                seq![],
                None,
            )
        ],
{
    let r = vec![
        license_type(
            "kz-nb:monetary-policy",
            "Monetary Policy Participant",
            "Authorization to participate in National Bank monetary operations",
            "kz-nb",
            Some("financial"),
            &["open_market_operations", "reserve_requirements"],
            &[],
            &[],
            &[],
            None,
        ),
        license_type(
            "kz-nb:payment-system-oversight",
            "Payment System Operator Authorization",
            "Authorization to operate a payment system under NB RK oversight",
            "kz-nb",
            Some("financial"),
            &["payment_system_operation", "clearing", "settlement"],
            &[],
            &[],
            &[],
            None,
        )
    ];
    proof {
        assert(license_types_view(r@) =~~= spec_nbrk_license_types());
    }
    r
}

/// The view of `afsa_regulator`.
pub open spec fn spec_afsa_regulator() -> RegulatorView {
    regulator_view(
        "kz-aifc-afsa"@,
        "Astana Financial Services Authority"@,
        "kz-aifc"@,
        Some("https://www.afsa.kz"@),
        seq!["firm_directory"@, "license_status"@],
    )
}

/// AFSA regulator profile.
pub fn afsa_regulator() -> (r: LicensepackRegulator)
    ensures
        r@ == spec_afsa_regulator(),
        r@ == regulator_view(
            "kz-aifc-afsa"@,
            "Astana Financial Services Authority"@,
            "kz-aifc"@,
            Some("https://www.afsa.kz"@),
            seq!["firm_directory"@, "license_status"@],
        ),
{
    let r =
        regulator(
            "kz-aifc-afsa",
            "Astana Financial Services Authority",
            "kz-aifc",
            Some("https://www.afsa.kz"),
            &["firm_directory", "license_status"],
        );
    proof {
        assert(r@ =~~= spec_afsa_regulator());
    }
    r
}

/// The view of `afsa_license_types`.
pub open spec fn spec_afsa_license_types() -> Seq<LicenseTypeView> {
    seq![
        license_type_view(
            "kz-aifc-afsa:banking-business"@,
            "Banking Business License"@,
            "License to conduct banking business within the AIFC"@,
            "kz-aifc-afsa"@,
            Some("financial"@),
            seq!["deposit_taking"@, "lending"@, "trade_finance"@],
            seq![],
            seq![],
            seq![],
            None,
        ),
        license_type_view(
            "kz-aifc-afsa:insurance"@,
            "Insurance License"@,
            "License to conduct insurance business within the AIFC"@,
            "kz-aifc-afsa"@,
            Some("insurance"@),
            seq!["general_insurance"@, "life_insurance"@],
            seq![],
            seq![],
            seq![],
            Some(1i32),
        ),
        license_type_view(
            "kz-aifc-afsa:islamic-finance"@,
            "Islamic Finance License"@,
            "License to conduct Islamic finance activities within the AIFC"@,
            "kz-aifc-afsa"@,
            Some("financial"@),
            seq!["islamic_financing"@, "murabaha"@, "ijara"@, "sukuk"@],
            seq![],
            seq![],
            seq![],
            None,
        ),
        license_type_view(
            "kz-aifc-afsa:dealing-in-investments"@,
            "Dealing in Investments License"@,
            "License to deal in investments as principal or agent within the AIFC"@,
            "kz-aifc-afsa"@,
            Some("financial"@),
            seq!["securities_dealing"@, "proprietary_trading"@, "order_execution"@],
            seq![],
            seq![],
            seq![],
            Some(3i32),
        ),
        license_type_view(
            "kz-aifc-afsa:managing-investments"@,
            "Managing Investments License"@,
            "License to manage investments within the AIFC"@,
            "kz-aifc-afsa"@,
            Some("financial"@),
            seq!["portfolio_management"@, "discretionary_management"@],
            seq![],
            seq![],
            seq![],
            Some(3i32),
        ),
        license_type_view(
            "kz-aifc-afsa:advising-on-investments"@,
            "Advising on Investments License"@,
            "License to provide investment advisory services within the AIFC"@,
            "kz-aifc-afsa"@,
            Some("financial"@),
            seq!["investment_advisory"@, "financial_planning"@],
            seq![],
            seq![],
            seq![],
            Some(3i32),
        ),
        license_type_view(
            "kz-aifc-afsa:custody"@,
            "Custody License"@,
            "License to provide custody services within the AIFC"@,
            "kz-aifc-afsa"@,
            Some("financial"@),
            seq!["custody_services"@, "safekeeping"@],
            seq![],
            seq![],
            seq![],
            Some(3i32),
        ),
        license_type_view(
            "kz-aifc-afsa:fund-administration"@,
            "Fund Administration License"@,
            "License to provide fund administration services within the AIFC"@,
            "kz-aifc-afsa"@,
            Some("financial"@),
            seq!["fund_administration"@, "nav_calculation"@, "transfer_agency"@],
            seq![],
            seq![],
            seq![],
            Some(3i32),
        ),
        license_type_view(
            "kz-aifc-afsa:credit-rating"@,
            "Credit Rating Agency License"@,
            "License to operate as a credit rating agency within the AIFC"@,
            "kz-aifc-afsa"@,
            Some("financial"@),
            seq!["credit_rating"@, "rating_advisory"@],
            seq![],
            seq![],
            seq![],
            Some(3i32),
        ),
        license_type_view(
            "kz-aifc-afsa:digital-asset-trading-facility"@,
            "Digital Asset Trading Facility License"@,
            "License to operate a digital asset trading facility within the AIFC"@,
            "kz-aifc-afsa"@,
            Some("financial"@),
            seq!["digital_asset_exchange"@, "digital_asset_custody"@, "order_matching"@],
            seq![],
            seq![],
            seq![],
            Some(3i32),
        ),
        license_type_view(
            "kz-aifc-afsa:money-services"@,
            "Providing Money Services License"@,
            "License to provide money services within the AIFC"@,
            "kz-aifc-afsa"@,
            Some("financial"@),
            seq!["money_transmission"@, "remittance"@, "currency_exchange"@],
            seq![],
            seq![],
            seq![],
            Some(3i32),
        ),
        license_type_view(
            "kz-aifc-afsa:e-money"@,
            "E-Money License"@,
            "License to issue electronic money within the AIFC"@,
            "kz-aifc-afsa"@,
            Some("financial"@),
            seq!["issuing_e_money"@, "e_money_distribution"@],
            seq![],
            seq![],
            seq![],
            Some(3i32),
        ),
        license_type_view(
            "kz-aifc-afsa:crowdfunding-investment"@,
            "Investment Crowdfunding License"@,
            "License to operate an investment-based crowdfunding platform in AIFC"@,
            "kz-aifc-afsa"@,
            Some("financial"@),
            seq!["crowdfunding_platform"@, "equity_crowdfunding"@],
            seq![],
            seq![],
            seq![],
            Some(3i32),
        ),
        license_type_view(
            "kz-aifc-afsa:crowdfunding-loan"@,
            "Loan Crowdfunding License"@,
            "License to operate a loan-based crowdfunding platform in AIFC"@,
            "kz-aifc-afsa"@,
            Some("financial"@),
            seq!["crowdfunding_platform"@, "peer_to_peer_lending"@],
            seq![],
            seq![],
            seq![],
            Some(3i32),
        ),
        license_type_view(
            "kz-aifc-afsa:crowdfunding-property"@,
            "Property Crowdfunding License"@,
            "License to operate a property crowdfunding platform in AIFC"@,
            "kz-aifc-afsa"@,
            Some("financial"@),
            seq!["crowdfunding_platform"@, "property_crowdfunding"@],
            seq![],
            seq![],
            seq![],
            Some(3i32),
        ),
        license_type_view(
            "kz-aifc-afsa:insurance-management"@,
            "Insurance Management License"@,
            "License to provide insurance management services within the AIFC"@,
            "kz-aifc-afsa"@,
            Some("insurance"@),
            seq!["insurance_management"@, "claims_management"@],
            seq![],
            seq![],
            seq![],
            Some(3i32),
        ),
        license_type_view(
            "kz-aifc-afsa:insurance-broker"@,
            "Insurance Broker License"@,
            "License to operate as an insurance broker within the AIFC"@,
            "kz-aifc-afsa"@,
            Some("insurance"@),
            seq!["insurance_brokerage"@, "risk_advisory"@],
            seq![],
            seq![],
            seq![],
            Some(3i32),
        ),
        license_type_view(
            "kz-aifc-afsa:private-financing-platform"@,
            "Private Financing Platform License"@,
            "License to operate a private financing platform within the AIFC"@,
            "kz-aifc-afsa"@,
            Some("financial"@),
            seq!["private_placement"@, "capital_raising"@],
            seq![],
            seq![],
            seq![],
            Some(3i32),
        )
    ]
}

/// AFSA license type definitions.
pub fn afsa_license_types() -> (r: Vec<LicenseTypeDefinition>)
    ensures
        license_types_view(r@) == spec_afsa_license_types(),
        license_types_view(r@) == seq![
            license_type_view(
                "kz-aifc-afsa:banking-business"@,
                "Banking Business License"@,
                "License to conduct banking business within the AIFC"@,
                "kz-aifc-afsa"@,
                Some("financial"@),
                seq!["deposit_taking"@, "lending"@, "trade_finance"@],
                seq![],
                seq![],
                seq![],
                None,
            ),
            license_type_view(
                "kz-aifc-afsa:insurance"@,
                "Insurance License"@,
                "License to conduct insurance business within the AIFC"@,
                "kz-aifc-afsa"@,
                Some("insurance"@),
                seq!["general_insurance"@, "life_insurance"@],
                seq![],
                seq![],
                seq![],
                Some(1i32),
            ),
            license_type_view(
                "kz-aifc-afsa:islamic-finance"@,
                "Islamic Finance License"@,
                "License to conduct Islamic finance activities within the AIFC"@,
                "kz-aifc-afsa"@,
                Some("financial"@),
                seq!["islamic_financing"@, "murabaha"@, "ijara"@, "sukuk"@],
                seq![],
                seq![],
                seq![],
                None,
            ),
            license_type_view(
                "kz-aifc-afsa:dealing-in-investments"@,
                "Dealing in Investments License"@,
                "License to deal in investments as principal or agent within the AIFC"@,
                "kz-aifc-afsa"@,
                Some("financial"@),
                seq!["securities_dealing"@, "proprietary_trading"@, "order_execution"@],
                seq![],
                seq![],
                seq![],
                Some(3i32),
            ),
            license_type_view(
                "kz-aifc-afsa:managing-investments"@,
                "Managing Investments License"@,
                "License to manage investments within the AIFC"@,
                "kz-aifc-afsa"@,
                Some("financial"@),
                seq!["portfolio_management"@, "discretionary_management"@],
                seq![],
                seq![],
                seq![],
                Some(3i32),
            ),
            license_type_view(
                "kz-aifc-afsa:advising-on-investments"@,
                "Advising on Investments License"@,
                "License to provide investment advisory services within the AIFC"@,
                "kz-aifc-afsa"@,
                Some("financial"@),
                seq!["investment_advisory"@, "financial_planning"@],
                seq![],
                seq![],
                seq![],
                Some(3i32),
            ),
            license_type_view(
                "kz-aifc-afsa:custody"@,
                "Custody License"@,
                "License to provide custody services within the AIFC"@,
                "kz-aifc-afsa"@,
                Some("financial"@),
                seq!["custody_services"@, "safekeeping"@],
                seq![],
                seq![],
                seq![],
                Some(3i32),
            ),
            license_type_view(
                "kz-aifc-afsa:fund-administration"@,
                "Fund Administration License"@,
                "License to provide fund administration services within the AIFC"@,
                "kz-aifc-afsa"@,
                Some("financial"@),
                seq!["fund_administration"@, "nav_calculation"@, "transfer_agency"@],
                seq![],
                seq![],
                seq![],
                Some(3i32),
            ),
            license_type_view(
                "kz-aifc-afsa:credit-rating"@,
                "Credit Rating Agency License"@,
                "License to operate as a credit rating agency within the AIFC"@,
                "kz-aifc-afsa"@,
                Some("financial"@),
                seq!["credit_rating"@, "rating_advisory"@],
                seq![],
                seq![],
                seq![],
                Some(3i32),
            ),
            license_type_view(
                "kz-aifc-afsa:digital-asset-trading-facility"@,
                "Digital Asset Trading Facility License"@,
                "License to operate a digital asset trading facility within the AIFC"@,
                "kz-aifc-afsa"@,
                Some("financial"@),
                seq!["digital_asset_exchange"@, "digital_asset_custody"@, "order_matching"@],
                seq![],
                seq![],
                seq![],
                Some(3i32),
            ),
            license_type_view(
                "kz-aifc-afsa:money-services"@,
                "Providing Money Services License"@,
                "License to provide money services within the AIFC"@,
                "kz-aifc-afsa"@,
                Some("financial"@),
                seq!["money_transmission"@, "remittance"@, "currency_exchange"@],
                seq![],
                seq![],
                seq![],
                Some(3i32),
            ),
            license_type_view(
                "kz-aifc-afsa:e-money"@,
                "E-Money License"@,
                "License to issue electronic money within the AIFC"@,
                "kz-aifc-afsa"@,
                Some("financial"@),
                seq!["issuing_e_money"@, "e_money_distribution"@],
                seq![],
                seq![],
                seq![],
                Some(3i32),
            ),
            license_type_view(
                "kz-aifc-afsa:crowdfunding-investment"@,
                "Investment Crowdfunding License"@,
                "License to operate an investment-based crowdfunding platform in AIFC"@,
                "kz-aifc-afsa"@,
                Some("financial"@),
                seq!["crowdfunding_platform"@, "equity_crowdfunding"@],
                seq![],
                seq![],
                seq![],
                Some(3i32),
            ),
            license_type_view(
                "kz-aifc-afsa:crowdfunding-loan"@,
                "Loan Crowdfunding License"@,
                "License to operate a loan-based crowdfunding platform in AIFC"@,
                "kz-aifc-afsa"@,
                Some("financial"@),
                seq!["crowdfunding_platform"@, "peer_to_peer_lending"@],
                seq![],
                seq![],
                seq![],
                Some(3i32),
            ),
            license_type_view(
                "kz-aifc-afsa:crowdfunding-property"@,
                "Property Crowdfunding License"@,
                "License to operate a property crowdfunding platform in AIFC"@,
                "kz-aifc-afsa"@,
                Some("financial"@),
                seq!["crowdfunding_platform"@, "property_crowdfunding"@],
                seq![],
                seq![],
                seq![],
                Some(3i32),
            ),
            license_type_view(
                "kz-aifc-afsa:insurance-management"@,
                "Insurance Management License"@,
                "License to provide insurance management services within the AIFC"@,
                "kz-aifc-afsa"@,
                Some("insurance"@),
                seq!["insurance_management"@, "claims_management"@],
                seq![],
                seq![],
                seq![],
                Some(3i32),
            ),
            license_type_view(
                "kz-aifc-afsa:insurance-broker"@,
                "Insurance Broker License"@,
                "License to operate as an insurance broker within the AIFC"@,
                "kz-aifc-afsa"@,
                Some("insurance"@),
                seq!["insurance_brokerage"@, "risk_advisory"@],
                seq![],
                seq![],
                seq![],
                Some(3i32),
            ),
            license_type_view(
                "kz-aifc-afsa:private-financing-platform"@,
                "Private Financing Platform License"@,
                "License to operate a private financing platform within the AIFC"@,
                "kz-aifc-afsa"@,
                Some("financial"@),
                seq!["private_placement"@, "capital_raising"@],
                seq![],
                seq![],
                seq![],
                Some(3i32),
            )
        ],
{
    let r = vec![
        license_type(
            "kz-aifc-afsa:banking-business",
            "Banking Business License",
            "License to conduct banking business within the AIFC",
            "kz-aifc-afsa",
            Some("financial"),
            &["deposit_taking", "lending", "trade_finance"],
            &[],
            &[],
            &[],
            None,
        ),
        license_type(
            "kz-aifc-afsa:insurance",
            "Insurance License",
            "License to conduct insurance business within the AIFC",
            "kz-aifc-afsa",
            Some("insurance"),
            &["general_insurance", "life_insurance"],
            &[],
            &[],
            &[],
            Some(1i32),
        ),
        license_type(
            "kz-aifc-afsa:islamic-finance",
            "Islamic Finance License",
            "License to conduct Islamic finance activities within the AIFC",
            "kz-aifc-afsa",
            Some("financial"),
            &["islamic_financing", "murabaha", "ijara", "sukuk"],
            &[],
            &[],
            &[],
            None,
        ),
        license_type(
            "kz-aifc-afsa:dealing-in-investments",
            "Dealing in Investments License",
            "License to deal in investments as principal or agent within the AIFC",
            "kz-aifc-afsa",
            Some("financial"),
            &["securities_dealing", "proprietary_trading", "order_execution"],
            &[],
            &[],
            &[],
            Some(3i32),
        ),
        license_type(
            "kz-aifc-afsa:managing-investments",
            "Managing Investments License",
            "License to manage investments within the AIFC",
            "kz-aifc-afsa",
            Some("financial"),
            &["portfolio_management", "discretionary_management"],
            &[],
            &[],
            &[],
            Some(3i32),
        ),
        license_type(
            "kz-aifc-afsa:advising-on-investments",
            "Advising on Investments License",
            "License to provide investment advisory services within the AIFC",
            "kz-aifc-afsa",
            Some("financial"),
            &["investment_advisory", "financial_planning"],
            &[],
            &[],
            &[],
            Some(3i32),
        ),
        license_type(
            "kz-aifc-afsa:custody",
            "Custody License",
            "License to provide custody services within the AIFC",
            "kz-aifc-afsa",
            Some("financial"),
            &["custody_services", "safekeeping"],
            &[],
            &[],
            &[],
            Some(3i32),
        ),
        license_type(
            "kz-aifc-afsa:fund-administration",
            "Fund Administration License",
            "License to provide fund administration services within the AIFC",
            "kz-aifc-afsa",
            Some("financial"),
            &["fund_administration", "nav_calculation", "transfer_agency"],
            &[],
            &[],
            &[],
            Some(3i32),
        ),
        license_type(
            "kz-aifc-afsa:credit-rating",
            "Credit Rating Agency License",
            "License to operate as a credit rating agency within the AIFC",
            "kz-aifc-afsa",
            Some("financial"),
            &["credit_rating", "rating_advisory"],
            &[],
            &[],
            &[],
            Some(3i32),
        ),
        license_type(
            "kz-aifc-afsa:digital-asset-trading-facility",
            "Digital Asset Trading Facility License",
            "License to operate a digital asset trading facility within the AIFC",
            "kz-aifc-afsa",
            Some("financial"),
            &["digital_asset_exchange", "digital_asset_custody", "order_matching"],
            &[],
            &[],
            &[],
            Some(3i32),
        ),
        license_type(
            "kz-aifc-afsa:money-services",
            "Providing Money Services License",
            "License to provide money services within the AIFC",
            "kz-aifc-afsa",
            Some("financial"),
            &["money_transmission", "remittance", "currency_exchange"],
            &[],
            &[],
            &[],
            Some(3i32),
        ),
        license_type(
            "kz-aifc-afsa:e-money",
            "E-Money License",
            "License to issue electronic money within the AIFC",
            "kz-aifc-afsa",
            Some("financial"),
            &["issuing_e_money", "e_money_distribution"],
            &[],
            &[],
            &[],
            Some(3i32),
        ),
        license_type(
            "kz-aifc-afsa:crowdfunding-investment",
            "Investment Crowdfunding License",
            "License to operate an investment-based crowdfunding platform in AIFC",
            "kz-aifc-afsa",
            Some("financial"),
            &["crowdfunding_platform", "equity_crowdfunding"],
            &[],
            &[],
            &[],
            Some(3i32),
        ),
        license_type(
            "kz-aifc-afsa:crowdfunding-loan",
            "Loan Crowdfunding License",
            "License to operate a loan-based crowdfunding platform in AIFC",
            "kz-aifc-afsa",
            Some("financial"),
            &["crowdfunding_platform", "peer_to_peer_lending"],
            &[],
            &[],
            &[],
            Some(3i32),
        ),
        license_type(
            "kz-aifc-afsa:crowdfunding-property",
            "Property Crowdfunding License",
            "License to operate a property crowdfunding platform in AIFC",
            "kz-aifc-afsa",
            Some("financial"),
            &["crowdfunding_platform", "property_crowdfunding"],
            &[],
            &[],
            &[],
            Some(3i32),
        ),
        license_type(
            "kz-aifc-afsa:insurance-management",
            "Insurance Management License",
            "License to provide insurance management services within the AIFC",
            "kz-aifc-afsa",
            Some("insurance"),
            &["insurance_management", "claims_management"],
            &[],
            &[],
            &[],
            Some(3i32),
        ),
        license_type(
            "kz-aifc-afsa:insurance-broker",
            "Insurance Broker License",
            "License to operate as an insurance broker within the AIFC",
            "kz-aifc-afsa",
            Some("insurance"),
            &["insurance_brokerage", "risk_advisory"],
            &[],
            &[],
            &[],
            Some(3i32),
        ),
        license_type(
            "kz-aifc-afsa:private-financing-platform",
            "Private Financing Platform License",
            "License to operate a private financing platform within the AIFC",
            "kz-aifc-afsa",
            Some("financial"),
            &["private_placement", "capital_raising"],
            &[],
            &[],
            &[],
            Some(3i32),
        )
    ];
    proof {
        assert(license_types_view(r@) =~~= spec_afsa_license_types());
    }
    r
}

/// The view of `aifc_registrar_regulator`.
pub open spec fn spec_aifc_registrar_regulator() -> RegulatorView {
    regulator_view(
        "kz-aifc-rc"@,
        "AIFC Registrar of Companies"@,
        "kz-aifc"@,
        Some("https://services.aifc.kz"@),
        seq!["company_search"@, "registration_status"@],
    )
}

/// AIFC Registrar of Companies regulator profile.
pub fn aifc_registrar_regulator() -> (r: LicensepackRegulator)
    ensures
        r@ == spec_aifc_registrar_regulator(),
        r@ == regulator_view(
            "kz-aifc-rc"@,
            "AIFC Registrar of Companies"@,
            "kz-aifc"@,
            Some("https://services.aifc.kz"@),
            seq!["company_search"@, "registration_status"@],
        ),
{
    let r =
        regulator(
            "kz-aifc-rc",
            "AIFC Registrar of Companies",
            "kz-aifc",
            Some("https://services.aifc.kz"),
            &["company_search", "registration_status"],
        );
    proof {
        assert(r@ =~~= spec_aifc_registrar_regulator());
    }
    r
}

/// The view of `aifc_registrar_license_types`.
pub open spec fn spec_aifc_registrar_license_types() -> Seq<LicenseTypeView> {
    seq![
        license_type_view(
            "kz-aifc-rc:aifc-company"@,
            "AIFC Company Registration"@,
            "Registration of a company within the AIFC"@,
            "kz-aifc-rc"@,
            Some("corporate"@),
            seq!["business_operations"@, "financial_services"@],
            seq![],
            seq![],
            seq![],
            None,
        ),
        license_type_view(
            "kz-aifc-rc:aifc-partnership"@,
            "AIFC Partnership Registration"@,
            "Registration of a partnership within the AIFC"@,
            "kz-aifc-rc"@,
            Some("corporate"@),
            seq!["partnership_operations"@, "professional_services"@],
            seq![],
            seq![],
            seq![],
            None,
        ),
        license_type_view(
            "kz-aifc-rc:aifc-foundation"@,
            "AIFC Foundation Registration"@,
            "Registration of a foundation within the AIFC"@,
            "kz-aifc-rc"@,
            Some("corporate"@),
            seq!["asset_holding"@, "wealth_preservation"@],
            seq![],
            seq![],
            seq![],
            None,
        ),
        license_type_view(
            "kz-aifc-rc:aifc-spv"@,
            "AIFC SPV Registration"@,
            "Registration of a special purpose vehicle within the AIFC"@,
            "kz-aifc-rc"@,
            Some("corporate"@),
            seq!["securitization"@, "asset_holding"@],
            seq![],
            seq![],
            seq![],
            None,
        ),
        license_type_view(
            "kz-aifc-rc:foreign-company"@,
            "Foreign Company Registration"@,
            "Registration of a foreign company branch within the AIFC"@,
            "kz-aifc-rc"@,
            Some("corporate"@),
            seq!["branch_operations"@, "representative_office"@],
            seq![],
            seq![],
            seq![],
            None,
        )
    ]
}

/// AIFC Registrar license type definitions.
pub fn aifc_registrar_license_types() -> (r: Vec<LicenseTypeDefinition>)
    ensures
        license_types_view(r@) == spec_aifc_registrar_license_types(),
        license_types_view(r@) == seq![
            license_type_view(
                "kz-aifc-rc:aifc-company"@,
                "AIFC Company Registration"@,
                "Registration of a company within the AIFC"@,
                "kz-aifc-rc"@,
                Some("corporate"@),
                seq!["business_operations"@, "financial_services"@],
                seq![],
                seq![],
                seq![],
                None,
            ),
            license_type_view(
                "kz-aifc-rc:aifc-partnership"@,
                "AIFC Partnership Registration"@,
                "Registration of a partnership within the AIFC"@,
                "kz-aifc-rc"@,
                Some("corporate"@),
                seq!["partnership_operations"@, "professional_services"@],
                seq![],
                seq![],
                seq![],
                None,
            ),
            license_type_view(
                "kz-aifc-rc:aifc-foundation"@,
                "AIFC Foundation Registration"@,
                "Registration of a foundation within the AIFC"@,
                "kz-aifc-rc"@,
                Some("corporate"@),
                seq!["asset_holding"@, "wealth_preservation"@],
                seq![],
                seq![],
                seq![],
                None,
            ),
            license_type_view(
                "kz-aifc-rc:aifc-spv"@,
                "AIFC SPV Registration"@,
                "Registration of a special purpose vehicle within the AIFC"@,
                "kz-aifc-rc"@,
                Some("corporate"@),
                seq!["securitization"@, "asset_holding"@],
                seq![],
                seq![],
                seq![],
                None,
            ),
            license_type_view(
                "kz-aifc-rc:foreign-company"@,
                "Foreign Company Registration"@,
                "Registration of a foreign company branch within the AIFC"@,
                "kz-aifc-rc"@,
                Some("corporate"@),
                seq!["branch_operations"@, "representative_office"@],
                seq![],
                seq![],
                seq![],
                None,
            )
        ],
{
    let r = vec![
        license_type(
            "kz-aifc-rc:aifc-company",
            "AIFC Company Registration",
            "Registration of a company within the AIFC",
            "kz-aifc-rc",
            Some("corporate"),
            &["business_operations", "financial_services"],
            &[],
            &[],
            &[],
            None,
        ),
        license_type(
            "kz-aifc-rc:aifc-partnership",
            "AIFC Partnership Registration",
            "Registration of a partnership within the AIFC",
            "kz-aifc-rc",
            Some("corporate"),
            &["partnership_operations", "professional_services"],
            &[],
            &[],
            &[],
            None,
        ),
        license_type(
            "kz-aifc-rc:aifc-foundation",
            "AIFC Foundation Registration",
            "Registration of a foundation within the AIFC",
            "kz-aifc-rc",
            Some("corporate"),
            &["asset_holding", "wealth_preservation"],
            &[],
            &[],
            &[],
            None,
        ),
        license_type(
            "kz-aifc-rc:aifc-spv",
            "AIFC SPV Registration",
            "Registration of a special purpose vehicle within the AIFC",
            "kz-aifc-rc",
            Some("corporate"),
            &["securitization", "asset_holding"],
            &[],
            &[],
            &[],
            None,
        ),
        license_type(
            "kz-aifc-rc:foreign-company",
            "Foreign Company Registration",
            "Registration of a foreign company branch within the AIFC",
            "kz-aifc-rc",
            Some("corporate"),
            &["branch_operations", "representative_office"],
            &[],
            &[],
            &[],
            None,
        )
    ];
    proof {
        assert(license_types_view(r@) =~~= spec_aifc_registrar_license_types());
    }
    r
}

/// The view of `alatau_admin_regulator`.
pub open spec fn spec_alatau_admin_regulator() -> RegulatorView {
    regulator_view(
        "kz-alatau-admin"@,
        "Alatau City Administration"@,
        "kz-alatau"@,
        Some("https://alataucity.kz"@),
        seq!["participant_registry"@],
    )
}

/// Alatau City Administration regulator profile.
pub fn alatau_admin_regulator() -> (r: LicensepackRegulator)
    ensures
        r@ == spec_alatau_admin_regulator(),
        r@ == regulator_view(
            "kz-alatau-admin"@,
            "Alatau City Administration"@,
            "kz-alatau"@,
            Some("https://alataucity.kz"@),
            seq!["participant_registry"@],
        ),
{
    let r =
        regulator(
            "kz-alatau-admin",
            "Alatau City Administration",
            "kz-alatau",
            Some("https://alataucity.kz"),
            &["participant_registry"],
        );
    proof {
        assert(r@ =~~= spec_alatau_admin_regulator());
    }
    r
}

/// The view of `alatau_admin_license_types`.
pub open spec fn spec_alatau_admin_license_types() -> Seq<LicenseTypeView> {
    seq![
        license_type_view(
            "kz-alatau-admin:tech-park-participant"@,
            "Technology Park Participant"@,
            "Registration as a technology park participant in Alatau City"@,
            "kz-alatau-admin"@,
            Some("technology"@),
            seq!["technology_development"@, "software_development"@, "research"@],
            seq![],
            seq![],
            seq![],
            Some(5i32),
        ),
        license_type_view(
            "kz-alatau-admin:innovation-license"@,
            "Innovation License"@,
            "License for innovative activities within Alatau City"@,
            "kz-alatau-admin"@,
            Some("technology"@),
            seq!["innovation_projects"@, "prototyping"@, "commercialization"@],
            seq![],
            seq![],
            seq![],
            Some(3i32),
        ),
        license_type_view(
            "kz-alatau-admin:it-services"@,
            "IT Services License"@,
            "License to provide IT services within Alatau City"@,
            "kz-alatau-admin"@,
            Some("technology"@),
            seq!["it_outsourcing"@, "data_processing"@, "cloud_services"@],
            seq![],
            seq![],
            seq![],
            Some(3i32),
        )
    ]
}

/// Alatau City license type definitions.
pub fn alatau_admin_license_types() -> (r: Vec<LicenseTypeDefinition>)
    ensures
        license_types_view(r@) == spec_alatau_admin_license_types(),
        license_types_view(r@) == seq![
            license_type_view(
                "kz-alatau-admin:tech-park-participant"@,
                "Technology Park Participant"@,
                "Registration as a technology park participant in Alatau City"@,
                "kz-alatau-admin"@,
                Some("technology"@),
                seq!["technology_development"@, "software_development"@, "research"@],
                seq![],
                seq![],
                seq![],
                Some(5i32),
            ),
            license_type_view(
                "kz-alatau-admin:innovation-license"@,
                "Innovation License"@,
                "License for innovative activities within Alatau City"@,
                "kz-alatau-admin"@,
                Some("technology"@),
                seq!["innovation_projects"@, "prototyping"@, "commercialization"@],
                seq![],
                seq![],
                seq![],
                Some(3i32),
            ),
            license_type_view(
                "kz-alatau-admin:it-services"@,
                "IT Services License"@,
                "License to provide IT services within Alatau City"@,
                "kz-alatau-admin"@,
                Some("technology"@),
                seq!["it_outsourcing"@, "data_processing"@, "cloud_services"@],
                seq![],
                seq![],
                seq![],
                Some(3i32),
            )
        ],
{
    let r = vec![
        license_type(
            "kz-alatau-admin:tech-park-participant",
            "Technology Park Participant",
            "Registration as a technology park participant in Alatau City",
            "kz-alatau-admin",
            Some("technology"),
            &["technology_development", "software_development", "research"],
            &[],
            &[],
            &[],
            Some(5i32),
        ),
        license_type(
            "kz-alatau-admin:innovation-license",
            "Innovation License",
            "License for innovative activities within Alatau City",
            "kz-alatau-admin",
            Some("technology"),
            &["innovation_projects", "prototyping", "commercialization"],
            &[],
            &[],
            &[],
            Some(3i32),
        ),
        license_type(
            "kz-alatau-admin:it-services",
            "IT Services License",
            "License to provide IT services within Alatau City",
            "kz-alatau-admin",
            Some("technology"),
            &["it_outsourcing", "data_processing", "cloud_services"],
            &[],
            &[],
            &[],
            Some(3i32),
        )
    ];
    proof {
        assert(license_types_view(r@) =~~= spec_alatau_admin_license_types());
    }
    r
}

/// The view of `kazakhstan_regulators`.
pub open spec fn spec_kazakhstan_regulators() -> Seq<RegulatorView> {
    seq![spec_ardfm_regulator(), spec_nbrk_regulator(), spec_afsa_regulator(), spec_aifc_registrar_regulator(), spec_alatau_admin_regulator()]
}

/// All Kazakhstan, AIFC, and Alatau City regulatory authorities.
pub fn kazakhstan_regulators() -> (r: Vec<LicensepackRegulator>)
    ensures
        regulators_view(r@) == spec_kazakhstan_regulators(),
        regulators_view(r@) == seq![spec_ardfm_regulator(), spec_nbrk_regulator(), spec_afsa_regulator(), spec_aifc_registrar_regulator(), spec_alatau_admin_regulator()],
{
    let r = vec![ardfm_regulator(), nbrk_regulator(), afsa_regulator(), aifc_registrar_regulator(), alatau_admin_regulator()];
    proof {
        assert(regulators_view(r@) =~~= spec_kazakhstan_regulators());
    }
    r
}

/// The view of `kazakhstan_license_types`.
pub open spec fn spec_kazakhstan_license_types() -> Seq<LicenseTypeView> {
    spec_ardfm_license_types()
        + spec_nbrk_license_types()
        + spec_afsa_license_types()
        + spec_aifc_registrar_license_types()
        + spec_alatau_admin_license_types()
}

/// All Kazakhstan, AIFC, and Alatau City license type definitions across all authorities.
pub fn kazakhstan_license_types() -> (r: Vec<LicenseTypeDefinition>)
    ensures
        license_types_view(r@) == spec_kazakhstan_license_types(),
        license_types_view(r@) == spec_ardfm_license_types()
            + spec_nbrk_license_types()
            + spec_afsa_license_types()
            + spec_aifc_registrar_license_types()
            + spec_alatau_admin_license_types(),
{
    let mut all: Vec<LicenseTypeDefinition> = Vec::new();
    proof {
        assert(license_types_view(all@) =~= Seq::<LicenseTypeView>::empty());
    }
    let ghost before = all@;
    let mut part = ardfm_license_types();
    let ghost added = part@;
    all.append(&mut part);
    proof {
        lemma_license_types_view_append(before, added);
        assert(license_types_view(all@) =~= spec_ardfm_license_types());
    }
    let ghost before = all@;
    let mut part = nbrk_license_types();
    let ghost added = part@;
    all.append(&mut part);
    proof {
        lemma_license_types_view_append(before, added);
        assert(license_types_view(all@) =~= spec_ardfm_license_types() + spec_nbrk_license_types());
    }
    let ghost before = all@;
    let mut part = afsa_license_types();
    let ghost added = part@;
    all.append(&mut part);
    proof {
        lemma_license_types_view_append(before, added);
        assert(license_types_view(all@) =~= spec_ardfm_license_types() + spec_nbrk_license_types() + spec_afsa_license_types());
    }
    let ghost before = all@;
    let mut part = aifc_registrar_license_types();
    let ghost added = part@;
    all.append(&mut part);
    proof {
        lemma_license_types_view_append(before, added);
        assert(license_types_view(all@) =~= spec_ardfm_license_types() + spec_nbrk_license_types() + spec_afsa_license_types() + spec_aifc_registrar_license_types());
    }
    let ghost before = all@;
    let mut part = alatau_admin_license_types();
    let ghost added = part@;
    all.append(&mut part);
    proof {
        lemma_license_types_view_append(before, added);
        assert(license_types_view(all@) =~= spec_ardfm_license_types() + spec_nbrk_license_types() + spec_afsa_license_types() + spec_aifc_registrar_license_types() + spec_alatau_admin_license_types());
    }
    all
}

/// The licence types of `ardfm_license_types` are complete, granted by its regulators, and
/// each of its regulators grants at least one of them.
proof fn lemma_ardfm_group()
    ensures
        license_types_complete(spec_ardfm_license_types()),
        granted_by_listed_regulators(spec_ardfm_license_types(), seq![spec_ardfm_regulator()]),
        every_regulator_grants(spec_ardfm_license_types(), seq![spec_ardfm_regulator()]),
        regulators_in_country(seq![spec_ardfm_regulator()], "kz"@),
{
    assert(complete_each(spec_ardfm_license_types())) by {
        reveal_strlit("kz-ardfm:banking");
        reveal_strlit("Banking License");
        reveal_strlit("License to conduct banking operations in the Republic of Kazakhstan");
        reveal_strlit("kz-ardfm");
        reveal_strlit("kz-ardfm:insurance");
        reveal_strlit("Insurance License");
        reveal_strlit("License to conduct insurance business in Kazakhstan");
        reveal_strlit("kz-ardfm:securities");
        reveal_strlit("Securities Market License");
        reveal_strlit("License to operate on the securities market of Kazakhstan");
        reveal_strlit("kz-ardfm:microfinance");
        reveal_strlit("Microfinance Organization License");
        reveal_strlit("License to operate as a microfinance organization in Kazakhstan");
        reveal_strlit("kz-ardfm:payment");
        reveal_strlit("Payment Organization License");
        reveal_strlit("License to provide payment services in Kazakhstan");
        reveal_with_fuel(complete_each, 6);
    }
    lemma_complete_each(spec_ardfm_license_types());
    assert(granted_by_each(spec_ardfm_license_types(), seq![spec_ardfm_regulator()][0].regulator_id)) by {
        reveal_with_fuel(granted_by_each, 6);
    }
    lemma_granted_by_each(spec_ardfm_license_types(), seq![spec_ardfm_regulator()], 0);
    assert(grants_some(spec_ardfm_license_types(), seq![spec_ardfm_regulator()][0].regulator_id)) by {
        assert(spec_ardfm_license_types()[0].regulator_id == seq![spec_ardfm_regulator()][0].regulator_id);
    }
    assert(grants_each(spec_ardfm_license_types(), seq![spec_ardfm_regulator()])) by {
        reveal_with_fuel(grants_each, 2);
    }
    lemma_grants_each(spec_ardfm_license_types(), seq![spec_ardfm_regulator()]);
    assert(has_prefix("kz"@, "kz"@)) by {
        reveal_strlit("kz");
        reveal_strlit("kz");
        assert("kz"@.subrange(0, 2) =~= "kz"@);
    }
    assert(in_country_each(seq![spec_ardfm_regulator()], "kz"@)) by {
        reveal_with_fuel(in_country_each, 2);
    }
    lemma_in_country_each(seq![spec_ardfm_regulator()], "kz"@);
}

/// The licence types of `nbrk_license_types` are complete, granted by its regulators, and
/// each of its regulators grants at least one of them.
proof fn lemma_nbrk_group()
    ensures
        license_types_complete(spec_nbrk_license_types()),
        granted_by_listed_regulators(spec_nbrk_license_types(), seq![spec_nbrk_regulator()]),
        every_regulator_grants(spec_nbrk_license_types(), seq![spec_nbrk_regulator()]),
        regulators_in_country(seq![spec_nbrk_regulator()], "kz"@),
{
    assert(complete_each(spec_nbrk_license_types())) by {
        reveal_strlit("kz-nb:monetary-policy");
        reveal_strlit("Monetary Policy Participant");
        reveal_strlit("Authorization to participate in National Bank monetary operations");
        reveal_strlit("kz-nb");
        reveal_strlit("kz-nb:payment-system-oversight");
        reveal_strlit("Payment System Operator Authorization");
        reveal_strlit("Authorization to operate a payment system under NB RK oversight");
        reveal_with_fuel(complete_each, 3);
    }
    lemma_complete_each(spec_nbrk_license_types());
    assert(granted_by_each(spec_nbrk_license_types(), seq![spec_nbrk_regulator()][0].regulator_id)) by {
        reveal_with_fuel(granted_by_each, 3);
    }
    lemma_granted_by_each(spec_nbrk_license_types(), seq![spec_nbrk_regulator()], 0);
    assert(grants_some(spec_nbrk_license_types(), seq![spec_nbrk_regulator()][0].regulator_id)) by {
        assert(spec_nbrk_license_types()[0].regulator_id == seq![spec_nbrk_regulator()][0].regulator_id);
    }
    assert(grants_each(spec_nbrk_license_types(), seq![spec_nbrk_regulator()])) by {
        reveal_with_fuel(grants_each, 2);
    }
    lemma_grants_each(spec_nbrk_license_types(), seq![spec_nbrk_regulator()]);
    assert(has_prefix("kz"@, "kz"@)) by {
        reveal_strlit("kz");
        reveal_strlit("kz");
        assert("kz"@.subrange(0, 2) =~= "kz"@);
    }
    assert(in_country_each(seq![spec_nbrk_regulator()], "kz"@)) by {
        reveal_with_fuel(in_country_each, 2);
    }
    lemma_in_country_each(seq![spec_nbrk_regulator()], "kz"@);
}

/// The licence types of `afsa_license_types` are complete, granted by its regulators, and
/// each of its regulators grants at least one of them.
proof fn lemma_afsa_group()
    ensures
        license_types_complete(spec_afsa_license_types()),
        granted_by_listed_regulators(spec_afsa_license_types(), seq![spec_afsa_regulator()]),
        every_regulator_grants(spec_afsa_license_types(), seq![spec_afsa_regulator()]),
        regulators_in_country(seq![spec_afsa_regulator()], "kz"@),
{
    assert(complete_each(spec_afsa_license_types())) by {
        reveal_strlit("kz-aifc-afsa:banking-business");
        reveal_strlit("Banking Business License");
        reveal_strlit("License to conduct banking business within the AIFC");
        reveal_strlit("kz-aifc-afsa");
        reveal_strlit("kz-aifc-afsa:insurance");
        reveal_strlit("Insurance License");
        reveal_strlit("License to conduct insurance business within the AIFC");
        reveal_strlit("kz-aifc-afsa:islamic-finance");
        reveal_strlit("Islamic Finance License");
        reveal_strlit("License to conduct Islamic finance activities within the AIFC");
        reveal_strlit("kz-aifc-afsa:dealing-in-investments");
        reveal_strlit("Dealing in Investments License");
        reveal_strlit("License to deal in investments as principal or agent within the AIFC");
        reveal_strlit("kz-aifc-afsa:managing-investments");
        reveal_strlit("Managing Investments License");
        reveal_strlit("License to manage investments within the AIFC");
        reveal_strlit("kz-aifc-afsa:advising-on-investments");
        reveal_strlit("Advising on Investments License");
        reveal_strlit("License to provide investment advisory services within the AIFC");
        reveal_strlit("kz-aifc-afsa:custody");
        reveal_strlit("Custody License");
        reveal_strlit("License to provide custody services within the AIFC");
        reveal_strlit("kz-aifc-afsa:fund-administration");
        reveal_strlit("Fund Administration License");
        reveal_strlit("License to provide fund administration services within the AIFC");
        reveal_strlit("kz-aifc-afsa:credit-rating");
        reveal_strlit("Credit Rating Agency License");
        reveal_strlit("License to operate as a credit rating agency within the AIFC");
        reveal_strlit("kz-aifc-afsa:digital-asset-trading-facility");
        reveal_strlit("Digital Asset Trading Facility License");
        reveal_strlit("License to operate a digital asset trading facility within the AIFC");
        reveal_strlit("kz-aifc-afsa:money-services");
        reveal_strlit("Providing Money Services License");
        reveal_strlit("License to provide money services within the AIFC");
        reveal_strlit("kz-aifc-afsa:e-money");
        reveal_strlit("E-Money License");
        reveal_strlit("License to issue electronic money within the AIFC");
        reveal_strlit("kz-aifc-afsa:crowdfunding-investment");
        reveal_strlit("Investment Crowdfunding License");
        reveal_strlit("License to operate an investment-based crowdfunding platform in AIFC");
        reveal_strlit("kz-aifc-afsa:crowdfunding-loan");
        reveal_strlit("Loan Crowdfunding License");
        reveal_strlit("License to operate a loan-based crowdfunding platform in AIFC");
        reveal_strlit("kz-aifc-afsa:crowdfunding-property");
        reveal_strlit("Property Crowdfunding License");
        reveal_strlit("License to operate a property crowdfunding platform in AIFC");
        reveal_strlit("kz-aifc-afsa:insurance-management");
        reveal_strlit("Insurance Management License");
        reveal_strlit("License to provide insurance management services within the AIFC");
        reveal_strlit("kz-aifc-afsa:insurance-broker");
        reveal_strlit("Insurance Broker License");
        reveal_strlit("License to operate as an insurance broker within the AIFC");
        reveal_strlit("kz-aifc-afsa:private-financing-platform");
        reveal_strlit("Private Financing Platform License");
        reveal_strlit("License to operate a private financing platform within the AIFC");
        reveal_with_fuel(complete_each, 19);
    }
    lemma_complete_each(spec_afsa_license_types());
    assert(granted_by_each(spec_afsa_license_types(), seq![spec_afsa_regulator()][0].regulator_id)) by {
        reveal_with_fuel(granted_by_each, 19);
    }
    lemma_granted_by_each(spec_afsa_license_types(), seq![spec_afsa_regulator()], 0);
    assert(grants_some(spec_afsa_license_types(), seq![spec_afsa_regulator()][0].regulator_id)) by {
        assert(spec_afsa_license_types()[0].regulator_id == seq![spec_afsa_regulator()][0].regulator_id);
    }
    assert(grants_each(spec_afsa_license_types(), seq![spec_afsa_regulator()])) by {
        reveal_with_fuel(grants_each, 2);
    }
    lemma_grants_each(spec_afsa_license_types(), seq![spec_afsa_regulator()]);
    assert(has_prefix("kz-aifc"@, "kz"@)) by {
        reveal_strlit("kz-aifc");
        reveal_strlit("kz");
        assert("kz-aifc"@.subrange(0, 2) =~= "kz"@);
    }
    assert(in_country_each(seq![spec_afsa_regulator()], "kz"@)) by {
        reveal_with_fuel(in_country_each, 2);
    }
    lemma_in_country_each(seq![spec_afsa_regulator()], "kz"@);
}

/// The licence types of `aifc_registrar_license_types` are complete, granted by its regulators, and
/// each of its regulators grants at least one of them.
proof fn lemma_aifc_registrar_group()
    ensures
        license_types_complete(spec_aifc_registrar_license_types()),
        granted_by_listed_regulators(spec_aifc_registrar_license_types(), seq![spec_aifc_registrar_regulator()]),
        every_regulator_grants(spec_aifc_registrar_license_types(), seq![spec_aifc_registrar_regulator()]),
        regulators_in_country(seq![spec_aifc_registrar_regulator()], "kz"@),
{
    assert(complete_each(spec_aifc_registrar_license_types())) by {
        reveal_strlit("kz-aifc-rc:aifc-company");
        reveal_strlit("AIFC Company Registration");
        reveal_strlit("Registration of a company within the AIFC");
        reveal_strlit("kz-aifc-rc");
        reveal_strlit("kz-aifc-rc:aifc-partnership");
        reveal_strlit("AIFC Partnership Registration");
        reveal_strlit("Registration of a partnership within the AIFC");
        reveal_strlit("kz-aifc-rc:aifc-foundation");
        reveal_strlit("AIFC Foundation Registration");
        reveal_strlit("Registration of a foundation within the AIFC");
        reveal_strlit("kz-aifc-rc:aifc-spv");
        reveal_strlit("AIFC SPV Registration");
        reveal_strlit("Registration of a special purpose vehicle within the AIFC");
        reveal_strlit("kz-aifc-rc:foreign-company");
        reveal_strlit("Foreign Company Registration");
        reveal_strlit("Registration of a foreign company branch within the AIFC");
        reveal_with_fuel(complete_each, 6);
    }
    lemma_complete_each(spec_aifc_registrar_license_types());
    assert(granted_by_each(spec_aifc_registrar_license_types(), seq![spec_aifc_registrar_regulator()][0].regulator_id)) by {
        reveal_with_fuel(granted_by_each, 6);
    }
    lemma_granted_by_each(spec_aifc_registrar_license_types(), seq![spec_aifc_registrar_regulator()], 0);
    assert(grants_some(spec_aifc_registrar_license_types(), seq![spec_aifc_registrar_regulator()][0].regulator_id)) by {
        assert(spec_aifc_registrar_license_types()[0].regulator_id == seq![spec_aifc_registrar_regulator()][0].regulator_id);
    }
    assert(grants_each(spec_aifc_registrar_license_types(), seq![spec_aifc_registrar_regulator()])) by {
        reveal_with_fuel(grants_each, 2);
    }
    lemma_grants_each(spec_aifc_registrar_license_types(), seq![spec_aifc_registrar_regulator()]);
    assert(has_prefix("kz-aifc"@, "kz"@)) by {
        reveal_strlit("kz-aifc");
        reveal_strlit("kz");
        assert("kz-aifc"@.subrange(0, 2) =~= "kz"@);
    }
    assert(in_country_each(seq![spec_aifc_registrar_regulator()], "kz"@)) by {
        reveal_with_fuel(in_country_each, 2);
    }
    lemma_in_country_each(seq![spec_aifc_registrar_regulator()], "kz"@);
}

/// The licence types of `alatau_admin_license_types` are complete, granted by its regulators, and
/// each of its regulators grants at least one of them.
proof fn lemma_alatau_admin_group()
    ensures
        license_types_complete(spec_alatau_admin_license_types()),
        granted_by_listed_regulators(spec_alatau_admin_license_types(), seq![spec_alatau_admin_regulator()]),
        every_regulator_grants(spec_alatau_admin_license_types(), seq![spec_alatau_admin_regulator()]),
        regulators_in_country(seq![spec_alatau_admin_regulator()], "kz"@),
{
    assert(complete_each(spec_alatau_admin_license_types())) by {
        reveal_strlit("kz-alatau-admin:tech-park-participant");
        reveal_strlit("Technology Park Participant");
        reveal_strlit("Registration as a technology park participant in Alatau City");
        reveal_strlit("kz-alatau-admin");
        reveal_strlit("kz-alatau-admin:innovation-license");
        reveal_strlit("Innovation License");
        reveal_strlit("License for innovative activities within Alatau City");
        reveal_strlit("kz-alatau-admin:it-services");
        reveal_strlit("IT Services License");
        reveal_strlit("License to provide IT services within Alatau City");
        reveal_with_fuel(complete_each, 4);
    }
    lemma_complete_each(spec_alatau_admin_license_types());
    assert(granted_by_each(spec_alatau_admin_license_types(), seq![spec_alatau_admin_regulator()][0].regulator_id)) by {
        reveal_with_fuel(granted_by_each, 4);
    }
    lemma_granted_by_each(spec_alatau_admin_license_types(), seq![spec_alatau_admin_regulator()], 0);
    assert(grants_some(spec_alatau_admin_license_types(), seq![spec_alatau_admin_regulator()][0].regulator_id)) by {
        assert(spec_alatau_admin_license_types()[0].regulator_id == seq![spec_alatau_admin_regulator()][0].regulator_id);
    }
    assert(grants_each(spec_alatau_admin_license_types(), seq![spec_alatau_admin_regulator()])) by {
        reveal_with_fuel(grants_each, 2);
    }
    lemma_grants_each(spec_alatau_admin_license_types(), seq![spec_alatau_admin_regulator()]);
    assert(has_prefix("kz-alatau"@, "kz"@)) by {
        reveal_strlit("kz-alatau");
        reveal_strlit("kz");
        assert("kz-alatau"@.subrange(0, 2) =~= "kz"@);
    }
    assert(in_country_each(seq![spec_alatau_admin_regulator()], "kz"@)) by {
        reveal_with_fuel(in_country_each, 2);
    }
    lemma_in_country_each(seq![spec_alatau_admin_regulator()], "kz"@);
}

/// The catalog of Kazakhstan is consistent: every licence type has a non-empty identifier, name, description and
/// regulator identifier, a category, and at least one permitted activity;
/// every licence type is granted by one of its regulators;
/// every regulator grants at least one licence type;
/// every regulator belongs to a jurisdiction whose identifier starts with `kz`.
pub proof fn lemma_kazakhstan_catalog_consistent()
    ensures
        license_types_complete(spec_kazakhstan_license_types()),
        granted_by_listed_regulators(spec_kazakhstan_license_types(), spec_kazakhstan_regulators()),
        every_regulator_grants(spec_kazakhstan_license_types(), spec_kazakhstan_regulators()),
        regulators_in_country(spec_kazakhstan_regulators(), "kz"@),
{
    lemma_ardfm_group();
    lemma_nbrk_group();
    lemma_afsa_group();
    lemma_aifc_registrar_group();
    lemma_alatau_admin_group();
    assert(spec_kazakhstan_regulators() =~= seq![spec_ardfm_regulator()] + seq![spec_nbrk_regulator()] + seq![spec_afsa_regulator()] + seq![spec_aifc_registrar_regulator()] + seq![spec_alatau_admin_regulator()]);
    assert(spec_kazakhstan_license_types() =~= spec_ardfm_license_types() + spec_nbrk_license_types() + spec_afsa_license_types() + spec_aifc_registrar_license_types() + spec_alatau_admin_license_types());
    lemma_complete_append(spec_ardfm_license_types(), spec_nbrk_license_types());
    lemma_granted_combine(spec_ardfm_license_types(), seq![spec_ardfm_regulator()], spec_nbrk_license_types(), seq![spec_nbrk_regulator()]);
    lemma_every_combine(spec_ardfm_license_types(), seq![spec_ardfm_regulator()], spec_nbrk_license_types(), seq![spec_nbrk_regulator()]);
    lemma_in_country_append(seq![spec_ardfm_regulator()], seq![spec_nbrk_regulator()], "kz"@);
    lemma_complete_append(spec_ardfm_license_types() + spec_nbrk_license_types(), spec_afsa_license_types());
    lemma_granted_combine(spec_ardfm_license_types() + spec_nbrk_license_types(), seq![spec_ardfm_regulator()] + seq![spec_nbrk_regulator()], spec_afsa_license_types(), seq![spec_afsa_regulator()]);
    lemma_every_combine(spec_ardfm_license_types() + spec_nbrk_license_types(), seq![spec_ardfm_regulator()] + seq![spec_nbrk_regulator()], spec_afsa_license_types(), seq![spec_afsa_regulator()]);
    lemma_in_country_append(seq![spec_ardfm_regulator()] + seq![spec_nbrk_regulator()], seq![spec_afsa_regulator()], "kz"@);
    lemma_complete_append(spec_ardfm_license_types() + spec_nbrk_license_types() + spec_afsa_license_types(), spec_aifc_registrar_license_types());
    lemma_granted_combine(spec_ardfm_license_types() + spec_nbrk_license_types() + spec_afsa_license_types(), seq![spec_ardfm_regulator()] + seq![spec_nbrk_regulator()] + seq![spec_afsa_regulator()], spec_aifc_registrar_license_types(), seq![spec_aifc_registrar_regulator()]);
    lemma_every_combine(spec_ardfm_license_types() + spec_nbrk_license_types() + spec_afsa_license_types(), seq![spec_ardfm_regulator()] + seq![spec_nbrk_regulator()] + seq![spec_afsa_regulator()], spec_aifc_registrar_license_types(), seq![spec_aifc_registrar_regulator()]);
    lemma_in_country_append(seq![spec_ardfm_regulator()] + seq![spec_nbrk_regulator()] + seq![spec_afsa_regulator()], seq![spec_aifc_registrar_regulator()], "kz"@);
    lemma_complete_append(spec_ardfm_license_types() + spec_nbrk_license_types() + spec_afsa_license_types() + spec_aifc_registrar_license_types(), spec_alatau_admin_license_types());
    lemma_granted_combine(spec_ardfm_license_types() + spec_nbrk_license_types() + spec_afsa_license_types() + spec_aifc_registrar_license_types(), seq![spec_ardfm_regulator()] + seq![spec_nbrk_regulator()] + seq![spec_afsa_regulator()] + seq![spec_aifc_registrar_regulator()], spec_alatau_admin_license_types(), seq![spec_alatau_admin_regulator()]);
    lemma_every_combine(spec_ardfm_license_types() + spec_nbrk_license_types() + spec_afsa_license_types() + spec_aifc_registrar_license_types(), seq![spec_ardfm_regulator()] + seq![spec_nbrk_regulator()] + seq![spec_afsa_regulator()] + seq![spec_aifc_registrar_regulator()], spec_alatau_admin_license_types(), seq![spec_alatau_admin_regulator()]);
    lemma_in_country_append(seq![spec_ardfm_regulator()] + seq![spec_nbrk_regulator()] + seq![spec_afsa_regulator()] + seq![spec_aifc_registrar_regulator()], seq![spec_alatau_admin_regulator()], "kz"@);
}

/// No two licence types of `ardfm_license_types` share an identifier.
proof fn lemma_ardfm_license_types_ids_distinct()
    ensures
        license_type_ids_distinct(spec_ardfm_license_types()),
{
    let t = spec_ardfm_license_types();
    assert(ids_distinct_each(t)) by {
        reveal_strlit("kz-ardfm:banking");
        reveal_strlit("kz-ardfm:insurance");
        reveal_strlit("kz-ardfm:microfinance");
        reveal_strlit("kz-ardfm:payment");
        reveal_strlit("kz-ardfm:securities");
        assert(t[0].license_type_id[9] != t[1].license_type_id[9]);
        assert(t[0].license_type_id[9] != t[2].license_type_id[9]);
        assert(t[1].license_type_id[9] != t[2].license_type_id[9]);
        assert(t[0].license_type_id[9] != t[3].license_type_id[9]);
        assert(t[1].license_type_id[9] != t[3].license_type_id[9]);
        assert(t[2].license_type_id[9] != t[3].license_type_id[9]);
        assert(t[0].license_type_id[9] != t[4].license_type_id[9]);
        assert(t[1].license_type_id[9] != t[4].license_type_id[9]);
        assert(t[2].license_type_id[9] != t[4].license_type_id[9]);
        assert(t[3].license_type_id[9] != t[4].license_type_id[9]);
        reveal_with_fuel(ids_distinct_each, 6);
        reveal_with_fuel(id_fresh_each, 6);
    }
    lemma_ids_distinct_each(t);
}

/// No two licence types of `nbrk_license_types` share an identifier.
proof fn lemma_nbrk_license_types_ids_distinct()
    ensures
        license_type_ids_distinct(spec_nbrk_license_types()),
{
    let t = spec_nbrk_license_types();
    assert(ids_distinct_each(t)) by {
        reveal_strlit("kz-nb:monetary-policy");
        reveal_strlit("kz-nb:payment-system-oversight");
        assert(t[0].license_type_id[6] != t[1].license_type_id[6]);
        reveal_with_fuel(ids_distinct_each, 3);
        reveal_with_fuel(id_fresh_each, 3);
    }
    lemma_ids_distinct_each(t);
}

/// No two licence types of `afsa_license_types` share an identifier.
proof fn lemma_afsa_license_types_ids_distinct()
    ensures
        license_type_ids_distinct(spec_afsa_license_types()),
{
    let t = spec_afsa_license_types();
    assert(ids_distinct_each(t)) by {
        reveal_strlit("kz-aifc-afsa:advising-on-investments");
        reveal_strlit("kz-aifc-afsa:banking-business");
        reveal_strlit("kz-aifc-afsa:credit-rating");
        reveal_strlit("kz-aifc-afsa:crowdfunding-investment");
        reveal_strlit("kz-aifc-afsa:crowdfunding-loan");
        reveal_strlit("kz-aifc-afsa:crowdfunding-property");
        reveal_strlit("kz-aifc-afsa:custody");
        reveal_strlit("kz-aifc-afsa:dealing-in-investments");
        reveal_strlit("kz-aifc-afsa:digital-asset-trading-facility");
        reveal_strlit("kz-aifc-afsa:e-money");
        reveal_strlit("kz-aifc-afsa:fund-administration");
        reveal_strlit("kz-aifc-afsa:insurance");
        reveal_strlit("kz-aifc-afsa:insurance-broker");
        reveal_strlit("kz-aifc-afsa:insurance-management");
        reveal_strlit("kz-aifc-afsa:islamic-finance");
        reveal_strlit("kz-aifc-afsa:managing-investments");
        reveal_strlit("kz-aifc-afsa:money-services");
        reveal_strlit("kz-aifc-afsa:private-financing-platform");
        assert(t[0].license_type_id[13] != t[1].license_type_id[13]);
        assert(t[0].license_type_id[13] != t[2].license_type_id[13]);
        assert(t[1].license_type_id[14] != t[2].license_type_id[14]);
        assert(t[0].license_type_id[13] != t[3].license_type_id[13]);
        assert(t[1].license_type_id[13] != t[3].license_type_id[13]);
        assert(t[2].license_type_id[13] != t[3].license_type_id[13]);
        assert(t[0].license_type_id[13] != t[4].license_type_id[13]);
        assert(t[1].license_type_id[13] != t[4].license_type_id[13]);
        assert(t[2].license_type_id[13] != t[4].license_type_id[13]);
        assert(t[3].license_type_id[13] != t[4].license_type_id[13]);
        assert(t[0].license_type_id[13] != t[5].license_type_id[13]);
        assert(t[1].license_type_id[13] != t[5].license_type_id[13]);
        assert(t[2].license_type_id[13] != t[5].license_type_id[13]);
        assert(t[3].license_type_id[13] != t[5].license_type_id[13]);
        assert(t[4].license_type_id[13] != t[5].license_type_id[13]);
        assert(t[0].license_type_id[13] != t[6].license_type_id[13]);
        assert(t[1].license_type_id[13] != t[6].license_type_id[13]);
        assert(t[2].license_type_id[13] != t[6].license_type_id[13]);
        assert(t[3].license_type_id[13] != t[6].license_type_id[13]);
        assert(t[4].license_type_id[13] != t[6].license_type_id[13]);
        assert(t[5].license_type_id[13] != t[6].license_type_id[13]);
        assert(t[0].license_type_id[13] != t[7].license_type_id[13]);
        assert(t[1].license_type_id[13] != t[7].license_type_id[13]);
        assert(t[2].license_type_id[13] != t[7].license_type_id[13]);
        assert(t[3].license_type_id[13] != t[7].license_type_id[13]);
        assert(t[4].license_type_id[13] != t[7].license_type_id[13]);
        assert(t[5].license_type_id[13] != t[7].license_type_id[13]);
        assert(t[6].license_type_id[13] != t[7].license_type_id[13]);
        assert(t[0].license_type_id[13] != t[8].license_type_id[13]);
        assert(t[1].license_type_id[13] != t[8].license_type_id[13]);
        assert(t[2].license_type_id[13] != t[8].license_type_id[13]);
        assert(t[3].license_type_id[13] != t[8].license_type_id[13]);
        assert(t[4].license_type_id[13] != t[8].license_type_id[13]);
        assert(t[5].license_type_id[13] != t[8].license_type_id[13]);
        assert(t[6].license_type_id[14] != t[8].license_type_id[14]);
        assert(t[7].license_type_id[13] != t[8].license_type_id[13]);
        assert(t[0].license_type_id[13] != t[9].license_type_id[13]);
        assert(t[1].license_type_id[13] != t[9].license_type_id[13]);
        assert(t[2].license_type_id[13] != t[9].license_type_id[13]);
        assert(t[3].license_type_id[14] != t[9].license_type_id[14]);
        assert(t[4].license_type_id[13] != t[9].license_type_id[13]);
        assert(t[5].license_type_id[13] != t[9].license_type_id[13]);
        assert(t[6].license_type_id[13] != t[9].license_type_id[13]);
        assert(t[7].license_type_id[13] != t[9].license_type_id[13]);
        assert(t[8].license_type_id[13] != t[9].license_type_id[13]);
        assert(t[0].license_type_id[13] != t[10].license_type_id[13]);
        assert(t[1].license_type_id[13] != t[10].license_type_id[13]);
        assert(t[2].license_type_id[13] != t[10].license_type_id[13]);
        assert(t[3].license_type_id[13] != t[10].license_type_id[13]);
        assert(t[4].license_type_id[14] != t[10].license_type_id[14]);
        assert(t[5].license_type_id[13] != t[10].license_type_id[13]);
        assert(t[6].license_type_id[13] != t[10].license_type_id[13]);
        assert(t[7].license_type_id[13] != t[10].license_type_id[13]);
        assert(t[8].license_type_id[13] != t[10].license_type_id[13]);
        assert(t[9].license_type_id[13] != t[10].license_type_id[13]);
        assert(t[0].license_type_id[13] != t[11].license_type_id[13]);
        assert(t[1].license_type_id[13] != t[11].license_type_id[13]);
        assert(t[2].license_type_id[13] != t[11].license_type_id[13]);
        assert(t[3].license_type_id[13] != t[11].license_type_id[13]);
        assert(t[4].license_type_id[13] != t[11].license_type_id[13]);
        assert(t[5].license_type_id[13] != t[11].license_type_id[13]);
        assert(t[6].license_type_id[13] != t[11].license_type_id[13]);
        assert(t[7].license_type_id[13] != t[11].license_type_id[13]);
        assert(t[8].license_type_id[13] != t[11].license_type_id[13]);
        assert(t[9].license_type_id[13] != t[11].license_type_id[13]);
        assert(t[10].license_type_id[13] != t[11].license_type_id[13]);
        assert(t[0].license_type_id[13] != t[12].license_type_id[13]);
        assert(t[1].license_type_id[13] != t[12].license_type_id[13]);
        assert(t[2].license_type_id[13] != t[12].license_type_id[13]);
        assert(t[3].license_type_id[13] != t[12].license_type_id[13]);
        assert(t[4].license_type_id[13] != t[12].license_type_id[13]);
        assert(t[5].license_type_id[13] != t[12].license_type_id[13]);
        assert(t[6].license_type_id[14] != t[12].license_type_id[14]);
        assert(t[7].license_type_id[13] != t[12].license_type_id[13]);
        assert(t[8].license_type_id[15] != t[12].license_type_id[15]);
        assert(t[9].license_type_id[13] != t[12].license_type_id[13]);
        assert(t[10].license_type_id[13] != t[12].license_type_id[13]);
        assert(t[11].license_type_id[13] != t[12].license_type_id[13]);
        assert(t[0].license_type_id[13] != t[13].license_type_id[13]);
        assert(t[1].license_type_id[13] != t[13].license_type_id[13]);
        assert(t[2].license_type_id[13] != t[13].license_type_id[13]);
        assert(t[3].license_type_id[13] != t[13].license_type_id[13]);
        assert(t[4].license_type_id[13] != t[13].license_type_id[13]);
        assert(t[5].license_type_id[13] != t[13].license_type_id[13]);
        assert(t[6].license_type_id[14] != t[13].license_type_id[14]);
        assert(t[7].license_type_id[13] != t[13].license_type_id[13]);
        assert(t[8].license_type_id[15] != t[13].license_type_id[15]);
        assert(t[9].license_type_id[13] != t[13].license_type_id[13]);
        assert(t[10].license_type_id[13] != t[13].license_type_id[13]);
        assert(t[11].license_type_id[13] != t[13].license_type_id[13]);
        assert(t[12].license_type_id[26] != t[13].license_type_id[26]);
        assert(t[0].license_type_id[13] != t[14].license_type_id[13]);
        assert(t[1].license_type_id[13] != t[14].license_type_id[13]);
        assert(t[2].license_type_id[13] != t[14].license_type_id[13]);
        assert(t[3].license_type_id[13] != t[14].license_type_id[13]);
        assert(t[4].license_type_id[13] != t[14].license_type_id[13]);
        assert(t[5].license_type_id[13] != t[14].license_type_id[13]);
        assert(t[6].license_type_id[14] != t[14].license_type_id[14]);
        assert(t[7].license_type_id[13] != t[14].license_type_id[13]);
        assert(t[8].license_type_id[15] != t[14].license_type_id[15]);
        assert(t[9].license_type_id[13] != t[14].license_type_id[13]);
        assert(t[10].license_type_id[13] != t[14].license_type_id[13]);
        assert(t[11].license_type_id[13] != t[14].license_type_id[13]);
        assert(t[12].license_type_id[26] != t[14].license_type_id[26]);
        assert(t[13].license_type_id[26] != t[14].license_type_id[26]);
        assert(t[0].license_type_id[13] != t[15].license_type_id[13]);
        assert(t[1].license_type_id.len() != t[15].license_type_id.len());
        assert(t[2].license_type_id[14] != t[15].license_type_id[14]);
        assert(t[3].license_type_id[13] != t[15].license_type_id[13]);
        assert(t[4].license_type_id[13] != t[15].license_type_id[13]);
        assert(t[5].license_type_id[13] != t[15].license_type_id[13]);
        assert(t[6].license_type_id[13] != t[15].license_type_id[13]);
        assert(t[7].license_type_id[13] != t[15].license_type_id[13]);
        assert(t[8].license_type_id[13] != t[15].license_type_id[13]);
        assert(t[9].license_type_id[13] != t[15].license_type_id[13]);
        assert(t[10].license_type_id[13] != t[15].license_type_id[13]);
        assert(t[11].license_type_id[13] != t[15].license_type_id[13]);
        assert(t[12].license_type_id[13] != t[15].license_type_id[13]);
        assert(t[13].license_type_id[13] != t[15].license_type_id[13]);
        assert(t[14].license_type_id[13] != t[15].license_type_id[13]);
        assert(t[0].license_type_id[13] != t[16].license_type_id[13]);
        assert(t[1].license_type_id.len() != t[16].license_type_id.len());
        assert(t[2].license_type_id[14] != t[16].license_type_id[14]);
        assert(t[3].license_type_id[13] != t[16].license_type_id[13]);
        assert(t[4].license_type_id[13] != t[16].license_type_id[13]);
        assert(t[5].license_type_id[13] != t[16].license_type_id[13]);
        assert(t[6].license_type_id[13] != t[16].license_type_id[13]);
        assert(t[7].license_type_id[13] != t[16].license_type_id[13]);
        assert(t[8].license_type_id[13] != t[16].license_type_id[13]);
        assert(t[9].license_type_id[13] != t[16].license_type_id[13]);
        assert(t[10].license_type_id[13] != t[16].license_type_id[13]);
        assert(t[11].license_type_id[13] != t[16].license_type_id[13]);
        assert(t[12].license_type_id[13] != t[16].license_type_id[13]);
        assert(t[13].license_type_id[13] != t[16].license_type_id[13]);
        assert(t[14].license_type_id[13] != t[16].license_type_id[13]);
        assert(t[15].license_type_id[23] != t[16].license_type_id[23]);
        assert(t[0].license_type_id[13] != t[17].license_type_id[13]);
        assert(t[1].license_type_id[13] != t[17].license_type_id[13]);
        assert(t[2].license_type_id[13] != t[17].license_type_id[13]);
        assert(t[3].license_type_id[13] != t[17].license_type_id[13]);
        assert(t[4].license_type_id[13] != t[17].license_type_id[13]);
        assert(t[5].license_type_id[13] != t[17].license_type_id[13]);
        assert(t[6].license_type_id[13] != t[17].license_type_id[13]);
        assert(t[7].license_type_id[13] != t[17].license_type_id[13]);
        assert(t[8].license_type_id[13] != t[17].license_type_id[13]);
        assert(t[9].license_type_id[13] != t[17].license_type_id[13]);
        assert(t[10].license_type_id[13] != t[17].license_type_id[13]);
        assert(t[11].license_type_id[13] != t[17].license_type_id[13]);
        assert(t[12].license_type_id[13] != t[17].license_type_id[13]);
        assert(t[13].license_type_id[13] != t[17].license_type_id[13]);
        assert(t[14].license_type_id[13] != t[17].license_type_id[13]);
        assert(t[15].license_type_id[13] != t[17].license_type_id[13]);
        assert(t[16].license_type_id[13] != t[17].license_type_id[13]);
        reveal_with_fuel(ids_distinct_each, 19);
        reveal_with_fuel(id_fresh_each, 19);
    }
    lemma_ids_distinct_each(t);
}

/// No two licence types of `aifc_registrar_license_types` share an identifier.
proof fn lemma_aifc_registrar_license_types_ids_distinct()
    ensures
        license_type_ids_distinct(spec_aifc_registrar_license_types()),
{
    let t = spec_aifc_registrar_license_types();
    assert(ids_distinct_each(t)) by {
        reveal_strlit("kz-aifc-rc:aifc-company");
        reveal_strlit("kz-aifc-rc:aifc-foundation");
        reveal_strlit("kz-aifc-rc:aifc-partnership");
        reveal_strlit("kz-aifc-rc:aifc-spv");
        reveal_strlit("kz-aifc-rc:foreign-company");
        assert(t[0].license_type_id[16] != t[1].license_type_id[16]);
        assert(t[0].license_type_id[16] != t[2].license_type_id[16]);
        assert(t[1].license_type_id[16] != t[2].license_type_id[16]);
        assert(t[0].license_type_id[16] != t[3].license_type_id[16]);
        assert(t[1].license_type_id[16] != t[3].license_type_id[16]);
        assert(t[2].license_type_id[16] != t[3].license_type_id[16]);
        assert(t[0].license_type_id[11] != t[4].license_type_id[11]);
        assert(t[1].license_type_id[11] != t[4].license_type_id[11]);
        assert(t[2].license_type_id[11] != t[4].license_type_id[11]);
        assert(t[3].license_type_id[11] != t[4].license_type_id[11]);
        reveal_with_fuel(ids_distinct_each, 6);
        reveal_with_fuel(id_fresh_each, 6);
    }
    lemma_ids_distinct_each(t);
}

/// No two licence types of `alatau_admin_license_types` share an identifier.
proof fn lemma_alatau_admin_license_types_ids_distinct()
    ensures
        license_type_ids_distinct(spec_alatau_admin_license_types()),
{
    let t = spec_alatau_admin_license_types();
    assert(ids_distinct_each(t)) by {
        reveal_strlit("kz-alatau-admin:innovation-license");
        reveal_strlit("kz-alatau-admin:it-services");
        reveal_strlit("kz-alatau-admin:tech-park-participant");
        assert(t[0].license_type_id[16] != t[1].license_type_id[16]);
        assert(t[0].license_type_id[16] != t[2].license_type_id[16]);
        assert(t[1].license_type_id[17] != t[2].license_type_id[17]);
        reveal_with_fuel(ids_distinct_each, 4);
        reveal_with_fuel(id_fresh_each, 4);
    }
    lemma_ids_distinct_each(t);
}

/// No licence type of `ardfm_license_types` shares an identifier with one of `nbrk_license_types`.
proof fn lemma_ardfm_license_types_apart_from_nbrk_license_types()
    ensures
        license_type_ids_apart(spec_ardfm_license_types(), spec_nbrk_license_types()),
{
    let a = spec_ardfm_license_types();
    let b = spec_nbrk_license_types();
    assert(apart_each(a, b)) by {
        reveal_strlit("kz-ardfm:banking");
        reveal_strlit("kz-ardfm:insurance");
        reveal_strlit("kz-ardfm:microfinance");
        reveal_strlit("kz-ardfm:payment");
        reveal_strlit("kz-ardfm:securities");
        reveal_strlit("kz-nb:monetary-policy");
        reveal_strlit("kz-nb:payment-system-oversight");
        assert(a[0].license_type_id[3] != b[0].license_type_id[3]);
        assert(a[0].license_type_id[3] != b[1].license_type_id[3]);
        assert(a[1].license_type_id[3] != b[0].license_type_id[3]);
        assert(a[1].license_type_id[3] != b[1].license_type_id[3]);
        assert(a[2].license_type_id[3] != b[0].license_type_id[3]);
        assert(a[2].license_type_id[3] != b[1].license_type_id[3]);
        assert(a[3].license_type_id[3] != b[0].license_type_id[3]);
        assert(a[3].license_type_id[3] != b[1].license_type_id[3]);
        assert(a[4].license_type_id[3] != b[0].license_type_id[3]);
        assert(a[4].license_type_id[3] != b[1].license_type_id[3]);
        reveal_with_fuel(apart_each, 6);
        reveal_with_fuel(id_fresh_each, 3);
    }
    lemma_apart_each(a, b);
}

/// No licence type of `ardfm_license_types` shares an identifier with one of `afsa_license_types`.
proof fn lemma_ardfm_license_types_apart_from_afsa_license_types()
    ensures
        license_type_ids_apart(spec_ardfm_license_types(), spec_afsa_license_types()),
{
    let a = spec_ardfm_license_types();
    let b = spec_afsa_license_types();
    assert(apart_each(a, b)) by {
        reveal_strlit("kz-aifc-afsa:advising-on-investments");
        reveal_strlit("kz-aifc-afsa:banking-business");
        reveal_strlit("kz-aifc-afsa:credit-rating");
        reveal_strlit("kz-aifc-afsa:crowdfunding-investment");
        reveal_strlit("kz-aifc-afsa:crowdfunding-loan");
        reveal_strlit("kz-aifc-afsa:crowdfunding-property");
        reveal_strlit("kz-aifc-afsa:custody");
        reveal_strlit("kz-aifc-afsa:dealing-in-investments");
        reveal_strlit("kz-aifc-afsa:digital-asset-trading-facility");
        reveal_strlit("kz-aifc-afsa:e-money");
        reveal_strlit("kz-aifc-afsa:fund-administration");
        reveal_strlit("kz-aifc-afsa:insurance");
        reveal_strlit("kz-aifc-afsa:insurance-broker");
        reveal_strlit("kz-aifc-afsa:insurance-management");
        reveal_strlit("kz-aifc-afsa:islamic-finance");
        reveal_strlit("kz-aifc-afsa:managing-investments");
        reveal_strlit("kz-aifc-afsa:money-services");
        reveal_strlit("kz-aifc-afsa:private-financing-platform");
        reveal_strlit("kz-ardfm:banking");
        reveal_strlit("kz-ardfm:insurance");
        reveal_strlit("kz-ardfm:microfinance");
        reveal_strlit("kz-ardfm:payment");
        reveal_strlit("kz-ardfm:securities");
        assert(a[0].license_type_id[4] != b[0].license_type_id[4]);
        assert(a[0].license_type_id[4] != b[1].license_type_id[4]);
        assert(a[0].license_type_id[4] != b[2].license_type_id[4]);
        assert(a[0].license_type_id[4] != b[3].license_type_id[4]);
        assert(a[0].license_type_id[4] != b[4].license_type_id[4]);
        assert(a[0].license_type_id[4] != b[5].license_type_id[4]);
        assert(a[0].license_type_id[4] != b[6].license_type_id[4]);
        assert(a[0].license_type_id[4] != b[7].license_type_id[4]);
        assert(a[0].license_type_id[4] != b[8].license_type_id[4]);
        assert(a[0].license_type_id[4] != b[9].license_type_id[4]);
        assert(a[0].license_type_id[4] != b[10].license_type_id[4]);
        assert(a[0].license_type_id[4] != b[11].license_type_id[4]);
        assert(a[0].license_type_id[4] != b[12].license_type_id[4]);
        assert(a[0].license_type_id[4] != b[13].license_type_id[4]);
        assert(a[0].license_type_id[4] != b[14].license_type_id[4]);
        assert(a[0].license_type_id[4] != b[15].license_type_id[4]);
        assert(a[0].license_type_id[4] != b[16].license_type_id[4]);
        assert(a[0].license_type_id[4] != b[17].license_type_id[4]);
        assert(a[1].license_type_id[4] != b[0].license_type_id[4]);
        assert(a[1].license_type_id[4] != b[1].license_type_id[4]);
        assert(a[1].license_type_id[4] != b[2].license_type_id[4]);
        assert(a[1].license_type_id[4] != b[3].license_type_id[4]);
        assert(a[1].license_type_id[4] != b[4].license_type_id[4]);
        assert(a[1].license_type_id[4] != b[5].license_type_id[4]);
        assert(a[1].license_type_id[4] != b[6].license_type_id[4]);
        assert(a[1].license_type_id[4] != b[7].license_type_id[4]);
        assert(a[1].license_type_id[4] != b[8].license_type_id[4]);
        assert(a[1].license_type_id[4] != b[9].license_type_id[4]);
        assert(a[1].license_type_id[4] != b[10].license_type_id[4]);
        assert(a[1].license_type_id[4] != b[11].license_type_id[4]);
        assert(a[1].license_type_id[4] != b[12].license_type_id[4]);
        assert(a[1].license_type_id[4] != b[13].license_type_id[4]);
        assert(a[1].license_type_id[4] != b[14].license_type_id[4]);
        assert(a[1].license_type_id[4] != b[15].license_type_id[4]);
        assert(a[1].license_type_id[4] != b[16].license_type_id[4]);
        assert(a[1].license_type_id[4] != b[17].license_type_id[4]);
        assert(a[2].license_type_id[4] != b[0].license_type_id[4]);
        assert(a[2].license_type_id[4] != b[1].license_type_id[4]);
        assert(a[2].license_type_id[4] != b[2].license_type_id[4]);
        assert(a[2].license_type_id[4] != b[3].license_type_id[4]);
        assert(a[2].license_type_id[4] != b[4].license_type_id[4]);
        assert(a[2].license_type_id[4] != b[5].license_type_id[4]);
        assert(a[2].license_type_id[4] != b[6].license_type_id[4]);
        assert(a[2].license_type_id[4] != b[7].license_type_id[4]);
        assert(a[2].license_type_id[4] != b[8].license_type_id[4]);
        assert(a[2].license_type_id[4] != b[9].license_type_id[4]);
        assert(a[2].license_type_id[4] != b[10].license_type_id[4]);
        assert(a[2].license_type_id[4] != b[11].license_type_id[4]);
        assert(a[2].license_type_id[4] != b[12].license_type_id[4]);
        assert(a[2].license_type_id[4] != b[13].license_type_id[4]);
        assert(a[2].license_type_id[4] != b[14].license_type_id[4]);
        assert(a[2].license_type_id[4] != b[15].license_type_id[4]);
        assert(a[2].license_type_id[4] != b[16].license_type_id[4]);
        assert(a[2].license_type_id[4] != b[17].license_type_id[4]);
        assert(a[3].license_type_id[4] != b[0].license_type_id[4]);
        assert(a[3].license_type_id[4] != b[1].license_type_id[4]);
        assert(a[3].license_type_id[4] != b[2].license_type_id[4]);
        assert(a[3].license_type_id[4] != b[3].license_type_id[4]);
        assert(a[3].license_type_id[4] != b[4].license_type_id[4]);
        assert(a[3].license_type_id[4] != b[5].license_type_id[4]);
        assert(a[3].license_type_id[4] != b[6].license_type_id[4]);
        assert(a[3].license_type_id[4] != b[7].license_type_id[4]);
        assert(a[3].license_type_id[4] != b[8].license_type_id[4]);
        assert(a[3].license_type_id[4] != b[9].license_type_id[4]);
        assert(a[3].license_type_id[4] != b[10].license_type_id[4]);
        assert(a[3].license_type_id[4] != b[11].license_type_id[4]);
        assert(a[3].license_type_id[4] != b[12].license_type_id[4]);
        assert(a[3].license_type_id[4] != b[13].license_type_id[4]);
        assert(a[3].license_type_id[4] != b[14].license_type_id[4]);
        assert(a[3].license_type_id[4] != b[15].license_type_id[4]);
        assert(a[3].license_type_id[4] != b[16].license_type_id[4]);
        assert(a[3].license_type_id[4] != b[17].license_type_id[4]);
        assert(a[4].license_type_id[4] != b[0].license_type_id[4]);
        assert(a[4].license_type_id[4] != b[1].license_type_id[4]);
        assert(a[4].license_type_id[4] != b[2].license_type_id[4]);
        assert(a[4].license_type_id[4] != b[3].license_type_id[4]);
        assert(a[4].license_type_id[4] != b[4].license_type_id[4]);
        assert(a[4].license_type_id[4] != b[5].license_type_id[4]);
        assert(a[4].license_type_id[4] != b[6].license_type_id[4]);
        assert(a[4].license_type_id[4] != b[7].license_type_id[4]);
        assert(a[4].license_type_id[4] != b[8].license_type_id[4]);
        assert(a[4].license_type_id[4] != b[9].license_type_id[4]);
        assert(a[4].license_type_id[4] != b[10].license_type_id[4]);
        assert(a[4].license_type_id[4] != b[11].license_type_id[4]);
        assert(a[4].license_type_id[4] != b[12].license_type_id[4]);
        assert(a[4].license_type_id[4] != b[13].license_type_id[4]);
        assert(a[4].license_type_id[4] != b[14].license_type_id[4]);
        assert(a[4].license_type_id[4] != b[15].license_type_id[4]);
        assert(a[4].license_type_id[4] != b[16].license_type_id[4]);
        assert(a[4].license_type_id[4] != b[17].license_type_id[4]);
        reveal_with_fuel(apart_each, 6);
        reveal_with_fuel(id_fresh_each, 19);
    }
    lemma_apart_each(a, b);
}

/// No licence type of `ardfm_license_types` shares an identifier with one of `aifc_registrar_license_types`.
proof fn lemma_ardfm_license_types_apart_from_aifc_registrar_license_types()
    ensures
        license_type_ids_apart(spec_ardfm_license_types(), spec_aifc_registrar_license_types()),
{
    let a = spec_ardfm_license_types();
    let b = spec_aifc_registrar_license_types();
    assert(apart_each(a, b)) by {
        reveal_strlit("kz-aifc-rc:aifc-company");
        reveal_strlit("kz-aifc-rc:aifc-foundation");
        reveal_strlit("kz-aifc-rc:aifc-partnership");
        reveal_strlit("kz-aifc-rc:aifc-spv");
        reveal_strlit("kz-aifc-rc:foreign-company");
        reveal_strlit("kz-ardfm:banking");
        reveal_strlit("kz-ardfm:insurance");
        reveal_strlit("kz-ardfm:microfinance");
        reveal_strlit("kz-ardfm:payment");
        reveal_strlit("kz-ardfm:securities");
        assert(a[0].license_type_id[4] != b[0].license_type_id[4]);
        assert(a[0].license_type_id[4] != b[1].license_type_id[4]);
        assert(a[0].license_type_id[4] != b[2].license_type_id[4]);
        assert(a[0].license_type_id[4] != b[3].license_type_id[4]);
        assert(a[0].license_type_id[4] != b[4].license_type_id[4]);
        assert(a[1].license_type_id[4] != b[0].license_type_id[4]);
        assert(a[1].license_type_id[4] != b[1].license_type_id[4]);
        assert(a[1].license_type_id[4] != b[2].license_type_id[4]);
        assert(a[1].license_type_id[4] != b[3].license_type_id[4]);
        assert(a[1].license_type_id[4] != b[4].license_type_id[4]);
        assert(a[2].license_type_id[4] != b[0].license_type_id[4]);
        assert(a[2].license_type_id[4] != b[1].license_type_id[4]);
        assert(a[2].license_type_id[4] != b[2].license_type_id[4]);
        assert(a[2].license_type_id[4] != b[3].license_type_id[4]);
        assert(a[2].license_type_id[4] != b[4].license_type_id[4]);
        assert(a[3].license_type_id[4] != b[0].license_type_id[4]);
        assert(a[3].license_type_id[4] != b[1].license_type_id[4]);
        assert(a[3].license_type_id[4] != b[2].license_type_id[4]);
        assert(a[3].license_type_id[4] != b[3].license_type_id[4]);
        assert(a[3].license_type_id[4] != b[4].license_type_id[4]);
        assert(a[4].license_type_id[4] != b[0].license_type_id[4]);
        assert(a[4].license_type_id[4] != b[1].license_type_id[4]);
        assert(a[4].license_type_id[4] != b[2].license_type_id[4]);
        assert(a[4].license_type_id[4] != b[3].license_type_id[4]);
        assert(a[4].license_type_id[4] != b[4].license_type_id[4]);
        reveal_with_fuel(apart_each, 6);
        reveal_with_fuel(id_fresh_each, 6);
    }
    lemma_apart_each(a, b);
}

/// No licence type of `ardfm_license_types` shares an identifier with one of `alatau_admin_license_types`.
proof fn lemma_ardfm_license_types_apart_from_alatau_admin_license_types()
    ensures
        license_type_ids_apart(spec_ardfm_license_types(), spec_alatau_admin_license_types()),
{
    let a = spec_ardfm_license_types();
    let b = spec_alatau_admin_license_types();
    assert(apart_each(a, b)) by {
        reveal_strlit("kz-alatau-admin:innovation-license");
        reveal_strlit("kz-alatau-admin:it-services");
        reveal_strlit("kz-alatau-admin:tech-park-participant");
        reveal_strlit("kz-ardfm:banking");
        reveal_strlit("kz-ardfm:insurance");
        reveal_strlit("kz-ardfm:microfinance");
        reveal_strlit("kz-ardfm:payment");
        reveal_strlit("kz-ardfm:securities");
        assert(a[0].license_type_id[4] != b[0].license_type_id[4]);
        assert(a[0].license_type_id[4] != b[1].license_type_id[4]);
        assert(a[0].license_type_id[4] != b[2].license_type_id[4]);
        assert(a[1].license_type_id[4] != b[0].license_type_id[4]);
        assert(a[1].license_type_id[4] != b[1].license_type_id[4]);
        assert(a[1].license_type_id[4] != b[2].license_type_id[4]);
        assert(a[2].license_type_id[4] != b[0].license_type_id[4]);
        assert(a[2].license_type_id[4] != b[1].license_type_id[4]);
        assert(a[2].license_type_id[4] != b[2].license_type_id[4]);
        assert(a[3].license_type_id[4] != b[0].license_type_id[4]);
        assert(a[3].license_type_id[4] != b[1].license_type_id[4]);
        assert(a[3].license_type_id[4] != b[2].license_type_id[4]);
        assert(a[4].license_type_id[4] != b[0].license_type_id[4]);
        assert(a[4].license_type_id[4] != b[1].license_type_id[4]);
        assert(a[4].license_type_id[4] != b[2].license_type_id[4]);
        reveal_with_fuel(apart_each, 6);
        reveal_with_fuel(id_fresh_each, 4);
    }
    lemma_apart_each(a, b);
}

/// No licence type of `nbrk_license_types` shares an identifier with one of `afsa_license_types`.
proof fn lemma_nbrk_license_types_apart_from_afsa_license_types()
    ensures
        license_type_ids_apart(spec_nbrk_license_types(), spec_afsa_license_types()),
{
    let a = spec_nbrk_license_types();
    let b = spec_afsa_license_types();
    assert(apart_each(a, b)) by {
        reveal_strlit("kz-aifc-afsa:advising-on-investments");
        reveal_strlit("kz-aifc-afsa:banking-business");
        reveal_strlit("kz-aifc-afsa:credit-rating");
        reveal_strlit("kz-aifc-afsa:crowdfunding-investment");
        reveal_strlit("kz-aifc-afsa:crowdfunding-loan");
        reveal_strlit("kz-aifc-afsa:crowdfunding-property");
        reveal_strlit("kz-aifc-afsa:custody");
        reveal_strlit("kz-aifc-afsa:dealing-in-investments");
        reveal_strlit("kz-aifc-afsa:digital-asset-trading-facility");
        reveal_strlit("kz-aifc-afsa:e-money");
        reveal_strlit("kz-aifc-afsa:fund-administration");
        reveal_strlit("kz-aifc-afsa:insurance");
        reveal_strlit("kz-aifc-afsa:insurance-broker");
        reveal_strlit("kz-aifc-afsa:insurance-management");
        reveal_strlit("kz-aifc-afsa:islamic-finance");
        reveal_strlit("kz-aifc-afsa:managing-investments");
        reveal_strlit("kz-aifc-afsa:money-services");
        reveal_strlit("kz-aifc-afsa:private-financing-platform");
        reveal_strlit("kz-nb:monetary-policy");
        reveal_strlit("kz-nb:payment-system-oversight");
        assert(a[0].license_type_id[3] != b[0].license_type_id[3]);
        assert(a[0].license_type_id[3] != b[1].license_type_id[3]);
        assert(a[0].license_type_id[3] != b[2].license_type_id[3]);
        assert(a[0].license_type_id[3] != b[3].license_type_id[3]);
        assert(a[0].license_type_id[3] != b[4].license_type_id[3]);
        assert(a[0].license_type_id[3] != b[5].license_type_id[3]);
        assert(a[0].license_type_id[3] != b[6].license_type_id[3]);
        assert(a[0].license_type_id[3] != b[7].license_type_id[3]);
        assert(a[0].license_type_id[3] != b[8].license_type_id[3]);
        assert(a[0].license_type_id[3] != b[9].license_type_id[3]);
        assert(a[0].license_type_id[3] != b[10].license_type_id[3]);
        assert(a[0].license_type_id[3] != b[11].license_type_id[3]);
        assert(a[0].license_type_id[3] != b[12].license_type_id[3]);
        assert(a[0].license_type_id[3] != b[13].license_type_id[3]);
        assert(a[0].license_type_id[3] != b[14].license_type_id[3]);
        assert(a[0].license_type_id[3] != b[15].license_type_id[3]);
        assert(a[0].license_type_id[3] != b[16].license_type_id[3]);
        assert(a[0].license_type_id[3] != b[17].license_type_id[3]);
        assert(a[1].license_type_id[3] != b[0].license_type_id[3]);
        assert(a[1].license_type_id[3] != b[1].license_type_id[3]);
        assert(a[1].license_type_id[3] != b[2].license_type_id[3]);
        assert(a[1].license_type_id[3] != b[3].license_type_id[3]);
        assert(a[1].license_type_id[3] != b[4].license_type_id[3]);
        assert(a[1].license_type_id[3] != b[5].license_type_id[3]);
        assert(a[1].license_type_id[3] != b[6].license_type_id[3]);
        assert(a[1].license_type_id[3] != b[7].license_type_id[3]);
        assert(a[1].license_type_id[3] != b[8].license_type_id[3]);
        assert(a[1].license_type_id[3] != b[9].license_type_id[3]);
        assert(a[1].license_type_id[3] != b[10].license_type_id[3]);
        assert(a[1].license_type_id[3] != b[11].license_type_id[3]);
        assert(a[1].license_type_id[3] != b[12].license_type_id[3]);
        assert(a[1].license_type_id[3] != b[13].license_type_id[3]);
        assert(a[1].license_type_id[3] != b[14].license_type_id[3]);
        assert(a[1].license_type_id[3] != b[15].license_type_id[3]);
        assert(a[1].license_type_id[3] != b[16].license_type_id[3]);
        assert(a[1].license_type_id[3] != b[17].license_type_id[3]);
        reveal_with_fuel(apart_each, 3);
        reveal_with_fuel(id_fresh_each, 19);
    }
    lemma_apart_each(a, b);
}

/// No licence type of `nbrk_license_types` shares an identifier with one of `aifc_registrar_license_types`.
proof fn lemma_nbrk_license_types_apart_from_aifc_registrar_license_types()
    ensures
        license_type_ids_apart(spec_nbrk_license_types(), spec_aifc_registrar_license_types()),
{
    let a = spec_nbrk_license_types();
    let b = spec_aifc_registrar_license_types();
    assert(apart_each(a, b)) by {
        reveal_strlit("kz-aifc-rc:aifc-company");
        reveal_strlit("kz-aifc-rc:aifc-foundation");
        reveal_strlit("kz-aifc-rc:aifc-partnership");
        reveal_strlit("kz-aifc-rc:aifc-spv");
        reveal_strlit("kz-aifc-rc:foreign-company");
        reveal_strlit("kz-nb:monetary-policy");
        reveal_strlit("kz-nb:payment-system-oversight");
        assert(a[0].license_type_id[3] != b[0].license_type_id[3]);
        assert(a[0].license_type_id[3] != b[1].license_type_id[3]);
        assert(a[0].license_type_id[3] != b[2].license_type_id[3]);
        assert(a[0].license_type_id[3] != b[3].license_type_id[3]);
        assert(a[0].license_type_id[3] != b[4].license_type_id[3]);
        assert(a[1].license_type_id[3] != b[0].license_type_id[3]);
        assert(a[1].license_type_id[3] != b[1].license_type_id[3]);
        assert(a[1].license_type_id[3] != b[2].license_type_id[3]);
        assert(a[1].license_type_id[3] != b[3].license_type_id[3]);
        assert(a[1].license_type_id[3] != b[4].license_type_id[3]);
        reveal_with_fuel(apart_each, 3);
        reveal_with_fuel(id_fresh_each, 6);
    }
    lemma_apart_each(a, b);
}

/// No licence type of `nbrk_license_types` shares an identifier with one of `alatau_admin_license_types`.
proof fn lemma_nbrk_license_types_apart_from_alatau_admin_license_types()
    ensures
        license_type_ids_apart(spec_nbrk_license_types(), spec_alatau_admin_license_types()),
{
    let a = spec_nbrk_license_types();
    let b = spec_alatau_admin_license_types();
    assert(apart_each(a, b)) by {
        reveal_strlit("kz-alatau-admin:innovation-license");
        reveal_strlit("kz-alatau-admin:it-services");
        reveal_strlit("kz-alatau-admin:tech-park-participant");
        reveal_strlit("kz-nb:monetary-policy");
        reveal_strlit("kz-nb:payment-system-oversight");
        assert(a[0].license_type_id[3] != b[0].license_type_id[3]);
        assert(a[0].license_type_id[3] != b[1].license_type_id[3]);
        assert(a[0].license_type_id[3] != b[2].license_type_id[3]);
        assert(a[1].license_type_id[3] != b[0].license_type_id[3]);
        assert(a[1].license_type_id[3] != b[1].license_type_id[3]);
        assert(a[1].license_type_id[3] != b[2].license_type_id[3]);
        reveal_with_fuel(apart_each, 3);
        reveal_with_fuel(id_fresh_each, 4);
    }
    lemma_apart_each(a, b);
}

/// No licence type of `afsa_license_types` shares an identifier with one of `aifc_registrar_license_types`.
proof fn lemma_afsa_license_types_apart_from_aifc_registrar_license_types()
    ensures
        license_type_ids_apart(spec_afsa_license_types(), spec_aifc_registrar_license_types()),
{
    let a = spec_afsa_license_types();
    let b = spec_aifc_registrar_license_types();
    assert(apart_each(a, b)) by {
        reveal_strlit("kz-aifc-afsa:advising-on-investments");
        reveal_strlit("kz-aifc-afsa:banking-business");
        reveal_strlit("kz-aifc-afsa:credit-rating");
        reveal_strlit("kz-aifc-afsa:crowdfunding-investment");
        reveal_strlit("kz-aifc-afsa:crowdfunding-loan");
        reveal_strlit("kz-aifc-afsa:crowdfunding-property");
        reveal_strlit("kz-aifc-afsa:custody");
        reveal_strlit("kz-aifc-afsa:dealing-in-investments");
        reveal_strlit("kz-aifc-afsa:digital-asset-trading-facility");
        reveal_strlit("kz-aifc-afsa:e-money");
        reveal_strlit("kz-aifc-afsa:fund-administration");
        reveal_strlit("kz-aifc-afsa:insurance");
        reveal_strlit("kz-aifc-afsa:insurance-broker");
        reveal_strlit("kz-aifc-afsa:insurance-management");
        reveal_strlit("kz-aifc-afsa:islamic-finance");
        reveal_strlit("kz-aifc-afsa:managing-investments");
        reveal_strlit("kz-aifc-afsa:money-services");
        reveal_strlit("kz-aifc-afsa:private-financing-platform");
        reveal_strlit("kz-aifc-rc:aifc-company");
        reveal_strlit("kz-aifc-rc:aifc-foundation");
        reveal_strlit("kz-aifc-rc:aifc-partnership");
        reveal_strlit("kz-aifc-rc:aifc-spv");
        reveal_strlit("kz-aifc-rc:foreign-company");
        assert(a[0].license_type_id[8] != b[0].license_type_id[8]);
        assert(a[0].license_type_id[8] != b[1].license_type_id[8]);
        assert(a[0].license_type_id[8] != b[2].license_type_id[8]);
        assert(a[0].license_type_id[8] != b[3].license_type_id[8]);
        assert(a[0].license_type_id[8] != b[4].license_type_id[8]);
        assert(a[1].license_type_id[8] != b[0].license_type_id[8]);
        assert(a[1].license_type_id[8] != b[1].license_type_id[8]);
        assert(a[1].license_type_id[8] != b[2].license_type_id[8]);
        assert(a[1].license_type_id[8] != b[3].license_type_id[8]);
        assert(a[1].license_type_id[8] != b[4].license_type_id[8]);
        assert(a[2].license_type_id[8] != b[0].license_type_id[8]);
        assert(a[2].license_type_id[8] != b[1].license_type_id[8]);
        assert(a[2].license_type_id[8] != b[2].license_type_id[8]);
        assert(a[2].license_type_id[8] != b[3].license_type_id[8]);
        assert(a[2].license_type_id[8] != b[4].license_type_id[8]);
        assert(a[3].license_type_id[8] != b[0].license_type_id[8]);
        assert(a[3].license_type_id[8] != b[1].license_type_id[8]);
        assert(a[3].license_type_id[8] != b[2].license_type_id[8]);
        assert(a[3].license_type_id[8] != b[3].license_type_id[8]);
        assert(a[3].license_type_id[8] != b[4].license_type_id[8]);
        assert(a[4].license_type_id[8] != b[0].license_type_id[8]);
        assert(a[4].license_type_id[8] != b[1].license_type_id[8]);
        assert(a[4].license_type_id[8] != b[2].license_type_id[8]);
        assert(a[4].license_type_id[8] != b[3].license_type_id[8]);
        assert(a[4].license_type_id[8] != b[4].license_type_id[8]);
        assert(a[5].license_type_id[8] != b[0].license_type_id[8]);
        assert(a[5].license_type_id[8] != b[1].license_type_id[8]);
        assert(a[5].license_type_id[8] != b[2].license_type_id[8]);
        assert(a[5].license_type_id[8] != b[3].license_type_id[8]);
        assert(a[5].license_type_id[8] != b[4].license_type_id[8]);
        assert(a[6].license_type_id[8] != b[0].license_type_id[8]);
        assert(a[6].license_type_id[8] != b[1].license_type_id[8]);
        assert(a[6].license_type_id[8] != b[2].license_type_id[8]);
        assert(a[6].license_type_id[8] != b[3].license_type_id[8]);
        assert(a[6].license_type_id[8] != b[4].license_type_id[8]);
        assert(a[7].license_type_id[8] != b[0].license_type_id[8]);
        assert(a[7].license_type_id[8] != b[1].license_type_id[8]);
        assert(a[7].license_type_id[8] != b[2].license_type_id[8]);
        assert(a[7].license_type_id[8] != b[3].license_type_id[8]);
        assert(a[7].license_type_id[8] != b[4].license_type_id[8]);
        assert(a[8].license_type_id[8] != b[0].license_type_id[8]);
        assert(a[8].license_type_id[8] != b[1].license_type_id[8]);
        assert(a[8].license_type_id[8] != b[2].license_type_id[8]);
        assert(a[8].license_type_id[8] != b[3].license_type_id[8]);
        assert(a[8].license_type_id[8] != b[4].license_type_id[8]);
        assert(a[9].license_type_id[8] != b[0].license_type_id[8]);
        assert(a[9].license_type_id[8] != b[1].license_type_id[8]);
        assert(a[9].license_type_id[8] != b[2].license_type_id[8]);
        assert(a[9].license_type_id[8] != b[3].license_type_id[8]);
        assert(a[9].license_type_id[8] != b[4].license_type_id[8]);
        assert(a[10].license_type_id[8] != b[0].license_type_id[8]);
        assert(a[10].license_type_id[8] != b[1].license_type_id[8]);
        assert(a[10].license_type_id[8] != b[2].license_type_id[8]);
        assert(a[10].license_type_id[8] != b[3].license_type_id[8]);
        assert(a[10].license_type_id[8] != b[4].license_type_id[8]);
        assert(a[11].license_type_id[8] != b[0].license_type_id[8]);
        assert(a[11].license_type_id[8] != b[1].license_type_id[8]);
        assert(a[11].license_type_id[8] != b[2].license_type_id[8]);
        assert(a[11].license_type_id[8] != b[3].license_type_id[8]);
        assert(a[11].license_type_id[8] != b[4].license_type_id[8]);
        assert(a[12].license_type_id[8] != b[0].license_type_id[8]);
        assert(a[12].license_type_id[8] != b[1].license_type_id[8]);
        assert(a[12].license_type_id[8] != b[2].license_type_id[8]);
        assert(a[12].license_type_id[8] != b[3].license_type_id[8]);
        assert(a[12].license_type_id[8] != b[4].license_type_id[8]);
        assert(a[13].license_type_id[8] != b[0].license_type_id[8]);
        assert(a[13].license_type_id[8] != b[1].license_type_id[8]);
        assert(a[13].license_type_id[8] != b[2].license_type_id[8]);
        assert(a[13].license_type_id[8] != b[3].license_type_id[8]);
        assert(a[13].license_type_id[8] != b[4].license_type_id[8]);
        assert(a[14].license_type_id[8] != b[0].license_type_id[8]);
        assert(a[14].license_type_id[8] != b[1].license_type_id[8]);
        assert(a[14].license_type_id[8] != b[2].license_type_id[8]);
        assert(a[14].license_type_id[8] != b[3].license_type_id[8]);
        assert(a[14].license_type_id[8] != b[4].license_type_id[8]);
        assert(a[15].license_type_id[8] != b[0].license_type_id[8]);
        assert(a[15].license_type_id[8] != b[1].license_type_id[8]);
        assert(a[15].license_type_id[8] != b[2].license_type_id[8]);
        assert(a[15].license_type_id[8] != b[3].license_type_id[8]);
        assert(a[15].license_type_id[8] != b[4].license_type_id[8]);
        assert(a[16].license_type_id[8] != b[0].license_type_id[8]);
        assert(a[16].license_type_id[8] != b[1].license_type_id[8]);
        assert(a[16].license_type_id[8] != b[2].license_type_id[8]);
        assert(a[16].license_type_id[8] != b[3].license_type_id[8]);
        assert(a[16].license_type_id[8] != b[4].license_type_id[8]);
        assert(a[17].license_type_id[8] != b[0].license_type_id[8]);
        assert(a[17].license_type_id[8] != b[1].license_type_id[8]);
        assert(a[17].license_type_id[8] != b[2].license_type_id[8]);
        assert(a[17].license_type_id[8] != b[3].license_type_id[8]);
        assert(a[17].license_type_id[8] != b[4].license_type_id[8]);
        reveal_with_fuel(apart_each, 19);
        reveal_with_fuel(id_fresh_each, 6);
    }
    lemma_apart_each(a, b);
}

/// No licence type of `afsa_license_types` shares an identifier with one of `alatau_admin_license_types`.
proof fn lemma_afsa_license_types_apart_from_alatau_admin_license_types()
    ensures
        license_type_ids_apart(spec_afsa_license_types(), spec_alatau_admin_license_types()),
{
    let a = spec_afsa_license_types();
    let b = spec_alatau_admin_license_types();
    assert(apart_each(a, b)) by {
        reveal_strlit("kz-aifc-afsa:advising-on-investments");
        reveal_strlit("kz-aifc-afsa:banking-business");
        reveal_strlit("kz-aifc-afsa:credit-rating");
        reveal_strlit("kz-aifc-afsa:crowdfunding-investment");
        reveal_strlit("kz-aifc-afsa:crowdfunding-loan");
        reveal_strlit("kz-aifc-afsa:crowdfunding-property");
        reveal_strlit("kz-aifc-afsa:custody");
        reveal_strlit("kz-aifc-afsa:dealing-in-investments");
        reveal_strlit("kz-aifc-afsa:digital-asset-trading-facility");
        reveal_strlit("kz-aifc-afsa:e-money");
        reveal_strlit("kz-aifc-afsa:fund-administration");
        reveal_strlit("kz-aifc-afsa:insurance");
        reveal_strlit("kz-aifc-afsa:insurance-broker");
        reveal_strlit("kz-aifc-afsa:insurance-management");
        reveal_strlit("kz-aifc-afsa:islamic-finance");
        reveal_strlit("kz-aifc-afsa:managing-investments");
        reveal_strlit("kz-aifc-afsa:money-services");
        reveal_strlit("kz-aifc-afsa:private-financing-platform");
        reveal_strlit("kz-alatau-admin:innovation-license");
        reveal_strlit("kz-alatau-admin:it-services");
        reveal_strlit("kz-alatau-admin:tech-park-participant");
        assert(a[0].license_type_id[4] != b[0].license_type_id[4]);
        assert(a[0].license_type_id[4] != b[1].license_type_id[4]);
        assert(a[0].license_type_id[4] != b[2].license_type_id[4]);
        assert(a[1].license_type_id[4] != b[0].license_type_id[4]);
        assert(a[1].license_type_id[4] != b[1].license_type_id[4]);
        assert(a[1].license_type_id[4] != b[2].license_type_id[4]);
        assert(a[2].license_type_id[4] != b[0].license_type_id[4]);
        assert(a[2].license_type_id[4] != b[1].license_type_id[4]);
        assert(a[2].license_type_id[4] != b[2].license_type_id[4]);
        assert(a[3].license_type_id[4] != b[0].license_type_id[4]);
        assert(a[3].license_type_id[4] != b[1].license_type_id[4]);
        assert(a[3].license_type_id[4] != b[2].license_type_id[4]);
        assert(a[4].license_type_id[4] != b[0].license_type_id[4]);
        assert(a[4].license_type_id[4] != b[1].license_type_id[4]);
        assert(a[4].license_type_id[4] != b[2].license_type_id[4]);
        assert(a[5].license_type_id[4] != b[0].license_type_id[4]);
        assert(a[5].license_type_id[4] != b[1].license_type_id[4]);
        assert(a[5].license_type_id[4] != b[2].license_type_id[4]);
        assert(a[6].license_type_id[4] != b[0].license_type_id[4]);
        assert(a[6].license_type_id[4] != b[1].license_type_id[4]);
        assert(a[6].license_type_id[4] != b[2].license_type_id[4]);
        assert(a[7].license_type_id[4] != b[0].license_type_id[4]);
        assert(a[7].license_type_id[4] != b[1].license_type_id[4]);
        assert(a[7].license_type_id[4] != b[2].license_type_id[4]);
        assert(a[8].license_type_id[4] != b[0].license_type_id[4]);
        assert(a[8].license_type_id[4] != b[1].license_type_id[4]);
        assert(a[8].license_type_id[4] != b[2].license_type_id[4]);
        assert(a[9].license_type_id[4] != b[0].license_type_id[4]);
        assert(a[9].license_type_id[4] != b[1].license_type_id[4]);
        assert(a[9].license_type_id[4] != b[2].license_type_id[4]);
        assert(a[10].license_type_id[4] != b[0].license_type_id[4]);
        assert(a[10].license_type_id[4] != b[1].license_type_id[4]);
        assert(a[10].license_type_id[4] != b[2].license_type_id[4]);
        assert(a[11].license_type_id[4] != b[0].license_type_id[4]);
        assert(a[11].license_type_id[4] != b[1].license_type_id[4]);
        assert(a[11].license_type_id[4] != b[2].license_type_id[4]);
        assert(a[12].license_type_id[4] != b[0].license_type_id[4]);
        assert(a[12].license_type_id[4] != b[1].license_type_id[4]);
        assert(a[12].license_type_id[4] != b[2].license_type_id[4]);
        assert(a[13].license_type_id[4] != b[0].license_type_id[4]);
        assert(a[13].license_type_id[4] != b[1].license_type_id[4]);
        assert(a[13].license_type_id[4] != b[2].license_type_id[4]);
        assert(a[14].license_type_id[4] != b[0].license_type_id[4]);
        assert(a[14].license_type_id[4] != b[1].license_type_id[4]);
        assert(a[14].license_type_id[4] != b[2].license_type_id[4]);
        assert(a[15].license_type_id[4] != b[0].license_type_id[4]);
        assert(a[15].license_type_id[4] != b[1].license_type_id[4]);
        assert(a[15].license_type_id[4] != b[2].license_type_id[4]);
        assert(a[16].license_type_id[4] != b[0].license_type_id[4]);
        assert(a[16].license_type_id[4] != b[1].license_type_id[4]);
        assert(a[16].license_type_id[4] != b[2].license_type_id[4]);
        assert(a[17].license_type_id[4] != b[0].license_type_id[4]);
        assert(a[17].license_type_id[4] != b[1].license_type_id[4]);
        assert(a[17].license_type_id[4] != b[2].license_type_id[4]);
        reveal_with_fuel(apart_each, 19);
        reveal_with_fuel(id_fresh_each, 4);
    }
    lemma_apart_each(a, b);
}

/// No licence type of `aifc_registrar_license_types` shares an identifier with one of `alatau_admin_license_types`.
proof fn lemma_aifc_registrar_license_types_apart_from_alatau_admin_license_types()
    ensures
        license_type_ids_apart(spec_aifc_registrar_license_types(), spec_alatau_admin_license_types()),
{
    let a = spec_aifc_registrar_license_types();
    let b = spec_alatau_admin_license_types();
    assert(apart_each(a, b)) by {
        reveal_strlit("kz-aifc-rc:aifc-company");
        reveal_strlit("kz-aifc-rc:aifc-foundation");
        reveal_strlit("kz-aifc-rc:aifc-partnership");
        reveal_strlit("kz-aifc-rc:aifc-spv");
        reveal_strlit("kz-aifc-rc:foreign-company");
        reveal_strlit("kz-alatau-admin:innovation-license");
        reveal_strlit("kz-alatau-admin:it-services");
        reveal_strlit("kz-alatau-admin:tech-park-participant");
        assert(a[0].license_type_id[4] != b[0].license_type_id[4]);
        assert(a[0].license_type_id[4] != b[1].license_type_id[4]);
        assert(a[0].license_type_id[4] != b[2].license_type_id[4]);
        assert(a[1].license_type_id[4] != b[0].license_type_id[4]);
        assert(a[1].license_type_id[4] != b[1].license_type_id[4]);
        assert(a[1].license_type_id[4] != b[2].license_type_id[4]);
        assert(a[2].license_type_id[4] != b[0].license_type_id[4]);
        assert(a[2].license_type_id[4] != b[1].license_type_id[4]);
        assert(a[2].license_type_id[4] != b[2].license_type_id[4]);
        assert(a[3].license_type_id[4] != b[0].license_type_id[4]);
        assert(a[3].license_type_id[4] != b[1].license_type_id[4]);
        assert(a[3].license_type_id[4] != b[2].license_type_id[4]);
        assert(a[4].license_type_id[4] != b[0].license_type_id[4]);
        assert(a[4].license_type_id[4] != b[1].license_type_id[4]);
        assert(a[4].license_type_id[4] != b[2].license_type_id[4]);
        reveal_with_fuel(apart_each, 6);
        reveal_with_fuel(id_fresh_each, 4);
    }
    lemma_apart_each(a, b);
}

/// No two licence types of `kazakhstan_license_types` share an identifier.
pub proof fn lemma_kazakhstan_license_type_ids_distinct()
    ensures
        license_type_ids_distinct(spec_kazakhstan_license_types()),
{
    lemma_ardfm_license_types_ids_distinct();
    lemma_nbrk_license_types_ids_distinct();
    lemma_afsa_license_types_ids_distinct();
    lemma_aifc_registrar_license_types_ids_distinct();
    lemma_alatau_admin_license_types_ids_distinct();
    assert(spec_kazakhstan_license_types() =~= spec_ardfm_license_types() + spec_nbrk_license_types() + spec_afsa_license_types() + spec_aifc_registrar_license_types() + spec_alatau_admin_license_types());
    let acc = spec_ardfm_license_types();
    lemma_ardfm_license_types_apart_from_nbrk_license_types();
    let part = spec_ardfm_license_types();
    lemma_ids_distinct_append(acc, spec_nbrk_license_types());
    let acc = acc + spec_nbrk_license_types();
    lemma_ardfm_license_types_apart_from_afsa_license_types();
    lemma_nbrk_license_types_apart_from_afsa_license_types();
    let part = spec_ardfm_license_types();
    lemma_ids_apart_append(part, spec_nbrk_license_types(), spec_afsa_license_types());
    let part = part + spec_nbrk_license_types();
    lemma_ids_distinct_append(acc, spec_afsa_license_types());
    let acc = acc + spec_afsa_license_types();
    lemma_ardfm_license_types_apart_from_aifc_registrar_license_types();
    lemma_nbrk_license_types_apart_from_aifc_registrar_license_types();
    lemma_afsa_license_types_apart_from_aifc_registrar_license_types();
    let part = spec_ardfm_license_types();
    lemma_ids_apart_append(part, spec_nbrk_license_types(), spec_aifc_registrar_license_types());
    let part = part + spec_nbrk_license_types();
    lemma_ids_apart_append(part, spec_afsa_license_types(), spec_aifc_registrar_license_types());
    let part = part + spec_afsa_license_types();
    lemma_ids_distinct_append(acc, spec_aifc_registrar_license_types());
    let acc = acc + spec_aifc_registrar_license_types();
    lemma_ardfm_license_types_apart_from_alatau_admin_license_types();
    lemma_nbrk_license_types_apart_from_alatau_admin_license_types();
    lemma_afsa_license_types_apart_from_alatau_admin_license_types();
    lemma_aifc_registrar_license_types_apart_from_alatau_admin_license_types();
    let part = spec_ardfm_license_types();
    lemma_ids_apart_append(part, spec_nbrk_license_types(), spec_alatau_admin_license_types());
    let part = part + spec_nbrk_license_types();
    lemma_ids_apart_append(part, spec_afsa_license_types(), spec_alatau_admin_license_types());
    let part = part + spec_afsa_license_types();
    lemma_ids_apart_append(part, spec_aifc_registrar_license_types(), spec_alatau_admin_license_types());
    let part = part + spec_aifc_registrar_license_types();
    lemma_ids_distinct_append(acc, spec_alatau_admin_license_types());
    let acc = acc + spec_alatau_admin_license_types();
    assert(spec_kazakhstan_license_types() == acc);
}

/// Each licence-type identifier of `ardfm_license_types` starts with its regulator's
/// identifier and a colon.
proof fn lemma_ardfm_license_types_prefixed()
    ensures
        license_type_ids_prefixed(spec_ardfm_license_types()),
{
    let ts = spec_ardfm_license_types();
    assert(license_type_id_prefixed(ts[0])) by {
        reveal_strlit("kz-ardfm:banking");
        reveal_strlit("kz-ardfm");
        reveal_strlit(":");
        assert(ts[0].license_type_id.subrange(0, (ts[0].regulator_id + ":"@).len() as int) =~= ts[0].regulator_id + ":"@);
    }
    assert(license_type_id_prefixed(ts[1])) by {
        reveal_strlit("kz-ardfm:insurance");
        reveal_strlit("kz-ardfm");
        reveal_strlit(":");
        assert(ts[1].license_type_id.subrange(0, (ts[1].regulator_id + ":"@).len() as int) =~= ts[1].regulator_id + ":"@);
    }
    assert(license_type_id_prefixed(ts[2])) by {
        reveal_strlit("kz-ardfm:securities");
        reveal_strlit("kz-ardfm");
        reveal_strlit(":");
        assert(ts[2].license_type_id.subrange(0, (ts[2].regulator_id + ":"@).len() as int) =~= ts[2].regulator_id + ":"@);
    }
    assert(license_type_id_prefixed(ts[3])) by {
        reveal_strlit("kz-ardfm:microfinance");
        reveal_strlit("kz-ardfm");
        reveal_strlit(":");
        assert(ts[3].license_type_id.subrange(0, (ts[3].regulator_id + ":"@).len() as int) =~= ts[3].regulator_id + ":"@);
    }
    assert(license_type_id_prefixed(ts[4])) by {
        reveal_strlit("kz-ardfm:payment");
        reveal_strlit("kz-ardfm");
        reveal_strlit(":");
        assert(ts[4].license_type_id.subrange(0, (ts[4].regulator_id + ":"@).len() as int) =~= ts[4].regulator_id + ":"@);
    }
    assert(prefixed_each(ts)) by {
        reveal_with_fuel(prefixed_each, 6);
    }
    lemma_prefixed_each(ts);
}

/// Each licence-type identifier of `nbrk_license_types` starts with its regulator's
/// identifier and a colon.
proof fn lemma_nbrk_license_types_prefixed()
    ensures
        license_type_ids_prefixed(spec_nbrk_license_types()),
{
    let ts = spec_nbrk_license_types();
    assert(license_type_id_prefixed(ts[0])) by {
        reveal_strlit("kz-nb:monetary-policy");
        reveal_strlit("kz-nb");
        reveal_strlit(":");
        assert(ts[0].license_type_id.subrange(0, (ts[0].regulator_id + ":"@).len() as int) =~= ts[0].regulator_id + ":"@);
    }
    assert(license_type_id_prefixed(ts[1])) by {
        reveal_strlit("kz-nb:payment-system-oversight");
        reveal_strlit("kz-nb");
        reveal_strlit(":");
        assert(ts[1].license_type_id.subrange(0, (ts[1].regulator_id + ":"@).len() as int) =~= ts[1].regulator_id + ":"@);
    }
    assert(prefixed_each(ts)) by {
        reveal_with_fuel(prefixed_each, 3);
    }
    lemma_prefixed_each(ts);
}

/// Each licence-type identifier of `afsa_license_types` starts with its regulator's
/// identifier and a colon.
proof fn lemma_afsa_license_types_prefixed()
    ensures
        license_type_ids_prefixed(spec_afsa_license_types()),
{
    let ts = spec_afsa_license_types();
    assert(license_type_id_prefixed(ts[0])) by {
        reveal_strlit("kz-aifc-afsa:banking-business");
        reveal_strlit("kz-aifc-afsa");
        reveal_strlit(":");
        assert(ts[0].license_type_id.subrange(0, (ts[0].regulator_id + ":"@).len() as int) =~= ts[0].regulator_id + ":"@);
    }
    assert(license_type_id_prefixed(ts[1])) by {
        reveal_strlit("kz-aifc-afsa:insurance");
        reveal_strlit("kz-aifc-afsa");
        reveal_strlit(":");
        assert(ts[1].license_type_id.subrange(0, (ts[1].regulator_id + ":"@).len() as int) =~= ts[1].regulator_id + ":"@);
    }
    assert(license_type_id_prefixed(ts[2])) by {
        reveal_strlit("kz-aifc-afsa:islamic-finance");
        reveal_strlit("kz-aifc-afsa");
        reveal_strlit(":");
        assert(ts[2].license_type_id.subrange(0, (ts[2].regulator_id + ":"@).len() as int) =~= ts[2].regulator_id + ":"@);
    }
    assert(license_type_id_prefixed(ts[3])) by {
        reveal_strlit("kz-aifc-afsa:dealing-in-investments");
        reveal_strlit("kz-aifc-afsa");
        reveal_strlit(":");
        assert(ts[3].license_type_id.subrange(0, (ts[3].regulator_id + ":"@).len() as int) =~= ts[3].regulator_id + ":"@);
    }
    assert(license_type_id_prefixed(ts[4])) by {
        reveal_strlit("kz-aifc-afsa:managing-investments");
        reveal_strlit("kz-aifc-afsa");
        reveal_strlit(":");
        assert(ts[4].license_type_id.subrange(0, (ts[4].regulator_id + ":"@).len() as int) =~= ts[4].regulator_id + ":"@);
    }
    assert(license_type_id_prefixed(ts[5])) by {
        reveal_strlit("kz-aifc-afsa:advising-on-investments");
        reveal_strlit("kz-aifc-afsa");
        reveal_strlit(":");
        assert(ts[5].license_type_id.subrange(0, (ts[5].regulator_id + ":"@).len() as int) =~= ts[5].regulator_id + ":"@);
    }
    assert(license_type_id_prefixed(ts[6])) by {
        reveal_strlit("kz-aifc-afsa:custody");
        reveal_strlit("kz-aifc-afsa");
        reveal_strlit(":");
        assert(ts[6].license_type_id.subrange(0, (ts[6].regulator_id + ":"@).len() as int) =~= ts[6].regulator_id + ":"@);
    }
    assert(license_type_id_prefixed(ts[7])) by {
        reveal_strlit("kz-aifc-afsa:fund-administration");
        reveal_strlit("kz-aifc-afsa");
        reveal_strlit(":");
        assert(ts[7].license_type_id.subrange(0, (ts[7].regulator_id + ":"@).len() as int) =~= ts[7].regulator_id + ":"@);
    }
    assert(license_type_id_prefixed(ts[8])) by {
        reveal_strlit("kz-aifc-afsa:credit-rating");
        reveal_strlit("kz-aifc-afsa");
        reveal_strlit(":");
        assert(ts[8].license_type_id.subrange(0, (ts[8].regulator_id + ":"@).len() as int) =~= ts[8].regulator_id + ":"@);
    }
    assert(license_type_id_prefixed(ts[9])) by {
        reveal_strlit("kz-aifc-afsa:digital-asset-trading-facility");
        reveal_strlit("kz-aifc-afsa");
        reveal_strlit(":");
        assert(ts[9].license_type_id.subrange(0, (ts[9].regulator_id + ":"@).len() as int) =~= ts[9].regulator_id + ":"@);
    }
    assert(license_type_id_prefixed(ts[10])) by {
        reveal_strlit("kz-aifc-afsa:money-services");
        reveal_strlit("kz-aifc-afsa");
        reveal_strlit(":");
        assert(ts[10].license_type_id.subrange(0, (ts[10].regulator_id + ":"@).len() as int) =~= ts[10].regulator_id + ":"@);
    }
    assert(license_type_id_prefixed(ts[11])) by {
        reveal_strlit("kz-aifc-afsa:e-money");
        reveal_strlit("kz-aifc-afsa");
        reveal_strlit(":");
        assert(ts[11].license_type_id.subrange(0, (ts[11].regulator_id + ":"@).len() as int) =~= ts[11].regulator_id + ":"@);
    }
    assert(license_type_id_prefixed(ts[12])) by {
        reveal_strlit("kz-aifc-afsa:crowdfunding-investment");
        reveal_strlit("kz-aifc-afsa");
        reveal_strlit(":");
        assert(ts[12].license_type_id.subrange(0, (ts[12].regulator_id + ":"@).len() as int) =~= ts[12].regulator_id + ":"@);
    }
    assert(license_type_id_prefixed(ts[13])) by {
        reveal_strlit("kz-aifc-afsa:crowdfunding-loan");
        reveal_strlit("kz-aifc-afsa");
        reveal_strlit(":");
        assert(ts[13].license_type_id.subrange(0, (ts[13].regulator_id + ":"@).len() as int) =~= ts[13].regulator_id + ":"@);
    }
    assert(license_type_id_prefixed(ts[14])) by {
        reveal_strlit("kz-aifc-afsa:crowdfunding-property");
        reveal_strlit("kz-aifc-afsa");
        reveal_strlit(":");
        assert(ts[14].license_type_id.subrange(0, (ts[14].regulator_id + ":"@).len() as int) =~= ts[14].regulator_id + ":"@);
    }
    assert(license_type_id_prefixed(ts[15])) by {
        reveal_strlit("kz-aifc-afsa:insurance-management");
        reveal_strlit("kz-aifc-afsa");
        reveal_strlit(":");
        assert(ts[15].license_type_id.subrange(0, (ts[15].regulator_id + ":"@).len() as int) =~= ts[15].regulator_id + ":"@);
    }
    assert(license_type_id_prefixed(ts[16])) by {
        reveal_strlit("kz-aifc-afsa:insurance-broker");
        reveal_strlit("kz-aifc-afsa");
        reveal_strlit(":");
        assert(ts[16].license_type_id.subrange(0, (ts[16].regulator_id + ":"@).len() as int) =~= ts[16].regulator_id + ":"@);
    }
    assert(license_type_id_prefixed(ts[17])) by {
        reveal_strlit("kz-aifc-afsa:private-financing-platform");
        reveal_strlit("kz-aifc-afsa");
        reveal_strlit(":");
        assert(ts[17].license_type_id.subrange(0, (ts[17].regulator_id + ":"@).len() as int) =~= ts[17].regulator_id + ":"@);
    }
    assert(prefixed_each(ts)) by {
        reveal_with_fuel(prefixed_each, 19);
    }
    lemma_prefixed_each(ts);
}

/// Each licence-type identifier of `aifc_registrar_license_types` starts with its regulator's
/// identifier and a colon.
proof fn lemma_aifc_registrar_license_types_prefixed()
    ensures
        license_type_ids_prefixed(spec_aifc_registrar_license_types()),
{
    let ts = spec_aifc_registrar_license_types();
    assert(license_type_id_prefixed(ts[0])) by {
        reveal_strlit("kz-aifc-rc:aifc-company");
        reveal_strlit("kz-aifc-rc");
        reveal_strlit(":");
        assert(ts[0].license_type_id.subrange(0, (ts[0].regulator_id + ":"@).len() as int) =~= ts[0].regulator_id + ":"@);
    }
    assert(license_type_id_prefixed(ts[1])) by {
        reveal_strlit("kz-aifc-rc:aifc-partnership");
        reveal_strlit("kz-aifc-rc");
        reveal_strlit(":");
        assert(ts[1].license_type_id.subrange(0, (ts[1].regulator_id + ":"@).len() as int) =~= ts[1].regulator_id + ":"@);
    }
    assert(license_type_id_prefixed(ts[2])) by {
        reveal_strlit("kz-aifc-rc:aifc-foundation");
        reveal_strlit("kz-aifc-rc");
        reveal_strlit(":");
        assert(ts[2].license_type_id.subrange(0, (ts[2].regulator_id + ":"@).len() as int) =~= ts[2].regulator_id + ":"@);
    }
    assert(license_type_id_prefixed(ts[3])) by {
        reveal_strlit("kz-aifc-rc:aifc-spv");
        reveal_strlit("kz-aifc-rc");
        reveal_strlit(":");
        assert(ts[3].license_type_id.subrange(0, (ts[3].regulator_id + ":"@).len() as int) =~= ts[3].regulator_id + ":"@);
    }
    assert(license_type_id_prefixed(ts[4])) by {
        reveal_strlit("kz-aifc-rc:foreign-company");
        reveal_strlit("kz-aifc-rc");
        reveal_strlit(":");
        assert(ts[4].license_type_id.subrange(0, (ts[4].regulator_id + ":"@).len() as int) =~= ts[4].regulator_id + ":"@);
    }
    assert(prefixed_each(ts)) by {
        reveal_with_fuel(prefixed_each, 6);
    }
    lemma_prefixed_each(ts);
}

/// Each licence-type identifier of `alatau_admin_license_types` starts with its regulator's
/// identifier and a colon.
proof fn lemma_alatau_admin_license_types_prefixed()
    ensures
        license_type_ids_prefixed(spec_alatau_admin_license_types()),
{
    let ts = spec_alatau_admin_license_types();
    assert(license_type_id_prefixed(ts[0])) by {
        reveal_strlit("kz-alatau-admin:tech-park-participant");
        reveal_strlit("kz-alatau-admin");
        reveal_strlit(":");
        assert(ts[0].license_type_id.subrange(0, (ts[0].regulator_id + ":"@).len() as int) =~= ts[0].regulator_id + ":"@);
    }
    assert(license_type_id_prefixed(ts[1])) by {
        reveal_strlit("kz-alatau-admin:innovation-license");
        reveal_strlit("kz-alatau-admin");
        reveal_strlit(":");
        assert(ts[1].license_type_id.subrange(0, (ts[1].regulator_id + ":"@).len() as int) =~= ts[1].regulator_id + ":"@);
    }
    assert(license_type_id_prefixed(ts[2])) by {
        reveal_strlit("kz-alatau-admin:it-services");
        reveal_strlit("kz-alatau-admin");
        reveal_strlit(":");
        assert(ts[2].license_type_id.subrange(0, (ts[2].regulator_id + ":"@).len() as int) =~= ts[2].regulator_id + ":"@);
    }
    assert(prefixed_each(ts)) by {
        reveal_with_fuel(prefixed_each, 4);
    }
    lemma_prefixed_each(ts);
}

/// Every licence-type identifier of the Kazakh catalog starts with the
/// identifier of the regulator that grants it, followed by a colon.
pub proof fn lemma_kazakhstan_license_types_prefixed()
    ensures
        license_type_ids_prefixed(spec_kazakhstan_license_types()),
{
    lemma_ardfm_license_types_prefixed();
    lemma_nbrk_license_types_prefixed();
    lemma_afsa_license_types_prefixed();
    lemma_aifc_registrar_license_types_prefixed();
    lemma_alatau_admin_license_types_prefixed();
    lemma_prefixed_append(spec_ardfm_license_types(), spec_nbrk_license_types());
    lemma_prefixed_append(spec_ardfm_license_types() + spec_nbrk_license_types(), spec_afsa_license_types());
    lemma_prefixed_append(spec_ardfm_license_types() + spec_nbrk_license_types() + spec_afsa_license_types(), spec_aifc_registrar_license_types());
    lemma_prefixed_append(spec_ardfm_license_types() + spec_nbrk_license_types() + spec_afsa_license_types() + spec_aifc_registrar_license_types(), spec_alatau_admin_license_types());
    assert(spec_kazakhstan_license_types() =~= spec_ardfm_license_types() + spec_nbrk_license_types() + spec_afsa_license_types() + spec_aifc_registrar_license_types() + spec_alatau_admin_license_types());
}

} // verus!
