//! # Kenya Regulatory Authority License Mappings
//!
//! Kenya-specific license type definitions covering the four major
//! regulatory authorities:
//!
//! | Authority | Full Name | Domain |
//! |-----------|-----------|--------|
//! | **CBK** | Central Bank of Kenya | Banking, Payments |
//! | **CMA** | Capital Markets Authority | Securities, Investment |
//! | **IRA** | Insurance Regulatory Authority | Insurance |
//! | **NSE** | Nairobi Securities Exchange | Listed Company Compliance |
//!
//! Each authority is represented as a [`LicensepackRegulator`] with its
//! associated [`LicenseTypeDefinition`] entries. These definitions provide
//! the Kenya-specific license taxonomy used by the compliance tensor's
//! LICENSING domain evaluation.

use vstd::prelude::*;

use crate::license::{
    license_type, license_type_view, license_types_view, regulator, regulator_view,
    regulators_view, LicenseTypeDefinition, LicenseTypeView, LicensepackRegulator,
    RegulatorView, RequirementValue,
    lemma_license_types_view_append, lemma_regulators_view_append,
};

use crate::catalog::{
    apart_each, id_fresh_each, ids_distinct_each, lemma_apart_each, lemma_ids_apart_append, lemma_ids_distinct_append, lemma_ids_distinct_each, license_type_ids_apart, license_type_ids_distinct, complete_each, every_regulator_grants, granted_by_each, granted_by_listed_regulators, grants_each, grants_some, in_jurisdiction_each, lemma_complete_append, lemma_complete_each, lemma_every_combine, lemma_granted_by_each, lemma_granted_combine, lemma_grants_each, lemma_in_jurisdiction_append, lemma_in_jurisdiction_each, license_types_complete, regulators_in_jurisdiction,
};

use crate::catalog::{
    lemma_prefixed_append, lemma_prefixed_each, license_type_id_prefixed, license_type_ids_prefixed,
    prefixed_each,
};

verus! {

/// The view of `cbk_regulator`.
pub open spec fn spec_cbk_regulator() -> RegulatorView {
    regulator_view(
        "ke-cbk"@,
        "Central Bank of Kenya"@,
        "ke"@,
        Some("https://www.centralbank.go.ke"@),
        seq!["bank_registry"@, "license_status"@],
    )
}

/// CBK regulator profile.
pub fn cbk_regulator() -> (r: LicensepackRegulator)
    ensures
        r@ == spec_cbk_regulator(),
        r@ == regulator_view(
            "ke-cbk"@,
            "Central Bank of Kenya"@,
            "ke"@,
            Some("https://www.centralbank.go.ke"@),
            seq!["bank_registry"@, "license_status"@],
        ),
{
    let r =
        regulator(
            "ke-cbk",
            "Central Bank of Kenya",
            "ke",
            Some("https://www.centralbank.go.ke"),
            &["bank_registry", "license_status"],
        );
    proof {
        assert(r@ =~~= spec_cbk_regulator());
    }
    r
}

/// The view of `cbk_license_types`.
pub open spec fn spec_cbk_license_types() -> Seq<LicenseTypeView> {
    seq![
        license_type_view(
            "ke-cbk:commercial-bank"@,
            "Commercial Banking License"@,
            "License to operate as a commercial bank under the Banking Act"@,
            "ke-cbk"@,
            Some("financial"@),
            seq!["deposit_taking"@, "lending"@, "trade_finance"@, "foreign_exchange"@, "payment_services"@],
            seq![],
            seq![("KES"@, "100000"@)],
            seq![("KES"@, "500000"@)],
            None,
        ),
        license_type_view(
            "ke-cbk:microfinance-bank"@,
            "Microfinance Bank License"@,
            "License to operate as a microfinance bank under the Microfinance Act 2006"@,
            "ke-cbk"@,
            Some("financial"@),
            seq!["micro_lending"@, "micro_deposit_taking"@, "micro_insurance_agency"@],
            seq![],
            seq![],
            seq![],
            None,
        ),
        license_type_view(
            "ke-cbk:mortgage-finance"@,
            "Mortgage Finance Company License"@,
            "License to operate as a mortgage finance company in Kenya"@,
            "ke-cbk"@,
            Some("financial"@),
            seq!["mortgage_lending"@, "deposit_taking"@],
            seq![],
            seq![],
            seq![],
            None,
        ),
        license_type_view(
            "ke-cbk:forex-dealer"@,
            "Foreign Exchange Dealer License"@,
            "License to operate as a forex bureau in Kenya"@,
            "ke-cbk"@,
            Some("financial"@),
            seq!["foreign_exchange"@, "currency_exchange"@],
            seq![],
            seq![("KES"@, "50000"@)],
            seq![("KES"@, "100000"@)],
            Some(1i32),
        ),
        license_type_view(
            "ke-cbk:money-remittance"@,
            "Money Remittance License"@,
            "License to provide money remittance services in Kenya"@,
            "ke-cbk"@,
            Some("financial"@),
            seq!["remittance"@, "money_transfer"@],
            seq![],
            seq![],
            seq![],
            Some(3i32),
        ),
        license_type_view(
            "ke-cbk:payment-service-provider"@,
            "Payment Service Provider License"@,
            "License to provide payment services under the National Payment System Act"@,
            "ke-cbk"@,
            Some("financial"@),
            seq!["payment_processing"@, "mobile_payments"@, "e_money"@],
            seq![],
            seq![],
            seq![],
            Some(3i32),
        ),
        license_type_view(
            "ke-cbk:digital-credit-provider"@,
            "Digital Credit Provider License"@,
            "License to provide digital credit services in Kenya under CBK Act"@,
            "ke-cbk"@,
            Some("financial"@),
            seq!["digital_lending"@, "credit_scoring"@],
            seq![],
            seq![],
            seq![],
            Some(1i32),
        )
    ]
}

/// CBK license type definitions.
pub fn cbk_license_types() -> (r: Vec<LicenseTypeDefinition>)
    ensures
        license_types_view(r@) == spec_cbk_license_types(),
        license_types_view(r@) == seq![
            license_type_view(
                "ke-cbk:commercial-bank"@,
                "Commercial Banking License"@,
                "License to operate as a commercial bank under the Banking Act"@,
                "ke-cbk"@,
                Some("financial"@),
                seq!["deposit_taking"@, "lending"@, "trade_finance"@, "foreign_exchange"@, "payment_services"@],
                seq![],
                seq![("KES"@, "100000"@)],
                seq![("KES"@, "500000"@)],
                None,
            ),
            license_type_view(
                "ke-cbk:microfinance-bank"@,
                "Microfinance Bank License"@,
                "License to operate as a microfinance bank under the Microfinance Act 2006"@,
                "ke-cbk"@,
                Some("financial"@),
                seq!["micro_lending"@, "micro_deposit_taking"@, "micro_insurance_agency"@],
                seq![],
                seq![],
                seq![],
                None,
            ),
            license_type_view(
                "ke-cbk:mortgage-finance"@,
                "Mortgage Finance Company License"@,
                "License to operate as a mortgage finance company in Kenya"@,
                "ke-cbk"@,
                Some("financial"@),
                seq!["mortgage_lending"@, "deposit_taking"@],
                seq![],
                seq![],
                seq![],
                None,
            ),
            license_type_view(
                "ke-cbk:forex-dealer"@,
                "Foreign Exchange Dealer License"@,
                "License to operate as a forex bureau in Kenya"@,
                "ke-cbk"@,
                Some("financial"@),
                seq!["foreign_exchange"@, "currency_exchange"@],
                seq![],
                seq![("KES"@, "50000"@)],
                seq![("KES"@, "100000"@)],
                Some(1i32),
            ),
            license_type_view(
                "ke-cbk:money-remittance"@,
                "Money Remittance License"@,
                "License to provide money remittance services in Kenya"@,
                "ke-cbk"@,
                Some("financial"@),
                seq!["remittance"@, "money_transfer"@],
                seq![],
                seq![],
                seq![],
                Some(3i32),
            ),
            license_type_view(
                "ke-cbk:payment-service-provider"@,
                "Payment Service Provider License"@,
                "License to provide payment services under the National Payment System Act"@,
                "ke-cbk"@,
                Some("financial"@),
                seq!["payment_processing"@, "mobile_payments"@, "e_money"@],
                seq![],
                seq![],
                seq![],
                Some(3i32),
            ),
            license_type_view(
                "ke-cbk:digital-credit-provider"@,
                "Digital Credit Provider License"@,
                "License to provide digital credit services in Kenya under CBK Act"@,
                "ke-cbk"@,
                Some("financial"@),
                seq!["digital_lending"@, "credit_scoring"@],
                seq![],
                seq![],
                seq![],
                Some(1i32),
            )
        ],
{
    let r = vec![
        license_type(
            "ke-cbk:commercial-bank",
            "Commercial Banking License",
            "License to operate as a commercial bank under the Banking Act",
            "ke-cbk",
            Some("financial"),
            &["deposit_taking", "lending", "trade_finance", "foreign_exchange", "payment_services"],
            &[],
            &[("KES", "100000")],
            &[("KES", "500000")],
            None,
        ),
        license_type(
            "ke-cbk:microfinance-bank",
            "Microfinance Bank License",
            "License to operate as a microfinance bank under the Microfinance Act 2006",
            "ke-cbk",
            Some("financial"),
            &["micro_lending", "micro_deposit_taking", "micro_insurance_agency"],
            &[],
            &[],
            &[],
            None,
        ),
        license_type(
            "ke-cbk:mortgage-finance",
            "Mortgage Finance Company License",
            "License to operate as a mortgage finance company in Kenya",
            "ke-cbk",
            Some("financial"),
            &["mortgage_lending", "deposit_taking"],
            &[],
            &[],
            &[],
            None,
        ),
        license_type(
            "ke-cbk:forex-dealer",
            "Foreign Exchange Dealer License",
            "License to operate as a forex bureau in Kenya",
            "ke-cbk",
            Some("financial"),
            &["foreign_exchange", "currency_exchange"],
            &[],
            &[("KES", "50000")],
            &[("KES", "100000")],
            Some(1i32),
        ),
        license_type(
            "ke-cbk:money-remittance",
            "Money Remittance License",
            "License to provide money remittance services in Kenya",
            "ke-cbk",
            Some("financial"),
            &["remittance", "money_transfer"],
            &[],
            &[],
            &[],
            Some(3i32),
        ),
        license_type(
            "ke-cbk:payment-service-provider",
            "Payment Service Provider License",
            "License to provide payment services under the National Payment System Act",
            "ke-cbk",
            Some("financial"),
            &["payment_processing", "mobile_payments", "e_money"],
            &[],
            &[],
            &[],
            Some(3i32),
        ),
        license_type(
            "ke-cbk:digital-credit-provider",
            "Digital Credit Provider License",
            "License to provide digital credit services in Kenya under CBK Act",
            "ke-cbk",
            Some("financial"),
            &["digital_lending", "credit_scoring"],
            &[],
            &[],
            &[],
            Some(1i32),
        )
    ];
    proof {
        assert(license_types_view(r@) =~~= spec_cbk_license_types());
    }
    r
}

/// The view of `cma_regulator`.
pub open spec fn spec_cma_regulator() -> RegulatorView {
    regulator_view(
        "ke-cma"@,
        "Capital Markets Authority"@,
        "ke"@,
        Some("https://www.cma.or.ke"@),
        seq!["licensee_directory"@],
    )
}

/// CMA regulator profile.
pub fn cma_regulator() -> (r: LicensepackRegulator)
    ensures
        r@ == spec_cma_regulator(),
        r@ == regulator_view(
            "ke-cma"@,
            "Capital Markets Authority"@,
            "ke"@,
            Some("https://www.cma.or.ke"@),
            seq!["licensee_directory"@],
        ),
{
    let r =
        regulator(
            "ke-cma",
            "Capital Markets Authority",
            "ke",
            Some("https://www.cma.or.ke"),
            &["licensee_directory"],
        );
    proof {
        assert(r@ =~~= spec_cma_regulator());
    }
    r
}

/// The view of `cma_license_types`.
pub open spec fn spec_cma_license_types() -> Seq<LicenseTypeView> {
    seq![
        license_type_view(
            "ke-cma:stockbroker"@,
            "Stockbroker License"@,
            "License to operate as a stockbroker in Kenya"@,
            "ke-cma"@,
            Some("financial"@),
            seq!["securities_brokerage"@, "order_execution"@, "trading"@],
            seq![],
            seq![("KES"@, "50000"@)],
            seq![("KES"@, "200000"@)],
            Some(1i32),
        ),
        license_type_view(
            "ke-cma:dealer"@,
            "Securities Dealer License"@,
            "License to deal in securities in Kenya"@,
            "ke-cma"@,
            Some("financial"@),
            seq!["securities_dealing"@, "proprietary_trading"@],
            seq![],
            seq![],
            seq![],
            Some(1i32),
        ),
        license_type_view(
            "ke-cma:investment-bank"@,
            "Investment Bank License"@,
            "License to operate as an investment bank in Kenya"@,
            "ke-cma"@,
            Some("financial"@),
            seq!["underwriting"@, "advisory"@, "corporate_finance"@],
            seq![],
            seq![],
            seq![],
            Some(1i32),
        ),
        license_type_view(
            "ke-cma:fund-manager"@,
            "Fund Manager License"@,
            "License to manage collective investment schemes in Kenya"@,
            "ke-cma"@,
            Some("financial"@),
            seq!["fund_management"@, "portfolio_management"@],
            seq![],
            seq![],
            seq![],
            Some(1i32),
        ),
        license_type_view(
            "ke-cma:investment-adviser"@,
            "Investment Adviser License"@,
            "License to provide investment advisory services in Kenya"@,
            "ke-cma"@,
            Some("financial"@),
            seq!["investment_advisory"@, "financial_planning"@],
            seq![],
            seq![],
            seq![],
            Some(1i32),
        ),
        license_type_view(
            "ke-cma:credit-rating-agency"@,
            "Credit Rating Agency License"@,
            "License to operate as a credit rating agency in Kenya"@,
            "ke-cma"@,
            Some("financial"@),
            seq!["credit_rating"@, "rating_advisory"@],
            seq![],
            seq![],
            seq![],
            Some(1i32),
        ),
        license_type_view(
            "ke-cma:securities-exchange"@,
            "Securities Exchange License"@,
            "License to operate a securities exchange in Kenya"@,
            "ke-cma"@,
            Some("financial"@),
            seq!["exchange_operations"@, "listing_services"@, "market_surveillance"@],
            seq![],
            seq![],
            seq![],
            None,
        )
    ]
}

/// CMA license type definitions.
pub fn cma_license_types() -> (r: Vec<LicenseTypeDefinition>)
    ensures
        license_types_view(r@) == spec_cma_license_types(),
        license_types_view(r@) == seq![
            license_type_view(
                "ke-cma:stockbroker"@,
                "Stockbroker License"@,
                "License to operate as a stockbroker in Kenya"@,
                "ke-cma"@,
                Some("financial"@),
                seq!["securities_brokerage"@, "order_execution"@, "trading"@],
                seq![],
                seq![("KES"@, "50000"@)],
                seq![("KES"@, "200000"@)],
                Some(1i32),
            ),
            license_type_view(
                "ke-cma:dealer"@,
                "Securities Dealer License"@,
                "License to deal in securities in Kenya"@,
                "ke-cma"@,
                Some("financial"@),
                seq!["securities_dealing"@, "proprietary_trading"@],
                seq![],
                seq![],
                seq![],
                Some(1i32),
            ),
            license_type_view(
                "ke-cma:investment-bank"@,
                "Investment Bank License"@,
                "License to operate as an investment bank in Kenya"@,
                "ke-cma"@,
                Some("financial"@),
                seq!["underwriting"@, "advisory"@, "corporate_finance"@],
                seq![],
                seq![],
                seq![],
                Some(1i32),
            ),
            license_type_view(
                "ke-cma:fund-manager"@,
                "Fund Manager License"@,
                "License to manage collective investment schemes in Kenya"@,
                "ke-cma"@,
                Some("financial"@),
                seq!["fund_management"@, "portfolio_management"@],
                seq![],
                seq![],
                seq![],
                Some(1i32),
            ),
            license_type_view(
                "ke-cma:investment-adviser"@,
                "Investment Adviser License"@,
                "License to provide investment advisory services in Kenya"@,
                "ke-cma"@,
                Some("financial"@),
                seq!["investment_advisory"@, "financial_planning"@],
                seq![],
                seq![],
                seq![],
                Some(1i32),
            ),
            license_type_view(
                "ke-cma:credit-rating-agency"@,
                "Credit Rating Agency License"@,
                "License to operate as a credit rating agency in Kenya"@,
                "ke-cma"@,
                Some("financial"@),
                seq!["credit_rating"@, "rating_advisory"@],
                seq![],
                seq![],
                seq![],
                Some(1i32),
            ),
            license_type_view(
                "ke-cma:securities-exchange"@,
                "Securities Exchange License"@,
                "License to operate a securities exchange in Kenya"@,
                "ke-cma"@,
                Some("financial"@),
                seq!["exchange_operations"@, "listing_services"@, "market_surveillance"@],
                seq![],
                seq![],
                seq![],
                None,
            )
        ],
{
    let r = vec![
        license_type(
            "ke-cma:stockbroker",
            "Stockbroker License",
            "License to operate as a stockbroker in Kenya",
            "ke-cma",
            Some("financial"),
            &["securities_brokerage", "order_execution", "trading"],
            &[],
            &[("KES", "50000")],
            &[("KES", "200000")],
            Some(1i32),
        ),
        license_type(
            "ke-cma:dealer",
            "Securities Dealer License",
            "License to deal in securities in Kenya",
            "ke-cma",
            Some("financial"),
            &["securities_dealing", "proprietary_trading"],
            &[],
            &[],
            &[],
            Some(1i32),
        ),
        license_type(
            "ke-cma:investment-bank",
            "Investment Bank License",
            "License to operate as an investment bank in Kenya",
            "ke-cma",
            Some("financial"),
            &["underwriting", "advisory", "corporate_finance"],
            &[],
            &[],
            &[],
            Some(1i32),
        ),
        license_type(
            "ke-cma:fund-manager",
            "Fund Manager License",
            "License to manage collective investment schemes in Kenya",
            "ke-cma",
            Some("financial"),
            &["fund_management", "portfolio_management"],
            &[],
            &[],
            &[],
            Some(1i32),
        ),
        license_type(
            "ke-cma:investment-adviser",
            "Investment Adviser License",
            "License to provide investment advisory services in Kenya",
            "ke-cma",
            Some("financial"),
            &["investment_advisory", "financial_planning"],
            &[],
            &[],
            &[],
            Some(1i32),
        ),
        license_type(
            "ke-cma:credit-rating-agency",
            "Credit Rating Agency License",
            "License to operate as a credit rating agency in Kenya",
            "ke-cma",
            Some("financial"),
            &["credit_rating", "rating_advisory"],
            &[],
            &[],
            &[],
            Some(1i32),
        ),
        license_type(
            "ke-cma:securities-exchange",
            "Securities Exchange License",
            "License to operate a securities exchange in Kenya",
            "ke-cma",
            Some("financial"),
            &["exchange_operations", "listing_services", "market_surveillance"],
            &[],
            &[],
            &[],
            None,
        )
    ];
    proof {
        assert(license_types_view(r@) =~~= spec_cma_license_types());
    }
    r
}

/// The view of `ira_regulator`.
pub open spec fn spec_ira_regulator() -> RegulatorView {
    regulator_view(
        "ke-ira"@,
        "Insurance Regulatory Authority"@,
        "ke"@,
        Some("https://www.ira.go.ke"@),
        seq!["insurer_registry"@],
    )
}

/// IRA regulator profile.
pub fn ira_regulator() -> (r: LicensepackRegulator)
    ensures
        r@ == spec_ira_regulator(),
        r@ == regulator_view(
            "ke-ira"@,
            "Insurance Regulatory Authority"@,
            "ke"@,
            Some("https://www.ira.go.ke"@),
            seq!["insurer_registry"@],
        ),
{
    let r =
        regulator(
            "ke-ira",
            "Insurance Regulatory Authority",
            "ke",
            Some("https://www.ira.go.ke"),
            &["insurer_registry"],
        );
    proof {
        assert(r@ =~~= spec_ira_regulator());
    }
    r
}

/// The view of `ira_license_types`.
pub open spec fn spec_ira_license_types() -> Seq<LicenseTypeView> {
    seq![
        license_type_view(
            "ke-ira:general-insurer"@,
            "General Insurance Company License"@,
            "License to carry on general insurance business in Kenya"@,
            "ke-ira"@,
            Some("insurance"@),
            seq!["general_insurance"@, "property_insurance"@, "motor_insurance"@],
            seq![],
            seq![],
            seq![],
            Some(1i32),
        ),
        license_type_view(
            "ke-ira:life-insurer"@,
            "Life Insurance Company License"@,
            "License to carry on life insurance business in Kenya"@,
            "ke-ira"@,
            Some("insurance"@),
            seq!["life_insurance"@, "annuities"@, "pension_products"@],
            seq![],
            seq![],
            seq![],
            Some(1i32),
        ),
        license_type_view(
            "ke-ira:insurance-broker"@,
            "Insurance Broker License"@,
            "License to operate as an insurance broker in Kenya"@,
            "ke-ira"@,
            Some("insurance"@),
            seq!["insurance_brokerage"@, "risk_advisory"@],
            seq![],
            seq![],
            seq![],
            Some(1i32),
        ),
        license_type_view(
            "ke-ira:insurance-agent"@,
            "Insurance Agent License"@,
            "License to operate as an insurance agent in Kenya"@,
            "ke-ira"@,
            Some("insurance"@),
            seq!["insurance_sales"@, "policy_servicing"@],
            seq![],
            seq![],
            seq![],
            Some(1i32),
        ),
        license_type_view(
            "ke-ira:reinsurer"@,
            "Reinsurance License"@,
            "License to conduct reinsurance business in Kenya"@,
            "ke-ira"@,
            Some("insurance"@),
            seq!["reinsurance"@, "retrocession"@],
            seq![],
            seq![],
            seq![],
            Some(1i32),
        )
    ]
}

/// IRA license type definitions.
pub fn ira_license_types() -> (r: Vec<LicenseTypeDefinition>)
    ensures
        license_types_view(r@) == spec_ira_license_types(),
        license_types_view(r@) == seq![
            license_type_view(
                "ke-ira:general-insurer"@,
                "General Insurance Company License"@,
                "License to carry on general insurance business in Kenya"@,
                "ke-ira"@,
                Some("insurance"@),
                seq!["general_insurance"@, "property_insurance"@, "motor_insurance"@],
                seq![],
                seq![],
                seq![],
                Some(1i32),
            ),
            license_type_view(
                "ke-ira:life-insurer"@,
                "Life Insurance Company License"@,
                "License to carry on life insurance business in Kenya"@,
                "ke-ira"@,
                Some("insurance"@),
                seq!["life_insurance"@, "annuities"@, "pension_products"@],
                seq![],
                seq![],
                seq![],
                Some(1i32),
            ),
            license_type_view(
                "ke-ira:insurance-broker"@,
                "Insurance Broker License"@,
                "License to operate as an insurance broker in Kenya"@,
                "ke-ira"@,
                Some("insurance"@),
                seq!["insurance_brokerage"@, "risk_advisory"@],
                seq![],
                seq![],
                seq![],
                Some(1i32),
            ),
            license_type_view(
                "ke-ira:insurance-agent"@,
                "Insurance Agent License"@,
                "License to operate as an insurance agent in Kenya"@,
                "ke-ira"@,
                Some("insurance"@),
                seq!["insurance_sales"@, "policy_servicing"@],
                seq![],
                seq![],
                seq![],
                Some(1i32),
            ),
            license_type_view(
                "ke-ira:reinsurer"@,
                "Reinsurance License"@,
                "License to conduct reinsurance business in Kenya"@,
                "ke-ira"@,
                Some("insurance"@),
                seq!["reinsurance"@, "retrocession"@],
                seq![],
                seq![],
                seq![],
                Some(1i32),
            )
        ],
{
    let r = vec![
        license_type(
            "ke-ira:general-insurer",
            "General Insurance Company License",
            "License to carry on general insurance business in Kenya",
            "ke-ira",
            Some("insurance"),
            &["general_insurance", "property_insurance", "motor_insurance"],
            &[],
            &[],
            &[],
            Some(1i32),
        ),
        license_type(
            "ke-ira:life-insurer",
            "Life Insurance Company License",
            "License to carry on life insurance business in Kenya",
            "ke-ira",
            Some("insurance"),
            &["life_insurance", "annuities", "pension_products"],
            &[],
            &[],
            &[],
            Some(1i32),
        ),
        license_type(
            "ke-ira:insurance-broker",
            "Insurance Broker License",
            "License to operate as an insurance broker in Kenya",
            "ke-ira",
            Some("insurance"),
            &["insurance_brokerage", "risk_advisory"],
            &[],
            &[],
            &[],
            Some(1i32),
        ),
        license_type(
            "ke-ira:insurance-agent",
            "Insurance Agent License",
            "License to operate as an insurance agent in Kenya",
            "ke-ira",
            Some("insurance"),
            &["insurance_sales", "policy_servicing"],
            &[],
            &[],
            &[],
            Some(1i32),
        ),
        license_type(
            "ke-ira:reinsurer",
            "Reinsurance License",
            "License to conduct reinsurance business in Kenya",
            "ke-ira",
            Some("insurance"),
            &["reinsurance", "retrocession"],
            &[],
            &[],
            &[],
            Some(1i32),
        )
    ];
    proof {
        assert(license_types_view(r@) =~~= spec_ira_license_types());
    }
    r
}

/// The view of `nse_regulator`.
pub open spec fn spec_nse_regulator() -> RegulatorView {
    regulator_view(
        "ke-nse"@,
        "Nairobi Securities Exchange"@,
        "ke"@,
        Some("https://www.nse.co.ke"@),
        seq!["listed_company_search"@],
    )
}

/// NSE regulator profile.
pub fn nse_regulator() -> (r: LicensepackRegulator)
    ensures
        r@ == spec_nse_regulator(),
        r@ == regulator_view(
            "ke-nse"@,
            "Nairobi Securities Exchange"@,
            "ke"@,
            Some("https://www.nse.co.ke"@),
            seq!["listed_company_search"@],
        ),
{
    let r =
        regulator(
            "ke-nse",
            "Nairobi Securities Exchange",
            "ke",
            Some("https://www.nse.co.ke"),
            &["listed_company_search"],
        );
    proof {
        assert(r@ =~~= spec_nse_regulator());
    }
    r
}

/// The view of `nse_license_types`.
pub open spec fn spec_nse_license_types() -> Seq<LicenseTypeView> {
    seq![
        license_type_view(
            "ke-nse:listed-company"@,
            "Listed Company Compliance"@,
            "Ongoing compliance obligations for companies listed on the Nairobi Securities Exchange"@,
            "ke-nse"@,
            Some("corporate"@),
            seq!["public_listing"@, "capital_raising"@, "securities_issuance"@],
            seq![],
            seq![],
            seq![("KES"@, "500000"@)],
            None,
        )
    ]
}

/// NSE license type definitions.
pub fn nse_license_types() -> (r: Vec<LicenseTypeDefinition>)
    ensures
        license_types_view(r@) == spec_nse_license_types(),
        license_types_view(r@) == seq![
            license_type_view(
                "ke-nse:listed-company"@,
                "Listed Company Compliance"@,
                "Ongoing compliance obligations for companies listed on the Nairobi Securities Exchange"@,
                "ke-nse"@,
                Some("corporate"@),
                seq!["public_listing"@, "capital_raising"@, "securities_issuance"@],
                seq![],
                seq![],
                seq![("KES"@, "500000"@)],
                None,
            )
        ],
{
    let r = vec![
        license_type(
            "ke-nse:listed-company",
            "Listed Company Compliance",
            "Ongoing compliance obligations for companies listed on the Nairobi Securities Exchange",
            "ke-nse",
            Some("corporate"),
            &["public_listing", "capital_raising", "securities_issuance"],
            &[],
            &[],
            &[("KES", "500000")],
            None,
        )
    ];
    proof {
        assert(license_types_view(r@) =~~= spec_nse_license_types());
    }
    r
}

/// The view of `kenya_regulators`.
pub open spec fn spec_kenya_regulators() -> Seq<RegulatorView> {
    seq![spec_cbk_regulator(), spec_cma_regulator(), spec_ira_regulator(), spec_nse_regulator()]
}

/// All Kenya regulatory authorities.
pub fn kenya_regulators() -> (r: Vec<LicensepackRegulator>)
    ensures
        regulators_view(r@) == spec_kenya_regulators(),
        regulators_view(r@) == seq![spec_cbk_regulator(), spec_cma_regulator(), spec_ira_regulator(), spec_nse_regulator()],
{
    let r = vec![cbk_regulator(), cma_regulator(), ira_regulator(), nse_regulator()];
    proof {
        assert(regulators_view(r@) =~~= spec_kenya_regulators());
    }
    r
}

/// The view of `kenya_license_types`.
pub open spec fn spec_kenya_license_types() -> Seq<LicenseTypeView> {
    spec_cbk_license_types()
        + spec_cma_license_types()
        + spec_ira_license_types()
        + spec_nse_license_types()
}

/// All Kenya license type definitions across all authorities.
pub fn kenya_license_types() -> (r: Vec<LicenseTypeDefinition>)
    ensures
        license_types_view(r@) == spec_kenya_license_types(),
        license_types_view(r@) == spec_cbk_license_types()
            + spec_cma_license_types()
            + spec_ira_license_types()
            + spec_nse_license_types(),
{
    let mut all: Vec<LicenseTypeDefinition> = Vec::new();
    proof {
        assert(license_types_view(all@) =~= Seq::<LicenseTypeView>::empty());
    }
    let ghost before = all@;
    let mut part = cbk_license_types();
    let ghost added = part@;
    all.append(&mut part);
    proof {
        lemma_license_types_view_append(before, added);
        assert(license_types_view(all@) =~= spec_cbk_license_types());
    }
    let ghost before = all@;
    let mut part = cma_license_types();
    let ghost added = part@;
    all.append(&mut part);
    proof {
        lemma_license_types_view_append(before, added);
        assert(license_types_view(all@) =~= spec_cbk_license_types() + spec_cma_license_types());
    }
    let ghost before = all@;
    let mut part = ira_license_types();
    let ghost added = part@;
    all.append(&mut part);
    proof {
        lemma_license_types_view_append(before, added);
        assert(license_types_view(all@) =~= spec_cbk_license_types() + spec_cma_license_types() + spec_ira_license_types());
    }
    let ghost before = all@;
    let mut part = nse_license_types();
    let ghost added = part@;
    all.append(&mut part);
    proof {
        lemma_license_types_view_append(before, added);
        assert(license_types_view(all@) =~= spec_cbk_license_types() + spec_cma_license_types() + spec_ira_license_types() + spec_nse_license_types());
    }
    all
}

/// The licence types of `cbk_license_types` are complete, granted by its regulators, and
/// each of its regulators grants at least one of them.
proof fn lemma_cbk_group()
    ensures
        license_types_complete(spec_cbk_license_types()),
        granted_by_listed_regulators(spec_cbk_license_types(), seq![spec_cbk_regulator()]),
        every_regulator_grants(spec_cbk_license_types(), seq![spec_cbk_regulator()]),
        regulators_in_jurisdiction(seq![spec_cbk_regulator()], "ke"@),
{
    assert(complete_each(spec_cbk_license_types())) by {
        reveal_strlit("ke-cbk:commercial-bank");
        reveal_strlit("Commercial Banking License");
        reveal_strlit("License to operate as a commercial bank under the Banking Act");
        reveal_strlit("ke-cbk");
        reveal_strlit("ke-cbk:microfinance-bank");
        reveal_strlit("Microfinance Bank License");
        reveal_strlit("License to operate as a microfinance bank under the Microfinance Act 2006");
        reveal_strlit("ke-cbk:mortgage-finance");
        reveal_strlit("Mortgage Finance Company License");
        reveal_strlit("License to operate as a mortgage finance company in Kenya");
        reveal_strlit("ke-cbk:forex-dealer");
        reveal_strlit("Foreign Exchange Dealer License");
        reveal_strlit("License to operate as a forex bureau in Kenya");
        reveal_strlit("ke-cbk:money-remittance");
        reveal_strlit("Money Remittance License");
        reveal_strlit("License to provide money remittance services in Kenya");
        reveal_strlit("ke-cbk:payment-service-provider");
        reveal_strlit("Payment Service Provider License");
        reveal_strlit("License to provide payment services under the National Payment System Act");
        reveal_strlit("ke-cbk:digital-credit-provider");
        reveal_strlit("Digital Credit Provider License");
        reveal_strlit("License to provide digital credit services in Kenya under CBK Act");
        reveal_with_fuel(complete_each, 8);
    }
    lemma_complete_each(spec_cbk_license_types());
    assert(granted_by_each(spec_cbk_license_types(), seq![spec_cbk_regulator()][0].regulator_id)) by {
        reveal_with_fuel(granted_by_each, 8);
    }
    lemma_granted_by_each(spec_cbk_license_types(), seq![spec_cbk_regulator()], 0);
    assert(grants_some(spec_cbk_license_types(), seq![spec_cbk_regulator()][0].regulator_id)) by {
        assert(spec_cbk_license_types()[0].regulator_id == seq![spec_cbk_regulator()][0].regulator_id);
    }
    assert(grants_each(spec_cbk_license_types(), seq![spec_cbk_regulator()])) by {
        reveal_with_fuel(grants_each, 2);
    }
    lemma_grants_each(spec_cbk_license_types(), seq![spec_cbk_regulator()]);
    assert(in_jurisdiction_each(seq![spec_cbk_regulator()], "ke"@)) by {
        reveal_with_fuel(in_jurisdiction_each, 2);
    }
    lemma_in_jurisdiction_each(seq![spec_cbk_regulator()], "ke"@);
}

/// The licence types of `cma_license_types` are complete, granted by its regulators, and
/// each of its regulators grants at least one of them.
proof fn lemma_cma_group()
    ensures
        license_types_complete(spec_cma_license_types()),
        granted_by_listed_regulators(spec_cma_license_types(), seq![spec_cma_regulator()]),
        every_regulator_grants(spec_cma_license_types(), seq![spec_cma_regulator()]),
        regulators_in_jurisdiction(seq![spec_cma_regulator()], "ke"@),
{
    assert(complete_each(spec_cma_license_types())) by {
        reveal_strlit("ke-cma:stockbroker");
        reveal_strlit("Stockbroker License");
        reveal_strlit("License to operate as a stockbroker in Kenya");
        reveal_strlit("ke-cma");
        reveal_strlit("ke-cma:dealer");
        reveal_strlit("Securities Dealer License");
        reveal_strlit("License to deal in securities in Kenya");
        reveal_strlit("ke-cma:investment-bank");
        reveal_strlit("Investment Bank License");
        reveal_strlit("License to operate as an investment bank in Kenya");
        reveal_strlit("ke-cma:fund-manager");
        reveal_strlit("Fund Manager License");
        reveal_strlit("License to manage collective investment schemes in Kenya");
        reveal_strlit("ke-cma:investment-adviser");
        reveal_strlit("Investment Adviser License");
        reveal_strlit("License to provide investment advisory services in Kenya");
        reveal_strlit("ke-cma:credit-rating-agency");
        reveal_strlit("Credit Rating Agency License");
        reveal_strlit("License to operate as a credit rating agency in Kenya");
        reveal_strlit("ke-cma:securities-exchange");
        reveal_strlit("Securities Exchange License");
        reveal_strlit("License to operate a securities exchange in Kenya");
        reveal_with_fuel(complete_each, 8);
    }
    lemma_complete_each(spec_cma_license_types());
    assert(granted_by_each(spec_cma_license_types(), seq![spec_cma_regulator()][0].regulator_id)) by {
        reveal_with_fuel(granted_by_each, 8);
    }
    lemma_granted_by_each(spec_cma_license_types(), seq![spec_cma_regulator()], 0);
    assert(grants_some(spec_cma_license_types(), seq![spec_cma_regulator()][0].regulator_id)) by {
        assert(spec_cma_license_types()[0].regulator_id == seq![spec_cma_regulator()][0].regulator_id);
    }
    assert(grants_each(spec_cma_license_types(), seq![spec_cma_regulator()])) by {
        reveal_with_fuel(grants_each, 2);
    }
    lemma_grants_each(spec_cma_license_types(), seq![spec_cma_regulator()]);
    assert(in_jurisdiction_each(seq![spec_cma_regulator()], "ke"@)) by {
        reveal_with_fuel(in_jurisdiction_each, 2);
    }
    lemma_in_jurisdiction_each(seq![spec_cma_regulator()], "ke"@);
}

/// The licence types of `ira_license_types` are complete, granted by its regulators, and
/// each of its regulators grants at least one of them.
proof fn lemma_ira_group()
    ensures
        license_types_complete(spec_ira_license_types()),
        granted_by_listed_regulators(spec_ira_license_types(), seq![spec_ira_regulator()]),
        every_regulator_grants(spec_ira_license_types(), seq![spec_ira_regulator()]),
        regulators_in_jurisdiction(seq![spec_ira_regulator()], "ke"@),
{
    assert(complete_each(spec_ira_license_types())) by {
        reveal_strlit("ke-ira:general-insurer");
        reveal_strlit("General Insurance Company License");
        reveal_strlit("License to carry on general insurance business in Kenya");
        reveal_strlit("ke-ira");
        reveal_strlit("ke-ira:life-insurer");
        reveal_strlit("Life Insurance Company License");
        reveal_strlit("License to carry on life insurance business in Kenya");
        reveal_strlit("ke-ira:insurance-broker");
        reveal_strlit("Insurance Broker License");
        reveal_strlit("License to operate as an insurance broker in Kenya");
        reveal_strlit("ke-ira:insurance-agent");
        reveal_strlit("Insurance Agent License");
        reveal_strlit("License to operate as an insurance agent in Kenya");
        reveal_strlit("ke-ira:reinsurer");
        reveal_strlit("Reinsurance License");
        reveal_strlit("License to conduct reinsurance business in Kenya");
        reveal_with_fuel(complete_each, 6);
    }
    lemma_complete_each(spec_ira_license_types());
    assert(granted_by_each(spec_ira_license_types(), seq![spec_ira_regulator()][0].regulator_id)) by {
        reveal_with_fuel(granted_by_each, 6);
    }
    lemma_granted_by_each(spec_ira_license_types(), seq![spec_ira_regulator()], 0);
    assert(grants_some(spec_ira_license_types(), seq![spec_ira_regulator()][0].regulator_id)) by {
        assert(spec_ira_license_types()[0].regulator_id == seq![spec_ira_regulator()][0].regulator_id);
    }
    assert(grants_each(spec_ira_license_types(), seq![spec_ira_regulator()])) by {
        reveal_with_fuel(grants_each, 2);
    }
    lemma_grants_each(spec_ira_license_types(), seq![spec_ira_regulator()]);
    assert(in_jurisdiction_each(seq![spec_ira_regulator()], "ke"@)) by {
        reveal_with_fuel(in_jurisdiction_each, 2);
    }
    lemma_in_jurisdiction_each(seq![spec_ira_regulator()], "ke"@);
}

/// The licence types of `nse_license_types` are complete, granted by its regulators, and
/// each of its regulators grants at least one of them.
proof fn lemma_nse_group()
    ensures
        license_types_complete(spec_nse_license_types()),
        granted_by_listed_regulators(spec_nse_license_types(), seq![spec_nse_regulator()]),
        every_regulator_grants(spec_nse_license_types(), seq![spec_nse_regulator()]),
        regulators_in_jurisdiction(seq![spec_nse_regulator()], "ke"@),
{
    assert(complete_each(spec_nse_license_types())) by {
        reveal_strlit("ke-nse:listed-company");
        reveal_strlit("Listed Company Compliance");
        reveal_strlit("Ongoing compliance obligations for companies listed on the Nairobi Securities Exchange");
        reveal_strlit("ke-nse");
        reveal_with_fuel(complete_each, 2);
    }
    lemma_complete_each(spec_nse_license_types());
    assert(granted_by_each(spec_nse_license_types(), seq![spec_nse_regulator()][0].regulator_id)) by {
        reveal_with_fuel(granted_by_each, 2);
    }
    lemma_granted_by_each(spec_nse_license_types(), seq![spec_nse_regulator()], 0);
    assert(grants_some(spec_nse_license_types(), seq![spec_nse_regulator()][0].regulator_id)) by {
        assert(spec_nse_license_types()[0].regulator_id == seq![spec_nse_regulator()][0].regulator_id);
    }
    assert(grants_each(spec_nse_license_types(), seq![spec_nse_regulator()])) by {
        reveal_with_fuel(grants_each, 2);
    }
    lemma_grants_each(spec_nse_license_types(), seq![spec_nse_regulator()]);
    assert(in_jurisdiction_each(seq![spec_nse_regulator()], "ke"@)) by {
        reveal_with_fuel(in_jurisdiction_each, 2);
    }
    lemma_in_jurisdiction_each(seq![spec_nse_regulator()], "ke"@);
}

/// The catalog of Kenya is consistent: every licence type has a non-empty identifier, name, description and
/// regulator identifier, a category, and at least one permitted activity;
/// every licence type is granted by one of its regulators;
/// every regulator grants at least one licence type;
/// every regulator belongs to jurisdiction `ke`.
pub proof fn lemma_kenya_catalog_consistent()
    ensures
        license_types_complete(spec_kenya_license_types()),
        granted_by_listed_regulators(spec_kenya_license_types(), spec_kenya_regulators()),
        every_regulator_grants(spec_kenya_license_types(), spec_kenya_regulators()),
        regulators_in_jurisdiction(spec_kenya_regulators(), "ke"@),
{
    lemma_cbk_group();
    lemma_cma_group();
    lemma_ira_group();
    lemma_nse_group();
    assert(spec_kenya_regulators() =~= seq![spec_cbk_regulator()] + seq![spec_cma_regulator()] + seq![spec_ira_regulator()] + seq![spec_nse_regulator()]);
    assert(spec_kenya_license_types() =~= spec_cbk_license_types() + spec_cma_license_types() + spec_ira_license_types() + spec_nse_license_types());
    lemma_complete_append(spec_cbk_license_types(), spec_cma_license_types());
    lemma_granted_combine(spec_cbk_license_types(), seq![spec_cbk_regulator()], spec_cma_license_types(), seq![spec_cma_regulator()]);
    lemma_every_combine(spec_cbk_license_types(), seq![spec_cbk_regulator()], spec_cma_license_types(), seq![spec_cma_regulator()]);
    lemma_in_jurisdiction_append(seq![spec_cbk_regulator()], seq![spec_cma_regulator()], "ke"@);
    lemma_complete_append(spec_cbk_license_types() + spec_cma_license_types(), spec_ira_license_types());
    lemma_granted_combine(spec_cbk_license_types() + spec_cma_license_types(), seq![spec_cbk_regulator()] + seq![spec_cma_regulator()], spec_ira_license_types(), seq![spec_ira_regulator()]);
    lemma_every_combine(spec_cbk_license_types() + spec_cma_license_types(), seq![spec_cbk_regulator()] + seq![spec_cma_regulator()], spec_ira_license_types(), seq![spec_ira_regulator()]);
    lemma_in_jurisdiction_append(seq![spec_cbk_regulator()] + seq![spec_cma_regulator()], seq![spec_ira_regulator()], "ke"@);
    lemma_complete_append(spec_cbk_license_types() + spec_cma_license_types() + spec_ira_license_types(), spec_nse_license_types());
    lemma_granted_combine(spec_cbk_license_types() + spec_cma_license_types() + spec_ira_license_types(), seq![spec_cbk_regulator()] + seq![spec_cma_regulator()] + seq![spec_ira_regulator()], spec_nse_license_types(), seq![spec_nse_regulator()]);
    lemma_every_combine(spec_cbk_license_types() + spec_cma_license_types() + spec_ira_license_types(), seq![spec_cbk_regulator()] + seq![spec_cma_regulator()] + seq![spec_ira_regulator()], spec_nse_license_types(), seq![spec_nse_regulator()]);
    lemma_in_jurisdiction_append(seq![spec_cbk_regulator()] + seq![spec_cma_regulator()] + seq![spec_ira_regulator()], seq![spec_nse_regulator()], "ke"@);
}

/// No two licence types of `cbk_license_types` share an identifier.
proof fn lemma_cbk_license_types_ids_distinct()
    ensures
        license_type_ids_distinct(spec_cbk_license_types()),
{
    let t = spec_cbk_license_types();
    assert(ids_distinct_each(t)) by {
        reveal_strlit("ke-cbk:commercial-bank");
        reveal_strlit("ke-cbk:digital-credit-provider");
        reveal_strlit("ke-cbk:forex-dealer");
        reveal_strlit("ke-cbk:microfinance-bank");
        reveal_strlit("ke-cbk:money-remittance");
        reveal_strlit("ke-cbk:mortgage-finance");
        reveal_strlit("ke-cbk:payment-service-provider");
        assert(t[0].license_type_id[7] != t[1].license_type_id[7]);
        assert(t[0].license_type_id[7] != t[2].license_type_id[7]);
        assert(t[1].license_type_id[8] != t[2].license_type_id[8]);
        assert(t[0].license_type_id[7] != t[3].license_type_id[7]);
        assert(t[1].license_type_id[7] != t[3].license_type_id[7]);
        assert(t[2].license_type_id[7] != t[3].license_type_id[7]);
        assert(t[0].license_type_id[7] != t[4].license_type_id[7]);
        assert(t[1].license_type_id[8] != t[4].license_type_id[8]);
        assert(t[2].license_type_id[9] != t[4].license_type_id[9]);
        assert(t[3].license_type_id[7] != t[4].license_type_id[7]);
        assert(t[0].license_type_id[7] != t[5].license_type_id[7]);
        assert(t[1].license_type_id[7] != t[5].license_type_id[7]);
        assert(t[2].license_type_id[7] != t[5].license_type_id[7]);
        assert(t[3].license_type_id[7] != t[5].license_type_id[7]);
        assert(t[4].license_type_id[7] != t[5].license_type_id[7]);
        assert(t[0].license_type_id[7] != t[6].license_type_id[7]);
        assert(t[1].license_type_id[7] != t[6].license_type_id[7]);
        assert(t[2].license_type_id[7] != t[6].license_type_id[7]);
        assert(t[3].license_type_id[7] != t[6].license_type_id[7]);
        assert(t[4].license_type_id[7] != t[6].license_type_id[7]);
        assert(t[5].license_type_id[7] != t[6].license_type_id[7]);
        reveal_with_fuel(ids_distinct_each, 8);
        reveal_with_fuel(id_fresh_each, 8);
    }
    lemma_ids_distinct_each(t);
}

/// No two licence types of `cma_license_types` share an identifier.
proof fn lemma_cma_license_types_ids_distinct()
    ensures
        license_type_ids_distinct(spec_cma_license_types()),
{
    let t = spec_cma_license_types();
    assert(ids_distinct_each(t)) by {
        reveal_strlit("ke-cma:credit-rating-agency");
        reveal_strlit("ke-cma:dealer");
        reveal_strlit("ke-cma:fund-manager");
        reveal_strlit("ke-cma:investment-adviser");
        reveal_strlit("ke-cma:investment-bank");
        reveal_strlit("ke-cma:securities-exchange");
        reveal_strlit("ke-cma:stockbroker");
        assert(t[0].license_type_id[7] != t[1].license_type_id[7]);
        assert(t[0].license_type_id[7] != t[2].license_type_id[7]);
        assert(t[1].license_type_id[7] != t[2].license_type_id[7]);
        assert(t[0].license_type_id[7] != t[3].license_type_id[7]);
        assert(t[1].license_type_id[7] != t[3].license_type_id[7]);
        assert(t[2].license_type_id[7] != t[3].license_type_id[7]);
        assert(t[0].license_type_id[7] != t[4].license_type_id[7]);
        assert(t[1].license_type_id[7] != t[4].license_type_id[7]);
        assert(t[2].license_type_id[18] != t[4].license_type_id[18]);
        assert(t[3].license_type_id[7] != t[4].license_type_id[7]);
        assert(t[0].license_type_id[7] != t[5].license_type_id[7]);
        assert(t[1].license_type_id[7] != t[5].license_type_id[7]);
        assert(t[2].license_type_id[7] != t[5].license_type_id[7]);
        assert(t[3].license_type_id[7] != t[5].license_type_id[7]);
        assert(t[4].license_type_id[7] != t[5].license_type_id[7]);
        assert(t[0].license_type_id[8] != t[6].license_type_id[8]);
        assert(t[1].license_type_id[7] != t[6].license_type_id[7]);
        assert(t[2].license_type_id[7] != t[6].license_type_id[7]);
        assert(t[3].license_type_id[7] != t[6].license_type_id[7]);
        assert(t[4].license_type_id[7] != t[6].license_type_id[7]);
        assert(t[5].license_type_id[7] != t[6].license_type_id[7]);
        reveal_with_fuel(ids_distinct_each, 8);
        reveal_with_fuel(id_fresh_each, 8);
    }
    lemma_ids_distinct_each(t);
}

/// No two licence types of `ira_license_types` share an identifier.
proof fn lemma_ira_license_types_ids_distinct()
    ensures
        license_type_ids_distinct(spec_ira_license_types()),
{
    let t = spec_ira_license_types();
    assert(ids_distinct_each(t)) by {
        reveal_strlit("ke-ira:general-insurer");
        reveal_strlit("ke-ira:insurance-agent");
        reveal_strlit("ke-ira:insurance-broker");
        reveal_strlit("ke-ira:life-insurer");
        reveal_strlit("ke-ira:reinsurer");
        assert(t[0].license_type_id[7] != t[1].license_type_id[7]);
        assert(t[0].license_type_id[7] != t[2].license_type_id[7]);
        assert(t[1].license_type_id[7] != t[2].license_type_id[7]);
        assert(t[0].license_type_id[7] != t[3].license_type_id[7]);
        assert(t[1].license_type_id[7] != t[3].license_type_id[7]);
        assert(t[2].license_type_id[17] != t[3].license_type_id[17]);
        assert(t[0].license_type_id[7] != t[4].license_type_id[7]);
        assert(t[1].license_type_id[7] != t[4].license_type_id[7]);
        assert(t[2].license_type_id[7] != t[4].license_type_id[7]);
        assert(t[3].license_type_id[7] != t[4].license_type_id[7]);
        reveal_with_fuel(ids_distinct_each, 6);
        reveal_with_fuel(id_fresh_each, 6);
    }
    lemma_ids_distinct_each(t);
}

/// No two licence types of `nse_license_types` share an identifier.
proof fn lemma_nse_license_types_ids_distinct()
    ensures
        license_type_ids_distinct(spec_nse_license_types()),
{
    let t = spec_nse_license_types();
    assert(ids_distinct_each(t)) by {
        reveal_strlit("ke-nse:listed-company");
        reveal_with_fuel(ids_distinct_each, 2);
        reveal_with_fuel(id_fresh_each, 2);
    }
    lemma_ids_distinct_each(t);
}

/// No licence type of `cbk_license_types` shares an identifier with one of `cma_license_types`.
proof fn lemma_cbk_license_types_apart_from_cma_license_types()
    ensures
        license_type_ids_apart(spec_cbk_license_types(), spec_cma_license_types()),
{
    let a = spec_cbk_license_types();
    let b = spec_cma_license_types();
    assert(apart_each(a, b)) by {
        reveal_strlit("ke-cbk:commercial-bank");
        reveal_strlit("ke-cbk:digital-credit-provider");
        reveal_strlit("ke-cbk:forex-dealer");
        reveal_strlit("ke-cbk:microfinance-bank");
        reveal_strlit("ke-cbk:money-remittance");
        reveal_strlit("ke-cbk:mortgage-finance");
        reveal_strlit("ke-cbk:payment-service-provider");
        reveal_strlit("ke-cma:credit-rating-agency");
        reveal_strlit("ke-cma:dealer");
        reveal_strlit("ke-cma:fund-manager");
        reveal_strlit("ke-cma:investment-adviser");
        reveal_strlit("ke-cma:investment-bank");
        reveal_strlit("ke-cma:securities-exchange");
        reveal_strlit("ke-cma:stockbroker");
        assert(a[0].license_type_id[4] != b[0].license_type_id[4]);
        assert(a[0].license_type_id[4] != b[1].license_type_id[4]);
        assert(a[0].license_type_id[4] != b[2].license_type_id[4]);
        assert(a[0].license_type_id[4] != b[3].license_type_id[4]);
        assert(a[0].license_type_id[4] != b[4].license_type_id[4]);
        assert(a[0].license_type_id[4] != b[5].license_type_id[4]);
        assert(a[0].license_type_id[4] != b[6].license_type_id[4]);
        assert(a[1].license_type_id[4] != b[0].license_type_id[4]);
        assert(a[1].license_type_id[4] != b[1].license_type_id[4]);
        assert(a[1].license_type_id[4] != b[2].license_type_id[4]);
        assert(a[1].license_type_id[4] != b[3].license_type_id[4]);
        assert(a[1].license_type_id[4] != b[4].license_type_id[4]);
        assert(a[1].license_type_id[4] != b[5].license_type_id[4]);
        assert(a[1].license_type_id[4] != b[6].license_type_id[4]);
        assert(a[2].license_type_id[4] != b[0].license_type_id[4]);
        assert(a[2].license_type_id[4] != b[1].license_type_id[4]);
        assert(a[2].license_type_id[4] != b[2].license_type_id[4]);
        assert(a[2].license_type_id[4] != b[3].license_type_id[4]);
        assert(a[2].license_type_id[4] != b[4].license_type_id[4]);
        assert(a[2].license_type_id[4] != b[5].license_type_id[4]);
        assert(a[2].license_type_id[4] != b[6].license_type_id[4]);
        assert(a[3].license_type_id[4] != b[0].license_type_id[4]);
        assert(a[3].license_type_id[4] != b[1].license_type_id[4]);
        assert(a[3].license_type_id[4] != b[2].license_type_id[4]);
        assert(a[3].license_type_id[4] != b[3].license_type_id[4]);
        assert(a[3].license_type_id[4] != b[4].license_type_id[4]);
        assert(a[3].license_type_id[4] != b[5].license_type_id[4]);
        assert(a[3].license_type_id[4] != b[6].license_type_id[4]);
        assert(a[4].license_type_id[4] != b[0].license_type_id[4]);
        assert(a[4].license_type_id[4] != b[1].license_type_id[4]);
        assert(a[4].license_type_id[4] != b[2].license_type_id[4]);
        assert(a[4].license_type_id[4] != b[3].license_type_id[4]);
        assert(a[4].license_type_id[4] != b[4].license_type_id[4]);
        assert(a[4].license_type_id[4] != b[5].license_type_id[4]);
        assert(a[4].license_type_id[4] != b[6].license_type_id[4]);
        assert(a[5].license_type_id[4] != b[0].license_type_id[4]);
        assert(a[5].license_type_id[4] != b[1].license_type_id[4]);
        assert(a[5].license_type_id[4] != b[2].license_type_id[4]);
        assert(a[5].license_type_id[4] != b[3].license_type_id[4]);
        assert(a[5].license_type_id[4] != b[4].license_type_id[4]);
        assert(a[5].license_type_id[4] != b[5].license_type_id[4]);
        assert(a[5].license_type_id[4] != b[6].license_type_id[4]);
        assert(a[6].license_type_id[4] != b[0].license_type_id[4]);
        assert(a[6].license_type_id[4] != b[1].license_type_id[4]);
        assert(a[6].license_type_id[4] != b[2].license_type_id[4]);
        assert(a[6].license_type_id[4] != b[3].license_type_id[4]);
        assert(a[6].license_type_id[4] != b[4].license_type_id[4]);
        assert(a[6].license_type_id[4] != b[5].license_type_id[4]);
        assert(a[6].license_type_id[4] != b[6].license_type_id[4]);
        reveal_with_fuel(apart_each, 8);
        reveal_with_fuel(id_fresh_each, 8);
    }
    lemma_apart_each(a, b);
}

/// No licence type of `cbk_license_types` shares an identifier with one of `ira_license_types`.
proof fn lemma_cbk_license_types_apart_from_ira_license_types()
    ensures
        license_type_ids_apart(spec_cbk_license_types(), spec_ira_license_types()),
{
    let a = spec_cbk_license_types();
    let b = spec_ira_license_types();
    assert(apart_each(a, b)) by {
        reveal_strlit("ke-cbk:commercial-bank");
        reveal_strlit("ke-cbk:digital-credit-provider");
        reveal_strlit("ke-cbk:forex-dealer");
        reveal_strlit("ke-cbk:microfinance-bank");
        reveal_strlit("ke-cbk:money-remittance");
        reveal_strlit("ke-cbk:mortgage-finance");
        reveal_strlit("ke-cbk:payment-service-provider");
        reveal_strlit("ke-ira:general-insurer");
        reveal_strlit("ke-ira:insurance-agent");
        reveal_strlit("ke-ira:insurance-broker");
        reveal_strlit("ke-ira:life-insurer");
        reveal_strlit("ke-ira:reinsurer");
        assert(a[0].license_type_id[3] != b[0].license_type_id[3]);
        assert(a[0].license_type_id[3] != b[1].license_type_id[3]);
        assert(a[0].license_type_id[3] != b[2].license_type_id[3]);
        assert(a[0].license_type_id[3] != b[3].license_type_id[3]);
        assert(a[0].license_type_id[3] != b[4].license_type_id[3]);
        assert(a[1].license_type_id[3] != b[0].license_type_id[3]);
        assert(a[1].license_type_id[3] != b[1].license_type_id[3]);
        assert(a[1].license_type_id[3] != b[2].license_type_id[3]);
        assert(a[1].license_type_id[3] != b[3].license_type_id[3]);
        assert(a[1].license_type_id[3] != b[4].license_type_id[3]);
        assert(a[2].license_type_id[3] != b[0].license_type_id[3]);
        assert(a[2].license_type_id[3] != b[1].license_type_id[3]);
        assert(a[2].license_type_id[3] != b[2].license_type_id[3]);
        assert(a[2].license_type_id[3] != b[3].license_type_id[3]);
        assert(a[2].license_type_id[3] != b[4].license_type_id[3]);
        assert(a[3].license_type_id[3] != b[0].license_type_id[3]);
        assert(a[3].license_type_id[3] != b[1].license_type_id[3]);
        assert(a[3].license_type_id[3] != b[2].license_type_id[3]);
        assert(a[3].license_type_id[3] != b[3].license_type_id[3]);
        assert(a[3].license_type_id[3] != b[4].license_type_id[3]);
        assert(a[4].license_type_id[3] != b[0].license_type_id[3]);
        assert(a[4].license_type_id[3] != b[1].license_type_id[3]);
        assert(a[4].license_type_id[3] != b[2].license_type_id[3]);
        assert(a[4].license_type_id[3] != b[3].license_type_id[3]);
        assert(a[4].license_type_id[3] != b[4].license_type_id[3]);
        assert(a[5].license_type_id[3] != b[0].license_type_id[3]);
        assert(a[5].license_type_id[3] != b[1].license_type_id[3]);
        assert(a[5].license_type_id[3] != b[2].license_type_id[3]);
        assert(a[5].license_type_id[3] != b[3].license_type_id[3]);
        assert(a[5].license_type_id[3] != b[4].license_type_id[3]);
        assert(a[6].license_type_id[3] != b[0].license_type_id[3]);
        assert(a[6].license_type_id[3] != b[1].license_type_id[3]);
        assert(a[6].license_type_id[3] != b[2].license_type_id[3]);
        assert(a[6].license_type_id[3] != b[3].license_type_id[3]);
        assert(a[6].license_type_id[3] != b[4].license_type_id[3]);
        reveal_with_fuel(apart_each, 8);
        reveal_with_fuel(id_fresh_each, 6);
    }
    lemma_apart_each(a, b);
}

/// No licence type of `cbk_license_types` shares an identifier with one of `nse_license_types`.
proof fn lemma_cbk_license_types_apart_from_nse_license_types()
    ensures
        license_type_ids_apart(spec_cbk_license_types(), spec_nse_license_types()),
{
    let a = spec_cbk_license_types();
    let b = spec_nse_license_types();
    assert(apart_each(a, b)) by {
        reveal_strlit("ke-cbk:commercial-bank");
        reveal_strlit("ke-cbk:digital-credit-provider");
        reveal_strlit("ke-cbk:forex-dealer");
        reveal_strlit("ke-cbk:microfinance-bank");
        reveal_strlit("ke-cbk:money-remittance");
        reveal_strlit("ke-cbk:mortgage-finance");
        reveal_strlit("ke-cbk:payment-service-provider");
        reveal_strlit("ke-nse:listed-company");
        assert(a[0].license_type_id[3] != b[0].license_type_id[3]);
        assert(a[1].license_type_id[3] != b[0].license_type_id[3]);
        assert(a[2].license_type_id[3] != b[0].license_type_id[3]);
        assert(a[3].license_type_id[3] != b[0].license_type_id[3]);
        assert(a[4].license_type_id[3] != b[0].license_type_id[3]);
        assert(a[5].license_type_id[3] != b[0].license_type_id[3]);
        assert(a[6].license_type_id[3] != b[0].license_type_id[3]);
        reveal_with_fuel(apart_each, 8);
        reveal_with_fuel(id_fresh_each, 2);
    }
    lemma_apart_each(a, b);
}

/// No licence type of `cma_license_types` shares an identifier with one of `ira_license_types`.
proof fn lemma_cma_license_types_apart_from_ira_license_types()
    ensures
        license_type_ids_apart(spec_cma_license_types(), spec_ira_license_types()),
{
    let a = spec_cma_license_types();
    let b = spec_ira_license_types();
    assert(apart_each(a, b)) by {
        reveal_strlit("ke-cma:credit-rating-agency");
        reveal_strlit("ke-cma:dealer");
        reveal_strlit("ke-cma:fund-manager");
        reveal_strlit("ke-cma:investment-adviser");
        reveal_strlit("ke-cma:investment-bank");
        reveal_strlit("ke-cma:securities-exchange");
        reveal_strlit("ke-cma:stockbroker");
        reveal_strlit("ke-ira:general-insurer");
        reveal_strlit("ke-ira:insurance-agent");
        reveal_strlit("ke-ira:insurance-broker");
        reveal_strlit("ke-ira:life-insurer");
        reveal_strlit("ke-ira:reinsurer");
        assert(a[0].license_type_id[3] != b[0].license_type_id[3]);
        assert(a[0].license_type_id[3] != b[1].license_type_id[3]);
        assert(a[0].license_type_id[3] != b[2].license_type_id[3]);
        assert(a[0].license_type_id[3] != b[3].license_type_id[3]);
        assert(a[0].license_type_id[3] != b[4].license_type_id[3]);
        assert(a[1].license_type_id[3] != b[0].license_type_id[3]);
        assert(a[1].license_type_id[3] != b[1].license_type_id[3]);
        assert(a[1].license_type_id[3] != b[2].license_type_id[3]);
        assert(a[1].license_type_id[3] != b[3].license_type_id[3]);
        assert(a[1].license_type_id[3] != b[4].license_type_id[3]);
        assert(a[2].license_type_id[3] != b[0].license_type_id[3]);
        assert(a[2].license_type_id[3] != b[1].license_type_id[3]);
        assert(a[2].license_type_id[3] != b[2].license_type_id[3]);
        assert(a[2].license_type_id[3] != b[3].license_type_id[3]);
        assert(a[2].license_type_id[3] != b[4].license_type_id[3]);
        assert(a[3].license_type_id[3] != b[0].license_type_id[3]);
        assert(a[3].license_type_id[3] != b[1].license_type_id[3]);
        assert(a[3].license_type_id[3] != b[2].license_type_id[3]);
        assert(a[3].license_type_id[3] != b[3].license_type_id[3]);
        assert(a[3].license_type_id[3] != b[4].license_type_id[3]);
        assert(a[4].license_type_id[3] != b[0].license_type_id[3]);
        assert(a[4].license_type_id[3] != b[1].license_type_id[3]);
        assert(a[4].license_type_id[3] != b[2].license_type_id[3]);
        assert(a[4].license_type_id[3] != b[3].license_type_id[3]);
        assert(a[4].license_type_id[3] != b[4].license_type_id[3]);
        assert(a[5].license_type_id[3] != b[0].license_type_id[3]);
        assert(a[5].license_type_id[3] != b[1].license_type_id[3]);
        assert(a[5].license_type_id[3] != b[2].license_type_id[3]);
        assert(a[5].license_type_id[3] != b[3].license_type_id[3]);
        assert(a[5].license_type_id[3] != b[4].license_type_id[3]);
        assert(a[6].license_type_id[3] != b[0].license_type_id[3]);
        assert(a[6].license_type_id[3] != b[1].license_type_id[3]);
        assert(a[6].license_type_id[3] != b[2].license_type_id[3]);
        assert(a[6].license_type_id[3] != b[3].license_type_id[3]);
        assert(a[6].license_type_id[3] != b[4].license_type_id[3]);
        reveal_with_fuel(apart_each, 8);
        reveal_with_fuel(id_fresh_each, 6);
    }
    lemma_apart_each(a, b);
}

/// No licence type of `cma_license_types` shares an identifier with one of `nse_license_types`.
proof fn lemma_cma_license_types_apart_from_nse_license_types()
    ensures
        license_type_ids_apart(spec_cma_license_types(), spec_nse_license_types()),
{
    let a = spec_cma_license_types();
    let b = spec_nse_license_types();
    assert(apart_each(a, b)) by {
        reveal_strlit("ke-cma:credit-rating-agency");
        reveal_strlit("ke-cma:dealer");
        reveal_strlit("ke-cma:fund-manager");
        reveal_strlit("ke-cma:investment-adviser");
        reveal_strlit("ke-cma:investment-bank");
        reveal_strlit("ke-cma:securities-exchange");
        reveal_strlit("ke-cma:stockbroker");
        reveal_strlit("ke-nse:listed-company");
        assert(a[0].license_type_id[3] != b[0].license_type_id[3]);
        assert(a[1].license_type_id[3] != b[0].license_type_id[3]);
        assert(a[2].license_type_id[3] != b[0].license_type_id[3]);
        assert(a[3].license_type_id[3] != b[0].license_type_id[3]);
        assert(a[4].license_type_id[3] != b[0].license_type_id[3]);
        assert(a[5].license_type_id[3] != b[0].license_type_id[3]);
        assert(a[6].license_type_id[3] != b[0].license_type_id[3]);
        reveal_with_fuel(apart_each, 8);
        reveal_with_fuel(id_fresh_each, 2);
    }
    lemma_apart_each(a, b);
}

/// No licence type of `ira_license_types` shares an identifier with one of `nse_license_types`.
proof fn lemma_ira_license_types_apart_from_nse_license_types()
    ensures
        license_type_ids_apart(spec_ira_license_types(), spec_nse_license_types()),
{
    let a = spec_ira_license_types();
    let b = spec_nse_license_types();
    assert(apart_each(a, b)) by {
        reveal_strlit("ke-ira:general-insurer");
        reveal_strlit("ke-ira:insurance-agent");
        reveal_strlit("ke-ira:insurance-broker");
        reveal_strlit("ke-ira:life-insurer");
        reveal_strlit("ke-ira:reinsurer");
        reveal_strlit("ke-nse:listed-company");
        assert(a[0].license_type_id[3] != b[0].license_type_id[3]);
        assert(a[1].license_type_id[3] != b[0].license_type_id[3]);
        assert(a[2].license_type_id[3] != b[0].license_type_id[3]);
        assert(a[3].license_type_id[3] != b[0].license_type_id[3]);
        assert(a[4].license_type_id[3] != b[0].license_type_id[3]);
        reveal_with_fuel(apart_each, 6);
        reveal_with_fuel(id_fresh_each, 2);
    }
    lemma_apart_each(a, b);
}

/// No two licence types of `kenya_license_types` share an identifier.
pub proof fn lemma_kenya_license_type_ids_distinct()
    ensures
        license_type_ids_distinct(spec_kenya_license_types()),
{
    lemma_cbk_license_types_ids_distinct();
    lemma_cma_license_types_ids_distinct();
    lemma_ira_license_types_ids_distinct();
    lemma_nse_license_types_ids_distinct();
    assert(spec_kenya_license_types() =~= spec_cbk_license_types() + spec_cma_license_types() + spec_ira_license_types() + spec_nse_license_types());
    let acc = spec_cbk_license_types();
    lemma_cbk_license_types_apart_from_cma_license_types();
    let part = spec_cbk_license_types();
    lemma_ids_distinct_append(acc, spec_cma_license_types());
    let acc = acc + spec_cma_license_types();
    lemma_cbk_license_types_apart_from_ira_license_types();
    lemma_cma_license_types_apart_from_ira_license_types();
    let part = spec_cbk_license_types();
    lemma_ids_apart_append(part, spec_cma_license_types(), spec_ira_license_types());
    let part = part + spec_cma_license_types();
    lemma_ids_distinct_append(acc, spec_ira_license_types());
    let acc = acc + spec_ira_license_types();
    lemma_cbk_license_types_apart_from_nse_license_types();
    lemma_cma_license_types_apart_from_nse_license_types();
    lemma_ira_license_types_apart_from_nse_license_types();
    let part = spec_cbk_license_types();
    lemma_ids_apart_append(part, spec_cma_license_types(), spec_nse_license_types());
    let part = part + spec_cma_license_types();
    lemma_ids_apart_append(part, spec_ira_license_types(), spec_nse_license_types());
    let part = part + spec_ira_license_types();
    lemma_ids_distinct_append(acc, spec_nse_license_types());
    let acc = acc + spec_nse_license_types();
    assert(spec_kenya_license_types() == acc);
}

/// Each licence-type identifier of `cbk_license_types` starts with its regulator's
/// identifier and a colon.
proof fn lemma_cbk_license_types_prefixed()
    ensures
        license_type_ids_prefixed(spec_cbk_license_types()),
{
    let ts = spec_cbk_license_types();
    assert(license_type_id_prefixed(ts[0])) by {
        reveal_strlit("ke-cbk:commercial-bank");
        reveal_strlit("ke-cbk");
        reveal_strlit(":");
        assert(ts[0].license_type_id.subrange(0, (ts[0].regulator_id + ":"@).len() as int) =~= ts[0].regulator_id + ":"@);
    }
    assert(license_type_id_prefixed(ts[1])) by {
        reveal_strlit("ke-cbk:microfinance-bank");
        reveal_strlit("ke-cbk");
        reveal_strlit(":");
        assert(ts[1].license_type_id.subrange(0, (ts[1].regulator_id + ":"@).len() as int) =~= ts[1].regulator_id + ":"@);
    }
    assert(license_type_id_prefixed(ts[2])) by {
        reveal_strlit("ke-cbk:mortgage-finance");
        reveal_strlit("ke-cbk");
        reveal_strlit(":");
        assert(ts[2].license_type_id.subrange(0, (ts[2].regulator_id + ":"@).len() as int) =~= ts[2].regulator_id + ":"@);
    }
    assert(license_type_id_prefixed(ts[3])) by {
        reveal_strlit("ke-cbk:forex-dealer");
        reveal_strlit("ke-cbk");
        reveal_strlit(":");
        assert(ts[3].license_type_id.subrange(0, (ts[3].regulator_id + ":"@).len() as int) =~= ts[3].regulator_id + ":"@);
    }
    assert(license_type_id_prefixed(ts[4])) by {
        reveal_strlit("ke-cbk:money-remittance");
        reveal_strlit("ke-cbk");
        reveal_strlit(":");
        assert(ts[4].license_type_id.subrange(0, (ts[4].regulator_id + ":"@).len() as int) =~= ts[4].regulator_id + ":"@);
    }
    assert(license_type_id_prefixed(ts[5])) by {
        reveal_strlit("ke-cbk:payment-service-provider");
        reveal_strlit("ke-cbk");
        reveal_strlit(":");
        assert(ts[5].license_type_id.subrange(0, (ts[5].regulator_id + ":"@).len() as int) =~= ts[5].regulator_id + ":"@);
    }
    assert(license_type_id_prefixed(ts[6])) by {
        reveal_strlit("ke-cbk:digital-credit-provider");
        reveal_strlit("ke-cbk");
        reveal_strlit(":");
        assert(ts[6].license_type_id.subrange(0, (ts[6].regulator_id + ":"@).len() as int) =~= ts[6].regulator_id + ":"@);
    }
    assert(prefixed_each(ts)) by {
        reveal_with_fuel(prefixed_each, 8);
    }
    lemma_prefixed_each(ts);
}

/// Each licence-type identifier of `cma_license_types` starts with its regulator's
/// identifier and a colon.
proof fn lemma_cma_license_types_prefixed()
    ensures
        license_type_ids_prefixed(spec_cma_license_types()),
{
    let ts = spec_cma_license_types();
    assert(license_type_id_prefixed(ts[0])) by {
        reveal_strlit("ke-cma:stockbroker");
        reveal_strlit("ke-cma");
        reveal_strlit(":");
        assert(ts[0].license_type_id.subrange(0, (ts[0].regulator_id + ":"@).len() as int) =~= ts[0].regulator_id + ":"@);
    }
    assert(license_type_id_prefixed(ts[1])) by {
        reveal_strlit("ke-cma:dealer");
        reveal_strlit("ke-cma");
        reveal_strlit(":");
        assert(ts[1].license_type_id.subrange(0, (ts[1].regulator_id + ":"@).len() as int) =~= ts[1].regulator_id + ":"@);
    }
    assert(license_type_id_prefixed(ts[2])) by {
        reveal_strlit("ke-cma:investment-bank");
        reveal_strlit("ke-cma");
        reveal_strlit(":");
        assert(ts[2].license_type_id.subrange(0, (ts[2].regulator_id + ":"@).len() as int) =~= ts[2].regulator_id + ":"@);
    }
    assert(license_type_id_prefixed(ts[3])) by {
        reveal_strlit("ke-cma:fund-manager");
        reveal_strlit("ke-cma");
        reveal_strlit(":");
        assert(ts[3].license_type_id.subrange(0, (ts[3].regulator_id + ":"@).len() as int) =~= ts[3].regulator_id + ":"@);
    }
    assert(license_type_id_prefixed(ts[4])) by {
        reveal_strlit("ke-cma:investment-adviser");
        reveal_strlit("ke-cma");
        reveal_strlit(":");
        assert(ts[4].license_type_id.subrange(0, (ts[4].regulator_id + ":"@).len() as int) =~= ts[4].regulator_id + ":"@);
    }
    assert(license_type_id_prefixed(ts[5])) by {
        reveal_strlit("ke-cma:credit-rating-agency");
        reveal_strlit("ke-cma");
        reveal_strlit(":");
        assert(ts[5].license_type_id.subrange(0, (ts[5].regulator_id + ":"@).len() as int) =~= ts[5].regulator_id + ":"@);
    }
    assert(license_type_id_prefixed(ts[6])) by {
        reveal_strlit("ke-cma:securities-exchange");
        reveal_strlit("ke-cma");
        reveal_strlit(":");
        assert(ts[6].license_type_id.subrange(0, (ts[6].regulator_id + ":"@).len() as int) =~= ts[6].regulator_id + ":"@);
    }
    assert(prefixed_each(ts)) by {
        reveal_with_fuel(prefixed_each, 8);
    }
    lemma_prefixed_each(ts);
}

/// Each licence-type identifier of `ira_license_types` starts with its regulator's
/// identifier and a colon.
proof fn lemma_ira_license_types_prefixed()
    ensures
        license_type_ids_prefixed(spec_ira_license_types()),
{
    let ts = spec_ira_license_types();
    assert(license_type_id_prefixed(ts[0])) by {
        reveal_strlit("ke-ira:general-insurer");
        reveal_strlit("ke-ira");
        reveal_strlit(":");
        assert(ts[0].license_type_id.subrange(0, (ts[0].regulator_id + ":"@).len() as int) =~= ts[0].regulator_id + ":"@);
    }
    assert(license_type_id_prefixed(ts[1])) by {
        reveal_strlit("ke-ira:life-insurer");
        reveal_strlit("ke-ira");
        reveal_strlit(":");
        assert(ts[1].license_type_id.subrange(0, (ts[1].regulator_id + ":"@).len() as int) =~= ts[1].regulator_id + ":"@);
    }
    assert(license_type_id_prefixed(ts[2])) by {
        reveal_strlit("ke-ira:insurance-broker");
        reveal_strlit("ke-ira");
        reveal_strlit(":");
        assert(ts[2].license_type_id.subrange(0, (ts[2].regulator_id + ":"@).len() as int) =~= ts[2].regulator_id + ":"@);
    }
    assert(license_type_id_prefixed(ts[3])) by {
        reveal_strlit("ke-ira:insurance-agent");
        reveal_strlit("ke-ira");
        reveal_strlit(":");
        assert(ts[3].license_type_id.subrange(0, (ts[3].regulator_id + ":"@).len() as int) =~= ts[3].regulator_id + ":"@);
    }
    assert(license_type_id_prefixed(ts[4])) by {
        reveal_strlit("ke-ira:reinsurer");
        reveal_strlit("ke-ira");
        reveal_strlit(":");
        assert(ts[4].license_type_id.subrange(0, (ts[4].regulator_id + ":"@).len() as int) =~= ts[4].regulator_id + ":"@);
    }
    assert(prefixed_each(ts)) by {
        reveal_with_fuel(prefixed_each, 6);
    }
    lemma_prefixed_each(ts);
}

/// Each licence-type identifier of `nse_license_types` starts with its regulator's
/// identifier and a colon.
proof fn lemma_nse_license_types_prefixed()
    ensures
        license_type_ids_prefixed(spec_nse_license_types()),
{
    let ts = spec_nse_license_types();
    assert(license_type_id_prefixed(ts[0])) by {
        reveal_strlit("ke-nse:listed-company");
        reveal_strlit("ke-nse");
        reveal_strlit(":");
        assert(ts[0].license_type_id.subrange(0, (ts[0].regulator_id + ":"@).len() as int) =~= ts[0].regulator_id + ":"@);
    }
    assert(prefixed_each(ts)) by {
        reveal_with_fuel(prefixed_each, 2);
    }
    lemma_prefixed_each(ts);
}

/// Every licence-type identifier of the Kenyan catalog starts with the
/// identifier of the regulator that grants it, followed by a colon.
pub proof fn lemma_kenya_license_types_prefixed()
    ensures
        license_type_ids_prefixed(spec_kenya_license_types()),
{
    lemma_cbk_license_types_prefixed();
    lemma_cma_license_types_prefixed();
    lemma_ira_license_types_prefixed();
    lemma_nse_license_types_prefixed();
    lemma_prefixed_append(spec_cbk_license_types(), spec_cma_license_types());
    lemma_prefixed_append(spec_cbk_license_types() + spec_cma_license_types(), spec_ira_license_types());
    lemma_prefixed_append(spec_cbk_license_types() + spec_cma_license_types() + spec_ira_license_types(), spec_nse_license_types());
    assert(spec_kenya_license_types() =~= spec_cbk_license_types() + spec_cma_license_types() + spec_ira_license_types() + spec_nse_license_types());
}

} // verus!
