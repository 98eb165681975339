//! # Singapore Regulatory Authority License Mappings
//!
//! Singapore-specific license type definitions covering the major
//! regulatory authorities:
//!
//! | Authority | Full Name | Domain |
//! |-----------|-----------|--------|
//! | **MAS** | Monetary Authority of Singapore | Banking, Insurance, Capital Markets, Payments, Trust, FA, VCC, DPT |
//! | **ACRA** | Accounting and Corporate Regulatory Authority | Corporate Registration, CSP |
//! | **IMDA** | Infocomm Media Development Authority | Telecom |
//!
//! Each authority is represented as a [`LicensepackRegulator`] with its
//! associated [`LicenseTypeDefinition`] entries. These definitions provide
//! the Singapore-specific license taxonomy used by the compliance tensor's
//! LICENSING domain evaluation.

use vstd::prelude::*;

use crate::license::{
    license_type, license_type_view, license_types_view, regulator, regulator_view,
    regulators_view, LicenseTypeDefinition, LicenseTypeView, LicensepackRegulator,
    RegulatorView, RequirementValue,
    lemma_license_types_view_append, lemma_regulators_view_append,
};

use crate::catalog::{
    apart_each, id_fresh_each, ids_distinct_each, lemma_apart_each, lemma_ids_apart_append, lemma_ids_distinct_append, lemma_ids_distinct_each, license_type_ids_apart, license_type_ids_distinct, complete_each, every_regulator_grants, granted_by_each, granted_by_listed_regulators, grants_each, grants_some, in_jurisdiction_each, lemma_complete_append, lemma_complete_each, lemma_every_combine, lemma_granted_by_each, lemma_granted_combine, lemma_grants_each, lemma_in_jurisdiction_append, lemma_in_jurisdiction_each, license_types_complete, regulators_in_jurisdiction,
};

use crate::catalog::{
    lemma_prefixed_append, lemma_prefixed_each, license_type_id_prefixed, license_type_ids_prefixed,
    prefixed_each,
};

verus! {

/// The view of `mas_regulator`.
pub open spec fn spec_mas_regulator() -> RegulatorView {
    regulator_view(
        "sg-mas"@,
        "Monetary Authority of Singapore"@,
        "sg"@,
        Some("https://www.mas.gov.sg"@),
        seq!["financial_institutions_directory"@, "payment_services_registry"@],
    )
}

/// MAS regulator profile.
pub fn mas_regulator() -> (r: LicensepackRegulator)
    ensures
        r@ == spec_mas_regulator(),
        r@ == regulator_view(
            "sg-mas"@,
            "Monetary Authority of Singapore"@,
            "sg"@,
            Some("https://www.mas.gov.sg"@),
            seq!["financial_institutions_directory"@, "payment_services_registry"@],
        ),
{
    let r =
        regulator(
            "sg-mas",
            "Monetary Authority of Singapore",
            "sg",
            Some("https://www.mas.gov.sg"),
            &["financial_institutions_directory", "payment_services_registry"],
        );
    proof {
        assert(r@ =~~= spec_mas_regulator());
    }
    r
}

/// The view of `mas_license_types`.
pub open spec fn spec_mas_license_types() -> Seq<LicenseTypeView> {
    seq![
        license_type_view(
            "sg-mas:full-bank"@,
            "Full Bank License"@,
            "License to operate as a full bank in Singapore under the Banking Act"@,
            "sg-mas"@,
            Some("financial"@),
            seq!["deposit_taking"@, "lending"@, "trade_finance"@, "foreign_exchange"@, "payment_services"@, "wealth_management"@],
            seq![],
            seq![],
            seq![],
            None,
        ),
        license_type_view(
            "sg-mas:wholesale-bank"@,
            "Wholesale Bank License"@,
            "License to operate as a wholesale bank (no SGD retail deposits)"@,
            "sg-mas"@,
            Some("financial"@),
            seq!["wholesale_deposit_taking"@, "corporate_lending"@, "trade_finance"@, "foreign_exchange"@],
            seq![],
            seq![],
            seq![],
            None,
        ),
        license_type_view(
            "sg-mas:merchant-bank"@,
            "Merchant Bank License"@,
            "License to operate as a merchant bank (approved status)"@,
            "sg-mas"@,
            Some("financial"@),
            seq!["corporate_finance"@, "underwriting"@, "portfolio_management"@, "mergers_acquisitions_advisory"@],
            seq![],
            seq![],
            seq![],
            None,
        ),
        license_type_view(
            "sg-mas:digital-bank"@,
            "Digital Bank License"@,
            "License to operate as a digital full bank or digital wholesale bank"@,
            "sg-mas"@,
            Some("financial"@),
            seq!["digital_deposit_taking"@, "digital_lending"@, "digital_payment_services"@],
            seq![],
            seq![],
            seq![],
            None,
        ),
        license_type_view(
            "sg-mas:direct-insurer"@,
            "Direct Insurer License"@,
            "License to carry on direct insurance business under the Insurance Act"@,
            "sg-mas"@,
            Some("insurance"@),
            seq!["life_insurance"@, "general_insurance"@],
            seq![],
            seq![],
            seq![],
            None,
        ),
        license_type_view(
            "sg-mas:reinsurer"@,
            "Reinsurer License"@,
            "License to carry on reinsurance business in Singapore"@,
            "sg-mas"@,
            Some("insurance"@),
            seq!["reinsurance"@, "retrocession"@],
            seq![],
            seq![],
            seq![],
            None,
        ),
        license_type_view(
            "sg-mas:insurance-broker"@,
            "Insurance Broker Registration"@,
            "Registration as an insurance broker under the Insurance Act"@,
            "sg-mas"@,
            Some("insurance"@),
            seq!["insurance_broking"@, "risk_advisory"@],
            seq![],
            seq![],
            seq![],
            Some(3i32),
        ),
        license_type_view(
            "sg-mas:lloyds-asia"@,
            "Lloyd's Asia Scheme Registration"@,
            "Registration for Lloyd's syndicates to write business via Singapore"@,
            "sg-mas"@,
            Some("insurance"@),
            seq!["specialty_insurance"@, "marine_insurance"@],
            seq![],
            seq![],
            seq![],
            None,
        ),
        license_type_view(
            "sg-mas:cms-dealing"@,
            "CMS License — Dealing in Capital Markets Products"@,
            "Capital markets services license for dealing in securities, futures, and OTC derivatives"@,
            "sg-mas"@,
            Some("financial"@),
            seq!["securities_dealing"@, "futures_dealing"@, "otc_derivatives_dealing"@],
            seq![],
            seq![("SGD"@, "1000"@)],
            seq![("SGD"@, "1000"@)],
            None,
        ),
        license_type_view(
            "sg-mas:cms-advising"@,
            "CMS License — Advising on Corporate Finance"@,
            "Capital markets services license for advising on corporate finance matters"@,
            "sg-mas"@,
            Some("financial"@),
            seq!["corporate_finance_advisory"@, "ipo_advisory"@],
            seq![],
            seq![("SGD"@, "1000"@)],
            seq![("SGD"@, "1000"@)],
            None,
        ),
        license_type_view(
            "sg-mas:cms-fund-management"@,
            "CMS License — Fund Management"@,
            "Capital markets services license for fund management"@,
            "sg-mas"@,
            Some("financial"@),
            seq!["fund_management"@, "discretionary_portfolio_management"@],
            seq![],
            seq![("SGD"@, "1000"@)],
            seq![("SGD"@, "1000"@)],
            None,
        ),
        license_type_view(
            "sg-mas:cms-reit-management"@,
            "CMS License — REIT Management"@,
            "Capital markets services license for managing REITs"@,
            "sg-mas"@,
            Some("financial"@),
            seq!["reit_management"@, "property_fund_management"@],
            seq![],
            seq![("SGD"@, "1000"@)],
            seq![("SGD"@, "1000"@)],
            None,
        ),
        license_type_view(
            "sg-mas:cms-credit-rating"@,
            "CMS License — Providing Credit Rating Services"@,
            "Capital markets services license for credit rating services"@,
            "sg-mas"@,
            Some("financial"@),
            seq!["credit_rating"@],
            seq![],
            seq![("SGD"@, "1000"@)],
            seq![("SGD"@, "1000"@)],
            None,
        ),
        license_type_view(
            "sg-mas:cms-custodial"@,
            "CMS License — Providing Custodial Services"@,
            "Capital markets services license for providing custodial services for securities"@,
            "sg-mas"@,
            Some("financial"@),
            seq!["securities_custody"@, "fund_administration"@],
            seq![],
            seq![("SGD"@, "1000"@)],
            seq![("SGD"@, "1000"@)],
            None,
        ),
        license_type_view(
            "sg-mas:sps-money-changing"@,
            "SPS License — Money-Changing Service"@,
            "Standard payment institution license for money-changing services"@,
            "sg-mas"@,
            Some("financial"@),
            seq!["money_changing"@],
            seq![],
            seq![("SGD"@, "1000"@)],
            seq![("SGD"@, "1000"@)],
            None,
        ),
        license_type_view(
            "sg-mas:sps-cross-border-transfer"@,
            "SPS License — Cross-Border Money Transfer"@,
            "Payment services license for cross-border money transfer"@,
            "sg-mas"@,
            Some("financial"@),
            seq!["cross_border_money_transfer"@, "remittance"@],
            seq![],
            seq![("SGD"@, "1000"@)],
            seq![("SGD"@, "1000"@)],
            None,
        ),
        license_type_view(
            "sg-mas:sps-domestic-transfer"@,
            "SPS License — Domestic Money Transfer"@,
            "Payment services license for domestic money transfer"@,
            "sg-mas"@,
            Some("financial"@),
            seq!["domestic_money_transfer"@],
            seq![],
            seq![("SGD"@, "1000"@)],
            seq![("SGD"@, "1000"@)],
            None,
        ),
        license_type_view(
            "sg-mas:sps-merchant-acquisition"@,
            "SPS License — Merchant Acquisition"@,
            "Payment services license for merchant acquisition services"@,
            "sg-mas"@,
            Some("financial"@),
            seq!["merchant_acquisition"@, "payment_processing"@],
            seq![],
            seq![("SGD"@, "1000"@)],
            seq![("SGD"@, "1000"@)],
            None,
        ),
        license_type_view(
            "sg-mas:sps-e-money-issuance"@,
            "SPS License — E-Money Issuance"@,
            "Payment services license for e-money issuance"@,
            "sg-mas"@,
            Some("financial"@),
            seq!["e_money_issuance"@, "stored_value_facility"@],
            seq![],
            seq![("SGD"@, "1000"@)],
            seq![("SGD"@, "1000"@)],
            None,
        ),
        license_type_view(
            "sg-mas:sps-dpt"@,
            "SPS License — Digital Payment Token Service"@,
            "Payment services license for digital payment token (DPT) services under the Payment Services Act"@,
            "sg-mas"@,
            Some("financial"@),
            seq!["dpt_dealing"@, "dpt_exchange"@, "dpt_transfer"@],
            seq![],
            seq![("SGD"@, "1000"@)],
            seq![("SGD"@, "1000"@)],
            None,
        ),
        license_type_view(
            "sg-mas:sps-money-lending"@,
            "SPS License — Money-Lending"@,
            "License for money-lending activities under the Moneylenders Act"@,
            "sg-mas"@,
            Some("financial"@),
            seq!["money_lending"@, "personal_loans"@],
            seq![],
            seq![],
            seq![],
            Some(1i32),
        ),
        license_type_view(
            "sg-mas:trust-company"@,
            "Trust Company License"@,
            "License to carry on trust business under the Trust Companies Act"@,
            "sg-mas"@,
            Some("financial"@),
            seq!["trust_administration"@, "estate_management"@],
            seq![],
            seq![],
            seq![],
            None,
        ),
        license_type_view(
            "sg-mas:financial-adviser"@,
            "Financial Adviser License"@,
            "License to act as a financial adviser under the Financial Advisers Act"@,
            "sg-mas"@,
            Some("financial"@),
            seq!["financial_advisory"@, "investment_product_distribution"@],
            seq![],
            seq![],
            seq![],
            None,
        ),
        license_type_view(
            "sg-mas:vcc"@,
            "Variable Capital Company (VCC) Registration"@,
            "Registration of a Variable Capital Company for fund structuring"@,
            "sg-mas"@,
            Some("financial"@),
            seq!["fund_structuring"@, "sub_fund_creation"@, "umbrella_fund_operation"@],
            seq![],
            seq![],
            seq![],
            None,
        ),
        license_type_view(
            "sg-mas:dpt-service-provider"@,
            "Digital Payment Token Service Provider License"@,
            "Full license for digital payment token service providers under the Payment Services Act"@,
            "sg-mas"@,
            Some("financial"@),
            seq!["dpt_dealing"@, "dpt_facilitation"@, "dpt_custody"@, "dpt_transfer"@],
            seq![],
            seq![],
            seq![],
            None,
        )
    ]
}

/// MAS license type definitions.
pub fn mas_license_types() -> (r: Vec<LicenseTypeDefinition>)
    ensures
        license_types_view(r@) == spec_mas_license_types(),
        license_types_view(r@) == seq![
            license_type_view(
                "sg-mas:full-bank"@,
                "Full Bank License"@,
                "License to operate as a full bank in Singapore under the Banking Act"@,
                "sg-mas"@,
                Some("financial"@),
                seq!["deposit_taking"@, "lending"@, "trade_finance"@, "foreign_exchange"@, "payment_services"@, "wealth_management"@],
                seq![],
                seq![],
                seq![],
                None,
            ),
            license_type_view(
                "sg-mas:wholesale-bank"@,
                "Wholesale Bank License"@,
                "License to operate as a wholesale bank (no SGD retail deposits)"@,
                "sg-mas"@,
                Some("financial"@),
                seq!["wholesale_deposit_taking"@, "corporate_lending"@, "trade_finance"@, "foreign_exchange"@],
                seq![],
                seq![],
                seq![],
                None,
            ),
            license_type_view(
                "sg-mas:merchant-bank"@,
                "Merchant Bank License"@,
                "License to operate as a merchant bank (approved status)"@,
                "sg-mas"@,
                Some("financial"@),
                seq!["corporate_finance"@, "underwriting"@, "portfolio_management"@, "mergers_acquisitions_advisory"@],
                seq![],
                seq![],
                seq![],
                None,
            ),
            license_type_view(
                "sg-mas:digital-bank"@,
                "Digital Bank License"@,
                "License to operate as a digital full bank or digital wholesale bank"@,
                "sg-mas"@,
                Some("financial"@),
                seq!["digital_deposit_taking"@, "digital_lending"@, "digital_payment_services"@],
                seq![],
                seq![],
                seq![],
                None,
            ),
            license_type_view(
                "sg-mas:direct-insurer"@,
                "Direct Insurer License"@,
                "License to carry on direct insurance business under the Insurance Act"@,
                "sg-mas"@,
                Some("insurance"@),
                seq!["life_insurance"@, "general_insurance"@],
                seq![],
                seq![],
                seq![],
                None,
            ),
            license_type_view(
                "sg-mas:reinsurer"@,
                "Reinsurer License"@,
                "License to carry on reinsurance business in Singapore"@,
                "sg-mas"@,
                Some("insurance"@),
                seq!["reinsurance"@, "retrocession"@],
                seq![],
                seq![],
                seq![],
                None,
            ),
            license_type_view(
                "sg-mas:insurance-broker"@,
                "Insurance Broker Registration"@,
                "Registration as an insurance broker under the Insurance Act"@,
                "sg-mas"@,
                Some("insurance"@),
                seq!["insurance_broking"@, "risk_advisory"@],
                seq![],
                seq![],
                seq![],
                Some(3i32),
            ),
            license_type_view(
                "sg-mas:lloyds-asia"@,
                "Lloyd's Asia Scheme Registration"@,
                "Registration for Lloyd's syndicates to write business via Singapore"@,
                "sg-mas"@,
                Some("insurance"@),
                seq!["specialty_insurance"@, "marine_insurance"@],
                seq![],
                seq![],
                seq![],
                None,
            ),
            license_type_view(
                "sg-mas:cms-dealing"@,
                "CMS License — Dealing in Capital Markets Products"@,
                "Capital markets services license for dealing in securities, futures, and OTC derivatives"@,
                "sg-mas"@,
                Some("financial"@),
                seq!["securities_dealing"@, "futures_dealing"@, "otc_derivatives_dealing"@],
                seq![],
                seq![("SGD"@, "1000"@)],
                seq![("SGD"@, "1000"@)],
                None,
            ),
            license_type_view(
                "sg-mas:cms-advising"@,
                "CMS License — Advising on Corporate Finance"@,
                "Capital markets services license for advising on corporate finance matters"@,
                "sg-mas"@,
                Some("financial"@),
                seq!["corporate_finance_advisory"@, "ipo_advisory"@],
                seq![],
                seq![("SGD"@, "1000"@)],
                seq![("SGD"@, "1000"@)],
                None,
            ),
            license_type_view(
                "sg-mas:cms-fund-management"@,
                "CMS License — Fund Management"@,
                "Capital markets services license for fund management"@,
                "sg-mas"@,
                Some("financial"@),
                seq!["fund_management"@, "discretionary_portfolio_management"@],
                seq![],
                seq![("SGD"@, "1000"@)],
                seq![("SGD"@, "1000"@)],
                None,
            ),
            license_type_view(
                "sg-mas:cms-reit-management"@,
                "CMS License — REIT Management"@,
                "Capital markets services license for managing REITs"@,
                "sg-mas"@,
                Some("financial"@),
                seq!["reit_management"@, "property_fund_management"@],
                seq![],
                seq![("SGD"@, "1000"@)],
                seq![("SGD"@, "1000"@)],
                None,
            ),
            license_type_view(
                "sg-mas:cms-credit-rating"@,
                "CMS License — Providing Credit Rating Services"@,
                "Capital markets services license for credit rating services"@,
                "sg-mas"@,
                Some("financial"@),
                seq!["credit_rating"@],
                seq![],
                seq![("SGD"@, "1000"@)],
                seq![("SGD"@, "1000"@)],
                None,
            ),
            license_type_view(
                "sg-mas:cms-custodial"@,
                "CMS License — Providing Custodial Services"@,
                "Capital markets services license for providing custodial services for securities"@,
                "sg-mas"@,
                Some("financial"@),
                seq!["securities_custody"@, "fund_administration"@],
                seq![],
                seq![("SGD"@, "1000"@)],
                seq![("SGD"@, "1000"@)],
                None,
            ),
            license_type_view(
                "sg-mas:sps-money-changing"@,
                "SPS License — Money-Changing Service"@,
                "Standard payment institution license for money-changing services"@,
                "sg-mas"@,
                Some("financial"@),
                seq!["money_changing"@],
                seq![],
                seq![("SGD"@, "1000"@)],
                seq![("SGD"@, "1000"@)],
                None,
            ),
            license_type_view(
                "sg-mas:sps-cross-border-transfer"@,
                "SPS License — Cross-Border Money Transfer"@,
                "Payment services license for cross-border money transfer"@,
                "sg-mas"@,
                Some("financial"@),
                seq!["cross_border_money_transfer"@, "remittance"@],
                seq![],
                seq![("SGD"@, "1000"@)],
                seq![("SGD"@, "1000"@)],
                None,
            ),
            license_type_view(
                "sg-mas:sps-domestic-transfer"@,
                "SPS License — Domestic Money Transfer"@,
                "Payment services license for domestic money transfer"@,
                "sg-mas"@,
                Some("financial"@),
                seq!["domestic_money_transfer"@],
                seq![],
                seq![("SGD"@, "1000"@)],
                seq![("SGD"@, "1000"@)],
                None,
            ),
            license_type_view(
                "sg-mas:sps-merchant-acquisition"@,
                "SPS License — Merchant Acquisition"@,
                "Payment services license for merchant acquisition services"@,
                "sg-mas"@,
                Some("financial"@),
                seq!["merchant_acquisition"@, "payment_processing"@],
                seq![],
                seq![("SGD"@, "1000"@)],
                seq![("SGD"@, "1000"@)],
                None,
            ),
            license_type_view(
                "sg-mas:sps-e-money-issuance"@,
                "SPS License — E-Money Issuance"@,
                "Payment services license for e-money issuance"@,
                "sg-mas"@,
                Some("financial"@),
                seq!["e_money_issuance"@, "stored_value_facility"@],
                seq![],
                seq![("SGD"@, "1000"@)],
                seq![("SGD"@, "1000"@)],
                None,
            ),
            license_type_view(
                "sg-mas:sps-dpt"@,
                "SPS License — Digital Payment Token Service"@,
                "Payment services license for digital payment token (DPT) services under the Payment Services Act"@,
                "sg-mas"@,
                Some("financial"@),
                seq!["dpt_dealing"@, "dpt_exchange"@, "dpt_transfer"@],
                seq![],
                seq![("SGD"@, "1000"@)],
                seq![("SGD"@, "1000"@)],
                None,
            ),
            license_type_view(
                "sg-mas:sps-money-lending"@,
                "SPS License — Money-Lending"@,
                "License for money-lending activities under the Moneylenders Act"@,
                "sg-mas"@,
                Some("financial"@),
                seq!["money_lending"@, "personal_loans"@],
                seq![],
                seq![],
                seq![],
                Some(1i32),
            ),
            license_type_view(
                "sg-mas:trust-company"@,
                "Trust Company License"@,
                "License to carry on trust business under the Trust Companies Act"@,
                "sg-mas"@,
                Some("financial"@),
                seq!["trust_administration"@, "estate_management"@],
                seq![],
                seq![],
                seq![],
                None,
            ),
            license_type_view(
                "sg-mas:financial-adviser"@,
                "Financial Adviser License"@,
                "License to act as a financial adviser under the Financial Advisers Act"@,
                "sg-mas"@,
                Some("financial"@),
                seq!["financial_advisory"@, "investment_product_distribution"@],
                seq![],
                seq![],
                seq![],
                None,
            ),
            license_type_view(
                "sg-mas:vcc"@,
                "Variable Capital Company (VCC) Registration"@,
                "Registration of a Variable Capital Company for fund structuring"@,
                "sg-mas"@,
                Some("financial"@),
                seq!["fund_structuring"@, "sub_fund_creation"@, "umbrella_fund_operation"@],
                seq![],
                seq![],
                seq![],
                None,
            ),
            license_type_view(
                "sg-mas:dpt-service-provider"@,
                "Digital Payment Token Service Provider License"@,
                "Full license for digital payment token service providers under the Payment Services Act"@,
                "sg-mas"@,
                Some("financial"@),
                seq!["dpt_dealing"@, "dpt_facilitation"@, "dpt_custody"@, "dpt_transfer"@],
                seq![],
                seq![],
                seq![],
                None,
            )
        ],
{
    let r = vec![
        license_type(
            "sg-mas:full-bank",
            "Full Bank License",
            "License to operate as a full bank in Singapore under the Banking Act",
            "sg-mas",
            Some("financial"),
            &["deposit_taking", "lending", "trade_finance", "foreign_exchange", "payment_services", "wealth_management"],
            &[],
            &[],
            &[],
            None,
        ),
        license_type(
            "sg-mas:wholesale-bank",
            "Wholesale Bank License",
            "License to operate as a wholesale bank (no SGD retail deposits)",
            "sg-mas",
            Some("financial"),
            &["wholesale_deposit_taking", "corporate_lending", "trade_finance", "foreign_exchange"],
            &[],
            &[],
            &[],
            None,
        ),
        license_type(
            "sg-mas:merchant-bank",
            "Merchant Bank License",
            "License to operate as a merchant bank (approved status)",
            "sg-mas",
            Some("financial"),
            &["corporate_finance", "underwriting", "portfolio_management", "mergers_acquisitions_advisory"],
            &[],
            &[],
            &[],
            None,
        ),
        license_type(
            "sg-mas:digital-bank",
            "Digital Bank License",
            "License to operate as a digital full bank or digital wholesale bank",
            "sg-mas",
            Some("financial"),
            &["digital_deposit_taking", "digital_lending", "digital_payment_services"],
            &[],
            &[],
            &[],
            None,
        ),
        license_type(
            "sg-mas:direct-insurer",
            "Direct Insurer License",
            "License to carry on direct insurance business under the Insurance Act",
            "sg-mas",
            Some("insurance"),
            &["life_insurance", "general_insurance"],
            &[],
            &[],
            &[],
            None,
        ),
        license_type(
            "sg-mas:reinsurer",
            "Reinsurer License",
            "License to carry on reinsurance business in Singapore",
            "sg-mas",
            Some("insurance"),
            &["reinsurance", "retrocession"],
            &[],
            &[],
            &[],
            None,
        ),
        license_type(
            "sg-mas:insurance-broker",
            "Insurance Broker Registration",
            "Registration as an insurance broker under the Insurance Act",
            "sg-mas",
            Some("insurance"),
            &["insurance_broking", "risk_advisory"],
            &[],
            &[],
            &[],
            Some(3i32),
        ),
        license_type(
            "sg-mas:lloyds-asia",
            "Lloyd's Asia Scheme Registration",
            "Registration for Lloyd's syndicates to write business via Singapore",
            "sg-mas",
            Some("insurance"),
            &["specialty_insurance", "marine_insurance"],
            &[],
            &[],
            &[],
            None,
        ),
        license_type(
            "sg-mas:cms-dealing",
            "CMS License — Dealing in Capital Markets Products",
            "Capital markets services license for dealing in securities, futures, and OTC derivatives",
            "sg-mas",
            Some("financial"),
            &["securities_dealing", "futures_dealing", "otc_derivatives_dealing"],
            &[],
            &[("SGD", "1000")],
            &[("SGD", "1000")],
            None,
        ),
        license_type(
            "sg-mas:cms-advising",
            "CMS License — Advising on Corporate Finance",
            "Capital markets services license for advising on corporate finance matters",
            "sg-mas",
            Some("financial"),
            &["corporate_finance_advisory", "ipo_advisory"],
            &[],
            &[("SGD", "1000")],
            &[("SGD", "1000")],
            None,
        ),
        license_type(
            "sg-mas:cms-fund-management",
            "CMS License — Fund Management",
            "Capital markets services license for fund management",
            "sg-mas",
            Some("financial"),
            &["fund_management", "discretionary_portfolio_management"],
            &[],
            &[("SGD", "1000")],
            &[("SGD", "1000")],
            None,
        ),
        license_type(
            "sg-mas:cms-reit-management",
            "CMS License — REIT Management",
            "Capital markets services license for managing REITs",
            "sg-mas",
            Some("financial"),
            &["reit_management", "property_fund_management"],
            &[],
            &[("SGD", "1000")],
            &[("SGD", "1000")],
            None,
        ),
        license_type(
            "sg-mas:cms-credit-rating",
            "CMS License — Providing Credit Rating Services",
            "Capital markets services license for credit rating services",
            "sg-mas",
            Some("financial"),
            &["credit_rating"],
            &[],
            &[("SGD", "1000")],
            &[("SGD", "1000")],
            None,
        ),
        license_type(
            "sg-mas:cms-custodial",
            "CMS License — Providing Custodial Services",
            "Capital markets services license for providing custodial services for securities",
            "sg-mas",
            Some("financial"),
            &["securities_custody", "fund_administration"],
            &[],
            &[("SGD", "1000")],
            &[("SGD", "1000")],
            None,
        ),
        license_type(
            "sg-mas:sps-money-changing",
            "SPS License — Money-Changing Service",
            "Standard payment institution license for money-changing services",
            "sg-mas",
            Some("financial"),
            &["money_changing"],
            &[],
            &[("SGD", "1000")],
            &[("SGD", "1000")],
            None,
        ),
        license_type(
            "sg-mas:sps-cross-border-transfer",
            "SPS License — Cross-Border Money Transfer",
            "Payment services license for cross-border money transfer",
            "sg-mas",
            Some("financial"),
            &["cross_border_money_transfer", "remittance"],
            &[],
            &[("SGD", "1000")],
            &[("SGD", "1000")],
            None,
        ),
        license_type(
            "sg-mas:sps-domestic-transfer",
            "SPS License — Domestic Money Transfer",
            "Payment services license for domestic money transfer",
            "sg-mas",
            Some("financial"),
            &["domestic_money_transfer"],
            &[],
            &[("SGD", "1000")],
            &[("SGD", "1000")],
            None,
        ),
        license_type(
            "sg-mas:sps-merchant-acquisition",
            "SPS License — Merchant Acquisition",
            "Payment services license for merchant acquisition services",
            "sg-mas",
            Some("financial"),
            &["merchant_acquisition", "payment_processing"],
            &[],
            &[("SGD", "1000")],
            &[("SGD", "1000")],
            None,
        ),
        license_type(
            "sg-mas:sps-e-money-issuance",
            "SPS License — E-Money Issuance",
            "Payment services license for e-money issuance",
            "sg-mas",
            Some("financial"),
            &["e_money_issuance", "stored_value_facility"],
            &[],
            &[("SGD", "1000")],
            &[("SGD", "1000")],
            None,
        ),
        license_type(
            "sg-mas:sps-dpt",
            "SPS License — Digital Payment Token Service",
            "Payment services license for digital payment token (DPT) services under the Payment Services Act",
            "sg-mas",
            Some("financial"),
            &["dpt_dealing", "dpt_exchange", "dpt_transfer"],
            &[],
            &[("SGD", "1000")],
            &[("SGD", "1000")],
            None,
        ),
        license_type(
            "sg-mas:sps-money-lending",
            "SPS License — Money-Lending",
            "License for money-lending activities under the Moneylenders Act",
            "sg-mas",
            Some("financial"),
            &["money_lending", "personal_loans"],
            &[],
            &[],
            &[],
            Some(1i32),
        ),
        license_type(
            "sg-mas:trust-company",
            "Trust Company License",
            "License to carry on trust business under the Trust Companies Act",
            "sg-mas",
            Some("financial"),
            &["trust_administration", "estate_management"],
            &[],
            &[],
            &[],
            None,
        ),
        license_type(
            "sg-mas:financial-adviser",
            "Financial Adviser License",
            "License to act as a financial adviser under the Financial Advisers Act",
            "sg-mas",
            Some("financial"),
            &["financial_advisory", "investment_product_distribution"],
            &[],
            &[],
            &[],
            None,
        ),
        license_type(
            "sg-mas:vcc",
            "Variable Capital Company (VCC) Registration",
            "Registration of a Variable Capital Company for fund structuring",
            "sg-mas",
            Some("financial"),
            &["fund_structuring", "sub_fund_creation", "umbrella_fund_operation"],
            &[],
            &[],
            &[],
            None,
        ),
        license_type(
            "sg-mas:dpt-service-provider",
            "Digital Payment Token Service Provider License",
            "Full license for digital payment token service providers under the Payment Services Act",
            "sg-mas",
            Some("financial"),
            &["dpt_dealing", "dpt_facilitation", "dpt_custody", "dpt_transfer"],
            &[],
            &[],
            &[],
            None,
        )
    ];
    proof {
        assert(license_types_view(r@) =~~= spec_mas_license_types());
    }
    r
}

/// The view of `acra_regulator`.
pub open spec fn spec_acra_regulator() -> RegulatorView {
    regulator_view(
        "sg-acra"@,
        "Accounting and Corporate Regulatory Authority"@,
        "sg"@,
        Some("https://www.acra.gov.sg"@),
        seq!["bizfile_search"@, "entity_profile"@],
    )
}

/// ACRA regulator profile.
pub fn acra_regulator() -> (r: LicensepackRegulator)
    ensures
        r@ == spec_acra_regulator(),
        r@ == regulator_view(
            "sg-acra"@,
            "Accounting and Corporate Regulatory Authority"@,
            "sg"@,
            Some("https://www.acra.gov.sg"@),
            seq!["bizfile_search"@, "entity_profile"@],
        ),
{
    let r =
        regulator(
            "sg-acra",
            "Accounting and Corporate Regulatory Authority",
            "sg",
            Some("https://www.acra.gov.sg"),
            &["bizfile_search", "entity_profile"],
        );
    proof {
        assert(r@ =~~= spec_acra_regulator());
    }
    r
}

/// The view of `acra_license_types`.
pub open spec fn spec_acra_license_types() -> Seq<LicenseTypeView> {
    seq![
        license_type_view(
            "sg-acra:private-limited-company"@,
            "Private Limited Company Registration"@,
            "Registration of a private company limited by shares under the Companies Act"@,
            "sg-acra"@,
            Some("corporate"@),
            seq!["business_operations"@, "capital_raising_private"@],
            seq![],
            seq![("SGD"@, "315"@)],
            seq![("SGD"@, "60"@)],
            None,
        ),
        license_type_view(
            "sg-acra:public-company"@,
            "Public Company Registration"@,
            "Registration of a public company limited by shares"@,
            "sg-acra"@,
            Some("corporate"@),
            seq!["business_operations"@, "public_capital_raising"@],
            seq![],
            seq![("SGD"@, "315"@)],
            seq![("SGD"@, "60"@)],
            None,
        ),
        license_type_view(
            "sg-acra:llp"@,
            "Limited Liability Partnership (LLP) Registration"@,
            "Registration of a limited liability partnership"@,
            "sg-acra"@,
            Some("corporate"@),
            seq!["partnership_operations"@, "professional_services"@],
            seq![],
            seq![("SGD"@, "115"@)],
            seq![("SGD"@, "30"@)],
            None,
        ),
        license_type_view(
            "sg-acra:lp"@,
            "Limited Partnership (LP) Registration"@,
            "Registration of a limited partnership under the Limited Partnerships Act"@,
            "sg-acra"@,
            Some("corporate"@),
            seq!["partnership_operations"@, "fund_vehicle"@],
            seq![],
            seq![("SGD"@, "115"@)],
            seq![("SGD"@, "30"@)],
            None,
        ),
        license_type_view(
            "sg-acra:sole-proprietorship"@,
            "Sole Proprietorship Registration"@,
            "Registration of a sole proprietorship under the Business Names Registration Act"@,
            "sg-acra"@,
            Some("corporate"@),
            seq!["sole_trader_operations"@],
            seq![],
            seq![("SGD"@, "115"@)],
            seq![("SGD"@, "30"@)],
            Some(1i32),
        ),
        license_type_view(
            "sg-acra:foreign-company"@,
            "Foreign Company Registration"@,
            "Registration of a foreign company branch in Singapore"@,
            "sg-acra"@,
            Some("corporate"@),
            seq!["branch_operations"@, "representative_office"@],
            seq![],
            seq![("SGD"@, "315"@)],
            seq![("SGD"@, "60"@)],
            None,
        ),
        license_type_view(
            "sg-acra:registered-filing-agent"@,
            "Registered Filing Agent"@,
            "Registration as a filing agent authorized to file on behalf of entities"@,
            "sg-acra"@,
            Some("professional"@),
            seq!["corporate_filing"@, "annual_return_filing"@],
            seq![],
            seq![],
            seq![],
            Some(3i32),
        ),
        license_type_view(
            "sg-acra:corporate-service-provider"@,
            "Corporate Service Provider License"@,
            "License to provide corporate secretarial and compliance services"@,
            "sg-acra"@,
            Some("professional"@),
            seq!["corporate_secretarial"@, "compliance_services"@, "registered_office_services"@],
            seq![],
            seq![],
            seq![],
            None,
        )
    ]
}

/// ACRA license type definitions.
pub fn acra_license_types() -> (r: Vec<LicenseTypeDefinition>)
    ensures
        license_types_view(r@) == spec_acra_license_types(),
        license_types_view(r@) == seq![
            license_type_view(
                "sg-acra:private-limited-company"@,
                "Private Limited Company Registration"@,
                "Registration of a private company limited by shares under the Companies Act"@,
                "sg-acra"@,
                Some("corporate"@),
                seq!["business_operations"@, "capital_raising_private"@],
                seq![],
                seq![("SGD"@, "315"@)],
                seq![("SGD"@, "60"@)],
                None,
            ),
            license_type_view(
                "sg-acra:public-company"@,
                "Public Company Registration"@,
                "Registration of a public company limited by shares"@,
                "sg-acra"@,
                Some("corporate"@),
                seq!["business_operations"@, "public_capital_raising"@],
                seq![],
                seq![("SGD"@, "315"@)],
                seq![("SGD"@, "60"@)],
                None,
            ),
            license_type_view(
                "sg-acra:llp"@,
                "Limited Liability Partnership (LLP) Registration"@,
                "Registration of a limited liability partnership"@,
                "sg-acra"@,
                Some("corporate"@),
                seq!["partnership_operations"@, "professional_services"@],
                seq![],
                seq![("SGD"@, "115"@)],
                seq![("SGD"@, "30"@)],
                None,
            ),
            license_type_view(
                "sg-acra:lp"@,
                "Limited Partnership (LP) Registration"@,
                "Registration of a limited partnership under the Limited Partnerships Act"@,
                "sg-acra"@,
                Some("corporate"@),
                seq!["partnership_operations"@, "fund_vehicle"@],
                seq![],
                seq![("SGD"@, "115"@)],
                seq![("SGD"@, "30"@)],
                None,
            ),
            license_type_view(
                "sg-acra:sole-proprietorship"@,
                "Sole Proprietorship Registration"@,
                "Registration of a sole proprietorship under the Business Names Registration Act"@,
                "sg-acra"@,
                Some("corporate"@),
                seq!["sole_trader_operations"@],
                seq![],
                seq![("SGD"@, "115"@)],
                seq![("SGD"@, "30"@)],
                Some(1i32),
            ),
            license_type_view(
                "sg-acra:foreign-company"@,
                "Foreign Company Registration"@,
                "Registration of a foreign company branch in Singapore"@,
                "sg-acra"@,
                Some("corporate"@),
                seq!["branch_operations"@, "representative_office"@],
                seq![],
                seq![("SGD"@, "315"@)],
                seq![("SGD"@, "60"@)],
                None,
            ),
            license_type_view(
                "sg-acra:registered-filing-agent"@,
                "Registered Filing Agent"@,
                "Registration as a filing agent authorized to file on behalf of entities"@,
                "sg-acra"@,
                Some("professional"@),
                seq!["corporate_filing"@, "annual_return_filing"@],
                seq![],
                seq![],
                seq![],
                Some(3i32),
            ),
            license_type_view(
                "sg-acra:corporate-service-provider"@,
                "Corporate Service Provider License"@,
                "License to provide corporate secretarial and compliance services"@,
                "sg-acra"@,
                Some("professional"@),
                seq!["corporate_secretarial"@, "compliance_services"@, "registered_office_services"@],
                seq![],
                seq![],
                seq![],
                None,
            )
        ],
{
    let r = vec![
        license_type(
            "sg-acra:private-limited-company",
            "Private Limited Company Registration",
            "Registration of a private company limited by shares under the Companies Act",
            "sg-acra",
            Some("corporate"),
            &["business_operations", "capital_raising_private"],
            &[],
            &[("SGD", "315")],
            &[("SGD", "60")],
            None,
        ),
        license_type(
            "sg-acra:public-company",
            "Public Company Registration",
            "Registration of a public company limited by shares",
            "sg-acra",
            Some("corporate"),
            &["business_operations", "public_capital_raising"],
            &[],
            &[("SGD", "315")],
            &[("SGD", "60")],
            None,
        ),
        license_type(
            "sg-acra:llp",
            "Limited Liability Partnership (LLP) Registration",
            "Registration of a limited liability partnership",
            "sg-acra",
            Some("corporate"),
            &["partnership_operations", "professional_services"],
            &[],
            &[("SGD", "115")],
            &[("SGD", "30")],
            None,
        ),
        license_type(
            "sg-acra:lp",
            "Limited Partnership (LP) Registration",
            "Registration of a limited partnership under the Limited Partnerships Act",
            "sg-acra",
            Some("corporate"),
            &["partnership_operations", "fund_vehicle"],
            &[],
            &[("SGD", "115")],
            &[("SGD", "30")],
            None,
        ),
        license_type(
            "sg-acra:sole-proprietorship",
            "Sole Proprietorship Registration",
            "Registration of a sole proprietorship under the Business Names Registration Act",
            "sg-acra",
            Some("corporate"),
            &["sole_trader_operations"],
            &[],
            &[("SGD", "115")],
            &[("SGD", "30")],
            Some(1i32),
        ),
        license_type(
            "sg-acra:foreign-company",
            "Foreign Company Registration",
            "Registration of a foreign company branch in Singapore",
            "sg-acra",
            Some("corporate"),
            &["branch_operations", "representative_office"],
            &[],
            &[("SGD", "315")],
            &[("SGD", "60")],
            None,
        ),
        license_type(
            "sg-acra:registered-filing-agent",
            "Registered Filing Agent",
            "Registration as a filing agent authorized to file on behalf of entities",
            "sg-acra",
            Some("professional"),
            &["corporate_filing", "annual_return_filing"],
            &[],
            &[],
            &[],
            Some(3i32),
        ),
        license_type(
            "sg-acra:corporate-service-provider",
            "Corporate Service Provider License",
            "License to provide corporate secretarial and compliance services",
            "sg-acra",
            Some("professional"),
            &["corporate_secretarial", "compliance_services", "registered_office_services"],
            &[],
            &[],
            &[],
            None,
        )
    ];
    proof {
        assert(license_types_view(r@) =~~= spec_acra_license_types());
    }
    r
}

/// The view of `imda_regulator`.
pub open spec fn spec_imda_regulator() -> RegulatorView {
    regulator_view(
        "sg-imda"@,
        "Infocomm Media Development Authority"@,
        "sg"@,
        Some("https://www.imda.gov.sg"@),
        seq!["telecom_licensee_directory"@],
    )
}

/// IMDA regulator profile.
pub fn imda_regulator() -> (r: LicensepackRegulator)
    ensures
        r@ == spec_imda_regulator(),
        r@ == regulator_view(
            "sg-imda"@,
            "Infocomm Media Development Authority"@,
            "sg"@,
            Some("https://www.imda.gov.sg"@),
            seq!["telecom_licensee_directory"@],
        ),
{
    let r =
        regulator(
            "sg-imda",
            "Infocomm Media Development Authority",
            "sg",
            Some("https://www.imda.gov.sg"),
            &["telecom_licensee_directory"],
        );
    proof {
        assert(r@ =~~= spec_imda_regulator());
    }
    r
}

/// The view of `imda_license_types`.
pub open spec fn spec_imda_license_types() -> Seq<LicenseTypeView> {
    seq![
        license_type_view(
            "sg-imda:facilities-based-operator"@,
            "Facilities-Based Operator License"@,
            "License to deploy and operate telecommunications network facilities in Singapore"@,
            "sg-imda"@,
            Some("trade"@),
            seq!["network_infrastructure_deployment"@, "facilities_based_services"@],
            seq![],
            seq![],
            seq![],
            Some(20i32),
        ),
        license_type_view(
            "sg-imda:services-based-operator"@,
            "Services-Based Operator License"@,
            "License to provide telecommunications services using third-party infrastructure"@,
            "sg-imda"@,
            Some("trade"@),
            seq!["telecom_services_provision"@, "voip_services"@, "internet_access_services"@],
            seq![],
            seq![],
            seq![],
            Some(10i32),
        )
    ]
}

/// IMDA license type definitions.
pub fn imda_license_types() -> (r: Vec<LicenseTypeDefinition>)
    ensures
        license_types_view(r@) == spec_imda_license_types(),
        license_types_view(r@) == seq![
            license_type_view(
                "sg-imda:facilities-based-operator"@,
                "Facilities-Based Operator License"@,
                "License to deploy and operate telecommunications network facilities in Singapore"@,
                "sg-imda"@,
                Some("trade"@),
                seq!["network_infrastructure_deployment"@, "facilities_based_services"@],
                seq![],
                seq![],
                seq![],
                Some(20i32),
            ),
            license_type_view(
                "sg-imda:services-based-operator"@,
                "Services-Based Operator License"@,
                "License to provide telecommunications services using third-party infrastructure"@,
                "sg-imda"@,
                Some("trade"@),
                seq!["telecom_services_provision"@, "voip_services"@, "internet_access_services"@],
                seq![],
                seq![],
                seq![],
                Some(10i32),
            )
        ],
{
    let r = vec![
        license_type(
            "sg-imda:facilities-based-operator",
            "Facilities-Based Operator License",
            "License to deploy and operate telecommunications network facilities in Singapore",
            "sg-imda",
            Some("trade"),
            &["network_infrastructure_deployment", "facilities_based_services"],
            &[],
            &[],
            &[],
            Some(20i32),
        ),
        license_type(
            "sg-imda:services-based-operator",
            "Services-Based Operator License",
            "License to provide telecommunications services using third-party infrastructure",
            "sg-imda",
            Some("trade"),
            &["telecom_services_provision", "voip_services", "internet_access_services"],
            &[],
            &[],
            &[],
            Some(10i32),
        )
    ];
    proof {
        assert(license_types_view(r@) =~~= spec_imda_license_types());
    }
    r
}

/// The view of `singapore_regulators`.
pub open spec fn spec_singapore_regulators() -> Seq<RegulatorView> {
    seq![spec_mas_regulator(), spec_acra_regulator(), spec_imda_regulator()]
}

/// All Singapore regulatory authorities.
pub fn singapore_regulators() -> (r: Vec<LicensepackRegulator>)
    ensures
        regulators_view(r@) == spec_singapore_regulators(),
        regulators_view(r@) == seq![spec_mas_regulator(), spec_acra_regulator(), spec_imda_regulator()],
{
    let r = vec![mas_regulator(), acra_regulator(), imda_regulator()];
    proof {
        assert(regulators_view(r@) =~~= spec_singapore_regulators());
    }
    r
}

/// The view of `singapore_license_types`.
pub open spec fn spec_singapore_license_types() -> Seq<LicenseTypeView> {
    spec_mas_license_types()
        + spec_acra_license_types()
        + spec_imda_license_types()
}

/// All Singapore license type definitions across all authorities.
pub fn singapore_license_types() -> (r: Vec<LicenseTypeDefinition>)
    ensures
        license_types_view(r@) == spec_singapore_license_types(),
        license_types_view(r@) == spec_mas_license_types()
            + spec_acra_license_types()
            + spec_imda_license_types(),
{
    let mut all: Vec<LicenseTypeDefinition> = Vec::new();
    proof {
        assert(license_types_view(all@) =~= Seq::<LicenseTypeView>::empty());
    }
    let ghost before = all@;
    let mut part = mas_license_types();
    let ghost added = part@;
    all.append(&mut part);
    proof {
        lemma_license_types_view_append(before, added);
        assert(license_types_view(all@) =~= spec_mas_license_types());
    }
    let ghost before = all@;
    let mut part = acra_license_types();
    let ghost added = part@;
    all.append(&mut part);
    proof {
        lemma_license_types_view_append(before, added);
        assert(license_types_view(all@) =~= spec_mas_license_types() + spec_acra_license_types());
    }
    let ghost before = all@;
    let mut part = imda_license_types();
    let ghost added = part@;
    all.append(&mut part);
    proof {
        lemma_license_types_view_append(before, added);
        assert(license_types_view(all@) =~= spec_mas_license_types() + spec_acra_license_types() + spec_imda_license_types());
    }
    all
}

/// The licence types of `mas_license_types` are complete, granted by its regulators, and
/// each of its regulators grants at least one of them.
proof fn lemma_mas_group()
    ensures
        license_types_complete(spec_mas_license_types()),
        granted_by_listed_regulators(spec_mas_license_types(), seq![spec_mas_regulator()]),
        every_regulator_grants(spec_mas_license_types(), seq![spec_mas_regulator()]),
        regulators_in_jurisdiction(seq![spec_mas_regulator()], "sg"@),
{
    assert(complete_each(spec_mas_license_types())) by {
        reveal_strlit("sg-mas:full-bank");
        reveal_strlit("Full Bank License");
        reveal_strlit("License to operate as a full bank in Singapore under the Banking Act");
        reveal_strlit("sg-mas");
        reveal_strlit("sg-mas:wholesale-bank");
        reveal_strlit("Wholesale Bank License");
        reveal_strlit("License to operate as a wholesale bank (no SGD retail deposits)");
        reveal_strlit("sg-mas:merchant-bank");
        reveal_strlit("Merchant Bank License");
        reveal_strlit("License to operate as a merchant bank (approved status)");
        reveal_strlit("sg-mas:digital-bank");
        reveal_strlit("Digital Bank License");
        reveal_strlit("License to operate as a digital full bank or digital wholesale bank");
        reveal_strlit("sg-mas:direct-insurer");
        reveal_strlit("Direct Insurer License");
        reveal_strlit("License to carry on direct insurance business under the Insurance Act");
        reveal_strlit("sg-mas:reinsurer");
        reveal_strlit("Reinsurer License");
        reveal_strlit("License to carry on reinsurance business in Singapore");
        reveal_strlit("sg-mas:insurance-broker");
        reveal_strlit("Insurance Broker Registration");
        reveal_strlit("Registration as an insurance broker under the Insurance Act");
        reveal_strlit("sg-mas:lloyds-asia");
        reveal_strlit("Lloyd's Asia Scheme Registration");
        reveal_strlit("Registration for Lloyd's syndicates to write business via Singapore");
        reveal_strlit("sg-mas:cms-dealing");
        reveal_strlit("CMS License — Dealing in Capital Markets Products");
        reveal_strlit("Capital markets services license for dealing in securities, futures, and OTC derivatives");
        reveal_strlit("sg-mas:cms-advising");
        reveal_strlit("CMS License — Advising on Corporate Finance");
        reveal_strlit("Capital markets services license for advising on corporate finance matters");
        reveal_strlit("sg-mas:cms-fund-management");
        reveal_strlit("CMS License — Fund Management");
        reveal_strlit("Capital markets services license for fund management");
        reveal_strlit("sg-mas:cms-reit-management");
        reveal_strlit("CMS License — REIT Management");
        reveal_strlit("Capital markets services license for managing REITs");
        reveal_strlit("sg-mas:cms-credit-rating");
        reveal_strlit("CMS License — Providing Credit Rating Services");
        reveal_strlit("Capital markets services license for credit rating services");
        reveal_strlit("sg-mas:cms-custodial");
        reveal_strlit("CMS License — Providing Custodial Services");
        reveal_strlit("Capital markets services license for providing custodial services for securities");
        reveal_strlit("sg-mas:sps-money-changing");
        reveal_strlit("SPS License — Money-Changing Service");
        reveal_strlit("Standard payment institution license for money-changing services");
        reveal_strlit("sg-mas:sps-cross-border-transfer");
        reveal_strlit("SPS License — Cross-Border Money Transfer");
        reveal_strlit("Payment services license for cross-border money transfer");
        reveal_strlit("sg-mas:sps-domestic-transfer");
        reveal_strlit("SPS License — Domestic Money Transfer");
        reveal_strlit("Payment services license for domestic money transfer");
        reveal_strlit("sg-mas:sps-merchant-acquisition");
        reveal_strlit("SPS License — Merchant Acquisition");
        reveal_strlit("Payment services license for merchant acquisition services");
        reveal_strlit("sg-mas:sps-e-money-issuance");
        reveal_strlit("SPS License — E-Money Issuance");
        reveal_strlit("Payment services license for e-money issuance");
        reveal_strlit("sg-mas:sps-dpt");
        reveal_strlit("SPS License — Digital Payment Token Service");
        reveal_strlit("Payment services license for digital payment token (DPT) services under the Payment Services Act");
        reveal_strlit("sg-mas:sps-money-lending");
        reveal_strlit("SPS License — Money-Lending");
        reveal_strlit("License for money-lending activities under the Moneylenders Act");
        reveal_strlit("sg-mas:trust-company");
        reveal_strlit("Trust Company License");
        reveal_strlit("License to carry on trust business under the Trust Companies Act");
        reveal_strlit("sg-mas:financial-adviser");
        reveal_strlit("Financial Adviser License");
        reveal_strlit("License to act as a financial adviser under the Financial Advisers Act");
        reveal_strlit("sg-mas:vcc");
        reveal_strlit("Variable Capital Company (VCC) Registration");
        reveal_strlit("Registration of a Variable Capital Company for fund structuring");
        reveal_strlit("sg-mas:dpt-service-provider");
        reveal_strlit("Digital Payment Token Service Provider License");
        reveal_strlit("Full license for digital payment token service providers under the Payment Services Act");
        reveal_with_fuel(complete_each, 26);
    }
    lemma_complete_each(spec_mas_license_types());
    assert(granted_by_each(spec_mas_license_types(), seq![spec_mas_regulator()][0].regulator_id)) by {
        reveal_with_fuel(granted_by_each, 26);
    }
    lemma_granted_by_each(spec_mas_license_types(), seq![spec_mas_regulator()], 0);
    assert(grants_some(spec_mas_license_types(), seq![spec_mas_regulator()][0].regulator_id)) by {
        assert(spec_mas_license_types()[0].regulator_id == seq![spec_mas_regulator()][0].regulator_id);
    }
    assert(grants_each(spec_mas_license_types(), seq![spec_mas_regulator()])) by {
        reveal_with_fuel(grants_each, 2);
    }
    lemma_grants_each(spec_mas_license_types(), seq![spec_mas_regulator()]);
    assert(in_jurisdiction_each(seq![spec_mas_regulator()], "sg"@)) by {
        reveal_with_fuel(in_jurisdiction_each, 2);
    }
    lemma_in_jurisdiction_each(seq![spec_mas_regulator()], "sg"@);
}

/// The licence types of `acra_license_types` are complete, granted by its regulators, and
/// each of its regulators grants at least one of them.
proof fn lemma_acra_group()
    ensures
        license_types_complete(spec_acra_license_types()),
        granted_by_listed_regulators(spec_acra_license_types(), seq![spec_acra_regulator()]),
        every_regulator_grants(spec_acra_license_types(), seq![spec_acra_regulator()]),
        regulators_in_jurisdiction(seq![spec_acra_regulator()], "sg"@),
{
    assert(complete_each(spec_acra_license_types())) by {
        reveal_strlit("sg-acra:private-limited-company");
        reveal_strlit("Private Limited Company Registration");
        reveal_strlit("Registration of a private company limited by shares under the Companies Act");
        reveal_strlit("sg-acra");
        reveal_strlit("sg-acra:public-company");
        reveal_strlit("Public Company Registration");
        reveal_strlit("Registration of a public company limited by shares");
        reveal_strlit("sg-acra:llp");
        reveal_strlit("Limited Liability Partnership (LLP) Registration");
        reveal_strlit("Registration of a limited liability partnership");
        reveal_strlit("sg-acra:lp");
        reveal_strlit("Limited Partnership (LP) Registration");
        reveal_strlit("Registration of a limited partnership under the Limited Partnerships Act");
        reveal_strlit("sg-acra:sole-proprietorship");
        reveal_strlit("Sole Proprietorship Registration");
        reveal_strlit("Registration of a sole proprietorship under the Business Names Registration Act");
        reveal_strlit("sg-acra:foreign-company");
        reveal_strlit("Foreign Company Registration");
        reveal_strlit("Registration of a foreign company branch in Singapore");
        reveal_strlit("sg-acra:registered-filing-agent");
        reveal_strlit("Registered Filing Agent");
        reveal_strlit("Registration as a filing agent authorized to file on behalf of entities");
        reveal_strlit("sg-acra:corporate-service-provider");
        reveal_strlit("Corporate Service Provider License");
        reveal_strlit("License to provide corporate secretarial and compliance services");
        reveal_with_fuel(complete_each, 9);
    }
    lemma_complete_each(spec_acra_license_types());
    assert(granted_by_each(spec_acra_license_types(), seq![spec_acra_regulator()][0].regulator_id)) by {
        reveal_with_fuel(granted_by_each, 9);
    }
    lemma_granted_by_each(spec_acra_license_types(), seq![spec_acra_regulator()], 0);
    assert(grants_some(spec_acra_license_types(), seq![spec_acra_regulator()][0].regulator_id)) by {
        assert(spec_acra_license_types()[0].regulator_id == seq![spec_acra_regulator()][0].regulator_id);
    }
    assert(grants_each(spec_acra_license_types(), seq![spec_acra_regulator()])) by {
        reveal_with_fuel(grants_each, 2);
    }
    lemma_grants_each(spec_acra_license_types(), seq![spec_acra_regulator()]);
    assert(in_jurisdiction_each(seq![spec_acra_regulator()], "sg"@)) by {
        reveal_with_fuel(in_jurisdiction_each, 2);
    }
    lemma_in_jurisdiction_each(seq![spec_acra_regulator()], "sg"@);
}

/// The licence types of `imda_license_types` are complete, granted by its regulators, and
/// each of its regulators grants at least one of them.
proof fn lemma_imda_group()
    ensures
        license_types_complete(spec_imda_license_types()),
        granted_by_listed_regulators(spec_imda_license_types(), seq![spec_imda_regulator()]),
        every_regulator_grants(spec_imda_license_types(), seq![spec_imda_regulator()]),
        regulators_in_jurisdiction(seq![spec_imda_regulator()], "sg"@),
{
    assert(complete_each(spec_imda_license_types())) by {
        reveal_strlit("sg-imda:facilities-based-operator");
        reveal_strlit("Facilities-Based Operator License");
        reveal_strlit("License to deploy and operate telecommunications network facilities in Singapore");
        reveal_strlit("sg-imda");
        reveal_strlit("sg-imda:services-based-operator");
        reveal_strlit("Services-Based Operator License");
        reveal_strlit("License to provide telecommunications services using third-party infrastructure");
        reveal_with_fuel(complete_each, 3);
    }
    lemma_complete_each(spec_imda_license_types());
    assert(granted_by_each(spec_imda_license_types(), seq![spec_imda_regulator()][0].regulator_id)) by {
        reveal_with_fuel(granted_by_each, 3);
    }
    lemma_granted_by_each(spec_imda_license_types(), seq![spec_imda_regulator()], 0);
    assert(grants_some(spec_imda_license_types(), seq![spec_imda_regulator()][0].regulator_id)) by {
        assert(spec_imda_license_types()[0].regulator_id == seq![spec_imda_regulator()][0].regulator_id);
    }
    assert(grants_each(spec_imda_license_types(), seq![spec_imda_regulator()])) by {
        reveal_with_fuel(grants_each, 2);
    }
    lemma_grants_each(spec_imda_license_types(), seq![spec_imda_regulator()]);
    assert(in_jurisdiction_each(seq![spec_imda_regulator()], "sg"@)) by {
        reveal_with_fuel(in_jurisdiction_each, 2);
    }
    lemma_in_jurisdiction_each(seq![spec_imda_regulator()], "sg"@);
}

/// The catalog of Singapore is consistent: every licence type has a non-empty identifier, name, description and
/// regulator identifier, a category, and at least one permitted activity;
/// every licence type is granted by one of its regulators;
/// every regulator grants at least one licence type;
/// every regulator belongs to jurisdiction `sg`.
pub proof fn lemma_singapore_catalog_consistent()
    ensures
        license_types_complete(spec_singapore_license_types()),
        granted_by_listed_regulators(spec_singapore_license_types(), spec_singapore_regulators()),
        every_regulator_grants(spec_singapore_license_types(), spec_singapore_regulators()),
        regulators_in_jurisdiction(spec_singapore_regulators(), "sg"@),
{
    lemma_mas_group();
    lemma_acra_group();
    lemma_imda_group();
    assert(spec_singapore_regulators() =~= seq![spec_mas_regulator()] + seq![spec_acra_regulator()] + seq![spec_imda_regulator()]);
    assert(spec_singapore_license_types() =~= spec_mas_license_types() + spec_acra_license_types() + spec_imda_license_types());
    lemma_complete_append(spec_mas_license_types(), spec_acra_license_types());
    lemma_granted_combine(spec_mas_license_types(), seq![spec_mas_regulator()], spec_acra_license_types(), seq![spec_acra_regulator()]);
    lemma_every_combine(spec_mas_license_types(), seq![spec_mas_regulator()], spec_acra_license_types(), seq![spec_acra_regulator()]);
    lemma_in_jurisdiction_append(seq![spec_mas_regulator()], seq![spec_acra_regulator()], "sg"@);
    lemma_complete_append(spec_mas_license_types() + spec_acra_license_types(), spec_imda_license_types());
    lemma_granted_combine(spec_mas_license_types() + spec_acra_license_types(), seq![spec_mas_regulator()] + seq![spec_acra_regulator()], spec_imda_license_types(), seq![spec_imda_regulator()]);
    lemma_every_combine(spec_mas_license_types() + spec_acra_license_types(), seq![spec_mas_regulator()] + seq![spec_acra_regulator()], spec_imda_license_types(), seq![spec_imda_regulator()]);
    lemma_in_jurisdiction_append(seq![spec_mas_regulator()] + seq![spec_acra_regulator()], seq![spec_imda_regulator()], "sg"@);
}

/// No two licence types of `mas_license_types` share an identifier.
proof fn lemma_mas_license_types_ids_distinct()
    ensures
        license_type_ids_distinct(spec_mas_license_types()),
{
    let t = spec_mas_license_types();
    assert(ids_distinct_each(t)) by {
        reveal_strlit("sg-mas:cms-advising");
        reveal_strlit("sg-mas:cms-credit-rating");
        reveal_strlit("sg-mas:cms-custodial");
        reveal_strlit("sg-mas:cms-dealing");
        reveal_strlit("sg-mas:cms-fund-management");
        reveal_strlit("sg-mas:cms-reit-management");
        reveal_strlit("sg-mas:digital-bank");
        reveal_strlit("sg-mas:direct-insurer");
        reveal_strlit("sg-mas:dpt-service-provider");
        reveal_strlit("sg-mas:financial-adviser");
        reveal_strlit("sg-mas:full-bank");
        reveal_strlit("sg-mas:insurance-broker");
        reveal_strlit("sg-mas:lloyds-asia");
        reveal_strlit("sg-mas:merchant-bank");
        reveal_strlit("sg-mas:reinsurer");
        reveal_strlit("sg-mas:sps-cross-border-transfer");
        reveal_strlit("sg-mas:sps-domestic-transfer");
        reveal_strlit("sg-mas:sps-dpt");
        reveal_strlit("sg-mas:sps-e-money-issuance");
        reveal_strlit("sg-mas:sps-merchant-acquisition");
        reveal_strlit("sg-mas:sps-money-changing");
        reveal_strlit("sg-mas:sps-money-lending");
        reveal_strlit("sg-mas:trust-company");
        reveal_strlit("sg-mas:vcc");
        reveal_strlit("sg-mas:wholesale-bank");
        assert(t[0].license_type_id[7] != t[1].license_type_id[7]);
        assert(t[0].license_type_id[7] != t[2].license_type_id[7]);
        assert(t[1].license_type_id[7] != t[2].license_type_id[7]);
        assert(t[0].license_type_id[7] != t[3].license_type_id[7]);
        assert(t[1].license_type_id[7] != t[3].license_type_id[7]);
        assert(t[2].license_type_id[7] != t[3].license_type_id[7]);
        assert(t[0].license_type_id[7] != t[4].license_type_id[7]);
        assert(t[1].license_type_id[7] != t[4].license_type_id[7]);
        assert(t[2].license_type_id[7] != t[4].license_type_id[7]);
        assert(t[3].license_type_id[9] != t[4].license_type_id[9]);
        assert(t[0].license_type_id[7] != t[5].license_type_id[7]);
        assert(t[1].license_type_id[7] != t[5].license_type_id[7]);
        assert(t[2].license_type_id[7] != t[5].license_type_id[7]);
        assert(t[3].license_type_id[7] != t[5].license_type_id[7]);
        assert(t[4].license_type_id[7] != t[5].license_type_id[7]);
        assert(t[0].license_type_id[7] != t[6].license_type_id[7]);
        assert(t[1].license_type_id[7] != t[6].license_type_id[7]);
        assert(t[2].license_type_id[7] != t[6].license_type_id[7]);
        assert(t[3].license_type_id[7] != t[6].license_type_id[7]);
        assert(t[4].license_type_id[7] != t[6].license_type_id[7]);
        assert(t[5].license_type_id[7] != t[6].license_type_id[7]);
        assert(t[0].license_type_id[7] != t[7].license_type_id[7]);
        assert(t[1].license_type_id[7] != t[7].license_type_id[7]);
        assert(t[2].license_type_id[7] != t[7].license_type_id[7]);
        assert(t[3].license_type_id[7] != t[7].license_type_id[7]);
        assert(t[4].license_type_id[7] != t[7].license_type_id[7]);
        assert(t[5].license_type_id[7] != t[7].license_type_id[7]);
        assert(t[6].license_type_id[7] != t[7].license_type_id[7]);
        assert(t[0].license_type_id[7] != t[8].license_type_id[7]);
        assert(t[1].license_type_id[7] != t[8].license_type_id[7]);
        assert(t[2].license_type_id[7] != t[8].license_type_id[7]);
        assert(t[3].license_type_id[7] != t[8].license_type_id[7]);
        assert(t[4].license_type_id[7] != t[8].license_type_id[7]);
        assert(t[5].license_type_id[7] != t[8].license_type_id[7]);
        assert(t[6].license_type_id[7] != t[8].license_type_id[7]);
        assert(t[7].license_type_id[7] != t[8].license_type_id[7]);
        assert(t[0].license_type_id[7] != t[9].license_type_id[7]);
        assert(t[1].license_type_id[7] != t[9].license_type_id[7]);
        assert(t[2].license_type_id[7] != t[9].license_type_id[7]);
        assert(t[3].license_type_id[7] != t[9].license_type_id[7]);
        assert(t[4].license_type_id[7] != t[9].license_type_id[7]);
        assert(t[5].license_type_id[7] != t[9].license_type_id[7]);
        assert(t[6].license_type_id[7] != t[9].license_type_id[7]);
        assert(t[7].license_type_id[7] != t[9].license_type_id[7]);
        assert(t[8].license_type_id[11] != t[9].license_type_id[11]);
        assert(t[0].license_type_id[7] != t[10].license_type_id[7]);
        assert(t[1].license_type_id[7] != t[10].license_type_id[7]);
        assert(t[2].license_type_id[7] != t[10].license_type_id[7]);
        assert(t[3].license_type_id[7] != t[10].license_type_id[7]);
        assert(t[4].license_type_id[7] != t[10].license_type_id[7]);
        assert(t[5].license_type_id[7] != t[10].license_type_id[7]);
        assert(t[6].license_type_id[7] != t[10].license_type_id[7]);
        assert(t[7].license_type_id[7] != t[10].license_type_id[7]);
        assert(t[8].license_type_id[11] != t[10].license_type_id[11]);
        assert(t[9].license_type_id[11] != t[10].license_type_id[11]);
        assert(t[0].license_type_id[7] != t[11].license_type_id[7]);
        assert(t[1].license_type_id[7] != t[11].license_type_id[7]);
        assert(t[2].license_type_id[7] != t[11].license_type_id[7]);
        assert(t[3].license_type_id[7] != t[11].license_type_id[7]);
        assert(t[4].license_type_id[7] != t[11].license_type_id[7]);
        assert(t[5].license_type_id[7] != t[11].license_type_id[7]);
        assert(t[6].license_type_id[7] != t[11].license_type_id[7]);
        assert(t[7].license_type_id[7] != t[11].license_type_id[7]);
        assert(t[8].license_type_id[11] != t[11].license_type_id[11]);
        assert(t[9].license_type_id[11] != t[11].license_type_id[11]);
        assert(t[10].license_type_id[11] != t[11].license_type_id[11]);
        assert(t[0].license_type_id[7] != t[12].license_type_id[7]);
        assert(t[1].license_type_id[7] != t[12].license_type_id[7]);
        assert(t[2].license_type_id[7] != t[12].license_type_id[7]);
        assert(t[3].license_type_id[7] != t[12].license_type_id[7]);
        assert(t[4].license_type_id[7] != t[12].license_type_id[7]);
        assert(t[5].license_type_id[7] != t[12].license_type_id[7]);
        assert(t[6].license_type_id[7] != t[12].license_type_id[7]);
        assert(t[7].license_type_id[7] != t[12].license_type_id[7]);
        assert(t[8].license_type_id[11] != t[12].license_type_id[11]);
        assert(t[9].license_type_id[11] != t[12].license_type_id[11]);
        assert(t[10].license_type_id[11] != t[12].license_type_id[11]);
        assert(t[11].license_type_id[11] != t[12].license_type_id[11]);
        assert(t[0].license_type_id[7] != t[13].license_type_id[7]);
        assert(t[1].license_type_id[7] != t[13].license_type_id[7]);
        assert(t[2].license_type_id[7] != t[13].license_type_id[7]);
        assert(t[3].license_type_id[7] != t[13].license_type_id[7]);
        assert(t[4].license_type_id[7] != t[13].license_type_id[7]);
        assert(t[5].license_type_id[7] != t[13].license_type_id[7]);
        assert(t[6].license_type_id[7] != t[13].license_type_id[7]);
        assert(t[7].license_type_id[7] != t[13].license_type_id[7]);
        assert(t[8].license_type_id[11] != t[13].license_type_id[11]);
        assert(t[9].license_type_id[11] != t[13].license_type_id[11]);
        assert(t[10].license_type_id[11] != t[13].license_type_id[11]);
        assert(t[11].license_type_id[11] != t[13].license_type_id[11]);
        assert(t[12].license_type_id[12] != t[13].license_type_id[12]);
        assert(t[0].license_type_id[7] != t[14].license_type_id[7]);
        assert(t[1].license_type_id[7] != t[14].license_type_id[7]);
        assert(t[2].license_type_id[7] != t[14].license_type_id[7]);
        assert(t[3].license_type_id[7] != t[14].license_type_id[7]);
        assert(t[4].license_type_id[7] != t[14].license_type_id[7]);
        assert(t[5].license_type_id[7] != t[14].license_type_id[7]);
        assert(t[6].license_type_id[7] != t[14].license_type_id[7]);
        assert(t[7].license_type_id[7] != t[14].license_type_id[7]);
        assert(t[8].license_type_id[7] != t[14].license_type_id[7]);
        assert(t[9].license_type_id[7] != t[14].license_type_id[7]);
        assert(t[10].license_type_id[7] != t[14].license_type_id[7]);
        assert(t[11].license_type_id[7] != t[14].license_type_id[7]);
        assert(t[12].license_type_id[7] != t[14].license_type_id[7]);
        assert(t[13].license_type_id[7] != t[14].license_type_id[7]);
        assert(t[0].license_type_id[7] != t[15].license_type_id[7]);
        assert(t[1].license_type_id[7] != t[15].license_type_id[7]);
        assert(t[2].license_type_id[7] != t[15].license_type_id[7]);
        assert(t[3].license_type_id[7] != t[15].license_type_id[7]);
        assert(t[4].license_type_id[7] != t[15].license_type_id[7]);
        assert(t[5].license_type_id[7] != t[15].license_type_id[7]);
        assert(t[6].license_type_id[7] != t[15].license_type_id[7]);
        assert(t[7].license_type_id[7] != t[15].license_type_id[7]);
        assert(t[8].license_type_id[7] != t[15].license_type_id[7]);
        assert(t[9].license_type_id[7] != t[15].license_type_id[7]);
        assert(t[10].license_type_id[7] != t[15].license_type_id[7]);
        assert(t[11].license_type_id[7] != t[15].license_type_id[7]);
        assert(t[12].license_type_id[7] != t[15].license_type_id[7]);
        assert(t[13].license_type_id[7] != t[15].license_type_id[7]);
        assert(t[14].license_type_id[11] != t[15].license_type_id[11]);
        assert(t[0].license_type_id[7] != t[16].license_type_id[7]);
        assert(t[1].license_type_id[7] != t[16].license_type_id[7]);
        assert(t[2].license_type_id[7] != t[16].license_type_id[7]);
        assert(t[3].license_type_id[7] != t[16].license_type_id[7]);
        assert(t[4].license_type_id[7] != t[16].license_type_id[7]);
        assert(t[5].license_type_id[7] != t[16].license_type_id[7]);
        assert(t[6].license_type_id[7] != t[16].license_type_id[7]);
        assert(t[7].license_type_id[7] != t[16].license_type_id[7]);
        assert(t[8].license_type_id[7] != t[16].license_type_id[7]);
        assert(t[9].license_type_id[7] != t[16].license_type_id[7]);
        assert(t[10].license_type_id[7] != t[16].license_type_id[7]);
        assert(t[11].license_type_id[7] != t[16].license_type_id[7]);
        assert(t[12].license_type_id[7] != t[16].license_type_id[7]);
        assert(t[13].license_type_id[7] != t[16].license_type_id[7]);
        assert(t[14].license_type_id[11] != t[16].license_type_id[11]);
        assert(t[15].license_type_id[11] != t[16].license_type_id[11]);
        assert(t[0].license_type_id[7] != t[17].license_type_id[7]);
        assert(t[1].license_type_id[7] != t[17].license_type_id[7]);
        assert(t[2].license_type_id[7] != t[17].license_type_id[7]);
        assert(t[3].license_type_id[7] != t[17].license_type_id[7]);
        assert(t[4].license_type_id[7] != t[17].license_type_id[7]);
        assert(t[5].license_type_id[7] != t[17].license_type_id[7]);
        assert(t[6].license_type_id[7] != t[17].license_type_id[7]);
        assert(t[7].license_type_id[7] != t[17].license_type_id[7]);
        assert(t[8].license_type_id[7] != t[17].license_type_id[7]);
        assert(t[9].license_type_id[7] != t[17].license_type_id[7]);
        assert(t[10].license_type_id[7] != t[17].license_type_id[7]);
        assert(t[11].license_type_id[7] != t[17].license_type_id[7]);
        assert(t[12].license_type_id[7] != t[17].license_type_id[7]);
        assert(t[13].license_type_id[7] != t[17].license_type_id[7]);
        assert(t[14].license_type_id[12] != t[17].license_type_id[12]);
        assert(t[15].license_type_id[11] != t[17].license_type_id[11]);
        assert(t[16].license_type_id[11] != t[17].license_type_id[11]);
        assert(t[0].license_type_id[7] != t[18].license_type_id[7]);
        assert(t[1].license_type_id[7] != t[18].license_type_id[7]);
        assert(t[2].license_type_id[7] != t[18].license_type_id[7]);
        assert(t[3].license_type_id[7] != t[18].license_type_id[7]);
        assert(t[4].license_type_id[7] != t[18].license_type_id[7]);
        assert(t[5].license_type_id[7] != t[18].license_type_id[7]);
        assert(t[6].license_type_id[7] != t[18].license_type_id[7]);
        assert(t[7].license_type_id[7] != t[18].license_type_id[7]);
        assert(t[8].license_type_id[7] != t[18].license_type_id[7]);
        assert(t[9].license_type_id[7] != t[18].license_type_id[7]);
        assert(t[10].license_type_id[7] != t[18].license_type_id[7]);
        assert(t[11].license_type_id[7] != t[18].license_type_id[7]);
        assert(t[12].license_type_id[7] != t[18].license_type_id[7]);
        assert(t[13].license_type_id[7] != t[18].license_type_id[7]);
        assert(t[14].license_type_id[11] != t[18].license_type_id[11]);
        assert(t[15].license_type_id[11] != t[18].license_type_id[11]);
        assert(t[16].license_type_id[11] != t[18].license_type_id[11]);
        assert(t[17].license_type_id[11] != t[18].license_type_id[11]);
        assert(t[0].license_type_id[7] != t[19].license_type_id[7]);
        assert(t[1].license_type_id[7] != t[19].license_type_id[7]);
        assert(t[2].license_type_id[7] != t[19].license_type_id[7]);
        assert(t[3].license_type_id[7] != t[19].license_type_id[7]);
        assert(t[4].license_type_id[7] != t[19].license_type_id[7]);
        assert(t[5].license_type_id[7] != t[19].license_type_id[7]);
        assert(t[6].license_type_id[7] != t[19].license_type_id[7]);
        assert(t[7].license_type_id[7] != t[19].license_type_id[7]);
        assert(t[8].license_type_id[7] != t[19].license_type_id[7]);
        assert(t[9].license_type_id[7] != t[19].license_type_id[7]);
        assert(t[10].license_type_id[7] != t[19].license_type_id[7]);
        assert(t[11].license_type_id[7] != t[19].license_type_id[7]);
        assert(t[12].license_type_id[7] != t[19].license_type_id[7]);
        assert(t[13].license_type_id[7] != t[19].license_type_id[7]);
        assert(t[14].license_type_id[11] != t[19].license_type_id[11]);
        assert(t[15].license_type_id[11] != t[19].license_type_id[11]);
        assert(t[16].license_type_id[12] != t[19].license_type_id[12]);
        assert(t[17].license_type_id[11] != t[19].license_type_id[11]);
        assert(t[18].license_type_id[11] != t[19].license_type_id[11]);
        assert(t[0].license_type_id[7] != t[20].license_type_id[7]);
        assert(t[1].license_type_id[7] != t[20].license_type_id[7]);
        assert(t[2].license_type_id[7] != t[20].license_type_id[7]);
        assert(t[3].license_type_id[7] != t[20].license_type_id[7]);
        assert(t[4].license_type_id[7] != t[20].license_type_id[7]);
        assert(t[5].license_type_id[7] != t[20].license_type_id[7]);
        assert(t[6].license_type_id[7] != t[20].license_type_id[7]);
        assert(t[7].license_type_id[7] != t[20].license_type_id[7]);
        assert(t[8].license_type_id[7] != t[20].license_type_id[7]);
        assert(t[9].license_type_id[7] != t[20].license_type_id[7]);
        assert(t[10].license_type_id[7] != t[20].license_type_id[7]);
        assert(t[11].license_type_id[7] != t[20].license_type_id[7]);
        assert(t[12].license_type_id[7] != t[20].license_type_id[7]);
        assert(t[13].license_type_id[7] != t[20].license_type_id[7]);
        assert(t[14].license_type_id[17] != t[20].license_type_id[17]);
        assert(t[15].license_type_id[11] != t[20].license_type_id[11]);
        assert(t[16].license_type_id[11] != t[20].license_type_id[11]);
        assert(t[17].license_type_id[12] != t[20].license_type_id[12]);
        assert(t[18].license_type_id[11] != t[20].license_type_id[11]);
        assert(t[19].license_type_id[11] != t[20].license_type_id[11]);
        assert(t[0].license_type_id[7] != t[21].license_type_id[7]);
        assert(t[1].license_type_id[7] != t[21].license_type_id[7]);
        assert(t[2].license_type_id[7] != t[21].license_type_id[7]);
        assert(t[3].license_type_id[7] != t[21].license_type_id[7]);
        assert(t[4].license_type_id[7] != t[21].license_type_id[7]);
        assert(t[5].license_type_id[7] != t[21].license_type_id[7]);
        assert(t[6].license_type_id[7] != t[21].license_type_id[7]);
        assert(t[7].license_type_id[7] != t[21].license_type_id[7]);
        assert(t[8].license_type_id[7] != t[21].license_type_id[7]);
        assert(t[9].license_type_id[7] != t[21].license_type_id[7]);
        assert(t[10].license_type_id[7] != t[21].license_type_id[7]);
        assert(t[11].license_type_id[7] != t[21].license_type_id[7]);
        assert(t[12].license_type_id[7] != t[21].license_type_id[7]);
        assert(t[13].license_type_id[7] != t[21].license_type_id[7]);
        assert(t[14].license_type_id[7] != t[21].license_type_id[7]);
        assert(t[15].license_type_id[7] != t[21].license_type_id[7]);
        assert(t[16].license_type_id[7] != t[21].license_type_id[7]);
        assert(t[17].license_type_id[7] != t[21].license_type_id[7]);
        assert(t[18].license_type_id[7] != t[21].license_type_id[7]);
        assert(t[19].license_type_id[7] != t[21].license_type_id[7]);
        assert(t[20].license_type_id[7] != t[21].license_type_id[7]);
        assert(t[0].license_type_id[8] != t[22].license_type_id[8]);
        assert(t[1].license_type_id[7] != t[22].license_type_id[7]);
        assert(t[2].license_type_id[7] != t[22].license_type_id[7]);
        assert(t[3].license_type_id[7] != t[22].license_type_id[7]);
        assert(t[4].license_type_id[7] != t[22].license_type_id[7]);
        assert(t[5].license_type_id[7] != t[22].license_type_id[7]);
        assert(t[6].license_type_id[7] != t[22].license_type_id[7]);
        assert(t[7].license_type_id[7] != t[22].license_type_id[7]);
        assert(t[8].license_type_id[7] != t[22].license_type_id[7]);
        assert(t[9].license_type_id[7] != t[22].license_type_id[7]);
        assert(t[10].license_type_id[7] != t[22].license_type_id[7]);
        assert(t[11].license_type_id[7] != t[22].license_type_id[7]);
        assert(t[12].license_type_id[7] != t[22].license_type_id[7]);
        assert(t[13].license_type_id[7] != t[22].license_type_id[7]);
        assert(t[14].license_type_id[7] != t[22].license_type_id[7]);
        assert(t[15].license_type_id[7] != t[22].license_type_id[7]);
        assert(t[16].license_type_id[7] != t[22].license_type_id[7]);
        assert(t[17].license_type_id[7] != t[22].license_type_id[7]);
        assert(t[18].license_type_id[7] != t[22].license_type_id[7]);
        assert(t[19].license_type_id[7] != t[22].license_type_id[7]);
        assert(t[20].license_type_id[7] != t[22].license_type_id[7]);
        assert(t[21].license_type_id[7] != t[22].license_type_id[7]);
        assert(t[0].license_type_id[7] != t[23].license_type_id[7]);
        assert(t[1].license_type_id[7] != t[23].license_type_id[7]);
        assert(t[2].license_type_id[7] != t[23].license_type_id[7]);
        assert(t[3].license_type_id[7] != t[23].license_type_id[7]);
        assert(t[4].license_type_id[7] != t[23].license_type_id[7]);
        assert(t[5].license_type_id[7] != t[23].license_type_id[7]);
        assert(t[6].license_type_id[7] != t[23].license_type_id[7]);
        assert(t[7].license_type_id[7] != t[23].license_type_id[7]);
        assert(t[8].license_type_id[7] != t[23].license_type_id[7]);
        assert(t[9].license_type_id[7] != t[23].license_type_id[7]);
        assert(t[10].license_type_id[7] != t[23].license_type_id[7]);
        assert(t[11].license_type_id[7] != t[23].license_type_id[7]);
        assert(t[12].license_type_id[7] != t[23].license_type_id[7]);
        assert(t[13].license_type_id[7] != t[23].license_type_id[7]);
        assert(t[14].license_type_id[7] != t[23].license_type_id[7]);
        assert(t[15].license_type_id[7] != t[23].license_type_id[7]);
        assert(t[16].license_type_id[7] != t[23].license_type_id[7]);
        assert(t[17].license_type_id[7] != t[23].license_type_id[7]);
        assert(t[18].license_type_id[7] != t[23].license_type_id[7]);
        assert(t[19].license_type_id[7] != t[23].license_type_id[7]);
        assert(t[20].license_type_id[7] != t[23].license_type_id[7]);
        assert(t[21].license_type_id[7] != t[23].license_type_id[7]);
        assert(t[22].license_type_id[7] != t[23].license_type_id[7]);
        assert(t[0].license_type_id[7] != t[24].license_type_id[7]);
        assert(t[1].license_type_id[7] != t[24].license_type_id[7]);
        assert(t[2].license_type_id[7] != t[24].license_type_id[7]);
        assert(t[3].license_type_id[8] != t[24].license_type_id[8]);
        assert(t[4].license_type_id[8] != t[24].license_type_id[8]);
        assert(t[5].license_type_id[7] != t[24].license_type_id[7]);
        assert(t[6].license_type_id[7] != t[24].license_type_id[7]);
        assert(t[7].license_type_id[7] != t[24].license_type_id[7]);
        assert(t[8].license_type_id[7] != t[24].license_type_id[7]);
        assert(t[9].license_type_id[7] != t[24].license_type_id[7]);
        assert(t[10].license_type_id[7] != t[24].license_type_id[7]);
        assert(t[11].license_type_id[7] != t[24].license_type_id[7]);
        assert(t[12].license_type_id[7] != t[24].license_type_id[7]);
        assert(t[13].license_type_id[7] != t[24].license_type_id[7]);
        assert(t[14].license_type_id[7] != t[24].license_type_id[7]);
        assert(t[15].license_type_id[7] != t[24].license_type_id[7]);
        assert(t[16].license_type_id[7] != t[24].license_type_id[7]);
        assert(t[17].license_type_id[7] != t[24].license_type_id[7]);
        assert(t[18].license_type_id[7] != t[24].license_type_id[7]);
        assert(t[19].license_type_id[7] != t[24].license_type_id[7]);
        assert(t[20].license_type_id[7] != t[24].license_type_id[7]);
        assert(t[21].license_type_id[7] != t[24].license_type_id[7]);
        assert(t[22].license_type_id[7] != t[24].license_type_id[7]);
        assert(t[23].license_type_id[7] != t[24].license_type_id[7]);
        reveal_with_fuel(ids_distinct_each, 26);
        reveal_with_fuel(id_fresh_each, 26);
    }
    lemma_ids_distinct_each(t);
}

/// No two licence types of `acra_license_types` share an identifier.
proof fn lemma_acra_license_types_ids_distinct()
    ensures
        license_type_ids_distinct(spec_acra_license_types()),
{
    let t = spec_acra_license_types();
    assert(ids_distinct_each(t)) by {
        reveal_strlit("sg-acra:corporate-service-provider");
        reveal_strlit("sg-acra:foreign-company");
        reveal_strlit("sg-acra:llp");
        reveal_strlit("sg-acra:lp");
        reveal_strlit("sg-acra:private-limited-company");
        reveal_strlit("sg-acra:public-company");
        reveal_strlit("sg-acra:registered-filing-agent");
        reveal_strlit("sg-acra:sole-proprietorship");
        assert(t[0].license_type_id[9] != t[1].license_type_id[9]);
        assert(t[0].license_type_id[8] != t[2].license_type_id[8]);
        assert(t[1].license_type_id[8] != t[2].license_type_id[8]);
        assert(t[0].license_type_id[8] != t[3].license_type_id[8]);
        assert(t[1].license_type_id[8] != t[3].license_type_id[8]);
        assert(t[2].license_type_id[9] != t[3].license_type_id[9]);
        assert(t[0].license_type_id[8] != t[4].license_type_id[8]);
        assert(t[1].license_type_id[8] != t[4].license_type_id[8]);
        assert(t[2].license_type_id[8] != t[4].license_type_id[8]);
        assert(t[3].license_type_id[8] != t[4].license_type_id[8]);
        assert(t[0].license_type_id[8] != t[5].license_type_id[8]);
        assert(t[1].license_type_id[8] != t[5].license_type_id[8]);
        assert(t[2].license_type_id[8] != t[5].license_type_id[8]);
        assert(t[3].license_type_id[8] != t[5].license_type_id[8]);
        assert(t[4].license_type_id[8] != t[5].license_type_id[8]);
        assert(t[0].license_type_id[8] != t[6].license_type_id[8]);
        assert(t[1].license_type_id[8] != t[6].license_type_id[8]);
        assert(t[2].license_type_id[8] != t[6].license_type_id[8]);
        assert(t[3].license_type_id[8] != t[6].license_type_id[8]);
        assert(t[4].license_type_id[8] != t[6].license_type_id[8]);
        assert(t[5].license_type_id[8] != t[6].license_type_id[8]);
        assert(t[0].license_type_id[8] != t[7].license_type_id[8]);
        assert(t[1].license_type_id[8] != t[7].license_type_id[8]);
        assert(t[2].license_type_id[8] != t[7].license_type_id[8]);
        assert(t[3].license_type_id[8] != t[7].license_type_id[8]);
        assert(t[4].license_type_id[8] != t[7].license_type_id[8]);
        assert(t[5].license_type_id[8] != t[7].license_type_id[8]);
        assert(t[6].license_type_id[8] != t[7].license_type_id[8]);
        reveal_with_fuel(ids_distinct_each, 9);
        reveal_with_fuel(id_fresh_each, 9);
    }
    lemma_ids_distinct_each(t);
}

/// No two licence types of `imda_license_types` share an identifier.
proof fn lemma_imda_license_types_ids_distinct()
    ensures
        license_type_ids_distinct(spec_imda_license_types()),
{
    let t = spec_imda_license_types();
    assert(ids_distinct_each(t)) by {
        reveal_strlit("sg-imda:facilities-based-operator");
        reveal_strlit("sg-imda:services-based-operator");
        assert(t[0].license_type_id[8] != t[1].license_type_id[8]);
        reveal_with_fuel(ids_distinct_each, 3);
        reveal_with_fuel(id_fresh_each, 3);
    }
    lemma_ids_distinct_each(t);
}

/// No licence type of `mas_license_types` shares an identifier with one of `acra_license_types`.
proof fn lemma_mas_license_types_apart_from_acra_license_types()
    ensures
        license_type_ids_apart(spec_mas_license_types(), spec_acra_license_types()),
{
    let a = spec_mas_license_types();
    let b = spec_acra_license_types();
    assert(apart_each(a, b)) by {
        reveal_strlit("sg-acra:corporate-service-provider");
        reveal_strlit("sg-acra:foreign-company");
        reveal_strlit("sg-acra:llp");
        reveal_strlit("sg-acra:lp");
        reveal_strlit("sg-acra:private-limited-company");
        reveal_strlit("sg-acra:public-company");
        reveal_strlit("sg-acra:registered-filing-agent");
        reveal_strlit("sg-acra:sole-proprietorship");
        reveal_strlit("sg-mas:cms-advising");
        reveal_strlit("sg-mas:cms-credit-rating");
        reveal_strlit("sg-mas:cms-custodial");
        reveal_strlit("sg-mas:cms-dealing");
        reveal_strlit("sg-mas:cms-fund-management");
        reveal_strlit("sg-mas:cms-reit-management");
        reveal_strlit("sg-mas:digital-bank");
        reveal_strlit("sg-mas:direct-insurer");
        reveal_strlit("sg-mas:dpt-service-provider");
        reveal_strlit("sg-mas:financial-adviser");
        reveal_strlit("sg-mas:full-bank");
        reveal_strlit("sg-mas:insurance-broker");
        reveal_strlit("sg-mas:lloyds-asia");
        reveal_strlit("sg-mas:merchant-bank");
        reveal_strlit("sg-mas:reinsurer");
        reveal_strlit("sg-mas:sps-cross-border-transfer");
        reveal_strlit("sg-mas:sps-domestic-transfer");
        reveal_strlit("sg-mas:sps-dpt");
        reveal_strlit("sg-mas:sps-e-money-issuance");
        reveal_strlit("sg-mas:sps-merchant-acquisition");
        reveal_strlit("sg-mas:sps-money-changing");
        reveal_strlit("sg-mas:sps-money-lending");
        reveal_strlit("sg-mas:trust-company");
        reveal_strlit("sg-mas:vcc");
        reveal_strlit("sg-mas:wholesale-bank");
        assert(a[0].license_type_id[3] != b[0].license_type_id[3]);
        assert(a[0].license_type_id[3] != b[1].license_type_id[3]);
        assert(a[0].license_type_id[3] != b[2].license_type_id[3]);
        assert(a[0].license_type_id[3] != b[3].license_type_id[3]);
        assert(a[0].license_type_id[3] != b[4].license_type_id[3]);
        assert(a[0].license_type_id[3] != b[5].license_type_id[3]);
        assert(a[0].license_type_id[3] != b[6].license_type_id[3]);
        assert(a[0].license_type_id[3] != b[7].license_type_id[3]);
        assert(a[1].license_type_id[3] != b[0].license_type_id[3]);
        assert(a[1].license_type_id[3] != b[1].license_type_id[3]);
        assert(a[1].license_type_id[3] != b[2].license_type_id[3]);
        assert(a[1].license_type_id[3] != b[3].license_type_id[3]);
        assert(a[1].license_type_id[3] != b[4].license_type_id[3]);
        assert(a[1].license_type_id[3] != b[5].license_type_id[3]);
        assert(a[1].license_type_id[3] != b[6].license_type_id[3]);
        assert(a[1].license_type_id[3] != b[7].license_type_id[3]);
        assert(a[2].license_type_id[3] != b[0].license_type_id[3]);
        assert(a[2].license_type_id[3] != b[1].license_type_id[3]);
        assert(a[2].license_type_id[3] != b[2].license_type_id[3]);
        assert(a[2].license_type_id[3] != b[3].license_type_id[3]);
        assert(a[2].license_type_id[3] != b[4].license_type_id[3]);
        assert(a[2].license_type_id[3] != b[5].license_type_id[3]);
        assert(a[2].license_type_id[3] != b[6].license_type_id[3]);
        assert(a[2].license_type_id[3] != b[7].license_type_id[3]);
        assert(a[3].license_type_id[3] != b[0].license_type_id[3]);
        assert(a[3].license_type_id[3] != b[1].license_type_id[3]);
        assert(a[3].license_type_id[3] != b[2].license_type_id[3]);
        assert(a[3].license_type_id[3] != b[3].license_type_id[3]);
        assert(a[3].license_type_id[3] != b[4].license_type_id[3]);
        assert(a[3].license_type_id[3] != b[5].license_type_id[3]);
        assert(a[3].license_type_id[3] != b[6].license_type_id[3]);
        assert(a[3].license_type_id[3] != b[7].license_type_id[3]);
        assert(a[4].license_type_id[3] != b[0].license_type_id[3]);
        assert(a[4].license_type_id[3] != b[1].license_type_id[3]);
        assert(a[4].license_type_id[3] != b[2].license_type_id[3]);
        assert(a[4].license_type_id[3] != b[3].license_type_id[3]);
        assert(a[4].license_type_id[3] != b[4].license_type_id[3]);
        assert(a[4].license_type_id[3] != b[5].license_type_id[3]);
        assert(a[4].license_type_id[3] != b[6].license_type_id[3]);
        assert(a[4].license_type_id[3] != b[7].license_type_id[3]);
        assert(a[5].license_type_id[3] != b[0].license_type_id[3]);
        assert(a[5].license_type_id[3] != b[1].license_type_id[3]);
        assert(a[5].license_type_id[3] != b[2].license_type_id[3]);
        assert(a[5].license_type_id[3] != b[3].license_type_id[3]);
        assert(a[5].license_type_id[3] != b[4].license_type_id[3]);
        assert(a[5].license_type_id[3] != b[5].license_type_id[3]);
        assert(a[5].license_type_id[3] != b[6].license_type_id[3]);
        assert(a[5].license_type_id[3] != b[7].license_type_id[3]);
        assert(a[6].license_type_id[3] != b[0].license_type_id[3]);
        assert(a[6].license_type_id[3] != b[1].license_type_id[3]);
        assert(a[6].license_type_id[3] != b[2].license_type_id[3]);
        assert(a[6].license_type_id[3] != b[3].license_type_id[3]);
        assert(a[6].license_type_id[3] != b[4].license_type_id[3]);
        assert(a[6].license_type_id[3] != b[5].license_type_id[3]);
        assert(a[6].license_type_id[3] != b[6].license_type_id[3]);
        assert(a[6].license_type_id[3] != b[7].license_type_id[3]);
        assert(a[7].license_type_id[3] != b[0].license_type_id[3]);
        assert(a[7].license_type_id[3] != b[1].license_type_id[3]);
        assert(a[7].license_type_id[3] != b[2].license_type_id[3]);
        assert(a[7].license_type_id[3] != b[3].license_type_id[3]);
        assert(a[7].license_type_id[3] != b[4].license_type_id[3]);
        assert(a[7].license_type_id[3] != b[5].license_type_id[3]);
        assert(a[7].license_type_id[3] != b[6].license_type_id[3]);
        assert(a[7].license_type_id[3] != b[7].license_type_id[3]);
        assert(a[8].license_type_id[3] != b[0].license_type_id[3]);
        assert(a[8].license_type_id[3] != b[1].license_type_id[3]);
        assert(a[8].license_type_id[3] != b[2].license_type_id[3]);
        assert(a[8].license_type_id[3] != b[3].license_type_id[3]);
        assert(a[8].license_type_id[3] != b[4].license_type_id[3]);
        assert(a[8].license_type_id[3] != b[5].license_type_id[3]);
        assert(a[8].license_type_id[3] != b[6].license_type_id[3]);
        assert(a[8].license_type_id[3] != b[7].license_type_id[3]);
        assert(a[9].license_type_id[3] != b[0].license_type_id[3]);
        assert(a[9].license_type_id[3] != b[1].license_type_id[3]);
        assert(a[9].license_type_id[3] != b[2].license_type_id[3]);
        assert(a[9].license_type_id[3] != b[3].license_type_id[3]);
        assert(a[9].license_type_id[3] != b[4].license_type_id[3]);
        assert(a[9].license_type_id[3] != b[5].license_type_id[3]);
        assert(a[9].license_type_id[3] != b[6].license_type_id[3]);
        assert(a[9].license_type_id[3] != b[7].license_type_id[3]);
        assert(a[10].license_type_id[3] != b[0].license_type_id[3]);
        assert(a[10].license_type_id[3] != b[1].license_type_id[3]);
        assert(a[10].license_type_id[3] != b[2].license_type_id[3]);
        assert(a[10].license_type_id[3] != b[3].license_type_id[3]);
        assert(a[10].license_type_id[3] != b[4].license_type_id[3]);
        assert(a[10].license_type_id[3] != b[5].license_type_id[3]);
        assert(a[10].license_type_id[3] != b[6].license_type_id[3]);
        assert(a[10].license_type_id[3] != b[7].license_type_id[3]);
        assert(a[11].license_type_id[3] != b[0].license_type_id[3]);
        assert(a[11].license_type_id[3] != b[1].license_type_id[3]);
        assert(a[11].license_type_id[3] != b[2].license_type_id[3]);
        assert(a[11].license_type_id[3] != b[3].license_type_id[3]);
        assert(a[11].license_type_id[3] != b[4].license_type_id[3]);
        assert(a[11].license_type_id[3] != b[5].license_type_id[3]);
        assert(a[11].license_type_id[3] != b[6].license_type_id[3]);
        assert(a[11].license_type_id[3] != b[7].license_type_id[3]);
        assert(a[12].license_type_id[3] != b[0].license_type_id[3]);
        assert(a[12].license_type_id[3] != b[1].license_type_id[3]);
        assert(a[12].license_type_id[3] != b[2].license_type_id[3]);
        assert(a[12].license_type_id[3] != b[3].license_type_id[3]);
        assert(a[12].license_type_id[3] != b[4].license_type_id[3]);
        assert(a[12].license_type_id[3] != b[5].license_type_id[3]);
        assert(a[12].license_type_id[3] != b[6].license_type_id[3]);
        assert(a[12].license_type_id[3] != b[7].license_type_id[3]);
        assert(a[13].license_type_id[3] != b[0].license_type_id[3]);
        assert(a[13].license_type_id[3] != b[1].license_type_id[3]);
        assert(a[13].license_type_id[3] != b[2].license_type_id[3]);
        assert(a[13].license_type_id[3] != b[3].license_type_id[3]);
        assert(a[13].license_type_id[3] != b[4].license_type_id[3]);
        assert(a[13].license_type_id[3] != b[5].license_type_id[3]);
        assert(a[13].license_type_id[3] != b[6].license_type_id[3]);
        assert(a[13].license_type_id[3] != b[7].license_type_id[3]);
        assert(a[14].license_type_id[3] != b[0].license_type_id[3]);
        assert(a[14].license_type_id[3] != b[1].license_type_id[3]);
        assert(a[14].license_type_id[3] != b[2].license_type_id[3]);
        assert(a[14].license_type_id[3] != b[3].license_type_id[3]);
        assert(a[14].license_type_id[3] != b[4].license_type_id[3]);
        assert(a[14].license_type_id[3] != b[5].license_type_id[3]);
        assert(a[14].license_type_id[3] != b[6].license_type_id[3]);
        assert(a[14].license_type_id[3] != b[7].license_type_id[3]);
        assert(a[15].license_type_id[3] != b[0].license_type_id[3]);
        assert(a[15].license_type_id[3] != b[1].license_type_id[3]);
        assert(a[15].license_type_id[3] != b[2].license_type_id[3]);
        assert(a[15].license_type_id[3] != b[3].license_type_id[3]);
        assert(a[15].license_type_id[3] != b[4].license_type_id[3]);
        assert(a[15].license_type_id[3] != b[5].license_type_id[3]);
        assert(a[15].license_type_id[3] != b[6].license_type_id[3]);
        assert(a[15].license_type_id[3] != b[7].license_type_id[3]);
        assert(a[16].license_type_id[3] != b[0].license_type_id[3]);
        assert(a[16].license_type_id[3] != b[1].license_type_id[3]);
        assert(a[16].license_type_id[3] != b[2].license_type_id[3]);
        assert(a[16].license_type_id[3] != b[3].license_type_id[3]);
        assert(a[16].license_type_id[3] != b[4].license_type_id[3]);
        assert(a[16].license_type_id[3] != b[5].license_type_id[3]);
        assert(a[16].license_type_id[3] != b[6].license_type_id[3]);
        assert(a[16].license_type_id[3] != b[7].license_type_id[3]);
        assert(a[17].license_type_id[3] != b[0].license_type_id[3]);
        assert(a[17].license_type_id[3] != b[1].license_type_id[3]);
        assert(a[17].license_type_id[3] != b[2].license_type_id[3]);
        assert(a[17].license_type_id[3] != b[3].license_type_id[3]);
        assert(a[17].license_type_id[3] != b[4].license_type_id[3]);
        assert(a[17].license_type_id[3] != b[5].license_type_id[3]);
        assert(a[17].license_type_id[3] != b[6].license_type_id[3]);
        assert(a[17].license_type_id[3] != b[7].license_type_id[3]);
        assert(a[18].license_type_id[3] != b[0].license_type_id[3]);
        assert(a[18].license_type_id[3] != b[1].license_type_id[3]);
        assert(a[18].license_type_id[3] != b[2].license_type_id[3]);
        assert(a[18].license_type_id[3] != b[3].license_type_id[3]);
        assert(a[18].license_type_id[3] != b[4].license_type_id[3]);
        assert(a[18].license_type_id[3] != b[5].license_type_id[3]);
        assert(a[18].license_type_id[3] != b[6].license_type_id[3]);
        assert(a[18].license_type_id[3] != b[7].license_type_id[3]);
        assert(a[19].license_type_id[3] != b[0].license_type_id[3]);
        assert(a[19].license_type_id[3] != b[1].license_type_id[3]);
        assert(a[19].license_type_id[3] != b[2].license_type_id[3]);
        assert(a[19].license_type_id[3] != b[3].license_type_id[3]);
        assert(a[19].license_type_id[3] != b[4].license_type_id[3]);
        assert(a[19].license_type_id[3] != b[5].license_type_id[3]);
        assert(a[19].license_type_id[3] != b[6].license_type_id[3]);
        assert(a[19].license_type_id[3] != b[7].license_type_id[3]);
        assert(a[20].license_type_id[3] != b[0].license_type_id[3]);
        assert(a[20].license_type_id[3] != b[1].license_type_id[3]);
        assert(a[20].license_type_id[3] != b[2].license_type_id[3]);
        assert(a[20].license_type_id[3] != b[3].license_type_id[3]);
        assert(a[20].license_type_id[3] != b[4].license_type_id[3]);
        assert(a[20].license_type_id[3] != b[5].license_type_id[3]);
        assert(a[20].license_type_id[3] != b[6].license_type_id[3]);
        assert(a[20].license_type_id[3] != b[7].license_type_id[3]);
        assert(a[21].license_type_id[3] != b[0].license_type_id[3]);
        assert(a[21].license_type_id[3] != b[1].license_type_id[3]);
        assert(a[21].license_type_id[3] != b[2].license_type_id[3]);
        assert(a[21].license_type_id[3] != b[3].license_type_id[3]);
        assert(a[21].license_type_id[3] != b[4].license_type_id[3]);
        assert(a[21].license_type_id[3] != b[5].license_type_id[3]);
        assert(a[21].license_type_id[3] != b[6].license_type_id[3]);
        assert(a[21].license_type_id[3] != b[7].license_type_id[3]);
        assert(a[22].license_type_id[3] != b[0].license_type_id[3]);
        assert(a[22].license_type_id[3] != b[1].license_type_id[3]);
        assert(a[22].license_type_id[3] != b[2].license_type_id[3]);
        assert(a[22].license_type_id[3] != b[3].license_type_id[3]);
        assert(a[22].license_type_id[3] != b[4].license_type_id[3]);
        assert(a[22].license_type_id[3] != b[5].license_type_id[3]);
        assert(a[22].license_type_id[3] != b[6].license_type_id[3]);
        assert(a[22].license_type_id[3] != b[7].license_type_id[3]);
        assert(a[23].license_type_id[3] != b[0].license_type_id[3]);
        assert(a[23].license_type_id[3] != b[1].license_type_id[3]);
        assert(a[23].license_type_id[3] != b[2].license_type_id[3]);
        assert(a[23].license_type_id[3] != b[3].license_type_id[3]);
        assert(a[23].license_type_id[3] != b[4].license_type_id[3]);
        assert(a[23].license_type_id[3] != b[5].license_type_id[3]);
        assert(a[23].license_type_id[3] != b[6].license_type_id[3]);
        assert(a[23].license_type_id[3] != b[7].license_type_id[3]);
        assert(a[24].license_type_id[3] != b[0].license_type_id[3]);
        assert(a[24].license_type_id[3] != b[1].license_type_id[3]);
        assert(a[24].license_type_id[3] != b[2].license_type_id[3]);
        assert(a[24].license_type_id[3] != b[3].license_type_id[3]);
        assert(a[24].license_type_id[3] != b[4].license_type_id[3]);
        assert(a[24].license_type_id[3] != b[5].license_type_id[3]);
        assert(a[24].license_type_id[3] != b[6].license_type_id[3]);
        assert(a[24].license_type_id[3] != b[7].license_type_id[3]);
        reveal_with_fuel(apart_each, 26);
        reveal_with_fuel(id_fresh_each, 9);
    }
    lemma_apart_each(a, b);
}

/// No licence type of `mas_license_types` shares an identifier with one of `imda_license_types`.
proof fn lemma_mas_license_types_apart_from_imda_license_types()
    ensures
        license_type_ids_apart(spec_mas_license_types(), spec_imda_license_types()),
{
    let a = spec_mas_license_types();
    let b = spec_imda_license_types();
    assert(apart_each(a, b)) by {
        reveal_strlit("sg-imda:facilities-based-operator");
        reveal_strlit("sg-imda:services-based-operator");
        reveal_strlit("sg-mas:cms-advising");
        reveal_strlit("sg-mas:cms-credit-rating");
        reveal_strlit("sg-mas:cms-custodial");
        reveal_strlit("sg-mas:cms-dealing");
        reveal_strlit("sg-mas:cms-fund-management");
        reveal_strlit("sg-mas:cms-reit-management");
        reveal_strlit("sg-mas:digital-bank");
        reveal_strlit("sg-mas:direct-insurer");
        reveal_strlit("sg-mas:dpt-service-provider");
        reveal_strlit("sg-mas:financial-adviser");
        reveal_strlit("sg-mas:full-bank");
        reveal_strlit("sg-mas:insurance-broker");
        reveal_strlit("sg-mas:lloyds-asia");
        reveal_strlit("sg-mas:merchant-bank");
        reveal_strlit("sg-mas:reinsurer");
        reveal_strlit("sg-mas:sps-cross-border-transfer");
        reveal_strlit("sg-mas:sps-domestic-transfer");
        reveal_strlit("sg-mas:sps-dpt");
        reveal_strlit("sg-mas:sps-e-money-issuance");
        reveal_strlit("sg-mas:sps-merchant-acquisition");
        reveal_strlit("sg-mas:sps-money-changing");
        reveal_strlit("sg-mas:sps-money-lending");
        reveal_strlit("sg-mas:trust-company");
        reveal_strlit("sg-mas:vcc");
        reveal_strlit("sg-mas:wholesale-bank");
        assert(a[0].license_type_id[3] != b[0].license_type_id[3]);
        assert(a[0].license_type_id[3] != b[1].license_type_id[3]);
        assert(a[1].license_type_id[3] != b[0].license_type_id[3]);
        assert(a[1].license_type_id[3] != b[1].license_type_id[3]);
        assert(a[2].license_type_id[3] != b[0].license_type_id[3]);
        assert(a[2].license_type_id[3] != b[1].license_type_id[3]);
        assert(a[3].license_type_id[3] != b[0].license_type_id[3]);
        assert(a[3].license_type_id[3] != b[1].license_type_id[3]);
        assert(a[4].license_type_id[3] != b[0].license_type_id[3]);
        assert(a[4].license_type_id[3] != b[1].license_type_id[3]);
        assert(a[5].license_type_id[3] != b[0].license_type_id[3]);
        assert(a[5].license_type_id[3] != b[1].license_type_id[3]);
        assert(a[6].license_type_id[3] != b[0].license_type_id[3]);
        assert(a[6].license_type_id[3] != b[1].license_type_id[3]);
        assert(a[7].license_type_id[3] != b[0].license_type_id[3]);
        assert(a[7].license_type_id[3] != b[1].license_type_id[3]);
        assert(a[8].license_type_id[3] != b[0].license_type_id[3]);
        assert(a[8].license_type_id[3] != b[1].license_type_id[3]);
        assert(a[9].license_type_id[3] != b[0].license_type_id[3]);
        assert(a[9].license_type_id[3] != b[1].license_type_id[3]);
        assert(a[10].license_type_id[3] != b[0].license_type_id[3]);
        assert(a[10].license_type_id[3] != b[1].license_type_id[3]);
        assert(a[11].license_type_id[3] != b[0].license_type_id[3]);
        assert(a[11].license_type_id[3] != b[1].license_type_id[3]);
        assert(a[12].license_type_id[3] != b[0].license_type_id[3]);
        assert(a[12].license_type_id[3] != b[1].license_type_id[3]);
        assert(a[13].license_type_id[3] != b[0].license_type_id[3]);
        assert(a[13].license_type_id[3] != b[1].license_type_id[3]);
        assert(a[14].license_type_id[3] != b[0].license_type_id[3]);
        assert(a[14].license_type_id[3] != b[1].license_type_id[3]);
        assert(a[15].license_type_id[3] != b[0].license_type_id[3]);
        assert(a[15].license_type_id[3] != b[1].license_type_id[3]);
        assert(a[16].license_type_id[3] != b[0].license_type_id[3]);
        assert(a[16].license_type_id[3] != b[1].license_type_id[3]);
        assert(a[17].license_type_id[3] != b[0].license_type_id[3]);
        assert(a[17].license_type_id[3] != b[1].license_type_id[3]);
        assert(a[18].license_type_id[3] != b[0].license_type_id[3]);
        assert(a[18].license_type_id[3] != b[1].license_type_id[3]);
        assert(a[19].license_type_id[3] != b[0].license_type_id[3]);
        assert(a[19].license_type_id[3] != b[1].license_type_id[3]);
        assert(a[20].license_type_id[3] != b[0].license_type_id[3]);
        assert(a[20].license_type_id[3] != b[1].license_type_id[3]);
        assert(a[21].license_type_id[3] != b[0].license_type_id[3]);
        assert(a[21].license_type_id[3] != b[1].license_type_id[3]);
        assert(a[22].license_type_id[3] != b[0].license_type_id[3]);
        assert(a[22].license_type_id[3] != b[1].license_type_id[3]);
        assert(a[23].license_type_id[3] != b[0].license_type_id[3]);
        assert(a[23].license_type_id[3] != b[1].license_type_id[3]);
        assert(a[24].license_type_id[3] != b[0].license_type_id[3]);
        assert(a[24].license_type_id[3] != b[1].license_type_id[3]);
        reveal_with_fuel(apart_each, 26);
        reveal_with_fuel(id_fresh_each, 3);
    }
    lemma_apart_each(a, b);
}

/// No licence type of `acra_license_types` shares an identifier with one of `imda_license_types`.
proof fn lemma_acra_license_types_apart_from_imda_license_types()
    ensures
        license_type_ids_apart(spec_acra_license_types(), spec_imda_license_types()),
{
    let a = spec_acra_license_types();
    let b = spec_imda_license_types();
    assert(apart_each(a, b)) by {
        reveal_strlit("sg-acra:corporate-service-provider");
        reveal_strlit("sg-acra:foreign-company");
        reveal_strlit("sg-acra:llp");
        reveal_strlit("sg-acra:lp");
        reveal_strlit("sg-acra:private-limited-company");
        reveal_strlit("sg-acra:public-company");
        reveal_strlit("sg-acra:registered-filing-agent");
        reveal_strlit("sg-acra:sole-proprietorship");
        reveal_strlit("sg-imda:facilities-based-operator");
        reveal_strlit("sg-imda:services-based-operator");
        assert(a[0].license_type_id[3] != b[0].license_type_id[3]);
        assert(a[0].license_type_id[3] != b[1].license_type_id[3]);
        assert(a[1].license_type_id[3] != b[0].license_type_id[3]);
        assert(a[1].license_type_id[3] != b[1].license_type_id[3]);
        assert(a[2].license_type_id[3] != b[0].license_type_id[3]);
        assert(a[2].license_type_id[3] != b[1].license_type_id[3]);
        assert(a[3].license_type_id[3] != b[0].license_type_id[3]);
        assert(a[3].license_type_id[3] != b[1].license_type_id[3]);
        assert(a[4].license_type_id[3] != b[0].license_type_id[3]);
        assert(a[4].license_type_id[3] != b[1].license_type_id[3]);
        assert(a[5].license_type_id[3] != b[0].license_type_id[3]);
        assert(a[5].license_type_id[3] != b[1].license_type_id[3]);
        assert(a[6].license_type_id[3] != b[0].license_type_id[3]);
        assert(a[6].license_type_id[3] != b[1].license_type_id[3]);
        assert(a[7].license_type_id[3] != b[0].license_type_id[3]);
        assert(a[7].license_type_id[3] != b[1].license_type_id[3]);
        reveal_with_fuel(apart_each, 9);
        reveal_with_fuel(id_fresh_each, 3);
    }
    lemma_apart_each(a, b);
}

/// No two licence types of `singapore_license_types` share an identifier.
pub proof fn lemma_singapore_license_type_ids_distinct()
    ensures
        license_type_ids_distinct(spec_singapore_license_types()),
{
    lemma_mas_license_types_ids_distinct();
    lemma_acra_license_types_ids_distinct();
    lemma_imda_license_types_ids_distinct();
    assert(spec_singapore_license_types() =~= spec_mas_license_types() + spec_acra_license_types() + spec_imda_license_types());
    let acc = spec_mas_license_types();
    lemma_mas_license_types_apart_from_acra_license_types();
    let part = spec_mas_license_types();
    lemma_ids_distinct_append(acc, spec_acra_license_types());
    let acc = acc + spec_acra_license_types();
    lemma_mas_license_types_apart_from_imda_license_types();
    lemma_acra_license_types_apart_from_imda_license_types();
    let part = spec_mas_license_types();
    lemma_ids_apart_append(part, spec_acra_license_types(), spec_imda_license_types());
    let part = part + spec_acra_license_types();
    lemma_ids_distinct_append(acc, spec_imda_license_types());
    let acc = acc + spec_imda_license_types();
    assert(spec_singapore_license_types() == acc);
}

/// Each licence-type identifier of `mas_license_types` starts with its regulator's
/// identifier and a colon.
proof fn lemma_mas_license_types_prefixed()
    ensures
        license_type_ids_prefixed(spec_mas_license_types()),
{
    let ts = spec_mas_license_types();
    assert(license_type_id_prefixed(ts[0])) by {
        reveal_strlit("sg-mas:full-bank");
        reveal_strlit("sg-mas");
        reveal_strlit(":");
        assert(ts[0].license_type_id.subrange(0, (ts[0].regulator_id + ":"@).len() as int) =~= ts[0].regulator_id + ":"@);
    }
    assert(license_type_id_prefixed(ts[1])) by {
        reveal_strlit("sg-mas:wholesale-bank");
        reveal_strlit("sg-mas");
        reveal_strlit(":");
        assert(ts[1].license_type_id.subrange(0, (ts[1].regulator_id + ":"@).len() as int) =~= ts[1].regulator_id + ":"@);
    }
    assert(license_type_id_prefixed(ts[2])) by {
        reveal_strlit("sg-mas:merchant-bank");
        reveal_strlit("sg-mas");
        reveal_strlit(":");
        assert(ts[2].license_type_id.subrange(0, (ts[2].regulator_id + ":"@).len() as int) =~= ts[2].regulator_id + ":"@);
    }
    assert(license_type_id_prefixed(ts[3])) by {
        reveal_strlit("sg-mas:digital-bank");
        reveal_strlit("sg-mas");
        reveal_strlit(":");
        assert(ts[3].license_type_id.subrange(0, (ts[3].regulator_id + ":"@).len() as int) =~= ts[3].regulator_id + ":"@);
    }
    assert(license_type_id_prefixed(ts[4])) by {
        reveal_strlit("sg-mas:direct-insurer");
        reveal_strlit("sg-mas");
        reveal_strlit(":");
        assert(ts[4].license_type_id.subrange(0, (ts[4].regulator_id + ":"@).len() as int) =~= ts[4].regulator_id + ":"@);
    }
    assert(license_type_id_prefixed(ts[5])) by {
        reveal_strlit("sg-mas:reinsurer");
        reveal_strlit("sg-mas");
        reveal_strlit(":");
        assert(ts[5].license_type_id.subrange(0, (ts[5].regulator_id + ":"@).len() as int) =~= ts[5].regulator_id + ":"@);
    }
    assert(license_type_id_prefixed(ts[6])) by {
        reveal_strlit("sg-mas:insurance-broker");
        reveal_strlit("sg-mas");
        reveal_strlit(":");
        assert(ts[6].license_type_id.subrange(0, (ts[6].regulator_id + ":"@).len() as int) =~= ts[6].regulator_id + ":"@);
    }
    assert(license_type_id_prefixed(ts[7])) by {
        reveal_strlit("sg-mas:lloyds-asia");
        reveal_strlit("sg-mas");
        reveal_strlit(":");
        assert(ts[7].license_type_id.subrange(0, (ts[7].regulator_id + ":"@).len() as int) =~= ts[7].regulator_id + ":"@);
    }
    assert(license_type_id_prefixed(ts[8])) by {
        reveal_strlit("sg-mas:cms-dealing");
        reveal_strlit("sg-mas");
        reveal_strlit(":");
        assert(ts[8].license_type_id.subrange(0, (ts[8].regulator_id + ":"@).len() as int) =~= ts[8].regulator_id + ":"@);
    }
    assert(license_type_id_prefixed(ts[9])) by {
        reveal_strlit("sg-mas:cms-advising");
        reveal_strlit("sg-mas");
        reveal_strlit(":");
        assert(ts[9].license_type_id.subrange(0, (ts[9].regulator_id + ":"@).len() as int) =~= ts[9].regulator_id + ":"@);
    }
    assert(license_type_id_prefixed(ts[10])) by {
        reveal_strlit("sg-mas:cms-fund-management");
        reveal_strlit("sg-mas");
        reveal_strlit(":");
        assert(ts[10].license_type_id.subrange(0, (ts[10].regulator_id + ":"@).len() as int) =~= ts[10].regulator_id + ":"@);
    }
    assert(license_type_id_prefixed(ts[11])) by {
        reveal_strlit("sg-mas:cms-reit-management");
        reveal_strlit("sg-mas");
        reveal_strlit(":");
        assert(ts[11].license_type_id.subrange(0, (ts[11].regulator_id + ":"@).len() as int) =~= ts[11].regulator_id + ":"@);
    }
    assert(license_type_id_prefixed(ts[12])) by {
        reveal_strlit("sg-mas:cms-credit-rating");
        reveal_strlit("sg-mas");
        reveal_strlit(":");
        assert(ts[12].license_type_id.subrange(0, (ts[12].regulator_id + ":"@).len() as int) =~= ts[12].regulator_id + ":"@);
    }
    assert(license_type_id_prefixed(ts[13])) by {
        reveal_strlit("sg-mas:cms-custodial");
        reveal_strlit("sg-mas");
        reveal_strlit(":");
        assert(ts[13].license_type_id.subrange(0, (ts[13].regulator_id + ":"@).len() as int) =~= ts[13].regulator_id + ":"@);
    }
    assert(license_type_id_prefixed(ts[14])) by {
        reveal_strlit("sg-mas:sps-money-changing");
        reveal_strlit("sg-mas");
        reveal_strlit(":");
        assert(ts[14].license_type_id.subrange(0, (ts[14].regulator_id + ":"@).len() as int) =~= ts[14].regulator_id + ":"@);
    }
    assert(license_type_id_prefixed(ts[15])) by {
        reveal_strlit("sg-mas:sps-cross-border-transfer");
        reveal_strlit("sg-mas");
        reveal_strlit(":");
        assert(ts[15].license_type_id.subrange(0, (ts[15].regulator_id + ":"@).len() as int) =~= ts[15].regulator_id + ":"@);
    }
    assert(license_type_id_prefixed(ts[16])) by {
        reveal_strlit("sg-mas:sps-domestic-transfer");
        reveal_strlit("sg-mas");
        reveal_strlit(":");
        assert(ts[16].license_type_id.subrange(0, (ts[16].regulator_id + ":"@).len() as int) =~= ts[16].regulator_id + ":"@);
    }
    assert(license_type_id_prefixed(ts[17])) by {
        reveal_strlit("sg-mas:sps-merchant-acquisition");
        reveal_strlit("sg-mas");
        reveal_strlit(":");
        assert(ts[17].license_type_id.subrange(0, (ts[17].regulator_id + ":"@).len() as int) =~= ts[17].regulator_id + ":"@);
    }
    assert(license_type_id_prefixed(ts[18])) by {
        reveal_strlit("sg-mas:sps-e-money-issuance");
        reveal_strlit("sg-mas");
        reveal_strlit(":");
        assert(ts[18].license_type_id.subrange(0, (ts[18].regulator_id + ":"@).len() as int) =~= ts[18].regulator_id + ":"@);
    }
    assert(license_type_id_prefixed(ts[19])) by {
        reveal_strlit("sg-mas:sps-dpt");
        reveal_strlit("sg-mas");
        reveal_strlit(":");
        assert(ts[19].license_type_id.subrange(0, (ts[19].regulator_id + ":"@).len() as int) =~= ts[19].regulator_id + ":"@);
    }
    assert(license_type_id_prefixed(ts[20])) by {
        reveal_strlit("sg-mas:sps-money-lending");
        reveal_strlit("sg-mas");
        reveal_strlit(":");
        assert(ts[20].license_type_id.subrange(0, (ts[20].regulator_id + ":"@).len() as int) =~= ts[20].regulator_id + ":"@);
    }
    assert(license_type_id_prefixed(ts[21])) by {
        reveal_strlit("sg-mas:trust-company");
        reveal_strlit("sg-mas");
        reveal_strlit(":");
        assert(ts[21].license_type_id.subrange(0, (ts[21].regulator_id + ":"@).len() as int) =~= ts[21].regulator_id + ":"@);
    }
    assert(license_type_id_prefixed(ts[22])) by {
        reveal_strlit("sg-mas:financial-adviser");
        reveal_strlit("sg-mas");
        reveal_strlit(":");
        assert(ts[22].license_type_id.subrange(0, (ts[22].regulator_id + ":"@).len() as int) =~= ts[22].regulator_id + ":"@);
    }
    assert(license_type_id_prefixed(ts[23])) by {
        reveal_strlit("sg-mas:vcc");
        reveal_strlit("sg-mas");
        reveal_strlit(":");
        assert(ts[23].license_type_id.subrange(0, (ts[23].regulator_id + ":"@).len() as int) =~= ts[23].regulator_id + ":"@);
    }
    assert(license_type_id_prefixed(ts[24])) by {
        reveal_strlit("sg-mas:dpt-service-provider");
        reveal_strlit("sg-mas");
        reveal_strlit(":");
        assert(ts[24].license_type_id.subrange(0, (ts[24].regulator_id + ":"@).len() as int) =~= ts[24].regulator_id + ":"@);
    }
    assert(prefixed_each(ts)) by {
        reveal_with_fuel(prefixed_each, 26);
    }
    lemma_prefixed_each(ts);
}

/// Each licence-type identifier of `acra_license_types` starts with its regulator's
/// identifier and a colon.
proof fn lemma_acra_license_types_prefixed()
    ensures
        license_type_ids_prefixed(spec_acra_license_types()),
{
    let ts = spec_acra_license_types();
    assert(license_type_id_prefixed(ts[0])) by {
        reveal_strlit("sg-acra:private-limited-company");
        reveal_strlit("sg-acra");
        reveal_strlit(":");
        assert(ts[0].license_type_id.subrange(0, (ts[0].regulator_id + ":"@).len() as int) =~= ts[0].regulator_id + ":"@);
    }
    assert(license_type_id_prefixed(ts[1])) by {
        reveal_strlit("sg-acra:public-company");
        reveal_strlit("sg-acra");
        reveal_strlit(":");
        assert(ts[1].license_type_id.subrange(0, (ts[1].regulator_id + ":"@).len() as int) =~= ts[1].regulator_id + ":"@);
    }
    assert(license_type_id_prefixed(ts[2])) by {
        reveal_strlit("sg-acra:llp");
        reveal_strlit("sg-acra");
        reveal_strlit(":");
        assert(ts[2].license_type_id.subrange(0, (ts[2].regulator_id + ":"@).len() as int) =~= ts[2].regulator_id + ":"@);
    }
    assert(license_type_id_prefixed(ts[3])) by {
        reveal_strlit("sg-acra:lp");
        reveal_strlit("sg-acra");
        reveal_strlit(":");
        assert(ts[3].license_type_id.subrange(0, (ts[3].regulator_id + ":"@).len() as int) =~= ts[3].regulator_id + ":"@);
    }
    assert(license_type_id_prefixed(ts[4])) by {
        reveal_strlit("sg-acra:sole-proprietorship");
        reveal_strlit("sg-acra");
        reveal_strlit(":");
        assert(ts[4].license_type_id.subrange(0, (ts[4].regulator_id + ":"@).len() as int) =~= ts[4].regulator_id + ":"@);
    }
    assert(license_type_id_prefixed(ts[5])) by {
        reveal_strlit("sg-acra:foreign-company");
        reveal_strlit("sg-acra");
        reveal_strlit(":");
        assert(ts[5].license_type_id.subrange(0, (ts[5].regulator_id + ":"@).len() as int) =~= ts[5].regulator_id + ":"@);
    }
    assert(license_type_id_prefixed(ts[6])) by {
        reveal_strlit("sg-acra:registered-filing-agent");
        reveal_strlit("sg-acra");
        reveal_strlit(":");
        assert(ts[6].license_type_id.subrange(0, (ts[6].regulator_id + ":"@).len() as int) =~= ts[6].regulator_id + ":"@);
    }
    assert(license_type_id_prefixed(ts[7])) by {
        reveal_strlit("sg-acra:corporate-service-provider");
        reveal_strlit("sg-acra");
        reveal_strlit(":");
        assert(ts[7].license_type_id.subrange(0, (ts[7].regulator_id + ":"@).len() as int) =~= ts[7].regulator_id + ":"@);
    }
    assert(prefixed_each(ts)) by {
        reveal_with_fuel(prefixed_each, 9);
    }
    lemma_prefixed_each(ts);
}

/// Each licence-type identifier of `imda_license_types` starts with its regulator's
/// identifier and a colon.
proof fn lemma_imda_license_types_prefixed()
    ensures
        license_type_ids_prefixed(spec_imda_license_types()),
{
    let ts = spec_imda_license_types();
    assert(license_type_id_prefixed(ts[0])) by {
        reveal_strlit("sg-imda:facilities-based-operator");
        reveal_strlit("sg-imda");
        reveal_strlit(":");
        assert(ts[0].license_type_id.subrange(0, (ts[0].regulator_id + ":"@).len() as int) =~= ts[0].regulator_id + ":"@);
    }
    assert(license_type_id_prefixed(ts[1])) by {
        reveal_strlit("sg-imda:services-based-operator");
        reveal_strlit("sg-imda");
        reveal_strlit(":");
        assert(ts[1].license_type_id.subrange(0, (ts[1].regulator_id + ":"@).len() as int) =~= ts[1].regulator_id + ":"@);
    }
    assert(prefixed_each(ts)) by {
        reveal_with_fuel(prefixed_each, 3);
    }
    lemma_prefixed_each(ts);
}

/// Every licence-type identifier of the Singapore catalog starts with the
/// identifier of the regulator that grants it, followed by a colon.
pub proof fn lemma_singapore_license_types_prefixed()
    ensures
        license_type_ids_prefixed(spec_singapore_license_types()),
{
    lemma_mas_license_types_prefixed();
    lemma_acra_license_types_prefixed();
    lemma_imda_license_types_prefixed();
    lemma_prefixed_append(spec_mas_license_types(), spec_acra_license_types());
    lemma_prefixed_append(spec_mas_license_types() + spec_acra_license_types(), spec_imda_license_types());
    assert(spec_singapore_license_types() =~= spec_mas_license_types() + spec_acra_license_types() + spec_imda_license_types());
}

} // verus!
