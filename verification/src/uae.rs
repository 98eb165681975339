//! # UAE Regulatory Authority License Mappings
//!
//! Comprehensive coverage of the United Arab Emirates regulatory landscape:
//!
//! - **Federal level** (CBUAE, SCA, Ministry of Economy)
//! - **Abu Dhabi** (ADDED, ADGM/FSRA, free zones: Masdar, KIZAD, twofour54, KEZAD)
//! - **Dubai** (DED, DIFC/DFSA, DMCC, JAFZA, IFZA, DWTC, DSO, DIC, DHCC)

use vstd::prelude::*;

use crate::license::{
    license_type, license_type_view, license_types_view, regulator, regulator_view,
    regulators_view, LicenseTypeDefinition, LicenseTypeView, LicensepackRegulator,
    RegulatorView, RequirementValue,
    lemma_license_types_view_append, lemma_regulators_view_append,
};

use crate::catalog::{
    apart_each, id_fresh_each, ids_distinct_each, lemma_apart_each, lemma_ids_apart_append, lemma_ids_distinct_append, lemma_ids_distinct_each, license_type_ids_apart, license_type_ids_distinct, complete_each, every_regulator_grants, granted_by_each, granted_by_listed_regulators, granted_listed_each, grants_each, grants_some, has_prefix, in_country_each, lemma_complete_append, lemma_complete_each, lemma_every_combine, lemma_granted_by_each, lemma_granted_combine, lemma_granted_listed_each, lemma_grants_each, lemma_in_country_append, lemma_in_country_each, license_types_complete, lists_regulator, regulators_in_country,
};

use crate::catalog::{
    lemma_prefixed_append, lemma_prefixed_each, license_type_id_prefixed, license_type_ids_prefixed,
    prefixed_each,
};

verus! {

/// The view of `federal_regulators`.
pub open spec fn spec_federal_regulators() -> Seq<RegulatorView> {
    seq![
        regulator_view(
            "ae-cbuae"@,
            "Central Bank of the UAE"@,
            "ae"@,
            Some("https://www.centralbank.ae"@),
            seq!["bank_registry"@, "license_query"@],
        ),
        regulator_view(
            "ae-sca"@,
            "Securities and Commodities Authority"@,
            "ae"@,
            Some("https://www.sca.gov.ae"@),
            seq!["license_query"@, "fund_registry"@],
        ),
        regulator_view(
            "ae-moec"@,
            "Ministry of Economy"@,
            "ae"@,
            Some("https://www.moec.gov.ae"@),
            seq!["company_search"@],
        )
    ]
}

/// Catalog entry `federal_regulators`.
pub fn federal_regulators() -> (r: Vec<LicensepackRegulator>)
    ensures
        regulators_view(r@) == spec_federal_regulators(),
        regulators_view(r@) == seq![
            regulator_view(
                "ae-cbuae"@,
                "Central Bank of the UAE"@,
                "ae"@,
                Some("https://www.centralbank.ae"@),
                seq!["bank_registry"@, "license_query"@],
            ),
            regulator_view(
                "ae-sca"@,
                "Securities and Commodities Authority"@,
                "ae"@,
                Some("https://www.sca.gov.ae"@),
                seq!["license_query"@, "fund_registry"@],
            ),
            regulator_view(
                "ae-moec"@,
                "Ministry of Economy"@,
                "ae"@,
                Some("https://www.moec.gov.ae"@),
                seq!["company_search"@],
            )
        ],
{
    let r = vec![
        regulator(
            "ae-cbuae",
            "Central Bank of the UAE",
            "ae",
            Some("https://www.centralbank.ae"),
            &["bank_registry", "license_query"],
        ),
        regulator(
            "ae-sca",
            "Securities and Commodities Authority",
            "ae",
            Some("https://www.sca.gov.ae"),
            &["license_query", "fund_registry"],
        ),
        regulator(
            "ae-moec",
            "Ministry of Economy",
            "ae",
            Some("https://www.moec.gov.ae"),
            &["company_search"],
        )
    ];
    proof {
        assert(regulators_view(r@) =~~= spec_federal_regulators());
    }
    r
}

/// The view of `federal_license_types`.
pub open spec fn spec_federal_license_types() -> Seq<LicenseTypeView> {
    seq![
        license_type_view(
            "ae-cbuae:commercial-bank"@,
            "Commercial Banking License"@,
            "License to operate a commercial bank under CBUAE regulations"@,
            "ae-cbuae"@,
            Some("financial"@),
            seq!["deposit_taking"@, "lending"@, "trade_finance"@, "foreign_exchange"@],
            seq![],
            seq![],
            seq![],
            None,
        ),
        license_type_view(
            "ae-cbuae:islamic-bank"@,
            "Islamic Banking License"@,
            "License for Sharia-compliant banking"@,
            "ae-cbuae"@,
            Some("financial"@),
            seq!["islamic_deposit_taking"@, "murabaha"@, "ijara"@, "sukuk"@],
            seq![],
            seq![],
            seq![],
            None,
        ),
        license_type_view(
            "ae-cbuae:exchange-house"@,
            "Exchange House License"@,
            "License for money exchange and remittance"@,
            "ae-cbuae"@,
            Some("financial"@),
            seq!["currency_exchange"@, "remittance"@, "money_transfer"@],
            seq![],
            seq![("AED"@, "50000"@)],
            seq![("AED"@, "25000"@)],
            Some(1i32),
        ),
        license_type_view(
            "ae-cbuae:stored-value"@,
            "Stored Value Facility License"@,
            "License to issue stored value instruments"@,
            "ae-cbuae"@,
            Some("financial"@),
            seq!["e_money_issuance"@, "payment_services"@],
            seq![],
            seq![("AED"@, "100000"@)],
            seq![("AED"@, "50000"@)],
            Some(2i32),
        ),
        license_type_view(
            "ae-cbuae:insurance"@,
            "Insurance Company License"@,
            "License to underwrite insurance in the UAE"@,
            "ae-cbuae"@,
            Some("insurance"@),
            seq!["general_insurance"@, "life_insurance"@, "takaful"@],
            seq![],
            seq![],
            seq![],
            None,
        ),
        license_type_view(
            "ae-sca:securities-broker"@,
            "Securities Broker License"@,
            "License for securities brokerage activities"@,
            "ae-sca"@,
            Some("financial"@),
            seq!["securities_brokerage"@, "trading"@],
            seq![],
            seq![("AED"@, "10000"@)],
            seq![("AED"@, "5000"@)],
            Some(1i32),
        ),
        license_type_view(
            "ae-sca:fund-manager"@,
            "Fund Manager License"@,
            "License for investment fund management"@,
            "ae-sca"@,
            Some("financial"@),
            seq!["fund_management"@, "portfolio_management"@, "asset_allocation"@],
            seq![],
            seq![("AED"@, "10000"@)],
            seq![("AED"@, "5000"@)],
            Some(1i32),
        ),
        license_type_view(
            "ae-moec:foreign-company"@,
            "Foreign Company Registration"@,
            "Registration of a foreign company branch in the UAE"@,
            "ae-moec"@,
            Some("corporate"@),
            seq!["business_operations"@],
            seq![],
            seq![("AED"@, "3000"@)],
            seq![("AED"@, "1500"@)],
            Some(1i32),
        )
    ]
}

/// Catalog entry `federal_license_types`.
pub fn federal_license_types() -> (r: Vec<LicenseTypeDefinition>)
    ensures
        license_types_view(r@) == spec_federal_license_types(),
        license_types_view(r@) == seq![
            license_type_view(
                "ae-cbuae:commercial-bank"@,
                "Commercial Banking License"@,
                "License to operate a commercial bank under CBUAE regulations"@,
                "ae-cbuae"@,
                Some("financial"@),
                seq!["deposit_taking"@, "lending"@, "trade_finance"@, "foreign_exchange"@],
                seq![],
                seq![],
                seq![],
                None,
            ),
            license_type_view(
                "ae-cbuae:islamic-bank"@,
                "Islamic Banking License"@,
                "License for Sharia-compliant banking"@,
                "ae-cbuae"@,
                Some("financial"@),
                seq!["islamic_deposit_taking"@, "murabaha"@, "ijara"@, "sukuk"@],
                seq![],
                seq![],
                seq![],
                None,
            ),
            license_type_view(
                "ae-cbuae:exchange-house"@,
                "Exchange House License"@,
                "License for money exchange and remittance"@,
                "ae-cbuae"@,
                Some("financial"@),
                seq!["currency_exchange"@, "remittance"@, "money_transfer"@],
                seq![],
                seq![("AED"@, "50000"@)],
                seq![("AED"@, "25000"@)],
                Some(1i32),
            ),
            license_type_view(
                "ae-cbuae:stored-value"@,
                "Stored Value Facility License"@,
                "License to issue stored value instruments"@,
                "ae-cbuae"@,
                Some("financial"@),
                seq!["e_money_issuance"@, "payment_services"@],
                seq![],
                seq![("AED"@, "100000"@)],
                seq![("AED"@, "50000"@)],
                Some(2i32),
            ),
            license_type_view(
                "ae-cbuae:insurance"@,
                "Insurance Company License"@,
                "License to underwrite insurance in the UAE"@,
                "ae-cbuae"@,
                Some("insurance"@),
                seq!["general_insurance"@, "life_insurance"@, "takaful"@],
                seq![],
                seq![],
                seq![],
                None,
            ),
            license_type_view(
                "ae-sca:securities-broker"@,
                "Securities Broker License"@,
                "License for securities brokerage activities"@,
                "ae-sca"@,
                Some("financial"@),
                seq!["securities_brokerage"@, "trading"@],
                seq![],
                seq![("AED"@, "10000"@)],
                seq![("AED"@, "5000"@)],
                Some(1i32),
            ),
            license_type_view(
                "ae-sca:fund-manager"@,
                "Fund Manager License"@,
                "License for investment fund management"@,
                "ae-sca"@,
                Some("financial"@),
                seq!["fund_management"@, "portfolio_management"@, "asset_allocation"@],
                seq![],
                seq![("AED"@, "10000"@)],
                seq![("AED"@, "5000"@)],
                Some(1i32),
            ),
            license_type_view(
                "ae-moec:foreign-company"@,
                "Foreign Company Registration"@,
                "Registration of a foreign company branch in the UAE"@,
                "ae-moec"@,
                Some("corporate"@),
                seq!["business_operations"@],
                seq![],
                seq![("AED"@, "3000"@)],
                seq![("AED"@, "1500"@)],
                Some(1i32),
            )
        ],
{
    let r = vec![
        license_type(
            "ae-cbuae:commercial-bank",
            "Commercial Banking License",
            "License to operate a commercial bank under CBUAE regulations",
            "ae-cbuae",
            Some("financial"),
            &["deposit_taking", "lending", "trade_finance", "foreign_exchange"],
            &[],
            &[],
            &[],
            None,
        ),
        license_type(
            "ae-cbuae:islamic-bank",
            "Islamic Banking License",
            "License for Sharia-compliant banking",
            "ae-cbuae",
            Some("financial"),
            &["islamic_deposit_taking", "murabaha", "ijara", "sukuk"],
            &[],
            &[],
            &[],
            None,
        ),
        license_type(
            "ae-cbuae:exchange-house",
            "Exchange House License",
            "License for money exchange and remittance",
            "ae-cbuae",
            Some("financial"),
            &["currency_exchange", "remittance", "money_transfer"],
            &[],
            &[("AED", "50000")],
            &[("AED", "25000")],
            Some(1i32),
        ),
        license_type(
            "ae-cbuae:stored-value",
            "Stored Value Facility License",
            "License to issue stored value instruments",
            "ae-cbuae",
            Some("financial"),
            &["e_money_issuance", "payment_services"],
            &[],
            &[("AED", "100000")],
            &[("AED", "50000")],
            Some(2i32),
        ),
        license_type(
            "ae-cbuae:insurance",
            "Insurance Company License",
            "License to underwrite insurance in the UAE",
            "ae-cbuae",
            Some("insurance"),
            &["general_insurance", "life_insurance", "takaful"],
            &[],
            &[],
            &[],
            None,
        ),
        license_type(
            "ae-sca:securities-broker",
            "Securities Broker License",
            "License for securities brokerage activities",
            "ae-sca",
            Some("financial"),
            &["securities_brokerage", "trading"],
            &[],
            &[("AED", "10000")],
            &[("AED", "5000")],
            Some(1i32),
        ),
        license_type(
            "ae-sca:fund-manager",
            "Fund Manager License",
            "License for investment fund management",
            "ae-sca",
            Some("financial"),
            &["fund_management", "portfolio_management", "asset_allocation"],
            &[],
            &[("AED", "10000")],
            &[("AED", "5000")],
            Some(1i32),
        ),
        license_type(
            "ae-moec:foreign-company",
            "Foreign Company Registration",
            "Registration of a foreign company branch in the UAE",
            "ae-moec",
            Some("corporate"),
            &["business_operations"],
            &[],
            &[("AED", "3000")],
            &[("AED", "1500")],
            Some(1i32),
        )
    ];
    proof {
        assert(license_types_view(r@) =~~= spec_federal_license_types());
    }
    r
}

/// The view of `adgm_regulators`.
pub open spec fn spec_adgm_regulators() -> Seq<RegulatorView> {
    seq![
        regulator_view(
            "ae-adgm-fsra"@,
            "ADGM Financial Services Regulatory Authority"@,
            "ae-abudhabi-adgm"@,
            Some("https://www.adgm.com/fsra"@),
            seq!["license_query"@, "fund_registry"@, "digital_asset_registry"@],
        ),
        regulator_view(
            "ae-adgm-ra"@,
            "ADGM Registration Authority"@,
            "ae-abudhabi-adgm"@,
            Some("https://www.adgm.com/ra"@),
            seq!["company_search"@, "filing_status"@],
        )
    ]
}

/// Catalog entry `adgm_regulators`.
pub fn adgm_regulators() -> (r: Vec<LicensepackRegulator>)
    ensures
        regulators_view(r@) == spec_adgm_regulators(),
        regulators_view(r@) == seq![
            regulator_view(
                "ae-adgm-fsra"@,
                "ADGM Financial Services Regulatory Authority"@,
                "ae-abudhabi-adgm"@,
                Some("https://www.adgm.com/fsra"@),
                seq!["license_query"@, "fund_registry"@, "digital_asset_registry"@],
            ),
            regulator_view(
                "ae-adgm-ra"@,
                "ADGM Registration Authority"@,
                "ae-abudhabi-adgm"@,
                Some("https://www.adgm.com/ra"@),
                seq!["company_search"@, "filing_status"@],
            )
        ],
{
    let r = vec![
        regulator(
            "ae-adgm-fsra",
            "ADGM Financial Services Regulatory Authority",
            "ae-abudhabi-adgm",
            Some("https://www.adgm.com/fsra"),
            &["license_query", "fund_registry", "digital_asset_registry"],
        ),
        regulator(
            "ae-adgm-ra",
            "ADGM Registration Authority",
            "ae-abudhabi-adgm",
            Some("https://www.adgm.com/ra"),
            &["company_search", "filing_status"],
        )
    ];
    proof {
        assert(regulators_view(r@) =~~= spec_adgm_regulators());
    }
    r
}

/// The view of `adgm_license_types`.
pub open spec fn spec_adgm_license_types() -> Seq<LicenseTypeView> {
    seq![
        license_type_view(
            "ae-adgm-ra:company"@,
            "ADGM Company Registration"@,
            "Registration of a company in ADGM"@,
            "ae-adgm-ra"@,
            Some("corporate"@),
            seq!["business_operations"@, "capital_raising"@],
            seq![],
            seq![("USD"@, "2000"@)],
            seq![("USD"@, "1000"@)],
            Some(1i32),
        ),
        license_type_view(
            "ae-adgm-ra:spv"@,
            "ADGM Special Purpose Vehicle"@,
            "Registration of an SPV in ADGM"@,
            "ae-adgm-ra"@,
            Some("corporate"@),
            seq!["special_purpose_activities"@, "securitization"@],
            seq![],
            seq![("USD"@, "1500"@)],
            seq![("USD"@, "750"@)],
            Some(1i32),
        ),
        license_type_view(
            "ae-adgm-ra:foundation"@,
            "ADGM Foundation"@,
            "Registration of a foundation in ADGM"@,
            "ae-adgm-ra"@,
            Some("corporate"@),
            seq!["charitable_activities"@, "asset_holding"@],
            seq![],
            seq![("USD"@, "2000"@)],
            seq![("USD"@, "1000"@)],
            Some(1i32),
        ),
        license_type_view(
            "ae-adgm-fsra:banking"@,
            "ADGM Banking License"@,
            "License to conduct banking in ADGM"@,
            "ae-adgm-fsra"@,
            Some("financial"@),
            seq!["deposit_taking"@, "lending"@, "trade_finance"@],
            seq![],
            seq![],
            seq![],
            None,
        ),
        license_type_view(
            "ae-adgm-fsra:insurance"@,
            "ADGM Insurance License"@,
            "License to underwrite insurance in ADGM"@,
            "ae-adgm-fsra"@,
            Some("insurance"@),
            seq!["general_insurance"@, "life_insurance"@, "reinsurance"@],
            seq![],
            seq![],
            seq![],
            None,
        ),
        license_type_view(
            "ae-adgm-fsra:insurance-broker"@,
            "ADGM Insurance Broker License"@,
            "License for insurance brokerage in ADGM"@,
            "ae-adgm-fsra"@,
            Some("insurance"@),
            seq!["insurance_brokerage"@, "insurance_advisory"@],
            seq![],
            seq![("USD"@, "5000"@)],
            seq![("USD"@, "2500"@)],
            Some(1i32),
        ),
        license_type_view(
            "ae-adgm-fsra:asset-management"@,
            "ADGM Asset Management License"@,
            "License for asset/fund management in ADGM"@,
            "ae-adgm-fsra"@,
            Some("financial"@),
            seq!["fund_management"@, "portfolio_management"@, "asset_allocation"@],
            seq![],
            seq![("USD"@, "10000"@)],
            seq![("USD"@, "5000"@)],
            Some(1i32),
        ),
        license_type_view(
            "ae-adgm-fsra:digital-asset-exchange"@,
            "ADGM Digital Asset Exchange License"@,
            "License to operate a digital asset exchange (MLP framework)"@,
            "ae-adgm-fsra"@,
            Some("financial"@),
            seq!["digital_asset_exchange"@, "digital_asset_custody"@, "digital_asset_settlement"@, "orderbook_matching"@],
            seq![],
            seq![("USD"@, "25000"@)],
            seq![("USD"@, "15000"@)],
            Some(1i32),
        ),
        license_type_view(
            "ae-adgm-fsra:digital-asset-custodian"@,
            "ADGM Digital Asset Custodian License"@,
            "License for digital asset custody services"@,
            "ae-adgm-fsra"@,
            Some("financial"@),
            seq!["digital_asset_custody"@, "digital_asset_safekeeping"@],
            seq![],
            seq![("USD"@, "15000"@)],
            seq![("USD"@, "10000"@)],
            Some(1i32),
        ),
        license_type_view(
            "ae-adgm-fsra:casp"@,
            "ADGM Crypto-Asset Service Provider License"@,
            "CASP license under ADGM Virtual Asset framework"@,
            "ae-adgm-fsra"@,
            Some("financial"@),
            seq!["crypto_advisory"@, "crypto_brokerage"@, "crypto_dealing"@],
            seq![],
            seq![("USD"@, "15000"@)],
            seq![("USD"@, "10000"@)],
            Some(1i32),
        ),
        license_type_view(
            "ae-adgm-fsra:venture-capital"@,
            "ADGM Venture Capital Manager License"@,
            "License for venture capital fund management"@,
            "ae-adgm-fsra"@,
            Some("financial"@),
            seq!["venture_capital"@, "fund_management"@],
            seq![],
            seq![("USD"@, "5000"@)],
            seq![("USD"@, "3000"@)],
            Some(1i32),
        ),
        license_type_view(
            "ae-adgm-fsra:crowdfunding"@,
            "ADGM Crowdfunding License"@,
            "License to operate an investment crowdfunding platform"@,
            "ae-adgm-fsra"@,
            Some("financial"@),
            seq!["equity_crowdfunding"@, "debt_crowdfunding"@, "platform_operation"@],
            seq![],
            seq![("USD"@, "10000"@)],
            seq![("USD"@, "5000"@)],
            Some(1i32),
        ),
        license_type_view(
            "ae-adgm-fsra:credit-rating"@,
            "ADGM Credit Rating Agency License"@,
            "License to provide credit rating services"@,
            "ae-adgm-fsra"@,
            Some("financial"@),
            seq!["credit_rating"@, "rating_advisory"@],
            seq![],
            seq![("USD"@, "10000"@)],
            seq![("USD"@, "5000"@)],
            Some(1i32),
        ),
        license_type_view(
            "ae-adgm-fsra:custody"@,
            "ADGM Custody License"@,
            "License for traditional asset custody services"@,
            "ae-adgm-fsra"@,
            Some("financial"@),
            seq!["custody_services"@, "asset_servicing"@, "settlement"@],
            seq![],
            seq![("USD"@, "10000"@)],
            seq![("USD"@, "5000"@)],
            Some(1i32),
        ),
        license_type_view(
            "ae-adgm-fsra:advisory"@,
            "ADGM Financial Advisory License"@,
            "License for financial advisory services"@,
            "ae-adgm-fsra"@,
            Some("financial"@),
            seq!["investment_advisory"@, "financial_planning"@],
            seq![],
            seq![("USD"@, "5000"@)],
            seq![("USD"@, "2500"@)],
            Some(1i32),
        )
    ]
}

/// Catalog entry `adgm_license_types`.
pub fn adgm_license_types() -> (r: Vec<LicenseTypeDefinition>)
    ensures
        license_types_view(r@) == spec_adgm_license_types(),
        license_types_view(r@) == seq![
            license_type_view(
                "ae-adgm-ra:company"@,
                "ADGM Company Registration"@,
                "Registration of a company in ADGM"@,
                "ae-adgm-ra"@,
                Some("corporate"@),
                seq!["business_operations"@, "capital_raising"@],
                seq![],
                seq![("USD"@, "2000"@)],
                seq![("USD"@, "1000"@)],
                Some(1i32),
            ),
            license_type_view(
                "ae-adgm-ra:spv"@,
                "ADGM Special Purpose Vehicle"@,
                "Registration of an SPV in ADGM"@,
                "ae-adgm-ra"@,
                Some("corporate"@),
                seq!["special_purpose_activities"@, "securitization"@],
                seq![],
                seq![("USD"@, "1500"@)],
                seq![("USD"@, "750"@)],
                Some(1i32),
            ),
            license_type_view(
                "ae-adgm-ra:foundation"@,
                "ADGM Foundation"@,
                "Registration of a foundation in ADGM"@,
                "ae-adgm-ra"@,
                Some("corporate"@),
                seq!["charitable_activities"@, "asset_holding"@],
                seq![],
                seq![("USD"@, "2000"@)],
                seq![("USD"@, "1000"@)],
                Some(1i32),
            ),
            license_type_view(
                "ae-adgm-fsra:banking"@,
                "ADGM Banking License"@,
                "License to conduct banking in ADGM"@,
                "ae-adgm-fsra"@,
                Some("financial"@),
                seq!["deposit_taking"@, "lending"@, "trade_finance"@],
                seq![],
                seq![],
                seq![],
                None,
            ),
            license_type_view(
                "ae-adgm-fsra:insurance"@,
                "ADGM Insurance License"@,
                "License to underwrite insurance in ADGM"@,
                "ae-adgm-fsra"@,
                Some("insurance"@),
                seq!["general_insurance"@, "life_insurance"@, "reinsurance"@],
                seq![],
                seq![],
                seq![],
                None,
            ),
            license_type_view(
                "ae-adgm-fsra:insurance-broker"@,
                "ADGM Insurance Broker License"@,
                "License for insurance brokerage in ADGM"@,
                "ae-adgm-fsra"@,
                Some("insurance"@),
                seq!["insurance_brokerage"@, "insurance_advisory"@],
                seq![],
                seq![("USD"@, "5000"@)],
                seq![("USD"@, "2500"@)],
                Some(1i32),
            ),
            license_type_view(
                "ae-adgm-fsra:asset-management"@,
                "ADGM Asset Management License"@,
                "License for asset/fund management in ADGM"@,
                "ae-adgm-fsra"@,
                Some("financial"@),
                seq!["fund_management"@, "portfolio_management"@, "asset_allocation"@],
                seq![],
                seq![("USD"@, "10000"@)],
                seq![("USD"@, "5000"@)],
                Some(1i32),
            ),
            license_type_view(
                "ae-adgm-fsra:digital-asset-exchange"@,
                "ADGM Digital Asset Exchange License"@,
                "License to operate a digital asset exchange (MLP framework)"@,
                "ae-adgm-fsra"@,
                Some("financial"@),
                seq!["digital_asset_exchange"@, "digital_asset_custody"@, "digital_asset_settlement"@, "orderbook_matching"@],
                seq![],
                seq![("USD"@, "25000"@)],
                seq![("USD"@, "15000"@)],
                Some(1i32),
            ),
            license_type_view(
                "ae-adgm-fsra:digital-asset-custodian"@,
                "ADGM Digital Asset Custodian License"@,
                "License for digital asset custody services"@,
                "ae-adgm-fsra"@,
                Some("financial"@),
                seq!["digital_asset_custody"@, "digital_asset_safekeeping"@],
                seq![],
                seq![("USD"@, "15000"@)],
                seq![("USD"@, "10000"@)],
                Some(1i32),
            ),
            license_type_view(
                "ae-adgm-fsra:casp"@,
                "ADGM Crypto-Asset Service Provider License"@,
                "CASP license under ADGM Virtual Asset framework"@,
                "ae-adgm-fsra"@,
                Some("financial"@),
                seq!["crypto_advisory"@, "crypto_brokerage"@, "crypto_dealing"@],
                seq![],
                seq![("USD"@, "15000"@)],
                seq![("USD"@, "10000"@)],
                Some(1i32),
            ),
            license_type_view(
                "ae-adgm-fsra:venture-capital"@,
                "ADGM Venture Capital Manager License"@,
                "License for venture capital fund management"@,
                "ae-adgm-fsra"@,
                Some("financial"@),
                seq!["venture_capital"@, "fund_management"@],
                seq![],
                seq![("USD"@, "5000"@)],
                seq![("USD"@, "3000"@)],
                Some(1i32),
            ),
            license_type_view(
                "ae-adgm-fsra:crowdfunding"@,
                "ADGM Crowdfunding License"@,
                "License to operate an investment crowdfunding platform"@,
                "ae-adgm-fsra"@,
                Some("financial"@),
                seq!["equity_crowdfunding"@, "debt_crowdfunding"@, "platform_operation"@],
                seq![],
                seq![("USD"@, "10000"@)],
                seq![("USD"@, "5000"@)],
                Some(1i32),
            ),
            license_type_view(
                "ae-adgm-fsra:credit-rating"@,
                "ADGM Credit Rating Agency License"@,
                "License to provide credit rating services"@,
                "ae-adgm-fsra"@,
                Some("financial"@),
                seq!["credit_rating"@, "rating_advisory"@],
                seq![],
                seq![("USD"@, "10000"@)],
                seq![("USD"@, "5000"@)],
                Some(1i32),
            ),
            license_type_view(
                "ae-adgm-fsra:custody"@,
                "ADGM Custody License"@,
                "License for traditional asset custody services"@,
                "ae-adgm-fsra"@,
                Some("financial"@),
                seq!["custody_services"@, "asset_servicing"@, "settlement"@],
                seq![],
                seq![("USD"@, "10000"@)],
                seq![("USD"@, "5000"@)],
                Some(1i32),
            ),
            license_type_view(
                "ae-adgm-fsra:advisory"@,
                "ADGM Financial Advisory License"@,
                "License for financial advisory services"@,
                "ae-adgm-fsra"@,
                Some("financial"@),
                seq!["investment_advisory"@, "financial_planning"@],
                seq![],
                seq![("USD"@, "5000"@)],
                seq![("USD"@, "2500"@)],
                Some(1i32),
            )
        ],
{
    let r = vec![
        license_type(
            "ae-adgm-ra:company",
            "ADGM Company Registration",
            "Registration of a company in ADGM",
            "ae-adgm-ra",
            Some("corporate"),
            &["business_operations", "capital_raising"],
            &[],
            &[("USD", "2000")],
            &[("USD", "1000")],
            Some(1i32),
        ),
        license_type(
            "ae-adgm-ra:spv",
            "ADGM Special Purpose Vehicle",
            "Registration of an SPV in ADGM",
            "ae-adgm-ra",
            Some("corporate"),
            &["special_purpose_activities", "securitization"],
            &[],
            &[("USD", "1500")],
            &[("USD", "750")],
            Some(1i32),
        ),
        license_type(
            "ae-adgm-ra:foundation",
            "ADGM Foundation",
            "Registration of a foundation in ADGM",
            "ae-adgm-ra",
            Some("corporate"),
            &["charitable_activities", "asset_holding"],
            &[],
            &[("USD", "2000")],
            &[("USD", "1000")],
            Some(1i32),
        ),
        license_type(
            "ae-adgm-fsra:banking",
            "ADGM Banking License",
            "License to conduct banking in ADGM",
            "ae-adgm-fsra",
            Some("financial"),
            &["deposit_taking", "lending", "trade_finance"],
            &[],
            &[],
            &[],
            None,
        ),
        license_type(
            "ae-adgm-fsra:insurance",
            "ADGM Insurance License",
            "License to underwrite insurance in ADGM",
            "ae-adgm-fsra",
            Some("insurance"),
            &["general_insurance", "life_insurance", "reinsurance"],
            &[],
            &[],
            &[],
            None,
        ),
        license_type(
            "ae-adgm-fsra:insurance-broker",
            "ADGM Insurance Broker License",
            "License for insurance brokerage in ADGM",
            "ae-adgm-fsra",
            Some("insurance"),
            &["insurance_brokerage", "insurance_advisory"],
            &[],
            &[("USD", "5000")],
            &[("USD", "2500")],
            Some(1i32),
        ),
        license_type(
            "ae-adgm-fsra:asset-management",
            "ADGM Asset Management License",
            "License for asset/fund management in ADGM",
            "ae-adgm-fsra",
            Some("financial"),
            &["fund_management", "portfolio_management", "asset_allocation"],
            &[],
            &[("USD", "10000")],
            &[("USD", "5000")],
            Some(1i32),
        ),
        license_type(
            "ae-adgm-fsra:digital-asset-exchange",
            "ADGM Digital Asset Exchange License",
            "License to operate a digital asset exchange (MLP framework)",
            "ae-adgm-fsra",
            Some("financial"),
            &["digital_asset_exchange", "digital_asset_custody", "digital_asset_settlement", "orderbook_matching"],
            &[],
            &[("USD", "25000")],
            &[("USD", "15000")],
            Some(1i32),
        ),
        license_type(
            "ae-adgm-fsra:digital-asset-custodian",
            "ADGM Digital Asset Custodian License",
            "License for digital asset custody services",
            "ae-adgm-fsra",
            Some("financial"),
            &["digital_asset_custody", "digital_asset_safekeeping"],
            &[],
            &[("USD", "15000")],
            &[("USD", "10000")],
            Some(1i32),
        ),
        license_type(
            "ae-adgm-fsra:casp",
            "ADGM Crypto-Asset Service Provider License",
            "CASP license under ADGM Virtual Asset framework",
            "ae-adgm-fsra",
            Some("financial"),
            &["crypto_advisory", "crypto_brokerage", "crypto_dealing"],
            &[],
            &[("USD", "15000")],
            &[("USD", "10000")],
            Some(1i32),
        ),
        license_type(
            "ae-adgm-fsra:venture-capital",
            "ADGM Venture Capital Manager License",
            "License for venture capital fund management",
            "ae-adgm-fsra",
            Some("financial"),
            &["venture_capital", "fund_management"],
            &[],
            &[("USD", "5000")],
            &[("USD", "3000")],
            Some(1i32),
        ),
        license_type(
            "ae-adgm-fsra:crowdfunding",
            "ADGM Crowdfunding License",
            "License to operate an investment crowdfunding platform",
            "ae-adgm-fsra",
            Some("financial"),
            &["equity_crowdfunding", "debt_crowdfunding", "platform_operation"],
            &[],
            &[("USD", "10000")],
            &[("USD", "5000")],
            Some(1i32),
        ),
        license_type(
            "ae-adgm-fsra:credit-rating",
            "ADGM Credit Rating Agency License",
            "License to provide credit rating services",
            "ae-adgm-fsra",
            Some("financial"),
            &["credit_rating", "rating_advisory"],
            &[],
            &[("USD", "10000")],
            &[("USD", "5000")],
            Some(1i32),
        ),
        license_type(
            "ae-adgm-fsra:custody",
            "ADGM Custody License",
            "License for traditional asset custody services",
            "ae-adgm-fsra",
            Some("financial"),
            &["custody_services", "asset_servicing", "settlement"],
            &[],
            &[("USD", "10000")],
            &[("USD", "5000")],
            Some(1i32),
        ),
        license_type(
            "ae-adgm-fsra:advisory",
            "ADGM Financial Advisory License",
            "License for financial advisory services",
            "ae-adgm-fsra",
            Some("financial"),
            &["investment_advisory", "financial_planning"],
            &[],
            &[("USD", "5000")],
            &[("USD", "2500")],
            Some(1i32),
        )
    ];
    proof {
        assert(license_types_view(r@) =~~= spec_adgm_license_types());
    }
    r
}

/// The view of `difc_regulators`.
pub open spec fn spec_difc_regulators() -> Seq<RegulatorView> {
    seq![
        regulator_view(
            "ae-difc-dfsa"@,
            "DIFC Dubai Financial Services Authority"@,
            "ae-dubai-difc"@,
            Some("https://www.dfsa.ae"@),
            seq!["license_query"@, "fund_registry"@, "digital_asset_registry"@],
        ),
        regulator_view(
            "ae-difc-roc"@,
            "DIFC Registrar of Companies"@,
            "ae-dubai-difc"@,
            Some("https://www.difc.ae"@),
            seq!["company_search"@, "filing_status"@],
        )
    ]
}

/// Catalog entry `difc_regulators`.
pub fn difc_regulators() -> (r: Vec<LicensepackRegulator>)
    ensures
        regulators_view(r@) == spec_difc_regulators(),
        regulators_view(r@) == seq![
            regulator_view(
                "ae-difc-dfsa"@,
                "DIFC Dubai Financial Services Authority"@,
                "ae-dubai-difc"@,
                Some("https://www.dfsa.ae"@),
                seq!["license_query"@, "fund_registry"@, "digital_asset_registry"@],
            ),
            regulator_view(
                "ae-difc-roc"@,
                "DIFC Registrar of Companies"@,
                "ae-dubai-difc"@,
                Some("https://www.difc.ae"@),
                seq!["company_search"@, "filing_status"@],
            )
        ],
{
    let r = vec![
        regulator(
            "ae-difc-dfsa",
            "DIFC Dubai Financial Services Authority",
            "ae-dubai-difc",
            Some("https://www.dfsa.ae"),
            &["license_query", "fund_registry", "digital_asset_registry"],
        ),
        regulator(
            "ae-difc-roc",
            "DIFC Registrar of Companies",
            "ae-dubai-difc",
            Some("https://www.difc.ae"),
            &["company_search", "filing_status"],
        )
    ];
    proof {
        assert(regulators_view(r@) =~~= spec_difc_regulators());
    }
    r
}

/// The view of `difc_license_types`.
pub open spec fn spec_difc_license_types() -> Seq<LicenseTypeView> {
    seq![
        license_type_view(
            "ae-difc-roc:company"@,
            "DIFC Company Registration"@,
            "Registration of a company in DIFC"@,
            "ae-difc-roc"@,
            Some("corporate"@),
            seq!["business_operations"@, "capital_raising"@],
            seq![],
            seq![("USD"@, "8000"@)],
            seq![("USD"@, "4000"@)],
            Some(1i32),
        ),
        license_type_view(
            "ae-difc-roc:foundation"@,
            "DIFC Foundation Registration"@,
            "Registration of a foundation in DIFC"@,
            "ae-difc-roc"@,
            Some("corporate"@),
            seq!["charitable_activities"@, "asset_holding"@],
            seq![],
            seq![("USD"@, "8000"@)],
            seq![("USD"@, "4000"@)],
            Some(1i32),
        ),
        license_type_view(
            "ae-difc-roc:spv"@,
            "DIFC Special Purpose Vehicle"@,
            "Registration of an SPV in DIFC"@,
            "ae-difc-roc"@,
            Some("corporate"@),
            seq!["special_purpose_activities"@],
            seq![],
            seq![("USD"@, "4000"@)],
            seq![("USD"@, "2000"@)],
            Some(1i32),
        ),
        license_type_view(
            "ae-difc-dfsa:banking"@,
            "DIFC Banking License"@,
            "License to conduct banking in DIFC"@,
            "ae-difc-dfsa"@,
            Some("financial"@),
            seq!["deposit_taking"@, "lending"@, "trade_finance"@, "foreign_exchange"@],
            seq![],
            seq![],
            seq![],
            None,
        ),
        license_type_view(
            "ae-difc-dfsa:insurance"@,
            "DIFC Insurance License"@,
            "License to underwrite insurance in DIFC"@,
            "ae-difc-dfsa"@,
            Some("insurance"@),
            seq!["general_insurance"@, "life_insurance"@, "reinsurance"@],
            seq![],
            seq![],
            seq![],
            None,
        ),
        license_type_view(
            "ae-difc-dfsa:insurance-broker"@,
            "DIFC Insurance Intermediary License"@,
            "License for insurance brokerage in DIFC"@,
            "ae-difc-dfsa"@,
            Some("insurance"@),
            seq!["insurance_brokerage"@, "insurance_advisory"@],
            seq![],
            seq![("USD"@, "5000"@)],
            seq![("USD"@, "3000"@)],
            Some(1i32),
        ),
        license_type_view(
            "ae-difc-dfsa:asset-management"@,
            "DIFC Asset Management License"@,
            "License for asset/fund management in DIFC"@,
            "ae-difc-dfsa"@,
            Some("financial"@),
            seq!["fund_management"@, "portfolio_management"@],
            seq![],
            seq![("USD"@, "10000"@)],
            seq![("USD"@, "5000"@)],
            Some(1i32),
        ),
        license_type_view(
            "ae-difc-dfsa:securities-broker"@,
            "DIFC Securities Broker License"@,
            "License for securities dealing/brokerage in DIFC"@,
            "ae-difc-dfsa"@,
            Some("financial"@),
            seq!["securities_brokerage"@, "securities_dealing"@, "trading"@],
            seq![],
            seq![("USD"@, "10000"@)],
            seq![("USD"@, "5000"@)],
            Some(1i32),
        ),
        license_type_view(
            "ae-difc-dfsa:digital-asset-exchange"@,
            "DIFC Digital Asset Exchange License"@,
            "License to operate a digital asset trading facility"@,
            "ae-difc-dfsa"@,
            Some("financial"@),
            seq!["digital_asset_exchange"@, "digital_asset_custody"@, "orderbook_matching"@],
            seq![],
            seq![("USD"@, "20000"@)],
            seq![("USD"@, "15000"@)],
            Some(1i32),
        ),
        license_type_view(
            "ae-difc-dfsa:digital-asset-custodian"@,
            "DIFC Digital Asset Custodian"@,
            "License for digital asset custody in DIFC"@,
            "ae-difc-dfsa"@,
            Some("financial"@),
            seq!["digital_asset_custody"@, "digital_asset_safekeeping"@],
            seq![],
            seq![("USD"@, "15000"@)],
            seq![("USD"@, "10000"@)],
            Some(1i32),
        ),
        license_type_view(
            "ae-difc-dfsa:crowdfunding"@,
            "DIFC Crowdfunding License"@,
            "License to operate a crowdfunding platform"@,
            "ae-difc-dfsa"@,
            Some("financial"@),
            seq!["equity_crowdfunding"@, "debt_crowdfunding"@],
            seq![],
            seq![("USD"@, "10000"@)],
            seq![("USD"@, "5000"@)],
            Some(1i32),
        ),
        license_type_view(
            "ae-difc-dfsa:credit-rating"@,
            "DIFC Credit Rating Agency License"@,
            "License for credit rating services"@,
            "ae-difc-dfsa"@,
            Some("financial"@),
            seq!["credit_rating"@, "rating_advisory"@],
            seq![],
            seq![("USD"@, "10000"@)],
            seq![("USD"@, "5000"@)],
            Some(1i32),
        ),
        license_type_view(
            "ae-difc-dfsa:money-services"@,
            "DIFC Money Services License"@,
            "License for money transfer/exchange services"@,
            "ae-difc-dfsa"@,
            Some("financial"@),
            seq!["money_transmission"@, "currency_exchange"@],
            seq![],
            seq![("USD"@, "10000"@)],
            seq![("USD"@, "5000"@)],
            Some(1i32),
        ),
        license_type_view(
            "ae-difc-dfsa:custody"@,
            "DIFC Custody License"@,
            "License for custody services in DIFC"@,
            "ae-difc-dfsa"@,
            Some("financial"@),
            seq!["custody_services"@, "asset_servicing"@],
            seq![],
            seq![("USD"@, "10000"@)],
            seq![("USD"@, "5000"@)],
            Some(1i32),
        )
    ]
}

/// Catalog entry `difc_license_types`.
pub fn difc_license_types() -> (r: Vec<LicenseTypeDefinition>)
    ensures
        license_types_view(r@) == spec_difc_license_types(),
        license_types_view(r@) == seq![
            license_type_view(
                "ae-difc-roc:company"@,
                "DIFC Company Registration"@,
                "Registration of a company in DIFC"@,
                "ae-difc-roc"@,
                Some("corporate"@),
                seq!["business_operations"@, "capital_raising"@],
                seq![],
                seq![("USD"@, "8000"@)],
                seq![("USD"@, "4000"@)],
                Some(1i32),
            ),
            license_type_view(
                "ae-difc-roc:foundation"@,
                "DIFC Foundation Registration"@,
                "Registration of a foundation in DIFC"@,
                "ae-difc-roc"@,
                Some("corporate"@),
                seq!["charitable_activities"@, "asset_holding"@],
                seq![],
                seq![("USD"@, "8000"@)],
                seq![("USD"@, "4000"@)],
                Some(1i32),
            ),
            license_type_view(
                "ae-difc-roc:spv"@,
                "DIFC Special Purpose Vehicle"@,
                "Registration of an SPV in DIFC"@,
                "ae-difc-roc"@,
                Some("corporate"@),
                seq!["special_purpose_activities"@],
                seq![],
                seq![("USD"@, "4000"@)],
                seq![("USD"@, "2000"@)],
                Some(1i32),
            ),
            license_type_view(
                "ae-difc-dfsa:banking"@,
                "DIFC Banking License"@,
                "License to conduct banking in DIFC"@,
                "ae-difc-dfsa"@,
                Some("financial"@),
                seq!["deposit_taking"@, "lending"@, "trade_finance"@, "foreign_exchange"@],
                seq![],
                seq![],
                seq![],
                None,
            ),
            license_type_view(
                "ae-difc-dfsa:insurance"@,
                "DIFC Insurance License"@,
                "License to underwrite insurance in DIFC"@,
                "ae-difc-dfsa"@,
                Some("insurance"@),
                seq!["general_insurance"@, "life_insurance"@, "reinsurance"@],
                seq![],
                seq![],
                seq![],
                None,
            ),
            license_type_view(
                "ae-difc-dfsa:insurance-broker"@,
                "DIFC Insurance Intermediary License"@,
                "License for insurance brokerage in DIFC"@,
                "ae-difc-dfsa"@,
                Some("insurance"@),
                seq!["insurance_brokerage"@, "insurance_advisory"@],
                seq![],
                seq![("USD"@, "5000"@)],
                seq![("USD"@, "3000"@)],
                Some(1i32),
            ),
            license_type_view(
                "ae-difc-dfsa:asset-management"@,
                "DIFC Asset Management License"@,
                "License for asset/fund management in DIFC"@,
                "ae-difc-dfsa"@,
                Some("financial"@),
                seq!["fund_management"@, "portfolio_management"@],
                seq![],
                seq![("USD"@, "10000"@)],
                seq![("USD"@, "5000"@)],
                Some(1i32),
            ),
            license_type_view(
                "ae-difc-dfsa:securities-broker"@,
                "DIFC Securities Broker License"@,
                "License for securities dealing/brokerage in DIFC"@,
                "ae-difc-dfsa"@,
                Some("financial"@),
                seq!["securities_brokerage"@, "securities_dealing"@, "trading"@],
                seq![],
                seq![("USD"@, "10000"@)],
                seq![("USD"@, "5000"@)],
                Some(1i32),
            ),
            license_type_view(
                "ae-difc-dfsa:digital-asset-exchange"@,
                "DIFC Digital Asset Exchange License"@,
                "License to operate a digital asset trading facility"@,
                "ae-difc-dfsa"@,
                Some("financial"@),
                seq!["digital_asset_exchange"@, "digital_asset_custody"@, "orderbook_matching"@],
                seq![],
                seq![("USD"@, "20000"@)],
                seq![("USD"@, "15000"@)],
                Some(1i32),
            ),
            license_type_view(
                "ae-difc-dfsa:digital-asset-custodian"@,
                "DIFC Digital Asset Custodian"@,
                "License for digital asset custody in DIFC"@,
                "ae-difc-dfsa"@,
                Some("financial"@),
                seq!["digital_asset_custody"@, "digital_asset_safekeeping"@],
                seq![],
                seq![("USD"@, "15000"@)],
                seq![("USD"@, "10000"@)],
                Some(1i32),
            ),
            license_type_view(
                "ae-difc-dfsa:crowdfunding"@,
                "DIFC Crowdfunding License"@,
                "License to operate a crowdfunding platform"@,
                "ae-difc-dfsa"@,
                Some("financial"@),
                seq!["equity_crowdfunding"@, "debt_crowdfunding"@],
                seq![],
                seq![("USD"@, "10000"@)],
                seq![("USD"@, "5000"@)],
                Some(1i32),
            ),
            license_type_view(
                "ae-difc-dfsa:credit-rating"@,
                "DIFC Credit Rating Agency License"@,
                "License for credit rating services"@,
                "ae-difc-dfsa"@,
                Some("financial"@),
                seq!["credit_rating"@, "rating_advisory"@],
                seq![],
                seq![("USD"@, "10000"@)],
                seq![("USD"@, "5000"@)],
                Some(1i32),
            ),
            license_type_view(
                "ae-difc-dfsa:money-services"@,
                "DIFC Money Services License"@,
                "License for money transfer/exchange services"@,
                "ae-difc-dfsa"@,
                Some("financial"@),
                seq!["money_transmission"@, "currency_exchange"@],
                seq![],
                seq![("USD"@, "10000"@)],
                seq![("USD"@, "5000"@)],
                Some(1i32),
            ),
            license_type_view(
                "ae-difc-dfsa:custody"@,
                "DIFC Custody License"@,
                "License for custody services in DIFC"@,
                "ae-difc-dfsa"@,
                Some("financial"@),
                seq!["custody_services"@, "asset_servicing"@],
                seq![],
                seq![("USD"@, "10000"@)],
                seq![("USD"@, "5000"@)],
                Some(1i32),
            )
        ],
{
    let r = vec![
        license_type(
            "ae-difc-roc:company",
            "DIFC Company Registration",
            "Registration of a company in DIFC",
            "ae-difc-roc",
            Some("corporate"),
            &["business_operations", "capital_raising"],
            &[],
            &[("USD", "8000")],
            &[("USD", "4000")],
            Some(1i32),
        ),
        license_type(
            "ae-difc-roc:foundation",
            "DIFC Foundation Registration",
            "Registration of a foundation in DIFC",
            "ae-difc-roc",
            Some("corporate"),
            &["charitable_activities", "asset_holding"],
            &[],
            &[("USD", "8000")],
            &[("USD", "4000")],
            Some(1i32),
        ),
        license_type(
            "ae-difc-roc:spv",
            "DIFC Special Purpose Vehicle",
            "Registration of an SPV in DIFC",
            "ae-difc-roc",
            Some("corporate"),
            &["special_purpose_activities"],
            &[],
            &[("USD", "4000")],
            &[("USD", "2000")],
            Some(1i32),
        ),
        license_type(
            "ae-difc-dfsa:banking",
            "DIFC Banking License",
            "License to conduct banking in DIFC",
            "ae-difc-dfsa",
            Some("financial"),
            &["deposit_taking", "lending", "trade_finance", "foreign_exchange"],
            &[],
            &[],
            &[],
            None,
        ),
        license_type(
            "ae-difc-dfsa:insurance",
            "DIFC Insurance License",
            "License to underwrite insurance in DIFC",
            "ae-difc-dfsa",
            Some("insurance"),
            &["general_insurance", "life_insurance", "reinsurance"],
            &[],
            &[],
            &[],
            None,
        ),
        license_type(
            "ae-difc-dfsa:insurance-broker",
            "DIFC Insurance Intermediary License",
            "License for insurance brokerage in DIFC",
            "ae-difc-dfsa",
            Some("insurance"),
            &["insurance_brokerage", "insurance_advisory"],
            &[],
            &[("USD", "5000")],
            &[("USD", "3000")],
            Some(1i32),
        ),
        license_type(
            "ae-difc-dfsa:asset-management",
            "DIFC Asset Management License",
            "License for asset/fund management in DIFC",
            "ae-difc-dfsa",
            Some("financial"),
            &["fund_management", "portfolio_management"],
            &[],
            &[("USD", "10000")],
            &[("USD", "5000")],
            Some(1i32),
        ),
        license_type(
            "ae-difc-dfsa:securities-broker",
            "DIFC Securities Broker License",
            "License for securities dealing/brokerage in DIFC",
            "ae-difc-dfsa",
            Some("financial"),
            &["securities_brokerage", "securities_dealing", "trading"],
            &[],
            &[("USD", "10000")],
            &[("USD", "5000")],
            Some(1i32),
        ),
        license_type(
            "ae-difc-dfsa:digital-asset-exchange",
            "DIFC Digital Asset Exchange License",
            "License to operate a digital asset trading facility",
            "ae-difc-dfsa",
            Some("financial"),
            &["digital_asset_exchange", "digital_asset_custody", "orderbook_matching"],
            &[],
            &[("USD", "20000")],
            &[("USD", "15000")],
            Some(1i32),
        ),
        license_type(
            "ae-difc-dfsa:digital-asset-custodian",
            "DIFC Digital Asset Custodian",
            "License for digital asset custody in DIFC",
            "ae-difc-dfsa",
            Some("financial"),
            &["digital_asset_custody", "digital_asset_safekeeping"],
            &[],
            &[("USD", "15000")],
            &[("USD", "10000")],
            Some(1i32),
        ),
        license_type(
            "ae-difc-dfsa:crowdfunding",
            "DIFC Crowdfunding License",
            "License to operate a crowdfunding platform",
            "ae-difc-dfsa",
            Some("financial"),
            &["equity_crowdfunding", "debt_crowdfunding"],
            &[],
            &[("USD", "10000")],
            &[("USD", "5000")],
            Some(1i32),
        ),
        license_type(
            "ae-difc-dfsa:credit-rating",
            "DIFC Credit Rating Agency License",
            "License for credit rating services",
            "ae-difc-dfsa",
            Some("financial"),
            &["credit_rating", "rating_advisory"],
            &[],
            &[("USD", "10000")],
            &[("USD", "5000")],
            Some(1i32),
        ),
        license_type(
            "ae-difc-dfsa:money-services",
            "DIFC Money Services License",
            "License for money transfer/exchange services",
            "ae-difc-dfsa",
            Some("financial"),
            &["money_transmission", "currency_exchange"],
            &[],
            &[("USD", "10000")],
            &[("USD", "5000")],
            Some(1i32),
        ),
        license_type(
            "ae-difc-dfsa:custody",
            "DIFC Custody License",
            "License for custody services in DIFC",
            "ae-difc-dfsa",
            Some("financial"),
            &["custody_services", "asset_servicing"],
            &[],
            &[("USD", "10000")],
            &[("USD", "5000")],
            Some(1i32),
        )
    ];
    proof {
        assert(license_types_view(r@) =~~= spec_difc_license_types());
    }
    r
}

/// The view of `dmcc_regulators`.
pub open spec fn spec_dmcc_regulators() -> Seq<RegulatorView> {
    seq![
        regulator_view(
            "ae-dmcc"@,
            "DMCC Authority"@,
            "ae-dubai-dmcc"@,
            Some("https://www.dmcc.ae"@),
            seq!["company_search"@, "license_query"@],
        )
    ]
}

/// Catalog entry `dmcc_regulators`.
pub fn dmcc_regulators() -> (r: Vec<LicensepackRegulator>)
    ensures
        regulators_view(r@) == spec_dmcc_regulators(),
        regulators_view(r@) == seq![
            regulator_view(
                "ae-dmcc"@,
                "DMCC Authority"@,
                "ae-dubai-dmcc"@,
                Some("https://www.dmcc.ae"@),
                seq!["company_search"@, "license_query"@],
            )
        ],
{
    let r = vec![
        regulator(
            "ae-dmcc",
            "DMCC Authority",
            "ae-dubai-dmcc",
            Some("https://www.dmcc.ae"),
            &["company_search", "license_query"],
        )
    ];
    proof {
        assert(regulators_view(r@) =~~= spec_dmcc_regulators());
    }
    r
}

/// The view of `dmcc_license_types`.
pub open spec fn spec_dmcc_license_types() -> Seq<LicenseTypeView> {
    seq![
        license_type_view(
            "ae-dmcc:trade-license"@,
            "DMCC Trade License"@,
            "General trading license in DMCC"@,
            "ae-dmcc"@,
            Some("trade"@),
            seq!["commodities_trading"@, "general_trading"@, "import_export"@],
            seq![],
            seq![("AED"@, "15000"@)],
            seq![("AED"@, "15000"@)],
            Some(1i32),
        ),
        license_type_view(
            "ae-dmcc:precious-metals"@,
            "DMCC Precious Metals License"@,
            "License for precious metals trading in DMCC"@,
            "ae-dmcc"@,
            Some("trade"@),
            seq!["gold_trading"@, "silver_trading"@, "precious_metals_refining"@],
            seq![],
            seq![("AED"@, "25000"@)],
            seq![("AED"@, "20000"@)],
            Some(1i32),
        ),
        license_type_view(
            "ae-dmcc:diamond-trading"@,
            "DMCC Diamond Trading License"@,
            "License for diamond trading in DMCC"@,
            "ae-dmcc"@,
            Some("trade"@),
            seq!["diamond_trading"@, "gemstone_trading"@],
            seq![],
            seq![("AED"@, "25000"@)],
            seq![("AED"@, "20000"@)],
            Some(1i32),
        ),
        license_type_view(
            "ae-dmcc:casp"@,
            "DMCC Crypto-Asset Service Provider License"@,
            "License for crypto-asset services in DMCC"@,
            "ae-dmcc"@,
            Some("financial"@),
            seq!["crypto_exchange"@, "crypto_custody"@, "crypto_advisory"@],
            seq![],
            seq![("AED"@, "50000"@)],
            seq![("AED"@, "30000"@)],
            Some(1i32),
        )
    ]
}

/// Catalog entry `dmcc_license_types`.
pub fn dmcc_license_types() -> (r: Vec<LicenseTypeDefinition>)
    ensures
        license_types_view(r@) == spec_dmcc_license_types(),
        license_types_view(r@) == seq![
            license_type_view(
                "ae-dmcc:trade-license"@,
                "DMCC Trade License"@,
                "General trading license in DMCC"@,
                "ae-dmcc"@,
                Some("trade"@),
                seq!["commodities_trading"@, "general_trading"@, "import_export"@],
                seq![],
                seq![("AED"@, "15000"@)],
                seq![("AED"@, "15000"@)],
                Some(1i32),
            ),
            license_type_view(
                "ae-dmcc:precious-metals"@,
                "DMCC Precious Metals License"@,
                "License for precious metals trading in DMCC"@,
                "ae-dmcc"@,
                Some("trade"@),
                seq!["gold_trading"@, "silver_trading"@, "precious_metals_refining"@],
                seq![],
                seq![("AED"@, "25000"@)],
                seq![("AED"@, "20000"@)],
                Some(1i32),
            ),
            license_type_view(
                "ae-dmcc:diamond-trading"@,
                "DMCC Diamond Trading License"@,
                "License for diamond trading in DMCC"@,
                "ae-dmcc"@,
                Some("trade"@),
                seq!["diamond_trading"@, "gemstone_trading"@],
                seq![],
                seq![("AED"@, "25000"@)],
                seq![("AED"@, "20000"@)],
                Some(1i32),
            ),
            license_type_view(
                "ae-dmcc:casp"@,
                "DMCC Crypto-Asset Service Provider License"@,
                "License for crypto-asset services in DMCC"@,
                "ae-dmcc"@,
                Some("financial"@),
                seq!["crypto_exchange"@, "crypto_custody"@, "crypto_advisory"@],
                seq![],
                seq![("AED"@, "50000"@)],
                seq![("AED"@, "30000"@)],
                Some(1i32),
            )
        ],
{
    let r = vec![
        license_type(
            "ae-dmcc:trade-license",
            "DMCC Trade License",
            "General trading license in DMCC",
            "ae-dmcc",
            Some("trade"),
            &["commodities_trading", "general_trading", "import_export"],
            &[],
            &[("AED", "15000")],
            &[("AED", "15000")],
            Some(1i32),
        ),
        license_type(
            "ae-dmcc:precious-metals",
            "DMCC Precious Metals License",
            "License for precious metals trading in DMCC",
            "ae-dmcc",
            Some("trade"),
            &["gold_trading", "silver_trading", "precious_metals_refining"],
            &[],
            &[("AED", "25000")],
            &[("AED", "20000")],
            Some(1i32),
        ),
        license_type(
            "ae-dmcc:diamond-trading",
            "DMCC Diamond Trading License",
            "License for diamond trading in DMCC",
            "ae-dmcc",
            Some("trade"),
            &["diamond_trading", "gemstone_trading"],
            &[],
            &[("AED", "25000")],
            &[("AED", "20000")],
            Some(1i32),
        ),
        license_type(
            "ae-dmcc:casp",
            "DMCC Crypto-Asset Service Provider License",
            "License for crypto-asset services in DMCC",
            "ae-dmcc",
            Some("financial"),
            &["crypto_exchange", "crypto_custody", "crypto_advisory"],
            &[],
            &[("AED", "50000")],
            &[("AED", "30000")],
            Some(1i32),
        )
    ];
    proof {
        assert(license_types_view(r@) =~~= spec_dmcc_license_types());
    }
    r
}

/// The view of `jafza_regulators`.
pub open spec fn spec_jafza_regulators() -> Seq<RegulatorView> {
    seq![
        regulator_view(
            "ae-jafza"@,
            "JAFZA Authority"@,
            "ae-dubai-jafza"@,
            Some("https://www.jafza.ae"@),
            seq!["company_search"@, "license_query"@],
        )
    ]
}

/// Catalog entry `jafza_regulators`.
pub fn jafza_regulators() -> (r: Vec<LicensepackRegulator>)
    ensures
        regulators_view(r@) == spec_jafza_regulators(),
        regulators_view(r@) == seq![
            regulator_view(
                "ae-jafza"@,
                "JAFZA Authority"@,
                "ae-dubai-jafza"@,
                Some("https://www.jafza.ae"@),
                seq!["company_search"@, "license_query"@],
            )
        ],
{
    let r = vec![
        regulator(
            "ae-jafza",
            "JAFZA Authority",
            "ae-dubai-jafza",
            Some("https://www.jafza.ae"),
            &["company_search", "license_query"],
        )
    ];
    proof {
        assert(regulators_view(r@) =~~= spec_jafza_regulators());
    }
    r
}

/// The view of `jafza_license_types`.
pub open spec fn spec_jafza_license_types() -> Seq<LicenseTypeView> {
    seq![
        license_type_view(
            "ae-jafza:trading"@,
            "JAFZA Trading License"@,
            "General trading license in Jebel Ali Free Zone"@,
            "ae-jafza"@,
            Some("trade"@),
            seq!["import_export"@, "re_export"@, "warehousing"@, "distribution"@],
            seq![],
            seq![("AED"@, "15000"@)],
            seq![("AED"@, "10000"@)],
            Some(1i32),
        ),
        license_type_view(
            "ae-jafza:industrial"@,
            "JAFZA Industrial License"@,
            "Manufacturing and industrial license in JAFZA"@,
            "ae-jafza"@,
            Some("trade"@),
            seq!["manufacturing"@, "processing"@, "assembly"@],
            seq![],
            seq![("AED"@, "15000"@)],
            seq![("AED"@, "10000"@)],
            Some(1i32),
        ),
        license_type_view(
            "ae-jafza:logistics"@,
            "JAFZA Logistics License"@,
            "Logistics and distribution license"@,
            "ae-jafza"@,
            Some("trade"@),
            seq!["logistics"@, "warehousing"@, "freight_forwarding"@],
            seq![],
            seq![("AED"@, "15000"@)],
            seq![("AED"@, "10000"@)],
            Some(1i32),
        ),
        license_type_view(
            "ae-jafza:services"@,
            "JAFZA Services License"@,
            "Professional services license in JAFZA"@,
            "ae-jafza"@,
            Some("professional"@),
            seq!["consulting"@, "professional_services"@, "it_services"@],
            seq![],
            seq![("AED"@, "10000"@)],
            seq![("AED"@, "8000"@)],
            Some(1i32),
        )
    ]
}

/// Catalog entry `jafza_license_types`.
pub fn jafza_license_types() -> (r: Vec<LicenseTypeDefinition>)
    ensures
        license_types_view(r@) == spec_jafza_license_types(),
        license_types_view(r@) == seq![
            license_type_view(
                "ae-jafza:trading"@,
                "JAFZA Trading License"@,
                "General trading license in Jebel Ali Free Zone"@,
                "ae-jafza"@,
                Some("trade"@),
                seq!["import_export"@, "re_export"@, "warehousing"@, "distribution"@],
                seq![],
                seq![("AED"@, "15000"@)],
                seq![("AED"@, "10000"@)],
                Some(1i32),
            ),
            license_type_view(
                "ae-jafza:industrial"@,
                "JAFZA Industrial License"@,
                "Manufacturing and industrial license in JAFZA"@,
                "ae-jafza"@,
                Some("trade"@),
                seq!["manufacturing"@, "processing"@, "assembly"@],
                seq![],
                seq![("AED"@, "15000"@)],
                seq![("AED"@, "10000"@)],
                Some(1i32),
            ),
            license_type_view(
                "ae-jafza:logistics"@,
                "JAFZA Logistics License"@,
                "Logistics and distribution license"@,
                "ae-jafza"@,
                Some("trade"@),
                seq!["logistics"@, "warehousing"@, "freight_forwarding"@],
                seq![],
                seq![("AED"@, "15000"@)],
                seq![("AED"@, "10000"@)],
                Some(1i32),
            ),
            license_type_view(
                "ae-jafza:services"@,
                "JAFZA Services License"@,
                "Professional services license in JAFZA"@,
                "ae-jafza"@,
                Some("professional"@),
                seq!["consulting"@, "professional_services"@, "it_services"@],
                seq![],
                seq![("AED"@, "10000"@)],
                seq![("AED"@, "8000"@)],
                Some(1i32),
            )
        ],
{
    let r = vec![
        license_type(
            "ae-jafza:trading",
            "JAFZA Trading License",
            "General trading license in Jebel Ali Free Zone",
            "ae-jafza",
            Some("trade"),
            &["import_export", "re_export", "warehousing", "distribution"],
            &[],
            &[("AED", "15000")],
            &[("AED", "10000")],
            Some(1i32),
        ),
        license_type(
            "ae-jafza:industrial",
            "JAFZA Industrial License",
            "Manufacturing and industrial license in JAFZA",
            "ae-jafza",
            Some("trade"),
            &["manufacturing", "processing", "assembly"],
            &[],
            &[("AED", "15000")],
            &[("AED", "10000")],
            Some(1i32),
        ),
        license_type(
            "ae-jafza:logistics",
            "JAFZA Logistics License",
            "Logistics and distribution license",
            "ae-jafza",
            Some("trade"),
            &["logistics", "warehousing", "freight_forwarding"],
            &[],
            &[("AED", "15000")],
            &[("AED", "10000")],
            Some(1i32),
        ),
        license_type(
            "ae-jafza:services",
            "JAFZA Services License",
            "Professional services license in JAFZA",
            "ae-jafza",
            Some("professional"),
            &["consulting", "professional_services", "it_services"],
            &[],
            &[("AED", "10000")],
            &[("AED", "8000")],
            Some(1i32),
        )
    ];
    proof {
        assert(license_types_view(r@) =~~= spec_jafza_license_types());
    }
    r
}

/// The view of `ifza_regulators`.
pub open spec fn spec_ifza_regulators() -> Seq<RegulatorView> {
    seq![
        regulator_view(
            "ae-ifza"@,
            "IFZA Authority"@,
            "ae-dubai-ifza"@,
            Some("https://www.ifza.com"@),
            seq!["company_search"@],
        )
    ]
}

/// Catalog entry `ifza_regulators`.
pub fn ifza_regulators() -> (r: Vec<LicensepackRegulator>)
    ensures
        regulators_view(r@) == spec_ifza_regulators(),
        regulators_view(r@) == seq![
            regulator_view(
                "ae-ifza"@,
                "IFZA Authority"@,
                "ae-dubai-ifza"@,
                Some("https://www.ifza.com"@),
                seq!["company_search"@],
            )
        ],
{
    let r = vec![
        regulator(
            "ae-ifza",
            "IFZA Authority",
            "ae-dubai-ifza",
            Some("https://www.ifza.com"),
            &["company_search"],
        )
    ];
    proof {
        assert(regulators_view(r@) =~~= spec_ifza_regulators());
    }
    r
}

/// The view of `ifza_license_types`.
pub open spec fn spec_ifza_license_types() -> Seq<LicenseTypeView> {
    seq![
        license_type_view(
            "ae-ifza:general-trading"@,
            "IFZA General Trading License"@,
            "General trading license in IFZA"@,
            "ae-ifza"@,
            Some("trade"@),
            seq!["general_trading"@, "import_export"@],
            seq![],
            seq![("AED"@, "11750"@)],
            seq![("AED"@, "11750"@)],
            Some(1i32),
        ),
        license_type_view(
            "ae-ifza:consultancy"@,
            "IFZA Consultancy License"@,
            "Consultancy license in IFZA"@,
            "ae-ifza"@,
            Some("professional"@),
            seq!["consulting"@, "advisory"@],
            seq![],
            seq![("AED"@, "11750"@)],
            seq![("AED"@, "11750"@)],
            Some(1i32),
        ),
        license_type_view(
            "ae-ifza:e-commerce"@,
            "IFZA E-Commerce License"@,
            "E-commerce license in IFZA"@,
            "ae-ifza"@,
            Some("trade"@),
            seq!["e_commerce"@, "online_retail"@],
            seq![],
            seq![("AED"@, "11750"@)],
            seq![("AED"@, "11750"@)],
            Some(1i32),
        )
    ]
}

/// Catalog entry `ifza_license_types`.
pub fn ifza_license_types() -> (r: Vec<LicenseTypeDefinition>)
    ensures
        license_types_view(r@) == spec_ifza_license_types(),
        license_types_view(r@) == seq![
            license_type_view(
                "ae-ifza:general-trading"@,
                "IFZA General Trading License"@,
                "General trading license in IFZA"@,
                "ae-ifza"@,
                Some("trade"@),
                seq!["general_trading"@, "import_export"@],
                seq![],
                seq![("AED"@, "11750"@)],
                seq![("AED"@, "11750"@)],
                Some(1i32),
            ),
            license_type_view(
                "ae-ifza:consultancy"@,
                "IFZA Consultancy License"@,
                "Consultancy license in IFZA"@,
                "ae-ifza"@,
                Some("professional"@),
                seq!["consulting"@, "advisory"@],
                seq![],
                seq![("AED"@, "11750"@)],
                seq![("AED"@, "11750"@)],
                Some(1i32),
            ),
            license_type_view(
                "ae-ifza:e-commerce"@,
                "IFZA E-Commerce License"@,
                "E-commerce license in IFZA"@,
                "ae-ifza"@,
                Some("trade"@),
                seq!["e_commerce"@, "online_retail"@],
                seq![],
                seq![("AED"@, "11750"@)],
                seq![("AED"@, "11750"@)],
                Some(1i32),
            )
        ],
{
    let r = vec![
        license_type(
            "ae-ifza:general-trading",
            "IFZA General Trading License",
            "General trading license in IFZA",
            "ae-ifza",
            Some("trade"),
            &["general_trading", "import_export"],
            &[],
            &[("AED", "11750")],
            &[("AED", "11750")],
            Some(1i32),
        ),
        license_type(
            "ae-ifza:consultancy",
            "IFZA Consultancy License",
            "Consultancy license in IFZA",
            "ae-ifza",
            Some("professional"),
            &["consulting", "advisory"],
            &[],
            &[("AED", "11750")],
            &[("AED", "11750")],
            Some(1i32),
        ),
        license_type(
            "ae-ifza:e-commerce",
            "IFZA E-Commerce License",
            "E-commerce license in IFZA",
            "ae-ifza",
            Some("trade"),
            &["e_commerce", "online_retail"],
            &[],
            &[("AED", "11750")],
            &[("AED", "11750")],
            Some(1i32),
        )
    ];
    proof {
        assert(license_types_view(r@) =~~= spec_ifza_license_types());
    }
    r
}

/// The view of `dwtc_regulators`.
pub open spec fn spec_dwtc_regulators() -> Seq<RegulatorView> {
    seq![
        regulator_view(
            "ae-dwtc"@,
            "DWTC Free Zone Authority"@,
            "ae-dubai-dwtc"@,
            Some("https://www.dwtc.com"@),
            seq!["company_search"@],
        )
    ]
}

/// Catalog entry `dwtc_regulators`.
pub fn dwtc_regulators() -> (r: Vec<LicensepackRegulator>)
    ensures
        regulators_view(r@) == spec_dwtc_regulators(),
        regulators_view(r@) == seq![
            regulator_view(
                "ae-dwtc"@,
                "DWTC Free Zone Authority"@,
                "ae-dubai-dwtc"@,
                Some("https://www.dwtc.com"@),
                seq!["company_search"@],
            )
        ],
{
    let r = vec![
        regulator(
            "ae-dwtc",
            "DWTC Free Zone Authority",
            "ae-dubai-dwtc",
            Some("https://www.dwtc.com"),
            &["company_search"],
        )
    ];
    proof {
        assert(regulators_view(r@) =~~= spec_dwtc_regulators());
    }
    r
}

/// The view of `dwtc_license_types`.
pub open spec fn spec_dwtc_license_types() -> Seq<LicenseTypeView> {
    seq![
        license_type_view(
            "ae-dwtc:events"@,
            "DWTC Events License"@,
            "Events management license in DWTC Free Zone"@,
            "ae-dwtc"@,
            Some("trade"@),
            seq!["event_management"@, "exhibition_services"@],
            seq![],
            seq![("AED"@, "15000"@)],
            seq![("AED"@, "12000"@)],
            Some(1i32),
        ),
        license_type_view(
            "ae-dwtc:hospitality"@,
            "DWTC Hospitality License"@,
            "Hospitality and F&B license in DWTC"@,
            "ae-dwtc"@,
            Some("trade"@),
            seq!["hospitality"@, "food_beverage"@],
            seq![],
            seq![("AED"@, "15000"@)],
            seq![("AED"@, "12000"@)],
            Some(1i32),
        )
    ]
}

/// Catalog entry `dwtc_license_types`.
pub fn dwtc_license_types() -> (r: Vec<LicenseTypeDefinition>)
    ensures
        license_types_view(r@) == spec_dwtc_license_types(),
        license_types_view(r@) == seq![
            license_type_view(
                "ae-dwtc:events"@,
                "DWTC Events License"@,
                "Events management license in DWTC Free Zone"@,
                "ae-dwtc"@,
                Some("trade"@),
                seq!["event_management"@, "exhibition_services"@],
                seq![],
                seq![("AED"@, "15000"@)],
                seq![("AED"@, "12000"@)],
                Some(1i32),
            ),
            license_type_view(
                "ae-dwtc:hospitality"@,
                "DWTC Hospitality License"@,
                "Hospitality and F&B license in DWTC"@,
                "ae-dwtc"@,
                Some("trade"@),
                seq!["hospitality"@, "food_beverage"@],
                seq![],
                seq![("AED"@, "15000"@)],
                seq![("AED"@, "12000"@)],
                Some(1i32),
            )
        ],
{
    let r = vec![
        license_type(
            "ae-dwtc:events",
            "DWTC Events License",
            "Events management license in DWTC Free Zone",
            "ae-dwtc",
            Some("trade"),
            &["event_management", "exhibition_services"],
            &[],
            &[("AED", "15000")],
            &[("AED", "12000")],
            Some(1i32),
        ),
        license_type(
            "ae-dwtc:hospitality",
            "DWTC Hospitality License",
            "Hospitality and F&B license in DWTC",
            "ae-dwtc",
            Some("trade"),
            &["hospitality", "food_beverage"],
            &[],
            &[("AED", "15000")],
            &[("AED", "12000")],
            Some(1i32),
        )
    ];
    proof {
        assert(license_types_view(r@) =~~= spec_dwtc_license_types());
    }
    r
}

/// The view of `dso_regulators`.
pub open spec fn spec_dso_regulators() -> Seq<RegulatorView> {
    seq![
        regulator_view(
            "ae-dso"@,
            "Dubai Silicon Oasis Authority"@,
            "ae-dubai-dso"@,
            Some("https://www.dsoa.ae"@),
            seq!["company_search"@],
        )
    ]
}

/// Catalog entry `dso_regulators`.
pub fn dso_regulators() -> (r: Vec<LicensepackRegulator>)
    ensures
        regulators_view(r@) == spec_dso_regulators(),
        regulators_view(r@) == seq![
            regulator_view(
                "ae-dso"@,
                "Dubai Silicon Oasis Authority"@,
                "ae-dubai-dso"@,
                Some("https://www.dsoa.ae"@),
                seq!["company_search"@],
            )
        ],
{
    let r = vec![
        regulator(
            "ae-dso",
            "Dubai Silicon Oasis Authority",
            "ae-dubai-dso",
            Some("https://www.dsoa.ae"),
            &["company_search"],
        )
    ];
    proof {
        assert(regulators_view(r@) =~~= spec_dso_regulators());
    }
    r
}

/// The view of `dso_license_types`.
pub open spec fn spec_dso_license_types() -> Seq<LicenseTypeView> {
    seq![
        license_type_view(
            "ae-dso:tech"@,
            "DSO Technology License"@,
            "Technology company license in Dubai Silicon Oasis"@,
            "ae-dso"@,
            Some("trade"@),
            seq!["technology_services"@, "software_development"@, "it_services"@],
            seq![],
            seq![("AED"@, "12000"@)],
            seq![("AED"@, "10000"@)],
            Some(1i32),
        ),
        license_type_view(
            "ae-dso:freelancer"@,
            "DSO Freelancer Permit"@,
            "Freelancer permit in DSO"@,
            "ae-dso"@,
            Some("professional"@),
            seq!["freelance_services"@, "consulting"@],
            seq![],
            seq![("AED"@, "7500"@)],
            seq![("AED"@, "7500"@)],
            Some(1i32),
        )
    ]
}

/// Catalog entry `dso_license_types`.
pub fn dso_license_types() -> (r: Vec<LicenseTypeDefinition>)
    ensures
        license_types_view(r@) == spec_dso_license_types(),
        license_types_view(r@) == seq![
            license_type_view(
                "ae-dso:tech"@,
                "DSO Technology License"@,
                "Technology company license in Dubai Silicon Oasis"@,
                "ae-dso"@,
                Some("trade"@),
                seq!["technology_services"@, "software_development"@, "it_services"@],
                seq![],
                seq![("AED"@, "12000"@)],
                seq![("AED"@, "10000"@)],
                Some(1i32),
            ),
            license_type_view(
                "ae-dso:freelancer"@,
                "DSO Freelancer Permit"@,
                "Freelancer permit in DSO"@,
                "ae-dso"@,
                Some("professional"@),
                seq!["freelance_services"@, "consulting"@],
                seq![],
                seq![("AED"@, "7500"@)],
                seq![("AED"@, "7500"@)],
                Some(1i32),
            )
        ],
{
    let r = vec![
        license_type(
            "ae-dso:tech",
            "DSO Technology License",
            "Technology company license in Dubai Silicon Oasis",
            "ae-dso",
            Some("trade"),
            &["technology_services", "software_development", "it_services"],
            &[],
            &[("AED", "12000")],
            &[("AED", "10000")],
            Some(1i32),
        ),
        license_type(
            "ae-dso:freelancer",
            "DSO Freelancer Permit",
            "Freelancer permit in DSO",
            "ae-dso",
            Some("professional"),
            &["freelance_services", "consulting"],
            &[],
            &[("AED", "7500")],
            &[("AED", "7500")],
            Some(1i32),
        )
    ];
    proof {
        assert(license_types_view(r@) =~~= spec_dso_license_types());
    }
    r
}

/// The view of `dic_regulators`.
pub open spec fn spec_dic_regulators() -> Seq<RegulatorView> {
    seq![
        regulator_view(
            "ae-dic"@,
            "TECOM Group (DIC/DMC)"@,
            "ae-dubai-dic"@,
            Some("https://www.tecom.ae"@),
            seq!["company_search"@],
        )
    ]
}

/// Catalog entry `dic_regulators`.
pub fn dic_regulators() -> (r: Vec<LicensepackRegulator>)
    ensures
        regulators_view(r@) == spec_dic_regulators(),
        regulators_view(r@) == seq![
            regulator_view(
                "ae-dic"@,
                "TECOM Group (DIC/DMC)"@,
                "ae-dubai-dic"@,
                Some("https://www.tecom.ae"@),
                seq!["company_search"@],
            )
        ],
{
    let r = vec![
        regulator(
            "ae-dic",
            "TECOM Group (DIC/DMC)",
            "ae-dubai-dic",
            Some("https://www.tecom.ae"),
            &["company_search"],
        )
    ];
    proof {
        assert(regulators_view(r@) =~~= spec_dic_regulators());
    }
    r
}

/// The view of `dic_license_types`.
pub open spec fn spec_dic_license_types() -> Seq<LicenseTypeView> {
    seq![
        license_type_view(
            "ae-dic:technology"@,
            "DIC Technology License"@,
            "Technology company license in Dubai Internet/Media City"@,
            "ae-dic"@,
            Some("trade"@),
            seq!["technology_services"@, "software_development"@, "digital_media"@],
            seq![],
            seq![("AED"@, "15000"@)],
            seq![("AED"@, "12000"@)],
            Some(1i32),
        ),
        license_type_view(
            "ae-dic:media"@,
            "DMC Media License"@,
            "Media company license in Dubai Media City"@,
            "ae-dic"@,
            Some("trade"@),
            seq!["media_production"@, "publishing"@, "broadcasting"@],
            seq![],
            seq![("AED"@, "15000"@)],
            seq![("AED"@, "12000"@)],
            Some(1i32),
        )
    ]
}

/// Catalog entry `dic_license_types`.
pub fn dic_license_types() -> (r: Vec<LicenseTypeDefinition>)
    ensures
        license_types_view(r@) == spec_dic_license_types(),
        license_types_view(r@) == seq![
            license_type_view(
                "ae-dic:technology"@,
                "DIC Technology License"@,
                "Technology company license in Dubai Internet/Media City"@,
                "ae-dic"@,
                Some("trade"@),
                seq!["technology_services"@, "software_development"@, "digital_media"@],
                seq![],
                seq![("AED"@, "15000"@)],
                seq![("AED"@, "12000"@)],
                Some(1i32),
            ),
            license_type_view(
                "ae-dic:media"@,
                "DMC Media License"@,
                "Media company license in Dubai Media City"@,
                "ae-dic"@,
                Some("trade"@),
                seq!["media_production"@, "publishing"@, "broadcasting"@],
                seq![],
                seq![("AED"@, "15000"@)],
                seq![("AED"@, "12000"@)],
                Some(1i32),
            )
        ],
{
    let r = vec![
        license_type(
            "ae-dic:technology",
            "DIC Technology License",
            "Technology company license in Dubai Internet/Media City",
            "ae-dic",
            Some("trade"),
            &["technology_services", "software_development", "digital_media"],
            &[],
            &[("AED", "15000")],
            &[("AED", "12000")],
            Some(1i32),
        ),
        license_type(
            "ae-dic:media",
            "DMC Media License",
            "Media company license in Dubai Media City",
            "ae-dic",
            Some("trade"),
            &["media_production", "publishing", "broadcasting"],
            &[],
            &[("AED", "15000")],
            &[("AED", "12000")],
            Some(1i32),
        )
    ];
    proof {
        assert(license_types_view(r@) =~~= spec_dic_license_types());
    }
    r
}

/// The view of `dhcc_regulators`.
pub open spec fn spec_dhcc_regulators() -> Seq<RegulatorView> {
    seq![
        regulator_view(
            "ae-dhcc"@,
            "Dubai Healthcare City Authority"@,
            "ae-dubai-dhcc"@,
            Some("https://www.dhcc.ae"@),
            seq!["license_query"@],
        )
    ]
}

/// Catalog entry `dhcc_regulators`.
pub fn dhcc_regulators() -> (r: Vec<LicensepackRegulator>)
    ensures
        regulators_view(r@) == spec_dhcc_regulators(),
        regulators_view(r@) == seq![
            regulator_view(
                "ae-dhcc"@,
                "Dubai Healthcare City Authority"@,
                "ae-dubai-dhcc"@,
                Some("https://www.dhcc.ae"@),
                seq!["license_query"@],
            )
        ],
{
    let r = vec![
        regulator(
            "ae-dhcc",
            "Dubai Healthcare City Authority",
            "ae-dubai-dhcc",
            Some("https://www.dhcc.ae"),
            &["license_query"],
        )
    ];
    proof {
        assert(regulators_view(r@) =~~= spec_dhcc_regulators());
    }
    r
}

/// The view of `dhcc_license_types`.
pub open spec fn spec_dhcc_license_types() -> Seq<LicenseTypeView> {
    seq![
        license_type_view(
            "ae-dhcc:healthcare"@,
            "DHCC Healthcare License"@,
            "Healthcare facility license in DHCC"@,
            "ae-dhcc"@,
            Some("professional"@),
            seq!["healthcare_services"@, "medical_practice"@],
            seq![],
            seq![("AED"@, "20000"@)],
            seq![("AED"@, "15000"@)],
            Some(1i32),
        ),
        license_type_view(
            "ae-dhcc:pharmaceutical"@,
            "DHCC Pharmaceutical License"@,
            "Pharmaceutical license in DHCC"@,
            "ae-dhcc"@,
            Some("professional"@),
            seq!["pharmaceutical_services"@, "drug_distribution"@],
            seq![],
            seq![("AED"@, "20000"@)],
            seq![("AED"@, "15000"@)],
            Some(1i32),
        )
    ]
}

/// Catalog entry `dhcc_license_types`.
pub fn dhcc_license_types() -> (r: Vec<LicenseTypeDefinition>)
    ensures
        license_types_view(r@) == spec_dhcc_license_types(),
        license_types_view(r@) == seq![
            license_type_view(
                "ae-dhcc:healthcare"@,
                "DHCC Healthcare License"@,
                "Healthcare facility license in DHCC"@,
                "ae-dhcc"@,
                Some("professional"@),
                seq!["healthcare_services"@, "medical_practice"@],
                seq![],
                seq![("AED"@, "20000"@)],
                seq![("AED"@, "15000"@)],
                Some(1i32),
            ),
            license_type_view(
                "ae-dhcc:pharmaceutical"@,
                "DHCC Pharmaceutical License"@,
                "Pharmaceutical license in DHCC"@,
                "ae-dhcc"@,
                Some("professional"@),
                seq!["pharmaceutical_services"@, "drug_distribution"@],
                seq![],
                seq![("AED"@, "20000"@)],
                seq![("AED"@, "15000"@)],
                Some(1i32),
            )
        ],
{
    let r = vec![
        license_type(
            "ae-dhcc:healthcare",
            "DHCC Healthcare License",
            "Healthcare facility license in DHCC",
            "ae-dhcc",
            Some("professional"),
            &["healthcare_services", "medical_practice"],
            &[],
            &[("AED", "20000")],
            &[("AED", "15000")],
            Some(1i32),
        ),
        license_type(
            "ae-dhcc:pharmaceutical",
            "DHCC Pharmaceutical License",
            "Pharmaceutical license in DHCC",
            "ae-dhcc",
            Some("professional"),
            &["pharmaceutical_services", "drug_distribution"],
            &[],
            &[("AED", "20000")],
            &[("AED", "15000")],
            Some(1i32),
        )
    ];
    proof {
        assert(license_types_view(r@) =~~= spec_dhcc_license_types());
    }
    r
}

/// The view of `abudhabi_fz_regulators`.
pub open spec fn spec_abudhabi_fz_regulators() -> Seq<RegulatorView> {
    seq![
        regulator_view(
            "ae-abudhabi-added"@,
            "Abu Dhabi Department of Economic Development"@,
            "ae-abudhabi"@,
            Some("https://added.gov.ae"@),
            seq!["license_query"@],
        ),
        regulator_view(
            "ae-masdar"@,
            "Masdar City Free Zone Authority"@,
            "ae-abudhabi-masdar"@,
            Some("https://masdarcityfreezone.ae"@),
            seq!["company_search"@],
        ),
        regulator_view(
            "ae-kizad"@,
            "KIZAD Authority"@,
            "ae-abudhabi-kizad"@,
            Some("https://www.kizad.ae"@),
            seq!["company_search"@],
        ),
        regulator_view(
            "ae-twofour54"@,
            "twofour54 Abu Dhabi"@,
            "ae-abudhabi-twofour54"@,
            Some("https://www.twofour54.com"@),
            seq!["company_search"@],
        ),
        regulator_view(
            "ae-kezad"@,
            "KEZAD Abu Dhabi"@,
            "ae-abudhabi-kezad"@,
            Some("https://www.kezad.ae"@),
            seq!["company_search"@],
        )
    ]
}

/// Catalog entry `abudhabi_fz_regulators`.
pub fn abudhabi_fz_regulators() -> (r: Vec<LicensepackRegulator>)
    ensures
        regulators_view(r@) == spec_abudhabi_fz_regulators(),
        regulators_view(r@) == seq![
            regulator_view(
                "ae-abudhabi-added"@,
                "Abu Dhabi Department of Economic Development"@,
                "ae-abudhabi"@,
                Some("https://added.gov.ae"@),
                seq!["license_query"@],
            ),
            regulator_view(
                "ae-masdar"@,
                "Masdar City Free Zone Authority"@,
                "ae-abudhabi-masdar"@,
                Some("https://masdarcityfreezone.ae"@),
                seq!["company_search"@],
            ),
            regulator_view(
                "ae-kizad"@,
                "KIZAD Authority"@,
                "ae-abudhabi-kizad"@,
                Some("https://www.kizad.ae"@),
                seq!["company_search"@],
            ),
            regulator_view(
                "ae-twofour54"@,
                "twofour54 Abu Dhabi"@,
                "ae-abudhabi-twofour54"@,
                Some("https://www.twofour54.com"@),
                seq!["company_search"@],
            ),
            regulator_view(
                "ae-kezad"@,
                "KEZAD Abu Dhabi"@,
                "ae-abudhabi-kezad"@,
                Some("https://www.kezad.ae"@),
                seq!["company_search"@],
            )
        ],
{
    let r = vec![
        regulator(
            "ae-abudhabi-added",
            "Abu Dhabi Department of Economic Development",
            "ae-abudhabi",
            Some("https://added.gov.ae"),
            &["license_query"],
        ),
        regulator(
            "ae-masdar",
            "Masdar City Free Zone Authority",
            "ae-abudhabi-masdar",
            Some("https://masdarcityfreezone.ae"),
            &["company_search"],
        ),
        regulator(
            "ae-kizad",
            "KIZAD Authority",
            "ae-abudhabi-kizad",
            Some("https://www.kizad.ae"),
            &["company_search"],
        ),
        regulator(
            "ae-twofour54",
            "twofour54 Abu Dhabi",
            "ae-abudhabi-twofour54",
            Some("https://www.twofour54.com"),
            &["company_search"],
        ),
        regulator(
            "ae-kezad",
            "KEZAD Abu Dhabi",
            "ae-abudhabi-kezad",
            Some("https://www.kezad.ae"),
            &["company_search"],
        )
    ];
    proof {
        assert(regulators_view(r@) =~~= spec_abudhabi_fz_regulators());
    }
    r
}

/// The view of `abudhabi_fz_license_types`.
pub open spec fn spec_abudhabi_fz_license_types() -> Seq<LicenseTypeView> {
    seq![
        license_type_view(
            "ae-abudhabi-added:trade-license"@,
            "Abu Dhabi Trade License"@,
            "Trade license in Abu Dhabi mainland"@,
            "ae-abudhabi-added"@,
            Some("trade"@),
            seq!["general_trading"@, "import_export"@, "retail"@],
            seq![],
            seq![("AED"@, "10000"@)],
            seq![("AED"@, "8000"@)],
            Some(1i32),
        ),
        license_type_view(
            "ae-masdar:cleantech"@,
            "Masdar Clean Tech License"@,
            "Clean technology company license in Masdar City"@,
            "ae-masdar"@,
            Some("trade"@),
            seq!["clean_technology"@, "renewable_energy"@, "sustainability"@],
            seq![],
            seq![("AED"@, "12000"@)],
            seq![("AED"@, "10000"@)],
            Some(1i32),
        ),
        license_type_view(
            "ae-kizad:industrial"@,
            "KIZAD Industrial License"@,
            "Industrial license in Khalifa Industrial Zone"@,
            "ae-kizad"@,
            Some("trade"@),
            seq!["manufacturing"@, "processing"@, "logistics"@],
            seq![],
            seq![("AED"@, "15000"@)],
            seq![("AED"@, "12000"@)],
            Some(1i32),
        ),
        license_type_view(
            "ae-kizad:trading"@,
            "KIZAD Trading License"@,
            "Trading license in KIZAD"@,
            "ae-kizad"@,
            Some("trade"@),
            seq!["import_export"@, "warehousing"@, "distribution"@],
            seq![],
            seq![("AED"@, "12000"@)],
            seq![("AED"@, "10000"@)],
            Some(1i32),
        ),
        license_type_view(
            "ae-twofour54:media"@,
            "twofour54 Media License"@,
            "Media company license in twofour54"@,
            "ae-twofour54"@,
            Some("trade"@),
            seq!["media_production"@, "content_creation"@, "broadcasting"@],
            seq![],
            seq![("AED"@, "15000"@)],
            seq![("AED"@, "12000"@)],
            Some(1i32),
        ),
        license_type_view(
            "ae-kezad:logistics"@,
            "KEZAD Logistics License"@,
            "Logistics license in KEZAD"@,
            "ae-kezad"@,
            Some("trade"@),
            seq!["logistics"@, "warehousing"@, "port_operations"@],
            seq![],
            seq![("AED"@, "15000"@)],
            seq![("AED"@, "12000"@)],
            Some(1i32),
        ),
        license_type_view(
            "ae-kezad:industrial"@,
            "KEZAD Industrial License"@,
            "Industrial license in KEZAD"@,
            "ae-kezad"@,
            Some("trade"@),
            seq!["manufacturing"@, "processing"@, "assembly"@],
            seq![],
            seq![("AED"@, "15000"@)],
            seq![("AED"@, "12000"@)],
            Some(1i32),
        )
    ]
}

/// Catalog entry `abudhabi_fz_license_types`.
pub fn abudhabi_fz_license_types() -> (r: Vec<LicenseTypeDefinition>)
    ensures
        license_types_view(r@) == spec_abudhabi_fz_license_types(),
        license_types_view(r@) == seq![
            license_type_view(
                "ae-abudhabi-added:trade-license"@,
                "Abu Dhabi Trade License"@,
                "Trade license in Abu Dhabi mainland"@,
                "ae-abudhabi-added"@,
                Some("trade"@),
                seq!["general_trading"@, "import_export"@, "retail"@],
                seq![],
                seq![("AED"@, "10000"@)],
                seq![("AED"@, "8000"@)],
                Some(1i32),
            ),
            license_type_view(
                "ae-masdar:cleantech"@,
                "Masdar Clean Tech License"@,
                "Clean technology company license in Masdar City"@,
                "ae-masdar"@,
                Some("trade"@),
                seq!["clean_technology"@, "renewable_energy"@, "sustainability"@],
                seq![],
                seq![("AED"@, "12000"@)],
                seq![("AED"@, "10000"@)],
                Some(1i32),
            ),
            license_type_view(
                "ae-kizad:industrial"@,
                "KIZAD Industrial License"@,
                "Industrial license in Khalifa Industrial Zone"@,
                "ae-kizad"@,
                Some("trade"@),
                seq!["manufacturing"@, "processing"@, "logistics"@],
                seq![],
                seq![("AED"@, "15000"@)],
                seq![("AED"@, "12000"@)],
                Some(1i32),
            ),
            license_type_view(
                "ae-kizad:trading"@,
                "KIZAD Trading License"@,
                "Trading license in KIZAD"@,
                "ae-kizad"@,
                Some("trade"@),
                seq!["import_export"@, "warehousing"@, "distribution"@],
                seq![],
                seq![("AED"@, "12000"@)],
                seq![("AED"@, "10000"@)],
                Some(1i32),
            ),
            license_type_view(
                "ae-twofour54:media"@,
                "twofour54 Media License"@,
                "Media company license in twofour54"@,
                "ae-twofour54"@,
                Some("trade"@),
                seq!["media_production"@, "content_creation"@, "broadcasting"@],
                seq![],
                seq![("AED"@, "15000"@)],
                seq![("AED"@, "12000"@)],
                Some(1i32),
            ),
            license_type_view(
                "ae-kezad:logistics"@,
                "KEZAD Logistics License"@,
                "Logistics license in KEZAD"@,
                "ae-kezad"@,
                Some("trade"@),
                seq!["logistics"@, "warehousing"@, "port_operations"@],
                seq![],
                seq![("AED"@, "15000"@)],
                seq![("AED"@, "12000"@)],
                Some(1i32),
            ),
            license_type_view(
                "ae-kezad:industrial"@,
                "KEZAD Industrial License"@,
                "Industrial license in KEZAD"@,
                "ae-kezad"@,
                Some("trade"@),
                seq!["manufacturing"@, "processing"@, "assembly"@],
                seq![],
                seq![("AED"@, "15000"@)],
                seq![("AED"@, "12000"@)],
                Some(1i32),
            )
        ],
{
    let r = vec![
        license_type(
            "ae-abudhabi-added:trade-license",
            "Abu Dhabi Trade License",
            "Trade license in Abu Dhabi mainland",
            "ae-abudhabi-added",
            Some("trade"),
            &["general_trading", "import_export", "retail"],
            &[],
            &[("AED", "10000")],
            &[("AED", "8000")],
            Some(1i32),
        ),
        license_type(
            "ae-masdar:cleantech",
            "Masdar Clean Tech License",
            "Clean technology company license in Masdar City",
            "ae-masdar",
            Some("trade"),
            &["clean_technology", "renewable_energy", "sustainability"],
            &[],
            &[("AED", "12000")],
            &[("AED", "10000")],
            Some(1i32),
        ),
        license_type(
            "ae-kizad:industrial",
            "KIZAD Industrial License",
            "Industrial license in Khalifa Industrial Zone",
            "ae-kizad",
            Some("trade"),
            &["manufacturing", "processing", "logistics"],
            &[],
            &[("AED", "15000")],
            &[("AED", "12000")],
            Some(1i32),
        ),
        license_type(
            "ae-kizad:trading",
            "KIZAD Trading License",
            "Trading license in KIZAD",
            "ae-kizad",
            Some("trade"),
            &["import_export", "warehousing", "distribution"],
            &[],
            &[("AED", "12000")],
            &[("AED", "10000")],
            Some(1i32),
        ),
        license_type(
            "ae-twofour54:media",
            "twofour54 Media License",
            "Media company license in twofour54",
            "ae-twofour54",
            Some("trade"),
            &["media_production", "content_creation", "broadcasting"],
            &[],
            &[("AED", "15000")],
            &[("AED", "12000")],
            Some(1i32),
        ),
        license_type(
            "ae-kezad:logistics",
            "KEZAD Logistics License",
            "Logistics license in KEZAD",
            "ae-kezad",
            Some("trade"),
            &["logistics", "warehousing", "port_operations"],
            &[],
            &[("AED", "15000")],
            &[("AED", "12000")],
            Some(1i32),
        ),
        license_type(
            "ae-kezad:industrial",
            "KEZAD Industrial License",
            "Industrial license in KEZAD",
            "ae-kezad",
            Some("trade"),
            &["manufacturing", "processing", "assembly"],
            &[],
            &[("AED", "15000")],
            &[("AED", "12000")],
            Some(1i32),
        )
    ];
    proof {
        assert(license_types_view(r@) =~~= spec_abudhabi_fz_license_types());
    }
    r
}

/// The view of `ded_regulators`.
pub open spec fn spec_ded_regulators() -> Seq<RegulatorView> {
    seq![
        regulator_view(
            "ae-dubai-ded"@,
            "Dubai Department of Economy and Tourism"@,
            "ae-dubai"@,
            Some("https://www.dubaidet.gov.ae"@),
            seq!["license_query"@, "company_search"@],
        )
    ]
}

/// Dubai mainland licensing authority (Department of Economy and Tourism,
/// formerly the Department of Economic Development, DED).
///
/// This entry is an outline, written for this catalog: its name, address and
/// registry services are not taken from a published register.
pub fn ded_regulators() -> (r: Vec<LicensepackRegulator>)
    ensures
        regulators_view(r@) == spec_ded_regulators(),
        regulators_view(r@) == seq![
            regulator_view(
                "ae-dubai-ded"@,
                "Dubai Department of Economy and Tourism"@,
                "ae-dubai"@,
                Some("https://www.dubaidet.gov.ae"@),
                seq!["license_query"@, "company_search"@],
            )
        ],
{
    let r = vec![
        regulator(
            "ae-dubai-ded",
            "Dubai Department of Economy and Tourism",
            "ae-dubai",
            Some("https://www.dubaidet.gov.ae"),
            &["license_query", "company_search"],
        )
    ];
    proof {
        assert(regulators_view(r@) =~~= spec_ded_regulators());
    }
    r
}

/// The view of `ded_license_types`.
pub open spec fn spec_ded_license_types() -> Seq<LicenseTypeView> {
    seq![
        license_type_view(
            "ae-dubai-ded:commercial"@,
            "Dubai Commercial License"@,
            "Commercial (trading) license in Dubai mainland"@,
            "ae-dubai-ded"@,
            Some("trade"@),
            seq!["general_trading"@, "import_export"@, "retail"@],
            seq![],
            seq![],
            seq![],
            Some(1i32),
        ),
        license_type_view(
            "ae-dubai-ded:professional"@,
            "Dubai Professional License"@,
            "Professional services license in Dubai mainland"@,
            "ae-dubai-ded"@,
            Some("corporate"@),
            seq!["consulting"@, "professional_services"@],
            seq![],
            seq![],
            seq![],
            Some(1i32),
        ),
        license_type_view(
            "ae-dubai-ded:industrial"@,
            "Dubai Industrial License"@,
            "Industrial license in Dubai mainland"@,
            "ae-dubai-ded"@,
            Some("trade"@),
            seq!["manufacturing"@, "processing"@],
            seq![],
            seq![],
            seq![],
            Some(1i32),
        )
    ]
}

/// Dubai mainland licence classes issued by DED: commercial, professional
/// and industrial.
///
/// These entries are an outline, written for this catalog: their activities
/// and one-year term are indicative, no fee schedule is given, and none of
/// it is taken from a published register.
pub fn ded_license_types() -> (r: Vec<LicenseTypeDefinition>)
    ensures
        license_types_view(r@) == spec_ded_license_types(),
        license_types_view(r@) == seq![
            license_type_view(
                "ae-dubai-ded:commercial"@,
                "Dubai Commercial License"@,
                "Commercial (trading) license in Dubai mainland"@,
                "ae-dubai-ded"@,
                Some("trade"@),
                seq!["general_trading"@, "import_export"@, "retail"@],
                seq![],
                seq![],
                seq![],
                Some(1i32),
            ),
            license_type_view(
                "ae-dubai-ded:professional"@,
                "Dubai Professional License"@,
                "Professional services license in Dubai mainland"@,
                "ae-dubai-ded"@,
                Some("corporate"@),
                seq!["consulting"@, "professional_services"@],
                seq![],
                seq![],
                seq![],
                Some(1i32),
            ),
            license_type_view(
                "ae-dubai-ded:industrial"@,
                "Dubai Industrial License"@,
                "Industrial license in Dubai mainland"@,
                "ae-dubai-ded"@,
                Some("trade"@),
                seq!["manufacturing"@, "processing"@],
                seq![],
                seq![],
                seq![],
                Some(1i32),
            )
        ],
{
    let r = vec![
        license_type(
            "ae-dubai-ded:commercial",
            "Dubai Commercial License",
            "Commercial (trading) license in Dubai mainland",
            "ae-dubai-ded",
            Some("trade"),
            &["general_trading", "import_export", "retail"],
            &[],
            &[],
            &[],
            Some(1i32),
        ),
        license_type(
            "ae-dubai-ded:professional",
            "Dubai Professional License",
            "Professional services license in Dubai mainland",
            "ae-dubai-ded",
            Some("corporate"),
            &["consulting", "professional_services"],
            &[],
            &[],
            &[],
            Some(1i32),
        ),
        license_type(
            "ae-dubai-ded:industrial",
            "Dubai Industrial License",
            "Industrial license in Dubai mainland",
            "ae-dubai-ded",
            Some("trade"),
            &["manufacturing", "processing"],
            &[],
            &[],
            &[],
            Some(1i32),
        )
    ];
    proof {
        assert(license_types_view(r@) =~~= spec_ded_license_types());
    }
    r
}

/// The view of `uae_regulators`.
pub open spec fn spec_uae_regulators() -> Seq<RegulatorView> {
    spec_federal_regulators()
        + spec_adgm_regulators()
        + spec_difc_regulators()
        + spec_dmcc_regulators()
        + spec_jafza_regulators()
        + spec_ifza_regulators()
        + spec_dwtc_regulators()
        + spec_dso_regulators()
        + spec_dic_regulators()
        + spec_dhcc_regulators()
        + spec_abudhabi_fz_regulators()
        + spec_ded_regulators()
}

/// All UAE regulators.
pub fn uae_regulators() -> (r: Vec<LicensepackRegulator>)
    ensures
        regulators_view(r@) == spec_uae_regulators(),
        regulators_view(r@) == spec_federal_regulators()
            + spec_adgm_regulators()
            + spec_difc_regulators()
            + spec_dmcc_regulators()
            + spec_jafza_regulators()
            + spec_ifza_regulators()
            + spec_dwtc_regulators()
            + spec_dso_regulators()
            + spec_dic_regulators()
            + spec_dhcc_regulators()
            + spec_abudhabi_fz_regulators()
            + spec_ded_regulators(),
{
    let mut all: Vec<LicensepackRegulator> = Vec::new();
    proof {
        assert(regulators_view(all@) =~= Seq::<RegulatorView>::empty());
    }
    let ghost before = all@;
    let mut part = federal_regulators();
    let ghost added = part@;
    all.append(&mut part);
    proof {
        lemma_regulators_view_append(before, added);
        assert(regulators_view(all@) =~= spec_federal_regulators());
    }
    let ghost before = all@;
    let mut part = adgm_regulators();
    let ghost added = part@;
    all.append(&mut part);
    proof {
        lemma_regulators_view_append(before, added);
        assert(regulators_view(all@) =~= spec_federal_regulators() + spec_adgm_regulators());
    }
    let ghost before = all@;
    let mut part = difc_regulators();
    let ghost added = part@;
    all.append(&mut part);
    proof {
        lemma_regulators_view_append(before, added);
        assert(regulators_view(all@) =~= spec_federal_regulators() + spec_adgm_regulators() + spec_difc_regulators());
    }
    let ghost before = all@;
    let mut part = dmcc_regulators();
    let ghost added = part@;
    all.append(&mut part);
    proof {
        lemma_regulators_view_append(before, added);
        assert(regulators_view(all@) =~= spec_federal_regulators() + spec_adgm_regulators() + spec_difc_regulators() + spec_dmcc_regulators());
    }
    let ghost before = all@;
    let mut part = jafza_regulators();
    let ghost added = part@;
    all.append(&mut part);
    proof {
        lemma_regulators_view_append(before, added);
        assert(regulators_view(all@) =~= spec_federal_regulators() + spec_adgm_regulators() + spec_difc_regulators() + spec_dmcc_regulators() + spec_jafza_regulators());
    }
    let ghost before = all@;
    let mut part = ifza_regulators();
    let ghost added = part@;
    all.append(&mut part);
    proof {
        lemma_regulators_view_append(before, added);
        assert(regulators_view(all@) =~= spec_federal_regulators() + spec_adgm_regulators() + spec_difc_regulators() + spec_dmcc_regulators() + spec_jafza_regulators() + spec_ifza_regulators());
    }
    let ghost before = all@;
    let mut part = dwtc_regulators();
    let ghost added = part@;
    all.append(&mut part);
    proof {
        lemma_regulators_view_append(before, added);
        assert(regulators_view(all@) =~= spec_federal_regulators() + spec_adgm_regulators() + spec_difc_regulators() + spec_dmcc_regulators() + spec_jafza_regulators() + spec_ifza_regulators() + spec_dwtc_regulators());
    }
    let ghost before = all@;
    let mut part = dso_regulators();
    let ghost added = part@;
    all.append(&mut part);
    proof {
        lemma_regulators_view_append(before, added);
        assert(regulators_view(all@) =~= spec_federal_regulators() + spec_adgm_regulators() + spec_difc_regulators() + spec_dmcc_regulators() + spec_jafza_regulators() + spec_ifza_regulators() + spec_dwtc_regulators() + spec_dso_regulators());
    }
    let ghost before = all@;
    let mut part = dic_regulators();
    let ghost added = part@;
    all.append(&mut part);
    proof {
        lemma_regulators_view_append(before, added);
        assert(regulators_view(all@) =~= spec_federal_regulators() + spec_adgm_regulators() + spec_difc_regulators() + spec_dmcc_regulators() + spec_jafza_regulators() + spec_ifza_regulators() + spec_dwtc_regulators() + spec_dso_regulators() + spec_dic_regulators());
    }
    let ghost before = all@;
    let mut part = dhcc_regulators();
    let ghost added = part@;
    all.append(&mut part);
    proof {
        lemma_regulators_view_append(before, added);
        assert(regulators_view(all@) =~= spec_federal_regulators() + spec_adgm_regulators() + spec_difc_regulators() + spec_dmcc_regulators() + spec_jafza_regulators() + spec_ifza_regulators() + spec_dwtc_regulators() + spec_dso_regulators() + spec_dic_regulators() + spec_dhcc_regulators());
    }
    let ghost before = all@;
    let mut part = abudhabi_fz_regulators();
    let ghost added = part@;
    all.append(&mut part);
    proof {
        lemma_regulators_view_append(before, added);
        assert(regulators_view(all@) =~= spec_federal_regulators() + spec_adgm_regulators() + spec_difc_regulators() + spec_dmcc_regulators() + spec_jafza_regulators() + spec_ifza_regulators() + spec_dwtc_regulators() + spec_dso_regulators() + spec_dic_regulators() + spec_dhcc_regulators() + spec_abudhabi_fz_regulators());
    }
    let ghost before = all@;
    let mut part = ded_regulators();
    let ghost added = part@;
    all.append(&mut part);
    proof {
        lemma_regulators_view_append(before, added);
        assert(regulators_view(all@) =~= spec_federal_regulators() + spec_adgm_regulators() + spec_difc_regulators() + spec_dmcc_regulators() + spec_jafza_regulators() + spec_ifza_regulators() + spec_dwtc_regulators() + spec_dso_regulators() + spec_dic_regulators() + spec_dhcc_regulators() + spec_abudhabi_fz_regulators() + spec_ded_regulators());
    }
    all
}

/// The view of `uae_license_types`.
pub open spec fn spec_uae_license_types() -> Seq<LicenseTypeView> {
    spec_federal_license_types()
        + spec_adgm_license_types()
        + spec_difc_license_types()
        + spec_dmcc_license_types()
        + spec_jafza_license_types()
        + spec_ifza_license_types()
        + spec_dwtc_license_types()
        + spec_dso_license_types()
        + spec_dic_license_types()
        + spec_dhcc_license_types()
        + spec_abudhabi_fz_license_types()
        + spec_ded_license_types()
}

/// All UAE license type definitions.
pub fn uae_license_types() -> (r: Vec<LicenseTypeDefinition>)
    ensures
        license_types_view(r@) == spec_uae_license_types(),
        license_types_view(r@) == spec_federal_license_types()
            + spec_adgm_license_types()
            + spec_difc_license_types()
            + spec_dmcc_license_types()
            + spec_jafza_license_types()
            + spec_ifza_license_types()
            + spec_dwtc_license_types()
            + spec_dso_license_types()
            + spec_dic_license_types()
            + spec_dhcc_license_types()
            + spec_abudhabi_fz_license_types()
            + spec_ded_license_types(),
{
    let mut all: Vec<LicenseTypeDefinition> = Vec::new();
    proof {
        assert(license_types_view(all@) =~= Seq::<LicenseTypeView>::empty());
    }
    let ghost before = all@;
    let mut part = federal_license_types();
    let ghost added = part@;
    all.append(&mut part);
    proof {
        lemma_license_types_view_append(before, added);
        assert(license_types_view(all@) =~= spec_federal_license_types());
    }
    let ghost before = all@;
    let mut part = adgm_license_types();
    let ghost added = part@;
    all.append(&mut part);
    proof {
        lemma_license_types_view_append(before, added);
        assert(license_types_view(all@) =~= spec_federal_license_types() + spec_adgm_license_types());
    }
    let ghost before = all@;
    let mut part = difc_license_types();
    let ghost added = part@;
    all.append(&mut part);
    proof {
        lemma_license_types_view_append(before, added);
        assert(license_types_view(all@) =~= spec_federal_license_types() + spec_adgm_license_types() + spec_difc_license_types());
    }
    let ghost before = all@;
    let mut part = dmcc_license_types();
    let ghost added = part@;
    all.append(&mut part);
    proof {
        lemma_license_types_view_append(before, added);
        assert(license_types_view(all@) =~= spec_federal_license_types() + spec_adgm_license_types() + spec_difc_license_types() + spec_dmcc_license_types());
    }
    let ghost before = all@;
    let mut part = jafza_license_types();
    let ghost added = part@;
    all.append(&mut part);
    proof {
        lemma_license_types_view_append(before, added);
        assert(license_types_view(all@) =~= spec_federal_license_types() + spec_adgm_license_types() + spec_difc_license_types() + spec_dmcc_license_types() + spec_jafza_license_types());
    }
    let ghost before = all@;
    let mut part = ifza_license_types();
    let ghost added = part@;
    all.append(&mut part);
    proof {
        lemma_license_types_view_append(before, added);
        assert(license_types_view(all@) =~= spec_federal_license_types() + spec_adgm_license_types() + spec_difc_license_types() + spec_dmcc_license_types() + spec_jafza_license_types() + spec_ifza_license_types());
    }
    let ghost before = all@;
    let mut part = dwtc_license_types();
    let ghost added = part@;
    all.append(&mut part);
    proof {
        lemma_license_types_view_append(before, added);
        assert(license_types_view(all@) =~= spec_federal_license_types() + spec_adgm_license_types() + spec_difc_license_types() + spec_dmcc_license_types() + spec_jafza_license_types() + spec_ifza_license_types() + spec_dwtc_license_types());
    }
    let ghost before = all@;
    let mut part = dso_license_types();
    let ghost added = part@;
    all.append(&mut part);
    proof {
        lemma_license_types_view_append(before, added);
        assert(license_types_view(all@) =~= spec_federal_license_types() + spec_adgm_license_types() + spec_difc_license_types() + spec_dmcc_license_types() + spec_jafza_license_types() + spec_ifza_license_types() + spec_dwtc_license_types() + spec_dso_license_types());
    }
    let ghost before = all@;
    let mut part = dic_license_types();
    let ghost added = part@;
    all.append(&mut part);
    proof {
        lemma_license_types_view_append(before, added);
        assert(license_types_view(all@) =~= spec_federal_license_types() + spec_adgm_license_types() + spec_difc_license_types() + spec_dmcc_license_types() + spec_jafza_license_types() + spec_ifza_license_types() + spec_dwtc_license_types() + spec_dso_license_types() + spec_dic_license_types());
    }
    let ghost before = all@;
    let mut part = dhcc_license_types();
    let ghost added = part@;
    all.append(&mut part);
    proof {
        lemma_license_types_view_append(before, added);
        assert(license_types_view(all@) =~= spec_federal_license_types() + spec_adgm_license_types() + spec_difc_license_types() + spec_dmcc_license_types() + spec_jafza_license_types() + spec_ifza_license_types() + spec_dwtc_license_types() + spec_dso_license_types() + spec_dic_license_types() + spec_dhcc_license_types());
    }
    let ghost before = all@;
    let mut part = abudhabi_fz_license_types();
    let ghost added = part@;
    all.append(&mut part);
    proof {
        lemma_license_types_view_append(before, added);
        assert(license_types_view(all@) =~= spec_federal_license_types() + spec_adgm_license_types() + spec_difc_license_types() + spec_dmcc_license_types() + spec_jafza_license_types() + spec_ifza_license_types() + spec_dwtc_license_types() + spec_dso_license_types() + spec_dic_license_types() + spec_dhcc_license_types() + spec_abudhabi_fz_license_types());
    }
    let ghost before = all@;
    let mut part = ded_license_types();
    let ghost added = part@;
    all.append(&mut part);
    proof {
        lemma_license_types_view_append(before, added);
        assert(license_types_view(all@) =~= spec_federal_license_types() + spec_adgm_license_types() + spec_difc_license_types() + spec_dmcc_license_types() + spec_jafza_license_types() + spec_ifza_license_types() + spec_dwtc_license_types() + spec_dso_license_types() + spec_dic_license_types() + spec_dhcc_license_types() + spec_abudhabi_fz_license_types() + spec_ded_license_types());
    }
    all
}

/// The licence types of `federal_license_types` are complete, granted by its regulators, and
/// each of its regulators grants at least one of them.
proof fn lemma_federal_group()
    ensures
        license_types_complete(spec_federal_license_types()),
        granted_by_listed_regulators(spec_federal_license_types(), spec_federal_regulators()),
        every_regulator_grants(spec_federal_license_types(), spec_federal_regulators()),
        regulators_in_country(spec_federal_regulators(), "ae"@),
{
    assert(complete_each(spec_federal_license_types())) by {
        reveal_strlit("ae-cbuae:commercial-bank");
        reveal_strlit("Commercial Banking License");
        reveal_strlit("License to operate a commercial bank under CBUAE regulations");
        reveal_strlit("ae-cbuae");
        reveal_strlit("ae-cbuae:islamic-bank");
        reveal_strlit("Islamic Banking License");
        reveal_strlit("License for Sharia-compliant banking");
        reveal_strlit("ae-cbuae:exchange-house");
        reveal_strlit("Exchange House License");
        reveal_strlit("License for money exchange and remittance");
        reveal_strlit("ae-cbuae:stored-value");
        reveal_strlit("Stored Value Facility License");
        reveal_strlit("License to issue stored value instruments");
        reveal_strlit("ae-cbuae:insurance");
        reveal_strlit("Insurance Company License");
        reveal_strlit("License to underwrite insurance in the UAE");
        reveal_strlit("ae-sca:securities-broker");
        reveal_strlit("Securities Broker License");
        reveal_strlit("License for securities brokerage activities");
        reveal_strlit("ae-sca");
        reveal_strlit("ae-sca:fund-manager");
        reveal_strlit("Fund Manager License");
        reveal_strlit("License for investment fund management");
        reveal_strlit("ae-moec:foreign-company");
        reveal_strlit("Foreign Company Registration");
        reveal_strlit("Registration of a foreign company branch in the UAE");
        reveal_strlit("ae-moec");
        reveal_with_fuel(complete_each, 9);
    }
    lemma_complete_each(spec_federal_license_types());
    assert(lists_regulator(spec_federal_regulators(), spec_federal_license_types()[0].regulator_id)) by {
        assert(spec_federal_regulators()[0].regulator_id == spec_federal_license_types()[0].regulator_id);
    }
    assert(lists_regulator(spec_federal_regulators(), spec_federal_license_types()[1].regulator_id)) by {
        assert(spec_federal_regulators()[0].regulator_id == spec_federal_license_types()[1].regulator_id);
    }
    assert(lists_regulator(spec_federal_regulators(), spec_federal_license_types()[2].regulator_id)) by {
        assert(spec_federal_regulators()[0].regulator_id == spec_federal_license_types()[2].regulator_id);
    }
    assert(lists_regulator(spec_federal_regulators(), spec_federal_license_types()[3].regulator_id)) by {
        assert(spec_federal_regulators()[0].regulator_id == spec_federal_license_types()[3].regulator_id);
    }
    assert(lists_regulator(spec_federal_regulators(), spec_federal_license_types()[4].regulator_id)) by {
        assert(spec_federal_regulators()[0].regulator_id == spec_federal_license_types()[4].regulator_id);
    }
    assert(lists_regulator(spec_federal_regulators(), spec_federal_license_types()[5].regulator_id)) by {
        assert(spec_federal_regulators()[1].regulator_id == spec_federal_license_types()[5].regulator_id);
    }
    assert(lists_regulator(spec_federal_regulators(), spec_federal_license_types()[6].regulator_id)) by {
        assert(spec_federal_regulators()[1].regulator_id == spec_federal_license_types()[6].regulator_id);
    }
    assert(lists_regulator(spec_federal_regulators(), spec_federal_license_types()[7].regulator_id)) by {
        assert(spec_federal_regulators()[2].regulator_id == spec_federal_license_types()[7].regulator_id);
    }
    assert(granted_listed_each(spec_federal_license_types(), spec_federal_regulators())) by {
        reveal_with_fuel(granted_listed_each, 9);
    }
    lemma_granted_listed_each(spec_federal_license_types(), spec_federal_regulators());
    assert(grants_some(spec_federal_license_types(), spec_federal_regulators()[0].regulator_id)) by {
        assert(spec_federal_license_types()[0].regulator_id == spec_federal_regulators()[0].regulator_id);
    }
    assert(grants_some(spec_federal_license_types(), spec_federal_regulators()[1].regulator_id)) by {
        assert(spec_federal_license_types()[5].regulator_id == spec_federal_regulators()[1].regulator_id);
    }
    assert(grants_some(spec_federal_license_types(), spec_federal_regulators()[2].regulator_id)) by {
        assert(spec_federal_license_types()[7].regulator_id == spec_federal_regulators()[2].regulator_id);
    }
    assert(grants_each(spec_federal_license_types(), spec_federal_regulators())) by {
        reveal_with_fuel(grants_each, 4);
    }
    lemma_grants_each(spec_federal_license_types(), spec_federal_regulators());
    assert(has_prefix("ae"@, "ae"@)) by {
        reveal_strlit("ae");
        reveal_strlit("ae");
        assert("ae"@.subrange(0, 2) =~= "ae"@);
    }
    assert(in_country_each(spec_federal_regulators(), "ae"@)) by {
        reveal_with_fuel(in_country_each, 4);
    }
    lemma_in_country_each(spec_federal_regulators(), "ae"@);
}

/// The licence types of `adgm_license_types` are complete, granted by its regulators, and
/// each of its regulators grants at least one of them.
proof fn lemma_adgm_group()
    ensures
        license_types_complete(spec_adgm_license_types()),
        granted_by_listed_regulators(spec_adgm_license_types(), spec_adgm_regulators()),
        every_regulator_grants(spec_adgm_license_types(), spec_adgm_regulators()),
        regulators_in_country(spec_adgm_regulators(), "ae"@),
{
    assert(complete_each(spec_adgm_license_types())) by {
        reveal_strlit("ae-adgm-ra:company");
        reveal_strlit("ADGM Company Registration");
        reveal_strlit("Registration of a company in ADGM");
        reveal_strlit("ae-adgm-ra");
        reveal_strlit("ae-adgm-ra:spv");
        reveal_strlit("ADGM Special Purpose Vehicle");
        reveal_strlit("Registration of an SPV in ADGM");
        reveal_strlit("ae-adgm-ra:foundation");
        reveal_strlit("ADGM Foundation");
        reveal_strlit("Registration of a foundation in ADGM");
        reveal_strlit("ae-adgm-fsra:banking");
        reveal_strlit("ADGM Banking License");
        reveal_strlit("License to conduct banking in ADGM");
        reveal_strlit("ae-adgm-fsra");
        reveal_strlit("ae-adgm-fsra:insurance");
        reveal_strlit("ADGM Insurance License");
        reveal_strlit("License to underwrite insurance in ADGM");
        reveal_strlit("ae-adgm-fsra:insurance-broker");
        reveal_strlit("ADGM Insurance Broker License");
        reveal_strlit("License for insurance brokerage in ADGM");
        reveal_strlit("ae-adgm-fsra:asset-management");
        reveal_strlit("ADGM Asset Management License");
        reveal_strlit("License for asset/fund management in ADGM");
        reveal_strlit("ae-adgm-fsra:digital-asset-exchange");
        reveal_strlit("ADGM Digital Asset Exchange License");
        reveal_strlit("License to operate a digital asset exchange (MLP framework)");
        reveal_strlit("ae-adgm-fsra:digital-asset-custodian");
        reveal_strlit("ADGM Digital Asset Custodian License");
        reveal_strlit("License for digital asset custody services");
        reveal_strlit("ae-adgm-fsra:casp");
        reveal_strlit("ADGM Crypto-Asset Service Provider License");
        reveal_strlit("CASP license under ADGM Virtual Asset framework");
        reveal_strlit("ae-adgm-fsra:venture-capital");
        reveal_strlit("ADGM Venture Capital Manager License");
        reveal_strlit("License for venture capital fund management");
        reveal_strlit("ae-adgm-fsra:crowdfunding");
        reveal_strlit("ADGM Crowdfunding License");
        reveal_strlit("License to operate an investment crowdfunding platform");
        reveal_strlit("ae-adgm-fsra:credit-rating");
        reveal_strlit("ADGM Credit Rating Agency License");
        reveal_strlit("License to provide credit rating services");
        reveal_strlit("ae-adgm-fsra:custody");
        reveal_strlit("ADGM Custody License");
        reveal_strlit("License for traditional asset custody services");
        reveal_strlit("ae-adgm-fsra:advisory");
        reveal_strlit("ADGM Financial Advisory License");
        reveal_strlit("License for financial advisory services");
        reveal_with_fuel(complete_each, 16);
    }
    lemma_complete_each(spec_adgm_license_types());
    assert(lists_regulator(spec_adgm_regulators(), spec_adgm_license_types()[0].regulator_id)) by {
        assert(spec_adgm_regulators()[1].regulator_id == spec_adgm_license_types()[0].regulator_id);
    }
    assert(lists_regulator(spec_adgm_regulators(), spec_adgm_license_types()[1].regulator_id)) by {
        assert(spec_adgm_regulators()[1].regulator_id == spec_adgm_license_types()[1].regulator_id);
    }
    assert(lists_regulator(spec_adgm_regulators(), spec_adgm_license_types()[2].regulator_id)) by {
        assert(spec_adgm_regulators()[1].regulator_id == spec_adgm_license_types()[2].regulator_id);
    }
    assert(lists_regulator(spec_adgm_regulators(), spec_adgm_license_types()[3].regulator_id)) by {
        assert(spec_adgm_regulators()[0].regulator_id == spec_adgm_license_types()[3].regulator_id);
    }
    assert(lists_regulator(spec_adgm_regulators(), spec_adgm_license_types()[4].regulator_id)) by {
        assert(spec_adgm_regulators()[0].regulator_id == spec_adgm_license_types()[4].regulator_id);
    }
    assert(lists_regulator(spec_adgm_regulators(), spec_adgm_license_types()[5].regulator_id)) by {
        assert(spec_adgm_regulators()[0].regulator_id == spec_adgm_license_types()[5].regulator_id);
    }
    assert(lists_regulator(spec_adgm_regulators(), spec_adgm_license_types()[6].regulator_id)) by {
        assert(spec_adgm_regulators()[0].regulator_id == spec_adgm_license_types()[6].regulator_id);
    }
    assert(lists_regulator(spec_adgm_regulators(), spec_adgm_license_types()[7].regulator_id)) by {
        assert(spec_adgm_regulators()[0].regulator_id == spec_adgm_license_types()[7].regulator_id);
    }
    assert(lists_regulator(spec_adgm_regulators(), spec_adgm_license_types()[8].regulator_id)) by {
        assert(spec_adgm_regulators()[0].regulator_id == spec_adgm_license_types()[8].regulator_id);
    }
    assert(lists_regulator(spec_adgm_regulators(), spec_adgm_license_types()[9].regulator_id)) by {
        assert(spec_adgm_regulators()[0].regulator_id == spec_adgm_license_types()[9].regulator_id);
    }
    assert(lists_regulator(spec_adgm_regulators(), spec_adgm_license_types()[10].regulator_id)) by {
        assert(spec_adgm_regulators()[0].regulator_id == spec_adgm_license_types()[10].regulator_id);
    }
    assert(lists_regulator(spec_adgm_regulators(), spec_adgm_license_types()[11].regulator_id)) by {
        assert(spec_adgm_regulators()[0].regulator_id == spec_adgm_license_types()[11].regulator_id);
    }
    assert(lists_regulator(spec_adgm_regulators(), spec_adgm_license_types()[12].regulator_id)) by {
        assert(spec_adgm_regulators()[0].regulator_id == spec_adgm_license_types()[12].regulator_id);
    }
    assert(lists_regulator(spec_adgm_regulators(), spec_adgm_license_types()[13].regulator_id)) by {
        assert(spec_adgm_regulators()[0].regulator_id == spec_adgm_license_types()[13].regulator_id);
    }
    assert(lists_regulator(spec_adgm_regulators(), spec_adgm_license_types()[14].regulator_id)) by {
        assert(spec_adgm_regulators()[0].regulator_id == spec_adgm_license_types()[14].regulator_id);
    }
    assert(granted_listed_each(spec_adgm_license_types(), spec_adgm_regulators())) by {
        reveal_with_fuel(granted_listed_each, 16);
    }
    lemma_granted_listed_each(spec_adgm_license_types(), spec_adgm_regulators());
    assert(grants_some(spec_adgm_license_types(), spec_adgm_regulators()[0].regulator_id)) by {
        assert(spec_adgm_license_types()[3].regulator_id == spec_adgm_regulators()[0].regulator_id);
    }
    assert(grants_some(spec_adgm_license_types(), spec_adgm_regulators()[1].regulator_id)) by {
        assert(spec_adgm_license_types()[0].regulator_id == spec_adgm_regulators()[1].regulator_id);
    }
    assert(grants_each(spec_adgm_license_types(), spec_adgm_regulators())) by {
        reveal_with_fuel(grants_each, 3);
    }
    lemma_grants_each(spec_adgm_license_types(), spec_adgm_regulators());
    assert(has_prefix("ae-abudhabi-adgm"@, "ae"@)) by {
        reveal_strlit("ae-abudhabi-adgm");
        reveal_strlit("ae");
        assert("ae-abudhabi-adgm"@.subrange(0, 2) =~= "ae"@);
    }
    assert(in_country_each(spec_adgm_regulators(), "ae"@)) by {
        reveal_with_fuel(in_country_each, 3);
    }
    lemma_in_country_each(spec_adgm_regulators(), "ae"@);
}

/// The licence types of `difc_license_types` are complete, granted by its regulators, and
/// each of its regulators grants at least one of them.
proof fn lemma_difc_group()
    ensures
        license_types_complete(spec_difc_license_types()),
        granted_by_listed_regulators(spec_difc_license_types(), spec_difc_regulators()),
        every_regulator_grants(spec_difc_license_types(), spec_difc_regulators()),
        regulators_in_country(spec_difc_regulators(), "ae"@),
{
    assert(complete_each(spec_difc_license_types())) by {
        reveal_strlit("ae-difc-roc:company");
        reveal_strlit("DIFC Company Registration");
        reveal_strlit("Registration of a company in DIFC");
        reveal_strlit("ae-difc-roc");
        reveal_strlit("ae-difc-roc:foundation");
        reveal_strlit("DIFC Foundation Registration");
        reveal_strlit("Registration of a foundation in DIFC");
        reveal_strlit("ae-difc-roc:spv");
        reveal_strlit("DIFC Special Purpose Vehicle");
        reveal_strlit("Registration of an SPV in DIFC");
        reveal_strlit("ae-difc-dfsa:banking");
        reveal_strlit("DIFC Banking License");
        reveal_strlit("License to conduct banking in DIFC");
        reveal_strlit("ae-difc-dfsa");
        reveal_strlit("ae-difc-dfsa:insurance");
        reveal_strlit("DIFC Insurance License");
        reveal_strlit("License to underwrite insurance in DIFC");
        reveal_strlit("ae-difc-dfsa:insurance-broker");
        reveal_strlit("DIFC Insurance Intermediary License");
        reveal_strlit("License for insurance brokerage in DIFC");
        reveal_strlit("ae-difc-dfsa:asset-management");
        reveal_strlit("DIFC Asset Management License");
        reveal_strlit("License for asset/fund management in DIFC");
        reveal_strlit("ae-difc-dfsa:securities-broker");
        reveal_strlit("DIFC Securities Broker License");
        reveal_strlit("License for securities dealing/brokerage in DIFC");
        reveal_strlit("ae-difc-dfsa:digital-asset-exchange");
        reveal_strlit("DIFC Digital Asset Exchange License");
        reveal_strlit("License to operate a digital asset trading facility");
        reveal_strlit("ae-difc-dfsa:digital-asset-custodian");
        reveal_strlit("DIFC Digital Asset Custodian");
        reveal_strlit("License for digital asset custody in DIFC");
        reveal_strlit("ae-difc-dfsa:crowdfunding");
        reveal_strlit("DIFC Crowdfunding License");
        reveal_strlit("License to operate a crowdfunding platform");
        reveal_strlit("ae-difc-dfsa:credit-rating");
        reveal_strlit("DIFC Credit Rating Agency License");
        reveal_strlit("License for credit rating services");
        reveal_strlit("ae-difc-dfsa:money-services");
        reveal_strlit("DIFC Money Services License");
        reveal_strlit("License for money transfer/exchange services");
        reveal_strlit("ae-difc-dfsa:custody");
        reveal_strlit("DIFC Custody License");
        reveal_strlit("License for custody services in DIFC");
        reveal_with_fuel(complete_each, 15);
    }
    lemma_complete_each(spec_difc_license_types());
    assert(lists_regulator(spec_difc_regulators(), spec_difc_license_types()[0].regulator_id)) by {
        assert(spec_difc_regulators()[1].regulator_id == spec_difc_license_types()[0].regulator_id);
    }
    assert(lists_regulator(spec_difc_regulators(), spec_difc_license_types()[1].regulator_id)) by {
        assert(spec_difc_regulators()[1].regulator_id == spec_difc_license_types()[1].regulator_id);
    }
    assert(lists_regulator(spec_difc_regulators(), spec_difc_license_types()[2].regulator_id)) by {
        assert(spec_difc_regulators()[1].regulator_id == spec_difc_license_types()[2].regulator_id);
    }
    assert(lists_regulator(spec_difc_regulators(), spec_difc_license_types()[3].regulator_id)) by {
        assert(spec_difc_regulators()[0].regulator_id == spec_difc_license_types()[3].regulator_id);
    }
    assert(lists_regulator(spec_difc_regulators(), spec_difc_license_types()[4].regulator_id)) by {
        assert(spec_difc_regulators()[0].regulator_id == spec_difc_license_types()[4].regulator_id);
    }
    assert(lists_regulator(spec_difc_regulators(), spec_difc_license_types()[5].regulator_id)) by {
        assert(spec_difc_regulators()[0].regulator_id == spec_difc_license_types()[5].regulator_id);
    }
    assert(lists_regulator(spec_difc_regulators(), spec_difc_license_types()[6].regulator_id)) by {
        assert(spec_difc_regulators()[0].regulator_id == spec_difc_license_types()[6].regulator_id);
    }
    assert(lists_regulator(spec_difc_regulators(), spec_difc_license_types()[7].regulator_id)) by {
        assert(spec_difc_regulators()[0].regulator_id == spec_difc_license_types()[7].regulator_id);
    }
    assert(lists_regulator(spec_difc_regulators(), spec_difc_license_types()[8].regulator_id)) by {
        assert(spec_difc_regulators()[0].regulator_id == spec_difc_license_types()[8].regulator_id);
    }
    assert(lists_regulator(spec_difc_regulators(), spec_difc_license_types()[9].regulator_id)) by {
        assert(spec_difc_regulators()[0].regulator_id == spec_difc_license_types()[9].regulator_id);
    }
    assert(lists_regulator(spec_difc_regulators(), spec_difc_license_types()[10].regulator_id)) by {
        assert(spec_difc_regulators()[0].regulator_id == spec_difc_license_types()[10].regulator_id);
    }
    assert(lists_regulator(spec_difc_regulators(), spec_difc_license_types()[11].regulator_id)) by {
        assert(spec_difc_regulators()[0].regulator_id == spec_difc_license_types()[11].regulator_id);
    }
    assert(lists_regulator(spec_difc_regulators(), spec_difc_license_types()[12].regulator_id)) by {
        assert(spec_difc_regulators()[0].regulator_id == spec_difc_license_types()[12].regulator_id);
    }
    assert(lists_regulator(spec_difc_regulators(), spec_difc_license_types()[13].regulator_id)) by {
        assert(spec_difc_regulators()[0].regulator_id == spec_difc_license_types()[13].regulator_id);
    }
    assert(granted_listed_each(spec_difc_license_types(), spec_difc_regulators())) by {
        reveal_with_fuel(granted_listed_each, 15);
    }
    lemma_granted_listed_each(spec_difc_license_types(), spec_difc_regulators());
    assert(grants_some(spec_difc_license_types(), spec_difc_regulators()[0].regulator_id)) by {
        assert(spec_difc_license_types()[3].regulator_id == spec_difc_regulators()[0].regulator_id);
    }
    assert(grants_some(spec_difc_license_types(), spec_difc_regulators()[1].regulator_id)) by {
        assert(spec_difc_license_types()[0].regulator_id == spec_difc_regulators()[1].regulator_id);
    }
    assert(grants_each(spec_difc_license_types(), spec_difc_regulators())) by {
        reveal_with_fuel(grants_each, 3);
    }
    lemma_grants_each(spec_difc_license_types(), spec_difc_regulators());
    assert(has_prefix("ae-dubai-difc"@, "ae"@)) by {
        reveal_strlit("ae-dubai-difc");
        reveal_strlit("ae");
        assert("ae-dubai-difc"@.subrange(0, 2) =~= "ae"@);
    }
    assert(in_country_each(spec_difc_regulators(), "ae"@)) by {
        reveal_with_fuel(in_country_each, 3);
    }
    lemma_in_country_each(spec_difc_regulators(), "ae"@);
}

/// The licence types of `dmcc_license_types` are complete, granted by its regulators, and
/// each of its regulators grants at least one of them.
proof fn lemma_dmcc_group()
    ensures
        license_types_complete(spec_dmcc_license_types()),
        granted_by_listed_regulators(spec_dmcc_license_types(), spec_dmcc_regulators()),
        every_regulator_grants(spec_dmcc_license_types(), spec_dmcc_regulators()),
        regulators_in_country(spec_dmcc_regulators(), "ae"@),
{
    assert(complete_each(spec_dmcc_license_types())) by {
        reveal_strlit("ae-dmcc:trade-license");
        reveal_strlit("DMCC Trade License");
        reveal_strlit("General trading license in DMCC");
        reveal_strlit("ae-dmcc");
        reveal_strlit("ae-dmcc:precious-metals");
        reveal_strlit("DMCC Precious Metals License");
        reveal_strlit("License for precious metals trading in DMCC");
        reveal_strlit("ae-dmcc:diamond-trading");
        reveal_strlit("DMCC Diamond Trading License");
        reveal_strlit("License for diamond trading in DMCC");
        reveal_strlit("ae-dmcc:casp");
        reveal_strlit("DMCC Crypto-Asset Service Provider License");
        reveal_strlit("License for crypto-asset services in DMCC");
        reveal_with_fuel(complete_each, 5);
    }
    lemma_complete_each(spec_dmcc_license_types());
    assert(granted_by_each(spec_dmcc_license_types(), spec_dmcc_regulators()[0].regulator_id)) by {
        reveal_with_fuel(granted_by_each, 5);
    }
    lemma_granted_by_each(spec_dmcc_license_types(), spec_dmcc_regulators(), 0);
    assert(grants_some(spec_dmcc_license_types(), spec_dmcc_regulators()[0].regulator_id)) by {
        assert(spec_dmcc_license_types()[0].regulator_id == spec_dmcc_regulators()[0].regulator_id);
    }
    assert(grants_each(spec_dmcc_license_types(), spec_dmcc_regulators())) by {
        reveal_with_fuel(grants_each, 2);
    }
    lemma_grants_each(spec_dmcc_license_types(), spec_dmcc_regulators());
    assert(has_prefix("ae-dubai-dmcc"@, "ae"@)) by {
        reveal_strlit("ae-dubai-dmcc");
        reveal_strlit("ae");
        assert("ae-dubai-dmcc"@.subrange(0, 2) =~= "ae"@);
    }
    assert(in_country_each(spec_dmcc_regulators(), "ae"@)) by {
        reveal_with_fuel(in_country_each, 2);
    }
    lemma_in_country_each(spec_dmcc_regulators(), "ae"@);
}

/// The licence types of `jafza_license_types` are complete, granted by its regulators, and
/// each of its regulators grants at least one of them.
proof fn lemma_jafza_group()
    ensures
        license_types_complete(spec_jafza_license_types()),
        granted_by_listed_regulators(spec_jafza_license_types(), spec_jafza_regulators()),
        every_regulator_grants(spec_jafza_license_types(), spec_jafza_regulators()),
        regulators_in_country(spec_jafza_regulators(), "ae"@),
{
    assert(complete_each(spec_jafza_license_types())) by {
        reveal_strlit("ae-jafza:trading");
        reveal_strlit("JAFZA Trading License");
        reveal_strlit("General trading license in Jebel Ali Free Zone");
        reveal_strlit("ae-jafza");
        reveal_strlit("ae-jafza:industrial");
        reveal_strlit("JAFZA Industrial License");
        reveal_strlit("Manufacturing and industrial license in JAFZA");
        reveal_strlit("ae-jafza:logistics");
        reveal_strlit("JAFZA Logistics License");
        reveal_strlit("Logistics and distribution license");
        reveal_strlit("ae-jafza:services");
        reveal_strlit("JAFZA Services License");
        reveal_strlit("Professional services license in JAFZA");
        reveal_with_fuel(complete_each, 5);
    }
    lemma_complete_each(spec_jafza_license_types());
    assert(granted_by_each(spec_jafza_license_types(), spec_jafza_regulators()[0].regulator_id)) by {
        reveal_with_fuel(granted_by_each, 5);
    }
    lemma_granted_by_each(spec_jafza_license_types(), spec_jafza_regulators(), 0);
    assert(grants_some(spec_jafza_license_types(), spec_jafza_regulators()[0].regulator_id)) by {
        assert(spec_jafza_license_types()[0].regulator_id == spec_jafza_regulators()[0].regulator_id);
    }
    assert(grants_each(spec_jafza_license_types(), spec_jafza_regulators())) by {
        reveal_with_fuel(grants_each, 2);
    }
    lemma_grants_each(spec_jafza_license_types(), spec_jafza_regulators());
    assert(has_prefix("ae-dubai-jafza"@, "ae"@)) by {
        reveal_strlit("ae-dubai-jafza");
        reveal_strlit("ae");
        assert("ae-dubai-jafza"@.subrange(0, 2) =~= "ae"@);
    }
    assert(in_country_each(spec_jafza_regulators(), "ae"@)) by {
        reveal_with_fuel(in_country_each, 2);
    }
    lemma_in_country_each(spec_jafza_regulators(), "ae"@);
}

/// The licence types of `ifza_license_types` are complete, granted by its regulators, and
/// each of its regulators grants at least one of them.
proof fn lemma_ifza_group()
    ensures
        license_types_complete(spec_ifza_license_types()),
        granted_by_listed_regulators(spec_ifza_license_types(), spec_ifza_regulators()),
        every_regulator_grants(spec_ifza_license_types(), spec_ifza_regulators()),
        regulators_in_country(spec_ifza_regulators(), "ae"@),
{
    assert(complete_each(spec_ifza_license_types())) by {
        reveal_strlit("ae-ifza:general-trading");
        reveal_strlit("IFZA General Trading License");
        reveal_strlit("General trading license in IFZA");
        reveal_strlit("ae-ifza");
        reveal_strlit("ae-ifza:consultancy");
        reveal_strlit("IFZA Consultancy License");
        reveal_strlit("Consultancy license in IFZA");
        reveal_strlit("ae-ifza:e-commerce");
        reveal_strlit("IFZA E-Commerce License");
        reveal_strlit("E-commerce license in IFZA");
        reveal_with_fuel(complete_each, 4);
    }
    lemma_complete_each(spec_ifza_license_types());
    assert(granted_by_each(spec_ifza_license_types(), spec_ifza_regulators()[0].regulator_id)) by {
        reveal_with_fuel(granted_by_each, 4);
    }
    lemma_granted_by_each(spec_ifza_license_types(), spec_ifza_regulators(), 0);
    assert(grants_some(spec_ifza_license_types(), spec_ifza_regulators()[0].regulator_id)) by {
        assert(spec_ifza_license_types()[0].regulator_id == spec_ifza_regulators()[0].regulator_id);
    }
    assert(grants_each(spec_ifza_license_types(), spec_ifza_regulators())) by {
        reveal_with_fuel(grants_each, 2);
    }
    lemma_grants_each(spec_ifza_license_types(), spec_ifza_regulators());
    assert(has_prefix("ae-dubai-ifza"@, "ae"@)) by {
        reveal_strlit("ae-dubai-ifza");
        reveal_strlit("ae");
        assert("ae-dubai-ifza"@.subrange(0, 2) =~= "ae"@);
    }
    assert(in_country_each(spec_ifza_regulators(), "ae"@)) by {
        reveal_with_fuel(in_country_each, 2);
    }
    lemma_in_country_each(spec_ifza_regulators(), "ae"@);
}

/// The licence types of `dwtc_license_types` are complete, granted by its regulators, and
/// each of its regulators grants at least one of them.
proof fn lemma_dwtc_group()
    ensures
        license_types_complete(spec_dwtc_license_types()),
        granted_by_listed_regulators(spec_dwtc_license_types(), spec_dwtc_regulators()),
        every_regulator_grants(spec_dwtc_license_types(), spec_dwtc_regulators()),
        regulators_in_country(spec_dwtc_regulators(), "ae"@),
{
    assert(complete_each(spec_dwtc_license_types())) by {
        reveal_strlit("ae-dwtc:events");
        reveal_strlit("DWTC Events License");
        reveal_strlit("Events management license in DWTC Free Zone");
        reveal_strlit("ae-dwtc");
        reveal_strlit("ae-dwtc:hospitality");
        reveal_strlit("DWTC Hospitality License");
        reveal_strlit("Hospitality and F&B license in DWTC");
        reveal_with_fuel(complete_each, 3);
    }
    lemma_complete_each(spec_dwtc_license_types());
    assert(granted_by_each(spec_dwtc_license_types(), spec_dwtc_regulators()[0].regulator_id)) by {
        reveal_with_fuel(granted_by_each, 3);
    }
    lemma_granted_by_each(spec_dwtc_license_types(), spec_dwtc_regulators(), 0);
    assert(grants_some(spec_dwtc_license_types(), spec_dwtc_regulators()[0].regulator_id)) by {
        assert(spec_dwtc_license_types()[0].regulator_id == spec_dwtc_regulators()[0].regulator_id);
    }
    assert(grants_each(spec_dwtc_license_types(), spec_dwtc_regulators())) by {
        reveal_with_fuel(grants_each, 2);
    }
    lemma_grants_each(spec_dwtc_license_types(), spec_dwtc_regulators());
    assert(has_prefix("ae-dubai-dwtc"@, "ae"@)) by {
        reveal_strlit("ae-dubai-dwtc");
        reveal_strlit("ae");
        assert("ae-dubai-dwtc"@.subrange(0, 2) =~= "ae"@);
    }
    assert(in_country_each(spec_dwtc_regulators(), "ae"@)) by {
        reveal_with_fuel(in_country_each, 2);
    }
    lemma_in_country_each(spec_dwtc_regulators(), "ae"@);
}

/// The licence types of `dso_license_types` are complete, granted by its regulators, and
/// each of its regulators grants at least one of them.
proof fn lemma_dso_group()
    ensures
        license_types_complete(spec_dso_license_types()),
        granted_by_listed_regulators(spec_dso_license_types(), spec_dso_regulators()),
        every_regulator_grants(spec_dso_license_types(), spec_dso_regulators()),
        regulators_in_country(spec_dso_regulators(), "ae"@),
{
    assert(complete_each(spec_dso_license_types())) by {
        reveal_strlit("ae-dso:tech");
        reveal_strlit("DSO Technology License");
        reveal_strlit("Technology company license in Dubai Silicon Oasis");
        reveal_strlit("ae-dso");
        reveal_strlit("ae-dso:freelancer");
        reveal_strlit("DSO Freelancer Permit");
        reveal_strlit("Freelancer permit in DSO");
        reveal_with_fuel(complete_each, 3);
    }
    lemma_complete_each(spec_dso_license_types());
    assert(granted_by_each(spec_dso_license_types(), spec_dso_regulators()[0].regulator_id)) by {
        reveal_with_fuel(granted_by_each, 3);
    }
    lemma_granted_by_each(spec_dso_license_types(), spec_dso_regulators(), 0);
    assert(grants_some(spec_dso_license_types(), spec_dso_regulators()[0].regulator_id)) by {
        assert(spec_dso_license_types()[0].regulator_id == spec_dso_regulators()[0].regulator_id);
    }
    assert(grants_each(spec_dso_license_types(), spec_dso_regulators())) by {
        reveal_with_fuel(grants_each, 2);
    }
    lemma_grants_each(spec_dso_license_types(), spec_dso_regulators());
    assert(has_prefix("ae-dubai-dso"@, "ae"@)) by {
        reveal_strlit("ae-dubai-dso");
        reveal_strlit("ae");
        assert("ae-dubai-dso"@.subrange(0, 2) =~= "ae"@);
    }
    assert(in_country_each(spec_dso_regulators(), "ae"@)) by {
        reveal_with_fuel(in_country_each, 2);
    }
    lemma_in_country_each(spec_dso_regulators(), "ae"@);
}

/// The licence types of `dic_license_types` are complete, granted by its regulators, and
/// each of its regulators grants at least one of them.
proof fn lemma_dic_group()
    ensures
        license_types_complete(spec_dic_license_types()),
        granted_by_listed_regulators(spec_dic_license_types(), spec_dic_regulators()),
        every_regulator_grants(spec_dic_license_types(), spec_dic_regulators()),
        regulators_in_country(spec_dic_regulators(), "ae"@),
{
    assert(complete_each(spec_dic_license_types())) by {
        reveal_strlit("ae-dic:technology");
        reveal_strlit("DIC Technology License");
        reveal_strlit("Technology company license in Dubai Internet/Media City");
        reveal_strlit("ae-dic");
        reveal_strlit("ae-dic:media");
        reveal_strlit("DMC Media License");
        reveal_strlit("Media company license in Dubai Media City");
        reveal_with_fuel(complete_each, 3);
    }
    lemma_complete_each(spec_dic_license_types());
    assert(granted_by_each(spec_dic_license_types(), spec_dic_regulators()[0].regulator_id)) by {
        reveal_with_fuel(granted_by_each, 3);
    }
    lemma_granted_by_each(spec_dic_license_types(), spec_dic_regulators(), 0);
    assert(grants_some(spec_dic_license_types(), spec_dic_regulators()[0].regulator_id)) by {
        assert(spec_dic_license_types()[0].regulator_id == spec_dic_regulators()[0].regulator_id);
    }
    assert(grants_each(spec_dic_license_types(), spec_dic_regulators())) by {
        reveal_with_fuel(grants_each, 2);
    }
    lemma_grants_each(spec_dic_license_types(), spec_dic_regulators());
    assert(has_prefix("ae-dubai-dic"@, "ae"@)) by {
        reveal_strlit("ae-dubai-dic");
        reveal_strlit("ae");
        assert("ae-dubai-dic"@.subrange(0, 2) =~= "ae"@);
    }
    assert(in_country_each(spec_dic_regulators(), "ae"@)) by {
        reveal_with_fuel(in_country_each, 2);
    }
    lemma_in_country_each(spec_dic_regulators(), "ae"@);
}

/// The licence types of `dhcc_license_types` are complete, granted by its regulators, and
/// each of its regulators grants at least one of them.
proof fn lemma_dhcc_group()
    ensures
        license_types_complete(spec_dhcc_license_types()),
        granted_by_listed_regulators(spec_dhcc_license_types(), spec_dhcc_regulators()),
        every_regulator_grants(spec_dhcc_license_types(), spec_dhcc_regulators()),
        regulators_in_country(spec_dhcc_regulators(), "ae"@),
{
    assert(complete_each(spec_dhcc_license_types())) by {
        reveal_strlit("ae-dhcc:healthcare");
        reveal_strlit("DHCC Healthcare License");
        reveal_strlit("Healthcare facility license in DHCC");
        reveal_strlit("ae-dhcc");
        reveal_strlit("ae-dhcc:pharmaceutical");
        reveal_strlit("DHCC Pharmaceutical License");
        reveal_strlit("Pharmaceutical license in DHCC");
        reveal_with_fuel(complete_each, 3);
    }
    lemma_complete_each(spec_dhcc_license_types());
    assert(granted_by_each(spec_dhcc_license_types(), spec_dhcc_regulators()[0].regulator_id)) by {
        reveal_with_fuel(granted_by_each, 3);
    }
    lemma_granted_by_each(spec_dhcc_license_types(), spec_dhcc_regulators(), 0);
    assert(grants_some(spec_dhcc_license_types(), spec_dhcc_regulators()[0].regulator_id)) by {
        assert(spec_dhcc_license_types()[0].regulator_id == spec_dhcc_regulators()[0].regulator_id);
    }
    assert(grants_each(spec_dhcc_license_types(), spec_dhcc_regulators())) by {
        reveal_with_fuel(grants_each, 2);
    }
    lemma_grants_each(spec_dhcc_license_types(), spec_dhcc_regulators());
    assert(has_prefix("ae-dubai-dhcc"@, "ae"@)) by {
        reveal_strlit("ae-dubai-dhcc");
        reveal_strlit("ae");
        assert("ae-dubai-dhcc"@.subrange(0, 2) =~= "ae"@);
    }
    assert(in_country_each(spec_dhcc_regulators(), "ae"@)) by {
        reveal_with_fuel(in_country_each, 2);
    }
    lemma_in_country_each(spec_dhcc_regulators(), "ae"@);
}

/// The licence types of `abudhabi_fz_license_types` are complete, granted by its regulators, and
/// each of its regulators grants at least one of them.
proof fn lemma_abudhabi_fz_group()
    ensures
        license_types_complete(spec_abudhabi_fz_license_types()),
        granted_by_listed_regulators(spec_abudhabi_fz_license_types(), spec_abudhabi_fz_regulators()),
        every_regulator_grants(spec_abudhabi_fz_license_types(), spec_abudhabi_fz_regulators()),
        regulators_in_country(spec_abudhabi_fz_regulators(), "ae"@),
{
    assert(complete_each(spec_abudhabi_fz_license_types())) by {
        reveal_strlit("ae-abudhabi-added:trade-license");
        reveal_strlit("Abu Dhabi Trade License");
        reveal_strlit("Trade license in Abu Dhabi mainland");
        reveal_strlit("ae-abudhabi-added");
        reveal_strlit("ae-masdar:cleantech");
        reveal_strlit("Masdar Clean Tech License");
        reveal_strlit("Clean technology company license in Masdar City");
        reveal_strlit("ae-masdar");
        reveal_strlit("ae-kizad:industrial");
        reveal_strlit("KIZAD Industrial License");
        reveal_strlit("Industrial license in Khalifa Industrial Zone");
        reveal_strlit("ae-kizad");
        reveal_strlit("ae-kizad:trading");
        reveal_strlit("KIZAD Trading License");
        reveal_strlit("Trading license in KIZAD");
        reveal_strlit("ae-twofour54:media");
        reveal_strlit("twofour54 Media License");
        reveal_strlit("Media company license in twofour54");
        reveal_strlit("ae-twofour54");
        reveal_strlit("ae-kezad:logistics");
        reveal_strlit("KEZAD Logistics License");
        reveal_strlit("Logistics license in KEZAD");
        reveal_strlit("ae-kezad");
        reveal_strlit("ae-kezad:industrial");
        reveal_strlit("KEZAD Industrial License");
        reveal_strlit("Industrial license in KEZAD");
        reveal_with_fuel(complete_each, 8);
    }
    lemma_complete_each(spec_abudhabi_fz_license_types());
    assert(lists_regulator(spec_abudhabi_fz_regulators(), spec_abudhabi_fz_license_types()[0].regulator_id)) by {
        assert(spec_abudhabi_fz_regulators()[0].regulator_id == spec_abudhabi_fz_license_types()[0].regulator_id);
    }
    assert(lists_regulator(spec_abudhabi_fz_regulators(), spec_abudhabi_fz_license_types()[1].regulator_id)) by {
        assert(spec_abudhabi_fz_regulators()[1].regulator_id == spec_abudhabi_fz_license_types()[1].regulator_id);
    }
    assert(lists_regulator(spec_abudhabi_fz_regulators(), spec_abudhabi_fz_license_types()[2].regulator_id)) by {
        assert(spec_abudhabi_fz_regulators()[2].regulator_id == spec_abudhabi_fz_license_types()[2].regulator_id);
    }
    assert(lists_regulator(spec_abudhabi_fz_regulators(), spec_abudhabi_fz_license_types()[3].regulator_id)) by {
        assert(spec_abudhabi_fz_regulators()[2].regulator_id == spec_abudhabi_fz_license_types()[3].regulator_id);
    }
    assert(lists_regulator(spec_abudhabi_fz_regulators(), spec_abudhabi_fz_license_types()[4].regulator_id)) by {
        assert(spec_abudhabi_fz_regulators()[3].regulator_id == spec_abudhabi_fz_license_types()[4].regulator_id);
    }
    assert(lists_regulator(spec_abudhabi_fz_regulators(), spec_abudhabi_fz_license_types()[5].regulator_id)) by {
        assert(spec_abudhabi_fz_regulators()[4].regulator_id == spec_abudhabi_fz_license_types()[5].regulator_id);
    }
    assert(lists_regulator(spec_abudhabi_fz_regulators(), spec_abudhabi_fz_license_types()[6].regulator_id)) by {
        assert(spec_abudhabi_fz_regulators()[4].regulator_id == spec_abudhabi_fz_license_types()[6].regulator_id);
    }
    assert(granted_listed_each(spec_abudhabi_fz_license_types(), spec_abudhabi_fz_regulators())) by {
        reveal_with_fuel(granted_listed_each, 8);
    }
    lemma_granted_listed_each(spec_abudhabi_fz_license_types(), spec_abudhabi_fz_regulators());
    assert(grants_some(spec_abudhabi_fz_license_types(), spec_abudhabi_fz_regulators()[0].regulator_id)) by {
        assert(spec_abudhabi_fz_license_types()[0].regulator_id == spec_abudhabi_fz_regulators()[0].regulator_id);
    }
    assert(grants_some(spec_abudhabi_fz_license_types(), spec_abudhabi_fz_regulators()[1].regulator_id)) by {
        assert(spec_abudhabi_fz_license_types()[1].regulator_id == spec_abudhabi_fz_regulators()[1].regulator_id);
    }
    assert(grants_some(spec_abudhabi_fz_license_types(), spec_abudhabi_fz_regulators()[2].regulator_id)) by {
        assert(spec_abudhabi_fz_license_types()[2].regulator_id == spec_abudhabi_fz_regulators()[2].regulator_id);
    }
    assert(grants_some(spec_abudhabi_fz_license_types(), spec_abudhabi_fz_regulators()[3].regulator_id)) by {
        assert(spec_abudhabi_fz_license_types()[4].regulator_id == spec_abudhabi_fz_regulators()[3].regulator_id);
    }
    assert(grants_some(spec_abudhabi_fz_license_types(), spec_abudhabi_fz_regulators()[4].regulator_id)) by {
        assert(spec_abudhabi_fz_license_types()[5].regulator_id == spec_abudhabi_fz_regulators()[4].regulator_id);
    }
    assert(grants_each(spec_abudhabi_fz_license_types(), spec_abudhabi_fz_regulators())) by {
        reveal_with_fuel(grants_each, 6);
    }
    lemma_grants_each(spec_abudhabi_fz_license_types(), spec_abudhabi_fz_regulators());
    assert(has_prefix("ae-abudhabi"@, "ae"@)) by {
        reveal_strlit("ae-abudhabi");
        reveal_strlit("ae");
        assert("ae-abudhabi"@.subrange(0, 2) =~= "ae"@);
    }
    assert(has_prefix("ae-abudhabi-kezad"@, "ae"@)) by {
        reveal_strlit("ae-abudhabi-kezad");
        reveal_strlit("ae");
        assert("ae-abudhabi-kezad"@.subrange(0, 2) =~= "ae"@);
    }
    assert(has_prefix("ae-abudhabi-kizad"@, "ae"@)) by {
        reveal_strlit("ae-abudhabi-kizad");
        reveal_strlit("ae");
        assert("ae-abudhabi-kizad"@.subrange(0, 2) =~= "ae"@);
    }
    assert(has_prefix("ae-abudhabi-masdar"@, "ae"@)) by {
        reveal_strlit("ae-abudhabi-masdar");
        reveal_strlit("ae");
        assert("ae-abudhabi-masdar"@.subrange(0, 2) =~= "ae"@);
    }
    assert(has_prefix("ae-abudhabi-twofour54"@, "ae"@)) by {
        reveal_strlit("ae-abudhabi-twofour54");
        reveal_strlit("ae");
        assert("ae-abudhabi-twofour54"@.subrange(0, 2) =~= "ae"@);
    }
    assert(in_country_each(spec_abudhabi_fz_regulators(), "ae"@)) by {
        reveal_with_fuel(in_country_each, 6);
    }
    lemma_in_country_each(spec_abudhabi_fz_regulators(), "ae"@);
}

/// The licence types of `ded_license_types` are complete, granted by its regulators, and
/// each of its regulators grants at least one of them.
proof fn lemma_ded_group()
    ensures
        license_types_complete(spec_ded_license_types()),
        granted_by_listed_regulators(spec_ded_license_types(), spec_ded_regulators()),
        every_regulator_grants(spec_ded_license_types(), spec_ded_regulators()),
        regulators_in_country(spec_ded_regulators(), "ae"@),
{
    assert(complete_each(spec_ded_license_types())) by {
        reveal_strlit("ae-dubai-ded:commercial");
        reveal_strlit("Dubai Commercial License");
        reveal_strlit("Commercial (trading) license in Dubai mainland");
        reveal_strlit("ae-dubai-ded");
        reveal_strlit("ae-dubai-ded:professional");
        reveal_strlit("Dubai Professional License");
        reveal_strlit("Professional services license in Dubai mainland");
        reveal_strlit("ae-dubai-ded:industrial");
        reveal_strlit("Dubai Industrial License");
        reveal_strlit("Industrial license in Dubai mainland");
        reveal_with_fuel(complete_each, 4);
    }
    lemma_complete_each(spec_ded_license_types());
    assert(granted_by_each(spec_ded_license_types(), spec_ded_regulators()[0].regulator_id)) by {
        reveal_with_fuel(granted_by_each, 4);
    }
    lemma_granted_by_each(spec_ded_license_types(), spec_ded_regulators(), 0);
    assert(grants_some(spec_ded_license_types(), spec_ded_regulators()[0].regulator_id)) by {
        assert(spec_ded_license_types()[0].regulator_id == spec_ded_regulators()[0].regulator_id);
    }
    assert(grants_each(spec_ded_license_types(), spec_ded_regulators())) by {
        reveal_with_fuel(grants_each, 2);
    }
    lemma_grants_each(spec_ded_license_types(), spec_ded_regulators());
    assert(has_prefix("ae-dubai"@, "ae"@)) by {
        reveal_strlit("ae-dubai");
        reveal_strlit("ae");
        assert("ae-dubai"@.subrange(0, 2) =~= "ae"@);
    }
    assert(in_country_each(spec_ded_regulators(), "ae"@)) by {
        reveal_with_fuel(in_country_each, 2);
    }
    lemma_in_country_each(spec_ded_regulators(), "ae"@);
}

/// The catalog of the UAE is consistent: every licence type has a non-empty identifier, name, description and
/// regulator identifier, a category, and at least one permitted activity;
/// every licence type is granted by one of its regulators;
/// every regulator grants at least one licence type;
/// every regulator belongs to a jurisdiction whose identifier starts with `ae`.
pub proof fn lemma_uae_catalog_consistent()
    ensures
        license_types_complete(spec_uae_license_types()),
        granted_by_listed_regulators(spec_uae_license_types(), spec_uae_regulators()),
        every_regulator_grants(spec_uae_license_types(), spec_uae_regulators()),
        regulators_in_country(spec_uae_regulators(), "ae"@),
{
    lemma_federal_group();
    lemma_adgm_group();
    lemma_difc_group();
    lemma_dmcc_group();
    lemma_jafza_group();
    lemma_ifza_group();
    lemma_dwtc_group();
    lemma_dso_group();
    lemma_dic_group();
    lemma_dhcc_group();
    lemma_abudhabi_fz_group();
    lemma_ded_group();
    assert(spec_uae_regulators() =~= spec_federal_regulators() + spec_adgm_regulators() + spec_difc_regulators() + spec_dmcc_regulators() + spec_jafza_regulators() + spec_ifza_regulators() + spec_dwtc_regulators() + spec_dso_regulators() + spec_dic_regulators() + spec_dhcc_regulators() + spec_abudhabi_fz_regulators() + spec_ded_regulators());
    assert(spec_uae_license_types() =~= spec_federal_license_types() + spec_adgm_license_types() + spec_difc_license_types() + spec_dmcc_license_types() + spec_jafza_license_types() + spec_ifza_license_types() + spec_dwtc_license_types() + spec_dso_license_types() + spec_dic_license_types() + spec_dhcc_license_types() + spec_abudhabi_fz_license_types() + spec_ded_license_types());
    lemma_complete_append(spec_federal_license_types(), spec_adgm_license_types());
    lemma_granted_combine(spec_federal_license_types(), spec_federal_regulators(), spec_adgm_license_types(), spec_adgm_regulators());
    lemma_every_combine(spec_federal_license_types(), spec_federal_regulators(), spec_adgm_license_types(), spec_adgm_regulators());
    lemma_in_country_append(spec_federal_regulators(), spec_adgm_regulators(), "ae"@);
    lemma_complete_append(spec_federal_license_types() + spec_adgm_license_types(), spec_difc_license_types());
    lemma_granted_combine(spec_federal_license_types() + spec_adgm_license_types(), spec_federal_regulators() + spec_adgm_regulators(), spec_difc_license_types(), spec_difc_regulators());
    lemma_every_combine(spec_federal_license_types() + spec_adgm_license_types(), spec_federal_regulators() + spec_adgm_regulators(), spec_difc_license_types(), spec_difc_regulators());
    lemma_in_country_append(spec_federal_regulators() + spec_adgm_regulators(), spec_difc_regulators(), "ae"@);
    lemma_complete_append(spec_federal_license_types() + spec_adgm_license_types() + spec_difc_license_types(), spec_dmcc_license_types());
    lemma_granted_combine(spec_federal_license_types() + spec_adgm_license_types() + spec_difc_license_types(), spec_federal_regulators() + spec_adgm_regulators() + spec_difc_regulators(), spec_dmcc_license_types(), spec_dmcc_regulators());
    lemma_every_combine(spec_federal_license_types() + spec_adgm_license_types() + spec_difc_license_types(), spec_federal_regulators() + spec_adgm_regulators() + spec_difc_regulators(), spec_dmcc_license_types(), spec_dmcc_regulators());
    lemma_in_country_append(spec_federal_regulators() + spec_adgm_regulators() + spec_difc_regulators(), spec_dmcc_regulators(), "ae"@);
    lemma_complete_append(spec_federal_license_types() + spec_adgm_license_types() + spec_difc_license_types() + spec_dmcc_license_types(), spec_jafza_license_types());
    lemma_granted_combine(spec_federal_license_types() + spec_adgm_license_types() + spec_difc_license_types() + spec_dmcc_license_types(), spec_federal_regulators() + spec_adgm_regulators() + spec_difc_regulators() + spec_dmcc_regulators(), spec_jafza_license_types(), spec_jafza_regulators());
    lemma_every_combine(spec_federal_license_types() + spec_adgm_license_types() + spec_difc_license_types() + spec_dmcc_license_types(), spec_federal_regulators() + spec_adgm_regulators() + spec_difc_regulators() + spec_dmcc_regulators(), spec_jafza_license_types(), spec_jafza_regulators());
    lemma_in_country_append(spec_federal_regulators() + spec_adgm_regulators() + spec_difc_regulators() + spec_dmcc_regulators(), spec_jafza_regulators(), "ae"@);
    lemma_complete_append(spec_federal_license_types() + spec_adgm_license_types() + spec_difc_license_types() + spec_dmcc_license_types() + spec_jafza_license_types(), spec_ifza_license_types());
    lemma_granted_combine(spec_federal_license_types() + spec_adgm_license_types() + spec_difc_license_types() + spec_dmcc_license_types() + spec_jafza_license_types(), spec_federal_regulators() + spec_adgm_regulators() + spec_difc_regulators() + spec_dmcc_regulators() + spec_jafza_regulators(), spec_ifza_license_types(), spec_ifza_regulators());
    lemma_every_combine(spec_federal_license_types() + spec_adgm_license_types() + spec_difc_license_types() + spec_dmcc_license_types() + spec_jafza_license_types(), spec_federal_regulators() + spec_adgm_regulators() + spec_difc_regulators() + spec_dmcc_regulators() + spec_jafza_regulators(), spec_ifza_license_types(), spec_ifza_regulators());
    lemma_in_country_append(spec_federal_regulators() + spec_adgm_regulators() + spec_difc_regulators() + spec_dmcc_regulators() + spec_jafza_regulators(), spec_ifza_regulators(), "ae"@);
    lemma_complete_append(spec_federal_license_types() + spec_adgm_license_types() + spec_difc_license_types() + spec_dmcc_license_types() + spec_jafza_license_types() + spec_ifza_license_types(), spec_dwtc_license_types());
    lemma_granted_combine(spec_federal_license_types() + spec_adgm_license_types() + spec_difc_license_types() + spec_dmcc_license_types() + spec_jafza_license_types() + spec_ifza_license_types(), spec_federal_regulators() + spec_adgm_regulators() + spec_difc_regulators() + spec_dmcc_regulators() + spec_jafza_regulators() + spec_ifza_regulators(), spec_dwtc_license_types(), spec_dwtc_regulators());
    lemma_every_combine(spec_federal_license_types() + spec_adgm_license_types() + spec_difc_license_types() + spec_dmcc_license_types() + spec_jafza_license_types() + spec_ifza_license_types(), spec_federal_regulators() + spec_adgm_regulators() + spec_difc_regulators() + spec_dmcc_regulators() + spec_jafza_regulators() + spec_ifza_regulators(), spec_dwtc_license_types(), spec_dwtc_regulators());
    lemma_in_country_append(spec_federal_regulators() + spec_adgm_regulators() + spec_difc_regulators() + spec_dmcc_regulators() + spec_jafza_regulators() + spec_ifza_regulators(), spec_dwtc_regulators(), "ae"@);
    lemma_complete_append(spec_federal_license_types() + spec_adgm_license_types() + spec_difc_license_types() + spec_dmcc_license_types() + spec_jafza_license_types() + spec_ifza_license_types() + spec_dwtc_license_types(), spec_dso_license_types());
    lemma_granted_combine(spec_federal_license_types() + spec_adgm_license_types() + spec_difc_license_types() + spec_dmcc_license_types() + spec_jafza_license_types() + spec_ifza_license_types() + spec_dwtc_license_types(), spec_federal_regulators() + spec_adgm_regulators() + spec_difc_regulators() + spec_dmcc_regulators() + spec_jafza_regulators() + spec_ifza_regulators() + spec_dwtc_regulators(), spec_dso_license_types(), spec_dso_regulators());
    lemma_every_combine(spec_federal_license_types() + spec_adgm_license_types() + spec_difc_license_types() + spec_dmcc_license_types() + spec_jafza_license_types() + spec_ifza_license_types() + spec_dwtc_license_types(), spec_federal_regulators() + spec_adgm_regulators() + spec_difc_regulators() + spec_dmcc_regulators() + spec_jafza_regulators() + spec_ifza_regulators() + spec_dwtc_regulators(), spec_dso_license_types(), spec_dso_regulators());
    lemma_in_country_append(spec_federal_regulators() + spec_adgm_regulators() + spec_difc_regulators() + spec_dmcc_regulators() + spec_jafza_regulators() + spec_ifza_regulators() + spec_dwtc_regulators(), spec_dso_regulators(), "ae"@);
    lemma_complete_append(spec_federal_license_types() + spec_adgm_license_types() + spec_difc_license_types() + spec_dmcc_license_types() + spec_jafza_license_types() + spec_ifza_license_types() + spec_dwtc_license_types() + spec_dso_license_types(), spec_dic_license_types());
    lemma_granted_combine(spec_federal_license_types() + spec_adgm_license_types() + spec_difc_license_types() + spec_dmcc_license_types() + spec_jafza_license_types() + spec_ifza_license_types() + spec_dwtc_license_types() + spec_dso_license_types(), spec_federal_regulators() + spec_adgm_regulators() + spec_difc_regulators() + spec_dmcc_regulators() + spec_jafza_regulators() + spec_ifza_regulators() + spec_dwtc_regulators() + spec_dso_regulators(), spec_dic_license_types(), spec_dic_regulators());
    lemma_every_combine(spec_federal_license_types() + spec_adgm_license_types() + spec_difc_license_types() + spec_dmcc_license_types() + spec_jafza_license_types() + spec_ifza_license_types() + spec_dwtc_license_types() + spec_dso_license_types(), spec_federal_regulators() + spec_adgm_regulators() + spec_difc_regulators() + spec_dmcc_regulators() + spec_jafza_regulators() + spec_ifza_regulators() + spec_dwtc_regulators() + spec_dso_regulators(), spec_dic_license_types(), spec_dic_regulators());
    lemma_in_country_append(spec_federal_regulators() + spec_adgm_regulators() + spec_difc_regulators() + spec_dmcc_regulators() + spec_jafza_regulators() + spec_ifza_regulators() + spec_dwtc_regulators() + spec_dso_regulators(), spec_dic_regulators(), "ae"@);
    lemma_complete_append(spec_federal_license_types() + spec_adgm_license_types() + spec_difc_license_types() + spec_dmcc_license_types() + spec_jafza_license_types() + spec_ifza_license_types() + spec_dwtc_license_types() + spec_dso_license_types() + spec_dic_license_types(), spec_dhcc_license_types());
    lemma_granted_combine(spec_federal_license_types() + spec_adgm_license_types() + spec_difc_license_types() + spec_dmcc_license_types() + spec_jafza_license_types() + spec_ifza_license_types() + spec_dwtc_license_types() + spec_dso_license_types() + spec_dic_license_types(), spec_federal_regulators() + spec_adgm_regulators() + spec_difc_regulators() + spec_dmcc_regulators() + spec_jafza_regulators() + spec_ifza_regulators() + spec_dwtc_regulators() + spec_dso_regulators() + spec_dic_regulators(), spec_dhcc_license_types(), spec_dhcc_regulators());
    lemma_every_combine(spec_federal_license_types() + spec_adgm_license_types() + spec_difc_license_types() + spec_dmcc_license_types() + spec_jafza_license_types() + spec_ifza_license_types() + spec_dwtc_license_types() + spec_dso_license_types() + spec_dic_license_types(), spec_federal_regulators() + spec_adgm_regulators() + spec_difc_regulators() + spec_dmcc_regulators() + spec_jafza_regulators() + spec_ifza_regulators() + spec_dwtc_regulators() + spec_dso_regulators() + spec_dic_regulators(), spec_dhcc_license_types(), spec_dhcc_regulators());
    lemma_in_country_append(spec_federal_regulators() + spec_adgm_regulators() + spec_difc_regulators() + spec_dmcc_regulators() + spec_jafza_regulators() + spec_ifza_regulators() + spec_dwtc_regulators() + spec_dso_regulators() + spec_dic_regulators(), spec_dhcc_regulators(), "ae"@);
    lemma_complete_append(spec_federal_license_types() + spec_adgm_license_types() + spec_difc_license_types() + spec_dmcc_license_types() + spec_jafza_license_types() + spec_ifza_license_types() + spec_dwtc_license_types() + spec_dso_license_types() + spec_dic_license_types() + spec_dhcc_license_types(), spec_abudhabi_fz_license_types());
    lemma_granted_combine(spec_federal_license_types() + spec_adgm_license_types() + spec_difc_license_types() + spec_dmcc_license_types() + spec_jafza_license_types() + spec_ifza_license_types() + spec_dwtc_license_types() + spec_dso_license_types() + spec_dic_license_types() + spec_dhcc_license_types(), spec_federal_regulators() + spec_adgm_regulators() + spec_difc_regulators() + spec_dmcc_regulators() + spec_jafza_regulators() + spec_ifza_regulators() + spec_dwtc_regulators() + spec_dso_regulators() + spec_dic_regulators() + spec_dhcc_regulators(), spec_abudhabi_fz_license_types(), spec_abudhabi_fz_regulators());
    lemma_every_combine(spec_federal_license_types() + spec_adgm_license_types() + spec_difc_license_types() + spec_dmcc_license_types() + spec_jafza_license_types() + spec_ifza_license_types() + spec_dwtc_license_types() + spec_dso_license_types() + spec_dic_license_types() + spec_dhcc_license_types(), spec_federal_regulators() + spec_adgm_regulators() + spec_difc_regulators() + spec_dmcc_regulators() + spec_jafza_regulators() + spec_ifza_regulators() + spec_dwtc_regulators() + spec_dso_regulators() + spec_dic_regulators() + spec_dhcc_regulators(), spec_abudhabi_fz_license_types(), spec_abudhabi_fz_regulators());
    lemma_in_country_append(spec_federal_regulators() + spec_adgm_regulators() + spec_difc_regulators() + spec_dmcc_regulators() + spec_jafza_regulators() + spec_ifza_regulators() + spec_dwtc_regulators() + spec_dso_regulators() + spec_dic_regulators() + spec_dhcc_regulators(), spec_abudhabi_fz_regulators(), "ae"@);
    lemma_complete_append(spec_federal_license_types() + spec_adgm_license_types() + spec_difc_license_types() + spec_dmcc_license_types() + spec_jafza_license_types() + spec_ifza_license_types() + spec_dwtc_license_types() + spec_dso_license_types() + spec_dic_license_types() + spec_dhcc_license_types() + spec_abudhabi_fz_license_types(), spec_ded_license_types());
    lemma_granted_combine(spec_federal_license_types() + spec_adgm_license_types() + spec_difc_license_types() + spec_dmcc_license_types() + spec_jafza_license_types() + spec_ifza_license_types() + spec_dwtc_license_types() + spec_dso_license_types() + spec_dic_license_types() + spec_dhcc_license_types() + spec_abudhabi_fz_license_types(), spec_federal_regulators() + spec_adgm_regulators() + spec_difc_regulators() + spec_dmcc_regulators() + spec_jafza_regulators() + spec_ifza_regulators() + spec_dwtc_regulators() + spec_dso_regulators() + spec_dic_regulators() + spec_dhcc_regulators() + spec_abudhabi_fz_regulators(), spec_ded_license_types(), spec_ded_regulators());
    lemma_every_combine(spec_federal_license_types() + spec_adgm_license_types() + spec_difc_license_types() + spec_dmcc_license_types() + spec_jafza_license_types() + spec_ifza_license_types() + spec_dwtc_license_types() + spec_dso_license_types() + spec_dic_license_types() + spec_dhcc_license_types() + spec_abudhabi_fz_license_types(), spec_federal_regulators() + spec_adgm_regulators() + spec_difc_regulators() + spec_dmcc_regulators() + spec_jafza_regulators() + spec_ifza_regulators() + spec_dwtc_regulators() + spec_dso_regulators() + spec_dic_regulators() + spec_dhcc_regulators() + spec_abudhabi_fz_regulators(), spec_ded_license_types(), spec_ded_regulators());
    lemma_in_country_append(spec_federal_regulators() + spec_adgm_regulators() + spec_difc_regulators() + spec_dmcc_regulators() + spec_jafza_regulators() + spec_ifza_regulators() + spec_dwtc_regulators() + spec_dso_regulators() + spec_dic_regulators() + spec_dhcc_regulators() + spec_abudhabi_fz_regulators(), spec_ded_regulators(), "ae"@);
}

/// No two licence types of `federal_license_types` share an identifier.
proof fn lemma_federal_license_types_ids_distinct()
    ensures
        license_type_ids_distinct(spec_federal_license_types()),
{
    let t = spec_federal_license_types();
    assert(ids_distinct_each(t)) by {
        reveal_strlit("ae-cbuae:commercial-bank");
        reveal_strlit("ae-cbuae:exchange-house");
        reveal_strlit("ae-cbuae:insurance");
        reveal_strlit("ae-cbuae:islamic-bank");
        reveal_strlit("ae-cbuae:stored-value");
        reveal_strlit("ae-moec:foreign-company");
        reveal_strlit("ae-sca:fund-manager");
        reveal_strlit("ae-sca:securities-broker");
        assert(t[0].license_type_id[9] != t[1].license_type_id[9]);
        assert(t[0].license_type_id[9] != t[2].license_type_id[9]);
        assert(t[1].license_type_id[9] != t[2].license_type_id[9]);
        assert(t[0].license_type_id[9] != t[3].license_type_id[9]);
        assert(t[1].license_type_id[9] != t[3].license_type_id[9]);
        assert(t[2].license_type_id[9] != t[3].license_type_id[9]);
        assert(t[0].license_type_id[9] != t[4].license_type_id[9]);
        assert(t[1].license_type_id[10] != t[4].license_type_id[10]);
        assert(t[2].license_type_id[9] != t[4].license_type_id[9]);
        assert(t[3].license_type_id[9] != t[4].license_type_id[9]);
        assert(t[0].license_type_id[3] != t[5].license_type_id[3]);
        assert(t[1].license_type_id[3] != t[5].license_type_id[3]);
        assert(t[2].license_type_id[3] != t[5].license_type_id[3]);
        assert(t[3].license_type_id[3] != t[5].license_type_id[3]);
        assert(t[4].license_type_id[3] != t[5].license_type_id[3]);
        assert(t[0].license_type_id[3] != t[6].license_type_id[3]);
        assert(t[1].license_type_id[3] != t[6].license_type_id[3]);
        assert(t[2].license_type_id[3] != t[6].license_type_id[3]);
        assert(t[3].license_type_id[3] != t[6].license_type_id[3]);
        assert(t[4].license_type_id[3] != t[6].license_type_id[3]);
        assert(t[5].license_type_id[7] != t[6].license_type_id[7]);
        assert(t[0].license_type_id[3] != t[7].license_type_id[3]);
        assert(t[1].license_type_id[3] != t[7].license_type_id[3]);
        assert(t[2].license_type_id[3] != t[7].license_type_id[3]);
        assert(t[3].license_type_id[3] != t[7].license_type_id[3]);
        assert(t[4].license_type_id[3] != t[7].license_type_id[3]);
        assert(t[5].license_type_id[3] != t[7].license_type_id[3]);
        assert(t[6].license_type_id[3] != t[7].license_type_id[3]);
        reveal_with_fuel(ids_distinct_each, 9);
        reveal_with_fuel(id_fresh_each, 9);
    }
    lemma_ids_distinct_each(t);
}

/// No two licence types of `adgm_license_types` share an identifier.
proof fn lemma_adgm_license_types_ids_distinct()
    ensures
        license_type_ids_distinct(spec_adgm_license_types()),
{
    let t = spec_adgm_license_types();
    assert(ids_distinct_each(t)) by {
        reveal_strlit("ae-adgm-fsra:advisory");
        reveal_strlit("ae-adgm-fsra:asset-management");
        reveal_strlit("ae-adgm-fsra:banking");
        reveal_strlit("ae-adgm-fsra:casp");
        reveal_strlit("ae-adgm-fsra:credit-rating");
        reveal_strlit("ae-adgm-fsra:crowdfunding");
        reveal_strlit("ae-adgm-fsra:custody");
        reveal_strlit("ae-adgm-fsra:digital-asset-custodian");
        reveal_strlit("ae-adgm-fsra:digital-asset-exchange");
        reveal_strlit("ae-adgm-fsra:insurance");
        reveal_strlit("ae-adgm-fsra:insurance-broker");
        reveal_strlit("ae-adgm-fsra:venture-capital");
        reveal_strlit("ae-adgm-ra:company");
        reveal_strlit("ae-adgm-ra:foundation");
        reveal_strlit("ae-adgm-ra:spv");
        assert(t[0].license_type_id[11] != t[1].license_type_id[11]);
        assert(t[0].license_type_id[11] != t[2].license_type_id[11]);
        assert(t[1].license_type_id[11] != t[2].license_type_id[11]);
        assert(t[0].license_type_id[8] != t[3].license_type_id[8]);
        assert(t[1].license_type_id[8] != t[3].license_type_id[8]);
        assert(t[2].license_type_id[8] != t[3].license_type_id[8]);
        assert(t[0].license_type_id[8] != t[4].license_type_id[8]);
        assert(t[1].license_type_id[8] != t[4].license_type_id[8]);
        assert(t[2].license_type_id[8] != t[4].license_type_id[8]);
        assert(t[3].license_type_id[13] != t[4].license_type_id[13]);
        assert(t[0].license_type_id[8] != t[5].license_type_id[8]);
        assert(t[1].license_type_id[8] != t[5].license_type_id[8]);
        assert(t[2].license_type_id[8] != t[5].license_type_id[8]);
        assert(t[3].license_type_id[13] != t[5].license_type_id[13]);
        assert(t[4].license_type_id.len() != t[5].license_type_id.len());
        assert(t[0].license_type_id[8] != t[6].license_type_id[8]);
        assert(t[1].license_type_id[8] != t[6].license_type_id[8]);
        assert(t[2].license_type_id[8] != t[6].license_type_id[8]);
        assert(t[3].license_type_id[13] != t[6].license_type_id[13]);
        assert(t[4].license_type_id[13] != t[6].license_type_id[13]);
        assert(t[5].license_type_id[13] != t[6].license_type_id[13]);
        assert(t[0].license_type_id[8] != t[7].license_type_id[8]);
        assert(t[1].license_type_id[8] != t[7].license_type_id[8]);
        assert(t[2].license_type_id[8] != t[7].license_type_id[8]);
        assert(t[3].license_type_id[13] != t[7].license_type_id[13]);
        assert(t[4].license_type_id[13] != t[7].license_type_id[13]);
        assert(t[5].license_type_id[13] != t[7].license_type_id[13]);
        assert(t[6].license_type_id[13] != t[7].license_type_id[13]);
        assert(t[0].license_type_id[8] != t[8].license_type_id[8]);
        assert(t[1].license_type_id[8] != t[8].license_type_id[8]);
        assert(t[2].license_type_id[8] != t[8].license_type_id[8]);
        assert(t[3].license_type_id[13] != t[8].license_type_id[13]);
        assert(t[4].license_type_id[13] != t[8].license_type_id[13]);
        assert(t[5].license_type_id[13] != t[8].license_type_id[13]);
        assert(t[6].license_type_id[13] != t[8].license_type_id[13]);
        assert(t[7].license_type_id[27] != t[8].license_type_id[27]);
        assert(t[0].license_type_id[8] != t[9].license_type_id[8]);
        assert(t[1].license_type_id[8] != t[9].license_type_id[8]);
        assert(t[2].license_type_id[8] != t[9].license_type_id[8]);
        assert(t[3].license_type_id[13] != t[9].license_type_id[13]);
        assert(t[4].license_type_id[13] != t[9].license_type_id[13]);
        assert(t[5].license_type_id[13] != t[9].license_type_id[13]);
        assert(t[6].license_type_id[13] != t[9].license_type_id[13]);
        assert(t[7].license_type_id[13] != t[9].license_type_id[13]);
        assert(t[8].license_type_id[13] != t[9].license_type_id[13]);
        assert(t[0].license_type_id[8] != t[10].license_type_id[8]);
        assert(t[1].license_type_id[8] != t[10].license_type_id[8]);
        assert(t[2].license_type_id[8] != t[10].license_type_id[8]);
        assert(t[3].license_type_id[13] != t[10].license_type_id[13]);
        assert(t[4].license_type_id[13] != t[10].license_type_id[13]);
        assert(t[5].license_type_id[13] != t[10].license_type_id[13]);
        assert(t[6].license_type_id[13] != t[10].license_type_id[13]);
        assert(t[7].license_type_id[13] != t[10].license_type_id[13]);
        assert(t[8].license_type_id[13] != t[10].license_type_id[13]);
        assert(t[9].license_type_id[13] != t[10].license_type_id[13]);
        assert(t[0].license_type_id[8] != t[11].license_type_id[8]);
        assert(t[1].license_type_id[8] != t[11].license_type_id[8]);
        assert(t[2].license_type_id[8] != t[11].license_type_id[8]);
        assert(t[3].license_type_id[13] != t[11].license_type_id[13]);
        assert(t[4].license_type_id[13] != t[11].license_type_id[13]);
        assert(t[5].license_type_id[13] != t[11].license_type_id[13]);
        assert(t[6].license_type_id[13] != t[11].license_type_id[13]);
        assert(t[7].license_type_id[13] != t[11].license_type_id[13]);
        assert(t[8].license_type_id[13] != t[11].license_type_id[13]);
        assert(t[9].license_type_id[14] != t[11].license_type_id[14]);
        assert(t[10].license_type_id[13] != t[11].license_type_id[13]);
        assert(t[0].license_type_id[8] != t[12].license_type_id[8]);
        assert(t[1].license_type_id[8] != t[12].license_type_id[8]);
        assert(t[2].license_type_id[8] != t[12].license_type_id[8]);
        assert(t[3].license_type_id[13] != t[12].license_type_id[13]);
        assert(t[4].license_type_id[13] != t[12].license_type_id[13]);
        assert(t[5].license_type_id[13] != t[12].license_type_id[13]);
        assert(t[6].license_type_id[13] != t[12].license_type_id[13]);
        assert(t[7].license_type_id[13] != t[12].license_type_id[13]);
        assert(t[8].license_type_id[13] != t[12].license_type_id[13]);
        assert(t[9].license_type_id[14] != t[12].license_type_id[14]);
        assert(t[10].license_type_id[13] != t[12].license_type_id[13]);
        assert(t[11].license_type_id[15] != t[12].license_type_id[15]);
        assert(t[0].license_type_id[8] != t[13].license_type_id[8]);
        assert(t[1].license_type_id[8] != t[13].license_type_id[8]);
        assert(t[2].license_type_id[8] != t[13].license_type_id[8]);
        assert(t[3].license_type_id[13] != t[13].license_type_id[13]);
        assert(t[4].license_type_id[13] != t[13].license_type_id[13]);
        assert(t[5].license_type_id[13] != t[13].license_type_id[13]);
        assert(t[6].license_type_id[13] != t[13].license_type_id[13]);
        assert(t[7].license_type_id[13] != t[13].license_type_id[13]);
        assert(t[8].license_type_id[13] != t[13].license_type_id[13]);
        assert(t[9].license_type_id[14] != t[13].license_type_id[14]);
        assert(t[10].license_type_id[13] != t[13].license_type_id[13]);
        assert(t[11].license_type_id[14] != t[13].license_type_id[14]);
        assert(t[12].license_type_id[14] != t[13].license_type_id[14]);
        assert(t[0].license_type_id[8] != t[14].license_type_id[8]);
        assert(t[1].license_type_id[8] != t[14].license_type_id[8]);
        assert(t[2].license_type_id[8] != t[14].license_type_id[8]);
        assert(t[3].license_type_id[13] != t[14].license_type_id[13]);
        assert(t[4].license_type_id[13] != t[14].license_type_id[13]);
        assert(t[5].license_type_id[13] != t[14].license_type_id[13]);
        assert(t[6].license_type_id[14] != t[14].license_type_id[14]);
        assert(t[7].license_type_id[13] != t[14].license_type_id[13]);
        assert(t[8].license_type_id[13] != t[14].license_type_id[13]);
        assert(t[9].license_type_id[13] != t[14].license_type_id[13]);
        assert(t[10].license_type_id[13] != t[14].license_type_id[13]);
        assert(t[11].license_type_id[13] != t[14].license_type_id[13]);
        assert(t[12].license_type_id[13] != t[14].license_type_id[13]);
        assert(t[13].license_type_id[13] != t[14].license_type_id[13]);
        reveal_with_fuel(ids_distinct_each, 16);
        reveal_with_fuel(id_fresh_each, 16);
    }
    lemma_ids_distinct_each(t);
}

/// No two licence types of `difc_license_types` share an identifier.
proof fn lemma_difc_license_types_ids_distinct()
    ensures
        license_type_ids_distinct(spec_difc_license_types()),
{
    let t = spec_difc_license_types();
    assert(ids_distinct_each(t)) by {
        reveal_strlit("ae-difc-dfsa:asset-management");
        reveal_strlit("ae-difc-dfsa:banking");
        reveal_strlit("ae-difc-dfsa:credit-rating");
        reveal_strlit("ae-difc-dfsa:crowdfunding");
        reveal_strlit("ae-difc-dfsa:custody");
        reveal_strlit("ae-difc-dfsa:digital-asset-custodian");
        reveal_strlit("ae-difc-dfsa:digital-asset-exchange");
        reveal_strlit("ae-difc-dfsa:insurance");
        reveal_strlit("ae-difc-dfsa:insurance-broker");
        reveal_strlit("ae-difc-dfsa:money-services");
        reveal_strlit("ae-difc-dfsa:securities-broker");
        reveal_strlit("ae-difc-roc:company");
        reveal_strlit("ae-difc-roc:foundation");
        reveal_strlit("ae-difc-roc:spv");
        assert(t[0].license_type_id[12] != t[1].license_type_id[12]);
        assert(t[0].license_type_id[12] != t[2].license_type_id[12]);
        assert(t[1].license_type_id[12] != t[2].license_type_id[12]);
        assert(t[0].license_type_id[8] != t[3].license_type_id[8]);
        assert(t[1].license_type_id[8] != t[3].license_type_id[8]);
        assert(t[2].license_type_id[8] != t[3].license_type_id[8]);
        assert(t[0].license_type_id[8] != t[4].license_type_id[8]);
        assert(t[1].license_type_id[8] != t[4].license_type_id[8]);
        assert(t[2].license_type_id[8] != t[4].license_type_id[8]);
        assert(t[3].license_type_id[13] != t[4].license_type_id[13]);
        assert(t[0].license_type_id[8] != t[5].license_type_id[8]);
        assert(t[1].license_type_id[8] != t[5].license_type_id[8]);
        assert(t[2].license_type_id[8] != t[5].license_type_id[8]);
        assert(t[3].license_type_id[13] != t[5].license_type_id[13]);
        assert(t[4].license_type_id.len() != t[5].license_type_id.len());
        assert(t[0].license_type_id[8] != t[6].license_type_id[8]);
        assert(t[1].license_type_id[8] != t[6].license_type_id[8]);
        assert(t[2].license_type_id[8] != t[6].license_type_id[8]);
        assert(t[3].license_type_id[13] != t[6].license_type_id[13]);
        assert(t[4].license_type_id[13] != t[6].license_type_id[13]);
        assert(t[5].license_type_id[13] != t[6].license_type_id[13]);
        assert(t[0].license_type_id[8] != t[7].license_type_id[8]);
        assert(t[1].license_type_id[8] != t[7].license_type_id[8]);
        assert(t[2].license_type_id[8] != t[7].license_type_id[8]);
        assert(t[3].license_type_id[13] != t[7].license_type_id[13]);
        assert(t[4].license_type_id[13] != t[7].license_type_id[13]);
        assert(t[5].license_type_id[13] != t[7].license_type_id[13]);
        assert(t[6].license_type_id[13] != t[7].license_type_id[13]);
        assert(t[0].license_type_id[8] != t[8].license_type_id[8]);
        assert(t[1].license_type_id[8] != t[8].license_type_id[8]);
        assert(t[2].license_type_id[8] != t[8].license_type_id[8]);
        assert(t[3].license_type_id[13] != t[8].license_type_id[13]);
        assert(t[4].license_type_id[13] != t[8].license_type_id[13]);
        assert(t[5].license_type_id[13] != t[8].license_type_id[13]);
        assert(t[6].license_type_id[13] != t[8].license_type_id[13]);
        assert(t[7].license_type_id[13] != t[8].license_type_id[13]);
        assert(t[0].license_type_id[8] != t[9].license_type_id[8]);
        assert(t[1].license_type_id[8] != t[9].license_type_id[8]);
        assert(t[2].license_type_id[8] != t[9].license_type_id[8]);
        assert(t[3].license_type_id[13] != t[9].license_type_id[13]);
        assert(t[4].license_type_id[13] != t[9].license_type_id[13]);
        assert(t[5].license_type_id[13] != t[9].license_type_id[13]);
        assert(t[6].license_type_id[13] != t[9].license_type_id[13]);
        assert(t[7].license_type_id[13] != t[9].license_type_id[13]);
        assert(t[8].license_type_id[27] != t[9].license_type_id[27]);
        assert(t[0].license_type_id[8] != t[10].license_type_id[8]);
        assert(t[1].license_type_id[8] != t[10].license_type_id[8]);
        assert(t[2].license_type_id[8] != t[10].license_type_id[8]);
        assert(t[3].license_type_id[13] != t[10].license_type_id[13]);
        assert(t[4].license_type_id[13] != t[10].license_type_id[13]);
        assert(t[5].license_type_id[13] != t[10].license_type_id[13]);
        assert(t[6].license_type_id[13] != t[10].license_type_id[13]);
        assert(t[7].license_type_id[13] != t[10].license_type_id[13]);
        assert(t[8].license_type_id[13] != t[10].license_type_id[13]);
        assert(t[9].license_type_id[13] != t[10].license_type_id[13]);
        assert(t[0].license_type_id[8] != t[11].license_type_id[8]);
        assert(t[1].license_type_id[8] != t[11].license_type_id[8]);
        assert(t[2].license_type_id[8] != t[11].license_type_id[8]);
        assert(t[3].license_type_id[13] != t[11].license_type_id[13]);
        assert(t[4].license_type_id[13] != t[11].license_type_id[13]);
        assert(t[5].license_type_id[13] != t[11].license_type_id[13]);
        assert(t[6].license_type_id[13] != t[11].license_type_id[13]);
        assert(t[7].license_type_id[13] != t[11].license_type_id[13]);
        assert(t[8].license_type_id[13] != t[11].license_type_id[13]);
        assert(t[9].license_type_id[13] != t[11].license_type_id[13]);
        assert(t[10].license_type_id[15] != t[11].license_type_id[15]);
        assert(t[0].license_type_id[8] != t[12].license_type_id[8]);
        assert(t[1].license_type_id[8] != t[12].license_type_id[8]);
        assert(t[2].license_type_id[8] != t[12].license_type_id[8]);
        assert(t[3].license_type_id[13] != t[12].license_type_id[13]);
        assert(t[4].license_type_id[13] != t[12].license_type_id[13]);
        assert(t[5].license_type_id[13] != t[12].license_type_id[13]);
        assert(t[6].license_type_id[13] != t[12].license_type_id[13]);
        assert(t[7].license_type_id[13] != t[12].license_type_id[13]);
        assert(t[8].license_type_id[13] != t[12].license_type_id[13]);
        assert(t[9].license_type_id[13] != t[12].license_type_id[13]);
        assert(t[10].license_type_id[13] != t[12].license_type_id[13]);
        assert(t[11].license_type_id[13] != t[12].license_type_id[13]);
        assert(t[0].license_type_id[8] != t[13].license_type_id[8]);
        assert(t[1].license_type_id[8] != t[13].license_type_id[8]);
        assert(t[2].license_type_id[8] != t[13].license_type_id[8]);
        assert(t[3].license_type_id[13] != t[13].license_type_id[13]);
        assert(t[4].license_type_id[13] != t[13].license_type_id[13]);
        assert(t[5].license_type_id[13] != t[13].license_type_id[13]);
        assert(t[6].license_type_id[13] != t[13].license_type_id[13]);
        assert(t[7].license_type_id[13] != t[13].license_type_id[13]);
        assert(t[8].license_type_id[13] != t[13].license_type_id[13]);
        assert(t[9].license_type_id[13] != t[13].license_type_id[13]);
        assert(t[10].license_type_id[14] != t[13].license_type_id[14]);
        assert(t[11].license_type_id[14] != t[13].license_type_id[14]);
        assert(t[12].license_type_id[13] != t[13].license_type_id[13]);
        reveal_with_fuel(ids_distinct_each, 15);
        reveal_with_fuel(id_fresh_each, 15);
    }
    lemma_ids_distinct_each(t);
}

/// No two licence types of `dmcc_license_types` share an identifier.
proof fn lemma_dmcc_license_types_ids_distinct()
    ensures
        license_type_ids_distinct(spec_dmcc_license_types()),
{
    let t = spec_dmcc_license_types();
    assert(ids_distinct_each(t)) by {
        reveal_strlit("ae-dmcc:casp");
        reveal_strlit("ae-dmcc:diamond-trading");
        reveal_strlit("ae-dmcc:precious-metals");
        reveal_strlit("ae-dmcc:trade-license");
        assert(t[0].license_type_id[8] != t[1].license_type_id[8]);
        assert(t[0].license_type_id[8] != t[2].license_type_id[8]);
        assert(t[1].license_type_id[8] != t[2].license_type_id[8]);
        assert(t[0].license_type_id[8] != t[3].license_type_id[8]);
        assert(t[1].license_type_id[8] != t[3].license_type_id[8]);
        assert(t[2].license_type_id[8] != t[3].license_type_id[8]);
        reveal_with_fuel(ids_distinct_each, 5);
        reveal_with_fuel(id_fresh_each, 5);
    }
    lemma_ids_distinct_each(t);
}

/// No two licence types of `jafza_license_types` share an identifier.
proof fn lemma_jafza_license_types_ids_distinct()
    ensures
        license_type_ids_distinct(spec_jafza_license_types()),
{
    let t = spec_jafza_license_types();
    assert(ids_distinct_each(t)) by {
        reveal_strlit("ae-jafza:industrial");
        reveal_strlit("ae-jafza:logistics");
        reveal_strlit("ae-jafza:services");
        reveal_strlit("ae-jafza:trading");
        assert(t[0].license_type_id[9] != t[1].license_type_id[9]);
        assert(t[0].license_type_id[9] != t[2].license_type_id[9]);
        assert(t[1].license_type_id[9] != t[2].license_type_id[9]);
        assert(t[0].license_type_id[9] != t[3].license_type_id[9]);
        assert(t[1].license_type_id[9] != t[3].license_type_id[9]);
        assert(t[2].license_type_id[9] != t[3].license_type_id[9]);
        reveal_with_fuel(ids_distinct_each, 5);
        reveal_with_fuel(id_fresh_each, 5);
    }
    lemma_ids_distinct_each(t);
}

/// No two licence types of `ifza_license_types` share an identifier.
proof fn lemma_ifza_license_types_ids_distinct()
    ensures
        license_type_ids_distinct(spec_ifza_license_types()),
{
    let t = spec_ifza_license_types();
    assert(ids_distinct_each(t)) by {
        reveal_strlit("ae-ifza:consultancy");
        reveal_strlit("ae-ifza:e-commerce");
        reveal_strlit("ae-ifza:general-trading");
        assert(t[0].license_type_id[8] != t[1].license_type_id[8]);
        assert(t[0].license_type_id[8] != t[2].license_type_id[8]);
        assert(t[1].license_type_id[8] != t[2].license_type_id[8]);
        reveal_with_fuel(ids_distinct_each, 4);
        reveal_with_fuel(id_fresh_each, 4);
    }
    lemma_ids_distinct_each(t);
}

/// No two licence types of `dwtc_license_types` share an identifier.
proof fn lemma_dwtc_license_types_ids_distinct()
    ensures
        license_type_ids_distinct(spec_dwtc_license_types()),
{
    let t = spec_dwtc_license_types();
    assert(ids_distinct_each(t)) by {
        reveal_strlit("ae-dwtc:events");
        reveal_strlit("ae-dwtc:hospitality");
        assert(t[0].license_type_id[8] != t[1].license_type_id[8]);
        reveal_with_fuel(ids_distinct_each, 3);
        reveal_with_fuel(id_fresh_each, 3);
    }
    lemma_ids_distinct_each(t);
}

/// No two licence types of `dso_license_types` share an identifier.
proof fn lemma_dso_license_types_ids_distinct()
    ensures
        license_type_ids_distinct(spec_dso_license_types()),
{
    let t = spec_dso_license_types();
    assert(ids_distinct_each(t)) by {
        reveal_strlit("ae-dso:freelancer");
        reveal_strlit("ae-dso:tech");
        assert(t[0].license_type_id[7] != t[1].license_type_id[7]);
        reveal_with_fuel(ids_distinct_each, 3);
        reveal_with_fuel(id_fresh_each, 3);
    }
    lemma_ids_distinct_each(t);
}

/// No two licence types of `dic_license_types` share an identifier.
proof fn lemma_dic_license_types_ids_distinct()
    ensures
        license_type_ids_distinct(spec_dic_license_types()),
{
    let t = spec_dic_license_types();
    assert(ids_distinct_each(t)) by {
        reveal_strlit("ae-dic:media");
        reveal_strlit("ae-dic:technology");
        assert(t[0].license_type_id[7] != t[1].license_type_id[7]);
        reveal_with_fuel(ids_distinct_each, 3);
        reveal_with_fuel(id_fresh_each, 3);
    }
    lemma_ids_distinct_each(t);
}

/// No two licence types of `dhcc_license_types` share an identifier.
proof fn lemma_dhcc_license_types_ids_distinct()
    ensures
        license_type_ids_distinct(spec_dhcc_license_types()),
{
    let t = spec_dhcc_license_types();
    assert(ids_distinct_each(t)) by {
        reveal_strlit("ae-dhcc:healthcare");
        reveal_strlit("ae-dhcc:pharmaceutical");
        assert(t[0].license_type_id[8] != t[1].license_type_id[8]);
        reveal_with_fuel(ids_distinct_each, 3);
        reveal_with_fuel(id_fresh_each, 3);
    }
    lemma_ids_distinct_each(t);
}

/// No two licence types of `abudhabi_fz_license_types` share an identifier.
proof fn lemma_abudhabi_fz_license_types_ids_distinct()
    ensures
        license_type_ids_distinct(spec_abudhabi_fz_license_types()),
{
    let t = spec_abudhabi_fz_license_types();
    assert(ids_distinct_each(t)) by {
        reveal_strlit("ae-abudhabi-added:trade-license");
        reveal_strlit("ae-kezad:industrial");
        reveal_strlit("ae-kezad:logistics");
        reveal_strlit("ae-kizad:industrial");
        reveal_strlit("ae-kizad:trading");
        reveal_strlit("ae-masdar:cleantech");
        reveal_strlit("ae-twofour54:media");
        assert(t[0].license_type_id[3] != t[1].license_type_id[3]);
        assert(t[0].license_type_id[3] != t[2].license_type_id[3]);
        assert(t[1].license_type_id[3] != t[2].license_type_id[3]);
        assert(t[0].license_type_id[3] != t[3].license_type_id[3]);
        assert(t[1].license_type_id[3] != t[3].license_type_id[3]);
        assert(t[2].license_type_id[9] != t[3].license_type_id[9]);
        assert(t[0].license_type_id[3] != t[4].license_type_id[3]);
        assert(t[1].license_type_id[3] != t[4].license_type_id[3]);
        assert(t[2].license_type_id[3] != t[4].license_type_id[3]);
        assert(t[3].license_type_id[3] != t[4].license_type_id[3]);
        assert(t[0].license_type_id[3] != t[5].license_type_id[3]);
        assert(t[1].license_type_id[3] != t[5].license_type_id[3]);
        assert(t[2].license_type_id[4] != t[5].license_type_id[4]);
        assert(t[3].license_type_id[4] != t[5].license_type_id[4]);
        assert(t[4].license_type_id[3] != t[5].license_type_id[3]);
        assert(t[0].license_type_id[3] != t[6].license_type_id[3]);
        assert(t[1].license_type_id[3] != t[6].license_type_id[3]);
        assert(t[2].license_type_id[4] != t[6].license_type_id[4]);
        assert(t[3].license_type_id[4] != t[6].license_type_id[4]);
        assert(t[4].license_type_id[3] != t[6].license_type_id[3]);
        assert(t[5].license_type_id[9] != t[6].license_type_id[9]);
        reveal_with_fuel(ids_distinct_each, 8);
        reveal_with_fuel(id_fresh_each, 8);
    }
    lemma_ids_distinct_each(t);
}

/// No two licence types of `ded_license_types` share an identifier.
proof fn lemma_ded_license_types_ids_distinct()
    ensures
        license_type_ids_distinct(spec_ded_license_types()),
{
    let t = spec_ded_license_types();
    assert(ids_distinct_each(t)) by {
        reveal_strlit("ae-dubai-ded:commercial");
        reveal_strlit("ae-dubai-ded:industrial");
        reveal_strlit("ae-dubai-ded:professional");
        assert(t[0].license_type_id[13] != t[1].license_type_id[13]);
        assert(t[0].license_type_id[13] != t[2].license_type_id[13]);
        assert(t[1].license_type_id[13] != t[2].license_type_id[13]);
        reveal_with_fuel(ids_distinct_each, 4);
        reveal_with_fuel(id_fresh_each, 4);
    }
    lemma_ids_distinct_each(t);
}

/// No licence type of `federal_license_types` shares an identifier with one of `adgm_license_types`.
proof fn lemma_federal_license_types_apart_from_adgm_license_types()
    ensures
        license_type_ids_apart(spec_federal_license_types(), spec_adgm_license_types()),
{
    let a = spec_federal_license_types();
    let b = spec_adgm_license_types();
    assert(apart_each(a, b)) by {
        reveal_strlit("ae-adgm-fsra:advisory");
        reveal_strlit("ae-adgm-fsra:asset-management");
        reveal_strlit("ae-adgm-fsra:banking");
        reveal_strlit("ae-adgm-fsra:casp");
        reveal_strlit("ae-adgm-fsra:credit-rating");
        reveal_strlit("ae-adgm-fsra:crowdfunding");
        reveal_strlit("ae-adgm-fsra:custody");
        reveal_strlit("ae-adgm-fsra:digital-asset-custodian");
        reveal_strlit("ae-adgm-fsra:digital-asset-exchange");
        reveal_strlit("ae-adgm-fsra:insurance");
        reveal_strlit("ae-adgm-fsra:insurance-broker");
        reveal_strlit("ae-adgm-fsra:venture-capital");
        reveal_strlit("ae-adgm-ra:company");
        reveal_strlit("ae-adgm-ra:foundation");
        reveal_strlit("ae-adgm-ra:spv");
        reveal_strlit("ae-cbuae:commercial-bank");
        reveal_strlit("ae-cbuae:exchange-house");
        reveal_strlit("ae-cbuae:insurance");
        reveal_strlit("ae-cbuae:islamic-bank");
        reveal_strlit("ae-cbuae:stored-value");
        reveal_strlit("ae-moec:foreign-company");
        reveal_strlit("ae-sca:fund-manager");
        reveal_strlit("ae-sca:securities-broker");
        assert(a[0].license_type_id[3] != b[0].license_type_id[3]);
        assert(a[0].license_type_id[3] != b[1].license_type_id[3]);
        assert(a[0].license_type_id[3] != b[2].license_type_id[3]);
        assert(a[0].license_type_id[3] != b[3].license_type_id[3]);
        assert(a[0].license_type_id[3] != b[4].license_type_id[3]);
        assert(a[0].license_type_id[3] != b[5].license_type_id[3]);
        assert(a[0].license_type_id[3] != b[6].license_type_id[3]);
        assert(a[0].license_type_id[3] != b[7].license_type_id[3]);
        assert(a[0].license_type_id[3] != b[8].license_type_id[3]);
        assert(a[0].license_type_id[3] != b[9].license_type_id[3]);
        assert(a[0].license_type_id[3] != b[10].license_type_id[3]);
        assert(a[0].license_type_id[3] != b[11].license_type_id[3]);
        assert(a[0].license_type_id[3] != b[12].license_type_id[3]);
        assert(a[0].license_type_id[3] != b[13].license_type_id[3]);
        assert(a[0].license_type_id[3] != b[14].license_type_id[3]);
        assert(a[1].license_type_id[3] != b[0].license_type_id[3]);
        assert(a[1].license_type_id[3] != b[1].license_type_id[3]);
        assert(a[1].license_type_id[3] != b[2].license_type_id[3]);
        assert(a[1].license_type_id[3] != b[3].license_type_id[3]);
        assert(a[1].license_type_id[3] != b[4].license_type_id[3]);
        assert(a[1].license_type_id[3] != b[5].license_type_id[3]);
        assert(a[1].license_type_id[3] != b[6].license_type_id[3]);
        assert(a[1].license_type_id[3] != b[7].license_type_id[3]);
        assert(a[1].license_type_id[3] != b[8].license_type_id[3]);
        assert(a[1].license_type_id[3] != b[9].license_type_id[3]);
        assert(a[1].license_type_id[3] != b[10].license_type_id[3]);
        assert(a[1].license_type_id[3] != b[11].license_type_id[3]);
        assert(a[1].license_type_id[3] != b[12].license_type_id[3]);
        assert(a[1].license_type_id[3] != b[13].license_type_id[3]);
        assert(a[1].license_type_id[3] != b[14].license_type_id[3]);
        assert(a[2].license_type_id[3] != b[0].license_type_id[3]);
        assert(a[2].license_type_id[3] != b[1].license_type_id[3]);
        assert(a[2].license_type_id[3] != b[2].license_type_id[3]);
        assert(a[2].license_type_id[3] != b[3].license_type_id[3]);
        assert(a[2].license_type_id[3] != b[4].license_type_id[3]);
        assert(a[2].license_type_id[3] != b[5].license_type_id[3]);
        assert(a[2].license_type_id[3] != b[6].license_type_id[3]);
        assert(a[2].license_type_id[3] != b[7].license_type_id[3]);
        assert(a[2].license_type_id[3] != b[8].license_type_id[3]);
        assert(a[2].license_type_id[3] != b[9].license_type_id[3]);
        assert(a[2].license_type_id[3] != b[10].license_type_id[3]);
        assert(a[2].license_type_id[3] != b[11].license_type_id[3]);
        assert(a[2].license_type_id[3] != b[12].license_type_id[3]);
        assert(a[2].license_type_id[3] != b[13].license_type_id[3]);
        assert(a[2].license_type_id[3] != b[14].license_type_id[3]);
        assert(a[3].license_type_id[3] != b[0].license_type_id[3]);
        assert(a[3].license_type_id[3] != b[1].license_type_id[3]);
        assert(a[3].license_type_id[3] != b[2].license_type_id[3]);
        assert(a[3].license_type_id[3] != b[3].license_type_id[3]);
        assert(a[3].license_type_id[3] != b[4].license_type_id[3]);
        assert(a[3].license_type_id[3] != b[5].license_type_id[3]);
        assert(a[3].license_type_id[3] != b[6].license_type_id[3]);
        assert(a[3].license_type_id[3] != b[7].license_type_id[3]);
        assert(a[3].license_type_id[3] != b[8].license_type_id[3]);
        assert(a[3].license_type_id[3] != b[9].license_type_id[3]);
        assert(a[3].license_type_id[3] != b[10].license_type_id[3]);
        assert(a[3].license_type_id[3] != b[11].license_type_id[3]);
        assert(a[3].license_type_id[3] != b[12].license_type_id[3]);
        assert(a[3].license_type_id[3] != b[13].license_type_id[3]);
        assert(a[3].license_type_id[3] != b[14].license_type_id[3]);
        assert(a[4].license_type_id[3] != b[0].license_type_id[3]);
        assert(a[4].license_type_id[3] != b[1].license_type_id[3]);
        assert(a[4].license_type_id[3] != b[2].license_type_id[3]);
        assert(a[4].license_type_id[3] != b[3].license_type_id[3]);
        assert(a[4].license_type_id[3] != b[4].license_type_id[3]);
        assert(a[4].license_type_id[3] != b[5].license_type_id[3]);
        assert(a[4].license_type_id[3] != b[6].license_type_id[3]);
        assert(a[4].license_type_id[3] != b[7].license_type_id[3]);
        assert(a[4].license_type_id[3] != b[8].license_type_id[3]);
        assert(a[4].license_type_id[3] != b[9].license_type_id[3]);
        assert(a[4].license_type_id[3] != b[10].license_type_id[3]);
        assert(a[4].license_type_id[3] != b[11].license_type_id[3]);
        assert(a[4].license_type_id[3] != b[12].license_type_id[3]);
        assert(a[4].license_type_id[3] != b[13].license_type_id[3]);
        assert(a[4].license_type_id[3] != b[14].license_type_id[3]);
        assert(a[5].license_type_id[3] != b[0].license_type_id[3]);
        assert(a[5].license_type_id[3] != b[1].license_type_id[3]);
        assert(a[5].license_type_id[3] != b[2].license_type_id[3]);
        assert(a[5].license_type_id[3] != b[3].license_type_id[3]);
        assert(a[5].license_type_id[3] != b[4].license_type_id[3]);
        assert(a[5].license_type_id[3] != b[5].license_type_id[3]);
        assert(a[5].license_type_id[3] != b[6].license_type_id[3]);
        assert(a[5].license_type_id[3] != b[7].license_type_id[3]);
        assert(a[5].license_type_id[3] != b[8].license_type_id[3]);
        assert(a[5].license_type_id[3] != b[9].license_type_id[3]);
        assert(a[5].license_type_id[3] != b[10].license_type_id[3]);
        assert(a[5].license_type_id[3] != b[11].license_type_id[3]);
        assert(a[5].license_type_id[3] != b[12].license_type_id[3]);
        assert(a[5].license_type_id[3] != b[13].license_type_id[3]);
        assert(a[5].license_type_id[3] != b[14].license_type_id[3]);
        assert(a[6].license_type_id[3] != b[0].license_type_id[3]);
        assert(a[6].license_type_id[3] != b[1].license_type_id[3]);
        assert(a[6].license_type_id[3] != b[2].license_type_id[3]);
        assert(a[6].license_type_id[3] != b[3].license_type_id[3]);
        assert(a[6].license_type_id[3] != b[4].license_type_id[3]);
        assert(a[6].license_type_id[3] != b[5].license_type_id[3]);
        assert(a[6].license_type_id[3] != b[6].license_type_id[3]);
        assert(a[6].license_type_id[3] != b[7].license_type_id[3]);
        assert(a[6].license_type_id[3] != b[8].license_type_id[3]);
        assert(a[6].license_type_id[3] != b[9].license_type_id[3]);
        assert(a[6].license_type_id[3] != b[10].license_type_id[3]);
        assert(a[6].license_type_id[3] != b[11].license_type_id[3]);
        assert(a[6].license_type_id[3] != b[12].license_type_id[3]);
        assert(a[6].license_type_id[3] != b[13].license_type_id[3]);
        assert(a[6].license_type_id[3] != b[14].license_type_id[3]);
        assert(a[7].license_type_id[3] != b[0].license_type_id[3]);
        assert(a[7].license_type_id[3] != b[1].license_type_id[3]);
        assert(a[7].license_type_id[3] != b[2].license_type_id[3]);
        assert(a[7].license_type_id[3] != b[3].license_type_id[3]);
        assert(a[7].license_type_id[3] != b[4].license_type_id[3]);
        assert(a[7].license_type_id[3] != b[5].license_type_id[3]);
        assert(a[7].license_type_id[3] != b[6].license_type_id[3]);
        assert(a[7].license_type_id[3] != b[7].license_type_id[3]);
        assert(a[7].license_type_id[3] != b[8].license_type_id[3]);
        assert(a[7].license_type_id[3] != b[9].license_type_id[3]);
        assert(a[7].license_type_id[3] != b[10].license_type_id[3]);
        assert(a[7].license_type_id[3] != b[11].license_type_id[3]);
        assert(a[7].license_type_id[3] != b[12].license_type_id[3]);
        assert(a[7].license_type_id[3] != b[13].license_type_id[3]);
        assert(a[7].license_type_id[3] != b[14].license_type_id[3]);
        reveal_with_fuel(apart_each, 9);
        reveal_with_fuel(id_fresh_each, 16);
    }
    lemma_apart_each(a, b);
}

/// No licence type of `federal_license_types` shares an identifier with one of `difc_license_types`.
proof fn lemma_federal_license_types_apart_from_difc_license_types()
    ensures
        license_type_ids_apart(spec_federal_license_types(), spec_difc_license_types()),
{
    let a = spec_federal_license_types();
    let b = spec_difc_license_types();
    assert(apart_each(a, b)) by {
        reveal_strlit("ae-cbuae:commercial-bank");
        reveal_strlit("ae-cbuae:exchange-house");
        reveal_strlit("ae-cbuae:insurance");
        reveal_strlit("ae-cbuae:islamic-bank");
        reveal_strlit("ae-cbuae:stored-value");
        reveal_strlit("ae-difc-dfsa:asset-management");
        reveal_strlit("ae-difc-dfsa:banking");
        reveal_strlit("ae-difc-dfsa:credit-rating");
        reveal_strlit("ae-difc-dfsa:crowdfunding");
        reveal_strlit("ae-difc-dfsa:custody");
        reveal_strlit("ae-difc-dfsa:digital-asset-custodian");
        reveal_strlit("ae-difc-dfsa:digital-asset-exchange");
        reveal_strlit("ae-difc-dfsa:insurance");
        reveal_strlit("ae-difc-dfsa:insurance-broker");
        reveal_strlit("ae-difc-dfsa:money-services");
        reveal_strlit("ae-difc-dfsa:securities-broker");
        reveal_strlit("ae-difc-roc:company");
        reveal_strlit("ae-difc-roc:foundation");
        reveal_strlit("ae-difc-roc:spv");
        reveal_strlit("ae-moec:foreign-company");
        reveal_strlit("ae-sca:fund-manager");
        reveal_strlit("ae-sca:securities-broker");
        assert(a[0].license_type_id[3] != b[0].license_type_id[3]);
        assert(a[0].license_type_id[3] != b[1].license_type_id[3]);
        assert(a[0].license_type_id[3] != b[2].license_type_id[3]);
        assert(a[0].license_type_id[3] != b[3].license_type_id[3]);
        assert(a[0].license_type_id[3] != b[4].license_type_id[3]);
        assert(a[0].license_type_id[3] != b[5].license_type_id[3]);
        assert(a[0].license_type_id[3] != b[6].license_type_id[3]);
        assert(a[0].license_type_id[3] != b[7].license_type_id[3]);
        assert(a[0].license_type_id[3] != b[8].license_type_id[3]);
        assert(a[0].license_type_id[3] != b[9].license_type_id[3]);
        assert(a[0].license_type_id[3] != b[10].license_type_id[3]);
        assert(a[0].license_type_id[3] != b[11].license_type_id[3]);
        assert(a[0].license_type_id[3] != b[12].license_type_id[3]);
        assert(a[0].license_type_id[3] != b[13].license_type_id[3]);
        assert(a[1].license_type_id[3] != b[0].license_type_id[3]);
        assert(a[1].license_type_id[3] != b[1].license_type_id[3]);
        assert(a[1].license_type_id[3] != b[2].license_type_id[3]);
        assert(a[1].license_type_id[3] != b[3].license_type_id[3]);
        assert(a[1].license_type_id[3] != b[4].license_type_id[3]);
        assert(a[1].license_type_id[3] != b[5].license_type_id[3]);
        assert(a[1].license_type_id[3] != b[6].license_type_id[3]);
        assert(a[1].license_type_id[3] != b[7].license_type_id[3]);
        assert(a[1].license_type_id[3] != b[8].license_type_id[3]);
        assert(a[1].license_type_id[3] != b[9].license_type_id[3]);
        assert(a[1].license_type_id[3] != b[10].license_type_id[3]);
        assert(a[1].license_type_id[3] != b[11].license_type_id[3]);
        assert(a[1].license_type_id[3] != b[12].license_type_id[3]);
        assert(a[1].license_type_id[3] != b[13].license_type_id[3]);
        assert(a[2].license_type_id[3] != b[0].license_type_id[3]);
        assert(a[2].license_type_id[3] != b[1].license_type_id[3]);
        assert(a[2].license_type_id[3] != b[2].license_type_id[3]);
        assert(a[2].license_type_id[3] != b[3].license_type_id[3]);
        assert(a[2].license_type_id[3] != b[4].license_type_id[3]);
        assert(a[2].license_type_id[3] != b[5].license_type_id[3]);
        assert(a[2].license_type_id[3] != b[6].license_type_id[3]);
        assert(a[2].license_type_id[3] != b[7].license_type_id[3]);
        assert(a[2].license_type_id[3] != b[8].license_type_id[3]);
        assert(a[2].license_type_id[3] != b[9].license_type_id[3]);
        assert(a[2].license_type_id[3] != b[10].license_type_id[3]);
        assert(a[2].license_type_id[3] != b[11].license_type_id[3]);
        assert(a[2].license_type_id[3] != b[12].license_type_id[3]);
        assert(a[2].license_type_id[3] != b[13].license_type_id[3]);
        assert(a[3].license_type_id[3] != b[0].license_type_id[3]);
        assert(a[3].license_type_id[3] != b[1].license_type_id[3]);
        assert(a[3].license_type_id[3] != b[2].license_type_id[3]);
        assert(a[3].license_type_id[3] != b[3].license_type_id[3]);
        assert(a[3].license_type_id[3] != b[4].license_type_id[3]);
        assert(a[3].license_type_id[3] != b[5].license_type_id[3]);
        assert(a[3].license_type_id[3] != b[6].license_type_id[3]);
        assert(a[3].license_type_id[3] != b[7].license_type_id[3]);
        assert(a[3].license_type_id[3] != b[8].license_type_id[3]);
        assert(a[3].license_type_id[3] != b[9].license_type_id[3]);
        assert(a[3].license_type_id[3] != b[10].license_type_id[3]);
        assert(a[3].license_type_id[3] != b[11].license_type_id[3]);
        assert(a[3].license_type_id[3] != b[12].license_type_id[3]);
        assert(a[3].license_type_id[3] != b[13].license_type_id[3]);
        assert(a[4].license_type_id[3] != b[0].license_type_id[3]);
        assert(a[4].license_type_id[3] != b[1].license_type_id[3]);
        assert(a[4].license_type_id[3] != b[2].license_type_id[3]);
        assert(a[4].license_type_id[3] != b[3].license_type_id[3]);
        assert(a[4].license_type_id[3] != b[4].license_type_id[3]);
        assert(a[4].license_type_id[3] != b[5].license_type_id[3]);
        assert(a[4].license_type_id[3] != b[6].license_type_id[3]);
        assert(a[4].license_type_id[3] != b[7].license_type_id[3]);
        assert(a[4].license_type_id[3] != b[8].license_type_id[3]);
        assert(a[4].license_type_id[3] != b[9].license_type_id[3]);
        assert(a[4].license_type_id[3] != b[10].license_type_id[3]);
        assert(a[4].license_type_id[3] != b[11].license_type_id[3]);
        assert(a[4].license_type_id[3] != b[12].license_type_id[3]);
        assert(a[4].license_type_id[3] != b[13].license_type_id[3]);
        assert(a[5].license_type_id[3] != b[0].license_type_id[3]);
        assert(a[5].license_type_id[3] != b[1].license_type_id[3]);
        assert(a[5].license_type_id[3] != b[2].license_type_id[3]);
        assert(a[5].license_type_id[3] != b[3].license_type_id[3]);
        assert(a[5].license_type_id[3] != b[4].license_type_id[3]);
        assert(a[5].license_type_id[3] != b[5].license_type_id[3]);
        assert(a[5].license_type_id[3] != b[6].license_type_id[3]);
        assert(a[5].license_type_id[3] != b[7].license_type_id[3]);
        assert(a[5].license_type_id[3] != b[8].license_type_id[3]);
        assert(a[5].license_type_id[3] != b[9].license_type_id[3]);
        assert(a[5].license_type_id[3] != b[10].license_type_id[3]);
        assert(a[5].license_type_id[3] != b[11].license_type_id[3]);
        assert(a[5].license_type_id[3] != b[12].license_type_id[3]);
        assert(a[5].license_type_id[3] != b[13].license_type_id[3]);
        assert(a[6].license_type_id[3] != b[0].license_type_id[3]);
        assert(a[6].license_type_id[3] != b[1].license_type_id[3]);
        assert(a[6].license_type_id[3] != b[2].license_type_id[3]);
        assert(a[6].license_type_id[3] != b[3].license_type_id[3]);
        assert(a[6].license_type_id[3] != b[4].license_type_id[3]);
        assert(a[6].license_type_id[3] != b[5].license_type_id[3]);
        assert(a[6].license_type_id[3] != b[6].license_type_id[3]);
        assert(a[6].license_type_id[3] != b[7].license_type_id[3]);
        assert(a[6].license_type_id[3] != b[8].license_type_id[3]);
        assert(a[6].license_type_id[3] != b[9].license_type_id[3]);
        assert(a[6].license_type_id[3] != b[10].license_type_id[3]);
        assert(a[6].license_type_id[3] != b[11].license_type_id[3]);
        assert(a[6].license_type_id[3] != b[12].license_type_id[3]);
        assert(a[6].license_type_id[3] != b[13].license_type_id[3]);
        assert(a[7].license_type_id[3] != b[0].license_type_id[3]);
        assert(a[7].license_type_id[3] != b[1].license_type_id[3]);
        assert(a[7].license_type_id[3] != b[2].license_type_id[3]);
        assert(a[7].license_type_id[3] != b[3].license_type_id[3]);
        assert(a[7].license_type_id[3] != b[4].license_type_id[3]);
        assert(a[7].license_type_id[3] != b[5].license_type_id[3]);
        assert(a[7].license_type_id[3] != b[6].license_type_id[3]);
        assert(a[7].license_type_id[3] != b[7].license_type_id[3]);
        assert(a[7].license_type_id[3] != b[8].license_type_id[3]);
        assert(a[7].license_type_id[3] != b[9].license_type_id[3]);
        assert(a[7].license_type_id[3] != b[10].license_type_id[3]);
        assert(a[7].license_type_id[3] != b[11].license_type_id[3]);
        assert(a[7].license_type_id[3] != b[12].license_type_id[3]);
        assert(a[7].license_type_id[3] != b[13].license_type_id[3]);
        reveal_with_fuel(apart_each, 9);
        reveal_with_fuel(id_fresh_each, 15);
    }
    lemma_apart_each(a, b);
}

/// No licence type of `federal_license_types` shares an identifier with one of `dmcc_license_types`.
proof fn lemma_federal_license_types_apart_from_dmcc_license_types()
    ensures
        license_type_ids_apart(spec_federal_license_types(), spec_dmcc_license_types()),
{
    let a = spec_federal_license_types();
    let b = spec_dmcc_license_types();
    assert(apart_each(a, b)) by {
        reveal_strlit("ae-cbuae:commercial-bank");
        reveal_strlit("ae-cbuae:exchange-house");
        reveal_strlit("ae-cbuae:insurance");
        reveal_strlit("ae-cbuae:islamic-bank");
        reveal_strlit("ae-cbuae:stored-value");
        reveal_strlit("ae-dmcc:casp");
        reveal_strlit("ae-dmcc:diamond-trading");
        reveal_strlit("ae-dmcc:precious-metals");
        reveal_strlit("ae-dmcc:trade-license");
        reveal_strlit("ae-moec:foreign-company");
        reveal_strlit("ae-sca:fund-manager");
        reveal_strlit("ae-sca:securities-broker");
        assert(a[0].license_type_id[3] != b[0].license_type_id[3]);
        assert(a[0].license_type_id[3] != b[1].license_type_id[3]);
        assert(a[0].license_type_id[3] != b[2].license_type_id[3]);
        assert(a[0].license_type_id[3] != b[3].license_type_id[3]);
        assert(a[1].license_type_id[3] != b[0].license_type_id[3]);
        assert(a[1].license_type_id[3] != b[1].license_type_id[3]);
        assert(a[1].license_type_id[3] != b[2].license_type_id[3]);
        assert(a[1].license_type_id[3] != b[3].license_type_id[3]);
        assert(a[2].license_type_id[3] != b[0].license_type_id[3]);
        assert(a[2].license_type_id[3] != b[1].license_type_id[3]);
        assert(a[2].license_type_id[3] != b[2].license_type_id[3]);
        assert(a[2].license_type_id[3] != b[3].license_type_id[3]);
        assert(a[3].license_type_id[3] != b[0].license_type_id[3]);
        assert(a[3].license_type_id[3] != b[1].license_type_id[3]);
        assert(a[3].license_type_id[3] != b[2].license_type_id[3]);
        assert(a[3].license_type_id[3] != b[3].license_type_id[3]);
        assert(a[4].license_type_id[3] != b[0].license_type_id[3]);
        assert(a[4].license_type_id[3] != b[1].license_type_id[3]);
        assert(a[4].license_type_id[3] != b[2].license_type_id[3]);
        assert(a[4].license_type_id[3] != b[3].license_type_id[3]);
        assert(a[5].license_type_id[3] != b[0].license_type_id[3]);
        assert(a[5].license_type_id[3] != b[1].license_type_id[3]);
        assert(a[5].license_type_id[3] != b[2].license_type_id[3]);
        assert(a[5].license_type_id[3] != b[3].license_type_id[3]);
        assert(a[6].license_type_id[3] != b[0].license_type_id[3]);
        assert(a[6].license_type_id[3] != b[1].license_type_id[3]);
        assert(a[6].license_type_id[3] != b[2].license_type_id[3]);
        assert(a[6].license_type_id[3] != b[3].license_type_id[3]);
        assert(a[7].license_type_id[3] != b[0].license_type_id[3]);
        assert(a[7].license_type_id[3] != b[1].license_type_id[3]);
        assert(a[7].license_type_id[3] != b[2].license_type_id[3]);
        assert(a[7].license_type_id[3] != b[3].license_type_id[3]);
        reveal_with_fuel(apart_each, 9);
        reveal_with_fuel(id_fresh_each, 5);
    }
    lemma_apart_each(a, b);
}

/// No licence type of `federal_license_types` shares an identifier with one of `jafza_license_types`.
proof fn lemma_federal_license_types_apart_from_jafza_license_types()
    ensures
        license_type_ids_apart(spec_federal_license_types(), spec_jafza_license_types()),
{
    let a = spec_federal_license_types();
    let b = spec_jafza_license_types();
    assert(apart_each(a, b)) by {
        reveal_strlit("ae-cbuae:commercial-bank");
        reveal_strlit("ae-cbuae:exchange-house");
        reveal_strlit("ae-cbuae:insurance");
        reveal_strlit("ae-cbuae:islamic-bank");
        reveal_strlit("ae-cbuae:stored-value");
        reveal_strlit("ae-jafza:industrial");
        reveal_strlit("ae-jafza:logistics");
        reveal_strlit("ae-jafza:services");
        reveal_strlit("ae-jafza:trading");
        reveal_strlit("ae-moec:foreign-company");
        reveal_strlit("ae-sca:fund-manager");
        reveal_strlit("ae-sca:securities-broker");
        assert(a[0].license_type_id[3] != b[0].license_type_id[3]);
        assert(a[0].license_type_id[3] != b[1].license_type_id[3]);
        assert(a[0].license_type_id[3] != b[2].license_type_id[3]);
        assert(a[0].license_type_id[3] != b[3].license_type_id[3]);
        assert(a[1].license_type_id[3] != b[0].license_type_id[3]);
        assert(a[1].license_type_id[3] != b[1].license_type_id[3]);
        assert(a[1].license_type_id[3] != b[2].license_type_id[3]);
        assert(a[1].license_type_id[3] != b[3].license_type_id[3]);
        assert(a[2].license_type_id[3] != b[0].license_type_id[3]);
        assert(a[2].license_type_id[3] != b[1].license_type_id[3]);
        assert(a[2].license_type_id[3] != b[2].license_type_id[3]);
        assert(a[2].license_type_id[3] != b[3].license_type_id[3]);
        assert(a[3].license_type_id[3] != b[0].license_type_id[3]);
        assert(a[3].license_type_id[3] != b[1].license_type_id[3]);
        assert(a[3].license_type_id[3] != b[2].license_type_id[3]);
        assert(a[3].license_type_id[3] != b[3].license_type_id[3]);
        assert(a[4].license_type_id[3] != b[0].license_type_id[3]);
        assert(a[4].license_type_id[3] != b[1].license_type_id[3]);
        assert(a[4].license_type_id[3] != b[2].license_type_id[3]);
        assert(a[4].license_type_id[3] != b[3].license_type_id[3]);
        assert(a[5].license_type_id[3] != b[0].license_type_id[3]);
        assert(a[5].license_type_id[3] != b[1].license_type_id[3]);
        assert(a[5].license_type_id[3] != b[2].license_type_id[3]);
        assert(a[5].license_type_id[3] != b[3].license_type_id[3]);
        assert(a[6].license_type_id[3] != b[0].license_type_id[3]);
        assert(a[6].license_type_id[3] != b[1].license_type_id[3]);
        assert(a[6].license_type_id[3] != b[2].license_type_id[3]);
        assert(a[6].license_type_id[3] != b[3].license_type_id[3]);
        assert(a[7].license_type_id[3] != b[0].license_type_id[3]);
        assert(a[7].license_type_id[3] != b[1].license_type_id[3]);
        assert(a[7].license_type_id[3] != b[2].license_type_id[3]);
        assert(a[7].license_type_id[3] != b[3].license_type_id[3]);
        reveal_with_fuel(apart_each, 9);
        reveal_with_fuel(id_fresh_each, 5);
    }
    lemma_apart_each(a, b);
}

/// No licence type of `federal_license_types` shares an identifier with one of `ifza_license_types`.
proof fn lemma_federal_license_types_apart_from_ifza_license_types()
    ensures
        license_type_ids_apart(spec_federal_license_types(), spec_ifza_license_types()),
{
    let a = spec_federal_license_types();
    let b = spec_ifza_license_types();
    assert(apart_each(a, b)) by {
        reveal_strlit("ae-cbuae:commercial-bank");
        reveal_strlit("ae-cbuae:exchange-house");
        reveal_strlit("ae-cbuae:insurance");
        reveal_strlit("ae-cbuae:islamic-bank");
        reveal_strlit("ae-cbuae:stored-value");
        reveal_strlit("ae-ifza:consultancy");
        reveal_strlit("ae-ifza:e-commerce");
        reveal_strlit("ae-ifza:general-trading");
        reveal_strlit("ae-moec:foreign-company");
        reveal_strlit("ae-sca:fund-manager");
        reveal_strlit("ae-sca:securities-broker");
        assert(a[0].license_type_id[3] != b[0].license_type_id[3]);
        assert(a[0].license_type_id[3] != b[1].license_type_id[3]);
        assert(a[0].license_type_id[3] != b[2].license_type_id[3]);
        assert(a[1].license_type_id[3] != b[0].license_type_id[3]);
        assert(a[1].license_type_id[3] != b[1].license_type_id[3]);
        assert(a[1].license_type_id[3] != b[2].license_type_id[3]);
        assert(a[2].license_type_id[3] != b[0].license_type_id[3]);
        assert(a[2].license_type_id[3] != b[1].license_type_id[3]);
        assert(a[2].license_type_id[3] != b[2].license_type_id[3]);
        assert(a[3].license_type_id[3] != b[0].license_type_id[3]);
        assert(a[3].license_type_id[3] != b[1].license_type_id[3]);
        assert(a[3].license_type_id[3] != b[2].license_type_id[3]);
        assert(a[4].license_type_id[3] != b[0].license_type_id[3]);
        assert(a[4].license_type_id[3] != b[1].license_type_id[3]);
        assert(a[4].license_type_id[3] != b[2].license_type_id[3]);
        assert(a[5].license_type_id[3] != b[0].license_type_id[3]);
        assert(a[5].license_type_id[3] != b[1].license_type_id[3]);
        assert(a[5].license_type_id[3] != b[2].license_type_id[3]);
        assert(a[6].license_type_id[3] != b[0].license_type_id[3]);
        assert(a[6].license_type_id[3] != b[1].license_type_id[3]);
        assert(a[6].license_type_id[3] != b[2].license_type_id[3]);
        assert(a[7].license_type_id[3] != b[0].license_type_id[3]);
        assert(a[7].license_type_id[3] != b[1].license_type_id[3]);
        assert(a[7].license_type_id[3] != b[2].license_type_id[3]);
        reveal_with_fuel(apart_each, 9);
        reveal_with_fuel(id_fresh_each, 4);
    }
    lemma_apart_each(a, b);
}

/// No licence type of `federal_license_types` shares an identifier with one of `dwtc_license_types`.
proof fn lemma_federal_license_types_apart_from_dwtc_license_types()
    ensures
        license_type_ids_apart(spec_federal_license_types(), spec_dwtc_license_types()),
{
    let a = spec_federal_license_types();
    let b = spec_dwtc_license_types();
    assert(apart_each(a, b)) by {
        reveal_strlit("ae-cbuae:commercial-bank");
        reveal_strlit("ae-cbuae:exchange-house");
        reveal_strlit("ae-cbuae:insurance");
        reveal_strlit("ae-cbuae:islamic-bank");
        reveal_strlit("ae-cbuae:stored-value");
        reveal_strlit("ae-dwtc:events");
        reveal_strlit("ae-dwtc:hospitality");
        reveal_strlit("ae-moec:foreign-company");
        reveal_strlit("ae-sca:fund-manager");
        reveal_strlit("ae-sca:securities-broker");
        assert(a[0].license_type_id[3] != b[0].license_type_id[3]);
        assert(a[0].license_type_id[3] != b[1].license_type_id[3]);
        assert(a[1].license_type_id[3] != b[0].license_type_id[3]);
        assert(a[1].license_type_id[3] != b[1].license_type_id[3]);
        assert(a[2].license_type_id[3] != b[0].license_type_id[3]);
        assert(a[2].license_type_id[3] != b[1].license_type_id[3]);
        assert(a[3].license_type_id[3] != b[0].license_type_id[3]);
        assert(a[3].license_type_id[3] != b[1].license_type_id[3]);
        assert(a[4].license_type_id[3] != b[0].license_type_id[3]);
        assert(a[4].license_type_id[3] != b[1].license_type_id[3]);
        assert(a[5].license_type_id[3] != b[0].license_type_id[3]);
        assert(a[5].license_type_id[3] != b[1].license_type_id[3]);
        assert(a[6].license_type_id[3] != b[0].license_type_id[3]);
        assert(a[6].license_type_id[3] != b[1].license_type_id[3]);
        assert(a[7].license_type_id[3] != b[0].license_type_id[3]);
        assert(a[7].license_type_id[3] != b[1].license_type_id[3]);
        reveal_with_fuel(apart_each, 9);
        reveal_with_fuel(id_fresh_each, 3);
    }
    lemma_apart_each(a, b);
}

/// No licence type of `federal_license_types` shares an identifier with one of `dso_license_types`.
proof fn lemma_federal_license_types_apart_from_dso_license_types()
    ensures
        license_type_ids_apart(spec_federal_license_types(), spec_dso_license_types()),
{
    let a = spec_federal_license_types();
    let b = spec_dso_license_types();
    assert(apart_each(a, b)) by {
        reveal_strlit("ae-cbuae:commercial-bank");
        reveal_strlit("ae-cbuae:exchange-house");
        reveal_strlit("ae-cbuae:insurance");
        reveal_strlit("ae-cbuae:islamic-bank");
        reveal_strlit("ae-cbuae:stored-value");
        reveal_strlit("ae-dso:freelancer");
        reveal_strlit("ae-dso:tech");
        reveal_strlit("ae-moec:foreign-company");
        reveal_strlit("ae-sca:fund-manager");
        reveal_strlit("ae-sca:securities-broker");
        assert(a[0].license_type_id[3] != b[0].license_type_id[3]);
        assert(a[0].license_type_id[3] != b[1].license_type_id[3]);
        assert(a[1].license_type_id[3] != b[0].license_type_id[3]);
        assert(a[1].license_type_id[3] != b[1].license_type_id[3]);
        assert(a[2].license_type_id[3] != b[0].license_type_id[3]);
        assert(a[2].license_type_id[3] != b[1].license_type_id[3]);
        assert(a[3].license_type_id[3] != b[0].license_type_id[3]);
        assert(a[3].license_type_id[3] != b[1].license_type_id[3]);
        assert(a[4].license_type_id[3] != b[0].license_type_id[3]);
        assert(a[4].license_type_id[3] != b[1].license_type_id[3]);
        assert(a[5].license_type_id[3] != b[0].license_type_id[3]);
        assert(a[5].license_type_id[3] != b[1].license_type_id[3]);
        assert(a[6].license_type_id[3] != b[0].license_type_id[3]);
        assert(a[6].license_type_id[3] != b[1].license_type_id[3]);
        assert(a[7].license_type_id[3] != b[0].license_type_id[3]);
        assert(a[7].license_type_id[3] != b[1].license_type_id[3]);
        reveal_with_fuel(apart_each, 9);
        reveal_with_fuel(id_fresh_each, 3);
    }
    lemma_apart_each(a, b);
}

/// No licence type of `federal_license_types` shares an identifier with one of `dic_license_types`.
proof fn lemma_federal_license_types_apart_from_dic_license_types()
    ensures
        license_type_ids_apart(spec_federal_license_types(), spec_dic_license_types()),
{
    let a = spec_federal_license_types();
    let b = spec_dic_license_types();
    assert(apart_each(a, b)) by {
        reveal_strlit("ae-cbuae:commercial-bank");
        reveal_strlit("ae-cbuae:exchange-house");
        reveal_strlit("ae-cbuae:insurance");
        reveal_strlit("ae-cbuae:islamic-bank");
        reveal_strlit("ae-cbuae:stored-value");
        reveal_strlit("ae-dic:media");
        reveal_strlit("ae-dic:technology");
        reveal_strlit("ae-moec:foreign-company");
        reveal_strlit("ae-sca:fund-manager");
        reveal_strlit("ae-sca:securities-broker");
        assert(a[0].license_type_id[3] != b[0].license_type_id[3]);
        assert(a[0].license_type_id[3] != b[1].license_type_id[3]);
        assert(a[1].license_type_id[3] != b[0].license_type_id[3]);
        assert(a[1].license_type_id[3] != b[1].license_type_id[3]);
        assert(a[2].license_type_id[3] != b[0].license_type_id[3]);
        assert(a[2].license_type_id[3] != b[1].license_type_id[3]);
        assert(a[3].license_type_id[3] != b[0].license_type_id[3]);
        assert(a[3].license_type_id[3] != b[1].license_type_id[3]);
        assert(a[4].license_type_id[3] != b[0].license_type_id[3]);
        assert(a[4].license_type_id[3] != b[1].license_type_id[3]);
        assert(a[5].license_type_id[3] != b[0].license_type_id[3]);
        assert(a[5].license_type_id[3] != b[1].license_type_id[3]);
        assert(a[6].license_type_id[3] != b[0].license_type_id[3]);
        assert(a[6].license_type_id[3] != b[1].license_type_id[3]);
        assert(a[7].license_type_id[3] != b[0].license_type_id[3]);
        assert(a[7].license_type_id[3] != b[1].license_type_id[3]);
        reveal_with_fuel(apart_each, 9);
        reveal_with_fuel(id_fresh_each, 3);
    }
    lemma_apart_each(a, b);
}

/// No licence type of `federal_license_types` shares an identifier with one of `dhcc_license_types`.
proof fn lemma_federal_license_types_apart_from_dhcc_license_types()
    ensures
        license_type_ids_apart(spec_federal_license_types(), spec_dhcc_license_types()),
{
    let a = spec_federal_license_types();
    let b = spec_dhcc_license_types();
    assert(apart_each(a, b)) by {
        reveal_strlit("ae-cbuae:commercial-bank");
        reveal_strlit("ae-cbuae:exchange-house");
        reveal_strlit("ae-cbuae:insurance");
        reveal_strlit("ae-cbuae:islamic-bank");
        reveal_strlit("ae-cbuae:stored-value");
        reveal_strlit("ae-dhcc:healthcare");
        reveal_strlit("ae-dhcc:pharmaceutical");
        reveal_strlit("ae-moec:foreign-company");
        reveal_strlit("ae-sca:fund-manager");
        reveal_strlit("ae-sca:securities-broker");
        assert(a[0].license_type_id[3] != b[0].license_type_id[3]);
        assert(a[0].license_type_id[3] != b[1].license_type_id[3]);
        assert(a[1].license_type_id[3] != b[0].license_type_id[3]);
        assert(a[1].license_type_id[3] != b[1].license_type_id[3]);
        assert(a[2].license_type_id[3] != b[0].license_type_id[3]);
        assert(a[2].license_type_id[3] != b[1].license_type_id[3]);
        assert(a[3].license_type_id[3] != b[0].license_type_id[3]);
        assert(a[3].license_type_id[3] != b[1].license_type_id[3]);
        assert(a[4].license_type_id[3] != b[0].license_type_id[3]);
        assert(a[4].license_type_id[3] != b[1].license_type_id[3]);
        assert(a[5].license_type_id[3] != b[0].license_type_id[3]);
        assert(a[5].license_type_id[3] != b[1].license_type_id[3]);
        assert(a[6].license_type_id[3] != b[0].license_type_id[3]);
        assert(a[6].license_type_id[3] != b[1].license_type_id[3]);
        assert(a[7].license_type_id[3] != b[0].license_type_id[3]);
        assert(a[7].license_type_id[3] != b[1].license_type_id[3]);
        reveal_with_fuel(apart_each, 9);
        reveal_with_fuel(id_fresh_each, 3);
    }
    lemma_apart_each(a, b);
}

/// No licence type of `federal_license_types` shares an identifier with one of `abudhabi_fz_license_types`.
proof fn lemma_federal_license_types_apart_from_abudhabi_fz_license_types()
    ensures
        license_type_ids_apart(spec_federal_license_types(), spec_abudhabi_fz_license_types()),
{
    let a = spec_federal_license_types();
    let b = spec_abudhabi_fz_license_types();
    assert(apart_each(a, b)) by {
        reveal_strlit("ae-abudhabi-added:trade-license");
        reveal_strlit("ae-cbuae:commercial-bank");
        reveal_strlit("ae-cbuae:exchange-house");
        reveal_strlit("ae-cbuae:insurance");
        reveal_strlit("ae-cbuae:islamic-bank");
        reveal_strlit("ae-cbuae:stored-value");
        reveal_strlit("ae-kezad:industrial");
        reveal_strlit("ae-kezad:logistics");
        reveal_strlit("ae-kizad:industrial");
        reveal_strlit("ae-kizad:trading");
        reveal_strlit("ae-masdar:cleantech");
        reveal_strlit("ae-moec:foreign-company");
        reveal_strlit("ae-sca:fund-manager");
        reveal_strlit("ae-sca:securities-broker");
        reveal_strlit("ae-twofour54:media");
        assert(a[0].license_type_id[3] != b[0].license_type_id[3]);
        assert(a[0].license_type_id[3] != b[1].license_type_id[3]);
        assert(a[0].license_type_id[3] != b[2].license_type_id[3]);
        assert(a[0].license_type_id[3] != b[3].license_type_id[3]);
        assert(a[0].license_type_id[3] != b[4].license_type_id[3]);
        assert(a[0].license_type_id[3] != b[5].license_type_id[3]);
        assert(a[0].license_type_id[3] != b[6].license_type_id[3]);
        assert(a[1].license_type_id[3] != b[0].license_type_id[3]);
        assert(a[1].license_type_id[3] != b[1].license_type_id[3]);
        assert(a[1].license_type_id[3] != b[2].license_type_id[3]);
        assert(a[1].license_type_id[3] != b[3].license_type_id[3]);
        assert(a[1].license_type_id[3] != b[4].license_type_id[3]);
        assert(a[1].license_type_id[3] != b[5].license_type_id[3]);
        assert(a[1].license_type_id[3] != b[6].license_type_id[3]);
        assert(a[2].license_type_id[3] != b[0].license_type_id[3]);
        assert(a[2].license_type_id[3] != b[1].license_type_id[3]);
        assert(a[2].license_type_id[3] != b[2].license_type_id[3]);
        assert(a[2].license_type_id[3] != b[3].license_type_id[3]);
        assert(a[2].license_type_id[3] != b[4].license_type_id[3]);
        assert(a[2].license_type_id[3] != b[5].license_type_id[3]);
        assert(a[2].license_type_id[3] != b[6].license_type_id[3]);
        assert(a[3].license_type_id[3] != b[0].license_type_id[3]);
        assert(a[3].license_type_id[3] != b[1].license_type_id[3]);
        assert(a[3].license_type_id[3] != b[2].license_type_id[3]);
        assert(a[3].license_type_id[3] != b[3].license_type_id[3]);
        assert(a[3].license_type_id[3] != b[4].license_type_id[3]);
        assert(a[3].license_type_id[3] != b[5].license_type_id[3]);
        assert(a[3].license_type_id[3] != b[6].license_type_id[3]);
        assert(a[4].license_type_id[3] != b[0].license_type_id[3]);
        assert(a[4].license_type_id[3] != b[1].license_type_id[3]);
        assert(a[4].license_type_id[3] != b[2].license_type_id[3]);
        assert(a[4].license_type_id[3] != b[3].license_type_id[3]);
        assert(a[4].license_type_id[3] != b[4].license_type_id[3]);
        assert(a[4].license_type_id[3] != b[5].license_type_id[3]);
        assert(a[4].license_type_id[3] != b[6].license_type_id[3]);
        assert(a[5].license_type_id[3] != b[0].license_type_id[3]);
        assert(a[5].license_type_id[3] != b[1].license_type_id[3]);
        assert(a[5].license_type_id[3] != b[2].license_type_id[3]);
        assert(a[5].license_type_id[3] != b[3].license_type_id[3]);
        assert(a[5].license_type_id[3] != b[4].license_type_id[3]);
        assert(a[5].license_type_id[3] != b[5].license_type_id[3]);
        assert(a[5].license_type_id[3] != b[6].license_type_id[3]);
        assert(a[6].license_type_id[3] != b[0].license_type_id[3]);
        assert(a[6].license_type_id[3] != b[1].license_type_id[3]);
        assert(a[6].license_type_id[3] != b[2].license_type_id[3]);
        assert(a[6].license_type_id[3] != b[3].license_type_id[3]);
        assert(a[6].license_type_id[3] != b[4].license_type_id[3]);
        assert(a[6].license_type_id[3] != b[5].license_type_id[3]);
        assert(a[6].license_type_id[3] != b[6].license_type_id[3]);
        assert(a[7].license_type_id[3] != b[0].license_type_id[3]);
        assert(a[7].license_type_id[4] != b[1].license_type_id[4]);
        assert(a[7].license_type_id[3] != b[2].license_type_id[3]);
        assert(a[7].license_type_id[3] != b[3].license_type_id[3]);
        assert(a[7].license_type_id[3] != b[4].license_type_id[3]);
        assert(a[7].license_type_id[3] != b[5].license_type_id[3]);
        assert(a[7].license_type_id[3] != b[6].license_type_id[3]);
        reveal_with_fuel(apart_each, 9);
        reveal_with_fuel(id_fresh_each, 8);
    }
    lemma_apart_each(a, b);
}

/// No licence type of `federal_license_types` shares an identifier with one of `ded_license_types`.
proof fn lemma_federal_license_types_apart_from_ded_license_types()
    ensures
        license_type_ids_apart(spec_federal_license_types(), spec_ded_license_types()),
{
    let a = spec_federal_license_types();
    let b = spec_ded_license_types();
    assert(apart_each(a, b)) by {
        reveal_strlit("ae-cbuae:commercial-bank");
        reveal_strlit("ae-cbuae:exchange-house");
        reveal_strlit("ae-cbuae:insurance");
        reveal_strlit("ae-cbuae:islamic-bank");
        reveal_strlit("ae-cbuae:stored-value");
        reveal_strlit("ae-dubai-ded:commercial");
        reveal_strlit("ae-dubai-ded:industrial");
        reveal_strlit("ae-dubai-ded:professional");
        reveal_strlit("ae-moec:foreign-company");
        reveal_strlit("ae-sca:fund-manager");
        reveal_strlit("ae-sca:securities-broker");
        assert(a[0].license_type_id[3] != b[0].license_type_id[3]);
        assert(a[0].license_type_id[3] != b[1].license_type_id[3]);
        assert(a[0].license_type_id[3] != b[2].license_type_id[3]);
        assert(a[1].license_type_id[3] != b[0].license_type_id[3]);
        assert(a[1].license_type_id[3] != b[1].license_type_id[3]);
        assert(a[1].license_type_id[3] != b[2].license_type_id[3]);
        assert(a[2].license_type_id[3] != b[0].license_type_id[3]);
        assert(a[2].license_type_id[3] != b[1].license_type_id[3]);
        assert(a[2].license_type_id[3] != b[2].license_type_id[3]);
        assert(a[3].license_type_id[3] != b[0].license_type_id[3]);
        assert(a[3].license_type_id[3] != b[1].license_type_id[3]);
        assert(a[3].license_type_id[3] != b[2].license_type_id[3]);
        assert(a[4].license_type_id[3] != b[0].license_type_id[3]);
        assert(a[4].license_type_id[3] != b[1].license_type_id[3]);
        assert(a[4].license_type_id[3] != b[2].license_type_id[3]);
        assert(a[5].license_type_id[3] != b[0].license_type_id[3]);
        assert(a[5].license_type_id[3] != b[1].license_type_id[3]);
        assert(a[5].license_type_id[3] != b[2].license_type_id[3]);
        assert(a[6].license_type_id[3] != b[0].license_type_id[3]);
        assert(a[6].license_type_id[3] != b[1].license_type_id[3]);
        assert(a[6].license_type_id[3] != b[2].license_type_id[3]);
        assert(a[7].license_type_id[3] != b[0].license_type_id[3]);
        assert(a[7].license_type_id[3] != b[1].license_type_id[3]);
        assert(a[7].license_type_id[3] != b[2].license_type_id[3]);
        reveal_with_fuel(apart_each, 9);
        reveal_with_fuel(id_fresh_each, 4);
    }
    lemma_apart_each(a, b);
}

/// No licence type of `adgm_license_types` shares an identifier with one of `difc_license_types`.
proof fn lemma_adgm_license_types_apart_from_difc_license_types()
    ensures
        license_type_ids_apart(spec_adgm_license_types(), spec_difc_license_types()),
{
    let a = spec_adgm_license_types();
    let b = spec_difc_license_types();
    assert(apart_each(a, b)) by {
        reveal_strlit("ae-adgm-fsra:advisory");
        reveal_strlit("ae-adgm-fsra:asset-management");
        reveal_strlit("ae-adgm-fsra:banking");
        reveal_strlit("ae-adgm-fsra:casp");
        reveal_strlit("ae-adgm-fsra:credit-rating");
        reveal_strlit("ae-adgm-fsra:crowdfunding");
        reveal_strlit("ae-adgm-fsra:custody");
        reveal_strlit("ae-adgm-fsra:digital-asset-custodian");
        reveal_strlit("ae-adgm-fsra:digital-asset-exchange");
        reveal_strlit("ae-adgm-fsra:insurance");
        reveal_strlit("ae-adgm-fsra:insurance-broker");
        reveal_strlit("ae-adgm-fsra:venture-capital");
        reveal_strlit("ae-adgm-ra:company");
        reveal_strlit("ae-adgm-ra:foundation");
        reveal_strlit("ae-adgm-ra:spv");
        reveal_strlit("ae-difc-dfsa:asset-management");
        reveal_strlit("ae-difc-dfsa:banking");
        reveal_strlit("ae-difc-dfsa:credit-rating");
        reveal_strlit("ae-difc-dfsa:crowdfunding");
        reveal_strlit("ae-difc-dfsa:custody");
        reveal_strlit("ae-difc-dfsa:digital-asset-custodian");
        reveal_strlit("ae-difc-dfsa:digital-asset-exchange");
        reveal_strlit("ae-difc-dfsa:insurance");
        reveal_strlit("ae-difc-dfsa:insurance-broker");
        reveal_strlit("ae-difc-dfsa:money-services");
        reveal_strlit("ae-difc-dfsa:securities-broker");
        reveal_strlit("ae-difc-roc:company");
        reveal_strlit("ae-difc-roc:foundation");
        reveal_strlit("ae-difc-roc:spv");
        assert(a[0].license_type_id[3] != b[0].license_type_id[3]);
        assert(a[0].license_type_id[3] != b[1].license_type_id[3]);
        assert(a[0].license_type_id[3] != b[2].license_type_id[3]);
        assert(a[0].license_type_id[3] != b[3].license_type_id[3]);
        assert(a[0].license_type_id[3] != b[4].license_type_id[3]);
        assert(a[0].license_type_id[3] != b[5].license_type_id[3]);
        assert(a[0].license_type_id[3] != b[6].license_type_id[3]);
        assert(a[0].license_type_id[3] != b[7].license_type_id[3]);
        assert(a[0].license_type_id[3] != b[8].license_type_id[3]);
        assert(a[0].license_type_id[3] != b[9].license_type_id[3]);
        assert(a[0].license_type_id[3] != b[10].license_type_id[3]);
        assert(a[0].license_type_id[3] != b[11].license_type_id[3]);
        assert(a[0].license_type_id[3] != b[12].license_type_id[3]);
        assert(a[0].license_type_id[3] != b[13].license_type_id[3]);
        assert(a[1].license_type_id[3] != b[0].license_type_id[3]);
        assert(a[1].license_type_id[3] != b[1].license_type_id[3]);
        assert(a[1].license_type_id[3] != b[2].license_type_id[3]);
        assert(a[1].license_type_id[3] != b[3].license_type_id[3]);
        assert(a[1].license_type_id[3] != b[4].license_type_id[3]);
        assert(a[1].license_type_id[3] != b[5].license_type_id[3]);
        assert(a[1].license_type_id[3] != b[6].license_type_id[3]);
        assert(a[1].license_type_id[3] != b[7].license_type_id[3]);
        assert(a[1].license_type_id[3] != b[8].license_type_id[3]);
        assert(a[1].license_type_id[3] != b[9].license_type_id[3]);
        assert(a[1].license_type_id[3] != b[10].license_type_id[3]);
        assert(a[1].license_type_id[3] != b[11].license_type_id[3]);
        assert(a[1].license_type_id[3] != b[12].license_type_id[3]);
        assert(a[1].license_type_id[3] != b[13].license_type_id[3]);
        assert(a[2].license_type_id[3] != b[0].license_type_id[3]);
        assert(a[2].license_type_id[3] != b[1].license_type_id[3]);
        assert(a[2].license_type_id[3] != b[2].license_type_id[3]);
        assert(a[2].license_type_id[3] != b[3].license_type_id[3]);
        assert(a[2].license_type_id[3] != b[4].license_type_id[3]);
        assert(a[2].license_type_id[3] != b[5].license_type_id[3]);
        assert(a[2].license_type_id[3] != b[6].license_type_id[3]);
        assert(a[2].license_type_id[3] != b[7].license_type_id[3]);
        assert(a[2].license_type_id[3] != b[8].license_type_id[3]);
        assert(a[2].license_type_id[3] != b[9].license_type_id[3]);
        assert(a[2].license_type_id[3] != b[10].license_type_id[3]);
        assert(a[2].license_type_id[3] != b[11].license_type_id[3]);
        assert(a[2].license_type_id[3] != b[12].license_type_id[3]);
        assert(a[2].license_type_id[3] != b[13].license_type_id[3]);
        assert(a[3].license_type_id[3] != b[0].license_type_id[3]);
        assert(a[3].license_type_id[3] != b[1].license_type_id[3]);
        assert(a[3].license_type_id[3] != b[2].license_type_id[3]);
        assert(a[3].license_type_id[3] != b[3].license_type_id[3]);
        assert(a[3].license_type_id[3] != b[4].license_type_id[3]);
        assert(a[3].license_type_id[3] != b[5].license_type_id[3]);
        assert(a[3].license_type_id[3] != b[6].license_type_id[3]);
        assert(a[3].license_type_id[3] != b[7].license_type_id[3]);
        assert(a[3].license_type_id[3] != b[8].license_type_id[3]);
        assert(a[3].license_type_id[3] != b[9].license_type_id[3]);
        assert(a[3].license_type_id[3] != b[10].license_type_id[3]);
        assert(a[3].license_type_id[3] != b[11].license_type_id[3]);
        assert(a[3].license_type_id[3] != b[12].license_type_id[3]);
        assert(a[3].license_type_id[3] != b[13].license_type_id[3]);
        assert(a[4].license_type_id[3] != b[0].license_type_id[3]);
        assert(a[4].license_type_id[3] != b[1].license_type_id[3]);
        assert(a[4].license_type_id[3] != b[2].license_type_id[3]);
        assert(a[4].license_type_id[3] != b[3].license_type_id[3]);
        assert(a[4].license_type_id[3] != b[4].license_type_id[3]);
        assert(a[4].license_type_id[3] != b[5].license_type_id[3]);
        assert(a[4].license_type_id[3] != b[6].license_type_id[3]);
        assert(a[4].license_type_id[3] != b[7].license_type_id[3]);
        assert(a[4].license_type_id[3] != b[8].license_type_id[3]);
        assert(a[4].license_type_id[3] != b[9].license_type_id[3]);
        assert(a[4].license_type_id[3] != b[10].license_type_id[3]);
        assert(a[4].license_type_id[3] != b[11].license_type_id[3]);
        assert(a[4].license_type_id[3] != b[12].license_type_id[3]);
        assert(a[4].license_type_id[3] != b[13].license_type_id[3]);
        assert(a[5].license_type_id[3] != b[0].license_type_id[3]);
        assert(a[5].license_type_id[3] != b[1].license_type_id[3]);
        assert(a[5].license_type_id[3] != b[2].license_type_id[3]);
        assert(a[5].license_type_id[3] != b[3].license_type_id[3]);
        assert(a[5].license_type_id[3] != b[4].license_type_id[3]);
        assert(a[5].license_type_id[3] != b[5].license_type_id[3]);
        assert(a[5].license_type_id[3] != b[6].license_type_id[3]);
        assert(a[5].license_type_id[3] != b[7].license_type_id[3]);
        assert(a[5].license_type_id[3] != b[8].license_type_id[3]);
        assert(a[5].license_type_id[3] != b[9].license_type_id[3]);
        assert(a[5].license_type_id[3] != b[10].license_type_id[3]);
        assert(a[5].license_type_id[3] != b[11].license_type_id[3]);
        assert(a[5].license_type_id[3] != b[12].license_type_id[3]);
        assert(a[5].license_type_id[3] != b[13].license_type_id[3]);
        assert(a[6].license_type_id[3] != b[0].license_type_id[3]);
        assert(a[6].license_type_id[3] != b[1].license_type_id[3]);
        assert(a[6].license_type_id[3] != b[2].license_type_id[3]);
        assert(a[6].license_type_id[3] != b[3].license_type_id[3]);
        assert(a[6].license_type_id[3] != b[4].license_type_id[3]);
        assert(a[6].license_type_id[3] != b[5].license_type_id[3]);
        assert(a[6].license_type_id[3] != b[6].license_type_id[3]);
        assert(a[6].license_type_id[3] != b[7].license_type_id[3]);
        assert(a[6].license_type_id[3] != b[8].license_type_id[3]);
        assert(a[6].license_type_id[3] != b[9].license_type_id[3]);
        assert(a[6].license_type_id[3] != b[10].license_type_id[3]);
        assert(a[6].license_type_id[3] != b[11].license_type_id[3]);
        assert(a[6].license_type_id[3] != b[12].license_type_id[3]);
        assert(a[6].license_type_id[3] != b[13].license_type_id[3]);
        assert(a[7].license_type_id[3] != b[0].license_type_id[3]);
        assert(a[7].license_type_id[3] != b[1].license_type_id[3]);
        assert(a[7].license_type_id[3] != b[2].license_type_id[3]);
        assert(a[7].license_type_id[3] != b[3].license_type_id[3]);
        assert(a[7].license_type_id[3] != b[4].license_type_id[3]);
        assert(a[7].license_type_id[3] != b[5].license_type_id[3]);
        assert(a[7].license_type_id[3] != b[6].license_type_id[3]);
        assert(a[7].license_type_id[3] != b[7].license_type_id[3]);
        assert(a[7].license_type_id[3] != b[8].license_type_id[3]);
        assert(a[7].license_type_id[3] != b[9].license_type_id[3]);
        assert(a[7].license_type_id[3] != b[10].license_type_id[3]);
        assert(a[7].license_type_id[3] != b[11].license_type_id[3]);
        assert(a[7].license_type_id[3] != b[12].license_type_id[3]);
        assert(a[7].license_type_id[3] != b[13].license_type_id[3]);
        assert(a[8].license_type_id[3] != b[0].license_type_id[3]);
        assert(a[8].license_type_id[3] != b[1].license_type_id[3]);
        assert(a[8].license_type_id[3] != b[2].license_type_id[3]);
        assert(a[8].license_type_id[3] != b[3].license_type_id[3]);
        assert(a[8].license_type_id[3] != b[4].license_type_id[3]);
        assert(a[8].license_type_id[3] != b[5].license_type_id[3]);
        assert(a[8].license_type_id[3] != b[6].license_type_id[3]);
        assert(a[8].license_type_id[3] != b[7].license_type_id[3]);
        assert(a[8].license_type_id[3] != b[8].license_type_id[3]);
        assert(a[8].license_type_id[3] != b[9].license_type_id[3]);
        assert(a[8].license_type_id[3] != b[10].license_type_id[3]);
        assert(a[8].license_type_id[3] != b[11].license_type_id[3]);
        assert(a[8].license_type_id[3] != b[12].license_type_id[3]);
        assert(a[8].license_type_id[3] != b[13].license_type_id[3]);
        assert(a[9].license_type_id[3] != b[0].license_type_id[3]);
        assert(a[9].license_type_id[3] != b[1].license_type_id[3]);
        assert(a[9].license_type_id[3] != b[2].license_type_id[3]);
        assert(a[9].license_type_id[3] != b[3].license_type_id[3]);
        assert(a[9].license_type_id[3] != b[4].license_type_id[3]);
        assert(a[9].license_type_id[3] != b[5].license_type_id[3]);
        assert(a[9].license_type_id[3] != b[6].license_type_id[3]);
        assert(a[9].license_type_id[3] != b[7].license_type_id[3]);
        assert(a[9].license_type_id[3] != b[8].license_type_id[3]);
        assert(a[9].license_type_id[3] != b[9].license_type_id[3]);
        assert(a[9].license_type_id[3] != b[10].license_type_id[3]);
        assert(a[9].license_type_id[3] != b[11].license_type_id[3]);
        assert(a[9].license_type_id[3] != b[12].license_type_id[3]);
        assert(a[9].license_type_id[3] != b[13].license_type_id[3]);
        assert(a[10].license_type_id[3] != b[0].license_type_id[3]);
        assert(a[10].license_type_id[3] != b[1].license_type_id[3]);
        assert(a[10].license_type_id[3] != b[2].license_type_id[3]);
        assert(a[10].license_type_id[3] != b[3].license_type_id[3]);
        assert(a[10].license_type_id[3] != b[4].license_type_id[3]);
        assert(a[10].license_type_id[3] != b[5].license_type_id[3]);
        assert(a[10].license_type_id[3] != b[6].license_type_id[3]);
        assert(a[10].license_type_id[3] != b[7].license_type_id[3]);
        assert(a[10].license_type_id[3] != b[8].license_type_id[3]);
        assert(a[10].license_type_id[3] != b[9].license_type_id[3]);
        assert(a[10].license_type_id[3] != b[10].license_type_id[3]);
        assert(a[10].license_type_id[3] != b[11].license_type_id[3]);
        assert(a[10].license_type_id[3] != b[12].license_type_id[3]);
        assert(a[10].license_type_id[3] != b[13].license_type_id[3]);
        assert(a[11].license_type_id[3] != b[0].license_type_id[3]);
        assert(a[11].license_type_id[3] != b[1].license_type_id[3]);
        assert(a[11].license_type_id[3] != b[2].license_type_id[3]);
        assert(a[11].license_type_id[3] != b[3].license_type_id[3]);
        assert(a[11].license_type_id[3] != b[4].license_type_id[3]);
        assert(a[11].license_type_id[3] != b[5].license_type_id[3]);
        assert(a[11].license_type_id[3] != b[6].license_type_id[3]);
        assert(a[11].license_type_id[3] != b[7].license_type_id[3]);
        assert(a[11].license_type_id[3] != b[8].license_type_id[3]);
        assert(a[11].license_type_id[3] != b[9].license_type_id[3]);
        assert(a[11].license_type_id[3] != b[10].license_type_id[3]);
        assert(a[11].license_type_id[3] != b[11].license_type_id[3]);
        assert(a[11].license_type_id[3] != b[12].license_type_id[3]);
        assert(a[11].license_type_id[3] != b[13].license_type_id[3]);
        assert(a[12].license_type_id[3] != b[0].license_type_id[3]);
        assert(a[12].license_type_id[3] != b[1].license_type_id[3]);
        assert(a[12].license_type_id[3] != b[2].license_type_id[3]);
        assert(a[12].license_type_id[3] != b[3].license_type_id[3]);
        assert(a[12].license_type_id[3] != b[4].license_type_id[3]);
        assert(a[12].license_type_id[3] != b[5].license_type_id[3]);
        assert(a[12].license_type_id[3] != b[6].license_type_id[3]);
        assert(a[12].license_type_id[3] != b[7].license_type_id[3]);
        assert(a[12].license_type_id[3] != b[8].license_type_id[3]);
        assert(a[12].license_type_id[3] != b[9].license_type_id[3]);
        assert(a[12].license_type_id[3] != b[10].license_type_id[3]);
        assert(a[12].license_type_id[3] != b[11].license_type_id[3]);
        assert(a[12].license_type_id[3] != b[12].license_type_id[3]);
        assert(a[12].license_type_id[3] != b[13].license_type_id[3]);
        assert(a[13].license_type_id[3] != b[0].license_type_id[3]);
        assert(a[13].license_type_id[3] != b[1].license_type_id[3]);
        assert(a[13].license_type_id[3] != b[2].license_type_id[3]);
        assert(a[13].license_type_id[3] != b[3].license_type_id[3]);
        assert(a[13].license_type_id[3] != b[4].license_type_id[3]);
        assert(a[13].license_type_id[3] != b[5].license_type_id[3]);
        assert(a[13].license_type_id[3] != b[6].license_type_id[3]);
        assert(a[13].license_type_id[3] != b[7].license_type_id[3]);
        assert(a[13].license_type_id[3] != b[8].license_type_id[3]);
        assert(a[13].license_type_id[3] != b[9].license_type_id[3]);
        assert(a[13].license_type_id[3] != b[10].license_type_id[3]);
        assert(a[13].license_type_id[3] != b[11].license_type_id[3]);
        assert(a[13].license_type_id[3] != b[12].license_type_id[3]);
        assert(a[13].license_type_id[3] != b[13].license_type_id[3]);
        assert(a[14].license_type_id[3] != b[0].license_type_id[3]);
        assert(a[14].license_type_id[3] != b[1].license_type_id[3]);
        assert(a[14].license_type_id[3] != b[2].license_type_id[3]);
        assert(a[14].license_type_id[3] != b[3].license_type_id[3]);
        assert(a[14].license_type_id[3] != b[4].license_type_id[3]);
        assert(a[14].license_type_id[3] != b[5].license_type_id[3]);
        assert(a[14].license_type_id[3] != b[6].license_type_id[3]);
        assert(a[14].license_type_id[3] != b[7].license_type_id[3]);
        assert(a[14].license_type_id[3] != b[8].license_type_id[3]);
        assert(a[14].license_type_id[3] != b[9].license_type_id[3]);
        assert(a[14].license_type_id[3] != b[10].license_type_id[3]);
        assert(a[14].license_type_id[3] != b[11].license_type_id[3]);
        assert(a[14].license_type_id[3] != b[12].license_type_id[3]);
        assert(a[14].license_type_id[3] != b[13].license_type_id[3]);
        reveal_with_fuel(apart_each, 16);
        reveal_with_fuel(id_fresh_each, 15);
    }
    lemma_apart_each(a, b);
}

/// No licence type of `adgm_license_types` shares an identifier with one of `dmcc_license_types`.
proof fn lemma_adgm_license_types_apart_from_dmcc_license_types()
    ensures
        license_type_ids_apart(spec_adgm_license_types(), spec_dmcc_license_types()),
{
    let a = spec_adgm_license_types();
    let b = spec_dmcc_license_types();
    assert(apart_each(a, b)) by {
        reveal_strlit("ae-adgm-fsra:advisory");
        reveal_strlit("ae-adgm-fsra:asset-management");
        reveal_strlit("ae-adgm-fsra:banking");
        reveal_strlit("ae-adgm-fsra:casp");
        reveal_strlit("ae-adgm-fsra:credit-rating");
        reveal_strlit("ae-adgm-fsra:crowdfunding");
        reveal_strlit("ae-adgm-fsra:custody");
        reveal_strlit("ae-adgm-fsra:digital-asset-custodian");
        reveal_strlit("ae-adgm-fsra:digital-asset-exchange");
        reveal_strlit("ae-adgm-fsra:insurance");
        reveal_strlit("ae-adgm-fsra:insurance-broker");
        reveal_strlit("ae-adgm-fsra:venture-capital");
        reveal_strlit("ae-adgm-ra:company");
        reveal_strlit("ae-adgm-ra:foundation");
        reveal_strlit("ae-adgm-ra:spv");
        reveal_strlit("ae-dmcc:casp");
        reveal_strlit("ae-dmcc:diamond-trading");
        reveal_strlit("ae-dmcc:precious-metals");
        reveal_strlit("ae-dmcc:trade-license");
        assert(a[0].license_type_id[3] != b[0].license_type_id[3]);
        assert(a[0].license_type_id[3] != b[1].license_type_id[3]);
        assert(a[0].license_type_id[3] != b[2].license_type_id[3]);
        assert(a[0].license_type_id[3] != b[3].license_type_id[3]);
        assert(a[1].license_type_id[3] != b[0].license_type_id[3]);
        assert(a[1].license_type_id[3] != b[1].license_type_id[3]);
        assert(a[1].license_type_id[3] != b[2].license_type_id[3]);
        assert(a[1].license_type_id[3] != b[3].license_type_id[3]);
        assert(a[2].license_type_id[3] != b[0].license_type_id[3]);
        assert(a[2].license_type_id[3] != b[1].license_type_id[3]);
        assert(a[2].license_type_id[3] != b[2].license_type_id[3]);
        assert(a[2].license_type_id[3] != b[3].license_type_id[3]);
        assert(a[3].license_type_id[3] != b[0].license_type_id[3]);
        assert(a[3].license_type_id[3] != b[1].license_type_id[3]);
        assert(a[3].license_type_id[3] != b[2].license_type_id[3]);
        assert(a[3].license_type_id[3] != b[3].license_type_id[3]);
        assert(a[4].license_type_id[3] != b[0].license_type_id[3]);
        assert(a[4].license_type_id[3] != b[1].license_type_id[3]);
        assert(a[4].license_type_id[3] != b[2].license_type_id[3]);
        assert(a[4].license_type_id[3] != b[3].license_type_id[3]);
        assert(a[5].license_type_id[3] != b[0].license_type_id[3]);
        assert(a[5].license_type_id[3] != b[1].license_type_id[3]);
        assert(a[5].license_type_id[3] != b[2].license_type_id[3]);
        assert(a[5].license_type_id[3] != b[3].license_type_id[3]);
        assert(a[6].license_type_id[3] != b[0].license_type_id[3]);
        assert(a[6].license_type_id[3] != b[1].license_type_id[3]);
        assert(a[6].license_type_id[3] != b[2].license_type_id[3]);
        assert(a[6].license_type_id[3] != b[3].license_type_id[3]);
        assert(a[7].license_type_id[3] != b[0].license_type_id[3]);
        assert(a[7].license_type_id[3] != b[1].license_type_id[3]);
        assert(a[7].license_type_id[3] != b[2].license_type_id[3]);
        assert(a[7].license_type_id[3] != b[3].license_type_id[3]);
        assert(a[8].license_type_id[3] != b[0].license_type_id[3]);
        assert(a[8].license_type_id[3] != b[1].license_type_id[3]);
        assert(a[8].license_type_id[3] != b[2].license_type_id[3]);
        assert(a[8].license_type_id[3] != b[3].license_type_id[3]);
        assert(a[9].license_type_id[3] != b[0].license_type_id[3]);
        assert(a[9].license_type_id[3] != b[1].license_type_id[3]);
        assert(a[9].license_type_id[3] != b[2].license_type_id[3]);
        assert(a[9].license_type_id[3] != b[3].license_type_id[3]);
        assert(a[10].license_type_id[3] != b[0].license_type_id[3]);
        assert(a[10].license_type_id[3] != b[1].license_type_id[3]);
        assert(a[10].license_type_id[3] != b[2].license_type_id[3]);
        assert(a[10].license_type_id[3] != b[3].license_type_id[3]);
        assert(a[11].license_type_id[3] != b[0].license_type_id[3]);
        assert(a[11].license_type_id[3] != b[1].license_type_id[3]);
        assert(a[11].license_type_id[3] != b[2].license_type_id[3]);
        assert(a[11].license_type_id[3] != b[3].license_type_id[3]);
        assert(a[12].license_type_id[3] != b[0].license_type_id[3]);
        assert(a[12].license_type_id[3] != b[1].license_type_id[3]);
        assert(a[12].license_type_id[3] != b[2].license_type_id[3]);
        assert(a[12].license_type_id[3] != b[3].license_type_id[3]);
        assert(a[13].license_type_id[3] != b[0].license_type_id[3]);
        assert(a[13].license_type_id[3] != b[1].license_type_id[3]);
        assert(a[13].license_type_id[3] != b[2].license_type_id[3]);
        assert(a[13].license_type_id[3] != b[3].license_type_id[3]);
        assert(a[14].license_type_id[3] != b[0].license_type_id[3]);
        assert(a[14].license_type_id[3] != b[1].license_type_id[3]);
        assert(a[14].license_type_id[3] != b[2].license_type_id[3]);
        assert(a[14].license_type_id[3] != b[3].license_type_id[3]);
        reveal_with_fuel(apart_each, 16);
        reveal_with_fuel(id_fresh_each, 5);
    }
    lemma_apart_each(a, b);
}

/// No licence type of `adgm_license_types` shares an identifier with one of `jafza_license_types`.
proof fn lemma_adgm_license_types_apart_from_jafza_license_types()
    ensures
        license_type_ids_apart(spec_adgm_license_types(), spec_jafza_license_types()),
{
    let a = spec_adgm_license_types();
    let b = spec_jafza_license_types();
    assert(apart_each(a, b)) by {
        reveal_strlit("ae-adgm-fsra:advisory");
        reveal_strlit("ae-adgm-fsra:asset-management");
        reveal_strlit("ae-adgm-fsra:banking");
        reveal_strlit("ae-adgm-fsra:casp");
        reveal_strlit("ae-adgm-fsra:credit-rating");
        reveal_strlit("ae-adgm-fsra:crowdfunding");
        reveal_strlit("ae-adgm-fsra:custody");
        reveal_strlit("ae-adgm-fsra:digital-asset-custodian");
        reveal_strlit("ae-adgm-fsra:digital-asset-exchange");
        reveal_strlit("ae-adgm-fsra:insurance");
        reveal_strlit("ae-adgm-fsra:insurance-broker");
        reveal_strlit("ae-adgm-fsra:venture-capital");
        reveal_strlit("ae-adgm-ra:company");
        reveal_strlit("ae-adgm-ra:foundation");
        reveal_strlit("ae-adgm-ra:spv");
        reveal_strlit("ae-jafza:industrial");
        reveal_strlit("ae-jafza:logistics");
        reveal_strlit("ae-jafza:services");
        reveal_strlit("ae-jafza:trading");
        assert(a[0].license_type_id[3] != b[0].license_type_id[3]);
        assert(a[0].license_type_id[3] != b[1].license_type_id[3]);
        assert(a[0].license_type_id[3] != b[2].license_type_id[3]);
        assert(a[0].license_type_id[3] != b[3].license_type_id[3]);
        assert(a[1].license_type_id[3] != b[0].license_type_id[3]);
        assert(a[1].license_type_id[3] != b[1].license_type_id[3]);
        assert(a[1].license_type_id[3] != b[2].license_type_id[3]);
        assert(a[1].license_type_id[3] != b[3].license_type_id[3]);
        assert(a[2].license_type_id[3] != b[0].license_type_id[3]);
        assert(a[2].license_type_id[3] != b[1].license_type_id[3]);
        assert(a[2].license_type_id[3] != b[2].license_type_id[3]);
        assert(a[2].license_type_id[3] != b[3].license_type_id[3]);
        assert(a[3].license_type_id[3] != b[0].license_type_id[3]);
        assert(a[3].license_type_id[3] != b[1].license_type_id[3]);
        assert(a[3].license_type_id[3] != b[2].license_type_id[3]);
        assert(a[3].license_type_id[3] != b[3].license_type_id[3]);
        assert(a[4].license_type_id[3] != b[0].license_type_id[3]);
        assert(a[4].license_type_id[3] != b[1].license_type_id[3]);
        assert(a[4].license_type_id[3] != b[2].license_type_id[3]);
        assert(a[4].license_type_id[3] != b[3].license_type_id[3]);
        assert(a[5].license_type_id[3] != b[0].license_type_id[3]);
        assert(a[5].license_type_id[3] != b[1].license_type_id[3]);
        assert(a[5].license_type_id[3] != b[2].license_type_id[3]);
        assert(a[5].license_type_id[3] != b[3].license_type_id[3]);
        assert(a[6].license_type_id[3] != b[0].license_type_id[3]);
        assert(a[6].license_type_id[3] != b[1].license_type_id[3]);
        assert(a[6].license_type_id[3] != b[2].license_type_id[3]);
        assert(a[6].license_type_id[3] != b[3].license_type_id[3]);
        assert(a[7].license_type_id[3] != b[0].license_type_id[3]);
        assert(a[7].license_type_id[3] != b[1].license_type_id[3]);
        assert(a[7].license_type_id[3] != b[2].license_type_id[3]);
        assert(a[7].license_type_id[3] != b[3].license_type_id[3]);
        assert(a[8].license_type_id[3] != b[0].license_type_id[3]);
        assert(a[8].license_type_id[3] != b[1].license_type_id[3]);
        assert(a[8].license_type_id[3] != b[2].license_type_id[3]);
        assert(a[8].license_type_id[3] != b[3].license_type_id[3]);
        assert(a[9].license_type_id[3] != b[0].license_type_id[3]);
        assert(a[9].license_type_id[3] != b[1].license_type_id[3]);
        assert(a[9].license_type_id[3] != b[2].license_type_id[3]);
        assert(a[9].license_type_id[3] != b[3].license_type_id[3]);
        assert(a[10].license_type_id[3] != b[0].license_type_id[3]);
        assert(a[10].license_type_id[3] != b[1].license_type_id[3]);
        assert(a[10].license_type_id[3] != b[2].license_type_id[3]);
        assert(a[10].license_type_id[3] != b[3].license_type_id[3]);
        assert(a[11].license_type_id[3] != b[0].license_type_id[3]);
        assert(a[11].license_type_id[3] != b[1].license_type_id[3]);
        assert(a[11].license_type_id[3] != b[2].license_type_id[3]);
        assert(a[11].license_type_id[3] != b[3].license_type_id[3]);
        assert(a[12].license_type_id[3] != b[0].license_type_id[3]);
        assert(a[12].license_type_id[3] != b[1].license_type_id[3]);
        assert(a[12].license_type_id[3] != b[2].license_type_id[3]);
        assert(a[12].license_type_id[3] != b[3].license_type_id[3]);
        assert(a[13].license_type_id[3] != b[0].license_type_id[3]);
        assert(a[13].license_type_id[3] != b[1].license_type_id[3]);
        assert(a[13].license_type_id[3] != b[2].license_type_id[3]);
        assert(a[13].license_type_id[3] != b[3].license_type_id[3]);
        assert(a[14].license_type_id[3] != b[0].license_type_id[3]);
        assert(a[14].license_type_id[3] != b[1].license_type_id[3]);
        assert(a[14].license_type_id[3] != b[2].license_type_id[3]);
        assert(a[14].license_type_id[3] != b[3].license_type_id[3]);
        reveal_with_fuel(apart_each, 16);
        reveal_with_fuel(id_fresh_each, 5);
    }
    lemma_apart_each(a, b);
}

/// No licence type of `adgm_license_types` shares an identifier with one of `ifza_license_types`.
proof fn lemma_adgm_license_types_apart_from_ifza_license_types()
    ensures
        license_type_ids_apart(spec_adgm_license_types(), spec_ifza_license_types()),
{
    let a = spec_adgm_license_types();
    let b = spec_ifza_license_types();
    assert(apart_each(a, b)) by {
        reveal_strlit("ae-adgm-fsra:advisory");
        reveal_strlit("ae-adgm-fsra:asset-management");
        reveal_strlit("ae-adgm-fsra:banking");
        reveal_strlit("ae-adgm-fsra:casp");
        reveal_strlit("ae-adgm-fsra:credit-rating");
        reveal_strlit("ae-adgm-fsra:crowdfunding");
        reveal_strlit("ae-adgm-fsra:custody");
        reveal_strlit("ae-adgm-fsra:digital-asset-custodian");
        reveal_strlit("ae-adgm-fsra:digital-asset-exchange");
        reveal_strlit("ae-adgm-fsra:insurance");
        reveal_strlit("ae-adgm-fsra:insurance-broker");
        reveal_strlit("ae-adgm-fsra:venture-capital");
        reveal_strlit("ae-adgm-ra:company");
        reveal_strlit("ae-adgm-ra:foundation");
        reveal_strlit("ae-adgm-ra:spv");
        reveal_strlit("ae-ifza:consultancy");
        reveal_strlit("ae-ifza:e-commerce");
        reveal_strlit("ae-ifza:general-trading");
        assert(a[0].license_type_id[3] != b[0].license_type_id[3]);
        assert(a[0].license_type_id[3] != b[1].license_type_id[3]);
        assert(a[0].license_type_id[3] != b[2].license_type_id[3]);
        assert(a[1].license_type_id[3] != b[0].license_type_id[3]);
        assert(a[1].license_type_id[3] != b[1].license_type_id[3]);
        assert(a[1].license_type_id[3] != b[2].license_type_id[3]);
        assert(a[2].license_type_id[3] != b[0].license_type_id[3]);
        assert(a[2].license_type_id[3] != b[1].license_type_id[3]);
        assert(a[2].license_type_id[3] != b[2].license_type_id[3]);
        assert(a[3].license_type_id[3] != b[0].license_type_id[3]);
        assert(a[3].license_type_id[3] != b[1].license_type_id[3]);
        assert(a[3].license_type_id[3] != b[2].license_type_id[3]);
        assert(a[4].license_type_id[3] != b[0].license_type_id[3]);
        assert(a[4].license_type_id[3] != b[1].license_type_id[3]);
        assert(a[4].license_type_id[3] != b[2].license_type_id[3]);
        assert(a[5].license_type_id[3] != b[0].license_type_id[3]);
        assert(a[5].license_type_id[3] != b[1].license_type_id[3]);
        assert(a[5].license_type_id[3] != b[2].license_type_id[3]);
        assert(a[6].license_type_id[3] != b[0].license_type_id[3]);
        assert(a[6].license_type_id[3] != b[1].license_type_id[3]);
        assert(a[6].license_type_id[3] != b[2].license_type_id[3]);
        assert(a[7].license_type_id[3] != b[0].license_type_id[3]);
        assert(a[7].license_type_id[3] != b[1].license_type_id[3]);
        assert(a[7].license_type_id[3] != b[2].license_type_id[3]);
        assert(a[8].license_type_id[3] != b[0].license_type_id[3]);
        assert(a[8].license_type_id[3] != b[1].license_type_id[3]);
        assert(a[8].license_type_id[3] != b[2].license_type_id[3]);
        assert(a[9].license_type_id[3] != b[0].license_type_id[3]);
        assert(a[9].license_type_id[3] != b[1].license_type_id[3]);
        assert(a[9].license_type_id[3] != b[2].license_type_id[3]);
        assert(a[10].license_type_id[3] != b[0].license_type_id[3]);
        assert(a[10].license_type_id[3] != b[1].license_type_id[3]);
        assert(a[10].license_type_id[3] != b[2].license_type_id[3]);
        assert(a[11].license_type_id[3] != b[0].license_type_id[3]);
        assert(a[11].license_type_id[3] != b[1].license_type_id[3]);
        assert(a[11].license_type_id[3] != b[2].license_type_id[3]);
        assert(a[12].license_type_id[3] != b[0].license_type_id[3]);
        assert(a[12].license_type_id[3] != b[1].license_type_id[3]);
        assert(a[12].license_type_id[3] != b[2].license_type_id[3]);
        assert(a[13].license_type_id[3] != b[0].license_type_id[3]);
        assert(a[13].license_type_id[3] != b[1].license_type_id[3]);
        assert(a[13].license_type_id[3] != b[2].license_type_id[3]);
        assert(a[14].license_type_id[3] != b[0].license_type_id[3]);
        assert(a[14].license_type_id[3] != b[1].license_type_id[3]);
        assert(a[14].license_type_id[3] != b[2].license_type_id[3]);
        reveal_with_fuel(apart_each, 16);
        reveal_with_fuel(id_fresh_each, 4);
    }
    lemma_apart_each(a, b);
}

/// No licence type of `adgm_license_types` shares an identifier with one of `dwtc_license_types`.
proof fn lemma_adgm_license_types_apart_from_dwtc_license_types()
    ensures
        license_type_ids_apart(spec_adgm_license_types(), spec_dwtc_license_types()),
{
    let a = spec_adgm_license_types();
    let b = spec_dwtc_license_types();
    assert(apart_each(a, b)) by {
        reveal_strlit("ae-adgm-fsra:advisory");
        reveal_strlit("ae-adgm-fsra:asset-management");
        reveal_strlit("ae-adgm-fsra:banking");
        reveal_strlit("ae-adgm-fsra:casp");
        reveal_strlit("ae-adgm-fsra:credit-rating");
        reveal_strlit("ae-adgm-fsra:crowdfunding");
        reveal_strlit("ae-adgm-fsra:custody");
        reveal_strlit("ae-adgm-fsra:digital-asset-custodian");
        reveal_strlit("ae-adgm-fsra:digital-asset-exchange");
        reveal_strlit("ae-adgm-fsra:insurance");
        reveal_strlit("ae-adgm-fsra:insurance-broker");
        reveal_strlit("ae-adgm-fsra:venture-capital");
        reveal_strlit("ae-adgm-ra:company");
        reveal_strlit("ae-adgm-ra:foundation");
        reveal_strlit("ae-adgm-ra:spv");
        reveal_strlit("ae-dwtc:events");
        reveal_strlit("ae-dwtc:hospitality");
        assert(a[0].license_type_id[3] != b[0].license_type_id[3]);
        assert(a[0].license_type_id[3] != b[1].license_type_id[3]);
        assert(a[1].license_type_id[3] != b[0].license_type_id[3]);
        assert(a[1].license_type_id[3] != b[1].license_type_id[3]);
        assert(a[2].license_type_id[3] != b[0].license_type_id[3]);
        assert(a[2].license_type_id[3] != b[1].license_type_id[3]);
        assert(a[3].license_type_id[3] != b[0].license_type_id[3]);
        assert(a[3].license_type_id[3] != b[1].license_type_id[3]);
        assert(a[4].license_type_id[3] != b[0].license_type_id[3]);
        assert(a[4].license_type_id[3] != b[1].license_type_id[3]);
        assert(a[5].license_type_id[3] != b[0].license_type_id[3]);
        assert(a[5].license_type_id[3] != b[1].license_type_id[3]);
        assert(a[6].license_type_id[3] != b[0].license_type_id[3]);
        assert(a[6].license_type_id[3] != b[1].license_type_id[3]);
        assert(a[7].license_type_id[3] != b[0].license_type_id[3]);
        assert(a[7].license_type_id[3] != b[1].license_type_id[3]);
        assert(a[8].license_type_id[3] != b[0].license_type_id[3]);
        assert(a[8].license_type_id[3] != b[1].license_type_id[3]);
        assert(a[9].license_type_id[3] != b[0].license_type_id[3]);
        assert(a[9].license_type_id[3] != b[1].license_type_id[3]);
        assert(a[10].license_type_id[3] != b[0].license_type_id[3]);
        assert(a[10].license_type_id[3] != b[1].license_type_id[3]);
        assert(a[11].license_type_id[3] != b[0].license_type_id[3]);
        assert(a[11].license_type_id[3] != b[1].license_type_id[3]);
        assert(a[12].license_type_id[3] != b[0].license_type_id[3]);
        assert(a[12].license_type_id[3] != b[1].license_type_id[3]);
        assert(a[13].license_type_id[3] != b[0].license_type_id[3]);
        assert(a[13].license_type_id[3] != b[1].license_type_id[3]);
        assert(a[14].license_type_id[3] != b[0].license_type_id[3]);
        assert(a[14].license_type_id[3] != b[1].license_type_id[3]);
        reveal_with_fuel(apart_each, 16);
        reveal_with_fuel(id_fresh_each, 3);
    }
    lemma_apart_each(a, b);
}

/// No licence type of `adgm_license_types` shares an identifier with one of `dso_license_types`.
proof fn lemma_adgm_license_types_apart_from_dso_license_types()
    ensures
        license_type_ids_apart(spec_adgm_license_types(), spec_dso_license_types()),
{
    let a = spec_adgm_license_types();
    let b = spec_dso_license_types();
    assert(apart_each(a, b)) by {
        reveal_strlit("ae-adgm-fsra:advisory");
        reveal_strlit("ae-adgm-fsra:asset-management");
        reveal_strlit("ae-adgm-fsra:banking");
        reveal_strlit("ae-adgm-fsra:casp");
        reveal_strlit("ae-adgm-fsra:credit-rating");
        reveal_strlit("ae-adgm-fsra:crowdfunding");
        reveal_strlit("ae-adgm-fsra:custody");
        reveal_strlit("ae-adgm-fsra:digital-asset-custodian");
        reveal_strlit("ae-adgm-fsra:digital-asset-exchange");
        reveal_strlit("ae-adgm-fsra:insurance");
        reveal_strlit("ae-adgm-fsra:insurance-broker");
        reveal_strlit("ae-adgm-fsra:venture-capital");
        reveal_strlit("ae-adgm-ra:company");
        reveal_strlit("ae-adgm-ra:foundation");
        reveal_strlit("ae-adgm-ra:spv");
        reveal_strlit("ae-dso:freelancer");
        reveal_strlit("ae-dso:tech");
        assert(a[0].license_type_id[3] != b[0].license_type_id[3]);
        assert(a[0].license_type_id[3] != b[1].license_type_id[3]);
        assert(a[1].license_type_id[3] != b[0].license_type_id[3]);
        assert(a[1].license_type_id[3] != b[1].license_type_id[3]);
        assert(a[2].license_type_id[3] != b[0].license_type_id[3]);
        assert(a[2].license_type_id[3] != b[1].license_type_id[3]);
        assert(a[3].license_type_id[3] != b[0].license_type_id[3]);
        assert(a[3].license_type_id[3] != b[1].license_type_id[3]);
        assert(a[4].license_type_id[3] != b[0].license_type_id[3]);
        assert(a[4].license_type_id[3] != b[1].license_type_id[3]);
        assert(a[5].license_type_id[3] != b[0].license_type_id[3]);
        assert(a[5].license_type_id[3] != b[1].license_type_id[3]);
        assert(a[6].license_type_id[3] != b[0].license_type_id[3]);
        assert(a[6].license_type_id[3] != b[1].license_type_id[3]);
        assert(a[7].license_type_id[3] != b[0].license_type_id[3]);
        assert(a[7].license_type_id[3] != b[1].license_type_id[3]);
        assert(a[8].license_type_id[3] != b[0].license_type_id[3]);
        assert(a[8].license_type_id[3] != b[1].license_type_id[3]);
        assert(a[9].license_type_id[3] != b[0].license_type_id[3]);
        assert(a[9].license_type_id[3] != b[1].license_type_id[3]);
        assert(a[10].license_type_id[3] != b[0].license_type_id[3]);
        assert(a[10].license_type_id[3] != b[1].license_type_id[3]);
        assert(a[11].license_type_id[3] != b[0].license_type_id[3]);
        assert(a[11].license_type_id[3] != b[1].license_type_id[3]);
        assert(a[12].license_type_id[3] != b[0].license_type_id[3]);
        assert(a[12].license_type_id[3] != b[1].license_type_id[3]);
        assert(a[13].license_type_id[3] != b[0].license_type_id[3]);
        assert(a[13].license_type_id[3] != b[1].license_type_id[3]);
        assert(a[14].license_type_id[3] != b[0].license_type_id[3]);
        assert(a[14].license_type_id[3] != b[1].license_type_id[3]);
        reveal_with_fuel(apart_each, 16);
        reveal_with_fuel(id_fresh_each, 3);
    }
    lemma_apart_each(a, b);
}

/// No licence type of `adgm_license_types` shares an identifier with one of `dic_license_types`.
proof fn lemma_adgm_license_types_apart_from_dic_license_types()
    ensures
        license_type_ids_apart(spec_adgm_license_types(), spec_dic_license_types()),
{
    let a = spec_adgm_license_types();
    let b = spec_dic_license_types();
    assert(apart_each(a, b)) by {
        reveal_strlit("ae-adgm-fsra:advisory");
        reveal_strlit("ae-adgm-fsra:asset-management");
        reveal_strlit("ae-adgm-fsra:banking");
        reveal_strlit("ae-adgm-fsra:casp");
        reveal_strlit("ae-adgm-fsra:credit-rating");
        reveal_strlit("ae-adgm-fsra:crowdfunding");
        reveal_strlit("ae-adgm-fsra:custody");
        reveal_strlit("ae-adgm-fsra:digital-asset-custodian");
        reveal_strlit("ae-adgm-fsra:digital-asset-exchange");
        reveal_strlit("ae-adgm-fsra:insurance");
        reveal_strlit("ae-adgm-fsra:insurance-broker");
        reveal_strlit("ae-adgm-fsra:venture-capital");
        reveal_strlit("ae-adgm-ra:company");
        reveal_strlit("ae-adgm-ra:foundation");
        reveal_strlit("ae-adgm-ra:spv");
        reveal_strlit("ae-dic:media");
        reveal_strlit("ae-dic:technology");
        assert(a[0].license_type_id[3] != b[0].license_type_id[3]);
        assert(a[0].license_type_id[3] != b[1].license_type_id[3]);
        assert(a[1].license_type_id[3] != b[0].license_type_id[3]);
        assert(a[1].license_type_id[3] != b[1].license_type_id[3]);
        assert(a[2].license_type_id[3] != b[0].license_type_id[3]);
        assert(a[2].license_type_id[3] != b[1].license_type_id[3]);
        assert(a[3].license_type_id[3] != b[0].license_type_id[3]);
        assert(a[3].license_type_id[3] != b[1].license_type_id[3]);
        assert(a[4].license_type_id[3] != b[0].license_type_id[3]);
        assert(a[4].license_type_id[3] != b[1].license_type_id[3]);
        assert(a[5].license_type_id[3] != b[0].license_type_id[3]);
        assert(a[5].license_type_id[3] != b[1].license_type_id[3]);
        assert(a[6].license_type_id[3] != b[0].license_type_id[3]);
        assert(a[6].license_type_id[3] != b[1].license_type_id[3]);
        assert(a[7].license_type_id[3] != b[0].license_type_id[3]);
        assert(a[7].license_type_id[3] != b[1].license_type_id[3]);
        assert(a[8].license_type_id[3] != b[0].license_type_id[3]);
        assert(a[8].license_type_id[3] != b[1].license_type_id[3]);
        assert(a[9].license_type_id[3] != b[0].license_type_id[3]);
        assert(a[9].license_type_id[3] != b[1].license_type_id[3]);
        assert(a[10].license_type_id[3] != b[0].license_type_id[3]);
        assert(a[10].license_type_id[3] != b[1].license_type_id[3]);
        assert(a[11].license_type_id[3] != b[0].license_type_id[3]);
        assert(a[11].license_type_id[3] != b[1].license_type_id[3]);
        assert(a[12].license_type_id[3] != b[0].license_type_id[3]);
        assert(a[12].license_type_id[3] != b[1].license_type_id[3]);
        assert(a[13].license_type_id[3] != b[0].license_type_id[3]);
        assert(a[13].license_type_id[3] != b[1].license_type_id[3]);
        assert(a[14].license_type_id[3] != b[0].license_type_id[3]);
        assert(a[14].license_type_id[3] != b[1].license_type_id[3]);
        reveal_with_fuel(apart_each, 16);
        reveal_with_fuel(id_fresh_each, 3);
    }
    lemma_apart_each(a, b);
}

/// No licence type of `adgm_license_types` shares an identifier with one of `dhcc_license_types`.
proof fn lemma_adgm_license_types_apart_from_dhcc_license_types()
    ensures
        license_type_ids_apart(spec_adgm_license_types(), spec_dhcc_license_types()),
{
    let a = spec_adgm_license_types();
    let b = spec_dhcc_license_types();
    assert(apart_each(a, b)) by {
        reveal_strlit("ae-adgm-fsra:advisory");
        reveal_strlit("ae-adgm-fsra:asset-management");
        reveal_strlit("ae-adgm-fsra:banking");
        reveal_strlit("ae-adgm-fsra:casp");
        reveal_strlit("ae-adgm-fsra:credit-rating");
        reveal_strlit("ae-adgm-fsra:crowdfunding");
        reveal_strlit("ae-adgm-fsra:custody");
        reveal_strlit("ae-adgm-fsra:digital-asset-custodian");
        reveal_strlit("ae-adgm-fsra:digital-asset-exchange");
        reveal_strlit("ae-adgm-fsra:insurance");
        reveal_strlit("ae-adgm-fsra:insurance-broker");
        reveal_strlit("ae-adgm-fsra:venture-capital");
        reveal_strlit("ae-adgm-ra:company");
        reveal_strlit("ae-adgm-ra:foundation");
        reveal_strlit("ae-adgm-ra:spv");
        reveal_strlit("ae-dhcc:healthcare");
        reveal_strlit("ae-dhcc:pharmaceutical");
        assert(a[0].license_type_id[3] != b[0].license_type_id[3]);
        assert(a[0].license_type_id[3] != b[1].license_type_id[3]);
        assert(a[1].license_type_id[3] != b[0].license_type_id[3]);
        assert(a[1].license_type_id[3] != b[1].license_type_id[3]);
        assert(a[2].license_type_id[3] != b[0].license_type_id[3]);
        assert(a[2].license_type_id[3] != b[1].license_type_id[3]);
        assert(a[3].license_type_id[3] != b[0].license_type_id[3]);
        assert(a[3].license_type_id[3] != b[1].license_type_id[3]);
        assert(a[4].license_type_id[3] != b[0].license_type_id[3]);
        assert(a[4].license_type_id[3] != b[1].license_type_id[3]);
        assert(a[5].license_type_id[3] != b[0].license_type_id[3]);
        assert(a[5].license_type_id[3] != b[1].license_type_id[3]);
        assert(a[6].license_type_id[3] != b[0].license_type_id[3]);
        assert(a[6].license_type_id[3] != b[1].license_type_id[3]);
        assert(a[7].license_type_id[3] != b[0].license_type_id[3]);
        assert(a[7].license_type_id[3] != b[1].license_type_id[3]);
        assert(a[8].license_type_id[3] != b[0].license_type_id[3]);
        assert(a[8].license_type_id[3] != b[1].license_type_id[3]);
        assert(a[9].license_type_id[3] != b[0].license_type_id[3]);
        assert(a[9].license_type_id[3] != b[1].license_type_id[3]);
        assert(a[10].license_type_id[3] != b[0].license_type_id[3]);
        assert(a[10].license_type_id[3] != b[1].license_type_id[3]);
        assert(a[11].license_type_id[3] != b[0].license_type_id[3]);
        assert(a[11].license_type_id[3] != b[1].license_type_id[3]);
        assert(a[12].license_type_id[3] != b[0].license_type_id[3]);
        assert(a[12].license_type_id[3] != b[1].license_type_id[3]);
        assert(a[13].license_type_id[3] != b[0].license_type_id[3]);
        assert(a[13].license_type_id[3] != b[1].license_type_id[3]);
        assert(a[14].license_type_id[3] != b[0].license_type_id[3]);
        assert(a[14].license_type_id[3] != b[1].license_type_id[3]);
        reveal_with_fuel(apart_each, 16);
        reveal_with_fuel(id_fresh_each, 3);
    }
    lemma_apart_each(a, b);
}

/// No licence type of `adgm_license_types` shares an identifier with one of `abudhabi_fz_license_types`.
proof fn lemma_adgm_license_types_apart_from_abudhabi_fz_license_types()
    ensures
        license_type_ids_apart(spec_adgm_license_types(), spec_abudhabi_fz_license_types()),
{
    let a = spec_adgm_license_types();
    let b = spec_abudhabi_fz_license_types();
    assert(apart_each(a, b)) by {
        reveal_strlit("ae-abudhabi-added:trade-license");
        reveal_strlit("ae-adgm-fsra:advisory");
        reveal_strlit("ae-adgm-fsra:asset-management");
        reveal_strlit("ae-adgm-fsra:banking");
        reveal_strlit("ae-adgm-fsra:casp");
        reveal_strlit("ae-adgm-fsra:credit-rating");
        reveal_strlit("ae-adgm-fsra:crowdfunding");
        reveal_strlit("ae-adgm-fsra:custody");
        reveal_strlit("ae-adgm-fsra:digital-asset-custodian");
        reveal_strlit("ae-adgm-fsra:digital-asset-exchange");
        reveal_strlit("ae-adgm-fsra:insurance");
        reveal_strlit("ae-adgm-fsra:insurance-broker");
        reveal_strlit("ae-adgm-fsra:venture-capital");
        reveal_strlit("ae-adgm-ra:company");
        reveal_strlit("ae-adgm-ra:foundation");
        reveal_strlit("ae-adgm-ra:spv");
        reveal_strlit("ae-kezad:industrial");
        reveal_strlit("ae-kezad:logistics");
        reveal_strlit("ae-kizad:industrial");
        reveal_strlit("ae-kizad:trading");
        reveal_strlit("ae-masdar:cleantech");
        reveal_strlit("ae-twofour54:media");
        assert(a[0].license_type_id[4] != b[0].license_type_id[4]);
        assert(a[0].license_type_id[3] != b[1].license_type_id[3]);
        assert(a[0].license_type_id[3] != b[2].license_type_id[3]);
        assert(a[0].license_type_id[3] != b[3].license_type_id[3]);
        assert(a[0].license_type_id[3] != b[4].license_type_id[3]);
        assert(a[0].license_type_id[3] != b[5].license_type_id[3]);
        assert(a[0].license_type_id[3] != b[6].license_type_id[3]);
        assert(a[1].license_type_id[4] != b[0].license_type_id[4]);
        assert(a[1].license_type_id[3] != b[1].license_type_id[3]);
        assert(a[1].license_type_id[3] != b[2].license_type_id[3]);
        assert(a[1].license_type_id[3] != b[3].license_type_id[3]);
        assert(a[1].license_type_id[3] != b[4].license_type_id[3]);
        assert(a[1].license_type_id[3] != b[5].license_type_id[3]);
        assert(a[1].license_type_id[3] != b[6].license_type_id[3]);
        assert(a[2].license_type_id[4] != b[0].license_type_id[4]);
        assert(a[2].license_type_id[3] != b[1].license_type_id[3]);
        assert(a[2].license_type_id[3] != b[2].license_type_id[3]);
        assert(a[2].license_type_id[3] != b[3].license_type_id[3]);
        assert(a[2].license_type_id[3] != b[4].license_type_id[3]);
        assert(a[2].license_type_id[3] != b[5].license_type_id[3]);
        assert(a[2].license_type_id[3] != b[6].license_type_id[3]);
        assert(a[3].license_type_id[4] != b[0].license_type_id[4]);
        assert(a[3].license_type_id[3] != b[1].license_type_id[3]);
        assert(a[3].license_type_id[3] != b[2].license_type_id[3]);
        assert(a[3].license_type_id[3] != b[3].license_type_id[3]);
        assert(a[3].license_type_id[3] != b[4].license_type_id[3]);
        assert(a[3].license_type_id[3] != b[5].license_type_id[3]);
        assert(a[3].license_type_id[3] != b[6].license_type_id[3]);
        assert(a[4].license_type_id[4] != b[0].license_type_id[4]);
        assert(a[4].license_type_id[3] != b[1].license_type_id[3]);
        assert(a[4].license_type_id[3] != b[2].license_type_id[3]);
        assert(a[4].license_type_id[3] != b[3].license_type_id[3]);
        assert(a[4].license_type_id[3] != b[4].license_type_id[3]);
        assert(a[4].license_type_id[3] != b[5].license_type_id[3]);
        assert(a[4].license_type_id[3] != b[6].license_type_id[3]);
        assert(a[5].license_type_id[4] != b[0].license_type_id[4]);
        assert(a[5].license_type_id[3] != b[1].license_type_id[3]);
        assert(a[5].license_type_id[3] != b[2].license_type_id[3]);
        assert(a[5].license_type_id[3] != b[3].license_type_id[3]);
        assert(a[5].license_type_id[3] != b[4].license_type_id[3]);
        assert(a[5].license_type_id[3] != b[5].license_type_id[3]);
        assert(a[5].license_type_id[3] != b[6].license_type_id[3]);
        assert(a[6].license_type_id[4] != b[0].license_type_id[4]);
        assert(a[6].license_type_id[3] != b[1].license_type_id[3]);
        assert(a[6].license_type_id[3] != b[2].license_type_id[3]);
        assert(a[6].license_type_id[3] != b[3].license_type_id[3]);
        assert(a[6].license_type_id[3] != b[4].license_type_id[3]);
        assert(a[6].license_type_id[3] != b[5].license_type_id[3]);
        assert(a[6].license_type_id[3] != b[6].license_type_id[3]);
        assert(a[7].license_type_id[4] != b[0].license_type_id[4]);
        assert(a[7].license_type_id[3] != b[1].license_type_id[3]);
        assert(a[7].license_type_id[3] != b[2].license_type_id[3]);
        assert(a[7].license_type_id[3] != b[3].license_type_id[3]);
        assert(a[7].license_type_id[3] != b[4].license_type_id[3]);
        assert(a[7].license_type_id[3] != b[5].license_type_id[3]);
        assert(a[7].license_type_id[3] != b[6].license_type_id[3]);
        assert(a[8].license_type_id[4] != b[0].license_type_id[4]);
        assert(a[8].license_type_id[3] != b[1].license_type_id[3]);
        assert(a[8].license_type_id[3] != b[2].license_type_id[3]);
        assert(a[8].license_type_id[3] != b[3].license_type_id[3]);
        assert(a[8].license_type_id[3] != b[4].license_type_id[3]);
        assert(a[8].license_type_id[3] != b[5].license_type_id[3]);
        assert(a[8].license_type_id[3] != b[6].license_type_id[3]);
        assert(a[9].license_type_id[4] != b[0].license_type_id[4]);
        assert(a[9].license_type_id[3] != b[1].license_type_id[3]);
        assert(a[9].license_type_id[3] != b[2].license_type_id[3]);
        assert(a[9].license_type_id[3] != b[3].license_type_id[3]);
        assert(a[9].license_type_id[3] != b[4].license_type_id[3]);
        assert(a[9].license_type_id[3] != b[5].license_type_id[3]);
        assert(a[9].license_type_id[3] != b[6].license_type_id[3]);
        assert(a[10].license_type_id[4] != b[0].license_type_id[4]);
        assert(a[10].license_type_id[3] != b[1].license_type_id[3]);
        assert(a[10].license_type_id[3] != b[2].license_type_id[3]);
        assert(a[10].license_type_id[3] != b[3].license_type_id[3]);
        assert(a[10].license_type_id[3] != b[4].license_type_id[3]);
        assert(a[10].license_type_id[3] != b[5].license_type_id[3]);
        assert(a[10].license_type_id[3] != b[6].license_type_id[3]);
        assert(a[11].license_type_id[4] != b[0].license_type_id[4]);
        assert(a[11].license_type_id[3] != b[1].license_type_id[3]);
        assert(a[11].license_type_id[3] != b[2].license_type_id[3]);
        assert(a[11].license_type_id[3] != b[3].license_type_id[3]);
        assert(a[11].license_type_id[3] != b[4].license_type_id[3]);
        assert(a[11].license_type_id[3] != b[5].license_type_id[3]);
        assert(a[11].license_type_id[3] != b[6].license_type_id[3]);
        assert(a[12].license_type_id[4] != b[0].license_type_id[4]);
        assert(a[12].license_type_id[3] != b[1].license_type_id[3]);
        assert(a[12].license_type_id[3] != b[2].license_type_id[3]);
        assert(a[12].license_type_id[3] != b[3].license_type_id[3]);
        assert(a[12].license_type_id[3] != b[4].license_type_id[3]);
        assert(a[12].license_type_id[3] != b[5].license_type_id[3]);
        assert(a[12].license_type_id[3] != b[6].license_type_id[3]);
        assert(a[13].license_type_id[4] != b[0].license_type_id[4]);
        assert(a[13].license_type_id[3] != b[1].license_type_id[3]);
        assert(a[13].license_type_id[3] != b[2].license_type_id[3]);
        assert(a[13].license_type_id[3] != b[3].license_type_id[3]);
        assert(a[13].license_type_id[3] != b[4].license_type_id[3]);
        assert(a[13].license_type_id[3] != b[5].license_type_id[3]);
        assert(a[13].license_type_id[3] != b[6].license_type_id[3]);
        assert(a[14].license_type_id[4] != b[0].license_type_id[4]);
        assert(a[14].license_type_id[3] != b[1].license_type_id[3]);
        assert(a[14].license_type_id[3] != b[2].license_type_id[3]);
        assert(a[14].license_type_id[3] != b[3].license_type_id[3]);
        assert(a[14].license_type_id[3] != b[4].license_type_id[3]);
        assert(a[14].license_type_id[3] != b[5].license_type_id[3]);
        assert(a[14].license_type_id[3] != b[6].license_type_id[3]);
        reveal_with_fuel(apart_each, 16);
        reveal_with_fuel(id_fresh_each, 8);
    }
    lemma_apart_each(a, b);
}

/// No licence type of `adgm_license_types` shares an identifier with one of `ded_license_types`.
proof fn lemma_adgm_license_types_apart_from_ded_license_types()
    ensures
        license_type_ids_apart(spec_adgm_license_types(), spec_ded_license_types()),
{
    let a = spec_adgm_license_types();
    let b = spec_ded_license_types();
    assert(apart_each(a, b)) by {
        reveal_strlit("ae-adgm-fsra:advisory");
        reveal_strlit("ae-adgm-fsra:asset-management");
        reveal_strlit("ae-adgm-fsra:banking");
        reveal_strlit("ae-adgm-fsra:casp");
        reveal_strlit("ae-adgm-fsra:credit-rating");
        reveal_strlit("ae-adgm-fsra:crowdfunding");
        reveal_strlit("ae-adgm-fsra:custody");
        reveal_strlit("ae-adgm-fsra:digital-asset-custodian");
        reveal_strlit("ae-adgm-fsra:digital-asset-exchange");
        reveal_strlit("ae-adgm-fsra:insurance");
        reveal_strlit("ae-adgm-fsra:insurance-broker");
        reveal_strlit("ae-adgm-fsra:venture-capital");
        reveal_strlit("ae-adgm-ra:company");
        reveal_strlit("ae-adgm-ra:foundation");
        reveal_strlit("ae-adgm-ra:spv");
        reveal_strlit("ae-dubai-ded:commercial");
        reveal_strlit("ae-dubai-ded:industrial");
        reveal_strlit("ae-dubai-ded:professional");
        assert(a[0].license_type_id[3] != b[0].license_type_id[3]);
        assert(a[0].license_type_id[3] != b[1].license_type_id[3]);
        assert(a[0].license_type_id[3] != b[2].license_type_id[3]);
        assert(a[1].license_type_id[3] != b[0].license_type_id[3]);
        assert(a[1].license_type_id[3] != b[1].license_type_id[3]);
        assert(a[1].license_type_id[3] != b[2].license_type_id[3]);
        assert(a[2].license_type_id[3] != b[0].license_type_id[3]);
        assert(a[2].license_type_id[3] != b[1].license_type_id[3]);
        assert(a[2].license_type_id[3] != b[2].license_type_id[3]);
        assert(a[3].license_type_id[3] != b[0].license_type_id[3]);
        assert(a[3].license_type_id[3] != b[1].license_type_id[3]);
        assert(a[3].license_type_id[3] != b[2].license_type_id[3]);
        assert(a[4].license_type_id[3] != b[0].license_type_id[3]);
        assert(a[4].license_type_id[3] != b[1].license_type_id[3]);
        assert(a[4].license_type_id[3] != b[2].license_type_id[3]);
        assert(a[5].license_type_id[3] != b[0].license_type_id[3]);
        assert(a[5].license_type_id[3] != b[1].license_type_id[3]);
        assert(a[5].license_type_id[3] != b[2].license_type_id[3]);
        assert(a[6].license_type_id[3] != b[0].license_type_id[3]);
        assert(a[6].license_type_id[3] != b[1].license_type_id[3]);
        assert(a[6].license_type_id[3] != b[2].license_type_id[3]);
        assert(a[7].license_type_id[3] != b[0].license_type_id[3]);
        assert(a[7].license_type_id[3] != b[1].license_type_id[3]);
        assert(a[7].license_type_id[3] != b[2].license_type_id[3]);
        assert(a[8].license_type_id[3] != b[0].license_type_id[3]);
        assert(a[8].license_type_id[3] != b[1].license_type_id[3]);
        assert(a[8].license_type_id[3] != b[2].license_type_id[3]);
        assert(a[9].license_type_id[3] != b[0].license_type_id[3]);
        assert(a[9].license_type_id[3] != b[1].license_type_id[3]);
        assert(a[9].license_type_id[3] != b[2].license_type_id[3]);
        assert(a[10].license_type_id[3] != b[0].license_type_id[3]);
        assert(a[10].license_type_id[3] != b[1].license_type_id[3]);
        assert(a[10].license_type_id[3] != b[2].license_type_id[3]);
        assert(a[11].license_type_id[3] != b[0].license_type_id[3]);
        assert(a[11].license_type_id[3] != b[1].license_type_id[3]);
        assert(a[11].license_type_id[3] != b[2].license_type_id[3]);
        assert(a[12].license_type_id[3] != b[0].license_type_id[3]);
        assert(a[12].license_type_id[3] != b[1].license_type_id[3]);
        assert(a[12].license_type_id[3] != b[2].license_type_id[3]);
        assert(a[13].license_type_id[3] != b[0].license_type_id[3]);
        assert(a[13].license_type_id[3] != b[1].license_type_id[3]);
        assert(a[13].license_type_id[3] != b[2].license_type_id[3]);
        assert(a[14].license_type_id[3] != b[0].license_type_id[3]);
        assert(a[14].license_type_id[3] != b[1].license_type_id[3]);
        assert(a[14].license_type_id[3] != b[2].license_type_id[3]);
        reveal_with_fuel(apart_each, 16);
        reveal_with_fuel(id_fresh_each, 4);
    }
    lemma_apart_each(a, b);
}

/// No licence type of `difc_license_types` shares an identifier with one of `dmcc_license_types`.
proof fn lemma_difc_license_types_apart_from_dmcc_license_types()
    ensures
        license_type_ids_apart(spec_difc_license_types(), spec_dmcc_license_types()),
{
    let a = spec_difc_license_types();
    let b = spec_dmcc_license_types();
    assert(apart_each(a, b)) by {
        reveal_strlit("ae-difc-dfsa:asset-management");
        reveal_strlit("ae-difc-dfsa:banking");
        reveal_strlit("ae-difc-dfsa:credit-rating");
        reveal_strlit("ae-difc-dfsa:crowdfunding");
        reveal_strlit("ae-difc-dfsa:custody");
        reveal_strlit("ae-difc-dfsa:digital-asset-custodian");
        reveal_strlit("ae-difc-dfsa:digital-asset-exchange");
        reveal_strlit("ae-difc-dfsa:insurance");
        reveal_strlit("ae-difc-dfsa:insurance-broker");
        reveal_strlit("ae-difc-dfsa:money-services");
        reveal_strlit("ae-difc-dfsa:securities-broker");
        reveal_strlit("ae-difc-roc:company");
        reveal_strlit("ae-difc-roc:foundation");
        reveal_strlit("ae-difc-roc:spv");
        reveal_strlit("ae-dmcc:casp");
        reveal_strlit("ae-dmcc:diamond-trading");
        reveal_strlit("ae-dmcc:precious-metals");
        reveal_strlit("ae-dmcc:trade-license");
        assert(a[0].license_type_id[4] != b[0].license_type_id[4]);
        assert(a[0].license_type_id[4] != b[1].license_type_id[4]);
        assert(a[0].license_type_id[4] != b[2].license_type_id[4]);
        assert(a[0].license_type_id[4] != b[3].license_type_id[4]);
        assert(a[1].license_type_id[4] != b[0].license_type_id[4]);
        assert(a[1].license_type_id[4] != b[1].license_type_id[4]);
        assert(a[1].license_type_id[4] != b[2].license_type_id[4]);
        assert(a[1].license_type_id[4] != b[3].license_type_id[4]);
        assert(a[2].license_type_id[4] != b[0].license_type_id[4]);
        assert(a[2].license_type_id[4] != b[1].license_type_id[4]);
        assert(a[2].license_type_id[4] != b[2].license_type_id[4]);
        assert(a[2].license_type_id[4] != b[3].license_type_id[4]);
        assert(a[3].license_type_id[4] != b[0].license_type_id[4]);
        assert(a[3].license_type_id[4] != b[1].license_type_id[4]);
        assert(a[3].license_type_id[4] != b[2].license_type_id[4]);
        assert(a[3].license_type_id[4] != b[3].license_type_id[4]);
        assert(a[4].license_type_id[4] != b[0].license_type_id[4]);
        assert(a[4].license_type_id[4] != b[1].license_type_id[4]);
        assert(a[4].license_type_id[4] != b[2].license_type_id[4]);
        assert(a[4].license_type_id[4] != b[3].license_type_id[4]);
        assert(a[5].license_type_id[4] != b[0].license_type_id[4]);
        assert(a[5].license_type_id[4] != b[1].license_type_id[4]);
        assert(a[5].license_type_id[4] != b[2].license_type_id[4]);
        assert(a[5].license_type_id[4] != b[3].license_type_id[4]);
        assert(a[6].license_type_id[4] != b[0].license_type_id[4]);
        assert(a[6].license_type_id[4] != b[1].license_type_id[4]);
        assert(a[6].license_type_id[4] != b[2].license_type_id[4]);
        assert(a[6].license_type_id[4] != b[3].license_type_id[4]);
        assert(a[7].license_type_id[4] != b[0].license_type_id[4]);
        assert(a[7].license_type_id[4] != b[1].license_type_id[4]);
        assert(a[7].license_type_id[4] != b[2].license_type_id[4]);
        assert(a[7].license_type_id[4] != b[3].license_type_id[4]);
        assert(a[8].license_type_id[4] != b[0].license_type_id[4]);
        assert(a[8].license_type_id[4] != b[1].license_type_id[4]);
        assert(a[8].license_type_id[4] != b[2].license_type_id[4]);
        assert(a[8].license_type_id[4] != b[3].license_type_id[4]);
        assert(a[9].license_type_id[4] != b[0].license_type_id[4]);
        assert(a[9].license_type_id[4] != b[1].license_type_id[4]);
        assert(a[9].license_type_id[4] != b[2].license_type_id[4]);
        assert(a[9].license_type_id[4] != b[3].license_type_id[4]);
        assert(a[10].license_type_id[4] != b[0].license_type_id[4]);
        assert(a[10].license_type_id[4] != b[1].license_type_id[4]);
        assert(a[10].license_type_id[4] != b[2].license_type_id[4]);
        assert(a[10].license_type_id[4] != b[3].license_type_id[4]);
        assert(a[11].license_type_id[4] != b[0].license_type_id[4]);
        assert(a[11].license_type_id[4] != b[1].license_type_id[4]);
        assert(a[11].license_type_id[4] != b[2].license_type_id[4]);
        assert(a[11].license_type_id[4] != b[3].license_type_id[4]);
        assert(a[12].license_type_id[4] != b[0].license_type_id[4]);
        assert(a[12].license_type_id[4] != b[1].license_type_id[4]);
        assert(a[12].license_type_id[4] != b[2].license_type_id[4]);
        assert(a[12].license_type_id[4] != b[3].license_type_id[4]);
        assert(a[13].license_type_id[4] != b[0].license_type_id[4]);
        assert(a[13].license_type_id[4] != b[1].license_type_id[4]);
        assert(a[13].license_type_id[4] != b[2].license_type_id[4]);
        assert(a[13].license_type_id[4] != b[3].license_type_id[4]);
        reveal_with_fuel(apart_each, 15);
        reveal_with_fuel(id_fresh_each, 5);
    }
    lemma_apart_each(a, b);
}

/// No licence type of `difc_license_types` shares an identifier with one of `jafza_license_types`.
proof fn lemma_difc_license_types_apart_from_jafza_license_types()
    ensures
        license_type_ids_apart(spec_difc_license_types(), spec_jafza_license_types()),
{
    let a = spec_difc_license_types();
    let b = spec_jafza_license_types();
    assert(apart_each(a, b)) by {
        reveal_strlit("ae-difc-dfsa:asset-management");
        reveal_strlit("ae-difc-dfsa:banking");
        reveal_strlit("ae-difc-dfsa:credit-rating");
        reveal_strlit("ae-difc-dfsa:crowdfunding");
        reveal_strlit("ae-difc-dfsa:custody");
        reveal_strlit("ae-difc-dfsa:digital-asset-custodian");
        reveal_strlit("ae-difc-dfsa:digital-asset-exchange");
        reveal_strlit("ae-difc-dfsa:insurance");
        reveal_strlit("ae-difc-dfsa:insurance-broker");
        reveal_strlit("ae-difc-dfsa:money-services");
        reveal_strlit("ae-difc-dfsa:securities-broker");
        reveal_strlit("ae-difc-roc:company");
        reveal_strlit("ae-difc-roc:foundation");
        reveal_strlit("ae-difc-roc:spv");
        reveal_strlit("ae-jafza:industrial");
        reveal_strlit("ae-jafza:logistics");
        reveal_strlit("ae-jafza:services");
        reveal_strlit("ae-jafza:trading");
        assert(a[0].license_type_id[3] != b[0].license_type_id[3]);
        assert(a[0].license_type_id[3] != b[1].license_type_id[3]);
        assert(a[0].license_type_id[3] != b[2].license_type_id[3]);
        assert(a[0].license_type_id[3] != b[3].license_type_id[3]);
        assert(a[1].license_type_id[3] != b[0].license_type_id[3]);
        assert(a[1].license_type_id[3] != b[1].license_type_id[3]);
        assert(a[1].license_type_id[3] != b[2].license_type_id[3]);
        assert(a[1].license_type_id[3] != b[3].license_type_id[3]);
        assert(a[2].license_type_id[3] != b[0].license_type_id[3]);
        assert(a[2].license_type_id[3] != b[1].license_type_id[3]);
        assert(a[2].license_type_id[3] != b[2].license_type_id[3]);
        assert(a[2].license_type_id[3] != b[3].license_type_id[3]);
        assert(a[3].license_type_id[3] != b[0].license_type_id[3]);
        assert(a[3].license_type_id[3] != b[1].license_type_id[3]);
        assert(a[3].license_type_id[3] != b[2].license_type_id[3]);
        assert(a[3].license_type_id[3] != b[3].license_type_id[3]);
        assert(a[4].license_type_id[3] != b[0].license_type_id[3]);
        assert(a[4].license_type_id[3] != b[1].license_type_id[3]);
        assert(a[4].license_type_id[3] != b[2].license_type_id[3]);
        assert(a[4].license_type_id[3] != b[3].license_type_id[3]);
        assert(a[5].license_type_id[3] != b[0].license_type_id[3]);
        assert(a[5].license_type_id[3] != b[1].license_type_id[3]);
        assert(a[5].license_type_id[3] != b[2].license_type_id[3]);
        assert(a[5].license_type_id[3] != b[3].license_type_id[3]);
        assert(a[6].license_type_id[3] != b[0].license_type_id[3]);
        assert(a[6].license_type_id[3] != b[1].license_type_id[3]);
        assert(a[6].license_type_id[3] != b[2].license_type_id[3]);
        assert(a[6].license_type_id[3] != b[3].license_type_id[3]);
        assert(a[7].license_type_id[3] != b[0].license_type_id[3]);
        assert(a[7].license_type_id[3] != b[1].license_type_id[3]);
        assert(a[7].license_type_id[3] != b[2].license_type_id[3]);
        assert(a[7].license_type_id[3] != b[3].license_type_id[3]);
        assert(a[8].license_type_id[3] != b[0].license_type_id[3]);
        assert(a[8].license_type_id[3] != b[1].license_type_id[3]);
        assert(a[8].license_type_id[3] != b[2].license_type_id[3]);
        assert(a[8].license_type_id[3] != b[3].license_type_id[3]);
        assert(a[9].license_type_id[3] != b[0].license_type_id[3]);
        assert(a[9].license_type_id[3] != b[1].license_type_id[3]);
        assert(a[9].license_type_id[3] != b[2].license_type_id[3]);
        assert(a[9].license_type_id[3] != b[3].license_type_id[3]);
        assert(a[10].license_type_id[3] != b[0].license_type_id[3]);
        assert(a[10].license_type_id[3] != b[1].license_type_id[3]);
        assert(a[10].license_type_id[3] != b[2].license_type_id[3]);
        assert(a[10].license_type_id[3] != b[3].license_type_id[3]);
        assert(a[11].license_type_id[3] != b[0].license_type_id[3]);
        assert(a[11].license_type_id[3] != b[1].license_type_id[3]);
        assert(a[11].license_type_id[3] != b[2].license_type_id[3]);
        assert(a[11].license_type_id[3] != b[3].license_type_id[3]);
        assert(a[12].license_type_id[3] != b[0].license_type_id[3]);
        assert(a[12].license_type_id[3] != b[1].license_type_id[3]);
        assert(a[12].license_type_id[3] != b[2].license_type_id[3]);
        assert(a[12].license_type_id[3] != b[3].license_type_id[3]);
        assert(a[13].license_type_id[3] != b[0].license_type_id[3]);
        assert(a[13].license_type_id[3] != b[1].license_type_id[3]);
        assert(a[13].license_type_id[3] != b[2].license_type_id[3]);
        assert(a[13].license_type_id[3] != b[3].license_type_id[3]);
        reveal_with_fuel(apart_each, 15);
        reveal_with_fuel(id_fresh_each, 5);
    }
    lemma_apart_each(a, b);
}

/// No licence type of `difc_license_types` shares an identifier with one of `ifza_license_types`.
proof fn lemma_difc_license_types_apart_from_ifza_license_types()
    ensures
        license_type_ids_apart(spec_difc_license_types(), spec_ifza_license_types()),
{
    let a = spec_difc_license_types();
    let b = spec_ifza_license_types();
    assert(apart_each(a, b)) by {
        reveal_strlit("ae-difc-dfsa:asset-management");
        reveal_strlit("ae-difc-dfsa:banking");
        reveal_strlit("ae-difc-dfsa:credit-rating");
        reveal_strlit("ae-difc-dfsa:crowdfunding");
        reveal_strlit("ae-difc-dfsa:custody");
        reveal_strlit("ae-difc-dfsa:digital-asset-custodian");
        reveal_strlit("ae-difc-dfsa:digital-asset-exchange");
        reveal_strlit("ae-difc-dfsa:insurance");
        reveal_strlit("ae-difc-dfsa:insurance-broker");
        reveal_strlit("ae-difc-dfsa:money-services");
        reveal_strlit("ae-difc-dfsa:securities-broker");
        reveal_strlit("ae-difc-roc:company");
        reveal_strlit("ae-difc-roc:foundation");
        reveal_strlit("ae-difc-roc:spv");
        reveal_strlit("ae-ifza:consultancy");
        reveal_strlit("ae-ifza:e-commerce");
        reveal_strlit("ae-ifza:general-trading");
        assert(a[0].license_type_id[3] != b[0].license_type_id[3]);
        assert(a[0].license_type_id[3] != b[1].license_type_id[3]);
        assert(a[0].license_type_id[3] != b[2].license_type_id[3]);
        assert(a[1].license_type_id[3] != b[0].license_type_id[3]);
        assert(a[1].license_type_id[3] != b[1].license_type_id[3]);
        assert(a[1].license_type_id[3] != b[2].license_type_id[3]);
        assert(a[2].license_type_id[3] != b[0].license_type_id[3]);
        assert(a[2].license_type_id[3] != b[1].license_type_id[3]);
        assert(a[2].license_type_id[3] != b[2].license_type_id[3]);
        assert(a[3].license_type_id[3] != b[0].license_type_id[3]);
        assert(a[3].license_type_id[3] != b[1].license_type_id[3]);
        assert(a[3].license_type_id[3] != b[2].license_type_id[3]);
        assert(a[4].license_type_id[3] != b[0].license_type_id[3]);
        assert(a[4].license_type_id[3] != b[1].license_type_id[3]);
        assert(a[4].license_type_id[3] != b[2].license_type_id[3]);
        assert(a[5].license_type_id[3] != b[0].license_type_id[3]);
        assert(a[5].license_type_id[3] != b[1].license_type_id[3]);
        assert(a[5].license_type_id[3] != b[2].license_type_id[3]);
        assert(a[6].license_type_id[3] != b[0].license_type_id[3]);
        assert(a[6].license_type_id[3] != b[1].license_type_id[3]);
        assert(a[6].license_type_id[3] != b[2].license_type_id[3]);
        assert(a[7].license_type_id[3] != b[0].license_type_id[3]);
        assert(a[7].license_type_id[3] != b[1].license_type_id[3]);
        assert(a[7].license_type_id[3] != b[2].license_type_id[3]);
        assert(a[8].license_type_id[3] != b[0].license_type_id[3]);
        assert(a[8].license_type_id[3] != b[1].license_type_id[3]);
        assert(a[8].license_type_id[3] != b[2].license_type_id[3]);
        assert(a[9].license_type_id[3] != b[0].license_type_id[3]);
        assert(a[9].license_type_id[3] != b[1].license_type_id[3]);
        assert(a[9].license_type_id[3] != b[2].license_type_id[3]);
        assert(a[10].license_type_id[3] != b[0].license_type_id[3]);
        assert(a[10].license_type_id[3] != b[1].license_type_id[3]);
        assert(a[10].license_type_id[3] != b[2].license_type_id[3]);
        assert(a[11].license_type_id[3] != b[0].license_type_id[3]);
        assert(a[11].license_type_id[3] != b[1].license_type_id[3]);
        assert(a[11].license_type_id[3] != b[2].license_type_id[3]);
        assert(a[12].license_type_id[3] != b[0].license_type_id[3]);
        assert(a[12].license_type_id[3] != b[1].license_type_id[3]);
        assert(a[12].license_type_id[3] != b[2].license_type_id[3]);
        assert(a[13].license_type_id[3] != b[0].license_type_id[3]);
        assert(a[13].license_type_id[3] != b[1].license_type_id[3]);
        assert(a[13].license_type_id[3] != b[2].license_type_id[3]);
        reveal_with_fuel(apart_each, 15);
        reveal_with_fuel(id_fresh_each, 4);
    }
    lemma_apart_each(a, b);
}

/// No licence type of `difc_license_types` shares an identifier with one of `dwtc_license_types`.
proof fn lemma_difc_license_types_apart_from_dwtc_license_types()
    ensures
        license_type_ids_apart(spec_difc_license_types(), spec_dwtc_license_types()),
{
    let a = spec_difc_license_types();
    let b = spec_dwtc_license_types();
    assert(apart_each(a, b)) by {
        reveal_strlit("ae-difc-dfsa:asset-management");
        reveal_strlit("ae-difc-dfsa:banking");
        reveal_strlit("ae-difc-dfsa:credit-rating");
        reveal_strlit("ae-difc-dfsa:crowdfunding");
        reveal_strlit("ae-difc-dfsa:custody");
        reveal_strlit("ae-difc-dfsa:digital-asset-custodian");
        reveal_strlit("ae-difc-dfsa:digital-asset-exchange");
        reveal_strlit("ae-difc-dfsa:insurance");
        reveal_strlit("ae-difc-dfsa:insurance-broker");
        reveal_strlit("ae-difc-dfsa:money-services");
        reveal_strlit("ae-difc-dfsa:securities-broker");
        reveal_strlit("ae-difc-roc:company");
        reveal_strlit("ae-difc-roc:foundation");
        reveal_strlit("ae-difc-roc:spv");
        reveal_strlit("ae-dwtc:events");
        reveal_strlit("ae-dwtc:hospitality");
        assert(a[0].license_type_id[4] != b[0].license_type_id[4]);
        assert(a[0].license_type_id[4] != b[1].license_type_id[4]);
        assert(a[1].license_type_id[4] != b[0].license_type_id[4]);
        assert(a[1].license_type_id[4] != b[1].license_type_id[4]);
        assert(a[2].license_type_id[4] != b[0].license_type_id[4]);
        assert(a[2].license_type_id[4] != b[1].license_type_id[4]);
        assert(a[3].license_type_id[4] != b[0].license_type_id[4]);
        assert(a[3].license_type_id[4] != b[1].license_type_id[4]);
        assert(a[4].license_type_id[4] != b[0].license_type_id[4]);
        assert(a[4].license_type_id[4] != b[1].license_type_id[4]);
        assert(a[5].license_type_id[4] != b[0].license_type_id[4]);
        assert(a[5].license_type_id[4] != b[1].license_type_id[4]);
        assert(a[6].license_type_id[4] != b[0].license_type_id[4]);
        assert(a[6].license_type_id[4] != b[1].license_type_id[4]);
        assert(a[7].license_type_id[4] != b[0].license_type_id[4]);
        assert(a[7].license_type_id[4] != b[1].license_type_id[4]);
        assert(a[8].license_type_id[4] != b[0].license_type_id[4]);
        assert(a[8].license_type_id[4] != b[1].license_type_id[4]);
        assert(a[9].license_type_id[4] != b[0].license_type_id[4]);
        assert(a[9].license_type_id[4] != b[1].license_type_id[4]);
        assert(a[10].license_type_id[4] != b[0].license_type_id[4]);
        assert(a[10].license_type_id[4] != b[1].license_type_id[4]);
        assert(a[11].license_type_id[4] != b[0].license_type_id[4]);
        assert(a[11].license_type_id[4] != b[1].license_type_id[4]);
        assert(a[12].license_type_id[4] != b[0].license_type_id[4]);
        assert(a[12].license_type_id[4] != b[1].license_type_id[4]);
        assert(a[13].license_type_id[4] != b[0].license_type_id[4]);
        assert(a[13].license_type_id[4] != b[1].license_type_id[4]);
        reveal_with_fuel(apart_each, 15);
        reveal_with_fuel(id_fresh_each, 3);
    }
    lemma_apart_each(a, b);
}

/// No licence type of `difc_license_types` shares an identifier with one of `dso_license_types`.
proof fn lemma_difc_license_types_apart_from_dso_license_types()
    ensures
        license_type_ids_apart(spec_difc_license_types(), spec_dso_license_types()),
{
    let a = spec_difc_license_types();
    let b = spec_dso_license_types();
    assert(apart_each(a, b)) by {
        reveal_strlit("ae-difc-dfsa:asset-management");
        reveal_strlit("ae-difc-dfsa:banking");
        reveal_strlit("ae-difc-dfsa:credit-rating");
        reveal_strlit("ae-difc-dfsa:crowdfunding");
        reveal_strlit("ae-difc-dfsa:custody");
        reveal_strlit("ae-difc-dfsa:digital-asset-custodian");
        reveal_strlit("ae-difc-dfsa:digital-asset-exchange");
        reveal_strlit("ae-difc-dfsa:insurance");
        reveal_strlit("ae-difc-dfsa:insurance-broker");
        reveal_strlit("ae-difc-dfsa:money-services");
        reveal_strlit("ae-difc-dfsa:securities-broker");
        reveal_strlit("ae-difc-roc:company");
        reveal_strlit("ae-difc-roc:foundation");
        reveal_strlit("ae-difc-roc:spv");
        reveal_strlit("ae-dso:freelancer");
        reveal_strlit("ae-dso:tech");
        assert(a[0].license_type_id[4] != b[0].license_type_id[4]);
        assert(a[0].license_type_id[4] != b[1].license_type_id[4]);
        assert(a[1].license_type_id[4] != b[0].license_type_id[4]);
        assert(a[1].license_type_id[4] != b[1].license_type_id[4]);
        assert(a[2].license_type_id[4] != b[0].license_type_id[4]);
        assert(a[2].license_type_id[4] != b[1].license_type_id[4]);
        assert(a[3].license_type_id[4] != b[0].license_type_id[4]);
        assert(a[3].license_type_id[4] != b[1].license_type_id[4]);
        assert(a[4].license_type_id[4] != b[0].license_type_id[4]);
        assert(a[4].license_type_id[4] != b[1].license_type_id[4]);
        assert(a[5].license_type_id[4] != b[0].license_type_id[4]);
        assert(a[5].license_type_id[4] != b[1].license_type_id[4]);
        assert(a[6].license_type_id[4] != b[0].license_type_id[4]);
        assert(a[6].license_type_id[4] != b[1].license_type_id[4]);
        assert(a[7].license_type_id[4] != b[0].license_type_id[4]);
        assert(a[7].license_type_id[4] != b[1].license_type_id[4]);
        assert(a[8].license_type_id[4] != b[0].license_type_id[4]);
        assert(a[8].license_type_id[4] != b[1].license_type_id[4]);
        assert(a[9].license_type_id[4] != b[0].license_type_id[4]);
        assert(a[9].license_type_id[4] != b[1].license_type_id[4]);
        assert(a[10].license_type_id[4] != b[0].license_type_id[4]);
        assert(a[10].license_type_id[4] != b[1].license_type_id[4]);
        assert(a[11].license_type_id[4] != b[0].license_type_id[4]);
        assert(a[11].license_type_id[4] != b[1].license_type_id[4]);
        assert(a[12].license_type_id[4] != b[0].license_type_id[4]);
        assert(a[12].license_type_id[4] != b[1].license_type_id[4]);
        assert(a[13].license_type_id[4] != b[0].license_type_id[4]);
        assert(a[13].license_type_id[4] != b[1].license_type_id[4]);
        reveal_with_fuel(apart_each, 15);
        reveal_with_fuel(id_fresh_each, 3);
    }
    lemma_apart_each(a, b);
}

/// No licence type of `difc_license_types` shares an identifier with one of `dic_license_types`.
proof fn lemma_difc_license_types_apart_from_dic_license_types()
    ensures
        license_type_ids_apart(spec_difc_license_types(), spec_dic_license_types()),
{
    let a = spec_difc_license_types();
    let b = spec_dic_license_types();
    assert(apart_each(a, b)) by {
        reveal_strlit("ae-dic:media");
        reveal_strlit("ae-dic:technology");
        reveal_strlit("ae-difc-dfsa:asset-management");
        reveal_strlit("ae-difc-dfsa:banking");
        reveal_strlit("ae-difc-dfsa:credit-rating");
        reveal_strlit("ae-difc-dfsa:crowdfunding");
        reveal_strlit("ae-difc-dfsa:custody");
        reveal_strlit("ae-difc-dfsa:digital-asset-custodian");
        reveal_strlit("ae-difc-dfsa:digital-asset-exchange");
        reveal_strlit("ae-difc-dfsa:insurance");
        reveal_strlit("ae-difc-dfsa:insurance-broker");
        reveal_strlit("ae-difc-dfsa:money-services");
        reveal_strlit("ae-difc-dfsa:securities-broker");
        reveal_strlit("ae-difc-roc:company");
        reveal_strlit("ae-difc-roc:foundation");
        reveal_strlit("ae-difc-roc:spv");
        assert(a[0].license_type_id[5] != b[0].license_type_id[5]);
        assert(a[0].license_type_id[5] != b[1].license_type_id[5]);
        assert(a[1].license_type_id[5] != b[0].license_type_id[5]);
        assert(a[1].license_type_id[5] != b[1].license_type_id[5]);
        assert(a[2].license_type_id[5] != b[0].license_type_id[5]);
        assert(a[2].license_type_id[5] != b[1].license_type_id[5]);
        assert(a[3].license_type_id[5] != b[0].license_type_id[5]);
        assert(a[3].license_type_id[5] != b[1].license_type_id[5]);
        assert(a[4].license_type_id[5] != b[0].license_type_id[5]);
        assert(a[4].license_type_id[5] != b[1].license_type_id[5]);
        assert(a[5].license_type_id[5] != b[0].license_type_id[5]);
        assert(a[5].license_type_id[5] != b[1].license_type_id[5]);
        assert(a[6].license_type_id[5] != b[0].license_type_id[5]);
        assert(a[6].license_type_id[5] != b[1].license_type_id[5]);
        assert(a[7].license_type_id[5] != b[0].license_type_id[5]);
        assert(a[7].license_type_id[5] != b[1].license_type_id[5]);
        assert(a[8].license_type_id[5] != b[0].license_type_id[5]);
        assert(a[8].license_type_id[5] != b[1].license_type_id[5]);
        assert(a[9].license_type_id[5] != b[0].license_type_id[5]);
        assert(a[9].license_type_id[5] != b[1].license_type_id[5]);
        assert(a[10].license_type_id[5] != b[0].license_type_id[5]);
        assert(a[10].license_type_id[5] != b[1].license_type_id[5]);
        assert(a[11].license_type_id[5] != b[0].license_type_id[5]);
        assert(a[11].license_type_id[5] != b[1].license_type_id[5]);
        assert(a[12].license_type_id[5] != b[0].license_type_id[5]);
        assert(a[12].license_type_id[5] != b[1].license_type_id[5]);
        assert(a[13].license_type_id[5] != b[0].license_type_id[5]);
        assert(a[13].license_type_id[5] != b[1].license_type_id[5]);
        reveal_with_fuel(apart_each, 15);
        reveal_with_fuel(id_fresh_each, 3);
    }
    lemma_apart_each(a, b);
}

/// No licence type of `difc_license_types` shares an identifier with one of `dhcc_license_types`.
proof fn lemma_difc_license_types_apart_from_dhcc_license_types()
    ensures
        license_type_ids_apart(spec_difc_license_types(), spec_dhcc_license_types()),
{
    let a = spec_difc_license_types();
    let b = spec_dhcc_license_types();
    assert(apart_each(a, b)) by {
        reveal_strlit("ae-dhcc:healthcare");
        reveal_strlit("ae-dhcc:pharmaceutical");
        reveal_strlit("ae-difc-dfsa:asset-management");
        reveal_strlit("ae-difc-dfsa:banking");
        reveal_strlit("ae-difc-dfsa:credit-rating");
        reveal_strlit("ae-difc-dfsa:crowdfunding");
        reveal_strlit("ae-difc-dfsa:custody");
        reveal_strlit("ae-difc-dfsa:digital-asset-custodian");
        reveal_strlit("ae-difc-dfsa:digital-asset-exchange");
        reveal_strlit("ae-difc-dfsa:insurance");
        reveal_strlit("ae-difc-dfsa:insurance-broker");
        reveal_strlit("ae-difc-dfsa:money-services");
        reveal_strlit("ae-difc-dfsa:securities-broker");
        reveal_strlit("ae-difc-roc:company");
        reveal_strlit("ae-difc-roc:foundation");
        reveal_strlit("ae-difc-roc:spv");
        assert(a[0].license_type_id[4] != b[0].license_type_id[4]);
        assert(a[0].license_type_id[4] != b[1].license_type_id[4]);
        assert(a[1].license_type_id[4] != b[0].license_type_id[4]);
        assert(a[1].license_type_id[4] != b[1].license_type_id[4]);
        assert(a[2].license_type_id[4] != b[0].license_type_id[4]);
        assert(a[2].license_type_id[4] != b[1].license_type_id[4]);
        assert(a[3].license_type_id[4] != b[0].license_type_id[4]);
        assert(a[3].license_type_id[4] != b[1].license_type_id[4]);
        assert(a[4].license_type_id[4] != b[0].license_type_id[4]);
        assert(a[4].license_type_id[4] != b[1].license_type_id[4]);
        assert(a[5].license_type_id[4] != b[0].license_type_id[4]);
        assert(a[5].license_type_id[4] != b[1].license_type_id[4]);
        assert(a[6].license_type_id[4] != b[0].license_type_id[4]);
        assert(a[6].license_type_id[4] != b[1].license_type_id[4]);
        assert(a[7].license_type_id[4] != b[0].license_type_id[4]);
        assert(a[7].license_type_id[4] != b[1].license_type_id[4]);
        assert(a[8].license_type_id[4] != b[0].license_type_id[4]);
        assert(a[8].license_type_id[4] != b[1].license_type_id[4]);
        assert(a[9].license_type_id[4] != b[0].license_type_id[4]);
        assert(a[9].license_type_id[4] != b[1].license_type_id[4]);
        assert(a[10].license_type_id[4] != b[0].license_type_id[4]);
        assert(a[10].license_type_id[4] != b[1].license_type_id[4]);
        assert(a[11].license_type_id[4] != b[0].license_type_id[4]);
        assert(a[11].license_type_id[4] != b[1].license_type_id[4]);
        assert(a[12].license_type_id[4] != b[0].license_type_id[4]);
        assert(a[12].license_type_id[4] != b[1].license_type_id[4]);
        assert(a[13].license_type_id[4] != b[0].license_type_id[4]);
        assert(a[13].license_type_id[4] != b[1].license_type_id[4]);
        reveal_with_fuel(apart_each, 15);
        reveal_with_fuel(id_fresh_each, 3);
    }
    lemma_apart_each(a, b);
}

/// No licence type of `difc_license_types` shares an identifier with one of `abudhabi_fz_license_types`.
proof fn lemma_difc_license_types_apart_from_abudhabi_fz_license_types()
    ensures
        license_type_ids_apart(spec_difc_license_types(), spec_abudhabi_fz_license_types()),
{
    let a = spec_difc_license_types();
    let b = spec_abudhabi_fz_license_types();
    assert(apart_each(a, b)) by {
        reveal_strlit("ae-abudhabi-added:trade-license");
        reveal_strlit("ae-difc-dfsa:asset-management");
        reveal_strlit("ae-difc-dfsa:banking");
        reveal_strlit("ae-difc-dfsa:credit-rating");
        reveal_strlit("ae-difc-dfsa:crowdfunding");
        reveal_strlit("ae-difc-dfsa:custody");
        reveal_strlit("ae-difc-dfsa:digital-asset-custodian");
        reveal_strlit("ae-difc-dfsa:digital-asset-exchange");
        reveal_strlit("ae-difc-dfsa:insurance");
        reveal_strlit("ae-difc-dfsa:insurance-broker");
        reveal_strlit("ae-difc-dfsa:money-services");
        reveal_strlit("ae-difc-dfsa:securities-broker");
        reveal_strlit("ae-difc-roc:company");
        reveal_strlit("ae-difc-roc:foundation");
        reveal_strlit("ae-difc-roc:spv");
        reveal_strlit("ae-kezad:industrial");
        reveal_strlit("ae-kezad:logistics");
        reveal_strlit("ae-kizad:industrial");
        reveal_strlit("ae-kizad:trading");
        reveal_strlit("ae-masdar:cleantech");
        reveal_strlit("ae-twofour54:media");
        assert(a[0].license_type_id[3] != b[0].license_type_id[3]);
        assert(a[0].license_type_id[3] != b[1].license_type_id[3]);
        assert(a[0].license_type_id[3] != b[2].license_type_id[3]);
        assert(a[0].license_type_id[3] != b[3].license_type_id[3]);
        assert(a[0].license_type_id[3] != b[4].license_type_id[3]);
        assert(a[0].license_type_id[3] != b[5].license_type_id[3]);
        assert(a[0].license_type_id[3] != b[6].license_type_id[3]);
        assert(a[1].license_type_id[3] != b[0].license_type_id[3]);
        assert(a[1].license_type_id[3] != b[1].license_type_id[3]);
        assert(a[1].license_type_id[3] != b[2].license_type_id[3]);
        assert(a[1].license_type_id[3] != b[3].license_type_id[3]);
        assert(a[1].license_type_id[3] != b[4].license_type_id[3]);
        assert(a[1].license_type_id[3] != b[5].license_type_id[3]);
        assert(a[1].license_type_id[3] != b[6].license_type_id[3]);
        assert(a[2].license_type_id[3] != b[0].license_type_id[3]);
        assert(a[2].license_type_id[3] != b[1].license_type_id[3]);
        assert(a[2].license_type_id[3] != b[2].license_type_id[3]);
        assert(a[2].license_type_id[3] != b[3].license_type_id[3]);
        assert(a[2].license_type_id[3] != b[4].license_type_id[3]);
        assert(a[2].license_type_id[3] != b[5].license_type_id[3]);
        assert(a[2].license_type_id[3] != b[6].license_type_id[3]);
        assert(a[3].license_type_id[3] != b[0].license_type_id[3]);
        assert(a[3].license_type_id[3] != b[1].license_type_id[3]);
        assert(a[3].license_type_id[3] != b[2].license_type_id[3]);
        assert(a[3].license_type_id[3] != b[3].license_type_id[3]);
        assert(a[3].license_type_id[3] != b[4].license_type_id[3]);
        assert(a[3].license_type_id[3] != b[5].license_type_id[3]);
        assert(a[3].license_type_id[3] != b[6].license_type_id[3]);
        assert(a[4].license_type_id[3] != b[0].license_type_id[3]);
        assert(a[4].license_type_id[3] != b[1].license_type_id[3]);
        assert(a[4].license_type_id[3] != b[2].license_type_id[3]);
        assert(a[4].license_type_id[3] != b[3].license_type_id[3]);
        assert(a[4].license_type_id[3] != b[4].license_type_id[3]);
        assert(a[4].license_type_id[3] != b[5].license_type_id[3]);
        assert(a[4].license_type_id[3] != b[6].license_type_id[3]);
        assert(a[5].license_type_id[3] != b[0].license_type_id[3]);
        assert(a[5].license_type_id[3] != b[1].license_type_id[3]);
        assert(a[5].license_type_id[3] != b[2].license_type_id[3]);
        assert(a[5].license_type_id[3] != b[3].license_type_id[3]);
        assert(a[5].license_type_id[3] != b[4].license_type_id[3]);
        assert(a[5].license_type_id[3] != b[5].license_type_id[3]);
        assert(a[5].license_type_id[3] != b[6].license_type_id[3]);
        assert(a[6].license_type_id[3] != b[0].license_type_id[3]);
        assert(a[6].license_type_id[3] != b[1].license_type_id[3]);
        assert(a[6].license_type_id[3] != b[2].license_type_id[3]);
        assert(a[6].license_type_id[3] != b[3].license_type_id[3]);
        assert(a[6].license_type_id[3] != b[4].license_type_id[3]);
        assert(a[6].license_type_id[3] != b[5].license_type_id[3]);
        assert(a[6].license_type_id[3] != b[6].license_type_id[3]);
        assert(a[7].license_type_id[3] != b[0].license_type_id[3]);
        assert(a[7].license_type_id[3] != b[1].license_type_id[3]);
        assert(a[7].license_type_id[3] != b[2].license_type_id[3]);
        assert(a[7].license_type_id[3] != b[3].license_type_id[3]);
        assert(a[7].license_type_id[3] != b[4].license_type_id[3]);
        assert(a[7].license_type_id[3] != b[5].license_type_id[3]);
        assert(a[7].license_type_id[3] != b[6].license_type_id[3]);
        assert(a[8].license_type_id[3] != b[0].license_type_id[3]);
        assert(a[8].license_type_id[3] != b[1].license_type_id[3]);
        assert(a[8].license_type_id[3] != b[2].license_type_id[3]);
        assert(a[8].license_type_id[3] != b[3].license_type_id[3]);
        assert(a[8].license_type_id[3] != b[4].license_type_id[3]);
        assert(a[8].license_type_id[3] != b[5].license_type_id[3]);
        assert(a[8].license_type_id[3] != b[6].license_type_id[3]);
        assert(a[9].license_type_id[3] != b[0].license_type_id[3]);
        assert(a[9].license_type_id[3] != b[1].license_type_id[3]);
        assert(a[9].license_type_id[3] != b[2].license_type_id[3]);
        assert(a[9].license_type_id[3] != b[3].license_type_id[3]);
        assert(a[9].license_type_id[3] != b[4].license_type_id[3]);
        assert(a[9].license_type_id[3] != b[5].license_type_id[3]);
        assert(a[9].license_type_id[3] != b[6].license_type_id[3]);
        assert(a[10].license_type_id[3] != b[0].license_type_id[3]);
        assert(a[10].license_type_id[3] != b[1].license_type_id[3]);
        assert(a[10].license_type_id[3] != b[2].license_type_id[3]);
        assert(a[10].license_type_id[3] != b[3].license_type_id[3]);
        assert(a[10].license_type_id[3] != b[4].license_type_id[3]);
        assert(a[10].license_type_id[3] != b[5].license_type_id[3]);
        assert(a[10].license_type_id[3] != b[6].license_type_id[3]);
        assert(a[11].license_type_id[3] != b[0].license_type_id[3]);
        assert(a[11].license_type_id[3] != b[1].license_type_id[3]);
        assert(a[11].license_type_id[3] != b[2].license_type_id[3]);
        assert(a[11].license_type_id[3] != b[3].license_type_id[3]);
        assert(a[11].license_type_id[3] != b[4].license_type_id[3]);
        assert(a[11].license_type_id[3] != b[5].license_type_id[3]);
        assert(a[11].license_type_id[3] != b[6].license_type_id[3]);
        assert(a[12].license_type_id[3] != b[0].license_type_id[3]);
        assert(a[12].license_type_id[3] != b[1].license_type_id[3]);
        assert(a[12].license_type_id[3] != b[2].license_type_id[3]);
        assert(a[12].license_type_id[3] != b[3].license_type_id[3]);
        assert(a[12].license_type_id[3] != b[4].license_type_id[3]);
        assert(a[12].license_type_id[3] != b[5].license_type_id[3]);
        assert(a[12].license_type_id[3] != b[6].license_type_id[3]);
        assert(a[13].license_type_id[3] != b[0].license_type_id[3]);
        assert(a[13].license_type_id[3] != b[1].license_type_id[3]);
        assert(a[13].license_type_id[3] != b[2].license_type_id[3]);
        assert(a[13].license_type_id[3] != b[3].license_type_id[3]);
        assert(a[13].license_type_id[3] != b[4].license_type_id[3]);
        assert(a[13].license_type_id[3] != b[5].license_type_id[3]);
        assert(a[13].license_type_id[3] != b[6].license_type_id[3]);
        reveal_with_fuel(apart_each, 15);
        reveal_with_fuel(id_fresh_each, 8);
    }
    lemma_apart_each(a, b);
}

/// No licence type of `difc_license_types` shares an identifier with one of `ded_license_types`.
proof fn lemma_difc_license_types_apart_from_ded_license_types()
    ensures
        license_type_ids_apart(spec_difc_license_types(), spec_ded_license_types()),
{
    let a = spec_difc_license_types();
    let b = spec_ded_license_types();
    assert(apart_each(a, b)) by {
        reveal_strlit("ae-difc-dfsa:asset-management");
        reveal_strlit("ae-difc-dfsa:banking");
        reveal_strlit("ae-difc-dfsa:credit-rating");
        reveal_strlit("ae-difc-dfsa:crowdfunding");
        reveal_strlit("ae-difc-dfsa:custody");
        reveal_strlit("ae-difc-dfsa:digital-asset-custodian");
        reveal_strlit("ae-difc-dfsa:digital-asset-exchange");
        reveal_strlit("ae-difc-dfsa:insurance");
        reveal_strlit("ae-difc-dfsa:insurance-broker");
        reveal_strlit("ae-difc-dfsa:money-services");
        reveal_strlit("ae-difc-dfsa:securities-broker");
        reveal_strlit("ae-difc-roc:company");
        reveal_strlit("ae-difc-roc:foundation");
        reveal_strlit("ae-difc-roc:spv");
        reveal_strlit("ae-dubai-ded:commercial");
        reveal_strlit("ae-dubai-ded:industrial");
        reveal_strlit("ae-dubai-ded:professional");
        assert(a[0].license_type_id[4] != b[0].license_type_id[4]);
        assert(a[0].license_type_id[4] != b[1].license_type_id[4]);
        assert(a[0].license_type_id[4] != b[2].license_type_id[4]);
        assert(a[1].license_type_id[4] != b[0].license_type_id[4]);
        assert(a[1].license_type_id[4] != b[1].license_type_id[4]);
        assert(a[1].license_type_id[4] != b[2].license_type_id[4]);
        assert(a[2].license_type_id[4] != b[0].license_type_id[4]);
        assert(a[2].license_type_id[4] != b[1].license_type_id[4]);
        assert(a[2].license_type_id[4] != b[2].license_type_id[4]);
        assert(a[3].license_type_id[4] != b[0].license_type_id[4]);
        assert(a[3].license_type_id[4] != b[1].license_type_id[4]);
        assert(a[3].license_type_id[4] != b[2].license_type_id[4]);
        assert(a[4].license_type_id[4] != b[0].license_type_id[4]);
        assert(a[4].license_type_id[4] != b[1].license_type_id[4]);
        assert(a[4].license_type_id[4] != b[2].license_type_id[4]);
        assert(a[5].license_type_id[4] != b[0].license_type_id[4]);
        assert(a[5].license_type_id[4] != b[1].license_type_id[4]);
        assert(a[5].license_type_id[4] != b[2].license_type_id[4]);
        assert(a[6].license_type_id[4] != b[0].license_type_id[4]);
        assert(a[6].license_type_id[4] != b[1].license_type_id[4]);
        assert(a[6].license_type_id[4] != b[2].license_type_id[4]);
        assert(a[7].license_type_id[4] != b[0].license_type_id[4]);
        assert(a[7].license_type_id[4] != b[1].license_type_id[4]);
        assert(a[7].license_type_id[4] != b[2].license_type_id[4]);
        assert(a[8].license_type_id[4] != b[0].license_type_id[4]);
        assert(a[8].license_type_id[4] != b[1].license_type_id[4]);
        assert(a[8].license_type_id[4] != b[2].license_type_id[4]);
        assert(a[9].license_type_id[4] != b[0].license_type_id[4]);
        assert(a[9].license_type_id[4] != b[1].license_type_id[4]);
        assert(a[9].license_type_id[4] != b[2].license_type_id[4]);
        assert(a[10].license_type_id[4] != b[0].license_type_id[4]);
        assert(a[10].license_type_id[4] != b[1].license_type_id[4]);
        assert(a[10].license_type_id[4] != b[2].license_type_id[4]);
        assert(a[11].license_type_id[4] != b[0].license_type_id[4]);
        assert(a[11].license_type_id[4] != b[1].license_type_id[4]);
        assert(a[11].license_type_id[4] != b[2].license_type_id[4]);
        assert(a[12].license_type_id[4] != b[0].license_type_id[4]);
        assert(a[12].license_type_id[4] != b[1].license_type_id[4]);
        assert(a[12].license_type_id[4] != b[2].license_type_id[4]);
        assert(a[13].license_type_id[4] != b[0].license_type_id[4]);
        assert(a[13].license_type_id[4] != b[1].license_type_id[4]);
        assert(a[13].license_type_id[4] != b[2].license_type_id[4]);
        reveal_with_fuel(apart_each, 15);
        reveal_with_fuel(id_fresh_each, 4);
    }
    lemma_apart_each(a, b);
}

/// No licence type of `dmcc_license_types` shares an identifier with one of `jafza_license_types`.
proof fn lemma_dmcc_license_types_apart_from_jafza_license_types()
    ensures
        license_type_ids_apart(spec_dmcc_license_types(), spec_jafza_license_types()),
{
    let a = spec_dmcc_license_types();
    let b = spec_jafza_license_types();
    assert(apart_each(a, b)) by {
        reveal_strlit("ae-dmcc:casp");
        reveal_strlit("ae-dmcc:diamond-trading");
        reveal_strlit("ae-dmcc:precious-metals");
        reveal_strlit("ae-dmcc:trade-license");
        reveal_strlit("ae-jafza:industrial");
        reveal_strlit("ae-jafza:logistics");
        reveal_strlit("ae-jafza:services");
        reveal_strlit("ae-jafza:trading");
        assert(a[0].license_type_id[3] != b[0].license_type_id[3]);
        assert(a[0].license_type_id[3] != b[1].license_type_id[3]);
        assert(a[0].license_type_id[3] != b[2].license_type_id[3]);
        assert(a[0].license_type_id[3] != b[3].license_type_id[3]);
        assert(a[1].license_type_id[3] != b[0].license_type_id[3]);
        assert(a[1].license_type_id[3] != b[1].license_type_id[3]);
        assert(a[1].license_type_id[3] != b[2].license_type_id[3]);
        assert(a[1].license_type_id[3] != b[3].license_type_id[3]);
        assert(a[2].license_type_id[3] != b[0].license_type_id[3]);
        assert(a[2].license_type_id[3] != b[1].license_type_id[3]);
        assert(a[2].license_type_id[3] != b[2].license_type_id[3]);
        assert(a[2].license_type_id[3] != b[3].license_type_id[3]);
        assert(a[3].license_type_id[3] != b[0].license_type_id[3]);
        assert(a[3].license_type_id[3] != b[1].license_type_id[3]);
        assert(a[3].license_type_id[3] != b[2].license_type_id[3]);
        assert(a[3].license_type_id[3] != b[3].license_type_id[3]);
        reveal_with_fuel(apart_each, 5);
        reveal_with_fuel(id_fresh_each, 5);
    }
    lemma_apart_each(a, b);
}

/// No licence type of `dmcc_license_types` shares an identifier with one of `ifza_license_types`.
proof fn lemma_dmcc_license_types_apart_from_ifza_license_types()
    ensures
        license_type_ids_apart(spec_dmcc_license_types(), spec_ifza_license_types()),
{
    let a = spec_dmcc_license_types();
    let b = spec_ifza_license_types();
    assert(apart_each(a, b)) by {
        reveal_strlit("ae-dmcc:casp");
        reveal_strlit("ae-dmcc:diamond-trading");
        reveal_strlit("ae-dmcc:precious-metals");
        reveal_strlit("ae-dmcc:trade-license");
        reveal_strlit("ae-ifza:consultancy");
        reveal_strlit("ae-ifza:e-commerce");
        reveal_strlit("ae-ifza:general-trading");
        assert(a[0].license_type_id[3] != b[0].license_type_id[3]);
        assert(a[0].license_type_id[3] != b[1].license_type_id[3]);
        assert(a[0].license_type_id[3] != b[2].license_type_id[3]);
        assert(a[1].license_type_id[3] != b[0].license_type_id[3]);
        assert(a[1].license_type_id[3] != b[1].license_type_id[3]);
        assert(a[1].license_type_id[3] != b[2].license_type_id[3]);
        assert(a[2].license_type_id[3] != b[0].license_type_id[3]);
        assert(a[2].license_type_id[3] != b[1].license_type_id[3]);
        assert(a[2].license_type_id[3] != b[2].license_type_id[3]);
        assert(a[3].license_type_id[3] != b[0].license_type_id[3]);
        assert(a[3].license_type_id[3] != b[1].license_type_id[3]);
        assert(a[3].license_type_id[3] != b[2].license_type_id[3]);
        reveal_with_fuel(apart_each, 5);
        reveal_with_fuel(id_fresh_each, 4);
    }
    lemma_apart_each(a, b);
}

/// No licence type of `dmcc_license_types` shares an identifier with one of `dwtc_license_types`.
proof fn lemma_dmcc_license_types_apart_from_dwtc_license_types()
    ensures
        license_type_ids_apart(spec_dmcc_license_types(), spec_dwtc_license_types()),
{
    let a = spec_dmcc_license_types();
    let b = spec_dwtc_license_types();
    assert(apart_each(a, b)) by {
        reveal_strlit("ae-dmcc:casp");
        reveal_strlit("ae-dmcc:diamond-trading");
        reveal_strlit("ae-dmcc:precious-metals");
        reveal_strlit("ae-dmcc:trade-license");
        reveal_strlit("ae-dwtc:events");
        reveal_strlit("ae-dwtc:hospitality");
        assert(a[0].license_type_id[4] != b[0].license_type_id[4]);
        assert(a[0].license_type_id[4] != b[1].license_type_id[4]);
        assert(a[1].license_type_id[4] != b[0].license_type_id[4]);
        assert(a[1].license_type_id[4] != b[1].license_type_id[4]);
        assert(a[2].license_type_id[4] != b[0].license_type_id[4]);
        assert(a[2].license_type_id[4] != b[1].license_type_id[4]);
        assert(a[3].license_type_id[4] != b[0].license_type_id[4]);
        assert(a[3].license_type_id[4] != b[1].license_type_id[4]);
        reveal_with_fuel(apart_each, 5);
        reveal_with_fuel(id_fresh_each, 3);
    }
    lemma_apart_each(a, b);
}

/// No licence type of `dmcc_license_types` shares an identifier with one of `dso_license_types`.
proof fn lemma_dmcc_license_types_apart_from_dso_license_types()
    ensures
        license_type_ids_apart(spec_dmcc_license_types(), spec_dso_license_types()),
{
    let a = spec_dmcc_license_types();
    let b = spec_dso_license_types();
    assert(apart_each(a, b)) by {
        reveal_strlit("ae-dmcc:casp");
        reveal_strlit("ae-dmcc:diamond-trading");
        reveal_strlit("ae-dmcc:precious-metals");
        reveal_strlit("ae-dmcc:trade-license");
        reveal_strlit("ae-dso:freelancer");
        reveal_strlit("ae-dso:tech");
        assert(a[0].license_type_id[4] != b[0].license_type_id[4]);
        assert(a[0].license_type_id[4] != b[1].license_type_id[4]);
        assert(a[1].license_type_id[4] != b[0].license_type_id[4]);
        assert(a[1].license_type_id[4] != b[1].license_type_id[4]);
        assert(a[2].license_type_id[4] != b[0].license_type_id[4]);
        assert(a[2].license_type_id[4] != b[1].license_type_id[4]);
        assert(a[3].license_type_id[4] != b[0].license_type_id[4]);
        assert(a[3].license_type_id[4] != b[1].license_type_id[4]);
        reveal_with_fuel(apart_each, 5);
        reveal_with_fuel(id_fresh_each, 3);
    }
    lemma_apart_each(a, b);
}

/// No licence type of `dmcc_license_types` shares an identifier with one of `dic_license_types`.
proof fn lemma_dmcc_license_types_apart_from_dic_license_types()
    ensures
        license_type_ids_apart(spec_dmcc_license_types(), spec_dic_license_types()),
{
    let a = spec_dmcc_license_types();
    let b = spec_dic_license_types();
    assert(apart_each(a, b)) by {
        reveal_strlit("ae-dic:media");
        reveal_strlit("ae-dic:technology");
        reveal_strlit("ae-dmcc:casp");
        reveal_strlit("ae-dmcc:diamond-trading");
        reveal_strlit("ae-dmcc:precious-metals");
        reveal_strlit("ae-dmcc:trade-license");
        assert(a[0].license_type_id[4] != b[0].license_type_id[4]);
        assert(a[0].license_type_id[4] != b[1].license_type_id[4]);
        assert(a[1].license_type_id[4] != b[0].license_type_id[4]);
        assert(a[1].license_type_id[4] != b[1].license_type_id[4]);
        assert(a[2].license_type_id[4] != b[0].license_type_id[4]);
        assert(a[2].license_type_id[4] != b[1].license_type_id[4]);
        assert(a[3].license_type_id[4] != b[0].license_type_id[4]);
        assert(a[3].license_type_id[4] != b[1].license_type_id[4]);
        reveal_with_fuel(apart_each, 5);
        reveal_with_fuel(id_fresh_each, 3);
    }
    lemma_apart_each(a, b);
}

/// No licence type of `dmcc_license_types` shares an identifier with one of `dhcc_license_types`.
proof fn lemma_dmcc_license_types_apart_from_dhcc_license_types()
    ensures
        license_type_ids_apart(spec_dmcc_license_types(), spec_dhcc_license_types()),
{
    let a = spec_dmcc_license_types();
    let b = spec_dhcc_license_types();
    assert(apart_each(a, b)) by {
        reveal_strlit("ae-dhcc:healthcare");
        reveal_strlit("ae-dhcc:pharmaceutical");
        reveal_strlit("ae-dmcc:casp");
        reveal_strlit("ae-dmcc:diamond-trading");
        reveal_strlit("ae-dmcc:precious-metals");
        reveal_strlit("ae-dmcc:trade-license");
        assert(a[0].license_type_id[4] != b[0].license_type_id[4]);
        assert(a[0].license_type_id[4] != b[1].license_type_id[4]);
        assert(a[1].license_type_id[4] != b[0].license_type_id[4]);
        assert(a[1].license_type_id[4] != b[1].license_type_id[4]);
        assert(a[2].license_type_id[4] != b[0].license_type_id[4]);
        assert(a[2].license_type_id[4] != b[1].license_type_id[4]);
        assert(a[3].license_type_id[4] != b[0].license_type_id[4]);
        assert(a[3].license_type_id[4] != b[1].license_type_id[4]);
        reveal_with_fuel(apart_each, 5);
        reveal_with_fuel(id_fresh_each, 3);
    }
    lemma_apart_each(a, b);
}

/// No licence type of `dmcc_license_types` shares an identifier with one of `abudhabi_fz_license_types`.
proof fn lemma_dmcc_license_types_apart_from_abudhabi_fz_license_types()
    ensures
        license_type_ids_apart(spec_dmcc_license_types(), spec_abudhabi_fz_license_types()),
{
    let a = spec_dmcc_license_types();
    let b = spec_abudhabi_fz_license_types();
    assert(apart_each(a, b)) by {
        reveal_strlit("ae-abudhabi-added:trade-license");
        reveal_strlit("ae-dmcc:casp");
        reveal_strlit("ae-dmcc:diamond-trading");
        reveal_strlit("ae-dmcc:precious-metals");
        reveal_strlit("ae-dmcc:trade-license");
        reveal_strlit("ae-kezad:industrial");
        reveal_strlit("ae-kezad:logistics");
        reveal_strlit("ae-kizad:industrial");
        reveal_strlit("ae-kizad:trading");
        reveal_strlit("ae-masdar:cleantech");
        reveal_strlit("ae-twofour54:media");
        assert(a[0].license_type_id[3] != b[0].license_type_id[3]);
        assert(a[0].license_type_id[3] != b[1].license_type_id[3]);
        assert(a[0].license_type_id[3] != b[2].license_type_id[3]);
        assert(a[0].license_type_id[3] != b[3].license_type_id[3]);
        assert(a[0].license_type_id[3] != b[4].license_type_id[3]);
        assert(a[0].license_type_id[3] != b[5].license_type_id[3]);
        assert(a[0].license_type_id[3] != b[6].license_type_id[3]);
        assert(a[1].license_type_id[3] != b[0].license_type_id[3]);
        assert(a[1].license_type_id[3] != b[1].license_type_id[3]);
        assert(a[1].license_type_id[3] != b[2].license_type_id[3]);
        assert(a[1].license_type_id[3] != b[3].license_type_id[3]);
        assert(a[1].license_type_id[3] != b[4].license_type_id[3]);
        assert(a[1].license_type_id[3] != b[5].license_type_id[3]);
        assert(a[1].license_type_id[3] != b[6].license_type_id[3]);
        assert(a[2].license_type_id[3] != b[0].license_type_id[3]);
        assert(a[2].license_type_id[3] != b[1].license_type_id[3]);
        assert(a[2].license_type_id[3] != b[2].license_type_id[3]);
        assert(a[2].license_type_id[3] != b[3].license_type_id[3]);
        assert(a[2].license_type_id[3] != b[4].license_type_id[3]);
        assert(a[2].license_type_id[3] != b[5].license_type_id[3]);
        assert(a[2].license_type_id[3] != b[6].license_type_id[3]);
        assert(a[3].license_type_id[3] != b[0].license_type_id[3]);
        assert(a[3].license_type_id[3] != b[1].license_type_id[3]);
        assert(a[3].license_type_id[3] != b[2].license_type_id[3]);
        assert(a[3].license_type_id[3] != b[3].license_type_id[3]);
        assert(a[3].license_type_id[3] != b[4].license_type_id[3]);
        assert(a[3].license_type_id[3] != b[5].license_type_id[3]);
        assert(a[3].license_type_id[3] != b[6].license_type_id[3]);
        reveal_with_fuel(apart_each, 5);
        reveal_with_fuel(id_fresh_each, 8);
    }
    lemma_apart_each(a, b);
}

/// No licence type of `dmcc_license_types` shares an identifier with one of `ded_license_types`.
proof fn lemma_dmcc_license_types_apart_from_ded_license_types()
    ensures
        license_type_ids_apart(spec_dmcc_license_types(), spec_ded_license_types()),
{
    let a = spec_dmcc_license_types();
    let b = spec_ded_license_types();
    assert(apart_each(a, b)) by {
        reveal_strlit("ae-dmcc:casp");
        reveal_strlit("ae-dmcc:diamond-trading");
        reveal_strlit("ae-dmcc:precious-metals");
        reveal_strlit("ae-dmcc:trade-license");
        reveal_strlit("ae-dubai-ded:commercial");
        reveal_strlit("ae-dubai-ded:industrial");
        reveal_strlit("ae-dubai-ded:professional");
        assert(a[0].license_type_id[4] != b[0].license_type_id[4]);
        assert(a[0].license_type_id[4] != b[1].license_type_id[4]);
        assert(a[0].license_type_id[4] != b[2].license_type_id[4]);
        assert(a[1].license_type_id[4] != b[0].license_type_id[4]);
        assert(a[1].license_type_id[4] != b[1].license_type_id[4]);
        assert(a[1].license_type_id[4] != b[2].license_type_id[4]);
        assert(a[2].license_type_id[4] != b[0].license_type_id[4]);
        assert(a[2].license_type_id[4] != b[1].license_type_id[4]);
        assert(a[2].license_type_id[4] != b[2].license_type_id[4]);
        assert(a[3].license_type_id[4] != b[0].license_type_id[4]);
        assert(a[3].license_type_id[4] != b[1].license_type_id[4]);
        assert(a[3].license_type_id[4] != b[2].license_type_id[4]);
        reveal_with_fuel(apart_each, 5);
        reveal_with_fuel(id_fresh_each, 4);
    }
    lemma_apart_each(a, b);
}

/// No licence type of `jafza_license_types` shares an identifier with one of `ifza_license_types`.
proof fn lemma_jafza_license_types_apart_from_ifza_license_types()
    ensures
        license_type_ids_apart(spec_jafza_license_types(), spec_ifza_license_types()),
{
    let a = spec_jafza_license_types();
    let b = spec_ifza_license_types();
    assert(apart_each(a, b)) by {
        reveal_strlit("ae-ifza:consultancy");
        reveal_strlit("ae-ifza:e-commerce");
        reveal_strlit("ae-ifza:general-trading");
        reveal_strlit("ae-jafza:industrial");
        reveal_strlit("ae-jafza:logistics");
        reveal_strlit("ae-jafza:services");
        reveal_strlit("ae-jafza:trading");
        assert(a[0].license_type_id[3] != b[0].license_type_id[3]);
        assert(a[0].license_type_id[3] != b[1].license_type_id[3]);
        assert(a[0].license_type_id[3] != b[2].license_type_id[3]);
        assert(a[1].license_type_id[3] != b[0].license_type_id[3]);
        assert(a[1].license_type_id[3] != b[1].license_type_id[3]);
        assert(a[1].license_type_id[3] != b[2].license_type_id[3]);
        assert(a[2].license_type_id[3] != b[0].license_type_id[3]);
        assert(a[2].license_type_id[3] != b[1].license_type_id[3]);
        assert(a[2].license_type_id[3] != b[2].license_type_id[3]);
        assert(a[3].license_type_id[3] != b[0].license_type_id[3]);
        assert(a[3].license_type_id[3] != b[1].license_type_id[3]);
        assert(a[3].license_type_id[3] != b[2].license_type_id[3]);
        reveal_with_fuel(apart_each, 5);
        reveal_with_fuel(id_fresh_each, 4);
    }
    lemma_apart_each(a, b);
}

/// No licence type of `jafza_license_types` shares an identifier with one of `dwtc_license_types`.
proof fn lemma_jafza_license_types_apart_from_dwtc_license_types()
    ensures
        license_type_ids_apart(spec_jafza_license_types(), spec_dwtc_license_types()),
{
    let a = spec_jafza_license_types();
    let b = spec_dwtc_license_types();
    assert(apart_each(a, b)) by {
        reveal_strlit("ae-dwtc:events");
        reveal_strlit("ae-dwtc:hospitality");
        reveal_strlit("ae-jafza:industrial");
        reveal_strlit("ae-jafza:logistics");
        reveal_strlit("ae-jafza:services");
        reveal_strlit("ae-jafza:trading");
        assert(a[0].license_type_id[3] != b[0].license_type_id[3]);
        assert(a[0].license_type_id[3] != b[1].license_type_id[3]);
        assert(a[1].license_type_id[3] != b[0].license_type_id[3]);
        assert(a[1].license_type_id[3] != b[1].license_type_id[3]);
        assert(a[2].license_type_id[3] != b[0].license_type_id[3]);
        assert(a[2].license_type_id[3] != b[1].license_type_id[3]);
        assert(a[3].license_type_id[3] != b[0].license_type_id[3]);
        assert(a[3].license_type_id[3] != b[1].license_type_id[3]);
        reveal_with_fuel(apart_each, 5);
        reveal_with_fuel(id_fresh_each, 3);
    }
    lemma_apart_each(a, b);
}

/// No licence type of `jafza_license_types` shares an identifier with one of `dso_license_types`.
proof fn lemma_jafza_license_types_apart_from_dso_license_types()
    ensures
        license_type_ids_apart(spec_jafza_license_types(), spec_dso_license_types()),
{
    let a = spec_jafza_license_types();
    let b = spec_dso_license_types();
    assert(apart_each(a, b)) by {
        reveal_strlit("ae-dso:freelancer");
        reveal_strlit("ae-dso:tech");
        reveal_strlit("ae-jafza:industrial");
        reveal_strlit("ae-jafza:logistics");
        reveal_strlit("ae-jafza:services");
        reveal_strlit("ae-jafza:trading");
        assert(a[0].license_type_id[3] != b[0].license_type_id[3]);
        assert(a[0].license_type_id[3] != b[1].license_type_id[3]);
        assert(a[1].license_type_id[3] != b[0].license_type_id[3]);
        assert(a[1].license_type_id[3] != b[1].license_type_id[3]);
        assert(a[2].license_type_id[3] != b[0].license_type_id[3]);
        assert(a[2].license_type_id[3] != b[1].license_type_id[3]);
        assert(a[3].license_type_id[3] != b[0].license_type_id[3]);
        assert(a[3].license_type_id[3] != b[1].license_type_id[3]);
        reveal_with_fuel(apart_each, 5);
        reveal_with_fuel(id_fresh_each, 3);
    }
    lemma_apart_each(a, b);
}

/// No licence type of `jafza_license_types` shares an identifier with one of `dic_license_types`.
proof fn lemma_jafza_license_types_apart_from_dic_license_types()
    ensures
        license_type_ids_apart(spec_jafza_license_types(), spec_dic_license_types()),
{
    let a = spec_jafza_license_types();
    let b = spec_dic_license_types();
    assert(apart_each(a, b)) by {
        reveal_strlit("ae-dic:media");
        reveal_strlit("ae-dic:technology");
        reveal_strlit("ae-jafza:industrial");
        reveal_strlit("ae-jafza:logistics");
        reveal_strlit("ae-jafza:services");
        reveal_strlit("ae-jafza:trading");
        assert(a[0].license_type_id[3] != b[0].license_type_id[3]);
        assert(a[0].license_type_id[3] != b[1].license_type_id[3]);
        assert(a[1].license_type_id[3] != b[0].license_type_id[3]);
        assert(a[1].license_type_id[3] != b[1].license_type_id[3]);
        assert(a[2].license_type_id[3] != b[0].license_type_id[3]);
        assert(a[2].license_type_id[3] != b[1].license_type_id[3]);
        assert(a[3].license_type_id[3] != b[0].license_type_id[3]);
        assert(a[3].license_type_id[3] != b[1].license_type_id[3]);
        reveal_with_fuel(apart_each, 5);
        reveal_with_fuel(id_fresh_each, 3);
    }
    lemma_apart_each(a, b);
}

/// No licence type of `jafza_license_types` shares an identifier with one of `dhcc_license_types`.
proof fn lemma_jafza_license_types_apart_from_dhcc_license_types()
    ensures
        license_type_ids_apart(spec_jafza_license_types(), spec_dhcc_license_types()),
{
    let a = spec_jafza_license_types();
    let b = spec_dhcc_license_types();
    assert(apart_each(a, b)) by {
        reveal_strlit("ae-dhcc:healthcare");
        reveal_strlit("ae-dhcc:pharmaceutical");
        reveal_strlit("ae-jafza:industrial");
        reveal_strlit("ae-jafza:logistics");
        reveal_strlit("ae-jafza:services");
        reveal_strlit("ae-jafza:trading");
        assert(a[0].license_type_id[3] != b[0].license_type_id[3]);
        assert(a[0].license_type_id[3] != b[1].license_type_id[3]);
        assert(a[1].license_type_id[3] != b[0].license_type_id[3]);
        assert(a[1].license_type_id[3] != b[1].license_type_id[3]);
        assert(a[2].license_type_id[3] != b[0].license_type_id[3]);
        assert(a[2].license_type_id[3] != b[1].license_type_id[3]);
        assert(a[3].license_type_id[3] != b[0].license_type_id[3]);
        assert(a[3].license_type_id[3] != b[1].license_type_id[3]);
        reveal_with_fuel(apart_each, 5);
        reveal_with_fuel(id_fresh_each, 3);
    }
    lemma_apart_each(a, b);
}

/// No licence type of `jafza_license_types` shares an identifier with one of `abudhabi_fz_license_types`.
proof fn lemma_jafza_license_types_apart_from_abudhabi_fz_license_types()
    ensures
        license_type_ids_apart(spec_jafza_license_types(), spec_abudhabi_fz_license_types()),
{
    let a = spec_jafza_license_types();
    let b = spec_abudhabi_fz_license_types();
    assert(apart_each(a, b)) by {
        reveal_strlit("ae-abudhabi-added:trade-license");
        reveal_strlit("ae-jafza:industrial");
        reveal_strlit("ae-jafza:logistics");
        reveal_strlit("ae-jafza:services");
        reveal_strlit("ae-jafza:trading");
        reveal_strlit("ae-kezad:industrial");
        reveal_strlit("ae-kezad:logistics");
        reveal_strlit("ae-kizad:industrial");
        reveal_strlit("ae-kizad:trading");
        reveal_strlit("ae-masdar:cleantech");
        reveal_strlit("ae-twofour54:media");
        assert(a[0].license_type_id[3] != b[0].license_type_id[3]);
        assert(a[0].license_type_id[3] != b[1].license_type_id[3]);
        assert(a[0].license_type_id[3] != b[2].license_type_id[3]);
        assert(a[0].license_type_id[3] != b[3].license_type_id[3]);
        assert(a[0].license_type_id[3] != b[4].license_type_id[3]);
        assert(a[0].license_type_id[3] != b[5].license_type_id[3]);
        assert(a[0].license_type_id[3] != b[6].license_type_id[3]);
        assert(a[1].license_type_id[3] != b[0].license_type_id[3]);
        assert(a[1].license_type_id[3] != b[1].license_type_id[3]);
        assert(a[1].license_type_id[3] != b[2].license_type_id[3]);
        assert(a[1].license_type_id[3] != b[3].license_type_id[3]);
        assert(a[1].license_type_id[3] != b[4].license_type_id[3]);
        assert(a[1].license_type_id[3] != b[5].license_type_id[3]);
        assert(a[1].license_type_id[3] != b[6].license_type_id[3]);
        assert(a[2].license_type_id[3] != b[0].license_type_id[3]);
        assert(a[2].license_type_id[3] != b[1].license_type_id[3]);
        assert(a[2].license_type_id[3] != b[2].license_type_id[3]);
        assert(a[2].license_type_id[3] != b[3].license_type_id[3]);
        assert(a[2].license_type_id[3] != b[4].license_type_id[3]);
        assert(a[2].license_type_id[3] != b[5].license_type_id[3]);
        assert(a[2].license_type_id[3] != b[6].license_type_id[3]);
        assert(a[3].license_type_id[3] != b[0].license_type_id[3]);
        assert(a[3].license_type_id[3] != b[1].license_type_id[3]);
        assert(a[3].license_type_id[3] != b[2].license_type_id[3]);
        assert(a[3].license_type_id[3] != b[3].license_type_id[3]);
        assert(a[3].license_type_id[3] != b[4].license_type_id[3]);
        assert(a[3].license_type_id[3] != b[5].license_type_id[3]);
        assert(a[3].license_type_id[3] != b[6].license_type_id[3]);
        reveal_with_fuel(apart_each, 5);
        reveal_with_fuel(id_fresh_each, 8);
    }
    lemma_apart_each(a, b);
}

/// No licence type of `jafza_license_types` shares an identifier with one of `ded_license_types`.
proof fn lemma_jafza_license_types_apart_from_ded_license_types()
    ensures
        license_type_ids_apart(spec_jafza_license_types(), spec_ded_license_types()),
{
    let a = spec_jafza_license_types();
    let b = spec_ded_license_types();
    assert(apart_each(a, b)) by {
        reveal_strlit("ae-dubai-ded:commercial");
        reveal_strlit("ae-dubai-ded:industrial");
        reveal_strlit("ae-dubai-ded:professional");
        reveal_strlit("ae-jafza:industrial");
        reveal_strlit("ae-jafza:logistics");
        reveal_strlit("ae-jafza:services");
        reveal_strlit("ae-jafza:trading");
        assert(a[0].license_type_id[3] != b[0].license_type_id[3]);
        assert(a[0].license_type_id[3] != b[1].license_type_id[3]);
        assert(a[0].license_type_id[3] != b[2].license_type_id[3]);
        assert(a[1].license_type_id[3] != b[0].license_type_id[3]);
        assert(a[1].license_type_id[3] != b[1].license_type_id[3]);
        assert(a[1].license_type_id[3] != b[2].license_type_id[3]);
        assert(a[2].license_type_id[3] != b[0].license_type_id[3]);
        assert(a[2].license_type_id[3] != b[1].license_type_id[3]);
        assert(a[2].license_type_id[3] != b[2].license_type_id[3]);
        assert(a[3].license_type_id[3] != b[0].license_type_id[3]);
        assert(a[3].license_type_id[3] != b[1].license_type_id[3]);
        assert(a[3].license_type_id[3] != b[2].license_type_id[3]);
        reveal_with_fuel(apart_each, 5);
        reveal_with_fuel(id_fresh_each, 4);
    }
    lemma_apart_each(a, b);
}

/// No licence type of `ifza_license_types` shares an identifier with one of `dwtc_license_types`.
proof fn lemma_ifza_license_types_apart_from_dwtc_license_types()
    ensures
        license_type_ids_apart(spec_ifza_license_types(), spec_dwtc_license_types()),
{
    let a = spec_ifza_license_types();
    let b = spec_dwtc_license_types();
    assert(apart_each(a, b)) by {
        reveal_strlit("ae-dwtc:events");
        reveal_strlit("ae-dwtc:hospitality");
        reveal_strlit("ae-ifza:consultancy");
        reveal_strlit("ae-ifza:e-commerce");
        reveal_strlit("ae-ifza:general-trading");
        assert(a[0].license_type_id[3] != b[0].license_type_id[3]);
        assert(a[0].license_type_id[3] != b[1].license_type_id[3]);
        assert(a[1].license_type_id[3] != b[0].license_type_id[3]);
        assert(a[1].license_type_id[3] != b[1].license_type_id[3]);
        assert(a[2].license_type_id[3] != b[0].license_type_id[3]);
        assert(a[2].license_type_id[3] != b[1].license_type_id[3]);
        reveal_with_fuel(apart_each, 4);
        reveal_with_fuel(id_fresh_each, 3);
    }
    lemma_apart_each(a, b);
}

/// No licence type of `ifza_license_types` shares an identifier with one of `dso_license_types`.
proof fn lemma_ifza_license_types_apart_from_dso_license_types()
    ensures
        license_type_ids_apart(spec_ifza_license_types(), spec_dso_license_types()),
{
    let a = spec_ifza_license_types();
    let b = spec_dso_license_types();
    assert(apart_each(a, b)) by {
        reveal_strlit("ae-dso:freelancer");
        reveal_strlit("ae-dso:tech");
        reveal_strlit("ae-ifza:consultancy");
        reveal_strlit("ae-ifza:e-commerce");
        reveal_strlit("ae-ifza:general-trading");
        assert(a[0].license_type_id[3] != b[0].license_type_id[3]);
        assert(a[0].license_type_id[3] != b[1].license_type_id[3]);
        assert(a[1].license_type_id[3] != b[0].license_type_id[3]);
        assert(a[1].license_type_id[3] != b[1].license_type_id[3]);
        assert(a[2].license_type_id[3] != b[0].license_type_id[3]);
        assert(a[2].license_type_id[3] != b[1].license_type_id[3]);
        reveal_with_fuel(apart_each, 4);
        reveal_with_fuel(id_fresh_each, 3);
    }
    lemma_apart_each(a, b);
}

/// No licence type of `ifza_license_types` shares an identifier with one of `dic_license_types`.
proof fn lemma_ifza_license_types_apart_from_dic_license_types()
    ensures
        license_type_ids_apart(spec_ifza_license_types(), spec_dic_license_types()),
{
    let a = spec_ifza_license_types();
    let b = spec_dic_license_types();
    assert(apart_each(a, b)) by {
        reveal_strlit("ae-dic:media");
        reveal_strlit("ae-dic:technology");
        reveal_strlit("ae-ifza:consultancy");
        reveal_strlit("ae-ifza:e-commerce");
        reveal_strlit("ae-ifza:general-trading");
        assert(a[0].license_type_id[3] != b[0].license_type_id[3]);
        assert(a[0].license_type_id[3] != b[1].license_type_id[3]);
        assert(a[1].license_type_id[3] != b[0].license_type_id[3]);
        assert(a[1].license_type_id[3] != b[1].license_type_id[3]);
        assert(a[2].license_type_id[3] != b[0].license_type_id[3]);
        assert(a[2].license_type_id[3] != b[1].license_type_id[3]);
        reveal_with_fuel(apart_each, 4);
        reveal_with_fuel(id_fresh_each, 3);
    }
    lemma_apart_each(a, b);
}

/// No licence type of `ifza_license_types` shares an identifier with one of `dhcc_license_types`.
proof fn lemma_ifza_license_types_apart_from_dhcc_license_types()
    ensures
        license_type_ids_apart(spec_ifza_license_types(), spec_dhcc_license_types()),
{
    let a = spec_ifza_license_types();
    let b = spec_dhcc_license_types();
    assert(apart_each(a, b)) by {
        reveal_strlit("ae-dhcc:healthcare");
        reveal_strlit("ae-dhcc:pharmaceutical");
        reveal_strlit("ae-ifza:consultancy");
        reveal_strlit("ae-ifza:e-commerce");
        reveal_strlit("ae-ifza:general-trading");
        assert(a[0].license_type_id[3] != b[0].license_type_id[3]);
        assert(a[0].license_type_id[3] != b[1].license_type_id[3]);
        assert(a[1].license_type_id[3] != b[0].license_type_id[3]);
        assert(a[1].license_type_id[3] != b[1].license_type_id[3]);
        assert(a[2].license_type_id[3] != b[0].license_type_id[3]);
        assert(a[2].license_type_id[3] != b[1].license_type_id[3]);
        reveal_with_fuel(apart_each, 4);
        reveal_with_fuel(id_fresh_each, 3);
    }
    lemma_apart_each(a, b);
}

/// No licence type of `ifza_license_types` shares an identifier with one of `abudhabi_fz_license_types`.
proof fn lemma_ifza_license_types_apart_from_abudhabi_fz_license_types()
    ensures
        license_type_ids_apart(spec_ifza_license_types(), spec_abudhabi_fz_license_types()),
{
    let a = spec_ifza_license_types();
    let b = spec_abudhabi_fz_license_types();
    assert(apart_each(a, b)) by {
        reveal_strlit("ae-abudhabi-added:trade-license");
        reveal_strlit("ae-ifza:consultancy");
        reveal_strlit("ae-ifza:e-commerce");
        reveal_strlit("ae-ifza:general-trading");
        reveal_strlit("ae-kezad:industrial");
        reveal_strlit("ae-kezad:logistics");
        reveal_strlit("ae-kizad:industrial");
        reveal_strlit("ae-kizad:trading");
        reveal_strlit("ae-masdar:cleantech");
        reveal_strlit("ae-twofour54:media");
        assert(a[0].license_type_id[3] != b[0].license_type_id[3]);
        assert(a[0].license_type_id[3] != b[1].license_type_id[3]);
        assert(a[0].license_type_id[3] != b[2].license_type_id[3]);
        assert(a[0].license_type_id[3] != b[3].license_type_id[3]);
        assert(a[0].license_type_id[3] != b[4].license_type_id[3]);
        assert(a[0].license_type_id[3] != b[5].license_type_id[3]);
        assert(a[0].license_type_id[3] != b[6].license_type_id[3]);
        assert(a[1].license_type_id[3] != b[0].license_type_id[3]);
        assert(a[1].license_type_id[3] != b[1].license_type_id[3]);
        assert(a[1].license_type_id[3] != b[2].license_type_id[3]);
        assert(a[1].license_type_id[3] != b[3].license_type_id[3]);
        assert(a[1].license_type_id[3] != b[4].license_type_id[3]);
        assert(a[1].license_type_id[3] != b[5].license_type_id[3]);
        assert(a[1].license_type_id[3] != b[6].license_type_id[3]);
        assert(a[2].license_type_id[3] != b[0].license_type_id[3]);
        assert(a[2].license_type_id[3] != b[1].license_type_id[3]);
        assert(a[2].license_type_id[3] != b[2].license_type_id[3]);
        assert(a[2].license_type_id[3] != b[3].license_type_id[3]);
        assert(a[2].license_type_id[3] != b[4].license_type_id[3]);
        assert(a[2].license_type_id[3] != b[5].license_type_id[3]);
        assert(a[2].license_type_id[3] != b[6].license_type_id[3]);
        reveal_with_fuel(apart_each, 4);
        reveal_with_fuel(id_fresh_each, 8);
    }
    lemma_apart_each(a, b);
}

/// No licence type of `ifza_license_types` shares an identifier with one of `ded_license_types`.
proof fn lemma_ifza_license_types_apart_from_ded_license_types()
    ensures
        license_type_ids_apart(spec_ifza_license_types(), spec_ded_license_types()),
{
    let a = spec_ifza_license_types();
    let b = spec_ded_license_types();
    assert(apart_each(a, b)) by {
        reveal_strlit("ae-dubai-ded:commercial");
        reveal_strlit("ae-dubai-ded:industrial");
        reveal_strlit("ae-dubai-ded:professional");
        reveal_strlit("ae-ifza:consultancy");
        reveal_strlit("ae-ifza:e-commerce");
        reveal_strlit("ae-ifza:general-trading");
        assert(a[0].license_type_id[3] != b[0].license_type_id[3]);
        assert(a[0].license_type_id[3] != b[1].license_type_id[3]);
        assert(a[0].license_type_id[3] != b[2].license_type_id[3]);
        assert(a[1].license_type_id[3] != b[0].license_type_id[3]);
        assert(a[1].license_type_id[3] != b[1].license_type_id[3]);
        assert(a[1].license_type_id[3] != b[2].license_type_id[3]);
        assert(a[2].license_type_id[3] != b[0].license_type_id[3]);
        assert(a[2].license_type_id[3] != b[1].license_type_id[3]);
        assert(a[2].license_type_id[3] != b[2].license_type_id[3]);
        reveal_with_fuel(apart_each, 4);
        reveal_with_fuel(id_fresh_each, 4);
    }
    lemma_apart_each(a, b);
}

/// No licence type of `dwtc_license_types` shares an identifier with one of `dso_license_types`.
proof fn lemma_dwtc_license_types_apart_from_dso_license_types()
    ensures
        license_type_ids_apart(spec_dwtc_license_types(), spec_dso_license_types()),
{
    let a = spec_dwtc_license_types();
    let b = spec_dso_license_types();
    assert(apart_each(a, b)) by {
        reveal_strlit("ae-dso:freelancer");
        reveal_strlit("ae-dso:tech");
        reveal_strlit("ae-dwtc:events");
        reveal_strlit("ae-dwtc:hospitality");
        assert(a[0].license_type_id[4] != b[0].license_type_id[4]);
        assert(a[0].license_type_id[4] != b[1].license_type_id[4]);
        assert(a[1].license_type_id[4] != b[0].license_type_id[4]);
        assert(a[1].license_type_id[4] != b[1].license_type_id[4]);
        reveal_with_fuel(apart_each, 3);
        reveal_with_fuel(id_fresh_each, 3);
    }
    lemma_apart_each(a, b);
}

/// No licence type of `dwtc_license_types` shares an identifier with one of `dic_license_types`.
proof fn lemma_dwtc_license_types_apart_from_dic_license_types()
    ensures
        license_type_ids_apart(spec_dwtc_license_types(), spec_dic_license_types()),
{
    let a = spec_dwtc_license_types();
    let b = spec_dic_license_types();
    assert(apart_each(a, b)) by {
        reveal_strlit("ae-dic:media");
        reveal_strlit("ae-dic:technology");
        reveal_strlit("ae-dwtc:events");
        reveal_strlit("ae-dwtc:hospitality");
        assert(a[0].license_type_id[4] != b[0].license_type_id[4]);
        assert(a[0].license_type_id[4] != b[1].license_type_id[4]);
        assert(a[1].license_type_id[4] != b[0].license_type_id[4]);
        assert(a[1].license_type_id[4] != b[1].license_type_id[4]);
        reveal_with_fuel(apart_each, 3);
        reveal_with_fuel(id_fresh_each, 3);
    }
    lemma_apart_each(a, b);
}

/// No licence type of `dwtc_license_types` shares an identifier with one of `dhcc_license_types`.
proof fn lemma_dwtc_license_types_apart_from_dhcc_license_types()
    ensures
        license_type_ids_apart(spec_dwtc_license_types(), spec_dhcc_license_types()),
{
    let a = spec_dwtc_license_types();
    let b = spec_dhcc_license_types();
    assert(apart_each(a, b)) by {
        reveal_strlit("ae-dhcc:healthcare");
        reveal_strlit("ae-dhcc:pharmaceutical");
        reveal_strlit("ae-dwtc:events");
        reveal_strlit("ae-dwtc:hospitality");
        assert(a[0].license_type_id[4] != b[0].license_type_id[4]);
        assert(a[0].license_type_id[4] != b[1].license_type_id[4]);
        assert(a[1].license_type_id[4] != b[0].license_type_id[4]);
        assert(a[1].license_type_id[4] != b[1].license_type_id[4]);
        reveal_with_fuel(apart_each, 3);
        reveal_with_fuel(id_fresh_each, 3);
    }
    lemma_apart_each(a, b);
}

/// No licence type of `dwtc_license_types` shares an identifier with one of `abudhabi_fz_license_types`.
proof fn lemma_dwtc_license_types_apart_from_abudhabi_fz_license_types()
    ensures
        license_type_ids_apart(spec_dwtc_license_types(), spec_abudhabi_fz_license_types()),
{
    let a = spec_dwtc_license_types();
    let b = spec_abudhabi_fz_license_types();
    assert(apart_each(a, b)) by {
        reveal_strlit("ae-abudhabi-added:trade-license");
        reveal_strlit("ae-dwtc:events");
        reveal_strlit("ae-dwtc:hospitality");
        reveal_strlit("ae-kezad:industrial");
        reveal_strlit("ae-kezad:logistics");
        reveal_strlit("ae-kizad:industrial");
        reveal_strlit("ae-kizad:trading");
        reveal_strlit("ae-masdar:cleantech");
        reveal_strlit("ae-twofour54:media");
        assert(a[0].license_type_id[3] != b[0].license_type_id[3]);
        assert(a[0].license_type_id[3] != b[1].license_type_id[3]);
        assert(a[0].license_type_id[3] != b[2].license_type_id[3]);
        assert(a[0].license_type_id[3] != b[3].license_type_id[3]);
        assert(a[0].license_type_id[3] != b[4].license_type_id[3]);
        assert(a[0].license_type_id[3] != b[5].license_type_id[3]);
        assert(a[0].license_type_id[3] != b[6].license_type_id[3]);
        assert(a[1].license_type_id[3] != b[0].license_type_id[3]);
        assert(a[1].license_type_id[3] != b[1].license_type_id[3]);
        assert(a[1].license_type_id[3] != b[2].license_type_id[3]);
        assert(a[1].license_type_id[3] != b[3].license_type_id[3]);
        assert(a[1].license_type_id[3] != b[4].license_type_id[3]);
        assert(a[1].license_type_id[3] != b[5].license_type_id[3]);
        assert(a[1].license_type_id[3] != b[6].license_type_id[3]);
        reveal_with_fuel(apart_each, 3);
        reveal_with_fuel(id_fresh_each, 8);
    }
    lemma_apart_each(a, b);
}

/// No licence type of `dwtc_license_types` shares an identifier with one of `ded_license_types`.
proof fn lemma_dwtc_license_types_apart_from_ded_license_types()
    ensures
        license_type_ids_apart(spec_dwtc_license_types(), spec_ded_license_types()),
{
    let a = spec_dwtc_license_types();
    let b = spec_ded_license_types();
    assert(apart_each(a, b)) by {
        reveal_strlit("ae-dubai-ded:commercial");
        reveal_strlit("ae-dubai-ded:industrial");
        reveal_strlit("ae-dubai-ded:professional");
        reveal_strlit("ae-dwtc:events");
        reveal_strlit("ae-dwtc:hospitality");
        assert(a[0].license_type_id[4] != b[0].license_type_id[4]);
        assert(a[0].license_type_id[4] != b[1].license_type_id[4]);
        assert(a[0].license_type_id[4] != b[2].license_type_id[4]);
        assert(a[1].license_type_id[4] != b[0].license_type_id[4]);
        assert(a[1].license_type_id[4] != b[1].license_type_id[4]);
        assert(a[1].license_type_id[4] != b[2].license_type_id[4]);
        reveal_with_fuel(apart_each, 3);
        reveal_with_fuel(id_fresh_each, 4);
    }
    lemma_apart_each(a, b);
}

/// No licence type of `dso_license_types` shares an identifier with one of `dic_license_types`.
proof fn lemma_dso_license_types_apart_from_dic_license_types()
    ensures
        license_type_ids_apart(spec_dso_license_types(), spec_dic_license_types()),
{
    let a = spec_dso_license_types();
    let b = spec_dic_license_types();
    assert(apart_each(a, b)) by {
        reveal_strlit("ae-dic:media");
        reveal_strlit("ae-dic:technology");
        reveal_strlit("ae-dso:freelancer");
        reveal_strlit("ae-dso:tech");
        assert(a[0].license_type_id[4] != b[0].license_type_id[4]);
        assert(a[0].license_type_id[4] != b[1].license_type_id[4]);
        assert(a[1].license_type_id[4] != b[0].license_type_id[4]);
        assert(a[1].license_type_id[4] != b[1].license_type_id[4]);
        reveal_with_fuel(apart_each, 3);
        reveal_with_fuel(id_fresh_each, 3);
    }
    lemma_apart_each(a, b);
}

/// No licence type of `dso_license_types` shares an identifier with one of `dhcc_license_types`.
proof fn lemma_dso_license_types_apart_from_dhcc_license_types()
    ensures
        license_type_ids_apart(spec_dso_license_types(), spec_dhcc_license_types()),
{
    let a = spec_dso_license_types();
    let b = spec_dhcc_license_types();
    assert(apart_each(a, b)) by {
        reveal_strlit("ae-dhcc:healthcare");
        reveal_strlit("ae-dhcc:pharmaceutical");
        reveal_strlit("ae-dso:freelancer");
        reveal_strlit("ae-dso:tech");
        assert(a[0].license_type_id[4] != b[0].license_type_id[4]);
        assert(a[0].license_type_id[4] != b[1].license_type_id[4]);
        assert(a[1].license_type_id[4] != b[0].license_type_id[4]);
        assert(a[1].license_type_id[4] != b[1].license_type_id[4]);
        reveal_with_fuel(apart_each, 3);
        reveal_with_fuel(id_fresh_each, 3);
    }
    lemma_apart_each(a, b);
}

/// No licence type of `dso_license_types` shares an identifier with one of `abudhabi_fz_license_types`.
proof fn lemma_dso_license_types_apart_from_abudhabi_fz_license_types()
    ensures
        license_type_ids_apart(spec_dso_license_types(), spec_abudhabi_fz_license_types()),
{
    let a = spec_dso_license_types();
    let b = spec_abudhabi_fz_license_types();
    assert(apart_each(a, b)) by {
        reveal_strlit("ae-abudhabi-added:trade-license");
        reveal_strlit("ae-dso:freelancer");
        reveal_strlit("ae-dso:tech");
        reveal_strlit("ae-kezad:industrial");
        reveal_strlit("ae-kezad:logistics");
        reveal_strlit("ae-kizad:industrial");
        reveal_strlit("ae-kizad:trading");
        reveal_strlit("ae-masdar:cleantech");
        reveal_strlit("ae-twofour54:media");
        assert(a[0].license_type_id[3] != b[0].license_type_id[3]);
        assert(a[0].license_type_id[3] != b[1].license_type_id[3]);
        assert(a[0].license_type_id[3] != b[2].license_type_id[3]);
        assert(a[0].license_type_id[3] != b[3].license_type_id[3]);
        assert(a[0].license_type_id[3] != b[4].license_type_id[3]);
        assert(a[0].license_type_id[3] != b[5].license_type_id[3]);
        assert(a[0].license_type_id[3] != b[6].license_type_id[3]);
        assert(a[1].license_type_id[3] != b[0].license_type_id[3]);
        assert(a[1].license_type_id[3] != b[1].license_type_id[3]);
        assert(a[1].license_type_id[3] != b[2].license_type_id[3]);
        assert(a[1].license_type_id[3] != b[3].license_type_id[3]);
        assert(a[1].license_type_id[3] != b[4].license_type_id[3]);
        assert(a[1].license_type_id[3] != b[5].license_type_id[3]);
        assert(a[1].license_type_id[3] != b[6].license_type_id[3]);
        reveal_with_fuel(apart_each, 3);
        reveal_with_fuel(id_fresh_each, 8);
    }
    lemma_apart_each(a, b);
}

/// No licence type of `dso_license_types` shares an identifier with one of `ded_license_types`.
proof fn lemma_dso_license_types_apart_from_ded_license_types()
    ensures
        license_type_ids_apart(spec_dso_license_types(), spec_ded_license_types()),
{
    let a = spec_dso_license_types();
    let b = spec_ded_license_types();
    assert(apart_each(a, b)) by {
        reveal_strlit("ae-dso:freelancer");
        reveal_strlit("ae-dso:tech");
        reveal_strlit("ae-dubai-ded:commercial");
        reveal_strlit("ae-dubai-ded:industrial");
        reveal_strlit("ae-dubai-ded:professional");
        assert(a[0].license_type_id[4] != b[0].license_type_id[4]);
        assert(a[0].license_type_id[4] != b[1].license_type_id[4]);
        assert(a[0].license_type_id[4] != b[2].license_type_id[4]);
        assert(a[1].license_type_id[4] != b[0].license_type_id[4]);
        assert(a[1].license_type_id[4] != b[1].license_type_id[4]);
        assert(a[1].license_type_id[4] != b[2].license_type_id[4]);
        reveal_with_fuel(apart_each, 3);
        reveal_with_fuel(id_fresh_each, 4);
    }
    lemma_apart_each(a, b);
}

/// No licence type of `dic_license_types` shares an identifier with one of `dhcc_license_types`.
proof fn lemma_dic_license_types_apart_from_dhcc_license_types()
    ensures
        license_type_ids_apart(spec_dic_license_types(), spec_dhcc_license_types()),
{
    let a = spec_dic_license_types();
    let b = spec_dhcc_license_types();
    assert(apart_each(a, b)) by {
        reveal_strlit("ae-dhcc:healthcare");
        reveal_strlit("ae-dhcc:pharmaceutical");
        reveal_strlit("ae-dic:media");
        reveal_strlit("ae-dic:technology");
        assert(a[0].license_type_id[4] != b[0].license_type_id[4]);
        assert(a[0].license_type_id[4] != b[1].license_type_id[4]);
        assert(a[1].license_type_id[4] != b[0].license_type_id[4]);
        assert(a[1].license_type_id[4] != b[1].license_type_id[4]);
        reveal_with_fuel(apart_each, 3);
        reveal_with_fuel(id_fresh_each, 3);
    }
    lemma_apart_each(a, b);
}

/// No licence type of `dic_license_types` shares an identifier with one of `abudhabi_fz_license_types`.
proof fn lemma_dic_license_types_apart_from_abudhabi_fz_license_types()
    ensures
        license_type_ids_apart(spec_dic_license_types(), spec_abudhabi_fz_license_types()),
{
    let a = spec_dic_license_types();
    let b = spec_abudhabi_fz_license_types();
    assert(apart_each(a, b)) by {
        reveal_strlit("ae-abudhabi-added:trade-license");
        reveal_strlit("ae-dic:media");
        reveal_strlit("ae-dic:technology");
        reveal_strlit("ae-kezad:industrial");
        reveal_strlit("ae-kezad:logistics");
        reveal_strlit("ae-kizad:industrial");
        reveal_strlit("ae-kizad:trading");
        reveal_strlit("ae-masdar:cleantech");
        reveal_strlit("ae-twofour54:media");
        assert(a[0].license_type_id[3] != b[0].license_type_id[3]);
        assert(a[0].license_type_id[3] != b[1].license_type_id[3]);
        assert(a[0].license_type_id[3] != b[2].license_type_id[3]);
        assert(a[0].license_type_id[3] != b[3].license_type_id[3]);
        assert(a[0].license_type_id[3] != b[4].license_type_id[3]);
        assert(a[0].license_type_id[3] != b[5].license_type_id[3]);
        assert(a[0].license_type_id[3] != b[6].license_type_id[3]);
        assert(a[1].license_type_id[3] != b[0].license_type_id[3]);
        assert(a[1].license_type_id[3] != b[1].license_type_id[3]);
        assert(a[1].license_type_id[3] != b[2].license_type_id[3]);
        assert(a[1].license_type_id[3] != b[3].license_type_id[3]);
        assert(a[1].license_type_id[3] != b[4].license_type_id[3]);
        assert(a[1].license_type_id[3] != b[5].license_type_id[3]);
        assert(a[1].license_type_id[3] != b[6].license_type_id[3]);
        reveal_with_fuel(apart_each, 3);
        reveal_with_fuel(id_fresh_each, 8);
    }
    lemma_apart_each(a, b);
}

/// No licence type of `dic_license_types` shares an identifier with one of `ded_license_types`.
proof fn lemma_dic_license_types_apart_from_ded_license_types()
    ensures
        license_type_ids_apart(spec_dic_license_types(), spec_ded_license_types()),
{
    let a = spec_dic_license_types();
    let b = spec_ded_license_types();
    assert(apart_each(a, b)) by {
        reveal_strlit("ae-dic:media");
        reveal_strlit("ae-dic:technology");
        reveal_strlit("ae-dubai-ded:commercial");
        reveal_strlit("ae-dubai-ded:industrial");
        reveal_strlit("ae-dubai-ded:professional");
        assert(a[0].license_type_id[4] != b[0].license_type_id[4]);
        assert(a[0].license_type_id[4] != b[1].license_type_id[4]);
        assert(a[0].license_type_id[4] != b[2].license_type_id[4]);
        assert(a[1].license_type_id[4] != b[0].license_type_id[4]);
        assert(a[1].license_type_id[4] != b[1].license_type_id[4]);
        assert(a[1].license_type_id[4] != b[2].license_type_id[4]);
        reveal_with_fuel(apart_each, 3);
        reveal_with_fuel(id_fresh_each, 4);
    }
    lemma_apart_each(a, b);
}

/// No licence type of `dhcc_license_types` shares an identifier with one of `abudhabi_fz_license_types`.
proof fn lemma_dhcc_license_types_apart_from_abudhabi_fz_license_types()
    ensures
        license_type_ids_apart(spec_dhcc_license_types(), spec_abudhabi_fz_license_types()),
{
    let a = spec_dhcc_license_types();
    let b = spec_abudhabi_fz_license_types();
    assert(apart_each(a, b)) by {
        reveal_strlit("ae-abudhabi-added:trade-license");
        reveal_strlit("ae-dhcc:healthcare");
        reveal_strlit("ae-dhcc:pharmaceutical");
        reveal_strlit("ae-kezad:industrial");
        reveal_strlit("ae-kezad:logistics");
        reveal_strlit("ae-kizad:industrial");
        reveal_strlit("ae-kizad:trading");
        reveal_strlit("ae-masdar:cleantech");
        reveal_strlit("ae-twofour54:media");
        assert(a[0].license_type_id[3] != b[0].license_type_id[3]);
        assert(a[0].license_type_id[3] != b[1].license_type_id[3]);
        assert(a[0].license_type_id[3] != b[2].license_type_id[3]);
        assert(a[0].license_type_id[3] != b[3].license_type_id[3]);
        assert(a[0].license_type_id[3] != b[4].license_type_id[3]);
        assert(a[0].license_type_id[3] != b[5].license_type_id[3]);
        assert(a[0].license_type_id[3] != b[6].license_type_id[3]);
        assert(a[1].license_type_id[3] != b[0].license_type_id[3]);
        assert(a[1].license_type_id[3] != b[1].license_type_id[3]);
        assert(a[1].license_type_id[3] != b[2].license_type_id[3]);
        assert(a[1].license_type_id[3] != b[3].license_type_id[3]);
        assert(a[1].license_type_id[3] != b[4].license_type_id[3]);
        assert(a[1].license_type_id[3] != b[5].license_type_id[3]);
        assert(a[1].license_type_id[3] != b[6].license_type_id[3]);
        reveal_with_fuel(apart_each, 3);
        reveal_with_fuel(id_fresh_each, 8);
    }
    lemma_apart_each(a, b);
}

/// No licence type of `dhcc_license_types` shares an identifier with one of `ded_license_types`.
proof fn lemma_dhcc_license_types_apart_from_ded_license_types()
    ensures
        license_type_ids_apart(spec_dhcc_license_types(), spec_ded_license_types()),
{
    let a = spec_dhcc_license_types();
    let b = spec_ded_license_types();
    assert(apart_each(a, b)) by {
        reveal_strlit("ae-dhcc:healthcare");
        reveal_strlit("ae-dhcc:pharmaceutical");
        reveal_strlit("ae-dubai-ded:commercial");
        reveal_strlit("ae-dubai-ded:industrial");
        reveal_strlit("ae-dubai-ded:professional");
        assert(a[0].license_type_id[4] != b[0].license_type_id[4]);
        assert(a[0].license_type_id[4] != b[1].license_type_id[4]);
        assert(a[0].license_type_id[4] != b[2].license_type_id[4]);
        assert(a[1].license_type_id[4] != b[0].license_type_id[4]);
        assert(a[1].license_type_id[4] != b[1].license_type_id[4]);
        assert(a[1].license_type_id[4] != b[2].license_type_id[4]);
        reveal_with_fuel(apart_each, 3);
        reveal_with_fuel(id_fresh_each, 4);
    }
    lemma_apart_each(a, b);
}

/// No licence type of `abudhabi_fz_license_types` shares an identifier with one of `ded_license_types`.
proof fn lemma_abudhabi_fz_license_types_apart_from_ded_license_types()
    ensures
        license_type_ids_apart(spec_abudhabi_fz_license_types(), spec_ded_license_types()),
{
    let a = spec_abudhabi_fz_license_types();
    let b = spec_ded_license_types();
    assert(apart_each(a, b)) by {
        reveal_strlit("ae-abudhabi-added:trade-license");
        reveal_strlit("ae-dubai-ded:commercial");
        reveal_strlit("ae-dubai-ded:industrial");
        reveal_strlit("ae-dubai-ded:professional");
        reveal_strlit("ae-kezad:industrial");
        reveal_strlit("ae-kezad:logistics");
        reveal_strlit("ae-kizad:industrial");
        reveal_strlit("ae-kizad:trading");
        reveal_strlit("ae-masdar:cleantech");
        reveal_strlit("ae-twofour54:media");
        assert(a[0].license_type_id[3] != b[0].license_type_id[3]);
        assert(a[0].license_type_id[3] != b[1].license_type_id[3]);
        assert(a[0].license_type_id[3] != b[2].license_type_id[3]);
        assert(a[1].license_type_id[3] != b[0].license_type_id[3]);
        assert(a[1].license_type_id[3] != b[1].license_type_id[3]);
        assert(a[1].license_type_id[3] != b[2].license_type_id[3]);
        assert(a[2].license_type_id[3] != b[0].license_type_id[3]);
        assert(a[2].license_type_id[3] != b[1].license_type_id[3]);
        assert(a[2].license_type_id[3] != b[2].license_type_id[3]);
        assert(a[3].license_type_id[3] != b[0].license_type_id[3]);
        assert(a[3].license_type_id[3] != b[1].license_type_id[3]);
        assert(a[3].license_type_id[3] != b[2].license_type_id[3]);
        assert(a[4].license_type_id[3] != b[0].license_type_id[3]);
        assert(a[4].license_type_id[3] != b[1].license_type_id[3]);
        assert(a[4].license_type_id[3] != b[2].license_type_id[3]);
        assert(a[5].license_type_id[3] != b[0].license_type_id[3]);
        assert(a[5].license_type_id[3] != b[1].license_type_id[3]);
        assert(a[5].license_type_id[3] != b[2].license_type_id[3]);
        assert(a[6].license_type_id[3] != b[0].license_type_id[3]);
        assert(a[6].license_type_id[3] != b[1].license_type_id[3]);
        assert(a[6].license_type_id[3] != b[2].license_type_id[3]);
        reveal_with_fuel(apart_each, 8);
        reveal_with_fuel(id_fresh_each, 4);
    }
    lemma_apart_each(a, b);
}

/// No two licence types of `uae_license_types` share an identifier.
pub proof fn lemma_uae_license_type_ids_distinct()
    ensures
        license_type_ids_distinct(spec_uae_license_types()),
{
    lemma_federal_license_types_ids_distinct();
    lemma_adgm_license_types_ids_distinct();
    lemma_difc_license_types_ids_distinct();
    lemma_dmcc_license_types_ids_distinct();
    lemma_jafza_license_types_ids_distinct();
    lemma_ifza_license_types_ids_distinct();
    lemma_dwtc_license_types_ids_distinct();
    lemma_dso_license_types_ids_distinct();
    lemma_dic_license_types_ids_distinct();
    lemma_dhcc_license_types_ids_distinct();
    lemma_abudhabi_fz_license_types_ids_distinct();
    lemma_ded_license_types_ids_distinct();
    assert(spec_uae_license_types() =~= spec_federal_license_types() + spec_adgm_license_types() + spec_difc_license_types() + spec_dmcc_license_types() + spec_jafza_license_types() + spec_ifza_license_types() + spec_dwtc_license_types() + spec_dso_license_types() + spec_dic_license_types() + spec_dhcc_license_types() + spec_abudhabi_fz_license_types() + spec_ded_license_types());
    let acc = spec_federal_license_types();
    lemma_federal_license_types_apart_from_adgm_license_types();
    let part = spec_federal_license_types();
    lemma_ids_distinct_append(acc, spec_adgm_license_types());
    let acc = acc + spec_adgm_license_types();
    lemma_federal_license_types_apart_from_difc_license_types();
    lemma_adgm_license_types_apart_from_difc_license_types();
    let part = spec_federal_license_types();
    lemma_ids_apart_append(part, spec_adgm_license_types(), spec_difc_license_types());
    let part = part + spec_adgm_license_types();
    lemma_ids_distinct_append(acc, spec_difc_license_types());
    let acc = acc + spec_difc_license_types();
    lemma_federal_license_types_apart_from_dmcc_license_types();
    lemma_adgm_license_types_apart_from_dmcc_license_types();
    lemma_difc_license_types_apart_from_dmcc_license_types();
    let part = spec_federal_license_types();
    lemma_ids_apart_append(part, spec_adgm_license_types(), spec_dmcc_license_types());
    let part = part + spec_adgm_license_types();
    lemma_ids_apart_append(part, spec_difc_license_types(), spec_dmcc_license_types());
    let part = part + spec_difc_license_types();
    lemma_ids_distinct_append(acc, spec_dmcc_license_types());
    let acc = acc + spec_dmcc_license_types();
    lemma_federal_license_types_apart_from_jafza_license_types();
    lemma_adgm_license_types_apart_from_jafza_license_types();
    lemma_difc_license_types_apart_from_jafza_license_types();
    lemma_dmcc_license_types_apart_from_jafza_license_types();
    let part = spec_federal_license_types();
    lemma_ids_apart_append(part, spec_adgm_license_types(), spec_jafza_license_types());
    let part = part + spec_adgm_license_types();
    lemma_ids_apart_append(part, spec_difc_license_types(), spec_jafza_license_types());
    let part = part + spec_difc_license_types();
    lemma_ids_apart_append(part, spec_dmcc_license_types(), spec_jafza_license_types());
    let part = part + spec_dmcc_license_types();
    lemma_ids_distinct_append(acc, spec_jafza_license_types());
    let acc = acc + spec_jafza_license_types();
    lemma_federal_license_types_apart_from_ifza_license_types();
    lemma_adgm_license_types_apart_from_ifza_license_types();
    lemma_difc_license_types_apart_from_ifza_license_types();
    lemma_dmcc_license_types_apart_from_ifza_license_types();
    lemma_jafza_license_types_apart_from_ifza_license_types();
    let part = spec_federal_license_types();
    lemma_ids_apart_append(part, spec_adgm_license_types(), spec_ifza_license_types());
    let part = part + spec_adgm_license_types();
    lemma_ids_apart_append(part, spec_difc_license_types(), spec_ifza_license_types());
    let part = part + spec_difc_license_types();
    lemma_ids_apart_append(part, spec_dmcc_license_types(), spec_ifza_license_types());
    let part = part + spec_dmcc_license_types();
    lemma_ids_apart_append(part, spec_jafza_license_types(), spec_ifza_license_types());
    let part = part + spec_jafza_license_types();
    lemma_ids_distinct_append(acc, spec_ifza_license_types());
    let acc = acc + spec_ifza_license_types();
    lemma_federal_license_types_apart_from_dwtc_license_types();
    lemma_adgm_license_types_apart_from_dwtc_license_types();
    lemma_difc_license_types_apart_from_dwtc_license_types();
    lemma_dmcc_license_types_apart_from_dwtc_license_types();
    lemma_jafza_license_types_apart_from_dwtc_license_types();
    lemma_ifza_license_types_apart_from_dwtc_license_types();
    let part = spec_federal_license_types();
    lemma_ids_apart_append(part, spec_adgm_license_types(), spec_dwtc_license_types());
    let part = part + spec_adgm_license_types();
    lemma_ids_apart_append(part, spec_difc_license_types(), spec_dwtc_license_types());
    let part = part + spec_difc_license_types();
    lemma_ids_apart_append(part, spec_dmcc_license_types(), spec_dwtc_license_types());
    let part = part + spec_dmcc_license_types();
    lemma_ids_apart_append(part, spec_jafza_license_types(), spec_dwtc_license_types());
    let part = part + spec_jafza_license_types();
    lemma_ids_apart_append(part, spec_ifza_license_types(), spec_dwtc_license_types());
    let part = part + spec_ifza_license_types();
    lemma_ids_distinct_append(acc, spec_dwtc_license_types());
    let acc = acc + spec_dwtc_license_types();
    lemma_federal_license_types_apart_from_dso_license_types();
    lemma_adgm_license_types_apart_from_dso_license_types();
    lemma_difc_license_types_apart_from_dso_license_types();
    lemma_dmcc_license_types_apart_from_dso_license_types();
    lemma_jafza_license_types_apart_from_dso_license_types();
    lemma_ifza_license_types_apart_from_dso_license_types();
    lemma_dwtc_license_types_apart_from_dso_license_types();
    let part = spec_federal_license_types();
    lemma_ids_apart_append(part, spec_adgm_license_types(), spec_dso_license_types());
    let part = part + spec_adgm_license_types();
    lemma_ids_apart_append(part, spec_difc_license_types(), spec_dso_license_types());
    let part = part + spec_difc_license_types();
    lemma_ids_apart_append(part, spec_dmcc_license_types(), spec_dso_license_types());
    let part = part + spec_dmcc_license_types();
    lemma_ids_apart_append(part, spec_jafza_license_types(), spec_dso_license_types());
    let part = part + spec_jafza_license_types();
    lemma_ids_apart_append(part, spec_ifza_license_types(), spec_dso_license_types());
    let part = part + spec_ifza_license_types();
    lemma_ids_apart_append(part, spec_dwtc_license_types(), spec_dso_license_types());
    let part = part + spec_dwtc_license_types();
    lemma_ids_distinct_append(acc, spec_dso_license_types());
    let acc = acc + spec_dso_license_types();
    lemma_federal_license_types_apart_from_dic_license_types();
    lemma_adgm_license_types_apart_from_dic_license_types();
    lemma_difc_license_types_apart_from_dic_license_types();
    lemma_dmcc_license_types_apart_from_dic_license_types();
    lemma_jafza_license_types_apart_from_dic_license_types();
    lemma_ifza_license_types_apart_from_dic_license_types();
    lemma_dwtc_license_types_apart_from_dic_license_types();
    lemma_dso_license_types_apart_from_dic_license_types();
    let part = spec_federal_license_types();
    lemma_ids_apart_append(part, spec_adgm_license_types(), spec_dic_license_types());
    let part = part + spec_adgm_license_types();
    lemma_ids_apart_append(part, spec_difc_license_types(), spec_dic_license_types());
    let part = part + spec_difc_license_types();
    lemma_ids_apart_append(part, spec_dmcc_license_types(), spec_dic_license_types());
    let part = part + spec_dmcc_license_types();
    lemma_ids_apart_append(part, spec_jafza_license_types(), spec_dic_license_types());
    let part = part + spec_jafza_license_types();
    lemma_ids_apart_append(part, spec_ifza_license_types(), spec_dic_license_types());
    let part = part + spec_ifza_license_types();
    lemma_ids_apart_append(part, spec_dwtc_license_types(), spec_dic_license_types());
    let part = part + spec_dwtc_license_types();
    lemma_ids_apart_append(part, spec_dso_license_types(), spec_dic_license_types());
    let part = part + spec_dso_license_types();
    lemma_ids_distinct_append(acc, spec_dic_license_types());
    let acc = acc + spec_dic_license_types();
    lemma_federal_license_types_apart_from_dhcc_license_types();
    lemma_adgm_license_types_apart_from_dhcc_license_types();
    lemma_difc_license_types_apart_from_dhcc_license_types();
    lemma_dmcc_license_types_apart_from_dhcc_license_types();
    lemma_jafza_license_types_apart_from_dhcc_license_types();
    lemma_ifza_license_types_apart_from_dhcc_license_types();
    lemma_dwtc_license_types_apart_from_dhcc_license_types();
    lemma_dso_license_types_apart_from_dhcc_license_types();
    lemma_dic_license_types_apart_from_dhcc_license_types();
    let part = spec_federal_license_types();
    lemma_ids_apart_append(part, spec_adgm_license_types(), spec_dhcc_license_types());
    let part = part + spec_adgm_license_types();
    lemma_ids_apart_append(part, spec_difc_license_types(), spec_dhcc_license_types());
    let part = part + spec_difc_license_types();
    lemma_ids_apart_append(part, spec_dmcc_license_types(), spec_dhcc_license_types());
    let part = part + spec_dmcc_license_types();
    lemma_ids_apart_append(part, spec_jafza_license_types(), spec_dhcc_license_types());
    let part = part + spec_jafza_license_types();
    lemma_ids_apart_append(part, spec_ifza_license_types(), spec_dhcc_license_types());
    let part = part + spec_ifza_license_types();
    lemma_ids_apart_append(part, spec_dwtc_license_types(), spec_dhcc_license_types());
    let part = part + spec_dwtc_license_types();
    lemma_ids_apart_append(part, spec_dso_license_types(), spec_dhcc_license_types());
    let part = part + spec_dso_license_types();
    lemma_ids_apart_append(part, spec_dic_license_types(), spec_dhcc_license_types());
    let part = part + spec_dic_license_types();
    lemma_ids_distinct_append(acc, spec_dhcc_license_types());
    let acc = acc + spec_dhcc_license_types();
    lemma_federal_license_types_apart_from_abudhabi_fz_license_types();
    lemma_adgm_license_types_apart_from_abudhabi_fz_license_types();
    lemma_difc_license_types_apart_from_abudhabi_fz_license_types();
    lemma_dmcc_license_types_apart_from_abudhabi_fz_license_types();
    lemma_jafza_license_types_apart_from_abudhabi_fz_license_types();
    lemma_ifza_license_types_apart_from_abudhabi_fz_license_types();
    lemma_dwtc_license_types_apart_from_abudhabi_fz_license_types();
    lemma_dso_license_types_apart_from_abudhabi_fz_license_types();
    lemma_dic_license_types_apart_from_abudhabi_fz_license_types();
    lemma_dhcc_license_types_apart_from_abudhabi_fz_license_types();
    let part = spec_federal_license_types();
    lemma_ids_apart_append(part, spec_adgm_license_types(), spec_abudhabi_fz_license_types());
    let part = part + spec_adgm_license_types();
    lemma_ids_apart_append(part, spec_difc_license_types(), spec_abudhabi_fz_license_types());
    let part = part + spec_difc_license_types();
    lemma_ids_apart_append(part, spec_dmcc_license_types(), spec_abudhabi_fz_license_types());
    let part = part + spec_dmcc_license_types();
    lemma_ids_apart_append(part, spec_jafza_license_types(), spec_abudhabi_fz_license_types());
    let part = part + spec_jafza_license_types();
    lemma_ids_apart_append(part, spec_ifza_license_types(), spec_abudhabi_fz_license_types());
    let part = part + spec_ifza_license_types();
    lemma_ids_apart_append(part, spec_dwtc_license_types(), spec_abudhabi_fz_license_types());
    let part = part + spec_dwtc_license_types();
    lemma_ids_apart_append(part, spec_dso_license_types(), spec_abudhabi_fz_license_types());
    let part = part + spec_dso_license_types();
    lemma_ids_apart_append(part, spec_dic_license_types(), spec_abudhabi_fz_license_types());
    let part = part + spec_dic_license_types();
    lemma_ids_apart_append(part, spec_dhcc_license_types(), spec_abudhabi_fz_license_types());
    let part = part + spec_dhcc_license_types();
    lemma_ids_distinct_append(acc, spec_abudhabi_fz_license_types());
    let acc = acc + spec_abudhabi_fz_license_types();
    lemma_federal_license_types_apart_from_ded_license_types();
    lemma_adgm_license_types_apart_from_ded_license_types();
    lemma_difc_license_types_apart_from_ded_license_types();
    lemma_dmcc_license_types_apart_from_ded_license_types();
    lemma_jafza_license_types_apart_from_ded_license_types();
    lemma_ifza_license_types_apart_from_ded_license_types();
    lemma_dwtc_license_types_apart_from_ded_license_types();
    lemma_dso_license_types_apart_from_ded_license_types();
    lemma_dic_license_types_apart_from_ded_license_types();
    lemma_dhcc_license_types_apart_from_ded_license_types();
    lemma_abudhabi_fz_license_types_apart_from_ded_license_types();
    let part = spec_federal_license_types();
    lemma_ids_apart_append(part, spec_adgm_license_types(), spec_ded_license_types());
    let part = part + spec_adgm_license_types();
    lemma_ids_apart_append(part, spec_difc_license_types(), spec_ded_license_types());
    let part = part + spec_difc_license_types();
    lemma_ids_apart_append(part, spec_dmcc_license_types(), spec_ded_license_types());
    let part = part + spec_dmcc_license_types();
    lemma_ids_apart_append(part, spec_jafza_license_types(), spec_ded_license_types());
    let part = part + spec_jafza_license_types();
    lemma_ids_apart_append(part, spec_ifza_license_types(), spec_ded_license_types());
    let part = part + spec_ifza_license_types();
    lemma_ids_apart_append(part, spec_dwtc_license_types(), spec_ded_license_types());
    let part = part + spec_dwtc_license_types();
    lemma_ids_apart_append(part, spec_dso_license_types(), spec_ded_license_types());
    let part = part + spec_dso_license_types();
    lemma_ids_apart_append(part, spec_dic_license_types(), spec_ded_license_types());
    let part = part + spec_dic_license_types();
    lemma_ids_apart_append(part, spec_dhcc_license_types(), spec_ded_license_types());
    let part = part + spec_dhcc_license_types();
    lemma_ids_apart_append(part, spec_abudhabi_fz_license_types(), spec_ded_license_types());
    let part = part + spec_abudhabi_fz_license_types();
    lemma_ids_distinct_append(acc, spec_ded_license_types());
    let acc = acc + spec_ded_license_types();
    assert(spec_uae_license_types() == acc);
}

/// Each licence-type identifier of `federal_license_types` starts with its regulator's
/// identifier and a colon.
proof fn lemma_federal_license_types_prefixed()
    ensures
        license_type_ids_prefixed(spec_federal_license_types()),
{
    let ts = spec_federal_license_types();
    assert(license_type_id_prefixed(ts[0])) by {
        reveal_strlit("ae-cbuae:commercial-bank");
        reveal_strlit("ae-cbuae");
        reveal_strlit(":");
        assert(ts[0].license_type_id.subrange(0, (ts[0].regulator_id + ":"@).len() as int) =~= ts[0].regulator_id + ":"@);
    }
    assert(license_type_id_prefixed(ts[1])) by {
        reveal_strlit("ae-cbuae:islamic-bank");
        reveal_strlit("ae-cbuae");
        reveal_strlit(":");
        assert(ts[1].license_type_id.subrange(0, (ts[1].regulator_id + ":"@).len() as int) =~= ts[1].regulator_id + ":"@);
    }
    assert(license_type_id_prefixed(ts[2])) by {
        reveal_strlit("ae-cbuae:exchange-house");
        reveal_strlit("ae-cbuae");
        reveal_strlit(":");
        assert(ts[2].license_type_id.subrange(0, (ts[2].regulator_id + ":"@).len() as int) =~= ts[2].regulator_id + ":"@);
    }
    assert(license_type_id_prefixed(ts[3])) by {
        reveal_strlit("ae-cbuae:stored-value");
        reveal_strlit("ae-cbuae");
        reveal_strlit(":");
        assert(ts[3].license_type_id.subrange(0, (ts[3].regulator_id + ":"@).len() as int) =~= ts[3].regulator_id + ":"@);
    }
    assert(license_type_id_prefixed(ts[4])) by {
        reveal_strlit("ae-cbuae:insurance");
        reveal_strlit("ae-cbuae");
        reveal_strlit(":");
        assert(ts[4].license_type_id.subrange(0, (ts[4].regulator_id + ":"@).len() as int) =~= ts[4].regulator_id + ":"@);
    }
    assert(license_type_id_prefixed(ts[5])) by {
        reveal_strlit("ae-sca:securities-broker");
        reveal_strlit("ae-sca");
        reveal_strlit(":");
        assert(ts[5].license_type_id.subrange(0, (ts[5].regulator_id + ":"@).len() as int) =~= ts[5].regulator_id + ":"@);
    }
    assert(license_type_id_prefixed(ts[6])) by {
        reveal_strlit("ae-sca:fund-manager");
        reveal_strlit("ae-sca");
        reveal_strlit(":");
        assert(ts[6].license_type_id.subrange(0, (ts[6].regulator_id + ":"@).len() as int) =~= ts[6].regulator_id + ":"@);
    }
    assert(license_type_id_prefixed(ts[7])) by {
        reveal_strlit("ae-moec:foreign-company");
        reveal_strlit("ae-moec");
        reveal_strlit(":");
        assert(ts[7].license_type_id.subrange(0, (ts[7].regulator_id + ":"@).len() as int) =~= ts[7].regulator_id + ":"@);
    }
    assert(prefixed_each(ts)) by {
        reveal_with_fuel(prefixed_each, 9);
    }
    lemma_prefixed_each(ts);
}

/// Each licence-type identifier of `adgm_license_types` starts with its regulator's
/// identifier and a colon.
proof fn lemma_adgm_license_types_prefixed()
    ensures
        license_type_ids_prefixed(spec_adgm_license_types()),
{
    let ts = spec_adgm_license_types();
    assert(license_type_id_prefixed(ts[0])) by {
        reveal_strlit("ae-adgm-ra:company");
        reveal_strlit("ae-adgm-ra");
        reveal_strlit(":");
        assert(ts[0].license_type_id.subrange(0, (ts[0].regulator_id + ":"@).len() as int) =~= ts[0].regulator_id + ":"@);
    }
    assert(license_type_id_prefixed(ts[1])) by {
        reveal_strlit("ae-adgm-ra:spv");
        reveal_strlit("ae-adgm-ra");
        reveal_strlit(":");
        assert(ts[1].license_type_id.subrange(0, (ts[1].regulator_id + ":"@).len() as int) =~= ts[1].regulator_id + ":"@);
    }
    assert(license_type_id_prefixed(ts[2])) by {
        reveal_strlit("ae-adgm-ra:foundation");
        reveal_strlit("ae-adgm-ra");
        reveal_strlit(":");
        assert(ts[2].license_type_id.subrange(0, (ts[2].regulator_id + ":"@).len() as int) =~= ts[2].regulator_id + ":"@);
    }
    assert(license_type_id_prefixed(ts[3])) by {
        reveal_strlit("ae-adgm-fsra:banking");
        reveal_strlit("ae-adgm-fsra");
        reveal_strlit(":");
        assert(ts[3].license_type_id.subrange(0, (ts[3].regulator_id + ":"@).len() as int) =~= ts[3].regulator_id + ":"@);
    }
    assert(license_type_id_prefixed(ts[4])) by {
        reveal_strlit("ae-adgm-fsra:insurance");
        reveal_strlit("ae-adgm-fsra");
        reveal_strlit(":");
        assert(ts[4].license_type_id.subrange(0, (ts[4].regulator_id + ":"@).len() as int) =~= ts[4].regulator_id + ":"@);
    }
    assert(license_type_id_prefixed(ts[5])) by {
        reveal_strlit("ae-adgm-fsra:insurance-broker");
        reveal_strlit("ae-adgm-fsra");
        reveal_strlit(":");
        assert(ts[5].license_type_id.subrange(0, (ts[5].regulator_id + ":"@).len() as int) =~= ts[5].regulator_id + ":"@);
    }
    assert(license_type_id_prefixed(ts[6])) by {
        reveal_strlit("ae-adgm-fsra:asset-management");
        reveal_strlit("ae-adgm-fsra");
        reveal_strlit(":");
        assert(ts[6].license_type_id.subrange(0, (ts[6].regulator_id + ":"@).len() as int) =~= ts[6].regulator_id + ":"@);
    }
    assert(license_type_id_prefixed(ts[7])) by {
        reveal_strlit("ae-adgm-fsra:digital-asset-exchange");
        reveal_strlit("ae-adgm-fsra");
        reveal_strlit(":");
        assert(ts[7].license_type_id.subrange(0, (ts[7].regulator_id + ":"@).len() as int) =~= ts[7].regulator_id + ":"@);
    }
    assert(license_type_id_prefixed(ts[8])) by {
        reveal_strlit("ae-adgm-fsra:digital-asset-custodian");
        reveal_strlit("ae-adgm-fsra");
        reveal_strlit(":");
        assert(ts[8].license_type_id.subrange(0, (ts[8].regulator_id + ":"@).len() as int) =~= ts[8].regulator_id + ":"@);
    }
    assert(license_type_id_prefixed(ts[9])) by {
        reveal_strlit("ae-adgm-fsra:casp");
        reveal_strlit("ae-adgm-fsra");
        reveal_strlit(":");
        assert(ts[9].license_type_id.subrange(0, (ts[9].regulator_id + ":"@).len() as int) =~= ts[9].regulator_id + ":"@);
    }
    assert(license_type_id_prefixed(ts[10])) by {
        reveal_strlit("ae-adgm-fsra:venture-capital");
        reveal_strlit("ae-adgm-fsra");
        reveal_strlit(":");
        assert(ts[10].license_type_id.subrange(0, (ts[10].regulator_id + ":"@).len() as int) =~= ts[10].regulator_id + ":"@);
    }
    assert(license_type_id_prefixed(ts[11])) by {
        reveal_strlit("ae-adgm-fsra:crowdfunding");
        reveal_strlit("ae-adgm-fsra");
        reveal_strlit(":");
        assert(ts[11].license_type_id.subrange(0, (ts[11].regulator_id + ":"@).len() as int) =~= ts[11].regulator_id + ":"@);
    }
    assert(license_type_id_prefixed(ts[12])) by {
        reveal_strlit("ae-adgm-fsra:credit-rating");
        reveal_strlit("ae-adgm-fsra");
        reveal_strlit(":");
        assert(ts[12].license_type_id.subrange(0, (ts[12].regulator_id + ":"@).len() as int) =~= ts[12].regulator_id + ":"@);
    }
    assert(license_type_id_prefixed(ts[13])) by {
        reveal_strlit("ae-adgm-fsra:custody");
        reveal_strlit("ae-adgm-fsra");
        reveal_strlit(":");
        assert(ts[13].license_type_id.subrange(0, (ts[13].regulator_id + ":"@).len() as int) =~= ts[13].regulator_id + ":"@);
    }
    assert(license_type_id_prefixed(ts[14])) by {
        reveal_strlit("ae-adgm-fsra:advisory");
        reveal_strlit("ae-adgm-fsra");
        reveal_strlit(":");
        assert(ts[14].license_type_id.subrange(0, (ts[14].regulator_id + ":"@).len() as int) =~= ts[14].regulator_id + ":"@);
    }
    assert(prefixed_each(ts)) by {
        reveal_with_fuel(prefixed_each, 16);
    }
    lemma_prefixed_each(ts);
}

/// Each licence-type identifier of `difc_license_types` starts with its regulator's
/// identifier and a colon.
proof fn lemma_difc_license_types_prefixed()
    ensures
        license_type_ids_prefixed(spec_difc_license_types()),
{
    let ts = spec_difc_license_types();
    assert(license_type_id_prefixed(ts[0])) by {
        reveal_strlit("ae-difc-roc:company");
        reveal_strlit("ae-difc-roc");
        reveal_strlit(":");
        assert(ts[0].license_type_id.subrange(0, (ts[0].regulator_id + ":"@).len() as int) =~= ts[0].regulator_id + ":"@);
    }
    assert(license_type_id_prefixed(ts[1])) by {
        reveal_strlit("ae-difc-roc:foundation");
        reveal_strlit("ae-difc-roc");
        reveal_strlit(":");
        assert(ts[1].license_type_id.subrange(0, (ts[1].regulator_id + ":"@).len() as int) =~= ts[1].regulator_id + ":"@);
    }
    assert(license_type_id_prefixed(ts[2])) by {
        reveal_strlit("ae-difc-roc:spv");
        reveal_strlit("ae-difc-roc");
        reveal_strlit(":");
        assert(ts[2].license_type_id.subrange(0, (ts[2].regulator_id + ":"@).len() as int) =~= ts[2].regulator_id + ":"@);
    }
    assert(license_type_id_prefixed(ts[3])) by {
        reveal_strlit("ae-difc-dfsa:banking");
        reveal_strlit("ae-difc-dfsa");
        reveal_strlit(":");
        assert(ts[3].license_type_id.subrange(0, (ts[3].regulator_id + ":"@).len() as int) =~= ts[3].regulator_id + ":"@);
    }
    assert(license_type_id_prefixed(ts[4])) by {
        reveal_strlit("ae-difc-dfsa:insurance");
        reveal_strlit("ae-difc-dfsa");
        reveal_strlit(":");
        assert(ts[4].license_type_id.subrange(0, (ts[4].regulator_id + ":"@).len() as int) =~= ts[4].regulator_id + ":"@);
    }
    assert(license_type_id_prefixed(ts[5])) by {
        reveal_strlit("ae-difc-dfsa:insurance-broker");
        reveal_strlit("ae-difc-dfsa");
        reveal_strlit(":");
        assert(ts[5].license_type_id.subrange(0, (ts[5].regulator_id + ":"@).len() as int) =~= ts[5].regulator_id + ":"@);
    }
    assert(license_type_id_prefixed(ts[6])) by {
        reveal_strlit("ae-difc-dfsa:asset-management");
        reveal_strlit("ae-difc-dfsa");
        reveal_strlit(":");
        assert(ts[6].license_type_id.subrange(0, (ts[6].regulator_id + ":"@).len() as int) =~= ts[6].regulator_id + ":"@);
    }
    assert(license_type_id_prefixed(ts[7])) by {
        reveal_strlit("ae-difc-dfsa:securities-broker");
        reveal_strlit("ae-difc-dfsa");
        reveal_strlit(":");
        assert(ts[7].license_type_id.subrange(0, (ts[7].regulator_id + ":"@).len() as int) =~= ts[7].regulator_id + ":"@);
    }
    assert(license_type_id_prefixed(ts[8])) by {
        reveal_strlit("ae-difc-dfsa:digital-asset-exchange");
        reveal_strlit("ae-difc-dfsa");
        reveal_strlit(":");
        assert(ts[8].license_type_id.subrange(0, (ts[8].regulator_id + ":"@).len() as int) =~= ts[8].regulator_id + ":"@);
    }
    assert(license_type_id_prefixed(ts[9])) by {
        reveal_strlit("ae-difc-dfsa:digital-asset-custodian");
        reveal_strlit("ae-difc-dfsa");
        reveal_strlit(":");
        assert(ts[9].license_type_id.subrange(0, (ts[9].regulator_id + ":"@).len() as int) =~= ts[9].regulator_id + ":"@);
    }
    assert(license_type_id_prefixed(ts[10])) by {
        reveal_strlit("ae-difc-dfsa:crowdfunding");
        reveal_strlit("ae-difc-dfsa");
        reveal_strlit(":");
        assert(ts[10].license_type_id.subrange(0, (ts[10].regulator_id + ":"@).len() as int) =~= ts[10].regulator_id + ":"@);
    }
    assert(license_type_id_prefixed(ts[11])) by {
        reveal_strlit("ae-difc-dfsa:credit-rating");
        reveal_strlit("ae-difc-dfsa");
        reveal_strlit(":");
        assert(ts[11].license_type_id.subrange(0, (ts[11].regulator_id + ":"@).len() as int) =~= ts[11].regulator_id + ":"@);
    }
    assert(license_type_id_prefixed(ts[12])) by {
        reveal_strlit("ae-difc-dfsa:money-services");
        reveal_strlit("ae-difc-dfsa");
        reveal_strlit(":");
        assert(ts[12].license_type_id.subrange(0, (ts[12].regulator_id + ":"@).len() as int) =~= ts[12].regulator_id + ":"@);
    }
    assert(license_type_id_prefixed(ts[13])) by {
        reveal_strlit("ae-difc-dfsa:custody");
        reveal_strlit("ae-difc-dfsa");
        reveal_strlit(":");
        assert(ts[13].license_type_id.subrange(0, (ts[13].regulator_id + ":"@).len() as int) =~= ts[13].regulator_id + ":"@);
    }
    assert(prefixed_each(ts)) by {
        reveal_with_fuel(prefixed_each, 15);
    }
    lemma_prefixed_each(ts);
}

/// Each licence-type identifier of `dmcc_license_types` starts with its regulator's
/// identifier and a colon.
proof fn lemma_dmcc_license_types_prefixed()
    ensures
        license_type_ids_prefixed(spec_dmcc_license_types()),
{
    let ts = spec_dmcc_license_types();
    assert(license_type_id_prefixed(ts[0])) by {
        reveal_strlit("ae-dmcc:trade-license");
        reveal_strlit("ae-dmcc");
        reveal_strlit(":");
        assert(ts[0].license_type_id.subrange(0, (ts[0].regulator_id + ":"@).len() as int) =~= ts[0].regulator_id + ":"@);
    }
    assert(license_type_id_prefixed(ts[1])) by {
        reveal_strlit("ae-dmcc:precious-metals");
        reveal_strlit("ae-dmcc");
        reveal_strlit(":");
        assert(ts[1].license_type_id.subrange(0, (ts[1].regulator_id + ":"@).len() as int) =~= ts[1].regulator_id + ":"@);
    }
    assert(license_type_id_prefixed(ts[2])) by {
        reveal_strlit("ae-dmcc:diamond-trading");
        reveal_strlit("ae-dmcc");
        reveal_strlit(":");
        assert(ts[2].license_type_id.subrange(0, (ts[2].regulator_id + ":"@).len() as int) =~= ts[2].regulator_id + ":"@);
    }
    assert(license_type_id_prefixed(ts[3])) by {
        reveal_strlit("ae-dmcc:casp");
        reveal_strlit("ae-dmcc");
        reveal_strlit(":");
        assert(ts[3].license_type_id.subrange(0, (ts[3].regulator_id + ":"@).len() as int) =~= ts[3].regulator_id + ":"@);
    }
    assert(prefixed_each(ts)) by {
        reveal_with_fuel(prefixed_each, 5);
    }
    lemma_prefixed_each(ts);
}

/// Each licence-type identifier of `jafza_license_types` starts with its regulator's
/// identifier and a colon.
proof fn lemma_jafza_license_types_prefixed()
    ensures
        license_type_ids_prefixed(spec_jafza_license_types()),
{
    let ts = spec_jafza_license_types();
    assert(license_type_id_prefixed(ts[0])) by {
        reveal_strlit("ae-jafza:trading");
        reveal_strlit("ae-jafza");
        reveal_strlit(":");
        assert(ts[0].license_type_id.subrange(0, (ts[0].regulator_id + ":"@).len() as int) =~= ts[0].regulator_id + ":"@);
    }
    assert(license_type_id_prefixed(ts[1])) by {
        reveal_strlit("ae-jafza:industrial");
        reveal_strlit("ae-jafza");
        reveal_strlit(":");
        assert(ts[1].license_type_id.subrange(0, (ts[1].regulator_id + ":"@).len() as int) =~= ts[1].regulator_id + ":"@);
    }
    assert(license_type_id_prefixed(ts[2])) by {
        reveal_strlit("ae-jafza:logistics");
        reveal_strlit("ae-jafza");
        reveal_strlit(":");
        assert(ts[2].license_type_id.subrange(0, (ts[2].regulator_id + ":"@).len() as int) =~= ts[2].regulator_id + ":"@);
    }
    assert(license_type_id_prefixed(ts[3])) by {
        reveal_strlit("ae-jafza:services");
        reveal_strlit("ae-jafza");
        reveal_strlit(":");
        assert(ts[3].license_type_id.subrange(0, (ts[3].regulator_id + ":"@).len() as int) =~= ts[3].regulator_id + ":"@);
    }
    assert(prefixed_each(ts)) by {
        reveal_with_fuel(prefixed_each, 5);
    }
    lemma_prefixed_each(ts);
}

/// Each licence-type identifier of `ifza_license_types` starts with its regulator's
/// identifier and a colon.
proof fn lemma_ifza_license_types_prefixed()
    ensures
        license_type_ids_prefixed(spec_ifza_license_types()),
{
    let ts = spec_ifza_license_types();
    assert(license_type_id_prefixed(ts[0])) by {
        reveal_strlit("ae-ifza:general-trading");
        reveal_strlit("ae-ifza");
        reveal_strlit(":");
        assert(ts[0].license_type_id.subrange(0, (ts[0].regulator_id + ":"@).len() as int) =~= ts[0].regulator_id + ":"@);
    }
    assert(license_type_id_prefixed(ts[1])) by {
        reveal_strlit("ae-ifza:consultancy");
        reveal_strlit("ae-ifza");
        reveal_strlit(":");
        assert(ts[1].license_type_id.subrange(0, (ts[1].regulator_id + ":"@).len() as int) =~= ts[1].regulator_id + ":"@);
    }
    assert(license_type_id_prefixed(ts[2])) by {
        reveal_strlit("ae-ifza:e-commerce");
        reveal_strlit("ae-ifza");
        reveal_strlit(":");
        assert(ts[2].license_type_id.subrange(0, (ts[2].regulator_id + ":"@).len() as int) =~= ts[2].regulator_id + ":"@);
    }
    assert(prefixed_each(ts)) by {
        reveal_with_fuel(prefixed_each, 4);
    }
    lemma_prefixed_each(ts);
}

/// Each licence-type identifier of `dwtc_license_types` starts with its regulator's
/// identifier and a colon.
proof fn lemma_dwtc_license_types_prefixed()
    ensures
        license_type_ids_prefixed(spec_dwtc_license_types()),
{
    let ts = spec_dwtc_license_types();
    assert(license_type_id_prefixed(ts[0])) by {
        reveal_strlit("ae-dwtc:events");
        reveal_strlit("ae-dwtc");
        reveal_strlit(":");
        assert(ts[0].license_type_id.subrange(0, (ts[0].regulator_id + ":"@).len() as int) =~= ts[0].regulator_id + ":"@);
    }
    assert(license_type_id_prefixed(ts[1])) by {
        reveal_strlit("ae-dwtc:hospitality");
        reveal_strlit("ae-dwtc");
        reveal_strlit(":");
        assert(ts[1].license_type_id.subrange(0, (ts[1].regulator_id + ":"@).len() as int) =~= ts[1].regulator_id + ":"@);
    }
    assert(prefixed_each(ts)) by {
        reveal_with_fuel(prefixed_each, 3);
    }
    lemma_prefixed_each(ts);
}

/// Each licence-type identifier of `dso_license_types` starts with its regulator's
/// identifier and a colon.
proof fn lemma_dso_license_types_prefixed()
    ensures
        license_type_ids_prefixed(spec_dso_license_types()),
{
    let ts = spec_dso_license_types();
    assert(license_type_id_prefixed(ts[0])) by {
        reveal_strlit("ae-dso:tech");
        reveal_strlit("ae-dso");
        reveal_strlit(":");
        assert(ts[0].license_type_id.subrange(0, (ts[0].regulator_id + ":"@).len() as int) =~= ts[0].regulator_id + ":"@);
    }
    assert(license_type_id_prefixed(ts[1])) by {
        reveal_strlit("ae-dso:freelancer");
        reveal_strlit("ae-dso");
        reveal_strlit(":");
        assert(ts[1].license_type_id.subrange(0, (ts[1].regulator_id + ":"@).len() as int) =~= ts[1].regulator_id + ":"@);
    }
    assert(prefixed_each(ts)) by {
        reveal_with_fuel(prefixed_each, 3);
    }
    lemma_prefixed_each(ts);
}

/// Each licence-type identifier of `dic_license_types` starts with its regulator's
/// identifier and a colon.
proof fn lemma_dic_license_types_prefixed()
    ensures
        license_type_ids_prefixed(spec_dic_license_types()),
{
    let ts = spec_dic_license_types();
    assert(license_type_id_prefixed(ts[0])) by {
        reveal_strlit("ae-dic:technology");
        reveal_strlit("ae-dic");
        reveal_strlit(":");
        assert(ts[0].license_type_id.subrange(0, (ts[0].regulator_id + ":"@).len() as int) =~= ts[0].regulator_id + ":"@);
    }
    assert(license_type_id_prefixed(ts[1])) by {
        reveal_strlit("ae-dic:media");
        reveal_strlit("ae-dic");
        reveal_strlit(":");
        assert(ts[1].license_type_id.subrange(0, (ts[1].regulator_id + ":"@).len() as int) =~= ts[1].regulator_id + ":"@);
    }
    assert(prefixed_each(ts)) by {
        reveal_with_fuel(prefixed_each, 3);
    }
    lemma_prefixed_each(ts);
}

/// Each licence-type identifier of `dhcc_license_types` starts with its regulator's
/// identifier and a colon.
proof fn lemma_dhcc_license_types_prefixed()
    ensures
        license_type_ids_prefixed(spec_dhcc_license_types()),
{
    let ts = spec_dhcc_license_types();
    assert(license_type_id_prefixed(ts[0])) by {
        reveal_strlit("ae-dhcc:healthcare");
        reveal_strlit("ae-dhcc");
        reveal_strlit(":");
        assert(ts[0].license_type_id.subrange(0, (ts[0].regulator_id + ":"@).len() as int) =~= ts[0].regulator_id + ":"@);
    }
    assert(license_type_id_prefixed(ts[1])) by {
        reveal_strlit("ae-dhcc:pharmaceutical");
        reveal_strlit("ae-dhcc");
        reveal_strlit(":");
        assert(ts[1].license_type_id.subrange(0, (ts[1].regulator_id + ":"@).len() as int) =~= ts[1].regulator_id + ":"@);
    }
    assert(prefixed_each(ts)) by {
        reveal_with_fuel(prefixed_each, 3);
    }
    lemma_prefixed_each(ts);
}

/// Each licence-type identifier of `abudhabi_fz_license_types` starts with its regulator's
/// identifier and a colon.
proof fn lemma_abudhabi_fz_license_types_prefixed()
    ensures
        license_type_ids_prefixed(spec_abudhabi_fz_license_types()),
{
    let ts = spec_abudhabi_fz_license_types();
    assert(license_type_id_prefixed(ts[0])) by {
        reveal_strlit("ae-abudhabi-added:trade-license");
        reveal_strlit("ae-abudhabi-added");
        reveal_strlit(":");
        assert(ts[0].license_type_id.subrange(0, (ts[0].regulator_id + ":"@).len() as int) =~= ts[0].regulator_id + ":"@);
    }
    assert(license_type_id_prefixed(ts[1])) by {
        reveal_strlit("ae-masdar:cleantech");
        reveal_strlit("ae-masdar");
        reveal_strlit(":");
        assert(ts[1].license_type_id.subrange(0, (ts[1].regulator_id + ":"@).len() as int) =~= ts[1].regulator_id + ":"@);
    }
    assert(license_type_id_prefixed(ts[2])) by {
        reveal_strlit("ae-kizad:industrial");
        reveal_strlit("ae-kizad");
        reveal_strlit(":");
        assert(ts[2].license_type_id.subrange(0, (ts[2].regulator_id + ":"@).len() as int) =~= ts[2].regulator_id + ":"@);
    }
    assert(license_type_id_prefixed(ts[3])) by {
        reveal_strlit("ae-kizad:trading");
        reveal_strlit("ae-kizad");
        reveal_strlit(":");
        assert(ts[3].license_type_id.subrange(0, (ts[3].regulator_id + ":"@).len() as int) =~= ts[3].regulator_id + ":"@);
    }
    assert(license_type_id_prefixed(ts[4])) by {
        reveal_strlit("ae-twofour54:media");
        reveal_strlit("ae-twofour54");
        reveal_strlit(":");
        assert(ts[4].license_type_id.subrange(0, (ts[4].regulator_id + ":"@).len() as int) =~= ts[4].regulator_id + ":"@);
    }
    assert(license_type_id_prefixed(ts[5])) by {
        reveal_strlit("ae-kezad:logistics");
        reveal_strlit("ae-kezad");
        reveal_strlit(":");
        assert(ts[5].license_type_id.subrange(0, (ts[5].regulator_id + ":"@).len() as int) =~= ts[5].regulator_id + ":"@);
    }
    assert(license_type_id_prefixed(ts[6])) by {
        reveal_strlit("ae-kezad:industrial");
        reveal_strlit("ae-kezad");
        reveal_strlit(":");
        assert(ts[6].license_type_id.subrange(0, (ts[6].regulator_id + ":"@).len() as int) =~= ts[6].regulator_id + ":"@);
    }
    assert(prefixed_each(ts)) by {
        reveal_with_fuel(prefixed_each, 8);
    }
    lemma_prefixed_each(ts);
}

/// Each licence-type identifier of `ded_license_types` starts with its regulator's
/// identifier and a colon.
proof fn lemma_ded_license_types_prefixed()
    ensures
        license_type_ids_prefixed(spec_ded_license_types()),
{
    let ts = spec_ded_license_types();
    assert(license_type_id_prefixed(ts[0])) by {
        reveal_strlit("ae-dubai-ded:commercial");
        reveal_strlit("ae-dubai-ded");
        reveal_strlit(":");
        assert(ts[0].license_type_id.subrange(0, (ts[0].regulator_id + ":"@).len() as int) =~= ts[0].regulator_id + ":"@);
    }
    assert(license_type_id_prefixed(ts[1])) by {
        reveal_strlit("ae-dubai-ded:professional");
        reveal_strlit("ae-dubai-ded");
        reveal_strlit(":");
        assert(ts[1].license_type_id.subrange(0, (ts[1].regulator_id + ":"@).len() as int) =~= ts[1].regulator_id + ":"@);
    }
    assert(license_type_id_prefixed(ts[2])) by {
        reveal_strlit("ae-dubai-ded:industrial");
        reveal_strlit("ae-dubai-ded");
        reveal_strlit(":");
        assert(ts[2].license_type_id.subrange(0, (ts[2].regulator_id + ":"@).len() as int) =~= ts[2].regulator_id + ":"@);
    }
    assert(prefixed_each(ts)) by {
        reveal_with_fuel(prefixed_each, 4);
    }
    lemma_prefixed_each(ts);
}

/// Every licence-type identifier of the UAE catalog starts with the
/// identifier of the regulator that grants it, followed by a colon.
pub proof fn lemma_uae_license_types_prefixed()
    ensures
        license_type_ids_prefixed(spec_uae_license_types()),
{
    lemma_federal_license_types_prefixed();
    lemma_adgm_license_types_prefixed();
    lemma_difc_license_types_prefixed();
    lemma_dmcc_license_types_prefixed();
    lemma_jafza_license_types_prefixed();
    lemma_ifza_license_types_prefixed();
    lemma_dwtc_license_types_prefixed();
    lemma_dso_license_types_prefixed();
    lemma_dic_license_types_prefixed();
    lemma_dhcc_license_types_prefixed();
    lemma_abudhabi_fz_license_types_prefixed();
    lemma_ded_license_types_prefixed();
    lemma_prefixed_append(spec_federal_license_types(), spec_adgm_license_types());
    lemma_prefixed_append(spec_federal_license_types() + spec_adgm_license_types(), spec_difc_license_types());
    lemma_prefixed_append(spec_federal_license_types() + spec_adgm_license_types() + spec_difc_license_types(), spec_dmcc_license_types());
    lemma_prefixed_append(spec_federal_license_types() + spec_adgm_license_types() + spec_difc_license_types() + spec_dmcc_license_types(), spec_jafza_license_types());
    lemma_prefixed_append(spec_federal_license_types() + spec_adgm_license_types() + spec_difc_license_types() + spec_dmcc_license_types() + spec_jafza_license_types(), spec_ifza_license_types());
    lemma_prefixed_append(spec_federal_license_types() + spec_adgm_license_types() + spec_difc_license_types() + spec_dmcc_license_types() + spec_jafza_license_types() + spec_ifza_license_types(), spec_dwtc_license_types());
    lemma_prefixed_append(spec_federal_license_types() + spec_adgm_license_types() + spec_difc_license_types() + spec_dmcc_license_types() + spec_jafza_license_types() + spec_ifza_license_types() + spec_dwtc_license_types(), spec_dso_license_types());
    lemma_prefixed_append(spec_federal_license_types() + spec_adgm_license_types() + spec_difc_license_types() + spec_dmcc_license_types() + spec_jafza_license_types() + spec_ifza_license_types() + spec_dwtc_license_types() + spec_dso_license_types(), spec_dic_license_types());
    lemma_prefixed_append(spec_federal_license_types() + spec_adgm_license_types() + spec_difc_license_types() + spec_dmcc_license_types() + spec_jafza_license_types() + spec_ifza_license_types() + spec_dwtc_license_types() + spec_dso_license_types() + spec_dic_license_types(), spec_dhcc_license_types());
    lemma_prefixed_append(spec_federal_license_types() + spec_adgm_license_types() + spec_difc_license_types() + spec_dmcc_license_types() + spec_jafza_license_types() + spec_ifza_license_types() + spec_dwtc_license_types() + spec_dso_license_types() + spec_dic_license_types() + spec_dhcc_license_types(), spec_abudhabi_fz_license_types());
    lemma_prefixed_append(spec_federal_license_types() + spec_adgm_license_types() + spec_difc_license_types() + spec_dmcc_license_types() + spec_jafza_license_types() + spec_ifza_license_types() + spec_dwtc_license_types() + spec_dso_license_types() + spec_dic_license_types() + spec_dhcc_license_types() + spec_abudhabi_fz_license_types(), spec_ded_license_types());
    assert(spec_uae_license_types() =~= spec_federal_license_types() + spec_adgm_license_types() + spec_difc_license_types() + spec_dmcc_license_types() + spec_jafza_license_types() + spec_ifza_license_types() + spec_dwtc_license_types() + spec_dso_license_types() + spec_dic_license_types() + spec_dhcc_license_types() + spec_abudhabi_fz_license_types() + spec_ded_license_types());
}

} // verus!
