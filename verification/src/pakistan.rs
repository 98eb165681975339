//! # Pakistan Regulatory Authority License Mappings (S-013)
//!
//! Pakistan-specific license type definitions covering the five major
//! regulatory authorities referenced in the GovOS architecture:
//!
//! | Authority | Full Name | Domain |
//! |-----------|-----------|--------|
//! | **SECP** | Securities and Exchange Commission of Pakistan | Financial, Corporate |
//! | **SBP** | State Bank of Pakistan | Financial, Banking |
//! | **PTA** | Pakistan Telecommunication Authority | Trade (telecom) |
//! | **PEMRA** | Pakistan Electronic Media Regulatory Authority | Trade (media) |
//! | **DRAP** | Drug Regulatory Authority of Pakistan | Professional (pharma) |
//!
//! Each authority is represented as a [`LicensepackRegulator`] with its
//! associated [`LicenseTypeDefinition`] entries. These definitions provide
//! the Pakistan-specific license taxonomy used by the compliance tensor's
//! LICENSING domain evaluation.

use vstd::prelude::*;

use crate::license::{
    license_type, license_type_view, license_types_view, regulator, regulator_view,
    regulators_view, LicenseTypeDefinition, LicenseTypeView, LicensepackRegulator,
    RegulatorView, RequirementValue,
    lemma_license_types_view_append, lemma_regulators_view_append,
};

use crate::catalog::{
    apart_each, id_fresh_each, ids_distinct_each, lemma_apart_each, lemma_ids_apart_append, lemma_ids_distinct_append, lemma_ids_distinct_each, license_type_ids_apart, license_type_ids_distinct, complete_each, every_regulator_grants, granted_by_each, granted_by_listed_regulators, grants_each, grants_some, in_jurisdiction_each, lemma_complete_append, lemma_complete_each, lemma_every_combine, lemma_granted_by_each, lemma_granted_combine, lemma_grants_each, lemma_in_jurisdiction_append, lemma_in_jurisdiction_each, license_types_complete, regulators_in_jurisdiction,
};

use crate::catalog::{
    lemma_prefixed_append, lemma_prefixed_each, license_type_id_prefixed, license_type_ids_prefixed,
    prefixed_each,
};

verus! {

/// The view of `secp_regulator`.
pub open spec fn spec_secp_regulator() -> RegulatorView {
    regulator_view(
        "pk-secp"@,
        "Securities and Exchange Commission of Pakistan"@,
        "pk"@,
        Some("https://www.secp.gov.pk"@),
        seq!["company_search"@, "filing_status"@],
    )
}

/// SECP regulator profile.
pub fn secp_regulator() -> (r: LicensepackRegulator)
    ensures
        r@ == spec_secp_regulator(),
        r@ == regulator_view(
            "pk-secp"@,
            "Securities and Exchange Commission of Pakistan"@,
            "pk"@,
            Some("https://www.secp.gov.pk"@),
            seq!["company_search"@, "filing_status"@],
        ),
{
    let r =
        regulator(
            "pk-secp",
            "Securities and Exchange Commission of Pakistan",
            "pk",
            Some("https://www.secp.gov.pk"),
            &["company_search", "filing_status"],
        );
    proof {
        assert(r@ =~~= spec_secp_regulator());
    }
    r
}

/// The view of `secp_license_types`.
pub open spec fn spec_secp_license_types() -> Seq<LicenseTypeView> {
    seq![
        license_type_view(
            "pk-secp:company-registration"@,
            "Company Registration"@,
            "Registration of a company under the Companies Act 2017"@,
            "pk-secp"@,
            Some("corporate"@),
            seq!["business_operations"@, "capital_raising"@],
            seq![],
            seq![("PKR"@, "5000"@)],
            seq![("PKR"@, "10000"@)],
            None,
        ),
        license_type_view(
            "pk-secp:securities-broker"@,
            "Securities Broker License"@,
            "License to operate as a securities broker on PSX"@,
            "pk-secp"@,
            Some("financial"@),
            seq!["securities_brokerage"@, "trading"@, "custody_services"@],
            seq![],
            seq![("PKR"@, "100000"@)],
            seq![("PKR"@, "500000"@)],
            Some(3i32),
        ),
        license_type_view(
            "pk-secp:nbfc"@,
            "Non-Banking Finance Company License"@,
            "License for non-banking financial companies under NBFC Rules 2003"@,
            "pk-secp"@,
            Some("financial"@),
            seq!["lending"@, "leasing"@, "investment_advisory"@, "asset_management"@],
            seq![],
            seq![("PKR"@, "500000"@)],
            seq![("PKR"@, "200000"@)],
            Some(5i32),
        ),
        license_type_view(
            "pk-secp:insurance"@,
            "Insurance License"@,
            "License to carry on insurance business under Insurance Ordinance 2000"@,
            "pk-secp"@,
            Some("insurance"@),
            seq!["life_insurance"@, "general_insurance"@, "reinsurance"@],
            seq![],
            seq![],
            seq![],
            Some(1i32),
        )
    ]
}

/// SECP license type definitions.
pub fn secp_license_types() -> (r: Vec<LicenseTypeDefinition>)
    ensures
        license_types_view(r@) == spec_secp_license_types(),
        license_types_view(r@) == seq![
            license_type_view(
                "pk-secp:company-registration"@,
                "Company Registration"@,
                "Registration of a company under the Companies Act 2017"@,
                "pk-secp"@,
                Some("corporate"@),
                seq!["business_operations"@, "capital_raising"@],
                seq![],
                seq![("PKR"@, "5000"@)],
                seq![("PKR"@, "10000"@)],
                None,
            ),
            license_type_view(
                "pk-secp:securities-broker"@,
                "Securities Broker License"@,
                "License to operate as a securities broker on PSX"@,
                "pk-secp"@,
                Some("financial"@),
                seq!["securities_brokerage"@, "trading"@, "custody_services"@],
                seq![],
                seq![("PKR"@, "100000"@)],
                seq![("PKR"@, "500000"@)],
                Some(3i32),
            ),
            license_type_view(
                "pk-secp:nbfc"@,
                "Non-Banking Finance Company License"@,
                "License for non-banking financial companies under NBFC Rules 2003"@,
                "pk-secp"@,
                Some("financial"@),
                seq!["lending"@, "leasing"@, "investment_advisory"@, "asset_management"@],
                seq![],
                seq![("PKR"@, "500000"@)],
                seq![("PKR"@, "200000"@)],
                Some(5i32),
            ),
            license_type_view(
                "pk-secp:insurance"@,
                "Insurance License"@,
                "License to carry on insurance business under Insurance Ordinance 2000"@,
                "pk-secp"@,
                Some("insurance"@),
                seq!["life_insurance"@, "general_insurance"@, "reinsurance"@],
                seq![],
                seq![],
                seq![],
                Some(1i32),
            )
        ],
{
    let r = vec![
        license_type(
            "pk-secp:company-registration",
            "Company Registration",
            "Registration of a company under the Companies Act 2017",
            "pk-secp",
            Some("corporate"),
            &["business_operations", "capital_raising"],
            &[],
            &[("PKR", "5000")],
            &[("PKR", "10000")],
            None,
        ),
        license_type(
            "pk-secp:securities-broker",
            "Securities Broker License",
            "License to operate as a securities broker on PSX",
            "pk-secp",
            Some("financial"),
            &["securities_brokerage", "trading", "custody_services"],
            &[],
            &[("PKR", "100000")],
            &[("PKR", "500000")],
            Some(3i32),
        ),
        license_type(
            "pk-secp:nbfc",
            "Non-Banking Finance Company License",
            "License for non-banking financial companies under NBFC Rules 2003",
            "pk-secp",
            Some("financial"),
            &["lending", "leasing", "investment_advisory", "asset_management"],
            &[],
            &[("PKR", "500000")],
            &[("PKR", "200000")],
            Some(5i32),
        ),
        license_type(
            "pk-secp:insurance",
            "Insurance License",
            "License to carry on insurance business under Insurance Ordinance 2000",
            "pk-secp",
            Some("insurance"),
            &["life_insurance", "general_insurance", "reinsurance"],
            &[],
            &[],
            &[],
            Some(1i32),
        )
    ];
    proof {
        assert(license_types_view(r@) =~~= spec_secp_license_types());
    }
    r
}

/// The view of `sbp_regulator`.
pub open spec fn spec_sbp_regulator() -> RegulatorView {
    regulator_view(
        "pk-sbp"@,
        "State Bank of Pakistan"@,
        "pk"@,
        Some("https://www.sbp.org.pk"@),
        seq!["bank_registry"@, "raast_integration"@],
    )
}

/// SBP regulator profile.
pub fn sbp_regulator() -> (r: LicensepackRegulator)
    ensures
        r@ == spec_sbp_regulator(),
        r@ == regulator_view(
            "pk-sbp"@,
            "State Bank of Pakistan"@,
            "pk"@,
            Some("https://www.sbp.org.pk"@),
            seq!["bank_registry"@, "raast_integration"@],
        ),
{
    let r =
        regulator(
            "pk-sbp",
            "State Bank of Pakistan",
            "pk",
            Some("https://www.sbp.org.pk"),
            &["bank_registry", "raast_integration"],
        );
    proof {
        assert(r@ =~~= spec_sbp_regulator());
    }
    r
}

/// The view of `sbp_license_types`.
pub open spec fn spec_sbp_license_types() -> Seq<LicenseTypeView> {
    seq![
        license_type_view(
            "pk-sbp:commercial-bank"@,
            "Commercial Banking License"@,
            "License to operate as a scheduled bank under Banking Companies Ordinance 1962"@,
            "pk-sbp"@,
            Some("financial"@),
            seq!["deposit_taking"@, "lending"@, "trade_finance"@, "foreign_exchange"@, "payment_services"@],
            seq![],
            seq![],
            seq![],
            None,
        ),
        license_type_view(
            "pk-sbp:microfinance-bank"@,
            "Microfinance Banking License"@,
            "License to operate as a microfinance bank under MFI Ordinance 2001"@,
            "pk-sbp"@,
            Some("financial"@),
            seq!["micro_lending"@, "micro_deposit_taking"@, "branchless_banking"@],
            seq![],
            seq![],
            seq![],
            None,
        ),
        license_type_view(
            "pk-sbp:emi"@,
            "Electronic Money Institution License"@,
            "License to issue electronic money under SBP Payment Systems regulations"@,
            "pk-sbp"@,
            Some("financial"@),
            seq!["issuing_e_money"@, "payment_services"@, "digital_wallet"@],
            seq![],
            seq![],
            seq![],
            Some(3i32),
        ),
        license_type_view(
            "pk-sbp:exchange-company"@,
            "Exchange Company License"@,
            "License to operate foreign exchange business"@,
            "pk-sbp"@,
            Some("financial"@),
            seq!["foreign_exchange"@, "remittance"@],
            seq![],
            seq![],
            seq![],
            Some(3i32),
        )
    ]
}

/// SBP license type definitions.
pub fn sbp_license_types() -> (r: Vec<LicenseTypeDefinition>)
    ensures
        license_types_view(r@) == spec_sbp_license_types(),
        license_types_view(r@) == seq![
            license_type_view(
                "pk-sbp:commercial-bank"@,
                "Commercial Banking License"@,
                "License to operate as a scheduled bank under Banking Companies Ordinance 1962"@,
                "pk-sbp"@,
                Some("financial"@),
                seq!["deposit_taking"@, "lending"@, "trade_finance"@, "foreign_exchange"@, "payment_services"@],
                seq![],
                seq![],
                seq![],
                None,
            ),
            license_type_view(
                "pk-sbp:microfinance-bank"@,
                "Microfinance Banking License"@,
                "License to operate as a microfinance bank under MFI Ordinance 2001"@,
                "pk-sbp"@,
                Some("financial"@),
                seq!["micro_lending"@, "micro_deposit_taking"@, "branchless_banking"@],
                seq![],
                seq![],
                seq![],
                None,
            ),
            license_type_view(
                "pk-sbp:emi"@,
                "Electronic Money Institution License"@,
                "License to issue electronic money under SBP Payment Systems regulations"@,
                "pk-sbp"@,
                Some("financial"@),
                seq!["issuing_e_money"@, "payment_services"@, "digital_wallet"@],
                seq![],
                seq![],
                seq![],
                Some(3i32),
            ),
            license_type_view(
                "pk-sbp:exchange-company"@,
                "Exchange Company License"@,
                "License to operate foreign exchange business"@,
                "pk-sbp"@,
                Some("financial"@),
                seq!["foreign_exchange"@, "remittance"@],
                seq![],
                seq![],
                seq![],
                Some(3i32),
            )
        ],
{
    let r = vec![
        license_type(
            "pk-sbp:commercial-bank",
            "Commercial Banking License",
            "License to operate as a scheduled bank under Banking Companies Ordinance 1962",
            "pk-sbp",
            Some("financial"),
            &["deposit_taking", "lending", "trade_finance", "foreign_exchange", "payment_services"],
            &[],
            &[],
            &[],
            None,
        ),
        license_type(
            "pk-sbp:microfinance-bank",
            "Microfinance Banking License",
            "License to operate as a microfinance bank under MFI Ordinance 2001",
            "pk-sbp",
            Some("financial"),
            &["micro_lending", "micro_deposit_taking", "branchless_banking"],
            &[],
            &[],
            &[],
            None,
        ),
        license_type(
            "pk-sbp:emi",
            "Electronic Money Institution License",
            "License to issue electronic money under SBP Payment Systems regulations",
            "pk-sbp",
            Some("financial"),
            &["issuing_e_money", "payment_services", "digital_wallet"],
            &[],
            &[],
            &[],
            Some(3i32),
        ),
        license_type(
            "pk-sbp:exchange-company",
            "Exchange Company License",
            "License to operate foreign exchange business",
            "pk-sbp",
            Some("financial"),
            &["foreign_exchange", "remittance"],
            &[],
            &[],
            &[],
            Some(3i32),
        )
    ];
    proof {
        assert(license_types_view(r@) =~~= spec_sbp_license_types());
    }
    r
}

/// The view of `pta_regulator`.
pub open spec fn spec_pta_regulator() -> RegulatorView {
    regulator_view(
        "pk-pta"@,
        "Pakistan Telecommunication Authority"@,
        "pk"@,
        Some("https://www.pta.gov.pk"@),
        seq!["license_query"@],
    )
}

/// PTA regulator profile.
pub fn pta_regulator() -> (r: LicensepackRegulator)
    ensures
        r@ == spec_pta_regulator(),
        r@ == regulator_view(
            "pk-pta"@,
            "Pakistan Telecommunication Authority"@,
            "pk"@,
            Some("https://www.pta.gov.pk"@),
            seq!["license_query"@],
        ),
{
    let r =
        regulator(
            "pk-pta",
            "Pakistan Telecommunication Authority",
            "pk",
            Some("https://www.pta.gov.pk"),
            &["license_query"],
        );
    proof {
        assert(r@ =~~= spec_pta_regulator());
    }
    r
}

/// The view of `pta_license_types`.
pub open spec fn spec_pta_license_types() -> Seq<LicenseTypeView> {
    seq![
        license_type_view(
            "pk-pta:cmto"@,
            "Cellular Mobile Telecom Operator License"@,
            "License to operate cellular mobile services in Pakistan"@,
            "pk-pta"@,
            Some("trade"@),
            seq!["cellular_services"@, "mobile_broadband"@, "mobile_financial_services"@],
            seq![],
            seq![],
            seq![],
            Some(15i32),
        ),
        license_type_view(
            "pk-pta:isp"@,
            "Internet Service Provider License"@,
            "License to provide internet services"@,
            "pk-pta"@,
            Some("trade"@),
            seq!["internet_services"@, "web_hosting"@, "data_center_operations"@],
            seq![],
            seq![("PKR"@, "250000"@)],
            seq![("PKR"@, "100000"@)],
            Some(10i32),
        ),
        license_type_view(
            "pk-pta:llo"@,
            "Local Loop Operator License"@,
            "License to operate local loop telecommunications"@,
            "pk-pta"@,
            Some("trade"@),
            seq!["fixed_line_services"@, "broadband_services"@],
            seq![],
            seq![],
            seq![],
            Some(20i32),
        )
    ]
}

/// PTA license type definitions.
pub fn pta_license_types() -> (r: Vec<LicenseTypeDefinition>)
    ensures
        license_types_view(r@) == spec_pta_license_types(),
        license_types_view(r@) == seq![
            license_type_view(
                "pk-pta:cmto"@,
                "Cellular Mobile Telecom Operator License"@,
                "License to operate cellular mobile services in Pakistan"@,
                "pk-pta"@,
                Some("trade"@),
                seq!["cellular_services"@, "mobile_broadband"@, "mobile_financial_services"@],
                seq![],
                seq![],
                seq![],
                Some(15i32),
            ),
            license_type_view(
                "pk-pta:isp"@,
                "Internet Service Provider License"@,
                "License to provide internet services"@,
                "pk-pta"@,
                Some("trade"@),
                seq!["internet_services"@, "web_hosting"@, "data_center_operations"@],
                seq![],
                seq![("PKR"@, "250000"@)],
                seq![("PKR"@, "100000"@)],
                Some(10i32),
            ),
            license_type_view(
                "pk-pta:llo"@,
                "Local Loop Operator License"@,
                "License to operate local loop telecommunications"@,
                "pk-pta"@,
                Some("trade"@),
                seq!["fixed_line_services"@, "broadband_services"@],
                seq![],
                seq![],
                seq![],
                Some(20i32),
            )
        ],
{
    let r = vec![
        license_type(
            "pk-pta:cmto",
            "Cellular Mobile Telecom Operator License",
            "License to operate cellular mobile services in Pakistan",
            "pk-pta",
            Some("trade"),
            &["cellular_services", "mobile_broadband", "mobile_financial_services"],
            &[],
            &[],
            &[],
            Some(15i32),
        ),
        license_type(
            "pk-pta:isp",
            "Internet Service Provider License",
            "License to provide internet services",
            "pk-pta",
            Some("trade"),
            &["internet_services", "web_hosting", "data_center_operations"],
            &[],
            &[("PKR", "250000")],
            &[("PKR", "100000")],
            Some(10i32),
        ),
        license_type(
            "pk-pta:llo",
            "Local Loop Operator License",
            "License to operate local loop telecommunications",
            "pk-pta",
            Some("trade"),
            &["fixed_line_services", "broadband_services"],
            &[],
            &[],
            &[],
            Some(20i32),
        )
    ];
    proof {
        assert(license_types_view(r@) =~~= spec_pta_license_types());
    }
    r
}

/// The view of `pemra_regulator`.
pub open spec fn spec_pemra_regulator() -> RegulatorView {
    regulator_view(
        "pk-pemra"@,
        "Pakistan Electronic Media Regulatory Authority"@,
        "pk"@,
        Some("https://www.pemra.gov.pk"@),
        seq!["license_status"@],
    )
}

/// PEMRA regulator profile.
pub fn pemra_regulator() -> (r: LicensepackRegulator)
    ensures
        r@ == spec_pemra_regulator(),
        r@ == regulator_view(
            "pk-pemra"@,
            "Pakistan Electronic Media Regulatory Authority"@,
            "pk"@,
            Some("https://www.pemra.gov.pk"@),
            seq!["license_status"@],
        ),
{
    let r =
        regulator(
            "pk-pemra",
            "Pakistan Electronic Media Regulatory Authority",
            "pk",
            Some("https://www.pemra.gov.pk"),
            &["license_status"],
        );
    proof {
        assert(r@ =~~= spec_pemra_regulator());
    }
    r
}

/// The view of `pemra_license_types`.
pub open spec fn spec_pemra_license_types() -> Seq<LicenseTypeView> {
    seq![
        license_type_view(
            "pk-pemra:satellite-tv"@,
            "Satellite TV Channel License"@,
            "License to operate a satellite TV channel"@,
            "pk-pemra"@,
            Some("trade"@),
            seq!["tv_broadcasting"@, "content_production"@],
            seq![],
            seq![("PKR"@, "1000000"@)],
            seq![("PKR"@, "5000000"@)],
            Some(15i32),
        ),
        license_type_view(
            "pk-pemra:fm-radio"@,
            "FM Radio License"@,
            "License to operate an FM radio station"@,
            "pk-pemra"@,
            Some("trade"@),
            seq!["radio_broadcasting"@, "content_production"@],
            seq![],
            seq![("PKR"@, "500000"@)],
            seq![("PKR"@, "1000000"@)],
            Some(10i32),
        ),
        license_type_view(
            "pk-pemra:cable-tv"@,
            "Cable TV Distribution License"@,
            "License to distribute cable TV services"@,
            "pk-pemra"@,
            Some("trade"@),
            seq!["cable_distribution"@],
            seq![],
            seq![],
            seq![],
            Some(5i32),
        )
    ]
}

/// PEMRA license type definitions.
pub fn pemra_license_types() -> (r: Vec<LicenseTypeDefinition>)
    ensures
        license_types_view(r@) == spec_pemra_license_types(),
        license_types_view(r@) == seq![
            license_type_view(
                "pk-pemra:satellite-tv"@,
                "Satellite TV Channel License"@,
                "License to operate a satellite TV channel"@,
                "pk-pemra"@,
                Some("trade"@),
                seq!["tv_broadcasting"@, "content_production"@],
                seq![],
                seq![("PKR"@, "1000000"@)],
                seq![("PKR"@, "5000000"@)],
                Some(15i32),
            ),
            license_type_view(
                "pk-pemra:fm-radio"@,
                "FM Radio License"@,
                "License to operate an FM radio station"@,
                "pk-pemra"@,
                Some("trade"@),
                seq!["radio_broadcasting"@, "content_production"@],
                seq![],
                seq![("PKR"@, "500000"@)],
                seq![("PKR"@, "1000000"@)],
                Some(10i32),
            ),
            license_type_view(
                "pk-pemra:cable-tv"@,
                "Cable TV Distribution License"@,
                "License to distribute cable TV services"@,
                "pk-pemra"@,
                Some("trade"@),
                seq!["cable_distribution"@],
                seq![],
                seq![],
                seq![],
                Some(5i32),
            )
        ],
{
    let r = vec![
        license_type(
            "pk-pemra:satellite-tv",
            "Satellite TV Channel License",
            "License to operate a satellite TV channel",
            "pk-pemra",
            Some("trade"),
            &["tv_broadcasting", "content_production"],
            &[],
            &[("PKR", "1000000")],
            &[("PKR", "5000000")],
            Some(15i32),
        ),
        license_type(
            "pk-pemra:fm-radio",
            "FM Radio License",
            "License to operate an FM radio station",
            "pk-pemra",
            Some("trade"),
            &["radio_broadcasting", "content_production"],
            &[],
            &[("PKR", "500000")],
            &[("PKR", "1000000")],
            Some(10i32),
        ),
        license_type(
            "pk-pemra:cable-tv",
            "Cable TV Distribution License",
            "License to distribute cable TV services",
            "pk-pemra",
            Some("trade"),
            &["cable_distribution"],
            &[],
            &[],
            &[],
            Some(5i32),
        )
    ];
    proof {
        assert(license_types_view(r@) =~~= spec_pemra_license_types());
    }
    r
}

/// The view of `drap_regulator`.
pub open spec fn spec_drap_regulator() -> RegulatorView {
    regulator_view(
        "pk-drap"@,
        "Drug Regulatory Authority of Pakistan"@,
        "pk"@,
        Some("https://www.drap.gov.pk"@),
        seq!["drug_registry"@],
    )
}

/// DRAP regulator profile.
pub fn drap_regulator() -> (r: LicensepackRegulator)
    ensures
        r@ == spec_drap_regulator(),
        r@ == regulator_view(
            "pk-drap"@,
            "Drug Regulatory Authority of Pakistan"@,
            "pk"@,
            Some("https://www.drap.gov.pk"@),
            seq!["drug_registry"@],
        ),
{
    let r =
        regulator(
            "pk-drap",
            "Drug Regulatory Authority of Pakistan",
            "pk",
            Some("https://www.drap.gov.pk"),
            &["drug_registry"],
        );
    proof {
        assert(r@ =~~= spec_drap_regulator());
    }
    r
}

/// The view of `drap_license_types`.
pub open spec fn spec_drap_license_types() -> Seq<LicenseTypeView> {
    seq![
        license_type_view(
            "pk-drap:drug-manufacturing"@,
            "Drug Manufacturing License"@,
            "License to manufacture pharmaceutical drugs under DRAP Act 2012"@,
            "pk-drap"@,
            Some("professional"@),
            seq!["drug_manufacturing"@, "quality_testing"@],
            seq![],
            seq![("PKR"@, "100000"@)],
            seq![("PKR"@, "200000"@)],
            Some(5i32),
        ),
        license_type_view(
            "pk-drap:drug-import"@,
            "Drug Import License"@,
            "License to import pharmaceutical drugs"@,
            "pk-drap"@,
            Some("professional"@),
            seq!["drug_import"@, "drug_distribution"@],
            seq![],
            seq![("PKR"@, "50000"@)],
            seq![("PKR"@, "100000"@)],
            Some(3i32),
        ),
        license_type_view(
            "pk-drap:medical-device"@,
            "Medical Device Registration"@,
            "Registration of medical devices for sale in Pakistan"@,
            "pk-drap"@,
            Some("professional"@),
            seq!["medical_device_sale"@, "medical_device_import"@],
            seq![],
            seq![("PKR"@, "75000"@)],
            seq![],
            Some(5i32),
        )
    ]
}

/// DRAP license type definitions.
pub fn drap_license_types() -> (r: Vec<LicenseTypeDefinition>)
    ensures
        license_types_view(r@) == spec_drap_license_types(),
        license_types_view(r@) == seq![
            license_type_view(
                "pk-drap:drug-manufacturing"@,
                "Drug Manufacturing License"@,
                "License to manufacture pharmaceutical drugs under DRAP Act 2012"@,
                "pk-drap"@,
                Some("professional"@),
                seq!["drug_manufacturing"@, "quality_testing"@],
                seq![],
                seq![("PKR"@, "100000"@)],
                seq![("PKR"@, "200000"@)],
                Some(5i32),
            ),
            license_type_view(
                "pk-drap:drug-import"@,
                "Drug Import License"@,
                "License to import pharmaceutical drugs"@,
                "pk-drap"@,
                Some("professional"@),
                seq!["drug_import"@, "drug_distribution"@],
                seq![],
                seq![("PKR"@, "50000"@)],
                seq![("PKR"@, "100000"@)],
                Some(3i32),
            ),
            license_type_view(
                "pk-drap:medical-device"@,
                "Medical Device Registration"@,
                "Registration of medical devices for sale in Pakistan"@,
                "pk-drap"@,
                Some("professional"@),
                seq!["medical_device_sale"@, "medical_device_import"@],
                seq![],
                seq![("PKR"@, "75000"@)],
                seq![],
                Some(5i32),
            )
        ],
{
    let r = vec![
        license_type(
            "pk-drap:drug-manufacturing",
            "Drug Manufacturing License",
            "License to manufacture pharmaceutical drugs under DRAP Act 2012",
            "pk-drap",
            Some("professional"),
            &["drug_manufacturing", "quality_testing"],
            &[],
            &[("PKR", "100000")],
            &[("PKR", "200000")],
            Some(5i32),
        ),
        license_type(
            "pk-drap:drug-import",
            "Drug Import License",
            "License to import pharmaceutical drugs",
            "pk-drap",
            Some("professional"),
            &["drug_import", "drug_distribution"],
            &[],
            &[("PKR", "50000")],
            &[("PKR", "100000")],
            Some(3i32),
        ),
        license_type(
            "pk-drap:medical-device",
            "Medical Device Registration",
            "Registration of medical devices for sale in Pakistan",
            "pk-drap",
            Some("professional"),
            &["medical_device_sale", "medical_device_import"],
            &[],
            &[("PKR", "75000")],
            &[],
            Some(5i32),
        )
    ];
    proof {
        assert(license_types_view(r@) =~~= spec_drap_license_types());
    }
    r
}

/// The view of `pakistan_regulators`.
pub open spec fn spec_pakistan_regulators() -> Seq<RegulatorView> {
    seq![spec_secp_regulator(), spec_sbp_regulator(), spec_pta_regulator(), spec_pemra_regulator(), spec_drap_regulator()]
}

/// All Pakistan regulatory authorities.
pub fn pakistan_regulators() -> (r: Vec<LicensepackRegulator>)
    ensures
        regulators_view(r@) == spec_pakistan_regulators(),
        regulators_view(r@) == seq![spec_secp_regulator(), spec_sbp_regulator(), spec_pta_regulator(), spec_pemra_regulator(), spec_drap_regulator()],
{
    let r = vec![secp_regulator(), sbp_regulator(), pta_regulator(), pemra_regulator(), drap_regulator()];
    proof {
        assert(regulators_view(r@) =~~= spec_pakistan_regulators());
    }
    r
}

/// The view of `pakistan_license_types`.
pub open spec fn spec_pakistan_license_types() -> Seq<LicenseTypeView> {
    spec_secp_license_types()
        + spec_sbp_license_types()
        + spec_pta_license_types()
        + spec_pemra_license_types()
        + spec_drap_license_types()
}

/// All Pakistan license type definitions across all authorities.
pub fn pakistan_license_types() -> (r: Vec<LicenseTypeDefinition>)
    ensures
        license_types_view(r@) == spec_pakistan_license_types(),
        license_types_view(r@) == spec_secp_license_types()
            + spec_sbp_license_types()
            + spec_pta_license_types()
            + spec_pemra_license_types()
            + spec_drap_license_types(),
{
    let mut all: Vec<LicenseTypeDefinition> = Vec::new();
    proof {
        assert(license_types_view(all@) =~= Seq::<LicenseTypeView>::empty());
    }
    let ghost before = all@;
    let mut part = secp_license_types();
    let ghost added = part@;
    all.append(&mut part);
    proof {
        lemma_license_types_view_append(before, added);
        assert(license_types_view(all@) =~= spec_secp_license_types());
    }
    let ghost before = all@;
    let mut part = sbp_license_types();
    let ghost added = part@;
    all.append(&mut part);
    proof {
        lemma_license_types_view_append(before, added);
        assert(license_types_view(all@) =~= spec_secp_license_types() + spec_sbp_license_types());
    }
    let ghost before = all@;
    let mut part = pta_license_types();
    let ghost added = part@;
    all.append(&mut part);
    proof {
        lemma_license_types_view_append(before, added);
        assert(license_types_view(all@) =~= spec_secp_license_types() + spec_sbp_license_types() + spec_pta_license_types());
    }
    let ghost before = all@;
    let mut part = pemra_license_types();
    let ghost added = part@;
    all.append(&mut part);
    proof {
        lemma_license_types_view_append(before, added);
        assert(license_types_view(all@) =~= spec_secp_license_types() + spec_sbp_license_types() + spec_pta_license_types() + spec_pemra_license_types());
    }
    let ghost before = all@;
    let mut part = drap_license_types();
    let ghost added = part@;
    all.append(&mut part);
    proof {
        lemma_license_types_view_append(before, added);
        assert(license_types_view(all@) =~= spec_secp_license_types() + spec_sbp_license_types() + spec_pta_license_types() + spec_pemra_license_types() + spec_drap_license_types());
    }
    all
}

/// The licence types of `secp_license_types` are complete, granted by its regulators, and
/// each of its regulators grants at least one of them.
proof fn lemma_secp_group()
    ensures
        license_types_complete(spec_secp_license_types()),
        granted_by_listed_regulators(spec_secp_license_types(), seq![spec_secp_regulator()]),
        every_regulator_grants(spec_secp_license_types(), seq![spec_secp_regulator()]),
        regulators_in_jurisdiction(seq![spec_secp_regulator()], "pk"@),
{
    assert(complete_each(spec_secp_license_types())) by {
        reveal_strlit("pk-secp:company-registration");
        reveal_strlit("Company Registration");
        reveal_strlit("Registration of a company under the Companies Act 2017");
        reveal_strlit("pk-secp");
        reveal_strlit("pk-secp:securities-broker");
        reveal_strlit("Securities Broker License");
        reveal_strlit("License to operate as a securities broker on PSX");
        reveal_strlit("pk-secp:nbfc");
        reveal_strlit("Non-Banking Finance Company License");
        reveal_strlit("License for non-banking financial companies under NBFC Rules 2003");
        reveal_strlit("pk-secp:insurance");
        reveal_strlit("Insurance License");
        reveal_strlit("License to carry on insurance business under Insurance Ordinance 2000");
        reveal_with_fuel(complete_each, 5);
    }
    lemma_complete_each(spec_secp_license_types());
    assert(granted_by_each(spec_secp_license_types(), seq![spec_secp_regulator()][0].regulator_id)) by {
        reveal_with_fuel(granted_by_each, 5);
    }
    lemma_granted_by_each(spec_secp_license_types(), seq![spec_secp_regulator()], 0);
    assert(grants_some(spec_secp_license_types(), seq![spec_secp_regulator()][0].regulator_id)) by {
        assert(spec_secp_license_types()[0].regulator_id == seq![spec_secp_regulator()][0].regulator_id);
    }
    assert(grants_each(spec_secp_license_types(), seq![spec_secp_regulator()])) by {
        reveal_with_fuel(grants_each, 2);
    }
    lemma_grants_each(spec_secp_license_types(), seq![spec_secp_regulator()]);
    assert(in_jurisdiction_each(seq![spec_secp_regulator()], "pk"@)) by {
        reveal_with_fuel(in_jurisdiction_each, 2);
    }
    lemma_in_jurisdiction_each(seq![spec_secp_regulator()], "pk"@);
}

/// The licence types of `sbp_license_types` are complete, granted by its regulators, and
/// each of its regulators grants at least one of them.
proof fn lemma_sbp_group()
    ensures
        license_types_complete(spec_sbp_license_types()),
        granted_by_listed_regulators(spec_sbp_license_types(), seq![spec_sbp_regulator()]),
        every_regulator_grants(spec_sbp_license_types(), seq![spec_sbp_regulator()]),
        regulators_in_jurisdiction(seq![spec_sbp_regulator()], "pk"@),
{
    assert(complete_each(spec_sbp_license_types())) by {
        reveal_strlit("pk-sbp:commercial-bank");
        reveal_strlit("Commercial Banking License");
        reveal_strlit("License to operate as a scheduled bank under Banking Companies Ordinance 1962");
        reveal_strlit("pk-sbp");
        reveal_strlit("pk-sbp:microfinance-bank");
        reveal_strlit("Microfinance Banking License");
        reveal_strlit("License to operate as a microfinance bank under MFI Ordinance 2001");
        reveal_strlit("pk-sbp:emi");
        reveal_strlit("Electronic Money Institution License");
        reveal_strlit("License to issue electronic money under SBP Payment Systems regulations");
        reveal_strlit("pk-sbp:exchange-company");
        reveal_strlit("Exchange Company License");
        reveal_strlit("License to operate foreign exchange business");
        reveal_with_fuel(complete_each, 5);
    }
    lemma_complete_each(spec_sbp_license_types());
    assert(granted_by_each(spec_sbp_license_types(), seq![spec_sbp_regulator()][0].regulator_id)) by {
        reveal_with_fuel(granted_by_each, 5);
    }
    lemma_granted_by_each(spec_sbp_license_types(), seq![spec_sbp_regulator()], 0);
    assert(grants_some(spec_sbp_license_types(), seq![spec_sbp_regulator()][0].regulator_id)) by {
        assert(spec_sbp_license_types()[0].regulator_id == seq![spec_sbp_regulator()][0].regulator_id);
    }
    assert(grants_each(spec_sbp_license_types(), seq![spec_sbp_regulator()])) by {
        reveal_with_fuel(grants_each, 2);
    }
    lemma_grants_each(spec_sbp_license_types(), seq![spec_sbp_regulator()]);
    assert(in_jurisdiction_each(seq![spec_sbp_regulator()], "pk"@)) by {
        reveal_with_fuel(in_jurisdiction_each, 2);
    }
    lemma_in_jurisdiction_each(seq![spec_sbp_regulator()], "pk"@);
}

/// The licence types of `pta_license_types` are complete, granted by its regulators, and
/// each of its regulators grants at least one of them.
proof fn lemma_pta_group()
    ensures
        license_types_complete(spec_pta_license_types()),
        granted_by_listed_regulators(spec_pta_license_types(), seq![spec_pta_regulator()]),
        every_regulator_grants(spec_pta_license_types(), seq![spec_pta_regulator()]),
        regulators_in_jurisdiction(seq![spec_pta_regulator()], "pk"@),
{
    assert(complete_each(spec_pta_license_types())) by {
        reveal_strlit("pk-pta:cmto");
        reveal_strlit("Cellular Mobile Telecom Operator License");
        reveal_strlit("License to operate cellular mobile services in Pakistan");
        reveal_strlit("pk-pta");
        reveal_strlit("pk-pta:isp");
        reveal_strlit("Internet Service Provider License");
        reveal_strlit("License to provide internet services");
        reveal_strlit("pk-pta:llo");
        reveal_strlit("Local Loop Operator License");
        reveal_strlit("License to operate local loop telecommunications");
        reveal_with_fuel(complete_each, 4);
    }
    lemma_complete_each(spec_pta_license_types());
    assert(granted_by_each(spec_pta_license_types(), seq![spec_pta_regulator()][0].regulator_id)) by {
        reveal_with_fuel(granted_by_each, 4);
    }
    lemma_granted_by_each(spec_pta_license_types(), seq![spec_pta_regulator()], 0);
    assert(grants_some(spec_pta_license_types(), seq![spec_pta_regulator()][0].regulator_id)) by {
        assert(spec_pta_license_types()[0].regulator_id == seq![spec_pta_regulator()][0].regulator_id);
    }
    assert(grants_each(spec_pta_license_types(), seq![spec_pta_regulator()])) by {
        reveal_with_fuel(grants_each, 2);
    }
    lemma_grants_each(spec_pta_license_types(), seq![spec_pta_regulator()]);
    assert(in_jurisdiction_each(seq![spec_pta_regulator()], "pk"@)) by {
        reveal_with_fuel(in_jurisdiction_each, 2);
    }
    lemma_in_jurisdiction_each(seq![spec_pta_regulator()], "pk"@);
}

/// The licence types of `pemra_license_types` are complete, granted by its regulators, and
/// each of its regulators grants at least one of them.
proof fn lemma_pemra_group()
    ensures
        license_types_complete(spec_pemra_license_types()),
        granted_by_listed_regulators(spec_pemra_license_types(), seq![spec_pemra_regulator()]),
        every_regulator_grants(spec_pemra_license_types(), seq![spec_pemra_regulator()]),
        regulators_in_jurisdiction(seq![spec_pemra_regulator()], "pk"@),
{
    assert(complete_each(spec_pemra_license_types())) by {
        reveal_strlit("pk-pemra:satellite-tv");
        reveal_strlit("Satellite TV Channel License");
        reveal_strlit("License to operate a satellite TV channel");
        reveal_strlit("pk-pemra");
        reveal_strlit("pk-pemra:fm-radio");
        reveal_strlit("FM Radio License");
        reveal_strlit("License to operate an FM radio station");
        reveal_strlit("pk-pemra:cable-tv");
        reveal_strlit("Cable TV Distribution License");
        reveal_strlit("License to distribute cable TV services");
        reveal_with_fuel(complete_each, 4);
    }
    lemma_complete_each(spec_pemra_license_types());
    assert(granted_by_each(spec_pemra_license_types(), seq![spec_pemra_regulator()][0].regulator_id)) by {
        reveal_with_fuel(granted_by_each, 4);
    }
    lemma_granted_by_each(spec_pemra_license_types(), seq![spec_pemra_regulator()], 0);
    assert(grants_some(spec_pemra_license_types(), seq![spec_pemra_regulator()][0].regulator_id)) by {
        assert(spec_pemra_license_types()[0].regulator_id == seq![spec_pemra_regulator()][0].regulator_id);
    }
    assert(grants_each(spec_pemra_license_types(), seq![spec_pemra_regulator()])) by {
        reveal_with_fuel(grants_each, 2);
    }
    lemma_grants_each(spec_pemra_license_types(), seq![spec_pemra_regulator()]);
    assert(in_jurisdiction_each(seq![spec_pemra_regulator()], "pk"@)) by {
        reveal_with_fuel(in_jurisdiction_each, 2);
    }
    lemma_in_jurisdiction_each(seq![spec_pemra_regulator()], "pk"@);
}

/// The licence types of `drap_license_types` are complete, granted by its regulators, and
/// each of its regulators grants at least one of them.
proof fn lemma_drap_group()
    ensures
        license_types_complete(spec_drap_license_types()),
        granted_by_listed_regulators(spec_drap_license_types(), seq![spec_drap_regulator()]),
        every_regulator_grants(spec_drap_license_types(), seq![spec_drap_regulator()]),
        regulators_in_jurisdiction(seq![spec_drap_regulator()], "pk"@),
{
    assert(complete_each(spec_drap_license_types())) by {
        reveal_strlit("pk-drap:drug-manufacturing");
        reveal_strlit("Drug Manufacturing License");
        reveal_strlit("License to manufacture pharmaceutical drugs under DRAP Act 2012");
        reveal_strlit("pk-drap");
        reveal_strlit("pk-drap:drug-import");
        reveal_strlit("Drug Import License");
        reveal_strlit("License to import pharmaceutical drugs");
        reveal_strlit("pk-drap:medical-device");
        reveal_strlit("Medical Device Registration");
        reveal_strlit("Registration of medical devices for sale in Pakistan");
        reveal_with_fuel(complete_each, 4);
    }
    lemma_complete_each(spec_drap_license_types());
    assert(granted_by_each(spec_drap_license_types(), seq![spec_drap_regulator()][0].regulator_id)) by {
        reveal_with_fuel(granted_by_each, 4);
    }
    lemma_granted_by_each(spec_drap_license_types(), seq![spec_drap_regulator()], 0);
    assert(grants_some(spec_drap_license_types(), seq![spec_drap_regulator()][0].regulator_id)) by {
        assert(spec_drap_license_types()[0].regulator_id == seq![spec_drap_regulator()][0].regulator_id);
    }
    assert(grants_each(spec_drap_license_types(), seq![spec_drap_regulator()])) by {
        reveal_with_fuel(grants_each, 2);
    }
    lemma_grants_each(spec_drap_license_types(), seq![spec_drap_regulator()]);
    assert(in_jurisdiction_each(seq![spec_drap_regulator()], "pk"@)) by {
        reveal_with_fuel(in_jurisdiction_each, 2);
    }
    lemma_in_jurisdiction_each(seq![spec_drap_regulator()], "pk"@);
}

/// The catalog of Pakistan is consistent: every licence type has a non-empty identifier, name, description and
/// regulator identifier, a category, and at least one permitted activity;
/// every licence type is granted by one of its regulators;
/// every regulator grants at least one licence type;
/// every regulator belongs to jurisdiction `pk`.
pub proof fn lemma_pakistan_catalog_consistent()
    ensures
        license_types_complete(spec_pakistan_license_types()),
        granted_by_listed_regulators(spec_pakistan_license_types(), spec_pakistan_regulators()),
        every_regulator_grants(spec_pakistan_license_types(), spec_pakistan_regulators()),
        regulators_in_jurisdiction(spec_pakistan_regulators(), "pk"@),
{
    lemma_secp_group();
    lemma_sbp_group();
    lemma_pta_group();
    lemma_pemra_group();
    lemma_drap_group();
    assert(spec_pakistan_regulators() =~= seq![spec_secp_regulator()] + seq![spec_sbp_regulator()] + seq![spec_pta_regulator()] + seq![spec_pemra_regulator()] + seq![spec_drap_regulator()]);
    assert(spec_pakistan_license_types() =~= spec_secp_license_types() + spec_sbp_license_types() + spec_pta_license_types() + spec_pemra_license_types() + spec_drap_license_types());
    lemma_complete_append(spec_secp_license_types(), spec_sbp_license_types());
    lemma_granted_combine(spec_secp_license_types(), seq![spec_secp_regulator()], spec_sbp_license_types(), seq![spec_sbp_regulator()]);
    lemma_every_combine(spec_secp_license_types(), seq![spec_secp_regulator()], spec_sbp_license_types(), seq![spec_sbp_regulator()]);
    lemma_in_jurisdiction_append(seq![spec_secp_regulator()], seq![spec_sbp_regulator()], "pk"@);
    lemma_complete_append(spec_secp_license_types() + spec_sbp_license_types(), spec_pta_license_types());
    lemma_granted_combine(spec_secp_license_types() + spec_sbp_license_types(), seq![spec_secp_regulator()] + seq![spec_sbp_regulator()], spec_pta_license_types(), seq![spec_pta_regulator()]);
    lemma_every_combine(spec_secp_license_types() + spec_sbp_license_types(), seq![spec_secp_regulator()] + seq![spec_sbp_regulator()], spec_pta_license_types(), seq![spec_pta_regulator()]);
    lemma_in_jurisdiction_append(seq![spec_secp_regulator()] + seq![spec_sbp_regulator()], seq![spec_pta_regulator()], "pk"@);
    lemma_complete_append(spec_secp_license_types() + spec_sbp_license_types() + spec_pta_license_types(), spec_pemra_license_types());
    lemma_granted_combine(spec_secp_license_types() + spec_sbp_license_types() + spec_pta_license_types(), seq![spec_secp_regulator()] + seq![spec_sbp_regulator()] + seq![spec_pta_regulator()], spec_pemra_license_types(), seq![spec_pemra_regulator()]);
    lemma_every_combine(spec_secp_license_types() + spec_sbp_license_types() + spec_pta_license_types(), seq![spec_secp_regulator()] + seq![spec_sbp_regulator()] + seq![spec_pta_regulator()], spec_pemra_license_types(), seq![spec_pemra_regulator()]);
    lemma_in_jurisdiction_append(seq![spec_secp_regulator()] + seq![spec_sbp_regulator()] + seq![spec_pta_regulator()], seq![spec_pemra_regulator()], "pk"@);
    lemma_complete_append(spec_secp_license_types() + spec_sbp_license_types() + spec_pta_license_types() + spec_pemra_license_types(), spec_drap_license_types());
    lemma_granted_combine(spec_secp_license_types() + spec_sbp_license_types() + spec_pta_license_types() + spec_pemra_license_types(), seq![spec_secp_regulator()] + seq![spec_sbp_regulator()] + seq![spec_pta_regulator()] + seq![spec_pemra_regulator()], spec_drap_license_types(), seq![spec_drap_regulator()]);
    lemma_every_combine(spec_secp_license_types() + spec_sbp_license_types() + spec_pta_license_types() + spec_pemra_license_types(), seq![spec_secp_regulator()] + seq![spec_sbp_regulator()] + seq![spec_pta_regulator()] + seq![spec_pemra_regulator()], spec_drap_license_types(), seq![spec_drap_regulator()]);
    lemma_in_jurisdiction_append(seq![spec_secp_regulator()] + seq![spec_sbp_regulator()] + seq![spec_pta_regulator()] + seq![spec_pemra_regulator()], seq![spec_drap_regulator()], "pk"@);
}

/// No two licence types of `secp_license_types` share an identifier.
proof fn lemma_secp_license_types_ids_distinct()
    ensures
        license_type_ids_distinct(spec_secp_license_types()),
{
    let t = spec_secp_license_types();
    assert(ids_distinct_each(t)) by {
        reveal_strlit("pk-secp:company-registration");
        reveal_strlit("pk-secp:insurance");
        reveal_strlit("pk-secp:nbfc");
        reveal_strlit("pk-secp:securities-broker");
        assert(t[0].license_type_id[8] != t[1].license_type_id[8]);
        assert(t[0].license_type_id[8] != t[2].license_type_id[8]);
        assert(t[1].license_type_id[8] != t[2].license_type_id[8]);
        assert(t[0].license_type_id[8] != t[3].license_type_id[8]);
        assert(t[1].license_type_id[8] != t[3].license_type_id[8]);
        assert(t[2].license_type_id[8] != t[3].license_type_id[8]);
        reveal_with_fuel(ids_distinct_each, 5);
        reveal_with_fuel(id_fresh_each, 5);
    }
    lemma_ids_distinct_each(t);
}

/// No two licence types of `sbp_license_types` share an identifier.
proof fn lemma_sbp_license_types_ids_distinct()
    ensures
        license_type_ids_distinct(spec_sbp_license_types()),
{
    let t = spec_sbp_license_types();
    assert(ids_distinct_each(t)) by {
        reveal_strlit("pk-sbp:commercial-bank");
        reveal_strlit("pk-sbp:emi");
        reveal_strlit("pk-sbp:exchange-company");
        reveal_strlit("pk-sbp:microfinance-bank");
        assert(t[0].license_type_id[7] != t[1].license_type_id[7]);
        assert(t[0].license_type_id[7] != t[2].license_type_id[7]);
        assert(t[1].license_type_id[7] != t[2].license_type_id[7]);
        assert(t[0].license_type_id[7] != t[3].license_type_id[7]);
        assert(t[1].license_type_id[7] != t[3].license_type_id[7]);
        assert(t[2].license_type_id[8] != t[3].license_type_id[8]);
        reveal_with_fuel(ids_distinct_each, 5);
        reveal_with_fuel(id_fresh_each, 5);
    }
    lemma_ids_distinct_each(t);
}

/// No two licence types of `pta_license_types` share an identifier.
proof fn lemma_pta_license_types_ids_distinct()
    ensures
        license_type_ids_distinct(spec_pta_license_types()),
{
    let t = spec_pta_license_types();
    assert(ids_distinct_each(t)) by {
        reveal_strlit("pk-pta:cmto");
        reveal_strlit("pk-pta:isp");
        reveal_strlit("pk-pta:llo");
        assert(t[0].license_type_id[7] != t[1].license_type_id[7]);
        assert(t[0].license_type_id[7] != t[2].license_type_id[7]);
        assert(t[1].license_type_id[7] != t[2].license_type_id[7]);
        reveal_with_fuel(ids_distinct_each, 4);
        reveal_with_fuel(id_fresh_each, 4);
    }
    lemma_ids_distinct_each(t);
}

/// No two licence types of `pemra_license_types` share an identifier.
proof fn lemma_pemra_license_types_ids_distinct()
    ensures
        license_type_ids_distinct(spec_pemra_license_types()),
{
    let t = spec_pemra_license_types();
    assert(ids_distinct_each(t)) by {
        reveal_strlit("pk-pemra:cable-tv");
        reveal_strlit("pk-pemra:fm-radio");
        reveal_strlit("pk-pemra:satellite-tv");
        assert(t[0].license_type_id[9] != t[1].license_type_id[9]);
        assert(t[0].license_type_id[9] != t[2].license_type_id[9]);
        assert(t[1].license_type_id[9] != t[2].license_type_id[9]);
        reveal_with_fuel(ids_distinct_each, 4);
        reveal_with_fuel(id_fresh_each, 4);
    }
    lemma_ids_distinct_each(t);
}

/// No two licence types of `drap_license_types` share an identifier.
proof fn lemma_drap_license_types_ids_distinct()
    ensures
        license_type_ids_distinct(spec_drap_license_types()),
{
    let t = spec_drap_license_types();
    assert(ids_distinct_each(t)) by {
        reveal_strlit("pk-drap:drug-import");
        reveal_strlit("pk-drap:drug-manufacturing");
        reveal_strlit("pk-drap:medical-device");
        assert(t[0].license_type_id[13] != t[1].license_type_id[13]);
        assert(t[0].license_type_id[8] != t[2].license_type_id[8]);
        assert(t[1].license_type_id[8] != t[2].license_type_id[8]);
        reveal_with_fuel(ids_distinct_each, 4);
        reveal_with_fuel(id_fresh_each, 4);
    }
    lemma_ids_distinct_each(t);
}

/// No licence type of `secp_license_types` shares an identifier with one of `sbp_license_types`.
proof fn lemma_secp_license_types_apart_from_sbp_license_types()
    ensures
        license_type_ids_apart(spec_secp_license_types(), spec_sbp_license_types()),
{
    let a = spec_secp_license_types();
    let b = spec_sbp_license_types();
    assert(apart_each(a, b)) by {
        reveal_strlit("pk-sbp:commercial-bank");
        reveal_strlit("pk-sbp:emi");
        reveal_strlit("pk-sbp:exchange-company");
        reveal_strlit("pk-sbp:microfinance-bank");
        reveal_strlit("pk-secp:company-registration");
        reveal_strlit("pk-secp:insurance");
        reveal_strlit("pk-secp:nbfc");
        reveal_strlit("pk-secp:securities-broker");
        assert(a[0].license_type_id[4] != b[0].license_type_id[4]);
        assert(a[0].license_type_id[4] != b[1].license_type_id[4]);
        assert(a[0].license_type_id[4] != b[2].license_type_id[4]);
        assert(a[0].license_type_id[4] != b[3].license_type_id[4]);
        assert(a[1].license_type_id[4] != b[0].license_type_id[4]);
        assert(a[1].license_type_id[4] != b[1].license_type_id[4]);
        assert(a[1].license_type_id[4] != b[2].license_type_id[4]);
        assert(a[1].license_type_id[4] != b[3].license_type_id[4]);
        assert(a[2].license_type_id[4] != b[0].license_type_id[4]);
        assert(a[2].license_type_id[4] != b[1].license_type_id[4]);
        assert(a[2].license_type_id[4] != b[2].license_type_id[4]);
        assert(a[2].license_type_id[4] != b[3].license_type_id[4]);
        assert(a[3].license_type_id[4] != b[0].license_type_id[4]);
        assert(a[3].license_type_id[4] != b[1].license_type_id[4]);
        assert(a[3].license_type_id[4] != b[2].license_type_id[4]);
        assert(a[3].license_type_id[4] != b[3].license_type_id[4]);
        reveal_with_fuel(apart_each, 5);
        reveal_with_fuel(id_fresh_each, 5);
    }
    lemma_apart_each(a, b);
}

/// No licence type of `secp_license_types` shares an identifier with one of `pta_license_types`.
proof fn lemma_secp_license_types_apart_from_pta_license_types()
    ensures
        license_type_ids_apart(spec_secp_license_types(), spec_pta_license_types()),
{
    let a = spec_secp_license_types();
    let b = spec_pta_license_types();
    assert(apart_each(a, b)) by {
        reveal_strlit("pk-pta:cmto");
        reveal_strlit("pk-pta:isp");
        reveal_strlit("pk-pta:llo");
        reveal_strlit("pk-secp:company-registration");
        reveal_strlit("pk-secp:insurance");
        reveal_strlit("pk-secp:nbfc");
        reveal_strlit("pk-secp:securities-broker");
        assert(a[0].license_type_id[3] != b[0].license_type_id[3]);
        assert(a[0].license_type_id[3] != b[1].license_type_id[3]);
        assert(a[0].license_type_id[3] != b[2].license_type_id[3]);
        assert(a[1].license_type_id[3] != b[0].license_type_id[3]);
        assert(a[1].license_type_id[3] != b[1].license_type_id[3]);
        assert(a[1].license_type_id[3] != b[2].license_type_id[3]);
        assert(a[2].license_type_id[3] != b[0].license_type_id[3]);
        assert(a[2].license_type_id[3] != b[1].license_type_id[3]);
        assert(a[2].license_type_id[3] != b[2].license_type_id[3]);
        assert(a[3].license_type_id[3] != b[0].license_type_id[3]);
        assert(a[3].license_type_id[3] != b[1].license_type_id[3]);
        assert(a[3].license_type_id[3] != b[2].license_type_id[3]);
        reveal_with_fuel(apart_each, 5);
        reveal_with_fuel(id_fresh_each, 4);
    }
    lemma_apart_each(a, b);
}

/// No licence type of `secp_license_types` shares an identifier with one of `pemra_license_types`.
proof fn lemma_secp_license_types_apart_from_pemra_license_types()
    ensures
        license_type_ids_apart(spec_secp_license_types(), spec_pemra_license_types()),
{
    let a = spec_secp_license_types();
    let b = spec_pemra_license_types();
    assert(apart_each(a, b)) by {
        reveal_strlit("pk-pemra:cable-tv");
        reveal_strlit("pk-pemra:fm-radio");
        reveal_strlit("pk-pemra:satellite-tv");
        reveal_strlit("pk-secp:company-registration");
        reveal_strlit("pk-secp:insurance");
        reveal_strlit("pk-secp:nbfc");
        reveal_strlit("pk-secp:securities-broker");
        assert(a[0].license_type_id[3] != b[0].license_type_id[3]);
        assert(a[0].license_type_id[3] != b[1].license_type_id[3]);
        assert(a[0].license_type_id[3] != b[2].license_type_id[3]);
        assert(a[1].license_type_id[3] != b[0].license_type_id[3]);
        assert(a[1].license_type_id[3] != b[1].license_type_id[3]);
        assert(a[1].license_type_id[3] != b[2].license_type_id[3]);
        assert(a[2].license_type_id[3] != b[0].license_type_id[3]);
        assert(a[2].license_type_id[3] != b[1].license_type_id[3]);
        assert(a[2].license_type_id[3] != b[2].license_type_id[3]);
        assert(a[3].license_type_id[3] != b[0].license_type_id[3]);
        assert(a[3].license_type_id[3] != b[1].license_type_id[3]);
        assert(a[3].license_type_id[3] != b[2].license_type_id[3]);
        reveal_with_fuel(apart_each, 5);
        reveal_with_fuel(id_fresh_each, 4);
    }
    lemma_apart_each(a, b);
}

/// No licence type of `secp_license_types` shares an identifier with one of `drap_license_types`.
proof fn lemma_secp_license_types_apart_from_drap_license_types()
    ensures
        license_type_ids_apart(spec_secp_license_types(), spec_drap_license_types()),
{
    let a = spec_secp_license_types();
    let b = spec_drap_license_types();
    assert(apart_each(a, b)) by {
        reveal_strlit("pk-drap:drug-import");
        reveal_strlit("pk-drap:drug-manufacturing");
        reveal_strlit("pk-drap:medical-device");
        reveal_strlit("pk-secp:company-registration");
        reveal_strlit("pk-secp:insurance");
        reveal_strlit("pk-secp:nbfc");
        reveal_strlit("pk-secp:securities-broker");
        assert(a[0].license_type_id[3] != b[0].license_type_id[3]);
        assert(a[0].license_type_id[3] != b[1].license_type_id[3]);
        assert(a[0].license_type_id[3] != b[2].license_type_id[3]);
        assert(a[1].license_type_id[3] != b[0].license_type_id[3]);
        assert(a[1].license_type_id[3] != b[1].license_type_id[3]);
        assert(a[1].license_type_id[3] != b[2].license_type_id[3]);
        assert(a[2].license_type_id[3] != b[0].license_type_id[3]);
        assert(a[2].license_type_id[3] != b[1].license_type_id[3]);
        assert(a[2].license_type_id[3] != b[2].license_type_id[3]);
        assert(a[3].license_type_id[3] != b[0].license_type_id[3]);
        assert(a[3].license_type_id[3] != b[1].license_type_id[3]);
        assert(a[3].license_type_id[3] != b[2].license_type_id[3]);
        reveal_with_fuel(apart_each, 5);
        reveal_with_fuel(id_fresh_each, 4);
    }
    lemma_apart_each(a, b);
}

/// No licence type of `sbp_license_types` shares an identifier with one of `pta_license_types`.
proof fn lemma_sbp_license_types_apart_from_pta_license_types()
    ensures
        license_type_ids_apart(spec_sbp_license_types(), spec_pta_license_types()),
{
    let a = spec_sbp_license_types();
    let b = spec_pta_license_types();
    assert(apart_each(a, b)) by {
        reveal_strlit("pk-pta:cmto");
        reveal_strlit("pk-pta:isp");
        reveal_strlit("pk-pta:llo");
        reveal_strlit("pk-sbp:commercial-bank");
        reveal_strlit("pk-sbp:emi");
        reveal_strlit("pk-sbp:exchange-company");
        reveal_strlit("pk-sbp:microfinance-bank");
        assert(a[0].license_type_id[3] != b[0].license_type_id[3]);
        assert(a[0].license_type_id[3] != b[1].license_type_id[3]);
        assert(a[0].license_type_id[3] != b[2].license_type_id[3]);
        assert(a[1].license_type_id[3] != b[0].license_type_id[3]);
        assert(a[1].license_type_id[3] != b[1].license_type_id[3]);
        assert(a[1].license_type_id[3] != b[2].license_type_id[3]);
        assert(a[2].license_type_id[3] != b[0].license_type_id[3]);
        assert(a[2].license_type_id[3] != b[1].license_type_id[3]);
        assert(a[2].license_type_id[3] != b[2].license_type_id[3]);
        assert(a[3].license_type_id[3] != b[0].license_type_id[3]);
        assert(a[3].license_type_id[3] != b[1].license_type_id[3]);
        assert(a[3].license_type_id[3] != b[2].license_type_id[3]);
        reveal_with_fuel(apart_each, 5);
        reveal_with_fuel(id_fresh_each, 4);
    }
    lemma_apart_each(a, b);
}

/// No licence type of `sbp_license_types` shares an identifier with one of `pemra_license_types`.
proof fn lemma_sbp_license_types_apart_from_pemra_license_types()
    ensures
        license_type_ids_apart(spec_sbp_license_types(), spec_pemra_license_types()),
{
    let a = spec_sbp_license_types();
    let b = spec_pemra_license_types();
    assert(apart_each(a, b)) by {
        reveal_strlit("pk-pemra:cable-tv");
        reveal_strlit("pk-pemra:fm-radio");
        reveal_strlit("pk-pemra:satellite-tv");
        reveal_strlit("pk-sbp:commercial-bank");
        reveal_strlit("pk-sbp:emi");
        reveal_strlit("pk-sbp:exchange-company");
        reveal_strlit("pk-sbp:microfinance-bank");
        assert(a[0].license_type_id[3] != b[0].license_type_id[3]);
        assert(a[0].license_type_id[3] != b[1].license_type_id[3]);
        assert(a[0].license_type_id[3] != b[2].license_type_id[3]);
        assert(a[1].license_type_id[3] != b[0].license_type_id[3]);
        assert(a[1].license_type_id[3] != b[1].license_type_id[3]);
        assert(a[1].license_type_id[3] != b[2].license_type_id[3]);
        assert(a[2].license_type_id[3] != b[0].license_type_id[3]);
        assert(a[2].license_type_id[3] != b[1].license_type_id[3]);
        assert(a[2].license_type_id[3] != b[2].license_type_id[3]);
        assert(a[3].license_type_id[3] != b[0].license_type_id[3]);
        assert(a[3].license_type_id[3] != b[1].license_type_id[3]);
        assert(a[3].license_type_id[3] != b[2].license_type_id[3]);
        reveal_with_fuel(apart_each, 5);
        reveal_with_fuel(id_fresh_each, 4);
    }
    lemma_apart_each(a, b);
}

/// No licence type of `sbp_license_types` shares an identifier with one of `drap_license_types`.
proof fn lemma_sbp_license_types_apart_from_drap_license_types()
    ensures
        license_type_ids_apart(spec_sbp_license_types(), spec_drap_license_types()),
{
    let a = spec_sbp_license_types();
    let b = spec_drap_license_types();
    assert(apart_each(a, b)) by {
        reveal_strlit("pk-drap:drug-import");
        reveal_strlit("pk-drap:drug-manufacturing");
        reveal_strlit("pk-drap:medical-device");
        reveal_strlit("pk-sbp:commercial-bank");
        reveal_strlit("pk-sbp:emi");
        reveal_strlit("pk-sbp:exchange-company");
        reveal_strlit("pk-sbp:microfinance-bank");
        assert(a[0].license_type_id[3] != b[0].license_type_id[3]);
        assert(a[0].license_type_id[3] != b[1].license_type_id[3]);
        assert(a[0].license_type_id[3] != b[2].license_type_id[3]);
        assert(a[1].license_type_id[3] != b[0].license_type_id[3]);
        assert(a[1].license_type_id[3] != b[1].license_type_id[3]);
        assert(a[1].license_type_id[3] != b[2].license_type_id[3]);
        assert(a[2].license_type_id[3] != b[0].license_type_id[3]);
        assert(a[2].license_type_id[3] != b[1].license_type_id[3]);
        assert(a[2].license_type_id[3] != b[2].license_type_id[3]);
        assert(a[3].license_type_id[3] != b[0].license_type_id[3]);
        assert(a[3].license_type_id[3] != b[1].license_type_id[3]);
        assert(a[3].license_type_id[3] != b[2].license_type_id[3]);
        reveal_with_fuel(apart_each, 5);
        reveal_with_fuel(id_fresh_each, 4);
    }
    lemma_apart_each(a, b);
}

/// No licence type of `pta_license_types` shares an identifier with one of `pemra_license_types`.
proof fn lemma_pta_license_types_apart_from_pemra_license_types()
    ensures
        license_type_ids_apart(spec_pta_license_types(), spec_pemra_license_types()),
{
    let a = spec_pta_license_types();
    let b = spec_pemra_license_types();
    assert(apart_each(a, b)) by {
        reveal_strlit("pk-pemra:cable-tv");
        reveal_strlit("pk-pemra:fm-radio");
        reveal_strlit("pk-pemra:satellite-tv");
        reveal_strlit("pk-pta:cmto");
        reveal_strlit("pk-pta:isp");
        reveal_strlit("pk-pta:llo");
        assert(a[0].license_type_id[4] != b[0].license_type_id[4]);
        assert(a[0].license_type_id[4] != b[1].license_type_id[4]);
        assert(a[0].license_type_id[4] != b[2].license_type_id[4]);
        assert(a[1].license_type_id[4] != b[0].license_type_id[4]);
        assert(a[1].license_type_id[4] != b[1].license_type_id[4]);
        assert(a[1].license_type_id[4] != b[2].license_type_id[4]);
        assert(a[2].license_type_id[4] != b[0].license_type_id[4]);
        assert(a[2].license_type_id[4] != b[1].license_type_id[4]);
        assert(a[2].license_type_id[4] != b[2].license_type_id[4]);
        reveal_with_fuel(apart_each, 4);
        reveal_with_fuel(id_fresh_each, 4);
    }
    lemma_apart_each(a, b);
}

/// No licence type of `pta_license_types` shares an identifier with one of `drap_license_types`.
proof fn lemma_pta_license_types_apart_from_drap_license_types()
    ensures
        license_type_ids_apart(spec_pta_license_types(), spec_drap_license_types()),
{
    let a = spec_pta_license_types();
    let b = spec_drap_license_types();
    assert(apart_each(a, b)) by {
        reveal_strlit("pk-drap:drug-import");
        reveal_strlit("pk-drap:drug-manufacturing");
        reveal_strlit("pk-drap:medical-device");
        reveal_strlit("pk-pta:cmto");
        reveal_strlit("pk-pta:isp");
        reveal_strlit("pk-pta:llo");
        assert(a[0].license_type_id[3] != b[0].license_type_id[3]);
        assert(a[0].license_type_id[3] != b[1].license_type_id[3]);
        assert(a[0].license_type_id[3] != b[2].license_type_id[3]);
        assert(a[1].license_type_id[3] != b[0].license_type_id[3]);
        assert(a[1].license_type_id[3] != b[1].license_type_id[3]);
        assert(a[1].license_type_id[3] != b[2].license_type_id[3]);
        assert(a[2].license_type_id[3] != b[0].license_type_id[3]);
        assert(a[2].license_type_id[3] != b[1].license_type_id[3]);
        assert(a[2].license_type_id[3] != b[2].license_type_id[3]);
        reveal_with_fuel(apart_each, 4);
        reveal_with_fuel(id_fresh_each, 4);
    }
    lemma_apart_each(a, b);
}

/// No licence type of `pemra_license_types` shares an identifier with one of `drap_license_types`.
proof fn lemma_pemra_license_types_apart_from_drap_license_types()
    ensures
        license_type_ids_apart(spec_pemra_license_types(), spec_drap_license_types()),
{
    let a = spec_pemra_license_types();
    let b = spec_drap_license_types();
    assert(apart_each(a, b)) by {
        reveal_strlit("pk-drap:drug-import");
        reveal_strlit("pk-drap:drug-manufacturing");
        reveal_strlit("pk-drap:medical-device");
        reveal_strlit("pk-pemra:cable-tv");
        reveal_strlit("pk-pemra:fm-radio");
        reveal_strlit("pk-pemra:satellite-tv");
        assert(a[0].license_type_id[3] != b[0].license_type_id[3]);
        assert(a[0].license_type_id[3] != b[1].license_type_id[3]);
        assert(a[0].license_type_id[3] != b[2].license_type_id[3]);
        assert(a[1].license_type_id[3] != b[0].license_type_id[3]);
        assert(a[1].license_type_id[3] != b[1].license_type_id[3]);
        assert(a[1].license_type_id[3] != b[2].license_type_id[3]);
        assert(a[2].license_type_id[3] != b[0].license_type_id[3]);
        assert(a[2].license_type_id[3] != b[1].license_type_id[3]);
        assert(a[2].license_type_id[3] != b[2].license_type_id[3]);
        reveal_with_fuel(apart_each, 4);
        reveal_with_fuel(id_fresh_each, 4);
    }
    lemma_apart_each(a, b);
}

/// No two licence types of `pakistan_license_types` share an identifier.
pub proof fn lemma_pakistan_license_type_ids_distinct()
    ensures
        license_type_ids_distinct(spec_pakistan_license_types()),
{
    lemma_secp_license_types_ids_distinct();
    lemma_sbp_license_types_ids_distinct();
    lemma_pta_license_types_ids_distinct();
    lemma_pemra_license_types_ids_distinct();
    lemma_drap_license_types_ids_distinct();
    assert(spec_pakistan_license_types() =~= spec_secp_license_types() + spec_sbp_license_types() + spec_pta_license_types() + spec_pemra_license_types() + spec_drap_license_types());
    let acc = spec_secp_license_types();
    lemma_secp_license_types_apart_from_sbp_license_types();
    let part = spec_secp_license_types();
    lemma_ids_distinct_append(acc, spec_sbp_license_types());
    let acc = acc + spec_sbp_license_types();
    lemma_secp_license_types_apart_from_pta_license_types();
    lemma_sbp_license_types_apart_from_pta_license_types();
    let part = spec_secp_license_types();
    lemma_ids_apart_append(part, spec_sbp_license_types(), spec_pta_license_types());
    let part = part + spec_sbp_license_types();
    lemma_ids_distinct_append(acc, spec_pta_license_types());
    let acc = acc + spec_pta_license_types();
    lemma_secp_license_types_apart_from_pemra_license_types();
    lemma_sbp_license_types_apart_from_pemra_license_types();
    lemma_pta_license_types_apart_from_pemra_license_types();
    let part = spec_secp_license_types();
    lemma_ids_apart_append(part, spec_sbp_license_types(), spec_pemra_license_types());
    let part = part + spec_sbp_license_types();
    lemma_ids_apart_append(part, spec_pta_license_types(), spec_pemra_license_types());
    let part = part + spec_pta_license_types();
    lemma_ids_distinct_append(acc, spec_pemra_license_types());
    let acc = acc + spec_pemra_license_types();
    lemma_secp_license_types_apart_from_drap_license_types();
    lemma_sbp_license_types_apart_from_drap_license_types();
    lemma_pta_license_types_apart_from_drap_license_types();
    lemma_pemra_license_types_apart_from_drap_license_types();
    let part = spec_secp_license_types();
    lemma_ids_apart_append(part, spec_sbp_license_types(), spec_drap_license_types());
    let part = part + spec_sbp_license_types();
    lemma_ids_apart_append(part, spec_pta_license_types(), spec_drap_license_types());
    let part = part + spec_pta_license_types();
    lemma_ids_apart_append(part, spec_pemra_license_types(), spec_drap_license_types());
    let part = part + spec_pemra_license_types();
    lemma_ids_distinct_append(acc, spec_drap_license_types());
    let acc = acc + spec_drap_license_types();
    assert(spec_pakistan_license_types() == acc);
}

/// Each licence-type identifier of `secp_license_types` starts with its regulator's
/// identifier and a colon.
proof fn lemma_secp_license_types_prefixed()
    ensures
        license_type_ids_prefixed(spec_secp_license_types()),
{
    let ts = spec_secp_license_types();
    assert(license_type_id_prefixed(ts[0])) by {
        reveal_strlit("pk-secp:company-registration");
        reveal_strlit("pk-secp");
        reveal_strlit(":");
        assert(ts[0].license_type_id.subrange(0, (ts[0].regulator_id + ":"@).len() as int) =~= ts[0].regulator_id + ":"@);
    }
    assert(license_type_id_prefixed(ts[1])) by {
        reveal_strlit("pk-secp:securities-broker");
        reveal_strlit("pk-secp");
        reveal_strlit(":");
        assert(ts[1].license_type_id.subrange(0, (ts[1].regulator_id + ":"@).len() as int) =~= ts[1].regulator_id + ":"@);
    }
    assert(license_type_id_prefixed(ts[2])) by {
        reveal_strlit("pk-secp:nbfc");
        reveal_strlit("pk-secp");
        reveal_strlit(":");
        assert(ts[2].license_type_id.subrange(0, (ts[2].regulator_id + ":"@).len() as int) =~= ts[2].regulator_id + ":"@);
    }
    assert(license_type_id_prefixed(ts[3])) by {
        reveal_strlit("pk-secp:insurance");
        reveal_strlit("pk-secp");
        reveal_strlit(":");
        assert(ts[3].license_type_id.subrange(0, (ts[3].regulator_id + ":"@).len() as int) =~= ts[3].regulator_id + ":"@);
    }
    assert(prefixed_each(ts)) by {
        reveal_with_fuel(prefixed_each, 5);
    }
    lemma_prefixed_each(ts);
}

/// Each licence-type identifier of `sbp_license_types` starts with its regulator's
/// identifier and a colon.
proof fn lemma_sbp_license_types_prefixed()
    ensures
        license_type_ids_prefixed(spec_sbp_license_types()),
{
    let ts = spec_sbp_license_types();
    assert(license_type_id_prefixed(ts[0])) by {
        reveal_strlit("pk-sbp:commercial-bank");
        reveal_strlit("pk-sbp");
        reveal_strlit(":");
        assert(ts[0].license_type_id.subrange(0, (ts[0].regulator_id + ":"@).len() as int) =~= ts[0].regulator_id + ":"@);
    }
    assert(license_type_id_prefixed(ts[1])) by {
        reveal_strlit("pk-sbp:microfinance-bank");
        reveal_strlit("pk-sbp");
        reveal_strlit(":");
        assert(ts[1].license_type_id.subrange(0, (ts[1].regulator_id + ":"@).len() as int) =~= ts[1].regulator_id + ":"@);
    }
    assert(license_type_id_prefixed(ts[2])) by {
        reveal_strlit("pk-sbp:emi");
        reveal_strlit("pk-sbp");
        reveal_strlit(":");
        assert(ts[2].license_type_id.subrange(0, (ts[2].regulator_id + ":"@).len() as int) =~= ts[2].regulator_id + ":"@);
    }
    assert(license_type_id_prefixed(ts[3])) by {
        reveal_strlit("pk-sbp:exchange-company");
        reveal_strlit("pk-sbp");
        reveal_strlit(":");
        assert(ts[3].license_type_id.subrange(0, (ts[3].regulator_id + ":"@).len() as int) =~= ts[3].regulator_id + ":"@);
    }
    assert(prefixed_each(ts)) by {
        reveal_with_fuel(prefixed_each, 5);
    }
    lemma_prefixed_each(ts);
}

/// Each licence-type identifier of `pta_license_types` starts with its regulator's
/// identifier and a colon.
proof fn lemma_pta_license_types_prefixed()
    ensures
        license_type_ids_prefixed(spec_pta_license_types()),
{
    let ts = spec_pta_license_types();
    assert(license_type_id_prefixed(ts[0])) by {
        reveal_strlit("pk-pta:cmto");
        reveal_strlit("pk-pta");
        reveal_strlit(":");
        assert(ts[0].license_type_id.subrange(0, (ts[0].regulator_id + ":"@).len() as int) =~= ts[0].regulator_id + ":"@);
    }
    assert(license_type_id_prefixed(ts[1])) by {
        reveal_strlit("pk-pta:isp");
        reveal_strlit("pk-pta");
        reveal_strlit(":");
        assert(ts[1].license_type_id.subrange(0, (ts[1].regulator_id + ":"@).len() as int) =~= ts[1].regulator_id + ":"@);
    }
    assert(license_type_id_prefixed(ts[2])) by {
        reveal_strlit("pk-pta:llo");
        reveal_strlit("pk-pta");
        reveal_strlit(":");
        assert(ts[2].license_type_id.subrange(0, (ts[2].regulator_id + ":"@).len() as int) =~= ts[2].regulator_id + ":"@);
    }
    assert(prefixed_each(ts)) by {
        reveal_with_fuel(prefixed_each, 4);
    }
    lemma_prefixed_each(ts);
}

/// Each licence-type identifier of `pemra_license_types` starts with its regulator's
/// identifier and a colon.
proof fn lemma_pemra_license_types_prefixed()
    ensures
        license_type_ids_prefixed(spec_pemra_license_types()),
{
    let ts = spec_pemra_license_types();
    assert(license_type_id_prefixed(ts[0])) by {
        reveal_strlit("pk-pemra:satellite-tv");
        reveal_strlit("pk-pemra");
        reveal_strlit(":");
        assert(ts[0].license_type_id.subrange(0, (ts[0].regulator_id + ":"@).len() as int) =~= ts[0].regulator_id + ":"@);
    }
    assert(license_type_id_prefixed(ts[1])) by {
        reveal_strlit("pk-pemra:fm-radio");
        reveal_strlit("pk-pemra");
        reveal_strlit(":");
        assert(ts[1].license_type_id.subrange(0, (ts[1].regulator_id + ":"@).len() as int) =~= ts[1].regulator_id + ":"@);
    }
    assert(license_type_id_prefixed(ts[2])) by {
        reveal_strlit("pk-pemra:cable-tv");
        reveal_strlit("pk-pemra");
        reveal_strlit(":");
        assert(ts[2].license_type_id.subrange(0, (ts[2].regulator_id + ":"@).len() as int) =~= ts[2].regulator_id + ":"@);
    }
    assert(prefixed_each(ts)) by {
        reveal_with_fuel(prefixed_each, 4);
    }
    lemma_prefixed_each(ts);
}

/// Each licence-type identifier of `drap_license_types` starts with its regulator's
/// identifier and a colon.
proof fn lemma_drap_license_types_prefixed()
    ensures
        license_type_ids_prefixed(spec_drap_license_types()),
{
    let ts = spec_drap_license_types();
    assert(license_type_id_prefixed(ts[0])) by {
        reveal_strlit("pk-drap:drug-manufacturing");
        reveal_strlit("pk-drap");
        reveal_strlit(":");
        assert(ts[0].license_type_id.subrange(0, (ts[0].regulator_id + ":"@).len() as int) =~= ts[0].regulator_id + ":"@);
    }
    assert(license_type_id_prefixed(ts[1])) by {
        reveal_strlit("pk-drap:drug-import");
        reveal_strlit("pk-drap");
        reveal_strlit(":");
        assert(ts[1].license_type_id.subrange(0, (ts[1].regulator_id + ":"@).len() as int) =~= ts[1].regulator_id + ":"@);
    }
    assert(license_type_id_prefixed(ts[2])) by {
        reveal_strlit("pk-drap:medical-device");
        reveal_strlit("pk-drap");
        reveal_strlit(":");
        assert(ts[2].license_type_id.subrange(0, (ts[2].regulator_id + ":"@).len() as int) =~= ts[2].regulator_id + ":"@);
    }
    assert(prefixed_each(ts)) by {
        reveal_with_fuel(prefixed_each, 4);
    }
    lemma_prefixed_each(ts);
}

/// Every licence-type identifier of the Pakistani catalog starts with the
/// identifier of the regulator that grants it, followed by a colon.
pub proof fn lemma_pakistan_license_types_prefixed()
    ensures
        license_type_ids_prefixed(spec_pakistan_license_types()),
{
    lemma_secp_license_types_prefixed();
    lemma_sbp_license_types_prefixed();
    lemma_pta_license_types_prefixed();
    lemma_pemra_license_types_prefixed();
    lemma_drap_license_types_prefixed();
    lemma_prefixed_append(spec_secp_license_types(), spec_sbp_license_types());
    lemma_prefixed_append(spec_secp_license_types() + spec_sbp_license_types(), spec_pta_license_types());
    lemma_prefixed_append(spec_secp_license_types() + spec_sbp_license_types() + spec_pta_license_types(), spec_pemra_license_types());
    lemma_prefixed_append(spec_secp_license_types() + spec_sbp_license_types() + spec_pta_license_types() + spec_pemra_license_types(), spec_drap_license_types());
    assert(spec_pakistan_license_types() =~= spec_secp_license_types() + spec_sbp_license_types() + spec_pta_license_types() + spec_pemra_license_types() + spec_drap_license_types());
}

} // verus!
