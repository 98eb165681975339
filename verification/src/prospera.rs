//! # Prospera ZEDE (Honduras) Regulatory Authority License Mappings
//!
//! Prospera-specific license type definitions covering the charter city's
//! unique insurance-based regulatory model:
//!
//! | Authority | Full Name | Domain |
//! |-----------|-----------|--------|
//! | **Prospera RC** | Prospera Regulatory Commission | E-Residency, Business Registration, Financial Services, Insurance-Based Regulation |
//! | **Prospera CR** | Prospera Civil Registry | Physical and E-Resident Registration |
//! | **CNBS** | Honduras National Banking Commission | Traditional Banking (parent authority) |
//!
//! ## Insurance-Based Regulatory Model
//!
//! Prospera uses a unique charter city model where, instead of prescriptive
//! regulatory rules, businesses carry **regulatory liability insurance**.
//! This replaces traditional licensing with a market-based compliance
//! mechanism: insurers assess risk and price coverage, creating incentive
//! alignment without prescriptive rule-making.
//!
//! Key features:
//! - Modular financial services licensing (payments, lending, custody, exchange)
//! - Regulatory liability insurance in lieu of traditional prescriptive licensing
//! - E-Residency as a first-class registration category
//! - Arbitration-first dispute resolution
//!
//! Each authority is represented as a [`LicensepackRegulator`] with its
//! associated [`LicenseTypeDefinition`] entries.

use vstd::prelude::*;

use crate::license::{
    license_type, license_type_view, license_types_view, regulator, regulator_view,
    regulators_view, LicenseTypeDefinition, LicenseTypeView, LicensepackRegulator,
    RegulatorView, RequirementValue, RequirementView,
    lemma_license_types_view_append, lemma_regulators_view_append,
};
use crate::table::{before_at, text_before};

use crate::catalog::{
    apart_each, id_fresh_each, ids_distinct_each, lemma_apart_each, lemma_ids_apart_append, lemma_ids_distinct_append, lemma_ids_distinct_each, license_type_ids_apart, license_type_ids_distinct, complete_each, every_regulator_grants, granted_by_each, granted_by_listed_regulators, grants_each, grants_some, in_jurisdiction_each, lemma_complete_append, lemma_complete_each, lemma_every_combine, lemma_granted_by_each, lemma_granted_combine, lemma_grants_each, lemma_in_jurisdiction_append, lemma_in_jurisdiction_each, license_types_complete, regulators_in_jurisdiction,
};

use crate::catalog::{
    lemma_prefixed_append, lemma_prefixed_each, license_type_id_prefixed, license_type_ids_prefixed,
    prefixed_each,
};

verus! {

/// The view of `prospera_rc_regulator`.
pub open spec fn spec_prospera_rc_regulator() -> RegulatorView {
    regulator_view(
        "hn-prospera-rc"@,
        "Prospera Regulatory Commission"@,
        "hn-prospera"@,
        Some("https://www.prospera.hn"@),
        seq!["entity_registry"@, "license_status"@, "e_residency_verification"@],
    )
}

/// Prospera Regulatory Commission regulator profile.
pub fn prospera_rc_regulator() -> (r: LicensepackRegulator)
    ensures
        r@ == spec_prospera_rc_regulator(),
        r@ == regulator_view(
            "hn-prospera-rc"@,
            "Prospera Regulatory Commission"@,
            "hn-prospera"@,
            Some("https://www.prospera.hn"@),
            seq!["entity_registry"@, "license_status"@, "e_residency_verification"@],
        ),
{
    let r =
        regulator(
            "hn-prospera-rc",
            "Prospera Regulatory Commission",
            "hn-prospera",
            Some("https://www.prospera.hn"),
            &["entity_registry", "license_status", "e_residency_verification"],
        );
    proof {
        assert(r@ =~~= spec_prospera_rc_regulator());
    }
    r
}

/// The view of `prospera_rc_license_types`.
pub open spec fn spec_prospera_rc_license_types() -> Seq<LicenseTypeView> {
    seq![
        license_type_view(
            "hn-prospera-rc:e-residency"@,
            "Prospera E-Residency"@,
            "Digital residency registration granting access to Prospera's business and legal framework"@,
            "hn-prospera-rc"@,
            Some("corporate"@),
            seq!["digital_identity"@, "remote_business_formation"@, "digital_contract_execution"@],
            seq![("identity_verification"@, RequirementView::Flag(true)), ("minimum_age"@, RequirementView::Number(18))],
            seq![("USD"@, "130"@)],
            seq![("USD"@, "260"@)],
            Some(1i32),
        ),
        license_type_view(
            "hn-prospera-rc:prospera-llc"@,
            "Prospera LLC Registration"@,
            "Registration of a limited liability company under Prospera's business entity framework"@,
            "hn-prospera-rc"@,
            Some("corporate"@),
            seq!["business_operations"@, "contract_execution"@, "asset_holding"@],
            seq![("e_residency_or_physical_residency"@, RequirementView::Flag(true)), ("registered_agent_required"@, RequirementView::Flag(true))],
            seq![("USD"@, "500"@)],
            seq![("USD"@, "500"@)],
            None,
        ),
        license_type_view(
            "hn-prospera-rc:prospera-corporation"@,
            "Prospera Corporation Registration"@,
            "Registration of a corporation under Prospera's business entity framework"@,
            "hn-prospera-rc"@,
            Some("corporate"@),
            seq!["business_operations"@, "capital_raising"@, "share_issuance"@],
            seq![("e_residency_or_physical_residency"@, RequirementView::Flag(true)), ("minimum_directors"@, RequirementView::Number(1)), ("registered_agent_required"@, RequirementView::Flag(true))],
            seq![("USD"@, "1000"@)],
            seq![("USD"@, "1000"@)],
            None,
        ),
        license_type_view(
            "hn-prospera-rc:regulated-business-insurance"@,
            "Regulated Business Insurance License"@,
            "Insurance-based regulatory license: business carries regulatory liability insurance in lieu of prescriptive licensing"@,
            "hn-prospera-rc"@,
            Some("financial"@),
            seq!["regulated_business_operations"@, "consumer_facing_services"@],
            seq![("approved_insurer_required"@, RequirementView::Flag(true)), ("insurance_coverage_minimum_usd"@, RequirementView::Number(100000)), ("regulatory_liability_insurance_required"@, RequirementView::Flag(true))],
            seq![("USD"@, "250"@)],
            seq![("USD"@, "500"@)],
            Some(1i32),
        ),
        license_type_view(
            "hn-prospera-rc:financial-services-modular"@,
            "Modular Financial Services License"@,
            "Modular financial services license with insurance-based compliance — select from payments, lending, custody, exchange modules"@,
            "hn-prospera-rc"@,
            Some("financial"@),
            seq!["payment_services"@, "lending"@, "digital_asset_custody"@, "digital_asset_exchange"@],
            seq![("aml_cft_program_required"@, RequirementView::Flag(true)), ("approved_insurer_required"@, RequirementView::Flag(true)), ("insurance_coverage_minimum_usd"@, RequirementView::Number(500000)), ("regulatory_liability_insurance_required"@, RequirementView::Flag(true))],
            seq![("USD"@, "2000"@)],
            seq![("USD"@, "5000"@)],
            Some(1i32),
        ),
        license_type_view(
            "hn-prospera-rc:professional-services"@,
            "Professional Services Registration"@,
            "Registration for professional services providers (legal, accounting, consulting) in Prospera"@,
            "hn-prospera-rc"@,
            Some("professional"@),
            seq!["legal_services"@, "accounting_services"@, "consulting_services"@],
            seq![("professional_qualification_verification"@, RequirementView::Flag(true)), ("regulatory_liability_insurance_required"@, RequirementView::Flag(true))],
            seq![("USD"@, "200"@)],
            seq![("USD"@, "400"@)],
            Some(1i32),
        ),
        license_type_view(
            "hn-prospera-rc:arbitration-provider"@,
            "Arbitration Service Provider Registration"@,
            "Registration to provide arbitration and dispute resolution services within Prospera"@,
            "hn-prospera-rc"@,
            Some("professional"@),
            seq!["commercial_arbitration"@, "mediation"@, "dispute_resolution"@],
            seq![("arbitrator_qualification_required"@, RequirementView::Flag(true)), ("regulatory_liability_insurance_required"@, RequirementView::Flag(true))],
            seq![("USD"@, "500"@)],
            seq![("USD"@, "1000"@)],
            Some(1i32),
        ),
        license_type_view(
            "hn-prospera-rc:digital-asset-service-provider"@,
            "Digital Asset Service Provider License"@,
            "License for digital asset services (custody, exchange, issuance) under Prospera's insurance-based framework"@,
            "hn-prospera-rc"@,
            Some("financial"@),
            seq!["digital_asset_custody"@, "digital_asset_exchange"@, "digital_asset_issuance"@, "digital_asset_transfer"@],
            seq![("aml_cft_program_required"@, RequirementView::Flag(true)), ("approved_insurer_required"@, RequirementView::Flag(true)), ("cybersecurity_audit_required"@, RequirementView::Flag(true)), ("insurance_coverage_minimum_usd"@, RequirementView::Number(1000000)), ("regulatory_liability_insurance_required"@, RequirementView::Flag(true))],
            seq![("USD"@, "5000"@)],
            seq![("USD"@, "10000"@)],
            Some(1i32),
        )
    ]
}

/// Prospera Regulatory Commission license type definitions.
pub fn prospera_rc_license_types() -> (r: Vec<LicenseTypeDefinition>)
    ensures
        license_types_view(r@) == spec_prospera_rc_license_types(),
        license_types_view(r@) == seq![
            license_type_view(
                "hn-prospera-rc:e-residency"@,
                "Prospera E-Residency"@,
                "Digital residency registration granting access to Prospera's business and legal framework"@,
                "hn-prospera-rc"@,
                Some("corporate"@),
                seq!["digital_identity"@, "remote_business_formation"@, "digital_contract_execution"@],
                seq![("identity_verification"@, RequirementView::Flag(true)), ("minimum_age"@, RequirementView::Number(18))],
                seq![("USD"@, "130"@)],
                seq![("USD"@, "260"@)],
                Some(1i32),
            ),
            license_type_view(
                "hn-prospera-rc:prospera-llc"@,
                "Prospera LLC Registration"@,
                "Registration of a limited liability company under Prospera's business entity framework"@,
                "hn-prospera-rc"@,
                Some("corporate"@),
                seq!["business_operations"@, "contract_execution"@, "asset_holding"@],
                seq![("e_residency_or_physical_residency"@, RequirementView::Flag(true)), ("registered_agent_required"@, RequirementView::Flag(true))],
                seq![("USD"@, "500"@)],
                seq![("USD"@, "500"@)],
                None,
            ),
            license_type_view(
                "hn-prospera-rc:prospera-corporation"@,
                "Prospera Corporation Registration"@,
                "Registration of a corporation under Prospera's business entity framework"@,
                "hn-prospera-rc"@,
                Some("corporate"@),
                seq!["business_operations"@, "capital_raising"@, "share_issuance"@],
                seq![("e_residency_or_physical_residency"@, RequirementView::Flag(true)), ("minimum_directors"@, RequirementView::Number(1)), ("registered_agent_required"@, RequirementView::Flag(true))],
                seq![("USD"@, "1000"@)],
                seq![("USD"@, "1000"@)],
                None,
            ),
            license_type_view(
                "hn-prospera-rc:regulated-business-insurance"@,
                "Regulated Business Insurance License"@,
                "Insurance-based regulatory license: business carries regulatory liability insurance in lieu of prescriptive licensing"@,
                "hn-prospera-rc"@,
                Some("financial"@),
                seq!["regulated_business_operations"@, "consumer_facing_services"@],
                seq![("approved_insurer_required"@, RequirementView::Flag(true)), ("insurance_coverage_minimum_usd"@, RequirementView::Number(100000)), ("regulatory_liability_insurance_required"@, RequirementView::Flag(true))],
                seq![("USD"@, "250"@)],
                seq![("USD"@, "500"@)],
                Some(1i32),
            ),
            license_type_view(
                "hn-prospera-rc:financial-services-modular"@,
                "Modular Financial Services License"@,
                "Modular financial services license with insurance-based compliance — select from payments, lending, custody, exchange modules"@,
                "hn-prospera-rc"@,
                Some("financial"@),
                seq!["payment_services"@, "lending"@, "digital_asset_custody"@, "digital_asset_exchange"@],
                seq![("aml_cft_program_required"@, RequirementView::Flag(true)), ("approved_insurer_required"@, RequirementView::Flag(true)), ("insurance_coverage_minimum_usd"@, RequirementView::Number(500000)), ("regulatory_liability_insurance_required"@, RequirementView::Flag(true))],
                seq![("USD"@, "2000"@)],
                seq![("USD"@, "5000"@)],
                Some(1i32),
            ),
            license_type_view(
                "hn-prospera-rc:professional-services"@,
                "Professional Services Registration"@,
                "Registration for professional services providers (legal, accounting, consulting) in Prospera"@,
                "hn-prospera-rc"@,
                Some("professional"@),
                seq!["legal_services"@, "accounting_services"@, "consulting_services"@],
                seq![("professional_qualification_verification"@, RequirementView::Flag(true)), ("regulatory_liability_insurance_required"@, RequirementView::Flag(true))],
                seq![("USD"@, "200"@)],
                seq![("USD"@, "400"@)],
                Some(1i32),
            ),
            license_type_view(
                "hn-prospera-rc:arbitration-provider"@,
                "Arbitration Service Provider Registration"@,
                "Registration to provide arbitration and dispute resolution services within Prospera"@,
                "hn-prospera-rc"@,
                Some("professional"@),
                seq!["commercial_arbitration"@, "mediation"@, "dispute_resolution"@],
                seq![("arbitrator_qualification_required"@, RequirementView::Flag(true)), ("regulatory_liability_insurance_required"@, RequirementView::Flag(true))],
                seq![("USD"@, "500"@)],
                seq![("USD"@, "1000"@)],
                Some(1i32),
            ),
            license_type_view(
                "hn-prospera-rc:digital-asset-service-provider"@,
                "Digital Asset Service Provider License"@,
                "License for digital asset services (custody, exchange, issuance) under Prospera's insurance-based framework"@,
                "hn-prospera-rc"@,
                Some("financial"@),
                seq!["digital_asset_custody"@, "digital_asset_exchange"@, "digital_asset_issuance"@, "digital_asset_transfer"@],
                seq![("aml_cft_program_required"@, RequirementView::Flag(true)), ("approved_insurer_required"@, RequirementView::Flag(true)), ("cybersecurity_audit_required"@, RequirementView::Flag(true)), ("insurance_coverage_minimum_usd"@, RequirementView::Number(1000000)), ("regulatory_liability_insurance_required"@, RequirementView::Flag(true))],
                seq![("USD"@, "5000"@)],
                seq![("USD"@, "10000"@)],
                Some(1i32),
            )
        ],
{
    proof {
        assert(text_before("identity_verification"@, "minimum_age"@)) by {
            reveal_strlit("identity_verification");
            reveal_strlit("minimum_age");
            assert(before_at("identity_verification"@, "minimum_age"@, 0));
        }
        assert(text_before("e_residency_or_physical_residency"@, "registered_agent_required"@)) by {
            reveal_strlit("e_residency_or_physical_residency");
            reveal_strlit("registered_agent_required");
            assert(before_at("e_residency_or_physical_residency"@, "registered_agent_required"@, 0));
        }
        assert(text_before("e_residency_or_physical_residency"@, "minimum_directors"@)) by {
            reveal_strlit("e_residency_or_physical_residency");
            reveal_strlit("minimum_directors");
            assert(before_at("e_residency_or_physical_residency"@, "minimum_directors"@, 0));
        }
        assert(text_before("minimum_directors"@, "registered_agent_required"@)) by {
            reveal_strlit("minimum_directors");
            reveal_strlit("registered_agent_required");
            assert(before_at("minimum_directors"@, "registered_agent_required"@, 0));
        }
        assert(text_before("approved_insurer_required"@, "insurance_coverage_minimum_usd"@)) by {
            reveal_strlit("approved_insurer_required");
            reveal_strlit("insurance_coverage_minimum_usd");
            assert(before_at("approved_insurer_required"@, "insurance_coverage_minimum_usd"@, 0));
        }
        assert(text_before("approved_insurer_required"@, "regulatory_liability_insurance_required"@)) by {
            reveal_strlit("approved_insurer_required");
            reveal_strlit("regulatory_liability_insurance_required");
            assert(before_at("approved_insurer_required"@, "regulatory_liability_insurance_required"@, 0));
        }
        assert(text_before("insurance_coverage_minimum_usd"@, "regulatory_liability_insurance_required"@)) by {
            reveal_strlit("insurance_coverage_minimum_usd");
            reveal_strlit("regulatory_liability_insurance_required");
            assert(before_at("insurance_coverage_minimum_usd"@, "regulatory_liability_insurance_required"@, 0));
        }
        assert(text_before("aml_cft_program_required"@, "approved_insurer_required"@)) by {
            reveal_strlit("aml_cft_program_required");
            reveal_strlit("approved_insurer_required");
            assert(before_at("aml_cft_program_required"@, "approved_insurer_required"@, 1));
        }
        assert(text_before("aml_cft_program_required"@, "insurance_coverage_minimum_usd"@)) by {
            reveal_strlit("aml_cft_program_required");
            reveal_strlit("insurance_coverage_minimum_usd");
            assert(before_at("aml_cft_program_required"@, "insurance_coverage_minimum_usd"@, 0));
        }
        assert(text_before("aml_cft_program_required"@, "regulatory_liability_insurance_required"@)) by {
            reveal_strlit("aml_cft_program_required");
            reveal_strlit("regulatory_liability_insurance_required");
            assert(before_at("aml_cft_program_required"@, "regulatory_liability_insurance_required"@, 0));
        }
        assert(text_before("professional_qualification_verification"@, "regulatory_liability_insurance_required"@)) by {
            reveal_strlit("professional_qualification_verification");
            reveal_strlit("regulatory_liability_insurance_required");
            assert(before_at("professional_qualification_verification"@, "regulatory_liability_insurance_required"@, 0));
        }
        assert(text_before("arbitrator_qualification_required"@, "regulatory_liability_insurance_required"@)) by {
            reveal_strlit("arbitrator_qualification_required");
            reveal_strlit("regulatory_liability_insurance_required");
            assert(before_at("arbitrator_qualification_required"@, "regulatory_liability_insurance_required"@, 0));
        }
        assert(text_before("aml_cft_program_required"@, "cybersecurity_audit_required"@)) by {
            reveal_strlit("aml_cft_program_required");
            reveal_strlit("cybersecurity_audit_required");
            assert(before_at("aml_cft_program_required"@, "cybersecurity_audit_required"@, 0));
        }
        assert(text_before("approved_insurer_required"@, "cybersecurity_audit_required"@)) by {
            reveal_strlit("approved_insurer_required");
            reveal_strlit("cybersecurity_audit_required");
            assert(before_at("approved_insurer_required"@, "cybersecurity_audit_required"@, 0));
        }
        assert(text_before("cybersecurity_audit_required"@, "insurance_coverage_minimum_usd"@)) by {
            reveal_strlit("cybersecurity_audit_required");
            reveal_strlit("insurance_coverage_minimum_usd");
            assert(before_at("cybersecurity_audit_required"@, "insurance_coverage_minimum_usd"@, 0));
        }
        assert(text_before("cybersecurity_audit_required"@, "regulatory_liability_insurance_required"@)) by {
            reveal_strlit("cybersecurity_audit_required");
            reveal_strlit("regulatory_liability_insurance_required");
            assert(before_at("cybersecurity_audit_required"@, "regulatory_liability_insurance_required"@, 0));
        }
    }
    let r = vec![
        license_type(
            "hn-prospera-rc:e-residency",
            "Prospera E-Residency",
            "Digital residency registration granting access to Prospera's business and legal framework",
            "hn-prospera-rc",
            Some("corporate"),
            &["digital_identity", "remote_business_formation", "digital_contract_execution"],
            &[("identity_verification", RequirementValue::Flag(true)), ("minimum_age", RequirementValue::Number(18))],
            &[("USD", "130")],
            &[("USD", "260")],
            Some(1i32),
        ),
        license_type(
            "hn-prospera-rc:prospera-llc",
            "Prospera LLC Registration",
            "Registration of a limited liability company under Prospera's business entity framework",
            "hn-prospera-rc",
            Some("corporate"),
            &["business_operations", "contract_execution", "asset_holding"],
            &[("e_residency_or_physical_residency", RequirementValue::Flag(true)), ("registered_agent_required", RequirementValue::Flag(true))],
            &[("USD", "500")],
            &[("USD", "500")],
            None,
        ),
        license_type(
            "hn-prospera-rc:prospera-corporation",
            "Prospera Corporation Registration",
            "Registration of a corporation under Prospera's business entity framework",
            "hn-prospera-rc",
            Some("corporate"),
            &["business_operations", "capital_raising", "share_issuance"],
            &[("e_residency_or_physical_residency", RequirementValue::Flag(true)), ("minimum_directors", RequirementValue::Number(1)), ("registered_agent_required", RequirementValue::Flag(true))],
            &[("USD", "1000")],
            &[("USD", "1000")],
            None,
        ),
        license_type(
            "hn-prospera-rc:regulated-business-insurance",
            "Regulated Business Insurance License",
            "Insurance-based regulatory license: business carries regulatory liability insurance in lieu of prescriptive licensing",
            "hn-prospera-rc",
            Some("financial"),
            &["regulated_business_operations", "consumer_facing_services"],
            &[("approved_insurer_required", RequirementValue::Flag(true)), ("insurance_coverage_minimum_usd", RequirementValue::Number(100000)), ("regulatory_liability_insurance_required", RequirementValue::Flag(true))],
            &[("USD", "250")],
            &[("USD", "500")],
            Some(1i32),
        ),
        license_type(
            "hn-prospera-rc:financial-services-modular",
            "Modular Financial Services License",
            "Modular financial services license with insurance-based compliance — select from payments, lending, custody, exchange modules",
            "hn-prospera-rc",
            Some("financial"),
            &["payment_services", "lending", "digital_asset_custody", "digital_asset_exchange"],
            &[("aml_cft_program_required", RequirementValue::Flag(true)), ("approved_insurer_required", RequirementValue::Flag(true)), ("insurance_coverage_minimum_usd", RequirementValue::Number(500000)), ("regulatory_liability_insurance_required", RequirementValue::Flag(true))],
            &[("USD", "2000")],
            &[("USD", "5000")],
            Some(1i32),
        ),
        license_type(
            "hn-prospera-rc:professional-services",
            "Professional Services Registration",
            "Registration for professional services providers (legal, accounting, consulting) in Prospera",
            "hn-prospera-rc",
            Some("professional"),
            &["legal_services", "accounting_services", "consulting_services"],
            &[("professional_qualification_verification", RequirementValue::Flag(true)), ("regulatory_liability_insurance_required", RequirementValue::Flag(true))],
            &[("USD", "200")],
            &[("USD", "400")],
            Some(1i32),
        ),
        license_type(
            "hn-prospera-rc:arbitration-provider",
            "Arbitration Service Provider Registration",
            "Registration to provide arbitration and dispute resolution services within Prospera",
            "hn-prospera-rc",
            Some("professional"),
            &["commercial_arbitration", "mediation", "dispute_resolution"],
            &[("arbitrator_qualification_required", RequirementValue::Flag(true)), ("regulatory_liability_insurance_required", RequirementValue::Flag(true))],
            &[("USD", "500")],
            &[("USD", "1000")],
            Some(1i32),
        ),
        license_type(
            "hn-prospera-rc:digital-asset-service-provider",
            "Digital Asset Service Provider License",
            "License for digital asset services (custody, exchange, issuance) under Prospera's insurance-based framework",
            "hn-prospera-rc",
            Some("financial"),
            &["digital_asset_custody", "digital_asset_exchange", "digital_asset_issuance", "digital_asset_transfer"],
            &[("aml_cft_program_required", RequirementValue::Flag(true)), ("approved_insurer_required", RequirementValue::Flag(true)), ("cybersecurity_audit_required", RequirementValue::Flag(true)), ("insurance_coverage_minimum_usd", RequirementValue::Number(1000000)), ("regulatory_liability_insurance_required", RequirementValue::Flag(true))],
            &[("USD", "5000")],
            &[("USD", "10000")],
            Some(1i32),
        )
    ];
    proof {
        assert(license_types_view(r@) =~~= spec_prospera_rc_license_types());
    }
    r
}

/// The view of `prospera_cr_regulator`.
pub open spec fn spec_prospera_cr_regulator() -> RegulatorView {
    regulator_view(
        "hn-prospera-cr"@,
        "Prospera Civil Registry"@,
        "hn-prospera"@,
        Some("https://www.prospera.hn/registry"@),
        seq!["resident_verification"@],
    )
}

/// Prospera Civil Registry regulator profile.
pub fn prospera_cr_regulator() -> (r: LicensepackRegulator)
    ensures
        r@ == spec_prospera_cr_regulator(),
        r@ == regulator_view(
            "hn-prospera-cr"@,
            "Prospera Civil Registry"@,
            "hn-prospera"@,
            Some("https://www.prospera.hn/registry"@),
            seq!["resident_verification"@],
        ),
{
    let r =
        regulator(
            "hn-prospera-cr",
            "Prospera Civil Registry",
            "hn-prospera",
            Some("https://www.prospera.hn/registry"),
            &["resident_verification"],
        );
    proof {
        assert(r@ =~~= spec_prospera_cr_regulator());
    }
    r
}

/// The view of `prospera_cr_license_types`.
pub open spec fn spec_prospera_cr_license_types() -> Seq<LicenseTypeView> {
    seq![
        license_type_view(
            "hn-prospera-cr:physical-resident"@,
            "Physical Resident Registration"@,
            "Registration as a physical resident of Prospera ZEDE"@,
            "hn-prospera-cr"@,
            Some("corporate"@),
            seq!["physical_residency"@, "local_business_formation"@, "property_ownership"@],
            seq![("background_check"@, RequirementView::Flag(true)), ("identity_verification"@, RequirementView::Flag(true))],
            seq![("USD"@, "260"@)],
            seq![],
            None,
        ),
        license_type_view(
            "hn-prospera-cr:e-resident"@,
            "E-Resident Registration"@,
            "Registration as an e-resident of Prospera for digital access to the jurisdiction"@,
            "hn-prospera-cr"@,
            Some("corporate"@),
            seq!["digital_residency"@, "remote_business_access"@, "digital_contract_execution"@],
            seq![("identity_verification"@, RequirementView::Flag(true))],
            seq![("USD"@, "130"@)],
            seq![("USD"@, "260"@)],
            Some(1i32),
        )
    ]
}

/// Prospera Civil Registry license type definitions.
pub fn prospera_cr_license_types() -> (r: Vec<LicenseTypeDefinition>)
    ensures
        license_types_view(r@) == spec_prospera_cr_license_types(),
        license_types_view(r@) == seq![
            license_type_view(
                "hn-prospera-cr:physical-resident"@,
                "Physical Resident Registration"@,
                "Registration as a physical resident of Prospera ZEDE"@,
                "hn-prospera-cr"@,
                Some("corporate"@),
                seq!["physical_residency"@, "local_business_formation"@, "property_ownership"@],
                seq![("background_check"@, RequirementView::Flag(true)), ("identity_verification"@, RequirementView::Flag(true))],
                seq![("USD"@, "260"@)],
                seq![],
                None,
            ),
            license_type_view(
                "hn-prospera-cr:e-resident"@,
                "E-Resident Registration"@,
                "Registration as an e-resident of Prospera for digital access to the jurisdiction"@,
                "hn-prospera-cr"@,
                Some("corporate"@),
                seq!["digital_residency"@, "remote_business_access"@, "digital_contract_execution"@],
                seq![("identity_verification"@, RequirementView::Flag(true))],
                seq![("USD"@, "130"@)],
                seq![("USD"@, "260"@)],
                Some(1i32),
            )
        ],
{
    proof {
        assert(text_before("background_check"@, "identity_verification"@)) by {
            reveal_strlit("background_check");
            reveal_strlit("identity_verification");
            assert(before_at("background_check"@, "identity_verification"@, 0));
        }
    }
    let r = vec![
        license_type(
            "hn-prospera-cr:physical-resident",
            "Physical Resident Registration",
            "Registration as a physical resident of Prospera ZEDE",
            "hn-prospera-cr",
            Some("corporate"),
            &["physical_residency", "local_business_formation", "property_ownership"],
            &[("background_check", RequirementValue::Flag(true)), ("identity_verification", RequirementValue::Flag(true))],
            &[("USD", "260")],
            &[],
            None,
        ),
        license_type(
            "hn-prospera-cr:e-resident",
            "E-Resident Registration",
            "Registration as an e-resident of Prospera for digital access to the jurisdiction",
            "hn-prospera-cr",
            Some("corporate"),
            &["digital_residency", "remote_business_access", "digital_contract_execution"],
            &[("identity_verification", RequirementValue::Flag(true))],
            &[("USD", "130")],
            &[("USD", "260")],
            Some(1i32),
        )
    ];
    proof {
        assert(license_types_view(r@) =~~= spec_prospera_cr_license_types());
    }
    r
}

/// The view of `cnbs_regulator`.
pub open spec fn spec_cnbs_regulator() -> RegulatorView {
    regulator_view(
        "hn-cnbs"@,
        "Honduras National Banking and Insurance Commission"@,
        "hn-prospera"@,
        Some("https://www.cnbs.gob.hn"@),
        seq!["bank_registry"@],
    )
}

/// CNBS (Comision Nacional de Bancos y Seguros) regulator profile.
pub fn cnbs_regulator() -> (r: LicensepackRegulator)
    ensures
        r@ == spec_cnbs_regulator(),
        r@ == regulator_view(
            "hn-cnbs"@,
            "Honduras National Banking and Insurance Commission"@,
            "hn-prospera"@,
            Some("https://www.cnbs.gob.hn"@),
            seq!["bank_registry"@],
        ),
{
    let r =
        regulator(
            "hn-cnbs",
            "Honduras National Banking and Insurance Commission",
            "hn-prospera",
            Some("https://www.cnbs.gob.hn"),
            &["bank_registry"],
        );
    proof {
        assert(r@ =~~= spec_cnbs_regulator());
    }
    r
}

/// The view of `cnbs_license_types`.
pub open spec fn spec_cnbs_license_types() -> Seq<LicenseTypeView> {
    seq![
        license_type_view(
            "hn-cnbs:banking-license"@,
            "Honduras Banking License"@,
            "Traditional banking license issued by CNBS for banks operating within Prospera ZEDE"@,
            "hn-cnbs"@,
            Some("financial"@),
            seq!["deposit_taking"@, "lending"@, "trade_finance"@, "foreign_exchange"@],
            seq![],
            seq![],
            seq![],
            None,
        )
    ]
}

/// CNBS license type definitions (for traditional banking operating in Prospera).
pub fn cnbs_license_types() -> (r: Vec<LicenseTypeDefinition>)
    ensures
        license_types_view(r@) == spec_cnbs_license_types(),
        license_types_view(r@) == seq![
            license_type_view(
                "hn-cnbs:banking-license"@,
                "Honduras Banking License"@,
                "Traditional banking license issued by CNBS for banks operating within Prospera ZEDE"@,
                "hn-cnbs"@,
                Some("financial"@),
                seq!["deposit_taking"@, "lending"@, "trade_finance"@, "foreign_exchange"@],
                seq![],
                seq![],
                seq![],
                None,
            )
        ],
{
    let r = vec![
        license_type(
            "hn-cnbs:banking-license",
            "Honduras Banking License",
            "Traditional banking license issued by CNBS for banks operating within Prospera ZEDE",
            "hn-cnbs",
            Some("financial"),
            &["deposit_taking", "lending", "trade_finance", "foreign_exchange"],
            &[],
            &[],
            &[],
            None,
        )
    ];
    proof {
        assert(license_types_view(r@) =~~= spec_cnbs_license_types());
    }
    r
}

/// The view of `prospera_regulators`.
pub open spec fn spec_prospera_regulators() -> Seq<RegulatorView> {
    seq![spec_prospera_rc_regulator(), spec_prospera_cr_regulator(), spec_cnbs_regulator()]
}

/// All Prospera ZEDE regulatory authorities.
pub fn prospera_regulators() -> (r: Vec<LicensepackRegulator>)
    ensures
        regulators_view(r@) == spec_prospera_regulators(),
        regulators_view(r@) == seq![spec_prospera_rc_regulator(), spec_prospera_cr_regulator(), spec_cnbs_regulator()],
{
    let r = vec![prospera_rc_regulator(), prospera_cr_regulator(), cnbs_regulator()];
    proof {
        assert(regulators_view(r@) =~~= spec_prospera_regulators());
    }
    r
}

/// The view of `prospera_license_types`.
pub open spec fn spec_prospera_license_types() -> Seq<LicenseTypeView> {
    spec_prospera_rc_license_types()
        + spec_prospera_cr_license_types()
        + spec_cnbs_license_types()
}

/// All Prospera ZEDE license type definitions across all authorities.
pub fn prospera_license_types() -> (r: Vec<LicenseTypeDefinition>)
    ensures
        license_types_view(r@) == spec_prospera_license_types(),
        license_types_view(r@) == spec_prospera_rc_license_types()
            + spec_prospera_cr_license_types()
            + spec_cnbs_license_types(),
{
    let mut all: Vec<LicenseTypeDefinition> = Vec::new();
    proof {
        assert(license_types_view(all@) =~= Seq::<LicenseTypeView>::empty());
    }
    let ghost before = all@;
    let mut part = prospera_rc_license_types();
    let ghost added = part@;
    all.append(&mut part);
    proof {
        lemma_license_types_view_append(before, added);
        assert(license_types_view(all@) =~= spec_prospera_rc_license_types());
    }
    let ghost before = all@;
    let mut part = prospera_cr_license_types();
    let ghost added = part@;
    all.append(&mut part);
    proof {
        lemma_license_types_view_append(before, added);
        assert(license_types_view(all@) =~= spec_prospera_rc_license_types() + spec_prospera_cr_license_types());
    }
    let ghost before = all@;
    let mut part = cnbs_license_types();
    let ghost added = part@;
    all.append(&mut part);
    proof {
        lemma_license_types_view_append(before, added);
        assert(license_types_view(all@) =~= spec_prospera_rc_license_types() + spec_prospera_cr_license_types() + spec_cnbs_license_types());
    }
    all
}

/// The licence types of `prospera_rc_license_types` are complete, granted by its regulators, and
/// each of its regulators grants at least one of them.
proof fn lemma_prospera_rc_group()
    ensures
        license_types_complete(spec_prospera_rc_license_types()),
        granted_by_listed_regulators(spec_prospera_rc_license_types(), seq![spec_prospera_rc_regulator()]),
        every_regulator_grants(spec_prospera_rc_license_types(), seq![spec_prospera_rc_regulator()]),
        regulators_in_jurisdiction(seq![spec_prospera_rc_regulator()], "hn-prospera"@),
{
    assert(complete_each(spec_prospera_rc_license_types())) by {
        reveal_strlit("hn-prospera-rc:e-residency");
        reveal_strlit("Prospera E-Residency");
        reveal_strlit("Digital residency registration granting access to Prospera's business and legal framework");
        reveal_strlit("hn-prospera-rc");
        reveal_strlit("hn-prospera-rc:prospera-llc");
        reveal_strlit("Prospera LLC Registration");
        reveal_strlit("Registration of a limited liability company under Prospera's business entity framework");
        reveal_strlit("hn-prospera-rc:prospera-corporation");
        reveal_strlit("Prospera Corporation Registration");
        reveal_strlit("Registration of a corporation under Prospera's business entity framework");
        reveal_strlit("hn-prospera-rc:regulated-business-insurance");
        reveal_strlit("Regulated Business Insurance License");
        reveal_strlit("Insurance-based regulatory license: business carries regulatory liability insurance in lieu of prescriptive licensing");
        reveal_strlit("hn-prospera-rc:financial-services-modular");
        reveal_strlit("Modular Financial Services License");
        reveal_strlit("Modular financial services license with insurance-based compliance — select from payments, lending, custody, exchange modules");
        reveal_strlit("hn-prospera-rc:professional-services");
        reveal_strlit("Professional Services Registration");
        reveal_strlit("Registration for professional services providers (legal, accounting, consulting) in Prospera");
        reveal_strlit("hn-prospera-rc:arbitration-provider");
        reveal_strlit("Arbitration Service Provider Registration");
        reveal_strlit("Registration to provide arbitration and dispute resolution services within Prospera");
        reveal_strlit("hn-prospera-rc:digital-asset-service-provider");
        reveal_strlit("Digital Asset Service Provider License");
        reveal_strlit("License for digital asset services (custody, exchange, issuance) under Prospera's insurance-based framework");
        reveal_with_fuel(complete_each, 9);
    }
    lemma_complete_each(spec_prospera_rc_license_types());
    assert(granted_by_each(spec_prospera_rc_license_types(), seq![spec_prospera_rc_regulator()][0].regulator_id)) by {
        reveal_with_fuel(granted_by_each, 9);
    }
    lemma_granted_by_each(spec_prospera_rc_license_types(), seq![spec_prospera_rc_regulator()], 0);
    assert(grants_some(spec_prospera_rc_license_types(), seq![spec_prospera_rc_regulator()][0].regulator_id)) by {
        assert(spec_prospera_rc_license_types()[0].regulator_id == seq![spec_prospera_rc_regulator()][0].regulator_id);
    }
    assert(grants_each(spec_prospera_rc_license_types(), seq![spec_prospera_rc_regulator()])) by {
        reveal_with_fuel(grants_each, 2);
    }
    lemma_grants_each(spec_prospera_rc_license_types(), seq![spec_prospera_rc_regulator()]);
    assert(in_jurisdiction_each(seq![spec_prospera_rc_regulator()], "hn-prospera"@)) by {
        reveal_with_fuel(in_jurisdiction_each, 2);
    }
    lemma_in_jurisdiction_each(seq![spec_prospera_rc_regulator()], "hn-prospera"@);
}

/// The licence types of `prospera_cr_license_types` are complete, granted by its regulators, and
/// each of its regulators grants at least one of them.
proof fn lemma_prospera_cr_group()
    ensures
        license_types_complete(spec_prospera_cr_license_types()),
        granted_by_listed_regulators(spec_prospera_cr_license_types(), seq![spec_prospera_cr_regulator()]),
        every_regulator_grants(spec_prospera_cr_license_types(), seq![spec_prospera_cr_regulator()]),
        regulators_in_jurisdiction(seq![spec_prospera_cr_regulator()], "hn-prospera"@),
{
    assert(complete_each(spec_prospera_cr_license_types())) by {
        reveal_strlit("hn-prospera-cr:physical-resident");
        reveal_strlit("Physical Resident Registration");
        reveal_strlit("Registration as a physical resident of Prospera ZEDE");
        reveal_strlit("hn-prospera-cr");
        reveal_strlit("hn-prospera-cr:e-resident");
        reveal_strlit("E-Resident Registration");
        reveal_strlit("Registration as an e-resident of Prospera for digital access to the jurisdiction");
        reveal_with_fuel(complete_each, 3);
    }
    lemma_complete_each(spec_prospera_cr_license_types());
    assert(granted_by_each(spec_prospera_cr_license_types(), seq![spec_prospera_cr_regulator()][0].regulator_id)) by {
        reveal_with_fuel(granted_by_each, 3);
    }
    lemma_granted_by_each(spec_prospera_cr_license_types(), seq![spec_prospera_cr_regulator()], 0);
    assert(grants_some(spec_prospera_cr_license_types(), seq![spec_prospera_cr_regulator()][0].regulator_id)) by {
        assert(spec_prospera_cr_license_types()[0].regulator_id == seq![spec_prospera_cr_regulator()][0].regulator_id);
    }
    assert(grants_each(spec_prospera_cr_license_types(), seq![spec_prospera_cr_regulator()])) by {
        reveal_with_fuel(grants_each, 2);
    }
    lemma_grants_each(spec_prospera_cr_license_types(), seq![spec_prospera_cr_regulator()]);
    assert(in_jurisdiction_each(seq![spec_prospera_cr_regulator()], "hn-prospera"@)) by {
        reveal_with_fuel(in_jurisdiction_each, 2);
    }
    lemma_in_jurisdiction_each(seq![spec_prospera_cr_regulator()], "hn-prospera"@);
}

/// The licence types of `cnbs_license_types` are complete, granted by its regulators, and
/// each of its regulators grants at least one of them.
proof fn lemma_cnbs_group()
    ensures
        license_types_complete(spec_cnbs_license_types()),
        granted_by_listed_regulators(spec_cnbs_license_types(), seq![spec_cnbs_regulator()]),
        every_regulator_grants(spec_cnbs_license_types(), seq![spec_cnbs_regulator()]),
        regulators_in_jurisdiction(seq![spec_cnbs_regulator()], "hn-prospera"@),
{
    assert(complete_each(spec_cnbs_license_types())) by {
        reveal_strlit("hn-cnbs:banking-license");
        reveal_strlit("Honduras Banking License");
        reveal_strlit("Traditional banking license issued by CNBS for banks operating within Prospera ZEDE");
        reveal_strlit("hn-cnbs");
        reveal_with_fuel(complete_each, 2);
    }
    lemma_complete_each(spec_cnbs_license_types());
    assert(granted_by_each(spec_cnbs_license_types(), seq![spec_cnbs_regulator()][0].regulator_id)) by {
        reveal_with_fuel(granted_by_each, 2);
    }
    lemma_granted_by_each(spec_cnbs_license_types(), seq![spec_cnbs_regulator()], 0);
    assert(grants_some(spec_cnbs_license_types(), seq![spec_cnbs_regulator()][0].regulator_id)) by {
        assert(spec_cnbs_license_types()[0].regulator_id == seq![spec_cnbs_regulator()][0].regulator_id);
    }
    assert(grants_each(spec_cnbs_license_types(), seq![spec_cnbs_regulator()])) by {
        reveal_with_fuel(grants_each, 2);
    }
    lemma_grants_each(spec_cnbs_license_types(), seq![spec_cnbs_regulator()]);
    assert(in_jurisdiction_each(seq![spec_cnbs_regulator()], "hn-prospera"@)) by {
        reveal_with_fuel(in_jurisdiction_each, 2);
    }
    lemma_in_jurisdiction_each(seq![spec_cnbs_regulator()], "hn-prospera"@);
}

/// The catalog of Prospera is consistent: every licence type has a non-empty identifier, name, description and
/// regulator identifier, a category, and at least one permitted activity;
/// every licence type is granted by one of its regulators;
/// every regulator grants at least one licence type;
/// every regulator belongs to jurisdiction `hn-prospera`.
pub proof fn lemma_prospera_catalog_consistent()
    ensures
        license_types_complete(spec_prospera_license_types()),
        granted_by_listed_regulators(spec_prospera_license_types(), spec_prospera_regulators()),
        every_regulator_grants(spec_prospera_license_types(), spec_prospera_regulators()),
        regulators_in_jurisdiction(spec_prospera_regulators(), "hn-prospera"@),
{
    lemma_prospera_rc_group();
    lemma_prospera_cr_group();
    lemma_cnbs_group();
    assert(spec_prospera_regulators() =~= seq![spec_prospera_rc_regulator()] + seq![spec_prospera_cr_regulator()] + seq![spec_cnbs_regulator()]);
    assert(spec_prospera_license_types() =~= spec_prospera_rc_license_types() + spec_prospera_cr_license_types() + spec_cnbs_license_types());
    lemma_complete_append(spec_prospera_rc_license_types(), spec_prospera_cr_license_types());
    lemma_granted_combine(spec_prospera_rc_license_types(), seq![spec_prospera_rc_regulator()], spec_prospera_cr_license_types(), seq![spec_prospera_cr_regulator()]);
    lemma_every_combine(spec_prospera_rc_license_types(), seq![spec_prospera_rc_regulator()], spec_prospera_cr_license_types(), seq![spec_prospera_cr_regulator()]);
    lemma_in_jurisdiction_append(seq![spec_prospera_rc_regulator()], seq![spec_prospera_cr_regulator()], "hn-prospera"@);
    lemma_complete_append(spec_prospera_rc_license_types() + spec_prospera_cr_license_types(), spec_cnbs_license_types());
    lemma_granted_combine(spec_prospera_rc_license_types() + spec_prospera_cr_license_types(), seq![spec_prospera_rc_regulator()] + seq![spec_prospera_cr_regulator()], spec_cnbs_license_types(), seq![spec_cnbs_regulator()]);
    lemma_every_combine(spec_prospera_rc_license_types() + spec_prospera_cr_license_types(), seq![spec_prospera_rc_regulator()] + seq![spec_prospera_cr_regulator()], spec_cnbs_license_types(), seq![spec_cnbs_regulator()]);
    lemma_in_jurisdiction_append(seq![spec_prospera_rc_regulator()] + seq![spec_prospera_cr_regulator()], seq![spec_cnbs_regulator()], "hn-prospera"@);
}

/// No two licence types of `prospera_rc_license_types` share an identifier.
proof fn lemma_prospera_rc_license_types_ids_distinct()
    ensures
        license_type_ids_distinct(spec_prospera_rc_license_types()),
{
    let t = spec_prospera_rc_license_types();
    assert(ids_distinct_each(t)) by {
        reveal_strlit("hn-prospera-rc:arbitration-provider");
        reveal_strlit("hn-prospera-rc:digital-asset-service-provider");
        reveal_strlit("hn-prospera-rc:e-residency");
        reveal_strlit("hn-prospera-rc:financial-services-modular");
        reveal_strlit("hn-prospera-rc:professional-services");
        reveal_strlit("hn-prospera-rc:prospera-corporation");
        reveal_strlit("hn-prospera-rc:prospera-llc");
        reveal_strlit("hn-prospera-rc:regulated-business-insurance");
        assert(t[0].license_type_id[15] != t[1].license_type_id[15]);
        assert(t[0].license_type_id[15] != t[2].license_type_id[15]);
        assert(t[1].license_type_id[24] != t[2].license_type_id[24]);
        assert(t[0].license_type_id[15] != t[3].license_type_id[15]);
        assert(t[1].license_type_id[15] != t[3].license_type_id[15]);
        assert(t[2].license_type_id[15] != t[3].license_type_id[15]);
        assert(t[0].license_type_id[15] != t[4].license_type_id[15]);
        assert(t[1].license_type_id[15] != t[4].license_type_id[15]);
        assert(t[2].license_type_id[15] != t[4].license_type_id[15]);
        assert(t[3].license_type_id[15] != t[4].license_type_id[15]);
        assert(t[0].license_type_id[15] != t[5].license_type_id[15]);
        assert(t[1].license_type_id[18] != t[5].license_type_id[18]);
        assert(t[2].license_type_id[18] != t[5].license_type_id[18]);
        assert(t[3].license_type_id[15] != t[5].license_type_id[15]);
        assert(t[4].license_type_id[15] != t[5].license_type_id[15]);
        assert(t[0].license_type_id[15] != t[6].license_type_id[15]);
        assert(t[1].license_type_id[15] != t[6].license_type_id[15]);
        assert(t[2].license_type_id[15] != t[6].license_type_id[15]);
        assert(t[3].license_type_id[15] != t[6].license_type_id[15]);
        assert(t[4].license_type_id[15] != t[6].license_type_id[15]);
        assert(t[5].license_type_id[15] != t[6].license_type_id[15]);
        assert(t[0].license_type_id[15] != t[7].license_type_id[15]);
        assert(t[1].license_type_id[15] != t[7].license_type_id[15]);
        assert(t[2].license_type_id[15] != t[7].license_type_id[15]);
        assert(t[3].license_type_id[15] != t[7].license_type_id[15]);
        assert(t[4].license_type_id[15] != t[7].license_type_id[15]);
        assert(t[5].license_type_id[15] != t[7].license_type_id[15]);
        assert(t[6].license_type_id[15] != t[7].license_type_id[15]);
        reveal_with_fuel(ids_distinct_each, 9);
        reveal_with_fuel(id_fresh_each, 9);
    }
    lemma_ids_distinct_each(t);
}

/// No two licence types of `prospera_cr_license_types` share an identifier.
proof fn lemma_prospera_cr_license_types_ids_distinct()
    ensures
        license_type_ids_distinct(spec_prospera_cr_license_types()),
{
    let t = spec_prospera_cr_license_types();
    assert(ids_distinct_each(t)) by {
        reveal_strlit("hn-prospera-cr:e-resident");
        reveal_strlit("hn-prospera-cr:physical-resident");
        assert(t[0].license_type_id[15] != t[1].license_type_id[15]);
        reveal_with_fuel(ids_distinct_each, 3);
        reveal_with_fuel(id_fresh_each, 3);
    }
    lemma_ids_distinct_each(t);
}

/// No two licence types of `cnbs_license_types` share an identifier.
proof fn lemma_cnbs_license_types_ids_distinct()
    ensures
        license_type_ids_distinct(spec_cnbs_license_types()),
{
    let t = spec_cnbs_license_types();
    assert(ids_distinct_each(t)) by {
        reveal_strlit("hn-cnbs:banking-license");
        reveal_with_fuel(ids_distinct_each, 2);
        reveal_with_fuel(id_fresh_each, 2);
    }
    lemma_ids_distinct_each(t);
}

/// No licence type of `prospera_rc_license_types` shares an identifier with one of `prospera_cr_license_types`.
proof fn lemma_prospera_rc_license_types_apart_from_prospera_cr_license_types()
    ensures
        license_type_ids_apart(spec_prospera_rc_license_types(), spec_prospera_cr_license_types()),
{
    let a = spec_prospera_rc_license_types();
    let b = spec_prospera_cr_license_types();
    assert(apart_each(a, b)) by {
        reveal_strlit("hn-prospera-cr:e-resident");
        reveal_strlit("hn-prospera-cr:physical-resident");
        reveal_strlit("hn-prospera-rc:arbitration-provider");
        reveal_strlit("hn-prospera-rc:digital-asset-service-provider");
        reveal_strlit("hn-prospera-rc:e-residency");
        reveal_strlit("hn-prospera-rc:financial-services-modular");
        reveal_strlit("hn-prospera-rc:professional-services");
        reveal_strlit("hn-prospera-rc:prospera-corporation");
        reveal_strlit("hn-prospera-rc:prospera-llc");
        reveal_strlit("hn-prospera-rc:regulated-business-insurance");
        assert(a[0].license_type_id[12] != b[0].license_type_id[12]);
        assert(a[0].license_type_id[12] != b[1].license_type_id[12]);
        assert(a[1].license_type_id[12] != b[0].license_type_id[12]);
        assert(a[1].license_type_id[12] != b[1].license_type_id[12]);
        assert(a[2].license_type_id[12] != b[0].license_type_id[12]);
        assert(a[2].license_type_id[12] != b[1].license_type_id[12]);
        assert(a[3].license_type_id[12] != b[0].license_type_id[12]);
        assert(a[3].license_type_id[12] != b[1].license_type_id[12]);
        assert(a[4].license_type_id[12] != b[0].license_type_id[12]);
        assert(a[4].license_type_id[12] != b[1].license_type_id[12]);
        assert(a[5].license_type_id[12] != b[0].license_type_id[12]);
        assert(a[5].license_type_id[12] != b[1].license_type_id[12]);
        assert(a[6].license_type_id[12] != b[0].license_type_id[12]);
        assert(a[6].license_type_id[12] != b[1].license_type_id[12]);
        assert(a[7].license_type_id[12] != b[0].license_type_id[12]);
        assert(a[7].license_type_id[12] != b[1].license_type_id[12]);
        reveal_with_fuel(apart_each, 9);
        reveal_with_fuel(id_fresh_each, 3);
    }
    lemma_apart_each(a, b);
}

/// No licence type of `prospera_rc_license_types` shares an identifier with one of `cnbs_license_types`.
proof fn lemma_prospera_rc_license_types_apart_from_cnbs_license_types()
    ensures
        license_type_ids_apart(spec_prospera_rc_license_types(), spec_cnbs_license_types()),
{
    let a = spec_prospera_rc_license_types();
    let b = spec_cnbs_license_types();
    assert(apart_each(a, b)) by {
        reveal_strlit("hn-cnbs:banking-license");
        reveal_strlit("hn-prospera-rc:arbitration-provider");
        reveal_strlit("hn-prospera-rc:digital-asset-service-provider");
        reveal_strlit("hn-prospera-rc:e-residency");
        reveal_strlit("hn-prospera-rc:financial-services-modular");
        reveal_strlit("hn-prospera-rc:professional-services");
        reveal_strlit("hn-prospera-rc:prospera-corporation");
        reveal_strlit("hn-prospera-rc:prospera-llc");
        reveal_strlit("hn-prospera-rc:regulated-business-insurance");
        assert(a[0].license_type_id[3] != b[0].license_type_id[3]);
        assert(a[1].license_type_id[3] != b[0].license_type_id[3]);
        assert(a[2].license_type_id[3] != b[0].license_type_id[3]);
        assert(a[3].license_type_id[3] != b[0].license_type_id[3]);
        assert(a[4].license_type_id[3] != b[0].license_type_id[3]);
        assert(a[5].license_type_id[3] != b[0].license_type_id[3]);
        assert(a[6].license_type_id[3] != b[0].license_type_id[3]);
        assert(a[7].license_type_id[3] != b[0].license_type_id[3]);
        reveal_with_fuel(apart_each, 9);
        reveal_with_fuel(id_fresh_each, 2);
    }
    lemma_apart_each(a, b);
}

/// No licence type of `prospera_cr_license_types` shares an identifier with one of `cnbs_license_types`.
proof fn lemma_prospera_cr_license_types_apart_from_cnbs_license_types()
    ensures
        license_type_ids_apart(spec_prospera_cr_license_types(), spec_cnbs_license_types()),
{
    let a = spec_prospera_cr_license_types();
    let b = spec_cnbs_license_types();
    assert(apart_each(a, b)) by {
        reveal_strlit("hn-cnbs:banking-license");
        reveal_strlit("hn-prospera-cr:e-resident");
        reveal_strlit("hn-prospera-cr:physical-resident");
        assert(a[0].license_type_id[3] != b[0].license_type_id[3]);
        assert(a[1].license_type_id[3] != b[0].license_type_id[3]);
        reveal_with_fuel(apart_each, 3);
        reveal_with_fuel(id_fresh_each, 2);
    }
    lemma_apart_each(a, b);
}

/// No two licence types of `prospera_license_types` share an identifier.
pub proof fn lemma_prospera_license_type_ids_distinct()
    ensures
        license_type_ids_distinct(spec_prospera_license_types()),
{
    lemma_prospera_rc_license_types_ids_distinct();
    lemma_prospera_cr_license_types_ids_distinct();
    lemma_cnbs_license_types_ids_distinct();
    assert(spec_prospera_license_types() =~= spec_prospera_rc_license_types() + spec_prospera_cr_license_types() + spec_cnbs_license_types());
    let acc = spec_prospera_rc_license_types();
    lemma_prospera_rc_license_types_apart_from_prospera_cr_license_types();
    let part = spec_prospera_rc_license_types();
    lemma_ids_distinct_append(acc, spec_prospera_cr_license_types());
    let acc = acc + spec_prospera_cr_license_types();
    lemma_prospera_rc_license_types_apart_from_cnbs_license_types();
    lemma_prospera_cr_license_types_apart_from_cnbs_license_types();
    let part = spec_prospera_rc_license_types();
    lemma_ids_apart_append(part, spec_prospera_cr_license_types(), spec_cnbs_license_types());
    let part = part + spec_prospera_cr_license_types();
    lemma_ids_distinct_append(acc, spec_cnbs_license_types());
    let acc = acc + spec_cnbs_license_types();
    assert(spec_prospera_license_types() == acc);
}

/// Each licence-type identifier of `prospera_rc_license_types` starts with its regulator's
/// identifier and a colon.
proof fn lemma_prospera_rc_license_types_prefixed()
    ensures
        license_type_ids_prefixed(spec_prospera_rc_license_types()),
{
    let ts = spec_prospera_rc_license_types();
    assert(license_type_id_prefixed(ts[0])) by {
        reveal_strlit("hn-prospera-rc:e-residency");
        reveal_strlit("hn-prospera-rc");
        reveal_strlit(":");
        assert(ts[0].license_type_id.subrange(0, (ts[0].regulator_id + ":"@).len() as int) =~= ts[0].regulator_id + ":"@);
    }
    assert(license_type_id_prefixed(ts[1])) by {
        reveal_strlit("hn-prospera-rc:prospera-llc");
        reveal_strlit("hn-prospera-rc");
        reveal_strlit(":");
        assert(ts[1].license_type_id.subrange(0, (ts[1].regulator_id + ":"@).len() as int) =~= ts[1].regulator_id + ":"@);
    }
    assert(license_type_id_prefixed(ts[2])) by {
        reveal_strlit("hn-prospera-rc:prospera-corporation");
        reveal_strlit("hn-prospera-rc");
        reveal_strlit(":");
        assert(ts[2].license_type_id.subrange(0, (ts[2].regulator_id + ":"@).len() as int) =~= ts[2].regulator_id + ":"@);
    }
    assert(license_type_id_prefixed(ts[3])) by {
        reveal_strlit("hn-prospera-rc:regulated-business-insurance");
        reveal_strlit("hn-prospera-rc");
        reveal_strlit(":");
        assert(ts[3].license_type_id.subrange(0, (ts[3].regulator_id + ":"@).len() as int) =~= ts[3].regulator_id + ":"@);
    }
    assert(license_type_id_prefixed(ts[4])) by {
        reveal_strlit("hn-prospera-rc:financial-services-modular");
        reveal_strlit("hn-prospera-rc");
        reveal_strlit(":");
        assert(ts[4].license_type_id.subrange(0, (ts[4].regulator_id + ":"@).len() as int) =~= ts[4].regulator_id + ":"@);
    }
    assert(license_type_id_prefixed(ts[5])) by {
        reveal_strlit("hn-prospera-rc:professional-services");
        reveal_strlit("hn-prospera-rc");
        reveal_strlit(":");
        assert(ts[5].license_type_id.subrange(0, (ts[5].regulator_id + ":"@).len() as int) =~= ts[5].regulator_id + ":"@);
    }
    assert(license_type_id_prefixed(ts[6])) by {
        reveal_strlit("hn-prospera-rc:arbitration-provider");
        reveal_strlit("hn-prospera-rc");
        reveal_strlit(":");
        assert(ts[6].license_type_id.subrange(0, (ts[6].regulator_id + ":"@).len() as int) =~= ts[6].regulator_id + ":"@);
    }
    assert(license_type_id_prefixed(ts[7])) by {
        reveal_strlit("hn-prospera-rc:digital-asset-service-provider");
        reveal_strlit("hn-prospera-rc");
        reveal_strlit(":");
        assert(ts[7].license_type_id.subrange(0, (ts[7].regulator_id + ":"@).len() as int) =~= ts[7].regulator_id + ":"@);
    }
    assert(prefixed_each(ts)) by {
        reveal_with_fuel(prefixed_each, 9);
    }
    lemma_prefixed_each(ts);
}

/// Each licence-type identifier of `prospera_cr_license_types` starts with its regulator's
/// identifier and a colon.
proof fn lemma_prospera_cr_license_types_prefixed()
    ensures
        license_type_ids_prefixed(spec_prospera_cr_license_types()),
{
    let ts = spec_prospera_cr_license_types();
    assert(license_type_id_prefixed(ts[0])) by {
        reveal_strlit("hn-prospera-cr:physical-resident");
        reveal_strlit("hn-prospera-cr");
        reveal_strlit(":");
        assert(ts[0].license_type_id.subrange(0, (ts[0].regulator_id + ":"@).len() as int) =~= ts[0].regulator_id + ":"@);
    }
    assert(license_type_id_prefixed(ts[1])) by {
        reveal_strlit("hn-prospera-cr:e-resident");
        reveal_strlit("hn-prospera-cr");
        reveal_strlit(":");
        assert(ts[1].license_type_id.subrange(0, (ts[1].regulator_id + ":"@).len() as int) =~= ts[1].regulator_id + ":"@);
    }
    assert(prefixed_each(ts)) by {
        reveal_with_fuel(prefixed_each, 3);
    }
    lemma_prefixed_each(ts);
}

/// Each licence-type identifier of `cnbs_license_types` starts with its regulator's
/// identifier and a colon.
proof fn lemma_cnbs_license_types_prefixed()
    ensures
        license_type_ids_prefixed(spec_cnbs_license_types()),
{
    let ts = spec_cnbs_license_types();
    assert(license_type_id_prefixed(ts[0])) by {
        reveal_strlit("hn-cnbs:banking-license");
        reveal_strlit("hn-cnbs");
        reveal_strlit(":");
        assert(ts[0].license_type_id.subrange(0, (ts[0].regulator_id + ":"@).len() as int) =~= ts[0].regulator_id + ":"@);
    }
    assert(prefixed_each(ts)) by {
        reveal_with_fuel(prefixed_each, 2);
    }
    lemma_prefixed_each(ts);
}

/// Every licence-type identifier of the Prospera catalog starts with the
/// identifier of the regulator that grants it, followed by a colon.
pub proof fn lemma_prospera_license_types_prefixed()
    ensures
        license_type_ids_prefixed(spec_prospera_license_types()),
{
    lemma_prospera_rc_license_types_prefixed();
    lemma_prospera_cr_license_types_prefixed();
    lemma_cnbs_license_types_prefixed();
    lemma_prefixed_append(spec_prospera_rc_license_types(), spec_prospera_cr_license_types());
    lemma_prefixed_append(spec_prospera_rc_license_types() + spec_prospera_cr_license_types(), spec_cnbs_license_types());
    assert(spec_prospera_license_types() =~= spec_prospera_rc_license_types() + spec_prospera_cr_license_types() + spec_cnbs_license_types());
}

} // verus!
