//! # Brazil Regulatory Authority License Mappings
//!
//! Brazil-specific license type definitions covering the four major
//! regulatory authorities:
//!
//! | Authority | Full Name | Domain |
//! |-----------|-----------|--------|
//! | **BCB** | Banco Central do Brasil | Banking, Payments, VASP |
//! | **CVM** | Comissao de Valores Mobiliarios | Securities, Funds |
//! | **SUSEP** | Superintendencia de Seguros Privados | Insurance |
//! | **DREI** | Department of Business Registration | Corporate |
//!
//! Each authority is represented as a [`LicensepackRegulator`] with its
//! associated [`LicenseTypeDefinition`] entries. These definitions provide
//! the Brazil-specific license taxonomy used by the compliance tensor's
//! LICENSING domain evaluation.

use vstd::prelude::*;

use crate::license::{
    license_type, license_type_view, license_types_view, regulator, regulator_view,
    regulators_view, LicenseTypeDefinition, LicenseTypeView, LicensepackRegulator,
    RegulatorView, RequirementValue,
    lemma_license_types_view_append, lemma_regulators_view_append,
};

use crate::catalog::{
    apart_each, id_fresh_each, ids_distinct_each, lemma_apart_each, lemma_ids_apart_append, lemma_ids_distinct_append, lemma_ids_distinct_each, license_type_ids_apart, license_type_ids_distinct, complete_each, every_regulator_grants, granted_by_each, granted_by_listed_regulators, grants_each, grants_some, in_jurisdiction_each, lemma_complete_append, lemma_complete_each, lemma_every_combine, lemma_granted_by_each, lemma_granted_combine, lemma_grants_each, lemma_in_jurisdiction_append, lemma_in_jurisdiction_each, license_types_complete, regulators_in_jurisdiction,
};

use crate::catalog::{
    lemma_prefixed_append, lemma_prefixed_each, license_type_id_prefixed, license_type_ids_prefixed,
    prefixed_each,
};

verus! {

/// The view of `bcb_regulator`.
pub open spec fn spec_bcb_regulator() -> RegulatorView {
    regulator_view(
        "br-bcb"@,
        "Banco Central do Brasil"@,
        "br"@,
        Some("https://www.bcb.gov.br"@),
        seq!["institution_registry"@, "pix_integration"@],
    )
}

/// BCB regulator profile.
pub fn bcb_regulator() -> (r: LicensepackRegulator)
    ensures
        r@ == spec_bcb_regulator(),
        r@ == regulator_view(
            "br-bcb"@,
            "Banco Central do Brasil"@,
            "br"@,
            Some("https://www.bcb.gov.br"@),
            seq!["institution_registry"@, "pix_integration"@],
        ),
{
    let r =
        regulator(
            "br-bcb",
            "Banco Central do Brasil",
            "br",
            Some("https://www.bcb.gov.br"),
            &["institution_registry", "pix_integration"],
        );
    proof {
        assert(r@ =~~= spec_bcb_regulator());
    }
    r
}

/// The view of `bcb_license_types`.
pub open spec fn spec_bcb_license_types() -> Seq<LicenseTypeView> {
    seq![
        license_type_view(
            "br-bcb:commercial-bank"@,
            "Commercial Banking License"@,
            "Authorization to operate as a commercial bank (banco comercial) in Brazil"@,
            "br-bcb"@,
            Some("financial"@),
            seq!["deposit_taking"@, "lending"@, "trade_finance"@, "foreign_exchange"@, "payment_services"@],
            seq![],
            seq![],
            seq![],
            None,
        ),
        license_type_view(
            "br-bcb:investment-bank"@,
            "Investment Banking License"@,
            "Authorization to operate as an investment bank (banco de investimento) in Brazil"@,
            "br-bcb"@,
            Some("financial"@),
            seq!["underwriting"@, "advisory"@, "proprietary_trading"@, "capital_markets"@],
            seq![],
            seq![],
            seq![],
            None,
        ),
        license_type_view(
            "br-bcb:development-bank"@,
            "Development Banking License"@,
            "Authorization to operate as a development bank in Brazil"@,
            "br-bcb"@,
            Some("financial"@),
            seq!["development_lending"@, "project_finance"@, "infrastructure_financing"@],
            seq![],
            seq![],
            seq![],
            None,
        ),
        license_type_view(
            "br-bcb:payment-institution-issuer"@,
            "Payment Institution - Issuer"@,
            "Authorization to operate as an electronic money issuer (instituicao de pagamento emissora)"@,
            "br-bcb"@,
            Some("financial"@),
            seq!["issuing_e_money"@, "prepaid_instruments"@, "payment_accounts"@],
            seq![],
            seq![],
            seq![],
            None,
        ),
        license_type_view(
            "br-bcb:payment-institution-acquirer"@,
            "Payment Institution - Acquirer"@,
            "Authorization to operate as a payment acquirer (instituicao de pagamento credenciadora)"@,
            "br-bcb"@,
            Some("financial"@),
            seq!["merchant_acquisition"@, "payment_processing"@, "settlement"@],
            seq![],
            seq![],
            seq![],
            None,
        ),
        license_type_view(
            "br-bcb:payment-institution-account"@,
            "Payment Institution - Payment Account"@,
            "Authorization to manage payment accounts (instituicao de pagamento iniciadora)"@,
            "br-bcb"@,
            Some("financial"@),
            seq!["payment_accounts"@, "payment_initiation"@, "pix_services"@],
            seq![],
            seq![],
            seq![],
            None,
        ),
        license_type_view(
            "br-bcb:direct-credit-society"@,
            "Direct Credit Society License"@,
            "Authorization to operate as a direct credit society (sociedade de credito direto)"@,
            "br-bcb"@,
            Some("financial"@),
            seq!["digital_lending"@, "peer_to_peer_lending"@],
            seq![],
            seq![],
            seq![],
            None,
        ),
        license_type_view(
            "br-bcb:vasp-authorization"@,
            "Virtual Asset Service Provider Authorization"@,
            "Authorization to operate as a VASP under Brazilian virtual asset regulations"@,
            "br-bcb"@,
            Some("financial"@),
            seq!["virtual_asset_exchange"@, "virtual_asset_custody"@, "virtual_asset_transfer"@],
            seq![],
            seq![],
            seq![],
            Some(3i32),
        )
    ]
}

/// BCB license type definitions.
pub fn bcb_license_types() -> (r: Vec<LicenseTypeDefinition>)
    ensures
        license_types_view(r@) == spec_bcb_license_types(),
        license_types_view(r@) == seq![
            license_type_view(
                "br-bcb:commercial-bank"@,
                "Commercial Banking License"@,
                "Authorization to operate as a commercial bank (banco comercial) in Brazil"@,
                "br-bcb"@,
                Some("financial"@),
                seq!["deposit_taking"@, "lending"@, "trade_finance"@, "foreign_exchange"@, "payment_services"@],
                seq![],
                seq![],
                seq![],
                None,
            ),
            license_type_view(
                "br-bcb:investment-bank"@,
                "Investment Banking License"@,
                "Authorization to operate as an investment bank (banco de investimento) in Brazil"@,
                "br-bcb"@,
                Some("financial"@),
                seq!["underwriting"@, "advisory"@, "proprietary_trading"@, "capital_markets"@],
                seq![],
                seq![],
                seq![],
                None,
            ),
            license_type_view(
                "br-bcb:development-bank"@,
                "Development Banking License"@,
                "Authorization to operate as a development bank in Brazil"@,
                "br-bcb"@,
                Some("financial"@),
                seq!["development_lending"@, "project_finance"@, "infrastructure_financing"@],
                seq![],
                seq![],
                seq![],
                None,
            ),
            license_type_view(
                "br-bcb:payment-institution-issuer"@,
                "Payment Institution - Issuer"@,
                "Authorization to operate as an electronic money issuer (instituicao de pagamento emissora)"@,
                "br-bcb"@,
                Some("financial"@),
                seq!["issuing_e_money"@, "prepaid_instruments"@, "payment_accounts"@],
                seq![],
                seq![],
                seq![],
                None,
            ),
            license_type_view(
                "br-bcb:payment-institution-acquirer"@,
                "Payment Institution - Acquirer"@,
                "Authorization to operate as a payment acquirer (instituicao de pagamento credenciadora)"@,
                "br-bcb"@,
                Some("financial"@),
                seq!["merchant_acquisition"@, "payment_processing"@, "settlement"@],
                seq![],
                seq![],
                seq![],
                None,
            ),
            license_type_view(
                "br-bcb:payment-institution-account"@,
                "Payment Institution - Payment Account"@,
                "Authorization to manage payment accounts (instituicao de pagamento iniciadora)"@,
                "br-bcb"@,
                Some("financial"@),
                seq!["payment_accounts"@, "payment_initiation"@, "pix_services"@],
                seq![],
                seq![],
                seq![],
                None,
            ),
            license_type_view(
                "br-bcb:direct-credit-society"@,
                "Direct Credit Society License"@,
                "Authorization to operate as a direct credit society (sociedade de credito direto)"@,
                "br-bcb"@,
                Some("financial"@),
                seq!["digital_lending"@, "peer_to_peer_lending"@],
                seq![],
                seq![],
                seq![],
                None,
            ),
            license_type_view(
                "br-bcb:vasp-authorization"@,
                "Virtual Asset Service Provider Authorization"@,
                "Authorization to operate as a VASP under Brazilian virtual asset regulations"@,
                "br-bcb"@,
                Some("financial"@),
                seq!["virtual_asset_exchange"@, "virtual_asset_custody"@, "virtual_asset_transfer"@],
                seq![],
                seq![],
                seq![],
                Some(3i32),
            )
        ],
{
    let r = vec![
        license_type(
            "br-bcb:commercial-bank",
            "Commercial Banking License",
            "Authorization to operate as a commercial bank (banco comercial) in Brazil",
            "br-bcb",
            Some("financial"),
            &["deposit_taking", "lending", "trade_finance", "foreign_exchange", "payment_services"],
            &[],
            &[],
            &[],
            None,
        ),
        license_type(
            "br-bcb:investment-bank",
            "Investment Banking License",
            "Authorization to operate as an investment bank (banco de investimento) in Brazil",
            "br-bcb",
            Some("financial"),
            &["underwriting", "advisory", "proprietary_trading", "capital_markets"],
            &[],
            &[],
            &[],
            None,
        ),
        license_type(
            "br-bcb:development-bank",
            "Development Banking License",
            "Authorization to operate as a development bank in Brazil",
            "br-bcb",
            Some("financial"),
            &["development_lending", "project_finance", "infrastructure_financing"],
            &[],
            &[],
            &[],
            None,
        ),
        license_type(
            "br-bcb:payment-institution-issuer",
            "Payment Institution - Issuer",
            "Authorization to operate as an electronic money issuer (instituicao de pagamento emissora)",
            "br-bcb",
            Some("financial"),
            &["issuing_e_money", "prepaid_instruments", "payment_accounts"],
            &[],
            &[],
            &[],
            None,
        ),
        license_type(
            "br-bcb:payment-institution-acquirer",
            "Payment Institution - Acquirer",
            "Authorization to operate as a payment acquirer (instituicao de pagamento credenciadora)",
            "br-bcb",
            Some("financial"),
            &["merchant_acquisition", "payment_processing", "settlement"],
            &[],
            &[],
            &[],
            None,
        ),
        license_type(
            "br-bcb:payment-institution-account",
            "Payment Institution - Payment Account",
            "Authorization to manage payment accounts (instituicao de pagamento iniciadora)",
            "br-bcb",
            Some("financial"),
            &["payment_accounts", "payment_initiation", "pix_services"],
            &[],
            &[],
            &[],
            None,
        ),
        license_type(
            "br-bcb:direct-credit-society",
            "Direct Credit Society License",
            "Authorization to operate as a direct credit society (sociedade de credito direto)",
            "br-bcb",
            Some("financial"),
            &["digital_lending", "peer_to_peer_lending"],
            &[],
            &[],
            &[],
            None,
        ),
        license_type(
            "br-bcb:vasp-authorization",
            "Virtual Asset Service Provider Authorization",
            "Authorization to operate as a VASP under Brazilian virtual asset regulations",
            "br-bcb",
            Some("financial"),
            &["virtual_asset_exchange", "virtual_asset_custody", "virtual_asset_transfer"],
            &[],
            &[],
            &[],
            Some(3i32),
        )
    ];
    proof {
        assert(license_types_view(r@) =~~= spec_bcb_license_types());
    }
    r
}

/// The view of `cvm_regulator`.
pub open spec fn spec_cvm_regulator() -> RegulatorView {
    regulator_view(
        "br-cvm"@,
        "Comissao de Valores Mobiliarios"@,
        "br"@,
        Some("https://www.gov.br/cvm"@),
        seq!["participant_registry"@],
    )
}

/// CVM regulator profile.
pub fn cvm_regulator() -> (r: LicensepackRegulator)
    ensures
        r@ == spec_cvm_regulator(),
        r@ == regulator_view(
            "br-cvm"@,
            "Comissao de Valores Mobiliarios"@,
            "br"@,
            Some("https://www.gov.br/cvm"@),
            seq!["participant_registry"@],
        ),
{
    let r =
        regulator(
            "br-cvm",
            "Comissao de Valores Mobiliarios",
            "br",
            Some("https://www.gov.br/cvm"),
            &["participant_registry"],
        );
    proof {
        assert(r@ =~~= spec_cvm_regulator());
    }
    r
}

/// The view of `cvm_license_types`.
pub open spec fn spec_cvm_license_types() -> Seq<LicenseTypeView> {
    seq![
        license_type_view(
            "br-cvm:securities-broker"@,
            "Securities Broker Registration"@,
            "Registration to operate as a securities broker (corretora) in Brazil"@,
            "br-cvm"@,
            Some("financial"@),
            seq!["securities_brokerage"@, "order_execution"@, "trading"@],
            seq![],
            seq![],
            seq![],
            None,
        ),
        license_type_view(
            "br-cvm:fund-manager"@,
            "Investment Fund Manager Registration"@,
            "Registration to manage investment funds (gestor de fundos) in Brazil"@,
            "br-cvm"@,
            Some("financial"@),
            seq!["fund_management"@, "portfolio_management"@, "discretionary_management"@],
            seq![],
            seq![],
            seq![],
            None,
        ),
        license_type_view(
            "br-cvm:securitizer"@,
            "Securitizer Registration"@,
            "Registration to operate as a securitizer (securitizadora) in Brazil"@,
            "br-cvm"@,
            Some("financial"@),
            seq!["securitization"@, "receivables_issuance"@],
            seq![],
            seq![],
            seq![],
            None,
        ),
        license_type_view(
            "br-cvm:investment-adviser"@,
            "Investment Adviser Registration"@,
            "Registration to provide investment advisory services in Brazil"@,
            "br-cvm"@,
            Some("financial"@),
            seq!["investment_advisory"@, "financial_planning"@],
            seq![],
            seq![],
            seq![],
            None,
        ),
        license_type_view(
            "br-cvm:crowdfunding-platform"@,
            "Crowdfunding Platform Registration"@,
            "Registration to operate an equity crowdfunding platform under CVM Instruction 588"@,
            "br-cvm"@,
            Some("financial"@),
            seq!["crowdfunding_platform"@, "equity_crowdfunding"@, "small_business_financing"@],
            seq![],
            seq![],
            seq![],
            Some(3i32),
        )
    ]
}

/// CVM license type definitions.
pub fn cvm_license_types() -> (r: Vec<LicenseTypeDefinition>)
    ensures
        license_types_view(r@) == spec_cvm_license_types(),
        license_types_view(r@) == seq![
            license_type_view(
                "br-cvm:securities-broker"@,
                "Securities Broker Registration"@,
                "Registration to operate as a securities broker (corretora) in Brazil"@,
                "br-cvm"@,
                Some("financial"@),
                seq!["securities_brokerage"@, "order_execution"@, "trading"@],
                seq![],
                seq![],
                seq![],
                None,
            ),
            license_type_view(
                "br-cvm:fund-manager"@,
                "Investment Fund Manager Registration"@,
                "Registration to manage investment funds (gestor de fundos) in Brazil"@,
                "br-cvm"@,
                Some("financial"@),
                seq!["fund_management"@, "portfolio_management"@, "discretionary_management"@],
                seq![],
                seq![],
                seq![],
                None,
            ),
            license_type_view(
                "br-cvm:securitizer"@,
                "Securitizer Registration"@,
                "Registration to operate as a securitizer (securitizadora) in Brazil"@,
                "br-cvm"@,
                Some("financial"@),
                seq!["securitization"@, "receivables_issuance"@],
                seq![],
                seq![],
                seq![],
                None,
            ),
            license_type_view(
                "br-cvm:investment-adviser"@,
                "Investment Adviser Registration"@,
                "Registration to provide investment advisory services in Brazil"@,
                "br-cvm"@,
                Some("financial"@),
                seq!["investment_advisory"@, "financial_planning"@],
                seq![],
                seq![],
                seq![],
                None,
            ),
            license_type_view(
                "br-cvm:crowdfunding-platform"@,
                "Crowdfunding Platform Registration"@,
                "Registration to operate an equity crowdfunding platform under CVM Instruction 588"@,
                "br-cvm"@,
                Some("financial"@),
                seq!["crowdfunding_platform"@, "equity_crowdfunding"@, "small_business_financing"@],
                seq![],
                seq![],
                seq![],
                Some(3i32),
            )
        ],
{
    let r = vec![
        license_type(
            "br-cvm:securities-broker",
            "Securities Broker Registration",
            "Registration to operate as a securities broker (corretora) in Brazil",
            "br-cvm",
            Some("financial"),
            &["securities_brokerage", "order_execution", "trading"],
            &[],
            &[],
            &[],
            None,
        ),
        license_type(
            "br-cvm:fund-manager",
            "Investment Fund Manager Registration",
            "Registration to manage investment funds (gestor de fundos) in Brazil",
            "br-cvm",
            Some("financial"),
            &["fund_management", "portfolio_management", "discretionary_management"],
            &[],
            &[],
            &[],
            None,
        ),
        license_type(
            "br-cvm:securitizer",
            "Securitizer Registration",
            "Registration to operate as a securitizer (securitizadora) in Brazil",
            "br-cvm",
            Some("financial"),
            &["securitization", "receivables_issuance"],
            &[],
            &[],
            &[],
            None,
        ),
        license_type(
            "br-cvm:investment-adviser",
            "Investment Adviser Registration",
            "Registration to provide investment advisory services in Brazil",
            "br-cvm",
            Some("financial"),
            &["investment_advisory", "financial_planning"],
            &[],
            &[],
            &[],
            None,
        ),
        license_type(
            "br-cvm:crowdfunding-platform",
            "Crowdfunding Platform Registration",
            "Registration to operate an equity crowdfunding platform under CVM Instruction 588",
            "br-cvm",
            Some("financial"),
            &["crowdfunding_platform", "equity_crowdfunding", "small_business_financing"],
            &[],
            &[],
            &[],
            Some(3i32),
        )
    ];
    proof {
        assert(license_types_view(r@) =~~= spec_cvm_license_types());
    }
    r
}

/// The view of `susep_regulator`.
pub open spec fn spec_susep_regulator() -> RegulatorView {
    regulator_view(
        "br-susep"@,
        "Superintendencia de Seguros Privados"@,
        "br"@,
        Some("https://www.gov.br/susep"@),
        seq!["insurer_registry"@],
    )
}

/// SUSEP regulator profile.
pub fn susep_regulator() -> (r: LicensepackRegulator)
    ensures
        r@ == spec_susep_regulator(),
        r@ == regulator_view(
            "br-susep"@,
            "Superintendencia de Seguros Privados"@,
            "br"@,
            Some("https://www.gov.br/susep"@),
            seq!["insurer_registry"@],
        ),
{
    let r =
        regulator(
            "br-susep",
            "Superintendencia de Seguros Privados",
            "br",
            Some("https://www.gov.br/susep"),
            &["insurer_registry"],
        );
    proof {
        assert(r@ =~~= spec_susep_regulator());
    }
    r
}

/// The view of `susep_license_types`.
pub open spec fn spec_susep_license_types() -> Seq<LicenseTypeView> {
    seq![
        license_type_view(
            "br-susep:insurance-company"@,
            "Insurance Company Authorization"@,
            "Authorization to operate as an insurance company in Brazil"@,
            "br-susep"@,
            Some("insurance"@),
            seq!["general_insurance"@, "life_insurance"@, "health_insurance"@],
            seq![],
            seq![],
            seq![],
            None,
        ),
        license_type_view(
            "br-susep:reinsurer"@,
            "Reinsurer Authorization"@,
            "Authorization to operate as a reinsurer in Brazil"@,
            "br-susep"@,
            Some("insurance"@),
            seq!["reinsurance"@, "retrocession"@],
            seq![],
            seq![],
            seq![],
            None,
        ),
        license_type_view(
            "br-susep:insurance-broker"@,
            "Insurance Broker Registration"@,
            "Registration to operate as an insurance broker in Brazil"@,
            "br-susep"@,
            Some("insurance"@),
            seq!["insurance_brokerage"@, "risk_advisory"@],
            seq![],
            seq![],
            seq![],
            Some(1i32),
        ),
        license_type_view(
            "br-susep:open-pension-fund"@,
            "Open Pension Fund Authorization"@,
            "Authorization to manage an open supplementary pension fund (EAPC) in Brazil"@,
            "br-susep"@,
            Some("insurance"@),
            seq!["pension_fund_management"@, "retirement_products"@, "annuities"@],
            seq![],
            seq![],
            seq![],
            None,
        )
    ]
}

/// SUSEP license type definitions.
pub fn susep_license_types() -> (r: Vec<LicenseTypeDefinition>)
    ensures
        license_types_view(r@) == spec_susep_license_types(),
        license_types_view(r@) == seq![
            license_type_view(
                "br-susep:insurance-company"@,
                "Insurance Company Authorization"@,
                "Authorization to operate as an insurance company in Brazil"@,
                "br-susep"@,
                Some("insurance"@),
                seq!["general_insurance"@, "life_insurance"@, "health_insurance"@],
                seq![],
                seq![],
                seq![],
                None,
            ),
            license_type_view(
                "br-susep:reinsurer"@,
                "Reinsurer Authorization"@,
                "Authorization to operate as a reinsurer in Brazil"@,
                "br-susep"@,
                Some("insurance"@),
                seq!["reinsurance"@, "retrocession"@],
                seq![],
                seq![],
                seq![],
                None,
            ),
            license_type_view(
                "br-susep:insurance-broker"@,
                "Insurance Broker Registration"@,
                "Registration to operate as an insurance broker in Brazil"@,
                "br-susep"@,
                Some("insurance"@),
                seq!["insurance_brokerage"@, "risk_advisory"@],
                seq![],
                seq![],
                seq![],
                Some(1i32),
            ),
            license_type_view(
                "br-susep:open-pension-fund"@,
                "Open Pension Fund Authorization"@,
                "Authorization to manage an open supplementary pension fund (EAPC) in Brazil"@,
                "br-susep"@,
                Some("insurance"@),
                seq!["pension_fund_management"@, "retirement_products"@, "annuities"@],
                seq![],
                seq![],
                seq![],
                None,
            )
        ],
{
    let r = vec![
        license_type(
            "br-susep:insurance-company",
            "Insurance Company Authorization",
            "Authorization to operate as an insurance company in Brazil",
            "br-susep",
            Some("insurance"),
            &["general_insurance", "life_insurance", "health_insurance"],
            &[],
            &[],
            &[],
            None,
        ),
        license_type(
            "br-susep:reinsurer",
            "Reinsurer Authorization",
            "Authorization to operate as a reinsurer in Brazil",
            "br-susep",
            Some("insurance"),
            &["reinsurance", "retrocession"],
            &[],
            &[],
            &[],
            None,
        ),
        license_type(
            "br-susep:insurance-broker",
            "Insurance Broker Registration",
            "Registration to operate as an insurance broker in Brazil",
            "br-susep",
            Some("insurance"),
            &["insurance_brokerage", "risk_advisory"],
            &[],
            &[],
            &[],
            Some(1i32),
        ),
        license_type(
            "br-susep:open-pension-fund",
            "Open Pension Fund Authorization",
            "Authorization to manage an open supplementary pension fund (EAPC) in Brazil",
            "br-susep",
            Some("insurance"),
            &["pension_fund_management", "retirement_products", "annuities"],
            &[],
            &[],
            &[],
            None,
        )
    ];
    proof {
        assert(license_types_view(r@) =~~= spec_susep_license_types());
    }
    r
}

/// The view of `drei_regulator`.
pub open spec fn spec_drei_regulator() -> RegulatorView {
    regulator_view(
        "br-drei"@,
        "Department of Business Registration"@,
        "br"@,
        Some("https://www.gov.br/economia/drei"@),
        seq!["company_search"@],
    )
}

/// DREI regulator profile.
pub fn drei_regulator() -> (r: LicensepackRegulator)
    ensures
        r@ == spec_drei_regulator(),
        r@ == regulator_view(
            "br-drei"@,
            "Department of Business Registration"@,
            "br"@,
            Some("https://www.gov.br/economia/drei"@),
            seq!["company_search"@],
        ),
{
    let r =
        regulator(
            "br-drei",
            "Department of Business Registration",
            "br",
            Some("https://www.gov.br/economia/drei"),
            &["company_search"],
        );
    proof {
        assert(r@ =~~= spec_drei_regulator());
    }
    r
}

/// The view of `drei_license_types`.
pub open spec fn spec_drei_license_types() -> Seq<LicenseTypeView> {
    seq![
        license_type_view(
            "br-drei:sa"@,
            "Sociedade Anonima (S.A.) Registration"@,
            "Registration of a corporation (sociedade anonima) in Brazil"@,
            "br-drei"@,
            Some("corporate"@),
            seq!["business_operations"@, "capital_raising"@, "securities_issuance"@],
            seq![],
            seq![],
            seq![],
            None,
        ),
        license_type_view(
            "br-drei:ltda"@,
            "Sociedade Limitada (Ltda.) Registration"@,
            "Registration of a limited liability company (sociedade limitada) in Brazil"@,
            "br-drei"@,
            Some("corporate"@),
            seq!["business_operations"@, "professional_services"@],
            seq![],
            seq![],
            seq![],
            None,
        ),
        license_type_view(
            "br-drei:eireli"@,
            "EIRELI Registration"@,
            "Registration of an individual limited liability company (EIRELI) in Brazil"@,
            "br-drei"@,
            Some("corporate"@),
            seq!["business_operations"@, "sole_proprietor_services"@],
            seq![],
            seq![],
            seq![],
            None,
        ),
        license_type_view(
            "br-drei:mei"@,
            "Microempreendedor Individual (MEI) Registration"@,
            "Registration as an individual micro-entrepreneur (MEI) in Brazil"@,
            "br-drei"@,
            Some("corporate"@),
            seq!["micro_business_operations"@, "individual_services"@],
            seq![],
            seq![],
            seq![],
            None,
        )
    ]
}

/// DREI license type definitions.
pub fn drei_license_types() -> (r: Vec<LicenseTypeDefinition>)
    ensures
        license_types_view(r@) == spec_drei_license_types(),
        license_types_view(r@) == seq![
            license_type_view(
                "br-drei:sa"@,
                "Sociedade Anonima (S.A.) Registration"@,
                "Registration of a corporation (sociedade anonima) in Brazil"@,
                "br-drei"@,
                Some("corporate"@),
                seq!["business_operations"@, "capital_raising"@, "securities_issuance"@],
                seq![],
                seq![],
                seq![],
                None,
            ),
            license_type_view(
                "br-drei:ltda"@,
                "Sociedade Limitada (Ltda.) Registration"@,
                "Registration of a limited liability company (sociedade limitada) in Brazil"@,
                "br-drei"@,
                Some("corporate"@),
                seq!["business_operations"@, "professional_services"@],
                seq![],
                seq![],
                seq![],
                None,
            ),
            license_type_view(
                "br-drei:eireli"@,
                "EIRELI Registration"@,
                "Registration of an individual limited liability company (EIRELI) in Brazil"@,
                "br-drei"@,
                Some("corporate"@),
                seq!["business_operations"@, "sole_proprietor_services"@],
                seq![],
                seq![],
                seq![],
                None,
            ),
            license_type_view(
                "br-drei:mei"@,
                "Microempreendedor Individual (MEI) Registration"@,
                "Registration as an individual micro-entrepreneur (MEI) in Brazil"@,
                "br-drei"@,
                Some("corporate"@),
                seq!["micro_business_operations"@, "individual_services"@],
                seq![],
                seq![],
                seq![],
                None,
            )
        ],
{
    let r = vec![
        license_type(
            "br-drei:sa",
            "Sociedade Anonima (S.A.) Registration",
            "Registration of a corporation (sociedade anonima) in Brazil",
            "br-drei",
            Some("corporate"),
            &["business_operations", "capital_raising", "securities_issuance"],
            &[],
            &[],
            &[],
            None,
        ),
        license_type(
            "br-drei:ltda",
            "Sociedade Limitada (Ltda.) Registration",
            "Registration of a limited liability company (sociedade limitada) in Brazil",
            "br-drei",
            Some("corporate"),
            &["business_operations", "professional_services"],
            &[],
            &[],
            &[],
            None,
        ),
        license_type(
            "br-drei:eireli",
            "EIRELI Registration",
            "Registration of an individual limited liability company (EIRELI) in Brazil",
            "br-drei",
            Some("corporate"),
            &["business_operations", "sole_proprietor_services"],
            &[],
            &[],
            &[],
            None,
        ),
        license_type(
            "br-drei:mei",
            "Microempreendedor Individual (MEI) Registration",
            "Registration as an individual micro-entrepreneur (MEI) in Brazil",
            "br-drei",
            Some("corporate"),
            &["micro_business_operations", "individual_services"],
            &[],
            &[],
            &[],
            None,
        )
    ];
    proof {
        assert(license_types_view(r@) =~~= spec_drei_license_types());
    }
    r
}

/// The view of `brazil_regulators`.
pub open spec fn spec_brazil_regulators() -> Seq<RegulatorView> {
    seq![spec_bcb_regulator(), spec_cvm_regulator(), spec_susep_regulator(), spec_drei_regulator()]
}

/// All Brazil regulatory authorities.
pub fn brazil_regulators() -> (r: Vec<LicensepackRegulator>)
    ensures
        regulators_view(r@) == spec_brazil_regulators(),
        regulators_view(r@) == seq![spec_bcb_regulator(), spec_cvm_regulator(), spec_susep_regulator(), spec_drei_regulator()],
{
    let r = vec![bcb_regulator(), cvm_regulator(), susep_regulator(), drei_regulator()];
    proof {
        assert(regulators_view(r@) =~~= spec_brazil_regulators());
    }
    r
}

/// The view of `brazil_license_types`.
pub open spec fn spec_brazil_license_types() -> Seq<LicenseTypeView> {
    spec_bcb_license_types()
        + spec_cvm_license_types()
        + spec_susep_license_types()
        + spec_drei_license_types()
}

/// All Brazil license type definitions across all authorities.
pub fn brazil_license_types() -> (r: Vec<LicenseTypeDefinition>)
    ensures
        license_types_view(r@) == spec_brazil_license_types(),
        license_types_view(r@) == spec_bcb_license_types()
            + spec_cvm_license_types()
            + spec_susep_license_types()
            + spec_drei_license_types(),
{
    let mut all: Vec<LicenseTypeDefinition> = Vec::new();
    proof {
        assert(license_types_view(all@) =~= Seq::<LicenseTypeView>::empty());
    }
    let ghost before = all@;
    let mut part = bcb_license_types();
    let ghost added = part@;
    all.append(&mut part);
    proof {
        lemma_license_types_view_append(before, added);
        assert(license_types_view(all@) =~= spec_bcb_license_types());
    }
    let ghost before = all@;
    let mut part = cvm_license_types();
    let ghost added = part@;
    all.append(&mut part);
    proof {
        lemma_license_types_view_append(before, added);
        assert(license_types_view(all@) =~= spec_bcb_license_types() + spec_cvm_license_types());
    }
    let ghost before = all@;
    let mut part = susep_license_types();
    let ghost added = part@;
    all.append(&mut part);
    proof {
        lemma_license_types_view_append(before, added);
        assert(license_types_view(all@) =~= spec_bcb_license_types() + spec_cvm_license_types() + spec_susep_license_types());
    }
    let ghost before = all@;
    let mut part = drei_license_types();
    let ghost added = part@;
    all.append(&mut part);
    proof {
        lemma_license_types_view_append(before, added);
        assert(license_types_view(all@) =~= spec_bcb_license_types() + spec_cvm_license_types() + spec_susep_license_types() + spec_drei_license_types());
    }
    all
}

/// The licence types of `bcb_license_types` are complete, granted by its regulators, and
/// each of its regulators grants at least one of them.
proof fn lemma_bcb_group()
    ensures
        license_types_complete(spec_bcb_license_types()),
        granted_by_listed_regulators(spec_bcb_license_types(), seq![spec_bcb_regulator()]),
        every_regulator_grants(spec_bcb_license_types(), seq![spec_bcb_regulator()]),
        regulators_in_jurisdiction(seq![spec_bcb_regulator()], "br"@),
{
    assert(complete_each(spec_bcb_license_types())) by {
        reveal_strlit("br-bcb:commercial-bank");
        reveal_strlit("Commercial Banking License");
        reveal_strlit("Authorization to operate as a commercial bank (banco comercial) in Brazil");
        reveal_strlit("br-bcb");
        reveal_strlit("br-bcb:investment-bank");
        reveal_strlit("Investment Banking License");
        reveal_strlit("Authorization to operate as an investment bank (banco de investimento) in Brazil");
        reveal_strlit("br-bcb:development-bank");
        reveal_strlit("Development Banking License");
        reveal_strlit("Authorization to operate as a development bank in Brazil");
        reveal_strlit("br-bcb:payment-institution-issuer");
        reveal_strlit("Payment Institution - Issuer");
        reveal_strlit("Authorization to operate as an electronic money issuer (instituicao de pagamento emissora)");
        reveal_strlit("br-bcb:payment-institution-acquirer");
        reveal_strlit("Payment Institution - Acquirer");
        reveal_strlit("Authorization to operate as a payment acquirer (instituicao de pagamento credenciadora)");
        reveal_strlit("br-bcb:payment-institution-account");
        reveal_strlit("Payment Institution - Payment Account");
        reveal_strlit("Authorization to manage payment accounts (instituicao de pagamento iniciadora)");
        reveal_strlit("br-bcb:direct-credit-society");
        reveal_strlit("Direct Credit Society License");
        reveal_strlit("Authorization to operate as a direct credit society (sociedade de credito direto)");
        reveal_strlit("br-bcb:vasp-authorization");
        reveal_strlit("Virtual Asset Service Provider Authorization");
        reveal_strlit("Authorization to operate as a VASP under Brazilian virtual asset regulations");
        reveal_with_fuel(complete_each, 9);
    }
    lemma_complete_each(spec_bcb_license_types());
    assert(granted_by_each(spec_bcb_license_types(), seq![spec_bcb_regulator()][0].regulator_id)) by {
        reveal_with_fuel(granted_by_each, 9);
    }
    lemma_granted_by_each(spec_bcb_license_types(), seq![spec_bcb_regulator()], 0);
    assert(grants_some(spec_bcb_license_types(), seq![spec_bcb_regulator()][0].regulator_id)) by {
        assert(spec_bcb_license_types()[0].regulator_id == seq![spec_bcb_regulator()][0].regulator_id);
    }
    assert(grants_each(spec_bcb_license_types(), seq![spec_bcb_regulator()])) by {
        reveal_with_fuel(grants_each, 2);
    }
    lemma_grants_each(spec_bcb_license_types(), seq![spec_bcb_regulator()]);
    assert(in_jurisdiction_each(seq![spec_bcb_regulator()], "br"@)) by {
        reveal_with_fuel(in_jurisdiction_each, 2);
    }
    lemma_in_jurisdiction_each(seq![spec_bcb_regulator()], "br"@);
}

/// The licence types of `cvm_license_types` are complete, granted by its regulators, and
/// each of its regulators grants at least one of them.
proof fn lemma_cvm_group()
    ensures
        license_types_complete(spec_cvm_license_types()),
        granted_by_listed_regulators(spec_cvm_license_types(), seq![spec_cvm_regulator()]),
        every_regulator_grants(spec_cvm_license_types(), seq![spec_cvm_regulator()]),
        regulators_in_jurisdiction(seq![spec_cvm_regulator()], "br"@),
{
    assert(complete_each(spec_cvm_license_types())) by {
        reveal_strlit("br-cvm:securities-broker");
        reveal_strlit("Securities Broker Registration");
        reveal_strlit("Registration to operate as a securities broker (corretora) in Brazil");
        reveal_strlit("br-cvm");
        reveal_strlit("br-cvm:fund-manager");
        reveal_strlit("Investment Fund Manager Registration");
        reveal_strlit("Registration to manage investment funds (gestor de fundos) in Brazil");
        reveal_strlit("br-cvm:securitizer");
        reveal_strlit("Securitizer Registration");
        reveal_strlit("Registration to operate as a securitizer (securitizadora) in Brazil");
        reveal_strlit("br-cvm:investment-adviser");
        reveal_strlit("Investment Adviser Registration");
        reveal_strlit("Registration to provide investment advisory services in Brazil");
        reveal_strlit("br-cvm:crowdfunding-platform");
        reveal_strlit("Crowdfunding Platform Registration");
        reveal_strlit("Registration to operate an equity crowdfunding platform under CVM Instruction 588");
        reveal_with_fuel(complete_each, 6);
    }
    lemma_complete_each(spec_cvm_license_types());
    assert(granted_by_each(spec_cvm_license_types(), seq![spec_cvm_regulator()][0].regulator_id)) by {
        reveal_with_fuel(granted_by_each, 6);
    }
    lemma_granted_by_each(spec_cvm_license_types(), seq![spec_cvm_regulator()], 0);
    assert(grants_some(spec_cvm_license_types(), seq![spec_cvm_regulator()][0].regulator_id)) by {
        assert(spec_cvm_license_types()[0].regulator_id == seq![spec_cvm_regulator()][0].regulator_id);
    }
    assert(grants_each(spec_cvm_license_types(), seq![spec_cvm_regulator()])) by {
        reveal_with_fuel(grants_each, 2);
    }
    lemma_grants_each(spec_cvm_license_types(), seq![spec_cvm_regulator()]);
    assert(in_jurisdiction_each(seq![spec_cvm_regulator()], "br"@)) by {
        reveal_with_fuel(in_jurisdiction_each, 2);
    }
    lemma_in_jurisdiction_each(seq![spec_cvm_regulator()], "br"@);
}

/// The licence types of `susep_license_types` are complete, granted by its regulators, and
/// each of its regulators grants at least one of them.
proof fn lemma_susep_group()
    ensures
        license_types_complete(spec_susep_license_types()),
        granted_by_listed_regulators(spec_susep_license_types(), seq![spec_susep_regulator()]),
        every_regulator_grants(spec_susep_license_types(), seq![spec_susep_regulator()]),
        regulators_in_jurisdiction(seq![spec_susep_regulator()], "br"@),
{
    assert(complete_each(spec_susep_license_types())) by {
        reveal_strlit("br-susep:insurance-company");
        reveal_strlit("Insurance Company Authorization");
        reveal_strlit("Authorization to operate as an insurance company in Brazil");
        reveal_strlit("br-susep");
        reveal_strlit("br-susep:reinsurer");
        reveal_strlit("Reinsurer Authorization");
        reveal_strlit("Authorization to operate as a reinsurer in Brazil");
        reveal_strlit("br-susep:insurance-broker");
        reveal_strlit("Insurance Broker Registration");
        reveal_strlit("Registration to operate as an insurance broker in Brazil");
        reveal_strlit("br-susep:open-pension-fund");
        reveal_strlit("Open Pension Fund Authorization");
        reveal_strlit("Authorization to manage an open supplementary pension fund (EAPC) in Brazil");
        reveal_with_fuel(complete_each, 5);
    }
    lemma_complete_each(spec_susep_license_types());
    assert(granted_by_each(spec_susep_license_types(), seq![spec_susep_regulator()][0].regulator_id)) by {
        reveal_with_fuel(granted_by_each, 5);
    }
    lemma_granted_by_each(spec_susep_license_types(), seq![spec_susep_regulator()], 0);
    assert(grants_some(spec_susep_license_types(), seq![spec_susep_regulator()][0].regulator_id)) by {
        assert(spec_susep_license_types()[0].regulator_id == seq![spec_susep_regulator()][0].regulator_id);
    }
    assert(grants_each(spec_susep_license_types(), seq![spec_susep_regulator()])) by {
        reveal_with_fuel(grants_each, 2);
    }
    lemma_grants_each(spec_susep_license_types(), seq![spec_susep_regulator()]);
    assert(in_jurisdiction_each(seq![spec_susep_regulator()], "br"@)) by {
        reveal_with_fuel(in_jurisdiction_each, 2);
    }
    lemma_in_jurisdiction_each(seq![spec_susep_regulator()], "br"@);
}

/// The licence types of `drei_license_types` are complete, granted by its regulators, and
/// each of its regulators grants at least one of them.
proof fn lemma_drei_group()
    ensures
        license_types_complete(spec_drei_license_types()),
        granted_by_listed_regulators(spec_drei_license_types(), seq![spec_drei_regulator()]),
        every_regulator_grants(spec_drei_license_types(), seq![spec_drei_regulator()]),
        regulators_in_jurisdiction(seq![spec_drei_regulator()], "br"@),
{
    assert(complete_each(spec_drei_license_types())) by {
        reveal_strlit("br-drei:sa");
        reveal_strlit("Sociedade Anonima (S.A.) Registration");
        reveal_strlit("Registration of a corporation (sociedade anonima) in Brazil");
        reveal_strlit("br-drei");
        reveal_strlit("br-drei:ltda");
        reveal_strlit("Sociedade Limitada (Ltda.) Registration");
        reveal_strlit("Registration of a limited liability company (sociedade limitada) in Brazil");
        reveal_strlit("br-drei:eireli");
        reveal_strlit("EIRELI Registration");
        reveal_strlit("Registration of an individual limited liability company (EIRELI) in Brazil");
        reveal_strlit("br-drei:mei");
        reveal_strlit("Microempreendedor Individual (MEI) Registration");
        reveal_strlit("Registration as an individual micro-entrepreneur (MEI) in Brazil");
        reveal_with_fuel(complete_each, 5);
    }
    lemma_complete_each(spec_drei_license_types());
    assert(granted_by_each(spec_drei_license_types(), seq![spec_drei_regulator()][0].regulator_id)) by {
        reveal_with_fuel(granted_by_each, 5);
    }
    lemma_granted_by_each(spec_drei_license_types(), seq![spec_drei_regulator()], 0);
    assert(grants_some(spec_drei_license_types(), seq![spec_drei_regulator()][0].regulator_id)) by {
        assert(spec_drei_license_types()[0].regulator_id == seq![spec_drei_regulator()][0].regulator_id);
    }
    assert(grants_each(spec_drei_license_types(), seq![spec_drei_regulator()])) by {
        reveal_with_fuel(grants_each, 2);
    }
    lemma_grants_each(spec_drei_license_types(), seq![spec_drei_regulator()]);
    assert(in_jurisdiction_each(seq![spec_drei_regulator()], "br"@)) by {
        reveal_with_fuel(in_jurisdiction_each, 2);
    }
    lemma_in_jurisdiction_each(seq![spec_drei_regulator()], "br"@);
}

/// The catalog of Brazil is consistent: every licence type has a non-empty identifier, name, description and
/// regulator identifier, a category, and at least one permitted activity;
/// every licence type is granted by one of its regulators;
/// every regulator grants at least one licence type;
/// every regulator belongs to jurisdiction `br`.
pub proof fn lemma_brazil_catalog_consistent()
    ensures
        license_types_complete(spec_brazil_license_types()),
        granted_by_listed_regulators(spec_brazil_license_types(), spec_brazil_regulators()),
        every_regulator_grants(spec_brazil_license_types(), spec_brazil_regulators()),
        regulators_in_jurisdiction(spec_brazil_regulators(), "br"@),
{
    lemma_bcb_group();
    lemma_cvm_group();
    lemma_susep_group();
    lemma_drei_group();
    assert(spec_brazil_regulators() =~= seq![spec_bcb_regulator()] + seq![spec_cvm_regulator()] + seq![spec_susep_regulator()] + seq![spec_drei_regulator()]);
    assert(spec_brazil_license_types() =~= spec_bcb_license_types() + spec_cvm_license_types() + spec_susep_license_types() + spec_drei_license_types());
    lemma_complete_append(spec_bcb_license_types(), spec_cvm_license_types());
    lemma_granted_combine(spec_bcb_license_types(), seq![spec_bcb_regulator()], spec_cvm_license_types(), seq![spec_cvm_regulator()]);
    lemma_every_combine(spec_bcb_license_types(), seq![spec_bcb_regulator()], spec_cvm_license_types(), seq![spec_cvm_regulator()]);
    lemma_in_jurisdiction_append(seq![spec_bcb_regulator()], seq![spec_cvm_regulator()], "br"@);
    lemma_complete_append(spec_bcb_license_types() + spec_cvm_license_types(), spec_susep_license_types());
    lemma_granted_combine(spec_bcb_license_types() + spec_cvm_license_types(), seq![spec_bcb_regulator()] + seq![spec_cvm_regulator()], spec_susep_license_types(), seq![spec_susep_regulator()]);
    lemma_every_combine(spec_bcb_license_types() + spec_cvm_license_types(), seq![spec_bcb_regulator()] + seq![spec_cvm_regulator()], spec_susep_license_types(), seq![spec_susep_regulator()]);
    lemma_in_jurisdiction_append(seq![spec_bcb_regulator()] + seq![spec_cvm_regulator()], seq![spec_susep_regulator()], "br"@);
    lemma_complete_append(spec_bcb_license_types() + spec_cvm_license_types() + spec_susep_license_types(), spec_drei_license_types());
    lemma_granted_combine(spec_bcb_license_types() + spec_cvm_license_types() + spec_susep_license_types(), seq![spec_bcb_regulator()] + seq![spec_cvm_regulator()] + seq![spec_susep_regulator()], spec_drei_license_types(), seq![spec_drei_regulator()]);
    lemma_every_combine(spec_bcb_license_types() + spec_cvm_license_types() + spec_susep_license_types(), seq![spec_bcb_regulator()] + seq![spec_cvm_regulator()] + seq![spec_susep_regulator()], spec_drei_license_types(), seq![spec_drei_regulator()]);
    lemma_in_jurisdiction_append(seq![spec_bcb_regulator()] + seq![spec_cvm_regulator()] + seq![spec_susep_regulator()], seq![spec_drei_regulator()], "br"@);
}

/// No two licence types of `bcb_license_types` share an identifier.
proof fn lemma_bcb_license_types_ids_distinct()
    ensures
        license_type_ids_distinct(spec_bcb_license_types()),
{
    let t = spec_bcb_license_types();
    assert(ids_distinct_each(t)) by {
        reveal_strlit("br-bcb:commercial-bank");
        reveal_strlit("br-bcb:development-bank");
        reveal_strlit("br-bcb:direct-credit-society");
        reveal_strlit("br-bcb:investment-bank");
        reveal_strlit("br-bcb:payment-institution-account");
        reveal_strlit("br-bcb:payment-institution-acquirer");
        reveal_strlit("br-bcb:payment-institution-issuer");
        reveal_strlit("br-bcb:vasp-authorization");
        assert(t[0].license_type_id[7] != t[1].license_type_id[7]);
        assert(t[0].license_type_id[7] != t[2].license_type_id[7]);
        assert(t[1].license_type_id[7] != t[2].license_type_id[7]);
        assert(t[0].license_type_id[7] != t[3].license_type_id[7]);
        assert(t[1].license_type_id[7] != t[3].license_type_id[7]);
        assert(t[2].license_type_id[7] != t[3].license_type_id[7]);
        assert(t[0].license_type_id[7] != t[4].license_type_id[7]);
        assert(t[1].license_type_id[7] != t[4].license_type_id[7]);
        assert(t[2].license_type_id[7] != t[4].license_type_id[7]);
        assert(t[3].license_type_id[27] != t[4].license_type_id[27]);
        assert(t[0].license_type_id[7] != t[5].license_type_id[7]);
        assert(t[1].license_type_id[7] != t[5].license_type_id[7]);
        assert(t[2].license_type_id[7] != t[5].license_type_id[7]);
        assert(t[3].license_type_id[27] != t[5].license_type_id[27]);
        assert(t[4].license_type_id[29] != t[5].license_type_id[29]);
        assert(t[0].license_type_id[7] != t[6].license_type_id[7]);
        assert(t[1].license_type_id[7] != t[6].license_type_id[7]);
        assert(t[2].license_type_id[8] != t[6].license_type_id[8]);
        assert(t[3].license_type_id[7] != t[6].license_type_id[7]);
        assert(t[4].license_type_id[7] != t[6].license_type_id[7]);
        assert(t[5].license_type_id[7] != t[6].license_type_id[7]);
        assert(t[0].license_type_id[7] != t[7].license_type_id[7]);
        assert(t[1].license_type_id[7] != t[7].license_type_id[7]);
        assert(t[2].license_type_id[7] != t[7].license_type_id[7]);
        assert(t[3].license_type_id[7] != t[7].license_type_id[7]);
        assert(t[4].license_type_id[7] != t[7].license_type_id[7]);
        assert(t[5].license_type_id[7] != t[7].license_type_id[7]);
        assert(t[6].license_type_id[7] != t[7].license_type_id[7]);
        reveal_with_fuel(ids_distinct_each, 9);
        reveal_with_fuel(id_fresh_each, 9);
    }
    lemma_ids_distinct_each(t);
}

/// No two licence types of `cvm_license_types` share an identifier.
proof fn lemma_cvm_license_types_ids_distinct()
    ensures
        license_type_ids_distinct(spec_cvm_license_types()),
{
    let t = spec_cvm_license_types();
    assert(ids_distinct_each(t)) by {
        reveal_strlit("br-cvm:crowdfunding-platform");
        reveal_strlit("br-cvm:fund-manager");
        reveal_strlit("br-cvm:investment-adviser");
        reveal_strlit("br-cvm:securities-broker");
        reveal_strlit("br-cvm:securitizer");
        assert(t[0].license_type_id[7] != t[1].license_type_id[7]);
        assert(t[0].license_type_id[15] != t[2].license_type_id[15]);
        assert(t[1].license_type_id[7] != t[2].license_type_id[7]);
        assert(t[0].license_type_id[7] != t[3].license_type_id[7]);
        assert(t[1].license_type_id[7] != t[3].license_type_id[7]);
        assert(t[2].license_type_id[7] != t[3].license_type_id[7]);
        assert(t[0].license_type_id[7] != t[4].license_type_id[7]);
        assert(t[1].license_type_id[7] != t[4].license_type_id[7]);
        assert(t[2].license_type_id[7] != t[4].license_type_id[7]);
        assert(t[3].license_type_id[7] != t[4].license_type_id[7]);
        reveal_with_fuel(ids_distinct_each, 6);
        reveal_with_fuel(id_fresh_each, 6);
    }
    lemma_ids_distinct_each(t);
}

/// No two licence types of `susep_license_types` share an identifier.
proof fn lemma_susep_license_types_ids_distinct()
    ensures
        license_type_ids_distinct(spec_susep_license_types()),
{
    let t = spec_susep_license_types();
    assert(ids_distinct_each(t)) by {
        reveal_strlit("br-susep:insurance-broker");
        reveal_strlit("br-susep:insurance-company");
        reveal_strlit("br-susep:open-pension-fund");
        reveal_strlit("br-susep:reinsurer");
        assert(t[0].license_type_id[9] != t[1].license_type_id[9]);
        assert(t[0].license_type_id[19] != t[2].license_type_id[19]);
        assert(t[1].license_type_id[9] != t[2].license_type_id[9]);
        assert(t[0].license_type_id[9] != t[3].license_type_id[9]);
        assert(t[1].license_type_id[9] != t[3].license_type_id[9]);
        assert(t[2].license_type_id[9] != t[3].license_type_id[9]);
        reveal_with_fuel(ids_distinct_each, 5);
        reveal_with_fuel(id_fresh_each, 5);
    }
    lemma_ids_distinct_each(t);
}

/// No two licence types of `drei_license_types` share an identifier.
proof fn lemma_drei_license_types_ids_distinct()
    ensures
        license_type_ids_distinct(spec_drei_license_types()),
{
    let t = spec_drei_license_types();
    assert(ids_distinct_each(t)) by {
        reveal_strlit("br-drei:eireli");
        reveal_strlit("br-drei:ltda");
        reveal_strlit("br-drei:mei");
        reveal_strlit("br-drei:sa");
        assert(t[0].license_type_id[8] != t[1].license_type_id[8]);
        assert(t[0].license_type_id[8] != t[2].license_type_id[8]);
        assert(t[1].license_type_id[8] != t[2].license_type_id[8]);
        assert(t[0].license_type_id[8] != t[3].license_type_id[8]);
        assert(t[1].license_type_id[8] != t[3].license_type_id[8]);
        assert(t[2].license_type_id[8] != t[3].license_type_id[8]);
        reveal_with_fuel(ids_distinct_each, 5);
        reveal_with_fuel(id_fresh_each, 5);
    }
    lemma_ids_distinct_each(t);
}

/// No licence type of `bcb_license_types` shares an identifier with one of `cvm_license_types`.
proof fn lemma_bcb_license_types_apart_from_cvm_license_types()
    ensures
        license_type_ids_apart(spec_bcb_license_types(), spec_cvm_license_types()),
{
    let a = spec_bcb_license_types();
    let b = spec_cvm_license_types();
    assert(apart_each(a, b)) by {
        reveal_strlit("br-bcb:commercial-bank");
        reveal_strlit("br-bcb:development-bank");
        reveal_strlit("br-bcb:direct-credit-society");
        reveal_strlit("br-bcb:investment-bank");
        reveal_strlit("br-bcb:payment-institution-account");
        reveal_strlit("br-bcb:payment-institution-acquirer");
        reveal_strlit("br-bcb:payment-institution-issuer");
        reveal_strlit("br-bcb:vasp-authorization");
        reveal_strlit("br-cvm:crowdfunding-platform");
        reveal_strlit("br-cvm:fund-manager");
        reveal_strlit("br-cvm:investment-adviser");
        reveal_strlit("br-cvm:securities-broker");
        reveal_strlit("br-cvm:securitizer");
        assert(a[0].license_type_id[3] != b[0].license_type_id[3]);
        assert(a[0].license_type_id[3] != b[1].license_type_id[3]);
        assert(a[0].license_type_id[3] != b[2].license_type_id[3]);
        assert(a[0].license_type_id[3] != b[3].license_type_id[3]);
        assert(a[0].license_type_id[3] != b[4].license_type_id[3]);
        assert(a[1].license_type_id[3] != b[0].license_type_id[3]);
        assert(a[1].license_type_id[3] != b[1].license_type_id[3]);
        assert(a[1].license_type_id[3] != b[2].license_type_id[3]);
        assert(a[1].license_type_id[3] != b[3].license_type_id[3]);
        assert(a[1].license_type_id[3] != b[4].license_type_id[3]);
        assert(a[2].license_type_id[3] != b[0].license_type_id[3]);
        assert(a[2].license_type_id[3] != b[1].license_type_id[3]);
        assert(a[2].license_type_id[3] != b[2].license_type_id[3]);
        assert(a[2].license_type_id[3] != b[3].license_type_id[3]);
        assert(a[2].license_type_id[3] != b[4].license_type_id[3]);
        assert(a[3].license_type_id[3] != b[0].license_type_id[3]);
        assert(a[3].license_type_id[3] != b[1].license_type_id[3]);
        assert(a[3].license_type_id[3] != b[2].license_type_id[3]);
        assert(a[3].license_type_id[3] != b[3].license_type_id[3]);
        assert(a[3].license_type_id[3] != b[4].license_type_id[3]);
        assert(a[4].license_type_id[3] != b[0].license_type_id[3]);
        assert(a[4].license_type_id[3] != b[1].license_type_id[3]);
        assert(a[4].license_type_id[3] != b[2].license_type_id[3]);
        assert(a[4].license_type_id[3] != b[3].license_type_id[3]);
        assert(a[4].license_type_id[3] != b[4].license_type_id[3]);
        assert(a[5].license_type_id[3] != b[0].license_type_id[3]);
        assert(a[5].license_type_id[3] != b[1].license_type_id[3]);
        assert(a[5].license_type_id[3] != b[2].license_type_id[3]);
        assert(a[5].license_type_id[3] != b[3].license_type_id[3]);
        assert(a[5].license_type_id[3] != b[4].license_type_id[3]);
        assert(a[6].license_type_id[3] != b[0].license_type_id[3]);
        assert(a[6].license_type_id[3] != b[1].license_type_id[3]);
        assert(a[6].license_type_id[3] != b[2].license_type_id[3]);
        assert(a[6].license_type_id[3] != b[3].license_type_id[3]);
        assert(a[6].license_type_id[3] != b[4].license_type_id[3]);
        assert(a[7].license_type_id[3] != b[0].license_type_id[3]);
        assert(a[7].license_type_id[3] != b[1].license_type_id[3]);
        assert(a[7].license_type_id[3] != b[2].license_type_id[3]);
        assert(a[7].license_type_id[3] != b[3].license_type_id[3]);
        assert(a[7].license_type_id[3] != b[4].license_type_id[3]);
        reveal_with_fuel(apart_each, 9);
        reveal_with_fuel(id_fresh_each, 6);
    }
    lemma_apart_each(a, b);
}

/// No licence type of `bcb_license_types` shares an identifier with one of `susep_license_types`.
proof fn lemma_bcb_license_types_apart_from_susep_license_types()
    ensures
        license_type_ids_apart(spec_bcb_license_types(), spec_susep_license_types()),
{
    let a = spec_bcb_license_types();
    let b = spec_susep_license_types();
    assert(apart_each(a, b)) by {
        reveal_strlit("br-bcb:commercial-bank");
        reveal_strlit("br-bcb:development-bank");
        reveal_strlit("br-bcb:direct-credit-society");
        reveal_strlit("br-bcb:investment-bank");
        reveal_strlit("br-bcb:payment-institution-account");
        reveal_strlit("br-bcb:payment-institution-acquirer");
        reveal_strlit("br-bcb:payment-institution-issuer");
        reveal_strlit("br-bcb:vasp-authorization");
        reveal_strlit("br-susep:insurance-broker");
        reveal_strlit("br-susep:insurance-company");
        reveal_strlit("br-susep:open-pension-fund");
        reveal_strlit("br-susep:reinsurer");
        assert(a[0].license_type_id[3] != b[0].license_type_id[3]);
        assert(a[0].license_type_id[3] != b[1].license_type_id[3]);
        assert(a[0].license_type_id[3] != b[2].license_type_id[3]);
        assert(a[0].license_type_id[3] != b[3].license_type_id[3]);
        assert(a[1].license_type_id[3] != b[0].license_type_id[3]);
        assert(a[1].license_type_id[3] != b[1].license_type_id[3]);
        assert(a[1].license_type_id[3] != b[2].license_type_id[3]);
        assert(a[1].license_type_id[3] != b[3].license_type_id[3]);
        assert(a[2].license_type_id[3] != b[0].license_type_id[3]);
        assert(a[2].license_type_id[3] != b[1].license_type_id[3]);
        assert(a[2].license_type_id[3] != b[2].license_type_id[3]);
        assert(a[2].license_type_id[3] != b[3].license_type_id[3]);
        assert(a[3].license_type_id[3] != b[0].license_type_id[3]);
        assert(a[3].license_type_id[3] != b[1].license_type_id[3]);
        assert(a[3].license_type_id[3] != b[2].license_type_id[3]);
        assert(a[3].license_type_id[3] != b[3].license_type_id[3]);
        assert(a[4].license_type_id[3] != b[0].license_type_id[3]);
        assert(a[4].license_type_id[3] != b[1].license_type_id[3]);
        assert(a[4].license_type_id[3] != b[2].license_type_id[3]);
        assert(a[4].license_type_id[3] != b[3].license_type_id[3]);
        assert(a[5].license_type_id[3] != b[0].license_type_id[3]);
        assert(a[5].license_type_id[3] != b[1].license_type_id[3]);
        assert(a[5].license_type_id[3] != b[2].license_type_id[3]);
        assert(a[5].license_type_id[3] != b[3].license_type_id[3]);
        assert(a[6].license_type_id[3] != b[0].license_type_id[3]);
        assert(a[6].license_type_id[3] != b[1].license_type_id[3]);
        assert(a[6].license_type_id[3] != b[2].license_type_id[3]);
        assert(a[6].license_type_id[3] != b[3].license_type_id[3]);
        assert(a[7].license_type_id[3] != b[0].license_type_id[3]);
        assert(a[7].license_type_id[3] != b[1].license_type_id[3]);
        assert(a[7].license_type_id[3] != b[2].license_type_id[3]);
        assert(a[7].license_type_id[3] != b[3].license_type_id[3]);
        reveal_with_fuel(apart_each, 9);
        reveal_with_fuel(id_fresh_each, 5);
    }
    lemma_apart_each(a, b);
}

/// No licence type of `bcb_license_types` shares an identifier with one of `drei_license_types`.
proof fn lemma_bcb_license_types_apart_from_drei_license_types()
    ensures
        license_type_ids_apart(spec_bcb_license_types(), spec_drei_license_types()),
{
    let a = spec_bcb_license_types();
    let b = spec_drei_license_types();
    assert(apart_each(a, b)) by {
        reveal_strlit("br-bcb:commercial-bank");
        reveal_strlit("br-bcb:development-bank");
        reveal_strlit("br-bcb:direct-credit-society");
        reveal_strlit("br-bcb:investment-bank");
        reveal_strlit("br-bcb:payment-institution-account");
        reveal_strlit("br-bcb:payment-institution-acquirer");
        reveal_strlit("br-bcb:payment-institution-issuer");
        reveal_strlit("br-bcb:vasp-authorization");
        reveal_strlit("br-drei:eireli");
        reveal_strlit("br-drei:ltda");
        reveal_strlit("br-drei:mei");
        reveal_strlit("br-drei:sa");
        assert(a[0].license_type_id[3] != b[0].license_type_id[3]);
        assert(a[0].license_type_id[3] != b[1].license_type_id[3]);
        assert(a[0].license_type_id[3] != b[2].license_type_id[3]);
        assert(a[0].license_type_id[3] != b[3].license_type_id[3]);
        assert(a[1].license_type_id[3] != b[0].license_type_id[3]);
        assert(a[1].license_type_id[3] != b[1].license_type_id[3]);
        assert(a[1].license_type_id[3] != b[2].license_type_id[3]);
        assert(a[1].license_type_id[3] != b[3].license_type_id[3]);
        assert(a[2].license_type_id[3] != b[0].license_type_id[3]);
        assert(a[2].license_type_id[3] != b[1].license_type_id[3]);
        assert(a[2].license_type_id[3] != b[2].license_type_id[3]);
        assert(a[2].license_type_id[3] != b[3].license_type_id[3]);
        assert(a[3].license_type_id[3] != b[0].license_type_id[3]);
        assert(a[3].license_type_id[3] != b[1].license_type_id[3]);
        assert(a[3].license_type_id[3] != b[2].license_type_id[3]);
        assert(a[3].license_type_id[3] != b[3].license_type_id[3]);
        assert(a[4].license_type_id[3] != b[0].license_type_id[3]);
        assert(a[4].license_type_id[3] != b[1].license_type_id[3]);
        assert(a[4].license_type_id[3] != b[2].license_type_id[3]);
        assert(a[4].license_type_id[3] != b[3].license_type_id[3]);
        assert(a[5].license_type_id[3] != b[0].license_type_id[3]);
        assert(a[5].license_type_id[3] != b[1].license_type_id[3]);
        assert(a[5].license_type_id[3] != b[2].license_type_id[3]);
        assert(a[5].license_type_id[3] != b[3].license_type_id[3]);
        assert(a[6].license_type_id[3] != b[0].license_type_id[3]);
        assert(a[6].license_type_id[3] != b[1].license_type_id[3]);
        assert(a[6].license_type_id[3] != b[2].license_type_id[3]);
        assert(a[6].license_type_id[3] != b[3].license_type_id[3]);
        assert(a[7].license_type_id[3] != b[0].license_type_id[3]);
        assert(a[7].license_type_id[3] != b[1].license_type_id[3]);
        assert(a[7].license_type_id[3] != b[2].license_type_id[3]);
        assert(a[7].license_type_id[3] != b[3].license_type_id[3]);
        reveal_with_fuel(apart_each, 9);
        reveal_with_fuel(id_fresh_each, 5);
    }
    lemma_apart_each(a, b);
}

/// No licence type of `cvm_license_types` shares an identifier with one of `susep_license_types`.
proof fn lemma_cvm_license_types_apart_from_susep_license_types()
    ensures
        license_type_ids_apart(spec_cvm_license_types(), spec_susep_license_types()),
{
    let a = spec_cvm_license_types();
    let b = spec_susep_license_types();
    assert(apart_each(a, b)) by {
        reveal_strlit("br-cvm:crowdfunding-platform");
        reveal_strlit("br-cvm:fund-manager");
        reveal_strlit("br-cvm:investment-adviser");
        reveal_strlit("br-cvm:securities-broker");
        reveal_strlit("br-cvm:securitizer");
        reveal_strlit("br-susep:insurance-broker");
        reveal_strlit("br-susep:insurance-company");
        reveal_strlit("br-susep:open-pension-fund");
        reveal_strlit("br-susep:reinsurer");
        assert(a[0].license_type_id[3] != b[0].license_type_id[3]);
        assert(a[0].license_type_id[3] != b[1].license_type_id[3]);
        assert(a[0].license_type_id[3] != b[2].license_type_id[3]);
        assert(a[0].license_type_id[3] != b[3].license_type_id[3]);
        assert(a[1].license_type_id[3] != b[0].license_type_id[3]);
        assert(a[1].license_type_id[3] != b[1].license_type_id[3]);
        assert(a[1].license_type_id[3] != b[2].license_type_id[3]);
        assert(a[1].license_type_id[3] != b[3].license_type_id[3]);
        assert(a[2].license_type_id[3] != b[0].license_type_id[3]);
        assert(a[2].license_type_id[3] != b[1].license_type_id[3]);
        assert(a[2].license_type_id[3] != b[2].license_type_id[3]);
        assert(a[2].license_type_id[3] != b[3].license_type_id[3]);
        assert(a[3].license_type_id[3] != b[0].license_type_id[3]);
        assert(a[3].license_type_id[3] != b[1].license_type_id[3]);
        assert(a[3].license_type_id[3] != b[2].license_type_id[3]);
        assert(a[3].license_type_id[3] != b[3].license_type_id[3]);
        assert(a[4].license_type_id[3] != b[0].license_type_id[3]);
        assert(a[4].license_type_id[3] != b[1].license_type_id[3]);
        assert(a[4].license_type_id[3] != b[2].license_type_id[3]);
        assert(a[4].license_type_id[3] != b[3].license_type_id[3]);
        reveal_with_fuel(apart_each, 6);
        reveal_with_fuel(id_fresh_each, 5);
    }
    lemma_apart_each(a, b);
}

/// No licence type of `cvm_license_types` shares an identifier with one of `drei_license_types`.
proof fn lemma_cvm_license_types_apart_from_drei_license_types()
    ensures
        license_type_ids_apart(spec_cvm_license_types(), spec_drei_license_types()),
{
    let a = spec_cvm_license_types();
    let b = spec_drei_license_types();
    assert(apart_each(a, b)) by {
        reveal_strlit("br-cvm:crowdfunding-platform");
        reveal_strlit("br-cvm:fund-manager");
        reveal_strlit("br-cvm:investment-adviser");
        reveal_strlit("br-cvm:securities-broker");
        reveal_strlit("br-cvm:securitizer");
        reveal_strlit("br-drei:eireli");
        reveal_strlit("br-drei:ltda");
        reveal_strlit("br-drei:mei");
        reveal_strlit("br-drei:sa");
        assert(a[0].license_type_id[3] != b[0].license_type_id[3]);
        assert(a[0].license_type_id[3] != b[1].license_type_id[3]);
        assert(a[0].license_type_id[3] != b[2].license_type_id[3]);
        assert(a[0].license_type_id[3] != b[3].license_type_id[3]);
        assert(a[1].license_type_id[3] != b[0].license_type_id[3]);
        assert(a[1].license_type_id[3] != b[1].license_type_id[3]);
        assert(a[1].license_type_id[3] != b[2].license_type_id[3]);
        assert(a[1].license_type_id[3] != b[3].license_type_id[3]);
        assert(a[2].license_type_id[3] != b[0].license_type_id[3]);
        assert(a[2].license_type_id[3] != b[1].license_type_id[3]);
        assert(a[2].license_type_id[3] != b[2].license_type_id[3]);
        assert(a[2].license_type_id[3] != b[3].license_type_id[3]);
        assert(a[3].license_type_id[3] != b[0].license_type_id[3]);
        assert(a[3].license_type_id[3] != b[1].license_type_id[3]);
        assert(a[3].license_type_id[3] != b[2].license_type_id[3]);
        assert(a[3].license_type_id[3] != b[3].license_type_id[3]);
        assert(a[4].license_type_id[3] != b[0].license_type_id[3]);
        assert(a[4].license_type_id[3] != b[1].license_type_id[3]);
        assert(a[4].license_type_id[3] != b[2].license_type_id[3]);
        assert(a[4].license_type_id[3] != b[3].license_type_id[3]);
        reveal_with_fuel(apart_each, 6);
        reveal_with_fuel(id_fresh_each, 5);
    }
    lemma_apart_each(a, b);
}

/// No licence type of `susep_license_types` shares an identifier with one of `drei_license_types`.
proof fn lemma_susep_license_types_apart_from_drei_license_types()
    ensures
        license_type_ids_apart(spec_susep_license_types(), spec_drei_license_types()),
{
    let a = spec_susep_license_types();
    let b = spec_drei_license_types();
    assert(apart_each(a, b)) by {
        reveal_strlit("br-drei:eireli");
        reveal_strlit("br-drei:ltda");
        reveal_strlit("br-drei:mei");
        reveal_strlit("br-drei:sa");
        reveal_strlit("br-susep:insurance-broker");
        reveal_strlit("br-susep:insurance-company");
        reveal_strlit("br-susep:open-pension-fund");
        reveal_strlit("br-susep:reinsurer");
        assert(a[0].license_type_id[3] != b[0].license_type_id[3]);
        assert(a[0].license_type_id[3] != b[1].license_type_id[3]);
        assert(a[0].license_type_id[3] != b[2].license_type_id[3]);
        assert(a[0].license_type_id[3] != b[3].license_type_id[3]);
        assert(a[1].license_type_id[3] != b[0].license_type_id[3]);
        assert(a[1].license_type_id[3] != b[1].license_type_id[3]);
        assert(a[1].license_type_id[3] != b[2].license_type_id[3]);
        assert(a[1].license_type_id[3] != b[3].license_type_id[3]);
        assert(a[2].license_type_id[3] != b[0].license_type_id[3]);
        assert(a[2].license_type_id[3] != b[1].license_type_id[3]);
        assert(a[2].license_type_id[3] != b[2].license_type_id[3]);
        assert(a[2].license_type_id[3] != b[3].license_type_id[3]);
        assert(a[3].license_type_id[3] != b[0].license_type_id[3]);
        assert(a[3].license_type_id[3] != b[1].license_type_id[3]);
        assert(a[3].license_type_id[3] != b[2].license_type_id[3]);
        assert(a[3].license_type_id[3] != b[3].license_type_id[3]);
        reveal_with_fuel(apart_each, 5);
        reveal_with_fuel(id_fresh_each, 5);
    }
    lemma_apart_each(a, b);
}

/// No two licence types of `brazil_license_types` share an identifier.
pub proof fn lemma_brazil_license_type_ids_distinct()
    ensures
        license_type_ids_distinct(spec_brazil_license_types()),
{
    lemma_bcb_license_types_ids_distinct();
    lemma_cvm_license_types_ids_distinct();
    lemma_susep_license_types_ids_distinct();
    lemma_drei_license_types_ids_distinct();
    assert(spec_brazil_license_types() =~= spec_bcb_license_types() + spec_cvm_license_types() + spec_susep_license_types() + spec_drei_license_types());
    let acc = spec_bcb_license_types();
    lemma_bcb_license_types_apart_from_cvm_license_types();
    let part = spec_bcb_license_types();
    lemma_ids_distinct_append(acc, spec_cvm_license_types());
    let acc = acc + spec_cvm_license_types();
    lemma_bcb_license_types_apart_from_susep_license_types();
    lemma_cvm_license_types_apart_from_susep_license_types();
    let part = spec_bcb_license_types();
    lemma_ids_apart_append(part, spec_cvm_license_types(), spec_susep_license_types());
    let part = part + spec_cvm_license_types();
    lemma_ids_distinct_append(acc, spec_susep_license_types());
    let acc = acc + spec_susep_license_types();
    lemma_bcb_license_types_apart_from_drei_license_types();
    lemma_cvm_license_types_apart_from_drei_license_types();
    lemma_susep_license_types_apart_from_drei_license_types();
    let part = spec_bcb_license_types();
    lemma_ids_apart_append(part, spec_cvm_license_types(), spec_drei_license_types());
    let part = part + spec_cvm_license_types();
    lemma_ids_apart_append(part, spec_susep_license_types(), spec_drei_license_types());
    let part = part + spec_susep_license_types();
    lemma_ids_distinct_append(acc, spec_drei_license_types());
    let acc = acc + spec_drei_license_types();
    assert(spec_brazil_license_types() == acc);
}

/// Each licence-type identifier of `bcb_license_types` starts with its regulator's
/// identifier and a colon.
proof fn lemma_bcb_license_types_prefixed()
    ensures
        license_type_ids_prefixed(spec_bcb_license_types()),
{
    let ts = spec_bcb_license_types();
    assert(license_type_id_prefixed(ts[0])) by {
        reveal_strlit("br-bcb:commercial-bank");
        reveal_strlit("br-bcb");
        reveal_strlit(":");
        assert(ts[0].license_type_id.subrange(0, (ts[0].regulator_id + ":"@).len() as int) =~= ts[0].regulator_id + ":"@);
    }
    assert(license_type_id_prefixed(ts[1])) by {
        reveal_strlit("br-bcb:investment-bank");
        reveal_strlit("br-bcb");
        reveal_strlit(":");
        assert(ts[1].license_type_id.subrange(0, (ts[1].regulator_id + ":"@).len() as int) =~= ts[1].regulator_id + ":"@);
    }
    assert(license_type_id_prefixed(ts[2])) by {
        reveal_strlit("br-bcb:development-bank");
        reveal_strlit("br-bcb");
        reveal_strlit(":");
        assert(ts[2].license_type_id.subrange(0, (ts[2].regulator_id + ":"@).len() as int) =~= ts[2].regulator_id + ":"@);
    }
    assert(license_type_id_prefixed(ts[3])) by {
        reveal_strlit("br-bcb:payment-institution-issuer");
        reveal_strlit("br-bcb");
        reveal_strlit(":");
        assert(ts[3].license_type_id.subrange(0, (ts[3].regulator_id + ":"@).len() as int) =~= ts[3].regulator_id + ":"@);
    }
    assert(license_type_id_prefixed(ts[4])) by {
        reveal_strlit("br-bcb:payment-institution-acquirer");
        reveal_strlit("br-bcb");
        reveal_strlit(":");
        assert(ts[4].license_type_id.subrange(0, (ts[4].regulator_id + ":"@).len() as int) =~= ts[4].regulator_id + ":"@);
    }
    assert(license_type_id_prefixed(ts[5])) by {
        reveal_strlit("br-bcb:payment-institution-account");
        reveal_strlit("br-bcb");
        reveal_strlit(":");
        assert(ts[5].license_type_id.subrange(0, (ts[5].regulator_id + ":"@).len() as int) =~= ts[5].regulator_id + ":"@);
    }
    assert(license_type_id_prefixed(ts[6])) by {
        reveal_strlit("br-bcb:direct-credit-society");
        reveal_strlit("br-bcb");
        reveal_strlit(":");
        assert(ts[6].license_type_id.subrange(0, (ts[6].regulator_id + ":"@).len() as int) =~= ts[6].regulator_id + ":"@);
    }
    assert(license_type_id_prefixed(ts[7])) by {
        reveal_strlit("br-bcb:vasp-authorization");
        reveal_strlit("br-bcb");
        reveal_strlit(":");
        assert(ts[7].license_type_id.subrange(0, (ts[7].regulator_id + ":"@).len() as int) =~= ts[7].regulator_id + ":"@);
    }
    assert(prefixed_each(ts)) by {
        reveal_with_fuel(prefixed_each, 9);
    }
    lemma_prefixed_each(ts);
}

/// Each licence-type identifier of `cvm_license_types` starts with its regulator's
/// identifier and a colon.
proof fn lemma_cvm_license_types_prefixed()
    ensures
        license_type_ids_prefixed(spec_cvm_license_types()),
{
    let ts = spec_cvm_license_types();
    assert(license_type_id_prefixed(ts[0])) by {
        reveal_strlit("br-cvm:securities-broker");
        reveal_strlit("br-cvm");
        reveal_strlit(":");
        assert(ts[0].license_type_id.subrange(0, (ts[0].regulator_id + ":"@).len() as int) =~= ts[0].regulator_id + ":"@);
    }
    assert(license_type_id_prefixed(ts[1])) by {
        reveal_strlit("br-cvm:fund-manager");
        reveal_strlit("br-cvm");
        reveal_strlit(":");
        assert(ts[1].license_type_id.subrange(0, (ts[1].regulator_id + ":"@).len() as int) =~= ts[1].regulator_id + ":"@);
    }
    assert(license_type_id_prefixed(ts[2])) by {
        reveal_strlit("br-cvm:securitizer");
        reveal_strlit("br-cvm");
        reveal_strlit(":");
        assert(ts[2].license_type_id.subrange(0, (ts[2].regulator_id + ":"@).len() as int) =~= ts[2].regulator_id + ":"@);
    }
    assert(license_type_id_prefixed(ts[3])) by {
        reveal_strlit("br-cvm:investment-adviser");
        reveal_strlit("br-cvm");
        reveal_strlit(":");
        assert(ts[3].license_type_id.subrange(0, (ts[3].regulator_id + ":"@).len() as int) =~= ts[3].regulator_id + ":"@);
    }
    assert(license_type_id_prefixed(ts[4])) by {
        reveal_strlit("br-cvm:crowdfunding-platform");
        reveal_strlit("br-cvm");
        reveal_strlit(":");
        assert(ts[4].license_type_id.subrange(0, (ts[4].regulator_id + ":"@).len() as int) =~= ts[4].regulator_id + ":"@);
    }
    assert(prefixed_each(ts)) by {
        reveal_with_fuel(prefixed_each, 6);
    }
    lemma_prefixed_each(ts);
}

/// Each licence-type identifier of `susep_license_types` starts with its regulator's
/// identifier and a colon.
proof fn lemma_susep_license_types_prefixed()
    ensures
        license_type_ids_prefixed(spec_susep_license_types()),
{
    let ts = spec_susep_license_types();
    assert(license_type_id_prefixed(ts[0])) by {
        reveal_strlit("br-susep:insurance-company");
        reveal_strlit("br-susep");
        reveal_strlit(":");
        assert(ts[0].license_type_id.subrange(0, (ts[0].regulator_id + ":"@).len() as int) =~= ts[0].regulator_id + ":"@);
    }
    assert(license_type_id_prefixed(ts[1])) by {
        reveal_strlit("br-susep:reinsurer");
        reveal_strlit("br-susep");
        reveal_strlit(":");
        assert(ts[1].license_type_id.subrange(0, (ts[1].regulator_id + ":"@).len() as int) =~= ts[1].regulator_id + ":"@);
    }
    assert(license_type_id_prefixed(ts[2])) by {
        reveal_strlit("br-susep:insurance-broker");
        reveal_strlit("br-susep");
        reveal_strlit(":");
        assert(ts[2].license_type_id.subrange(0, (ts[2].regulator_id + ":"@).len() as int) =~= ts[2].regulator_id + ":"@);
    }
    assert(license_type_id_prefixed(ts[3])) by {
        reveal_strlit("br-susep:open-pension-fund");
        reveal_strlit("br-susep");
        reveal_strlit(":");
        assert(ts[3].license_type_id.subrange(0, (ts[3].regulator_id + ":"@).len() as int) =~= ts[3].regulator_id + ":"@);
    }
    assert(prefixed_each(ts)) by {
        reveal_with_fuel(prefixed_each, 5);
    }
    lemma_prefixed_each(ts);
}

/// Each licence-type identifier of `drei_license_types` starts with its regulator's
/// identifier and a colon.
proof fn lemma_drei_license_types_prefixed()
    ensures
        license_type_ids_prefixed(spec_drei_license_types()),
{
    let ts = spec_drei_license_types();
    assert(license_type_id_prefixed(ts[0])) by {
        reveal_strlit("br-drei:sa");
        reveal_strlit("br-drei");
        reveal_strlit(":");
        assert(ts[0].license_type_id.subrange(0, (ts[0].regulator_id + ":"@).len() as int) =~= ts[0].regulator_id + ":"@);
    }
    assert(license_type_id_prefixed(ts[1])) by {
        reveal_strlit("br-drei:ltda");
        reveal_strlit("br-drei");
        reveal_strlit(":");
        assert(ts[1].license_type_id.subrange(0, (ts[1].regulator_id + ":"@).len() as int) =~= ts[1].regulator_id + ":"@);
    }
    assert(license_type_id_prefixed(ts[2])) by {
        reveal_strlit("br-drei:eireli");
        reveal_strlit("br-drei");
        reveal_strlit(":");
        assert(ts[2].license_type_id.subrange(0, (ts[2].regulator_id + ":"@).len() as int) =~= ts[2].regulator_id + ":"@);
    }
    assert(license_type_id_prefixed(ts[3])) by {
        reveal_strlit("br-drei:mei");
        reveal_strlit("br-drei");
        reveal_strlit(":");
        assert(ts[3].license_type_id.subrange(0, (ts[3].regulator_id + ":"@).len() as int) =~= ts[3].regulator_id + ":"@);
    }
    assert(prefixed_each(ts)) by {
        reveal_with_fuel(prefixed_each, 5);
    }
    lemma_prefixed_each(ts);
}

/// Every licence-type identifier of the Brazilian catalog starts with the
/// identifier of the regulator that grants it, followed by a colon.
pub proof fn lemma_brazil_license_types_prefixed()
    ensures
        license_type_ids_prefixed(spec_brazil_license_types()),
{
    lemma_bcb_license_types_prefixed();
    lemma_cvm_license_types_prefixed();
    lemma_susep_license_types_prefixed();
    lemma_drei_license_types_prefixed();
    lemma_prefixed_append(spec_bcb_license_types(), spec_cvm_license_types());
    lemma_prefixed_append(spec_bcb_license_types() + spec_cvm_license_types(), spec_susep_license_types());
    lemma_prefixed_append(spec_bcb_license_types() + spec_cvm_license_types() + spec_susep_license_types(), spec_drei_license_types());
    assert(spec_brazil_license_types() =~= spec_bcb_license_types() + spec_cvm_license_types() + spec_susep_license_types() + spec_drei_license_types());
}

} // verus!
