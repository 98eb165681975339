//! # Additional Jurisdiction Regulatory Authority License Mappings
//!
//! Covers remaining jurisdictions referenced on momentum.inc in a single
//! consolidated module:
//!
//! | Jurisdiction | ID | Regulators |
//! |---|---|---|
//! | Portugal | `pt` | BdP, CMVM |
//! | Indonesia | `id` | OJK, BI |
//! | South Africa | `za` | SARB, FSCA |
//! | Egypt | `eg` | CBE, FRA |
//! | Tanzania | `tz` | BOT |
//! | Zanzibar | `tz-zanzibar` | Zanzibar Business Registration |
//! | Ireland | `ie` | CBI, CRO |
//!
//! Each authority is represented as a [`LicensepackRegulator`] with its
//! associated [`LicenseTypeDefinition`] entries. These definitions provide
//! the jurisdiction-specific license taxonomy used by the compliance tensor's
//! LICENSING domain evaluation.

use vstd::prelude::*;

use crate::license::{
    license_type, license_type_view, license_types_view, regulator, regulator_view,
    regulators_view, LicenseTypeDefinition, LicenseTypeView, LicensepackRegulator,
    RegulatorView, RequirementValue,
    lemma_license_types_view_append, lemma_regulators_view_append,
};

use crate::catalog::{
    apart_each, id_fresh_each, ids_distinct_each, lemma_apart_each, lemma_ids_apart_append, lemma_ids_distinct_append, lemma_ids_distinct_each, license_type_ids_apart, license_type_ids_distinct, complete_each, every_regulator_grants, granted_by_each, granted_by_listed_regulators, grants_each, grants_some, lemma_complete_append, lemma_complete_each, lemma_every_combine, lemma_granted_by_each, lemma_granted_combine, lemma_grants_each, license_types_complete,
};

use crate::catalog::{
    lemma_prefixed_append, lemma_prefixed_each, license_type_id_prefixed, license_type_ids_prefixed,
    prefixed_each,
};

verus! {

/// The view of `bdp_regulator`.
pub open spec fn spec_bdp_regulator() -> RegulatorView {
    regulator_view(
        "pt-bdp"@,
        "Banco de Portugal"@,
        "pt"@,
        Some("https://www.bportugal.pt"@),
        seq!["institution_registry"@],
    )
}

/// BdP regulator profile.
pub fn bdp_regulator() -> (r: LicensepackRegulator)
    ensures
        r@ == spec_bdp_regulator(),
        r@ == regulator_view(
            "pt-bdp"@,
            "Banco de Portugal"@,
            "pt"@,
            Some("https://www.bportugal.pt"@),
            seq!["institution_registry"@],
        ),
{
    let r =
        regulator(
            "pt-bdp",
            "Banco de Portugal",
            "pt",
            Some("https://www.bportugal.pt"),
            &["institution_registry"],
        );
    proof {
        assert(r@ =~~= spec_bdp_regulator());
    }
    r
}

/// The view of `bdp_license_types`.
pub open spec fn spec_bdp_license_types() -> Seq<LicenseTypeView> {
    seq![
        license_type_view(
            "pt-bdp:credit-institution"@,
            "Credit Institution Authorization"@,
            "Authorization to operate as a credit institution in Portugal"@,
            "pt-bdp"@,
            Some("financial"@),
            seq!["deposit_taking"@, "lending"@, "payment_services"@],
            seq![],
            seq![],
            seq![],
            None,
        ),
        license_type_view(
            "pt-bdp:payment-institution"@,
            "Payment Institution Authorization"@,
            "Authorization to operate as a payment institution under PSD2 in Portugal"@,
            "pt-bdp"@,
            Some("financial"@),
            seq!["payment_processing"@, "payment_initiation"@, "account_information"@],
            seq![],
            seq![],
            seq![],
            None,
        ),
        license_type_view(
            "pt-bdp:e-money-institution"@,
            "Electronic Money Institution Authorization"@,
            "Authorization to issue electronic money in Portugal"@,
            "pt-bdp"@,
            Some("financial"@),
            seq!["issuing_e_money"@, "payment_services"@],
            seq![],
            seq![],
            seq![],
            None,
        ),
        license_type_view(
            "pt-bdp:vasp"@,
            "VASP Registration"@,
            "Registration as a virtual asset service provider with Banco de Portugal"@,
            "pt-bdp"@,
            Some("financial"@),
            seq!["virtual_asset_exchange"@, "virtual_asset_custody"@, "virtual_asset_transfer"@],
            seq![],
            seq![],
            seq![],
            Some(3i32),
        ),
        license_type_view(
            "pt-bdp:forex-dealer"@,
            "Foreign Exchange Dealer Authorization"@,
            "Authorization to provide foreign exchange services in Portugal"@,
            "pt-bdp"@,
            Some("financial"@),
            seq!["foreign_exchange"@, "currency_exchange"@],
            seq![],
            seq![],
            seq![],
            None,
        )
    ]
}

/// BdP license type definitions.
pub fn bdp_license_types() -> (r: Vec<LicenseTypeDefinition>)
    ensures
        license_types_view(r@) == spec_bdp_license_types(),
        license_types_view(r@) == seq![
            license_type_view(
                "pt-bdp:credit-institution"@,
                "Credit Institution Authorization"@,
                "Authorization to operate as a credit institution in Portugal"@,
                "pt-bdp"@,
                Some("financial"@),
                seq!["deposit_taking"@, "lending"@, "payment_services"@],
                seq![],
                seq![],
                seq![],
                None,
            ),
            license_type_view(
                "pt-bdp:payment-institution"@,
                "Payment Institution Authorization"@,
                "Authorization to operate as a payment institution under PSD2 in Portugal"@,
                "pt-bdp"@,
                Some("financial"@),
                seq!["payment_processing"@, "payment_initiation"@, "account_information"@],
                seq![],
                seq![],
                seq![],
                None,
            ),
            license_type_view(
                "pt-bdp:e-money-institution"@,
                "Electronic Money Institution Authorization"@,
                "Authorization to issue electronic money in Portugal"@,
                "pt-bdp"@,
                Some("financial"@),
                seq!["issuing_e_money"@, "payment_services"@],
                seq![],
                seq![],
                seq![],
                None,
            ),
            license_type_view(
                "pt-bdp:vasp"@,
                "VASP Registration"@,
                "Registration as a virtual asset service provider with Banco de Portugal"@,
                "pt-bdp"@,
                Some("financial"@),
                seq!["virtual_asset_exchange"@, "virtual_asset_custody"@, "virtual_asset_transfer"@],
                seq![],
                seq![],
                seq![],
                Some(3i32),
            ),
            license_type_view(
                "pt-bdp:forex-dealer"@,
                "Foreign Exchange Dealer Authorization"@,
                "Authorization to provide foreign exchange services in Portugal"@,
                "pt-bdp"@,
                Some("financial"@),
                seq!["foreign_exchange"@, "currency_exchange"@],
                seq![],
                seq![],
                seq![],
                None,
            )
        ],
{
    let r = vec![
        license_type(
            "pt-bdp:credit-institution",
            "Credit Institution Authorization",
            "Authorization to operate as a credit institution in Portugal",
            "pt-bdp",
            Some("financial"),
            &["deposit_taking", "lending", "payment_services"],
            &[],
            &[],
            &[],
            None,
        ),
        license_type(
            "pt-bdp:payment-institution",
            "Payment Institution Authorization",
            "Authorization to operate as a payment institution under PSD2 in Portugal",
            "pt-bdp",
            Some("financial"),
            &["payment_processing", "payment_initiation", "account_information"],
            &[],
            &[],
            &[],
            None,
        ),
        license_type(
            "pt-bdp:e-money-institution",
            "Electronic Money Institution Authorization",
            "Authorization to issue electronic money in Portugal",
            "pt-bdp",
            Some("financial"),
            &["issuing_e_money", "payment_services"],
            &[],
            &[],
            &[],
            None,
        ),
        license_type(
            "pt-bdp:vasp",
            "VASP Registration",
            "Registration as a virtual asset service provider with Banco de Portugal",
            "pt-bdp",
            Some("financial"),
            &["virtual_asset_exchange", "virtual_asset_custody", "virtual_asset_transfer"],
            &[],
            &[],
            &[],
            Some(3i32),
        ),
        license_type(
            "pt-bdp:forex-dealer",
            "Foreign Exchange Dealer Authorization",
            "Authorization to provide foreign exchange services in Portugal",
            "pt-bdp",
            Some("financial"),
            &["foreign_exchange", "currency_exchange"],
            &[],
            &[],
            &[],
            None,
        )
    ];
    proof {
        assert(license_types_view(r@) =~~= spec_bdp_license_types());
    }
    r
}

/// The view of `cmvm_regulator`.
pub open spec fn spec_cmvm_regulator() -> RegulatorView {
    regulator_view(
        "pt-cmvm"@,
        "Comissao do Mercado de Valores Mobiliarios"@,
        "pt"@,
        Some("https://www.cmvm.pt"@),
        seq!["entity_registry"@],
    )
}

/// CMVM regulator profile.
pub fn cmvm_regulator() -> (r: LicensepackRegulator)
    ensures
        r@ == spec_cmvm_regulator(),
        r@ == regulator_view(
            "pt-cmvm"@,
            "Comissao do Mercado de Valores Mobiliarios"@,
            "pt"@,
            Some("https://www.cmvm.pt"@),
            seq!["entity_registry"@],
        ),
{
    let r =
        regulator(
            "pt-cmvm",
            "Comissao do Mercado de Valores Mobiliarios",
            "pt",
            Some("https://www.cmvm.pt"),
            &["entity_registry"],
        );
    proof {
        assert(r@ =~~= spec_cmvm_regulator());
    }
    r
}

/// The view of `cmvm_license_types`.
pub open spec fn spec_cmvm_license_types() -> Seq<LicenseTypeView> {
    seq![
        license_type_view(
            "pt-cmvm:investment-firm"@,
            "Investment Firm Authorization"@,
            "Authorization to operate as an investment firm in Portugal under MiFID II"@,
            "pt-cmvm"@,
            Some("financial"@),
            seq!["securities_dealing"@, "portfolio_management"@, "investment_advisory"@],
            seq![],
            seq![],
            seq![],
            None,
        ),
        license_type_view(
            "pt-cmvm:fund-manager"@,
            "Fund Management Company Authorization"@,
            "Authorization to manage investment funds in Portugal"@,
            "pt-cmvm"@,
            Some("financial"@),
            seq!["fund_management"@, "ucits_management"@, "aif_management"@],
            seq![],
            seq![],
            seq![],
            None,
        ),
        license_type_view(
            "pt-cmvm:venture-capital"@,
            "Venture Capital Company Registration"@,
            "Registration to operate as a venture capital company in Portugal"@,
            "pt-cmvm"@,
            Some("financial"@),
            seq!["venture_capital"@, "private_equity"@],
            seq![],
            seq![],
            seq![],
            None,
        ),
        license_type_view(
            "pt-cmvm:financial-intermediary"@,
            "Financial Intermediary Registration"@,
            "Registration as a tied agent or financial intermediary in Portugal"@,
            "pt-cmvm"@,
            Some("financial"@),
            seq!["order_reception"@, "investment_advisory"@],
            seq![],
            seq![],
            seq![],
            Some(3i32),
        ),
        license_type_view(
            "pt-cmvm:crowdfunding-platform"@,
            "Crowdfunding Platform Authorization"@,
            "Authorization to operate a crowdfunding platform under ECSPR in Portugal"@,
            "pt-cmvm"@,
            Some("financial"@),
            seq!["crowdfunding_platform"@, "equity_crowdfunding"@],
            seq![],
            seq![],
            seq![],
            Some(3i32),
        )
    ]
}

/// CMVM license type definitions.
pub fn cmvm_license_types() -> (r: Vec<LicenseTypeDefinition>)
    ensures
        license_types_view(r@) == spec_cmvm_license_types(),
        license_types_view(r@) == seq![
            license_type_view(
                "pt-cmvm:investment-firm"@,
                "Investment Firm Authorization"@,
                "Authorization to operate as an investment firm in Portugal under MiFID II"@,
                "pt-cmvm"@,
                Some("financial"@),
                seq!["securities_dealing"@, "portfolio_management"@, "investment_advisory"@],
                seq![],
                seq![],
                seq![],
                None,
            ),
            license_type_view(
                "pt-cmvm:fund-manager"@,
                "Fund Management Company Authorization"@,
                "Authorization to manage investment funds in Portugal"@,
                "pt-cmvm"@,
                Some("financial"@),
                seq!["fund_management"@, "ucits_management"@, "aif_management"@],
                seq![],
                seq![],
                seq![],
                None,
            ),
            license_type_view(
                "pt-cmvm:venture-capital"@,
                "Venture Capital Company Registration"@,
                "Registration to operate as a venture capital company in Portugal"@,
                "pt-cmvm"@,
                Some("financial"@),
                seq!["venture_capital"@, "private_equity"@],
                seq![],
                seq![],
                seq![],
                None,
            ),
            license_type_view(
                "pt-cmvm:financial-intermediary"@,
                "Financial Intermediary Registration"@,
                "Registration as a tied agent or financial intermediary in Portugal"@,
                "pt-cmvm"@,
                Some("financial"@),
                seq!["order_reception"@, "investment_advisory"@],
                seq![],
                seq![],
                seq![],
                Some(3i32),
            ),
            license_type_view(
                "pt-cmvm:crowdfunding-platform"@,
                "Crowdfunding Platform Authorization"@,
                "Authorization to operate a crowdfunding platform under ECSPR in Portugal"@,
                "pt-cmvm"@,
                Some("financial"@),
                seq!["crowdfunding_platform"@, "equity_crowdfunding"@],
                seq![],
                seq![],
                seq![],
                Some(3i32),
            )
        ],
{
    let r = vec![
        license_type(
            "pt-cmvm:investment-firm",
            "Investment Firm Authorization",
            "Authorization to operate as an investment firm in Portugal under MiFID II",
            "pt-cmvm",
            Some("financial"),
            &["securities_dealing", "portfolio_management", "investment_advisory"],
            &[],
            &[],
            &[],
            None,
        ),
        license_type(
            "pt-cmvm:fund-manager",
            "Fund Management Company Authorization",
            "Authorization to manage investment funds in Portugal",
            "pt-cmvm",
            Some("financial"),
            &["fund_management", "ucits_management", "aif_management"],
            &[],
            &[],
            &[],
            None,
        ),
        license_type(
            "pt-cmvm:venture-capital",
            "Venture Capital Company Registration",
            "Registration to operate as a venture capital company in Portugal",
            "pt-cmvm",
            Some("financial"),
            &["venture_capital", "private_equity"],
            &[],
            &[],
            &[],
            None,
        ),
        license_type(
            "pt-cmvm:financial-intermediary",
            "Financial Intermediary Registration",
            "Registration as a tied agent or financial intermediary in Portugal",
            "pt-cmvm",
            Some("financial"),
            &["order_reception", "investment_advisory"],
            &[],
            &[],
            &[],
            Some(3i32),
        ),
        license_type(
            "pt-cmvm:crowdfunding-platform",
            "Crowdfunding Platform Authorization",
            "Authorization to operate a crowdfunding platform under ECSPR in Portugal",
            "pt-cmvm",
            Some("financial"),
            &["crowdfunding_platform", "equity_crowdfunding"],
            &[],
            &[],
            &[],
            Some(3i32),
        )
    ];
    proof {
        assert(license_types_view(r@) =~~= spec_cmvm_license_types());
    }
    r
}

/// The view of `ojk_regulator`.
pub open spec fn spec_ojk_regulator() -> RegulatorView {
    regulator_view(
        "id-ojk"@,
        "Otoritas Jasa Keuangan"@,
        "id"@,
        Some("https://www.ojk.go.id"@),
        seq!["institution_registry"@, "license_status"@],
    )
}

/// OJK regulator profile.
pub fn ojk_regulator() -> (r: LicensepackRegulator)
    ensures
        r@ == spec_ojk_regulator(),
        r@ == regulator_view(
            "id-ojk"@,
            "Otoritas Jasa Keuangan"@,
            "id"@,
            Some("https://www.ojk.go.id"@),
            seq!["institution_registry"@, "license_status"@],
        ),
{
    let r =
        regulator(
            "id-ojk",
            "Otoritas Jasa Keuangan",
            "id",
            Some("https://www.ojk.go.id"),
            &["institution_registry", "license_status"],
        );
    proof {
        assert(r@ =~~= spec_ojk_regulator());
    }
    r
}

/// The view of `ojk_license_types`.
pub open spec fn spec_ojk_license_types() -> Seq<LicenseTypeView> {
    seq![
        license_type_view(
            "id-ojk:commercial-bank"@,
            "Commercial Banking License"@,
            "License to operate as a commercial bank under OJK regulation"@,
            "id-ojk"@,
            Some("financial"@),
            seq!["deposit_taking"@, "lending"@, "trade_finance"@, "foreign_exchange"@],
            seq![],
            seq![],
            seq![],
            None,
        ),
        license_type_view(
            "id-ojk:insurance"@,
            "Insurance License"@,
            "License to operate as an insurance company in Indonesia"@,
            "id-ojk"@,
            Some("insurance"@),
            seq!["general_insurance"@, "life_insurance"@],
            seq![],
            seq![],
            seq![],
            Some(1i32),
        ),
        license_type_view(
            "id-ojk:securities-company"@,
            "Securities Company License"@,
            "License to operate as a securities company in Indonesia"@,
            "id-ojk"@,
            Some("financial"@),
            seq!["securities_brokerage"@, "underwriting"@, "investment_management"@],
            seq![],
            seq![],
            seq![],
            Some(3i32),
        ),
        license_type_view(
            "id-ojk:fintech-lending"@,
            "Fintech Lending License"@,
            "License to operate a peer-to-peer lending platform under OJK regulation"@,
            "id-ojk"@,
            Some("financial"@),
            seq!["peer_to_peer_lending"@, "digital_lending"@],
            seq![],
            seq![],
            seq![],
            Some(3i32),
        ),
        license_type_view(
            "id-ojk:multifinance"@,
            "Multifinance Company License"@,
            "License to operate as a multifinance company in Indonesia"@,
            "id-ojk"@,
            Some("financial"@),
            seq!["consumer_finance"@, "leasing"@, "factoring"@],
            seq![],
            seq![],
            seq![],
            Some(3i32),
        ),
        license_type_view(
            "id-ojk:digital-bank"@,
            "Digital Banking License"@,
            "License to operate as a digital bank under OJK regulation"@,
            "id-ojk"@,
            Some("financial"@),
            seq!["digital_banking"@, "deposit_taking"@, "digital_lending"@],
            seq![],
            seq![],
            seq![],
            None,
        )
    ]
}

/// OJK license type definitions.
pub fn ojk_license_types() -> (r: Vec<LicenseTypeDefinition>)
    ensures
        license_types_view(r@) == spec_ojk_license_types(),
        license_types_view(r@) == seq![
            license_type_view(
                "id-ojk:commercial-bank"@,
                "Commercial Banking License"@,
                "License to operate as a commercial bank under OJK regulation"@,
                "id-ojk"@,
                Some("financial"@),
                seq!["deposit_taking"@, "lending"@, "trade_finance"@, "foreign_exchange"@],
                seq![],
                seq![],
                seq![],
                None,
            ),
            license_type_view(
                "id-ojk:insurance"@,
                "Insurance License"@,
                "License to operate as an insurance company in Indonesia"@,
                "id-ojk"@,
                Some("insurance"@),
                seq!["general_insurance"@, "life_insurance"@],
                seq![],
                seq![],
                seq![],
                Some(1i32),
            ),
            license_type_view(
                "id-ojk:securities-company"@,
                "Securities Company License"@,
                "License to operate as a securities company in Indonesia"@,
                "id-ojk"@,
                Some("financial"@),
                seq!["securities_brokerage"@, "underwriting"@, "investment_management"@],
                seq![],
                seq![],
                seq![],
                Some(3i32),
            ),
            license_type_view(
                "id-ojk:fintech-lending"@,
                "Fintech Lending License"@,
                "License to operate a peer-to-peer lending platform under OJK regulation"@,
                "id-ojk"@,
                Some("financial"@),
                seq!["peer_to_peer_lending"@, "digital_lending"@],
                seq![],
                seq![],
                seq![],
                Some(3i32),
            ),
            license_type_view(
                "id-ojk:multifinance"@,
                "Multifinance Company License"@,
                "License to operate as a multifinance company in Indonesia"@,
                "id-ojk"@,
                Some("financial"@),
                seq!["consumer_finance"@, "leasing"@, "factoring"@],
                seq![],
                seq![],
                seq![],
                Some(3i32),
            ),
            license_type_view(
                "id-ojk:digital-bank"@,
                "Digital Banking License"@,
                "License to operate as a digital bank under OJK regulation"@,
                "id-ojk"@,
                Some("financial"@),
                seq!["digital_banking"@, "deposit_taking"@, "digital_lending"@],
                seq![],
                seq![],
                seq![],
                None,
            )
        ],
{
    let r = vec![
        license_type(
            "id-ojk:commercial-bank",
            "Commercial Banking License",
            "License to operate as a commercial bank under OJK regulation",
            "id-ojk",
            Some("financial"),
            &["deposit_taking", "lending", "trade_finance", "foreign_exchange"],
            &[],
            &[],
            &[],
            None,
        ),
        license_type(
            "id-ojk:insurance",
            "Insurance License",
            "License to operate as an insurance company in Indonesia",
            "id-ojk",
            Some("insurance"),
            &["general_insurance", "life_insurance"],
            &[],
            &[],
            &[],
            Some(1i32),
        ),
        license_type(
            "id-ojk:securities-company",
            "Securities Company License",
            "License to operate as a securities company in Indonesia",
            "id-ojk",
            Some("financial"),
            &["securities_brokerage", "underwriting", "investment_management"],
            &[],
            &[],
            &[],
            Some(3i32),
        ),
        license_type(
            "id-ojk:fintech-lending",
            "Fintech Lending License",
            "License to operate a peer-to-peer lending platform under OJK regulation",
            "id-ojk",
            Some("financial"),
            &["peer_to_peer_lending", "digital_lending"],
            &[],
            &[],
            &[],
            Some(3i32),
        ),
        license_type(
            "id-ojk:multifinance",
            "Multifinance Company License",
            "License to operate as a multifinance company in Indonesia",
            "id-ojk",
            Some("financial"),
            &["consumer_finance", "leasing", "factoring"],
            &[],
            &[],
            &[],
            Some(3i32),
        ),
        license_type(
            "id-ojk:digital-bank",
            "Digital Banking License",
            "License to operate as a digital bank under OJK regulation",
            "id-ojk",
            Some("financial"),
            &["digital_banking", "deposit_taking", "digital_lending"],
            &[],
            &[],
            &[],
            None,
        )
    ];
    proof {
        assert(license_types_view(r@) =~~= spec_ojk_license_types());
    }
    r
}

/// The view of `bi_regulator`.
pub open spec fn spec_bi_regulator() -> RegulatorView {
    regulator_view(
        "id-bi"@,
        "Bank Indonesia"@,
        "id"@,
        Some("https://www.bi.go.id"@),
        seq!["payment_system_registry"@],
    )
}

/// BI regulator profile.
pub fn bi_regulator() -> (r: LicensepackRegulator)
    ensures
        r@ == spec_bi_regulator(),
        r@ == regulator_view(
            "id-bi"@,
            "Bank Indonesia"@,
            "id"@,
            Some("https://www.bi.go.id"@),
            seq!["payment_system_registry"@],
        ),
{
    let r =
        regulator(
            "id-bi",
            "Bank Indonesia",
            "id",
            Some("https://www.bi.go.id"),
            &["payment_system_registry"],
        );
    proof {
        assert(r@ =~~= spec_bi_regulator());
    }
    r
}

/// The view of `bi_license_types`.
pub open spec fn spec_bi_license_types() -> Seq<LicenseTypeView> {
    seq![
        license_type_view(
            "id-bi:payment-system-provider"@,
            "Payment System Provider License"@,
            "License to operate a payment system under Bank Indonesia regulation"@,
            "id-bi"@,
            Some("financial"@),
            seq!["payment_processing"@, "clearing"@, "settlement"@],
            seq![],
            seq![],
            seq![],
            Some(5i32),
        ),
        license_type_view(
            "id-bi:e-money-issuer"@,
            "Electronic Money Issuer License"@,
            "License to issue electronic money under Bank Indonesia regulation"@,
            "id-bi"@,
            Some("financial"@),
            seq!["issuing_e_money"@, "e_money_distribution"@],
            seq![],
            seq![],
            seq![],
            Some(5i32),
        ),
        license_type_view(
            "id-bi:payment-gateway"@,
            "Payment Gateway License"@,
            "License to operate a payment gateway in Indonesia"@,
            "id-bi"@,
            Some("financial"@),
            seq!["payment_gateway"@, "transaction_routing"@],
            seq![],
            seq![],
            seq![],
            Some(5i32),
        ),
        license_type_view(
            "id-bi:money-transfer"@,
            "Money Transfer Operator License"@,
            "License to operate money transfer services in Indonesia"@,
            "id-bi"@,
            Some("financial"@),
            seq!["money_transfer"@, "remittance"@],
            seq![],
            seq![],
            seq![],
            Some(5i32),
        )
    ]
}

/// BI license type definitions.
pub fn bi_license_types() -> (r: Vec<LicenseTypeDefinition>)
    ensures
        license_types_view(r@) == spec_bi_license_types(),
        license_types_view(r@) == seq![
            license_type_view(
                "id-bi:payment-system-provider"@,
                "Payment System Provider License"@,
                "License to operate a payment system under Bank Indonesia regulation"@,
                "id-bi"@,
                Some("financial"@),
                seq!["payment_processing"@, "clearing"@, "settlement"@],
                seq![],
                seq![],
                seq![],
                Some(5i32),
            ),
            license_type_view(
                "id-bi:e-money-issuer"@,
                "Electronic Money Issuer License"@,
                "License to issue electronic money under Bank Indonesia regulation"@,
                "id-bi"@,
                Some("financial"@),
                seq!["issuing_e_money"@, "e_money_distribution"@],
                seq![],
                seq![],
                seq![],
                Some(5i32),
            ),
            license_type_view(
                "id-bi:payment-gateway"@,
                "Payment Gateway License"@,
                "License to operate a payment gateway in Indonesia"@,
                "id-bi"@,
                Some("financial"@),
                seq!["payment_gateway"@, "transaction_routing"@],
                seq![],
                seq![],
                seq![],
                Some(5i32),
            ),
            license_type_view(
                "id-bi:money-transfer"@,
                "Money Transfer Operator License"@,
                "License to operate money transfer services in Indonesia"@,
                "id-bi"@,
                Some("financial"@),
                seq!["money_transfer"@, "remittance"@],
                seq![],
                seq![],
                seq![],
                Some(5i32),
            )
        ],
{
    let r = vec![
        license_type(
            "id-bi:payment-system-provider",
            "Payment System Provider License",
            "License to operate a payment system under Bank Indonesia regulation",
            "id-bi",
            Some("financial"),
            &["payment_processing", "clearing", "settlement"],
            &[],
            &[],
            &[],
            Some(5i32),
        ),
        license_type(
            "id-bi:e-money-issuer",
            "Electronic Money Issuer License",
            "License to issue electronic money under Bank Indonesia regulation",
            "id-bi",
            Some("financial"),
            &["issuing_e_money", "e_money_distribution"],
            &[],
            &[],
            &[],
            Some(5i32),
        ),
        license_type(
            "id-bi:payment-gateway",
            "Payment Gateway License",
            "License to operate a payment gateway in Indonesia",
            "id-bi",
            Some("financial"),
            &["payment_gateway", "transaction_routing"],
            &[],
            &[],
            &[],
            Some(5i32),
        ),
        license_type(
            "id-bi:money-transfer",
            "Money Transfer Operator License",
            "License to operate money transfer services in Indonesia",
            "id-bi",
            Some("financial"),
            &["money_transfer", "remittance"],
            &[],
            &[],
            &[],
            Some(5i32),
        )
    ];
    proof {
        assert(license_types_view(r@) =~~= spec_bi_license_types());
    }
    r
}

/// The view of `sarb_regulator`.
pub open spec fn spec_sarb_regulator() -> RegulatorView {
    regulator_view(
        "za-sarb"@,
        "South African Reserve Bank"@,
        "za"@,
        Some("https://www.resbank.co.za"@),
        seq!["bank_registry"@],
    )
}

/// SARB regulator profile.
pub fn sarb_regulator() -> (r: LicensepackRegulator)
    ensures
        r@ == spec_sarb_regulator(),
        r@ == regulator_view(
            "za-sarb"@,
            "South African Reserve Bank"@,
            "za"@,
            Some("https://www.resbank.co.za"@),
            seq!["bank_registry"@],
        ),
{
    let r =
        regulator(
            "za-sarb",
            "South African Reserve Bank",
            "za",
            Some("https://www.resbank.co.za"),
            &["bank_registry"],
        );
    proof {
        assert(r@ =~~= spec_sarb_regulator());
    }
    r
}

/// The view of `sarb_license_types`.
pub open spec fn spec_sarb_license_types() -> Seq<LicenseTypeView> {
    seq![
        license_type_view(
            "za-sarb:banking"@,
            "Banking License"@,
            "License to conduct banking business under the Banks Act 94 of 1990"@,
            "za-sarb"@,
            Some("financial"@),
            seq!["deposit_taking"@, "lending"@, "trade_finance"@, "foreign_exchange"@],
            seq![],
            seq![],
            seq![],
            None,
        ),
        license_type_view(
            "za-sarb:mutual-bank"@,
            "Mutual Bank License"@,
            "License to operate as a mutual bank under the Mutual Banks Act 124 of 1993"@,
            "za-sarb"@,
            Some("financial"@),
            seq!["deposit_taking"@, "lending"@, "savings_products"@],
            seq![],
            seq![],
            seq![],
            None,
        ),
        license_type_view(
            "za-sarb:payment-system"@,
            "Payment System Operator Designation"@,
            "Designation to operate a payment system under the National Payment System Act"@,
            "za-sarb"@,
            Some("financial"@),
            seq!["payment_system_operation"@, "clearing"@, "settlement"@],
            seq![],
            seq![],
            seq![],
            None,
        ),
        license_type_view(
            "za-sarb:adla"@,
            "Authorized Dealer in Foreign Exchange (Limited Authority)"@,
            "Authorization as an authorized dealer with limited authority for forex transactions"@,
            "za-sarb"@,
            Some("financial"@),
            seq!["foreign_exchange"@, "remittance"@],
            seq![],
            seq![],
            seq![],
            Some(3i32),
        ),
        license_type_view(
            "za-sarb:casp"@,
            "Crypto Asset Service Provider Registration"@,
            "Registration as a crypto asset service provider with the SARB/FSCA"@,
            "za-sarb"@,
            Some("financial"@),
            seq!["crypto_asset_exchange"@, "crypto_asset_custody"@],
            seq![],
            seq![],
            seq![],
            Some(3i32),
        )
    ]
}

/// SARB license type definitions.
pub fn sarb_license_types() -> (r: Vec<LicenseTypeDefinition>)
    ensures
        license_types_view(r@) == spec_sarb_license_types(),
        license_types_view(r@) == seq![
            license_type_view(
                "za-sarb:banking"@,
                "Banking License"@,
                "License to conduct banking business under the Banks Act 94 of 1990"@,
                "za-sarb"@,
                Some("financial"@),
                seq!["deposit_taking"@, "lending"@, "trade_finance"@, "foreign_exchange"@],
                seq![],
                seq![],
                seq![],
                None,
            ),
            license_type_view(
                "za-sarb:mutual-bank"@,
                "Mutual Bank License"@,
                "License to operate as a mutual bank under the Mutual Banks Act 124 of 1993"@,
                "za-sarb"@,
                Some("financial"@),
                seq!["deposit_taking"@, "lending"@, "savings_products"@],
                seq![],
                seq![],
                seq![],
                None,
            ),
            license_type_view(
                "za-sarb:payment-system"@,
                "Payment System Operator Designation"@,
                "Designation to operate a payment system under the National Payment System Act"@,
                "za-sarb"@,
                Some("financial"@),
                seq!["payment_system_operation"@, "clearing"@, "settlement"@],
                seq![],
                seq![],
                seq![],
                None,
            ),
            license_type_view(
                "za-sarb:adla"@,
                "Authorized Dealer in Foreign Exchange (Limited Authority)"@,
                "Authorization as an authorized dealer with limited authority for forex transactions"@,
                "za-sarb"@,
                Some("financial"@),
                seq!["foreign_exchange"@, "remittance"@],
                seq![],
                seq![],
                seq![],
                Some(3i32),
            ),
            license_type_view(
                "za-sarb:casp"@,
                "Crypto Asset Service Provider Registration"@,
                "Registration as a crypto asset service provider with the SARB/FSCA"@,
                "za-sarb"@,
                Some("financial"@),
                seq!["crypto_asset_exchange"@, "crypto_asset_custody"@],
                seq![],
                seq![],
                seq![],
                Some(3i32),
            )
        ],
{
    let r = vec![
        license_type(
            "za-sarb:banking",
            "Banking License",
            "License to conduct banking business under the Banks Act 94 of 1990",
            "za-sarb",
            Some("financial"),
            &["deposit_taking", "lending", "trade_finance", "foreign_exchange"],
            &[],
            &[],
            &[],
            None,
        ),
        license_type(
            "za-sarb:mutual-bank",
            "Mutual Bank License",
            "License to operate as a mutual bank under the Mutual Banks Act 124 of 1993",
            "za-sarb",
            Some("financial"),
            &["deposit_taking", "lending", "savings_products"],
            &[],
            &[],
            &[],
            None,
        ),
        license_type(
            "za-sarb:payment-system",
            "Payment System Operator Designation",
            "Designation to operate a payment system under the National Payment System Act",
            "za-sarb",
            Some("financial"),
            &["payment_system_operation", "clearing", "settlement"],
            &[],
            &[],
            &[],
            None,
        ),
        license_type(
            "za-sarb:adla",
            "Authorized Dealer in Foreign Exchange (Limited Authority)",
            "Authorization as an authorized dealer with limited authority for forex transactions",
            "za-sarb",
            Some("financial"),
            &["foreign_exchange", "remittance"],
            &[],
            &[],
            &[],
            Some(3i32),
        ),
        license_type(
            "za-sarb:casp",
            "Crypto Asset Service Provider Registration",
            "Registration as a crypto asset service provider with the SARB/FSCA",
            "za-sarb",
            Some("financial"),
            &["crypto_asset_exchange", "crypto_asset_custody"],
            &[],
            &[],
            &[],
            Some(3i32),
        )
    ];
    proof {
        assert(license_types_view(r@) =~~= spec_sarb_license_types());
    }
    r
}

/// The view of `fsca_regulator`.
pub open spec fn spec_fsca_regulator() -> RegulatorView {
    regulator_view(
        "za-fsca"@,
        "Financial Sector Conduct Authority"@,
        "za"@,
        Some("https://www.fsca.co.za"@),
        seq!["fsp_registry"@],
    )
}

/// FSCA regulator profile.
pub fn fsca_regulator() -> (r: LicensepackRegulator)
    ensures
        r@ == spec_fsca_regulator(),
        r@ == regulator_view(
            "za-fsca"@,
            "Financial Sector Conduct Authority"@,
            "za"@,
            Some("https://www.fsca.co.za"@),
            seq!["fsp_registry"@],
        ),
{
    let r =
        regulator(
            "za-fsca",
            "Financial Sector Conduct Authority",
            "za",
            Some("https://www.fsca.co.za"),
            &["fsp_registry"],
        );
    proof {
        assert(r@ =~~= spec_fsca_regulator());
    }
    r
}

/// The view of `fsca_license_types`.
pub open spec fn spec_fsca_license_types() -> Seq<LicenseTypeView> {
    seq![
        license_type_view(
            "za-fsca:fsp"@,
            "Financial Services Provider License"@,
            "License to provide financial services under the FAIS Act 37 of 2002"@,
            "za-fsca"@,
            Some("financial"@),
            seq!["financial_advisory"@, "intermediary_services"@],
            seq![],
            seq![],
            seq![],
            None,
        ),
        license_type_view(
            "za-fsca:insurance"@,
            "Insurance License"@,
            "License to conduct insurance business under the Insurance Act 18 of 2017"@,
            "za-fsca"@,
            Some("insurance"@),
            seq!["general_insurance"@, "life_insurance"@],
            seq![],
            seq![],
            seq![],
            Some(1i32),
        ),
        license_type_view(
            "za-fsca:collective-investment-scheme"@,
            "Collective Investment Scheme Manager License"@,
            "License to manage a collective investment scheme under the CIS Control Act"@,
            "za-fsca"@,
            Some("financial"@),
            seq!["fund_management"@, "portfolio_management"@],
            seq![],
            seq![],
            seq![],
            None,
        ),
        license_type_view(
            "za-fsca:market-infrastructure"@,
            "Market Infrastructure License"@,
            "License to operate market infrastructure under the Financial Markets Act"@,
            "za-fsca"@,
            Some("financial"@),
            seq!["exchange_operations"@, "clearing_house"@, "central_securities_depository"@],
            seq![],
            seq![],
            seq![],
            None,
        ),
        license_type_view(
            "za-fsca:retirement-fund"@,
            "Retirement Fund Registration"@,
            "Registration of a retirement fund under the Pension Funds Act"@,
            "za-fsca"@,
            Some("financial"@),
            seq!["pension_fund_management"@, "retirement_products"@],
            seq![],
            seq![],
            seq![],
            None,
        )
    ]
}

/// FSCA license type definitions.
pub fn fsca_license_types() -> (r: Vec<LicenseTypeDefinition>)
    ensures
        license_types_view(r@) == spec_fsca_license_types(),
        license_types_view(r@) == seq![
            license_type_view(
                "za-fsca:fsp"@,
                "Financial Services Provider License"@,
                "License to provide financial services under the FAIS Act 37 of 2002"@,
                "za-fsca"@,
                Some("financial"@),
                seq!["financial_advisory"@, "intermediary_services"@],
                seq![],
                seq![],
                seq![],
                None,
            ),
            license_type_view(
                "za-fsca:insurance"@,
                "Insurance License"@,
                "License to conduct insurance business under the Insurance Act 18 of 2017"@,
                "za-fsca"@,
                Some("insurance"@),
                seq!["general_insurance"@, "life_insurance"@],
                seq![],
                seq![],
                seq![],
                Some(1i32),
            ),
            license_type_view(
                "za-fsca:collective-investment-scheme"@,
                "Collective Investment Scheme Manager License"@,
                "License to manage a collective investment scheme under the CIS Control Act"@,
                "za-fsca"@,
                Some("financial"@),
                seq!["fund_management"@, "portfolio_management"@],
                seq![],
                seq![],
                seq![],
                None,
            ),
            license_type_view(
                "za-fsca:market-infrastructure"@,
                "Market Infrastructure License"@,
                "License to operate market infrastructure under the Financial Markets Act"@,
                "za-fsca"@,
                Some("financial"@),
                seq!["exchange_operations"@, "clearing_house"@, "central_securities_depository"@],
                seq![],
                seq![],
                seq![],
                None,
            ),
            license_type_view(
                "za-fsca:retirement-fund"@,
                "Retirement Fund Registration"@,
                "Registration of a retirement fund under the Pension Funds Act"@,
                "za-fsca"@,
                Some("financial"@),
                seq!["pension_fund_management"@, "retirement_products"@],
                seq![],
                seq![],
                seq![],
                None,
            )
        ],
{
    let r = vec![
        license_type(
            "za-fsca:fsp",
            "Financial Services Provider License",
            "License to provide financial services under the FAIS Act 37 of 2002",
            "za-fsca",
            Some("financial"),
            &["financial_advisory", "intermediary_services"],
            &[],
            &[],
            &[],
            None,
        ),
        license_type(
            "za-fsca:insurance",
            "Insurance License",
            "License to conduct insurance business under the Insurance Act 18 of 2017",
            "za-fsca",
            Some("insurance"),
            &["general_insurance", "life_insurance"],
            &[],
            &[],
            &[],
            Some(1i32),
        ),
        license_type(
            "za-fsca:collective-investment-scheme",
            "Collective Investment Scheme Manager License",
            "License to manage a collective investment scheme under the CIS Control Act",
            "za-fsca",
            Some("financial"),
            &["fund_management", "portfolio_management"],
            &[],
            &[],
            &[],
            None,
        ),
        license_type(
            "za-fsca:market-infrastructure",
            "Market Infrastructure License",
            "License to operate market infrastructure under the Financial Markets Act",
            "za-fsca",
            Some("financial"),
            &["exchange_operations", "clearing_house", "central_securities_depository"],
            &[],
            &[],
            &[],
            None,
        ),
        license_type(
            "za-fsca:retirement-fund",
            "Retirement Fund Registration",
            "Registration of a retirement fund under the Pension Funds Act",
            "za-fsca",
            Some("financial"),
            &["pension_fund_management", "retirement_products"],
            &[],
            &[],
            &[],
            None,
        )
    ];
    proof {
        assert(license_types_view(r@) =~~= spec_fsca_license_types());
    }
    r
}

/// The view of `cbe_regulator`.
pub open spec fn spec_cbe_regulator() -> RegulatorView {
    regulator_view(
        "eg-cbe"@,
        "Central Bank of Egypt"@,
        "eg"@,
        Some("https://www.cbe.org.eg"@),
        seq!["bank_registry"@],
    )
}

/// CBE regulator profile.
pub fn cbe_regulator() -> (r: LicensepackRegulator)
    ensures
        r@ == spec_cbe_regulator(),
        r@ == regulator_view(
            "eg-cbe"@,
            "Central Bank of Egypt"@,
            "eg"@,
            Some("https://www.cbe.org.eg"@),
            seq!["bank_registry"@],
        ),
{
    let r =
        regulator(
            "eg-cbe",
            "Central Bank of Egypt",
            "eg",
            Some("https://www.cbe.org.eg"),
            &["bank_registry"],
        );
    proof {
        assert(r@ =~~= spec_cbe_regulator());
    }
    r
}

/// The view of `cbe_license_types`.
pub open spec fn spec_cbe_license_types() -> Seq<LicenseTypeView> {
    seq![
        license_type_view(
            "eg-cbe:commercial-bank"@,
            "Commercial Banking License"@,
            "License to operate as a commercial bank under the Central Bank and Banking Law"@,
            "eg-cbe"@,
            Some("financial"@),
            seq!["deposit_taking"@, "lending"@, "trade_finance"@, "foreign_exchange"@],
            seq![],
            seq![],
            seq![],
            None,
        ),
        license_type_view(
            "eg-cbe:islamic-bank"@,
            "Islamic Banking License"@,
            "License to operate as an Islamic bank in Egypt under Sharia-compliant principles"@,
            "eg-cbe"@,
            Some("financial"@),
            seq!["islamic_deposit_taking"@, "islamic_financing"@, "murabaha"@],
            seq![],
            seq![],
            seq![],
            None,
        ),
        license_type_view(
            "eg-cbe:payment-service-provider"@,
            "Payment Service Provider License"@,
            "License to provide payment services in Egypt"@,
            "eg-cbe"@,
            Some("financial"@),
            seq!["payment_processing"@, "mobile_payments"@, "e_money"@],
            seq![],
            seq![],
            seq![],
            Some(3i32),
        ),
        license_type_view(
            "eg-cbe:fintech"@,
            "Fintech License"@,
            "License to operate a fintech company under CBE fintech regulations"@,
            "eg-cbe"@,
            Some("financial"@),
            seq!["digital_financial_services"@, "open_banking"@],
            seq![],
            seq![],
            seq![],
            Some(3i32),
        ),
        license_type_view(
            "eg-cbe:money-exchange"@,
            "Money Exchange License"@,
            "License to operate a money exchange in Egypt"@,
            "eg-cbe"@,
            Some("financial"@),
            seq!["foreign_exchange"@, "currency_exchange"@],
            seq![],
            seq![],
            seq![],
            Some(1i32),
        )
    ]
}

/// CBE license type definitions.
pub fn cbe_license_types() -> (r: Vec<LicenseTypeDefinition>)
    ensures
        license_types_view(r@) == spec_cbe_license_types(),
        license_types_view(r@) == seq![
            license_type_view(
                "eg-cbe:commercial-bank"@,
                "Commercial Banking License"@,
                "License to operate as a commercial bank under the Central Bank and Banking Law"@,
                "eg-cbe"@,
                Some("financial"@),
                seq!["deposit_taking"@, "lending"@, "trade_finance"@, "foreign_exchange"@],
                seq![],
                seq![],
                seq![],
                None,
            ),
            license_type_view(
                "eg-cbe:islamic-bank"@,
                "Islamic Banking License"@,
                "License to operate as an Islamic bank in Egypt under Sharia-compliant principles"@,
                "eg-cbe"@,
                Some("financial"@),
                seq!["islamic_deposit_taking"@, "islamic_financing"@, "murabaha"@],
                seq![],
                seq![],
                seq![],
                None,
            ),
            license_type_view(
                "eg-cbe:payment-service-provider"@,
                "Payment Service Provider License"@,
                "License to provide payment services in Egypt"@,
                "eg-cbe"@,
                Some("financial"@),
                seq!["payment_processing"@, "mobile_payments"@, "e_money"@],
                seq![],
                seq![],
                seq![],
                Some(3i32),
            ),
            license_type_view(
                "eg-cbe:fintech"@,
                "Fintech License"@,
                "License to operate a fintech company under CBE fintech regulations"@,
                "eg-cbe"@,
                Some("financial"@),
                seq!["digital_financial_services"@, "open_banking"@],
                seq![],
                seq![],
                seq![],
                Some(3i32),
            ),
            license_type_view(
                "eg-cbe:money-exchange"@,
                "Money Exchange License"@,
                "License to operate a money exchange in Egypt"@,
                "eg-cbe"@,
                Some("financial"@),
                seq!["foreign_exchange"@, "currency_exchange"@],
                seq![],
                seq![],
                seq![],
                Some(1i32),
            )
        ],
{
    let r = vec![
        license_type(
            "eg-cbe:commercial-bank",
            "Commercial Banking License",
            "License to operate as a commercial bank under the Central Bank and Banking Law",
            "eg-cbe",
            Some("financial"),
            &["deposit_taking", "lending", "trade_finance", "foreign_exchange"],
            &[],
            &[],
            &[],
            None,
        ),
        license_type(
            "eg-cbe:islamic-bank",
            "Islamic Banking License",
            "License to operate as an Islamic bank in Egypt under Sharia-compliant principles",
            "eg-cbe",
            Some("financial"),
            &["islamic_deposit_taking", "islamic_financing", "murabaha"],
            &[],
            &[],
            &[],
            None,
        ),
        license_type(
            "eg-cbe:payment-service-provider",
            "Payment Service Provider License",
            "License to provide payment services in Egypt",
            "eg-cbe",
            Some("financial"),
            &["payment_processing", "mobile_payments", "e_money"],
            &[],
            &[],
            &[],
            Some(3i32),
        ),
        license_type(
            "eg-cbe:fintech",
            "Fintech License",
            "License to operate a fintech company under CBE fintech regulations",
            "eg-cbe",
            Some("financial"),
            &["digital_financial_services", "open_banking"],
            &[],
            &[],
            &[],
            Some(3i32),
        ),
        license_type(
            "eg-cbe:money-exchange",
            "Money Exchange License",
            "License to operate a money exchange in Egypt",
            "eg-cbe",
            Some("financial"),
            &["foreign_exchange", "currency_exchange"],
            &[],
            &[],
            &[],
            Some(1i32),
        )
    ];
    proof {
        assert(license_types_view(r@) =~~= spec_cbe_license_types());
    }
    r
}

/// The view of `fra_regulator`.
pub open spec fn spec_fra_regulator() -> RegulatorView {
    regulator_view(
        "eg-fra"@,
        "Financial Regulatory Authority"@,
        "eg"@,
        Some("https://www.fra.gov.eg"@),
        seq!["entity_registry"@],
    )
}

/// FRA regulator profile.
pub fn fra_regulator() -> (r: LicensepackRegulator)
    ensures
        r@ == spec_fra_regulator(),
        r@ == regulator_view(
            "eg-fra"@,
            "Financial Regulatory Authority"@,
            "eg"@,
            Some("https://www.fra.gov.eg"@),
            seq!["entity_registry"@],
        ),
{
    let r =
        regulator(
            "eg-fra",
            "Financial Regulatory Authority",
            "eg",
            Some("https://www.fra.gov.eg"),
            &["entity_registry"],
        );
    proof {
        assert(r@ =~~= spec_fra_regulator());
    }
    r
}

/// The view of `fra_license_types`.
pub open spec fn spec_fra_license_types() -> Seq<LicenseTypeView> {
    seq![
        license_type_view(
            "eg-fra:securities-brokerage"@,
            "Securities Brokerage License"@,
            "License to operate as a securities broker in Egypt"@,
            "eg-fra"@,
            Some("financial"@),
            seq!["securities_brokerage"@, "order_execution"@],
            seq![],
            seq![],
            seq![],
            Some(3i32),
        ),
        license_type_view(
            "eg-fra:insurance"@,
            "Insurance License"@,
            "License to conduct non-bank insurance business in Egypt"@,
            "eg-fra"@,
            Some("insurance"@),
            seq!["general_insurance"@, "life_insurance"@],
            seq![],
            seq![],
            seq![],
            Some(1i32),
        ),
        license_type_view(
            "eg-fra:microfinance"@,
            "Microfinance License"@,
            "License to operate as a microfinance institution in Egypt"@,
            "eg-fra"@,
            Some("financial"@),
            seq!["micro_lending"@, "micro_savings"@],
            seq![],
            seq![],
            seq![],
            Some(3i32),
        ),
        license_type_view(
            "eg-fra:leasing"@,
            "Financial Leasing License"@,
            "License to conduct financial leasing operations in Egypt"@,
            "eg-fra"@,
            Some("financial"@),
            seq!["financial_leasing"@, "equipment_leasing"@],
            seq![],
            seq![],
            seq![],
            Some(3i32),
        ),
        license_type_view(
            "eg-fra:factoring"@,
            "Factoring License"@,
            "License to conduct factoring operations in Egypt"@,
            "eg-fra"@,
            Some("financial"@),
            seq!["factoring"@, "receivables_financing"@],
            seq![],
            seq![],
            seq![],
            Some(3i32),
        )
    ]
}

/// FRA license type definitions.
pub fn fra_license_types() -> (r: Vec<LicenseTypeDefinition>)
    ensures
        license_types_view(r@) == spec_fra_license_types(),
        license_types_view(r@) == seq![
            license_type_view(
                "eg-fra:securities-brokerage"@,
                "Securities Brokerage License"@,
                "License to operate as a securities broker in Egypt"@,
                "eg-fra"@,
                Some("financial"@),
                seq!["securities_brokerage"@, "order_execution"@],
                seq![],
                seq![],
                seq![],
                Some(3i32),
            ),
            license_type_view(
                "eg-fra:insurance"@,
                "Insurance License"@,
                "License to conduct non-bank insurance business in Egypt"@,
                "eg-fra"@,
                Some("insurance"@),
                seq!["general_insurance"@, "life_insurance"@],
                seq![],
                seq![],
                seq![],
                Some(1i32),
            ),
            license_type_view(
                "eg-fra:microfinance"@,
                "Microfinance License"@,
                "License to operate as a microfinance institution in Egypt"@,
                "eg-fra"@,
                Some("financial"@),
                seq!["micro_lending"@, "micro_savings"@],
                seq![],
                seq![],
                seq![],
                Some(3i32),
            ),
            license_type_view(
                "eg-fra:leasing"@,
                "Financial Leasing License"@,
                "License to conduct financial leasing operations in Egypt"@,
                "eg-fra"@,
                Some("financial"@),
                seq!["financial_leasing"@, "equipment_leasing"@],
                seq![],
                seq![],
                seq![],
                Some(3i32),
            ),
            license_type_view(
                "eg-fra:factoring"@,
                "Factoring License"@,
                "License to conduct factoring operations in Egypt"@,
                "eg-fra"@,
                Some("financial"@),
                seq!["factoring"@, "receivables_financing"@],
                seq![],
                seq![],
                seq![],
                Some(3i32),
            )
        ],
{
    let r = vec![
        license_type(
            "eg-fra:securities-brokerage",
            "Securities Brokerage License",
            "License to operate as a securities broker in Egypt",
            "eg-fra",
            Some("financial"),
            &["securities_brokerage", "order_execution"],
            &[],
            &[],
            &[],
            Some(3i32),
        ),
        license_type(
            "eg-fra:insurance",
            "Insurance License",
            "License to conduct non-bank insurance business in Egypt",
            "eg-fra",
            Some("insurance"),
            &["general_insurance", "life_insurance"],
            &[],
            &[],
            &[],
            Some(1i32),
        ),
        license_type(
            "eg-fra:microfinance",
            "Microfinance License",
            "License to operate as a microfinance institution in Egypt",
            "eg-fra",
            Some("financial"),
            &["micro_lending", "micro_savings"],
            &[],
            &[],
            &[],
            Some(3i32),
        ),
        license_type(
            "eg-fra:leasing",
            "Financial Leasing License",
            "License to conduct financial leasing operations in Egypt",
            "eg-fra",
            Some("financial"),
            &["financial_leasing", "equipment_leasing"],
            &[],
            &[],
            &[],
            Some(3i32),
        ),
        license_type(
            "eg-fra:factoring",
            "Factoring License",
            "License to conduct factoring operations in Egypt",
            "eg-fra",
            Some("financial"),
            &["factoring", "receivables_financing"],
            &[],
            &[],
            &[],
            Some(3i32),
        )
    ];
    proof {
        assert(license_types_view(r@) =~~= spec_fra_license_types());
    }
    r
}

/// The view of `bot_regulator`.
pub open spec fn spec_bot_regulator() -> RegulatorView {
    regulator_view(
        "tz-bot"@,
        "Bank of Tanzania"@,
        "tz"@,
        Some("https://www.bot.go.tz"@),
        seq!["bank_registry"@],
    )
}

/// BOT regulator profile.
pub fn bot_regulator() -> (r: LicensepackRegulator)
    ensures
        r@ == spec_bot_regulator(),
        r@ == regulator_view(
            "tz-bot"@,
            "Bank of Tanzania"@,
            "tz"@,
            Some("https://www.bot.go.tz"@),
            seq!["bank_registry"@],
        ),
{
    let r =
        regulator(
            "tz-bot",
            "Bank of Tanzania",
            "tz",
            Some("https://www.bot.go.tz"),
            &["bank_registry"],
        );
    proof {
        assert(r@ =~~= spec_bot_regulator());
    }
    r
}

/// The view of `bot_license_types`.
pub open spec fn spec_bot_license_types() -> Seq<LicenseTypeView> {
    seq![
        license_type_view(
            "tz-bot:commercial-bank"@,
            "Commercial Banking License"@,
            "License to operate as a commercial bank in Tanzania"@,
            "tz-bot"@,
            Some("financial"@),
            seq!["deposit_taking"@, "lending"@, "trade_finance"@, "foreign_exchange"@],
            seq![],
            seq![],
            seq![],
            None,
        ),
        license_type_view(
            "tz-bot:microfinance"@,
            "Microfinance Bank License"@,
            "License to operate as a microfinance bank in Tanzania"@,
            "tz-bot"@,
            Some("financial"@),
            seq!["micro_lending"@, "micro_deposit_taking"@],
            seq![],
            seq![],
            seq![],
            None,
        ),
        license_type_view(
            "tz-bot:mobile-money"@,
            "Mobile Money Operator License"@,
            "License to operate mobile money services in Tanzania"@,
            "tz-bot"@,
            Some("financial"@),
            seq!["mobile_payments"@, "e_money"@, "remittance"@],
            seq![],
            seq![],
            seq![],
            Some(5i32),
        ),
        license_type_view(
            "tz-bot:forex-bureau"@,
            "Foreign Exchange Bureau License"@,
            "License to operate a foreign exchange bureau in Tanzania"@,
            "tz-bot"@,
            Some("financial"@),
            seq!["foreign_exchange"@, "currency_exchange"@],
            seq![],
            seq![],
            seq![],
            Some(1i32),
        ),
        license_type_view(
            "tz-bot:payment-system"@,
            "Payment System Operator License"@,
            "License to operate a payment system in Tanzania"@,
            "tz-bot"@,
            Some("financial"@),
            seq!["payment_system_operation"@, "clearing"@, "settlement"@],
            seq![],
            seq![],
            seq![],
            Some(5i32),
        )
    ]
}

/// BOT license type definitions.
pub fn bot_license_types() -> (r: Vec<LicenseTypeDefinition>)
    ensures
        license_types_view(r@) == spec_bot_license_types(),
        license_types_view(r@) == seq![
            license_type_view(
                "tz-bot:commercial-bank"@,
                "Commercial Banking License"@,
                "License to operate as a commercial bank in Tanzania"@,
                "tz-bot"@,
                Some("financial"@),
                seq!["deposit_taking"@, "lending"@, "trade_finance"@, "foreign_exchange"@],
                seq![],
                seq![],
                seq![],
                None,
            ),
            license_type_view(
                "tz-bot:microfinance"@,
                "Microfinance Bank License"@,
                "License to operate as a microfinance bank in Tanzania"@,
                "tz-bot"@,
                Some("financial"@),
                seq!["micro_lending"@, "micro_deposit_taking"@],
                seq![],
                seq![],
                seq![],
                None,
            ),
            license_type_view(
                "tz-bot:mobile-money"@,
                "Mobile Money Operator License"@,
                "License to operate mobile money services in Tanzania"@,
                "tz-bot"@,
                Some("financial"@),
                seq!["mobile_payments"@, "e_money"@, "remittance"@],
                seq![],
                seq![],
                seq![],
                Some(5i32),
            ),
            license_type_view(
                "tz-bot:forex-bureau"@,
                "Foreign Exchange Bureau License"@,
                "License to operate a foreign exchange bureau in Tanzania"@,
                "tz-bot"@,
                Some("financial"@),
                seq!["foreign_exchange"@, "currency_exchange"@],
                seq![],
                seq![],
                seq![],
                Some(1i32),
            ),
            license_type_view(
                "tz-bot:payment-system"@,
                "Payment System Operator License"@,
                "License to operate a payment system in Tanzania"@,
                "tz-bot"@,
                Some("financial"@),
                seq!["payment_system_operation"@, "clearing"@, "settlement"@],
                seq![],
                seq![],
                seq![],
                Some(5i32),
            )
        ],
{
    let r = vec![
        license_type(
            "tz-bot:commercial-bank",
            "Commercial Banking License",
            "License to operate as a commercial bank in Tanzania",
            "tz-bot",
            Some("financial"),
            &["deposit_taking", "lending", "trade_finance", "foreign_exchange"],
            &[],
            &[],
            &[],
            None,
        ),
        license_type(
            "tz-bot:microfinance",
            "Microfinance Bank License",
            "License to operate as a microfinance bank in Tanzania",
            "tz-bot",
            Some("financial"),
            &["micro_lending", "micro_deposit_taking"],
            &[],
            &[],
            &[],
            None,
        ),
        license_type(
            "tz-bot:mobile-money",
            "Mobile Money Operator License",
            "License to operate mobile money services in Tanzania",
            "tz-bot",
            Some("financial"),
            &["mobile_payments", "e_money", "remittance"],
            &[],
            &[],
            &[],
            Some(5i32),
        ),
        license_type(
            "tz-bot:forex-bureau",
            "Foreign Exchange Bureau License",
            "License to operate a foreign exchange bureau in Tanzania",
            "tz-bot",
            Some("financial"),
            &["foreign_exchange", "currency_exchange"],
            &[],
            &[],
            &[],
            Some(1i32),
        ),
        license_type(
            "tz-bot:payment-system",
            "Payment System Operator License",
            "License to operate a payment system in Tanzania",
            "tz-bot",
            Some("financial"),
            &["payment_system_operation", "clearing", "settlement"],
            &[],
            &[],
            &[],
            Some(5i32),
        )
    ];
    proof {
        assert(license_types_view(r@) =~~= spec_bot_license_types());
    }
    r
}

/// The view of `zanzibar_br_regulator`.
pub open spec fn spec_zanzibar_br_regulator() -> RegulatorView {
    regulator_view(
        "tz-zanzibar-br"@,
        "Zanzibar Business Registration"@,
        "tz-zanzibar"@,
        Some("https://www.zanzibar.go.tz"@),
        seq!["business_registry"@],
    )
}

/// Zanzibar Business Registration regulator profile.
pub fn zanzibar_br_regulator() -> (r: LicensepackRegulator)
    ensures
        r@ == spec_zanzibar_br_regulator(),
        r@ == regulator_view(
            "tz-zanzibar-br"@,
            "Zanzibar Business Registration"@,
            "tz-zanzibar"@,
            Some("https://www.zanzibar.go.tz"@),
            seq!["business_registry"@],
        ),
{
    let r =
        regulator(
            "tz-zanzibar-br",
            "Zanzibar Business Registration",
            "tz-zanzibar",
            Some("https://www.zanzibar.go.tz"),
            &["business_registry"],
        );
    proof {
        assert(r@ =~~= spec_zanzibar_br_regulator());
    }
    r
}

/// The view of `zanzibar_br_license_types`.
pub open spec fn spec_zanzibar_br_license_types() -> Seq<LicenseTypeView> {
    seq![
        license_type_view(
            "tz-zanzibar-br:business-license"@,
            "Zanzibar Business License"@,
            "General business license for operations in Zanzibar"@,
            "tz-zanzibar-br"@,
            Some("corporate"@),
            seq!["business_operations"@, "trade"@],
            seq![],
            seq![],
            seq![],
            Some(1i32),
        ),
        license_type_view(
            "tz-zanzibar-br:company-registration"@,
            "Zanzibar Company Registration"@,
            "Registration of a company in Zanzibar"@,
            "tz-zanzibar-br"@,
            Some("corporate"@),
            seq!["business_operations"@, "corporate_services"@],
            seq![],
            seq![],
            seq![],
            None,
        ),
        license_type_view(
            "tz-zanzibar-br:foreign-investment"@,
            "Zanzibar Foreign Investment Certificate"@,
            "Certificate for foreign investment operations in Zanzibar"@,
            "tz-zanzibar-br"@,
            Some("corporate"@),
            seq!["foreign_investment"@, "joint_ventures"@],
            seq![],
            seq![],
            seq![],
            Some(5i32),
        ),
        license_type_view(
            "tz-zanzibar-br:free-zone-enterprise"@,
            "Zanzibar Free Economic Zone Enterprise License"@,
            "License to operate within the Zanzibar Free Economic Zone"@,
            "tz-zanzibar-br"@,
            Some("corporate"@),
            seq!["free_zone_operations"@, "export_processing"@, "manufacturing"@],
            seq![],
            seq![],
            seq![],
            Some(10i32),
        )
    ]
}

/// Zanzibar Business Registration license type definitions.
pub fn zanzibar_br_license_types() -> (r: Vec<LicenseTypeDefinition>)
    ensures
        license_types_view(r@) == spec_zanzibar_br_license_types(),
        license_types_view(r@) == seq![
            license_type_view(
                "tz-zanzibar-br:business-license"@,
                "Zanzibar Business License"@,
                "General business license for operations in Zanzibar"@,
                "tz-zanzibar-br"@,
                Some("corporate"@),
                seq!["business_operations"@, "trade"@],
                seq![],
                seq![],
                seq![],
                Some(1i32),
            ),
            license_type_view(
                "tz-zanzibar-br:company-registration"@,
                "Zanzibar Company Registration"@,
                "Registration of a company in Zanzibar"@,
                "tz-zanzibar-br"@,
                Some("corporate"@),
                seq!["business_operations"@, "corporate_services"@],
                seq![],
                seq![],
                seq![],
                None,
            ),
            license_type_view(
                "tz-zanzibar-br:foreign-investment"@,
                "Zanzibar Foreign Investment Certificate"@,
                "Certificate for foreign investment operations in Zanzibar"@,
                "tz-zanzibar-br"@,
                Some("corporate"@),
                seq!["foreign_investment"@, "joint_ventures"@],
                seq![],
                seq![],
                seq![],
                Some(5i32),
            ),
            license_type_view(
                "tz-zanzibar-br:free-zone-enterprise"@,
                "Zanzibar Free Economic Zone Enterprise License"@,
                "License to operate within the Zanzibar Free Economic Zone"@,
                "tz-zanzibar-br"@,
                Some("corporate"@),
                seq!["free_zone_operations"@, "export_processing"@, "manufacturing"@],
                seq![],
                seq![],
                seq![],
                Some(10i32),
            )
        ],
{
    let r = vec![
        license_type(
            "tz-zanzibar-br:business-license",
            "Zanzibar Business License",
            "General business license for operations in Zanzibar",
            "tz-zanzibar-br",
            Some("corporate"),
            &["business_operations", "trade"],
            &[],
            &[],
            &[],
            Some(1i32),
        ),
        license_type(
            "tz-zanzibar-br:company-registration",
            "Zanzibar Company Registration",
            "Registration of a company in Zanzibar",
            "tz-zanzibar-br",
            Some("corporate"),
            &["business_operations", "corporate_services"],
            &[],
            &[],
            &[],
            None,
        ),
        license_type(
            "tz-zanzibar-br:foreign-investment",
            "Zanzibar Foreign Investment Certificate",
            "Certificate for foreign investment operations in Zanzibar",
            "tz-zanzibar-br",
            Some("corporate"),
            &["foreign_investment", "joint_ventures"],
            &[],
            &[],
            &[],
            Some(5i32),
        ),
        license_type(
            "tz-zanzibar-br:free-zone-enterprise",
            "Zanzibar Free Economic Zone Enterprise License",
            "License to operate within the Zanzibar Free Economic Zone",
            "tz-zanzibar-br",
            Some("corporate"),
            &["free_zone_operations", "export_processing", "manufacturing"],
            &[],
            &[],
            &[],
            Some(10i32),
        )
    ];
    proof {
        assert(license_types_view(r@) =~~= spec_zanzibar_br_license_types());
    }
    r
}

/// The view of `cbi_regulator`.
pub open spec fn spec_cbi_regulator() -> RegulatorView {
    regulator_view(
        "ie-cbi"@,
        "Central Bank of Ireland"@,
        "ie"@,
        Some("https://www.centralbank.ie"@),
        seq!["firm_directory"@, "register_search"@],
    )
}

/// CBI regulator profile.
pub fn cbi_regulator() -> (r: LicensepackRegulator)
    ensures
        r@ == spec_cbi_regulator(),
        r@ == regulator_view(
            "ie-cbi"@,
            "Central Bank of Ireland"@,
            "ie"@,
            Some("https://www.centralbank.ie"@),
            seq!["firm_directory"@, "register_search"@],
        ),
{
    let r =
        regulator(
            "ie-cbi",
            "Central Bank of Ireland",
            "ie",
            Some("https://www.centralbank.ie"),
            &["firm_directory", "register_search"],
        );
    proof {
        assert(r@ =~~= spec_cbi_regulator());
    }
    r
}

/// The view of `cbi_license_types`.
pub open spec fn spec_cbi_license_types() -> Seq<LicenseTypeView> {
    seq![
        license_type_view(
            "ie-cbi:credit-institution"@,
            "Credit Institution Authorization"@,
            "Authorization to operate as a credit institution (bank) in Ireland under SSM"@,
            "ie-cbi"@,
            Some("financial"@),
            seq!["deposit_taking"@, "lending"@, "payment_services"@],
            seq![],
            seq![],
            seq![],
            None,
        ),
        license_type_view(
            "ie-cbi:insurance-undertaking"@,
            "Insurance Undertaking Authorization"@,
            "Authorization to operate as an insurance undertaking under Solvency II"@,
            "ie-cbi"@,
            Some("insurance"@),
            seq!["general_insurance"@, "life_insurance"@, "reinsurance"@],
            seq![],
            seq![],
            seq![],
            None,
        ),
        license_type_view(
            "ie-cbi:investment-firm"@,
            "Investment Firm Authorization"@,
            "Authorization to operate as an investment firm under MiFID II"@,
            "ie-cbi"@,
            Some("financial"@),
            seq!["securities_dealing"@, "portfolio_management"@, "investment_advisory"@, "order_execution"@],
            seq![],
            seq![],
            seq![],
            None,
        ),
        license_type_view(
            "ie-cbi:fund-manager"@,
            "Fund Management Company Authorization"@,
            "Authorization to manage UCITS or AIFs in Ireland"@,
            "ie-cbi"@,
            Some("financial"@),
            seq!["ucits_management"@, "aif_management"@, "fund_administration"@],
            seq![],
            seq![],
            seq![],
            None,
        ),
        license_type_view(
            "ie-cbi:payment-institution"@,
            "Payment Institution Authorization"@,
            "Authorization to operate as a payment institution under PSD2"@,
            "ie-cbi"@,
            Some("financial"@),
            seq!["payment_processing"@, "payment_initiation"@, "account_information"@],
            seq![],
            seq![],
            seq![],
            None,
        ),
        license_type_view(
            "ie-cbi:e-money-institution"@,
            "Electronic Money Institution Authorization"@,
            "Authorization to issue electronic money under the E-Money Regulations"@,
            "ie-cbi"@,
            Some("financial"@),
            seq!["issuing_e_money"@, "payment_services"@],
            seq![],
            seq![],
            seq![],
            None,
        ),
        license_type_view(
            "ie-cbi:vasp"@,
            "VASP Registration"@,
            "Registration as a virtual asset service provider with the Central Bank of Ireland"@,
            "ie-cbi"@,
            Some("financial"@),
            seq!["virtual_asset_exchange"@, "virtual_asset_custody"@, "virtual_asset_transfer"@],
            seq![],
            seq![],
            seq![],
            Some(3i32),
        ),
        license_type_view(
            "ie-cbi:insurance-intermediary"@,
            "Insurance Intermediary Registration"@,
            "Registration as an insurance intermediary (broker/agent) in Ireland"@,
            "ie-cbi"@,
            Some("insurance"@),
            seq!["insurance_brokerage"@, "insurance_advisory"@],
            seq![],
            seq![],
            seq![],
            Some(1i32),
        )
    ]
}

/// CBI license type definitions.
pub fn cbi_license_types() -> (r: Vec<LicenseTypeDefinition>)
    ensures
        license_types_view(r@) == spec_cbi_license_types(),
        license_types_view(r@) == seq![
            license_type_view(
                "ie-cbi:credit-institution"@,
                "Credit Institution Authorization"@,
                "Authorization to operate as a credit institution (bank) in Ireland under SSM"@,
                "ie-cbi"@,
                Some("financial"@),
                seq!["deposit_taking"@, "lending"@, "payment_services"@],
                seq![],
                seq![],
                seq![],
                None,
            ),
            license_type_view(
                "ie-cbi:insurance-undertaking"@,
                "Insurance Undertaking Authorization"@,
                "Authorization to operate as an insurance undertaking under Solvency II"@,
                "ie-cbi"@,
                Some("insurance"@),
                seq!["general_insurance"@, "life_insurance"@, "reinsurance"@],
                seq![],
                seq![],
                seq![],
                None,
            ),
            license_type_view(
                "ie-cbi:investment-firm"@,
                "Investment Firm Authorization"@,
                "Authorization to operate as an investment firm under MiFID II"@,
                "ie-cbi"@,
                Some("financial"@),
                seq!["securities_dealing"@, "portfolio_management"@, "investment_advisory"@, "order_execution"@],
                seq![],
                seq![],
                seq![],
                None,
            ),
            license_type_view(
                "ie-cbi:fund-manager"@,
                "Fund Management Company Authorization"@,
                "Authorization to manage UCITS or AIFs in Ireland"@,
                "ie-cbi"@,
                Some("financial"@),
                seq!["ucits_management"@, "aif_management"@, "fund_administration"@],
                seq![],
                seq![],
                seq![],
                None,
            ),
            license_type_view(
                "ie-cbi:payment-institution"@,
                "Payment Institution Authorization"@,
                "Authorization to operate as a payment institution under PSD2"@,
                "ie-cbi"@,
                Some("financial"@),
                seq!["payment_processing"@, "payment_initiation"@, "account_information"@],
                seq![],
                seq![],
                seq![],
                None,
            ),
            license_type_view(
                "ie-cbi:e-money-institution"@,
                "Electronic Money Institution Authorization"@,
                "Authorization to issue electronic money under the E-Money Regulations"@,
                "ie-cbi"@,
                Some("financial"@),
                seq!["issuing_e_money"@, "payment_services"@],
                seq![],
                seq![],
                seq![],
                None,
            ),
            license_type_view(
                "ie-cbi:vasp"@,
                "VASP Registration"@,
                "Registration as a virtual asset service provider with the Central Bank of Ireland"@,
                "ie-cbi"@,
                Some("financial"@),
                seq!["virtual_asset_exchange"@, "virtual_asset_custody"@, "virtual_asset_transfer"@],
                seq![],
                seq![],
                seq![],
                Some(3i32),
            ),
            license_type_view(
                "ie-cbi:insurance-intermediary"@,
                "Insurance Intermediary Registration"@,
                "Registration as an insurance intermediary (broker/agent) in Ireland"@,
                "ie-cbi"@,
                Some("insurance"@),
                seq!["insurance_brokerage"@, "insurance_advisory"@],
                seq![],
                seq![],
                seq![],
                Some(1i32),
            )
        ],
{
    let r = vec![
        license_type(
            "ie-cbi:credit-institution",
            "Credit Institution Authorization",
            "Authorization to operate as a credit institution (bank) in Ireland under SSM",
            "ie-cbi",
            Some("financial"),
            &["deposit_taking", "lending", "payment_services"],
            &[],
            &[],
            &[],
            None,
        ),
        license_type(
            "ie-cbi:insurance-undertaking",
            "Insurance Undertaking Authorization",
            "Authorization to operate as an insurance undertaking under Solvency II",
            "ie-cbi",
            Some("insurance"),
            &["general_insurance", "life_insurance", "reinsurance"],
            &[],
            &[],
            &[],
            None,
        ),
        license_type(
            "ie-cbi:investment-firm",
            "Investment Firm Authorization",
            "Authorization to operate as an investment firm under MiFID II",
            "ie-cbi",
            Some("financial"),
            &["securities_dealing", "portfolio_management", "investment_advisory", "order_execution"],
            &[],
            &[],
            &[],
            None,
        ),
        license_type(
            "ie-cbi:fund-manager",
            "Fund Management Company Authorization",
            "Authorization to manage UCITS or AIFs in Ireland",
            "ie-cbi",
            Some("financial"),
            &["ucits_management", "aif_management", "fund_administration"],
            &[],
            &[],
            &[],
            None,
        ),
        license_type(
            "ie-cbi:payment-institution",
            "Payment Institution Authorization",
            "Authorization to operate as a payment institution under PSD2",
            "ie-cbi",
            Some("financial"),
            &["payment_processing", "payment_initiation", "account_information"],
            &[],
            &[],
            &[],
            None,
        ),
        license_type(
            "ie-cbi:e-money-institution",
            "Electronic Money Institution Authorization",
            "Authorization to issue electronic money under the E-Money Regulations",
            "ie-cbi",
            Some("financial"),
            &["issuing_e_money", "payment_services"],
            &[],
            &[],
            &[],
            None,
        ),
        license_type(
            "ie-cbi:vasp",
            "VASP Registration",
            "Registration as a virtual asset service provider with the Central Bank of Ireland",
            "ie-cbi",
            Some("financial"),
            &["virtual_asset_exchange", "virtual_asset_custody", "virtual_asset_transfer"],
            &[],
            &[],
            &[],
            Some(3i32),
        ),
        license_type(
            "ie-cbi:insurance-intermediary",
            "Insurance Intermediary Registration",
            "Registration as an insurance intermediary (broker/agent) in Ireland",
            "ie-cbi",
            Some("insurance"),
            &["insurance_brokerage", "insurance_advisory"],
            &[],
            &[],
            &[],
            Some(1i32),
        )
    ];
    proof {
        assert(license_types_view(r@) =~~= spec_cbi_license_types());
    }
    r
}

/// The view of `cro_regulator`.
pub open spec fn spec_cro_regulator() -> RegulatorView {
    regulator_view(
        "ie-cro"@,
        "Companies Registration Office"@,
        "ie"@,
        Some("https://www.cro.ie"@),
        seq!["company_search"@],
    )
}

/// CRO regulator profile.
pub fn cro_regulator() -> (r: LicensepackRegulator)
    ensures
        r@ == spec_cro_regulator(),
        r@ == regulator_view(
            "ie-cro"@,
            "Companies Registration Office"@,
            "ie"@,
            Some("https://www.cro.ie"@),
            seq!["company_search"@],
        ),
{
    let r =
        regulator(
            "ie-cro",
            "Companies Registration Office",
            "ie",
            Some("https://www.cro.ie"),
            &["company_search"],
        );
    proof {
        assert(r@ =~~= spec_cro_regulator());
    }
    r
}

/// The view of `cro_license_types`.
pub open spec fn spec_cro_license_types() -> Seq<LicenseTypeView> {
    seq![
        license_type_view(
            "ie-cro:private-company-limited"@,
            "Private Company Limited by Shares (LTD)"@,
            "Registration of a private company limited by shares in Ireland"@,
            "ie-cro"@,
            Some("corporate"@),
            seq!["business_operations"@, "professional_services"@],
            seq![],
            seq![],
            seq![],
            None,
        ),
        license_type_view(
            "ie-cro:designated-activity-company"@,
            "Designated Activity Company (DAC)"@,
            "Registration of a designated activity company in Ireland"@,
            "ie-cro"@,
            Some("corporate"@),
            seq!["designated_activities"@, "special_purpose_operations"@],
            seq![],
            seq![],
            seq![],
            None,
        ),
        license_type_view(
            "ie-cro:public-limited-company"@,
            "Public Limited Company (PLC)"@,
            "Registration of a public limited company in Ireland"@,
            "ie-cro"@,
            Some("corporate"@),
            seq!["business_operations"@, "securities_issuance"@, "capital_raising"@],
            seq![],
            seq![],
            seq![],
            None,
        ),
        license_type_view(
            "ie-cro:branch-registration"@,
            "Foreign Company Branch Registration"@,
            "Registration of an external (foreign) company branch in Ireland"@,
            "ie-cro"@,
            Some("corporate"@),
            seq!["branch_operations"@, "representative_office"@],
            seq![],
            seq![],
            seq![],
            None,
        ),
        license_type_view(
            "ie-cro:icav"@,
            "Irish Collective Asset-management Vehicle (ICAV)"@,
            "Registration of an ICAV for fund domiciliation in Ireland"@,
            "ie-cro"@,
            Some("corporate"@),
            seq!["fund_domiciliation"@, "collective_investment"@],
            seq![],
            seq![],
            seq![],
            None,
        )
    ]
}

/// CRO license type definitions.
pub fn cro_license_types() -> (r: Vec<LicenseTypeDefinition>)
    ensures
        license_types_view(r@) == spec_cro_license_types(),
        license_types_view(r@) == seq![
            license_type_view(
                "ie-cro:private-company-limited"@,
                "Private Company Limited by Shares (LTD)"@,
                "Registration of a private company limited by shares in Ireland"@,
                "ie-cro"@,
                Some("corporate"@),
                seq!["business_operations"@, "professional_services"@],
                seq![],
                seq![],
                seq![],
                None,
            ),
            license_type_view(
                "ie-cro:designated-activity-company"@,
                "Designated Activity Company (DAC)"@,
                "Registration of a designated activity company in Ireland"@,
                "ie-cro"@,
                Some("corporate"@),
                seq!["designated_activities"@, "special_purpose_operations"@],
                seq![],
                seq![],
                seq![],
                None,
            ),
            license_type_view(
                "ie-cro:public-limited-company"@,
                "Public Limited Company (PLC)"@,
                "Registration of a public limited company in Ireland"@,
                "ie-cro"@,
                Some("corporate"@),
                seq!["business_operations"@, "securities_issuance"@, "capital_raising"@],
                seq![],
                seq![],
                seq![],
                None,
            ),
            license_type_view(
                "ie-cro:branch-registration"@,
                "Foreign Company Branch Registration"@,
                "Registration of an external (foreign) company branch in Ireland"@,
                "ie-cro"@,
                Some("corporate"@),
                seq!["branch_operations"@, "representative_office"@],
                seq![],
                seq![],
                seq![],
                None,
            ),
            license_type_view(
                "ie-cro:icav"@,
                "Irish Collective Asset-management Vehicle (ICAV)"@,
                "Registration of an ICAV for fund domiciliation in Ireland"@,
                "ie-cro"@,
                Some("corporate"@),
                seq!["fund_domiciliation"@, "collective_investment"@],
                seq![],
                seq![],
                seq![],
                None,
            )
        ],
{
    let r = vec![
        license_type(
            "ie-cro:private-company-limited",
            "Private Company Limited by Shares (LTD)",
            "Registration of a private company limited by shares in Ireland",
            "ie-cro",
            Some("corporate"),
            &["business_operations", "professional_services"],
            &[],
            &[],
            &[],
            None,
        ),
        license_type(
            "ie-cro:designated-activity-company",
            "Designated Activity Company (DAC)",
            "Registration of a designated activity company in Ireland",
            "ie-cro",
            Some("corporate"),
            &["designated_activities", "special_purpose_operations"],
            &[],
            &[],
            &[],
            None,
        ),
        license_type(
            "ie-cro:public-limited-company",
            "Public Limited Company (PLC)",
            "Registration of a public limited company in Ireland",
            "ie-cro",
            Some("corporate"),
            &["business_operations", "securities_issuance", "capital_raising"],
            &[],
            &[],
            &[],
            None,
        ),
        license_type(
            "ie-cro:branch-registration",
            "Foreign Company Branch Registration",
            "Registration of an external (foreign) company branch in Ireland",
            "ie-cro",
            Some("corporate"),
            &["branch_operations", "representative_office"],
            &[],
            &[],
            &[],
            None,
        ),
        license_type(
            "ie-cro:icav",
            "Irish Collective Asset-management Vehicle (ICAV)",
            "Registration of an ICAV for fund domiciliation in Ireland",
            "ie-cro",
            Some("corporate"),
            &["fund_domiciliation", "collective_investment"],
            &[],
            &[],
            &[],
            None,
        )
    ];
    proof {
        assert(license_types_view(r@) =~~= spec_cro_license_types());
    }
    r
}

/// The view of `additional_regulators`.
pub open spec fn spec_additional_regulators() -> Seq<RegulatorView> {
    seq![spec_bdp_regulator(), spec_cmvm_regulator(), spec_ojk_regulator(), spec_bi_regulator(), spec_sarb_regulator(), spec_fsca_regulator(), spec_cbe_regulator(), spec_fra_regulator(), spec_bot_regulator(), spec_zanzibar_br_regulator(), spec_cbi_regulator(), spec_cro_regulator()]
}

/// All additional jurisdiction regulatory authorities.
pub fn additional_regulators() -> (r: Vec<LicensepackRegulator>)
    ensures
        regulators_view(r@) == spec_additional_regulators(),
        regulators_view(r@) == seq![spec_bdp_regulator(), spec_cmvm_regulator(), spec_ojk_regulator(), spec_bi_regulator(), spec_sarb_regulator(), spec_fsca_regulator(), spec_cbe_regulator(), spec_fra_regulator(), spec_bot_regulator(), spec_zanzibar_br_regulator(), spec_cbi_regulator(), spec_cro_regulator()],
{
    let r = vec![bdp_regulator(), cmvm_regulator(), ojk_regulator(), bi_regulator(), sarb_regulator(), fsca_regulator(), cbe_regulator(), fra_regulator(), bot_regulator(), zanzibar_br_regulator(), cbi_regulator(), cro_regulator()];
    proof {
        assert(regulators_view(r@) =~~= spec_additional_regulators());
    }
    r
}

/// The view of `additional_license_types`.
pub open spec fn spec_additional_license_types() -> Seq<LicenseTypeView> {
    spec_bdp_license_types()
        + spec_cmvm_license_types()
        + spec_ojk_license_types()
        + spec_bi_license_types()
        + spec_sarb_license_types()
        + spec_fsca_license_types()
        + spec_cbe_license_types()
        + spec_fra_license_types()
        + spec_bot_license_types()
        + spec_zanzibar_br_license_types()
        + spec_cbi_license_types()
        + spec_cro_license_types()
}

/// All additional jurisdiction license type definitions across all authorities.
pub fn additional_license_types() -> (r: Vec<LicenseTypeDefinition>)
    ensures
        license_types_view(r@) == spec_additional_license_types(),
        license_types_view(r@) == spec_bdp_license_types()
            + spec_cmvm_license_types()
            + spec_ojk_license_types()
            + spec_bi_license_types()
            + spec_sarb_license_types()
            + spec_fsca_license_types()
            + spec_cbe_license_types()
            + spec_fra_license_types()
            + spec_bot_license_types()
            + spec_zanzibar_br_license_types()
            + spec_cbi_license_types()
            + spec_cro_license_types(),
{
    let mut all: Vec<LicenseTypeDefinition> = Vec::new();
    proof {
        assert(license_types_view(all@) =~= Seq::<LicenseTypeView>::empty());
    }
    let ghost before = all@;
    let mut part = bdp_license_types();
    let ghost added = part@;
    all.append(&mut part);
    proof {
        lemma_license_types_view_append(before, added);
        assert(license_types_view(all@) =~= spec_bdp_license_types());
    }
    let ghost before = all@;
    let mut part = cmvm_license_types();
    let ghost added = part@;
    all.append(&mut part);
    proof {
        lemma_license_types_view_append(before, added);
        assert(license_types_view(all@) =~= spec_bdp_license_types() + spec_cmvm_license_types());
    }
    let ghost before = all@;
    let mut part = ojk_license_types();
    let ghost added = part@;
    all.append(&mut part);
    proof {
        lemma_license_types_view_append(before, added);
        assert(license_types_view(all@) =~= spec_bdp_license_types() + spec_cmvm_license_types() + spec_ojk_license_types());
    }
    let ghost before = all@;
    let mut part = bi_license_types();
    let ghost added = part@;
    all.append(&mut part);
    proof {
        lemma_license_types_view_append(before, added);
        assert(license_types_view(all@) =~= spec_bdp_license_types() + spec_cmvm_license_types() + spec_ojk_license_types() + spec_bi_license_types());
    }
    let ghost before = all@;
    let mut part = sarb_license_types();
    let ghost added = part@;
    all.append(&mut part);
    proof {
        lemma_license_types_view_append(before, added);
        assert(license_types_view(all@) =~= spec_bdp_license_types() + spec_cmvm_license_types() + spec_ojk_license_types() + spec_bi_license_types() + spec_sarb_license_types());
    }
    let ghost before = all@;
    let mut part = fsca_license_types();
    let ghost added = part@;
    all.append(&mut part);
    proof {
        lemma_license_types_view_append(before, added);
        assert(license_types_view(all@) =~= spec_bdp_license_types() + spec_cmvm_license_types() + spec_ojk_license_types() + spec_bi_license_types() + spec_sarb_license_types() + spec_fsca_license_types());
    }
    let ghost before = all@;
    let mut part = cbe_license_types();
    let ghost added = part@;
    all.append(&mut part);
    proof {
        lemma_license_types_view_append(before, added);
        assert(license_types_view(all@) =~= spec_bdp_license_types() + spec_cmvm_license_types() + spec_ojk_license_types() + spec_bi_license_types() + spec_sarb_license_types() + spec_fsca_license_types() + spec_cbe_license_types());
    }
    let ghost before = all@;
    let mut part = fra_license_types();
    let ghost added = part@;
    all.append(&mut part);
    proof {
        lemma_license_types_view_append(before, added);
        assert(license_types_view(all@) =~= spec_bdp_license_types() + spec_cmvm_license_types() + spec_ojk_license_types() + spec_bi_license_types() + spec_sarb_license_types() + spec_fsca_license_types() + spec_cbe_license_types() + spec_fra_license_types());
    }
    let ghost before = all@;
    let mut part = bot_license_types();
    let ghost added = part@;
    all.append(&mut part);
    proof {
        lemma_license_types_view_append(before, added);
        assert(license_types_view(all@) =~= spec_bdp_license_types() + spec_cmvm_license_types() + spec_ojk_license_types() + spec_bi_license_types() + spec_sarb_license_types() + spec_fsca_license_types() + spec_cbe_license_types() + spec_fra_license_types() + spec_bot_license_types());
    }
    let ghost before = all@;
    let mut part = zanzibar_br_license_types();
    let ghost added = part@;
    all.append(&mut part);
    proof {
        lemma_license_types_view_append(before, added);
        assert(license_types_view(all@) =~= spec_bdp_license_types() + spec_cmvm_license_types() + spec_ojk_license_types() + spec_bi_license_types() + spec_sarb_license_types() + spec_fsca_license_types() + spec_cbe_license_types() + spec_fra_license_types() + spec_bot_license_types() + spec_zanzibar_br_license_types());
    }
    let ghost before = all@;
    let mut part = cbi_license_types();
    let ghost added = part@;
    all.append(&mut part);
    proof {
        lemma_license_types_view_append(before, added);
        assert(license_types_view(all@) =~= spec_bdp_license_types() + spec_cmvm_license_types() + spec_ojk_license_types() + spec_bi_license_types() + spec_sarb_license_types() + spec_fsca_license_types() + spec_cbe_license_types() + spec_fra_license_types() + spec_bot_license_types() + spec_zanzibar_br_license_types() + spec_cbi_license_types());
    }
    let ghost before = all@;
    let mut part = cro_license_types();
    let ghost added = part@;
    all.append(&mut part);
    proof {
        lemma_license_types_view_append(before, added);
        assert(license_types_view(all@) =~= spec_bdp_license_types() + spec_cmvm_license_types() + spec_ojk_license_types() + spec_bi_license_types() + spec_sarb_license_types() + spec_fsca_license_types() + spec_cbe_license_types() + spec_fra_license_types() + spec_bot_license_types() + spec_zanzibar_br_license_types() + spec_cbi_license_types() + spec_cro_license_types());
    }
    all
}

/// The licence types of `bdp_license_types` are complete, granted by its regulators, and
/// each of its regulators grants at least one of them.
proof fn lemma_bdp_group()
    ensures
        license_types_complete(spec_bdp_license_types()),
        granted_by_listed_regulators(spec_bdp_license_types(), seq![spec_bdp_regulator()]),
        every_regulator_grants(spec_bdp_license_types(), seq![spec_bdp_regulator()]),
{
    assert(complete_each(spec_bdp_license_types())) by {
        reveal_strlit("pt-bdp:credit-institution");
        reveal_strlit("Credit Institution Authorization");
        reveal_strlit("Authorization to operate as a credit institution in Portugal");
        reveal_strlit("pt-bdp");
        reveal_strlit("pt-bdp:payment-institution");
        reveal_strlit("Payment Institution Authorization");
        reveal_strlit("Authorization to operate as a payment institution under PSD2 in Portugal");
        reveal_strlit("pt-bdp:e-money-institution");
        reveal_strlit("Electronic Money Institution Authorization");
        reveal_strlit("Authorization to issue electronic money in Portugal");
        reveal_strlit("pt-bdp:vasp");
        reveal_strlit("VASP Registration");
        reveal_strlit("Registration as a virtual asset service provider with Banco de Portugal");
        reveal_strlit("pt-bdp:forex-dealer");
        reveal_strlit("Foreign Exchange Dealer Authorization");
        reveal_strlit("Authorization to provide foreign exchange services in Portugal");
        reveal_with_fuel(complete_each, 6);
    }
    lemma_complete_each(spec_bdp_license_types());
    assert(granted_by_each(spec_bdp_license_types(), seq![spec_bdp_regulator()][0].regulator_id)) by {
        reveal_with_fuel(granted_by_each, 6);
    }
    lemma_granted_by_each(spec_bdp_license_types(), seq![spec_bdp_regulator()], 0);
    assert(grants_some(spec_bdp_license_types(), seq![spec_bdp_regulator()][0].regulator_id)) by {
        assert(spec_bdp_license_types()[0].regulator_id == seq![spec_bdp_regulator()][0].regulator_id);
    }
    assert(grants_each(spec_bdp_license_types(), seq![spec_bdp_regulator()])) by {
        reveal_with_fuel(grants_each, 2);
    }
    lemma_grants_each(spec_bdp_license_types(), seq![spec_bdp_regulator()]);
}

/// The licence types of `cmvm_license_types` are complete, granted by its regulators, and
/// each of its regulators grants at least one of them.
proof fn lemma_cmvm_group()
    ensures
        license_types_complete(spec_cmvm_license_types()),
        granted_by_listed_regulators(spec_cmvm_license_types(), seq![spec_cmvm_regulator()]),
        every_regulator_grants(spec_cmvm_license_types(), seq![spec_cmvm_regulator()]),
{
    assert(complete_each(spec_cmvm_license_types())) by {
        reveal_strlit("pt-cmvm:investment-firm");
        reveal_strlit("Investment Firm Authorization");
        reveal_strlit("Authorization to operate as an investment firm in Portugal under MiFID II");
        reveal_strlit("pt-cmvm");
        reveal_strlit("pt-cmvm:fund-manager");
        reveal_strlit("Fund Management Company Authorization");
        reveal_strlit("Authorization to manage investment funds in Portugal");
        reveal_strlit("pt-cmvm:venture-capital");
        reveal_strlit("Venture Capital Company Registration");
        reveal_strlit("Registration to operate as a venture capital company in Portugal");
        reveal_strlit("pt-cmvm:financial-intermediary");
        reveal_strlit("Financial Intermediary Registration");
        reveal_strlit("Registration as a tied agent or financial intermediary in Portugal");
        reveal_strlit("pt-cmvm:crowdfunding-platform");
        reveal_strlit("Crowdfunding Platform Authorization");
        reveal_strlit("Authorization to operate a crowdfunding platform under ECSPR in Portugal");
        reveal_with_fuel(complete_each, 6);
    }
    lemma_complete_each(spec_cmvm_license_types());
    assert(granted_by_each(spec_cmvm_license_types(), seq![spec_cmvm_regulator()][0].regulator_id)) by {
        reveal_with_fuel(granted_by_each, 6);
    }
    lemma_granted_by_each(spec_cmvm_license_types(), seq![spec_cmvm_regulator()], 0);
    assert(grants_some(spec_cmvm_license_types(), seq![spec_cmvm_regulator()][0].regulator_id)) by {
        assert(spec_cmvm_license_types()[0].regulator_id == seq![spec_cmvm_regulator()][0].regulator_id);
    }
    assert(grants_each(spec_cmvm_license_types(), seq![spec_cmvm_regulator()])) by {
        reveal_with_fuel(grants_each, 2);
    }
    lemma_grants_each(spec_cmvm_license_types(), seq![spec_cmvm_regulator()]);
}

/// The licence types of `ojk_license_types` are complete, granted by its regulators, and
/// each of its regulators grants at least one of them.
proof fn lemma_ojk_group()
    ensures
        license_types_complete(spec_ojk_license_types()),
        granted_by_listed_regulators(spec_ojk_license_types(), seq![spec_ojk_regulator()]),
        every_regulator_grants(spec_ojk_license_types(), seq![spec_ojk_regulator()]),
{
    assert(complete_each(spec_ojk_license_types())) by {
        reveal_strlit("id-ojk:commercial-bank");
        reveal_strlit("Commercial Banking License");
        reveal_strlit("License to operate as a commercial bank under OJK regulation");
        reveal_strlit("id-ojk");
        reveal_strlit("id-ojk:insurance");
        reveal_strlit("Insurance License");
        reveal_strlit("License to operate as an insurance company in Indonesia");
        reveal_strlit("id-ojk:securities-company");
        reveal_strlit("Securities Company License");
        reveal_strlit("License to operate as a securities company in Indonesia");
        reveal_strlit("id-ojk:fintech-lending");
        reveal_strlit("Fintech Lending License");
        reveal_strlit("License to operate a peer-to-peer lending platform under OJK regulation");
        reveal_strlit("id-ojk:multifinance");
        reveal_strlit("Multifinance Company License");
        reveal_strlit("License to operate as a multifinance company in Indonesia");
        reveal_strlit("id-ojk:digital-bank");
        reveal_strlit("Digital Banking License");
        reveal_strlit("License to operate as a digital bank under OJK regulation");
        reveal_with_fuel(complete_each, 7);
    }
    lemma_complete_each(spec_ojk_license_types());
    assert(granted_by_each(spec_ojk_license_types(), seq![spec_ojk_regulator()][0].regulator_id)) by {
        reveal_with_fuel(granted_by_each, 7);
    }
    lemma_granted_by_each(spec_ojk_license_types(), seq![spec_ojk_regulator()], 0);
    assert(grants_some(spec_ojk_license_types(), seq![spec_ojk_regulator()][0].regulator_id)) by {
        assert(spec_ojk_license_types()[0].regulator_id == seq![spec_ojk_regulator()][0].regulator_id);
    }
    assert(grants_each(spec_ojk_license_types(), seq![spec_ojk_regulator()])) by {
        reveal_with_fuel(grants_each, 2);
    }
    lemma_grants_each(spec_ojk_license_types(), seq![spec_ojk_regulator()]);
}

/// The licence types of `bi_license_types` are complete, granted by its regulators, and
/// each of its regulators grants at least one of them.
proof fn lemma_bi_group()
    ensures
        license_types_complete(spec_bi_license_types()),
        granted_by_listed_regulators(spec_bi_license_types(), seq![spec_bi_regulator()]),
        every_regulator_grants(spec_bi_license_types(), seq![spec_bi_regulator()]),
{
    assert(complete_each(spec_bi_license_types())) by {
        reveal_strlit("id-bi:payment-system-provider");
        reveal_strlit("Payment System Provider License");
        reveal_strlit("License to operate a payment system under Bank Indonesia regulation");
        reveal_strlit("id-bi");
        reveal_strlit("id-bi:e-money-issuer");
        reveal_strlit("Electronic Money Issuer License");
        reveal_strlit("License to issue electronic money under Bank Indonesia regulation");
        reveal_strlit("id-bi:payment-gateway");
        reveal_strlit("Payment Gateway License");
        reveal_strlit("License to operate a payment gateway in Indonesia");
        reveal_strlit("id-bi:money-transfer");
        reveal_strlit("Money Transfer Operator License");
        reveal_strlit("License to operate money transfer services in Indonesia");
        reveal_with_fuel(complete_each, 5);
    }
    lemma_complete_each(spec_bi_license_types());
    assert(granted_by_each(spec_bi_license_types(), seq![spec_bi_regulator()][0].regulator_id)) by {
        reveal_with_fuel(granted_by_each, 5);
    }
    lemma_granted_by_each(spec_bi_license_types(), seq![spec_bi_regulator()], 0);
    assert(grants_some(spec_bi_license_types(), seq![spec_bi_regulator()][0].regulator_id)) by {
        assert(spec_bi_license_types()[0].regulator_id == seq![spec_bi_regulator()][0].regulator_id);
    }
    assert(grants_each(spec_bi_license_types(), seq![spec_bi_regulator()])) by {
        reveal_with_fuel(grants_each, 2);
    }
    lemma_grants_each(spec_bi_license_types(), seq![spec_bi_regulator()]);
}

/// The licence types of `sarb_license_types` are complete, granted by its regulators, and
/// each of its regulators grants at least one of them.
proof fn lemma_sarb_group()
    ensures
        license_types_complete(spec_sarb_license_types()),
        granted_by_listed_regulators(spec_sarb_license_types(), seq![spec_sarb_regulator()]),
        every_regulator_grants(spec_sarb_license_types(), seq![spec_sarb_regulator()]),
{
    assert(complete_each(spec_sarb_license_types())) by {
        reveal_strlit("za-sarb:banking");
        reveal_strlit("Banking License");
        reveal_strlit("License to conduct banking business under the Banks Act 94 of 1990");
        reveal_strlit("za-sarb");
        reveal_strlit("za-sarb:mutual-bank");
        reveal_strlit("Mutual Bank License");
        reveal_strlit("License to operate as a mutual bank under the Mutual Banks Act 124 of 1993");
        reveal_strlit("za-sarb:payment-system");
        reveal_strlit("Payment System Operator Designation");
        reveal_strlit("Designation to operate a payment system under the National Payment System Act");
        reveal_strlit("za-sarb:adla");
        reveal_strlit("Authorized Dealer in Foreign Exchange (Limited Authority)");
        reveal_strlit("Authorization as an authorized dealer with limited authority for forex transactions");
        reveal_strlit("za-sarb:casp");
        reveal_strlit("Crypto Asset Service Provider Registration");
        reveal_strlit("Registration as a crypto asset service provider with the SARB/FSCA");
        reveal_with_fuel(complete_each, 6);
    }
    lemma_complete_each(spec_sarb_license_types());
    assert(granted_by_each(spec_sarb_license_types(), seq![spec_sarb_regulator()][0].regulator_id)) by {
        reveal_with_fuel(granted_by_each, 6);
    }
    lemma_granted_by_each(spec_sarb_license_types(), seq![spec_sarb_regulator()], 0);
    assert(grants_some(spec_sarb_license_types(), seq![spec_sarb_regulator()][0].regulator_id)) by {
        assert(spec_sarb_license_types()[0].regulator_id == seq![spec_sarb_regulator()][0].regulator_id);
    }
    assert(grants_each(spec_sarb_license_types(), seq![spec_sarb_regulator()])) by {
        reveal_with_fuel(grants_each, 2);
    }
    lemma_grants_each(spec_sarb_license_types(), seq![spec_sarb_regulator()]);
}

/// The licence types of `fsca_license_types` are complete, granted by its regulators, and
/// each of its regulators grants at least one of them.
proof fn lemma_fsca_group()
    ensures
        license_types_complete(spec_fsca_license_types()),
        granted_by_listed_regulators(spec_fsca_license_types(), seq![spec_fsca_regulator()]),
        every_regulator_grants(spec_fsca_license_types(), seq![spec_fsca_regulator()]),
{
    assert(complete_each(spec_fsca_license_types())) by {
        reveal_strlit("za-fsca:fsp");
        reveal_strlit("Financial Services Provider License");
        reveal_strlit("License to provide financial services under the FAIS Act 37 of 2002");
        reveal_strlit("za-fsca");
        reveal_strlit("za-fsca:insurance");
        reveal_strlit("Insurance License");
        reveal_strlit("License to conduct insurance business under the Insurance Act 18 of 2017");
        reveal_strlit("za-fsca:collective-investment-scheme");
        reveal_strlit("Collective Investment Scheme Manager License");
        reveal_strlit("License to manage a collective investment scheme under the CIS Control Act");
        reveal_strlit("za-fsca:market-infrastructure");
        reveal_strlit("Market Infrastructure License");
        reveal_strlit("License to operate market infrastructure under the Financial Markets Act");
        reveal_strlit("za-fsca:retirement-fund");
        reveal_strlit("Retirement Fund Registration");
        reveal_strlit("Registration of a retirement fund under the Pension Funds Act");
        reveal_with_fuel(complete_each, 6);
    }
    lemma_complete_each(spec_fsca_license_types());
    assert(granted_by_each(spec_fsca_license_types(), seq![spec_fsca_regulator()][0].regulator_id)) by {
        reveal_with_fuel(granted_by_each, 6);
    }
    lemma_granted_by_each(spec_fsca_license_types(), seq![spec_fsca_regulator()], 0);
    assert(grants_some(spec_fsca_license_types(), seq![spec_fsca_regulator()][0].regulator_id)) by {
        assert(spec_fsca_license_types()[0].regulator_id == seq![spec_fsca_regulator()][0].regulator_id);
    }
    assert(grants_each(spec_fsca_license_types(), seq![spec_fsca_regulator()])) by {
        reveal_with_fuel(grants_each, 2);
    }
    lemma_grants_each(spec_fsca_license_types(), seq![spec_fsca_regulator()]);
}

/// The licence types of `cbe_license_types` are complete, granted by its regulators, and
/// each of its regulators grants at least one of them.
proof fn lemma_cbe_group()
    ensures
        license_types_complete(spec_cbe_license_types()),
        granted_by_listed_regulators(spec_cbe_license_types(), seq![spec_cbe_regulator()]),
        every_regulator_grants(spec_cbe_license_types(), seq![spec_cbe_regulator()]),
{
    assert(complete_each(spec_cbe_license_types())) by {
        reveal_strlit("eg-cbe:commercial-bank");
        reveal_strlit("Commercial Banking License");
        reveal_strlit("License to operate as a commercial bank under the Central Bank and Banking Law");
        reveal_strlit("eg-cbe");
        reveal_strlit("eg-cbe:islamic-bank");
        reveal_strlit("Islamic Banking License");
        reveal_strlit("License to operate as an Islamic bank in Egypt under Sharia-compliant principles");
        reveal_strlit("eg-cbe:payment-service-provider");
        reveal_strlit("Payment Service Provider License");
        reveal_strlit("License to provide payment services in Egypt");
        reveal_strlit("eg-cbe:fintech");
        reveal_strlit("Fintech License");
        reveal_strlit("License to operate a fintech company under CBE fintech regulations");
        reveal_strlit("eg-cbe:money-exchange");
        reveal_strlit("Money Exchange License");
        reveal_strlit("License to operate a money exchange in Egypt");
        reveal_with_fuel(complete_each, 6);
    }
    lemma_complete_each(spec_cbe_license_types());
    assert(granted_by_each(spec_cbe_license_types(), seq![spec_cbe_regulator()][0].regulator_id)) by {
        reveal_with_fuel(granted_by_each, 6);
    }
    lemma_granted_by_each(spec_cbe_license_types(), seq![spec_cbe_regulator()], 0);
    assert(grants_some(spec_cbe_license_types(), seq![spec_cbe_regulator()][0].regulator_id)) by {
        assert(spec_cbe_license_types()[0].regulator_id == seq![spec_cbe_regulator()][0].regulator_id);
    }
    assert(grants_each(spec_cbe_license_types(), seq![spec_cbe_regulator()])) by {
        reveal_with_fuel(grants_each, 2);
    }
    lemma_grants_each(spec_cbe_license_types(), seq![spec_cbe_regulator()]);
}

/// The licence types of `fra_license_types` are complete, granted by its regulators, and
/// each of its regulators grants at least one of them.
proof fn lemma_fra_group()
    ensures
        license_types_complete(spec_fra_license_types()),
        granted_by_listed_regulators(spec_fra_license_types(), seq![spec_fra_regulator()]),
        every_regulator_grants(spec_fra_license_types(), seq![spec_fra_regulator()]),
{
    assert(complete_each(spec_fra_license_types())) by {
        reveal_strlit("eg-fra:securities-brokerage");
        reveal_strlit("Securities Brokerage License");
        reveal_strlit("License to operate as a securities broker in Egypt");
        reveal_strlit("eg-fra");
        reveal_strlit("eg-fra:insurance");
        reveal_strlit("Insurance License");
        reveal_strlit("License to conduct non-bank insurance business in Egypt");
        reveal_strlit("eg-fra:microfinance");
        reveal_strlit("Microfinance License");
        reveal_strlit("License to operate as a microfinance institution in Egypt");
        reveal_strlit("eg-fra:leasing");
        reveal_strlit("Financial Leasing License");
        reveal_strlit("License to conduct financial leasing operations in Egypt");
        reveal_strlit("eg-fra:factoring");
        reveal_strlit("Factoring License");
        reveal_strlit("License to conduct factoring operations in Egypt");
        reveal_with_fuel(complete_each, 6);
    }
    lemma_complete_each(spec_fra_license_types());
    assert(granted_by_each(spec_fra_license_types(), seq![spec_fra_regulator()][0].regulator_id)) by {
        reveal_with_fuel(granted_by_each, 6);
    }
    lemma_granted_by_each(spec_fra_license_types(), seq![spec_fra_regulator()], 0);
    assert(grants_some(spec_fra_license_types(), seq![spec_fra_regulator()][0].regulator_id)) by {
        assert(spec_fra_license_types()[0].regulator_id == seq![spec_fra_regulator()][0].regulator_id);
    }
    assert(grants_each(spec_fra_license_types(), seq![spec_fra_regulator()])) by {
        reveal_with_fuel(grants_each, 2);
    }
    lemma_grants_each(spec_fra_license_types(), seq![spec_fra_regulator()]);
}

/// The licence types of `bot_license_types` are complete, granted by its regulators, and
/// each of its regulators grants at least one of them.
proof fn lemma_bot_group()
    ensures
        license_types_complete(spec_bot_license_types()),
        granted_by_listed_regulators(spec_bot_license_types(), seq![spec_bot_regulator()]),
        every_regulator_grants(spec_bot_license_types(), seq![spec_bot_regulator()]),
{
    assert(complete_each(spec_bot_license_types())) by {
        reveal_strlit("tz-bot:commercial-bank");
        reveal_strlit("Commercial Banking License");
        reveal_strlit("License to operate as a commercial bank in Tanzania");
        reveal_strlit("tz-bot");
        reveal_strlit("tz-bot:microfinance");
        reveal_strlit("Microfinance Bank License");
        reveal_strlit("License to operate as a microfinance bank in Tanzania");
        reveal_strlit("tz-bot:mobile-money");
        reveal_strlit("Mobile Money Operator License");
        reveal_strlit("License to operate mobile money services in Tanzania");
        reveal_strlit("tz-bot:forex-bureau");
        reveal_strlit("Foreign Exchange Bureau License");
        reveal_strlit("License to operate a foreign exchange bureau in Tanzania");
        reveal_strlit("tz-bot:payment-system");
        reveal_strlit("Payment System Operator License");
        reveal_strlit("License to operate a payment system in Tanzania");
        reveal_with_fuel(complete_each, 6);
    }
    lemma_complete_each(spec_bot_license_types());
    assert(granted_by_each(spec_bot_license_types(), seq![spec_bot_regulator()][0].regulator_id)) by {
        reveal_with_fuel(granted_by_each, 6);
    }
    lemma_granted_by_each(spec_bot_license_types(), seq![spec_bot_regulator()], 0);
    assert(grants_some(spec_bot_license_types(), seq![spec_bot_regulator()][0].regulator_id)) by {
        assert(spec_bot_license_types()[0].regulator_id == seq![spec_bot_regulator()][0].regulator_id);
    }
    assert(grants_each(spec_bot_license_types(), seq![spec_bot_regulator()])) by {
        reveal_with_fuel(grants_each, 2);
    }
    lemma_grants_each(spec_bot_license_types(), seq![spec_bot_regulator()]);
}

/// The licence types of `zanzibar_br_license_types` are complete, granted by its regulators, and
/// each of its regulators grants at least one of them.
proof fn lemma_zanzibar_br_group()
    ensures
        license_types_complete(spec_zanzibar_br_license_types()),
        granted_by_listed_regulators(spec_zanzibar_br_license_types(), seq![spec_zanzibar_br_regulator()]),
        every_regulator_grants(spec_zanzibar_br_license_types(), seq![spec_zanzibar_br_regulator()]),
{
    assert(complete_each(spec_zanzibar_br_license_types())) by {
        reveal_strlit("tz-zanzibar-br:business-license");
        reveal_strlit("Zanzibar Business License");
        reveal_strlit("General business license for operations in Zanzibar");
        reveal_strlit("tz-zanzibar-br");
        reveal_strlit("tz-zanzibar-br:company-registration");
        reveal_strlit("Zanzibar Company Registration");
        reveal_strlit("Registration of a company in Zanzibar");
        reveal_strlit("tz-zanzibar-br:foreign-investment");
        reveal_strlit("Zanzibar Foreign Investment Certificate");
        reveal_strlit("Certificate for foreign investment operations in Zanzibar");
        reveal_strlit("tz-zanzibar-br:free-zone-enterprise");
        reveal_strlit("Zanzibar Free Economic Zone Enterprise License");
        reveal_strlit("License to operate within the Zanzibar Free Economic Zone");
        reveal_with_fuel(complete_each, 5);
    }
    lemma_complete_each(spec_zanzibar_br_license_types());
    assert(granted_by_each(spec_zanzibar_br_license_types(), seq![spec_zanzibar_br_regulator()][0].regulator_id)) by {
        reveal_with_fuel(granted_by_each, 5);
    }
    lemma_granted_by_each(spec_zanzibar_br_license_types(), seq![spec_zanzibar_br_regulator()], 0);
    assert(grants_some(spec_zanzibar_br_license_types(), seq![spec_zanzibar_br_regulator()][0].regulator_id)) by {
        assert(spec_zanzibar_br_license_types()[0].regulator_id == seq![spec_zanzibar_br_regulator()][0].regulator_id);
    }
    assert(grants_each(spec_zanzibar_br_license_types(), seq![spec_zanzibar_br_regulator()])) by {
        reveal_with_fuel(grants_each, 2);
    }
    lemma_grants_each(spec_zanzibar_br_license_types(), seq![spec_zanzibar_br_regulator()]);
}

/// The licence types of `cbi_license_types` are complete, granted by its regulators, and
/// each of its regulators grants at least one of them.
proof fn lemma_cbi_group()
    ensures
        license_types_complete(spec_cbi_license_types()),
        granted_by_listed_regulators(spec_cbi_license_types(), seq![spec_cbi_regulator()]),
        every_regulator_grants(spec_cbi_license_types(), seq![spec_cbi_regulator()]),
{
    assert(complete_each(spec_cbi_license_types())) by {
        reveal_strlit("ie-cbi:credit-institution");
        reveal_strlit("Credit Institution Authorization");
        reveal_strlit("Authorization to operate as a credit institution (bank) in Ireland under SSM");
        reveal_strlit("ie-cbi");
        reveal_strlit("ie-cbi:insurance-undertaking");
        reveal_strlit("Insurance Undertaking Authorization");
        reveal_strlit("Authorization to operate as an insurance undertaking under Solvency II");
        reveal_strlit("ie-cbi:investment-firm");
        reveal_strlit("Investment Firm Authorization");
        reveal_strlit("Authorization to operate as an investment firm under MiFID II");
        reveal_strlit("ie-cbi:fund-manager");
        reveal_strlit("Fund Management Company Authorization");
        reveal_strlit("Authorization to manage UCITS or AIFs in Ireland");
        reveal_strlit("ie-cbi:payment-institution");
        reveal_strlit("Payment Institution Authorization");
        reveal_strlit("Authorization to operate as a payment institution under PSD2");
        reveal_strlit("ie-cbi:e-money-institution");
        reveal_strlit("Electronic Money Institution Authorization");
        reveal_strlit("Authorization to issue electronic money under the E-Money Regulations");
        reveal_strlit("ie-cbi:vasp");
        reveal_strlit("VASP Registration");
        reveal_strlit("Registration as a virtual asset service provider with the Central Bank of Ireland");
        reveal_strlit("ie-cbi:insurance-intermediary");
        reveal_strlit("Insurance Intermediary Registration");
        reveal_strlit("Registration as an insurance intermediary (broker/agent) in Ireland");
        reveal_with_fuel(complete_each, 9);
    }
    lemma_complete_each(spec_cbi_license_types());
    assert(granted_by_each(spec_cbi_license_types(), seq![spec_cbi_regulator()][0].regulator_id)) by {
        reveal_with_fuel(granted_by_each, 9);
    }
    lemma_granted_by_each(spec_cbi_license_types(), seq![spec_cbi_regulator()], 0);
    assert(grants_some(spec_cbi_license_types(), seq![spec_cbi_regulator()][0].regulator_id)) by {
        assert(spec_cbi_license_types()[0].regulator_id == seq![spec_cbi_regulator()][0].regulator_id);
    }
    assert(grants_each(spec_cbi_license_types(), seq![spec_cbi_regulator()])) by {
        reveal_with_fuel(grants_each, 2);
    }
    lemma_grants_each(spec_cbi_license_types(), seq![spec_cbi_regulator()]);
}

/// The licence types of `cro_license_types` are complete, granted by its regulators, and
/// each of its regulators grants at least one of them.
proof fn lemma_cro_group()
    ensures
        license_types_complete(spec_cro_license_types()),
        granted_by_listed_regulators(spec_cro_license_types(), seq![spec_cro_regulator()]),
        every_regulator_grants(spec_cro_license_types(), seq![spec_cro_regulator()]),
{
    assert(complete_each(spec_cro_license_types())) by {
        reveal_strlit("ie-cro:private-company-limited");
        reveal_strlit("Private Company Limited by Shares (LTD)");
        reveal_strlit("Registration of a private company limited by shares in Ireland");
        reveal_strlit("ie-cro");
        reveal_strlit("ie-cro:designated-activity-company");
        reveal_strlit("Designated Activity Company (DAC)");
        reveal_strlit("Registration of a designated activity company in Ireland");
        reveal_strlit("ie-cro:public-limited-company");
        reveal_strlit("Public Limited Company (PLC)");
        reveal_strlit("Registration of a public limited company in Ireland");
        reveal_strlit("ie-cro:branch-registration");
        reveal_strlit("Foreign Company Branch Registration");
        reveal_strlit("Registration of an external (foreign) company branch in Ireland");
        reveal_strlit("ie-cro:icav");
        reveal_strlit("Irish Collective Asset-management Vehicle (ICAV)");
        reveal_strlit("Registration of an ICAV for fund domiciliation in Ireland");
        reveal_with_fuel(complete_each, 6);
    }
    lemma_complete_each(spec_cro_license_types());
    assert(granted_by_each(spec_cro_license_types(), seq![spec_cro_regulator()][0].regulator_id)) by {
        reveal_with_fuel(granted_by_each, 6);
    }
    lemma_granted_by_each(spec_cro_license_types(), seq![spec_cro_regulator()], 0);
    assert(grants_some(spec_cro_license_types(), seq![spec_cro_regulator()][0].regulator_id)) by {
        assert(spec_cro_license_types()[0].regulator_id == seq![spec_cro_regulator()][0].regulator_id);
    }
    assert(grants_each(spec_cro_license_types(), seq![spec_cro_regulator()])) by {
        reveal_with_fuel(grants_each, 2);
    }
    lemma_grants_each(spec_cro_license_types(), seq![spec_cro_regulator()]);
}

/// The catalog of the additional jurisdictions is consistent: every licence type has a non-empty identifier, name, description and
/// regulator identifier, a category, and at least one permitted activity;
/// every licence type is granted by one of its regulators;
/// every regulator grants at least one licence type.
pub proof fn lemma_additional_catalog_consistent()
    ensures
        license_types_complete(spec_additional_license_types()),
        granted_by_listed_regulators(spec_additional_license_types(), spec_additional_regulators()),
        every_regulator_grants(spec_additional_license_types(), spec_additional_regulators()),
{
    lemma_bdp_group();
    lemma_cmvm_group();
    lemma_ojk_group();
    lemma_bi_group();
    lemma_sarb_group();
    lemma_fsca_group();
    lemma_cbe_group();
    lemma_fra_group();
    lemma_bot_group();
    lemma_zanzibar_br_group();
    lemma_cbi_group();
    lemma_cro_group();
    assert(spec_additional_regulators() =~= seq![spec_bdp_regulator()] + seq![spec_cmvm_regulator()] + seq![spec_ojk_regulator()] + seq![spec_bi_regulator()] + seq![spec_sarb_regulator()] + seq![spec_fsca_regulator()] + seq![spec_cbe_regulator()] + seq![spec_fra_regulator()] + seq![spec_bot_regulator()] + seq![spec_zanzibar_br_regulator()] + seq![spec_cbi_regulator()] + seq![spec_cro_regulator()]);
    assert(spec_additional_license_types() =~= spec_bdp_license_types() + spec_cmvm_license_types() + spec_ojk_license_types() + spec_bi_license_types() + spec_sarb_license_types() + spec_fsca_license_types() + spec_cbe_license_types() + spec_fra_license_types() + spec_bot_license_types() + spec_zanzibar_br_license_types() + spec_cbi_license_types() + spec_cro_license_types());
    lemma_complete_append(spec_bdp_license_types(), spec_cmvm_license_types());
    lemma_granted_combine(spec_bdp_license_types(), seq![spec_bdp_regulator()], spec_cmvm_license_types(), seq![spec_cmvm_regulator()]);
    lemma_every_combine(spec_bdp_license_types(), seq![spec_bdp_regulator()], spec_cmvm_license_types(), seq![spec_cmvm_regulator()]);
    lemma_complete_append(spec_bdp_license_types() + spec_cmvm_license_types(), spec_ojk_license_types());
    lemma_granted_combine(spec_bdp_license_types() + spec_cmvm_license_types(), seq![spec_bdp_regulator()] + seq![spec_cmvm_regulator()], spec_ojk_license_types(), seq![spec_ojk_regulator()]);
    lemma_every_combine(spec_bdp_license_types() + spec_cmvm_license_types(), seq![spec_bdp_regulator()] + seq![spec_cmvm_regulator()], spec_ojk_license_types(), seq![spec_ojk_regulator()]);
    lemma_complete_append(spec_bdp_license_types() + spec_cmvm_license_types() + spec_ojk_license_types(), spec_bi_license_types());
    lemma_granted_combine(spec_bdp_license_types() + spec_cmvm_license_types() + spec_ojk_license_types(), seq![spec_bdp_regulator()] + seq![spec_cmvm_regulator()] + seq![spec_ojk_regulator()], spec_bi_license_types(), seq![spec_bi_regulator()]);
    lemma_every_combine(spec_bdp_license_types() + spec_cmvm_license_types() + spec_ojk_license_types(), seq![spec_bdp_regulator()] + seq![spec_cmvm_regulator()] + seq![spec_ojk_regulator()], spec_bi_license_types(), seq![spec_bi_regulator()]);
    lemma_complete_append(spec_bdp_license_types() + spec_cmvm_license_types() + spec_ojk_license_types() + spec_bi_license_types(), spec_sarb_license_types());
    lemma_granted_combine(spec_bdp_license_types() + spec_cmvm_license_types() + spec_ojk_license_types() + spec_bi_license_types(), seq![spec_bdp_regulator()] + seq![spec_cmvm_regulator()] + seq![spec_ojk_regulator()] + seq![spec_bi_regulator()], spec_sarb_license_types(), seq![spec_sarb_regulator()]);
    lemma_every_combine(spec_bdp_license_types() + spec_cmvm_license_types() + spec_ojk_license_types() + spec_bi_license_types(), seq![spec_bdp_regulator()] + seq![spec_cmvm_regulator()] + seq![spec_ojk_regulator()] + seq![spec_bi_regulator()], spec_sarb_license_types(), seq![spec_sarb_regulator()]);
    lemma_complete_append(spec_bdp_license_types() + spec_cmvm_license_types() + spec_ojk_license_types() + spec_bi_license_types() + spec_sarb_license_types(), spec_fsca_license_types());
    lemma_granted_combine(spec_bdp_license_types() + spec_cmvm_license_types() + spec_ojk_license_types() + spec_bi_license_types() + spec_sarb_license_types(), seq![spec_bdp_regulator()] + seq![spec_cmvm_regulator()] + seq![spec_ojk_regulator()] + seq![spec_bi_regulator()] + seq![spec_sarb_regulator()], spec_fsca_license_types(), seq![spec_fsca_regulator()]);
    lemma_every_combine(spec_bdp_license_types() + spec_cmvm_license_types() + spec_ojk_license_types() + spec_bi_license_types() + spec_sarb_license_types(), seq![spec_bdp_regulator()] + seq![spec_cmvm_regulator()] + seq![spec_ojk_regulator()] + seq![spec_bi_regulator()] + seq![spec_sarb_regulator()], spec_fsca_license_types(), seq![spec_fsca_regulator()]);
    lemma_complete_append(spec_bdp_license_types() + spec_cmvm_license_types() + spec_ojk_license_types() + spec_bi_license_types() + spec_sarb_license_types() + spec_fsca_license_types(), spec_cbe_license_types());
    lemma_granted_combine(spec_bdp_license_types() + spec_cmvm_license_types() + spec_ojk_license_types() + spec_bi_license_types() + spec_sarb_license_types() + spec_fsca_license_types(), seq![spec_bdp_regulator()] + seq![spec_cmvm_regulator()] + seq![spec_ojk_regulator()] + seq![spec_bi_regulator()] + seq![spec_sarb_regulator()] + seq![spec_fsca_regulator()], spec_cbe_license_types(), seq![spec_cbe_regulator()]);
    lemma_every_combine(spec_bdp_license_types() + spec_cmvm_license_types() + spec_ojk_license_types() + spec_bi_license_types() + spec_sarb_license_types() + spec_fsca_license_types(), seq![spec_bdp_regulator()] + seq![spec_cmvm_regulator()] + seq![spec_ojk_regulator()] + seq![spec_bi_regulator()] + seq![spec_sarb_regulator()] + seq![spec_fsca_regulator()], spec_cbe_license_types(), seq![spec_cbe_regulator()]);
    lemma_complete_append(spec_bdp_license_types() + spec_cmvm_license_types() + spec_ojk_license_types() + spec_bi_license_types() + spec_sarb_license_types() + spec_fsca_license_types() + spec_cbe_license_types(), spec_fra_license_types());
    lemma_granted_combine(spec_bdp_license_types() + spec_cmvm_license_types() + spec_ojk_license_types() + spec_bi_license_types() + spec_sarb_license_types() + spec_fsca_license_types() + spec_cbe_license_types(), seq![spec_bdp_regulator()] + seq![spec_cmvm_regulator()] + seq![spec_ojk_regulator()] + seq![spec_bi_regulator()] + seq![spec_sarb_regulator()] + seq![spec_fsca_regulator()] + seq![spec_cbe_regulator()], spec_fra_license_types(), seq![spec_fra_regulator()]);
    lemma_every_combine(spec_bdp_license_types() + spec_cmvm_license_types() + spec_ojk_license_types() + spec_bi_license_types() + spec_sarb_license_types() + spec_fsca_license_types() + spec_cbe_license_types(), seq![spec_bdp_regulator()] + seq![spec_cmvm_regulator()] + seq![spec_ojk_regulator()] + seq![spec_bi_regulator()] + seq![spec_sarb_regulator()] + seq![spec_fsca_regulator()] + seq![spec_cbe_regulator()], spec_fra_license_types(), seq![spec_fra_regulator()]);
    lemma_complete_append(spec_bdp_license_types() + spec_cmvm_license_types() + spec_ojk_license_types() + spec_bi_license_types() + spec_sarb_license_types() + spec_fsca_license_types() + spec_cbe_license_types() + spec_fra_license_types(), spec_bot_license_types());
    lemma_granted_combine(spec_bdp_license_types() + spec_cmvm_license_types() + spec_ojk_license_types() + spec_bi_license_types() + spec_sarb_license_types() + spec_fsca_license_types() + spec_cbe_license_types() + spec_fra_license_types(), seq![spec_bdp_regulator()] + seq![spec_cmvm_regulator()] + seq![spec_ojk_regulator()] + seq![spec_bi_regulator()] + seq![spec_sarb_regulator()] + seq![spec_fsca_regulator()] + seq![spec_cbe_regulator()] + seq![spec_fra_regulator()], spec_bot_license_types(), seq![spec_bot_regulator()]);
    lemma_every_combine(spec_bdp_license_types() + spec_cmvm_license_types() + spec_ojk_license_types() + spec_bi_license_types() + spec_sarb_license_types() + spec_fsca_license_types() + spec_cbe_license_types() + spec_fra_license_types(), seq![spec_bdp_regulator()] + seq![spec_cmvm_regulator()] + seq![spec_ojk_regulator()] + seq![spec_bi_regulator()] + seq![spec_sarb_regulator()] + seq![spec_fsca_regulator()] + seq![spec_cbe_regulator()] + seq![spec_fra_regulator()], spec_bot_license_types(), seq![spec_bot_regulator()]);
    lemma_complete_append(spec_bdp_license_types() + spec_cmvm_license_types() + spec_ojk_license_types() + spec_bi_license_types() + spec_sarb_license_types() + spec_fsca_license_types() + spec_cbe_license_types() + spec_fra_license_types() + spec_bot_license_types(), spec_zanzibar_br_license_types());
    lemma_granted_combine(spec_bdp_license_types() + spec_cmvm_license_types() + spec_ojk_license_types() + spec_bi_license_types() + spec_sarb_license_types() + spec_fsca_license_types() + spec_cbe_license_types() + spec_fra_license_types() + spec_bot_license_types(), seq![spec_bdp_regulator()] + seq![spec_cmvm_regulator()] + seq![spec_ojk_regulator()] + seq![spec_bi_regulator()] + seq![spec_sarb_regulator()] + seq![spec_fsca_regulator()] + seq![spec_cbe_regulator()] + seq![spec_fra_regulator()] + seq![spec_bot_regulator()], spec_zanzibar_br_license_types(), seq![spec_zanzibar_br_regulator()]);
    lemma_every_combine(spec_bdp_license_types() + spec_cmvm_license_types() + spec_ojk_license_types() + spec_bi_license_types() + spec_sarb_license_types() + spec_fsca_license_types() + spec_cbe_license_types() + spec_fra_license_types() + spec_bot_license_types(), seq![spec_bdp_regulator()] + seq![spec_cmvm_regulator()] + seq![spec_ojk_regulator()] + seq![spec_bi_regulator()] + seq![spec_sarb_regulator()] + seq![spec_fsca_regulator()] + seq![spec_cbe_regulator()] + seq![spec_fra_regulator()] + seq![spec_bot_regulator()], spec_zanzibar_br_license_types(), seq![spec_zanzibar_br_regulator()]);
    lemma_complete_append(spec_bdp_license_types() + spec_cmvm_license_types() + spec_ojk_license_types() + spec_bi_license_types() + spec_sarb_license_types() + spec_fsca_license_types() + spec_cbe_license_types() + spec_fra_license_types() + spec_bot_license_types() + spec_zanzibar_br_license_types(), spec_cbi_license_types());
    lemma_granted_combine(spec_bdp_license_types() + spec_cmvm_license_types() + spec_ojk_license_types() + spec_bi_license_types() + spec_sarb_license_types() + spec_fsca_license_types() + spec_cbe_license_types() + spec_fra_license_types() + spec_bot_license_types() + spec_zanzibar_br_license_types(), seq![spec_bdp_regulator()] + seq![spec_cmvm_regulator()] + seq![spec_ojk_regulator()] + seq![spec_bi_regulator()] + seq![spec_sarb_regulator()] + seq![spec_fsca_regulator()] + seq![spec_cbe_regulator()] + seq![spec_fra_regulator()] + seq![spec_bot_regulator()] + seq![spec_zanzibar_br_regulator()], spec_cbi_license_types(), seq![spec_cbi_regulator()]);
    lemma_every_combine(spec_bdp_license_types() + spec_cmvm_license_types() + spec_ojk_license_types() + spec_bi_license_types() + spec_sarb_license_types() + spec_fsca_license_types() + spec_cbe_license_types() + spec_fra_license_types() + spec_bot_license_types() + spec_zanzibar_br_license_types(), seq![spec_bdp_regulator()] + seq![spec_cmvm_regulator()] + seq![spec_ojk_regulator()] + seq![spec_bi_regulator()] + seq![spec_sarb_regulator()] + seq![spec_fsca_regulator()] + seq![spec_cbe_regulator()] + seq![spec_fra_regulator()] + seq![spec_bot_regulator()] + seq![spec_zanzibar_br_regulator()], spec_cbi_license_types(), seq![spec_cbi_regulator()]);
    lemma_complete_append(spec_bdp_license_types() + spec_cmvm_license_types() + spec_ojk_license_types() + spec_bi_license_types() + spec_sarb_license_types() + spec_fsca_license_types() + spec_cbe_license_types() + spec_fra_license_types() + spec_bot_license_types() + spec_zanzibar_br_license_types() + spec_cbi_license_types(), spec_cro_license_types());
    lemma_granted_combine(spec_bdp_license_types() + spec_cmvm_license_types() + spec_ojk_license_types() + spec_bi_license_types() + spec_sarb_license_types() + spec_fsca_license_types() + spec_cbe_license_types() + spec_fra_license_types() + spec_bot_license_types() + spec_zanzibar_br_license_types() + spec_cbi_license_types(), seq![spec_bdp_regulator()] + seq![spec_cmvm_regulator()] + seq![spec_ojk_regulator()] + seq![spec_bi_regulator()] + seq![spec_sarb_regulator()] + seq![spec_fsca_regulator()] + seq![spec_cbe_regulator()] + seq![spec_fra_regulator()] + seq![spec_bot_regulator()] + seq![spec_zanzibar_br_regulator()] + seq![spec_cbi_regulator()], spec_cro_license_types(), seq![spec_cro_regulator()]);
    lemma_every_combine(spec_bdp_license_types() + spec_cmvm_license_types() + spec_ojk_license_types() + spec_bi_license_types() + spec_sarb_license_types() + spec_fsca_license_types() + spec_cbe_license_types() + spec_fra_license_types() + spec_bot_license_types() + spec_zanzibar_br_license_types() + spec_cbi_license_types(), seq![spec_bdp_regulator()] + seq![spec_cmvm_regulator()] + seq![spec_ojk_regulator()] + seq![spec_bi_regulator()] + seq![spec_sarb_regulator()] + seq![spec_fsca_regulator()] + seq![spec_cbe_regulator()] + seq![spec_fra_regulator()] + seq![spec_bot_regulator()] + seq![spec_zanzibar_br_regulator()] + seq![spec_cbi_regulator()], spec_cro_license_types(), seq![spec_cro_regulator()]);
}

/// No two licence types of `bdp_license_types` share an identifier.
proof fn lemma_bdp_license_types_ids_distinct()
    ensures
        license_type_ids_distinct(spec_bdp_license_types()),
{
    let t = spec_bdp_license_types();
    assert(ids_distinct_each(t)) by {
        reveal_strlit("pt-bdp:credit-institution");
        reveal_strlit("pt-bdp:e-money-institution");
        reveal_strlit("pt-bdp:forex-dealer");
        reveal_strlit("pt-bdp:payment-institution");
        reveal_strlit("pt-bdp:vasp");
        assert(t[0].license_type_id[7] != t[1].license_type_id[7]);
        assert(t[0].license_type_id[7] != t[2].license_type_id[7]);
        assert(t[1].license_type_id[7] != t[2].license_type_id[7]);
        assert(t[0].license_type_id[7] != t[3].license_type_id[7]);
        assert(t[1].license_type_id[7] != t[3].license_type_id[7]);
        assert(t[2].license_type_id[7] != t[3].license_type_id[7]);
        assert(t[0].license_type_id[7] != t[4].license_type_id[7]);
        assert(t[1].license_type_id[7] != t[4].license_type_id[7]);
        assert(t[2].license_type_id[7] != t[4].license_type_id[7]);
        assert(t[3].license_type_id[7] != t[4].license_type_id[7]);
        reveal_with_fuel(ids_distinct_each, 6);
        reveal_with_fuel(id_fresh_each, 6);
    }
    lemma_ids_distinct_each(t);
}

/// No two licence types of `cmvm_license_types` share an identifier.
proof fn lemma_cmvm_license_types_ids_distinct()
    ensures
        license_type_ids_distinct(spec_cmvm_license_types()),
{
    let t = spec_cmvm_license_types();
    assert(ids_distinct_each(t)) by {
        reveal_strlit("pt-cmvm:crowdfunding-platform");
        reveal_strlit("pt-cmvm:financial-intermediary");
        reveal_strlit("pt-cmvm:fund-manager");
        reveal_strlit("pt-cmvm:investment-firm");
        reveal_strlit("pt-cmvm:venture-capital");
        assert(t[0].license_type_id[8] != t[1].license_type_id[8]);
        assert(t[0].license_type_id[8] != t[2].license_type_id[8]);
        assert(t[1].license_type_id[8] != t[2].license_type_id[8]);
        assert(t[0].license_type_id[8] != t[3].license_type_id[8]);
        assert(t[1].license_type_id[9] != t[3].license_type_id[9]);
        assert(t[2].license_type_id[8] != t[3].license_type_id[8]);
        assert(t[0].license_type_id[8] != t[4].license_type_id[8]);
        assert(t[1].license_type_id[8] != t[4].license_type_id[8]);
        assert(t[2].license_type_id[8] != t[4].license_type_id[8]);
        assert(t[3].license_type_id[8] != t[4].license_type_id[8]);
        reveal_with_fuel(ids_distinct_each, 6);
        reveal_with_fuel(id_fresh_each, 6);
    }
    lemma_ids_distinct_each(t);
}

/// No two licence types of `ojk_license_types` share an identifier.
proof fn lemma_ojk_license_types_ids_distinct()
    ensures
        license_type_ids_distinct(spec_ojk_license_types()),
{
    let t = spec_ojk_license_types();
    assert(ids_distinct_each(t)) by {
        reveal_strlit("id-ojk:commercial-bank");
        reveal_strlit("id-ojk:digital-bank");
        reveal_strlit("id-ojk:fintech-lending");
        reveal_strlit("id-ojk:insurance");
        reveal_strlit("id-ojk:multifinance");
        reveal_strlit("id-ojk:securities-company");
        assert(t[0].license_type_id[7] != t[1].license_type_id[7]);
        assert(t[0].license_type_id[7] != t[2].license_type_id[7]);
        assert(t[1].license_type_id[7] != t[2].license_type_id[7]);
        assert(t[0].license_type_id[7] != t[3].license_type_id[7]);
        assert(t[1].license_type_id[7] != t[3].license_type_id[7]);
        assert(t[2].license_type_id[7] != t[3].license_type_id[7]);
        assert(t[0].license_type_id[7] != t[4].license_type_id[7]);
        assert(t[1].license_type_id[7] != t[4].license_type_id[7]);
        assert(t[2].license_type_id[7] != t[4].license_type_id[7]);
        assert(t[3].license_type_id[7] != t[4].license_type_id[7]);
        assert(t[0].license_type_id[7] != t[5].license_type_id[7]);
        assert(t[1].license_type_id[7] != t[5].license_type_id[7]);
        assert(t[2].license_type_id[7] != t[5].license_type_id[7]);
        assert(t[3].license_type_id[7] != t[5].license_type_id[7]);
        assert(t[4].license_type_id[7] != t[5].license_type_id[7]);
        reveal_with_fuel(ids_distinct_each, 7);
        reveal_with_fuel(id_fresh_each, 7);
    }
    lemma_ids_distinct_each(t);
}

/// No two licence types of `bi_license_types` share an identifier.
proof fn lemma_bi_license_types_ids_distinct()
    ensures
        license_type_ids_distinct(spec_bi_license_types()),
{
    let t = spec_bi_license_types();
    assert(ids_distinct_each(t)) by {
        reveal_strlit("id-bi:e-money-issuer");
        reveal_strlit("id-bi:money-transfer");
        reveal_strlit("id-bi:payment-gateway");
        reveal_strlit("id-bi:payment-system-provider");
        assert(t[0].license_type_id[6] != t[1].license_type_id[6]);
        assert(t[0].license_type_id[14] != t[2].license_type_id[14]);
        assert(t[1].license_type_id[6] != t[2].license_type_id[6]);
        assert(t[0].license_type_id[6] != t[3].license_type_id[6]);
        assert(t[1].license_type_id[6] != t[3].license_type_id[6]);
        assert(t[2].license_type_id[6] != t[3].license_type_id[6]);
        reveal_with_fuel(ids_distinct_each, 5);
        reveal_with_fuel(id_fresh_each, 5);
    }
    lemma_ids_distinct_each(t);
}

/// No two licence types of `sarb_license_types` share an identifier.
proof fn lemma_sarb_license_types_ids_distinct()
    ensures
        license_type_ids_distinct(spec_sarb_license_types()),
{
    let t = spec_sarb_license_types();
    assert(ids_distinct_each(t)) by {
        reveal_strlit("za-sarb:adla");
        reveal_strlit("za-sarb:banking");
        reveal_strlit("za-sarb:casp");
        reveal_strlit("za-sarb:mutual-bank");
        reveal_strlit("za-sarb:payment-system");
        assert(t[0].license_type_id[8] != t[1].license_type_id[8]);
        assert(t[0].license_type_id[8] != t[2].license_type_id[8]);
        assert(t[1].license_type_id[8] != t[2].license_type_id[8]);
        assert(t[0].license_type_id[8] != t[3].license_type_id[8]);
        assert(t[1].license_type_id[8] != t[3].license_type_id[8]);
        assert(t[2].license_type_id[8] != t[3].license_type_id[8]);
        assert(t[0].license_type_id[8] != t[4].license_type_id[8]);
        assert(t[1].license_type_id[8] != t[4].license_type_id[8]);
        assert(t[2].license_type_id[8] != t[4].license_type_id[8]);
        assert(t[3].license_type_id[8] != t[4].license_type_id[8]);
        reveal_with_fuel(ids_distinct_each, 6);
        reveal_with_fuel(id_fresh_each, 6);
    }
    lemma_ids_distinct_each(t);
}

/// No two licence types of `fsca_license_types` share an identifier.
proof fn lemma_fsca_license_types_ids_distinct()
    ensures
        license_type_ids_distinct(spec_fsca_license_types()),
{
    let t = spec_fsca_license_types();
    assert(ids_distinct_each(t)) by {
        reveal_strlit("za-fsca:collective-investment-scheme");
        reveal_strlit("za-fsca:fsp");
        reveal_strlit("za-fsca:insurance");
        reveal_strlit("za-fsca:market-infrastructure");
        reveal_strlit("za-fsca:retirement-fund");
        assert(t[0].license_type_id[8] != t[1].license_type_id[8]);
        assert(t[0].license_type_id[8] != t[2].license_type_id[8]);
        assert(t[1].license_type_id[8] != t[2].license_type_id[8]);
        assert(t[0].license_type_id[8] != t[3].license_type_id[8]);
        assert(t[1].license_type_id[8] != t[3].license_type_id[8]);
        assert(t[2].license_type_id[8] != t[3].license_type_id[8]);
        assert(t[0].license_type_id[8] != t[4].license_type_id[8]);
        assert(t[1].license_type_id[8] != t[4].license_type_id[8]);
        assert(t[2].license_type_id[8] != t[4].license_type_id[8]);
        assert(t[3].license_type_id[8] != t[4].license_type_id[8]);
        reveal_with_fuel(ids_distinct_each, 6);
        reveal_with_fuel(id_fresh_each, 6);
    }
    lemma_ids_distinct_each(t);
}

/// No two licence types of `cbe_license_types` share an identifier.
proof fn lemma_cbe_license_types_ids_distinct()
    ensures
        license_type_ids_distinct(spec_cbe_license_types()),
{
    let t = spec_cbe_license_types();
    assert(ids_distinct_each(t)) by {
        reveal_strlit("eg-cbe:commercial-bank");
        reveal_strlit("eg-cbe:fintech");
        reveal_strlit("eg-cbe:islamic-bank");
        reveal_strlit("eg-cbe:money-exchange");
        reveal_strlit("eg-cbe:payment-service-provider");
        assert(t[0].license_type_id[7] != t[1].license_type_id[7]);
        assert(t[0].license_type_id[7] != t[2].license_type_id[7]);
        assert(t[1].license_type_id[7] != t[2].license_type_id[7]);
        assert(t[0].license_type_id[7] != t[3].license_type_id[7]);
        assert(t[1].license_type_id[7] != t[3].license_type_id[7]);
        assert(t[2].license_type_id[7] != t[3].license_type_id[7]);
        assert(t[0].license_type_id[7] != t[4].license_type_id[7]);
        assert(t[1].license_type_id[7] != t[4].license_type_id[7]);
        assert(t[2].license_type_id[7] != t[4].license_type_id[7]);
        assert(t[3].license_type_id[7] != t[4].license_type_id[7]);
        reveal_with_fuel(ids_distinct_each, 6);
        reveal_with_fuel(id_fresh_each, 6);
    }
    lemma_ids_distinct_each(t);
}

/// No two licence types of `fra_license_types` share an identifier.
proof fn lemma_fra_license_types_ids_distinct()
    ensures
        license_type_ids_distinct(spec_fra_license_types()),
{
    let t = spec_fra_license_types();
    assert(ids_distinct_each(t)) by {
        reveal_strlit("eg-fra:factoring");
        reveal_strlit("eg-fra:insurance");
        reveal_strlit("eg-fra:leasing");
        reveal_strlit("eg-fra:microfinance");
        reveal_strlit("eg-fra:securities-brokerage");
        assert(t[0].license_type_id[7] != t[1].license_type_id[7]);
        assert(t[0].license_type_id[7] != t[2].license_type_id[7]);
        assert(t[1].license_type_id[7] != t[2].license_type_id[7]);
        assert(t[0].license_type_id[7] != t[3].license_type_id[7]);
        assert(t[1].license_type_id[7] != t[3].license_type_id[7]);
        assert(t[2].license_type_id[7] != t[3].license_type_id[7]);
        assert(t[0].license_type_id[7] != t[4].license_type_id[7]);
        assert(t[1].license_type_id[7] != t[4].license_type_id[7]);
        assert(t[2].license_type_id[7] != t[4].license_type_id[7]);
        assert(t[3].license_type_id[7] != t[4].license_type_id[7]);
        reveal_with_fuel(ids_distinct_each, 6);
        reveal_with_fuel(id_fresh_each, 6);
    }
    lemma_ids_distinct_each(t);
}

/// No two licence types of `bot_license_types` share an identifier.
proof fn lemma_bot_license_types_ids_distinct()
    ensures
        license_type_ids_distinct(spec_bot_license_types()),
{
    let t = spec_bot_license_types();
    assert(ids_distinct_each(t)) by {
        reveal_strlit("tz-bot:commercial-bank");
        reveal_strlit("tz-bot:forex-bureau");
        reveal_strlit("tz-bot:microfinance");
        reveal_strlit("tz-bot:mobile-money");
        reveal_strlit("tz-bot:payment-system");
        assert(t[0].license_type_id[7] != t[1].license_type_id[7]);
        assert(t[0].license_type_id[7] != t[2].license_type_id[7]);
        assert(t[1].license_type_id[8] != t[2].license_type_id[8]);
        assert(t[0].license_type_id[7] != t[3].license_type_id[7]);
        assert(t[1].license_type_id[7] != t[3].license_type_id[7]);
        assert(t[2].license_type_id[7] != t[3].license_type_id[7]);
        assert(t[0].license_type_id[7] != t[4].license_type_id[7]);
        assert(t[1].license_type_id[7] != t[4].license_type_id[7]);
        assert(t[2].license_type_id[7] != t[4].license_type_id[7]);
        assert(t[3].license_type_id[7] != t[4].license_type_id[7]);
        reveal_with_fuel(ids_distinct_each, 6);
        reveal_with_fuel(id_fresh_each, 6);
    }
    lemma_ids_distinct_each(t);
}

/// No two licence types of `zanzibar_br_license_types` share an identifier.
proof fn lemma_zanzibar_br_license_types_ids_distinct()
    ensures
        license_type_ids_distinct(spec_zanzibar_br_license_types()),
{
    let t = spec_zanzibar_br_license_types();
    assert(ids_distinct_each(t)) by {
        reveal_strlit("tz-zanzibar-br:business-license");
        reveal_strlit("tz-zanzibar-br:company-registration");
        reveal_strlit("tz-zanzibar-br:foreign-investment");
        reveal_strlit("tz-zanzibar-br:free-zone-enterprise");
        assert(t[0].license_type_id[15] != t[1].license_type_id[15]);
        assert(t[0].license_type_id[15] != t[2].license_type_id[15]);
        assert(t[1].license_type_id[15] != t[2].license_type_id[15]);
        assert(t[0].license_type_id[15] != t[3].license_type_id[15]);
        assert(t[1].license_type_id[15] != t[3].license_type_id[15]);
        assert(t[2].license_type_id[16] != t[3].license_type_id[16]);
        reveal_with_fuel(ids_distinct_each, 5);
        reveal_with_fuel(id_fresh_each, 5);
    }
    lemma_ids_distinct_each(t);
}

/// No two licence types of `cbi_license_types` share an identifier.
proof fn lemma_cbi_license_types_ids_distinct()
    ensures
        license_type_ids_distinct(spec_cbi_license_types()),
{
    let t = spec_cbi_license_types();
    assert(ids_distinct_each(t)) by {
        reveal_strlit("ie-cbi:credit-institution");
        reveal_strlit("ie-cbi:e-money-institution");
        reveal_strlit("ie-cbi:fund-manager");
        reveal_strlit("ie-cbi:insurance-intermediary");
        reveal_strlit("ie-cbi:insurance-undertaking");
        reveal_strlit("ie-cbi:investment-firm");
        reveal_strlit("ie-cbi:payment-institution");
        reveal_strlit("ie-cbi:vasp");
        assert(t[0].license_type_id[7] != t[1].license_type_id[7]);
        assert(t[0].license_type_id[7] != t[2].license_type_id[7]);
        assert(t[1].license_type_id[9] != t[2].license_type_id[9]);
        assert(t[0].license_type_id[7] != t[3].license_type_id[7]);
        assert(t[1].license_type_id[7] != t[3].license_type_id[7]);
        assert(t[2].license_type_id[7] != t[3].license_type_id[7]);
        assert(t[0].license_type_id[7] != t[4].license_type_id[7]);
        assert(t[1].license_type_id[7] != t[4].license_type_id[7]);
        assert(t[2].license_type_id[7] != t[4].license_type_id[7]);
        assert(t[3].license_type_id[7] != t[4].license_type_id[7]);
        assert(t[0].license_type_id[7] != t[5].license_type_id[7]);
        assert(t[1].license_type_id[7] != t[5].license_type_id[7]);
        assert(t[2].license_type_id[7] != t[5].license_type_id[7]);
        assert(t[3].license_type_id[7] != t[5].license_type_id[7]);
        assert(t[4].license_type_id[7] != t[5].license_type_id[7]);
        assert(t[0].license_type_id[7] != t[6].license_type_id[7]);
        assert(t[1].license_type_id[7] != t[6].license_type_id[7]);
        assert(t[2].license_type_id[7] != t[6].license_type_id[7]);
        assert(t[3].license_type_id[7] != t[6].license_type_id[7]);
        assert(t[4].license_type_id[7] != t[6].license_type_id[7]);
        assert(t[5].license_type_id[7] != t[6].license_type_id[7]);
        assert(t[0].license_type_id[7] != t[7].license_type_id[7]);
        assert(t[1].license_type_id[17] != t[7].license_type_id[17]);
        assert(t[2].license_type_id[9] != t[7].license_type_id[9]);
        assert(t[3].license_type_id[7] != t[7].license_type_id[7]);
        assert(t[4].license_type_id[7] != t[7].license_type_id[7]);
        assert(t[5].license_type_id[7] != t[7].license_type_id[7]);
        assert(t[6].license_type_id[7] != t[7].license_type_id[7]);
        reveal_with_fuel(ids_distinct_each, 9);
        reveal_with_fuel(id_fresh_each, 9);
    }
    lemma_ids_distinct_each(t);
}

/// No two licence types of `cro_license_types` share an identifier.
proof fn lemma_cro_license_types_ids_distinct()
    ensures
        license_type_ids_distinct(spec_cro_license_types()),
{
    let t = spec_cro_license_types();
    assert(ids_distinct_each(t)) by {
        reveal_strlit("ie-cro:branch-registration");
        reveal_strlit("ie-cro:designated-activity-company");
        reveal_strlit("ie-cro:icav");
        reveal_strlit("ie-cro:private-company-limited");
        reveal_strlit("ie-cro:public-limited-company");
        assert(t[0].license_type_id[7] != t[1].license_type_id[7]);
        assert(t[0].license_type_id[8] != t[2].license_type_id[8]);
        assert(t[1].license_type_id[7] != t[2].license_type_id[7]);
        assert(t[0].license_type_id[7] != t[3].license_type_id[7]);
        assert(t[1].license_type_id[7] != t[3].license_type_id[7]);
        assert(t[2].license_type_id[7] != t[3].license_type_id[7]);
        assert(t[0].license_type_id[7] != t[4].license_type_id[7]);
        assert(t[1].license_type_id[7] != t[4].license_type_id[7]);
        assert(t[2].license_type_id[7] != t[4].license_type_id[7]);
        assert(t[3].license_type_id[7] != t[4].license_type_id[7]);
        reveal_with_fuel(ids_distinct_each, 6);
        reveal_with_fuel(id_fresh_each, 6);
    }
    lemma_ids_distinct_each(t);
}

/// No licence type of `bdp_license_types` shares an identifier with one of `cmvm_license_types`.
proof fn lemma_bdp_license_types_apart_from_cmvm_license_types()
    ensures
        license_type_ids_apart(spec_bdp_license_types(), spec_cmvm_license_types()),
{
    let a = spec_bdp_license_types();
    let b = spec_cmvm_license_types();
    assert(apart_each(a, b)) by {
        reveal_strlit("pt-bdp:credit-institution");
        reveal_strlit("pt-bdp:e-money-institution");
        reveal_strlit("pt-bdp:forex-dealer");
        reveal_strlit("pt-bdp:payment-institution");
        reveal_strlit("pt-bdp:vasp");
        reveal_strlit("pt-cmvm:crowdfunding-platform");
        reveal_strlit("pt-cmvm:financial-intermediary");
        reveal_strlit("pt-cmvm:fund-manager");
        reveal_strlit("pt-cmvm:investment-firm");
        reveal_strlit("pt-cmvm:venture-capital");
        assert(a[0].license_type_id[3] != b[0].license_type_id[3]);
        assert(a[0].license_type_id[3] != b[1].license_type_id[3]);
        assert(a[0].license_type_id[3] != b[2].license_type_id[3]);
        assert(a[0].license_type_id[3] != b[3].license_type_id[3]);
        assert(a[0].license_type_id[3] != b[4].license_type_id[3]);
        assert(a[1].license_type_id[3] != b[0].license_type_id[3]);
        assert(a[1].license_type_id[3] != b[1].license_type_id[3]);
        assert(a[1].license_type_id[3] != b[2].license_type_id[3]);
        assert(a[1].license_type_id[3] != b[3].license_type_id[3]);
        assert(a[1].license_type_id[3] != b[4].license_type_id[3]);
        assert(a[2].license_type_id[3] != b[0].license_type_id[3]);
        assert(a[2].license_type_id[3] != b[1].license_type_id[3]);
        assert(a[2].license_type_id[3] != b[2].license_type_id[3]);
        assert(a[2].license_type_id[3] != b[3].license_type_id[3]);
        assert(a[2].license_type_id[3] != b[4].license_type_id[3]);
        assert(a[3].license_type_id[3] != b[0].license_type_id[3]);
        assert(a[3].license_type_id[3] != b[1].license_type_id[3]);
        assert(a[3].license_type_id[3] != b[2].license_type_id[3]);
        assert(a[3].license_type_id[3] != b[3].license_type_id[3]);
        assert(a[3].license_type_id[3] != b[4].license_type_id[3]);
        assert(a[4].license_type_id[3] != b[0].license_type_id[3]);
        assert(a[4].license_type_id[3] != b[1].license_type_id[3]);
        assert(a[4].license_type_id[3] != b[2].license_type_id[3]);
        assert(a[4].license_type_id[3] != b[3].license_type_id[3]);
        assert(a[4].license_type_id[3] != b[4].license_type_id[3]);
        reveal_with_fuel(apart_each, 6);
        reveal_with_fuel(id_fresh_each, 6);
    }
    lemma_apart_each(a, b);
}

/// No licence type of `bdp_license_types` shares an identifier with one of `ojk_license_types`.
proof fn lemma_bdp_license_types_apart_from_ojk_license_types()
    ensures
        license_type_ids_apart(spec_bdp_license_types(), spec_ojk_license_types()),
{
    let a = spec_bdp_license_types();
    let b = spec_ojk_license_types();
    assert(apart_each(a, b)) by {
        reveal_strlit("id-ojk:commercial-bank");
        reveal_strlit("id-ojk:digital-bank");
        reveal_strlit("id-ojk:fintech-lending");
        reveal_strlit("id-ojk:insurance");
        reveal_strlit("id-ojk:multifinance");
        reveal_strlit("id-ojk:securities-company");
        reveal_strlit("pt-bdp:credit-institution");
        reveal_strlit("pt-bdp:e-money-institution");
        reveal_strlit("pt-bdp:forex-dealer");
        reveal_strlit("pt-bdp:payment-institution");
        reveal_strlit("pt-bdp:vasp");
        assert(a[0].license_type_id[0] != b[0].license_type_id[0]);
        assert(a[0].license_type_id[0] != b[1].license_type_id[0]);
        assert(a[0].license_type_id[0] != b[2].license_type_id[0]);
        assert(a[0].license_type_id[0] != b[3].license_type_id[0]);
        assert(a[0].license_type_id[0] != b[4].license_type_id[0]);
        assert(a[0].license_type_id[0] != b[5].license_type_id[0]);
        assert(a[1].license_type_id[0] != b[0].license_type_id[0]);
        assert(a[1].license_type_id[0] != b[1].license_type_id[0]);
        assert(a[1].license_type_id[0] != b[2].license_type_id[0]);
        assert(a[1].license_type_id[0] != b[3].license_type_id[0]);
        assert(a[1].license_type_id[0] != b[4].license_type_id[0]);
        assert(a[1].license_type_id[0] != b[5].license_type_id[0]);
        assert(a[2].license_type_id[0] != b[0].license_type_id[0]);
        assert(a[2].license_type_id[0] != b[1].license_type_id[0]);
        assert(a[2].license_type_id[0] != b[2].license_type_id[0]);
        assert(a[2].license_type_id[0] != b[3].license_type_id[0]);
        assert(a[2].license_type_id[0] != b[4].license_type_id[0]);
        assert(a[2].license_type_id[0] != b[5].license_type_id[0]);
        assert(a[3].license_type_id[0] != b[0].license_type_id[0]);
        assert(a[3].license_type_id[0] != b[1].license_type_id[0]);
        assert(a[3].license_type_id[0] != b[2].license_type_id[0]);
        assert(a[3].license_type_id[0] != b[3].license_type_id[0]);
        assert(a[3].license_type_id[0] != b[4].license_type_id[0]);
        assert(a[3].license_type_id[0] != b[5].license_type_id[0]);
        assert(a[4].license_type_id[0] != b[0].license_type_id[0]);
        assert(a[4].license_type_id[0] != b[1].license_type_id[0]);
        assert(a[4].license_type_id[0] != b[2].license_type_id[0]);
        assert(a[4].license_type_id[0] != b[3].license_type_id[0]);
        assert(a[4].license_type_id[0] != b[4].license_type_id[0]);
        assert(a[4].license_type_id[0] != b[5].license_type_id[0]);
        reveal_with_fuel(apart_each, 6);
        reveal_with_fuel(id_fresh_each, 7);
    }
    lemma_apart_each(a, b);
}

/// No licence type of `bdp_license_types` shares an identifier with one of `bi_license_types`.
proof fn lemma_bdp_license_types_apart_from_bi_license_types()
    ensures
        license_type_ids_apart(spec_bdp_license_types(), spec_bi_license_types()),
{
    let a = spec_bdp_license_types();
    let b = spec_bi_license_types();
    assert(apart_each(a, b)) by {
        reveal_strlit("id-bi:e-money-issuer");
        reveal_strlit("id-bi:money-transfer");
        reveal_strlit("id-bi:payment-gateway");
        reveal_strlit("id-bi:payment-system-provider");
        reveal_strlit("pt-bdp:credit-institution");
        reveal_strlit("pt-bdp:e-money-institution");
        reveal_strlit("pt-bdp:forex-dealer");
        reveal_strlit("pt-bdp:payment-institution");
        reveal_strlit("pt-bdp:vasp");
        assert(a[0].license_type_id[0] != b[0].license_type_id[0]);
        assert(a[0].license_type_id[0] != b[1].license_type_id[0]);
        assert(a[0].license_type_id[0] != b[2].license_type_id[0]);
        assert(a[0].license_type_id[0] != b[3].license_type_id[0]);
        assert(a[1].license_type_id[0] != b[0].license_type_id[0]);
        assert(a[1].license_type_id[0] != b[1].license_type_id[0]);
        assert(a[1].license_type_id[0] != b[2].license_type_id[0]);
        assert(a[1].license_type_id[0] != b[3].license_type_id[0]);
        assert(a[2].license_type_id[0] != b[0].license_type_id[0]);
        assert(a[2].license_type_id[0] != b[1].license_type_id[0]);
        assert(a[2].license_type_id[0] != b[2].license_type_id[0]);
        assert(a[2].license_type_id[0] != b[3].license_type_id[0]);
        assert(a[3].license_type_id[0] != b[0].license_type_id[0]);
        assert(a[3].license_type_id[0] != b[1].license_type_id[0]);
        assert(a[3].license_type_id[0] != b[2].license_type_id[0]);
        assert(a[3].license_type_id[0] != b[3].license_type_id[0]);
        assert(a[4].license_type_id[0] != b[0].license_type_id[0]);
        assert(a[4].license_type_id[0] != b[1].license_type_id[0]);
        assert(a[4].license_type_id[0] != b[2].license_type_id[0]);
        assert(a[4].license_type_id[0] != b[3].license_type_id[0]);
        reveal_with_fuel(apart_each, 6);
        reveal_with_fuel(id_fresh_each, 5);
    }
    lemma_apart_each(a, b);
}

/// No licence type of `bdp_license_types` shares an identifier with one of `sarb_license_types`.
proof fn lemma_bdp_license_types_apart_from_sarb_license_types()
    ensures
        license_type_ids_apart(spec_bdp_license_types(), spec_sarb_license_types()),
{
    let a = spec_bdp_license_types();
    let b = spec_sarb_license_types();
    assert(apart_each(a, b)) by {
        reveal_strlit("pt-bdp:credit-institution");
        reveal_strlit("pt-bdp:e-money-institution");
        reveal_strlit("pt-bdp:forex-dealer");
        reveal_strlit("pt-bdp:payment-institution");
        reveal_strlit("pt-bdp:vasp");
        reveal_strlit("za-sarb:adla");
        reveal_strlit("za-sarb:banking");
        reveal_strlit("za-sarb:casp");
        reveal_strlit("za-sarb:mutual-bank");
        reveal_strlit("za-sarb:payment-system");
        assert(a[0].license_type_id[0] != b[0].license_type_id[0]);
        assert(a[0].license_type_id[0] != b[1].license_type_id[0]);
        assert(a[0].license_type_id[0] != b[2].license_type_id[0]);
        assert(a[0].license_type_id[0] != b[3].license_type_id[0]);
        assert(a[0].license_type_id[0] != b[4].license_type_id[0]);
        assert(a[1].license_type_id[0] != b[0].license_type_id[0]);
        assert(a[1].license_type_id[0] != b[1].license_type_id[0]);
        assert(a[1].license_type_id[0] != b[2].license_type_id[0]);
        assert(a[1].license_type_id[0] != b[3].license_type_id[0]);
        assert(a[1].license_type_id[0] != b[4].license_type_id[0]);
        assert(a[2].license_type_id[0] != b[0].license_type_id[0]);
        assert(a[2].license_type_id[0] != b[1].license_type_id[0]);
        assert(a[2].license_type_id[0] != b[2].license_type_id[0]);
        assert(a[2].license_type_id[0] != b[3].license_type_id[0]);
        assert(a[2].license_type_id[0] != b[4].license_type_id[0]);
        assert(a[3].license_type_id[0] != b[0].license_type_id[0]);
        assert(a[3].license_type_id[0] != b[1].license_type_id[0]);
        assert(a[3].license_type_id[0] != b[2].license_type_id[0]);
        assert(a[3].license_type_id[0] != b[3].license_type_id[0]);
        assert(a[3].license_type_id[0] != b[4].license_type_id[0]);
        assert(a[4].license_type_id[0] != b[0].license_type_id[0]);
        assert(a[4].license_type_id[0] != b[1].license_type_id[0]);
        assert(a[4].license_type_id[0] != b[2].license_type_id[0]);
        assert(a[4].license_type_id[0] != b[3].license_type_id[0]);
        assert(a[4].license_type_id[0] != b[4].license_type_id[0]);
        reveal_with_fuel(apart_each, 6);
        reveal_with_fuel(id_fresh_each, 6);
    }
    lemma_apart_each(a, b);
}

/// No licence type of `bdp_license_types` shares an identifier with one of `fsca_license_types`.
proof fn lemma_bdp_license_types_apart_from_fsca_license_types()
    ensures
        license_type_ids_apart(spec_bdp_license_types(), spec_fsca_license_types()),
{
    let a = spec_bdp_license_types();
    let b = spec_fsca_license_types();
    assert(apart_each(a, b)) by {
        reveal_strlit("pt-bdp:credit-institution");
        reveal_strlit("pt-bdp:e-money-institution");
        reveal_strlit("pt-bdp:forex-dealer");
        reveal_strlit("pt-bdp:payment-institution");
        reveal_strlit("pt-bdp:vasp");
        reveal_strlit("za-fsca:collective-investment-scheme");
        reveal_strlit("za-fsca:fsp");
        reveal_strlit("za-fsca:insurance");
        reveal_strlit("za-fsca:market-infrastructure");
        reveal_strlit("za-fsca:retirement-fund");
        assert(a[0].license_type_id[0] != b[0].license_type_id[0]);
        assert(a[0].license_type_id[0] != b[1].license_type_id[0]);
        assert(a[0].license_type_id[0] != b[2].license_type_id[0]);
        assert(a[0].license_type_id[0] != b[3].license_type_id[0]);
        assert(a[0].license_type_id[0] != b[4].license_type_id[0]);
        assert(a[1].license_type_id[0] != b[0].license_type_id[0]);
        assert(a[1].license_type_id[0] != b[1].license_type_id[0]);
        assert(a[1].license_type_id[0] != b[2].license_type_id[0]);
        assert(a[1].license_type_id[0] != b[3].license_type_id[0]);
        assert(a[1].license_type_id[0] != b[4].license_type_id[0]);
        assert(a[2].license_type_id[0] != b[0].license_type_id[0]);
        assert(a[2].license_type_id[0] != b[1].license_type_id[0]);
        assert(a[2].license_type_id[0] != b[2].license_type_id[0]);
        assert(a[2].license_type_id[0] != b[3].license_type_id[0]);
        assert(a[2].license_type_id[0] != b[4].license_type_id[0]);
        assert(a[3].license_type_id[0] != b[0].license_type_id[0]);
        assert(a[3].license_type_id[0] != b[1].license_type_id[0]);
        assert(a[3].license_type_id[0] != b[2].license_type_id[0]);
        assert(a[3].license_type_id[0] != b[3].license_type_id[0]);
        assert(a[3].license_type_id[0] != b[4].license_type_id[0]);
        assert(a[4].license_type_id[0] != b[0].license_type_id[0]);
        assert(a[4].license_type_id[0] != b[1].license_type_id[0]);
        assert(a[4].license_type_id[0] != b[2].license_type_id[0]);
        assert(a[4].license_type_id[0] != b[3].license_type_id[0]);
        assert(a[4].license_type_id[0] != b[4].license_type_id[0]);
        reveal_with_fuel(apart_each, 6);
        reveal_with_fuel(id_fresh_each, 6);
    }
    lemma_apart_each(a, b);
}

/// No licence type of `bdp_license_types` shares an identifier with one of `cbe_license_types`.
proof fn lemma_bdp_license_types_apart_from_cbe_license_types()
    ensures
        license_type_ids_apart(spec_bdp_license_types(), spec_cbe_license_types()),
{
    let a = spec_bdp_license_types();
    let b = spec_cbe_license_types();
    assert(apart_each(a, b)) by {
        reveal_strlit("eg-cbe:commercial-bank");
        reveal_strlit("eg-cbe:fintech");
        reveal_strlit("eg-cbe:islamic-bank");
        reveal_strlit("eg-cbe:money-exchange");
        reveal_strlit("eg-cbe:payment-service-provider");
        reveal_strlit("pt-bdp:credit-institution");
        reveal_strlit("pt-bdp:e-money-institution");
        reveal_strlit("pt-bdp:forex-dealer");
        reveal_strlit("pt-bdp:payment-institution");
        reveal_strlit("pt-bdp:vasp");
        assert(a[0].license_type_id[0] != b[0].license_type_id[0]);
        assert(a[0].license_type_id[0] != b[1].license_type_id[0]);
        assert(a[0].license_type_id[0] != b[2].license_type_id[0]);
        assert(a[0].license_type_id[0] != b[3].license_type_id[0]);
        assert(a[0].license_type_id[0] != b[4].license_type_id[0]);
        assert(a[1].license_type_id[0] != b[0].license_type_id[0]);
        assert(a[1].license_type_id[0] != b[1].license_type_id[0]);
        assert(a[1].license_type_id[0] != b[2].license_type_id[0]);
        assert(a[1].license_type_id[0] != b[3].license_type_id[0]);
        assert(a[1].license_type_id[0] != b[4].license_type_id[0]);
        assert(a[2].license_type_id[0] != b[0].license_type_id[0]);
        assert(a[2].license_type_id[0] != b[1].license_type_id[0]);
        assert(a[2].license_type_id[0] != b[2].license_type_id[0]);
        assert(a[2].license_type_id[0] != b[3].license_type_id[0]);
        assert(a[2].license_type_id[0] != b[4].license_type_id[0]);
        assert(a[3].license_type_id[0] != b[0].license_type_id[0]);
        assert(a[3].license_type_id[0] != b[1].license_type_id[0]);
        assert(a[3].license_type_id[0] != b[2].license_type_id[0]);
        assert(a[3].license_type_id[0] != b[3].license_type_id[0]);
        assert(a[3].license_type_id[0] != b[4].license_type_id[0]);
        assert(a[4].license_type_id[0] != b[0].license_type_id[0]);
        assert(a[4].license_type_id[0] != b[1].license_type_id[0]);
        assert(a[4].license_type_id[0] != b[2].license_type_id[0]);
        assert(a[4].license_type_id[0] != b[3].license_type_id[0]);
        assert(a[4].license_type_id[0] != b[4].license_type_id[0]);
        reveal_with_fuel(apart_each, 6);
        reveal_with_fuel(id_fresh_each, 6);
    }
    lemma_apart_each(a, b);
}

/// No licence type of `bdp_license_types` shares an identifier with one of `fra_license_types`.
proof fn lemma_bdp_license_types_apart_from_fra_license_types()
    ensures
        license_type_ids_apart(spec_bdp_license_types(), spec_fra_license_types()),
{
    let a = spec_bdp_license_types();
    let b = spec_fra_license_types();
    assert(apart_each(a, b)) by {
        reveal_strlit("eg-fra:factoring");
        reveal_strlit("eg-fra:insurance");
        reveal_strlit("eg-fra:leasing");
        reveal_strlit("eg-fra:microfinance");
        reveal_strlit("eg-fra:securities-brokerage");
        reveal_strlit("pt-bdp:credit-institution");
        reveal_strlit("pt-bdp:e-money-institution");
        reveal_strlit("pt-bdp:forex-dealer");
        reveal_strlit("pt-bdp:payment-institution");
        reveal_strlit("pt-bdp:vasp");
        assert(a[0].license_type_id[0] != b[0].license_type_id[0]);
        assert(a[0].license_type_id[0] != b[1].license_type_id[0]);
        assert(a[0].license_type_id[0] != b[2].license_type_id[0]);
        assert(a[0].license_type_id[0] != b[3].license_type_id[0]);
        assert(a[0].license_type_id[0] != b[4].license_type_id[0]);
        assert(a[1].license_type_id[0] != b[0].license_type_id[0]);
        assert(a[1].license_type_id[0] != b[1].license_type_id[0]);
        assert(a[1].license_type_id[0] != b[2].license_type_id[0]);
        assert(a[1].license_type_id[0] != b[3].license_type_id[0]);
        assert(a[1].license_type_id[0] != b[4].license_type_id[0]);
        assert(a[2].license_type_id[0] != b[0].license_type_id[0]);
        assert(a[2].license_type_id[0] != b[1].license_type_id[0]);
        assert(a[2].license_type_id[0] != b[2].license_type_id[0]);
        assert(a[2].license_type_id[0] != b[3].license_type_id[0]);
        assert(a[2].license_type_id[0] != b[4].license_type_id[0]);
        assert(a[3].license_type_id[0] != b[0].license_type_id[0]);
        assert(a[3].license_type_id[0] != b[1].license_type_id[0]);
        assert(a[3].license_type_id[0] != b[2].license_type_id[0]);
        assert(a[3].license_type_id[0] != b[3].license_type_id[0]);
        assert(a[3].license_type_id[0] != b[4].license_type_id[0]);
        assert(a[4].license_type_id[0] != b[0].license_type_id[0]);
        assert(a[4].license_type_id[0] != b[1].license_type_id[0]);
        assert(a[4].license_type_id[0] != b[2].license_type_id[0]);
        assert(a[4].license_type_id[0] != b[3].license_type_id[0]);
        assert(a[4].license_type_id[0] != b[4].license_type_id[0]);
        reveal_with_fuel(apart_each, 6);
        reveal_with_fuel(id_fresh_each, 6);
    }
    lemma_apart_each(a, b);
}

/// No licence type of `bdp_license_types` shares an identifier with one of `bot_license_types`.
proof fn lemma_bdp_license_types_apart_from_bot_license_types()
    ensures
        license_type_ids_apart(spec_bdp_license_types(), spec_bot_license_types()),
{
    let a = spec_bdp_license_types();
    let b = spec_bot_license_types();
    assert(apart_each(a, b)) by {
        reveal_strlit("pt-bdp:credit-institution");
        reveal_strlit("pt-bdp:e-money-institution");
        reveal_strlit("pt-bdp:forex-dealer");
        reveal_strlit("pt-bdp:payment-institution");
        reveal_strlit("pt-bdp:vasp");
        reveal_strlit("tz-bot:commercial-bank");
        reveal_strlit("tz-bot:forex-bureau");
        reveal_strlit("tz-bot:microfinance");
        reveal_strlit("tz-bot:mobile-money");
        reveal_strlit("tz-bot:payment-system");
        assert(a[0].license_type_id[0] != b[0].license_type_id[0]);
        assert(a[0].license_type_id[0] != b[1].license_type_id[0]);
        assert(a[0].license_type_id[0] != b[2].license_type_id[0]);
        assert(a[0].license_type_id[0] != b[3].license_type_id[0]);
        assert(a[0].license_type_id[0] != b[4].license_type_id[0]);
        assert(a[1].license_type_id[0] != b[0].license_type_id[0]);
        assert(a[1].license_type_id[0] != b[1].license_type_id[0]);
        assert(a[1].license_type_id[0] != b[2].license_type_id[0]);
        assert(a[1].license_type_id[0] != b[3].license_type_id[0]);
        assert(a[1].license_type_id[0] != b[4].license_type_id[0]);
        assert(a[2].license_type_id[0] != b[0].license_type_id[0]);
        assert(a[2].license_type_id[0] != b[1].license_type_id[0]);
        assert(a[2].license_type_id[0] != b[2].license_type_id[0]);
        assert(a[2].license_type_id[0] != b[3].license_type_id[0]);
        assert(a[2].license_type_id[0] != b[4].license_type_id[0]);
        assert(a[3].license_type_id[0] != b[0].license_type_id[0]);
        assert(a[3].license_type_id[0] != b[1].license_type_id[0]);
        assert(a[3].license_type_id[0] != b[2].license_type_id[0]);
        assert(a[3].license_type_id[0] != b[3].license_type_id[0]);
        assert(a[3].license_type_id[0] != b[4].license_type_id[0]);
        assert(a[4].license_type_id[0] != b[0].license_type_id[0]);
        assert(a[4].license_type_id[0] != b[1].license_type_id[0]);
        assert(a[4].license_type_id[0] != b[2].license_type_id[0]);
        assert(a[4].license_type_id[0] != b[3].license_type_id[0]);
        assert(a[4].license_type_id[0] != b[4].license_type_id[0]);
        reveal_with_fuel(apart_each, 6);
        reveal_with_fuel(id_fresh_each, 6);
    }
    lemma_apart_each(a, b);
}

/// No licence type of `bdp_license_types` shares an identifier with one of `zanzibar_br_license_types`.
proof fn lemma_bdp_license_types_apart_from_zanzibar_br_license_types()
    ensures
        license_type_ids_apart(spec_bdp_license_types(), spec_zanzibar_br_license_types()),
{
    let a = spec_bdp_license_types();
    let b = spec_zanzibar_br_license_types();
    assert(apart_each(a, b)) by {
        reveal_strlit("pt-bdp:credit-institution");
        reveal_strlit("pt-bdp:e-money-institution");
        reveal_strlit("pt-bdp:forex-dealer");
        reveal_strlit("pt-bdp:payment-institution");
        reveal_strlit("pt-bdp:vasp");
        reveal_strlit("tz-zanzibar-br:business-license");
        reveal_strlit("tz-zanzibar-br:company-registration");
        reveal_strlit("tz-zanzibar-br:foreign-investment");
        reveal_strlit("tz-zanzibar-br:free-zone-enterprise");
        assert(a[0].license_type_id[0] != b[0].license_type_id[0]);
        assert(a[0].license_type_id[0] != b[1].license_type_id[0]);
        assert(a[0].license_type_id[0] != b[2].license_type_id[0]);
        assert(a[0].license_type_id[0] != b[3].license_type_id[0]);
        assert(a[1].license_type_id[0] != b[0].license_type_id[0]);
        assert(a[1].license_type_id[0] != b[1].license_type_id[0]);
        assert(a[1].license_type_id[0] != b[2].license_type_id[0]);
        assert(a[1].license_type_id[0] != b[3].license_type_id[0]);
        assert(a[2].license_type_id[0] != b[0].license_type_id[0]);
        assert(a[2].license_type_id[0] != b[1].license_type_id[0]);
        assert(a[2].license_type_id[0] != b[2].license_type_id[0]);
        assert(a[2].license_type_id[0] != b[3].license_type_id[0]);
        assert(a[3].license_type_id[0] != b[0].license_type_id[0]);
        assert(a[3].license_type_id[0] != b[1].license_type_id[0]);
        assert(a[3].license_type_id[0] != b[2].license_type_id[0]);
        assert(a[3].license_type_id[0] != b[3].license_type_id[0]);
        assert(a[4].license_type_id[0] != b[0].license_type_id[0]);
        assert(a[4].license_type_id[0] != b[1].license_type_id[0]);
        assert(a[4].license_type_id[0] != b[2].license_type_id[0]);
        assert(a[4].license_type_id[0] != b[3].license_type_id[0]);
        reveal_with_fuel(apart_each, 6);
        reveal_with_fuel(id_fresh_each, 5);
    }
    lemma_apart_each(a, b);
}

/// No licence type of `bdp_license_types` shares an identifier with one of `cbi_license_types`.
proof fn lemma_bdp_license_types_apart_from_cbi_license_types()
    ensures
        license_type_ids_apart(spec_bdp_license_types(), spec_cbi_license_types()),
{
    let a = spec_bdp_license_types();
    let b = spec_cbi_license_types();
    assert(apart_each(a, b)) by {
        reveal_strlit("ie-cbi:credit-institution");
        reveal_strlit("ie-cbi:e-money-institution");
        reveal_strlit("ie-cbi:fund-manager");
        reveal_strlit("ie-cbi:insurance-intermediary");
        reveal_strlit("ie-cbi:insurance-undertaking");
        reveal_strlit("ie-cbi:investment-firm");
        reveal_strlit("ie-cbi:payment-institution");
        reveal_strlit("ie-cbi:vasp");
        reveal_strlit("pt-bdp:credit-institution");
        reveal_strlit("pt-bdp:e-money-institution");
        reveal_strlit("pt-bdp:forex-dealer");
        reveal_strlit("pt-bdp:payment-institution");
        reveal_strlit("pt-bdp:vasp");
        assert(a[0].license_type_id[0] != b[0].license_type_id[0]);
        assert(a[0].license_type_id[0] != b[1].license_type_id[0]);
        assert(a[0].license_type_id[0] != b[2].license_type_id[0]);
        assert(a[0].license_type_id[0] != b[3].license_type_id[0]);
        assert(a[0].license_type_id[0] != b[4].license_type_id[0]);
        assert(a[0].license_type_id[0] != b[5].license_type_id[0]);
        assert(a[0].license_type_id[0] != b[6].license_type_id[0]);
        assert(a[0].license_type_id[0] != b[7].license_type_id[0]);
        assert(a[1].license_type_id[0] != b[0].license_type_id[0]);
        assert(a[1].license_type_id[0] != b[1].license_type_id[0]);
        assert(a[1].license_type_id[0] != b[2].license_type_id[0]);
        assert(a[1].license_type_id[0] != b[3].license_type_id[0]);
        assert(a[1].license_type_id[0] != b[4].license_type_id[0]);
        assert(a[1].license_type_id[0] != b[5].license_type_id[0]);
        assert(a[1].license_type_id[0] != b[6].license_type_id[0]);
        assert(a[1].license_type_id[0] != b[7].license_type_id[0]);
        assert(a[2].license_type_id[0] != b[0].license_type_id[0]);
        assert(a[2].license_type_id[0] != b[1].license_type_id[0]);
        assert(a[2].license_type_id[0] != b[2].license_type_id[0]);
        assert(a[2].license_type_id[0] != b[3].license_type_id[0]);
        assert(a[2].license_type_id[0] != b[4].license_type_id[0]);
        assert(a[2].license_type_id[0] != b[5].license_type_id[0]);
        assert(a[2].license_type_id[0] != b[6].license_type_id[0]);
        assert(a[2].license_type_id[0] != b[7].license_type_id[0]);
        assert(a[3].license_type_id[0] != b[0].license_type_id[0]);
        assert(a[3].license_type_id[0] != b[1].license_type_id[0]);
        assert(a[3].license_type_id[0] != b[2].license_type_id[0]);
        assert(a[3].license_type_id[0] != b[3].license_type_id[0]);
        assert(a[3].license_type_id[0] != b[4].license_type_id[0]);
        assert(a[3].license_type_id[0] != b[5].license_type_id[0]);
        assert(a[3].license_type_id[0] != b[6].license_type_id[0]);
        assert(a[3].license_type_id[0] != b[7].license_type_id[0]);
        assert(a[4].license_type_id[0] != b[0].license_type_id[0]);
        assert(a[4].license_type_id[0] != b[1].license_type_id[0]);
        assert(a[4].license_type_id[0] != b[2].license_type_id[0]);
        assert(a[4].license_type_id[0] != b[3].license_type_id[0]);
        assert(a[4].license_type_id[0] != b[4].license_type_id[0]);
        assert(a[4].license_type_id[0] != b[5].license_type_id[0]);
        assert(a[4].license_type_id[0] != b[6].license_type_id[0]);
        assert(a[4].license_type_id[0] != b[7].license_type_id[0]);
        reveal_with_fuel(apart_each, 6);
        reveal_with_fuel(id_fresh_each, 9);
    }
    lemma_apart_each(a, b);
}

/// No licence type of `bdp_license_types` shares an identifier with one of `cro_license_types`.
proof fn lemma_bdp_license_types_apart_from_cro_license_types()
    ensures
        license_type_ids_apart(spec_bdp_license_types(), spec_cro_license_types()),
{
    let a = spec_bdp_license_types();
    let b = spec_cro_license_types();
    assert(apart_each(a, b)) by {
        reveal_strlit("ie-cro:branch-registration");
        reveal_strlit("ie-cro:designated-activity-company");
        reveal_strlit("ie-cro:icav");
        reveal_strlit("ie-cro:private-company-limited");
        reveal_strlit("ie-cro:public-limited-company");
        reveal_strlit("pt-bdp:credit-institution");
        reveal_strlit("pt-bdp:e-money-institution");
        reveal_strlit("pt-bdp:forex-dealer");
        reveal_strlit("pt-bdp:payment-institution");
        reveal_strlit("pt-bdp:vasp");
        assert(a[0].license_type_id[0] != b[0].license_type_id[0]);
        assert(a[0].license_type_id[0] != b[1].license_type_id[0]);
        assert(a[0].license_type_id[0] != b[2].license_type_id[0]);
        assert(a[0].license_type_id[0] != b[3].license_type_id[0]);
        assert(a[0].license_type_id[0] != b[4].license_type_id[0]);
        assert(a[1].license_type_id[0] != b[0].license_type_id[0]);
        assert(a[1].license_type_id[0] != b[1].license_type_id[0]);
        assert(a[1].license_type_id[0] != b[2].license_type_id[0]);
        assert(a[1].license_type_id[0] != b[3].license_type_id[0]);
        assert(a[1].license_type_id[0] != b[4].license_type_id[0]);
        assert(a[2].license_type_id[0] != b[0].license_type_id[0]);
        assert(a[2].license_type_id[0] != b[1].license_type_id[0]);
        assert(a[2].license_type_id[0] != b[2].license_type_id[0]);
        assert(a[2].license_type_id[0] != b[3].license_type_id[0]);
        assert(a[2].license_type_id[0] != b[4].license_type_id[0]);
        assert(a[3].license_type_id[0] != b[0].license_type_id[0]);
        assert(a[3].license_type_id[0] != b[1].license_type_id[0]);
        assert(a[3].license_type_id[0] != b[2].license_type_id[0]);
        assert(a[3].license_type_id[0] != b[3].license_type_id[0]);
        assert(a[3].license_type_id[0] != b[4].license_type_id[0]);
        assert(a[4].license_type_id[0] != b[0].license_type_id[0]);
        assert(a[4].license_type_id[0] != b[1].license_type_id[0]);
        assert(a[4].license_type_id[0] != b[2].license_type_id[0]);
        assert(a[4].license_type_id[0] != b[3].license_type_id[0]);
        assert(a[4].license_type_id[0] != b[4].license_type_id[0]);
        reveal_with_fuel(apart_each, 6);
        reveal_with_fuel(id_fresh_each, 6);
    }
    lemma_apart_each(a, b);
}

/// No licence type of `cmvm_license_types` shares an identifier with one of `ojk_license_types`.
proof fn lemma_cmvm_license_types_apart_from_ojk_license_types()
    ensures
        license_type_ids_apart(spec_cmvm_license_types(), spec_ojk_license_types()),
{
    let a = spec_cmvm_license_types();
    let b = spec_ojk_license_types();
    assert(apart_each(a, b)) by {
        reveal_strlit("id-ojk:commercial-bank");
        reveal_strlit("id-ojk:digital-bank");
        reveal_strlit("id-ojk:fintech-lending");
        reveal_strlit("id-ojk:insurance");
        reveal_strlit("id-ojk:multifinance");
        reveal_strlit("id-ojk:securities-company");
        reveal_strlit("pt-cmvm:crowdfunding-platform");
        reveal_strlit("pt-cmvm:financial-intermediary");
        reveal_strlit("pt-cmvm:fund-manager");
        reveal_strlit("pt-cmvm:investment-firm");
        reveal_strlit("pt-cmvm:venture-capital");
        assert(a[0].license_type_id[0] != b[0].license_type_id[0]);
        assert(a[0].license_type_id[0] != b[1].license_type_id[0]);
        assert(a[0].license_type_id[0] != b[2].license_type_id[0]);
        assert(a[0].license_type_id[0] != b[3].license_type_id[0]);
        assert(a[0].license_type_id[0] != b[4].license_type_id[0]);
        assert(a[0].license_type_id[0] != b[5].license_type_id[0]);
        assert(a[1].license_type_id[0] != b[0].license_type_id[0]);
        assert(a[1].license_type_id[0] != b[1].license_type_id[0]);
        assert(a[1].license_type_id[0] != b[2].license_type_id[0]);
        assert(a[1].license_type_id[0] != b[3].license_type_id[0]);
        assert(a[1].license_type_id[0] != b[4].license_type_id[0]);
        assert(a[1].license_type_id[0] != b[5].license_type_id[0]);
        assert(a[2].license_type_id[0] != b[0].license_type_id[0]);
        assert(a[2].license_type_id[0] != b[1].license_type_id[0]);
        assert(a[2].license_type_id[0] != b[2].license_type_id[0]);
        assert(a[2].license_type_id[0] != b[3].license_type_id[0]);
        assert(a[2].license_type_id[0] != b[4].license_type_id[0]);
        assert(a[2].license_type_id[0] != b[5].license_type_id[0]);
        assert(a[3].license_type_id[0] != b[0].license_type_id[0]);
        assert(a[3].license_type_id[0] != b[1].license_type_id[0]);
        assert(a[3].license_type_id[0] != b[2].license_type_id[0]);
        assert(a[3].license_type_id[0] != b[3].license_type_id[0]);
        assert(a[3].license_type_id[0] != b[4].license_type_id[0]);
        assert(a[3].license_type_id[0] != b[5].license_type_id[0]);
        assert(a[4].license_type_id[0] != b[0].license_type_id[0]);
        assert(a[4].license_type_id[0] != b[1].license_type_id[0]);
        assert(a[4].license_type_id[0] != b[2].license_type_id[0]);
        assert(a[4].license_type_id[0] != b[3].license_type_id[0]);
        assert(a[4].license_type_id[0] != b[4].license_type_id[0]);
        assert(a[4].license_type_id[0] != b[5].license_type_id[0]);
        reveal_with_fuel(apart_each, 6);
        reveal_with_fuel(id_fresh_each, 7);
    }
    lemma_apart_each(a, b);
}

/// No licence type of `cmvm_license_types` shares an identifier with one of `bi_license_types`.
proof fn lemma_cmvm_license_types_apart_from_bi_license_types()
    ensures
        license_type_ids_apart(spec_cmvm_license_types(), spec_bi_license_types()),
{
    let a = spec_cmvm_license_types();
    let b = spec_bi_license_types();
    assert(apart_each(a, b)) by {
        reveal_strlit("id-bi:e-money-issuer");
        reveal_strlit("id-bi:money-transfer");
        reveal_strlit("id-bi:payment-gateway");
        reveal_strlit("id-bi:payment-system-provider");
        reveal_strlit("pt-cmvm:crowdfunding-platform");
        reveal_strlit("pt-cmvm:financial-intermediary");
        reveal_strlit("pt-cmvm:fund-manager");
        reveal_strlit("pt-cmvm:investment-firm");
        reveal_strlit("pt-cmvm:venture-capital");
        assert(a[0].license_type_id[0] != b[0].license_type_id[0]);
        assert(a[0].license_type_id[0] != b[1].license_type_id[0]);
        assert(a[0].license_type_id[0] != b[2].license_type_id[0]);
        assert(a[0].license_type_id[0] != b[3].license_type_id[0]);
        assert(a[1].license_type_id[0] != b[0].license_type_id[0]);
        assert(a[1].license_type_id[0] != b[1].license_type_id[0]);
        assert(a[1].license_type_id[0] != b[2].license_type_id[0]);
        assert(a[1].license_type_id[0] != b[3].license_type_id[0]);
        assert(a[2].license_type_id[0] != b[0].license_type_id[0]);
        assert(a[2].license_type_id[0] != b[1].license_type_id[0]);
        assert(a[2].license_type_id[0] != b[2].license_type_id[0]);
        assert(a[2].license_type_id[0] != b[3].license_type_id[0]);
        assert(a[3].license_type_id[0] != b[0].license_type_id[0]);
        assert(a[3].license_type_id[0] != b[1].license_type_id[0]);
        assert(a[3].license_type_id[0] != b[2].license_type_id[0]);
        assert(a[3].license_type_id[0] != b[3].license_type_id[0]);
        assert(a[4].license_type_id[0] != b[0].license_type_id[0]);
        assert(a[4].license_type_id[0] != b[1].license_type_id[0]);
        assert(a[4].license_type_id[0] != b[2].license_type_id[0]);
        assert(a[4].license_type_id[0] != b[3].license_type_id[0]);
        reveal_with_fuel(apart_each, 6);
        reveal_with_fuel(id_fresh_each, 5);
    }
    lemma_apart_each(a, b);
}

/// No licence type of `cmvm_license_types` shares an identifier with one of `sarb_license_types`.
proof fn lemma_cmvm_license_types_apart_from_sarb_license_types()
    ensures
        license_type_ids_apart(spec_cmvm_license_types(), spec_sarb_license_types()),
{
    let a = spec_cmvm_license_types();
    let b = spec_sarb_license_types();
    assert(apart_each(a, b)) by {
        reveal_strlit("pt-cmvm:crowdfunding-platform");
        reveal_strlit("pt-cmvm:financial-intermediary");
        reveal_strlit("pt-cmvm:fund-manager");
        reveal_strlit("pt-cmvm:investment-firm");
        reveal_strlit("pt-cmvm:venture-capital");
        reveal_strlit("za-sarb:adla");
        reveal_strlit("za-sarb:banking");
        reveal_strlit("za-sarb:casp");
        reveal_strlit("za-sarb:mutual-bank");
        reveal_strlit("za-sarb:payment-system");
        assert(a[0].license_type_id[0] != b[0].license_type_id[0]);
        assert(a[0].license_type_id[0] != b[1].license_type_id[0]);
        assert(a[0].license_type_id[0] != b[2].license_type_id[0]);
        assert(a[0].license_type_id[0] != b[3].license_type_id[0]);
        assert(a[0].license_type_id[0] != b[4].license_type_id[0]);
        assert(a[1].license_type_id[0] != b[0].license_type_id[0]);
        assert(a[1].license_type_id[0] != b[1].license_type_id[0]);
        assert(a[1].license_type_id[0] != b[2].license_type_id[0]);
        assert(a[1].license_type_id[0] != b[3].license_type_id[0]);
        assert(a[1].license_type_id[0] != b[4].license_type_id[0]);
        assert(a[2].license_type_id[0] != b[0].license_type_id[0]);
        assert(a[2].license_type_id[0] != b[1].license_type_id[0]);
        assert(a[2].license_type_id[0] != b[2].license_type_id[0]);
        assert(a[2].license_type_id[0] != b[3].license_type_id[0]);
        assert(a[2].license_type_id[0] != b[4].license_type_id[0]);
        assert(a[3].license_type_id[0] != b[0].license_type_id[0]);
        assert(a[3].license_type_id[0] != b[1].license_type_id[0]);
        assert(a[3].license_type_id[0] != b[2].license_type_id[0]);
        assert(a[3].license_type_id[0] != b[3].license_type_id[0]);
        assert(a[3].license_type_id[0] != b[4].license_type_id[0]);
        assert(a[4].license_type_id[0] != b[0].license_type_id[0]);
        assert(a[4].license_type_id[0] != b[1].license_type_id[0]);
        assert(a[4].license_type_id[0] != b[2].license_type_id[0]);
        assert(a[4].license_type_id[0] != b[3].license_type_id[0]);
        assert(a[4].license_type_id[0] != b[4].license_type_id[0]);
        reveal_with_fuel(apart_each, 6);
        reveal_with_fuel(id_fresh_each, 6);
    }
    lemma_apart_each(a, b);
}

/// No licence type of `cmvm_license_types` shares an identifier with one of `fsca_license_types`.
proof fn lemma_cmvm_license_types_apart_from_fsca_license_types()
    ensures
        license_type_ids_apart(spec_cmvm_license_types(), spec_fsca_license_types()),
{
    let a = spec_cmvm_license_types();
    let b = spec_fsca_license_types();
    assert(apart_each(a, b)) by {
        reveal_strlit("pt-cmvm:crowdfunding-platform");
        reveal_strlit("pt-cmvm:financial-intermediary");
        reveal_strlit("pt-cmvm:fund-manager");
        reveal_strlit("pt-cmvm:investment-firm");
        reveal_strlit("pt-cmvm:venture-capital");
        reveal_strlit("za-fsca:collective-investment-scheme");
        reveal_strlit("za-fsca:fsp");
        reveal_strlit("za-fsca:insurance");
        reveal_strlit("za-fsca:market-infrastructure");
        reveal_strlit("za-fsca:retirement-fund");
        assert(a[0].license_type_id[0] != b[0].license_type_id[0]);
        assert(a[0].license_type_id[0] != b[1].license_type_id[0]);
        assert(a[0].license_type_id[0] != b[2].license_type_id[0]);
        assert(a[0].license_type_id[0] != b[3].license_type_id[0]);
        assert(a[0].license_type_id[0] != b[4].license_type_id[0]);
        assert(a[1].license_type_id[0] != b[0].license_type_id[0]);
        assert(a[1].license_type_id[0] != b[1].license_type_id[0]);
        assert(a[1].license_type_id[0] != b[2].license_type_id[0]);
        assert(a[1].license_type_id[0] != b[3].license_type_id[0]);
        assert(a[1].license_type_id[0] != b[4].license_type_id[0]);
        assert(a[2].license_type_id[0] != b[0].license_type_id[0]);
        assert(a[2].license_type_id[0] != b[1].license_type_id[0]);
        assert(a[2].license_type_id[0] != b[2].license_type_id[0]);
        assert(a[2].license_type_id[0] != b[3].license_type_id[0]);
        assert(a[2].license_type_id[0] != b[4].license_type_id[0]);
        assert(a[3].license_type_id[0] != b[0].license_type_id[0]);
        assert(a[3].license_type_id[0] != b[1].license_type_id[0]);
        assert(a[3].license_type_id[0] != b[2].license_type_id[0]);
        assert(a[3].license_type_id[0] != b[3].license_type_id[0]);
        assert(a[3].license_type_id[0] != b[4].license_type_id[0]);
        assert(a[4].license_type_id[0] != b[0].license_type_id[0]);
        assert(a[4].license_type_id[0] != b[1].license_type_id[0]);
        assert(a[4].license_type_id[0] != b[2].license_type_id[0]);
        assert(a[4].license_type_id[0] != b[3].license_type_id[0]);
        assert(a[4].license_type_id[0] != b[4].license_type_id[0]);
        reveal_with_fuel(apart_each, 6);
        reveal_with_fuel(id_fresh_each, 6);
    }
    lemma_apart_each(a, b);
}

/// No licence type of `cmvm_license_types` shares an identifier with one of `cbe_license_types`.
proof fn lemma_cmvm_license_types_apart_from_cbe_license_types()
    ensures
        license_type_ids_apart(spec_cmvm_license_types(), spec_cbe_license_types()),
{
    let a = spec_cmvm_license_types();
    let b = spec_cbe_license_types();
    assert(apart_each(a, b)) by {
        reveal_strlit("eg-cbe:commercial-bank");
        reveal_strlit("eg-cbe:fintech");
        reveal_strlit("eg-cbe:islamic-bank");
        reveal_strlit("eg-cbe:money-exchange");
        reveal_strlit("eg-cbe:payment-service-provider");
        reveal_strlit("pt-cmvm:crowdfunding-platform");
        reveal_strlit("pt-cmvm:financial-intermediary");
        reveal_strlit("pt-cmvm:fund-manager");
        reveal_strlit("pt-cmvm:investment-firm");
        reveal_strlit("pt-cmvm:venture-capital");
        assert(a[0].license_type_id[0] != b[0].license_type_id[0]);
        assert(a[0].license_type_id[0] != b[1].license_type_id[0]);
        assert(a[0].license_type_id[0] != b[2].license_type_id[0]);
        assert(a[0].license_type_id[0] != b[3].license_type_id[0]);
        assert(a[0].license_type_id[0] != b[4].license_type_id[0]);
        assert(a[1].license_type_id[0] != b[0].license_type_id[0]);
        assert(a[1].license_type_id[0] != b[1].license_type_id[0]);
        assert(a[1].license_type_id[0] != b[2].license_type_id[0]);
        assert(a[1].license_type_id[0] != b[3].license_type_id[0]);
        assert(a[1].license_type_id[0] != b[4].license_type_id[0]);
        assert(a[2].license_type_id[0] != b[0].license_type_id[0]);
        assert(a[2].license_type_id[0] != b[1].license_type_id[0]);
        assert(a[2].license_type_id[0] != b[2].license_type_id[0]);
        assert(a[2].license_type_id[0] != b[3].license_type_id[0]);
        assert(a[2].license_type_id[0] != b[4].license_type_id[0]);
        assert(a[3].license_type_id[0] != b[0].license_type_id[0]);
        assert(a[3].license_type_id[0] != b[1].license_type_id[0]);
        assert(a[3].license_type_id[0] != b[2].license_type_id[0]);
        assert(a[3].license_type_id[0] != b[3].license_type_id[0]);
        assert(a[3].license_type_id[0] != b[4].license_type_id[0]);
        assert(a[4].license_type_id[0] != b[0].license_type_id[0]);
        assert(a[4].license_type_id[0] != b[1].license_type_id[0]);
        assert(a[4].license_type_id[0] != b[2].license_type_id[0]);
        assert(a[4].license_type_id[0] != b[3].license_type_id[0]);
        assert(a[4].license_type_id[0] != b[4].license_type_id[0]);
        reveal_with_fuel(apart_each, 6);
        reveal_with_fuel(id_fresh_each, 6);
    }
    lemma_apart_each(a, b);
}

/// No licence type of `cmvm_license_types` shares an identifier with one of `fra_license_types`.
proof fn lemma_cmvm_license_types_apart_from_fra_license_types()
    ensures
        license_type_ids_apart(spec_cmvm_license_types(), spec_fra_license_types()),
{
    let a = spec_cmvm_license_types();
    let b = spec_fra_license_types();
    assert(apart_each(a, b)) by {
        reveal_strlit("eg-fra:factoring");
        reveal_strlit("eg-fra:insurance");
        reveal_strlit("eg-fra:leasing");
        reveal_strlit("eg-fra:microfinance");
        reveal_strlit("eg-fra:securities-brokerage");
        reveal_strlit("pt-cmvm:crowdfunding-platform");
        reveal_strlit("pt-cmvm:financial-intermediary");
        reveal_strlit("pt-cmvm:fund-manager");
        reveal_strlit("pt-cmvm:investment-firm");
        reveal_strlit("pt-cmvm:venture-capital");
        assert(a[0].license_type_id[0] != b[0].license_type_id[0]);
        assert(a[0].license_type_id[0] != b[1].license_type_id[0]);
        assert(a[0].license_type_id[0] != b[2].license_type_id[0]);
        assert(a[0].license_type_id[0] != b[3].license_type_id[0]);
        assert(a[0].license_type_id[0] != b[4].license_type_id[0]);
        assert(a[1].license_type_id[0] != b[0].license_type_id[0]);
        assert(a[1].license_type_id[0] != b[1].license_type_id[0]);
        assert(a[1].license_type_id[0] != b[2].license_type_id[0]);
        assert(a[1].license_type_id[0] != b[3].license_type_id[0]);
        assert(a[1].license_type_id[0] != b[4].license_type_id[0]);
        assert(a[2].license_type_id[0] != b[0].license_type_id[0]);
        assert(a[2].license_type_id[0] != b[1].license_type_id[0]);
        assert(a[2].license_type_id[0] != b[2].license_type_id[0]);
        assert(a[2].license_type_id[0] != b[3].license_type_id[0]);
        assert(a[2].license_type_id[0] != b[4].license_type_id[0]);
        assert(a[3].license_type_id[0] != b[0].license_type_id[0]);
        assert(a[3].license_type_id[0] != b[1].license_type_id[0]);
        assert(a[3].license_type_id[0] != b[2].license_type_id[0]);
        assert(a[3].license_type_id[0] != b[3].license_type_id[0]);
        assert(a[3].license_type_id[0] != b[4].license_type_id[0]);
        assert(a[4].license_type_id[0] != b[0].license_type_id[0]);
        assert(a[4].license_type_id[0] != b[1].license_type_id[0]);
        assert(a[4].license_type_id[0] != b[2].license_type_id[0]);
        assert(a[4].license_type_id[0] != b[3].license_type_id[0]);
        assert(a[4].license_type_id[0] != b[4].license_type_id[0]);
        reveal_with_fuel(apart_each, 6);
        reveal_with_fuel(id_fresh_each, 6);
    }
    lemma_apart_each(a, b);
}

/// No licence type of `cmvm_license_types` shares an identifier with one of `bot_license_types`.
proof fn lemma_cmvm_license_types_apart_from_bot_license_types()
    ensures
        license_type_ids_apart(spec_cmvm_license_types(), spec_bot_license_types()),
{
    let a = spec_cmvm_license_types();
    let b = spec_bot_license_types();
    assert(apart_each(a, b)) by {
        reveal_strlit("pt-cmvm:crowdfunding-platform");
        reveal_strlit("pt-cmvm:financial-intermediary");
        reveal_strlit("pt-cmvm:fund-manager");
        reveal_strlit("pt-cmvm:investment-firm");
        reveal_strlit("pt-cmvm:venture-capital");
        reveal_strlit("tz-bot:commercial-bank");
        reveal_strlit("tz-bot:forex-bureau");
        reveal_strlit("tz-bot:microfinance");
        reveal_strlit("tz-bot:mobile-money");
        reveal_strlit("tz-bot:payment-system");
        assert(a[0].license_type_id[0] != b[0].license_type_id[0]);
        assert(a[0].license_type_id[0] != b[1].license_type_id[0]);
        assert(a[0].license_type_id[0] != b[2].license_type_id[0]);
        assert(a[0].license_type_id[0] != b[3].license_type_id[0]);
        assert(a[0].license_type_id[0] != b[4].license_type_id[0]);
        assert(a[1].license_type_id[0] != b[0].license_type_id[0]);
        assert(a[1].license_type_id[0] != b[1].license_type_id[0]);
        assert(a[1].license_type_id[0] != b[2].license_type_id[0]);
        assert(a[1].license_type_id[0] != b[3].license_type_id[0]);
        assert(a[1].license_type_id[0] != b[4].license_type_id[0]);
        assert(a[2].license_type_id[0] != b[0].license_type_id[0]);
        assert(a[2].license_type_id[0] != b[1].license_type_id[0]);
        assert(a[2].license_type_id[0] != b[2].license_type_id[0]);
        assert(a[2].license_type_id[0] != b[3].license_type_id[0]);
        assert(a[2].license_type_id[0] != b[4].license_type_id[0]);
        assert(a[3].license_type_id[0] != b[0].license_type_id[0]);
        assert(a[3].license_type_id[0] != b[1].license_type_id[0]);
        assert(a[3].license_type_id[0] != b[2].license_type_id[0]);
        assert(a[3].license_type_id[0] != b[3].license_type_id[0]);
        assert(a[3].license_type_id[0] != b[4].license_type_id[0]);
        assert(a[4].license_type_id[0] != b[0].license_type_id[0]);
        assert(a[4].license_type_id[0] != b[1].license_type_id[0]);
        assert(a[4].license_type_id[0] != b[2].license_type_id[0]);
        assert(a[4].license_type_id[0] != b[3].license_type_id[0]);
        assert(a[4].license_type_id[0] != b[4].license_type_id[0]);
        reveal_with_fuel(apart_each, 6);
        reveal_with_fuel(id_fresh_each, 6);
    }
    lemma_apart_each(a, b);
}

/// No licence type of `cmvm_license_types` shares an identifier with one of `zanzibar_br_license_types`.
proof fn lemma_cmvm_license_types_apart_from_zanzibar_br_license_types()
    ensures
        license_type_ids_apart(spec_cmvm_license_types(), spec_zanzibar_br_license_types()),
{
    let a = spec_cmvm_license_types();
    let b = spec_zanzibar_br_license_types();
    assert(apart_each(a, b)) by {
        reveal_strlit("pt-cmvm:crowdfunding-platform");
        reveal_strlit("pt-cmvm:financial-intermediary");
        reveal_strlit("pt-cmvm:fund-manager");
        reveal_strlit("pt-cmvm:investment-firm");
        reveal_strlit("pt-cmvm:venture-capital");
        reveal_strlit("tz-zanzibar-br:business-license");
        reveal_strlit("tz-zanzibar-br:company-registration");
        reveal_strlit("tz-zanzibar-br:foreign-investment");
        reveal_strlit("tz-zanzibar-br:free-zone-enterprise");
        assert(a[0].license_type_id[0] != b[0].license_type_id[0]);
        assert(a[0].license_type_id[0] != b[1].license_type_id[0]);
        assert(a[0].license_type_id[0] != b[2].license_type_id[0]);
        assert(a[0].license_type_id[0] != b[3].license_type_id[0]);
        assert(a[1].license_type_id[0] != b[0].license_type_id[0]);
        assert(a[1].license_type_id[0] != b[1].license_type_id[0]);
        assert(a[1].license_type_id[0] != b[2].license_type_id[0]);
        assert(a[1].license_type_id[0] != b[3].license_type_id[0]);
        assert(a[2].license_type_id[0] != b[0].license_type_id[0]);
        assert(a[2].license_type_id[0] != b[1].license_type_id[0]);
        assert(a[2].license_type_id[0] != b[2].license_type_id[0]);
        assert(a[2].license_type_id[0] != b[3].license_type_id[0]);
        assert(a[3].license_type_id[0] != b[0].license_type_id[0]);
        assert(a[3].license_type_id[0] != b[1].license_type_id[0]);
        assert(a[3].license_type_id[0] != b[2].license_type_id[0]);
        assert(a[3].license_type_id[0] != b[3].license_type_id[0]);
        assert(a[4].license_type_id[0] != b[0].license_type_id[0]);
        assert(a[4].license_type_id[0] != b[1].license_type_id[0]);
        assert(a[4].license_type_id[0] != b[2].license_type_id[0]);
        assert(a[4].license_type_id[0] != b[3].license_type_id[0]);
        reveal_with_fuel(apart_each, 6);
        reveal_with_fuel(id_fresh_each, 5);
    }
    lemma_apart_each(a, b);
}

/// No licence type of `cmvm_license_types` shares an identifier with one of `cbi_license_types`.
proof fn lemma_cmvm_license_types_apart_from_cbi_license_types()
    ensures
        license_type_ids_apart(spec_cmvm_license_types(), spec_cbi_license_types()),
{
    let a = spec_cmvm_license_types();
    let b = spec_cbi_license_types();
    assert(apart_each(a, b)) by {
        reveal_strlit("ie-cbi:credit-institution");
        reveal_strlit("ie-cbi:e-money-institution");
        reveal_strlit("ie-cbi:fund-manager");
        reveal_strlit("ie-cbi:insurance-intermediary");
        reveal_strlit("ie-cbi:insurance-undertaking");
        reveal_strlit("ie-cbi:investment-firm");
        reveal_strlit("ie-cbi:payment-institution");
        reveal_strlit("ie-cbi:vasp");
        reveal_strlit("pt-cmvm:crowdfunding-platform");
        reveal_strlit("pt-cmvm:financial-intermediary");
        reveal_strlit("pt-cmvm:fund-manager");
        reveal_strlit("pt-cmvm:investment-firm");
        reveal_strlit("pt-cmvm:venture-capital");
        assert(a[0].license_type_id[0] != b[0].license_type_id[0]);
        assert(a[0].license_type_id[0] != b[1].license_type_id[0]);
        assert(a[0].license_type_id[0] != b[2].license_type_id[0]);
        assert(a[0].license_type_id[0] != b[3].license_type_id[0]);
        assert(a[0].license_type_id[0] != b[4].license_type_id[0]);
        assert(a[0].license_type_id[0] != b[5].license_type_id[0]);
        assert(a[0].license_type_id[0] != b[6].license_type_id[0]);
        assert(a[0].license_type_id[0] != b[7].license_type_id[0]);
        assert(a[1].license_type_id[0] != b[0].license_type_id[0]);
        assert(a[1].license_type_id[0] != b[1].license_type_id[0]);
        assert(a[1].license_type_id[0] != b[2].license_type_id[0]);
        assert(a[1].license_type_id[0] != b[3].license_type_id[0]);
        assert(a[1].license_type_id[0] != b[4].license_type_id[0]);
        assert(a[1].license_type_id[0] != b[5].license_type_id[0]);
        assert(a[1].license_type_id[0] != b[6].license_type_id[0]);
        assert(a[1].license_type_id[0] != b[7].license_type_id[0]);
        assert(a[2].license_type_id[0] != b[0].license_type_id[0]);
        assert(a[2].license_type_id[0] != b[1].license_type_id[0]);
        assert(a[2].license_type_id[0] != b[2].license_type_id[0]);
        assert(a[2].license_type_id[0] != b[3].license_type_id[0]);
        assert(a[2].license_type_id[0] != b[4].license_type_id[0]);
        assert(a[2].license_type_id[0] != b[5].license_type_id[0]);
        assert(a[2].license_type_id[0] != b[6].license_type_id[0]);
        assert(a[2].license_type_id[0] != b[7].license_type_id[0]);
        assert(a[3].license_type_id[0] != b[0].license_type_id[0]);
        assert(a[3].license_type_id[0] != b[1].license_type_id[0]);
        assert(a[3].license_type_id[0] != b[2].license_type_id[0]);
        assert(a[3].license_type_id[0] != b[3].license_type_id[0]);
        assert(a[3].license_type_id[0] != b[4].license_type_id[0]);
        assert(a[3].license_type_id[0] != b[5].license_type_id[0]);
        assert(a[3].license_type_id[0] != b[6].license_type_id[0]);
        assert(a[3].license_type_id[0] != b[7].license_type_id[0]);
        assert(a[4].license_type_id[0] != b[0].license_type_id[0]);
        assert(a[4].license_type_id[0] != b[1].license_type_id[0]);
        assert(a[4].license_type_id[0] != b[2].license_type_id[0]);
        assert(a[4].license_type_id[0] != b[3].license_type_id[0]);
        assert(a[4].license_type_id[0] != b[4].license_type_id[0]);
        assert(a[4].license_type_id[0] != b[5].license_type_id[0]);
        assert(a[4].license_type_id[0] != b[6].license_type_id[0]);
        assert(a[4].license_type_id[0] != b[7].license_type_id[0]);
        reveal_with_fuel(apart_each, 6);
        reveal_with_fuel(id_fresh_each, 9);
    }
    lemma_apart_each(a, b);
}

/// No licence type of `cmvm_license_types` shares an identifier with one of `cro_license_types`.
proof fn lemma_cmvm_license_types_apart_from_cro_license_types()
    ensures
        license_type_ids_apart(spec_cmvm_license_types(), spec_cro_license_types()),
{
    let a = spec_cmvm_license_types();
    let b = spec_cro_license_types();
    assert(apart_each(a, b)) by {
        reveal_strlit("ie-cro:branch-registration");
        reveal_strlit("ie-cro:designated-activity-company");
        reveal_strlit("ie-cro:icav");
        reveal_strlit("ie-cro:private-company-limited");
        reveal_strlit("ie-cro:public-limited-company");
        reveal_strlit("pt-cmvm:crowdfunding-platform");
        reveal_strlit("pt-cmvm:financial-intermediary");
        reveal_strlit("pt-cmvm:fund-manager");
        reveal_strlit("pt-cmvm:investment-firm");
        reveal_strlit("pt-cmvm:venture-capital");
        assert(a[0].license_type_id[0] != b[0].license_type_id[0]);
        assert(a[0].license_type_id[0] != b[1].license_type_id[0]);
        assert(a[0].license_type_id[0] != b[2].license_type_id[0]);
        assert(a[0].license_type_id[0] != b[3].license_type_id[0]);
        assert(a[0].license_type_id[0] != b[4].license_type_id[0]);
        assert(a[1].license_type_id[0] != b[0].license_type_id[0]);
        assert(a[1].license_type_id[0] != b[1].license_type_id[0]);
        assert(a[1].license_type_id[0] != b[2].license_type_id[0]);
        assert(a[1].license_type_id[0] != b[3].license_type_id[0]);
        assert(a[1].license_type_id[0] != b[4].license_type_id[0]);
        assert(a[2].license_type_id[0] != b[0].license_type_id[0]);
        assert(a[2].license_type_id[0] != b[1].license_type_id[0]);
        assert(a[2].license_type_id[0] != b[2].license_type_id[0]);
        assert(a[2].license_type_id[0] != b[3].license_type_id[0]);
        assert(a[2].license_type_id[0] != b[4].license_type_id[0]);
        assert(a[3].license_type_id[0] != b[0].license_type_id[0]);
        assert(a[3].license_type_id[0] != b[1].license_type_id[0]);
        assert(a[3].license_type_id[0] != b[2].license_type_id[0]);
        assert(a[3].license_type_id[0] != b[3].license_type_id[0]);
        assert(a[3].license_type_id[0] != b[4].license_type_id[0]);
        assert(a[4].license_type_id[0] != b[0].license_type_id[0]);
        assert(a[4].license_type_id[0] != b[1].license_type_id[0]);
        assert(a[4].license_type_id[0] != b[2].license_type_id[0]);
        assert(a[4].license_type_id[0] != b[3].license_type_id[0]);
        assert(a[4].license_type_id[0] != b[4].license_type_id[0]);
        reveal_with_fuel(apart_each, 6);
        reveal_with_fuel(id_fresh_each, 6);
    }
    lemma_apart_each(a, b);
}

/// No licence type of `ojk_license_types` shares an identifier with one of `bi_license_types`.
proof fn lemma_ojk_license_types_apart_from_bi_license_types()
    ensures
        license_type_ids_apart(spec_ojk_license_types(), spec_bi_license_types()),
{
    let a = spec_ojk_license_types();
    let b = spec_bi_license_types();
    assert(apart_each(a, b)) by {
        reveal_strlit("id-bi:e-money-issuer");
        reveal_strlit("id-bi:money-transfer");
        reveal_strlit("id-bi:payment-gateway");
        reveal_strlit("id-bi:payment-system-provider");
        reveal_strlit("id-ojk:commercial-bank");
        reveal_strlit("id-ojk:digital-bank");
        reveal_strlit("id-ojk:fintech-lending");
        reveal_strlit("id-ojk:insurance");
        reveal_strlit("id-ojk:multifinance");
        reveal_strlit("id-ojk:securities-company");
        assert(a[0].license_type_id[3] != b[0].license_type_id[3]);
        assert(a[0].license_type_id[3] != b[1].license_type_id[3]);
        assert(a[0].license_type_id[3] != b[2].license_type_id[3]);
        assert(a[0].license_type_id[3] != b[3].license_type_id[3]);
        assert(a[1].license_type_id[3] != b[0].license_type_id[3]);
        assert(a[1].license_type_id[3] != b[1].license_type_id[3]);
        assert(a[1].license_type_id[3] != b[2].license_type_id[3]);
        assert(a[1].license_type_id[3] != b[3].license_type_id[3]);
        assert(a[2].license_type_id[3] != b[0].license_type_id[3]);
        assert(a[2].license_type_id[3] != b[1].license_type_id[3]);
        assert(a[2].license_type_id[3] != b[2].license_type_id[3]);
        assert(a[2].license_type_id[3] != b[3].license_type_id[3]);
        assert(a[3].license_type_id[3] != b[0].license_type_id[3]);
        assert(a[3].license_type_id[3] != b[1].license_type_id[3]);
        assert(a[3].license_type_id[3] != b[2].license_type_id[3]);
        assert(a[3].license_type_id[3] != b[3].license_type_id[3]);
        assert(a[4].license_type_id[3] != b[0].license_type_id[3]);
        assert(a[4].license_type_id[3] != b[1].license_type_id[3]);
        assert(a[4].license_type_id[3] != b[2].license_type_id[3]);
        assert(a[4].license_type_id[3] != b[3].license_type_id[3]);
        assert(a[5].license_type_id[3] != b[0].license_type_id[3]);
        assert(a[5].license_type_id[3] != b[1].license_type_id[3]);
        assert(a[5].license_type_id[3] != b[2].license_type_id[3]);
        assert(a[5].license_type_id[3] != b[3].license_type_id[3]);
        reveal_with_fuel(apart_each, 7);
        reveal_with_fuel(id_fresh_each, 5);
    }
    lemma_apart_each(a, b);
}

/// No licence type of `ojk_license_types` shares an identifier with one of `sarb_license_types`.
proof fn lemma_ojk_license_types_apart_from_sarb_license_types()
    ensures
        license_type_ids_apart(spec_ojk_license_types(), spec_sarb_license_types()),
{
    let a = spec_ojk_license_types();
    let b = spec_sarb_license_types();
    assert(apart_each(a, b)) by {
        reveal_strlit("id-ojk:commercial-bank");
        reveal_strlit("id-ojk:digital-bank");
        reveal_strlit("id-ojk:fintech-lending");
        reveal_strlit("id-ojk:insurance");
        reveal_strlit("id-ojk:multifinance");
        reveal_strlit("id-ojk:securities-company");
        reveal_strlit("za-sarb:adla");
        reveal_strlit("za-sarb:banking");
        reveal_strlit("za-sarb:casp");
        reveal_strlit("za-sarb:mutual-bank");
        reveal_strlit("za-sarb:payment-system");
        assert(a[0].license_type_id[0] != b[0].license_type_id[0]);
        assert(a[0].license_type_id[0] != b[1].license_type_id[0]);
        assert(a[0].license_type_id[0] != b[2].license_type_id[0]);
        assert(a[0].license_type_id[0] != b[3].license_type_id[0]);
        assert(a[0].license_type_id[0] != b[4].license_type_id[0]);
        assert(a[1].license_type_id[0] != b[0].license_type_id[0]);
        assert(a[1].license_type_id[0] != b[1].license_type_id[0]);
        assert(a[1].license_type_id[0] != b[2].license_type_id[0]);
        assert(a[1].license_type_id[0] != b[3].license_type_id[0]);
        assert(a[1].license_type_id[0] != b[4].license_type_id[0]);
        assert(a[2].license_type_id[0] != b[0].license_type_id[0]);
        assert(a[2].license_type_id[0] != b[1].license_type_id[0]);
        assert(a[2].license_type_id[0] != b[2].license_type_id[0]);
        assert(a[2].license_type_id[0] != b[3].license_type_id[0]);
        assert(a[2].license_type_id[0] != b[4].license_type_id[0]);
        assert(a[3].license_type_id[0] != b[0].license_type_id[0]);
        assert(a[3].license_type_id[0] != b[1].license_type_id[0]);
        assert(a[3].license_type_id[0] != b[2].license_type_id[0]);
        assert(a[3].license_type_id[0] != b[3].license_type_id[0]);
        assert(a[3].license_type_id[0] != b[4].license_type_id[0]);
        assert(a[4].license_type_id[0] != b[0].license_type_id[0]);
        assert(a[4].license_type_id[0] != b[1].license_type_id[0]);
        assert(a[4].license_type_id[0] != b[2].license_type_id[0]);
        assert(a[4].license_type_id[0] != b[3].license_type_id[0]);
        assert(a[4].license_type_id[0] != b[4].license_type_id[0]);
        assert(a[5].license_type_id[0] != b[0].license_type_id[0]);
        assert(a[5].license_type_id[0] != b[1].license_type_id[0]);
        assert(a[5].license_type_id[0] != b[2].license_type_id[0]);
        assert(a[5].license_type_id[0] != b[3].license_type_id[0]);
        assert(a[5].license_type_id[0] != b[4].license_type_id[0]);
        reveal_with_fuel(apart_each, 7);
        reveal_with_fuel(id_fresh_each, 6);
    }
    lemma_apart_each(a, b);
}

/// No licence type of `ojk_license_types` shares an identifier with one of `fsca_license_types`.
proof fn lemma_ojk_license_types_apart_from_fsca_license_types()
    ensures
        license_type_ids_apart(spec_ojk_license_types(), spec_fsca_license_types()),
{
    let a = spec_ojk_license_types();
    let b = spec_fsca_license_types();
    assert(apart_each(a, b)) by {
        reveal_strlit("id-ojk:commercial-bank");
        reveal_strlit("id-ojk:digital-bank");
        reveal_strlit("id-ojk:fintech-lending");
        reveal_strlit("id-ojk:insurance");
        reveal_strlit("id-ojk:multifinance");
        reveal_strlit("id-ojk:securities-company");
        reveal_strlit("za-fsca:collective-investment-scheme");
        reveal_strlit("za-fsca:fsp");
        reveal_strlit("za-fsca:insurance");
        reveal_strlit("za-fsca:market-infrastructure");
        reveal_strlit("za-fsca:retirement-fund");
        assert(a[0].license_type_id[0] != b[0].license_type_id[0]);
        assert(a[0].license_type_id[0] != b[1].license_type_id[0]);
        assert(a[0].license_type_id[0] != b[2].license_type_id[0]);
        assert(a[0].license_type_id[0] != b[3].license_type_id[0]);
        assert(a[0].license_type_id[0] != b[4].license_type_id[0]);
        assert(a[1].license_type_id[0] != b[0].license_type_id[0]);
        assert(a[1].license_type_id[0] != b[1].license_type_id[0]);
        assert(a[1].license_type_id[0] != b[2].license_type_id[0]);
        assert(a[1].license_type_id[0] != b[3].license_type_id[0]);
        assert(a[1].license_type_id[0] != b[4].license_type_id[0]);
        assert(a[2].license_type_id[0] != b[0].license_type_id[0]);
        assert(a[2].license_type_id[0] != b[1].license_type_id[0]);
        assert(a[2].license_type_id[0] != b[2].license_type_id[0]);
        assert(a[2].license_type_id[0] != b[3].license_type_id[0]);
        assert(a[2].license_type_id[0] != b[4].license_type_id[0]);
        assert(a[3].license_type_id[0] != b[0].license_type_id[0]);
        assert(a[3].license_type_id[0] != b[1].license_type_id[0]);
        assert(a[3].license_type_id[0] != b[2].license_type_id[0]);
        assert(a[3].license_type_id[0] != b[3].license_type_id[0]);
        assert(a[3].license_type_id[0] != b[4].license_type_id[0]);
        assert(a[4].license_type_id[0] != b[0].license_type_id[0]);
        assert(a[4].license_type_id[0] != b[1].license_type_id[0]);
        assert(a[4].license_type_id[0] != b[2].license_type_id[0]);
        assert(a[4].license_type_id[0] != b[3].license_type_id[0]);
        assert(a[4].license_type_id[0] != b[4].license_type_id[0]);
        assert(a[5].license_type_id[0] != b[0].license_type_id[0]);
        assert(a[5].license_type_id[0] != b[1].license_type_id[0]);
        assert(a[5].license_type_id[0] != b[2].license_type_id[0]);
        assert(a[5].license_type_id[0] != b[3].license_type_id[0]);
        assert(a[5].license_type_id[0] != b[4].license_type_id[0]);
        reveal_with_fuel(apart_each, 7);
        reveal_with_fuel(id_fresh_each, 6);
    }
    lemma_apart_each(a, b);
}

/// No licence type of `ojk_license_types` shares an identifier with one of `cbe_license_types`.
proof fn lemma_ojk_license_types_apart_from_cbe_license_types()
    ensures
        license_type_ids_apart(spec_ojk_license_types(), spec_cbe_license_types()),
{
    let a = spec_ojk_license_types();
    let b = spec_cbe_license_types();
    assert(apart_each(a, b)) by {
        reveal_strlit("eg-cbe:commercial-bank");
        reveal_strlit("eg-cbe:fintech");
        reveal_strlit("eg-cbe:islamic-bank");
        reveal_strlit("eg-cbe:money-exchange");
        reveal_strlit("eg-cbe:payment-service-provider");
        reveal_strlit("id-ojk:commercial-bank");
        reveal_strlit("id-ojk:digital-bank");
        reveal_strlit("id-ojk:fintech-lending");
        reveal_strlit("id-ojk:insurance");
        reveal_strlit("id-ojk:multifinance");
        reveal_strlit("id-ojk:securities-company");
        assert(a[0].license_type_id[0] != b[0].license_type_id[0]);
        assert(a[0].license_type_id[0] != b[1].license_type_id[0]);
        assert(a[0].license_type_id[0] != b[2].license_type_id[0]);
        assert(a[0].license_type_id[0] != b[3].license_type_id[0]);
        assert(a[0].license_type_id[0] != b[4].license_type_id[0]);
        assert(a[1].license_type_id[0] != b[0].license_type_id[0]);
        assert(a[1].license_type_id[0] != b[1].license_type_id[0]);
        assert(a[1].license_type_id[0] != b[2].license_type_id[0]);
        assert(a[1].license_type_id[0] != b[3].license_type_id[0]);
        assert(a[1].license_type_id[0] != b[4].license_type_id[0]);
        assert(a[2].license_type_id[0] != b[0].license_type_id[0]);
        assert(a[2].license_type_id[0] != b[1].license_type_id[0]);
        assert(a[2].license_type_id[0] != b[2].license_type_id[0]);
        assert(a[2].license_type_id[0] != b[3].license_type_id[0]);
        assert(a[2].license_type_id[0] != b[4].license_type_id[0]);
        assert(a[3].license_type_id[0] != b[0].license_type_id[0]);
        assert(a[3].license_type_id[0] != b[1].license_type_id[0]);
        assert(a[3].license_type_id[0] != b[2].license_type_id[0]);
        assert(a[3].license_type_id[0] != b[3].license_type_id[0]);
        assert(a[3].license_type_id[0] != b[4].license_type_id[0]);
        assert(a[4].license_type_id[0] != b[0].license_type_id[0]);
        assert(a[4].license_type_id[0] != b[1].license_type_id[0]);
        assert(a[4].license_type_id[0] != b[2].license_type_id[0]);
        assert(a[4].license_type_id[0] != b[3].license_type_id[0]);
        assert(a[4].license_type_id[0] != b[4].license_type_id[0]);
        assert(a[5].license_type_id[0] != b[0].license_type_id[0]);
        assert(a[5].license_type_id[0] != b[1].license_type_id[0]);
        assert(a[5].license_type_id[0] != b[2].license_type_id[0]);
        assert(a[5].license_type_id[0] != b[3].license_type_id[0]);
        assert(a[5].license_type_id[0] != b[4].license_type_id[0]);
        reveal_with_fuel(apart_each, 7);
        reveal_with_fuel(id_fresh_each, 6);
    }
    lemma_apart_each(a, b);
}

/// No licence type of `ojk_license_types` shares an identifier with one of `fra_license_types`.
proof fn lemma_ojk_license_types_apart_from_fra_license_types()
    ensures
        license_type_ids_apart(spec_ojk_license_types(), spec_fra_license_types()),
{
    let a = spec_ojk_license_types();
    let b = spec_fra_license_types();
    assert(apart_each(a, b)) by {
        reveal_strlit("eg-fra:factoring");
        reveal_strlit("eg-fra:insurance");
        reveal_strlit("eg-fra:leasing");
        reveal_strlit("eg-fra:microfinance");
        reveal_strlit("eg-fra:securities-brokerage");
        reveal_strlit("id-ojk:commercial-bank");
        reveal_strlit("id-ojk:digital-bank");
        reveal_strlit("id-ojk:fintech-lending");
        reveal_strlit("id-ojk:insurance");
        reveal_strlit("id-ojk:multifinance");
        reveal_strlit("id-ojk:securities-company");
        assert(a[0].license_type_id[0] != b[0].license_type_id[0]);
        assert(a[0].license_type_id[0] != b[1].license_type_id[0]);
        assert(a[0].license_type_id[0] != b[2].license_type_id[0]);
        assert(a[0].license_type_id[0] != b[3].license_type_id[0]);
        assert(a[0].license_type_id[0] != b[4].license_type_id[0]);
        assert(a[1].license_type_id[0] != b[0].license_type_id[0]);
        assert(a[1].license_type_id[0] != b[1].license_type_id[0]);
        assert(a[1].license_type_id[0] != b[2].license_type_id[0]);
        assert(a[1].license_type_id[0] != b[3].license_type_id[0]);
        assert(a[1].license_type_id[0] != b[4].license_type_id[0]);
        assert(a[2].license_type_id[0] != b[0].license_type_id[0]);
        assert(a[2].license_type_id[0] != b[1].license_type_id[0]);
        assert(a[2].license_type_id[0] != b[2].license_type_id[0]);
        assert(a[2].license_type_id[0] != b[3].license_type_id[0]);
        assert(a[2].license_type_id[0] != b[4].license_type_id[0]);
        assert(a[3].license_type_id[0] != b[0].license_type_id[0]);
        assert(a[3].license_type_id[0] != b[1].license_type_id[0]);
        assert(a[3].license_type_id[0] != b[2].license_type_id[0]);
        assert(a[3].license_type_id[0] != b[3].license_type_id[0]);
        assert(a[3].license_type_id[0] != b[4].license_type_id[0]);
        assert(a[4].license_type_id[0] != b[0].license_type_id[0]);
        assert(a[4].license_type_id[0] != b[1].license_type_id[0]);
        assert(a[4].license_type_id[0] != b[2].license_type_id[0]);
        assert(a[4].license_type_id[0] != b[3].license_type_id[0]);
        assert(a[4].license_type_id[0] != b[4].license_type_id[0]);
        assert(a[5].license_type_id[0] != b[0].license_type_id[0]);
        assert(a[5].license_type_id[0] != b[1].license_type_id[0]);
        assert(a[5].license_type_id[0] != b[2].license_type_id[0]);
        assert(a[5].license_type_id[0] != b[3].license_type_id[0]);
        assert(a[5].license_type_id[0] != b[4].license_type_id[0]);
        reveal_with_fuel(apart_each, 7);
        reveal_with_fuel(id_fresh_each, 6);
    }
    lemma_apart_each(a, b);
}

/// No licence type of `ojk_license_types` shares an identifier with one of `bot_license_types`.
proof fn lemma_ojk_license_types_apart_from_bot_license_types()
    ensures
        license_type_ids_apart(spec_ojk_license_types(), spec_bot_license_types()),
{
    let a = spec_ojk_license_types();
    let b = spec_bot_license_types();
    assert(apart_each(a, b)) by {
        reveal_strlit("id-ojk:commercial-bank");
        reveal_strlit("id-ojk:digital-bank");
        reveal_strlit("id-ojk:fintech-lending");
        reveal_strlit("id-ojk:insurance");
        reveal_strlit("id-ojk:multifinance");
        reveal_strlit("id-ojk:securities-company");
        reveal_strlit("tz-bot:commercial-bank");
        reveal_strlit("tz-bot:forex-bureau");
        reveal_strlit("tz-bot:microfinance");
        reveal_strlit("tz-bot:mobile-money");
        reveal_strlit("tz-bot:payment-system");
        assert(a[0].license_type_id[0] != b[0].license_type_id[0]);
        assert(a[0].license_type_id[0] != b[1].license_type_id[0]);
        assert(a[0].license_type_id[0] != b[2].license_type_id[0]);
        assert(a[0].license_type_id[0] != b[3].license_type_id[0]);
        assert(a[0].license_type_id[0] != b[4].license_type_id[0]);
        assert(a[1].license_type_id[0] != b[0].license_type_id[0]);
        assert(a[1].license_type_id[0] != b[1].license_type_id[0]);
        assert(a[1].license_type_id[0] != b[2].license_type_id[0]);
        assert(a[1].license_type_id[0] != b[3].license_type_id[0]);
        assert(a[1].license_type_id[0] != b[4].license_type_id[0]);
        assert(a[2].license_type_id[0] != b[0].license_type_id[0]);
        assert(a[2].license_type_id[0] != b[1].license_type_id[0]);
        assert(a[2].license_type_id[0] != b[2].license_type_id[0]);
        assert(a[2].license_type_id[0] != b[3].license_type_id[0]);
        assert(a[2].license_type_id[0] != b[4].license_type_id[0]);
        assert(a[3].license_type_id[0] != b[0].license_type_id[0]);
        assert(a[3].license_type_id[0] != b[1].license_type_id[0]);
        assert(a[3].license_type_id[0] != b[2].license_type_id[0]);
        assert(a[3].license_type_id[0] != b[3].license_type_id[0]);
        assert(a[3].license_type_id[0] != b[4].license_type_id[0]);
        assert(a[4].license_type_id[0] != b[0].license_type_id[0]);
        assert(a[4].license_type_id[0] != b[1].license_type_id[0]);
        assert(a[4].license_type_id[0] != b[2].license_type_id[0]);
        assert(a[4].license_type_id[0] != b[3].license_type_id[0]);
        assert(a[4].license_type_id[0] != b[4].license_type_id[0]);
        assert(a[5].license_type_id[0] != b[0].license_type_id[0]);
        assert(a[5].license_type_id[0] != b[1].license_type_id[0]);
        assert(a[5].license_type_id[0] != b[2].license_type_id[0]);
        assert(a[5].license_type_id[0] != b[3].license_type_id[0]);
        assert(a[5].license_type_id[0] != b[4].license_type_id[0]);
        reveal_with_fuel(apart_each, 7);
        reveal_with_fuel(id_fresh_each, 6);
    }
    lemma_apart_each(a, b);
}

/// No licence type of `ojk_license_types` shares an identifier with one of `zanzibar_br_license_types`.
proof fn lemma_ojk_license_types_apart_from_zanzibar_br_license_types()
    ensures
        license_type_ids_apart(spec_ojk_license_types(), spec_zanzibar_br_license_types()),
{
    let a = spec_ojk_license_types();
    let b = spec_zanzibar_br_license_types();
    assert(apart_each(a, b)) by {
        reveal_strlit("id-ojk:commercial-bank");
        reveal_strlit("id-ojk:digital-bank");
        reveal_strlit("id-ojk:fintech-lending");
        reveal_strlit("id-ojk:insurance");
        reveal_strlit("id-ojk:multifinance");
        reveal_strlit("id-ojk:securities-company");
        reveal_strlit("tz-zanzibar-br:business-license");
        reveal_strlit("tz-zanzibar-br:company-registration");
        reveal_strlit("tz-zanzibar-br:foreign-investment");
        reveal_strlit("tz-zanzibar-br:free-zone-enterprise");
        assert(a[0].license_type_id[0] != b[0].license_type_id[0]);
        assert(a[0].license_type_id[0] != b[1].license_type_id[0]);
        assert(a[0].license_type_id[0] != b[2].license_type_id[0]);
        assert(a[0].license_type_id[0] != b[3].license_type_id[0]);
        assert(a[1].license_type_id[0] != b[0].license_type_id[0]);
        assert(a[1].license_type_id[0] != b[1].license_type_id[0]);
        assert(a[1].license_type_id[0] != b[2].license_type_id[0]);
        assert(a[1].license_type_id[0] != b[3].license_type_id[0]);
        assert(a[2].license_type_id[0] != b[0].license_type_id[0]);
        assert(a[2].license_type_id[0] != b[1].license_type_id[0]);
        assert(a[2].license_type_id[0] != b[2].license_type_id[0]);
        assert(a[2].license_type_id[0] != b[3].license_type_id[0]);
        assert(a[3].license_type_id[0] != b[0].license_type_id[0]);
        assert(a[3].license_type_id[0] != b[1].license_type_id[0]);
        assert(a[3].license_type_id[0] != b[2].license_type_id[0]);
        assert(a[3].license_type_id[0] != b[3].license_type_id[0]);
        assert(a[4].license_type_id[0] != b[0].license_type_id[0]);
        assert(a[4].license_type_id[0] != b[1].license_type_id[0]);
        assert(a[4].license_type_id[0] != b[2].license_type_id[0]);
        assert(a[4].license_type_id[0] != b[3].license_type_id[0]);
        assert(a[5].license_type_id[0] != b[0].license_type_id[0]);
        assert(a[5].license_type_id[0] != b[1].license_type_id[0]);
        assert(a[5].license_type_id[0] != b[2].license_type_id[0]);
        assert(a[5].license_type_id[0] != b[3].license_type_id[0]);
        reveal_with_fuel(apart_each, 7);
        reveal_with_fuel(id_fresh_each, 5);
    }
    lemma_apart_each(a, b);
}

/// No licence type of `ojk_license_types` shares an identifier with one of `cbi_license_types`.
proof fn lemma_ojk_license_types_apart_from_cbi_license_types()
    ensures
        license_type_ids_apart(spec_ojk_license_types(), spec_cbi_license_types()),
{
    let a = spec_ojk_license_types();
    let b = spec_cbi_license_types();
    assert(apart_each(a, b)) by {
        reveal_strlit("id-ojk:commercial-bank");
        reveal_strlit("id-ojk:digital-bank");
        reveal_strlit("id-ojk:fintech-lending");
        reveal_strlit("id-ojk:insurance");
        reveal_strlit("id-ojk:multifinance");
        reveal_strlit("id-ojk:securities-company");
        reveal_strlit("ie-cbi:credit-institution");
        reveal_strlit("ie-cbi:e-money-institution");
        reveal_strlit("ie-cbi:fund-manager");
        reveal_strlit("ie-cbi:insurance-intermediary");
        reveal_strlit("ie-cbi:insurance-undertaking");
        reveal_strlit("ie-cbi:investment-firm");
        reveal_strlit("ie-cbi:payment-institution");
        reveal_strlit("ie-cbi:vasp");
        assert(a[0].license_type_id[1] != b[0].license_type_id[1]);
        assert(a[0].license_type_id[1] != b[1].license_type_id[1]);
        assert(a[0].license_type_id[1] != b[2].license_type_id[1]);
        assert(a[0].license_type_id[1] != b[3].license_type_id[1]);
        assert(a[0].license_type_id[1] != b[4].license_type_id[1]);
        assert(a[0].license_type_id[1] != b[5].license_type_id[1]);
        assert(a[0].license_type_id[1] != b[6].license_type_id[1]);
        assert(a[0].license_type_id[1] != b[7].license_type_id[1]);
        assert(a[1].license_type_id[1] != b[0].license_type_id[1]);
        assert(a[1].license_type_id[1] != b[1].license_type_id[1]);
        assert(a[1].license_type_id[1] != b[2].license_type_id[1]);
        assert(a[1].license_type_id[1] != b[3].license_type_id[1]);
        assert(a[1].license_type_id[1] != b[4].license_type_id[1]);
        assert(a[1].license_type_id[1] != b[5].license_type_id[1]);
        assert(a[1].license_type_id[1] != b[6].license_type_id[1]);
        assert(a[1].license_type_id[1] != b[7].license_type_id[1]);
        assert(a[2].license_type_id[1] != b[0].license_type_id[1]);
        assert(a[2].license_type_id[1] != b[1].license_type_id[1]);
        assert(a[2].license_type_id[1] != b[2].license_type_id[1]);
        assert(a[2].license_type_id[1] != b[3].license_type_id[1]);
        assert(a[2].license_type_id[1] != b[4].license_type_id[1]);
        assert(a[2].license_type_id[1] != b[5].license_type_id[1]);
        assert(a[2].license_type_id[1] != b[6].license_type_id[1]);
        assert(a[2].license_type_id[1] != b[7].license_type_id[1]);
        assert(a[3].license_type_id[1] != b[0].license_type_id[1]);
        assert(a[3].license_type_id[1] != b[1].license_type_id[1]);
        assert(a[3].license_type_id[1] != b[2].license_type_id[1]);
        assert(a[3].license_type_id[1] != b[3].license_type_id[1]);
        assert(a[3].license_type_id[1] != b[4].license_type_id[1]);
        assert(a[3].license_type_id[1] != b[5].license_type_id[1]);
        assert(a[3].license_type_id[1] != b[6].license_type_id[1]);
        assert(a[3].license_type_id[1] != b[7].license_type_id[1]);
        assert(a[4].license_type_id[1] != b[0].license_type_id[1]);
        assert(a[4].license_type_id[1] != b[1].license_type_id[1]);
        assert(a[4].license_type_id[1] != b[2].license_type_id[1]);
        assert(a[4].license_type_id[1] != b[3].license_type_id[1]);
        assert(a[4].license_type_id[1] != b[4].license_type_id[1]);
        assert(a[4].license_type_id[1] != b[5].license_type_id[1]);
        assert(a[4].license_type_id[1] != b[6].license_type_id[1]);
        assert(a[4].license_type_id[1] != b[7].license_type_id[1]);
        assert(a[5].license_type_id[1] != b[0].license_type_id[1]);
        assert(a[5].license_type_id[1] != b[1].license_type_id[1]);
        assert(a[5].license_type_id[1] != b[2].license_type_id[1]);
        assert(a[5].license_type_id[1] != b[3].license_type_id[1]);
        assert(a[5].license_type_id[1] != b[4].license_type_id[1]);
        assert(a[5].license_type_id[1] != b[5].license_type_id[1]);
        assert(a[5].license_type_id[1] != b[6].license_type_id[1]);
        assert(a[5].license_type_id[1] != b[7].license_type_id[1]);
        reveal_with_fuel(apart_each, 7);
        reveal_with_fuel(id_fresh_each, 9);
    }
    lemma_apart_each(a, b);
}

/// No licence type of `ojk_license_types` shares an identifier with one of `cro_license_types`.
proof fn lemma_ojk_license_types_apart_from_cro_license_types()
    ensures
        license_type_ids_apart(spec_ojk_license_types(), spec_cro_license_types()),
{
    let a = spec_ojk_license_types();
    let b = spec_cro_license_types();
    assert(apart_each(a, b)) by {
        reveal_strlit("id-ojk:commercial-bank");
        reveal_strlit("id-ojk:digital-bank");
        reveal_strlit("id-ojk:fintech-lending");
        reveal_strlit("id-ojk:insurance");
        reveal_strlit("id-ojk:multifinance");
        reveal_strlit("id-ojk:securities-company");
        reveal_strlit("ie-cro:branch-registration");
        reveal_strlit("ie-cro:designated-activity-company");
        reveal_strlit("ie-cro:icav");
        reveal_strlit("ie-cro:private-company-limited");
        reveal_strlit("ie-cro:public-limited-company");
        assert(a[0].license_type_id[1] != b[0].license_type_id[1]);
        assert(a[0].license_type_id[1] != b[1].license_type_id[1]);
        assert(a[0].license_type_id[1] != b[2].license_type_id[1]);
        assert(a[0].license_type_id[1] != b[3].license_type_id[1]);
        assert(a[0].license_type_id[1] != b[4].license_type_id[1]);
        assert(a[1].license_type_id[1] != b[0].license_type_id[1]);
        assert(a[1].license_type_id[1] != b[1].license_type_id[1]);
        assert(a[1].license_type_id[1] != b[2].license_type_id[1]);
        assert(a[1].license_type_id[1] != b[3].license_type_id[1]);
        assert(a[1].license_type_id[1] != b[4].license_type_id[1]);
        assert(a[2].license_type_id[1] != b[0].license_type_id[1]);
        assert(a[2].license_type_id[1] != b[1].license_type_id[1]);
        assert(a[2].license_type_id[1] != b[2].license_type_id[1]);
        assert(a[2].license_type_id[1] != b[3].license_type_id[1]);
        assert(a[2].license_type_id[1] != b[4].license_type_id[1]);
        assert(a[3].license_type_id[1] != b[0].license_type_id[1]);
        assert(a[3].license_type_id[1] != b[1].license_type_id[1]);
        assert(a[3].license_type_id[1] != b[2].license_type_id[1]);
        assert(a[3].license_type_id[1] != b[3].license_type_id[1]);
        assert(a[3].license_type_id[1] != b[4].license_type_id[1]);
        assert(a[4].license_type_id[1] != b[0].license_type_id[1]);
        assert(a[4].license_type_id[1] != b[1].license_type_id[1]);
        assert(a[4].license_type_id[1] != b[2].license_type_id[1]);
        assert(a[4].license_type_id[1] != b[3].license_type_id[1]);
        assert(a[4].license_type_id[1] != b[4].license_type_id[1]);
        assert(a[5].license_type_id[1] != b[0].license_type_id[1]);
        assert(a[5].license_type_id[1] != b[1].license_type_id[1]);
        assert(a[5].license_type_id[1] != b[2].license_type_id[1]);
        assert(a[5].license_type_id[1] != b[3].license_type_id[1]);
        assert(a[5].license_type_id[1] != b[4].license_type_id[1]);
        reveal_with_fuel(apart_each, 7);
        reveal_with_fuel(id_fresh_each, 6);
    }
    lemma_apart_each(a, b);
}

/// No licence type of `bi_license_types` shares an identifier with one of `sarb_license_types`.
proof fn lemma_bi_license_types_apart_from_sarb_license_types()
    ensures
        license_type_ids_apart(spec_bi_license_types(), spec_sarb_license_types()),
{
    let a = spec_bi_license_types();
    let b = spec_sarb_license_types();
    assert(apart_each(a, b)) by {
        reveal_strlit("id-bi:e-money-issuer");
        reveal_strlit("id-bi:money-transfer");
        reveal_strlit("id-bi:payment-gateway");
        reveal_strlit("id-bi:payment-system-provider");
        reveal_strlit("za-sarb:adla");
        reveal_strlit("za-sarb:banking");
        reveal_strlit("za-sarb:casp");
        reveal_strlit("za-sarb:mutual-bank");
        reveal_strlit("za-sarb:payment-system");
        assert(a[0].license_type_id[0] != b[0].license_type_id[0]);
        assert(a[0].license_type_id[0] != b[1].license_type_id[0]);
        assert(a[0].license_type_id[0] != b[2].license_type_id[0]);
        assert(a[0].license_type_id[0] != b[3].license_type_id[0]);
        assert(a[0].license_type_id[0] != b[4].license_type_id[0]);
        assert(a[1].license_type_id[0] != b[0].license_type_id[0]);
        assert(a[1].license_type_id[0] != b[1].license_type_id[0]);
        assert(a[1].license_type_id[0] != b[2].license_type_id[0]);
        assert(a[1].license_type_id[0] != b[3].license_type_id[0]);
        assert(a[1].license_type_id[0] != b[4].license_type_id[0]);
        assert(a[2].license_type_id[0] != b[0].license_type_id[0]);
        assert(a[2].license_type_id[0] != b[1].license_type_id[0]);
        assert(a[2].license_type_id[0] != b[2].license_type_id[0]);
        assert(a[2].license_type_id[0] != b[3].license_type_id[0]);
        assert(a[2].license_type_id[0] != b[4].license_type_id[0]);
        assert(a[3].license_type_id[0] != b[0].license_type_id[0]);
        assert(a[3].license_type_id[0] != b[1].license_type_id[0]);
        assert(a[3].license_type_id[0] != b[2].license_type_id[0]);
        assert(a[3].license_type_id[0] != b[3].license_type_id[0]);
        assert(a[3].license_type_id[0] != b[4].license_type_id[0]);
        reveal_with_fuel(apart_each, 5);
        reveal_with_fuel(id_fresh_each, 6);
    }
    lemma_apart_each(a, b);
}

/// No licence type of `bi_license_types` shares an identifier with one of `fsca_license_types`.
proof fn lemma_bi_license_types_apart_from_fsca_license_types()
    ensures
        license_type_ids_apart(spec_bi_license_types(), spec_fsca_license_types()),
{
    let a = spec_bi_license_types();
    let b = spec_fsca_license_types();
    assert(apart_each(a, b)) by {
        reveal_strlit("id-bi:e-money-issuer");
        reveal_strlit("id-bi:money-transfer");
        reveal_strlit("id-bi:payment-gateway");
        reveal_strlit("id-bi:payment-system-provider");
        reveal_strlit("za-fsca:collective-investment-scheme");
        reveal_strlit("za-fsca:fsp");
        reveal_strlit("za-fsca:insurance");
        reveal_strlit("za-fsca:market-infrastructure");
        reveal_strlit("za-fsca:retirement-fund");
        assert(a[0].license_type_id[0] != b[0].license_type_id[0]);
        assert(a[0].license_type_id[0] != b[1].license_type_id[0]);
        assert(a[0].license_type_id[0] != b[2].license_type_id[0]);
        assert(a[0].license_type_id[0] != b[3].license_type_id[0]);
        assert(a[0].license_type_id[0] != b[4].license_type_id[0]);
        assert(a[1].license_type_id[0] != b[0].license_type_id[0]);
        assert(a[1].license_type_id[0] != b[1].license_type_id[0]);
        assert(a[1].license_type_id[0] != b[2].license_type_id[0]);
        assert(a[1].license_type_id[0] != b[3].license_type_id[0]);
        assert(a[1].license_type_id[0] != b[4].license_type_id[0]);
        assert(a[2].license_type_id[0] != b[0].license_type_id[0]);
        assert(a[2].license_type_id[0] != b[1].license_type_id[0]);
        assert(a[2].license_type_id[0] != b[2].license_type_id[0]);
        assert(a[2].license_type_id[0] != b[3].license_type_id[0]);
        assert(a[2].license_type_id[0] != b[4].license_type_id[0]);
        assert(a[3].license_type_id[0] != b[0].license_type_id[0]);
        assert(a[3].license_type_id[0] != b[1].license_type_id[0]);
        assert(a[3].license_type_id[0] != b[2].license_type_id[0]);
        assert(a[3].license_type_id[0] != b[3].license_type_id[0]);
        assert(a[3].license_type_id[0] != b[4].license_type_id[0]);
        reveal_with_fuel(apart_each, 5);
        reveal_with_fuel(id_fresh_each, 6);
    }
    lemma_apart_each(a, b);
}

/// No licence type of `bi_license_types` shares an identifier with one of `cbe_license_types`.
proof fn lemma_bi_license_types_apart_from_cbe_license_types()
    ensures
        license_type_ids_apart(spec_bi_license_types(), spec_cbe_license_types()),
{
    let a = spec_bi_license_types();
    let b = spec_cbe_license_types();
    assert(apart_each(a, b)) by {
        reveal_strlit("eg-cbe:commercial-bank");
        reveal_strlit("eg-cbe:fintech");
        reveal_strlit("eg-cbe:islamic-bank");
        reveal_strlit("eg-cbe:money-exchange");
        reveal_strlit("eg-cbe:payment-service-provider");
        reveal_strlit("id-bi:e-money-issuer");
        reveal_strlit("id-bi:money-transfer");
        reveal_strlit("id-bi:payment-gateway");
        reveal_strlit("id-bi:payment-system-provider");
        assert(a[0].license_type_id[0] != b[0].license_type_id[0]);
        assert(a[0].license_type_id[0] != b[1].license_type_id[0]);
        assert(a[0].license_type_id[0] != b[2].license_type_id[0]);
        assert(a[0].license_type_id[0] != b[3].license_type_id[0]);
        assert(a[0].license_type_id[0] != b[4].license_type_id[0]);
        assert(a[1].license_type_id[0] != b[0].license_type_id[0]);
        assert(a[1].license_type_id[0] != b[1].license_type_id[0]);
        assert(a[1].license_type_id[0] != b[2].license_type_id[0]);
        assert(a[1].license_type_id[0] != b[3].license_type_id[0]);
        assert(a[1].license_type_id[0] != b[4].license_type_id[0]);
        assert(a[2].license_type_id[0] != b[0].license_type_id[0]);
        assert(a[2].license_type_id[0] != b[1].license_type_id[0]);
        assert(a[2].license_type_id[0] != b[2].license_type_id[0]);
        assert(a[2].license_type_id[0] != b[3].license_type_id[0]);
        assert(a[2].license_type_id[0] != b[4].license_type_id[0]);
        assert(a[3].license_type_id[0] != b[0].license_type_id[0]);
        assert(a[3].license_type_id[0] != b[1].license_type_id[0]);
        assert(a[3].license_type_id[0] != b[2].license_type_id[0]);
        assert(a[3].license_type_id[0] != b[3].license_type_id[0]);
        assert(a[3].license_type_id[0] != b[4].license_type_id[0]);
        reveal_with_fuel(apart_each, 5);
        reveal_with_fuel(id_fresh_each, 6);
    }
    lemma_apart_each(a, b);
}

/// No licence type of `bi_license_types` shares an identifier with one of `fra_license_types`.
proof fn lemma_bi_license_types_apart_from_fra_license_types()
    ensures
        license_type_ids_apart(spec_bi_license_types(), spec_fra_license_types()),
{
    let a = spec_bi_license_types();
    let b = spec_fra_license_types();
    assert(apart_each(a, b)) by {
        reveal_strlit("eg-fra:factoring");
        reveal_strlit("eg-fra:insurance");
        reveal_strlit("eg-fra:leasing");
        reveal_strlit("eg-fra:microfinance");
        reveal_strlit("eg-fra:securities-brokerage");
        reveal_strlit("id-bi:e-money-issuer");
        reveal_strlit("id-bi:money-transfer");
        reveal_strlit("id-bi:payment-gateway");
        reveal_strlit("id-bi:payment-system-provider");
        assert(a[0].license_type_id[0] != b[0].license_type_id[0]);
        assert(a[0].license_type_id[0] != b[1].license_type_id[0]);
        assert(a[0].license_type_id[0] != b[2].license_type_id[0]);
        assert(a[0].license_type_id[0] != b[3].license_type_id[0]);
        assert(a[0].license_type_id[0] != b[4].license_type_id[0]);
        assert(a[1].license_type_id[0] != b[0].license_type_id[0]);
        assert(a[1].license_type_id[0] != b[1].license_type_id[0]);
        assert(a[1].license_type_id[0] != b[2].license_type_id[0]);
        assert(a[1].license_type_id[0] != b[3].license_type_id[0]);
        assert(a[1].license_type_id[0] != b[4].license_type_id[0]);
        assert(a[2].license_type_id[0] != b[0].license_type_id[0]);
        assert(a[2].license_type_id[0] != b[1].license_type_id[0]);
        assert(a[2].license_type_id[0] != b[2].license_type_id[0]);
        assert(a[2].license_type_id[0] != b[3].license_type_id[0]);
        assert(a[2].license_type_id[0] != b[4].license_type_id[0]);
        assert(a[3].license_type_id[0] != b[0].license_type_id[0]);
        assert(a[3].license_type_id[0] != b[1].license_type_id[0]);
        assert(a[3].license_type_id[0] != b[2].license_type_id[0]);
        assert(a[3].license_type_id[0] != b[3].license_type_id[0]);
        assert(a[3].license_type_id[0] != b[4].license_type_id[0]);
        reveal_with_fuel(apart_each, 5);
        reveal_with_fuel(id_fresh_each, 6);
    }
    lemma_apart_each(a, b);
}

/// No licence type of `bi_license_types` shares an identifier with one of `bot_license_types`.
proof fn lemma_bi_license_types_apart_from_bot_license_types()
    ensures
        license_type_ids_apart(spec_bi_license_types(), spec_bot_license_types()),
{
    let a = spec_bi_license_types();
    let b = spec_bot_license_types();
    assert(apart_each(a, b)) by {
        reveal_strlit("id-bi:e-money-issuer");
        reveal_strlit("id-bi:money-transfer");
        reveal_strlit("id-bi:payment-gateway");
        reveal_strlit("id-bi:payment-system-provider");
        reveal_strlit("tz-bot:commercial-bank");
        reveal_strlit("tz-bot:forex-bureau");
        reveal_strlit("tz-bot:microfinance");
        reveal_strlit("tz-bot:mobile-money");
        reveal_strlit("tz-bot:payment-system");
        assert(a[0].license_type_id[0] != b[0].license_type_id[0]);
        assert(a[0].license_type_id[0] != b[1].license_type_id[0]);
        assert(a[0].license_type_id[0] != b[2].license_type_id[0]);
        assert(a[0].license_type_id[0] != b[3].license_type_id[0]);
        assert(a[0].license_type_id[0] != b[4].license_type_id[0]);
        assert(a[1].license_type_id[0] != b[0].license_type_id[0]);
        assert(a[1].license_type_id[0] != b[1].license_type_id[0]);
        assert(a[1].license_type_id[0] != b[2].license_type_id[0]);
        assert(a[1].license_type_id[0] != b[3].license_type_id[0]);
        assert(a[1].license_type_id[0] != b[4].license_type_id[0]);
        assert(a[2].license_type_id[0] != b[0].license_type_id[0]);
        assert(a[2].license_type_id[0] != b[1].license_type_id[0]);
        assert(a[2].license_type_id[0] != b[2].license_type_id[0]);
        assert(a[2].license_type_id[0] != b[3].license_type_id[0]);
        assert(a[2].license_type_id[0] != b[4].license_type_id[0]);
        assert(a[3].license_type_id[0] != b[0].license_type_id[0]);
        assert(a[3].license_type_id[0] != b[1].license_type_id[0]);
        assert(a[3].license_type_id[0] != b[2].license_type_id[0]);
        assert(a[3].license_type_id[0] != b[3].license_type_id[0]);
        assert(a[3].license_type_id[0] != b[4].license_type_id[0]);
        reveal_with_fuel(apart_each, 5);
        reveal_with_fuel(id_fresh_each, 6);
    }
    lemma_apart_each(a, b);
}

/// No licence type of `bi_license_types` shares an identifier with one of `zanzibar_br_license_types`.
proof fn lemma_bi_license_types_apart_from_zanzibar_br_license_types()
    ensures
        license_type_ids_apart(spec_bi_license_types(), spec_zanzibar_br_license_types()),
{
    let a = spec_bi_license_types();
    let b = spec_zanzibar_br_license_types();
    assert(apart_each(a, b)) by {
        reveal_strlit("id-bi:e-money-issuer");
        reveal_strlit("id-bi:money-transfer");
        reveal_strlit("id-bi:payment-gateway");
        reveal_strlit("id-bi:payment-system-provider");
        reveal_strlit("tz-zanzibar-br:business-license");
        reveal_strlit("tz-zanzibar-br:company-registration");
        reveal_strlit("tz-zanzibar-br:foreign-investment");
        reveal_strlit("tz-zanzibar-br:free-zone-enterprise");
        assert(a[0].license_type_id[0] != b[0].license_type_id[0]);
        assert(a[0].license_type_id[0] != b[1].license_type_id[0]);
        assert(a[0].license_type_id[0] != b[2].license_type_id[0]);
        assert(a[0].license_type_id[0] != b[3].license_type_id[0]);
        assert(a[1].license_type_id[0] != b[0].license_type_id[0]);
        assert(a[1].license_type_id[0] != b[1].license_type_id[0]);
        assert(a[1].license_type_id[0] != b[2].license_type_id[0]);
        assert(a[1].license_type_id[0] != b[3].license_type_id[0]);
        assert(a[2].license_type_id[0] != b[0].license_type_id[0]);
        assert(a[2].license_type_id[0] != b[1].license_type_id[0]);
        assert(a[2].license_type_id[0] != b[2].license_type_id[0]);
        assert(a[2].license_type_id[0] != b[3].license_type_id[0]);
        assert(a[3].license_type_id[0] != b[0].license_type_id[0]);
        assert(a[3].license_type_id[0] != b[1].license_type_id[0]);
        assert(a[3].license_type_id[0] != b[2].license_type_id[0]);
        assert(a[3].license_type_id[0] != b[3].license_type_id[0]);
        reveal_with_fuel(apart_each, 5);
        reveal_with_fuel(id_fresh_each, 5);
    }
    lemma_apart_each(a, b);
}

/// No licence type of `bi_license_types` shares an identifier with one of `cbi_license_types`.
proof fn lemma_bi_license_types_apart_from_cbi_license_types()
    ensures
        license_type_ids_apart(spec_bi_license_types(), spec_cbi_license_types()),
{
    let a = spec_bi_license_types();
    let b = spec_cbi_license_types();
    assert(apart_each(a, b)) by {
        reveal_strlit("id-bi:e-money-issuer");
        reveal_strlit("id-bi:money-transfer");
        reveal_strlit("id-bi:payment-gateway");
        reveal_strlit("id-bi:payment-system-provider");
        reveal_strlit("ie-cbi:credit-institution");
        reveal_strlit("ie-cbi:e-money-institution");
        reveal_strlit("ie-cbi:fund-manager");
        reveal_strlit("ie-cbi:insurance-intermediary");
        reveal_strlit("ie-cbi:insurance-undertaking");
        reveal_strlit("ie-cbi:investment-firm");
        reveal_strlit("ie-cbi:payment-institution");
        reveal_strlit("ie-cbi:vasp");
        assert(a[0].license_type_id[1] != b[0].license_type_id[1]);
        assert(a[0].license_type_id[1] != b[1].license_type_id[1]);
        assert(a[0].license_type_id[1] != b[2].license_type_id[1]);
        assert(a[0].license_type_id[1] != b[3].license_type_id[1]);
        assert(a[0].license_type_id[1] != b[4].license_type_id[1]);
        assert(a[0].license_type_id[1] != b[5].license_type_id[1]);
        assert(a[0].license_type_id[1] != b[6].license_type_id[1]);
        assert(a[0].license_type_id[1] != b[7].license_type_id[1]);
        assert(a[1].license_type_id[1] != b[0].license_type_id[1]);
        assert(a[1].license_type_id[1] != b[1].license_type_id[1]);
        assert(a[1].license_type_id[1] != b[2].license_type_id[1]);
        assert(a[1].license_type_id[1] != b[3].license_type_id[1]);
        assert(a[1].license_type_id[1] != b[4].license_type_id[1]);
        assert(a[1].license_type_id[1] != b[5].license_type_id[1]);
        assert(a[1].license_type_id[1] != b[6].license_type_id[1]);
        assert(a[1].license_type_id[1] != b[7].license_type_id[1]);
        assert(a[2].license_type_id[1] != b[0].license_type_id[1]);
        assert(a[2].license_type_id[1] != b[1].license_type_id[1]);
        assert(a[2].license_type_id[1] != b[2].license_type_id[1]);
        assert(a[2].license_type_id[1] != b[3].license_type_id[1]);
        assert(a[2].license_type_id[1] != b[4].license_type_id[1]);
        assert(a[2].license_type_id[1] != b[5].license_type_id[1]);
        assert(a[2].license_type_id[1] != b[6].license_type_id[1]);
        assert(a[2].license_type_id[1] != b[7].license_type_id[1]);
        assert(a[3].license_type_id[1] != b[0].license_type_id[1]);
        assert(a[3].license_type_id[1] != b[1].license_type_id[1]);
        assert(a[3].license_type_id[1] != b[2].license_type_id[1]);
        assert(a[3].license_type_id[1] != b[3].license_type_id[1]);
        assert(a[3].license_type_id[1] != b[4].license_type_id[1]);
        assert(a[3].license_type_id[1] != b[5].license_type_id[1]);
        assert(a[3].license_type_id[1] != b[6].license_type_id[1]);
        assert(a[3].license_type_id[1] != b[7].license_type_id[1]);
        reveal_with_fuel(apart_each, 5);
        reveal_with_fuel(id_fresh_each, 9);
    }
    lemma_apart_each(a, b);
}

/// No licence type of `bi_license_types` shares an identifier with one of `cro_license_types`.
proof fn lemma_bi_license_types_apart_from_cro_license_types()
    ensures
        license_type_ids_apart(spec_bi_license_types(), spec_cro_license_types()),
{
    let a = spec_bi_license_types();
    let b = spec_cro_license_types();
    assert(apart_each(a, b)) by {
        reveal_strlit("id-bi:e-money-issuer");
        reveal_strlit("id-bi:money-transfer");
        reveal_strlit("id-bi:payment-gateway");
        reveal_strlit("id-bi:payment-system-provider");
        reveal_strlit("ie-cro:branch-registration");
        reveal_strlit("ie-cro:designated-activity-company");
        reveal_strlit("ie-cro:icav");
        reveal_strlit("ie-cro:private-company-limited");
        reveal_strlit("ie-cro:public-limited-company");
        assert(a[0].license_type_id[1] != b[0].license_type_id[1]);
        assert(a[0].license_type_id[1] != b[1].license_type_id[1]);
        assert(a[0].license_type_id[1] != b[2].license_type_id[1]);
        assert(a[0].license_type_id[1] != b[3].license_type_id[1]);
        assert(a[0].license_type_id[1] != b[4].license_type_id[1]);
        assert(a[1].license_type_id[1] != b[0].license_type_id[1]);
        assert(a[1].license_type_id[1] != b[1].license_type_id[1]);
        assert(a[1].license_type_id[1] != b[2].license_type_id[1]);
        assert(a[1].license_type_id[1] != b[3].license_type_id[1]);
        assert(a[1].license_type_id[1] != b[4].license_type_id[1]);
        assert(a[2].license_type_id[1] != b[0].license_type_id[1]);
        assert(a[2].license_type_id[1] != b[1].license_type_id[1]);
        assert(a[2].license_type_id[1] != b[2].license_type_id[1]);
        assert(a[2].license_type_id[1] != b[3].license_type_id[1]);
        assert(a[2].license_type_id[1] != b[4].license_type_id[1]);
        assert(a[3].license_type_id[1] != b[0].license_type_id[1]);
        assert(a[3].license_type_id[1] != b[1].license_type_id[1]);
        assert(a[3].license_type_id[1] != b[2].license_type_id[1]);
        assert(a[3].license_type_id[1] != b[3].license_type_id[1]);
        assert(a[3].license_type_id[1] != b[4].license_type_id[1]);
        reveal_with_fuel(apart_each, 5);
        reveal_with_fuel(id_fresh_each, 6);
    }
    lemma_apart_each(a, b);
}

/// No licence type of `sarb_license_types` shares an identifier with one of `fsca_license_types`.
proof fn lemma_sarb_license_types_apart_from_fsca_license_types()
    ensures
        license_type_ids_apart(spec_sarb_license_types(), spec_fsca_license_types()),
{
    let a = spec_sarb_license_types();
    let b = spec_fsca_license_types();
    assert(apart_each(a, b)) by {
        reveal_strlit("za-fsca:collective-investment-scheme");
        reveal_strlit("za-fsca:fsp");
        reveal_strlit("za-fsca:insurance");
        reveal_strlit("za-fsca:market-infrastructure");
        reveal_strlit("za-fsca:retirement-fund");
        reveal_strlit("za-sarb:adla");
        reveal_strlit("za-sarb:banking");
        reveal_strlit("za-sarb:casp");
        reveal_strlit("za-sarb:mutual-bank");
        reveal_strlit("za-sarb:payment-system");
        assert(a[0].license_type_id[3] != b[0].license_type_id[3]);
        assert(a[0].license_type_id[3] != b[1].license_type_id[3]);
        assert(a[0].license_type_id[3] != b[2].license_type_id[3]);
        assert(a[0].license_type_id[3] != b[3].license_type_id[3]);
        assert(a[0].license_type_id[3] != b[4].license_type_id[3]);
        assert(a[1].license_type_id[3] != b[0].license_type_id[3]);
        assert(a[1].license_type_id[3] != b[1].license_type_id[3]);
        assert(a[1].license_type_id[3] != b[2].license_type_id[3]);
        assert(a[1].license_type_id[3] != b[3].license_type_id[3]);
        assert(a[1].license_type_id[3] != b[4].license_type_id[3]);
        assert(a[2].license_type_id[3] != b[0].license_type_id[3]);
        assert(a[2].license_type_id[3] != b[1].license_type_id[3]);
        assert(a[2].license_type_id[3] != b[2].license_type_id[3]);
        assert(a[2].license_type_id[3] != b[3].license_type_id[3]);
        assert(a[2].license_type_id[3] != b[4].license_type_id[3]);
        assert(a[3].license_type_id[3] != b[0].license_type_id[3]);
        assert(a[3].license_type_id[3] != b[1].license_type_id[3]);
        assert(a[3].license_type_id[3] != b[2].license_type_id[3]);
        assert(a[3].license_type_id[3] != b[3].license_type_id[3]);
        assert(a[3].license_type_id[3] != b[4].license_type_id[3]);
        assert(a[4].license_type_id[3] != b[0].license_type_id[3]);
        assert(a[4].license_type_id[3] != b[1].license_type_id[3]);
        assert(a[4].license_type_id[3] != b[2].license_type_id[3]);
        assert(a[4].license_type_id[3] != b[3].license_type_id[3]);
        assert(a[4].license_type_id[3] != b[4].license_type_id[3]);
        reveal_with_fuel(apart_each, 6);
        reveal_with_fuel(id_fresh_each, 6);
    }
    lemma_apart_each(a, b);
}

/// No licence type of `sarb_license_types` shares an identifier with one of `cbe_license_types`.
proof fn lemma_sarb_license_types_apart_from_cbe_license_types()
    ensures
        license_type_ids_apart(spec_sarb_license_types(), spec_cbe_license_types()),
{
    let a = spec_sarb_license_types();
    let b = spec_cbe_license_types();
    assert(apart_each(a, b)) by {
        reveal_strlit("eg-cbe:commercial-bank");
        reveal_strlit("eg-cbe:fintech");
        reveal_strlit("eg-cbe:islamic-bank");
        reveal_strlit("eg-cbe:money-exchange");
        reveal_strlit("eg-cbe:payment-service-provider");
        reveal_strlit("za-sarb:adla");
        reveal_strlit("za-sarb:banking");
        reveal_strlit("za-sarb:casp");
        reveal_strlit("za-sarb:mutual-bank");
        reveal_strlit("za-sarb:payment-system");
        assert(a[0].license_type_id[0] != b[0].license_type_id[0]);
        assert(a[0].license_type_id[0] != b[1].license_type_id[0]);
        assert(a[0].license_type_id[0] != b[2].license_type_id[0]);
        assert(a[0].license_type_id[0] != b[3].license_type_id[0]);
        assert(a[0].license_type_id[0] != b[4].license_type_id[0]);
        assert(a[1].license_type_id[0] != b[0].license_type_id[0]);
        assert(a[1].license_type_id[0] != b[1].license_type_id[0]);
        assert(a[1].license_type_id[0] != b[2].license_type_id[0]);
        assert(a[1].license_type_id[0] != b[3].license_type_id[0]);
        assert(a[1].license_type_id[0] != b[4].license_type_id[0]);
        assert(a[2].license_type_id[0] != b[0].license_type_id[0]);
        assert(a[2].license_type_id[0] != b[1].license_type_id[0]);
        assert(a[2].license_type_id[0] != b[2].license_type_id[0]);
        assert(a[2].license_type_id[0] != b[3].license_type_id[0]);
        assert(a[2].license_type_id[0] != b[4].license_type_id[0]);
        assert(a[3].license_type_id[0] != b[0].license_type_id[0]);
        assert(a[3].license_type_id[0] != b[1].license_type_id[0]);
        assert(a[3].license_type_id[0] != b[2].license_type_id[0]);
        assert(a[3].license_type_id[0] != b[3].license_type_id[0]);
        assert(a[3].license_type_id[0] != b[4].license_type_id[0]);
        assert(a[4].license_type_id[0] != b[0].license_type_id[0]);
        assert(a[4].license_type_id[0] != b[1].license_type_id[0]);
        assert(a[4].license_type_id[0] != b[2].license_type_id[0]);
        assert(a[4].license_type_id[0] != b[3].license_type_id[0]);
        assert(a[4].license_type_id[0] != b[4].license_type_id[0]);
        reveal_with_fuel(apart_each, 6);
        reveal_with_fuel(id_fresh_each, 6);
    }
    lemma_apart_each(a, b);
}

/// No licence type of `sarb_license_types` shares an identifier with one of `fra_license_types`.
proof fn lemma_sarb_license_types_apart_from_fra_license_types()
    ensures
        license_type_ids_apart(spec_sarb_license_types(), spec_fra_license_types()),
{
    let a = spec_sarb_license_types();
    let b = spec_fra_license_types();
    assert(apart_each(a, b)) by {
        reveal_strlit("eg-fra:factoring");
        reveal_strlit("eg-fra:insurance");
        reveal_strlit("eg-fra:leasing");
        reveal_strlit("eg-fra:microfinance");
        reveal_strlit("eg-fra:securities-brokerage");
        reveal_strlit("za-sarb:adla");
        reveal_strlit("za-sarb:banking");
        reveal_strlit("za-sarb:casp");
        reveal_strlit("za-sarb:mutual-bank");
        reveal_strlit("za-sarb:payment-system");
        assert(a[0].license_type_id[0] != b[0].license_type_id[0]);
        assert(a[0].license_type_id[0] != b[1].license_type_id[0]);
        assert(a[0].license_type_id[0] != b[2].license_type_id[0]);
        assert(a[0].license_type_id[0] != b[3].license_type_id[0]);
        assert(a[0].license_type_id[0] != b[4].license_type_id[0]);
        assert(a[1].license_type_id[0] != b[0].license_type_id[0]);
        assert(a[1].license_type_id[0] != b[1].license_type_id[0]);
        assert(a[1].license_type_id[0] != b[2].license_type_id[0]);
        assert(a[1].license_type_id[0] != b[3].license_type_id[0]);
        assert(a[1].license_type_id[0] != b[4].license_type_id[0]);
        assert(a[2].license_type_id[0] != b[0].license_type_id[0]);
        assert(a[2].license_type_id[0] != b[1].license_type_id[0]);
        assert(a[2].license_type_id[0] != b[2].license_type_id[0]);
        assert(a[2].license_type_id[0] != b[3].license_type_id[0]);
        assert(a[2].license_type_id[0] != b[4].license_type_id[0]);
        assert(a[3].license_type_id[0] != b[0].license_type_id[0]);
        assert(a[3].license_type_id[0] != b[1].license_type_id[0]);
        assert(a[3].license_type_id[0] != b[2].license_type_id[0]);
        assert(a[3].license_type_id[0] != b[3].license_type_id[0]);
        assert(a[3].license_type_id[0] != b[4].license_type_id[0]);
        assert(a[4].license_type_id[0] != b[0].license_type_id[0]);
        assert(a[4].license_type_id[0] != b[1].license_type_id[0]);
        assert(a[4].license_type_id[0] != b[2].license_type_id[0]);
        assert(a[4].license_type_id[0] != b[3].license_type_id[0]);
        assert(a[4].license_type_id[0] != b[4].license_type_id[0]);
        reveal_with_fuel(apart_each, 6);
        reveal_with_fuel(id_fresh_each, 6);
    }
    lemma_apart_each(a, b);
}

/// No licence type of `sarb_license_types` shares an identifier with one of `bot_license_types`.
proof fn lemma_sarb_license_types_apart_from_bot_license_types()
    ensures
        license_type_ids_apart(spec_sarb_license_types(), spec_bot_license_types()),
{
    let a = spec_sarb_license_types();
    let b = spec_bot_license_types();
    assert(apart_each(a, b)) by {
        reveal_strlit("tz-bot:commercial-bank");
        reveal_strlit("tz-bot:forex-bureau");
        reveal_strlit("tz-bot:microfinance");
        reveal_strlit("tz-bot:mobile-money");
        reveal_strlit("tz-bot:payment-system");
        reveal_strlit("za-sarb:adla");
        reveal_strlit("za-sarb:banking");
        reveal_strlit("za-sarb:casp");
        reveal_strlit("za-sarb:mutual-bank");
        reveal_strlit("za-sarb:payment-system");
        assert(a[0].license_type_id[0] != b[0].license_type_id[0]);
        assert(a[0].license_type_id[0] != b[1].license_type_id[0]);
        assert(a[0].license_type_id[0] != b[2].license_type_id[0]);
        assert(a[0].license_type_id[0] != b[3].license_type_id[0]);
        assert(a[0].license_type_id[0] != b[4].license_type_id[0]);
        assert(a[1].license_type_id[0] != b[0].license_type_id[0]);
        assert(a[1].license_type_id[0] != b[1].license_type_id[0]);
        assert(a[1].license_type_id[0] != b[2].license_type_id[0]);
        assert(a[1].license_type_id[0] != b[3].license_type_id[0]);
        assert(a[1].license_type_id[0] != b[4].license_type_id[0]);
        assert(a[2].license_type_id[0] != b[0].license_type_id[0]);
        assert(a[2].license_type_id[0] != b[1].license_type_id[0]);
        assert(a[2].license_type_id[0] != b[2].license_type_id[0]);
        assert(a[2].license_type_id[0] != b[3].license_type_id[0]);
        assert(a[2].license_type_id[0] != b[4].license_type_id[0]);
        assert(a[3].license_type_id[0] != b[0].license_type_id[0]);
        assert(a[3].license_type_id[0] != b[1].license_type_id[0]);
        assert(a[3].license_type_id[0] != b[2].license_type_id[0]);
        assert(a[3].license_type_id[0] != b[3].license_type_id[0]);
        assert(a[3].license_type_id[0] != b[4].license_type_id[0]);
        assert(a[4].license_type_id[0] != b[0].license_type_id[0]);
        assert(a[4].license_type_id[0] != b[1].license_type_id[0]);
        assert(a[4].license_type_id[0] != b[2].license_type_id[0]);
        assert(a[4].license_type_id[0] != b[3].license_type_id[0]);
        assert(a[4].license_type_id[0] != b[4].license_type_id[0]);
        reveal_with_fuel(apart_each, 6);
        reveal_with_fuel(id_fresh_each, 6);
    }
    lemma_apart_each(a, b);
}

/// No licence type of `sarb_license_types` shares an identifier with one of `zanzibar_br_license_types`.
proof fn lemma_sarb_license_types_apart_from_zanzibar_br_license_types()
    ensures
        license_type_ids_apart(spec_sarb_license_types(), spec_zanzibar_br_license_types()),
{
    let a = spec_sarb_license_types();
    let b = spec_zanzibar_br_license_types();
    assert(apart_each(a, b)) by {
        reveal_strlit("tz-zanzibar-br:business-license");
        reveal_strlit("tz-zanzibar-br:company-registration");
        reveal_strlit("tz-zanzibar-br:foreign-investment");
        reveal_strlit("tz-zanzibar-br:free-zone-enterprise");
        reveal_strlit("za-sarb:adla");
        reveal_strlit("za-sarb:banking");
        reveal_strlit("za-sarb:casp");
        reveal_strlit("za-sarb:mutual-bank");
        reveal_strlit("za-sarb:payment-system");
        assert(a[0].license_type_id[0] != b[0].license_type_id[0]);
        assert(a[0].license_type_id[0] != b[1].license_type_id[0]);
        assert(a[0].license_type_id[0] != b[2].license_type_id[0]);
        assert(a[0].license_type_id[0] != b[3].license_type_id[0]);
        assert(a[1].license_type_id[0] != b[0].license_type_id[0]);
        assert(a[1].license_type_id[0] != b[1].license_type_id[0]);
        assert(a[1].license_type_id[0] != b[2].license_type_id[0]);
        assert(a[1].license_type_id[0] != b[3].license_type_id[0]);
        assert(a[2].license_type_id[0] != b[0].license_type_id[0]);
        assert(a[2].license_type_id[0] != b[1].license_type_id[0]);
        assert(a[2].license_type_id[0] != b[2].license_type_id[0]);
        assert(a[2].license_type_id[0] != b[3].license_type_id[0]);
        assert(a[3].license_type_id[0] != b[0].license_type_id[0]);
        assert(a[3].license_type_id[0] != b[1].license_type_id[0]);
        assert(a[3].license_type_id[0] != b[2].license_type_id[0]);
        assert(a[3].license_type_id[0] != b[3].license_type_id[0]);
        assert(a[4].license_type_id[0] != b[0].license_type_id[0]);
        assert(a[4].license_type_id[0] != b[1].license_type_id[0]);
        assert(a[4].license_type_id[0] != b[2].license_type_id[0]);
        assert(a[4].license_type_id[0] != b[3].license_type_id[0]);
        reveal_with_fuel(apart_each, 6);
        reveal_with_fuel(id_fresh_each, 5);
    }
    lemma_apart_each(a, b);
}

/// No licence type of `sarb_license_types` shares an identifier with one of `cbi_license_types`.
proof fn lemma_sarb_license_types_apart_from_cbi_license_types()
    ensures
        license_type_ids_apart(spec_sarb_license_types(), spec_cbi_license_types()),
{
    let a = spec_sarb_license_types();
    let b = spec_cbi_license_types();
    assert(apart_each(a, b)) by {
        reveal_strlit("ie-cbi:credit-institution");
        reveal_strlit("ie-cbi:e-money-institution");
        reveal_strlit("ie-cbi:fund-manager");
        reveal_strlit("ie-cbi:insurance-intermediary");
        reveal_strlit("ie-cbi:insurance-undertaking");
        reveal_strlit("ie-cbi:investment-firm");
        reveal_strlit("ie-cbi:payment-institution");
        reveal_strlit("ie-cbi:vasp");
        reveal_strlit("za-sarb:adla");
        reveal_strlit("za-sarb:banking");
        reveal_strlit("za-sarb:casp");
        reveal_strlit("za-sarb:mutual-bank");
        reveal_strlit("za-sarb:payment-system");
        assert(a[0].license_type_id[0] != b[0].license_type_id[0]);
        assert(a[0].license_type_id[0] != b[1].license_type_id[0]);
        assert(a[0].license_type_id[0] != b[2].license_type_id[0]);
        assert(a[0].license_type_id[0] != b[3].license_type_id[0]);
        assert(a[0].license_type_id[0] != b[4].license_type_id[0]);
        assert(a[0].license_type_id[0] != b[5].license_type_id[0]);
        assert(a[0].license_type_id[0] != b[6].license_type_id[0]);
        assert(a[0].license_type_id[0] != b[7].license_type_id[0]);
        assert(a[1].license_type_id[0] != b[0].license_type_id[0]);
        assert(a[1].license_type_id[0] != b[1].license_type_id[0]);
        assert(a[1].license_type_id[0] != b[2].license_type_id[0]);
        assert(a[1].license_type_id[0] != b[3].license_type_id[0]);
        assert(a[1].license_type_id[0] != b[4].license_type_id[0]);
        assert(a[1].license_type_id[0] != b[5].license_type_id[0]);
        assert(a[1].license_type_id[0] != b[6].license_type_id[0]);
        assert(a[1].license_type_id[0] != b[7].license_type_id[0]);
        assert(a[2].license_type_id[0] != b[0].license_type_id[0]);
        assert(a[2].license_type_id[0] != b[1].license_type_id[0]);
        assert(a[2].license_type_id[0] != b[2].license_type_id[0]);
        assert(a[2].license_type_id[0] != b[3].license_type_id[0]);
        assert(a[2].license_type_id[0] != b[4].license_type_id[0]);
        assert(a[2].license_type_id[0] != b[5].license_type_id[0]);
        assert(a[2].license_type_id[0] != b[6].license_type_id[0]);
        assert(a[2].license_type_id[0] != b[7].license_type_id[0]);
        assert(a[3].license_type_id[0] != b[0].license_type_id[0]);
        assert(a[3].license_type_id[0] != b[1].license_type_id[0]);
        assert(a[3].license_type_id[0] != b[2].license_type_id[0]);
        assert(a[3].license_type_id[0] != b[3].license_type_id[0]);
        assert(a[3].license_type_id[0] != b[4].license_type_id[0]);
        assert(a[3].license_type_id[0] != b[5].license_type_id[0]);
        assert(a[3].license_type_id[0] != b[6].license_type_id[0]);
        assert(a[3].license_type_id[0] != b[7].license_type_id[0]);
        assert(a[4].license_type_id[0] != b[0].license_type_id[0]);
        assert(a[4].license_type_id[0] != b[1].license_type_id[0]);
        assert(a[4].license_type_id[0] != b[2].license_type_id[0]);
        assert(a[4].license_type_id[0] != b[3].license_type_id[0]);
        assert(a[4].license_type_id[0] != b[4].license_type_id[0]);
        assert(a[4].license_type_id[0] != b[5].license_type_id[0]);
        assert(a[4].license_type_id[0] != b[6].license_type_id[0]);
        assert(a[4].license_type_id[0] != b[7].license_type_id[0]);
        reveal_with_fuel(apart_each, 6);
        reveal_with_fuel(id_fresh_each, 9);
    }
    lemma_apart_each(a, b);
}

/// No licence type of `sarb_license_types` shares an identifier with one of `cro_license_types`.
proof fn lemma_sarb_license_types_apart_from_cro_license_types()
    ensures
        license_type_ids_apart(spec_sarb_license_types(), spec_cro_license_types()),
{
    let a = spec_sarb_license_types();
    let b = spec_cro_license_types();
    assert(apart_each(a, b)) by {
        reveal_strlit("ie-cro:branch-registration");
        reveal_strlit("ie-cro:designated-activity-company");
        reveal_strlit("ie-cro:icav");
        reveal_strlit("ie-cro:private-company-limited");
        reveal_strlit("ie-cro:public-limited-company");
        reveal_strlit("za-sarb:adla");
        reveal_strlit("za-sarb:banking");
        reveal_strlit("za-sarb:casp");
        reveal_strlit("za-sarb:mutual-bank");
        reveal_strlit("za-sarb:payment-system");
        assert(a[0].license_type_id[0] != b[0].license_type_id[0]);
        assert(a[0].license_type_id[0] != b[1].license_type_id[0]);
        assert(a[0].license_type_id[0] != b[2].license_type_id[0]);
        assert(a[0].license_type_id[0] != b[3].license_type_id[0]);
        assert(a[0].license_type_id[0] != b[4].license_type_id[0]);
        assert(a[1].license_type_id[0] != b[0].license_type_id[0]);
        assert(a[1].license_type_id[0] != b[1].license_type_id[0]);
        assert(a[1].license_type_id[0] != b[2].license_type_id[0]);
        assert(a[1].license_type_id[0] != b[3].license_type_id[0]);
        assert(a[1].license_type_id[0] != b[4].license_type_id[0]);
        assert(a[2].license_type_id[0] != b[0].license_type_id[0]);
        assert(a[2].license_type_id[0] != b[1].license_type_id[0]);
        assert(a[2].license_type_id[0] != b[2].license_type_id[0]);
        assert(a[2].license_type_id[0] != b[3].license_type_id[0]);
        assert(a[2].license_type_id[0] != b[4].license_type_id[0]);
        assert(a[3].license_type_id[0] != b[0].license_type_id[0]);
        assert(a[3].license_type_id[0] != b[1].license_type_id[0]);
        assert(a[3].license_type_id[0] != b[2].license_type_id[0]);
        assert(a[3].license_type_id[0] != b[3].license_type_id[0]);
        assert(a[3].license_type_id[0] != b[4].license_type_id[0]);
        assert(a[4].license_type_id[0] != b[0].license_type_id[0]);
        assert(a[4].license_type_id[0] != b[1].license_type_id[0]);
        assert(a[4].license_type_id[0] != b[2].license_type_id[0]);
        assert(a[4].license_type_id[0] != b[3].license_type_id[0]);
        assert(a[4].license_type_id[0] != b[4].license_type_id[0]);
        reveal_with_fuel(apart_each, 6);
        reveal_with_fuel(id_fresh_each, 6);
    }
    lemma_apart_each(a, b);
}

/// No licence type of `fsca_license_types` shares an identifier with one of `cbe_license_types`.
proof fn lemma_fsca_license_types_apart_from_cbe_license_types()
    ensures
        license_type_ids_apart(spec_fsca_license_types(), spec_cbe_license_types()),
{
    let a = spec_fsca_license_types();
    let b = spec_cbe_license_types();
    assert(apart_each(a, b)) by {
        reveal_strlit("eg-cbe:commercial-bank");
        reveal_strlit("eg-cbe:fintech");
        reveal_strlit("eg-cbe:islamic-bank");
        reveal_strlit("eg-cbe:money-exchange");
        reveal_strlit("eg-cbe:payment-service-provider");
        reveal_strlit("za-fsca:collective-investment-scheme");
        reveal_strlit("za-fsca:fsp");
        reveal_strlit("za-fsca:insurance");
        reveal_strlit("za-fsca:market-infrastructure");
        reveal_strlit("za-fsca:retirement-fund");
        assert(a[0].license_type_id[0] != b[0].license_type_id[0]);
        assert(a[0].license_type_id[0] != b[1].license_type_id[0]);
        assert(a[0].license_type_id[0] != b[2].license_type_id[0]);
        assert(a[0].license_type_id[0] != b[3].license_type_id[0]);
        assert(a[0].license_type_id[0] != b[4].license_type_id[0]);
        assert(a[1].license_type_id[0] != b[0].license_type_id[0]);
        assert(a[1].license_type_id[0] != b[1].license_type_id[0]);
        assert(a[1].license_type_id[0] != b[2].license_type_id[0]);
        assert(a[1].license_type_id[0] != b[3].license_type_id[0]);
        assert(a[1].license_type_id[0] != b[4].license_type_id[0]);
        assert(a[2].license_type_id[0] != b[0].license_type_id[0]);
        assert(a[2].license_type_id[0] != b[1].license_type_id[0]);
        assert(a[2].license_type_id[0] != b[2].license_type_id[0]);
        assert(a[2].license_type_id[0] != b[3].license_type_id[0]);
        assert(a[2].license_type_id[0] != b[4].license_type_id[0]);
        assert(a[3].license_type_id[0] != b[0].license_type_id[0]);
        assert(a[3].license_type_id[0] != b[1].license_type_id[0]);
        assert(a[3].license_type_id[0] != b[2].license_type_id[0]);
        assert(a[3].license_type_id[0] != b[3].license_type_id[0]);
        assert(a[3].license_type_id[0] != b[4].license_type_id[0]);
        assert(a[4].license_type_id[0] != b[0].license_type_id[0]);
        assert(a[4].license_type_id[0] != b[1].license_type_id[0]);
        assert(a[4].license_type_id[0] != b[2].license_type_id[0]);
        assert(a[4].license_type_id[0] != b[3].license_type_id[0]);
        assert(a[4].license_type_id[0] != b[4].license_type_id[0]);
        reveal_with_fuel(apart_each, 6);
        reveal_with_fuel(id_fresh_each, 6);
    }
    lemma_apart_each(a, b);
}

/// No licence type of `fsca_license_types` shares an identifier with one of `fra_license_types`.
proof fn lemma_fsca_license_types_apart_from_fra_license_types()
    ensures
        license_type_ids_apart(spec_fsca_license_types(), spec_fra_license_types()),
{
    let a = spec_fsca_license_types();
    let b = spec_fra_license_types();
    assert(apart_each(a, b)) by {
        reveal_strlit("eg-fra:factoring");
        reveal_strlit("eg-fra:insurance");
        reveal_strlit("eg-fra:leasing");
        reveal_strlit("eg-fra:microfinance");
        reveal_strlit("eg-fra:securities-brokerage");
        reveal_strlit("za-fsca:collective-investment-scheme");
        reveal_strlit("za-fsca:fsp");
        reveal_strlit("za-fsca:insurance");
        reveal_strlit("za-fsca:market-infrastructure");
        reveal_strlit("za-fsca:retirement-fund");
        assert(a[0].license_type_id[0] != b[0].license_type_id[0]);
        assert(a[0].license_type_id[0] != b[1].license_type_id[0]);
        assert(a[0].license_type_id[0] != b[2].license_type_id[0]);
        assert(a[0].license_type_id[0] != b[3].license_type_id[0]);
        assert(a[0].license_type_id[0] != b[4].license_type_id[0]);
        assert(a[1].license_type_id[0] != b[0].license_type_id[0]);
        assert(a[1].license_type_id[0] != b[1].license_type_id[0]);
        assert(a[1].license_type_id[0] != b[2].license_type_id[0]);
        assert(a[1].license_type_id[0] != b[3].license_type_id[0]);
        assert(a[1].license_type_id[0] != b[4].license_type_id[0]);
        assert(a[2].license_type_id[0] != b[0].license_type_id[0]);
        assert(a[2].license_type_id[0] != b[1].license_type_id[0]);
        assert(a[2].license_type_id[0] != b[2].license_type_id[0]);
        assert(a[2].license_type_id[0] != b[3].license_type_id[0]);
        assert(a[2].license_type_id[0] != b[4].license_type_id[0]);
        assert(a[3].license_type_id[0] != b[0].license_type_id[0]);
        assert(a[3].license_type_id[0] != b[1].license_type_id[0]);
        assert(a[3].license_type_id[0] != b[2].license_type_id[0]);
        assert(a[3].license_type_id[0] != b[3].license_type_id[0]);
        assert(a[3].license_type_id[0] != b[4].license_type_id[0]);
        assert(a[4].license_type_id[0] != b[0].license_type_id[0]);
        assert(a[4].license_type_id[0] != b[1].license_type_id[0]);
        assert(a[4].license_type_id[0] != b[2].license_type_id[0]);
        assert(a[4].license_type_id[0] != b[3].license_type_id[0]);
        assert(a[4].license_type_id[0] != b[4].license_type_id[0]);
        reveal_with_fuel(apart_each, 6);
        reveal_with_fuel(id_fresh_each, 6);
    }
    lemma_apart_each(a, b);
}

/// No licence type of `fsca_license_types` shares an identifier with one of `bot_license_types`.
proof fn lemma_fsca_license_types_apart_from_bot_license_types()
    ensures
        license_type_ids_apart(spec_fsca_license_types(), spec_bot_license_types()),
{
    let a = spec_fsca_license_types();
    let b = spec_bot_license_types();
    assert(apart_each(a, b)) by {
        reveal_strlit("tz-bot:commercial-bank");
        reveal_strlit("tz-bot:forex-bureau");
        reveal_strlit("tz-bot:microfinance");
        reveal_strlit("tz-bot:mobile-money");
        reveal_strlit("tz-bot:payment-system");
        reveal_strlit("za-fsca:collective-investment-scheme");
        reveal_strlit("za-fsca:fsp");
        reveal_strlit("za-fsca:insurance");
        reveal_strlit("za-fsca:market-infrastructure");
        reveal_strlit("za-fsca:retirement-fund");
        assert(a[0].license_type_id[0] != b[0].license_type_id[0]);
        assert(a[0].license_type_id[0] != b[1].license_type_id[0]);
        assert(a[0].license_type_id[0] != b[2].license_type_id[0]);
        assert(a[0].license_type_id[0] != b[3].license_type_id[0]);
        assert(a[0].license_type_id[0] != b[4].license_type_id[0]);
        assert(a[1].license_type_id[0] != b[0].license_type_id[0]);
        assert(a[1].license_type_id[0] != b[1].license_type_id[0]);
        assert(a[1].license_type_id[0] != b[2].license_type_id[0]);
        assert(a[1].license_type_id[0] != b[3].license_type_id[0]);
        assert(a[1].license_type_id[0] != b[4].license_type_id[0]);
        assert(a[2].license_type_id[0] != b[0].license_type_id[0]);
        assert(a[2].license_type_id[0] != b[1].license_type_id[0]);
        assert(a[2].license_type_id[0] != b[2].license_type_id[0]);
        assert(a[2].license_type_id[0] != b[3].license_type_id[0]);
        assert(a[2].license_type_id[0] != b[4].license_type_id[0]);
        assert(a[3].license_type_id[0] != b[0].license_type_id[0]);
        assert(a[3].license_type_id[0] != b[1].license_type_id[0]);
        assert(a[3].license_type_id[0] != b[2].license_type_id[0]);
        assert(a[3].license_type_id[0] != b[3].license_type_id[0]);
        assert(a[3].license_type_id[0] != b[4].license_type_id[0]);
        assert(a[4].license_type_id[0] != b[0].license_type_id[0]);
        assert(a[4].license_type_id[0] != b[1].license_type_id[0]);
        assert(a[4].license_type_id[0] != b[2].license_type_id[0]);
        assert(a[4].license_type_id[0] != b[3].license_type_id[0]);
        assert(a[4].license_type_id[0] != b[4].license_type_id[0]);
        reveal_with_fuel(apart_each, 6);
        reveal_with_fuel(id_fresh_each, 6);
    }
    lemma_apart_each(a, b);
}

/// No licence type of `fsca_license_types` shares an identifier with one of `zanzibar_br_license_types`.
proof fn lemma_fsca_license_types_apart_from_zanzibar_br_license_types()
    ensures
        license_type_ids_apart(spec_fsca_license_types(), spec_zanzibar_br_license_types()),
{
    let a = spec_fsca_license_types();
    let b = spec_zanzibar_br_license_types();
    assert(apart_each(a, b)) by {
        reveal_strlit("tz-zanzibar-br:business-license");
        reveal_strlit("tz-zanzibar-br:company-registration");
        reveal_strlit("tz-zanzibar-br:foreign-investment");
        reveal_strlit("tz-zanzibar-br:free-zone-enterprise");
        reveal_strlit("za-fsca:collective-investment-scheme");
        reveal_strlit("za-fsca:fsp");
        reveal_strlit("za-fsca:insurance");
        reveal_strlit("za-fsca:market-infrastructure");
        reveal_strlit("za-fsca:retirement-fund");
        assert(a[0].license_type_id[0] != b[0].license_type_id[0]);
        assert(a[0].license_type_id[0] != b[1].license_type_id[0]);
        assert(a[0].license_type_id[0] != b[2].license_type_id[0]);
        assert(a[0].license_type_id[0] != b[3].license_type_id[0]);
        assert(a[1].license_type_id[0] != b[0].license_type_id[0]);
        assert(a[1].license_type_id[0] != b[1].license_type_id[0]);
        assert(a[1].license_type_id[0] != b[2].license_type_id[0]);
        assert(a[1].license_type_id[0] != b[3].license_type_id[0]);
        assert(a[2].license_type_id[0] != b[0].license_type_id[0]);
        assert(a[2].license_type_id[0] != b[1].license_type_id[0]);
        assert(a[2].license_type_id[0] != b[2].license_type_id[0]);
        assert(a[2].license_type_id[0] != b[3].license_type_id[0]);
        assert(a[3].license_type_id[0] != b[0].license_type_id[0]);
        assert(a[3].license_type_id[0] != b[1].license_type_id[0]);
        assert(a[3].license_type_id[0] != b[2].license_type_id[0]);
        assert(a[3].license_type_id[0] != b[3].license_type_id[0]);
        assert(a[4].license_type_id[0] != b[0].license_type_id[0]);
        assert(a[4].license_type_id[0] != b[1].license_type_id[0]);
        assert(a[4].license_type_id[0] != b[2].license_type_id[0]);
        assert(a[4].license_type_id[0] != b[3].license_type_id[0]);
        reveal_with_fuel(apart_each, 6);
        reveal_with_fuel(id_fresh_each, 5);
    }
    lemma_apart_each(a, b);
}

/// No licence type of `fsca_license_types` shares an identifier with one of `cbi_license_types`.
proof fn lemma_fsca_license_types_apart_from_cbi_license_types()
    ensures
        license_type_ids_apart(spec_fsca_license_types(), spec_cbi_license_types()),
{
    let a = spec_fsca_license_types();
    let b = spec_cbi_license_types();
    assert(apart_each(a, b)) by {
        reveal_strlit("ie-cbi:credit-institution");
        reveal_strlit("ie-cbi:e-money-institution");
        reveal_strlit("ie-cbi:fund-manager");
        reveal_strlit("ie-cbi:insurance-intermediary");
        reveal_strlit("ie-cbi:insurance-undertaking");
        reveal_strlit("ie-cbi:investment-firm");
        reveal_strlit("ie-cbi:payment-institution");
        reveal_strlit("ie-cbi:vasp");
        reveal_strlit("za-fsca:collective-investment-scheme");
        reveal_strlit("za-fsca:fsp");
        reveal_strlit("za-fsca:insurance");
        reveal_strlit("za-fsca:market-infrastructure");
        reveal_strlit("za-fsca:retirement-fund");
        assert(a[0].license_type_id[0] != b[0].license_type_id[0]);
        assert(a[0].license_type_id[0] != b[1].license_type_id[0]);
        assert(a[0].license_type_id[0] != b[2].license_type_id[0]);
        assert(a[0].license_type_id[0] != b[3].license_type_id[0]);
        assert(a[0].license_type_id[0] != b[4].license_type_id[0]);
        assert(a[0].license_type_id[0] != b[5].license_type_id[0]);
        assert(a[0].license_type_id[0] != b[6].license_type_id[0]);
        assert(a[0].license_type_id[0] != b[7].license_type_id[0]);
        assert(a[1].license_type_id[0] != b[0].license_type_id[0]);
        assert(a[1].license_type_id[0] != b[1].license_type_id[0]);
        assert(a[1].license_type_id[0] != b[2].license_type_id[0]);
        assert(a[1].license_type_id[0] != b[3].license_type_id[0]);
        assert(a[1].license_type_id[0] != b[4].license_type_id[0]);
        assert(a[1].license_type_id[0] != b[5].license_type_id[0]);
        assert(a[1].license_type_id[0] != b[6].license_type_id[0]);
        assert(a[1].license_type_id[0] != b[7].license_type_id[0]);
        assert(a[2].license_type_id[0] != b[0].license_type_id[0]);
        assert(a[2].license_type_id[0] != b[1].license_type_id[0]);
        assert(a[2].license_type_id[0] != b[2].license_type_id[0]);
        assert(a[2].license_type_id[0] != b[3].license_type_id[0]);
        assert(a[2].license_type_id[0] != b[4].license_type_id[0]);
        assert(a[2].license_type_id[0] != b[5].license_type_id[0]);
        assert(a[2].license_type_id[0] != b[6].license_type_id[0]);
        assert(a[2].license_type_id[0] != b[7].license_type_id[0]);
        assert(a[3].license_type_id[0] != b[0].license_type_id[0]);
        assert(a[3].license_type_id[0] != b[1].license_type_id[0]);
        assert(a[3].license_type_id[0] != b[2].license_type_id[0]);
        assert(a[3].license_type_id[0] != b[3].license_type_id[0]);
        assert(a[3].license_type_id[0] != b[4].license_type_id[0]);
        assert(a[3].license_type_id[0] != b[5].license_type_id[0]);
        assert(a[3].license_type_id[0] != b[6].license_type_id[0]);
        assert(a[3].license_type_id[0] != b[7].license_type_id[0]);
        assert(a[4].license_type_id[0] != b[0].license_type_id[0]);
        assert(a[4].license_type_id[0] != b[1].license_type_id[0]);
        assert(a[4].license_type_id[0] != b[2].license_type_id[0]);
        assert(a[4].license_type_id[0] != b[3].license_type_id[0]);
        assert(a[4].license_type_id[0] != b[4].license_type_id[0]);
        assert(a[4].license_type_id[0] != b[5].license_type_id[0]);
        assert(a[4].license_type_id[0] != b[6].license_type_id[0]);
        assert(a[4].license_type_id[0] != b[7].license_type_id[0]);
        reveal_with_fuel(apart_each, 6);
        reveal_with_fuel(id_fresh_each, 9);
    }
    lemma_apart_each(a, b);
}

/// No licence type of `fsca_license_types` shares an identifier with one of `cro_license_types`.
proof fn lemma_fsca_license_types_apart_from_cro_license_types()
    ensures
        license_type_ids_apart(spec_fsca_license_types(), spec_cro_license_types()),
{
    let a = spec_fsca_license_types();
    let b = spec_cro_license_types();
    assert(apart_each(a, b)) by {
        reveal_strlit("ie-cro:branch-registration");
        reveal_strlit("ie-cro:designated-activity-company");
        reveal_strlit("ie-cro:icav");
        reveal_strlit("ie-cro:private-company-limited");
        reveal_strlit("ie-cro:public-limited-company");
        reveal_strlit("za-fsca:collective-investment-scheme");
        reveal_strlit("za-fsca:fsp");
        reveal_strlit("za-fsca:insurance");
        reveal_strlit("za-fsca:market-infrastructure");
        reveal_strlit("za-fsca:retirement-fund");
        assert(a[0].license_type_id[0] != b[0].license_type_id[0]);
        assert(a[0].license_type_id[0] != b[1].license_type_id[0]);
        assert(a[0].license_type_id[0] != b[2].license_type_id[0]);
        assert(a[0].license_type_id[0] != b[3].license_type_id[0]);
        assert(a[0].license_type_id[0] != b[4].license_type_id[0]);
        assert(a[1].license_type_id[0] != b[0].license_type_id[0]);
        assert(a[1].license_type_id[0] != b[1].license_type_id[0]);
        assert(a[1].license_type_id[0] != b[2].license_type_id[0]);
        assert(a[1].license_type_id[0] != b[3].license_type_id[0]);
        assert(a[1].license_type_id[0] != b[4].license_type_id[0]);
        assert(a[2].license_type_id[0] != b[0].license_type_id[0]);
        assert(a[2].license_type_id[0] != b[1].license_type_id[0]);
        assert(a[2].license_type_id[0] != b[2].license_type_id[0]);
        assert(a[2].license_type_id[0] != b[3].license_type_id[0]);
        assert(a[2].license_type_id[0] != b[4].license_type_id[0]);
        assert(a[3].license_type_id[0] != b[0].license_type_id[0]);
        assert(a[3].license_type_id[0] != b[1].license_type_id[0]);
        assert(a[3].license_type_id[0] != b[2].license_type_id[0]);
        assert(a[3].license_type_id[0] != b[3].license_type_id[0]);
        assert(a[3].license_type_id[0] != b[4].license_type_id[0]);
        assert(a[4].license_type_id[0] != b[0].license_type_id[0]);
        assert(a[4].license_type_id[0] != b[1].license_type_id[0]);
        assert(a[4].license_type_id[0] != b[2].license_type_id[0]);
        assert(a[4].license_type_id[0] != b[3].license_type_id[0]);
        assert(a[4].license_type_id[0] != b[4].license_type_id[0]);
        reveal_with_fuel(apart_each, 6);
        reveal_with_fuel(id_fresh_each, 6);
    }
    lemma_apart_each(a, b);
}

/// No licence type of `cbe_license_types` shares an identifier with one of `fra_license_types`.
proof fn lemma_cbe_license_types_apart_from_fra_license_types()
    ensures
        license_type_ids_apart(spec_cbe_license_types(), spec_fra_license_types()),
{
    let a = spec_cbe_license_types();
    let b = spec_fra_license_types();
    assert(apart_each(a, b)) by {
        reveal_strlit("eg-cbe:commercial-bank");
        reveal_strlit("eg-cbe:fintech");
        reveal_strlit("eg-cbe:islamic-bank");
        reveal_strlit("eg-cbe:money-exchange");
        reveal_strlit("eg-cbe:payment-service-provider");
        reveal_strlit("eg-fra:factoring");
        reveal_strlit("eg-fra:insurance");
        reveal_strlit("eg-fra:leasing");
        reveal_strlit("eg-fra:microfinance");
        reveal_strlit("eg-fra:securities-brokerage");
        assert(a[0].license_type_id[3] != b[0].license_type_id[3]);
        assert(a[0].license_type_id[3] != b[1].license_type_id[3]);
        assert(a[0].license_type_id[3] != b[2].license_type_id[3]);
        assert(a[0].license_type_id[3] != b[3].license_type_id[3]);
        assert(a[0].license_type_id[3] != b[4].license_type_id[3]);
        assert(a[1].license_type_id[3] != b[0].license_type_id[3]);
        assert(a[1].license_type_id[3] != b[1].license_type_id[3]);
        assert(a[1].license_type_id[3] != b[2].license_type_id[3]);
        assert(a[1].license_type_id[3] != b[3].license_type_id[3]);
        assert(a[1].license_type_id[3] != b[4].license_type_id[3]);
        assert(a[2].license_type_id[3] != b[0].license_type_id[3]);
        assert(a[2].license_type_id[3] != b[1].license_type_id[3]);
        assert(a[2].license_type_id[3] != b[2].license_type_id[3]);
        assert(a[2].license_type_id[3] != b[3].license_type_id[3]);
        assert(a[2].license_type_id[3] != b[4].license_type_id[3]);
        assert(a[3].license_type_id[3] != b[0].license_type_id[3]);
        assert(a[3].license_type_id[3] != b[1].license_type_id[3]);
        assert(a[3].license_type_id[3] != b[2].license_type_id[3]);
        assert(a[3].license_type_id[3] != b[3].license_type_id[3]);
        assert(a[3].license_type_id[3] != b[4].license_type_id[3]);
        assert(a[4].license_type_id[3] != b[0].license_type_id[3]);
        assert(a[4].license_type_id[3] != b[1].license_type_id[3]);
        assert(a[4].license_type_id[3] != b[2].license_type_id[3]);
        assert(a[4].license_type_id[3] != b[3].license_type_id[3]);
        assert(a[4].license_type_id[3] != b[4].license_type_id[3]);
        reveal_with_fuel(apart_each, 6);
        reveal_with_fuel(id_fresh_each, 6);
    }
    lemma_apart_each(a, b);
}

/// No licence type of `cbe_license_types` shares an identifier with one of `bot_license_types`.
proof fn lemma_cbe_license_types_apart_from_bot_license_types()
    ensures
        license_type_ids_apart(spec_cbe_license_types(), spec_bot_license_types()),
{
    let a = spec_cbe_license_types();
    let b = spec_bot_license_types();
    assert(apart_each(a, b)) by {
        reveal_strlit("eg-cbe:commercial-bank");
        reveal_strlit("eg-cbe:fintech");
        reveal_strlit("eg-cbe:islamic-bank");
        reveal_strlit("eg-cbe:money-exchange");
        reveal_strlit("eg-cbe:payment-service-provider");
        reveal_strlit("tz-bot:commercial-bank");
        reveal_strlit("tz-bot:forex-bureau");
        reveal_strlit("tz-bot:microfinance");
        reveal_strlit("tz-bot:mobile-money");
        reveal_strlit("tz-bot:payment-system");
        assert(a[0].license_type_id[0] != b[0].license_type_id[0]);
        assert(a[0].license_type_id[0] != b[1].license_type_id[0]);
        assert(a[0].license_type_id[0] != b[2].license_type_id[0]);
        assert(a[0].license_type_id[0] != b[3].license_type_id[0]);
        assert(a[0].license_type_id[0] != b[4].license_type_id[0]);
        assert(a[1].license_type_id[0] != b[0].license_type_id[0]);
        assert(a[1].license_type_id[0] != b[1].license_type_id[0]);
        assert(a[1].license_type_id[0] != b[2].license_type_id[0]);
        assert(a[1].license_type_id[0] != b[3].license_type_id[0]);
        assert(a[1].license_type_id[0] != b[4].license_type_id[0]);
        assert(a[2].license_type_id[0] != b[0].license_type_id[0]);
        assert(a[2].license_type_id[0] != b[1].license_type_id[0]);
        assert(a[2].license_type_id[0] != b[2].license_type_id[0]);
        assert(a[2].license_type_id[0] != b[3].license_type_id[0]);
        assert(a[2].license_type_id[0] != b[4].license_type_id[0]);
        assert(a[3].license_type_id[0] != b[0].license_type_id[0]);
        assert(a[3].license_type_id[0] != b[1].license_type_id[0]);
        assert(a[3].license_type_id[0] != b[2].license_type_id[0]);
        assert(a[3].license_type_id[0] != b[3].license_type_id[0]);
        assert(a[3].license_type_id[0] != b[4].license_type_id[0]);
        assert(a[4].license_type_id[0] != b[0].license_type_id[0]);
        assert(a[4].license_type_id[0] != b[1].license_type_id[0]);
        assert(a[4].license_type_id[0] != b[2].license_type_id[0]);
        assert(a[4].license_type_id[0] != b[3].license_type_id[0]);
        assert(a[4].license_type_id[0] != b[4].license_type_id[0]);
        reveal_with_fuel(apart_each, 6);
        reveal_with_fuel(id_fresh_each, 6);
    }
    lemma_apart_each(a, b);
}

/// No licence type of `cbe_license_types` shares an identifier with one of `zanzibar_br_license_types`.
proof fn lemma_cbe_license_types_apart_from_zanzibar_br_license_types()
    ensures
        license_type_ids_apart(spec_cbe_license_types(), spec_zanzibar_br_license_types()),
{
    let a = spec_cbe_license_types();
    let b = spec_zanzibar_br_license_types();
    assert(apart_each(a, b)) by {
        reveal_strlit("eg-cbe:commercial-bank");
        reveal_strlit("eg-cbe:fintech");
        reveal_strlit("eg-cbe:islamic-bank");
        reveal_strlit("eg-cbe:money-exchange");
        reveal_strlit("eg-cbe:payment-service-provider");
        reveal_strlit("tz-zanzibar-br:business-license");
        reveal_strlit("tz-zanzibar-br:company-registration");
        reveal_strlit("tz-zanzibar-br:foreign-investment");
        reveal_strlit("tz-zanzibar-br:free-zone-enterprise");
        assert(a[0].license_type_id[0] != b[0].license_type_id[0]);
        assert(a[0].license_type_id[0] != b[1].license_type_id[0]);
        assert(a[0].license_type_id[0] != b[2].license_type_id[0]);
        assert(a[0].license_type_id[0] != b[3].license_type_id[0]);
        assert(a[1].license_type_id[0] != b[0].license_type_id[0]);
        assert(a[1].license_type_id[0] != b[1].license_type_id[0]);
        assert(a[1].license_type_id[0] != b[2].license_type_id[0]);
        assert(a[1].license_type_id[0] != b[3].license_type_id[0]);
        assert(a[2].license_type_id[0] != b[0].license_type_id[0]);
        assert(a[2].license_type_id[0] != b[1].license_type_id[0]);
        assert(a[2].license_type_id[0] != b[2].license_type_id[0]);
        assert(a[2].license_type_id[0] != b[3].license_type_id[0]);
        assert(a[3].license_type_id[0] != b[0].license_type_id[0]);
        assert(a[3].license_type_id[0] != b[1].license_type_id[0]);
        assert(a[3].license_type_id[0] != b[2].license_type_id[0]);
        assert(a[3].license_type_id[0] != b[3].license_type_id[0]);
        assert(a[4].license_type_id[0] != b[0].license_type_id[0]);
        assert(a[4].license_type_id[0] != b[1].license_type_id[0]);
        assert(a[4].license_type_id[0] != b[2].license_type_id[0]);
        assert(a[4].license_type_id[0] != b[3].license_type_id[0]);
        reveal_with_fuel(apart_each, 6);
        reveal_with_fuel(id_fresh_each, 5);
    }
    lemma_apart_each(a, b);
}

/// No licence type of `cbe_license_types` shares an identifier with one of `cbi_license_types`.
proof fn lemma_cbe_license_types_apart_from_cbi_license_types()
    ensures
        license_type_ids_apart(spec_cbe_license_types(), spec_cbi_license_types()),
{
    let a = spec_cbe_license_types();
    let b = spec_cbi_license_types();
    assert(apart_each(a, b)) by {
        reveal_strlit("eg-cbe:commercial-bank");
        reveal_strlit("eg-cbe:fintech");
        reveal_strlit("eg-cbe:islamic-bank");
        reveal_strlit("eg-cbe:money-exchange");
        reveal_strlit("eg-cbe:payment-service-provider");
        reveal_strlit("ie-cbi:credit-institution");
        reveal_strlit("ie-cbi:e-money-institution");
        reveal_strlit("ie-cbi:fund-manager");
        reveal_strlit("ie-cbi:insurance-intermediary");
        reveal_strlit("ie-cbi:insurance-undertaking");
        reveal_strlit("ie-cbi:investment-firm");
        reveal_strlit("ie-cbi:payment-institution");
        reveal_strlit("ie-cbi:vasp");
        assert(a[0].license_type_id[0] != b[0].license_type_id[0]);
        assert(a[0].license_type_id[0] != b[1].license_type_id[0]);
        assert(a[0].license_type_id[0] != b[2].license_type_id[0]);
        assert(a[0].license_type_id[0] != b[3].license_type_id[0]);
        assert(a[0].license_type_id[0] != b[4].license_type_id[0]);
        assert(a[0].license_type_id[0] != b[5].license_type_id[0]);
        assert(a[0].license_type_id[0] != b[6].license_type_id[0]);
        assert(a[0].license_type_id[0] != b[7].license_type_id[0]);
        assert(a[1].license_type_id[0] != b[0].license_type_id[0]);
        assert(a[1].license_type_id[0] != b[1].license_type_id[0]);
        assert(a[1].license_type_id[0] != b[2].license_type_id[0]);
        assert(a[1].license_type_id[0] != b[3].license_type_id[0]);
        assert(a[1].license_type_id[0] != b[4].license_type_id[0]);
        assert(a[1].license_type_id[0] != b[5].license_type_id[0]);
        assert(a[1].license_type_id[0] != b[6].license_type_id[0]);
        assert(a[1].license_type_id[0] != b[7].license_type_id[0]);
        assert(a[2].license_type_id[0] != b[0].license_type_id[0]);
        assert(a[2].license_type_id[0] != b[1].license_type_id[0]);
        assert(a[2].license_type_id[0] != b[2].license_type_id[0]);
        assert(a[2].license_type_id[0] != b[3].license_type_id[0]);
        assert(a[2].license_type_id[0] != b[4].license_type_id[0]);
        assert(a[2].license_type_id[0] != b[5].license_type_id[0]);
        assert(a[2].license_type_id[0] != b[6].license_type_id[0]);
        assert(a[2].license_type_id[0] != b[7].license_type_id[0]);
        assert(a[3].license_type_id[0] != b[0].license_type_id[0]);
        assert(a[3].license_type_id[0] != b[1].license_type_id[0]);
        assert(a[3].license_type_id[0] != b[2].license_type_id[0]);
        assert(a[3].license_type_id[0] != b[3].license_type_id[0]);
        assert(a[3].license_type_id[0] != b[4].license_type_id[0]);
        assert(a[3].license_type_id[0] != b[5].license_type_id[0]);
        assert(a[3].license_type_id[0] != b[6].license_type_id[0]);
        assert(a[3].license_type_id[0] != b[7].license_type_id[0]);
        assert(a[4].license_type_id[0] != b[0].license_type_id[0]);
        assert(a[4].license_type_id[0] != b[1].license_type_id[0]);
        assert(a[4].license_type_id[0] != b[2].license_type_id[0]);
        assert(a[4].license_type_id[0] != b[3].license_type_id[0]);
        assert(a[4].license_type_id[0] != b[4].license_type_id[0]);
        assert(a[4].license_type_id[0] != b[5].license_type_id[0]);
        assert(a[4].license_type_id[0] != b[6].license_type_id[0]);
        assert(a[4].license_type_id[0] != b[7].license_type_id[0]);
        reveal_with_fuel(apart_each, 6);
        reveal_with_fuel(id_fresh_each, 9);
    }
    lemma_apart_each(a, b);
}

/// No licence type of `cbe_license_types` shares an identifier with one of `cro_license_types`.
proof fn lemma_cbe_license_types_apart_from_cro_license_types()
    ensures
        license_type_ids_apart(spec_cbe_license_types(), spec_cro_license_types()),
{
    let a = spec_cbe_license_types();
    let b = spec_cro_license_types();
    assert(apart_each(a, b)) by {
        reveal_strlit("eg-cbe:commercial-bank");
        reveal_strlit("eg-cbe:fintech");
        reveal_strlit("eg-cbe:islamic-bank");
        reveal_strlit("eg-cbe:money-exchange");
        reveal_strlit("eg-cbe:payment-service-provider");
        reveal_strlit("ie-cro:branch-registration");
        reveal_strlit("ie-cro:designated-activity-company");
        reveal_strlit("ie-cro:icav");
        reveal_strlit("ie-cro:private-company-limited");
        reveal_strlit("ie-cro:public-limited-company");
        assert(a[0].license_type_id[0] != b[0].license_type_id[0]);
        assert(a[0].license_type_id[0] != b[1].license_type_id[0]);
        assert(a[0].license_type_id[0] != b[2].license_type_id[0]);
        assert(a[0].license_type_id[0] != b[3].license_type_id[0]);
        assert(a[0].license_type_id[0] != b[4].license_type_id[0]);
        assert(a[1].license_type_id[0] != b[0].license_type_id[0]);
        assert(a[1].license_type_id[0] != b[1].license_type_id[0]);
        assert(a[1].license_type_id[0] != b[2].license_type_id[0]);
        assert(a[1].license_type_id[0] != b[3].license_type_id[0]);
        assert(a[1].license_type_id[0] != b[4].license_type_id[0]);
        assert(a[2].license_type_id[0] != b[0].license_type_id[0]);
        assert(a[2].license_type_id[0] != b[1].license_type_id[0]);
        assert(a[2].license_type_id[0] != b[2].license_type_id[0]);
        assert(a[2].license_type_id[0] != b[3].license_type_id[0]);
        assert(a[2].license_type_id[0] != b[4].license_type_id[0]);
        assert(a[3].license_type_id[0] != b[0].license_type_id[0]);
        assert(a[3].license_type_id[0] != b[1].license_type_id[0]);
        assert(a[3].license_type_id[0] != b[2].license_type_id[0]);
        assert(a[3].license_type_id[0] != b[3].license_type_id[0]);
        assert(a[3].license_type_id[0] != b[4].license_type_id[0]);
        assert(a[4].license_type_id[0] != b[0].license_type_id[0]);
        assert(a[4].license_type_id[0] != b[1].license_type_id[0]);
        assert(a[4].license_type_id[0] != b[2].license_type_id[0]);
        assert(a[4].license_type_id[0] != b[3].license_type_id[0]);
        assert(a[4].license_type_id[0] != b[4].license_type_id[0]);
        reveal_with_fuel(apart_each, 6);
        reveal_with_fuel(id_fresh_each, 6);
    }
    lemma_apart_each(a, b);
}

/// No licence type of `fra_license_types` shares an identifier with one of `bot_license_types`.
proof fn lemma_fra_license_types_apart_from_bot_license_types()
    ensures
        license_type_ids_apart(spec_fra_license_types(), spec_bot_license_types()),
{
    let a = spec_fra_license_types();
    let b = spec_bot_license_types();
    assert(apart_each(a, b)) by {
        reveal_strlit("eg-fra:factoring");
        reveal_strlit("eg-fra:insurance");
        reveal_strlit("eg-fra:leasing");
        reveal_strlit("eg-fra:microfinance");
        reveal_strlit("eg-fra:securities-brokerage");
        reveal_strlit("tz-bot:commercial-bank");
        reveal_strlit("tz-bot:forex-bureau");
        reveal_strlit("tz-bot:microfinance");
        reveal_strlit("tz-bot:mobile-money");
        reveal_strlit("tz-bot:payment-system");
        assert(a[0].license_type_id[0] != b[0].license_type_id[0]);
        assert(a[0].license_type_id[0] != b[1].license_type_id[0]);
        assert(a[0].license_type_id[0] != b[2].license_type_id[0]);
        assert(a[0].license_type_id[0] != b[3].license_type_id[0]);
        assert(a[0].license_type_id[0] != b[4].license_type_id[0]);
        assert(a[1].license_type_id[0] != b[0].license_type_id[0]);
        assert(a[1].license_type_id[0] != b[1].license_type_id[0]);
        assert(a[1].license_type_id[0] != b[2].license_type_id[0]);
        assert(a[1].license_type_id[0] != b[3].license_type_id[0]);
        assert(a[1].license_type_id[0] != b[4].license_type_id[0]);
        assert(a[2].license_type_id[0] != b[0].license_type_id[0]);
        assert(a[2].license_type_id[0] != b[1].license_type_id[0]);
        assert(a[2].license_type_id[0] != b[2].license_type_id[0]);
        assert(a[2].license_type_id[0] != b[3].license_type_id[0]);
        assert(a[2].license_type_id[0] != b[4].license_type_id[0]);
        assert(a[3].license_type_id[0] != b[0].license_type_id[0]);
        assert(a[3].license_type_id[0] != b[1].license_type_id[0]);
        assert(a[3].license_type_id[0] != b[2].license_type_id[0]);
        assert(a[3].license_type_id[0] != b[3].license_type_id[0]);
        assert(a[3].license_type_id[0] != b[4].license_type_id[0]);
        assert(a[4].license_type_id[0] != b[0].license_type_id[0]);
        assert(a[4].license_type_id[0] != b[1].license_type_id[0]);
        assert(a[4].license_type_id[0] != b[2].license_type_id[0]);
        assert(a[4].license_type_id[0] != b[3].license_type_id[0]);
        assert(a[4].license_type_id[0] != b[4].license_type_id[0]);
        reveal_with_fuel(apart_each, 6);
        reveal_with_fuel(id_fresh_each, 6);
    }
    lemma_apart_each(a, b);
}

/// No licence type of `fra_license_types` shares an identifier with one of `zanzibar_br_license_types`.
proof fn lemma_fra_license_types_apart_from_zanzibar_br_license_types()
    ensures
        license_type_ids_apart(spec_fra_license_types(), spec_zanzibar_br_license_types()),
{
    let a = spec_fra_license_types();
    let b = spec_zanzibar_br_license_types();
    assert(apart_each(a, b)) by {
        reveal_strlit("eg-fra:factoring");
        reveal_strlit("eg-fra:insurance");
        reveal_strlit("eg-fra:leasing");
        reveal_strlit("eg-fra:microfinance");
        reveal_strlit("eg-fra:securities-brokerage");
        reveal_strlit("tz-zanzibar-br:business-license");
        reveal_strlit("tz-zanzibar-br:company-registration");
        reveal_strlit("tz-zanzibar-br:foreign-investment");
        reveal_strlit("tz-zanzibar-br:free-zone-enterprise");
        assert(a[0].license_type_id[0] != b[0].license_type_id[0]);
        assert(a[0].license_type_id[0] != b[1].license_type_id[0]);
        assert(a[0].license_type_id[0] != b[2].license_type_id[0]);
        assert(a[0].license_type_id[0] != b[3].license_type_id[0]);
        assert(a[1].license_type_id[0] != b[0].license_type_id[0]);
        assert(a[1].license_type_id[0] != b[1].license_type_id[0]);
        assert(a[1].license_type_id[0] != b[2].license_type_id[0]);
        assert(a[1].license_type_id[0] != b[3].license_type_id[0]);
        assert(a[2].license_type_id[0] != b[0].license_type_id[0]);
        assert(a[2].license_type_id[0] != b[1].license_type_id[0]);
        assert(a[2].license_type_id[0] != b[2].license_type_id[0]);
        assert(a[2].license_type_id[0] != b[3].license_type_id[0]);
        assert(a[3].license_type_id[0] != b[0].license_type_id[0]);
        assert(a[3].license_type_id[0] != b[1].license_type_id[0]);
        assert(a[3].license_type_id[0] != b[2].license_type_id[0]);
        assert(a[3].license_type_id[0] != b[3].license_type_id[0]);
        assert(a[4].license_type_id[0] != b[0].license_type_id[0]);
        assert(a[4].license_type_id[0] != b[1].license_type_id[0]);
        assert(a[4].license_type_id[0] != b[2].license_type_id[0]);
        assert(a[4].license_type_id[0] != b[3].license_type_id[0]);
        reveal_with_fuel(apart_each, 6);
        reveal_with_fuel(id_fresh_each, 5);
    }
    lemma_apart_each(a, b);
}

/// No licence type of `fra_license_types` shares an identifier with one of `cbi_license_types`.
proof fn lemma_fra_license_types_apart_from_cbi_license_types()
    ensures
        license_type_ids_apart(spec_fra_license_types(), spec_cbi_license_types()),
{
    let a = spec_fra_license_types();
    let b = spec_cbi_license_types();
    assert(apart_each(a, b)) by {
        reveal_strlit("eg-fra:factoring");
        reveal_strlit("eg-fra:insurance");
        reveal_strlit("eg-fra:leasing");
        reveal_strlit("eg-fra:microfinance");
        reveal_strlit("eg-fra:securities-brokerage");
        reveal_strlit("ie-cbi:credit-institution");
        reveal_strlit("ie-cbi:e-money-institution");
        reveal_strlit("ie-cbi:fund-manager");
        reveal_strlit("ie-cbi:insurance-intermediary");
        reveal_strlit("ie-cbi:insurance-undertaking");
        reveal_strlit("ie-cbi:investment-firm");
        reveal_strlit("ie-cbi:payment-institution");
        reveal_strlit("ie-cbi:vasp");
        assert(a[0].license_type_id[0] != b[0].license_type_id[0]);
        assert(a[0].license_type_id[0] != b[1].license_type_id[0]);
        assert(a[0].license_type_id[0] != b[2].license_type_id[0]);
        assert(a[0].license_type_id[0] != b[3].license_type_id[0]);
        assert(a[0].license_type_id[0] != b[4].license_type_id[0]);
        assert(a[0].license_type_id[0] != b[5].license_type_id[0]);
        assert(a[0].license_type_id[0] != b[6].license_type_id[0]);
        assert(a[0].license_type_id[0] != b[7].license_type_id[0]);
        assert(a[1].license_type_id[0] != b[0].license_type_id[0]);
        assert(a[1].license_type_id[0] != b[1].license_type_id[0]);
        assert(a[1].license_type_id[0] != b[2].license_type_id[0]);
        assert(a[1].license_type_id[0] != b[3].license_type_id[0]);
        assert(a[1].license_type_id[0] != b[4].license_type_id[0]);
        assert(a[1].license_type_id[0] != b[5].license_type_id[0]);
        assert(a[1].license_type_id[0] != b[6].license_type_id[0]);
        assert(a[1].license_type_id[0] != b[7].license_type_id[0]);
        assert(a[2].license_type_id[0] != b[0].license_type_id[0]);
        assert(a[2].license_type_id[0] != b[1].license_type_id[0]);
        assert(a[2].license_type_id[0] != b[2].license_type_id[0]);
        assert(a[2].license_type_id[0] != b[3].license_type_id[0]);
        assert(a[2].license_type_id[0] != b[4].license_type_id[0]);
        assert(a[2].license_type_id[0] != b[5].license_type_id[0]);
        assert(a[2].license_type_id[0] != b[6].license_type_id[0]);
        assert(a[2].license_type_id[0] != b[7].license_type_id[0]);
        assert(a[3].license_type_id[0] != b[0].license_type_id[0]);
        assert(a[3].license_type_id[0] != b[1].license_type_id[0]);
        assert(a[3].license_type_id[0] != b[2].license_type_id[0]);
        assert(a[3].license_type_id[0] != b[3].license_type_id[0]);
        assert(a[3].license_type_id[0] != b[4].license_type_id[0]);
        assert(a[3].license_type_id[0] != b[5].license_type_id[0]);
        assert(a[3].license_type_id[0] != b[6].license_type_id[0]);
        assert(a[3].license_type_id[0] != b[7].license_type_id[0]);
        assert(a[4].license_type_id[0] != b[0].license_type_id[0]);
        assert(a[4].license_type_id[0] != b[1].license_type_id[0]);
        assert(a[4].license_type_id[0] != b[2].license_type_id[0]);
        assert(a[4].license_type_id[0] != b[3].license_type_id[0]);
        assert(a[4].license_type_id[0] != b[4].license_type_id[0]);
        assert(a[4].license_type_id[0] != b[5].license_type_id[0]);
        assert(a[4].license_type_id[0] != b[6].license_type_id[0]);
        assert(a[4].license_type_id[0] != b[7].license_type_id[0]);
        reveal_with_fuel(apart_each, 6);
        reveal_with_fuel(id_fresh_each, 9);
    }
    lemma_apart_each(a, b);
}

/// No licence type of `fra_license_types` shares an identifier with one of `cro_license_types`.
proof fn lemma_fra_license_types_apart_from_cro_license_types()
    ensures
        license_type_ids_apart(spec_fra_license_types(), spec_cro_license_types()),
{
    let a = spec_fra_license_types();
    let b = spec_cro_license_types();
    assert(apart_each(a, b)) by {
        reveal_strlit("eg-fra:factoring");
        reveal_strlit("eg-fra:insurance");
        reveal_strlit("eg-fra:leasing");
        reveal_strlit("eg-fra:microfinance");
        reveal_strlit("eg-fra:securities-brokerage");
        reveal_strlit("ie-cro:branch-registration");
        reveal_strlit("ie-cro:designated-activity-company");
        reveal_strlit("ie-cro:icav");
        reveal_strlit("ie-cro:private-company-limited");
        reveal_strlit("ie-cro:public-limited-company");
        assert(a[0].license_type_id[0] != b[0].license_type_id[0]);
        assert(a[0].license_type_id[0] != b[1].license_type_id[0]);
        assert(a[0].license_type_id[0] != b[2].license_type_id[0]);
        assert(a[0].license_type_id[0] != b[3].license_type_id[0]);
        assert(a[0].license_type_id[0] != b[4].license_type_id[0]);
        assert(a[1].license_type_id[0] != b[0].license_type_id[0]);
        assert(a[1].license_type_id[0] != b[1].license_type_id[0]);
        assert(a[1].license_type_id[0] != b[2].license_type_id[0]);
        assert(a[1].license_type_id[0] != b[3].license_type_id[0]);
        assert(a[1].license_type_id[0] != b[4].license_type_id[0]);
        assert(a[2].license_type_id[0] != b[0].license_type_id[0]);
        assert(a[2].license_type_id[0] != b[1].license_type_id[0]);
        assert(a[2].license_type_id[0] != b[2].license_type_id[0]);
        assert(a[2].license_type_id[0] != b[3].license_type_id[0]);
        assert(a[2].license_type_id[0] != b[4].license_type_id[0]);
        assert(a[3].license_type_id[0] != b[0].license_type_id[0]);
        assert(a[3].license_type_id[0] != b[1].license_type_id[0]);
        assert(a[3].license_type_id[0] != b[2].license_type_id[0]);
        assert(a[3].license_type_id[0] != b[3].license_type_id[0]);
        assert(a[3].license_type_id[0] != b[4].license_type_id[0]);
        assert(a[4].license_type_id[0] != b[0].license_type_id[0]);
        assert(a[4].license_type_id[0] != b[1].license_type_id[0]);
        assert(a[4].license_type_id[0] != b[2].license_type_id[0]);
        assert(a[4].license_type_id[0] != b[3].license_type_id[0]);
        assert(a[4].license_type_id[0] != b[4].license_type_id[0]);
        reveal_with_fuel(apart_each, 6);
        reveal_with_fuel(id_fresh_each, 6);
    }
    lemma_apart_each(a, b);
}

/// No licence type of `bot_license_types` shares an identifier with one of `zanzibar_br_license_types`.
proof fn lemma_bot_license_types_apart_from_zanzibar_br_license_types()
    ensures
        license_type_ids_apart(spec_bot_license_types(), spec_zanzibar_br_license_types()),
{
    let a = spec_bot_license_types();
    let b = spec_zanzibar_br_license_types();
    assert(apart_each(a, b)) by {
        reveal_strlit("tz-bot:commercial-bank");
        reveal_strlit("tz-bot:forex-bureau");
        reveal_strlit("tz-bot:microfinance");
        reveal_strlit("tz-bot:mobile-money");
        reveal_strlit("tz-bot:payment-system");
        reveal_strlit("tz-zanzibar-br:business-license");
        reveal_strlit("tz-zanzibar-br:company-registration");
        reveal_strlit("tz-zanzibar-br:foreign-investment");
        reveal_strlit("tz-zanzibar-br:free-zone-enterprise");
        assert(a[0].license_type_id[3] != b[0].license_type_id[3]);
        assert(a[0].license_type_id[3] != b[1].license_type_id[3]);
        assert(a[0].license_type_id[3] != b[2].license_type_id[3]);
        assert(a[0].license_type_id[3] != b[3].license_type_id[3]);
        assert(a[1].license_type_id[3] != b[0].license_type_id[3]);
        assert(a[1].license_type_id[3] != b[1].license_type_id[3]);
        assert(a[1].license_type_id[3] != b[2].license_type_id[3]);
        assert(a[1].license_type_id[3] != b[3].license_type_id[3]);
        assert(a[2].license_type_id[3] != b[0].license_type_id[3]);
        assert(a[2].license_type_id[3] != b[1].license_type_id[3]);
        assert(a[2].license_type_id[3] != b[2].license_type_id[3]);
        assert(a[2].license_type_id[3] != b[3].license_type_id[3]);
        assert(a[3].license_type_id[3] != b[0].license_type_id[3]);
        assert(a[3].license_type_id[3] != b[1].license_type_id[3]);
        assert(a[3].license_type_id[3] != b[2].license_type_id[3]);
        assert(a[3].license_type_id[3] != b[3].license_type_id[3]);
        assert(a[4].license_type_id[3] != b[0].license_type_id[3]);
        assert(a[4].license_type_id[3] != b[1].license_type_id[3]);
        assert(a[4].license_type_id[3] != b[2].license_type_id[3]);
        assert(a[4].license_type_id[3] != b[3].license_type_id[3]);
        reveal_with_fuel(apart_each, 6);
        reveal_with_fuel(id_fresh_each, 5);
    }
    lemma_apart_each(a, b);
}

/// No licence type of `bot_license_types` shares an identifier with one of `cbi_license_types`.
proof fn lemma_bot_license_types_apart_from_cbi_license_types()
    ensures
        license_type_ids_apart(spec_bot_license_types(), spec_cbi_license_types()),
{
    let a = spec_bot_license_types();
    let b = spec_cbi_license_types();
    assert(apart_each(a, b)) by {
        reveal_strlit("ie-cbi:credit-institution");
        reveal_strlit("ie-cbi:e-money-institution");
        reveal_strlit("ie-cbi:fund-manager");
        reveal_strlit("ie-cbi:insurance-intermediary");
        reveal_strlit("ie-cbi:insurance-undertaking");
        reveal_strlit("ie-cbi:investment-firm");
        reveal_strlit("ie-cbi:payment-institution");
        reveal_strlit("ie-cbi:vasp");
        reveal_strlit("tz-bot:commercial-bank");
        reveal_strlit("tz-bot:forex-bureau");
        reveal_strlit("tz-bot:microfinance");
        reveal_strlit("tz-bot:mobile-money");
        reveal_strlit("tz-bot:payment-system");
        assert(a[0].license_type_id[0] != b[0].license_type_id[0]);
        assert(a[0].license_type_id[0] != b[1].license_type_id[0]);
        assert(a[0].license_type_id[0] != b[2].license_type_id[0]);
        assert(a[0].license_type_id[0] != b[3].license_type_id[0]);
        assert(a[0].license_type_id[0] != b[4].license_type_id[0]);
        assert(a[0].license_type_id[0] != b[5].license_type_id[0]);
        assert(a[0].license_type_id[0] != b[6].license_type_id[0]);
        assert(a[0].license_type_id[0] != b[7].license_type_id[0]);
        assert(a[1].license_type_id[0] != b[0].license_type_id[0]);
        assert(a[1].license_type_id[0] != b[1].license_type_id[0]);
        assert(a[1].license_type_id[0] != b[2].license_type_id[0]);
        assert(a[1].license_type_id[0] != b[3].license_type_id[0]);
        assert(a[1].license_type_id[0] != b[4].license_type_id[0]);
        assert(a[1].license_type_id[0] != b[5].license_type_id[0]);
        assert(a[1].license_type_id[0] != b[6].license_type_id[0]);
        assert(a[1].license_type_id[0] != b[7].license_type_id[0]);
        assert(a[2].license_type_id[0] != b[0].license_type_id[0]);
        assert(a[2].license_type_id[0] != b[1].license_type_id[0]);
        assert(a[2].license_type_id[0] != b[2].license_type_id[0]);
        assert(a[2].license_type_id[0] != b[3].license_type_id[0]);
        assert(a[2].license_type_id[0] != b[4].license_type_id[0]);
        assert(a[2].license_type_id[0] != b[5].license_type_id[0]);
        assert(a[2].license_type_id[0] != b[6].license_type_id[0]);
        assert(a[2].license_type_id[0] != b[7].license_type_id[0]);
        assert(a[3].license_type_id[0] != b[0].license_type_id[0]);
        assert(a[3].license_type_id[0] != b[1].license_type_id[0]);
        assert(a[3].license_type_id[0] != b[2].license_type_id[0]);
        assert(a[3].license_type_id[0] != b[3].license_type_id[0]);
        assert(a[3].license_type_id[0] != b[4].license_type_id[0]);
        assert(a[3].license_type_id[0] != b[5].license_type_id[0]);
        assert(a[3].license_type_id[0] != b[6].license_type_id[0]);
        assert(a[3].license_type_id[0] != b[7].license_type_id[0]);
        assert(a[4].license_type_id[0] != b[0].license_type_id[0]);
        assert(a[4].license_type_id[0] != b[1].license_type_id[0]);
        assert(a[4].license_type_id[0] != b[2].license_type_id[0]);
        assert(a[4].license_type_id[0] != b[3].license_type_id[0]);
        assert(a[4].license_type_id[0] != b[4].license_type_id[0]);
        assert(a[4].license_type_id[0] != b[5].license_type_id[0]);
        assert(a[4].license_type_id[0] != b[6].license_type_id[0]);
        assert(a[4].license_type_id[0] != b[7].license_type_id[0]);
        reveal_with_fuel(apart_each, 6);
        reveal_with_fuel(id_fresh_each, 9);
    }
    lemma_apart_each(a, b);
}

/// No licence type of `bot_license_types` shares an identifier with one of `cro_license_types`.
proof fn lemma_bot_license_types_apart_from_cro_license_types()
    ensures
        license_type_ids_apart(spec_bot_license_types(), spec_cro_license_types()),
{
    let a = spec_bot_license_types();
    let b = spec_cro_license_types();
    assert(apart_each(a, b)) by {
        reveal_strlit("ie-cro:branch-registration");
        reveal_strlit("ie-cro:designated-activity-company");
        reveal_strlit("ie-cro:icav");
        reveal_strlit("ie-cro:private-company-limited");
        reveal_strlit("ie-cro:public-limited-company");
        reveal_strlit("tz-bot:commercial-bank");
        reveal_strlit("tz-bot:forex-bureau");
        reveal_strlit("tz-bot:microfinance");
        reveal_strlit("tz-bot:mobile-money");
        reveal_strlit("tz-bot:payment-system");
        assert(a[0].license_type_id[0] != b[0].license_type_id[0]);
        assert(a[0].license_type_id[0] != b[1].license_type_id[0]);
        assert(a[0].license_type_id[0] != b[2].license_type_id[0]);
        assert(a[0].license_type_id[0] != b[3].license_type_id[0]);
        assert(a[0].license_type_id[0] != b[4].license_type_id[0]);
        assert(a[1].license_type_id[0] != b[0].license_type_id[0]);
        assert(a[1].license_type_id[0] != b[1].license_type_id[0]);
        assert(a[1].license_type_id[0] != b[2].license_type_id[0]);
        assert(a[1].license_type_id[0] != b[3].license_type_id[0]);
        assert(a[1].license_type_id[0] != b[4].license_type_id[0]);
        assert(a[2].license_type_id[0] != b[0].license_type_id[0]);
        assert(a[2].license_type_id[0] != b[1].license_type_id[0]);
        assert(a[2].license_type_id[0] != b[2].license_type_id[0]);
        assert(a[2].license_type_id[0] != b[3].license_type_id[0]);
        assert(a[2].license_type_id[0] != b[4].license_type_id[0]);
        assert(a[3].license_type_id[0] != b[0].license_type_id[0]);
        assert(a[3].license_type_id[0] != b[1].license_type_id[0]);
        assert(a[3].license_type_id[0] != b[2].license_type_id[0]);
        assert(a[3].license_type_id[0] != b[3].license_type_id[0]);
        assert(a[3].license_type_id[0] != b[4].license_type_id[0]);
        assert(a[4].license_type_id[0] != b[0].license_type_id[0]);
        assert(a[4].license_type_id[0] != b[1].license_type_id[0]);
        assert(a[4].license_type_id[0] != b[2].license_type_id[0]);
        assert(a[4].license_type_id[0] != b[3].license_type_id[0]);
        assert(a[4].license_type_id[0] != b[4].license_type_id[0]);
        reveal_with_fuel(apart_each, 6);
        reveal_with_fuel(id_fresh_each, 6);
    }
    lemma_apart_each(a, b);
}

/// No licence type of `zanzibar_br_license_types` shares an identifier with one of `cbi_license_types`.
proof fn lemma_zanzibar_br_license_types_apart_from_cbi_license_types()
    ensures
        license_type_ids_apart(spec_zanzibar_br_license_types(), spec_cbi_license_types()),
{
    let a = spec_zanzibar_br_license_types();
    let b = spec_cbi_license_types();
    assert(apart_each(a, b)) by {
        reveal_strlit("ie-cbi:credit-institution");
        reveal_strlit("ie-cbi:e-money-institution");
        reveal_strlit("ie-cbi:fund-manager");
        reveal_strlit("ie-cbi:insurance-intermediary");
        reveal_strlit("ie-cbi:insurance-undertaking");
        reveal_strlit("ie-cbi:investment-firm");
        reveal_strlit("ie-cbi:payment-institution");
        reveal_strlit("ie-cbi:vasp");
        reveal_strlit("tz-zanzibar-br:business-license");
        reveal_strlit("tz-zanzibar-br:company-registration");
        reveal_strlit("tz-zanzibar-br:foreign-investment");
        reveal_strlit("tz-zanzibar-br:free-zone-enterprise");
        assert(a[0].license_type_id[0] != b[0].license_type_id[0]);
        assert(a[0].license_type_id[0] != b[1].license_type_id[0]);
        assert(a[0].license_type_id[0] != b[2].license_type_id[0]);
        assert(a[0].license_type_id[0] != b[3].license_type_id[0]);
        assert(a[0].license_type_id[0] != b[4].license_type_id[0]);
        assert(a[0].license_type_id[0] != b[5].license_type_id[0]);
        assert(a[0].license_type_id[0] != b[6].license_type_id[0]);
        assert(a[0].license_type_id[0] != b[7].license_type_id[0]);
        assert(a[1].license_type_id[0] != b[0].license_type_id[0]);
        assert(a[1].license_type_id[0] != b[1].license_type_id[0]);
        assert(a[1].license_type_id[0] != b[2].license_type_id[0]);
        assert(a[1].license_type_id[0] != b[3].license_type_id[0]);
        assert(a[1].license_type_id[0] != b[4].license_type_id[0]);
        assert(a[1].license_type_id[0] != b[5].license_type_id[0]);
        assert(a[1].license_type_id[0] != b[6].license_type_id[0]);
        assert(a[1].license_type_id[0] != b[7].license_type_id[0]);
        assert(a[2].license_type_id[0] != b[0].license_type_id[0]);
        assert(a[2].license_type_id[0] != b[1].license_type_id[0]);
        assert(a[2].license_type_id[0] != b[2].license_type_id[0]);
        assert(a[2].license_type_id[0] != b[3].license_type_id[0]);
        assert(a[2].license_type_id[0] != b[4].license_type_id[0]);
        assert(a[2].license_type_id[0] != b[5].license_type_id[0]);
        assert(a[2].license_type_id[0] != b[6].license_type_id[0]);
        assert(a[2].license_type_id[0] != b[7].license_type_id[0]);
        assert(a[3].license_type_id[0] != b[0].license_type_id[0]);
        assert(a[3].license_type_id[0] != b[1].license_type_id[0]);
        assert(a[3].license_type_id[0] != b[2].license_type_id[0]);
        assert(a[3].license_type_id[0] != b[3].license_type_id[0]);
        assert(a[3].license_type_id[0] != b[4].license_type_id[0]);
        assert(a[3].license_type_id[0] != b[5].license_type_id[0]);
        assert(a[3].license_type_id[0] != b[6].license_type_id[0]);
        assert(a[3].license_type_id[0] != b[7].license_type_id[0]);
        reveal_with_fuel(apart_each, 5);
        reveal_with_fuel(id_fresh_each, 9);
    }
    lemma_apart_each(a, b);
}

/// No licence type of `zanzibar_br_license_types` shares an identifier with one of `cro_license_types`.
proof fn lemma_zanzibar_br_license_types_apart_from_cro_license_types()
    ensures
        license_type_ids_apart(spec_zanzibar_br_license_types(), spec_cro_license_types()),
{
    let a = spec_zanzibar_br_license_types();
    let b = spec_cro_license_types();
    assert(apart_each(a, b)) by {
        reveal_strlit("ie-cro:branch-registration");
        reveal_strlit("ie-cro:designated-activity-company");
        reveal_strlit("ie-cro:icav");
        reveal_strlit("ie-cro:private-company-limited");
        reveal_strlit("ie-cro:public-limited-company");
        reveal_strlit("tz-zanzibar-br:business-license");
        reveal_strlit("tz-zanzibar-br:company-registration");
        reveal_strlit("tz-zanzibar-br:foreign-investment");
        reveal_strlit("tz-zanzibar-br:free-zone-enterprise");
        assert(a[0].license_type_id[0] != b[0].license_type_id[0]);
        assert(a[0].license_type_id[0] != b[1].license_type_id[0]);
        assert(a[0].license_type_id[0] != b[2].license_type_id[0]);
        assert(a[0].license_type_id[0] != b[3].license_type_id[0]);
        assert(a[0].license_type_id[0] != b[4].license_type_id[0]);
        assert(a[1].license_type_id[0] != b[0].license_type_id[0]);
        assert(a[1].license_type_id[0] != b[1].license_type_id[0]);
        assert(a[1].license_type_id[0] != b[2].license_type_id[0]);
        assert(a[1].license_type_id[0] != b[3].license_type_id[0]);
        assert(a[1].license_type_id[0] != b[4].license_type_id[0]);
        assert(a[2].license_type_id[0] != b[0].license_type_id[0]);
        assert(a[2].license_type_id[0] != b[1].license_type_id[0]);
        assert(a[2].license_type_id[0] != b[2].license_type_id[0]);
        assert(a[2].license_type_id[0] != b[3].license_type_id[0]);
        assert(a[2].license_type_id[0] != b[4].license_type_id[0]);
        assert(a[3].license_type_id[0] != b[0].license_type_id[0]);
        assert(a[3].license_type_id[0] != b[1].license_type_id[0]);
        assert(a[3].license_type_id[0] != b[2].license_type_id[0]);
        assert(a[3].license_type_id[0] != b[3].license_type_id[0]);
        assert(a[3].license_type_id[0] != b[4].license_type_id[0]);
        reveal_with_fuel(apart_each, 5);
        reveal_with_fuel(id_fresh_each, 6);
    }
    lemma_apart_each(a, b);
}

/// No licence type of `cbi_license_types` shares an identifier with one of `cro_license_types`.
proof fn lemma_cbi_license_types_apart_from_cro_license_types()
    ensures
        license_type_ids_apart(spec_cbi_license_types(), spec_cro_license_types()),
{
    let a = spec_cbi_license_types();
    let b = spec_cro_license_types();
    assert(apart_each(a, b)) by {
        reveal_strlit("ie-cbi:credit-institution");
        reveal_strlit("ie-cbi:e-money-institution");
        reveal_strlit("ie-cbi:fund-manager");
        reveal_strlit("ie-cbi:insurance-intermediary");
        reveal_strlit("ie-cbi:insurance-undertaking");
        reveal_strlit("ie-cbi:investment-firm");
        reveal_strlit("ie-cbi:payment-institution");
        reveal_strlit("ie-cbi:vasp");
        reveal_strlit("ie-cro:branch-registration");
        reveal_strlit("ie-cro:designated-activity-company");
        reveal_strlit("ie-cro:icav");
        reveal_strlit("ie-cro:private-company-limited");
        reveal_strlit("ie-cro:public-limited-company");
        assert(a[0].license_type_id[4] != b[0].license_type_id[4]);
        assert(a[0].license_type_id[4] != b[1].license_type_id[4]);
        assert(a[0].license_type_id[4] != b[2].license_type_id[4]);
        assert(a[0].license_type_id[4] != b[3].license_type_id[4]);
        assert(a[0].license_type_id[4] != b[4].license_type_id[4]);
        assert(a[1].license_type_id[4] != b[0].license_type_id[4]);
        assert(a[1].license_type_id[4] != b[1].license_type_id[4]);
        assert(a[1].license_type_id[4] != b[2].license_type_id[4]);
        assert(a[1].license_type_id[4] != b[3].license_type_id[4]);
        assert(a[1].license_type_id[4] != b[4].license_type_id[4]);
        assert(a[2].license_type_id[4] != b[0].license_type_id[4]);
        assert(a[2].license_type_id[4] != b[1].license_type_id[4]);
        assert(a[2].license_type_id[4] != b[2].license_type_id[4]);
        assert(a[2].license_type_id[4] != b[3].license_type_id[4]);
        assert(a[2].license_type_id[4] != b[4].license_type_id[4]);
        assert(a[3].license_type_id[4] != b[0].license_type_id[4]);
        assert(a[3].license_type_id[4] != b[1].license_type_id[4]);
        assert(a[3].license_type_id[4] != b[2].license_type_id[4]);
        assert(a[3].license_type_id[4] != b[3].license_type_id[4]);
        assert(a[3].license_type_id[4] != b[4].license_type_id[4]);
        assert(a[4].license_type_id[4] != b[0].license_type_id[4]);
        assert(a[4].license_type_id[4] != b[1].license_type_id[4]);
        assert(a[4].license_type_id[4] != b[2].license_type_id[4]);
        assert(a[4].license_type_id[4] != b[3].license_type_id[4]);
        assert(a[4].license_type_id[4] != b[4].license_type_id[4]);
        assert(a[5].license_type_id[4] != b[0].license_type_id[4]);
        assert(a[5].license_type_id[4] != b[1].license_type_id[4]);
        assert(a[5].license_type_id[4] != b[2].license_type_id[4]);
        assert(a[5].license_type_id[4] != b[3].license_type_id[4]);
        assert(a[5].license_type_id[4] != b[4].license_type_id[4]);
        assert(a[6].license_type_id[4] != b[0].license_type_id[4]);
        assert(a[6].license_type_id[4] != b[1].license_type_id[4]);
        assert(a[6].license_type_id[4] != b[2].license_type_id[4]);
        assert(a[6].license_type_id[4] != b[3].license_type_id[4]);
        assert(a[6].license_type_id[4] != b[4].license_type_id[4]);
        assert(a[7].license_type_id[4] != b[0].license_type_id[4]);
        assert(a[7].license_type_id[4] != b[1].license_type_id[4]);
        assert(a[7].license_type_id[4] != b[2].license_type_id[4]);
        assert(a[7].license_type_id[4] != b[3].license_type_id[4]);
        assert(a[7].license_type_id[4] != b[4].license_type_id[4]);
        reveal_with_fuel(apart_each, 9);
        reveal_with_fuel(id_fresh_each, 6);
    }
    lemma_apart_each(a, b);
}

/// No two licence types of `additional_license_types` share an identifier.
pub proof fn lemma_additional_license_type_ids_distinct()
    ensures
        license_type_ids_distinct(spec_additional_license_types()),
{
    lemma_bdp_license_types_ids_distinct();
    lemma_cmvm_license_types_ids_distinct();
    lemma_ojk_license_types_ids_distinct();
    lemma_bi_license_types_ids_distinct();
    lemma_sarb_license_types_ids_distinct();
    lemma_fsca_license_types_ids_distinct();
    lemma_cbe_license_types_ids_distinct();
    lemma_fra_license_types_ids_distinct();
    lemma_bot_license_types_ids_distinct();
    lemma_zanzibar_br_license_types_ids_distinct();
    lemma_cbi_license_types_ids_distinct();
    lemma_cro_license_types_ids_distinct();
    assert(spec_additional_license_types() =~= spec_bdp_license_types() + spec_cmvm_license_types() + spec_ojk_license_types() + spec_bi_license_types() + spec_sarb_license_types() + spec_fsca_license_types() + spec_cbe_license_types() + spec_fra_license_types() + spec_bot_license_types() + spec_zanzibar_br_license_types() + spec_cbi_license_types() + spec_cro_license_types());
    let acc = spec_bdp_license_types();
    lemma_bdp_license_types_apart_from_cmvm_license_types();
    let part = spec_bdp_license_types();
    lemma_ids_distinct_append(acc, spec_cmvm_license_types());
    let acc = acc + spec_cmvm_license_types();
    lemma_bdp_license_types_apart_from_ojk_license_types();
    lemma_cmvm_license_types_apart_from_ojk_license_types();
    let part = spec_bdp_license_types();
    lemma_ids_apart_append(part, spec_cmvm_license_types(), spec_ojk_license_types());
    let part = part + spec_cmvm_license_types();
    lemma_ids_distinct_append(acc, spec_ojk_license_types());
    let acc = acc + spec_ojk_license_types();
    lemma_bdp_license_types_apart_from_bi_license_types();
    lemma_cmvm_license_types_apart_from_bi_license_types();
    lemma_ojk_license_types_apart_from_bi_license_types();
    let part = spec_bdp_license_types();
    lemma_ids_apart_append(part, spec_cmvm_license_types(), spec_bi_license_types());
    let part = part + spec_cmvm_license_types();
    lemma_ids_apart_append(part, spec_ojk_license_types(), spec_bi_license_types());
    let part = part + spec_ojk_license_types();
    lemma_ids_distinct_append(acc, spec_bi_license_types());
    let acc = acc + spec_bi_license_types();
    lemma_bdp_license_types_apart_from_sarb_license_types();
    lemma_cmvm_license_types_apart_from_sarb_license_types();
    lemma_ojk_license_types_apart_from_sarb_license_types();
    lemma_bi_license_types_apart_from_sarb_license_types();
    let part = spec_bdp_license_types();
    lemma_ids_apart_append(part, spec_cmvm_license_types(), spec_sarb_license_types());
    let part = part + spec_cmvm_license_types();
    lemma_ids_apart_append(part, spec_ojk_license_types(), spec_sarb_license_types());
    let part = part + spec_ojk_license_types();
    lemma_ids_apart_append(part, spec_bi_license_types(), spec_sarb_license_types());
    let part = part + spec_bi_license_types();
    lemma_ids_distinct_append(acc, spec_sarb_license_types());
    let acc = acc + spec_sarb_license_types();
    lemma_bdp_license_types_apart_from_fsca_license_types();
    lemma_cmvm_license_types_apart_from_fsca_license_types();
    lemma_ojk_license_types_apart_from_fsca_license_types();
    lemma_bi_license_types_apart_from_fsca_license_types();
    lemma_sarb_license_types_apart_from_fsca_license_types();
    let part = spec_bdp_license_types();
    lemma_ids_apart_append(part, spec_cmvm_license_types(), spec_fsca_license_types());
    let part = part + spec_cmvm_license_types();
    lemma_ids_apart_append(part, spec_ojk_license_types(), spec_fsca_license_types());
    let part = part + spec_ojk_license_types();
    lemma_ids_apart_append(part, spec_bi_license_types(), spec_fsca_license_types());
    let part = part + spec_bi_license_types();
    lemma_ids_apart_append(part, spec_sarb_license_types(), spec_fsca_license_types());
    let part = part + spec_sarb_license_types();
    lemma_ids_distinct_append(acc, spec_fsca_license_types());
    let acc = acc + spec_fsca_license_types();
    lemma_bdp_license_types_apart_from_cbe_license_types();
    lemma_cmvm_license_types_apart_from_cbe_license_types();
    lemma_ojk_license_types_apart_from_cbe_license_types();
    lemma_bi_license_types_apart_from_cbe_license_types();
    lemma_sarb_license_types_apart_from_cbe_license_types();
    lemma_fsca_license_types_apart_from_cbe_license_types();
    let part = spec_bdp_license_types();
    lemma_ids_apart_append(part, spec_cmvm_license_types(), spec_cbe_license_types());
    let part = part + spec_cmvm_license_types();
    lemma_ids_apart_append(part, spec_ojk_license_types(), spec_cbe_license_types());
    let part = part + spec_ojk_license_types();
    lemma_ids_apart_append(part, spec_bi_license_types(), spec_cbe_license_types());
    let part = part + spec_bi_license_types();
    lemma_ids_apart_append(part, spec_sarb_license_types(), spec_cbe_license_types());
    let part = part + spec_sarb_license_types();
    lemma_ids_apart_append(part, spec_fsca_license_types(), spec_cbe_license_types());
    let part = part + spec_fsca_license_types();
    lemma_ids_distinct_append(acc, spec_cbe_license_types());
    let acc = acc + spec_cbe_license_types();
    lemma_bdp_license_types_apart_from_fra_license_types();
    lemma_cmvm_license_types_apart_from_fra_license_types();
    lemma_ojk_license_types_apart_from_fra_license_types();
    lemma_bi_license_types_apart_from_fra_license_types();
    lemma_sarb_license_types_apart_from_fra_license_types();
    lemma_fsca_license_types_apart_from_fra_license_types();
    lemma_cbe_license_types_apart_from_fra_license_types();
    let part = spec_bdp_license_types();
    lemma_ids_apart_append(part, spec_cmvm_license_types(), spec_fra_license_types());
    let part = part + spec_cmvm_license_types();
    lemma_ids_apart_append(part, spec_ojk_license_types(), spec_fra_license_types());
    let part = part + spec_ojk_license_types();
    lemma_ids_apart_append(part, spec_bi_license_types(), spec_fra_license_types());
    let part = part + spec_bi_license_types();
    lemma_ids_apart_append(part, spec_sarb_license_types(), spec_fra_license_types());
    let part = part + spec_sarb_license_types();
    lemma_ids_apart_append(part, spec_fsca_license_types(), spec_fra_license_types());
    let part = part + spec_fsca_license_types();
    lemma_ids_apart_append(part, spec_cbe_license_types(), spec_fra_license_types());
    let part = part + spec_cbe_license_types();
    lemma_ids_distinct_append(acc, spec_fra_license_types());
    let acc = acc + spec_fra_license_types();
    lemma_bdp_license_types_apart_from_bot_license_types();
    lemma_cmvm_license_types_apart_from_bot_license_types();
    lemma_ojk_license_types_apart_from_bot_license_types();
    lemma_bi_license_types_apart_from_bot_license_types();
    lemma_sarb_license_types_apart_from_bot_license_types();
    lemma_fsca_license_types_apart_from_bot_license_types();
    lemma_cbe_license_types_apart_from_bot_license_types();
    lemma_fra_license_types_apart_from_bot_license_types();
    let part = spec_bdp_license_types();
    lemma_ids_apart_append(part, spec_cmvm_license_types(), spec_bot_license_types());
    let part = part + spec_cmvm_license_types();
    lemma_ids_apart_append(part, spec_ojk_license_types(), spec_bot_license_types());
    let part = part + spec_ojk_license_types();
    lemma_ids_apart_append(part, spec_bi_license_types(), spec_bot_license_types());
    let part = part + spec_bi_license_types();
    lemma_ids_apart_append(part, spec_sarb_license_types(), spec_bot_license_types());
    let part = part + spec_sarb_license_types();
    lemma_ids_apart_append(part, spec_fsca_license_types(), spec_bot_license_types());
    let part = part + spec_fsca_license_types();
    lemma_ids_apart_append(part, spec_cbe_license_types(), spec_bot_license_types());
    let part = part + spec_cbe_license_types();
    lemma_ids_apart_append(part, spec_fra_license_types(), spec_bot_license_types());
    let part = part + spec_fra_license_types();
    lemma_ids_distinct_append(acc, spec_bot_license_types());
    let acc = acc + spec_bot_license_types();
    lemma_bdp_license_types_apart_from_zanzibar_br_license_types();
    lemma_cmvm_license_types_apart_from_zanzibar_br_license_types();
    lemma_ojk_license_types_apart_from_zanzibar_br_license_types();
    lemma_bi_license_types_apart_from_zanzibar_br_license_types();
    lemma_sarb_license_types_apart_from_zanzibar_br_license_types();
    lemma_fsca_license_types_apart_from_zanzibar_br_license_types();
    lemma_cbe_license_types_apart_from_zanzibar_br_license_types();
    lemma_fra_license_types_apart_from_zanzibar_br_license_types();
    lemma_bot_license_types_apart_from_zanzibar_br_license_types();
    let part = spec_bdp_license_types();
    lemma_ids_apart_append(part, spec_cmvm_license_types(), spec_zanzibar_br_license_types());
    let part = part + spec_cmvm_license_types();
    lemma_ids_apart_append(part, spec_ojk_license_types(), spec_zanzibar_br_license_types());
    let part = part + spec_ojk_license_types();
    lemma_ids_apart_append(part, spec_bi_license_types(), spec_zanzibar_br_license_types());
    let part = part + spec_bi_license_types();
    lemma_ids_apart_append(part, spec_sarb_license_types(), spec_zanzibar_br_license_types());
    let part = part + spec_sarb_license_types();
    lemma_ids_apart_append(part, spec_fsca_license_types(), spec_zanzibar_br_license_types());
    let part = part + spec_fsca_license_types();
    lemma_ids_apart_append(part, spec_cbe_license_types(), spec_zanzibar_br_license_types());
    let part = part + spec_cbe_license_types();
    lemma_ids_apart_append(part, spec_fra_license_types(), spec_zanzibar_br_license_types());
    let part = part + spec_fra_license_types();
    lemma_ids_apart_append(part, spec_bot_license_types(), spec_zanzibar_br_license_types());
    let part = part + spec_bot_license_types();
    lemma_ids_distinct_append(acc, spec_zanzibar_br_license_types());
    let acc = acc + spec_zanzibar_br_license_types();
    lemma_bdp_license_types_apart_from_cbi_license_types();
    lemma_cmvm_license_types_apart_from_cbi_license_types();
    lemma_ojk_license_types_apart_from_cbi_license_types();
    lemma_bi_license_types_apart_from_cbi_license_types();
    lemma_sarb_license_types_apart_from_cbi_license_types();
    lemma_fsca_license_types_apart_from_cbi_license_types();
    lemma_cbe_license_types_apart_from_cbi_license_types();
    lemma_fra_license_types_apart_from_cbi_license_types();
    lemma_bot_license_types_apart_from_cbi_license_types();
    lemma_zanzibar_br_license_types_apart_from_cbi_license_types();
    let part = spec_bdp_license_types();
    lemma_ids_apart_append(part, spec_cmvm_license_types(), spec_cbi_license_types());
    let part = part + spec_cmvm_license_types();
    lemma_ids_apart_append(part, spec_ojk_license_types(), spec_cbi_license_types());
    let part = part + spec_ojk_license_types();
    lemma_ids_apart_append(part, spec_bi_license_types(), spec_cbi_license_types());
    let part = part + spec_bi_license_types();
    lemma_ids_apart_append(part, spec_sarb_license_types(), spec_cbi_license_types());
    let part = part + spec_sarb_license_types();
    lemma_ids_apart_append(part, spec_fsca_license_types(), spec_cbi_license_types());
    let part = part + spec_fsca_license_types();
    lemma_ids_apart_append(part, spec_cbe_license_types(), spec_cbi_license_types());
    let part = part + spec_cbe_license_types();
    lemma_ids_apart_append(part, spec_fra_license_types(), spec_cbi_license_types());
    let part = part + spec_fra_license_types();
    lemma_ids_apart_append(part, spec_bot_license_types(), spec_cbi_license_types());
    let part = part + spec_bot_license_types();
    lemma_ids_apart_append(part, spec_zanzibar_br_license_types(), spec_cbi_license_types());
    let part = part + spec_zanzibar_br_license_types();
    lemma_ids_distinct_append(acc, spec_cbi_license_types());
    let acc = acc + spec_cbi_license_types();
    lemma_bdp_license_types_apart_from_cro_license_types();
    lemma_cmvm_license_types_apart_from_cro_license_types();
    lemma_ojk_license_types_apart_from_cro_license_types();
    lemma_bi_license_types_apart_from_cro_license_types();
    lemma_sarb_license_types_apart_from_cro_license_types();
    lemma_fsca_license_types_apart_from_cro_license_types();
    lemma_cbe_license_types_apart_from_cro_license_types();
    lemma_fra_license_types_apart_from_cro_license_types();
    lemma_bot_license_types_apart_from_cro_license_types();
    lemma_zanzibar_br_license_types_apart_from_cro_license_types();
    lemma_cbi_license_types_apart_from_cro_license_types();
    let part = spec_bdp_license_types();
    lemma_ids_apart_append(part, spec_cmvm_license_types(), spec_cro_license_types());
    let part = part + spec_cmvm_license_types();
    lemma_ids_apart_append(part, spec_ojk_license_types(), spec_cro_license_types());
    let part = part + spec_ojk_license_types();
    lemma_ids_apart_append(part, spec_bi_license_types(), spec_cro_license_types());
    let part = part + spec_bi_license_types();
    lemma_ids_apart_append(part, spec_sarb_license_types(), spec_cro_license_types());
    let part = part + spec_sarb_license_types();
    lemma_ids_apart_append(part, spec_fsca_license_types(), spec_cro_license_types());
    let part = part + spec_fsca_license_types();
    lemma_ids_apart_append(part, spec_cbe_license_types(), spec_cro_license_types());
    let part = part + spec_cbe_license_types();
    lemma_ids_apart_append(part, spec_fra_license_types(), spec_cro_license_types());
    let part = part + spec_fra_license_types();
    lemma_ids_apart_append(part, spec_bot_license_types(), spec_cro_license_types());
    let part = part + spec_bot_license_types();
    lemma_ids_apart_append(part, spec_zanzibar_br_license_types(), spec_cro_license_types());
    let part = part + spec_zanzibar_br_license_types();
    lemma_ids_apart_append(part, spec_cbi_license_types(), spec_cro_license_types());
    let part = part + spec_cbi_license_types();
    lemma_ids_distinct_append(acc, spec_cro_license_types());
    let acc = acc + spec_cro_license_types();
    assert(spec_additional_license_types() == acc);
}

/// Each licence-type identifier of `bdp_license_types` starts with its regulator's
/// identifier and a colon.
proof fn lemma_bdp_license_types_prefixed()
    ensures
        license_type_ids_prefixed(spec_bdp_license_types()),
{
    let ts = spec_bdp_license_types();
    assert(license_type_id_prefixed(ts[0])) by {
        reveal_strlit("pt-bdp:credit-institution");
        reveal_strlit("pt-bdp");
        reveal_strlit(":");
        assert(ts[0].license_type_id.subrange(0, (ts[0].regulator_id + ":"@).len() as int) =~= ts[0].regulator_id + ":"@);
    }
    assert(license_type_id_prefixed(ts[1])) by {
        reveal_strlit("pt-bdp:payment-institution");
        reveal_strlit("pt-bdp");
        reveal_strlit(":");
        assert(ts[1].license_type_id.subrange(0, (ts[1].regulator_id + ":"@).len() as int) =~= ts[1].regulator_id + ":"@);
    }
    assert(license_type_id_prefixed(ts[2])) by {
        reveal_strlit("pt-bdp:e-money-institution");
        reveal_strlit("pt-bdp");
        reveal_strlit(":");
        assert(ts[2].license_type_id.subrange(0, (ts[2].regulator_id + ":"@).len() as int) =~= ts[2].regulator_id + ":"@);
    }
    assert(license_type_id_prefixed(ts[3])) by {
        reveal_strlit("pt-bdp:vasp");
        reveal_strlit("pt-bdp");
        reveal_strlit(":");
        assert(ts[3].license_type_id.subrange(0, (ts[3].regulator_id + ":"@).len() as int) =~= ts[3].regulator_id + ":"@);
    }
    assert(license_type_id_prefixed(ts[4])) by {
        reveal_strlit("pt-bdp:forex-dealer");
        reveal_strlit("pt-bdp");
        reveal_strlit(":");
        assert(ts[4].license_type_id.subrange(0, (ts[4].regulator_id + ":"@).len() as int) =~= ts[4].regulator_id + ":"@);
    }
    assert(prefixed_each(ts)) by {
        reveal_with_fuel(prefixed_each, 6);
    }
    lemma_prefixed_each(ts);
}

/// Each licence-type identifier of `cmvm_license_types` starts with its regulator's
/// identifier and a colon.
proof fn lemma_cmvm_license_types_prefixed()
    ensures
        license_type_ids_prefixed(spec_cmvm_license_types()),
{
    let ts = spec_cmvm_license_types();
    assert(license_type_id_prefixed(ts[0])) by {
        reveal_strlit("pt-cmvm:investment-firm");
        reveal_strlit("pt-cmvm");
        reveal_strlit(":");
        assert(ts[0].license_type_id.subrange(0, (ts[0].regulator_id + ":"@).len() as int) =~= ts[0].regulator_id + ":"@);
    }
    assert(license_type_id_prefixed(ts[1])) by {
        reveal_strlit("pt-cmvm:fund-manager");
        reveal_strlit("pt-cmvm");
        reveal_strlit(":");
        assert(ts[1].license_type_id.subrange(0, (ts[1].regulator_id + ":"@).len() as int) =~= ts[1].regulator_id + ":"@);
    }
    assert(license_type_id_prefixed(ts[2])) by {
        reveal_strlit("pt-cmvm:venture-capital");
        reveal_strlit("pt-cmvm");
        reveal_strlit(":");
        assert(ts[2].license_type_id.subrange(0, (ts[2].regulator_id + ":"@).len() as int) =~= ts[2].regulator_id + ":"@);
    }
    assert(license_type_id_prefixed(ts[3])) by {
        reveal_strlit("pt-cmvm:financial-intermediary");
        reveal_strlit("pt-cmvm");
        reveal_strlit(":");
        assert(ts[3].license_type_id.subrange(0, (ts[3].regulator_id + ":"@).len() as int) =~= ts[3].regulator_id + ":"@);
    }
    assert(license_type_id_prefixed(ts[4])) by {
        reveal_strlit("pt-cmvm:crowdfunding-platform");
        reveal_strlit("pt-cmvm");
        reveal_strlit(":");
        assert(ts[4].license_type_id.subrange(0, (ts[4].regulator_id + ":"@).len() as int) =~= ts[4].regulator_id + ":"@);
    }
    assert(prefixed_each(ts)) by {
        reveal_with_fuel(prefixed_each, 6);
    }
    lemma_prefixed_each(ts);
}

/// Each licence-type identifier of `ojk_license_types` starts with its regulator's
/// identifier and a colon.
proof fn lemma_ojk_license_types_prefixed()
    ensures
        license_type_ids_prefixed(spec_ojk_license_types()),
{
    let ts = spec_ojk_license_types();
    assert(license_type_id_prefixed(ts[0])) by {
        reveal_strlit("id-ojk:commercial-bank");
        reveal_strlit("id-ojk");
        reveal_strlit(":");
        assert(ts[0].license_type_id.subrange(0, (ts[0].regulator_id + ":"@).len() as int) =~= ts[0].regulator_id + ":"@);
    }
    assert(license_type_id_prefixed(ts[1])) by {
        reveal_strlit("id-ojk:insurance");
        reveal_strlit("id-ojk");
        reveal_strlit(":");
        assert(ts[1].license_type_id.subrange(0, (ts[1].regulator_id + ":"@).len() as int) =~= ts[1].regulator_id + ":"@);
    }
    assert(license_type_id_prefixed(ts[2])) by {
        reveal_strlit("id-ojk:securities-company");
        reveal_strlit("id-ojk");
        reveal_strlit(":");
        assert(ts[2].license_type_id.subrange(0, (ts[2].regulator_id + ":"@).len() as int) =~= ts[2].regulator_id + ":"@);
    }
    assert(license_type_id_prefixed(ts[3])) by {
        reveal_strlit("id-ojk:fintech-lending");
        reveal_strlit("id-ojk");
        reveal_strlit(":");
        assert(ts[3].license_type_id.subrange(0, (ts[3].regulator_id + ":"@).len() as int) =~= ts[3].regulator_id + ":"@);
    }
    assert(license_type_id_prefixed(ts[4])) by {
        reveal_strlit("id-ojk:multifinance");
        reveal_strlit("id-ojk");
        reveal_strlit(":");
        assert(ts[4].license_type_id.subrange(0, (ts[4].regulator_id + ":"@).len() as int) =~= ts[4].regulator_id + ":"@);
    }
    assert(license_type_id_prefixed(ts[5])) by {
        reveal_strlit("id-ojk:digital-bank");
        reveal_strlit("id-ojk");
        reveal_strlit(":");
        assert(ts[5].license_type_id.subrange(0, (ts[5].regulator_id + ":"@).len() as int) =~= ts[5].regulator_id + ":"@);
    }
    assert(prefixed_each(ts)) by {
        reveal_with_fuel(prefixed_each, 7);
    }
    lemma_prefixed_each(ts);
}

/// Each licence-type identifier of `bi_license_types` starts with its regulator's
/// identifier and a colon.
proof fn lemma_bi_license_types_prefixed()
    ensures
        license_type_ids_prefixed(spec_bi_license_types()),
{
    let ts = spec_bi_license_types();
    assert(license_type_id_prefixed(ts[0])) by {
        reveal_strlit("id-bi:payment-system-provider");
        reveal_strlit("id-bi");
        reveal_strlit(":");
        assert(ts[0].license_type_id.subrange(0, (ts[0].regulator_id + ":"@).len() as int) =~= ts[0].regulator_id + ":"@);
    }
    assert(license_type_id_prefixed(ts[1])) by {
        reveal_strlit("id-bi:e-money-issuer");
        reveal_strlit("id-bi");
        reveal_strlit(":");
        assert(ts[1].license_type_id.subrange(0, (ts[1].regulator_id + ":"@).len() as int) =~= ts[1].regulator_id + ":"@);
    }
    assert(license_type_id_prefixed(ts[2])) by {
        reveal_strlit("id-bi:payment-gateway");
        reveal_strlit("id-bi");
        reveal_strlit(":");
        assert(ts[2].license_type_id.subrange(0, (ts[2].regulator_id + ":"@).len() as int) =~= ts[2].regulator_id + ":"@);
    }
    assert(license_type_id_prefixed(ts[3])) by {
        reveal_strlit("id-bi:money-transfer");
        reveal_strlit("id-bi");
        reveal_strlit(":");
        assert(ts[3].license_type_id.subrange(0, (ts[3].regulator_id + ":"@).len() as int) =~= ts[3].regulator_id + ":"@);
    }
    assert(prefixed_each(ts)) by {
        reveal_with_fuel(prefixed_each, 5);
    }
    lemma_prefixed_each(ts);
}

/// Each licence-type identifier of `sarb_license_types` starts with its regulator's
/// identifier and a colon.
proof fn lemma_sarb_license_types_prefixed()
    ensures
        license_type_ids_prefixed(spec_sarb_license_types()),
{
    let ts = spec_sarb_license_types();
    assert(license_type_id_prefixed(ts[0])) by {
        reveal_strlit("za-sarb:banking");
        reveal_strlit("za-sarb");
        reveal_strlit(":");
        assert(ts[0].license_type_id.subrange(0, (ts[0].regulator_id + ":"@).len() as int) =~= ts[0].regulator_id + ":"@);
    }
    assert(license_type_id_prefixed(ts[1])) by {
        reveal_strlit("za-sarb:mutual-bank");
        reveal_strlit("za-sarb");
        reveal_strlit(":");
        assert(ts[1].license_type_id.subrange(0, (ts[1].regulator_id + ":"@).len() as int) =~= ts[1].regulator_id + ":"@);
    }
    assert(license_type_id_prefixed(ts[2])) by {
        reveal_strlit("za-sarb:payment-system");
        reveal_strlit("za-sarb");
        reveal_strlit(":");
        assert(ts[2].license_type_id.subrange(0, (ts[2].regulator_id + ":"@).len() as int) =~= ts[2].regulator_id + ":"@);
    }
    assert(license_type_id_prefixed(ts[3])) by {
        reveal_strlit("za-sarb:adla");
        reveal_strlit("za-sarb");
        reveal_strlit(":");
        assert(ts[3].license_type_id.subrange(0, (ts[3].regulator_id + ":"@).len() as int) =~= ts[3].regulator_id + ":"@);
    }
    assert(license_type_id_prefixed(ts[4])) by {
        reveal_strlit("za-sarb:casp");
        reveal_strlit("za-sarb");
        reveal_strlit(":");
        assert(ts[4].license_type_id.subrange(0, (ts[4].regulator_id + ":"@).len() as int) =~= ts[4].regulator_id + ":"@);
    }
    assert(prefixed_each(ts)) by {
        reveal_with_fuel(prefixed_each, 6);
    }
    lemma_prefixed_each(ts);
}

/// Each licence-type identifier of `fsca_license_types` starts with its regulator's
/// identifier and a colon.
proof fn lemma_fsca_license_types_prefixed()
    ensures
        license_type_ids_prefixed(spec_fsca_license_types()),
{
    let ts = spec_fsca_license_types();
    assert(license_type_id_prefixed(ts[0])) by {
        reveal_strlit("za-fsca:fsp");
        reveal_strlit("za-fsca");
        reveal_strlit(":");
        assert(ts[0].license_type_id.subrange(0, (ts[0].regulator_id + ":"@).len() as int) =~= ts[0].regulator_id + ":"@);
    }
    assert(license_type_id_prefixed(ts[1])) by {
        reveal_strlit("za-fsca:insurance");
        reveal_strlit("za-fsca");
        reveal_strlit(":");
        assert(ts[1].license_type_id.subrange(0, (ts[1].regulator_id + ":"@).len() as int) =~= ts[1].regulator_id + ":"@);
    }
    assert(license_type_id_prefixed(ts[2])) by {
        reveal_strlit("za-fsca:collective-investment-scheme");
        reveal_strlit("za-fsca");
        reveal_strlit(":");
        assert(ts[2].license_type_id.subrange(0, (ts[2].regulator_id + ":"@).len() as int) =~= ts[2].regulator_id + ":"@);
    }
    assert(license_type_id_prefixed(ts[3])) by {
        reveal_strlit("za-fsca:market-infrastructure");
        reveal_strlit("za-fsca");
        reveal_strlit(":");
        assert(ts[3].license_type_id.subrange(0, (ts[3].regulator_id + ":"@).len() as int) =~= ts[3].regulator_id + ":"@);
    }
    assert(license_type_id_prefixed(ts[4])) by {
        reveal_strlit("za-fsca:retirement-fund");
        reveal_strlit("za-fsca");
        reveal_strlit(":");
        assert(ts[4].license_type_id.subrange(0, (ts[4].regulator_id + ":"@).len() as int) =~= ts[4].regulator_id + ":"@);
    }
    assert(prefixed_each(ts)) by {
        reveal_with_fuel(prefixed_each, 6);
    }
    lemma_prefixed_each(ts);
}

/// Each licence-type identifier of `cbe_license_types` starts with its regulator's
/// identifier and a colon.
proof fn lemma_cbe_license_types_prefixed()
    ensures
        license_type_ids_prefixed(spec_cbe_license_types()),
{
    let ts = spec_cbe_license_types();
    assert(license_type_id_prefixed(ts[0])) by {
        reveal_strlit("eg-cbe:commercial-bank");
        reveal_strlit("eg-cbe");
        reveal_strlit(":");
        assert(ts[0].license_type_id.subrange(0, (ts[0].regulator_id + ":"@).len() as int) =~= ts[0].regulator_id + ":"@);
    }
    assert(license_type_id_prefixed(ts[1])) by {
        reveal_strlit("eg-cbe:islamic-bank");
        reveal_strlit("eg-cbe");
        reveal_strlit(":");
        assert(ts[1].license_type_id.subrange(0, (ts[1].regulator_id + ":"@).len() as int) =~= ts[1].regulator_id + ":"@);
    }
    assert(license_type_id_prefixed(ts[2])) by {
        reveal_strlit("eg-cbe:payment-service-provider");
        reveal_strlit("eg-cbe");
        reveal_strlit(":");
        assert(ts[2].license_type_id.subrange(0, (ts[2].regulator_id + ":"@).len() as int) =~= ts[2].regulator_id + ":"@);
    }
    assert(license_type_id_prefixed(ts[3])) by {
        reveal_strlit("eg-cbe:fintech");
        reveal_strlit("eg-cbe");
        reveal_strlit(":");
        assert(ts[3].license_type_id.subrange(0, (ts[3].regulator_id + ":"@).len() as int) =~= ts[3].regulator_id + ":"@);
    }
    assert(license_type_id_prefixed(ts[4])) by {
        reveal_strlit("eg-cbe:money-exchange");
        reveal_strlit("eg-cbe");
        reveal_strlit(":");
        assert(ts[4].license_type_id.subrange(0, (ts[4].regulator_id + ":"@).len() as int) =~= ts[4].regulator_id + ":"@);
    }
    assert(prefixed_each(ts)) by {
        reveal_with_fuel(prefixed_each, 6);
    }
    lemma_prefixed_each(ts);
}

/// Each licence-type identifier of `fra_license_types` starts with its regulator's
/// identifier and a colon.
proof fn lemma_fra_license_types_prefixed()
    ensures
        license_type_ids_prefixed(spec_fra_license_types()),
{
    let ts = spec_fra_license_types();
    assert(license_type_id_prefixed(ts[0])) by {
        reveal_strlit("eg-fra:securities-brokerage");
        reveal_strlit("eg-fra");
        reveal_strlit(":");
        assert(ts[0].license_type_id.subrange(0, (ts[0].regulator_id + ":"@).len() as int) =~= ts[0].regulator_id + ":"@);
    }
    assert(license_type_id_prefixed(ts[1])) by {
        reveal_strlit("eg-fra:insurance");
        reveal_strlit("eg-fra");
        reveal_strlit(":");
        assert(ts[1].license_type_id.subrange(0, (ts[1].regulator_id + ":"@).len() as int) =~= ts[1].regulator_id + ":"@);
    }
    assert(license_type_id_prefixed(ts[2])) by {
        reveal_strlit("eg-fra:microfinance");
        reveal_strlit("eg-fra");
        reveal_strlit(":");
        assert(ts[2].license_type_id.subrange(0, (ts[2].regulator_id + ":"@).len() as int) =~= ts[2].regulator_id + ":"@);
    }
    assert(license_type_id_prefixed(ts[3])) by {
        reveal_strlit("eg-fra:leasing");
        reveal_strlit("eg-fra");
        reveal_strlit(":");
        assert(ts[3].license_type_id.subrange(0, (ts[3].regulator_id + ":"@).len() as int) =~= ts[3].regulator_id + ":"@);
    }
    assert(license_type_id_prefixed(ts[4])) by {
        reveal_strlit("eg-fra:factoring");
        reveal_strlit("eg-fra");
        reveal_strlit(":");
        assert(ts[4].license_type_id.subrange(0, (ts[4].regulator_id + ":"@).len() as int) =~= ts[4].regulator_id + ":"@);
    }
    assert(prefixed_each(ts)) by {
        reveal_with_fuel(prefixed_each, 6);
    }
    lemma_prefixed_each(ts);
}

/// Each licence-type identifier of `bot_license_types` starts with its regulator's
/// identifier and a colon.
proof fn lemma_bot_license_types_prefixed()
    ensures
        license_type_ids_prefixed(spec_bot_license_types()),
{
    let ts = spec_bot_license_types();
    assert(license_type_id_prefixed(ts[0])) by {
        reveal_strlit("tz-bot:commercial-bank");
        reveal_strlit("tz-bot");
        reveal_strlit(":");
        assert(ts[0].license_type_id.subrange(0, (ts[0].regulator_id + ":"@).len() as int) =~= ts[0].regulator_id + ":"@);
    }
    assert(license_type_id_prefixed(ts[1])) by {
        reveal_strlit("tz-bot:microfinance");
        reveal_strlit("tz-bot");
        reveal_strlit(":");
        assert(ts[1].license_type_id.subrange(0, (ts[1].regulator_id + ":"@).len() as int) =~= ts[1].regulator_id + ":"@);
    }
    assert(license_type_id_prefixed(ts[2])) by {
        reveal_strlit("tz-bot:mobile-money");
        reveal_strlit("tz-bot");
        reveal_strlit(":");
        assert(ts[2].license_type_id.subrange(0, (ts[2].regulator_id + ":"@).len() as int) =~= ts[2].regulator_id + ":"@);
    }
    assert(license_type_id_prefixed(ts[3])) by {
        reveal_strlit("tz-bot:forex-bureau");
        reveal_strlit("tz-bot");
        reveal_strlit(":");
        assert(ts[3].license_type_id.subrange(0, (ts[3].regulator_id + ":"@).len() as int) =~= ts[3].regulator_id + ":"@);
    }
    assert(license_type_id_prefixed(ts[4])) by {
        reveal_strlit("tz-bot:payment-system");
        reveal_strlit("tz-bot");
        reveal_strlit(":");
        assert(ts[4].license_type_id.subrange(0, (ts[4].regulator_id + ":"@).len() as int) =~= ts[4].regulator_id + ":"@);
    }
    assert(prefixed_each(ts)) by {
        reveal_with_fuel(prefixed_each, 6);
    }
    lemma_prefixed_each(ts);
}

/// Each licence-type identifier of `zanzibar_br_license_types` starts with its regulator's
/// identifier and a colon.
proof fn lemma_zanzibar_br_license_types_prefixed()
    ensures
        license_type_ids_prefixed(spec_zanzibar_br_license_types()),
{
    let ts = spec_zanzibar_br_license_types();
    assert(license_type_id_prefixed(ts[0])) by {
        reveal_strlit("tz-zanzibar-br:business-license");
        reveal_strlit("tz-zanzibar-br");
        reveal_strlit(":");
        assert(ts[0].license_type_id.subrange(0, (ts[0].regulator_id + ":"@).len() as int) =~= ts[0].regulator_id + ":"@);
    }
    assert(license_type_id_prefixed(ts[1])) by {
        reveal_strlit("tz-zanzibar-br:company-registration");
        reveal_strlit("tz-zanzibar-br");
        reveal_strlit(":");
        assert(ts[1].license_type_id.subrange(0, (ts[1].regulator_id + ":"@).len() as int) =~= ts[1].regulator_id + ":"@);
    }
    assert(license_type_id_prefixed(ts[2])) by {
        reveal_strlit("tz-zanzibar-br:foreign-investment");
        reveal_strlit("tz-zanzibar-br");
        reveal_strlit(":");
        assert(ts[2].license_type_id.subrange(0, (ts[2].regulator_id + ":"@).len() as int) =~= ts[2].regulator_id + ":"@);
    }
    assert(license_type_id_prefixed(ts[3])) by {
        reveal_strlit("tz-zanzibar-br:free-zone-enterprise");
        reveal_strlit("tz-zanzibar-br");
        reveal_strlit(":");
        assert(ts[3].license_type_id.subrange(0, (ts[3].regulator_id + ":"@).len() as int) =~= ts[3].regulator_id + ":"@);
    }
    assert(prefixed_each(ts)) by {
        reveal_with_fuel(prefixed_each, 5);
    }
    lemma_prefixed_each(ts);
}

/// Each licence-type identifier of `cbi_license_types` starts with its regulator's
/// identifier and a colon.
proof fn lemma_cbi_license_types_prefixed()
    ensures
        license_type_ids_prefixed(spec_cbi_license_types()),
{
    let ts = spec_cbi_license_types();
    assert(license_type_id_prefixed(ts[0])) by {
        reveal_strlit("ie-cbi:credit-institution");
        reveal_strlit("ie-cbi");
        reveal_strlit(":");
        assert(ts[0].license_type_id.subrange(0, (ts[0].regulator_id + ":"@).len() as int) =~= ts[0].regulator_id + ":"@);
    }
    assert(license_type_id_prefixed(ts[1])) by {
        reveal_strlit("ie-cbi:insurance-undertaking");
        reveal_strlit("ie-cbi");
        reveal_strlit(":");
        assert(ts[1].license_type_id.subrange(0, (ts[1].regulator_id + ":"@).len() as int) =~= ts[1].regulator_id + ":"@);
    }
    assert(license_type_id_prefixed(ts[2])) by {
        reveal_strlit("ie-cbi:investment-firm");
        reveal_strlit("ie-cbi");
        reveal_strlit(":");
        assert(ts[2].license_type_id.subrange(0, (ts[2].regulator_id + ":"@).len() as int) =~= ts[2].regulator_id + ":"@);
    }
    assert(license_type_id_prefixed(ts[3])) by {
        reveal_strlit("ie-cbi:fund-manager");
        reveal_strlit("ie-cbi");
        reveal_strlit(":");
        assert(ts[3].license_type_id.subrange(0, (ts[3].regulator_id + ":"@).len() as int) =~= ts[3].regulator_id + ":"@);
    }
    assert(license_type_id_prefixed(ts[4])) by {
        reveal_strlit("ie-cbi:payment-institution");
        reveal_strlit("ie-cbi");
        reveal_strlit(":");
        assert(ts[4].license_type_id.subrange(0, (ts[4].regulator_id + ":"@).len() as int) =~= ts[4].regulator_id + ":"@);
    }
    assert(license_type_id_prefixed(ts[5])) by {
        reveal_strlit("ie-cbi:e-money-institution");
        reveal_strlit("ie-cbi");
        reveal_strlit(":");
        assert(ts[5].license_type_id.subrange(0, (ts[5].regulator_id + ":"@).len() as int) =~= ts[5].regulator_id + ":"@);
    }
    assert(license_type_id_prefixed(ts[6])) by {
        reveal_strlit("ie-cbi:vasp");
        reveal_strlit("ie-cbi");
        reveal_strlit(":");
        assert(ts[6].license_type_id.subrange(0, (ts[6].regulator_id + ":"@).len() as int) =~= ts[6].regulator_id + ":"@);
    }
    assert(license_type_id_prefixed(ts[7])) by {
        reveal_strlit("ie-cbi:insurance-intermediary");
        reveal_strlit("ie-cbi");
        reveal_strlit(":");
        assert(ts[7].license_type_id.subrange(0, (ts[7].regulator_id + ":"@).len() as int) =~= ts[7].regulator_id + ":"@);
    }
    assert(prefixed_each(ts)) by {
        reveal_with_fuel(prefixed_each, 9);
    }
    lemma_prefixed_each(ts);
}

/// Each licence-type identifier of `cro_license_types` starts with its regulator's
/// identifier and a colon.
proof fn lemma_cro_license_types_prefixed()
    ensures
        license_type_ids_prefixed(spec_cro_license_types()),
{
    let ts = spec_cro_license_types();
    assert(license_type_id_prefixed(ts[0])) by {
        reveal_strlit("ie-cro:private-company-limited");
        reveal_strlit("ie-cro");
        reveal_strlit(":");
        assert(ts[0].license_type_id.subrange(0, (ts[0].regulator_id + ":"@).len() as int) =~= ts[0].regulator_id + ":"@);
    }
    assert(license_type_id_prefixed(ts[1])) by {
        reveal_strlit("ie-cro:designated-activity-company");
        reveal_strlit("ie-cro");
        reveal_strlit(":");
        assert(ts[1].license_type_id.subrange(0, (ts[1].regulator_id + ":"@).len() as int) =~= ts[1].regulator_id + ":"@);
    }
    assert(license_type_id_prefixed(ts[2])) by {
        reveal_strlit("ie-cro:public-limited-company");
        reveal_strlit("ie-cro");
        reveal_strlit(":");
        assert(ts[2].license_type_id.subrange(0, (ts[2].regulator_id + ":"@).len() as int) =~= ts[2].regulator_id + ":"@);
    }
    assert(license_type_id_prefixed(ts[3])) by {
        reveal_strlit("ie-cro:branch-registration");
        reveal_strlit("ie-cro");
        reveal_strlit(":");
        assert(ts[3].license_type_id.subrange(0, (ts[3].regulator_id + ":"@).len() as int) =~= ts[3].regulator_id + ":"@);
    }
    assert(license_type_id_prefixed(ts[4])) by {
        reveal_strlit("ie-cro:icav");
        reveal_strlit("ie-cro");
        reveal_strlit(":");
        assert(ts[4].license_type_id.subrange(0, (ts[4].regulator_id + ":"@).len() as int) =~= ts[4].regulator_id + ":"@);
    }
    assert(prefixed_each(ts)) by {
        reveal_with_fuel(prefixed_each, 6);
    }
    lemma_prefixed_each(ts);
}

/// Every licence-type identifier of the additional-jurisdiction catalog starts with the
/// identifier of the regulator that grants it, followed by a colon.
pub proof fn lemma_additional_license_types_prefixed()
    ensures
        license_type_ids_prefixed(spec_additional_license_types()),
{
    lemma_bdp_license_types_prefixed();
    lemma_cmvm_license_types_prefixed();
    lemma_ojk_license_types_prefixed();
    lemma_bi_license_types_prefixed();
    lemma_sarb_license_types_prefixed();
    lemma_fsca_license_types_prefixed();
    lemma_cbe_license_types_prefixed();
    lemma_fra_license_types_prefixed();
    lemma_bot_license_types_prefixed();
    lemma_zanzibar_br_license_types_prefixed();
    lemma_cbi_license_types_prefixed();
    lemma_cro_license_types_prefixed();
    lemma_prefixed_append(spec_bdp_license_types(), spec_cmvm_license_types());
    lemma_prefixed_append(spec_bdp_license_types() + spec_cmvm_license_types(), spec_ojk_license_types());
    lemma_prefixed_append(spec_bdp_license_types() + spec_cmvm_license_types() + spec_ojk_license_types(), spec_bi_license_types());
    lemma_prefixed_append(spec_bdp_license_types() + spec_cmvm_license_types() + spec_ojk_license_types() + spec_bi_license_types(), spec_sarb_license_types());
    lemma_prefixed_append(spec_bdp_license_types() + spec_cmvm_license_types() + spec_ojk_license_types() + spec_bi_license_types() + spec_sarb_license_types(), spec_fsca_license_types());
    lemma_prefixed_append(spec_bdp_license_types() + spec_cmvm_license_types() + spec_ojk_license_types() + spec_bi_license_types() + spec_sarb_license_types() + spec_fsca_license_types(), spec_cbe_license_types());
    lemma_prefixed_append(spec_bdp_license_types() + spec_cmvm_license_types() + spec_ojk_license_types() + spec_bi_license_types() + spec_sarb_license_types() + spec_fsca_license_types() + spec_cbe_license_types(), spec_fra_license_types());
    lemma_prefixed_append(spec_bdp_license_types() + spec_cmvm_license_types() + spec_ojk_license_types() + spec_bi_license_types() + spec_sarb_license_types() + spec_fsca_license_types() + spec_cbe_license_types() + spec_fra_license_types(), spec_bot_license_types());
    lemma_prefixed_append(spec_bdp_license_types() + spec_cmvm_license_types() + spec_ojk_license_types() + spec_bi_license_types() + spec_sarb_license_types() + spec_fsca_license_types() + spec_cbe_license_types() + spec_fra_license_types() + spec_bot_license_types(), spec_zanzibar_br_license_types());
    lemma_prefixed_append(spec_bdp_license_types() + spec_cmvm_license_types() + spec_ojk_license_types() + spec_bi_license_types() + spec_sarb_license_types() + spec_fsca_license_types() + spec_cbe_license_types() + spec_fra_license_types() + spec_bot_license_types() + spec_zanzibar_br_license_types(), spec_cbi_license_types());
    lemma_prefixed_append(spec_bdp_license_types() + spec_cmvm_license_types() + spec_ojk_license_types() + spec_bi_license_types() + spec_sarb_license_types() + spec_fsca_license_types() + spec_cbe_license_types() + spec_fra_license_types() + spec_bot_license_types() + spec_zanzibar_br_license_types() + spec_cbi_license_types(), spec_cro_license_types());
    assert(spec_additional_license_types() =~= spec_bdp_license_types() + spec_cmvm_license_types() + spec_ojk_license_types() + spec_bi_license_types() + spec_sarb_license_types() + spec_fsca_license_types() + spec_cbe_license_types() + spec_fra_license_types() + spec_bot_license_types() + spec_zanzibar_br_license_types() + spec_cbi_license_types() + spec_cro_license_types());
}

} // verus!
