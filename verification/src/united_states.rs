//! # United States Regulatory Authority License Mappings
//!
//! Comprehensive coverage of all 50 US states, District of Columbia, and
//! 5 US territories (Puerto Rico, Guam, US Virgin Islands, American Samoa,
//! Northern Mariana Islands).
//!
//! Each state has at minimum:
//! - Secretary of State (corporate registration)
//! - Banking/Financial regulator (money transmission, lending)
//! - Insurance regulator (insurance producer licensing)
//! - Securities regulator (broker-dealer, investment adviser)
//!
//! Key financial states (NY, CA, DE, WY, TX, FL, NV) include additional
//! detail for digital asset and fintech-specific licenses.

use vstd::prelude::*;

use crate::license::{
    license_type, license_type_view, license_types_view, regulator, regulator_view,
    regulators_view, LicenseTypeDefinition, LicenseTypeView, LicensepackRegulator,
    RegulatorView, RequirementValue,
    lemma_license_types_view_append, lemma_regulators_view_append,
};

use crate::catalog::{
    id_fresh_each, ids_distinct_each, lemma_ids_distinct_append, lemma_ids_distinct_each, license_type_ids_apart, license_type_ids_distinct, complete_each, every_regulator_grants, granted_by_listed_regulators, granted_listed_each, grants_each, grants_some, has_prefix, in_country_each, in_jurisdiction_each, lemma_complete_append, lemma_complete_each, lemma_every_combine, lemma_granted_combine, lemma_granted_listed_each, lemma_grants_each, lemma_in_country_append, lemma_in_country_each, lemma_in_country_from_jurisdiction, lemma_in_jurisdiction_each, license_types_complete, lists_regulator, regulators_in_country, regulators_in_jurisdiction,
};

use crate::catalog::{
    lemma_prefixed_append, lemma_prefixed_each, license_type_id_prefixed, license_type_ids_prefixed,
    prefixed_each,
};

verus! {


/// The view of the four standard authorities of a state: the Secretary of
/// State, the banking regulator, the insurance regulator and the securities
/// regulator, with identifiers `<jid>-sos`, `<jid>-bank`, `<jid>-ins`, `<jid>-sec`.
pub open spec fn spec_state_regulators(
    jid: Seq<char>,
    sos_name: Seq<char>,
    bank_name: Seq<char>,
    ins_name: Seq<char>,
    sec_name: Seq<char>,
    sos_url: Seq<char>,
    bank_url: Seq<char>,
) -> Seq<RegulatorView> {
    seq![
        regulator_view(jid + "-sos"@, sos_name, jid, Some(sos_url), seq!["company_search"@, "filing_status"@]),
        regulator_view(jid + "-bank"@, bank_name, jid, Some(bank_url), seq!["license_query"@]),
        regulator_view(jid + "-ins"@, ins_name, jid, None, seq!["license_status"@]),
        regulator_view(jid + "-sec"@, sec_name, jid, None, seq!["registration_query"@]),
    ]
}

/// Standard state regulators: Secretary of State, banking, insurance, securities.
fn state_regulators(
    _st: &str,
    jid: &str,
    sos_name: &str,
    bank_name: &str,
    ins_name: &str,
    sec_name: &str,
    sos_url: &str,
    bank_url: &str,
) -> (r: Vec<LicensepackRegulator>)
    ensures
        regulators_view(r@) == spec_state_regulators(
            jid@,
            sos_name@,
            bank_name@,
            ins_name@,
            sec_name@,
            sos_url@,
            bank_url@,
        ),
        regulators_view(r@) == seq![
            regulator_view(jid@ + "-sos"@, sos_name@, jid@, Some(sos_url@), seq!["company_search"@, "filing_status"@]),
            regulator_view(jid@ + "-bank"@, bank_name@, jid@, Some(bank_url@), seq!["license_query"@]),
            regulator_view(jid@ + "-ins"@, ins_name@, jid@, None, seq!["license_status"@]),
            regulator_view(jid@ + "-sec"@, sec_name@, jid@, None, seq!["registration_query"@]),
        ],
{
    let sos_id = jid.to_string().concat("-sos");
    let bank_id = jid.to_string().concat("-bank");
    let ins_id = jid.to_string().concat("-ins");
    let sec_id = jid.to_string().concat("-sec");
    let r = vec![
        regulator(sos_id.as_str(), sos_name, jid, Some(sos_url), &["company_search", "filing_status"]),
        regulator(bank_id.as_str(), bank_name, jid, Some(bank_url), &["license_query"]),
        regulator(ins_id.as_str(), ins_name, jid, None, &["license_status"]),
        regulator(sec_id.as_str(), sec_name, jid, None, &["registration_query"]),
    ];
    proof {
        assert(regulators_view(r@) =~~= spec_state_regulators(
            jid@,
            sos_name@,
            bank_name@,
            ins_name@,
            sec_name@,
            sos_url@,
            bank_url@,
        ));
    }
    r
}

/// The view of the six standard licence types of a state named `st` with
/// jurisdiction identifier `jid`.
pub open spec fn spec_state_license_types(st: Seq<char>, jid: Seq<char>) -> Seq<LicenseTypeView> {
    seq![
        license_type_view(
            jid + "-sos:corp-registration"@,
            "Corporation Registration"@,
            "Registration of a corporation in "@ + st,
            jid + "-sos"@,
            Some("corporate"@),
            seq!["business_operations"@, "capital_raising"@],
            seq![],
            seq![("USD"@, "100"@)],
            seq![("USD"@, "50"@)],
            None,
        ),
        license_type_view(
            jid + "-sos:llc-registration"@,
            "LLC Registration"@,
            "Registration of a limited liability company in "@ + st,
            jid + "-sos"@,
            Some("corporate"@),
            seq!["business_operations"@],
            seq![],
            seq![("USD"@, "100"@)],
            seq![("USD"@, "50"@)],
            None,
        ),
        license_type_view(
            jid + "-bank:money-transmitter"@,
            "Money Transmitter License"@,
            "License to transmit money in "@ + st,
            jid + "-bank"@,
            Some("financial"@),
            seq!["money_transmission"@, "payment_services"@, "currency_exchange"@],
            seq![],
            seq![("USD"@, "500"@)],
            seq![("USD"@, "500"@)],
            Some(1i32),
        ),
        license_type_view(
            jid + "-ins:insurance-producer"@,
            "Insurance Producer License"@,
            "License to sell insurance in "@ + st,
            jid + "-ins"@,
            Some("insurance"@),
            seq!["insurance_sales"@, "insurance_solicitation"@],
            seq![],
            seq![("USD"@, "50"@)],
            seq![("USD"@, "50"@)],
            Some(2i32),
        ),
        license_type_view(
            jid + "-sec:broker-dealer"@,
            "Broker-Dealer Registration"@,
            "Registration as a broker-dealer in "@ + st,
            jid + "-sec"@,
            Some("financial"@),
            seq!["securities_brokerage"@, "securities_dealing"@],
            seq![],
            seq![("USD"@, "200"@)],
            seq![("USD"@, "200"@)],
            Some(1i32),
        ),
        license_type_view(
            jid + "-sec:investment-adviser"@,
            "Investment Adviser Registration"@,
            "Registration as an investment adviser in "@ + st,
            jid + "-sec"@,
            Some("financial"@),
            seq!["investment_advisory"@, "portfolio_management"@],
            seq![],
            seq![("USD"@, "200"@)],
            seq![("USD"@, "200"@)],
            Some(1i32),
        ),
    ]
}

/// Standard state licence types.
fn state_license_types(st: &str, jid: &str) -> (r: Vec<LicenseTypeDefinition>)
    ensures
        license_types_view(r@) == spec_state_license_types(st@, jid@),
        license_types_view(r@) == seq![
            license_type_view(
                jid@ + "-sos:corp-registration"@,
                "Corporation Registration"@,
                "Registration of a corporation in "@ + st@,
                jid@ + "-sos"@,
                Some("corporate"@),
                seq!["business_operations"@, "capital_raising"@],
                seq![],
                seq![("USD"@, "100"@)],
                seq![("USD"@, "50"@)],
                None,
            ),
            license_type_view(
                jid@ + "-sos:llc-registration"@,
                "LLC Registration"@,
                "Registration of a limited liability company in "@ + st@,
                jid@ + "-sos"@,
                Some("corporate"@),
                seq!["business_operations"@],
                seq![],
                seq![("USD"@, "100"@)],
                seq![("USD"@, "50"@)],
                None,
            ),
            license_type_view(
                jid@ + "-bank:money-transmitter"@,
                "Money Transmitter License"@,
                "License to transmit money in "@ + st@,
                jid@ + "-bank"@,
                Some("financial"@),
                seq!["money_transmission"@, "payment_services"@, "currency_exchange"@],
                seq![],
                seq![("USD"@, "500"@)],
                seq![("USD"@, "500"@)],
                Some(1i32),
            ),
            license_type_view(
                jid@ + "-ins:insurance-producer"@,
                "Insurance Producer License"@,
                "License to sell insurance in "@ + st@,
                jid@ + "-ins"@,
                Some("insurance"@),
                seq!["insurance_sales"@, "insurance_solicitation"@],
                seq![],
                seq![("USD"@, "50"@)],
                seq![("USD"@, "50"@)],
                Some(2i32),
            ),
            license_type_view(
                jid@ + "-sec:broker-dealer"@,
                "Broker-Dealer Registration"@,
                "Registration as a broker-dealer in "@ + st@,
                jid@ + "-sec"@,
                Some("financial"@),
                seq!["securities_brokerage"@, "securities_dealing"@],
                seq![],
                seq![("USD"@, "200"@)],
                seq![("USD"@, "200"@)],
                Some(1i32),
            ),
            license_type_view(
                jid@ + "-sec:investment-adviser"@,
                "Investment Adviser Registration"@,
                "Registration as an investment adviser in "@ + st@,
                jid@ + "-sec"@,
                Some("financial"@),
                seq!["investment_advisory"@, "portfolio_management"@],
                seq![],
                seq![("USD"@, "200"@)],
                seq![("USD"@, "200"@)],
                Some(1i32),
            ),
        ],
{
    let sos_id = jid.to_string().concat("-sos");
    let bank_id = jid.to_string().concat("-bank");
    let ins_id = jid.to_string().concat("-ins");
    let sec_id = jid.to_string().concat("-sec");
    let corp_id = jid.to_string().concat("-sos:corp-registration");
    let llc_id = jid.to_string().concat("-sos:llc-registration");
    let mt_id = jid.to_string().concat("-bank:money-transmitter");
    let ip_id = jid.to_string().concat("-ins:insurance-producer");
    let bd_id = jid.to_string().concat("-sec:broker-dealer");
    let ia_id = jid.to_string().concat("-sec:investment-adviser");
    let corp_desc = "Registration of a corporation in ".to_string().concat(st);
    let llc_desc = "Registration of a limited liability company in ".to_string().concat(st);
    let mt_desc = "License to transmit money in ".to_string().concat(st);
    let ip_desc = "License to sell insurance in ".to_string().concat(st);
    let bd_desc = "Registration as a broker-dealer in ".to_string().concat(st);
    let ia_desc = "Registration as an investment adviser in ".to_string().concat(st);
    let r = vec![
        license_type(
            corp_id.as_str(),
            "Corporation Registration",
            corp_desc.as_str(),
            sos_id.as_str(),
            Some("corporate"),
            &["business_operations", "capital_raising"],
            &[],
            &[("USD", "100")],
            &[("USD", "50")],
            None,
        ),
        license_type(
            llc_id.as_str(),
            "LLC Registration",
            llc_desc.as_str(),
            sos_id.as_str(),
            Some("corporate"),
            &["business_operations"],
            &[],
            &[("USD", "100")],
            &[("USD", "50")],
            None,
        ),
        license_type(
            mt_id.as_str(),
            "Money Transmitter License",
            mt_desc.as_str(),
            bank_id.as_str(),
            Some("financial"),
            &["money_transmission", "payment_services", "currency_exchange"],
            &[],
            &[("USD", "500")],
            &[("USD", "500")],
            Some(1),
        ),
        license_type(
            ip_id.as_str(),
            "Insurance Producer License",
            ip_desc.as_str(),
            ins_id.as_str(),
            Some("insurance"),
            &["insurance_sales", "insurance_solicitation"],
            &[],
            &[("USD", "50")],
            &[("USD", "50")],
            Some(2),
        ),
        license_type(
            bd_id.as_str(),
            "Broker-Dealer Registration",
            bd_desc.as_str(),
            sec_id.as_str(),
            Some("financial"),
            &["securities_brokerage", "securities_dealing"],
            &[],
            &[("USD", "200")],
            &[("USD", "200")],
            Some(1),
        ),
        license_type(
            ia_id.as_str(),
            "Investment Adviser Registration",
            ia_desc.as_str(),
            sec_id.as_str(),
            Some("financial"),
            &["investment_advisory", "portfolio_management"],
            &[],
            &[("USD", "200")],
            &[("USD", "200")],
            Some(1),
        ),
    ];
    proof {
        assert(license_types_view(r@) =~~= spec_state_license_types(st@, jid@));
    }
    r
}

/// The view of `ny_regulators`.
pub open spec fn spec_ny_regulators() -> Seq<RegulatorView> {
    seq![
        regulator_view(
            "us-ny-dos"@,
            "New York Department of State"@,
            "us-ny"@,
            Some("https://dos.ny.gov"@),
            seq!["company_search"@, "filing_status"@],
        ),
        regulator_view(
            "us-ny-dfs"@,
            "New York Department of Financial Services"@,
            "us-ny"@,
            Some("https://www.dfs.ny.gov"@),
            seq!["license_query"@, "bitlicense_registry"@],
        ),
        regulator_view(
            "us-ny-dfs-ins"@,
            "New York DFS Insurance Bureau"@,
            "us-ny"@,
            None,
            seq!["license_status"@],
        ),
        regulator_view(
            "us-ny-ag-sec"@,
            "New York Attorney General Securities Bureau"@,
            "us-ny"@,
            None,
            seq!["registration_query"@],
        )
    ]
}

/// Regulators of New York.
pub fn ny_regulators() -> (r: Vec<LicensepackRegulator>)
    ensures
        regulators_view(r@) == spec_ny_regulators(),
        regulators_view(r@) == seq![
            regulator_view(
                "us-ny-dos"@,
                "New York Department of State"@,
                "us-ny"@,
                Some("https://dos.ny.gov"@),
                seq!["company_search"@, "filing_status"@],
            ),
            regulator_view(
                "us-ny-dfs"@,
                "New York Department of Financial Services"@,
                "us-ny"@,
                Some("https://www.dfs.ny.gov"@),
                seq!["license_query"@, "bitlicense_registry"@],
            ),
            regulator_view(
                "us-ny-dfs-ins"@,
                "New York DFS Insurance Bureau"@,
                "us-ny"@,
                None,
                seq!["license_status"@],
            ),
            regulator_view(
                "us-ny-ag-sec"@,
                "New York Attorney General Securities Bureau"@,
                "us-ny"@,
                None,
                seq!["registration_query"@],
            )
        ],
{
    let r = vec![
        regulator(
            "us-ny-dos",
            "New York Department of State",
            "us-ny",
            Some("https://dos.ny.gov"),
            &["company_search", "filing_status"],
        ),
        regulator(
            "us-ny-dfs",
            "New York Department of Financial Services",
            "us-ny",
            Some("https://www.dfs.ny.gov"),
            &["license_query", "bitlicense_registry"],
        ),
        regulator(
            "us-ny-dfs-ins",
            "New York DFS Insurance Bureau",
            "us-ny",
            None,
            &["license_status"],
        ),
        regulator(
            "us-ny-ag-sec",
            "New York Attorney General Securities Bureau",
            "us-ny",
            None,
            &["registration_query"],
        )
    ];
    proof {
        assert(regulators_view(r@) =~~= spec_ny_regulators());
    }
    r
}

/// The view of `ny_license_types`.
pub open spec fn spec_ny_license_types() -> Seq<LicenseTypeView> {
    seq![
        license_type_view(
            "us-ny-dos:corp-registration"@,
            "Corporation Registration"@,
            "Registration of a corporation under NY Business Corporation Law"@,
            "us-ny-dos"@,
            Some("corporate"@),
            seq!["business_operations"@, "capital_raising"@],
            seq![],
            seq![("USD"@, "125"@)],
            seq![("USD"@, "9"@)],
            None,
        ),
        license_type_view(
            "us-ny-dos:llc-registration"@,
            "LLC Registration"@,
            "Registration of an LLC under NY LLC Law"@,
            "us-ny-dos"@,
            Some("corporate"@),
            seq!["business_operations"@],
            seq![],
            seq![("USD"@, "200"@)],
            seq![("USD"@, "9"@)],
            None,
        ),
        license_type_view(
            "us-ny-dfs:money-transmitter"@,
            "Money Transmitter License"@,
            "License to engage in money transmission under NY Banking Law Article 13-B"@,
            "us-ny-dfs"@,
            Some("financial"@),
            seq!["money_transmission"@, "payment_services"@, "currency_exchange"@],
            seq![],
            seq![("USD"@, "3000"@)],
            seq![("USD"@, "1000"@)],
            Some(1i32),
        ),
        license_type_view(
            "us-ny-dfs:bitlicense"@,
            "BitLicense"@,
            "License for virtual currency business activity under 23 NYCRR Part 200"@,
            "us-ny-dfs"@,
            Some("financial"@),
            seq!["virtual_currency_exchange"@, "virtual_currency_transmission"@, "virtual_currency_custody"@, "virtual_currency_issuance"@],
            seq![],
            seq![("USD"@, "5000"@)],
            seq![("USD"@, "2500"@)],
            Some(2i32),
        ),
        license_type_view(
            "us-ny-dfs:banking-charter"@,
            "Banking Charter"@,
            "Charter to operate a state-chartered bank in New York"@,
            "us-ny-dfs"@,
            Some("financial"@),
            seq!["deposit_taking"@, "lending"@, "trust_services"@],
            seq![],
            seq![],
            seq![],
            None,
        ),
        license_type_view(
            "us-ny-dfs:lending-license"@,
            "Licensed Lender"@,
            "License to make loans under NY Banking Law Article 9"@,
            "us-ny-dfs"@,
            Some("financial"@),
            seq!["consumer_lending"@, "commercial_lending"@],
            seq![],
            seq![("USD"@, "1000"@)],
            seq![("USD"@, "500"@)],
            Some(1i32),
        ),
        license_type_view(
            "us-ny-dfs-ins:insurance-producer"@,
            "Insurance Producer License"@,
            "License to sell insurance in New York"@,
            "us-ny-dfs-ins"@,
            Some("insurance"@),
            seq!["insurance_sales"@, "insurance_solicitation"@],
            seq![],
            seq![("USD"@, "40"@)],
            seq![("USD"@, "40"@)],
            Some(2i32),
        ),
        license_type_view(
            "us-ny-ag-sec:broker-dealer"@,
            "Broker-Dealer Registration"@,
            "State registration for securities broker-dealers"@,
            "us-ny-ag-sec"@,
            Some("financial"@),
            seq!["securities_brokerage"@, "securities_dealing"@],
            seq![],
            seq![("USD"@, "200"@)],
            seq![("USD"@, "200"@)],
            Some(1i32),
        ),
        license_type_view(
            "us-ny-ag-sec:investment-adviser"@,
            "Investment Adviser Registration"@,
            "State registration for investment advisers"@,
            "us-ny-ag-sec"@,
            Some("financial"@),
            seq!["investment_advisory"@, "portfolio_management"@],
            seq![],
            seq![("USD"@, "200"@)],
            seq![("USD"@, "200"@)],
            Some(1i32),
        )
    ]
}

/// Licence types of New York.
pub fn ny_license_types() -> (r: Vec<LicenseTypeDefinition>)
    ensures
        license_types_view(r@) == spec_ny_license_types(),
        license_types_view(r@) == seq![
            license_type_view(
                "us-ny-dos:corp-registration"@,
                "Corporation Registration"@,
                "Registration of a corporation under NY Business Corporation Law"@,
                "us-ny-dos"@,
                Some("corporate"@),
                seq!["business_operations"@, "capital_raising"@],
                seq![],
                seq![("USD"@, "125"@)],
                seq![("USD"@, "9"@)],
                None,
            ),
            license_type_view(
                "us-ny-dos:llc-registration"@,
                "LLC Registration"@,
                "Registration of an LLC under NY LLC Law"@,
                "us-ny-dos"@,
                Some("corporate"@),
                seq!["business_operations"@],
                seq![],
                seq![("USD"@, "200"@)],
                seq![("USD"@, "9"@)],
                None,
            ),
            license_type_view(
                "us-ny-dfs:money-transmitter"@,
                "Money Transmitter License"@,
                "License to engage in money transmission under NY Banking Law Article 13-B"@,
                "us-ny-dfs"@,
                Some("financial"@),
                seq!["money_transmission"@, "payment_services"@, "currency_exchange"@],
                seq![],
                seq![("USD"@, "3000"@)],
                seq![("USD"@, "1000"@)],
                Some(1i32),
            ),
            license_type_view(
                "us-ny-dfs:bitlicense"@,
                "BitLicense"@,
                "License for virtual currency business activity under 23 NYCRR Part 200"@,
                "us-ny-dfs"@,
                Some("financial"@),
                seq!["virtual_currency_exchange"@, "virtual_currency_transmission"@, "virtual_currency_custody"@, "virtual_currency_issuance"@],
                seq![],
                seq![("USD"@, "5000"@)],
                seq![("USD"@, "2500"@)],
                Some(2i32),
            ),
            license_type_view(
                "us-ny-dfs:banking-charter"@,
                "Banking Charter"@,
                "Charter to operate a state-chartered bank in New York"@,
                "us-ny-dfs"@,
                Some("financial"@),
                seq!["deposit_taking"@, "lending"@, "trust_services"@],
                seq![],
                seq![],
                seq![],
                None,
            ),
            license_type_view(
                "us-ny-dfs:lending-license"@,
                "Licensed Lender"@,
                "License to make loans under NY Banking Law Article 9"@,
                "us-ny-dfs"@,
                Some("financial"@),
                seq!["consumer_lending"@, "commercial_lending"@],
                seq![],
                seq![("USD"@, "1000"@)],
                seq![("USD"@, "500"@)],
                Some(1i32),
            ),
            license_type_view(
                "us-ny-dfs-ins:insurance-producer"@,
                "Insurance Producer License"@,
                "License to sell insurance in New York"@,
                "us-ny-dfs-ins"@,
                Some("insurance"@),
                seq!["insurance_sales"@, "insurance_solicitation"@],
                seq![],
                seq![("USD"@, "40"@)],
                seq![("USD"@, "40"@)],
                Some(2i32),
            ),
            license_type_view(
                "us-ny-ag-sec:broker-dealer"@,
                "Broker-Dealer Registration"@,
                "State registration for securities broker-dealers"@,
                "us-ny-ag-sec"@,
                Some("financial"@),
                seq!["securities_brokerage"@, "securities_dealing"@],
                seq![],
                seq![("USD"@, "200"@)],
                seq![("USD"@, "200"@)],
                Some(1i32),
            ),
            license_type_view(
                "us-ny-ag-sec:investment-adviser"@,
                "Investment Adviser Registration"@,
                "State registration for investment advisers"@,
                "us-ny-ag-sec"@,
                Some("financial"@),
                seq!["investment_advisory"@, "portfolio_management"@],
                seq![],
                seq![("USD"@, "200"@)],
                seq![("USD"@, "200"@)],
                Some(1i32),
            )
        ],
{
    let r = vec![
        license_type(
            "us-ny-dos:corp-registration",
            "Corporation Registration",
            "Registration of a corporation under NY Business Corporation Law",
            "us-ny-dos",
            Some("corporate"),
            &["business_operations", "capital_raising"],
            &[],
            &[("USD", "125")],
            &[("USD", "9")],
            None,
        ),
        license_type(
            "us-ny-dos:llc-registration",
            "LLC Registration",
            "Registration of an LLC under NY LLC Law",
            "us-ny-dos",
            Some("corporate"),
            &["business_operations"],
            &[],
            &[("USD", "200")],
            &[("USD", "9")],
            None,
        ),
        license_type(
            "us-ny-dfs:money-transmitter",
            "Money Transmitter License",
            "License to engage in money transmission under NY Banking Law Article 13-B",
            "us-ny-dfs",
            Some("financial"),
            &["money_transmission", "payment_services", "currency_exchange"],
            &[],
            &[("USD", "3000")],
            &[("USD", "1000")],
            Some(1i32),
        ),
        license_type(
            "us-ny-dfs:bitlicense",
            "BitLicense",
            "License for virtual currency business activity under 23 NYCRR Part 200",
            "us-ny-dfs",
            Some("financial"),
            &["virtual_currency_exchange", "virtual_currency_transmission", "virtual_currency_custody", "virtual_currency_issuance"],
            &[],
            &[("USD", "5000")],
            &[("USD", "2500")],
            Some(2i32),
        ),
        license_type(
            "us-ny-dfs:banking-charter",
            "Banking Charter",
            "Charter to operate a state-chartered bank in New York",
            "us-ny-dfs",
            Some("financial"),
            &["deposit_taking", "lending", "trust_services"],
            &[],
            &[],
            &[],
            None,
        ),
        license_type(
            "us-ny-dfs:lending-license",
            "Licensed Lender",
            "License to make loans under NY Banking Law Article 9",
            "us-ny-dfs",
            Some("financial"),
            &["consumer_lending", "commercial_lending"],
            &[],
            &[("USD", "1000")],
            &[("USD", "500")],
            Some(1i32),
        ),
        license_type(
            "us-ny-dfs-ins:insurance-producer",
            "Insurance Producer License",
            "License to sell insurance in New York",
            "us-ny-dfs-ins",
            Some("insurance"),
            &["insurance_sales", "insurance_solicitation"],
            &[],
            &[("USD", "40")],
            &[("USD", "40")],
            Some(2i32),
        ),
        license_type(
            "us-ny-ag-sec:broker-dealer",
            "Broker-Dealer Registration",
            "State registration for securities broker-dealers",
            "us-ny-ag-sec",
            Some("financial"),
            &["securities_brokerage", "securities_dealing"],
            &[],
            &[("USD", "200")],
            &[("USD", "200")],
            Some(1i32),
        ),
        license_type(
            "us-ny-ag-sec:investment-adviser",
            "Investment Adviser Registration",
            "State registration for investment advisers",
            "us-ny-ag-sec",
            Some("financial"),
            &["investment_advisory", "portfolio_management"],
            &[],
            &[("USD", "200")],
            &[("USD", "200")],
            Some(1i32),
        )
    ];
    proof {
        assert(license_types_view(r@) =~~= spec_ny_license_types());
    }
    r
}

/// The view of `ca_regulators`.
pub open spec fn spec_ca_regulators() -> Seq<RegulatorView> {
    seq![
        regulator_view(
            "us-ca-sos"@,
            "California Secretary of State"@,
            "us-ca"@,
            Some("https://www.sos.ca.gov"@),
            seq!["company_search"@, "filing_status"@],
        ),
        regulator_view(
            "us-ca-dfpi"@,
            "California Department of Financial Protection and Innovation"@,
            "us-ca"@,
            Some("https://dfpi.ca.gov"@),
            seq!["license_query"@, "casl_registry"@],
        ),
        regulator_view(
            "us-ca-cdi"@,
            "California Department of Insurance"@,
            "us-ca"@,
            None,
            seq!["license_status"@],
        ),
        regulator_view(
            "us-ca-dbo-sec"@,
            "California DOC Commissioner of Business Oversight (Securities)"@,
            "us-ca"@,
            None,
            seq!["registration_query"@],
        )
    ]
}

/// Regulators of California.
pub fn ca_regulators() -> (r: Vec<LicensepackRegulator>)
    ensures
        regulators_view(r@) == spec_ca_regulators(),
        regulators_view(r@) == seq![
            regulator_view(
                "us-ca-sos"@,
                "California Secretary of State"@,
                "us-ca"@,
                Some("https://www.sos.ca.gov"@),
                seq!["company_search"@, "filing_status"@],
            ),
            regulator_view(
                "us-ca-dfpi"@,
                "California Department of Financial Protection and Innovation"@,
                "us-ca"@,
                Some("https://dfpi.ca.gov"@),
                seq!["license_query"@, "casl_registry"@],
            ),
            regulator_view(
                "us-ca-cdi"@,
                "California Department of Insurance"@,
                "us-ca"@,
                None,
                seq!["license_status"@],
            ),
            regulator_view(
                "us-ca-dbo-sec"@,
                "California DOC Commissioner of Business Oversight (Securities)"@,
                "us-ca"@,
                None,
                seq!["registration_query"@],
            )
        ],
{
    let r = vec![
        regulator(
            "us-ca-sos",
            "California Secretary of State",
            "us-ca",
            Some("https://www.sos.ca.gov"),
            &["company_search", "filing_status"],
        ),
        regulator(
            "us-ca-dfpi",
            "California Department of Financial Protection and Innovation",
            "us-ca",
            Some("https://dfpi.ca.gov"),
            &["license_query", "casl_registry"],
        ),
        regulator(
            "us-ca-cdi",
            "California Department of Insurance",
            "us-ca",
            None,
            &["license_status"],
        ),
        regulator(
            "us-ca-dbo-sec",
            "California DOC Commissioner of Business Oversight (Securities)",
            "us-ca",
            None,
            &["registration_query"],
        )
    ];
    proof {
        assert(regulators_view(r@) =~~= spec_ca_regulators());
    }
    r
}

/// The view of `ca_license_types`.
pub open spec fn spec_ca_license_types() -> Seq<LicenseTypeView> {
    seq![
        license_type_view(
            "us-ca-sos:corp-registration"@,
            "Corporation Registration"@,
            "Registration of a corporation under California Corporations Code"@,
            "us-ca-sos"@,
            Some("corporate"@),
            seq!["business_operations"@, "capital_raising"@],
            seq![],
            seq![("USD"@, "100"@)],
            seq![("USD"@, "25"@)],
            None,
        ),
        license_type_view(
            "us-ca-sos:llc-registration"@,
            "LLC Registration"@,
            "Registration of an LLC under California Revised Uniform LLC Act"@,
            "us-ca-sos"@,
            Some("corporate"@),
            seq!["business_operations"@],
            seq![],
            seq![("USD"@, "70"@)],
            seq![("USD"@, "20"@)],
            None,
        ),
        license_type_view(
            "us-ca-dfpi:money-transmitter"@,
            "Money Transmitter License"@,
            "License under California Money Transmission Act"@,
            "us-ca-dfpi"@,
            Some("financial"@),
            seq!["money_transmission"@, "payment_services"@, "currency_exchange"@],
            seq![],
            seq![("USD"@, "5000"@)],
            seq![("USD"@, "2500"@)],
            Some(1i32),
        ),
        license_type_view(
            "us-ca-dfpi:casl"@,
            "California Digital Financial Assets License"@,
            "License under California Digital Financial Assets Law (DFAL)"@,
            "us-ca-dfpi"@,
            Some("financial"@),
            seq!["digital_asset_exchange"@, "digital_asset_custody"@, "digital_asset_transfer"@, "digital_asset_issuance"@],
            seq![],
            seq![("USD"@, "5000"@)],
            seq![("USD"@, "2500"@)],
            Some(1i32),
        ),
        license_type_view(
            "us-ca-dfpi:lending-license"@,
            "California Finance Lender License"@,
            "License under California Financing Law"@,
            "us-ca-dfpi"@,
            Some("financial"@),
            seq!["consumer_lending"@, "commercial_lending"@],
            seq![],
            seq![("USD"@, "600"@)],
            seq![("USD"@, "200"@)],
            Some(1i32),
        ),
        license_type_view(
            "us-ca-cdi:insurance-producer"@,
            "Insurance Producer License"@,
            "License to sell insurance in California"@,
            "us-ca-cdi"@,
            Some("insurance"@),
            seq!["insurance_sales"@, "insurance_solicitation"@],
            seq![],
            seq![("USD"@, "52"@)],
            seq![("USD"@, "52"@)],
            Some(2i32),
        ),
        license_type_view(
            "us-ca-dbo-sec:broker-dealer"@,
            "Broker-Dealer Registration"@,
            "State registration for securities broker-dealers"@,
            "us-ca-dbo-sec"@,
            Some("financial"@),
            seq!["securities_brokerage"@, "securities_dealing"@],
            seq![],
            seq![("USD"@, "300"@)],
            seq![("USD"@, "300"@)],
            Some(1i32),
        ),
        license_type_view(
            "us-ca-dbo-sec:investment-adviser"@,
            "Investment Adviser Registration"@,
            "State registration for investment advisers"@,
            "us-ca-dbo-sec"@,
            Some("financial"@),
            seq!["investment_advisory"@, "portfolio_management"@],
            seq![],
            seq![("USD"@, "300"@)],
            seq![("USD"@, "200"@)],
            Some(1i32),
        )
    ]
}

/// Licence types of California.
pub fn ca_license_types() -> (r: Vec<LicenseTypeDefinition>)
    ensures
        license_types_view(r@) == spec_ca_license_types(),
        license_types_view(r@) == seq![
            license_type_view(
                "us-ca-sos:corp-registration"@,
                "Corporation Registration"@,
                "Registration of a corporation under California Corporations Code"@,
                "us-ca-sos"@,
                Some("corporate"@),
                seq!["business_operations"@, "capital_raising"@],
                seq![],
                seq![("USD"@, "100"@)],
                seq![("USD"@, "25"@)],
                None,
            ),
            license_type_view(
                "us-ca-sos:llc-registration"@,
                "LLC Registration"@,
                "Registration of an LLC under California Revised Uniform LLC Act"@,
                "us-ca-sos"@,
                Some("corporate"@),
                seq!["business_operations"@],
                seq![],
                seq![("USD"@, "70"@)],
                seq![("USD"@, "20"@)],
                None,
            ),
            license_type_view(
                "us-ca-dfpi:money-transmitter"@,
                "Money Transmitter License"@,
                "License under California Money Transmission Act"@,
                "us-ca-dfpi"@,
                Some("financial"@),
                seq!["money_transmission"@, "payment_services"@, "currency_exchange"@],
                seq![],
                seq![("USD"@, "5000"@)],
                seq![("USD"@, "2500"@)],
                Some(1i32),
            ),
            license_type_view(
                "us-ca-dfpi:casl"@,
                "California Digital Financial Assets License"@,
                "License under California Digital Financial Assets Law (DFAL)"@,
                "us-ca-dfpi"@,
                Some("financial"@),
                seq!["digital_asset_exchange"@, "digital_asset_custody"@, "digital_asset_transfer"@, "digital_asset_issuance"@],
                seq![],
                seq![("USD"@, "5000"@)],
                seq![("USD"@, "2500"@)],
                Some(1i32),
            ),
            license_type_view(
                "us-ca-dfpi:lending-license"@,
                "California Finance Lender License"@,
                "License under California Financing Law"@,
                "us-ca-dfpi"@,
                Some("financial"@),
                seq!["consumer_lending"@, "commercial_lending"@],
                seq![],
                seq![("USD"@, "600"@)],
                seq![("USD"@, "200"@)],
                Some(1i32),
            ),
            license_type_view(
                "us-ca-cdi:insurance-producer"@,
                "Insurance Producer License"@,
                "License to sell insurance in California"@,
                "us-ca-cdi"@,
                Some("insurance"@),
                seq!["insurance_sales"@, "insurance_solicitation"@],
                seq![],
                seq![("USD"@, "52"@)],
                seq![("USD"@, "52"@)],
                Some(2i32),
            ),
            license_type_view(
                "us-ca-dbo-sec:broker-dealer"@,
                "Broker-Dealer Registration"@,
                "State registration for securities broker-dealers"@,
                "us-ca-dbo-sec"@,
                Some("financial"@),
                seq!["securities_brokerage"@, "securities_dealing"@],
                seq![],
                seq![("USD"@, "300"@)],
                seq![("USD"@, "300"@)],
                Some(1i32),
            ),
            license_type_view(
                "us-ca-dbo-sec:investment-adviser"@,
                "Investment Adviser Registration"@,
                "State registration for investment advisers"@,
                "us-ca-dbo-sec"@,
                Some("financial"@),
                seq!["investment_advisory"@, "portfolio_management"@],
                seq![],
                seq![("USD"@, "300"@)],
                seq![("USD"@, "200"@)],
                Some(1i32),
            )
        ],
{
    let r = vec![
        license_type(
            "us-ca-sos:corp-registration",
            "Corporation Registration",
            "Registration of a corporation under California Corporations Code",
            "us-ca-sos",
            Some("corporate"),
            &["business_operations", "capital_raising"],
            &[],
            &[("USD", "100")],
            &[("USD", "25")],
            None,
        ),
        license_type(
            "us-ca-sos:llc-registration",
            "LLC Registration",
            "Registration of an LLC under California Revised Uniform LLC Act",
            "us-ca-sos",
            Some("corporate"),
            &["business_operations"],
            &[],
            &[("USD", "70")],
            &[("USD", "20")],
            None,
        ),
        license_type(
            "us-ca-dfpi:money-transmitter",
            "Money Transmitter License",
            "License under California Money Transmission Act",
            "us-ca-dfpi",
            Some("financial"),
            &["money_transmission", "payment_services", "currency_exchange"],
            &[],
            &[("USD", "5000")],
            &[("USD", "2500")],
            Some(1i32),
        ),
        license_type(
            "us-ca-dfpi:casl",
            "California Digital Financial Assets License",
            "License under California Digital Financial Assets Law (DFAL)",
            "us-ca-dfpi",
            Some("financial"),
            &["digital_asset_exchange", "digital_asset_custody", "digital_asset_transfer", "digital_asset_issuance"],
            &[],
            &[("USD", "5000")],
            &[("USD", "2500")],
            Some(1i32),
        ),
        license_type(
            "us-ca-dfpi:lending-license",
            "California Finance Lender License",
            "License under California Financing Law",
            "us-ca-dfpi",
            Some("financial"),
            &["consumer_lending", "commercial_lending"],
            &[],
            &[("USD", "600")],
            &[("USD", "200")],
            Some(1i32),
        ),
        license_type(
            "us-ca-cdi:insurance-producer",
            "Insurance Producer License",
            "License to sell insurance in California",
            "us-ca-cdi",
            Some("insurance"),
            &["insurance_sales", "insurance_solicitation"],
            &[],
            &[("USD", "52")],
            &[("USD", "52")],
            Some(2i32),
        ),
        license_type(
            "us-ca-dbo-sec:broker-dealer",
            "Broker-Dealer Registration",
            "State registration for securities broker-dealers",
            "us-ca-dbo-sec",
            Some("financial"),
            &["securities_brokerage", "securities_dealing"],
            &[],
            &[("USD", "300")],
            &[("USD", "300")],
            Some(1i32),
        ),
        license_type(
            "us-ca-dbo-sec:investment-adviser",
            "Investment Adviser Registration",
            "State registration for investment advisers",
            "us-ca-dbo-sec",
            Some("financial"),
            &["investment_advisory", "portfolio_management"],
            &[],
            &[("USD", "300")],
            &[("USD", "200")],
            Some(1i32),
        )
    ];
    proof {
        assert(license_types_view(r@) =~~= spec_ca_license_types());
    }
    r
}

/// The view of `de_regulators`.
pub open spec fn spec_de_regulators() -> Seq<RegulatorView> {
    seq![
        regulator_view(
            "us-de-dos"@,
            "Delaware Division of Corporations"@,
            "us-de"@,
            Some("https://corp.delaware.gov"@),
            seq!["company_search"@, "good_standing"@, "franchise_tax"@],
        ),
        regulator_view(
            "us-de-osbc"@,
            "Delaware Office of the State Bank Commissioner"@,
            "us-de"@,
            Some("https://banking.delaware.gov"@),
            seq!["license_query"@],
        ),
        regulator_view(
            "us-de-doi"@,
            "Delaware Department of Insurance"@,
            "us-de"@,
            None,
            seq!["license_status"@],
        ),
        regulator_view(
            "us-de-sec"@,
            "Delaware Division of Securities"@,
            "us-de"@,
            None,
            seq!["registration_query"@],
        )
    ]
}

/// Regulators of Delaware.
pub fn de_regulators() -> (r: Vec<LicensepackRegulator>)
    ensures
        regulators_view(r@) == spec_de_regulators(),
        regulators_view(r@) == seq![
            regulator_view(
                "us-de-dos"@,
                "Delaware Division of Corporations"@,
                "us-de"@,
                Some("https://corp.delaware.gov"@),
                seq!["company_search"@, "good_standing"@, "franchise_tax"@],
            ),
            regulator_view(
                "us-de-osbc"@,
                "Delaware Office of the State Bank Commissioner"@,
                "us-de"@,
                Some("https://banking.delaware.gov"@),
                seq!["license_query"@],
            ),
            regulator_view(
                "us-de-doi"@,
                "Delaware Department of Insurance"@,
                "us-de"@,
                None,
                seq!["license_status"@],
            ),
            regulator_view(
                "us-de-sec"@,
                "Delaware Division of Securities"@,
                "us-de"@,
                None,
                seq!["registration_query"@],
            )
        ],
{
    let r = vec![
        regulator(
            "us-de-dos",
            "Delaware Division of Corporations",
            "us-de",
            Some("https://corp.delaware.gov"),
            &["company_search", "good_standing", "franchise_tax"],
        ),
        regulator(
            "us-de-osbc",
            "Delaware Office of the State Bank Commissioner",
            "us-de",
            Some("https://banking.delaware.gov"),
            &["license_query"],
        ),
        regulator(
            "us-de-doi",
            "Delaware Department of Insurance",
            "us-de",
            None,
            &["license_status"],
        ),
        regulator(
            "us-de-sec",
            "Delaware Division of Securities",
            "us-de",
            None,
            &["registration_query"],
        )
    ];
    proof {
        assert(regulators_view(r@) =~~= spec_de_regulators());
    }
    r
}

/// The view of `de_license_types`.
pub open spec fn spec_de_license_types() -> Seq<LicenseTypeView> {
    seq![
        license_type_view(
            "us-de-dos:corp-registration"@,
            "Corporation Registration"@,
            "Registration under Delaware General Corporation Law (Title 8)"@,
            "us-de-dos"@,
            Some("corporate"@),
            seq!["business_operations"@, "capital_raising"@],
            seq![],
            seq![("USD"@, "89"@)],
            seq![("USD"@, "225"@)],
            None,
        ),
        license_type_view(
            "us-de-dos:llc-registration"@,
            "LLC Registration"@,
            "Registration under Delaware LLC Act (Title 6, Ch. 18)"@,
            "us-de-dos"@,
            Some("corporate"@),
            seq!["business_operations"@],
            seq![],
            seq![("USD"@, "90"@)],
            seq![("USD"@, "300"@)],
            None,
        ),
        license_type_view(
            "us-de-dos:lp-registration"@,
            "Limited Partnership Registration"@,
            "Registration under Delaware Revised Uniform LP Act"@,
            "us-de-dos"@,
            Some("corporate"@),
            seq!["business_operations"@, "fund_management"@],
            seq![],
            seq![("USD"@, "200"@)],
            seq![("USD"@, "300"@)],
            None,
        ),
        license_type_view(
            "us-de-osbc:money-transmitter"@,
            "Money Transmitter License"@,
            "License under Delaware Money Transmitters Act (Title 5, Ch. 23)"@,
            "us-de-osbc"@,
            Some("financial"@),
            seq!["money_transmission"@, "payment_services"@],
            seq![],
            seq![("USD"@, "1000"@)],
            seq![("USD"@, "500"@)],
            Some(1i32),
        ),
        license_type_view(
            "us-de-osbc:banking-charter"@,
            "Banking Charter"@,
            "State bank charter under Delaware banking laws"@,
            "us-de-osbc"@,
            Some("financial"@),
            seq!["deposit_taking"@, "lending"@, "trust_services"@],
            seq![],
            seq![],
            seq![],
            None,
        ),
        license_type_view(
            "us-de-doi:insurance-producer"@,
            "Insurance Producer License"@,
            "License to sell insurance in Delaware"@,
            "us-de-doi"@,
            Some("insurance"@),
            seq!["insurance_sales"@, "insurance_solicitation"@],
            seq![],
            seq![("USD"@, "35"@)],
            seq![("USD"@, "35"@)],
            Some(2i32),
        ),
        license_type_view(
            "us-de-sec:broker-dealer"@,
            "Broker-Dealer Registration"@,
            "State registration for securities broker-dealers"@,
            "us-de-sec"@,
            Some("financial"@),
            seq!["securities_brokerage"@, "securities_dealing"@],
            seq![],
            seq![("USD"@, "200"@)],
            seq![("USD"@, "200"@)],
            Some(1i32),
        )
    ]
}

/// Licence types of Delaware.
pub fn de_license_types() -> (r: Vec<LicenseTypeDefinition>)
    ensures
        license_types_view(r@) == spec_de_license_types(),
        license_types_view(r@) == seq![
            license_type_view(
                "us-de-dos:corp-registration"@,
                "Corporation Registration"@,
                "Registration under Delaware General Corporation Law (Title 8)"@,
                "us-de-dos"@,
                Some("corporate"@),
                seq!["business_operations"@, "capital_raising"@],
                seq![],
                seq![("USD"@, "89"@)],
                seq![("USD"@, "225"@)],
                None,
            ),
            license_type_view(
                "us-de-dos:llc-registration"@,
                "LLC Registration"@,
                "Registration under Delaware LLC Act (Title 6, Ch. 18)"@,
                "us-de-dos"@,
                Some("corporate"@),
                seq!["business_operations"@],
                seq![],
                seq![("USD"@, "90"@)],
                seq![("USD"@, "300"@)],
                None,
            ),
            license_type_view(
                "us-de-dos:lp-registration"@,
                "Limited Partnership Registration"@,
                "Registration under Delaware Revised Uniform LP Act"@,
                "us-de-dos"@,
                Some("corporate"@),
                seq!["business_operations"@, "fund_management"@],
                seq![],
                seq![("USD"@, "200"@)],
                seq![("USD"@, "300"@)],
                None,
            ),
            license_type_view(
                "us-de-osbc:money-transmitter"@,
                "Money Transmitter License"@,
                "License under Delaware Money Transmitters Act (Title 5, Ch. 23)"@,
                "us-de-osbc"@,
                Some("financial"@),
                seq!["money_transmission"@, "payment_services"@],
                seq![],
                seq![("USD"@, "1000"@)],
                seq![("USD"@, "500"@)],
                Some(1i32),
            ),
            license_type_view(
                "us-de-osbc:banking-charter"@,
                "Banking Charter"@,
                "State bank charter under Delaware banking laws"@,
                "us-de-osbc"@,
                Some("financial"@),
                seq!["deposit_taking"@, "lending"@, "trust_services"@],
                seq![],
                seq![],
                seq![],
                None,
            ),
            license_type_view(
                "us-de-doi:insurance-producer"@,
                "Insurance Producer License"@,
                "License to sell insurance in Delaware"@,
                "us-de-doi"@,
                Some("insurance"@),
                seq!["insurance_sales"@, "insurance_solicitation"@],
                seq![],
                seq![("USD"@, "35"@)],
                seq![("USD"@, "35"@)],
                Some(2i32),
            ),
            license_type_view(
                "us-de-sec:broker-dealer"@,
                "Broker-Dealer Registration"@,
                "State registration for securities broker-dealers"@,
                "us-de-sec"@,
                Some("financial"@),
                seq!["securities_brokerage"@, "securities_dealing"@],
                seq![],
                seq![("USD"@, "200"@)],
                seq![("USD"@, "200"@)],
                Some(1i32),
            )
        ],
{
    let r = vec![
        license_type(
            "us-de-dos:corp-registration",
            "Corporation Registration",
            "Registration under Delaware General Corporation Law (Title 8)",
            "us-de-dos",
            Some("corporate"),
            &["business_operations", "capital_raising"],
            &[],
            &[("USD", "89")],
            &[("USD", "225")],
            None,
        ),
        license_type(
            "us-de-dos:llc-registration",
            "LLC Registration",
            "Registration under Delaware LLC Act (Title 6, Ch. 18)",
            "us-de-dos",
            Some("corporate"),
            &["business_operations"],
            &[],
            &[("USD", "90")],
            &[("USD", "300")],
            None,
        ),
        license_type(
            "us-de-dos:lp-registration",
            "Limited Partnership Registration",
            "Registration under Delaware Revised Uniform LP Act",
            "us-de-dos",
            Some("corporate"),
            &["business_operations", "fund_management"],
            &[],
            &[("USD", "200")],
            &[("USD", "300")],
            None,
        ),
        license_type(
            "us-de-osbc:money-transmitter",
            "Money Transmitter License",
            "License under Delaware Money Transmitters Act (Title 5, Ch. 23)",
            "us-de-osbc",
            Some("financial"),
            &["money_transmission", "payment_services"],
            &[],
            &[("USD", "1000")],
            &[("USD", "500")],
            Some(1i32),
        ),
        license_type(
            "us-de-osbc:banking-charter",
            "Banking Charter",
            "State bank charter under Delaware banking laws",
            "us-de-osbc",
            Some("financial"),
            &["deposit_taking", "lending", "trust_services"],
            &[],
            &[],
            &[],
            None,
        ),
        license_type(
            "us-de-doi:insurance-producer",
            "Insurance Producer License",
            "License to sell insurance in Delaware",
            "us-de-doi",
            Some("insurance"),
            &["insurance_sales", "insurance_solicitation"],
            &[],
            &[("USD", "35")],
            &[("USD", "35")],
            Some(2i32),
        ),
        license_type(
            "us-de-sec:broker-dealer",
            "Broker-Dealer Registration",
            "State registration for securities broker-dealers",
            "us-de-sec",
            Some("financial"),
            &["securities_brokerage", "securities_dealing"],
            &[],
            &[("USD", "200")],
            &[("USD", "200")],
            Some(1i32),
        )
    ];
    proof {
        assert(license_types_view(r@) =~~= spec_de_license_types());
    }
    r
}

/// The view of `wy_regulators`.
pub open spec fn spec_wy_regulators() -> Seq<RegulatorView> {
    seq![
        regulator_view(
            "us-wy-sos"@,
            "Wyoming Secretary of State"@,
            "us-wy"@,
            Some("https://sos.wyo.gov"@),
            seq!["company_search"@, "filing_status"@, "dao_registry"@],
        ),
        regulator_view(
            "us-wy-dob"@,
            "Wyoming Division of Banking"@,
            "us-wy"@,
            Some("https://banking.wyo.gov"@),
            seq!["license_query"@, "spdi_registry"@],
        ),
        regulator_view(
            "us-wy-doi"@,
            "Wyoming Department of Insurance"@,
            "us-wy"@,
            None,
            seq!["license_status"@],
        ),
        regulator_view(
            "us-wy-sec"@,
            "Wyoming Securities Division"@,
            "us-wy"@,
            None,
            seq!["registration_query"@],
        )
    ]
}

/// Regulators of Wyoming.
pub fn wy_regulators() -> (r: Vec<LicensepackRegulator>)
    ensures
        regulators_view(r@) == spec_wy_regulators(),
        regulators_view(r@) == seq![
            regulator_view(
                "us-wy-sos"@,
                "Wyoming Secretary of State"@,
                "us-wy"@,
                Some("https://sos.wyo.gov"@),
                seq!["company_search"@, "filing_status"@, "dao_registry"@],
            ),
            regulator_view(
                "us-wy-dob"@,
                "Wyoming Division of Banking"@,
                "us-wy"@,
                Some("https://banking.wyo.gov"@),
                seq!["license_query"@, "spdi_registry"@],
            ),
            regulator_view(
                "us-wy-doi"@,
                "Wyoming Department of Insurance"@,
                "us-wy"@,
                None,
                seq!["license_status"@],
            ),
            regulator_view(
                "us-wy-sec"@,
                "Wyoming Securities Division"@,
                "us-wy"@,
                None,
                seq!["registration_query"@],
            )
        ],
{
    let r = vec![
        regulator(
            "us-wy-sos",
            "Wyoming Secretary of State",
            "us-wy",
            Some("https://sos.wyo.gov"),
            &["company_search", "filing_status", "dao_registry"],
        ),
        regulator(
            "us-wy-dob",
            "Wyoming Division of Banking",
            "us-wy",
            Some("https://banking.wyo.gov"),
            &["license_query", "spdi_registry"],
        ),
        regulator(
            "us-wy-doi",
            "Wyoming Department of Insurance",
            "us-wy",
            None,
            &["license_status"],
        ),
        regulator(
            "us-wy-sec",
            "Wyoming Securities Division",
            "us-wy",
            None,
            &["registration_query"],
        )
    ];
    proof {
        assert(regulators_view(r@) =~~= spec_wy_regulators());
    }
    r
}

/// The view of `wy_license_types`.
pub open spec fn spec_wy_license_types() -> Seq<LicenseTypeView> {
    seq![
        license_type_view(
            "us-wy-sos:corp-registration"@,
            "Corporation Registration"@,
            "Registration under Wyoming Business Corporation Act"@,
            "us-wy-sos"@,
            Some("corporate"@),
            seq!["business_operations"@, "capital_raising"@],
            seq![],
            seq![("USD"@, "100"@)],
            seq![("USD"@, "60"@)],
            None,
        ),
        license_type_view(
            "us-wy-sos:llc-registration"@,
            "LLC Registration"@,
            "Registration under Wyoming LLC Act"@,
            "us-wy-sos"@,
            Some("corporate"@),
            seq!["business_operations"@],
            seq![],
            seq![("USD"@, "100"@)],
            seq![("USD"@, "60"@)],
            None,
        ),
        license_type_view(
            "us-wy-sos:dao-llc"@,
            "DAO LLC Registration"@,
            "Registration of a Decentralized Autonomous Organization under WY SF0038"@,
            "us-wy-sos"@,
            Some("corporate"@),
            seq!["business_operations"@, "governance"@, "smart_contract_operations"@],
            seq![],
            seq![("USD"@, "100"@)],
            seq![("USD"@, "60"@)],
            None,
        ),
        license_type_view(
            "us-wy-dob:spdi-charter"@,
            "Special Purpose Depository Institution Charter"@,
            "SPDI charter for digital asset custody under WY HB0074"@,
            "us-wy-dob"@,
            Some("financial"@),
            seq!["digital_asset_custody"@, "fiat_custody"@, "asset_servicing"@],
            seq![],
            seq![("USD"@, "5000"@)],
            seq![("USD"@, "2500"@)],
            None,
        ),
        license_type_view(
            "us-wy-dob:money-transmitter"@,
            "Money Transmitter License"@,
            "License under Wyoming Money Transmitter Act"@,
            "us-wy-dob"@,
            Some("financial"@),
            seq!["money_transmission"@, "payment_services"@, "virtual_currency_exchange"@],
            seq![],
            seq![("USD"@, "500"@)],
            seq![("USD"@, "250"@)],
            Some(1i32),
        ),
        license_type_view(
            "us-wy-doi:insurance-producer"@,
            "Insurance Producer License"@,
            "License to sell insurance in Wyoming"@,
            "us-wy-doi"@,
            Some("insurance"@),
            seq!["insurance_sales"@, "insurance_solicitation"@],
            seq![],
            seq![("USD"@, "25"@)],
            seq![("USD"@, "25"@)],
            Some(2i32),
        ),
        license_type_view(
            "us-wy-sec:broker-dealer"@,
            "Broker-Dealer Registration"@,
            "State registration for securities broker-dealers"@,
            "us-wy-sec"@,
            Some("financial"@),
            seq!["securities_brokerage"@, "securities_dealing"@],
            seq![],
            seq![("USD"@, "200"@)],
            seq![("USD"@, "200"@)],
            Some(1i32),
        )
    ]
}

/// Licence types of Wyoming.
pub fn wy_license_types() -> (r: Vec<LicenseTypeDefinition>)
    ensures
        license_types_view(r@) == spec_wy_license_types(),
        license_types_view(r@) == seq![
            license_type_view(
                "us-wy-sos:corp-registration"@,
                "Corporation Registration"@,
                "Registration under Wyoming Business Corporation Act"@,
                "us-wy-sos"@,
                Some("corporate"@),
                seq!["business_operations"@, "capital_raising"@],
                seq![],
                seq![("USD"@, "100"@)],
                seq![("USD"@, "60"@)],
                None,
            ),
            license_type_view(
                "us-wy-sos:llc-registration"@,
                "LLC Registration"@,
                "Registration under Wyoming LLC Act"@,
                "us-wy-sos"@,
                Some("corporate"@),
                seq!["business_operations"@],
                seq![],
                seq![("USD"@, "100"@)],
                seq![("USD"@, "60"@)],
                None,
            ),
            license_type_view(
                "us-wy-sos:dao-llc"@,
                "DAO LLC Registration"@,
                "Registration of a Decentralized Autonomous Organization under WY SF0038"@,
                "us-wy-sos"@,
                Some("corporate"@),
                seq!["business_operations"@, "governance"@, "smart_contract_operations"@],
                seq![],
                seq![("USD"@, "100"@)],
                seq![("USD"@, "60"@)],
                None,
            ),
            license_type_view(
                "us-wy-dob:spdi-charter"@,
                "Special Purpose Depository Institution Charter"@,
                "SPDI charter for digital asset custody under WY HB0074"@,
                "us-wy-dob"@,
                Some("financial"@),
                seq!["digital_asset_custody"@, "fiat_custody"@, "asset_servicing"@],
                seq![],
                seq![("USD"@, "5000"@)],
                seq![("USD"@, "2500"@)],
                None,
            ),
            license_type_view(
                "us-wy-dob:money-transmitter"@,
                "Money Transmitter License"@,
                "License under Wyoming Money Transmitter Act"@,
                "us-wy-dob"@,
                Some("financial"@),
                seq!["money_transmission"@, "payment_services"@, "virtual_currency_exchange"@],
                seq![],
                seq![("USD"@, "500"@)],
                seq![("USD"@, "250"@)],
                Some(1i32),
            ),
            license_type_view(
                "us-wy-doi:insurance-producer"@,
                "Insurance Producer License"@,
                "License to sell insurance in Wyoming"@,
                "us-wy-doi"@,
                Some("insurance"@),
                seq!["insurance_sales"@, "insurance_solicitation"@],
                seq![],
                seq![("USD"@, "25"@)],
                seq![("USD"@, "25"@)],
                Some(2i32),
            ),
            license_type_view(
                "us-wy-sec:broker-dealer"@,
                "Broker-Dealer Registration"@,
                "State registration for securities broker-dealers"@,
                "us-wy-sec"@,
                Some("financial"@),
                seq!["securities_brokerage"@, "securities_dealing"@],
                seq![],
                seq![("USD"@, "200"@)],
                seq![("USD"@, "200"@)],
                Some(1i32),
            )
        ],
{
    let r = vec![
        license_type(
            "us-wy-sos:corp-registration",
            "Corporation Registration",
            "Registration under Wyoming Business Corporation Act",
            "us-wy-sos",
            Some("corporate"),
            &["business_operations", "capital_raising"],
            &[],
            &[("USD", "100")],
            &[("USD", "60")],
            None,
        ),
        license_type(
            "us-wy-sos:llc-registration",
            "LLC Registration",
            "Registration under Wyoming LLC Act",
            "us-wy-sos",
            Some("corporate"),
            &["business_operations"],
            &[],
            &[("USD", "100")],
            &[("USD", "60")],
            None,
        ),
        license_type(
            "us-wy-sos:dao-llc",
            "DAO LLC Registration",
            "Registration of a Decentralized Autonomous Organization under WY SF0038",
            "us-wy-sos",
            Some("corporate"),
            &["business_operations", "governance", "smart_contract_operations"],
            &[],
            &[("USD", "100")],
            &[("USD", "60")],
            None,
        ),
        license_type(
            "us-wy-dob:spdi-charter",
            "Special Purpose Depository Institution Charter",
            "SPDI charter for digital asset custody under WY HB0074",
            "us-wy-dob",
            Some("financial"),
            &["digital_asset_custody", "fiat_custody", "asset_servicing"],
            &[],
            &[("USD", "5000")],
            &[("USD", "2500")],
            None,
        ),
        license_type(
            "us-wy-dob:money-transmitter",
            "Money Transmitter License",
            "License under Wyoming Money Transmitter Act",
            "us-wy-dob",
            Some("financial"),
            &["money_transmission", "payment_services", "virtual_currency_exchange"],
            &[],
            &[("USD", "500")],
            &[("USD", "250")],
            Some(1i32),
        ),
        license_type(
            "us-wy-doi:insurance-producer",
            "Insurance Producer License",
            "License to sell insurance in Wyoming",
            "us-wy-doi",
            Some("insurance"),
            &["insurance_sales", "insurance_solicitation"],
            &[],
            &[("USD", "25")],
            &[("USD", "25")],
            Some(2i32),
        ),
        license_type(
            "us-wy-sec:broker-dealer",
            "Broker-Dealer Registration",
            "State registration for securities broker-dealers",
            "us-wy-sec",
            Some("financial"),
            &["securities_brokerage", "securities_dealing"],
            &[],
            &[("USD", "200")],
            &[("USD", "200")],
            Some(1i32),
        )
    ];
    proof {
        assert(license_types_view(r@) =~~= spec_wy_license_types());
    }
    r
}

/// The view of `tx_regulators`.
pub open spec fn spec_tx_regulators() -> Seq<RegulatorView> {
    seq![
        regulator_view(
            "us-tx-sos"@,
            "Texas Secretary of State"@,
            "us-tx"@,
            Some("https://www.sos.texas.gov"@),
            seq!["company_search"@, "filing_status"@],
        ),
        regulator_view(
            "us-tx-dob"@,
            "Texas Department of Banking"@,
            "us-tx"@,
            Some("https://www.dob.texas.gov"@),
            seq!["license_query"@],
        ),
        regulator_view(
            "us-tx-tdi"@,
            "Texas Department of Insurance"@,
            "us-tx"@,
            None,
            seq!["license_status"@],
        ),
        regulator_view(
            "us-tx-tssb"@,
            "Texas State Securities Board"@,
            "us-tx"@,
            None,
            seq!["registration_query"@],
        )
    ]
}

/// Regulators of Texas.
pub fn tx_regulators() -> (r: Vec<LicensepackRegulator>)
    ensures
        regulators_view(r@) == spec_tx_regulators(),
        regulators_view(r@) == seq![
            regulator_view(
                "us-tx-sos"@,
                "Texas Secretary of State"@,
                "us-tx"@,
                Some("https://www.sos.texas.gov"@),
                seq!["company_search"@, "filing_status"@],
            ),
            regulator_view(
                "us-tx-dob"@,
                "Texas Department of Banking"@,
                "us-tx"@,
                Some("https://www.dob.texas.gov"@),
                seq!["license_query"@],
            ),
            regulator_view(
                "us-tx-tdi"@,
                "Texas Department of Insurance"@,
                "us-tx"@,
                None,
                seq!["license_status"@],
            ),
            regulator_view(
                "us-tx-tssb"@,
                "Texas State Securities Board"@,
                "us-tx"@,
                None,
                seq!["registration_query"@],
            )
        ],
{
    let r = vec![
        regulator(
            "us-tx-sos",
            "Texas Secretary of State",
            "us-tx",
            Some("https://www.sos.texas.gov"),
            &["company_search", "filing_status"],
        ),
        regulator(
            "us-tx-dob",
            "Texas Department of Banking",
            "us-tx",
            Some("https://www.dob.texas.gov"),
            &["license_query"],
        ),
        regulator(
            "us-tx-tdi",
            "Texas Department of Insurance",
            "us-tx",
            None,
            &["license_status"],
        ),
        regulator(
            "us-tx-tssb",
            "Texas State Securities Board",
            "us-tx",
            None,
            &["registration_query"],
        )
    ];
    proof {
        assert(regulators_view(r@) =~~= spec_tx_regulators());
    }
    r
}

/// The view of `tx_license_types`.
pub open spec fn spec_tx_license_types() -> Seq<LicenseTypeView> {
    seq![
        license_type_view(
            "us-tx-sos:corp-registration"@,
            "Corporation Registration"@,
            "Registration under Texas Business Organizations Code"@,
            "us-tx-sos"@,
            Some("corporate"@),
            seq!["business_operations"@, "capital_raising"@],
            seq![],
            seq![("USD"@, "300"@)],
            seq![],
            None,
        ),
        license_type_view(
            "us-tx-sos:llc-registration"@,
            "LLC Registration"@,
            "Registration under Texas Business Organizations Code"@,
            "us-tx-sos"@,
            Some("corporate"@),
            seq!["business_operations"@],
            seq![],
            seq![("USD"@, "300"@)],
            seq![],
            None,
        ),
        license_type_view(
            "us-tx-dob:money-transmitter"@,
            "Money Transmitter License"@,
            "License under Texas Finance Code Chapter 151"@,
            "us-tx-dob"@,
            Some("financial"@),
            seq!["money_transmission"@, "payment_services"@, "currency_exchange"@],
            seq![],
            seq![("USD"@, "2500"@)],
            seq![("USD"@, "1000"@)],
            Some(1i32),
        ),
        license_type_view(
            "us-tx-tdi:insurance-producer"@,
            "Insurance Producer License"@,
            "License to sell insurance in Texas"@,
            "us-tx-tdi"@,
            Some("insurance"@),
            seq!["insurance_sales"@, "insurance_solicitation"@],
            seq![],
            seq![("USD"@, "50"@)],
            seq![("USD"@, "50"@)],
            Some(2i32),
        ),
        license_type_view(
            "us-tx-tssb:broker-dealer"@,
            "Broker-Dealer Registration"@,
            "State registration for securities broker-dealers"@,
            "us-tx-tssb"@,
            Some("financial"@),
            seq!["securities_brokerage"@, "securities_dealing"@],
            seq![],
            seq![("USD"@, "200"@)],
            seq![("USD"@, "200"@)],
            Some(1i32),
        ),
        license_type_view(
            "us-tx-tssb:investment-adviser"@,
            "Investment Adviser Registration"@,
            "State registration for investment advisers"@,
            "us-tx-tssb"@,
            Some("financial"@),
            seq!["investment_advisory"@, "portfolio_management"@],
            seq![],
            seq![("USD"@, "200"@)],
            seq![("USD"@, "200"@)],
            Some(1i32),
        )
    ]
}

/// Licence types of Texas.
pub fn tx_license_types() -> (r: Vec<LicenseTypeDefinition>)
    ensures
        license_types_view(r@) == spec_tx_license_types(),
        license_types_view(r@) == seq![
            license_type_view(
                "us-tx-sos:corp-registration"@,
                "Corporation Registration"@,
                "Registration under Texas Business Organizations Code"@,
                "us-tx-sos"@,
                Some("corporate"@),
                seq!["business_operations"@, "capital_raising"@],
                seq![],
                seq![("USD"@, "300"@)],
                seq![],
                None,
            ),
            license_type_view(
                "us-tx-sos:llc-registration"@,
                "LLC Registration"@,
                "Registration under Texas Business Organizations Code"@,
                "us-tx-sos"@,
                Some("corporate"@),
                seq!["business_operations"@],
                seq![],
                seq![("USD"@, "300"@)],
                seq![],
                None,
            ),
            license_type_view(
                "us-tx-dob:money-transmitter"@,
                "Money Transmitter License"@,
                "License under Texas Finance Code Chapter 151"@,
                "us-tx-dob"@,
                Some("financial"@),
                seq!["money_transmission"@, "payment_services"@, "currency_exchange"@],
                seq![],
                seq![("USD"@, "2500"@)],
                seq![("USD"@, "1000"@)],
                Some(1i32),
            ),
            license_type_view(
                "us-tx-tdi:insurance-producer"@,
                "Insurance Producer License"@,
                "License to sell insurance in Texas"@,
                "us-tx-tdi"@,
                Some("insurance"@),
                seq!["insurance_sales"@, "insurance_solicitation"@],
                seq![],
                seq![("USD"@, "50"@)],
                seq![("USD"@, "50"@)],
                Some(2i32),
            ),
            license_type_view(
                "us-tx-tssb:broker-dealer"@,
                "Broker-Dealer Registration"@,
                "State registration for securities broker-dealers"@,
                "us-tx-tssb"@,
                Some("financial"@),
                seq!["securities_brokerage"@, "securities_dealing"@],
                seq![],
                seq![("USD"@, "200"@)],
                seq![("USD"@, "200"@)],
                Some(1i32),
            ),
            license_type_view(
                "us-tx-tssb:investment-adviser"@,
                "Investment Adviser Registration"@,
                "State registration for investment advisers"@,
                "us-tx-tssb"@,
                Some("financial"@),
                seq!["investment_advisory"@, "portfolio_management"@],
                seq![],
                seq![("USD"@, "200"@)],
                seq![("USD"@, "200"@)],
                Some(1i32),
            )
        ],
{
    let r = vec![
        license_type(
            "us-tx-sos:corp-registration",
            "Corporation Registration",
            "Registration under Texas Business Organizations Code",
            "us-tx-sos",
            Some("corporate"),
            &["business_operations", "capital_raising"],
            &[],
            &[("USD", "300")],
            &[],
            None,
        ),
        license_type(
            "us-tx-sos:llc-registration",
            "LLC Registration",
            "Registration under Texas Business Organizations Code",
            "us-tx-sos",
            Some("corporate"),
            &["business_operations"],
            &[],
            &[("USD", "300")],
            &[],
            None,
        ),
        license_type(
            "us-tx-dob:money-transmitter",
            "Money Transmitter License",
            "License under Texas Finance Code Chapter 151",
            "us-tx-dob",
            Some("financial"),
            &["money_transmission", "payment_services", "currency_exchange"],
            &[],
            &[("USD", "2500")],
            &[("USD", "1000")],
            Some(1i32),
        ),
        license_type(
            "us-tx-tdi:insurance-producer",
            "Insurance Producer License",
            "License to sell insurance in Texas",
            "us-tx-tdi",
            Some("insurance"),
            &["insurance_sales", "insurance_solicitation"],
            &[],
            &[("USD", "50")],
            &[("USD", "50")],
            Some(2i32),
        ),
        license_type(
            "us-tx-tssb:broker-dealer",
            "Broker-Dealer Registration",
            "State registration for securities broker-dealers",
            "us-tx-tssb",
            Some("financial"),
            &["securities_brokerage", "securities_dealing"],
            &[],
            &[("USD", "200")],
            &[("USD", "200")],
            Some(1i32),
        ),
        license_type(
            "us-tx-tssb:investment-adviser",
            "Investment Adviser Registration",
            "State registration for investment advisers",
            "us-tx-tssb",
            Some("financial"),
            &["investment_advisory", "portfolio_management"],
            &[],
            &[("USD", "200")],
            &[("USD", "200")],
            Some(1i32),
        )
    ];
    proof {
        assert(license_types_view(r@) =~~= spec_tx_license_types());
    }
    r
}

/// The view of `fl_regulators`.
pub open spec fn spec_fl_regulators() -> Seq<RegulatorView> {
    seq![
        regulator_view(
            "us-fl-dos"@,
            "Florida Division of Corporations"@,
            "us-fl"@,
            Some("https://dos.myflorida.com/sunbiz"@),
            seq!["company_search"@, "filing_status"@],
        ),
        regulator_view(
            "us-fl-ofr"@,
            "Florida Office of Financial Regulation"@,
            "us-fl"@,
            Some("https://flofr.gov"@),
            seq!["license_query"@],
        ),
        regulator_view(
            "us-fl-doi"@,
            "Florida Department of Financial Services (Insurance)"@,
            "us-fl"@,
            None,
            seq!["license_status"@],
        ),
        regulator_view(
            "us-fl-sec"@,
            "Florida Office of Financial Regulation (Securities)"@,
            "us-fl"@,
            None,
            seq!["registration_query"@],
        )
    ]
}

/// Regulators of Florida.
pub fn fl_regulators() -> (r: Vec<LicensepackRegulator>)
    ensures
        regulators_view(r@) == spec_fl_regulators(),
        regulators_view(r@) == seq![
            regulator_view(
                "us-fl-dos"@,
                "Florida Division of Corporations"@,
                "us-fl"@,
                Some("https://dos.myflorida.com/sunbiz"@),
                seq!["company_search"@, "filing_status"@],
            ),
            regulator_view(
                "us-fl-ofr"@,
                "Florida Office of Financial Regulation"@,
                "us-fl"@,
                Some("https://flofr.gov"@),
                seq!["license_query"@],
            ),
            regulator_view(
                "us-fl-doi"@,
                "Florida Department of Financial Services (Insurance)"@,
                "us-fl"@,
                None,
                seq!["license_status"@],
            ),
            regulator_view(
                "us-fl-sec"@,
                "Florida Office of Financial Regulation (Securities)"@,
                "us-fl"@,
                None,
                seq!["registration_query"@],
            )
        ],
{
    let r = vec![
        regulator(
            "us-fl-dos",
            "Florida Division of Corporations",
            "us-fl",
            Some("https://dos.myflorida.com/sunbiz"),
            &["company_search", "filing_status"],
        ),
        regulator(
            "us-fl-ofr",
            "Florida Office of Financial Regulation",
            "us-fl",
            Some("https://flofr.gov"),
            &["license_query"],
        ),
        regulator(
            "us-fl-doi",
            "Florida Department of Financial Services (Insurance)",
            "us-fl",
            None,
            &["license_status"],
        ),
        regulator(
            "us-fl-sec",
            "Florida Office of Financial Regulation (Securities)",
            "us-fl",
            None,
            &["registration_query"],
        )
    ];
    proof {
        assert(regulators_view(r@) =~~= spec_fl_regulators());
    }
    r
}

/// The view of `fl_license_types`.
pub open spec fn spec_fl_license_types() -> Seq<LicenseTypeView> {
    seq![
        license_type_view(
            "us-fl-dos:corp-registration"@,
            "Corporation Registration"@,
            "Registration under Florida Business Corporation Act"@,
            "us-fl-dos"@,
            Some("corporate"@),
            seq!["business_operations"@, "capital_raising"@],
            seq![],
            seq![("USD"@, "70"@)],
            seq![("USD"@, "150"@)],
            None,
        ),
        license_type_view(
            "us-fl-dos:llc-registration"@,
            "LLC Registration"@,
            "Registration under Florida Revised LLC Act"@,
            "us-fl-dos"@,
            Some("corporate"@),
            seq!["business_operations"@],
            seq![],
            seq![("USD"@, "125"@)],
            seq![("USD"@, "139"@)],
            None,
        ),
        license_type_view(
            "us-fl-ofr:money-transmitter"@,
            "Money Transmitter License"@,
            "License under Florida Money Transmitters Code (Part III, Ch. 560)"@,
            "us-fl-ofr"@,
            Some("financial"@),
            seq!["money_transmission"@, "payment_services"@],
            seq![],
            seq![("USD"@, "375"@)],
            seq![("USD"@, "375"@)],
            Some(1i32),
        ),
        license_type_view(
            "us-fl-ofr:money-services"@,
            "Money Services Business License"@,
            "License for money services under Florida statutes"@,
            "us-fl-ofr"@,
            Some("financial"@),
            seq!["currency_exchange"@, "check_cashing"@, "payment_instruments"@],
            seq![],
            seq![("USD"@, "375"@)],
            seq![("USD"@, "375"@)],
            Some(1i32),
        ),
        license_type_view(
            "us-fl-doi:insurance-producer"@,
            "Insurance Producer License"@,
            "License to sell insurance in Florida"@,
            "us-fl-doi"@,
            Some("insurance"@),
            seq!["insurance_sales"@, "insurance_solicitation"@],
            seq![],
            seq![("USD"@, "55"@)],
            seq![("USD"@, "55"@)],
            Some(2i32),
        ),
        license_type_view(
            "us-fl-sec:broker-dealer"@,
            "Broker-Dealer Registration"@,
            "State registration for securities broker-dealers"@,
            "us-fl-sec"@,
            Some("financial"@),
            seq!["securities_brokerage"@, "securities_dealing"@],
            seq![],
            seq![("USD"@, "200"@)],
            seq![("USD"@, "200"@)],
            Some(1i32),
        )
    ]
}

/// Licence types of Florida.
pub fn fl_license_types() -> (r: Vec<LicenseTypeDefinition>)
    ensures
        license_types_view(r@) == spec_fl_license_types(),
        license_types_view(r@) == seq![
            license_type_view(
                "us-fl-dos:corp-registration"@,
                "Corporation Registration"@,
                "Registration under Florida Business Corporation Act"@,
                "us-fl-dos"@,
                Some("corporate"@),
                seq!["business_operations"@, "capital_raising"@],
                seq![],
                seq![("USD"@, "70"@)],
                seq![("USD"@, "150"@)],
                None,
            ),
            license_type_view(
                "us-fl-dos:llc-registration"@,
                "LLC Registration"@,
                "Registration under Florida Revised LLC Act"@,
                "us-fl-dos"@,
                Some("corporate"@),
                seq!["business_operations"@],
                seq![],
                seq![("USD"@, "125"@)],
                seq![("USD"@, "139"@)],
                None,
            ),
            license_type_view(
                "us-fl-ofr:money-transmitter"@,
                "Money Transmitter License"@,
                "License under Florida Money Transmitters Code (Part III, Ch. 560)"@,
                "us-fl-ofr"@,
                Some("financial"@),
                seq!["money_transmission"@, "payment_services"@],
                seq![],
                seq![("USD"@, "375"@)],
                seq![("USD"@, "375"@)],
                Some(1i32),
            ),
            license_type_view(
                "us-fl-ofr:money-services"@,
                "Money Services Business License"@,
                "License for money services under Florida statutes"@,
                "us-fl-ofr"@,
                Some("financial"@),
                seq!["currency_exchange"@, "check_cashing"@, "payment_instruments"@],
                seq![],
                seq![("USD"@, "375"@)],
                seq![("USD"@, "375"@)],
                Some(1i32),
            ),
            license_type_view(
                "us-fl-doi:insurance-producer"@,
                "Insurance Producer License"@,
                "License to sell insurance in Florida"@,
                "us-fl-doi"@,
                Some("insurance"@),
                seq!["insurance_sales"@, "insurance_solicitation"@],
                seq![],
                seq![("USD"@, "55"@)],
                seq![("USD"@, "55"@)],
                Some(2i32),
            ),
            license_type_view(
                "us-fl-sec:broker-dealer"@,
                "Broker-Dealer Registration"@,
                "State registration for securities broker-dealers"@,
                "us-fl-sec"@,
                Some("financial"@),
                seq!["securities_brokerage"@, "securities_dealing"@],
                seq![],
                seq![("USD"@, "200"@)],
                seq![("USD"@, "200"@)],
                Some(1i32),
            )
        ],
{
    let r = vec![
        license_type(
            "us-fl-dos:corp-registration",
            "Corporation Registration",
            "Registration under Florida Business Corporation Act",
            "us-fl-dos",
            Some("corporate"),
            &["business_operations", "capital_raising"],
            &[],
            &[("USD", "70")],
            &[("USD", "150")],
            None,
        ),
        license_type(
            "us-fl-dos:llc-registration",
            "LLC Registration",
            "Registration under Florida Revised LLC Act",
            "us-fl-dos",
            Some("corporate"),
            &["business_operations"],
            &[],
            &[("USD", "125")],
            &[("USD", "139")],
            None,
        ),
        license_type(
            "us-fl-ofr:money-transmitter",
            "Money Transmitter License",
            "License under Florida Money Transmitters Code (Part III, Ch. 560)",
            "us-fl-ofr",
            Some("financial"),
            &["money_transmission", "payment_services"],
            &[],
            &[("USD", "375")],
            &[("USD", "375")],
            Some(1i32),
        ),
        license_type(
            "us-fl-ofr:money-services",
            "Money Services Business License",
            "License for money services under Florida statutes",
            "us-fl-ofr",
            Some("financial"),
            &["currency_exchange", "check_cashing", "payment_instruments"],
            &[],
            &[("USD", "375")],
            &[("USD", "375")],
            Some(1i32),
        ),
        license_type(
            "us-fl-doi:insurance-producer",
            "Insurance Producer License",
            "License to sell insurance in Florida",
            "us-fl-doi",
            Some("insurance"),
            &["insurance_sales", "insurance_solicitation"],
            &[],
            &[("USD", "55")],
            &[("USD", "55")],
            Some(2i32),
        ),
        license_type(
            "us-fl-sec:broker-dealer",
            "Broker-Dealer Registration",
            "State registration for securities broker-dealers",
            "us-fl-sec",
            Some("financial"),
            &["securities_brokerage", "securities_dealing"],
            &[],
            &[("USD", "200")],
            &[("USD", "200")],
            Some(1i32),
        )
    ];
    proof {
        assert(license_types_view(r@) =~~= spec_fl_license_types());
    }
    r
}

/// The view of `nv_regulators`.
pub open spec fn spec_nv_regulators() -> Seq<RegulatorView> {
    seq![
        regulator_view(
            "us-nv-sos"@,
            "Nevada Secretary of State"@,
            "us-nv"@,
            Some("https://www.nvsos.gov"@),
            seq!["company_search"@, "filing_status"@],
        ),
        regulator_view(
            "us-nv-fid"@,
            "Nevada Financial Institutions Division"@,
            "us-nv"@,
            Some("https://fid.nv.gov"@),
            seq!["license_query"@],
        ),
        regulator_view(
            "us-nv-doi"@,
            "Nevada Division of Insurance"@,
            "us-nv"@,
            None,
            seq!["license_status"@],
        ),
        regulator_view(
            "us-nv-sec"@,
            "Nevada Securities Division"@,
            "us-nv"@,
            None,
            seq!["registration_query"@],
        )
    ]
}

/// Regulators of Nevada.
pub fn nv_regulators() -> (r: Vec<LicensepackRegulator>)
    ensures
        regulators_view(r@) == spec_nv_regulators(),
        regulators_view(r@) == seq![
            regulator_view(
                "us-nv-sos"@,
                "Nevada Secretary of State"@,
                "us-nv"@,
                Some("https://www.nvsos.gov"@),
                seq!["company_search"@, "filing_status"@],
            ),
            regulator_view(
                "us-nv-fid"@,
                "Nevada Financial Institutions Division"@,
                "us-nv"@,
                Some("https://fid.nv.gov"@),
                seq!["license_query"@],
            ),
            regulator_view(
                "us-nv-doi"@,
                "Nevada Division of Insurance"@,
                "us-nv"@,
                None,
                seq!["license_status"@],
            ),
            regulator_view(
                "us-nv-sec"@,
                "Nevada Securities Division"@,
                "us-nv"@,
                None,
                seq!["registration_query"@],
            )
        ],
{
    let r = vec![
        regulator(
            "us-nv-sos",
            "Nevada Secretary of State",
            "us-nv",
            Some("https://www.nvsos.gov"),
            &["company_search", "filing_status"],
        ),
        regulator(
            "us-nv-fid",
            "Nevada Financial Institutions Division",
            "us-nv",
            Some("https://fid.nv.gov"),
            &["license_query"],
        ),
        regulator(
            "us-nv-doi",
            "Nevada Division of Insurance",
            "us-nv",
            None,
            &["license_status"],
        ),
        regulator(
            "us-nv-sec",
            "Nevada Securities Division",
            "us-nv",
            None,
            &["registration_query"],
        )
    ];
    proof {
        assert(regulators_view(r@) =~~= spec_nv_regulators());
    }
    r
}

/// The view of `nv_license_types`.
pub open spec fn spec_nv_license_types() -> Seq<LicenseTypeView> {
    seq![
        license_type_view(
            "us-nv-sos:corp-registration"@,
            "Corporation Registration"@,
            "Registration under Nevada Revised Statutes Title 7"@,
            "us-nv-sos"@,
            Some("corporate"@),
            seq!["business_operations"@, "capital_raising"@],
            seq![],
            seq![("USD"@, "75"@)],
            seq![("USD"@, "350"@)],
            None,
        ),
        license_type_view(
            "us-nv-sos:llc-registration"@,
            "LLC Registration"@,
            "Registration under Nevada Revised Statutes Chapter 86"@,
            "us-nv-sos"@,
            Some("corporate"@),
            seq!["business_operations"@],
            seq![],
            seq![("USD"@, "75"@)],
            seq![("USD"@, "350"@)],
            None,
        ),
        license_type_view(
            "us-nv-fid:money-transmitter"@,
            "Money Transmitter License"@,
            "License under Nevada MSB law (NRS 671)"@,
            "us-nv-fid"@,
            Some("financial"@),
            seq!["money_transmission"@, "payment_services"@, "digital_currency"@],
            seq![],
            seq![("USD"@, "500"@)],
            seq![("USD"@, "500"@)],
            Some(1i32),
        ),
        license_type_view(
            "us-nv-fid:digital-asset-license"@,
            "Digital Asset License"@,
            "License for digital asset activities in Nevada"@,
            "us-nv-fid"@,
            Some("financial"@),
            seq!["digital_asset_exchange"@, "digital_asset_custody"@],
            seq![],
            seq![("USD"@, "1000"@)],
            seq![("USD"@, "500"@)],
            Some(1i32),
        ),
        license_type_view(
            "us-nv-doi:insurance-producer"@,
            "Insurance Producer License"@,
            "License to sell insurance in Nevada"@,
            "us-nv-doi"@,
            Some("insurance"@),
            seq!["insurance_sales"@, "insurance_solicitation"@],
            seq![],
            seq![("USD"@, "35"@)],
            seq![("USD"@, "35"@)],
            Some(2i32),
        ),
        license_type_view(
            "us-nv-sec:broker-dealer"@,
            "Broker-Dealer Registration"@,
            "State registration for securities broker-dealers"@,
            "us-nv-sec"@,
            Some("financial"@),
            seq!["securities_brokerage"@, "securities_dealing"@],
            seq![],
            seq![("USD"@, "200"@)],
            seq![("USD"@, "200"@)],
            Some(1i32),
        )
    ]
}

/// Licence types of Nevada.
pub fn nv_license_types() -> (r: Vec<LicenseTypeDefinition>)
    ensures
        license_types_view(r@) == spec_nv_license_types(),
        license_types_view(r@) == seq![
            license_type_view(
                "us-nv-sos:corp-registration"@,
                "Corporation Registration"@,
                "Registration under Nevada Revised Statutes Title 7"@,
                "us-nv-sos"@,
                Some("corporate"@),
                seq!["business_operations"@, "capital_raising"@],
                seq![],
                seq![("USD"@, "75"@)],
                seq![("USD"@, "350"@)],
                None,
            ),
            license_type_view(
                "us-nv-sos:llc-registration"@,
                "LLC Registration"@,
                "Registration under Nevada Revised Statutes Chapter 86"@,
                "us-nv-sos"@,
                Some("corporate"@),
                seq!["business_operations"@],
                seq![],
                seq![("USD"@, "75"@)],
                seq![("USD"@, "350"@)],
                None,
            ),
            license_type_view(
                "us-nv-fid:money-transmitter"@,
                "Money Transmitter License"@,
                "License under Nevada MSB law (NRS 671)"@,
                "us-nv-fid"@,
                Some("financial"@),
                seq!["money_transmission"@, "payment_services"@, "digital_currency"@],
                seq![],
                seq![("USD"@, "500"@)],
                seq![("USD"@, "500"@)],
                Some(1i32),
            ),
            license_type_view(
                "us-nv-fid:digital-asset-license"@,
                "Digital Asset License"@,
                "License for digital asset activities in Nevada"@,
                "us-nv-fid"@,
                Some("financial"@),
                seq!["digital_asset_exchange"@, "digital_asset_custody"@],
                seq![],
                seq![("USD"@, "1000"@)],
                seq![("USD"@, "500"@)],
                Some(1i32),
            ),
            license_type_view(
                "us-nv-doi:insurance-producer"@,
                "Insurance Producer License"@,
                "License to sell insurance in Nevada"@,
                "us-nv-doi"@,
                Some("insurance"@),
                seq!["insurance_sales"@, "insurance_solicitation"@],
                seq![],
                seq![("USD"@, "35"@)],
                seq![("USD"@, "35"@)],
                Some(2i32),
            ),
            license_type_view(
                "us-nv-sec:broker-dealer"@,
                "Broker-Dealer Registration"@,
                "State registration for securities broker-dealers"@,
                "us-nv-sec"@,
                Some("financial"@),
                seq!["securities_brokerage"@, "securities_dealing"@],
                seq![],
                seq![("USD"@, "200"@)],
                seq![("USD"@, "200"@)],
                Some(1i32),
            )
        ],
{
    let r = vec![
        license_type(
            "us-nv-sos:corp-registration",
            "Corporation Registration",
            "Registration under Nevada Revised Statutes Title 7",
            "us-nv-sos",
            Some("corporate"),
            &["business_operations", "capital_raising"],
            &[],
            &[("USD", "75")],
            &[("USD", "350")],
            None,
        ),
        license_type(
            "us-nv-sos:llc-registration",
            "LLC Registration",
            "Registration under Nevada Revised Statutes Chapter 86",
            "us-nv-sos",
            Some("corporate"),
            &["business_operations"],
            &[],
            &[("USD", "75")],
            &[("USD", "350")],
            None,
        ),
        license_type(
            "us-nv-fid:money-transmitter",
            "Money Transmitter License",
            "License under Nevada MSB law (NRS 671)",
            "us-nv-fid",
            Some("financial"),
            &["money_transmission", "payment_services", "digital_currency"],
            &[],
            &[("USD", "500")],
            &[("USD", "500")],
            Some(1i32),
        ),
        license_type(
            "us-nv-fid:digital-asset-license",
            "Digital Asset License",
            "License for digital asset activities in Nevada",
            "us-nv-fid",
            Some("financial"),
            &["digital_asset_exchange", "digital_asset_custody"],
            &[],
            &[("USD", "1000")],
            &[("USD", "500")],
            Some(1i32),
        ),
        license_type(
            "us-nv-doi:insurance-producer",
            "Insurance Producer License",
            "License to sell insurance in Nevada",
            "us-nv-doi",
            Some("insurance"),
            &["insurance_sales", "insurance_solicitation"],
            &[],
            &[("USD", "35")],
            &[("USD", "35")],
            Some(2i32),
        ),
        license_type(
            "us-nv-sec:broker-dealer",
            "Broker-Dealer Registration",
            "State registration for securities broker-dealers",
            "us-nv-sec",
            Some("financial"),
            &["securities_brokerage", "securities_dealing"],
            &[],
            &[("USD", "200")],
            &[("USD", "200")],
            Some(1i32),
        )
    ];
    proof {
        assert(license_types_view(r@) =~~= spec_nv_license_types());
    }
    r
}

/// The view of `il_regulators`.
pub open spec fn spec_il_regulators() -> Seq<RegulatorView> {
    seq![
        regulator_view(
            "us-il-sos"@,
            "Illinois Secretary of State"@,
            "us-il"@,
            Some("https://www.ilsos.gov"@),
            seq!["company_search"@, "filing_status"@],
        ),
        regulator_view(
            "us-il-idfpr"@,
            "Illinois Department of Financial and Professional Regulation"@,
            "us-il"@,
            Some("https://idfpr.illinois.gov"@),
            seq!["license_query"@],
        ),
        regulator_view(
            "us-il-doi"@,
            "Illinois Department of Insurance"@,
            "us-il"@,
            None,
            seq!["license_status"@],
        ),
        regulator_view(
            "us-il-sec"@,
            "Illinois Securities Department"@,
            "us-il"@,
            None,
            seq!["registration_query"@],
        )
    ]
}

/// Regulators of Illinois.
pub fn il_regulators() -> (r: Vec<LicensepackRegulator>)
    ensures
        regulators_view(r@) == spec_il_regulators(),
        regulators_view(r@) == seq![
            regulator_view(
                "us-il-sos"@,
                "Illinois Secretary of State"@,
                "us-il"@,
                Some("https://www.ilsos.gov"@),
                seq!["company_search"@, "filing_status"@],
            ),
            regulator_view(
                "us-il-idfpr"@,
                "Illinois Department of Financial and Professional Regulation"@,
                "us-il"@,
                Some("https://idfpr.illinois.gov"@),
                seq!["license_query"@],
            ),
            regulator_view(
                "us-il-doi"@,
                "Illinois Department of Insurance"@,
                "us-il"@,
                None,
                seq!["license_status"@],
            ),
            regulator_view(
                "us-il-sec"@,
                "Illinois Securities Department"@,
                "us-il"@,
                None,
                seq!["registration_query"@],
            )
        ],
{
    let r = vec![
        regulator(
            "us-il-sos",
            "Illinois Secretary of State",
            "us-il",
            Some("https://www.ilsos.gov"),
            &["company_search", "filing_status"],
        ),
        regulator(
            "us-il-idfpr",
            "Illinois Department of Financial and Professional Regulation",
            "us-il",
            Some("https://idfpr.illinois.gov"),
            &["license_query"],
        ),
        regulator(
            "us-il-doi",
            "Illinois Department of Insurance",
            "us-il",
            None,
            &["license_status"],
        ),
        regulator(
            "us-il-sec",
            "Illinois Securities Department",
            "us-il",
            None,
            &["registration_query"],
        )
    ];
    proof {
        assert(regulators_view(r@) =~~= spec_il_regulators());
    }
    r
}

/// The view of `il_license_types`.
pub open spec fn spec_il_license_types() -> Seq<LicenseTypeView> {
    seq![
        license_type_view(
            "us-il-sos:corp-registration"@,
            "Corporation Registration"@,
            "Registration under Illinois Business Corporation Act"@,
            "us-il-sos"@,
            Some("corporate"@),
            seq!["business_operations"@, "capital_raising"@],
            seq![],
            seq![("USD"@, "150"@)],
            seq![("USD"@, "75"@)],
            None,
        ),
        license_type_view(
            "us-il-sos:llc-registration"@,
            "LLC Registration"@,
            "Registration under Illinois LLC Act"@,
            "us-il-sos"@,
            Some("corporate"@),
            seq!["business_operations"@],
            seq![],
            seq![("USD"@, "150"@)],
            seq![("USD"@, "75"@)],
            None,
        ),
        license_type_view(
            "us-il-idfpr:money-transmitter"@,
            "Money Transmitter License"@,
            "License under Illinois Transmitters of Money Act"@,
            "us-il-idfpr"@,
            Some("financial"@),
            seq!["money_transmission"@, "payment_services"@],
            seq![],
            seq![("USD"@, "1000"@)],
            seq![("USD"@, "500"@)],
            Some(1i32),
        ),
        license_type_view(
            "us-il-doi:insurance-producer"@,
            "Insurance Producer License"@,
            "License to sell insurance in Illinois"@,
            "us-il-doi"@,
            Some("insurance"@),
            seq!["insurance_sales"@, "insurance_solicitation"@],
            seq![],
            seq![("USD"@, "50"@)],
            seq![("USD"@, "50"@)],
            Some(2i32),
        ),
        license_type_view(
            "us-il-sec:broker-dealer"@,
            "Broker-Dealer Registration"@,
            "State registration for securities broker-dealers"@,
            "us-il-sec"@,
            Some("financial"@),
            seq!["securities_brokerage"@, "securities_dealing"@],
            seq![],
            seq![("USD"@, "200"@)],
            seq![("USD"@, "200"@)],
            Some(1i32),
        )
    ]
}

/// Licence types of Illinois.
pub fn il_license_types() -> (r: Vec<LicenseTypeDefinition>)
    ensures
        license_types_view(r@) == spec_il_license_types(),
        license_types_view(r@) == seq![
            license_type_view(
                "us-il-sos:corp-registration"@,
                "Corporation Registration"@,
                "Registration under Illinois Business Corporation Act"@,
                "us-il-sos"@,
                Some("corporate"@),
                seq!["business_operations"@, "capital_raising"@],
                seq![],
                seq![("USD"@, "150"@)],
                seq![("USD"@, "75"@)],
                None,
            ),
            license_type_view(
                "us-il-sos:llc-registration"@,
                "LLC Registration"@,
                "Registration under Illinois LLC Act"@,
                "us-il-sos"@,
                Some("corporate"@),
                seq!["business_operations"@],
                seq![],
                seq![("USD"@, "150"@)],
                seq![("USD"@, "75"@)],
                None,
            ),
            license_type_view(
                "us-il-idfpr:money-transmitter"@,
                "Money Transmitter License"@,
                "License under Illinois Transmitters of Money Act"@,
                "us-il-idfpr"@,
                Some("financial"@),
                seq!["money_transmission"@, "payment_services"@],
                seq![],
                seq![("USD"@, "1000"@)],
                seq![("USD"@, "500"@)],
                Some(1i32),
            ),
            license_type_view(
                "us-il-doi:insurance-producer"@,
                "Insurance Producer License"@,
                "License to sell insurance in Illinois"@,
                "us-il-doi"@,
                Some("insurance"@),
                seq!["insurance_sales"@, "insurance_solicitation"@],
                seq![],
                seq![("USD"@, "50"@)],
                seq![("USD"@, "50"@)],
                Some(2i32),
            ),
            license_type_view(
                "us-il-sec:broker-dealer"@,
                "Broker-Dealer Registration"@,
                "State registration for securities broker-dealers"@,
                "us-il-sec"@,
                Some("financial"@),
                seq!["securities_brokerage"@, "securities_dealing"@],
                seq![],
                seq![("USD"@, "200"@)],
                seq![("USD"@, "200"@)],
                Some(1i32),
            )
        ],
{
    let r = vec![
        license_type(
            "us-il-sos:corp-registration",
            "Corporation Registration",
            "Registration under Illinois Business Corporation Act",
            "us-il-sos",
            Some("corporate"),
            &["business_operations", "capital_raising"],
            &[],
            &[("USD", "150")],
            &[("USD", "75")],
            None,
        ),
        license_type(
            "us-il-sos:llc-registration",
            "LLC Registration",
            "Registration under Illinois LLC Act",
            "us-il-sos",
            Some("corporate"),
            &["business_operations"],
            &[],
            &[("USD", "150")],
            &[("USD", "75")],
            None,
        ),
        license_type(
            "us-il-idfpr:money-transmitter",
            "Money Transmitter License",
            "License under Illinois Transmitters of Money Act",
            "us-il-idfpr",
            Some("financial"),
            &["money_transmission", "payment_services"],
            &[],
            &[("USD", "1000")],
            &[("USD", "500")],
            Some(1i32),
        ),
        license_type(
            "us-il-doi:insurance-producer",
            "Insurance Producer License",
            "License to sell insurance in Illinois",
            "us-il-doi",
            Some("insurance"),
            &["insurance_sales", "insurance_solicitation"],
            &[],
            &[("USD", "50")],
            &[("USD", "50")],
            Some(2i32),
        ),
        license_type(
            "us-il-sec:broker-dealer",
            "Broker-Dealer Registration",
            "State registration for securities broker-dealers",
            "us-il-sec",
            Some("financial"),
            &["securities_brokerage", "securities_dealing"],
            &[],
            &[("USD", "200")],
            &[("USD", "200")],
            Some(1i32),
        )
    ];
    proof {
        assert(license_types_view(r@) =~~= spec_il_license_types());
    }
    r
}

/// The view of `al_regulators`.
pub open spec fn spec_al_regulators() -> Seq<RegulatorView> {
    spec_state_regulators(
        "us-al"@,
        "Alabama Secretary of State"@,
        "Alabama State Banking Department"@,
        "Alabama Department of Insurance"@,
        "Alabama Securities Commission"@,
        "https://www.sos.alabama.gov"@,
        "https://banking.alabama.gov"@,
    )
}

/// Regulators of Alabama.
pub fn al_regulators() -> (r: Vec<LicensepackRegulator>)
    ensures
        regulators_view(r@) == spec_al_regulators(),
        regulators_view(r@) == spec_state_regulators(
            "us-al"@,
            "Alabama Secretary of State"@,
            "Alabama State Banking Department"@,
            "Alabama Department of Insurance"@,
            "Alabama Securities Commission"@,
            "https://www.sos.alabama.gov"@,
            "https://banking.alabama.gov"@,
        ),
{
    state_regulators(
        "Alabama",
        "us-al",
        "Alabama Secretary of State",
        "Alabama State Banking Department",
        "Alabama Department of Insurance",
        "Alabama Securities Commission",
        "https://www.sos.alabama.gov",
        "https://banking.alabama.gov",
    )
}

/// The view of `al_license_types`.
pub open spec fn spec_al_license_types() -> Seq<LicenseTypeView> {
    spec_state_license_types("Alabama"@, "us-al"@)
}

/// Licence types of Alabama.
pub fn al_license_types() -> (r: Vec<LicenseTypeDefinition>)
    ensures
        license_types_view(r@) == spec_al_license_types(),
        license_types_view(r@) == spec_state_license_types("Alabama"@, "us-al"@),
{
    state_license_types("Alabama", "us-al")
}

/// The view of `ak_regulators`.
pub open spec fn spec_ak_regulators() -> Seq<RegulatorView> {
    spec_state_regulators(
        "us-ak"@,
        "Alaska Division of Corporations"@,
        "Alaska Division of Banking and Securities"@,
        "Alaska Division of Insurance"@,
        "Alaska Division of Banking and Securities"@,
        "https://www.commerce.alaska.gov/web/cbpl/corporations"@,
        "https://www.commerce.alaska.gov/web/dbs"@,
    )
}

/// Regulators of Alaska.
pub fn ak_regulators() -> (r: Vec<LicensepackRegulator>)
    ensures
        regulators_view(r@) == spec_ak_regulators(),
        regulators_view(r@) == spec_state_regulators(
            "us-ak"@,
            "Alaska Division of Corporations"@,
            "Alaska Division of Banking and Securities"@,
            "Alaska Division of Insurance"@,
            "Alaska Division of Banking and Securities"@,
            "https://www.commerce.alaska.gov/web/cbpl/corporations"@,
            "https://www.commerce.alaska.gov/web/dbs"@,
        ),
{
    state_regulators(
        "Alaska",
        "us-ak",
        "Alaska Division of Corporations",
        "Alaska Division of Banking and Securities",
        "Alaska Division of Insurance",
        "Alaska Division of Banking and Securities",
        "https://www.commerce.alaska.gov/web/cbpl/corporations",
        "https://www.commerce.alaska.gov/web/dbs",
    )
}

/// The view of `ak_license_types`.
pub open spec fn spec_ak_license_types() -> Seq<LicenseTypeView> {
    spec_state_license_types("Alaska"@, "us-ak"@)
}

/// Licence types of Alaska.
pub fn ak_license_types() -> (r: Vec<LicenseTypeDefinition>)
    ensures
        license_types_view(r@) == spec_ak_license_types(),
        license_types_view(r@) == spec_state_license_types("Alaska"@, "us-ak"@),
{
    state_license_types("Alaska", "us-ak")
}

/// The view of `az_regulators`.
pub open spec fn spec_az_regulators() -> Seq<RegulatorView> {
    spec_state_regulators(
        "us-az"@,
        "Arizona Corporation Commission"@,
        "Arizona Department of Financial Institutions"@,
        "Arizona Department of Insurance"@,
        "Arizona Corporation Commission Securities"@,
        "https://ecorp.azcc.gov"@,
        "https://difi.az.gov"@,
    )
}

/// Regulators of Arizona.
pub fn az_regulators() -> (r: Vec<LicensepackRegulator>)
    ensures
        regulators_view(r@) == spec_az_regulators(),
        regulators_view(r@) == spec_state_regulators(
            "us-az"@,
            "Arizona Corporation Commission"@,
            "Arizona Department of Financial Institutions"@,
            "Arizona Department of Insurance"@,
            "Arizona Corporation Commission Securities"@,
            "https://ecorp.azcc.gov"@,
            "https://difi.az.gov"@,
        ),
{
    state_regulators(
        "Arizona",
        "us-az",
        "Arizona Corporation Commission",
        "Arizona Department of Financial Institutions",
        "Arizona Department of Insurance",
        "Arizona Corporation Commission Securities",
        "https://ecorp.azcc.gov",
        "https://difi.az.gov",
    )
}

/// The view of `az_license_types`.
pub open spec fn spec_az_license_types() -> Seq<LicenseTypeView> {
    spec_state_license_types("Arizona"@, "us-az"@)
}

/// Licence types of Arizona.
pub fn az_license_types() -> (r: Vec<LicenseTypeDefinition>)
    ensures
        license_types_view(r@) == spec_az_license_types(),
        license_types_view(r@) == spec_state_license_types("Arizona"@, "us-az"@),
{
    state_license_types("Arizona", "us-az")
}

/// The view of `ar_regulators`.
pub open spec fn spec_ar_regulators() -> Seq<RegulatorView> {
    spec_state_regulators(
        "us-ar"@,
        "Arkansas Secretary of State"@,
        "Arkansas State Bank Department"@,
        "Arkansas Insurance Department"@,
        "Arkansas Securities Department"@,
        "https://www.sos.arkansas.gov"@,
        "https://banking.arkansas.gov"@,
    )
}

/// Regulators of Arkansas.
pub fn ar_regulators() -> (r: Vec<LicensepackRegulator>)
    ensures
        regulators_view(r@) == spec_ar_regulators(),
        regulators_view(r@) == spec_state_regulators(
            "us-ar"@,
            "Arkansas Secretary of State"@,
            "Arkansas State Bank Department"@,
            "Arkansas Insurance Department"@,
            "Arkansas Securities Department"@,
            "https://www.sos.arkansas.gov"@,
            "https://banking.arkansas.gov"@,
        ),
{
    state_regulators(
        "Arkansas",
        "us-ar",
        "Arkansas Secretary of State",
        "Arkansas State Bank Department",
        "Arkansas Insurance Department",
        "Arkansas Securities Department",
        "https://www.sos.arkansas.gov",
        "https://banking.arkansas.gov",
    )
}

/// The view of `ar_license_types`.
pub open spec fn spec_ar_license_types() -> Seq<LicenseTypeView> {
    spec_state_license_types("Arkansas"@, "us-ar"@)
}

/// Licence types of Arkansas.
pub fn ar_license_types() -> (r: Vec<LicenseTypeDefinition>)
    ensures
        license_types_view(r@) == spec_ar_license_types(),
        license_types_view(r@) == spec_state_license_types("Arkansas"@, "us-ar"@),
{
    state_license_types("Arkansas", "us-ar")
}

/// The view of `co_regulators`.
pub open spec fn spec_co_regulators() -> Seq<RegulatorView> {
    spec_state_regulators(
        "us-co"@,
        "Colorado Secretary of State"@,
        "Colorado Division of Banking"@,
        "Colorado Division of Insurance"@,
        "Colorado Division of Securities"@,
        "https://www.sos.state.co.us"@,
        "https://banking.colorado.gov"@,
    )
}

/// Regulators of Colorado.
pub fn co_regulators() -> (r: Vec<LicensepackRegulator>)
    ensures
        regulators_view(r@) == spec_co_regulators(),
        regulators_view(r@) == spec_state_regulators(
            "us-co"@,
            "Colorado Secretary of State"@,
            "Colorado Division of Banking"@,
            "Colorado Division of Insurance"@,
            "Colorado Division of Securities"@,
            "https://www.sos.state.co.us"@,
            "https://banking.colorado.gov"@,
        ),
{
    state_regulators(
        "Colorado",
        "us-co",
        "Colorado Secretary of State",
        "Colorado Division of Banking",
        "Colorado Division of Insurance",
        "Colorado Division of Securities",
        "https://www.sos.state.co.us",
        "https://banking.colorado.gov",
    )
}

/// The view of `co_license_types`.
pub open spec fn spec_co_license_types() -> Seq<LicenseTypeView> {
    spec_state_license_types("Colorado"@, "us-co"@)
}

/// Licence types of Colorado.
pub fn co_license_types() -> (r: Vec<LicenseTypeDefinition>)
    ensures
        license_types_view(r@) == spec_co_license_types(),
        license_types_view(r@) == spec_state_license_types("Colorado"@, "us-co"@),
{
    state_license_types("Colorado", "us-co")
}

/// The view of `ct_regulators`.
pub open spec fn spec_ct_regulators() -> Seq<RegulatorView> {
    spec_state_regulators(
        "us-ct"@,
        "Connecticut Secretary of State"@,
        "Connecticut Department of Banking"@,
        "Connecticut Insurance Department"@,
        "Connecticut Department of Banking Securities"@,
        "https://portal.ct.gov/sots"@,
        "https://portal.ct.gov/dob"@,
    )
}

/// Regulators of Connecticut.
pub fn ct_regulators() -> (r: Vec<LicensepackRegulator>)
    ensures
        regulators_view(r@) == spec_ct_regulators(),
        regulators_view(r@) == spec_state_regulators(
            "us-ct"@,
            "Connecticut Secretary of State"@,
            "Connecticut Department of Banking"@,
            "Connecticut Insurance Department"@,
            "Connecticut Department of Banking Securities"@,
            "https://portal.ct.gov/sots"@,
            "https://portal.ct.gov/dob"@,
        ),
{
    state_regulators(
        "Connecticut",
        "us-ct",
        "Connecticut Secretary of State",
        "Connecticut Department of Banking",
        "Connecticut Insurance Department",
        "Connecticut Department of Banking Securities",
        "https://portal.ct.gov/sots",
        "https://portal.ct.gov/dob",
    )
}

/// The view of `ct_license_types`.
pub open spec fn spec_ct_license_types() -> Seq<LicenseTypeView> {
    spec_state_license_types("Connecticut"@, "us-ct"@)
}

/// Licence types of Connecticut.
pub fn ct_license_types() -> (r: Vec<LicenseTypeDefinition>)
    ensures
        license_types_view(r@) == spec_ct_license_types(),
        license_types_view(r@) == spec_state_license_types("Connecticut"@, "us-ct"@),
{
    state_license_types("Connecticut", "us-ct")
}

/// The view of `ga_regulators`.
pub open spec fn spec_ga_regulators() -> Seq<RegulatorView> {
    spec_state_regulators(
        "us-ga"@,
        "Georgia Secretary of State Corporations Division"@,
        "Georgia Department of Banking and Finance"@,
        "Georgia Office of Insurance"@,
        "Georgia Securities Division"@,
        "https://sos.ga.gov/corporations-division"@,
        "https://dbf.georgia.gov"@,
    )
}

/// Regulators of Georgia.
pub fn ga_regulators() -> (r: Vec<LicensepackRegulator>)
    ensures
        regulators_view(r@) == spec_ga_regulators(),
        regulators_view(r@) == spec_state_regulators(
            "us-ga"@,
            "Georgia Secretary of State Corporations Division"@,
            "Georgia Department of Banking and Finance"@,
            "Georgia Office of Insurance"@,
            "Georgia Securities Division"@,
            "https://sos.ga.gov/corporations-division"@,
            "https://dbf.georgia.gov"@,
        ),
{
    state_regulators(
        "Georgia",
        "us-ga",
        "Georgia Secretary of State Corporations Division",
        "Georgia Department of Banking and Finance",
        "Georgia Office of Insurance",
        "Georgia Securities Division",
        "https://sos.ga.gov/corporations-division",
        "https://dbf.georgia.gov",
    )
}

/// The view of `ga_license_types`.
pub open spec fn spec_ga_license_types() -> Seq<LicenseTypeView> {
    spec_state_license_types("Georgia"@, "us-ga"@)
}

/// Licence types of Georgia.
pub fn ga_license_types() -> (r: Vec<LicenseTypeDefinition>)
    ensures
        license_types_view(r@) == spec_ga_license_types(),
        license_types_view(r@) == spec_state_license_types("Georgia"@, "us-ga"@),
{
    state_license_types("Georgia", "us-ga")
}

/// The view of `hi_regulators`.
pub open spec fn spec_hi_regulators() -> Seq<RegulatorView> {
    spec_state_regulators(
        "us-hi"@,
        "Hawaii Department of Commerce"@,
        "Hawaii Division of Financial Institutions"@,
        "Hawaii Insurance Division"@,
        "Hawaii Securities Division"@,
        "https://cca.hawaii.gov/breg"@,
        "https://cca.hawaii.gov/dfi"@,
    )
}

/// Regulators of Hawaii.
pub fn hi_regulators() -> (r: Vec<LicensepackRegulator>)
    ensures
        regulators_view(r@) == spec_hi_regulators(),
        regulators_view(r@) == spec_state_regulators(
            "us-hi"@,
            "Hawaii Department of Commerce"@,
            "Hawaii Division of Financial Institutions"@,
            "Hawaii Insurance Division"@,
            "Hawaii Securities Division"@,
            "https://cca.hawaii.gov/breg"@,
            "https://cca.hawaii.gov/dfi"@,
        ),
{
    state_regulators(
        "Hawaii",
        "us-hi",
        "Hawaii Department of Commerce",
        "Hawaii Division of Financial Institutions",
        "Hawaii Insurance Division",
        "Hawaii Securities Division",
        "https://cca.hawaii.gov/breg",
        "https://cca.hawaii.gov/dfi",
    )
}

/// The view of `hi_license_types`.
pub open spec fn spec_hi_license_types() -> Seq<LicenseTypeView> {
    spec_state_license_types("Hawaii"@, "us-hi"@)
}

/// Licence types of Hawaii.
pub fn hi_license_types() -> (r: Vec<LicenseTypeDefinition>)
    ensures
        license_types_view(r@) == spec_hi_license_types(),
        license_types_view(r@) == spec_state_license_types("Hawaii"@, "us-hi"@),
{
    state_license_types("Hawaii", "us-hi")
}

/// The view of `id_regulators`.
pub open spec fn spec_id_regulators() -> Seq<RegulatorView> {
    spec_state_regulators(
        "us-id"@,
        "Idaho Secretary of State"@,
        "Idaho Department of Finance"@,
        "Idaho Department of Insurance"@,
        "Idaho Department of Finance Securities"@,
        "https://sos.idaho.gov"@,
        "https://finance.idaho.gov"@,
    )
}

/// Regulators of Idaho.
pub fn id_regulators() -> (r: Vec<LicensepackRegulator>)
    ensures
        regulators_view(r@) == spec_id_regulators(),
        regulators_view(r@) == spec_state_regulators(
            "us-id"@,
            "Idaho Secretary of State"@,
            "Idaho Department of Finance"@,
            "Idaho Department of Insurance"@,
            "Idaho Department of Finance Securities"@,
            "https://sos.idaho.gov"@,
            "https://finance.idaho.gov"@,
        ),
{
    state_regulators(
        "Idaho",
        "us-id",
        "Idaho Secretary of State",
        "Idaho Department of Finance",
        "Idaho Department of Insurance",
        "Idaho Department of Finance Securities",
        "https://sos.idaho.gov",
        "https://finance.idaho.gov",
    )
}

/// The view of `id_license_types`.
pub open spec fn spec_id_license_types() -> Seq<LicenseTypeView> {
    spec_state_license_types("Idaho"@, "us-id"@)
}

/// Licence types of Idaho.
pub fn id_license_types() -> (r: Vec<LicenseTypeDefinition>)
    ensures
        license_types_view(r@) == spec_id_license_types(),
        license_types_view(r@) == spec_state_license_types("Idaho"@, "us-id"@),
{
    state_license_types("Idaho", "us-id")
}

/// The view of `in_regulators`.
pub open spec fn spec_in_regulators() -> Seq<RegulatorView> {
    spec_state_regulators(
        "us-in"@,
        "Indiana Secretary of State"@,
        "Indiana Department of Financial Institutions"@,
        "Indiana Department of Insurance"@,
        "Indiana Securities Division"@,
        "https://www.in.gov/sos"@,
        "https://www.in.gov/dfi"@,
    )
}

/// Regulators of Indiana.
pub fn in_regulators() -> (r: Vec<LicensepackRegulator>)
    ensures
        regulators_view(r@) == spec_in_regulators(),
        regulators_view(r@) == spec_state_regulators(
            "us-in"@,
            "Indiana Secretary of State"@,
            "Indiana Department of Financial Institutions"@,
            "Indiana Department of Insurance"@,
            "Indiana Securities Division"@,
            "https://www.in.gov/sos"@,
            "https://www.in.gov/dfi"@,
        ),
{
    state_regulators(
        "Indiana",
        "us-in",
        "Indiana Secretary of State",
        "Indiana Department of Financial Institutions",
        "Indiana Department of Insurance",
        "Indiana Securities Division",
        "https://www.in.gov/sos",
        "https://www.in.gov/dfi",
    )
}

/// The view of `in_license_types`.
pub open spec fn spec_in_license_types() -> Seq<LicenseTypeView> {
    spec_state_license_types("Indiana"@, "us-in"@)
}

/// Licence types of Indiana.
pub fn in_license_types() -> (r: Vec<LicenseTypeDefinition>)
    ensures
        license_types_view(r@) == spec_in_license_types(),
        license_types_view(r@) == spec_state_license_types("Indiana"@, "us-in"@),
{
    state_license_types("Indiana", "us-in")
}

/// The view of `ia_regulators`.
pub open spec fn spec_ia_regulators() -> Seq<RegulatorView> {
    spec_state_regulators(
        "us-ia"@,
        "Iowa Secretary of State"@,
        "Iowa Division of Banking"@,
        "Iowa Insurance Division"@,
        "Iowa Insurance Division Securities"@,
        "https://sos.iowa.gov"@,
        "https://idob.iowa.gov"@,
    )
}

/// Regulators of Iowa.
pub fn ia_regulators() -> (r: Vec<LicensepackRegulator>)
    ensures
        regulators_view(r@) == spec_ia_regulators(),
        regulators_view(r@) == spec_state_regulators(
            "us-ia"@,
            "Iowa Secretary of State"@,
            "Iowa Division of Banking"@,
            "Iowa Insurance Division"@,
            "Iowa Insurance Division Securities"@,
            "https://sos.iowa.gov"@,
            "https://idob.iowa.gov"@,
        ),
{
    state_regulators(
        "Iowa",
        "us-ia",
        "Iowa Secretary of State",
        "Iowa Division of Banking",
        "Iowa Insurance Division",
        "Iowa Insurance Division Securities",
        "https://sos.iowa.gov",
        "https://idob.iowa.gov",
    )
}

/// The view of `ia_license_types`.
pub open spec fn spec_ia_license_types() -> Seq<LicenseTypeView> {
    spec_state_license_types("Iowa"@, "us-ia"@)
}

/// Licence types of Iowa.
pub fn ia_license_types() -> (r: Vec<LicenseTypeDefinition>)
    ensures
        license_types_view(r@) == spec_ia_license_types(),
        license_types_view(r@) == spec_state_license_types("Iowa"@, "us-ia"@),
{
    state_license_types("Iowa", "us-ia")
}

/// The view of `ks_regulators`.
pub open spec fn spec_ks_regulators() -> Seq<RegulatorView> {
    spec_state_regulators(
        "us-ks"@,
        "Kansas Secretary of State"@,
        "Kansas Office of the State Bank Commissioner"@,
        "Kansas Insurance Department"@,
        "Kansas Securities Commissioner"@,
        "https://www.sos.ks.gov"@,
        "https://osbckansas.org"@,
    )
}

/// Regulators of Kansas.
pub fn ks_regulators() -> (r: Vec<LicensepackRegulator>)
    ensures
        regulators_view(r@) == spec_ks_regulators(),
        regulators_view(r@) == spec_state_regulators(
            "us-ks"@,
            "Kansas Secretary of State"@,
            "Kansas Office of the State Bank Commissioner"@,
            "Kansas Insurance Department"@,
            "Kansas Securities Commissioner"@,
            "https://www.sos.ks.gov"@,
            "https://osbckansas.org"@,
        ),
{
    state_regulators(
        "Kansas",
        "us-ks",
        "Kansas Secretary of State",
        "Kansas Office of the State Bank Commissioner",
        "Kansas Insurance Department",
        "Kansas Securities Commissioner",
        "https://www.sos.ks.gov",
        "https://osbckansas.org",
    )
}

/// The view of `ks_license_types`.
pub open spec fn spec_ks_license_types() -> Seq<LicenseTypeView> {
    spec_state_license_types("Kansas"@, "us-ks"@)
}

/// Licence types of Kansas.
pub fn ks_license_types() -> (r: Vec<LicenseTypeDefinition>)
    ensures
        license_types_view(r@) == spec_ks_license_types(),
        license_types_view(r@) == spec_state_license_types("Kansas"@, "us-ks"@),
{
    state_license_types("Kansas", "us-ks")
}

/// The view of `ky_regulators`.
pub open spec fn spec_ky_regulators() -> Seq<RegulatorView> {
    spec_state_regulators(
        "us-ky"@,
        "Kentucky Secretary of State"@,
        "Kentucky Department of Financial Institutions"@,
        "Kentucky Department of Insurance"@,
        "Kentucky Department of Financial Institutions Securities"@,
        "https://www.sos.ky.gov"@,
        "https://kfi.ky.gov"@,
    )
}

/// Regulators of Kentucky.
pub fn ky_regulators() -> (r: Vec<LicensepackRegulator>)
    ensures
        regulators_view(r@) == spec_ky_regulators(),
        regulators_view(r@) == spec_state_regulators(
            "us-ky"@,
            "Kentucky Secretary of State"@,
            "Kentucky Department of Financial Institutions"@,
            "Kentucky Department of Insurance"@,
            "Kentucky Department of Financial Institutions Securities"@,
            "https://www.sos.ky.gov"@,
            "https://kfi.ky.gov"@,
        ),
{
    state_regulators(
        "Kentucky",
        "us-ky",
        "Kentucky Secretary of State",
        "Kentucky Department of Financial Institutions",
        "Kentucky Department of Insurance",
        "Kentucky Department of Financial Institutions Securities",
        "https://www.sos.ky.gov",
        "https://kfi.ky.gov",
    )
}

/// The view of `ky_license_types`.
pub open spec fn spec_ky_license_types() -> Seq<LicenseTypeView> {
    spec_state_license_types("Kentucky"@, "us-ky"@)
}

/// Licence types of Kentucky.
pub fn ky_license_types() -> (r: Vec<LicenseTypeDefinition>)
    ensures
        license_types_view(r@) == spec_ky_license_types(),
        license_types_view(r@) == spec_state_license_types("Kentucky"@, "us-ky"@),
{
    state_license_types("Kentucky", "us-ky")
}

/// The view of `la_regulators`.
pub open spec fn spec_la_regulators() -> Seq<RegulatorView> {
    spec_state_regulators(
        "us-la"@,
        "Louisiana Secretary of State"@,
        "Louisiana Office of Financial Institutions"@,
        "Louisiana Department of Insurance"@,
        "Louisiana Securities Division"@,
        "https://www.sos.la.gov"@,
        "https://ofi.la.gov"@,
    )
}

/// Regulators of Louisiana.
pub fn la_regulators() -> (r: Vec<LicensepackRegulator>)
    ensures
        regulators_view(r@) == spec_la_regulators(),
        regulators_view(r@) == spec_state_regulators(
            "us-la"@,
            "Louisiana Secretary of State"@,
            "Louisiana Office of Financial Institutions"@,
            "Louisiana Department of Insurance"@,
            "Louisiana Securities Division"@,
            "https://www.sos.la.gov"@,
            "https://ofi.la.gov"@,
        ),
{
    state_regulators(
        "Louisiana",
        "us-la",
        "Louisiana Secretary of State",
        "Louisiana Office of Financial Institutions",
        "Louisiana Department of Insurance",
        "Louisiana Securities Division",
        "https://www.sos.la.gov",
        "https://ofi.la.gov",
    )
}

/// The view of `la_license_types`.
pub open spec fn spec_la_license_types() -> Seq<LicenseTypeView> {
    spec_state_license_types("Louisiana"@, "us-la"@)
}

/// Licence types of Louisiana.
pub fn la_license_types() -> (r: Vec<LicenseTypeDefinition>)
    ensures
        license_types_view(r@) == spec_la_license_types(),
        license_types_view(r@) == spec_state_license_types("Louisiana"@, "us-la"@),
{
    state_license_types("Louisiana", "us-la")
}

/// The view of `me_regulators`.
pub open spec fn spec_me_regulators() -> Seq<RegulatorView> {
    spec_state_regulators(
        "us-me"@,
        "Maine Secretary of State"@,
        "Maine Bureau of Financial Institutions"@,
        "Maine Bureau of Insurance"@,
        "Maine Securities Division"@,
        "https://www.maine.gov/sos"@,
        "https://www.maine.gov/pfr/financialinstitutions"@,
    )
}

/// Regulators of Maine.
pub fn me_regulators() -> (r: Vec<LicensepackRegulator>)
    ensures
        regulators_view(r@) == spec_me_regulators(),
        regulators_view(r@) == spec_state_regulators(
            "us-me"@,
            "Maine Secretary of State"@,
            "Maine Bureau of Financial Institutions"@,
            "Maine Bureau of Insurance"@,
            "Maine Securities Division"@,
            "https://www.maine.gov/sos"@,
            "https://www.maine.gov/pfr/financialinstitutions"@,
        ),
{
    state_regulators(
        "Maine",
        "us-me",
        "Maine Secretary of State",
        "Maine Bureau of Financial Institutions",
        "Maine Bureau of Insurance",
        "Maine Securities Division",
        "https://www.maine.gov/sos",
        "https://www.maine.gov/pfr/financialinstitutions",
    )
}

/// The view of `me_license_types`.
pub open spec fn spec_me_license_types() -> Seq<LicenseTypeView> {
    spec_state_license_types("Maine"@, "us-me"@)
}

/// Licence types of Maine.
pub fn me_license_types() -> (r: Vec<LicenseTypeDefinition>)
    ensures
        license_types_view(r@) == spec_me_license_types(),
        license_types_view(r@) == spec_state_license_types("Maine"@, "us-me"@),
{
    state_license_types("Maine", "us-me")
}

/// The view of `md_regulators`.
pub open spec fn spec_md_regulators() -> Seq<RegulatorView> {
    spec_state_regulators(
        "us-md"@,
        "Maryland Department of Assessments and Taxation"@,
        "Maryland Commissioner of Financial Regulation"@,
        "Maryland Insurance Administration"@,
        "Maryland Securities Division"@,
        "https://dat.maryland.gov"@,
        "https://www.dllr.state.md.us/finance"@,
    )
}

/// Regulators of Maryland.
pub fn md_regulators() -> (r: Vec<LicensepackRegulator>)
    ensures
        regulators_view(r@) == spec_md_regulators(),
        regulators_view(r@) == spec_state_regulators(
            "us-md"@,
            "Maryland Department of Assessments and Taxation"@,
            "Maryland Commissioner of Financial Regulation"@,
            "Maryland Insurance Administration"@,
            "Maryland Securities Division"@,
            "https://dat.maryland.gov"@,
            "https://www.dllr.state.md.us/finance"@,
        ),
{
    state_regulators(
        "Maryland",
        "us-md",
        "Maryland Department of Assessments and Taxation",
        "Maryland Commissioner of Financial Regulation",
        "Maryland Insurance Administration",
        "Maryland Securities Division",
        "https://dat.maryland.gov",
        "https://www.dllr.state.md.us/finance",
    )
}

/// The view of `md_license_types`.
pub open spec fn spec_md_license_types() -> Seq<LicenseTypeView> {
    spec_state_license_types("Maryland"@, "us-md"@)
}

/// Licence types of Maryland.
pub fn md_license_types() -> (r: Vec<LicenseTypeDefinition>)
    ensures
        license_types_view(r@) == spec_md_license_types(),
        license_types_view(r@) == spec_state_license_types("Maryland"@, "us-md"@),
{
    state_license_types("Maryland", "us-md")
}

/// The view of `ma_regulators`.
pub open spec fn spec_ma_regulators() -> Seq<RegulatorView> {
    spec_state_regulators(
        "us-ma"@,
        "Massachusetts Secretary of the Commonwealth"@,
        "Massachusetts Division of Banks"@,
        "Massachusetts Division of Insurance"@,
        "Massachusetts Securities Division"@,
        "https://www.sec.state.ma.us/cor"@,
        "https://www.mass.gov/orgs/division-of-banks"@,
    )
}

/// Regulators of Massachusetts.
pub fn ma_regulators() -> (r: Vec<LicensepackRegulator>)
    ensures
        regulators_view(r@) == spec_ma_regulators(),
        regulators_view(r@) == spec_state_regulators(
            "us-ma"@,
            "Massachusetts Secretary of the Commonwealth"@,
            "Massachusetts Division of Banks"@,
            "Massachusetts Division of Insurance"@,
            "Massachusetts Securities Division"@,
            "https://www.sec.state.ma.us/cor"@,
            "https://www.mass.gov/orgs/division-of-banks"@,
        ),
{
    state_regulators(
        "Massachusetts",
        "us-ma",
        "Massachusetts Secretary of the Commonwealth",
        "Massachusetts Division of Banks",
        "Massachusetts Division of Insurance",
        "Massachusetts Securities Division",
        "https://www.sec.state.ma.us/cor",
        "https://www.mass.gov/orgs/division-of-banks",
    )
}

/// The view of `ma_license_types`.
pub open spec fn spec_ma_license_types() -> Seq<LicenseTypeView> {
    spec_state_license_types("Massachusetts"@, "us-ma"@)
}

/// Licence types of Massachusetts.
pub fn ma_license_types() -> (r: Vec<LicenseTypeDefinition>)
    ensures
        license_types_view(r@) == spec_ma_license_types(),
        license_types_view(r@) == spec_state_license_types("Massachusetts"@, "us-ma"@),
{
    state_license_types("Massachusetts", "us-ma")
}

/// The view of `mi_regulators`.
pub open spec fn spec_mi_regulators() -> Seq<RegulatorView> {
    spec_state_regulators(
        "us-mi"@,
        "Michigan Department of Licensing and Regulatory Affairs"@,
        "Michigan Office of Credit Unions and Financial Services"@,
        "Michigan Department of Insurance and Financial Services"@,
        "Michigan Securities Division"@,
        "https://www.michigan.gov/lara"@,
        "https://www.michigan.gov/difs"@,
    )
}

/// Regulators of Michigan.
pub fn mi_regulators() -> (r: Vec<LicensepackRegulator>)
    ensures
        regulators_view(r@) == spec_mi_regulators(),
        regulators_view(r@) == spec_state_regulators(
            "us-mi"@,
            "Michigan Department of Licensing and Regulatory Affairs"@,
            "Michigan Office of Credit Unions and Financial Services"@,
            "Michigan Department of Insurance and Financial Services"@,
            "Michigan Securities Division"@,
            "https://www.michigan.gov/lara"@,
            "https://www.michigan.gov/difs"@,
        ),
{
    state_regulators(
        "Michigan",
        "us-mi",
        "Michigan Department of Licensing and Regulatory Affairs",
        "Michigan Office of Credit Unions and Financial Services",
        "Michigan Department of Insurance and Financial Services",
        "Michigan Securities Division",
        "https://www.michigan.gov/lara",
        "https://www.michigan.gov/difs",
    )
}

/// The view of `mi_license_types`.
pub open spec fn spec_mi_license_types() -> Seq<LicenseTypeView> {
    spec_state_license_types("Michigan"@, "us-mi"@)
}

/// Licence types of Michigan.
pub fn mi_license_types() -> (r: Vec<LicenseTypeDefinition>)
    ensures
        license_types_view(r@) == spec_mi_license_types(),
        license_types_view(r@) == spec_state_license_types("Michigan"@, "us-mi"@),
{
    state_license_types("Michigan", "us-mi")
}

/// The view of `mn_regulators`.
pub open spec fn spec_mn_regulators() -> Seq<RegulatorView> {
    spec_state_regulators(
        "us-mn"@,
        "Minnesota Secretary of State"@,
        "Minnesota Department of Commerce Financial Institutions"@,
        "Minnesota Department of Commerce Insurance"@,
        "Minnesota Department of Commerce Securities"@,
        "https://www.sos.state.mn.us"@,
        "https://mn.gov/commerce"@,
    )
}

/// Regulators of Minnesota.
pub fn mn_regulators() -> (r: Vec<LicensepackRegulator>)
    ensures
        regulators_view(r@) == spec_mn_regulators(),
        regulators_view(r@) == spec_state_regulators(
            "us-mn"@,
            "Minnesota Secretary of State"@,
            "Minnesota Department of Commerce Financial Institutions"@,
            "Minnesota Department of Commerce Insurance"@,
            "Minnesota Department of Commerce Securities"@,
            "https://www.sos.state.mn.us"@,
            "https://mn.gov/commerce"@,
        ),
{
    state_regulators(
        "Minnesota",
        "us-mn",
        "Minnesota Secretary of State",
        "Minnesota Department of Commerce Financial Institutions",
        "Minnesota Department of Commerce Insurance",
        "Minnesota Department of Commerce Securities",
        "https://www.sos.state.mn.us",
        "https://mn.gov/commerce",
    )
}

/// The view of `mn_license_types`.
pub open spec fn spec_mn_license_types() -> Seq<LicenseTypeView> {
    spec_state_license_types("Minnesota"@, "us-mn"@)
}

/// Licence types of Minnesota.
pub fn mn_license_types() -> (r: Vec<LicenseTypeDefinition>)
    ensures
        license_types_view(r@) == spec_mn_license_types(),
        license_types_view(r@) == spec_state_license_types("Minnesota"@, "us-mn"@),
{
    state_license_types("Minnesota", "us-mn")
}

/// The view of `ms_regulators`.
pub open spec fn spec_ms_regulators() -> Seq<RegulatorView> {
    spec_state_regulators(
        "us-ms"@,
        "Mississippi Secretary of State"@,
        "Mississippi Department of Banking and Consumer Finance"@,
        "Mississippi Insurance Department"@,
        "Mississippi Securities Division"@,
        "https://www.sos.ms.gov"@,
        "https://dbcf.ms.gov"@,
    )
}

/// Regulators of Mississippi.
pub fn ms_regulators() -> (r: Vec<LicensepackRegulator>)
    ensures
        regulators_view(r@) == spec_ms_regulators(),
        regulators_view(r@) == spec_state_regulators(
            "us-ms"@,
            "Mississippi Secretary of State"@,
            "Mississippi Department of Banking and Consumer Finance"@,
            "Mississippi Insurance Department"@,
            "Mississippi Securities Division"@,
            "https://www.sos.ms.gov"@,
            "https://dbcf.ms.gov"@,
        ),
{
    state_regulators(
        "Mississippi",
        "us-ms",
        "Mississippi Secretary of State",
        "Mississippi Department of Banking and Consumer Finance",
        "Mississippi Insurance Department",
        "Mississippi Securities Division",
        "https://www.sos.ms.gov",
        "https://dbcf.ms.gov",
    )
}

/// The view of `ms_license_types`.
pub open spec fn spec_ms_license_types() -> Seq<LicenseTypeView> {
    spec_state_license_types("Mississippi"@, "us-ms"@)
}

/// Licence types of Mississippi.
pub fn ms_license_types() -> (r: Vec<LicenseTypeDefinition>)
    ensures
        license_types_view(r@) == spec_ms_license_types(),
        license_types_view(r@) == spec_state_license_types("Mississippi"@, "us-ms"@),
{
    state_license_types("Mississippi", "us-ms")
}

/// The view of `mo_regulators`.
pub open spec fn spec_mo_regulators() -> Seq<RegulatorView> {
    spec_state_regulators(
        "us-mo"@,
        "Missouri Secretary of State"@,
        "Missouri Division of Finance"@,
        "Missouri Department of Commerce and Insurance"@,
        "Missouri Securities Division"@,
        "https://www.sos.mo.gov"@,
        "https://finance.mo.gov"@,
    )
}

/// Regulators of Missouri.
pub fn mo_regulators() -> (r: Vec<LicensepackRegulator>)
    ensures
        regulators_view(r@) == spec_mo_regulators(),
        regulators_view(r@) == spec_state_regulators(
            "us-mo"@,
            "Missouri Secretary of State"@,
            "Missouri Division of Finance"@,
            "Missouri Department of Commerce and Insurance"@,
            "Missouri Securities Division"@,
            "https://www.sos.mo.gov"@,
            "https://finance.mo.gov"@,
        ),
{
    state_regulators(
        "Missouri",
        "us-mo",
        "Missouri Secretary of State",
        "Missouri Division of Finance",
        "Missouri Department of Commerce and Insurance",
        "Missouri Securities Division",
        "https://www.sos.mo.gov",
        "https://finance.mo.gov",
    )
}

/// The view of `mo_license_types`.
pub open spec fn spec_mo_license_types() -> Seq<LicenseTypeView> {
    spec_state_license_types("Missouri"@, "us-mo"@)
}

/// Licence types of Missouri.
pub fn mo_license_types() -> (r: Vec<LicenseTypeDefinition>)
    ensures
        license_types_view(r@) == spec_mo_license_types(),
        license_types_view(r@) == spec_state_license_types("Missouri"@, "us-mo"@),
{
    state_license_types("Missouri", "us-mo")
}

/// The view of `mt_regulators`.
pub open spec fn spec_mt_regulators() -> Seq<RegulatorView> {
    spec_state_regulators(
        "us-mt"@,
        "Montana Secretary of State"@,
        "Montana Division of Banking and Financial Institutions"@,
        "Montana Commissioner of Securities and Insurance"@,
        "Montana State Auditor Securities"@,
        "https://sosmt.gov"@,
        "https://banking.mt.gov"@,
    )
}

/// Regulators of Montana.
pub fn mt_regulators() -> (r: Vec<LicensepackRegulator>)
    ensures
        regulators_view(r@) == spec_mt_regulators(),
        regulators_view(r@) == spec_state_regulators(
            "us-mt"@,
            "Montana Secretary of State"@,
            "Montana Division of Banking and Financial Institutions"@,
            "Montana Commissioner of Securities and Insurance"@,
            "Montana State Auditor Securities"@,
            "https://sosmt.gov"@,
            "https://banking.mt.gov"@,
        ),
{
    state_regulators(
        "Montana",
        "us-mt",
        "Montana Secretary of State",
        "Montana Division of Banking and Financial Institutions",
        "Montana Commissioner of Securities and Insurance",
        "Montana State Auditor Securities",
        "https://sosmt.gov",
        "https://banking.mt.gov",
    )
}

/// The view of `mt_license_types`.
pub open spec fn spec_mt_license_types() -> Seq<LicenseTypeView> {
    spec_state_license_types("Montana"@, "us-mt"@)
}

/// Licence types of Montana.
pub fn mt_license_types() -> (r: Vec<LicenseTypeDefinition>)
    ensures
        license_types_view(r@) == spec_mt_license_types(),
        license_types_view(r@) == spec_state_license_types("Montana"@, "us-mt"@),
{
    state_license_types("Montana", "us-mt")
}

/// The view of `ne_regulators`.
pub open spec fn spec_ne_regulators() -> Seq<RegulatorView> {
    spec_state_regulators(
        "us-ne"@,
        "Nebraska Secretary of State"@,
        "Nebraska Department of Banking and Finance"@,
        "Nebraska Department of Insurance"@,
        "Nebraska Department of Banking and Finance Securities"@,
        "https://sos.nebraska.gov"@,
        "https://ndbf.nebraska.gov"@,
    )
}

/// Regulators of Nebraska.
pub fn ne_regulators() -> (r: Vec<LicensepackRegulator>)
    ensures
        regulators_view(r@) == spec_ne_regulators(),
        regulators_view(r@) == spec_state_regulators(
            "us-ne"@,
            "Nebraska Secretary of State"@,
            "Nebraska Department of Banking and Finance"@,
            "Nebraska Department of Insurance"@,
            "Nebraska Department of Banking and Finance Securities"@,
            "https://sos.nebraska.gov"@,
            "https://ndbf.nebraska.gov"@,
        ),
{
    state_regulators(
        "Nebraska",
        "us-ne",
        "Nebraska Secretary of State",
        "Nebraska Department of Banking and Finance",
        "Nebraska Department of Insurance",
        "Nebraska Department of Banking and Finance Securities",
        "https://sos.nebraska.gov",
        "https://ndbf.nebraska.gov",
    )
}

/// The view of `ne_license_types`.
pub open spec fn spec_ne_license_types() -> Seq<LicenseTypeView> {
    spec_state_license_types("Nebraska"@, "us-ne"@)
}

/// Licence types of Nebraska.
pub fn ne_license_types() -> (r: Vec<LicenseTypeDefinition>)
    ensures
        license_types_view(r@) == spec_ne_license_types(),
        license_types_view(r@) == spec_state_license_types("Nebraska"@, "us-ne"@),
{
    state_license_types("Nebraska", "us-ne")
}

/// The view of `nh_regulators`.
pub open spec fn spec_nh_regulators() -> Seq<RegulatorView> {
    spec_state_regulators(
        "us-nh"@,
        "New Hampshire Secretary of State"@,
        "New Hampshire Banking Department"@,
        "New Hampshire Insurance Department"@,
        "New Hampshire Bureau of Securities Regulation"@,
        "https://www.sos.nh.gov"@,
        "https://www.nh.gov/banking"@,
    )
}

/// Regulators of New Hampshire.
pub fn nh_regulators() -> (r: Vec<LicensepackRegulator>)
    ensures
        regulators_view(r@) == spec_nh_regulators(),
        regulators_view(r@) == spec_state_regulators(
            "us-nh"@,
            "New Hampshire Secretary of State"@,
            "New Hampshire Banking Department"@,
            "New Hampshire Insurance Department"@,
            "New Hampshire Bureau of Securities Regulation"@,
            "https://www.sos.nh.gov"@,
            "https://www.nh.gov/banking"@,
        ),
{
    state_regulators(
        "New Hampshire",
        "us-nh",
        "New Hampshire Secretary of State",
        "New Hampshire Banking Department",
        "New Hampshire Insurance Department",
        "New Hampshire Bureau of Securities Regulation",
        "https://www.sos.nh.gov",
        "https://www.nh.gov/banking",
    )
}

/// The view of `nh_license_types`.
pub open spec fn spec_nh_license_types() -> Seq<LicenseTypeView> {
    spec_state_license_types("New Hampshire"@, "us-nh"@)
}

/// Licence types of New Hampshire.
pub fn nh_license_types() -> (r: Vec<LicenseTypeDefinition>)
    ensures
        license_types_view(r@) == spec_nh_license_types(),
        license_types_view(r@) == spec_state_license_types("New Hampshire"@, "us-nh"@),
{
    state_license_types("New Hampshire", "us-nh")
}

/// The view of `nj_regulators`.
pub open spec fn spec_nj_regulators() -> Seq<RegulatorView> {
    spec_state_regulators(
        "us-nj"@,
        "New Jersey Division of Revenue"@,
        "New Jersey Department of Banking and Insurance"@,
        "New Jersey Department of Banking and Insurance"@,
        "New Jersey Bureau of Securities"@,
        "https://www.njportal.com/DOR/BusinessFormation"@,
        "https://www.nj.gov/dobi"@,
    )
}

/// Regulators of New Jersey.
pub fn nj_regulators() -> (r: Vec<LicensepackRegulator>)
    ensures
        regulators_view(r@) == spec_nj_regulators(),
        regulators_view(r@) == spec_state_regulators(
            "us-nj"@,
            "New Jersey Division of Revenue"@,
            "New Jersey Department of Banking and Insurance"@,
            "New Jersey Department of Banking and Insurance"@,
            "New Jersey Bureau of Securities"@,
            "https://www.njportal.com/DOR/BusinessFormation"@,
            "https://www.nj.gov/dobi"@,
        ),
{
    state_regulators(
        "New Jersey",
        "us-nj",
        "New Jersey Division of Revenue",
        "New Jersey Department of Banking and Insurance",
        "New Jersey Department of Banking and Insurance",
        "New Jersey Bureau of Securities",
        "https://www.njportal.com/DOR/BusinessFormation",
        "https://www.nj.gov/dobi",
    )
}

/// The view of `nj_license_types`.
pub open spec fn spec_nj_license_types() -> Seq<LicenseTypeView> {
    spec_state_license_types("New Jersey"@, "us-nj"@)
}

/// Licence types of New Jersey.
pub fn nj_license_types() -> (r: Vec<LicenseTypeDefinition>)
    ensures
        license_types_view(r@) == spec_nj_license_types(),
        license_types_view(r@) == spec_state_license_types("New Jersey"@, "us-nj"@),
{
    state_license_types("New Jersey", "us-nj")
}

/// The view of `nm_regulators`.
pub open spec fn spec_nm_regulators() -> Seq<RegulatorView> {
    spec_state_regulators(
        "us-nm"@,
        "New Mexico Secretary of State"@,
        "New Mexico Financial Institutions Division"@,
        "New Mexico Office of Superintendent of Insurance"@,
        "New Mexico Securities Division"@,
        "https://www.sos.state.nm.us"@,
        "https://www.rld.nm.gov/financial-institutions"@,
    )
}

/// Regulators of New Mexico.
pub fn nm_regulators() -> (r: Vec<LicensepackRegulator>)
    ensures
        regulators_view(r@) == spec_nm_regulators(),
        regulators_view(r@) == spec_state_regulators(
            "us-nm"@,
            "New Mexico Secretary of State"@,
            "New Mexico Financial Institutions Division"@,
            "New Mexico Office of Superintendent of Insurance"@,
            "New Mexico Securities Division"@,
            "https://www.sos.state.nm.us"@,
            "https://www.rld.nm.gov/financial-institutions"@,
        ),
{
    state_regulators(
        "New Mexico",
        "us-nm",
        "New Mexico Secretary of State",
        "New Mexico Financial Institutions Division",
        "New Mexico Office of Superintendent of Insurance",
        "New Mexico Securities Division",
        "https://www.sos.state.nm.us",
        "https://www.rld.nm.gov/financial-institutions",
    )
}

/// The view of `nm_license_types`.
pub open spec fn spec_nm_license_types() -> Seq<LicenseTypeView> {
    spec_state_license_types("New Mexico"@, "us-nm"@)
}

/// Licence types of New Mexico.
pub fn nm_license_types() -> (r: Vec<LicenseTypeDefinition>)
    ensures
        license_types_view(r@) == spec_nm_license_types(),
        license_types_view(r@) == spec_state_license_types("New Mexico"@, "us-nm"@),
{
    state_license_types("New Mexico", "us-nm")
}

/// The view of `nc_regulators`.
pub open spec fn spec_nc_regulators() -> Seq<RegulatorView> {
    spec_state_regulators(
        "us-nc"@,
        "North Carolina Secretary of State"@,
        "North Carolina Commissioner of Banks"@,
        "North Carolina Department of Insurance"@,
        "North Carolina Securities Division"@,
        "https://www.sosnc.gov"@,
        "https://www.nccob.gov"@,
    )
}

/// Regulators of North Carolina.
pub fn nc_regulators() -> (r: Vec<LicensepackRegulator>)
    ensures
        regulators_view(r@) == spec_nc_regulators(),
        regulators_view(r@) == spec_state_regulators(
            "us-nc"@,
            "North Carolina Secretary of State"@,
            "North Carolina Commissioner of Banks"@,
            "North Carolina Department of Insurance"@,
            "North Carolina Securities Division"@,
            "https://www.sosnc.gov"@,
            "https://www.nccob.gov"@,
        ),
{
    state_regulators(
        "North Carolina",
        "us-nc",
        "North Carolina Secretary of State",
        "North Carolina Commissioner of Banks",
        "North Carolina Department of Insurance",
        "North Carolina Securities Division",
        "https://www.sosnc.gov",
        "https://www.nccob.gov",
    )
}

/// The view of `nc_license_types`.
pub open spec fn spec_nc_license_types() -> Seq<LicenseTypeView> {
    spec_state_license_types("North Carolina"@, "us-nc"@)
}

/// Licence types of North Carolina.
pub fn nc_license_types() -> (r: Vec<LicenseTypeDefinition>)
    ensures
        license_types_view(r@) == spec_nc_license_types(),
        license_types_view(r@) == spec_state_license_types("North Carolina"@, "us-nc"@),
{
    state_license_types("North Carolina", "us-nc")
}

/// The view of `nd_regulators`.
pub open spec fn spec_nd_regulators() -> Seq<RegulatorView> {
    spec_state_regulators(
        "us-nd"@,
        "North Dakota Secretary of State"@,
        "North Dakota Department of Financial Institutions"@,
        "North Dakota Insurance Department"@,
        "North Dakota Securities Department"@,
        "https://sos.nd.gov"@,
        "https://www.nd.gov/dfi"@,
    )
}

/// Regulators of North Dakota.
pub fn nd_regulators() -> (r: Vec<LicensepackRegulator>)
    ensures
        regulators_view(r@) == spec_nd_regulators(),
        regulators_view(r@) == spec_state_regulators(
            "us-nd"@,
            "North Dakota Secretary of State"@,
            "North Dakota Department of Financial Institutions"@,
            "North Dakota Insurance Department"@,
            "North Dakota Securities Department"@,
            "https://sos.nd.gov"@,
            "https://www.nd.gov/dfi"@,
        ),
{
    state_regulators(
        "North Dakota",
        "us-nd",
        "North Dakota Secretary of State",
        "North Dakota Department of Financial Institutions",
        "North Dakota Insurance Department",
        "North Dakota Securities Department",
        "https://sos.nd.gov",
        "https://www.nd.gov/dfi",
    )
}

/// The view of `nd_license_types`.
pub open spec fn spec_nd_license_types() -> Seq<LicenseTypeView> {
    spec_state_license_types("North Dakota"@, "us-nd"@)
}

/// Licence types of North Dakota.
pub fn nd_license_types() -> (r: Vec<LicenseTypeDefinition>)
    ensures
        license_types_view(r@) == spec_nd_license_types(),
        license_types_view(r@) == spec_state_license_types("North Dakota"@, "us-nd"@),
{
    state_license_types("North Dakota", "us-nd")
}

/// The view of `oh_regulators`.
pub open spec fn spec_oh_regulators() -> Seq<RegulatorView> {
    spec_state_regulators(
        "us-oh"@,
        "Ohio Secretary of State"@,
        "Ohio Division of Financial Institutions"@,
        "Ohio Department of Insurance"@,
        "Ohio Division of Securities"@,
        "https://www.ohiosos.gov"@,
        "https://com.ohio.gov/divisions-and-programs/financial-institutions"@,
    )
}

/// Regulators of Ohio.
pub fn oh_regulators() -> (r: Vec<LicensepackRegulator>)
    ensures
        regulators_view(r@) == spec_oh_regulators(),
        regulators_view(r@) == spec_state_regulators(
            "us-oh"@,
            "Ohio Secretary of State"@,
            "Ohio Division of Financial Institutions"@,
            "Ohio Department of Insurance"@,
            "Ohio Division of Securities"@,
            "https://www.ohiosos.gov"@,
            "https://com.ohio.gov/divisions-and-programs/financial-institutions"@,
        ),
{
    state_regulators(
        "Ohio",
        "us-oh",
        "Ohio Secretary of State",
        "Ohio Division of Financial Institutions",
        "Ohio Department of Insurance",
        "Ohio Division of Securities",
        "https://www.ohiosos.gov",
        "https://com.ohio.gov/divisions-and-programs/financial-institutions",
    )
}

/// The view of `oh_license_types`.
pub open spec fn spec_oh_license_types() -> Seq<LicenseTypeView> {
    spec_state_license_types("Ohio"@, "us-oh"@)
}

/// Licence types of Ohio.
pub fn oh_license_types() -> (r: Vec<LicenseTypeDefinition>)
    ensures
        license_types_view(r@) == spec_oh_license_types(),
        license_types_view(r@) == spec_state_license_types("Ohio"@, "us-oh"@),
{
    state_license_types("Ohio", "us-oh")
}

/// The view of `ok_regulators`.
pub open spec fn spec_ok_regulators() -> Seq<RegulatorView> {
    spec_state_regulators(
        "us-ok"@,
        "Oklahoma Secretary of State"@,
        "Oklahoma State Banking Department"@,
        "Oklahoma Insurance Department"@,
        "Oklahoma Securities Commission"@,
        "https://www.sos.ok.gov"@,
        "https://www.ok.gov/banking"@,
    )
}

/// Regulators of Oklahoma.
pub fn ok_regulators() -> (r: Vec<LicensepackRegulator>)
    ensures
        regulators_view(r@) == spec_ok_regulators(),
        regulators_view(r@) == spec_state_regulators(
            "us-ok"@,
            "Oklahoma Secretary of State"@,
            "Oklahoma State Banking Department"@,
            "Oklahoma Insurance Department"@,
            "Oklahoma Securities Commission"@,
            "https://www.sos.ok.gov"@,
            "https://www.ok.gov/banking"@,
        ),
{
    state_regulators(
        "Oklahoma",
        "us-ok",
        "Oklahoma Secretary of State",
        "Oklahoma State Banking Department",
        "Oklahoma Insurance Department",
        "Oklahoma Securities Commission",
        "https://www.sos.ok.gov",
        "https://www.ok.gov/banking",
    )
}

/// The view of `ok_license_types`.
pub open spec fn spec_ok_license_types() -> Seq<LicenseTypeView> {
    spec_state_license_types("Oklahoma"@, "us-ok"@)
}

/// Licence types of Oklahoma.
pub fn ok_license_types() -> (r: Vec<LicenseTypeDefinition>)
    ensures
        license_types_view(r@) == spec_ok_license_types(),
        license_types_view(r@) == spec_state_license_types("Oklahoma"@, "us-ok"@),
{
    state_license_types("Oklahoma", "us-ok")
}

/// The view of `or_regulators`.
pub open spec fn spec_or_regulators() -> Seq<RegulatorView> {
    spec_state_regulators(
        "us-or"@,
        "Oregon Secretary of State"@,
        "Oregon Division of Financial Regulation"@,
        "Oregon Division of Financial Regulation Insurance"@,
        "Oregon Division of Financial Regulation Securities"@,
        "https://sos.oregon.gov"@,
        "https://dfr.oregon.gov"@,
    )
}

/// Regulators of Oregon.
pub fn or_regulators() -> (r: Vec<LicensepackRegulator>)
    ensures
        regulators_view(r@) == spec_or_regulators(),
        regulators_view(r@) == spec_state_regulators(
            "us-or"@,
            "Oregon Secretary of State"@,
            "Oregon Division of Financial Regulation"@,
            "Oregon Division of Financial Regulation Insurance"@,
            "Oregon Division of Financial Regulation Securities"@,
            "https://sos.oregon.gov"@,
            "https://dfr.oregon.gov"@,
        ),
{
    state_regulators(
        "Oregon",
        "us-or",
        "Oregon Secretary of State",
        "Oregon Division of Financial Regulation",
        "Oregon Division of Financial Regulation Insurance",
        "Oregon Division of Financial Regulation Securities",
        "https://sos.oregon.gov",
        "https://dfr.oregon.gov",
    )
}

/// The view of `or_license_types`.
pub open spec fn spec_or_license_types() -> Seq<LicenseTypeView> {
    spec_state_license_types("Oregon"@, "us-or"@)
}

/// Licence types of Oregon.
pub fn or_license_types() -> (r: Vec<LicenseTypeDefinition>)
    ensures
        license_types_view(r@) == spec_or_license_types(),
        license_types_view(r@) == spec_state_license_types("Oregon"@, "us-or"@),
{
    state_license_types("Oregon", "us-or")
}

/// The view of `pa_regulators`.
pub open spec fn spec_pa_regulators() -> Seq<RegulatorView> {
    spec_state_regulators(
        "us-pa"@,
        "Pennsylvania Department of State"@,
        "Pennsylvania Department of Banking and Securities"@,
        "Pennsylvania Insurance Department"@,
        "Pennsylvania Department of Banking and Securities"@,
        "https://www.dos.pa.gov"@,
        "https://www.dobs.pa.gov"@,
    )
}

/// Regulators of Pennsylvania.
pub fn pa_regulators() -> (r: Vec<LicensepackRegulator>)
    ensures
        regulators_view(r@) == spec_pa_regulators(),
        regulators_view(r@) == spec_state_regulators(
            "us-pa"@,
            "Pennsylvania Department of State"@,
            "Pennsylvania Department of Banking and Securities"@,
            "Pennsylvania Insurance Department"@,
            "Pennsylvania Department of Banking and Securities"@,
            "https://www.dos.pa.gov"@,
            "https://www.dobs.pa.gov"@,
        ),
{
    state_regulators(
        "Pennsylvania",
        "us-pa",
        "Pennsylvania Department of State",
        "Pennsylvania Department of Banking and Securities",
        "Pennsylvania Insurance Department",
        "Pennsylvania Department of Banking and Securities",
        "https://www.dos.pa.gov",
        "https://www.dobs.pa.gov",
    )
}

/// The view of `pa_license_types`.
pub open spec fn spec_pa_license_types() -> Seq<LicenseTypeView> {
    spec_state_license_types("Pennsylvania"@, "us-pa"@)
}

/// Licence types of Pennsylvania.
pub fn pa_license_types() -> (r: Vec<LicenseTypeDefinition>)
    ensures
        license_types_view(r@) == spec_pa_license_types(),
        license_types_view(r@) == spec_state_license_types("Pennsylvania"@, "us-pa"@),
{
    state_license_types("Pennsylvania", "us-pa")
}

/// The view of `ri_regulators`.
pub open spec fn spec_ri_regulators() -> Seq<RegulatorView> {
    spec_state_regulators(
        "us-ri"@,
        "Rhode Island Secretary of State"@,
        "Rhode Island Division of Banking"@,
        "Rhode Island Division of Insurance"@,
        "Rhode Island Division of Securities"@,
        "https://www.sos.ri.gov"@,
        "https://dbr.ri.gov"@,
    )
}

/// Regulators of Rhode Island.
pub fn ri_regulators() -> (r: Vec<LicensepackRegulator>)
    ensures
        regulators_view(r@) == spec_ri_regulators(),
        regulators_view(r@) == spec_state_regulators(
            "us-ri"@,
            "Rhode Island Secretary of State"@,
            "Rhode Island Division of Banking"@,
            "Rhode Island Division of Insurance"@,
            "Rhode Island Division of Securities"@,
            "https://www.sos.ri.gov"@,
            "https://dbr.ri.gov"@,
        ),
{
    state_regulators(
        "Rhode Island",
        "us-ri",
        "Rhode Island Secretary of State",
        "Rhode Island Division of Banking",
        "Rhode Island Division of Insurance",
        "Rhode Island Division of Securities",
        "https://www.sos.ri.gov",
        "https://dbr.ri.gov",
    )
}

/// The view of `ri_license_types`.
pub open spec fn spec_ri_license_types() -> Seq<LicenseTypeView> {
    spec_state_license_types("Rhode Island"@, "us-ri"@)
}

/// Licence types of Rhode Island.
pub fn ri_license_types() -> (r: Vec<LicenseTypeDefinition>)
    ensures
        license_types_view(r@) == spec_ri_license_types(),
        license_types_view(r@) == spec_state_license_types("Rhode Island"@, "us-ri"@),
{
    state_license_types("Rhode Island", "us-ri")
}

/// The view of `sc_regulators`.
pub open spec fn spec_sc_regulators() -> Seq<RegulatorView> {
    spec_state_regulators(
        "us-sc"@,
        "South Carolina Secretary of State"@,
        "South Carolina Board of Financial Institutions"@,
        "South Carolina Department of Insurance"@,
        "South Carolina Securities Division"@,
        "https://sos.sc.gov"@,
        "https://bofi.sc.gov"@,
    )
}

/// Regulators of South Carolina.
pub fn sc_regulators() -> (r: Vec<LicensepackRegulator>)
    ensures
        regulators_view(r@) == spec_sc_regulators(),
        regulators_view(r@) == spec_state_regulators(
            "us-sc"@,
            "South Carolina Secretary of State"@,
            "South Carolina Board of Financial Institutions"@,
            "South Carolina Department of Insurance"@,
            "South Carolina Securities Division"@,
            "https://sos.sc.gov"@,
            "https://bofi.sc.gov"@,
        ),
{
    state_regulators(
        "South Carolina",
        "us-sc",
        "South Carolina Secretary of State",
        "South Carolina Board of Financial Institutions",
        "South Carolina Department of Insurance",
        "South Carolina Securities Division",
        "https://sos.sc.gov",
        "https://bofi.sc.gov",
    )
}

/// The view of `sc_license_types`.
pub open spec fn spec_sc_license_types() -> Seq<LicenseTypeView> {
    spec_state_license_types("South Carolina"@, "us-sc"@)
}

/// Licence types of South Carolina.
pub fn sc_license_types() -> (r: Vec<LicenseTypeDefinition>)
    ensures
        license_types_view(r@) == spec_sc_license_types(),
        license_types_view(r@) == spec_state_license_types("South Carolina"@, "us-sc"@),
{
    state_license_types("South Carolina", "us-sc")
}

/// The view of `sd_regulators`.
pub open spec fn spec_sd_regulators() -> Seq<RegulatorView> {
    spec_state_regulators(
        "us-sd"@,
        "South Dakota Secretary of State"@,
        "South Dakota Division of Banking"@,
        "South Dakota Division of Insurance"@,
        "South Dakota Division of Securities"@,
        "https://sdsos.gov"@,
        "https://dlr.sd.gov/banking"@,
    )
}

/// Regulators of South Dakota.
pub fn sd_regulators() -> (r: Vec<LicensepackRegulator>)
    ensures
        regulators_view(r@) == spec_sd_regulators(),
        regulators_view(r@) == spec_state_regulators(
            "us-sd"@,
            "South Dakota Secretary of State"@,
            "South Dakota Division of Banking"@,
            "South Dakota Division of Insurance"@,
            "South Dakota Division of Securities"@,
            "https://sdsos.gov"@,
            "https://dlr.sd.gov/banking"@,
        ),
{
    state_regulators(
        "South Dakota",
        "us-sd",
        "South Dakota Secretary of State",
        "South Dakota Division of Banking",
        "South Dakota Division of Insurance",
        "South Dakota Division of Securities",
        "https://sdsos.gov",
        "https://dlr.sd.gov/banking",
    )
}

/// The view of `sd_license_types`.
pub open spec fn spec_sd_license_types() -> Seq<LicenseTypeView> {
    spec_state_license_types("South Dakota"@, "us-sd"@)
}

/// Licence types of South Dakota.
pub fn sd_license_types() -> (r: Vec<LicenseTypeDefinition>)
    ensures
        license_types_view(r@) == spec_sd_license_types(),
        license_types_view(r@) == spec_state_license_types("South Dakota"@, "us-sd"@),
{
    state_license_types("South Dakota", "us-sd")
}

/// The view of `tn_regulators`.
pub open spec fn spec_tn_regulators() -> Seq<RegulatorView> {
    spec_state_regulators(
        "us-tn"@,
        "Tennessee Secretary of State"@,
        "Tennessee Department of Financial Institutions"@,
        "Tennessee Department of Commerce and Insurance"@,
        "Tennessee Securities Division"@,
        "https://sos.tn.gov"@,
        "https://www.tn.gov/tdfi"@,
    )
}

/// Regulators of Tennessee.
pub fn tn_regulators() -> (r: Vec<LicensepackRegulator>)
    ensures
        regulators_view(r@) == spec_tn_regulators(),
        regulators_view(r@) == spec_state_regulators(
            "us-tn"@,
            "Tennessee Secretary of State"@,
            "Tennessee Department of Financial Institutions"@,
            "Tennessee Department of Commerce and Insurance"@,
            "Tennessee Securities Division"@,
            "https://sos.tn.gov"@,
            "https://www.tn.gov/tdfi"@,
        ),
{
    state_regulators(
        "Tennessee",
        "us-tn",
        "Tennessee Secretary of State",
        "Tennessee Department of Financial Institutions",
        "Tennessee Department of Commerce and Insurance",
        "Tennessee Securities Division",
        "https://sos.tn.gov",
        "https://www.tn.gov/tdfi",
    )
}

/// The view of `tn_license_types`.
pub open spec fn spec_tn_license_types() -> Seq<LicenseTypeView> {
    spec_state_license_types("Tennessee"@, "us-tn"@)
}

/// Licence types of Tennessee.
pub fn tn_license_types() -> (r: Vec<LicenseTypeDefinition>)
    ensures
        license_types_view(r@) == spec_tn_license_types(),
        license_types_view(r@) == spec_state_license_types("Tennessee"@, "us-tn"@),
{
    state_license_types("Tennessee", "us-tn")
}

/// The view of `ut_regulators`.
pub open spec fn spec_ut_regulators() -> Seq<RegulatorView> {
    spec_state_regulators(
        "us-ut"@,
        "Utah Division of Corporations"@,
        "Utah Department of Financial Institutions"@,
        "Utah Insurance Department"@,
        "Utah Division of Securities"@,
        "https://corporations.utah.gov"@,
        "https://dfi.utah.gov"@,
    )
}

/// Regulators of Utah.
pub fn ut_regulators() -> (r: Vec<LicensepackRegulator>)
    ensures
        regulators_view(r@) == spec_ut_regulators(),
        regulators_view(r@) == spec_state_regulators(
            "us-ut"@,
            "Utah Division of Corporations"@,
            "Utah Department of Financial Institutions"@,
            "Utah Insurance Department"@,
            "Utah Division of Securities"@,
            "https://corporations.utah.gov"@,
            "https://dfi.utah.gov"@,
        ),
{
    state_regulators(
        "Utah",
        "us-ut",
        "Utah Division of Corporations",
        "Utah Department of Financial Institutions",
        "Utah Insurance Department",
        "Utah Division of Securities",
        "https://corporations.utah.gov",
        "https://dfi.utah.gov",
    )
}

/// The view of `ut_license_types`.
pub open spec fn spec_ut_license_types() -> Seq<LicenseTypeView> {
    spec_state_license_types("Utah"@, "us-ut"@)
}

/// Licence types of Utah.
pub fn ut_license_types() -> (r: Vec<LicenseTypeDefinition>)
    ensures
        license_types_view(r@) == spec_ut_license_types(),
        license_types_view(r@) == spec_state_license_types("Utah"@, "us-ut"@),
{
    state_license_types("Utah", "us-ut")
}

/// The view of `vt_regulators`.
pub open spec fn spec_vt_regulators() -> Seq<RegulatorView> {
    spec_state_regulators(
        "us-vt"@,
        "Vermont Secretary of State"@,
        "Vermont Department of Financial Regulation"@,
        "Vermont Department of Financial Regulation Insurance"@,
        "Vermont Department of Financial Regulation Securities"@,
        "https://sos.vermont.gov"@,
        "https://dfr.vermont.gov"@,
    )
}

/// Regulators of Vermont.
pub fn vt_regulators() -> (r: Vec<LicensepackRegulator>)
    ensures
        regulators_view(r@) == spec_vt_regulators(),
        regulators_view(r@) == spec_state_regulators(
            "us-vt"@,
            "Vermont Secretary of State"@,
            "Vermont Department of Financial Regulation"@,
            "Vermont Department of Financial Regulation Insurance"@,
            "Vermont Department of Financial Regulation Securities"@,
            "https://sos.vermont.gov"@,
            "https://dfr.vermont.gov"@,
        ),
{
    state_regulators(
        "Vermont",
        "us-vt",
        "Vermont Secretary of State",
        "Vermont Department of Financial Regulation",
        "Vermont Department of Financial Regulation Insurance",
        "Vermont Department of Financial Regulation Securities",
        "https://sos.vermont.gov",
        "https://dfr.vermont.gov",
    )
}

/// The view of `vt_license_types`.
pub open spec fn spec_vt_license_types() -> Seq<LicenseTypeView> {
    spec_state_license_types("Vermont"@, "us-vt"@)
}

/// Licence types of Vermont.
pub fn vt_license_types() -> (r: Vec<LicenseTypeDefinition>)
    ensures
        license_types_view(r@) == spec_vt_license_types(),
        license_types_view(r@) == spec_state_license_types("Vermont"@, "us-vt"@),
{
    state_license_types("Vermont", "us-vt")
}

/// The view of `va_regulators`.
pub open spec fn spec_va_regulators() -> Seq<RegulatorView> {
    spec_state_regulators(
        "us-va"@,
        "Virginia State Corporation Commission"@,
        "Virginia Bureau of Financial Institutions"@,
        "Virginia Bureau of Insurance"@,
        "Virginia Division of Securities"@,
        "https://www.scc.virginia.gov"@,
        "https://www.scc.virginia.gov/pages/Bureau-of-Financial-Institutions"@,
    )
}

/// Regulators of Virginia.
pub fn va_regulators() -> (r: Vec<LicensepackRegulator>)
    ensures
        regulators_view(r@) == spec_va_regulators(),
        regulators_view(r@) == spec_state_regulators(
            "us-va"@,
            "Virginia State Corporation Commission"@,
            "Virginia Bureau of Financial Institutions"@,
            "Virginia Bureau of Insurance"@,
            "Virginia Division of Securities"@,
            "https://www.scc.virginia.gov"@,
            "https://www.scc.virginia.gov/pages/Bureau-of-Financial-Institutions"@,
        ),
{
    state_regulators(
        "Virginia",
        "us-va",
        "Virginia State Corporation Commission",
        "Virginia Bureau of Financial Institutions",
        "Virginia Bureau of Insurance",
        "Virginia Division of Securities",
        "https://www.scc.virginia.gov",
        "https://www.scc.virginia.gov/pages/Bureau-of-Financial-Institutions",
    )
}

/// The view of `va_license_types`.
pub open spec fn spec_va_license_types() -> Seq<LicenseTypeView> {
    spec_state_license_types("Virginia"@, "us-va"@)
}

/// Licence types of Virginia.
pub fn va_license_types() -> (r: Vec<LicenseTypeDefinition>)
    ensures
        license_types_view(r@) == spec_va_license_types(),
        license_types_view(r@) == spec_state_license_types("Virginia"@, "us-va"@),
{
    state_license_types("Virginia", "us-va")
}

/// The view of `wa_regulators`.
pub open spec fn spec_wa_regulators() -> Seq<RegulatorView> {
    spec_state_regulators(
        "us-wa"@,
        "Washington Secretary of State"@,
        "Washington Department of Financial Institutions"@,
        "Washington Office of the Insurance Commissioner"@,
        "Washington Department of Financial Institutions Securities"@,
        "https://www.sos.wa.gov"@,
        "https://dfi.wa.gov"@,
    )
}

/// Regulators of Washington.
pub fn wa_regulators() -> (r: Vec<LicensepackRegulator>)
    ensures
        regulators_view(r@) == spec_wa_regulators(),
        regulators_view(r@) == spec_state_regulators(
            "us-wa"@,
            "Washington Secretary of State"@,
            "Washington Department of Financial Institutions"@,
            "Washington Office of the Insurance Commissioner"@,
            "Washington Department of Financial Institutions Securities"@,
            "https://www.sos.wa.gov"@,
            "https://dfi.wa.gov"@,
        ),
{
    state_regulators(
        "Washington",
        "us-wa",
        "Washington Secretary of State",
        "Washington Department of Financial Institutions",
        "Washington Office of the Insurance Commissioner",
        "Washington Department of Financial Institutions Securities",
        "https://www.sos.wa.gov",
        "https://dfi.wa.gov",
    )
}

/// The view of `wa_license_types`.
pub open spec fn spec_wa_license_types() -> Seq<LicenseTypeView> {
    spec_state_license_types("Washington"@, "us-wa"@)
}

/// Licence types of Washington.
pub fn wa_license_types() -> (r: Vec<LicenseTypeDefinition>)
    ensures
        license_types_view(r@) == spec_wa_license_types(),
        license_types_view(r@) == spec_state_license_types("Washington"@, "us-wa"@),
{
    state_license_types("Washington", "us-wa")
}

/// The view of `wv_regulators`.
pub open spec fn spec_wv_regulators() -> Seq<RegulatorView> {
    spec_state_regulators(
        "us-wv"@,
        "West Virginia Secretary of State"@,
        "West Virginia Division of Financial Institutions"@,
        "West Virginia Offices of the Insurance Commissioner"@,
        "West Virginia Securities Commission"@,
        "https://sos.wv.gov"@,
        "https://dfi.wv.gov"@,
    )
}

/// Regulators of West Virginia.
pub fn wv_regulators() -> (r: Vec<LicensepackRegulator>)
    ensures
        regulators_view(r@) == spec_wv_regulators(),
        regulators_view(r@) == spec_state_regulators(
            "us-wv"@,
            "West Virginia Secretary of State"@,
            "West Virginia Division of Financial Institutions"@,
            "West Virginia Offices of the Insurance Commissioner"@,
            "West Virginia Securities Commission"@,
            "https://sos.wv.gov"@,
            "https://dfi.wv.gov"@,
        ),
{
    state_regulators(
        "West Virginia",
        "us-wv",
        "West Virginia Secretary of State",
        "West Virginia Division of Financial Institutions",
        "West Virginia Offices of the Insurance Commissioner",
        "West Virginia Securities Commission",
        "https://sos.wv.gov",
        "https://dfi.wv.gov",
    )
}

/// The view of `wv_license_types`.
pub open spec fn spec_wv_license_types() -> Seq<LicenseTypeView> {
    spec_state_license_types("West Virginia"@, "us-wv"@)
}

/// Licence types of West Virginia.
pub fn wv_license_types() -> (r: Vec<LicenseTypeDefinition>)
    ensures
        license_types_view(r@) == spec_wv_license_types(),
        license_types_view(r@) == spec_state_license_types("West Virginia"@, "us-wv"@),
{
    state_license_types("West Virginia", "us-wv")
}

/// The view of `wi_regulators`.
pub open spec fn spec_wi_regulators() -> Seq<RegulatorView> {
    spec_state_regulators(
        "us-wi"@,
        "Wisconsin Department of Financial Institutions (Corporations)"@,
        "Wisconsin Department of Financial Institutions (Banking)"@,
        "Wisconsin Office of the Commissioner of Insurance"@,
        "Wisconsin Division of Securities"@,
        "https://www.wdfi.org"@,
        "https://www.wdfi.org/fi"@,
    )
}

/// Regulators of Wisconsin.
pub fn wi_regulators() -> (r: Vec<LicensepackRegulator>)
    ensures
        regulators_view(r@) == spec_wi_regulators(),
        regulators_view(r@) == spec_state_regulators(
            "us-wi"@,
            "Wisconsin Department of Financial Institutions (Corporations)"@,
            "Wisconsin Department of Financial Institutions (Banking)"@,
            "Wisconsin Office of the Commissioner of Insurance"@,
            "Wisconsin Division of Securities"@,
            "https://www.wdfi.org"@,
            "https://www.wdfi.org/fi"@,
        ),
{
    state_regulators(
        "Wisconsin",
        "us-wi",
        "Wisconsin Department of Financial Institutions (Corporations)",
        "Wisconsin Department of Financial Institutions (Banking)",
        "Wisconsin Office of the Commissioner of Insurance",
        "Wisconsin Division of Securities",
        "https://www.wdfi.org",
        "https://www.wdfi.org/fi",
    )
}

/// The view of `wi_license_types`.
pub open spec fn spec_wi_license_types() -> Seq<LicenseTypeView> {
    spec_state_license_types("Wisconsin"@, "us-wi"@)
}

/// Licence types of Wisconsin.
pub fn wi_license_types() -> (r: Vec<LicenseTypeDefinition>)
    ensures
        license_types_view(r@) == spec_wi_license_types(),
        license_types_view(r@) == spec_state_license_types("Wisconsin"@, "us-wi"@),
{
    state_license_types("Wisconsin", "us-wi")
}

/// The view of `dc_regulators`.
pub open spec fn spec_dc_regulators() -> Seq<RegulatorView> {
    spec_state_regulators(
        "us-dc"@,
        "DC Department of Licensing and Consumer Protection"@,
        "DC Department of Insurance Securities and Banking"@,
        "DC Department of Insurance Securities and Banking"@,
        "DC Department of Insurance Securities and Banking Securities"@,
        "https://dcra.dc.gov"@,
        "https://disb.dc.gov"@,
    )
}

/// Regulators of District of Columbia.
pub fn dc_regulators() -> (r: Vec<LicensepackRegulator>)
    ensures
        regulators_view(r@) == spec_dc_regulators(),
        regulators_view(r@) == spec_state_regulators(
            "us-dc"@,
            "DC Department of Licensing and Consumer Protection"@,
            "DC Department of Insurance Securities and Banking"@,
            "DC Department of Insurance Securities and Banking"@,
            "DC Department of Insurance Securities and Banking Securities"@,
            "https://dcra.dc.gov"@,
            "https://disb.dc.gov"@,
        ),
{
    state_regulators(
        "District of Columbia",
        "us-dc",
        "DC Department of Licensing and Consumer Protection",
        "DC Department of Insurance Securities and Banking",
        "DC Department of Insurance Securities and Banking",
        "DC Department of Insurance Securities and Banking Securities",
        "https://dcra.dc.gov",
        "https://disb.dc.gov",
    )
}

/// The view of `dc_license_types`.
pub open spec fn spec_dc_license_types() -> Seq<LicenseTypeView> {
    spec_state_license_types("District of Columbia"@, "us-dc"@)
}

/// Licence types of District of Columbia.
pub fn dc_license_types() -> (r: Vec<LicenseTypeDefinition>)
    ensures
        license_types_view(r@) == spec_dc_license_types(),
        license_types_view(r@) == spec_state_license_types("District of Columbia"@, "us-dc"@),
{
    state_license_types("District of Columbia", "us-dc")
}

/// The view of `pr_regulators`.
pub open spec fn spec_pr_regulators() -> Seq<RegulatorView> {
    spec_state_regulators(
        "us-pr"@,
        "Puerto Rico Department of State"@,
        "Puerto Rico OCIF (Office of the Commissioner of Financial Institutions)"@,
        "Puerto Rico Office of the Insurance Commissioner"@,
        "Puerto Rico OCIF Securities"@,
        "https://www.estado.pr.gov"@,
        "https://ocif.pr.gov"@,
    )
}

/// Regulators of Puerto Rico.
pub fn pr_regulators() -> (r: Vec<LicensepackRegulator>)
    ensures
        regulators_view(r@) == spec_pr_regulators(),
        regulators_view(r@) == spec_state_regulators(
            "us-pr"@,
            "Puerto Rico Department of State"@,
            "Puerto Rico OCIF (Office of the Commissioner of Financial Institutions)"@,
            "Puerto Rico Office of the Insurance Commissioner"@,
            "Puerto Rico OCIF Securities"@,
            "https://www.estado.pr.gov"@,
            "https://ocif.pr.gov"@,
        ),
{
    state_regulators(
        "Puerto Rico",
        "us-pr",
        "Puerto Rico Department of State",
        "Puerto Rico OCIF (Office of the Commissioner of Financial Institutions)",
        "Puerto Rico Office of the Insurance Commissioner",
        "Puerto Rico OCIF Securities",
        "https://www.estado.pr.gov",
        "https://ocif.pr.gov",
    )
}

/// The view of `pr_license_types`.
pub open spec fn spec_pr_license_types() -> Seq<LicenseTypeView> {
    spec_state_license_types("Puerto Rico"@, "us-pr"@)
}

/// Licence types of Puerto Rico.
pub fn pr_license_types() -> (r: Vec<LicenseTypeDefinition>)
    ensures
        license_types_view(r@) == spec_pr_license_types(),
        license_types_view(r@) == spec_state_license_types("Puerto Rico"@, "us-pr"@),
{
    state_license_types("Puerto Rico", "us-pr")
}

/// The view of `gu_regulators`.
pub open spec fn spec_gu_regulators() -> Seq<RegulatorView> {
    spec_state_regulators(
        "us-gu"@,
        "Guam Department of Revenue and Taxation"@,
        "Guam Banking and Insurance Commissioner"@,
        "Guam Insurance Branch"@,
        "Guam Securities Division"@,
        "https://www.guamtax.com"@,
        "https://banking.guam.gov"@,
    )
}

/// Regulators of Guam.
pub fn gu_regulators() -> (r: Vec<LicensepackRegulator>)
    ensures
        regulators_view(r@) == spec_gu_regulators(),
        regulators_view(r@) == spec_state_regulators(
            "us-gu"@,
            "Guam Department of Revenue and Taxation"@,
            "Guam Banking and Insurance Commissioner"@,
            "Guam Insurance Branch"@,
            "Guam Securities Division"@,
            "https://www.guamtax.com"@,
            "https://banking.guam.gov"@,
        ),
{
    state_regulators(
        "Guam",
        "us-gu",
        "Guam Department of Revenue and Taxation",
        "Guam Banking and Insurance Commissioner",
        "Guam Insurance Branch",
        "Guam Securities Division",
        "https://www.guamtax.com",
        "https://banking.guam.gov",
    )
}

/// The view of `gu_license_types`.
pub open spec fn spec_gu_license_types() -> Seq<LicenseTypeView> {
    spec_state_license_types("Guam"@, "us-gu"@)
}

/// Licence types of Guam.
pub fn gu_license_types() -> (r: Vec<LicenseTypeDefinition>)
    ensures
        license_types_view(r@) == spec_gu_license_types(),
        license_types_view(r@) == spec_state_license_types("Guam"@, "us-gu"@),
{
    state_license_types("Guam", "us-gu")
}

/// The view of `vi_regulators`.
pub open spec fn spec_vi_regulators() -> Seq<RegulatorView> {
    spec_state_regulators(
        "us-vi"@,
        "USVI Office of the Lieutenant Governor"@,
        "USVI Division of Banking Insurance and Financial Regulation"@,
        "USVI Division of Banking Insurance"@,
        "USVI Securities Division"@,
        "https://ltg.gov.vi"@,
        "https://ltg.gov.vi/division-of-banking"@,
    )
}

/// Regulators of US Virgin Islands.
pub fn vi_regulators() -> (r: Vec<LicensepackRegulator>)
    ensures
        regulators_view(r@) == spec_vi_regulators(),
        regulators_view(r@) == spec_state_regulators(
            "us-vi"@,
            "USVI Office of the Lieutenant Governor"@,
            "USVI Division of Banking Insurance and Financial Regulation"@,
            "USVI Division of Banking Insurance"@,
            "USVI Securities Division"@,
            "https://ltg.gov.vi"@,
            "https://ltg.gov.vi/division-of-banking"@,
        ),
{
    state_regulators(
        "US Virgin Islands",
        "us-vi",
        "USVI Office of the Lieutenant Governor",
        "USVI Division of Banking Insurance and Financial Regulation",
        "USVI Division of Banking Insurance",
        "USVI Securities Division",
        "https://ltg.gov.vi",
        "https://ltg.gov.vi/division-of-banking",
    )
}

/// The view of `vi_license_types`.
pub open spec fn spec_vi_license_types() -> Seq<LicenseTypeView> {
    spec_state_license_types("US Virgin Islands"@, "us-vi"@)
}

/// Licence types of US Virgin Islands.
pub fn vi_license_types() -> (r: Vec<LicenseTypeDefinition>)
    ensures
        license_types_view(r@) == spec_vi_license_types(),
        license_types_view(r@) == spec_state_license_types("US Virgin Islands"@, "us-vi"@),
{
    state_license_types("US Virgin Islands", "us-vi")
}

/// The view of `as_regulators`.
pub open spec fn spec_as_regulators() -> Seq<RegulatorView> {
    spec_state_regulators(
        "us-as"@,
        "American Samoa Commerce Department"@,
        "American Samoa Banking Board"@,
        "American Samoa Insurance Commissioner"@,
        "American Samoa Securities"@,
        "https://www.americansamoa.gov"@,
        "https://www.americansamoa.gov"@,
    )
}

/// Regulators of American Samoa.
pub fn as_regulators() -> (r: Vec<LicensepackRegulator>)
    ensures
        regulators_view(r@) == spec_as_regulators(),
        regulators_view(r@) == spec_state_regulators(
            "us-as"@,
            "American Samoa Commerce Department"@,
            "American Samoa Banking Board"@,
            "American Samoa Insurance Commissioner"@,
            "American Samoa Securities"@,
            "https://www.americansamoa.gov"@,
            "https://www.americansamoa.gov"@,
        ),
{
    state_regulators(
        "American Samoa",
        "us-as",
        "American Samoa Commerce Department",
        "American Samoa Banking Board",
        "American Samoa Insurance Commissioner",
        "American Samoa Securities",
        "https://www.americansamoa.gov",
        "https://www.americansamoa.gov",
    )
}

/// The view of `as_license_types`.
pub open spec fn spec_as_license_types() -> Seq<LicenseTypeView> {
    spec_state_license_types("American Samoa"@, "us-as"@)
}

/// Licence types of American Samoa.
pub fn as_license_types() -> (r: Vec<LicenseTypeDefinition>)
    ensures
        license_types_view(r@) == spec_as_license_types(),
        license_types_view(r@) == spec_state_license_types("American Samoa"@, "us-as"@),
{
    state_license_types("American Samoa", "us-as")
}

/// The view of `mp_regulators`.
pub open spec fn spec_mp_regulators() -> Seq<RegulatorView> {
    spec_state_regulators(
        "us-mp"@,
        "CNMI Department of Commerce"@,
        "CNMI Banking Commissioner"@,
        "CNMI Insurance Commissioner"@,
        "CNMI Securities Division"@,
        "https://commerce.gov.mp"@,
        "https://commerce.gov.mp"@,
    )
}

/// Regulators of Northern Mariana Islands.
pub fn mp_regulators() -> (r: Vec<LicensepackRegulator>)
    ensures
        regulators_view(r@) == spec_mp_regulators(),
        regulators_view(r@) == spec_state_regulators(
            "us-mp"@,
            "CNMI Department of Commerce"@,
            "CNMI Banking Commissioner"@,
            "CNMI Insurance Commissioner"@,
            "CNMI Securities Division"@,
            "https://commerce.gov.mp"@,
            "https://commerce.gov.mp"@,
        ),
{
    state_regulators(
        "Northern Mariana Islands",
        "us-mp",
        "CNMI Department of Commerce",
        "CNMI Banking Commissioner",
        "CNMI Insurance Commissioner",
        "CNMI Securities Division",
        "https://commerce.gov.mp",
        "https://commerce.gov.mp",
    )
}

/// The view of `mp_license_types`.
pub open spec fn spec_mp_license_types() -> Seq<LicenseTypeView> {
    spec_state_license_types("Northern Mariana Islands"@, "us-mp"@)
}

/// Licence types of Northern Mariana Islands.
pub fn mp_license_types() -> (r: Vec<LicenseTypeDefinition>)
    ensures
        license_types_view(r@) == spec_mp_license_types(),
        license_types_view(r@) == spec_state_license_types("Northern Mariana Islands"@, "us-mp"@),
{
    state_license_types("Northern Mariana Islands", "us-mp")
}

/// The view of `us_regulators`.
pub open spec fn spec_us_regulators() -> Seq<RegulatorView> {
    spec_ny_regulators()
        + spec_ca_regulators()
        + spec_de_regulators()
        + spec_wy_regulators()
        + spec_tx_regulators()
        + spec_fl_regulators()
        + spec_nv_regulators()
        + spec_il_regulators()
        + spec_al_regulators()
        + spec_ak_regulators()
        + spec_az_regulators()
        + spec_ar_regulators()
        + spec_co_regulators()
        + spec_ct_regulators()
        + spec_ga_regulators()
        + spec_hi_regulators()
        + spec_id_regulators()
        + spec_in_regulators()
        + spec_ia_regulators()
        + spec_ks_regulators()
        + spec_ky_regulators()
        + spec_la_regulators()
        + spec_me_regulators()
        + spec_md_regulators()
        + spec_ma_regulators()
        + spec_mi_regulators()
        + spec_mn_regulators()
        + spec_ms_regulators()
        + spec_mo_regulators()
        + spec_mt_regulators()
        + spec_ne_regulators()
        + spec_nh_regulators()
        + spec_nj_regulators()
        + spec_nm_regulators()
        + spec_nc_regulators()
        + spec_nd_regulators()
        + spec_oh_regulators()
        + spec_ok_regulators()
        + spec_or_regulators()
        + spec_pa_regulators()
        + spec_ri_regulators()
        + spec_sc_regulators()
        + spec_sd_regulators()
        + spec_tn_regulators()
        + spec_ut_regulators()
        + spec_vt_regulators()
        + spec_va_regulators()
        + spec_wa_regulators()
        + spec_wv_regulators()
        + spec_wi_regulators()
        + spec_dc_regulators()
        + spec_pr_regulators()
        + spec_gu_regulators()
        + spec_vi_regulators()
        + spec_as_regulators()
        + spec_mp_regulators()
}

/// All United States regulators across all 50 states, DC, and territories.
pub fn us_regulators() -> (r: Vec<LicensepackRegulator>)
    ensures
        regulators_view(r@) == spec_us_regulators(),
        regulators_view(r@) == spec_ny_regulators()
            + spec_ca_regulators()
            + spec_de_regulators()
            + spec_wy_regulators()
            + spec_tx_regulators()
            + spec_fl_regulators()
            + spec_nv_regulators()
            + spec_il_regulators()
            + spec_al_regulators()
            + spec_ak_regulators()
            + spec_az_regulators()
            + spec_ar_regulators()
            + spec_co_regulators()
            + spec_ct_regulators()
            + spec_ga_regulators()
            + spec_hi_regulators()
            + spec_id_regulators()
            + spec_in_regulators()
            + spec_ia_regulators()
            + spec_ks_regulators()
            + spec_ky_regulators()
            + spec_la_regulators()
            + spec_me_regulators()
            + spec_md_regulators()
            + spec_ma_regulators()
            + spec_mi_regulators()
            + spec_mn_regulators()
            + spec_ms_regulators()
            + spec_mo_regulators()
            + spec_mt_regulators()
            + spec_ne_regulators()
            + spec_nh_regulators()
            + spec_nj_regulators()
            + spec_nm_regulators()
            + spec_nc_regulators()
            + spec_nd_regulators()
            + spec_oh_regulators()
            + spec_ok_regulators()
            + spec_or_regulators()
            + spec_pa_regulators()
            + spec_ri_regulators()
            + spec_sc_regulators()
            + spec_sd_regulators()
            + spec_tn_regulators()
            + spec_ut_regulators()
            + spec_vt_regulators()
            + spec_va_regulators()
            + spec_wa_regulators()
            + spec_wv_regulators()
            + spec_wi_regulators()
            + spec_dc_regulators()
            + spec_pr_regulators()
            + spec_gu_regulators()
            + spec_vi_regulators()
            + spec_as_regulators()
            + spec_mp_regulators(),
{
    let mut all: Vec<LicensepackRegulator> = Vec::new();
    proof {
        assert(regulators_view(all@) =~= Seq::<RegulatorView>::empty());
    }
    let ghost before = all@;
    let mut part = ny_regulators();
    let ghost added = part@;
    all.append(&mut part);
    proof {
        lemma_regulators_view_append(before, added);
        assert(regulators_view(all@) =~= spec_ny_regulators());
    }
    let ghost before = all@;
    let mut part = ca_regulators();
    let ghost added = part@;
    all.append(&mut part);
    proof {
        lemma_regulators_view_append(before, added);
        assert(regulators_view(all@) =~= spec_ny_regulators() + spec_ca_regulators());
    }
    let ghost before = all@;
    let mut part = de_regulators();
    let ghost added = part@;
    all.append(&mut part);
    proof {
        lemma_regulators_view_append(before, added);
        assert(regulators_view(all@) =~= spec_ny_regulators() + spec_ca_regulators() + spec_de_regulators());
    }
    let ghost before = all@;
    let mut part = wy_regulators();
    let ghost added = part@;
    all.append(&mut part);
    proof {
        lemma_regulators_view_append(before, added);
        assert(regulators_view(all@) =~= spec_ny_regulators() + spec_ca_regulators() + spec_de_regulators() + spec_wy_regulators());
    }
    let ghost before = all@;
    let mut part = tx_regulators();
    let ghost added = part@;
    all.append(&mut part);
    proof {
        lemma_regulators_view_append(before, added);
        assert(regulators_view(all@) =~= spec_ny_regulators() + spec_ca_regulators() + spec_de_regulators() + spec_wy_regulators() + spec_tx_regulators());
    }
    let ghost before = all@;
    let mut part = fl_regulators();
    let ghost added = part@;
    all.append(&mut part);
    proof {
        lemma_regulators_view_append(before, added);
        assert(regulators_view(all@) =~= spec_ny_regulators() + spec_ca_regulators() + spec_de_regulators() + spec_wy_regulators() + spec_tx_regulators() + spec_fl_regulators());
    }
    let ghost before = all@;
    let mut part = nv_regulators();
    let ghost added = part@;
    all.append(&mut part);
    proof {
        lemma_regulators_view_append(before, added);
        assert(regulators_view(all@) =~= spec_ny_regulators() + spec_ca_regulators() + spec_de_regulators() + spec_wy_regulators() + spec_tx_regulators() + spec_fl_regulators() + spec_nv_regulators());
    }
    let ghost before = all@;
    let mut part = il_regulators();
    let ghost added = part@;
    all.append(&mut part);
    proof {
        lemma_regulators_view_append(before, added);
        assert(regulators_view(all@) =~= spec_ny_regulators() + spec_ca_regulators() + spec_de_regulators() + spec_wy_regulators() + spec_tx_regulators() + spec_fl_regulators() + spec_nv_regulators() + spec_il_regulators());
    }
    let ghost before = all@;
    let mut part = al_regulators();
    let ghost added = part@;
    all.append(&mut part);
    proof {
        lemma_regulators_view_append(before, added);
        assert(regulators_view(all@) =~= spec_ny_regulators() + spec_ca_regulators() + spec_de_regulators() + spec_wy_regulators() + spec_tx_regulators() + spec_fl_regulators() + spec_nv_regulators() + spec_il_regulators() + spec_al_regulators());
    }
    let ghost before = all@;
    let mut part = ak_regulators();
    let ghost added = part@;
    all.append(&mut part);
    proof {
        lemma_regulators_view_append(before, added);
        assert(regulators_view(all@) =~= spec_ny_regulators() + spec_ca_regulators() + spec_de_regulators() + spec_wy_regulators() + spec_tx_regulators() + spec_fl_regulators() + spec_nv_regulators() + spec_il_regulators() + spec_al_regulators() + spec_ak_regulators());
    }
    let ghost before = all@;
    let mut part = az_regulators();
    let ghost added = part@;
    all.append(&mut part);
    proof {
        lemma_regulators_view_append(before, added);
        assert(regulators_view(all@) =~= spec_ny_regulators() + spec_ca_regulators() + spec_de_regulators() + spec_wy_regulators() + spec_tx_regulators() + spec_fl_regulators() + spec_nv_regulators() + spec_il_regulators() + spec_al_regulators() + spec_ak_regulators() + spec_az_regulators());
    }
    let ghost before = all@;
    let mut part = ar_regulators();
    let ghost added = part@;
    all.append(&mut part);
    proof {
        lemma_regulators_view_append(before, added);
        assert(regulators_view(all@) =~= spec_ny_regulators() + spec_ca_regulators() + spec_de_regulators() + spec_wy_regulators() + spec_tx_regulators() + spec_fl_regulators() + spec_nv_regulators() + spec_il_regulators() + spec_al_regulators() + spec_ak_regulators() + spec_az_regulators() + spec_ar_regulators());
    }
    let ghost before = all@;
    let mut part = co_regulators();
    let ghost added = part@;
    all.append(&mut part);
    proof {
        lemma_regulators_view_append(before, added);
        assert(regulators_view(all@) =~= spec_ny_regulators() + spec_ca_regulators() + spec_de_regulators() + spec_wy_regulators() + spec_tx_regulators() + spec_fl_regulators() + spec_nv_regulators() + spec_il_regulators() + spec_al_regulators() + spec_ak_regulators() + spec_az_regulators() + spec_ar_regulators() + spec_co_regulators());
    }
    let ghost before = all@;
    let mut part = ct_regulators();
    let ghost added = part@;
    all.append(&mut part);
    proof {
        lemma_regulators_view_append(before, added);
        assert(regulators_view(all@) =~= spec_ny_regulators() + spec_ca_regulators() + spec_de_regulators() + spec_wy_regulators() + spec_tx_regulators() + spec_fl_regulators() + spec_nv_regulators() + spec_il_regulators() + spec_al_regulators() + spec_ak_regulators() + spec_az_regulators() + spec_ar_regulators() + spec_co_regulators() + spec_ct_regulators());
    }
    let ghost before = all@;
    let mut part = ga_regulators();
    let ghost added = part@;
    all.append(&mut part);
    proof {
        lemma_regulators_view_append(before, added);
        assert(regulators_view(all@) =~= spec_ny_regulators() + spec_ca_regulators() + spec_de_regulators() + spec_wy_regulators() + spec_tx_regulators() + spec_fl_regulators() + spec_nv_regulators() + spec_il_regulators() + spec_al_regulators() + spec_ak_regulators() + spec_az_regulators() + spec_ar_regulators() + spec_co_regulators() + spec_ct_regulators() + spec_ga_regulators());
    }
    let ghost before = all@;
    let mut part = hi_regulators();
    let ghost added = part@;
    all.append(&mut part);
    proof {
        lemma_regulators_view_append(before, added);
        assert(regulators_view(all@) =~= spec_ny_regulators() + spec_ca_regulators() + spec_de_regulators() + spec_wy_regulators() + spec_tx_regulators() + spec_fl_regulators() + spec_nv_regulators() + spec_il_regulators() + spec_al_regulators() + spec_ak_regulators() + spec_az_regulators() + spec_ar_regulators() + spec_co_regulators() + spec_ct_regulators() + spec_ga_regulators() + spec_hi_regulators());
    }
    let ghost before = all@;
    let mut part = id_regulators();
    let ghost added = part@;
    all.append(&mut part);
    proof {
        lemma_regulators_view_append(before, added);
        assert(regulators_view(all@) =~= spec_ny_regulators() + spec_ca_regulators() + spec_de_regulators() + spec_wy_regulators() + spec_tx_regulators() + spec_fl_regulators() + spec_nv_regulators() + spec_il_regulators() + spec_al_regulators() + spec_ak_regulators() + spec_az_regulators() + spec_ar_regulators() + spec_co_regulators() + spec_ct_regulators() + spec_ga_regulators() + spec_hi_regulators() + spec_id_regulators());
    }
    let ghost before = all@;
    let mut part = in_regulators();
    let ghost added = part@;
    all.append(&mut part);
    proof {
        lemma_regulators_view_append(before, added);
        assert(regulators_view(all@) =~= spec_ny_regulators() + spec_ca_regulators() + spec_de_regulators() + spec_wy_regulators() + spec_tx_regulators() + spec_fl_regulators() + spec_nv_regulators() + spec_il_regulators() + spec_al_regulators() + spec_ak_regulators() + spec_az_regulators() + spec_ar_regulators() + spec_co_regulators() + spec_ct_regulators() + spec_ga_regulators() + spec_hi_regulators() + spec_id_regulators() + spec_in_regulators());
    }
    let ghost before = all@;
    let mut part = ia_regulators();
    let ghost added = part@;
    all.append(&mut part);
    proof {
        lemma_regulators_view_append(before, added);
        assert(regulators_view(all@) =~= spec_ny_regulators() + spec_ca_regulators() + spec_de_regulators() + spec_wy_regulators() + spec_tx_regulators() + spec_fl_regulators() + spec_nv_regulators() + spec_il_regulators() + spec_al_regulators() + spec_ak_regulators() + spec_az_regulators() + spec_ar_regulators() + spec_co_regulators() + spec_ct_regulators() + spec_ga_regulators() + spec_hi_regulators() + spec_id_regulators() + spec_in_regulators() + spec_ia_regulators());
    }
    let ghost before = all@;
    let mut part = ks_regulators();
    let ghost added = part@;
    all.append(&mut part);
    proof {
        lemma_regulators_view_append(before, added);
        assert(regulators_view(all@) =~= spec_ny_regulators() + spec_ca_regulators() + spec_de_regulators() + spec_wy_regulators() + spec_tx_regulators() + spec_fl_regulators() + spec_nv_regulators() + spec_il_regulators() + spec_al_regulators() + spec_ak_regulators() + spec_az_regulators() + spec_ar_regulators() + spec_co_regulators() + spec_ct_regulators() + spec_ga_regulators() + spec_hi_regulators() + spec_id_regulators() + spec_in_regulators() + spec_ia_regulators() + spec_ks_regulators());
    }
    let ghost before = all@;
    let mut part = ky_regulators();
    let ghost added = part@;
    all.append(&mut part);
    proof {
        lemma_regulators_view_append(before, added);
        assert(regulators_view(all@) =~= spec_ny_regulators() + spec_ca_regulators() + spec_de_regulators() + spec_wy_regulators() + spec_tx_regulators() + spec_fl_regulators() + spec_nv_regulators() + spec_il_regulators() + spec_al_regulators() + spec_ak_regulators() + spec_az_regulators() + spec_ar_regulators() + spec_co_regulators() + spec_ct_regulators() + spec_ga_regulators() + spec_hi_regulators() + spec_id_regulators() + spec_in_regulators() + spec_ia_regulators() + spec_ks_regulators() + spec_ky_regulators());
    }
    let ghost before = all@;
    let mut part = la_regulators();
    let ghost added = part@;
    all.append(&mut part);
    proof {
        lemma_regulators_view_append(before, added);
        assert(regulators_view(all@) =~= spec_ny_regulators() + spec_ca_regulators() + spec_de_regulators() + spec_wy_regulators() + spec_tx_regulators() + spec_fl_regulators() + spec_nv_regulators() + spec_il_regulators() + spec_al_regulators() + spec_ak_regulators() + spec_az_regulators() + spec_ar_regulators() + spec_co_regulators() + spec_ct_regulators() + spec_ga_regulators() + spec_hi_regulators() + spec_id_regulators() + spec_in_regulators() + spec_ia_regulators() + spec_ks_regulators() + spec_ky_regulators() + spec_la_regulators());
    }
    let ghost before = all@;
    let mut part = me_regulators();
    let ghost added = part@;
    all.append(&mut part);
    proof {
        lemma_regulators_view_append(before, added);
        assert(regulators_view(all@) =~= spec_ny_regulators() + spec_ca_regulators() + spec_de_regulators() + spec_wy_regulators() + spec_tx_regulators() + spec_fl_regulators() + spec_nv_regulators() + spec_il_regulators() + spec_al_regulators() + spec_ak_regulators() + spec_az_regulators() + spec_ar_regulators() + spec_co_regulators() + spec_ct_regulators() + spec_ga_regulators() + spec_hi_regulators() + spec_id_regulators() + spec_in_regulators() + spec_ia_regulators() + spec_ks_regulators() + spec_ky_regulators() + spec_la_regulators() + spec_me_regulators());
    }
    let ghost before = all@;
    let mut part = md_regulators();
    let ghost added = part@;
    all.append(&mut part);
    proof {
        lemma_regulators_view_append(before, added);
        assert(regulators_view(all@) =~= spec_ny_regulators() + spec_ca_regulators() + spec_de_regulators() + spec_wy_regulators() + spec_tx_regulators() + spec_fl_regulators() + spec_nv_regulators() + spec_il_regulators() + spec_al_regulators() + spec_ak_regulators() + spec_az_regulators() + spec_ar_regulators() + spec_co_regulators() + spec_ct_regulators() + spec_ga_regulators() + spec_hi_regulators() + spec_id_regulators() + spec_in_regulators() + spec_ia_regulators() + spec_ks_regulators() + spec_ky_regulators() + spec_la_regulators() + spec_me_regulators() + spec_md_regulators());
    }
    let ghost before = all@;
    let mut part = ma_regulators();
    let ghost added = part@;
    all.append(&mut part);
    proof {
        lemma_regulators_view_append(before, added);
        assert(regulators_view(all@) =~= spec_ny_regulators() + spec_ca_regulators() + spec_de_regulators() + spec_wy_regulators() + spec_tx_regulators() + spec_fl_regulators() + spec_nv_regulators() + spec_il_regulators() + spec_al_regulators() + spec_ak_regulators() + spec_az_regulators() + spec_ar_regulators() + spec_co_regulators() + spec_ct_regulators() + spec_ga_regulators() + spec_hi_regulators() + spec_id_regulators() + spec_in_regulators() + spec_ia_regulators() + spec_ks_regulators() + spec_ky_regulators() + spec_la_regulators() + spec_me_regulators() + spec_md_regulators() + spec_ma_regulators());
    }
    let ghost before = all@;
    let mut part = mi_regulators();
    let ghost added = part@;
    all.append(&mut part);
    proof {
        lemma_regulators_view_append(before, added);
        assert(regulators_view(all@) =~= spec_ny_regulators() + spec_ca_regulators() + spec_de_regulators() + spec_wy_regulators() + spec_tx_regulators() + spec_fl_regulators() + spec_nv_regulators() + spec_il_regulators() + spec_al_regulators() + spec_ak_regulators() + spec_az_regulators() + spec_ar_regulators() + spec_co_regulators() + spec_ct_regulators() + spec_ga_regulators() + spec_hi_regulators() + spec_id_regulators() + spec_in_regulators() + spec_ia_regulators() + spec_ks_regulators() + spec_ky_regulators() + spec_la_regulators() + spec_me_regulators() + spec_md_regulators() + spec_ma_regulators() + spec_mi_regulators());
    }
    let ghost before = all@;
    let mut part = mn_regulators();
    let ghost added = part@;
    all.append(&mut part);
    proof {
        lemma_regulators_view_append(before, added);
        assert(regulators_view(all@) =~= spec_ny_regulators() + spec_ca_regulators() + spec_de_regulators() + spec_wy_regulators() + spec_tx_regulators() + spec_fl_regulators() + spec_nv_regulators() + spec_il_regulators() + spec_al_regulators() + spec_ak_regulators() + spec_az_regulators() + spec_ar_regulators() + spec_co_regulators() + spec_ct_regulators() + spec_ga_regulators() + spec_hi_regulators() + spec_id_regulators() + spec_in_regulators() + spec_ia_regulators() + spec_ks_regulators() + spec_ky_regulators() + spec_la_regulators() + spec_me_regulators() + spec_md_regulators() + spec_ma_regulators() + spec_mi_regulators() + spec_mn_regulators());
    }
    let ghost before = all@;
    let mut part = ms_regulators();
    let ghost added = part@;
    all.append(&mut part);
    proof {
        lemma_regulators_view_append(before, added);
        assert(regulators_view(all@) =~= spec_ny_regulators() + spec_ca_regulators() + spec_de_regulators() + spec_wy_regulators() + spec_tx_regulators() + spec_fl_regulators() + spec_nv_regulators() + spec_il_regulators() + spec_al_regulators() + spec_ak_regulators() + spec_az_regulators() + spec_ar_regulators() + spec_co_regulators() + spec_ct_regulators() + spec_ga_regulators() + spec_hi_regulators() + spec_id_regulators() + spec_in_regulators() + spec_ia_regulators() + spec_ks_regulators() + spec_ky_regulators() + spec_la_regulators() + spec_me_regulators() + spec_md_regulators() + spec_ma_regulators() + spec_mi_regulators() + spec_mn_regulators() + spec_ms_regulators());
    }
    let ghost before = all@;
    let mut part = mo_regulators();
    let ghost added = part@;
    all.append(&mut part);
    proof {
        lemma_regulators_view_append(before, added);
        assert(regulators_view(all@) =~= spec_ny_regulators() + spec_ca_regulators() + spec_de_regulators() + spec_wy_regulators() + spec_tx_regulators() + spec_fl_regulators() + spec_nv_regulators() + spec_il_regulators() + spec_al_regulators() + spec_ak_regulators() + spec_az_regulators() + spec_ar_regulators() + spec_co_regulators() + spec_ct_regulators() + spec_ga_regulators() + spec_hi_regulators() + spec_id_regulators() + spec_in_regulators() + spec_ia_regulators() + spec_ks_regulators() + spec_ky_regulators() + spec_la_regulators() + spec_me_regulators() + spec_md_regulators() + spec_ma_regulators() + spec_mi_regulators() + spec_mn_regulators() + spec_ms_regulators() + spec_mo_regulators());
    }
    let ghost before = all@;
    let mut part = mt_regulators();
    let ghost added = part@;
    all.append(&mut part);
    proof {
        lemma_regulators_view_append(before, added);
        assert(regulators_view(all@) =~= spec_ny_regulators() + spec_ca_regulators() + spec_de_regulators() + spec_wy_regulators() + spec_tx_regulators() + spec_fl_regulators() + spec_nv_regulators() + spec_il_regulators() + spec_al_regulators() + spec_ak_regulators() + spec_az_regulators() + spec_ar_regulators() + spec_co_regulators() + spec_ct_regulators() + spec_ga_regulators() + spec_hi_regulators() + spec_id_regulators() + spec_in_regulators() + spec_ia_regulators() + spec_ks_regulators() + spec_ky_regulators() + spec_la_regulators() + spec_me_regulators() + spec_md_regulators() + spec_ma_regulators() + spec_mi_regulators() + spec_mn_regulators() + spec_ms_regulators() + spec_mo_regulators() + spec_mt_regulators());
    }
    let ghost before = all@;
    let mut part = ne_regulators();
    let ghost added = part@;
    all.append(&mut part);
    proof {
        lemma_regulators_view_append(before, added);
        assert(regulators_view(all@) =~= spec_ny_regulators() + spec_ca_regulators() + spec_de_regulators() + spec_wy_regulators() + spec_tx_regulators() + spec_fl_regulators() + spec_nv_regulators() + spec_il_regulators() + spec_al_regulators() + spec_ak_regulators() + spec_az_regulators() + spec_ar_regulators() + spec_co_regulators() + spec_ct_regulators() + spec_ga_regulators() + spec_hi_regulators() + spec_id_regulators() + spec_in_regulators() + spec_ia_regulators() + spec_ks_regulators() + spec_ky_regulators() + spec_la_regulators() + spec_me_regulators() + spec_md_regulators() + spec_ma_regulators() + spec_mi_regulators() + spec_mn_regulators() + spec_ms_regulators() + spec_mo_regulators() + spec_mt_regulators() + spec_ne_regulators());
    }
    let ghost before = all@;
    let mut part = nh_regulators();
    let ghost added = part@;
    all.append(&mut part);
    proof {
        lemma_regulators_view_append(before, added);
        assert(regulators_view(all@) =~= spec_ny_regulators() + spec_ca_regulators() + spec_de_regulators() + spec_wy_regulators() + spec_tx_regulators() + spec_fl_regulators() + spec_nv_regulators() + spec_il_regulators() + spec_al_regulators() + spec_ak_regulators() + spec_az_regulators() + spec_ar_regulators() + spec_co_regulators() + spec_ct_regulators() + spec_ga_regulators() + spec_hi_regulators() + spec_id_regulators() + spec_in_regulators() + spec_ia_regulators() + spec_ks_regulators() + spec_ky_regulators() + spec_la_regulators() + spec_me_regulators() + spec_md_regulators() + spec_ma_regulators() + spec_mi_regulators() + spec_mn_regulators() + spec_ms_regulators() + spec_mo_regulators() + spec_mt_regulators() + spec_ne_regulators() + spec_nh_regulators());
    }
    let ghost before = all@;
    let mut part = nj_regulators();
    let ghost added = part@;
    all.append(&mut part);
    proof {
        lemma_regulators_view_append(before, added);
        assert(regulators_view(all@) =~= spec_ny_regulators() + spec_ca_regulators() + spec_de_regulators() + spec_wy_regulators() + spec_tx_regulators() + spec_fl_regulators() + spec_nv_regulators() + spec_il_regulators() + spec_al_regulators() + spec_ak_regulators() + spec_az_regulators() + spec_ar_regulators() + spec_co_regulators() + spec_ct_regulators() + spec_ga_regulators() + spec_hi_regulators() + spec_id_regulators() + spec_in_regulators() + spec_ia_regulators() + spec_ks_regulators() + spec_ky_regulators() + spec_la_regulators() + spec_me_regulators() + spec_md_regulators() + spec_ma_regulators() + spec_mi_regulators() + spec_mn_regulators() + spec_ms_regulators() + spec_mo_regulators() + spec_mt_regulators() + spec_ne_regulators() + spec_nh_regulators() + spec_nj_regulators());
    }
    let ghost before = all@;
    let mut part = nm_regulators();
    let ghost added = part@;
    all.append(&mut part);
    proof {
        lemma_regulators_view_append(before, added);
        assert(regulators_view(all@) =~= spec_ny_regulators() + spec_ca_regulators() + spec_de_regulators() + spec_wy_regulators() + spec_tx_regulators() + spec_fl_regulators() + spec_nv_regulators() + spec_il_regulators() + spec_al_regulators() + spec_ak_regulators() + spec_az_regulators() + spec_ar_regulators() + spec_co_regulators() + spec_ct_regulators() + spec_ga_regulators() + spec_hi_regulators() + spec_id_regulators() + spec_in_regulators() + spec_ia_regulators() + spec_ks_regulators() + spec_ky_regulators() + spec_la_regulators() + spec_me_regulators() + spec_md_regulators() + spec_ma_regulators() + spec_mi_regulators() + spec_mn_regulators() + spec_ms_regulators() + spec_mo_regulators() + spec_mt_regulators() + spec_ne_regulators() + spec_nh_regulators() + spec_nj_regulators() + spec_nm_regulators());
    }
    let ghost before = all@;
    let mut part = nc_regulators();
    let ghost added = part@;
    all.append(&mut part);
    proof {
        lemma_regulators_view_append(before, added);
        assert(regulators_view(all@) =~= spec_ny_regulators() + spec_ca_regulators() + spec_de_regulators() + spec_wy_regulators() + spec_tx_regulators() + spec_fl_regulators() + spec_nv_regulators() + spec_il_regulators() + spec_al_regulators() + spec_ak_regulators() + spec_az_regulators() + spec_ar_regulators() + spec_co_regulators() + spec_ct_regulators() + spec_ga_regulators() + spec_hi_regulators() + spec_id_regulators() + spec_in_regulators() + spec_ia_regulators() + spec_ks_regulators() + spec_ky_regulators() + spec_la_regulators() + spec_me_regulators() + spec_md_regulators() + spec_ma_regulators() + spec_mi_regulators() + spec_mn_regulators() + spec_ms_regulators() + spec_mo_regulators() + spec_mt_regulators() + spec_ne_regulators() + spec_nh_regulators() + spec_nj_regulators() + spec_nm_regulators() + spec_nc_regulators());
    }
    let ghost before = all@;
    let mut part = nd_regulators();
    let ghost added = part@;
    all.append(&mut part);
    proof {
        lemma_regulators_view_append(before, added);
        assert(regulators_view(all@) =~= spec_ny_regulators() + spec_ca_regulators() + spec_de_regulators() + spec_wy_regulators() + spec_tx_regulators() + spec_fl_regulators() + spec_nv_regulators() + spec_il_regulators() + spec_al_regulators() + spec_ak_regulators() + spec_az_regulators() + spec_ar_regulators() + spec_co_regulators() + spec_ct_regulators() + spec_ga_regulators() + spec_hi_regulators() + spec_id_regulators() + spec_in_regulators() + spec_ia_regulators() + spec_ks_regulators() + spec_ky_regulators() + spec_la_regulators() + spec_me_regulators() + spec_md_regulators() + spec_ma_regulators() + spec_mi_regulators() + spec_mn_regulators() + spec_ms_regulators() + spec_mo_regulators() + spec_mt_regulators() + spec_ne_regulators() + spec_nh_regulators() + spec_nj_regulators() + spec_nm_regulators() + spec_nc_regulators() + spec_nd_regulators());
    }
    let ghost before = all@;
    let mut part = oh_regulators();
    let ghost added = part@;
    all.append(&mut part);
    proof {
        lemma_regulators_view_append(before, added);
        assert(regulators_view(all@) =~= spec_ny_regulators() + spec_ca_regulators() + spec_de_regulators() + spec_wy_regulators() + spec_tx_regulators() + spec_fl_regulators() + spec_nv_regulators() + spec_il_regulators() + spec_al_regulators() + spec_ak_regulators() + spec_az_regulators() + spec_ar_regulators() + spec_co_regulators() + spec_ct_regulators() + spec_ga_regulators() + spec_hi_regulators() + spec_id_regulators() + spec_in_regulators() + spec_ia_regulators() + spec_ks_regulators() + spec_ky_regulators() + spec_la_regulators() + spec_me_regulators() + spec_md_regulators() + spec_ma_regulators() + spec_mi_regulators() + spec_mn_regulators() + spec_ms_regulators() + spec_mo_regulators() + spec_mt_regulators() + spec_ne_regulators() + spec_nh_regulators() + spec_nj_regulators() + spec_nm_regulators() + spec_nc_regulators() + spec_nd_regulators() + spec_oh_regulators());
    }
    let ghost before = all@;
    let mut part = ok_regulators();
    let ghost added = part@;
    all.append(&mut part);
    proof {
        lemma_regulators_view_append(before, added);
        assert(regulators_view(all@) =~= spec_ny_regulators() + spec_ca_regulators() + spec_de_regulators() + spec_wy_regulators() + spec_tx_regulators() + spec_fl_regulators() + spec_nv_regulators() + spec_il_regulators() + spec_al_regulators() + spec_ak_regulators() + spec_az_regulators() + spec_ar_regulators() + spec_co_regulators() + spec_ct_regulators() + spec_ga_regulators() + spec_hi_regulators() + spec_id_regulators() + spec_in_regulators() + spec_ia_regulators() + spec_ks_regulators() + spec_ky_regulators() + spec_la_regulators() + spec_me_regulators() + spec_md_regulators() + spec_ma_regulators() + spec_mi_regulators() + spec_mn_regulators() + spec_ms_regulators() + spec_mo_regulators() + spec_mt_regulators() + spec_ne_regulators() + spec_nh_regulators() + spec_nj_regulators() + spec_nm_regulators() + spec_nc_regulators() + spec_nd_regulators() + spec_oh_regulators() + spec_ok_regulators());
    }
    let ghost before = all@;
    let mut part = or_regulators();
    let ghost added = part@;
    all.append(&mut part);
    proof {
        lemma_regulators_view_append(before, added);
        assert(regulators_view(all@) =~= spec_ny_regulators() + spec_ca_regulators() + spec_de_regulators() + spec_wy_regulators() + spec_tx_regulators() + spec_fl_regulators() + spec_nv_regulators() + spec_il_regulators() + spec_al_regulators() + spec_ak_regulators() + spec_az_regulators() + spec_ar_regulators() + spec_co_regulators() + spec_ct_regulators() + spec_ga_regulators() + spec_hi_regulators() + spec_id_regulators() + spec_in_regulators() + spec_ia_regulators() + spec_ks_regulators() + spec_ky_regulators() + spec_la_regulators() + spec_me_regulators() + spec_md_regulators() + spec_ma_regulators() + spec_mi_regulators() + spec_mn_regulators() + spec_ms_regulators() + spec_mo_regulators() + spec_mt_regulators() + spec_ne_regulators() + spec_nh_regulators() + spec_nj_regulators() + spec_nm_regulators() + spec_nc_regulators() + spec_nd_regulators() + spec_oh_regulators() + spec_ok_regulators() + spec_or_regulators());
    }
    let ghost before = all@;
    let mut part = pa_regulators();
    let ghost added = part@;
    all.append(&mut part);
    proof {
        lemma_regulators_view_append(before, added);
        assert(regulators_view(all@) =~= spec_ny_regulators() + spec_ca_regulators() + spec_de_regulators() + spec_wy_regulators() + spec_tx_regulators() + spec_fl_regulators() + spec_nv_regulators() + spec_il_regulators() + spec_al_regulators() + spec_ak_regulators() + spec_az_regulators() + spec_ar_regulators() + spec_co_regulators() + spec_ct_regulators() + spec_ga_regulators() + spec_hi_regulators() + spec_id_regulators() + spec_in_regulators() + spec_ia_regulators() + spec_ks_regulators() + spec_ky_regulators() + spec_la_regulators() + spec_me_regulators() + spec_md_regulators() + spec_ma_regulators() + spec_mi_regulators() + spec_mn_regulators() + spec_ms_regulators() + spec_mo_regulators() + spec_mt_regulators() + spec_ne_regulators() + spec_nh_regulators() + spec_nj_regulators() + spec_nm_regulators() + spec_nc_regulators() + spec_nd_regulators() + spec_oh_regulators() + spec_ok_regulators() + spec_or_regulators() + spec_pa_regulators());
    }
    let ghost before = all@;
    let mut part = ri_regulators();
    let ghost added = part@;
    all.append(&mut part);
    proof {
        lemma_regulators_view_append(before, added);
        assert(regulators_view(all@) =~= spec_ny_regulators() + spec_ca_regulators() + spec_de_regulators() + spec_wy_regulators() + spec_tx_regulators() + spec_fl_regulators() + spec_nv_regulators() + spec_il_regulators() + spec_al_regulators() + spec_ak_regulators() + spec_az_regulators() + spec_ar_regulators() + spec_co_regulators() + spec_ct_regulators() + spec_ga_regulators() + spec_hi_regulators() + spec_id_regulators() + spec_in_regulators() + spec_ia_regulators() + spec_ks_regulators() + spec_ky_regulators() + spec_la_regulators() + spec_me_regulators() + spec_md_regulators() + spec_ma_regulators() + spec_mi_regulators() + spec_mn_regulators() + spec_ms_regulators() + spec_mo_regulators() + spec_mt_regulators() + spec_ne_regulators() + spec_nh_regulators() + spec_nj_regulators() + spec_nm_regulators() + spec_nc_regulators() + spec_nd_regulators() + spec_oh_regulators() + spec_ok_regulators() + spec_or_regulators() + spec_pa_regulators() + spec_ri_regulators());
    }
    let ghost before = all@;
    let mut part = sc_regulators();
    let ghost added = part@;
    all.append(&mut part);
    proof {
        lemma_regulators_view_append(before, added);
        assert(regulators_view(all@) =~= spec_ny_regulators() + spec_ca_regulators() + spec_de_regulators() + spec_wy_regulators() + spec_tx_regulators() + spec_fl_regulators() + spec_nv_regulators() + spec_il_regulators() + spec_al_regulators() + spec_ak_regulators() + spec_az_regulators() + spec_ar_regulators() + spec_co_regulators() + spec_ct_regulators() + spec_ga_regulators() + spec_hi_regulators() + spec_id_regulators() + spec_in_regulators() + spec_ia_regulators() + spec_ks_regulators() + spec_ky_regulators() + spec_la_regulators() + spec_me_regulators() + spec_md_regulators() + spec_ma_regulators() + spec_mi_regulators() + spec_mn_regulators() + spec_ms_regulators() + spec_mo_regulators() + spec_mt_regulators() + spec_ne_regulators() + spec_nh_regulators() + spec_nj_regulators() + spec_nm_regulators() + spec_nc_regulators() + spec_nd_regulators() + spec_oh_regulators() + spec_ok_regulators() + spec_or_regulators() + spec_pa_regulators() + spec_ri_regulators() + spec_sc_regulators());
    }
    let ghost before = all@;
    let mut part = sd_regulators();
    let ghost added = part@;
    all.append(&mut part);
    proof {
        lemma_regulators_view_append(before, added);
        assert(regulators_view(all@) =~= spec_ny_regulators() + spec_ca_regulators() + spec_de_regulators() + spec_wy_regulators() + spec_tx_regulators() + spec_fl_regulators() + spec_nv_regulators() + spec_il_regulators() + spec_al_regulators() + spec_ak_regulators() + spec_az_regulators() + spec_ar_regulators() + spec_co_regulators() + spec_ct_regulators() + spec_ga_regulators() + spec_hi_regulators() + spec_id_regulators() + spec_in_regulators() + spec_ia_regulators() + spec_ks_regulators() + spec_ky_regulators() + spec_la_regulators() + spec_me_regulators() + spec_md_regulators() + spec_ma_regulators() + spec_mi_regulators() + spec_mn_regulators() + spec_ms_regulators() + spec_mo_regulators() + spec_mt_regulators() + spec_ne_regulators() + spec_nh_regulators() + spec_nj_regulators() + spec_nm_regulators() + spec_nc_regulators() + spec_nd_regulators() + spec_oh_regulators() + spec_ok_regulators() + spec_or_regulators() + spec_pa_regulators() + spec_ri_regulators() + spec_sc_regulators() + spec_sd_regulators());
    }
    let ghost before = all@;
    let mut part = tn_regulators();
    let ghost added = part@;
    all.append(&mut part);
    proof {
        lemma_regulators_view_append(before, added);
        assert(regulators_view(all@) =~= spec_ny_regulators() + spec_ca_regulators() + spec_de_regulators() + spec_wy_regulators() + spec_tx_regulators() + spec_fl_regulators() + spec_nv_regulators() + spec_il_regulators() + spec_al_regulators() + spec_ak_regulators() + spec_az_regulators() + spec_ar_regulators() + spec_co_regulators() + spec_ct_regulators() + spec_ga_regulators() + spec_hi_regulators() + spec_id_regulators() + spec_in_regulators() + spec_ia_regulators() + spec_ks_regulators() + spec_ky_regulators() + spec_la_regulators() + spec_me_regulators() + spec_md_regulators() + spec_ma_regulators() + spec_mi_regulators() + spec_mn_regulators() + spec_ms_regulators() + spec_mo_regulators() + spec_mt_regulators() + spec_ne_regulators() + spec_nh_regulators() + spec_nj_regulators() + spec_nm_regulators() + spec_nc_regulators() + spec_nd_regulators() + spec_oh_regulators() + spec_ok_regulators() + spec_or_regulators() + spec_pa_regulators() + spec_ri_regulators() + spec_sc_regulators() + spec_sd_regulators() + spec_tn_regulators());
    }
    let ghost before = all@;
    let mut part = ut_regulators();
    let ghost added = part@;
    all.append(&mut part);
    proof {
        lemma_regulators_view_append(before, added);
        assert(regulators_view(all@) =~= spec_ny_regulators() + spec_ca_regulators() + spec_de_regulators() + spec_wy_regulators() + spec_tx_regulators() + spec_fl_regulators() + spec_nv_regulators() + spec_il_regulators() + spec_al_regulators() + spec_ak_regulators() + spec_az_regulators() + spec_ar_regulators() + spec_co_regulators() + spec_ct_regulators() + spec_ga_regulators() + spec_hi_regulators() + spec_id_regulators() + spec_in_regulators() + spec_ia_regulators() + spec_ks_regulators() + spec_ky_regulators() + spec_la_regulators() + spec_me_regulators() + spec_md_regulators() + spec_ma_regulators() + spec_mi_regulators() + spec_mn_regulators() + spec_ms_regulators() + spec_mo_regulators() + spec_mt_regulators() + spec_ne_regulators() + spec_nh_regulators() + spec_nj_regulators() + spec_nm_regulators() + spec_nc_regulators() + spec_nd_regulators() + spec_oh_regulators() + spec_ok_regulators() + spec_or_regulators() + spec_pa_regulators() + spec_ri_regulators() + spec_sc_regulators() + spec_sd_regulators() + spec_tn_regulators() + spec_ut_regulators());
    }
    let ghost before = all@;
    let mut part = vt_regulators();
    let ghost added = part@;
    all.append(&mut part);
    proof {
        lemma_regulators_view_append(before, added);
        assert(regulators_view(all@) =~= spec_ny_regulators() + spec_ca_regulators() + spec_de_regulators() + spec_wy_regulators() + spec_tx_regulators() + spec_fl_regulators() + spec_nv_regulators() + spec_il_regulators() + spec_al_regulators() + spec_ak_regulators() + spec_az_regulators() + spec_ar_regulators() + spec_co_regulators() + spec_ct_regulators() + spec_ga_regulators() + spec_hi_regulators() + spec_id_regulators() + spec_in_regulators() + spec_ia_regulators() + spec_ks_regulators() + spec_ky_regulators() + spec_la_regulators() + spec_me_regulators() + spec_md_regulators() + spec_ma_regulators() + spec_mi_regulators() + spec_mn_regulators() + spec_ms_regulators() + spec_mo_regulators() + spec_mt_regulators() + spec_ne_regulators() + spec_nh_regulators() + spec_nj_regulators() + spec_nm_regulators() + spec_nc_regulators() + spec_nd_regulators() + spec_oh_regulators() + spec_ok_regulators() + spec_or_regulators() + spec_pa_regulators() + spec_ri_regulators() + spec_sc_regulators() + spec_sd_regulators() + spec_tn_regulators() + spec_ut_regulators() + spec_vt_regulators());
    }
    let ghost before = all@;
    let mut part = va_regulators();
    let ghost added = part@;
    all.append(&mut part);
    proof {
        lemma_regulators_view_append(before, added);
        assert(regulators_view(all@) =~= spec_ny_regulators() + spec_ca_regulators() + spec_de_regulators() + spec_wy_regulators() + spec_tx_regulators() + spec_fl_regulators() + spec_nv_regulators() + spec_il_regulators() + spec_al_regulators() + spec_ak_regulators() + spec_az_regulators() + spec_ar_regulators() + spec_co_regulators() + spec_ct_regulators() + spec_ga_regulators() + spec_hi_regulators() + spec_id_regulators() + spec_in_regulators() + spec_ia_regulators() + spec_ks_regulators() + spec_ky_regulators() + spec_la_regulators() + spec_me_regulators() + spec_md_regulators() + spec_ma_regulators() + spec_mi_regulators() + spec_mn_regulators() + spec_ms_regulators() + spec_mo_regulators() + spec_mt_regulators() + spec_ne_regulators() + spec_nh_regulators() + spec_nj_regulators() + spec_nm_regulators() + spec_nc_regulators() + spec_nd_regulators() + spec_oh_regulators() + spec_ok_regulators() + spec_or_regulators() + spec_pa_regulators() + spec_ri_regulators() + spec_sc_regulators() + spec_sd_regulators() + spec_tn_regulators() + spec_ut_regulators() + spec_vt_regulators() + spec_va_regulators());
    }
    let ghost before = all@;
    let mut part = wa_regulators();
    let ghost added = part@;
    all.append(&mut part);
    proof {
        lemma_regulators_view_append(before, added);
        assert(regulators_view(all@) =~= spec_ny_regulators() + spec_ca_regulators() + spec_de_regulators() + spec_wy_regulators() + spec_tx_regulators() + spec_fl_regulators() + spec_nv_regulators() + spec_il_regulators() + spec_al_regulators() + spec_ak_regulators() + spec_az_regulators() + spec_ar_regulators() + spec_co_regulators() + spec_ct_regulators() + spec_ga_regulators() + spec_hi_regulators() + spec_id_regulators() + spec_in_regulators() + spec_ia_regulators() + spec_ks_regulators() + spec_ky_regulators() + spec_la_regulators() + spec_me_regulators() + spec_md_regulators() + spec_ma_regulators() + spec_mi_regulators() + spec_mn_regulators() + spec_ms_regulators() + spec_mo_regulators() + spec_mt_regulators() + spec_ne_regulators() + spec_nh_regulators() + spec_nj_regulators() + spec_nm_regulators() + spec_nc_regulators() + spec_nd_regulators() + spec_oh_regulators() + spec_ok_regulators() + spec_or_regulators() + spec_pa_regulators() + spec_ri_regulators() + spec_sc_regulators() + spec_sd_regulators() + spec_tn_regulators() + spec_ut_regulators() + spec_vt_regulators() + spec_va_regulators() + spec_wa_regulators());
    }
    let ghost before = all@;
    let mut part = wv_regulators();
    let ghost added = part@;
    all.append(&mut part);
    proof {
        lemma_regulators_view_append(before, added);
        assert(regulators_view(all@) =~= spec_ny_regulators() + spec_ca_regulators() + spec_de_regulators() + spec_wy_regulators() + spec_tx_regulators() + spec_fl_regulators() + spec_nv_regulators() + spec_il_regulators() + spec_al_regulators() + spec_ak_regulators() + spec_az_regulators() + spec_ar_regulators() + spec_co_regulators() + spec_ct_regulators() + spec_ga_regulators() + spec_hi_regulators() + spec_id_regulators() + spec_in_regulators() + spec_ia_regulators() + spec_ks_regulators() + spec_ky_regulators() + spec_la_regulators() + spec_me_regulators() + spec_md_regulators() + spec_ma_regulators() + spec_mi_regulators() + spec_mn_regulators() + spec_ms_regulators() + spec_mo_regulators() + spec_mt_regulators() + spec_ne_regulators() + spec_nh_regulators() + spec_nj_regulators() + spec_nm_regulators() + spec_nc_regulators() + spec_nd_regulators() + spec_oh_regulators() + spec_ok_regulators() + spec_or_regulators() + spec_pa_regulators() + spec_ri_regulators() + spec_sc_regulators() + spec_sd_regulators() + spec_tn_regulators() + spec_ut_regulators() + spec_vt_regulators() + spec_va_regulators() + spec_wa_regulators() + spec_wv_regulators());
    }
    let ghost before = all@;
    let mut part = wi_regulators();
    let ghost added = part@;
    all.append(&mut part);
    proof {
        lemma_regulators_view_append(before, added);
        assert(regulators_view(all@) =~= spec_ny_regulators() + spec_ca_regulators() + spec_de_regulators() + spec_wy_regulators() + spec_tx_regulators() + spec_fl_regulators() + spec_nv_regulators() + spec_il_regulators() + spec_al_regulators() + spec_ak_regulators() + spec_az_regulators() + spec_ar_regulators() + spec_co_regulators() + spec_ct_regulators() + spec_ga_regulators() + spec_hi_regulators() + spec_id_regulators() + spec_in_regulators() + spec_ia_regulators() + spec_ks_regulators() + spec_ky_regulators() + spec_la_regulators() + spec_me_regulators() + spec_md_regulators() + spec_ma_regulators() + spec_mi_regulators() + spec_mn_regulators() + spec_ms_regulators() + spec_mo_regulators() + spec_mt_regulators() + spec_ne_regulators() + spec_nh_regulators() + spec_nj_regulators() + spec_nm_regulators() + spec_nc_regulators() + spec_nd_regulators() + spec_oh_regulators() + spec_ok_regulators() + spec_or_regulators() + spec_pa_regulators() + spec_ri_regulators() + spec_sc_regulators() + spec_sd_regulators() + spec_tn_regulators() + spec_ut_regulators() + spec_vt_regulators() + spec_va_regulators() + spec_wa_regulators() + spec_wv_regulators() + spec_wi_regulators());
    }
    let ghost before = all@;
    let mut part = dc_regulators();
    let ghost added = part@;
    all.append(&mut part);
    proof {
        lemma_regulators_view_append(before, added);
        assert(regulators_view(all@) =~= spec_ny_regulators() + spec_ca_regulators() + spec_de_regulators() + spec_wy_regulators() + spec_tx_regulators() + spec_fl_regulators() + spec_nv_regulators() + spec_il_regulators() + spec_al_regulators() + spec_ak_regulators() + spec_az_regulators() + spec_ar_regulators() + spec_co_regulators() + spec_ct_regulators() + spec_ga_regulators() + spec_hi_regulators() + spec_id_regulators() + spec_in_regulators() + spec_ia_regulators() + spec_ks_regulators() + spec_ky_regulators() + spec_la_regulators() + spec_me_regulators() + spec_md_regulators() + spec_ma_regulators() + spec_mi_regulators() + spec_mn_regulators() + spec_ms_regulators() + spec_mo_regulators() + spec_mt_regulators() + spec_ne_regulators() + spec_nh_regulators() + spec_nj_regulators() + spec_nm_regulators() + spec_nc_regulators() + spec_nd_regulators() + spec_oh_regulators() + spec_ok_regulators() + spec_or_regulators() + spec_pa_regulators() + spec_ri_regulators() + spec_sc_regulators() + spec_sd_regulators() + spec_tn_regulators() + spec_ut_regulators() + spec_vt_regulators() + spec_va_regulators() + spec_wa_regulators() + spec_wv_regulators() + spec_wi_regulators() + spec_dc_regulators());
    }
    let ghost before = all@;
    let mut part = pr_regulators();
    let ghost added = part@;
    all.append(&mut part);
    proof {
        lemma_regulators_view_append(before, added);
        assert(regulators_view(all@) =~= spec_ny_regulators() + spec_ca_regulators() + spec_de_regulators() + spec_wy_regulators() + spec_tx_regulators() + spec_fl_regulators() + spec_nv_regulators() + spec_il_regulators() + spec_al_regulators() + spec_ak_regulators() + spec_az_regulators() + spec_ar_regulators() + spec_co_regulators() + spec_ct_regulators() + spec_ga_regulators() + spec_hi_regulators() + spec_id_regulators() + spec_in_regulators() + spec_ia_regulators() + spec_ks_regulators() + spec_ky_regulators() + spec_la_regulators() + spec_me_regulators() + spec_md_regulators() + spec_ma_regulators() + spec_mi_regulators() + spec_mn_regulators() + spec_ms_regulators() + spec_mo_regulators() + spec_mt_regulators() + spec_ne_regulators() + spec_nh_regulators() + spec_nj_regulators() + spec_nm_regulators() + spec_nc_regulators() + spec_nd_regulators() + spec_oh_regulators() + spec_ok_regulators() + spec_or_regulators() + spec_pa_regulators() + spec_ri_regulators() + spec_sc_regulators() + spec_sd_regulators() + spec_tn_regulators() + spec_ut_regulators() + spec_vt_regulators() + spec_va_regulators() + spec_wa_regulators() + spec_wv_regulators() + spec_wi_regulators() + spec_dc_regulators() + spec_pr_regulators());
    }
    let ghost before = all@;
    let mut part = gu_regulators();
    let ghost added = part@;
    all.append(&mut part);
    proof {
        lemma_regulators_view_append(before, added);
        assert(regulators_view(all@) =~= spec_ny_regulators() + spec_ca_regulators() + spec_de_regulators() + spec_wy_regulators() + spec_tx_regulators() + spec_fl_regulators() + spec_nv_regulators() + spec_il_regulators() + spec_al_regulators() + spec_ak_regulators() + spec_az_regulators() + spec_ar_regulators() + spec_co_regulators() + spec_ct_regulators() + spec_ga_regulators() + spec_hi_regulators() + spec_id_regulators() + spec_in_regulators() + spec_ia_regulators() + spec_ks_regulators() + spec_ky_regulators() + spec_la_regulators() + spec_me_regulators() + spec_md_regulators() + spec_ma_regulators() + spec_mi_regulators() + spec_mn_regulators() + spec_ms_regulators() + spec_mo_regulators() + spec_mt_regulators() + spec_ne_regulators() + spec_nh_regulators() + spec_nj_regulators() + spec_nm_regulators() + spec_nc_regulators() + spec_nd_regulators() + spec_oh_regulators() + spec_ok_regulators() + spec_or_regulators() + spec_pa_regulators() + spec_ri_regulators() + spec_sc_regulators() + spec_sd_regulators() + spec_tn_regulators() + spec_ut_regulators() + spec_vt_regulators() + spec_va_regulators() + spec_wa_regulators() + spec_wv_regulators() + spec_wi_regulators() + spec_dc_regulators() + spec_pr_regulators() + spec_gu_regulators());
    }
    let ghost before = all@;
    let mut part = vi_regulators();
    let ghost added = part@;
    all.append(&mut part);
    proof {
        lemma_regulators_view_append(before, added);
        assert(regulators_view(all@) =~= spec_ny_regulators() + spec_ca_regulators() + spec_de_regulators() + spec_wy_regulators() + spec_tx_regulators() + spec_fl_regulators() + spec_nv_regulators() + spec_il_regulators() + spec_al_regulators() + spec_ak_regulators() + spec_az_regulators() + spec_ar_regulators() + spec_co_regulators() + spec_ct_regulators() + spec_ga_regulators() + spec_hi_regulators() + spec_id_regulators() + spec_in_regulators() + spec_ia_regulators() + spec_ks_regulators() + spec_ky_regulators() + spec_la_regulators() + spec_me_regulators() + spec_md_regulators() + spec_ma_regulators() + spec_mi_regulators() + spec_mn_regulators() + spec_ms_regulators() + spec_mo_regulators() + spec_mt_regulators() + spec_ne_regulators() + spec_nh_regulators() + spec_nj_regulators() + spec_nm_regulators() + spec_nc_regulators() + spec_nd_regulators() + spec_oh_regulators() + spec_ok_regulators() + spec_or_regulators() + spec_pa_regulators() + spec_ri_regulators() + spec_sc_regulators() + spec_sd_regulators() + spec_tn_regulators() + spec_ut_regulators() + spec_vt_regulators() + spec_va_regulators() + spec_wa_regulators() + spec_wv_regulators() + spec_wi_regulators() + spec_dc_regulators() + spec_pr_regulators() + spec_gu_regulators() + spec_vi_regulators());
    }
    let ghost before = all@;
    let mut part = as_regulators();
    let ghost added = part@;
    all.append(&mut part);
    proof {
        lemma_regulators_view_append(before, added);
        assert(regulators_view(all@) =~= spec_ny_regulators() + spec_ca_regulators() + spec_de_regulators() + spec_wy_regulators() + spec_tx_regulators() + spec_fl_regulators() + spec_nv_regulators() + spec_il_regulators() + spec_al_regulators() + spec_ak_regulators() + spec_az_regulators() + spec_ar_regulators() + spec_co_regulators() + spec_ct_regulators() + spec_ga_regulators() + spec_hi_regulators() + spec_id_regulators() + spec_in_regulators() + spec_ia_regulators() + spec_ks_regulators() + spec_ky_regulators() + spec_la_regulators() + spec_me_regulators() + spec_md_regulators() + spec_ma_regulators() + spec_mi_regulators() + spec_mn_regulators() + spec_ms_regulators() + spec_mo_regulators() + spec_mt_regulators() + spec_ne_regulators() + spec_nh_regulators() + spec_nj_regulators() + spec_nm_regulators() + spec_nc_regulators() + spec_nd_regulators() + spec_oh_regulators() + spec_ok_regulators() + spec_or_regulators() + spec_pa_regulators() + spec_ri_regulators() + spec_sc_regulators() + spec_sd_regulators() + spec_tn_regulators() + spec_ut_regulators() + spec_vt_regulators() + spec_va_regulators() + spec_wa_regulators() + spec_wv_regulators() + spec_wi_regulators() + spec_dc_regulators() + spec_pr_regulators() + spec_gu_regulators() + spec_vi_regulators() + spec_as_regulators());
    }
    let ghost before = all@;
    let mut part = mp_regulators();
    let ghost added = part@;
    all.append(&mut part);
    proof {
        lemma_regulators_view_append(before, added);
        assert(regulators_view(all@) =~= spec_ny_regulators() + spec_ca_regulators() + spec_de_regulators() + spec_wy_regulators() + spec_tx_regulators() + spec_fl_regulators() + spec_nv_regulators() + spec_il_regulators() + spec_al_regulators() + spec_ak_regulators() + spec_az_regulators() + spec_ar_regulators() + spec_co_regulators() + spec_ct_regulators() + spec_ga_regulators() + spec_hi_regulators() + spec_id_regulators() + spec_in_regulators() + spec_ia_regulators() + spec_ks_regulators() + spec_ky_regulators() + spec_la_regulators() + spec_me_regulators() + spec_md_regulators() + spec_ma_regulators() + spec_mi_regulators() + spec_mn_regulators() + spec_ms_regulators() + spec_mo_regulators() + spec_mt_regulators() + spec_ne_regulators() + spec_nh_regulators() + spec_nj_regulators() + spec_nm_regulators() + spec_nc_regulators() + spec_nd_regulators() + spec_oh_regulators() + spec_ok_regulators() + spec_or_regulators() + spec_pa_regulators() + spec_ri_regulators() + spec_sc_regulators() + spec_sd_regulators() + spec_tn_regulators() + spec_ut_regulators() + spec_vt_regulators() + spec_va_regulators() + spec_wa_regulators() + spec_wv_regulators() + spec_wi_regulators() + spec_dc_regulators() + spec_pr_regulators() + spec_gu_regulators() + spec_vi_regulators() + spec_as_regulators() + spec_mp_regulators());
    }
    all
}

/// The view of `us_license_types`.
pub open spec fn spec_us_license_types() -> Seq<LicenseTypeView> {
    spec_ny_license_types()
        + spec_ca_license_types()
        + spec_de_license_types()
        + spec_wy_license_types()
        + spec_tx_license_types()
        + spec_fl_license_types()
        + spec_nv_license_types()
        + spec_il_license_types()
        + spec_al_license_types()
        + spec_ak_license_types()
        + spec_az_license_types()
        + spec_ar_license_types()
        + spec_co_license_types()
        + spec_ct_license_types()
        + spec_ga_license_types()
        + spec_hi_license_types()
        + spec_id_license_types()
        + spec_in_license_types()
        + spec_ia_license_types()
        + spec_ks_license_types()
        + spec_ky_license_types()
        + spec_la_license_types()
        + spec_me_license_types()
        + spec_md_license_types()
        + spec_ma_license_types()
        + spec_mi_license_types()
        + spec_mn_license_types()
        + spec_ms_license_types()
        + spec_mo_license_types()
        + spec_mt_license_types()
        + spec_ne_license_types()
        + spec_nh_license_types()
        + spec_nj_license_types()
        + spec_nm_license_types()
        + spec_nc_license_types()
        + spec_nd_license_types()
        + spec_oh_license_types()
        + spec_ok_license_types()
        + spec_or_license_types()
        + spec_pa_license_types()
        + spec_ri_license_types()
        + spec_sc_license_types()
        + spec_sd_license_types()
        + spec_tn_license_types()
        + spec_ut_license_types()
        + spec_vt_license_types()
        + spec_va_license_types()
        + spec_wa_license_types()
        + spec_wv_license_types()
        + spec_wi_license_types()
        + spec_dc_license_types()
        + spec_pr_license_types()
        + spec_gu_license_types()
        + spec_vi_license_types()
        + spec_as_license_types()
        + spec_mp_license_types()
}

/// All United States license type definitions across all jurisdictions.
pub fn us_license_types() -> (r: Vec<LicenseTypeDefinition>)
    ensures
        license_types_view(r@) == spec_us_license_types(),
        license_types_view(r@) == spec_ny_license_types()
            + spec_ca_license_types()
            + spec_de_license_types()
            + spec_wy_license_types()
            + spec_tx_license_types()
            + spec_fl_license_types()
            + spec_nv_license_types()
            + spec_il_license_types()
            + spec_al_license_types()
            + spec_ak_license_types()
            + spec_az_license_types()
            + spec_ar_license_types()
            + spec_co_license_types()
            + spec_ct_license_types()
            + spec_ga_license_types()
            + spec_hi_license_types()
            + spec_id_license_types()
            + spec_in_license_types()
            + spec_ia_license_types()
            + spec_ks_license_types()
            + spec_ky_license_types()
            + spec_la_license_types()
            + spec_me_license_types()
            + spec_md_license_types()
            + spec_ma_license_types()
            + spec_mi_license_types()
            + spec_mn_license_types()
            + spec_ms_license_types()
            + spec_mo_license_types()
            + spec_mt_license_types()
            + spec_ne_license_types()
            + spec_nh_license_types()
            + spec_nj_license_types()
            + spec_nm_license_types()
            + spec_nc_license_types()
            + spec_nd_license_types()
            + spec_oh_license_types()
            + spec_ok_license_types()
            + spec_or_license_types()
            + spec_pa_license_types()
            + spec_ri_license_types()
            + spec_sc_license_types()
            + spec_sd_license_types()
            + spec_tn_license_types()
            + spec_ut_license_types()
            + spec_vt_license_types()
            + spec_va_license_types()
            + spec_wa_license_types()
            + spec_wv_license_types()
            + spec_wi_license_types()
            + spec_dc_license_types()
            + spec_pr_license_types()
            + spec_gu_license_types()
            + spec_vi_license_types()
            + spec_as_license_types()
            + spec_mp_license_types(),
{
    let mut all: Vec<LicenseTypeDefinition> = Vec::new();
    proof {
        assert(license_types_view(all@) =~= Seq::<LicenseTypeView>::empty());
    }
    let ghost before = all@;
    let mut part = ny_license_types();
    let ghost added = part@;
    all.append(&mut part);
    proof {
        lemma_license_types_view_append(before, added);
        assert(license_types_view(all@) =~= spec_ny_license_types());
    }
    let ghost before = all@;
    let mut part = ca_license_types();
    let ghost added = part@;
    all.append(&mut part);
    proof {
        lemma_license_types_view_append(before, added);
        assert(license_types_view(all@) =~= spec_ny_license_types() + spec_ca_license_types());
    }
    let ghost before = all@;
    let mut part = de_license_types();
    let ghost added = part@;
    all.append(&mut part);
    proof {
        lemma_license_types_view_append(before, added);
        assert(license_types_view(all@) =~= spec_ny_license_types() + spec_ca_license_types() + spec_de_license_types());
    }
    let ghost before = all@;
    let mut part = wy_license_types();
    let ghost added = part@;
    all.append(&mut part);
    proof {
        lemma_license_types_view_append(before, added);
        assert(license_types_view(all@) =~= spec_ny_license_types() + spec_ca_license_types() + spec_de_license_types() + spec_wy_license_types());
    }
    let ghost before = all@;
    let mut part = tx_license_types();
    let ghost added = part@;
    all.append(&mut part);
    proof {
        lemma_license_types_view_append(before, added);
        assert(license_types_view(all@) =~= spec_ny_license_types() + spec_ca_license_types() + spec_de_license_types() + spec_wy_license_types() + spec_tx_license_types());
    }
    let ghost before = all@;
    let mut part = fl_license_types();
    let ghost added = part@;
    all.append(&mut part);
    proof {
        lemma_license_types_view_append(before, added);
        assert(license_types_view(all@) =~= spec_ny_license_types() + spec_ca_license_types() + spec_de_license_types() + spec_wy_license_types() + spec_tx_license_types() + spec_fl_license_types());
    }
    let ghost before = all@;
    let mut part = nv_license_types();
    let ghost added = part@;
    all.append(&mut part);
    proof {
        lemma_license_types_view_append(before, added);
        assert(license_types_view(all@) =~= spec_ny_license_types() + spec_ca_license_types() + spec_de_license_types() + spec_wy_license_types() + spec_tx_license_types() + spec_fl_license_types() + spec_nv_license_types());
    }
    let ghost before = all@;
    let mut part = il_license_types();
    let ghost added = part@;
    all.append(&mut part);
    proof {
        lemma_license_types_view_append(before, added);
        assert(license_types_view(all@) =~= spec_ny_license_types() + spec_ca_license_types() + spec_de_license_types() + spec_wy_license_types() + spec_tx_license_types() + spec_fl_license_types() + spec_nv_license_types() + spec_il_license_types());
    }
    let ghost before = all@;
    let mut part = al_license_types();
    let ghost added = part@;
    all.append(&mut part);
    proof {
        lemma_license_types_view_append(before, added);
        assert(license_types_view(all@) =~= spec_ny_license_types() + spec_ca_license_types() + spec_de_license_types() + spec_wy_license_types() + spec_tx_license_types() + spec_fl_license_types() + spec_nv_license_types() + spec_il_license_types() + spec_al_license_types());
    }
    let ghost before = all@;
    let mut part = ak_license_types();
    let ghost added = part@;
    all.append(&mut part);
    proof {
        lemma_license_types_view_append(before, added);
        assert(license_types_view(all@) =~= spec_ny_license_types() + spec_ca_license_types() + spec_de_license_types() + spec_wy_license_types() + spec_tx_license_types() + spec_fl_license_types() + spec_nv_license_types() + spec_il_license_types() + spec_al_license_types() + spec_ak_license_types());
    }
    let ghost before = all@;
    let mut part = az_license_types();
    let ghost added = part@;
    all.append(&mut part);
    proof {
        lemma_license_types_view_append(before, added);
        assert(license_types_view(all@) =~= spec_ny_license_types() + spec_ca_license_types() + spec_de_license_types() + spec_wy_license_types() + spec_tx_license_types() + spec_fl_license_types() + spec_nv_license_types() + spec_il_license_types() + spec_al_license_types() + spec_ak_license_types() + spec_az_license_types());
    }
    let ghost before = all@;
    let mut part = ar_license_types();
    let ghost added = part@;
    all.append(&mut part);
    proof {
        lemma_license_types_view_append(before, added);
        assert(license_types_view(all@) =~= spec_ny_license_types() + spec_ca_license_types() + spec_de_license_types() + spec_wy_license_types() + spec_tx_license_types() + spec_fl_license_types() + spec_nv_license_types() + spec_il_license_types() + spec_al_license_types() + spec_ak_license_types() + spec_az_license_types() + spec_ar_license_types());
    }
    let ghost before = all@;
    let mut part = co_license_types();
    let ghost added = part@;
    all.append(&mut part);
    proof {
        lemma_license_types_view_append(before, added);
        assert(license_types_view(all@) =~= spec_ny_license_types() + spec_ca_license_types() + spec_de_license_types() + spec_wy_license_types() + spec_tx_license_types() + spec_fl_license_types() + spec_nv_license_types() + spec_il_license_types() + spec_al_license_types() + spec_ak_license_types() + spec_az_license_types() + spec_ar_license_types() + spec_co_license_types());
    }
    let ghost before = all@;
    let mut part = ct_license_types();
    let ghost added = part@;
    all.append(&mut part);
    proof {
        lemma_license_types_view_append(before, added);
        assert(license_types_view(all@) =~= spec_ny_license_types() + spec_ca_license_types() + spec_de_license_types() + spec_wy_license_types() + spec_tx_license_types() + spec_fl_license_types() + spec_nv_license_types() + spec_il_license_types() + spec_al_license_types() + spec_ak_license_types() + spec_az_license_types() + spec_ar_license_types() + spec_co_license_types() + spec_ct_license_types());
    }
    let ghost before = all@;
    let mut part = ga_license_types();
    let ghost added = part@;
    all.append(&mut part);
    proof {
        lemma_license_types_view_append(before, added);
        assert(license_types_view(all@) =~= spec_ny_license_types() + spec_ca_license_types() + spec_de_license_types() + spec_wy_license_types() + spec_tx_license_types() + spec_fl_license_types() + spec_nv_license_types() + spec_il_license_types() + spec_al_license_types() + spec_ak_license_types() + spec_az_license_types() + spec_ar_license_types() + spec_co_license_types() + spec_ct_license_types() + spec_ga_license_types());
    }
    let ghost before = all@;
    let mut part = hi_license_types();
    let ghost added = part@;
    all.append(&mut part);
    proof {
        lemma_license_types_view_append(before, added);
        assert(license_types_view(all@) =~= spec_ny_license_types() + spec_ca_license_types() + spec_de_license_types() + spec_wy_license_types() + spec_tx_license_types() + spec_fl_license_types() + spec_nv_license_types() + spec_il_license_types() + spec_al_license_types() + spec_ak_license_types() + spec_az_license_types() + spec_ar_license_types() + spec_co_license_types() + spec_ct_license_types() + spec_ga_license_types() + spec_hi_license_types());
    }
    let ghost before = all@;
    let mut part = id_license_types();
    let ghost added = part@;
    all.append(&mut part);
    proof {
        lemma_license_types_view_append(before, added);
        assert(license_types_view(all@) =~= spec_ny_license_types() + spec_ca_license_types() + spec_de_license_types() + spec_wy_license_types() + spec_tx_license_types() + spec_fl_license_types() + spec_nv_license_types() + spec_il_license_types() + spec_al_license_types() + spec_ak_license_types() + spec_az_license_types() + spec_ar_license_types() + spec_co_license_types() + spec_ct_license_types() + spec_ga_license_types() + spec_hi_license_types() + spec_id_license_types());
    }
    let ghost before = all@;
    let mut part = in_license_types();
    let ghost added = part@;
    all.append(&mut part);
    proof {
        lemma_license_types_view_append(before, added);
        assert(license_types_view(all@) =~= spec_ny_license_types() + spec_ca_license_types() + spec_de_license_types() + spec_wy_license_types() + spec_tx_license_types() + spec_fl_license_types() + spec_nv_license_types() + spec_il_license_types() + spec_al_license_types() + spec_ak_license_types() + spec_az_license_types() + spec_ar_license_types() + spec_co_license_types() + spec_ct_license_types() + spec_ga_license_types() + spec_hi_license_types() + spec_id_license_types() + spec_in_license_types());
    }
    let ghost before = all@;
    let mut part = ia_license_types();
    let ghost added = part@;
    all.append(&mut part);
    proof {
        lemma_license_types_view_append(before, added);
        assert(license_types_view(all@) =~= spec_ny_license_types() + spec_ca_license_types() + spec_de_license_types() + spec_wy_license_types() + spec_tx_license_types() + spec_fl_license_types() + spec_nv_license_types() + spec_il_license_types() + spec_al_license_types() + spec_ak_license_types() + spec_az_license_types() + spec_ar_license_types() + spec_co_license_types() + spec_ct_license_types() + spec_ga_license_types() + spec_hi_license_types() + spec_id_license_types() + spec_in_license_types() + spec_ia_license_types());
    }
    let ghost before = all@;
    let mut part = ks_license_types();
    let ghost added = part@;
    all.append(&mut part);
    proof {
        lemma_license_types_view_append(before, added);
        assert(license_types_view(all@) =~= spec_ny_license_types() + spec_ca_license_types() + spec_de_license_types() + spec_wy_license_types() + spec_tx_license_types() + spec_fl_license_types() + spec_nv_license_types() + spec_il_license_types() + spec_al_license_types() + spec_ak_license_types() + spec_az_license_types() + spec_ar_license_types() + spec_co_license_types() + spec_ct_license_types() + spec_ga_license_types() + spec_hi_license_types() + spec_id_license_types() + spec_in_license_types() + spec_ia_license_types() + spec_ks_license_types());
    }
    let ghost before = all@;
    let mut part = ky_license_types();
    let ghost added = part@;
    all.append(&mut part);
    proof {
        lemma_license_types_view_append(before, added);
        assert(license_types_view(all@) =~= spec_ny_license_types() + spec_ca_license_types() + spec_de_license_types() + spec_wy_license_types() + spec_tx_license_types() + spec_fl_license_types() + spec_nv_license_types() + spec_il_license_types() + spec_al_license_types() + spec_ak_license_types() + spec_az_license_types() + spec_ar_license_types() + spec_co_license_types() + spec_ct_license_types() + spec_ga_license_types() + spec_hi_license_types() + spec_id_license_types() + spec_in_license_types() + spec_ia_license_types() + spec_ks_license_types() + spec_ky_license_types());
    }
    let ghost before = all@;
    let mut part = la_license_types();
    let ghost added = part@;
    all.append(&mut part);
    proof {
        lemma_license_types_view_append(before, added);
        assert(license_types_view(all@) =~= spec_ny_license_types() + spec_ca_license_types() + spec_de_license_types() + spec_wy_license_types() + spec_tx_license_types() + spec_fl_license_types() + spec_nv_license_types() + spec_il_license_types() + spec_al_license_types() + spec_ak_license_types() + spec_az_license_types() + spec_ar_license_types() + spec_co_license_types() + spec_ct_license_types() + spec_ga_license_types() + spec_hi_license_types() + spec_id_license_types() + spec_in_license_types() + spec_ia_license_types() + spec_ks_license_types() + spec_ky_license_types() + spec_la_license_types());
    }
    let ghost before = all@;
    let mut part = me_license_types();
    let ghost added = part@;
    all.append(&mut part);
    proof {
        lemma_license_types_view_append(before, added);
        assert(license_types_view(all@) =~= spec_ny_license_types() + spec_ca_license_types() + spec_de_license_types() + spec_wy_license_types() + spec_tx_license_types() + spec_fl_license_types() + spec_nv_license_types() + spec_il_license_types() + spec_al_license_types() + spec_ak_license_types() + spec_az_license_types() + spec_ar_license_types() + spec_co_license_types() + spec_ct_license_types() + spec_ga_license_types() + spec_hi_license_types() + spec_id_license_types() + spec_in_license_types() + spec_ia_license_types() + spec_ks_license_types() + spec_ky_license_types() + spec_la_license_types() + spec_me_license_types());
    }
    let ghost before = all@;
    let mut part = md_license_types();
    let ghost added = part@;
    all.append(&mut part);
    proof {
        lemma_license_types_view_append(before, added);
        assert(license_types_view(all@) =~= spec_ny_license_types() + spec_ca_license_types() + spec_de_license_types() + spec_wy_license_types() + spec_tx_license_types() + spec_fl_license_types() + spec_nv_license_types() + spec_il_license_types() + spec_al_license_types() + spec_ak_license_types() + spec_az_license_types() + spec_ar_license_types() + spec_co_license_types() + spec_ct_license_types() + spec_ga_license_types() + spec_hi_license_types() + spec_id_license_types() + spec_in_license_types() + spec_ia_license_types() + spec_ks_license_types() + spec_ky_license_types() + spec_la_license_types() + spec_me_license_types() + spec_md_license_types());
    }
    let ghost before = all@;
    let mut part = ma_license_types();
    let ghost added = part@;
    all.append(&mut part);
    proof {
        lemma_license_types_view_append(before, added);
        assert(license_types_view(all@) =~= spec_ny_license_types() + spec_ca_license_types() + spec_de_license_types() + spec_wy_license_types() + spec_tx_license_types() + spec_fl_license_types() + spec_nv_license_types() + spec_il_license_types() + spec_al_license_types() + spec_ak_license_types() + spec_az_license_types() + spec_ar_license_types() + spec_co_license_types() + spec_ct_license_types() + spec_ga_license_types() + spec_hi_license_types() + spec_id_license_types() + spec_in_license_types() + spec_ia_license_types() + spec_ks_license_types() + spec_ky_license_types() + spec_la_license_types() + spec_me_license_types() + spec_md_license_types() + spec_ma_license_types());
    }
    let ghost before = all@;
    let mut part = mi_license_types();
    let ghost added = part@;
    all.append(&mut part);
    proof {
        lemma_license_types_view_append(before, added);
        assert(license_types_view(all@) =~= spec_ny_license_types() + spec_ca_license_types() + spec_de_license_types() + spec_wy_license_types() + spec_tx_license_types() + spec_fl_license_types() + spec_nv_license_types() + spec_il_license_types() + spec_al_license_types() + spec_ak_license_types() + spec_az_license_types() + spec_ar_license_types() + spec_co_license_types() + spec_ct_license_types() + spec_ga_license_types() + spec_hi_license_types() + spec_id_license_types() + spec_in_license_types() + spec_ia_license_types() + spec_ks_license_types() + spec_ky_license_types() + spec_la_license_types() + spec_me_license_types() + spec_md_license_types() + spec_ma_license_types() + spec_mi_license_types());
    }
    let ghost before = all@;
    let mut part = mn_license_types();
    let ghost added = part@;
    all.append(&mut part);
    proof {
        lemma_license_types_view_append(before, added);
        assert(license_types_view(all@) =~= spec_ny_license_types() + spec_ca_license_types() + spec_de_license_types() + spec_wy_license_types() + spec_tx_license_types() + spec_fl_license_types() + spec_nv_license_types() + spec_il_license_types() + spec_al_license_types() + spec_ak_license_types() + spec_az_license_types() + spec_ar_license_types() + spec_co_license_types() + spec_ct_license_types() + spec_ga_license_types() + spec_hi_license_types() + spec_id_license_types() + spec_in_license_types() + spec_ia_license_types() + spec_ks_license_types() + spec_ky_license_types() + spec_la_license_types() + spec_me_license_types() + spec_md_license_types() + spec_ma_license_types() + spec_mi_license_types() + spec_mn_license_types());
    }
    let ghost before = all@;
    let mut part = ms_license_types();
    let ghost added = part@;
    all.append(&mut part);
    proof {
        lemma_license_types_view_append(before, added);
        assert(license_types_view(all@) =~= spec_ny_license_types() + spec_ca_license_types() + spec_de_license_types() + spec_wy_license_types() + spec_tx_license_types() + spec_fl_license_types() + spec_nv_license_types() + spec_il_license_types() + spec_al_license_types() + spec_ak_license_types() + spec_az_license_types() + spec_ar_license_types() + spec_co_license_types() + spec_ct_license_types() + spec_ga_license_types() + spec_hi_license_types() + spec_id_license_types() + spec_in_license_types() + spec_ia_license_types() + spec_ks_license_types() + spec_ky_license_types() + spec_la_license_types() + spec_me_license_types() + spec_md_license_types() + spec_ma_license_types() + spec_mi_license_types() + spec_mn_license_types() + spec_ms_license_types());
    }
    let ghost before = all@;
    let mut part = mo_license_types();
    let ghost added = part@;
    all.append(&mut part);
    proof {
        lemma_license_types_view_append(before, added);
        assert(license_types_view(all@) =~= spec_ny_license_types() + spec_ca_license_types() + spec_de_license_types() + spec_wy_license_types() + spec_tx_license_types() + spec_fl_license_types() + spec_nv_license_types() + spec_il_license_types() + spec_al_license_types() + spec_ak_license_types() + spec_az_license_types() + spec_ar_license_types() + spec_co_license_types() + spec_ct_license_types() + spec_ga_license_types() + spec_hi_license_types() + spec_id_license_types() + spec_in_license_types() + spec_ia_license_types() + spec_ks_license_types() + spec_ky_license_types() + spec_la_license_types() + spec_me_license_types() + spec_md_license_types() + spec_ma_license_types() + spec_mi_license_types() + spec_mn_license_types() + spec_ms_license_types() + spec_mo_license_types());
    }
    let ghost before = all@;
    let mut part = mt_license_types();
    let ghost added = part@;
    all.append(&mut part);
    proof {
        lemma_license_types_view_append(before, added);
        assert(license_types_view(all@) =~= spec_ny_license_types() + spec_ca_license_types() + spec_de_license_types() + spec_wy_license_types() + spec_tx_license_types() + spec_fl_license_types() + spec_nv_license_types() + spec_il_license_types() + spec_al_license_types() + spec_ak_license_types() + spec_az_license_types() + spec_ar_license_types() + spec_co_license_types() + spec_ct_license_types() + spec_ga_license_types() + spec_hi_license_types() + spec_id_license_types() + spec_in_license_types() + spec_ia_license_types() + spec_ks_license_types() + spec_ky_license_types() + spec_la_license_types() + spec_me_license_types() + spec_md_license_types() + spec_ma_license_types() + spec_mi_license_types() + spec_mn_license_types() + spec_ms_license_types() + spec_mo_license_types() + spec_mt_license_types());
    }
    let ghost before = all@;
    let mut part = ne_license_types();
    let ghost added = part@;
    all.append(&mut part);
    proof {
        lemma_license_types_view_append(before, added);
        assert(license_types_view(all@) =~= spec_ny_license_types() + spec_ca_license_types() + spec_de_license_types() + spec_wy_license_types() + spec_tx_license_types() + spec_fl_license_types() + spec_nv_license_types() + spec_il_license_types() + spec_al_license_types() + spec_ak_license_types() + spec_az_license_types() + spec_ar_license_types() + spec_co_license_types() + spec_ct_license_types() + spec_ga_license_types() + spec_hi_license_types() + spec_id_license_types() + spec_in_license_types() + spec_ia_license_types() + spec_ks_license_types() + spec_ky_license_types() + spec_la_license_types() + spec_me_license_types() + spec_md_license_types() + spec_ma_license_types() + spec_mi_license_types() + spec_mn_license_types() + spec_ms_license_types() + spec_mo_license_types() + spec_mt_license_types() + spec_ne_license_types());
    }
    let ghost before = all@;
    let mut part = nh_license_types();
    let ghost added = part@;
    all.append(&mut part);
    proof {
        lemma_license_types_view_append(before, added);
        assert(license_types_view(all@) =~= spec_ny_license_types() + spec_ca_license_types() + spec_de_license_types() + spec_wy_license_types() + spec_tx_license_types() + spec_fl_license_types() + spec_nv_license_types() + spec_il_license_types() + spec_al_license_types() + spec_ak_license_types() + spec_az_license_types() + spec_ar_license_types() + spec_co_license_types() + spec_ct_license_types() + spec_ga_license_types() + spec_hi_license_types() + spec_id_license_types() + spec_in_license_types() + spec_ia_license_types() + spec_ks_license_types() + spec_ky_license_types() + spec_la_license_types() + spec_me_license_types() + spec_md_license_types() + spec_ma_license_types() + spec_mi_license_types() + spec_mn_license_types() + spec_ms_license_types() + spec_mo_license_types() + spec_mt_license_types() + spec_ne_license_types() + spec_nh_license_types());
    }
    let ghost before = all@;
    let mut part = nj_license_types();
    let ghost added = part@;
    all.append(&mut part);
    proof {
        lemma_license_types_view_append(before, added);
        assert(license_types_view(all@) =~= spec_ny_license_types() + spec_ca_license_types() + spec_de_license_types() + spec_wy_license_types() + spec_tx_license_types() + spec_fl_license_types() + spec_nv_license_types() + spec_il_license_types() + spec_al_license_types() + spec_ak_license_types() + spec_az_license_types() + spec_ar_license_types() + spec_co_license_types() + spec_ct_license_types() + spec_ga_license_types() + spec_hi_license_types() + spec_id_license_types() + spec_in_license_types() + spec_ia_license_types() + spec_ks_license_types() + spec_ky_license_types() + spec_la_license_types() + spec_me_license_types() + spec_md_license_types() + spec_ma_license_types() + spec_mi_license_types() + spec_mn_license_types() + spec_ms_license_types() + spec_mo_license_types() + spec_mt_license_types() + spec_ne_license_types() + spec_nh_license_types() + spec_nj_license_types());
    }
    let ghost before = all@;
    let mut part = nm_license_types();
    let ghost added = part@;
    all.append(&mut part);
    proof {
        lemma_license_types_view_append(before, added);
        assert(license_types_view(all@) =~= spec_ny_license_types() + spec_ca_license_types() + spec_de_license_types() + spec_wy_license_types() + spec_tx_license_types() + spec_fl_license_types() + spec_nv_license_types() + spec_il_license_types() + spec_al_license_types() + spec_ak_license_types() + spec_az_license_types() + spec_ar_license_types() + spec_co_license_types() + spec_ct_license_types() + spec_ga_license_types() + spec_hi_license_types() + spec_id_license_types() + spec_in_license_types() + spec_ia_license_types() + spec_ks_license_types() + spec_ky_license_types() + spec_la_license_types() + spec_me_license_types() + spec_md_license_types() + spec_ma_license_types() + spec_mi_license_types() + spec_mn_license_types() + spec_ms_license_types() + spec_mo_license_types() + spec_mt_license_types() + spec_ne_license_types() + spec_nh_license_types() + spec_nj_license_types() + spec_nm_license_types());
    }
    let ghost before = all@;
    let mut part = nc_license_types();
    let ghost added = part@;
    all.append(&mut part);
    proof {
        lemma_license_types_view_append(before, added);
        assert(license_types_view(all@) =~= spec_ny_license_types() + spec_ca_license_types() + spec_de_license_types() + spec_wy_license_types() + spec_tx_license_types() + spec_fl_license_types() + spec_nv_license_types() + spec_il_license_types() + spec_al_license_types() + spec_ak_license_types() + spec_az_license_types() + spec_ar_license_types() + spec_co_license_types() + spec_ct_license_types() + spec_ga_license_types() + spec_hi_license_types() + spec_id_license_types() + spec_in_license_types() + spec_ia_license_types() + spec_ks_license_types() + spec_ky_license_types() + spec_la_license_types() + spec_me_license_types() + spec_md_license_types() + spec_ma_license_types() + spec_mi_license_types() + spec_mn_license_types() + spec_ms_license_types() + spec_mo_license_types() + spec_mt_license_types() + spec_ne_license_types() + spec_nh_license_types() + spec_nj_license_types() + spec_nm_license_types() + spec_nc_license_types());
    }
    let ghost before = all@;
    let mut part = nd_license_types();
    let ghost added = part@;
    all.append(&mut part);
    proof {
        lemma_license_types_view_append(before, added);
        assert(license_types_view(all@) =~= spec_ny_license_types() + spec_ca_license_types() + spec_de_license_types() + spec_wy_license_types() + spec_tx_license_types() + spec_fl_license_types() + spec_nv_license_types() + spec_il_license_types() + spec_al_license_types() + spec_ak_license_types() + spec_az_license_types() + spec_ar_license_types() + spec_co_license_types() + spec_ct_license_types() + spec_ga_license_types() + spec_hi_license_types() + spec_id_license_types() + spec_in_license_types() + spec_ia_license_types() + spec_ks_license_types() + spec_ky_license_types() + spec_la_license_types() + spec_me_license_types() + spec_md_license_types() + spec_ma_license_types() + spec_mi_license_types() + spec_mn_license_types() + spec_ms_license_types() + spec_mo_license_types() + spec_mt_license_types() + spec_ne_license_types() + spec_nh_license_types() + spec_nj_license_types() + spec_nm_license_types() + spec_nc_license_types() + spec_nd_license_types());
    }
    let ghost before = all@;
    let mut part = oh_license_types();
    let ghost added = part@;
    all.append(&mut part);
    proof {
        lemma_license_types_view_append(before, added);
        assert(license_types_view(all@) =~= spec_ny_license_types() + spec_ca_license_types() + spec_de_license_types() + spec_wy_license_types() + spec_tx_license_types() + spec_fl_license_types() + spec_nv_license_types() + spec_il_license_types() + spec_al_license_types() + spec_ak_license_types() + spec_az_license_types() + spec_ar_license_types() + spec_co_license_types() + spec_ct_license_types() + spec_ga_license_types() + spec_hi_license_types() + spec_id_license_types() + spec_in_license_types() + spec_ia_license_types() + spec_ks_license_types() + spec_ky_license_types() + spec_la_license_types() + spec_me_license_types() + spec_md_license_types() + spec_ma_license_types() + spec_mi_license_types() + spec_mn_license_types() + spec_ms_license_types() + spec_mo_license_types() + spec_mt_license_types() + spec_ne_license_types() + spec_nh_license_types() + spec_nj_license_types() + spec_nm_license_types() + spec_nc_license_types() + spec_nd_license_types() + spec_oh_license_types());
    }
    let ghost before = all@;
    let mut part = ok_license_types();
    let ghost added = part@;
    all.append(&mut part);
    proof {
        lemma_license_types_view_append(before, added);
        assert(license_types_view(all@) =~= spec_ny_license_types() + spec_ca_license_types() + spec_de_license_types() + spec_wy_license_types() + spec_tx_license_types() + spec_fl_license_types() + spec_nv_license_types() + spec_il_license_types() + spec_al_license_types() + spec_ak_license_types() + spec_az_license_types() + spec_ar_license_types() + spec_co_license_types() + spec_ct_license_types() + spec_ga_license_types() + spec_hi_license_types() + spec_id_license_types() + spec_in_license_types() + spec_ia_license_types() + spec_ks_license_types() + spec_ky_license_types() + spec_la_license_types() + spec_me_license_types() + spec_md_license_types() + spec_ma_license_types() + spec_mi_license_types() + spec_mn_license_types() + spec_ms_license_types() + spec_mo_license_types() + spec_mt_license_types() + spec_ne_license_types() + spec_nh_license_types() + spec_nj_license_types() + spec_nm_license_types() + spec_nc_license_types() + spec_nd_license_types() + spec_oh_license_types() + spec_ok_license_types());
    }
    let ghost before = all@;
    let mut part = or_license_types();
    let ghost added = part@;
    all.append(&mut part);
    proof {
        lemma_license_types_view_append(before, added);
        assert(license_types_view(all@) =~= spec_ny_license_types() + spec_ca_license_types() + spec_de_license_types() + spec_wy_license_types() + spec_tx_license_types() + spec_fl_license_types() + spec_nv_license_types() + spec_il_license_types() + spec_al_license_types() + spec_ak_license_types() + spec_az_license_types() + spec_ar_license_types() + spec_co_license_types() + spec_ct_license_types() + spec_ga_license_types() + spec_hi_license_types() + spec_id_license_types() + spec_in_license_types() + spec_ia_license_types() + spec_ks_license_types() + spec_ky_license_types() + spec_la_license_types() + spec_me_license_types() + spec_md_license_types() + spec_ma_license_types() + spec_mi_license_types() + spec_mn_license_types() + spec_ms_license_types() + spec_mo_license_types() + spec_mt_license_types() + spec_ne_license_types() + spec_nh_license_types() + spec_nj_license_types() + spec_nm_license_types() + spec_nc_license_types() + spec_nd_license_types() + spec_oh_license_types() + spec_ok_license_types() + spec_or_license_types());
    }
    let ghost before = all@;
    let mut part = pa_license_types();
    let ghost added = part@;
    all.append(&mut part);
    proof {
        lemma_license_types_view_append(before, added);
        assert(license_types_view(all@) =~= spec_ny_license_types() + spec_ca_license_types() + spec_de_license_types() + spec_wy_license_types() + spec_tx_license_types() + spec_fl_license_types() + spec_nv_license_types() + spec_il_license_types() + spec_al_license_types() + spec_ak_license_types() + spec_az_license_types() + spec_ar_license_types() + spec_co_license_types() + spec_ct_license_types() + spec_ga_license_types() + spec_hi_license_types() + spec_id_license_types() + spec_in_license_types() + spec_ia_license_types() + spec_ks_license_types() + spec_ky_license_types() + spec_la_license_types() + spec_me_license_types() + spec_md_license_types() + spec_ma_license_types() + spec_mi_license_types() + spec_mn_license_types() + spec_ms_license_types() + spec_mo_license_types() + spec_mt_license_types() + spec_ne_license_types() + spec_nh_license_types() + spec_nj_license_types() + spec_nm_license_types() + spec_nc_license_types() + spec_nd_license_types() + spec_oh_license_types() + spec_ok_license_types() + spec_or_license_types() + spec_pa_license_types());
    }
    let ghost before = all@;
    let mut part = ri_license_types();
    let ghost added = part@;
    all.append(&mut part);
    proof {
        lemma_license_types_view_append(before, added);
        assert(license_types_view(all@) =~= spec_ny_license_types() + spec_ca_license_types() + spec_de_license_types() + spec_wy_license_types() + spec_tx_license_types() + spec_fl_license_types() + spec_nv_license_types() + spec_il_license_types() + spec_al_license_types() + spec_ak_license_types() + spec_az_license_types() + spec_ar_license_types() + spec_co_license_types() + spec_ct_license_types() + spec_ga_license_types() + spec_hi_license_types() + spec_id_license_types() + spec_in_license_types() + spec_ia_license_types() + spec_ks_license_types() + spec_ky_license_types() + spec_la_license_types() + spec_me_license_types() + spec_md_license_types() + spec_ma_license_types() + spec_mi_license_types() + spec_mn_license_types() + spec_ms_license_types() + spec_mo_license_types() + spec_mt_license_types() + spec_ne_license_types() + spec_nh_license_types() + spec_nj_license_types() + spec_nm_license_types() + spec_nc_license_types() + spec_nd_license_types() + spec_oh_license_types() + spec_ok_license_types() + spec_or_license_types() + spec_pa_license_types() + spec_ri_license_types());
    }
    let ghost before = all@;
    let mut part = sc_license_types();
    let ghost added = part@;
    all.append(&mut part);
    proof {
        lemma_license_types_view_append(before, added);
        assert(license_types_view(all@) =~= spec_ny_license_types() + spec_ca_license_types() + spec_de_license_types() + spec_wy_license_types() + spec_tx_license_types() + spec_fl_license_types() + spec_nv_license_types() + spec_il_license_types() + spec_al_license_types() + spec_ak_license_types() + spec_az_license_types() + spec_ar_license_types() + spec_co_license_types() + spec_ct_license_types() + spec_ga_license_types() + spec_hi_license_types() + spec_id_license_types() + spec_in_license_types() + spec_ia_license_types() + spec_ks_license_types() + spec_ky_license_types() + spec_la_license_types() + spec_me_license_types() + spec_md_license_types() + spec_ma_license_types() + spec_mi_license_types() + spec_mn_license_types() + spec_ms_license_types() + spec_mo_license_types() + spec_mt_license_types() + spec_ne_license_types() + spec_nh_license_types() + spec_nj_license_types() + spec_nm_license_types() + spec_nc_license_types() + spec_nd_license_types() + spec_oh_license_types() + spec_ok_license_types() + spec_or_license_types() + spec_pa_license_types() + spec_ri_license_types() + spec_sc_license_types());
    }
    let ghost before = all@;
    let mut part = sd_license_types();
    let ghost added = part@;
    all.append(&mut part);
    proof {
        lemma_license_types_view_append(before, added);
        assert(license_types_view(all@) =~= spec_ny_license_types() + spec_ca_license_types() + spec_de_license_types() + spec_wy_license_types() + spec_tx_license_types() + spec_fl_license_types() + spec_nv_license_types() + spec_il_license_types() + spec_al_license_types() + spec_ak_license_types() + spec_az_license_types() + spec_ar_license_types() + spec_co_license_types() + spec_ct_license_types() + spec_ga_license_types() + spec_hi_license_types() + spec_id_license_types() + spec_in_license_types() + spec_ia_license_types() + spec_ks_license_types() + spec_ky_license_types() + spec_la_license_types() + spec_me_license_types() + spec_md_license_types() + spec_ma_license_types() + spec_mi_license_types() + spec_mn_license_types() + spec_ms_license_types() + spec_mo_license_types() + spec_mt_license_types() + spec_ne_license_types() + spec_nh_license_types() + spec_nj_license_types() + spec_nm_license_types() + spec_nc_license_types() + spec_nd_license_types() + spec_oh_license_types() + spec_ok_license_types() + spec_or_license_types() + spec_pa_license_types() + spec_ri_license_types() + spec_sc_license_types() + spec_sd_license_types());
    }
    let ghost before = all@;
    let mut part = tn_license_types();
    let ghost added = part@;
    all.append(&mut part);
    proof {
        lemma_license_types_view_append(before, added);
        assert(license_types_view(all@) =~= spec_ny_license_types() + spec_ca_license_types() + spec_de_license_types() + spec_wy_license_types() + spec_tx_license_types() + spec_fl_license_types() + spec_nv_license_types() + spec_il_license_types() + spec_al_license_types() + spec_ak_license_types() + spec_az_license_types() + spec_ar_license_types() + spec_co_license_types() + spec_ct_license_types() + spec_ga_license_types() + spec_hi_license_types() + spec_id_license_types() + spec_in_license_types() + spec_ia_license_types() + spec_ks_license_types() + spec_ky_license_types() + spec_la_license_types() + spec_me_license_types() + spec_md_license_types() + spec_ma_license_types() + spec_mi_license_types() + spec_mn_license_types() + spec_ms_license_types() + spec_mo_license_types() + spec_mt_license_types() + spec_ne_license_types() + spec_nh_license_types() + spec_nj_license_types() + spec_nm_license_types() + spec_nc_license_types() + spec_nd_license_types() + spec_oh_license_types() + spec_ok_license_types() + spec_or_license_types() + spec_pa_license_types() + spec_ri_license_types() + spec_sc_license_types() + spec_sd_license_types() + spec_tn_license_types());
    }
    let ghost before = all@;
    let mut part = ut_license_types();
    let ghost added = part@;
    all.append(&mut part);
    proof {
        lemma_license_types_view_append(before, added);
        assert(license_types_view(all@) =~= spec_ny_license_types() + spec_ca_license_types() + spec_de_license_types() + spec_wy_license_types() + spec_tx_license_types() + spec_fl_license_types() + spec_nv_license_types() + spec_il_license_types() + spec_al_license_types() + spec_ak_license_types() + spec_az_license_types() + spec_ar_license_types() + spec_co_license_types() + spec_ct_license_types() + spec_ga_license_types() + spec_hi_license_types() + spec_id_license_types() + spec_in_license_types() + spec_ia_license_types() + spec_ks_license_types() + spec_ky_license_types() + spec_la_license_types() + spec_me_license_types() + spec_md_license_types() + spec_ma_license_types() + spec_mi_license_types() + spec_mn_license_types() + spec_ms_license_types() + spec_mo_license_types() + spec_mt_license_types() + spec_ne_license_types() + spec_nh_license_types() + spec_nj_license_types() + spec_nm_license_types() + spec_nc_license_types() + spec_nd_license_types() + spec_oh_license_types() + spec_ok_license_types() + spec_or_license_types() + spec_pa_license_types() + spec_ri_license_types() + spec_sc_license_types() + spec_sd_license_types() + spec_tn_license_types() + spec_ut_license_types());
    }
    let ghost before = all@;
    let mut part = vt_license_types();
    let ghost added = part@;
    all.append(&mut part);
    proof {
        lemma_license_types_view_append(before, added);
        assert(license_types_view(all@) =~= spec_ny_license_types() + spec_ca_license_types() + spec_de_license_types() + spec_wy_license_types() + spec_tx_license_types() + spec_fl_license_types() + spec_nv_license_types() + spec_il_license_types() + spec_al_license_types() + spec_ak_license_types() + spec_az_license_types() + spec_ar_license_types() + spec_co_license_types() + spec_ct_license_types() + spec_ga_license_types() + spec_hi_license_types() + spec_id_license_types() + spec_in_license_types() + spec_ia_license_types() + spec_ks_license_types() + spec_ky_license_types() + spec_la_license_types() + spec_me_license_types() + spec_md_license_types() + spec_ma_license_types() + spec_mi_license_types() + spec_mn_license_types() + spec_ms_license_types() + spec_mo_license_types() + spec_mt_license_types() + spec_ne_license_types() + spec_nh_license_types() + spec_nj_license_types() + spec_nm_license_types() + spec_nc_license_types() + spec_nd_license_types() + spec_oh_license_types() + spec_ok_license_types() + spec_or_license_types() + spec_pa_license_types() + spec_ri_license_types() + spec_sc_license_types() + spec_sd_license_types() + spec_tn_license_types() + spec_ut_license_types() + spec_vt_license_types());
    }
    let ghost before = all@;
    let mut part = va_license_types();
    let ghost added = part@;
    all.append(&mut part);
    proof {
        lemma_license_types_view_append(before, added);
        assert(license_types_view(all@) =~= spec_ny_license_types() + spec_ca_license_types() + spec_de_license_types() + spec_wy_license_types() + spec_tx_license_types() + spec_fl_license_types() + spec_nv_license_types() + spec_il_license_types() + spec_al_license_types() + spec_ak_license_types() + spec_az_license_types() + spec_ar_license_types() + spec_co_license_types() + spec_ct_license_types() + spec_ga_license_types() + spec_hi_license_types() + spec_id_license_types() + spec_in_license_types() + spec_ia_license_types() + spec_ks_license_types() + spec_ky_license_types() + spec_la_license_types() + spec_me_license_types() + spec_md_license_types() + spec_ma_license_types() + spec_mi_license_types() + spec_mn_license_types() + spec_ms_license_types() + spec_mo_license_types() + spec_mt_license_types() + spec_ne_license_types() + spec_nh_license_types() + spec_nj_license_types() + spec_nm_license_types() + spec_nc_license_types() + spec_nd_license_types() + spec_oh_license_types() + spec_ok_license_types() + spec_or_license_types() + spec_pa_license_types() + spec_ri_license_types() + spec_sc_license_types() + spec_sd_license_types() + spec_tn_license_types() + spec_ut_license_types() + spec_vt_license_types() + spec_va_license_types());
    }
    let ghost before = all@;
    let mut part = wa_license_types();
    let ghost added = part@;
    all.append(&mut part);
    proof {
        lemma_license_types_view_append(before, added);
        assert(license_types_view(all@) =~= spec_ny_license_types() + spec_ca_license_types() + spec_de_license_types() + spec_wy_license_types() + spec_tx_license_types() + spec_fl_license_types() + spec_nv_license_types() + spec_il_license_types() + spec_al_license_types() + spec_ak_license_types() + spec_az_license_types() + spec_ar_license_types() + spec_co_license_types() + spec_ct_license_types() + spec_ga_license_types() + spec_hi_license_types() + spec_id_license_types() + spec_in_license_types() + spec_ia_license_types() + spec_ks_license_types() + spec_ky_license_types() + spec_la_license_types() + spec_me_license_types() + spec_md_license_types() + spec_ma_license_types() + spec_mi_license_types() + spec_mn_license_types() + spec_ms_license_types() + spec_mo_license_types() + spec_mt_license_types() + spec_ne_license_types() + spec_nh_license_types() + spec_nj_license_types() + spec_nm_license_types() + spec_nc_license_types() + spec_nd_license_types() + spec_oh_license_types() + spec_ok_license_types() + spec_or_license_types() + spec_pa_license_types() + spec_ri_license_types() + spec_sc_license_types() + spec_sd_license_types() + spec_tn_license_types() + spec_ut_license_types() + spec_vt_license_types() + spec_va_license_types() + spec_wa_license_types());
    }
    let ghost before = all@;
    let mut part = wv_license_types();
    let ghost added = part@;
    all.append(&mut part);
    proof {
        lemma_license_types_view_append(before, added);
        assert(license_types_view(all@) =~= spec_ny_license_types() + spec_ca_license_types() + spec_de_license_types() + spec_wy_license_types() + spec_tx_license_types() + spec_fl_license_types() + spec_nv_license_types() + spec_il_license_types() + spec_al_license_types() + spec_ak_license_types() + spec_az_license_types() + spec_ar_license_types() + spec_co_license_types() + spec_ct_license_types() + spec_ga_license_types() + spec_hi_license_types() + spec_id_license_types() + spec_in_license_types() + spec_ia_license_types() + spec_ks_license_types() + spec_ky_license_types() + spec_la_license_types() + spec_me_license_types() + spec_md_license_types() + spec_ma_license_types() + spec_mi_license_types() + spec_mn_license_types() + spec_ms_license_types() + spec_mo_license_types() + spec_mt_license_types() + spec_ne_license_types() + spec_nh_license_types() + spec_nj_license_types() + spec_nm_license_types() + spec_nc_license_types() + spec_nd_license_types() + spec_oh_license_types() + spec_ok_license_types() + spec_or_license_types() + spec_pa_license_types() + spec_ri_license_types() + spec_sc_license_types() + spec_sd_license_types() + spec_tn_license_types() + spec_ut_license_types() + spec_vt_license_types() + spec_va_license_types() + spec_wa_license_types() + spec_wv_license_types());
    }
    let ghost before = all@;
    let mut part = wi_license_types();
    let ghost added = part@;
    all.append(&mut part);
    proof {
        lemma_license_types_view_append(before, added);
        assert(license_types_view(all@) =~= spec_ny_license_types() + spec_ca_license_types() + spec_de_license_types() + spec_wy_license_types() + spec_tx_license_types() + spec_fl_license_types() + spec_nv_license_types() + spec_il_license_types() + spec_al_license_types() + spec_ak_license_types() + spec_az_license_types() + spec_ar_license_types() + spec_co_license_types() + spec_ct_license_types() + spec_ga_license_types() + spec_hi_license_types() + spec_id_license_types() + spec_in_license_types() + spec_ia_license_types() + spec_ks_license_types() + spec_ky_license_types() + spec_la_license_types() + spec_me_license_types() + spec_md_license_types() + spec_ma_license_types() + spec_mi_license_types() + spec_mn_license_types() + spec_ms_license_types() + spec_mo_license_types() + spec_mt_license_types() + spec_ne_license_types() + spec_nh_license_types() + spec_nj_license_types() + spec_nm_license_types() + spec_nc_license_types() + spec_nd_license_types() + spec_oh_license_types() + spec_ok_license_types() + spec_or_license_types() + spec_pa_license_types() + spec_ri_license_types() + spec_sc_license_types() + spec_sd_license_types() + spec_tn_license_types() + spec_ut_license_types() + spec_vt_license_types() + spec_va_license_types() + spec_wa_license_types() + spec_wv_license_types() + spec_wi_license_types());
    }
    let ghost before = all@;
    let mut part = dc_license_types();
    let ghost added = part@;
    all.append(&mut part);
    proof {
        lemma_license_types_view_append(before, added);
        assert(license_types_view(all@) =~= spec_ny_license_types() + spec_ca_license_types() + spec_de_license_types() + spec_wy_license_types() + spec_tx_license_types() + spec_fl_license_types() + spec_nv_license_types() + spec_il_license_types() + spec_al_license_types() + spec_ak_license_types() + spec_az_license_types() + spec_ar_license_types() + spec_co_license_types() + spec_ct_license_types() + spec_ga_license_types() + spec_hi_license_types() + spec_id_license_types() + spec_in_license_types() + spec_ia_license_types() + spec_ks_license_types() + spec_ky_license_types() + spec_la_license_types() + spec_me_license_types() + spec_md_license_types() + spec_ma_license_types() + spec_mi_license_types() + spec_mn_license_types() + spec_ms_license_types() + spec_mo_license_types() + spec_mt_license_types() + spec_ne_license_types() + spec_nh_license_types() + spec_nj_license_types() + spec_nm_license_types() + spec_nc_license_types() + spec_nd_license_types() + spec_oh_license_types() + spec_ok_license_types() + spec_or_license_types() + spec_pa_license_types() + spec_ri_license_types() + spec_sc_license_types() + spec_sd_license_types() + spec_tn_license_types() + spec_ut_license_types() + spec_vt_license_types() + spec_va_license_types() + spec_wa_license_types() + spec_wv_license_types() + spec_wi_license_types() + spec_dc_license_types());
    }
    let ghost before = all@;
    let mut part = pr_license_types();
    let ghost added = part@;
    all.append(&mut part);
    proof {
        lemma_license_types_view_append(before, added);
        assert(license_types_view(all@) =~= spec_ny_license_types() + spec_ca_license_types() + spec_de_license_types() + spec_wy_license_types() + spec_tx_license_types() + spec_fl_license_types() + spec_nv_license_types() + spec_il_license_types() + spec_al_license_types() + spec_ak_license_types() + spec_az_license_types() + spec_ar_license_types() + spec_co_license_types() + spec_ct_license_types() + spec_ga_license_types() + spec_hi_license_types() + spec_id_license_types() + spec_in_license_types() + spec_ia_license_types() + spec_ks_license_types() + spec_ky_license_types() + spec_la_license_types() + spec_me_license_types() + spec_md_license_types() + spec_ma_license_types() + spec_mi_license_types() + spec_mn_license_types() + spec_ms_license_types() + spec_mo_license_types() + spec_mt_license_types() + spec_ne_license_types() + spec_nh_license_types() + spec_nj_license_types() + spec_nm_license_types() + spec_nc_license_types() + spec_nd_license_types() + spec_oh_license_types() + spec_ok_license_types() + spec_or_license_types() + spec_pa_license_types() + spec_ri_license_types() + spec_sc_license_types() + spec_sd_license_types() + spec_tn_license_types() + spec_ut_license_types() + spec_vt_license_types() + spec_va_license_types() + spec_wa_license_types() + spec_wv_license_types() + spec_wi_license_types() + spec_dc_license_types() + spec_pr_license_types());
    }
    let ghost before = all@;
    let mut part = gu_license_types();
    let ghost added = part@;
    all.append(&mut part);
    proof {
        lemma_license_types_view_append(before, added);
        assert(license_types_view(all@) =~= spec_ny_license_types() + spec_ca_license_types() + spec_de_license_types() + spec_wy_license_types() + spec_tx_license_types() + spec_fl_license_types() + spec_nv_license_types() + spec_il_license_types() + spec_al_license_types() + spec_ak_license_types() + spec_az_license_types() + spec_ar_license_types() + spec_co_license_types() + spec_ct_license_types() + spec_ga_license_types() + spec_hi_license_types() + spec_id_license_types() + spec_in_license_types() + spec_ia_license_types() + spec_ks_license_types() + spec_ky_license_types() + spec_la_license_types() + spec_me_license_types() + spec_md_license_types() + spec_ma_license_types() + spec_mi_license_types() + spec_mn_license_types() + spec_ms_license_types() + spec_mo_license_types() + spec_mt_license_types() + spec_ne_license_types() + spec_nh_license_types() + spec_nj_license_types() + spec_nm_license_types() + spec_nc_license_types() + spec_nd_license_types() + spec_oh_license_types() + spec_ok_license_types() + spec_or_license_types() + spec_pa_license_types() + spec_ri_license_types() + spec_sc_license_types() + spec_sd_license_types() + spec_tn_license_types() + spec_ut_license_types() + spec_vt_license_types() + spec_va_license_types() + spec_wa_license_types() + spec_wv_license_types() + spec_wi_license_types() + spec_dc_license_types() + spec_pr_license_types() + spec_gu_license_types());
    }
    let ghost before = all@;
    let mut part = vi_license_types();
    let ghost added = part@;
    all.append(&mut part);
    proof {
        lemma_license_types_view_append(before, added);
        assert(license_types_view(all@) =~= spec_ny_license_types() + spec_ca_license_types() + spec_de_license_types() + spec_wy_license_types() + spec_tx_license_types() + spec_fl_license_types() + spec_nv_license_types() + spec_il_license_types() + spec_al_license_types() + spec_ak_license_types() + spec_az_license_types() + spec_ar_license_types() + spec_co_license_types() + spec_ct_license_types() + spec_ga_license_types() + spec_hi_license_types() + spec_id_license_types() + spec_in_license_types() + spec_ia_license_types() + spec_ks_license_types() + spec_ky_license_types() + spec_la_license_types() + spec_me_license_types() + spec_md_license_types() + spec_ma_license_types() + spec_mi_license_types() + spec_mn_license_types() + spec_ms_license_types() + spec_mo_license_types() + spec_mt_license_types() + spec_ne_license_types() + spec_nh_license_types() + spec_nj_license_types() + spec_nm_license_types() + spec_nc_license_types() + spec_nd_license_types() + spec_oh_license_types() + spec_ok_license_types() + spec_or_license_types() + spec_pa_license_types() + spec_ri_license_types() + spec_sc_license_types() + spec_sd_license_types() + spec_tn_license_types() + spec_ut_license_types() + spec_vt_license_types() + spec_va_license_types() + spec_wa_license_types() + spec_wv_license_types() + spec_wi_license_types() + spec_dc_license_types() + spec_pr_license_types() + spec_gu_license_types() + spec_vi_license_types());
    }
    let ghost before = all@;
    let mut part = as_license_types();
    let ghost added = part@;
    all.append(&mut part);
    proof {
        lemma_license_types_view_append(before, added);
        assert(license_types_view(all@) =~= spec_ny_license_types() + spec_ca_license_types() + spec_de_license_types() + spec_wy_license_types() + spec_tx_license_types() + spec_fl_license_types() + spec_nv_license_types() + spec_il_license_types() + spec_al_license_types() + spec_ak_license_types() + spec_az_license_types() + spec_ar_license_types() + spec_co_license_types() + spec_ct_license_types() + spec_ga_license_types() + spec_hi_license_types() + spec_id_license_types() + spec_in_license_types() + spec_ia_license_types() + spec_ks_license_types() + spec_ky_license_types() + spec_la_license_types() + spec_me_license_types() + spec_md_license_types() + spec_ma_license_types() + spec_mi_license_types() + spec_mn_license_types() + spec_ms_license_types() + spec_mo_license_types() + spec_mt_license_types() + spec_ne_license_types() + spec_nh_license_types() + spec_nj_license_types() + spec_nm_license_types() + spec_nc_license_types() + spec_nd_license_types() + spec_oh_license_types() + spec_ok_license_types() + spec_or_license_types() + spec_pa_license_types() + spec_ri_license_types() + spec_sc_license_types() + spec_sd_license_types() + spec_tn_license_types() + spec_ut_license_types() + spec_vt_license_types() + spec_va_license_types() + spec_wa_license_types() + spec_wv_license_types() + spec_wi_license_types() + spec_dc_license_types() + spec_pr_license_types() + spec_gu_license_types() + spec_vi_license_types() + spec_as_license_types());
    }
    let ghost before = all@;
    let mut part = mp_license_types();
    let ghost added = part@;
    all.append(&mut part);
    proof {
        lemma_license_types_view_append(before, added);
        assert(license_types_view(all@) =~= spec_ny_license_types() + spec_ca_license_types() + spec_de_license_types() + spec_wy_license_types() + spec_tx_license_types() + spec_fl_license_types() + spec_nv_license_types() + spec_il_license_types() + spec_al_license_types() + spec_ak_license_types() + spec_az_license_types() + spec_ar_license_types() + spec_co_license_types() + spec_ct_license_types() + spec_ga_license_types() + spec_hi_license_types() + spec_id_license_types() + spec_in_license_types() + spec_ia_license_types() + spec_ks_license_types() + spec_ky_license_types() + spec_la_license_types() + spec_me_license_types() + spec_md_license_types() + spec_ma_license_types() + spec_mi_license_types() + spec_mn_license_types() + spec_ms_license_types() + spec_mo_license_types() + spec_mt_license_types() + spec_ne_license_types() + spec_nh_license_types() + spec_nj_license_types() + spec_nm_license_types() + spec_nc_license_types() + spec_nd_license_types() + spec_oh_license_types() + spec_ok_license_types() + spec_or_license_types() + spec_pa_license_types() + spec_ri_license_types() + spec_sc_license_types() + spec_sd_license_types() + spec_tn_license_types() + spec_ut_license_types() + spec_vt_license_types() + spec_va_license_types() + spec_wa_license_types() + spec_wv_license_types() + spec_wi_license_types() + spec_dc_license_types() + spec_pr_license_types() + spec_gu_license_types() + spec_vi_license_types() + spec_as_license_types() + spec_mp_license_types());
    }
    all
}

/// A state's standard licence types are complete and granted by its
/// standard regulators, each of which grants at least one of them; those
/// regulators all belong to the state's jurisdiction.
proof fn lemma_state_group(
    st: Seq<char>,
    jid: Seq<char>,
    sos_name: Seq<char>,
    bank_name: Seq<char>,
    ins_name: Seq<char>,
    sec_name: Seq<char>,
    sos_url: Seq<char>,
    bank_url: Seq<char>,
)
    ensures
        license_types_complete(spec_state_license_types(st, jid)),
        granted_by_listed_regulators(
            spec_state_license_types(st, jid),
            spec_state_regulators(jid, sos_name, bank_name, ins_name, sec_name, sos_url, bank_url),
        ),
        every_regulator_grants(
            spec_state_license_types(st, jid),
            spec_state_regulators(jid, sos_name, bank_name, ins_name, sec_name, sos_url, bank_url),
        ),
        regulators_in_jurisdiction(
            spec_state_regulators(jid, sos_name, bank_name, ins_name, sec_name, sos_url, bank_url),
            jid,
        ),
{
    let t = spec_state_license_types(st, jid);
    let r = spec_state_regulators(jid, sos_name, bank_name, ins_name, sec_name, sos_url, bank_url);
    assert(complete_each(t)) by {
        reveal_strlit("-sos:corp-registration");
        reveal_strlit("-sos:llc-registration");
        reveal_strlit("-bank:money-transmitter");
        reveal_strlit("-ins:insurance-producer");
        reveal_strlit("-sec:broker-dealer");
        reveal_strlit("-sec:investment-adviser");
        reveal_strlit("Corporation Registration");
        reveal_strlit("LLC Registration");
        reveal_strlit("Money Transmitter License");
        reveal_strlit("Insurance Producer License");
        reveal_strlit("Broker-Dealer Registration");
        reveal_strlit("Investment Adviser Registration");
        reveal_strlit("Registration of a corporation in ");
        reveal_strlit("Registration of a limited liability company in ");
        reveal_strlit("License to transmit money in ");
        reveal_strlit("License to sell insurance in ");
        reveal_strlit("Registration as a broker-dealer in ");
        reveal_strlit("Registration as an investment adviser in ");
        reveal_strlit("-sos");
        reveal_strlit("-bank");
        reveal_strlit("-ins");
        reveal_strlit("-sec");
        reveal_with_fuel(complete_each, 7);
    }
    lemma_complete_each(t);
    assert(lists_regulator(r, t[0].regulator_id)) by {
        assert(r[0].regulator_id == t[0].regulator_id);
    }
    assert(lists_regulator(r, t[1].regulator_id)) by {
        assert(r[0].regulator_id == t[1].regulator_id);
    }
    assert(lists_regulator(r, t[2].regulator_id)) by {
        assert(r[1].regulator_id == t[2].regulator_id);
    }
    assert(lists_regulator(r, t[3].regulator_id)) by {
        assert(r[2].regulator_id == t[3].regulator_id);
    }
    assert(lists_regulator(r, t[4].regulator_id)) by {
        assert(r[3].regulator_id == t[4].regulator_id);
    }
    assert(lists_regulator(r, t[5].regulator_id)) by {
        assert(r[3].regulator_id == t[5].regulator_id);
    }
    assert(granted_listed_each(t, r)) by {
        reveal_with_fuel(granted_listed_each, 7);
    }
    lemma_granted_listed_each(t, r);
    assert(grants_some(t, r[0].regulator_id)) by {
        assert(t[0].regulator_id == r[0].regulator_id);
    }
    assert(grants_some(t, r[1].regulator_id)) by {
        assert(t[2].regulator_id == r[1].regulator_id);
    }
    assert(grants_some(t, r[2].regulator_id)) by {
        assert(t[3].regulator_id == r[2].regulator_id);
    }
    assert(grants_some(t, r[3].regulator_id)) by {
        assert(t[4].regulator_id == r[3].regulator_id);
    }
    assert(grants_each(t, r)) by {
        reveal_with_fuel(grants_each, 5);
    }
    lemma_grants_each(t, r);
    assert(in_jurisdiction_each(r, jid)) by {
        reveal_with_fuel(in_jurisdiction_each, 5);
    }
    lemma_in_jurisdiction_each(r, jid);
}

/// The licence types of `ny_license_types` are complete, granted by its regulators, and
/// each of its regulators grants at least one of them.
proof fn lemma_ny_group()
    ensures
        license_types_complete(spec_ny_license_types()),
        granted_by_listed_regulators(spec_ny_license_types(), spec_ny_regulators()),
        every_regulator_grants(spec_ny_license_types(), spec_ny_regulators()),
        regulators_in_country(spec_ny_regulators(), "us"@),
{
    assert(complete_each(spec_ny_license_types())) by {
        reveal_strlit("us-ny-dos:corp-registration");
        reveal_strlit("Corporation Registration");
        reveal_strlit("Registration of a corporation under NY Business Corporation Law");
        reveal_strlit("us-ny-dos");
        reveal_strlit("us-ny-dos:llc-registration");
        reveal_strlit("LLC Registration");
        reveal_strlit("Registration of an LLC under NY LLC Law");
        reveal_strlit("us-ny-dfs:money-transmitter");
        reveal_strlit("Money Transmitter License");
        reveal_strlit("License to engage in money transmission under NY Banking Law Article 13-B");
        reveal_strlit("us-ny-dfs");
        reveal_strlit("us-ny-dfs:bitlicense");
        reveal_strlit("BitLicense");
        reveal_strlit("License for virtual currency business activity under 23 NYCRR Part 200");
        reveal_strlit("us-ny-dfs:banking-charter");
        reveal_strlit("Banking Charter");
        reveal_strlit("Charter to operate a state-chartered bank in New York");
        reveal_strlit("us-ny-dfs:lending-license");
        reveal_strlit("Licensed Lender");
        reveal_strlit("License to make loans under NY Banking Law Article 9");
        reveal_strlit("us-ny-dfs-ins:insurance-producer");
        reveal_strlit("Insurance Producer License");
        reveal_strlit("License to sell insurance in New York");
        reveal_strlit("us-ny-dfs-ins");
        reveal_strlit("us-ny-ag-sec:broker-dealer");
        reveal_strlit("Broker-Dealer Registration");
        reveal_strlit("State registration for securities broker-dealers");
        reveal_strlit("us-ny-ag-sec");
        reveal_strlit("us-ny-ag-sec:investment-adviser");
        reveal_strlit("Investment Adviser Registration");
        reveal_strlit("State registration for investment advisers");
        reveal_with_fuel(complete_each, 10);
    }
    lemma_complete_each(spec_ny_license_types());
    assert(lists_regulator(spec_ny_regulators(), spec_ny_license_types()[0].regulator_id)) by {
        assert(spec_ny_regulators()[0].regulator_id == spec_ny_license_types()[0].regulator_id);
    }
    assert(lists_regulator(spec_ny_regulators(), spec_ny_license_types()[1].regulator_id)) by {
        assert(spec_ny_regulators()[0].regulator_id == spec_ny_license_types()[1].regulator_id);
    }
    assert(lists_regulator(spec_ny_regulators(), spec_ny_license_types()[2].regulator_id)) by {
        assert(spec_ny_regulators()[1].regulator_id == spec_ny_license_types()[2].regulator_id);
    }
    assert(lists_regulator(spec_ny_regulators(), spec_ny_license_types()[3].regulator_id)) by {
        assert(spec_ny_regulators()[1].regulator_id == spec_ny_license_types()[3].regulator_id);
    }
    assert(lists_regulator(spec_ny_regulators(), spec_ny_license_types()[4].regulator_id)) by {
        assert(spec_ny_regulators()[1].regulator_id == spec_ny_license_types()[4].regulator_id);
    }
    assert(lists_regulator(spec_ny_regulators(), spec_ny_license_types()[5].regulator_id)) by {
        assert(spec_ny_regulators()[1].regulator_id == spec_ny_license_types()[5].regulator_id);
    }
    assert(lists_regulator(spec_ny_regulators(), spec_ny_license_types()[6].regulator_id)) by {
        assert(spec_ny_regulators()[2].regulator_id == spec_ny_license_types()[6].regulator_id);
    }
    assert(lists_regulator(spec_ny_regulators(), spec_ny_license_types()[7].regulator_id)) by {
        assert(spec_ny_regulators()[3].regulator_id == spec_ny_license_types()[7].regulator_id);
    }
    assert(lists_regulator(spec_ny_regulators(), spec_ny_license_types()[8].regulator_id)) by {
        assert(spec_ny_regulators()[3].regulator_id == spec_ny_license_types()[8].regulator_id);
    }
    assert(granted_listed_each(spec_ny_license_types(), spec_ny_regulators())) by {
        reveal_with_fuel(granted_listed_each, 10);
    }
    lemma_granted_listed_each(spec_ny_license_types(), spec_ny_regulators());
    assert(grants_some(spec_ny_license_types(), spec_ny_regulators()[0].regulator_id)) by {
        assert(spec_ny_license_types()[0].regulator_id == spec_ny_regulators()[0].regulator_id);
    }
    assert(grants_some(spec_ny_license_types(), spec_ny_regulators()[1].regulator_id)) by {
        assert(spec_ny_license_types()[2].regulator_id == spec_ny_regulators()[1].regulator_id);
    }
    assert(grants_some(spec_ny_license_types(), spec_ny_regulators()[2].regulator_id)) by {
        assert(spec_ny_license_types()[6].regulator_id == spec_ny_regulators()[2].regulator_id);
    }
    assert(grants_some(spec_ny_license_types(), spec_ny_regulators()[3].regulator_id)) by {
        assert(spec_ny_license_types()[7].regulator_id == spec_ny_regulators()[3].regulator_id);
    }
    assert(grants_each(spec_ny_license_types(), spec_ny_regulators())) by {
        reveal_with_fuel(grants_each, 5);
    }
    lemma_grants_each(spec_ny_license_types(), spec_ny_regulators());
    assert(has_prefix("us-ny"@, "us"@)) by {
        reveal_strlit("us-ny");
        reveal_strlit("us");
        assert("us-ny"@.subrange(0, 2) =~= "us"@);
    }
    assert(in_country_each(spec_ny_regulators(), "us"@)) by {
        reveal_with_fuel(in_country_each, 5);
    }
    lemma_in_country_each(spec_ny_regulators(), "us"@);
}

/// The licence types of `ca_license_types` are complete, granted by its regulators, and
/// each of its regulators grants at least one of them.
proof fn lemma_ca_group()
    ensures
        license_types_complete(spec_ca_license_types()),
        granted_by_listed_regulators(spec_ca_license_types(), spec_ca_regulators()),
        every_regulator_grants(spec_ca_license_types(), spec_ca_regulators()),
        regulators_in_country(spec_ca_regulators(), "us"@),
{
    assert(complete_each(spec_ca_license_types())) by {
        reveal_strlit("us-ca-sos:corp-registration");
        reveal_strlit("Corporation Registration");
        reveal_strlit("Registration of a corporation under California Corporations Code");
        reveal_strlit("us-ca-sos");
        reveal_strlit("us-ca-sos:llc-registration");
        reveal_strlit("LLC Registration");
        reveal_strlit("Registration of an LLC under California Revised Uniform LLC Act");
        reveal_strlit("us-ca-dfpi:money-transmitter");
        reveal_strlit("Money Transmitter License");
        reveal_strlit("License under California Money Transmission Act");
        reveal_strlit("us-ca-dfpi");
        reveal_strlit("us-ca-dfpi:casl");
        reveal_strlit("California Digital Financial Assets License");
        reveal_strlit("License under California Digital Financial Assets Law (DFAL)");
        reveal_strlit("us-ca-dfpi:lending-license");
        reveal_strlit("California Finance Lender License");
        reveal_strlit("License under California Financing Law");
        reveal_strlit("us-ca-cdi:insurance-producer");
        reveal_strlit("Insurance Producer License");
        reveal_strlit("License to sell insurance in California");
        reveal_strlit("us-ca-cdi");
        reveal_strlit("us-ca-dbo-sec:broker-dealer");
        reveal_strlit("Broker-Dealer Registration");
        reveal_strlit("State registration for securities broker-dealers");
        reveal_strlit("us-ca-dbo-sec");
        reveal_strlit("us-ca-dbo-sec:investment-adviser");
        reveal_strlit("Investment Adviser Registration");
        reveal_strlit("State registration for investment advisers");
        reveal_with_fuel(complete_each, 9);
    }
    lemma_complete_each(spec_ca_license_types());
    assert(lists_regulator(spec_ca_regulators(), spec_ca_license_types()[0].regulator_id)) by {
        assert(spec_ca_regulators()[0].regulator_id == spec_ca_license_types()[0].regulator_id);
    }
    assert(lists_regulator(spec_ca_regulators(), spec_ca_license_types()[1].regulator_id)) by {
        assert(spec_ca_regulators()[0].regulator_id == spec_ca_license_types()[1].regulator_id);
    }
    assert(lists_regulator(spec_ca_regulators(), spec_ca_license_types()[2].regulator_id)) by {
        assert(spec_ca_regulators()[1].regulator_id == spec_ca_license_types()[2].regulator_id);
    }
    assert(lists_regulator(spec_ca_regulators(), spec_ca_license_types()[3].regulator_id)) by {
        assert(spec_ca_regulators()[1].regulator_id == spec_ca_license_types()[3].regulator_id);
    }
    assert(lists_regulator(spec_ca_regulators(), spec_ca_license_types()[4].regulator_id)) by {
        assert(spec_ca_regulators()[1].regulator_id == spec_ca_license_types()[4].regulator_id);
    }
    assert(lists_regulator(spec_ca_regulators(), spec_ca_license_types()[5].regulator_id)) by {
        assert(spec_ca_regulators()[2].regulator_id == spec_ca_license_types()[5].regulator_id);
    }
    assert(lists_regulator(spec_ca_regulators(), spec_ca_license_types()[6].regulator_id)) by {
        assert(spec_ca_regulators()[3].regulator_id == spec_ca_license_types()[6].regulator_id);
    }
    assert(lists_regulator(spec_ca_regulators(), spec_ca_license_types()[7].regulator_id)) by {
        assert(spec_ca_regulators()[3].regulator_id == spec_ca_license_types()[7].regulator_id);
    }
    assert(granted_listed_each(spec_ca_license_types(), spec_ca_regulators())) by {
        reveal_with_fuel(granted_listed_each, 9);
    }
    lemma_granted_listed_each(spec_ca_license_types(), spec_ca_regulators());
    assert(grants_some(spec_ca_license_types(), spec_ca_regulators()[0].regulator_id)) by {
        assert(spec_ca_license_types()[0].regulator_id == spec_ca_regulators()[0].regulator_id);
    }
    assert(grants_some(spec_ca_license_types(), spec_ca_regulators()[1].regulator_id)) by {
        assert(spec_ca_license_types()[2].regulator_id == spec_ca_regulators()[1].regulator_id);
    }
    assert(grants_some(spec_ca_license_types(), spec_ca_regulators()[2].regulator_id)) by {
        assert(spec_ca_license_types()[5].regulator_id == spec_ca_regulators()[2].regulator_id);
    }
    assert(grants_some(spec_ca_license_types(), spec_ca_regulators()[3].regulator_id)) by {
        assert(spec_ca_license_types()[6].regulator_id == spec_ca_regulators()[3].regulator_id);
    }
    assert(grants_each(spec_ca_license_types(), spec_ca_regulators())) by {
        reveal_with_fuel(grants_each, 5);
    }
    lemma_grants_each(spec_ca_license_types(), spec_ca_regulators());
    assert(has_prefix("us-ca"@, "us"@)) by {
        reveal_strlit("us-ca");
        reveal_strlit("us");
        assert("us-ca"@.subrange(0, 2) =~= "us"@);
    }
    assert(in_country_each(spec_ca_regulators(), "us"@)) by {
        reveal_with_fuel(in_country_each, 5);
    }
    lemma_in_country_each(spec_ca_regulators(), "us"@);
}

/// The licence types of `de_license_types` are complete, granted by its regulators, and
/// each of its regulators grants at least one of them.
proof fn lemma_de_group()
    ensures
        license_types_complete(spec_de_license_types()),
        granted_by_listed_regulators(spec_de_license_types(), spec_de_regulators()),
        every_regulator_grants(spec_de_license_types(), spec_de_regulators()),
        regulators_in_country(spec_de_regulators(), "us"@),
{
    assert(complete_each(spec_de_license_types())) by {
        reveal_strlit("us-de-dos:corp-registration");
        reveal_strlit("Corporation Registration");
        reveal_strlit("Registration under Delaware General Corporation Law (Title 8)");
        reveal_strlit("us-de-dos");
        reveal_strlit("us-de-dos:llc-registration");
        reveal_strlit("LLC Registration");
        reveal_strlit("Registration under Delaware LLC Act (Title 6, Ch. 18)");
        reveal_strlit("us-de-dos:lp-registration");
        reveal_strlit("Limited Partnership Registration");
        reveal_strlit("Registration under Delaware Revised Uniform LP Act");
        reveal_strlit("us-de-osbc:money-transmitter");
        reveal_strlit("Money Transmitter License");
        reveal_strlit("License under Delaware Money Transmitters Act (Title 5, Ch. 23)");
        reveal_strlit("us-de-osbc");
        reveal_strlit("us-de-osbc:banking-charter");
        reveal_strlit("Banking Charter");
        reveal_strlit("State bank charter under Delaware banking laws");
        reveal_strlit("us-de-doi:insurance-producer");
        reveal_strlit("Insurance Producer License");
        reveal_strlit("License to sell insurance in Delaware");
        reveal_strlit("us-de-doi");
        reveal_strlit("us-de-sec:broker-dealer");
        reveal_strlit("Broker-Dealer Registration");
        reveal_strlit("State registration for securities broker-dealers");
        reveal_strlit("us-de-sec");
        reveal_with_fuel(complete_each, 8);
    }
    lemma_complete_each(spec_de_license_types());
    assert(lists_regulator(spec_de_regulators(), spec_de_license_types()[0].regulator_id)) by {
        assert(spec_de_regulators()[0].regulator_id == spec_de_license_types()[0].regulator_id);
    }
    assert(lists_regulator(spec_de_regulators(), spec_de_license_types()[1].regulator_id)) by {
        assert(spec_de_regulators()[0].regulator_id == spec_de_license_types()[1].regulator_id);
    }
    assert(lists_regulator(spec_de_regulators(), spec_de_license_types()[2].regulator_id)) by {
        assert(spec_de_regulators()[0].regulator_id == spec_de_license_types()[2].regulator_id);
    }
    assert(lists_regulator(spec_de_regulators(), spec_de_license_types()[3].regulator_id)) by {
        assert(spec_de_regulators()[1].regulator_id == spec_de_license_types()[3].regulator_id);
    }
    assert(lists_regulator(spec_de_regulators(), spec_de_license_types()[4].regulator_id)) by {
        assert(spec_de_regulators()[1].regulator_id == spec_de_license_types()[4].regulator_id);
    }
    assert(lists_regulator(spec_de_regulators(), spec_de_license_types()[5].regulator_id)) by {
        assert(spec_de_regulators()[2].regulator_id == spec_de_license_types()[5].regulator_id);
    }
    assert(lists_regulator(spec_de_regulators(), spec_de_license_types()[6].regulator_id)) by {
        assert(spec_de_regulators()[3].regulator_id == spec_de_license_types()[6].regulator_id);
    }
    assert(granted_listed_each(spec_de_license_types(), spec_de_regulators())) by {
        reveal_with_fuel(granted_listed_each, 8);
    }
    lemma_granted_listed_each(spec_de_license_types(), spec_de_regulators());
    assert(grants_some(spec_de_license_types(), spec_de_regulators()[0].regulator_id)) by {
        assert(spec_de_license_types()[0].regulator_id == spec_de_regulators()[0].regulator_id);
    }
    assert(grants_some(spec_de_license_types(), spec_de_regulators()[1].regulator_id)) by {
        assert(spec_de_license_types()[3].regulator_id == spec_de_regulators()[1].regulator_id);
    }
    assert(grants_some(spec_de_license_types(), spec_de_regulators()[2].regulator_id)) by {
        assert(spec_de_license_types()[5].regulator_id == spec_de_regulators()[2].regulator_id);
    }
    assert(grants_some(spec_de_license_types(), spec_de_regulators()[3].regulator_id)) by {
        assert(spec_de_license_types()[6].regulator_id == spec_de_regulators()[3].regulator_id);
    }
    assert(grants_each(spec_de_license_types(), spec_de_regulators())) by {
        reveal_with_fuel(grants_each, 5);
    }
    lemma_grants_each(spec_de_license_types(), spec_de_regulators());
    assert(has_prefix("us-de"@, "us"@)) by {
        reveal_strlit("us-de");
        reveal_strlit("us");
        assert("us-de"@.subrange(0, 2) =~= "us"@);
    }
    assert(in_country_each(spec_de_regulators(), "us"@)) by {
        reveal_with_fuel(in_country_each, 5);
    }
    lemma_in_country_each(spec_de_regulators(), "us"@);
}

/// The licence types of `wy_license_types` are complete, granted by its regulators, and
/// each of its regulators grants at least one of them.
proof fn lemma_wy_group()
    ensures
        license_types_complete(spec_wy_license_types()),
        granted_by_listed_regulators(spec_wy_license_types(), spec_wy_regulators()),
        every_regulator_grants(spec_wy_license_types(), spec_wy_regulators()),
        regulators_in_country(spec_wy_regulators(), "us"@),
{
    assert(complete_each(spec_wy_license_types())) by {
        reveal_strlit("us-wy-sos:corp-registration");
        reveal_strlit("Corporation Registration");
        reveal_strlit("Registration under Wyoming Business Corporation Act");
        reveal_strlit("us-wy-sos");
        reveal_strlit("us-wy-sos:llc-registration");
        reveal_strlit("LLC Registration");
        reveal_strlit("Registration under Wyoming LLC Act");
        reveal_strlit("us-wy-sos:dao-llc");
        reveal_strlit("DAO LLC Registration");
        reveal_strlit("Registration of a Decentralized Autonomous Organization under WY SF0038");
        reveal_strlit("us-wy-dob:spdi-charter");
        reveal_strlit("Special Purpose Depository Institution Charter");
        reveal_strlit("SPDI charter for digital asset custody under WY HB0074");
        reveal_strlit("us-wy-dob");
        reveal_strlit("us-wy-dob:money-transmitter");
        reveal_strlit("Money Transmitter License");
        reveal_strlit("License under Wyoming Money Transmitter Act");
        reveal_strlit("us-wy-doi:insurance-producer");
        reveal_strlit("Insurance Producer License");
        reveal_strlit("License to sell insurance in Wyoming");
        reveal_strlit("us-wy-doi");
        reveal_strlit("us-wy-sec:broker-dealer");
        reveal_strlit("Broker-Dealer Registration");
        reveal_strlit("State registration for securities broker-dealers");
        reveal_strlit("us-wy-sec");
        reveal_with_fuel(complete_each, 8);
    }
    lemma_complete_each(spec_wy_license_types());
    assert(lists_regulator(spec_wy_regulators(), spec_wy_license_types()[0].regulator_id)) by {
        assert(spec_wy_regulators()[0].regulator_id == spec_wy_license_types()[0].regulator_id);
    }
    assert(lists_regulator(spec_wy_regulators(), spec_wy_license_types()[1].regulator_id)) by {
        assert(spec_wy_regulators()[0].regulator_id == spec_wy_license_types()[1].regulator_id);
    }
    assert(lists_regulator(spec_wy_regulators(), spec_wy_license_types()[2].regulator_id)) by {
        assert(spec_wy_regulators()[0].regulator_id == spec_wy_license_types()[2].regulator_id);
    }
    assert(lists_regulator(spec_wy_regulators(), spec_wy_license_types()[3].regulator_id)) by {
        assert(spec_wy_regulators()[1].regulator_id == spec_wy_license_types()[3].regulator_id);
    }
    assert(lists_regulator(spec_wy_regulators(), spec_wy_license_types()[4].regulator_id)) by {
        assert(spec_wy_regulators()[1].regulator_id == spec_wy_license_types()[4].regulator_id);
    }
    assert(lists_regulator(spec_wy_regulators(), spec_wy_license_types()[5].regulator_id)) by {
        assert(spec_wy_regulators()[2].regulator_id == spec_wy_license_types()[5].regulator_id);
    }
    assert(lists_regulator(spec_wy_regulators(), spec_wy_license_types()[6].regulator_id)) by {
        assert(spec_wy_regulators()[3].regulator_id == spec_wy_license_types()[6].regulator_id);
    }
    assert(granted_listed_each(spec_wy_license_types(), spec_wy_regulators())) by {
        reveal_with_fuel(granted_listed_each, 8);
    }
    lemma_granted_listed_each(spec_wy_license_types(), spec_wy_regulators());
    assert(grants_some(spec_wy_license_types(), spec_wy_regulators()[0].regulator_id)) by {
        assert(spec_wy_license_types()[0].regulator_id == spec_wy_regulators()[0].regulator_id);
    }
    assert(grants_some(spec_wy_license_types(), spec_wy_regulators()[1].regulator_id)) by {
        assert(spec_wy_license_types()[3].regulator_id == spec_wy_regulators()[1].regulator_id);
    }
    assert(grants_some(spec_wy_license_types(), spec_wy_regulators()[2].regulator_id)) by {
        assert(spec_wy_license_types()[5].regulator_id == spec_wy_regulators()[2].regulator_id);
    }
    assert(grants_some(spec_wy_license_types(), spec_wy_regulators()[3].regulator_id)) by {
        assert(spec_wy_license_types()[6].regulator_id == spec_wy_regulators()[3].regulator_id);
    }
    assert(grants_each(spec_wy_license_types(), spec_wy_regulators())) by {
        reveal_with_fuel(grants_each, 5);
    }
    lemma_grants_each(spec_wy_license_types(), spec_wy_regulators());
    assert(has_prefix("us-wy"@, "us"@)) by {
        reveal_strlit("us-wy");
        reveal_strlit("us");
        assert("us-wy"@.subrange(0, 2) =~= "us"@);
    }
    assert(in_country_each(spec_wy_regulators(), "us"@)) by {
        reveal_with_fuel(in_country_each, 5);
    }
    lemma_in_country_each(spec_wy_regulators(), "us"@);
}

/// The licence types of `tx_license_types` are complete, granted by its regulators, and
/// each of its regulators grants at least one of them.
proof fn lemma_tx_group()
    ensures
        license_types_complete(spec_tx_license_types()),
        granted_by_listed_regulators(spec_tx_license_types(), spec_tx_regulators()),
        every_regulator_grants(spec_tx_license_types(), spec_tx_regulators()),
        regulators_in_country(spec_tx_regulators(), "us"@),
{
    assert(complete_each(spec_tx_license_types())) by {
        reveal_strlit("us-tx-sos:corp-registration");
        reveal_strlit("Corporation Registration");
        reveal_strlit("Registration under Texas Business Organizations Code");
        reveal_strlit("us-tx-sos");
        reveal_strlit("us-tx-sos:llc-registration");
        reveal_strlit("LLC Registration");
        reveal_strlit("us-tx-dob:money-transmitter");
        reveal_strlit("Money Transmitter License");
        reveal_strlit("License under Texas Finance Code Chapter 151");
        reveal_strlit("us-tx-dob");
        reveal_strlit("us-tx-tdi:insurance-producer");
        reveal_strlit("Insurance Producer License");
        reveal_strlit("License to sell insurance in Texas");
        reveal_strlit("us-tx-tdi");
        reveal_strlit("us-tx-tssb:broker-dealer");
        reveal_strlit("Broker-Dealer Registration");
        reveal_strlit("State registration for securities broker-dealers");
        reveal_strlit("us-tx-tssb");
        reveal_strlit("us-tx-tssb:investment-adviser");
        reveal_strlit("Investment Adviser Registration");
        reveal_strlit("State registration for investment advisers");
        reveal_with_fuel(complete_each, 7);
    }
    lemma_complete_each(spec_tx_license_types());
    assert(lists_regulator(spec_tx_regulators(), spec_tx_license_types()[0].regulator_id)) by {
        assert(spec_tx_regulators()[0].regulator_id == spec_tx_license_types()[0].regulator_id);
    }
    assert(lists_regulator(spec_tx_regulators(), spec_tx_license_types()[1].regulator_id)) by {
        assert(spec_tx_regulators()[0].regulator_id == spec_tx_license_types()[1].regulator_id);
    }
    assert(lists_regulator(spec_tx_regulators(), spec_tx_license_types()[2].regulator_id)) by {
        assert(spec_tx_regulators()[1].regulator_id == spec_tx_license_types()[2].regulator_id);
    }
    assert(lists_regulator(spec_tx_regulators(), spec_tx_license_types()[3].regulator_id)) by {
        assert(spec_tx_regulators()[2].regulator_id == spec_tx_license_types()[3].regulator_id);
    }
    assert(lists_regulator(spec_tx_regulators(), spec_tx_license_types()[4].regulator_id)) by {
        assert(spec_tx_regulators()[3].regulator_id == spec_tx_license_types()[4].regulator_id);
    }
    assert(lists_regulator(spec_tx_regulators(), spec_tx_license_types()[5].regulator_id)) by {
        assert(spec_tx_regulators()[3].regulator_id == spec_tx_license_types()[5].regulator_id);
    }
    assert(granted_listed_each(spec_tx_license_types(), spec_tx_regulators())) by {
        reveal_with_fuel(granted_listed_each, 7);
    }
    lemma_granted_listed_each(spec_tx_license_types(), spec_tx_regulators());
    assert(grants_some(spec_tx_license_types(), spec_tx_regulators()[0].regulator_id)) by {
        assert(spec_tx_license_types()[0].regulator_id == spec_tx_regulators()[0].regulator_id);
    }
    assert(grants_some(spec_tx_license_types(), spec_tx_regulators()[1].regulator_id)) by {
        assert(spec_tx_license_types()[2].regulator_id == spec_tx_regulators()[1].regulator_id);
    }
    assert(grants_some(spec_tx_license_types(), spec_tx_regulators()[2].regulator_id)) by {
        assert(spec_tx_license_types()[3].regulator_id == spec_tx_regulators()[2].regulator_id);
    }
    assert(grants_some(spec_tx_license_types(), spec_tx_regulators()[3].regulator_id)) by {
        assert(spec_tx_license_types()[4].regulator_id == spec_tx_regulators()[3].regulator_id);
    }
    assert(grants_each(spec_tx_license_types(), spec_tx_regulators())) by {
        reveal_with_fuel(grants_each, 5);
    }
    lemma_grants_each(spec_tx_license_types(), spec_tx_regulators());
    assert(has_prefix("us-tx"@, "us"@)) by {
        reveal_strlit("us-tx");
        reveal_strlit("us");
        assert("us-tx"@.subrange(0, 2) =~= "us"@);
    }
    assert(in_country_each(spec_tx_regulators(), "us"@)) by {
        reveal_with_fuel(in_country_each, 5);
    }
    lemma_in_country_each(spec_tx_regulators(), "us"@);
}

/// The licence types of `fl_license_types` are complete, granted by its regulators, and
/// each of its regulators grants at least one of them.
proof fn lemma_fl_group()
    ensures
        license_types_complete(spec_fl_license_types()),
        granted_by_listed_regulators(spec_fl_license_types(), spec_fl_regulators()),
        every_regulator_grants(spec_fl_license_types(), spec_fl_regulators()),
        regulators_in_country(spec_fl_regulators(), "us"@),
{
    assert(complete_each(spec_fl_license_types())) by {
        reveal_strlit("us-fl-dos:corp-registration");
        reveal_strlit("Corporation Registration");
        reveal_strlit("Registration under Florida Business Corporation Act");
        reveal_strlit("us-fl-dos");
        reveal_strlit("us-fl-dos:llc-registration");
        reveal_strlit("LLC Registration");
        reveal_strlit("Registration under Florida Revised LLC Act");
        reveal_strlit("us-fl-ofr:money-transmitter");
        reveal_strlit("Money Transmitter License");
        reveal_strlit("License under Florida Money Transmitters Code (Part III, Ch. 560)");
        reveal_strlit("us-fl-ofr");
        reveal_strlit("us-fl-ofr:money-services");
        reveal_strlit("Money Services Business License");
        reveal_strlit("License for money services under Florida statutes");
        reveal_strlit("us-fl-doi:insurance-producer");
        reveal_strlit("Insurance Producer License");
        reveal_strlit("License to sell insurance in Florida");
        reveal_strlit("us-fl-doi");
        reveal_strlit("us-fl-sec:broker-dealer");
        reveal_strlit("Broker-Dealer Registration");
        reveal_strlit("State registration for securities broker-dealers");
        reveal_strlit("us-fl-sec");
        reveal_with_fuel(complete_each, 7);
    }
    lemma_complete_each(spec_fl_license_types());
    assert(lists_regulator(spec_fl_regulators(), spec_fl_license_types()[0].regulator_id)) by {
        assert(spec_fl_regulators()[0].regulator_id == spec_fl_license_types()[0].regulator_id);
    }
    assert(lists_regulator(spec_fl_regulators(), spec_fl_license_types()[1].regulator_id)) by {
        assert(spec_fl_regulators()[0].regulator_id == spec_fl_license_types()[1].regulator_id);
    }
    assert(lists_regulator(spec_fl_regulators(), spec_fl_license_types()[2].regulator_id)) by {
        assert(spec_fl_regulators()[1].regulator_id == spec_fl_license_types()[2].regulator_id);
    }
    assert(lists_regulator(spec_fl_regulators(), spec_fl_license_types()[3].regulator_id)) by {
        assert(spec_fl_regulators()[1].regulator_id == spec_fl_license_types()[3].regulator_id);
    }
    assert(lists_regulator(spec_fl_regulators(), spec_fl_license_types()[4].regulator_id)) by {
        assert(spec_fl_regulators()[2].regulator_id == spec_fl_license_types()[4].regulator_id);
    }
    assert(lists_regulator(spec_fl_regulators(), spec_fl_license_types()[5].regulator_id)) by {
        assert(spec_fl_regulators()[3].regulator_id == spec_fl_license_types()[5].regulator_id);
    }
    assert(granted_listed_each(spec_fl_license_types(), spec_fl_regulators())) by {
        reveal_with_fuel(granted_listed_each, 7);
    }
    lemma_granted_listed_each(spec_fl_license_types(), spec_fl_regulators());
    assert(grants_some(spec_fl_license_types(), spec_fl_regulators()[0].regulator_id)) by {
        assert(spec_fl_license_types()[0].regulator_id == spec_fl_regulators()[0].regulator_id);
    }
    assert(grants_some(spec_fl_license_types(), spec_fl_regulators()[1].regulator_id)) by {
        assert(spec_fl_license_types()[2].regulator_id == spec_fl_regulators()[1].regulator_id);
    }
    assert(grants_some(spec_fl_license_types(), spec_fl_regulators()[2].regulator_id)) by {
        assert(spec_fl_license_types()[4].regulator_id == spec_fl_regulators()[2].regulator_id);
    }
    assert(grants_some(spec_fl_license_types(), spec_fl_regulators()[3].regulator_id)) by {
        assert(spec_fl_license_types()[5].regulator_id == spec_fl_regulators()[3].regulator_id);
    }
    assert(grants_each(spec_fl_license_types(), spec_fl_regulators())) by {
        reveal_with_fuel(grants_each, 5);
    }
    lemma_grants_each(spec_fl_license_types(), spec_fl_regulators());
    assert(has_prefix("us-fl"@, "us"@)) by {
        reveal_strlit("us-fl");
        reveal_strlit("us");
        assert("us-fl"@.subrange(0, 2) =~= "us"@);
    }
    assert(in_country_each(spec_fl_regulators(), "us"@)) by {
        reveal_with_fuel(in_country_each, 5);
    }
    lemma_in_country_each(spec_fl_regulators(), "us"@);
}

/// The licence types of `nv_license_types` are complete, granted by its regulators, and
/// each of its regulators grants at least one of them.
proof fn lemma_nv_group()
    ensures
        license_types_complete(spec_nv_license_types()),
        granted_by_listed_regulators(spec_nv_license_types(), spec_nv_regulators()),
        every_regulator_grants(spec_nv_license_types(), spec_nv_regulators()),
        regulators_in_country(spec_nv_regulators(), "us"@),
{
    assert(complete_each(spec_nv_license_types())) by {
        reveal_strlit("us-nv-sos:corp-registration");
        reveal_strlit("Corporation Registration");
        reveal_strlit("Registration under Nevada Revised Statutes Title 7");
        reveal_strlit("us-nv-sos");
        reveal_strlit("us-nv-sos:llc-registration");
        reveal_strlit("LLC Registration");
        reveal_strlit("Registration under Nevada Revised Statutes Chapter 86");
        reveal_strlit("us-nv-fid:money-transmitter");
        reveal_strlit("Money Transmitter License");
        reveal_strlit("License under Nevada MSB law (NRS 671)");
        reveal_strlit("us-nv-fid");
        reveal_strlit("us-nv-fid:digital-asset-license");
        reveal_strlit("Digital Asset License");
        reveal_strlit("License for digital asset activities in Nevada");
        reveal_strlit("us-nv-doi:insurance-producer");
        reveal_strlit("Insurance Producer License");
        reveal_strlit("License to sell insurance in Nevada");
        reveal_strlit("us-nv-doi");
        reveal_strlit("us-nv-sec:broker-dealer");
        reveal_strlit("Broker-Dealer Registration");
        reveal_strlit("State registration for securities broker-dealers");
        reveal_strlit("us-nv-sec");
        reveal_with_fuel(complete_each, 7);
    }
    lemma_complete_each(spec_nv_license_types());
    assert(lists_regulator(spec_nv_regulators(), spec_nv_license_types()[0].regulator_id)) by {
        assert(spec_nv_regulators()[0].regulator_id == spec_nv_license_types()[0].regulator_id);
    }
    assert(lists_regulator(spec_nv_regulators(), spec_nv_license_types()[1].regulator_id)) by {
        assert(spec_nv_regulators()[0].regulator_id == spec_nv_license_types()[1].regulator_id);
    }
    assert(lists_regulator(spec_nv_regulators(), spec_nv_license_types()[2].regulator_id)) by {
        assert(spec_nv_regulators()[1].regulator_id == spec_nv_license_types()[2].regulator_id);
    }
    assert(lists_regulator(spec_nv_regulators(), spec_nv_license_types()[3].regulator_id)) by {
        assert(spec_nv_regulators()[1].regulator_id == spec_nv_license_types()[3].regulator_id);
    }
    assert(lists_regulator(spec_nv_regulators(), spec_nv_license_types()[4].regulator_id)) by {
        assert(spec_nv_regulators()[2].regulator_id == spec_nv_license_types()[4].regulator_id);
    }
    assert(lists_regulator(spec_nv_regulators(), spec_nv_license_types()[5].regulator_id)) by {
        assert(spec_nv_regulators()[3].regulator_id == spec_nv_license_types()[5].regulator_id);
    }
    assert(granted_listed_each(spec_nv_license_types(), spec_nv_regulators())) by {
        reveal_with_fuel(granted_listed_each, 7);
    }
    lemma_granted_listed_each(spec_nv_license_types(), spec_nv_regulators());
    assert(grants_some(spec_nv_license_types(), spec_nv_regulators()[0].regulator_id)) by {
        assert(spec_nv_license_types()[0].regulator_id == spec_nv_regulators()[0].regulator_id);
    }
    assert(grants_some(spec_nv_license_types(), spec_nv_regulators()[1].regulator_id)) by {
        assert(spec_nv_license_types()[2].regulator_id == spec_nv_regulators()[1].regulator_id);
    }
    assert(grants_some(spec_nv_license_types(), spec_nv_regulators()[2].regulator_id)) by {
        assert(spec_nv_license_types()[4].regulator_id == spec_nv_regulators()[2].regulator_id);
    }
    assert(grants_some(spec_nv_license_types(), spec_nv_regulators()[3].regulator_id)) by {
        assert(spec_nv_license_types()[5].regulator_id == spec_nv_regulators()[3].regulator_id);
    }
    assert(grants_each(spec_nv_license_types(), spec_nv_regulators())) by {
        reveal_with_fuel(grants_each, 5);
    }
    lemma_grants_each(spec_nv_license_types(), spec_nv_regulators());
    assert(has_prefix("us-nv"@, "us"@)) by {
        reveal_strlit("us-nv");
        reveal_strlit("us");
        assert("us-nv"@.subrange(0, 2) =~= "us"@);
    }
    assert(in_country_each(spec_nv_regulators(), "us"@)) by {
        reveal_with_fuel(in_country_each, 5);
    }
    lemma_in_country_each(spec_nv_regulators(), "us"@);
}

/// The licence types of `il_license_types` are complete, granted by its regulators, and
/// each of its regulators grants at least one of them.
proof fn lemma_il_group()
    ensures
        license_types_complete(spec_il_license_types()),
        granted_by_listed_regulators(spec_il_license_types(), spec_il_regulators()),
        every_regulator_grants(spec_il_license_types(), spec_il_regulators()),
        regulators_in_country(spec_il_regulators(), "us"@),
{
    assert(complete_each(spec_il_license_types())) by {
        reveal_strlit("us-il-sos:corp-registration");
        reveal_strlit("Corporation Registration");
        reveal_strlit("Registration under Illinois Business Corporation Act");
        reveal_strlit("us-il-sos");
        reveal_strlit("us-il-sos:llc-registration");
        reveal_strlit("LLC Registration");
        reveal_strlit("Registration under Illinois LLC Act");
        reveal_strlit("us-il-idfpr:money-transmitter");
        reveal_strlit("Money Transmitter License");
        reveal_strlit("License under Illinois Transmitters of Money Act");
        reveal_strlit("us-il-idfpr");
        reveal_strlit("us-il-doi:insurance-producer");
        reveal_strlit("Insurance Producer License");
        reveal_strlit("License to sell insurance in Illinois");
        reveal_strlit("us-il-doi");
        reveal_strlit("us-il-sec:broker-dealer");
        reveal_strlit("Broker-Dealer Registration");
        reveal_strlit("State registration for securities broker-dealers");
        reveal_strlit("us-il-sec");
        reveal_with_fuel(complete_each, 6);
    }
    lemma_complete_each(spec_il_license_types());
    assert(lists_regulator(spec_il_regulators(), spec_il_license_types()[0].regulator_id)) by {
        assert(spec_il_regulators()[0].regulator_id == spec_il_license_types()[0].regulator_id);
    }
    assert(lists_regulator(spec_il_regulators(), spec_il_license_types()[1].regulator_id)) by {
        assert(spec_il_regulators()[0].regulator_id == spec_il_license_types()[1].regulator_id);
    }
    assert(lists_regulator(spec_il_regulators(), spec_il_license_types()[2].regulator_id)) by {
        assert(spec_il_regulators()[1].regulator_id == spec_il_license_types()[2].regulator_id);
    }
    assert(lists_regulator(spec_il_regulators(), spec_il_license_types()[3].regulator_id)) by {
        assert(spec_il_regulators()[2].regulator_id == spec_il_license_types()[3].regulator_id);
    }
    assert(lists_regulator(spec_il_regulators(), spec_il_license_types()[4].regulator_id)) by {
        assert(spec_il_regulators()[3].regulator_id == spec_il_license_types()[4].regulator_id);
    }
    assert(granted_listed_each(spec_il_license_types(), spec_il_regulators())) by {
        reveal_with_fuel(granted_listed_each, 6);
    }
    lemma_granted_listed_each(spec_il_license_types(), spec_il_regulators());
    assert(grants_some(spec_il_license_types(), spec_il_regulators()[0].regulator_id)) by {
        assert(spec_il_license_types()[0].regulator_id == spec_il_regulators()[0].regulator_id);
    }
    assert(grants_some(spec_il_license_types(), spec_il_regulators()[1].regulator_id)) by {
        assert(spec_il_license_types()[2].regulator_id == spec_il_regulators()[1].regulator_id);
    }
    assert(grants_some(spec_il_license_types(), spec_il_regulators()[2].regulator_id)) by {
        assert(spec_il_license_types()[3].regulator_id == spec_il_regulators()[2].regulator_id);
    }
    assert(grants_some(spec_il_license_types(), spec_il_regulators()[3].regulator_id)) by {
        assert(spec_il_license_types()[4].regulator_id == spec_il_regulators()[3].regulator_id);
    }
    assert(grants_each(spec_il_license_types(), spec_il_regulators())) by {
        reveal_with_fuel(grants_each, 5);
    }
    lemma_grants_each(spec_il_license_types(), spec_il_regulators());
    assert(has_prefix("us-il"@, "us"@)) by {
        reveal_strlit("us-il");
        reveal_strlit("us");
        assert("us-il"@.subrange(0, 2) =~= "us"@);
    }
    assert(in_country_each(spec_il_regulators(), "us"@)) by {
        reveal_with_fuel(in_country_each, 5);
    }
    lemma_in_country_each(spec_il_regulators(), "us"@);
}

/// The licence types of `al_license_types` are complete, granted by its regulators, and
/// each of its regulators grants at least one of them.
proof fn lemma_al_group()
    ensures
        license_types_complete(spec_al_license_types()),
        granted_by_listed_regulators(spec_al_license_types(), spec_al_regulators()),
        every_regulator_grants(spec_al_license_types(), spec_al_regulators()),
        regulators_in_country(spec_al_regulators(), "us"@),
{
    lemma_state_group(
        "Alabama"@,
        "us-al"@,
        "Alabama Secretary of State"@,
        "Alabama State Banking Department"@,
        "Alabama Department of Insurance"@,
        "Alabama Securities Commission"@,
        "https://www.sos.alabama.gov"@,
        "https://banking.alabama.gov"@,
    );
    assert(has_prefix("us-al"@, "us"@)) by {
        reveal_strlit("us-al");
        reveal_strlit("us");
        assert("us-al"@.subrange(0, 2) =~= "us"@);
    }
    lemma_in_country_from_jurisdiction(spec_al_regulators(), "us-al"@, "us"@);
}

/// The licence types of `ak_license_types` are complete, granted by its regulators, and
/// each of its regulators grants at least one of them.
proof fn lemma_ak_group()
    ensures
        license_types_complete(spec_ak_license_types()),
        granted_by_listed_regulators(spec_ak_license_types(), spec_ak_regulators()),
        every_regulator_grants(spec_ak_license_types(), spec_ak_regulators()),
        regulators_in_country(spec_ak_regulators(), "us"@),
{
    lemma_state_group(
        "Alaska"@,
        "us-ak"@,
        "Alaska Division of Corporations"@,
        "Alaska Division of Banking and Securities"@,
        "Alaska Division of Insurance"@,
        "Alaska Division of Banking and Securities"@,
        "https://www.commerce.alaska.gov/web/cbpl/corporations"@,
        "https://www.commerce.alaska.gov/web/dbs"@,
    );
    assert(has_prefix("us-ak"@, "us"@)) by {
        reveal_strlit("us-ak");
        reveal_strlit("us");
        assert("us-ak"@.subrange(0, 2) =~= "us"@);
    }
    lemma_in_country_from_jurisdiction(spec_ak_regulators(), "us-ak"@, "us"@);
}

/// The licence types of `az_license_types` are complete, granted by its regulators, and
/// each of its regulators grants at least one of them.
proof fn lemma_az_group()
    ensures
        license_types_complete(spec_az_license_types()),
        granted_by_listed_regulators(spec_az_license_types(), spec_az_regulators()),
        every_regulator_grants(spec_az_license_types(), spec_az_regulators()),
        regulators_in_country(spec_az_regulators(), "us"@),
{
    lemma_state_group(
        "Arizona"@,
        "us-az"@,
        "Arizona Corporation Commission"@,
        "Arizona Department of Financial Institutions"@,
        "Arizona Department of Insurance"@,
        "Arizona Corporation Commission Securities"@,
        "https://ecorp.azcc.gov"@,
        "https://difi.az.gov"@,
    );
    assert(has_prefix("us-az"@, "us"@)) by {
        reveal_strlit("us-az");
        reveal_strlit("us");
        assert("us-az"@.subrange(0, 2) =~= "us"@);
    }
    lemma_in_country_from_jurisdiction(spec_az_regulators(), "us-az"@, "us"@);
}

/// The licence types of `ar_license_types` are complete, granted by its regulators, and
/// each of its regulators grants at least one of them.
proof fn lemma_ar_group()
    ensures
        license_types_complete(spec_ar_license_types()),
        granted_by_listed_regulators(spec_ar_license_types(), spec_ar_regulators()),
        every_regulator_grants(spec_ar_license_types(), spec_ar_regulators()),
        regulators_in_country(spec_ar_regulators(), "us"@),
{
    lemma_state_group(
        "Arkansas"@,
        "us-ar"@,
        "Arkansas Secretary of State"@,
        "Arkansas State Bank Department"@,
        "Arkansas Insurance Department"@,
        "Arkansas Securities Department"@,
        "https://www.sos.arkansas.gov"@,
        "https://banking.arkansas.gov"@,
    );
    assert(has_prefix("us-ar"@, "us"@)) by {
        reveal_strlit("us-ar");
        reveal_strlit("us");
        assert("us-ar"@.subrange(0, 2) =~= "us"@);
    }
    lemma_in_country_from_jurisdiction(spec_ar_regulators(), "us-ar"@, "us"@);
}

/// The licence types of `co_license_types` are complete, granted by its regulators, and
/// each of its regulators grants at least one of them.
proof fn lemma_co_group()
    ensures
        license_types_complete(spec_co_license_types()),
        granted_by_listed_regulators(spec_co_license_types(), spec_co_regulators()),
        every_regulator_grants(spec_co_license_types(), spec_co_regulators()),
        regulators_in_country(spec_co_regulators(), "us"@),
{
    lemma_state_group(
        "Colorado"@,
        "us-co"@,
        "Colorado Secretary of State"@,
        "Colorado Division of Banking"@,
        "Colorado Division of Insurance"@,
        "Colorado Division of Securities"@,
        "https://www.sos.state.co.us"@,
        "https://banking.colorado.gov"@,
    );
    assert(has_prefix("us-co"@, "us"@)) by {
        reveal_strlit("us-co");
        reveal_strlit("us");
        assert("us-co"@.subrange(0, 2) =~= "us"@);
    }
    lemma_in_country_from_jurisdiction(spec_co_regulators(), "us-co"@, "us"@);
}

/// The licence types of `ct_license_types` are complete, granted by its regulators, and
/// each of its regulators grants at least one of them.
proof fn lemma_ct_group()
    ensures
        license_types_complete(spec_ct_license_types()),
        granted_by_listed_regulators(spec_ct_license_types(), spec_ct_regulators()),
        every_regulator_grants(spec_ct_license_types(), spec_ct_regulators()),
        regulators_in_country(spec_ct_regulators(), "us"@),
{
    lemma_state_group(
        "Connecticut"@,
        "us-ct"@,
        "Connecticut Secretary of State"@,
        "Connecticut Department of Banking"@,
        "Connecticut Insurance Department"@,
        "Connecticut Department of Banking Securities"@,
        "https://portal.ct.gov/sots"@,
        "https://portal.ct.gov/dob"@,
    );
    assert(has_prefix("us-ct"@, "us"@)) by {
        reveal_strlit("us-ct");
        reveal_strlit("us");
        assert("us-ct"@.subrange(0, 2) =~= "us"@);
    }
    lemma_in_country_from_jurisdiction(spec_ct_regulators(), "us-ct"@, "us"@);
}

/// The licence types of `ga_license_types` are complete, granted by its regulators, and
/// each of its regulators grants at least one of them.
proof fn lemma_ga_group()
    ensures
        license_types_complete(spec_ga_license_types()),
        granted_by_listed_regulators(spec_ga_license_types(), spec_ga_regulators()),
        every_regulator_grants(spec_ga_license_types(), spec_ga_regulators()),
        regulators_in_country(spec_ga_regulators(), "us"@),
{
    lemma_state_group(
        "Georgia"@,
        "us-ga"@,
        "Georgia Secretary of State Corporations Division"@,
        "Georgia Department of Banking and Finance"@,
        "Georgia Office of Insurance"@,
        "Georgia Securities Division"@,
        "https://sos.ga.gov/corporations-division"@,
        "https://dbf.georgia.gov"@,
    );
    assert(has_prefix("us-ga"@, "us"@)) by {
        reveal_strlit("us-ga");
        reveal_strlit("us");
        assert("us-ga"@.subrange(0, 2) =~= "us"@);
    }
    lemma_in_country_from_jurisdiction(spec_ga_regulators(), "us-ga"@, "us"@);
}

/// The licence types of `hi_license_types` are complete, granted by its regulators, and
/// each of its regulators grants at least one of them.
proof fn lemma_hi_group()
    ensures
        license_types_complete(spec_hi_license_types()),
        granted_by_listed_regulators(spec_hi_license_types(), spec_hi_regulators()),
        every_regulator_grants(spec_hi_license_types(), spec_hi_regulators()),
        regulators_in_country(spec_hi_regulators(), "us"@),
{
    lemma_state_group(
        "Hawaii"@,
        "us-hi"@,
        "Hawaii Department of Commerce"@,
        "Hawaii Division of Financial Institutions"@,
        "Hawaii Insurance Division"@,
        "Hawaii Securities Division"@,
        "https://cca.hawaii.gov/breg"@,
        "https://cca.hawaii.gov/dfi"@,
    );
    assert(has_prefix("us-hi"@, "us"@)) by {
        reveal_strlit("us-hi");
        reveal_strlit("us");
        assert("us-hi"@.subrange(0, 2) =~= "us"@);
    }
    lemma_in_country_from_jurisdiction(spec_hi_regulators(), "us-hi"@, "us"@);
}

/// The licence types of `id_license_types` are complete, granted by its regulators, and
/// each of its regulators grants at least one of them.
proof fn lemma_id_group()
    ensures
        license_types_complete(spec_id_license_types()),
        granted_by_listed_regulators(spec_id_license_types(), spec_id_regulators()),
        every_regulator_grants(spec_id_license_types(), spec_id_regulators()),
        regulators_in_country(spec_id_regulators(), "us"@),
{
    lemma_state_group(
        "Idaho"@,
        "us-id"@,
        "Idaho Secretary of State"@,
        "Idaho Department of Finance"@,
        "Idaho Department of Insurance"@,
        "Idaho Department of Finance Securities"@,
        "https://sos.idaho.gov"@,
        "https://finance.idaho.gov"@,
    );
    assert(has_prefix("us-id"@, "us"@)) by {
        reveal_strlit("us-id");
        reveal_strlit("us");
        assert("us-id"@.subrange(0, 2) =~= "us"@);
    }
    lemma_in_country_from_jurisdiction(spec_id_regulators(), "us-id"@, "us"@);
}

/// The licence types of `in_license_types` are complete, granted by its regulators, and
/// each of its regulators grants at least one of them.
proof fn lemma_in_group()
    ensures
        license_types_complete(spec_in_license_types()),
        granted_by_listed_regulators(spec_in_license_types(), spec_in_regulators()),
        every_regulator_grants(spec_in_license_types(), spec_in_regulators()),
        regulators_in_country(spec_in_regulators(), "us"@),
{
    lemma_state_group(
        "Indiana"@,
        "us-in"@,
        "Indiana Secretary of State"@,
        "Indiana Department of Financial Institutions"@,
        "Indiana Department of Insurance"@,
        "Indiana Securities Division"@,
        "https://www.in.gov/sos"@,
        "https://www.in.gov/dfi"@,
    );
    assert(has_prefix("us-in"@, "us"@)) by {
        reveal_strlit("us-in");
        reveal_strlit("us");
        assert("us-in"@.subrange(0, 2) =~= "us"@);
    }
    lemma_in_country_from_jurisdiction(spec_in_regulators(), "us-in"@, "us"@);
}

/// The licence types of `ia_license_types` are complete, granted by its regulators, and
/// each of its regulators grants at least one of them.
proof fn lemma_ia_group()
    ensures
        license_types_complete(spec_ia_license_types()),
        granted_by_listed_regulators(spec_ia_license_types(), spec_ia_regulators()),
        every_regulator_grants(spec_ia_license_types(), spec_ia_regulators()),
        regulators_in_country(spec_ia_regulators(), "us"@),
{
    lemma_state_group(
        "Iowa"@,
        "us-ia"@,
        "Iowa Secretary of State"@,
        "Iowa Division of Banking"@,
        "Iowa Insurance Division"@,
        "Iowa Insurance Division Securities"@,
        "https://sos.iowa.gov"@,
        "https://idob.iowa.gov"@,
    );
    assert(has_prefix("us-ia"@, "us"@)) by {
        reveal_strlit("us-ia");
        reveal_strlit("us");
        assert("us-ia"@.subrange(0, 2) =~= "us"@);
    }
    lemma_in_country_from_jurisdiction(spec_ia_regulators(), "us-ia"@, "us"@);
}

/// The licence types of `ks_license_types` are complete, granted by its regulators, and
/// each of its regulators grants at least one of them.
proof fn lemma_ks_group()
    ensures
        license_types_complete(spec_ks_license_types()),
        granted_by_listed_regulators(spec_ks_license_types(), spec_ks_regulators()),
        every_regulator_grants(spec_ks_license_types(), spec_ks_regulators()),
        regulators_in_country(spec_ks_regulators(), "us"@),
{
    lemma_state_group(
        "Kansas"@,
        "us-ks"@,
        "Kansas Secretary of State"@,
        "Kansas Office of the State Bank Commissioner"@,
        "Kansas Insurance Department"@,
        "Kansas Securities Commissioner"@,
        "https://www.sos.ks.gov"@,
        "https://osbckansas.org"@,
    );
    assert(has_prefix("us-ks"@, "us"@)) by {
        reveal_strlit("us-ks");
        reveal_strlit("us");
        assert("us-ks"@.subrange(0, 2) =~= "us"@);
    }
    lemma_in_country_from_jurisdiction(spec_ks_regulators(), "us-ks"@, "us"@);
}

/// The licence types of `ky_license_types` are complete, granted by its regulators, and
/// each of its regulators grants at least one of them.
proof fn lemma_ky_group()
    ensures
        license_types_complete(spec_ky_license_types()),
        granted_by_listed_regulators(spec_ky_license_types(), spec_ky_regulators()),
        every_regulator_grants(spec_ky_license_types(), spec_ky_regulators()),
        regulators_in_country(spec_ky_regulators(), "us"@),
{
    lemma_state_group(
        "Kentucky"@,
        "us-ky"@,
        "Kentucky Secretary of State"@,
        "Kentucky Department of Financial Institutions"@,
        "Kentucky Department of Insurance"@,
        "Kentucky Department of Financial Institutions Securities"@,
        "https://www.sos.ky.gov"@,
        "https://kfi.ky.gov"@,
    );
    assert(has_prefix("us-ky"@, "us"@)) by {
        reveal_strlit("us-ky");
        reveal_strlit("us");
        assert("us-ky"@.subrange(0, 2) =~= "us"@);
    }
    lemma_in_country_from_jurisdiction(spec_ky_regulators(), "us-ky"@, "us"@);
}

/// The licence types of `la_license_types` are complete, granted by its regulators, and
/// each of its regulators grants at least one of them.
proof fn lemma_la_group()
    ensures
        license_types_complete(spec_la_license_types()),
        granted_by_listed_regulators(spec_la_license_types(), spec_la_regulators()),
        every_regulator_grants(spec_la_license_types(), spec_la_regulators()),
        regulators_in_country(spec_la_regulators(), "us"@),
{
    lemma_state_group(
        "Louisiana"@,
        "us-la"@,
        "Louisiana Secretary of State"@,
        "Louisiana Office of Financial Institutions"@,
        "Louisiana Department of Insurance"@,
        "Louisiana Securities Division"@,
        "https://www.sos.la.gov"@,
        "https://ofi.la.gov"@,
    );
    assert(has_prefix("us-la"@, "us"@)) by {
        reveal_strlit("us-la");
        reveal_strlit("us");
        assert("us-la"@.subrange(0, 2) =~= "us"@);
    }
    lemma_in_country_from_jurisdiction(spec_la_regulators(), "us-la"@, "us"@);
}

/// The licence types of `me_license_types` are complete, granted by its regulators, and
/// each of its regulators grants at least one of them.
proof fn lemma_me_group()
    ensures
        license_types_complete(spec_me_license_types()),
        granted_by_listed_regulators(spec_me_license_types(), spec_me_regulators()),
        every_regulator_grants(spec_me_license_types(), spec_me_regulators()),
        regulators_in_country(spec_me_regulators(), "us"@),
{
    lemma_state_group(
        "Maine"@,
        "us-me"@,
        "Maine Secretary of State"@,
        "Maine Bureau of Financial Institutions"@,
        "Maine Bureau of Insurance"@,
        "Maine Securities Division"@,
        "https://www.maine.gov/sos"@,
        "https://www.maine.gov/pfr/financialinstitutions"@,
    );
    assert(has_prefix("us-me"@, "us"@)) by {
        reveal_strlit("us-me");
        reveal_strlit("us");
        assert("us-me"@.subrange(0, 2) =~= "us"@);
    }
    lemma_in_country_from_jurisdiction(spec_me_regulators(), "us-me"@, "us"@);
}

/// The licence types of `md_license_types` are complete, granted by its regulators, and
/// each of its regulators grants at least one of them.
proof fn lemma_md_group()
    ensures
        license_types_complete(spec_md_license_types()),
        granted_by_listed_regulators(spec_md_license_types(), spec_md_regulators()),
        every_regulator_grants(spec_md_license_types(), spec_md_regulators()),
        regulators_in_country(spec_md_regulators(), "us"@),
{
    lemma_state_group(
        "Maryland"@,
        "us-md"@,
        "Maryland Department of Assessments and Taxation"@,
        "Maryland Commissioner of Financial Regulation"@,
        "Maryland Insurance Administration"@,
        "Maryland Securities Division"@,
        "https://dat.maryland.gov"@,
        "https://www.dllr.state.md.us/finance"@,
    );
    assert(has_prefix("us-md"@, "us"@)) by {
        reveal_strlit("us-md");
        reveal_strlit("us");
        assert("us-md"@.subrange(0, 2) =~= "us"@);
    }
    lemma_in_country_from_jurisdiction(spec_md_regulators(), "us-md"@, "us"@);
}

/// The licence types of `ma_license_types` are complete, granted by its regulators, and
/// each of its regulators grants at least one of them.
proof fn lemma_ma_group()
    ensures
        license_types_complete(spec_ma_license_types()),
        granted_by_listed_regulators(spec_ma_license_types(), spec_ma_regulators()),
        every_regulator_grants(spec_ma_license_types(), spec_ma_regulators()),
        regulators_in_country(spec_ma_regulators(), "us"@),
{
    lemma_state_group(
        "Massachusetts"@,
        "us-ma"@,
        "Massachusetts Secretary of the Commonwealth"@,
        "Massachusetts Division of Banks"@,
        "Massachusetts Division of Insurance"@,
        "Massachusetts Securities Division"@,
        "https://www.sec.state.ma.us/cor"@,
        "https://www.mass.gov/orgs/division-of-banks"@,
    );
    assert(has_prefix("us-ma"@, "us"@)) by {
        reveal_strlit("us-ma");
        reveal_strlit("us");
        assert("us-ma"@.subrange(0, 2) =~= "us"@);
    }
    lemma_in_country_from_jurisdiction(spec_ma_regulators(), "us-ma"@, "us"@);
}

/// The licence types of `mi_license_types` are complete, granted by its regulators, and
/// each of its regulators grants at least one of them.
proof fn lemma_mi_group()
    ensures
        license_types_complete(spec_mi_license_types()),
        granted_by_listed_regulators(spec_mi_license_types(), spec_mi_regulators()),
        every_regulator_grants(spec_mi_license_types(), spec_mi_regulators()),
        regulators_in_country(spec_mi_regulators(), "us"@),
{
    lemma_state_group(
        "Michigan"@,
        "us-mi"@,
        "Michigan Department of Licensing and Regulatory Affairs"@,
        "Michigan Office of Credit Unions and Financial Services"@,
        "Michigan Department of Insurance and Financial Services"@,
        "Michigan Securities Division"@,
        "https://www.michigan.gov/lara"@,
        "https://www.michigan.gov/difs"@,
    );
    assert(has_prefix("us-mi"@, "us"@)) by {
        reveal_strlit("us-mi");
        reveal_strlit("us");
        assert("us-mi"@.subrange(0, 2) =~= "us"@);
    }
    lemma_in_country_from_jurisdiction(spec_mi_regulators(), "us-mi"@, "us"@);
}

/// The licence types of `mn_license_types` are complete, granted by its regulators, and
/// each of its regulators grants at least one of them.
proof fn lemma_mn_group()
    ensures
        license_types_complete(spec_mn_license_types()),
        granted_by_listed_regulators(spec_mn_license_types(), spec_mn_regulators()),
        every_regulator_grants(spec_mn_license_types(), spec_mn_regulators()),
        regulators_in_country(spec_mn_regulators(), "us"@),
{
    lemma_state_group(
        "Minnesota"@,
        "us-mn"@,
        "Minnesota Secretary of State"@,
        "Minnesota Department of Commerce Financial Institutions"@,
        "Minnesota Department of Commerce Insurance"@,
        "Minnesota Department of Commerce Securities"@,
        "https://www.sos.state.mn.us"@,
        "https://mn.gov/commerce"@,
    );
    assert(has_prefix("us-mn"@, "us"@)) by {
        reveal_strlit("us-mn");
        reveal_strlit("us");
        assert("us-mn"@.subrange(0, 2) =~= "us"@);
    }
    lemma_in_country_from_jurisdiction(spec_mn_regulators(), "us-mn"@, "us"@);
}

/// The licence types of `ms_license_types` are complete, granted by its regulators, and
/// each of its regulators grants at least one of them.
proof fn lemma_ms_group()
    ensures
        license_types_complete(spec_ms_license_types()),
        granted_by_listed_regulators(spec_ms_license_types(), spec_ms_regulators()),
        every_regulator_grants(spec_ms_license_types(), spec_ms_regulators()),
        regulators_in_country(spec_ms_regulators(), "us"@),
{
    lemma_state_group(
        "Mississippi"@,
        "us-ms"@,
        "Mississippi Secretary of State"@,
        "Mississippi Department of Banking and Consumer Finance"@,
        "Mississippi Insurance Department"@,
        "Mississippi Securities Division"@,
        "https://www.sos.ms.gov"@,
        "https://dbcf.ms.gov"@,
    );
    assert(has_prefix("us-ms"@, "us"@)) by {
        reveal_strlit("us-ms");
        reveal_strlit("us");
        assert("us-ms"@.subrange(0, 2) =~= "us"@);
    }
    lemma_in_country_from_jurisdiction(spec_ms_regulators(), "us-ms"@, "us"@);
}

/// The licence types of `mo_license_types` are complete, granted by its regulators, and
/// each of its regulators grants at least one of them.
proof fn lemma_mo_group()
    ensures
        license_types_complete(spec_mo_license_types()),
        granted_by_listed_regulators(spec_mo_license_types(), spec_mo_regulators()),
        every_regulator_grants(spec_mo_license_types(), spec_mo_regulators()),
        regulators_in_country(spec_mo_regulators(), "us"@),
{
    lemma_state_group(
        "Missouri"@,
        "us-mo"@,
        "Missouri Secretary of State"@,
        "Missouri Division of Finance"@,
        "Missouri Department of Commerce and Insurance"@,
        "Missouri Securities Division"@,
        "https://www.sos.mo.gov"@,
        "https://finance.mo.gov"@,
    );
    assert(has_prefix("us-mo"@, "us"@)) by {
        reveal_strlit("us-mo");
        reveal_strlit("us");
        assert("us-mo"@.subrange(0, 2) =~= "us"@);
    }
    lemma_in_country_from_jurisdiction(spec_mo_regulators(), "us-mo"@, "us"@);
}

/// The licence types of `mt_license_types` are complete, granted by its regulators, and
/// each of its regulators grants at least one of them.
proof fn lemma_mt_group()
    ensures
        license_types_complete(spec_mt_license_types()),
        granted_by_listed_regulators(spec_mt_license_types(), spec_mt_regulators()),
        every_regulator_grants(spec_mt_license_types(), spec_mt_regulators()),
        regulators_in_country(spec_mt_regulators(), "us"@),
{
    lemma_state_group(
        "Montana"@,
        "us-mt"@,
        "Montana Secretary of State"@,
        "Montana Division of Banking and Financial Institutions"@,
        "Montana Commissioner of Securities and Insurance"@,
        "Montana State Auditor Securities"@,
        "https://sosmt.gov"@,
        "https://banking.mt.gov"@,
    );
    assert(has_prefix("us-mt"@, "us"@)) by {
        reveal_strlit("us-mt");
        reveal_strlit("us");
        assert("us-mt"@.subrange(0, 2) =~= "us"@);
    }
    lemma_in_country_from_jurisdiction(spec_mt_regulators(), "us-mt"@, "us"@);
}

/// The licence types of `ne_license_types` are complete, granted by its regulators, and
/// each of its regulators grants at least one of them.
proof fn lemma_ne_group()
    ensures
        license_types_complete(spec_ne_license_types()),
        granted_by_listed_regulators(spec_ne_license_types(), spec_ne_regulators()),
        every_regulator_grants(spec_ne_license_types(), spec_ne_regulators()),
        regulators_in_country(spec_ne_regulators(), "us"@),
{
    lemma_state_group(
        "Nebraska"@,
        "us-ne"@,
        "Nebraska Secretary of State"@,
        "Nebraska Department of Banking and Finance"@,
        "Nebraska Department of Insurance"@,
        "Nebraska Department of Banking and Finance Securities"@,
        "https://sos.nebraska.gov"@,
        "https://ndbf.nebraska.gov"@,
    );
    assert(has_prefix("us-ne"@, "us"@)) by {
        reveal_strlit("us-ne");
        reveal_strlit("us");
        assert("us-ne"@.subrange(0, 2) =~= "us"@);
    }
    lemma_in_country_from_jurisdiction(spec_ne_regulators(), "us-ne"@, "us"@);
}

/// The licence types of `nh_license_types` are complete, granted by its regulators, and
/// each of its regulators grants at least one of them.
proof fn lemma_nh_group()
    ensures
        license_types_complete(spec_nh_license_types()),
        granted_by_listed_regulators(spec_nh_license_types(), spec_nh_regulators()),
        every_regulator_grants(spec_nh_license_types(), spec_nh_regulators()),
        regulators_in_country(spec_nh_regulators(), "us"@),
{
    lemma_state_group(
        "New Hampshire"@,
        "us-nh"@,
        "New Hampshire Secretary of State"@,
        "New Hampshire Banking Department"@,
        "New Hampshire Insurance Department"@,
        "New Hampshire Bureau of Securities Regulation"@,
        "https://www.sos.nh.gov"@,
        "https://www.nh.gov/banking"@,
    );
    assert(has_prefix("us-nh"@, "us"@)) by {
        reveal_strlit("us-nh");
        reveal_strlit("us");
        assert("us-nh"@.subrange(0, 2) =~= "us"@);
    }
    lemma_in_country_from_jurisdiction(spec_nh_regulators(), "us-nh"@, "us"@);
}

/// The licence types of `nj_license_types` are complete, granted by its regulators, and
/// each of its regulators grants at least one of them.
proof fn lemma_nj_group()
    ensures
        license_types_complete(spec_nj_license_types()),
        granted_by_listed_regulators(spec_nj_license_types(), spec_nj_regulators()),
        every_regulator_grants(spec_nj_license_types(), spec_nj_regulators()),
        regulators_in_country(spec_nj_regulators(), "us"@),
{
    lemma_state_group(
        "New Jersey"@,
        "us-nj"@,
        "New Jersey Division of Revenue"@,
        "New Jersey Department of Banking and Insurance"@,
        "New Jersey Department of Banking and Insurance"@,
        "New Jersey Bureau of Securities"@,
        "https://www.njportal.com/DOR/BusinessFormation"@,
        "https://www.nj.gov/dobi"@,
    );
    assert(has_prefix("us-nj"@, "us"@)) by {
        reveal_strlit("us-nj");
        reveal_strlit("us");
        assert("us-nj"@.subrange(0, 2) =~= "us"@);
    }
    lemma_in_country_from_jurisdiction(spec_nj_regulators(), "us-nj"@, "us"@);
}

/// The licence types of `nm_license_types` are complete, granted by its regulators, and
/// each of its regulators grants at least one of them.
proof fn lemma_nm_group()
    ensures
        license_types_complete(spec_nm_license_types()),
        granted_by_listed_regulators(spec_nm_license_types(), spec_nm_regulators()),
        every_regulator_grants(spec_nm_license_types(), spec_nm_regulators()),
        regulators_in_country(spec_nm_regulators(), "us"@),
{
    lemma_state_group(
        "New Mexico"@,
        "us-nm"@,
        "New Mexico Secretary of State"@,
        "New Mexico Financial Institutions Division"@,
        "New Mexico Office of Superintendent of Insurance"@,
        "New Mexico Securities Division"@,
        "https://www.sos.state.nm.us"@,
        "https://www.rld.nm.gov/financial-institutions"@,
    );
    assert(has_prefix("us-nm"@, "us"@)) by {
        reveal_strlit("us-nm");
        reveal_strlit("us");
        assert("us-nm"@.subrange(0, 2) =~= "us"@);
    }
    lemma_in_country_from_jurisdiction(spec_nm_regulators(), "us-nm"@, "us"@);
}

/// The licence types of `nc_license_types` are complete, granted by its regulators, and
/// each of its regulators grants at least one of them.
proof fn lemma_nc_group()
    ensures
        license_types_complete(spec_nc_license_types()),
        granted_by_listed_regulators(spec_nc_license_types(), spec_nc_regulators()),
        every_regulator_grants(spec_nc_license_types(), spec_nc_regulators()),
        regulators_in_country(spec_nc_regulators(), "us"@),
{
    lemma_state_group(
        "North Carolina"@,
        "us-nc"@,
        "North Carolina Secretary of State"@,
        "North Carolina Commissioner of Banks"@,
        "North Carolina Department of Insurance"@,
        "North Carolina Securities Division"@,
        "https://www.sosnc.gov"@,
        "https://www.nccob.gov"@,
    );
    assert(has_prefix("us-nc"@, "us"@)) by {
        reveal_strlit("us-nc");
        reveal_strlit("us");
        assert("us-nc"@.subrange(0, 2) =~= "us"@);
    }
    lemma_in_country_from_jurisdiction(spec_nc_regulators(), "us-nc"@, "us"@);
}

/// The licence types of `nd_license_types` are complete, granted by its regulators, and
/// each of its regulators grants at least one of them.
proof fn lemma_nd_group()
    ensures
        license_types_complete(spec_nd_license_types()),
        granted_by_listed_regulators(spec_nd_license_types(), spec_nd_regulators()),
        every_regulator_grants(spec_nd_license_types(), spec_nd_regulators()),
        regulators_in_country(spec_nd_regulators(), "us"@),
{
    lemma_state_group(
        "North Dakota"@,
        "us-nd"@,
        "North Dakota Secretary of State"@,
        "North Dakota Department of Financial Institutions"@,
        "North Dakota Insurance Department"@,
        "North Dakota Securities Department"@,
        "https://sos.nd.gov"@,
        "https://www.nd.gov/dfi"@,
    );
    assert(has_prefix("us-nd"@, "us"@)) by {
        reveal_strlit("us-nd");
        reveal_strlit("us");
        assert("us-nd"@.subrange(0, 2) =~= "us"@);
    }
    lemma_in_country_from_jurisdiction(spec_nd_regulators(), "us-nd"@, "us"@);
}

/// The licence types of `oh_license_types` are complete, granted by its regulators, and
/// each of its regulators grants at least one of them.
proof fn lemma_oh_group()
    ensures
        license_types_complete(spec_oh_license_types()),
        granted_by_listed_regulators(spec_oh_license_types(), spec_oh_regulators()),
        every_regulator_grants(spec_oh_license_types(), spec_oh_regulators()),
        regulators_in_country(spec_oh_regulators(), "us"@),
{
    lemma_state_group(
        "Ohio"@,
        "us-oh"@,
        "Ohio Secretary of State"@,
        "Ohio Division of Financial Institutions"@,
        "Ohio Department of Insurance"@,
        "Ohio Division of Securities"@,
        "https://www.ohiosos.gov"@,
        "https://com.ohio.gov/divisions-and-programs/financial-institutions"@,
    );
    assert(has_prefix("us-oh"@, "us"@)) by {
        reveal_strlit("us-oh");
        reveal_strlit("us");
        assert("us-oh"@.subrange(0, 2) =~= "us"@);
    }
    lemma_in_country_from_jurisdiction(spec_oh_regulators(), "us-oh"@, "us"@);
}

/// The licence types of `ok_license_types` are complete, granted by its regulators, and
/// each of its regulators grants at least one of them.
proof fn lemma_ok_group()
    ensures
        license_types_complete(spec_ok_license_types()),
        granted_by_listed_regulators(spec_ok_license_types(), spec_ok_regulators()),
        every_regulator_grants(spec_ok_license_types(), spec_ok_regulators()),
        regulators_in_country(spec_ok_regulators(), "us"@),
{
    lemma_state_group(
        "Oklahoma"@,
        "us-ok"@,
        "Oklahoma Secretary of State"@,
        "Oklahoma State Banking Department"@,
        "Oklahoma Insurance Department"@,
        "Oklahoma Securities Commission"@,
        "https://www.sos.ok.gov"@,
        "https://www.ok.gov/banking"@,
    );
    assert(has_prefix("us-ok"@, "us"@)) by {
        reveal_strlit("us-ok");
        reveal_strlit("us");
        assert("us-ok"@.subrange(0, 2) =~= "us"@);
    }
    lemma_in_country_from_jurisdiction(spec_ok_regulators(), "us-ok"@, "us"@);
}

/// The licence types of `or_license_types` are complete, granted by its regulators, and
/// each of its regulators grants at least one of them.
proof fn lemma_or_group()
    ensures
        license_types_complete(spec_or_license_types()),
        granted_by_listed_regulators(spec_or_license_types(), spec_or_regulators()),
        every_regulator_grants(spec_or_license_types(), spec_or_regulators()),
        regulators_in_country(spec_or_regulators(), "us"@),
{
    lemma_state_group(
        "Oregon"@,
        "us-or"@,
        "Oregon Secretary of State"@,
        "Oregon Division of Financial Regulation"@,
        "Oregon Division of Financial Regulation Insurance"@,
        "Oregon Division of Financial Regulation Securities"@,
        "https://sos.oregon.gov"@,
        "https://dfr.oregon.gov"@,
    );
    assert(has_prefix("us-or"@, "us"@)) by {
        reveal_strlit("us-or");
        reveal_strlit("us");
        assert("us-or"@.subrange(0, 2) =~= "us"@);
    }
    lemma_in_country_from_jurisdiction(spec_or_regulators(), "us-or"@, "us"@);
}

/// The licence types of `pa_license_types` are complete, granted by its regulators, and
/// each of its regulators grants at least one of them.
proof fn lemma_pa_group()
    ensures
        license_types_complete(spec_pa_license_types()),
        granted_by_listed_regulators(spec_pa_license_types(), spec_pa_regulators()),
        every_regulator_grants(spec_pa_license_types(), spec_pa_regulators()),
        regulators_in_country(spec_pa_regulators(), "us"@),
{
    lemma_state_group(
        "Pennsylvania"@,
        "us-pa"@,
        "Pennsylvania Department of State"@,
        "Pennsylvania Department of Banking and Securities"@,
        "Pennsylvania Insurance Department"@,
        "Pennsylvania Department of Banking and Securities"@,
        "https://www.dos.pa.gov"@,
        "https://www.dobs.pa.gov"@,
    );
    assert(has_prefix("us-pa"@, "us"@)) by {
        reveal_strlit("us-pa");
        reveal_strlit("us");
        assert("us-pa"@.subrange(0, 2) =~= "us"@);
    }
    lemma_in_country_from_jurisdiction(spec_pa_regulators(), "us-pa"@, "us"@);
}

/// The licence types of `ri_license_types` are complete, granted by its regulators, and
/// each of its regulators grants at least one of them.
proof fn lemma_ri_group()
    ensures
        license_types_complete(spec_ri_license_types()),
        granted_by_listed_regulators(spec_ri_license_types(), spec_ri_regulators()),
        every_regulator_grants(spec_ri_license_types(), spec_ri_regulators()),
        regulators_in_country(spec_ri_regulators(), "us"@),
{
    lemma_state_group(
        "Rhode Island"@,
        "us-ri"@,
        "Rhode Island Secretary of State"@,
        "Rhode Island Division of Banking"@,
        "Rhode Island Division of Insurance"@,
        "Rhode Island Division of Securities"@,
        "https://www.sos.ri.gov"@,
        "https://dbr.ri.gov"@,
    );
    assert(has_prefix("us-ri"@, "us"@)) by {
        reveal_strlit("us-ri");
        reveal_strlit("us");
        assert("us-ri"@.subrange(0, 2) =~= "us"@);
    }
    lemma_in_country_from_jurisdiction(spec_ri_regulators(), "us-ri"@, "us"@);
}

/// The licence types of `sc_license_types` are complete, granted by its regulators, and
/// each of its regulators grants at least one of them.
proof fn lemma_sc_group()
    ensures
        license_types_complete(spec_sc_license_types()),
        granted_by_listed_regulators(spec_sc_license_types(), spec_sc_regulators()),
        every_regulator_grants(spec_sc_license_types(), spec_sc_regulators()),
        regulators_in_country(spec_sc_regulators(), "us"@),
{
    lemma_state_group(
        "South Carolina"@,
        "us-sc"@,
        "South Carolina Secretary of State"@,
        "South Carolina Board of Financial Institutions"@,
        "South Carolina Department of Insurance"@,
        "South Carolina Securities Division"@,
        "https://sos.sc.gov"@,
        "https://bofi.sc.gov"@,
    );
    assert(has_prefix("us-sc"@, "us"@)) by {
        reveal_strlit("us-sc");
        reveal_strlit("us");
        assert("us-sc"@.subrange(0, 2) =~= "us"@);
    }
    lemma_in_country_from_jurisdiction(spec_sc_regulators(), "us-sc"@, "us"@);
}

/// The licence types of `sd_license_types` are complete, granted by its regulators, and
/// each of its regulators grants at least one of them.
proof fn lemma_sd_group()
    ensures
        license_types_complete(spec_sd_license_types()),
        granted_by_listed_regulators(spec_sd_license_types(), spec_sd_regulators()),
        every_regulator_grants(spec_sd_license_types(), spec_sd_regulators()),
        regulators_in_country(spec_sd_regulators(), "us"@),
{
    lemma_state_group(
        "South Dakota"@,
        "us-sd"@,
        "South Dakota Secretary of State"@,
        "South Dakota Division of Banking"@,
        "South Dakota Division of Insurance"@,
        "South Dakota Division of Securities"@,
        "https://sdsos.gov"@,
        "https://dlr.sd.gov/banking"@,
    );
    assert(has_prefix("us-sd"@, "us"@)) by {
        reveal_strlit("us-sd");
        reveal_strlit("us");
        assert("us-sd"@.subrange(0, 2) =~= "us"@);
    }
    lemma_in_country_from_jurisdiction(spec_sd_regulators(), "us-sd"@, "us"@);
}

/// The licence types of `tn_license_types` are complete, granted by its regulators, and
/// each of its regulators grants at least one of them.
proof fn lemma_tn_group()
    ensures
        license_types_complete(spec_tn_license_types()),
        granted_by_listed_regulators(spec_tn_license_types(), spec_tn_regulators()),
        every_regulator_grants(spec_tn_license_types(), spec_tn_regulators()),
        regulators_in_country(spec_tn_regulators(), "us"@),
{
    lemma_state_group(
        "Tennessee"@,
        "us-tn"@,
        "Tennessee Secretary of State"@,
        "Tennessee Department of Financial Institutions"@,
        "Tennessee Department of Commerce and Insurance"@,
        "Tennessee Securities Division"@,
        "https://sos.tn.gov"@,
        "https://www.tn.gov/tdfi"@,
    );
    assert(has_prefix("us-tn"@, "us"@)) by {
        reveal_strlit("us-tn");
        reveal_strlit("us");
        assert("us-tn"@.subrange(0, 2) =~= "us"@);
    }
    lemma_in_country_from_jurisdiction(spec_tn_regulators(), "us-tn"@, "us"@);
}

/// The licence types of `ut_license_types` are complete, granted by its regulators, and
/// each of its regulators grants at least one of them.
proof fn lemma_ut_group()
    ensures
        license_types_complete(spec_ut_license_types()),
        granted_by_listed_regulators(spec_ut_license_types(), spec_ut_regulators()),
        every_regulator_grants(spec_ut_license_types(), spec_ut_regulators()),
        regulators_in_country(spec_ut_regulators(), "us"@),
{
    lemma_state_group(
        "Utah"@,
        "us-ut"@,
        "Utah Division of Corporations"@,
        "Utah Department of Financial Institutions"@,
        "Utah Insurance Department"@,
        "Utah Division of Securities"@,
        "https://corporations.utah.gov"@,
        "https://dfi.utah.gov"@,
    );
    assert(has_prefix("us-ut"@, "us"@)) by {
        reveal_strlit("us-ut");
        reveal_strlit("us");
        assert("us-ut"@.subrange(0, 2) =~= "us"@);
    }
    lemma_in_country_from_jurisdiction(spec_ut_regulators(), "us-ut"@, "us"@);
}

/// The licence types of `vt_license_types` are complete, granted by its regulators, and
/// each of its regulators grants at least one of them.
proof fn lemma_vt_group()
    ensures
        license_types_complete(spec_vt_license_types()),
        granted_by_listed_regulators(spec_vt_license_types(), spec_vt_regulators()),
        every_regulator_grants(spec_vt_license_types(), spec_vt_regulators()),
        regulators_in_country(spec_vt_regulators(), "us"@),
{
    lemma_state_group(
        "Vermont"@,
        "us-vt"@,
        "Vermont Secretary of State"@,
        "Vermont Department of Financial Regulation"@,
        "Vermont Department of Financial Regulation Insurance"@,
        "Vermont Department of Financial Regulation Securities"@,
        "https://sos.vermont.gov"@,
        "https://dfr.vermont.gov"@,
    );
    assert(has_prefix("us-vt"@, "us"@)) by {
        reveal_strlit("us-vt");
        reveal_strlit("us");
        assert("us-vt"@.subrange(0, 2) =~= "us"@);
    }
    lemma_in_country_from_jurisdiction(spec_vt_regulators(), "us-vt"@, "us"@);
}

/// The licence types of `va_license_types` are complete, granted by its regulators, and
/// each of its regulators grants at least one of them.
proof fn lemma_va_group()
    ensures
        license_types_complete(spec_va_license_types()),
        granted_by_listed_regulators(spec_va_license_types(), spec_va_regulators()),
        every_regulator_grants(spec_va_license_types(), spec_va_regulators()),
        regulators_in_country(spec_va_regulators(), "us"@),
{
    lemma_state_group(
        "Virginia"@,
        "us-va"@,
        "Virginia State Corporation Commission"@,
        "Virginia Bureau of Financial Institutions"@,
        "Virginia Bureau of Insurance"@,
        "Virginia Division of Securities"@,
        "https://www.scc.virginia.gov"@,
        "https://www.scc.virginia.gov/pages/Bureau-of-Financial-Institutions"@,
    );
    assert(has_prefix("us-va"@, "us"@)) by {
        reveal_strlit("us-va");
        reveal_strlit("us");
        assert("us-va"@.subrange(0, 2) =~= "us"@);
    }
    lemma_in_country_from_jurisdiction(spec_va_regulators(), "us-va"@, "us"@);
}

/// The licence types of `wa_license_types` are complete, granted by its regulators, and
/// each of its regulators grants at least one of them.
proof fn lemma_wa_group()
    ensures
        license_types_complete(spec_wa_license_types()),
        granted_by_listed_regulators(spec_wa_license_types(), spec_wa_regulators()),
        every_regulator_grants(spec_wa_license_types(), spec_wa_regulators()),
        regulators_in_country(spec_wa_regulators(), "us"@),
{
    lemma_state_group(
        "Washington"@,
        "us-wa"@,
        "Washington Secretary of State"@,
        "Washington Department of Financial Institutions"@,
        "Washington Office of the Insurance Commissioner"@,
        "Washington Department of Financial Institutions Securities"@,
        "https://www.sos.wa.gov"@,
        "https://dfi.wa.gov"@,
    );
    assert(has_prefix("us-wa"@, "us"@)) by {
        reveal_strlit("us-wa");
        reveal_strlit("us");
        assert("us-wa"@.subrange(0, 2) =~= "us"@);
    }
    lemma_in_country_from_jurisdiction(spec_wa_regulators(), "us-wa"@, "us"@);
}

/// The licence types of `wv_license_types` are complete, granted by its regulators, and
/// each of its regulators grants at least one of them.
proof fn lemma_wv_group()
    ensures
        license_types_complete(spec_wv_license_types()),
        granted_by_listed_regulators(spec_wv_license_types(), spec_wv_regulators()),
        every_regulator_grants(spec_wv_license_types(), spec_wv_regulators()),
        regulators_in_country(spec_wv_regulators(), "us"@),
{
    lemma_state_group(
        "West Virginia"@,
        "us-wv"@,
        "West Virginia Secretary of State"@,
        "West Virginia Division of Financial Institutions"@,
        "West Virginia Offices of the Insurance Commissioner"@,
        "West Virginia Securities Commission"@,
        "https://sos.wv.gov"@,
        "https://dfi.wv.gov"@,
    );
    assert(has_prefix("us-wv"@, "us"@)) by {
        reveal_strlit("us-wv");
        reveal_strlit("us");
        assert("us-wv"@.subrange(0, 2) =~= "us"@);
    }
    lemma_in_country_from_jurisdiction(spec_wv_regulators(), "us-wv"@, "us"@);
}

/// The licence types of `wi_license_types` are complete, granted by its regulators, and
/// each of its regulators grants at least one of them.
proof fn lemma_wi_group()
    ensures
        license_types_complete(spec_wi_license_types()),
        granted_by_listed_regulators(spec_wi_license_types(), spec_wi_regulators()),
        every_regulator_grants(spec_wi_license_types(), spec_wi_regulators()),
        regulators_in_country(spec_wi_regulators(), "us"@),
{
    lemma_state_group(
        "Wisconsin"@,
        "us-wi"@,
        "Wisconsin Department of Financial Institutions (Corporations)"@,
        "Wisconsin Department of Financial Institutions (Banking)"@,
        "Wisconsin Office of the Commissioner of Insurance"@,
        "Wisconsin Division of Securities"@,
        "https://www.wdfi.org"@,
        "https://www.wdfi.org/fi"@,
    );
    assert(has_prefix("us-wi"@, "us"@)) by {
        reveal_strlit("us-wi");
        reveal_strlit("us");
        assert("us-wi"@.subrange(0, 2) =~= "us"@);
    }
    lemma_in_country_from_jurisdiction(spec_wi_regulators(), "us-wi"@, "us"@);
}

/// The licence types of `dc_license_types` are complete, granted by its regulators, and
/// each of its regulators grants at least one of them.
proof fn lemma_dc_group()
    ensures
        license_types_complete(spec_dc_license_types()),
        granted_by_listed_regulators(spec_dc_license_types(), spec_dc_regulators()),
        every_regulator_grants(spec_dc_license_types(), spec_dc_regulators()),
        regulators_in_country(spec_dc_regulators(), "us"@),
{
    lemma_state_group(
        "District of Columbia"@,
        "us-dc"@,
        "DC Department of Licensing and Consumer Protection"@,
        "DC Department of Insurance Securities and Banking"@,
        "DC Department of Insurance Securities and Banking"@,
        "DC Department of Insurance Securities and Banking Securities"@,
        "https://dcra.dc.gov"@,
        "https://disb.dc.gov"@,
    );
    assert(has_prefix("us-dc"@, "us"@)) by {
        reveal_strlit("us-dc");
        reveal_strlit("us");
        assert("us-dc"@.subrange(0, 2) =~= "us"@);
    }
    lemma_in_country_from_jurisdiction(spec_dc_regulators(), "us-dc"@, "us"@);
}

/// The licence types of `pr_license_types` are complete, granted by its regulators, and
/// each of its regulators grants at least one of them.
proof fn lemma_pr_group()
    ensures
        license_types_complete(spec_pr_license_types()),
        granted_by_listed_regulators(spec_pr_license_types(), spec_pr_regulators()),
        every_regulator_grants(spec_pr_license_types(), spec_pr_regulators()),
        regulators_in_country(spec_pr_regulators(), "us"@),
{
    lemma_state_group(
        "Puerto Rico"@,
        "us-pr"@,
        "Puerto Rico Department of State"@,
        "Puerto Rico OCIF (Office of the Commissioner of Financial Institutions)"@,
        "Puerto Rico Office of the Insurance Commissioner"@,
        "Puerto Rico OCIF Securities"@,
        "https://www.estado.pr.gov"@,
        "https://ocif.pr.gov"@,
    );
    assert(has_prefix("us-pr"@, "us"@)) by {
        reveal_strlit("us-pr");
        reveal_strlit("us");
        assert("us-pr"@.subrange(0, 2) =~= "us"@);
    }
    lemma_in_country_from_jurisdiction(spec_pr_regulators(), "us-pr"@, "us"@);
}

/// The licence types of `gu_license_types` are complete, granted by its regulators, and
/// each of its regulators grants at least one of them.
proof fn lemma_gu_group()
    ensures
        license_types_complete(spec_gu_license_types()),
        granted_by_listed_regulators(spec_gu_license_types(), spec_gu_regulators()),
        every_regulator_grants(spec_gu_license_types(), spec_gu_regulators()),
        regulators_in_country(spec_gu_regulators(), "us"@),
{
    lemma_state_group(
        "Guam"@,
        "us-gu"@,
        "Guam Department of Revenue and Taxation"@,
        "Guam Banking and Insurance Commissioner"@,
        "Guam Insurance Branch"@,
        "Guam Securities Division"@,
        "https://www.guamtax.com"@,
        "https://banking.guam.gov"@,
    );
    assert(has_prefix("us-gu"@, "us"@)) by {
        reveal_strlit("us-gu");
        reveal_strlit("us");
        assert("us-gu"@.subrange(0, 2) =~= "us"@);
    }
    lemma_in_country_from_jurisdiction(spec_gu_regulators(), "us-gu"@, "us"@);
}

/// The licence types of `vi_license_types` are complete, granted by its regulators, and
/// each of its regulators grants at least one of them.
proof fn lemma_vi_group()
    ensures
        license_types_complete(spec_vi_license_types()),
        granted_by_listed_regulators(spec_vi_license_types(), spec_vi_regulators()),
        every_regulator_grants(spec_vi_license_types(), spec_vi_regulators()),
        regulators_in_country(spec_vi_regulators(), "us"@),
{
    lemma_state_group(
        "US Virgin Islands"@,
        "us-vi"@,
        "USVI Office of the Lieutenant Governor"@,
        "USVI Division of Banking Insurance and Financial Regulation"@,
        "USVI Division of Banking Insurance"@,
        "USVI Securities Division"@,
        "https://ltg.gov.vi"@,
        "https://ltg.gov.vi/division-of-banking"@,
    );
    assert(has_prefix("us-vi"@, "us"@)) by {
        reveal_strlit("us-vi");
        reveal_strlit("us");
        assert("us-vi"@.subrange(0, 2) =~= "us"@);
    }
    lemma_in_country_from_jurisdiction(spec_vi_regulators(), "us-vi"@, "us"@);
}

/// The licence types of `as_license_types` are complete, granted by its regulators, and
/// each of its regulators grants at least one of them.
proof fn lemma_as_group()
    ensures
        license_types_complete(spec_as_license_types()),
        granted_by_listed_regulators(spec_as_license_types(), spec_as_regulators()),
        every_regulator_grants(spec_as_license_types(), spec_as_regulators()),
        regulators_in_country(spec_as_regulators(), "us"@),
{
    lemma_state_group(
        "American Samoa"@,
        "us-as"@,
        "American Samoa Commerce Department"@,
        "American Samoa Banking Board"@,
        "American Samoa Insurance Commissioner"@,
        "American Samoa Securities"@,
        "https://www.americansamoa.gov"@,
        "https://www.americansamoa.gov"@,
    );
    assert(has_prefix("us-as"@, "us"@)) by {
        reveal_strlit("us-as");
        reveal_strlit("us");
        assert("us-as"@.subrange(0, 2) =~= "us"@);
    }
    lemma_in_country_from_jurisdiction(spec_as_regulators(), "us-as"@, "us"@);
}

/// The licence types of `mp_license_types` are complete, granted by its regulators, and
/// each of its regulators grants at least one of them.
proof fn lemma_mp_group()
    ensures
        license_types_complete(spec_mp_license_types()),
        granted_by_listed_regulators(spec_mp_license_types(), spec_mp_regulators()),
        every_regulator_grants(spec_mp_license_types(), spec_mp_regulators()),
        regulators_in_country(spec_mp_regulators(), "us"@),
{
    lemma_state_group(
        "Northern Mariana Islands"@,
        "us-mp"@,
        "CNMI Department of Commerce"@,
        "CNMI Banking Commissioner"@,
        "CNMI Insurance Commissioner"@,
        "CNMI Securities Division"@,
        "https://commerce.gov.mp"@,
        "https://commerce.gov.mp"@,
    );
    assert(has_prefix("us-mp"@, "us"@)) by {
        reveal_strlit("us-mp");
        reveal_strlit("us");
        assert("us-mp"@.subrange(0, 2) =~= "us"@);
    }
    lemma_in_country_from_jurisdiction(spec_mp_regulators(), "us-mp"@, "us"@);
}

/// The catalog of the United States is consistent: every licence type has a
/// non-empty identifier, name, description and regulator identifier, a
/// category, and at least one permitted activity; every licence type is
/// granted by one of its regulators; every regulator grants at least one
/// licence type; every regulator belongs to a jurisdiction whose identifier
/// starts with `us`.
pub proof fn lemma_united_states_catalog_consistent()
    ensures
        license_types_complete(spec_us_license_types()),
        granted_by_listed_regulators(spec_us_license_types(), spec_us_regulators()),
        every_regulator_grants(spec_us_license_types(), spec_us_regulators()),
        regulators_in_country(spec_us_regulators(), "us"@),
{
    lemma_ny_group();
    let t = spec_ny_license_types();
    let r = spec_ny_regulators();
    lemma_ca_group();
    let t2 = spec_ca_license_types();
    let r2 = spec_ca_regulators();
    lemma_complete_append(t, t2);
    lemma_granted_combine(t, r, t2, r2);
    lemma_every_combine(t, r, t2, r2);
    lemma_in_country_append(r, r2, "us"@);
    let t = t + t2;
    let r = r + r2;
    lemma_de_group();
    let t2 = spec_de_license_types();
    let r2 = spec_de_regulators();
    lemma_complete_append(t, t2);
    lemma_granted_combine(t, r, t2, r2);
    lemma_every_combine(t, r, t2, r2);
    lemma_in_country_append(r, r2, "us"@);
    let t = t + t2;
    let r = r + r2;
    lemma_wy_group();
    let t2 = spec_wy_license_types();
    let r2 = spec_wy_regulators();
    lemma_complete_append(t, t2);
    lemma_granted_combine(t, r, t2, r2);
    lemma_every_combine(t, r, t2, r2);
    lemma_in_country_append(r, r2, "us"@);
    let t = t + t2;
    let r = r + r2;
    lemma_tx_group();
    let t2 = spec_tx_license_types();
    let r2 = spec_tx_regulators();
    lemma_complete_append(t, t2);
    lemma_granted_combine(t, r, t2, r2);
    lemma_every_combine(t, r, t2, r2);
    lemma_in_country_append(r, r2, "us"@);
    let t = t + t2;
    let r = r + r2;
    lemma_fl_group();
    let t2 = spec_fl_license_types();
    let r2 = spec_fl_regulators();
    lemma_complete_append(t, t2);
    lemma_granted_combine(t, r, t2, r2);
    lemma_every_combine(t, r, t2, r2);
    lemma_in_country_append(r, r2, "us"@);
    let t = t + t2;
    let r = r + r2;
    lemma_nv_group();
    let t2 = spec_nv_license_types();
    let r2 = spec_nv_regulators();
    lemma_complete_append(t, t2);
    lemma_granted_combine(t, r, t2, r2);
    lemma_every_combine(t, r, t2, r2);
    lemma_in_country_append(r, r2, "us"@);
    let t = t + t2;
    let r = r + r2;
    lemma_il_group();
    let t2 = spec_il_license_types();
    let r2 = spec_il_regulators();
    lemma_complete_append(t, t2);
    lemma_granted_combine(t, r, t2, r2);
    lemma_every_combine(t, r, t2, r2);
    lemma_in_country_append(r, r2, "us"@);
    let t = t + t2;
    let r = r + r2;
    lemma_al_group();
    let t2 = spec_al_license_types();
    let r2 = spec_al_regulators();
    lemma_complete_append(t, t2);
    lemma_granted_combine(t, r, t2, r2);
    lemma_every_combine(t, r, t2, r2);
    lemma_in_country_append(r, r2, "us"@);
    let t = t + t2;
    let r = r + r2;
    lemma_ak_group();
    let t2 = spec_ak_license_types();
    let r2 = spec_ak_regulators();
    lemma_complete_append(t, t2);
    lemma_granted_combine(t, r, t2, r2);
    lemma_every_combine(t, r, t2, r2);
    lemma_in_country_append(r, r2, "us"@);
    let t = t + t2;
    let r = r + r2;
    lemma_az_group();
    let t2 = spec_az_license_types();
    let r2 = spec_az_regulators();
    lemma_complete_append(t, t2);
    lemma_granted_combine(t, r, t2, r2);
    lemma_every_combine(t, r, t2, r2);
    lemma_in_country_append(r, r2, "us"@);
    let t = t + t2;
    let r = r + r2;
    lemma_ar_group();
    let t2 = spec_ar_license_types();
    let r2 = spec_ar_regulators();
    lemma_complete_append(t, t2);
    lemma_granted_combine(t, r, t2, r2);
    lemma_every_combine(t, r, t2, r2);
    lemma_in_country_append(r, r2, "us"@);
    let t = t + t2;
    let r = r + r2;
    lemma_co_group();
    let t2 = spec_co_license_types();
    let r2 = spec_co_regulators();
    lemma_complete_append(t, t2);
    lemma_granted_combine(t, r, t2, r2);
    lemma_every_combine(t, r, t2, r2);
    lemma_in_country_append(r, r2, "us"@);
    let t = t + t2;
    let r = r + r2;
    lemma_ct_group();
    let t2 = spec_ct_license_types();
    let r2 = spec_ct_regulators();
    lemma_complete_append(t, t2);
    lemma_granted_combine(t, r, t2, r2);
    lemma_every_combine(t, r, t2, r2);
    lemma_in_country_append(r, r2, "us"@);
    let t = t + t2;
    let r = r + r2;
    lemma_ga_group();
    let t2 = spec_ga_license_types();
    let r2 = spec_ga_regulators();
    lemma_complete_append(t, t2);
    lemma_granted_combine(t, r, t2, r2);
    lemma_every_combine(t, r, t2, r2);
    lemma_in_country_append(r, r2, "us"@);
    let t = t + t2;
    let r = r + r2;
    lemma_hi_group();
    let t2 = spec_hi_license_types();
    let r2 = spec_hi_regulators();
    lemma_complete_append(t, t2);
    lemma_granted_combine(t, r, t2, r2);
    lemma_every_combine(t, r, t2, r2);
    lemma_in_country_append(r, r2, "us"@);
    let t = t + t2;
    let r = r + r2;
    lemma_id_group();
    let t2 = spec_id_license_types();
    let r2 = spec_id_regulators();
    lemma_complete_append(t, t2);
    lemma_granted_combine(t, r, t2, r2);
    lemma_every_combine(t, r, t2, r2);
    lemma_in_country_append(r, r2, "us"@);
    let t = t + t2;
    let r = r + r2;
    lemma_in_group();
    let t2 = spec_in_license_types();
    let r2 = spec_in_regulators();
    lemma_complete_append(t, t2);
    lemma_granted_combine(t, r, t2, r2);
    lemma_every_combine(t, r, t2, r2);
    lemma_in_country_append(r, r2, "us"@);
    let t = t + t2;
    let r = r + r2;
    lemma_ia_group();
    let t2 = spec_ia_license_types();
    let r2 = spec_ia_regulators();
    lemma_complete_append(t, t2);
    lemma_granted_combine(t, r, t2, r2);
    lemma_every_combine(t, r, t2, r2);
    lemma_in_country_append(r, r2, "us"@);
    let t = t + t2;
    let r = r + r2;
    lemma_ks_group();
    let t2 = spec_ks_license_types();
    let r2 = spec_ks_regulators();
    lemma_complete_append(t, t2);
    lemma_granted_combine(t, r, t2, r2);
    lemma_every_combine(t, r, t2, r2);
    lemma_in_country_append(r, r2, "us"@);
    let t = t + t2;
    let r = r + r2;
    lemma_ky_group();
    let t2 = spec_ky_license_types();
    let r2 = spec_ky_regulators();
    lemma_complete_append(t, t2);
    lemma_granted_combine(t, r, t2, r2);
    lemma_every_combine(t, r, t2, r2);
    lemma_in_country_append(r, r2, "us"@);
    let t = t + t2;
    let r = r + r2;
    lemma_la_group();
    let t2 = spec_la_license_types();
    let r2 = spec_la_regulators();
    lemma_complete_append(t, t2);
    lemma_granted_combine(t, r, t2, r2);
    lemma_every_combine(t, r, t2, r2);
    lemma_in_country_append(r, r2, "us"@);
    let t = t + t2;
    let r = r + r2;
    lemma_me_group();
    let t2 = spec_me_license_types();
    let r2 = spec_me_regulators();
    lemma_complete_append(t, t2);
    lemma_granted_combine(t, r, t2, r2);
    lemma_every_combine(t, r, t2, r2);
    lemma_in_country_append(r, r2, "us"@);
    let t = t + t2;
    let r = r + r2;
    lemma_md_group();
    let t2 = spec_md_license_types();
    let r2 = spec_md_regulators();
    lemma_complete_append(t, t2);
    lemma_granted_combine(t, r, t2, r2);
    lemma_every_combine(t, r, t2, r2);
    lemma_in_country_append(r, r2, "us"@);
    let t = t + t2;
    let r = r + r2;
    lemma_ma_group();
    let t2 = spec_ma_license_types();
    let r2 = spec_ma_regulators();
    lemma_complete_append(t, t2);
    lemma_granted_combine(t, r, t2, r2);
    lemma_every_combine(t, r, t2, r2);
    lemma_in_country_append(r, r2, "us"@);
    let t = t + t2;
    let r = r + r2;
    lemma_mi_group();
    let t2 = spec_mi_license_types();
    let r2 = spec_mi_regulators();
    lemma_complete_append(t, t2);
    lemma_granted_combine(t, r, t2, r2);
    lemma_every_combine(t, r, t2, r2);
    lemma_in_country_append(r, r2, "us"@);
    let t = t + t2;
    let r = r + r2;
    lemma_mn_group();
    let t2 = spec_mn_license_types();
    let r2 = spec_mn_regulators();
    lemma_complete_append(t, t2);
    lemma_granted_combine(t, r, t2, r2);
    lemma_every_combine(t, r, t2, r2);
    lemma_in_country_append(r, r2, "us"@);
    let t = t + t2;
    let r = r + r2;
    lemma_ms_group();
    let t2 = spec_ms_license_types();
    let r2 = spec_ms_regulators();
    lemma_complete_append(t, t2);
    lemma_granted_combine(t, r, t2, r2);
    lemma_every_combine(t, r, t2, r2);
    lemma_in_country_append(r, r2, "us"@);
    let t = t + t2;
    let r = r + r2;
    lemma_mo_group();
    let t2 = spec_mo_license_types();
    let r2 = spec_mo_regulators();
    lemma_complete_append(t, t2);
    lemma_granted_combine(t, r, t2, r2);
    lemma_every_combine(t, r, t2, r2);
    lemma_in_country_append(r, r2, "us"@);
    let t = t + t2;
    let r = r + r2;
    lemma_mt_group();
    let t2 = spec_mt_license_types();
    let r2 = spec_mt_regulators();
    lemma_complete_append(t, t2);
    lemma_granted_combine(t, r, t2, r2);
    lemma_every_combine(t, r, t2, r2);
    lemma_in_country_append(r, r2, "us"@);
    let t = t + t2;
    let r = r + r2;
    lemma_ne_group();
    let t2 = spec_ne_license_types();
    let r2 = spec_ne_regulators();
    lemma_complete_append(t, t2);
    lemma_granted_combine(t, r, t2, r2);
    lemma_every_combine(t, r, t2, r2);
    lemma_in_country_append(r, r2, "us"@);
    let t = t + t2;
    let r = r + r2;
    lemma_nh_group();
    let t2 = spec_nh_license_types();
    let r2 = spec_nh_regulators();
    lemma_complete_append(t, t2);
    lemma_granted_combine(t, r, t2, r2);
    lemma_every_combine(t, r, t2, r2);
    lemma_in_country_append(r, r2, "us"@);
    let t = t + t2;
    let r = r + r2;
    lemma_nj_group();
    let t2 = spec_nj_license_types();
    let r2 = spec_nj_regulators();
    lemma_complete_append(t, t2);
    lemma_granted_combine(t, r, t2, r2);
    lemma_every_combine(t, r, t2, r2);
    lemma_in_country_append(r, r2, "us"@);
    let t = t + t2;
    let r = r + r2;
    lemma_nm_group();
    let t2 = spec_nm_license_types();
    let r2 = spec_nm_regulators();
    lemma_complete_append(t, t2);
    lemma_granted_combine(t, r, t2, r2);
    lemma_every_combine(t, r, t2, r2);
    lemma_in_country_append(r, r2, "us"@);
    let t = t + t2;
    let r = r + r2;
    lemma_nc_group();
    let t2 = spec_nc_license_types();
    let r2 = spec_nc_regulators();
    lemma_complete_append(t, t2);
    lemma_granted_combine(t, r, t2, r2);
    lemma_every_combine(t, r, t2, r2);
    lemma_in_country_append(r, r2, "us"@);
    let t = t + t2;
    let r = r + r2;
    lemma_nd_group();
    let t2 = spec_nd_license_types();
    let r2 = spec_nd_regulators();
    lemma_complete_append(t, t2);
    lemma_granted_combine(t, r, t2, r2);
    lemma_every_combine(t, r, t2, r2);
    lemma_in_country_append(r, r2, "us"@);
    let t = t + t2;
    let r = r + r2;
    lemma_oh_group();
    let t2 = spec_oh_license_types();
    let r2 = spec_oh_regulators();
    lemma_complete_append(t, t2);
    lemma_granted_combine(t, r, t2, r2);
    lemma_every_combine(t, r, t2, r2);
    lemma_in_country_append(r, r2, "us"@);
    let t = t + t2;
    let r = r + r2;
    lemma_ok_group();
    let t2 = spec_ok_license_types();
    let r2 = spec_ok_regulators();
    lemma_complete_append(t, t2);
    lemma_granted_combine(t, r, t2, r2);
    lemma_every_combine(t, r, t2, r2);
    lemma_in_country_append(r, r2, "us"@);
    let t = t + t2;
    let r = r + r2;
    lemma_or_group();
    let t2 = spec_or_license_types();
    let r2 = spec_or_regulators();
    lemma_complete_append(t, t2);
    lemma_granted_combine(t, r, t2, r2);
    lemma_every_combine(t, r, t2, r2);
    lemma_in_country_append(r, r2, "us"@);
    let t = t + t2;
    let r = r + r2;
    lemma_pa_group();
    let t2 = spec_pa_license_types();
    let r2 = spec_pa_regulators();
    lemma_complete_append(t, t2);
    lemma_granted_combine(t, r, t2, r2);
    lemma_every_combine(t, r, t2, r2);
    lemma_in_country_append(r, r2, "us"@);
    let t = t + t2;
    let r = r + r2;
    lemma_ri_group();
    let t2 = spec_ri_license_types();
    let r2 = spec_ri_regulators();
    lemma_complete_append(t, t2);
    lemma_granted_combine(t, r, t2, r2);
    lemma_every_combine(t, r, t2, r2);
    lemma_in_country_append(r, r2, "us"@);
    let t = t + t2;
    let r = r + r2;
    lemma_sc_group();
    let t2 = spec_sc_license_types();
    let r2 = spec_sc_regulators();
    lemma_complete_append(t, t2);
    lemma_granted_combine(t, r, t2, r2);
    lemma_every_combine(t, r, t2, r2);
    lemma_in_country_append(r, r2, "us"@);
    let t = t + t2;
    let r = r + r2;
    lemma_sd_group();
    let t2 = spec_sd_license_types();
    let r2 = spec_sd_regulators();
    lemma_complete_append(t, t2);
    lemma_granted_combine(t, r, t2, r2);
    lemma_every_combine(t, r, t2, r2);
    lemma_in_country_append(r, r2, "us"@);
    let t = t + t2;
    let r = r + r2;
    lemma_tn_group();
    let t2 = spec_tn_license_types();
    let r2 = spec_tn_regulators();
    lemma_complete_append(t, t2);
    lemma_granted_combine(t, r, t2, r2);
    lemma_every_combine(t, r, t2, r2);
    lemma_in_country_append(r, r2, "us"@);
    let t = t + t2;
    let r = r + r2;
    lemma_ut_group();
    let t2 = spec_ut_license_types();
    let r2 = spec_ut_regulators();
    lemma_complete_append(t, t2);
    lemma_granted_combine(t, r, t2, r2);
    lemma_every_combine(t, r, t2, r2);
    lemma_in_country_append(r, r2, "us"@);
    let t = t + t2;
    let r = r + r2;
    lemma_vt_group();
    let t2 = spec_vt_license_types();
    let r2 = spec_vt_regulators();
    lemma_complete_append(t, t2);
    lemma_granted_combine(t, r, t2, r2);
    lemma_every_combine(t, r, t2, r2);
    lemma_in_country_append(r, r2, "us"@);
    let t = t + t2;
    let r = r + r2;
    lemma_va_group();
    let t2 = spec_va_license_types();
    let r2 = spec_va_regulators();
    lemma_complete_append(t, t2);
    lemma_granted_combine(t, r, t2, r2);
    lemma_every_combine(t, r, t2, r2);
    lemma_in_country_append(r, r2, "us"@);
    let t = t + t2;
    let r = r + r2;
    lemma_wa_group();
    let t2 = spec_wa_license_types();
    let r2 = spec_wa_regulators();
    lemma_complete_append(t, t2);
    lemma_granted_combine(t, r, t2, r2);
    lemma_every_combine(t, r, t2, r2);
    lemma_in_country_append(r, r2, "us"@);
    let t = t + t2;
    let r = r + r2;
    lemma_wv_group();
    let t2 = spec_wv_license_types();
    let r2 = spec_wv_regulators();
    lemma_complete_append(t, t2);
    lemma_granted_combine(t, r, t2, r2);
    lemma_every_combine(t, r, t2, r2);
    lemma_in_country_append(r, r2, "us"@);
    let t = t + t2;
    let r = r + r2;
    lemma_wi_group();
    let t2 = spec_wi_license_types();
    let r2 = spec_wi_regulators();
    lemma_complete_append(t, t2);
    lemma_granted_combine(t, r, t2, r2);
    lemma_every_combine(t, r, t2, r2);
    lemma_in_country_append(r, r2, "us"@);
    let t = t + t2;
    let r = r + r2;
    lemma_dc_group();
    let t2 = spec_dc_license_types();
    let r2 = spec_dc_regulators();
    lemma_complete_append(t, t2);
    lemma_granted_combine(t, r, t2, r2);
    lemma_every_combine(t, r, t2, r2);
    lemma_in_country_append(r, r2, "us"@);
    let t = t + t2;
    let r = r + r2;
    lemma_pr_group();
    let t2 = spec_pr_license_types();
    let r2 = spec_pr_regulators();
    lemma_complete_append(t, t2);
    lemma_granted_combine(t, r, t2, r2);
    lemma_every_combine(t, r, t2, r2);
    lemma_in_country_append(r, r2, "us"@);
    let t = t + t2;
    let r = r + r2;
    lemma_gu_group();
    let t2 = spec_gu_license_types();
    let r2 = spec_gu_regulators();
    lemma_complete_append(t, t2);
    lemma_granted_combine(t, r, t2, r2);
    lemma_every_combine(t, r, t2, r2);
    lemma_in_country_append(r, r2, "us"@);
    let t = t + t2;
    let r = r + r2;
    lemma_vi_group();
    let t2 = spec_vi_license_types();
    let r2 = spec_vi_regulators();
    lemma_complete_append(t, t2);
    lemma_granted_combine(t, r, t2, r2);
    lemma_every_combine(t, r, t2, r2);
    lemma_in_country_append(r, r2, "us"@);
    let t = t + t2;
    let r = r + r2;
    lemma_as_group();
    let t2 = spec_as_license_types();
    let r2 = spec_as_regulators();
    lemma_complete_append(t, t2);
    lemma_granted_combine(t, r, t2, r2);
    lemma_every_combine(t, r, t2, r2);
    lemma_in_country_append(r, r2, "us"@);
    let t = t + t2;
    let r = r + r2;
    lemma_mp_group();
    let t2 = spec_mp_license_types();
    let r2 = spec_mp_regulators();
    lemma_complete_append(t, t2);
    lemma_granted_combine(t, r, t2, r2);
    lemma_every_combine(t, r, t2, r2);
    lemma_in_country_append(r, r2, "us"@);
    let t = t + t2;
    let r = r + r2;
    assert(spec_us_license_types() == t);
    assert(spec_us_regulators() == r);
}

/// The two letters after `us-` in a licence-type identifier, as one number.
spec fn state_code(id: Seq<char>) -> int {
    (id[3] as int) * 0x110000 + (id[4] as int)
}

/// Every licence type of `ts` has an identifier of at least five characters
/// whose state code is `c`.
spec fn all_state_code(ts: Seq<LicenseTypeView>, c: int) -> bool {
    forall|i: int| 0 <= i < ts.len() ==> (#[trigger] ts[i]).license_type_id.len() >= 5 && state_code(ts[i].license_type_id) == c
}

/// Element-by-element form of [`all_state_code`].
spec fn state_code_each(ts: Seq<LicenseTypeView>, c: int) -> bool
    decreases ts.len(),
{
    ts.len() == 0 || (ts.last().license_type_id.len() >= 5 && state_code(ts.last().license_type_id) == c && state_code_each(ts.drop_last(), c))
}

/// Every licence type of `ts` has an identifier of at least five characters
/// whose state code is in `s`.
spec fn state_codes_in(ts: Seq<LicenseTypeView>, s: Set<int>) -> bool {
    forall|i: int| 0 <= i < ts.len() ==> (#[trigger] ts[i]).license_type_id.len() >= 5 && s.contains(state_code(ts[i].license_type_id))
}

proof fn lemma_state_code_each(ts: Seq<LicenseTypeView>, c: int)
    requires
        state_code_each(ts, c),
    ensures
        all_state_code(ts, c),
    decreases ts.len(),
{
    if ts.len() > 0 {
        lemma_state_code_each(ts.drop_last(), c);
        assert forall|i: int| 0 <= i < ts.len() implies (#[trigger] ts[i]).license_type_id.len() >= 5 && state_code(ts[i].license_type_id) == c by {
            if i < ts.len() - 1 {
                assert(ts[i] == ts.drop_last()[i]);
            }
        }
    }
}

/// Licence types of different state codes share no identifier.
proof fn lemma_apart_by_state_code(a: Seq<LicenseTypeView>, s: Set<int>, b: Seq<LicenseTypeView>, c: int)
    requires
        state_codes_in(a, s),
        all_state_code(b, c),
        !s.contains(c),
    ensures
        license_type_ids_apart(a, b),
{
    assert forall|i: int, j: int| 0 <= i < a.len() && 0 <= j < b.len() implies (#[trigger] a[i]).license_type_id != (#[trigger] b[j]).license_type_id by {
        assert(s.contains(state_code(a[i].license_type_id)));
        assert(state_code(b[j].license_type_id) == c);
    }
}

proof fn lemma_state_codes_append(a: Seq<LicenseTypeView>, s: Set<int>, b: Seq<LicenseTypeView>, c: int)
    requires
        state_codes_in(a, s),
        all_state_code(b, c),
    ensures
        state_codes_in(a + b, s.insert(c)),
{
    assert forall|i: int| 0 <= i < (a + b).len() implies (#[trigger] (a + b)[i]).license_type_id.len() >= 5 && s.insert(c).contains(state_code((a + b)[i].license_type_id)) by {
        if i < a.len() {
            assert((a + b)[i] == a[i]);
        } else {
            assert((a + b)[i] == b[i - a.len()]);
        }
    }
}

/// A state's standard licence types have distinct identifiers, all with the
/// state code of `jid`.
proof fn lemma_state_ids(st: Seq<char>, jid: Seq<char>)
    requires
        jid.len() == 5,
    ensures
        license_type_ids_distinct(spec_state_license_types(st, jid)),
        all_state_code(spec_state_license_types(st, jid), state_code(jid)),
{
    let t = spec_state_license_types(st, jid);
    let n = jid.len() as int;
    assert(ids_distinct_each(t)) by {
        reveal_strlit("-sos:corp-registration");
        reveal_strlit("-sos:llc-registration");
        reveal_strlit("-bank:money-transmitter");
        reveal_strlit("-ins:insurance-producer");
        reveal_strlit("-sec:broker-dealer");
        reveal_strlit("-sec:investment-adviser");
        assert(t[0].license_type_id[n + 5] != t[1].license_type_id[n + 5]);
        assert(t[0].license_type_id[n + 1] != t[2].license_type_id[n + 1]);
        assert(t[1].license_type_id[n + 1] != t[2].license_type_id[n + 1]);
        assert(t[0].license_type_id[n + 1] != t[3].license_type_id[n + 1]);
        assert(t[1].license_type_id[n + 1] != t[3].license_type_id[n + 1]);
        assert(t[2].license_type_id[n + 1] != t[3].license_type_id[n + 1]);
        assert(t[0].license_type_id[n + 2] != t[4].license_type_id[n + 2]);
        assert(t[1].license_type_id[n + 2] != t[4].license_type_id[n + 2]);
        assert(t[2].license_type_id[n + 1] != t[4].license_type_id[n + 1]);
        assert(t[3].license_type_id[n + 1] != t[4].license_type_id[n + 1]);
        assert(t[0].license_type_id[n + 2] != t[5].license_type_id[n + 2]);
        assert(t[1].license_type_id[n + 2] != t[5].license_type_id[n + 2]);
        assert(t[2].license_type_id[n + 1] != t[5].license_type_id[n + 1]);
        assert(t[3].license_type_id[n + 1] != t[5].license_type_id[n + 1]);
        assert(t[4].license_type_id[n + 5] != t[5].license_type_id[n + 5]);
        reveal_with_fuel(ids_distinct_each, 7);
        reveal_with_fuel(id_fresh_each, 7);
    }
    lemma_ids_distinct_each(t);
    assert(state_code_each(t, state_code(jid))) by {
        reveal_strlit("-sos:corp-registration");
        reveal_strlit("-sos:llc-registration");
        reveal_strlit("-bank:money-transmitter");
        reveal_strlit("-ins:insurance-producer");
        reveal_strlit("-sec:broker-dealer");
        reveal_strlit("-sec:investment-adviser");
        assert(t[0].license_type_id[3] == jid[3] && t[0].license_type_id[4] == jid[4]);
        assert(t[1].license_type_id[3] == jid[3] && t[1].license_type_id[4] == jid[4]);
        assert(t[2].license_type_id[3] == jid[3] && t[2].license_type_id[4] == jid[4]);
        assert(t[3].license_type_id[3] == jid[3] && t[3].license_type_id[4] == jid[4]);
        assert(t[4].license_type_id[3] == jid[3] && t[4].license_type_id[4] == jid[4]);
        assert(t[5].license_type_id[3] == jid[3] && t[5].license_type_id[4] == jid[4]);
        reveal_with_fuel(state_code_each, 7);
    }
    lemma_state_code_each(t, state_code(jid));
}

/// No two licence types of `ny_license_types` share an identifier, and all
/// carry its state code.
proof fn lemma_ny_ids()
    ensures
        license_type_ids_distinct(spec_ny_license_types()),
        all_state_code(spec_ny_license_types(), 122552441),
{
    let t = spec_ny_license_types();
    assert(ids_distinct_each(t)) by {
        reveal_strlit("us-ny-ag-sec:broker-dealer");
        reveal_strlit("us-ny-ag-sec:investment-adviser");
        reveal_strlit("us-ny-dfs-ins:insurance-producer");
        reveal_strlit("us-ny-dfs:banking-charter");
        reveal_strlit("us-ny-dfs:bitlicense");
        reveal_strlit("us-ny-dfs:lending-license");
        reveal_strlit("us-ny-dfs:money-transmitter");
        reveal_strlit("us-ny-dos:corp-registration");
        reveal_strlit("us-ny-dos:llc-registration");
        assert(t[0].license_type_id[10] != t[1].license_type_id[10]);
        assert(t[0].license_type_id[7] != t[2].license_type_id[7]);
        assert(t[1].license_type_id[7] != t[2].license_type_id[7]);
        assert(t[0].license_type_id[7] != t[3].license_type_id[7]);
        assert(t[1].license_type_id[7] != t[3].license_type_id[7]);
        assert(t[2].license_type_id[10] != t[3].license_type_id[10]);
        assert(t[0].license_type_id[7] != t[4].license_type_id[7]);
        assert(t[1].license_type_id[7] != t[4].license_type_id[7]);
        assert(t[2].license_type_id[10] != t[4].license_type_id[10]);
        assert(t[3].license_type_id[11] != t[4].license_type_id[11]);
        assert(t[0].license_type_id[7] != t[5].license_type_id[7]);
        assert(t[1].license_type_id[7] != t[5].license_type_id[7]);
        assert(t[2].license_type_id[10] != t[5].license_type_id[10]);
        assert(t[3].license_type_id[10] != t[5].license_type_id[10]);
        assert(t[4].license_type_id[10] != t[5].license_type_id[10]);
        assert(t[0].license_type_id[7] != t[6].license_type_id[7]);
        assert(t[1].license_type_id[7] != t[6].license_type_id[7]);
        assert(t[2].license_type_id[9] != t[6].license_type_id[9]);
        assert(t[3].license_type_id[9] != t[6].license_type_id[9]);
        assert(t[4].license_type_id[9] != t[6].license_type_id[9]);
        assert(t[5].license_type_id[9] != t[6].license_type_id[9]);
        assert(t[0].license_type_id[6] != t[7].license_type_id[6]);
        assert(t[1].license_type_id[6] != t[7].license_type_id[6]);
        assert(t[2].license_type_id[6] != t[7].license_type_id[6]);
        assert(t[3].license_type_id[6] != t[7].license_type_id[6]);
        assert(t[4].license_type_id[6] != t[7].license_type_id[6]);
        assert(t[5].license_type_id[6] != t[7].license_type_id[6]);
        assert(t[6].license_type_id[6] != t[7].license_type_id[6]);
        assert(t[0].license_type_id[6] != t[8].license_type_id[6]);
        assert(t[1].license_type_id[6] != t[8].license_type_id[6]);
        assert(t[2].license_type_id[6] != t[8].license_type_id[6]);
        assert(t[3].license_type_id[6] != t[8].license_type_id[6]);
        assert(t[4].license_type_id[6] != t[8].license_type_id[6]);
        assert(t[5].license_type_id[6] != t[8].license_type_id[6]);
        assert(t[6].license_type_id[6] != t[8].license_type_id[6]);
        assert(t[7].license_type_id[13] != t[8].license_type_id[13]);
        reveal_with_fuel(ids_distinct_each, 10);
        reveal_with_fuel(id_fresh_each, 10);
    }
    lemma_ids_distinct_each(t);
    assert(state_code_each(t, 122552441)) by {
        reveal_strlit("us-ny-ag-sec:broker-dealer");
        reveal_strlit("us-ny-ag-sec:investment-adviser");
        reveal_strlit("us-ny-dfs-ins:insurance-producer");
        reveal_strlit("us-ny-dfs:banking-charter");
        reveal_strlit("us-ny-dfs:bitlicense");
        reveal_strlit("us-ny-dfs:lending-license");
        reveal_strlit("us-ny-dfs:money-transmitter");
        reveal_strlit("us-ny-dos:corp-registration");
        reveal_strlit("us-ny-dos:llc-registration");
        reveal_with_fuel(state_code_each, 10);
    }
    lemma_state_code_each(t, 122552441);
}

/// No two licence types of `ca_license_types` share an identifier, and all
/// carry its state code.
proof fn lemma_ca_ids()
    ensures
        license_type_ids_distinct(spec_ca_license_types()),
        all_state_code(spec_ca_license_types(), 110297185),
{
    let t = spec_ca_license_types();
    assert(ids_distinct_each(t)) by {
        reveal_strlit("us-ca-cdi:insurance-producer");
        reveal_strlit("us-ca-dbo-sec:broker-dealer");
        reveal_strlit("us-ca-dbo-sec:investment-adviser");
        reveal_strlit("us-ca-dfpi:casl");
        reveal_strlit("us-ca-dfpi:lending-license");
        reveal_strlit("us-ca-dfpi:money-transmitter");
        reveal_strlit("us-ca-sos:corp-registration");
        reveal_strlit("us-ca-sos:llc-registration");
        assert(t[0].license_type_id[10] != t[1].license_type_id[10]);
        assert(t[0].license_type_id[6] != t[2].license_type_id[6]);
        assert(t[1].license_type_id[6] != t[2].license_type_id[6]);
        assert(t[0].license_type_id[6] != t[3].license_type_id[6]);
        assert(t[1].license_type_id[6] != t[3].license_type_id[6]);
        assert(t[2].license_type_id[11] != t[3].license_type_id[11]);
        assert(t[0].license_type_id[6] != t[4].license_type_id[6]);
        assert(t[1].license_type_id[6] != t[4].license_type_id[6]);
        assert(t[2].license_type_id[11] != t[4].license_type_id[11]);
        assert(t[3].license_type_id[11] != t[4].license_type_id[11]);
        assert(t[0].license_type_id[6] != t[5].license_type_id[6]);
        assert(t[1].license_type_id[6] != t[5].license_type_id[6]);
        assert(t[2].license_type_id[6] != t[5].license_type_id[6]);
        assert(t[3].license_type_id[6] != t[5].license_type_id[6]);
        assert(t[4].license_type_id[6] != t[5].license_type_id[6]);
        assert(t[0].license_type_id[6] != t[6].license_type_id[6]);
        assert(t[1].license_type_id[6] != t[6].license_type_id[6]);
        assert(t[2].license_type_id[7] != t[6].license_type_id[7]);
        assert(t[3].license_type_id[7] != t[6].license_type_id[7]);
        assert(t[4].license_type_id[7] != t[6].license_type_id[7]);
        assert(t[5].license_type_id[6] != t[6].license_type_id[6]);
        assert(t[0].license_type_id[6] != t[7].license_type_id[6]);
        assert(t[1].license_type_id[6] != t[7].license_type_id[6]);
        assert(t[2].license_type_id[7] != t[7].license_type_id[7]);
        assert(t[3].license_type_id[7] != t[7].license_type_id[7]);
        assert(t[4].license_type_id[7] != t[7].license_type_id[7]);
        assert(t[5].license_type_id[6] != t[7].license_type_id[6]);
        assert(t[6].license_type_id[14] != t[7].license_type_id[14]);
        reveal_with_fuel(ids_distinct_each, 9);
        reveal_with_fuel(id_fresh_each, 9);
    }
    lemma_ids_distinct_each(t);
    assert(state_code_each(t, 110297185)) by {
        reveal_strlit("us-ca-cdi:insurance-producer");
        reveal_strlit("us-ca-dbo-sec:broker-dealer");
        reveal_strlit("us-ca-dbo-sec:investment-adviser");
        reveal_strlit("us-ca-dfpi:casl");
        reveal_strlit("us-ca-dfpi:lending-license");
        reveal_strlit("us-ca-dfpi:money-transmitter");
        reveal_strlit("us-ca-sos:corp-registration");
        reveal_strlit("us-ca-sos:llc-registration");
        reveal_with_fuel(state_code_each, 9);
    }
    lemma_state_code_each(t, 110297185);
}

/// No two licence types of `de_license_types` share an identifier, and all
/// carry its state code.
proof fn lemma_de_ids()
    ensures
        license_type_ids_distinct(spec_de_license_types()),
        all_state_code(spec_de_license_types(), 111411301),
{
    let t = spec_de_license_types();
    assert(ids_distinct_each(t)) by {
        reveal_strlit("us-de-doi:insurance-producer");
        reveal_strlit("us-de-dos:corp-registration");
        reveal_strlit("us-de-dos:llc-registration");
        reveal_strlit("us-de-dos:lp-registration");
        reveal_strlit("us-de-osbc:banking-charter");
        reveal_strlit("us-de-osbc:money-transmitter");
        reveal_strlit("us-de-sec:broker-dealer");
        assert(t[0].license_type_id[10] != t[1].license_type_id[10]);
        assert(t[0].license_type_id[10] != t[2].license_type_id[10]);
        assert(t[1].license_type_id[11] != t[2].license_type_id[11]);
        assert(t[0].license_type_id[6] != t[3].license_type_id[6]);
        assert(t[1].license_type_id[6] != t[3].license_type_id[6]);
        assert(t[2].license_type_id[6] != t[3].license_type_id[6]);
        assert(t[0].license_type_id[6] != t[4].license_type_id[6]);
        assert(t[1].license_type_id[6] != t[4].license_type_id[6]);
        assert(t[2].license_type_id[6] != t[4].license_type_id[6]);
        assert(t[3].license_type_id[11] != t[4].license_type_id[11]);
        assert(t[0].license_type_id[8] != t[5].license_type_id[8]);
        assert(t[1].license_type_id[8] != t[5].license_type_id[8]);
        assert(t[2].license_type_id[8] != t[5].license_type_id[8]);
        assert(t[3].license_type_id[6] != t[5].license_type_id[6]);
        assert(t[4].license_type_id[6] != t[5].license_type_id[6]);
        assert(t[0].license_type_id[6] != t[6].license_type_id[6]);
        assert(t[1].license_type_id[6] != t[6].license_type_id[6]);
        assert(t[2].license_type_id[6] != t[6].license_type_id[6]);
        assert(t[3].license_type_id[6] != t[6].license_type_id[6]);
        assert(t[4].license_type_id[6] != t[6].license_type_id[6]);
        assert(t[5].license_type_id[6] != t[6].license_type_id[6]);
        reveal_with_fuel(ids_distinct_each, 8);
        reveal_with_fuel(id_fresh_each, 8);
    }
    lemma_ids_distinct_each(t);
    assert(state_code_each(t, 111411301)) by {
        reveal_strlit("us-de-doi:insurance-producer");
        reveal_strlit("us-de-dos:corp-registration");
        reveal_strlit("us-de-dos:llc-registration");
        reveal_strlit("us-de-dos:lp-registration");
        reveal_strlit("us-de-osbc:banking-charter");
        reveal_strlit("us-de-osbc:money-transmitter");
        reveal_strlit("us-de-sec:broker-dealer");
        reveal_with_fuel(state_code_each, 8);
    }
    lemma_state_code_each(t, 111411301);
}

/// No two licence types of `wy_license_types` share an identifier, and all
/// carry its state code.
proof fn lemma_wy_ids()
    ensures
        license_type_ids_distinct(spec_wy_license_types()),
        all_state_code(spec_wy_license_types(), 132579449),
{
    let t = spec_wy_license_types();
    assert(ids_distinct_each(t)) by {
        reveal_strlit("us-wy-dob:money-transmitter");
        reveal_strlit("us-wy-dob:spdi-charter");
        reveal_strlit("us-wy-doi:insurance-producer");
        reveal_strlit("us-wy-sec:broker-dealer");
        reveal_strlit("us-wy-sos:corp-registration");
        reveal_strlit("us-wy-sos:dao-llc");
        reveal_strlit("us-wy-sos:llc-registration");
        assert(t[0].license_type_id[10] != t[1].license_type_id[10]);
        assert(t[0].license_type_id[10] != t[2].license_type_id[10]);
        assert(t[1].license_type_id[10] != t[2].license_type_id[10]);
        assert(t[0].license_type_id[6] != t[3].license_type_id[6]);
        assert(t[1].license_type_id[6] != t[3].license_type_id[6]);
        assert(t[2].license_type_id[6] != t[3].license_type_id[6]);
        assert(t[0].license_type_id[6] != t[4].license_type_id[6]);
        assert(t[1].license_type_id[6] != t[4].license_type_id[6]);
        assert(t[2].license_type_id[6] != t[4].license_type_id[6]);
        assert(t[3].license_type_id[10] != t[4].license_type_id[10]);
        assert(t[0].license_type_id[6] != t[5].license_type_id[6]);
        assert(t[1].license_type_id[6] != t[5].license_type_id[6]);
        assert(t[2].license_type_id[6] != t[5].license_type_id[6]);
        assert(t[3].license_type_id[8] != t[5].license_type_id[8]);
        assert(t[4].license_type_id[8] != t[5].license_type_id[8]);
        assert(t[0].license_type_id[7] != t[6].license_type_id[7]);
        assert(t[1].license_type_id[7] != t[6].license_type_id[7]);
        assert(t[2].license_type_id[7] != t[6].license_type_id[7]);
        assert(t[3].license_type_id[6] != t[6].license_type_id[6]);
        assert(t[4].license_type_id[6] != t[6].license_type_id[6]);
        assert(t[5].license_type_id[6] != t[6].license_type_id[6]);
        reveal_with_fuel(ids_distinct_each, 8);
        reveal_with_fuel(id_fresh_each, 8);
    }
    lemma_ids_distinct_each(t);
    assert(state_code_each(t, 132579449)) by {
        reveal_strlit("us-wy-dob:money-transmitter");
        reveal_strlit("us-wy-dob:spdi-charter");
        reveal_strlit("us-wy-doi:insurance-producer");
        reveal_strlit("us-wy-sec:broker-dealer");
        reveal_strlit("us-wy-sos:corp-registration");
        reveal_strlit("us-wy-sos:dao-llc");
        reveal_strlit("us-wy-sos:llc-registration");
        reveal_with_fuel(state_code_each, 8);
    }
    lemma_state_code_each(t, 132579449);
}

/// No two licence types of `tx_license_types` share an identifier, and all
/// carry its state code.
proof fn lemma_tx_ids()
    ensures
        license_type_ids_distinct(spec_tx_license_types()),
        all_state_code(spec_tx_license_types(), 129237112),
{
    let t = spec_tx_license_types();
    assert(ids_distinct_each(t)) by {
        reveal_strlit("us-tx-dob:money-transmitter");
        reveal_strlit("us-tx-sos:corp-registration");
        reveal_strlit("us-tx-sos:llc-registration");
        reveal_strlit("us-tx-tdi:insurance-producer");
        reveal_strlit("us-tx-tssb:broker-dealer");
        reveal_strlit("us-tx-tssb:investment-adviser");
        assert(t[0].license_type_id[10] != t[1].license_type_id[10]);
        assert(t[0].license_type_id[6] != t[2].license_type_id[6]);
        assert(t[1].license_type_id[6] != t[2].license_type_id[6]);
        assert(t[0].license_type_id[6] != t[3].license_type_id[6]);
        assert(t[1].license_type_id[6] != t[3].license_type_id[6]);
        assert(t[2].license_type_id[6] != t[3].license_type_id[6]);
        assert(t[0].license_type_id[6] != t[4].license_type_id[6]);
        assert(t[1].license_type_id[6] != t[4].license_type_id[6]);
        assert(t[2].license_type_id[6] != t[4].license_type_id[6]);
        assert(t[3].license_type_id[7] != t[4].license_type_id[7]);
        assert(t[0].license_type_id[6] != t[5].license_type_id[6]);
        assert(t[1].license_type_id[6] != t[5].license_type_id[6]);
        assert(t[2].license_type_id[6] != t[5].license_type_id[6]);
        assert(t[3].license_type_id[7] != t[5].license_type_id[7]);
        assert(t[4].license_type_id[11] != t[5].license_type_id[11]);
        reveal_with_fuel(ids_distinct_each, 7);
        reveal_with_fuel(id_fresh_each, 7);
    }
    lemma_ids_distinct_each(t);
    assert(state_code_each(t, 129237112)) by {
        reveal_strlit("us-tx-dob:money-transmitter");
        reveal_strlit("us-tx-sos:corp-registration");
        reveal_strlit("us-tx-sos:llc-registration");
        reveal_strlit("us-tx-tdi:insurance-producer");
        reveal_strlit("us-tx-tssb:broker-dealer");
        reveal_strlit("us-tx-tssb:investment-adviser");
        reveal_with_fuel(state_code_each, 7);
    }
    lemma_state_code_each(t, 129237112);
}

/// No two licence types of `fl_license_types` share an identifier, and all
/// carry its state code.
proof fn lemma_fl_ids()
    ensures
        license_type_ids_distinct(spec_fl_license_types()),
        all_state_code(spec_fl_license_types(), 113639532),
{
    let t = spec_fl_license_types();
    assert(ids_distinct_each(t)) by {
        reveal_strlit("us-fl-doi:insurance-producer");
        reveal_strlit("us-fl-dos:corp-registration");
        reveal_strlit("us-fl-dos:llc-registration");
        reveal_strlit("us-fl-ofr:money-services");
        reveal_strlit("us-fl-ofr:money-transmitter");
        reveal_strlit("us-fl-sec:broker-dealer");
        assert(t[0].license_type_id[10] != t[1].license_type_id[10]);
        assert(t[0].license_type_id[6] != t[2].license_type_id[6]);
        assert(t[1].license_type_id[6] != t[2].license_type_id[6]);
        assert(t[0].license_type_id[6] != t[3].license_type_id[6]);
        assert(t[1].license_type_id[6] != t[3].license_type_id[6]);
        assert(t[2].license_type_id[16] != t[3].license_type_id[16]);
        assert(t[0].license_type_id[8] != t[4].license_type_id[8]);
        assert(t[1].license_type_id[8] != t[4].license_type_id[8]);
        assert(t[2].license_type_id[6] != t[4].license_type_id[6]);
        assert(t[3].license_type_id[6] != t[4].license_type_id[6]);
        assert(t[0].license_type_id[6] != t[5].license_type_id[6]);
        assert(t[1].license_type_id[6] != t[5].license_type_id[6]);
        assert(t[2].license_type_id[6] != t[5].license_type_id[6]);
        assert(t[3].license_type_id[6] != t[5].license_type_id[6]);
        assert(t[4].license_type_id[6] != t[5].license_type_id[6]);
        reveal_with_fuel(ids_distinct_each, 7);
        reveal_with_fuel(id_fresh_each, 7);
    }
    lemma_ids_distinct_each(t);
    assert(state_code_each(t, 113639532)) by {
        reveal_strlit("us-fl-doi:insurance-producer");
        reveal_strlit("us-fl-dos:corp-registration");
        reveal_strlit("us-fl-dos:llc-registration");
        reveal_strlit("us-fl-ofr:money-services");
        reveal_strlit("us-fl-ofr:money-transmitter");
        reveal_strlit("us-fl-sec:broker-dealer");
        reveal_with_fuel(state_code_each, 7);
    }
    lemma_state_code_each(t, 113639532);
}

/// No two licence types of `nv_license_types` share an identifier, and all
/// carry its state code.
proof fn lemma_nv_ids()
    ensures
        license_type_ids_distinct(spec_nv_license_types()),
        all_state_code(spec_nv_license_types(), 122552438),
{
    let t = spec_nv_license_types();
    assert(ids_distinct_each(t)) by {
        reveal_strlit("us-nv-doi:insurance-producer");
        reveal_strlit("us-nv-fid:digital-asset-license");
        reveal_strlit("us-nv-fid:money-transmitter");
        reveal_strlit("us-nv-sec:broker-dealer");
        reveal_strlit("us-nv-sos:corp-registration");
        reveal_strlit("us-nv-sos:llc-registration");
        assert(t[0].license_type_id[10] != t[1].license_type_id[10]);
        assert(t[0].license_type_id[6] != t[2].license_type_id[6]);
        assert(t[1].license_type_id[6] != t[2].license_type_id[6]);
        assert(t[0].license_type_id[6] != t[3].license_type_id[6]);
        assert(t[1].license_type_id[6] != t[3].license_type_id[6]);
        assert(t[2].license_type_id[10] != t[3].license_type_id[10]);
        assert(t[0].license_type_id[6] != t[4].license_type_id[6]);
        assert(t[1].license_type_id[6] != t[4].license_type_id[6]);
        assert(t[2].license_type_id[6] != t[4].license_type_id[6]);
        assert(t[3].license_type_id[6] != t[4].license_type_id[6]);
        assert(t[0].license_type_id[7] != t[5].license_type_id[7]);
        assert(t[1].license_type_id[7] != t[5].license_type_id[7]);
        assert(t[2].license_type_id[6] != t[5].license_type_id[6]);
        assert(t[3].license_type_id[6] != t[5].license_type_id[6]);
        assert(t[4].license_type_id[6] != t[5].license_type_id[6]);
        reveal_with_fuel(ids_distinct_each, 7);
        reveal_with_fuel(id_fresh_each, 7);
    }
    lemma_ids_distinct_each(t);
    assert(state_code_each(t, 122552438)) by {
        reveal_strlit("us-nv-doi:insurance-producer");
        reveal_strlit("us-nv-fid:digital-asset-license");
        reveal_strlit("us-nv-fid:money-transmitter");
        reveal_strlit("us-nv-sec:broker-dealer");
        reveal_strlit("us-nv-sos:corp-registration");
        reveal_strlit("us-nv-sos:llc-registration");
        reveal_with_fuel(state_code_each, 7);
    }
    lemma_state_code_each(t, 122552438);
}

/// No two licence types of `il_license_types` share an identifier, and all
/// carry its state code.
proof fn lemma_il_ids()
    ensures
        license_type_ids_distinct(spec_il_license_types()),
        all_state_code(spec_il_license_types(), 116981868),
{
    let t = spec_il_license_types();
    assert(ids_distinct_each(t)) by {
        reveal_strlit("us-il-doi:insurance-producer");
        reveal_strlit("us-il-idfpr:money-transmitter");
        reveal_strlit("us-il-sec:broker-dealer");
        reveal_strlit("us-il-sos:corp-registration");
        reveal_strlit("us-il-sos:llc-registration");
        assert(t[0].license_type_id[10] != t[1].license_type_id[10]);
        assert(t[0].license_type_id[6] != t[2].license_type_id[6]);
        assert(t[1].license_type_id[6] != t[2].license_type_id[6]);
        assert(t[0].license_type_id[6] != t[3].license_type_id[6]);
        assert(t[1].license_type_id[6] != t[3].license_type_id[6]);
        assert(t[2].license_type_id[6] != t[3].license_type_id[6]);
        assert(t[0].license_type_id[7] != t[4].license_type_id[7]);
        assert(t[1].license_type_id[7] != t[4].license_type_id[7]);
        assert(t[2].license_type_id[6] != t[4].license_type_id[6]);
        assert(t[3].license_type_id[6] != t[4].license_type_id[6]);
        reveal_with_fuel(ids_distinct_each, 6);
        reveal_with_fuel(id_fresh_each, 6);
    }
    lemma_ids_distinct_each(t);
    assert(state_code_each(t, 116981868)) by {
        reveal_strlit("us-il-doi:insurance-producer");
        reveal_strlit("us-il-idfpr:money-transmitter");
        reveal_strlit("us-il-sec:broker-dealer");
        reveal_strlit("us-il-sos:corp-registration");
        reveal_strlit("us-il-sos:llc-registration");
        reveal_with_fuel(state_code_each, 6);
    }
    lemma_state_code_each(t, 116981868);
}

/// No two licence types of `al_license_types` share an identifier, and all
/// carry its state code.
proof fn lemma_al_ids()
    ensures
        license_type_ids_distinct(spec_al_license_types()),
        all_state_code(spec_al_license_types(), 108068972),
{
    assert("us-al"@.len() == 5 && state_code("us-al"@) == 108068972) by {
        reveal_strlit("us-al");
    }
    lemma_state_ids("Alabama"@, "us-al"@);
}

/// No two licence types of `ak_license_types` share an identifier, and all
/// carry its state code.
proof fn lemma_ak_ids()
    ensures
        license_type_ids_distinct(spec_ak_license_types()),
        all_state_code(spec_ak_license_types(), 108068971),
{
    assert("us-ak"@.len() == 5 && state_code("us-ak"@) == 108068971) by {
        reveal_strlit("us-ak");
    }
    lemma_state_ids("Alaska"@, "us-ak"@);
}

/// No two licence types of `az_license_types` share an identifier, and all
/// carry its state code.
proof fn lemma_az_ids()
    ensures
        license_type_ids_distinct(spec_az_license_types()),
        all_state_code(spec_az_license_types(), 108068986),
{
    assert("us-az"@.len() == 5 && state_code("us-az"@) == 108068986) by {
        reveal_strlit("us-az");
    }
    lemma_state_ids("Arizona"@, "us-az"@);
}

/// No two licence types of `ar_license_types` share an identifier, and all
/// carry its state code.
proof fn lemma_ar_ids()
    ensures
        license_type_ids_distinct(spec_ar_license_types()),
        all_state_code(spec_ar_license_types(), 108068978),
{
    assert("us-ar"@.len() == 5 && state_code("us-ar"@) == 108068978) by {
        reveal_strlit("us-ar");
    }
    lemma_state_ids("Arkansas"@, "us-ar"@);
}

/// No two licence types of `co_license_types` share an identifier, and all
/// carry its state code.
proof fn lemma_co_ids()
    ensures
        license_type_ids_distinct(spec_co_license_types()),
        all_state_code(spec_co_license_types(), 110297199),
{
    assert("us-co"@.len() == 5 && state_code("us-co"@) == 110297199) by {
        reveal_strlit("us-co");
    }
    lemma_state_ids("Colorado"@, "us-co"@);
}

/// No two licence types of `ct_license_types` share an identifier, and all
/// carry its state code.
proof fn lemma_ct_ids()
    ensures
        license_type_ids_distinct(spec_ct_license_types()),
        all_state_code(spec_ct_license_types(), 110297204),
{
    assert("us-ct"@.len() == 5 && state_code("us-ct"@) == 110297204) by {
        reveal_strlit("us-ct");
    }
    lemma_state_ids("Connecticut"@, "us-ct"@);
}

/// No two licence types of `ga_license_types` share an identifier, and all
/// carry its state code.
proof fn lemma_ga_ids()
    ensures
        license_type_ids_distinct(spec_ga_license_types()),
        all_state_code(spec_ga_license_types(), 114753633),
{
    assert("us-ga"@.len() == 5 && state_code("us-ga"@) == 114753633) by {
        reveal_strlit("us-ga");
    }
    lemma_state_ids("Georgia"@, "us-ga"@);
}

/// No two licence types of `hi_license_types` share an identifier, and all
/// carry its state code.
proof fn lemma_hi_ids()
    ensures
        license_type_ids_distinct(spec_hi_license_types()),
        all_state_code(spec_hi_license_types(), 115867753),
{
    assert("us-hi"@.len() == 5 && state_code("us-hi"@) == 115867753) by {
        reveal_strlit("us-hi");
    }
    lemma_state_ids("Hawaii"@, "us-hi"@);
}

/// No two licence types of `id_license_types` share an identifier, and all
/// carry its state code.
proof fn lemma_id_ids()
    ensures
        license_type_ids_distinct(spec_id_license_types()),
        all_state_code(spec_id_license_types(), 116981860),
{
    assert("us-id"@.len() == 5 && state_code("us-id"@) == 116981860) by {
        reveal_strlit("us-id");
    }
    lemma_state_ids("Idaho"@, "us-id"@);
}

/// No two licence types of `in_license_types` share an identifier, and all
/// carry its state code.
proof fn lemma_in_ids()
    ensures
        license_type_ids_distinct(spec_in_license_types()),
        all_state_code(spec_in_license_types(), 116981870),
{
    assert("us-in"@.len() == 5 && state_code("us-in"@) == 116981870) by {
        reveal_strlit("us-in");
    }
    lemma_state_ids("Indiana"@, "us-in"@);
}

/// No two licence types of `ia_license_types` share an identifier, and all
/// carry its state code.
proof fn lemma_ia_ids()
    ensures
        license_type_ids_distinct(spec_ia_license_types()),
        all_state_code(spec_ia_license_types(), 116981857),
{
    assert("us-ia"@.len() == 5 && state_code("us-ia"@) == 116981857) by {
        reveal_strlit("us-ia");
    }
    lemma_state_ids("Iowa"@, "us-ia"@);
}

/// No two licence types of `ks_license_types` share an identifier, and all
/// carry its state code.
proof fn lemma_ks_ids()
    ensures
        license_type_ids_distinct(spec_ks_license_types()),
        all_state_code(spec_ks_license_types(), 119210099),
{
    assert("us-ks"@.len() == 5 && state_code("us-ks"@) == 119210099) by {
        reveal_strlit("us-ks");
    }
    lemma_state_ids("Kansas"@, "us-ks"@);
}

/// No two licence types of `ky_license_types` share an identifier, and all
/// carry its state code.
proof fn lemma_ky_ids()
    ensures
        license_type_ids_distinct(spec_ky_license_types()),
        all_state_code(spec_ky_license_types(), 119210105),
{
    assert("us-ky"@.len() == 5 && state_code("us-ky"@) == 119210105) by {
        reveal_strlit("us-ky");
    }
    lemma_state_ids("Kentucky"@, "us-ky"@);
}

/// No two licence types of `la_license_types` share an identifier, and all
/// carry its state code.
proof fn lemma_la_ids()
    ensures
        license_type_ids_distinct(spec_la_license_types()),
        all_state_code(spec_la_license_types(), 120324193),
{
    assert("us-la"@.len() == 5 && state_code("us-la"@) == 120324193) by {
        reveal_strlit("us-la");
    }
    lemma_state_ids("Louisiana"@, "us-la"@);
}

/// No two licence types of `me_license_types` share an identifier, and all
/// carry its state code.
proof fn lemma_me_ids()
    ensures
        license_type_ids_distinct(spec_me_license_types()),
        all_state_code(spec_me_license_types(), 121438309),
{
    assert("us-me"@.len() == 5 && state_code("us-me"@) == 121438309) by {
        reveal_strlit("us-me");
    }
    lemma_state_ids("Maine"@, "us-me"@);
}

/// No two licence types of `md_license_types` share an identifier, and all
/// carry its state code.
proof fn lemma_md_ids()
    ensures
        license_type_ids_distinct(spec_md_license_types()),
        all_state_code(spec_md_license_types(), 121438308),
{
    assert("us-md"@.len() == 5 && state_code("us-md"@) == 121438308) by {
        reveal_strlit("us-md");
    }
    lemma_state_ids("Maryland"@, "us-md"@);
}

/// No two licence types of `ma_license_types` share an identifier, and all
/// carry its state code.
proof fn lemma_ma_ids()
    ensures
        license_type_ids_distinct(spec_ma_license_types()),
        all_state_code(spec_ma_license_types(), 121438305),
{
    assert("us-ma"@.len() == 5 && state_code("us-ma"@) == 121438305) by {
        reveal_strlit("us-ma");
    }
    lemma_state_ids("Massachusetts"@, "us-ma"@);
}

/// No two licence types of `mi_license_types` share an identifier, and all
/// carry its state code.
proof fn lemma_mi_ids()
    ensures
        license_type_ids_distinct(spec_mi_license_types()),
        all_state_code(spec_mi_license_types(), 121438313),
{
    assert("us-mi"@.len() == 5 && state_code("us-mi"@) == 121438313) by {
        reveal_strlit("us-mi");
    }
    lemma_state_ids("Michigan"@, "us-mi"@);
}

/// No two licence types of `mn_license_types` share an identifier, and all
/// carry its state code.
proof fn lemma_mn_ids()
    ensures
        license_type_ids_distinct(spec_mn_license_types()),
        all_state_code(spec_mn_license_types(), 121438318),
{
    assert("us-mn"@.len() == 5 && state_code("us-mn"@) == 121438318) by {
        reveal_strlit("us-mn");
    }
    lemma_state_ids("Minnesota"@, "us-mn"@);
}

/// No two licence types of `ms_license_types` share an identifier, and all
/// carry its state code.
proof fn lemma_ms_ids()
    ensures
        license_type_ids_distinct(spec_ms_license_types()),
        all_state_code(spec_ms_license_types(), 121438323),
{
    assert("us-ms"@.len() == 5 && state_code("us-ms"@) == 121438323) by {
        reveal_strlit("us-ms");
    }
    lemma_state_ids("Mississippi"@, "us-ms"@);
}

/// No two licence types of `mo_license_types` share an identifier, and all
/// carry its state code.
proof fn lemma_mo_ids()
    ensures
        license_type_ids_distinct(spec_mo_license_types()),
        all_state_code(spec_mo_license_types(), 121438319),
{
    assert("us-mo"@.len() == 5 && state_code("us-mo"@) == 121438319) by {
        reveal_strlit("us-mo");
    }
    lemma_state_ids("Missouri"@, "us-mo"@);
}

/// No two licence types of `mt_license_types` share an identifier, and all
/// carry its state code.
proof fn lemma_mt_ids()
    ensures
        license_type_ids_distinct(spec_mt_license_types()),
        all_state_code(spec_mt_license_types(), 121438324),
{
    assert("us-mt"@.len() == 5 && state_code("us-mt"@) == 121438324) by {
        reveal_strlit("us-mt");
    }
    lemma_state_ids("Montana"@, "us-mt"@);
}

/// No two licence types of `ne_license_types` share an identifier, and all
/// carry its state code.
proof fn lemma_ne_ids()
    ensures
        license_type_ids_distinct(spec_ne_license_types()),
        all_state_code(spec_ne_license_types(), 122552421),
{
    assert("us-ne"@.len() == 5 && state_code("us-ne"@) == 122552421) by {
        reveal_strlit("us-ne");
    }
    lemma_state_ids("Nebraska"@, "us-ne"@);
}

/// No two licence types of `nh_license_types` share an identifier, and all
/// carry its state code.
proof fn lemma_nh_ids()
    ensures
        license_type_ids_distinct(spec_nh_license_types()),
        all_state_code(spec_nh_license_types(), 122552424),
{
    assert("us-nh"@.len() == 5 && state_code("us-nh"@) == 122552424) by {
        reveal_strlit("us-nh");
    }
    lemma_state_ids("New Hampshire"@, "us-nh"@);
}

/// No two licence types of `nj_license_types` share an identifier, and all
/// carry its state code.
proof fn lemma_nj_ids()
    ensures
        license_type_ids_distinct(spec_nj_license_types()),
        all_state_code(spec_nj_license_types(), 122552426),
{
    assert("us-nj"@.len() == 5 && state_code("us-nj"@) == 122552426) by {
        reveal_strlit("us-nj");
    }
    lemma_state_ids("New Jersey"@, "us-nj"@);
}

/// No two licence types of `nm_license_types` share an identifier, and all
/// carry its state code.
proof fn lemma_nm_ids()
    ensures
        license_type_ids_distinct(spec_nm_license_types()),
        all_state_code(spec_nm_license_types(), 122552429),
{
    assert("us-nm"@.len() == 5 && state_code("us-nm"@) == 122552429) by {
        reveal_strlit("us-nm");
    }
    lemma_state_ids("New Mexico"@, "us-nm"@);
}

/// No two licence types of `nc_license_types` share an identifier, and all
/// carry its state code.
proof fn lemma_nc_ids()
    ensures
        license_type_ids_distinct(spec_nc_license_types()),
        all_state_code(spec_nc_license_types(), 122552419),
{
    assert("us-nc"@.len() == 5 && state_code("us-nc"@) == 122552419) by {
        reveal_strlit("us-nc");
    }
    lemma_state_ids("North Carolina"@, "us-nc"@);
}

/// No two licence types of `nd_license_types` share an identifier, and all
/// carry its state code.
proof fn lemma_nd_ids()
    ensures
        license_type_ids_distinct(spec_nd_license_types()),
        all_state_code(spec_nd_license_types(), 122552420),
{
    assert("us-nd"@.len() == 5 && state_code("us-nd"@) == 122552420) by {
        reveal_strlit("us-nd");
    }
    lemma_state_ids("North Dakota"@, "us-nd"@);
}

/// No two licence types of `oh_license_types` share an identifier, and all
/// carry its state code.
proof fn lemma_oh_ids()
    ensures
        license_type_ids_distinct(spec_oh_license_types()),
        all_state_code(spec_oh_license_types(), 123666536),
{
    assert("us-oh"@.len() == 5 && state_code("us-oh"@) == 123666536) by {
        reveal_strlit("us-oh");
    }
    lemma_state_ids("Ohio"@, "us-oh"@);
}

/// No two licence types of `ok_license_types` share an identifier, and all
/// carry its state code.
proof fn lemma_ok_ids()
    ensures
        license_type_ids_distinct(spec_ok_license_types()),
        all_state_code(spec_ok_license_types(), 123666539),
{
    assert("us-ok"@.len() == 5 && state_code("us-ok"@) == 123666539) by {
        reveal_strlit("us-ok");
    }
    lemma_state_ids("Oklahoma"@, "us-ok"@);
}

/// No two licence types of `or_license_types` share an identifier, and all
/// carry its state code.
proof fn lemma_or_ids()
    ensures
        license_type_ids_distinct(spec_or_license_types()),
        all_state_code(spec_or_license_types(), 123666546),
{
    assert("us-or"@.len() == 5 && state_code("us-or"@) == 123666546) by {
        reveal_strlit("us-or");
    }
    lemma_state_ids("Oregon"@, "us-or"@);
}

/// No two licence types of `pa_license_types` share an identifier, and all
/// carry its state code.
proof fn lemma_pa_ids()
    ensures
        license_type_ids_distinct(spec_pa_license_types()),
        all_state_code(spec_pa_license_types(), 124780641),
{
    assert("us-pa"@.len() == 5 && state_code("us-pa"@) == 124780641) by {
        reveal_strlit("us-pa");
    }
    lemma_state_ids("Pennsylvania"@, "us-pa"@);
}

/// No two licence types of `ri_license_types` share an identifier, and all
/// carry its state code.
proof fn lemma_ri_ids()
    ensures
        license_type_ids_distinct(spec_ri_license_types()),
        all_state_code(spec_ri_license_types(), 127008873),
{
    assert("us-ri"@.len() == 5 && state_code("us-ri"@) == 127008873) by {
        reveal_strlit("us-ri");
    }
    lemma_state_ids("Rhode Island"@, "us-ri"@);
}

/// No two licence types of `sc_license_types` share an identifier, and all
/// carry its state code.
proof fn lemma_sc_ids()
    ensures
        license_type_ids_distinct(spec_sc_license_types()),
        all_state_code(spec_sc_license_types(), 128122979),
{
    assert("us-sc"@.len() == 5 && state_code("us-sc"@) == 128122979) by {
        reveal_strlit("us-sc");
    }
    lemma_state_ids("South Carolina"@, "us-sc"@);
}

/// No two licence types of `sd_license_types` share an identifier, and all
/// carry its state code.
proof fn lemma_sd_ids()
    ensures
        license_type_ids_distinct(spec_sd_license_types()),
        all_state_code(spec_sd_license_types(), 128122980),
{
    assert("us-sd"@.len() == 5 && state_code("us-sd"@) == 128122980) by {
        reveal_strlit("us-sd");
    }
    lemma_state_ids("South Dakota"@, "us-sd"@);
}

/// No two licence types of `tn_license_types` share an identifier, and all
/// carry its state code.
proof fn lemma_tn_ids()
    ensures
        license_type_ids_distinct(spec_tn_license_types()),
        all_state_code(spec_tn_license_types(), 129237102),
{
    assert("us-tn"@.len() == 5 && state_code("us-tn"@) == 129237102) by {
        reveal_strlit("us-tn");
    }
    lemma_state_ids("Tennessee"@, "us-tn"@);
}

/// No two licence types of `ut_license_types` share an identifier, and all
/// carry its state code.
proof fn lemma_ut_ids()
    ensures
        license_type_ids_distinct(spec_ut_license_types()),
        all_state_code(spec_ut_license_types(), 130351220),
{
    assert("us-ut"@.len() == 5 && state_code("us-ut"@) == 130351220) by {
        reveal_strlit("us-ut");
    }
    lemma_state_ids("Utah"@, "us-ut"@);
}

/// No two licence types of `vt_license_types` share an identifier, and all
/// carry its state code.
proof fn lemma_vt_ids()
    ensures
        license_type_ids_distinct(spec_vt_license_types()),
        all_state_code(spec_vt_license_types(), 131465332),
{
    assert("us-vt"@.len() == 5 && state_code("us-vt"@) == 131465332) by {
        reveal_strlit("us-vt");
    }
    lemma_state_ids("Vermont"@, "us-vt"@);
}

/// No two licence types of `va_license_types` share an identifier, and all
/// carry its state code.
proof fn lemma_va_ids()
    ensures
        license_type_ids_distinct(spec_va_license_types()),
        all_state_code(spec_va_license_types(), 131465313),
{
    assert("us-va"@.len() == 5 && state_code("us-va"@) == 131465313) by {
        reveal_strlit("us-va");
    }
    lemma_state_ids("Virginia"@, "us-va"@);
}

/// No two licence types of `wa_license_types` share an identifier, and all
/// carry its state code.
proof fn lemma_wa_ids()
    ensures
        license_type_ids_distinct(spec_wa_license_types()),
        all_state_code(spec_wa_license_types(), 132579425),
{
    assert("us-wa"@.len() == 5 && state_code("us-wa"@) == 132579425) by {
        reveal_strlit("us-wa");
    }
    lemma_state_ids("Washington"@, "us-wa"@);
}

/// No two licence types of `wv_license_types` share an identifier, and all
/// carry its state code.
proof fn lemma_wv_ids()
    ensures
        license_type_ids_distinct(spec_wv_license_types()),
        all_state_code(spec_wv_license_types(), 132579446),
{
    assert("us-wv"@.len() == 5 && state_code("us-wv"@) == 132579446) by {
        reveal_strlit("us-wv");
    }
    lemma_state_ids("West Virginia"@, "us-wv"@);
}

/// No two licence types of `wi_license_types` share an identifier, and all
/// carry its state code.
proof fn lemma_wi_ids()
    ensures
        license_type_ids_distinct(spec_wi_license_types()),
        all_state_code(spec_wi_license_types(), 132579433),
{
    assert("us-wi"@.len() == 5 && state_code("us-wi"@) == 132579433) by {
        reveal_strlit("us-wi");
    }
    lemma_state_ids("Wisconsin"@, "us-wi"@);
}

/// No two licence types of `dc_license_types` share an identifier, and all
/// carry its state code.
proof fn lemma_dc_ids()
    ensures
        license_type_ids_distinct(spec_dc_license_types()),
        all_state_code(spec_dc_license_types(), 111411299),
{
    assert("us-dc"@.len() == 5 && state_code("us-dc"@) == 111411299) by {
        reveal_strlit("us-dc");
    }
    lemma_state_ids("District of Columbia"@, "us-dc"@);
}

/// No two licence types of `pr_license_types` share an identifier, and all
/// carry its state code.
proof fn lemma_pr_ids()
    ensures
        license_type_ids_distinct(spec_pr_license_types()),
        all_state_code(spec_pr_license_types(), 124780658),
{
    assert("us-pr"@.len() == 5 && state_code("us-pr"@) == 124780658) by {
        reveal_strlit("us-pr");
    }
    lemma_state_ids("Puerto Rico"@, "us-pr"@);
}

/// No two licence types of `gu_license_types` share an identifier, and all
/// carry its state code.
proof fn lemma_gu_ids()
    ensures
        license_type_ids_distinct(spec_gu_license_types()),
        all_state_code(spec_gu_license_types(), 114753653),
{
    assert("us-gu"@.len() == 5 && state_code("us-gu"@) == 114753653) by {
        reveal_strlit("us-gu");
    }
    lemma_state_ids("Guam"@, "us-gu"@);
}

/// No two licence types of `vi_license_types` share an identifier, and all
/// carry its state code.
proof fn lemma_vi_ids()
    ensures
        license_type_ids_distinct(spec_vi_license_types()),
        all_state_code(spec_vi_license_types(), 131465321),
{
    assert("us-vi"@.len() == 5 && state_code("us-vi"@) == 131465321) by {
        reveal_strlit("us-vi");
    }
    lemma_state_ids("US Virgin Islands"@, "us-vi"@);
}

/// No two licence types of `as_license_types` share an identifier, and all
/// carry its state code.
proof fn lemma_as_ids()
    ensures
        license_type_ids_distinct(spec_as_license_types()),
        all_state_code(spec_as_license_types(), 108068979),
{
    assert("us-as"@.len() == 5 && state_code("us-as"@) == 108068979) by {
        reveal_strlit("us-as");
    }
    lemma_state_ids("American Samoa"@, "us-as"@);
}

/// No two licence types of `mp_license_types` share an identifier, and all
/// carry its state code.
proof fn lemma_mp_ids()
    ensures
        license_type_ids_distinct(spec_mp_license_types()),
        all_state_code(spec_mp_license_types(), 121438320),
{
    assert("us-mp"@.len() == 5 && state_code("us-mp"@) == 121438320) by {
        reveal_strlit("us-mp");
    }
    lemma_state_ids("Northern Mariana Islands"@, "us-mp"@);
}

/// No two licence types of `us_license_types` share an identifier.
pub proof fn lemma_united_states_license_type_ids_distinct()
    ensures
        license_type_ids_distinct(spec_us_license_types()),
{
    lemma_ny_ids();
    let acc = spec_ny_license_types();
    let s = Set::<int>::empty().insert(122552441);
    assert(state_codes_in(acc, s));
    lemma_ca_ids();
    lemma_apart_by_state_code(acc, s, spec_ca_license_types(), 110297185);
    lemma_ids_distinct_append(acc, spec_ca_license_types());
    lemma_state_codes_append(acc, s, spec_ca_license_types(), 110297185);
    let acc = acc + spec_ca_license_types();
    let s = s.insert(110297185);
    lemma_de_ids();
    lemma_apart_by_state_code(acc, s, spec_de_license_types(), 111411301);
    lemma_ids_distinct_append(acc, spec_de_license_types());
    lemma_state_codes_append(acc, s, spec_de_license_types(), 111411301);
    let acc = acc + spec_de_license_types();
    let s = s.insert(111411301);
    lemma_wy_ids();
    lemma_apart_by_state_code(acc, s, spec_wy_license_types(), 132579449);
    lemma_ids_distinct_append(acc, spec_wy_license_types());
    lemma_state_codes_append(acc, s, spec_wy_license_types(), 132579449);
    let acc = acc + spec_wy_license_types();
    let s = s.insert(132579449);
    lemma_tx_ids();
    lemma_apart_by_state_code(acc, s, spec_tx_license_types(), 129237112);
    lemma_ids_distinct_append(acc, spec_tx_license_types());
    lemma_state_codes_append(acc, s, spec_tx_license_types(), 129237112);
    let acc = acc + spec_tx_license_types();
    let s = s.insert(129237112);
    lemma_fl_ids();
    lemma_apart_by_state_code(acc, s, spec_fl_license_types(), 113639532);
    lemma_ids_distinct_append(acc, spec_fl_license_types());
    lemma_state_codes_append(acc, s, spec_fl_license_types(), 113639532);
    let acc = acc + spec_fl_license_types();
    let s = s.insert(113639532);
    lemma_nv_ids();
    lemma_apart_by_state_code(acc, s, spec_nv_license_types(), 122552438);
    lemma_ids_distinct_append(acc, spec_nv_license_types());
    lemma_state_codes_append(acc, s, spec_nv_license_types(), 122552438);
    let acc = acc + spec_nv_license_types();
    let s = s.insert(122552438);
    lemma_il_ids();
    lemma_apart_by_state_code(acc, s, spec_il_license_types(), 116981868);
    lemma_ids_distinct_append(acc, spec_il_license_types());
    lemma_state_codes_append(acc, s, spec_il_license_types(), 116981868);
    let acc = acc + spec_il_license_types();
    let s = s.insert(116981868);
    lemma_al_ids();
    lemma_apart_by_state_code(acc, s, spec_al_license_types(), 108068972);
    lemma_ids_distinct_append(acc, spec_al_license_types());
    lemma_state_codes_append(acc, s, spec_al_license_types(), 108068972);
    let acc = acc + spec_al_license_types();
    let s = s.insert(108068972);
    lemma_ak_ids();
    lemma_apart_by_state_code(acc, s, spec_ak_license_types(), 108068971);
    lemma_ids_distinct_append(acc, spec_ak_license_types());
    lemma_state_codes_append(acc, s, spec_ak_license_types(), 108068971);
    let acc = acc + spec_ak_license_types();
    let s = s.insert(108068971);
    lemma_az_ids();
    lemma_apart_by_state_code(acc, s, spec_az_license_types(), 108068986);
    lemma_ids_distinct_append(acc, spec_az_license_types());
    lemma_state_codes_append(acc, s, spec_az_license_types(), 108068986);
    let acc = acc + spec_az_license_types();
    let s = s.insert(108068986);
    lemma_ar_ids();
    lemma_apart_by_state_code(acc, s, spec_ar_license_types(), 108068978);
    lemma_ids_distinct_append(acc, spec_ar_license_types());
    lemma_state_codes_append(acc, s, spec_ar_license_types(), 108068978);
    let acc = acc + spec_ar_license_types();
    let s = s.insert(108068978);
    lemma_co_ids();
    lemma_apart_by_state_code(acc, s, spec_co_license_types(), 110297199);
    lemma_ids_distinct_append(acc, spec_co_license_types());
    lemma_state_codes_append(acc, s, spec_co_license_types(), 110297199);
    let acc = acc + spec_co_license_types();
    let s = s.insert(110297199);
    lemma_ct_ids();
    lemma_apart_by_state_code(acc, s, spec_ct_license_types(), 110297204);
    lemma_ids_distinct_append(acc, spec_ct_license_types());
    lemma_state_codes_append(acc, s, spec_ct_license_types(), 110297204);
    let acc = acc + spec_ct_license_types();
    let s = s.insert(110297204);
    lemma_ga_ids();
    lemma_apart_by_state_code(acc, s, spec_ga_license_types(), 114753633);
    lemma_ids_distinct_append(acc, spec_ga_license_types());
    lemma_state_codes_append(acc, s, spec_ga_license_types(), 114753633);
    let acc = acc + spec_ga_license_types();
    let s = s.insert(114753633);
    lemma_hi_ids();
    lemma_apart_by_state_code(acc, s, spec_hi_license_types(), 115867753);
    lemma_ids_distinct_append(acc, spec_hi_license_types());
    lemma_state_codes_append(acc, s, spec_hi_license_types(), 115867753);
    let acc = acc + spec_hi_license_types();
    let s = s.insert(115867753);
    lemma_id_ids();
    lemma_apart_by_state_code(acc, s, spec_id_license_types(), 116981860);
    lemma_ids_distinct_append(acc, spec_id_license_types());
    lemma_state_codes_append(acc, s, spec_id_license_types(), 116981860);
    let acc = acc + spec_id_license_types();
    let s = s.insert(116981860);
    lemma_in_ids();
    lemma_apart_by_state_code(acc, s, spec_in_license_types(), 116981870);
    lemma_ids_distinct_append(acc, spec_in_license_types());
    lemma_state_codes_append(acc, s, spec_in_license_types(), 116981870);
    let acc = acc + spec_in_license_types();
    let s = s.insert(116981870);
    lemma_ia_ids();
    lemma_apart_by_state_code(acc, s, spec_ia_license_types(), 116981857);
    lemma_ids_distinct_append(acc, spec_ia_license_types());
    lemma_state_codes_append(acc, s, spec_ia_license_types(), 116981857);
    let acc = acc + spec_ia_license_types();
    let s = s.insert(116981857);
    lemma_ks_ids();
    lemma_apart_by_state_code(acc, s, spec_ks_license_types(), 119210099);
    lemma_ids_distinct_append(acc, spec_ks_license_types());
    lemma_state_codes_append(acc, s, spec_ks_license_types(), 119210099);
    let acc = acc + spec_ks_license_types();
    let s = s.insert(119210099);
    lemma_ky_ids();
    lemma_apart_by_state_code(acc, s, spec_ky_license_types(), 119210105);
    lemma_ids_distinct_append(acc, spec_ky_license_types());
    lemma_state_codes_append(acc, s, spec_ky_license_types(), 119210105);
    let acc = acc + spec_ky_license_types();
    let s = s.insert(119210105);
    lemma_la_ids();
    lemma_apart_by_state_code(acc, s, spec_la_license_types(), 120324193);
    lemma_ids_distinct_append(acc, spec_la_license_types());
    lemma_state_codes_append(acc, s, spec_la_license_types(), 120324193);
    let acc = acc + spec_la_license_types();
    let s = s.insert(120324193);
    lemma_me_ids();
    lemma_apart_by_state_code(acc, s, spec_me_license_types(), 121438309);
    lemma_ids_distinct_append(acc, spec_me_license_types());
    lemma_state_codes_append(acc, s, spec_me_license_types(), 121438309);
    let acc = acc + spec_me_license_types();
    let s = s.insert(121438309);
    lemma_md_ids();
    lemma_apart_by_state_code(acc, s, spec_md_license_types(), 121438308);
    lemma_ids_distinct_append(acc, spec_md_license_types());
    lemma_state_codes_append(acc, s, spec_md_license_types(), 121438308);
    let acc = acc + spec_md_license_types();
    let s = s.insert(121438308);
    lemma_ma_ids();
    lemma_apart_by_state_code(acc, s, spec_ma_license_types(), 121438305);
    lemma_ids_distinct_append(acc, spec_ma_license_types());
    lemma_state_codes_append(acc, s, spec_ma_license_types(), 121438305);
    let acc = acc + spec_ma_license_types();
    let s = s.insert(121438305);
    lemma_mi_ids();
    lemma_apart_by_state_code(acc, s, spec_mi_license_types(), 121438313);
    lemma_ids_distinct_append(acc, spec_mi_license_types());
    lemma_state_codes_append(acc, s, spec_mi_license_types(), 121438313);
    let acc = acc + spec_mi_license_types();
    let s = s.insert(121438313);
    lemma_mn_ids();
    lemma_apart_by_state_code(acc, s, spec_mn_license_types(), 121438318);
    lemma_ids_distinct_append(acc, spec_mn_license_types());
    lemma_state_codes_append(acc, s, spec_mn_license_types(), 121438318);
    let acc = acc + spec_mn_license_types();
    let s = s.insert(121438318);
    lemma_ms_ids();
    lemma_apart_by_state_code(acc, s, spec_ms_license_types(), 121438323);
    lemma_ids_distinct_append(acc, spec_ms_license_types());
    lemma_state_codes_append(acc, s, spec_ms_license_types(), 121438323);
    let acc = acc + spec_ms_license_types();
    let s = s.insert(121438323);
    lemma_mo_ids();
    lemma_apart_by_state_code(acc, s, spec_mo_license_types(), 121438319);
    lemma_ids_distinct_append(acc, spec_mo_license_types());
    lemma_state_codes_append(acc, s, spec_mo_license_types(), 121438319);
    let acc = acc + spec_mo_license_types();
    let s = s.insert(121438319);
    lemma_mt_ids();
    lemma_apart_by_state_code(acc, s, spec_mt_license_types(), 121438324);
    lemma_ids_distinct_append(acc, spec_mt_license_types());
    lemma_state_codes_append(acc, s, spec_mt_license_types(), 121438324);
    let acc = acc + spec_mt_license_types();
    let s = s.insert(121438324);
    lemma_ne_ids();
    lemma_apart_by_state_code(acc, s, spec_ne_license_types(), 122552421);
    lemma_ids_distinct_append(acc, spec_ne_license_types());
    lemma_state_codes_append(acc, s, spec_ne_license_types(), 122552421);
    let acc = acc + spec_ne_license_types();
    let s = s.insert(122552421);
    lemma_nh_ids();
    lemma_apart_by_state_code(acc, s, spec_nh_license_types(), 122552424);
    lemma_ids_distinct_append(acc, spec_nh_license_types());
    lemma_state_codes_append(acc, s, spec_nh_license_types(), 122552424);
    let acc = acc + spec_nh_license_types();
    let s = s.insert(122552424);
    lemma_nj_ids();
    lemma_apart_by_state_code(acc, s, spec_nj_license_types(), 122552426);
    lemma_ids_distinct_append(acc, spec_nj_license_types());
    lemma_state_codes_append(acc, s, spec_nj_license_types(), 122552426);
    let acc = acc + spec_nj_license_types();
    let s = s.insert(122552426);
    lemma_nm_ids();
    lemma_apart_by_state_code(acc, s, spec_nm_license_types(), 122552429);
    lemma_ids_distinct_append(acc, spec_nm_license_types());
    lemma_state_codes_append(acc, s, spec_nm_license_types(), 122552429);
    let acc = acc + spec_nm_license_types();
    let s = s.insert(122552429);
    lemma_nc_ids();
    lemma_apart_by_state_code(acc, s, spec_nc_license_types(), 122552419);
    lemma_ids_distinct_append(acc, spec_nc_license_types());
    lemma_state_codes_append(acc, s, spec_nc_license_types(), 122552419);
    let acc = acc + spec_nc_license_types();
    let s = s.insert(122552419);
    lemma_nd_ids();
    lemma_apart_by_state_code(acc, s, spec_nd_license_types(), 122552420);
    lemma_ids_distinct_append(acc, spec_nd_license_types());
    lemma_state_codes_append(acc, s, spec_nd_license_types(), 122552420);
    let acc = acc + spec_nd_license_types();
    let s = s.insert(122552420);
    lemma_oh_ids();
    lemma_apart_by_state_code(acc, s, spec_oh_license_types(), 123666536);
    lemma_ids_distinct_append(acc, spec_oh_license_types());
    lemma_state_codes_append(acc, s, spec_oh_license_types(), 123666536);
    let acc = acc + spec_oh_license_types();
    let s = s.insert(123666536);
    lemma_ok_ids();
    lemma_apart_by_state_code(acc, s, spec_ok_license_types(), 123666539);
    lemma_ids_distinct_append(acc, spec_ok_license_types());
    lemma_state_codes_append(acc, s, spec_ok_license_types(), 123666539);
    let acc = acc + spec_ok_license_types();
    let s = s.insert(123666539);
    lemma_or_ids();
    lemma_apart_by_state_code(acc, s, spec_or_license_types(), 123666546);
    lemma_ids_distinct_append(acc, spec_or_license_types());
    lemma_state_codes_append(acc, s, spec_or_license_types(), 123666546);
    let acc = acc + spec_or_license_types();
    let s = s.insert(123666546);
    lemma_pa_ids();
    lemma_apart_by_state_code(acc, s, spec_pa_license_types(), 124780641);
    lemma_ids_distinct_append(acc, spec_pa_license_types());
    lemma_state_codes_append(acc, s, spec_pa_license_types(), 124780641);
    let acc = acc + spec_pa_license_types();
    let s = s.insert(124780641);
    lemma_ri_ids();
    lemma_apart_by_state_code(acc, s, spec_ri_license_types(), 127008873);
    lemma_ids_distinct_append(acc, spec_ri_license_types());
    lemma_state_codes_append(acc, s, spec_ri_license_types(), 127008873);
    let acc = acc + spec_ri_license_types();
    let s = s.insert(127008873);
    lemma_sc_ids();
    lemma_apart_by_state_code(acc, s, spec_sc_license_types(), 128122979);
    lemma_ids_distinct_append(acc, spec_sc_license_types());
    lemma_state_codes_append(acc, s, spec_sc_license_types(), 128122979);
    let acc = acc + spec_sc_license_types();
    let s = s.insert(128122979);
    lemma_sd_ids();
    lemma_apart_by_state_code(acc, s, spec_sd_license_types(), 128122980);
    lemma_ids_distinct_append(acc, spec_sd_license_types());
    lemma_state_codes_append(acc, s, spec_sd_license_types(), 128122980);
    let acc = acc + spec_sd_license_types();
    let s = s.insert(128122980);
    lemma_tn_ids();
    lemma_apart_by_state_code(acc, s, spec_tn_license_types(), 129237102);
    lemma_ids_distinct_append(acc, spec_tn_license_types());
    lemma_state_codes_append(acc, s, spec_tn_license_types(), 129237102);
    let acc = acc + spec_tn_license_types();
    let s = s.insert(129237102);
    lemma_ut_ids();
    lemma_apart_by_state_code(acc, s, spec_ut_license_types(), 130351220);
    lemma_ids_distinct_append(acc, spec_ut_license_types());
    lemma_state_codes_append(acc, s, spec_ut_license_types(), 130351220);
    let acc = acc + spec_ut_license_types();
    let s = s.insert(130351220);
    lemma_vt_ids();
    lemma_apart_by_state_code(acc, s, spec_vt_license_types(), 131465332);
    lemma_ids_distinct_append(acc, spec_vt_license_types());
    lemma_state_codes_append(acc, s, spec_vt_license_types(), 131465332);
    let acc = acc + spec_vt_license_types();
    let s = s.insert(131465332);
    lemma_va_ids();
    lemma_apart_by_state_code(acc, s, spec_va_license_types(), 131465313);
    lemma_ids_distinct_append(acc, spec_va_license_types());
    lemma_state_codes_append(acc, s, spec_va_license_types(), 131465313);
    let acc = acc + spec_va_license_types();
    let s = s.insert(131465313);
    lemma_wa_ids();
    lemma_apart_by_state_code(acc, s, spec_wa_license_types(), 132579425);
    lemma_ids_distinct_append(acc, spec_wa_license_types());
    lemma_state_codes_append(acc, s, spec_wa_license_types(), 132579425);
    let acc = acc + spec_wa_license_types();
    let s = s.insert(132579425);
    lemma_wv_ids();
    lemma_apart_by_state_code(acc, s, spec_wv_license_types(), 132579446);
    lemma_ids_distinct_append(acc, spec_wv_license_types());
    lemma_state_codes_append(acc, s, spec_wv_license_types(), 132579446);
    let acc = acc + spec_wv_license_types();
    let s = s.insert(132579446);
    lemma_wi_ids();
    lemma_apart_by_state_code(acc, s, spec_wi_license_types(), 132579433);
    lemma_ids_distinct_append(acc, spec_wi_license_types());
    lemma_state_codes_append(acc, s, spec_wi_license_types(), 132579433);
    let acc = acc + spec_wi_license_types();
    let s = s.insert(132579433);
    lemma_dc_ids();
    lemma_apart_by_state_code(acc, s, spec_dc_license_types(), 111411299);
    lemma_ids_distinct_append(acc, spec_dc_license_types());
    lemma_state_codes_append(acc, s, spec_dc_license_types(), 111411299);
    let acc = acc + spec_dc_license_types();
    let s = s.insert(111411299);
    lemma_pr_ids();
    lemma_apart_by_state_code(acc, s, spec_pr_license_types(), 124780658);
    lemma_ids_distinct_append(acc, spec_pr_license_types());
    lemma_state_codes_append(acc, s, spec_pr_license_types(), 124780658);
    let acc = acc + spec_pr_license_types();
    let s = s.insert(124780658);
    lemma_gu_ids();
    lemma_apart_by_state_code(acc, s, spec_gu_license_types(), 114753653);
    lemma_ids_distinct_append(acc, spec_gu_license_types());
    lemma_state_codes_append(acc, s, spec_gu_license_types(), 114753653);
    let acc = acc + spec_gu_license_types();
    let s = s.insert(114753653);
    lemma_vi_ids();
    lemma_apart_by_state_code(acc, s, spec_vi_license_types(), 131465321);
    lemma_ids_distinct_append(acc, spec_vi_license_types());
    lemma_state_codes_append(acc, s, spec_vi_license_types(), 131465321);
    let acc = acc + spec_vi_license_types();
    let s = s.insert(131465321);
    lemma_as_ids();
    lemma_apart_by_state_code(acc, s, spec_as_license_types(), 108068979);
    lemma_ids_distinct_append(acc, spec_as_license_types());
    lemma_state_codes_append(acc, s, spec_as_license_types(), 108068979);
    let acc = acc + spec_as_license_types();
    let s = s.insert(108068979);
    lemma_mp_ids();
    lemma_apart_by_state_code(acc, s, spec_mp_license_types(), 121438320);
    lemma_ids_distinct_append(acc, spec_mp_license_types());
    lemma_state_codes_append(acc, s, spec_mp_license_types(), 121438320);
    let acc = acc + spec_mp_license_types();
    let s = s.insert(121438320);
    assert(spec_us_license_types() == acc);
}

/// Each licence-type identifier of a state catalog starts with its
/// regulator's identifier and a colon, whatever the state.
proof fn lemma_state_license_types_prefixed(st: Seq<char>, jid: Seq<char>)
    ensures
        license_type_ids_prefixed(spec_state_license_types(st, jid)),
{
    let ts = spec_state_license_types(st, jid);
    assert(license_type_id_prefixed(ts[0])) by {
        reveal_strlit("-sos:corp-registration");
        reveal_strlit("-sos");
        reveal_strlit(":");
        assert(ts[0].license_type_id.subrange(0, (ts[0].regulator_id + ":"@).len() as int) =~= ts[0].regulator_id + ":"@);
    }
    assert(license_type_id_prefixed(ts[1])) by {
        reveal_strlit("-sos:llc-registration");
        reveal_strlit("-sos");
        reveal_strlit(":");
        assert(ts[1].license_type_id.subrange(0, (ts[1].regulator_id + ":"@).len() as int) =~= ts[1].regulator_id + ":"@);
    }
    assert(license_type_id_prefixed(ts[2])) by {
        reveal_strlit("-bank:money-transmitter");
        reveal_strlit("-bank");
        reveal_strlit(":");
        assert(ts[2].license_type_id.subrange(0, (ts[2].regulator_id + ":"@).len() as int) =~= ts[2].regulator_id + ":"@);
    }
    assert(license_type_id_prefixed(ts[3])) by {
        reveal_strlit("-ins:insurance-producer");
        reveal_strlit("-ins");
        reveal_strlit(":");
        assert(ts[3].license_type_id.subrange(0, (ts[3].regulator_id + ":"@).len() as int) =~= ts[3].regulator_id + ":"@);
    }
    assert(license_type_id_prefixed(ts[4])) by {
        reveal_strlit("-sec:broker-dealer");
        reveal_strlit("-sec");
        reveal_strlit(":");
        assert(ts[4].license_type_id.subrange(0, (ts[4].regulator_id + ":"@).len() as int) =~= ts[4].regulator_id + ":"@);
    }
    assert(license_type_id_prefixed(ts[5])) by {
        reveal_strlit("-sec:investment-adviser");
        reveal_strlit("-sec");
        reveal_strlit(":");
        assert(ts[5].license_type_id.subrange(0, (ts[5].regulator_id + ":"@).len() as int) =~= ts[5].regulator_id + ":"@);
    }
    assert(prefixed_each(ts)) by {
        reveal_with_fuel(prefixed_each, 7);
    }
    lemma_prefixed_each(ts);
}

/// Each licence-type identifier of `ny_license_types` starts with its regulator's
/// identifier and a colon.
proof fn lemma_ny_license_types_prefixed()
    ensures
        license_type_ids_prefixed(spec_ny_license_types()),
{
    let ts = spec_ny_license_types();
    assert(license_type_id_prefixed(ts[0])) by {
        reveal_strlit("us-ny-dos:corp-registration");
        reveal_strlit("us-ny-dos");
        reveal_strlit(":");
        assert(ts[0].license_type_id.subrange(0, (ts[0].regulator_id + ":"@).len() as int) =~= ts[0].regulator_id + ":"@);
    }
    assert(license_type_id_prefixed(ts[1])) by {
        reveal_strlit("us-ny-dos:llc-registration");
        reveal_strlit("us-ny-dos");
        reveal_strlit(":");
        assert(ts[1].license_type_id.subrange(0, (ts[1].regulator_id + ":"@).len() as int) =~= ts[1].regulator_id + ":"@);
    }
    assert(license_type_id_prefixed(ts[2])) by {
        reveal_strlit("us-ny-dfs:money-transmitter");
        reveal_strlit("us-ny-dfs");
        reveal_strlit(":");
        assert(ts[2].license_type_id.subrange(0, (ts[2].regulator_id + ":"@).len() as int) =~= ts[2].regulator_id + ":"@);
    }
    assert(license_type_id_prefixed(ts[3])) by {
        reveal_strlit("us-ny-dfs:bitlicense");
        reveal_strlit("us-ny-dfs");
        reveal_strlit(":");
        assert(ts[3].license_type_id.subrange(0, (ts[3].regulator_id + ":"@).len() as int) =~= ts[3].regulator_id + ":"@);
    }
    assert(license_type_id_prefixed(ts[4])) by {
        reveal_strlit("us-ny-dfs:banking-charter");
        reveal_strlit("us-ny-dfs");
        reveal_strlit(":");
        assert(ts[4].license_type_id.subrange(0, (ts[4].regulator_id + ":"@).len() as int) =~= ts[4].regulator_id + ":"@);
    }
    assert(license_type_id_prefixed(ts[5])) by {
        reveal_strlit("us-ny-dfs:lending-license");
        reveal_strlit("us-ny-dfs");
        reveal_strlit(":");
        assert(ts[5].license_type_id.subrange(0, (ts[5].regulator_id + ":"@).len() as int) =~= ts[5].regulator_id + ":"@);
    }
    assert(license_type_id_prefixed(ts[6])) by {
        reveal_strlit("us-ny-dfs-ins:insurance-producer");
        reveal_strlit("us-ny-dfs-ins");
        reveal_strlit(":");
        assert(ts[6].license_type_id.subrange(0, (ts[6].regulator_id + ":"@).len() as int) =~= ts[6].regulator_id + ":"@);
    }
    assert(license_type_id_prefixed(ts[7])) by {
        reveal_strlit("us-ny-ag-sec:broker-dealer");
        reveal_strlit("us-ny-ag-sec");
        reveal_strlit(":");
        assert(ts[7].license_type_id.subrange(0, (ts[7].regulator_id + ":"@).len() as int) =~= ts[7].regulator_id + ":"@);
    }
    assert(license_type_id_prefixed(ts[8])) by {
        reveal_strlit("us-ny-ag-sec:investment-adviser");
        reveal_strlit("us-ny-ag-sec");
        reveal_strlit(":");
        assert(ts[8].license_type_id.subrange(0, (ts[8].regulator_id + ":"@).len() as int) =~= ts[8].regulator_id + ":"@);
    }
    assert(prefixed_each(ts)) by {
        reveal_with_fuel(prefixed_each, 10);
    }
    lemma_prefixed_each(ts);
}

/// Each licence-type identifier of `ca_license_types` starts with its regulator's
/// identifier and a colon.
proof fn lemma_ca_license_types_prefixed()
    ensures
        license_type_ids_prefixed(spec_ca_license_types()),
{
    let ts = spec_ca_license_types();
    assert(license_type_id_prefixed(ts[0])) by {
        reveal_strlit("us-ca-sos:corp-registration");
        reveal_strlit("us-ca-sos");
        reveal_strlit(":");
        assert(ts[0].license_type_id.subrange(0, (ts[0].regulator_id + ":"@).len() as int) =~= ts[0].regulator_id + ":"@);
    }
    assert(license_type_id_prefixed(ts[1])) by {
        reveal_strlit("us-ca-sos:llc-registration");
        reveal_strlit("us-ca-sos");
        reveal_strlit(":");
        assert(ts[1].license_type_id.subrange(0, (ts[1].regulator_id + ":"@).len() as int) =~= ts[1].regulator_id + ":"@);
    }
    assert(license_type_id_prefixed(ts[2])) by {
        reveal_strlit("us-ca-dfpi:money-transmitter");
        reveal_strlit("us-ca-dfpi");
        reveal_strlit(":");
        assert(ts[2].license_type_id.subrange(0, (ts[2].regulator_id + ":"@).len() as int) =~= ts[2].regulator_id + ":"@);
    }
    assert(license_type_id_prefixed(ts[3])) by {
        reveal_strlit("us-ca-dfpi:casl");
        reveal_strlit("us-ca-dfpi");
        reveal_strlit(":");
        assert(ts[3].license_type_id.subrange(0, (ts[3].regulator_id + ":"@).len() as int) =~= ts[3].regulator_id + ":"@);
    }
    assert(license_type_id_prefixed(ts[4])) by {
        reveal_strlit("us-ca-dfpi:lending-license");
        reveal_strlit("us-ca-dfpi");
        reveal_strlit(":");
        assert(ts[4].license_type_id.subrange(0, (ts[4].regulator_id + ":"@).len() as int) =~= ts[4].regulator_id + ":"@);
    }
    assert(license_type_id_prefixed(ts[5])) by {
        reveal_strlit("us-ca-cdi:insurance-producer");
        reveal_strlit("us-ca-cdi");
        reveal_strlit(":");
        assert(ts[5].license_type_id.subrange(0, (ts[5].regulator_id + ":"@).len() as int) =~= ts[5].regulator_id + ":"@);
    }
    assert(license_type_id_prefixed(ts[6])) by {
        reveal_strlit("us-ca-dbo-sec:broker-dealer");
        reveal_strlit("us-ca-dbo-sec");
        reveal_strlit(":");
        assert(ts[6].license_type_id.subrange(0, (ts[6].regulator_id + ":"@).len() as int) =~= ts[6].regulator_id + ":"@);
    }
    assert(license_type_id_prefixed(ts[7])) by {
        reveal_strlit("us-ca-dbo-sec:investment-adviser");
        reveal_strlit("us-ca-dbo-sec");
        reveal_strlit(":");
        assert(ts[7].license_type_id.subrange(0, (ts[7].regulator_id + ":"@).len() as int) =~= ts[7].regulator_id + ":"@);
    }
    assert(prefixed_each(ts)) by {
        reveal_with_fuel(prefixed_each, 9);
    }
    lemma_prefixed_each(ts);
}

/// Each licence-type identifier of `de_license_types` starts with its regulator's
/// identifier and a colon.
proof fn lemma_de_license_types_prefixed()
    ensures
        license_type_ids_prefixed(spec_de_license_types()),
{
    let ts = spec_de_license_types();
    assert(license_type_id_prefixed(ts[0])) by {
        reveal_strlit("us-de-dos:corp-registration");
        reveal_strlit("us-de-dos");
        reveal_strlit(":");
        assert(ts[0].license_type_id.subrange(0, (ts[0].regulator_id + ":"@).len() as int) =~= ts[0].regulator_id + ":"@);
    }
    assert(license_type_id_prefixed(ts[1])) by {
        reveal_strlit("us-de-dos:llc-registration");
        reveal_strlit("us-de-dos");
        reveal_strlit(":");
        assert(ts[1].license_type_id.subrange(0, (ts[1].regulator_id + ":"@).len() as int) =~= ts[1].regulator_id + ":"@);
    }
    assert(license_type_id_prefixed(ts[2])) by {
        reveal_strlit("us-de-dos:lp-registration");
        reveal_strlit("us-de-dos");
        reveal_strlit(":");
        assert(ts[2].license_type_id.subrange(0, (ts[2].regulator_id + ":"@).len() as int) =~= ts[2].regulator_id + ":"@);
    }
    assert(license_type_id_prefixed(ts[3])) by {
        reveal_strlit("us-de-osbc:money-transmitter");
        reveal_strlit("us-de-osbc");
        reveal_strlit(":");
        assert(ts[3].license_type_id.subrange(0, (ts[3].regulator_id + ":"@).len() as int) =~= ts[3].regulator_id + ":"@);
    }
    assert(license_type_id_prefixed(ts[4])) by {
        reveal_strlit("us-de-osbc:banking-charter");
        reveal_strlit("us-de-osbc");
        reveal_strlit(":");
        assert(ts[4].license_type_id.subrange(0, (ts[4].regulator_id + ":"@).len() as int) =~= ts[4].regulator_id + ":"@);
    }
    assert(license_type_id_prefixed(ts[5])) by {
        reveal_strlit("us-de-doi:insurance-producer");
        reveal_strlit("us-de-doi");
        reveal_strlit(":");
        assert(ts[5].license_type_id.subrange(0, (ts[5].regulator_id + ":"@).len() as int) =~= ts[5].regulator_id + ":"@);
    }
    assert(license_type_id_prefixed(ts[6])) by {
        reveal_strlit("us-de-sec:broker-dealer");
        reveal_strlit("us-de-sec");
        reveal_strlit(":");
        assert(ts[6].license_type_id.subrange(0, (ts[6].regulator_id + ":"@).len() as int) =~= ts[6].regulator_id + ":"@);
    }
    assert(prefixed_each(ts)) by {
        reveal_with_fuel(prefixed_each, 8);
    }
    lemma_prefixed_each(ts);
}

/// Each licence-type identifier of `wy_license_types` starts with its regulator's
/// identifier and a colon.
proof fn lemma_wy_license_types_prefixed()
    ensures
        license_type_ids_prefixed(spec_wy_license_types()),
{
    let ts = spec_wy_license_types();
    assert(license_type_id_prefixed(ts[0])) by {
        reveal_strlit("us-wy-sos:corp-registration");
        reveal_strlit("us-wy-sos");
        reveal_strlit(":");
        assert(ts[0].license_type_id.subrange(0, (ts[0].regulator_id + ":"@).len() as int) =~= ts[0].regulator_id + ":"@);
    }
    assert(license_type_id_prefixed(ts[1])) by {
        reveal_strlit("us-wy-sos:llc-registration");
        reveal_strlit("us-wy-sos");
        reveal_strlit(":");
        assert(ts[1].license_type_id.subrange(0, (ts[1].regulator_id + ":"@).len() as int) =~= ts[1].regulator_id + ":"@);
    }
    assert(license_type_id_prefixed(ts[2])) by {
        reveal_strlit("us-wy-sos:dao-llc");
        reveal_strlit("us-wy-sos");
        reveal_strlit(":");
        assert(ts[2].license_type_id.subrange(0, (ts[2].regulator_id + ":"@).len() as int) =~= ts[2].regulator_id + ":"@);
    }
    assert(license_type_id_prefixed(ts[3])) by {
        reveal_strlit("us-wy-dob:spdi-charter");
        reveal_strlit("us-wy-dob");
        reveal_strlit(":");
        assert(ts[3].license_type_id.subrange(0, (ts[3].regulator_id + ":"@).len() as int) =~= ts[3].regulator_id + ":"@);
    }
    assert(license_type_id_prefixed(ts[4])) by {
        reveal_strlit("us-wy-dob:money-transmitter");
        reveal_strlit("us-wy-dob");
        reveal_strlit(":");
        assert(ts[4].license_type_id.subrange(0, (ts[4].regulator_id + ":"@).len() as int) =~= ts[4].regulator_id + ":"@);
    }
    assert(license_type_id_prefixed(ts[5])) by {
        reveal_strlit("us-wy-doi:insurance-producer");
        reveal_strlit("us-wy-doi");
        reveal_strlit(":");
        assert(ts[5].license_type_id.subrange(0, (ts[5].regulator_id + ":"@).len() as int) =~= ts[5].regulator_id + ":"@);
    }
    assert(license_type_id_prefixed(ts[6])) by {
        reveal_strlit("us-wy-sec:broker-dealer");
        reveal_strlit("us-wy-sec");
        reveal_strlit(":");
        assert(ts[6].license_type_id.subrange(0, (ts[6].regulator_id + ":"@).len() as int) =~= ts[6].regulator_id + ":"@);
    }
    assert(prefixed_each(ts)) by {
        reveal_with_fuel(prefixed_each, 8);
    }
    lemma_prefixed_each(ts);
}

/// Each licence-type identifier of `tx_license_types` starts with its regulator's
/// identifier and a colon.
proof fn lemma_tx_license_types_prefixed()
    ensures
        license_type_ids_prefixed(spec_tx_license_types()),
{
    let ts = spec_tx_license_types();
    assert(license_type_id_prefixed(ts[0])) by {
        reveal_strlit("us-tx-sos:corp-registration");
        reveal_strlit("us-tx-sos");
        reveal_strlit(":");
        assert(ts[0].license_type_id.subrange(0, (ts[0].regulator_id + ":"@).len() as int) =~= ts[0].regulator_id + ":"@);
    }
    assert(license_type_id_prefixed(ts[1])) by {
        reveal_strlit("us-tx-sos:llc-registration");
        reveal_strlit("us-tx-sos");
        reveal_strlit(":");
        assert(ts[1].license_type_id.subrange(0, (ts[1].regulator_id + ":"@).len() as int) =~= ts[1].regulator_id + ":"@);
    }
    assert(license_type_id_prefixed(ts[2])) by {
        reveal_strlit("us-tx-dob:money-transmitter");
        reveal_strlit("us-tx-dob");
        reveal_strlit(":");
        assert(ts[2].license_type_id.subrange(0, (ts[2].regulator_id + ":"@).len() as int) =~= ts[2].regulator_id + ":"@);
    }
    assert(license_type_id_prefixed(ts[3])) by {
        reveal_strlit("us-tx-tdi:insurance-producer");
        reveal_strlit("us-tx-tdi");
        reveal_strlit(":");
        assert(ts[3].license_type_id.subrange(0, (ts[3].regulator_id + ":"@).len() as int) =~= ts[3].regulator_id + ":"@);
    }
    assert(license_type_id_prefixed(ts[4])) by {
        reveal_strlit("us-tx-tssb:broker-dealer");
        reveal_strlit("us-tx-tssb");
        reveal_strlit(":");
        assert(ts[4].license_type_id.subrange(0, (ts[4].regulator_id + ":"@).len() as int) =~= ts[4].regulator_id + ":"@);
    }
    assert(license_type_id_prefixed(ts[5])) by {
        reveal_strlit("us-tx-tssb:investment-adviser");
        reveal_strlit("us-tx-tssb");
        reveal_strlit(":");
        assert(ts[5].license_type_id.subrange(0, (ts[5].regulator_id + ":"@).len() as int) =~= ts[5].regulator_id + ":"@);
    }
    assert(prefixed_each(ts)) by {
        reveal_with_fuel(prefixed_each, 7);
    }
    lemma_prefixed_each(ts);
}

/// Each licence-type identifier of `fl_license_types` starts with its regulator's
/// identifier and a colon.
proof fn lemma_fl_license_types_prefixed()
    ensures
        license_type_ids_prefixed(spec_fl_license_types()),
{
    let ts = spec_fl_license_types();
    assert(license_type_id_prefixed(ts[0])) by {
        reveal_strlit("us-fl-dos:corp-registration");
        reveal_strlit("us-fl-dos");
        reveal_strlit(":");
        assert(ts[0].license_type_id.subrange(0, (ts[0].regulator_id + ":"@).len() as int) =~= ts[0].regulator_id + ":"@);
    }
    assert(license_type_id_prefixed(ts[1])) by {
        reveal_strlit("us-fl-dos:llc-registration");
        reveal_strlit("us-fl-dos");
        reveal_strlit(":");
        assert(ts[1].license_type_id.subrange(0, (ts[1].regulator_id + ":"@).len() as int) =~= ts[1].regulator_id + ":"@);
    }
    assert(license_type_id_prefixed(ts[2])) by {
        reveal_strlit("us-fl-ofr:money-transmitter");
        reveal_strlit("us-fl-ofr");
        reveal_strlit(":");
        assert(ts[2].license_type_id.subrange(0, (ts[2].regulator_id + ":"@).len() as int) =~= ts[2].regulator_id + ":"@);
    }
    assert(license_type_id_prefixed(ts[3])) by {
        reveal_strlit("us-fl-ofr:money-services");
        reveal_strlit("us-fl-ofr");
        reveal_strlit(":");
        assert(ts[3].license_type_id.subrange(0, (ts[3].regulator_id + ":"@).len() as int) =~= ts[3].regulator_id + ":"@);
    }
    assert(license_type_id_prefixed(ts[4])) by {
        reveal_strlit("us-fl-doi:insurance-producer");
        reveal_strlit("us-fl-doi");
        reveal_strlit(":");
        assert(ts[4].license_type_id.subrange(0, (ts[4].regulator_id + ":"@).len() as int) =~= ts[4].regulator_id + ":"@);
    }
    assert(license_type_id_prefixed(ts[5])) by {
        reveal_strlit("us-fl-sec:broker-dealer");
        reveal_strlit("us-fl-sec");
        reveal_strlit(":");
        assert(ts[5].license_type_id.subrange(0, (ts[5].regulator_id + ":"@).len() as int) =~= ts[5].regulator_id + ":"@);
    }
    assert(prefixed_each(ts)) by {
        reveal_with_fuel(prefixed_each, 7);
    }
    lemma_prefixed_each(ts);
}

/// Each licence-type identifier of `nv_license_types` starts with its regulator's
/// identifier and a colon.
proof fn lemma_nv_license_types_prefixed()
    ensures
        license_type_ids_prefixed(spec_nv_license_types()),
{
    let ts = spec_nv_license_types();
    assert(license_type_id_prefixed(ts[0])) by {
        reveal_strlit("us-nv-sos:corp-registration");
        reveal_strlit("us-nv-sos");
        reveal_strlit(":");
        assert(ts[0].license_type_id.subrange(0, (ts[0].regulator_id + ":"@).len() as int) =~= ts[0].regulator_id + ":"@);
    }
    assert(license_type_id_prefixed(ts[1])) by {
        reveal_strlit("us-nv-sos:llc-registration");
        reveal_strlit("us-nv-sos");
        reveal_strlit(":");
        assert(ts[1].license_type_id.subrange(0, (ts[1].regulator_id + ":"@).len() as int) =~= ts[1].regulator_id + ":"@);
    }
    assert(license_type_id_prefixed(ts[2])) by {
        reveal_strlit("us-nv-fid:money-transmitter");
        reveal_strlit("us-nv-fid");
        reveal_strlit(":");
        assert(ts[2].license_type_id.subrange(0, (ts[2].regulator_id + ":"@).len() as int) =~= ts[2].regulator_id + ":"@);
    }
    assert(license_type_id_prefixed(ts[3])) by {
        reveal_strlit("us-nv-fid:digital-asset-license");
        reveal_strlit("us-nv-fid");
        reveal_strlit(":");
        assert(ts[3].license_type_id.subrange(0, (ts[3].regulator_id + ":"@).len() as int) =~= ts[3].regulator_id + ":"@);
    }
    assert(license_type_id_prefixed(ts[4])) by {
        reveal_strlit("us-nv-doi:insurance-producer");
        reveal_strlit("us-nv-doi");
        reveal_strlit(":");
        assert(ts[4].license_type_id.subrange(0, (ts[4].regulator_id + ":"@).len() as int) =~= ts[4].regulator_id + ":"@);
    }
    assert(license_type_id_prefixed(ts[5])) by {
        reveal_strlit("us-nv-sec:broker-dealer");
        reveal_strlit("us-nv-sec");
        reveal_strlit(":");
        assert(ts[5].license_type_id.subrange(0, (ts[5].regulator_id + ":"@).len() as int) =~= ts[5].regulator_id + ":"@);
    }
    assert(prefixed_each(ts)) by {
        reveal_with_fuel(prefixed_each, 7);
    }
    lemma_prefixed_each(ts);
}

/// Each licence-type identifier of `il_license_types` starts with its regulator's
/// identifier and a colon.
proof fn lemma_il_license_types_prefixed()
    ensures
        license_type_ids_prefixed(spec_il_license_types()),
{
    let ts = spec_il_license_types();
    assert(license_type_id_prefixed(ts[0])) by {
        reveal_strlit("us-il-sos:corp-registration");
        reveal_strlit("us-il-sos");
        reveal_strlit(":");
        assert(ts[0].license_type_id.subrange(0, (ts[0].regulator_id + ":"@).len() as int) =~= ts[0].regulator_id + ":"@);
    }
    assert(license_type_id_prefixed(ts[1])) by {
        reveal_strlit("us-il-sos:llc-registration");
        reveal_strlit("us-il-sos");
        reveal_strlit(":");
        assert(ts[1].license_type_id.subrange(0, (ts[1].regulator_id + ":"@).len() as int) =~= ts[1].regulator_id + ":"@);
    }
    assert(license_type_id_prefixed(ts[2])) by {
        reveal_strlit("us-il-idfpr:money-transmitter");
        reveal_strlit("us-il-idfpr");
        reveal_strlit(":");
        assert(ts[2].license_type_id.subrange(0, (ts[2].regulator_id + ":"@).len() as int) =~= ts[2].regulator_id + ":"@);
    }
    assert(license_type_id_prefixed(ts[3])) by {
        reveal_strlit("us-il-doi:insurance-producer");
        reveal_strlit("us-il-doi");
        reveal_strlit(":");
        assert(ts[3].license_type_id.subrange(0, (ts[3].regulator_id + ":"@).len() as int) =~= ts[3].regulator_id + ":"@);
    }
    assert(license_type_id_prefixed(ts[4])) by {
        reveal_strlit("us-il-sec:broker-dealer");
        reveal_strlit("us-il-sec");
        reveal_strlit(":");
        assert(ts[4].license_type_id.subrange(0, (ts[4].regulator_id + ":"@).len() as int) =~= ts[4].regulator_id + ":"@);
    }
    assert(prefixed_each(ts)) by {
        reveal_with_fuel(prefixed_each, 6);
    }
    lemma_prefixed_each(ts);
}

proof fn lemma_al_license_types_prefixed()
    ensures
        license_type_ids_prefixed(spec_al_license_types()),
{
    lemma_state_license_types_prefixed("Alabama"@, "us-al"@);
}

proof fn lemma_ak_license_types_prefixed()
    ensures
        license_type_ids_prefixed(spec_ak_license_types()),
{
    lemma_state_license_types_prefixed("Alaska"@, "us-ak"@);
}

proof fn lemma_az_license_types_prefixed()
    ensures
        license_type_ids_prefixed(spec_az_license_types()),
{
    lemma_state_license_types_prefixed("Arizona"@, "us-az"@);
}

proof fn lemma_ar_license_types_prefixed()
    ensures
        license_type_ids_prefixed(spec_ar_license_types()),
{
    lemma_state_license_types_prefixed("Arkansas"@, "us-ar"@);
}

proof fn lemma_co_license_types_prefixed()
    ensures
        license_type_ids_prefixed(spec_co_license_types()),
{
    lemma_state_license_types_prefixed("Colorado"@, "us-co"@);
}

proof fn lemma_ct_license_types_prefixed()
    ensures
        license_type_ids_prefixed(spec_ct_license_types()),
{
    lemma_state_license_types_prefixed("Connecticut"@, "us-ct"@);
}

proof fn lemma_ga_license_types_prefixed()
    ensures
        license_type_ids_prefixed(spec_ga_license_types()),
{
    lemma_state_license_types_prefixed("Georgia"@, "us-ga"@);
}

proof fn lemma_hi_license_types_prefixed()
    ensures
        license_type_ids_prefixed(spec_hi_license_types()),
{
    lemma_state_license_types_prefixed("Hawaii"@, "us-hi"@);
}

proof fn lemma_id_license_types_prefixed()
    ensures
        license_type_ids_prefixed(spec_id_license_types()),
{
    lemma_state_license_types_prefixed("Idaho"@, "us-id"@);
}

proof fn lemma_in_license_types_prefixed()
    ensures
        license_type_ids_prefixed(spec_in_license_types()),
{
    lemma_state_license_types_prefixed("Indiana"@, "us-in"@);
}

proof fn lemma_ia_license_types_prefixed()
    ensures
        license_type_ids_prefixed(spec_ia_license_types()),
{
    lemma_state_license_types_prefixed("Iowa"@, "us-ia"@);
}

proof fn lemma_ks_license_types_prefixed()
    ensures
        license_type_ids_prefixed(spec_ks_license_types()),
{
    lemma_state_license_types_prefixed("Kansas"@, "us-ks"@);
}

proof fn lemma_ky_license_types_prefixed()
    ensures
        license_type_ids_prefixed(spec_ky_license_types()),
{
    lemma_state_license_types_prefixed("Kentucky"@, "us-ky"@);
}

proof fn lemma_la_license_types_prefixed()
    ensures
        license_type_ids_prefixed(spec_la_license_types()),
{
    lemma_state_license_types_prefixed("Louisiana"@, "us-la"@);
}

proof fn lemma_me_license_types_prefixed()
    ensures
        license_type_ids_prefixed(spec_me_license_types()),
{
    lemma_state_license_types_prefixed("Maine"@, "us-me"@);
}

proof fn lemma_md_license_types_prefixed()
    ensures
        license_type_ids_prefixed(spec_md_license_types()),
{
    lemma_state_license_types_prefixed("Maryland"@, "us-md"@);
}

proof fn lemma_ma_license_types_prefixed()
    ensures
        license_type_ids_prefixed(spec_ma_license_types()),
{
    lemma_state_license_types_prefixed("Massachusetts"@, "us-ma"@);
}

proof fn lemma_mi_license_types_prefixed()
    ensures
        license_type_ids_prefixed(spec_mi_license_types()),
{
    lemma_state_license_types_prefixed("Michigan"@, "us-mi"@);
}

proof fn lemma_mn_license_types_prefixed()
    ensures
        license_type_ids_prefixed(spec_mn_license_types()),
{
    lemma_state_license_types_prefixed("Minnesota"@, "us-mn"@);
}

proof fn lemma_ms_license_types_prefixed()
    ensures
        license_type_ids_prefixed(spec_ms_license_types()),
{
    lemma_state_license_types_prefixed("Mississippi"@, "us-ms"@);
}

proof fn lemma_mo_license_types_prefixed()
    ensures
        license_type_ids_prefixed(spec_mo_license_types()),
{
    lemma_state_license_types_prefixed("Missouri"@, "us-mo"@);
}

proof fn lemma_mt_license_types_prefixed()
    ensures
        license_type_ids_prefixed(spec_mt_license_types()),
{
    lemma_state_license_types_prefixed("Montana"@, "us-mt"@);
}

proof fn lemma_ne_license_types_prefixed()
    ensures
        license_type_ids_prefixed(spec_ne_license_types()),
{
    lemma_state_license_types_prefixed("Nebraska"@, "us-ne"@);
}

proof fn lemma_nh_license_types_prefixed()
    ensures
        license_type_ids_prefixed(spec_nh_license_types()),
{
    lemma_state_license_types_prefixed("New Hampshire"@, "us-nh"@);
}

proof fn lemma_nj_license_types_prefixed()
    ensures
        license_type_ids_prefixed(spec_nj_license_types()),
{
    lemma_state_license_types_prefixed("New Jersey"@, "us-nj"@);
}

proof fn lemma_nm_license_types_prefixed()
    ensures
        license_type_ids_prefixed(spec_nm_license_types()),
{
    lemma_state_license_types_prefixed("New Mexico"@, "us-nm"@);
}

proof fn lemma_nc_license_types_prefixed()
    ensures
        license_type_ids_prefixed(spec_nc_license_types()),
{
    lemma_state_license_types_prefixed("North Carolina"@, "us-nc"@);
}

proof fn lemma_nd_license_types_prefixed()
    ensures
        license_type_ids_prefixed(spec_nd_license_types()),
{
    lemma_state_license_types_prefixed("North Dakota"@, "us-nd"@);
}

proof fn lemma_oh_license_types_prefixed()
    ensures
        license_type_ids_prefixed(spec_oh_license_types()),
{
    lemma_state_license_types_prefixed("Ohio"@, "us-oh"@);
}

proof fn lemma_ok_license_types_prefixed()
    ensures
        license_type_ids_prefixed(spec_ok_license_types()),
{
    lemma_state_license_types_prefixed("Oklahoma"@, "us-ok"@);
}

proof fn lemma_or_license_types_prefixed()
    ensures
        license_type_ids_prefixed(spec_or_license_types()),
{
    lemma_state_license_types_prefixed("Oregon"@, "us-or"@);
}

proof fn lemma_pa_license_types_prefixed()
    ensures
        license_type_ids_prefixed(spec_pa_license_types()),
{
    lemma_state_license_types_prefixed("Pennsylvania"@, "us-pa"@);
}

proof fn lemma_ri_license_types_prefixed()
    ensures
        license_type_ids_prefixed(spec_ri_license_types()),
{
    lemma_state_license_types_prefixed("Rhode Island"@, "us-ri"@);
}

proof fn lemma_sc_license_types_prefixed()
    ensures
        license_type_ids_prefixed(spec_sc_license_types()),
{
    lemma_state_license_types_prefixed("South Carolina"@, "us-sc"@);
}

proof fn lemma_sd_license_types_prefixed()
    ensures
        license_type_ids_prefixed(spec_sd_license_types()),
{
    lemma_state_license_types_prefixed("South Dakota"@, "us-sd"@);
}

proof fn lemma_tn_license_types_prefixed()
    ensures
        license_type_ids_prefixed(spec_tn_license_types()),
{
    lemma_state_license_types_prefixed("Tennessee"@, "us-tn"@);
}

proof fn lemma_ut_license_types_prefixed()
    ensures
        license_type_ids_prefixed(spec_ut_license_types()),
{
    lemma_state_license_types_prefixed("Utah"@, "us-ut"@);
}

proof fn lemma_vt_license_types_prefixed()
    ensures
        license_type_ids_prefixed(spec_vt_license_types()),
{
    lemma_state_license_types_prefixed("Vermont"@, "us-vt"@);
}

proof fn lemma_va_license_types_prefixed()
    ensures
        license_type_ids_prefixed(spec_va_license_types()),
{
    lemma_state_license_types_prefixed("Virginia"@, "us-va"@);
}

proof fn lemma_wa_license_types_prefixed()
    ensures
        license_type_ids_prefixed(spec_wa_license_types()),
{
    lemma_state_license_types_prefixed("Washington"@, "us-wa"@);
}

proof fn lemma_wv_license_types_prefixed()
    ensures
        license_type_ids_prefixed(spec_wv_license_types()),
{
    lemma_state_license_types_prefixed("West Virginia"@, "us-wv"@);
}

proof fn lemma_wi_license_types_prefixed()
    ensures
        license_type_ids_prefixed(spec_wi_license_types()),
{
    lemma_state_license_types_prefixed("Wisconsin"@, "us-wi"@);
}

proof fn lemma_dc_license_types_prefixed()
    ensures
        license_type_ids_prefixed(spec_dc_license_types()),
{
    lemma_state_license_types_prefixed("District of Columbia"@, "us-dc"@);
}

proof fn lemma_pr_license_types_prefixed()
    ensures
        license_type_ids_prefixed(spec_pr_license_types()),
{
    lemma_state_license_types_prefixed("Puerto Rico"@, "us-pr"@);
}

proof fn lemma_gu_license_types_prefixed()
    ensures
        license_type_ids_prefixed(spec_gu_license_types()),
{
    lemma_state_license_types_prefixed("Guam"@, "us-gu"@);
}

proof fn lemma_vi_license_types_prefixed()
    ensures
        license_type_ids_prefixed(spec_vi_license_types()),
{
    lemma_state_license_types_prefixed("US Virgin Islands"@, "us-vi"@);
}

proof fn lemma_as_license_types_prefixed()
    ensures
        license_type_ids_prefixed(spec_as_license_types()),
{
    lemma_state_license_types_prefixed("American Samoa"@, "us-as"@);
}

proof fn lemma_mp_license_types_prefixed()
    ensures
        license_type_ids_prefixed(spec_mp_license_types()),
{
    lemma_state_license_types_prefixed("Northern Mariana Islands"@, "us-mp"@);
}

/// Every licence-type identifier of the United States catalog starts with the
/// identifier of the regulator that grants it, followed by a colon.
pub proof fn lemma_us_license_types_prefixed()
    ensures
        license_type_ids_prefixed(spec_us_license_types()),
{
    lemma_ny_license_types_prefixed();
    lemma_ca_license_types_prefixed();
    lemma_de_license_types_prefixed();
    lemma_wy_license_types_prefixed();
    lemma_tx_license_types_prefixed();
    lemma_fl_license_types_prefixed();
    lemma_nv_license_types_prefixed();
    lemma_il_license_types_prefixed();
    lemma_al_license_types_prefixed();
    lemma_ak_license_types_prefixed();
    lemma_az_license_types_prefixed();
    lemma_ar_license_types_prefixed();
    lemma_co_license_types_prefixed();
    lemma_ct_license_types_prefixed();
    lemma_ga_license_types_prefixed();
    lemma_hi_license_types_prefixed();
    lemma_id_license_types_prefixed();
    lemma_in_license_types_prefixed();
    lemma_ia_license_types_prefixed();
    lemma_ks_license_types_prefixed();
    lemma_ky_license_types_prefixed();
    lemma_la_license_types_prefixed();
    lemma_me_license_types_prefixed();
    lemma_md_license_types_prefixed();
    lemma_ma_license_types_prefixed();
    lemma_mi_license_types_prefixed();
    lemma_mn_license_types_prefixed();
    lemma_ms_license_types_prefixed();
    lemma_mo_license_types_prefixed();
    lemma_mt_license_types_prefixed();
    lemma_ne_license_types_prefixed();
    lemma_nh_license_types_prefixed();
    lemma_nj_license_types_prefixed();
    lemma_nm_license_types_prefixed();
    lemma_nc_license_types_prefixed();
    lemma_nd_license_types_prefixed();
    lemma_oh_license_types_prefixed();
    lemma_ok_license_types_prefixed();
    lemma_or_license_types_prefixed();
    lemma_pa_license_types_prefixed();
    lemma_ri_license_types_prefixed();
    lemma_sc_license_types_prefixed();
    lemma_sd_license_types_prefixed();
    lemma_tn_license_types_prefixed();
    lemma_ut_license_types_prefixed();
    lemma_vt_license_types_prefixed();
    lemma_va_license_types_prefixed();
    lemma_wa_license_types_prefixed();
    lemma_wv_license_types_prefixed();
    lemma_wi_license_types_prefixed();
    lemma_dc_license_types_prefixed();
    lemma_pr_license_types_prefixed();
    lemma_gu_license_types_prefixed();
    lemma_vi_license_types_prefixed();
    lemma_as_license_types_prefixed();
    lemma_mp_license_types_prefixed();
    lemma_prefixed_append(spec_ny_license_types(), spec_ca_license_types());
    lemma_prefixed_append(spec_ny_license_types() + spec_ca_license_types(), spec_de_license_types());
    lemma_prefixed_append(spec_ny_license_types() + spec_ca_license_types() + spec_de_license_types(), spec_wy_license_types());
    lemma_prefixed_append(spec_ny_license_types() + spec_ca_license_types() + spec_de_license_types() + spec_wy_license_types(), spec_tx_license_types());
    lemma_prefixed_append(spec_ny_license_types() + spec_ca_license_types() + spec_de_license_types() + spec_wy_license_types() + spec_tx_license_types(), spec_fl_license_types());
    lemma_prefixed_append(spec_ny_license_types() + spec_ca_license_types() + spec_de_license_types() + spec_wy_license_types() + spec_tx_license_types() + spec_fl_license_types(), spec_nv_license_types());
    lemma_prefixed_append(spec_ny_license_types() + spec_ca_license_types() + spec_de_license_types() + spec_wy_license_types() + spec_tx_license_types() + spec_fl_license_types() + spec_nv_license_types(), spec_il_license_types());
    lemma_prefixed_append(spec_ny_license_types() + spec_ca_license_types() + spec_de_license_types() + spec_wy_license_types() + spec_tx_license_types() + spec_fl_license_types() + spec_nv_license_types() + spec_il_license_types(), spec_al_license_types());
    lemma_prefixed_append(spec_ny_license_types() + spec_ca_license_types() + spec_de_license_types() + spec_wy_license_types() + spec_tx_license_types() + spec_fl_license_types() + spec_nv_license_types() + spec_il_license_types() + spec_al_license_types(), spec_ak_license_types());
    lemma_prefixed_append(spec_ny_license_types() + spec_ca_license_types() + spec_de_license_types() + spec_wy_license_types() + spec_tx_license_types() + spec_fl_license_types() + spec_nv_license_types() + spec_il_license_types() + spec_al_license_types() + spec_ak_license_types(), spec_az_license_types());
    lemma_prefixed_append(spec_ny_license_types() + spec_ca_license_types() + spec_de_license_types() + spec_wy_license_types() + spec_tx_license_types() + spec_fl_license_types() + spec_nv_license_types() + spec_il_license_types() + spec_al_license_types() + spec_ak_license_types() + spec_az_license_types(), spec_ar_license_types());
    lemma_prefixed_append(spec_ny_license_types() + spec_ca_license_types() + spec_de_license_types() + spec_wy_license_types() + spec_tx_license_types() + spec_fl_license_types() + spec_nv_license_types() + spec_il_license_types() + spec_al_license_types() + spec_ak_license_types() + spec_az_license_types() + spec_ar_license_types(), spec_co_license_types());
    lemma_prefixed_append(spec_ny_license_types() + spec_ca_license_types() + spec_de_license_types() + spec_wy_license_types() + spec_tx_license_types() + spec_fl_license_types() + spec_nv_license_types() + spec_il_license_types() + spec_al_license_types() + spec_ak_license_types() + spec_az_license_types() + spec_ar_license_types() + spec_co_license_types(), spec_ct_license_types());
    lemma_prefixed_append(spec_ny_license_types() + spec_ca_license_types() + spec_de_license_types() + spec_wy_license_types() + spec_tx_license_types() + spec_fl_license_types() + spec_nv_license_types() + spec_il_license_types() + spec_al_license_types() + spec_ak_license_types() + spec_az_license_types() + spec_ar_license_types() + spec_co_license_types() + spec_ct_license_types(), spec_ga_license_types());
    lemma_prefixed_append(spec_ny_license_types() + spec_ca_license_types() + spec_de_license_types() + spec_wy_license_types() + spec_tx_license_types() + spec_fl_license_types() + spec_nv_license_types() + spec_il_license_types() + spec_al_license_types() + spec_ak_license_types() + spec_az_license_types() + spec_ar_license_types() + spec_co_license_types() + spec_ct_license_types() + spec_ga_license_types(), spec_hi_license_types());
    lemma_prefixed_append(spec_ny_license_types() + spec_ca_license_types() + spec_de_license_types() + spec_wy_license_types() + spec_tx_license_types() + spec_fl_license_types() + spec_nv_license_types() + spec_il_license_types() + spec_al_license_types() + spec_ak_license_types() + spec_az_license_types() + spec_ar_license_types() + spec_co_license_types() + spec_ct_license_types() + spec_ga_license_types() + spec_hi_license_types(), spec_id_license_types());
    lemma_prefixed_append(spec_ny_license_types() + spec_ca_license_types() + spec_de_license_types() + spec_wy_license_types() + spec_tx_license_types() + spec_fl_license_types() + spec_nv_license_types() + spec_il_license_types() + spec_al_license_types() + spec_ak_license_types() + spec_az_license_types() + spec_ar_license_types() + spec_co_license_types() + spec_ct_license_types() + spec_ga_license_types() + spec_hi_license_types() + spec_id_license_types(), spec_in_license_types());
    lemma_prefixed_append(spec_ny_license_types() + spec_ca_license_types() + spec_de_license_types() + spec_wy_license_types() + spec_tx_license_types() + spec_fl_license_types() + spec_nv_license_types() + spec_il_license_types() + spec_al_license_types() + spec_ak_license_types() + spec_az_license_types() + spec_ar_license_types() + spec_co_license_types() + spec_ct_license_types() + spec_ga_license_types() + spec_hi_license_types() + spec_id_license_types() + spec_in_license_types(), spec_ia_license_types());
    lemma_prefixed_append(spec_ny_license_types() + spec_ca_license_types() + spec_de_license_types() + spec_wy_license_types() + spec_tx_license_types() + spec_fl_license_types() + spec_nv_license_types() + spec_il_license_types() + spec_al_license_types() + spec_ak_license_types() + spec_az_license_types() + spec_ar_license_types() + spec_co_license_types() + spec_ct_license_types() + spec_ga_license_types() + spec_hi_license_types() + spec_id_license_types() + spec_in_license_types() + spec_ia_license_types(), spec_ks_license_types());
    lemma_prefixed_append(spec_ny_license_types() + spec_ca_license_types() + spec_de_license_types() + spec_wy_license_types() + spec_tx_license_types() + spec_fl_license_types() + spec_nv_license_types() + spec_il_license_types() + spec_al_license_types() + spec_ak_license_types() + spec_az_license_types() + spec_ar_license_types() + spec_co_license_types() + spec_ct_license_types() + spec_ga_license_types() + spec_hi_license_types() + spec_id_license_types() + spec_in_license_types() + spec_ia_license_types() + spec_ks_license_types(), spec_ky_license_types());
    lemma_prefixed_append(spec_ny_license_types() + spec_ca_license_types() + spec_de_license_types() + spec_wy_license_types() + spec_tx_license_types() + spec_fl_license_types() + spec_nv_license_types() + spec_il_license_types() + spec_al_license_types() + spec_ak_license_types() + spec_az_license_types() + spec_ar_license_types() + spec_co_license_types() + spec_ct_license_types() + spec_ga_license_types() + spec_hi_license_types() + spec_id_license_types() + spec_in_license_types() + spec_ia_license_types() + spec_ks_license_types() + spec_ky_license_types(), spec_la_license_types());
    lemma_prefixed_append(spec_ny_license_types() + spec_ca_license_types() + spec_de_license_types() + spec_wy_license_types() + spec_tx_license_types() + spec_fl_license_types() + spec_nv_license_types() + spec_il_license_types() + spec_al_license_types() + spec_ak_license_types() + spec_az_license_types() + spec_ar_license_types() + spec_co_license_types() + spec_ct_license_types() + spec_ga_license_types() + spec_hi_license_types() + spec_id_license_types() + spec_in_license_types() + spec_ia_license_types() + spec_ks_license_types() + spec_ky_license_types() + spec_la_license_types(), spec_me_license_types());
    lemma_prefixed_append(spec_ny_license_types() + spec_ca_license_types() + spec_de_license_types() + spec_wy_license_types() + spec_tx_license_types() + spec_fl_license_types() + spec_nv_license_types() + spec_il_license_types() + spec_al_license_types() + spec_ak_license_types() + spec_az_license_types() + spec_ar_license_types() + spec_co_license_types() + spec_ct_license_types() + spec_ga_license_types() + spec_hi_license_types() + spec_id_license_types() + spec_in_license_types() + spec_ia_license_types() + spec_ks_license_types() + spec_ky_license_types() + spec_la_license_types() + spec_me_license_types(), spec_md_license_types());
    lemma_prefixed_append(spec_ny_license_types() + spec_ca_license_types() + spec_de_license_types() + spec_wy_license_types() + spec_tx_license_types() + spec_fl_license_types() + spec_nv_license_types() + spec_il_license_types() + spec_al_license_types() + spec_ak_license_types() + spec_az_license_types() + spec_ar_license_types() + spec_co_license_types() + spec_ct_license_types() + spec_ga_license_types() + spec_hi_license_types() + spec_id_license_types() + spec_in_license_types() + spec_ia_license_types() + spec_ks_license_types() + spec_ky_license_types() + spec_la_license_types() + spec_me_license_types() + spec_md_license_types(), spec_ma_license_types());
    lemma_prefixed_append(spec_ny_license_types() + spec_ca_license_types() + spec_de_license_types() + spec_wy_license_types() + spec_tx_license_types() + spec_fl_license_types() + spec_nv_license_types() + spec_il_license_types() + spec_al_license_types() + spec_ak_license_types() + spec_az_license_types() + spec_ar_license_types() + spec_co_license_types() + spec_ct_license_types() + spec_ga_license_types() + spec_hi_license_types() + spec_id_license_types() + spec_in_license_types() + spec_ia_license_types() + spec_ks_license_types() + spec_ky_license_types() + spec_la_license_types() + spec_me_license_types() + spec_md_license_types() + spec_ma_license_types(), spec_mi_license_types());
    lemma_prefixed_append(spec_ny_license_types() + spec_ca_license_types() + spec_de_license_types() + spec_wy_license_types() + spec_tx_license_types() + spec_fl_license_types() + spec_nv_license_types() + spec_il_license_types() + spec_al_license_types() + spec_ak_license_types() + spec_az_license_types() + spec_ar_license_types() + spec_co_license_types() + spec_ct_license_types() + spec_ga_license_types() + spec_hi_license_types() + spec_id_license_types() + spec_in_license_types() + spec_ia_license_types() + spec_ks_license_types() + spec_ky_license_types() + spec_la_license_types() + spec_me_license_types() + spec_md_license_types() + spec_ma_license_types() + spec_mi_license_types(), spec_mn_license_types());
    lemma_prefixed_append(spec_ny_license_types() + spec_ca_license_types() + spec_de_license_types() + spec_wy_license_types() + spec_tx_license_types() + spec_fl_license_types() + spec_nv_license_types() + spec_il_license_types() + spec_al_license_types() + spec_ak_license_types() + spec_az_license_types() + spec_ar_license_types() + spec_co_license_types() + spec_ct_license_types() + spec_ga_license_types() + spec_hi_license_types() + spec_id_license_types() + spec_in_license_types() + spec_ia_license_types() + spec_ks_license_types() + spec_ky_license_types() + spec_la_license_types() + spec_me_license_types() + spec_md_license_types() + spec_ma_license_types() + spec_mi_license_types() + spec_mn_license_types(), spec_ms_license_types());
    lemma_prefixed_append(spec_ny_license_types() + spec_ca_license_types() + spec_de_license_types() + spec_wy_license_types() + spec_tx_license_types() + spec_fl_license_types() + spec_nv_license_types() + spec_il_license_types() + spec_al_license_types() + spec_ak_license_types() + spec_az_license_types() + spec_ar_license_types() + spec_co_license_types() + spec_ct_license_types() + spec_ga_license_types() + spec_hi_license_types() + spec_id_license_types() + spec_in_license_types() + spec_ia_license_types() + spec_ks_license_types() + spec_ky_license_types() + spec_la_license_types() + spec_me_license_types() + spec_md_license_types() + spec_ma_license_types() + spec_mi_license_types() + spec_mn_license_types() + spec_ms_license_types(), spec_mo_license_types());
    lemma_prefixed_append(spec_ny_license_types() + spec_ca_license_types() + spec_de_license_types() + spec_wy_license_types() + spec_tx_license_types() + spec_fl_license_types() + spec_nv_license_types() + spec_il_license_types() + spec_al_license_types() + spec_ak_license_types() + spec_az_license_types() + spec_ar_license_types() + spec_co_license_types() + spec_ct_license_types() + spec_ga_license_types() + spec_hi_license_types() + spec_id_license_types() + spec_in_license_types() + spec_ia_license_types() + spec_ks_license_types() + spec_ky_license_types() + spec_la_license_types() + spec_me_license_types() + spec_md_license_types() + spec_ma_license_types() + spec_mi_license_types() + spec_mn_license_types() + spec_ms_license_types() + spec_mo_license_types(), spec_mt_license_types());
    lemma_prefixed_append(spec_ny_license_types() + spec_ca_license_types() + spec_de_license_types() + spec_wy_license_types() + spec_tx_license_types() + spec_fl_license_types() + spec_nv_license_types() + spec_il_license_types() + spec_al_license_types() + spec_ak_license_types() + spec_az_license_types() + spec_ar_license_types() + spec_co_license_types() + spec_ct_license_types() + spec_ga_license_types() + spec_hi_license_types() + spec_id_license_types() + spec_in_license_types() + spec_ia_license_types() + spec_ks_license_types() + spec_ky_license_types() + spec_la_license_types() + spec_me_license_types() + spec_md_license_types() + spec_ma_license_types() + spec_mi_license_types() + spec_mn_license_types() + spec_ms_license_types() + spec_mo_license_types() + spec_mt_license_types(), spec_ne_license_types());
    lemma_prefixed_append(spec_ny_license_types() + spec_ca_license_types() + spec_de_license_types() + spec_wy_license_types() + spec_tx_license_types() + spec_fl_license_types() + spec_nv_license_types() + spec_il_license_types() + spec_al_license_types() + spec_ak_license_types() + spec_az_license_types() + spec_ar_license_types() + spec_co_license_types() + spec_ct_license_types() + spec_ga_license_types() + spec_hi_license_types() + spec_id_license_types() + spec_in_license_types() + spec_ia_license_types() + spec_ks_license_types() + spec_ky_license_types() + spec_la_license_types() + spec_me_license_types() + spec_md_license_types() + spec_ma_license_types() + spec_mi_license_types() + spec_mn_license_types() + spec_ms_license_types() + spec_mo_license_types() + spec_mt_license_types() + spec_ne_license_types(), spec_nh_license_types());
    lemma_prefixed_append(spec_ny_license_types() + spec_ca_license_types() + spec_de_license_types() + spec_wy_license_types() + spec_tx_license_types() + spec_fl_license_types() + spec_nv_license_types() + spec_il_license_types() + spec_al_license_types() + spec_ak_license_types() + spec_az_license_types() + spec_ar_license_types() + spec_co_license_types() + spec_ct_license_types() + spec_ga_license_types() + spec_hi_license_types() + spec_id_license_types() + spec_in_license_types() + spec_ia_license_types() + spec_ks_license_types() + spec_ky_license_types() + spec_la_license_types() + spec_me_license_types() + spec_md_license_types() + spec_ma_license_types() + spec_mi_license_types() + spec_mn_license_types() + spec_ms_license_types() + spec_mo_license_types() + spec_mt_license_types() + spec_ne_license_types() + spec_nh_license_types(), spec_nj_license_types());
    lemma_prefixed_append(spec_ny_license_types() + spec_ca_license_types() + spec_de_license_types() + spec_wy_license_types() + spec_tx_license_types() + spec_fl_license_types() + spec_nv_license_types() + spec_il_license_types() + spec_al_license_types() + spec_ak_license_types() + spec_az_license_types() + spec_ar_license_types() + spec_co_license_types() + spec_ct_license_types() + spec_ga_license_types() + spec_hi_license_types() + spec_id_license_types() + spec_in_license_types() + spec_ia_license_types() + spec_ks_license_types() + spec_ky_license_types() + spec_la_license_types() + spec_me_license_types() + spec_md_license_types() + spec_ma_license_types() + spec_mi_license_types() + spec_mn_license_types() + spec_ms_license_types() + spec_mo_license_types() + spec_mt_license_types() + spec_ne_license_types() + spec_nh_license_types() + spec_nj_license_types(), spec_nm_license_types());
    lemma_prefixed_append(spec_ny_license_types() + spec_ca_license_types() + spec_de_license_types() + spec_wy_license_types() + spec_tx_license_types() + spec_fl_license_types() + spec_nv_license_types() + spec_il_license_types() + spec_al_license_types() + spec_ak_license_types() + spec_az_license_types() + spec_ar_license_types() + spec_co_license_types() + spec_ct_license_types() + spec_ga_license_types() + spec_hi_license_types() + spec_id_license_types() + spec_in_license_types() + spec_ia_license_types() + spec_ks_license_types() + spec_ky_license_types() + spec_la_license_types() + spec_me_license_types() + spec_md_license_types() + spec_ma_license_types() + spec_mi_license_types() + spec_mn_license_types() + spec_ms_license_types() + spec_mo_license_types() + spec_mt_license_types() + spec_ne_license_types() + spec_nh_license_types() + spec_nj_license_types() + spec_nm_license_types(), spec_nc_license_types());
    lemma_prefixed_append(spec_ny_license_types() + spec_ca_license_types() + spec_de_license_types() + spec_wy_license_types() + spec_tx_license_types() + spec_fl_license_types() + spec_nv_license_types() + spec_il_license_types() + spec_al_license_types() + spec_ak_license_types() + spec_az_license_types() + spec_ar_license_types() + spec_co_license_types() + spec_ct_license_types() + spec_ga_license_types() + spec_hi_license_types() + spec_id_license_types() + spec_in_license_types() + spec_ia_license_types() + spec_ks_license_types() + spec_ky_license_types() + spec_la_license_types() + spec_me_license_types() + spec_md_license_types() + spec_ma_license_types() + spec_mi_license_types() + spec_mn_license_types() + spec_ms_license_types() + spec_mo_license_types() + spec_mt_license_types() + spec_ne_license_types() + spec_nh_license_types() + spec_nj_license_types() + spec_nm_license_types() + spec_nc_license_types(), spec_nd_license_types());
    lemma_prefixed_append(spec_ny_license_types() + spec_ca_license_types() + spec_de_license_types() + spec_wy_license_types() + spec_tx_license_types() + spec_fl_license_types() + spec_nv_license_types() + spec_il_license_types() + spec_al_license_types() + spec_ak_license_types() + spec_az_license_types() + spec_ar_license_types() + spec_co_license_types() + spec_ct_license_types() + spec_ga_license_types() + spec_hi_license_types() + spec_id_license_types() + spec_in_license_types() + spec_ia_license_types() + spec_ks_license_types() + spec_ky_license_types() + spec_la_license_types() + spec_me_license_types() + spec_md_license_types() + spec_ma_license_types() + spec_mi_license_types() + spec_mn_license_types() + spec_ms_license_types() + spec_mo_license_types() + spec_mt_license_types() + spec_ne_license_types() + spec_nh_license_types() + spec_nj_license_types() + spec_nm_license_types() + spec_nc_license_types() + spec_nd_license_types(), spec_oh_license_types());
    lemma_prefixed_append(spec_ny_license_types() + spec_ca_license_types() + spec_de_license_types() + spec_wy_license_types() + spec_tx_license_types() + spec_fl_license_types() + spec_nv_license_types() + spec_il_license_types() + spec_al_license_types() + spec_ak_license_types() + spec_az_license_types() + spec_ar_license_types() + spec_co_license_types() + spec_ct_license_types() + spec_ga_license_types() + spec_hi_license_types() + spec_id_license_types() + spec_in_license_types() + spec_ia_license_types() + spec_ks_license_types() + spec_ky_license_types() + spec_la_license_types() + spec_me_license_types() + spec_md_license_types() + spec_ma_license_types() + spec_mi_license_types() + spec_mn_license_types() + spec_ms_license_types() + spec_mo_license_types() + spec_mt_license_types() + spec_ne_license_types() + spec_nh_license_types() + spec_nj_license_types() + spec_nm_license_types() + spec_nc_license_types() + spec_nd_license_types() + spec_oh_license_types(), spec_ok_license_types());
    lemma_prefixed_append(spec_ny_license_types() + spec_ca_license_types() + spec_de_license_types() + spec_wy_license_types() + spec_tx_license_types() + spec_fl_license_types() + spec_nv_license_types() + spec_il_license_types() + spec_al_license_types() + spec_ak_license_types() + spec_az_license_types() + spec_ar_license_types() + spec_co_license_types() + spec_ct_license_types() + spec_ga_license_types() + spec_hi_license_types() + spec_id_license_types() + spec_in_license_types() + spec_ia_license_types() + spec_ks_license_types() + spec_ky_license_types() + spec_la_license_types() + spec_me_license_types() + spec_md_license_types() + spec_ma_license_types() + spec_mi_license_types() + spec_mn_license_types() + spec_ms_license_types() + spec_mo_license_types() + spec_mt_license_types() + spec_ne_license_types() + spec_nh_license_types() + spec_nj_license_types() + spec_nm_license_types() + spec_nc_license_types() + spec_nd_license_types() + spec_oh_license_types() + spec_ok_license_types(), spec_or_license_types());
    lemma_prefixed_append(spec_ny_license_types() + spec_ca_license_types() + spec_de_license_types() + spec_wy_license_types() + spec_tx_license_types() + spec_fl_license_types() + spec_nv_license_types() + spec_il_license_types() + spec_al_license_types() + spec_ak_license_types() + spec_az_license_types() + spec_ar_license_types() + spec_co_license_types() + spec_ct_license_types() + spec_ga_license_types() + spec_hi_license_types() + spec_id_license_types() + spec_in_license_types() + spec_ia_license_types() + spec_ks_license_types() + spec_ky_license_types() + spec_la_license_types() + spec_me_license_types() + spec_md_license_types() + spec_ma_license_types() + spec_mi_license_types() + spec_mn_license_types() + spec_ms_license_types() + spec_mo_license_types() + spec_mt_license_types() + spec_ne_license_types() + spec_nh_license_types() + spec_nj_license_types() + spec_nm_license_types() + spec_nc_license_types() + spec_nd_license_types() + spec_oh_license_types() + spec_ok_license_types() + spec_or_license_types(), spec_pa_license_types());
    lemma_prefixed_append(spec_ny_license_types() + spec_ca_license_types() + spec_de_license_types() + spec_wy_license_types() + spec_tx_license_types() + spec_fl_license_types() + spec_nv_license_types() + spec_il_license_types() + spec_al_license_types() + spec_ak_license_types() + spec_az_license_types() + spec_ar_license_types() + spec_co_license_types() + spec_ct_license_types() + spec_ga_license_types() + spec_hi_license_types() + spec_id_license_types() + spec_in_license_types() + spec_ia_license_types() + spec_ks_license_types() + spec_ky_license_types() + spec_la_license_types() + spec_me_license_types() + spec_md_license_types() + spec_ma_license_types() + spec_mi_license_types() + spec_mn_license_types() + spec_ms_license_types() + spec_mo_license_types() + spec_mt_license_types() + spec_ne_license_types() + spec_nh_license_types() + spec_nj_license_types() + spec_nm_license_types() + spec_nc_license_types() + spec_nd_license_types() + spec_oh_license_types() + spec_ok_license_types() + spec_or_license_types() + spec_pa_license_types(), spec_ri_license_types());
    lemma_prefixed_append(spec_ny_license_types() + spec_ca_license_types() + spec_de_license_types() + spec_wy_license_types() + spec_tx_license_types() + spec_fl_license_types() + spec_nv_license_types() + spec_il_license_types() + spec_al_license_types() + spec_ak_license_types() + spec_az_license_types() + spec_ar_license_types() + spec_co_license_types() + spec_ct_license_types() + spec_ga_license_types() + spec_hi_license_types() + spec_id_license_types() + spec_in_license_types() + spec_ia_license_types() + spec_ks_license_types() + spec_ky_license_types() + spec_la_license_types() + spec_me_license_types() + spec_md_license_types() + spec_ma_license_types() + spec_mi_license_types() + spec_mn_license_types() + spec_ms_license_types() + spec_mo_license_types() + spec_mt_license_types() + spec_ne_license_types() + spec_nh_license_types() + spec_nj_license_types() + spec_nm_license_types() + spec_nc_license_types() + spec_nd_license_types() + spec_oh_license_types() + spec_ok_license_types() + spec_or_license_types() + spec_pa_license_types() + spec_ri_license_types(), spec_sc_license_types());
    lemma_prefixed_append(spec_ny_license_types() + spec_ca_license_types() + spec_de_license_types() + spec_wy_license_types() + spec_tx_license_types() + spec_fl_license_types() + spec_nv_license_types() + spec_il_license_types() + spec_al_license_types() + spec_ak_license_types() + spec_az_license_types() + spec_ar_license_types() + spec_co_license_types() + spec_ct_license_types() + spec_ga_license_types() + spec_hi_license_types() + spec_id_license_types() + spec_in_license_types() + spec_ia_license_types() + spec_ks_license_types() + spec_ky_license_types() + spec_la_license_types() + spec_me_license_types() + spec_md_license_types() + spec_ma_license_types() + spec_mi_license_types() + spec_mn_license_types() + spec_ms_license_types() + spec_mo_license_types() + spec_mt_license_types() + spec_ne_license_types() + spec_nh_license_types() + spec_nj_license_types() + spec_nm_license_types() + spec_nc_license_types() + spec_nd_license_types() + spec_oh_license_types() + spec_ok_license_types() + spec_or_license_types() + spec_pa_license_types() + spec_ri_license_types() + spec_sc_license_types(), spec_sd_license_types());
    lemma_prefixed_append(spec_ny_license_types() + spec_ca_license_types() + spec_de_license_types() + spec_wy_license_types() + spec_tx_license_types() + spec_fl_license_types() + spec_nv_license_types() + spec_il_license_types() + spec_al_license_types() + spec_ak_license_types() + spec_az_license_types() + spec_ar_license_types() + spec_co_license_types() + spec_ct_license_types() + spec_ga_license_types() + spec_hi_license_types() + spec_id_license_types() + spec_in_license_types() + spec_ia_license_types() + spec_ks_license_types() + spec_ky_license_types() + spec_la_license_types() + spec_me_license_types() + spec_md_license_types() + spec_ma_license_types() + spec_mi_license_types() + spec_mn_license_types() + spec_ms_license_types() + spec_mo_license_types() + spec_mt_license_types() + spec_ne_license_types() + spec_nh_license_types() + spec_nj_license_types() + spec_nm_license_types() + spec_nc_license_types() + spec_nd_license_types() + spec_oh_license_types() + spec_ok_license_types() + spec_or_license_types() + spec_pa_license_types() + spec_ri_license_types() + spec_sc_license_types() + spec_sd_license_types(), spec_tn_license_types());
    lemma_prefixed_append(spec_ny_license_types() + spec_ca_license_types() + spec_de_license_types() + spec_wy_license_types() + spec_tx_license_types() + spec_fl_license_types() + spec_nv_license_types() + spec_il_license_types() + spec_al_license_types() + spec_ak_license_types() + spec_az_license_types() + spec_ar_license_types() + spec_co_license_types() + spec_ct_license_types() + spec_ga_license_types() + spec_hi_license_types() + spec_id_license_types() + spec_in_license_types() + spec_ia_license_types() + spec_ks_license_types() + spec_ky_license_types() + spec_la_license_types() + spec_me_license_types() + spec_md_license_types() + spec_ma_license_types() + spec_mi_license_types() + spec_mn_license_types() + spec_ms_license_types() + spec_mo_license_types() + spec_mt_license_types() + spec_ne_license_types() + spec_nh_license_types() + spec_nj_license_types() + spec_nm_license_types() + spec_nc_license_types() + spec_nd_license_types() + spec_oh_license_types() + spec_ok_license_types() + spec_or_license_types() + spec_pa_license_types() + spec_ri_license_types() + spec_sc_license_types() + spec_sd_license_types() + spec_tn_license_types(), spec_ut_license_types());
    lemma_prefixed_append(spec_ny_license_types() + spec_ca_license_types() + spec_de_license_types() + spec_wy_license_types() + spec_tx_license_types() + spec_fl_license_types() + spec_nv_license_types() + spec_il_license_types() + spec_al_license_types() + spec_ak_license_types() + spec_az_license_types() + spec_ar_license_types() + spec_co_license_types() + spec_ct_license_types() + spec_ga_license_types() + spec_hi_license_types() + spec_id_license_types() + spec_in_license_types() + spec_ia_license_types() + spec_ks_license_types() + spec_ky_license_types() + spec_la_license_types() + spec_me_license_types() + spec_md_license_types() + spec_ma_license_types() + spec_mi_license_types() + spec_mn_license_types() + spec_ms_license_types() + spec_mo_license_types() + spec_mt_license_types() + spec_ne_license_types() + spec_nh_license_types() + spec_nj_license_types() + spec_nm_license_types() + spec_nc_license_types() + spec_nd_license_types() + spec_oh_license_types() + spec_ok_license_types() + spec_or_license_types() + spec_pa_license_types() + spec_ri_license_types() + spec_sc_license_types() + spec_sd_license_types() + spec_tn_license_types() + spec_ut_license_types(), spec_vt_license_types());
    lemma_prefixed_append(spec_ny_license_types() + spec_ca_license_types() + spec_de_license_types() + spec_wy_license_types() + spec_tx_license_types() + spec_fl_license_types() + spec_nv_license_types() + spec_il_license_types() + spec_al_license_types() + spec_ak_license_types() + spec_az_license_types() + spec_ar_license_types() + spec_co_license_types() + spec_ct_license_types() + spec_ga_license_types() + spec_hi_license_types() + spec_id_license_types() + spec_in_license_types() + spec_ia_license_types() + spec_ks_license_types() + spec_ky_license_types() + spec_la_license_types() + spec_me_license_types() + spec_md_license_types() + spec_ma_license_types() + spec_mi_license_types() + spec_mn_license_types() + spec_ms_license_types() + spec_mo_license_types() + spec_mt_license_types() + spec_ne_license_types() + spec_nh_license_types() + spec_nj_license_types() + spec_nm_license_types() + spec_nc_license_types() + spec_nd_license_types() + spec_oh_license_types() + spec_ok_license_types() + spec_or_license_types() + spec_pa_license_types() + spec_ri_license_types() + spec_sc_license_types() + spec_sd_license_types() + spec_tn_license_types() + spec_ut_license_types() + spec_vt_license_types(), spec_va_license_types());
    lemma_prefixed_append(spec_ny_license_types() + spec_ca_license_types() + spec_de_license_types() + spec_wy_license_types() + spec_tx_license_types() + spec_fl_license_types() + spec_nv_license_types() + spec_il_license_types() + spec_al_license_types() + spec_ak_license_types() + spec_az_license_types() + spec_ar_license_types() + spec_co_license_types() + spec_ct_license_types() + spec_ga_license_types() + spec_hi_license_types() + spec_id_license_types() + spec_in_license_types() + spec_ia_license_types() + spec_ks_license_types() + spec_ky_license_types() + spec_la_license_types() + spec_me_license_types() + spec_md_license_types() + spec_ma_license_types() + spec_mi_license_types() + spec_mn_license_types() + spec_ms_license_types() + spec_mo_license_types() + spec_mt_license_types() + spec_ne_license_types() + spec_nh_license_types() + spec_nj_license_types() + spec_nm_license_types() + spec_nc_license_types() + spec_nd_license_types() + spec_oh_license_types() + spec_ok_license_types() + spec_or_license_types() + spec_pa_license_types() + spec_ri_license_types() + spec_sc_license_types() + spec_sd_license_types() + spec_tn_license_types() + spec_ut_license_types() + spec_vt_license_types() + spec_va_license_types(), spec_wa_license_types());
    lemma_prefixed_append(spec_ny_license_types() + spec_ca_license_types() + spec_de_license_types() + spec_wy_license_types() + spec_tx_license_types() + spec_fl_license_types() + spec_nv_license_types() + spec_il_license_types() + spec_al_license_types() + spec_ak_license_types() + spec_az_license_types() + spec_ar_license_types() + spec_co_license_types() + spec_ct_license_types() + spec_ga_license_types() + spec_hi_license_types() + spec_id_license_types() + spec_in_license_types() + spec_ia_license_types() + spec_ks_license_types() + spec_ky_license_types() + spec_la_license_types() + spec_me_license_types() + spec_md_license_types() + spec_ma_license_types() + spec_mi_license_types() + spec_mn_license_types() + spec_ms_license_types() + spec_mo_license_types() + spec_mt_license_types() + spec_ne_license_types() + spec_nh_license_types() + spec_nj_license_types() + spec_nm_license_types() + spec_nc_license_types() + spec_nd_license_types() + spec_oh_license_types() + spec_ok_license_types() + spec_or_license_types() + spec_pa_license_types() + spec_ri_license_types() + spec_sc_license_types() + spec_sd_license_types() + spec_tn_license_types() + spec_ut_license_types() + spec_vt_license_types() + spec_va_license_types() + spec_wa_license_types(), spec_wv_license_types());
    lemma_prefixed_append(spec_ny_license_types() + spec_ca_license_types() + spec_de_license_types() + spec_wy_license_types() + spec_tx_license_types() + spec_fl_license_types() + spec_nv_license_types() + spec_il_license_types() + spec_al_license_types() + spec_ak_license_types() + spec_az_license_types() + spec_ar_license_types() + spec_co_license_types() + spec_ct_license_types() + spec_ga_license_types() + spec_hi_license_types() + spec_id_license_types() + spec_in_license_types() + spec_ia_license_types() + spec_ks_license_types() + spec_ky_license_types() + spec_la_license_types() + spec_me_license_types() + spec_md_license_types() + spec_ma_license_types() + spec_mi_license_types() + spec_mn_license_types() + spec_ms_license_types() + spec_mo_license_types() + spec_mt_license_types() + spec_ne_license_types() + spec_nh_license_types() + spec_nj_license_types() + spec_nm_license_types() + spec_nc_license_types() + spec_nd_license_types() + spec_oh_license_types() + spec_ok_license_types() + spec_or_license_types() + spec_pa_license_types() + spec_ri_license_types() + spec_sc_license_types() + spec_sd_license_types() + spec_tn_license_types() + spec_ut_license_types() + spec_vt_license_types() + spec_va_license_types() + spec_wa_license_types() + spec_wv_license_types(), spec_wi_license_types());
    lemma_prefixed_append(spec_ny_license_types() + spec_ca_license_types() + spec_de_license_types() + spec_wy_license_types() + spec_tx_license_types() + spec_fl_license_types() + spec_nv_license_types() + spec_il_license_types() + spec_al_license_types() + spec_ak_license_types() + spec_az_license_types() + spec_ar_license_types() + spec_co_license_types() + spec_ct_license_types() + spec_ga_license_types() + spec_hi_license_types() + spec_id_license_types() + spec_in_license_types() + spec_ia_license_types() + spec_ks_license_types() + spec_ky_license_types() + spec_la_license_types() + spec_me_license_types() + spec_md_license_types() + spec_ma_license_types() + spec_mi_license_types() + spec_mn_license_types() + spec_ms_license_types() + spec_mo_license_types() + spec_mt_license_types() + spec_ne_license_types() + spec_nh_license_types() + spec_nj_license_types() + spec_nm_license_types() + spec_nc_license_types() + spec_nd_license_types() + spec_oh_license_types() + spec_ok_license_types() + spec_or_license_types() + spec_pa_license_types() + spec_ri_license_types() + spec_sc_license_types() + spec_sd_license_types() + spec_tn_license_types() + spec_ut_license_types() + spec_vt_license_types() + spec_va_license_types() + spec_wa_license_types() + spec_wv_license_types() + spec_wi_license_types(), spec_dc_license_types());
    lemma_prefixed_append(spec_ny_license_types() + spec_ca_license_types() + spec_de_license_types() + spec_wy_license_types() + spec_tx_license_types() + spec_fl_license_types() + spec_nv_license_types() + spec_il_license_types() + spec_al_license_types() + spec_ak_license_types() + spec_az_license_types() + spec_ar_license_types() + spec_co_license_types() + spec_ct_license_types() + spec_ga_license_types() + spec_hi_license_types() + spec_id_license_types() + spec_in_license_types() + spec_ia_license_types() + spec_ks_license_types() + spec_ky_license_types() + spec_la_license_types() + spec_me_license_types() + spec_md_license_types() + spec_ma_license_types() + spec_mi_license_types() + spec_mn_license_types() + spec_ms_license_types() + spec_mo_license_types() + spec_mt_license_types() + spec_ne_license_types() + spec_nh_license_types() + spec_nj_license_types() + spec_nm_license_types() + spec_nc_license_types() + spec_nd_license_types() + spec_oh_license_types() + spec_ok_license_types() + spec_or_license_types() + spec_pa_license_types() + spec_ri_license_types() + spec_sc_license_types() + spec_sd_license_types() + spec_tn_license_types() + spec_ut_license_types() + spec_vt_license_types() + spec_va_license_types() + spec_wa_license_types() + spec_wv_license_types() + spec_wi_license_types() + spec_dc_license_types(), spec_pr_license_types());
    lemma_prefixed_append(spec_ny_license_types() + spec_ca_license_types() + spec_de_license_types() + spec_wy_license_types() + spec_tx_license_types() + spec_fl_license_types() + spec_nv_license_types() + spec_il_license_types() + spec_al_license_types() + spec_ak_license_types() + spec_az_license_types() + spec_ar_license_types() + spec_co_license_types() + spec_ct_license_types() + spec_ga_license_types() + spec_hi_license_types() + spec_id_license_types() + spec_in_license_types() + spec_ia_license_types() + spec_ks_license_types() + spec_ky_license_types() + spec_la_license_types() + spec_me_license_types() + spec_md_license_types() + spec_ma_license_types() + spec_mi_license_types() + spec_mn_license_types() + spec_ms_license_types() + spec_mo_license_types() + spec_mt_license_types() + spec_ne_license_types() + spec_nh_license_types() + spec_nj_license_types() + spec_nm_license_types() + spec_nc_license_types() + spec_nd_license_types() + spec_oh_license_types() + spec_ok_license_types() + spec_or_license_types() + spec_pa_license_types() + spec_ri_license_types() + spec_sc_license_types() + spec_sd_license_types() + spec_tn_license_types() + spec_ut_license_types() + spec_vt_license_types() + spec_va_license_types() + spec_wa_license_types() + spec_wv_license_types() + spec_wi_license_types() + spec_dc_license_types() + spec_pr_license_types(), spec_gu_license_types());
    lemma_prefixed_append(spec_ny_license_types() + spec_ca_license_types() + spec_de_license_types() + spec_wy_license_types() + spec_tx_license_types() + spec_fl_license_types() + spec_nv_license_types() + spec_il_license_types() + spec_al_license_types() + spec_ak_license_types() + spec_az_license_types() + spec_ar_license_types() + spec_co_license_types() + spec_ct_license_types() + spec_ga_license_types() + spec_hi_license_types() + spec_id_license_types() + spec_in_license_types() + spec_ia_license_types() + spec_ks_license_types() + spec_ky_license_types() + spec_la_license_types() + spec_me_license_types() + spec_md_license_types() + spec_ma_license_types() + spec_mi_license_types() + spec_mn_license_types() + spec_ms_license_types() + spec_mo_license_types() + spec_mt_license_types() + spec_ne_license_types() + spec_nh_license_types() + spec_nj_license_types() + spec_nm_license_types() + spec_nc_license_types() + spec_nd_license_types() + spec_oh_license_types() + spec_ok_license_types() + spec_or_license_types() + spec_pa_license_types() + spec_ri_license_types() + spec_sc_license_types() + spec_sd_license_types() + spec_tn_license_types() + spec_ut_license_types() + spec_vt_license_types() + spec_va_license_types() + spec_wa_license_types() + spec_wv_license_types() + spec_wi_license_types() + spec_dc_license_types() + spec_pr_license_types() + spec_gu_license_types(), spec_vi_license_types());
    lemma_prefixed_append(spec_ny_license_types() + spec_ca_license_types() + spec_de_license_types() + spec_wy_license_types() + spec_tx_license_types() + spec_fl_license_types() + spec_nv_license_types() + spec_il_license_types() + spec_al_license_types() + spec_ak_license_types() + spec_az_license_types() + spec_ar_license_types() + spec_co_license_types() + spec_ct_license_types() + spec_ga_license_types() + spec_hi_license_types() + spec_id_license_types() + spec_in_license_types() + spec_ia_license_types() + spec_ks_license_types() + spec_ky_license_types() + spec_la_license_types() + spec_me_license_types() + spec_md_license_types() + spec_ma_license_types() + spec_mi_license_types() + spec_mn_license_types() + spec_ms_license_types() + spec_mo_license_types() + spec_mt_license_types() + spec_ne_license_types() + spec_nh_license_types() + spec_nj_license_types() + spec_nm_license_types() + spec_nc_license_types() + spec_nd_license_types() + spec_oh_license_types() + spec_ok_license_types() + spec_or_license_types() + spec_pa_license_types() + spec_ri_license_types() + spec_sc_license_types() + spec_sd_license_types() + spec_tn_license_types() + spec_ut_license_types() + spec_vt_license_types() + spec_va_license_types() + spec_wa_license_types() + spec_wv_license_types() + spec_wi_license_types() + spec_dc_license_types() + spec_pr_license_types() + spec_gu_license_types() + spec_vi_license_types(), spec_as_license_types());
    lemma_prefixed_append(spec_ny_license_types() + spec_ca_license_types() + spec_de_license_types() + spec_wy_license_types() + spec_tx_license_types() + spec_fl_license_types() + spec_nv_license_types() + spec_il_license_types() + spec_al_license_types() + spec_ak_license_types() + spec_az_license_types() + spec_ar_license_types() + spec_co_license_types() + spec_ct_license_types() + spec_ga_license_types() + spec_hi_license_types() + spec_id_license_types() + spec_in_license_types() + spec_ia_license_types() + spec_ks_license_types() + spec_ky_license_types() + spec_la_license_types() + spec_me_license_types() + spec_md_license_types() + spec_ma_license_types() + spec_mi_license_types() + spec_mn_license_types() + spec_ms_license_types() + spec_mo_license_types() + spec_mt_license_types() + spec_ne_license_types() + spec_nh_license_types() + spec_nj_license_types() + spec_nm_license_types() + spec_nc_license_types() + spec_nd_license_types() + spec_oh_license_types() + spec_ok_license_types() + spec_or_license_types() + spec_pa_license_types() + spec_ri_license_types() + spec_sc_license_types() + spec_sd_license_types() + spec_tn_license_types() + spec_ut_license_types() + spec_vt_license_types() + spec_va_license_types() + spec_wa_license_types() + spec_wv_license_types() + spec_wi_license_types() + spec_dc_license_types() + spec_pr_license_types() + spec_gu_license_types() + spec_vi_license_types() + spec_as_license_types(), spec_mp_license_types());
    assert(spec_us_license_types() =~= spec_ny_license_types() + spec_ca_license_types() + spec_de_license_types() + spec_wy_license_types() + spec_tx_license_types() + spec_fl_license_types() + spec_nv_license_types() + spec_il_license_types() + spec_al_license_types() + spec_ak_license_types() + spec_az_license_types() + spec_ar_license_types() + spec_co_license_types() + spec_ct_license_types() + spec_ga_license_types() + spec_hi_license_types() + spec_id_license_types() + spec_in_license_types() + spec_ia_license_types() + spec_ks_license_types() + spec_ky_license_types() + spec_la_license_types() + spec_me_license_types() + spec_md_license_types() + spec_ma_license_types() + spec_mi_license_types() + spec_mn_license_types() + spec_ms_license_types() + spec_mo_license_types() + spec_mt_license_types() + spec_ne_license_types() + spec_nh_license_types() + spec_nj_license_types() + spec_nm_license_types() + spec_nc_license_types() + spec_nd_license_types() + spec_oh_license_types() + spec_ok_license_types() + spec_or_license_types() + spec_pa_license_types() + spec_ri_license_types() + spec_sc_license_types() + spec_sd_license_types() + spec_tn_license_types() + spec_ut_license_types() + spec_vt_license_types() + spec_va_license_types() + spec_wa_license_types() + spec_wv_license_types() + spec_wi_license_types() + spec_dc_license_types() + spec_pr_license_types() + spec_gu_license_types() + spec_vi_license_types() + spec_as_license_types() + spec_mp_license_types());
}

} // verus!
