//! Regulator profiles and licence-type definitions, with their views.
//!
//! A [`LicensepackRegulator`] describes a licensing authority; a
//! [`LicenseTypeDefinition`] describes one kind of licence that an
//! authority grants. The keyed tables of a licence type (requirements,
//! fees) are [`KeyedTable`]s: their keys are distinct and ascending.

use vstd::prelude::*;

use crate::table::{entry_texts, keys_ascending, table_map, KeyedTable};

verus! {

/// The value of one requirement attached to a licence type: any JSON
/// value, with the kinds that the rules read held as plain values.
#[derive(Debug, Clone, PartialEq, Eq)]
pub enum RequirementValue {
    /// A yes/no requirement (for example, "identity verification required").
    Flag(bool),
    /// A non-negative whole number (for example, a minimum age or a coverage
    /// amount).
    Number(u64),
    /// A negative whole number.
    Integer(i64),
    /// A text value.
    Text(String),
    /// Any other JSON value (a fractional number, null, an array or an
    /// object), carried as it is.
    Json(serde_json::Value),
}

/// Mathematical view of a [`RequirementValue`]; a value of another JSON
/// kind is seen only as such.
pub enum RequirementView {
    Flag(bool),
    Number(u64),
    Integer(i64),
    Text(Seq<char>),
    Json,
}

impl View for RequirementValue {
    type V = RequirementView;

    open spec fn view(&self) -> RequirementView {
        match self {
            RequirementValue::Flag(b) => RequirementView::Flag(*b),
            RequirementValue::Number(n) => RequirementView::Number(*n),
            RequirementValue::Integer(n) => RequirementView::Integer(*n),
            RequirementValue::Text(t) => RequirementView::Text(t@),
            RequirementValue::Json(_) => RequirementView::Json,
        }
    }
}

/// A copy of a requirement value, with the same view.
pub fn copy_requirement(v: &RequirementValue) -> (r: RequirementValue)
    ensures
        r@ == v@,
{
    match v {
        RequirementValue::Flag(b) => RequirementValue::Flag(*b),
        RequirementValue::Number(n) => RequirementValue::Number(*n),
        RequirementValue::Integer(n) => RequirementValue::Integer(*n),
        RequirementValue::Text(t) => RequirementValue::Text(t.clone()),
        RequirementValue::Json(j) => RequirementValue::Json(j.clone()),
    }
}

/// The views of the entries of a requirement table.
pub open spec fn requirement_views(s: Seq<(Seq<char>, RequirementValue)>) -> Seq<(Seq<char>, RequirementView)> {
    s.map_values(|p: (Seq<char>, RequirementValue)| (p.0, p.1@))
}

/// A licensing authority.
#[derive(Debug, Clone)]
pub struct LicensepackRegulator {
    /// Unique regulator identifier.
    pub regulator_id: String,
    /// Name of the authority.
    pub name: String,
    /// Jurisdiction identifier the authority belongs to.
    pub jurisdiction_id: String,
    /// Public registry URL.
    pub registry_url: Option<String>,
    /// Decentralized identifier of the authority.
    pub did: Option<String>,
    /// Registry services the authority offers.
    pub api_capabilities: Vec<String>,
}

/// Mathematical view of a [`LicensepackRegulator`].
#[verifier::ext_equal]
pub struct RegulatorView {
    pub regulator_id: Seq<char>,
    pub name: Seq<char>,
    pub jurisdiction_id: Seq<char>,
    pub registry_url: Option<Seq<char>>,
    pub did: Option<Seq<char>>,
    pub api_capabilities: Seq<Seq<char>>,
}

/// A kind of licence granted by an authority.
#[derive(Debug, Clone)]
pub struct LicenseTypeDefinition {
    /// Unique licence-type identifier.
    pub license_type_id: String,
    /// Display name.
    pub name: String,
    /// Description.
    pub description: String,
    /// Identifier of the granting authority.
    pub regulator_id: String,
    /// Category ("financial", "corporate", ...).
    pub category: Option<String>,
    /// Activities the licence permits.
    pub permitted_activities: Vec<String>,
    /// Requirements, by name.
    pub requirements: KeyedTable<RequirementValue>,
    /// Application fee, by currency.
    pub application_fee: KeyedTable<String>,
    /// Annual fee, by currency.
    pub annual_fee: KeyedTable<String>,
    /// Validity period in years.
    pub validity_period_years: Option<i32>,
}

/// Mathematical view of a [`LicenseTypeDefinition`].
#[verifier::ext_equal]
pub struct LicenseTypeView {
    pub license_type_id: Seq<char>,
    pub name: Seq<char>,
    pub description: Seq<char>,
    pub regulator_id: Seq<char>,
    pub category: Option<Seq<char>>,
    pub permitted_activities: Seq<Seq<char>>,
    pub requirements: Seq<(Seq<char>, RequirementView)>,
    pub application_fee: Seq<(Seq<char>, Seq<char>)>,
    pub annual_fee: Seq<(Seq<char>, Seq<char>)>,
    pub validity_period_years: Option<i32>,
}

/// The texts of a sequence of strings.
pub open spec fn texts(s: Seq<String>) -> Seq<Seq<char>> {
    s.map_values(|x: String| x@)
}

/// The text of an optional string.
pub open spec fn opt_text(o: Option<String>) -> Option<Seq<char>> {
    match o {
        Some(s) => Some(s@),
        None => None,
    }
}

/// The text of an optional string slice.
pub open spec fn opt_str_text(o: Option<&str>) -> Option<Seq<char>> {
    match o {
        Some(s) => Some(s@),
        None => None,
    }
}

/// The texts of the entries of a table of strings.
pub open spec fn fee_texts(s: Seq<(Seq<char>, String)>) -> Seq<(Seq<char>, Seq<char>)> {
    s.map_values(|p: (Seq<char>, String)| (p.0, p.1@))
}

impl View for LicensepackRegulator {
    type V = RegulatorView;

    open spec fn view(&self) -> RegulatorView {
        RegulatorView {
            regulator_id: self.regulator_id@,
            name: self.name@,
            jurisdiction_id: self.jurisdiction_id@,
            registry_url: opt_text(self.registry_url),
            did: opt_text(self.did),
            api_capabilities: texts(self.api_capabilities@),
        }
    }
}

impl View for LicenseTypeDefinition {
    type V = LicenseTypeView;

    open spec fn view(&self) -> LicenseTypeView {
        LicenseTypeView {
            license_type_id: self.license_type_id@,
            name: self.name@,
            description: self.description@,
            regulator_id: self.regulator_id@,
            category: opt_text(self.category),
            permitted_activities: texts(self.permitted_activities@),
            requirements: requirement_views(self.requirements@),
            application_fee: fee_texts(self.application_fee@),
            annual_fee: fee_texts(self.annual_fee@),
            validity_period_years: self.validity_period_years,
        }
    }
}

/// The views of a sequence of regulators.
pub open spec fn regulators_view(s: Seq<LicensepackRegulator>) -> Seq<RegulatorView> {
    s.map_values(|r: LicensepackRegulator| r@)
}

/// The views of a sequence of licence types.
pub open spec fn license_types_view(s: Seq<LicenseTypeDefinition>) -> Seq<LicenseTypeView> {
    s.map_values(|t: LicenseTypeDefinition| t@)
}

/// Builds a regulator profile with no DID.
pub fn regulator(id: &str, name: &str, jid: &str, url: Option<&str>, caps: &[&str]) -> (r:
    LicensepackRegulator)
    ensures
        r@ == (RegulatorView {
            regulator_id: id@,
            name: name@,
            jurisdiction_id: jid@,
            registry_url: opt_str_text(url),
            did: None,
            api_capabilities: str_texts(caps@),
        }),
{
    let registry_url = match url {
        Some(u) => Some(u.to_string()),
        None => None,
    };
    LicensepackRegulator {
        regulator_id: id.to_string(),
        name: name.to_string(),
        jurisdiction_id: jid.to_string(),
        registry_url,
        did: None,
        api_capabilities: strings(caps),
    }
}

/// Builds a licence-type definition.
pub fn license_type(
    id: &str,
    name: &str,
    desc: &str,
    reg_id: &str,
    category: Option<&str>,
    activities: &[&str],
    requirements: &[(&str, RequirementValue)],
    application_fee: &[(&str, &str)],
    annual_fee: &[(&str, &str)],
    validity: Option<i32>,
) -> (r: LicenseTypeDefinition)
    requires
        keys_ascending(str_requirement_entries(requirements@)),
        keys_ascending(str_text_pairs(application_fee@)),
        keys_ascending(str_text_pairs(annual_fee@)),
    ensures
        r@ == (LicenseTypeView {
            license_type_id: id@,
            name: name@,
            description: desc@,
            regulator_id: reg_id@,
            category: opt_str_text(category),
            permitted_activities: str_texts(activities@),
            requirements: str_requirement_entries(requirements@),
            application_fee: str_text_pairs(application_fee@),
            annual_fee: str_text_pairs(annual_fee@),
            validity_period_years: validity,
        }),
{
    let category = match category {
        Some(c) => Some(c.to_string()),
        None => None,
    };
    LicenseTypeDefinition {
        license_type_id: id.to_string(),
        name: name.to_string(),
        description: desc.to_string(),
        regulator_id: reg_id.to_string(),
        category,
        permitted_activities: strings(activities),
        requirements: requirement_table(requirements),
        application_fee: text_table(application_fee),
        annual_fee: text_table(annual_fee),
        validity_period_years: validity,
    }
}

/// The texts of a slice of string slices.
pub open spec fn str_texts(s: Seq<&str>) -> Seq<Seq<char>> {
    s.map_values(|x: &str| x@)
}

/// Owned copies of a slice of string slices, in order.
pub fn strings(items: &[&str]) -> (r: Vec<String>)
    ensures
        texts(r@) == str_texts(items@),
{
    let mut v: Vec<String> = Vec::new();
    let mut i: usize = 0;
    while i < items.len()
        invariant
            i <= items@.len(),
            texts(v@) == str_texts(items@.subrange(0, i as int)),
        decreases items@.len() - i,
    {
        let item: &str = items[i];
        let s = item.to_string();
        let ghost before = v@;
        v.push(s);
        proof {
            assert(texts(v@) =~= texts(before).push(item@));
            assert(items@.subrange(0, i + 1) =~= items@.subrange(0, i as int).push(item));
            assert(str_texts(items@.subrange(0, i + 1)) =~= str_texts(
                items@.subrange(0, i as int),
            ).push(item@));
        }
        i = i + 1;
    }
    proof {
        assert(items@.subrange(0, items@.len() as int) =~= items@);
    }
    v
}

/// The texts of a slice of string-slice pairs.
pub open spec fn str_text_pairs(s: Seq<(&str, &str)>) -> Seq<(Seq<char>, Seq<char>)> {
    s.map_values(|p: (&str, &str)| (p.0@, p.1@))
}

/// The texts of a slice of requirement entries.
pub open spec fn str_requirement_entries(s: Seq<(&str, RequirementValue)>) -> Seq<(Seq<char>, RequirementView)> {
    s.map_values(|p: (&str, RequirementValue)| (p.0@, p.1@))
}

/// A table holding copies of the entries of `items`, whose keys are
/// ascending.
pub fn text_table(items: &[(&str, &str)]) -> (r: KeyedTable<String>)
    requires
        keys_ascending(str_text_pairs(items@)),
    ensures
        fee_texts(r@) == str_text_pairs(items@),
{
    let mut v: Vec<(String, String)> = Vec::new();
    let mut i: usize = 0;
    while i < items.len()
        invariant
            i <= items@.len(),
            fee_texts(entry_texts(v@)) == str_text_pairs(items@.subrange(0, i as int)),
        decreases items@.len() - i,
    {
        let item: (&str, &str) = items[i];
        let k = item.0.to_string();
        let x = item.1.to_string();
        let ghost before = v@;
        v.push((k, x));
        proof {
            assert(fee_texts(entry_texts(v@)) =~= fee_texts(entry_texts(before)).push((item.0@, item.1@)));
            assert(items@.subrange(0, i + 1) =~= items@.subrange(0, i as int).push(item));
            assert(str_text_pairs(items@.subrange(0, i + 1)) =~= str_text_pairs(
                items@.subrange(0, i as int),
            ).push((item.0@, item.1@)));
        }
        i = i + 1;
    }
    proof {
        assert(items@.subrange(0, items@.len() as int) =~= items@);
        let e = entry_texts(v@);
        let t = str_text_pairs(items@);
        assert(fee_texts(e) == t);
        assert forall|a: int, b: int| 0 <= a < b < e.len() implies crate::table::text_before(#[trigger] e[a].0, #[trigger] e[b].0) by {
            assert(fee_texts(e)[a].0 == e[a].0 && fee_texts(e)[b].0 == e[b].0);
            assert(t[a].0 == e[a].0 && t[b].0 == e[b].0);
        }
    }
    KeyedTable::from_ascending(v)
}

/// A table holding copies of the requirement entries of `items`, whose
/// names are ascending.
pub fn requirement_table(items: &[(&str, RequirementValue)]) -> (r: KeyedTable<RequirementValue>)
    requires
        keys_ascending(str_requirement_entries(items@)),
    ensures
        requirement_views(r@) == str_requirement_entries(items@),
{
    let mut v: Vec<(String, RequirementValue)> = Vec::new();
    let mut i: usize = 0;
    while i < items.len()
        invariant
            i <= items@.len(),
            requirement_views(entry_texts(v@)) == str_requirement_entries(items@.subrange(0, i as int)),
        decreases items@.len() - i,
    {
        let item: &(&str, RequirementValue) = &items[i];
        let k = item.0.to_string();
        let x = copy_requirement(&item.1);
        let ghost before = v@;
        v.push((k, x));
        proof {
            assert(requirement_views(entry_texts(v@)) =~= requirement_views(entry_texts(before)).push((item.0@, item.1@)));
            assert(items@.subrange(0, i + 1) =~= items@.subrange(0, i as int).push(*item));
            assert(str_requirement_entries(items@.subrange(0, i + 1)) =~= str_requirement_entries(
                items@.subrange(0, i as int),
            ).push((item.0@, item.1@)));
        }
        i = i + 1;
    }
    proof {
        assert(items@.subrange(0, items@.len() as int) =~= items@);
        let e = entry_texts(v@);
        let t = str_requirement_entries(items@);
        assert(requirement_views(e) == t);
        assert forall|a: int, b: int| 0 <= a < b < e.len() implies crate::table::text_before(#[trigger] e[a].0, #[trigger] e[b].0) by {
            assert(requirement_views(e)[a].0 == e[a].0 && requirement_views(e)[b].0 == e[b].0);
            assert(t[a].0 == e[a].0 && t[b].0 == e[b].0);
        }
    }
    KeyedTable::from_ascending(v)
}

/// A licence-type view built from its parts.
pub open spec fn license_type_view(
    id: Seq<char>,
    name: Seq<char>,
    desc: Seq<char>,
    reg_id: Seq<char>,
    category: Option<Seq<char>>,
    activities: Seq<Seq<char>>,
    requirements: Seq<(Seq<char>, RequirementView)>,
    application_fee: Seq<(Seq<char>, Seq<char>)>,
    annual_fee: Seq<(Seq<char>, Seq<char>)>,
    validity: Option<i32>,
) -> LicenseTypeView {
    LicenseTypeView {
        license_type_id: id,
        name,
        description: desc,
        regulator_id: reg_id,
        category,
        permitted_activities: activities,
        requirements,
        application_fee,
        annual_fee,
        validity_period_years: validity,
    }
}

/// A regulator view built from its parts (with no DID).
pub open spec fn regulator_view(
    id: Seq<char>,
    name: Seq<char>,
    jid: Seq<char>,
    url: Option<Seq<char>>,
    caps: Seq<Seq<char>>,
) -> RegulatorView {
    RegulatorView {
        regulator_id: id,
        name,
        jurisdiction_id: jid,
        registry_url: url,
        did: None,
        api_capabilities: caps,
    }
}

} // verus!

verus! {

/// The views of two regulator sequences, concatenated, are the views of their concatenation.
pub proof fn lemma_regulators_view_append(a: Seq<LicensepackRegulator>, b: Seq<LicensepackRegulator>)
    ensures
        regulators_view(a + b) == regulators_view(a) + regulators_view(b),
{
    assert(regulators_view(a + b) =~= regulators_view(a) + regulators_view(b));
}

/// The views of two licence-type sequences, concatenated, are the views of their concatenation.
pub proof fn lemma_license_types_view_append(a: Seq<LicenseTypeDefinition>, b: Seq<LicenseTypeDefinition>)
    ensures
        license_types_view(a + b) == license_types_view(a) + license_types_view(b),
{
    assert(license_types_view(a + b) =~= license_types_view(a) + license_types_view(b));
}

impl LicenseTypeDefinition {
    /// The value of the requirement named `name`, if the licence type has
    /// one.
    pub fn requirement(&self, name: &str) -> (r: Option<&RequirementValue>)
        ensures
            match r {
                Some(v) => table_map(self.requirements@).dom().contains(name@) && *v == table_map(
                    self.requirements@,
                )[name@],
                None => !table_map(self.requirements@).dom().contains(name@),
            },
    {
        self.requirements.get(name)
    }
}

} // verus!
