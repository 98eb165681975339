//! Licensepack: a snapshot of a jurisdiction's licensing state, holding
//! licence types, licences and licence holders, each keyed by identifier and
//! kept in ascending key order, and the change set between two snapshots.
//!
//! Not provided here: the content digest of a licensepack (the `digest`
//! field is only carried and cleared on change), the query for active
//! licences, and the evaluation of one licence's compliance for an activity
//! on a date. A licence verification is decided by [`decide_verification`]
//! from the evaluated state of each of the holder's licences.

use std::collections::BTreeMap;

use vstd::prelude::*;

use crate::components::{LicenseCondition, LicenseHolder, LicensePermission, LicenseRestriction};
use crate::license::{LicenseTypeDefinition, LicensepackRegulator};
use crate::table::{keys_ascending, lemma_table_map_at, table_map, text_before, KeyedTable};
use crate::text::text_eq;
use crate::types::{compliance_rank, LicenseComplianceState, LicenseStatus};

verus! {

/// A licence granted to a holder.
#[derive(Debug, Clone)]
pub struct License {
    /// Unique licence identifier.
    pub license_id: String,
    /// Licence-type identifier.
    pub license_type_id: String,
    /// Licence number issued by the regulator.
    pub license_number: Option<String>,
    /// Lifecycle status.
    pub status: LicenseStatus,
    /// Issue date (YYYY-MM-DD).
    pub issued_date: String,
    /// Holder identifier.
    pub holder_id: String,
    /// Legal name of the holder.
    pub holder_legal_name: String,
    /// Issuing regulator identifier.
    pub regulator_id: String,
    /// Date the current status took effect.
    pub status_effective_date: Option<String>,
    /// Reason for the current status.
    pub status_reason: Option<String>,
    /// Effective date.
    pub effective_date: Option<String>,
    /// Expiry date.
    pub expiry_date: Option<String>,
    /// Registration number of the holder.
    pub holder_registration_number: Option<String>,
    /// Decentralized identifier of the holder.
    pub holder_did: Option<String>,
    /// Issuing authority.
    pub issuing_authority: Option<String>,
    /// Permitted activities.
    pub permitted_activities: Vec<String>,
    /// Asset classes authorized.
    pub asset_classes_authorized: Vec<String>,
    /// Client types permitted.
    pub client_types_permitted: Vec<String>,
    /// Geographic scope.
    pub geographic_scope: Vec<String>,
    /// Prudential category.
    pub prudential_category: Option<String>,
    /// Capital requirement.
    pub capital_requirement: BTreeMap<String, serde_json::Value>,
    /// Conditions attached to the licence.
    pub conditions: Vec<LicenseCondition>,
    /// Permissions granted under the licence.
    pub permissions: Vec<LicensePermission>,
    /// Restrictions on the licence.
    pub restrictions: Vec<LicenseRestriction>,
}

/// Descriptive metadata of a licensepack snapshot.
#[derive(Debug, Clone)]
pub struct LicensepackMetadata {
    /// Licensepack identifier.
    pub licensepack_id: String,
    /// Jurisdiction identifier.
    pub jurisdiction_id: String,
    /// Licensing domain.
    pub domain: String,
    /// Date the snapshot describes.
    pub as_of_date: String,
    /// Time the snapshot was taken.
    pub snapshot_timestamp: String,
    /// Snapshot type ("quarterly", ...).
    pub snapshot_type: String,
    /// The regulator the snapshot comes from.
    pub regulator: LicensepackRegulator,
    /// Data licence.
    pub license: String,
    /// Sources.
    pub sources: Vec<serde_json::Value>,
    /// Included sections.
    pub includes: BTreeMap<String, serde_json::Value>,
    /// Normalization settings.
    pub normalization: BTreeMap<String, serde_json::Value>,
    /// Digest of the previous licensepack.
    pub previous_licensepack_digest: Option<String>,
    /// Delta from the previous licensepack.
    pub delta: Option<serde_json::Value>,
}

/// Content-addressed snapshot of a jurisdiction's licensing state.
#[derive(Debug, Clone)]
pub struct Licensepack {
    /// The jurisdiction this licensepack applies to.
    pub jurisdiction: String,
    /// Human-readable name.
    pub name: String,
    /// Version string.
    pub version: String,
    /// Cached content digest; cleared by every change.
    pub digest: Option<String>,
    /// Metadata.
    pub metadata: Option<LicensepackMetadata>,
    /// Licence-type definitions by licence-type identifier.
    pub license_types: KeyedTable<LicenseTypeDefinition>,
    /// Licences by licence identifier.
    pub licenses: KeyedTable<License>,
    /// Holders by holder identifier.
    pub holders: KeyedTable<LicenseHolder>,
}

/// The text of an optional string.
pub open spec fn did_text(o: Option<String>) -> Option<Seq<char>> {
    match o {
        Some(s) => Some(s@),
        None => None,
    }
}

/// The licences of `s`, in order, whose holder DID is `did`.
pub open spec fn licenses_of_holder(s: Seq<(Seq<char>, License)>, did: Seq<char>) -> Seq<License>
    decreases s.len(),
{
    if s.len() == 0 {
        Seq::empty()
    } else {
        let rest = licenses_of_holder(s.drop_last(), did);
        if did_text(s.last().1.holder_did) == Some(did) {
            rest.push(s.last().1)
        } else {
            rest
        }
    }
}

impl Licensepack {
    /// A new empty licensepack, at version "1.0", with no digest or metadata.
    pub fn new(jurisdiction: String, name: String) -> (r: Self)
        ensures
            r.jurisdiction == jurisdiction,
            r.name == name,
            r.version@ == "1.0"@,
            r.digest is None,
            r.metadata is None,
            r.license_types@.len() == 0,
            r.licenses@.len() == 0,
            r.holders@.len() == 0,
    {
        Licensepack {
            jurisdiction,
            name,
            version: "1.0".to_string(),
            digest: None,
            metadata: None,
            license_types: KeyedTable::new(),
            licenses: KeyedTable::new(),
            holders: KeyedTable::new(),
        }
    }

    /// Adds a licence-type definition under its identifier, replacing any
    /// with the same identifier; clears the cached digest.
    pub fn add_license_type(&mut self, lt: LicenseTypeDefinition)
        ensures
            table_map(final(self).license_types@) == table_map(old(self).license_types@).insert(
                lt.license_type_id@,
                lt,
            ),
            final(self).digest is None,
            final(self).licenses@ == old(self).licenses@,
            final(self).holders@ == old(self).holders@,
            final(self).jurisdiction == old(self).jurisdiction,
            final(self).name == old(self).name,
            final(self).version == old(self).version,
            final(self).metadata == old(self).metadata,
    {
        self.digest = None;
        let key = lt.license_type_id.clone();
        self.license_types.insert(key, lt);
    }

    /// Adds a licence under its identifier, replacing any with the same
    /// identifier; clears the cached digest.
    pub fn add_license(&mut self, license: License)
        ensures
            table_map(final(self).licenses@) == table_map(old(self).licenses@).insert(
                license.license_id@,
                license,
            ),
            final(self).digest is None,
            final(self).license_types@ == old(self).license_types@,
            final(self).holders@ == old(self).holders@,
            final(self).jurisdiction == old(self).jurisdiction,
            final(self).name == old(self).name,
            final(self).version == old(self).version,
            final(self).metadata == old(self).metadata,
    {
        self.digest = None;
        let key = license.license_id.clone();
        self.licenses.insert(key, license);
    }

    /// Adds a holder under its identifier, replacing any with the same
    /// identifier; clears the cached digest.
    pub fn add_holder(&mut self, holder: LicenseHolder)
        ensures
            table_map(final(self).holders@) == table_map(old(self).holders@).insert(
                holder.holder_id@,
                holder,
            ),
            final(self).digest is None,
            final(self).license_types@ == old(self).license_types@,
            final(self).licenses@ == old(self).licenses@,
            final(self).jurisdiction == old(self).jurisdiction,
            final(self).name == old(self).name,
            final(self).version == old(self).version,
            final(self).metadata == old(self).metadata,
    {
        self.digest = None;
        let key = holder.holder_id.clone();
        self.holders.insert(key, holder);
    }

    /// The licence with identifier `license_id`, if any.
    pub fn get_license(&self, license_id: &str) -> (r: Option<&License>)
        ensures
            match r {
                Some(l) => table_map(self.licenses@).dom().contains(license_id@) && *l == table_map(
                    self.licenses@,
                )[license_id@],
                None => !table_map(self.licenses@).dom().contains(license_id@),
            },
    {
        self.licenses.get(license_id)
    }

    /// All licences whose holder DID is `holder_did`, in ascending licence
    /// identifier order; none for an empty DID.
    pub fn get_licenses_by_holder_did(&self, holder_did: &str) -> (r: Vec<&License>)
        ensures
            holder_did@.len() == 0 ==> r@.len() == 0,
            holder_did@.len() > 0 ==> r@.map_values(|l: &License| *l) == licenses_of_holder(
                self.licenses@,
                holder_did@,
            ),
            forall|k: int|
                0 <= k < r@.len() ==> (*#[trigger] r@[k]).holder_did is Some && (*r@[k]).holder_did->0@
                    == holder_did@,
            holder_did@.len() > 0 ==> forall|j: int|
                0 <= j < self.licenses@.len() && (#[trigger] self.licenses@[j]).1.holder_did is Some
                    && self.licenses@[j].1.holder_did->0@ == holder_did@ ==> r@.map_values(
                    |l: &License| *l,
                ).contains(self.licenses@[j].1),
    {
        let mut out: Vec<&License> = Vec::new();
        if holder_did.unicode_len() == 0 {
            return out;
        }
        let n = self.licenses.len();
        let mut i: usize = 0;
        while i < n
            invariant
                n == self.licenses@.len(),
                i <= n,
                out@.map_values(|l: &License| *l) == licenses_of_holder(
                    self.licenses@.subrange(0, i as int),
                    holder_did@,
                ),
            decreases n - i,
        {
            let lic = self.licenses.value_at(i);
            let ghost before = out@;
            let keep = match &lic.holder_did {
                Some(d) => text_eq(d, holder_did),
                None => false,
            };
            if keep {
                out.push(lic);
            }
            proof {
                let s = self.licenses@.subrange(0, i + 1);
                assert(s.drop_last() =~= self.licenses@.subrange(0, i as int));
                assert(s.last() == self.licenses@[i as int]);
                if keep {
                    assert(out@.map_values(|l: &License| *l) =~= before.map_values(|l: &License| *l).push(*lic));
                } else {
                    assert(out@ == before);
                }
            }
            i = i + 1;
        }
        proof {
            assert(self.licenses@.subrange(0, n as int) =~= self.licenses@);
            let m = out@.map_values(|l: &License| *l);
            lemma_licenses_of_holder_members(self.licenses@, holder_did@);
            assert forall|k: int| 0 <= k < out@.len() implies (*#[trigger] out@[k]).holder_did is Some
                && (*out@[k]).holder_did->0@ == holder_did@ by {
                assert(m[k] == *out@[k]);
            }
        }
        out
    }
}


/// The keys, in order, of the entries of `s` that `keep` selects.
pub open spec fn select_keys(
    s: Seq<(Seq<char>, License)>,
    keep: spec_fn((Seq<char>, License)) -> bool,
) -> Seq<Seq<char>>
    decreases s.len(),
{
    if s.len() == 0 {
        Seq::empty()
    } else {
        let rest = select_keys(s.drop_last(), keep);
        if keep(s.last()) {
            rest.push(s.last().0)
        } else {
            rest
        }
    }
}

/// New in `curr` (absent from `prev`) and active.
pub open spec fn is_granted(prev: Map<Seq<char>, License>) -> spec_fn((Seq<char>, License)) -> bool {
    |e: (Seq<char>, License)| !prev.dom().contains(e.0) && e.1.status is Active
}

/// Suspended in `curr`, and either new or not suspended in `prev`.
pub open spec fn is_newly_suspended(prev: Map<Seq<char>, License>) -> spec_fn((Seq<char>, License)) -> bool {
    |e: (Seq<char>, License)|
        e.1.status is Suspended && (!prev.dom().contains(e.0) || !(prev[e.0].status is Suspended))
}

/// Suspended in `prev` and active in `curr`.
pub open spec fn is_reinstated(prev: Map<Seq<char>, License>) -> spec_fn((Seq<char>, License)) -> bool {
    |e: (Seq<char>, License)|
        prev.dom().contains(e.0) && prev[e.0].status is Suspended && e.1.status is Active
}

/// Revoked in `curr` after another status in `prev`.
pub open spec fn is_newly_revoked(prev: Map<Seq<char>, License>) -> spec_fn((Seq<char>, License)) -> bool {
    |e: (Seq<char>, License)|
        prev.dom().contains(e.0) && !(prev[e.0].status is Revoked) && e.1.status is Revoked
}

/// Active in `prev` and gone from `curr`.
pub open spec fn is_removed_active(curr: Map<Seq<char>, License>) -> spec_fn((Seq<char>, License)) -> bool {
    |e: (Seq<char>, License)| !curr.dom().contains(e.0) && e.1.status is Active
}

/// Changes between two licensepacks, as licence identifiers.
pub struct LicenseDelta {
    /// New licences that are active.
    pub granted: Vec<String>,
    /// Active licences that disappeared, then licences newly revoked.
    pub revoked: Vec<String>,
    /// Licences newly suspended (new ones, or a changed status).
    pub suspended: Vec<String>,
    /// Licences moved from suspended to active.
    pub reinstated: Vec<String>,
}

/// The texts of a vector of strings.
pub open spec fn id_texts(v: Seq<String>) -> Seq<Seq<char>> {
    v.map_values(|s: String| s@)
}

/// The selection of kind `kind` relative to the other table `m`.
pub open spec fn selector(kind: u8, m: Map<Seq<char>, License>) -> spec_fn((Seq<char>, License)) -> bool {
    if kind == 0 {
        is_granted(m)
    } else if kind == 1 {
        is_newly_suspended(m)
    } else if kind == 2 {
        is_reinstated(m)
    } else if kind == 3 {
        is_newly_revoked(m)
    } else {
        is_removed_active(m)
    }
}

/// Keys of the entries of `s` that the selection of kind `kind` picks, as
/// owned strings.
fn collect_keys(s: &KeyedTable<License>, other: &KeyedTable<License>, kind: u8) -> (r: Vec<String>)
    requires
        kind <= 4,
    ensures
        id_texts(r@) == select_keys(s@, selector(kind, table_map(other@))),
{
    let ghost keep = selector(kind, table_map(other@));
    let mut out: Vec<String> = Vec::new();
    let n = s.len();
    let mut i: usize = 0;
    while i < n
        invariant
            n == s@.len(),
            i <= n,
            id_texts(out@) == select_keys(s@.subrange(0, i as int), keep),
            keep == selector(kind, table_map(other@)),
            kind <= 4,
        decreases n - i,
    {
        let key = s.key_at(i);
        let lic = s.value_at(i);
        let found = other.get(key.as_str());
        let ghost e = s@[i as int];
        let take = match kind {
            0 => found.is_none() && lic.status == LicenseStatus::Active,
            1 => lic.status == LicenseStatus::Suspended && match found {
                None => true,
                Some(p) => p.status != LicenseStatus::Suspended,
            },
            2 => match found {
                None => false,
                Some(p) => p.status == LicenseStatus::Suspended && lic.status == LicenseStatus::Active,
            },
            3 => match found {
                None => false,
                Some(p) => p.status != LicenseStatus::Revoked && lic.status == LicenseStatus::Revoked,
            },
            _ => found.is_none() && lic.status == LicenseStatus::Active,
        };
        proof {
            assert(take == keep(e));
        }
        let ghost before = out@;
        if take {
            out.push(key.clone());
        }
        proof {
            let t = s@.subrange(0, i + 1);
            assert(t.drop_last() =~= s@.subrange(0, i as int));
            assert(t.last() == e);
            if take {
                assert(id_texts(out@) =~= id_texts(before).push(e.0));
            } else {
                assert(out@ == before);
            }
        }
        i = i + 1;
    }
    proof {
        assert(s@.subrange(0, n as int) =~= s@);
    }
    out
}

impl Licensepack {
    /// The changes from `previous` to this licensepack: licences granted,
    /// revoked, suspended and reinstated. Each list is in ascending licence
    /// identifier order; `revoked` lists the vanished active licences first.
    pub fn compute_delta(&self, previous: &Licensepack) -> (r: LicenseDelta)
        ensures
            id_texts(r.granted@) == select_keys(
                self.licenses@,
                is_granted(table_map(previous.licenses@)),
            ),
            id_texts(r.suspended@) == select_keys(
                self.licenses@,
                is_newly_suspended(table_map(previous.licenses@)),
            ),
            id_texts(r.reinstated@) == select_keys(
                self.licenses@,
                is_reinstated(table_map(previous.licenses@)),
            ),
            id_texts(r.revoked@) == select_keys(
                previous.licenses@,
                is_removed_active(table_map(self.licenses@)),
            ) + select_keys(self.licenses@, is_newly_revoked(table_map(previous.licenses@))),
            forall|x: Seq<char>|
                #[trigger] id_texts(r.granted@).contains(x) <==> (table_map(self.licenses@).dom().contains(x)
                    && !table_map(previous.licenses@).dom().contains(x) && table_map(self.licenses@)[x].status
                    == LicenseStatus::Active),
            forall|x: Seq<char>|
                #[trigger] id_texts(r.suspended@).contains(x) <==> (table_map(self.licenses@).dom().contains(x)
                    && table_map(self.licenses@)[x].status == LicenseStatus::Suspended && (
                !table_map(previous.licenses@).dom().contains(x) || table_map(previous.licenses@)[x].status
                    != LicenseStatus::Suspended)),
            forall|x: Seq<char>|
                #[trigger] id_texts(r.reinstated@).contains(x) <==> (table_map(self.licenses@).dom().contains(x)
                    && table_map(previous.licenses@).dom().contains(x) && table_map(previous.licenses@)[x].status
                    == LicenseStatus::Suspended && table_map(self.licenses@)[x].status == LicenseStatus::Active),
            forall|x: Seq<char>|
                #[trigger] id_texts(r.revoked@).contains(x) <==> ((table_map(previous.licenses@).dom().contains(x)
                    && !table_map(self.licenses@).dom().contains(x) && table_map(previous.licenses@)[x].status
                    == LicenseStatus::Active) || (table_map(self.licenses@).dom().contains(x) && table_map(
                    previous.licenses@,
                ).dom().contains(x) && table_map(self.licenses@)[x].status == LicenseStatus::Revoked
                    && table_map(previous.licenses@)[x].status != LicenseStatus::Revoked)),
            forall|a: int, b: int|
                0 <= a < b < r.granted@.len() ==> text_before(#[trigger] r.granted@[a]@, #[trigger] r.granted@[b]@),
            forall|a: int, b: int|
                0 <= a < b < r.suspended@.len() ==> text_before(#[trigger] r.suspended@[a]@, #[trigger] r.suspended@[b]@),
            forall|a: int, b: int|
                0 <= a < b < r.reinstated@.len() ==> text_before(#[trigger] r.reinstated@[a]@, #[trigger] r.reinstated@[b]@),
    {
        self.licenses.keys_are_ascending();
        previous.licenses.keys_are_ascending();
        let granted = collect_keys(&self.licenses, &previous.licenses, 0);
        let suspended = collect_keys(&self.licenses, &previous.licenses, 1);
        let reinstated = collect_keys(&self.licenses, &previous.licenses, 2);
        let mut revoked = collect_keys(&previous.licenses, &self.licenses, 4);
        let mut changed = collect_keys(&self.licenses, &previous.licenses, 3);
        let ghost a = revoked@;
        let ghost b = changed@;
        revoked.append(&mut changed);
        proof {
            assert(id_texts(revoked@) =~= id_texts(a) + id_texts(b));
            let c = table_map(self.licenses@);
            let p = table_map(previous.licenses@);
            lemma_select_keys_ascending(self.licenses@, is_granted(p));
            lemma_select_keys_ascending(self.licenses@, is_newly_suspended(p));
            lemma_select_keys_ascending(self.licenses@, is_reinstated(p));
            assert forall|a: int, b: int| 0 <= a < b < granted@.len() implies text_before(#[trigger] granted@[a]@, #[trigger] granted@[b]@) by {
                assert(id_texts(granted@)[a] == granted@[a]@ && id_texts(granted@)[b] == granted@[b]@);
            }
            assert forall|a: int, b: int| 0 <= a < b < suspended@.len() implies text_before(#[trigger] suspended@[a]@, #[trigger] suspended@[b]@) by {
                assert(id_texts(suspended@)[a] == suspended@[a]@ && id_texts(suspended@)[b] == suspended@[b]@);
            }
            assert forall|a: int, b: int| 0 <= a < b < reinstated@.len() implies text_before(#[trigger] reinstated@[a]@, #[trigger] reinstated@[b]@) by {
                assert(id_texts(reinstated@)[a] == reinstated@[a]@ && id_texts(reinstated@)[b] == reinstated@[b]@);
            }
            assert forall|x: Seq<char>| #[trigger] id_texts(granted@).contains(x) <==> (c.dom().contains(x)
                && !p.dom().contains(x) && c[x].status == LicenseStatus::Active) by {
                lemma_delta_membership(self.licenses@, previous.licenses@, x);
            }
            assert forall|x: Seq<char>| #[trigger] id_texts(suspended@).contains(x) <==> (c.dom().contains(x)
                && c[x].status == LicenseStatus::Suspended && (!p.dom().contains(x) || p[x].status
                != LicenseStatus::Suspended)) by {
                lemma_delta_membership(self.licenses@, previous.licenses@, x);
            }
            assert forall|x: Seq<char>| #[trigger] id_texts(reinstated@).contains(x) <==> (c.dom().contains(x)
                && p.dom().contains(x) && p[x].status == LicenseStatus::Suspended && c[x].status
                == LicenseStatus::Active) by {
                lemma_delta_membership(self.licenses@, previous.licenses@, x);
            }
            assert forall|x: Seq<char>| #[trigger] id_texts(revoked@).contains(x) <==> ((p.dom().contains(x)
                && !c.dom().contains(x) && p[x].status == LicenseStatus::Active) || (c.dom().contains(x)
                && p.dom().contains(x) && c[x].status == LicenseStatus::Revoked && p[x].status
                != LicenseStatus::Revoked)) by {
                lemma_delta_membership(self.licenses@, previous.licenses@, x);
            }
        }
        LicenseDelta { granted, revoked, suspended, reinstated }
    }
}

/// Whether some licence of `s` evaluated to `state`.
pub open spec fn some_in_state(s: Seq<(Seq<char>, LicenseComplianceState)>, state: LicenseComplianceState) -> bool {
    exists|i: int| 0 <= i < s.len() && #[trigger] s[i].1 == state
}

/// Whether `i` is the first position of `s` whose licence is compliant.
pub open spec fn first_compliant_at(s: Seq<(Seq<char>, LicenseComplianceState)>, i: int) -> bool {
    &&& 0 <= i < s.len()
    &&& s[i].1 is Compliant
    &&& forall|j: int| 0 <= j < i ==> !(#[trigger] s[j].1 is Compliant)
}

/// The answer to "does the holder have a valid licence for the activity",
/// given each of the holder's licences (identifier, evaluated compliance
/// state) in ascending identifier order: (valid, state, matching licence).
/// The first compliant licence wins; otherwise the state is the best one
/// found on the lattice NON_COMPLIANT < SUSPENDED < UNKNOWN < PENDING, and
/// NON_COMPLIANT when the holder has no licence.
pub open spec fn verification_outcome(s: Seq<(Seq<char>, LicenseComplianceState)>) -> (
    bool,
    LicenseComplianceState,
    Option<Seq<char>>,
) {
    if some_in_state(s, LicenseComplianceState::Compliant) {
        let i = choose|i: int| first_compliant_at(s, i);
        (true, LicenseComplianceState::Compliant, Some(s[i].0))
    } else if some_in_state(s, LicenseComplianceState::Pending) {
        (false, LicenseComplianceState::Pending, None)
    } else if some_in_state(s, LicenseComplianceState::Unknown) {
        (false, LicenseComplianceState::Unknown, None)
    } else if some_in_state(s, LicenseComplianceState::Suspended) {
        (false, LicenseComplianceState::Suspended, None)
    } else {
        (false, LicenseComplianceState::NonCompliant, None)
    }
}

/// The texts of (identifier, state) pairs.
pub open spec fn evaluated_texts(v: Seq<(String, LicenseComplianceState)>) -> Seq<(Seq<char>, LicenseComplianceState)> {
    v.map_values(|p: (String, LicenseComplianceState)| (p.0@, p.1))
}

/// Decides the outcome of verifying a holder's licence for an activity from
/// the evaluated compliance state of each of the holder's licences, given in
/// ascending licence identifier order. With no licences the outcome is
/// (false, NON_COMPLIANT, None).
pub fn decide_verification(evaluated: &Vec<(String, LicenseComplianceState)>) -> (r: (
    bool,
    LicenseComplianceState,
    Option<String>,
))
    ensures
        ({
            let o = verification_outcome(evaluated_texts(evaluated@));
            &&& r.0 == o.0
            &&& r.1 == o.1
            &&& did_text(r.2) == o.2
        }),
        r.0 == (r.1 == LicenseComplianceState::Compliant),
        evaluated@.len() == 0 ==> r.1 == LicenseComplianceState::NonCompliant,
        evaluated@.len() > 0 ==> exists|i: int| 0 <= i < evaluated@.len() && (#[trigger] evaluated@[i]).1 == r.1,
        forall|j: int| 0 <= j < evaluated@.len() ==> compliance_rank((#[trigger] evaluated@[j]).1) <= compliance_rank(r.1),
        r.2 is Some == (r.1 == LicenseComplianceState::Compliant),
        r.2 is Some ==> exists|i: int|
            0 <= i < evaluated@.len() && (#[trigger] evaluated@[i]).0@ == r.2->0@ && evaluated@[i].1
                == LicenseComplianceState::Compliant && forall|j: int|
                0 <= j < i ==> (#[trigger] evaluated@[j]).1 != LicenseComplianceState::Compliant,
{
    let r = decide_outcome(evaluated);
    proof {
        let s = evaluated_texts(evaluated@);
        lemma_outcome_is_best_state(s);
        assert forall|j: int| 0 <= j < evaluated@.len() implies compliance_rank((#[trigger] evaluated@[j]).1)
            <= compliance_rank(r.1) by {
            assert(s[j].1 == evaluated@[j].1);
        }
        if evaluated@.len() > 0 {
            let i = choose|i: int| 0 <= i < s.len() && #[trigger] s[i].1 == r.1;
            assert(evaluated@[i].1 == s[i].1);
        }
        if some_in_state(s, LicenseComplianceState::Compliant) {
            lemma_first_compliant_exists(s);
            let i = choose|i: int| first_compliant_at(s, i);
            assert(evaluated@[i].0@ == s[i].0 && evaluated@[i].1 == s[i].1);
            assert forall|j: int| 0 <= j < i implies (#[trigger] evaluated@[j]).1 != LicenseComplianceState::Compliant by {
                assert(s[j].1 == evaluated@[j].1);
            }
        }
    }
    r
}

/// Where some licence is compliant, there is a first one.
proof fn lemma_first_compliant_exists(s: Seq<(Seq<char>, LicenseComplianceState)>)
    requires
        some_in_state(s, LicenseComplianceState::Compliant),
    ensures
        exists|i: int| first_compliant_at(s, i),
    decreases s.len(),
{
    let t = s.drop_last();
    if some_in_state(t, LicenseComplianceState::Compliant) {
        lemma_first_compliant_exists(t);
        let i = choose|i: int| first_compliant_at(t, i);
        assert forall|j: int| 0 <= j < i implies !(#[trigger] s[j].1 is Compliant) by {
            assert(t[j] == s[j]);
        }
        assert(t[i] == s[i]);
        assert(first_compliant_at(s, i));
    } else {
        let k = choose|k: int| 0 <= k < s.len() && #[trigger] s[k].1 == LicenseComplianceState::Compliant;
        assert forall|j: int| 0 <= j < s.len() - 1 implies !(#[trigger] s[j].1 is Compliant) by {
            assert(t[j] == s[j]);
            if s[j].1 is Compliant {
                assert(t[j].1 == LicenseComplianceState::Compliant);
            }
        }
        if k < s.len() - 1 {
            assert(t[k] == s[k]);
            assert(t[k].1 == LicenseComplianceState::Compliant);
        }
        assert(first_compliant_at(s, s.len() - 1));
    }
}

/// The outcome of a verification, as [`verification_outcome`] gives it.
fn decide_outcome(evaluated: &Vec<(String, LicenseComplianceState)>) -> (r: (
    bool,
    LicenseComplianceState,
    Option<String>,
))
    ensures
        ({
            let o = verification_outcome(evaluated_texts(evaluated@));
            &&& r.0 == o.0
            &&& r.1 == o.1
            &&& did_text(r.2) == o.2
        }),
{
    let ghost s = evaluated_texts(evaluated@);
    let n = evaluated.len();
    let mut i: usize = 0;
    while i < n
        invariant
            n == evaluated@.len(),
            s == evaluated_texts(evaluated@),
            i <= n,
            forall|j: int| 0 <= j < i ==> !(#[trigger] s[j].1 is Compliant),
        decreases n - i,
    {
        if evaluated[i].1 == LicenseComplianceState::Compliant {
            proof {
                assert(first_compliant_at(s, i as int));
                assert(some_in_state(s, LicenseComplianceState::Compliant));
                let k = choose|k: int| first_compliant_at(s, k);
                if k < i {
                } else if k > i {
                    assert(!(s[i as int].1 is Compliant));
                }
            }
            return (true, LicenseComplianceState::Compliant, Some(evaluated[i].0.clone()));
        }
        i = i + 1;
    }
    proof {
        assert(!some_in_state(s, LicenseComplianceState::Compliant));
    }
    let mut suspended = false;
    let mut unknown = false;
    let mut pending = false;
    let mut j: usize = 0;
    while j < n
        invariant
            n == evaluated@.len(),
            s == evaluated_texts(evaluated@),
            j <= n,
            suspended == (exists|k: int| 0 <= k < j && #[trigger] s[k].1 == LicenseComplianceState::Suspended),
            unknown == (exists|k: int| 0 <= k < j && #[trigger] s[k].1 == LicenseComplianceState::Unknown),
            pending == (exists|k: int| 0 <= k < j && #[trigger] s[k].1 == LicenseComplianceState::Pending),
        decreases n - j,
    {
        let st = evaluated[j].1;
        proof {
            assert(s[j as int].1 == st);
        }
        if st == LicenseComplianceState::Suspended {
            suspended = true;
        }
        if st == LicenseComplianceState::Unknown {
            unknown = true;
        }
        if st == LicenseComplianceState::Pending {
            pending = true;
        }
        j = j + 1;
    }
    if pending {
        (false, LicenseComplianceState::Pending, None)
    } else if unknown {
        (false, LicenseComplianceState::Unknown, None)
    } else if suspended {
        (false, LicenseComplianceState::Suspended, None)
    } else {
        (false, LicenseComplianceState::NonCompliant, None)
    }
}

/// The outcome of a verification is the best state found: with at least one
/// licence, the outcome's state is the state of one of them, and no licence
/// ranks above it on the compliance lattice; with none, it is NON_COMPLIANT.
pub proof fn lemma_outcome_is_best_state(s: Seq<(Seq<char>, LicenseComplianceState)>)
    ensures
        s.len() == 0 ==> verification_outcome(s).1 == LicenseComplianceState::NonCompliant,
        s.len() > 0 ==> some_in_state(s, verification_outcome(s).1),
        forall|j: int|
            0 <= j < s.len() ==> compliance_rank(#[trigger] s[j].1) <= compliance_rank(
                verification_outcome(s).1,
            ),
        verification_outcome(s).0 == (verification_outcome(s).1 is Compliant),
{
    let o = verification_outcome(s);
    if some_in_state(s, LicenseComplianceState::Compliant) {
        let i = choose|i: int| 0 <= i < s.len() && #[trigger] s[i].1 == LicenseComplianceState::Compliant;
        assert(s[i].1 == o.1);
    } else if s.len() > 0 {
        if !some_in_state(s, LicenseComplianceState::Pending) && !some_in_state(s, LicenseComplianceState::Unknown)
            && !some_in_state(s, LicenseComplianceState::Suspended) {
            let k = 0int;
            let st = s[k].1;
            assert(st is NonCompliant) by {
                if st is Compliant { assert(some_in_state(s, LicenseComplianceState::Compliant)); }
                if st is Pending { assert(some_in_state(s, LicenseComplianceState::Pending)); }
                if st is Unknown { assert(some_in_state(s, LicenseComplianceState::Unknown)); }
                if st is Suspended { assert(some_in_state(s, LicenseComplianceState::Suspended)); }
            }
        }
    }
    assert forall|j: int| 0 <= j < s.len() implies compliance_rank(#[trigger] s[j].1) <= compliance_rank(o.1) by {
        let st = s[j].1;
        if st is Compliant { assert(some_in_state(s, LicenseComplianceState::Compliant)); }
        if st is Pending { assert(some_in_state(s, LicenseComplianceState::Pending)); }
        if st is Unknown { assert(some_in_state(s, LicenseComplianceState::Unknown)); }
        if st is Suspended { assert(some_in_state(s, LicenseComplianceState::Suspended)); }
    }
}

/// Nothing is selected from entries none of which `keep` picks.
proof fn lemma_select_none(s: Seq<(Seq<char>, License)>, keep: spec_fn((Seq<char>, License)) -> bool)
    requires
        forall|i: int| 0 <= i < s.len() ==> !keep(#[trigger] s[i]),
    ensures
        select_keys(s, keep) == Seq::<Seq<char>>::empty(),
    decreases s.len(),
{
    if s.len() > 0 {
        assert forall|i: int| 0 <= i < s.drop_last().len() implies !keep(#[trigger] s.drop_last()[i]) by {
            assert(s.drop_last()[i] == s[i]);
        }
        lemma_select_none(s.drop_last(), keep);
        assert(!keep(s[s.len() - 1]));
    }
}

/// Comparing a licensepack's licences with themselves finds no change:
/// nothing granted, suspended, reinstated or revoked.
pub proof fn lemma_delta_of_unchanged_licenses_is_empty(s: Seq<(Seq<char>, License)>)
    requires
        keys_ascending(s),
    ensures
        select_keys(s, is_granted(table_map(s))) == Seq::<Seq<char>>::empty(),
        select_keys(s, is_newly_suspended(table_map(s))) == Seq::<Seq<char>>::empty(),
        select_keys(s, is_reinstated(table_map(s))) == Seq::<Seq<char>>::empty(),
        select_keys(s, is_newly_revoked(table_map(s))) == Seq::<Seq<char>>::empty(),
        select_keys(s, is_removed_active(table_map(s))) == Seq::<Seq<char>>::empty(),
{
    let m = table_map(s);
    assert forall|i: int| 0 <= i < s.len() implies m.dom().contains((#[trigger] s[i]).0) && m[s[i].0] == s[i].1 by {
        lemma_table_map_at(s, i);
    }
    lemma_select_none(s, is_granted(m));
    lemma_select_none(s, is_newly_suspended(m));
    lemma_select_none(s, is_reinstated(m));
    lemma_select_none(s, is_newly_revoked(m));
    lemma_select_none(s, is_removed_active(m));
}

/// Reading a licence back after adding it gives the licence that was added,
/// and adding it leaves every other identifier as it was.
pub proof fn lemma_get_after_add(before: Map<Seq<char>, License>, license: License, other: Seq<char>)
    requires
        other != license.license_id@,
    ensures
        before.insert(license.license_id@, license).dom().contains(license.license_id@),
        before.insert(license.license_id@, license)[license.license_id@] == license,
        before.insert(license.license_id@, license).dom().contains(other) == before.dom().contains(other),
        before.dom().contains(other) ==> before.insert(license.license_id@, license)[other] == before[other],
{
}

/// A key that a selection picks is the key of an entry of the table that
/// the selection accepts.
proof fn lemma_selected_entry(s: Seq<(Seq<char>, License)>, keep: spec_fn((Seq<char>, License)) -> bool, x: Seq<char>)
    requires
        keys_ascending(s),
        select_keys(s, keep).contains(x),
    ensures
        table_map(s).dom().contains(x),
        keep((x, table_map(s)[x])),
    decreases s.len(),
{
    let t = s.drop_last();
    assert(keys_ascending(t)) by {
        assert forall|i: int, j: int| 0 <= i < j < t.len() implies text_before(#[trigger] t[i].0, #[trigger] t[j].0) by {
            assert(t[i] == s[i] && t[j] == s[j]);
        }
    }
    let rest = select_keys(t, keep);
    let last = s[s.len() - 1];
    if keep(last) && x == last.0 {
        lemma_table_map_at(s, s.len() - 1);
    } else {
        if keep(last) {
            let k = choose|k: int| 0 <= k < rest.push(last.0).len() && rest.push(last.0)[k] == x;
            assert(k < rest.len());
            assert(rest[k] == x);
        }
        assert(rest.contains(x));
        lemma_selected_entry(t, keep, x);
        let i = choose|i: int| 0 <= i < t.len() && #[trigger] t[i].0 == x;
        lemma_table_map_at(t, i);
        lemma_table_map_at(s, i);
        assert(t[i] == s[i]);
    }
}

/// No licence is reported under two kinds of change in one delta: the
/// granted, suspended, reinstated and revoked lists share no identifier.
pub proof fn lemma_delta_kinds_disjoint(
    curr: Seq<(Seq<char>, License)>,
    prev: Seq<(Seq<char>, License)>,
    x: Seq<char>,
)
    requires
        keys_ascending(curr),
        keys_ascending(prev),
    ensures
        ({
            let p = table_map(prev);
            let c = table_map(curr);
            let granted = select_keys(curr, is_granted(p));
            let suspended = select_keys(curr, is_newly_suspended(p));
            let reinstated = select_keys(curr, is_reinstated(p));
            let revoked = select_keys(prev, is_removed_active(c)) + select_keys(curr, is_newly_revoked(p));
            &&& !(granted.contains(x) && suspended.contains(x))
            &&& !(granted.contains(x) && reinstated.contains(x))
            &&& !(granted.contains(x) && revoked.contains(x))
            &&& !(suspended.contains(x) && reinstated.contains(x))
            &&& !(suspended.contains(x) && revoked.contains(x))
            &&& !(reinstated.contains(x) && revoked.contains(x))
        }),
{
    let p = table_map(prev);
    let c = table_map(curr);
    let gone = select_keys(prev, is_removed_active(c));
    let changed = select_keys(curr, is_newly_revoked(p));
    let revoked = gone + changed;
    if revoked.contains(x) {
        let k = choose|k: int| 0 <= k < revoked.len() && revoked[k] == x;
        if k < gone.len() {
            assert(gone[k] == x);
            assert(gone.contains(x));
        } else {
            assert(changed[k - gone.len()] == x);
            assert(changed.contains(x));
        }
    }
    if gone.contains(x) {
        lemma_selected_entry(prev, is_removed_active(c), x);
    }
    if changed.contains(x) {
        lemma_selected_entry(curr, is_newly_revoked(p), x);
    }
    if select_keys(curr, is_granted(p)).contains(x) {
        lemma_selected_entry(curr, is_granted(p), x);
    }
    if select_keys(curr, is_newly_suspended(p)).contains(x) {
        lemma_selected_entry(curr, is_newly_suspended(p), x);
    }
    if select_keys(curr, is_reinstated(p)).contains(x) {
        lemma_selected_entry(curr, is_reinstated(p), x);
    }
}

/// Two selections that agree on every entry of `s` pick the same keys.
proof fn lemma_select_same(
    s: Seq<(Seq<char>, License)>,
    a: spec_fn((Seq<char>, License)) -> bool,
    b: spec_fn((Seq<char>, License)) -> bool,
)
    requires
        forall|i: int| 0 <= i < s.len() ==> a(#[trigger] s[i]) == b(s[i]),
    ensures
        select_keys(s, a) == select_keys(s, b),
    decreases s.len(),
{
    if s.len() > 0 {
        let t = s.drop_last();
        assert forall|i: int| 0 <= i < t.len() implies a(#[trigger] t[i]) == b(t[i]) by {
            assert(t[i] == s[i]);
        }
        lemma_select_same(t, a, b);
        assert(a(s[s.len() - 1]) == b(s[s.len() - 1]));
    }
}

/// Against a licensepack with no licences, every active licence counts as
/// granted and every suspended one as suspended; nothing is reinstated or
/// revoked.
pub proof fn lemma_delta_from_empty_pack(curr: Seq<(Seq<char>, License)>, prev: Seq<(Seq<char>, License)>)
    requires
        prev.len() == 0,
    ensures
        select_keys(curr, is_granted(table_map(prev))) == select_keys(
            curr,
            |e: (Seq<char>, License)| e.1.status is Active,
        ),
        select_keys(curr, is_newly_suspended(table_map(prev))) == select_keys(
            curr,
            |e: (Seq<char>, License)| e.1.status is Suspended,
        ),
        select_keys(curr, is_reinstated(table_map(prev))) == Seq::<Seq<char>>::empty(),
        select_keys(prev, is_removed_active(table_map(curr))) + select_keys(
            curr,
            is_newly_revoked(table_map(prev)),
        ) == Seq::<Seq<char>>::empty(),
{
    let p = table_map(prev);
    assert(forall|k: Seq<char>| !p.dom().contains(k));
    lemma_select_same(curr, is_granted(p), |e: (Seq<char>, License)| e.1.status is Active);
    lemma_select_same(curr, is_newly_suspended(p), |e: (Seq<char>, License)| e.1.status is Suspended);
    lemma_select_none(curr, is_reinstated(p));
    lemma_select_none(curr, is_newly_revoked(p));
    assert(select_keys(prev, is_removed_active(table_map(curr))) == Seq::<Seq<char>>::empty());
    assert(Seq::<Seq<char>>::empty() + Seq::<Seq<char>>::empty() =~= Seq::<Seq<char>>::empty());
}

/// Towards a licensepack with no licences, exactly the licences that were
/// active count as revoked, and nothing is granted, suspended or reinstated.
pub proof fn lemma_delta_to_empty_pack(curr: Seq<(Seq<char>, License)>, prev: Seq<(Seq<char>, License)>)
    requires
        curr.len() == 0,
    ensures
        select_keys(curr, is_granted(table_map(prev))) == Seq::<Seq<char>>::empty(),
        select_keys(curr, is_newly_suspended(table_map(prev))) == Seq::<Seq<char>>::empty(),
        select_keys(curr, is_reinstated(table_map(prev))) == Seq::<Seq<char>>::empty(),
        select_keys(prev, is_removed_active(table_map(curr))) + select_keys(
            curr,
            is_newly_revoked(table_map(prev)),
        ) == select_keys(prev, |e: (Seq<char>, License)| e.1.status is Active),
{
    let c = table_map(curr);
    assert(forall|k: Seq<char>| !c.dom().contains(k));
    lemma_select_same(prev, is_removed_active(c), |e: (Seq<char>, License)| e.1.status is Active);
    let r = select_keys(prev, is_removed_active(c));
    assert(r + Seq::<Seq<char>>::empty() =~= r);
}

/// The key of an entry that a selection accepts is among the selected keys.
proof fn lemma_select_keys_at(s: Seq<(Seq<char>, License)>, keep: spec_fn((Seq<char>, License)) -> bool, i: int)
    requires
        0 <= i < s.len(),
        keep(s[i]),
    ensures
        select_keys(s, keep).contains(s[i].0),
    decreases s.len(),
{
    let t = s.drop_last();
    let rest = select_keys(t, keep);
    if i == s.len() - 1 {
        assert(select_keys(s, keep) == rest.push(s[i].0));
        assert(rest.push(s[i].0)[rest.len() as int] == s[i].0);
    } else {
        assert(t[i] == s[i]);
        lemma_select_keys_at(t, keep, i);
        let k = choose|k: int| 0 <= k < rest.len() && rest[k] == s[i].0;
        if keep(s[s.len() - 1]) {
            assert(rest.push(s[s.len() - 1].0)[k] == s[i].0);
        }
    }
}

/// A key is selected exactly when the table holds it and the selection
/// accepts its entry.
proof fn lemma_select_keys_contains(s: Seq<(Seq<char>, License)>, keep: spec_fn((Seq<char>, License)) -> bool, x: Seq<char>)
    requires
        keys_ascending(s),
    ensures
        select_keys(s, keep).contains(x) <==> (table_map(s).dom().contains(x) && keep((x, table_map(s)[x]))),
{
    if select_keys(s, keep).contains(x) {
        lemma_selected_entry(s, keep, x);
    }
    if table_map(s).dom().contains(x) && keep((x, table_map(s)[x])) {
        let i = choose|i: int| 0 <= i < s.len() && #[trigger] s[i].0 == x;
        lemma_table_map_at(s, i);
        assert(s[i] == (x, table_map(s)[x]));
        lemma_select_keys_at(s, keep, i);
    }
}

/// What each list of a delta holds, identifier by identifier: a licence is
/// granted when it is new and active; suspended when it is suspended now and
/// was new or not suspended before; reinstated when it went from suspended to
/// active; revoked when it was active and is gone, or when it stayed and its
/// status became Revoked from another one. No other change (an expiry, a
/// surrender, a new pending licence) is reported.
pub proof fn lemma_delta_membership(curr: Seq<(Seq<char>, License)>, prev: Seq<(Seq<char>, License)>, x: Seq<char>)
    requires
        keys_ascending(curr),
        keys_ascending(prev),
    ensures
        ({
            let c = table_map(curr);
            let p = table_map(prev);
            &&& select_keys(curr, is_granted(p)).contains(x) <==> (c.dom().contains(x) && !p.dom().contains(x)
                && c[x].status == LicenseStatus::Active)
            &&& select_keys(curr, is_newly_suspended(p)).contains(x) <==> (c.dom().contains(x)
                && c[x].status == LicenseStatus::Suspended && (!p.dom().contains(x) || p[x].status
                != LicenseStatus::Suspended))
            &&& select_keys(curr, is_reinstated(p)).contains(x) <==> (c.dom().contains(x) && p.dom().contains(x)
                && p[x].status == LicenseStatus::Suspended && c[x].status == LicenseStatus::Active)
            &&& (select_keys(prev, is_removed_active(c)) + select_keys(curr, is_newly_revoked(p))).contains(x)
                <==> ((p.dom().contains(x) && !c.dom().contains(x) && p[x].status == LicenseStatus::Active)
                || (c.dom().contains(x) && p.dom().contains(x) && c[x].status == LicenseStatus::Revoked
                && p[x].status != LicenseStatus::Revoked))
        }),
{
    let c = table_map(curr);
    let p = table_map(prev);
    lemma_select_keys_contains(curr, is_granted(p), x);
    lemma_select_keys_contains(curr, is_newly_suspended(p), x);
    lemma_select_keys_contains(curr, is_reinstated(p), x);
    lemma_select_keys_contains(curr, is_newly_revoked(p), x);
    lemma_select_keys_contains(prev, is_removed_active(c), x);
    let a = select_keys(prev, is_removed_active(c));
    let b = select_keys(curr, is_newly_revoked(p));
    if (a + b).contains(x) {
        let k = choose|k: int| 0 <= k < (a + b).len() && (a + b)[k] == x;
        if k < a.len() {
            assert(a[k] == x);
        } else {
            assert(b[k - a.len()] == x);
        }
    }
    if a.contains(x) {
        let k = choose|k: int| 0 <= k < a.len() && a[k] == x;
        assert((a + b)[k] == x);
    }
    if b.contains(x) {
        let k = choose|k: int| 0 <= k < b.len() && b[k] == x;
        assert((a + b)[a.len() + k] == x);
    }
}

/// The licences found for a DID are exactly the licences whose holder DID is
/// that DID: each one found carries it, and each licence of the table that
/// carries it is found.
pub proof fn lemma_licenses_of_holder_members(s: Seq<(Seq<char>, License)>, did: Seq<char>)
    ensures
        forall|k: int|
            0 <= k < licenses_of_holder(s, did).len() ==> (#[trigger] licenses_of_holder(s, did)[k]).holder_did
                is Some && licenses_of_holder(s, did)[k].holder_did->0@ == did,
        forall|j: int|
            0 <= j < s.len() && (#[trigger] s[j]).1.holder_did is Some && s[j].1.holder_did->0@ == did
                ==> licenses_of_holder(s, did).contains(s[j].1),
    decreases s.len(),
{
    if s.len() > 0 {
        let t = s.drop_last();
        lemma_licenses_of_holder_members(t, did);
        let rest = licenses_of_holder(t, did);
        let l = s.last().1;
        assert forall|j: int|
            0 <= j < s.len() && (#[trigger] s[j]).1.holder_did is Some && s[j].1.holder_did->0@ == did
                implies licenses_of_holder(s, did).contains(s[j].1) by {
            if j == s.len() - 1 {
                assert(did_text(l.holder_did) == Some(did));
                assert(licenses_of_holder(s, did) == rest.push(l));
                assert(rest.push(l)[rest.len() as int] == l);
            } else {
                assert(t[j] == s[j]);
                assert(rest.contains(s[j].1));
                let k = choose|k: int| 0 <= k < rest.len() && rest[k] == s[j].1;
                if did_text(l.holder_did) == Some(did) {
                    assert(rest.push(l)[k] == s[j].1);
                }
            }
        }
        assert forall|k: int| 0 <= k < licenses_of_holder(s, did).len() implies (#[trigger] licenses_of_holder(
            s,
            did,
        )[k]).holder_did is Some && licenses_of_holder(s, did)[k].holder_did->0@ == did by {
            if did_text(l.holder_did) == Some(did) {
                if k < rest.len() {
                    assert(rest.push(l)[k] == rest[k]);
                }
            }
        }
    }
}

/// The keys that a selection picks from a table in ascending key order are
/// themselves strictly ascending.
pub proof fn lemma_select_keys_ascending(s: Seq<(Seq<char>, License)>, keep: spec_fn((Seq<char>, License)) -> bool)
    requires
        keys_ascending(s),
    ensures
        forall|a: int, b: int|
            0 <= a < b < select_keys(s, keep).len() ==> text_before(
                #[trigger] select_keys(s, keep)[a],
                #[trigger] select_keys(s, keep)[b],
            ),
    decreases s.len(),
{
    if s.len() > 0 {
        let t = s.drop_last();
        assert(keys_ascending(t)) by {
            assert forall|i: int, j: int| 0 <= i < j < t.len() implies text_before(#[trigger] t[i].0, #[trigger] t[j].0) by {
                assert(t[i] == s[i] && t[j] == s[j]);
            }
        }
        lemma_select_keys_ascending(t, keep);
        let rest = select_keys(t, keep);
        let last = s[s.len() - 1];
        if keep(last) {
            let sel = rest.push(last.0);
            assert forall|a: int, b: int| 0 <= a < b < sel.len() implies text_before(#[trigger] sel[a], #[trigger] sel[b]) by {
                if b < rest.len() {
                    assert(sel[a] == rest[a] && sel[b] == rest[b]);
                } else {
                    assert(sel[a] == rest[a]);
                    assert(rest.contains(rest[a]));
                    lemma_selected_entry(t, keep, rest[a]);
                    let i = choose|i: int| 0 <= i < t.len() && #[trigger] t[i].0 == rest[a];
                    assert(t[i] == s[i]);
                }
            }
        }
    }
}

} // verus!
