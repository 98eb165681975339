//! Consistency properties of regulator and licence-type catalogs, in two
//! forms: quantified (as the laws state them) and element by element (as
//! concrete catalogs are checked), with the lemmas that connect the two.

use vstd::prelude::*;

use crate::license::{LicenseTypeView, RegulatorView};

verus! {

/// Every field that a licence type must carry is present: a non-empty
/// identifier, name, description and regulator identifier, a category, and
/// at least one permitted activity.
pub open spec fn license_type_complete(t: LicenseTypeView) -> bool {
    &&& t.license_type_id.len() > 0
    &&& t.name.len() > 0
    &&& t.description.len() > 0
    &&& t.regulator_id.len() > 0
    &&& t.category is Some
    &&& t.permitted_activities.len() > 0
}

/// Every licence type of `ts` is complete.
pub open spec fn license_types_complete(ts: Seq<LicenseTypeView>) -> bool {
    forall|i: int| 0 <= i < ts.len() ==> license_type_complete(#[trigger] ts[i])
}

/// Every regulator of `regs` belongs to the jurisdiction `jid`.
pub open spec fn regulators_in_jurisdiction(regs: Seq<RegulatorView>, jid: Seq<char>) -> bool {
    forall|i: int| 0 <= i < regs.len() ==> (#[trigger] regs[i]).jurisdiction_id == jid
}

/// Some regulator of `regs` has identifier `id`.
pub open spec fn lists_regulator(regs: Seq<RegulatorView>, id: Seq<char>) -> bool {
    exists|j: int| 0 <= j < regs.len() && (#[trigger] regs[j]).regulator_id == id
}

/// Some licence type of `ts` is granted by the regulator `id`.
pub open spec fn grants_some(ts: Seq<LicenseTypeView>, id: Seq<char>) -> bool {
    exists|i: int| 0 <= i < ts.len() && (#[trigger] ts[i]).regulator_id == id
}

/// Every licence type of `ts` is granted by a regulator listed in `regs`.
pub open spec fn granted_by_listed_regulators(ts: Seq<LicenseTypeView>, regs: Seq<RegulatorView>) -> bool {
    forall|i: int| 0 <= i < ts.len() ==> lists_regulator(regs, (#[trigger] ts[i]).regulator_id)
}

/// Every regulator of `regs` grants at least one licence type of `ts`.
pub open spec fn every_regulator_grants(ts: Seq<LicenseTypeView>, regs: Seq<RegulatorView>) -> bool {
    forall|j: int| 0 <= j < regs.len() ==> grants_some(ts, (#[trigger] regs[j]).regulator_id)
}

/// Element-by-element form of [`license_types_complete`].
pub open spec fn complete_each(ts: Seq<LicenseTypeView>) -> bool
    decreases ts.len(),
{
    ts.len() == 0 || (license_type_complete(ts.last()) && complete_each(ts.drop_last()))
}

/// Element-by-element form of [`regulators_in_jurisdiction`].
pub open spec fn in_jurisdiction_each(regs: Seq<RegulatorView>, jid: Seq<char>) -> bool
    decreases regs.len(),
{
    regs.len() == 0 || (regs.last().jurisdiction_id == jid && in_jurisdiction_each(regs.drop_last(), jid))
}

/// Every licence type of `ts` is granted by the regulator `id`, element by element.
pub open spec fn granted_by_each(ts: Seq<LicenseTypeView>, id: Seq<char>) -> bool
    decreases ts.len(),
{
    ts.len() == 0 || (ts.last().regulator_id == id && granted_by_each(ts.drop_last(), id))
}

/// Element-by-element form of [`every_regulator_grants`].
pub open spec fn grants_each(ts: Seq<LicenseTypeView>, regs: Seq<RegulatorView>) -> bool
    decreases regs.len(),
{
    regs.len() == 0 || (grants_some(ts, regs.last().regulator_id) && grants_each(ts, regs.drop_last()))
}

pub proof fn lemma_complete_each(ts: Seq<LicenseTypeView>)
    requires
        complete_each(ts),
    ensures
        license_types_complete(ts),
    decreases ts.len(),
{
    if ts.len() > 0 {
        lemma_complete_each(ts.drop_last());
        assert forall|i: int| 0 <= i < ts.len() implies license_type_complete(#[trigger] ts[i]) by {
            if i < ts.len() - 1 {
                assert(ts[i] == ts.drop_last()[i]);
            }
        }
    }
}

pub proof fn lemma_in_jurisdiction_each(regs: Seq<RegulatorView>, jid: Seq<char>)
    requires
        in_jurisdiction_each(regs, jid),
    ensures
        regulators_in_jurisdiction(regs, jid),
    decreases regs.len(),
{
    if regs.len() > 0 {
        lemma_in_jurisdiction_each(regs.drop_last(), jid);
        assert forall|i: int| 0 <= i < regs.len() implies (#[trigger] regs[i]).jurisdiction_id == jid by {
            if i < regs.len() - 1 {
                assert(regs[i] == regs.drop_last()[i]);
            }
        }
    }
}

/// If every licence type of `ts` is granted by the `k`-th regulator of
/// `regs`, every one is granted by a listed regulator.
pub proof fn lemma_granted_by_each(ts: Seq<LicenseTypeView>, regs: Seq<RegulatorView>, k: int)
    requires
        0 <= k < regs.len(),
        granted_by_each(ts, regs[k].regulator_id),
    ensures
        granted_by_listed_regulators(ts, regs),
    decreases ts.len(),
{
    if ts.len() > 0 {
        lemma_granted_by_each(ts.drop_last(), regs, k);
        assert forall|i: int| 0 <= i < ts.len() implies lists_regulator(regs, (#[trigger] ts[i]).regulator_id) by {
            if i < ts.len() - 1 {
                assert(ts[i] == ts.drop_last()[i]);
            } else {
                assert(regs[k].regulator_id == ts[i].regulator_id);
            }
        }
    }
}

pub proof fn lemma_grants_each(ts: Seq<LicenseTypeView>, regs: Seq<RegulatorView>)
    requires
        grants_each(ts, regs),
    ensures
        every_regulator_grants(ts, regs),
    decreases regs.len(),
{
    if regs.len() > 0 {
        lemma_grants_each(ts, regs.drop_last());
        assert forall|j: int| 0 <= j < regs.len() implies grants_some(ts, (#[trigger] regs[j]).regulator_id) by {
            if j < regs.len() - 1 {
                assert(regs[j] == regs.drop_last()[j]);
            }
        }
    }
}

/// Completeness of two lists carries over to their concatenation.
pub proof fn lemma_complete_append(a: Seq<LicenseTypeView>, b: Seq<LicenseTypeView>)
    requires
        license_types_complete(a),
        license_types_complete(b),
    ensures
        license_types_complete(a + b),
{
    assert forall|i: int| 0 <= i < (a + b).len() implies license_type_complete(#[trigger] (a + b)[i]) by {
        if i < a.len() {
            assert((a + b)[i] == a[i]);
        } else {
            assert((a + b)[i] == b[i - a.len()]);
        }
    }
}

/// Jurisdiction membership carries over to concatenation.
pub proof fn lemma_in_jurisdiction_append(a: Seq<RegulatorView>, b: Seq<RegulatorView>, jid: Seq<char>)
    requires
        regulators_in_jurisdiction(a, jid),
        regulators_in_jurisdiction(b, jid),
    ensures
        regulators_in_jurisdiction(a + b, jid),
{
    assert forall|i: int| 0 <= i < (a + b).len() implies (#[trigger] (a + b)[i]).jurisdiction_id == jid by {
        if i < a.len() {
            assert((a + b)[i] == a[i]);
        } else {
            assert((a + b)[i] == b[i - a.len()]);
        }
    }
}

/// Whether the text `s` starts with `p`.
pub open spec fn has_prefix(s: Seq<char>, p: Seq<char>) -> bool {
    p.len() <= s.len() && s.subrange(0, p.len() as int) == p
}

/// Every regulator of `regs` belongs to a jurisdiction whose identifier
/// starts with `p` (a country code).
pub open spec fn regulators_in_country(regs: Seq<RegulatorView>, p: Seq<char>) -> bool {
    forall|i: int| 0 <= i < regs.len() ==> has_prefix((#[trigger] regs[i]).jurisdiction_id, p)
}

/// Element-by-element form of [`regulators_in_country`].
pub open spec fn in_country_each(regs: Seq<RegulatorView>, p: Seq<char>) -> bool
    decreases regs.len(),
{
    regs.len() == 0 || (has_prefix(regs.last().jurisdiction_id, p) && in_country_each(regs.drop_last(), p))
}

/// Element-by-element form of [`granted_by_listed_regulators`].
pub open spec fn granted_listed_each(ts: Seq<LicenseTypeView>, regs: Seq<RegulatorView>) -> bool
    decreases ts.len(),
{
    ts.len() == 0 || (lists_regulator(regs, ts.last().regulator_id) && granted_listed_each(ts.drop_last(), regs))
}

pub proof fn lemma_in_country_each(regs: Seq<RegulatorView>, p: Seq<char>)
    requires
        in_country_each(regs, p),
    ensures
        regulators_in_country(regs, p),
    decreases regs.len(),
{
    if regs.len() > 0 {
        lemma_in_country_each(regs.drop_last(), p);
        assert forall|i: int| 0 <= i < regs.len() implies has_prefix((#[trigger] regs[i]).jurisdiction_id, p) by {
            if i < regs.len() - 1 {
                assert(regs[i] == regs.drop_last()[i]);
            }
        }
    }
}

pub proof fn lemma_granted_listed_each(ts: Seq<LicenseTypeView>, regs: Seq<RegulatorView>)
    requires
        granted_listed_each(ts, regs),
    ensures
        granted_by_listed_regulators(ts, regs),
    decreases ts.len(),
{
    if ts.len() > 0 {
        lemma_granted_listed_each(ts.drop_last(), regs);
        assert forall|i: int| 0 <= i < ts.len() implies lists_regulator(regs, (#[trigger] ts[i]).regulator_id) by {
            if i < ts.len() - 1 {
                assert(ts[i] == ts.drop_last()[i]);
            }
        }
    }
}

/// Regulators all in one jurisdiction are in the country its identifier starts with.
pub proof fn lemma_in_country_from_jurisdiction(regs: Seq<RegulatorView>, jid: Seq<char>, p: Seq<char>)
    requires
        regulators_in_jurisdiction(regs, jid),
        has_prefix(jid, p),
    ensures
        regulators_in_country(regs, p),
{
    assert forall|i: int| 0 <= i < regs.len() implies has_prefix((#[trigger] regs[i]).jurisdiction_id, p) by {
        assert(regs[i].jurisdiction_id == jid);
    }
}

/// Country membership carries over to concatenation.
pub proof fn lemma_in_country_append(a: Seq<RegulatorView>, b: Seq<RegulatorView>, p: Seq<char>)
    requires
        regulators_in_country(a, p),
        regulators_in_country(b, p),
    ensures
        regulators_in_country(a + b, p),
{
    assert forall|i: int| 0 <= i < (a + b).len() implies has_prefix((#[trigger] (a + b)[i]).jurisdiction_id, p) by {
        if i < a.len() {
            assert((a + b)[i] == a[i]);
        } else {
            assert((a + b)[i] == b[i - a.len()]);
        }
    }
}

/// Two catalogs whose licence types are granted by their own regulators
/// combine into one with the same property.
pub proof fn lemma_granted_combine(
    ta: Seq<LicenseTypeView>,
    ra: Seq<RegulatorView>,
    tb: Seq<LicenseTypeView>,
    rb: Seq<RegulatorView>,
)
    requires
        granted_by_listed_regulators(ta, ra),
        granted_by_listed_regulators(tb, rb),
    ensures
        granted_by_listed_regulators(ta + tb, ra + rb),
{
    assert forall|i: int| 0 <= i < (ta + tb).len() implies lists_regulator(ra + rb, (#[trigger] (ta + tb)[i]).regulator_id) by {
        if i < ta.len() {
            assert((ta + tb)[i] == ta[i]);
            let j = choose|j: int| 0 <= j < ra.len() && (#[trigger] ra[j]).regulator_id == ta[i].regulator_id;
            assert((ra + rb)[j] == ra[j]);
        } else {
            assert((ta + tb)[i] == tb[i - ta.len()]);
            let j = choose|j: int| 0 <= j < rb.len() && (#[trigger] rb[j]).regulator_id == tb[i - ta.len()].regulator_id;
            assert((ra + rb)[ra.len() + j] == rb[j]);
        }
    }
}

/// Two catalogs whose regulators each grant a licence type combine into one
/// with the same property.
pub proof fn lemma_every_combine(
    ta: Seq<LicenseTypeView>,
    ra: Seq<RegulatorView>,
    tb: Seq<LicenseTypeView>,
    rb: Seq<RegulatorView>,
)
    requires
        every_regulator_grants(ta, ra),
        every_regulator_grants(tb, rb),
    ensures
        every_regulator_grants(ta + tb, ra + rb),
{
    assert forall|j: int| 0 <= j < (ra + rb).len() implies grants_some(ta + tb, (#[trigger] (ra + rb)[j]).regulator_id) by {
        if j < ra.len() {
            assert((ra + rb)[j] == ra[j]);
            let i = choose|i: int| 0 <= i < ta.len() && (#[trigger] ta[i]).regulator_id == ra[j].regulator_id;
            assert((ta + tb)[i] == ta[i]);
        } else {
            assert((ra + rb)[j] == rb[j - ra.len()]);
            let i = choose|i: int| 0 <= i < tb.len() && (#[trigger] tb[i]).regulator_id == rb[j - ra.len()].regulator_id;
            assert((ta + tb)[ta.len() + i] == tb[i]);
        }
    }
}

/// No two licence types of `ts` share an identifier.
pub open spec fn license_type_ids_distinct(ts: Seq<LicenseTypeView>) -> bool {
    forall|i: int, j: int|
        0 <= i < j < ts.len() ==> (#[trigger] ts[i]).license_type_id != (#[trigger] ts[j]).license_type_id
}

/// No licence type of `ts` has identifier `id`, element by element.
pub open spec fn id_fresh_each(ts: Seq<LicenseTypeView>, id: Seq<char>) -> bool
    decreases ts.len(),
{
    ts.len() == 0 || (ts.last().license_type_id != id && id_fresh_each(ts.drop_last(), id))
}

/// Element-by-element form of [`license_type_ids_distinct`].
pub open spec fn ids_distinct_each(ts: Seq<LicenseTypeView>) -> bool
    decreases ts.len(),
{
    ts.len() == 0 || (id_fresh_each(ts.drop_last(), ts.last().license_type_id) && ids_distinct_each(ts.drop_last()))
}

pub proof fn lemma_id_fresh_each(ts: Seq<LicenseTypeView>, id: Seq<char>)
    requires
        id_fresh_each(ts, id),
    ensures
        forall|i: int| 0 <= i < ts.len() ==> (#[trigger] ts[i]).license_type_id != id,
    decreases ts.len(),
{
    if ts.len() > 0 {
        lemma_id_fresh_each(ts.drop_last(), id);
        assert forall|i: int| 0 <= i < ts.len() implies (#[trigger] ts[i]).license_type_id != id by {
            if i < ts.len() - 1 {
                assert(ts[i] == ts.drop_last()[i]);
            }
        }
    }
}

pub proof fn lemma_ids_distinct_each(ts: Seq<LicenseTypeView>)
    requires
        ids_distinct_each(ts),
    ensures
        license_type_ids_distinct(ts),
    decreases ts.len(),
{
    if ts.len() > 0 {
        let d = ts.drop_last();
        lemma_ids_distinct_each(d);
        lemma_id_fresh_each(d, ts.last().license_type_id);
        assert forall|i: int, j: int| 0 <= i < j < ts.len() implies (#[trigger] ts[i]).license_type_id != (#[trigger] ts[j]).license_type_id by {
            assert(ts[i] == d[i]);
            if j < ts.len() - 1 {
                assert(ts[j] == d[j]);
            }
        }
    }
}

/// No licence type of `a` shares an identifier with one of `b`.
pub open spec fn license_type_ids_apart(a: Seq<LicenseTypeView>, b: Seq<LicenseTypeView>) -> bool {
    forall|i: int, j: int|
        0 <= i < a.len() && 0 <= j < b.len() ==> (#[trigger] a[i]).license_type_id != (#[trigger] b[j]).license_type_id
}

/// Element-by-element form of [`license_type_ids_apart`].
pub open spec fn apart_each(a: Seq<LicenseTypeView>, b: Seq<LicenseTypeView>) -> bool
    decreases a.len(),
{
    a.len() == 0 || (id_fresh_each(b, a.last().license_type_id) && apart_each(a.drop_last(), b))
}

pub proof fn lemma_apart_each(a: Seq<LicenseTypeView>, b: Seq<LicenseTypeView>)
    requires
        apart_each(a, b),
    ensures
        license_type_ids_apart(a, b),
    decreases a.len(),
{
    if a.len() > 0 {
        lemma_apart_each(a.drop_last(), b);
        lemma_id_fresh_each(b, a.last().license_type_id);
        assert forall|i: int, j: int| 0 <= i < a.len() && 0 <= j < b.len() implies (#[trigger] a[i]).license_type_id != (#[trigger] b[j]).license_type_id by {
            if i < a.len() - 1 {
                assert(a[i] == a.drop_last()[i]);
            }
        }
    }
}

/// Two lists, each without repeated identifiers and sharing none, have none
/// repeated in their concatenation.
pub proof fn lemma_ids_distinct_append(a: Seq<LicenseTypeView>, b: Seq<LicenseTypeView>)
    requires
        license_type_ids_distinct(a),
        license_type_ids_distinct(b),
        license_type_ids_apart(a, b),
    ensures
        license_type_ids_distinct(a + b),
{
    assert forall|i: int, j: int| 0 <= i < j < (a + b).len() implies (#[trigger] (a + b)[i]).license_type_id != (#[trigger] (a + b)[j]).license_type_id by {
        if j < a.len() {
            assert((a + b)[i] == a[i] && (a + b)[j] == a[j]);
        } else if i < a.len() {
            assert((a + b)[i] == a[i] && (a + b)[j] == b[j - a.len()]);
        } else {
            assert((a + b)[i] == b[i - a.len()] && (a + b)[j] == b[j - a.len()]);
        }
    }
}

/// Sharing no identifier with `c` carries over to a concatenation.
pub proof fn lemma_ids_apart_append(a: Seq<LicenseTypeView>, b: Seq<LicenseTypeView>, c: Seq<LicenseTypeView>)
    requires
        license_type_ids_apart(a, c),
        license_type_ids_apart(b, c),
    ensures
        license_type_ids_apart(a + b, c),
{
    assert forall|i: int, j: int| 0 <= i < (a + b).len() && 0 <= j < c.len() implies (#[trigger] (a + b)[i]).license_type_id != (#[trigger] c[j]).license_type_id by {
        if i < a.len() {
            assert((a + b)[i] == a[i]);
        } else {
            assert((a + b)[i] == b[i - a.len()]);
        }
    }
}

/// The identifier of licence type `t` starts with the identifier of its
/// regulator followed by a colon.
pub open spec fn license_type_id_prefixed(t: LicenseTypeView) -> bool {
    has_prefix(t.license_type_id, t.regulator_id + ":"@)
}

/// Every licence-type identifier of `ts` starts with its regulator's
/// identifier and a colon.
pub open spec fn license_type_ids_prefixed(ts: Seq<LicenseTypeView>) -> bool {
    forall|i: int| 0 <= i < ts.len() ==> license_type_id_prefixed(#[trigger] ts[i])
}

/// Element-by-element form of [`license_type_ids_prefixed`].
pub open spec fn prefixed_each(ts: Seq<LicenseTypeView>) -> bool
    decreases ts.len(),
{
    ts.len() == 0 || (license_type_id_prefixed(ts.last()) && prefixed_each(ts.drop_last()))
}

pub proof fn lemma_prefixed_each(ts: Seq<LicenseTypeView>)
    requires
        prefixed_each(ts),
    ensures
        license_type_ids_prefixed(ts),
    decreases ts.len(),
{
    if ts.len() > 0 {
        lemma_prefixed_each(ts.drop_last());
        assert forall|i: int| 0 <= i < ts.len() implies license_type_id_prefixed(#[trigger] ts[i]) by {
            if i < ts.len() - 1 {
                assert(ts[i] == ts.drop_last()[i]);
            }
        }
    }
}

/// Prefixed identifiers carry over to concatenation.
pub proof fn lemma_prefixed_append(a: Seq<LicenseTypeView>, b: Seq<LicenseTypeView>)
    requires
        license_type_ids_prefixed(a),
        license_type_ids_prefixed(b),
    ensures
        license_type_ids_prefixed(a + b),
{
    assert forall|i: int| 0 <= i < (a + b).len() implies license_type_id_prefixed(#[trigger] (a + b)[i]) by {
        if i < a.len() {
            assert((a + b)[i] == a[i]);
        } else {
            assert((a + b)[i] == b[i - a.len()]);
        }
    }
}

} // verus!
