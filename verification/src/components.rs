//! Licence sub-records: conditions, permissions, restrictions and holders.
//!
//! These model the constraints and grants attached to individual licences.
//! Condition expiry is checked against a `YYYY-MM-DD` date; a date that does
//! not parse is treated as already past (fail-safe).

use std::collections::BTreeMap;

use chrono::Datelike;
use vstd::prelude::*;

use crate::text::{contains_text, is_blank, text_eq, trim_is_empty};

verus! {

/// Declares `serde_json::Value` to the verifier as an opaque type, so that
/// the JSON scope and limit maps of a permission can be held and carried
/// through; nothing is claimed of what a value holds.
#[verifier::external_type_specification]
#[verifier::external_body]
pub struct ExJsonValue(serde_json::Value);

/// Lets verified code copy a JSON value with `serde_json::Value`'s `clone`
/// (its derived `Clone`); nothing is claimed of the copy.
pub assume_specification[ <serde_json::Value as Clone>::clone ](v: &serde_json::Value) -> (r: serde_json::Value);

/// The calendar date, as (year, month, day), that chrono's
/// `NaiveDate::parse_from_str(s, "%Y-%m-%d")` reads from the text `s`, or
/// `None` where that parse fails.
pub uninterp spec fn chrono_ymd(s: Seq<char>) -> Option<(i32, u32, u32)>;

/// Parses a `YYYY-MM-DD` date with chrono's `NaiveDate::parse_from_str`, and
/// returns its year, month and day.
///
/// The contract claims only that the result is a function of the text (it
/// is named by [`chrono_ymd`]); which texts parse, and to which dates, is
/// left to chrono.
#[verifier::external_body]
fn parse_ymd(s: &str) -> (r: Option<(i32, u32, u32)>)
    ensures
        r == chrono_ymd(s@),
{
    match chrono::NaiveDate::parse_from_str(s, "%Y-%m-%d") {
        Ok(d) => Some((d.year(), d.month(), d.day())),
        Err(_) => None,
    }
}

/// Whether the date `a` is strictly before the date `b`, both as
/// (year, month, day); this is the chronological order of calendar dates.
pub open spec fn ymd_before(a: (i32, u32, u32), b: (i32, u32, u32)) -> bool {
    ||| a.0 < b.0
    ||| a.0 == b.0 && a.1 < b.1
    ||| a.0 == b.0 && a.1 == b.1 && a.2 < b.2
}

/// Whether the parsed date `a` is before the parsed date `b`; a date that
/// failed to parse makes the answer `true`.
pub open spec fn parsed_date_before(a: Option<(i32, u32, u32)>, b: Option<(i32, u32, u32)>) -> bool {
    match (a, b) {
        (Some(x), Some(y)) => ymd_before(x, y),
        _ => true,
    }
}

/// Whether the date text `a` is strictly before the date text `b`.
pub open spec fn date_text_before(a: Seq<char>, b: Seq<char>) -> bool {
    parsed_date_before(chrono_ymd(a), chrono_ymd(b))
}

/// Decides "`a` before `b`" from two parse results; where either parse
/// failed, the answer is `true` (fail-safe: the date counts as already past).
pub fn date_before_parsed(a: Option<(i32, u32, u32)>, b: Option<(i32, u32, u32)>) -> (r: bool)
    ensures
        r == parsed_date_before(a, b),
        a is None || b is None ==> r,
        a is Some && b is Some ==> ({
            let (x, y) = (a->0, b->0);
            r <==> (x.0 < y.0 || (x.0 == y.0 && x.1 < y.1) || (x.0 == y.0 && x.1 == y.1 && x.2 < y.2))
        }),
{
    match (a, b) {
        (Some(x), Some(y)) => x.0 < y.0 || (x.0 == y.0 && x.1 < y.1) || (x.0 == y.0 && x.1 == y.1
            && x.2 < y.2),
        _ => true,
    }
}

/// Compares two `YYYY-MM-DD` date strings: `true` if `a` is strictly before
/// `b`, and also `true` if either fails to parse.
pub fn date_before(a: &str, b: &str) -> (r: bool)
    ensures
        r == date_text_before(a@, b@),
{
    let da = parse_ymd(a);
    let db = parse_ymd(b);
    date_before_parsed(da, db)
}

/// A condition attached to a licence: an ongoing requirement (capital
/// adequacy, operational standards, reporting) the holder must satisfy.
#[derive(Debug, Clone)]
pub struct LicenseCondition {
    /// Unique condition identifier.
    pub condition_id: String,
    /// Condition type: "capital", "operational", "activity_restriction", "reporting".
    pub condition_type: String,
    /// Human-readable description.
    pub description: String,
    /// Metric to monitor (e.g. "minimum_capital").
    pub metric: Option<String>,
    /// Threshold value (decimal text).
    pub threshold: Option<String>,
    /// Currency for monetary thresholds.
    pub currency: Option<String>,
    /// Comparison operator: ">=", "<=", "==", "<", ">".
    pub operator: Option<String>,
    /// Monitoring frequency.
    pub frequency: Option<String>,
    /// Reporting frequency.
    pub reporting_frequency: Option<String>,
    /// Effective date (YYYY-MM-DD).
    pub effective_date: Option<String>,
    /// Expiry date (YYYY-MM-DD).
    pub expiry_date: Option<String>,
    /// Condition status: "active", "waived", "expired".
    pub status: String,
}

/// Whether a condition with this status and expiry date is active on `today`.
pub open spec fn condition_active(status: Seq<char>, expiry: Option<Seq<char>>, today: Seq<char>) -> bool {
    &&& status == "active"@
    &&& match expiry {
        Some(e) => !date_text_before(e, today),
        None => true,
    }
}

impl LicenseCondition {
    /// Whether the condition has its required identifier: `false` when
    /// `condition_id` is empty or all whitespace.
    pub fn is_valid(&self) -> (r: bool)
        ensures
            r == !is_blank(self.condition_id@),
    {
        !trim_is_empty(self.condition_id.as_str())
    }

    /// Whether this condition is active on `today` (YYYY-MM-DD): its status
    /// is "active" and its expiry date, if any, is not before `today`.
    pub fn is_active(&self, today: &str) -> (r: bool)
        ensures
            r == condition_active(
                self.status@,
                match self.expiry_date {
                    Some(e) => Some(e@),
                    None => None,
                },
                today@,
            ),
            self.status@ != "active"@ ==> !r,
            self.status@ == "active"@ && self.expiry_date is None ==> r,
            self.expiry_date is Some && chrono_ymd(self.expiry_date->0@) is None ==> !r,
    {
        proof {
            lemma_condition_status_gates(self.status@, crate::license::opt_text(self.expiry_date), today@);
        }
        if !text_eq(&self.status, "active") {
            return false;
        }
        match &self.expiry_date {
            Some(expiry) => {
                if date_before(expiry.as_str(), today) {
                    return false;
                }
            },
            None => {},
        }
        true
    }
}

/// A permission granted under a licence: an activity the holder may carry
/// out, with optional scope and limits.
#[derive(Debug, Clone)]
pub struct LicensePermission {
    /// Unique permission identifier.
    pub permission_id: String,
    /// Activity this permission covers.
    pub activity: String,
    /// Scope details.
    pub scope: BTreeMap<String, serde_json::Value>,
    /// Limits on the permission.
    pub limits: BTreeMap<String, serde_json::Value>,
    /// Effective date.
    pub effective_date: Option<String>,
    /// Permission status.
    pub status: String,
}

impl LicensePermission {
    /// Whether this permission allows `activity`: it covers exactly that
    /// activity and its status is "active".
    pub fn permits_activity(&self, activity: &str) -> (r: bool)
        ensures
            r == (self.activity@ == activity@ && self.status@ == "active"@),
    {
        text_eq(&self.activity, activity) && text_eq(&self.status, "active")
    }
}

/// A restriction on a licence: blocked activities, jurisdictions, products
/// or client types. A `"*"` among the blocked jurisdictions blocks every
/// jurisdiction except those listed as allowed.
#[derive(Debug, Clone)]
pub struct LicenseRestriction {
    /// Unique restriction identifier.
    pub restriction_id: String,
    /// Restriction type: "geographic", "activity", "product", "client_type".
    pub restriction_type: String,
    /// Human-readable description.
    pub description: String,
    /// Blocked jurisdictions ("*" for all except the allowed ones).
    pub blocked_jurisdictions: Vec<String>,
    /// Allowed jurisdictions (exceptions to a "*" block).
    pub allowed_jurisdictions: Vec<String>,
    /// Blocked activities.
    pub blocked_activities: Vec<String>,
    /// Blocked products.
    pub blocked_products: Vec<String>,
    /// Blocked client types.
    pub blocked_client_types: Vec<String>,
    /// Maximum leverage ratio.
    pub max_leverage: Option<String>,
    /// Effective date.
    pub effective_date: Option<String>,
    /// Restriction status.
    pub status: String,
}

/// Whether the text `t` is one of the texts of `items`.
pub open spec fn lists(items: Seq<String>, t: Seq<char>) -> bool {
    exists|i: int| 0 <= i < items.len() && #[trigger] items[i]@ == t
}

/// Whether a restriction with these lists and this status blocks the
/// jurisdiction `j`.
pub open spec fn restriction_blocks_jurisdiction(
    status: Seq<char>,
    blocked: Seq<String>,
    allowed: Seq<String>,
    j: Seq<char>,
) -> bool {
    &&& j.len() > 0
    &&& status == "active"@
    &&& if lists(blocked, "*"@) {
        !lists(allowed, j)
    } else {
        lists(blocked, j)
    }
}

impl LicenseRestriction {
    /// Whether this restriction blocks `activity`: it lists the activity and
    /// its status is "active".
    pub fn blocks_activity(&self, activity: &str) -> (r: bool)
        ensures
            r == (lists(self.blocked_activities@, activity@) && self.status@ == "active"@),
    {
        contains_text(&self.blocked_activities, activity) && text_eq(&self.status, "active")
    }

    /// Whether this restriction blocks `jurisdiction`. An empty jurisdiction
    /// is never blocked, nor is any by a restriction that is not active.
    pub fn blocks_jurisdiction(&self, jurisdiction: &str) -> (r: bool)
        ensures
            r == restriction_blocks_jurisdiction(
                self.status@,
                self.blocked_jurisdictions@,
                self.allowed_jurisdictions@,
                jurisdiction@,
            ),
            self.status@ != "active"@ ==> !r,
            jurisdiction@.len() == 0 ==> !r,
            self.status@ == "active"@ && jurisdiction@.len() > 0 && !lists(self.blocked_jurisdictions@, "*"@)
                ==> (r <==> lists(self.blocked_jurisdictions@, jurisdiction@)),
            self.status@ == "active"@ && jurisdiction@.len() > 0 && lists(self.blocked_jurisdictions@, "*"@)
                ==> (r <==> !lists(self.allowed_jurisdictions@, jurisdiction@)),
    {
        proof {
            lemma_restriction_status_gates(
                self.status@,
                self.blocked_jurisdictions@,
                self.allowed_jurisdictions@,
                jurisdiction@,
            );
        }
        if jurisdiction.unicode_len() == 0 {
            return false;
        }
        if !text_eq(&self.status, "active") {
            return false;
        }
        if contains_text(&self.blocked_jurisdictions, "*") {
            return !contains_text(&self.allowed_jurisdictions, jurisdiction);
        }
        contains_text(&self.blocked_jurisdictions, jurisdiction)
    }
}

/// Profile of the entity that holds one or more licences.
#[derive(Debug, Clone)]
pub struct LicenseHolder {
    /// Unique holder identifier.
    pub holder_id: String,
    /// Entity type.
    pub entity_type: String,
    /// Legal name.
    pub legal_name: String,
    /// Trading names.
    pub trading_names: Vec<String>,
    /// Registration number.
    pub registration_number: Option<String>,
    /// Incorporation date.
    pub incorporation_date: Option<String>,
    /// Jurisdiction of incorporation.
    pub jurisdiction_of_incorporation: Option<String>,
    /// Decentralized identifier.
    pub did: Option<String>,
    /// Registered address.
    pub registered_address: BTreeMap<String, String>,
    /// Contact information.
    pub contact: BTreeMap<String, String>,
    /// Controllers.
    pub controllers: Vec<serde_json::Value>,
    /// Beneficial owners.
    pub beneficial_owners: Vec<serde_json::Value>,
    /// Group structure.
    pub group_structure: BTreeMap<String, serde_json::Value>,
}

/// Date comparison is a strict order on dates that parse: no date is
/// before itself, two dates are never each before the other, and "before"
/// chains.
pub proof fn lemma_date_before_is_strict_order(a: Seq<char>, b: Seq<char>, c: Seq<char>)
    requires
        chrono_ymd(a) is Some,
        chrono_ymd(b) is Some,
        chrono_ymd(c) is Some,
    ensures
        !date_text_before(a, a),
        !(date_text_before(a, b) && date_text_before(b, a)),
        date_text_before(a, b) && date_text_before(b, c) ==> date_text_before(a, c),
{
}

/// A date that does not parse counts as already past: it is before any
/// date, and any date is before it.
pub proof fn lemma_unparsable_date_is_before(a: Seq<char>, b: Seq<char>)
    requires
        chrono_ymd(a) is None || chrono_ymd(b) is None,
    ensures
        date_text_before(a, b),
{
}

/// An active condition stays active through its expiry day, and one whose
/// expiry date does not parse is never active.
pub proof fn lemma_condition_expiry(status: Seq<char>, expiry: Seq<char>, today: Seq<char>)
    ensures
        chrono_ymd(expiry) is Some ==> condition_active("active"@, Some(expiry), expiry),
        chrono_ymd(expiry) is None ==> !condition_active(status, Some(expiry), today),
{
}

/// A condition is active only under the status "active": any other status
/// makes it inactive on every date, whatever its expiry. Under "active", a
/// condition with no expiry date is active on every date, one whose expiry
/// date parses and falls before today is inactive, and one whose expiry date
/// does not parse is inactive.
pub proof fn lemma_condition_status_gates(status: Seq<char>, expiry: Option<Seq<char>>, today: Seq<char>)
    ensures
        status != "active"@ ==> !condition_active(status, expiry, today),
        status == "active"@ && expiry is None ==> condition_active(status, expiry, today),
        expiry is Some && chrono_ymd(expiry->0) is None ==> !condition_active(status, expiry, today),
        expiry is Some && chrono_ymd(expiry->0) is Some && chrono_ymd(today) is Some && ymd_before(
            chrono_ymd(expiry->0)->0,
            chrono_ymd(today)->0,
        ) ==> !condition_active(status, expiry, today),
        status == "active"@ && expiry is Some && chrono_ymd(expiry->0) is Some && chrono_ymd(today) is Some
            && !ymd_before(chrono_ymd(expiry->0)->0, chrono_ymd(today)->0) ==> condition_active(
            status,
            expiry,
            today,
        ),
{
}

/// A restriction blocks only under the status "active": any other status
/// blocks no jurisdiction, with or without a "*" in its blocked list, and no
/// restriction blocks the empty jurisdiction. Under "active", a "*" blocks
/// every jurisdiction not listed as allowed; without one, exactly the listed
/// jurisdictions are blocked.
pub proof fn lemma_restriction_status_gates(
    status: Seq<char>,
    blocked: Seq<String>,
    allowed: Seq<String>,
    j: Seq<char>,
)
    ensures
        status != "active"@ ==> !restriction_blocks_jurisdiction(status, blocked, allowed, j),
        j.len() == 0 ==> !restriction_blocks_jurisdiction(status, blocked, allowed, j),
        status == "active"@ && j.len() > 0 && !lists(blocked, "*"@) ==> (restriction_blocks_jurisdiction(
            status,
            blocked,
            allowed,
            j,
        ) <==> lists(blocked, j)),
        status == "active"@ && j.len() > 0 && lists(blocked, "*"@) ==> (restriction_blocks_jurisdiction(
            status,
            blocked,
            allowed,
            j,
        ) <==> !lists(allowed, j)),
{
}

/// Dates that parse are totally ordered: of two different ones, exactly one
/// is before the other.
pub proof fn lemma_date_before_total(a: Seq<char>, b: Seq<char>)
    requires
        chrono_ymd(a) is Some,
        chrono_ymd(b) is Some,
        chrono_ymd(a) != chrono_ymd(b),
    ensures
        date_text_before(a, b) != date_text_before(b, a),
{
}

} // verus!
