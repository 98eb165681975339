//! Licence status, domain and compliance-state enumerations.

use vstd::prelude::*;

verus! {

/// Lifecycle state of a business licence.
///
/// Revoked, Expired and Surrendered are terminal states.
#[derive(Debug, Clone, Copy, PartialEq, Eq, Structural, Hash)]
pub enum LicenseStatus {
    /// Currently active and valid.
    Active,
    /// Temporarily suspended.
    Suspended,
    /// Revoked for cause (terminal).
    Revoked,
    /// Expired (terminal).
    Expired,
    /// Application pending.
    Pending,
    /// Voluntarily surrendered (terminal).
    Surrendered,
}

/// The name of a status, as it is written in serialized form.
pub open spec fn status_name(s: LicenseStatus) -> Seq<char> {
    match s {
        LicenseStatus::Active => "active"@,
        LicenseStatus::Suspended => "suspended"@,
        LicenseStatus::Revoked => "revoked"@,
        LicenseStatus::Expired => "expired"@,
        LicenseStatus::Pending => "pending"@,
        LicenseStatus::Surrendered => "surrendered"@,
    }
}

/// Whether a status is terminal.
pub open spec fn status_is_terminal(s: LicenseStatus) -> bool {
    s is Revoked || s is Expired || s is Surrendered
}

impl LicenseStatus {
    /// Whether this status represents a terminal state.
    pub fn is_terminal(&self) -> (r: bool)
        ensures
            r == status_is_terminal(*self),
            r == (*self is Revoked || *self is Expired || *self is Surrendered),
    {
        match self {
            LicenseStatus::Revoked | LicenseStatus::Expired | LicenseStatus::Surrendered => true,
            _ => false,
        }
    }

    /// Serialized name of the status.
    pub fn as_str(&self) -> (r: &'static str)
        ensures
            r@ == status_name(*self),
            *self is Active ==> r@ == "active"@,
            *self is Suspended ==> r@ == "suspended"@,
            *self is Revoked ==> r@ == "revoked"@,
            *self is Expired ==> r@ == "expired"@,
            *self is Pending ==> r@ == "pending"@,
            *self is Surrendered ==> r@ == "surrendered"@,
    {
        match self {
            LicenseStatus::Active => "active",
            LicenseStatus::Suspended => "suspended",
            LicenseStatus::Revoked => "revoked",
            LicenseStatus::Expired => "expired",
            LicenseStatus::Pending => "pending",
            LicenseStatus::Surrendered => "surrendered",
        }
    }

    /// Display form of the status (the same text as `as_str`).
    pub fn to_string(&self) -> (r: String)
        ensures
            r@ == status_name(*self),
            *self is Active ==> r@ == "active"@,
            *self is Suspended ==> r@ == "suspended"@,
            *self is Revoked ==> r@ == "revoked"@,
            *self is Expired ==> r@ == "expired"@,
            *self is Pending ==> r@ == "pending"@,
            *self is Surrendered ==> r@ == "surrendered"@,
    {
        self.as_str().to_string()
    }
}

/// Regulatory domain a licence covers.
#[derive(Debug, Clone, Copy, PartialEq, Eq, Structural, Hash)]
pub enum LicenseDomain {
    /// Financial services licences.
    Financial,
    /// Corporate services licences.
    Corporate,
    /// Professional certifications.
    Professional,
    /// Trade licences.
    Trade,
    /// Insurance licences.
    Insurance,
    /// Mixed or multi-domain licences.
    Mixed,
}

/// The name of a domain, as it is written in serialized form.
pub open spec fn domain_name(d: LicenseDomain) -> Seq<char> {
    match d {
        LicenseDomain::Financial => "financial"@,
        LicenseDomain::Corporate => "corporate"@,
        LicenseDomain::Professional => "professional"@,
        LicenseDomain::Trade => "trade"@,
        LicenseDomain::Insurance => "insurance"@,
        LicenseDomain::Mixed => "mixed"@,
    }
}

impl LicenseDomain {
    /// Serialized name of the domain.
    pub fn as_str(&self) -> (r: &'static str)
        ensures
            r@ == domain_name(*self),
            *self is Financial ==> r@ == "financial"@,
            *self is Corporate ==> r@ == "corporate"@,
            *self is Professional ==> r@ == "professional"@,
            *self is Trade ==> r@ == "trade"@,
            *self is Insurance ==> r@ == "insurance"@,
            *self is Mixed ==> r@ == "mixed"@,
    {
        match self {
            LicenseDomain::Financial => "financial",
            LicenseDomain::Corporate => "corporate",
            LicenseDomain::Professional => "professional",
            LicenseDomain::Trade => "trade",
            LicenseDomain::Insurance => "insurance",
            LicenseDomain::Mixed => "mixed",
        }
    }

    /// Display form of the domain (the same text as `as_str`).
    pub fn to_string(&self) -> (r: String)
        ensures
            r@ == domain_name(*self),
            *self is Financial ==> r@ == "financial"@,
            *self is Corporate ==> r@ == "corporate"@,
            *self is Professional ==> r@ == "professional"@,
            *self is Trade ==> r@ == "trade"@,
            *self is Insurance ==> r@ == "insurance"@,
            *self is Mixed ==> r@ == "mixed"@,
    {
        self.as_str().to_string()
    }
}

/// Compliance state of the licensing domain, on the lattice
/// `NON_COMPLIANT < SUSPENDED < UNKNOWN < PENDING < COMPLIANT`.
#[derive(Debug, Clone, Copy, PartialEq, Eq, Structural, Hash)]
pub enum LicenseComplianceState {
    /// A valid licence permits the activity.
    Compliant,
    /// No valid licence, expired, or activity not permitted.
    NonCompliant,
    /// Licence application pending.
    Pending,
    /// Licence temporarily suspended.
    Suspended,
    /// Licence state unknown.
    Unknown,
}

/// The name of a compliance state, as it is written in serialized form.
pub open spec fn compliance_name(c: LicenseComplianceState) -> Seq<char> {
    match c {
        LicenseComplianceState::Compliant => "COMPLIANT"@,
        LicenseComplianceState::NonCompliant => "NON_COMPLIANT"@,
        LicenseComplianceState::Pending => "PENDING"@,
        LicenseComplianceState::Suspended => "SUSPENDED"@,
        LicenseComplianceState::Unknown => "UNKNOWN"@,
    }
}

/// The position of a compliance state on the lattice
/// `NON_COMPLIANT < SUSPENDED < UNKNOWN < PENDING < COMPLIANT`.
pub open spec fn compliance_rank(c: LicenseComplianceState) -> int {
    match c {
        LicenseComplianceState::NonCompliant => 0,
        LicenseComplianceState::Suspended => 1,
        LicenseComplianceState::Unknown => 2,
        LicenseComplianceState::Pending => 3,
        LicenseComplianceState::Compliant => 4,
    }
}

impl LicenseComplianceState {
    /// Serialized name of the state.
    pub fn as_str(&self) -> (r: &'static str)
        ensures
            r@ == compliance_name(*self),
            *self is Compliant ==> r@ == "COMPLIANT"@,
            *self is NonCompliant ==> r@ == "NON_COMPLIANT"@,
            *self is Pending ==> r@ == "PENDING"@,
            *self is Suspended ==> r@ == "SUSPENDED"@,
            *self is Unknown ==> r@ == "UNKNOWN"@,
    {
        match self {
            LicenseComplianceState::Compliant => "COMPLIANT",
            LicenseComplianceState::NonCompliant => "NON_COMPLIANT",
            LicenseComplianceState::Pending => "PENDING",
            LicenseComplianceState::Suspended => "SUSPENDED",
            LicenseComplianceState::Unknown => "UNKNOWN",
        }
    }

    /// Display form of the state (the same text as `as_str`).
    pub fn to_string(&self) -> (r: String)
        ensures
            r@ == compliance_name(*self),
            *self is Compliant ==> r@ == "COMPLIANT"@,
            *self is NonCompliant ==> r@ == "NON_COMPLIANT"@,
            *self is Pending ==> r@ == "PENDING"@,
            *self is Suspended ==> r@ == "SUSPENDED"@,
            *self is Unknown ==> r@ == "UNKNOWN"@,
    {
        self.as_str().to_string()
    }
}

/// Distinct statuses have distinct serialized names, so a name read back
/// gives the status it was written from.
pub proof fn lemma_status_names_distinct()
    ensures
        forall|a: LicenseStatus, b: LicenseStatus| #[trigger] status_name(a) == #[trigger] status_name(b) ==> a == b,
{
    reveal_strlit("active");
    reveal_strlit("suspended");
    reveal_strlit("revoked");
    reveal_strlit("expired");
    reveal_strlit("pending");
    reveal_strlit("surrendered");
    assert forall|a: LicenseStatus, b: LicenseStatus| #[trigger] status_name(a) == #[trigger] status_name(b) implies a == b by {
        if a != b {
            assert(status_name(a)[0] != status_name(b)[0] || status_name(a)[2] != status_name(b)[2]);
        }
    }
}

/// Distinct domains have distinct serialized names.
pub proof fn lemma_domain_names_distinct()
    ensures
        forall|a: LicenseDomain, b: LicenseDomain| #[trigger] domain_name(a) == #[trigger] domain_name(b) ==> a == b,
{
    reveal_strlit("financial");
    reveal_strlit("corporate");
    reveal_strlit("professional");
    reveal_strlit("trade");
    reveal_strlit("insurance");
    reveal_strlit("mixed");
    assert forall|a: LicenseDomain, b: LicenseDomain| #[trigger] domain_name(a) == #[trigger] domain_name(b) implies a == b by {
        if a != b {
            assert(domain_name(a)[0] != domain_name(b)[0]);
        }
    }
}

/// Distinct compliance states have distinct serialized names.
pub proof fn lemma_compliance_names_distinct()
    ensures
        forall|a: LicenseComplianceState, b: LicenseComplianceState| #[trigger] compliance_name(a) == #[trigger] compliance_name(b) ==> a == b,
{
    reveal_strlit("COMPLIANT");
    reveal_strlit("NON_COMPLIANT");
    reveal_strlit("PENDING");
    reveal_strlit("SUSPENDED");
    reveal_strlit("UNKNOWN");
    assert forall|a: LicenseComplianceState, b: LicenseComplianceState| #[trigger] compliance_name(a) == #[trigger] compliance_name(b) implies a == b by {
        if a != b {
            assert(compliance_name(a)[0] != compliance_name(b)[0]);
        }
    }
}

} // verus!
