use licensepack::types::{LicenseComplianceState, LicenseDomain, LicenseStatus};

#[test]
fn test_license_status_terminal() {
    assert!(!LicenseStatus::Active.is_terminal());
    assert!(!LicenseStatus::Suspended.is_terminal());
    assert!(!LicenseStatus::Pending.is_terminal());
    assert!(LicenseStatus::Revoked.is_terminal());
    assert!(LicenseStatus::Expired.is_terminal());
    assert!(LicenseStatus::Surrendered.is_terminal());
}

#[test]
fn test_compliance_state_values() {
    assert_eq!(LicenseComplianceState::Compliant.as_str(), "COMPLIANT");
    assert_eq!(
        LicenseComplianceState::NonCompliant.as_str(),
        "NON_COMPLIANT"
    );
    assert_eq!(LicenseComplianceState::Pending.as_str(), "PENDING");
    assert_eq!(LicenseComplianceState::Suspended.as_str(), "SUSPENDED");
    assert_eq!(LicenseComplianceState::Unknown.as_str(), "UNKNOWN");
}

#[test]
fn test_license_status_display() {
    assert_eq!(LicenseStatus::Active.to_string(), "active");
    assert_eq!(LicenseStatus::Suspended.to_string(), "suspended");
    assert_eq!(LicenseStatus::Revoked.to_string(), "revoked");
    assert_eq!(LicenseStatus::Expired.to_string(), "expired");
    assert_eq!(LicenseStatus::Pending.to_string(), "pending");
    assert_eq!(LicenseStatus::Surrendered.to_string(), "surrendered");
}

#[test]
fn test_license_domain_display() {
    assert_eq!(LicenseDomain::Financial.to_string(), "financial");
    assert_eq!(LicenseDomain::Corporate.to_string(), "corporate");
    assert_eq!(LicenseDomain::Professional.to_string(), "professional");
    assert_eq!(LicenseDomain::Trade.to_string(), "trade");
    assert_eq!(LicenseDomain::Insurance.to_string(), "insurance");
    assert_eq!(LicenseDomain::Mixed.to_string(), "mixed");
}

#[test]
fn test_license_compliance_state_display() {
    assert_eq!(
        LicenseComplianceState::Compliant.to_string(),
        "COMPLIANT"
    );
    assert_eq!(
        LicenseComplianceState::NonCompliant.to_string(),
        "NON_COMPLIANT"
    );
    assert_eq!(LicenseComplianceState::Pending.to_string(), "PENDING");
    assert_eq!(
        LicenseComplianceState::Suspended.to_string(),
        "SUSPENDED"
    );
    assert_eq!(LicenseComplianceState::Unknown.to_string(), "UNKNOWN");
}

#[test]
fn status_names_are_distinct_and_match_as_str() {
    let all = [
        LicenseStatus::Active,
        LicenseStatus::Suspended,
        LicenseStatus::Revoked,
        LicenseStatus::Expired,
        LicenseStatus::Pending,
        LicenseStatus::Surrendered,
    ];
    for a in all {
        assert_eq!(a.to_string(), a.as_str());
        for b in all {
            assert_eq!(a.as_str() == b.as_str(), a == b);
        }
    }
}

#[test]
fn domain_and_compliance_names() {
    assert_eq!(LicenseDomain::Mixed.as_str(), "mixed");
    assert_eq!(LicenseDomain::Insurance.as_str(), "insurance");
    assert_eq!(LicenseComplianceState::Unknown.to_string(), "UNKNOWN");
}
