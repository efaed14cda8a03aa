use t1_daemons::auth_protocol::AccessPolicy;
use t1_daemons::enrollment_owner::EnrollmentOwnerError;
use t1_daemons::standard_smoke::{
    recorded_owner, report_failed, StandardSmokeReport, StandardSmokeStatus,
};

#[test]
fn terminal_error_is_the_only_reported_process_failure() {
    assert!(report_failed(StandardSmokeReport::Status(
        StandardSmokeStatus::Error
    )));
    assert!(!report_failed(StandardSmokeReport::Status(
        StandardSmokeStatus::NoMatch
    )));
    assert!(!report_failed(StandardSmokeReport::Count(0)));
}

#[test]
fn a_missing_owner_is_no_environment_failure() {
    let policy = AccessPolicy::new(42_000).unwrap();
    assert!(matches!(recorded_owner(Ok(policy)), Ok(Some(owner)) if owner == policy));
    assert!(matches!(recorded_owner(Err(EnrollmentOwnerError::MissingOwner)), Ok(None)));
    assert!(recorded_owner(Err(EnrollmentOwnerError::CorruptState)).is_err());
}
