//! Reports of the development smoke harness.

use crate::auth_protocol::AccessPolicy;
use crate::enrollment_owner::EnrollmentOwnerError;
use vstd::prelude::*;

verus! {

/// How a smoke operation ended.
#[derive(Clone, Copy, Debug, PartialEq, Eq, Structural)]
pub enum StandardSmokeStatus {
    Matched,
    NoMatch,
    Enrolled,
    Cancelled,
    Busy,
    Error,
}

/// What a smoke run reports: a status, or how many identities there are.
#[derive(Clone, Copy, Debug, PartialEq, Eq, Structural)]
pub enum StandardSmokeReport {
    Status(StandardSmokeStatus),
    Count(usize),
}

/// The harness's surroundings could not be established.
#[derive(Clone, Copy, Debug, PartialEq, Eq, Structural)]
pub struct StandardSmokeEnvironmentError;

/// Whether the report makes the process fail: only a terminal error does.
pub fn report_failed(report: StandardSmokeReport) -> (r: bool)
    ensures
        r == (report == StandardSmokeReport::Status(StandardSmokeStatus::Error)),
{
    matches!(report, StandardSmokeReport::Status(StandardSmokeStatus::Error))
}

/// The recorded owner's policy, where a missing owner is none.
pub fn recorded_owner(policy: Result<AccessPolicy, EnrollmentOwnerError>) -> (r: Result<
    Option<AccessPolicy>,
    StandardSmokeEnvironmentError,
>)
    ensures
        r == match policy {
            Ok(policy) => Ok::<Option<AccessPolicy>, StandardSmokeEnvironmentError>(Some(policy)),
            Err(EnrollmentOwnerError::MissingOwner) => Ok(None),
            Err(_) => Err(StandardSmokeEnvironmentError),
        },
{
    match policy {
        Ok(policy) => Ok(Some(policy)),
        Err(EnrollmentOwnerError::MissingOwner) => Ok(None),
        Err(_) => Err(StandardSmokeEnvironmentError),
    }
}

} // verus!
