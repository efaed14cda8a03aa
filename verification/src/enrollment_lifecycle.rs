//! Enrollment composition across relay, exclusive lease, owner and storage.

use crate::biometric::{IdentityIdentifier, ACM_CONTEXT_EXTERNAL_FORM_SIZE};
use crate::catacomb_session::CatacombBackup;
use crate::catacomb_store::CatacombStoreError;
use crate::enrollment_owner::{EnrollmentOwner, EnrollmentOwnerError, OwnerClaim};
use crate::relay_handoff::HandoffFault;
use vstd::prelude::*;

verus! {

/// Result of acquiring and cleaning up one exclusive lease.
pub enum EnrollmentLeaseOutcome<T, PreparationError, E> {
    /// Acquisition and cleanup both succeeded.
    Completed(T),
    /// Caller-owned preparation failed after the exclusive lock was acquired, but
    /// before anything else was.
    PreparationFailed(PreparationError),
    /// Acquisition failed before the operation ran.
    AcquisitionFailed(E),
    /// The operation ran, but releasing the lease failed afterward.
    CleanupFailed { operation: T, error: E },
}

impl<T, PreparationError, E> EnrollmentLeaseOutcome<T, PreparationError, E> {
    /// A diagnostic that shows only what happened.
    pub fn diagnostic(&self) -> (text: &'static str)
        ensures
            text@ == match *self {
                EnrollmentLeaseOutcome::Completed(_) => "Completed([redacted])"@,
                EnrollmentLeaseOutcome::PreparationFailed(_) => "PreparationFailed([redacted])"@,
                EnrollmentLeaseOutcome::AcquisitionFailed(_) => "AcquisitionFailed([redacted])"@,
                EnrollmentLeaseOutcome::CleanupFailed { .. } => "CleanupFailed([redacted])"@,
            },
    {
        match self {
            EnrollmentLeaseOutcome::Completed(_) => "Completed([redacted])",
            EnrollmentLeaseOutcome::PreparationFailed(_) => "PreparationFailed([redacted])",
            EnrollmentLeaseOutcome::AcquisitionFailed(_) => "AcquisitionFailed([redacted])",
            EnrollmentLeaseOutcome::CleanupFailed { .. } => "CleanupFailed([redacted])",
        }
    }
}

/// Runtime boundary that failed around enrollment.
#[derive(Clone, Copy, Debug, PartialEq, Eq, Structural)]
pub enum EnrollmentLifecycleStage {
    RelayHealth,
    RelayStop,
    ExclusiveSepAndAcm,
    LeaseCleanup,
    RelayRecovery,
}

impl EnrollmentLifecycleStage {
    /// The stage's name, as text.
    pub open spec fn text(self) -> Seq<char> {
        match self {
            EnrollmentLifecycleStage::RelayHealth => "keybag relay health check"@,
            EnrollmentLifecycleStage::RelayStop => "keybag relay stop"@,
            EnrollmentLifecycleStage::ExclusiveSepAndAcm => "exclusive SEP and ACM acquisition"@,
            EnrollmentLifecycleStage::LeaseCleanup => "exclusive SEP and ACM cleanup"@,
            EnrollmentLifecycleStage::RelayRecovery => "keybag relay recovery"@,
        }
    }

    /// The stage's name.
    pub fn message(self) -> (message: &'static str)
        ensures
            message@ == self.text(),
    {
        match self {
            EnrollmentLifecycleStage::RelayHealth => "keybag relay health check",
            EnrollmentLifecycleStage::RelayStop => "keybag relay stop",
            EnrollmentLifecycleStage::ExclusiveSepAndAcm => "exclusive SEP and ACM acquisition",
            EnrollmentLifecycleStage::LeaseCleanup => "exclusive SEP and ACM cleanup",
            EnrollmentLifecycleStage::RelayRecovery => "keybag relay recovery",
        }
    }
}

/// Lifecycle failure around one enrollment operation.
#[derive(PartialEq, Eq)]
pub enum EnrollmentLifecycleError<RuntimeError, OperationError> {
    RelayInactive,
    Runtime { stage: EnrollmentLifecycleStage, error: RuntimeError },
    InvalidCredential,
    Operation(OperationError),
}

impl<RuntimeError, OperationError> EnrollmentLifecycleError<RuntimeError, OperationError> {
    /// The failure that a handoff's fault is reported as.
    pub open spec fn of_fault(fault: HandoffFault<RuntimeError, OperationError>) -> Self {
        match fault {
            HandoffFault::Inactive => EnrollmentLifecycleError::RelayInactive,
            HandoffFault::Health(error) => EnrollmentLifecycleError::Runtime {
                stage: EnrollmentLifecycleStage::RelayHealth,
                error,
            },
            HandoffFault::Stop(error) => EnrollmentLifecycleError::Runtime {
                stage: EnrollmentLifecycleStage::RelayStop,
                error,
            },
            HandoffFault::Recovery(error) => EnrollmentLifecycleError::Runtime {
                stage: EnrollmentLifecycleStage::RelayRecovery,
                error,
            },
            HandoffFault::Operation(error) => EnrollmentLifecycleError::Operation(error),
        }
    }

    /// Reports a handoff's fault.
    pub fn from_fault(fault: HandoffFault<RuntimeError, OperationError>) -> (r: Self)
        ensures
            r == Self::of_fault(fault),
    {
        match fault {
            HandoffFault::Inactive => EnrollmentLifecycleError::RelayInactive,
            HandoffFault::Health(error) => EnrollmentLifecycleError::Runtime {
                stage: EnrollmentLifecycleStage::RelayHealth,
                error,
            },
            HandoffFault::Stop(error) => EnrollmentLifecycleError::Runtime {
                stage: EnrollmentLifecycleStage::RelayStop,
                error,
            },
            HandoffFault::Recovery(error) => EnrollmentLifecycleError::Runtime {
                stage: EnrollmentLifecycleStage::RelayRecovery,
                error,
            },
            HandoffFault::Operation(error) => EnrollmentLifecycleError::Operation(error),
        }
    }

    /// The message, as text: it shows the stage and nothing of an error.
    pub open spec fn text(self) -> Seq<char> {
        match self {
            EnrollmentLifecycleError::RelayInactive => "keybag relay is not active before enrollment"@,
            EnrollmentLifecycleError::Runtime { stage, .. } => match stage {
                EnrollmentLifecycleStage::RelayHealth => "enrollment keybag relay health check failed"@,
                EnrollmentLifecycleStage::RelayStop => "enrollment keybag relay stop failed"@,
                EnrollmentLifecycleStage::ExclusiveSepAndAcm => "enrollment exclusive SEP and ACM acquisition failed"@,
                EnrollmentLifecycleStage::LeaseCleanup => "enrollment exclusive SEP and ACM cleanup failed"@,
                EnrollmentLifecycleStage::RelayRecovery => "enrollment keybag relay recovery failed"@,
            },
            EnrollmentLifecycleError::InvalidCredential => "enrollment ACM lease returned an invalid credential"@,
            EnrollmentLifecycleError::Operation(_) => "inner enrollment transaction failed"@,
        }
    }

    /// A fixed message for each stage.
    pub fn message(&self) -> (message: &'static str)
        ensures
            message@ == self.text(),
    {
        match self {
            EnrollmentLifecycleError::RelayInactive => "keybag relay is not active before enrollment",
            EnrollmentLifecycleError::Runtime { stage, .. } => match stage {
                EnrollmentLifecycleStage::RelayHealth => "enrollment keybag relay health check failed",
                EnrollmentLifecycleStage::RelayStop => "enrollment keybag relay stop failed",
                EnrollmentLifecycleStage::ExclusiveSepAndAcm => "enrollment exclusive SEP and ACM acquisition failed",
                EnrollmentLifecycleStage::LeaseCleanup => "enrollment exclusive SEP and ACM cleanup failed",
                EnrollmentLifecycleStage::RelayRecovery => "enrollment keybag relay recovery failed",
            },
            EnrollmentLifecycleError::InvalidCredential => "enrollment ACM lease returned an invalid credential",
            EnrollmentLifecycleError::Operation(_) => "inner enrollment transaction failed",
        }
    }

    /// The diagnostic, as text.
    pub open spec fn diagnostic_text(self) -> Seq<char> {
        match self {
            EnrollmentLifecycleError::RelayInactive => "RelayInactive"@,
            EnrollmentLifecycleError::Runtime { stage, .. } => match stage {
                EnrollmentLifecycleStage::RelayHealth => "Runtime { stage: RelayHealth, error: \"[redacted]\" }"@,
                EnrollmentLifecycleStage::RelayStop => "Runtime { stage: RelayStop, error: \"[redacted]\" }"@,
                EnrollmentLifecycleStage::ExclusiveSepAndAcm => "Runtime { stage: ExclusiveSepAndAcm, error: \"[redacted]\" }"@,
                EnrollmentLifecycleStage::LeaseCleanup => "Runtime { stage: LeaseCleanup, error: \"[redacted]\" }"@,
                EnrollmentLifecycleStage::RelayRecovery => "Runtime { stage: RelayRecovery, error: \"[redacted]\" }"@,
            },
            EnrollmentLifecycleError::InvalidCredential => "InvalidCredential"@,
            EnrollmentLifecycleError::Operation(_) => "Operation([redacted])"@,
        }
    }

    /// A diagnostic that shows the variant and the stage, and no error.
    pub fn diagnostic(&self) -> (text: &'static str)
        ensures
            text@ == self.diagnostic_text(),
    {
        match self {
            EnrollmentLifecycleError::RelayInactive => "RelayInactive",
            EnrollmentLifecycleError::Runtime { stage, .. } => match stage {
                EnrollmentLifecycleStage::RelayHealth => "Runtime { stage: RelayHealth, error: \"[redacted]\" }",
                EnrollmentLifecycleStage::RelayStop => "Runtime { stage: RelayStop, error: \"[redacted]\" }",
                EnrollmentLifecycleStage::ExclusiveSepAndAcm => "Runtime { stage: ExclusiveSepAndAcm, error: \"[redacted]\" }",
                EnrollmentLifecycleStage::LeaseCleanup => "Runtime { stage: LeaseCleanup, error: \"[redacted]\" }",
                EnrollmentLifecycleStage::RelayRecovery => "Runtime { stage: RelayRecovery, error: \"[redacted]\" }",
            },
            EnrollmentLifecycleError::InvalidCredential => "InvalidCredential",
            EnrollmentLifecycleError::Operation(_) => "Operation([redacted])",
        }
    }
}

/// Successful durable enrollment result.
#[derive(Clone, Copy, PartialEq, Eq)]
pub struct EnrollmentTransactionSuccess {
    pub identity: IdentityIdentifier,
    pub catacombs: CatacombBackup,
}

/// Failure of an enrollment's preparation or of its transaction.
#[derive(PartialEq, Eq)]
pub enum EnrollmentOperationError<PreparationError, TransactionError> {
    Preparation(PreparationError),
    Transaction(TransactionError),
}

impl<PreparationError, TransactionError> EnrollmentOperationError<
    PreparationError,
    TransactionError,
> {
    /// A diagnostic that shows only which of the two failed.
    pub fn diagnostic(&self) -> (text: &'static str)
        ensures
            text@ == match *self {
                EnrollmentOperationError::Preparation(_) => "Preparation([redacted])"@,
                EnrollmentOperationError::Transaction(_) => "Transaction([redacted])"@,
            },
    {
        match self {
            EnrollmentOperationError::Preparation(_) => "Preparation([redacted])",
            EnrollmentOperationError::Transaction(_) => "Transaction([redacted])",
        }
    }
}

/// The failure of one enrollment under a lease.
pub type LeaseError<RuntimeError, PreparationError, OperationError> = EnrollmentLifecycleError<
    RuntimeError,
    EnrollmentOperationError<PreparationError, OperationError>,
>;

/// Accepts the lease's credential: it has the one valid length.
pub fn check_lease_credential<R, P, O>(credential: &[u8]) -> (r: Result<(), LeaseError<R, P, O>>)
    ensures
        r == if credential@.len() == ACM_CONTEXT_EXTERNAL_FORM_SIZE {
            Ok::<(), LeaseError<R, P, O>>(())
        } else {
            Err(EnrollmentLifecycleError::InvalidCredential)
        },
{
    if credential.len() == ACM_CONTEXT_EXTERNAL_FORM_SIZE {
        Ok(())
    } else {
        Err(EnrollmentLifecycleError::InvalidCredential)
    }
}

/// The result of the operation that runs under the lease.
pub fn operation_under_lease<S, R, P, O>(result: Result<S, O>) -> (r: Result<
    S,
    LeaseError<R, P, O>,
>)
    ensures
        r == match result {
            Ok(success) => Ok::<S, LeaseError<R, P, O>>(success),
            Err(error) => Err(
                EnrollmentLifecycleError::Operation(EnrollmentOperationError::Transaction(error)),
            ),
        },
{
    match result {
        Ok(success) => Ok(success),
        Err(error) => Err(
            EnrollmentLifecycleError::Operation(EnrollmentOperationError::Transaction(error)),
        ),
    }
}

/// The result of an enrollment under a lease: a failed cleanup turns a success
/// into a failure, but never masks a failure.
pub open spec fn lease_result<S, R, P, O>(
    outcome: EnrollmentLeaseOutcome<Result<S, LeaseError<R, P, O>>, P, R>,
) -> Result<S, LeaseError<R, P, O>> {
    match outcome {
        EnrollmentLeaseOutcome::Completed(operation) => operation,
        EnrollmentLeaseOutcome::PreparationFailed(error) => Err(
            EnrollmentLifecycleError::Operation(EnrollmentOperationError::Preparation(error)),
        ),
        EnrollmentLeaseOutcome::AcquisitionFailed(error) => Err(
            EnrollmentLifecycleError::Runtime {
                stage: EnrollmentLifecycleStage::ExclusiveSepAndAcm,
                error,
            },
        ),
        EnrollmentLeaseOutcome::CleanupFailed { operation, error } => match operation {
            Ok(_) => Err(
                EnrollmentLifecycleError::Runtime {
                    stage: EnrollmentLifecycleStage::LeaseCleanup,
                    error,
                },
            ),
            Err(primary) => Err(primary),
        },
    }
}

/// Takes the outcome of one enrollment under a lease.
pub fn run_enrollment_transaction_after_handoff<S, R, P, O>(
    outcome: EnrollmentLeaseOutcome<Result<S, LeaseError<R, P, O>>, P, R>,
) -> (r: Result<S, LeaseError<R, P, O>>)
    ensures
        r == lease_result(outcome),
{
    match outcome {
        EnrollmentLeaseOutcome::Completed(operation) => operation,
        EnrollmentLeaseOutcome::PreparationFailed(error) => Err(
            EnrollmentLifecycleError::Operation(EnrollmentOperationError::Preparation(error)),
        ),
        EnrollmentLeaseOutcome::AcquisitionFailed(error) => Err(
            EnrollmentLifecycleError::Runtime {
                stage: EnrollmentLifecycleStage::ExclusiveSepAndAcm,
                error,
            },
        ),
        EnrollmentLeaseOutcome::CleanupFailed { operation, error } => match operation {
            Ok(_) => Err(
                EnrollmentLifecycleError::Runtime {
                    stage: EnrollmentLifecycleStage::LeaseCleanup,
                    error,
                },
            ),
            Err(primary) => Err(primary),
        },
    }
}

/// A failed cleanup never masks the failure of the operation before it.
pub proof fn law_cleanup_failure_masks_no_failure<S, R, P, O>(
    primary: LeaseError<R, P, O>,
    error: R,
)
    ensures
        lease_result(
            EnrollmentLeaseOutcome::CleanupFailed {
                operation: Err::<S, LeaseError<R, P, O>>(primary),
                error,
            },
        ) == Err::<S, LeaseError<R, P, O>>(primary),
{
}

/// Failure to durably establish the one owner before biometric mutation.
#[derive(Clone, Copy, Debug, PartialEq, Eq, Structural)]
pub enum EnrollmentOwnerPreflightError {
    Owner(EnrollmentOwnerError),
    UnownedBiometricState,
}

impl EnrollmentOwnerPreflightError {
    /// The message, as text.
    pub open spec fn text(self) -> Seq<char> {
        match self {
            EnrollmentOwnerPreflightError::Owner(error) => error.text(),
            EnrollmentOwnerPreflightError::UnownedBiometricState => "existing biometric state has no recorded owner"@,
        }
    }

    /// A fixed message.
    pub fn message(self) -> (message: &'static str)
        ensures
            message@ == self.text(),
    {
        match self {
            EnrollmentOwnerPreflightError::Owner(error) => error.message(),
            EnrollmentOwnerPreflightError::UnownedBiometricState => "existing biometric state has no recorded owner",
        }
    }
}

/// The next work of establishing the owner.
#[derive(Clone, Copy, PartialEq, Eq)]
pub enum PreflightStep {
    /// Load the recorded owner and report with [`PendingOwnerLoad::loaded`].
    LoadOwner(PendingOwnerLoad),
    /// See whether the catacomb store is empty and report with
    /// [`PendingInspection::inspected`].
    InspectStore(PendingInspection),
    /// Load the recorded owner again and report with
    /// [`PendingOwnerReload::reloaded`].
    ReloadOwner(PendingOwnerReload),
    /// Claim the owner and report with [`PendingOwnerClaim::claimed`].
    Claim(PendingOwnerClaim),
    /// The owner is established, or not.
    End(Result<(), EnrollmentOwnerPreflightError>),
}

/// Establishing that waits for the recorded owner.
#[derive(Clone, Copy, PartialEq, Eq, Structural)]
pub struct PendingOwnerLoad {
    pub owner: EnrollmentOwner,
}

/// Establishing that waits for the catacomb store.
#[derive(Clone, Copy, PartialEq, Eq, Structural)]
pub struct PendingInspection {
    pub owner: EnrollmentOwner,
}

/// Establishing that waits for the recorded owner once more.
#[derive(Clone, Copy, PartialEq, Eq, Structural)]
pub struct PendingOwnerReload {
    pub owner: EnrollmentOwner,
}

/// Establishing that waits for the claim.
#[derive(Clone, Copy, PartialEq, Eq, Structural)]
pub struct PendingOwnerClaim {
    pub owner: EnrollmentOwner,
}

/// Begins to establish or revalidate the one enrollment owner.
///
/// Missing owner state is claimable only when the catacomb namespace is provably
/// empty. A different or unknowable owner fails closed.
pub fn claim_enrollment_owner(owner: EnrollmentOwner) -> (r: PreflightStep)
    ensures
        r == PreflightStep::LoadOwner(PendingOwnerLoad { owner }),
{
    PreflightStep::LoadOwner(PendingOwnerLoad { owner })
}

impl PendingOwnerLoad {
    /// What follows the recorded owner.
    pub open spec fn following(self, loaded: Result<EnrollmentOwner, EnrollmentOwnerError>) -> PreflightStep {
        let owner = self.owner;
        match loaded {
            Ok(existing) => if existing == owner {
                PreflightStep::Claim(PendingOwnerClaim { owner })
            } else {
                PreflightStep::End(
                    Err(EnrollmentOwnerPreflightError::Owner(EnrollmentOwnerError::DifferentOwner)),
                )
            },
            Err(EnrollmentOwnerError::MissingOwner) => PreflightStep::InspectStore(
                PendingInspection { owner },
            ),
            Err(error) => PreflightStep::End(Err(EnrollmentOwnerPreflightError::Owner(error))),
        }
    }

    /// Takes the recorded owner.
    pub fn loaded(self, loaded: Result<EnrollmentOwner, EnrollmentOwnerError>) -> (r: PreflightStep)
        ensures
            r == self.following(loaded),
    {
        let owner = self.owner;
        match loaded {
            Ok(existing) => if existing == owner {
                PreflightStep::Claim(PendingOwnerClaim { owner })
            } else {
                PreflightStep::End(
                    Err(EnrollmentOwnerPreflightError::Owner(EnrollmentOwnerError::DifferentOwner)),
                )
            },
            Err(EnrollmentOwnerError::MissingOwner) => PreflightStep::InspectStore(
                PendingInspection { owner },
            ),
            Err(error) => PreflightStep::End(Err(EnrollmentOwnerPreflightError::Owner(error))),
        }
    }
}

impl PendingInspection {
    /// What follows the inspection.
    pub open spec fn following(self, empty: Result<bool, CatacombStoreError>) -> PreflightStep {
        let owner = self.owner;
        if empty == Ok::<bool, CatacombStoreError>(true) {
            PreflightStep::Claim(PendingOwnerClaim { owner })
        } else {
            PreflightStep::ReloadOwner(PendingOwnerReload { owner })
        }
    }

    /// Takes whether the catacomb store is empty. Where it is not, or that cannot
    /// be told, another enrollment of the same owner may have won meanwhile.
    pub fn inspected(self, empty: Result<bool, CatacombStoreError>) -> (r: PreflightStep)
        ensures
            r == self.following(empty),
    {
        let owner = self.owner;
        match empty {
            Ok(is_empty) => if is_empty {
                PreflightStep::Claim(PendingOwnerClaim { owner })
            } else {
                PreflightStep::ReloadOwner(PendingOwnerReload { owner })
            },
            Err(_) => PreflightStep::ReloadOwner(PendingOwnerReload { owner }),
        }
    }
}

impl PendingOwnerReload {
    /// What follows the recorded owner.
    pub open spec fn following(self, loaded: Result<EnrollmentOwner, EnrollmentOwnerError>) -> PreflightStep {
        let owner = self.owner;
        match loaded {
            Ok(existing) => if existing == owner {
                PreflightStep::Claim(PendingOwnerClaim { owner })
            } else {
                PreflightStep::End(
                    Err(EnrollmentOwnerPreflightError::Owner(EnrollmentOwnerError::DifferentOwner)),
                )
            },
            Err(EnrollmentOwnerError::MissingOwner) => PreflightStep::End(
                Err(EnrollmentOwnerPreflightError::UnownedBiometricState),
            ),
            Err(error) => PreflightStep::End(Err(EnrollmentOwnerPreflightError::Owner(error))),
        }
    }

    /// Takes the recorded owner.
    pub fn reloaded(self, loaded: Result<EnrollmentOwner, EnrollmentOwnerError>) -> (r:
        PreflightStep)
        ensures
            r == self.following(loaded),
    {
        let owner = self.owner;
        match loaded {
            Ok(existing) => if existing == owner {
                PreflightStep::Claim(PendingOwnerClaim { owner })
            } else {
                PreflightStep::End(
                    Err(EnrollmentOwnerPreflightError::Owner(EnrollmentOwnerError::DifferentOwner)),
                )
            },
            Err(EnrollmentOwnerError::MissingOwner) => PreflightStep::End(
                Err(EnrollmentOwnerPreflightError::UnownedBiometricState),
            ),
            Err(error) => PreflightStep::End(Err(EnrollmentOwnerPreflightError::Owner(error))),
        }
    }
}

impl PendingOwnerClaim {
    /// What follows the claim.
    pub open spec fn following(self, claimed: Result<OwnerClaim, EnrollmentOwnerError>) -> PreflightStep {
        match claimed {
            Ok(_) => PreflightStep::End(Ok(())),
            Err(error) => PreflightStep::End(Err(EnrollmentOwnerPreflightError::Owner(error))),
        }
    }

    /// Takes the outcome of the claim.
    pub fn claimed(self, claimed: Result<OwnerClaim, EnrollmentOwnerError>) -> (r: PreflightStep)
        ensures
            r == self.following(claimed),
    {
        match claimed {
            Ok(_) => PreflightStep::End(Ok(())),
            Err(error) => PreflightStep::End(Err(EnrollmentOwnerPreflightError::Owner(error))),
        }
    }
}

/// The owner is claimed only where it is the recorded one, or where none is
/// recorded and the store is provably empty: of every answer that leads to a
/// claim.
pub proof fn law_existing_biometric_state_is_never_transferred(
    owner: EnrollmentOwner,
    loaded: Result<EnrollmentOwner, EnrollmentOwnerError>,
    empty: Result<bool, CatacombStoreError>,
    reloaded: Result<EnrollmentOwner, EnrollmentOwnerError>,
)
    ensures
        (PendingOwnerLoad { owner }).following(loaded) is Claim ==> loaded == Ok::<
            EnrollmentOwner,
            EnrollmentOwnerError,
        >(owner),
        (PendingOwnerLoad { owner }).following(loaded) is InspectStore ==> loaded == Err::<
            EnrollmentOwner,
            EnrollmentOwnerError,
        >(EnrollmentOwnerError::MissingOwner),
        (PendingInspection { owner }).following(empty) is Claim ==> empty == Ok::<
            bool,
            CatacombStoreError,
        >(true),
        (PendingOwnerReload { owner }).following(reloaded) is Claim ==> reloaded == Ok::<
            EnrollmentOwner,
            EnrollmentOwnerError,
        >(owner),
{
}

} // verus!
