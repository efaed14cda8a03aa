//! Durable enrollment inside one prepared lease.

use crate::biometric::{
    same_identifier, CatacombStateEntry, CredentialedUser, Identity, IdentityIdentifier,
};
use crate::catacomb_recovery::CatacombRecoveryOutcome;
use crate::catacomb_restore::{
    validate_recovery_candidate, PendingValidation, USER_SECURELY_LOADED,
};
use crate::catacomb_session::CatacombBackup;
use crate::catacomb_store::{CatacombPair, CatacombStoreError};
use crate::enrollment_lifecycle::EnrollmentTransactionSuccess;
use crate::standard_fingerprint_protocol::MAX_OWNER_IDENTITIES;
use vstd::prelude::*;

verus! {

/// Failure of preparing an enrollment's storage and calibration.
#[derive(PartialEq, Eq)]
pub enum EnrollmentPreparationError<RecoveryError, CalibrationError> {
    Recovery(RecoveryError),
    RecoveryBlocked,
    StorageReservation(CatacombStoreError),
    Calibration(CalibrationError),
}

impl<RecoveryError, CalibrationError> EnrollmentPreparationError<RecoveryError, CalibrationError> {
    /// A diagnostic that shows only what failed.
    pub fn diagnostic(&self) -> (text: &'static str)
        ensures
            text@ == match *self {
                EnrollmentPreparationError::Recovery(_) => "Recovery([redacted])"@,
                EnrollmentPreparationError::RecoveryBlocked => "RecoveryBlocked"@,
                EnrollmentPreparationError::StorageReservation(_) => "StorageReservation([redacted])"@,
                EnrollmentPreparationError::Calibration(_) => "Calibration([redacted])"@,
            },
    {
        match self {
            EnrollmentPreparationError::Recovery(_) => "Recovery([redacted])",
            EnrollmentPreparationError::RecoveryBlocked => "RecoveryBlocked",
            EnrollmentPreparationError::StorageReservation(_) => "StorageReservation([redacted])",
            EnrollmentPreparationError::Calibration(_) => "Calibration([redacted])",
        }
    }
}

/// The next work of preparing an enrollment.
pub enum EnrollmentPreparationStep<'a, R, C> {
    /// Resolve an ambiguous pair and report with [`PendingResolution::resolved`].
    Recover(PendingResolution<'a>),
    /// Begin a transaction and report with [`PendingReservation::begun`].
    BeginTransaction(PendingReservation<'a>),
    /// Make calibration live and report with [`PendingLiveness::calibrated`].
    Calibrate(PendingLiveness<'a>),
    /// Preparing has ended; on success the transaction is the caller's.
    End(Result<(), EnrollmentPreparationError<R, C>>),
}

/// Preparation that waits for the recovery.
pub struct PendingResolution<'a> {
    user_id: u32,
    record: &'a [u8],
}

/// Preparation that waits for the transaction.
pub struct PendingReservation<'a> {
    record: &'a [u8],
}

/// Preparation that waits for the calibration.
pub struct PendingLiveness<'a> {
    record: &'a [u8],
}

/// Begins to recover and reserve paired storage for the user and to load
/// calibration from the record.
pub fn prepare_enrollment_transaction<'a, R, C>(user_id: u32, record: &'a [u8]) -> (r:
    EnrollmentPreparationStep<'a, R, C>)
    ensures
        r is Recover,
        r->Recover_0.user() == user_id,
        r->Recover_0.calibration() == record@,
{
    EnrollmentPreparationStep::Recover(PendingResolution { user_id, record })
}

impl<'a> PendingResolution<'a> {
    /// The record that the sensor is calibrated with.
    pub closed spec fn calibration(self) -> Seq<u8> {
        self.record@
    }

    /// The user whose ambiguous pair is resolved.
    pub closed spec fn user(self) -> u32 {
        self.user_id
    }

    /// The user whose ambiguous pair is resolved.
    pub fn user_id(&self) -> (r: u32)
        ensures
            r == self.user(),
    {
        self.user_id
    }

    /// Begins to validate a candidate of this user, with the same calibration.
    pub fn validate<'p>(&self, pair: &'p CatacombPair) -> (r: PendingValidation<'p, 'a>)
        ensures
            r.user() == self.user(),
            r.candidate() == pair,
            r.calibration() == self.calibration(),
    {
        validate_recovery_candidate(self.user_id, pair, self.record)
    }

    /// Takes the recovery's outcome: what is quarantined blocks enrollment.
    pub fn resolved<R, C>(self, outcome: Result<CatacombRecoveryOutcome, R>) -> (r:
        EnrollmentPreparationStep<'a, R, C>)
        ensures
            match outcome {
                Ok(CatacombRecoveryOutcome::Clean) | Ok(
                    CatacombRecoveryOutcome::Promoted,
                ) => r is BeginTransaction && r->BeginTransaction_0.calibration()
                    == self.calibration(),
                Ok(CatacombRecoveryOutcome::Quarantined) => r
                    == EnrollmentPreparationStep::<R, C>::End(
                    Err(EnrollmentPreparationError::RecoveryBlocked),
                ),
                Err(error) => r == EnrollmentPreparationStep::<R, C>::End(
                    Err(EnrollmentPreparationError::Recovery(error)),
                ),
            },
            preparation_follows(
                EnrollmentPreparationStep::<R, C>::Recover(self),
                EnrollmentPreparationAnswer::Resolved(outcome),
                r,
            ),
    {
        match outcome {
            Ok(CatacombRecoveryOutcome::Clean) | Ok(CatacombRecoveryOutcome::Promoted) => {
                EnrollmentPreparationStep::BeginTransaction(PendingReservation { record: self.record })
            },
            Ok(CatacombRecoveryOutcome::Quarantined) => EnrollmentPreparationStep::End(
                Err(EnrollmentPreparationError::RecoveryBlocked),
            ),
            Err(error) => EnrollmentPreparationStep::End(
                Err(EnrollmentPreparationError::Recovery(error)),
            ),
        }
    }
}

impl<'a> PendingReservation<'a> {
    /// The record that the sensor is calibrated with.
    pub closed spec fn calibration(self) -> Seq<u8> {
        self.record@
    }

    /// Takes whether a transaction was begun.
    pub fn begun<R, C>(self, outcome: Result<(), CatacombStoreError>) -> (r:
        EnrollmentPreparationStep<'a, R, C>)
        ensures
            match outcome {
                Ok(()) => r is Calibrate && r->Calibrate_0.calibration() == self.calibration(),
                Err(error) => r == EnrollmentPreparationStep::<R, C>::End(
                    Err(EnrollmentPreparationError::StorageReservation(error)),
                ),
            },
            preparation_follows(
                EnrollmentPreparationStep::<R, C>::BeginTransaction(self),
                EnrollmentPreparationAnswer::Begun(outcome),
                r,
            ),
    {
        match outcome {
            Ok(()) => EnrollmentPreparationStep::Calibrate(PendingLiveness { record: self.record }),
            Err(error) => EnrollmentPreparationStep::End(
                Err(EnrollmentPreparationError::StorageReservation(error)),
            ),
        }
    }
}

impl<'a> PendingLiveness<'a> {
    /// The record that the sensor is calibrated with.
    pub closed spec fn calibration(self) -> Seq<u8> {
        self.record@
    }

    /// The record that the sensor is calibrated with.
    pub fn record(&self) -> (r: &'a [u8])
        ensures
            r@ == self.calibration(),
    {
        self.record
    }

    /// Takes whether calibration is live.
    pub fn calibrated<R, C>(self, outcome: Result<(), C>) -> (r: Result<
        (),
        EnrollmentPreparationError<R, C>,
    >)
        ensures
            r == match outcome {
                Ok(()) => Ok::<(), EnrollmentPreparationError<R, C>>(()),
                Err(error) => Err(EnrollmentPreparationError::Calibration(error)),
            },
            preparation_follows(
                EnrollmentPreparationStep::<R, C>::Calibrate(self),
                EnrollmentPreparationAnswer::Calibrated(outcome),
                EnrollmentPreparationStep::End(r),
            ),
    {
        match outcome {
            Ok(()) => Ok(()),
            Err(error) => Err(EnrollmentPreparationError::Calibration(error)),
        }
    }
}

/// One answer to the work that preparing an enrollment asks for.
pub enum EnrollmentPreparationAnswer<R, C> {
    Resolved(Result<CatacombRecoveryOutcome, R>),
    Begun(Result<(), CatacombStoreError>),
    Calibrated(Result<(), C>),
}

/// The record that a step calibrates with, or hands on to one that does.
pub open spec fn record_of<'a, R, C>(step: EnrollmentPreparationStep<'a, R, C>) -> Option<Seq<u8>> {
    match step {
        EnrollmentPreparationStep::Recover(pending) => Some(pending.calibration()),
        EnrollmentPreparationStep::BeginTransaction(pending) => Some(pending.calibration()),
        EnrollmentPreparationStep::Calibrate(pending) => Some(pending.calibration()),
        EnrollmentPreparationStep::End(_) => None,
    }
}

/// The step that follows `step` on `answer`, where the answer is of the kind
/// that the step asks for.
pub open spec fn preparation_follows<'a, R, C>(
    step: EnrollmentPreparationStep<'a, R, C>,
    answer: EnrollmentPreparationAnswer<R, C>,
    next: EnrollmentPreparationStep<'a, R, C>,
) -> bool {
    &&& next is End || record_of(next) == record_of(step)
    &&& match (step, answer) {
        (
            EnrollmentPreparationStep::Recover(_),
            EnrollmentPreparationAnswer::Resolved(Ok(outcome)),
        ) => if outcome == CatacombRecoveryOutcome::Quarantined {
            next is End && next->End_0 is Err
        } else {
            next is BeginTransaction
        },
        (
            EnrollmentPreparationStep::BeginTransaction(_),
            EnrollmentPreparationAnswer::Begun(Ok(_)),
        ) => next is Calibrate,
        (
            EnrollmentPreparationStep::Calibrate(_),
            EnrollmentPreparationAnswer::Calibrated(outcome),
        ) => next is End && (next->End_0 is Ok <==> outcome is Ok),
        (EnrollmentPreparationStep::Recover(_), EnrollmentPreparationAnswer::Resolved(Err(_)))
        | (
            EnrollmentPreparationStep::BeginTransaction(_),
            EnrollmentPreparationAnswer::Begun(Err(_)),
        ) => next is End && next->End_0 is Err,
        _ => false,
    }
}

/// A run of preparing an enrollment.
pub open spec fn is_enrollment_preparation_run<'a, R, C>(
    record: Seq<u8>,
    steps: Seq<EnrollmentPreparationStep<'a, R, C>>,
    answers: Seq<EnrollmentPreparationAnswer<R, C>>,
) -> bool {
    &&& steps.len() == answers.len() + 1
    &&& steps[0] is Recover
    &&& record_of(steps[0]) == Some(record)
    &&& forall|k: int|
        0 <= k < answers.len() ==> preparation_follows(
            #[trigger] steps[k],
            answers[k],
            steps[k + 1],
        )
}

/// Recovery and preparation calibrate with the one record that the preparation began
/// with, and an enrollment is prepared only once recovery has left nothing blocked, a
/// transaction was begun and the sensor was calibrated, in this order.
pub proof fn law_enrollments_are_prepared_with_one_record<'a, R, C>(
    record: Seq<u8>,
    steps: Seq<EnrollmentPreparationStep<'a, R, C>>,
    answers: Seq<EnrollmentPreparationAnswer<R, C>>,
    k: int,
)
    requires
        is_enrollment_preparation_run(record, steps, answers),
        0 <= k < steps.len(),
    ensures
        steps[k] is End || record_of(steps[k]) == Some(record),
        steps[k] is Recover ==> k == 0,
        steps[k] is BeginTransaction ==> k == 1,
        steps[k] is Calibrate ==> k == 2,
        steps[k] is End && steps[k]->End_0 is Ok ==> k == 3 && (answers[0] matches
            EnrollmentPreparationAnswer::Resolved(Ok(outcome)) && outcome
            != CatacombRecoveryOutcome::Quarantined) && (answers[1] matches
            EnrollmentPreparationAnswer::Begun(Ok(_))) && (answers[2] matches
            EnrollmentPreparationAnswer::Calibrated(Ok(_))),
    decreases k,
{
    if k > 0 {
        law_enrollments_are_prepared_with_one_record(record, steps, answers, k - 1);
        assert(preparation_follows(steps[k - 1], answers[k - 1], steps[k - 1 + 1]));
        if k == 3 {
            assert(preparation_follows(steps[k - 2], answers[k - 2], steps[k - 2 + 1]));
            assert(preparation_follows(steps[k - 3], answers[k - 3], steps[k - 3 + 1]));
        }
    }
}

/// Failure inside the exclusive enrollment transaction.
#[derive(PartialEq, Eq)]
pub enum EnrollmentTransactionError<
    UserError,
    SystemPolicyError,
    UserPolicyError,
    EnrollmentError,
    PersistenceError,
> {
    User(UserError),
    CatacombNotSecurelyLoaded,
    IdentityCapacityReached,
    SystemPolicy(SystemPolicyError),
    UserPolicy(UserPolicyError),
    Enrollment(EnrollmentError),
    EnrollmentTimedOut,
    EnrollmentCancelled,
    Persistence(PersistenceError),
    PostCommitIdentityVerification(UserError),
    IdentityMissingAfterCommit,
}

impl<U, S, P, E, B> EnrollmentTransactionError<U, S, P, E, B> {
    /// The message, as text: it shows nothing of an inner error.
    pub open spec fn text(self) -> Seq<char> {
        match self {
            EnrollmentTransactionError::User(_) => "enrollment user preparation failed"@,
            EnrollmentTransactionError::CatacombNotSecurelyLoaded => "enrollment user catacomb is not securely loaded"@,
            EnrollmentTransactionError::IdentityCapacityReached => "enrollment user is at identity capacity"@,
            EnrollmentTransactionError::SystemPolicy(_) => "enrollment system policy failed"@,
            EnrollmentTransactionError::UserPolicy(_) => "enrollment user policy failed"@,
            EnrollmentTransactionError::Enrollment(_) => "Mesa enrollment failed"@,
            EnrollmentTransactionError::EnrollmentTimedOut => "Mesa enrollment timed out"@,
            EnrollmentTransactionError::EnrollmentCancelled => "Mesa enrollment was cancelled"@,
            EnrollmentTransactionError::Persistence(_) => "catacomb persistence failed"@,
            EnrollmentTransactionError::PostCommitIdentityVerification(_) => "post-commit identity verification failed; revalidate storage"@,
            EnrollmentTransactionError::IdentityMissingAfterCommit => "enrolled identity is absent after catacomb commit; revalidate storage"@,
        }
    }

    /// A fixed message.
    pub fn message(&self) -> (message: &'static str)
        ensures
            message@ == self.text(),
    {
        match self {
            EnrollmentTransactionError::User(_) => "enrollment user preparation failed",
            EnrollmentTransactionError::CatacombNotSecurelyLoaded => "enrollment user catacomb is not securely loaded",
            EnrollmentTransactionError::IdentityCapacityReached => "enrollment user is at identity capacity",
            EnrollmentTransactionError::SystemPolicy(_) => "enrollment system policy failed",
            EnrollmentTransactionError::UserPolicy(_) => "enrollment user policy failed",
            EnrollmentTransactionError::Enrollment(_) => "Mesa enrollment failed",
            EnrollmentTransactionError::EnrollmentTimedOut => "Mesa enrollment timed out",
            EnrollmentTransactionError::EnrollmentCancelled => "Mesa enrollment was cancelled",
            EnrollmentTransactionError::Persistence(_) => "catacomb persistence failed",
            EnrollmentTransactionError::PostCommitIdentityVerification(_) => "post-commit identity verification failed; revalidate storage",
            EnrollmentTransactionError::IdentityMissingAfterCommit => "enrolled identity is absent after catacomb commit; revalidate storage",
        }
    }
}

/// Whether some entry shows `user_id` securely loaded.
pub open spec fn shows_secure(states: Seq<CatacombStateEntry>, user_id: u32) -> bool {
    exists|i: int|
        0 <= i < states.len() && (#[trigger] states[i]).user_id == user_id && states[i].state
            & USER_SECURELY_LOADED == USER_SECURELY_LOADED
}

/// Whether some entry shows `user_id` securely loaded.
pub fn catacomb_is_secure(states: &Vec<CatacombStateEntry>, user_id: u32) -> (r: bool)
    ensures
        r == shows_secure(states@, user_id),
{
    let mut i: usize = 0;
    while i < states.len()
        invariant
            i <= states@.len(),
            forall|j: int|
                0 <= j < i ==> !((#[trigger] states@[j]).user_id == user_id && states@[j].state
                    & USER_SECURELY_LOADED == USER_SECURELY_LOADED),
        decreases states@.len() - i,
    {
        if states[i].user_id == user_id && states[i].state & USER_SECURELY_LOADED
            == USER_SECURELY_LOADED {
            assert(states@[i as int].user_id == user_id);
            return true;
        }
        i += 1;
    }
    false
}

/// Whether one of the identities has the identifier.
pub open spec fn holds_identifier(
    identities: Seq<Identity>,
    identifier: IdentityIdentifier,
) -> bool {
    exists|i: int| 0 <= i < identities.len() && (#[trigger] identities[i]).identifier == identifier
}

/// Whether one of the identities has the identifier.
pub fn contains_identifier(identities: &Vec<Identity>, identifier: &IdentityIdentifier) -> (r: bool)
    ensures
        r == holds_identifier(identities@, *identifier),
{
    let mut i: usize = 0;
    while i < identities.len()
        invariant
            i <= identities@.len(),
            forall|j: int| 0 <= j < i ==> (#[trigger] identities@[j]).identifier != *identifier,
        decreases identities@.len() - i,
    {
        if same_identifier(&identities[i].identifier, identifier) {
            assert(identities@[i as int].identifier == *identifier);
            return true;
        }
        i += 1;
    }
    false
}

/// The next work of an enrollment.
pub enum EnrollmentStep<'a, U, S, P, E, B> {
    /// Prepare the live user and report with [`PendingEnrollee::prepared`].
    PrepareUser(PendingEnrollee<'a>),
    /// Read the component states and report with [`PendingSecurity::read`].
    ReadStates(PendingSecurity<'a>),
    /// Rebind the empty user and report with [`PendingRebinding::rebound`].
    Rebind(PendingRebinding<'a>),
    /// Enable the system policy and report with [`PendingSystemPolicy::enabled`].
    EnableSystem(PendingSystemPolicy<'a>),
    /// Enable the user's policy and report with [`PendingUserPolicy::enabled`].
    EnableUser(PendingUserPolicy<'a>),
    /// Publish the presentation and report with [`PendingStart::presented`].
    Present(PendingStart<'a>),
    /// Enroll and report with [`PendingCapture::ended`].
    Enroll(PendingCapture<'a>),
    /// Close cancellation and report with [`PendingCutoff::closed`].
    CloseCancellation(PendingCutoff<'a>),
    /// Export and promote the pair and report with [`PendingPersistence::persisted`].
    Persist(PendingPersistence<'a>),
    /// List the user's identities and report with [`PendingVerification::listed`].
    Verify(PendingVerification<'a>),
    /// The enrollment has ended.
    End(
        Result<EnrollmentTransactionSuccess, EnrollmentTransactionError<U, S, P, E, B>>,
    ),
}

/// An enrollment that waits for the live user.
#[derive(Clone, Copy)]
pub struct PendingEnrollee<'a> {
    pub subject: CredentialedUser<'a>,
}

/// An enrollment that waits for the component states, with the number of
/// identities found; `rebound` once the user has been rebound.
#[derive(Clone, Copy)]
pub struct PendingSecurity<'a> {
    pub subject: CredentialedUser<'a>,
    pub identity_count: usize,
    pub rebound: bool,
}

/// An enrollment that waits for the rebinding.
#[derive(Clone, Copy)]
pub struct PendingRebinding<'a> {
    pub subject: CredentialedUser<'a>,
}

/// An enrollment that waits for the system policy.
pub struct PendingSystemPolicy<'a> {
    subject: CredentialedUser<'a>,
}

/// An enrollment that waits for the user's policy.
pub struct PendingUserPolicy<'a> {
    subject: CredentialedUser<'a>,
}

/// An enrollment that is to be announced.
pub struct PendingStart<'a> {
    subject: CredentialedUser<'a>,
}

/// An enrollment that waits for the sensor.
pub struct PendingCapture<'a> {
    subject: CredentialedUser<'a>,
}

/// An enrollment whose identity is captured.
pub struct PendingCutoff<'a> {
    subject: CredentialedUser<'a>,
    identity: IdentityIdentifier,
}

/// An enrollment that can no longer be cancelled.
pub struct PendingPersistence<'a> {
    subject: CredentialedUser<'a>,
    identity: IdentityIdentifier,
}

/// An enrollment whose pair is promoted.
pub struct PendingVerification<'a> {
    subject: CredentialedUser<'a>,
    identity: IdentityIdentifier,
    catacombs: CatacombBackup,
}

/// Begins an enrollment of the user inside its lease, with the lease's credential.
pub fn run_reserved_enrollment<'a, U, S, P, E, B>(user_id: u32, credential: &'a [u8]) -> (r:
    EnrollmentStep<'a, U, S, P, E, B>)
    ensures
        r == EnrollmentStep::<U, S, P, E, B>::PrepareUser(
            PendingEnrollee { subject: CredentialedUser { user_id, credential } },
        ),
{
    EnrollmentStep::PrepareUser(
        PendingEnrollee { subject: CredentialedUser { user_id, credential } },
    )
}

/// The user and the credential that a step carries; an enrollment that has ended
/// carries none.
pub open spec fn step_subject<'a, U, S, P, E, B>(step: EnrollmentStep<'a, U, S, P, E, B>) -> Option<
    CredentialedUser<'a>,
> {
    match step {
        EnrollmentStep::PrepareUser(pending) => Some(pending.subject),
        EnrollmentStep::ReadStates(pending) => Some(pending.subject),
        EnrollmentStep::Rebind(pending) => Some(pending.subject),
        EnrollmentStep::EnableSystem(pending) => Some(pending.whom()),
        EnrollmentStep::EnableUser(pending) => Some(pending.whom()),
        EnrollmentStep::Present(pending) => Some(pending.whom()),
        EnrollmentStep::Enroll(pending) => Some(pending.whom()),
        EnrollmentStep::CloseCancellation(pending) => Some(pending.whom()),
        EnrollmentStep::Persist(pending) => Some(pending.whom()),
        EnrollmentStep::Verify(pending) => Some(pending.whom()),
        EnrollmentStep::End(_) => None,
    }
}

impl<'a> PendingEnrollee<'a> {
    /// Takes the live user's identities.
    pub fn prepared<U, S, P, E, B>(self, identities: Result<Vec<Identity>, U>) -> (r:
        EnrollmentStep<'a, U, S, P, E, B>)
        ensures
            r == match identities {
                Ok(identities) => EnrollmentStep::<U, S, P, E, B>::ReadStates(
                    PendingSecurity {
                        subject: self.subject,
                        identity_count: identities@.len() as usize,
                        rebound: false,
                    },
                ),
                Err(error) => EnrollmentStep::End(Err(EnrollmentTransactionError::User(error))),
            },
            enrollment_follows(
                EnrollmentStep::<U, S, P, E, B>::PrepareUser(self),
                EnrollmentAnswer::Identities(identities),
                r,
            ),
    {
        match identities {
            Ok(identities) => EnrollmentStep::ReadStates(
                PendingSecurity {
                    subject: self.subject,
                    identity_count: identities.len(),
                    rebound: false,
                },
            ),
            Err(error) => EnrollmentStep::End(Err(EnrollmentTransactionError::User(error))),
        }
    }
}

impl<'a> PendingSecurity<'a> {
    /// What follows the states: an insecure user is rebound once; a secure one
    /// may have room for another identity.
    pub open spec fn ends<U, S, P, E, B>(
        self,
        states: Seq<CatacombStateEntry>,
        r: EnrollmentStep<'a, U, S, P, E, B>,
    ) -> bool {
        if !shows_secure(states, self.subject.user_id) {
            if self.rebound {
                r == EnrollmentStep::<U, S, P, E, B>::End(
                    Err(EnrollmentTransactionError::CatacombNotSecurelyLoaded),
                )
            } else {
                r == EnrollmentStep::<U, S, P, E, B>::Rebind(
                    PendingRebinding { subject: self.subject },
                )
            }
        } else if self.identity_count >= MAX_OWNER_IDENTITIES {
            r == EnrollmentStep::<U, S, P, E, B>::End(
                Err(EnrollmentTransactionError::IdentityCapacityReached),
            )
        } else {
            r is EnableSystem
        }
    }

    /// Takes the component states.
    pub fn read<U, S, P, E, B>(self, states: Result<Vec<CatacombStateEntry>, U>) -> (r:
        EnrollmentStep<'a, U, S, P, E, B>)
        ensures
            match states {
                Ok(states) => self.ends(states@, r),
                Err(error) => r == EnrollmentStep::<U, S, P, E, B>::End(
                    Err(EnrollmentTransactionError::User(error)),
                ),
            },
            enrollment_follows(
                EnrollmentStep::<U, S, P, E, B>::ReadStates(self),
                EnrollmentAnswer::States(states),
                r,
            ),
    {
        let states = match states {
            Ok(states) => states,
            Err(error) => {
                return EnrollmentStep::End(Err(EnrollmentTransactionError::User(error)));
            },
        };
        if !catacomb_is_secure(&states, self.subject.user_id) {
            if self.rebound {
                return EnrollmentStep::End(
                    Err(EnrollmentTransactionError::CatacombNotSecurelyLoaded),
                );
            }
            return EnrollmentStep::Rebind(PendingRebinding { subject: self.subject });
        }
        if self.identity_count >= MAX_OWNER_IDENTITIES {
            return EnrollmentStep::End(Err(EnrollmentTransactionError::IdentityCapacityReached));
        }
        EnrollmentStep::EnableSystem(PendingSystemPolicy { subject: self.subject })
    }
}

impl<'a> PendingRebinding<'a> {
    /// Takes the rebound user's identities.
    pub fn rebound<U, S, P, E, B>(self, identities: Result<Vec<Identity>, U>) -> (r:
        EnrollmentStep<'a, U, S, P, E, B>)
        ensures
            r == match identities {
                Ok(identities) => EnrollmentStep::<U, S, P, E, B>::ReadStates(
                    PendingSecurity {
                        subject: self.subject,
                        identity_count: identities@.len() as usize,
                        rebound: true,
                    },
                ),
                Err(error) => EnrollmentStep::End(Err(EnrollmentTransactionError::User(error))),
            },
            enrollment_follows(
                EnrollmentStep::<U, S, P, E, B>::Rebind(self),
                EnrollmentAnswer::Identities(identities),
                r,
            ),
    {
        match identities {
            Ok(identities) => EnrollmentStep::ReadStates(
                PendingSecurity {
                    subject: self.subject,
                    identity_count: identities.len(),
                    rebound: true,
                },
            ),
            Err(error) => EnrollmentStep::End(Err(EnrollmentTransactionError::User(error))),
        }
    }
}

impl<'a> PendingSystemPolicy<'a> {
    /// The user and the credential of the enrollment.
    pub closed spec fn whom(self) -> CredentialedUser<'a> {
        self.subject
    }

    /// The user and the credential of the enrollment.
    pub fn subject(&self) -> (r: CredentialedUser<'a>)
        ensures
            r == self.whom(),
    {
        self.subject
    }

    /// Takes whether the system policy was enabled.
    pub fn enabled<U, S, P, E, B>(self, outcome: Result<(), S>) -> (r:
        EnrollmentStep<'a, U, S, P, E, B>)
        ensures
            match outcome {
                Ok(()) => r is EnableUser,
                Err(error) => r == EnrollmentStep::<U, S, P, E, B>::End(
                    Err(EnrollmentTransactionError::SystemPolicy(error)),
                ),
            },
            enrollment_follows(
                EnrollmentStep::<U, S, P, E, B>::EnableSystem(self),
                EnrollmentAnswer::SystemEnabled(outcome),
                r,
            ),
    {
        match outcome {
            Ok(()) => EnrollmentStep::EnableUser(PendingUserPolicy { subject: self.subject }),
            Err(error) => EnrollmentStep::End(Err(EnrollmentTransactionError::SystemPolicy(error))),
        }
    }
}

impl<'a> PendingUserPolicy<'a> {
    /// The user and the credential of the enrollment.
    pub closed spec fn whom(self) -> CredentialedUser<'a> {
        self.subject
    }

    /// The user and the credential of the enrollment.
    pub fn subject(&self) -> (r: CredentialedUser<'a>)
        ensures
            r == self.whom(),
    {
        self.subject
    }

    /// Takes whether the user's policy was enabled.
    pub fn enabled<U, S, P, E, B>(self, outcome: Result<(), P>) -> (r:
        EnrollmentStep<'a, U, S, P, E, B>)
        ensures
            match outcome {
                Ok(()) => r is Present,
                Err(error) => r == EnrollmentStep::<U, S, P, E, B>::End(
                    Err(EnrollmentTransactionError::UserPolicy(error)),
                ),
            },
            enrollment_follows(
                EnrollmentStep::<U, S, P, E, B>::EnableUser(self),
                EnrollmentAnswer::UserEnabled(outcome),
                r,
            ),
    {
        match outcome {
            Ok(()) => EnrollmentStep::Present(PendingStart { subject: self.subject }),
            Err(error) => EnrollmentStep::End(Err(EnrollmentTransactionError::UserPolicy(error))),
        }
    }
}

impl<'a> PendingStart<'a> {
    /// The user and the credential of the enrollment.
    pub closed spec fn whom(self) -> CredentialedUser<'a> {
        self.subject
    }

    /// Takes that the presentation is up: the sensor starts immediately after.
    pub fn presented<U, S, P, E, B>(self) -> (r: EnrollmentStep<'a, U, S, P, E, B>)
        ensures
            r is Enroll,
            r->Enroll_0.whom() == self.whom(),
            enrollment_follows(
                EnrollmentStep::<U, S, P, E, B>::Present(self),
                EnrollmentAnswer::Presented,
                r,
            ),
    {
        EnrollmentStep::Enroll(PendingCapture { subject: self.subject })
    }
}

impl<'a> PendingCapture<'a> {
    /// The user and the credential of the enrollment.
    pub closed spec fn whom(self) -> CredentialedUser<'a> {
        self.subject
    }

    /// The user and the credential of the enrollment.
    pub fn subject(&self) -> (r: CredentialedUser<'a>)
        ensures
            r == self.whom(),
    {
        self.subject
    }

    /// Takes the captured identity, or that none was captured in time.
    pub fn ended<U, S, P, E, B>(self, outcome: Result<Option<IdentityIdentifier>, E>) -> (r:
        EnrollmentStep<'a, U, S, P, E, B>)
        ensures
            match outcome {
                Ok(Some(identity)) => r is CloseCancellation && r->CloseCancellation_0.captured()
                    == identity,
                Ok(None) => r == EnrollmentStep::<U, S, P, E, B>::End(
                    Err(EnrollmentTransactionError::EnrollmentTimedOut),
                ),
                Err(error) => r == EnrollmentStep::<U, S, P, E, B>::End(
                    Err(EnrollmentTransactionError::Enrollment(error)),
                ),
            },
            enrollment_follows(
                EnrollmentStep::<U, S, P, E, B>::Enroll(self),
                EnrollmentAnswer::Captured(outcome),
                r,
            ),
    {
        match outcome {
            Ok(Some(identity)) => EnrollmentStep::CloseCancellation(PendingCutoff { subject: self.subject, identity }),
            Ok(None) => EnrollmentStep::End(Err(EnrollmentTransactionError::EnrollmentTimedOut)),
            Err(error) => EnrollmentStep::End(Err(EnrollmentTransactionError::Enrollment(error))),
        }
    }
}

impl<'a> PendingCutoff<'a> {
    /// The user and the credential of the enrollment.
    pub closed spec fn whom(self) -> CredentialedUser<'a> {
        self.subject
    }

    /// The user and the credential of the enrollment.
    pub fn subject(&self) -> (r: CredentialedUser<'a>)
        ensures
            r == self.whom(),
    {
        self.subject
    }

    /// The captured identity.
    pub closed spec fn captured(self) -> IdentityIdentifier {
        self.identity
    }

    /// Takes whether cancellation was closed: where it was not, one has arrived,
    /// and nothing is persisted.
    pub fn closed<U, S, P, E, B>(self, closed: bool) -> (r: EnrollmentStep<'a, U, S, P, E, B>)
        ensures
            if closed {
                r is Persist && r->Persist_0.captured() == self.captured()
            } else {
                r == EnrollmentStep::<U, S, P, E, B>::End(
                    Err(EnrollmentTransactionError::EnrollmentCancelled),
                )
            },
            enrollment_follows(
                EnrollmentStep::<U, S, P, E, B>::CloseCancellation(self),
                EnrollmentAnswer::Closed(closed),
                r,
            ),
    {
        if closed {
            EnrollmentStep::Persist(
                PendingPersistence {
                    subject: self.subject,
                    identity: self.identity,
                },
            )
        } else {
            EnrollmentStep::End(Err(EnrollmentTransactionError::EnrollmentCancelled))
        }
    }
}

impl<'a> PendingPersistence<'a> {
    /// The user and the credential of the enrollment.
    pub closed spec fn whom(self) -> CredentialedUser<'a> {
        self.subject
    }

    /// The user and the credential of the enrollment.
    pub fn subject(&self) -> (r: CredentialedUser<'a>)
        ensures
            r == self.whom(),
    {
        self.subject
    }

    /// The captured identity.
    pub closed spec fn captured(self) -> IdentityIdentifier {
        self.identity
    }

    /// Takes the promoted pair's sizes.
    pub fn persisted<U, S, P, E, B>(self, outcome: Result<CatacombBackup, B>) -> (r:
        EnrollmentStep<'a, U, S, P, E, B>)
        ensures
            match outcome {
                Ok(catacombs) => r is Verify && r->Verify_0.captured() == self.captured()
                    && r->Verify_0.promoted() == catacombs,
                Err(error) => r == EnrollmentStep::<U, S, P, E, B>::End(
                    Err(EnrollmentTransactionError::Persistence(error)),
                ),
            },
            enrollment_follows(
                EnrollmentStep::<U, S, P, E, B>::Persist(self),
                EnrollmentAnswer::Persisted(outcome),
                r,
            ),
    {
        match outcome {
            Ok(catacombs) => EnrollmentStep::Verify(
                PendingVerification { subject: self.subject, identity: self.identity, catacombs },
            ),
            Err(error) => EnrollmentStep::End(Err(EnrollmentTransactionError::Persistence(error))),
        }
    }
}

impl<'a> PendingVerification<'a> {
    /// The user and the credential of the enrollment.
    pub closed spec fn whom(self) -> CredentialedUser<'a> {
        self.subject
    }

    /// The user and the credential of the enrollment.
    pub fn subject(&self) -> (r: CredentialedUser<'a>)
        ensures
            r == self.whom(),
    {
        self.subject
    }

    /// The captured identity.
    pub closed spec fn captured(self) -> IdentityIdentifier {
        self.identity
    }

    /// The promoted pair's sizes.
    pub closed spec fn promoted(self) -> CatacombBackup {
        self.catacombs
    }

    /// Takes the identities after the commit: the captured one has to be among
    /// them.
    pub fn listed<U, S, P, E, B>(self, identities: Result<Vec<Identity>, U>) -> (r: Result<
        EnrollmentTransactionSuccess,
        EnrollmentTransactionError<U, S, P, E, B>,
    >)
        ensures
            r == match identities {
                Err(error) => Err::<
                    EnrollmentTransactionSuccess,
                    EnrollmentTransactionError<U, S, P, E, B>,
                >(EnrollmentTransactionError::PostCommitIdentityVerification(error)),
                Ok(identities) => if holds_identifier(identities@, self.captured()) {
                    Ok(
                        EnrollmentTransactionSuccess {
                            identity: self.captured(),
                            catacombs: self.promoted(),
                        },
                    )
                } else {
                    Err(EnrollmentTransactionError::IdentityMissingAfterCommit)
                },
            },
            enrollment_follows(
                EnrollmentStep::<U, S, P, E, B>::Verify(self),
                EnrollmentAnswer::Listed(identities),
                EnrollmentStep::End(r),
            ),
    {
        match identities {
            Err(error) => Err(EnrollmentTransactionError::PostCommitIdentityVerification(error)),
            Ok(identities) => {
                if !contains_identifier(&identities, &self.identity) {
                    return Err(EnrollmentTransactionError::IdentityMissingAfterCommit);
                }
                Ok(
                    EnrollmentTransactionSuccess {
                        identity: self.identity,
                        catacombs: self.catacombs,
                    },
                )
            },
        }
    }
}

/// One answer to the work that an enrollment asks for.
pub enum EnrollmentAnswer<U, S, P, E, B> {
    Identities(Result<Vec<Identity>, U>),
    States(Result<Vec<CatacombStateEntry>, U>),
    SystemEnabled(Result<(), S>),
    UserEnabled(Result<(), P>),
    Presented,
    Captured(Result<Option<IdentityIdentifier>, E>),
    Closed(bool),
    Persisted(Result<CatacombBackup, B>),
    Listed(Result<Vec<Identity>, U>),
}

/// The step that follows `step` on `answer`, where the answer is of the kind
/// that the step asks for.
pub open spec fn enrollment_follows<'a, U, S, P, E, B>(
    step: EnrollmentStep<'a, U, S, P, E, B>,
    answer: EnrollmentAnswer<U, S, P, E, B>,
    next: EnrollmentStep<'a, U, S, P, E, B>,
) -> bool {
    &&& next is End || step_subject(next) == step_subject(step)
    &&& match (step, answer) {
        (EnrollmentStep::PrepareUser(pending), EnrollmentAnswer::Identities(Ok(identities))) => next
            == EnrollmentStep::<U, S, P, E, B>::ReadStates(
            PendingSecurity {
                subject: pending.subject,
                identity_count: identities@.len() as usize,
                rebound: false,
            },
        ),
        (EnrollmentStep::ReadStates(pending), EnrollmentAnswer::States(Ok(states))) => pending.ends(
            states@,
            next,
        ),
        (EnrollmentStep::Rebind(pending), EnrollmentAnswer::Identities(Ok(identities))) => next
            == EnrollmentStep::<U, S, P, E, B>::ReadStates(
            PendingSecurity {
                subject: pending.subject,
                identity_count: identities@.len() as usize,
                rebound: true,
            },
        ),
        (EnrollmentStep::EnableSystem(_), EnrollmentAnswer::SystemEnabled(Ok(()))) => next
            is EnableUser,
        (EnrollmentStep::EnableUser(_), EnrollmentAnswer::UserEnabled(Ok(()))) => next is Present,
        (EnrollmentStep::Present(_), EnrollmentAnswer::Presented) => next is Enroll,
        (EnrollmentStep::Enroll(_), EnrollmentAnswer::Captured(Ok(Some(identity)))) => next
            is CloseCancellation && next->CloseCancellation_0.captured() == identity,
        (EnrollmentStep::CloseCancellation(pending), EnrollmentAnswer::Closed(true)) => next
            is Persist && next->Persist_0.captured() == pending.captured(),
        (EnrollmentStep::Persist(pending), EnrollmentAnswer::Persisted(Ok(catacombs))) => next
            is Verify && next->Verify_0.captured() == pending.captured()
            && next->Verify_0.promoted() == catacombs,
        (EnrollmentStep::Verify(pending), EnrollmentAnswer::Listed(Ok(identities))) => next
            == EnrollmentStep::<U, S, P, E, B>::End(
            if holds_identifier(identities@, pending.captured()) {
                Ok(
                    EnrollmentTransactionSuccess {
                        identity: pending.captured(),
                        catacombs: pending.promoted(),
                    },
                )
            } else {
                Err(EnrollmentTransactionError::IdentityMissingAfterCommit)
            },
        ),
        (EnrollmentStep::PrepareUser(_), EnrollmentAnswer::Identities(Err(_)))
        | (EnrollmentStep::ReadStates(_), EnrollmentAnswer::States(Err(_)))
        | (EnrollmentStep::Rebind(_), EnrollmentAnswer::Identities(Err(_)))
        | (EnrollmentStep::EnableSystem(_), EnrollmentAnswer::SystemEnabled(Err(_)))
        | (EnrollmentStep::EnableUser(_), EnrollmentAnswer::UserEnabled(Err(_)))
        | (EnrollmentStep::Enroll(_), EnrollmentAnswer::Captured(Ok(None)))
        | (EnrollmentStep::Enroll(_), EnrollmentAnswer::Captured(Err(_)))
        | (EnrollmentStep::CloseCancellation(_), EnrollmentAnswer::Closed(false))
        | (EnrollmentStep::Persist(_), EnrollmentAnswer::Persisted(Err(_)))
        | (EnrollmentStep::Verify(_), EnrollmentAnswer::Listed(Err(_))) => next is End
            && next->End_0 is Err,
        _ => false,
    }
}

/// A run of an enrollment.
pub open spec fn is_enrollment_run<'a, U, S, P, E, B>(
    subject: CredentialedUser<'a>,
    steps: Seq<EnrollmentStep<'a, U, S, P, E, B>>,
    answers: Seq<EnrollmentAnswer<U, S, P, E, B>>,
) -> bool {
    &&& steps.len() == answers.len() + 1
    &&& steps[0] == EnrollmentStep::<U, S, P, E, B>::PrepareUser(PendingEnrollee { subject })
    &&& forall|k: int|
        0 <= k < answers.len() ==> enrollment_follows(#[trigger] steps[k], answers[k], steps[k + 1])
}

/// Nothing is persisted before the user was shown to be secure with room for one
/// more identity, both policies were enabled, the presentation was published, the
/// sensor captured the identity that is persisted, and cancellation was closed:
/// these are the last six answers before the persistence, in this order.
pub proof fn law_enrollments_persist_only_after_the_cutoff<'a, U, S, P, E, B>(
    subject: CredentialedUser<'a>,
    steps: Seq<EnrollmentStep<'a, U, S, P, E, B>>,
    answers: Seq<EnrollmentAnswer<U, S, P, E, B>>,
    k: int,
)
    requires
        is_enrollment_run(subject, steps, answers),
        0 <= k < steps.len(),
        steps[k] is Persist,
    ensures
        k > 6,
        answers[k - 6] matches EnrollmentAnswer::States(Ok(states)) && shows_secure(
            states@,
            subject.user_id,
        ),
        steps[k - 6] matches EnrollmentStep::ReadStates(pending) && pending.identity_count
            < MAX_OWNER_IDENTITIES,
        answers[k - 5] matches EnrollmentAnswer::SystemEnabled(Ok(_)),
        answers[k - 4] matches EnrollmentAnswer::UserEnabled(Ok(_)),
        answers[k - 3] == EnrollmentAnswer::<U, S, P, E, B>::Presented,
        answers[k - 2] == EnrollmentAnswer::<U, S, P, E, B>::Captured(
            Ok(Some(steps[k]->Persist_0.captured())),
        ),
        answers[k - 1] == EnrollmentAnswer::<U, S, P, E, B>::Closed(true),
{
    assert(k > 0);
    assert(enrollment_follows(steps[k - 1], answers[k - 1], steps[k - 1 + 1]));
    assert(steps[k - 1] is CloseCancellation);
    assert(enrollment_follows(steps[k - 2], answers[k - 2], steps[k - 2 + 1]));
    assert(steps[k - 2] is Enroll);
    assert(enrollment_follows(steps[k - 3], answers[k - 3], steps[k - 3 + 1]));
    assert(steps[k - 3] is Present);
    assert(enrollment_follows(steps[k - 4], answers[k - 4], steps[k - 4 + 1]));
    assert(steps[k - 4] is EnableUser);
    assert(enrollment_follows(steps[k - 5], answers[k - 5], steps[k - 5 + 1]));
    assert(steps[k - 5] is EnableSystem);
    assert(enrollment_follows(steps[k - 6], answers[k - 6], steps[k - 6 + 1]));
    assert(steps[k - 6] is ReadStates);
    law_enrollments_keep_their_user(subject, steps, answers, k - 6);
}

/// Every step of an enrollment is about the user that it began with, and every
/// command that needs a credential carries the one that it began with.
pub proof fn law_enrollments_keep_their_user<'a, U, S, P, E, B>(
    subject: CredentialedUser<'a>,
    steps: Seq<EnrollmentStep<'a, U, S, P, E, B>>,
    answers: Seq<EnrollmentAnswer<U, S, P, E, B>>,
    k: int,
)
    requires
        is_enrollment_run(subject, steps, answers),
        0 <= k < steps.len(),
    ensures
        steps[k] is End || step_subject(steps[k]) == Some(subject),
    decreases k,
{
    if k > 0 {
        law_enrollments_keep_their_user(subject, steps, answers, k - 1);
        assert(enrollment_follows(steps[k - 1], answers[k - 1], steps[k - 1 + 1]));
    }
}

/// An enrollment succeeds only with the identity that the sensor captured, after
/// its pair was promoted and the device listed that identity again; the sizes that
/// it reports are the promoted pair's.
pub proof fn law_enrolled_identities_are_promoted_and_listed<'a, U, S, P, E, B>(
    subject: CredentialedUser<'a>,
    steps: Seq<EnrollmentStep<'a, U, S, P, E, B>>,
    answers: Seq<EnrollmentAnswer<U, S, P, E, B>>,
    k: int,
    success: EnrollmentTransactionSuccess,
)
    requires
        is_enrollment_run(subject, steps, answers),
        0 <= k < steps.len(),
        steps[k] == EnrollmentStep::<U, S, P, E, B>::End(Ok(success)),
    ensures
        k > 8,
        answers[k - 4] == EnrollmentAnswer::<U, S, P, E, B>::Captured(Ok(Some(success.identity))),
        answers[k - 3] == EnrollmentAnswer::<U, S, P, E, B>::Closed(true),
        answers[k - 2] == EnrollmentAnswer::<U, S, P, E, B>::Persisted(Ok(success.catacombs)),
        answers[k - 1] matches EnrollmentAnswer::Listed(Ok(identities)) && holds_identifier(
            identities@,
            success.identity,
        ),
{
    assert(k > 0);
    assert(enrollment_follows(steps[k - 1], answers[k - 1], steps[k - 1 + 1]));
    assert(steps[k - 1] is Verify);
    assert(enrollment_follows(steps[k - 2], answers[k - 2], steps[k - 2 + 1]));
    assert(steps[k - 2] is Persist);
    law_enrollments_persist_only_after_the_cutoff(subject, steps, answers, k - 2);
}

} // verus!
