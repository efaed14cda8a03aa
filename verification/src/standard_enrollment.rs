//! Standard-labeled enrollment with generation-atomic identity metadata.
//!
//! The complete identity set before the enrollment is reconciled with committed
//! metadata before anything changes. After the commit the identity set has to be
//! exactly the one before plus the enrolled identity.

use crate::auth_operation::{
    encode_identities, encoded_identities, preparation_begins,
    restore_user_for_enrollment_after_calibration, PreparationModel, PreparationStep,
};
use crate::biometric::{
    CatacombStateEntry, Identity, IdentityIdentifier, IdentityMatchOutcome,
};
use crate::catacomb_recovery::CatacombRecoveryOutcome;
use crate::catacomb_restore::{validate_recovery_candidate, PendingValidation};
use crate::catacomb_session::CatacombBackup;
use crate::catacomb_store::{CatacombPair, CatacombStoreError};
use crate::enrollment_transaction::{catacomb_is_secure, shows_secure};
use crate::standard_fingerprint_protocol::{
    EnrollProgress, FingerLabel, IdentityId, MAX_OWNER_IDENTITIES,
};
use vstd::prelude::*;

verus! {

/// Lowest raw progress value of the sensor.
pub const RAW_PROGRESS_MIN: u64 = 0x64;

/// Highest raw progress value of the sensor.
pub const RAW_PROGRESS_MAX: u64 = 0x163;

/// Stages of a normalized progress.
pub const STANDARD_PROGRESS_TOTAL: u8 = 100;

/// Recovery, storage, metadata or calibration preparation failure.
#[derive(PartialEq, Eq)]
pub enum StandardEnrollmentPreparationError<RecoveryError, MetadataError, CalibrationError> {
    Recovery(RecoveryError),
    RecoveryBlocked,
    Store(CatacombStoreError),
    Metadata(MetadataError),
    Calibration(CalibrationError),
}

impl<R, M, C> StandardEnrollmentPreparationError<R, M, C> {
    /// A diagnostic that shows only what failed.
    pub fn diagnostic(&self) -> (text: &'static str)
        ensures
            text@ == match *self {
                StandardEnrollmentPreparationError::Recovery(_) => "Recovery([redacted])"@,
                StandardEnrollmentPreparationError::RecoveryBlocked => "RecoveryBlocked"@,
                StandardEnrollmentPreparationError::Store(_) => "Store([redacted])"@,
                StandardEnrollmentPreparationError::Metadata(_) => "Metadata([redacted])"@,
                StandardEnrollmentPreparationError::Calibration(_) => "Calibration([redacted])"@,
            },
    {
        match self {
            StandardEnrollmentPreparationError::Recovery(_) => "Recovery([redacted])",
            StandardEnrollmentPreparationError::RecoveryBlocked => "RecoveryBlocked",
            StandardEnrollmentPreparationError::Store(_) => "Store([redacted])",
            StandardEnrollmentPreparationError::Metadata(_) => "Metadata([redacted])",
            StandardEnrollmentPreparationError::Calibration(_) => "Calibration([redacted])",
        }
    }
}

/// The next work of preparing a standard enrollment.
pub enum StandardPreparationStep<'a, D, R, M, C> {
    /// Resolve an ambiguous pair and report with [`StandardResolution::resolved`].
    Recover(StandardResolution<'a>),
    /// Load the active pair and its metadata and report with
    /// [`StandardLoad::loaded`].
    LoadActive(StandardLoad<'a>),
    /// Begin a transaction and report with [`StandardReservation::begun`].
    BeginTransaction(StandardReservation<'a, D>),
    /// Make calibration live and report with [`StandardLiveness::calibrated`].
    Calibrate(StandardLiveness<'a, D>),
    /// Preparing has failed.
    Failed(StandardEnrollmentPreparationError<R, M, C>),
}

/// Preparation that waits for the recovery.
pub struct StandardResolution<'a> {
    user_id: u32,
    record: &'a [u8],
}

/// Preparation that waits for the active pair.
pub struct StandardLoad<'a> {
    record: &'a [u8],
}

/// Preparation that waits for the transaction.
pub struct StandardReservation<'a, D> {
    record: &'a [u8],
    has_active_pair: bool,
    committed: Option<D>,
}

/// Preparation that waits for the calibration.
pub struct StandardLiveness<'a, D> {
    record: &'a [u8],
    has_active_pair: bool,
    committed: Option<D>,
}

/// What a prepared enrollment goes on with: whether there is an active pair to
/// restore once the lease is acquired, and that pair's metadata, if it has any.
pub struct PreparedStandardEnrollment<D> {
    pub has_active_pair: bool,
    pub committed_metadata: Option<D>,
}

/// Begins to prepare a standard enrollment of the user, with calibration from the
/// record.
pub fn prepare_standard_enrollment<'a, D, R, M, C>(user_id: u32, record: &'a [u8]) -> (r:
    StandardPreparationStep<'a, D, R, M, C>)
    ensures
        r is Recover,
        r->Recover_0.user() == user_id,
        r->Recover_0.calibration() == record@,
{
    StandardPreparationStep::Recover(StandardResolution { user_id, record })
}

impl<'a> StandardResolution<'a> {
    /// The record that the sensor is calibrated with.
    pub closed spec fn calibration(self) -> Seq<u8> {
        self.record@
    }

    /// The user whose ambiguous pair is resolved.
    pub closed spec fn user(self) -> u32 {
        self.user_id
    }

    /// The user whose ambiguous pair is resolved.
    pub fn user_id(&self) -> (r: u32)
        ensures
            r == self.user(),
    {
        self.user_id
    }

    /// Begins to validate a candidate of this user, with the same calibration.
    pub fn validate<'p>(&self, pair: &'p CatacombPair) -> (r: PendingValidation<'p, 'a>)
        ensures
            r.user() == self.user(),
            r.candidate() == pair,
            r.calibration() == self.calibration(),
    {
        validate_recovery_candidate(self.user_id, pair, self.record)
    }

    /// Takes the recovery's outcome: what is quarantined blocks enrollment.
    pub fn resolved<D, R, M, C>(self, outcome: Result<CatacombRecoveryOutcome, R>) -> (r:
        StandardPreparationStep<'a, D, R, M, C>)
        ensures
            match outcome {
                Ok(CatacombRecoveryOutcome::Clean) | Ok(
                    CatacombRecoveryOutcome::Promoted,
                ) => r is LoadActive && r->LoadActive_0.calibration() == self.calibration(),
                Ok(CatacombRecoveryOutcome::Quarantined) => r
                    == StandardPreparationStep::<D, R, M, C>::Failed(
                    StandardEnrollmentPreparationError::RecoveryBlocked,
                ),
                Err(error) => r == StandardPreparationStep::<D, R, M, C>::Failed(
                    StandardEnrollmentPreparationError::Recovery(error),
                ),
            },
            preparation_follows(
                StandardPreparationStep::<D, R, M, C>::Recover(self),
                StandardPreparationAnswer::Resolved(outcome),
                r,
            ),
    {
        match outcome {
            Ok(CatacombRecoveryOutcome::Clean) | Ok(CatacombRecoveryOutcome::Promoted) => {
                StandardPreparationStep::LoadActive(StandardLoad { record: self.record })
            },
            Ok(CatacombRecoveryOutcome::Quarantined) => StandardPreparationStep::Failed(
                StandardEnrollmentPreparationError::RecoveryBlocked,
            ),
            Err(error) => StandardPreparationStep::Failed(
                StandardEnrollmentPreparationError::Recovery(error),
            ),
        }
    }
}

impl<'a> StandardLoad<'a> {
    /// The record that the sensor is calibrated with.
    pub closed spec fn calibration(self) -> Seq<u8> {
        self.record@
    }

    /// Takes the active pair: whether its metadata, if it has any, decodes. A
    /// missing pair is no failure.
    pub fn loaded<D, R, M, C>(
        self,
        outcome: Result<Option<Result<D, M>>, CatacombStoreError>,
    ) -> (r: StandardPreparationStep<'a, D, R, M, C>)
        ensures
            match outcome {
                Ok(None) => r is BeginTransaction && r->BeginTransaction_0.has_pair()
                    && r->BeginTransaction_0.metadata() is None,
                Ok(Some(Ok(metadata))) => r is BeginTransaction && r->BeginTransaction_0.has_pair()
                    && r->BeginTransaction_0.metadata() == Some(metadata),
                Ok(Some(Err(error))) => r == StandardPreparationStep::<D, R, M, C>::Failed(
                    StandardEnrollmentPreparationError::Metadata(error),
                ),
                Err(CatacombStoreError::MissingPair) => r is BeginTransaction
                    && !r->BeginTransaction_0.has_pair()
                    && r->BeginTransaction_0.metadata() is None,
                Err(error) => r == StandardPreparationStep::<D, R, M, C>::Failed(
                    StandardEnrollmentPreparationError::Store(error),
                ),
            },
            preparation_follows(
                StandardPreparationStep::<D, R, M, C>::LoadActive(self),
                StandardPreparationAnswer::Loaded(outcome),
                r,
            ),
    {
        match outcome {
            Ok(None) => StandardPreparationStep::BeginTransaction(
                StandardReservation {
                    record: self.record,
                    has_active_pair: true,
                    committed: None,
                },
            ),
            Ok(Some(Ok(metadata))) => StandardPreparationStep::BeginTransaction(
                StandardReservation {
                    record: self.record,
                    has_active_pair: true,
                    committed: Some(metadata),
                },
            ),
            Ok(Some(Err(error))) => StandardPreparationStep::Failed(
                StandardEnrollmentPreparationError::Metadata(error),
            ),
            Err(CatacombStoreError::MissingPair) => StandardPreparationStep::BeginTransaction(
                StandardReservation {
                    record: self.record,
                    has_active_pair: false,
                    committed: None,
                },
            ),
            Err(error) => StandardPreparationStep::Failed(
                StandardEnrollmentPreparationError::Store(error),
            ),
        }
    }
}

impl<'a, D> StandardReservation<'a, D> {
    /// The record that the sensor is calibrated with.
    pub closed spec fn calibration(self) -> Seq<u8> {
        self.record@
    }

    /// The active pair's metadata, if it has any.
    pub closed spec fn metadata(self) -> Option<D> {
        self.committed
    }

    /// Whether there is an active pair to restore.
    pub closed spec fn has_pair(self) -> bool {
        self.has_active_pair
    }

    /// Takes whether a transaction was begun.
    pub fn begun<R, M, C>(self, outcome: Result<(), CatacombStoreError>) -> (r:
        StandardPreparationStep<'a, D, R, M, C>)
        ensures
            match outcome {
                Ok(()) => r is Calibrate && r->Calibrate_0.has_pair() == self.has_pair()
                    && r->Calibrate_0.metadata() == self.metadata(),
                Err(error) => r == StandardPreparationStep::<D, R, M, C>::Failed(
                    StandardEnrollmentPreparationError::Store(error),
                ),
            },
            preparation_follows(
                StandardPreparationStep::<D, R, M, C>::BeginTransaction(self),
                StandardPreparationAnswer::Begun(outcome),
                r,
            ),
    {
        match outcome {
            Ok(()) => StandardPreparationStep::Calibrate(
                StandardLiveness {
                    record: self.record,
                    has_active_pair: self.has_active_pair,
                    committed: self.committed,
                },
            ),
            Err(error) => StandardPreparationStep::Failed(
                StandardEnrollmentPreparationError::Store(error),
            ),
        }
    }
}

impl<'a, D> StandardLiveness<'a, D> {
    /// The record that the sensor is calibrated with.
    pub closed spec fn calibration(self) -> Seq<u8> {
        self.record@
    }

    /// The active pair's metadata, if it has any.
    pub closed spec fn metadata(self) -> Option<D> {
        self.committed
    }

    /// Whether there is an active pair to restore.
    pub closed spec fn has_pair(self) -> bool {
        self.has_active_pair
    }

    /// The record that the sensor is calibrated with.
    pub fn record(&self) -> (r: &'a [u8])
        ensures
            r@ == self.calibration(),
    {
        self.record
    }

    /// Takes whether calibration is live; gives back what the enrollment goes on with.
    pub fn calibrated<R, M, C>(self, outcome: Result<(), C>) -> (r: Result<
        PreparedStandardEnrollment<D>,
        StandardEnrollmentPreparationError<R, M, C>,
    >)
        ensures
            r == match outcome {
                Ok(()) => Ok::<
                    PreparedStandardEnrollment<D>,
                    StandardEnrollmentPreparationError<R, M, C>,
                >(
                    PreparedStandardEnrollment {
                        has_active_pair: self.has_pair(),
                        committed_metadata: self.metadata(),
                    },
                ),
                Err(error) => Err(StandardEnrollmentPreparationError::Calibration(error)),
            },
    {
        match outcome {
            Ok(()) => Ok(
                PreparedStandardEnrollment {
                    has_active_pair: self.has_active_pair,
                    committed_metadata: self.committed,
                },
            ),
            Err(error) => Err(StandardEnrollmentPreparationError::Calibration(error)),
        }
    }
}

/// One answer to the work that preparing a standard enrollment asks for, up to the
/// calibration.
pub enum StandardPreparationAnswer<D, R, M> {
    Resolved(Result<CatacombRecoveryOutcome, R>),
    Loaded(Result<Option<Result<D, M>>, CatacombStoreError>),
    Begun(Result<(), CatacombStoreError>),
}

/// The record that a step calibrates with, or hands on to one that does.
pub open spec fn record_of<'a, D, R, M, C>(step: StandardPreparationStep<'a, D, R, M, C>) -> Option<
    Seq<u8>,
> {
    match step {
        StandardPreparationStep::Recover(pending) => Some(pending.calibration()),
        StandardPreparationStep::LoadActive(pending) => Some(pending.calibration()),
        StandardPreparationStep::BeginTransaction(pending) => Some(pending.calibration()),
        StandardPreparationStep::Calibrate(pending) => Some(pending.calibration()),
        StandardPreparationStep::Failed(_) => None,
    }
}

/// The active pair that a load found: whether there is one, and its metadata.
pub open spec fn active_pair_of<D, M>(
    outcome: Result<Option<Result<D, M>>, CatacombStoreError>,
) -> Option<(bool, Option<D>)> {
    match outcome {
        Ok(None) => Some((true, None)),
        Ok(Some(Ok(metadata))) => Some((true, Some(metadata))),
        Err(CatacombStoreError::MissingPair) => Some((false, None)),
        _ => None,
    }
}

/// The step that follows `step` on `answer`, where the answer is of the kind
/// that the step asks for.
pub open spec fn preparation_follows<'a, D, R, M, C>(
    step: StandardPreparationStep<'a, D, R, M, C>,
    answer: StandardPreparationAnswer<D, R, M>,
    next: StandardPreparationStep<'a, D, R, M, C>,
) -> bool {
    &&& next is Failed || record_of(next) == record_of(step)
    &&& match (step, answer) {
        (StandardPreparationStep::Recover(_), StandardPreparationAnswer::Resolved(outcome)) =>
            if outcome is Ok && outcome->Ok_0 != CatacombRecoveryOutcome::Quarantined {
                next is LoadActive
            } else {
                next is Failed
            },
        (StandardPreparationStep::LoadActive(_), StandardPreparationAnswer::Loaded(outcome)) =>
            match active_pair_of(outcome) {
                Some((has_pair, metadata)) => next is BeginTransaction
                    && next->BeginTransaction_0.has_pair() == has_pair
                    && next->BeginTransaction_0.metadata() == metadata,
                None => next is Failed,
            },
        (
            StandardPreparationStep::BeginTransaction(pending),
            StandardPreparationAnswer::Begun(outcome),
        ) => if outcome is Ok {
            next is Calibrate && next->Calibrate_0.has_pair() == pending.has_pair()
                && next->Calibrate_0.metadata() == pending.metadata()
        } else {
            next is Failed
        },
        _ => false,
    }
}

/// A run of preparing a standard enrollment, up to the calibration.
pub open spec fn is_standard_preparation_run<'a, D, R, M, C>(
    record: Seq<u8>,
    steps: Seq<StandardPreparationStep<'a, D, R, M, C>>,
    answers: Seq<StandardPreparationAnswer<D, R, M>>,
) -> bool {
    &&& steps.len() == answers.len() + 1
    &&& steps[0] is Recover
    &&& record_of(steps[0]) == Some(record)
    &&& forall|k: int|
        0 <= k < answers.len() ==> preparation_follows(
            #[trigger] steps[k],
            answers[k],
            steps[k + 1],
        )
}

/// Recovery and preparation calibrate with the one record that the preparation began
/// with; and the sensor is calibrated only once recovery has left nothing blocked, the
/// active pair was loaded with its metadata, or there is none, and a transaction was
/// begun, in this order. What was loaded is what the enrollment goes on with.
pub proof fn law_standard_enrollments_are_prepared_with_one_record<'a, D, R, M, C>(
    record: Seq<u8>,
    steps: Seq<StandardPreparationStep<'a, D, R, M, C>>,
    answers: Seq<StandardPreparationAnswer<D, R, M>>,
    k: int,
)
    requires
        is_standard_preparation_run(record, steps, answers),
        0 <= k < steps.len(),
    ensures
        steps[k] is Failed || record_of(steps[k]) == Some(record),
        steps[k] is Recover ==> k == 0,
        steps[k] is LoadActive ==> k == 1,
        steps[k] is BeginTransaction ==> k == 2,
        steps[k] is Calibrate ==> k == 3 && (answers[0] matches StandardPreparationAnswer::Resolved(
            Ok(outcome),
        ) && outcome != CatacombRecoveryOutcome::Quarantined) && (answers[1] matches
            StandardPreparationAnswer::Loaded(loaded) && active_pair_of(loaded) == Some(
            (steps[k]->Calibrate_0.has_pair(), steps[k]->Calibrate_0.metadata()),
        )) && (answers[2] matches StandardPreparationAnswer::Begun(Ok(_))),
    decreases k,
{
    if k > 0 {
        law_standard_enrollments_are_prepared_with_one_record(record, steps, answers, k - 1);
        assert(preparation_follows(steps[k - 1], answers[k - 1], steps[k - 1 + 1]));
        if k == 3 {
            assert(preparation_follows(steps[k - 2], answers[k - 2], steps[k - 2 + 1]));
            assert(preparation_follows(steps[k - 3], answers[k - 3], steps[k - 3 + 1]));
        }
    }
}

/// Successful standard enrollment and its durable catacomb generation.
#[derive(Clone, Copy, PartialEq, Eq)]
pub struct StandardEnrollmentSuccess {
    pub identity: IdentityId,
    pub catacombs: CatacombBackup,
}

/// Failure inside one standard enrollment transaction.
#[derive(PartialEq, Eq)]
pub enum StandardEnrollmentError<
    RestoreError,
    UserError,
    CatalogError,
    MatchError,
    SystemPolicyError,
    UserPolicyError,
    EnrollmentError,
    PersistenceError,
> {
    Restore(RestoreError),
    User(UserError),
    CatacombNotSecurelyLoaded,
    IdentityCapacityReached,
    Catalog(CatalogError),
    DuplicateCheck(MatchError),
    DuplicateIdentity,
    InvalidIdentity,
    SystemPolicy(SystemPolicyError),
    UserPolicy(UserPolicyError),
    Enrollment(EnrollmentError),
    EnrollmentTimedOut,
    EnrollmentCancelled,
    Persistence(PersistenceError),
    PostCommitIdentityVerification(UserError),
    PostCommitIdentitySetChanged,
}

impl<R, U, C, M, S, P, E, B> StandardEnrollmentError<R, U, C, M, S, P, E, B> {
    /// The message, as text: it shows nothing of an inner error.
    pub open spec fn text(self) -> Seq<char> {
        match self {
            StandardEnrollmentError::Restore(_) => "standard enrollment durable restore failed"@,
            StandardEnrollmentError::User(_) => "standard enrollment user preparation failed"@,
            StandardEnrollmentError::CatacombNotSecurelyLoaded => "standard enrollment user catacomb is not securely loaded"@,
            StandardEnrollmentError::IdentityCapacityReached => "standard enrollment identity capacity was reached"@,
            StandardEnrollmentError::Catalog(_) => "standard enrollment identity catalog is invalid"@,
            StandardEnrollmentError::DuplicateCheck(_) => "standard enrollment duplicate check failed"@,
            StandardEnrollmentError::DuplicateIdentity => "fingerprint is already enrolled"@,
            StandardEnrollmentError::InvalidIdentity => "standard enrollment returned an invalid identity"@,
            StandardEnrollmentError::SystemPolicy(_) => "standard enrollment system policy failed"@,
            StandardEnrollmentError::UserPolicy(_) => "standard enrollment user policy failed"@,
            StandardEnrollmentError::Enrollment(_) => "Mesa standard enrollment failed"@,
            StandardEnrollmentError::EnrollmentTimedOut => "Mesa standard enrollment timed out"@,
            StandardEnrollmentError::EnrollmentCancelled => "Mesa standard enrollment was cancelled"@,
            StandardEnrollmentError::Persistence(_) => "standard enrollment persistence failed"@,
            StandardEnrollmentError::PostCommitIdentityVerification(_) => "standard enrollment post-commit identity read failed"@,
            StandardEnrollmentError::PostCommitIdentitySetChanged => "standard enrollment identity set changed during persistence"@,
        }
    }

    /// A fixed message.
    pub fn message(&self) -> (message: &'static str)
        ensures
            message@ == self.text(),
    {
        match self {
            StandardEnrollmentError::Restore(_) => "standard enrollment durable restore failed",
            StandardEnrollmentError::User(_) => "standard enrollment user preparation failed",
            StandardEnrollmentError::CatacombNotSecurelyLoaded => "standard enrollment user catacomb is not securely loaded",
            StandardEnrollmentError::IdentityCapacityReached => "standard enrollment identity capacity was reached",
            StandardEnrollmentError::Catalog(_) => "standard enrollment identity catalog is invalid",
            StandardEnrollmentError::DuplicateCheck(_) => "standard enrollment duplicate check failed",
            StandardEnrollmentError::DuplicateIdentity => "fingerprint is already enrolled",
            StandardEnrollmentError::InvalidIdentity => "standard enrollment returned an invalid identity",
            StandardEnrollmentError::SystemPolicy(_) => "standard enrollment system policy failed",
            StandardEnrollmentError::UserPolicy(_) => "standard enrollment user policy failed",
            StandardEnrollmentError::Enrollment(_) => "Mesa standard enrollment failed",
            StandardEnrollmentError::EnrollmentTimedOut => "Mesa standard enrollment timed out",
            StandardEnrollmentError::EnrollmentCancelled => "Mesa standard enrollment was cancelled",
            StandardEnrollmentError::Persistence(_) => "standard enrollment persistence failed",
            StandardEnrollmentError::PostCommitIdentityVerification(_) => "standard enrollment post-commit identity read failed",
            StandardEnrollmentError::PostCommitIdentitySetChanged => "standard enrollment identity set changed during persistence",
        }
    }
}

/// The identifiers of the identities, in their order.
pub open spec fn ids_of(identities: Seq<Identity>) -> Seq<IdentityId> {
    identities.map_values(|identity: Identity| IdentityId { bytes: identity.identifier })
}

/// The identifiers of the identities, in their order.
pub fn identity_ids(identities: &Vec<Identity>) -> (r: Vec<IdentityId>)
    ensures
        r@ == ids_of(identities@),
{
    let mut ids: Vec<IdentityId> = Vec::new();
    let mut i: usize = 0;
    while i < identities.len()
        invariant
            i <= identities@.len(),
            ids@ == ids_of(identities@).subrange(0, i as int),
        decreases identities@.len() - i,
    {
        ids.push(IdentityId { bytes: identities[i].identifier });
        i += 1;
        assert(ids@ =~= ids_of(identities@).subrange(0, i as int));
    }
    assert(ids@ =~= ids_of(identities@));
    ids
}

/// How often `id` occurs.
pub open spec fn occurrences(ids: Seq<IdentityId>, id: IdentityId) -> nat
    decreases ids.len(),
{
    if ids.len() == 0 {
        0
    } else {
        occurrences(ids.drop_last(), id) + (if ids.last() == id {
            1nat
        } else {
            0nat
        })
    }
}

/// As many actual identities as expected, and each expected one exactly once
/// among them.
pub open spec fn is_same_identity_set(expected: Seq<IdentityId>, actual: Seq<IdentityId>) -> bool {
    expected.len() == actual.len() && forall|i: int|
        0 <= i < expected.len() ==> occurrences(actual, #[trigger] expected[i]) == 1
}

fn count_occurrences(ids: &Vec<IdentityId>, id: &IdentityId) -> (r: usize)
    ensures
        r == occurrences(ids@, *id),
{
    let mut count: usize = 0;
    let mut i: usize = 0;
    assert(ids@.subrange(0, 0) =~= Seq::<IdentityId>::empty());
    while i < ids.len()
        invariant
            i <= ids@.len(),
            count <= i,
            count == occurrences(ids@.subrange(0, i as int), *id),
        decreases ids@.len() - i,
    {
        let ghost longer = ids@.subrange(0, i as int + 1);
        assert(longer.drop_last() =~= ids@.subrange(0, i as int));
        assert(longer.last() == ids@[i as int]);
        if ids[i].same(id) {
            count += 1;
        }
        i += 1;
    }
    assert(ids@.subrange(0, ids@.len() as int) =~= ids@);
    count
}

/// Whether the actual identities are exactly the expected ones.
pub fn same_identity_set(expected: &Vec<IdentityId>, actual: &Vec<IdentityId>) -> (r: bool)
    ensures
        r == is_same_identity_set(expected@, actual@),
{
    if expected.len() != actual.len() {
        return false;
    }
    let mut i: usize = 0;
    while i < expected.len()
        invariant
            i <= expected@.len() == actual@.len(),
            forall|j: int| 0 <= j < i ==> occurrences(actual@, #[trigger] expected@[j]) == 1,
        decreases expected@.len() - i,
    {
        if count_occurrences(actual, &expected[i]) != 1 {
            assert(occurrences(actual@, expected@[i as int]) != 1);
            return false;
        }
        i += 1;
    }
    true
}

proof fn lemma_occurrences_are_multiplicity(ids: Seq<IdentityId>, id: IdentityId)
    ensures
        occurrences(ids, id) == ids.to_multiset().count(id),
    decreases ids.len(),
{
    broadcast use vstd::seq_lib::group_to_multiset_ensures;

    if ids.len() == 0 {
        vstd::seq_lib::to_multiset_len(ids);
        assert(ids.to_multiset().count(id) == 0);
    } else {
        lemma_occurrences_are_multiplicity(ids.drop_last(), id);
        assert(ids =~= ids.drop_last().push(ids.last()));
        vstd::seq_lib::to_multiset_build(ids.drop_last(), ids.last());
    }
}

/// Where the expected identities are distinct, the actual ones are the same
/// identities, in some order.
pub proof fn law_same_identity_set_is_a_rearrangement(
    expected: Seq<IdentityId>,
    actual: Seq<IdentityId>,
)
    requires
        is_same_identity_set(expected, actual),
        expected.no_duplicates(),
    ensures
        expected.to_multiset() == actual.to_multiset(),
{
    broadcast use vstd::seq_lib::group_to_multiset_ensures;

    let wanted = expected.to_multiset();
    let found = actual.to_multiset();
    assert forall|id: IdentityId| wanted.count(id) <= #[trigger] found.count(id) by {
        if wanted.count(id) > 0 {
            expected.lemma_multiset_has_no_duplicates();
            assert(expected.contains(id)) by {
                vstd::seq_lib::to_multiset_contains(expected, id);
            }
            let i = choose|i: int| 0 <= i < expected.len() && expected[i] == id;
            assert(occurrences(actual, expected[i]) == 1);
            lemma_occurrences_are_multiplicity(actual, id);
            assert(wanted.contains(id));
            assert(wanted.count(id) == 1);
        }
    }
    let rest = found.sub(wanted);
    vstd::seq_lib::to_multiset_len(expected);
    vstd::seq_lib::to_multiset_len(actual);
    assert(wanted.subset_of(found));
    assert(rest.add(wanted) =~= found);
    assert(rest.len() == 0);
    assert(rest =~= vstd::multiset::Multiset::empty());
    assert(wanted =~= found);
}

/// Why the identities and the committed metadata cannot be used: an identifier
/// is not valid, or the catalog refuses.
#[derive(Debug, PartialEq, Eq)]
pub enum CatalogFault<CatalogError> {
    InvalidIdentity,
    Catalog(CatalogError),
}

/// The next work of a standard enrollment.
pub enum StandardEnrollmentStep<'a, D, K, R, U, C, M, S, P, E, B> {
    /// Restore the active pair for the enrollment, beginning with
    /// [`StandardRestore::begin`], and report with [`StandardRestore::restored`].
    RestoreUser(StandardRestore<'a, D>),
    /// Prepare the live user and report with [`StandardUser::prepared`].
    PrepareUser(StandardUser<'a, D>),
    /// Read the component states and report with [`StandardSecurity::read`].
    ReadStates(StandardSecurity<'a, D>),
    /// Rebind the empty user and report with [`StandardRebinding::rebound`].
    Rebind(StandardRebinding<'a, D>),
    /// Reconcile the identities with the owner's committed metadata and report with
    /// [`StandardReconciliation::reconciled`].
    Reconcile(StandardReconciliation<'a, D>),
    /// Enable the system policy and report with [`StandardSystemPolicy::enabled`].
    EnableSystem(StandardSystemPolicy<'a, K>),
    /// Enable the user's policy and report with [`StandardUserPolicy::enabled`].
    EnableUser(StandardUserPolicy<'a, K>),
    /// Publish the presentation and report with [`StandardPresentation::presented`].
    Present(StandardPresentation<'a, K>),
    /// Match against [`StandardDuplicateCheck::encoded`], wipe those bytes and
    /// report with [`StandardDuplicateCheck::checked`].
    CheckDuplicate(StandardDuplicateCheck<'a, K>),
    /// Enroll and report with [`StandardCapture::ended`].
    Enroll(StandardCapture<'a, K>),
    /// Close cancellation and report with [`StandardCutoff::closed`].
    CloseCancellation(StandardCutoff<'a, K>),
    /// Label the identity with the finger in the next manifest and report with
    /// [`StandardLabeling::labeled`].
    Label(StandardLabeling<'a, K>),
    /// Export and promote the pair with the manifest and report with
    /// [`StandardPersistence::persisted`].
    Persist(StandardPersistence<'a>),
    /// List the user's identities and report with [`StandardVerification::listed`].
    Verify(StandardVerification<'a>),
    /// The enrollment has failed.
    Failed(StandardEnrollmentError<R, U, C, M, S, P, E, B>),
}

/// What a standard enrollment is asked for: the user and the credential of the
/// lease, the account that owns the manifest, and the finger that the new identity
/// is labeled with.
#[derive(Clone, Copy)]
pub struct StandardSubject<'a> {
    pub user_id: u32,
    pub credential: &'a [u8],
    pub owner: &'a str,
    pub finger: FingerLabel,
}

/// An enrollment that waits for the restored pair.
pub struct StandardRestore<'a, D> {
    subject: StandardSubject<'a>,
    committed: Option<D>,
}

/// An enrollment that waits for the live user.
pub struct StandardUser<'a, D> {
    subject: StandardSubject<'a>,
    committed: Option<D>,
}

/// An enrollment that waits for the component states.
pub struct StandardSecurity<'a, D> {
    subject: StandardSubject<'a>,
    committed: Option<D>,
    identities: Vec<Identity>,
    rebound: bool,
}

/// An enrollment that waits for the rebinding.
pub struct StandardRebinding<'a, D> {
    subject: StandardSubject<'a>,
    committed: Option<D>,
}

/// An enrollment with its identities before it.
pub struct StandardReconciliation<'a, D> {
    subject: StandardSubject<'a>,
    committed: Option<D>,
    identities: Vec<Identity>,
}

/// An enrollment that waits for the system policy.
pub struct StandardSystemPolicy<'a, K> {
    subject: StandardSubject<'a>,
    catalog: K,
    identities: Vec<Identity>,
}

/// An enrollment that waits for the user's policy.
pub struct StandardUserPolicy<'a, K> {
    subject: StandardSubject<'a>,
    catalog: K,
    identities: Vec<Identity>,
}

/// An enrollment that is to be announced.
pub struct StandardPresentation<'a, K> {
    subject: StandardSubject<'a>,
    catalog: K,
    identities: Vec<Identity>,
}

/// An enrollment that waits for the duplicate check.
pub struct StandardDuplicateCheck<'a, K> {
    subject: StandardSubject<'a>,
    catalog: K,
    identities: Vec<Identity>,
}

/// An enrollment that waits for the sensor.
pub struct StandardCapture<'a, K> {
    subject: StandardSubject<'a>,
    catalog: K,
    before: Vec<IdentityId>,
}

/// An enrollment whose identity is captured.
pub struct StandardCutoff<'a, K> {
    subject: StandardSubject<'a>,
    catalog: K,
    before: Vec<IdentityId>,
    identity: IdentityIdentifier,
}

/// An enrollment that can no longer be cancelled.
pub struct StandardLabeling<'a, K> {
    subject: StandardSubject<'a>,
    catalog: K,
    before: Vec<IdentityId>,
    identity: IdentityIdentifier,
}

/// An enrollment with its next manifest.
pub struct StandardPersistence<'a> {
    subject: StandardSubject<'a>,
    before: Vec<IdentityId>,
    identity: IdentityIdentifier,
    metadata: Vec<u8>,
}

/// An enrollment whose pair is promoted.
pub struct StandardVerification<'a> {
    subject: StandardSubject<'a>,
    before: Vec<IdentityId>,
    identity: IdentityIdentifier,
    catacombs: CatacombBackup,
}

/// How a standard enrollment begins.
pub open spec fn standard_begins<'a, D, K, R, U, C, M, S, P, E, B>(
    subject: StandardSubject<'a>,
    committed: Option<D>,
    has_active_pair: bool,
    r: StandardEnrollmentStep<'a, D, K, R, U, C, M, S, P, E, B>,
) -> bool {
    if has_active_pair {
        r is RestoreUser && r->RestoreUser_0.whom() == subject && r->RestoreUser_0.metadata()
            == committed
    } else {
        r is PrepareUser && r->PrepareUser_0.whom() == subject && r->PrepareUser_0.metadata()
            == committed
    }
}

/// Begins to enroll the user's finger inside its lease, with the lease's credential
/// and for the owner's manifest: an active pair is restored, without one the live
/// user is prepared.
pub fn run_reserved_standard_enrollment<'a, D, K, R, U, C, M, S, P, E, B>(
    user_id: u32,
    owner: &'a str,
    finger: FingerLabel,
    credential: &'a [u8],
    committed: Option<D>,
    has_active_pair: bool,
) -> (r: StandardEnrollmentStep<'a, D, K, R, U, C, M, S, P, E, B>)
    ensures
        standard_begins(
            StandardSubject { user_id, credential, owner, finger },
            committed,
            has_active_pair,
            r,
        ),
{
    let subject = StandardSubject { user_id, credential, owner, finger };
    if has_active_pair {
        StandardEnrollmentStep::RestoreUser(StandardRestore { subject, committed })
    } else {
        StandardEnrollmentStep::PrepareUser(StandardUser { subject, committed })
    }
}

/// What follows the identities before the enrollment: there has to be room for
/// one more.
pub open spec fn identities_known<'a, D, K, R, U, C, M, S, P, E, B>(
    subject: StandardSubject<'a>,
    committed: Option<D>,
    identities: Seq<Identity>,
    r: StandardEnrollmentStep<'a, D, K, R, U, C, M, S, P, E, B>,
) -> bool {
    if identities.len() >= MAX_OWNER_IDENTITIES {
        r == StandardEnrollmentStep::<D, K, R, U, C, M, S, P, E, B>::Failed(
            StandardEnrollmentError::IdentityCapacityReached,
        )
    } else {
        r is Reconcile && r->Reconcile_0.whom() == subject && r->Reconcile_0.metadata() == committed
            && r->Reconcile_0.found() == identities
    }
}

fn reconcile_next<'a, D, K, R, U, C, M, S, P, E, B>(
    subject: StandardSubject<'a>,
    committed: Option<D>,
    identities: Vec<Identity>,
) -> (r: StandardEnrollmentStep<'a, D, K, R, U, C, M, S, P, E, B>)
    ensures
        identities_known(subject, committed, identities@, r),
{
    if identities.len() >= MAX_OWNER_IDENTITIES {
        return StandardEnrollmentStep::Failed(StandardEnrollmentError::IdentityCapacityReached);
    }
    StandardEnrollmentStep::Reconcile(StandardReconciliation { subject, committed, identities })
}

impl<'a, D> StandardRestore<'a, D> {
    /// The committed metadata of the active pair, if there is any.
    pub closed spec fn metadata(self) -> Option<D> {
        self.committed
    }

    /// What the enrollment is asked for.
    pub closed spec fn whom(self) -> StandardSubject<'a> {
        self.subject
    }

    /// Begins to prepare this user of the enrollment from the active pair, with this
    /// credential.
    pub fn begin<K, Q, T, V, N>(&self) -> (r: PreparationStep<'a, K, Q, T, V, N>)
        ensures
            preparation_begins(
                PreparationModel {
                    user_id: self.whom().user_id,
                    durable: true,
                    credential: Some(self.whom().credential@),
                    for_enrollment: true,
                },
                r,
            ),
    {
        restore_user_for_enrollment_after_calibration(
            self.subject.user_id,
            true,
            Some(self.subject.credential),
        )
    }

    /// Takes the restored identities.
    pub fn restored<K, R, U, C, M, S, P, E, B>(self, identities: Result<Vec<Identity>, R>) -> (r:
        StandardEnrollmentStep<'a, D, K, R, U, C, M, S, P, E, B>)
        ensures
            match identities {
                Ok(identities) => identities_known(self.whom(), self.metadata(), identities@, r),
                Err(error) => r == StandardEnrollmentStep::<D, K, R, U, C, M, S, P, E, B>::Failed(
                    StandardEnrollmentError::Restore(error),
                ),
            },
            standard_follows(
                StandardEnrollmentStep::<D, K, R, U, C, M, S, P, E, B>::RestoreUser(self),
                StandardAnswer::Restored(identities),
                r,
            ),
    {
        match identities {
            Ok(identities) => reconcile_next(self.subject, self.committed, identities),
            Err(error) => StandardEnrollmentStep::Failed(StandardEnrollmentError::Restore(error)),
        }
    }
}

impl<'a, D> StandardUser<'a, D> {
    /// The committed metadata of the active pair, if there is any.
    pub closed spec fn metadata(self) -> Option<D> {
        self.committed
    }

    /// What the enrollment is asked for.
    pub closed spec fn whom(self) -> StandardSubject<'a> {
        self.subject
    }

    /// What the enrollment is asked for.
    pub fn subject(&self) -> (r: StandardSubject<'a>)
        ensures
            r == self.whom(),
    {
        self.subject
    }

    /// Takes the live user's identities.
    pub fn prepared<K, R, U, C, M, S, P, E, B>(self, identities: Result<Vec<Identity>, U>) -> (r:
        StandardEnrollmentStep<'a, D, K, R, U, C, M, S, P, E, B>)
        ensures
            match identities {
                Ok(identities) => r is ReadStates && r->ReadStates_0.whom() == self.whom()
                    && r->ReadStates_0.found() == identities@ && !r->ReadStates_0.was_rebound(),
                Err(error) => r == StandardEnrollmentStep::<D, K, R, U, C, M, S, P, E, B>::Failed(
                    StandardEnrollmentError::User(error),
                ),
            },
            standard_follows(
                StandardEnrollmentStep::<D, K, R, U, C, M, S, P, E, B>::PrepareUser(self),
                StandardAnswer::Identities(identities),
                r,
            ),
    {
        match identities {
            Ok(identities) => StandardEnrollmentStep::ReadStates(
                StandardSecurity {
                    subject: self.subject,
                    committed: self.committed,
                    identities,
                    rebound: false,
                },
            ),
            Err(error) => StandardEnrollmentStep::Failed(StandardEnrollmentError::User(error)),
        }
    }
}

impl<'a, D> StandardSecurity<'a, D> {
    /// The committed metadata of the active pair, if there is any.
    pub closed spec fn metadata(self) -> Option<D> {
        self.committed
    }

    /// What the enrollment is asked for.
    pub closed spec fn whom(self) -> StandardSubject<'a> {
        self.subject
    }

    /// The identities found.
    pub closed spec fn found(self) -> Seq<Identity> {
        self.identities@
    }

    /// Whether the user has been rebound.
    pub closed spec fn was_rebound(self) -> bool {
        self.rebound
    }

    /// Takes the component states: an insecure user is rebound once.
    pub fn read<K, R, U, C, M, S, P, E, B>(self, states: Result<Vec<CatacombStateEntry>, U>) -> (r:
        StandardEnrollmentStep<'a, D, K, R, U, C, M, S, P, E, B>)
        ensures
            match states {
                Err(error) => r == StandardEnrollmentStep::<D, K, R, U, C, M, S, P, E, B>::Failed(
                    StandardEnrollmentError::User(error),
                ),
                Ok(states) => if shows_secure(states@, self.whom().user_id) {
                    identities_known(self.whom(), self.metadata(), self.found(), r)
                } else if self.was_rebound() {
                    r == StandardEnrollmentStep::<D, K, R, U, C, M, S, P, E, B>::Failed(
                        StandardEnrollmentError::CatacombNotSecurelyLoaded,
                    )
                } else {
                    r is Rebind && r->Rebind_0.whom() == self.whom()
                },
            },
            standard_follows(
                StandardEnrollmentStep::<D, K, R, U, C, M, S, P, E, B>::ReadStates(self),
                StandardAnswer::States(states),
                r,
            ),
    {
        let states = match states {
            Ok(states) => states,
            Err(error) => {
                return StandardEnrollmentStep::Failed(StandardEnrollmentError::User(error));
            },
        };
        if catacomb_is_secure(&states, self.subject.user_id) {
            return reconcile_next(self.subject, self.committed, self.identities);
        }
        if self.rebound {
            return StandardEnrollmentStep::Failed(
                StandardEnrollmentError::CatacombNotSecurelyLoaded,
            );
        }
        StandardEnrollmentStep::Rebind(
            StandardRebinding {
                subject: self.subject,
                committed: self.committed,
            },
        )
    }
}

impl<'a, D> StandardRebinding<'a, D> {
    /// The committed metadata of the active pair, if there is any.
    pub closed spec fn metadata(self) -> Option<D> {
        self.committed
    }

    /// What the enrollment is asked for.
    pub closed spec fn whom(self) -> StandardSubject<'a> {
        self.subject
    }

    /// What the enrollment is asked for.
    pub fn subject(&self) -> (r: StandardSubject<'a>)
        ensures
            r == self.whom(),
    {
        self.subject
    }

    /// Takes the rebound user's identities.
    pub fn rebound<K, R, U, C, M, S, P, E, B>(self, identities: Result<Vec<Identity>, U>) -> (r:
        StandardEnrollmentStep<'a, D, K, R, U, C, M, S, P, E, B>)
        ensures
            match identities {
                Ok(identities) => r is ReadStates && r->ReadStates_0.whom() == self.whom()
                    && r->ReadStates_0.found() == identities@ && r->ReadStates_0.was_rebound(),
                Err(error) => r == StandardEnrollmentStep::<D, K, R, U, C, M, S, P, E, B>::Failed(
                    StandardEnrollmentError::User(error),
                ),
            },
            standard_follows(
                StandardEnrollmentStep::<D, K, R, U, C, M, S, P, E, B>::Rebind(self),
                StandardAnswer::Identities(identities),
                r,
            ),
    {
        match identities {
            Ok(identities) => StandardEnrollmentStep::ReadStates(
                StandardSecurity {
                    subject: self.subject,
                    committed: self.committed,
                    identities,
                    rebound: true,
                },
            ),
            Err(error) => StandardEnrollmentStep::Failed(StandardEnrollmentError::User(error)),
        }
    }
}

impl<'a, D> StandardReconciliation<'a, D> {
    /// The committed metadata of the active pair, if there is any.
    pub closed spec fn metadata(self) -> Option<D> {
        self.committed
    }

    /// What the enrollment is asked for.
    pub closed spec fn whom(self) -> StandardSubject<'a> {
        self.subject
    }

    /// The identities before the enrollment.
    pub closed spec fn found(self) -> Seq<Identity> {
        self.identities@
    }

    /// Their identifiers.
    pub open spec fn existing(self) -> Seq<IdentityId> {
        ids_of(self.found())
    }

    /// The identifiers of the identities before the enrollment.
    pub fn before(&self) -> (r: Vec<IdentityId>)
        ensures
            r@ == self.existing(),
    {
        identity_ids(&self.identities)
    }

    /// The account that the manifest has to belong to.
    pub fn owner(&self) -> (r: &'a str)
        ensures
            r@ == self.whom().owner@,
    {
        self.subject.owner
    }

    /// The committed metadata of the active pair, if there is any.
    pub fn committed_metadata(&self) -> (r: Option<&D>)
        ensures
            match r {
                Some(committed) => self.metadata() == Some(*committed),
                None => self.metadata() is None,
            },
    {
        self.committed.as_ref()
    }

    /// Takes the catalog in which the identities agree with the committed metadata,
    /// or why they do not.
    pub fn reconciled<K, R, U, C, M, S, P, E, B>(self, outcome: Result<K, CatalogFault<C>>) -> (r:
        StandardEnrollmentStep<'a, D, K, R, U, C, M, S, P, E, B>)
        ensures
            match outcome {
                Ok(catalog) => r is EnableSystem && r->EnableSystem_0.found() == self.found()
                    && r->EnableSystem_0.labels() == catalog,
                Err(CatalogFault::InvalidIdentity) => r
                    == StandardEnrollmentStep::<D, K, R, U, C, M, S, P, E, B>::Failed(
                    StandardEnrollmentError::InvalidIdentity,
                ),
                Err(CatalogFault::Catalog(error)) => r
                    == StandardEnrollmentStep::<D, K, R, U, C, M, S, P, E, B>::Failed(
                    StandardEnrollmentError::Catalog(error),
                ),
            },
            standard_follows(
                StandardEnrollmentStep::<D, K, R, U, C, M, S, P, E, B>::Reconcile(self),
                StandardAnswer::Reconciled(outcome),
                r,
            ),
    {
        match outcome {
            Ok(catalog) => StandardEnrollmentStep::EnableSystem(
                StandardSystemPolicy {
                    subject: self.subject,
                    catalog,
                    identities: self.identities,
                },
            ),
            Err(CatalogFault::InvalidIdentity) => StandardEnrollmentStep::Failed(
                StandardEnrollmentError::InvalidIdentity,
            ),
            Err(CatalogFault::Catalog(error)) => StandardEnrollmentStep::Failed(
                StandardEnrollmentError::Catalog(error),
            ),
        }
    }
}

impl<'a, K> StandardSystemPolicy<'a, K> {
    /// The catalog that was reconciled with the committed metadata.
    pub closed spec fn labels(self) -> K {
        self.catalog
    }

    /// What the enrollment is asked for.
    pub closed spec fn whom(self) -> StandardSubject<'a> {
        self.subject
    }

    /// What the enrollment is asked for.
    pub fn subject(&self) -> (r: StandardSubject<'a>)
        ensures
            r == self.whom(),
    {
        self.subject
    }

    /// The identities before the enrollment.
    pub closed spec fn found(self) -> Seq<Identity> {
        self.identities@
    }

    /// Their identifiers.
    pub open spec fn existing(self) -> Seq<IdentityId> {
        ids_of(self.found())
    }

    /// Takes whether the system policy was enabled.
    pub fn enabled<D, R, U, C, M, S, P, E, B>(self, outcome: Result<(), S>) -> (r:
        StandardEnrollmentStep<'a, D, K, R, U, C, M, S, P, E, B>)
        ensures
            match outcome {
                Ok(()) => r is EnableUser && r->EnableUser_0.found() == self.found(),
                Err(error) => r == StandardEnrollmentStep::<D, K, R, U, C, M, S, P, E, B>::Failed(
                    StandardEnrollmentError::SystemPolicy(error),
                ),
            },
            standard_follows(
                StandardEnrollmentStep::<D, K, R, U, C, M, S, P, E, B>::EnableSystem(self),
                StandardAnswer::SystemEnabled(outcome),
                r,
            ),
    {
        match outcome {
            Ok(()) => StandardEnrollmentStep::EnableUser(
                StandardUserPolicy {
                    subject: self.subject,
                    catalog: self.catalog,
                    identities: self.identities,
                },
            ),
            Err(error) => StandardEnrollmentStep::Failed(
                StandardEnrollmentError::SystemPolicy(error),
            ),
        }
    }
}

impl<'a, K> StandardUserPolicy<'a, K> {
    /// The catalog that was reconciled with the committed metadata.
    pub closed spec fn labels(self) -> K {
        self.catalog
    }

    /// What the enrollment is asked for.
    pub closed spec fn whom(self) -> StandardSubject<'a> {
        self.subject
    }

    /// What the enrollment is asked for.
    pub fn subject(&self) -> (r: StandardSubject<'a>)
        ensures
            r == self.whom(),
    {
        self.subject
    }

    /// The identities before the enrollment.
    pub closed spec fn found(self) -> Seq<Identity> {
        self.identities@
    }

    /// Their identifiers.
    pub open spec fn existing(self) -> Seq<IdentityId> {
        ids_of(self.found())
    }

    /// Takes whether the user's policy was enabled.
    pub fn enabled<D, R, U, C, M, S, P, E, B>(self, outcome: Result<(), P>) -> (r:
        StandardEnrollmentStep<'a, D, K, R, U, C, M, S, P, E, B>)
        ensures
            match outcome {
                Ok(()) => r is Present && r->Present_0.found() == self.found(),
                Err(error) => r == StandardEnrollmentStep::<D, K, R, U, C, M, S, P, E, B>::Failed(
                    StandardEnrollmentError::UserPolicy(error),
                ),
            },
            standard_follows(
                StandardEnrollmentStep::<D, K, R, U, C, M, S, P, E, B>::EnableUser(self),
                StandardAnswer::UserEnabled(outcome),
                r,
            ),
    {
        match outcome {
            Ok(()) => StandardEnrollmentStep::Present(
                StandardPresentation {
                    subject: self.subject,
                    catalog: self.catalog,
                    identities: self.identities,
                },
            ),
            Err(error) => StandardEnrollmentStep::Failed(
                StandardEnrollmentError::UserPolicy(error),
            ),
        }
    }
}

impl<'a, K> StandardPresentation<'a, K> {
    /// The catalog that was reconciled with the committed metadata.
    pub closed spec fn labels(self) -> K {
        self.catalog
    }

    /// What the enrollment is asked for.
    pub closed spec fn whom(self) -> StandardSubject<'a> {
        self.subject
    }

    /// The identities before the enrollment.
    pub closed spec fn found(self) -> Seq<Identity> {
        self.identities@
    }

    /// Takes that the presentation is up. Existing identities are checked for a
    /// duplicate before anything is enrolled.
    pub fn presented<D, R, U, C, M, S, P, E, B>(self) -> (r:
        StandardEnrollmentStep<'a, D, K, R, U, C, M, S, P, E, B>)
        ensures
            if self.found().len() == 0 {
                r is Enroll && r->Enroll_0.existing() == ids_of(self.found())
            } else {
                r is CheckDuplicate && r->CheckDuplicate_0.found() == self.found()
            },
            standard_follows(
                StandardEnrollmentStep::<D, K, R, U, C, M, S, P, E, B>::Present(self),
                StandardAnswer::Presented,
                r,
            ),
    {
        if self.identities.len() == 0 {
            StandardEnrollmentStep::Enroll(
                StandardCapture {
                    subject: self.subject,
                    catalog: self.catalog,
                    before: identity_ids(&self.identities),
                },
            )
        } else {
            StandardEnrollmentStep::CheckDuplicate(
                StandardDuplicateCheck {
                    subject: self.subject,
                    catalog: self.catalog,
                    identities: self.identities,
                },
            )
        }
    }
}

impl<'a, K> StandardDuplicateCheck<'a, K> {
    /// The catalog that was reconciled with the committed metadata.
    pub closed spec fn labels(self) -> K {
        self.catalog
    }

    /// What the enrollment is asked for.
    pub closed spec fn whom(self) -> StandardSubject<'a> {
        self.subject
    }

    /// What the enrollment is asked for.
    pub fn subject(&self) -> (r: StandardSubject<'a>)
        ensures
            r == self.whom(),
    {
        self.subject
    }

    /// The identities before the enrollment.
    pub closed spec fn found(self) -> Seq<Identity> {
        self.identities@
    }

    /// Their identifiers.
    pub open spec fn existing(self) -> Seq<IdentityId> {
        ids_of(self.found())
    }

    /// The identities to match against.
    pub fn identities(&self) -> (r: &[Identity])
        ensures
            r@ == self.found(),
    {
        self.identities.as_slice()
    }

    /// The identities to match against, on the wire.
    pub fn encoded(&self) -> (r: Vec<u8>)
        ensures
            r@ == encoded_identities(self.found()),
    {
        encode_identities(self.identities.as_slice())
    }

    /// Takes the outcome of matching against the existing identities: only a
    /// finger that matches none is enrolled.
    pub fn checked<D, R, U, C, M, S, P, E, B>(self, outcome: Result<IdentityMatchOutcome, M>) -> (r:
        StandardEnrollmentStep<'a, D, K, R, U, C, M, S, P, E, B>)
        ensures
            match outcome {
                Ok(IdentityMatchOutcome::NoMatch) => r is Enroll && r->Enroll_0.existing()
                    == self.existing(),
                Ok(IdentityMatchOutcome::Matched(_)) => r
                    == StandardEnrollmentStep::<D, K, R, U, C, M, S, P, E, B>::Failed(
                    StandardEnrollmentError::DuplicateIdentity,
                ),
                Ok(IdentityMatchOutcome::Cancelled) => r
                    == StandardEnrollmentStep::<D, K, R, U, C, M, S, P, E, B>::Failed(
                    StandardEnrollmentError::EnrollmentCancelled,
                ),
                Ok(IdentityMatchOutcome::TimedOut) => r
                    == StandardEnrollmentStep::<D, K, R, U, C, M, S, P, E, B>::Failed(
                    StandardEnrollmentError::EnrollmentTimedOut,
                ),
                Err(error) => r == StandardEnrollmentStep::<D, K, R, U, C, M, S, P, E, B>::Failed(
                    StandardEnrollmentError::DuplicateCheck(error),
                ),
            },
            standard_follows(
                StandardEnrollmentStep::<D, K, R, U, C, M, S, P, E, B>::CheckDuplicate(self),
                StandardAnswer::Checked(outcome),
                r,
            ),
    {
        match outcome {
            Ok(IdentityMatchOutcome::NoMatch) => StandardEnrollmentStep::Enroll(
                StandardCapture {
                    subject: self.subject,
                    catalog: self.catalog,
                    before: identity_ids(&self.identities),
                },
            ),
            Ok(IdentityMatchOutcome::Matched(_)) => StandardEnrollmentStep::Failed(
                StandardEnrollmentError::DuplicateIdentity,
            ),
            Ok(IdentityMatchOutcome::Cancelled) => StandardEnrollmentStep::Failed(
                StandardEnrollmentError::EnrollmentCancelled,
            ),
            Ok(IdentityMatchOutcome::TimedOut) => StandardEnrollmentStep::Failed(
                StandardEnrollmentError::EnrollmentTimedOut,
            ),
            Err(error) => StandardEnrollmentStep::Failed(
                StandardEnrollmentError::DuplicateCheck(error),
            ),
        }
    }
}

impl<'a, K> StandardCapture<'a, K> {
    /// The catalog that was reconciled with the committed metadata.
    pub closed spec fn labels(self) -> K {
        self.catalog
    }

    /// What the enrollment is asked for.
    pub closed spec fn whom(self) -> StandardSubject<'a> {
        self.subject
    }

    /// What the enrollment is asked for.
    pub fn subject(&self) -> (r: StandardSubject<'a>)
        ensures
            r == self.whom(),
    {
        self.subject
    }

    /// The identities before the enrollment.
    pub closed spec fn existing(self) -> Seq<IdentityId> {
        self.before@
    }

    /// Takes the captured identity, or that none was captured in time.
    pub fn ended<D, R, U, C, M, S, P, E, B>(self, outcome: Result<Option<IdentityIdentifier>, E>) -> (r:
        StandardEnrollmentStep<'a, D, K, R, U, C, M, S, P, E, B>)
        ensures
            match outcome {
                Ok(Some(identity)) => r is CloseCancellation && r->CloseCancellation_0.existing()
                    == self.existing() && r->CloseCancellation_0.captured() == identity,
                Ok(None) => r == StandardEnrollmentStep::<D, K, R, U, C, M, S, P, E, B>::Failed(
                    StandardEnrollmentError::EnrollmentTimedOut,
                ),
                Err(error) => r == StandardEnrollmentStep::<D, K, R, U, C, M, S, P, E, B>::Failed(
                    StandardEnrollmentError::Enrollment(error),
                ),
            },
            standard_follows(
                StandardEnrollmentStep::<D, K, R, U, C, M, S, P, E, B>::Enroll(self),
                StandardAnswer::Captured(outcome),
                r,
            ),
    {
        match outcome {
            Ok(Some(identity)) => StandardEnrollmentStep::CloseCancellation(
                StandardCutoff {
                    subject: self.subject,
                    catalog: self.catalog,
                    before: self.before,
                    identity,
                },
            ),
            Ok(None) => StandardEnrollmentStep::Failed(StandardEnrollmentError::EnrollmentTimedOut),
            Err(error) => StandardEnrollmentStep::Failed(
                StandardEnrollmentError::Enrollment(error),
            ),
        }
    }
}

impl<'a, K> StandardCutoff<'a, K> {
    /// The catalog that was reconciled with the committed metadata.
    pub closed spec fn labels(self) -> K {
        self.catalog
    }

    /// What the enrollment is asked for.
    pub closed spec fn whom(self) -> StandardSubject<'a> {
        self.subject
    }

    /// The identities before the enrollment.
    pub closed spec fn existing(self) -> Seq<IdentityId> {
        self.before@
    }

    /// The captured identity.
    pub closed spec fn captured(self) -> IdentityIdentifier {
        self.identity
    }

    /// Takes whether cancellation was closed: where it was not, one has arrived,
    /// and nothing is persisted.
    pub fn closed<D, R, U, C, M, S, P, E, B>(self, closed: bool) -> (r:
        StandardEnrollmentStep<'a, D, K, R, U, C, M, S, P, E, B>)
        ensures
            if closed {
                r is Label && r->Label_0.existing() == self.existing() && r->Label_0.captured()
                    == self.captured()
            } else {
                r == StandardEnrollmentStep::<D, K, R, U, C, M, S, P, E, B>::Failed(
                    StandardEnrollmentError::EnrollmentCancelled,
                )
            },
            standard_follows(
                StandardEnrollmentStep::<D, K, R, U, C, M, S, P, E, B>::CloseCancellation(self),
                StandardAnswer::Closed(closed),
                r,
            ),
    {
        if closed {
            StandardEnrollmentStep::Label(
                StandardLabeling {
                    subject: self.subject,
                    catalog: self.catalog,
                    before: self.before,
                    identity: self.identity,
                },
            )
        } else {
            StandardEnrollmentStep::Failed(StandardEnrollmentError::EnrollmentCancelled)
        }
    }
}

impl<'a, K> StandardLabeling<'a, K> {
    /// The catalog that was reconciled with the committed metadata.
    pub closed spec fn labels(self) -> K {
        self.catalog
    }

    /// What the enrollment is asked for.
    pub closed spec fn whom(self) -> StandardSubject<'a> {
        self.subject
    }

    /// The identities before the enrollment.
    pub closed spec fn existing(self) -> Seq<IdentityId> {
        self.before@
    }

    /// The captured identity.
    pub closed spec fn captured(self) -> IdentityIdentifier {
        self.identity
    }

    /// The catalog in which the identity is labeled.
    pub fn catalog(&self) -> (r: &K)
        ensures
            *r == self.labels(),
    {
        &self.catalog
    }

    /// The finger that the identity is labeled with.
    pub fn finger(&self) -> (r: FingerLabel)
        ensures
            r == self.whom().finger,
    {
        self.subject.finger
    }

    /// The identity to label.
    pub fn identity(&self) -> (r: IdentityId)
        ensures
            r.bytes == self.captured(),
    {
        IdentityId { bytes: self.identity }
    }

    /// Takes the next manifest, in which the identity is labeled, or why there is
    /// none.
    pub fn labeled<D, R, U, C, M, S, P, E, B>(self, outcome: Result<Vec<u8>, CatalogFault<C>>) -> (r:
        StandardEnrollmentStep<'a, D, K, R, U, C, M, S, P, E, B>)
        ensures
            match outcome {
                Ok(metadata) => r is Persist && r->Persist_0.existing() == self.existing()
                    && r->Persist_0.captured() == self.captured() && r->Persist_0.manifest()
                    == metadata@,
                Err(CatalogFault::InvalidIdentity) => r
                    == StandardEnrollmentStep::<D, K, R, U, C, M, S, P, E, B>::Failed(
                    StandardEnrollmentError::InvalidIdentity,
                ),
                Err(CatalogFault::Catalog(error)) => r
                    == StandardEnrollmentStep::<D, K, R, U, C, M, S, P, E, B>::Failed(
                    StandardEnrollmentError::Catalog(error),
                ),
            },
            standard_follows(
                StandardEnrollmentStep::<D, K, R, U, C, M, S, P, E, B>::Label(self),
                StandardAnswer::Labeled(outcome),
                r,
            ),
    {
        match outcome {
            Ok(metadata) => StandardEnrollmentStep::Persist(
                StandardPersistence {
                    subject: self.subject,
                    before: self.before,
                    identity: self.identity,
                    metadata,
                },
            ),
            Err(CatalogFault::InvalidIdentity) => StandardEnrollmentStep::Failed(
                StandardEnrollmentError::InvalidIdentity,
            ),
            Err(CatalogFault::Catalog(error)) => StandardEnrollmentStep::Failed(
                StandardEnrollmentError::Catalog(error),
            ),
        }
    }
}

impl<'a> StandardPersistence<'a> {
    /// What the enrollment is asked for.
    pub closed spec fn whom(self) -> StandardSubject<'a> {
        self.subject
    }

    /// What the enrollment is asked for.
    pub fn subject(&self) -> (r: StandardSubject<'a>)
        ensures
            r == self.whom(),
    {
        self.subject
    }

    /// The identities before the enrollment.
    pub closed spec fn existing(self) -> Seq<IdentityId> {
        self.before@
    }

    /// The captured identity.
    pub closed spec fn captured(self) -> IdentityIdentifier {
        self.identity
    }

    /// The manifest that is stored with the pair.
    pub closed spec fn manifest(self) -> Seq<u8> {
        self.metadata@
    }

    /// The manifest that is stored with the pair.
    pub fn metadata(&self) -> (r: &[u8])
        ensures
            r@ == self.manifest(),
    {
        self.metadata.as_slice()
    }

    /// Takes the promoted pair's sizes.
    pub fn persisted<D, K, R, U, C, M, S, P, E, B>(self, outcome: Result<CatacombBackup, B>) -> (r:
        StandardEnrollmentStep<'a, D, K, R, U, C, M, S, P, E, B>)
        ensures
            match outcome {
                Ok(catacombs) => r is Verify && r->Verify_0.existing() == self.existing()
                    && r->Verify_0.captured() == self.captured() && r->Verify_0.promoted()
                    == catacombs,
                Err(error) => r == StandardEnrollmentStep::<D, K, R, U, C, M, S, P, E, B>::Failed(
                    StandardEnrollmentError::Persistence(error),
                ),
            },
            standard_follows(
                StandardEnrollmentStep::<D, K, R, U, C, M, S, P, E, B>::Persist(self),
                StandardAnswer::Persisted(outcome),
                r,
            ),
    {
        match outcome {
            Ok(catacombs) => StandardEnrollmentStep::Verify(
                StandardVerification {
                    subject: self.subject,
                    before: self.before,
                    identity: self.identity,
                    catacombs,
                },
            ),
            Err(error) => StandardEnrollmentStep::Failed(
                StandardEnrollmentError::Persistence(error),
            ),
        }
    }
}

impl<'a> StandardVerification<'a> {
    /// What the enrollment is asked for.
    pub closed spec fn whom(self) -> StandardSubject<'a> {
        self.subject
    }

    /// What the enrollment is asked for.
    pub fn subject(&self) -> (r: StandardSubject<'a>)
        ensures
            r == self.whom(),
    {
        self.subject
    }

    /// The identities before the enrollment.
    pub closed spec fn existing(self) -> Seq<IdentityId> {
        self.before@
    }

    /// The captured identity.
    pub closed spec fn captured(self) -> IdentityIdentifier {
        self.identity
    }

    /// The promoted pair's sizes.
    pub closed spec fn promoted(self) -> CatacombBackup {
        self.catacombs
    }

    /// The identities that have to be there after the commit.
    pub open spec fn expected(self) -> Seq<IdentityId> {
        self.existing().push(IdentityId { bytes: self.captured() })
    }

    /// Takes the identities after the commit, and whether their identifiers are
    /// all valid: they have to be exactly the ones before and the captured one.
    pub fn listed<R, U, C, M, S, P, E, B>(
        self,
        identities: Result<Vec<Identity>, U>,
        all_valid: bool,
    ) -> (r: Result<
        StandardEnrollmentSuccess,
        StandardEnrollmentError<R, U, C, M, S, P, E, B>,
    >)
        ensures
            r == match identities {
                Err(error) => Err::<
                    StandardEnrollmentSuccess,
                    StandardEnrollmentError<R, U, C, M, S, P, E, B>,
                >(StandardEnrollmentError::PostCommitIdentityVerification(error)),
                Ok(identities) => if !all_valid {
                    Err(StandardEnrollmentError::InvalidIdentity)
                } else if is_same_identity_set(self.expected(), ids_of(identities@)) {
                    Ok(
                        StandardEnrollmentSuccess {
                            identity: IdentityId { bytes: self.captured() },
                            catacombs: self.promoted(),
                        },
                    )
                } else {
                    Err(StandardEnrollmentError::PostCommitIdentitySetChanged)
                },
            },
    {
        let identities = match identities {
            Ok(identities) => identities,
            Err(error) => {
                return Err(StandardEnrollmentError::PostCommitIdentityVerification(error));
            },
        };
        if !all_valid {
            return Err(StandardEnrollmentError::InvalidIdentity);
        }
        let identity = IdentityId { bytes: self.identity };
        let mut expected = self.before;
        expected.push(identity);
        let committed = identity_ids(&identities);
        if !same_identity_set(&expected, &committed) {
            return Err(StandardEnrollmentError::PostCommitIdentitySetChanged);
        }
        Ok(StandardEnrollmentSuccess { identity, catacombs: self.catacombs })
    }
}

/// One answer to the work that a standard enrollment asks for.
pub enum StandardAnswer<K, R, U, C, M, S, P, E, B> {
    Restored(Result<Vec<Identity>, R>),
    Identities(Result<Vec<Identity>, U>),
    States(Result<Vec<CatacombStateEntry>, U>),
    Reconciled(Result<K, CatalogFault<C>>),
    SystemEnabled(Result<(), S>),
    UserEnabled(Result<(), P>),
    Presented,
    Checked(Result<IdentityMatchOutcome, M>),
    Captured(Result<Option<IdentityIdentifier>, E>),
    Closed(bool),
    Labeled(Result<Vec<u8>, CatalogFault<C>>),
    Persisted(Result<CatacombBackup, B>),
}

/// The step that follows `step` on `answer`, where the answer is of the kind
/// that the step asks for.
pub open spec fn standard_follows<'a, D, K, R, U, C, M, S, P, E, B>(
    step: StandardEnrollmentStep<'a, D, K, R, U, C, M, S, P, E, B>,
    answer: StandardAnswer<K, R, U, C, M, S, P, E, B>,
    next: StandardEnrollmentStep<'a, D, K, R, U, C, M, S, P, E, B>,
) -> bool {
    &&& next is Failed || step_subject(next) == step_subject(step)
    &&& committed_to(next) is Some ==> committed_to(next) == committed_to(step)
    &&& catalog_of(next) is Some && !(step is Reconcile) ==> catalog_of(next) == catalog_of(step)
    &&& match (step, answer) {
        (StandardEnrollmentStep::RestoreUser(pending), StandardAnswer::Restored(Ok(identities))) =>
            identities_known(pending.whom(), pending.metadata(), identities@, next),
        (StandardEnrollmentStep::PrepareUser(_), StandardAnswer::Identities(Ok(identities))) => next
            is ReadStates && next->ReadStates_0.found() == identities@
            && !next->ReadStates_0.was_rebound(),
        (StandardEnrollmentStep::ReadStates(pending), StandardAnswer::States(Ok(states))) =>
            if shows_secure(states@, pending.whom().user_id) {
                identities_known(pending.whom(), pending.metadata(), pending.found(), next)
            } else if pending.was_rebound() {
                next is Failed
            } else {
                next is Rebind
            },
        (StandardEnrollmentStep::Rebind(_), StandardAnswer::Identities(Ok(identities))) => next
            is ReadStates && next->ReadStates_0.found() == identities@
            && next->ReadStates_0.was_rebound(),
        (StandardEnrollmentStep::Reconcile(pending), StandardAnswer::Reconciled(Ok(catalog))) =>
            next is EnableSystem && next->EnableSystem_0.found() == pending.found()
                && next->EnableSystem_0.labels() == catalog,
        (StandardEnrollmentStep::EnableSystem(pending), StandardAnswer::SystemEnabled(Ok(()))) =>
            next is EnableUser && next->EnableUser_0.found() == pending.found(),
        (StandardEnrollmentStep::EnableUser(pending), StandardAnswer::UserEnabled(Ok(()))) => next
            is Present && next->Present_0.found() == pending.found(),
        (StandardEnrollmentStep::Present(pending), StandardAnswer::Presented) =>
            if pending.found().len() == 0 {
                next is Enroll && next->Enroll_0.existing() == ids_of(pending.found())
            } else {
                next is CheckDuplicate && next->CheckDuplicate_0.found() == pending.found()
            },
        (
            StandardEnrollmentStep::CheckDuplicate(pending),
            StandardAnswer::Checked(Ok(IdentityMatchOutcome::NoMatch)),
        ) => next is Enroll && next->Enroll_0.existing() == pending.existing(),
        (StandardEnrollmentStep::Enroll(pending), StandardAnswer::Captured(Ok(Some(identity)))) =>
            next is CloseCancellation && next->CloseCancellation_0.existing() == pending.existing()
                && next->CloseCancellation_0.captured() == identity,
        (StandardEnrollmentStep::CloseCancellation(pending), StandardAnswer::Closed(true)) => next
            is Label && next->Label_0.existing() == pending.existing()
            && next->Label_0.captured() == pending.captured(),
        (StandardEnrollmentStep::Label(pending), StandardAnswer::Labeled(Ok(metadata))) => next
            is Persist && next->Persist_0.manifest() == metadata@
            && next->Persist_0.existing() == pending.existing()
            && next->Persist_0.captured() == pending.captured(),
        (StandardEnrollmentStep::Persist(pending), StandardAnswer::Persisted(Ok(catacombs))) => next
            is Verify && next->Verify_0.existing() == pending.existing()
            && next->Verify_0.captured() == pending.captured()
            && next->Verify_0.promoted() == catacombs,
        (StandardEnrollmentStep::RestoreUser(_), StandardAnswer::Restored(Err(_)))
        | (StandardEnrollmentStep::PrepareUser(_), StandardAnswer::Identities(Err(_)))
        | (StandardEnrollmentStep::ReadStates(_), StandardAnswer::States(Err(_)))
        | (StandardEnrollmentStep::Rebind(_), StandardAnswer::Identities(Err(_)))
        | (StandardEnrollmentStep::Reconcile(_), StandardAnswer::Reconciled(Err(_)))
        | (StandardEnrollmentStep::EnableSystem(_), StandardAnswer::SystemEnabled(Err(_)))
        | (StandardEnrollmentStep::EnableUser(_), StandardAnswer::UserEnabled(Err(_)))
        | (StandardEnrollmentStep::CheckDuplicate(_), StandardAnswer::Checked(_))
        | (StandardEnrollmentStep::Enroll(_), StandardAnswer::Captured(_))
        | (StandardEnrollmentStep::CloseCancellation(_), StandardAnswer::Closed(false))
        | (StandardEnrollmentStep::Label(_), StandardAnswer::Labeled(Err(_)))
        | (StandardEnrollmentStep::Persist(_), StandardAnswer::Persisted(Err(_))) => next is Failed,
        _ => false,
    }
}

/// A run of a standard enrollment, up to its verification.
pub open spec fn is_standard_run<'a, D, K, R, U, C, M, S, P, E, B>(
    subject: StandardSubject<'a>,
    committed: Option<D>,
    has_active_pair: bool,
    steps: Seq<StandardEnrollmentStep<'a, D, K, R, U, C, M, S, P, E, B>>,
    answers: Seq<StandardAnswer<K, R, U, C, M, S, P, E, B>>,
) -> bool {
    &&& steps.len() == answers.len() + 1
    &&& standard_begins(subject, committed, has_active_pair, steps[0])
    &&& forall|k: int|
        0 <= k < answers.len() ==> standard_follows(#[trigger] steps[k], answers[k], steps[k + 1])
}

/// Nothing is persisted before the sensor captured the identity, cancellation was
/// closed and the identity was labeled in the manifest that is stored; and where
/// there were identities before, the finger was first found to match none of them.
pub proof fn law_standard_enrollments_persist_no_duplicate<'a, D, K, R, U, C, M, S, P, E, B>(
    subject: StandardSubject<'a>,
    committed: Option<D>,
    has_active_pair: bool,
    steps: Seq<StandardEnrollmentStep<'a, D, K, R, U, C, M, S, P, E, B>>,
    answers: Seq<StandardAnswer<K, R, U, C, M, S, P, E, B>>,
    k: int,
)
    requires
        is_standard_run(subject, committed, has_active_pair, steps, answers),
        0 <= k < steps.len(),
        steps[k] is Persist,
    ensures
        k > 4,
        answers[k - 1] matches StandardAnswer::Labeled(Ok(metadata)) && metadata@
            == steps[k]->Persist_0.manifest(),
        answers[k - 2] == StandardAnswer::<K, R, U, C, M, S, P, E, B>::Closed(true),
        answers[k - 3] == StandardAnswer::<K, R, U, C, M, S, P, E, B>::Captured(
            Ok(Some(steps[k]->Persist_0.captured())),
        ),
        steps[k]->Persist_0.existing().len() == 0 || answers[k - 4] == StandardAnswer::<
            K,
            R,
            U,
            C,
            M,
            S,
            P,
            E,
            B,
        >::Checked(Ok(IdentityMatchOutcome::NoMatch)),
{
    assert(k > 0);
    assert(standard_follows(steps[k - 1], answers[k - 1], steps[k - 1 + 1]));
    assert(steps[k - 1] is Label);
    assert(standard_follows(steps[k - 2], answers[k - 2], steps[k - 2 + 1]));
    assert(steps[k - 2] is CloseCancellation);
    assert(standard_follows(steps[k - 3], answers[k - 3], steps[k - 3 + 1]));
    assert(steps[k - 3] is Enroll);
    assert(standard_follows(steps[k - 4], answers[k - 4], steps[k - 4 + 1]));
    assert(steps[k - 4] is CheckDuplicate || steps[k - 4] is Present);
}

/// A standard enrollment is verified only for the identity that the sensor captured,
/// after its pair was promoted together with the manifest in which it was labeled.
/// Before that there was room for one more identity, and the finger matched none of
/// those there were. The sizes that it reports are the promoted pair's.
pub proof fn law_standard_enrollments_verify_what_was_promoted<'a, D, K, R, U, C, M, S, P, E, B>(
    subject: StandardSubject<'a>,
    committed: Option<D>,
    has_active_pair: bool,
    steps: Seq<StandardEnrollmentStep<'a, D, K, R, U, C, M, S, P, E, B>>,
    answers: Seq<StandardAnswer<K, R, U, C, M, S, P, E, B>>,
    k: int,
)
    requires
        is_standard_run(subject, committed, has_active_pair, steps, answers),
        0 <= k < steps.len(),
        steps[k] is Verify,
    ensures
        k > 5,
        answers[k - 1] == StandardAnswer::<K, R, U, C, M, S, P, E, B>::Persisted(
            Ok(steps[k]->Verify_0.promoted()),
        ),
        answers[k - 2] matches StandardAnswer::Labeled(Ok(_)),
        answers[k - 3] == StandardAnswer::<K, R, U, C, M, S, P, E, B>::Closed(true),
        answers[k - 4] == StandardAnswer::<K, R, U, C, M, S, P, E, B>::Captured(
            Ok(Some(steps[k]->Verify_0.captured())),
        ),
        steps[k]->Verify_0.existing().len() == 0 || answers[k - 5] == StandardAnswer::<
            K,
            R,
            U,
            C,
            M,
            S,
            P,
            E,
            B,
        >::Checked(Ok(IdentityMatchOutcome::NoMatch)),
        steps[k]->Verify_0.existing().len() < MAX_OWNER_IDENTITIES,
{
    assert(k > 0);
    assert(standard_follows(steps[k - 1], answers[k - 1], steps[k - 1 + 1]));
    assert(steps[k - 1] is Persist);
    law_standard_enrollments_persist_no_duplicate(
        subject,
        committed,
        has_active_pair,
        steps,
        answers,
        k - 1,
    );
    law_standard_enrollments_keep_what_was_reconciled(
        subject,
        committed,
        has_active_pair,
        steps,
        answers,
        k,
    );
}

/// What a step's enrollment is asked for; an enrollment that has failed
/// carries none.
pub open spec fn step_subject<'a, D, K, R, U, C, M, S, P, E, B>(
    step: StandardEnrollmentStep<'a, D, K, R, U, C, M, S, P, E, B>,
) -> Option<StandardSubject<'a>> {
    match step {
        StandardEnrollmentStep::RestoreUser(pending) => Some(pending.whom()),
        StandardEnrollmentStep::PrepareUser(pending) => Some(pending.whom()),
        StandardEnrollmentStep::ReadStates(pending) => Some(pending.whom()),
        StandardEnrollmentStep::Rebind(pending) => Some(pending.whom()),
        StandardEnrollmentStep::Reconcile(pending) => Some(pending.whom()),
        StandardEnrollmentStep::EnableSystem(pending) => Some(pending.whom()),
        StandardEnrollmentStep::EnableUser(pending) => Some(pending.whom()),
        StandardEnrollmentStep::Present(pending) => Some(pending.whom()),
        StandardEnrollmentStep::CheckDuplicate(pending) => Some(pending.whom()),
        StandardEnrollmentStep::Enroll(pending) => Some(pending.whom()),
        StandardEnrollmentStep::CloseCancellation(pending) => Some(pending.whom()),
        StandardEnrollmentStep::Label(pending) => Some(pending.whom()),
        StandardEnrollmentStep::Persist(pending) => Some(pending.whom()),
        StandardEnrollmentStep::Verify(pending) => Some(pending.whom()),
        StandardEnrollmentStep::Failed(_) => None,
    }
}

/// Every step of a standard enrollment is about the user, the owner and the finger
/// that it began with, and every command that needs a credential carries the one that
/// it began with.
pub proof fn law_standard_enrollments_keep_their_user<'a, D, K, R, U, C, M, S, P, E, B>(
    subject: StandardSubject<'a>,
    committed: Option<D>,
    has_active_pair: bool,
    steps: Seq<StandardEnrollmentStep<'a, D, K, R, U, C, M, S, P, E, B>>,
    answers: Seq<StandardAnswer<K, R, U, C, M, S, P, E, B>>,
    k: int,
)
    requires
        is_standard_run(subject, committed, has_active_pair, steps, answers),
        0 <= k < steps.len(),
    ensures
        steps[k] is Failed || step_subject(steps[k]) == Some(subject),
    decreases k,
{
    if k > 0 {
        law_standard_enrollments_keep_their_user(
            subject,
            committed,
            has_active_pair,
            steps,
            answers,
            k - 1,
        );
        assert(standard_follows(steps[k - 1], answers[k - 1], steps[k - 1 + 1]));
    }
}

/// The committed metadata that a step carries, up to the reconciliation.
pub open spec fn committed_to<'a, D, K, R, U, C, M, S, P, E, B>(
    step: StandardEnrollmentStep<'a, D, K, R, U, C, M, S, P, E, B>,
) -> Option<Option<D>> {
    match step {
        StandardEnrollmentStep::RestoreUser(pending) => Some(pending.metadata()),
        StandardEnrollmentStep::PrepareUser(pending) => Some(pending.metadata()),
        StandardEnrollmentStep::ReadStates(pending) => Some(pending.metadata()),
        StandardEnrollmentStep::Rebind(pending) => Some(pending.metadata()),
        StandardEnrollmentStep::Reconcile(pending) => Some(pending.metadata()),
        _ => None,
    }
}

/// The catalog that a step carries, from the reconciliation up to the label.
pub open spec fn catalog_of<'a, D, K, R, U, C, M, S, P, E, B>(
    step: StandardEnrollmentStep<'a, D, K, R, U, C, M, S, P, E, B>,
) -> Option<K> {
    match step {
        StandardEnrollmentStep::EnableSystem(pending) => Some(pending.labels()),
        StandardEnrollmentStep::EnableUser(pending) => Some(pending.labels()),
        StandardEnrollmentStep::Present(pending) => Some(pending.labels()),
        StandardEnrollmentStep::CheckDuplicate(pending) => Some(pending.labels()),
        StandardEnrollmentStep::Enroll(pending) => Some(pending.labels()),
        StandardEnrollmentStep::CloseCancellation(pending) => Some(pending.labels()),
        StandardEnrollmentStep::Label(pending) => Some(pending.labels()),
        _ => None,
    }
}

/// The identities are reconciled with the committed metadata that the enrollment
/// began with, and the new identity is labeled in the catalog that this
/// reconciliation gave.
pub proof fn law_standard_enrollments_label_what_was_reconciled<'a, D, K, R, U, C, M, S, P, E, B>(
    subject: StandardSubject<'a>,
    committed: Option<D>,
    has_active_pair: bool,
    steps: Seq<StandardEnrollmentStep<'a, D, K, R, U, C, M, S, P, E, B>>,
    answers: Seq<StandardAnswer<K, R, U, C, M, S, P, E, B>>,
    k: int,
)
    requires
        is_standard_run(subject, committed, has_active_pair, steps, answers),
        0 <= k < steps.len(),
    ensures
        committed_to(steps[k]) is Some ==> committed_to(steps[k]) == Some(committed),
        catalog_of(steps[k]) is Some ==> exists|j: int|
            0 <= j < k && (#[trigger] steps[j]) is Reconcile && answers[j] == StandardAnswer::<
                K,
                R,
                U,
                C,
                M,
                S,
                P,
                E,
                B,
            >::Reconciled(Ok(catalog_of(steps[k])->0)),
    decreases k,
{
    if k > 0 {
        law_standard_enrollments_label_what_was_reconciled(
            subject,
            committed,
            has_active_pair,
            steps,
            answers,
            k - 1,
        );
        assert(standard_follows(steps[k - 1], answers[k - 1], steps[k - 1 + 1]));
        if catalog_of(steps[k]) is Some && !(steps[k - 1] is Reconcile) {
            assert(catalog_of(steps[k]) == catalog_of(steps[k - 1]));
        }
    }
}

/// What the catalog answers: `reconcile` gives the catalog of an owner's committed
/// metadata and the identities, and `label` the next manifest, in which one more
/// identity is labeled with a finger.
pub open spec fn is_catalogs_answer<'a, D, K, R, U, C, M, S, P, E, B>(
    reconcile: spec_fn(Option<D>, Seq<char>, Seq<IdentityId>) -> Option<K>,
    label: spec_fn(K, IdentityId, FingerLabel) -> Option<Seq<u8>>,
    step: StandardEnrollmentStep<'a, D, K, R, U, C, M, S, P, E, B>,
    answer: StandardAnswer<K, R, U, C, M, S, P, E, B>,
) -> bool {
    match (step, answer) {
        (StandardEnrollmentStep::Reconcile(pending), StandardAnswer::Reconciled(Ok(catalog))) =>
            reconcile(pending.metadata(), pending.whom().owner@, pending.existing()) == Some(
                catalog,
            ),
        (StandardEnrollmentStep::Label(pending), StandardAnswer::Labeled(Ok(manifest))) => label(
            pending.labels(),
            IdentityId { bytes: pending.captured() },
            pending.whom().finger,
        ) == Some(manifest@),
        _ => true,
    }
}

/// The manifest that is stored is the catalog's answer to what the enrollment was
/// asked for: the owner's committed metadata is reconciled with the identities before
/// the enrollment, and in the catalog that this gives exactly the captured identity
/// is labeled, with the finger asked for.
pub proof fn law_stored_manifests_label_the_finger_asked_for<'a, D, K, R, U, C, M, S, P, E, B>(
    reconcile: spec_fn(Option<D>, Seq<char>, Seq<IdentityId>) -> Option<K>,
    label: spec_fn(K, IdentityId, FingerLabel) -> Option<Seq<u8>>,
    subject: StandardSubject<'a>,
    committed: Option<D>,
    has_active_pair: bool,
    steps: Seq<StandardEnrollmentStep<'a, D, K, R, U, C, M, S, P, E, B>>,
    answers: Seq<StandardAnswer<K, R, U, C, M, S, P, E, B>>,
    k: int,
)
    requires
        is_standard_run(subject, committed, has_active_pair, steps, answers),
        forall|j: int|
            0 <= j < answers.len() ==> is_catalogs_answer(
                reconcile,
                label,
                #[trigger] steps[j],
                answers[j],
            ),
        0 <= k < steps.len(),
        steps[k] is Persist,
    ensures
        ({
            let stored = steps[k]->Persist_0;
            let catalog = reconcile(committed, subject.owner@, stored.existing());
            &&& catalog is Some
            &&& label(catalog->0, IdentityId { bytes: stored.captured() }, subject.finger) == Some(
                stored.manifest(),
            )
        }),
{
    assert(k > 0);
    assert(standard_follows(steps[k - 1], answers[k - 1], steps[k - 1 + 1]));
    assert(steps[k - 1] is Label);
    assert(is_catalogs_answer(reconcile, label, steps[k - 1], answers[k - 1]));
    law_standard_enrollments_keep_their_user(
        subject,
        committed,
        has_active_pair,
        steps,
        answers,
        k - 1,
    );
    lemma_catalogs_are_of_the_owner(
        reconcile,
        label,
        subject,
        committed,
        has_active_pair,
        steps,
        answers,
        k - 1,
    );
}

proof fn lemma_catalogs_are_of_the_owner<'a, D, K, R, U, C, M, S, P, E, B>(
    reconcile: spec_fn(Option<D>, Seq<char>, Seq<IdentityId>) -> Option<K>,
    label: spec_fn(K, IdentityId, FingerLabel) -> Option<Seq<u8>>,
    subject: StandardSubject<'a>,
    committed: Option<D>,
    has_active_pair: bool,
    steps: Seq<StandardEnrollmentStep<'a, D, K, R, U, C, M, S, P, E, B>>,
    answers: Seq<StandardAnswer<K, R, U, C, M, S, P, E, B>>,
    k: int,
)
    requires
        is_standard_run(subject, committed, has_active_pair, steps, answers),
        forall|j: int|
            0 <= j < answers.len() ==> is_catalogs_answer(
                reconcile,
                label,
                #[trigger] steps[j],
                answers[j],
            ),
        0 <= k < steps.len(),
        catalog_of(steps[k]) is Some,
    ensures
        carried(steps[k]) is Some,
        reconcile(committed, subject.owner@, carried(steps[k])->0) == catalog_of(steps[k]),
    decreases k,
{
    assert(k > 0);
    assert(standard_follows(steps[k - 1], answers[k - 1], steps[k - 1 + 1]));
    if steps[k - 1] is Reconcile {
        assert(is_catalogs_answer(reconcile, label, steps[k - 1], answers[k - 1]));
        law_standard_enrollments_keep_their_user(
            subject,
            committed,
            has_active_pair,
            steps,
            answers,
            k - 1,
        );
        law_standard_enrollments_label_what_was_reconciled(
            subject,
            committed,
            has_active_pair,
            steps,
            answers,
            k - 1,
        );
    } else {
        lemma_catalogs_are_of_the_owner(
            reconcile,
            label,
            subject,
            committed,
            has_active_pair,
            steps,
            answers,
            k - 1,
        );
    }
}

/// The identities that an enrollment started from: from the reconciliation on,
/// every step carries those that were reconciled with the committed metadata, and
/// they leave room for one more.
pub proof fn law_standard_enrollments_keep_what_was_reconciled<'a, D, K, R, U, C, M, S, P, E, B>(
    subject: StandardSubject<'a>,
    committed: Option<D>,
    has_active_pair: bool,
    steps: Seq<StandardEnrollmentStep<'a, D, K, R, U, C, M, S, P, E, B>>,
    answers: Seq<StandardAnswer<K, R, U, C, M, S, P, E, B>>,
    k: int,
)
    requires
        is_standard_run(subject, committed, has_active_pair, steps, answers),
        0 <= k < steps.len(),
        carried(steps[k]) is Some,
    ensures
        carried(steps[k])->0.len() < MAX_OWNER_IDENTITIES,
        exists|j: int|
            0 <= j <= k && (#[trigger] steps[j]) is Reconcile && carried(steps[j]) == carried(
                steps[k],
            ) && (j < k ==> answers[j] matches StandardAnswer::Reconciled(Ok(_))),
    decreases k,
{
    assert(k > 0);
    assert(standard_follows(steps[k - 1], answers[k - 1], steps[k - 1 + 1]));
    if steps[k] is Reconcile {
        assert(carried(steps[k]) is Some);
    } else {
        assert(carried(steps[k - 1]) == carried(steps[k]));
        law_standard_enrollments_keep_what_was_reconciled(
            subject,
            committed,
            has_active_pair,
            steps,
            answers,
            k - 1,
        );
        let j = choose|j: int|
            0 <= j <= k - 1 && (#[trigger] steps[j]) is Reconcile && carried(steps[j]) == carried(
                steps[k - 1],
            ) && (j < k - 1 ==> answers[j] matches StandardAnswer::Reconciled(Ok(_)));
        assert(steps[j] is Reconcile);
        if j == k - 1 {
            assert(answers[j] matches StandardAnswer::Reconciled(Ok(_)));
        }
    }
}

/// The identities before the enrollment that a step carries, from the
/// reconciliation on.
pub open spec fn carried<'a, D, K, R, U, C, M, S, P, E, B>(
    step: StandardEnrollmentStep<'a, D, K, R, U, C, M, S, P, E, B>,
) -> Option<Seq<IdentityId>> {
    match step {
        StandardEnrollmentStep::Reconcile(pending) => Some(pending.existing()),
        StandardEnrollmentStep::EnableSystem(pending) => Some(pending.existing()),
        StandardEnrollmentStep::EnableUser(pending) => Some(pending.existing()),
        StandardEnrollmentStep::Present(pending) => Some(ids_of(pending.found())),
        StandardEnrollmentStep::CheckDuplicate(pending) => Some(pending.existing()),
        StandardEnrollmentStep::Enroll(pending) => Some(pending.existing()),
        StandardEnrollmentStep::CloseCancellation(pending) => Some(pending.existing()),
        StandardEnrollmentStep::Label(pending) => Some(pending.existing()),
        StandardEnrollmentStep::Persist(pending) => Some(pending.existing()),
        StandardEnrollmentStep::Verify(pending) => Some(pending.existing()),
        _ => None,
    }
}

/// Turns raw sensor progress into stages, without repeating one.
#[derive(Clone, Copy, Debug, PartialEq, Eq, Structural)]
pub struct StandardProgressNormalizer {
    last: Option<u8>,
}

/// The stage that a raw value stands for: none outside the sensor's range, and
/// none at its beginning.
pub open spec fn stage_of(raw: u64) -> Option<u8> {
    if raw < RAW_PROGRESS_MIN || raw > RAW_PROGRESS_MAX {
        None
    } else {
        let completed = (raw - RAW_PROGRESS_MIN) * 100 / (RAW_PROGRESS_MAX - RAW_PROGRESS_MIN);
        if completed == 0 {
            None
        } else {
            Some(completed as u8)
        }
    }
}

impl Default for StandardProgressNormalizer {
    fn default() -> (r: StandardProgressNormalizer)
        ensures
            r.reported() is None,
    {
        StandardProgressNormalizer { last: None }
    }
}

impl StandardProgressNormalizer {
    /// The stage that was reported last.
    pub closed spec fn reported(self) -> Option<u8> {
        self.last
    }

    /// Reports the stage that `raw` stands for, unless it was reported last.
    pub fn normalize(&mut self, raw: u64) -> (r: Option<EnrollProgress>)
        ensures
            r == match stage_of(raw) {
                Some(stage) => if old(self).reported() == Some(stage) {
                    None
                } else {
                    Some(
                        EnrollProgress {
                            completed_stage: stage,
                            total_stages: STANDARD_PROGRESS_TOTAL,
                        },
                    )
                },
                None => None,
            },
            final(self).reported() == match stage_of(raw) {
                Some(stage) => Some(stage),
                None => old(self).reported(),
            },
    {
        if raw < RAW_PROGRESS_MIN || raw > RAW_PROGRESS_MAX {
            return None;
        }
        let scaled: u64 = (raw - RAW_PROGRESS_MIN) * 100 / (RAW_PROGRESS_MAX - RAW_PROGRESS_MIN);
        let ghost product = (raw - RAW_PROGRESS_MIN) * 100;
        assert(product / 255 <= 100) by (nonlinear_arith)
            requires
                product <= 25_500,
        ;
        let completed: u8 = scaled as u8;
        if completed == 0 {
            return None;
        }
        if let Some(last) = self.last {
            if last == completed {
                return None;
            }
        }
        self.last = Some(completed);
        Some(
            EnrollProgress { completed_stage: completed, total_stages: STANDARD_PROGRESS_TOTAL },
        )
    }
}

/// Stages lie between 1 and 100, grow with the raw value, and reach 100 at the
/// top of the sensor's range and only there.
pub proof fn law_stages_grow_to_completion(low: u64, high: u64)
    requires
        low <= high,
    ensures
        stage_of(low) matches Some(stage) ==> 1 <= stage && stage <= STANDARD_PROGRESS_TOTAL,
        stage_of(low) is Some && stage_of(high) is Some ==> stage_of(low)->0 <= stage_of(high)->0,
        stage_of(low) == Some(STANDARD_PROGRESS_TOTAL) <==> low == RAW_PROGRESS_MAX,
{
    if RAW_PROGRESS_MIN <= low && high <= RAW_PROGRESS_MAX {
        assert((low - RAW_PROGRESS_MIN) * 100 <= (high - RAW_PROGRESS_MIN) * 100);
    }
}

} // verus!
