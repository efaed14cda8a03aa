//! Inner Touch ID authentication operation.
//!
//! Calibration is made live first. With a durable pair, a structurally valid
//! credential is required, the store is read completely before live state
//! changes, the user's policy is reasserted, and then live identities are
//! confirmed or the durable pair is restored. Without one, the live user is
//! prepared. Matching comes last.

use crate::biometric::{
    CredentialedUser, Identity, IdentityMatchOutcome, MatchOutcome,
    ACM_CONTEXT_EXTERNAL_FORM_SIZE, IDENTIFIER_SIZE, IDENTITY_V1_SIZE,
};
use crate::catacomb_restore::{
    first_restore_step, restore_catacomb_pair, restore_catacomb_pair_for_enrollment,
    CatacombRestoreError, RestoreRequest, RestoreStep, RestoredCatacomb,
};
use crate::catacomb_store::{CatacombPair, CatacombStoreError};
use vstd::prelude::*;

verus! {

/// An inner authentication failure.
#[derive(PartialEq, Eq)]
pub enum AuthenticationOperationError<
    CalibrationError,
    PolicyError,
    RestoreError,
    UserError,
    MatchError,
> {
    /// Calibration validation or loading failed.
    Calibration(CalibrationError),
    /// A durable restore was requested without its caller-owned credential.
    MissingCredential,
    /// The supplied credential had an invalid length.
    Credential { actual: usize },
    /// The durable pair failed validation before policy or catacomb mutation.
    Store(CatacombStoreError),
    /// Reasserting the current per-user policy failed.
    Policy(PolicyError),
    /// Restoring or validating the durable pair failed.
    Restore(RestoreError),
    /// Selecting and preparing the already-live user failed.
    User(UserError),
    /// Starting, observing or cancelling fingerprint matching failed.
    Match(MatchError),
}

impl<C, P, R, U, M> AuthenticationOperationError<C, P, R, U, M> {
    /// A fixed message of a failure that carries no text of another module's.
    pub fn message(&self) -> (message: Option<&'static str>)
        ensures
            match *self {
                AuthenticationOperationError::MissingCredential => message is Some && message->0@
                    == "durable authentication requires an ACM credential"@,
                AuthenticationOperationError::Store(error) => message is Some && message->0@
                    == error.text(),
                _ => message is None,
            },
    {
        match self {
            AuthenticationOperationError::MissingCredential => Some(
                "durable authentication requires an ACM credential",
            ),
            AuthenticationOperationError::Store(error) => Some(error.message()),
            _ => None,
        }
    }
}

/// A validated identity set and whether it was restored during the current
/// transport lease.
///
/// Sensor matching must use a fresh lease after a restore: the sensor can accept
/// a match while withholding its callbacks when restore and matching share the
/// first lease after boot.
pub struct PreparedAuthenticationUser {
    user_id: u32,
    identities: Vec<Identity>,
    restored_in_this_lease: bool,
}

impl PreparedAuthenticationUser {
    /// The user.
    pub closed spec fn user(self) -> u32 {
        self.user_id
    }

    /// The identities.
    pub closed spec fn members(self) -> Seq<Identity> {
        self.identities@
    }

    /// Whether durable state became live during this lease.
    pub closed spec fn was_restored(self) -> bool {
        self.restored_in_this_lease
    }

    /// The validated identities that may be passed to matching or mutation.
    pub fn identities(&self) -> (r: &[Identity])
        ensures
            r@ == self.members(),
    {
        self.identities.as_slice()
    }

    /// Whether durable state became live during this lease.
    pub fn restored_in_this_lease(&self) -> (r: bool)
        ensures
            r == self.was_restored(),
    {
        self.restored_in_this_lease
    }
}

/// Why a credential was refused.
#[derive(Clone, Copy, Debug, PartialEq, Eq, Structural)]
pub enum CredentialFault {
    Missing,
    InvalidLength { actual: usize },
}

/// What a credential means for a durable restore.
pub open spec fn credential_outcome(credential: Option<Seq<u8>>) -> Result<(), CredentialFault> {
    match credential {
        None => Err(CredentialFault::Missing),
        Some(credential) => if credential.len() == ACM_CONTEXT_EXTERNAL_FORM_SIZE {
            Ok(())
        } else {
            Err(CredentialFault::InvalidLength { actual: credential.len() as usize })
        },
    }
}

/// Accepts a credential of the one valid length.
pub fn require_credential(credential: Option<&[u8]>) -> (r: Result<(), CredentialFault>)
    ensures
        r == credential_outcome(
            match credential {
                Some(bytes) => Some(bytes@),
                None => None,
            },
        ),
{
    match credential {
        None => Err(CredentialFault::Missing),
        Some(bytes) => if bytes.len() == ACM_CONTEXT_EXTERNAL_FORM_SIZE {
            Ok(())
        } else {
            Err(CredentialFault::InvalidLength { actual: bytes.len() })
        },
    }
}

/// The next work of preparing a user.
pub enum PreparationStep<'a, C, P, R, U, M> {
    /// Load the durable pair completely and report with
    /// [`PendingPairLoad::loaded`].
    LoadStore(PendingPairLoad<'a>),
    /// Reassert the policy of [`PendingPolicy::user_id`] with
    /// [`PendingPolicy::credential`] and report with [`PendingPolicy::reasserted`].
    ReassertPolicy(PendingPolicy<'a>),
    /// Confirm live identities or restore the pair, beginning with
    /// [`PendingRestore::begin`], and report with [`PendingRestore::restored`].
    Restore(PendingRestore),
    /// Prepare the live user [`PendingUser::user_id`] and report with
    /// [`PendingUser::prepared`].
    PrepareUser(PendingUser),
    /// Preparing has ended.
    End(
        Result<
            PreparedAuthenticationUser,
            AuthenticationOperationError<C, P, R, U, M>,
        >,
    ),
}

/// Preparation that waits for the store.
pub struct PendingPairLoad<'a> {
    subject: CredentialedUser<'a>,
    for_enrollment: bool,
}

/// Preparation that waits for the policy.
pub struct PendingPolicy<'a> {
    subject: CredentialedUser<'a>,
    for_enrollment: bool,
}

/// Preparation that waits for the restore.
pub struct PendingRestore {
    user_id: u32,
    for_enrollment: bool,
}

/// Preparation that waits for the live user.
pub struct PendingUser {
    user_id: u32,
}

/// What a preparation is asked for: whom, whether there is a durable pair, with
/// which credential, and whether an enrollment follows.
pub struct PreparationModel {
    pub user_id: u32,
    pub durable: bool,
    pub credential: Option<Seq<u8>>,
    pub for_enrollment: bool,
}

/// The bytes of a credential that may be missing.
pub open spec fn credential_bytes(credential: Option<&[u8]>) -> Option<Seq<u8>> {
    match credential {
        Some(bytes) => Some(bytes@),
        None => None,
    }
}

/// The step is about the user and the credential that the preparation was asked
/// for.
pub open spec fn step_is_about<'a, C, P, R, U, M>(
    step: PreparationStep<'a, C, P, R, U, M>,
    request: PreparationModel,
) -> bool {
    match step {
        PreparationStep::LoadStore(pending) => pending.user() == request.user_id && Some(
            pending.secret(),
        ) == request.credential && pending.enrolls() == request.for_enrollment,
        PreparationStep::ReassertPolicy(pending) => pending.user() == request.user_id && Some(
            pending.secret(),
        ) == request.credential && pending.enrolls() == request.for_enrollment,
        PreparationStep::Restore(pending) => pending.user() == request.user_id
            && pending.enrolls() == request.for_enrollment,
        PreparationStep::PrepareUser(pending) => pending.user() == request.user_id,
        PreparationStep::End(Ok(prepared)) => prepared.user() == request.user_id,
        PreparationStep::End(Err(_)) => true,
    }
}

/// How preparing begins.
pub open spec fn preparation_begins<'a, C, P, R, U, M>(
    request: PreparationModel,
    r: PreparationStep<'a, C, P, R, U, M>,
) -> bool {
    &&& step_is_about(r, request)
    &&& if request.durable {
        match credential_outcome(request.credential) {
            Ok(()) => r is LoadStore,
            Err(CredentialFault::Missing) => r == PreparationStep::<C, P, R, U, M>::End(
                Err(AuthenticationOperationError::MissingCredential),
            ),
            Err(CredentialFault::InvalidLength { actual }) => r
                == PreparationStep::<C, P, R, U, M>::End(
                Err(AuthenticationOperationError::Credential { actual }),
            ),
        }
    } else {
        r is PrepareUser
    }
}

/// Begins to prepare a user: with a durable pair, a valid credential comes before
/// the store, the policy and the device.
fn begin_preparation<'a, C, P, R, U, M>(
    user_id: u32,
    durable: bool,
    credential: Option<&'a [u8]>,
    for_enrollment: bool,
) -> (r: PreparationStep<'a, C, P, R, U, M>)
    ensures
        preparation_begins(
            PreparationModel {
                user_id,
                durable,
                credential: credential_bytes(credential),
                for_enrollment,
            },
            r,
        ),
{
    if !durable {
        return PreparationStep::PrepareUser(PendingUser { user_id });
    }
    match (require_credential(credential), credential) {
        (Ok(()), Some(credential)) => PreparationStep::LoadStore(
            PendingPairLoad { subject: CredentialedUser { user_id, credential }, for_enrollment },
        ),
        (Err(CredentialFault::InvalidLength { actual }), _) => PreparationStep::End(
            Err(AuthenticationOperationError::Credential { actual }),
        ),
        (_, None) | (Err(CredentialFault::Missing), _) => PreparationStep::End(
            Err(AuthenticationOperationError::MissingCredential),
        ),
    }
}

/// Begins to prepare the user after calibration.
pub fn restore_user_after_calibration<'a, C, P, R, U, M>(
    user_id: u32,
    durable: bool,
    credential: Option<&'a [u8]>,
) -> (r: PreparationStep<'a, C, P, R, U, M>)
    ensures
        preparation_begins(
            PreparationModel {
                user_id,
                durable,
                credential: credential_bytes(credential),
                for_enrollment: false,
            },
            r,
        ),
{
    begin_preparation(user_id, durable, credential, false)
}

/// Begins to prepare the user of an enrollment after calibration: the policy comes
/// first, and then the complete restore of the master and the user.
pub fn restore_user_for_enrollment_after_calibration<'a, C, P, R, U, M>(
    user_id: u32,
    durable: bool,
    credential: Option<&'a [u8]>,
) -> (r: PreparationStep<'a, C, P, R, U, M>)
    ensures
        preparation_begins(
            PreparationModel {
                user_id,
                durable,
                credential: credential_bytes(credential),
                for_enrollment: true,
            },
            r,
        ),
{
    begin_preparation(user_id, durable, credential, true)
}

/// An authentication that waits for the calibration.
pub struct PendingCalibration<'a> {
    record: &'a [u8],
    user_id: u32,
    durable: bool,
    credential: Option<&'a [u8]>,
}

/// Begins to authenticate: the sensor is calibrated with the record, and nothing
/// else happens before calibration is live.
pub fn authenticate_user<'a>(
    record: &'a [u8],
    user_id: u32,
    durable: bool,
    credential: Option<&'a [u8]>,
) -> (r: PendingCalibration<'a>)
    ensures
        r.calibration() == record@,
        r.asked_for() == (PreparationModel {
            user_id,
            durable,
            credential: credential_bytes(credential),
            for_enrollment: false,
        }),
{
    PendingCalibration { record, user_id, durable, credential }
}

impl<'a> PendingCalibration<'a> {
    /// The record that the sensor is calibrated with.
    pub closed spec fn calibration(self) -> Seq<u8> {
        self.record@
    }

    /// What the preparation is asked for once calibration is live.
    pub closed spec fn asked_for(self) -> PreparationModel {
        PreparationModel {
            user_id: self.user_id,
            durable: self.durable,
            credential: credential_bytes(self.credential),
            for_enrollment: false,
        }
    }

    /// The record that the sensor is calibrated with.
    pub fn record(&self) -> (r: &'a [u8])
        ensures
            r@ == self.calibration(),
    {
        self.record
    }

    /// Takes the outcome of the calibration.
    pub fn calibrated<C, P, R, U, M>(self, outcome: Result<(), C>) -> (r: PreparationStep<
        'a,
        C,
        P,
        R,
        U,
        M,
    >)
        ensures
            match outcome {
                Err(error) => r == PreparationStep::<C, P, R, U, M>::End(
                    Err(AuthenticationOperationError::Calibration(error)),
                ),
                Ok(()) => preparation_begins(self.asked_for(), r),
            },
    {
        match outcome {
            Err(error) => PreparationStep::End(
                Err(AuthenticationOperationError::Calibration(error)),
            ),
            Ok(()) => restore_user_after_calibration(self.user_id, self.durable, self.credential),
        }
    }
}

impl<'a> PendingPairLoad<'a> {
    /// The user to prepare.
    pub closed spec fn user(self) -> u32 {
        self.subject.user_id
    }

    /// The user's credential.
    pub closed spec fn secret(self) -> Seq<u8> {
        self.subject.credential@
    }

    /// Whether an enrollment follows.
    pub closed spec fn enrolls(self) -> bool {
        self.for_enrollment
    }

    /// Takes whether the durable pair loads completely: the policy of the same user
    /// comes next, with the same credential.
    pub fn loaded<C, P, R, U, M>(self, outcome: Result<(), CatacombStoreError>) -> (r:
        PreparationStep<'a, C, P, R, U, M>)
        ensures
            match outcome {
                Ok(()) => r is ReassertPolicy && r->ReassertPolicy_0.user() == self.user()
                    && r->ReassertPolicy_0.secret() == self.secret(),
                Err(error) => r == PreparationStep::<C, P, R, U, M>::End(
                    Err(AuthenticationOperationError::Store(error)),
                ),
            },
            preparation_follows(
                PreparationStep::<C, P, R, U, M>::LoadStore(self),
                PreparationAnswer::Loaded(outcome),
                r,
            ),
    {
        match outcome {
            Ok(()) => PreparationStep::ReassertPolicy(
                PendingPolicy { subject: self.subject, for_enrollment: self.for_enrollment },
            ),
            Err(error) => PreparationStep::End(Err(AuthenticationOperationError::Store(error))),
        }
    }
}

impl<'a> PendingPolicy<'a> {
    /// The user whose policy is reasserted.
    pub closed spec fn user(self) -> u32 {
        self.subject.user_id
    }

    /// The credential that the command carries.
    pub closed spec fn secret(self) -> Seq<u8> {
        self.subject.credential@
    }

    /// Whether an enrollment follows.
    pub closed spec fn enrolls(self) -> bool {
        self.for_enrollment
    }

    /// The user whose policy is reasserted.
    pub fn user_id(&self) -> (r: u32)
        ensures
            r == self.user(),
    {
        self.subject.user_id
    }

    /// The credential that the command carries.
    pub fn credential(&self) -> (r: &'a [u8])
        ensures
            r@ == self.secret(),
    {
        self.subject.credential
    }

    /// Takes whether the policy was reasserted: the same user is restored next.
    pub fn reasserted<C, P, R, U, M>(self, outcome: Result<(), P>) -> (r: PreparationStep<
        'a,
        C,
        P,
        R,
        U,
        M,
    >)
        ensures
            match outcome {
                Ok(()) => r is Restore && r->Restore_0.user() == self.user(),
                Err(error) => r == PreparationStep::<C, P, R, U, M>::End(
                    Err(AuthenticationOperationError::Policy(error)),
                ),
            },
            preparation_follows(
                PreparationStep::<C, P, R, U, M>::ReassertPolicy(self),
                PreparationAnswer::Reasserted(outcome),
                r,
            ),
    {
        match outcome {
            Ok(()) => PreparationStep::Restore(
                PendingRestore {
                    user_id: self.subject.user_id,
                    for_enrollment: self.for_enrollment,
                },
            ),
            Err(error) => PreparationStep::End(Err(AuthenticationOperationError::Policy(error))),
        }
    }
}

impl PendingRestore {
    /// The user to restore.
    pub closed spec fn user(self) -> u32 {
        self.user_id
    }

    /// Whether an enrollment follows.
    pub closed spec fn enrolls(self) -> bool {
        self.for_enrollment
    }

    /// Begins the restore of this user from the pair that was loaded. Before an
    /// enrollment the restored set may be empty.
    pub fn begin<'p, T, Q, K>(&self, loaded: Result<&'p CatacombPair, CatacombStoreError>) -> (r:
        RestoreStep<'p, T, Q, K>)
        ensures
            r == match loaded {
                Ok(pair) => first_restore_step(
                    RestoreRequest {
                        user_id: self.user(),
                        pair,
                        allow_live: true,
                        allow_empty: self.enrolls(),
                    },
                ),
                Err(error) => RestoreStep::<T, Q, K>::End(Err(CatacombRestoreError::Store(error))),
            },
    {
        if self.for_enrollment {
            restore_catacomb_pair_for_enrollment(loaded, self.user_id)
        } else {
            restore_catacomb_pair(loaded, self.user_id)
        }
    }

    /// Takes the restored identities: they were restored in this lease unless
    /// they were live.
    pub fn restored<'a, C, P, R, U, M>(self, outcome: Result<RestoredCatacomb, R>) -> (r:
        PreparationStep<'a, C, P, R, U, M>)
        ensures
            match outcome {
                Ok(restored) => r is End && r->End_0 is Ok && r->End_0->Ok_0.user() == self.user()
                    && r->End_0->Ok_0.members() == restored.members()
                    && r->End_0->Ok_0.was_restored() == !restored.was_live(),
                Err(error) => r == PreparationStep::<C, P, R, U, M>::End(
                    Err(AuthenticationOperationError::Restore(error)),
                ),
            },
            preparation_follows(
                PreparationStep::<C, P, R, U, M>::Restore(self),
                PreparationAnswer::Restored(outcome),
                r,
            ),
    {
        match outcome {
            Ok(restored) => {
                let restored_in_this_lease = !restored.already_loaded();
                PreparationStep::End(
                    Ok(
                        PreparedAuthenticationUser {
                            user_id: self.user_id,
                            identities: restored.into_identities(),
                            restored_in_this_lease,
                        },
                    ),
                )
            },
            Err(error) => PreparationStep::End(Err(AuthenticationOperationError::Restore(error))),
        }
    }
}

impl PendingUser {
    /// The live user to prepare.
    pub closed spec fn user(self) -> u32 {
        self.user_id
    }

    /// The live user to prepare.
    pub fn user_id(&self) -> (r: u32)
        ensures
            r == self.user(),
    {
        self.user_id
    }

    /// Takes the live user's identities.
    pub fn prepared<'a, C, P, R, U, M>(self, outcome: Result<Vec<Identity>, U>) -> (r:
        PreparationStep<'a, C, P, R, U, M>)
        ensures
            match outcome {
                Ok(identities) => r is End && r->End_0 is Ok && r->End_0->Ok_0.user()
                    == self.user() && r->End_0->Ok_0.members() == identities@
                    && !r->End_0->Ok_0.was_restored(),
                Err(error) => r == PreparationStep::<C, P, R, U, M>::End(
                    Err(AuthenticationOperationError::User(error)),
                ),
            },
            preparation_follows(
                PreparationStep::<C, P, R, U, M>::PrepareUser(self),
                PreparationAnswer::Prepared(outcome),
                r,
            ),
    {
        match outcome {
            Ok(identities) => PreparationStep::End(
                Ok(
                    PreparedAuthenticationUser {
                        user_id: self.user_id,
                        identities,
                        restored_in_this_lease: false,
                    },
                ),
            ),
            Err(error) => PreparationStep::End(Err(AuthenticationOperationError::User(error))),
        }
    }
}

/// One answer to the work that preparing asks for.
pub enum PreparationAnswer<P, R, U> {
    Loaded(Result<(), CatacombStoreError>),
    Reasserted(Result<(), P>),
    Restored(Result<RestoredCatacomb, R>),
    Prepared(Result<Vec<Identity>, U>),
}

/// The step that follows `step` on `answer`, where the answer is of the kind
/// that the step asks for.
pub open spec fn preparation_follows<'a, C, P, R, U, M>(
    step: PreparationStep<'a, C, P, R, U, M>,
    answer: PreparationAnswer<P, R, U>,
    next: PreparationStep<'a, C, P, R, U, M>,
) -> bool {
    match (step, answer) {
        (PreparationStep::LoadStore(pending), PreparationAnswer::Loaded(Ok(()))) => next
            is ReassertPolicy && next->ReassertPolicy_0.user() == pending.user()
            && next->ReassertPolicy_0.secret() == pending.secret()
            && next->ReassertPolicy_0.enrolls() == pending.enrolls(),
        (PreparationStep::ReassertPolicy(pending), PreparationAnswer::Reasserted(Ok(()))) => next
            is Restore && next->Restore_0.user() == pending.user() && next->Restore_0.enrolls()
            == pending.enrolls(),
        (PreparationStep::Restore(pending), PreparationAnswer::Restored(Ok(restored))) => next
            is End && next->End_0 is Ok && next->End_0->Ok_0.user() == pending.user()
            && next->End_0->Ok_0.members() == restored.members()
            && next->End_0->Ok_0.was_restored() == !restored.was_live(),
        (PreparationStep::PrepareUser(pending), PreparationAnswer::Prepared(Ok(identities))) => next
            is End && next->End_0 is Ok && next->End_0->Ok_0.user() == pending.user()
            && next->End_0->Ok_0.members() == identities@ && !next->End_0->Ok_0.was_restored(),
        (PreparationStep::LoadStore(_), PreparationAnswer::Loaded(Err(_)))
        | (PreparationStep::ReassertPolicy(_), PreparationAnswer::Reasserted(Err(_)))
        | (PreparationStep::Restore(_), PreparationAnswer::Restored(Err(_)))
        | (PreparationStep::PrepareUser(_), PreparationAnswer::Prepared(Err(_))) => next is End
            && next->End_0 is Err,
        _ => false,
    }
}

/// A run of preparing a user.
pub open spec fn is_preparation_run<'a, C, P, R, U, M>(
    request: PreparationModel,
    steps: Seq<PreparationStep<'a, C, P, R, U, M>>,
    answers: Seq<PreparationAnswer<P, R, U>>,
) -> bool {
    &&& steps.len() == answers.len() + 1
    &&& preparation_begins(request, steps[0])
    &&& forall|k: int|
        0 <= k < answers.len() ==> preparation_follows(
            #[trigger] steps[k],
            answers[k],
            steps[k + 1],
        )
}

/// A durable pair is touched only with a valid credential, and restored only after
/// the store was read completely and the policy was reasserted; a live user is
/// prepared only where there is no durable pair.
pub proof fn law_preparation_keeps_its_order<'a, C, P, R, U, M>(
    request: PreparationModel,
    steps: Seq<PreparationStep<'a, C, P, R, U, M>>,
    answers: Seq<PreparationAnswer<P, R, U>>,
    k: int,
)
    requires
        is_preparation_run(request, steps, answers),
        0 <= k < steps.len(),
    ensures
        steps[k] is LoadStore ==> k == 0 && request.durable && credential_outcome(
            request.credential,
        ) is Ok,
        steps[k] is ReassertPolicy ==> k == 1 && request.durable && credential_outcome(
            request.credential,
        ) is Ok && (answers[0] matches PreparationAnswer::Loaded(Ok(_))),
        steps[k] is Restore ==> k == 2 && request.durable && credential_outcome(
            request.credential,
        ) is Ok && (answers[0] matches PreparationAnswer::Loaded(Ok(_))) && (answers[1] matches
            PreparationAnswer::Reasserted(Ok(_))),
        steps[k] is PrepareUser ==> k == 0 && !request.durable,
    decreases k,
{
    if k > 0 {
        law_preparation_keeps_its_order(request, steps, answers, k - 1);
        assert(preparation_follows(steps[k - 1], answers[k - 1], steps[k - 1 + 1]));
    }
}

/// Every step is about the user that the preparation began with, and the policy is
/// reasserted with the credential that it began with.
pub proof fn law_preparations_keep_their_user<'a, C, P, R, U, M>(
    request: PreparationModel,
    steps: Seq<PreparationStep<'a, C, P, R, U, M>>,
    answers: Seq<PreparationAnswer<P, R, U>>,
    k: int,
)
    requires
        is_preparation_run(request, steps, answers),
        0 <= k < steps.len(),
    ensures
        step_is_about(steps[k], request),
    decreases k,
{
    if k > 0 {
        law_preparations_keep_their_user(request, steps, answers, k - 1);
        assert(preparation_follows(steps[k - 1], answers[k - 1], steps[k - 1 + 1]));
    }
}

/// A user counts as prepared only with the identities that the device gave: those
/// of the restore of a durable pair, or those of the live user.
pub proof fn law_prepared_identities_are_the_devices<'a, C, P, R, U, M>(
    request: PreparationModel,
    steps: Seq<PreparationStep<'a, C, P, R, U, M>>,
    answers: Seq<PreparationAnswer<P, R, U>>,
    k: int,
    prepared: PreparedAuthenticationUser,
)
    requires
        is_preparation_run(request, steps, answers),
        0 <= k < steps.len(),
        steps[k] == PreparationStep::<C, P, R, U, M>::End(Ok(prepared)),
    ensures
        prepared.user() == request.user_id,
        request.durable ==> k == 3 && (answers[2] matches PreparationAnswer::Restored(Ok(restored))
            && prepared.members() == restored.members() && prepared.was_restored()
            == !restored.was_live()),
        !request.durable ==> k == 1 && (answers[0] matches PreparationAnswer::Prepared(
            Ok(identities),
        ) && prepared.members() == identities@ && !prepared.was_restored()),
{
    assert(k > 0);
    assert(preparation_follows(steps[k - 1], answers[k - 1], steps[k - 1 + 1]));
    law_preparation_keeps_its_order(request, steps, answers, k - 1);
    law_preparations_keep_their_user(request, steps, answers, k);
}

/// The four bytes of a number, lowest first.
pub open spec fn little_endian(value: u32) -> Seq<u8> {
    seq![
        (value % 256) as u8,
        ((value / 256) % 256) as u8,
        ((value / 65_536) % 256) as u8,
        (value / 16_777_216) as u8,
    ]
}

/// A signed number as the unsigned one with the same bits.
pub open spec fn unsigned(value: i32) -> u32 {
    if value >= 0 {
        value as u32
    } else {
        (value + 4_294_967_296) as u32
    }
}

/// One identity on the wire: its user's id and its identifier.
pub open spec fn encoded_identity(identity: Identity) -> Seq<u8> {
    little_endian(unsigned(identity.user_id)) + identity.identifier@
}

/// Identities on the wire, one after the other.
pub open spec fn encoded_identities(identities: Seq<Identity>) -> Seq<u8>
    decreases identities.len(),
{
    if identities.len() == 0 {
        Seq::empty()
    } else {
        encoded_identities(identities.drop_last()) + encoded_identity(identities.last())
    }
}

/// Encodes identities for a match.
pub fn encode_identities(identities: &[Identity]) -> (r: Vec<u8>)
    ensures
        r@ == encoded_identities(identities@),
        r@.len() == identities@.len() * IDENTITY_V1_SIZE,
{
    let mut encoded: Vec<u8> = Vec::new();
    let mut i: usize = 0;
    assert(identities@.subrange(0, 0) =~= Seq::<Identity>::empty());
    while i < identities.len()
        invariant
            i <= identities@.len(),
            encoded@ == encoded_identities(identities@.subrange(0, i as int)),
            encoded@.len() == i * IDENTITY_V1_SIZE,
        decreases identities@.len() - i,
    {
        let ghost longer = identities@.subrange(0, i as int + 1);
        let ghost before = encoded@;
        proof {
            assert(longer.drop_last() =~= identities@.subrange(0, i as int));
            assert(longer.last() == identities@[i as int]);
        }
        let user_id: i32 = identities[i].user_id;
        let value: u32 = if user_id >= 0 {
            user_id as u32
        } else {
            (user_id as i64 + 4_294_967_296) as u32
        };
        encoded.push((value % 256) as u8);
        encoded.push(((value / 256) % 256) as u8);
        encoded.push(((value / 65_536) % 256) as u8);
        encoded.push((value / 16_777_216) as u8);
        let identifier = identities[i].identifier;
        let ghost head = encoded@;
        assert(head =~= before + little_endian(unsigned(user_id)));
        let mut k: usize = 0;
        while k < IDENTIFIER_SIZE
            invariant
                k <= 16,
                encoded@ == head + identifier@.subrange(0, k as int),
            decreases 16 - k,
        {
            encoded.push(identifier[k]);
            k += 1;
            assert(encoded@ =~= head + identifier@.subrange(0, k as int));
        }
        proof {
            assert(identifier@.subrange(0, 16) =~= identifier@);
            assert(encoded@ =~= before + encoded_identity(identities@[i as int]));
        }
        i += 1;
    }
    assert(identities@.subrange(0, identities@.len() as int) =~= identities@);
    encoded
}

/// The next work of a match.
pub enum MatchStep<C, P, R, U, M> {
    /// Publish the presentation and report with [`PendingPresentation::presented`].
    Present(PendingPresentation),
    /// Match [`PendingMatch::encoded`] for [`PendingMatch::user_id`], wipe those
    /// bytes and report with [`PendingMatch::matched`].
    Match(PendingMatch),
    /// Show [`PendingFeedback::outcome`] and report with [`PendingFeedback::shown`].
    Show(PendingFeedback),
    /// The operation has ended.
    End(Result<IdentityMatchOutcome, AuthenticationOperationError<C, P, R, U, M>>),
}

/// A match that is to be announced.
pub struct PendingPresentation {
    user_id: u32,
    identities: Vec<Identity>,
}

/// A match that is to be made.
pub struct PendingMatch {
    user_id: u32,
    identities: Vec<Identity>,
}

/// A match whose outcome is to be shown.
pub struct PendingFeedback {
    outcome: IdentityMatchOutcome,
}

/// How a match begins.
pub open spec fn match_begins<C, P, R, U, M>(
    prepared: Result<PreparedAuthenticationUser, AuthenticationOperationError<C, P, R, U, M>>,
    r: MatchStep<C, P, R, U, M>,
) -> bool {
    match prepared {
        Ok(user) => r is Present && r->Present_0.user() == user.user() && r->Present_0.members()
            == user.members(),
        Err(error) => r == MatchStep::<C, P, R, U, M>::End(Err(error)),
    }
}

/// Goes on to the match with a prepared user; a failed preparation ends the
/// operation before anything is presented.
pub fn identify_user_after_calibration<C, P, R, U, M>(
    prepared: Result<PreparedAuthenticationUser, AuthenticationOperationError<C, P, R, U, M>>,
) -> (r: MatchStep<C, P, R, U, M>)
    ensures
        match_begins(prepared, r),
{
    match prepared {
        Ok(user) => MatchStep::Present(
            PendingPresentation { user_id: user.user_id, identities: user.identities },
        ),
        Err(error) => MatchStep::End(Err(error)),
    }
}

impl PendingPresentation {
    /// The user to match.
    pub closed spec fn user(self) -> u32 {
        self.user_id
    }

    /// The identities to match.
    pub closed spec fn members(self) -> Seq<Identity> {
        self.identities@
    }

    /// Takes that the presentation is up: the match starts immediately after.
    pub fn presented<C, P, R, U, M>(self) -> (r: MatchStep<C, P, R, U, M>)
        ensures
            match_follows(
                MatchStep::<C, P, R, U, M>::Present(self),
                MatchAnswer::<M>::Presented,
                r,
            ),
    {
        MatchStep::Match(PendingMatch { user_id: self.user_id, identities: self.identities })
    }
}

impl PendingMatch {
    /// The user to match.
    pub closed spec fn user(self) -> u32 {
        self.user_id
    }

    /// The identities to match.
    pub closed spec fn members(self) -> Seq<Identity> {
        self.identities@
    }

    /// The user to match.
    pub fn user_id(&self) -> (r: u32)
        ensures
            r == self.user(),
    {
        self.user_id
    }

    /// The identities to match, on the wire.
    pub fn encoded(&self) -> (r: Vec<u8>)
        ensures
            r@ == encoded_identities(self.members()),
    {
        encode_identities(self.identities.as_slice())
    }

    /// Takes the outcome of the match and of its required cancellation. Only an
    /// outcome, and no failure, is shown by the presentation.
    pub fn matched<C, P, R, U, M>(self, outcome: Result<IdentityMatchOutcome, M>) -> (r: MatchStep<
        C,
        P,
        R,
        U,
        M,
    >)
        ensures
            match_follows(
                MatchStep::<C, P, R, U, M>::Match(self),
                MatchAnswer::Matched(outcome),
                r,
            ),
    {
        match outcome {
            Ok(outcome) => MatchStep::Show(PendingFeedback { outcome }),
            Err(error) => MatchStep::End(Err(AuthenticationOperationError::Match(error))),
        }
    }
}

impl PendingFeedback {
    /// The outcome to show.
    pub closed spec fn shows(self) -> IdentityMatchOutcome {
        self.outcome
    }

    /// The outcome to show.
    pub fn outcome(&self) -> (r: IdentityMatchOutcome)
        ensures
            r == self.shows(),
    {
        self.outcome
    }

    /// Takes that the outcome was shown: it is the operation's.
    pub fn shown<C, P, R, U, M>(self) -> (r: MatchStep<C, P, R, U, M>)
        ensures
            match_follows(
                MatchStep::<C, P, R, U, M>::Show(self),
                MatchAnswer::<M>::Shown,
                r,
            ),
    {
        MatchStep::End(Ok(self.outcome))
    }
}

/// One answer to the work that a match asks for.
pub enum MatchAnswer<M> {
    Presented,
    Matched(Result<IdentityMatchOutcome, M>),
    Shown,
}

/// The step that follows `step` on `answer`, where the answer is of the kind
/// that the step asks for.
pub open spec fn match_follows<C, P, R, U, M>(
    step: MatchStep<C, P, R, U, M>,
    answer: MatchAnswer<M>,
    next: MatchStep<C, P, R, U, M>,
) -> bool {
    match (step, answer) {
        (MatchStep::Present(pending), MatchAnswer::Presented) => next is Match
            && next->Match_0.user() == pending.user() && next->Match_0.members()
            == pending.members(),
        (MatchStep::Match(_), MatchAnswer::Matched(Ok(outcome))) => next is Show
            && next->Show_0.shows() == outcome,
        (MatchStep::Match(_), MatchAnswer::Matched(Err(error))) => next == MatchStep::<
            C,
            P,
            R,
            U,
            M,
        >::End(Err(AuthenticationOperationError::Match(error))),
        (MatchStep::Show(pending), MatchAnswer::Shown) => next == MatchStep::<C, P, R, U, M>::End(
            Ok(pending.shows()),
        ),
        _ => false,
    }
}

/// A run of a match.
pub open spec fn is_match_run<C, P, R, U, M>(
    prepared: Result<PreparedAuthenticationUser, AuthenticationOperationError<C, P, R, U, M>>,
    steps: Seq<MatchStep<C, P, R, U, M>>,
    answers: Seq<MatchAnswer<M>>,
) -> bool {
    &&& steps.len() == answers.len() + 1
    &&& match_begins(prepared, steps[0])
    &&& forall|k: int|
        0 <= k < answers.len() ==> match_follows(#[trigger] steps[k], answers[k], steps[k + 1])
}

/// The presentation brackets the match: it is published once, before the one match
/// of the prepared user and its identities, and it shows something only after that
/// match gave an outcome, which is the outcome shown and the operation's result. A
/// failed match shows nothing.
pub proof fn law_presentation_brackets_the_match<C, P, R, U, M>(
    prepared: Result<PreparedAuthenticationUser, AuthenticationOperationError<C, P, R, U, M>>,
    steps: Seq<MatchStep<C, P, R, U, M>>,
    answers: Seq<MatchAnswer<M>>,
    k: int,
)
    requires
        is_match_run(prepared, steps, answers),
        0 <= k < steps.len(),
    ensures
        steps[k] is Present <==> k == 0 && prepared is Ok,
        steps[k] is Match <==> k == 1,
        steps[k] is Match ==> prepared is Ok && steps[k]->Match_0.user() == prepared->Ok_0.user()
            && steps[k]->Match_0.members() == prepared->Ok_0.members(),
        steps[k] is Show <==> k == 2 && (answers[1] matches MatchAnswer::Matched(Ok(_))),
        steps[k] is Show ==> answers[1] == MatchAnswer::<M>::Matched(
            Ok(steps[k]->Show_0.shows()),
        ),
        steps[k] is End ==> match steps[k]->End_0 {
            Ok(outcome) => k == 3 && answers[1] == MatchAnswer::<M>::Matched(Ok(outcome)),
            Err(error) => k == 0 && prepared == Err::<
                PreparedAuthenticationUser,
                AuthenticationOperationError<C, P, R, U, M>,
            >(error) || k == 2 && (answers[1] matches MatchAnswer::Matched(Err(failure)) && error
                == AuthenticationOperationError::<C, P, R, U, M>::Match(failure)),
        },
    decreases k,
{
    if k > 0 {
        law_presentation_brackets_the_match(prepared, steps, answers, k - 1);
        assert(match_follows(steps[k - 1], answers[k - 1], steps[k - 1 + 1]));
    }
}

/// The outcome without the matched identity.
pub open spec fn outcome_of(outcome: IdentityMatchOutcome) -> MatchOutcome {
    match outcome {
        IdentityMatchOutcome::Matched(_) => MatchOutcome::Matched,
        IdentityMatchOutcome::NoMatch => MatchOutcome::NoMatch,
        IdentityMatchOutcome::Cancelled => MatchOutcome::Cancelled,
        IdentityMatchOutcome::TimedOut => MatchOutcome::TimedOut,
    }
}

/// Drops the matched identity.
pub fn legacy_outcome(outcome: IdentityMatchOutcome) -> (r: MatchOutcome)
    ensures
        r == outcome_of(outcome),
{
    match outcome {
        IdentityMatchOutcome::Matched(_) => MatchOutcome::Matched,
        IdentityMatchOutcome::NoMatch => MatchOutcome::NoMatch,
        IdentityMatchOutcome::Cancelled => MatchOutcome::Cancelled,
        IdentityMatchOutcome::TimedOut => MatchOutcome::TimedOut,
    }
}

/// The result of an authentication, without the matched identity.
pub fn authenticate_user_after_calibration<C, P, R, U, M>(
    result: Result<IdentityMatchOutcome, AuthenticationOperationError<C, P, R, U, M>>,
) -> (r: Result<MatchOutcome, AuthenticationOperationError<C, P, R, U, M>>)
    ensures
        r == match result {
            Ok(outcome) => Ok::<MatchOutcome, AuthenticationOperationError<C, P, R, U, M>>(
                outcome_of(outcome),
            ),
            Err(error) => Err(error),
        },
{
    match result {
        Ok(outcome) => Ok(legacy_outcome(outcome)),
        Err(error) => Err(error),
    }
}

} // verus!
