//! What an enrollment asks of the device, and what it keeps of the answers.

use crate::biometric::{
    same_identifier, CatacombStateEntry, Identity, IdentityIdentifier,
};
use crate::catacomb_restore::PendingValidation;
use crate::catacomb_recovery::CatacombRecoveryOutcome;
use crate::catacomb_session::CatacombBackup;
use crate::catacomb_store::{CatacombPair, CatacombStoreError};
use crate::enrollment_lifecycle::EnrollmentTransactionSuccess;
use crate::enrollment_transaction::{
    catacomb_is_secure, contains_identifier, prepare_enrollment_transaction,
    run_reserved_enrollment, EnrollmentPreparationError, EnrollmentPreparationStep, EnrollmentStep,
    EnrollmentTransactionError, PendingCapture, PendingCutoff,
    PendingEnrollee, PendingLiveness, PendingPersistence, PendingRebinding, PendingReservation,
    PendingResolution, PendingSecurity, PendingStart, PendingSystemPolicy, PendingUserPolicy,
    PendingVerification,
};
use vstd::prelude::*;

verus! {

/// Whether the entry shows the user securely loaded: it names the user, and its bits 0
/// and 1 are both set.
pub open spec fn is_secure(entry: CatacombStateEntry, user_id: u32) -> bool {
    entry.user_id == user_id && entry.state & 3 == 3
}

/// The user counts as securely loaded by an entry at any place, and by none other.
pub proof fn law_every_entry_can_show_a_secure_user(
    states: &Vec<CatacombStateEntry>,
    user_id: u32,
    r: bool,
)
    requires
        call_ensures(catacomb_is_secure, (states, user_id), r),
    ensures
        forall|i: int| 0 <= i < states@.len() && is_secure(#[trigger] states@[i], user_id) ==> r,
        r ==> exists|i: int| 0 <= i < states@.len() && is_secure(#[trigger] states@[i], user_id),
{
}

/// What follows another list of entries shows a secure user exactly where one of the
/// two lists does.
pub proof fn law_secure_users_are_found_in_either_part(
    first: &Vec<CatacombStateEntry>,
    second: &Vec<CatacombStateEntry>,
    both: &Vec<CatacombStateEntry>,
    user_id: u32,
    in_first: bool,
    in_second: bool,
    in_both: bool,
)
    requires
        both@ == first@ + second@,
        call_ensures(catacomb_is_secure, (first, user_id), in_first),
        call_ensures(catacomb_is_secure, (second, user_id), in_second),
        call_ensures(catacomb_is_secure, (both, user_id), in_both),
    ensures
        in_both <==> in_first || in_second,
{
    if in_first {
        let i = choose|i: int|
            0 <= i < first@.len() && is_secure(#[trigger] first@[i], user_id);
        assert(both@[i] == first@[i]);
    }
    if in_second {
        let i = choose|i: int|
            0 <= i < second@.len() && is_secure(#[trigger] second@[i], user_id);
        assert(both@[first@.len() + i] == second@[i]);
    }
    if in_both {
        let i = choose|i: int| 0 <= i < both@.len() && is_secure(#[trigger] both@[i], user_id);
        if i < first@.len() {
            assert(both@[i] == first@[i]);
        } else {
            assert(both@[i] == second@[i - first@.len()]);
        }
    }
}

/// An identifier is found at any place of a list, and nowhere else: two identifiers are
/// the same where every byte is.
pub proof fn law_identifiers_are_found_anywhere(
    identities: &Vec<Identity>,
    identifier: &IdentityIdentifier,
    other: &IdentityIdentifier,
    r: bool,
    same: bool,
)
    requires
        call_ensures(contains_identifier, (identities, identifier), r),
        call_ensures(same_identifier, (identifier, other), same),
    ensures
        forall|i: int|
            0 <= i < identities@.len() && (#[trigger] identities@[i]).identifier == *identifier
                ==> r,
        r ==> exists|i: int|
            0 <= i < identities@.len() && (#[trigger] identities@[i]).identifier == *identifier,
        same <==> *identifier == *other,
{
}

/// An enrollment is prepared for one user with one record: what is quarantined or fails
/// ends it with the failure of its own stage, and success needs every stage.
pub proof fn law_preparations_keep_user_and_record<'a, 'p, R, C>(
    user_id: u32,
    record: &'a [u8],
    resolution: PendingResolution<'a>,
    resolving: u32,
    pair: &'p CatacombPair,
    validation: PendingValidation<'p, 'a>,
    resolved: Result<CatacombRecoveryOutcome, R>,
    second: EnrollmentPreparationStep<'a, R, C>,
    reservation: PendingReservation<'a>,
    begun: Result<(), CatacombStoreError>,
    third: EnrollmentPreparationStep<'a, R, C>,
    liveness: PendingLiveness<'a>,
    calibrating: &'a [u8],
    calibrated: Result<(), C>,
    end: Result<(), EnrollmentPreparationError<R, C>>,
    resolution_step: EnrollmentPreparationStep<'a, R, C>,
)
    requires
        call_ensures(prepare_enrollment_transaction::<R, C>, (user_id, record), resolution_step),
        resolution_step is Recover ==> resolution_step->Recover_0 == resolution,
        call_ensures(PendingResolution::<'a>::user_id, (&resolution,), resolving),
        call_ensures(PendingResolution::<'a>::validate, (&resolution, pair), validation),
        call_ensures(PendingResolution::<'a>::resolved::<R, C>, (resolution, resolved), second),
        second is BeginTransaction ==> second->BeginTransaction_0 == reservation,
        call_ensures(PendingReservation::<'a>::begun::<R, C>, (reservation, begun), third),
        third is Calibrate ==> third->Calibrate_0 == liveness,
        call_ensures(PendingLiveness::<'a>::record, (&liveness,), calibrating),
        call_ensures(PendingLiveness::<'a>::calibrated::<R, C>, (liveness, calibrated), end),
    ensures
        resolution_step is Recover,
        resolving == user_id,
        validation.user() == user_id && validation.candidate() == pair && validation.calibration()
            == record@,
        second is BeginTransaction <==> resolved == Ok::<CatacombRecoveryOutcome, R>(
            CatacombRecoveryOutcome::Clean,
        ) || resolved == Ok::<CatacombRecoveryOutcome, R>(CatacombRecoveryOutcome::Promoted),
        resolved == Ok::<CatacombRecoveryOutcome, R>(CatacombRecoveryOutcome::Quarantined)
            ==> second == EnrollmentPreparationStep::<R, C>::End(
            Err(EnrollmentPreparationError::RecoveryBlocked),
        ),
        resolved matches Err(error) ==> second == EnrollmentPreparationStep::<R, C>::End(
            Err(EnrollmentPreparationError::Recovery(error)),
        ),
        third is Calibrate <==> begun is Ok,
        begun matches Err(error) ==> third == EnrollmentPreparationStep::<R, C>::End(
            Err(EnrollmentPreparationError::StorageReservation(error)),
        ),
        second is BeginTransaction && third is Calibrate ==> calibrating@ == record@,
        end is Ok <==> calibrated is Ok,
        calibrated matches Err(error) ==> end == Err::<(), EnrollmentPreparationError<R, C>>(
            EnrollmentPreparationError::Calibration(error),
        ),
{
}

/// The policies are enabled only for a user that the states show securely loaded and
/// that has fewer than three identities. An insecure user is rebound once, and after
/// that refused; a secure one with three or more is at capacity.
pub proof fn law_only_secure_users_with_room_enroll<'a, U, S, P, E, B>(
    user_id: u32,
    credential: &'a [u8],
    enrollee: PendingEnrollee<'a>,
    identities: Vec<Identity>,
    security: PendingSecurity<'a>,
    states: Vec<CatacombStateEntry>,
    secure: bool,
    third: EnrollmentStep<'a, U, S, P, E, B>,
    rebound: Vec<Identity>,
    again: PendingSecurity<'a>,
    fourth: EnrollmentStep<'a, U, S, P, E, B>,
    enrollee_step: EnrollmentStep<'a, U, S, P, E, B>,
    security_step: EnrollmentStep<'a, U, S, P, E, B>,
    again_step: EnrollmentStep<'a, U, S, P, E, B>,
)
    requires
        call_ensures(
            run_reserved_enrollment::<U, S, P, E, B>,
            (user_id, credential),
            enrollee_step,
        ),
        enrollee_step is PrepareUser ==> enrollee_step->PrepareUser_0 == enrollee,
        call_ensures(
            PendingEnrollee::<'a>::prepared::<U, S, P, E, B>,
            (enrollee, Ok::<Vec<Identity>, U>(identities)),
            security_step,
        ),
        security_step is ReadStates ==> security_step->ReadStates_0 == security,
        secure <==> exists|i: int|
            0 <= i < states@.len() && is_secure(#[trigger] states@[i], user_id),
        call_ensures(
            PendingSecurity::<'a>::read::<U, S, P, E, B>,
            (security, Ok::<Vec<CatacombStateEntry>, U>(states)),
            third,
        ),
        third matches EnrollmentStep::Rebind(rebinding)
            ==> call_ensures(
                PendingRebinding::<'a>::rebound::<U, S, P, E, B>,
                (rebinding, Ok::<Vec<Identity>, U>(rebound)),
                again_step,
            ) && (again_step is ReadStates ==> again_step->ReadStates_0 == again),
        call_ensures(
            PendingSecurity::<'a>::read::<U, S, P, E, B>,
            (again, Ok::<Vec<CatacombStateEntry>, U>(states)),
            fourth,
        ),
        identities@.len() <= usize::MAX,
        rebound@.len() <= usize::MAX,
    ensures
        enrollee_step is PrepareUser,
        security_step is ReadStates,
        third is Rebind ==> again_step is ReadStates,
        third is EnableSystem <==> secure && identities@.len() < 3,
        third matches EnrollmentStep::EnableSystem(policy) ==> policy.whom().user_id == user_id
            && policy.whom().credential == credential,
        third is Rebind <==> !secure,
        secure && identities@.len() >= 3 ==> third == EnrollmentStep::<U, S, P, E, B>::End(
            Err(EnrollmentTransactionError::IdentityCapacityReached),
        ),
        third is Rebind ==> fourth == EnrollmentStep::<U, S, P, E, B>::End(
            Err(EnrollmentTransactionError::CatacombNotSecurelyLoaded),
        ),
{
}

/// A live user that cannot be prepared, or whose states cannot be read, is not enrolled.
pub proof fn law_unprepared_users_are_not_enrolled<'a, U, S, P, E, B>(
    enrollee: PendingEnrollee<'a>,
    prepared: Result<Vec<Identity>, U>,
    second: EnrollmentStep<'a, U, S, P, E, B>,
    security: PendingSecurity<'a>,
    error: U,
    third: EnrollmentStep<'a, U, S, P, E, B>,
)
    requires
        call_ensures(
            PendingEnrollee::<'a>::prepared::<U, S, P, E, B>,
            (enrollee, prepared),
            second,
        ),
        call_ensures(
            PendingSecurity::<'a>::read::<U, S, P, E, B>,
            (security, Err::<Vec<CatacombStateEntry>, U>(error)),
            third,
        ),
    ensures
        second is ReadStates <==> prepared is Ok,
        second matches EnrollmentStep::ReadStates(next) ==> next.subject == enrollee.subject
            && !next.rebound,
        prepared matches Err(failure) ==> second == EnrollmentStep::<U, S, P, E, B>::End(
            Err(EnrollmentTransactionError::User(failure)),
        ),
        third == EnrollmentStep::<U, S, P, E, B>::End(
            Err(EnrollmentTransactionError::User(error)),
        ),
{
}

/// After a rebinding the states decide alike, with the rebound user's identities and
/// without a second rebinding.
pub proof fn law_rebound_users_are_judged_once_more<'a, U, S, P, E, B>(
    rebinding: PendingRebinding<'a>,
    rebound: Result<Vec<Identity>, U>,
    third: EnrollmentStep<'a, U, S, P, E, B>,
    states: Result<Vec<CatacombStateEntry>, U>,
    fourth: EnrollmentStep<'a, U, S, P, E, B>,
)
    requires
        call_ensures(
            PendingRebinding::<'a>::rebound::<U, S, P, E, B>,
            (rebinding, rebound),
            third,
        ),
        third matches EnrollmentStep::ReadStates(again) ==> call_ensures(
            PendingSecurity::<'a>::read::<U, S, P, E, B>,
            (again, states),
            fourth,
        ),
        rebound matches Ok(identities) ==> identities@.len() <= usize::MAX,
    ensures
        third is ReadStates <==> rebound is Ok,
        rebound matches Err(error) ==> third == EnrollmentStep::<U, S, P, E, B>::End(
            Err(EnrollmentTransactionError::User(error)),
        ),
        rebound is Ok ==> (fourth is EnableSystem <==> (states matches Ok(entries) && exists|
            i: int,
        |
            0 <= i < entries@.len() && is_secure(
                #[trigger] entries@[i],
                rebinding.subject.user_id,
            )) && rebound->Ok_0@.len() < 3),
        rebound is Ok && fourth is EnableSystem ==> fourth->EnableSystem_0.whom()
            == rebinding.subject,
        rebound is Ok ==> !(fourth is Rebind),
        rebound is Ok && (states matches Err(error)) ==> fourth == EnrollmentStep::<
            U,
            S,
            P,
            E,
            B,
        >::End(Err(EnrollmentTransactionError::User(states->Err_0))),
{
}

/// From the policies to the capture: each stage goes on exactly where it succeeded, for
/// the same user and credential, and fails with the failure of its own stage.
pub proof fn law_enrollment_stages_go_on_by_success<'a, U, S, P, E, B>(
    system: PendingSystemPolicy<'a>,
    system_enabled: Result<(), S>,
    second: EnrollmentStep<'a, U, S, P, E, B>,
    user: PendingUserPolicy<'a>,
    user_enabled: Result<(), P>,
    third: EnrollmentStep<'a, U, S, P, E, B>,
    start: PendingStart<'a>,
    fourth: EnrollmentStep<'a, U, S, P, E, B>,
    capture: PendingCapture<'a>,
    captured: Result<Option<IdentityIdentifier>, E>,
    fifth: EnrollmentStep<'a, U, S, P, E, B>,
)
    requires
        call_ensures(
            PendingSystemPolicy::<'a>::enabled::<U, S, P, E, B>,
            (system, system_enabled),
            second,
        ),
        call_ensures(
            PendingUserPolicy::<'a>::enabled::<U, S, P, E, B>,
            (user, user_enabled),
            third,
        ),
        call_ensures(PendingStart::<'a>::presented::<U, S, P, E, B>, (start,), fourth),
        call_ensures(PendingCapture::<'a>::ended::<U, S, P, E, B>, (capture, captured), fifth),
    ensures
        second is EnableUser <==> system_enabled is Ok,
        second matches EnrollmentStep::EnableUser(next) ==> next.whom() == system.whom(),
        system_enabled matches Err(error) ==> second == EnrollmentStep::<U, S, P, E, B>::End(
            Err(EnrollmentTransactionError::SystemPolicy(error)),
        ),
        third is Present <==> user_enabled is Ok,
        third matches EnrollmentStep::Present(next) ==> next.whom() == user.whom(),
        user_enabled matches Err(error) ==> third == EnrollmentStep::<U, S, P, E, B>::End(
            Err(EnrollmentTransactionError::UserPolicy(error)),
        ),
        fourth is Enroll && fourth->Enroll_0.whom() == start.whom(),
        fifth is CloseCancellation <==> captured is Ok && captured->Ok_0 is Some,
        fifth matches EnrollmentStep::CloseCancellation(next) ==> next.whom() == capture.whom()
            && Ok::<Option<IdentityIdentifier>, E>(Some(next.captured())) == captured,
        captured == Ok::<Option<IdentityIdentifier>, E>(None) ==> fifth == EnrollmentStep::<
            U,
            S,
            P,
            E,
            B,
        >::End(Err(EnrollmentTransactionError::EnrollmentTimedOut)),
        captured matches Err(error) ==> fifth == EnrollmentStep::<U, S, P, E, B>::End(
            Err(EnrollmentTransactionError::Enrollment(error)),
        ),
{
}

/// An enrollment succeeds exactly where its capture was made uncancellable, promoted and
/// listed, and reports the captured identity with the promoted sizes.
pub proof fn law_enrollments_report_the_captured_identity<'a, U, S, P, E, B>(
    capture: PendingCapture<'a>,
    identity: IdentityIdentifier,
    cutoff: PendingCutoff<'a>,
    closed: bool,
    second: EnrollmentStep<'a, U, S, P, E, B>,
    persistence: PendingPersistence<'a>,
    persisted: Result<CatacombBackup, B>,
    third: EnrollmentStep<'a, U, S, P, E, B>,
    verification: PendingVerification<'a>,
    listed: Result<Vec<Identity>, U>,
    end: Result<EnrollmentTransactionSuccess, EnrollmentTransactionError<U, S, P, E, B>>,
    cutoff_step: EnrollmentStep<'a, U, S, P, E, B>,
)
    requires
        call_ensures(
            PendingCapture::<'a>::ended::<U, S, P, E, B>,
            (capture, Ok::<Option<IdentityIdentifier>, E>(Some(identity))),
            cutoff_step,
        ),
        cutoff_step is CloseCancellation ==> cutoff_step->CloseCancellation_0 == cutoff,
        call_ensures(PendingCutoff::<'a>::closed::<U, S, P, E, B>, (cutoff, closed), second),
        second is Persist ==> second->Persist_0 == persistence,
        call_ensures(
            PendingPersistence::<'a>::persisted::<U, S, P, E, B>,
            (persistence, persisted),
            third,
        ),
        third is Verify ==> third->Verify_0 == verification,
        call_ensures(
            PendingVerification::<'a>::listed::<U, S, P, E, B>,
            (verification, listed),
            end,
        ),
    ensures
        cutoff_step is CloseCancellation,
        second is Persist <==> closed,
        !closed ==> second == EnrollmentStep::<U, S, P, E, B>::End(
            Err(EnrollmentTransactionError::EnrollmentCancelled),
        ),
        third is Verify <==> persisted is Ok,
        persisted matches Err(error) ==> third == EnrollmentStep::<U, S, P, E, B>::End(
            Err(EnrollmentTransactionError::Persistence(error)),
        ),
        closed ==> persistence.whom() == capture.whom() && persistence.captured() == identity,
        closed && persisted is Ok ==> verification.whom() == capture.whom(),
        closed && persisted is Ok ==> (end is Ok <==> listed is Ok && exists|i: int|
            0 <= i < listed->Ok_0@.len() && (#[trigger] listed->Ok_0@[i]).identifier == identity),
        closed && persisted is Ok && end is Ok ==> end->Ok_0.identity == identity
            && end->Ok_0.catacombs == persisted->Ok_0,
        listed matches Err(error) ==> end == Err::<
            EnrollmentTransactionSuccess,
            EnrollmentTransactionError<U, S, P, E, B>,
        >(EnrollmentTransactionError::PostCommitIdentityVerification(error)),
        listed is Ok && end is Err ==> end->Err_0
            is IdentityMissingAfterCommit,
{
}

} // verus!
