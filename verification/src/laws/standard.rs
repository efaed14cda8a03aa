//! What a standard enrollment reports, keeps and verifies.

use crate::auth_operation::encode_identities;
use crate::biometric::{
    CatacombStateEntry, Identity, IdentityIdentifier, IdentityMatchOutcome,
};
use crate::catacomb_recovery::CatacombRecoveryOutcome;
use crate::catacomb_session::CatacombBackup;
use crate::catacomb_store::CatacombStoreError;
use crate::laws::enrollment::is_secure;
use crate::standard_enrollment::{
    identity_ids, ids_of, occurrences, prepare_standard_enrollment, run_reserved_standard_enrollment,
    same_identity_set, CatalogFault, PreparedStandardEnrollment, StandardCapture, StandardCutoff,
    StandardDuplicateCheck, StandardEnrollmentError, StandardEnrollmentPreparationError,
    StandardEnrollmentStep, StandardEnrollmentSuccess, StandardLabeling, StandardLiveness,
    StandardLoad, StandardPersistence, StandardPreparationStep, StandardProgressNormalizer,
    StandardRebinding, StandardReconciliation, StandardReservation, StandardResolution,
    StandardRestore, StandardSecurity, StandardPresentation, StandardSubject, StandardSystemPolicy,
    StandardUser, StandardUserPolicy, StandardVerification,
};
use crate::standard_fingerprint_protocol::{EnrollProgress, FingerLabel, IdentityId};
use vstd::prelude::*;

verus! {

/// Whether `stage` is the hundredth that `raw` has reached of the sensor's range, which
/// begins at 100 and is 255 long, rounded down.
pub open spec fn has_reached(raw: u64, stage: u8) -> bool {
    100 <= raw <= 355 && stage * 255 <= (raw - 100) * 100 < (stage + 1) * 255
}

/// A reported stage is the hundredth that was reached, out of a hundred, rounded down.
/// None is reported only outside the sensor's range, before the first hundredth, and
/// where the same stage was reported last; what was reported last is then kept.
pub proof fn law_stages_are_hundredths_rounded_down(
    normalizer: &mut StandardProgressNormalizer,
    raw: u64,
    r: Option<EnrollProgress>,
)
    requires
        call_ensures(StandardProgressNormalizer::normalize, (normalizer, raw), r),
    ensures
        r matches Some(progress) ==> progress.total_stages == 100 && progress.completed_stage >= 1
            && has_reached(raw, progress.completed_stage) && final(normalizer).reported() == Some(
            progress.completed_stage,
        ) && old(normalizer).reported() != Some(progress.completed_stage),
        r is None ==> final(normalizer).reported() == old(normalizer).reported() && (raw < 100
            || raw > 355 || (raw - 100) * 100 < 255 || exists|stage: u8|
            old(normalizer).reported() == Some(stage) && #[trigger] has_reached(raw, stage)),
        forall|stage: u8|
            stage >= 1 && old(normalizer).reported() != Some(stage) && #[trigger] has_reached(
                raw,
                stage,
            ) ==> (r matches Some(progress) && progress.completed_stage == stage),
{
    if 100 <= raw <= 355 {
        let product: int = (raw - 100) * 100;
        let stage: u8 = (product / 255) as u8;
        assert(0 <= product / 255 <= 100 && (product / 255) * 255 <= product && product < (product
            / 255 + 1) * 255) by (nonlinear_arith)
            requires
                0 <= product <= 25_500,
        ;
        assert(has_reached(raw, stage));
        assert forall|other: u8| #[trigger] has_reached(raw, other) implies other == stage by {
            assert(other == stage) by (nonlinear_arith)
                requires
                    other * 255 <= product < (other + 1) * 255,
                    stage * 255 <= product < (stage + 1) * 255,
            ;
        }
    }
}

/// A fresh normalizer reports the first stage that is reached.
pub proof fn law_fresh_normalizers_report_at_once(
    fresh: StandardProgressNormalizer,
    normalizer: &mut StandardProgressNormalizer,
    raw: u64,
    r: Option<EnrollProgress>,
)
    requires
        call_ensures(StandardProgressNormalizer::default, (), fresh),
        *old(normalizer) == fresh,
        call_ensures(StandardProgressNormalizer::normalize, (normalizer, raw), r),
    ensures
        fresh.reported() is None,
        r is Some <==> 100 <= raw <= 355 && (raw - 100) * 100 >= 255,
{
    law_stages_are_hundredths_rounded_down(normalizer, raw, r);
    if 100 <= raw <= 355 {
        let product: int = (raw - 100) * 100;
        if product >= 255 {
            assert(r is Some);
        } else if let Some(progress) = r {
            let stage = progress.completed_stage;
            assert(stage * 255 >= 255) by (nonlinear_arith)
                requires
                    stage >= 1,
            ;
        }
    }
}

/// Two later values never report an earlier stage, and the same value is reported once.
pub proof fn law_progress_never_falls_back(
    normalizer: &mut StandardProgressNormalizer,
    again: &mut StandardProgressNormalizer,
    low: u64,
    high: u64,
    first: Option<EnrollProgress>,
    second: Option<EnrollProgress>,
)
    requires
        low <= high,
        *old(again) == *final(normalizer),
        call_ensures(StandardProgressNormalizer::normalize, (normalizer, low), first),
        call_ensures(StandardProgressNormalizer::normalize, (again, high), second),
    ensures
        first is Some && second is Some ==> first->0.completed_stage < second->0.completed_stage,
        low == high ==> second is None,
{
    law_stages_are_hundredths_rounded_down(normalizer, low, first);
    law_stages_are_hundredths_rounded_down(again, high, second);
    if first is Some && second is Some {
        let a: u8 = first->0.completed_stage;
        let b: u8 = second->0.completed_stage;
        assert(a <= b) by (nonlinear_arith)
            requires
                a * 255 <= (low - 100) * 100,
                (high - 100) * 100 < (b + 1) * 255,
                low <= high,
        ;
    }
}

/// The identifiers are those of the identities, each in its place.
pub proof fn law_identifiers_keep_their_places(identities: &Vec<Identity>, r: Vec<IdentityId>)
    requires
        call_ensures(identity_ids, (identities,), r),
    ensures
        r@.len() == identities@.len(),
        forall|i: int|
            0 <= i < identities@.len() ==> (#[trigger] r@[i]).bytes == identities@[i].identifier,
{
}

/// Whether `id` stands in exactly one place.
pub open spec fn stands_once(ids: Seq<IdentityId>, id: IdentityId) -> bool {
    exists|j: int| #[trigger] stands_only_at(ids, id, j)
}

/// Whether `id` stands at `j` and nowhere else.
pub open spec fn stands_only_at(ids: Seq<IdentityId>, id: IdentityId, j: int) -> bool {
    0 <= j < ids.len() && ids[j] == id && forall|k: int|
        0 <= k < ids.len() && k != j ==> #[trigger] ids[k] != id
}

proof fn lemma_occurrences_are_places(ids: Seq<IdentityId>, id: IdentityId)
    ensures
        occurrences(ids, id) == 0 <==> forall|k: int| 0 <= k < ids.len() ==> #[trigger] ids[k]
            != id,
        occurrences(ids, id) == 1 <==> stands_once(ids, id),
    decreases ids.len(),
{
    if ids.len() > 0 {
        let shorter = ids.drop_last();
        lemma_occurrences_are_places(shorter, id);
        assert(forall|k: int| 0 <= k < shorter.len() ==> #[trigger] shorter[k] == ids[k]);
        if occurrences(shorter, id) == 0 {
            if ids.last() == id {
                assert forall|k: int| 0 <= k < ids.len() && k
                    != ids.len() - 1 implies #[trigger] ids[k]
                    != id by {
                    assert(shorter[k] == ids[k]);
                }
                assert(stands_only_at(ids, id, ids.len() - 1));
            } else {
                assert forall|k: int| 0 <= k < ids.len() implies #[trigger] ids[k] != id by {
                    if k < shorter.len() {
                        assert(shorter[k] == ids[k]);
                    }
                }
            }
        } else {
            let k = choose|k: int| 0 <= k < shorter.len() && #[trigger] shorter[k] == id;
            assert(ids[k] == id);
            if occurrences(shorter, id) == 1 {
                let j = choose|j: int| #[trigger] stands_only_at(shorter, id, j);
                assert(ids[j] == id);
                if ids.last() != id {
                    assert forall|k: int| 0 <= k < ids.len() && k != j implies #[trigger] ids[k]
                        != id by {
                        if k < shorter.len() {
                            assert(shorter[k] == ids[k]);
                        }
                    }
                    assert(stands_only_at(ids, id, j));
                } else if stands_once(ids, id) {
                    let m = choose|m: int| #[trigger] stands_only_at(ids, id, m);
                    assert(ids[ids.len() - 1] == id && ids[j] == id);
                    assert(m == j && m == ids.len() - 1);
                }
            } else if stands_once(ids, id) {
                let m = choose|m: int| #[trigger] stands_only_at(ids, id, m);
                if m == ids.len() - 1 {
                    assert(ids[k] != id);
                } else {
                    assert forall|k: int| 0 <= k < shorter.len() && k != m implies
                        #[trigger] shorter[k] != id by {
                        assert(shorter[k] == ids[k]);
                    }
                    assert(stands_only_at(shorter, id, m));
                }
            }
        }
    }
}

/// The actual identities are the expected ones exactly where there are as many and each
/// expected one stands in exactly one place.
pub proof fn law_identity_sets_agree_one_by_one(
    expected: &Vec<IdentityId>,
    actual: &Vec<IdentityId>,
    r: bool,
)
    requires
        call_ensures(same_identity_set, (expected, actual), r),
    ensures
        r <==> expected@.len() == actual@.len() && forall|i: int|
            0 <= i < expected@.len() ==> stands_once(actual@, #[trigger] expected@[i]),
{
    assert forall|i: int| 0 <= i < expected@.len() implies (occurrences(
        actual@,
        #[trigger] expected@[i],
    ) == 1 <==> stands_once(actual@, expected@[i])) by {
        lemma_occurrences_are_places(actual@, expected@[i]);
    }
}

/// A standard enrollment is prepared for one user with one record, and goes on with the
/// active pair that was found; a missing pair is no failure, what cannot be read is.
pub proof fn law_standard_preparations_keep_what_was_loaded<'a, D, R, M, C>(
    user_id: u32,
    record: &'a [u8],
    resolution: StandardResolution<'a>,
    resolving: u32,
    resolved: Result<CatacombRecoveryOutcome, R>,
    second: StandardPreparationStep<'a, D, R, M, C>,
    load: StandardLoad<'a>,
    loaded: Result<Option<Result<D, M>>, CatacombStoreError>,
    third: StandardPreparationStep<'a, D, R, M, C>,
    reservation: StandardReservation<'a, D>,
    begun: Result<(), CatacombStoreError>,
    fourth: StandardPreparationStep<'a, D, R, M, C>,
    liveness: StandardLiveness<'a, D>,
    calibrating: &'a [u8],
    calibrated: Result<(), C>,
    end: Result<PreparedStandardEnrollment<D>, StandardEnrollmentPreparationError<R, M, C>>,
    resolution_step: StandardPreparationStep<'a, D, R, M, C>,
)
    requires
        call_ensures(prepare_standard_enrollment::<D, R, M, C>, (user_id, record), resolution_step),
        resolution_step is Recover ==> resolution_step->Recover_0 == resolution,
        call_ensures(StandardResolution::<'a>::user_id, (&resolution,), resolving),
        call_ensures(
            StandardResolution::<'a>::resolved::<D, R, M, C>,
            (resolution, resolved),
            second,
        ),
        second is LoadActive ==> second->LoadActive_0 == load,
        call_ensures(StandardLoad::<'a>::loaded::<D, R, M, C>, (load, loaded), third),
        third is BeginTransaction ==> third->BeginTransaction_0 == reservation,
        call_ensures(
            StandardReservation::<'a, D>::begun::<R, M, C>,
            (reservation, begun),
            fourth,
        ),
        fourth is Calibrate ==> fourth->Calibrate_0 == liveness,
        call_ensures(StandardLiveness::<'a, D>::record, (&liveness,), calibrating),
        call_ensures(
            StandardLiveness::<'a, D>::calibrated::<R, M, C>,
            (liveness, calibrated),
            end,
        ),
    ensures
        resolution_step is Recover,
        resolving == user_id,
        second is LoadActive <==> resolved == Ok::<CatacombRecoveryOutcome, R>(
            CatacombRecoveryOutcome::Clean,
        ) || resolved == Ok::<CatacombRecoveryOutcome, R>(CatacombRecoveryOutcome::Promoted),
        resolved matches Err(error) ==> second == StandardPreparationStep::<D, R, M, C>::Failed(
            StandardEnrollmentPreparationError::Recovery(error),
        ),
        resolved == Ok::<CatacombRecoveryOutcome, R>(CatacombRecoveryOutcome::Quarantined)
            ==> second == StandardPreparationStep::<D, R, M, C>::Failed(
            StandardEnrollmentPreparationError::RecoveryBlocked,
        ),
        third is Failed <==> (loaded matches Ok(Some(Err(_)))) || (loaded is Err && loaded->Err_0
            != CatacombStoreError::MissingPair),
        loaded matches Ok(Some(Err(error))) ==> third == StandardPreparationStep::<
            D,
            R,
            M,
            C,
        >::Failed(StandardEnrollmentPreparationError::Metadata(error)),
        third is Failed && loaded is Err ==> third == StandardPreparationStep::<D, R, M, C>::Failed(
            StandardEnrollmentPreparationError::Store(loaded->Err_0),
        ),
        fourth is Calibrate <==> begun is Ok,
        begun matches Err(error) ==> fourth == StandardPreparationStep::<D, R, M, C>::Failed(
            StandardEnrollmentPreparationError::Store(error),
        ),
        second is LoadActive && third is BeginTransaction && fourth is Calibrate ==> calibrating@
            == record@,
        end is Ok <==> calibrated is Ok,
        calibrated matches Err(error) ==> end == Err::<
            PreparedStandardEnrollment<D>,
            StandardEnrollmentPreparationError<R, M, C>,
        >(StandardEnrollmentPreparationError::Calibration(error)),
        third is BeginTransaction && fourth is Calibrate && end is Ok ==> {
            &&& end->Ok_0.has_active_pair <==> loaded is Ok
            &&& loaded matches Ok(Some(Ok(metadata))) ==> end->Ok_0.committed_metadata == Some(
                metadata,
            )
            &&& !(loaded matches Ok(Some(Ok(_)))) ==> end->Ok_0.committed_metadata is None
        },
{
}

/// A standard enrollment with an active pair restores it; without one it prepares the
/// live user. Either way it goes on with its subject, its metadata and at most two
/// identities.
pub proof fn law_standard_enrollments_begin_with_room<'a, D, K, R, U, C, M, S, P, E, B>(
    user_id: u32,
    owner: &'a str,
    finger: FingerLabel,
    credential: &'a [u8],
    committed: Option<D>,
    has_active_pair: bool,
    first: StandardEnrollmentStep<'a, D, K, R, U, C, M, S, P, E, B>,
    restore: StandardRestore<'a, D>,
    restored: Result<Vec<Identity>, R>,
    second: StandardEnrollmentStep<'a, D, K, R, U, C, M, S, P, E, B>,
    user: StandardUser<'a, D>,
    prepared: Result<Vec<Identity>, U>,
    third: StandardEnrollmentStep<'a, D, K, R, U, C, M, S, P, E, B>,
)
    requires
        call_ensures(
            run_reserved_standard_enrollment::<D, K, R, U, C, M, S, P, E, B>,
            (user_id, owner, finger, credential, committed, has_active_pair),
            first,
        ),
        first is RestoreUser ==> first->RestoreUser_0 == restore,
        first is PrepareUser ==> first->PrepareUser_0 == user,
        call_ensures(
            StandardRestore::<'a, D>::restored::<K, R, U, C, M, S, P, E, B>,
            (restore, restored),
            second,
        ),
        call_ensures(
            StandardUser::<'a, D>::prepared::<K, R, U, C, M, S, P, E, B>,
            (user, prepared),
            third,
        ),
    ensures
        first is RestoreUser <==> has_active_pair,
        first is PrepareUser <==> !has_active_pair,
        second is Reconcile <==> restored is Ok && restored->Ok_0@.len() < 3,
        restored is Ok && restored->Ok_0@.len() >= 3 ==> second
            == StandardEnrollmentStep::<D, K, R, U, C, M, S, P, E, B>::Failed(
            StandardEnrollmentError::IdentityCapacityReached,
        ),
        restored matches Err(error) ==> second
            == StandardEnrollmentStep::<D, K, R, U, C, M, S, P, E, B>::Failed(
            StandardEnrollmentError::Restore(error),
        ),
        second matches StandardEnrollmentStep::Reconcile(next) ==> next.found() == restored->Ok_0@,
        has_active_pair ==> (second matches StandardEnrollmentStep::Reconcile(next)
            ==> next.metadata() == committed && next.whom() == (StandardSubject {
            user_id,
            credential,
            owner,
            finger,
        })),
        third is ReadStates <==> prepared is Ok,
        prepared matches Err(error) ==> third
            == StandardEnrollmentStep::<D, K, R, U, C, M, S, P, E, B>::Failed(
            StandardEnrollmentError::User(error),
        ),
        third matches StandardEnrollmentStep::ReadStates(next) ==> next.found()
            == prepared->Ok_0@ && !next.was_rebound(),
        !has_active_pair ==> (third matches StandardEnrollmentStep::ReadStates(next)
            ==> next.whom() == (StandardSubject { user_id, credential, owner, finger })
            && next.metadata() == committed),
{
}

/// A live user goes on where the states show it securely loaded and it has room; an
/// insecure one is rebound once and then refused.
pub proof fn law_standard_users_are_secure_with_room<'a, D, K, R, U, C, M, S, P, E, B>(
    security: StandardSecurity<'a, D>,
    states: Result<Vec<CatacombStateEntry>, U>,
    r: StandardEnrollmentStep<'a, D, K, R, U, C, M, S, P, E, B>,
    rebinding: StandardRebinding<'a, D>,
    rebound: Result<Vec<Identity>, U>,
    again: StandardEnrollmentStep<'a, D, K, R, U, C, M, S, P, E, B>,
)
    requires
        call_ensures(
            StandardSecurity::<'a, D>::read::<K, R, U, C, M, S, P, E, B>,
            (security, states),
            r,
        ),
        r is Rebind ==> r->Rebind_0 == rebinding,
        call_ensures(
            StandardRebinding::<'a, D>::rebound::<K, R, U, C, M, S, P, E, B>,
            (rebinding, rebound),
            again,
        ),
    ensures
        ({
            let secure = states is Ok && exists|i: int|
                0 <= i < states->Ok_0@.len() && is_secure(
                    #[trigger] states->Ok_0@[i],
                    security.whom().user_id,
                );
            &&& r is Reconcile <==> secure && security.found().len() < 3
            &&& r matches StandardEnrollmentStep::Reconcile(next) ==> next.whom()
                == security.whom() && next.metadata() == security.metadata() && next.found()
                == security.found()
            &&& secure && security.found().len() >= 3 ==> r
                == StandardEnrollmentStep::<D, K, R, U, C, M, S, P, E, B>::Failed(
                StandardEnrollmentError::IdentityCapacityReached,
            )
            &&& r is Rebind <==> states is Ok && !secure && !security.was_rebound()
            &&& states is Ok && !secure && security.was_rebound() ==> r
                == StandardEnrollmentStep::<D, K, R, U, C, M, S, P, E, B>::Failed(
                StandardEnrollmentError::CatacombNotSecurelyLoaded,
            )
            &&& states matches Err(error) ==> r
                == StandardEnrollmentStep::<D, K, R, U, C, M, S, P, E, B>::Failed(
                StandardEnrollmentError::User(error),
            )
            &&& again is ReadStates <==> rebound is Ok
            &&& rebound matches Err(error) ==> again
                == StandardEnrollmentStep::<D, K, R, U, C, M, S, P, E, B>::Failed(
                StandardEnrollmentError::User(error),
            )
            &&& again matches StandardEnrollmentStep::ReadStates(next) ==> next.was_rebound()
                && next.found() == rebound->Ok_0@
            &&& r is Rebind && again is ReadStates ==> again->ReadStates_0.whom()
                == security.whom() && again->ReadStates_0.metadata() == security.metadata()
        }),
{
}

/// From the reconciliation to the match against what is enrolled: each stage goes on
/// exactly where it succeeded, with the same subject, catalog and identities.
pub proof fn law_standard_stages_go_on_by_success<'a, D, K, R, U, C, M, S, P, E, B>(
    reconciliation: StandardReconciliation<'a, D>,
    reconciled: Result<K, CatalogFault<C>>,
    second: StandardEnrollmentStep<'a, D, K, R, U, C, M, S, P, E, B>,
    system: StandardSystemPolicy<'a, K>,
    system_enabled: Result<(), S>,
    third: StandardEnrollmentStep<'a, D, K, R, U, C, M, S, P, E, B>,
    user: StandardUserPolicy<'a, K>,
    user_enabled: Result<(), P>,
    fourth: StandardEnrollmentStep<'a, D, K, R, U, C, M, S, P, E, B>,
    presentation: StandardPresentation<'a, K>,
    fifth: StandardEnrollmentStep<'a, D, K, R, U, C, M, S, P, E, B>,
)
    requires
        call_ensures(
            StandardReconciliation::<'a, D>::reconciled::<K, R, U, C, M, S, P, E, B>,
            (reconciliation, reconciled),
            second,
        ),
        call_ensures(
            StandardSystemPolicy::<'a, K>::enabled::<D, R, U, C, M, S, P, E, B>,
            (system, system_enabled),
            third,
        ),
        call_ensures(
            StandardUserPolicy::<'a, K>::enabled::<D, R, U, C, M, S, P, E, B>,
            (user, user_enabled),
            fourth,
        ),
        call_ensures(
            StandardPresentation::<'a, K>::presented::<D, R, U, C, M, S, P, E, B>,
            (presentation,),
            fifth,
        ),
    ensures
        second is EnableSystem <==> reconciled is Ok,
        second matches StandardEnrollmentStep::EnableSystem(next) ==> next.whom()
            == reconciliation.whom() && next.found() == reconciliation.found() && next.labels()
            == reconciled->Ok_0,
        reconciled matches Err(CatalogFault::InvalidIdentity) ==> second
            == StandardEnrollmentStep::<D, K, R, U, C, M, S, P, E, B>::Failed(StandardEnrollmentError::InvalidIdentity),
        reconciled matches Err(CatalogFault::Catalog(error)) ==> second
            == StandardEnrollmentStep::<D, K, R, U, C, M, S, P, E, B>::Failed(StandardEnrollmentError::Catalog(error)),
        third is EnableUser <==> system_enabled is Ok,
        third matches StandardEnrollmentStep::EnableUser(next) ==> next.whom() == system.whom()
            && next.found() == system.found() && next.labels() == system.labels(),
        system_enabled matches Err(error) ==> third
            == StandardEnrollmentStep::<D, K, R, U, C, M, S, P, E, B>::Failed(
            StandardEnrollmentError::SystemPolicy(error),
        ),
        fourth is Present <==> user_enabled is Ok,
        fourth matches StandardEnrollmentStep::Present(next) ==> next.whom() == user.whom()
            && next.found() == user.found() && next.labels() == user.labels(),
        user_enabled matches Err(error) ==> fourth
            == StandardEnrollmentStep::<D, K, R, U, C, M, S, P, E, B>::Failed(
            StandardEnrollmentError::UserPolicy(error),
        ),
        presentation.found().len() > 0 ==> fifth is CheckDuplicate
            && fifth->CheckDuplicate_0.found() == presentation.found()
            && fifth->CheckDuplicate_0.whom() == presentation.whom()
            && fifth->CheckDuplicate_0.labels() == presentation.labels(),
        presentation.found().len() == 0 ==> fifth is Enroll && fifth->Enroll_0.existing().len()
            == 0 && fifth->Enroll_0.whom() == presentation.whom() && fifth->Enroll_0.labels()
            == presentation.labels(),
{
}

/// Only a finger that matches no enrolled identity is captured; a match is a duplicate,
/// and nothing else is. The identities before the enrollment are kept in their places.
pub proof fn law_no_duplicate_is_captured<'a, D, K, R, U, C, M, S, P, E, B>(
    check: StandardDuplicateCheck<'a, K>,
    outcome: Result<IdentityMatchOutcome, M>,
    r: StandardEnrollmentStep<'a, D, K, R, U, C, M, S, P, E, B>,
    encoded: Vec<u8>,
    identities: &[Identity],
    direct: Vec<u8>,
)
    requires
        call_ensures(
            StandardDuplicateCheck::<'a, K>::checked::<D, R, U, C, M, S, P, E, B>,
            (check, outcome),
            r,
        ),
        call_ensures(StandardDuplicateCheck::<'a, K>::encoded, (&check,), encoded),
        call_ensures(StandardDuplicateCheck::<'a, K>::identities, (&check,), identities),
        call_ensures(encode_identities, (identities,), direct),
    ensures
        identities@ == check.found(),
        encoded@ == direct@,
        r is Enroll <==> outcome == Ok::<IdentityMatchOutcome, M>(IdentityMatchOutcome::NoMatch),
        r matches StandardEnrollmentStep::Enroll(next) ==> {
            &&& next.whom() == check.whom() && next.labels() == check.labels()
            &&& next.existing().len() == check.found().len()
            &&& forall|i: int|
                0 <= i < check.found().len() ==> (#[trigger] next.existing()[i]).bytes
                    == check.found()[i].identifier
        },
        r == StandardEnrollmentStep::<D, K, R, U, C, M, S, P, E, B>::Failed(StandardEnrollmentError::DuplicateIdentity)
            <==> (outcome matches Ok(IdentityMatchOutcome::Matched(_))),
        r == StandardEnrollmentStep::<D, K, R, U, C, M, S, P, E, B>::Failed(StandardEnrollmentError::EnrollmentCancelled)
            <==> outcome == Ok::<IdentityMatchOutcome, M>(IdentityMatchOutcome::Cancelled),
        r == StandardEnrollmentStep::<D, K, R, U, C, M, S, P, E, B>::Failed(StandardEnrollmentError::EnrollmentTimedOut)
            <==> outcome == Ok::<IdentityMatchOutcome, M>(IdentityMatchOutcome::TimedOut),
        outcome matches Err(error) ==> r
            == StandardEnrollmentStep::<D, K, R, U, C, M, S, P, E, B>::Failed(
            StandardEnrollmentError::DuplicateCheck(error),
        ),
{
}

/// What was captured is labeled with the finger asked for, stored with the manifest that
/// labels it, and verified: a standard enrollment succeeds exactly where the device then
/// lists the identities before and the captured one, each in exactly one place.
pub proof fn law_standard_enrollments_verify_the_whole_set<'a, D, K, R, U, C, M, S, P, E, B>(
    capture: StandardCapture<'a, K>,
    identity: IdentityIdentifier,
    cutoff: StandardCutoff<'a, K>,
    closed: bool,
    second: StandardEnrollmentStep<'a, D, K, R, U, C, M, S, P, E, B>,
    labeling: StandardLabeling<'a, K>,
    labeled_identity: IdentityId,
    labeled_finger: FingerLabel,
    labeled: Result<Vec<u8>, CatalogFault<C>>,
    third: StandardEnrollmentStep<'a, D, K, R, U, C, M, S, P, E, B>,
    persistence: StandardPersistence<'a>,
    stored: &[u8],
    persisted: Result<CatacombBackup, B>,
    fourth: StandardEnrollmentStep<'a, D, K, R, U, C, M, S, P, E, B>,
    verification: StandardVerification<'a>,
    listed: Result<Vec<Identity>, U>,
    all_valid: bool,
    end: Result<StandardEnrollmentSuccess, StandardEnrollmentError<R, U, C, M, S, P, E, B>>,
    cutoff_step: StandardEnrollmentStep<'a, D, K, R, U, C, M, S, P, E, B>,
)
    requires
        call_ensures(
            StandardCapture::<'a, K>::ended::<D, R, U, C, M, S, P, E, B>,
            (capture, Ok::<Option<IdentityIdentifier>, E>(Some(identity))),
            cutoff_step,
        ),
        cutoff_step is CloseCancellation ==> cutoff_step->CloseCancellation_0 == cutoff,
        call_ensures(
            StandardCutoff::<'a, K>::closed::<D, R, U, C, M, S, P, E, B>,
            (cutoff, closed),
            second,
        ),
        second is Label ==> second->Label_0 == labeling,
        call_ensures(StandardLabeling::<'a, K>::identity, (&labeling,), labeled_identity),
        call_ensures(StandardLabeling::<'a, K>::finger, (&labeling,), labeled_finger),
        call_ensures(
            StandardLabeling::<'a, K>::labeled::<D, R, U, C, M, S, P, E, B>,
            (labeling, labeled),
            third,
        ),
        third is Persist ==> third->Persist_0 == persistence,
        call_ensures(StandardPersistence::<'a>::metadata, (&persistence,), stored),
        call_ensures(
            StandardPersistence::<'a>::persisted::<D, K, R, U, C, M, S, P, E, B>,
            (persistence, persisted),
            fourth,
        ),
        fourth is Verify ==> fourth->Verify_0 == verification,
        call_ensures(
            StandardVerification::<'a>::listed::<R, U, C, M, S, P, E, B>,
            (verification, listed, all_valid),
            end,
        ),
    ensures
        cutoff_step is CloseCancellation,
        second is Label <==> closed,
        !closed ==> second == StandardEnrollmentStep::<D, K, R, U, C, M, S, P, E, B>::Failed(
            StandardEnrollmentError::EnrollmentCancelled,
        ),
        closed ==> labeled_identity.bytes == identity && labeled_finger == capture.whom().finger
            && labeling.labels() == capture.labels(),
        third is Persist <==> labeled is Ok,
        third is Persist ==> stored@ == labeled->Ok_0@,
        labeled matches Err(CatalogFault::InvalidIdentity) ==> third
            == StandardEnrollmentStep::<D, K, R, U, C, M, S, P, E, B>::Failed(StandardEnrollmentError::InvalidIdentity),
        labeled matches Err(CatalogFault::Catalog(error)) ==> third
            == StandardEnrollmentStep::<D, K, R, U, C, M, S, P, E, B>::Failed(StandardEnrollmentError::Catalog(error)),
        fourth is Verify <==> persisted is Ok,
        persisted matches Err(error) ==> fourth
            == StandardEnrollmentStep::<D, K, R, U, C, M, S, P, E, B>::Failed(
            StandardEnrollmentError::Persistence(error),
        ),
        closed && labeled is Ok ==> persistence.whom() == capture.whom(),
        closed && labeled is Ok && persisted is Ok ==> verification.whom() == capture.whom(),
        closed && labeled is Ok && persisted is Ok ==> (end is Ok <==> {
            &&& all_valid && listed is Ok
            &&& listed->Ok_0@.len() == capture.existing().len() + 1
            &&& forall|i: int|
                0 <= i < capture.existing().len() ==> is_listed_once(
                    listed->Ok_0@,
                    (#[trigger] capture.existing()[i]).bytes,
                )
            &&& is_listed_once(listed->Ok_0@, identity)
        }),
        closed && labeled is Ok && persisted is Ok && end is Ok ==> end->Ok_0.identity.bytes
            == identity && end->Ok_0.catacombs == persisted->Ok_0,
        listed matches Err(error) ==> end == Err::<
            StandardEnrollmentSuccess,
            StandardEnrollmentError<R, U, C, M, S, P, E, B>,
        >(StandardEnrollmentError::PostCommitIdentityVerification(error)),
        listed is Ok && !all_valid ==> end == Err::<
            StandardEnrollmentSuccess,
            StandardEnrollmentError<R, U, C, M, S, P, E, B>,
        >(StandardEnrollmentError::InvalidIdentity),
        listed is Ok && all_valid && end is Err ==> end->Err_0 is PostCommitIdentitySetChanged,
{
    if closed && labeled is Ok && persisted is Ok && listed is Ok && all_valid {
        let before = capture.existing();
        let expected = verification.expected();
        let ids = ids_of(listed->Ok_0@);
        assert(expected =~= before.push(IdentityId { bytes: identity }));
        assert(expected[before.len() as int].bytes == identity);
        assert forall|i: int| 0 <= i < expected.len() implies (occurrences(
            ids,
            #[trigger] expected[i],
        ) == 1 <==> is_listed_once(listed->Ok_0@, expected[i].bytes)) by {
            lemma_occurrences_are_places(ids, expected[i]);
            lemma_listed_is_standing(listed->Ok_0@, expected[i]);
        }
        if end is Ok {
            assert forall|i: int| 0 <= i < before.len() implies is_listed_once(
                listed->Ok_0@,
                (#[trigger] before[i]).bytes,
            ) by {
                assert(expected[i] == before[i]);
            }
        } else {
            assert forall|i: int|
                0 <= i < expected.len() && listed->Ok_0@.len() == before.len() + 1 && (forall|
                    i: int,
                |
                    0 <= i < before.len() ==> is_listed_once(
                        listed->Ok_0@,
                        (#[trigger] before[i]).bytes,
                    )) && is_listed_once(listed->Ok_0@, identity) implies occurrences(
                ids,
                #[trigger] expected[i],
            ) == 1 by {
                if i < before.len() {
                    assert(expected[i] == before[i]);
                }
            }
        }
    }
}

/// Whether exactly one of the identities has the identifier.
pub open spec fn is_listed_once(
    identities: Seq<Identity>,
    identifier: IdentityIdentifier,
) -> bool {
    exists|j: int| #[trigger] is_listed_only_at(identities, identifier, j)
}

/// Whether the identity at `j`, and no other, has the identifier.
pub open spec fn is_listed_only_at(
    identities: Seq<Identity>,
    identifier: IdentityIdentifier,
    j: int,
) -> bool {
    0 <= j < identities.len() && identities[j].identifier == identifier && forall|k: int|
        0 <= k < identities.len() && k != j ==> (#[trigger] identities[k]).identifier != identifier
}

proof fn lemma_listed_is_standing(identities: Seq<Identity>, id: IdentityId)
    ensures
        stands_once(ids_of(identities), id) <==> is_listed_once(identities, id.bytes),
{
    let ids = ids_of(identities);
    assert forall|j: int|
        stands_only_at(ids, id, j) <==> is_listed_only_at(identities, id.bytes, j) by {
        if stands_only_at(ids, id, j) {
            assert forall|k: int| 0 <= k < identities.len() && k != j implies (
            #[trigger] identities[k]).identifier != id.bytes by {
                assert(ids[k] != id);
            }
        }
        if is_listed_only_at(identities, id.bytes, j) {
            assert forall|k: int| 0 <= k < ids.len() && k != j implies #[trigger] ids[k] != id by {
                assert(identities[k].identifier != id.bytes);
            }
        }
    }
    if stands_once(ids, id) {
        let j = choose|j: int| #[trigger] stands_only_at(ids, id, j);
        assert(is_listed_only_at(identities, id.bytes, j));
    }
    if is_listed_once(identities, id.bytes) {
        let j = choose|j: int| #[trigger] is_listed_only_at(identities, id.bytes, j);
        assert(stands_only_at(ids, id, j));
    }
}

/// What a capture gives besides an identity.
pub proof fn law_standard_captures_end_alike<'a, D, K, R, U, C, M, S, P, E, B>(
    capture: StandardCapture<'a, K>,
    outcome: Result<Option<IdentityIdentifier>, E>,
    r: StandardEnrollmentStep<'a, D, K, R, U, C, M, S, P, E, B>,
)
    requires
        call_ensures(
            StandardCapture::<'a, K>::ended::<D, R, U, C, M, S, P, E, B>,
            (capture, outcome),
            r,
        ),
    ensures
        r is CloseCancellation <==> outcome is Ok && outcome->Ok_0 is Some,
        outcome == Ok::<Option<IdentityIdentifier>, E>(None) ==> r
            == StandardEnrollmentStep::<D, K, R, U, C, M, S, P, E, B>::Failed(StandardEnrollmentError::EnrollmentTimedOut),
        outcome matches Err(error) ==> r
            == StandardEnrollmentStep::<D, K, R, U, C, M, S, P, E, B>::Failed(
            StandardEnrollmentError::Enrollment(error),
        ),
{
}

} // verus!
