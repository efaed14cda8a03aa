//! When a pair counts as restored on the device.

use crate::biometric::{CatacombStateEntry, Identity};
use crate::catacomb_restore::{
    ensure_identity_user, last_state, recovery_verdict, restore_catacomb_pair,
    restore_catacomb_pair_for_enrollment, restore_pair, state_for, validate_recovery_candidate,
    CatacombRestoreError, CatacombRestoreStage, EmptyCommand, PendingCommand, PendingDaemonInfo,
    PendingIdentities, PendingLockState, PendingStates, PendingValidation, RestoreFault,
    RestoreRequest, RestoreStep, RestoredCatacomb, StateReading,
};
use crate::catacomb_store::{CatacombPair, CatacombStoreError};
use vstd::prelude::*;

verus! {

/// Whether the entry at `i` is the last one of the user.
pub open spec fn is_last_of(states: Seq<CatacombStateEntry>, user_id: u32, i: int) -> bool {
    &&& 0 <= i < states.len() && states[i].user_id == user_id
    &&& forall|j: int| i < j < states.len() ==> (#[trigger] states[j]).user_id != user_id
}

/// Whether the last entry of the user carries bit 0.
pub open spec fn ends_loaded(states: Seq<CatacombStateEntry>, user_id: u32) -> bool {
    exists|i: int| #[trigger] is_last_of(states, user_id, i) && states[i].state & 1 != 0
}

/// Whether the last entry of the user carries bits 0 and 1.
pub open spec fn ends_secure(states: Seq<CatacombStateEntry>, user_id: u32) -> bool {
    exists|i: int| #[trigger] is_last_of(states, user_id, i) && states[i].state & 3 == 3
}

/// Whether `state` is what the list last gives for the user, or nothing where it gives
/// nothing.
pub open spec fn is_last_given(
    states: Seq<CatacombStateEntry>,
    user_id: u32,
    state: Option<u32>,
) -> bool {
    match state {
        Some(bits) => exists|i: int| #[trigger]
            is_last_of(states, user_id, i) && states[i].state == bits,
        None => forall|i: int| 0 <= i < states.len() ==> (#[trigger] states[i]).user_id != user_id,
    }
}

proof fn lemma_last_state(states: Seq<CatacombStateEntry>, user_id: u32)
    ensures
        is_last_given(states, user_id, last_state(states, user_id)),
    decreases states.len(),
{
    if states.len() > 0 {
        let head = states.drop_last();
        if states.last().user_id == user_id {
            assert(is_last_of(states, user_id, states.len() - 1));
        } else {
            lemma_last_state(head, user_id);
            assert(forall|i: int| 0 <= i < head.len() ==> #[trigger] head[i] == states[i]);
            if let Some(bits) = last_state(head, user_id) {
                let i = choose|i: int| #[trigger]
                    is_last_of(head, user_id, i) && head[i].state == bits;
                assert forall|j: int| i < j < states.len() implies (#[trigger] states[j]).user_id
                    != user_id by {
                    if j < head.len() {
                        assert(head[j].user_id != user_id);
                    }
                }
                assert(is_last_of(states, user_id, i));
            } else {
                assert forall|i: int| 0 <= i < states.len() implies (
                #[trigger] states[i]).user_id != user_id by {
                    if i < head.len() {
                        assert(head[i].user_id != user_id);
                    }
                }
            }
        }
    }
}

proof fn lemma_last_place_is_unique(
    states: Seq<CatacombStateEntry>,
    user_id: u32,
    i: int,
    j: int,
)
    requires
        is_last_of(states, user_id, i),
        is_last_of(states, user_id, j),
    ensures
        i == j,
{
    if i < j {
        assert(states[j].user_id != user_id);
    }
    if j < i {
        assert(states[i].user_id != user_id);
    }
}

proof fn lemma_last_bits(states: Seq<CatacombStateEntry>, user_id: u32)
    ensures
        ends_loaded(states, user_id) <==> (last_state(states, user_id) matches Some(bits) && bits
            & 1 != 0),
        ends_secure(states, user_id) <==> (last_state(states, user_id) matches Some(bits) && bits
            & 3 == 3),
{
    lemma_last_state(states, user_id);
    if let Some(bits) = last_state(states, user_id) {
        let i = choose|i: int| #[trigger]
            is_last_of(states, user_id, i) && states[i].state == bits;
        assert forall|j: int| #[trigger] is_last_of(states, user_id, j) implies j == i by {
            lemma_last_place_is_unique(states, user_id, i, j);
        }
    }
}

/// The state for a user is the one that its last entry gives, and none without an entry.
pub proof fn law_later_states_count(
    states: &Vec<CatacombStateEntry>,
    user_id: u32,
    r: Option<u32>,
)
    requires
        call_ensures(state_for, (states, user_id), r),
    ensures
        is_last_given(states@, user_id, r),
        r is Some <==> exists|i: int|
            0 <= i < states@.len() && (#[trigger] states@[i]).user_id == user_id,
{
    lemma_last_state(states@, user_id);
    if let Some(bits) = r {
        let i = choose|i: int| #[trigger]
            is_last_of(states@, user_id, i) && states@[i].state == bits;
        assert(states@[i].user_id == user_id);
    }
}

/// Identities belong to a user where each one names it; none belong to a user that no
/// identity can name.
pub proof fn law_identities_belong_to_whom_they_name(
    identities: &Vec<Identity>,
    user_id: u32,
    r: bool,
)
    requires
        call_ensures(ensure_identity_user, (identities, user_id), r),
    ensures
        r <==> user_id <= 2_147_483_647 && forall|i: int|
            0 <= i < identities@.len() ==> (#[trigger] identities@[i]).user_id == user_id,
{
}

/// The states before the restore do not matter. After the master was loaded, the user is
/// loaded only where the master's last entry (user 4294967295) carries bit 0; after the
/// user was loaded, its identities are read only where its own last entry carries bits 0
/// and 1. Else the restore ends with the state that was given.
pub proof fn law_loads_are_confirmed_by_the_last_states<'a, T, P, C>(
    pending: PendingStates<'a>,
    states: Vec<CatacombStateEntry>,
    r: RestoreStep<'a, T, P, C>,
)
    requires
        call_ensures(
            PendingStates::<'a>::read::<T, P, C>,
            (pending, Ok::<Vec<CatacombStateEntry>, RestoreFault<T, P>>(states)),
            r,
        ),
    ensures
        pending.reading == StateReading::BeforeRestore ==> r == RestoreStep::<T, P, C>::Command(
            PendingCommand { request: pending.request, command: EmptyCommand::LoadMaster },
        ),
        pending.reading == StateReading::AfterMaster ==> {
            &&& r is Command <==> ends_loaded(states@, 4_294_967_295)
            &&& r matches RestoreStep::Command(next) ==> next == (PendingCommand {
                request: pending.request,
                command: EmptyCommand::LoadUser,
            })
            &&& r is Command || (r matches RestoreStep::End(
                Err(CatacombRestoreError::MasterNotLoaded { state }),
            ) && is_last_given(states@, 4_294_967_295, state))
        },
        pending.reading == StateReading::AfterUser ==> {
            &&& r is Identities <==> ends_secure(states@, pending.request.user_id)
            &&& r matches RestoreStep::Identities(next) ==> next == (PendingIdentities {
                request: pending.request,
                restored: true,
            })
            &&& r is Identities || (r matches RestoreStep::End(
                Err(CatacombRestoreError::UserNotSecurelyLoaded { state }),
            ) && is_last_given(states@, pending.request.user_id, state))
        },
{
    lemma_last_bits(states@, 4_294_967_295);
    lemma_last_bits(states@, pending.request.user_id);
    lemma_last_state(states@, 4_294_967_295);
    lemma_last_state(states@, pending.request.user_id);
}

/// A restore begins with the live identities where these are accepted, and else with the
/// selection of the master.
pub proof fn law_restores_begin_by_what_is_accepted<'a, T, P, C>(
    loaded: Result<&'a CatacombPair, CatacombStoreError>,
    user_id: u32,
    plain: RestoreStep<'a, T, P, C>,
    enrolling: RestoreStep<'a, T, P, C>,
    request: RestoreRequest<'a>,
    first: RestoreStep<'a, T, P, C>,
)
    requires
        call_ensures(restore_catacomb_pair::<T, P, C>, (loaded, user_id), plain),
        call_ensures(
            restore_catacomb_pair_for_enrollment::<T, P, C>,
            (loaded, user_id),
            enrolling,
        ),
        call_ensures(restore_pair::<T, P, C>, (request,), first),
    ensures
        loaded matches Err(error) ==> plain == RestoreStep::<T, P, C>::End(
            Err(CatacombRestoreError::Store(error)),
        ) && enrolling == plain,
        loaded matches Ok(pair) ==> (plain matches RestoreStep::Identities(pending)
            && !pending.restored && pending.request == (RestoreRequest {
            user_id,
            pair,
            allow_live: true,
            allow_empty: false,
        })) && (enrolling matches RestoreStep::Identities(pending) && !pending.restored
            && pending.request == (RestoreRequest {
            user_id,
            pair,
            allow_live: true,
            allow_empty: true,
        })),
        request.allow_live ==> first == RestoreStep::<T, P, C>::Identities(
            PendingIdentities { request, restored: false },
        ),
        !request.allow_live ==> first == RestoreStep::<T, P, C>::Command(
            PendingCommand { request, command: EmptyCommand::SelectMaster },
        ),
{
}

/// Live identities end a restore where there are any: with success where all of them are
/// the user's. Restored ones are accepted, but for the lock state, where all of them are
/// the user's and there are any, or none are needed.
pub proof fn law_identities_have_to_be_the_users<'a, T, P, C>(
    pending: PendingIdentities<'a>,
    identities: Vec<Identity>,
    its_own: bool,
    r: RestoreStep<'a, T, P, C>,
)
    requires
        its_own <==> pending.request.user_id <= 2_147_483_647 && forall|i: int|
            0 <= i < identities@.len() ==> (#[trigger] identities@[i]).user_id
                == pending.request.user_id,
        call_ensures(
            PendingIdentities::<'a>::read::<T, P, C>,
            (pending, Ok::<Vec<Identity>, RestoreFault<T, P>>(identities)),
            r,
        ),
    ensures
        !pending.restored ==> {
            &&& r is Command <==> identities@.len() == 0
            &&& r matches RestoreStep::Command(next) ==> next == (PendingCommand {
                request: pending.request,
                command: EmptyCommand::SelectMaster,
            })
            &&& (r matches RestoreStep::End(Ok(_))) <==> identities@.len() > 0 && its_own
            &&& r matches RestoreStep::End(Ok(restored)) ==> restored.members() == identities@
                && restored.was_live()
            &&& identities@.len() > 0 && !its_own ==> r == RestoreStep::<T, P, C>::End(
                Err(CatacombRestoreError::LiveIdentityForAnotherUser),
            )
        },
        pending.restored ==> {
            &&& r is LockState <==> its_own && (identities@.len() > 0
                || pending.request.allow_empty)
            &&& r matches RestoreStep::LockState(next) ==> next.request == pending.request
                && next.identities@ == identities@
            &&& identities@.len() == 0 && !pending.request.allow_empty ==> r
                == RestoreStep::<T, P, C>::End(Err(CatacombRestoreError::NoEnrolledFingerprints))
            &&& !its_own && (identities@.len() > 0 || pending.request.allow_empty) ==> r
                == RestoreStep::<T, P, C>::End(
                Err(CatacombRestoreError::RestoredIdentityForAnotherUser),
            )
        },
{
}

/// A restore succeeds by its lock state exactly where that does not carry bit 7, with the
/// identities that were read.
pub proof fn law_corrupted_catacombs_are_not_restored<'a, T, P, C>(
    pending: PendingLockState<'a>,
    lock_state: u32,
    r: RestoreStep<'a, T, P, C>,
)
    requires
        call_ensures(
            PendingLockState::<'a>::read::<T, P, C>,
            (pending, Ok::<u32, RestoreFault<T, P>>(lock_state)),
            r,
        ),
    ensures
        (r matches RestoreStep::End(Ok(_))) <==> lock_state & 128 == 0,
        r matches RestoreStep::End(Ok(restored)) ==> restored.members() == pending.identities@
            && !restored.was_live(),
        lock_state & 128 != 0 ==> r == RestoreStep::<T, P, C>::End(
            Err(CatacombRestoreError::CorruptedCatacomb),
        ),
{
}

/// Whether a step has ended by this fault, which happened at this stage.
pub open spec fn ends_by_fault<'a, T, P, C>(
    r: RestoreStep<'a, T, P, C>,
    stage: CatacombRestoreStage,
    fault: RestoreFault<T, P>,
) -> bool {
    &&& r is End && r->End_0 is Err
    &&& fault matches RestoreFault::Transport(error) ==> r->End_0->Err_0 == (
    CatacombRestoreError::<T, P, C>::Transport { stage, error })
    &&& fault matches RestoreFault::Command(error) ==> r->End_0->Err_0
        == CatacombRestoreError::<T, P, C>::Command(error)
    &&& fault matches RestoreFault::Response(error) ==> r->End_0->Err_0
        == CatacombRestoreError::<T, P, C>::Response(error)
    &&& fault matches RestoreFault::Catacomb(error) ==> r->End_0->Err_0
        == CatacombRestoreError::<T, P, C>::Catacomb(error)
    &&& fault matches RestoreFault::Mesa(error) ==> r->End_0->Err_0
        == CatacombRestoreError::<T, P, C>::Mesa(error)
}

/// A fault ends a restore wherever it happens, and is reported with its stage.
pub proof fn law_faults_end_restores_at_their_stage<'a, T, P, C>(
    fault: RestoreFault<T, P>,
    identities: PendingIdentities<'a>,
    after_identities: RestoreStep<'a, T, P, C>,
    command: PendingCommand<'a>,
    after_command: RestoreStep<'a, T, P, C>,
    info: PendingDaemonInfo<'a>,
    after_info: RestoreStep<'a, T, P, C>,
    states: PendingStates<'a>,
    after_states: RestoreStep<'a, T, P, C>,
    lock: PendingLockState<'a>,
    after_lock: RestoreStep<'a, T, P, C>,
)
    requires
        call_ensures(
            PendingIdentities::<'a>::read::<T, P, C>,
            (identities, Err::<Vec<Identity>, RestoreFault<T, P>>(fault)),
            after_identities,
        ),
        call_ensures(
            PendingCommand::<'a>::acknowledged::<T, P, C>,
            (command, Err::<(), RestoreFault<T, P>>(fault)),
            after_command,
        ),
        call_ensures(
            PendingDaemonInfo::<'a>::read::<T, P, C>,
            (info, Err::<u32, RestoreFault<T, P>>(fault)),
            after_info,
        ),
        call_ensures(
            PendingStates::<'a>::read::<T, P, C>,
            (states, Err::<Vec<CatacombStateEntry>, RestoreFault<T, P>>(fault)),
            after_states,
        ),
        call_ensures(
            PendingLockState::<'a>::read::<T, P, C>,
            (lock, Err::<u32, RestoreFault<T, P>>(fault)),
            after_lock,
        ),
    ensures
        ends_by_fault(
            after_identities,
            if identities.restored {
                CatacombRestoreStage::RestoredIdentities
            } else {
                CatacombRestoreStage::LiveIdentities
            },
            fault,
        ),
        command.command == EmptyCommand::SelectMaster ==> ends_by_fault(
            after_command,
            CatacombRestoreStage::SelectMaster,
            fault,
        ),
        command.command == EmptyCommand::LoadMaster ==> ends_by_fault(
            after_command,
            CatacombRestoreStage::LoadMaster,
            fault,
        ),
        command.command == EmptyCommand::LoadUser ==> ends_by_fault(
            after_command,
            CatacombRestoreStage::LoadUser,
            fault,
        ),
        info.reading == StateReading::BeforeRestore ==> ends_by_fault(
            after_info,
            CatacombRestoreStage::RefreshBeforeRestore,
            fault,
        ),
        info.reading == StateReading::AfterMaster ==> ends_by_fault(
            after_info,
            CatacombRestoreStage::ValidateMaster,
            fault,
        ),
        info.reading == StateReading::AfterUser ==> ends_by_fault(
            after_info,
            CatacombRestoreStage::ValidateUser,
            fault,
        ),
        states.reading == info.reading ==> after_states == after_info,
        ends_by_fault(after_lock, CatacombRestoreStage::LockState, fault),
{
}

/// The whole of a restore on the device. Each command is followed by its own reading, the
/// master is sent before the user, and the restore succeeds exactly where the last states
/// confirm both loads, the identities are the user's and the lock state shows no
/// corruption.
pub proof fn law_restores_succeed_only_confirmed<'a, T, P, C>(
    select: PendingCommand<'a>,
    info_before: PendingDaemonInfo<'a>,
    count_before: u32,
    read_before: PendingStates<'a>,
    states_before: Vec<CatacombStateEntry>,
    load_master: PendingCommand<'a>,
    master: Option<&'a [u8]>,
    info_master: PendingDaemonInfo<'a>,
    count_master: u32,
    read_master: PendingStates<'a>,
    states_master: Vec<CatacombStateEntry>,
    after_master: RestoreStep<'a, T, P, C>,
    load_user: PendingCommand<'a>,
    user: Option<&'a [u8]>,
    info_user: PendingDaemonInfo<'a>,
    count_user: u32,
    read_user: PendingStates<'a>,
    states_user: Vec<CatacombStateEntry>,
    after_user: RestoreStep<'a, T, P, C>,
    info_before_step: RestoreStep<'a, T, P, C>,
    read_before_step: RestoreStep<'a, T, P, C>,
    load_master_step: RestoreStep<'a, T, P, C>,
    info_master_step: RestoreStep<'a, T, P, C>,
    read_master_step: RestoreStep<'a, T, P, C>,
    info_user_step: RestoreStep<'a, T, P, C>,
    read_user_step: RestoreStep<'a, T, P, C>,
)
    requires
        select.command == EmptyCommand::SelectMaster,
        call_ensures(
            PendingCommand::<'a>::acknowledged::<T, P, C>,
            (select, Ok::<(), RestoreFault<T, P>>(())),
            info_before_step,
        ),
        info_before_step is DaemonInfo ==> info_before_step->DaemonInfo_0 == info_before,
        call_ensures(
            PendingDaemonInfo::<'a>::read::<T, P, C>,
            (info_before, Ok::<u32, RestoreFault<T, P>>(count_before)),
            read_before_step,
        ),
        read_before_step is States ==> read_before_step->States_0 == read_before,
        call_ensures(
            PendingStates::<'a>::read::<T, P, C>,
            (read_before, Ok::<Vec<CatacombStateEntry>, RestoreFault<T, P>>(states_before)),
            load_master_step,
        ),
        load_master_step is Command ==> load_master_step->Command_0 == load_master,
        call_ensures(PendingCommand::<'a>::payload, (&load_master,), master),
        call_ensures(
            PendingCommand::<'a>::acknowledged::<T, P, C>,
            (load_master, Ok::<(), RestoreFault<T, P>>(())),
            info_master_step,
        ),
        info_master_step is DaemonInfo ==> info_master_step->DaemonInfo_0 == info_master,
        call_ensures(
            PendingDaemonInfo::<'a>::read::<T, P, C>,
            (info_master, Ok::<u32, RestoreFault<T, P>>(count_master)),
            read_master_step,
        ),
        read_master_step is States ==> read_master_step->States_0 == read_master,
        call_ensures(
            PendingStates::<'a>::read::<T, P, C>,
            (read_master, Ok::<Vec<CatacombStateEntry>, RestoreFault<T, P>>(states_master)),
            after_master,
        ),
        after_master is Command ==> after_master->Command_0 == load_user,
        after_master is Command ==> {
            &&& call_ensures(PendingCommand::<'a>::payload, (&load_user,), user)
            &&& call_ensures(
                PendingCommand::<'a>::acknowledged::<T, P, C>,
                (load_user, Ok::<(), RestoreFault<T, P>>(())),
                info_user_step,
            ) && (info_user_step is DaemonInfo ==> info_user_step->DaemonInfo_0 == info_user)
            &&& call_ensures(
                PendingDaemonInfo::<'a>::read::<T, P, C>,
                (info_user, Ok::<u32, RestoreFault<T, P>>(count_user)),
                read_user_step,
            ) && (read_user_step is States ==> read_user_step->States_0 == read_user)
            &&& call_ensures(
                PendingStates::<'a>::read::<T, P, C>,
                (read_user, Ok::<Vec<CatacombStateEntry>, RestoreFault<T, P>>(states_user)),
                after_user,
            )
        },
    ensures
        info_before_step is DaemonInfo,
        read_before_step is States,
        load_master_step is Command,
        info_master_step is DaemonInfo,
        read_master_step is States,
        after_master is Command ==> info_user_step is DaemonInfo,
        after_master is Command ==> read_user_step is States,
        read_before.component_count == count_before,
        read_master.component_count == count_master,
        master matches Some(bytes) && bytes@ == select.request.pair@.master,
        after_master is Command <==> ends_loaded(states_master@, 4_294_967_295),
        after_master is Command || (after_master matches RestoreStep::End(
            Err(CatacombRestoreError::MasterNotLoaded { state }),
        ) && is_last_given(states_master@, 4_294_967_295, state)),
        after_master is Command ==> {
            &&& user matches Some(bytes) && bytes@ == select.request.pair@.user
            &&& read_user.component_count == count_user
            &&& after_user is Identities <==> ends_secure(
                states_user@,
                select.request.user_id,
            )
            &&& after_user matches RestoreStep::Identities(next) ==> next == (PendingIdentities {
                request: select.request,
                restored: true,
            })
            &&& after_user is Identities || (after_user matches RestoreStep::End(
                Err(CatacombRestoreError::UserNotSecurelyLoaded { state }),
            ) && is_last_given(states_user@, select.request.user_id, state))
        },
{
    lemma_last_bits(states_master@, 4_294_967_295);
    lemma_last_state(states_master@, 4_294_967_295);
    lemma_last_bits(states_user@, select.request.user_id);
    lemma_last_state(states_user@, select.request.user_id);
}

/// What a restored catacomb shows of itself.
pub proof fn law_restored_catacombs_show_their_identities(
    restored: &RestoredCatacomb,
    shown: &[Identity],
    count: usize,
    live: bool,
    taken: Vec<Identity>,
)
    requires
        call_ensures(RestoredCatacomb::identities, (restored,), shown),
        call_ensures(RestoredCatacomb::identity_count, (restored,), count),
        call_ensures(RestoredCatacomb::already_loaded, (restored,), live),
        call_ensures(RestoredCatacomb::into_identities, (*restored,), taken),
    ensures
        taken@ == shown@,
        count == shown@.len(),
        shown@ == restored.members() && live == restored.was_live(),
{
}

/// A candidate is validated with its own record, without trusting live identities.
pub proof fn law_candidates_are_restored_without_trust<'a, 'r, T, P, C>(
    user_id: u32,
    pair: &'a CatacombPair,
    record: &'r [u8],
    pending: PendingValidation<'a, 'r>,
    calibrating: &'r [u8],
    outcome: Result<(), C>,
    r: RestoreStep<'a, T, P, C>,
)
    requires
        call_ensures(validate_recovery_candidate, (user_id, pair, record), pending),
        call_ensures(PendingValidation::<'a, 'r>::record, (&pending,), calibrating),
        call_ensures(
            PendingValidation::<'a, 'r>::calibrated::<T, P, C>,
            (pending, outcome),
            r,
        ),
    ensures
        calibrating@ == record@,
        outcome is Ok ==> r == RestoreStep::<T, P, C>::Command(
            PendingCommand {
                request: RestoreRequest { user_id, pair, allow_live: false, allow_empty: false },
                command: EmptyCommand::SelectMaster,
            },
        ),
        outcome matches Err(error) ==> r == RestoreStep::<T, P, C>::End(
            Err(CatacombRestoreError::Calibration(error)),
        ),
{
}

/// Success accepts a candidate; only what the device definitely found rejects it; a
/// failure to find out is neither.
pub proof fn law_only_definite_findings_reject_candidates<T, P, C>(
    restored: Result<RestoredCatacomb, CatacombRestoreError<T, P, C>>,
    r: Result<bool, CatacombRestoreError<T, P, C>>,
)
    requires
        call_ensures(recovery_verdict::<T, P, C>, (restored,), r),
    ensures
        r == Ok::<bool, CatacombRestoreError<T, P, C>>(true) <==> restored is Ok,
        r == Ok::<bool, CatacombRestoreError<T, P, C>>(false) <==> (restored matches Err(error) && (
        error is MasterNotLoaded || error is UserNotSecurelyLoaded
            || error is NoEnrolledFingerprints || error is RestoredIdentityForAnotherUser
            || error is CorruptedCatacomb)),
        r matches Err(error) ==> restored is Err && restored->Err_0 == error,
{
}

} // verus!
