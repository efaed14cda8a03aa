//! In which order a pair becomes durable and active.

use crate::catacomb_commit::{
    CommitPhase, CommitStep, CommitWork, PreparedCommit, PreparingCommit, StagedCommit,
};
use crate::catacomb_store::{CatacombPairStore, CatacombStoreError, StoreLimits};
use crate::catacomb_transaction::{
    BeginStep, CatacombPairTransaction, Cleanup, Member, PendingBegin, PendingWork, PreparedBegin,
    StagedBegin, TransactionProgress, TransactionState, Work,
};
use crate::laws::names::{pair_bytes, recovery_bytes, stage_bytes, suffix_bytes, temporary_bytes};
use vstd::prelude::*;

verus! {

/// Whether a request was refused for its order, with nothing changed.
pub open spec fn is_out_of_order(
    transaction: CatacombPairTransaction,
    r: TransactionProgress,
) -> bool {
    is_refused(transaction, CatacombStoreError::InvalidTransactionState, r)
}

/// Whether a request was refused, with nothing changed.
pub open spec fn is_refused(
    transaction: CatacombPairTransaction,
    error: CatacombStoreError,
    r: TransactionProgress,
) -> bool {
    r matches TransactionProgress::End(kept, result) && kept@ == transaction@ && result == Err::<
        (),
        CatacombStoreError,
    >(error)
}

/// Whether a request lets this work begin, with these bytes, and has changed nothing
/// itself.
pub open spec fn begins_with_work(
    transaction: CatacombPairTransaction,
    work: Work,
    written: Seq<u8>,
    r: TransactionProgress,
) -> bool {
    r matches TransactionProgress::Next(pending) && pending.on() == transaction@ && pending.task()
        == work && pending.written() == written
}

/// A transaction begins empty, under its token, and all its names carry the token.
pub proof fn law_transactions_begin_empty(
    token: Vec<u8>,
    limits: StoreLimits,
    r: CatacombPairTransaction,
    state: TransactionState,
    stage: Vec<u8>,
    generation: Vec<u8>,
    temporary: Vec<u8>,
    reservation: Vec<u8>,
    directory: Vec<u8>,
)
    requires
        call_ensures(CatacombPairTransaction::begin, (token, limits), r),
        call_ensures(CatacombPairTransaction::state, (&r,), state),
        call_ensures(CatacombPairTransaction::stage, (&r,), stage),
        call_ensures(CatacombPairTransaction::generation, (&r,), generation),
        call_ensures(CatacombPairTransaction::marker_temporary, (&r,), temporary),
        call_ensures(CatacombPairTransaction::recovery_marker, (&r,), reservation),
        call_ensures(CatacombPairTransaction::write_directory, (&r,), directory),
    ensures
        r@.token == token@ && r@.limits == limits,
        state == TransactionState::Empty && r@.state == state,
        !r@.generation_renamed && !r@.marker_replaced && !r@.recovery_reserved,
        stage@ == stage_bytes() + token@,
        generation@ == pair_bytes() + token@,
        temporary@ == temporary_bytes() + token@ + suffix_bytes(),
        reservation@ == recovery_bytes() + token@,
        directory@ == stage@,
{
    assert(stage@ =~= stage_bytes() + token@);
    assert(generation@ =~= pair_bytes() + token@);
    assert(temporary@ =~= temporary_bytes() + token@ + suffix_bytes());
    assert(reservation@ =~= recovery_bytes() + token@);
}

/// Members are written into the stage until it is renamed, and into the generation from
/// then on.
pub proof fn law_members_are_written_where_they_are_read(
    transaction: &CatacombPairTransaction,
    stage: Vec<u8>,
    generation: Vec<u8>,
    directory: Vec<u8>,
)
    requires
        call_ensures(CatacombPairTransaction::stage, (transaction,), stage),
        call_ensures(CatacombPairTransaction::generation, (transaction,), generation),
        call_ensures(CatacombPairTransaction::write_directory, (transaction,), directory),
    ensures
        transaction@.generation_renamed ==> directory@ == generation@,
        !transaction@.generation_renamed ==> directory@ == stage@,
{
}

/// A recovery is reserved once, before anything is written.
pub proof fn law_recoveries_are_reserved_before_anything(
    transaction: CatacombPairTransaction,
    r: TransactionProgress,
)
    requires
        call_ensures(CatacombPairTransaction::reserve_recovery, (transaction,), r),
    ensures
        transaction@.state == TransactionState::Empty && !transaction@.recovery_reserved
            <==> begins_with_work(
            transaction,
            Work::RenameForReservation,
            Seq::<u8>::empty(),
            r,
        ),
        !(transaction@.state == TransactionState::Empty && !transaction@.recovery_reserved)
            ==> is_out_of_order(transaction, r),
{
}

/// Metadata is written first and only under a reservation, the user next, the master
/// last; each in its bounds, and each as it was given.
pub proof fn law_members_are_written_in_order(
    transaction: CatacombPairTransaction,
    bytes: &[u8],
    decodes: bool,
    metadata: TransactionProgress,
    user: TransactionProgress,
    master: TransactionProgress,
)
    requires
        call_ensures(
            CatacombPairTransaction::write_metadata,
            (transaction, bytes, decodes),
            metadata,
        ),
        call_ensures(CatacombPairTransaction::write_user, (transaction, bytes), user),
        call_ensures(CatacombPairTransaction::write_master, (transaction, bytes), master),
    ensures
        ({
            let state = transaction@.state;
            let first = state == TransactionState::Empty && transaction@.recovery_reserved;
            let second = state == TransactionState::Empty || state
                == TransactionState::MetadataDurable;
            let third = state == TransactionState::UserDurable;
            let fits = 1 <= bytes@.len() <= transaction@.limits.blob;
            &&& metadata is Next <==> first && decodes && bytes@.len()
                <= transaction@.limits.manifest
            &&& metadata is Next ==> begins_with_work(
                transaction,
                Work::WriteMember(Member::Metadata),
                bytes@,
                metadata,
            )
            &&& !first ==> is_out_of_order(transaction, metadata)
            &&& first && !(metadata is Next) ==> is_refused(
                transaction,
                CatacombStoreError::InvalidMetadata,
                metadata,
            )
            &&& user is Next <==> second && fits
            &&& user is Next ==> begins_with_work(
                transaction,
                Work::WriteMember(Member::User),
                bytes@,
                user,
            )
            &&& !second ==> is_out_of_order(transaction, user)
            &&& second && !fits ==> is_refused(transaction, CatacombStoreError::InvalidBlob, user)
            &&& master is Next <==> third && fits
            &&& master is Next ==> begins_with_work(
                transaction,
                Work::WriteMember(Member::Master),
                bytes@,
                master,
            )
            &&& !third ==> is_out_of_order(transaction, master)
            &&& third && !fits ==> is_refused(
                transaction,
                CatacombStoreError::InvalidBlob,
                master,
            )
        }),
{
}

/// Only a whole pair is promoted, and after the device's finish only under a
/// reservation; what is in its generation already is not renamed again.
pub proof fn law_only_whole_pairs_are_promoted(
    transaction: CatacombPairTransaction,
    plain: TransactionProgress,
    finished: TransactionProgress,
)
    requires
        call_ensures(CatacombPairTransaction::promote, (transaction,), plain),
        call_ensures(
            CatacombPairTransaction::promote_after_native_finish,
            (transaction,),
            finished,
        ),
    ensures
        ({
            let whole = transaction@.state == TransactionState::PairDurable;
            let first = if transaction@.generation_renamed {
                Work::BeforeMarker
            } else {
                Work::RenameForPromotion
            };
            &&& plain is Next <==> whole
            &&& plain is Next ==> begins_with_work(transaction, first, Seq::<u8>::empty(), plain)
            &&& !whole ==> is_out_of_order(transaction, plain)
            &&& finished is Next <==> whole && transaction@.recovery_reserved
            &&& finished is Next ==> begins_with_work(
                transaction,
                first,
                Seq::<u8>::empty(),
                finished,
            )
            &&& !(finished is Next) ==> is_out_of_order(transaction, finished)
        }),
{
}

/// The work of a reservation, in its order.
pub open spec fn reservation_order() -> Seq<Work> {
    seq![
        Work::RenameForReservation,
        Work::SyncForReservation,
        Work::CreateReservation,
        Work::SyncReservation,
        Work::SyncReserved,
    ]
}

/// The work of a promotion, in its order; the last two are for a reserved one.
pub open spec fn promotion_order() -> Seq<Work> {
    seq![
        Work::RenameForPromotion,
        Work::SyncForPromotion,
        Work::BeforeMarker,
        Work::WriteMarker,
        Work::ReplaceMarker,
        Work::SyncPromotion,
        Work::RemoveReservation,
        Work::SyncRemoval,
    ]
}

/// Finished work changes of its transaction what it stands for, and nothing else: a
/// renaming makes the generation, the reservation's file reserves and its removal frees,
/// the marker's replacement activates, and a synchronized member is durable.
pub proof fn law_finished_work_changes_what_it_stands_for(
    pending: PendingWork,
    r: TransactionProgress,
)
    requires
        call_ensures(
            PendingWork::done,
            (pending, Ok::<(), CatacombStoreError>(())),
            r,
        ),
    ensures
        ({
            let before = pending.on();
            let work = pending.task();
            let after = match r {
                TransactionProgress::Next(next) => next.on(),
                TransactionProgress::End(transaction, _) => transaction@,
            };
            &&& after.token == before.token && after.limits == before.limits
            &&& after.generation_renamed <==> before.generation_renamed || work
                == Work::RenameForReservation || work == Work::RenameForPromotion
            &&& after.recovery_reserved <==> work == Work::CreateReservation || (
            before.recovery_reserved && work != Work::RemoveReservation)
            &&& after.marker_replaced <==> before.marker_replaced || work == Work::ReplaceMarker
            &&& work == Work::SyncMember(Member::Metadata) ==> after.state
                == TransactionState::MetadataDurable
            &&& work == Work::SyncMember(Member::User) ==> after.state
                == TransactionState::UserDurable
            &&& work == Work::SyncMember(Member::Master) ==> after.state
                == TransactionState::PairDurable
            &&& !(work is SyncMember) ==> after.state == before.state
            &&& r matches TransactionProgress::End(_, result) ==> result is Ok
        }),
{
}

/// Work follows work in its order: a written member is synchronized, reservations and
/// promotions go through their steps one by one, and a promotion without a reservation
/// ends once it is synchronized.
pub proof fn law_work_follows_in_its_order(pending: PendingWork, r: TransactionProgress, place: int)
    requires
        call_ensures(
            PendingWork::done,
            (pending, Ok::<(), CatacombStoreError>(())),
            r,
        ),
    ensures
        pending.task() matches Work::WriteMember(member) ==> (
        r matches TransactionProgress::Next(next) && next.task() == Work::SyncMember(member)),
        pending.task() is SyncMember ==> r is End,
        0 <= place < 4 && pending.task() == reservation_order()[place] ==> (
        r matches TransactionProgress::Next(next) && next.task() == reservation_order()[place
            + 1]),
        pending.task() == Work::SyncReserved ==> r is End,
        0 <= place < 7 && place != 5 && pending.task() == promotion_order()[place] ==> (
        r matches TransactionProgress::Next(next) && next.task() == promotion_order()[place + 1]),
        pending.task() == Work::SyncPromotion ==> (r is End <==> !pending.on().recovery_reserved)
            && (r matches TransactionProgress::Next(next) ==> next.task()
            == Work::RemoveReservation),
        pending.task() == Work::SyncRemoval ==> r is End,
        r matches TransactionProgress::Next(next) ==> next.written() == if next.task()
            == Work::WriteMarker {
            pair_bytes() + pending.on().token + seq![10u8]
        } else {
            Seq::<u8>::empty()
        },
{
    if let TransactionProgress::Next(next) = r {
        if next.task() == Work::WriteMarker {
            assert(next.written() =~= pair_bytes() + pending.on().token + seq![10u8]);
        } else {
            assert(next.written() =~= Seq::<u8>::empty());
        }
    }
}

/// Failed work changes nothing of its transaction and ends it with its failure: a
/// promotion that was not synchronized is of unknown durability, members, the removal of
/// a reservation and the last check report what failed, and anything else is
/// unavailable storage. A removal that was not synchronized is no failure.
pub proof fn law_failed_work_changes_nothing(
    pending: PendingWork,
    error: CatacombStoreError,
    r: TransactionProgress,
)
    requires
        call_ensures(
            PendingWork::done,
            (pending, Err::<(), CatacombStoreError>(error)),
            r,
        ),
    ensures
        r matches TransactionProgress::End(transaction, result) && transaction@ == pending.on() && {
            let work = pending.task();
            let itself = work is WriteMember || work is SyncMember || work == Work::BeforeMarker
                || work == Work::RemoveReservation;
            &&& result is Ok <==> work == Work::SyncRemoval
            &&& work == Work::SyncPromotion ==> result == Err::<(), CatacombStoreError>(
                CatacombStoreError::PromotionDurabilityUnknown,
            )
            &&& itself ==> result == Err::<(), CatacombStoreError>(error)
            &&& work != Work::SyncRemoval && work != Work::SyncPromotion && !itself ==> result
                == Err::<(), CatacombStoreError>(CatacombStoreError::StorageUnavailable)
        },
{
}

/// What a transaction leaves to be removed: nothing under a reservation, and never an
/// active generation.
pub proof fn law_reserved_and_active_generations_are_kept(
    transaction: &CatacombPairTransaction,
    r: Cleanup,
)
    requires
        call_ensures(CatacombPairTransaction::cleanup, (transaction,), r),
    ensures
        r.stage <==> !transaction@.recovery_reserved,
        r.generation <==> !transaction@.recovery_reserved && !transaction@.marker_replaced,
{
}

/// A transaction begins once its directory is prepared, no recovery is pending and its
/// stage is created; any failure keeps it from beginning, and is reported.
pub proof fn law_transactions_begin_after_their_stage(
    limits: StoreLimits,
    store: CatacombPairStore,
    first: PendingBegin,
    prepared: Result<(), CatacombStoreError>,
    second: BeginStep,
    listing: PreparedBegin,
    listed: Result<(), CatacombStoreError>,
    token: Vec<u8>,
    third: BeginStep,
    staged: StagedBegin,
    stage: Vec<u8>,
    created: Result<(), CatacombStoreError>,
    end: Result<CatacombPairTransaction, CatacombStoreError>,
    first_step: BeginStep,
)
    requires
        call_ensures(CatacombPairStore::new, (limits,), store),
        call_ensures(CatacombPairStore::begin_transaction, (&store,), first_step),
        first_step is PrepareDirectory ==> first_step->PrepareDirectory_0 == first,
        call_ensures(PendingBegin::prepared, (first, prepared), second),
        second is RejectRecoveryState ==> second->RejectRecoveryState_0 == listing,
        call_ensures(PreparedBegin::listed, (listing, listed, token), third),
        third is CreateStage ==> third->CreateStage_0 == staged,
        call_ensures(StagedBegin::stage, (&staged,), stage),
        call_ensures(StagedBegin::created, (staged, created), end),
    ensures
        first_step is PrepareDirectory,
        second is RejectRecoveryState <==> prepared is Ok,
        prepared matches Err(error) ==> second == BeginStep::Failed(error),
        third is CreateStage <==> listed is Ok,
        listed matches Err(error) ==> third == BeginStep::Failed(error),
        third is CreateStage ==> stage@ == stage_bytes() + token@,
        end is Ok <==> created is Ok,
        created matches Err(error) ==> end is Err && end->Err_0 == error,
        third is CreateStage && end is Ok ==> end->Ok_0@.token == token@ && end->Ok_0@.state
            == TransactionState::Empty && !end->Ok_0@.generation_renamed
            && !end->Ok_0@.marker_replaced && !end->Ok_0@.recovery_reserved,
        second is RejectRecoveryState && third is CreateStage && end is Ok ==> end->Ok_0@.limits
            == limits,
{
    if third is CreateStage {
        assert(stage@ =~= stage_bytes() + token@);
    }
}

/// A commit begins exactly where both blobs are in bounds, goes through the same
/// beginning as a transaction, and writes its user first.
pub proof fn law_commits_begin_with_their_user<'a>(
    limits: StoreLimits,
    store: CatacombPairStore,
    user: &'a [u8],
    master: &'a [u8],
    first: CommitStep<'a>,
    preparing: PreparingCommit<'a>,
    prepared: Result<(), CatacombStoreError>,
    second: CommitStep<'a>,
    listing: PreparedCommit<'a>,
    listed: Result<(), CatacombStoreError>,
    token: Vec<u8>,
    third: CommitStep<'a>,
    staged: StagedCommit<'a>,
    stage: Vec<u8>,
    created: Result<(), CatacombStoreError>,
    fourth: CommitStep<'a>,
)
    requires
        call_ensures(CatacombPairStore::new, (limits,), store),
        call_ensures(CatacombPairStore::commit, (&store, user, master), first),
        first is PrepareDirectory ==> first->PrepareDirectory_0 == preparing,
        call_ensures(PreparingCommit::<'a>::prepared, (preparing, prepared), second),
        second is RejectRecoveryState ==> second->RejectRecoveryState_0 == listing,
        call_ensures(PreparedCommit::<'a>::listed, (listing, listed, token), third),
        third is CreateStage ==> third->CreateStage_0 == staged,
        call_ensures(StagedCommit::<'a>::stage, (&staged,), stage),
        call_ensures(StagedCommit::<'a>::created, (staged, created), fourth),
    ensures
        first is PrepareDirectory <==> 1 <= user@.len() <= limits.blob && 1 <= master@.len()
            <= limits.blob,
        !(first is PrepareDirectory) ==> first == CommitStep::End(
            None,
            Err(CatacombStoreError::InvalidBlob),
        ),
        second is RejectRecoveryState <==> prepared is Ok,
        prepared matches Err(error) ==> second == CommitStep::End(None, Err(error)),
        third is CreateStage <==> listed is Ok,
        listed matches Err(error) ==> third == CommitStep::End(None, Err(error)),
        third is CreateStage ==> stage@ == stage_bytes() + token@,
        fourth is Work <==> created is Ok,
        created matches Err(error) ==> fourth == CommitStep::End(None, Err(error)),
        first is PrepareDirectory && second is RejectRecoveryState && third is CreateStage
            && fourth is Work ==> {
            let work = fourth->Work_0@;
            &&& work.task == Work::WriteMember(Member::User) && work.written == user@
            &&& work.phase == CommitPhase::User
            &&& work.user == user@ && work.master == master@
            &&& work.on.token == token@ && work.on.limits == limits
            &&& work.on.state == TransactionState::Empty && !work.on.generation_renamed
                && !work.on.marker_replaced && !work.on.recovery_reserved
        },
{
    if third is CreateStage {
        assert(stage@ =~= stage_bytes() + token@);
    }
}

/// The work of a commit, in its order.
pub open spec fn commit_order() -> Seq<Work> {
    seq![
        Work::WriteMember(Member::User),
        Work::SyncMember(Member::User),
        Work::WriteMember(Member::Master),
        Work::SyncMember(Member::Master),
        Work::RenameForPromotion,
        Work::SyncForPromotion,
        Work::BeforeMarker,
        Work::WriteMarker,
        Work::ReplaceMarker,
        Work::SyncPromotion,
    ]
}

/// The phase of a commit at a place of its order.
pub open spec fn commit_phase(place: int) -> CommitPhase {
    if place < 2 {
        CommitPhase::User
    } else if place < 4 {
        CommitPhase::Master
    } else {
        CommitPhase::Promote
    }
}

/// A commit goes through its order one by one: it writes the user and the master as they
/// were given and then the marker of its own generation; it succeeds at the end and
/// nowhere else, with its generation active.
pub proof fn law_commits_keep_their_order<'a>(
    work: CommitWork<'a>,
    r: CommitStep<'a>,
    place: int,
    pending: &PendingWork,
)
    requires
        0 <= place < 10,
        work@.task == commit_order()[place],
        work@.phase == commit_phase(place),
        !work@.on.recovery_reserved,
        call_ensures(CommitWork::<'a>::pending, (&work,), pending),
        call_ensures(
            CommitWork::<'a>::done,
            (work, Ok::<(), CatacombStoreError>(())),
            r,
        ),
    ensures
        pending.task() == work@.task && pending.written() == work@.written && pending.on()
            == work@.on,
        place < 9 ==> {
            &&& r matches CommitStep::Work(next) && next@.task == commit_order()[place + 1]
            &&& r->Work_0@.phase == commit_phase(place + 1)
            &&& r->Work_0@.user == work@.user && r->Work_0@.master == work@.master
            &&& r->Work_0@.on.token == work@.on.token && !r->Work_0@.on.recovery_reserved
            &&& r->Work_0@.written == if place == 1 {
                work@.master
            } else if place == 6 {
                pair_bytes() + work@.on.token + seq![10u8]
            } else {
                Seq::<u8>::empty()
            }
            &&& r->Work_0@.on.generation_renamed <==> work@.on.generation_renamed || place == 4
            &&& r->Work_0@.on.marker_replaced <==> work@.on.marker_replaced || place == 8
        },
        place == 9 ==> (r matches CommitStep::End(Some(transaction), Ok(())) && transaction@
            == work@.on),
{
    if place < 9 {
        if place == 6 {
            assert(r->Work_0@.written =~= pair_bytes() + work@.on.token + seq![10u8]);
        } else if place != 1 {
            assert(r->Work_0@.written =~= Seq::<u8>::empty());
        }
    }
}

/// A commit that fails keeps its transaction as it was, and reports as its transaction
/// would.
pub proof fn law_failed_commits_report_like_their_transaction<'a>(
    work: CommitWork<'a>,
    pending: PendingWork,
    error: CatacombStoreError,
    r: CommitStep<'a>,
    direct: TransactionProgress,
)
    requires
        pending.task() == work@.task,
        pending.on() == work@.on,
        work@.task != Work::SyncRemoval,
        call_ensures(
            CommitWork::<'a>::done,
            (work, Err::<(), CatacombStoreError>(error)),
            r,
        ),
        call_ensures(
            PendingWork::done,
            (pending, Err::<(), CatacombStoreError>(error)),
            direct,
        ),
    ensures
        r matches CommitStep::End(Some(transaction), Err(reported)) && transaction@ == work@.on
            && direct is End && direct->End_1 == Err::<(), CatacombStoreError>(reported),
{
}

} // verus!
