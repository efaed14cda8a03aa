//! What cleaning up removes, and which reserved pair is promoted.

use crate::catacomb_recovery::{
    dispose, disposal_of, is_reserved, next_disposal, AcceptedRecovery, CandidateRecovery,
    CatacombRecoveryError, CatacombRecoveryOutcome, CleaningStep, Disposal, FinalSync,
    JudgedRecovery, ListedCleaning, ListedName, ListingCleaning, LoadedCleaning, OpenedCleaning,
    PendingActive, PendingCleaning, PendingRecovery, ProbedRecovery, RecoveryStep, RecoveryWork,
    RemovingCleaning, ReservedRecovery,
};
use crate::catacomb_store::{
    all_bytes, CatacombPair, CatacombPairStore, CatacombStoreError, PairPart, PairReading,
    StoreLimits,
};
use crate::laws::legacy::{is_ordered, lemma_order_is_by_bytes};
use crate::laws::names::{
    has_three_fields, lemma_generations_are_names_of_tokens, lemma_other_names_are_of_tokens,
    pair_bytes, stage_bytes, suffix_bytes, temporary_bytes,
};
use vstd::prelude::*;

verus! {

/// Whether the name is a stage's or a generation's of a token that is not reserved.
pub open spec fn is_left_over(name: Seq<u8>, tokens: Seq<Seq<u8>>) -> bool {
    exists|token: Seq<u8>| #[trigger]
        has_three_fields(token) && (name == stage_bytes() + token || name == pair_bytes() + token)
            && forall|i: int| 0 <= i < tokens.len() ==> #[trigger] tokens[i] != token
}

/// Whether the name is that of a temporary marker.
pub open spec fn is_temporary(name: Seq<u8>) -> bool {
    exists|token: Seq<u8>| #[trigger]
        has_three_fields(token) && name == temporary_bytes() + token + suffix_bytes()
}

/// Whether the entry is a generation or a stage to remove.
pub open spec fn is_to_go(entry: ListedName, active: Option<Seq<u8>>, tokens: Seq<Seq<u8>>) -> bool {
    entry.is_text && active != Some(entry.name@) && is_left_over(entry.name@, tokens)
}

/// Whether the entry is a file to remove.
pub open spec fn is_file_to_go(entry: ListedName, active: Option<Seq<u8>>) -> bool {
    entry.is_text && active != Some(entry.name@) && is_temporary(entry.name@)
}

/// A stage is left over where its token is not reserved.
proof fn lemma_left_over_stage(name: Seq<u8>, tokens: Seq<Seq<u8>>)
    requires
        crate::catacomb_names::names_stage(name),
    ensures
        name.len() >= 7 && name[0] == 46 && name[1] == 115,
        is_left_over(name, tokens) <==> !is_reserved(tokens, name.subrange(7, name.len() as int)),
{
    lemma_other_names_are_of_tokens(name);
    let token = name.subrange(7, name.len() as int);
    let known = choose|known: Seq<u8>| #[trigger]
        has_three_fields(known) && name == stage_bytes() + known;
    assert(name[0] == stage_bytes()[0] && name[1] == stage_bytes()[1]);
    assert(token =~= known);
    if !is_reserved(tokens, token) {
        assert forall|i: int| 0 <= i < tokens.len() implies #[trigger] tokens[i] != token by {}
        assert(has_three_fields(token));
    }
    if is_left_over(name, tokens) {
        let other = choose|other: Seq<u8>| #[trigger]
            has_three_fields(other) && (name == stage_bytes() + other || name == pair_bytes()
                + other) && forall|i: int| 0 <= i < tokens.len() ==> #[trigger] tokens[i] != other;
        if name == pair_bytes() + other {
            assert(name[0] == pair_bytes()[0]);
        }
        assert(other =~= token);
    }
}

/// A generation is left over where its token is not reserved.
proof fn lemma_left_over_generation(name: Seq<u8>, tokens: Seq<Seq<u8>>)
    requires
        crate::catacomb_names::names_generation(name),
    ensures
        name.len() >= 5 && name[0] == 112,
        is_left_over(name, tokens) <==> !is_reserved(tokens, name.subrange(5, name.len() as int)),
{
    lemma_generations_are_names_of_tokens(name);
    let token = name.subrange(5, name.len() as int);
    let known = choose|known: Seq<u8>| #[trigger]
        has_three_fields(known) && name == pair_bytes() + known;
    assert(name[0] == pair_bytes()[0]);
    assert(token =~= known);
    if !is_reserved(tokens, token) {
        assert forall|i: int| 0 <= i < tokens.len() implies #[trigger] tokens[i] != token by {}
        assert(has_three_fields(token));
    }
    if is_left_over(name, tokens) {
        let other = choose|other: Seq<u8>| #[trigger]
            has_three_fields(other) && (name == stage_bytes() + other || name == pair_bytes()
                + other) && forall|i: int| 0 <= i < tokens.len() ==> #[trigger] tokens[i] != other;
        if name == stage_bytes() + other {
            assert(name[0] == stage_bytes()[0]);
        }
        assert(other =~= token);
    }
}

/// Only stages and generations are left over, and temporary markers are neither.
proof fn lemma_left_over_names(name: Seq<u8>, tokens: Seq<Seq<u8>>)
    ensures
        is_left_over(name, tokens) ==> crate::catacomb_names::names_stage(name)
            || crate::catacomb_names::names_generation(name),
        is_temporary(name) <==> crate::catacomb_names::names_temporary(name),
        is_temporary(name) ==> name.len() >= 8 && name[0] == 46 && name[1] == 97,
{
    lemma_generations_are_names_of_tokens(name);
    lemma_other_names_are_of_tokens(name);
    if is_left_over(name, tokens) {
        let other = choose|other: Seq<u8>| #[trigger]
            has_three_fields(other) && (name == stage_bytes() + other || name == pair_bytes()
                + other) && forall|i: int| 0 <= i < tokens.len() ==> #[trigger] tokens[i] != other;
        assert(has_three_fields(other));
    }
    if is_temporary(name) {
        let token = choose|token: Seq<u8>| #[trigger]
            has_three_fields(token) && name == temporary_bytes() + token + suffix_bytes();
        assert(name[0] == temporary_bytes()[0] && name[1] == temporary_bytes()[1]);
    }
}

/// What cleaning up does with an entry.
pub proof fn lemma_disposal(entry: ListedName, active: Option<Seq<u8>>, tokens: Seq<Seq<u8>>)
    ensures
        disposal_of(entry, active, tokens) == Disposal::Refuse <==> !entry.is_text,
        disposal_of(entry, active, tokens) == Disposal::RemoveGeneration <==> is_to_go(
            entry,
            active,
            tokens,
        ),
        disposal_of(entry, active, tokens) == Disposal::RemoveFile <==> is_file_to_go(
            entry,
            active,
        ),
{
    let name = entry.name@;
    assert(crate::catacomb_names::active_marker()[0] == 97u8);
    lemma_left_over_names(name, tokens);
    if crate::catacomb_names::names_stage(name) {
        lemma_left_over_stage(name, tokens);
    }
    if crate::catacomb_names::names_generation(name) {
        lemma_left_over_generation(name, tokens);
    }
}

/// Cleaning up removes stages and generations that are not active and whose token no
/// reservation carries, and temporary markers; it stops at a name that is no text and
/// keeps everything else.
pub proof fn law_cleaning_removes_what_nothing_needs(
    entry: &ListedName,
    active: &Option<Vec<u8>>,
    tokens: &Vec<Vec<u8>>,
    r: Disposal,
)
    requires
        call_ensures(dispose, (entry, active, tokens), r),
    ensures
        ({
            let selected = match *active {
                Some(name) => Some(name@),
                None => None,
            };
            &&& r == Disposal::Refuse <==> !entry.is_text
            &&& r == Disposal::RemoveGeneration <==> is_to_go(
                *entry,
                selected,
                tokens@.map_values(|token: Vec<u8>| token@),
            )
            &&& r == Disposal::RemoveFile <==> is_file_to_go(*entry, selected)
        }),
{
    assert(all_bytes(tokens@) =~= tokens@.map_values(|token: Vec<u8>| token@));
    lemma_disposal(*entry, crate::catacomb_recovery::name_of(*active), all_bytes(tokens@));
}

/// Cleaning up opens and synchronizes the store, loads what is active, and lists all
/// entries in the order of their names; each failure ends it, and only a missing pair is
/// none.
pub proof fn law_cleaning_begins_with_the_active_pair(
    store: &CatacombPairStore,
    pending: PendingCleaning,
    opened: Result<(), CatacombStoreError>,
    second: CleaningStep,
    syncing: OpenedCleaning,
    succeeded: bool,
    third: CleaningStep,
    reading: PendingActive,
    read: Result<Vec<u8>, CatacombStoreError>,
    fourth: CleaningStep,
    loading: LoadedCleaning,
    loaded: Result<(), CatacombStoreError>,
    fifth: CleaningStep,
    listing: ListingCleaning,
    entries: Option<Vec<ListedName>>,
    sixth: CleaningStep,
    pending_step: CleaningStep,
)
    requires
        call_ensures(CatacombPairStore::recover, (store,), pending_step),
        pending_step is OpenStore ==> pending_step->OpenStore_0 == pending,
        call_ensures(PendingCleaning::opened, (pending, opened), second),
        call_ensures(OpenedCleaning::synchronized, (syncing, succeeded), third),
        call_ensures(PendingActive::read, (reading, read), fourth),
        fourth is LoadActive ==> fourth->LoadActive_0 == loading,
        call_ensures(LoadedCleaning::loaded, (loading, loaded), fifth),
        call_ensures(ListingCleaning::listed, (listing, entries), sixth),
    ensures
        pending_step is OpenStore,
        second is SyncStore <==> opened is Ok,
        opened matches Err(error) ==> second == CleaningStep::End(Err(error)),
        third is ReadActive <==> succeeded,
        !succeeded ==> third == CleaningStep::End(Err(CatacombStoreError::StorageUnavailable)),
        fourth is LoadActive <==> read is Ok,
        fourth is ListEntries <==> read == Err::<Vec<u8>, CatacombStoreError>(
            CatacombStoreError::MissingPair,
        ),
        fourth is ListEntries ==> fourth->ListEntries_0.selected() is None,
        read is Err && read->Err_0 != CatacombStoreError::MissingPair ==> fourth
            == CleaningStep::End(Err(read->Err_0)),
        fifth is ListEntries <==> loaded is Ok,
        read is Ok && loaded is Ok ==> fifth->ListEntries_0.selected() == Some(read->Ok_0@),
        loaded matches Err(error) ==> fifth == CleaningStep::End(Err(error)),
        sixth is ReadTokens <==> entries is Some,
        entries is None ==> sixth == CleaningStep::End(
            Err(CatacombStoreError::StorageUnavailable),
        ),
        sixth matches CleaningStep::ReadTokens(next) ==> {
            &&& next.selected() == listing.selected()
            &&& next.listing().to_multiset() == entries->0@.to_multiset()
            &&& forall|i: int, j: int|
                0 <= i <= j < next.listing().len() ==> is_ordered(
                    (#[trigger] next.listing()[i]).name@,
                    (#[trigger] next.listing()[j]).name@,
                )
        },
{
    if let CleaningStep::ReadTokens(next) = sixth {
        assert forall|i: int, j: int| 0 <= i <= j < next.listing().len() implies is_ordered(
            (#[trigger] next.listing()[i]).name@,
            (#[trigger] next.listing()[j]).name@,
        ) by {
            lemma_order_is_by_bytes(next.listing()[i].name@, next.listing()[j].name@);
        }
    }
}

/// Whether cleaning up passes over the entry.
pub open spec fn is_passed_over(
    entry: ListedName,
    active: Option<Seq<u8>>,
    tokens: Seq<Seq<u8>>,
) -> bool {
    entry.is_text && !is_to_go(entry, active, tokens) && !is_file_to_go(entry, active)
}

/// Whether `at` is the first entry from `place` on that is not passed over.
pub open spec fn is_next(
    entries: Seq<ListedName>,
    active: Option<Seq<u8>>,
    tokens: Seq<Seq<u8>>,
    place: int,
    at: int,
) -> bool {
    &&& place <= at < entries.len() && !is_passed_over(entries[at], active, tokens)
    &&& forall|i: int| place <= i < at ==> is_passed_over(#[trigger] entries[i], active, tokens)
}

proof fn lemma_next(
    entries: Seq<ListedName>,
    active: Option<Seq<u8>>,
    tokens: Seq<Seq<u8>>,
    place: int,
)
    requires
        0 <= place,
    ensures
        next_disposal(entries, active, tokens, place) is None <==> forall|i: int|
            place <= i < entries.len() ==> is_passed_over(#[trigger] entries[i], active, tokens),
        next_disposal(entries, active, tokens, place) matches Some((at, disposal)) ==> is_next(
            entries,
            active,
            tokens,
            place,
            at,
        ) && disposal == disposal_of(entries[at], active, tokens),
    decreases entries.len() - place,
{
    if place < entries.len() {
        lemma_disposal(entries[place], active, tokens);
        lemma_next(entries, active, tokens, place + 1);
        if disposal_of(entries[place], active, tokens) is Keep {
            assert(is_passed_over(entries[place], active, tokens));
        } else {
            assert(is_next(entries, active, tokens, place, place));
        }
    }
}

/// Cleaning up goes through the entries one by one: it removes the next one that is to
/// go, stops at a name that is no text, and ends, synchronized, when none is left.
pub open spec fn goes_through(
    entries: Seq<ListedName>,
    active: Option<Seq<u8>>,
    tokens: Seq<Seq<u8>>,
    place: int,
    r: CleaningStep,
) -> bool {
    &&& r is SyncEnd <==> forall|i: int|
        place <= i < entries.len() ==> is_passed_over(#[trigger] entries[i], active, tokens)
    &&& r matches CleaningStep::Remove(next) ==> is_next(entries, active, tokens, place, next.at())
        && entries[next.at()].is_text && next.listing() == entries && next.selected() == active
        && next.reserved() == tokens
    &&& r is SyncEnd || r is Remove || (r == CleaningStep::End(
        Err(CatacombStoreError::UnsafeStorage),
    ) && exists|at: int| #[trigger]
        is_next(entries, active, tokens, place, at) && !entries[at].is_text)
}

/// See [`goes_through`]; a failure to read the reservations or to remove an entry ends
/// cleaning up.
pub proof fn law_cleaning_goes_through_all_entries(
    listed: ListedCleaning,
    tokens: Result<Vec<Vec<u8>>, CatacombStoreError>,
    first: CleaningStep,
    removing: RemovingCleaning,
    removed: Result<(), CatacombStoreError>,
    next: CleaningStep,
    target: &[u8],
    sync: FinalSync,
    succeeded: bool,
    end: Result<(), CatacombStoreError>,
)
    requires
        removing.at() >= 0,
        call_ensures(ListedCleaning::reserved, (listed, tokens), first),
        call_ensures(RemovingCleaning::removed, (removing, removed), next),
        call_ensures(RemovingCleaning::target, (&removing,), target),
        call_ensures(FinalSync::synchronized, (sync, succeeded), end),
    ensures
        tokens matches Ok(reserved) ==> goes_through(
            listed.listing(),
            listed.selected(),
            all_bytes(reserved@),
            0,
            first,
        ),
        tokens matches Err(error) ==> first == CleaningStep::End(Err(error)),
        removed is Ok ==> goes_through(
            removing.listing(),
            removing.selected(),
            removing.reserved(),
            removing.at() + 1,
            next,
        ),
        removed matches Err(error) ==> next == CleaningStep::End(Err(error)),
        target@ == removing.listing()[removing.at()].name@,
        end is Ok <==> succeeded,
        end is Err ==> end->Err_0 == CatacombStoreError::StorageUnavailable,
{
    if let Ok(reserved) = tokens {
        let bytes = all_bytes(reserved@);
        lemma_next(listed.listing(), listed.selected(), bytes, 0);
        if let Some((at, disposal)) = next_disposal(
            listed.listing(),
            listed.selected(),
            bytes,
            0,
        ) {
            lemma_disposal(listed.listing()[at], listed.selected(), bytes);
        }
    }
    if removed is Ok {
        let place = removing.at() + 1;
        lemma_next(removing.listing(), removing.selected(), removing.reserved(), place);
        if let Some((at, disposal)) = next_disposal(
            removing.listing(),
            removing.selected(),
            removing.reserved(),
            place,
        ) {
            lemma_disposal(removing.listing()[at], removing.selected(), removing.reserved());
        }
    }
}

/// A recovery opens and synchronizes the store and reads its reservations; a store that
/// is missing is clean.
pub proof fn law_recoveries_begin_with_the_store<E>(
    limits: StoreLimits,
    store: CatacombPairStore,
    first: PendingRecovery,
    opened: Result<(), CatacombStoreError>,
    second: RecoveryStep<E>,
    syncing: PendingRecovery,
    synchronized: Result<(), CatacombStoreError>,
    third: RecoveryStep<E>,
    first_step: RecoveryStep<E>,
)
    requires
        call_ensures(CatacombPairStore::new, (limits,), store),
        call_ensures(CatacombPairStore::recover_with_validator::<E>, (&store,), first_step),
        first_step is Work ==> first_step->Work_0 == first,
        call_ensures(PendingRecovery::done::<E>, (first, opened), second),
        second is Work ==> second->Work_0 == syncing,
        call_ensures(PendingRecovery::done::<E>, (syncing, synchronized), third),
    ensures
        first_step is Work,
        first.task() == RecoveryWork::OpenStore,
        second is Work <==> opened is Ok,
        second == RecoveryStep::<E>::End(Ok(CatacombRecoveryOutcome::Clean)) <==> opened == Err::<
            (),
            CatacombStoreError,
        >(CatacombStoreError::MissingPair),
        opened is Err && opened->Err_0 != CatacombStoreError::MissingPair ==> second
            == RecoveryStep::<E>::End(Err(CatacombRecoveryError::Store(opened->Err_0))),
        second is Work ==> syncing.task() == RecoveryWork::SyncStore,
        second is Work ==> (third is ReadTokens <==> synchronized is Ok),
        second is Work && synchronized is Err ==> third == RecoveryStep::<E>::End(
            Err(CatacombRecoveryError::Store(CatacombStoreError::StorageUnavailable)),
        ),
        second is Work && third is ReadTokens ==> third->ReadTokens_0.bounds() == limits,
{
}

/// Exactly one reservation makes a candidate, and only its generation, without a stage,
/// is read; none is clean, several are quarantined, as is what is unsafe or incomplete.
pub proof fn law_one_reservation_makes_a_candidate<E>(
    reserved: ReservedRecovery,
    tokens: Result<Vec<Vec<u8>>, CatacombStoreError>,
    first: RecoveryStep<E>,
    probed: ProbedRecovery,
    token: &[u8],
    stage_exists: bool,
    generation_exists: bool,
    second: RecoveryStep<E>,
    candidate: CandidateRecovery,
    reading: PairReading,
    pair: Result<CatacombPair, CatacombStoreError>,
    third: RecoveryStep<E>,
)
    requires
        call_ensures(ReservedRecovery::read::<E>, (reserved, tokens), first),
        first is Probe ==> first->Probe_0 == probed,
        call_ensures(ProbedRecovery::token, (&probed,), token),
        call_ensures(
            ProbedRecovery::probed::<E>,
            (probed, stage_exists, generation_exists),
            second,
        ),
        second is ReadPair ==> second->ReadPair_0 == candidate,
        call_ensures(CandidateRecovery::reading, (&candidate,), reading),
        call_ensures(CandidateRecovery::read::<E>, (candidate, pair), third),
    ensures
        ({
            let quarantine = RecoveryStep::<E>::End(Ok(CatacombRecoveryOutcome::Quarantined));
            &&& first is Probe <==> tokens is Ok && tokens->Ok_0@.len() == 1
            &&& first is Probe ==> token@ == tokens->Ok_0@[0]@
            &&& first == RecoveryStep::<E>::End(Ok(CatacombRecoveryOutcome::Clean)) <==> tokens
                is Ok && tokens->Ok_0@.len() == 0
            &&& first == quarantine <==> (tokens is Ok && tokens->Ok_0@.len() > 1) || (tokens is Err
                && (tokens->Err_0 == CatacombStoreError::UnsafeStorage || tokens->Err_0
                == CatacombStoreError::IncompletePair))
            &&& tokens is Err && first != quarantine ==> first == RecoveryStep::<E>::End(
                Err(CatacombRecoveryError::Store(tokens->Err_0)),
            )
            &&& second is ReadPair <==> generation_exists && !stage_exists
            &&& !(second is ReadPair) ==> second == quarantine
            &&& first is Probe && second is ReadPair ==> reading@.generation == pair_bytes()
                + tokens->Ok_0@[0]@ && reading@.part == PairPart::Directory && reading@.limits
                == reserved.bounds()
            &&& third is Validate <==> pair is Ok
            &&& third matches RecoveryStep::Validate(next) ==> next.judged_pair() == pair->Ok_0@
                && next.candidate() == candidate.candidate() && next.bounds()
                == candidate.bounds()
            &&& third == quarantine <==> pair is Err && (pair->Err_0
                == CatacombStoreError::IncompletePair || pair->Err_0
                == CatacombStoreError::InvalidBlob || pair->Err_0
                == CatacombStoreError::InvalidMetadata || pair->Err_0
                == CatacombStoreError::UnsafeStorage)
            &&& pair is Err && third != quarantine ==> third == RecoveryStep::<E>::End(
                Err(CatacombRecoveryError::Store(pair->Err_0)),
            )
        }),
{
    if first is Probe && second is ReadPair {
        assert(reading@.generation =~= pair_bytes() + tokens->Ok_0@[0]@);
    }
}

/// Only an accepted candidate goes on; a rejected one is quarantined, and what could not
/// be validated is neither. What is active already needs no marker.
pub proof fn law_only_accepted_candidates_go_on<E>(
    judged: JudgedRecovery,
    verdict: Result<bool, E>,
    first: RecoveryStep<E>,
    accepted: AcceptedRecovery,
    active: Result<Vec<u8>, CatacombStoreError>,
    second: RecoveryStep<E>,
)
    requires
        call_ensures(JudgedRecovery::judged::<E>, (judged, verdict), first),
        first is ReadActive ==> first->ReadActive_0 == accepted,
        call_ensures(AcceptedRecovery::active::<E>, (accepted, active), second),
    ensures
        first is ReadActive <==> verdict == Ok::<bool, E>(true),
        verdict == Ok::<bool, E>(false) ==> first == RecoveryStep::<E>::End(
            Ok(CatacombRecoveryOutcome::Quarantined),
        ),
        verdict matches Err(error) ==> first == RecoveryStep::<E>::End(
            Err(CatacombRecoveryError::Validator(error)),
        ),
        first is ReadActive && second is Work ==> second->Work_0.candidate() == judged.candidate(),
        first is ReadActive ==> accepted.bounds() == judged.bounds(),
        second is Work ==> second->Work_0.bounds() == accepted.bounds(),
        second is Work <==> active is Ok || active->Err_0 == CatacombStoreError::MissingPair,
        second matches RecoveryStep::Work(next) ==> {
            &&& next.task() == RecoveryWork::RemoveReservation <==> active is Ok
                && active->Ok_0@ == pair_bytes() + accepted.candidate()
            &&& next.task() == RecoveryWork::RemoveReservation || next.task()
                == RecoveryWork::RemoveTemporary
        },
        active is Err && !(second is Work) ==> second == RecoveryStep::<E>::End(
            Err(CatacombRecoveryError::Store(active->Err_0)),
        ),
{
    assert(crate::catacomb_names::generation_of(accepted.candidate()) =~= pair_bytes()
        + accepted.candidate());
}

/// The work that promotes a candidate, in its order.
pub open spec fn recovery_order() -> Seq<RecoveryWork> {
    seq![
        RecoveryWork::RemoveTemporary,
        RecoveryWork::WriteMarker,
        RecoveryWork::ReplaceMarker,
        RecoveryWork::SyncPromotion,
        RecoveryWork::RemoveReservation,
        RecoveryWork::SyncRemoval,
    ]
}

/// A candidate is promoted step by step, and its reservation is removed only once the
/// promotion is synchronized; what fails before ends the recovery with the reservation
/// in place. The marker selects the candidate's own generation.
pub proof fn law_candidates_are_promoted_step_by_step<E>(
    pending: PendingRecovery,
    outcome: Result<(), CatacombStoreError>,
    r: RecoveryStep<E>,
    content: Vec<u8>,
    token: &[u8],
    work: RecoveryWork,
    place: int,
)
    requires
        call_ensures(PendingRecovery::done::<E>, (pending, outcome), r),
        call_ensures(PendingRecovery::content, (&pending,), content),
        call_ensures(PendingRecovery::token, (&pending,), token),
        call_ensures(PendingRecovery::work, (&pending,), work),
        0 <= place < 6,
        work == recovery_order()[place],
    ensures
        content@ == if work == RecoveryWork::WriteMarker {
            pair_bytes() + token@ + seq![10u8]
        } else {
            Seq::<u8>::empty()
        },
        place < 5 && outcome is Ok ==> (r matches RecoveryStep::Work(next) && next.task()
            == recovery_order()[place + 1] && next.candidate() == token@ && next.bounds()
            == pending.bounds()),
        work == RecoveryWork::SyncRemoval ==> r == RecoveryStep::<E>::End(
            Ok(CatacombRecoveryOutcome::Promoted),
        ),
        outcome is Err && (work == RecoveryWork::RemoveTemporary || work
            == RecoveryWork::WriteMarker || work == RecoveryWork::RemoveReservation) ==> r
            == RecoveryStep::<E>::End(Err(CatacombRecoveryError::Store(outcome->Err_0))),
        outcome is Err && work == RecoveryWork::SyncPromotion ==> r == RecoveryStep::<E>::End(
            Err(CatacombRecoveryError::Store(CatacombStoreError::PromotionDurabilityUnknown)),
        ),
        outcome is Err && work == RecoveryWork::ReplaceMarker ==> (
        r matches RecoveryStep::Work(next) && next.task() == RecoveryWork::DiscardTemporary
            && next.candidate() == token@),
{
    if work == RecoveryWork::WriteMarker {
        assert(content@ =~= pair_bytes() + token@ + seq![10u8]);
    }
}

/// A temporary marker that was discarded has failed its recovery.
pub proof fn law_discarded_markers_fail_their_recovery<E>(
    pending: PendingRecovery,
    outcome: Result<(), CatacombStoreError>,
    r: RecoveryStep<E>,
)
    requires
        pending.task() == RecoveryWork::DiscardTemporary,
        call_ensures(PendingRecovery::done::<E>, (pending, outcome), r),
    ensures
        r == RecoveryStep::<E>::End(
            Err(CatacombRecoveryError::Store(CatacombStoreError::StorageUnavailable)),
        ),
{
}

} // verus!
