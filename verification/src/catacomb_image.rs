//! What a store's directory holds, and what a load reads from it.
//!
//! A load gives the members of the one generation that the active marker selects.
//! Until a transaction replaces the marker, a load gives what it gave before; from
//! then on it gives what was written to the transaction.

use crate::catacomb_names::{
    active_marker, generation_of, is_token_text, law_names_identify_their_token,
    law_names_of_tokens_are_recognized, marker_content, names_generation, reservation_of,
    stage_of, temporary_of,
};
use crate::catacomb_recovery::{
    candidate_of, changes_store, is_recovery_run, law_device_judges_only_complete_candidates,
    recovery_follows, CatacombRecoveryOutcome, RecoveryAnswer, RecoveryStep, RecoveryWork,
};
use crate::catacomb_store::{
    bytes_of, is_blob_size, load_follows, load_step, reading_follows, CatacombPair,
    CatacombStoreError, LoadAnswer, LoadStep, PairAnswer, PairModel, PairPart, PairProgress,
    StoreLimits,
};
use crate::catacomb_transaction::{
    content_of, Member, TransactionModel, TransactionState, Work,
};
use vstd::prelude::*;

verus! {

/// What a store's directory holds: its files by name, and its directories with
/// their members. Every object is private and of the expected owner.
pub struct StoreImage {
    pub files: Map<Seq<u8>, Seq<u8>>,
    pub directories: Map<Seq<u8>, Map<Member, Seq<u8>>>,
}

impl StoreImage {
    /// The image with the stage of `token`, which is empty.
    pub open spec fn with_stage(self, token: Seq<u8>) -> StoreImage {
        StoreImage {
            directories: self.directories.insert(stage_of(token), Map::empty()),
            ..self
        }
    }

    /// The image after the work of a transaction has succeeded.
    pub open spec fn after(
        self,
        on: TransactionModel,
        work: Work,
        written: Seq<u8>,
    ) -> StoreImage {
        let stage = stage_of(on.token);
        let generation = generation_of(on.token);
        let temporary = temporary_of(on.token);
        match work {
            Work::RenameForReservation | Work::RenameForPromotion => StoreImage {
                directories: self.directories.remove(stage).insert(
                    generation,
                    self.directories[stage],
                ),
                ..self
            },
            Work::CreateReservation => StoreImage {
                files: self.files.insert(reservation_of(on.token), Seq::empty()),
                ..self
            },
            Work::WriteMember(member) => StoreImage {
                directories: self.directories.insert(
                    on.directory(),
                    self.directories[on.directory()].insert(member, written),
                ),
                ..self
            },
            Work::WriteMarker => StoreImage { files: self.files.insert(temporary, written), ..self },
            Work::ReplaceMarker => StoreImage {
                files: self.files.insert(active_marker(), self.files[temporary]).remove(temporary),
                ..self
            },
            Work::RemoveReservation => StoreImage {
                files: self.files.remove(reservation_of(on.token)),
                ..self
            },
            _ => self,
        }
    }

    /// The generation that the active marker selects, or why there is none.
    pub open spec fn selected(self) -> Result<Seq<u8>, CatacombStoreError> {
        if !self.files.contains_key(active_marker()) {
            Err(CatacombStoreError::MissingPair)
        } else {
            selected_by(self.files[active_marker()])
        }
    }

    /// What reading a blob of a generation gives.
    pub open spec fn blob(
        self,
        generation: Seq<u8>,
        member: Member,
        limits: StoreLimits,
    ) -> Result<Seq<u8>, CatacombStoreError> {
        let members = self.directories[generation];
        if !members.contains_key(member) {
            Err(CatacombStoreError::IncompletePair)
        } else if !is_blob_size(members[member].len() as int, limits) {
            Err(CatacombStoreError::InvalidBlob)
        } else {
            Ok(members[member])
        }
    }

    /// What reading the metadata of a generation gives, where `decodes` tells the
    /// valid manifests.
    pub open spec fn metadata(
        self,
        generation: Seq<u8>,
        limits: StoreLimits,
        decodes: spec_fn(Seq<u8>) -> bool,
    ) -> Result<Option<Seq<u8>>, CatacombStoreError> {
        let members = self.directories[generation];
        if !members.contains_key(Member::Metadata) {
            Ok(None)
        } else if members[Member::Metadata].len() > limits.manifest || !decodes(
            members[Member::Metadata],
        ) {
            Err(CatacombStoreError::InvalidMetadata)
        } else {
            Ok(Some(members[Member::Metadata]))
        }
    }

    /// What reading a generation gives: its members, or the first failure in reading
    /// order.
    pub open spec fn pair(
        self,
        generation: Seq<u8>,
        limits: StoreLimits,
        decodes: spec_fn(Seq<u8>) -> bool,
    ) -> Result<PairModel, CatacombStoreError> {
        if !self.directories.contains_key(generation) {
            Err(CatacombStoreError::UnsafeStorage)
        } else {
            match self.blob(generation, Member::Master, limits) {
                Err(error) => Err(error),
                Ok(master) => match self.blob(generation, Member::User, limits) {
                    Err(error) => Err(error),
                    Ok(user) => match self.metadata(generation, limits, decodes) {
                        Err(error) => Err(error),
                        Ok(metadata) => Ok(PairModel { master, user, metadata }),
                    },
                },
            }
        }
    }

    /// The image after the work of a recovery has succeeded.
    pub open spec fn after_recovery(
        self,
        token: Seq<u8>,
        work: RecoveryWork,
        written: Seq<u8>,
    ) -> StoreImage {
        let temporary = temporary_of(token);
        match work {
            RecoveryWork::RemoveTemporary | RecoveryWork::DiscardTemporary => StoreImage {
                files: self.files.remove(temporary),
                ..self
            },
            RecoveryWork::WriteMarker => StoreImage {
                files: self.files.insert(temporary, written),
                ..self
            },
            RecoveryWork::ReplaceMarker => StoreImage {
                files: self.files.insert(active_marker(), self.files[temporary]).remove(temporary),
                ..self
            },
            RecoveryWork::RemoveReservation => StoreImage {
                files: self.files.remove(reservation_of(token)),
                ..self
            },
            _ => self,
        }
    }

    /// What loading the store gives: the members of the one generation that the
    /// marker selects, or the first failure in reading order.
    pub open spec fn loaded(self, limits: StoreLimits, decodes: spec_fn(Seq<u8>) -> bool) -> Result<
        PairModel,
        CatacombStoreError,
    > {
        match self.selected() {
            Err(error) => Err(error),
            Ok(generation) => self.pair(generation, limits, decodes),
        }
    }
}

/// The generation that a marker's content selects.
pub open spec fn selected_by(content: Seq<u8>) -> Result<Seq<u8>, CatacombStoreError> {
    if exists|name: Seq<u8>| names_generation(name) && content == #[trigger] marker_content(name) {
        Ok(choose|name: Seq<u8>| names_generation(name) && content == #[trigger] marker_content(name))
    } else {
        Err(CatacombStoreError::UnsafeStorage)
    }
}

/// A marker selects the generation that it was written for.
pub proof fn lemma_markers_select_their_generation(generation: Seq<u8>)
    requires
        names_generation(generation),
    ensures
        selected_by(marker_content(generation)) == Ok::<Seq<u8>, CatacombStoreError>(generation),
{
    let content = marker_content(generation);
    let name = choose|name: Seq<u8>|
        names_generation(name) && content == #[trigger] marker_content(name);
    assert(names_generation(name) && content == marker_content(name));
    assert(name =~= content.subrange(0, content.len() - 1));
    assert(generation =~= content.subrange(0, content.len() - 1));
}

/// A bytes result as the contracts see it.
pub open spec fn bytes_result(result: Result<Vec<u8>, CatacombStoreError>) -> Result<
    Seq<u8>,
    CatacombStoreError,
> {
    match result {
        Ok(bytes) => Ok(bytes@),
        Err(error) => Err(error),
    }
}

/// A load's result as the contracts see it.
pub open spec fn pair_result(result: Result<CatacombPair, CatacombStoreError>) -> Result<
    PairModel,
    CatacombStoreError,
> {
    match result {
        Ok(pair) => Ok(pair@),
        Err(error) => Err(error),
    }
}

/// The answer is what a store with this image gives to the step of a load.
pub open spec fn answers_from(
    image: StoreImage,
    decodes: spec_fn(Seq<u8>) -> bool,
    step: LoadStep,
    answer: LoadAnswer,
) -> bool {
    match (step, answer) {
        (LoadStep::OpenStore(_), LoadAnswer::Store(outcome)) => outcome is Ok,
        (LoadStep::ReadMarker(_), LoadAnswer::Marker(outcome)) => bytes_result(outcome)
            == image.selected(),
        (LoadStep::ReadPair(reading), LoadAnswer::Part(PairAnswer::Directory(outcome))) =>
            reading@.part == PairPart::Directory && match outcome {
                Ok(()) => image.directories.contains_key(reading@.generation),
                Err(error) => !image.directories.contains_key(reading@.generation) && error
                    == CatacombStoreError::UnsafeStorage,
            },
        (LoadStep::ReadPair(reading), LoadAnswer::Part(PairAnswer::Blob(outcome))) => match
            reading@.part {
            PairPart::Master => bytes_result(outcome) == image.blob(
                reading@.generation,
                Member::Master,
                reading@.limits,
            ),
            PairPart::User => bytes_result(outcome) == image.blob(
                reading@.generation,
                Member::User,
                reading@.limits,
            ),
            _ => false,
        },
        (LoadStep::ReadPair(reading), LoadAnswer::Part(PairAnswer::Metadata(outcome))) =>
            reading@.part == PairPart::Metadata && match outcome {
                Ok(metadata) => image.metadata(reading@.generation, reading@.limits, decodes)
                    == Ok::<Option<Seq<u8>>, CatacombStoreError>(bytes_of(metadata)),
                Err(error) => image.metadata(reading@.generation, reading@.limits, decodes) == Err::<
                    Option<Seq<u8>>,
                    CatacombStoreError,
                >(error),
            },
        _ => false,
    }
}

/// A run of a load over a store with this image.
pub open spec fn is_load_run(
    image: StoreImage,
    limits: StoreLimits,
    decodes: spec_fn(Seq<u8>) -> bool,
    steps: Seq<LoadStep>,
    answers: Seq<LoadAnswer>,
) -> bool {
    &&& steps.len() == answers.len() + 1
    &&& steps[0] is OpenStore
    &&& steps[0]->OpenStore_0.bounds() == limits
    &&& forall|k: int|
        0 <= k < answers.len() ==> load_follows(#[trigger] steps[k], answers[k], steps[k + 1])
    &&& forall|k: int|
        0 <= k < answers.len() ==> answers_from(image, decodes, #[trigger] steps[k], answers[k])
}

/// What a step of a load has read so far is what the image holds.
spec fn reads(
    image: StoreImage,
    limits: StoreLimits,
    decodes: spec_fn(Seq<u8>) -> bool,
    step: LoadStep,
) -> bool {
    match step {
        LoadStep::OpenStore(pending) => pending.bounds() == limits,
        LoadStep::ReadMarker(pending) => pending.bounds() == limits,
        LoadStep::ReadPair(reading) => {
            let part = reading@.part;
            let generation = reading@.generation;
            &&& reading@.limits == limits
            &&& image.selected() == Ok::<Seq<u8>, CatacombStoreError>(generation)
            &&& part != PairPart::Directory ==> image.directories.contains_key(generation)
            &&& part == PairPart::User || part == PairPart::Metadata ==> image.blob(
                generation,
                Member::Master,
                limits,
            ) == Ok::<Seq<u8>, CatacombStoreError>(reading@.master)
            &&& part == PairPart::Metadata ==> image.blob(generation, Member::User, limits) == Ok::<
                Seq<u8>,
                CatacombStoreError,
            >(reading@.user)
        },
        LoadStep::End(result) => pair_result(result) == image.loaded(limits, decodes),
    }
}

proof fn lemma_step_reads(
    image: StoreImage,
    limits: StoreLimits,
    decodes: spec_fn(Seq<u8>) -> bool,
    step: LoadStep,
    answer: LoadAnswer,
    next: LoadStep,
)
    requires
        reads(image, limits, decodes, step),
        load_follows(step, answer, next),
        answers_from(image, decodes, step, answer),
    ensures
        reads(image, limits, decodes, next),
{
    match step {
        LoadStep::ReadPair(reading) => {
            let part_answer = answer->Part_0;
            let progress = choose|progress: PairProgress|
                #[trigger] load_step(progress) == next && reading_follows(
                    reading@,
                    part_answer,
                    progress,
                );
            assert(load_step(progress) == next && reading_follows(reading@, part_answer, progress));
        },
        LoadStep::ReadMarker(_) => {
            if let LoadAnswer::Marker(Ok(name)) = answer {
                assert(image.selected() == Ok::<Seq<u8>, CatacombStoreError>(name@));
                assert(names_generation(name@));
            }
        },
        _ => {},
    }
}

/// A load gives what the store holds: the bytes of the one generation that the
/// active marker selects, or the failure that the store's state means.
pub proof fn law_loads_give_what_the_store_holds(
    image: StoreImage,
    limits: StoreLimits,
    decodes: spec_fn(Seq<u8>) -> bool,
    steps: Seq<LoadStep>,
    answers: Seq<LoadAnswer>,
    k: int,
)
    requires
        is_load_run(image, limits, decodes, steps, answers),
        0 <= k < steps.len(),
        steps[k] is End,
    ensures
        pair_result(steps[k]->End_0) == image.loaded(limits, decodes),
{
    lemma_run_reads(image, limits, decodes, steps, answers, k);
}

proof fn lemma_run_reads(
    image: StoreImage,
    limits: StoreLimits,
    decodes: spec_fn(Seq<u8>) -> bool,
    steps: Seq<LoadStep>,
    answers: Seq<LoadAnswer>,
    k: int,
)
    requires
        is_load_run(image, limits, decodes, steps, answers),
        0 <= k < steps.len(),
    ensures
        reads(image, limits, decodes, steps[k]),
    decreases k,
{
    if k > 0 {
        lemma_run_reads(image, limits, decodes, steps, answers, k - 1);
        assert(load_follows(steps[k - 1], answers[k - 1], steps[k - 1 + 1]));
        assert(answers_from(image, decodes, steps[k - 1], answers[k - 1]));
        lemma_step_reads(image, limits, decodes, steps[k - 1], answers[k - 1], steps[k]);
    }
}

/// A token whose names are not in use.
pub open spec fn is_fresh(image: StoreImage, token: Seq<u8>) -> bool {
    &&& is_token_text(token)
    &&& !image.directories.contains_key(generation_of(token))
    &&& !image.directories.contains_key(stage_of(token))
    &&& !image.files.contains_key(temporary_of(token))
    &&& image.selected() != Ok::<Seq<u8>, CatacombStoreError>(generation_of(token))
}

/// The names of one token differ from each other and from the active marker's.
pub proof fn lemma_names_differ(token: Seq<u8>)
    requires
        is_token_text(token),
    ensures
        stage_of(token) != generation_of(token),
        temporary_of(token) != active_marker(),
        names_generation(generation_of(token)),
{
    law_names_of_tokens_are_recognized(token);
    law_names_identify_their_token(generation_of(token), token);
    law_names_identify_their_token(stage_of(token), token);
    assert(temporary_of(token)[0] == 46u8);
    assert(active_marker()[0] == 97u8);
}

/// What failing work may leave behind: the active marker is as it was, and so is
/// every directory but the transaction's own stage and generation.
pub open spec fn keeps_the_active_pair(
    before: StoreImage,
    after: StoreImage,
    token: Seq<u8>,
) -> bool {
    &&& before.files.contains_key(active_marker()) == after.files.contains_key(active_marker())
    &&& before.files.contains_key(active_marker()) ==> before.files[active_marker()]
        == after.files[active_marker()]
    &&& forall|name: Seq<u8>|
        name != stage_of(token) && name != generation_of(token) ==> {
            &&& #[trigger] before.directories.contains_key(name)
                == after.directories.contains_key(name)
            &&& before.directories.contains_key(name) ==> before.directories[name]
                == after.directories[name]
        }
}

/// What a marker selects has the name of a generation.
pub proof fn lemma_selected_is_a_generation(image: StoreImage, name: Seq<u8>)
    requires
        image.selected() == Ok::<Seq<u8>, CatacombStoreError>(name),
    ensures
        names_generation(name),
{
    let content = image.files[active_marker()];
    let chosen = choose|name: Seq<u8>|
        names_generation(name) && content == #[trigger] marker_content(name);
    assert(names_generation(chosen) && content == marker_content(chosen));
}

/// Where the active pair is kept, a load gives what it gave before.
pub proof fn lemma_kept_pairs_are_loaded(
    before: StoreImage,
    after: StoreImage,
    token: Seq<u8>,
    limits: StoreLimits,
    decodes: spec_fn(Seq<u8>) -> bool,
)
    requires
        is_token_text(token),
        before.selected() != Ok::<Seq<u8>, CatacombStoreError>(generation_of(token)),
        keeps_the_active_pair(before, after, token),
    ensures
        after.loaded(limits, decodes) == before.loaded(limits, decodes),
{
    assert(after.selected() == before.selected());
    if let Ok(name) = before.selected() {
        lemma_selected_is_a_generation(before, name);
        law_names_of_tokens_are_recognized(token);
        law_names_identify_their_token(name, token);
        assert(name != stage_of(token)) by {
            law_names_identify_their_token(stage_of(token), token);
        }
        assert(before.directories.contains_key(name) == after.directories.contains_key(name));
    }
}

/// One piece of a transaction's work: in which transaction, what is done and what
/// it writes.
pub struct WorkModel {
    pub on: TransactionModel,
    pub task: Work,
    pub written: Seq<u8>,
}

impl WorkModel {
    /// A procedure of the transaction begins with this work: reserving recovery,
    /// writing a member that is within the limits, or promoting the pair.
    pub open spec fn begins_procedure(self, decodes: spec_fn(Seq<u8>) -> bool) -> bool {
        match self.task {
            Work::RenameForReservation => self.on.state == TransactionState::Empty
                && !self.on.recovery_reserved,
            Work::WriteMember(member) => self.on.may_write(member) && is_valid_member(
                member,
                self.written,
                self.on.limits,
                decodes,
            ),
            Work::RenameForPromotion => self.on.may_promote(false) && !self.on.generation_renamed,
            Work::BeforeMarker => self.on.may_promote(false) && self.on.generation_renamed,
            _ => false,
        }
    }

    /// The work comes after `before`, which succeeded: as the rest of its procedure,
    /// or as the beginning of another.
    pub open spec fn comes_after(
        self,
        before: WorkModel,
        decodes: spec_fn(Seq<u8>) -> bool,
    ) -> bool {
        &&& self.on == before.on.after(before.task)
        &&& match before.on.following(before.task) {
            Some(task) => self.task == task && self.written == content_of(
                before.on,
                task,
                Seq::empty(),
            ),
            None => self.begins_procedure(decodes),
        }
    }
}

/// Whether a member's bytes may be written: a blob within the limits, or a manifest
/// within its own that decodes.
pub open spec fn is_valid_member(
    member: Member,
    bytes: Seq<u8>,
    limits: StoreLimits,
    decodes: spec_fn(Seq<u8>) -> bool,
) -> bool {
    match member {
        Member::Metadata => bytes.len() <= limits.manifest && decodes(bytes),
        Member::User | Member::Master => is_blob_size(bytes.len() as int, limits),
    }
}

/// The work of a transaction and the images between it, from the stage on: each
/// piece of work succeeds and has its effect.
pub open spec fn is_transaction_run(
    image: StoreImage,
    token: Seq<u8>,
    limits: StoreLimits,
    decodes: spec_fn(Seq<u8>) -> bool,
    works: Seq<WorkModel>,
    images: Seq<StoreImage>,
) -> bool {
    &&& works.len() > 0
    &&& images.len() == works.len()
    &&& works[0].on == TransactionModel::begun(token, limits)
    &&& works[0].begins_procedure(decodes)
    &&& images[0] == image.with_stage(token)
    &&& forall|k: int|
        0 <= k < works.len() - 1 ==> {
            &&& works[k + 1].comes_after(#[trigger] works[k], decodes)
            &&& images[k + 1] == images[k].after(works[k].on, works[k].task, works[k].written)
        }
}

/// The members that the first `k` pieces of work have written.
pub open spec fn members_written(works: Seq<WorkModel>, k: int) -> Map<Member, Seq<u8>>
    decreases k,
{
    if k <= 0 {
        Map::empty()
    } else {
        let before = members_written(works, k - 1);
        match works[k - 1].task {
            Work::WriteMember(member) => before.insert(member, works[k - 1].written),
            _ => before,
        }
    }
}

/// What holds of the transaction and the image before the work is done.
spec fn run_stands(
    image: StoreImage,
    token: Seq<u8>,
    limits: StoreLimits,
    decodes: spec_fn(Seq<u8>) -> bool,
    work: WorkModel,
    now: StoreImage,
    members: Map<Member, Seq<u8>>,
) -> bool {
    let on = work.on;
    let task = work.task;
    let marker = marker_content(generation_of(token));
    &&& on.token == token && on.limits == limits
    &&& on.is_consistent()
    &&& now.directories.contains_key(on.directory())
    &&& now.directories[on.directory()] == members
    &&& forall|member: Member| #[trigger]
        members.contains_key(member) ==> is_valid_member(member, members[member], limits, decodes)
    &&& on.state == TransactionState::UserDurable ==> members.contains_key(Member::User)
    &&& on.state == TransactionState::PairDurable ==> members.contains_key(Member::User)
        && members.contains_key(Member::Master)
    &&& on.state == TransactionState::Empty && on.generation_renamed ==> on.recovery_reserved
        || task is SyncForReservation || task is CreateReservation
    &&& !on.marker_replaced ==> keeps_the_active_pair(image, now, token)
    &&& on.marker_replaced ==> now.files.contains_key(active_marker())
        && now.files[active_marker()] == marker
    &&& match task {
        Work::SyncForReservation | Work::CreateReservation => on.state == TransactionState::Empty
            && on.generation_renamed,
        Work::RenameForReservation => on.state == TransactionState::Empty
            && !on.recovery_reserved && !on.generation_renamed,
        Work::WriteMember(member) => on.may_write(member) && is_valid_member(
            member,
            work.written,
            limits,
            decodes,
        ),
        Work::SyncMember(member) => on.may_write(member) && members.contains_key(member),
        Work::RenameForPromotion => on.state == TransactionState::PairDurable
            && !on.generation_renamed,
        Work::SyncForPromotion | Work::BeforeMarker => on.state == TransactionState::PairDurable
            && on.generation_renamed,
        Work::WriteMarker => on.state == TransactionState::PairDurable && on.generation_renamed
            && work.written == marker,
        Work::ReplaceMarker => on.state == TransactionState::PairDurable && on.generation_renamed
            && now.files.contains_key(temporary_of(token)) && now.files[temporary_of(token)]
            == marker,
        Work::SyncPromotion | Work::RemoveReservation | Work::SyncRemoval => on.marker_replaced,
        Work::SyncReservation | Work::SyncReserved => on.state == TransactionState::Empty
            && on.recovery_reserved,
    }
}

/// A transaction and its image once the work is done.
spec fn run_stood(
    image: StoreImage,
    token: Seq<u8>,
    limits: StoreLimits,
    decodes: spec_fn(Seq<u8>) -> bool,
    on: TransactionModel,
    now: StoreImage,
    members: Map<Member, Seq<u8>>,
) -> bool {
    &&& on.token == token && on.limits == limits
    &&& on.is_consistent()
    &&& now.directories.contains_key(on.directory())
    &&& now.directories[on.directory()] == members
    &&& forall|member: Member| #[trigger]
        members.contains_key(member) ==> is_valid_member(member, members[member], limits, decodes)
    &&& on.state == TransactionState::UserDurable ==> members.contains_key(Member::User)
    &&& on.state == TransactionState::PairDurable ==> members.contains_key(Member::User)
        && members.contains_key(Member::Master)
    &&& !on.marker_replaced ==> keeps_the_active_pair(image, now, token)
    &&& on.marker_replaced ==> now.files.contains_key(active_marker())
        && now.files[active_marker()] == marker_content(generation_of(token))
}

proof fn lemma_work_is_done(
    image: StoreImage,
    token: Seq<u8>,
    limits: StoreLimits,
    decodes: spec_fn(Seq<u8>) -> bool,
    work: WorkModel,
    now: StoreImage,
    members: Map<Member, Seq<u8>>,
)
    requires
        run_stands(image, token, limits, decodes, work, now, members),
    ensures
        run_stood(
            image,
            token,
            limits,
            decodes,
            work.on.after(work.task),
            now.after(work.on, work.task, work.written),
            match work.task {
                Work::WriteMember(member) => members.insert(member, work.written),
                _ => members,
            },
        ),
        work.task is WriteMarker ==> now.after(work.on, work.task, work.written).files.contains_key(
            temporary_of(token),
        ) && now.after(work.on, work.task, work.written).files[temporary_of(token)]
            == marker_content(generation_of(token)),
{
    lemma_names_differ(token);
    lemma_markers_are_apart(token);
    let after = now.after(work.on, work.task, work.written);
    if !work.on.after(work.task).marker_replaced {
        assert(keeps_the_active_pair(image, after, token));
    }
}

/// Neither the temporary marker nor the reservation is the active marker.
proof fn lemma_markers_are_apart(token: Seq<u8>)
    requires
        is_token_text(token),
    ensures
        temporary_of(token) != active_marker(),
        reservation_of(token) != active_marker(),
{
    assert(temporary_of(token)[0] == 46u8);
    assert(reservation_of(token)[0] == 46u8);
    assert(active_marker()[0] == 97u8);
}

proof fn lemma_transaction_run(
    image: StoreImage,
    token: Seq<u8>,
    limits: StoreLimits,
    decodes: spec_fn(Seq<u8>) -> bool,
    works: Seq<WorkModel>,
    images: Seq<StoreImage>,
    k: int,
)
    requires
        is_fresh(image, token),
        is_transaction_run(image, token, limits, decodes, works, images),
        0 <= k < works.len(),
    ensures
        run_stands(image, token, limits, decodes, works[k], images[k], members_written(works, k)),
    decreases k,
{
    if k == 0 {
        lemma_names_differ(token);
        assert(keeps_the_active_pair(image, images[0], token));
    } else {
        lemma_transaction_run(image, token, limits, decodes, works, images, k - 1);
        assert(works[k - 1 + 1].comes_after(works[k - 1], decodes));
        lemma_work_is_done(
            image,
            token,
            limits,
            decodes,
            works[k - 1],
            images[k - 1],
            members_written(works, k - 1),
        );
    }
}

/// What a promoted transaction holds is loaded back: once a promotion has ended,
/// reserved or not, a load gives exactly the user's and the master's bytes and the
/// manifest, if any, that were written to the transaction, whatever the store held
/// before.
pub proof fn law_promoted_members_are_loaded_back(
    image: StoreImage,
    token: Seq<u8>,
    limits: StoreLimits,
    decodes: spec_fn(Seq<u8>) -> bool,
    works: Seq<WorkModel>,
    images: Seq<StoreImage>,
)
    requires
        is_fresh(image, token),
        is_transaction_run(image, token, limits, decodes, works, images),
        works.last().on.after(works.last().task).marker_replaced,
    ensures
        ({
            let members = members_written(works, works.len() as int);
            let last = works.last();
            &&& members.contains_key(Member::User)
            &&& members.contains_key(Member::Master)
            &&& images.last().after(last.on, last.task, last.written).loaded(limits, decodes)
                == Ok::<PairModel, CatacombStoreError>(
                PairModel {
                    master: members[Member::Master],
                    user: members[Member::User],
                    metadata: if members.contains_key(Member::Metadata) {
                        Some(members[Member::Metadata])
                    } else {
                        None
                    },
                },
            )
        }),
{
    let k = works.len() - 1;
    let last = works[k];
    let members = members_written(works, k);
    lemma_transaction_run(image, token, limits, decodes, works, images, k);
    lemma_work_is_done(image, token, limits, decodes, last, images[k], members);
    lemma_names_differ(token);
    lemma_markers_select_their_generation(generation_of(token));
    let after = images[k].after(last.on, last.task, last.written);
    assert(after.selected() == Ok::<Seq<u8>, CatacombStoreError>(generation_of(token)));
}

/// A transaction that has not replaced the marker leaves the active pair: whatever
/// its failing work and the cleaning up after it did to its own files, a load gives
/// what it gave before.
pub proof fn law_unpromoted_transactions_leave_the_active_pair(
    image: StoreImage,
    token: Seq<u8>,
    limits: StoreLimits,
    decodes: spec_fn(Seq<u8>) -> bool,
    works: Seq<WorkModel>,
    images: Seq<StoreImage>,
    k: int,
    left: StoreImage,
)
    requires
        is_fresh(image, token),
        is_transaction_run(image, token, limits, decodes, works, images),
        0 <= k < works.len(),
        !works[k].on.marker_replaced,
        keeps_the_active_pair(images[k], left, token),
    ensures
        left.loaded(limits, decodes) == image.loaded(limits, decodes),
{
    lemma_transaction_run(image, token, limits, decodes, works, images, k);
    assert(keeps_the_active_pair(image, left, token)) by {
        assert forall|name: Seq<u8>|
            name != stage_of(token) && name != generation_of(token) implies {
            &&& #[trigger] image.directories.contains_key(name)
                == left.directories.contains_key(name)
            &&& image.directories.contains_key(name) ==> image.directories[name]
                == left.directories[name]
        } by {
            assert(image.directories.contains_key(name) == images[k].directories.contains_key(
                name,
            ));
            assert(images[k].directories.contains_key(name) == left.directories.contains_key(
                name,
            ));
        }
    }
    lemma_kept_pairs_are_loaded(image, left, token, limits, decodes);
}

/// The answer is what a store with this image gives to the step of a recovery.
pub open spec fn recovers_from<E>(
    image: StoreImage,
    decodes: spec_fn(Seq<u8>) -> bool,
    step: RecoveryStep<E>,
    answer: RecoveryAnswer<E>,
) -> bool {
    match (step, answer) {
        (RecoveryStep::ReadTokens(_), RecoveryAnswer::Tokens(Ok(tokens))) => forall|i: int|
            0 <= i < tokens@.len() ==> is_token_text(#[trigger] tokens@[i]@),
        (RecoveryStep::ReadPair(candidate), RecoveryAnswer::Pair(pair)) => pair_result(pair)
            == image.pair(generation_of(candidate.candidate()), candidate.bounds(), decodes),
        (RecoveryStep::ReadActive(_), RecoveryAnswer::Active(active)) => bytes_result(active)
            == image.selected(),
        _ => true,
    }
}

/// The image once the step was answered: work that succeeded has its effect, and
/// nothing else changes anything.
pub open spec fn image_after<E>(
    image: StoreImage,
    step: RecoveryStep<E>,
    answer: RecoveryAnswer<E>,
) -> StoreImage {
    match (step, answer) {
        (RecoveryStep::Work(pending), RecoveryAnswer::Done(Ok(()))) => image.after_recovery(
            pending.candidate(),
            pending.task(),
            pending.written(),
        ),
        _ => image,
    }
}

/// A run of a recovery over a store, with the images between its steps.
pub open spec fn is_recovery_of<E>(
    decodes: spec_fn(Seq<u8>) -> bool,
    steps: Seq<RecoveryStep<E>>,
    answers: Seq<RecoveryAnswer<E>>,
    images: Seq<StoreImage>,
) -> bool {
    &&& is_recovery_run(steps, answers)
    &&& images.len() == steps.len()
    &&& forall|k: int|
        0 <= k < answers.len() ==> {
            &&& recovers_from(images[k], decodes, #[trigger] steps[k], answers[k])
            &&& images[k + 1] == image_after(images[k], steps[k], answers[k])
        }
}

/// What holds of the image before a step of a recovery.
spec fn recovery_stands<E>(
    decodes: spec_fn(Seq<u8>) -> bool,
    steps: Seq<RecoveryStep<E>>,
    answers: Seq<RecoveryAnswer<E>>,
    images: Seq<StoreImage>,
    k: int,
) -> bool {
    let step = steps[k];
    let now = images[k];
    let token = candidate_of(steps[k]);
    &&& now.directories == images[0].directories
    &&& step is Probe || step is ReadPair || step is Validate || step is ReadActive
        || changes_store(step) ==> is_token_text(token)
    &&& step is Validate ==> k == 5 && now.pair(
        generation_of(token),
        step->Validate_0.bounds(),
        decodes,
    ) == Ok::<PairModel, CatacombStoreError>(step->Validate_0.judged_pair())
    &&& step is ReadActive || changes_store(step) || step == RecoveryStep::<E>::End(
        Ok(CatacombRecoveryOutcome::Promoted),
    ) ==> k > 5 && steps[5] is Validate && is_token_text(candidate_of(steps[5]))
        && images[5].directories == images[0].directories && images[5].pair(
        generation_of(candidate_of(steps[5])),
        steps[5]->Validate_0.bounds(),
        decodes,
    ) == Ok::<PairModel, CatacombStoreError>(steps[5]->Validate_0.judged_pair())
    &&& step is ReadActive || changes_store(step) ==> token == candidate_of(steps[5])
    &&& changes_store(step) ==> match step->Work_0.task() {
        RecoveryWork::ReplaceMarker => now.files.contains_key(temporary_of(token))
            && now.files[temporary_of(token)] == marker_content(generation_of(token)),
        RecoveryWork::SyncPromotion
        | RecoveryWork::RemoveReservation
        | RecoveryWork::SyncRemoval => now.selected() == Ok::<Seq<u8>, CatacombStoreError>(
            generation_of(token),
        ),
        _ => true,
    }
    &&& step == RecoveryStep::<E>::End(Ok(CatacombRecoveryOutcome::Promoted)) ==> now.selected()
        == Ok::<Seq<u8>, CatacombStoreError>(generation_of(candidate_of(steps[5])))
}

proof fn lemma_recovery_stands<E>(
    decodes: spec_fn(Seq<u8>) -> bool,
    steps: Seq<RecoveryStep<E>>,
    answers: Seq<RecoveryAnswer<E>>,
    images: Seq<StoreImage>,
    k: int,
)
    requires
        is_recovery_of(decodes, steps, answers, images),
        0 <= k < steps.len(),
    ensures
        recovery_stands(decodes, steps, answers, images, k),
    decreases k,
{
    if k > 0 {
        lemma_recovery_stands(decodes, steps, answers, images, k - 1);
        let step = steps[k - 1];
        let answer = answers[k - 1];
        let token = candidate_of(step);
        assert(recovery_follows(step, answer, steps[k - 1 + 1]));
        assert(recovers_from(images[k - 1], decodes, step, answer));
        if steps[k] is Validate {
            law_device_judges_only_complete_candidates(steps, answers, k);
        }
        if changes_store(step) {
            lemma_markers_are_apart(token);
            lemma_names_differ(token);
            lemma_markers_select_their_generation(generation_of(token));
            assert(reservation_of(token) != active_marker());
        }
    }
}

/// A recovery that promotes leaves exactly the pair that the live device accepted
/// to be loaded, within the limits that it was read with.
pub proof fn law_recovered_pairs_are_loaded_back<E>(
    decodes: spec_fn(Seq<u8>) -> bool,
    steps: Seq<RecoveryStep<E>>,
    answers: Seq<RecoveryAnswer<E>>,
    images: Seq<StoreImage>,
    k: int,
)
    requires
        is_recovery_of(decodes, steps, answers, images),
        0 <= k < steps.len(),
        steps[k] == RecoveryStep::<E>::End(Ok(CatacombRecoveryOutcome::Promoted)),
    ensures
        k > 5,
        steps[5] is Validate,
        images[k].loaded(steps[5]->Validate_0.bounds(), decodes) == Ok::<
            PairModel,
            CatacombStoreError,
        >(steps[5]->Validate_0.judged_pair()),
{
    lemma_recovery_stands(decodes, steps, answers, images, k);
}

} // verus!
