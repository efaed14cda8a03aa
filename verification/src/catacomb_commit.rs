//! Committing one complete pair, and what a load reads back.
//!
//! The user's blob becomes durable first, then the master's, and then both are
//! promoted together. Until the marker is replaced, a load gives what it gave
//! before; from then on it gives the committed bytes.

use crate::catacomb_image::{
    is_fresh, keeps_the_active_pair, lemma_kept_pairs_are_loaded,
    lemma_markers_select_their_generation, lemma_names_differ, StoreImage,
};
use crate::catacomb_names::{
    active_marker, generation_of, is_token_text, marker_content, stage_of, temporary_of,
};
use crate::catacomb_store::{
    is_blob_size, validate_blob, CatacombPairStore, CatacombStoreError, PairModel, StoreLimits,
};
use crate::catacomb_transaction::{
    content_of, law_work_keeps_transactions_consistent, reported_failure, BeginStep,
    CatacombPairTransaction, Member, PendingBegin, PendingWork, PreparedBegin, StagedBegin,
    TransactionModel, TransactionProgress, TransactionState, Work,
};
use vstd::prelude::*;

verus! {

/// The two blobs of a commit, both within the store's limits.
struct Blobs<'a> {
    user: &'a [u8],
    master: &'a [u8],
}

/// The next work of a commit.
pub enum CommitStep<'a> {
    /// Prepare the store's directory and report with [`PreparingCommit::prepared`].
    PrepareDirectory(PreparingCommit<'a>),
    /// Look for pending exports and report with [`PreparedCommit::listed`].
    RejectRecoveryState(PreparedCommit<'a>),
    /// Create the stage and report with [`StagedCommit::created`].
    CreateStage(StagedCommit<'a>),
    /// Do the storage work and report with [`CommitWork::done`].
    Work(CommitWork<'a>),
    /// The commit has ended; a transaction that was begun is the caller's to leave.
    End(Option<CatacombPairTransaction>, Result<(), CatacombStoreError>),
}

/// A commit that waits for the store's directory.
pub struct PreparingCommit<'a> {
    begin: PendingBegin,
    blobs: Blobs<'a>,
    limits: StoreLimits,
}

/// A commit that waits for the listing.
pub struct PreparedCommit<'a> {
    begin: PreparedBegin,
    blobs: Blobs<'a>,
    limits: StoreLimits,
}

/// A commit that waits for its stage.
pub struct StagedCommit<'a> {
    begin: StagedBegin,
    blobs: Blobs<'a>,
    limits: StoreLimits,
}

/// What a commit is about: the limits, and the two blobs within them.
pub struct CommitSubject {
    pub limits: StoreLimits,
    pub user: Seq<u8>,
    pub master: Seq<u8>,
}

impl CommitSubject {
    /// Both blobs are within the limits.
    pub open spec fn is_bounded(self) -> bool {
        is_blob_size(self.user.len() as int, self.limits) && is_blob_size(
            self.master.len() as int,
            self.limits,
        )
    }
}

/// Which member a commit is writing, or that it is promoting both.
#[derive(Clone, Copy, Debug, PartialEq, Eq, Structural)]
pub enum CommitPhase {
    User,
    Master,
    Promote,
}

/// A commit with storage work under way.
pub struct CommitWork<'a> {
    pending: PendingWork,
    phase: CommitPhase,
    blobs: Blobs<'a>,
}

/// A commit with storage work under way, as the contracts see it.
pub struct CommitModel {
    pub on: TransactionModel,
    pub task: Work,
    pub written: Seq<u8>,
    pub phase: CommitPhase,
    pub user: Seq<u8>,
    pub master: Seq<u8>,
}

impl CommitModel {
    /// The first work of a commit: its user's blob is written to the stage.
    pub open spec fn first(token: Seq<u8>, subject: CommitSubject) -> CommitModel {
        CommitModel {
            on: TransactionModel::begun(token, subject.limits),
            task: Work::WriteMember(Member::User),
            written: subject.user,
            phase: CommitPhase::User,
            user: subject.user,
            master: subject.master,
        }
    }

    /// What follows work that succeeded: the rest of the phase, then the next
    /// phase, and nothing after the promotion.
    pub open spec fn next(self) -> Option<CommitModel> {
        let on = self.on.after(self.task);
        match self.on.following(self.task) {
            Some(task) => Some(
                CommitModel { on, task, written: content_of(self.on, task, Seq::empty()), ..self },
            ),
            None => match self.phase {
                CommitPhase::User => Some(
                    CommitModel {
                        on,
                        task: Work::WriteMember(Member::Master),
                        written: self.master,
                        phase: CommitPhase::Master,
                        ..self
                    },
                ),
                CommitPhase::Master => Some(
                    CommitModel {
                        on,
                        task: Work::RenameForPromotion,
                        written: Seq::empty(),
                        phase: CommitPhase::Promote,
                        ..self
                    },
                ),
                CommitPhase::Promote => None,
            },
        }
    }

    /// The work belongs to its phase, and the transaction is as far as the phase
    /// says; no reservation is ever made.
    pub open spec fn is_in_phase(self) -> bool {
        &&& self.on.is_consistent()
        &&& self.on.allows(self.task)
        &&& !self.on.recovery_reserved
        &&& is_blob_size(self.user.len() as int, self.on.limits)
        &&& is_blob_size(self.master.len() as int, self.on.limits)
        &&& match self.phase {
            CommitPhase::User => (self.task == Work::WriteMember(Member::User) || self.task
                == Work::SyncMember(Member::User)) && !self.on.generation_renamed,
            CommitPhase::Master => (self.task == Work::WriteMember(Member::Master) || self.task
                == Work::SyncMember(Member::Master)) && !self.on.generation_renamed,
            CommitPhase::Promote => self.task is RenameForPromotion || self.task
                is SyncForPromotion || self.task is BeforeMarker || self.task is WriteMarker
                || self.task is ReplaceMarker || self.task is SyncPromotion,
        }
    }
}

impl<'a> View for CommitWork<'a> {
    type V = CommitModel;

    closed spec fn view(&self) -> CommitModel {
        CommitModel {
            on: self.pending.on(),
            task: self.pending.task(),
            written: self.pending.written(),
            phase: self.phase,
            user: self.blobs.user@,
            master: self.blobs.master@,
        }
    }
}

/// What follows the work of a commit on its outcome: the first failure ends it.
pub open spec fn commit_follows(
    work: CommitModel,
    outcome: Result<(), CatacombStoreError>,
    r: CommitStep,
) -> bool {
    match outcome {
        Err(error) => r is End && r->End_0 is Some && r->End_0->0@ == work.on && r->End_1 == Err::<
            (),
            CatacombStoreError,
        >(reported_failure(work.task, error)),
        Ok(()) => match work.next() {
            Some(next) => r is Work && r->Work_0@ == next,
            None => r is End && r->End_0 is Some && r->End_0->0@ == work.on.after(work.task)
                && r->End_1 is Ok,
        },
    }
}

impl CatacombPairStore {
    /// Begins to promote a complete new pair. The arguments follow native export
    /// order: concrete user first, master last. Both are judged before any
    /// file-system state changes.
    pub fn commit<'a>(&self, user: &'a [u8], master: &'a [u8]) -> (r: CommitStep<'a>)
        ensures
            ({
                let subject = CommitSubject { limits: self.bounds(), user: user@, master: master@ };
                if subject.is_bounded() {
                    r is PrepareDirectory && r->PrepareDirectory_0.subject() == subject
                } else {
                    r is End && r->End_0 is None && r->End_1 == Err::<(), CatacombStoreError>(
                        CatacombStoreError::InvalidBlob,
                    )
                }
            }),
    {
        let limits = self.limits();
        if let Err(error) = validate_blob(user, &limits) {
            return CommitStep::End(None, Err(error));
        }
        if let Err(error) = validate_blob(master, &limits) {
            return CommitStep::End(None, Err(error));
        }
        match self.begin_transaction() {
            BeginStep::PrepareDirectory(begin) => CommitStep::PrepareDirectory(
                PreparingCommit {
                    begin,
                    blobs: Blobs { user, master },
                    limits,
                },
            ),
            _ => CommitStep::End(None, Err(CatacombStoreError::StorageUnavailable)),
        }
    }
}

/// A commit that ended before it had a transaction.
pub open spec fn commit_failed(error: CatacombStoreError, r: CommitStep) -> bool {
    r is End && r->End_0 is None && r->End_1 == Err::<(), CatacombStoreError>(error)
}

impl<'a> PreparingCommit<'a> {
    /// What the commit is about.
    pub closed spec fn subject(self) -> CommitSubject {
        CommitSubject {
            limits: self.limits,
            user: self.blobs.user@,
            master: self.blobs.master@,
        }
    }

    /// Both blobs are within the limits of the transaction that begins.
    #[verifier::type_invariant]
    spec fn is_valid(self) -> bool {
        self.subject().is_bounded() && self.begin.bounds() == self.limits
    }

    /// Takes the judged directory.
    pub fn prepared(self, outcome: Result<(), CatacombStoreError>) -> (r: CommitStep<'a>)
        ensures
            match outcome {
                Ok(()) => r is RejectRecoveryState && r->RejectRecoveryState_0.subject()
                    == self.subject(),
                Err(error) => commit_failed(error, r),
            },
    {
        proof {
            use_type_invariant(&self);
        }
        match self.begin.prepared(outcome) {
            BeginStep::RejectRecoveryState(begin) => CommitStep::RejectRecoveryState(
                PreparedCommit { begin, blobs: self.blobs, limits: self.limits },
            ),
            BeginStep::Failed(error) => CommitStep::End(None, Err(error)),
            _ => CommitStep::End(None, Err(CatacombStoreError::StorageUnavailable)),
        }
    }
}

impl<'a> PreparedCommit<'a> {
    /// What the commit is about.
    pub closed spec fn subject(self) -> CommitSubject {
        CommitSubject {
            limits: self.limits,
            user: self.blobs.user@,
            master: self.blobs.master@,
        }
    }

    /// Both blobs are within the limits of the transaction that begins.
    #[verifier::type_invariant]
    spec fn is_valid(self) -> bool {
        self.subject().is_bounded() && self.begin.bounds() == self.limits
    }

    /// Takes whether an export is pending recovery, and a fresh token.
    pub fn listed(self, outcome: Result<(), CatacombStoreError>, token: Vec<u8>) -> (r:
        CommitStep<'a>)
        requires
            is_token_text(token@),
        ensures
            match outcome {
                Ok(()) => r is CreateStage && r->CreateStage_0.subject() == self.subject()
                    && r->CreateStage_0.identity() == token@,
                Err(error) => commit_failed(error, r),
            },
    {
        proof {
            use_type_invariant(&self);
        }
        match self.begin.listed(outcome, token) {
            BeginStep::CreateStage(begin) => CommitStep::CreateStage(
                StagedCommit { begin, blobs: self.blobs, limits: self.limits },
            ),
            BeginStep::Failed(error) => CommitStep::End(None, Err(error)),
            _ => CommitStep::End(None, Err(CatacombStoreError::StorageUnavailable)),
        }
    }
}

impl<'a> StagedCommit<'a> {
    /// What the commit is about.
    pub closed spec fn subject(self) -> CommitSubject {
        CommitSubject {
            limits: self.limits,
            user: self.blobs.user@,
            master: self.blobs.master@,
        }
    }

    /// The transaction's token.
    pub closed spec fn identity(self) -> Seq<u8> {
        self.begin.identity()
    }

    /// Both blobs are within the limits of the transaction that begins.
    #[verifier::type_invariant]
    spec fn is_valid(self) -> bool {
        self.subject().is_bounded() && self.begin.bounds() == self.limits
    }

    /// The stage to create.
    pub fn stage(&self) -> (r: Vec<u8>)
        ensures
            r@ == stage_of(self.identity()),
    {
        self.begin.stage()
    }

    /// Takes the outcome of creating the stage; then the user's blob is written.
    pub fn created(self, outcome: Result<(), CatacombStoreError>) -> (r: CommitStep<'a>)
        ensures
            match outcome {
                Ok(()) => r is Work && r->Work_0@ == CommitModel::first(
                    self.identity(),
                    self.subject(),
                ),
                Err(error) => commit_failed(error, r),
            },
    {
        proof {
            use_type_invariant(&self);
        }
        match self.begin.created(outcome) {
            Err(error) => CommitStep::End(None, Err(error)),
            Ok(transaction) => match transaction.write_user(self.blobs.user) {
                TransactionProgress::Next(pending) => CommitStep::Work(
                    CommitWork { pending, phase: CommitPhase::User, blobs: self.blobs },
                ),
                TransactionProgress::End(transaction, result) => CommitStep::End(
                    Some(transaction),
                    result,
                ),
            },
        }
    }
}

impl<'a> CommitWork<'a> {
    /// Work belongs to its phase.
    #[verifier::type_invariant]
    spec fn is_valid(self) -> bool {
        self@.is_in_phase()
    }

    /// The work under way.
    pub fn pending(&self) -> (r: &PendingWork)
        ensures
            r.on() == self@.on,
            r.task() == self@.task,
            r.written() == self@.written,
    {
        &self.pending
    }

    /// Takes the outcome of the work.
    pub fn done(self, outcome: Result<(), CatacombStoreError>) -> (r: CommitStep<'a>)
        ensures
            commit_follows(self@, outcome, r),
    {
        proof {
            use_type_invariant(&self);
            law_work_keeps_transactions_consistent(self@.on, self@.task);
        }
        let phase = self.phase;
        let blobs = self.blobs;
        match self.pending.done(outcome) {
            TransactionProgress::Next(pending) => CommitStep::Work(
                CommitWork { pending, phase, blobs },
            ),
            TransactionProgress::End(transaction, Err(error)) => CommitStep::End(
                Some(transaction),
                Err(error),
            ),
            TransactionProgress::End(transaction, Ok(())) => {
                let (progress, phase) = match phase {
                    CommitPhase::User => (
                        transaction.write_master(blobs.master),
                        CommitPhase::Master,
                    ),
                    CommitPhase::Master => (transaction.promote(), CommitPhase::Promote),
                    CommitPhase::Promote => {
                        return CommitStep::End(Some(transaction), Ok(()));
                    },
                };
                match progress {
                    TransactionProgress::Next(pending) => CommitStep::Work(
                        CommitWork { pending, phase, blobs },
                    ),
                    TransactionProgress::End(transaction, result) => CommitStep::End(
                        Some(transaction),
                        result,
                    ),
                }
            },
        }
    }
}

/// The work of a commit and the images between it, from the stage on: each piece
/// of work succeeds and has its effect.
pub open spec fn is_commit_run(
    image: StoreImage,
    token: Seq<u8>,
    subject: CommitSubject,
    works: Seq<CommitModel>,
    images: Seq<StoreImage>,
) -> bool {
    &&& works.len() > 0
    &&& images.len() == works.len()
    &&& works[0] == CommitModel::first(token, subject)
    &&& images[0] == image.with_stage(token)
    &&& forall|k: int|
        0 <= k < works.len() - 1 ==> (#[trigger] works[k]).next() == Some(works[k + 1])
            && images[k + 1] == images[k].after(works[k].on, works[k].task, works[k].written)
}

/// The tasks of a commit, in their order.
spec fn commit_task(k: int) -> Work {
    if k == 0 {
        Work::WriteMember(Member::User)
    } else if k == 1 {
        Work::SyncMember(Member::User)
    } else if k == 2 {
        Work::WriteMember(Member::Master)
    } else if k == 3 {
        Work::SyncMember(Member::Master)
    } else if k == 4 {
        Work::RenameForPromotion
    } else if k == 5 {
        Work::SyncForPromotion
    } else if k == 6 {
        Work::BeforeMarker
    } else if k == 7 {
        Work::WriteMarker
    } else if k == 8 {
        Work::ReplaceMarker
    } else {
        Work::SyncPromotion
    }
}

/// The work of a commit after `k` pieces of it.
spec fn commit_at(token: Seq<u8>, subject: CommitSubject, k: int) -> CommitModel {
    CommitModel {
        on: TransactionModel {
            token,
            limits: subject.limits,
            state: if k < 2 {
                TransactionState::Empty
            } else if k < 4 {
                TransactionState::UserDurable
            } else {
                TransactionState::PairDurable
            },
            generation_renamed: k > 4,
            marker_replaced: k > 8,
            recovery_reserved: false,
        },
        task: commit_task(k),
        written: if k == 0 {
            subject.user
        } else if k == 2 {
            subject.master
        } else if k == 7 {
            marker_content(generation_of(token))
        } else {
            Seq::empty()
        },
        phase: if k < 2 {
            CommitPhase::User
        } else if k < 4 {
            CommitPhase::Master
        } else {
            CommitPhase::Promote
        },
        user: subject.user,
        master: subject.master,
    }
}

/// The image of a commit after `k` pieces of work.
spec fn image_at(image: StoreImage, token: Seq<u8>, subject: CommitSubject, k: int) -> StoreImage {
    let stage = stage_of(token);
    let generation = generation_of(token);
    let temporary = temporary_of(token);
    let marker = marker_content(generation);
    let user = Map::<Member, Seq<u8>>::empty().insert(Member::User, subject.user);
    let both = user.insert(Member::Master, subject.master);
    StoreImage {
        files: if k <= 7 {
            image.files
        } else if k == 8 {
            image.files.insert(temporary, marker)
        } else {
            image.files.insert(temporary, marker).insert(active_marker(), marker).remove(temporary)
        },
        directories: if k == 0 {
            image.directories.insert(stage, Map::empty())
        } else if k <= 2 {
            image.directories.insert(stage, user)
        } else if k <= 4 {
            image.directories.insert(stage, both)
        } else {
            image.directories.remove(stage).insert(generation, both)
        },
    }
}

proof fn lemma_commit_step(image: StoreImage, token: Seq<u8>, subject: CommitSubject, k: int)
    requires
        is_fresh(image, token),
        0 <= k <= 9,
    ensures
        k < 9 ==> commit_at(token, subject, k).next() == Some(commit_at(token, subject, k + 1)),
        k == 9 ==> commit_at(token, subject, k).next() is None,
        image_at(image, token, subject, k).after(
            commit_at(token, subject, k).on,
            commit_at(token, subject, k).task,
            commit_at(token, subject, k).written,
        ) == image_at(image, token, subject, k + 1),
{
    let work = commit_at(token, subject, k);
    let after = image_at(image, token, subject, k).after(work.on, work.task, work.written);
    let next = image_at(image, token, subject, k + 1);
    lemma_names_differ(token);
    assert(after.directories =~= next.directories);
    assert(after.files =~= next.files);
}

proof fn lemma_commit_run(
    image: StoreImage,
    token: Seq<u8>,
    subject: CommitSubject,
    works: Seq<CommitModel>,
    images: Seq<StoreImage>,
    k: int,
)
    requires
        is_commit_run(image, token, subject, works, images),
        is_fresh(image, token),
        0 <= k < works.len(),
    ensures
        k <= 9,
        works[k] == commit_at(token, subject, k),
        images[k] == image_at(image, token, subject, k),
    decreases k,
{
    if k > 0 {
        lemma_commit_run(image, token, subject, works, images, k - 1);
        assert(works[k - 1].next() == Some(works[k - 1 + 1]));
        lemma_commit_step(image, token, subject, k - 1);
    } else {
        assert(works[0].on == commit_at(token, subject, 0).on);
    }
}

/// A load after a successful commit gives back the committed bytes, and no
/// metadata: whatever the store held before, once the last work of the commit has
/// succeeded.
pub proof fn law_committed_pairs_are_loaded_back(
    image: StoreImage,
    token: Seq<u8>,
    subject: CommitSubject,
    works: Seq<CommitModel>,
    images: Seq<StoreImage>,
    decodes: spec_fn(Seq<u8>) -> bool,
)
    requires
        is_fresh(image, token),
        subject.is_bounded(),
        is_commit_run(image, token, subject, works, images),
        works.last().next() is None,
    ensures
        images.last().after(
            works.last().on,
            works.last().task,
            works.last().written,
        ).loaded(subject.limits, decodes) == Ok::<PairModel, CatacombStoreError>(
            PairModel { master: subject.master, user: subject.user, metadata: None },
        ),
{
    let last = works.len() - 1;
    lemma_commit_run(image, token, subject, works, images, last);
    lemma_commit_step(image, token, subject, last);
    assert(last == 9);
    lemma_names_differ(token);
    lemma_markers_select_their_generation(generation_of(token));
    let after = image_at(image, token, subject, 10);
    assert(after.files[active_marker()] == marker_content(generation_of(token)));
    assert(after.selected() == Ok::<Seq<u8>, CatacombStoreError>(generation_of(token)));
}

/// A commit that fails leaves the previous pair selected: up to the replacement of
/// the marker, whatever the failing work and the cleaning up after it did to the
/// commit's own files, a load gives what it gave before. After it, the failure says
/// that durability is not known.
pub proof fn law_failed_commits_leave_the_active_pair(
    image: StoreImage,
    token: Seq<u8>,
    subject: CommitSubject,
    works: Seq<CommitModel>,
    images: Seq<StoreImage>,
    k: int,
    error: CatacombStoreError,
    left: StoreImage,
    decodes: spec_fn(Seq<u8>) -> bool,
)
    requires
        is_fresh(image, token),
        subject.is_bounded(),
        is_commit_run(image, token, subject, works, images),
        0 <= k < works.len(),
        keeps_the_active_pair(images[k], left, token),
    ensures
        works[k].on.marker_replaced <==> works[k].task is SyncPromotion,
        works[k].task is SyncPromotion ==> reported_failure(works[k].task, error)
            == CatacombStoreError::PromotionDurabilityUnknown,
        !(works[k].task is SyncPromotion) ==> left.loaded(subject.limits, decodes) == image.loaded(
            subject.limits,
            decodes,
        ),
{
    lemma_commit_run(image, token, subject, works, images, k);
    lemma_names_differ(token);
    if k < 9 {
        assert(keeps_the_active_pair(image, images[k], token));
        lemma_kept_pairs_are_loaded(image, left, token, subject.limits, decodes);
    }
}

} // verus!
