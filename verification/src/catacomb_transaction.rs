//! One staged generation with explicit native-export boundaries.
//!
//! The concrete user's blob becomes durable first. The caller may then finish
//! that native export before writing the master blob. Promotion remains
//! impossible until both members are durable. Once a recovery reservation
//! stands, every failure retains the generation for live-device recovery.

use crate::bytes::to_vec;
use crate::catacomb_names::{
    encode_marker, generation_name, generation_of, is_token_text, marker_content,
    marker_temporary_name, reservation_name, reservation_of, stage_name, stage_of, temporary_of,
};
use crate::catacomb_store::{
    is_blob_size, validate_blob, validate_metadata, CatacombPairStore, CatacombStoreError,
    StoreLimits,
};
use crate::secret::give_up;
use vstd::prelude::*;

verus! {

/// How much of the generation is durable.
#[derive(Clone, Copy, Debug, PartialEq, Eq, Structural)]
pub enum TransactionState {
    Empty,
    MetadataDurable,
    UserDurable,
    PairDurable,
}

/// A member of a generation.
#[derive(Clone, Copy, Debug, PartialEq, Eq, Structural)]
pub enum Member {
    Metadata,
    User,
    Master,
}

/// One piece of storage work of a transaction.
#[derive(Clone, Copy, Debug, PartialEq, Eq, Structural)]
pub enum Work {
    /// Rename the stage to the generation, for a reservation.
    RenameForReservation,
    /// Synchronize the store's directory after it.
    SyncForReservation,
    /// Create the reservation exclusively.
    CreateReservation,
    /// Secure and synchronize the reservation.
    SyncReservation,
    /// Synchronize the store's directory after it.
    SyncReserved,
    /// Create, secure, write and synchronize the member's file.
    WriteMember(Member),
    /// Judge and synchronize the directory that holds it.
    SyncMember(Member),
    /// Rename the stage to the generation, for a promotion.
    RenameForPromotion,
    /// Synchronize the store's directory after it.
    SyncForPromotion,
    /// Run the caller's last step before the marker.
    BeforeMarker,
    /// Write the temporary marker.
    WriteMarker,
    /// Replace the active marker with the temporary one.
    ReplaceMarker,
    /// Synchronize the store's directory after it.
    SyncPromotion,
    /// Remove the reservation.
    RemoveReservation,
    /// Synchronize the store's directory after it.
    SyncRemoval,
}

/// One staged generation.
pub struct CatacombPairTransaction {
    token: Vec<u8>,
    limits: StoreLimits,
    state: TransactionState,
    generation_renamed: bool,
    marker_replaced: bool,
    recovery_reserved: bool,
}

/// A transaction as the contracts see it.
pub struct TransactionModel {
    pub token: Seq<u8>,
    pub limits: StoreLimits,
    pub state: TransactionState,
    pub generation_renamed: bool,
    pub marker_replaced: bool,
    pub recovery_reserved: bool,
}

impl TransactionModel {
    /// A transaction that has only its stage.
    pub open spec fn begun(token: Seq<u8>, limits: StoreLimits) -> TransactionModel {
        TransactionModel {
            token,
            limits,
            state: TransactionState::Empty,
            generation_renamed: false,
            marker_replaced: false,
            recovery_reserved: false,
        }
    }

    /// A marker is replaced only by a complete durable pair, and what a
    /// reservation or a marker names is no stage any more.
    pub open spec fn is_consistent(self) -> bool {
        &&& is_token_text(self.token)
        &&& self.marker_replaced ==> self.state == TransactionState::PairDurable
        &&& self.marker_replaced ==> self.generation_renamed
        &&& self.recovery_reserved ==> self.generation_renamed
    }

    /// The directory that members are written to: the stage until it has been
    /// renamed, then the generation.
    pub open spec fn directory(self) -> Seq<u8> {
        if self.generation_renamed {
            generation_of(self.token)
        } else {
            stage_of(self.token)
        }
    }

    /// Whether the member may be written now.
    pub open spec fn may_write(self, member: Member) -> bool {
        match member {
            Member::Metadata => self.state == TransactionState::Empty && self.recovery_reserved,
            Member::User => self.state == TransactionState::Empty || self.state
                == TransactionState::MetadataDurable,
            Member::Master => self.state == TransactionState::UserDurable,
        }
    }

    /// Whether the pair may be promoted now.
    pub open spec fn may_promote(self, after_native_finish: bool) -> bool {
        self.state == TransactionState::PairDurable && (after_native_finish
            ==> self.recovery_reserved)
    }

    /// The transaction once the member is durable.
    pub open spec fn with_durable(self, member: Member) -> TransactionModel {
        TransactionModel {
            state: match member {
                Member::Metadata => TransactionState::MetadataDurable,
                Member::User => TransactionState::UserDurable,
                Member::Master => TransactionState::PairDurable,
            },
            ..self
        }
    }

    /// Whether the work may be under way in this transaction.
    pub open spec fn allows(self, work: Work) -> bool {
        match work {
            Work::RenameForReservation => self.state == TransactionState::Empty
                && !self.recovery_reserved && !self.marker_replaced,
            Work::SyncForReservation | Work::CreateReservation => self.state
                == TransactionState::Empty && self.generation_renamed && !self.marker_replaced,
            Work::SyncReservation | Work::SyncReserved => self.state == TransactionState::Empty
                && self.recovery_reserved,
            Work::WriteMember(member) | Work::SyncMember(member) => self.may_write(member)
                && !self.marker_replaced,
            Work::RenameForPromotion => self.state == TransactionState::PairDurable
                && !self.generation_renamed,
            Work::SyncForPromotion | Work::BeforeMarker | Work::WriteMarker
            | Work::ReplaceMarker => self.state == TransactionState::PairDurable
                && self.generation_renamed,
            Work::SyncPromotion => self.marker_replaced,
            Work::RemoveReservation => self.marker_replaced && self.recovery_reserved,
            Work::SyncRemoval => self.marker_replaced && !self.recovery_reserved,
        }
    }

    /// The transaction after the work has succeeded.
    pub open spec fn after(self, work: Work) -> TransactionModel {
        match work {
            Work::RenameForReservation | Work::RenameForPromotion => TransactionModel {
                generation_renamed: true,
                ..self
            },
            Work::CreateReservation => TransactionModel { recovery_reserved: true, ..self },
            Work::SyncMember(member) => self.with_durable(member),
            Work::ReplaceMarker => TransactionModel { marker_replaced: true, ..self },
            Work::RemoveReservation => TransactionModel { recovery_reserved: false, ..self },
            _ => self,
        }
    }

    /// The work that follows, or nothing where the procedure is complete.
    pub open spec fn following(self, work: Work) -> Option<Work> {
        match work {
            Work::RenameForReservation => Some(Work::SyncForReservation),
            Work::SyncForReservation => Some(Work::CreateReservation),
            Work::CreateReservation => Some(Work::SyncReservation),
            Work::SyncReservation => Some(Work::SyncReserved),
            Work::SyncReserved => None,
            Work::WriteMember(member) => Some(Work::SyncMember(member)),
            Work::SyncMember(_) => None,
            Work::RenameForPromotion => Some(Work::SyncForPromotion),
            Work::SyncForPromotion => Some(Work::BeforeMarker),
            Work::BeforeMarker => Some(Work::WriteMarker),
            Work::WriteMarker => Some(Work::ReplaceMarker),
            Work::ReplaceMarker => Some(Work::SyncPromotion),
            Work::SyncPromotion => if self.recovery_reserved {
                Some(Work::RemoveReservation)
            } else {
                None
            },
            Work::RemoveReservation => Some(Work::SyncRemoval),
            Work::SyncRemoval => None,
        }
    }
}

/// The failure that a failed piece of work is reported as. A failed
/// synchronization after the marker was replaced leaves durability unknown; the
/// work on members, the caller's step and the reservation's removal report their
/// own failure.
pub open spec fn reported_failure(work: Work, error: CatacombStoreError) -> CatacombStoreError {
    match work {
        Work::SyncPromotion => CatacombStoreError::PromotionDurabilityUnknown,
        Work::WriteMember(_) | Work::SyncMember(_) | Work::BeforeMarker
        | Work::RemoveReservation => error,
        _ => CatacombStoreError::StorageUnavailable,
    }
}

/// What the work writes: a member's bytes are the caller's, the marker names the
/// generation, and nothing else writes anything.
pub open spec fn content_of(transaction: TransactionModel, work: Work, member: Seq<u8>) -> Seq<u8> {
    match work {
        Work::WriteMember(_) => member,
        Work::WriteMarker => marker_content(generation_of(transaction.token)),
        _ => Seq::empty(),
    }
}

/// A transaction with storage work under way, and what that work writes.
pub struct PendingWork {
    transaction: CatacombPairTransaction,
    work: Work,
    content: Vec<u8>,
}

/// What follows a piece of work.
pub enum TransactionProgress {
    /// Do [`PendingWork::work`] and report with [`PendingWork::done`].
    Next(PendingWork),
    /// The procedure has ended.
    End(CatacombPairTransaction, Result<(), CatacombStoreError>),
}

impl View for CatacombPairTransaction {
    type V = TransactionModel;

    closed spec fn view(&self) -> TransactionModel {
        TransactionModel {
            token: self.token@,
            limits: self.limits,
            state: self.state,
            generation_renamed: self.generation_renamed,
            marker_replaced: self.marker_replaced,
            recovery_reserved: self.recovery_reserved,
        }
    }
}

impl PendingWork {
    /// The transaction.
    pub closed spec fn on(self) -> TransactionModel {
        self.transaction@
    }

    /// The work under way.
    pub closed spec fn task(self) -> Work {
        self.work
    }

    /// What the work writes.
    pub closed spec fn written(self) -> Seq<u8> {
        self.content@
    }

    /// Only allowed work is ever under way.
    #[verifier::type_invariant]
    spec fn is_allowed(self) -> bool {
        self.transaction@.allows(self.work)
    }

    fn empty(transaction: CatacombPairTransaction, work: Work) -> (r: PendingWork)
        requires
            transaction@.allows(work),
        ensures
            r.on() == transaction@,
            r.task() == work,
            r.written() == Seq::<u8>::empty(),
    {
        let content: Vec<u8> = Vec::new();
        assert(content@ =~= Seq::<u8>::empty());
        PendingWork { transaction, work, content }
    }
}

/// The work that begins in `transaction`, and what it writes.
pub open spec fn work_begins(
    transaction: TransactionModel,
    work: Work,
    written: Seq<u8>,
    r: TransactionProgress,
) -> bool {
    r is Next && r->Next_0.on() == transaction && r->Next_0.task() == work && r->Next_0.written()
        == written
}

/// A procedure that ends with this failure and leaves the transaction as it is.
pub open spec fn fails_with(
    transaction: TransactionModel,
    error: CatacombStoreError,
    r: TransactionProgress,
) -> bool {
    r is End && r->End_0@ == transaction && r->End_1 == Err::<(), CatacombStoreError>(error)
}

/// Which directories a transaction that is given up removes. Its temporary
/// marker is removed in any case.
#[derive(Clone, Copy, Debug, PartialEq, Eq, Structural)]
pub struct Cleanup {
    pub stage: bool,
    pub generation: bool,
}

impl CatacombPairTransaction {
    /// What the fields of every transaction satisfy.
    #[verifier::type_invariant]
    spec fn is_valid(self) -> bool {
        self@.is_consistent()
    }

    /// Begins a transaction whose stage has been created under `token`.
    pub fn begin(token: Vec<u8>, limits: StoreLimits) -> (r: CatacombPairTransaction)
        requires
            is_token_text(token@),
        ensures
            r@ == TransactionModel::begun(token@, limits),
            r@.is_consistent(),
    {
        CatacombPairTransaction {
            token,
            limits,
            state: TransactionState::Empty,
            generation_renamed: false,
            marker_replaced: false,
            recovery_reserved: false,
        }
    }

    /// How much of the generation is durable.
    pub fn state(&self) -> (r: TransactionState)
        ensures
            r == self@.state,
    {
        self.state
    }

    /// The stage's name.
    pub fn stage(&self) -> (r: Vec<u8>)
        ensures
            r@ == stage_of(self@.token),
    {
        stage_name(self.token.as_slice())
    }

    /// The generation's name.
    pub fn generation(&self) -> (r: Vec<u8>)
        ensures
            r@ == generation_of(self@.token),
    {
        generation_name(self.token.as_slice())
    }

    /// The temporary marker's name.
    pub fn marker_temporary(&self) -> (r: Vec<u8>)
        ensures
            r@ == temporary_of(self@.token),
    {
        marker_temporary_name(self.token.as_slice())
    }

    /// The reservation's name.
    pub fn recovery_marker(&self) -> (r: Vec<u8>)
        ensures
            r@ == reservation_of(self@.token),
    {
        reservation_name(self.token.as_slice())
    }

    /// The directory that members are written to.
    pub fn write_directory(&self) -> (r: Vec<u8>)
        ensures
            r@ == self@.directory(),
    {
        if self.generation_renamed {
            self.generation()
        } else {
            self.stage()
        }
    }

    /// Begins to reserve the final private generation durably, before the sensor
    /// can advance: valid once, in an empty transaction.
    pub fn reserve_recovery(self) -> (r: TransactionProgress)
        ensures
            if self@.state == TransactionState::Empty && !self@.recovery_reserved {
                work_begins(self@, Work::RenameForReservation, Seq::empty(), r)
            } else {
                r is End && r->End_0@ == self@ && r->End_1 == Err::<(), CatacombStoreError>(
                    CatacombStoreError::InvalidTransactionState,
                )
            },
    {
        proof {
            use_type_invariant(&self);
        }
        if self.state != TransactionState::Empty || self.recovery_reserved {
            return TransactionProgress::End(
                self,
                Err(CatacombStoreError::InvalidTransactionState),
            );
        }
        TransactionProgress::Next(PendingWork::empty(self, Work::RenameForReservation))
    }

    /// Begins to write identity metadata, which `decodes` says is a valid
    /// manifest: valid only in a reserved, otherwise empty generation.
    pub fn write_metadata(self, metadata: &[u8], decodes: bool) -> (r: TransactionProgress)
        ensures
            if !self@.may_write(Member::Metadata) {
                r is End && r->End_0@ == self@ && r->End_1 == Err::<(), CatacombStoreError>(
                    CatacombStoreError::InvalidTransactionState,
                )
            } else if metadata@.len() > self@.limits.manifest || !decodes {
                r is End && r->End_0@ == self@ && r->End_1 == Err::<(), CatacombStoreError>(
                    CatacombStoreError::InvalidMetadata,
                )
            } else {
                work_begins(self@, Work::WriteMember(Member::Metadata), metadata@, r)
            },
    {
        proof {
            use_type_invariant(&self);
        }
        if self.state != TransactionState::Empty || !self.recovery_reserved {
            return TransactionProgress::End(
                self,
                Err(CatacombStoreError::InvalidTransactionState),
            );
        }
        if let Err(error) = validate_metadata(metadata, decodes, &self.limits) {
            return TransactionProgress::End(self, Err(error));
        }
        TransactionProgress::Next(
            PendingWork {
                transaction: self,
                work: Work::WriteMember(Member::Metadata),
                content: to_vec(metadata),
            },
        )
    }

    /// Begins to write the concrete user's export. Its success is the boundary
    /// after which the sensor's finish command for the user may be issued.
    pub fn write_user(self, user: &[u8]) -> (r: TransactionProgress)
        ensures
            if !self@.may_write(Member::User) {
                r is End && r->End_0@ == self@ && r->End_1 == Err::<(), CatacombStoreError>(
                    CatacombStoreError::InvalidTransactionState,
                )
            } else if !is_blob_size(user@.len() as int, self@.limits) {
                r is End && r->End_0@ == self@ && r->End_1 == Err::<(), CatacombStoreError>(
                    CatacombStoreError::InvalidBlob,
                )
            } else {
                work_begins(self@, Work::WriteMember(Member::User), user@, r)
            },
    {
        proof {
            use_type_invariant(&self);
        }
        if self.state != TransactionState::Empty && self.state
            != TransactionState::MetadataDurable {
            return TransactionProgress::End(
                self,
                Err(CatacombStoreError::InvalidTransactionState),
            );
        }
        if let Err(error) = validate_blob(user, &self.limits) {
            return TransactionProgress::End(self, Err(error));
        }
        TransactionProgress::Next(
            PendingWork {
                transaction: self,
                work: Work::WriteMember(Member::User),
                content: to_vec(user),
            },
        )
    }

    /// Begins to write the master export, after the user export. Its success is
    /// the boundary after which the sensor's finish command for the master may be
    /// issued.
    pub fn write_master(self, master: &[u8]) -> (r: TransactionProgress)
        ensures
            if !self@.may_write(Member::Master) {
                r is End && r->End_0@ == self@ && r->End_1 == Err::<(), CatacombStoreError>(
                    CatacombStoreError::InvalidTransactionState,
                )
            } else if !is_blob_size(master@.len() as int, self@.limits) {
                r is End && r->End_0@ == self@ && r->End_1 == Err::<(), CatacombStoreError>(
                    CatacombStoreError::InvalidBlob,
                )
            } else {
                work_begins(self@, Work::WriteMember(Member::Master), master@, r)
            },
    {
        proof {
            use_type_invariant(&self);
        }
        if self.state != TransactionState::UserDurable {
            return TransactionProgress::End(
                self,
                Err(CatacombStoreError::InvalidTransactionState),
            );
        }
        if let Err(error) = validate_blob(master, &self.limits) {
            return TransactionProgress::End(self, Err(error));
        }
        TransactionProgress::Next(
            PendingWork {
                transaction: self,
                work: Work::WriteMember(Member::Master),
                content: to_vec(master),
            },
        )
    }

    /// Begins to select the complete durable pair.
    pub fn promote(self) -> (r: TransactionProgress)
        ensures
            promotion_begins(self@, false, r),
    {
        self.promote_inner(false)
    }

    /// Begins to select the pair after both native finish commands have
    /// succeeded: valid only where a reservation retains it on failure.
    pub fn promote_after_native_finish(self) -> (r: TransactionProgress)
        ensures
            promotion_begins(self@, true, r),
    {
        self.promote_inner(true)
    }

    fn promote_inner(self, preserve_on_failure: bool) -> (r: TransactionProgress)
        ensures
            promotion_begins(self@, preserve_on_failure, r),
    {
        proof {
            use_type_invariant(&self);
        }
        if self.state != TransactionState::PairDurable || (preserve_on_failure
            && !self.recovery_reserved) {
            return TransactionProgress::End(
                self,
                Err(CatacombStoreError::InvalidTransactionState),
            );
        }
        if self.generation_renamed {
            TransactionProgress::Next(PendingWork::empty(self, Work::BeforeMarker))
        } else {
            TransactionProgress::Next(PendingWork::empty(self, Work::RenameForPromotion))
        }
    }

    /// What giving the transaction up removes: nothing that a reservation may
    /// have to recover, and no generation that the marker selects.
    pub fn cleanup(&self) -> (r: Cleanup)
        ensures
            r == cleanup_of(self@),
    {
        Cleanup {
            stage: !self.recovery_reserved,
            generation: !self.recovery_reserved && !self.marker_replaced,
        }
    }
}

/// How a promotion begins.
pub open spec fn promotion_begins(
    transaction: TransactionModel,
    after_native_finish: bool,
    r: TransactionProgress,
) -> bool {
    if transaction.may_promote(after_native_finish) {
        work_begins(
            transaction,
            if transaction.generation_renamed {
                Work::BeforeMarker
            } else {
                Work::RenameForPromotion
            },
            Seq::empty(),
            r,
        )
    } else {
        r is End && r->End_0@ == transaction && r->End_1 == Err::<(), CatacombStoreError>(
            CatacombStoreError::InvalidTransactionState,
        )
    }
}

/// What giving a transaction up removes.
pub open spec fn cleanup_of(transaction: TransactionModel) -> Cleanup {
    Cleanup {
        stage: !transaction.recovery_reserved,
        generation: !transaction.recovery_reserved && !transaction.marker_replaced,
    }
}

/// What follows work that ended with `outcome`. Once the reservation is removed the
/// promotion has succeeded: a removal that is not synchronized can only be undone,
/// and then the reservation names the generation that is active already.
pub open spec fn work_ends(
    transaction: TransactionModel,
    work: Work,
    outcome: Result<(), CatacombStoreError>,
    r: TransactionProgress,
) -> bool {
    match outcome {
        Err(error) => if work is SyncRemoval {
            r is End && r->End_0@ == transaction && r->End_1 is Ok
        } else {
            fails_with(transaction, reported_failure(work, error), r)
        },
        Ok(()) => match transaction.following(work) {
            Some(next) => work_begins(
                transaction.after(work),
                next,
                content_of(transaction, next, Seq::empty()),
                r,
            ),
            None => r is End && r->End_0@ == transaction.after(work) && r->End_1 is Ok,
        },
    }
}

impl PendingWork {
    /// The work under way.
    pub fn work(&self) -> (r: Work)
        ensures
            r == self.task(),
    {
        self.work
    }

    /// What the work writes.
    pub fn content(&self) -> (r: &[u8])
        ensures
            r@ == self.written(),
    {
        self.content.as_slice()
    }

    /// The transaction.
    pub fn transaction(&self) -> (r: &CatacombPairTransaction)
        ensures
            r@ == self.on(),
    {
        &self.transaction
    }

    /// Takes the outcome of the work. A failure ends the procedure with the
    /// transaction as it was before the failed work; every failure of a promotion
    /// keeps the reservation.
    pub fn done(self, outcome: Result<(), CatacombStoreError>) -> (r: TransactionProgress)
        ensures
            work_ends(self.on(), self.task(), outcome, r),
    {
        proof {
            use_type_invariant(&self);
            use_type_invariant(&self.transaction);
        }
        let work = self.work;
        let before = self.transaction;
        give_up(self.content);
        if let Err(error) = outcome {
            if let Work::SyncRemoval = work {
                return TransactionProgress::End(before, Ok(()));
            }
            let reported = match work {
                Work::SyncPromotion => CatacombStoreError::PromotionDurabilityUnknown,
                Work::WriteMember(_) | Work::SyncMember(_) | Work::BeforeMarker
                | Work::RemoveReservation => error,
                _ => CatacombStoreError::StorageUnavailable,
            };
            return TransactionProgress::End(before, Err(reported));
        }
        let state = match work {
            Work::SyncMember(Member::Metadata) => TransactionState::MetadataDurable,
            Work::SyncMember(Member::User) => TransactionState::UserDurable,
            Work::SyncMember(Member::Master) => TransactionState::PairDurable,
            _ => before.state,
        };
        let renamed = matches!(work, Work::RenameForReservation | Work::RenameForPromotion);
        let reserved = matches!(work, Work::CreateReservation);
        let unreserved = matches!(work, Work::RemoveReservation);
        let replaced = matches!(work, Work::ReplaceMarker);
        let transaction = CatacombPairTransaction {
            token: before.token,
            limits: before.limits,
            state,
            generation_renamed: before.generation_renamed || renamed,
            marker_replaced: before.marker_replaced || replaced,
            recovery_reserved: (before.recovery_reserved || reserved) && !unreserved,
        };
        let next = match work {
            Work::RenameForReservation => Work::SyncForReservation,
            Work::SyncForReservation => Work::CreateReservation,
            Work::CreateReservation => Work::SyncReservation,
            Work::SyncReservation => Work::SyncReserved,
            Work::WriteMember(member) => Work::SyncMember(member),
            Work::RenameForPromotion => Work::SyncForPromotion,
            Work::SyncForPromotion => Work::BeforeMarker,
            Work::BeforeMarker => Work::WriteMarker,
            Work::WriteMarker => Work::ReplaceMarker,
            Work::ReplaceMarker => Work::SyncPromotion,
            Work::SyncPromotion => {
                if !transaction.recovery_reserved {
                    return TransactionProgress::End(transaction, Ok(()));
                }
                Work::RemoveReservation
            },
            Work::RemoveReservation => Work::SyncRemoval,
            Work::SyncReserved | Work::SyncMember(_) | Work::SyncRemoval => {
                return TransactionProgress::End(transaction, Ok(()));
            },
        };
        let content: Vec<u8> = if let Work::WriteMarker = next {
            encode_marker(transaction.generation().as_slice())
        } else {
            Vec::new()
        };
        proof {
            if !(next is WriteMarker) {
                assert(content@ =~= Seq::<u8>::empty());
            }
        }
        TransactionProgress::Next(PendingWork { transaction, work: next, content })
    }
}

/// The active marker is replaced only in a transaction whose user and master are
/// both durable in one generation.
pub proof fn law_only_complete_pairs_are_promoted(transaction: TransactionModel, work: Work)
    requires
        transaction.is_consistent(),
        transaction.allows(work),
        work is ReplaceMarker || transaction.after(work).marker_replaced,
    ensures
        transaction.state == TransactionState::PairDurable,
        transaction.generation_renamed,
{
}

/// How far a transaction has come.
pub open spec fn durability(state: TransactionState) -> int {
    match state {
        TransactionState::Empty => 0,
        TransactionState::MetadataDurable => 1,
        TransactionState::UserDurable => 2,
        TransactionState::PairDurable => 3,
    }
}

/// Members become durable in the order metadata, user, master: work never undoes
/// durability, and the work that makes a member durable advances it.
pub proof fn law_members_become_durable_in_order(transaction: TransactionModel, work: Work)
    requires
        transaction.is_consistent(),
        transaction.allows(work),
    ensures
        durability(transaction.state) <= durability(transaction.after(work).state),
        work is SyncMember <==> durability(transaction.state) < durability(
            transaction.after(work).state,
        ),
        work == Work::SyncMember(Member::Master) ==> transaction.state
            == TransactionState::UserDurable,
{
}

/// Every failure of a reserved transaction keeps its reservation, and then giving
/// it up removes neither stage nor generation. The reservation falls only with its
/// removal, after the marker was replaced and synchronized; and from there on
/// nothing fails any more.
pub proof fn law_reserved_material_is_retained(
    transaction: TransactionModel,
    work: Work,
    outcome: Result<(), CatacombStoreError>,
    r: TransactionProgress,
)
    requires
        transaction.is_consistent(),
        transaction.allows(work),
        transaction.recovery_reserved,
        work_ends(transaction, work, outcome, r),
    ensures
        r is End && r->End_1 is Err ==> r->End_0@.recovery_reserved && cleanup_of(r->End_0@) == (
        Cleanup { stage: false, generation: false }),
        r is Next && !(work is RemoveReservation) ==> r->Next_0.on().recovery_reserved,
        r is Next && work is RemoveReservation ==> r->Next_0.task() is SyncRemoval
            && r->Next_0.on().marker_replaced,
{
}

/// Once the reservation is removed, the promotion succeeds whatever comes of the
/// last synchronization, and its generation is kept.
pub proof fn law_promotions_without_reservation_succeed(
    transaction: TransactionModel,
    outcome: Result<(), CatacombStoreError>,
    r: TransactionProgress,
)
    requires
        transaction.is_consistent(),
        transaction.allows(Work::SyncRemoval),
        work_ends(transaction, Work::SyncRemoval, outcome, r),
    ensures
        r is End && r->End_1 is Ok,
        r->End_0@.marker_replaced,
        !cleanup_of(r->End_0@).generation,
{
}

/// A generation that the active marker selects is never removed by giving its
/// transaction up.
pub proof fn law_promoted_generation_is_never_removed(transaction: TransactionModel)
    requires
        transaction.marker_replaced,
    ensures
        !cleanup_of(transaction).generation,
{
}

/// Work keeps a transaction consistent, and what follows it is allowed.
pub proof fn law_work_keeps_transactions_consistent(transaction: TransactionModel, work: Work)
    requires
        transaction.is_consistent(),
        transaction.allows(work),
    ensures
        transaction.after(work).is_consistent(),
        transaction.following(work) matches Some(next) ==> transaction.after(work).allows(next),
{
}

/// The next work of beginning a transaction.
pub enum BeginStep {
    /// Create the store's directory where it is absent, open and judge it, and
    /// report with [`PendingBegin::prepared`].
    PrepareDirectory(PendingBegin),
    /// List the directory, look for pending exports, and report with
    /// [`PreparedBegin::listed`].
    RejectRecoveryState(PreparedBegin),
    /// Create the private stage of [`StagedBegin::stage`] and report with
    /// [`StagedBegin::created`].
    CreateStage(StagedBegin),
    /// Beginning has failed.
    Failed(CatacombStoreError),
}

/// A transaction to begin.
pub struct PendingBegin {
    limits: StoreLimits,
}

/// A transaction to begin in a prepared directory.
pub struct PreparedBegin {
    limits: StoreLimits,
}

/// A transaction to begin under a token.
pub struct StagedBegin {
    token: Vec<u8>,
    limits: StoreLimits,
}

impl PendingBegin {
    /// The limits.
    pub closed spec fn bounds(self) -> StoreLimits {
        self.limits
    }

    /// Takes the judged directory.
    pub fn prepared(self, outcome: Result<(), CatacombStoreError>) -> (r: BeginStep)
        ensures
            match outcome {
                Ok(()) => r is RejectRecoveryState && r->RejectRecoveryState_0.bounds()
                    == self.bounds(),
                Err(error) => r == BeginStep::Failed(error),
            },
    {
        match outcome {
            Ok(()) => BeginStep::RejectRecoveryState(PreparedBegin { limits: self.limits }),
            Err(error) => BeginStep::Failed(error),
        }
    }
}

impl PreparedBegin {
    /// The limits.
    pub closed spec fn bounds(self) -> StoreLimits {
        self.limits
    }

    /// Takes whether an export is pending recovery, and a fresh token.
    pub fn listed(self, outcome: Result<(), CatacombStoreError>, token: Vec<u8>) -> (r: BeginStep)
        requires
            is_token_text(token@),
        ensures
            match outcome {
                Ok(()) => r is CreateStage && r->CreateStage_0.identity() == token@
                    && r->CreateStage_0.bounds() == self.bounds(),
                Err(error) => r == BeginStep::Failed(error),
            },
    {
        match outcome {
            Ok(()) => BeginStep::CreateStage(StagedBegin { token, limits: self.limits }),
            Err(error) => BeginStep::Failed(error),
        }
    }
}

impl StagedBegin {
    /// The token.
    pub closed spec fn identity(self) -> Seq<u8> {
        self.token@
    }

    /// The limits.
    pub closed spec fn bounds(self) -> StoreLimits {
        self.limits
    }

    /// The token's fields are hexadecimal.
    #[verifier::type_invariant]
    spec fn is_valid(self) -> bool {
        is_token_text(self.token@)
    }

    /// The stage to create.
    pub fn stage(&self) -> (r: Vec<u8>)
        ensures
            r@ == stage_of(self.identity()),
    {
        stage_name(self.token.as_slice())
    }

    /// Takes the outcome of creating the stage.
    pub fn created(self, outcome: Result<(), CatacombStoreError>) -> (r: Result<
        CatacombPairTransaction,
        CatacombStoreError,
    >)
        ensures
            match outcome {
                Ok(()) => r is Ok && r->Ok_0@ == TransactionModel::begun(
                    self.identity(),
                    self.bounds(),
                ) && r->Ok_0@.is_consistent(),
                Err(error) => r == Err::<CatacombPairTransaction, CatacombStoreError>(error),
            },
    {
        proof {
            use_type_invariant(&self);
        }
        match outcome {
            Ok(()) => Ok(CatacombPairTransaction::begin(to_vec(self.token.as_slice()), self.limits)),
            Err(error) => Err(error),
        }
    }
}

impl CatacombPairStore {
    /// Begins a private generation without changing the active marker.
    pub fn begin_transaction(&self) -> (r: BeginStep)
        ensures
            r is PrepareDirectory && r->PrepareDirectory_0.bounds() == self.bounds(),
    {
        BeginStep::PrepareDirectory(PendingBegin { limits: self.limits() })
    }
}

} // verus!
