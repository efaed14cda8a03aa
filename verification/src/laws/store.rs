//! What the store trusts, reads and removes.

use crate::catacomb_names::{encode_marker};
use crate::catacomb_store::{
    all_bytes, blob_opened, emptiness, in_catacomb_namespace, judge_member, marker_opened,
    metadata_opened, open_checked_directory, open_existing_directory, pending_outcome, read_blob,
    read_active_generation, read_metadata, recovery_tokens, reject_recovery_state,
    remove_private_file, remove_private_generation, reserved_tokens, validate_blob,
    validate_file_identity, validate_metadata, CatacombPair, CatacombPairStore, CatacombStoreError,
    LoadStep, PairAnswer, PairPart, PairProgress, PairReading, PendingMarker, PendingStore,
    Removal, ReservationEntry, StoreEntry, StoreLimits, StoredContent, StoredFacts, StoredObject,
};
use crate::laws::legacy::{
    begins, is_generation, is_ordered, lemma_order_is_by_bytes, lemma_prefixes,
};
use crate::laws::names::{
    has_three_fields, lemma_generations_are_names_of_tokens, lemma_tokens_have_three_fields,
    pair_bytes, recovery_bytes, stage_bytes, temporary_bytes,
};
use vstd::prelude::*;

verus! {

/// Whether only `owner` can read and write the file, and no other name leads to it.
pub open spec fn is_private(facts: StoredFacts, owner: u32) -> bool {
    facts.is_file && facts.mode & 0o777 == 0o600 && facts.owner == owner && facts.links == 1
}

/// Whether only `owner` can list and change the directory.
pub open spec fn is_private_directory(facts: StoredFacts, owner: u32) -> bool {
    facts.is_directory && facts.mode & 0o777 == 0o700 && facts.owner == owner
}

/// A file is trusted exactly where it is a private file of the expected owner.
pub proof fn law_only_private_files_are_trusted(
    facts: &StoredFacts,
    expected: Option<u32>,
    owner: u32,
    direct: Result<(), CatacombStoreError>,
    r: Result<(), CatacombStoreError>,
)
    requires
        call_ensures(
            validate_file_identity,
            (facts.is_file, facts.mode, facts.owner, facts.links, owner),
            direct,
        ),
        call_ensures(StoredFacts::validate_private_file_metadata, (facts, expected), r),
    ensures
        direct is Ok <==> is_private(*facts, owner),
        direct matches Err(error) ==> error == CatacombStoreError::UnsafeStorage,
        r is Ok <==> (expected matches Some(owner) && is_private(*facts, owner)),
        r == Err::<(), CatacombStoreError>(CatacombStoreError::StorageUnavailable)
            <==> expected is None,
        r is Err && expected is Some ==> r->Err_0 == CatacombStoreError::UnsafeStorage,
{
}

/// A directory is trusted exactly where it is private and the expected owner's; a store
/// that is missing holds no pair, a generation that is missing makes its store unsafe.
pub proof fn law_only_private_directories_are_trusted(
    facts: StoredFacts,
    open: &StoredObject,
    expected: Option<u32>,
    direct: Result<(), CatacombStoreError>,
    store: Result<(), CatacombStoreError>,
    generation: Result<(), CatacombStoreError>,
)
    requires
        call_ensures(StoredFacts::validate_directory_metadata, (&facts, expected), direct),
        call_ensures(open_existing_directory, (open, expected), store),
        call_ensures(open_checked_directory, (open, expected), generation),
    ensures
        direct is Ok <==> (expected matches Some(owner) && is_private_directory(facts, owner)),
        store is Ok <==> (*open matches StoredObject::Opened(found) && expected is Some
            && is_private_directory(found, expected->0)),
        generation is Ok <==> store is Ok,
        *open is Missing ==> store == Err::<(), CatacombStoreError>(
            CatacombStoreError::MissingPair,
        ) && generation == Err::<(), CatacombStoreError>(CatacombStoreError::UnsafeStorage),
        *open is Refused ==> store == Err::<(), CatacombStoreError>(
            CatacombStoreError::UnsafeStorage,
        ) && generation == store,
        *open is Unknown ==> store == Err::<(), CatacombStoreError>(
            CatacombStoreError::StorageUnavailable,
        ) && generation == store,
        *open is Opened ==> generation == store,
        (*open matches StoredObject::Opened(found) && found == facts) ==> store == direct,
        direct is Err ==> direct->Err_0 == if expected is None && is_private_directory(
            facts,
            facts.owner,
        ) {
            CatacombStoreError::StorageUnavailable
        } else {
            CatacombStoreError::UnsafeStorage
        },
{
}

/// A blob has at least one byte and at most the store's limit, before it is read and
/// after; metadata may be empty or missing, has a limit of its own and has to decode.
pub proof fn law_stored_members_keep_their_limits(
    bytes: &[u8],
    decodes: bool,
    limits: &StoreLimits,
    blob: Result<(), CatacombStoreError>,
    metadata: Result<(), CatacombStoreError>,
)
    requires
        call_ensures(validate_blob, (bytes, limits), blob),
        call_ensures(validate_metadata, (bytes, decodes, limits), metadata),
    ensures
        blob is Ok <==> 1 <= bytes@.len() <= limits.blob,
        blob is Err ==> blob->Err_0 == CatacombStoreError::InvalidBlob,
        metadata is Ok <==> bytes@.len() <= limits.manifest && decodes,
        metadata is Err ==> metadata->Err_0 == CatacombStoreError::InvalidMetadata,
{
}

/// What is opened as a blob, as metadata or as the marker has to be a private file of a
/// size in bounds, which is then read.
pub proof fn law_opened_members_are_private_and_in_bounds(
    open: &StoredObject,
    expected: Option<u32>,
    limits: &StoreLimits,
    blob: Result<usize, CatacombStoreError>,
    metadata: Result<Option<usize>, CatacombStoreError>,
    marker: Result<usize, CatacombStoreError>,
)
    requires
        call_ensures(blob_opened, (open, expected, limits), blob),
        call_ensures(metadata_opened, (open, expected, limits), metadata),
        call_ensures(marker_opened, (open, expected), marker),
    ensures
        ({
            let private = *open matches StoredObject::Opened(facts) && expected is Some
                && is_private(facts, expected->0);
            let size = (*open)->Opened_0.size;
            &&& blob is Ok <==> private && 1 <= size <= limits.blob
            &&& blob matches Ok(length) ==> length == size
            &&& marker is Ok <==> private && 1 <= size <= 128
            &&& marker matches Ok(length) ==> length == size
            &&& metadata matches Ok(Some(length)) ==> private && size <= limits.manifest && length
                == size
            &&& private && size <= limits.manifest ==> metadata is Ok && metadata->Ok_0 is Some
            &&& metadata == Ok::<Option<usize>, CatacombStoreError>(None) <==> *open is Missing
            &&& private && blob is Err ==> blob->Err_0 == CatacombStoreError::InvalidBlob
            &&& private && metadata is Err ==> metadata->Err_0
                == CatacombStoreError::InvalidMetadata
            &&& private && marker is Err ==> marker->Err_0 == CatacombStoreError::UnsafeStorage
            &&& *open is Missing ==> blob == Err::<usize, CatacombStoreError>(
                CatacombStoreError::IncompletePair,
            ) && marker == Err::<usize, CatacombStoreError>(CatacombStoreError::MissingPair)
            &&& *open is Refused || (*open is Opened && !private && expected is Some) ==> {
                &&& blob == Err::<usize, CatacombStoreError>(CatacombStoreError::UnsafeStorage)
                &&& marker == Err::<usize, CatacombStoreError>(CatacombStoreError::UnsafeStorage)
                &&& metadata == Err::<Option<usize>, CatacombStoreError>(
                    CatacombStoreError::UnsafeStorage,
                )
            }
            &&& *open is Unknown || (*open is Opened && expected is None) ==> {
                &&& blob == Err::<usize, CatacombStoreError>(
                    CatacombStoreError::StorageUnavailable,
                )
                &&& marker == Err::<usize, CatacombStoreError>(
                    CatacombStoreError::StorageUnavailable,
                )
                &&& metadata == Err::<Option<usize>, CatacombStoreError>(
                    CatacombStoreError::StorageUnavailable,
                )
            }
        }),
{
}

/// Read is what was there, byte by byte, where it has the size that was announced and is
/// in bounds; what is longer is invalid, and what is short is unavailable.
pub proof fn law_members_are_read_whole(
    content: StoredContent,
    decodes: bool,
    limits: &StoreLimits,
    blob: Result<Vec<u8>, CatacombStoreError>,
    metadata: Result<Vec<u8>, CatacombStoreError>,
)
    requires
        call_ensures(read_blob, (content, limits), blob),
        call_ensures(read_metadata, (content, decodes, limits), metadata),
    ensures
        blob is Ok <==> (content matches StoredContent::Exact(bytes) && 1 <= bytes@.len()
            <= limits.blob),
        blob matches Ok(bytes) ==> bytes == content->Exact_0,
        metadata is Ok <==> (content matches StoredContent::Exact(bytes) && bytes@.len()
            <= limits.manifest && decodes),
        metadata matches Ok(bytes) ==> bytes == content->Exact_0,
        content is Short || content is EndUnknown ==> blob == Err::<Vec<u8>, CatacombStoreError>(
            CatacombStoreError::StorageUnavailable,
        ) && metadata == blob,
        (content is Longer || content is Exact) && blob is Err ==> blob->Err_0
            == CatacombStoreError::InvalidBlob,
        (content is Longer || content is Exact) && metadata is Err ==> metadata->Err_0
            == CatacombStoreError::InvalidMetadata,
{
}

/// The active generation is the one that was written into the marker; a marker that
/// selects none is unsafe.
pub proof fn law_the_marker_gives_back_the_generation(
    generation: &[u8],
    written: Vec<u8>,
    content: StoredContent,
    r: Result<Vec<u8>, CatacombStoreError>,
)
    requires
        call_ensures(encode_marker, (generation,), written),
        content matches StoredContent::Exact(bytes) ==> bytes@ == written@,
        call_ensures(read_active_generation, (content,), r),
    ensures
        r is Ok <==> content is Exact && is_generation(generation@),
        r matches Ok(name) ==> name@ == generation@,
        content is Short || content is EndUnknown ==> r == Err::<Vec<u8>, CatacombStoreError>(
            CatacombStoreError::StorageUnavailable,
        ),
        (content is Exact || content is Longer) && r is Err ==> r->Err_0
            == CatacombStoreError::UnsafeStorage,
{
    lemma_generations_are_names_of_tokens(generation@);
    if let Ok(name) = r {
        assert(written@.drop_last() =~= generation@);
        assert(written@.drop_last() =~= name@);
    }
}

/// A load opens the store, then the marker, then the selected generation of this store's
/// limits; the first failure is the load's.
pub proof fn law_loads_follow_the_marker(
    limits: StoreLimits,
    store: CatacombPairStore,
    pending: PendingStore,
    opened: Result<(), CatacombStoreError>,
    second: LoadStep,
    marker: PendingMarker,
    read: Result<Vec<u8>, CatacombStoreError>,
    third: LoadStep,
    pending_step: LoadStep,
)
    requires
        call_ensures(CatacombPairStore::new, (limits,), store),
        call_ensures(CatacombPairStore::load, (&store,), pending_step),
        pending_step is OpenStore ==> pending_step->OpenStore_0 == pending,
        call_ensures(PendingStore::opened, (pending, opened), second),
        second is ReadMarker ==> second->ReadMarker_0 == marker,
        call_ensures(PendingMarker::read, (marker, read), third),
    ensures
        pending_step is OpenStore,
        second is ReadMarker <==> opened is Ok,
        opened matches Err(error) ==> second == LoadStep::End(Err(error)),
        third is ReadPair <==> read is Ok && is_generation(read->Ok_0@),
        third matches LoadStep::ReadPair(reading) ==> reading@.generation == read->Ok_0@
            && reading@.part == PairPart::Directory,
        opened is Ok ==> (third matches LoadStep::ReadPair(reading) ==> reading@.limits == limits),
        read matches Err(error) ==> third == LoadStep::End(Err(error)),
        read is Ok && !(third is ReadPair) ==> third == LoadStep::End(
            Err(CatacombStoreError::UnsafeStorage),
        ),
{
    if let Ok(name) = read {
        lemma_generations_are_names_of_tokens(name@);
    }
}

/// A generation is read in order: its directory, its master, its user, its metadata. The
/// pair is what was read, and each failure is the reading's.
pub proof fn law_pairs_are_what_was_read(
    generation: Vec<u8>,
    limits: StoreLimits,
    first: PairReading,
    directory: Result<(), CatacombStoreError>,
    second: PairProgress,
    master: Result<Vec<u8>, CatacombStoreError>,
    third: PairProgress,
    user: Result<Vec<u8>, CatacombStoreError>,
    fourth: PairProgress,
    metadata: Result<Option<Vec<u8>>, CatacombStoreError>,
    end: PairProgress,
)
    requires
        call_ensures(PairReading::begin, (generation, limits), first),
        call_ensures(PairReading::answered, (first, PairAnswer::Directory(directory)), second),
        second matches PairProgress::Next(reading) ==> call_ensures(
            PairReading::answered,
            (reading, PairAnswer::Blob(master)),
            third,
        ),
        second is Next ==> (third matches PairProgress::Next(reading) ==> call_ensures(
            PairReading::answered,
            (reading, PairAnswer::Blob(user)),
            fourth,
        )),
        second is Next && third is Next ==> (fourth matches PairProgress::Next(reading)
            ==> call_ensures(
            PairReading::answered,
            (reading, PairAnswer::Metadata(metadata)),
            end,
        )),
    ensures
        first@.generation == generation@ && first@.part == PairPart::Directory,
        second is Next <==> directory is Ok,
        directory matches Err(error) ==> second == PairProgress::End(Err(error)),
        second is Next ==> {
            &&& second->Next_0@.part == PairPart::Master && second->Next_0@.generation
                == generation@
            &&& third is Next <==> master is Ok && 1 <= master->Ok_0@.len() <= limits.blob
            &&& master matches Err(error) ==> third == PairProgress::End(Err(error))
            &&& master is Ok && !(third is Next) ==> third == PairProgress::End(
                Err(CatacombStoreError::InvalidBlob),
            )
        },
        second is Next && third is Next ==> {
            &&& third->Next_0@.part == PairPart::User && third->Next_0@.generation == generation@
            &&& fourth is Next <==> user is Ok && 1 <= user->Ok_0@.len() <= limits.blob
            &&& user matches Err(error) ==> fourth == PairProgress::End(Err(error))
            &&& user is Ok && !(fourth is Next) ==> fourth == PairProgress::End(
                Err(CatacombStoreError::InvalidBlob),
            )
        },
        second is Next && third is Next && fourth is Next ==> {
            &&& fourth->Next_0@.part == PairPart::Metadata && fourth->Next_0@.generation
                == generation@
            &&& end is End
            &&& end->End_0 is Ok <==> metadata is Ok && (metadata->Ok_0 is Some
                ==> metadata->Ok_0->0@.len() <= limits.manifest)
            &&& end->End_0 matches Ok(pair) ==> {
                &&& pair@.master == master->Ok_0@ && pair@.user == user->Ok_0@
                &&& pair@.metadata is Some <==> metadata->Ok_0 is Some
                &&& pair@.metadata is Some ==> pair@.metadata->0 == metadata->Ok_0->0@
            }
            &&& metadata matches Err(error) ==> end == PairProgress::End(Err(error))
            &&& metadata is Ok && end->End_0 is Err ==> end->End_0->Err_0
                == CatacombStoreError::InvalidMetadata
        },
{
}

/// What a pair was made from is what it shows.
pub proof fn law_pairs_show_what_they_were_made_from(
    master: Vec<u8>,
    user: Vec<u8>,
    metadata: Option<Vec<u8>>,
    pair: CatacombPair,
    shown_master: &[u8],
    shown_user: &[u8],
    shown_metadata: Option<&[u8]>,
)
    requires
        call_ensures(CatacombPair::new, (master, user, metadata), pair),
        call_ensures(CatacombPair::master, (&pair,), shown_master),
        call_ensures(CatacombPair::user, (&pair,), shown_user),
        call_ensures(CatacombPair::metadata, (&pair,), shown_metadata),
    ensures
        shown_master@ == master@,
        shown_user@ == user@,
        shown_metadata is Some <==> metadata is Some,
        shown_metadata matches Some(bytes) ==> bytes@ == metadata->0@,
{
}

/// A wiped pair holds nothing but zeros, and as many as before.
pub proof fn law_wiped_pairs_hold_zeros(pair: &mut CatacombPair)
    requires
        call_ensures(CatacombPair::wipe, (pair,), ()),
    ensures
        final(pair)@.master.len() == old(pair)@.master.len(),
        final(pair)@.user.len() == old(pair)@.user.len(),
        forall|i: int|
            0 <= i < final(pair)@.master.len() ==> #[trigger] final(pair)@.master[i] == 0,
        forall|i: int| 0 <= i < final(pair)@.user.len() ==> #[trigger] final(pair)@.user[i] == 0,
        old(pair)@.metadata is Some ==> final(pair)@.metadata is Some
            && final(pair)@.metadata->0.len() == old(pair)@.metadata->0.len() && forall|i: int|
            0 <= i < final(pair)@.metadata->0.len() ==> #[trigger] final(pair)@.metadata->0[i]
                == 0,
{
}

/// `active`.
pub open spec fn marker_bytes() -> Seq<u8> {
    seq![97u8, 99, 116, 105, 118, 101]
}

/// Whether a name is one that a store gives: the marker's, or one that begins with one
/// of the four prefixes.
pub open spec fn is_given_by_stores(name: Seq<u8>) -> bool {
    name == marker_bytes() || begins(name, pair_bytes()) || begins(name, stage_bytes()) || begins(
        name,
        recovery_bytes(),
    ) || begins(name, temporary_bytes())
}

proof fn lemma_namespace(name: Seq<u8>)
    ensures
        crate::catacomb_store::is_catacomb_name(name) <==> is_given_by_stores(name),
        crate::bytes::has_prefix(name, crate::catacomb_names::recovery_prefix()) <==> begins(
            name,
            recovery_bytes(),
        ),
{
    lemma_prefixes(name, pair_bytes());
    lemma_prefixes(name, stage_bytes());
    lemma_prefixes(name, temporary_bytes());
    lemma_prefixes(name, recovery_bytes());
    assert(crate::catacomb_names::generation_prefix() =~= pair_bytes());
    assert(crate::catacomb_names::stage_prefix() =~= stage_bytes());
    assert(crate::catacomb_names::temporary_prefix() =~= temporary_bytes());
    assert(crate::catacomb_names::recovery_prefix() =~= recovery_bytes());
    assert(crate::catacomb_names::active_marker() =~= marker_bytes());
}

/// The store's own names.
pub proof fn law_stores_know_their_names(name: &[u8], r: bool)
    requires
        call_ensures(in_catacomb_namespace, (name,), r),
    ensures
        r <==> is_given_by_stores(name@),
{
    lemma_namespace(name@);
}

/// Whether an entry has a readable name that no store gives.
pub open spec fn is_foreign(entry: StoreEntry) -> bool {
    entry matches StoreEntry::Named(name) && !is_given_by_stores(name@)
}

/// Whether an entry has a readable name that is no reservation's.
pub open spec fn is_unreserved(entry: StoreEntry) -> bool {
    entry matches StoreEntry::Named(name) && !begins(name@, recovery_bytes())
}

proof fn lemma_emptiness(entries: Seq<StoreEntry>)
    ensures
        emptiness(entries) == Ok::<bool, CatacombStoreError>(true) <==> forall|i: int|
            0 <= i < entries.len() ==> is_foreign(#[trigger] entries[i]),
        forall|i: int|
            0 <= i < entries.len() && !is_foreign(#[trigger] entries[i]) && (forall|j: int|
                0 <= j < i ==> is_foreign(#[trigger] entries[j])) ==> emptiness(entries)
                == match entries[i] {
                StoreEntry::Unreadable => Err::<bool, CatacombStoreError>(
                    CatacombStoreError::StorageUnavailable,
                ),
                StoreEntry::NotText => Err(CatacombStoreError::UnsafeStorage),
                StoreEntry::Named(_) => Ok(false),
            },
    decreases entries.len(),
{
    if entries.len() > 0 {
        let rest = entries.subrange(1, entries.len() as int);
        lemma_emptiness(rest);
        assert(forall|i: int| 0 <= i < rest.len() ==> #[trigger] rest[i] == entries[i + 1]);
        if let StoreEntry::Named(name) = entries[0] {
            lemma_namespace(name@);
        }
        if forall|i: int| 0 <= i < entries.len() ==> is_foreign(#[trigger] entries[i]) {
            assert(is_foreign(entries[0]));
            assert forall|i: int| 0 <= i < rest.len() implies is_foreign(#[trigger] rest[i]) by {
                assert(is_foreign(entries[i + 1]));
            }
        }
        if emptiness(entries) == Ok::<bool, CatacombStoreError>(true) {
            assert forall|i: int| 0 <= i < entries.len() implies is_foreign(
                #[trigger] entries[i],
            ) by {
                if i > 0 {
                    assert(is_foreign(rest[i - 1]));
                }
            }
        }
        assert forall|i: int|
            0 <= i < entries.len() && !is_foreign(#[trigger] entries[i]) && (forall|j: int|
                0 <= j < i ==> is_foreign(#[trigger] entries[j])) implies emptiness(entries)
            == match entries[i] {
            StoreEntry::Unreadable => Err::<bool, CatacombStoreError>(
                CatacombStoreError::StorageUnavailable,
            ),
            StoreEntry::NotText => Err(CatacombStoreError::UnsafeStorage),
            StoreEntry::Named(_) => Ok(false),
        } by {
            if i > 0 {
                assert(is_foreign(entries[0]));
                assert(rest[i - 1] == entries[i]);
                assert forall|j: int| 0 <= j < i - 1 implies is_foreign(#[trigger] rest[j]) by {
                    assert(is_foreign(entries[j + 1]));
                }
            }
        }
    }
}

/// A store is empty for a first owner exactly where it is missing, or where it can be
/// listed and every name in it is foreign to stores. The first entry that is not decides
/// what is answered instead.
pub proof fn law_only_foreign_names_leave_a_store_empty(
    store: &CatacombPairStore,
    directory: Result<(), CatacombStoreError>,
    listing: Option<&Vec<StoreEntry>>,
    r: Result<bool, CatacombStoreError>,
)
    requires
        call_ensures(
            CatacombPairStore::is_empty_for_first_owner,
            (store, directory, listing),
            r,
        ),
    ensures
        r == Ok::<bool, CatacombStoreError>(true) <==> directory == Err::<(), CatacombStoreError>(
            CatacombStoreError::MissingPair,
        ) || (directory is Ok && listing is Some && forall|i: int|
            0 <= i < listing->0@.len() ==> is_foreign(#[trigger] listing->0@[i])),
        directory is Err && directory->Err_0 != CatacombStoreError::MissingPair ==> r == Err::<
            bool,
            CatacombStoreError,
        >(directory->Err_0),
        directory is Ok && listing is None ==> r == Err::<bool, CatacombStoreError>(
            CatacombStoreError::StorageUnavailable,
        ),
        directory is Ok && listing is Some ==> forall|i: int|
            0 <= i < listing->0@.len() && !is_foreign(#[trigger] listing->0@[i]) && (forall|
                j: int,
            |
                0 <= j < i ==> is_foreign(#[trigger] listing->0@[j])) ==> {
                &&& listing->0@[i] is Named ==> r == Ok::<bool, CatacombStoreError>(false)
                &&& listing->0@[i] is Unreadable ==> r == Err::<bool, CatacombStoreError>(
                    CatacombStoreError::StorageUnavailable,
                )
                &&& listing->0@[i] is NotText ==> r == Err::<bool, CatacombStoreError>(
                    CatacombStoreError::UnsafeStorage,
                )
            },
{
    if let Some(entries) = listing {
        lemma_emptiness(entries@);
    }
}

proof fn lemma_pending(entries: Seq<StoreEntry>)
    ensures
        pending_outcome(entries) is Ok <==> forall|i: int|
            0 <= i < entries.len() ==> is_unreserved(#[trigger] entries[i]),
        forall|i: int|
            0 <= i < entries.len() && !is_unreserved(#[trigger] entries[i]) && (forall|j: int|
                0 <= j < i ==> is_unreserved(#[trigger] entries[j])) ==> pending_outcome(entries)
                == match entries[i] {
                StoreEntry::Unreadable => Err::<(), CatacombStoreError>(
                    CatacombStoreError::StorageUnavailable,
                ),
                StoreEntry::NotText => Err(CatacombStoreError::UnsafeStorage),
                StoreEntry::Named(_) => Err(CatacombStoreError::PendingExport),
            },
    decreases entries.len(),
{
    if entries.len() > 0 {
        let rest = entries.subrange(1, entries.len() as int);
        lemma_pending(rest);
        assert(forall|i: int| 0 <= i < rest.len() ==> #[trigger] rest[i] == entries[i + 1]);
        if let StoreEntry::Named(name) = entries[0] {
            lemma_namespace(name@);
        }
        if forall|i: int| 0 <= i < entries.len() ==> is_unreserved(#[trigger] entries[i]) {
            assert(is_unreserved(entries[0]));
            assert forall|i: int| 0 <= i < rest.len() implies is_unreserved(#[trigger] rest[i]) by {
                assert(is_unreserved(entries[i + 1]));
            }
        }
        if pending_outcome(entries) is Ok {
            assert forall|i: int| 0 <= i < entries.len() implies is_unreserved(
                #[trigger] entries[i],
            ) by {
                if i > 0 {
                    assert(is_unreserved(rest[i - 1]));
                }
            }
        }
        assert forall|i: int|
            0 <= i < entries.len() && !is_unreserved(#[trigger] entries[i]) && (forall|j: int|
                0 <= j < i ==> is_unreserved(#[trigger] entries[j])) implies pending_outcome(
            entries,
        ) == match entries[i] {
            StoreEntry::Unreadable => Err::<(), CatacombStoreError>(
                CatacombStoreError::StorageUnavailable,
            ),
            StoreEntry::NotText => Err(CatacombStoreError::UnsafeStorage),
            StoreEntry::Named(_) => Err(CatacombStoreError::PendingExport),
        } by {
            if i > 0 {
                assert(is_unreserved(entries[0]));
                assert(rest[i - 1] == entries[i]);
                assert forall|j: int| 0 <= j < i - 1 implies is_unreserved(#[trigger] rest[j]) by {
                    assert(is_unreserved(entries[j + 1]));
                }
            }
        }
    }
}

/// A new export is let through exactly where the store can be listed and no name in it is
/// a reservation's; the first entry that is not so decides how it is refused.
pub proof fn law_reservations_block_new_exports(
    listing: Option<&Vec<StoreEntry>>,
    r: Result<(), CatacombStoreError>,
)
    requires
        call_ensures(reject_recovery_state, (listing,), r),
    ensures
        r is Ok <==> listing is Some && forall|i: int|
            0 <= i < listing->0@.len() ==> is_unreserved(#[trigger] listing->0@[i]),
        listing is None ==> r == Err::<(), CatacombStoreError>(
            CatacombStoreError::StorageUnavailable,
        ),
        listing is Some ==> forall|i: int|
            0 <= i < listing->0@.len() && !is_unreserved(#[trigger] listing->0@[i]) && (forall|
                j: int,
            |
                0 <= j < i ==> is_unreserved(#[trigger] listing->0@[j])) ==> {
                &&& listing->0@[i] is Named ==> r == Err::<(), CatacombStoreError>(
                    CatacombStoreError::PendingExport,
                )
                &&& listing->0@[i] is Unreadable ==> r == Err::<(), CatacombStoreError>(
                    CatacombStoreError::StorageUnavailable,
                )
                &&& listing->0@[i] is NotText ==> r == Err::<(), CatacombStoreError>(
                    CatacombStoreError::UnsafeStorage,
                )
            },
{
    if let Some(entries) = listing {
        lemma_pending(entries@);
    }
}

/// Whether an entry is the reservation of a token: named so, private and empty.
pub open spec fn reserves(entry: ReservationEntry, owner: u32, token: Seq<u8>) -> bool {
    &&& entry.entry matches StoreEntry::Named(name) && name@ == recovery_bytes() + token
    &&& has_three_fields(token)
    &&& entry.facts matches Some(facts) && is_private(facts, owner) && facts.size == 0
}

/// Whether an entry lets the reservations be collected: it is none, or one of some token.
pub open spec fn is_collectible(entry: ReservationEntry, expected: Option<u32>) -> bool {
    is_unreserved(entry.entry) || (expected is Some && exists|token: Seq<u8>| #[trigger]
        reserves(entry, expected->0, token))
}

/// Whether one of the tokens is `token`.
pub open spec fn holds_token(tokens: Seq<Seq<u8>>, token: Seq<u8>) -> bool {
    exists|i: int| 0 <= i < tokens.len() && #[trigger] tokens[i] == token
}

proof fn lemma_reservation(entry: ReservationEntry, expected: Option<u32>)
    requires
        entry.entry is Named,
        begins(entry.entry->Named_0@, recovery_bytes()),
    ensures
        ({
            let token = entry.entry->Named_0@.subrange(
                10,
                entry.entry->Named_0@.len() as int,
            );
            &&& is_collectible(entry, expected) <==> expected is Some && reserves(
                entry,
                expected->0,
                token,
            )
            &&& forall|other: Seq<u8>, owner: u32| #[trigger]
                reserves(entry, owner, other) ==> other == token
        }),
{
    let name = entry.entry->Named_0@;
    let token = name.subrange(10, name.len() as int);
    assert forall|other: Seq<u8>, owner: u32| #[trigger]
        reserves(entry, owner, other) implies other == token by {
        assert(name == recovery_bytes() + other);
        assert(token =~= other);
    }
}

proof fn lemma_reserved(entries: Seq<ReservationEntry>, expected: Option<u32>)
    ensures
        reserved_tokens(entries, expected) is Ok <==> forall|i: int|
            0 <= i < entries.len() ==> is_collectible(#[trigger] entries[i], expected),
        reserved_tokens(entries, expected) matches Ok(tokens) ==> {
            &&& forall|token: Seq<u8>| #[trigger]
                holds_token(tokens, token) ==> expected is Some && exists|i: int|
                    0 <= i < entries.len() && reserves(#[trigger] entries[i], expected->0, token)
            &&& forall|i: int, token: Seq<u8>|
                expected is Some && 0 <= i < entries.len() && #[trigger] reserves(
                    entries[i],
                    expected->0,
                    token,
                ) ==> holds_token(tokens, token)
        },
    decreases entries.len(),
{
    if entries.len() > 0 {
        let head = entries.drop_last();
        let last = entries.last();
        lemma_reserved(head, expected);
        assert(forall|i: int| 0 <= i < head.len() ==> #[trigger] head[i] == entries[i]);
        if let StoreEntry::Named(name) = last.entry {
            lemma_namespace(name@);
            if begins(name@, recovery_bytes()) {
                let token = name@.subrange(10, name@.len() as int);
                lemma_tokens_have_three_fields(token);
                assert(name@ =~= recovery_bytes() + token) by {
                    assert forall|i: int| 0 <= i < name@.len() implies name@[i] == (
                    recovery_bytes() + token)[i] by {
                        if i < 10 {
                            assert(name@[i] == recovery_bytes()[i]);
                        }
                    }
                }
                lemma_reservation(last, expected);
            }
        }
        let before = reserved_tokens(head, expected);
        if before is Ok {
            let old_tokens = before->Ok_0;
            if reserved_tokens(entries, expected) is Ok {
                let tokens = reserved_tokens(entries, expected)->Ok_0;
                assert forall|i: int| 0 <= i < entries.len() implies is_collectible(
                    #[trigger] entries[i],
                    expected,
                ) by {
                    if i < head.len() {
                        assert(is_collectible(head[i], expected));
                    }
                }
                assert forall|token: Seq<u8>| #[trigger] holds_token(tokens, token) implies expected
                    is Some && exists|i: int|
                    0 <= i < entries.len()
                        && reserves(#[trigger] entries[i], expected->0, token) by {
                    let k = choose|k: int| 0 <= k < tokens.len() && #[trigger] tokens[k] == token;
                    if k < old_tokens.len() {
                        assert(old_tokens[k] == token);
                        assert(holds_token(old_tokens, token));
                        let i = choose|i: int|
                            0 <= i < head.len() && reserves(
                                #[trigger] head[i],
                                expected->0,
                                token,
                            );
                        assert(reserves(entries[i], expected->0, token));
                    } else {
                        assert(reserves(entries[entries.len() - 1], expected->0, token));
                    }
                }
                assert forall|i: int, token: Seq<u8>|
                    expected is Some && 0 <= i < entries.len() && #[trigger] reserves(
                        entries[i],
                        expected->0,
                        token,
                    ) implies holds_token(tokens, token) by {
                    if i < head.len() {
                        assert(reserves(head[i], expected->0, token));
                        assert(holds_token(old_tokens, token));
                        let k = choose|k: int|
                            0 <= k < old_tokens.len() && #[trigger] old_tokens[k] == token;
                        assert(tokens[k] == token);
                    } else {
                        let name = last.entry->Named_0@;
                        assert(begins(name, recovery_bytes())) by {
                            assert(name == recovery_bytes() + token);
                        }
                        assert(tokens[old_tokens.len() as int] == token);
                    }
                }
            }
        }
        if forall|i: int| 0 <= i < entries.len()
            ==> is_collectible(#[trigger] entries[i], expected) {
            assert forall|i: int| 0 <= i < head.len() implies is_collectible(
                #[trigger] head[i],
                expected,
            ) by {
                assert(is_collectible(entries[i], expected));
            }
            assert(is_collectible(entries[entries.len() - 1], expected));
            if !is_unreserved(last.entry) {
                let token = choose|token: Seq<u8>| #[trigger]
                    reserves(last, expected->0, token);
                let name = last.entry->Named_0@;
                assert(begins(name, recovery_bytes())) by {
                    assert(name == recovery_bytes() + token);
                }
            }
        }
    }
}

/// Why an entry that does not let the reservations be collected does not.
pub open spec fn collection_failure(
    entry: ReservationEntry,
    expected: Option<u32>,
) -> CatacombStoreError {
    match entry.entry {
        StoreEntry::Unreadable => CatacombStoreError::StorageUnavailable,
        StoreEntry::NotText => CatacombStoreError::UnsafeStorage,
        StoreEntry::Named(name) => if has_three_fields(name@.subrange(10, name@.len() as int)) && (
        entry.facts is None || expected is None) {
            CatacombStoreError::StorageUnavailable
        } else {
            CatacombStoreError::UnsafeStorage
        },
    }
}

proof fn lemma_first_uncollectible(
    entries: Seq<ReservationEntry>,
    expected: Option<u32>,
    i: int,
)
    requires
        0 <= i < entries.len(),
        !is_collectible(entries[i], expected),
        forall|j: int| 0 <= j < i ==> is_collectible(#[trigger] entries[j], expected),
    ensures
        reserved_tokens(entries, expected) == Err::<Seq<Seq<u8>>, CatacombStoreError>(
            collection_failure(entries[i], expected),
        ),
    decreases entries.len(),
{
    let head = entries.drop_last();
    assert(forall|j: int| 0 <= j < head.len() ==> #[trigger] head[j] == entries[j]);
    if i < head.len() {
        assert forall|j: int| 0 <= j < i implies is_collectible(#[trigger] head[j], expected) by {
            assert(is_collectible(entries[j], expected));
        }
        lemma_first_uncollectible(head, expected, i);
    } else {
        lemma_reserved(head, expected);
        assert forall|j: int| 0 <= j < head.len() implies is_collectible(
            #[trigger] head[j],
            expected,
        ) by {
            assert(is_collectible(entries[j], expected));
        }
        let last = entries.last();
        if let StoreEntry::Named(name) = last.entry {
            lemma_namespace(name@);
            let token = name@.subrange(10, name@.len() as int);
            lemma_tokens_have_three_fields(token);
            assert(begins(name@, recovery_bytes()));
            assert(name@ =~= recovery_bytes() + token) by {
                assert forall|i: int| 0 <= i < name@.len() implies name@[i] == (recovery_bytes()
                    + token)[i] by {
                    if i < 10 {
                        assert(name@[i] == recovery_bytes()[i]);
                    }
                }
            }
            if expected is Some {
                assert(!reserves(last, expected->0, token));
            }
        }
    }
}

/// The first entry that does not let the reservations be collected decides how that
/// fails.
pub proof fn law_the_first_bad_reservation_is_reported(
    entries: &Vec<ReservationEntry>,
    expected: Option<u32>,
    r: Result<Vec<Vec<u8>>, CatacombStoreError>,
    i: int,
)
    requires
        call_ensures(recovery_tokens, (Some(entries), expected), r),
        0 <= i < entries@.len(),
        !is_collectible(entries@[i], expected),
        forall|j: int| 0 <= j < i ==> is_collectible(#[trigger] entries@[j], expected),
    ensures
        r == Err::<Vec<Vec<u8>>, CatacombStoreError>(collection_failure(entries@[i], expected)),
{
    lemma_first_uncollectible(entries@, expected, i);
}

/// Whether one of the entries is the reservation of the token.
pub open spec fn is_reserved_in(
    entries: Seq<ReservationEntry>,
    expected: Option<u32>,
    token: Seq<u8>,
) -> bool {
    expected is Some && exists|i: int|
        0 <= i < entries.len() && reserves(#[trigger] entries[i], expected->0, token)
}

/// The tokens are those of all reservations, in the order of their bytes, and they are
/// given exactly where every entry is readable and everything named like a reservation is
/// one: of a token, private and empty.
pub proof fn law_all_reservations_are_collected_in_order(
    listing: Option<&Vec<ReservationEntry>>,
    expected: Option<u32>,
    r: Result<Vec<Vec<u8>>, CatacombStoreError>,
)
    requires
        call_ensures(recovery_tokens, (listing, expected), r),
    ensures
        r is Ok <==> listing is Some && forall|i: int|
            0 <= i < listing->0@.len() ==> is_collectible(#[trigger] listing->0@[i], expected),
        listing is None ==> r == Err::<Vec<Vec<u8>>, CatacombStoreError>(
            CatacombStoreError::StorageUnavailable,
        ),
        r matches Ok(tokens) ==> {
            &&& forall|i: int, j: int|
                0 <= i <= j < tokens@.len() ==> is_ordered(
                    (#[trigger] tokens@[i])@,
                    (#[trigger] tokens@[j])@,
                )
            &&& forall|k: int|
                0 <= k < tokens@.len() ==> is_reserved_in(
                    listing->0@,
                    expected,
                    (#[trigger] tokens@[k])@,
                )
            &&& forall|i: int, token: Seq<u8>|
                expected is Some && 0 <= i < listing->0@.len() && #[trigger] reserves(
                    listing->0@[i],
                    expected->0,
                    token,
                ) ==> exists|k: int| 0 <= k < tokens@.len() && (#[trigger] tokens@[k])@ == token
        },
{
    broadcast use vstd::seq_lib::group_to_multiset_ensures;

    if let Some(entries) = listing {
        lemma_reserved(entries@, expected);
        if r is Ok {
            let all = reserved_tokens(entries@, expected)->Ok_0;
            let tokens = r->Ok_0;
            let bytes = all_bytes(tokens@);
            assert(bytes.len() == tokens@.len());
            assert forall|i: int, j: int| 0 <= i <= j < tokens@.len() implies is_ordered(
                (#[trigger] tokens@[i])@,
                (#[trigger] tokens@[j])@,
            ) by {
                assert(bytes[i] == tokens@[i]@ && bytes[j] == tokens@[j]@);
                lemma_order_is_by_bytes(bytes[i], bytes[j]);
            }
            assert forall|k: int| 0 <= k < tokens@.len() implies is_reserved_in(
                entries@,
                expected,
                (#[trigger] tokens@[k])@,
            ) by {
                assert(bytes[k] == tokens@[k]@);
                assert(bytes.contains(bytes[k]));
                assert(bytes.to_multiset().count(bytes[k]) > 0);
                assert(all.contains(bytes[k]));
                assert(holds_token(all, bytes[k]));
            }
            assert forall|i: int, token: Seq<u8>|
                expected is Some && 0 <= i < entries@.len() && #[trigger] reserves(
                    entries@[i],
                    expected->0,
                    token,
                ) implies exists|k: int|
                0 <= k < tokens@.len() && (#[trigger] tokens@[k])@ == token by {
                assert(holds_token(all, token));
                assert(all.contains(token));
                assert(all.to_multiset().count(token) > 0);
                assert(bytes.contains(token));
                let k = choose|k: int| 0 <= k < bytes.len() && bytes[k] == token;
                assert(tokens@[k]@ == token);
            }
        }
    }
}

/// Removed is only what is private and the expected owner's; what is missing needs no
/// removal, and nothing else is removed.
pub proof fn law_only_private_objects_are_removed(
    found: &StoredObject,
    expected: Option<u32>,
    file: Result<Removal, CatacombStoreError>,
    generation: Result<Removal, CatacombStoreError>,
)
    requires
        call_ensures(remove_private_file, (found, expected), file),
        call_ensures(remove_private_generation, (found, expected), generation),
    ensures
        file == Ok::<Removal, CatacombStoreError>(Removal::Remove) <==> (
        *found matches StoredObject::Opened(facts) && expected is Some && is_private(
            facts,
            expected->0,
        )),
        generation == Ok::<Removal, CatacombStoreError>(Removal::Remove) <==> (
        *found matches StoredObject::Opened(facts) && expected is Some && is_private_directory(
            facts,
            expected->0,
        )),
        file == Ok::<Removal, CatacombStoreError>(Removal::Nothing) <==> *found is Missing,
        generation == Ok::<Removal, CatacombStoreError>(Removal::Nothing) <==> *found is Missing,
        *found is Refused || *found is Unknown ==> file == Err::<Removal, CatacombStoreError>(
            CatacombStoreError::StorageUnavailable,
        ) && generation == file,
        *found is Opened && file is Err ==> file->Err_0 == if expected is None {
            CatacombStoreError::StorageUnavailable
        } else {
            CatacombStoreError::UnsafeStorage
        },
        *found is Opened && generation is Err ==> generation->Err_0 == if expected is None
            && is_private_directory((*found)->Opened_0, (*found)->Opened_0.owner) {
            CatacombStoreError::StorageUnavailable
        } else {
            CatacombStoreError::UnsafeStorage
        },
{
}

/// `master.raw`.
pub open spec fn master_name() -> Seq<u8> {
    seq![109u8, 97, 115, 116, 101, 114, 46, 114, 97, 119]
}

/// `user.raw`.
pub open spec fn user_name() -> Seq<u8> {
    seq![117u8, 115, 101, 114, 46, 114, 97, 119]
}

/// `identities.meta`.
pub open spec fn metadata_name() -> Seq<u8> {
    seq![105u8, 100, 101, 110, 116, 105, 116, 105, 101, 115, 46, 109, 101, 116, 97]
}

/// A generation's members are `master.raw`, `user.raw` and `identities.meta`; anything
/// else in it keeps it from being removed.
pub proof fn law_generations_hold_three_members(
    entry: &StoreEntry,
    r: Result<(), CatacombStoreError>,
)
    requires
        call_ensures(judge_member, (entry,), r),
    ensures
        r is Ok <==> (*entry matches StoreEntry::Named(name) && (name@ == master_name() || name@
            == user_name() || name@ == metadata_name())),
        r == Err::<(), CatacombStoreError>(CatacombStoreError::StorageUnavailable)
            <==> *entry is Unreadable,
        r is Err && !(*entry is Unreadable) ==> r->Err_0 == CatacombStoreError::UnsafeStorage,
{
    assert(crate::catacomb_store::master_file() =~= master_name());
    assert(crate::catacomb_store::user_file() =~= user_name());
    assert(crate::catacomb_store::identity_metadata_file() =~= metadata_name());
}

} // verus!
