//! Who owns the enrollment, and how that comes to be recorded.

use crate::auth_protocol::{AccessPolicy, PeerAddressFamily, PeerMetadata, PolicyError};
use crate::enrollment_owner::{
    encode_owner, is_pending_name, map_policy_error, owner_record, parse_owner, pending_name,
    pending_name_tried, ClaimAction, ClaimReading, ClaimStep, CreateOutcome, EnrollmentOwner,
    EnrollmentOwnerError, EnrollmentOwnerStore, FileFacts, LinkEntry, OpenOutcome, OwnerClaim,
    PendingClaimAction, PendingClaimRead, PendingNameStep, PendingPublication, PublishOutcome,
    ReadableOwner,
};
use crate::laws::legacy::{begins, lemma_prefixes};
use crate::laws::names::{is_decimal_numeral, lemma_decimals_count_tens, tens};
use vstd::prelude::*;

verus! {

/// Every user but 0 can own the enrollment.
pub proof fn law_owners_are_not_root(
    user_id: u32,
    r: Result<EnrollmentOwner, EnrollmentOwnerError>,
    owner: EnrollmentOwner,
    raw: u32,
)
    requires
        call_ensures(EnrollmentOwner::new, (user_id,), r),
        r matches Ok(made) ==> made == owner,
        call_ensures(EnrollmentOwner::as_raw, (owner,), raw),
    ensures
        r is Ok <==> user_id != 0,
        r is Ok ==> raw == user_id,
        r is Err ==> r->Err_0 == EnrollmentOwnerError::InvalidOwner,
        raw != 0,
{
}

/// Whether the bytes are the user's number in decimal, and a line's end.
pub open spec fn records(bytes: Seq<u8>, user_id: u32) -> bool {
    bytes.len() > 1 && bytes.last() == 10 && is_decimal_numeral(bytes.drop_last()) && tens(
        bytes.drop_last(),
    ) == user_id
}

proof fn lemma_records(bytes: Seq<u8>, user_id: u32)
    ensures
        bytes == owner_record(user_id) <==> records(bytes, user_id),
{
    let numeral = crate::decimal::decimal(user_id as nat);
    lemma_decimals_count_tens(user_id as nat);
    assert(owner_record(user_id).drop_last() =~= numeral);
    if records(bytes, user_id) {
        let digits = bytes.drop_last();
        crate::laws::names::lemma_numerals_are_their_numbers(digits);
        assert(digits == numeral);
        assert(bytes =~= digits.push(10u8));
    }
}

/// An owner's record is its number in decimal without superfluous zeros, and a line's
/// end; reading it gives the owner back, and nothing else is an owner's record.
pub proof fn law_owner_records_are_read_back(
    owner: EnrollmentOwner,
    written: Vec<u8>,
    encoded: &[u8],
    r: Result<EnrollmentOwner, EnrollmentOwnerError>,
)
    requires
        call_ensures(encode_owner, (owner,), written),
        call_ensures(parse_owner, (encoded,), r),
    ensures
        records(written@, owner.id()),
        encoded@ == written@ && owner.id() != 0 ==> r is Ok && r->Ok_0.id() == owner.id(),
        r is Ok <==> exists|user_id: u32| user_id != 0 && #[trigger] records(encoded@, user_id),
        r matches Ok(read) ==> records(encoded@, read.id()) && read.id() != 0,
        r matches Err(error) ==> error == EnrollmentOwnerError::CorruptState,
{
    lemma_records(written@, owner.id());
    assert forall|user_id: u32| encoded@ == owner_record(user_id) <==> #[trigger] records(
        encoded@,
        user_id,
    ) by {
        lemma_records(encoded@, user_id);
    }
    if r is Ok {
        assert(records(encoded@, r->Ok_0.id()));
        if encoded@ == written@ {
            assert(tens(encoded@.drop_last()) == owner.id());
        }
    } else {
        if encoded@ == written@ && owner.id() != 0 {
            assert(encoded@ != owner_record(owner.id()));
        }
        assert forall|user_id: u32| user_id != 0 implies !#[trigger] records(encoded@, user_id) by {
            assert(encoded@ != owner_record(user_id));
        }
    }
}

/// `.owner.uid.pending-`.
pub open spec fn pending_bytes() -> Seq<u8> {
    seq![
        46u8, 111, 119, 110, 101, 114, 46, 117, 105, 100, 46, 112, 101, 110, 100, 105, 110, 103,
        45,
    ]
}

/// Whether the name is that of a pending record: a decimal number behind
/// `.owner.uid.pending-`.
pub open spec fn is_pending(name: Seq<u8>) -> bool {
    begins(name, pending_bytes()) && is_decimal_numeral(name.subrange(19, name.len() as int))
}

proof fn lemma_pending_names(name: Seq<u8>)
    ensures
        crate::enrollment_owner::names_pending(name) <==> is_pending(name),
{
    lemma_prefixes(name, pending_bytes());
    assert(crate::enrollment_owner::pending_prefix() =~= pending_bytes());
    if begins(name, pending_bytes()) {
        let digits = name.subrange(19, name.len() as int);
        if crate::decimal::is_numeral(digits) {
            assert forall|i: int| 0 <= i < digits.len() implies 48 <= #[trigger] digits[i]
                <= 57 by {
                assert(crate::bytes::is_digit(digits[i]));
            }
        }
    }
}

/// Pending names are numbered, recognized, and tell their numbers apart.
pub proof fn law_pending_names_are_numbered(
    first: u64,
    second: u64,
    first_name: Vec<u8>,
    second_name: Vec<u8>,
    name: &[u8],
    recognized: bool,
)
    requires
        call_ensures(pending_name, (first,), first_name),
        call_ensures(pending_name, (second,), second_name),
        call_ensures(is_pending_name, (name,), recognized),
    ensures
        recognized <==> is_pending(name@),
        is_pending(first_name@),
        tens(first_name@.subrange(19, first_name@.len() as int)) == first,
        first_name@ == second_name@ ==> first == second,
        name@ == first_name@ ==> recognized,
{
    lemma_pending_names(name@);
    lemma_decimals_count_tens(first as nat);
    lemma_decimals_count_tens(second as nat);
    assert(first_name@.subrange(19, first_name@.len() as int) =~= crate::decimal::decimal(
        first as nat,
    ));
    assert(second_name@.subrange(19, second_name@.len() as int) =~= crate::decimal::decimal(
        second as nat,
    ));
    assert(begins(first_name@, pending_bytes()));
}

/// Whether the file is the store's alone.
pub open spec fn is_its_file(facts: FileFacts, user_id: u32, group_id: u32) -> bool {
    facts.is_file && facts.user_id == user_id && facts.group_id == group_id && facts.mode & 0o777
        == 0o600
}

/// Whether the directory is the store's alone.
pub open spec fn is_its_directory(facts: FileFacts, user_id: u32, group_id: u32) -> bool {
    facts.is_directory && facts.user_id == user_id && facts.group_id == group_id && facts.mode
        & 0o777 == 0o700
}

/// The owner's store belongs to user 0 and group 0, unless it is made for another; only
/// what is that user's alone is trusted, and only the same directory is still the same.
pub proof fn law_owner_storage_is_private(
    user_id: u32,
    group_id: u32,
    store: EnrollmentOwnerStore,
    default_store: EnrollmentOwnerStore,
    facts: FileFacts,
    file: Result<(), EnrollmentOwnerError>,
    open: OpenOutcome,
    directory: Result<(), EnrollmentOwnerError>,
    default_directory: Result<(), EnrollmentOwnerError>,
    opened: Option<FileFacts>,
    current: Option<FileFacts>,
    identity: Result<(), EnrollmentOwnerError>,
)
    requires
        call_ensures(EnrollmentOwnerStore::owned_by, (user_id, group_id), store),
        call_ensures(EnrollmentOwnerStore::new, (), default_store),
        call_ensures(
            EnrollmentOwnerStore::validate_private_file_metadata,
            (&store, &facts),
            file,
        ),
        call_ensures(EnrollmentOwnerStore::open_directory, (&store, &open), directory),
        call_ensures(
            EnrollmentOwnerStore::open_directory,
            (&default_store, &open),
            default_directory,
        ),
        call_ensures(
            EnrollmentOwnerStore::ensure_directory_identity,
            (&store, opened, current),
            identity,
        ),
    ensures
        file is Ok <==> is_its_file(facts, user_id, group_id),
        file is Err ==> file->Err_0 == EnrollmentOwnerError::UnsafeStorage,
        directory is Ok <==> (open matches OpenOutcome::Opened(found) && is_its_directory(
            found,
            user_id,
            group_id,
        )),
        default_directory is Ok <==> (open matches OpenOutcome::Opened(found) && is_its_directory(
            found,
            0,
            0,
        )),
        open is Missing ==> directory == Err::<(), EnrollmentOwnerError>(
            EnrollmentOwnerError::MissingOwner,
        ),
        open is Unknown ==> directory == Err::<(), EnrollmentOwnerError>(
            EnrollmentOwnerError::StorageUnavailable,
        ),
        (open is Refused || open is Opened) && directory is Err ==> directory->Err_0
            == EnrollmentOwnerError::UnsafeStorage,
        identity is Ok <==> (opened is Some && current is Some && current->0.is_directory
            && current->0.device == opened->0.device && current->0.inode == opened->0.inode),
        opened is None ==> identity == Err::<(), EnrollmentOwnerError>(
            EnrollmentOwnerError::StorageUnavailable,
        ),
        opened is Some && identity is Err ==> identity->Err_0
            == EnrollmentOwnerError::UnsafeStorage,
{
}

/// Whether the entry is a pending record that is another name of the owner's file.
pub open spec fn links_to(entry: LinkEntry, owner: FileFacts) -> bool {
    entry matches LinkEntry::Named { name, open } && is_pending(name@) && (
    open matches OpenOutcome::Opened(facts) && facts.device == owner.device && facts.inode
        == owner.inode)
}

/// Whether an entry keeps the owner's file from being trusted: it is unreadable, or it is
/// a pending record that cannot be trusted itself.
pub open spec fn is_suspect(entry: LinkEntry, user_id: u32, group_id: u32) -> bool {
    match entry {
        LinkEntry::Named { name, open } => is_pending(name@) && match open {
            OpenOutcome::Missing => false,
            OpenOutcome::Opened(facts) => !is_its_file(facts, user_id, group_id),
            _ => true,
        },
        _ => true,
    }
}

/// How many of the entries are pending records that are other names of the owner's file.
pub open spec fn other_names(entries: Seq<LinkEntry>, owner: FileFacts) -> int
    decreases entries.len(),
{
    if entries.len() == 0 {
        0
    } else {
        other_names(entries.drop_last(), owner) + if links_to(entries.last(), owner) {
            1int
        } else {
            0int
        }
    }
}

proof fn lemma_links(store: EnrollmentOwnerStore, entries: Seq<LinkEntry>, owner: FileFacts)
    ensures
        store.pending_links(entries, owner) is Ok <==> forall|i: int|
            0 <= i < entries.len() ==> !is_suspect(
                #[trigger] entries[i],
                store.user(),
                store.group(),
            ),
        store.pending_links(entries, owner) matches Ok(count) ==> count == other_names(
            entries,
            owner,
        ),
    decreases entries.len(),
{
    if entries.len() > 0 {
        let head = entries.drop_last();
        let last = entries.last();
        lemma_links(store, head, owner);
        assert(forall|i: int| 0 <= i < head.len() ==> #[trigger] head[i] == entries[i]);
        if let LinkEntry::Named { name, open } = last {
            lemma_pending_names(name@);
        }
        if store.pending_links(entries, owner) is Ok {
            assert forall|i: int| 0 <= i < entries.len() implies !is_suspect(
                #[trigger] entries[i],
                store.user(),
                store.group(),
            ) by {
                if i < head.len() {
                    assert(!is_suspect(head[i], store.user(), store.group()));
                }
            }
        }
        if forall|i: int|
            0 <= i < entries.len() ==> !is_suspect(
                #[trigger] entries[i],
                store.user(),
                store.group(),
            ) {
            assert forall|i: int| 0 <= i < head.len() implies !is_suspect(
                #[trigger] head[i],
                store.user(),
                store.group(),
            ) by {
                assert(!is_suspect(entries[i], store.user(), store.group()));
            }
            assert(!is_suspect(entries[entries.len() - 1], store.user(), store.group()));
        }
    }
}

/// Why an entry that keeps the owner's file from being trusted does so.
pub open spec fn suspicion(entry: LinkEntry) -> EnrollmentOwnerError {
    match entry {
        LinkEntry::Unreadable => EnrollmentOwnerError::StorageUnavailable,
        LinkEntry::NotText => EnrollmentOwnerError::UnsafeStorage,
        LinkEntry::Named { name, open } => if open is Unknown {
            EnrollmentOwnerError::StorageUnavailable
        } else {
            EnrollmentOwnerError::UnsafeStorage
        },
    }
}

proof fn lemma_first_suspect(
    store: EnrollmentOwnerStore,
    entries: Seq<LinkEntry>,
    owner: FileFacts,
    i: int,
)
    requires
        0 <= i < entries.len(),
        is_suspect(entries[i], store.user(), store.group()),
        forall|j: int|
            0 <= j < i ==> !is_suspect(#[trigger] entries[j], store.user(), store.group()),
    ensures
        store.pending_links(entries, owner) == Err::<nat, EnrollmentOwnerError>(
            suspicion(entries[i]),
        ),
    decreases entries.len(),
{
    let head = entries.drop_last();
    assert(forall|j: int| 0 <= j < head.len() ==> #[trigger] head[j] == entries[j]);
    if i < head.len() {
        assert forall|j: int| 0 <= j < i implies !is_suspect(
            #[trigger] head[j],
            store.user(),
            store.group(),
        ) by {
            assert(!is_suspect(entries[j], store.user(), store.group()));
        }
        lemma_first_suspect(store, head, owner, i);
    } else {
        lemma_links(store, head, owner);
        assert forall|j: int| 0 <= j < head.len() implies !is_suspect(
            #[trigger] head[j],
            store.user(),
            store.group(),
        ) by {
            assert(!is_suspect(entries[j], store.user(), store.group()));
        }
        if let LinkEntry::Named { name, open } = entries.last() {
            lemma_pending_names(name@);
        }
    }
}

/// Of a private owner's file with further names, the first suspect entry decides how it is
/// refused; without one, a file that cannot be looked at again is unavailable, and one
/// with foreign names is unsafe.
pub proof fn law_the_first_suspicion_is_reported(
    store: &EnrollmentOwnerStore,
    facts: &FileFacts,
    entries: &Vec<LinkEntry>,
    current: Option<FileFacts>,
    r: Result<(), EnrollmentOwnerError>,
    i: int,
)
    requires
        call_ensures(
            EnrollmentOwnerStore::validate_owner_file_metadata,
            (store, facts, Some(entries), current),
            r,
        ),
        is_its_file(*facts, store.user(), store.group()),
        facts.links != 1,
    ensures
        0 <= i < entries@.len() && is_suspect(entries@[i], store.user(), store.group()) && (forall|
            j: int,
        |
            0 <= j < i ==> !is_suspect(#[trigger] entries@[j], store.user(), store.group())) ==> r
            == Err::<(), EnrollmentOwnerError>(suspicion(entries@[i])),
        (forall|j: int|
            0 <= j < entries@.len() ==> !is_suspect(
                #[trigger] entries@[j],
                store.user(),
                store.group(),
            )) && r is Err ==> r->Err_0 == if current is None {
            EnrollmentOwnerError::StorageUnavailable
        } else {
            EnrollmentOwnerError::UnsafeStorage
        },
{
    lemma_links(*store, entries@, *facts);
    if 0 <= i < entries@.len() && is_suspect(entries@[i], store.user(), store.group()) && (forall|
        j: int,
    |
        0 <= j < i ==> !is_suspect(#[trigger] entries@[j], store.user(), store.group())) {
        lemma_first_suspect(*store, entries@, *facts, i);
    }
}

/// The owner's file is trusted where it is the store's alone and has one name; where it
/// has more, each other name has to be a pending record of its own, all of them readable
/// and private, unless they are gone when it is looked at again.
pub proof fn law_owner_files_have_no_foreign_name(
    store: &EnrollmentOwnerStore,
    facts: &FileFacts,
    entries: Option<&Vec<LinkEntry>>,
    current: Option<FileFacts>,
    r: Result<(), EnrollmentOwnerError>,
)
    requires
        call_ensures(
            EnrollmentOwnerStore::validate_owner_file_metadata,
            (store, facts, entries, current),
            r,
        ),
    ensures
        r is Ok <==> is_its_file(*facts, store.user(), store.group()) && (facts.links == 1 || (
        entries is Some && (forall|i: int|
            0 <= i < entries->0@.len() ==> !is_suspect(
                #[trigger] entries->0@[i],
                store.user(),
                store.group(),
            )) && current is Some && is_its_file(current->0, store.user(), store.group()) && (
        current->0.links == 1 || (current->0.links == facts.links && other_names(
            entries->0@,
            *facts,
        ) + 1 == facts.links)))),
        !is_its_file(*facts, store.user(), store.group()) ==> r == Err::<(), EnrollmentOwnerError>(
            EnrollmentOwnerError::UnsafeStorage,
        ),
        is_its_file(*facts, store.user(), store.group()) && facts.links != 1 && entries is None
            ==> r == Err::<(), EnrollmentOwnerError>(EnrollmentOwnerError::StorageUnavailable),
        r matches Err(error) ==> error == EnrollmentOwnerError::UnsafeStorage || error
            == EnrollmentOwnerError::StorageUnavailable,
{
    if let Some(entries) = entries {
        lemma_links(*store, entries@, *facts);
        lemma_link_errors(*store, entries@, *facts);
    }
}

proof fn lemma_link_errors(store: EnrollmentOwnerStore, entries: Seq<LinkEntry>, owner: FileFacts)
    ensures
        store.pending_links(entries, owner) matches Err(error) ==> error
            == EnrollmentOwnerError::UnsafeStorage || error
            == EnrollmentOwnerError::StorageUnavailable,
    decreases entries.len(),
{
    if entries.len() > 0 {
        lemma_link_errors(store, entries.drop_last(), owner);
    }
}

/// An owner is read from a trusted file of one to eleven bytes, all of which are its
/// record.
pub proof fn law_owners_are_read_from_trusted_files(
    store: &EnrollmentOwnerStore,
    facts: FileFacts,
    entries: Option<&Vec<LinkEntry>>,
    current: Option<FileFacts>,
    trusted: Result<(), EnrollmentOwnerError>,
    r: Result<ReadableOwner, EnrollmentOwnerError>,
    missing: Result<ReadableOwner, EnrollmentOwnerError>,
    refused: Result<ReadableOwner, EnrollmentOwnerError>,
    unknown: Result<ReadableOwner, EnrollmentOwnerError>,
    content: Option<&Vec<u8>>,
    owner: Result<EnrollmentOwner, EnrollmentOwnerError>,
)
    requires
        call_ensures(
            EnrollmentOwnerStore::validate_owner_file_metadata,
            (store, &facts, entries, current),
            trusted,
        ),
        call_ensures(
            EnrollmentOwnerStore::owner_file_opened,
            (store, &OpenOutcome::Opened(facts), entries, current),
            r,
        ),
        call_ensures(
            EnrollmentOwnerStore::owner_file_opened,
            (store, &OpenOutcome::Missing, entries, current),
            missing,
        ),
        call_ensures(
            EnrollmentOwnerStore::owner_file_opened,
            (store, &OpenOutcome::Refused, entries, current),
            refused,
        ),
        call_ensures(
            EnrollmentOwnerStore::owner_file_opened,
            (store, &OpenOutcome::Unknown, entries, current),
            unknown,
        ),
        r matches Ok(readable) ==> call_ensures(ReadableOwner::decode, (readable, content), owner),
    ensures
        r is Ok <==> trusted is Ok && 1 <= facts.size <= 11,
        trusted is Ok && r is Err ==> r->Err_0 == EnrollmentOwnerError::CorruptState,
        trusted is Err ==> r is Err && r->Err_0 == trusted->Err_0,
        missing is Err && missing->Err_0 == EnrollmentOwnerError::MissingOwner,
        refused is Err && refused->Err_0 == EnrollmentOwnerError::StorageUnavailable,
        unknown is Err && unknown->Err_0 == EnrollmentOwnerError::StorageUnavailable,
        r is Ok ==> {
            &&& owner is Ok <==> content is Some && content->0@.len() == facts.size && exists|
                user_id: u32,
            |
                user_id != 0 && #[trigger] records(content->0@, user_id)
            &&& owner matches Ok(read) ==> records(content->0@, read.id()) && read.id() != 0
            &&& owner matches Err(error) ==> error == EnrollmentOwnerError::CorruptState
        },
{
    if r is Ok && content is Some {
        let bytes = content->0@;
        assert forall|user_id: u32| bytes == owner_record(user_id) <==> #[trigger] records(
            bytes,
            user_id,
        ) by {
            lemma_records(bytes, user_id);
        }
        if owner is Ok {
            assert(records(bytes, owner->Ok_0.id()));
        } else if bytes.len() == facts.size {
            assert forall|user_id: u32| user_id
                != 0 implies !#[trigger] records(bytes, user_id) by {
                assert(bytes != owner_record(user_id));
            }
        }
    }
}

/// An owner is loaded from a trusted directory that stayed the same, and its policy
/// admits it and user 0; the first failure counts.
pub proof fn law_policies_come_from_the_recorded_owner(
    store: &EnrollmentOwnerStore,
    directory: &OpenOutcome,
    checked: Result<(), EnrollmentOwnerError>,
    owner: Result<EnrollmentOwner, EnrollmentOwnerError>,
    opened: Option<FileFacts>,
    current: Option<FileFacts>,
    identity: Result<(), EnrollmentOwnerError>,
    loaded: Result<EnrollmentOwner, EnrollmentOwnerError>,
    policy: Result<AccessPolicy, EnrollmentOwnerError>,
    peer: PeerMetadata,
    admitted: bool,
)
    requires
        call_ensures(EnrollmentOwnerStore::open_directory, (store, directory), checked),
        call_ensures(
            EnrollmentOwnerStore::ensure_directory_identity,
            (store, opened, current),
            identity,
        ),
        call_ensures(
            EnrollmentOwnerStore::load,
            (store, directory, owner, opened, current),
            loaded,
        ),
        call_ensures(EnrollmentOwnerStore::access_policy, (store, loaded), policy),
        policy matches Ok(policy) ==> call_ensures(
            AccessPolicy::peer_is_authorized,
            (policy, peer),
            admitted,
        ),
    ensures
        loaded is Ok <==> checked is Ok && owner is Ok && identity is Ok,
        loaded is Ok ==> loaded->Ok_0 == owner->Ok_0,
        checked is Err ==> loaded is Err && loaded->Err_0 == checked->Err_0,
        checked is Ok && owner is Err ==> loaded is Err && loaded->Err_0 == owner->Err_0,
        checked is Ok && owner is Ok && identity is Err ==> loaded is Err && loaded->Err_0
            == identity->Err_0,
        policy is Ok <==> loaded is Ok,
        loaded is Err ==> policy is Err && policy->Err_0 == loaded->Err_0,
        policy is Ok ==> (admitted <==> peer.address_family == PeerAddressFamily::Local && (
        peer.user_id == 0 || peer.user_id == owner->Ok_0.id())),
{
}

/// A policy that cannot be made shows a corrupt record.
pub proof fn law_unusable_policies_show_corruption(error: PolicyError, r: EnrollmentOwnerError)
    requires
        call_ensures(map_policy_error, (error,), r),
    ensures
        r == EnrollmentOwnerError::CorruptState,
{
}

/// Whether the step is this action of this owner's claim.
pub open spec fn acts(step: ClaimStep, owner: EnrollmentOwner, action: ClaimAction) -> bool {
    step matches ClaimStep::Act(pending) && pending.owner == owner && pending.action == action
}

/// A claim opens the directory and reads first: a record that is there is confirmed and
/// synchronized, and decides; only a missing one lets a new one be made.
pub proof fn law_claims_respect_what_is_recorded(
    store: &EnrollmentOwnerStore,
    owner: EnrollmentOwner,
    first: PendingClaimAction,
    second: PendingClaimRead,
    existing: EnrollmentOwner,
    error: EnrollmentOwnerError,
    found: ClaimStep,
    unfound: ClaimStep,
    checking: PendingClaimAction,
    syncing: PendingClaimAction,
    end: ClaimStep,
    first_step: ClaimStep,
    second_step: ClaimStep,
    syncing_step: ClaimStep,
)
    requires
        call_ensures(EnrollmentOwnerStore::claim, (store, owner), first_step),
        first_step is Act ==> first_step->Act_0 == first,
        call_ensures(
            PendingClaimAction::done,
            (first, Ok::<(), EnrollmentOwnerError>(())),
            second_step,
        ),
        second_step is Read ==> second_step->Read_0 == second,
        call_ensures(
            PendingClaimRead::read,
            (second, Ok::<EnrollmentOwner, EnrollmentOwnerError>(existing)),
            found,
        ),
        call_ensures(
            PendingClaimRead::read,
            (second, Err::<EnrollmentOwner, EnrollmentOwnerError>(error)),
            unfound,
        ),
        found is Act ==> found->Act_0 == checking,
        call_ensures(
            PendingClaimAction::done,
            (checking, Ok::<(), EnrollmentOwnerError>(())),
            syncing_step,
        ),
        syncing_step is Act ==> syncing_step->Act_0 == syncing,
        call_ensures(
            PendingClaimAction::done,
            (syncing, Ok::<(), EnrollmentOwnerError>(())),
            end,
        ),
    ensures
        first_step is Act,
        second_step is Read,
        syncing_step is Act,
        found is Act,
        first.owner == owner && first.action is OpenDirectory,
        second.owner == owner && second.reading is First,
        checking.owner == owner && checking.action == ClaimAction::CheckExisting(existing),
        syncing.owner == owner && syncing.action == ClaimAction::SyncExisting(existing),
        end == ClaimStep::End(
            if existing == owner {
                Ok(OwnerClaim::Existing)
            } else {
                Err(EnrollmentOwnerError::DifferentOwner)
            },
        ),
        error == EnrollmentOwnerError::MissingOwner <==> acts(
            unfound,
            owner,
            ClaimAction::CreatePending,
        ),
        error != EnrollmentOwnerError::MissingOwner ==> unfound == ClaimStep::End(Err(error)),
{
}

/// A new record is created, secured, inspected, written with the owner's record,
/// synchronized and checked, in this order, before it is published; and published it is
/// removed from its pending name, synchronized, checked and read again.
pub proof fn law_new_records_are_complete_before_they_are_published(
    owner: EnrollmentOwner,
    create: PendingClaimAction,
    secure: PendingClaimAction,
    inspect: PendingClaimAction,
    write: PendingClaimAction,
    content: Vec<u8>,
    sync: PendingClaimAction,
    check: PendingClaimAction,
    publish: PendingPublication,
    outcome: PublishOutcome,
    after: ClaimStep,
    remove: PendingClaimAction,
    sync_directory: PendingClaimAction,
    check_directory: PendingClaimAction,
    reading: PendingClaimRead,
    read: Result<EnrollmentOwner, EnrollmentOwnerError>,
    end: ClaimStep,
    secure_step: ClaimStep,
    inspect_step: ClaimStep,
    write_step: ClaimStep,
    sync_step: ClaimStep,
    check_step: ClaimStep,
    publish_step: ClaimStep,
    sync_directory_step: ClaimStep,
    check_directory_step: ClaimStep,
    reading_step: ClaimStep,
)
    requires
        create.owner == owner && create.action is CreatePending,
        call_ensures(
            PendingClaimAction::done,
            (create, Ok::<(), EnrollmentOwnerError>(())),
            secure_step,
        ),
        secure_step is Act ==> secure_step->Act_0 == secure,
        call_ensures(
            PendingClaimAction::done,
            (secure, Ok::<(), EnrollmentOwnerError>(())),
            inspect_step,
        ),
        inspect_step is Act ==> inspect_step->Act_0 == inspect,
        call_ensures(
            PendingClaimAction::done,
            (inspect, Ok::<(), EnrollmentOwnerError>(())),
            write_step,
        ),
        write_step is Act ==> write_step->Act_0 == write,
        call_ensures(PendingClaimAction::content, (&write,), content),
        call_ensures(
            PendingClaimAction::done,
            (write, Ok::<(), EnrollmentOwnerError>(())),
            sync_step,
        ),
        sync_step is Act ==> sync_step->Act_0 == sync,
        call_ensures(
            PendingClaimAction::done,
            (sync, Ok::<(), EnrollmentOwnerError>(())),
            check_step,
        ),
        check_step is Act ==> check_step->Act_0 == check,
        call_ensures(
            PendingClaimAction::done,
            (check, Ok::<(), EnrollmentOwnerError>(())),
            publish_step,
        ),
        publish_step is Publish ==> publish_step->Publish_0 == publish,
        call_ensures(PendingPublication::published, (publish, outcome), after),
        after matches ClaimStep::Act(pending) ==> {
            &&& pending == remove
            &&& call_ensures(
                PendingClaimAction::done,
                (remove, Ok::<(), EnrollmentOwnerError>(())),
                sync_directory_step,
            ) && (sync_directory_step is Act ==> sync_directory_step->Act_0 == sync_directory)
            &&& call_ensures(
                PendingClaimAction::done,
                (sync_directory, Ok::<(), EnrollmentOwnerError>(())),
                check_directory_step,
            ) && (check_directory_step is Act ==> check_directory_step->Act_0 == check_directory)
            &&& call_ensures(
                PendingClaimAction::done,
                (check_directory, Ok::<(), EnrollmentOwnerError>(())),
                reading_step,
            ) && (reading_step is Read ==> reading_step->Read_0 == reading)
            &&& call_ensures(PendingClaimRead::read, (reading, read), end)
        },
    ensures
        secure_step is Act,
        inspect_step is Act,
        write_step is Act,
        sync_step is Act,
        check_step is Act,
        publish_step is Publish,
        after is Act ==> sync_directory_step is Act,
        after is Act ==> check_directory_step is Act,
        after is Act ==> reading_step is Read,
        secure.owner == owner && secure.action is SecurePending,
        inspect.owner == owner && inspect.action is InspectPending,
        write.owner == owner && write.action is WritePending,
        records(content@, owner.id()),
        sync.owner == owner && sync.action is SyncPending,
        check.owner == owner && check.action is CheckBeforePublish,
        publish.owner == owner,
        after is Act <==> outcome == PublishOutcome::Linked || outcome
            == PublishOutcome::AlreadyExists,
        outcome == PublishOutcome::Failed ==> after == ClaimStep::End(
            Err(EnrollmentOwnerError::StorageUnavailable),
        ),
        after is Act ==> {
            let won = outcome == PublishOutcome::Linked;
            &&& remove.owner == owner && remove.action == (ClaimAction::RemovePending { won })
            &&& sync_directory.owner == owner && sync_directory.action == (
            ClaimAction::SyncDirectory { won })
            &&& check_directory.owner == owner && check_directory.action == (
            ClaimAction::CheckDirectory { won })
            &&& reading.owner == owner && reading.reading == (ClaimReading::Published { won })
            &&& end is End
            &&& end == ClaimStep::End(Ok(OwnerClaim::Recorded)) <==> won && read is Ok
                && read->Ok_0 == owner
            &&& end == ClaimStep::End(Ok(OwnerClaim::Existing)) <==> !won && read is Ok
                && read->Ok_0 == owner
            &&& read matches Err(error) ==> end == ClaimStep::End(Err(error))
            &&& read is Ok && read->Ok_0 != owner && won ==> end == ClaimStep::End(
                Err(EnrollmentOwnerError::CorruptState),
            )
            &&& read is Ok && read->Ok_0 != owner && !won ==> end == ClaimStep::End(
                Err(EnrollmentOwnerError::DifferentOwner),
            )
        },
{
    lemma_records(content@, owner.id());
}

/// A failed action ends its claim, and no other action writes.
pub proof fn law_failed_actions_end_claims(
    pending: PendingClaimAction,
    error: EnrollmentOwnerError,
    r: ClaimStep,
    content: Vec<u8>,
)
    requires
        call_ensures(
            PendingClaimAction::done,
            (pending, Err::<(), EnrollmentOwnerError>(error)),
            r,
        ),
        call_ensures(PendingClaimAction::content, (&pending,), content),
    ensures
        r == ClaimStep::End(Err(error)),
        !(pending.action is WritePending) ==> content@.len() == 0,
{
}

/// Sixty-four names are tried for a pending record, and only a taken name lets the next
/// one be tried.
pub proof fn law_pending_names_are_tried_sixty_four_times(
    tried: u32,
    outcome: CreateOutcome,
    r: PendingNameStep,
)
    requires
        call_ensures(pending_name_tried, (tried, outcome), r),
    ensures
        r is Retry <==> outcome == CreateOutcome::AlreadyExists && tried < 63,
        r matches PendingNameStep::Retry(next) ==> next == tried + 1,
        r == PendingNameStep::Done(Ok(())) <==> outcome == CreateOutcome::Created,
        r matches PendingNameStep::Done(Err(error)) ==> error
            == EnrollmentOwnerError::StorageUnavailable,
{
}

} // verus!
