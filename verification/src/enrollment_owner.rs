//! Durable single-owner policy for Touch ID enrollment and authentication.
//!
//! The caller performs the storage work; this module says what each answer of
//! the file system means and what has to be done next.

use crate::auth_protocol::{AccessPolicy, PolicyError};
use crate::bytes::{begins_with, has_prefix, rest_after, tail};
use crate::decimal::{
    decimal, decimal_value, is_canonical, is_numeral, lemma_decimal_is_numeral,
    lemma_numeral_is_decimal, parse_u32, push_decimal,
};
use vstd::prelude::*;

verus! {

/// Permission bits of the owner's directory.
pub const DIRECTORY_MODE: u32 = 0o700;

/// Permission bits of the owner's file.
pub const OWNER_FILE_MODE: u32 = 0o600;

/// All permission bits.
pub const PERMISSION_BITS: u32 = 0o777;

/// Longest owner record: ten digits and a line feed.
pub const MAX_OWNER_FILE_SIZE: u64 = 11;

/// How many names are tried for a pending record.
pub const PENDING_ATTEMPTS: u32 = 64;

/// A validated, non-root user id that owns the one enrolled biometric set.
#[derive(Clone, Copy, PartialEq, Eq, Structural)]
pub struct EnrollmentOwner(u32);

impl EnrollmentOwner {
    /// An owner is never root.
    #[verifier::type_invariant]
    spec fn is_not_root(self) -> bool {
        self.0 != 0
    }

    /// The owner's user id.
    pub closed spec fn id(self) -> u32 {
        self.0
    }

    /// Validates a user id for first-owner enrollment; root is refused.
    pub fn new(user_id: u32) -> (r: Result<EnrollmentOwner, EnrollmentOwnerError>)
        ensures
            r is Ok <==> user_id != 0,
            r matches Ok(owner) ==> owner.id() == user_id,
            r matches Err(error) ==> error == EnrollmentOwnerError::InvalidOwner,
    {
        if user_id == 0 {
            Err(EnrollmentOwnerError::InvalidOwner)
        } else {
            Ok(EnrollmentOwner(user_id))
        }
    }

    /// The validated user id.
    pub fn as_raw(self) -> (r: u32)
        ensures
            r == self.id(),
            r != 0,
    {
        proof {
            use_type_invariant(self);
        }
        self.0
    }

    /// A diagnostic that does not show the owner.
    pub fn diagnostic(&self) -> (text: &'static str)
        ensures
            text@ == "EnrollmentOwner(<redacted>)"@,
    {
        "EnrollmentOwner(<redacted>)"
    }
}

/// Result of reserving the enrollment owner before hardware mutation.
#[derive(Clone, Copy, Debug, PartialEq, Eq, Structural)]
pub enum OwnerClaim {
    /// No owner existed, so this owner was durably recorded.
    Recorded,
    /// The same owner was already recorded; no storage mutation occurred.
    Existing,
}

/// Redaction-safe ownership-state failure.
#[derive(Clone, Copy, Debug, PartialEq, Eq, Structural)]
pub enum EnrollmentOwnerError {
    /// Root or an otherwise invalid user was offered as an enrollment owner.
    InvalidOwner,
    /// No owner state exists, so biometric authentication cannot be authorized.
    MissingOwner,
    /// A different non-root user already owns the enrolled biometric set.
    DifferentOwner,
    /// The owner directory or file has unsafe metadata.
    UnsafeStorage,
    /// The owner file does not contain one canonical non-root user id.
    CorruptState,
    /// Owner state could not be read or durably written.
    StorageUnavailable,
}

impl EnrollmentOwnerError {
    /// The message, as text.
    pub open spec fn text(self) -> Seq<char> {
        match self {
            EnrollmentOwnerError::InvalidOwner => "enrollment owner is invalid"@,
            EnrollmentOwnerError::MissingOwner => "enrollment owner is not recorded"@,
            EnrollmentOwnerError::DifferentOwner => "a different user owns Touch ID enrollment"@,
            EnrollmentOwnerError::UnsafeStorage => "enrollment-owner storage is unsafe"@,
            EnrollmentOwnerError::CorruptState => "enrollment-owner state is corrupt"@,
            EnrollmentOwnerError::StorageUnavailable => "enrollment-owner storage is unavailable"@,
        }
    }

    /// A fixed message.
    pub fn message(self) -> (message: &'static str)
        ensures
            message@ == self.text(),
    {
        match self {
            EnrollmentOwnerError::InvalidOwner => "enrollment owner is invalid",
            EnrollmentOwnerError::MissingOwner => "enrollment owner is not recorded",
            EnrollmentOwnerError::DifferentOwner => "a different user owns Touch ID enrollment",
            EnrollmentOwnerError::UnsafeStorage => "enrollment-owner storage is unsafe",
            EnrollmentOwnerError::CorruptState => "enrollment-owner state is corrupt",
            EnrollmentOwnerError::StorageUnavailable => "enrollment-owner storage is unavailable",
        }
    }
}

/// What the file system says of one object.
#[derive(Clone, Copy, Debug, PartialEq, Eq, Structural)]
pub struct FileFacts {
    pub is_file: bool,
    pub is_directory: bool,
    pub mode: u32,
    pub user_id: u32,
    pub group_id: u32,
    pub links: u64,
    pub device: u64,
    pub inode: u64,
    pub size: u64,
}

impl FileFacts {
    /// Whether both are facts of one object.
    pub open spec fn is_same_object(self, other: FileFacts) -> bool {
        self.device == other.device && self.inode == other.inode
    }
}

/// Outcome of opening one object without following links.
#[derive(Clone, Copy, Debug, PartialEq, Eq, Structural)]
pub enum OpenOutcome {
    /// There is no such object.
    Missing,
    /// The object could not be opened.
    Refused,
    /// It was opened, but its facts could not be read.
    Unknown,
    /// It was opened and these are its facts.
    Opened(FileFacts),
}

/// One entry of the owner's directory.
#[derive(Debug, PartialEq, Eq)]
pub enum LinkEntry {
    /// The entry could not be read.
    Unreadable,
    /// The entry's name is no text.
    NotText,
    /// The entry's name, and the outcome of opening it where the name is that of
    /// a pending record.
    Named { name: Vec<u8>, open: OpenOutcome },
}

/// `.owner.uid.pending-`, in ASCII.
pub open spec fn pending_prefix() -> Seq<u8> {
    seq![
        46u8, 111u8, 119u8, 110u8, 101u8, 114u8, 46u8, 117u8, 105u8, 100u8, 46u8, 112u8, 101u8,
        110u8, 100u8, 105u8, 110u8, 103u8, 45u8,
    ]
}

fn pending_prefix_bytes() -> (r: [u8; 19])
    ensures
        r@ == pending_prefix(),
{
    let prefix: [u8; 19] = [
        46, 111, 119, 110, 101, 114, 46, 117, 105, 100, 46, 112, 101, 110, 100, 105, 110, 103, 45,
    ];
    assert(prefix@ =~= pending_prefix());
    prefix
}

/// The name of the pending record with number `sequence`.
pub open spec fn pending_name_of(sequence: nat) -> Seq<u8> {
    pending_prefix() + decimal(sequence)
}

/// Whether `name` is the prefix and one numeral.
pub open spec fn names_pending(name: Seq<u8>) -> bool {
    has_prefix(name, pending_prefix()) && is_numeral(
        rest_after(name, pending_prefix().len() as int),
    )
}

/// The name of the pending record with number `sequence`.
pub fn pending_name(sequence: u64) -> (r: Vec<u8>)
    ensures
        r@ == pending_name_of(sequence as nat),
{
    let prefix = pending_prefix_bytes();
    let mut name = crate::bytes::to_vec(prefix.as_slice());
    push_decimal(&mut name, sequence);
    name
}

/// Whether `name` is a pending record's name.
pub fn is_pending_name(name: &[u8]) -> (r: bool)
    ensures
        r == names_pending(name@),
{
    let prefix = pending_prefix_bytes();
    begins_with(name, prefix.as_slice()) && is_canonical(tail(name, 19))
}

/// Exactly the names that pending records are given are recognized as theirs.
pub proof fn law_pending_names_are_recognized(name: Seq<u8>)
    ensures
        names_pending(name) <==> exists|sequence: nat| name == #[trigger] pending_name_of(sequence),
{
    let rest = rest_after(name, pending_prefix().len() as int);
    if names_pending(name) {
        lemma_numeral_is_decimal(rest);
        assert(name =~= pending_name_of(decimal_value(rest)));
    }
    if exists|sequence: nat| name == #[trigger] pending_name_of(sequence) {
        let sequence = choose|sequence: nat| name == #[trigger] pending_name_of(sequence);
        lemma_decimal_is_numeral(sequence);
        assert(name.subrange(0, pending_prefix().len() as int) =~= pending_prefix());
        assert(rest =~= decimal(sequence));
    }
}

/// The durable record of an owner: the numeral of the user id and a line feed.
pub open spec fn owner_record(user_id: u32) -> Seq<u8> {
    decimal(user_id as nat).push(10u8)
}

/// Encodes the durable record of `owner`.
pub fn encode_owner(owner: EnrollmentOwner) -> (r: Vec<u8>)
    ensures
        r@ == owner_record(owner.id()),
{
    let mut record: Vec<u8> = Vec::new();
    push_decimal(&mut record, owner.as_raw() as u64);
    assert(record@ =~= decimal(owner.id() as nat));
    record.push(10);
    record
}

/// Decodes a durable record: it is corrupt unless it is exactly the record of a
/// non-root user.
pub fn parse_owner(encoded: &[u8]) -> (r: Result<EnrollmentOwner, EnrollmentOwnerError>)
    ensures
        r matches Ok(owner) ==> owner.id() != 0 && encoded@ == owner_record(owner.id()),
        r matches Err(error) ==> error == EnrollmentOwnerError::CorruptState && forall|
            user_id: u32,
        |
            user_id != 0 ==> encoded@ != #[trigger] owner_record(user_id),
{
    proof {
        assert forall|user_id: u32| encoded@ == #[trigger] owner_record(user_id) implies {
            &&& encoded@.len() != 0
            &&& encoded@.last() == 10u8
            &&& encoded@.drop_last() == decimal(user_id as nat)
            &&& is_numeral(encoded@.drop_last())
            &&& decimal_value(encoded@.drop_last()) == user_id
        } by {
            lemma_decimal_is_numeral(user_id as nat);
            assert(encoded@.drop_last() =~= decimal(user_id as nat));
        }
    }
    if encoded.len() == 0 {
        return Err(EnrollmentOwnerError::CorruptState);
    }
    if encoded[encoded.len() - 1] != 10 {
        return Err(EnrollmentOwnerError::CorruptState);
    }
    let digits = vstd::slice::slice_subrange(encoded, 0, encoded.len() - 1);
    assert(digits@ =~= encoded@.drop_last());
    if !is_canonical(digits) {
        return Err(EnrollmentOwnerError::CorruptState);
    }
    match parse_u32(digits) {
        Some(user_id) => match EnrollmentOwner::new(user_id) {
            Ok(owner) => {
                proof {
                    lemma_numeral_is_decimal(digits@);
                    assert(encoded@ =~= owner_record(user_id));
                }
                Ok(owner)
            },
            Err(_) => Err(EnrollmentOwnerError::CorruptState),
        },
        None => Err(EnrollmentOwnerError::CorruptState),
    }
}

/// No two users have the same record, so a record that was written is read back
/// as its owner and as no other.
pub proof fn law_owner_records_identify_their_owner(first: u32, second: u32)
    ensures
        owner_record(first) == owner_record(second) <==> first == second,
        owner_record(first).len() <= MAX_OWNER_FILE_SIZE,
{
    lemma_decimal_is_numeral(first as nat);
    lemma_decimal_is_numeral(second as nat);
    assert(owner_record(first).drop_last() =~= decimal(first as nat));
    assert(owner_record(second).drop_last() =~= decimal(second as nat));
    reveal_with_fuel(vstd::arithmetic::power::pow, 11);
    lemma_decimal_length(first as nat, 10);
}

/// Numbers below ten to the `digits` have at most that many digits.
proof fn lemma_decimal_length(n: nat, digits: nat)
    requires
        digits >= 1,
        n < vstd::arithmetic::power::pow(10, digits),
    ensures
        decimal(n).len() <= digits,
    decreases digits,
{
    reveal_with_fuel(vstd::arithmetic::power::pow, 2);
    if n >= 10 {
        assert(digits >= 2);
        assert(n / 10 < vstd::arithmetic::power::pow(10, (digits - 1) as nat)) by (nonlinear_arith)
            requires
                n < 10 * vstd::arithmetic::power::pow(10, (digits - 1) as nat),
        ;
        lemma_decimal_length(n / 10, (digits - 1) as nat);
    }
}

/// Root-owned storage for the one user permitted to use the biometric set: who
/// has to own the directory and its files.
#[derive(Clone, Copy, PartialEq, Eq, Structural)]
pub struct EnrollmentOwnerStore {
    expected_user_id: u32,
    expected_group_id: u32,
}

/// An owner's file that may be read: its facts are safe and its size is that of
/// a record.
#[derive(Clone, Copy, PartialEq, Eq, Structural)]
pub struct ReadableOwner {
    size: u64,
}

impl EnrollmentOwnerStore {
    /// The expected owner of the storage.
    pub closed spec fn user(self) -> u32 {
        self.expected_user_id
    }

    /// The expected group of the storage.
    pub closed spec fn group(self) -> u32 {
        self.expected_group_id
    }

    /// A private file of the expected user and group.
    pub open spec fn is_private_file(self, facts: FileFacts) -> bool {
        facts.is_file && facts.user_id == self.user() && facts.group_id == self.group()
            && facts.mode & PERMISSION_BITS == OWNER_FILE_MODE
    }

    /// A private directory of the expected user and group.
    pub open spec fn is_private_directory(self, facts: FileFacts) -> bool {
        facts.is_directory && facts.user_id == self.user() && facts.group_id == self.group()
            && facts.mode & PERMISSION_BITS == DIRECTORY_MODE
    }

    /// Production storage, owned by root.
    pub fn new() -> (r: EnrollmentOwnerStore)
        ensures
            r.user() == 0,
            r.group() == 0,
    {
        EnrollmentOwnerStore { expected_user_id: 0, expected_group_id: 0 }
    }

    /// Storage owned by another user and group.
    pub fn owned_by(user_id: u32, group_id: u32) -> (r: EnrollmentOwnerStore)
        ensures
            r.user() == user_id,
            r.group() == group_id,
    {
        EnrollmentOwnerStore { expected_user_id: user_id, expected_group_id: group_id }
    }

    /// Accepts a private file of the expected user and group.
    pub fn validate_private_file_metadata(&self, facts: &FileFacts) -> (r: Result<
        (),
        EnrollmentOwnerError,
    >)
        ensures
            r is Ok <==> self.is_private_file(*facts),
            r matches Err(error) ==> error == EnrollmentOwnerError::UnsafeStorage,
    {
        if !facts.is_file || facts.user_id != self.expected_user_id || facts.group_id
            != self.expected_group_id || facts.mode & PERMISSION_BITS != OWNER_FILE_MODE {
            return Err(EnrollmentOwnerError::UnsafeStorage);
        }
        Ok(())
    }

    /// What opening the directory means: a missing directory is a missing owner,
    /// anything but a private directory is unsafe.
    pub open spec fn directory_outcome(self, open: OpenOutcome) -> Result<(), EnrollmentOwnerError> {
        match open {
            OpenOutcome::Missing => Err(EnrollmentOwnerError::MissingOwner),
            OpenOutcome::Refused => Err(EnrollmentOwnerError::UnsafeStorage),
            OpenOutcome::Unknown => Err(EnrollmentOwnerError::StorageUnavailable),
            OpenOutcome::Opened(facts) => if self.is_private_directory(facts) {
                Ok(())
            } else {
                Err(EnrollmentOwnerError::UnsafeStorage)
            },
        }
    }

    /// Judges the opened directory.
    pub fn open_directory(&self, open: &OpenOutcome) -> (r: Result<(), EnrollmentOwnerError>)
        ensures
            r == self.directory_outcome(*open),
    {
        match open {
            OpenOutcome::Missing => Err(EnrollmentOwnerError::MissingOwner),
            OpenOutcome::Refused => Err(EnrollmentOwnerError::UnsafeStorage),
            OpenOutcome::Unknown => Err(EnrollmentOwnerError::StorageUnavailable),
            OpenOutcome::Opened(facts) => if !facts.is_directory || facts.user_id
                != self.expected_user_id || facts.group_id != self.expected_group_id || facts.mode
                & PERMISSION_BITS != DIRECTORY_MODE {
                Err(EnrollmentOwnerError::UnsafeStorage)
            } else {
                Ok(())
            },
        }
    }

    /// What comparing the opened directory with the one now at its path means.
    pub open spec fn identity_outcome(
        opened: Option<FileFacts>,
        current: Option<FileFacts>,
    ) -> Result<(), EnrollmentOwnerError> {
        match (opened, current) {
            (None, _) => Err(EnrollmentOwnerError::StorageUnavailable),
            (Some(_), None) => Err(EnrollmentOwnerError::UnsafeStorage),
            (Some(opened), Some(current)) => if current.is_directory && current.is_same_object(
                opened,
            ) {
                Ok(())
            } else {
                Err(EnrollmentOwnerError::UnsafeStorage)
            },
        }
    }

    /// Whether the opened directory is still the one at its path: `None` stands
    /// for facts that could not be read.
    pub fn ensure_directory_identity(
        &self,
        opened: Option<FileFacts>,
        current: Option<FileFacts>,
    ) -> (r: Result<(), EnrollmentOwnerError>)
        ensures
            r == Self::identity_outcome(opened, current),
    {
        match opened {
            None => Err(EnrollmentOwnerError::StorageUnavailable),
            Some(opened) => match current {
                None => Err(EnrollmentOwnerError::UnsafeStorage),
                Some(current) => if current.is_directory && current.device == opened.device
                    && current.inode == opened.inode {
                    Ok(())
                } else {
                    Err(EnrollmentOwnerError::UnsafeStorage)
                },
            },
        }
    }

    /// How many of the entries are pending links to the object `owner`, or the
    /// first entry's failure.
    pub open spec fn pending_links(self, entries: Seq<LinkEntry>, owner: FileFacts) -> Result<
        nat,
        EnrollmentOwnerError,
    >
        decreases entries.len(),
    {
        if entries.len() == 0 {
            Ok(0)
        } else {
            match self.pending_links(entries.drop_last(), owner) {
                Err(error) => Err(error),
                Ok(count) => match entries.last() {
                    LinkEntry::Unreadable => Err(EnrollmentOwnerError::StorageUnavailable),
                    LinkEntry::NotText => Err(EnrollmentOwnerError::UnsafeStorage),
                    LinkEntry::Named { name, open } => if !names_pending(name@) {
                        Ok(count)
                    } else {
                        match open {
                            OpenOutcome::Missing => Ok(count),
                            OpenOutcome::Refused => Err(EnrollmentOwnerError::UnsafeStorage),
                            OpenOutcome::Unknown => Err(EnrollmentOwnerError::StorageUnavailable),
                            OpenOutcome::Opened(facts) => if !self.is_private_file(facts) {
                                Err(EnrollmentOwnerError::UnsafeStorage)
                            } else if facts.is_same_object(owner) {
                                Ok(count + 1)
                            } else {
                                Ok(count)
                            },
                        }
                    },
                },
            }
        }
    }

    /// Failing early is failing.
    proof fn lemma_pending_links_fail_early(
        self,
        entries: Seq<LinkEntry>,
        owner: FileFacts,
        count: int,
    )
        requires
            0 <= count <= entries.len(),
            self.pending_links(entries.subrange(0, count), owner) is Err,
        ensures
            self.pending_links(entries, owner) == self.pending_links(
                entries.subrange(0, count),
                owner,
            ),
        decreases entries.len() - count,
    {
        if count == entries.len() {
            assert(entries.subrange(0, count) =~= entries);
        } else {
            let longer = entries.subrange(0, count + 1);
            assert(longer.drop_last() =~= entries.subrange(0, count));
            self.lemma_pending_links_fail_early(entries, owner, count + 1);
        }
    }

    fn count_pending_links(&self, entries: &Vec<LinkEntry>, owner: &FileFacts) -> (r: Result<
        u64,
        EnrollmentOwnerError,
    >)
        ensures
            match self.pending_links(entries@, *owner) {
                Ok(count) => r is Ok && r->Ok_0 == count,
                Err(error) => r == Err::<u64, EnrollmentOwnerError>(error),
            },
    {
        let mut count: u64 = 0;
        let mut i: usize = 0;
        assert(entries@.subrange(0, 0) =~= Seq::<LinkEntry>::empty());
        while i < entries.len()
            invariant
                i <= entries@.len(),
                count <= i,
                self.pending_links(entries@.subrange(0, i as int), *owner) == Ok::<
                    nat,
                    EnrollmentOwnerError,
                >(count as nat),
            decreases entries@.len() - i,
        {
            let ghost longer = entries@.subrange(0, i as int + 1);
            proof {
                assert(longer.drop_last() =~= entries@.subrange(0, i as int));
                assert(longer.last() == entries@[i as int]);
                if self.pending_links(longer, *owner) is Err {
                    self.lemma_pending_links_fail_early(entries@, *owner, i as int + 1);
                }
            }
            match &entries[i] {
                LinkEntry::Unreadable => {
                    return Err(EnrollmentOwnerError::StorageUnavailable);
                },
                LinkEntry::NotText => {
                    return Err(EnrollmentOwnerError::UnsafeStorage);
                },
                LinkEntry::Named { name, open } => {
                    if is_pending_name(name.as_slice()) {
                        match open {
                            OpenOutcome::Missing => {},
                            OpenOutcome::Refused => {
                                return Err(EnrollmentOwnerError::UnsafeStorage);
                            },
                            OpenOutcome::Unknown => {
                                return Err(EnrollmentOwnerError::StorageUnavailable);
                            },
                            OpenOutcome::Opened(facts) => {
                                if self.validate_private_file_metadata(facts).is_err() {
                                    return Err(EnrollmentOwnerError::UnsafeStorage);
                                }
                                if facts.device == owner.device && facts.inode == owner.inode {
                                    count = count + 1;
                                }
                            },
                        }
                    }
                },
            }
            i += 1;
        }
        assert(entries@.subrange(0, entries@.len() as int) =~= entries@);
        Ok(count)
    }

    /// What the owner's file, its directory's entries and the file's facts read
    /// again mean. One link is safe. More are safe only where every further link
    /// is a pending record of this directory that points to the same object, or
    /// where the publisher has meanwhile removed them all.
    pub open spec fn owner_file_outcome(
        self,
        facts: FileFacts,
        entries: Option<Seq<LinkEntry>>,
        current: Option<FileFacts>,
    ) -> Result<(), EnrollmentOwnerError> {
        if !self.is_private_file(facts) {
            Err(EnrollmentOwnerError::UnsafeStorage)
        } else if facts.links == 1 {
            Ok(())
        } else {
            match entries {
                None => Err(EnrollmentOwnerError::StorageUnavailable),
                Some(entries) => match self.pending_links(entries, facts) {
                    Err(error) => Err(error),
                    Ok(count) => match current {
                        None => Err(EnrollmentOwnerError::StorageUnavailable),
                        Some(current) => if !self.is_private_file(current) {
                            Err(EnrollmentOwnerError::UnsafeStorage)
                        } else if current.links == 1 {
                            Ok(())
                        } else if current.links == facts.links && count + 1 == current.links {
                            Ok(())
                        } else {
                            Err(EnrollmentOwnerError::UnsafeStorage)
                        },
                    },
                },
            }
        }
    }

    /// Judges the owner's file. `entries` are those of its directory and
    /// `current` are the file's facts read after them; both matter only where
    /// the file has more than one link.
    pub fn validate_owner_file_metadata(
        &self,
        facts: &FileFacts,
        entries: Option<&Vec<LinkEntry>>,
        current: Option<FileFacts>,
    ) -> (r: Result<(), EnrollmentOwnerError>)
        ensures
            r == self.owner_file_outcome(
                *facts,
                match entries {
                    Some(entries) => Some(entries@),
                    None => None,
                },
                current,
            ),
    {
        if self.validate_private_file_metadata(facts).is_err() {
            return Err(EnrollmentOwnerError::UnsafeStorage);
        }
        if facts.links == 1 {
            return Ok(());
        }
        let recognized: u64 = match entries {
            None => {
                return Err(EnrollmentOwnerError::StorageUnavailable);
            },
            Some(entries) => match self.count_pending_links(entries, facts) {
                Ok(recognized) => recognized,
                Err(error) => {
                    return Err(error);
                },
            },
        };
        match current {
            None => Err(EnrollmentOwnerError::StorageUnavailable),
            Some(current) => {
                if self.validate_private_file_metadata(&current).is_err() {
                    return Err(EnrollmentOwnerError::UnsafeStorage);
                }
                if current.links == 1 {
                    return Ok(());
                }
                if current.links != facts.links {
                    return Err(EnrollmentOwnerError::UnsafeStorage);
                }
                match recognized.checked_add(1) {
                    Some(links) => if links == current.links {
                        Ok(())
                    } else {
                        Err(EnrollmentOwnerError::UnsafeStorage)
                    },
                    None => Err(EnrollmentOwnerError::UnsafeStorage),
                }
            },
        }
    }

    /// What opening the owner's file means: whether a record may be read from
    /// it, and of which size.
    pub open spec fn readable_outcome(
        self,
        open: OpenOutcome,
        entries: Option<Seq<LinkEntry>>,
        current: Option<FileFacts>,
    ) -> Result<u64, EnrollmentOwnerError> {
        match open {
            OpenOutcome::Missing => Err(EnrollmentOwnerError::MissingOwner),
            OpenOutcome::Refused | OpenOutcome::Unknown => Err(
                EnrollmentOwnerError::StorageUnavailable,
            ),
            OpenOutcome::Opened(facts) => match self.owner_file_outcome(facts, entries, current) {
                Err(error) => Err(error),
                Ok(()) => if facts.size == 0 || facts.size > MAX_OWNER_FILE_SIZE {
                    Err(EnrollmentOwnerError::CorruptState)
                } else {
                    Ok(facts.size)
                },
            },
        }
    }

    /// Judges the opened owner's file before anything is read from it.
    pub fn owner_file_opened(
        &self,
        open: &OpenOutcome,
        entries: Option<&Vec<LinkEntry>>,
        current: Option<FileFacts>,
    ) -> (r: Result<ReadableOwner, EnrollmentOwnerError>)
        ensures
            match self.readable_outcome(
                *open,
                match entries {
                    Some(entries) => Some(entries@),
                    None => None,
                },
                current,
            ) {
                Ok(size) => r is Ok && r->Ok_0.length() == size,
                Err(error) => r == Err::<ReadableOwner, EnrollmentOwnerError>(error),
            },
    {
        match open {
            OpenOutcome::Missing => Err(EnrollmentOwnerError::MissingOwner),
            OpenOutcome::Refused => Err(EnrollmentOwnerError::StorageUnavailable),
            OpenOutcome::Unknown => Err(EnrollmentOwnerError::StorageUnavailable),
            OpenOutcome::Opened(facts) => match self.validate_owner_file_metadata(
                facts,
                entries,
                current,
            ) {
                Err(error) => Err(error),
                Ok(()) => if facts.size == 0 || facts.size > MAX_OWNER_FILE_SIZE {
                    Err(EnrollmentOwnerError::CorruptState)
                } else {
                    Ok(ReadableOwner { size: facts.size })
                },
            },
        }
    }

    /// The recorded owner, from the opened directory, the owner read from it and
    /// the directory's identity afterwards: the first failure counts.
    pub fn load(
        &self,
        directory: &OpenOutcome,
        owner: Result<EnrollmentOwner, EnrollmentOwnerError>,
        opened: Option<FileFacts>,
        current: Option<FileFacts>,
    ) -> (r: Result<EnrollmentOwner, EnrollmentOwnerError>)
        ensures
            r == match self.directory_outcome(*directory) {
                Err(error) => Err::<EnrollmentOwner, EnrollmentOwnerError>(error),
                Ok(()) => match owner {
                    Err(error) => Err(error),
                    Ok(owner) => match Self::identity_outcome(opened, current) {
                        Err(error) => Err(error),
                        Ok(()) => Ok(owner),
                    },
                },
            },
    {
        match self.open_directory(directory) {
            Err(error) => Err(error),
            Ok(()) => match owner {
                Err(error) => Err(error),
                Ok(owner) => match self.ensure_directory_identity(opened, current) {
                    Err(error) => Err(error),
                    Ok(()) => Ok(owner),
                },
            },
        }
    }

    /// The broker's peer-admission policy for the loaded owner.
    pub fn access_policy(&self, loaded: Result<EnrollmentOwner, EnrollmentOwnerError>) -> (r:
        Result<AccessPolicy, EnrollmentOwnerError>)
        ensures
            match loaded {
                Ok(owner) => r is Ok && r->Ok_0.owner() == owner.id(),
                Err(error) => r == Err::<AccessPolicy, EnrollmentOwnerError>(error),
            },
    {
        match loaded {
            Ok(owner) => match AccessPolicy::new(owner.as_raw()) {
                Ok(policy) => Ok(policy),
                Err(error) => Err(map_policy_error(error)),
            },
            Err(error) => Err(error),
        }
    }
}

impl ReadableOwner {
    /// The record's size.
    pub closed spec fn length(self) -> u64 {
        self.size
    }

    /// Decodes what was read from the file, at most one byte more than the
    /// longest record; `None` stands for bytes that could not be read as text.
    pub fn decode(self, content: Option<&Vec<u8>>) -> (r: Result<
        EnrollmentOwner,
        EnrollmentOwnerError,
    >)
        ensures
            r matches Ok(owner) ==> owner.id() != 0 && content is Some && content->0@
                == owner_record(owner.id()) && content->0@.len() == self.length(),
            r matches Err(error) ==> error == EnrollmentOwnerError::CorruptState && (content is None
                || content->0@.len() != self.length() || forall|user_id: u32|
                user_id != 0 ==> content->0@ != #[trigger] owner_record(user_id)),
    {
        match content {
            None => Err(EnrollmentOwnerError::CorruptState),
            Some(encoded) => {
                if encoded.len() as u64 != self.size {
                    return Err(EnrollmentOwnerError::CorruptState);
                }
                parse_owner(encoded.as_slice())
            },
        }
    }
}

/// A policy that cannot be formed counts as a corrupt record.
pub fn map_policy_error(error: PolicyError) -> (r: EnrollmentOwnerError)
    ensures
        r == EnrollmentOwnerError::CorruptState,
{
    EnrollmentOwnerError::CorruptState
}

/// One piece of work of a claim that either succeeds or fails.
#[derive(Clone, Copy, PartialEq, Eq, Structural)]
pub enum ClaimAction {
    /// Create the directory where it is absent, open it and judge it.
    OpenDirectory,
    /// An owner is recorded: check the directory's identity.
    CheckExisting(EnrollmentOwner),
    /// An owner is recorded: synchronize the directory, because an earlier
    /// publisher may have failed before it did.
    SyncExisting(EnrollmentOwner),
    /// Create a pending record exclusively.
    CreatePending,
    /// Set the pending record's permission bits.
    SecurePending,
    /// Read the pending record's facts and judge them.
    InspectPending,
    /// Write the owner's record into the pending record.
    WritePending,
    /// Synchronize the pending record.
    SyncPending,
    /// Check the directory's identity before publishing.
    CheckBeforePublish,
    /// Remove the pending name; `won` says whether this claim was published.
    RemovePending { won: bool },
    /// Synchronize the directory.
    SyncDirectory { won: bool },
    /// Check the directory's identity once more.
    CheckDirectory { won: bool },
}

/// One piece of work that reads the recorded owner.
#[derive(Clone, Copy, PartialEq, Eq, Structural)]
pub enum ClaimReading {
    /// Before anything is written.
    First,
    /// After a record was published, by this claim or by another.
    Published { won: bool },
}

/// Outcome of linking the pending record to the owner's name.
#[derive(Clone, Copy, Debug, PartialEq, Eq, Structural)]
pub enum PublishOutcome {
    Linked,
    AlreadyExists,
    Failed,
}

/// The work of a claim that comes next.
pub enum ClaimStep {
    /// Do it and report with [`PendingClaimAction::done`].
    Act(PendingClaimAction),
    /// Read the owner's file and report with [`PendingClaimRead::read`].
    Read(PendingClaimRead),
    /// Link the pending record to the owner's name and report with
    /// [`PendingPublication::published`].
    Publish(PendingPublication),
    /// The claim has ended.
    End(Result<OwnerClaim, EnrollmentOwnerError>),
}

/// A claim that waits for an action.
#[derive(Clone, Copy, PartialEq, Eq, Structural)]
pub struct PendingClaimAction {
    pub owner: EnrollmentOwner,
    pub action: ClaimAction,
}

/// A claim that waits for a reading.
#[derive(Clone, Copy, PartialEq, Eq, Structural)]
pub struct PendingClaimRead {
    pub owner: EnrollmentOwner,
    pub reading: ClaimReading,
}

/// A claim that waits for its publication.
#[derive(Clone, Copy, PartialEq, Eq, Structural)]
pub struct PendingPublication {
    pub owner: EnrollmentOwner,
}

impl EnrollmentOwnerStore {
    /// Begins to record the first enrollment owner, or to validate the same
    /// owner.
    pub fn claim(&self, owner: EnrollmentOwner) -> (r: ClaimStep)
        ensures
            r == ClaimStep::Act(PendingClaimAction { owner, action: ClaimAction::OpenDirectory }),
    {
        ClaimStep::Act(PendingClaimAction { owner, action: ClaimAction::OpenDirectory })
    }
}

impl PendingClaimAction {
    /// What the action writes: only the pending record has content, and it is the
    /// claiming owner's.
    pub open spec fn written(self) -> Seq<u8> {
        if self.action == ClaimAction::WritePending {
            owner_record(self.owner.id())
        } else {
            Seq::empty()
        }
    }

    /// What the action writes.
    pub fn content(&self) -> (r: Vec<u8>)
        ensures
            r@ == self.written(),
    {
        if let ClaimAction::WritePending = self.action {
            encode_owner(self.owner)
        } else {
            let nothing: Vec<u8> = Vec::new();
            assert(nothing@ =~= Seq::<u8>::empty());
            nothing
        }
    }

    /// What follows this action once it has succeeded.
    pub open spec fn following(self) -> ClaimStep {
        let owner = self.owner;
        match self.action {
            ClaimAction::OpenDirectory => ClaimStep::Read(
                PendingClaimRead { owner, reading: ClaimReading::First },
            ),
            ClaimAction::CheckExisting(existing) => ClaimStep::Act(
                PendingClaimAction { owner, action: ClaimAction::SyncExisting(existing) },
            ),
            ClaimAction::SyncExisting(existing) => ClaimStep::End(
                if existing == owner {
                    Ok(OwnerClaim::Existing)
                } else {
                    Err(EnrollmentOwnerError::DifferentOwner)
                },
            ),
            ClaimAction::CreatePending => ClaimStep::Act(
                PendingClaimAction { owner, action: ClaimAction::SecurePending },
            ),
            ClaimAction::SecurePending => ClaimStep::Act(
                PendingClaimAction { owner, action: ClaimAction::InspectPending },
            ),
            ClaimAction::InspectPending => ClaimStep::Act(
                PendingClaimAction { owner, action: ClaimAction::WritePending },
            ),
            ClaimAction::WritePending => ClaimStep::Act(
                PendingClaimAction { owner, action: ClaimAction::SyncPending },
            ),
            ClaimAction::SyncPending => ClaimStep::Act(
                PendingClaimAction { owner, action: ClaimAction::CheckBeforePublish },
            ),
            ClaimAction::CheckBeforePublish => ClaimStep::Publish(PendingPublication { owner }),
            ClaimAction::RemovePending { won } => ClaimStep::Act(
                PendingClaimAction { owner, action: ClaimAction::SyncDirectory { won } },
            ),
            ClaimAction::SyncDirectory { won } => ClaimStep::Act(
                PendingClaimAction { owner, action: ClaimAction::CheckDirectory { won } },
            ),
            ClaimAction::CheckDirectory { won } => ClaimStep::Read(
                PendingClaimRead { owner, reading: ClaimReading::Published { won } },
            ),
        }
    }

    /// Takes the outcome of the action; a failure ends the claim.
    pub fn done(self, outcome: Result<(), EnrollmentOwnerError>) -> (r: ClaimStep)
        ensures
            r == match outcome {
                Ok(()) => self.following(),
                Err(error) => ClaimStep::End(Err(error)),
            },
    {
        let owner = self.owner;
        if let Err(error) = outcome {
            return ClaimStep::End(Err(error));
        }
        let action = match self.action {
            ClaimAction::OpenDirectory => {
                return ClaimStep::Read(PendingClaimRead { owner, reading: ClaimReading::First });
            },
            ClaimAction::CheckExisting(existing) => ClaimAction::SyncExisting(existing),
            ClaimAction::SyncExisting(existing) => {
                return ClaimStep::End(
                    if existing == owner {
                        Ok(OwnerClaim::Existing)
                    } else {
                        Err(EnrollmentOwnerError::DifferentOwner)
                    },
                );
            },
            ClaimAction::CreatePending => ClaimAction::SecurePending,
            ClaimAction::SecurePending => ClaimAction::InspectPending,
            ClaimAction::InspectPending => ClaimAction::WritePending,
            ClaimAction::WritePending => ClaimAction::SyncPending,
            ClaimAction::SyncPending => ClaimAction::CheckBeforePublish,
            ClaimAction::CheckBeforePublish => {
                return ClaimStep::Publish(PendingPublication { owner });
            },
            ClaimAction::RemovePending { won } => ClaimAction::SyncDirectory { won },
            ClaimAction::SyncDirectory { won } => ClaimAction::CheckDirectory { won },
            ClaimAction::CheckDirectory { won } => {
                return ClaimStep::Read(
                    PendingClaimRead { owner, reading: ClaimReading::Published { won } },
                );
            },
        };
        ClaimStep::Act(PendingClaimAction { owner, action })
    }
}

impl PendingClaimRead {
    /// What follows the reading.
    pub open spec fn following(self, read: Result<EnrollmentOwner, EnrollmentOwnerError>) -> ClaimStep {
        let owner = self.owner;
        match (self.reading, read) {
            (ClaimReading::First, Ok(existing)) => ClaimStep::Act(
                PendingClaimAction { owner, action: ClaimAction::CheckExisting(existing) },
            ),
            (ClaimReading::First, Err(EnrollmentOwnerError::MissingOwner)) => ClaimStep::Act(
                PendingClaimAction { owner, action: ClaimAction::CreatePending },
            ),
            (ClaimReading::Published { won: true }, Ok(existing)) => ClaimStep::End(
                if existing == owner {
                    Ok(OwnerClaim::Recorded)
                } else {
                    Err(EnrollmentOwnerError::CorruptState)
                },
            ),
            (ClaimReading::Published { won: false }, Ok(existing)) => ClaimStep::End(
                if existing == owner {
                    Ok(OwnerClaim::Existing)
                } else {
                    Err(EnrollmentOwnerError::DifferentOwner)
                },
            ),
            (_, Err(error)) => ClaimStep::End(Err(error)),
        }
    }

    /// Takes the recorded owner, or why there is none.
    pub fn read(self, read: Result<EnrollmentOwner, EnrollmentOwnerError>) -> (r: ClaimStep)
        ensures
            r == self.following(read),
    {
        let owner = self.owner;
        match read {
            Ok(existing) => match self.reading {
                ClaimReading::First => ClaimStep::Act(
                    PendingClaimAction { owner, action: ClaimAction::CheckExisting(existing) },
                ),
                ClaimReading::Published { won } => ClaimStep::End(
                    if existing == owner {
                        if won {
                            Ok(OwnerClaim::Recorded)
                        } else {
                            Ok(OwnerClaim::Existing)
                        }
                    } else if won {
                        Err(EnrollmentOwnerError::CorruptState)
                    } else {
                        Err(EnrollmentOwnerError::DifferentOwner)
                    },
                ),
            },
            Err(error) => {
                if error == EnrollmentOwnerError::MissingOwner && self.reading
                    == ClaimReading::First {
                    return ClaimStep::Act(
                        PendingClaimAction { owner, action: ClaimAction::CreatePending },
                    );
                }
                ClaimStep::End(Err(error))
            },
        }
    }
}

impl PendingPublication {
    /// What follows the publication.
    pub open spec fn following(self, outcome: PublishOutcome) -> ClaimStep {
        let owner = self.owner;
        match outcome {
            PublishOutcome::Linked => ClaimStep::Act(
                PendingClaimAction { owner, action: ClaimAction::RemovePending { won: true } },
            ),
            PublishOutcome::AlreadyExists => ClaimStep::Act(
                PendingClaimAction { owner, action: ClaimAction::RemovePending { won: false } },
            ),
            PublishOutcome::Failed => ClaimStep::End(
                Err(EnrollmentOwnerError::StorageUnavailable),
            ),
        }
    }

    /// Takes the outcome of linking the pending record to the owner's name.
    pub fn published(self, outcome: PublishOutcome) -> (r: ClaimStep)
        ensures
            r == self.following(outcome),
    {
        let owner = self.owner;
        match outcome {
            PublishOutcome::Linked => ClaimStep::Act(
                PendingClaimAction { owner, action: ClaimAction::RemovePending { won: true } },
            ),
            PublishOutcome::AlreadyExists => ClaimStep::Act(
                PendingClaimAction { owner, action: ClaimAction::RemovePending { won: false } },
            ),
            PublishOutcome::Failed => ClaimStep::End(
                Err(EnrollmentOwnerError::StorageUnavailable),
            ),
        }
    }
}

/// One answer to the work that a claim asks for.
pub enum ClaimAnswer {
    Done(Result<(), EnrollmentOwnerError>),
    Read(Result<EnrollmentOwner, EnrollmentOwnerError>),
    Published(PublishOutcome),
}

/// The step that follows `step` on `answer`, where the answer is of the kind
/// that the step asks for.
pub open spec fn claim_follows(step: ClaimStep, answer: ClaimAnswer, next: ClaimStep) -> bool {
    match (step, answer) {
        (ClaimStep::Act(pending), ClaimAnswer::Done(Ok(()))) => next == pending.following(),
        (ClaimStep::Act(_), ClaimAnswer::Done(Err(error))) => next == ClaimStep::End(Err(error)),
        (ClaimStep::Read(pending), ClaimAnswer::Read(read)) => next == pending.following(read),
        (ClaimStep::Publish(pending), ClaimAnswer::Published(outcome)) => next == pending.following(
            outcome,
        ),
        _ => false,
    }
}

/// A run of a claim for `owner`: it begins with the claim's first step and every
/// step follows the one before it on the answer given.
pub open spec fn is_claim_run(
    owner: EnrollmentOwner,
    steps: Seq<ClaimStep>,
    answers: Seq<ClaimAnswer>,
) -> bool {
    &&& steps.len() == answers.len() + 1
    &&& steps[0] == ClaimStep::Act(
        PendingClaimAction { owner, action: ClaimAction::OpenDirectory },
    )
    &&& forall|k: int|
        0 <= k < answers.len() ==> claim_follows(#[trigger] steps[k], answers[k], steps[k + 1])
}

/// The step belongs to a claim for `owner`.
pub open spec fn claims_for(step: ClaimStep, owner: EnrollmentOwner) -> bool {
    match step {
        ClaimStep::Act(pending) => pending.owner == owner,
        ClaimStep::Read(pending) => pending.owner == owner,
        ClaimStep::Publish(pending) => pending.owner == owner,
        ClaimStep::End(_) => true,
    }
}

/// Every step of a claim's run is for its owner.
proof fn lemma_claim_run_keeps_its_owner(
    owner: EnrollmentOwner,
    steps: Seq<ClaimStep>,
    answers: Seq<ClaimAnswer>,
    k: int,
)
    requires
        is_claim_run(owner, steps, answers),
        0 <= k < steps.len(),
    ensures
        claims_for(steps[k], owner),
    decreases k,
{
    if k > 0 {
        lemma_claim_run_keeps_its_owner(owner, steps, answers, k - 1);
        assert(claim_follows(steps[k - 1], answers[k - 1], steps[k - 1 + 1]));
    }
}

/// A claim that succeeds has read its own owner from storage: somewhere in its
/// run the recorded owner was read and was the claiming one.
pub proof fn law_successful_claim_has_read_its_owner(
    owner: EnrollmentOwner,
    steps: Seq<ClaimStep>,
    answers: Seq<ClaimAnswer>,
    k: int,
    success: OwnerClaim,
)
    requires
        is_claim_run(owner, steps, answers),
        0 <= k < steps.len(),
        steps[k] == ClaimStep::End(Ok(success)),
    ensures
        exists|j: int|
            0 <= j < k && #[trigger] answers[j] == ClaimAnswer::Read(
                Ok::<EnrollmentOwner, EnrollmentOwnerError>(owner),
            ),
{
    lemma_claim_run_keeps_its_owner(owner, steps, answers, k - 1);
    assert(claim_follows(steps[k - 1], answers[k - 1], steps[k - 1 + 1]));
    match steps[k - 1] {
        ClaimStep::Read(_) => {},
        ClaimStep::Act(pending) => {
            assert(pending.action == ClaimAction::SyncExisting(owner));
            assert(claim_follows(steps[k - 2], answers[k - 2], steps[k - 2 + 1]));
            assert(steps[k - 2]->Act_0.action == ClaimAction::CheckExisting(owner));
            assert(claim_follows(steps[k - 3], answers[k - 3], steps[k - 3 + 1]));
            assert(answers[k - 3] == ClaimAnswer::Read(
                Ok::<EnrollmentOwner, EnrollmentOwnerError>(owner),
            ));
        },
        _ => {},
    }
}

/// Whether the step writes to storage.
pub open spec fn writes_storage(step: ClaimStep) -> bool {
    match step {
        ClaimStep::Publish(_) => true,
        ClaimStep::Act(pending) => !(pending.action is OpenDirectory
            || pending.action is CheckExisting || pending.action is SyncExisting),
        _ => false,
    }
}

/// Where an owner is recorded, a claim writes nothing: after that owner was read
/// first, only the directory's identity and synchronization follow.
pub proof fn law_recorded_owner_is_never_replaced(
    owner: EnrollmentOwner,
    steps: Seq<ClaimStep>,
    answers: Seq<ClaimAnswer>,
    existing: EnrollmentOwner,
    k: int,
)
    requires
        is_claim_run(owner, steps, answers),
        answers.len() >= 2,
        answers[1] == ClaimAnswer::Read(Ok::<EnrollmentOwner, EnrollmentOwnerError>(existing)),
        0 <= k < steps.len(),
    ensures
        !writes_storage(steps[k]),
        existing != owner && steps[k] is End ==> steps[k]->End_0 is Err,
{
    assert(claim_follows(steps[0], answers[0], steps[1]));
    assert(claim_follows(steps[1], answers[1], steps[2]));
    assert(steps[2] == ClaimStep::Act(
        PendingClaimAction { owner, action: ClaimAction::CheckExisting(existing) },
    ));
    if k >= 3 {
        assert(claim_follows(steps[2], answers[2], steps[3]));
    }
    if k >= 4 {
        assert(claim_follows(steps[3], answers[3], steps[4]));
        assert(steps[4] is End);
    }
    if k >= 5 {
        assert(claim_follows(steps[4], answers[4], steps[5]));
    }
}

/// At its `k`th step the run did `action`, successfully.
pub open spec fn succeeded_at(
    owner: EnrollmentOwner,
    steps: Seq<ClaimStep>,
    answers: Seq<ClaimAnswer>,
    k: int,
    action: ClaimAction,
) -> bool {
    steps[k] == ClaimStep::Act(PendingClaimAction { owner, action }) && answers[k] is Done
        && answers[k]->Done_0 is Ok
}

/// A record is published only once it has been created, secured, inspected,
/// written and synchronized and the directory's identity was checked, each
/// successfully.
pub proof fn law_only_complete_records_are_published(
    owner: EnrollmentOwner,
    steps: Seq<ClaimStep>,
    answers: Seq<ClaimAnswer>,
    k: int,
)
    requires
        is_claim_run(owner, steps, answers),
        0 <= k < steps.len(),
        steps[k] is Publish,
    ensures
        k == 8,
        answers[1] == ClaimAnswer::Read(
            Err::<EnrollmentOwner, EnrollmentOwnerError>(EnrollmentOwnerError::MissingOwner),
        ),
        succeeded_at(owner, steps, answers, 2, ClaimAction::CreatePending),
        succeeded_at(owner, steps, answers, 3, ClaimAction::SecurePending),
        succeeded_at(owner, steps, answers, 4, ClaimAction::InspectPending),
        succeeded_at(owner, steps, answers, 5, ClaimAction::WritePending),
        succeeded_at(owner, steps, answers, 6, ClaimAction::SyncPending),
        succeeded_at(owner, steps, answers, 7, ClaimAction::CheckBeforePublish),
{
    lemma_claim_prefix(owner, steps, answers, k);
    lemma_claim_prefix(owner, steps, answers, 7);
    lemma_claim_prefix(owner, steps, answers, 6);
    lemma_claim_prefix(owner, steps, answers, 5);
    lemma_claim_prefix(owner, steps, answers, 4);
    lemma_claim_prefix(owner, steps, answers, 3);
    lemma_claim_prefix(owner, steps, answers, 2);
    lemma_claim_prefix(owner, steps, answers, 1);
    assert(claim_follows(steps[7], answers[7], steps[8]));
    assert(claim_follows(steps[6], answers[6], steps[7]));
    assert(claim_follows(steps[5], answers[5], steps[6]));
    assert(claim_follows(steps[4], answers[4], steps[5]));
    assert(claim_follows(steps[3], answers[3], steps[4]));
    assert(claim_follows(steps[2], answers[2], steps[3]));
    assert(claim_follows(steps[1], answers[1], steps[2]));
}

/// The place of a step in every run that reaches it.
spec fn claim_place(step: ClaimStep) -> int {
    match step {
        ClaimStep::Read(pending) => match pending.reading {
            ClaimReading::First => 1,
            ClaimReading::Published { .. } => 12,
        },
        ClaimStep::Publish(_) => 8,
        ClaimStep::End(_) => 0,
        ClaimStep::Act(pending) => match pending.action {
            ClaimAction::OpenDirectory => 0,
            ClaimAction::CheckExisting(_) => 2,
            ClaimAction::SyncExisting(_) => 3,
            ClaimAction::CreatePending => 2,
            ClaimAction::SecurePending => 3,
            ClaimAction::InspectPending => 4,
            ClaimAction::WritePending => 5,
            ClaimAction::SyncPending => 6,
            ClaimAction::CheckBeforePublish => 7,
            ClaimAction::RemovePending { .. } => 9,
            ClaimAction::SyncDirectory { .. } => 10,
            ClaimAction::CheckDirectory { .. } => 11,
        },
    }
}

/// Every step that is no end stands at its place, and was reached through the
/// step before it.
proof fn lemma_claim_prefix(
    owner: EnrollmentOwner,
    steps: Seq<ClaimStep>,
    answers: Seq<ClaimAnswer>,
    k: int,
)
    requires
        is_claim_run(owner, steps, answers),
        0 <= k < steps.len(),
    ensures
        !(steps[k] is End) ==> claim_place(steps[k]) == k && claims_for(steps[k], owner),
        k > 0 ==> !(steps[k - 1] is End),
    decreases k,
{
    if k > 0 {
        lemma_claim_prefix(owner, steps, answers, k - 1);
        assert(claim_follows(steps[k - 1], answers[k - 1], steps[k - 1 + 1]));
    }
}

/// What reading the owner's name gives: that there is none, or what the record
/// decodes to.
pub open spec fn reads_as(
    record: Option<Seq<u8>>,
    read: Result<EnrollmentOwner, EnrollmentOwnerError>,
) -> bool {
    match (record, read) {
        (None, Err(error)) => error == EnrollmentOwnerError::MissingOwner,
        (Some(bytes), Ok(owner)) => owner.id() != 0 && bytes == owner_record(owner.id()),
        (Some(bytes), Err(error)) => error == EnrollmentOwnerError::CorruptState && forall|
            user_id: u32,
        |
            user_id != 0 ==> bytes != #[trigger] owner_record(user_id),
        _ => false,
    }
}

/// One of two claims on the same storage: its step, and the pending record that
/// only it writes.
pub struct Claimant {
    pub step: ClaimStep,
    pub pending: Option<Seq<u8>>,
}

/// Two claims on the same storage, and the bytes under the owner's name.
pub struct ClaimRace {
    pub record: Option<Seq<u8>>,
    pub first: Claimant,
    pub second: Claimant,
}

/// What storage that works answers to a step.
pub open spec fn storage_answers(
    step: ClaimStep,
    record: Option<Seq<u8>>,
    answer: ClaimAnswer,
) -> bool {
    match (step, answer) {
        (ClaimStep::Act(_), ClaimAnswer::Done(outcome)) => outcome is Ok,
        (ClaimStep::Read(_), ClaimAnswer::Read(read)) => reads_as(record, read),
        (ClaimStep::Publish(_), ClaimAnswer::Published(outcome)) => outcome == if record is None {
            PublishOutcome::Linked
        } else {
            PublishOutcome::AlreadyExists
        },
        _ => false,
    }
}

/// The pending record once the step is done.
pub open spec fn pending_after(claimant: Claimant) -> Option<Seq<u8>> {
    match claimant.step {
        ClaimStep::Act(work) => match work.action {
            ClaimAction::CreatePending => Some(Seq::empty()),
            ClaimAction::WritePending => Some(work.written()),
            ClaimAction::RemovePending { .. } => None,
            _ => claimant.pending,
        },
        _ => claimant.pending,
    }
}

/// The bytes under the owner's name once the step is done: a link puts the pending
/// record there only where nothing is.
pub open spec fn record_after(claimant: Claimant, record: Option<Seq<u8>>) -> Option<Seq<u8>> {
    if claimant.step is Publish && record is None {
        claimant.pending
    } else {
        record
    }
}

/// One claim does its step on storage that works.
pub open spec fn claimant_moves(
    before: Claimant,
    record: Option<Seq<u8>>,
    answer: ClaimAnswer,
    after: Claimant,
) -> bool {
    &&& storage_answers(before.step, record, answer)
    &&& claim_follows(before.step, answer, after.step)
    &&& after.pending == pending_after(before)
}

/// One of the two claims does its step, whichever comes next.
pub open spec fn race_follows(before: ClaimRace, answer: ClaimAnswer, after: ClaimRace) -> bool {
    ||| {
        &&& claimant_moves(before.first, before.record, answer, after.first)
        &&& after.record == record_after(before.first, before.record)
        &&& after.second == before.second
    }
    ||| {
        &&& claimant_moves(before.second, before.record, answer, after.second)
        &&& after.record == record_after(before.second, before.record)
        &&& after.first == before.first
    }
}

/// A claim that has just begun.
pub open spec fn begun_claim(owner: EnrollmentOwner) -> Claimant {
    Claimant {
        step: ClaimStep::Act(PendingClaimAction { owner, action: ClaimAction::OpenDirectory }),
        pending: None,
    }
}

/// Two claims that begin where no owner is recorded, and whose steps then come in
/// any order.
pub open spec fn is_claim_race(
    first: EnrollmentOwner,
    second: EnrollmentOwner,
    states: Seq<ClaimRace>,
    answers: Seq<ClaimAnswer>,
) -> bool {
    &&& states.len() == answers.len() + 1
    &&& states[0].record is None
    &&& states[0].first == begun_claim(first)
    &&& states[0].second == begun_claim(second)
    &&& forall|k: int|
        0 <= k < answers.len() ==> race_follows(#[trigger] states[k], answers[k], states[k + 1])
}

/// A claim that has published nothing and has not been told of another's record.
spec fn is_unpublished(claimant: Claimant, owner: EnrollmentOwner) -> bool {
    &&& claims_for(claimant.step, owner)
    &&& match claimant.step {
        ClaimStep::Read(pending) => pending.reading is First,
        ClaimStep::Publish(_) => claimant.pending == Some(owner_record(owner.id())),
        ClaimStep::Act(pending) => match pending.action {
            ClaimAction::OpenDirectory
            | ClaimAction::CreatePending
            | ClaimAction::SecurePending
            | ClaimAction::InspectPending
            | ClaimAction::WritePending => true,
            ClaimAction::SyncPending | ClaimAction::CheckBeforePublish => claimant.pending == Some(
                owner_record(owner.id()),
            ),
            _ => false,
        },
        ClaimStep::End(_) => false,
    }
}

/// A claim after its publication won or lost.
spec fn is_published(claimant: Claimant, owner: EnrollmentOwner, won: bool) -> bool {
    &&& claims_for(claimant.step, owner)
    &&& match claimant.step {
        ClaimStep::Read(pending) => pending.reading == ClaimReading::Published { won },
        ClaimStep::Act(pending) => pending.action == ClaimAction::RemovePending { won }
            || pending.action == ClaimAction::SyncDirectory { won } || pending.action
            == ClaimAction::CheckDirectory { won },
        _ => false,
    }
}

/// The result of a claim that found another's record.
pub open spec fn result_after(owner: EnrollmentOwner, recorded: EnrollmentOwner) -> Result<
    OwnerClaim,
    EnrollmentOwnerError,
> {
    if owner == recorded {
        Ok(OwnerClaim::Existing)
    } else {
        Err(EnrollmentOwnerError::DifferentOwner)
    }
}

/// The race is decided for the winner.
spec fn is_decided(
    winner: Claimant,
    recorded: EnrollmentOwner,
    loser: Claimant,
    other: EnrollmentOwner,
) -> bool {
    &&& is_published(winner, recorded, true) || winner.step == ClaimStep::End(
        Ok(OwnerClaim::Recorded),
    )
    &&& is_unpublished(loser, other) || is_published(loser, other, false) || loser.step
        == ClaimStep::Act(
        PendingClaimAction { owner: other, action: ClaimAction::CheckExisting(recorded) },
    ) || loser.step == ClaimStep::Act(
        PendingClaimAction { owner: other, action: ClaimAction::SyncExisting(recorded) },
    ) || loser.step == ClaimStep::End(result_after(other, recorded))
}

/// What holds at every point of a race.
spec fn race_stands(first: EnrollmentOwner, second: EnrollmentOwner, race: ClaimRace) -> bool {
    match race.record {
        None => is_unpublished(race.first, first) && is_unpublished(race.second, second),
        Some(bytes) => (bytes == owner_record(first.id()) && is_decided(
            race.first,
            first,
            race.second,
            second,
        )) || (bytes == owner_record(second.id()) && is_decided(
            race.second,
            second,
            race.first,
            first,
        )),
    }
}

proof fn lemma_records_are_read_back(
    owner: EnrollmentOwner,
    read: Result<EnrollmentOwner, EnrollmentOwnerError>,
)
    requires
        owner.id() != 0,
        reads_as(Some(owner_record(owner.id())), read),
    ensures
        read == Ok::<EnrollmentOwner, EnrollmentOwnerError>(owner),
{
    if let Ok(found) = read {
        law_owner_records_identify_their_owner(found.id(), owner.id());
    }
}

proof fn lemma_race_stands(
    first: EnrollmentOwner,
    second: EnrollmentOwner,
    states: Seq<ClaimRace>,
    answers: Seq<ClaimAnswer>,
    k: int,
)
    requires
        first.id() != 0,
        second.id() != 0,
        is_claim_race(first, second, states, answers),
        0 <= k < states.len(),
    ensures
        race_stands(first, second, states[k]),
    decreases k,
{
    if k > 0 {
        lemma_race_stands(first, second, states, answers, k - 1);
        let before = states[k - 1];
        assert(race_follows(before, answers[k - 1], states[k - 1 + 1]));
        if let ClaimAnswer::Read(read) = answers[k - 1] {
            if before.record == Some(owner_record(first.id())) {
                if reads_as(before.record, read) {
                    lemma_records_are_read_back(first, read);
                }
            }
            if before.record == Some(owner_record(second.id())) {
                if reads_as(before.record, read) {
                    lemma_records_are_read_back(second, read);
                }
            }
        }
    }
}

/// Of two first claims that race on storage that works, in whatever order their
/// steps come, exactly one records its owner. The other one finds that owner: it
/// fails where the owners differ. The record holds exactly the winner's bytes.
pub proof fn law_racing_claims_record_one_owner(
    first: EnrollmentOwner,
    second: EnrollmentOwner,
    states: Seq<ClaimRace>,
    answers: Seq<ClaimAnswer>,
    k: int,
)
    requires
        first.id() != 0,
        second.id() != 0,
        is_claim_race(first, second, states, answers),
        0 <= k < states.len(),
        states[k].first.step is End,
        states[k].second.step is End,
    ensures
        (states[k].first.step == ClaimStep::End(Ok(OwnerClaim::Recorded))
            && states[k].second.step == ClaimStep::End(result_after(second, first))
            && states[k].record == Some(owner_record(first.id()))) || (states[k].second.step
            == ClaimStep::End(Ok(OwnerClaim::Recorded)) && states[k].first.step == ClaimStep::End(
            result_after(first, second),
        ) && states[k].record == Some(owner_record(second.id()))),
{
    lemma_race_stands(first, second, states, answers, k);
}

/// What to do after one name was tried for a pending record.
#[derive(Clone, Copy, Debug, PartialEq, Eq)]
pub enum PendingNameStep {
    /// Try the next name; so many have been tried.
    Retry(u32),
    /// The search has ended.
    Done(Result<(), EnrollmentOwnerError>),
}

/// Outcome of creating a file exclusively.
#[derive(Clone, Copy, Debug, PartialEq, Eq, Structural)]
pub enum CreateOutcome {
    Created,
    AlreadyExists,
    Failed,
}

/// Takes the outcome of one name, where `tried` names had been tried before it.
/// Taken names are passed over, a bounded number of times.
pub fn pending_name_tried(tried: u32, outcome: CreateOutcome) -> (r: PendingNameStep)
    ensures
        r == match outcome {
            CreateOutcome::Created => PendingNameStep::Done(Ok(())),
            CreateOutcome::Failed => PendingNameStep::Done(
                Err(EnrollmentOwnerError::StorageUnavailable),
            ),
            CreateOutcome::AlreadyExists => if tried + 1 < PENDING_ATTEMPTS {
                PendingNameStep::Retry((tried + 1) as u32)
            } else {
                PendingNameStep::Done(Err(EnrollmentOwnerError::StorageUnavailable))
            },
        },
{
    match outcome {
        CreateOutcome::Created => PendingNameStep::Done(Ok(())),
        CreateOutcome::Failed => PendingNameStep::Done(
            Err(EnrollmentOwnerError::StorageUnavailable),
        ),
        CreateOutcome::AlreadyExists => if tried < PENDING_ATTEMPTS - 1 {
            PendingNameStep::Retry(tried + 1)
        } else {
            PendingNameStep::Done(Err(EnrollmentOwnerError::StorageUnavailable))
        },
    }
}

} // verus!
