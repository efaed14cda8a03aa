//! Durable, generation-atomic storage for catacombs and identity metadata.
//!
//! One small marker selects both blobs and optional validated metadata from a
//! private generation, so readers cannot combine artifacts across updates. The
//! caller performs the storage work; this module says what each answer of the
//! file system means.

use crate::bytes::{begins_with, has_prefix, rest_after, same_bytes, tail, to_vec};
use crate::catacomb_names::{
    active_marker, active_marker_bytes, decode_marker, generation_prefix, generation_prefix_bytes,
    is_generation_name, is_token, is_token_text, marker_content, names_generation, recovery_prefix,
    recovery_prefix_bytes, stage_prefix, stage_prefix_bytes, temporary_prefix,
    temporary_prefix_bytes,
};
use crate::catacomb_recovery::{names_in_order, sorted_names};
use crate::decimal::{append_decimal, decimal_text};
use crate::secret::{give_up, is_wiped, wipe};
use vstd::prelude::*;

verus! {

/// Longest marker.
pub const MAX_MARKER_SIZE: u64 = 128;

/// Permission bits of every file.
pub const FILE_MODE: u32 = 0o600;

/// Permission bits of every directory.
pub const DIRECTORY_MODE: u32 = 0o700;

/// All permission bits.
pub const PERMISSION_BITS: u32 = 0o777;

/// A storage failure that never contains catacomb bytes or identifiers.
#[derive(Clone, Copy, Debug, PartialEq, Eq, Structural)]
pub enum CatacombStoreError {
    MissingPair,
    IncompletePair,
    InvalidBlob,
    InvalidMetadata,
    StorageUnavailable,
    UnsafeStorage,
    PendingExport,
    InvalidTransactionState,
    PromotionDurabilityUnknown,
}

impl CatacombStoreError {
    /// The message, as text.
    pub open spec fn text(self) -> Seq<char> {
        match self {
            CatacombStoreError::MissingPair => "no active catacomb pair exists"@,
            CatacombStoreError::IncompletePair => "the active catacomb pair is incomplete"@,
            CatacombStoreError::InvalidBlob => "a catacomb blob has an invalid size"@,
            CatacombStoreError::InvalidMetadata => "catacomb identity metadata is invalid"@,
            CatacombStoreError::StorageUnavailable => "catacomb storage is unavailable"@,
            CatacombStoreError::UnsafeStorage => "catacomb storage has unsafe metadata"@,
            CatacombStoreError::PendingExport => "a catacomb export is pending recovery"@,
            CatacombStoreError::InvalidTransactionState => "catacomb transaction order is invalid"@,
            CatacombStoreError::PromotionDurabilityUnknown => "catacomb pair was promoted but its durability is unknown"@,
        }
    }

    /// The failure's name, as text.
    pub open spec fn name_text(self) -> Seq<char> {
        match self {
            CatacombStoreError::MissingPair => "MissingPair"@,
            CatacombStoreError::IncompletePair => "IncompletePair"@,
            CatacombStoreError::InvalidBlob => "InvalidBlob"@,
            CatacombStoreError::InvalidMetadata => "InvalidMetadata"@,
            CatacombStoreError::StorageUnavailable => "StorageUnavailable"@,
            CatacombStoreError::UnsafeStorage => "UnsafeStorage"@,
            CatacombStoreError::PendingExport => "PendingExport"@,
            CatacombStoreError::InvalidTransactionState => "InvalidTransactionState"@,
            CatacombStoreError::PromotionDurabilityUnknown => "PromotionDurabilityUnknown"@,
        }
    }

    /// The failure's name.
    pub fn name(self) -> (name: &'static str)
        ensures
            name@ == self.name_text(),
    {
        match self {
            CatacombStoreError::MissingPair => "MissingPair",
            CatacombStoreError::IncompletePair => "IncompletePair",
            CatacombStoreError::InvalidBlob => "InvalidBlob",
            CatacombStoreError::InvalidMetadata => "InvalidMetadata",
            CatacombStoreError::StorageUnavailable => "StorageUnavailable",
            CatacombStoreError::UnsafeStorage => "UnsafeStorage",
            CatacombStoreError::PendingExport => "PendingExport",
            CatacombStoreError::InvalidTransactionState => "InvalidTransactionState",
            CatacombStoreError::PromotionDurabilityUnknown => "PromotionDurabilityUnknown",
        }
    }

    /// A fixed message.
    pub fn message(self) -> (message: &'static str)
        ensures
            message@ == self.text(),
    {
        match self {
            CatacombStoreError::MissingPair => "no active catacomb pair exists",
            CatacombStoreError::IncompletePair => "the active catacomb pair is incomplete",
            CatacombStoreError::InvalidBlob => "a catacomb blob has an invalid size",
            CatacombStoreError::InvalidMetadata => "catacomb identity metadata is invalid",
            CatacombStoreError::StorageUnavailable => "catacomb storage is unavailable",
            CatacombStoreError::UnsafeStorage => "catacomb storage has unsafe metadata",
            CatacombStoreError::PendingExport => "a catacomb export is pending recovery",
            CatacombStoreError::InvalidTransactionState => "catacomb transaction order is invalid",
            CatacombStoreError::PromotionDurabilityUnknown => "catacomb pair was promoted but its durability is unknown",
        }
    }
}

/// One inseparable generation.
pub struct CatacombPair {
    master: Vec<u8>,
    user: Vec<u8>,
    metadata: Option<Vec<u8>>,
}

/// A generation as the contracts see it.
pub struct PairModel {
    pub master: Seq<u8>,
    pub user: Seq<u8>,
    pub metadata: Option<Seq<u8>>,
}

/// The bytes of an optional buffer.
pub open spec fn bytes_of(bytes: Option<Vec<u8>>) -> Option<Seq<u8>> {
    match bytes {
        Some(bytes) => Some(bytes@),
        None => None,
    }
}

impl View for CatacombPair {
    type V = PairModel;

    closed spec fn view(&self) -> PairModel {
        PairModel {
            master: self.master@,
            user: self.user@,
            metadata: bytes_of(self.metadata),
        }
    }
}

impl CatacombPair {
    /// Puts the members of one generation together.
    pub fn new(master: Vec<u8>, user: Vec<u8>, metadata: Option<Vec<u8>>) -> (r: CatacombPair)
        ensures
            r@ == (PairModel { master: master@, user: user@, metadata: bytes_of(metadata) }),
    {
        CatacombPair { master, user, metadata }
    }

    /// The master blob, which must be restored before the user blob.
    pub fn master(&self) -> (r: &[u8])
        ensures
            r@ == self@.master,
    {
        self.master.as_slice()
    }

    /// The user blob, which must be restored after the master blob.
    pub fn user(&self) -> (r: &[u8])
        ensures
            r@ == self@.user,
    {
        self.user.as_slice()
    }

    /// Validated opaque metadata, or nothing for a legacy generation.
    pub fn metadata(&self) -> (r: Option<&[u8]>)
        ensures
            match r {
                Some(bytes) => self@.metadata == Some(bytes@),
                None => self@.metadata is None,
            },
    {
        match &self.metadata {
            Some(bytes) => Some(bytes.as_slice()),
            None => None,
        }
    }

    /// The diagnostic rendering, as text.
    pub open spec fn diagnostic_text(self) -> Seq<char> {
        "CatacombPair { master_len: "@ + decimal_text(self@.master.len())
            + ", master: \"[redacted]\", user_len: "@ + decimal_text(self@.user.len())
            + ", user: \"[redacted]\", metadata: \"[redacted]\" }"@
    }

    /// The diagnostic rendering, which shows the blobs' lengths and no byte of the
    /// generation.
    pub fn diagnostic(&self) -> (rendering: String)
        ensures
            rendering@ == self.diagnostic_text(),
    {
        let mut rendering: String = String::from_str("CatacombPair { master_len: ");
        append_decimal(&mut rendering, self.master.len() as u64);
        rendering.append(", master: \"[redacted]\", user_len: ");
        append_decimal(&mut rendering, self.user.len() as u64);
        rendering.append(", user: \"[redacted]\", metadata: \"[redacted]\" }");
        assert(rendering@ =~= self.diagnostic_text());
        rendering
    }

    /// Overwrites every byte of the generation, before it is given up.
    pub fn wipe(&mut self)
        ensures
            is_wiped(final(self)@.master),
            is_wiped(final(self)@.user),
            final(self)@.metadata matches Some(metadata) ==> is_wiped(metadata),
            final(self)@.master.len() == old(self)@.master.len(),
            final(self)@.user.len() == old(self)@.user.len(),
            final(self)@.metadata is Some == old(self)@.metadata is Some,
            final(self)@.metadata matches Some(metadata) ==> metadata.len()
                == old(self)@.metadata->0.len(),
    {
        wipe(&mut self.master);
        wipe(&mut self.user);
        match &mut self.metadata {
            Some(bytes) => wipe(bytes),
            None => {},
        }
    }
}

/// What the file system says of one object of the store.
#[derive(Clone, Copy, Debug, PartialEq, Eq, Structural)]
pub struct StoredFacts {
    pub is_file: bool,
    pub is_directory: bool,
    pub mode: u32,
    pub owner: u32,
    pub links: u64,
    pub size: u64,
}

/// Outcome of opening one object of the store without following links.
#[derive(Clone, Copy, Debug, PartialEq, Eq, Structural)]
pub enum StoredObject {
    /// There is no such object.
    Missing,
    /// The object could not be opened.
    Refused,
    /// It was opened, but its facts could not be read.
    Unknown,
    /// It was opened and these are its facts.
    Opened(StoredFacts),
}

/// Outcome of reading exactly as many bytes as were permitted, and then one
/// more.
#[derive(Debug, PartialEq, Eq)]
pub enum StoredContent {
    /// Fewer bytes could be read.
    Short,
    /// The bytes were read, but what follows them could not be tried.
    EndUnknown,
    /// The bytes were read and more follow.
    Longer,
    /// The file holds exactly these bytes.
    Exact(Vec<u8>),
}

/// Largest sizes that the sensor's protocol and the identity manifest allow.
#[derive(Clone, Copy, Debug, PartialEq, Eq, Structural)]
pub struct StoreLimits {
    pub blob: usize,
    pub manifest: usize,
}

/// A store of opaque pairs below a caller-selected private directory: what it
/// accepts.
#[derive(Clone, Copy, Debug, PartialEq, Eq, Structural)]
pub struct CatacombPairStore {
    limits: StoreLimits,
}

impl CatacombPairStore {
    /// What the store accepts.
    pub closed spec fn bounds(self) -> StoreLimits {
        self.limits
    }

    /// A store with these limits.
    pub fn new(limits: StoreLimits) -> (r: CatacombPairStore)
        ensures
            r.bounds() == limits,
    {
        CatacombPairStore { limits }
    }

    /// What the store accepts.
    pub fn limits(&self) -> (r: StoreLimits)
        ensures
            r == self.bounds(),
    {
        self.limits
    }

    /// Begins to load exactly the generation that the active marker names.
    pub fn load(&self) -> (r: LoadStep)
        ensures
            r is OpenStore,
            r->OpenStore_0.bounds() == self.bounds(),
    {
        LoadStep::OpenStore(PendingStore { limits: self.limits })
    }
}

/// A regular private file of the expected owner with one link.
pub open spec fn is_private_file(
    is_file: bool,
    mode: u32,
    owner: u32,
    links: u64,
    expected_owner: u32,
) -> bool {
    is_file && mode & PERMISSION_BITS == FILE_MODE && owner == expected_owner && links == 1
}

/// Accepts a regular private file of the expected owner with one link.
pub fn validate_file_identity(
    is_file: bool,
    mode: u32,
    owner: u32,
    link_count: u64,
    expected_owner: u32,
) -> (r: Result<(), CatacombStoreError>)
    ensures
        r == if is_private_file(is_file, mode, owner, link_count, expected_owner) {
            Ok::<(), CatacombStoreError>(())
        } else {
            Err(CatacombStoreError::UnsafeStorage)
        },
{
    if !is_file || mode & PERMISSION_BITS != FILE_MODE || owner != expected_owner || link_count
        != 1 {
        return Err(CatacombStoreError::UnsafeStorage);
    }
    Ok(())
}

impl StoredFacts {
    /// What the facts of a file mean, where `expected` is the process's user if
    /// that could be found out.
    pub open spec fn file_outcome(self, expected: Option<u32>) -> Result<(), CatacombStoreError> {
        match expected {
            None => Err(CatacombStoreError::StorageUnavailable),
            Some(expected) => if is_private_file(
                self.is_file,
                self.mode,
                self.owner,
                self.links,
                expected,
            ) {
                Ok(())
            } else {
                Err(CatacombStoreError::UnsafeStorage)
            },
        }
    }

    /// What the facts of a directory mean.
    pub open spec fn directory_outcome(self, expected: Option<u32>) -> Result<
        (),
        CatacombStoreError,
    > {
        if !self.is_directory || self.mode & PERMISSION_BITS != DIRECTORY_MODE {
            Err(CatacombStoreError::UnsafeStorage)
        } else {
            match expected {
                None => Err(CatacombStoreError::StorageUnavailable),
                Some(expected) => if self.owner == expected {
                    Ok(())
                } else {
                    Err(CatacombStoreError::UnsafeStorage)
                },
            }
        }
    }

    /// Judges the facts of a file.
    pub fn validate_private_file_metadata(&self, expected: Option<u32>) -> (r: Result<
        (),
        CatacombStoreError,
    >)
        ensures
            r == self.file_outcome(expected),
    {
        match expected {
            None => Err(CatacombStoreError::StorageUnavailable),
            Some(expected) => validate_file_identity(
                self.is_file,
                self.mode,
                self.owner,
                self.links,
                expected,
            ),
        }
    }

    /// Judges the facts of a directory.
    pub fn validate_directory_metadata(&self, expected: Option<u32>) -> (r: Result<
        (),
        CatacombStoreError,
    >)
        ensures
            r == self.directory_outcome(expected),
    {
        if !self.is_directory || self.mode & PERMISSION_BITS != DIRECTORY_MODE {
            return Err(CatacombStoreError::UnsafeStorage);
        }
        match expected {
            None => Err(CatacombStoreError::StorageUnavailable),
            Some(expected) => if self.owner == expected {
                Ok(())
            } else {
                Err(CatacombStoreError::UnsafeStorage)
            },
        }
    }
}

/// What opening the store's directory means.
pub open spec fn store_outcome(open: StoredObject, expected: Option<u32>) -> Result<
    (),
    CatacombStoreError,
> {
    match open {
        StoredObject::Missing => Err(CatacombStoreError::MissingPair),
        StoredObject::Refused => Err(CatacombStoreError::UnsafeStorage),
        StoredObject::Unknown => Err(CatacombStoreError::StorageUnavailable),
        StoredObject::Opened(facts) => facts.directory_outcome(expected),
    }
}

/// Judges the opened store directory.
pub fn open_existing_directory(open: &StoredObject, expected: Option<u32>) -> (r: Result<
    (),
    CatacombStoreError,
>)
    ensures
        r == store_outcome(*open, expected),
{
    match open {
        StoredObject::Missing => Err(CatacombStoreError::MissingPair),
        StoredObject::Refused => Err(CatacombStoreError::UnsafeStorage),
        StoredObject::Unknown => Err(CatacombStoreError::StorageUnavailable),
        StoredObject::Opened(facts) => facts.validate_directory_metadata(expected),
    }
}

/// What opening a generation's directory means: it has to be there.
pub open spec fn generation_outcome(open: StoredObject, expected: Option<u32>) -> Result<
    (),
    CatacombStoreError,
> {
    match open {
        StoredObject::Missing | StoredObject::Refused => Err(CatacombStoreError::UnsafeStorage),
        StoredObject::Unknown => Err(CatacombStoreError::StorageUnavailable),
        StoredObject::Opened(facts) => facts.directory_outcome(expected),
    }
}

/// Judges an opened generation directory.
pub fn open_checked_directory(open: &StoredObject, expected: Option<u32>) -> (r: Result<
    (),
    CatacombStoreError,
>)
    ensures
        r == generation_outcome(*open, expected),
{
    match open {
        StoredObject::Missing => Err(CatacombStoreError::UnsafeStorage),
        StoredObject::Refused => Err(CatacombStoreError::UnsafeStorage),
        StoredObject::Unknown => Err(CatacombStoreError::StorageUnavailable),
        StoredObject::Opened(facts) => facts.validate_directory_metadata(expected),
    }
}

/// Whether a blob's size is valid.
pub open spec fn is_blob_size(size: int, limits: StoreLimits) -> bool {
    size != 0 && size <= limits.blob
}

/// Accepts a blob that is neither empty nor too large.
pub fn validate_blob(blob: &[u8], limits: &StoreLimits) -> (r: Result<(), CatacombStoreError>)
    ensures
        r is Ok <==> is_blob_size(blob@.len() as int, *limits),
        r matches Err(error) ==> error == CatacombStoreError::InvalidBlob,
{
    if blob.len() == 0 || blob.len() > limits.blob {
        return Err(CatacombStoreError::InvalidBlob);
    }
    Ok(())
}

/// Accepts metadata that is not too large and decodes.
pub fn validate_metadata(metadata: &[u8], decodes: bool, limits: &StoreLimits) -> (r: Result<
    (),
    CatacombStoreError,
>)
    ensures
        r is Ok <==> metadata@.len() <= limits.manifest && decodes,
        r matches Err(error) ==> error == CatacombStoreError::InvalidMetadata,
{
    if metadata.len() > limits.manifest || !decodes {
        return Err(CatacombStoreError::InvalidMetadata);
    }
    Ok(())
}

/// What opening a blob's file means: the size that may be read.
pub open spec fn blob_outcome(open: StoredObject, expected: Option<u32>, limits: StoreLimits) -> Result<
    usize,
    CatacombStoreError,
> {
    match open {
        StoredObject::Missing => Err(CatacombStoreError::IncompletePair),
        StoredObject::Refused => Err(CatacombStoreError::UnsafeStorage),
        StoredObject::Unknown => Err(CatacombStoreError::StorageUnavailable),
        StoredObject::Opened(facts) => match facts.file_outcome(expected) {
            Err(error) => Err(error),
            Ok(()) => if is_blob_size(facts.size as int, limits) {
                Ok(facts.size as usize)
            } else {
                Err(CatacombStoreError::InvalidBlob)
            },
        },
    }
}

/// Judges an opened blob before anything is read from it.
pub fn blob_opened(open: &StoredObject, expected: Option<u32>, limits: &StoreLimits) -> (r: Result<
    usize,
    CatacombStoreError,
>)
    ensures
        r == blob_outcome(*open, expected, *limits),
{
    match open {
        StoredObject::Missing => Err(CatacombStoreError::IncompletePair),
        StoredObject::Refused => Err(CatacombStoreError::UnsafeStorage),
        StoredObject::Unknown => Err(CatacombStoreError::StorageUnavailable),
        StoredObject::Opened(facts) => match facts.validate_private_file_metadata(expected) {
            Err(error) => Err(error),
            Ok(()) => if facts.size == 0 || facts.size > limits.blob as u64 {
                Err(CatacombStoreError::InvalidBlob)
            } else {
                Ok(facts.size as usize)
            },
        },
    }
}

/// Takes what was read of a blob's file: it has to be exactly the bytes that were
/// permitted, and these within the limits.
pub fn read_blob(content: StoredContent, limits: &StoreLimits) -> (r: Result<
    Vec<u8>,
    CatacombStoreError,
>)
    ensures
        r == match content {
            StoredContent::Short | StoredContent::EndUnknown => Err::<Vec<u8>, CatacombStoreError>(
                CatacombStoreError::StorageUnavailable,
            ),
            StoredContent::Longer => Err(CatacombStoreError::InvalidBlob),
            StoredContent::Exact(bytes) => if is_blob_size(bytes@.len() as int, *limits) {
                Ok(bytes)
            } else {
                Err(CatacombStoreError::InvalidBlob)
            },
        },
{
    match content {
        StoredContent::Short => Err(CatacombStoreError::StorageUnavailable),
        StoredContent::EndUnknown => Err(CatacombStoreError::StorageUnavailable),
        StoredContent::Longer => Err(CatacombStoreError::InvalidBlob),
        StoredContent::Exact(bytes) => match validate_blob(bytes.as_slice(), limits) {
            Ok(()) => Ok(bytes),
            Err(error) => {
                give_up(bytes);
                Err(error)
            },
        },
    }
}

/// What opening the metadata's file means: nothing to read in a legacy
/// generation, else the size that may be read.
pub open spec fn metadata_outcome(
    open: StoredObject,
    expected: Option<u32>,
    limits: StoreLimits,
) -> Result<Option<usize>, CatacombStoreError> {
    match open {
        StoredObject::Missing => Ok(None),
        StoredObject::Refused => Err(CatacombStoreError::UnsafeStorage),
        StoredObject::Unknown => Err(CatacombStoreError::StorageUnavailable),
        StoredObject::Opened(facts) => match facts.file_outcome(expected) {
            Err(error) => Err(error),
            Ok(()) => if facts.size <= limits.manifest {
                Ok(Some(facts.size as usize))
            } else {
                Err(CatacombStoreError::InvalidMetadata)
            },
        },
    }
}

/// Judges opened metadata before anything is read from it.
pub fn metadata_opened(open: &StoredObject, expected: Option<u32>, limits: &StoreLimits) -> (r:
    Result<Option<usize>, CatacombStoreError>)
    ensures
        r == metadata_outcome(*open, expected, *limits),
{
    match open {
        StoredObject::Missing => Ok(None),
        StoredObject::Refused => Err(CatacombStoreError::UnsafeStorage),
        StoredObject::Unknown => Err(CatacombStoreError::StorageUnavailable),
        StoredObject::Opened(facts) => match facts.validate_private_file_metadata(expected) {
            Err(error) => Err(error),
            Ok(()) => if facts.size > limits.manifest as u64 {
                Err(CatacombStoreError::InvalidMetadata)
            } else {
                Ok(Some(facts.size as usize))
            },
        },
    }
}

/// Takes what was read from the metadata's file; `decodes` says whether it is a
/// valid identity manifest.
pub fn read_metadata(content: StoredContent, decodes: bool, limits: &StoreLimits) -> (r: Result<
    Vec<u8>,
    CatacombStoreError,
>)
    ensures
        r == match content {
            StoredContent::Short | StoredContent::EndUnknown => Err::<Vec<u8>, CatacombStoreError>(
                CatacombStoreError::StorageUnavailable,
            ),
            StoredContent::Longer => Err(CatacombStoreError::InvalidMetadata),
            StoredContent::Exact(bytes) => if bytes@.len() <= limits.manifest && decodes {
                Ok(bytes)
            } else {
                Err(CatacombStoreError::InvalidMetadata)
            },
        },
{
    match content {
        StoredContent::Short => Err(CatacombStoreError::StorageUnavailable),
        StoredContent::EndUnknown => Err(CatacombStoreError::StorageUnavailable),
        StoredContent::Longer => Err(CatacombStoreError::InvalidMetadata),
        StoredContent::Exact(bytes) => match validate_metadata(bytes.as_slice(), decodes, limits) {
            Ok(()) => Ok(bytes),
            Err(error) => {
                give_up(bytes);
                Err(error)
            },
        },
    }
}

/// What opening the active marker means: the size that may be read.
pub open spec fn marker_outcome(open: StoredObject, expected: Option<u32>) -> Result<
    usize,
    CatacombStoreError,
> {
    match open {
        StoredObject::Missing => Err(CatacombStoreError::MissingPair),
        StoredObject::Refused => Err(CatacombStoreError::UnsafeStorage),
        StoredObject::Unknown => Err(CatacombStoreError::StorageUnavailable),
        StoredObject::Opened(facts) => match facts.file_outcome(expected) {
            Err(error) => Err(error),
            Ok(()) => if facts.size == 0 || facts.size > MAX_MARKER_SIZE {
                Err(CatacombStoreError::UnsafeStorage)
            } else {
                Ok(facts.size as usize)
            },
        },
    }
}

/// Judges the opened active marker before anything is read from it.
pub fn marker_opened(open: &StoredObject, expected: Option<u32>) -> (r: Result<
    usize,
    CatacombStoreError,
>)
    ensures
        r == marker_outcome(*open, expected),
{
    match open {
        StoredObject::Missing => Err(CatacombStoreError::MissingPair),
        StoredObject::Refused => Err(CatacombStoreError::UnsafeStorage),
        StoredObject::Unknown => Err(CatacombStoreError::StorageUnavailable),
        StoredObject::Opened(facts) => match facts.validate_private_file_metadata(expected) {
            Err(error) => Err(error),
            Ok(()) => if facts.size == 0 || facts.size > MAX_MARKER_SIZE {
                Err(CatacombStoreError::UnsafeStorage)
            } else {
                Ok(facts.size as usize)
            },
        },
    }
}

/// Takes what was read from the active marker: the generation that it selects.
pub fn read_active_generation(content: StoredContent) -> (r: Result<Vec<u8>, CatacombStoreError>)
    ensures
        match content {
            StoredContent::Short | StoredContent::EndUnknown => r == Err::<
                Vec<u8>,
                CatacombStoreError,
            >(CatacombStoreError::StorageUnavailable),
            StoredContent::Longer => r == Err::<Vec<u8>, CatacombStoreError>(
                CatacombStoreError::UnsafeStorage,
            ),
            StoredContent::Exact(bytes) => match r {
                Ok(name) => names_generation(name@) && bytes@ == marker_content(name@),
                Err(error) => error == CatacombStoreError::UnsafeStorage && forall|
                    selected: Seq<u8>,
                |
                    names_generation(selected) ==> bytes@ != #[trigger] marker_content(selected),
            },
        },
{
    match content {
        StoredContent::Short => Err(CatacombStoreError::StorageUnavailable),
        StoredContent::EndUnknown => Err(CatacombStoreError::StorageUnavailable),
        StoredContent::Longer => Err(CatacombStoreError::UnsafeStorage),
        StoredContent::Exact(bytes) => match decode_marker(bytes.as_slice()) {
            Some(name) => Ok(name),
            None => Err(CatacombStoreError::UnsafeStorage),
        },
    }
}

/// The next work of loading the active generation. Every failure ends it; the
/// master is read before the user.
pub enum LoadStep {
    /// Open the store's directory and report with [`PendingStore::opened`].
    OpenStore(PendingStore),
    /// Read the active marker and report with [`PendingMarker::read`].
    ReadMarker(PendingMarker),
    /// Read the generation and report with [`PairReading`]'s methods.
    ReadPair(PairReading),
    /// Loading has ended.
    End(Result<CatacombPair, CatacombStoreError>),
}

/// Loading that waits for the store's directory.
pub struct PendingStore {
    limits: StoreLimits,
}

/// Loading that waits for the active marker.
pub struct PendingMarker {
    limits: StoreLimits,
}

impl PendingStore {
    /// The store's limits.
    pub closed spec fn bounds(self) -> StoreLimits {
        self.limits
    }

    /// Takes the judged store directory.
    pub fn opened(self, outcome: Result<(), CatacombStoreError>) -> (r: LoadStep)
        ensures
            load_follows(LoadStep::OpenStore(self), LoadAnswer::Store(outcome), r),
    {
        match outcome {
            Ok(()) => LoadStep::ReadMarker(PendingMarker { limits: self.limits }),
            Err(error) => LoadStep::End(Err(error)),
        }
    }
}

impl PendingMarker {
    /// The store's limits.
    pub closed spec fn bounds(self) -> StoreLimits {
        self.limits
    }

    /// Takes the generation that the marker selects; a name that is none is
    /// unsafe.
    pub fn read(self, outcome: Result<Vec<u8>, CatacombStoreError>) -> (r: LoadStep)
        ensures
            load_follows(LoadStep::ReadMarker(self), LoadAnswer::Marker(outcome), r),
    {
        match outcome {
            Ok(generation) => if is_generation_name(generation.as_slice()) {
                LoadStep::ReadPair(PairReading::begin(generation, self.limits))
            } else {
                LoadStep::End(Err(CatacombStoreError::UnsafeStorage))
            },
            Err(error) => LoadStep::End(Err(error)),
        }
    }
}

/// The next part of one generation to read.
#[derive(Clone, Copy, Debug, PartialEq, Eq, Structural)]
pub enum PairPart {
    /// Open and judge its directory.
    Directory,
    /// Read the master blob.
    Master,
    /// Read the user blob.
    User,
    /// Read the optional metadata.
    Metadata,
}

/// A generation that is being read, and what was read of it.
pub struct PairReading {
    generation: Vec<u8>,
    limits: StoreLimits,
    part: PairPart,
    master: Vec<u8>,
    user: Vec<u8>,
}

/// A reading as the contracts see it.
pub struct ReadingModel {
    pub generation: Seq<u8>,
    pub limits: StoreLimits,
    pub part: PairPart,
    pub master: Seq<u8>,
    pub user: Seq<u8>,
}

impl ReadingModel {
    /// A reading that has read nothing.
    pub open spec fn begun(generation: Seq<u8>, limits: StoreLimits) -> ReadingModel {
        ReadingModel {
            generation,
            limits,
            part: PairPart::Directory,
            master: Seq::empty(),
            user: Seq::empty(),
        }
    }

    /// The blobs that were read are within the limits.
    pub open spec fn is_bounded(self) -> bool {
        &&& self.part == PairPart::User || self.part == PairPart::Metadata ==> is_blob_size(
            self.master.len() as int,
            self.limits,
        )
        &&& self.part == PairPart::Metadata ==> is_blob_size(self.user.len() as int, self.limits)
    }
}

impl View for PairReading {
    type V = ReadingModel;

    closed spec fn view(&self) -> ReadingModel {
        ReadingModel {
            generation: self.generation@,
            limits: self.limits,
            part: self.part,
            master: self.master@,
            user: self.user@,
        }
    }
}

/// What was read of one part.
pub enum PairAnswer {
    Directory(Result<(), CatacombStoreError>),
    Blob(Result<Vec<u8>, CatacombStoreError>),
    Metadata(Result<Option<Vec<u8>>, CatacombStoreError>),
}

/// What follows one part of a generation.
pub enum PairProgress {
    Next(PairReading),
    End(Result<CatacombPair, CatacombStoreError>),
}

/// A pair whose members are within the limits.
pub open spec fn is_bounded_pair(pair: PairModel, limits: StoreLimits) -> bool {
    &&& is_blob_size(pair.master.len() as int, limits)
    &&& is_blob_size(pair.user.len() as int, limits)
    &&& pair.metadata matches Some(metadata) ==> metadata.len() <= limits.manifest
}

/// What follows a part on its answer: the first failure ends the reading, a blob
/// or a manifest beyond the limits is one, and only a generation whose every part
/// was read is put together.
pub open spec fn reading_follows(
    reading: ReadingModel,
    answer: PairAnswer,
    r: PairProgress,
) -> bool {
    match (reading.part, answer) {
        (PairPart::Directory, PairAnswer::Directory(Ok(()))) => r is Next && r->Next_0@ == (
        ReadingModel { part: PairPart::Master, ..reading }),
        (PairPart::Master, PairAnswer::Blob(Ok(master))) => if is_blob_size(
            master@.len() as int,
            reading.limits,
        ) {
            r is Next && r->Next_0@ == (ReadingModel {
                part: PairPart::User,
                master: master@,
                ..reading
            })
        } else {
            r == PairProgress::End(Err(CatacombStoreError::InvalidBlob))
        },
        (PairPart::User, PairAnswer::Blob(Ok(user))) => if is_blob_size(
            user@.len() as int,
            reading.limits,
        ) {
            r is Next && r->Next_0@ == (ReadingModel {
                part: PairPart::Metadata,
                user: user@,
                ..reading
            })
        } else {
            r == PairProgress::End(Err(CatacombStoreError::InvalidBlob))
        },
        (PairPart::Metadata, PairAnswer::Metadata(Ok(metadata))) => if bytes_of(metadata) matches
            Some(bytes) && bytes.len() > reading.limits.manifest {
            r == PairProgress::End(Err(CatacombStoreError::InvalidMetadata))
        } else {
            r is End && r->End_0 is Ok && r->End_0->Ok_0@ == (PairModel {
                master: reading.master,
                user: reading.user,
                metadata: bytes_of(metadata),
            })
        },
        (PairPart::Directory, PairAnswer::Directory(Err(error))) => r == PairProgress::End(
            Err(error),
        ),
        (PairPart::Master, PairAnswer::Blob(Err(error))) => r == PairProgress::End(Err(error)),
        (PairPart::User, PairAnswer::Blob(Err(error))) => r == PairProgress::End(Err(error)),
        (PairPart::Metadata, PairAnswer::Metadata(Err(error))) => r == PairProgress::End(
            Err(error),
        ),
        _ => false,
    }
}

impl PairReading {
    /// The blobs that were read are within the limits.
    #[verifier::type_invariant]
    spec fn is_valid(self) -> bool {
        self@.is_bounded()
    }

    /// Begins to read a generation within the limits.
    pub fn begin(generation: Vec<u8>, limits: StoreLimits) -> (r: PairReading)
        ensures
            r@ == ReadingModel::begun(generation@, limits),
    {
        let master: Vec<u8> = Vec::new();
        let user: Vec<u8> = Vec::new();
        assert(master@ =~= Seq::<u8>::empty());
        assert(user@ =~= Seq::<u8>::empty());
        PairReading { generation, limits, part: PairPart::Directory, master, user }
    }

    /// The generation's name.
    pub fn generation(&self) -> (r: &[u8])
        ensures
            r@ == self@.generation,
    {
        self.generation.as_slice()
    }

    /// The part to read next.
    pub fn part(&self) -> (r: PairPart)
        ensures
            r == self@.part,
    {
        self.part
    }

    /// The limits that the generation is read within.
    pub fn limits(&self) -> (r: StoreLimits)
        ensures
            r == self@.limits,
    {
        self.limits
    }

    /// Whether the answer is of the kind that the part asks for.
    pub open spec fn expects(self, answer: PairAnswer) -> bool {
        match self@.part {
            PairPart::Directory => answer is Directory,
            PairPart::Master | PairPart::User => answer is Blob,
            PairPart::Metadata => answer is Metadata,
        }
    }

    /// Takes what was read of the part. A pair that is put together is within the
    /// limits.
    pub fn answered(self, answer: PairAnswer) -> (r: PairProgress)
        requires
            self.expects(answer),
        ensures
            reading_follows(self@, answer, r),
            r matches PairProgress::End(Ok(pair)) ==> is_bounded_pair(pair@, self@.limits),
            load_follows(LoadStep::ReadPair(self), LoadAnswer::Part(answer), load_step(r)),
    {
        proof {
            use_type_invariant(&self);
        }
        let generation = self.generation;
        let limits = self.limits;
        match answer {
            PairAnswer::Directory(Ok(())) => PairProgress::Next(
                PairReading {
                    generation,
                    limits,
                    part: PairPart::Master,
                    master: self.master,
                    user: self.user,
                },
            ),
            PairAnswer::Blob(Ok(blob)) => {
                if let Err(error) = validate_blob(blob.as_slice(), &limits) {
                    give_up(blob);
                    give_up(self.master);
                    return PairProgress::End(Err(error));
                }
                if let PairPart::Master = self.part {
                    PairProgress::Next(
                        PairReading {
                            generation,
                            limits,
                            part: PairPart::User,
                            master: blob,
                            user: self.user,
                        },
                    )
                } else {
                    PairProgress::Next(
                        PairReading {
                            generation,
                            limits,
                            part: PairPart::Metadata,
                            master: self.master,
                            user: blob,
                        },
                    )
                }
            },
            PairAnswer::Metadata(Ok(metadata)) => {
                let oversized = match &metadata {
                    Some(bytes) => bytes.len() > limits.manifest,
                    None => false,
                };
                if oversized {
                    if let Some(bytes) = metadata {
                        give_up(bytes);
                    }
                    give_up(self.master);
                    give_up(self.user);
                    return PairProgress::End(Err(CatacombStoreError::InvalidMetadata));
                }
                PairProgress::End(Ok(CatacombPair::new(self.master, self.user, metadata)))
            },
            PairAnswer::Directory(Err(error)) => PairProgress::End(Err(error)),
            PairAnswer::Blob(Err(error)) => {
                give_up(self.master);
                PairProgress::End(Err(error))
            },
            PairAnswer::Metadata(Err(error)) => {
                give_up(self.master);
                give_up(self.user);
                PairProgress::End(Err(error))
            },
        }
    }
}

/// One answer to the work that loading asks for.
pub enum LoadAnswer {
    Store(Result<(), CatacombStoreError>),
    Marker(Result<Vec<u8>, CatacombStoreError>),
    Part(PairAnswer),
}

/// The step of a load that a reading's progress is.
pub open spec fn load_step(progress: PairProgress) -> LoadStep {
    match progress {
        PairProgress::Next(reading) => LoadStep::ReadPair(reading),
        PairProgress::End(result) => LoadStep::End(result),
    }
}

/// The step that follows `step` on `answer`, where the answer is of the kind that
/// the step asks for.
pub open spec fn load_follows(step: LoadStep, answer: LoadAnswer, next: LoadStep) -> bool {
    match (step, answer) {
        (LoadStep::OpenStore(pending), LoadAnswer::Store(outcome)) => match outcome {
            Ok(()) => next is ReadMarker && next->ReadMarker_0.bounds() == pending.bounds(),
            Err(error) => next == LoadStep::End(Err(error)),
        },
        (LoadStep::ReadMarker(pending), LoadAnswer::Marker(outcome)) => match outcome {
            Ok(name) => if names_generation(name@) {
                next is ReadPair && next->ReadPair_0@ == ReadingModel::begun(
                    name@,
                    pending.bounds(),
                )
            } else {
                next == LoadStep::End(Err(CatacombStoreError::UnsafeStorage))
            },
            Err(error) => next == LoadStep::End(Err(error)),
        },
        (LoadStep::ReadPair(reading), LoadAnswer::Part(answer)) => exists|progress: PairProgress|
            #[trigger] load_step(progress) == next && reading_follows(
                reading@,
                answer,
                progress,
            ),
        _ => false,
    }
}

/// One entry of the store's directory.
#[derive(Debug, PartialEq, Eq)]
pub enum StoreEntry {
    /// The entry could not be read.
    Unreadable,
    /// The entry's name is no text.
    NotText,
    /// The entry's name.
    Named(Vec<u8>),
}

/// Whether a name belongs to the catacombs' namespace, well-formed or not.
pub open spec fn is_catacomb_name(name: Seq<u8>) -> bool {
    name == active_marker() || has_prefix(name, generation_prefix()) || has_prefix(
        name,
        stage_prefix(),
    ) || has_prefix(name, recovery_prefix()) || has_prefix(name, temporary_prefix())
}

/// Whether a name belongs to the catacombs' namespace.
pub fn in_catacomb_namespace(name: &[u8]) -> (r: bool)
    ensures
        r == is_catacomb_name(name@),
{
    same_bytes(name, active_marker_bytes().as_slice()) || begins_with(
        name,
        generation_prefix_bytes().as_slice(),
    ) || begins_with(name, stage_prefix_bytes().as_slice()) || begins_with(
        name,
        recovery_prefix_bytes().as_slice(),
    ) || begins_with(name, temporary_prefix_bytes().as_slice())
}

/// Whether none of the entries is a catacomb's, unless an entry before such a
/// one cannot be judged.
pub open spec fn emptiness(entries: Seq<StoreEntry>) -> Result<bool, CatacombStoreError>
    decreases entries.len(),
{
    if entries.len() == 0 {
        Ok(true)
    } else {
        match entries[0] {
            StoreEntry::Unreadable => Err(CatacombStoreError::StorageUnavailable),
            StoreEntry::NotText => Err(CatacombStoreError::UnsafeStorage),
            StoreEntry::Named(name) => if is_catacomb_name(name@) {
                Ok(false)
            } else {
                emptiness(entries.subrange(1, entries.len() as int))
            },
        }
    }
}

/// What the store's directory and its entries mean for a first owner: an absent
/// store is empty, one that cannot be inspected is an error.
pub open spec fn first_owner_outcome(
    directory: Result<(), CatacombStoreError>,
    entries: Option<Seq<StoreEntry>>,
) -> Result<bool, CatacombStoreError> {
    match directory {
        Err(CatacombStoreError::MissingPair) => Ok(true),
        Err(error) => Err(error),
        Ok(()) => match entries {
            None => Err(CatacombStoreError::StorageUnavailable),
            Some(entries) => emptiness(entries),
        },
    }
}

impl CatacombPairStore {
    /// Reports whether first-owner enrollment can safely claim an empty store.
    ///
    /// Any active, staged, pending or inactive catacomb entry counts as biometric
    /// state, including malformed lookalikes, because missing owner metadata must
    /// never transfer existing fingerprints to a new user. Other state kept beside
    /// catacombs is ignored.
    pub fn is_empty_for_first_owner(
        &self,
        directory: Result<(), CatacombStoreError>,
        listing: Option<&Vec<StoreEntry>>,
    ) -> (r: Result<bool, CatacombStoreError>)
        ensures
            r == first_owner_outcome(
                directory,
                match listing {
                    Some(entries) => Some(entries@),
                    None => None,
                },
            ),
    {
        match directory {
            Err(CatacombStoreError::MissingPair) => {
                return Ok(true);
            },
            Err(error) => {
                return Err(error);
            },
            Ok(()) => {},
        }
        let entries = match listing {
            None => {
                return Err(CatacombStoreError::StorageUnavailable);
            },
            Some(entries) => entries,
        };
        let mut i: usize = 0;
        assert(entries@.subrange(0, entries@.len() as int) =~= entries@);
        while i < entries.len()
            invariant
                i <= entries@.len(),
                listing == Some(entries),
                directory is Ok,
                emptiness(entries@) == emptiness(entries@.subrange(i as int, entries@.len() as int)),
            decreases entries@.len() - i,
        {
            let ghost rest = entries@.subrange(i as int, entries@.len() as int);
            assert(rest[0] == entries@[i as int]);
            assert(rest.subrange(1, rest.len() as int) =~= entries@.subrange(
                i as int + 1,
                entries@.len() as int,
            ));
            match &entries[i] {
                StoreEntry::Unreadable => {
                    return Err(CatacombStoreError::StorageUnavailable);
                },
                StoreEntry::NotText => {
                    return Err(CatacombStoreError::UnsafeStorage);
                },
                StoreEntry::Named(name) => {
                    if in_catacomb_namespace(name.as_slice()) {
                        return Ok(false);
                    }
                },
            }
            i += 1;
        }
        Ok(true)
    }
}

/// A store is reported empty only where no entry belongs to the catacombs.
pub proof fn law_empty_store_holds_no_catacomb(entries: Seq<StoreEntry>, i: int)
    requires
        emptiness(entries) == Ok::<bool, CatacombStoreError>(true),
        0 <= i < entries.len(),
    ensures
        entries[i] is Named,
        !is_catacomb_name(entries[i]->Named_0@),
    decreases entries.len(),
{
    if i > 0 {
        let rest = entries.subrange(1, entries.len() as int);
        law_empty_store_holds_no_catacomb(rest, i - 1);
        assert(rest[i - 1] == entries[i]);
    }
}

/// Whether an export is pending recovery, unless an entry before its reservation
/// cannot be judged.
pub open spec fn pending_outcome(entries: Seq<StoreEntry>) -> Result<(), CatacombStoreError>
    decreases entries.len(),
{
    if entries.len() == 0 {
        Ok(())
    } else {
        match entries[0] {
            StoreEntry::Unreadable => Err(CatacombStoreError::StorageUnavailable),
            StoreEntry::NotText => Err(CatacombStoreError::UnsafeStorage),
            StoreEntry::Named(name) => if has_prefix(name@, recovery_prefix()) {
                Err(CatacombStoreError::PendingExport)
            } else {
                pending_outcome(entries.subrange(1, entries.len() as int))
            },
        }
    }
}

/// Refuses a new export while one is pending recovery; `None` stands for a
/// directory that could not be read.
pub fn reject_recovery_state(listing: Option<&Vec<StoreEntry>>) -> (r: Result<
    (),
    CatacombStoreError,
>)
    ensures
        r == match listing {
            None => Err::<(), CatacombStoreError>(CatacombStoreError::StorageUnavailable),
            Some(entries) => pending_outcome(entries@),
        },
{
    let entries = match listing {
        None => {
            return Err(CatacombStoreError::StorageUnavailable);
        },
        Some(entries) => entries,
    };
    let prefix = recovery_prefix_bytes();
    let mut i: usize = 0;
    assert(entries@.subrange(0, entries@.len() as int) =~= entries@);
    while i < entries.len()
        invariant
            i <= entries@.len(),
            listing == Some(entries),
            prefix@ == recovery_prefix(),
            pending_outcome(entries@) == pending_outcome(
                entries@.subrange(i as int, entries@.len() as int),
            ),
        decreases entries@.len() - i,
    {
        let ghost rest = entries@.subrange(i as int, entries@.len() as int);
        assert(rest[0] == entries@[i as int]);
        assert(rest.subrange(1, rest.len() as int) =~= entries@.subrange(
            i as int + 1,
            entries@.len() as int,
        ));
        match &entries[i] {
            StoreEntry::Unreadable => {
                return Err(CatacombStoreError::StorageUnavailable);
            },
            StoreEntry::NotText => {
                return Err(CatacombStoreError::UnsafeStorage);
            },
            StoreEntry::Named(name) => {
                if begins_with(name.as_slice(), prefix.as_slice()) {
                    return Err(CatacombStoreError::PendingExport);
                }
            },
        }
        i += 1;
    }
    Ok(())
}

/// While any recovery reservation stands, no new export begins.
pub proof fn law_pending_export_blocks_new_exports(entries: Seq<StoreEntry>, i: int)
    requires
        0 <= i < entries.len(),
        entries[i] is Named,
        has_prefix(entries[i]->Named_0@, recovery_prefix()),
    ensures
        pending_outcome(entries) is Err,
    decreases entries.len(),
{
    if i > 0 {
        let rest = entries.subrange(1, entries.len() as int);
        assert(rest[i - 1] == entries[i]);
        law_pending_export_blocks_new_exports(rest, i - 1);
    }
}

/// One entry of the store's directory, with its facts where its name is that of
/// a reservation with a token; `None` stands for facts that could not be read.
pub struct ReservationEntry {
    pub entry: StoreEntry,
    pub facts: Option<StoredFacts>,
}

/// The tokens that recovery reservations carry, or the first entry's failure: a
/// reservation has to carry a token and to be an empty private file.
pub open spec fn reserved_tokens(entries: Seq<ReservationEntry>, expected: Option<u32>) -> Result<
    Seq<Seq<u8>>,
    CatacombStoreError,
>
    decreases entries.len(),
{
    if entries.len() == 0 {
        Ok(Seq::empty())
    } else {
        match reserved_tokens(entries.drop_last(), expected) {
            Err(error) => Err(error),
            Ok(tokens) => {
                let last = entries.last();
                match last.entry {
                    StoreEntry::Unreadable => Err(CatacombStoreError::StorageUnavailable),
                    StoreEntry::NotText => Err(CatacombStoreError::UnsafeStorage),
                    StoreEntry::Named(name) => if !has_prefix(name@, recovery_prefix()) {
                        Ok(tokens)
                    } else if !is_token_text(rest_after(name@, 10)) {
                        Err(CatacombStoreError::UnsafeStorage)
                    } else {
                        match last.facts {
                            None => Err(CatacombStoreError::StorageUnavailable),
                            Some(facts) => match facts.file_outcome(expected) {
                                Err(error) => Err(error),
                                Ok(()) => if facts.size != 0 {
                                    Err(CatacombStoreError::UnsafeStorage)
                                } else {
                                    Ok(tokens.push(rest_after(name@, 10)))
                                },
                            },
                        }
                    },
                }
            },
        }
    }
}

/// Failing early is failing.
proof fn lemma_reserved_tokens_fail_early(
    entries: Seq<ReservationEntry>,
    expected: Option<u32>,
    count: int,
)
    requires
        0 <= count <= entries.len(),
        reserved_tokens(entries.subrange(0, count), expected) is Err,
    ensures
        reserved_tokens(entries, expected) == reserved_tokens(
            entries.subrange(0, count),
            expected,
        ),
    decreases entries.len() - count,
{
    if count == entries.len() {
        assert(entries.subrange(0, count) =~= entries);
    } else {
        let longer = entries.subrange(0, count + 1);
        assert(longer.drop_last() =~= entries.subrange(0, count));
        lemma_reserved_tokens_fail_early(entries, expected, count + 1);
    }
}

/// The bytes of each of the buffers.
pub open spec fn all_bytes(buffers: Seq<Vec<u8>>) -> Seq<Seq<u8>> {
    buffers.map_values(|buffer: Vec<u8>| buffer@)
}

/// Collects the tokens of the store's recovery reservations, in their order; `None`
/// stands for a directory that could not be read.
pub fn recovery_tokens(listing: Option<&Vec<ReservationEntry>>, expected: Option<u32>) -> (r:
    Result<Vec<Vec<u8>>, CatacombStoreError>)
    ensures
        match listing {
            None => r == Err::<Vec<Vec<u8>>, CatacombStoreError>(
                CatacombStoreError::StorageUnavailable,
            ),
            Some(entries) => match reserved_tokens(entries@, expected) {
                Ok(tokens) => r is Ok && names_in_order(all_bytes(r->Ok_0@)) && all_bytes(
                    r->Ok_0@,
                ).to_multiset() == tokens.to_multiset(),
                Err(error) => r == Err::<Vec<Vec<u8>>, CatacombStoreError>(error),
            },
        },
{
    let entries = match listing {
        None => {
            return Err(CatacombStoreError::StorageUnavailable);
        },
        Some(entries) => entries,
    };
    let prefix = recovery_prefix_bytes();
    let mut tokens: Vec<Vec<u8>> = Vec::new();
    let mut i: usize = 0;
    assert(entries@.subrange(0, 0) =~= Seq::<ReservationEntry>::empty());
    assert(all_bytes(tokens@) =~= Seq::<Seq<u8>>::empty());
    while i < entries.len()
        invariant
            i <= entries@.len(),
            listing == Some(entries),
            prefix@ == recovery_prefix(),
            reserved_tokens(entries@.subrange(0, i as int), expected) == Ok::<
                Seq<Seq<u8>>,
                CatacombStoreError,
            >(all_bytes(tokens@)),
        decreases entries@.len() - i,
    {
        let ghost longer = entries@.subrange(0, i as int + 1);
        proof {
            assert(longer.drop_last() =~= entries@.subrange(0, i as int));
            assert(longer.last() == entries@[i as int]);
            if reserved_tokens(longer, expected) is Err {
                lemma_reserved_tokens_fail_early(entries@, expected, i as int + 1);
            }
        }
        match &entries[i].entry {
            StoreEntry::Unreadable => {
                return Err(CatacombStoreError::StorageUnavailable);
            },
            StoreEntry::NotText => {
                return Err(CatacombStoreError::UnsafeStorage);
            },
            StoreEntry::Named(name) => {
                if begins_with(name.as_slice(), prefix.as_slice()) {
                    let token = tail(name.as_slice(), 10);
                    if !is_token(token) {
                        return Err(CatacombStoreError::UnsafeStorage);
                    }
                    let facts = match entries[i].facts {
                        None => {
                            return Err(CatacombStoreError::StorageUnavailable);
                        },
                        Some(facts) => facts,
                    };
                    if let Err(error) = facts.validate_private_file_metadata(expected) {
                        return Err(error);
                    }
                    if facts.size != 0 {
                        return Err(CatacombStoreError::UnsafeStorage);
                    }
                    let ghost before = tokens@;
                    tokens.push(to_vec(token));
                    assert(all_bytes(tokens@) =~= all_bytes(before).push(token@));
                }
            },
        }
        i += 1;
    }
    assert(entries@.subrange(0, entries@.len() as int) =~= entries@);
    Ok(sorted_names(tokens))
}

/// What to do with an object that is to be removed.
#[derive(Clone, Copy, Debug, PartialEq, Eq, Structural)]
pub enum Removal {
    /// It is not there: nothing to do.
    Nothing,
    /// It may be removed.
    Remove,
}

/// Judges a file that is to be removed.
pub fn remove_private_file(found: &StoredObject, expected: Option<u32>) -> (r: Result<
    Removal,
    CatacombStoreError,
>)
    ensures
        r == match *found {
            StoredObject::Missing => Ok::<Removal, CatacombStoreError>(Removal::Nothing),
            StoredObject::Refused | StoredObject::Unknown => Err(
                CatacombStoreError::StorageUnavailable,
            ),
            StoredObject::Opened(facts) => match facts.file_outcome(expected) {
                Ok(()) => Ok(Removal::Remove),
                Err(error) => Err(error),
            },
        },
{
    match found {
        StoredObject::Missing => Ok(Removal::Nothing),
        StoredObject::Refused => Err(CatacombStoreError::StorageUnavailable),
        StoredObject::Unknown => Err(CatacombStoreError::StorageUnavailable),
        StoredObject::Opened(facts) => match facts.validate_private_file_metadata(expected) {
            Ok(()) => Ok(Removal::Remove),
            Err(error) => Err(error),
        },
    }
}

/// Judges a generation or stage that is to be removed with its members.
pub fn remove_private_generation(found: &StoredObject, expected: Option<u32>) -> (r: Result<
    Removal,
    CatacombStoreError,
>)
    ensures
        r == match *found {
            StoredObject::Missing => Ok::<Removal, CatacombStoreError>(Removal::Nothing),
            StoredObject::Refused | StoredObject::Unknown => Err(
                CatacombStoreError::StorageUnavailable,
            ),
            StoredObject::Opened(facts) => match facts.directory_outcome(expected) {
                Ok(()) => Ok(Removal::Remove),
                Err(error) => Err(error),
            },
        },
{
    match found {
        StoredObject::Missing => Ok(Removal::Nothing),
        StoredObject::Refused => Err(CatacombStoreError::StorageUnavailable),
        StoredObject::Unknown => Err(CatacombStoreError::StorageUnavailable),
        StoredObject::Opened(facts) => match facts.validate_directory_metadata(expected) {
            Ok(()) => Ok(Removal::Remove),
            Err(error) => Err(error),
        },
    }
}

/// `master.raw`, in ASCII.
pub open spec fn master_file() -> Seq<u8> {
    seq![109u8, 97u8, 115u8, 116u8, 101u8, 114u8, 46u8, 114u8, 97u8, 119u8]
}

/// `user.raw`, in ASCII.
pub open spec fn user_file() -> Seq<u8> {
    seq![117u8, 115u8, 101u8, 114u8, 46u8, 114u8, 97u8, 119u8]
}

/// `identities.meta`, in ASCII.
pub open spec fn identity_metadata_file() -> Seq<u8> {
    seq![
        105u8, 100u8, 101u8, 110u8, 116u8, 105u8, 116u8, 105u8, 101u8, 115u8, 46u8, 109u8, 101u8,
        116u8, 97u8,
    ]
}

/// Accepts the entries that a generation may hold, and nothing else: a
/// generation with anything else is not removed.
pub fn judge_member(entry: &StoreEntry) -> (r: Result<(), CatacombStoreError>)
    ensures
        r == match *entry {
            StoreEntry::Unreadable => Err::<(), CatacombStoreError>(
                CatacombStoreError::StorageUnavailable,
            ),
            StoreEntry::NotText => Err(CatacombStoreError::UnsafeStorage),
            StoreEntry::Named(name) => if name@ == master_file() || name@ == user_file() || name@
                == identity_metadata_file() {
                Ok(())
            } else {
                Err(CatacombStoreError::UnsafeStorage)
            },
        },
{
    let master: [u8; 10] = [109, 97, 115, 116, 101, 114, 46, 114, 97, 119];
    let user: [u8; 8] = [117, 115, 101, 114, 46, 114, 97, 119];
    let metadata: [u8; 15] = [
        105, 100, 101, 110, 116, 105, 116, 105, 101, 115, 46, 109, 101, 116, 97,
    ];
    assert(master@ =~= master_file());
    assert(user@ =~= user_file());
    assert(metadata@ =~= identity_metadata_file());
    match entry {
        StoreEntry::Unreadable => Err(CatacombStoreError::StorageUnavailable),
        StoreEntry::NotText => Err(CatacombStoreError::UnsafeStorage),
        StoreEntry::Named(name) => if same_bytes(name.as_slice(), master.as_slice()) || same_bytes(
            name.as_slice(),
            user.as_slice(),
        ) || same_bytes(name.as_slice(), metadata.as_slice()) {
            Ok(())
        } else {
            Err(CatacombStoreError::UnsafeStorage)
        },
    }
}

} // verus!
