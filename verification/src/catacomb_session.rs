//! Paired secure-catacomb export with native finish-after-durability ordering.
//!
//! Each finish command is sent only after that member's file and directory are
//! synchronized. The active marker changes only after both finish commands have
//! succeeded.

use crate::catacomb_store::CatacombStoreError;
use crate::secret::give_up;
use vstd::prelude::*;

verus! {

/// Sizes of a newly promoted opaque catacomb pair.
#[derive(Clone, Copy, Debug, PartialEq, Eq, Structural)]
pub struct CatacombBackup {
    /// Concrete user's encrypted export size.
    pub user_size: usize,
    /// Master component's encrypted export size.
    pub master_size: usize,
}

/// Why the device's part of an export failed: its transport, a malformed command
/// or empty response, or a malformed size or payload.
#[derive(Debug, PartialEq, Eq)]
pub enum ExportFault<TransportError, ProtocolError> {
    Transport(TransportError),
    Command(ProtocolError),
    Catacomb(ProtocolError),
}

/// A paired-export failure.
#[derive(PartialEq, Eq)]
pub enum CatacombSessionError<TransportError, ProtocolError> {
    /// The caller-owned biometric transport failed.
    Transport(TransportError),
    /// A command packet or empty response was invalid.
    Command(ProtocolError),
    /// A secure export size or payload was invalid.
    Catacomb(ProtocolError),
    /// Durable private storage failed.
    Store(CatacombStoreError),
}

impl<TransportError, ProtocolError> CatacombSessionError<TransportError, ProtocolError> {
    /// The failure that a device's fault is reported as.
    pub open spec fn of_fault(fault: ExportFault<TransportError, ProtocolError>) -> Self {
        match fault {
            ExportFault::Transport(error) => CatacombSessionError::Transport(error),
            ExportFault::Command(error) => CatacombSessionError::Command(error),
            ExportFault::Catacomb(error) => CatacombSessionError::Catacomb(error),
        }
    }

    /// Reports a device's fault.
    pub fn from_fault(fault: ExportFault<TransportError, ProtocolError>) -> (r: Self)
        ensures
            r == Self::of_fault(fault),
    {
        match fault {
            ExportFault::Transport(error) => CatacombSessionError::Transport(error),
            ExportFault::Command(error) => CatacombSessionError::Command(error),
            ExportFault::Catacomb(error) => CatacombSessionError::Catacomb(error),
        }
    }

    /// The fixed part of the message where the failure carries none of its own:
    /// a transport's failure shows nothing of its error.
    pub fn message(&self) -> (message: Option<&'static str>)
        ensures
            match *self {
                CatacombSessionError::Transport(_) => message is Some && message->0@
                    == "biometric transport failed"@,
                CatacombSessionError::Store(error) => message is Some && message->0@
                    == error.text(),
                _ => message is None,
            },
    {
        match self {
            CatacombSessionError::Transport(_) => Some("biometric transport failed"),
            CatacombSessionError::Store(error) => Some(error.message()),
            _ => None,
        }
    }

    /// A diagnostic of a transport's failure that shows nothing of its error.
    pub fn diagnostic(&self) -> (text: Option<&'static str>)
        ensures
            match *self {
                CatacombSessionError::Transport(_) => text is Some && text->0@
                    == "Transport([redacted])"@,
                _ => text is None,
            },
    {
        match self {
            CatacombSessionError::Transport(_) => Some("Transport([redacted])"),
            _ => None,
        }
    }
}

/// The master component's user id on the wire.
pub const MASTER_USER_ID: i64 = -1;

/// Whose component a command is addressed to: the user's as long as there is no
/// size that only the master's turn knows, and then the master's.
pub open spec fn addressed_to(user_id: u32, turn: Option<usize>) -> int {
    match turn {
        None => user_id as int,
        Some(_) => MASTER_USER_ID as int,
    }
}

fn address(user_id: u32, turn: Option<usize>) -> (r: i64)
    ensures
        r == addressed_to(user_id, turn),
{
    match turn {
        None => user_id as i64,
        Some(_) => MASTER_USER_ID,
    }
}

/// What has to be made durable before the first native save.
#[derive(Clone, Copy)]
pub enum TransactionPreparation<'a> {
    /// A recovery reservation, and the identity manifest if there is one.
    Reserve { metadata: Option<&'a [u8]> },
    /// Both are durable already.
    AlreadyReserved,
}

/// The pieces of work of an export, each named by what it does.
#[derive(Clone, Copy, Debug, PartialEq, Eq, Structural)]
pub enum BackupTask {
    QueryUserSize,
    Reserve,
    WriteMetadata,
    ExportUser,
    WriteUser,
    FinishUser,
    QueryMasterSize,
    ExportMaster,
    WriteMaster,
    FinishMaster,
    Promote,
}

/// The native order of an export.
pub open spec fn native_order(preparation: TransactionPreparation) -> Seq<BackupTask> {
    let preparing = match preparation {
        TransactionPreparation::Reserve { metadata } => if metadata is Some {
            seq![BackupTask::Reserve, BackupTask::WriteMetadata]
        } else {
            seq![BackupTask::Reserve]
        },
        TransactionPreparation::AlreadyReserved => Seq::empty(),
    };
    seq![BackupTask::QueryUserSize] + preparing + seq![
        BackupTask::ExportUser,
        BackupTask::WriteUser,
        BackupTask::FinishUser,
        BackupTask::QueryMasterSize,
        BackupTask::ExportMaster,
        BackupTask::WriteMaster,
        BackupTask::FinishMaster,
        BackupTask::Promote,
    ]
}

/// The next work of an export.
pub enum BackupStep<'a, TransportError, ProtocolError> {
    /// Ask the device for an export's size and report with
    /// [`PendingSize::answered`].
    Size(PendingSize<'a>),
    /// Do storage work and report with [`PendingStorage::stored`].
    Store(PendingStorage<'a>),
    /// Let the device export and report with [`PendingExport::exported`].
    Export(PendingExport<'a>),
    /// Let the device finish and report with [`PendingFinish::finished`].
    Finish(PendingFinish<'a>),
    /// The export has ended.
    End(Result<CatacombBackup, CatacombSessionError<TransportError, ProtocolError>>),
}

/// A query of the size of the user's export, or of the master's once the user's
/// size is known.
#[derive(Clone, Copy)]
pub struct PendingSize<'a> {
    pub user_id: u32,
    pub preparation: TransactionPreparation<'a>,
    pub user_size: Option<usize>,
}

/// Storage work of an export.
pub enum StorageWork<'a> {
    Reserve { user_size: usize },
    WriteMetadata { user_size: usize, metadata: &'a [u8] },
    WriteUser { user_size: usize, blob: Vec<u8> },
    WriteMaster { user_size: usize, master_size: usize, blob: Vec<u8> },
    Promote { user_size: usize, master_size: usize },
}

/// Pending storage work.
pub struct PendingStorage<'a> {
    pub user_id: u32,
    pub preparation: TransactionPreparation<'a>,
    pub work: StorageWork<'a>,
}

/// A pending export of the user, or of the master once its size is known.
#[derive(Clone, Copy)]
pub struct PendingExport<'a> {
    pub user_id: u32,
    pub preparation: TransactionPreparation<'a>,
    pub user_size: usize,
    pub master_size: Option<usize>,
}

/// A pending finish of the user, or of the master once its size is known.
#[derive(Clone, Copy)]
pub struct PendingFinish<'a> {
    pub user_id: u32,
    pub preparation: TransactionPreparation<'a>,
    pub user_size: usize,
    pub master_size: Option<usize>,
}

impl<'a> PendingSize<'a> {
    /// Whose size is queried: the user id that the command carries.
    pub open spec fn target(self) -> int {
        addressed_to(self.user_id, self.user_size)
    }

    /// Whose size is queried: the user id that the command carries.
    pub fn addressee(&self) -> (r: i64)
        ensures
            r == self.target(),
    {
        address(self.user_id, self.user_size)
    }

    /// What follows a size.
    pub open spec fn following<TransportError, ProtocolError>(self, size: usize) -> BackupStep<
        'a,
        TransportError,
        ProtocolError,
    > {
        let user_id: u32 = self.user_id;
        let preparation = self.preparation;
        match self.user_size {
            None => match preparation {
                TransactionPreparation::Reserve { .. } => BackupStep::Store(
                    PendingStorage {
                        user_id,
                        preparation,
                        work: StorageWork::Reserve { user_size: size },
                    },
                ),
                TransactionPreparation::AlreadyReserved => BackupStep::Export(
                    PendingExport { user_id, preparation, user_size: size, master_size: None },
                ),
            },
            Some(user_size) => BackupStep::Export(
                PendingExport { user_id, preparation, user_size, master_size: Some(size) },
            ),
        }
    }

    /// Takes the size.
    pub fn answered<TransportError, ProtocolError>(
        self,
        size: Result<usize, ExportFault<TransportError, ProtocolError>>,
    ) -> (r: BackupStep<'a, TransportError, ProtocolError>)
        ensures
            r == match size {
                Ok(size) => self.following::<TransportError, ProtocolError>(size),
                Err(fault) => BackupStep::End(Err(CatacombSessionError::of_fault(fault))),
            },
    {
        let user_id: u32 = self.user_id;
        let preparation = self.preparation;
        match size {
            Err(fault) => BackupStep::End(Err(CatacombSessionError::from_fault(fault))),
            Ok(size) => match self.user_size {
                None => match preparation {
                    TransactionPreparation::Reserve { .. } => BackupStep::Store(
                        PendingStorage {
                            user_id,
                            preparation,
                            work: StorageWork::Reserve { user_size: size },
                        },
                    ),
                    TransactionPreparation::AlreadyReserved => BackupStep::Export(
                        PendingExport { user_id, preparation, user_size: size, master_size: None },
                    ),
                },
                Some(user_size) => BackupStep::Export(
                    PendingExport { user_id, preparation, user_size, master_size: Some(size) },
                ),
            },
        }
    }
}

impl<'a> PendingStorage<'a> {
    /// What follows the storage work once it has succeeded.
    pub open spec fn following<TransportError, ProtocolError>(self) -> BackupStep<
        'a,
        TransportError,
        ProtocolError,
    > {
        let user_id: u32 = self.user_id;
        let preparation = self.preparation;
        match self.work {
            StorageWork::Reserve { user_size } => match preparation {
                TransactionPreparation::Reserve { metadata: Some(metadata) } => BackupStep::Store(
                    PendingStorage {
                        user_id,
                        preparation,
                        work: StorageWork::WriteMetadata { user_size, metadata },
                    },
                ),
                _ => BackupStep::Export(
                    PendingExport { user_id, preparation, user_size, master_size: None },
                ),
            },
            StorageWork::WriteMetadata { user_size, .. } => BackupStep::Export(
                PendingExport { user_id, preparation, user_size, master_size: None },
            ),
            StorageWork::WriteUser { user_size, .. } => BackupStep::Finish(
                PendingFinish { user_id, preparation, user_size, master_size: None },
            ),
            StorageWork::WriteMaster { user_size, master_size, .. } => BackupStep::Finish(
                PendingFinish { user_id, preparation, user_size, master_size: Some(master_size) },
            ),
            StorageWork::Promote { user_size, master_size } => BackupStep::End(
                Ok(CatacombBackup { user_size, master_size }),
            ),
        }
    }

    /// Takes the outcome of the storage work; the bytes that it wrote are overwritten.
    pub fn stored<TransportError, ProtocolError>(
        self,
        outcome: Result<(), CatacombStoreError>,
    ) -> (r: BackupStep<'a, TransportError, ProtocolError>)
        ensures
            r == match outcome {
                Ok(()) => self.following::<TransportError, ProtocolError>(),
                Err(error) => BackupStep::End(Err(CatacombSessionError::Store(error))),
            },
    {
        let user_id: u32 = self.user_id;
        let preparation = self.preparation;
        let next = match self.work {
            StorageWork::Reserve { user_size } => match preparation {
                TransactionPreparation::Reserve { metadata: Some(metadata) } => BackupStep::Store(
                    PendingStorage {
                        user_id,
                        preparation,
                        work: StorageWork::WriteMetadata { user_size, metadata },
                    },
                ),
                _ => BackupStep::Export(
                    PendingExport { user_id, preparation, user_size, master_size: None },
                ),
            },
            StorageWork::WriteMetadata { user_size, .. } => BackupStep::Export(
                PendingExport { user_id, preparation, user_size, master_size: None },
            ),
            StorageWork::WriteUser { user_size, blob } => {
                give_up(blob);
                BackupStep::Finish(
                    PendingFinish { user_id, preparation, user_size, master_size: None },
                )
            },
            StorageWork::WriteMaster { user_size, master_size, blob } => {
                give_up(blob);
                BackupStep::Finish(
                    PendingFinish {
                        user_id,
                        preparation,
                        user_size,
                        master_size: Some(master_size),
                    },
                )
            },
            StorageWork::Promote { user_size, master_size } => BackupStep::End(
                Ok(CatacombBackup { user_size, master_size }),
            ),
        };
        match outcome {
            Ok(()) => next,
            Err(error) => BackupStep::End(Err(CatacombSessionError::Store(error))),
        }
    }
}

impl<'a> PendingExport<'a> {
    /// Whose component is exported: the user id that the command carries.
    pub open spec fn target(self) -> int {
        addressed_to(self.user_id, self.master_size)
    }

    /// Whose component is exported: the user id that the command carries.
    pub fn addressee(&self) -> (r: i64)
        ensures
            r == self.target(),
    {
        address(self.user_id, self.master_size)
    }

    /// How many bytes the command asks for: the size that the device has named for
    /// this component.
    pub open spec fn expected_size(self) -> usize {
        match self.master_size {
            Some(size) => size,
            None => self.user_size,
        }
    }

    /// How many bytes the command asks for.
    pub fn size(&self) -> (r: usize)
        ensures
            r == self.expected_size(),
    {
        match self.master_size {
            Some(size) => size,
            None => self.user_size,
        }
    }

    /// What follows an exported blob: it is written.
    pub open spec fn following<TransportError, ProtocolError>(self, blob: Vec<u8>) -> BackupStep<
        'a,
        TransportError,
        ProtocolError,
    > {
        let user_id: u32 = self.user_id;
        let preparation = self.preparation;
        let user_size = self.user_size;
        match self.master_size {
            None => BackupStep::Store(
                PendingStorage {
                    user_id,
                    preparation,
                    work: StorageWork::WriteUser { user_size, blob },
                },
            ),
            Some(master_size) => BackupStep::Store(
                PendingStorage {
                    user_id,
                    preparation,
                    work: StorageWork::WriteMaster { user_size, master_size, blob },
                },
            ),
        }
    }

    /// Takes the export, of which the device's protocol has checked the size.
    pub fn exported<TransportError, ProtocolError>(
        self,
        blob: Result<Vec<u8>, ExportFault<TransportError, ProtocolError>>,
    ) -> (r: BackupStep<'a, TransportError, ProtocolError>)
        ensures
            r == match blob {
                Ok(blob) => self.following::<TransportError, ProtocolError>(blob),
                Err(fault) => BackupStep::End(Err(CatacombSessionError::of_fault(fault))),
            },
    {
        let user_id: u32 = self.user_id;
        let preparation = self.preparation;
        let user_size: usize = self.user_size;
        match blob {
            Err(fault) => BackupStep::End(Err(CatacombSessionError::from_fault(fault))),
            Ok(blob) => match self.master_size {
                None => BackupStep::Store(
                    PendingStorage {
                        user_id,
                        preparation,
                        work: StorageWork::WriteUser { user_size, blob },
                    },
                ),
                Some(master_size) => BackupStep::Store(
                    PendingStorage {
                        user_id,
                        preparation,
                        work: StorageWork::WriteMaster { user_size, master_size, blob },
                    },
                ),
            },
        }
    }
}

impl<'a> PendingFinish<'a> {
    /// Whose export is finished: the user id that the command carries.
    pub open spec fn target(self) -> int {
        addressed_to(self.user_id, self.master_size)
    }

    /// Whose export is finished: the user id that the command carries.
    pub fn addressee(&self) -> (r: i64)
        ensures
            r == self.target(),
    {
        address(self.user_id, self.master_size)
    }

    /// What follows a finish.
    pub open spec fn following<TransportError, ProtocolError>(self) -> BackupStep<
        'a,
        TransportError,
        ProtocolError,
    > {
        let user_id: u32 = self.user_id;
        let preparation = self.preparation;
        let user_size = self.user_size;
        match self.master_size {
            None => BackupStep::Size(
                PendingSize {
                    user_id,
                    preparation,
                    user_size: Some(user_size),
                },
            ),
            Some(master_size) => BackupStep::Store(
                PendingStorage {
                    user_id,
                    preparation,
                    work: StorageWork::Promote { user_size, master_size },
                },
            ),
        }
    }

    /// Takes the outcome of the finish.
    pub fn finished<TransportError, ProtocolError>(
        self,
        outcome: Result<(), ExportFault<TransportError, ProtocolError>>,
    ) -> (r: BackupStep<'a, TransportError, ProtocolError>)
        ensures
            r == match outcome {
                Ok(()) => self.following::<TransportError, ProtocolError>(),
                Err(fault) => BackupStep::End(Err(CatacombSessionError::of_fault(fault))),
            },
    {
        let user_id: u32 = self.user_id;
        let preparation = self.preparation;
        let user_size: usize = self.user_size;
        match outcome {
            Err(fault) => BackupStep::End(Err(CatacombSessionError::from_fault(fault))),
            Ok(()) => match self.master_size {
                None => BackupStep::Size(
                    PendingSize {
                        user_id,
                        preparation,
                        user_size: Some(user_size),
                    },
                ),
                Some(master_size) => BackupStep::Store(
                    PendingStorage {
                        user_id,
                        preparation,
                        work: StorageWork::Promote { user_size, master_size },
                    },
                ),
            },
        }
    }
}

/// Begins to export, stage, finish and promote the pair of one user.
pub fn backup_catacomb_pair_with_transaction<'a, TransportError, ProtocolError>(user_id: u32) -> (r:
    BackupStep<'a, TransportError, ProtocolError>)
    ensures
        r == BackupStep::<TransportError, ProtocolError>::Size(
            PendingSize {
                user_id,
                preparation: TransactionPreparation::Reserve { metadata: None },
                user_size: None,
            },
        ),
{
    BackupStep::Size(
        PendingSize {
            user_id,
            preparation: TransactionPreparation::Reserve { metadata: None },
            user_size: None,
        },
    )
}

/// Begins to export and promote a pair together with one identity manifest;
/// `decodes` says whether it is valid; a malformed one fails before any hardware command.
pub fn backup_catacomb_pair_with_transaction_and_metadata<'a, TransportError, ProtocolError>(
    user_id: u32,
    metadata: &'a [u8],
    decodes: bool,
) -> (r: BackupStep<'a, TransportError, ProtocolError>)
    ensures
        r == if decodes {
            BackupStep::<TransportError, ProtocolError>::Size(
                PendingSize {
                    user_id,
                    preparation: TransactionPreparation::Reserve { metadata: Some(metadata) },
                    user_size: None,
                },
            )
        } else {
            BackupStep::End(Err(CatacombSessionError::Store(CatacombStoreError::InvalidMetadata)))
        },
{
    if !decodes {
        return BackupStep::End(
            Err(CatacombSessionError::Store(CatacombStoreError::InvalidMetadata)),
        );
    }
    BackupStep::Size(
        PendingSize {
            user_id,
            preparation: TransactionPreparation::Reserve { metadata: Some(metadata) },
            user_size: None,
        },
    )
}

/// Begins the export sequence for an already reserved metadata generation.
pub fn backup_catacomb_pair_with_reserved_metadata<'a, TransportError, ProtocolError>(
    user_id: u32,
) -> (r: BackupStep<'a, TransportError, ProtocolError>)
    ensures
        r == BackupStep::<TransportError, ProtocolError>::Size(
            PendingSize {
                user_id,
                preparation: TransactionPreparation::AlreadyReserved,
                user_size: None,
            },
        ),
{
    BackupStep::Size(
        PendingSize {
            user_id,
            preparation: TransactionPreparation::AlreadyReserved,
            user_size: None,
        },
    )
}

/// The first work of an export, from the outcome of beginning its transaction:
/// storage is prepared before the first hardware command.
pub fn backup_catacomb_pair<'a, TransportError, ProtocolError>(
    begun: Result<(), CatacombStoreError>,
    user_id: u32,
) -> (r: BackupStep<'a, TransportError, ProtocolError>)
    ensures
        r == match begun {
            Err(error) => BackupStep::<TransportError, ProtocolError>::End(
                Err(CatacombSessionError::Store(error)),
            ),
            Ok(()) => BackupStep::Size(
                PendingSize {
                    user_id,
                    preparation: TransactionPreparation::Reserve { metadata: None },
                    user_size: None,
                },
            ),
        },
{
    match begun {
        Err(error) => BackupStep::End(Err(CatacombSessionError::Store(error))),
        Ok(()) => backup_catacomb_pair_with_transaction(user_id),
    }
}

/// The next work of making a reservation and its manifest durable before the
/// sensor's state is changed.
#[derive(Clone, Copy)]
pub enum ReserveMetadataStep<'a> {
    /// Reserve recovery in the transaction.
    Reserve { metadata: &'a [u8] },
    /// Write the manifest in the transaction.
    WriteMetadata { metadata: &'a [u8] },
    /// It has ended.
    End(Result<(), CatacombStoreError>),
}

/// Begins to reserve a transaction with its manifest; `decodes` says whether it is
/// valid.
pub fn reserve_transaction_with_metadata<'a>(metadata: &'a [u8], decodes: bool) -> (r:
    ReserveMetadataStep<'a>)
    ensures
        r == if decodes {
            ReserveMetadataStep::Reserve { metadata }
        } else {
            ReserveMetadataStep::End(Err(CatacombStoreError::InvalidMetadata))
        },
{
    if decodes {
        ReserveMetadataStep::Reserve { metadata }
    } else {
        ReserveMetadataStep::End(Err(CatacombStoreError::InvalidMetadata))
    }
}

impl<'a> ReserveMetadataStep<'a> {
    /// Takes the outcome of the step: the manifest is written once recovery is
    /// reserved; what has ended stays ended.
    pub fn done(self, outcome: Result<(), CatacombStoreError>) -> (r: ReserveMetadataStep<'a>)
        ensures
            r == match self {
                ReserveMetadataStep::End(_) => self,
                ReserveMetadataStep::Reserve { metadata } => match outcome {
                    Ok(()) => ReserveMetadataStep::WriteMetadata { metadata },
                    Err(error) => ReserveMetadataStep::End(Err(error)),
                },
                ReserveMetadataStep::WriteMetadata { .. } => ReserveMetadataStep::End(outcome),
            },
    {
        match self {
            ReserveMetadataStep::End(_) => self,
            ReserveMetadataStep::Reserve { metadata } => match outcome {
                Ok(()) => ReserveMetadataStep::WriteMetadata { metadata },
                Err(error) => ReserveMetadataStep::End(Err(error)),
            },
            ReserveMetadataStep::WriteMetadata { .. } => ReserveMetadataStep::End(outcome),
        }
    }
}

/// One answer to the work that an export asks for.
pub enum BackupAnswer<TransportError, ProtocolError> {
    Size(Result<usize, ExportFault<TransportError, ProtocolError>>),
    Stored(Result<(), CatacombStoreError>),
    Exported(Result<Vec<u8>, ExportFault<TransportError, ProtocolError>>),
    Finished(Result<(), ExportFault<TransportError, ProtocolError>>),
}

/// The step that follows `step` on `answer`, where the answer is of the kind
/// that the step asks for.
pub open spec fn backup_follows<'a, TransportError, ProtocolError>(
    step: BackupStep<'a, TransportError, ProtocolError>,
    answer: BackupAnswer<TransportError, ProtocolError>,
    next: BackupStep<'a, TransportError, ProtocolError>,
) -> bool {
    match (step, answer) {
        (BackupStep::Size(pending), BackupAnswer::Size(Ok(size))) => next
            == pending.following::<TransportError, ProtocolError>(size),
        (BackupStep::Store(pending), BackupAnswer::Stored(Ok(()))) => next
            == pending.following::<TransportError, ProtocolError>(),
        (BackupStep::Export(pending), BackupAnswer::Exported(Ok(blob))) => next
            == pending.following::<TransportError, ProtocolError>(blob),
        (BackupStep::Finish(pending), BackupAnswer::Finished(Ok(()))) => next
            == pending.following::<TransportError, ProtocolError>(),
        (BackupStep::Size(_), BackupAnswer::Size(Err(_)))
        | (BackupStep::Store(_), BackupAnswer::Stored(Err(_)))
        | (BackupStep::Export(_), BackupAnswer::Exported(Err(_)))
        | (BackupStep::Finish(_), BackupAnswer::Finished(Err(_))) => next is End
            && next->End_0 is Err,
        _ => false,
    }
}

/// The task that a step asks for.
pub open spec fn task_of<'a, TransportError, ProtocolError>(
    step: BackupStep<'a, TransportError, ProtocolError>,
) -> Option<BackupTask> {
    match step {
        BackupStep::Size(pending) => Some(
            if pending.user_size is None {
                BackupTask::QueryUserSize
            } else {
                BackupTask::QueryMasterSize
            },
        ),
        BackupStep::Store(pending) => Some(
            match pending.work {
                StorageWork::Reserve { .. } => BackupTask::Reserve,
                StorageWork::WriteMetadata { .. } => BackupTask::WriteMetadata,
                StorageWork::WriteUser { .. } => BackupTask::WriteUser,
                StorageWork::WriteMaster { .. } => BackupTask::WriteMaster,
                StorageWork::Promote { .. } => BackupTask::Promote,
            },
        ),
        BackupStep::Export(pending) => Some(
            if pending.master_size is None {
                BackupTask::ExportUser
            } else {
                BackupTask::ExportMaster
            },
        ),
        BackupStep::Finish(pending) => Some(
            if pending.master_size is None {
                BackupTask::FinishUser
            } else {
                BackupTask::FinishMaster
            },
        ),
        BackupStep::End(_) => None,
    }
}

/// The user and the preparation that a step carries.
spec fn carries<'a, TransportError, ProtocolError>(
    step: BackupStep<'a, TransportError, ProtocolError>,
    user_id: u32,
    preparation: TransactionPreparation<'a>,
) -> bool {
    match step {
        BackupStep::Size(pending) => pending.user_id == user_id && pending.preparation
            == preparation,
        BackupStep::Store(pending) => pending.user_id == user_id && pending.preparation
            == preparation,
        BackupStep::Export(pending) => pending.user_id == user_id && pending.preparation
            == preparation,
        BackupStep::Finish(pending) => pending.user_id == user_id && pending.preparation
            == preparation,
        BackupStep::End(_) => true,
    }
}

/// A run of an export.
pub open spec fn is_backup_run<'a, TransportError, ProtocolError>(
    user_id: u32,
    preparation: TransactionPreparation<'a>,
    steps: Seq<BackupStep<'a, TransportError, ProtocolError>>,
    answers: Seq<BackupAnswer<TransportError, ProtocolError>>,
) -> bool {
    &&& steps.len() == answers.len() + 1
    &&& steps[0] == BackupStep::<TransportError, ProtocolError>::Size(
        PendingSize { user_id, preparation, user_size: None },
    )
    &&& forall|k: int|
        0 <= k < answers.len() ==> backup_follows(#[trigger] steps[k], answers[k], steps[k + 1])
}

/// An export does its work in the native order: whatever it does as its `k`th
/// piece of work is the `k`th of that order. It succeeds only once all of them,
/// promotion last, have succeeded.
pub proof fn law_exports_follow_the_native_order<'a, TransportError, ProtocolError>(
    user_id: u32,
    preparation: TransactionPreparation<'a>,
    steps: Seq<BackupStep<'a, TransportError, ProtocolError>>,
    answers: Seq<BackupAnswer<TransportError, ProtocolError>>,
    k: int,
)
    requires
        is_backup_run(user_id, preparation, steps, answers),
        0 <= k < steps.len(),
    ensures
        steps[k] is End || (k < native_order(preparation).len() && task_of(steps[k]) == Some(
            native_order(preparation)[k],
        )),
        steps[k] is End && steps[k]->End_0 is Ok ==> k == native_order(preparation).len(),
        k > 0 ==> !(steps[k - 1] is End),
{
    lemma_backup_order(user_id, preparation, steps, answers, k);
    lemma_places(BackupTask::QueryUserSize, preparation);
    if let Some(task) = task_of(steps[k]) {
        lemma_places(task, preparation);
    }
}

/// How many pieces of work precede the first native save, after the size.
spec fn preparing(preparation: TransactionPreparation) -> int {
    match preparation {
        TransactionPreparation::Reserve { metadata } => if metadata is Some {
            2
        } else {
            1
        },
        TransactionPreparation::AlreadyReserved => 0,
    }
}

/// Where a piece of work stands in the native order.
spec fn place(task: BackupTask, preparation: TransactionPreparation) -> int {
    match task {
        BackupTask::QueryUserSize => 0,
        BackupTask::Reserve => 1,
        BackupTask::WriteMetadata => 2,
        BackupTask::ExportUser => 1 + preparing(preparation),
        BackupTask::WriteUser => 2 + preparing(preparation),
        BackupTask::FinishUser => 3 + preparing(preparation),
        BackupTask::QueryMasterSize => 4 + preparing(preparation),
        BackupTask::ExportMaster => 5 + preparing(preparation),
        BackupTask::WriteMaster => 6 + preparing(preparation),
        BackupTask::FinishMaster => 7 + preparing(preparation),
        BackupTask::Promote => 8 + preparing(preparation),
    }
}

/// Whether the export does this work at all.
spec fn is_due(task: BackupTask, preparation: TransactionPreparation) -> bool {
    match task {
        BackupTask::Reserve => preparation is Reserve,
        BackupTask::WriteMetadata => preparation matches TransactionPreparation::Reserve {
            metadata: Some(_),
        },
        _ => true,
    }
}

proof fn lemma_places(task: BackupTask, preparation: TransactionPreparation)
    requires
        is_due(task, preparation),
    ensures
        native_order(preparation).len() == 9 + preparing(preparation),
        0 <= place(task, preparation) < native_order(preparation).len(),
        native_order(preparation)[place(task, preparation)] == task,
{
}

#[verifier::rlimit(30)]
proof fn lemma_backup_order<'a, TransportError, ProtocolError>(
    user_id: u32,
    preparation: TransactionPreparation<'a>,
    steps: Seq<BackupStep<'a, TransportError, ProtocolError>>,
    answers: Seq<BackupAnswer<TransportError, ProtocolError>>,
    k: int,
)
    requires
        is_backup_run(user_id, preparation, steps, answers),
        0 <= k < steps.len(),
    ensures
        carries(steps[k], user_id, preparation),
        task_of(steps[k]) matches Some(task) ==> is_due(task, preparation) && place(
            task,
            preparation,
        ) == k,
        steps[k] is End && steps[k]->End_0 is Ok ==> k == 9 + preparing(preparation),
        k > 0 ==> !(steps[k - 1] is End),
    decreases k,
{
    if k > 0 {
        lemma_backup_order(user_id, preparation, steps, answers, k - 1);
        assert(backup_follows(steps[k - 1], answers[k - 1], steps[k - 1 + 1]));
    }
}

/// Whose component the command of a step is addressed to, where the step sends
/// one.
pub open spec fn target_of<'a, TransportError, ProtocolError>(
    step: BackupStep<'a, TransportError, ProtocolError>,
) -> Option<int> {
    match step {
        BackupStep::Size(pending) => Some(pending.target()),
        BackupStep::Export(pending) => Some(pending.target()),
        BackupStep::Finish(pending) => Some(pending.target()),
        BackupStep::Store(_) => None,
        BackupStep::End(_) => None,
    }
}

/// Every command of an export is addressed to the user that it began with, or to
/// the master, as its task says.
pub proof fn law_exports_address_their_user_and_the_master<'a, TransportError, ProtocolError>(
    user_id: u32,
    preparation: TransactionPreparation<'a>,
    steps: Seq<BackupStep<'a, TransportError, ProtocolError>>,
    answers: Seq<BackupAnswer<TransportError, ProtocolError>>,
    k: int,
)
    requires
        is_backup_run(user_id, preparation, steps, answers),
        0 <= k < steps.len(),
    ensures
        match task_of(steps[k]) {
            Some(BackupTask::QueryUserSize)
            | Some(BackupTask::ExportUser)
            | Some(BackupTask::FinishUser) => target_of(steps[k]) == Some(user_id as int),
            Some(BackupTask::QueryMasterSize)
            | Some(BackupTask::ExportMaster)
            | Some(BackupTask::FinishMaster) => target_of(steps[k]) == Some(MASTER_USER_ID as int),
            _ => target_of(steps[k]) is None,
        },
{
    lemma_backup_order(user_id, preparation, steps, answers, k);
}

/// An export asks for exactly as many bytes as the device has named for the same
/// component: the user's size for the user, and the master's, which was named just
/// before, for the master.
pub proof fn law_exports_ask_for_the_named_size<'a, TransportError, ProtocolError>(
    user_id: u32,
    preparation: TransactionPreparation<'a>,
    steps: Seq<BackupStep<'a, TransportError, ProtocolError>>,
    answers: Seq<BackupAnswer<TransportError, ProtocolError>>,
    k: int,
    pending: PendingExport<'a>,
)
    requires
        is_backup_run(user_id, preparation, steps, answers),
        0 <= k < steps.len(),
        steps[k] == BackupStep::<TransportError, ProtocolError>::Export(pending),
    ensures
        k > 0,
        task_of(steps[k]) == Some(BackupTask::ExportUser) ==> task_of(steps[0]) == Some(
            BackupTask::QueryUserSize,
        ) && answers[0] == BackupAnswer::<TransportError, ProtocolError>::Size(
            Ok(pending.expected_size()),
        ),
        task_of(steps[k]) == Some(BackupTask::ExportMaster) ==> task_of(steps[k - 1]) == Some(
            BackupTask::QueryMasterSize,
        ) && answers[k - 1] == BackupAnswer::<TransportError, ProtocolError>::Size(
            Ok(pending.expected_size()),
        ),
{
    assert(k > 0);
    lemma_backup_order(user_id, preparation, steps, answers, k);
    lemma_backup_order(user_id, preparation, steps, answers, k - 1);
    lemma_backup_order(user_id, preparation, steps, answers, 1);
    assert(backup_follows(steps[k - 1], answers[k - 1], steps[k - 1 + 1]));
    assert(backup_follows(steps[0], answers[0], steps[1]));
    if let BackupAnswer::Size(Ok(size)) = answers[0] {
        lemma_sizes_are_kept(user_id, preparation, steps, answers, 1, k, size, steps[0]);
    } else {
        assert(steps[1] is End);
        lemma_ended_exports_stay_ended(user_id, preparation, steps, answers, 1, k);
    }
}

/// Nothing follows the end of an export.
proof fn lemma_ended_exports_stay_ended<'a, TransportError, ProtocolError>(
    user_id: u32,
    preparation: TransactionPreparation<'a>,
    steps: Seq<BackupStep<'a, TransportError, ProtocolError>>,
    answers: Seq<BackupAnswer<TransportError, ProtocolError>>,
    from: int,
    to: int,
)
    requires
        is_backup_run(user_id, preparation, steps, answers),
        0 <= from <= to < steps.len(),
        steps[from] is End,
    ensures
        from == to,
{
    if from < to {
        assert(backup_follows(steps[from], answers[from], steps[from + 1]));
    }
}

/// What an export stores is what the device has just exported, the user's bytes as
/// the user and the master's as the master; the manifest is the one that the export
/// began with.
pub proof fn law_exports_store_what_was_exported<'a, TransportError, ProtocolError>(
    user_id: u32,
    preparation: TransactionPreparation<'a>,
    steps: Seq<BackupStep<'a, TransportError, ProtocolError>>,
    answers: Seq<BackupAnswer<TransportError, ProtocolError>>,
    k: int,
    pending: PendingStorage<'a>,
)
    requires
        is_backup_run(user_id, preparation, steps, answers),
        0 <= k < steps.len(),
        steps[k] == BackupStep::<TransportError, ProtocolError>::Store(pending),
    ensures
        pending.work matches StorageWork::WriteUser { blob, .. } ==> k > 0 && task_of(steps[k - 1])
            == Some(BackupTask::ExportUser) && answers[k - 1] == BackupAnswer::<
            TransportError,
            ProtocolError,
        >::Exported(Ok(blob)),
        pending.work matches StorageWork::WriteMaster { blob, .. } ==> k > 0 && task_of(
            steps[k - 1],
        ) == Some(BackupTask::ExportMaster) && answers[k - 1] == BackupAnswer::<
            TransportError,
            ProtocolError,
        >::Exported(Ok(blob)),
        pending.work matches StorageWork::WriteMetadata { metadata, .. } ==> preparation == (
        TransactionPreparation::Reserve { metadata: Some(metadata) }),
{
    assert(k > 0);
    lemma_backup_order(user_id, preparation, steps, answers, k);
    lemma_backup_order(user_id, preparation, steps, answers, k - 1);
    assert(backup_follows(steps[k - 1], answers[k - 1], steps[k - 1 + 1]));
}

/// The sizes that an export reports are those that the device named, the user's
/// first and the master's after it.
pub proof fn law_exports_report_the_named_sizes<'a, TransportError, ProtocolError>(
    user_id: u32,
    preparation: TransactionPreparation<'a>,
    steps: Seq<BackupStep<'a, TransportError, ProtocolError>>,
    answers: Seq<BackupAnswer<TransportError, ProtocolError>>,
    k: int,
    j: int,
    size: usize,
    backup: CatacombBackup,
)
    requires
        is_backup_run(user_id, preparation, steps, answers),
        0 <= j < k < steps.len(),
        steps[k] == BackupStep::<TransportError, ProtocolError>::End(Ok(backup)),
        answers[j] == BackupAnswer::<TransportError, ProtocolError>::Size(Ok(size)),
    ensures
        task_of(steps[j]) == Some(BackupTask::QueryUserSize) ==> backup.user_size == size,
        task_of(steps[j]) == Some(BackupTask::QueryMasterSize) ==> backup.master_size == size,
{
    assert(backup_follows(steps[j], answers[j], steps[j + 1]));
    lemma_sizes_are_kept(user_id, preparation, steps, answers, j + 1, k, size, steps[j]);
}

/// What a step knows of the two sizes.
spec fn knows<'a, TransportError, ProtocolError>(
    step: BackupStep<'a, TransportError, ProtocolError>,
    user_size: Option<usize>,
    master_size: Option<usize>,
) -> bool {
    let (user, master) = match step {
        BackupStep::Size(pending) => (pending.user_size, None),
        BackupStep::Store(pending) => match pending.work {
            StorageWork::Reserve { user_size } => (Some(user_size), None),
            StorageWork::WriteMetadata { user_size, .. } => (Some(user_size), None),
            StorageWork::WriteUser { user_size, .. } => (Some(user_size), None),
            StorageWork::WriteMaster { user_size, master_size, .. } => (
                Some(user_size),
                Some(master_size),
            ),
            StorageWork::Promote { user_size, master_size } => (Some(user_size), Some(master_size)),
        },
        BackupStep::Export(pending) => (Some(pending.user_size), pending.master_size),
        BackupStep::Finish(pending) => (Some(pending.user_size), pending.master_size),
        BackupStep::End(Ok(backup)) => (Some(backup.user_size), Some(backup.master_size)),
        BackupStep::End(Err(_)) => (user_size, master_size),
    };
    (user_size is Some ==> user == user_size) && (master_size is Some ==> master == master_size)
}

proof fn lemma_sizes_are_kept<'a, TransportError, ProtocolError>(
    user_id: u32,
    preparation: TransactionPreparation<'a>,
    steps: Seq<BackupStep<'a, TransportError, ProtocolError>>,
    answers: Seq<BackupAnswer<TransportError, ProtocolError>>,
    from: int,
    to: int,
    size: usize,
    query: BackupStep<'a, TransportError, ProtocolError>,
)
    requires
        is_backup_run(user_id, preparation, steps, answers),
        0 <= from <= to < steps.len(),
        task_of(query) == Some(BackupTask::QueryUserSize) ==> knows(steps[from], Some(size), None),
        task_of(query) == Some(BackupTask::QueryMasterSize) ==> knows(
            steps[from],
            None,
            Some(size),
        ),
    ensures
        task_of(query) == Some(BackupTask::QueryUserSize) ==> knows(steps[to], Some(size), None),
        task_of(query) == Some(BackupTask::QueryMasterSize) ==> knows(steps[to], None, Some(size)),
    decreases to - from,
{
    if from < to {
        lemma_sizes_are_kept(user_id, preparation, steps, answers, from, to - 1, size, query);
        assert(backup_follows(steps[to - 1], answers[to - 1], steps[to - 1 + 1]));
    }
}

} // verus!
