use std::collections::VecDeque;
use t1_daemons::catacomb_session::{
    backup_catacomb_pair, backup_catacomb_pair_with_reserved_metadata,
    backup_catacomb_pair_with_transaction_and_metadata, reserve_transaction_with_metadata,
    BackupStep, CatacombBackup, CatacombSessionError, ExportFault, ReserveMetadataStep,
    StorageWork,
};
use t1_daemons::catacomb_store::{
    reject_recovery_state, CatacombPairStore, CatacombStoreError, StoreEntry, StoreLimits,
};
use t1_daemons::catacomb_transaction::{
    BeginStep, CatacombPairTransaction, Member, TransactionProgress, Work,
};

const USER: u32 = 501;

#[derive(Clone, Copy, Debug, Eq, PartialEq)]
struct SyntheticError;

#[derive(Clone, Copy, Debug, Eq, PartialEq)]
enum ProtocolError {
    SecureExportSizeMismatch,
    InvalidResponseLength,
    UnexpectedResponseData { actual: usize },
}

type Fault = ExportFault<SyntheticError, ProtocolError>;
type Error = CatacombSessionError<SyntheticError, ProtocolError>;
type Step<'a> = BackupStep<'a, SyntheticError, ProtocolError>;

struct FakeTransport {
    responses: VecDeque<Result<Vec<u8>, SyntheticError>>,
    commands: Vec<(u16, u32, usize)>,
}

impl FakeTransport {
    fn new(responses: impl IntoIterator<Item = Vec<u8>>) -> Self {
        Self { responses: responses.into_iter().map(Ok).collect(), commands: Vec::new() }
    }

    fn execute(&mut self, code: u16, user: u32, capacity: usize) -> Result<Vec<u8>, Fault> {
        self.commands.push((code, user, capacity));
        self.responses.pop_front().expect("synthetic response").map_err(ExportFault::Transport)
    }

    fn size(&mut self, user: u32) -> Result<usize, Fault> {
        let response = self.execute(0x3d, user, 4)?;
        let bytes: [u8; 4] = response
            .try_into()
            .map_err(|_| ExportFault::Catacomb(ProtocolError::InvalidResponseLength))?;
        Ok(u32::from_le_bytes(bytes) as usize)
    }

    fn export(&mut self, user: u32, size: usize) -> Result<Vec<u8>, Fault> {
        let response = self.execute(0x3e, user, size)?;
        if response.len() != size {
            return Err(ExportFault::Catacomb(ProtocolError::SecureExportSizeMismatch));
        }
        Ok(response)
    }

    fn finish(&mut self, user: u32) -> Result<(), Fault> {
        let response = self.execute(0x3f, user, 0)?;
        if !response.is_empty() {
            let actual = response.len();
            return Err(ExportFault::Command(ProtocolError::UnexpectedResponseData { actual }));
        }
        Ok(())
    }
}

/// What a store keeps of its transactions: the promoted members and the
/// reservations' names.
struct FakeStore {
    store: CatacombPairStore,
    user: Vec<u8>,
    master: Vec<u8>,
    metadata: Option<Vec<u8>>,
    written: Vec<(Member, Vec<u8>)>,
    reservations: Vec<Vec<u8>>,
    promoted: bool,
}

impl FakeStore {
    fn new() -> Self {
        Self {
            store: CatacombPairStore::new(StoreLimits { blob: 4096, manifest: 512 }),
            user: Vec::new(),
            master: Vec::new(),
            metadata: None,
            written: Vec::new(),
            reservations: Vec::new(),
            promoted: false,
        }
    }

    fn begin(&mut self) -> Result<CatacombPairTransaction, CatacombStoreError> {
        let mut step = self.store.begin_transaction();
        loop {
            step = match step {
                BeginStep::PrepareDirectory(pending) => pending.prepared(Ok(())),
                BeginStep::RejectRecoveryState(prepared) => {
                    let listing: Vec<StoreEntry> =
                        self.reservations.iter().cloned().map(StoreEntry::Named).collect();
                    prepared.listed(reject_recovery_state(Some(&listing)), b"a-b-c".to_vec())
                }
                BeginStep::CreateStage(staged) => {
                    self.written.clear();
                    return staged.created(Ok(()));
                }
                BeginStep::Failed(error) => return Err(error),
            };
        }
    }

    fn drive(
        &mut self,
        mut progress: TransactionProgress,
    ) -> (CatacombPairTransaction, Result<(), CatacombStoreError>) {
        loop {
            match progress {
                TransactionProgress::Next(pending) => {
                    match pending.work() {
                        Work::CreateReservation => {
                            self.reservations.push(pending.transaction().recovery_marker());
                        }
                        Work::WriteMember(member) => {
                            self.written.push((member, pending.content().to_vec()));
                        }
                        Work::ReplaceMarker => {
                            self.promoted = true;
                            self.metadata = None;
                            for (member, content) in self.written.drain(..) {
                                match member {
                                    Member::Metadata => self.metadata = Some(content),
                                    Member::User => self.user = content,
                                    Member::Master => self.master = content,
                                }
                            }
                        }
                        Work::RemoveReservation => self.reservations.clear(),
                        _ => {}
                    }
                    progress = pending.done(Ok(()));
                }
                TransactionProgress::End(transaction, result) => return (transaction, result),
            }
        }
    }

    fn commit(&mut self, user: &[u8], master: &[u8]) {
        let transaction = self.begin().unwrap();
        let (transaction, written) = self.drive(transaction.write_user(user));
        assert_eq!(written, Ok(()));
        let (transaction, written) = self.drive(transaction.write_master(master));
        assert_eq!(written, Ok(()));
        assert_eq!(self.drive(transaction.promote()).1, Ok(()));
    }
}

fn run(
    mut step: Step,
    transport: &mut FakeTransport,
    store: &mut FakeStore,
    transaction: Option<CatacombPairTransaction>,
) -> Result<CatacombBackup, Error> {
    let mut transaction = transaction;
    loop {
        step = match step {
            BackupStep::Size(pending) => {
                let user = wire(pending.addressee());
                pending.answered(transport.size(user))
            }
            BackupStep::Store(pending) => {
                let current = transaction.take().unwrap();
                let progress = match &pending.work {
                    StorageWork::Reserve { .. } => current.reserve_recovery(),
                    StorageWork::WriteMetadata { metadata, .. } => {
                        current.write_metadata(metadata, true)
                    }
                    StorageWork::WriteUser { blob, .. } => current.write_user(blob),
                    StorageWork::WriteMaster { blob, .. } => current.write_master(blob),
                    StorageWork::Promote { .. } => current.promote_after_native_finish(),
                };
                let (after, outcome) = store.drive(progress);
                transaction = Some(after);
                pending.stored(outcome)
            }
            BackupStep::Export(pending) => {
                let user = wire(pending.addressee());
                pending.exported(transport.export(user, pending.size()))
            }
            BackupStep::Finish(pending) => {
                let user = wire(pending.addressee());
                pending.finished(transport.finish(user))
            }
            BackupStep::End(result) => return result,
        };
    }
}

fn backup(transport: &mut FakeTransport, store: &mut FakeStore) -> Result<CatacombBackup, Error> {
    let begun = store.begin();
    let (transaction, begun) = match begun {
        Ok(transaction) => (Some(transaction), Ok(())),
        Err(error) => (None, Err(error)),
    };
    run(backup_catacomb_pair(begun, USER), transport, store, transaction)
}

fn backup_with_metadata(
    transport: &mut FakeTransport,
    store: &mut FakeStore,
    metadata: &[u8],
) -> Result<CatacombBackup, Error> {
    let transaction = store.begin().unwrap();
    let decodes = metadata.starts_with(b"manifest");
    run(
        backup_catacomb_pair_with_transaction_and_metadata(USER, metadata, decodes),
        transport,
        store,
        Some(transaction),
    )
}

/// A user id as its four bytes on the wire read unsigned.
fn wire(user_id: i64) -> u32 {
    user_id as u32
}

fn size_response(blob: &[u8]) -> Vec<u8> {
    u32::try_from(blob.len()).unwrap().to_le_bytes().to_vec()
}

fn codes(transport: &FakeTransport) -> Vec<u16> {
    transport.commands.iter().map(|command| command.0).collect()
}

fn identity_metadata() -> Vec<u8> {
    b"manifest of one identity".to_vec()
}

#[test]
fn commits_user_then_master_with_finish_after_each_durable_write() {
    let mut store = FakeStore::new();
    let user_blob = b"synthetic encrypted user".to_vec();
    let master_blob = b"synthetic encrypted master".to_vec();
    let mut transport = FakeTransport::new([
        size_response(&user_blob),
        user_blob.clone(),
        Vec::new(),
        size_response(&master_blob),
        master_blob.clone(),
        Vec::new(),
    ]);

    assert!(matches!(
        backup(&mut transport, &mut store),
        Ok(backup) if backup == CatacombBackup {
            user_size: user_blob.len(),
            master_size: master_blob.len(),
        }
    ));
    assert_eq!(
        transport.commands,
        [
            (0x3d, 501, 4),
            (0x3e, 501, user_blob.len()),
            (0x3f, 501, 0),
            (0x3d, u32::MAX, 4),
            (0x3e, u32::MAX, master_blob.len()),
            (0x3f, u32::MAX, 0),
        ]
    );
    assert!(store.promoted);
    assert_eq!(store.user, user_blob);
    assert_eq!(store.master, master_blob);
}

#[test]
fn metadata_wrapper_uses_the_shared_native_export_sequence() {
    let mut store = FakeStore::new();
    let metadata = identity_metadata();
    let user_blob = b"synthetic encrypted user".to_vec();
    let master_blob = b"synthetic encrypted master".to_vec();
    let mut transport = FakeTransport::new([
        size_response(&user_blob),
        user_blob,
        Vec::new(),
        size_response(&master_blob),
        master_blob,
        Vec::new(),
    ]);

    assert!(backup_with_metadata(&mut transport, &mut store, &metadata).is_ok());

    assert_eq!(store.metadata, Some(metadata));
    assert_eq!(codes(&transport), [0x3d, 0x3e, 0x3f, 0x3d, 0x3e, 0x3f]);
}

#[test]
fn invalid_metadata_fails_before_hardware_or_reservation() {
    let mut store = FakeStore::new();
    let mut transport = FakeTransport::new([]);

    assert!(matches!(
        backup_with_metadata(&mut transport, &mut store, b"malformed"),
        Err(CatacombSessionError::Store(CatacombStoreError::InvalidMetadata))
    ));
    assert!(transport.commands.is_empty());
    assert!(store.begin().is_ok());
}

#[test]
fn invalid_store_fails_before_hardware() {
    let mut store = FakeStore::new();
    let mut transport = FakeTransport::new([]);
    let begun = match store.store.begin_transaction() {
        BeginStep::PrepareDirectory(pending) => {
            match pending.prepared(Err(CatacombStoreError::UnsafeStorage)) {
                BeginStep::Failed(error) => Err(error),
                _ => panic!("the store cannot be opened"),
            }
        }
        _ => panic!("the store is opened first"),
    };

    assert!(matches!(
        run(backup_catacomb_pair(begun, USER), &mut transport, &mut store, None),
        Err(CatacombSessionError::Store(CatacombStoreError::UnsafeStorage))
    ));
    assert!(transport.commands.is_empty());
}

#[test]
fn short_export_never_finishes_or_promotes() {
    let mut store = FakeStore::new();
    let mut transport = FakeTransport::new([8_u32.to_le_bytes().to_vec(), vec![0; 7]]);

    assert!(matches!(
        backup(&mut transport, &mut store),
        Err(CatacombSessionError::Catacomb(ProtocolError::SecureExportSizeMismatch))
    ));
    assert_eq!(codes(&transport), [0x3d, 0x3e]);
    assert!(!store.promoted);
}

#[test]
fn failed_finish_preserves_previous_active_pair() {
    let mut store = FakeStore::new();
    store.commit(b"old user", b"old master");
    let user_blob = b"new encrypted user".to_vec();
    let mut transport =
        FakeTransport::new([size_response(&user_blob), user_blob, vec![1]]);
    let metadata = identity_metadata();

    assert!(matches!(
        backup_with_metadata(&mut transport, &mut store, &metadata),
        Err(CatacombSessionError::Command(
            ProtocolError::UnexpectedResponseData { actual: 1 }
        ))
    ));
    assert_eq!(store.user, b"old user");
    assert_eq!(store.master, b"old master");
    assert_eq!(store.metadata, None);
    assert!(matches!(store.begin(), Err(CatacombStoreError::PendingExport)));
}

#[test]
fn failure_after_user_finish_preserves_its_durable_export() {
    let mut store = FakeStore::new();
    let user_blob = b"new encrypted user".to_vec();
    let mut transport =
        FakeTransport::new([size_response(&user_blob), user_blob, Vec::new(), Vec::new()]);

    assert!(matches!(
        backup(&mut transport, &mut store),
        Err(CatacombSessionError::Catacomb(ProtocolError::InvalidResponseLength))
    ));
    assert_eq!(codes(&transport), [0x3d, 0x3e, 0x3f, 0x3d]);
    assert!(matches!(store.begin(), Err(CatacombStoreError::PendingExport)));
}

#[test]
fn transport_diagnostics_do_not_disclose_opaque_material() {
    let mut store = FakeStore::new();
    let mut transport = FakeTransport {
        responses: VecDeque::from([Err(SyntheticError)]),
        commands: Vec::new(),
    };
    let error = match backup(&mut transport, &mut store) {
        Err(error) => error,
        Ok(_) => panic!("the transport failed"),
    };
    assert_eq!(
        format!("{} {}", error.diagnostic().unwrap(), error.message().unwrap()),
        "Transport([redacted]) biometric transport failed"
    );
}

#[test]
fn a_reserved_transaction_with_metadata_is_exported_without_another_reservation() {
    let mut store = FakeStore::new();
    let transaction = store.begin().unwrap();
    let metadata = identity_metadata();
    let mut step = reserve_transaction_with_metadata(&metadata, true);
    let mut transaction = Some(transaction);
    loop {
        let progress = match &step {
            ReserveMetadataStep::Reserve { .. } => transaction.take().unwrap().reserve_recovery(),
            ReserveMetadataStep::WriteMetadata { metadata } => {
                transaction.take().unwrap().write_metadata(metadata, true)
            }
            ReserveMetadataStep::End(result) => {
                assert_eq!(*result, Ok(()));
                break;
            }
        };
        let (after, outcome) = store.drive(progress);
        transaction = Some(after);
        step = step.done(outcome);
    }
    assert_eq!(store.reservations.len(), 1);
    let mut transport = FakeTransport::new([
        1_u32.to_le_bytes().to_vec(),
        vec![7],
        Vec::new(),
        1_u32.to_le_bytes().to_vec(),
        vec![8],
        Vec::new(),
    ]);
    assert!(run(
        backup_catacomb_pair_with_reserved_metadata(USER),
        &mut transport,
        &mut store,
        transaction,
    )
    .is_ok());
    assert_eq!(store.metadata, Some(metadata));
    assert_eq!(store.user, [7]);
    assert_eq!(store.master, [8]);
    assert!(store.reservations.is_empty());
    assert!(matches!(
        reserve_transaction_with_metadata(b"malformed", false),
        ReserveMetadataStep::End(Err(CatacombStoreError::InvalidMetadata))
    ));
}
