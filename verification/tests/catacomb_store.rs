use std::collections::BTreeMap;
use t1_daemons::catacomb_commit::CommitStep;
use t1_daemons::catacomb_names::{
    decode_marker, encode_marker, generation_name, is_generation_name, is_marker_temporary_name,
    is_stage_name, is_token, marker_temporary_name, reservation_name, stage_name,
};
use t1_daemons::catacomb_recovery::{
    sorted_names, CatacombRecoveryError, CatacombRecoveryOutcome, CleaningStep, Disposal,
    ListedName, RecoveryStep, RecoveryWork,
};
use t1_daemons::catacomb_store::{
    blob_opened, judge_member, marker_opened, metadata_opened, open_checked_directory,
    open_existing_directory, read_active_generation, read_blob, read_metadata, recovery_tokens,
    reject_recovery_state, remove_private_file, remove_private_generation,
    validate_file_identity, CatacombPair, CatacombPairStore, CatacombStoreError, LoadStep,
    PairAnswer, PairPart, PairProgress, PairReading, Removal, ReservationEntry, StoreEntry,
    StoreLimits, StoredContent, StoredFacts, StoredObject,
};
use t1_daemons::catacomb_transaction::{
    BeginStep, CatacombPairTransaction, Member, PendingWork, TransactionProgress,
    TransactionState, Work,
};
use t1_daemons::legacy_recovery::{
    classify_generations, is_uniquely_eligible, legacy_recovery_generations, GenerationFinding,
    LegacyRecoveryReservation, LegacyRecoveryReservationError, ReservationStep,
};
use t1_daemons::secret::wipe;

const OWNER: u32 = 1000;
const MAX_SECURE_CATACOMB_SIZE: usize = 4096;
const MAX_MANIFEST_SIZE: usize = 512;
const ACTIVE_MARKER: &[u8] = b"active";
const MASTER_FILE: &[u8] = b"master.raw";
const USER_FILE: &[u8] = b"user.raw";
const IDENTITY_METADATA_FILE: &[u8] = b"identities.meta";

#[derive(Clone)]
struct FakeFile {
    mode: u32,
    links: u64,
    symlink: bool,
    content: Vec<u8>,
}

struct FakeDirectory {
    mode: u32,
    files: BTreeMap<Vec<u8>, FakeFile>,
}

enum FakeEntry {
    File(FakeFile),
    Directory(FakeDirectory),
}

/// A store whose directory is kept in memory.
struct FakeStore {
    store: CatacombPairStore,
    present: bool,
    symlink: bool,
    mode: u32,
    entries: BTreeMap<Vec<u8>, FakeEntry>,
    sequence: u64,
    fails_before_marker: bool,
    fails_to_sync_promotion: bool,
    fails_to_sync_removal: bool,
}

fn private(content: &[u8]) -> FakeFile {
    FakeFile { mode: 0o600, links: 1, symlink: false, content: content.to_vec() }
}

fn facts(file: &FakeFile) -> StoredFacts {
    StoredFacts {
        is_file: !file.symlink,
        is_directory: false,
        mode: 0o100_000 | file.mode,
        owner: OWNER,
        links: file.links,
        size: file.content.len() as u64,
    }
}

fn directory_facts(mode: u32) -> StoredFacts {
    StoredFacts {
        is_file: false,
        is_directory: true,
        mode: 0o040_000 | mode,
        owner: OWNER,
        links: 2,
        size: 4096,
    }
}

fn open(file: Option<&FakeFile>) -> StoredObject {
    match file {
        None => StoredObject::Missing,
        Some(file) if file.symlink => StoredObject::Refused,
        Some(file) => StoredObject::Opened(facts(file)),
    }
}

fn decodes(metadata: &[u8]) -> bool {
    metadata.starts_with(b"manifest")
}

fn is_labeled(metadata: &[u8]) -> bool {
    metadata.starts_with(b"manifest labeled")
}

fn identity_metadata(value: u8) -> Vec<u8> {
    [b"manifest ".as_slice(), &[value; 16]].concat()
}

fn limits() -> StoreLimits {
    StoreLimits { blob: MAX_SECURE_CATACOMB_SIZE, manifest: MAX_MANIFEST_SIZE }
}

fn store() -> FakeStore {
    FakeStore {
        store: CatacombPairStore::new(limits()),
        present: false,
        symlink: false,
        mode: 0o700,
        entries: BTreeMap::new(),
        sequence: 0,
        fails_before_marker: false,
        fails_to_sync_promotion: false,
        fails_to_sync_removal: false,
    }
}

impl FakeStore {
    fn open_store(&self) -> Result<(), CatacombStoreError> {
        let object = if !self.present {
            StoredObject::Missing
        } else if self.symlink {
            StoredObject::Refused
        } else {
            StoredObject::Opened(directory_facts(self.mode))
        };
        open_existing_directory(&object, Some(OWNER))
    }

    fn file(&self, name: &[u8]) -> Option<&FakeFile> {
        match self.entries.get(name) {
            Some(FakeEntry::File(file)) => Some(file),
            _ => None,
        }
    }

    fn directory(&self, name: &[u8]) -> Option<&FakeDirectory> {
        match self.entries.get(name) {
            Some(FakeEntry::Directory(directory)) => Some(directory),
            _ => None,
        }
    }

    fn directory_mut(&mut self, name: &[u8]) -> &mut FakeDirectory {
        match self.entries.get_mut(name) {
            Some(FakeEntry::Directory(directory)) => directory,
            _ => panic!("the directory exists"),
        }
    }

    fn member(&self, generation: &[u8], name: &[u8]) -> Option<&FakeFile> {
        self.directory(generation).and_then(|directory| directory.files.get(name))
    }

    fn has(&self, name: &[u8]) -> bool {
        self.entries.contains_key(name)
    }

    fn listing(&self) -> Vec<StoreEntry> {
        self.entries.keys().map(|name| StoreEntry::Named(name.clone())).collect()
    }

    fn tokens(&self) -> Result<Vec<Vec<u8>>, CatacombStoreError> {
        let entries: Vec<ReservationEntry> = self
            .entries
            .iter()
            .map(|(name, entry)| ReservationEntry {
                entry: StoreEntry::Named(name.clone()),
                facts: Some(match entry {
                    FakeEntry::File(file) => facts(file),
                    FakeEntry::Directory(directory) => directory_facts(directory.mode),
                }),
            })
            .collect();
        recovery_tokens(Some(&entries), Some(OWNER))
    }

    fn active_generation(&self) -> Result<Vec<u8>, CatacombStoreError> {
        let file = self.file(ACTIVE_MARKER);
        let size = marker_opened(&open(file), Some(OWNER))?;
        let content = file.unwrap().content.clone();
        assert_eq!(size, content.len());
        read_active_generation(StoredContent::Exact(content))
    }

    fn read_member(
        &self,
        generation: &[u8],
        name: &[u8],
        limits: &StoreLimits,
    ) -> Result<Vec<u8>, CatacombStoreError> {
        let file = self.member(generation, name);
        let size = blob_opened(&open(file), Some(OWNER), limits)?;
        let content = file.unwrap().content.clone();
        assert_eq!(size, content.len());
        read_blob(StoredContent::Exact(content), limits)
    }

    fn read_manifest(
        &self,
        generation: &[u8],
        limits: &StoreLimits,
    ) -> Result<Option<Vec<u8>>, CatacombStoreError> {
        let file = self.member(generation, IDENTITY_METADATA_FILE);
        match metadata_opened(&open(file), Some(OWNER), limits)? {
            None => Ok(None),
            Some(size) => {
                let content = file.unwrap().content.clone();
                assert_eq!(size, content.len());
                let valid = decodes(&content);
                read_metadata(StoredContent::Exact(content), valid, limits).map(Some)
            }
        }
    }

    fn read_pair(
        &self,
        mut reading: PairReading,
    ) -> Result<CatacombPair, CatacombStoreError> {
        loop {
            let generation = reading.generation().to_vec();
            let limits = reading.limits();
            let answer = match reading.part() {
                PairPart::Directory => {
                    let object = match self.entries.get(&generation) {
                        Some(FakeEntry::Directory(directory)) => {
                            StoredObject::Opened(directory_facts(directory.mode))
                        }
                        Some(FakeEntry::File(_)) => StoredObject::Refused,
                        None => StoredObject::Missing,
                    };
                    PairAnswer::Directory(open_checked_directory(&object, Some(OWNER)))
                }
                PairPart::Master => {
                    PairAnswer::Blob(self.read_member(&generation, MASTER_FILE, &limits))
                }
                PairPart::User => {
                    PairAnswer::Blob(self.read_member(&generation, USER_FILE, &limits))
                }
                PairPart::Metadata => {
                    PairAnswer::Metadata(self.read_manifest(&generation, &limits))
                }
            };
            match reading.answered(answer) {
                PairProgress::Next(next) => reading = next,
                PairProgress::End(result) => return result,
            }
        }
    }

    fn load(&self) -> Result<CatacombPair, CatacombStoreError> {
        let mut step = self.store.load();
        loop {
            step = match step {
                LoadStep::OpenStore(pending) => pending.opened(self.open_store()),
                LoadStep::ReadMarker(pending) => pending.read(self.active_generation()),
                LoadStep::ReadPair(reading) => return self.read_pair(reading),
                LoadStep::End(result) => return result,
            };
        }
    }

    fn load_failure(&self) -> CatacombStoreError {
        match self.load() {
            Err(error) => error,
            Ok(_) => panic!("no pair can be loaded"),
        }
    }

    fn loaded_user(&self) -> Vec<u8> {
        match self.load() {
            Ok(pair) => pair.user().to_vec(),
            Err(error) => panic!("{}", error.message()),
        }
    }

    fn is_empty_for_first_owner(&self) -> Result<bool, CatacombStoreError> {
        self.store.is_empty_for_first_owner(self.open_store(), Some(&self.listing()))
    }

    fn next_token(&mut self) -> Vec<u8> {
        self.sequence += 1;
        format!("2a-1f-{:x}", self.sequence).into_bytes()
    }

    fn drive_begin(
        &mut self,
        mut step: BeginStep,
    ) -> Result<CatacombPairTransaction, CatacombStoreError> {
        loop {
            step = match step {
                BeginStep::PrepareDirectory(pending) => {
                    self.present = true;
                    pending.prepared(self.open_store())
                }
                BeginStep::RejectRecoveryState(prepared) => {
                    let token = self.next_token();
                    prepared.listed(reject_recovery_state(Some(&self.listing())), token)
                }
                BeginStep::CreateStage(staged) => {
                    self.create_directory(&staged.stage());
                    return staged.created(Ok(()));
                }
                BeginStep::Failed(error) => return Err(error),
            };
        }
    }

    fn create_directory(&mut self, name: &[u8]) {
        self.entries.insert(
            name.to_vec(),
            FakeEntry::Directory(FakeDirectory { mode: 0o700, files: BTreeMap::new() }),
        );
    }

    fn create_file(&mut self, name: &[u8], content: &[u8]) -> Result<(), CatacombStoreError> {
        if self.has(name) {
            return Err(CatacombStoreError::StorageUnavailable);
        }
        self.entries.insert(name.to_vec(), FakeEntry::File(private(content)));
        Ok(())
    }

    fn begin_transaction(&mut self) -> Result<CatacombPairTransaction, CatacombStoreError> {
        let step = self.store.begin_transaction();
        self.drive_begin(step)
    }

    fn refuses_transaction(&mut self) -> bool {
        matches!(self.begin_transaction(), Err(CatacombStoreError::PendingExport))
    }

    fn perform(&mut self, pending: &PendingWork) -> Result<(), CatacombStoreError> {
        let transaction = pending.transaction();
        match pending.work() {
            Work::RenameForReservation | Work::RenameForPromotion => {
                let stage = self.entries.remove(&transaction.stage()).unwrap();
                self.entries.insert(transaction.generation(), stage);
                Ok(())
            }
            Work::CreateReservation => self.create_file(&transaction.recovery_marker(), b""),
            Work::WriteMember(member) => {
                let name = match member {
                    Member::Metadata => IDENTITY_METADATA_FILE,
                    Member::User => USER_FILE,
                    Member::Master => MASTER_FILE,
                };
                self.directory_mut(&transaction.write_directory())
                    .files
                    .insert(name.to_vec(), private(pending.content()));
                Ok(())
            }
            Work::BeforeMarker if self.fails_before_marker => {
                Err(CatacombStoreError::StorageUnavailable)
            }
            Work::WriteMarker => {
                assert_eq!(pending.content(), encode_marker(&transaction.generation()));
                self.create_file(&transaction.marker_temporary(), pending.content())
            }
            Work::ReplaceMarker => self.rename_marker(&transaction.marker_temporary()),
            Work::SyncPromotion if self.fails_to_sync_promotion => {
                Err(CatacombStoreError::StorageUnavailable)
            }
            Work::RemoveReservation => self.remove_file(&transaction.recovery_marker()),
            Work::SyncForReservation
            | Work::SyncReservation
            | Work::SyncReserved
            | Work::SyncMember(_)
            | Work::SyncForPromotion
            | Work::BeforeMarker
            | Work::SyncPromotion => Ok(()),
            Work::SyncRemoval if self.fails_to_sync_removal => {
                Err(CatacombStoreError::StorageUnavailable)
            }
            Work::SyncRemoval => Ok(()),
        }
    }

    fn rename_marker(&mut self, temporary: &[u8]) -> Result<(), CatacombStoreError> {
        if self.directory(ACTIVE_MARKER).is_some() {
            return Err(CatacombStoreError::StorageUnavailable);
        }
        let marker = self.entries.remove(temporary).unwrap();
        self.entries.insert(ACTIVE_MARKER.to_vec(), marker);
        Ok(())
    }

    fn remove_file(&mut self, name: &[u8]) -> Result<(), CatacombStoreError> {
        let found = match self.entries.get(name) {
            None => StoredObject::Missing,
            Some(FakeEntry::File(file)) => StoredObject::Opened(facts(file)),
            Some(FakeEntry::Directory(directory)) => {
                StoredObject::Opened(directory_facts(directory.mode))
            }
        };
        if remove_private_file(&found, Some(OWNER))? == Removal::Remove {
            self.entries.remove(name);
        }
        Ok(())
    }

    fn remove_generation(&mut self, name: &[u8]) -> Result<(), CatacombStoreError> {
        let found = match self.directory(name) {
            None => StoredObject::Missing,
            Some(directory) => StoredObject::Opened(directory_facts(directory.mode)),
        };
        if remove_private_generation(&found, Some(OWNER))? == Removal::Nothing {
            return Ok(());
        }
        let members: Vec<Vec<u8>> = self.directory(name).unwrap().files.keys().cloned().collect();
        for member in members {
            judge_member(&StoreEntry::Named(member.clone()))?;
            let found = StoredObject::Opened(facts(self.member(name, &member).unwrap()));
            remove_private_file(&found, Some(OWNER))?;
            self.directory_mut(name).files.remove(&member);
        }
        self.entries.remove(name);
        Ok(())
    }

    fn drive(
        &mut self,
        mut progress: TransactionProgress,
    ) -> (CatacombPairTransaction, Result<(), CatacombStoreError>) {
        loop {
            match progress {
                TransactionProgress::Next(pending) => {
                    let outcome = self.perform(&pending);
                    progress = pending.done(outcome);
                }
                TransactionProgress::End(transaction, result) => return (transaction, result),
            }
        }
    }

    fn reserve(&mut self, transaction: CatacombPairTransaction) -> CatacombPairTransaction {
        let (transaction, result) = self.drive(transaction.reserve_recovery());
        assert_eq!(result, Ok(()));
        transaction
    }

    fn write_metadata(
        &mut self,
        transaction: CatacombPairTransaction,
        metadata: &[u8],
    ) -> (CatacombPairTransaction, Result<(), CatacombStoreError>) {
        self.drive(transaction.write_metadata(metadata, decodes(metadata)))
    }

    fn write_user(
        &mut self,
        transaction: CatacombPairTransaction,
        user: &[u8],
    ) -> (CatacombPairTransaction, Result<(), CatacombStoreError>) {
        self.drive(transaction.write_user(user))
    }

    fn write_master(
        &mut self,
        transaction: CatacombPairTransaction,
        master: &[u8],
    ) -> (CatacombPairTransaction, Result<(), CatacombStoreError>) {
        self.drive(transaction.write_master(master))
    }

    fn wrote(
        &mut self,
        written: (CatacombPairTransaction, Result<(), CatacombStoreError>),
    ) -> CatacombPairTransaction {
        assert_eq!(written.1, Ok(()));
        written.0
    }

    /// What leaving a transaction cleans up.
    fn leave(&mut self, transaction: &CatacombPairTransaction) {
        let _ = self.remove_file(&transaction.marker_temporary());
        let cleanup = transaction.cleanup();
        if cleanup.stage {
            let _ = self.remove_generation(&transaction.stage());
        }
        if cleanup.generation {
            let _ = self.remove_generation(&transaction.generation());
        }
    }

    fn promote(
        &mut self,
        transaction: CatacombPairTransaction,
        after_native_finish: bool,
    ) -> Result<(), CatacombStoreError> {
        let progress = if after_native_finish {
            transaction.promote_after_native_finish()
        } else {
            transaction.promote()
        };
        let (transaction, result) = self.drive(progress);
        self.leave(&transaction);
        result
    }

    fn commit(&mut self, user: &[u8], master: &[u8]) -> Result<(), CatacombStoreError> {
        let mut step = self.store.commit(user, master);
        loop {
            step = match step {
                CommitStep::PrepareDirectory(pending) => {
                    self.present = true;
                    pending.prepared(self.open_store())
                }
                CommitStep::RejectRecoveryState(prepared) => {
                    let token = self.next_token();
                    prepared.listed(reject_recovery_state(Some(&self.listing())), token)
                }
                CommitStep::CreateStage(staged) => {
                    self.create_directory(&staged.stage());
                    staged.created(Ok(()))
                }
                CommitStep::Work(work) => {
                    let outcome = self.perform(work.pending());
                    work.done(outcome)
                }
                CommitStep::End(transaction, result) => {
                    if let Some(transaction) = transaction {
                        self.leave(&transaction);
                    }
                    return result;
                }
            };
        }
    }

    /// Leaves a reserved transaction with these members; returns its token.
    fn abandon_reserved(
        &mut self,
        metadata: Option<&[u8]>,
        user: Option<&[u8]>,
        master: Option<&[u8]>,
    ) -> Vec<u8> {
        let transaction = self.begin_transaction().unwrap();
        let mut transaction = self.reserve(transaction);
        if let Some(metadata) = metadata {
            let written = self.write_metadata(transaction, metadata);
            transaction = self.wrote(written);
        }
        if let Some(user) = user {
            let written = self.write_user(transaction, user);
            transaction = self.wrote(written);
        }
        if let Some(master) = master {
            let written = self.write_master(transaction, master);
            transaction = self.wrote(written);
        }
        self.leave(&transaction);
        transaction.recovery_marker()[b".recovery-".len()..].to_vec()
    }

    fn recover(&mut self) -> Result<(), CatacombStoreError> {
        let mut step = self.store.recover();
        loop {
            step = match step {
                CleaningStep::OpenStore(pending) => pending.opened(self.open_store()),
                CleaningStep::SyncStore(opened) => opened.synchronized(true),
                CleaningStep::ReadActive(pending) => pending.read(self.active_generation()),
                CleaningStep::LoadActive(loaded) => loaded.loaded(self.load().map(|_| ())),
                CleaningStep::ListEntries(listing) => listing.listed(Some(
                    self.entries
                        .keys()
                        .rev()
                        .map(|name| ListedName { name: name.clone(), is_text: true })
                        .collect(),
                )),
                CleaningStep::ReadTokens(listed) => listed.reserved(self.tokens()),
                CleaningStep::Remove(removing) => {
                    let target = removing.target().to_vec();
                    let outcome = match removing.disposal() {
                        Disposal::RemoveGeneration => self.remove_generation(&target),
                        Disposal::RemoveFile => self.remove_file(&target),
                        Disposal::Keep | Disposal::Refuse => panic!("nothing to remove"),
                    };
                    removing.removed(outcome)
                }
                CleaningStep::SyncEnd(last) => return last.synchronized(true),
                CleaningStep::End(result) => return result,
            };
        }
    }

    fn recover_with_validator<E>(
        &mut self,
        mut validator: impl FnMut(&CatacombPair) -> Result<bool, E>,
    ) -> Result<CatacombRecoveryOutcome, CatacombRecoveryError<E>> {
        let mut step = self.store.recover_with_validator();
        loop {
            step = match step {
                RecoveryStep::Work(pending) => {
                    let temporary = marker_temporary_name(pending.token());
                    let outcome = match pending.work() {
                        RecoveryWork::OpenStore => self.open_store(),
                        RecoveryWork::SyncStore
                        | RecoveryWork::SyncPromotion => Ok(()),
                        RecoveryWork::SyncRemoval if self.fails_to_sync_removal => {
                            Err(CatacombStoreError::StorageUnavailable)
                        }
                        RecoveryWork::SyncRemoval => Ok(()),
                        RecoveryWork::RemoveTemporary | RecoveryWork::DiscardTemporary => {
                            self.remove_file(&temporary)
                        }
                        RecoveryWork::WriteMarker => {
                            let generation = generation_name(pending.token());
                            assert_eq!(pending.content(), encode_marker(&generation));
                            self.create_file(&temporary, &pending.content())
                        }
                        RecoveryWork::ReplaceMarker => self.rename_marker(&temporary),
                        RecoveryWork::RemoveReservation => {
                            let marker = reservation_name(pending.token());
                            self.remove_file(&marker)
                        }
                    };
                    pending.done(outcome)
                }
                RecoveryStep::ReadTokens(reserved) => reserved.read(self.tokens()),
                RecoveryStep::Probe(probed) => {
                    let stage = self.has(&stage_name(probed.token()));
                    let generation = self.has(&generation_name(probed.token()));
                    probed.probed(stage, generation)
                }
                RecoveryStep::ReadPair(candidate) => {
                    let reading = candidate.reading();
                    assert_eq!(reading.generation(), generation_name(candidate.token()));
                    let pair = self.read_pair(reading);
                    candidate.read(pair)
                }
                RecoveryStep::Validate(judged) => {
                    let decision = validator(judged.pair());
                    judged.judged(decision)
                }
                RecoveryStep::ReadActive(accepted) => accepted.active(self.active_generation()),
                RecoveryStep::End(result) => return result,
            };
        }
    }

    fn recovered(&mut self, accept: bool, called: &mut bool) -> CatacombRecoveryOutcome {
        match self.recover_with_validator(|_| {
            *called = true;
            Ok::<bool, ()>(accept)
        }) {
            Ok(outcome) => outcome,
            Err(_) => panic!("recovery cannot fail here"),
        }
    }

    fn reserve_unique_inactive_legacy_recovery(
        &mut self,
    ) -> Result<LegacyRecoveryReservation, LegacyRecoveryReservationError> {
        self.open_store().map_err(LegacyRecoveryReservationError::Store)?;
        let active = self.active_generation().map_err(LegacyRecoveryReservationError::Store)?;
        let names = legacy_recovery_generations(Some(&self.listing()), &active)?;
        let findings: Vec<GenerationFinding> = names
            .iter()
            .map(|name| {
                let reading = PairReading::begin(name.clone(), self.store.limits());
                match self.read_pair(reading) {
                    Err(error) => GenerationFinding::Unreadable(error),
                    Ok(pair) => match pair.metadata() {
                        None => GenerationFinding::NoMetadata,
                        Some(metadata) => {
                            GenerationFinding::Metadata { labeled: is_labeled(metadata) }
                        }
                    },
                }
            })
            .collect();
        let generations = classify_generations(names, &findings)?;
        if !is_uniquely_eligible(&generations) {
            return Err(LegacyRecoveryReservationError::Refused);
        }
        let tokens = self.tokens().map_err(LegacyRecoveryReservationError::Store)?;
        match self.store.reserve_unique_inactive_legacy_recovery(&generations, &active, &tokens) {
            ReservationStep::Create(name) => {
                self.create_file(&name, b"").map_err(LegacyRecoveryReservationError::Store)?;
                Ok(LegacyRecoveryReservation::Created)
            }
            ReservationStep::Existing => Ok(LegacyRecoveryReservation::Existing),
            ReservationStep::Refused => Err(LegacyRecoveryReservationError::Refused),
        }
    }

    fn count(&self, counts: impl Fn(&[u8]) -> bool) -> usize {
        self.entries.keys().filter(|name| counts(name)).count()
    }

    fn generation_count(&self) -> usize {
        self.count(is_generation_name)
    }

    fn recovery_count(&self) -> usize {
        self.count(|name| name.starts_with(b".recovery-"))
    }
}

#[test]
fn complete_pair_round_trips_in_restore_order() {
    let mut store = store();
    let user = b"synthetic user catacomb";
    let master = b"synthetic master catacomb";

    assert_eq!(store.commit(user, master), Ok(()));
    let pair = store.load().unwrap();

    assert_eq!(pair.master(), master);
    assert_eq!(pair.user(), user);
    assert_eq!(pair.metadata(), None);
    let generation = store.active_generation().unwrap();
    assert_eq!(store.directory(&generation).unwrap().files.len(), 2);
    assert!(store.member(&generation, MASTER_FILE).is_some());
    assert!(store.member(&generation, USER_FILE).is_some());
    assert_eq!(store.entries.len(), 2);
}

#[test]
fn staged_transaction_exposes_only_durable_native_finish_boundaries() {
    let mut store = store();
    let transaction = store.begin_transaction().unwrap();

    assert_eq!(transaction.state(), TransactionState::Empty);
    assert_eq!(store.load_failure(), CatacombStoreError::MissingPair);
    let written = store.write_user(transaction, b"synthetic user");
    let transaction = store.wrote(written);
    assert_eq!(transaction.state(), TransactionState::UserDurable);
    assert!(store.member(&transaction.stage(), USER_FILE).is_some());
    assert!(store.member(&transaction.stage(), MASTER_FILE).is_none());
    assert_eq!(store.load_failure(), CatacombStoreError::MissingPair);

    let written = store.write_master(transaction, b"synthetic master");
    let transaction = store.wrote(written);
    assert_eq!(transaction.state(), TransactionState::PairDurable);
    assert!(store.member(&transaction.stage(), MASTER_FILE).is_some());
    assert_eq!(store.promote(transaction, false), Ok(()));

    let pair = store.load().unwrap();
    assert_eq!(pair.user(), b"synthetic user");
    assert_eq!(pair.master(), b"synthetic master");
}

#[test]
fn staged_transaction_rejects_out_of_order_or_repeated_members() {
    let mut store = store();
    let transaction = store.begin_transaction().unwrap();

    let (transaction, result) = store.write_master(transaction, b"master");
    assert_eq!(result, Err(CatacombStoreError::InvalidTransactionState));
    let written = store.write_user(transaction, b"user");
    let transaction = store.wrote(written);
    let (transaction, result) = store.write_user(transaction, b"replacement");
    assert_eq!(result, Err(CatacombStoreError::InvalidTransactionState));
    assert_eq!(
        store.promote(transaction, false),
        Err(CatacombStoreError::InvalidTransactionState)
    );
    assert_eq!(store.load_failure(), CatacombStoreError::MissingPair);
}

#[test]
fn reserved_metadata_round_trips_and_enforces_native_order() {
    let mut store = store();
    let metadata = identity_metadata(1);
    let transaction = store.begin_transaction().unwrap();

    let (transaction, result) = store.write_metadata(transaction, &metadata);
    assert_eq!(result, Err(CatacombStoreError::InvalidTransactionState));
    let transaction = store.reserve(transaction);
    let written = store.write_metadata(transaction, &metadata);
    let transaction = store.wrote(written);
    let (transaction, result) = store.write_metadata(transaction, &metadata);
    assert_eq!(result, Err(CatacombStoreError::InvalidTransactionState));
    let written = store.write_user(transaction, b"synthetic user");
    let transaction = store.wrote(written);
    let (transaction, result) = store.write_metadata(transaction, &metadata);
    assert_eq!(result, Err(CatacombStoreError::InvalidTransactionState));
    let written = store.write_master(transaction, b"synthetic master");
    let transaction = store.wrote(written);
    assert_eq!(store.promote(transaction, true), Ok(()));

    assert_eq!(store.load().unwrap().metadata(), Some(metadata.as_slice()));
}

#[test]
fn malformed_metadata_fails_closed_and_is_bounded_before_write() {
    let mut pending_store = store();
    let transaction = pending_store.begin_transaction().unwrap();
    let transaction = pending_store.reserve(transaction);
    let (transaction, result) = pending_store.write_metadata(transaction, b"malformed");
    assert_eq!(result, Err(CatacombStoreError::InvalidMetadata));
    let mut oversized = b"manifest".to_vec();
    oversized.resize(MAX_MANIFEST_SIZE + 1, 0);
    let (_, result) = pending_store.write_metadata(transaction, &oversized);
    assert_eq!(result, Err(CatacombStoreError::InvalidMetadata));

    let mut active_store = store();
    assert_eq!(active_store.commit(b"user", b"master"), Ok(()));
    let generation = active_store.active_generation().unwrap();
    active_store
        .directory_mut(&generation)
        .files
        .insert(IDENTITY_METADATA_FILE.to_vec(), private(b"malformed"));
    assert_eq!(active_store.load_failure(), CatacombStoreError::InvalidMetadata);
}

#[test]
fn dropping_partial_transaction_preserves_active_pair_and_cleans_stage() {
    let mut store = store();
    assert_eq!(store.commit(b"active user", b"active master"), Ok(()));
    let transaction = store.begin_transaction().unwrap();
    let written = store.write_user(transaction, b"uncommitted user");
    let transaction = store.wrote(written);
    let stage = transaction.stage();
    assert!(store.has(&stage));
    store.leave(&transaction);

    assert!(!store.has(&stage));
    let pair = store.load().unwrap();
    assert_eq!(pair.user(), b"active user");
    assert_eq!(pair.master(), b"active master");
}

#[test]
fn uncertain_finish_material_is_retained_and_blocks_new_export() {
    let mut store = store();
    let token = store.abandon_reserved(None, Some(b"recovery user"), None);
    let generation = generation_name(&token);

    assert!(store.member(&generation, USER_FILE).is_some());
    assert!(store.has(&reservation_name(&token)));
    assert_eq!(store.recover(), Ok(()));
    assert!(store.member(&generation, USER_FILE).is_some());
    assert!(store.refuses_transaction());
}

#[test]
fn reserved_empty_generation_survives_crash_and_is_quarantined() {
    let mut store = store();
    assert_eq!(store.commit(b"active user", b"active master"), Ok(()));
    let active = store.active_generation().unwrap();
    let token = store.abandon_reserved(None, None, None);

    let mut validator_called = false;
    assert_eq!(
        store.recovered(true, &mut validator_called),
        CatacombRecoveryOutcome::Quarantined
    );
    assert!(!validator_called);
    assert!(store.directory(&generation_name(&token)).is_some());
    assert!(store.directory(&active).is_some());
    assert_eq!(store.loaded_user(), b"active user");
    assert!(store.refuses_transaction());
}

#[test]
fn absent_store_is_clean_without_creation_or_validation() {
    let mut store = store();
    let mut validator_called = false;
    assert_eq!(store.recovered(true, &mut validator_called), CatacombRecoveryOutcome::Clean);
    assert!(!validator_called);
    assert!(!store.present);
}

#[test]
fn first_owner_requires_an_absent_catacomb_namespace() {
    let mut store = store();
    assert_eq!(store.is_empty_for_first_owner(), Ok(true));
    store.present = true;
    assert_eq!(store.create_file(b"owner.uid", b"42000\n"), Ok(()));
    assert_eq!(store.is_empty_for_first_owner(), Ok(true));

    assert_eq!(store.create_file(b".recovery-malformed", b""), Ok(()));
    assert_eq!(store.is_empty_for_first_owner(), Ok(false));
}

#[test]
fn live_validator_alone_can_promote_one_complete_candidate() {
    let mut store = store();
    assert_eq!(store.commit(b"old user", b"old master"), Ok(()));
    let old_generation = store.active_generation().unwrap();
    let token = store.abandon_reserved(None, Some(b"current user"), Some(b"current master"));

    let outcome = store.recover_with_validator(|pair| {
        assert_eq!(pair.user(), b"current user");
        assert_eq!(pair.master(), b"current master");
        Ok::<bool, ()>(true)
    });
    assert!(matches!(outcome, Ok(CatacombRecoveryOutcome::Promoted)));
    assert_eq!(store.active_generation().unwrap(), generation_name(&token));
    assert!(!store.has(&reservation_name(&token)));
    assert!(store.member(&old_generation, USER_FILE).is_some());
    assert!(store.member(&old_generation, MASTER_FILE).is_some());
    assert!(store.begin_transaction().is_ok());
}

#[test]
fn live_recovery_replaces_its_exact_stale_marker_temporary() {
    let mut store = store();
    let token = store.abandon_reserved(None, Some(b"current user"), Some(b"current master"));
    let temporary = marker_temporary_name(&token);
    assert_eq!(store.create_file(&temporary, b"pair-a-b-c\n"), Ok(()));

    assert_eq!(store.recovered(true, &mut false), CatacombRecoveryOutcome::Promoted);
    assert_eq!(store.active_generation().unwrap(), generation_name(&token));
    assert!(!store.has(&temporary));
    assert!(store.begin_transaction().is_ok());
}

#[test]
fn live_recovery_finishes_after_active_marker_was_already_replaced() {
    let mut store = store();
    let token = store.abandon_reserved(None, Some(b"current user"), Some(b"current master"));
    let generation = generation_name(&token);
    assert_eq!(store.create_file(ACTIVE_MARKER, &encode_marker(&generation)), Ok(()));

    assert_eq!(store.recovered(true, &mut false), CatacombRecoveryOutcome::Promoted);
    assert_eq!(store.active_generation().unwrap(), generation);
    assert!(!store.has(&reservation_name(&token)));
    assert!(store.begin_transaction().is_ok());
}

#[test]
fn cleanup_removes_only_unreserved_inactive_generations() {
    let mut store = store();
    assert_eq!(store.commit(b"old user", b"old master"), Ok(()));
    let old_generation = store.active_generation().unwrap();
    assert_eq!(store.commit(b"active user", b"active master"), Ok(()));
    let active_generation = store.active_generation().unwrap();
    let token = store.abandon_reserved(None, Some(b"possible user"), None);
    let abandoned_stage = b".stage-a-b-c";
    store.create_directory(abandoned_stage);
    store
        .directory_mut(abandoned_stage)
        .files
        .insert(USER_FILE.to_vec(), private(b"abandoned"));

    assert_eq!(store.recover(), Ok(()));

    assert!(!store.has(&old_generation));
    assert!(!store.has(abandoned_stage));
    assert!(store.directory(&active_generation).is_some());
    assert!(store.member(&generation_name(&token), USER_FILE).is_some());
    assert!(store.refuses_transaction());
}

#[test]
fn validator_rejection_leaves_complete_candidate_quarantined() {
    let mut store = store();
    assert_eq!(store.commit(b"old user", b"old master"), Ok(()));
    let token = store.abandon_reserved(None, Some(b"other user"), Some(b"other master"));

    assert_eq!(store.recovered(false, &mut false), CatacombRecoveryOutcome::Quarantined);
    assert!(store.member(&generation_name(&token), USER_FILE).is_some());
    assert_eq!(store.loaded_user(), b"old user");
    assert!(store.refuses_transaction());
}

#[test]
fn validator_failures_are_redacted_and_leave_the_candidate_reserved() {
    let mut store = store();
    let token = store.abandon_reserved(None, Some(b"possible user"), Some(b"possible master"));

    let error = match store.recover_with_validator(|_| Err::<bool, _>("private validator detail")) {
        Err(error) => error,
        Ok(_) => panic!("the validator failed"),
    };
    assert!(matches!(error, CatacombRecoveryError::Validator(_)));
    assert_eq!(error.message(), "live catacomb validation failed");
    assert!(store.has(&reservation_name(&token)));
    assert!(store.refuses_transaction());
}

#[test]
fn multiple_or_conflicting_candidates_never_reach_validator() {
    let mut store = store();
    let first = store.abandon_reserved(None, Some(b"first user"), Some(b"first master"));
    store.create_directory(b"pair-a-b-c");
    let second = store.directory_mut(b"pair-a-b-c");
    second.files.insert(USER_FILE.to_vec(), private(b"second user"));
    second.files.insert(MASTER_FILE.to_vec(), private(b"second master"));
    assert_eq!(store.create_file(b".recovery-a-b-c", b""), Ok(()));

    let mut validator_called = false;
    assert_eq!(
        store.recovered(true, &mut validator_called),
        CatacombRecoveryOutcome::Quarantined
    );
    assert!(!validator_called);
    assert!(store.has(&reservation_name(&first)));
    assert!(store.has(b".recovery-a-b-c"));
}

#[test]
fn unsafe_candidate_is_quarantined_without_validation_or_mutation() {
    let mut store = store();
    let token = store.abandon_reserved(None, Some(b"unsafe user"), Some(b"unsafe master"));
    let generation = generation_name(&token);
    store.directory_mut(&generation).files.get_mut(USER_FILE).unwrap().mode = 0o640;

    let mut validator_called = false;
    assert_eq!(
        store.recovered(true, &mut validator_called),
        CatacombRecoveryOutcome::Quarantined
    );
    assert!(!validator_called);
    assert_eq!(store.member(&generation, USER_FILE).unwrap().mode, 0o640);
    assert!(store.refuses_transaction());
}

#[test]
fn malformed_recovery_metadata_is_quarantined_before_validation() {
    let mut store = store();
    assert_eq!(store.commit(b"old user", b"old master"), Ok(()));
    let old_generation = store.active_generation().unwrap();
    let token = store.abandon_reserved(
        Some(&identity_metadata(2)),
        Some(b"possible user"),
        Some(b"possible master"),
    );
    store
        .directory_mut(&generation_name(&token))
        .files
        .insert(IDENTITY_METADATA_FILE.to_vec(), private(b"malformed"));

    let mut validator_called = false;
    assert_eq!(
        store.recovered(true, &mut validator_called),
        CatacombRecoveryOutcome::Quarantined
    );
    assert!(!validator_called);
    assert_eq!(store.active_generation().unwrap(), old_generation);
}

#[test]
fn finalized_pair_is_retained_when_pre_marker_promotion_fails() {
    let mut store = store();
    assert_eq!(store.commit(b"old user", b"old master"), Ok(()));
    let transaction = store.begin_transaction().unwrap();
    let transaction = store.reserve(transaction);
    let written = store.write_metadata(transaction, &identity_metadata(3));
    let transaction = store.wrote(written);
    let written = store.write_user(transaction, b"new user");
    let transaction = store.wrote(written);
    let written = store.write_master(transaction, b"new master");
    let transaction = store.wrote(written);
    let generation = transaction.generation();
    let recovery_marker = transaction.recovery_marker();

    store.fails_before_marker = true;
    assert_eq!(
        store.promote(transaction, true),
        Err(CatacombStoreError::StorageUnavailable)
    );
    assert!(store.member(&generation, USER_FILE).is_some());
    assert!(store.member(&generation, MASTER_FILE).is_some());
    assert!(store.member(&generation, IDENTITY_METADATA_FILE).is_some());
    assert!(store.has(&recovery_marker));
    let active = store.load().unwrap();
    assert_eq!(active.user(), b"old user");
    assert_eq!(active.master(), b"old master");
    assert_eq!(active.metadata(), None);
    assert!(store.refuses_transaction());
}

#[test]
fn active_marker_rename_failure_retains_the_only_possible_pair() {
    let mut store = store();
    let transaction = store.begin_transaction().unwrap();
    let transaction = store.reserve(transaction);
    let written = store.write_user(transaction, b"new user");
    let transaction = store.wrote(written);
    let written = store.write_master(transaction, b"new master");
    let transaction = store.wrote(written);
    let generation = transaction.generation();
    let recovery_marker = transaction.recovery_marker();
    store.create_directory(ACTIVE_MARKER);

    assert_eq!(
        store.promote(transaction, true),
        Err(CatacombStoreError::StorageUnavailable)
    );
    assert!(store.member(&generation, USER_FILE).is_some());
    assert!(store.member(&generation, MASTER_FILE).is_some());
    assert!(store.has(&recovery_marker));
    assert!(store.refuses_transaction());
}

#[test]
fn missing_and_partial_pairs_are_never_returned() {
    let mut store = store();
    assert_eq!(store.load_failure(), CatacombStoreError::MissingPair);

    assert_eq!(store.commit(b"user", b"master"), Ok(()));
    let generation = store.active_generation().unwrap();
    store.directory_mut(&generation).files.remove(USER_FILE);
    assert_eq!(store.load_failure(), CatacombStoreError::IncompletePair);
}

#[test]
fn marker_cannot_mix_members_from_different_generations() {
    let mut store = store();
    assert_eq!(store.commit(b"first user", b"first master"), Ok(()));
    let first = store.active_generation().unwrap();
    assert_eq!(store.commit(b"second user", b"second master"), Ok(()));
    let second = store.active_generation().unwrap();

    let mut linked = store.member(&first, USER_FILE).unwrap().clone();
    linked.links = 2;
    store.directory_mut(&second).files.insert(USER_FILE.to_vec(), linked);
    assert_eq!(store.load_failure(), CatacombStoreError::UnsafeStorage);
}

#[test]
fn metadata_cannot_be_linked_across_generations() {
    let mut store = store();
    let mut generations = Vec::new();
    for (value, user, master) in [
        (1, b"first user".as_slice(), b"first master".as_slice()),
        (2, b"second user", b"second master"),
    ] {
        let transaction = store.begin_transaction().unwrap();
        let transaction = store.reserve(transaction);
        let written = store.write_metadata(transaction, &identity_metadata(value));
        let transaction = store.wrote(written);
        let written = store.write_user(transaction, user);
        let transaction = store.wrote(written);
        let written = store.write_master(transaction, master);
        let transaction = store.wrote(written);
        assert_eq!(store.promote(transaction, true), Ok(()));
        generations.push(store.active_generation().unwrap());
    }

    let mut linked = store.member(&generations[0], IDENTITY_METADATA_FILE).unwrap().clone();
    linked.links = 2;
    store
        .directory_mut(&generations[1])
        .files
        .insert(IDENTITY_METADATA_FILE.to_vec(), linked);
    assert_eq!(store.load_failure(), CatacombStoreError::UnsafeStorage);
}

#[test]
fn symlinked_marker_member_and_store_are_rejected() {
    let mut store = store();
    assert_eq!(store.commit(b"user", b"master"), Ok(()));
    let generation = store.active_generation().unwrap();
    store.directory_mut(&generation).files.get_mut(MASTER_FILE).unwrap().symlink = true;
    assert_eq!(store.load_failure(), CatacombStoreError::UnsafeStorage);

    store.directory_mut(&generation).files.get_mut(MASTER_FILE).unwrap().symlink = false;
    assert_eq!(store.loaded_user(), b"user");
    store.symlink = true;
    assert_eq!(store.load_failure(), CatacombStoreError::UnsafeStorage);
}

#[test]
fn mode_owner_and_link_count_validation_is_strict() {
    let expected = 1000;
    assert_eq!(
        validate_file_identity(true, 0o100_600, expected, 1, expected),
        Ok(())
    );
    for result in [
        validate_file_identity(false, 0o040_600, expected, 1, expected),
        validate_file_identity(true, 0o100_640, expected, 1, expected),
        validate_file_identity(true, 0o100_600, expected + 1, 1, expected),
        validate_file_identity(true, 0o100_600, expected, 2, expected),
    ] {
        assert_eq!(result, Err(CatacombStoreError::UnsafeStorage));
    }
}

#[test]
fn unsafe_runtime_modes_are_rejected() {
    let mut store = store();
    assert_eq!(store.commit(b"user", b"master"), Ok(()));
    let generation = store.active_generation().unwrap();
    store.directory_mut(&generation).files.get_mut(USER_FILE).unwrap().mode = 0o640;
    assert_eq!(store.load_failure(), CatacombStoreError::UnsafeStorage);

    store.directory_mut(&generation).files.get_mut(USER_FILE).unwrap().mode = 0o600;
    store.mode = 0o750;
    assert_eq!(store.load_failure(), CatacombStoreError::UnsafeStorage);
}

#[test]
fn empty_oversized_and_truncated_blobs_are_rejected() {
    let mut store = store();
    assert_eq!(store.commit(&[], b"master"), Err(CatacombStoreError::InvalidBlob));
    assert_eq!(
        store.commit(&vec![0; MAX_SECURE_CATACOMB_SIZE + 1], b"master"),
        Err(CatacombStoreError::InvalidBlob)
    );
    assert!(!store.present);

    assert_eq!(store.commit(b"user", b"master"), Ok(()));
    let generation = store.active_generation().unwrap();
    store.directory_mut(&generation).files.get_mut(MASTER_FILE).unwrap().content.clear();
    assert_eq!(store.load_failure(), CatacombStoreError::InvalidBlob);
}

#[test]
fn failed_promotion_preserves_the_previous_valid_pair() {
    let mut store = store();
    assert_eq!(store.commit(b"old user", b"old master"), Ok(()));

    store.fails_before_marker = true;
    assert_eq!(
        store.commit(b"new user", b"new master"),
        Err(CatacombStoreError::StorageUnavailable)
    );
    let pair = store.load().unwrap();
    assert_eq!(pair.user(), b"old user");
    assert_eq!(pair.master(), b"old master");
    assert_eq!(store.generation_count(), 1);
}

#[test]
fn recovery_removes_abandoned_stages_without_touching_active_pair() {
    let mut store = store();
    assert_eq!(store.commit(b"active user", b"active master"), Ok(()));
    let abandoned = b".stage-1-2-3";
    store.create_directory(abandoned);
    store.directory_mut(abandoned).files.insert(USER_FILE.to_vec(), private(b"partial user"));

    assert_eq!(store.recover(), Ok(()));

    assert!(!store.has(abandoned));
    let pair = store.load().unwrap();
    assert_eq!(pair.user(), b"active user");
    assert_eq!(pair.master(), b"active master");
}

#[test]
fn recovery_refuses_unexpected_content_in_an_abandoned_stage() {
    let mut store = store();
    assert_eq!(store.commit(b"active user", b"active master"), Ok(()));
    let abandoned = b".stage-a-b-c";
    store.create_directory(abandoned);
    store.directory_mut(abandoned).files.insert(b"unexpected".to_vec(), private(b"preserve"));

    assert_eq!(store.recover(), Err(CatacombStoreError::UnsafeStorage));
    assert!(store.member(abandoned, b"unexpected").is_some());
    assert_eq!(store.loaded_user(), b"active user");
}

#[test]
fn recovery_preserves_older_generation_when_active_pair_is_partial() {
    let mut store = store();
    assert_eq!(store.commit(b"older user", b"older master"), Ok(()));
    let older = store.active_generation().unwrap();
    assert_eq!(store.commit(b"newer user", b"newer master"), Ok(()));
    let newer = store.active_generation().unwrap();
    store.directory_mut(&newer).files.remove(MASTER_FILE);

    assert_eq!(store.recover(), Err(CatacombStoreError::IncompletePair));
    assert!(store.member(&older, USER_FILE).is_some());
    assert!(store.member(&older, MASTER_FILE).is_some());
}

#[test]
fn debug_and_errors_do_not_disclose_opaque_values_or_paths() {
    let pair = CatacombPair::new(
        b"secret master material".to_vec(),
        b"secret user material".to_vec(),
        Some(b"secret metadata material".to_vec()),
    );
    let debug = pair.diagnostic();
    assert!(!debug.contains("secret"));
    assert!(debug.contains("[redacted]"));
    assert_eq!(
        debug,
        "CatacombPair { master_len: 22, master: \"[redacted]\", user_len: 20, \
         user: \"[redacted]\", metadata: \"[redacted]\" }"
    );

    for error in [
        CatacombStoreError::MissingPair,
        CatacombStoreError::IncompletePair,
        CatacombStoreError::InvalidBlob,
        CatacombStoreError::InvalidMetadata,
        CatacombStoreError::StorageUnavailable,
        CatacombStoreError::UnsafeStorage,
        CatacombStoreError::PendingExport,
        CatacombStoreError::InvalidTransactionState,
        CatacombStoreError::PromotionDurabilityUnknown,
    ] {
        let rendered = format!("{error:?}: {}", error.message());
        assert!(!rendered.contains("secret"));
        assert!(!rendered.contains('/'));
    }
}

#[test]
fn a_replaced_marker_that_was_not_synchronized_keeps_its_generation() {
    let mut store = store();
    store.fails_to_sync_promotion = true;
    assert_eq!(
        store.commit(b"new user", b"new master"),
        Err(CatacombStoreError::PromotionDurabilityUnknown)
    );
    assert_eq!(store.loaded_user(), b"new user");
}

#[test]
fn a_committed_pair_is_loaded_back_byte_for_byte() {
    let mut store = store();
    let user: Vec<u8> = (0..=255).collect();
    let master: Vec<u8> = (0..=255).rev().collect();
    assert_eq!(store.commit(&user, &master), Ok(()));
    let pair = store.load().unwrap();
    assert_eq!(pair.user(), user);
    assert_eq!(pair.master(), master);

    store.fails_before_marker = true;
    assert!(store.commit(b"later user", b"later master").is_err());
    let pair = store.load().unwrap();
    assert_eq!(pair.user(), user);
    assert_eq!(pair.master(), master);
}

#[test]
fn a_removal_that_was_not_synchronized_is_a_success() {
    let mut promoted = store();
    promoted.fails_to_sync_removal = true;
    let transaction = promoted.begin_transaction().unwrap();
    let transaction = promoted.reserve(transaction);
    let written = promoted.write_user(transaction, b"new user");
    let transaction = promoted.wrote(written);
    let written = promoted.write_master(transaction, b"new master");
    let transaction = promoted.wrote(written);
    assert_eq!(promoted.promote(transaction, true), Ok(()));
    assert_eq!(promoted.recovery_count(), 0);
    assert_eq!(promoted.loaded_user(), b"new user");

    let mut recovered = store();
    recovered.fails_to_sync_removal = true;
    recovered.abandon_reserved(None, Some(b"current user"), Some(b"current master"));
    assert_eq!(recovered.recovered(true, &mut false), CatacombRecoveryOutcome::Promoted);
    assert_eq!(recovered.recovery_count(), 0);
    assert_eq!(recovered.loaded_user(), b"current user");
}

#[test]
fn a_marker_that_names_no_generation_is_unsafe() {
    let store = store();
    let LoadStep::OpenStore(pending) = store.store.load() else {
        panic!("a load begins with the store");
    };
    let LoadStep::ReadMarker(pending) = pending.opened(Ok(())) else {
        panic!("the marker is read next");
    };
    assert!(matches!(
        pending.read(Ok(b"active".to_vec())),
        LoadStep::End(Err(CatacombStoreError::UnsafeStorage))
    ));
}

#[test]
fn wiped_secrets_hold_only_zeros() {
    let mut secret = b"secret".to_vec();
    wipe(&mut secret);
    assert_eq!(secret, [0; 6]);

    let mut pair = CatacombPair::new(b"master".to_vec(), b"user".to_vec(), Some(b"meta".to_vec()));
    pair.wipe();
    assert_eq!(pair.master(), [0; 6]);
    assert_eq!(pair.user(), [0; 4]);
    assert_eq!(pair.metadata(), Some([0; 4].as_slice()));
}

#[test]
fn names_are_recognized_exactly() {
    for token in ["a-b-c", "2a-1F-0"] {
        assert!(is_token(token.as_bytes()));
        assert!(is_generation_name(&generation_name(token.as_bytes())));
        assert!(is_stage_name(&stage_name(token.as_bytes())));
        assert!(is_marker_temporary_name(&marker_temporary_name(token.as_bytes())));
    }
    for token in ["", "a-b", "a-b-", "a--c", "a-b-c-d", "a-b-g", "a-b-c\n"] {
        assert!(!is_token(token.as_bytes()));
    }
    assert_eq!(generation_name(b"a-b-c"), b"pair-a-b-c");
    assert_eq!(stage_name(b"a-b-c"), b".stage-a-b-c");
    assert_eq!(marker_temporary_name(b"a-b-c"), b".active-a-b-c.tmp");
    assert_eq!(reservation_name(b"a-b-c"), b".recovery-a-b-c");
    assert_eq!(encode_marker(b"pair-a-b-c"), b"pair-a-b-c\n");
    assert_eq!(decode_marker(b"pair-a-b-c\n"), Some(b"pair-a-b-c".to_vec()));
    assert_eq!(decode_marker(b"pair-a-b-c"), None);
    assert_eq!(decode_marker(b"pair-a-b\n"), None);
    assert_eq!(
        t1_daemons::catacomb_names::artifact_token(0x2a, 0x1f, 16),
        b"2a-1f-10"
    );
}

#[test]
fn names_are_sorted_by_their_bytes() {
    assert_eq!(
        sorted_names(vec![b"pair-b".to_vec(), b"pair".to_vec(), b"pair-a".to_vec()]),
        [b"pair".to_vec(), b"pair-a".to_vec(), b"pair-b".to_vec()]
    );
}

#[test]
fn contents_that_do_not_match_their_size_are_failures() {
    assert_eq!(
        read_blob(StoredContent::Short, &limits()),
        Err(CatacombStoreError::StorageUnavailable)
    );
    assert_eq!(
        read_blob(StoredContent::Longer, &limits()),
        Err(CatacombStoreError::InvalidBlob)
    );
    assert_eq!(
        read_blob(StoredContent::Exact(Vec::new()), &limits()),
        Err(CatacombStoreError::InvalidBlob)
    );
    assert_eq!(
        read_blob(StoredContent::Exact(vec![0; MAX_SECURE_CATACOMB_SIZE + 1]), &limits()),
        Err(CatacombStoreError::InvalidBlob)
    );
    assert_eq!(
        read_metadata(StoredContent::Longer, true, &limits()),
        Err(CatacombStoreError::InvalidMetadata)
    );
    assert_eq!(
        read_active_generation(StoredContent::Longer),
        Err(CatacombStoreError::UnsafeStorage)
    );
    assert_eq!(
        read_active_generation(StoredContent::EndUnknown),
        Err(CatacombStoreError::StorageUnavailable)
    );
}

#[test]
fn unreadable_listings_are_storage_failures() {
    assert_eq!(
        reject_recovery_state(None),
        Err(CatacombStoreError::StorageUnavailable)
    );
    assert_eq!(
        reject_recovery_state(Some(&vec![StoreEntry::NotText])),
        Err(CatacombStoreError::UnsafeStorage)
    );
    assert_eq!(
        recovery_tokens(
            Some(&vec![ReservationEntry {
                entry: StoreEntry::Named(b".recovery-a-b-c".to_vec()),
                facts: None,
            }]),
            Some(OWNER)
        ),
        Err(CatacombStoreError::StorageUnavailable)
    );
}

const USER_BLOB: &[u8] = b"synthetic encrypted user catacomb";
const MASTER_BLOB: &[u8] = b"synthetic encrypted master catacomb";

fn manifest(labeled: bool) -> Vec<u8> {
    if labeled {
        b"manifest labeled".to_vec()
    } else {
        b"manifest plain".to_vec()
    }
}

fn commit(store: &mut FakeStore, metadata: Option<&[u8]>) {
    let transaction = store.begin_transaction().unwrap();
    let mut transaction = store.reserve(transaction);
    if let Some(metadata) = metadata {
        let written = store.write_metadata(transaction, metadata);
        transaction = store.wrote(written);
    }
    let written = store.write_user(transaction, USER_BLOB);
    let transaction = store.wrote(written);
    let written = store.write_master(transaction, MASTER_BLOB);
    let transaction = store.wrote(written);
    assert_eq!(store.promote(transaction, true), Ok(()));
}

#[test]
fn unique_inactive_legacy_is_reserved_and_promoted_without_deletion() {
    let mut store = store();
    commit(&mut store, None);
    commit(&mut store, Some(&manifest(true)));
    let active_before = store.file(ACTIVE_MARKER).unwrap().content.clone();

    assert_eq!(
        store.reserve_unique_inactive_legacy_recovery(),
        Ok(LegacyRecoveryReservation::Created)
    );
    assert_eq!(store.generation_count(), 2);
    assert_eq!(store.recovery_count(), 1);
    assert_eq!(store.file(ACTIVE_MARKER).unwrap().content, active_before);
    assert!(matches!(
        store.recover_with_validator(|pair| Ok::<bool, ()>(pair.metadata().is_none())),
        Ok(CatacombRecoveryOutcome::Promoted)
    ));
    assert_eq!(store.generation_count(), 2);
    assert_eq!(store.recovery_count(), 0);
    assert!(store.load().unwrap().metadata().is_none());
}

#[test]
fn reservation_is_idempotent_and_rejection_keeps_every_generation() {
    let mut store = store();
    commit(&mut store, None);
    commit(&mut store, Some(&manifest(true)));

    assert_eq!(
        store.reserve_unique_inactive_legacy_recovery(),
        Ok(LegacyRecoveryReservation::Created)
    );
    assert_eq!(
        store.reserve_unique_inactive_legacy_recovery(),
        Ok(LegacyRecoveryReservation::Existing)
    );
    assert_eq!(store.recovered(false, &mut false), CatacombRecoveryOutcome::Quarantined);
    assert_eq!(store.generation_count(), 2);
    assert_eq!(store.recovery_count(), 1);
    assert!(store.load().unwrap().metadata().is_some());
}

#[test]
fn ambiguous_legacy_candidates_are_refused_without_mutation() {
    let mut store = store();
    commit(&mut store, None);
    commit(&mut store, None);
    commit(&mut store, Some(&manifest(true)));
    let active_before = store.file(ACTIVE_MARKER).unwrap().content.clone();

    assert_eq!(
        store.reserve_unique_inactive_legacy_recovery(),
        Err(LegacyRecoveryReservationError::Refused)
    );
    assert_eq!(store.generation_count(), 3);
    assert_eq!(store.recovery_count(), 0);
    assert_eq!(store.file(ACTIVE_MARKER).unwrap().content, active_before);
}

#[test]
fn unlabeled_active_or_extra_labeled_generation_is_refused() {
    let mut first_store = store();
    commit(&mut first_store, Some(&manifest(true)));
    commit(&mut first_store, None);
    assert_eq!(
        first_store.reserve_unique_inactive_legacy_recovery(),
        Err(LegacyRecoveryReservationError::Refused)
    );

    let mut second_store = store();
    commit(&mut second_store, None);
    commit(&mut second_store, Some(&manifest(true)));
    commit(&mut second_store, Some(&manifest(true)));
    assert_eq!(
        second_store.reserve_unique_inactive_legacy_recovery(),
        Err(LegacyRecoveryReservationError::Refused)
    );
    assert_eq!(second_store.generation_count(), 3);
}

#[test]
fn metadata_without_a_label_is_not_an_active_labeled_generation() {
    let mut store = store();
    commit(&mut store, None);
    commit(&mut store, Some(&manifest(false)));

    assert_eq!(
        store.reserve_unique_inactive_legacy_recovery(),
        Err(LegacyRecoveryReservationError::Refused)
    );
    assert_eq!(store.generation_count(), 2);
    assert_eq!(store.recovery_count(), 0);
}

#[test]
fn unreadable_generations_and_obstacles_end_a_legacy_reservation() {
    let mut damaged = store();
    commit(&mut damaged, None);
    commit(&mut damaged, Some(&manifest(true)));
    let active = damaged.active_generation().unwrap();
    damaged.directory_mut(&active).files.remove(USER_FILE);
    assert_eq!(
        damaged.reserve_unique_inactive_legacy_recovery(),
        Err(LegacyRecoveryReservationError::Store(CatacombStoreError::IncompletePair))
    );

    let mut staged = store();
    commit(&mut staged, None);
    commit(&mut staged, Some(&manifest(true)));
    staged.create_directory(b".stage-a-b-c");
    assert_eq!(
        staged.reserve_unique_inactive_legacy_recovery(),
        Err(LegacyRecoveryReservationError::Refused)
    );
    assert_eq!(
        LegacyRecoveryReservationError::Refused.message(),
        "legacy recovery state is not uniquely eligible"
    );
    assert_eq!(
        LegacyRecoveryReservationError::Store(CatacombStoreError::MissingPair).message(),
        "legacy recovery storage is unavailable"
    );
}

#[test]
fn ineligible_generations_are_refused_before_the_reservations_are_read() {
    let mut store = store();
    commit(&mut store, None);
    commit(&mut store, None);
    commit(&mut store, Some(&manifest(true)));
    assert_eq!(store.create_file(b".recovery-a-b-c", b"not empty"), Ok(()));
    assert_eq!(store.tokens(), Err(CatacombStoreError::UnsafeStorage));
    assert_eq!(
        store.reserve_unique_inactive_legacy_recovery(),
        Err(LegacyRecoveryReservationError::Refused)
    );
}

#[test]
fn reservations_are_collected_in_their_order() {
    let entry = |name: &[u8]| ReservationEntry {
        entry: StoreEntry::Named(name.to_vec()),
        facts: Some(facts(&private(b""))),
    };
    let listing = vec![
        entry(b".recovery-2-2-2"),
        entry(b"active"),
        entry(b".recovery-1-1-1"),
        entry(b".recovery-1-1-10"),
    ];
    assert_eq!(
        recovery_tokens(Some(&listing), Some(OWNER)),
        Ok(vec![b"1-1-1".to_vec(), b"1-1-10".to_vec(), b"2-2-2".to_vec()])
    );
}

#[test]
fn different_numbers_share_no_name() {
    let token = t1_daemons::catacomb_names::artifact_token;
    let first = token(0x1, 0x23, 0x4);
    for other in [token(0x12, 0x3, 0x4), token(0x1, 0x2, 0x34), token(0x1, 0x23, 0x5)] {
        assert!(is_token(&other));
        assert_ne!(first, other);
        assert_ne!(generation_name(&first), generation_name(&other));
        assert_ne!(reservation_name(&first), reservation_name(&other));
    }
    assert!(!is_stage_name(&generation_name(&first)));
    assert!(!is_marker_temporary_name(&generation_name(&first)));
    assert!(!is_generation_name(&stage_name(&first)));
}

#[test]
fn recovery_reads_its_candidate_within_the_stores_limits() {
    let mut store = store();
    store.store = CatacombPairStore::new(StoreLimits { blob: 12, manifest: MAX_MANIFEST_SIZE });
    let token = store.abandon_reserved(None, Some(b"twelve bytes"), Some(b"master"));
    let generation = generation_name(&token);
    let user = store.directory_mut(&generation).files.get_mut(USER_FILE).unwrap();
    user.content.push(0);

    let mut validator_called = false;
    assert_eq!(
        store.recovered(true, &mut validator_called),
        CatacombRecoveryOutcome::Quarantined
    );
    assert!(!validator_called);

    let user = store.directory_mut(&generation).files.get_mut(USER_FILE).unwrap();
    user.content.pop();
    assert_eq!(
        store.recovered(true, &mut validator_called),
        CatacombRecoveryOutcome::Promoted
    );
    assert!(validator_called);
}
