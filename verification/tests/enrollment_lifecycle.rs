use std::collections::BTreeMap;
use t1_daemons::biometric::{
    CatacombStateEntry, Identity, IdentityIdentifier, ACM_CONTEXT_EXTERNAL_FORM_SIZE,
};
use t1_daemons::catacomb_names::{
    generation_name, is_stage_name, marker_temporary_name, reservation_name, stage_name,
};
use t1_daemons::catacomb_recovery::{
    CatacombRecoveryError, CatacombRecoveryOutcome, RecoveryStep, RecoveryWork,
};
use t1_daemons::catacomb_restore::{
    recovery_verdict, EmptyCommand, PendingValidation, RestoreStep,
};
use t1_daemons::catacomb_session::{
    backup_catacomb_pair_with_transaction, BackupStep, CatacombBackup, StorageWork,
};
use t1_daemons::catacomb_store::{
    read_active_generation, read_blob, reject_recovery_state, CatacombPair, CatacombPairStore,
    CatacombStoreError, LoadStep, PairAnswer, PairPart, PairProgress, PairReading, StoreEntry,
    StoreLimits, StoredContent,
};
use t1_daemons::catacomb_transaction::{
    BeginStep, CatacombPairTransaction, Member, PendingWork, TransactionProgress, Work,
};
use t1_daemons::enrollment_lifecycle::{
    check_lease_credential, claim_enrollment_owner, operation_under_lease,
    run_enrollment_transaction_after_handoff, EnrollmentLeaseOutcome, EnrollmentLifecycleError,
    EnrollmentLifecycleStage, EnrollmentOperationError, EnrollmentOwnerPreflightError,
    EnrollmentTransactionSuccess, PreflightStep,
};
use t1_daemons::enrollment_owner::{EnrollmentOwner, EnrollmentOwnerError, OwnerClaim};
use t1_daemons::enrollment_transaction::{
    catacomb_is_secure, prepare_enrollment_transaction, run_reserved_enrollment,
    EnrollmentPreparationError, EnrollmentPreparationStep, EnrollmentStep,
    EnrollmentTransactionError, PendingResolution,
};
use t1_daemons::relay_handoff::{relay_checked, AfterStop, Attempt, HandoffEnd};

const CREDENTIAL: [u8; ACM_CONTEXT_EXTERNAL_FORM_SIZE] = [0x5a; 16];
const USER: u32 = 501;
const FDR_RECORD: &[u8] = b"synthetic calibration record";
const IDENTITY: IdentityIdentifier = [
    0x10, 0x21, 0x32, 0x43, 0x54, 0x65, 0x76, 0x87, 0x98, 0xa9, 0xba, 0xcb, 0xdc, 0xed, 0xfe, 0x0f,
];

#[derive(Clone, Copy, Debug, Eq, PartialEq)]
enum RuntimeFailure {
    Health,
    Stop,
    Acquire,
    Cleanup,
    Restart,
}

#[derive(Clone, Copy, Debug, Eq, PartialEq)]
struct OperationFailure;

struct UnusedTransport;

type LeaseFailure<PreparationError, TransactionError> = EnrollmentLifecycleError<
    RuntimeFailure,
    EnrollmentOperationError<PreparationError, TransactionError>,
>;

fn with_enrollment_lease<Prepared, PreparationError, Success, TransactionError>(
    runtime: &mut FakeRuntime,
    prepare: impl FnOnce() -> Result<Prepared, PreparationError>,
    operation: impl FnOnce(&mut Prepared, &[u8]) -> Result<Success, TransactionError>,
) -> Result<Success, LeaseFailure<PreparationError, TransactionError>> {
    let outcome = runtime.with_prepared_enrollment_lease(prepare, |prepared, credential| {
        check_lease_credential(credential)?;
        operation_under_lease(operation(prepared, credential))
    });
    run_enrollment_transaction_after_handoff(outcome)
}

fn with_attempted_relay_handoff<Success, Failure>(
    runtime: &mut FakeRuntime,
    stop_panics: bool,
    operation: impl FnOnce(&mut FakeRuntime) -> Attempt<Result<Success, Failure>>,
) -> HandoffEnd<Success, RuntimeFailure, Failure> {
    let pending = match relay_checked(runtime.relay_is_active()) {
        Ok(pending) => pending,
        Err(fault) => return HandoffEnd::Returned(Err(fault)),
    };
    let stopped = runtime.stop_relay();
    let stopped = if stop_panics { Attempt::Panicked } else { Attempt::Returned(stopped) };
    let restart = match pending.relay_stopped(stopped) {
        AfterStop::Operate(pending) => pending.operation_ended(operation(runtime)),
        AfterStop::Restart(restart) => restart,
    };
    restart.relay_restarted(Attempt::Returned(runtime.start_relay()))
}

fn with_enrollment_relay_handoff<Success, Failure>(
    runtime: &mut FakeRuntime,
    operation: impl FnOnce(&mut FakeRuntime) -> Result<Success, Failure>,
) -> Result<Success, EnrollmentLifecycleError<RuntimeFailure, Failure>> {
    match with_attempted_relay_handoff(runtime, false, |runtime| {
        Attempt::Returned(operation(runtime))
    }) {
        HandoffEnd::Returned(result) => result.map_err(EnrollmentLifecycleError::from_fault),
        HandoffEnd::ResumePrimary | HandoffEnd::ResumeRestart => panic!("nothing panicked"),
    }
}

enum LeaseBehavior {
    Completed,
    AcquireFailed,
    CleanupFailed,
}

struct FakeRuntime {
    calls: Vec<&'static str>,
    relay_active: Result<bool, RuntimeFailure>,
    stop: Result<(), RuntimeFailure>,
    restart: Result<(), RuntimeFailure>,
    lease: LeaseBehavior,
    credential: Vec<u8>,
}

impl FakeRuntime {
    fn healthy() -> Self {
        Self {
            calls: Vec::new(),
            relay_active: Ok(true),
            stop: Ok(()),
            restart: Ok(()),
            lease: LeaseBehavior::Completed,
            credential: CREDENTIAL.to_vec(),
        }
    }
}

impl FakeRuntime {
    fn with_prepared_enrollment_lease<Prepared, PreparationError, T>(
        &mut self,
        prepare: impl FnOnce() -> Result<Prepared, PreparationError>,
        operation: impl FnOnce(&mut Prepared, &[u8]) -> T,
    ) -> EnrollmentLeaseOutcome<T, PreparationError, RuntimeFailure> {
        self.calls.push("sep-exclusive");
        if matches!(self.lease, LeaseBehavior::AcquireFailed) {
            return EnrollmentLeaseOutcome::AcquisitionFailed(RuntimeFailure::Acquire);
        }
        let mut prepared = match prepare() {
            Ok(prepared) => prepared,
            Err(error) => return EnrollmentLeaseOutcome::PreparationFailed(error),
        };
        self.calls.push("keybag-reuse-promoted");
        self.calls.push("acm-authorized-enrollment");
        let result = operation(&mut prepared, &self.credential);
        self.calls.push("acm-release");
        self.calls.push("sep-release");
        match self.lease {
            LeaseBehavior::Completed => EnrollmentLeaseOutcome::Completed(result),
            LeaseBehavior::CleanupFailed => EnrollmentLeaseOutcome::CleanupFailed {
                operation: result,
                error: RuntimeFailure::Cleanup,
            },
            LeaseBehavior::AcquireFailed => unreachable!(),
        }
    }
}

impl FakeRuntime {
    fn relay_is_active(&mut self) -> Result<bool, RuntimeFailure> {
        self.calls.push("relay-health");
        self.relay_active
    }

    fn stop_relay(&mut self) -> Result<(), RuntimeFailure> {
        self.calls.push("relay-stop");
        self.stop
    }

    fn start_relay(&mut self) -> Result<(), RuntimeFailure> {
        self.calls.push("relay-start");
        self.restart
    }
}

#[test]
fn exact_lease_order_reuses_the_promoted_keybag() {
    let mut runtime = FakeRuntime::healthy();
    let result = with_enrollment_lease(
        &mut runtime,
        || Ok::<_, OperationFailure>(UnusedTransport),
        |_, credential| {
            assert_eq!(credential, CREDENTIAL);
            Ok::<(), OperationFailure>(())
        },
    );
    assert!(result.is_ok());
    assert_eq!(
        runtime.calls,
        [
            "sep-exclusive",
            "keybag-reuse-promoted",
            "acm-authorized-enrollment",
            "acm-release",
            "sep-release",
        ]
    );
}

#[test]
fn bridge_session_is_opened_after_stop_and_closed_before_restart() {
    let mut runtime = FakeRuntime::healthy();
    let result = with_enrollment_relay_handoff(&mut runtime, |runtime| {
        runtime.calls.push("bridgexpc-open");
        runtime.calls.push("bridgexpc-close");
        Ok::<_, OperationFailure>(())
    });

    assert!(result.is_ok());
    assert_eq!(
        runtime.calls,
        [
            "relay-health",
            "relay-stop",
            "bridgexpc-open",
            "bridgexpc-close",
            "relay-start",
        ]
    );
}

#[test]
fn health_and_stop_failures_bound_mutation_and_recovery() {
    let mut runtime = FakeRuntime::healthy();
    runtime.relay_active = Ok(false);
    assert!(matches!(
        with_enrollment_relay_handoff(&mut runtime, |_| Ok::<(), OperationFailure>(())),
        Err(EnrollmentLifecycleError::RelayInactive)
    ));
    assert_eq!(runtime.calls, ["relay-health"]);

    let mut runtime = FakeRuntime::healthy();
    runtime.relay_active = Err(RuntimeFailure::Health);
    assert!(matches!(
        with_enrollment_relay_handoff(&mut runtime, |_| Ok::<(), OperationFailure>(())),
        Err(EnrollmentLifecycleError::Runtime {
            stage: EnrollmentLifecycleStage::RelayHealth,
            ..
        })
    ));
    assert_eq!(runtime.calls, ["relay-health"]);

    let mut runtime = FakeRuntime::healthy();
    runtime.stop = Err(RuntimeFailure::Stop);
    assert!(matches!(
        with_enrollment_relay_handoff(&mut runtime, |_| Ok::<(), OperationFailure>(())),
        Err(EnrollmentLifecycleError::Runtime {
            stage: EnrollmentLifecycleStage::RelayStop,
            ..
        })
    ));
    assert_eq!(runtime.calls, ["relay-health", "relay-stop", "relay-start"]);
}

#[test]
fn acquisition_and_credential_failures_bound_the_lease() {
    let mut runtime = FakeRuntime::healthy();
    runtime.lease = LeaseBehavior::AcquireFailed;
    assert!(matches!(
        with_enrollment_lease(
            &mut runtime,
            || Ok::<_, OperationFailure>(UnusedTransport),
            |_, _| Ok::<(), OperationFailure>(()),
        ),
        Err(EnrollmentLifecycleError::Runtime {
            stage: EnrollmentLifecycleStage::ExclusiveSepAndAcm,
            ..
        })
    ));
    assert_eq!(runtime.calls, ["sep-exclusive"]);

    let mut runtime = FakeRuntime::healthy();
    runtime.credential.pop();
    assert!(matches!(
        with_enrollment_lease(
            &mut runtime,
            || Ok::<_, OperationFailure>(UnusedTransport),
            |_, _| Ok::<(), OperationFailure>(()),
        ),
        Err(EnrollmentLifecycleError::InvalidCredential)
    ));
    assert_eq!(
        runtime.calls,
        [
            "sep-exclusive",
            "keybag-reuse-promoted",
            "acm-authorized-enrollment",
            "acm-release",
            "sep-release",
        ]
    );
}

#[test]
fn cleanup_failure_never_masks_operation_failure() {
    let mut runtime = FakeRuntime::healthy();
    runtime.lease = LeaseBehavior::CleanupFailed;
    assert!(matches!(
        with_enrollment_lease(
            &mut runtime,
            || Ok::<_, OperationFailure>(UnusedTransport),
            |_, _| Err::<(), _>(OperationFailure),
        ),
        Err(EnrollmentLifecycleError::Operation(
            EnrollmentOperationError::Transaction(OperationFailure)
        ))
    ));

    let mut runtime = FakeRuntime::healthy();
    runtime.lease = LeaseBehavior::CleanupFailed;
    assert!(matches!(
        with_enrollment_lease(
            &mut runtime,
            || Ok::<_, OperationFailure>(UnusedTransport),
            |_, _| Ok::<(), OperationFailure>(()),
        ),
        Err(EnrollmentLifecycleError::Runtime {
            stage: EnrollmentLifecycleStage::LeaseCleanup,
            ..
        })
    ));
}

#[test]
fn relay_restart_failure_overrides_every_earlier_outcome() {
    for operation_fails in [false, true] {
        let mut runtime = FakeRuntime::healthy();
        runtime.restart = Err(RuntimeFailure::Restart);
        let result = with_enrollment_relay_handoff(&mut runtime, |_| {
            if operation_fails {
                Err(OperationFailure)
            } else {
                Ok(())
            }
        });
        assert!(matches!(
            result,
            Err(EnrollmentLifecycleError::Runtime {
                stage: EnrollmentLifecycleStage::RelayRecovery,
                ..
            })
        ));
        assert_eq!(runtime.calls.last(), Some(&"relay-start"));
    }
}

#[test]
fn panic_after_relay_stop_attempts_restart_before_resuming_unwind() {
    let mut runtime = FakeRuntime::healthy();
    let end: HandoffEnd<(), RuntimeFailure, OperationFailure> =
        with_attempted_relay_handoff(&mut runtime, false, |_| Attempt::Panicked);

    assert!(matches!(end, HandoffEnd::ResumePrimary));
    assert_eq!(runtime.calls.last(), Some(&"relay-start"));
}

#[test]
fn panic_during_relay_stop_attempts_restart_before_resuming_unwind() {
    let mut runtime = FakeRuntime::healthy();
    let end = with_attempted_relay_handoff(&mut runtime, true, |_| {
        Attempt::Returned(Ok::<(), OperationFailure>(()))
    });

    assert!(matches!(end, HandoffEnd::ResumePrimary));
    assert_eq!(runtime.calls, ["relay-health", "relay-stop", "relay-start"]);
}

#[test]
fn relay_restart_failure_overrides_an_operation_panic() {
    let mut runtime = FakeRuntime::healthy();
    runtime.restart = Err(RuntimeFailure::Restart);

    let end: HandoffEnd<(), RuntimeFailure, OperationFailure> =
        with_attempted_relay_handoff(&mut runtime, false, |_| Attempt::Panicked);
    let HandoffEnd::Returned(result) = end else {
        panic!("the restart failure is returned")
    };

    assert!(matches!(
        result.map_err(EnrollmentLifecycleError::from_fault),
        Err(EnrollmentLifecycleError::Runtime {
            stage: EnrollmentLifecycleStage::RelayRecovery,
            error: RuntimeFailure::Restart,
        })
    ));
    assert_eq!(runtime.calls.last(), Some(&"relay-start"));
}

#[test]
fn lifecycle_errors_do_not_render_runtime_or_operation_details() {
    let runtime = EnrollmentLifecycleError::<&str, &str>::Runtime {
        stage: EnrollmentLifecycleStage::LeaseCleanup,
        error: "private-runtime-marker",
    };
    let operation = EnrollmentLifecycleError::<&str, &str>::Operation("private-operation-marker");
    let verification =
        EnrollmentTransactionError::<&str, (), (), (), ()>::PostCommitIdentityVerification(
            "private-verification-marker",
        );
    assert!(!format!("{} {}", runtime.diagnostic(), runtime.message())
        .contains("private-runtime-marker"));
    assert!(!format!("{} {}", operation.diagnostic(), operation.message())
        .contains("private-operation-marker"));
    assert!(verification.message().contains("revalidate storage"));
    assert!(!verification.message().contains("private-verification-marker"));
}

#[derive(Clone, Debug, Eq, PartialEq)]
enum UserWorkflowError {
    Transport(OperationFailure),
    Command,
    IdentityForWrongUser,
}

type RecoveryFailure = CatacombRecoveryError<OperationFailure>;
type PreparationFailure = EnrollmentPreparationError<RecoveryFailure, OperationFailure>;
type TransactionFailure = EnrollmentTransactionError<
    UserWorkflowError,
    OperationFailure,
    OperationFailure,
    OperationFailure,
    OperationFailure,
>;
type ProductError = LeaseFailure<PreparationFailure, TransactionFailure>;

/// What the catacomb store and the owner store hold: the catacomb store's files,
/// and its directories with their members.
struct FakeStorage {
    unsafe_storage: bool,
    unsafe_owner: bool,
    owner: Option<u32>,
    store: CatacombPairStore,
    files: BTreeMap<Vec<u8>, Vec<u8>>,
    directories: BTreeMap<Vec<u8>, Vec<(Member, Vec<u8>)>>,
    sequence: u64,
}

impl FakeStorage {
    fn new() -> Self {
        Self {
            unsafe_storage: false,
            unsafe_owner: false,
            owner: None,
            store: CatacombPairStore::new(StoreLimits { blob: 4096, manifest: 512 }),
            files: BTreeMap::new(),
            directories: BTreeMap::new(),
            sequence: 0,
        }
    }

    fn open_store(&self) -> Result<(), CatacombStoreError> {
        if self.unsafe_storage {
            Err(CatacombStoreError::UnsafeStorage)
        } else {
            Ok(())
        }
    }

    fn listing(&self) -> Vec<StoreEntry> {
        self.files
            .keys()
            .chain(self.directories.keys())
            .map(|name| StoreEntry::Named(name.clone()))
            .collect()
    }

    fn has_stage(&self) -> bool {
        self.directories.keys().any(|name| is_stage_name(name))
    }

    fn begin_transaction(&mut self) -> Result<CatacombPairTransaction, CatacombStoreError> {
        let mut step = self.store.begin_transaction();
        loop {
            step = match step {
                BeginStep::PrepareDirectory(pending) => pending.prepared(self.open_store()),
                BeginStep::RejectRecoveryState(prepared) => {
                    self.sequence += 1;
                    let token = format!("a-b-{:x}", self.sequence).into_bytes();
                    prepared.listed(reject_recovery_state(Some(&self.listing())), token)
                }
                BeginStep::CreateStage(staged) => {
                    self.directories.insert(staged.stage(), Vec::new());
                    return staged.created(Ok(()));
                }
                BeginStep::Failed(error) => return Err(error),
            };
        }
    }

    fn perform(&mut self, pending: &PendingWork) {
        let transaction = pending.transaction();
        match pending.work() {
            Work::RenameForReservation | Work::RenameForPromotion => {
                let members = self.directories.remove(&transaction.stage()).unwrap();
                self.directories.insert(transaction.generation(), members);
            }
            Work::CreateReservation => {
                self.files.insert(transaction.recovery_marker(), Vec::new());
            }
            Work::WriteMember(member) => self
                .directories
                .get_mut(&transaction.write_directory())
                .unwrap()
                .push((member, pending.content().to_vec())),
            Work::WriteMarker => {
                self.files.insert(transaction.marker_temporary(), pending.content().to_vec());
            }
            Work::ReplaceMarker => {
                let marker = self.files.remove(&transaction.marker_temporary()).unwrap();
                self.files.insert(b"active".to_vec(), marker);
            }
            Work::RemoveReservation => {
                self.files.remove(&transaction.recovery_marker());
            }
            _ => {}
        }
    }

    fn drive(
        &mut self,
        mut progress: TransactionProgress,
    ) -> (CatacombPairTransaction, Result<(), CatacombStoreError>) {
        loop {
            match progress {
                TransactionProgress::Next(pending) => {
                    self.perform(&pending);
                    progress = pending.done(Ok(()));
                }
                TransactionProgress::End(transaction, result) => return (transaction, result),
            }
        }
    }

    /// Leaves a reserved transaction with these members.
    fn abandon(&mut self, user: &[u8], master: Option<&[u8]>) {
        let transaction = self.begin_transaction().unwrap();
        let (transaction, reserved) = self.drive(transaction.reserve_recovery());
        assert_eq!(reserved, Ok(()));
        let (transaction, written) = self.drive(transaction.write_user(user));
        assert_eq!(written, Ok(()));
        if let Some(master) = master {
            assert_eq!(self.drive(transaction.write_master(master)).1, Ok(()));
        }
    }

    fn commit(&mut self, user: &[u8], master: &[u8]) {
        let transaction = self.begin_transaction().unwrap();
        let (transaction, written) = self.drive(transaction.write_user(user));
        assert_eq!(written, Ok(()));
        let (transaction, written) = self.drive(transaction.write_master(master));
        assert_eq!(written, Ok(()));
        assert_eq!(self.drive(transaction.promote()).1, Ok(()));
    }

    fn active_generation(&self) -> Result<Vec<u8>, CatacombStoreError> {
        match self.files.get(b"active".as_slice()) {
            None => Err(CatacombStoreError::MissingPair),
            Some(marker) => read_active_generation(StoredContent::Exact(marker.clone())),
        }
    }

    fn read_pair(&self, mut reading: PairReading) -> Result<CatacombPair, CatacombStoreError> {
        loop {
            let members = self.directories.get(reading.generation());
            let limits = reading.limits();
            let blob = |wanted: Member| {
                match members.and_then(|members| members.iter().find(|entry| entry.0 == wanted)) {
                    None => Err(CatacombStoreError::IncompletePair),
                    Some((_, bytes)) => read_blob(StoredContent::Exact(bytes.clone()), &limits),
                }
            };
            let answer = match reading.part() {
                PairPart::Directory => PairAnswer::Directory(
                    members.map(|_| ()).ok_or(CatacombStoreError::UnsafeStorage),
                ),
                PairPart::Master => PairAnswer::Blob(blob(Member::Master)),
                PairPart::User => PairAnswer::Blob(blob(Member::User)),
                PairPart::Metadata => PairAnswer::Metadata(Ok(None)),
            };
            match reading.answered(answer) {
                PairProgress::Next(next) => reading = next,
                PairProgress::End(result) => return result,
            }
        }
    }

    fn load(&self) -> Result<CatacombPair, CatacombStoreError> {
        let mut step = self.store.load();
        loop {
            step = match step {
                LoadStep::OpenStore(pending) => pending.opened(self.open_store()),
                LoadStep::ReadMarker(pending) => pending.read(self.active_generation()),
                LoadStep::ReadPair(reading) => return self.read_pair(reading),
                LoadStep::End(result) => return result,
            };
        }
    }

    fn tokens(&self) -> Vec<Vec<u8>> {
        let prefix = b".recovery-".as_slice();
        self.files.keys().filter_map(|name| name.strip_prefix(prefix)).map(<[u8]>::to_vec).collect()
    }
}

struct ProductFixture {
    storage: FakeStorage,
    transaction: Option<CatacombPairTransaction>,
    commands: Vec<u16>,
    reservation_seen_before_first_command: bool,
    lease_started_at_command: Option<usize>,
    ui_published_at: Option<usize>,
    cancellation_closed_at: Option<usize>,
    closes: bool,
    postcommit: Result<Vec<Identity>, UserWorkflowError>,
    user_blob: Vec<u8>,
    master_blob: Vec<u8>,
    calls: Vec<&'static str>,
}

fn identity_record() -> Identity {
    Identity { user_id: USER as i32, identifier: IDENTITY }
}

fn product_owner() -> EnrollmentOwner {
    match EnrollmentOwner::new(42_000) {
        Ok(owner) => owner,
        Err(_) => panic!("synthetic owner"),
    }
}

fn load_owner(storage: &FakeStorage) -> Result<EnrollmentOwner, EnrollmentOwnerError> {
    if storage.unsafe_owner {
        return Err(EnrollmentOwnerError::UnsafeStorage);
    }
    match storage.owner {
        None => Err(EnrollmentOwnerError::MissingOwner),
        Some(user_id) => EnrollmentOwner::new(user_id),
    }
}

fn preflight(
    storage: &mut FakeStorage,
    owner: EnrollmentOwner,
) -> Result<(), EnrollmentOwnerPreflightError> {
    let mut step = claim_enrollment_owner(owner);
    loop {
        step = match step {
            PreflightStep::LoadOwner(pending) => pending.loaded(load_owner(storage)),
            PreflightStep::InspectStore(pending) => {
                let empty = storage
                    .store
                    .is_empty_for_first_owner(storage.open_store(), Some(&storage.listing()));
                pending.inspected(empty)
            }
            PreflightStep::ReloadOwner(pending) => pending.reloaded(load_owner(storage)),
            PreflightStep::Claim(pending) => {
                let claimed = match storage.owner {
                    None => {
                        storage.owner = Some(pending.owner.as_raw());
                        Ok(OwnerClaim::Recorded)
                    }
                    Some(user_id) if user_id == pending.owner.as_raw() => Ok(OwnerClaim::Existing),
                    Some(_) => Err(EnrollmentOwnerError::DifferentOwner),
                };
                pending.claimed(claimed)
            }
            PreflightStep::End(result) => return result,
        };
    }
}

impl ProductFixture {
    fn new() -> Self {
        Self {
            storage: FakeStorage::new(),
            transaction: None,
            commands: Vec::new(),
            reservation_seen_before_first_command: false,
            lease_started_at_command: None,
            ui_published_at: None,
            cancellation_closed_at: None,
            closes: true,
            postcommit: Ok(vec![identity_record()]),
            user_blob: b"synthetic encrypted user".to_vec(),
            master_blob: b"synthetic encrypted master".to_vec(),
            calls: Vec::new(),
        }
    }

    fn with_postcommit_response(postcommit: Result<Vec<Identity>, UserWorkflowError>) -> Self {
        let mut fixture = Self::new();
        fixture.postcommit = postcommit;
        fixture
    }

    fn execute(&mut self, codes: &[u16]) {
        if self.commands.is_empty() {
            self.reservation_seen_before_first_command = self.storage.has_stage();
        }
        self.commands.extend_from_slice(codes);
    }

    /// Restores the candidate on the device, which is calibrated for it first.
    fn validate(&mut self, pending: PendingValidation) -> Result<bool, OperationFailure> {
        assert_eq!(pending.record(), FDR_RECORD);
        self.execute(&[0x22, 0x28, 0x28]);
        let mut step: RestoreStep<OperationFailure, (), ()> = pending.calibrated(Ok(()));
        let mut user_loaded = false;
        let validated = loop {
            step = match step {
                RestoreStep::Identities(pending) => {
                    self.execute(&[0x42]);
                    pending.read(Ok(vec![identity_record()]))
                }
                RestoreStep::Command(pending) => {
                    let payload = match pending.command {
                        EmptyCommand::SelectMaster => None,
                        EmptyCommand::LoadMaster => Some(b"synthetic recovered master".as_slice()),
                        EmptyCommand::LoadUser => Some(b"synthetic recovered user".as_slice()),
                    };
                    assert_eq!(pending.payload(), payload);
                    self.execute(if payload.is_none() { &[0x31] } else { &[0x40] });
                    user_loaded = user_loaded || matches!(pending.command, EmptyCommand::LoadUser);
                    pending.acknowledged(Ok(()))
                }
                RestoreStep::DaemonInfo(pending) => {
                    self.execute(&[0x28]);
                    pending.read(Ok(2))
                }
                RestoreStep::States(pending) => {
                    self.execute(&[0x3c]);
                    let mut states = vec![CatacombStateEntry { user_id: u32::MAX, state: 1 }];
                    if user_loaded {
                        states.push(CatacombStateEntry { user_id: USER, state: 3 });
                    }
                    pending.read(Ok(states))
                }
                RestoreStep::LockState(pending) => {
                    self.execute(&[0x27]);
                    pending.read(Ok(0))
                }
                RestoreStep::End(result) => break result,
            };
        };
        recovery_verdict(validated).map_err(|_| OperationFailure)
    }

    /// Lets the device judge a pending pair and keeps or promotes it.
    fn recover(
        &mut self,
        resolution: &PendingResolution,
    ) -> Result<CatacombRecoveryOutcome, RecoveryFailure> {
        let mut step = self.storage.store.recover_with_validator();
        loop {
            step = match step {
                RecoveryStep::Work(pending) => {
                    let temporary = marker_temporary_name(pending.token());
                    let outcome = match pending.work() {
                        RecoveryWork::OpenStore => self.storage.open_store(),
                        RecoveryWork::WriteMarker => {
                            self.storage.files.insert(temporary, pending.content());
                            Ok(())
                        }
                        RecoveryWork::ReplaceMarker => {
                            let marker = self.storage.files.remove(&temporary).unwrap();
                            self.storage.files.insert(b"active".to_vec(), marker);
                            Ok(())
                        }
                        RecoveryWork::RemoveReservation => {
                            self.storage.files.remove(&reservation_name(pending.token()));
                            Ok(())
                        }
                        _ => Ok(()),
                    };
                    pending.done(outcome)
                }
                RecoveryStep::ReadTokens(reserved) => reserved.read(Ok(self.storage.tokens())),
                RecoveryStep::Probe(probed) => {
                    let stage = stage_name(probed.token());
                    let generation = generation_name(probed.token());
                    probed.probed(
                        self.storage.directories.contains_key(&stage),
                        self.storage.directories.contains_key(&generation),
                    )
                }
                RecoveryStep::ReadPair(candidate) => {
                    let pair = self.storage.read_pair(candidate.reading());
                    candidate.read(pair)
                }
                RecoveryStep::Validate(judged) => {
                    let verdict = self.validate(resolution.validate(judged.pair()));
                    judged.judged(verdict)
                }
                RecoveryStep::ReadActive(accepted) => {
                    accepted.active(self.storage.active_generation())
                }
                RecoveryStep::End(result) => return result,
            };
        }
    }

    fn prepare(&mut self) -> Result<(), PreparationFailure> {
        let mut step = prepare_enrollment_transaction(USER, FDR_RECORD);
        loop {
            step = match step {
                EnrollmentPreparationStep::Recover(pending) => {
                    assert_eq!(pending.user_id(), USER);
                    let outcome = self.recover(&pending);
                    pending.resolved(outcome)
                }
                EnrollmentPreparationStep::BeginTransaction(pending) => {
                    pending.begun(self.storage.begin_transaction().map(|transaction| {
                        self.transaction = Some(transaction);
                    }))
                }
                EnrollmentPreparationStep::Calibrate(pending) => {
                    assert_eq!(pending.record(), FDR_RECORD);
                    self.execute(&[0x22, 0x28, 0x28]);
                    return pending.calibrated(Ok(()));
                }
                EnrollmentPreparationStep::End(result) => return result,
            };
        }
    }

    fn persist(&mut self, user_id: u32) -> Result<CatacombBackup, OperationFailure> {
        let mut step: BackupStep<OperationFailure, ()> =
            backup_catacomb_pair_with_transaction(user_id);
        loop {
            step = match step {
                BackupStep::Size(pending) => {
                    self.execute(&[0x3d]);
                    let master = pending.user_size.is_some();
                    assert_eq!(pending.addressee(), if master { -1 } else { 501 });
                    let size = match pending.user_size {
                        None => self.user_blob.len(),
                        Some(_) => self.master_blob.len(),
                    };
                    pending.answered(Ok(size))
                }
                BackupStep::Store(pending) => {
                    let transaction = self.transaction.take().unwrap();
                    let progress = match &pending.work {
                        StorageWork::Reserve { .. } => transaction.reserve_recovery(),
                        StorageWork::WriteMetadata { .. } => panic!("there is no manifest"),
                        StorageWork::WriteUser { blob, .. } => transaction.write_user(blob),
                        StorageWork::WriteMaster { blob, .. } => transaction.write_master(blob),
                        StorageWork::Promote { .. } => transaction.promote_after_native_finish(),
                    };
                    let (transaction, outcome) = self.storage.drive(progress);
                    self.transaction = Some(transaction);
                    pending.stored(outcome)
                }
                BackupStep::Export(pending) => {
                    self.execute(&[0x3e]);
                    let blob = match pending.master_size {
                        None => self.user_blob.clone(),
                        Some(_) => self.master_blob.clone(),
                    };
                    pending.exported(Ok(blob))
                }
                BackupStep::Finish(pending) => {
                    self.execute(&[0x3f]);
                    pending.finished(Ok(()))
                }
                BackupStep::End(result) => return result.map_err(|_| OperationFailure),
            };
        }
    }

    fn enroll(&mut self) -> Result<EnrollmentTransactionSuccess, TransactionFailure> {
        self.lease_started_at_command = Some(self.commands.len());
        let mut step = run_reserved_enrollment(USER, &CREDENTIAL);
        loop {
            step = match step {
                EnrollmentStep::PrepareUser(pending) => {
                    assert_eq!(pending.subject.user_id, USER);
                    self.execute(&[0x31, 0x28, 0x3c, 0x42]);
                    pending.prepared(Ok(Vec::new()))
                }
                EnrollmentStep::ReadStates(pending) => {
                    self.execute(&[0x28, 0x3c]);
                    pending.read(Ok(vec![CatacombStateEntry { user_id: USER, state: 3 }]))
                }
                EnrollmentStep::Rebind(_) => panic!("the user is secure"),
                EnrollmentStep::EnableSystem(pending) => {
                    assert_eq!(pending.subject().credential, CREDENTIAL);
                    self.execute(&[0x43]);
                    pending.enabled(Ok(()))
                }
                EnrollmentStep::EnableUser(pending) => {
                    assert_eq!(pending.subject().user_id, USER);
                    assert_eq!(pending.subject().credential, CREDENTIAL);
                    self.execute(&[0x2e]);
                    pending.enabled(Ok(()))
                }
                EnrollmentStep::Present(pending) => {
                    assert!(self.ui_published_at.is_none());
                    self.ui_published_at = Some(self.commands.len());
                    pending.presented()
                }
                EnrollmentStep::Enroll(pending) => {
                    assert_eq!(pending.subject().user_id, USER);
                    assert_eq!(pending.subject().credential, CREDENTIAL);
                    self.execute(&[0x03, 0x42]);
                    pending.ended(Ok(Some(IDENTITY)))
                }
                EnrollmentStep::CloseCancellation(pending) => {
                    self.cancellation_closed_at = Some(self.commands.len());
                    pending.closed(self.closes)
                }
                EnrollmentStep::Persist(pending) => {
                    let outcome = self.persist(pending.subject().user_id);
                    pending.persisted(outcome)
                }
                EnrollmentStep::Verify(pending) => {
                    assert_eq!(pending.subject().user_id, USER);
                    self.execute(&[0x42]);
                    return pending.listed(self.postcommit.clone());
                }
                EnrollmentStep::End(result) => return result,
            };
        }
    }

    fn run_product_transaction(&mut self) -> Result<EnrollmentTransactionSuccess, ProductError> {
        self.calls.push("external-fixed-lock");
        let outcome = match self.prepare() {
            Err(error) => EnrollmentLeaseOutcome::PreparationFailed(error),
            Ok(()) => {
                self.calls.extend([
                    "sep-session",
                    "keybag-reuse-promoted",
                    "acm-authorized-enrollment",
                ]);
                let result = match check_lease_credential(&CREDENTIAL) {
                    Err(error) => Err(error),
                    Ok(()) => operation_under_lease(self.enroll()),
                };
                self.calls.extend([
                    "acm-release",
                    "sep-release",
                    "prepared-bridge-close",
                    "external-fixed-lock-release",
                ]);
                EnrollmentLeaseOutcome::Completed(result)
            }
        };
        run_enrollment_transaction_after_handoff(outcome)
    }

    fn run(
        &mut self,
        restart: Result<(), RuntimeFailure>,
    ) -> Result<EnrollmentTransactionSuccess, ProductError> {
        assert_eq!(preflight(&mut self.storage, product_owner()), Ok(()));
        self.calls.extend(["relay-health", "relay-stop"]);
        let pending = match relay_checked::<RuntimeFailure, ProductError>(Ok(true)) {
            Ok(pending) => pending,
            Err(_) => panic!("the relay is active"),
        };
        let restarting = match pending
            .relay_stopped::<EnrollmentTransactionSuccess, RuntimeFailure, ProductError>(
                Attempt::Returned(Ok(())),
            ) {
            AfterStop::Operate(pending) => {
                pending.operation_ended(Attempt::Returned(self.run_product_transaction()))
            }
            AfterStop::Restart(_) => panic!("the relay stopped"),
        };
        self.calls.push("relay-start");
        let result = match restarting.relay_restarted(Attempt::Returned(restart)) {
            HandoffEnd::Returned(result) => result.map_err(EnrollmentLifecycleError::from_fault),
            HandoffEnd::ResumePrimary | HandoffEnd::ResumeRestart => panic!("nothing panicked"),
        };
        match result {
            Ok(success) => Ok(success),
            Err(EnrollmentLifecycleError::Operation(inner)) => Err(inner),
            Err(EnrollmentLifecycleError::RelayInactive) => {
                Err(EnrollmentLifecycleError::RelayInactive)
            }
            Err(EnrollmentLifecycleError::Runtime { stage, error }) => {
                Err(EnrollmentLifecycleError::Runtime { stage, error })
            }
            Err(EnrollmentLifecycleError::InvalidCredential) => {
                Err(EnrollmentLifecycleError::InvalidCredential)
            }
        }
    }

    fn assert_promoted_pair_loads(&self) {
        let pair = self.storage.load().ok().unwrap();
        assert_eq!(pair.user(), self.user_blob);
        assert_eq!(pair.master(), self.master_blob);
    }
}

fn transaction_failure(
    result: Result<EnrollmentTransactionSuccess, ProductError>,
) -> TransactionFailure {
    match result {
        Err(EnrollmentLifecycleError::Operation(EnrollmentOperationError::Transaction(error))) => {
            error
        }
        _ => panic!("the transaction fails"),
    }
}

#[test]
fn reconciled_path_orders_storage_calibration_lease_ui_completion_and_persistence() {
    let mut fixture = ProductFixture::new();
    let result = match fixture.run_product_transaction() {
        Ok(result) => result,
        Err(_) => panic!("reconciled synthetic enrollment succeeds"),
    };

    assert_eq!(result.identity, IDENTITY);
    assert!(fixture.reservation_seen_before_first_command);
    assert_eq!(fixture.lease_started_at_command, Some(3));
    assert_eq!(
        fixture.commands,
        [
            0x22, 0x28, 0x28, 0x31, 0x28, 0x3c, 0x42, 0x28, 0x3c, 0x43, 0x2e, 0x03, 0x42, 0x3d,
            0x3e, 0x3f, 0x3d, 0x3e, 0x3f, 0x42,
        ]
    );
    assert_eq!(fixture.ui_published_at, Some(11));
    assert_eq!(fixture.commands[11], 0x03);
    assert_eq!(fixture.cancellation_closed_at, Some(13));
    assert_eq!(fixture.commands[13], 0x3d);
    assert_eq!(
        fixture.calls,
        [
            "external-fixed-lock",
            "sep-session",
            "keybag-reuse-promoted",
            "acm-authorized-enrollment",
            "acm-release",
            "sep-release",
            "prepared-bridge-close",
            "external-fixed-lock-release",
        ]
    );
}

#[test]
fn precompletion_cancellation_stops_before_persistence() {
    let mut fixture = ProductFixture::new();
    fixture.closes = false;

    assert!(matches!(
        transaction_failure(fixture.run_product_transaction()),
        EnrollmentTransactionError::EnrollmentCancelled
    ));
    assert_eq!(fixture.commands.len(), 13);
    assert!(matches!(fixture.storage.load(), Err(CatacombStoreError::MissingPair)));
}

#[test]
fn different_linux_owner_stops_before_lifecycle_or_storage_mutation() {
    let mut fixture = ProductFixture::new();
    fixture.storage.owner = Some(42_001);

    assert_eq!(
        preflight(&mut fixture.storage, product_owner()),
        Err(EnrollmentOwnerPreflightError::Owner(EnrollmentOwnerError::DifferentOwner))
    );
    assert_eq!(fixture.storage.owner, Some(42_001));
    assert!(fixture.storage.listing().is_empty());
    assert!(fixture.calls.is_empty());
    assert!(fixture.commands.is_empty());
}

#[test]
fn missing_owner_never_claims_existing_or_pending_biometric_state() {
    for pending in [false, true] {
        let mut fixture = ProductFixture::new();
        if pending {
            fixture
                .storage
                .abandon(b"synthetic pending user", Some(b"synthetic pending master"));
        } else {
            fixture.storage.commit(b"synthetic active user", b"synthetic active master");
        }

        assert_eq!(
            preflight(&mut fixture.storage, product_owner()),
            Err(EnrollmentOwnerPreflightError::UnownedBiometricState)
        );
        assert!(fixture.storage.owner.is_none());
        if pending {
            assert!(matches!(
                fixture.storage.begin_transaction(),
                Err(CatacombStoreError::PendingExport)
            ));
        } else {
            let pair = fixture.storage.load().ok().unwrap();
            assert_eq!(pair.user(), b"synthetic active user");
        }
    }
}

#[test]
fn unsafe_owner_storage_stops_before_every_hardware_lifecycle() {
    let mut fixture = ProductFixture::new();
    fixture.storage.unsafe_owner = true;

    assert_eq!(
        preflight(&mut fixture.storage, product_owner()),
        Err(EnrollmentOwnerPreflightError::Owner(EnrollmentOwnerError::UnsafeStorage))
    );
    assert!(fixture.calls.is_empty());
    assert!(fixture.commands.is_empty());
}

#[test]
fn first_owner_is_retained_after_ambiguous_hardware_failure() {
    let mut fixture = ProductFixture::with_postcommit_response(Err(UserWorkflowError::Transport(
        OperationFailure,
    )));

    assert!(fixture.run(Ok(())).is_err());
    assert!(matches!(
        load_owner(&fixture.storage),
        Ok(owner) if owner.as_raw() == 42_000
    ));
}

#[test]
fn postcommit_transport_failure_requires_revalidation_without_losing_pair() {
    let mut fixture = ProductFixture::with_postcommit_response(Err(UserWorkflowError::Transport(
        OperationFailure,
    )));

    assert!(matches!(
        transaction_failure(fixture.run(Ok(()))),
        EnrollmentTransactionError::PostCommitIdentityVerification(
            UserWorkflowError::Transport(OperationFailure)
        )
    ));
    fixture.assert_promoted_pair_loads();
    assert_eq!(fixture.calls.last(), Some(&"relay-start"));
}

#[test]
fn malformed_postcommit_identity_list_requires_revalidation_without_losing_pair() {
    let mut fixture = ProductFixture::with_postcommit_response(Err(UserWorkflowError::Command));

    assert!(matches!(
        transaction_failure(fixture.run(Ok(()))),
        EnrollmentTransactionError::PostCommitIdentityVerification(UserWorkflowError::Command)
    ));
    fixture.assert_promoted_pair_loads();
    assert_eq!(fixture.calls.last(), Some(&"relay-start"));
}

#[test]
fn wrong_or_missing_postcommit_identity_requires_revalidation_without_losing_pair() {
    let mut fixture =
        ProductFixture::with_postcommit_response(Err(UserWorkflowError::IdentityForWrongUser));
    assert!(matches!(
        transaction_failure(fixture.run(Ok(()))),
        EnrollmentTransactionError::PostCommitIdentityVerification(
            UserWorkflowError::IdentityForWrongUser
        )
    ));
    fixture.assert_promoted_pair_loads();
    assert_eq!(fixture.calls.last(), Some(&"relay-start"));

    let mut fixture = ProductFixture::with_postcommit_response(Ok(Vec::new()));
    assert!(matches!(
        transaction_failure(fixture.run(Ok(()))),
        EnrollmentTransactionError::IdentityMissingAfterCommit
    ));
    fixture.assert_promoted_pair_loads();
    assert_eq!(fixture.calls.last(), Some(&"relay-start"));
}

#[test]
fn relay_restart_failure_overrides_postcommit_verification_failure() {
    let mut fixture = ProductFixture::with_postcommit_response(Err(UserWorkflowError::Transport(
        OperationFailure,
    )));

    assert!(matches!(
        fixture.run(Err(RuntimeFailure::Restart)),
        Err(EnrollmentLifecycleError::Runtime {
            stage: EnrollmentLifecycleStage::RelayRecovery,
            error: RuntimeFailure::Restart,
        })
    ));
    fixture.assert_promoted_pair_loads();
    assert_eq!(fixture.calls.last(), Some(&"relay-start"));
}

#[test]
fn incomplete_recovery_blocks_enrollment_without_touching_hardware() {
    let mut fixture = ProductFixture::new();
    fixture.storage.abandon(b"synthetic pending user", None);

    assert!(matches!(
        fixture.run_product_transaction(),
        Err(EnrollmentLifecycleError::Operation(EnrollmentOperationError::Preparation(
            EnrollmentPreparationError::RecoveryBlocked
        )))
    ));
    assert!(fixture.commands.is_empty());
    assert!(matches!(
        fixture.storage.begin_transaction(),
        Err(CatacombStoreError::PendingExport)
    ));
    assert_eq!(fixture.calls, ["external-fixed-lock"]);
}

#[test]
fn validated_recovery_promotes_before_a_fresh_enrollment_export() {
    let mut fixture = ProductFixture::new();
    fixture
        .storage
        .abandon(b"synthetic recovered user", Some(b"synthetic recovered master"));
    fixture.user_blob = b"synthetic enrolled user".to_vec();
    fixture.master_blob = b"synthetic enrolled master".to_vec();

    let result = match fixture.run_product_transaction() {
        Ok(result) => result,
        Err(_) => panic!("validated recovery allows a fresh enrollment"),
    };

    assert_eq!(result.identity, IDENTITY);
    assert_eq!(fixture.commands[0..4], [0x22, 0x28, 0x28, 0x31]);
    assert_eq!(fixture.commands.len(), 14 + 20);
    fixture.assert_promoted_pair_loads();
}

#[test]
fn unsafe_storage_recovery_precedes_every_biometric_command() {
    let mut fixture = ProductFixture::new();
    fixture.storage.unsafe_storage = true;

    assert!(matches!(
        fixture.run_product_transaction(),
        Err(EnrollmentLifecycleError::Operation(EnrollmentOperationError::Preparation(
            EnrollmentPreparationError::Recovery(CatacombRecoveryError::Store(
                CatacombStoreError::UnsafeStorage
            ))
        )))
    ));
    assert!(fixture.commands.is_empty());
    assert_eq!(fixture.calls, ["external-fixed-lock"]);
}

#[test]
fn unsecured_users_are_rebound_once_and_full_users_refused() {
    let states = |state| Ok(vec![CatacombStateEntry { user_id: USER, state }]);
    let step: EnrollmentStep<(), (), (), (), ()> = run_reserved_enrollment(USER, &CREDENTIAL);
    let EnrollmentStep::PrepareUser(pending) = step else {
        panic!("the user is prepared first")
    };
    let step: EnrollmentStep<(), (), (), (), ()> = pending.prepared(Ok(Vec::new()));
    let EnrollmentStep::ReadStates(pending) = step else {
        panic!("the states are read")
    };
    let step: EnrollmentStep<(), (), (), (), ()> = pending.read(states(1));
    let EnrollmentStep::Rebind(pending) = step else {
        panic!("an unsecured user is rebound")
    };
    let step: EnrollmentStep<(), (), (), (), ()> = pending.rebound(Ok(vec![identity_record(); 3]));
    let EnrollmentStep::ReadStates(pending) = step else {
        panic!("the states are read again")
    };
    let rebound = pending;
    let step: EnrollmentStep<(), (), (), (), ()> = rebound.read(states(3));
    assert!(matches!(
        step,
        EnrollmentStep::End(Err(EnrollmentTransactionError::IdentityCapacityReached))
    ));

    let EnrollmentStep::<(), (), (), (), ()>::PrepareUser(pending) =
        run_reserved_enrollment(USER, &CREDENTIAL)
    else {
        panic!("the user is prepared first")
    };
    let EnrollmentStep::<(), (), (), (), ()>::ReadStates(pending) = pending.prepared(Ok(Vec::new()))
    else {
        panic!("the states are read")
    };
    let EnrollmentStep::<(), (), (), (), ()>::Rebind(pending) = pending.read(states(0)) else {
        panic!("an unsecured user is rebound")
    };
    let EnrollmentStep::<(), (), (), (), ()>::ReadStates(pending) = pending.rebound(Ok(Vec::new()))
    else {
        panic!("the states are read again")
    };
    assert!(matches!(
        pending.read::<(), (), (), (), ()>(states(2)),
        EnrollmentStep::End(Err(EnrollmentTransactionError::CatacombNotSecurelyLoaded))
    ));
}

#[test]
fn a_timed_out_capture_persists_nothing() {
    let EnrollmentStep::<(), (), (), (), ()>::PrepareUser(pending) =
        run_reserved_enrollment(USER, &CREDENTIAL)
    else {
        panic!("the user is prepared first")
    };
    let EnrollmentStep::<(), (), (), (), ()>::ReadStates(pending) = pending.prepared(Ok(Vec::new()))
    else {
        panic!("the states are read")
    };
    let secure = vec![CatacombStateEntry { user_id: USER, state: 7 }];
    assert!(catacomb_is_secure(&secure, USER));
    assert!(!catacomb_is_secure(&secure, USER + 1));
    let EnrollmentStep::<(), (), (), (), ()>::EnableSystem(pending) = pending.read(Ok(secure)) else {
        panic!("the system policy is enabled")
    };
    let EnrollmentStep::<(), (), (), (), ()>::EnableUser(pending) = pending.enabled(Ok(())) else {
        panic!("the user policy is enabled")
    };
    let EnrollmentStep::<(), (), (), (), ()>::Present(pending) = pending.enabled(Ok(())) else {
        panic!("the capture is announced")
    };
    let EnrollmentStep::<(), (), (), (), ()>::Enroll(pending) = pending.presented() else {
        panic!("the finger is captured")
    };
    assert!(matches!(
        pending.ended::<(), (), (), (), ()>(Ok(None)),
        EnrollmentStep::End(Err(EnrollmentTransactionError::EnrollmentTimedOut))
    ));
}
