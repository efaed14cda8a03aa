use std::collections::VecDeque;
use t1_daemons::biometric::{CatacombStateEntry, Identity};
use t1_daemons::catacomb_names::{generation_name, reservation_name};
use t1_daemons::catacomb_recovery::{
    CatacombRecoveryError, CatacombRecoveryOutcome, RecoveryStep, RecoveryWork,
};
use t1_daemons::catacomb_restore::{
    ensure_identity_user, recovery_verdict, restore_catacomb_pair,
    restore_catacomb_pair_for_enrollment, state_for, validate_recovery_candidate,
    CatacombRestoreError, CatacombRestoreStage, RestoreFault, RestoreStep, RestoredCatacomb,
    CATACOMB_CORRUPTED,
};
use t1_daemons::catacomb_store::{
    read_blob, reject_recovery_state, CatacombPair, CatacombPairStore, CatacombStoreError,
    LoadStep, PairAnswer, PairPart, PairProgress, PairReading, StoreEntry, StoreLimits,
    StoredContent,
};
use t1_daemons::catacomb_transaction::{BeginStep, CatacombPairTransaction};

const USER: u32 = 42;
const OTHER_USER: u32 = 43;
const FDR_RECORD: &[u8] = b"synthetic calibration record";
const USER_BLOB: &[u8] = b"synthetic encrypted user blob";
const MASTER_BLOB: &[u8] = b"synthetic encrypted master blob";

#[derive(Clone, Copy, Debug, Eq, PartialEq)]
struct SyntheticError;

#[derive(Clone, Copy, Debug, Eq, PartialEq)]
struct ProtocolError;

type Fault = RestoreFault<SyntheticError, ProtocolError>;
type Error = CatacombRestoreError<SyntheticError, ProtocolError, SyntheticError>;
type Step<'a> = RestoreStep<'a, SyntheticError, ProtocolError, SyntheticError>;

enum Reply {
    Failure,
    Nothing,
    Info(u32),
    States(Vec<CatacombStateEntry>),
    Identities(Vec<Identity>),
    Lock(u32),
}

struct Observation {
    code: u16,
    payload_len: usize,
    payload_prefix: Option<u32>,
    payload: Vec<u8>,
}

struct FakeTransport {
    responses: VecDeque<Reply>,
    commands: Vec<Observation>,
}

impl FakeTransport {
    fn new(responses: impl IntoIterator<Item = Reply>) -> Self {
        Self { responses: responses.into_iter().collect(), commands: Vec::new() }
    }

    fn execute(&mut self, code: u16, payload: &[u8]) -> Result<Reply, Fault> {
        self.commands.push(Observation {
            code,
            payload_len: payload.len(),
            payload_prefix: payload
                .get(..4)
                .map(|bytes| u32::from_le_bytes(bytes.try_into().unwrap())),
            payload: payload.to_vec(),
        });
        match self.responses.pop_front().expect("synthetic response") {
            Reply::Failure => Err(RestoreFault::Transport(SyntheticError)),
            reply => Ok(reply),
        }
    }

    fn codes(&self) -> Vec<u16> {
        self.commands.iter().map(|observation| observation.code).collect()
    }
}

fn drive(mut step: Step, transport: &mut FakeTransport) -> Result<RestoredCatacomb, Error> {
    loop {
        step = match step {
            RestoreStep::Identities(pending) => {
                pending.read(transport.execute(0x42, &USER.to_le_bytes()).map(|reply| match reply {
                    Reply::Identities(identities) => identities,
                    Reply::Nothing => Vec::new(),
                    _ => panic!("identities were scripted"),
                }))
            }
            RestoreStep::Command(pending) => {
                let outcome = match pending.payload() {
                    None => transport.execute(0x31, &u32::MAX.to_le_bytes()),
                    Some(payload) => transport.execute(0x40, payload),
                };
                pending.acknowledged(outcome.map(|reply| assert!(matches!(reply, Reply::Nothing))))
            }
            RestoreStep::DaemonInfo(pending) => {
                pending.read(transport.execute(0x28, &[]).map(|reply| match reply {
                    Reply::Info(components) => components,
                    _ => panic!("daemon information was scripted"),
                }))
            }
            RestoreStep::States(pending) => {
                pending.read(transport.execute(0x3c, &[]).map(|reply| match reply {
                    Reply::States(states) => states,
                    Reply::Nothing => Vec::new(),
                    _ => panic!("states were scripted"),
                }))
            }
            RestoreStep::LockState(pending) => {
                pending.read(transport.execute(0x27, &USER.to_le_bytes()).map(|reply| match reply {
                    Reply::Lock(state) => state,
                    _ => panic!("the lock state was scripted"),
                }))
            }
            RestoreStep::End(result) => return result,
        };
    }
}

fn pair() -> CatacombPair {
    CatacombPair::new(MASTER_BLOB.to_vec(), USER_BLOB.to_vec(), None)
}

fn restore(transport: &mut FakeTransport) -> Result<RestoredCatacomb, Error> {
    drive(restore_catacomb_pair(Ok(&pair()), USER), transport)
}

fn failure(result: Result<RestoredCatacomb, Error>) -> Error {
    match result {
        Err(error) => error,
        Ok(_) => panic!("the restore fails"),
    }
}

fn restored(result: Result<RestoredCatacomb, Error>) -> RestoredCatacomb {
    match result {
        Ok(restored) => restored,
        Err(_) => panic!("the restore succeeds"),
    }
}

fn states(entries: &[(u32, u32)]) -> Reply {
    Reply::States(
        entries
            .iter()
            .map(|(user_id, state)| CatacombStateEntry { user_id: *user_id, state: *state })
            .collect(),
    )
}

fn identity(user_id: u32, marker: u8) -> Identity {
    Identity { user_id: user_id as i32, identifier: [marker; 16] }
}

fn successful_responses() -> Vec<Reply> {
    vec![
        Reply::Nothing,
        Reply::Nothing,
        Reply::Info(2),
        Reply::Nothing,
        Reply::Nothing,
        Reply::Info(2),
        states(&[(u32::MAX, 1)]),
        Reply::Nothing,
        Reply::Info(2),
        states(&[(u32::MAX, 1), (USER, 3)]),
        Reply::Identities(vec![identity(USER, 0x21), identity(USER, 0x42)]),
        Reply::Lock(0),
    ]
}

fn forced_restore_responses() -> Vec<Reply> {
    successful_responses().into_iter().skip(1).collect()
}

fn previously_loaded_master_responses() -> Vec<Reply> {
    vec![
        Reply::Nothing,
        Reply::Nothing,
        Reply::Info(1),
        states(&[(u32::MAX, 3)]),
        Reply::Nothing,
        Reply::Info(1),
        states(&[(u32::MAX, 3)]),
        Reply::Nothing,
        Reply::Info(2),
        states(&[(u32::MAX, 3), (USER, 3)]),
        Reply::Identities(vec![identity(USER, 0x21)]),
        Reply::Lock(0),
    ]
}

fn recovery_responses() -> Vec<Reply> {
    let mut responses = vec![Reply::Nothing, Reply::Info(0), Reply::Info(0)];
    responses.extend(forced_restore_responses());
    responses
}

fn calibrate(transport: &mut FakeTransport, record: &[u8]) -> Result<(), SyntheticError> {
    assert_eq!(record, FDR_RECORD);
    for code in [0x22, 0x28, 0x28] {
        if transport.execute(code, &[]).is_err() {
            return Err(SyntheticError);
        }
    }
    Ok(())
}

/// A store: its generations by name, its reservation and its active marker.
struct PendingStore {
    store: CatacombPairStore,
    generations: Vec<(Vec<u8>, CatacombPair)>,
    reservation: Option<Vec<u8>>,
    active: Option<Vec<u8>>,
}

impl PendingStore {
    fn empty() -> Self {
        Self {
            store: CatacombPairStore::new(StoreLimits { blob: 4096, manifest: 512 }),
            generations: Vec::new(),
            reservation: None,
            active: None,
        }
    }

    fn clean() -> Self {
        let mut store = Self::empty();
        store.generations.push((b"pair-1-2-3".to_vec(), pair()));
        store.active = Some(b"pair-1-2-3".to_vec());
        store
    }

    fn pending() -> Self {
        let mut store = Self::empty();
        store.generations.push((b"pair-a-b-c".to_vec(), pair()));
        store.reservation = Some(b"a-b-c".to_vec());
        store
    }

    /// A reserved generation whose master was never written.
    fn incomplete() -> Self {
        let mut store = Self::empty();
        store.generations.push((
            b"pair-a-b-c".to_vec(),
            CatacombPair::new(Vec::new(), USER_BLOB.to_vec(), None),
        ));
        store.reservation = Some(b"a-b-c".to_vec());
        store
    }

    fn read_pair(&self, mut reading: PairReading) -> Result<CatacombPair, CatacombStoreError> {
        loop {
            let found = self.generations.iter().find(|(name, _)| name == reading.generation());
            let limits = reading.limits();
            let blob = |bytes: Option<&[u8]>| match bytes {
                Some([]) | None => Err(CatacombStoreError::IncompletePair),
                Some(bytes) => read_blob(StoredContent::Exact(bytes.to_vec()), &limits),
            };
            let answer = match reading.part() {
                PairPart::Directory => PairAnswer::Directory(
                    found.map(|_| ()).ok_or(CatacombStoreError::IncompletePair),
                ),
                PairPart::Master => PairAnswer::Blob(blob(found.map(|(_, pair)| pair.master()))),
                PairPart::User => PairAnswer::Blob(blob(found.map(|(_, pair)| pair.user()))),
                PairPart::Metadata => PairAnswer::Metadata(Ok(None)),
            };
            match reading.answered(answer) {
                PairProgress::Next(next) => reading = next,
                PairProgress::End(result) => return result,
            }
        }
    }

    fn load(&self) -> Result<CatacombPair, CatacombStoreError> {
        let mut step = self.store.load();
        loop {
            step = match step {
                LoadStep::OpenStore(pending) => pending.opened(Ok(())),
                LoadStep::ReadMarker(pending) => {
                    pending.read(self.active.clone().ok_or(CatacombStoreError::MissingPair))
                }
                LoadStep::ReadPair(reading) => return self.read_pair(reading),
                LoadStep::End(result) => return result,
            };
        }
    }

    fn begin_transaction(&self) -> Result<CatacombPairTransaction, CatacombStoreError> {
        let mut listing: Vec<StoreEntry> =
            self.generations.iter().map(|(name, _)| StoreEntry::Named(name.clone())).collect();
        if let Some(token) = &self.reservation {
            listing.push(StoreEntry::Named(reservation_name(token)));
        }
        let mut step = self.store.begin_transaction();
        loop {
            step = match step {
                BeginStep::PrepareDirectory(pending) => pending.prepared(Ok(())),
                BeginStep::RejectRecoveryState(prepared) => {
                    prepared.listed(reject_recovery_state(Some(&listing)), b"d-e-f".to_vec())
                }
                BeginStep::CreateStage(staged) => return staged.created(Ok(())),
                BeginStep::Failed(error) => return Err(error),
            };
        }
    }

    fn refuses_transaction(&self) -> bool {
        matches!(self.begin_transaction(), Err(CatacombStoreError::PendingExport))
    }

    fn recover_ambiguous_pair(
        &mut self,
        transport: &mut FakeTransport,
    ) -> Result<CatacombRecoveryOutcome, CatacombRecoveryError<Error>> {
        let mut step = self.store.recover_with_validator();
        loop {
            step = match step {
                RecoveryStep::Work(pending) => {
                    match pending.work() {
                        RecoveryWork::ReplaceMarker => {
                            self.active = Some(generation_name(pending.token()));
                        }
                        RecoveryWork::RemoveReservation => self.reservation = None,
                        _ => {}
                    }
                    pending.done(Ok(()))
                }
                RecoveryStep::ReadTokens(reserved) => {
                    reserved.read(Ok(self.reservation.iter().cloned().collect()))
                }
                RecoveryStep::Probe(probed) => {
                    let generation = generation_name(probed.token());
                    let present = self.generations.iter().any(|(name, _)| *name == generation);
                    probed.probed(false, present)
                }
                RecoveryStep::ReadPair(candidate) => {
                    let read = self.read_pair(candidate.reading());
                    candidate.read(read)
                }
                RecoveryStep::Validate(judged) => {
                    let pending = validate_recovery_candidate(USER, judged.pair(), FDR_RECORD);
                    let calibrated = calibrate(transport, pending.record());
                    let validated = drive(pending.calibrated(calibrated), transport);
                    judged.judged(recovery_verdict(validated))
                }
                RecoveryStep::ReadActive(accepted) => {
                    accepted.active(self.active.clone().ok_or(CatacombStoreError::MissingPair))
                }
                RecoveryStep::End(result) => return result,
            };
        }
    }
}

#[test]
fn restores_master_then_user_and_validates_final_state() {
    let mut transport = FakeTransport::new(successful_responses());

    let restored = restored(restore(&mut transport));

    assert_eq!(restored.identity_count(), 2);
    assert!(!restored.already_loaded());
    let rendered = restored.diagnostic();
    assert!(rendered.contains("identity_count: 2"));
    assert!(rendered.contains("[redacted]"));
    assert!(!rendered.contains("!\"#$"));
    assert_eq!(
        rendered,
        "RestoredCatacomb { identity_count: 2, identities: \"[redacted]\", already_loaded: false }"
    );
    assert_eq!(
        transport.codes(),
        [0x42, 0x31, 0x28, 0x3c, 0x40, 0x28, 0x3c, 0x40, 0x28, 0x3c, 0x42, 0x27]
    );
    assert_eq!(transport.commands[1].payload_prefix, Some(u32::MAX));
    assert_eq!(
        transport.commands[4].payload_prefix,
        Some(u32::from_le_bytes(MASTER_BLOB[..4].try_into().unwrap()))
    );
    assert_eq!(
        transport.commands[7].payload_prefix,
        Some(u32::from_le_bytes(USER_BLOB[..4].try_into().unwrap()))
    );
    assert_eq!(transport.commands[4].payload_len, MASTER_BLOB.len());
    assert_eq!(transport.commands[7].payload_len, USER_BLOB.len());
    assert_eq!(transport.commands[4].payload, MASTER_BLOB);
    assert_eq!(transport.commands[7].payload, USER_BLOB);
}

#[test]
fn valid_live_identities_short_circuit_without_mutation() {
    let mut transport = FakeTransport::new([Reply::Identities(vec![identity(USER, 0x31)])]);

    let restored = restored(restore(&mut transport));

    assert!(restored.already_loaded());
    assert_eq!(restored.identity_count(), 1);
    assert_eq!(transport.commands.len(), 1);
    assert_eq!(transport.commands[0].code, 0x42);
}

#[test]
fn ordinary_restore_reloads_master_even_when_state_reports_loaded() {
    let mut transport = FakeTransport::new(previously_loaded_master_responses());

    let restored = restored(restore(&mut transport));

    assert!(!restored.already_loaded());
    assert_eq!(restored.identity_count(), 1);
    assert_eq!(
        transport.codes(),
        [0x42, 0x31, 0x28, 0x3c, 0x40, 0x28, 0x3c, 0x40, 0x28, 0x3c, 0x42, 0x27]
    );
    assert_eq!(
        transport.commands[4].payload_prefix,
        Some(u32::from_le_bytes(MASTER_BLOB[..4].try_into().unwrap()))
    );
    assert_eq!(transport.commands[4].payload_len, MASTER_BLOB.len());
    assert_eq!(
        transport.commands[7].payload_prefix,
        Some(u32::from_le_bytes(USER_BLOB[..4].try_into().unwrap()))
    );
    assert_eq!(transport.commands[7].payload_len, USER_BLOB.len());
}

#[test]
fn recovery_forces_master_first_validation_and_promotes_only_after_success() {
    let mut store = PendingStore::pending();
    let mut responses = recovery_responses();
    responses[5] = states(&[(u32::MAX, 3)]);
    let mut transport = FakeTransport::new(responses);

    assert!(matches!(
        store.recover_ambiguous_pair(&mut transport),
        Ok(CatacombRecoveryOutcome::Promoted)
    ));
    let pair = store.load().unwrap();
    assert_eq!(pair.user(), USER_BLOB);
    assert_eq!(pair.master(), MASTER_BLOB);
    assert_eq!(transport.commands.first().unwrap().code, 0x22);
    assert_eq!(transport.commands[3].code, 0x31);
    assert_eq!(transport.commands[6].code, 0x40);
    assert_eq!(transport.commands[9].code, 0x40);
    assert_eq!(transport.commands[6].payload, MASTER_BLOB);
    assert_eq!(transport.commands[9].payload, USER_BLOB);
    assert!(store.begin_transaction().is_ok());
}

#[test]
fn clean_or_incomplete_recovery_state_never_touches_hardware() {
    let mut clean = PendingStore::clean();
    let mut transport = FakeTransport::new([]);
    assert!(matches!(
        clean.recover_ambiguous_pair(&mut transport),
        Ok(CatacombRecoveryOutcome::Clean)
    ));
    assert!(transport.commands.is_empty());

    let mut incomplete = PendingStore::incomplete();
    assert!(matches!(
        incomplete.recover_ambiguous_pair(&mut transport),
        Ok(CatacombRecoveryOutcome::Quarantined)
    ));
    assert!(transport.commands.is_empty());
    assert!(incomplete.refuses_transaction());
}

#[test]
fn definitive_rejection_quarantines_but_unverifiable_failure_is_returned() {
    let mut rejected = PendingStore::pending();
    let mut responses = recovery_responses();
    responses[12] = Reply::Nothing;
    responses.truncate(13);
    let mut transport = FakeTransport::new(responses);
    assert!(matches!(
        rejected.recover_ambiguous_pair(&mut transport),
        Ok(CatacombRecoveryOutcome::Quarantined)
    ));
    assert!(rejected.refuses_transaction());

    let mut unavailable = PendingStore::pending();
    let mut transport = FakeTransport::new([Reply::Failure]);
    assert!(matches!(
        unavailable.recover_ambiguous_pair(&mut transport),
        Err(CatacombRecoveryError::Validator(CatacombRestoreError::Calibration(SyntheticError)))
    ));
    assert!(unavailable.refuses_transaction());
}

#[test]
fn cross_user_live_identity_fails_before_mutation() {
    let mut transport = FakeTransport::new([Reply::Identities(vec![identity(OTHER_USER, 0x31)])]);

    assert!(matches!(
        restore(&mut transport),
        Err(CatacombRestoreError::LiveIdentityForAnotherUser)
    ));
    assert_eq!(transport.commands.len(), 1);
}

#[test]
fn storage_is_validated_before_hardware() {
    let mut transport = FakeTransport::new([]);
    assert!(matches!(
        drive(
            restore_catacomb_pair(Err(CatacombStoreError::MissingPair), USER),
            &mut transport
        ),
        Err(CatacombRestoreError::Store(CatacombStoreError::MissingPair))
    ));
    assert!(transport.commands.is_empty());
}

#[test]
fn missing_master_state_stops_before_user_load() {
    let mut transport = FakeTransport::new([
        Reply::Nothing,
        Reply::Nothing,
        Reply::Info(1),
        Reply::Nothing,
        Reply::Nothing,
        Reply::Info(1),
        states(&[(USER, 3)]),
    ]);

    assert!(matches!(
        restore(&mut transport),
        Err(CatacombRestoreError::MasterNotLoaded { state: None })
    ));
    assert_eq!(transport.codes(), [0x42, 0x31, 0x28, 0x3c, 0x40, 0x28, 0x3c]);
}

#[test]
fn insecure_user_state_stops_before_identity_validation() {
    let mut responses = successful_responses();
    responses[9] = states(&[(u32::MAX, 1), (USER, 1)]);
    responses.truncate(10);
    let mut transport = FakeTransport::new(responses);

    assert!(matches!(
        restore(&mut transport),
        Err(CatacombRestoreError::UserNotSecurelyLoaded { state: Some(1) })
    ));
    assert_eq!(transport.commands.last().unwrap().code, 0x3c);
}

#[test]
fn empty_and_cross_user_final_identities_are_rejected() {
    for (identities, expected_cross_user) in
        [(Vec::new(), false), (vec![identity(OTHER_USER, 0x72)], true)]
    {
        let mut responses = successful_responses();
        responses[10] = Reply::Identities(identities);
        responses.truncate(11);
        let mut transport = FakeTransport::new(responses);

        let error = failure(restore(&mut transport));
        assert_eq!(
            matches!(&error, CatacombRestoreError::RestoredIdentityForAnotherUser),
            expected_cross_user
        );
        assert_eq!(
            matches!(&error, CatacombRestoreError::NoEnrolledFingerprints),
            !expected_cross_user
        );
    }
}

#[test]
fn enrollment_restore_accepts_valid_empty_identity_catalog() {
    let mut responses = successful_responses();
    responses[10] = Reply::Nothing;
    let mut transport = FakeTransport::new(responses);

    let restored =
        restored(drive(restore_catacomb_pair_for_enrollment(Ok(&pair()), USER), &mut transport));

    assert_eq!(restored.identity_count(), 0);
    assert!(!restored.already_loaded());
    assert_eq!(transport.commands.last().unwrap().code, 0x27);
}

#[test]
fn corrupted_lock_state_fails_after_final_identity_validation() {
    let mut responses = successful_responses();
    responses[11] = Reply::Lock(CATACOMB_CORRUPTED);
    let mut transport = FakeTransport::new(responses);

    assert!(matches!(
        restore(&mut transport),
        Err(CatacombRestoreError::CorruptedCatacomb)
    ));
    assert_eq!(transport.commands.last().unwrap().code, 0x27);
}

#[test]
fn transport_error_and_result_debug_redact_sensitive_values() {
    let mut transport = FakeTransport::new([Reply::Failure]);

    let error = failure(restore(&mut transport));
    assert_eq!(
        format!("{} {}", error.diagnostic().unwrap(), error.message().unwrap()),
        "Transport { stage: LiveIdentities, error: \"[redacted]\" } biometric transport failed during live identity read"
    );

    let mut responses = successful_responses();
    responses[4] = Reply::Failure;
    let mut transport = FakeTransport::new(responses);
    assert!(matches!(
        restore(&mut transport),
        Err(CatacombRestoreError::Transport { stage: CatacombRestoreStage::LoadMaster, .. })
    ));
}

#[test]
fn restore_messages_carry_the_reported_state() {
    let error: Error = CatacombRestoreError::MasterNotLoaded { state: None };
    assert_eq!(
        error.message().unwrap(),
        "restored master catacomb is not loaded (state=None)"
    );
    assert_eq!(error.diagnostic().unwrap(), "MasterNotLoaded { state: None }");
    let error: Error = CatacombRestoreError::UserNotSecurelyLoaded { state: Some(4_294_967_290) };
    assert_eq!(
        error.message().unwrap(),
        "restored user catacomb is not securely loaded (state=Some(4294967290))"
    );
    let error: Error = CatacombRestoreError::Store(CatacombStoreError::MissingPair);
    assert_eq!(error.diagnostic().unwrap(), "Store(MissingPair)");
    let error: Error = CatacombRestoreError::Command(ProtocolError);
    assert!(error.message().is_none());
}

#[test]
fn states_and_identities_are_looked_up_by_user() {
    let entries = vec![
        CatacombStateEntry { user_id: u32::MAX, state: 1 },
        CatacombStateEntry { user_id: USER, state: 3 },
        CatacombStateEntry { user_id: USER, state: 0 },
    ];
    assert_eq!(state_for(&entries, USER), Some(0));
    assert_eq!(state_for(&entries, OTHER_USER), None);
    assert!(ensure_identity_user(&vec![identity(USER, 1)], USER));
    assert!(ensure_identity_user(&Vec::new(), USER));
    assert!(!ensure_identity_user(&vec![identity(USER, 1), identity(OTHER_USER, 2)], USER));
    assert!(!ensure_identity_user(&vec![Identity { user_id: -1, identifier: [0; 16] }], USER));
}

#[test]
fn protocol_failures_reject_no_candidate() {
    for (fault, is_command) in [
        (RestoreFault::Command(ProtocolError), true),
        (RestoreFault::Mesa(ProtocolError), false),
    ] {
        let error: Error = CatacombRestoreError::from_fault(CatacombRestoreStage::LockState, fault);
        assert_eq!(matches!(error, CatacombRestoreError::Command(_)), is_command);
    }
    assert!(matches!(
        recovery_verdict::<SyntheticError, ProtocolError, SyntheticError>(Err(
            CatacombRestoreError::CorruptedCatacomb
        )),
        Ok(false)
    ));
    assert!(matches!(
        recovery_verdict::<SyntheticError, ProtocolError, SyntheticError>(Err(
            CatacombRestoreError::Transport {
                stage: CatacombRestoreStage::LoadUser,
                error: SyntheticError,
            }
        )),
        Err(CatacombRestoreError::Transport { .. })
    ));
}
