use t1_daemons::auth_operation::{encode_identities, PendingRestore, PreparationStep};
use t1_daemons::biometric::{CatacombStateEntry, Identity, IdentityMatchOutcome};
use t1_daemons::catacomb_recovery::CatacombRecoveryOutcome;
use t1_daemons::catacomb_restore::{EmptyCommand, RestoreStep, RestoredCatacomb};
use t1_daemons::catacomb_session::{
    backup_catacomb_pair_with_transaction_and_metadata, BackupStep, CatacombBackup, StorageWork,
};
use t1_daemons::catacomb_store::{CatacombPair, CatacombStoreError};
use t1_daemons::standard_enrollment::{
    identity_ids, prepare_standard_enrollment, run_reserved_standard_enrollment,
    same_identity_set, CatalogFault, PreparedStandardEnrollment, StandardEnrollmentError,
    StandardEnrollmentPreparationError,
    StandardEnrollmentStep, StandardEnrollmentSuccess, StandardPreparationStep,
    StandardProgressNormalizer,
};
use t1_daemons::standard_fingerprint_protocol::{FingerLabel, IdentityId};

const USER: u32 = 501;
const LEGACY: [u8; 16] = [0x11; 16];
const NEW: [u8; 16] = [0x22; 16];
const COLLATERAL: [u8; 16] = [0x33; 16];
const EXISTING_LABELED: [u8; 16] = [0x44; 16];
const OWNER: &str = "synthetic-owner";
const FDR_RECORD: &[u8] = b"synthetic calibration record";
const CREDENTIAL: [u8; 16] = [0x5a; 16];

#[derive(Clone, Copy, Debug, Eq, PartialEq)]
struct SyntheticError;

#[derive(Clone, Copy, Debug, Eq, PartialEq)]
struct IdentitySetMismatch;

#[derive(Clone, Copy, Debug, Eq, PartialEq)]
struct NoEnrolledIdentities;

type Failure = StandardEnrollmentError<
    SyntheticError,
    SyntheticError,
    IdentitySetMismatch,
    NoEnrolledIdentities,
    SyntheticError,
    SyntheticError,
    SyntheticError,
    SyntheticError,
>;
type Entries = Vec<(IdentityId, Option<FingerLabel>)>;

/// An account and the labels of its identities.
#[derive(Clone)]
struct Manifest {
    owner: String,
    identities: Entries,
}

/// A device, a store and a user interface whose answers are fixed.
struct Fixture {
    commands: Vec<u16>,
    has_active_pair: bool,
    live_before: Vec<[u8; 16]>,
    live_after: Vec<[u8; 16]>,
    committed: Option<Manifest>,
    finger: FingerLabel,
    raw_progress: Vec<u64>,
    duplicate: Result<IdentityMatchOutcome, NoEnrolledIdentities>,
    promoted: Option<Manifest>,
    progress: Vec<(u8, u8)>,
    started: usize,
    checked: usize,
}

fn id(bytes: [u8; 16]) -> IdentityId {
    IdentityId { bytes }
}

fn identities(identifiers: &[[u8; 16]]) -> Vec<Identity> {
    identifiers
        .iter()
        .map(|identifier| Identity { user_id: USER as i32, identifier: *identifier })
        .collect()
}

fn has_same_id(a: &IdentityId, b: &IdentityId) -> bool {
    a.bytes == b.bytes
}

const FINGERS: [FingerLabel; 4] = [
    FingerLabel::LeftThumb,
    FingerLabel::RightIndex,
    FingerLabel::RightMiddle,
    FingerLabel::RightLittle,
];

fn encode_manifest(manifest: &Manifest) -> Vec<u8> {
    let mut encoded = Vec::new();
    encoded.push(manifest.owner.len() as u8);
    encoded.extend(manifest.owner.as_bytes());
    for (identity, label) in &manifest.identities {
        encoded.extend(identity.bytes);
        encoded.push(match label {
            None => 0xff,
            Some(label) => FINGERS.iter().position(|finger| finger == label).unwrap() as u8,
        });
    }
    encoded
}

fn decode_manifest(encoded: &[u8]) -> Manifest {
    let (owner, entries) = encoded[1..].split_at(usize::from(encoded[0]));
    Manifest {
        owner: String::from_utf8(owner.to_vec()).unwrap(),
        identities: entries
            .chunks(17)
            .map(|entry| {
                let label = FINGERS.get(usize::from(entry[16])).copied();
                (id(entry[..16].try_into().unwrap()), label)
            })
            .collect(),
    }
}

fn owned(identities: Entries) -> Manifest {
    Manifest { owner: OWNER.to_owned(), identities }
}

fn assert_manifest(manifest: Option<&Manifest>, expected: &[(IdentityId, Option<FingerLabel>)]) {
    let manifest = manifest.unwrap();
    assert_eq!(manifest.owner, OWNER);
    assert_eq!(manifest.identities.len(), expected.len());
    for (entry, wanted) in manifest.identities.iter().zip(expected) {
        assert!(has_same_id(&entry.0, &wanted.0));
        assert_eq!(entry.1, wanted.1);
    }
}

impl Fixture {
    fn new(before: &[[u8; 16]], after: &[[u8; 16]], finger: FingerLabel) -> Self {
        Self {
            commands: Vec::new(),
            has_active_pair: false,
            live_before: before.to_vec(),
            live_after: after.to_vec(),
            committed: None,
            finger,
            raw_progress: Vec::new(),
            duplicate: Ok(IdentityMatchOutcome::NoMatch),
            promoted: None,
            progress: Vec::new(),
            started: 0,
            checked: 0,
        }
    }

    fn restore(&mut self, pending: &PendingRestore) -> Result<RestoredCatacomb, SyntheticError> {
        let pair = CatacombPair::new(vec![1; 24], vec![2; 24], None);
        let mut step: RestoreStep<(), (), ()> = pending.begin(Ok(&pair));
        let mut user_loaded = false;
        loop {
            step = match step {
                RestoreStep::Identities(pending) => {
                    self.commands.push(0x42);
                    let live = if pending.restored {
                        identities(&self.live_before)
                    } else {
                        Vec::new()
                    };
                    pending.read(Ok(live))
                }
                RestoreStep::Command(pending) => {
                    self.commands.push(match pending.command {
                        EmptyCommand::SelectMaster => 0x31,
                        EmptyCommand::LoadMaster => 0x40,
                        EmptyCommand::LoadUser => {
                            user_loaded = true;
                            0x40
                        }
                    });
                    pending.acknowledged(Ok(()))
                }
                RestoreStep::DaemonInfo(pending) => {
                    self.commands.push(0x28);
                    pending.read(Ok(1))
                }
                RestoreStep::States(pending) => {
                    self.commands.push(0x3c);
                    let state = if user_loaded {
                        CatacombStateEntry { user_id: USER, state: 3 }
                    } else {
                        CatacombStateEntry { user_id: u32::MAX, state: 1 }
                    };
                    pending.read(Ok(vec![state]))
                }
                RestoreStep::LockState(pending) => {
                    self.commands.push(0x27);
                    pending.read(Ok(0))
                }
                RestoreStep::End(result) => return result.map_err(|_| SyntheticError),
            };
        }
    }

    fn restore_user(
        &mut self,
        mut step: PreparationStep<(), (), SyntheticError, (), ()>,
    ) -> Result<Vec<Identity>, SyntheticError> {
        loop {
            step = match step {
                PreparationStep::LoadStore(pending) => pending.loaded(Ok(())),
                PreparationStep::ReassertPolicy(pending) => {
                    assert_eq!(pending.user_id(), USER);
                    assert_eq!(pending.credential(), CREDENTIAL);
                    self.commands.extend([0x2e, 0x2f, 0x2e]);
                    pending.reasserted(Ok(()))
                }
                PreparationStep::Restore(pending) => {
                    let restored = self.restore(&pending);
                    pending.restored(restored)
                }
                PreparationStep::PrepareUser(_) => panic!("there is a durable pair"),
                PreparationStep::End(result) => {
                    return result
                        .map(|prepared| prepared.identities().to_vec())
                        .map_err(|_| SyntheticError);
                }
            };
        }
    }

    fn reconcile(
        committed: Option<&Manifest>,
        owner: &str,
        before: &[IdentityId],
    ) -> Result<Manifest, CatalogFault<IdentitySetMismatch>> {
        match committed {
            None => Ok(Manifest {
                owner: owner.to_owned(),
                identities: before.iter().map(|identity| (*identity, None)).collect(),
            }),
            Some(manifest) => {
                let known: Vec<IdentityId> =
                    manifest.identities.iter().map(|entry| entry.0).collect();
                if manifest.owner == owner && same_identity_set(&known, &before.to_vec()) {
                    Ok(manifest.clone())
                } else {
                    Err(CatalogFault::Catalog(IdentitySetMismatch))
                }
            }
        }
    }

    fn persist(
        &mut self,
        user_id: u32,
        manifest: &[u8],
    ) -> Result<CatacombBackup, SyntheticError> {
        let mut step: BackupStep<SyntheticError, ()> =
            backup_catacomb_pair_with_transaction_and_metadata(user_id, manifest, true);
        let mut written = None;
        loop {
            step = match step {
                BackupStep::Size(pending) => {
                    self.commands.push(0x3d);
                    pending.answered(Ok(24))
                }
                BackupStep::Store(pending) => {
                    match pending.work {
                        StorageWork::WriteMetadata { metadata, .. } => {
                            written = Some(metadata.to_vec());
                        }
                        StorageWork::Promote { .. } => {
                            self.promoted = written.as_deref().map(decode_manifest);
                        }
                        _ => {}
                    }
                    pending.stored(Ok(()))
                }
                BackupStep::Export(pending) => {
                    self.commands.push(0x3e);
                    pending.exported(Ok(vec![7; 24]))
                }
                BackupStep::Finish(pending) => {
                    self.commands.push(0x3f);
                    pending.finished(Ok(()))
                }
                BackupStep::End(result) => return result.map_err(|_| SyntheticError),
            };
        }
    }

    fn run(&mut self) -> Result<StandardEnrollmentSuccess, Failure> {
        let mut step = run_reserved_standard_enrollment(
            USER,
            OWNER,
            self.finger,
            &CREDENTIAL,
            self.committed.clone(),
            self.has_active_pair,
        );
        loop {
            step = match step {
                StandardEnrollmentStep::RestoreUser(pending) => {
                    let restored = self.restore_user(pending.begin());
                    pending.restored(restored)
                }
                StandardEnrollmentStep::PrepareUser(pending) => {
                    assert_eq!(pending.subject().user_id, USER);
                    self.commands.extend([0x31, 0x28, 0x3c, 0x42]);
                    pending.prepared(Ok(identities(&self.live_before)))
                }
                StandardEnrollmentStep::ReadStates(pending) => {
                    self.commands.extend([0x28, 0x3c]);
                    pending.read(Ok(vec![CatacombStateEntry { user_id: USER, state: 3 }]))
                }
                StandardEnrollmentStep::Rebind(_) => panic!("the user is secure"),
                StandardEnrollmentStep::Reconcile(pending) => {
                    let outcome = Self::reconcile(
                        pending.committed_metadata(),
                        pending.owner(),
                        &pending.before(),
                    );
                    pending.reconciled(outcome)
                }
                StandardEnrollmentStep::EnableSystem(pending) => {
                    assert_eq!(pending.subject().credential, CREDENTIAL);
                    self.commands.push(0x43);
                    pending.enabled(Ok(()))
                }
                StandardEnrollmentStep::EnableUser(pending) => {
                    assert_eq!(pending.subject().user_id, USER);
                    assert_eq!(pending.subject().credential, CREDENTIAL);
                    self.commands.push(0x2e);
                    pending.enabled(Ok(()))
                }
                StandardEnrollmentStep::Present(pending) => {
                    self.started += 1;
                    pending.presented()
                }
                StandardEnrollmentStep::CheckDuplicate(pending) => {
                    self.checked += 1;
                    assert_eq!(pending.subject().user_id, USER);
                    assert_eq!(pending.identities(), identities(&self.live_before));
                    assert_eq!(
                        pending.encoded(),
                        encode_identities(&identities(&self.live_before))
                    );
                    pending.checked(self.duplicate)
                }
                StandardEnrollmentStep::Enroll(pending) => {
                    assert_eq!(pending.subject().user_id, USER);
                    assert_eq!(pending.subject().credential, CREDENTIAL);
                    self.commands.push(0x03);
                    let mut normalizer = StandardProgressNormalizer::default();
                    for raw in self.raw_progress.clone() {
                        if raw != 0 {
                            self.commands.push(0x0e);
                        }
                        if let Some(progress) = normalizer.normalize(raw) {
                            self.progress
                                .push((progress.completed_stage, progress.total_stages));
                        }
                    }
                    self.commands.push(0x42);
                    pending.ended(Ok(Some(NEW)))
                }
                StandardEnrollmentStep::CloseCancellation(pending) => pending.closed(true),
                StandardEnrollmentStep::Label(pending) => {
                    let mut manifest = pending.catalog().clone();
                    manifest.identities.push((pending.identity(), Some(pending.finger())));
                    pending.labeled(Ok(encode_manifest(&manifest)))
                }
                StandardEnrollmentStep::Persist(pending) => {
                    let outcome = self.persist(pending.subject().user_id, pending.metadata());
                    pending.persisted(outcome)
                }
                StandardEnrollmentStep::Verify(pending) => {
                    self.commands.push(0x42);
                    return pending.listed(Ok(identities(&self.live_after)), true);
                }
                StandardEnrollmentStep::Failed(error) => return Err(error),
            };
        }
    }

    fn succeeds(&mut self) -> StandardEnrollmentSuccess {
        match self.run() {
            Ok(success) => success,
            Err(error) => panic!("{}", error.message()),
        }
    }

    fn fails(&mut self) -> Failure {
        match self.run() {
            Err(error) => error,
            Ok(_) => panic!("the enrollment fails"),
        }
    }
}

#[test]
fn active_legacy_pair_is_policy_reasserted_restored_and_preserved_before_enrollment() {
    let mut fixture = Fixture::new(&[LEGACY], &[NEW, LEGACY], FingerLabel::RightMiddle);
    let StandardPreparationStep::<Manifest, (), (), ()>::Recover(pending) =
        prepare_standard_enrollment(USER, FDR_RECORD)
    else {
        panic!("recovery comes first")
    };
    let StandardPreparationStep::<Manifest, (), (), ()>::LoadActive(pending) =
        pending.resolved(Ok(CatacombRecoveryOutcome::Clean))
    else {
        panic!("the active pair is loaded")
    };
    let StandardPreparationStep::<Manifest, (), (), ()>::BeginTransaction(pending) = pending.loaded(Ok(None))
    else {
        panic!("the transaction begins")
    };
    let StandardPreparationStep::<Manifest, (), (), ()>::Calibrate(pending) = pending.begun(Ok(())) else {
        panic!("the sensor is calibrated")
    };
    assert_eq!(pending.record(), FDR_RECORD);
    fixture.commands.extend([0x22, 0x28, 0x28]);
    let prepared = match pending.calibrated::<(), (), ()>(Ok(())) {
        Ok(prepared) => prepared,
        Err(_) => panic!("the enrollment is prepared"),
    };
    fixture.has_active_pair = prepared.has_active_pair;
    fixture.committed = prepared.committed_metadata;
    assert!(fixture.has_active_pair);

    assert!(has_same_id(&fixture.succeeds().identity, &id(NEW)));
    assert_eq!(
        &fixture.commands[..18],
        [
            0x22, 0x28, 0x28, 0x2e, 0x2f, 0x2e, 0x42, 0x31, 0x28, 0x3c, 0x40, 0x28, 0x3c, 0x40,
            0x28, 0x3c, 0x42, 0x27,
        ]
    );
    let enrollment_start =
        fixture.commands.iter().position(|command| *command == 0x03).unwrap();
    assert!(enrollment_start > 17);
    assert_manifest(
        fixture.promoted.as_ref(),
        &[(id(LEGACY), None), (id(NEW), Some(FingerLabel::RightMiddle))],
    );
}

#[test]
fn missing_metadata_preserves_legacy_and_labels_only_the_new_identity_atomically() {
    let mut fixture = Fixture::new(&[LEGACY], &[LEGACY, NEW], FingerLabel::RightIndex);
    fixture.raw_progress = vec![0, 0x64, 0x65, 0x67, 0x68, 0xca, 0x163];

    assert!(has_same_id(&fixture.succeeds().identity, &id(NEW)));
    assert_eq!(fixture.started, 1);
    assert_eq!(fixture.progress, [(1, 100), (40, 100), (100, 100)]);
    assert_eq!(
        fixture.commands,
        [
            0x31, 0x28, 0x3c, 0x42, 0x28, 0x3c, 0x43, 0x2e, 0x03, 0x0e, 0x0e, 0x0e, 0x0e, 0x0e,
            0x0e, 0x42, 0x3d, 0x3e, 0x3f, 0x3d, 0x3e, 0x3f, 0x42,
        ]
    );
    assert_eq!(fixture.promoted.as_ref().unwrap().owner, OWNER);
    assert_manifest(
        fixture.promoted.as_ref(),
        &[(id(LEGACY), None), (id(NEW), Some(FingerLabel::RightIndex))],
    );
}

#[test]
fn matching_existing_finger_stops_before_enrollment_or_persistence() {
    let mut fixture = Fixture::new(&[LEGACY], &[], FingerLabel::RightLittle);
    fixture.duplicate = Ok(IdentityMatchOutcome::Matched(LEGACY));

    assert!(matches!(fixture.fails(), StandardEnrollmentError::DuplicateIdentity));
    assert_eq!(fixture.started, 1);
    assert_eq!(fixture.checked, 1);
    assert!(!fixture.commands.contains(&0x03));
    assert!(fixture.promoted.is_none());
}

#[test]
fn duplicate_check_cancel_and_error_stop_before_enrollment_or_persistence() {
    for fail_check in [false, true] {
        let mut fixture = Fixture::new(&[LEGACY], &[], FingerLabel::RightLittle);
        fixture.duplicate = if fail_check {
            Err(NoEnrolledIdentities)
        } else {
            Ok(IdentityMatchOutcome::Cancelled)
        };

        let error = fixture.fails();
        if fail_check {
            assert!(matches!(
                error,
                StandardEnrollmentError::DuplicateCheck(NoEnrolledIdentities)
            ));
        } else {
            assert!(matches!(error, StandardEnrollmentError::EnrollmentCancelled));
        }
        assert_eq!(fixture.started, 1);
        assert!(!fixture.commands.contains(&0x03));
        assert!(fixture.promoted.is_none());
    }
}

#[test]
fn three_existing_fingers_report_capacity_before_ui_match_or_mutation() {
    let mut fixture =
        Fixture::new(&[LEGACY, EXISTING_LABELED, COLLATERAL], &[], FingerLabel::RightLittle);

    assert!(matches!(
        fixture.fails(),
        StandardEnrollmentError::IdentityCapacityReached
    ));
    assert_eq!(fixture.started, 0);
    assert_eq!(fixture.checked, 0);
    assert_eq!(fixture.commands, [0x31, 0x28, 0x3c, 0x42, 0x28, 0x3c]);
    assert!(fixture.promoted.is_none());
}

#[test]
fn present_metadata_preserves_existing_entries_and_appends_only_the_new_label() {
    let mut fixture = Fixture::new(
        &[EXISTING_LABELED, LEGACY],
        &[EXISTING_LABELED, NEW, LEGACY],
        FingerLabel::RightLittle,
    );
    fixture.committed = Some(owned(vec![
        (id(LEGACY), None),
        (id(EXISTING_LABELED), Some(FingerLabel::LeftThumb)),
    ]));

    assert!(has_same_id(&fixture.succeeds().identity, &id(NEW)));
    assert_manifest(
        fixture.promoted.as_ref(),
        &[
            (id(LEGACY), None),
            (id(EXISTING_LABELED), Some(FingerLabel::LeftThumb)),
            (id(NEW), Some(FingerLabel::RightLittle)),
        ],
    );
}

#[test]
fn metadata_mismatch_stops_before_policy_enrollment_or_persistence() {
    let mut fixture = Fixture::new(&[LEGACY], &[], FingerLabel::RightIndex);
    fixture.committed = Some(owned(vec![(id(COLLATERAL), Some(FingerLabel::LeftThumb))]));

    assert!(matches!(
        fixture.fails(),
        StandardEnrollmentError::Catalog(IdentitySetMismatch)
    ));
    assert_eq!(fixture.commands, [0x31, 0x28, 0x3c, 0x42, 0x28, 0x3c]);
    assert!(fixture.promoted.is_none());
}

#[test]
fn another_owners_metadata_stops_before_policy_enrollment_or_persistence() {
    let mut fixture = Fixture::new(&[LEGACY], &[], FingerLabel::RightIndex);
    fixture.committed = Some(Manifest {
        owner: "synthetic-other".to_owned(),
        identities: vec![(id(LEGACY), None)],
    });

    assert!(matches!(
        fixture.fails(),
        StandardEnrollmentError::Catalog(IdentitySetMismatch)
    ));
    assert_eq!(fixture.commands, [0x31, 0x28, 0x3c, 0x42, 0x28, 0x3c]);
    assert!(fixture.promoted.is_none());
}

#[test]
fn every_finger_is_labeled_as_asked_for() {
    for finger in FINGERS {
        let mut fixture = Fixture::new(&[], &[NEW], finger);
        assert!(has_same_id(&fixture.succeeds().identity, &id(NEW)));
        assert_manifest(fixture.promoted.as_ref(), &[(id(NEW), Some(finger))]);
    }
}

#[test]
fn postcommit_verification_rejects_any_collateral_identity_change() {
    let mut fixture =
        Fixture::new(&[LEGACY], &[LEGACY, NEW, COLLATERAL], FingerLabel::RightIndex);

    assert!(matches!(
        fixture.fails(),
        StandardEnrollmentError::PostCommitIdentitySetChanged
    ));
    let manifest = fixture.promoted.as_ref().unwrap();
    assert_eq!(manifest.identities.len(), 2);
    assert!(manifest.identities.iter().all(|entry| !has_same_id(&entry.0, &id(COLLATERAL))));
}

#[test]
fn identity_sets_are_compared_without_order_or_repetition() {
    let ids = |identifiers: &[[u8; 16]]| identity_ids(&identities(identifiers));
    assert!(same_identity_set(&ids(&[]), &ids(&[])));
    assert!(same_identity_set(&ids(&[LEGACY, NEW]), &ids(&[NEW, LEGACY])));
    assert!(!same_identity_set(&ids(&[LEGACY, NEW]), &ids(&[LEGACY])));
    assert!(!same_identity_set(&ids(&[LEGACY, NEW]), &ids(&[LEGACY, COLLATERAL])));
    assert!(!same_identity_set(&ids(&[LEGACY, LEGACY]), &ids(&[LEGACY, LEGACY])));
}

#[test]
fn progress_is_scaled_to_stages_and_never_repeated() {
    let mut normalizer = StandardProgressNormalizer::default();
    assert!(normalizer.normalize(0x63).is_none());
    assert!(normalizer.normalize(0x64).is_none());
    assert!(normalizer.normalize(0x66).is_none());
    assert_eq!(normalizer.normalize(0x67).unwrap().completed_stage, 1);
    assert!(normalizer.normalize(0x68).is_none());
    assert_eq!(normalizer.normalize(0x162).unwrap().completed_stage, 99);
    assert_eq!(normalizer.normalize(0x163).unwrap().completed_stage, 100);
    assert!(normalizer.normalize(0x164).is_none());
    assert!(normalizer.normalize(u64::MAX).is_none());
}

#[test]
fn preparation_failures_stop_before_calibration() {
    let recover = || match prepare_standard_enrollment::<Manifest, (), (), ()>(USER, FDR_RECORD) {
        StandardPreparationStep::Recover(pending) => pending,
        _ => panic!("recovery comes first"),
    };
    assert!(matches!(
        recover().resolved::<Manifest, (), (), ()>(Ok(CatacombRecoveryOutcome::Quarantined)),
        StandardPreparationStep::Failed(StandardEnrollmentPreparationError::RecoveryBlocked)
    ));
    let load = || match recover().resolved::<Manifest, (), (), ()>(Ok(CatacombRecoveryOutcome::Promoted)) {
        StandardPreparationStep::LoadActive(pending) => pending,
        _ => panic!("the active pair is loaded"),
    };
    assert!(matches!(
        load().loaded::<Manifest, (), (), ()>(Err(CatacombStoreError::UnsafeStorage)),
        StandardPreparationStep::Failed(StandardEnrollmentPreparationError::Store(
            CatacombStoreError::UnsafeStorage
        ))
    ));
    assert!(matches!(
        load().loaded::<Manifest, (), (), ()>(Ok(Some(Err(())))),
        StandardPreparationStep::Failed(StandardEnrollmentPreparationError::Metadata(()))
    ));
    let StandardPreparationStep::<Manifest, (), (), ()>::BeginTransaction(pending) =
        load().loaded(Err(CatacombStoreError::MissingPair))
    else {
        panic!("a store without a pair is begun")
    };
    let StandardPreparationStep::<Manifest, (), (), ()>::Calibrate(pending) = pending.begun(Ok(())) else {
        panic!("the sensor is calibrated")
    };
    assert!(matches!(
        pending.calibrated::<(), (), ()>(Ok(())),
        Ok(PreparedStandardEnrollment { has_active_pair: false, committed_metadata: None })
    ));

    let StandardPreparationStep::<Manifest, (), (), ()>::BeginTransaction(pending) =
        load().loaded(Ok(Some(Ok(owned(vec![(id(LEGACY), None)])))))
    else {
        panic!("an active pair is begun")
    };
    let StandardPreparationStep::<Manifest, (), (), ()>::Calibrate(pending) =
        pending.begun(Ok(()))
    else {
        panic!("the sensor is calibrated")
    };
    let prepared = pending.calibrated::<(), (), ()>(Ok(())).ok().unwrap();
    assert!(prepared.has_active_pair);
    assert_manifest(prepared.committed_metadata.as_ref(), &[(id(LEGACY), None)]);
}
