use t1_daemons::auth_operation::{
    authenticate_user, authenticate_user_after_calibration, encode_identities,
    identify_user_after_calibration, legacy_outcome, require_credential,
    restore_user_after_calibration, restore_user_for_enrollment_after_calibration,
    AuthenticationOperationError, CredentialFault, MatchStep, PendingRestore, PreparationStep,
    PreparedAuthenticationUser,
};
use t1_daemons::biometric::{
    CatacombStateEntry, Identity, IdentityMatchOutcome, MatchOutcome,
    ACM_CONTEXT_EXTERNAL_FORM_SIZE,
};
use t1_daemons::catacomb_restore::{EmptyCommand, RestoreStep, RestoredCatacomb};
use t1_daemons::catacomb_store::{CatacombPair, CatacombStoreError};

const USER: i32 = 501;
const IDENTIFIER: [u8; 16] = [
    0x10, 0x21, 0x32, 0x43, 0x54, 0x65, 0x76, 0x87, 0x98, 0xa9, 0xba, 0xcb, 0xdc, 0xed, 0xfe, 0x0f,
];
const FDR_RECORD: &[u8] = b"synthetic calibration record";
const MASTER_BLOB: &[u8] = b"synthetic master";
const USER_BLOB: &[u8] = b"synthetic user";
const CREDENTIAL: [u8; ACM_CONTEXT_EXTERNAL_FORM_SIZE] = [0x5a; 16];

#[derive(Debug, Eq, PartialEq)]
struct CalibrationFailure;

#[derive(Debug, Eq, PartialEq)]
struct PolicyFailure;

#[derive(Debug, Eq, PartialEq)]
struct RestoreFailure;

#[derive(Debug, Eq, PartialEq)]
struct UserFailure;

#[derive(Debug, Eq, PartialEq)]
struct MatchFailure;

type Error = AuthenticationOperationError<
    CalibrationFailure,
    PolicyFailure,
    RestoreFailure,
    UserFailure,
    MatchFailure,
>;
type Preparation<'a> = PreparationStep<
    'a,
    CalibrationFailure,
    PolicyFailure,
    RestoreFailure,
    UserFailure,
    MatchFailure,
>;

/// A device whose answers are fixed, and the commands that it was sent.
struct FakeDevice {
    calibrates: bool,
    store: Result<(), CatacombStoreError>,
    policy_holds: bool,
    identities_are_live: bool,
    identities_after_restore: Vec<Identity>,
    matches: IdentityMatchOutcome,
    match_ends: bool,
    commands: Vec<u16>,
    policies: Vec<(u32, Vec<u8>)>,
    loaded: Vec<Vec<u8>>,
    events: usize,
}

impl FakeDevice {
    fn new() -> Self {
        Self {
            calibrates: true,
            store: Ok(()),
            policy_holds: true,
            identities_are_live: false,
            identities_after_restore: vec![identity(IDENTIFIER)],
            matches: IdentityMatchOutcome::Matched(IDENTIFIER),
            match_ends: true,
            commands: Vec::new(),
            policies: Vec::new(),
            loaded: Vec::new(),
            events: 0,
        }
    }

    fn calibrate(&mut self, record: &[u8]) -> Result<(), CalibrationFailure> {
        assert_eq!(record, FDR_RECORD);
        self.commands.push(0x22);
        if !self.calibrates {
            return Err(CalibrationFailure);
        }
        self.commands.extend([0x28, 0x28]);
        Ok(())
    }

    fn reassert_policy(&mut self, user_id: u32, credential: &[u8]) -> Result<(), PolicyFailure> {
        self.policies.push((user_id, credential.to_vec()));
        self.commands.push(0x2e);
        if !self.policy_holds {
            return Err(PolicyFailure);
        }
        self.commands.extend([0x2f, 0x2e]);
        Ok(())
    }

    fn restore(
        &mut self,
        pending: &PendingRestore,
    ) -> Result<RestoredCatacomb, RestoreFailure> {
        let pair = CatacombPair::new(MASTER_BLOB.to_vec(), USER_BLOB.to_vec(), None);
        let mut step: RestoreStep<(), (), ()> = pending.begin(Ok(&pair));
        let mut loaded = false;
        loop {
            step = match step {
                RestoreStep::Identities(pending) => {
                    self.commands.push(0x42);
                    pending.read(Ok(if pending.restored {
                        self.identities_after_restore.clone()
                    } else if self.identities_are_live {
                        vec![identity(IDENTIFIER)]
                    } else {
                        Vec::new()
                    }))
                }
                RestoreStep::Command(pending) => {
                    self.loaded.extend(pending.payload().map(<[u8]>::to_vec));
                    self.commands.push(match pending.command {
                        EmptyCommand::SelectMaster => 0x31,
                        EmptyCommand::LoadMaster => 0x40,
                        EmptyCommand::LoadUser => {
                            loaded = true;
                            0x40
                        }
                    });
                    pending.acknowledged(Ok(()))
                }
                RestoreStep::DaemonInfo(pending) => {
                    self.commands.push(0x28);
                    pending.read(Ok(2))
                }
                RestoreStep::States(pending) => {
                    self.commands.push(0x3c);
                    let mut states = vec![CatacombStateEntry { user_id: u32::MAX, state: 1 }];
                    if loaded {
                        states.push(CatacombStateEntry { user_id: USER as u32, state: 3 });
                    }
                    pending.read(Ok(states))
                }
                RestoreStep::LockState(pending) => {
                    self.commands.push(0x27);
                    pending.read(Ok(0))
                }
                RestoreStep::End(result) => return result.map_err(|_| RestoreFailure),
            };
        }
    }

    fn prepare_user(&mut self, user_id: u32) -> Result<Vec<Identity>, UserFailure> {
        assert_eq!(user_id, USER as u32);
        self.commands.extend([0x31, 0x28, 0x3c, 0x42]);
        Ok(vec![identity(IDENTIFIER)])
    }

    fn prepare(&mut self, mut step: Preparation) -> Result<PreparedAuthenticationUser, Error> {
        loop {
            step = match step {
                PreparationStep::LoadStore(pending) => pending.loaded(self.store),
                PreparationStep::ReassertPolicy(pending) => {
                    let outcome = self.reassert_policy(pending.user_id(), pending.credential());
                    pending.reasserted(outcome)
                }
                PreparationStep::Restore(pending) => {
                    let outcome = self.restore(&pending);
                    pending.restored(outcome)
                }
                PreparationStep::PrepareUser(pending) => {
                    let outcome = self.prepare_user(pending.user_id());
                    pending.prepared(outcome)
                }
                PreparationStep::End(result) => return result,
            };
        }
    }

    fn identify(
        &mut self,
        prepared: Result<PreparedAuthenticationUser, Error>,
        before_match: &mut dyn FnMut(&Self),
        after_match: &mut dyn FnMut(&Self, IdentityMatchOutcome),
    ) -> Result<IdentityMatchOutcome, Error> {
        let mut step = identify_user_after_calibration(prepared);
        loop {
            step = match step {
                MatchStep::Present(pending) => {
                    before_match(self);
                    pending.presented()
                }
                MatchStep::Match(pending) => {
                    assert_eq!(pending.user_id(), USER as u32);
                    let encoded = pending.encoded();
                    assert_eq!(encoded[..4], USER.to_le_bytes());
                    assert_eq!(encoded[4..], IDENTIFIER);
                    self.commands.push(0x04);
                    self.events += 1;
                    if !self.match_ends {
                        pending.matched(Err(MatchFailure))
                    } else {
                        self.commands.push(0x0c);
                        pending.matched(Ok(self.matches))
                    }
                }
                MatchStep::Show(pending) => {
                    after_match(self, pending.outcome());
                    pending.shown()
                }
                MatchStep::End(result) => return result,
            };
        }
    }

    fn authenticate(
        &mut self,
        durable: bool,
        credential: Option<&[u8]>,
    ) -> Result<MatchOutcome, Error> {
        let pending = authenticate_user(FDR_RECORD, USER as u32, durable, credential);
        let calibrated = self.calibrate(pending.record());
        let prepared = self.prepare(pending.calibrated(calibrated));
        let identified = self.identify(prepared, &mut |_| {}, &mut |_, _| {});
        authenticate_user_after_calibration(identified)
    }
}

fn identity(identifier: [u8; 16]) -> Identity {
    Identity { user_id: USER, identifier }
}

#[test]
fn durable_authentication_uses_exact_order_and_restored_identity() {
    let mut device = FakeDevice::new();

    assert!(matches!(
        device.authenticate(true, Some(&CREDENTIAL)),
        Ok(MatchOutcome::Matched)
    ));
    assert_eq!(device.events, 1);
    assert_eq!(
        device.commands,
        [
            0x22, 0x28, 0x28, 0x2e, 0x2f, 0x2e, 0x42, 0x31, 0x28, 0x3c, 0x40, 0x28, 0x3c, 0x40,
            0x28, 0x3c, 0x42, 0x27, 0x04, 0x0c,
        ]
    );
    assert_eq!(device.commands.iter().filter(|code| **code == 0x31).count(), 1);
    assert_eq!(device.policies, [(USER as u32, CREDENTIAL.to_vec())]);
    assert_eq!(device.loaded, [MASTER_BLOB, USER_BLOB]);
}

#[test]
fn durable_preparation_reports_a_restore_before_any_match_command() {
    let mut device = FakeDevice::new();

    let prepared =
        match device.prepare(restore_user_after_calibration(USER as u32, true, Some(CREDENTIAL.as_slice()))) {
            Ok(prepared) => prepared,
            Err(_) => panic!("the user is prepared"),
        };

    assert!(prepared.restored_in_this_lease());
    assert_eq!(prepared.identities().len(), 1);
    assert!(!device.commands.contains(&0x04));
    assert_eq!(
        device.commands,
        [
            0x2e, 0x2f, 0x2e, 0x42, 0x31, 0x28, 0x3c, 0x40, 0x28, 0x3c, 0x40, 0x28, 0x3c, 0x42,
            0x27,
        ]
    );
}

#[test]
fn match_presentation_hooks_bracket_start_callback_and_terminal_cancel() {
    let mut device = FakeDevice::new();
    let mut published_at = None;
    let mut feedback_at = None;

    let prepared =
        device.prepare(restore_user_after_calibration(USER as u32, true, Some(CREDENTIAL.as_slice())));
    let identified = device.identify(
        prepared,
        &mut |device| published_at = Some(device.commands.len()),
        &mut |device, outcome| {
            assert_eq!(legacy_outcome(outcome), MatchOutcome::Matched);
            feedback_at = Some(device.commands.len());
        },
    );
    assert!(matches!(
        authenticate_user_after_calibration(identified),
        Ok(MatchOutcome::Matched)
    ));

    assert_eq!(published_at, Some(15));
    assert_eq!(device.commands[15], 0x04);
    assert_eq!(device.commands[16], 0x0c);
    assert_eq!(feedback_at, Some(17));
}

#[test]
fn identity_bearing_authentication_preserves_the_matched_identifier() {
    let mut device = FakeDevice::new();
    let mut observed = None;

    let prepared =
        device.prepare(restore_user_after_calibration(USER as u32, true, Some(CREDENTIAL.as_slice())));
    let outcome = match device.identify(prepared, &mut |_| {}, &mut |_, outcome| {
        observed = Some(outcome);
    }) {
        Ok(outcome) => outcome,
        Err(_) => panic!("the finger matches"),
    };

    assert_eq!(outcome, IdentityMatchOutcome::Matched(IDENTIFIER));
    assert_eq!(observed, Some(outcome));
    assert_eq!(device.commands[15..], [0x04, 0x0c]);
}

#[test]
fn durable_authentication_uses_proven_live_identity_fast_path() {
    let mut device = FakeDevice::new();
    device.identities_are_live = true;

    assert!(matches!(
        device.authenticate(true, Some(&CREDENTIAL)),
        Ok(MatchOutcome::Matched)
    ));
    assert_eq!(
        device.commands,
        [0x22, 0x28, 0x28, 0x2e, 0x2f, 0x2e, 0x42, 0x04, 0x0c]
    );
}

#[test]
fn live_authentication_preserves_all_typed_match_outcomes() {
    for (event, expected) in [
        (IdentityMatchOutcome::Matched(IDENTIFIER), MatchOutcome::Matched),
        (IdentityMatchOutcome::NoMatch, MatchOutcome::NoMatch),
        (IdentityMatchOutcome::Cancelled, MatchOutcome::Cancelled),
        (IdentityMatchOutcome::TimedOut, MatchOutcome::TimedOut),
    ] {
        let mut device = FakeDevice::new();
        device.matches = event;

        assert!(matches!(
            device.authenticate(false, None),
            Ok(outcome) if outcome == expected
        ));
        assert_eq!(
            device.commands,
            [0x22, 0x28, 0x28, 0x31, 0x28, 0x3c, 0x42, 0x04, 0x0c]
        );
    }
}

#[test]
fn durable_restore_requires_a_valid_credential_before_policy_or_store() {
    for credential in [None, Some(&[0_u8; 15][..])] {
        let mut device = FakeDevice::new();

        let result = device.authenticate(true, credential);

        assert!(matches!(
            result,
            Err(AuthenticationOperationError::MissingCredential
                | AuthenticationOperationError::Credential { actual: 15 })
        ));
        assert_eq!(device.commands, [0x22, 0x28, 0x28]);
        assert_eq!(device.events, 0);
    }
}

#[test]
fn bad_calibration_and_store_stop_before_later_mutation() {
    let mut device = FakeDevice::new();
    device.calibrates = false;
    device.store = Err(CatacombStoreError::MissingPair);
    assert!(matches!(
        device.authenticate(true, Some(&CREDENTIAL)),
        Err(AuthenticationOperationError::Calibration(CalibrationFailure))
    ));
    assert_eq!(device.commands, [0x22]);

    let mut device = FakeDevice::new();
    device.store = Err(CatacombStoreError::MissingPair);
    assert!(matches!(
        device.authenticate(true, Some(&CREDENTIAL)),
        Err(AuthenticationOperationError::Store(CatacombStoreError::MissingPair))
    ));
    assert_eq!(device.commands, [0x22, 0x28, 0x28]);
    assert_eq!(device.events, 0);
}

#[test]
fn policy_failure_stops_before_restore_and_match() {
    let mut device = FakeDevice::new();
    device.policy_holds = false;

    assert!(matches!(
        device.authenticate(true, Some(&CREDENTIAL)),
        Err(AuthenticationOperationError::Policy(PolicyFailure))
    ));
    assert_eq!(device.commands, [0x22, 0x28, 0x28, 0x2e]);
    assert_eq!(device.events, 0);
}

#[test]
fn a_failed_match_is_presented_but_shows_no_outcome() {
    let mut device = FakeDevice::new();
    device.match_ends = false;
    let mut published = 0;
    let mut shown = 0;

    let prepared = device.prepare(restore_user_after_calibration(USER as u32, false, None));
    let result = device.identify(prepared, &mut |_| published += 1, &mut |_, _| shown += 1);
    assert!(matches!(result, Err(AuthenticationOperationError::Match(MatchFailure))));
    assert_eq!((published, shown), (1, 0));

    device.policy_holds = false;
    let prepared =
        device.prepare(restore_user_after_calibration(USER as u32, true, Some(&CREDENTIAL)));
    let result = device.identify(prepared, &mut |_| published += 1, &mut |_, _| shown += 1);
    assert!(matches!(result, Err(AuthenticationOperationError::Policy(PolicyFailure))));
    assert_eq!((published, shown), (1, 0));
}

#[test]
fn preparation_for_an_enrollment_accepts_an_empty_catalog() {
    for for_enrollment in [false, true] {
        let mut device = FakeDevice::new();
        device.identities_after_restore = Vec::new();
        let step = if for_enrollment {
            restore_user_for_enrollment_after_calibration(USER as u32, true, Some(&CREDENTIAL))
        } else {
            restore_user_after_calibration(USER as u32, true, Some(&CREDENTIAL))
        };
        match device.prepare(step) {
            Ok(prepared) => {
                assert!(for_enrollment);
                assert!(prepared.identities().is_empty());
            }
            Err(error) => {
                assert!(!for_enrollment);
                assert!(matches!(error, AuthenticationOperationError::Restore(RestoreFailure)));
            }
        }
        assert_eq!(device.policies, [(USER as u32, CREDENTIAL.to_vec())]);
    }
}

#[test]
fn credentials_are_judged_by_their_length() {
    assert_eq!(require_credential(None), Err(CredentialFault::Missing));
    assert_eq!(
        require_credential(Some(&[0; 17])),
        Err(CredentialFault::InvalidLength { actual: 17 })
    );
    assert_eq!(require_credential(Some(&CREDENTIAL)), Ok(()));
}

#[test]
fn identities_are_encoded_one_after_the_other() {
    let encoded = encode_identities(&[
        Identity { user_id: 501, identifier: [1; 16] },
        Identity { user_id: -2, identifier: [2; 16] },
    ]);
    let mut expected = vec![0xf5, 1, 0, 0];
    expected.extend([1; 16]);
    expected.extend([0xfe, 0xff, 0xff, 0xff]);
    expected.extend([2; 16]);
    assert_eq!(encoded, expected);
}

#[test]
fn operation_messages_are_exact() {
    let error: Error = AuthenticationOperationError::MissingCredential;
    assert_eq!(
        error.message(),
        Some("durable authentication requires an ACM credential")
    );
    let error: Error = AuthenticationOperationError::Store(CatacombStoreError::MissingPair);
    assert_eq!(error.message(), Some("no active catacomb pair exists"));
    let error: Error = AuthenticationOperationError::Match(MatchFailure);
    assert_eq!(error.message(), None);
}
