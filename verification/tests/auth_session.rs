use t1_daemons::auth_feedback::{AuthenticationFeedback, FeedbackAction};
use t1_daemons::auth_protocol::{
    AccessPolicy, PeerAddressFamily, PeerMetadata, Purpose, Response,
};
use t1_daemons::auth_session::{
    observe_match_event, run_authentication_product, ActiveAuthentication,
    ActiveStandardOperation, AuthenticationCompletion, AuthenticationSessionFailure,
    BrokerSessionCoordinator, CancellableEvent, EventStep, ProductStep, SessionDecision,
    StandardSessionDecision,
};
use t1_daemons::biometric::MatchOutcome;
use t1_daemons::overlay::OverlayState;
use t1_daemons::standard_fingerprint_protocol::{
    EnrollProgress, FingerLabel, IdentityId, ListedIdentity, ServerMessage, TerminalOutcome,
};
use t1_daemons::standard_operation_authority::{
    ResolvedStandardAccount, ResolvedStandardOperation, StandardAuthority,
};

const AUTHENTICATE_REQUEST: &[u8; 8] = b"T1AUTH\x01\n";
const APPROVE_REQUEST: &[u8; 8] = b"T1APRV\x01\n";
const ENROLL_REQUEST: &[u8; 8] = b"T1ENRL\x01\n";
const CANCEL_REQUEST: &[u8; 8] = b"T1CNCL\x01\n";

const INTERACTIVE_USER: u32 = 42_000;

fn peer(user_id: u32) -> PeerMetadata {
    PeerMetadata {
        address_family: PeerAddressFamily::Local,
        user_id,
        group_id: 42_001,
    }
}

fn policy() -> AccessPolicy {
    AccessPolicy::new(INTERACTIVE_USER).unwrap()
}

fn start(coordinator: &mut BrokerSessionCoordinator, packet: &[u8]) -> ActiveAuthentication {
    let SessionDecision::Start(active) =
        coordinator.dispatch(peer(INTERACTIVE_USER), policy(), packet)
    else {
        panic!("synthetic request must start")
    };
    active
}

fn account() -> ResolvedStandardAccount {
    ResolvedStandardAccount {
        name: String::from("synthetic-owner"),
        user_id: INTERACTIVE_USER,
    }
}

fn identity(seed: u8) -> IdentityId {
    IdentityId { bytes: [seed; 16] }
}

fn completion_of(
    active: &ActiveAuthentication,
    result: Result<MatchOutcome, AuthenticationSessionFailure>,
) -> AuthenticationCompletion {
    active.completion_for_worker(result)
}

fn standard_start(
    coordinator: &mut BrokerSessionCoordinator,
    operation: ResolvedStandardOperation,
) -> ActiveStandardOperation {
    let StandardSessionDecision::Start(active) =
        coordinator.dispatch_standard(StandardAuthority::Granted, operation)
    else {
        panic!("synthetic standard request must start")
    };
    active
}

#[test]
fn standard_and_legacy_requests_share_token_and_cancellation_authority() {
    let mut coordinator = BrokerSessionCoordinator::new(1);
    let standard = standard_start(
        &mut coordinator,
        ResolvedStandardOperation::Identify { account: account() },
    );
    let worker = standard.clone_for_worker();
    assert!(matches!(
        coordinator.dispatch(peer(INTERACTIVE_USER), policy(), AUTHENTICATE_REQUEST),
        SessionDecision::Reply(Response::Busy)
    ));
    assert!(coordinator.cancel_standard(&standard));
    assert!(worker.is_cancelled(&coordinator));
    let completion =
        worker.completion_for_worker(ServerMessage::Terminal(TerminalOutcome::NoMatch));
    assert_eq!(
        coordinator.finish_standard(&standard, &completion),
        ServerMessage::Terminal(TerminalOutcome::Cancelled)
    );

    let legacy = start(&mut coordinator, AUTHENTICATE_REQUEST);
    assert!(matches!(
        coordinator.dispatch_standard(
            StandardAuthority::Granted,
            ResolvedStandardOperation::Identify { account: account() },
        ),
        StandardSessionDecision::Reply(ServerMessage::Terminal(TerminalOutcome::Busy))
    ));
    assert_eq!(coordinator.abandon(&legacy), Response::Failure);
}

#[test]
fn standard_cancel_disconnect_and_completion_require_the_exact_connection_handle() {
    let mut first = BrokerSessionCoordinator::new(2);
    let mut second = BrokerSessionCoordinator::new(3);
    let first_active = standard_start(
        &mut first,
        ResolvedStandardOperation::Verify {
            account: account(),
            identity: identity(0x11),
        },
    );
    let second_active = standard_start(
        &mut second,
        ResolvedStandardOperation::Verify {
            account: account(),
            identity: identity(0x11),
        },
    );
    let foreign = second_active.completion_for_worker(ServerMessage::Terminal(
        TerminalOutcome::Matched(identity(0x11)),
    ));

    assert!(!first.cancel_standard(&second_active));
    assert!(!first.standard_client_disconnected(&second_active));
    assert_eq!(
        first.finish_standard(&first_active, &foreign),
        ServerMessage::Terminal(TerminalOutcome::Error)
    );
    assert!(matches!(
        first.dispatch(peer(INTERACTIVE_USER), policy(), AUTHENTICATE_REQUEST),
        SessionDecision::Reply(Response::Busy)
    ));

    assert!(first.standard_client_disconnected(&first_active));
    let completion = first_active.completion_for_worker(ServerMessage::Terminal(
        TerminalOutcome::Matched(identity(0x11)),
    ));
    assert_eq!(
        first.finish_standard(&first_active, &completion),
        ServerMessage::Terminal(TerminalOutcome::Cancelled)
    );
    assert_eq!(
        second.abandon_standard(&second_active),
        ServerMessage::Terminal(TerminalOutcome::Error)
    );
}

#[test]
fn standard_mutation_cutoff_rejects_late_cancellation() {
    let mut coordinator = BrokerSessionCoordinator::new(4);
    let enrollment = standard_start(
        &mut coordinator,
        ResolvedStandardOperation::Enroll {
            account: account(),
            finger: FingerLabel::RightIndex,
        },
    );
    assert!(enrollment.close_cancellation(&mut coordinator));
    assert!(!coordinator.cancel_standard(&enrollment));
    let enrolled = identity(0x21);
    let completion = enrollment
        .completion_for_worker(ServerMessage::Terminal(TerminalOutcome::Enrolled(enrolled)));
    assert_eq!(
        coordinator.finish_standard(&enrollment, &completion),
        ServerMessage::Terminal(TerminalOutcome::Enrolled(enrolled))
    );
}

#[allow(dead_code)]
struct FeedbackError(&'static str);

struct FakeFeedback {
    calls: Vec<FeedbackAction>,
    fail: bool,
}

impl AuthenticationFeedback for FakeFeedback {
    type Error = FeedbackError;

    fn apply(&mut self, action: FeedbackAction) -> Result<(), Self::Error> {
        self.calls.push(action);
        if self.fail {
            Err(FeedbackError("private cosmetic marker"))
        } else {
            Ok(())
        }
    }
}

#[test]
fn denies_before_start_and_allows_only_one_active_operation() {
    let mut coordinator = BrokerSessionCoordinator::new(5);
    assert!(matches!(
        coordinator.dispatch(peer(INTERACTIVE_USER + 1), policy(), AUTHENTICATE_REQUEST),
        SessionDecision::Reply(Response::Denied)
    ));
    assert!(matches!(
        coordinator.dispatch(peer(INTERACTIVE_USER), policy(), b"malformed"),
        SessionDecision::Reply(Response::Denied)
    ));

    let active = start(&mut coordinator, AUTHENTICATE_REQUEST);
    assert_eq!(active.purpose(), Purpose::Authenticate);
    assert_eq!(active.initial_overlay_state(), OverlayState::Authenticate);
    assert!(matches!(
        coordinator.dispatch(peer(INTERACTIVE_USER), policy(), APPROVE_REQUEST),
        SessionDecision::Reply(Response::Busy)
    ));
    assert_eq!(coordinator.abandon(&active), Response::Failure);

    let approval = start(&mut coordinator, APPROVE_REQUEST);
    assert_eq!(approval.purpose(), Purpose::Approve);
    assert_eq!(approval.initial_overlay_state(), OverlayState::Approve);
    assert_eq!(coordinator.abandon(&approval), Response::Failure);

    let enrollment = start(&mut coordinator, ENROLL_REQUEST);
    assert_eq!(enrollment.purpose(), Purpose::Enrollment);
    assert_eq!(enrollment.initial_overlay_state(), OverlayState::Enrollment);
    assert_eq!(
        enrollment
            .enrollment_owner_candidate()
            .expect("recorded owner is the re-enrollment candidate")
            .user_id(),
        INTERACTIVE_USER
    );
    assert_eq!(coordinator.abandon(&enrollment), Response::Failure);
}

#[test]
fn missing_owner_enrollment_uses_the_same_busy_and_cancel_authority() {
    let mut coordinator = BrokerSessionCoordinator::new(6);
    let SessionDecision::Start(enrollment) =
        coordinator.enroll_without_owner(peer(INTERACTIVE_USER))
    else {
        panic!("validated missing-owner candidate starts enrollment")
    };
    assert_eq!(enrollment.purpose(), Purpose::Enrollment);
    assert_eq!(
        enrollment
            .enrollment_owner_candidate()
            .expect("candidate travels with active operation")
            .user_id(),
        INTERACTIVE_USER
    );
    assert!(matches!(
        coordinator.dispatch(peer(INTERACTIVE_USER), policy(), AUTHENTICATE_REQUEST),
        SessionDecision::Reply(Response::Busy)
    ));
    assert_eq!(coordinator.cancel_without_owner(peer(0)), Response::Okay);
    assert!(enrollment.is_cancelled(&coordinator));
    assert_eq!(coordinator.abandon(&enrollment), Response::Failure);
}

#[test]
fn cancellation_requires_authorized_token_associated_delivery() {
    let mut coordinator = BrokerSessionCoordinator::new(7);
    assert!(matches!(
        coordinator.dispatch(peer(0), policy(), CANCEL_REQUEST),
        SessionDecision::Reply(Response::Denied)
    ));

    let active = start(&mut coordinator, AUTHENTICATE_REQUEST);
    assert!(matches!(
        coordinator.dispatch(peer(INTERACTIVE_USER), policy(), CANCEL_REQUEST),
        SessionDecision::Reply(Response::Denied)
    ));
    assert!(!active.is_cancelled(&coordinator));

    active.clear_delivery(&mut coordinator);
    assert!(matches!(
        coordinator.dispatch(peer(0), policy(), CANCEL_REQUEST),
        SessionDecision::Reply(Response::Denied)
    ));
    assert!(!active.is_cancelled(&coordinator));
    assert_eq!(coordinator.abandon(&active), Response::Failure);
}

#[test]
fn mesa_completion_cutoff_distinguishes_preexisting_and_late_cancellation() {
    let mut coordinator = BrokerSessionCoordinator::new(8);
    let completed = start(&mut coordinator, ENROLL_REQUEST);
    assert!(completed.close_cancellation(&mut coordinator));
    assert!(matches!(
        coordinator.dispatch(peer(0), policy(), CANCEL_REQUEST),
        SessionDecision::Reply(Response::Denied)
    ));
    assert!(!completed.is_cancelled(&coordinator));
    assert_eq!(coordinator.abandon(&completed), Response::Failure);

    let cancelled = start(&mut coordinator, ENROLL_REQUEST);
    assert!(matches!(
        coordinator.dispatch(peer(0), policy(), CANCEL_REQUEST),
        SessionDecision::Reply(Response::Okay)
    ));
    assert!(!cancelled.close_cancellation(&mut coordinator));
    assert!(cancelled.is_cancelled(&coordinator));
    assert_eq!(coordinator.abandon(&cancelled), Response::Failure);
}

#[test]
fn delivered_cancellation_and_disconnect_beat_later_match() {
    let mut coordinator = BrokerSessionCoordinator::new(9);
    let cancelled = start(&mut coordinator, AUTHENTICATE_REQUEST);
    assert!(matches!(
        coordinator.dispatch(peer(0), policy(), CANCEL_REQUEST),
        SessionDecision::Reply(Response::Okay)
    ));
    assert!(cancelled.is_cancelled(&coordinator));
    let completion = completion_of(&cancelled, Ok(MatchOutcome::Matched));
    assert_eq!(coordinator.finish(&completion), Response::Failure);

    let disconnected = start(&mut coordinator, AUTHENTICATE_REQUEST);
    assert!(coordinator.client_disconnected(&disconnected));
    assert!(disconnected.is_cancelled(&coordinator));
    let completion = completion_of(&disconnected, Ok(MatchOutcome::Matched));
    assert_eq!(coordinator.finish(&completion), Response::Failure);
}

#[test]
fn stale_disconnect_and_completion_do_not_touch_newer_operation() {
    let mut coordinator = BrokerSessionCoordinator::new(10);
    let first = start(&mut coordinator, AUTHENTICATE_REQUEST);
    let first_completion = completion_of(&first, Ok(MatchOutcome::Matched));
    assert_eq!(coordinator.finish(&first_completion), Response::Okay);

    let second = start(&mut coordinator, AUTHENTICATE_REQUEST);
    assert!(!coordinator.client_disconnected(&first));
    assert!(!second.is_cancelled(&coordinator));
    let stale = completion_of(&first, Ok(MatchOutcome::Matched));
    let mut feedback = FakeFeedback {
        calls: Vec::new(),
        fail: false,
    };
    assert_eq!(
        coordinator.finish_with_feedback(&stale, Some(&mut feedback)),
        Response::Failure
    );
    assert!(feedback.calls.is_empty());
    assert!(!second.is_cancelled(&coordinator));
    let current = completion_of(&second, Ok(MatchOutcome::Matched));
    assert_eq!(coordinator.finish(&current), Response::Okay);
}

#[test]
fn connection_bound_finalization_rejects_another_sessions_completion() {
    let mut coordinator = BrokerSessionCoordinator::new(11);
    let first = start(&mut coordinator, AUTHENTICATE_REQUEST);
    let first_completion = completion_of(&first, Ok(MatchOutcome::Matched));
    assert_eq!(coordinator.finish(&first_completion), Response::Okay);

    let second = start(&mut coordinator, AUTHENTICATE_REQUEST);
    let second_completion = completion_of(&second, Ok(MatchOutcome::Matched));
    assert_eq!(
        coordinator.finish_for(&first, &second_completion),
        Response::Failure
    );
    assert!(!second.is_cancelled(&coordinator));
    assert_eq!(coordinator.finish(&second_completion), Response::Okay);
}

#[test]
fn connection_bound_finalization_rejects_equal_token_from_other_coordinator() {
    let mut first_coordinator = BrokerSessionCoordinator::new(12);
    let mut second_coordinator = BrokerSessionCoordinator::new(13);
    let first = start(&mut first_coordinator, AUTHENTICATE_REQUEST);
    let second = start(&mut second_coordinator, AUTHENTICATE_REQUEST);
    assert!(first.token() == second.token());
    let foreign_completion = completion_of(&second, Ok(MatchOutcome::Matched));

    assert!(!first_coordinator.client_disconnected(&second));
    assert_eq!(first_coordinator.abandon(&second), Response::Failure);
    assert_eq!(
        first_coordinator.finish(&foreign_completion),
        Response::Failure
    );
    assert_eq!(
        first_coordinator.finish_for(&second, &foreign_completion),
        Response::Failure
    );
    let own_completion = completion_of(&first, Ok(MatchOutcome::Matched));
    assert_eq!(
        first_coordinator.finish_for(&first, &own_completion),
        Response::Okay
    );
    assert_eq!(second_coordinator.abandon(&second), Response::Failure);
}

#[test]
fn exclusive_lease_failure_suppresses_feedback() {
    let mut coordinator = BrokerSessionCoordinator::new(14);
    let active = start(&mut coordinator, AUTHENTICATE_REQUEST);
    let mut feedback = FakeFeedback {
        calls: Vec::new(),
        fail: false,
    };
    let completion = completion_of(
        &active,
        Err(AuthenticationSessionFailure::ExclusiveSepAndAcm),
    );
    assert_eq!(
        completion.result(),
        Err(AuthenticationSessionFailure::ExclusiveSepAndAcm)
    );
    assert!(feedback.calls.is_empty());
    assert_eq!(
        coordinator.finish_with_feedback(&completion, Some(&mut feedback)),
        Response::Failure
    );
    assert!(feedback.calls.is_empty());
}

#[test]
fn cosmetic_failure_never_changes_success() {
    let mut coordinator = BrokerSessionCoordinator::new(15);
    let active = start(&mut coordinator, AUTHENTICATE_REQUEST);
    let mut feedback = FakeFeedback {
        calls: Vec::new(),
        fail: true,
    };
    let completion = completion_of(&active, Ok(MatchOutcome::Matched));
    assert_eq!(completion.result(), Ok(MatchOutcome::Matched));
    assert_eq!(
        coordinator.finish_with_feedback(&completion, Some(&mut feedback)),
        Response::Okay
    );
    assert_eq!(feedback.calls, [FeedbackAction::ShowSuccess]);
    assert!(matches!(
        coordinator.dispatch(peer(0), policy(), CANCEL_REQUEST),
        SessionDecision::Reply(Response::Denied)
    ));
}

#[test]
fn authoritative_no_match_emits_retry_only_after_finalization() {
    let mut coordinator = BrokerSessionCoordinator::new(16);
    let active = start(&mut coordinator, AUTHENTICATE_REQUEST);
    let completion = completion_of(&active, Ok(MatchOutcome::NoMatch));
    let mut feedback = FakeFeedback {
        calls: Vec::new(),
        fail: false,
    };

    assert_eq!(
        coordinator.finish_with_feedback(&completion, Some(&mut feedback)),
        Response::Failure
    );
    assert_eq!(
        feedback.calls,
        [FeedbackAction::ShowRetry, FeedbackAction::PauseAfterRetry]
    );
}

#[test]
fn cancellation_delivered_after_match_suppresses_success_feedback() {
    let mut coordinator = BrokerSessionCoordinator::new(17);
    let active = start(&mut coordinator, AUTHENTICATE_REQUEST);
    let mut feedback = FakeFeedback {
        calls: Vec::new(),
        fail: false,
    };
    let completion = completion_of(&active, Ok(MatchOutcome::Matched));
    assert_eq!(completion.result(), Ok(MatchOutcome::Matched));
    assert!(matches!(
        coordinator.dispatch(peer(0), policy(), CANCEL_REQUEST),
        SessionDecision::Reply(Response::Okay)
    ));
    assert!(feedback.calls.is_empty());
    assert_eq!(
        coordinator.finish_with_feedback(&completion, Some(&mut feedback)),
        Response::Failure
    );
    assert!(feedback.calls.is_empty());
}

#[test]
fn refused_standard_operations_are_answered_and_change_nothing() {
    let mut coordinator = BrokerSessionCoordinator::new(101);
    assert!(matches!(
        coordinator.dispatch_standard(
            StandardAuthority::Refused(ServerMessage::Terminal(TerminalOutcome::Error)),
            ResolvedStandardOperation::ListIdentities,
        ),
        StandardSessionDecision::Reply(ServerMessage::Terminal(TerminalOutcome::Error))
    ));
    let active = start(&mut coordinator, AUTHENTICATE_REQUEST);
    assert!(!active.is_cancelled(&coordinator));
    assert_eq!(coordinator.abandon(&active), Response::Failure);
}

#[test]
fn standard_completions_that_end_nothing_count_as_errors() {
    let mut coordinator = BrokerSessionCoordinator::new(102);
    let active = standard_start(&mut coordinator, ResolvedStandardOperation::ListIdentities);
    for message in [
        ServerMessage::Capabilities(100),
        ServerMessage::Opened,
        ServerMessage::EnrollProgress(EnrollProgress { completed_stage: 1, total_stages: 100 }),
    ] {
        assert_eq!(
            active.completion_for_worker(message).result(),
            &ServerMessage::Terminal(TerminalOutcome::Error)
        );
    }
    let listed = || ServerMessage::IdentityList {
        owner: Some(String::from("synthetic-owner")),
        identities: vec![ListedIdentity {
            id: identity(0x41),
            finger: Some(FingerLabel::LeftThumb),
        }],
    };
    let completion = active.completion_for_worker(listed());
    assert_eq!(coordinator.finish_standard(&active, &completion), listed());
}

/// Runs an operation whose sensor work gives `result`, and counts how often the
/// presentation is torn down.
fn run_product(
    active: &ActiveAuthentication,
    coordinator: &BrokerSessionCoordinator,
    result: Result<MatchOutcome, ()>,
    teardowns: &mut usize,
) -> Result<MatchOutcome, AuthenticationSessionFailure> {
    let mut ran = false;
    let mut step = run_authentication_product(active, coordinator, true, &[7; 16]);
    loop {
        step = match step {
            ProductStep::Run(pending) => {
                assert_eq!(pending.biometric_user_id(), active.biometric_user_id());
                assert_eq!(pending.credential(), [7; 16]);
                ran = true;
                pending.ended(result)
            }
            ProductStep::TearDown(pending) => {
                assert!(ran);
                *teardowns += 1;
                pending.torn_down(coordinator)
            }
            ProductStep::Complete(completion) => return completion.result(),
        };
    }
}

#[test]
fn product_work_is_bounded_by_user_credential_and_cancellation() {
    let mut coordinator = BrokerSessionCoordinator::new(103);
    let active = start(&mut coordinator, AUTHENTICATE_REQUEST);
    let failed = |step: ProductStep| match step {
        ProductStep::Complete(completion) => completion.result(),
        ProductStep::Run(_) | ProductStep::TearDown(_) => panic!("work must not run"),
    };
    assert_eq!(
        failed(run_authentication_product(&active, &coordinator, false, &[0; 16])),
        Err(AuthenticationSessionFailure::InvalidOperationUser)
    );
    assert_eq!(
        failed(run_authentication_product(&active, &coordinator, true, &[0; 15])),
        Err(AuthenticationSessionFailure::InvalidCredential)
    );
    assert!(coordinator.client_disconnected(&active));
    assert_eq!(
        failed(run_authentication_product(&active, &coordinator, true, &[0; 16])),
        Ok(MatchOutcome::Cancelled)
    );
}

#[test]
fn the_presentation_is_torn_down_once_after_every_sensor_work() {
    let mut coordinator = BrokerSessionCoordinator::new(104);
    let active = start(&mut coordinator, AUTHENTICATE_REQUEST);
    let mut teardowns = 0;
    assert_eq!(
        run_product(&active, &coordinator, Ok(MatchOutcome::NoMatch), &mut teardowns),
        Ok(MatchOutcome::NoMatch)
    );
    assert_eq!(teardowns, 1);
    assert_eq!(
        run_product(&active, &coordinator, Err(()), &mut teardowns),
        Err(AuthenticationSessionFailure::Operation)
    );
    assert_eq!(teardowns, 2);

    assert!(coordinator.client_disconnected(&active));
    assert_eq!(
        run_product(&active, &coordinator, Ok(MatchOutcome::Matched), &mut teardowns),
        Ok(MatchOutcome::Cancelled)
    );
    assert_eq!(teardowns, 2);
}

#[test]
fn cancellation_during_the_work_replaces_outcomes_but_no_failure() {
    for (result, expected) in [
        (Ok(MatchOutcome::Matched), Ok(MatchOutcome::Cancelled)),
        (Err(()), Err(AuthenticationSessionFailure::Operation)),
    ] {
        let mut coordinator = BrokerSessionCoordinator::new(105);
        let active = start(&mut coordinator, AUTHENTICATE_REQUEST);
        let step = run_authentication_product(&active, &coordinator, true, &[7; 16]);
        let ProductStep::Run(pending) = step else {
            panic!("the work runs")
        };
        assert!(coordinator.client_disconnected(&active));
        let ProductStep::TearDown(pending) = pending.ended(result) else {
            panic!("the presentation is torn down")
        };
        let ProductStep::Complete(completion) = pending.torn_down(&coordinator) else {
            panic!("the operation completes")
        };
        assert_eq!(completion.result(), expected);
    }
}

#[test]
fn cancellation_takes_the_place_of_later_events() {
    let mut coordinator = BrokerSessionCoordinator::new(106);
    let active = start(&mut coordinator, AUTHENTICATE_REQUEST);
    let pending = || match observe_match_event(&active, &coordinator) {
        EventStep::Read(pending) => pending,
        EventStep::Cancelled => panic!("nothing was cancelled"),
    };
    assert_eq!(pending().read(&coordinator, Ok::<_, ()>(7)), Ok(CancellableEvent::Event(7)));
    assert_eq!(pending().read::<u8, _>(&coordinator, Err("failed")), Err("failed"));
    let (first, second) = (pending(), pending());

    assert!(coordinator.client_disconnected(&active));
    assert_eq!(first.read(&coordinator, Ok::<_, ()>(7)), Ok(CancellableEvent::Cancelled));
    assert_eq!(second.read::<u8, _>(&coordinator, Err("failed")), Err("failed"));
    assert!(matches!(observe_match_event(&active, &coordinator), EventStep::Cancelled));
}

#[test]
fn session_failure_messages_are_exact() {
    for (failure, message) in [
        (AuthenticationSessionFailure::InvalidOperationUser, "broker operation user is invalid"),
        (AuthenticationSessionFailure::RelayInactive, "keybag relay is inactive"),
        (AuthenticationSessionFailure::RelayHealth, "keybag relay health check failed"),
        (AuthenticationSessionFailure::RelayStop, "keybag relay stop failed"),
        (AuthenticationSessionFailure::ExclusiveSepAndAcm, "exclusive SEP or ACM lease failed"),
        (AuthenticationSessionFailure::RelayRecovery, "keybag relay recovery failed"),
        (
            AuthenticationSessionFailure::InvalidCredential,
            "ACM lease returned an invalid credential",
        ),
        (AuthenticationSessionFailure::Operation, "authentication operation failed"),
    ] {
        assert_eq!(failure.message(), message);
    }
}
