use t1_daemons::auth_feedback::{AuthenticationFeedback, FeedbackAction};
use t1_daemons::auth_protocol::{
    AccessPolicy, PeerAddressFamily, PeerMetadata, Purpose, Response,
};
use t1_daemons::auth_scheduler::{
    enrollment_operation_timeout, operation_timeout, BrokerScheduler, BrokerServiceScheduler,
    LifecycleDecision, ScheduledDispatch, ScheduledStandardDispatch, ScheduledStandardOperation,
    SchedulerError, WorkerAdmission, WorkerLease,
};
use t1_daemons::auth_session::{ActiveAuthentication, AuthenticationCompletion};
use t1_daemons::biometric::MatchOutcome;
use t1_daemons::standard_fingerprint_protocol::{
    FingerLabel, IdentityId, ServerMessage, TerminalOutcome,
};
use t1_daemons::standard_operation_authority::{
    ResolvedStandardAccount, ResolvedStandardOperation, StandardAuthority,
};
use t1_daemons::time::Duration;

const AUTHENTICATE_REQUEST: &[u8; 8] = b"T1AUTH\x01\n";
const APPROVE_REQUEST: &[u8; 8] = b"T1APRV\x01\n";
const ENROLL_REQUEST: &[u8; 8] = b"T1ENRL\x01\n";
const CANCEL_REQUEST: &[u8; 8] = b"T1CNCL\x01\n";

fn matched(active: &ActiveAuthentication) -> AuthenticationCompletion {
    active.completion_for_worker(Ok(MatchOutcome::Matched))
}

#[derive(Clone, Copy, Debug, Eq, PartialEq)]
struct CosmeticError;

#[derive(Default)]
struct FakeFeedback {
    actions: Vec<FeedbackAction>,
    fail_first: bool,
}

impl AuthenticationFeedback for FakeFeedback {
    type Error = CosmeticError;

    fn apply(&mut self, action: FeedbackAction) -> Result<(), Self::Error> {
        self.actions.push(action);
        if self.fail_first && self.actions.len() == 1 {
            Err(CosmeticError)
        } else {
            Ok(())
        }
    }
}

fn scheduler(now: Duration) -> BrokerScheduler {
    match BrokerScheduler::new(now, idle_timeout()) {
        Ok(scheduler) => scheduler,
        Err(_) => panic!("valid scheduler policy"),
    }
}

fn policy() -> AccessPolicy {
    AccessPolicy::new(42_000).expect("synthetic owner policy")
}

fn peer(user_id: u32) -> PeerMetadata {
    PeerMetadata {
        address_family: PeerAddressFamily::Local,
        user_id,
        group_id: 42_001,
    }
}

fn start(scheduler: &mut BrokerScheduler, now: Duration) -> (WorkerLease, Duration) {
    let WorkerAdmission::Start { lease, deadline } = scheduler.admit_worker(now) else {
        panic!("one worker starts")
    };
    (lease, deadline)
}

fn standard_account() -> ResolvedStandardAccount {
    ResolvedStandardAccount { name: String::from("synthetic-owner"), user_id: 42_000 }
}

fn identity(seed: u8) -> IdentityId {
    IdentityId { bytes: [seed; 16] }
}

fn idle_timeout() -> Duration {
    Duration::from_secs(30)
}

fn plus(a: Duration, b: Duration) -> Duration {
    a.checked_add(b).unwrap()
}

fn ready(service: Result<BrokerServiceScheduler, SchedulerError>) -> BrokerServiceScheduler {
    match service {
        Ok(service) => service,
        Err(_) => panic!("valid service policy"),
    }
}

/// The lease after the first one of a scheduler.
fn second_lease(now: Duration) -> WorkerLease {
    let mut other = scheduler(now);
    let (first, _) = start(&mut other, now);
    assert!(other.complete(first, now));
    start(&mut other, now).0
}

fn standard_start(
    service: &mut BrokerServiceScheduler,
    operation: ResolvedStandardOperation,
    now: Duration,
) -> ScheduledStandardOperation {
    let ScheduledStandardDispatch::Start(active) =
        service.dispatch_standard(StandardAuthority::Granted, operation, now)
    else {
        panic!("standard operation starts")
    };
    active
}

#[test]
fn standard_operation_classes_receive_their_exact_outer_deadlines() {
    let now = Duration::from_secs(10);
    let mut service =
        ready(BrokerServiceScheduler::new(1, now, idle_timeout()));
    for (operation, timeout) in [
        (ResolvedStandardOperation::ListIdentities, operation_timeout()),
        (
            ResolvedStandardOperation::Verify {
                account: standard_account(),
                identity: identity(0x31),
            },
            operation_timeout(),
        ),
        (
            ResolvedStandardOperation::Identify {
                account: standard_account(),
            },
            operation_timeout(),
        ),
        (
            ResolvedStandardOperation::Enroll {
                account: standard_account(),
                finger: FingerLabel::LeftIndex,
            },
            enrollment_operation_timeout(),
        ),
        (
            ResolvedStandardOperation::DeleteIdentity {
                account: standard_account(),
                identity: identity(0x32),
            },
            enrollment_operation_timeout(),
        ),
    ] {
        let scheduled = standard_start(&mut service, operation, now);
        assert_eq!(scheduled.deadline(), plus(now, timeout));
        assert_eq!(
            service.abandon_standard(&scheduled, now),
            ServerMessage::Terminal(TerminalOutcome::Error)
        );
    }
}

#[test]
fn legacy_and_standard_work_are_immediately_busy_in_both_directions() {
    let now = Duration::from_secs(10);
    let mut service =
        ready(BrokerServiceScheduler::new(2, now, idle_timeout()));
    let standard = standard_start(
        &mut service,
        ResolvedStandardOperation::Identify {
            account: standard_account(),
        },
        now,
    );
    assert!(matches!(
        service.dispatch(peer(42_000), policy(), AUTHENTICATE_REQUEST, now),
        ScheduledDispatch::Reply(Response::Busy)
    ));
    assert_eq!(
        service.abandon_standard(&standard, now),
        ServerMessage::Terminal(TerminalOutcome::Error)
    );

    let ScheduledDispatch::Start(legacy) =
        service.dispatch(peer(42_000), policy(), AUTHENTICATE_REQUEST, now)
    else {
        panic!("legacy operation starts")
    };
    assert!(matches!(
        service.dispatch_standard(
            StandardAuthority::Granted,
            ResolvedStandardOperation::Identify {
                account: standard_account(),
            },
            now,
        ),
        ScheduledStandardDispatch::Reply(ServerMessage::Terminal(TerminalOutcome::Busy))
    ));
    assert_eq!(service.abandon(&legacy, now), Response::Failure);
}

#[test]
fn standard_scheduling_rejects_foreign_handles_and_completions() {
    let now = Duration::from_secs(10);
    let mut first =
        ready(BrokerServiceScheduler::new(3, now, idle_timeout()));
    let mut second =
        ready(BrokerServiceScheduler::new(4, now, idle_timeout()));
    let first_active = standard_start(
        &mut first,
        ResolvedStandardOperation::Identify {
            account: standard_account(),
        },
        now,
    );
    let second_active = standard_start(
        &mut second,
        ResolvedStandardOperation::Identify {
            account: standard_account(),
        },
        now,
    );
    assert!(first_active.lease() == second_active.lease());
    let foreign = second_active
        .operation()
        .completion_for_worker(ServerMessage::Terminal(TerminalOutcome::NoMatch));

    assert!(!first.cancel_standard(&second_active));
    assert!(!first.standard_client_disconnected(&second_active));
    assert_eq!(
        first.finish_standard(&first_active, &foreign, now),
        ServerMessage::Terminal(TerminalOutcome::Error)
    );
    assert!(matches!(
        first.dispatch(peer(42_000), policy(), AUTHENTICATE_REQUEST, now),
        ScheduledDispatch::Reply(Response::Busy)
    ));

    assert!(first.cancel_standard(&first_active));
    let exact = first_active
        .operation()
        .completion_for_worker(ServerMessage::Terminal(TerminalOutcome::NoMatch));
    assert_eq!(
        first.finish_standard(&first_active, &exact, now),
        ServerMessage::Terminal(TerminalOutcome::Cancelled)
    );
    assert_eq!(
        second.abandon_standard(&second_active, now),
        ServerMessage::Terminal(TerminalOutcome::Error)
    );
}

#[test]
fn standard_deadline_cancellation_is_exact_and_keeps_the_worker_busy() {
    let now = Duration::from_secs(10);
    let mut first =
        ready(BrokerServiceScheduler::new(5, now, idle_timeout()));
    let mut second =
        ready(BrokerServiceScheduler::new(6, now, idle_timeout()));
    let first_active = standard_start(
        &mut first,
        ResolvedStandardOperation::Identify {
            account: standard_account(),
        },
        now,
    );
    let second_active = standard_start(
        &mut second,
        ResolvedStandardOperation::Identify {
            account: standard_account(),
        },
        now,
    );

    assert!(!first.standard_deadline_expired(&second_active));
    assert!(!first_active.operation().is_cancelled(first.coordinator()));
    assert!(first.standard_deadline_expired(&first_active));
    assert!(first.standard_deadline_expired(&first_active));
    assert!(first_active.operation().is_cancelled(first.coordinator()));
    assert!(matches!(
        first.dispatch(peer(42_000), policy(), AUTHENTICATE_REQUEST, now),
        ScheduledDispatch::Reply(Response::Busy)
    ));

    let completion = first_active
        .operation()
        .completion_for_worker(ServerMessage::Terminal(TerminalOutcome::NoMatch));
    assert_eq!(
        first.finish_standard(&first_active, &completion, now),
        ServerMessage::Terminal(TerminalOutcome::Cancelled)
    );
    assert_eq!(
        second.abandon_standard(&second_active, now),
        ServerMessage::Terminal(TerminalOutcome::Error)
    );
}

#[test]
fn stale_standard_completion_cannot_release_a_newer_shared_worker() {
    let now = Duration::from_secs(10);
    let mut service =
        ready(BrokerServiceScheduler::new(7, now, idle_timeout()));
    let stale = standard_start(
        &mut service,
        ResolvedStandardOperation::Identify {
            account: standard_account(),
        },
        now,
    );
    let stale_completion = stale
        .operation()
        .completion_for_worker(ServerMessage::Terminal(TerminalOutcome::NoMatch));
    assert_eq!(
        service.finish_standard(&stale, &stale_completion, now),
        ServerMessage::Terminal(TerminalOutcome::NoMatch)
    );

    let current = standard_start(
        &mut service,
        ResolvedStandardOperation::Identify {
            account: standard_account(),
        },
        now,
    );
    assert_eq!(
        service.finish_standard(&stale, &stale_completion, now),
        ServerMessage::Terminal(TerminalOutcome::Error)
    );
    assert!(matches!(
        service.dispatch(peer(42_000), policy(), AUTHENTICATE_REQUEST, now),
        ScheduledDispatch::Reply(Response::Busy)
    ));
    let current_completion = current
        .operation()
        .completion_for_worker(ServerMessage::Terminal(TerminalOutcome::NoMatch));
    assert_eq!(
        service.finish_standard(&current, &current_completion, now),
        ServerMessage::Terminal(TerminalOutcome::NoMatch)
    );
}

#[test]
fn lost_standard_worker_poisons_the_one_shared_scheduler() {
    let now = Duration::from_secs(10);
    let mut service =
        ready(BrokerServiceScheduler::new(8, now, idle_timeout()));
    let scheduled =
        standard_start(&mut service, ResolvedStandardOperation::ListIdentities, now);
    let completion = scheduled
        .operation()
        .completion_for_worker(ServerMessage::IdentityList {
            owner: None,
            identities: Vec::new(),
        });
    assert!(service.standard_worker_lost(&scheduled));
    assert_eq!(
        service.finish_standard(&scheduled, &completion, now),
        ServerMessage::Terminal(TerminalOutcome::Error)
    );
    assert!(service.decide(now, true) == LifecycleDecision::Terminate);
    assert!(matches!(
        service.dispatch_standard(
            StandardAuthority::Granted,
            ResolvedStandardOperation::ListIdentities,
            now,
        ),
        ScheduledStandardDispatch::Terminate
    ));
}

#[test]
fn one_worker_starts_with_the_complete_bounded_deadline() {
    let now = Duration::from_secs(10);
    let mut scheduler = scheduler(now);
    let (lease, deadline) = start(&mut scheduler, now);

    assert_eq!(deadline, plus(now, operation_timeout()));
    assert!(scheduler.admit_worker(now) == WorkerAdmission::Busy);
    assert!(!lease.diagnostic().contains('1'));
}

#[test]
fn deadline_cancels_once_without_freeing_or_replacing_the_worker() {
    let now = Duration::from_secs(10);
    let mut scheduler = scheduler(now);
    let (lease, deadline) = start(&mut scheduler, now);

    assert!(scheduler.decide(
            deadline
                .checked_sub(Duration::from_nanos(1))
                .expect("deadline is nonzero"),
            false,
        ) == LifecycleDecision::Continue);
    assert!(scheduler.decide(deadline, false) == LifecycleDecision::Cancel(lease));
    assert!(scheduler.decide(plus(deadline, Duration::from_secs(1)), false) == LifecycleDecision::Continue);
    assert!(scheduler.admit_worker(deadline) == WorkerAdmission::Busy);
}

#[test]
fn only_the_exact_worker_completion_returns_to_idle() {
    let now = Duration::from_secs(10);
    let mut scheduler = scheduler(now);
    let (first, _) = start(&mut scheduler, now);
    let stale = second_lease(now);

    assert!(!scheduler.complete(stale, plus(now, Duration::from_secs(1))));
    assert!(scheduler.admit_worker(now) == WorkerAdmission::Busy);
    assert!(scheduler.complete(first, plus(now, Duration::from_secs(2))));
    assert!(matches!(
        scheduler.admit_worker(plus(now, Duration::from_secs(2))),
        WorkerAdmission::Start { .. }
    ));
}

#[test]
fn uncertain_worker_terminates_and_never_accepts_replacement_work() {
    let now = Duration::from_secs(10);
    let mut scheduler = scheduler(now);
    let (lease, _) = start(&mut scheduler, now);

    assert!(!scheduler.worker_lost(second_lease(now)));
    assert!(scheduler.worker_lost(lease));
    assert!(scheduler.decide(now, true) == LifecycleDecision::Terminate);
    assert!(scheduler.admit_worker(now) == WorkerAdmission::Terminate);
}

#[test]
fn idle_exit_waits_for_threshold_and_never_beats_socket_readiness() {
    let now = Duration::from_secs(10);
    let mut scheduler = scheduler(now);

    assert!(scheduler.decide(
            plus(now, idle_timeout())
                .checked_sub(Duration::from_nanos(1))
                .expect("idle threshold is nonzero"),
            false,
        ) == LifecycleDecision::Continue);
    assert!(scheduler.decide(plus(now, idle_timeout()), true) == LifecycleDecision::Continue);
    assert!(scheduler.decide(plus(now, idle_timeout()), false) == LifecycleDecision::ExitIdle);

    let (lease, _) = start(&mut scheduler, plus(now, idle_timeout()));
    assert!(scheduler.decide(plus(plus(now, idle_timeout()), operation_timeout()), false) == LifecycleDecision::Cancel(lease));
}

#[test]
fn invalid_or_unrepresentable_timing_never_starts_work() {
    assert!(matches!(
        BrokerScheduler::new(Duration::zero(), Duration::zero()),
        Err(SchedulerError::ZeroIdleTimeout)
    ));

    let mut scheduler = scheduler(Duration::max());
    assert!(scheduler.admit_worker(Duration::max()) == WorkerAdmission::Terminate);
    assert!(scheduler.decide(Duration::max(), false) == LifecycleDecision::Terminate);
}

#[test]
fn broker_authority_and_worker_slot_return_busy_without_a_queue() {
    let now = Duration::from_secs(10);
    let mut service =
        ready(BrokerServiceScheduler::new(9, now, idle_timeout()));
    let ScheduledDispatch::Start(active) =
        service.dispatch(peer(42_000), policy(), AUTHENTICATE_REQUEST, now)
    else {
        panic!("first operation starts")
    };

    assert!(matches!(
        service.dispatch(peer(42_000), policy(), AUTHENTICATE_REQUEST, now),
        ScheduledDispatch::Reply(Response::Busy)
    ));
    assert!(service.decide(active.deadline(), false) == LifecycleDecision::Cancel(active.lease()));
    assert!(matches!(
        service.dispatch(
            peer(42_000),
            policy(),
            AUTHENTICATE_REQUEST,
            active.deadline()
        ),
        ScheduledDispatch::Reply(Response::Busy)
    ));
}

#[test]
fn enrollment_shares_the_only_worker_and_root_cancellation_path() {
    let now = Duration::from_secs(10);
    let mut service =
        ready(BrokerServiceScheduler::new(10, now, idle_timeout()));
    let ScheduledDispatch::Start(enrollment) = service.enroll_without_owner(peer(42_000), now)
    else {
        panic!("missing-owner enrollment starts")
    };
    assert_eq!(enrollment.authentication().purpose(), Purpose::Enrollment);
    assert_eq!(enrollment.deadline(), plus(now, enrollment_operation_timeout()));
    assert_eq!(
        enrollment
            .authentication()
            .enrollment_owner_candidate()
            .expect("scheduled enrollment carries candidate")
            .user_id(),
        42_000
    );
    assert!(matches!(
        service.dispatch(peer(42_000), policy(), ENROLL_REQUEST, now),
        ScheduledDispatch::Reply(Response::Busy)
    ));
    assert!(matches!(
        service.cancel_without_owner(peer(0)),
        ScheduledDispatch::Reply(Response::Okay)
    ));
    assert!(enrollment.authentication().is_cancelled(service.coordinator()));
    assert_eq!(service.abandon(&enrollment, now), Response::Failure);
}

#[test]
fn authentication_and_approval_retain_the_short_outer_deadline() {
    let now = Duration::from_secs(10);
    let mut service =
        ready(BrokerServiceScheduler::new(11, now, idle_timeout()));
    for request in [AUTHENTICATE_REQUEST, APPROVE_REQUEST] {
        let ScheduledDispatch::Start(scheduled) =
            service.dispatch(peer(42_000), policy(), request, now)
        else {
            panic!("authorized operation starts")
        };
        assert_eq!(scheduled.deadline(), plus(now, operation_timeout()));
        assert_eq!(service.abandon(&scheduled, now), Response::Failure);
    }
}

#[test]
fn root_cancellation_reaches_the_only_scheduled_operation() {
    let now = Duration::from_secs(10);
    let mut service =
        ready(BrokerServiceScheduler::new(12, now, idle_timeout()));
    let ScheduledDispatch::Start(active) =
        service.dispatch(peer(42_000), policy(), AUTHENTICATE_REQUEST, now)
    else {
        panic!("first operation starts")
    };

    assert!(matches!(
        service.dispatch(peer(0), policy(), CANCEL_REQUEST, now),
        ScheduledDispatch::Reply(Response::Okay)
    ));
    assert!(active.authentication().is_cancelled(service.coordinator()));
    assert_eq!(service.abandon(&active, now), Response::Failure);
    assert!(matches!(
        service.dispatch(peer(42_000), policy(), AUTHENTICATE_REQUEST, now),
        ScheduledDispatch::Start(_)
    ));
}

#[test]
fn deadline_delivery_is_exact_idempotent_and_keeps_the_worker_active() {
    let now = Duration::from_secs(10);
    let mut first =
        ready(BrokerServiceScheduler::new(13, now, idle_timeout()));
    let mut second =
        ready(BrokerServiceScheduler::new(14, now, idle_timeout()));
    let ScheduledDispatch::Start(first_active) =
        first.dispatch(peer(42_000), policy(), AUTHENTICATE_REQUEST, now)
    else {
        panic!("first service starts")
    };
    let ScheduledDispatch::Start(second_active) =
        second.dispatch(peer(42_000), policy(), AUTHENTICATE_REQUEST, now)
    else {
        panic!("second service starts")
    };

    assert!(!first.deadline_expired(&second_active));
    assert!(!first_active.authentication().is_cancelled(first.coordinator()));
    assert!(first.deadline_expired(&first_active));
    assert!(first_active.authentication().is_cancelled(first.coordinator()));
    assert!(first.deadline_expired(&first_active));
    assert!(matches!(
        first.dispatch(
            peer(42_000),
            policy(),
            AUTHENTICATE_REQUEST,
            first_active.deadline()
        ),
        ScheduledDispatch::Reply(Response::Busy)
    ));
    assert_eq!(first.abandon(&second_active, now), Response::Failure);
    assert!(matches!(
        first.dispatch(peer(42_000), policy(), AUTHENTICATE_REQUEST, now),
        ScheduledDispatch::Reply(Response::Busy)
    ));
    assert_eq!(first.abandon(&first_active, now), Response::Failure);
    assert!(matches!(
        first.dispatch(peer(42_000), policy(), AUTHENTICATE_REQUEST, now),
        ScheduledDispatch::Start(_)
    ));
    assert_eq!(second.abandon(&second_active, now), Response::Failure);
}

#[test]
fn equal_local_lease_from_another_service_cannot_release_or_poison_work() {
    let now = Duration::from_secs(10);
    let mut first =
        ready(BrokerServiceScheduler::new(15, now, idle_timeout()));
    let mut second =
        ready(BrokerServiceScheduler::new(16, now, idle_timeout()));
    let ScheduledDispatch::Start(first_active) =
        first.dispatch(peer(42_000), policy(), AUTHENTICATE_REQUEST, now)
    else {
        panic!("first service starts")
    };
    let ScheduledDispatch::Start(second_active) =
        second.dispatch(peer(42_000), policy(), AUTHENTICATE_REQUEST, now)
    else {
        panic!("second service starts")
    };
    assert!(first_active.lease() == second_active.lease());

    assert!(!first.client_disconnected(&second_active));
    assert!(!first.worker_lost(&second_active));
    assert_eq!(first.abandon(&second_active, now), Response::Failure);
    assert!(matches!(
        first.dispatch(peer(42_000), policy(), AUTHENTICATE_REQUEST, now),
        ScheduledDispatch::Reply(Response::Busy)
    ));
    assert_eq!(first.abandon(&first_active, now), Response::Failure);
    assert_eq!(second.abandon(&second_active, now), Response::Failure);
}

#[test]
fn exact_completion_releases_the_slot_but_foreign_completion_does_not() {
    let now = Duration::from_secs(10);
    let mut first =
        ready(BrokerServiceScheduler::new(17, now, idle_timeout()));
    let mut second =
        ready(BrokerServiceScheduler::new(18, now, idle_timeout()));
    let ScheduledDispatch::Start(first_active) =
        first.dispatch(peer(42_000), policy(), AUTHENTICATE_REQUEST, now)
    else {
        panic!("first service starts")
    };
    let ScheduledDispatch::Start(second_active) =
        second.dispatch(peer(42_000), policy(), AUTHENTICATE_REQUEST, now)
    else {
        panic!("second service starts")
    };
    let first_completion =
        matched(first_active.authentication());
    let second_completion =
        matched(second_active.authentication());

    assert_eq!(
        first.finish(&first_active, &second_completion, now),
        Response::Failure
    );
    assert!(matches!(
        first.dispatch(peer(42_000), policy(), AUTHENTICATE_REQUEST, now),
        ScheduledDispatch::Reply(Response::Busy)
    ));
    assert_eq!(
        first.finish(&first_active, &first_completion, now),
        Response::Okay
    );
    assert!(matches!(
        first.dispatch(peer(42_000), policy(), AUTHENTICATE_REQUEST, now),
        ScheduledDispatch::Start(_)
    ));
    assert_eq!(
        second.finish(&second_active, &second_completion, now),
        Response::Okay
    );
}

#[test]
fn authoritative_feedback_runs_before_exact_worker_release_and_is_cosmetic() {
    let now = Duration::from_secs(10);
    for fail_first in [false, true] {
        let mut service =
            ready(BrokerServiceScheduler::new(19, now, idle_timeout()));
        let ScheduledDispatch::Start(active) =
            service.dispatch(peer(42_000), policy(), AUTHENTICATE_REQUEST, now)
        else {
            panic!("operation starts")
        };
        let completion = matched(active.authentication());
        let mut feedback = FakeFeedback {
            actions: Vec::new(),
            fail_first,
        };

        assert_eq!(
            service.finish_with_feedback(&active, &completion, Some(&mut feedback), now,),
            Response::Okay
        );
        let expected = if fail_first {
            vec![FeedbackAction::ShowSuccess]
        } else {
            vec![
                FeedbackAction::ShowSuccess,
                FeedbackAction::PauseAfterSuccess,
            ]
        };
        assert_eq!(feedback.actions, expected);
        assert!(matches!(
            service.dispatch(peer(42_000), policy(), AUTHENTICATE_REQUEST, now),
            ScheduledDispatch::Start(_)
        ));
    }
}

#[test]
fn cancellation_and_foreign_completion_cannot_present_feedback() {
    let now = Duration::from_secs(10);
    let mut first =
        ready(BrokerServiceScheduler::new(20, now, idle_timeout()));
    let mut second =
        ready(BrokerServiceScheduler::new(21, now, idle_timeout()));
    let ScheduledDispatch::Start(first_active) =
        first.dispatch(peer(42_000), policy(), AUTHENTICATE_REQUEST, now)
    else {
        panic!("first operation starts")
    };
    let ScheduledDispatch::Start(second_active) =
        second.dispatch(peer(42_000), policy(), AUTHENTICATE_REQUEST, now)
    else {
        panic!("second operation starts")
    };
    let foreign = matched(second_active.authentication());
    let exact = matched(first_active.authentication());
    let mut feedback = FakeFeedback::default();

    assert_eq!(
        first.finish_with_feedback(&first_active, &foreign, Some(&mut feedback), now),
        Response::Failure
    );
    assert!(feedback.actions.is_empty());
    assert!(matches!(
        first.dispatch(peer(42_000), policy(), AUTHENTICATE_REQUEST, now),
        ScheduledDispatch::Reply(Response::Busy)
    ));

    assert!(matches!(
        first.dispatch(peer(0), policy(), CANCEL_REQUEST, now),
        ScheduledDispatch::Reply(Response::Okay)
    ));
    assert_eq!(
        first.finish_with_feedback(&first_active, &exact, Some(&mut feedback), now),
        Response::Failure
    );
    assert!(feedback.actions.is_empty());
    assert!(matches!(
        first.dispatch(peer(42_000), policy(), AUTHENTICATE_REQUEST, now),
        ScheduledDispatch::Start(_)
    ));
    assert_eq!(second.abandon(&second_active, now), Response::Failure);
}

#[test]
fn lost_worker_can_never_report_success_or_release_termination() {
    let now = Duration::from_secs(10);
    let mut service =
        ready(BrokerServiceScheduler::new(22, now, idle_timeout()));
    let ScheduledDispatch::Start(active) =
        service.dispatch(peer(42_000), policy(), AUTHENTICATE_REQUEST, now)
    else {
        panic!("operation starts")
    };
    let completion = matched(active.authentication());

    assert!(service.worker_lost(&active));
    assert_eq!(service.finish(&active, &completion, now), Response::Failure);
    assert!(service.decide(now, true) == LifecycleDecision::Terminate);
    assert!(matches!(
        service.dispatch(peer(0), policy(), CANCEL_REQUEST, now),
        ScheduledDispatch::Terminate
    ));
    assert!(matches!(
        service.cancel_without_owner(peer(0)),
        ScheduledDispatch::Terminate
    ));
}

#[test]
fn budgets_and_messages_are_exact() {
    assert_eq!(operation_timeout(), Duration::from_secs(65));
    assert_eq!(enrollment_operation_timeout(), Duration::from_secs(900));
    assert_eq!(
        SchedulerError::ZeroIdleTimeout.message(),
        "broker idle timeout must be nonzero"
    );
}

#[test]
fn closed_cancellation_leaves_the_scheduled_work_uncancelled() {
    let now = Duration::from_secs(10);
    let mut service = ready(BrokerServiceScheduler::new(900, now, idle_timeout()));
    let ScheduledDispatch::Start(active) =
        service.dispatch(peer(42_000), policy(), ENROLL_REQUEST, now)
    else {
        panic!("enrollment starts")
    };
    assert!(service.close_cancellation(active.authentication()));
    assert!(!service.close_cancellation(active.authentication()));
    assert!(!service.deadline_expired(&active));
    assert!(!active.authentication().is_cancelled(service.coordinator()));
    let completion = matched(active.authentication());
    assert_eq!(service.finish(&active, &completion, now), Response::Okay);

    let standard = standard_start(
        &mut service,
        ResolvedStandardOperation::ListIdentities,
        now,
    );
    assert!(service.close_standard_cancellation(standard.operation()));
    assert!(!service.cancel_standard(&standard));
    assert!(service.owns_standard(&standard));
}
