use t1_daemons::active_run::{
    direct_spawned, direct_start, standard_spawned, standard_start, ActiveDirectRun, ActiveRun,
    ActiveStandardRun, DirectProgress, DirectStart, StandardEntry, StandardProgress,
    StandardStart,
};
use t1_daemons::auth_daemon::{
    accept_failed, anything_waits, by_protocol, decide_tick, direct_received, has_input,
    may_accept, parse_listener_order, poll_worker, AuthDaemonError, ChannelState,
    ConnectionEvent, DirectFollowUp, EventLoop, FlushDecision, ListenerOrder, LoopAction,
    RoundQueue, StandardDeadlines, StandardFollowUp, StandardService, TickEnd, TickPhase,
    TimedQueue, TimedStandardConnection, WorkerPoll, IDLE_TIMEOUT_SECS, MAX_ACCEPTS_PER_TICK,
    MAX_PENDING_CONNECTIONS, REPLY_TIMEOUT_MILLIS,
};
use t1_daemons::auth_protocol::{
    AccessPolicy, PeerAddressFamily, PeerMetadata, Response,
};
use t1_daemons::auth_scheduler::{
    BrokerServiceScheduler, LifecycleDecision, ScheduledDispatch, ScheduledStandardDispatch,
};
use t1_daemons::auth_session::{AuthenticationCompletion, StandardCompletion};
use t1_daemons::auth_socket::{
    ActiveBrokerSocketSession, BrokerSocketConnection, BrokerSocketDispatch, BrokerSocketError,
    SocketStatus,
};
use t1_daemons::biometric::MatchOutcome;
use t1_daemons::standard_fingerprint_protocol::{
    FingerLabel, IdentityId, ServerMessage, TerminalOutcome,
};
use t1_daemons::standard_operation_authority::{
    ResolvedStandardAccount, ResolvedStandardOperation, StandardAuthority,
};
use t1_daemons::time::Duration;

const AUTHENTICATE_REQUEST: &[u8; 8] = b"T1AUTH\x01\n";
const ENROLL_REQUEST: &[u8; 8] = b"T1ENRL\x01\n";
const CANCEL_REQUEST: &[u8; 8] = b"T1CNCL\x01\n";
const OWNER_UID: u32 = 42_000;

fn peer(user_id: u32) -> PeerMetadata {
    PeerMetadata { address_family: PeerAddressFamily::Local, user_id, group_id: 42_001 }
}

fn service_named(identity: u64) -> BrokerServiceScheduler {
    match BrokerServiceScheduler::new(
        identity,
        Duration::zero(),
        Duration::from_secs(IDLE_TIMEOUT_SECS),
    ) {
        Ok(service) => service,
        Err(_) => panic!("valid service policy"),
    }
}

fn service() -> BrokerServiceScheduler {
    service_named(1)
}

fn policy() -> AccessPolicy {
    AccessPolicy::new(OWNER_UID).unwrap()
}

fn direct_run(
    service: &mut BrokerServiceScheduler,
    cutoff: bool,
) -> (ActiveDirectRun<u8>, AuthenticationCompletion) {
    let ScheduledDispatch::Start(scheduled) =
        service.dispatch(peer(OWNER_UID), policy(), ENROLL_REQUEST, Duration::zero())
    else {
        panic!("synthetic enrollment starts")
    };
    if cutoff {
        assert!(service.close_cancellation(scheduled.authentication()));
    }
    let completion = scheduled.authentication().completion_for_worker(Ok(MatchOutcome::Matched));
    let session = ActiveBrokerSocketSession::new(7, scheduled);
    let session = match direct_start(session, false, service) {
        Ok(session) => session,
        Err(_) => panic!("no other run is active"),
    };
    match direct_spawned(session, true, service, Duration::zero()) {
        DirectStart::Running(run) => (run, completion),
        DirectStart::Reply(_) => panic!("the worker was started"),
    }
}

fn standard_run(
    service: &mut BrokerServiceScheduler,
    cutoff: bool,
) -> (ActiveStandardRun, StandardCompletion) {
    let account = ResolvedStandardAccount {
        name: String::from("synthetic-owner"),
        user_id: OWNER_UID,
    };
    let ScheduledStandardDispatch::Start(scheduled) = service.dispatch_standard(
        StandardAuthority::Granted,
        ResolvedStandardOperation::Enroll { account, finger: FingerLabel::RightIndex },
        Duration::zero(),
    ) else {
        panic!("synthetic standard enrollment starts")
    };
    if cutoff {
        assert!(service.close_standard_cancellation(scheduled.operation()));
    }
    let completion = scheduled.operation().completion_for_worker(ServerMessage::Terminal(
        TerminalOutcome::Enrolled(IdentityId { bytes: [0x21; 16] }),
    ));
    match standard_spawned(scheduled, true, service, Duration::zero()) {
        StandardStart::Running(run) => (run, completion),
        StandardStart::Reply(_) => panic!("the worker was started"),
    }
}

fn assert_busy(scheduler: &mut BrokerServiceScheduler) {
    assert!(matches!(
        scheduler.dispatch(peer(OWNER_UID), policy(), AUTHENTICATE_REQUEST, Duration::zero()),
        ScheduledDispatch::Reply(Response::Busy)
    ));
}

fn assert_free(scheduler: &mut BrokerServiceScheduler) {
    assert!(matches!(
        scheduler.dispatch(peer(OWNER_UID), policy(), AUTHENTICATE_REQUEST, Duration::zero()),
        ScheduledDispatch::Start(_)
    ));
}

fn finish_disconnected_direct_run(
    run: ActiveDirectRun<u8>,
    completion: AuthenticationCompletion,
    scheduler: &mut BrokerServiceScheduler,
) {
    assert_busy(scheduler);
    let pending = poll_worker(ChannelState::Empty, false, false);
    let DirectProgress::Running(run) = run.worker_polled(pending, scheduler, Duration::zero())
    else {
        panic!("the worker still runs")
    };
    let polled = poll_worker(ChannelState::Completion(completion), true, true);
    assert!(
        matches!(
            run.worker_polled(polled, scheduler, Duration::zero()),
            DirectProgress::Ended(None)
        ),
        "no reply retained for disconnected peer"
    );
    assert_free(scheduler);
}

fn finish_disconnected_standard_run(
    mut run: ActiveStandardRun,
    completion: StandardCompletion,
    scheduler: &mut BrokerServiceScheduler,
) {
    assert_busy(scheduler);
    assert!(run.polls_worker());
    assert!(!run.progress_received(Duration::zero()));
    assert!(run.polls_worker());
    let polled = poll_worker(ChannelState::Completion(completion), true, true);
    assert!(
        matches!(
            run.worker_polled(polled, scheduler, Duration::zero()),
            StandardProgress::Ended(None)
        ),
        "no reply retained for disconnected peer"
    );
    assert_free(scheduler);
}

#[test]
fn direct_disconnect_and_deadline_preserve_exact_completion_across_cutoff() {
    for cutoff in [false, true] {
        let mut scheduler = service();
        let (run, completion) = direct_run(&mut scheduler, cutoff);
        let active = ActiveRun::Direct(run);
        assert_eq!(active.cancel_or_await_completion(&mut scheduler), Ok(()));
        let ActiveRun::Direct(mut running) = active else {
            unreachable!()
        };
        assert_eq!(running.observe_active_disconnect(Ok(true), &mut scheduler), Ok(()));
        assert!(running.disconnect_observed());
        assert_eq!(
            running.session().authentication().is_cancelled(scheduler.coordinator()),
            !cutoff
        );
        finish_disconnected_direct_run(running, completion, &mut scheduler);
    }
}

#[test]
fn standard_disconnect_and_reply_failures_drain_worker_across_cutoff() {
    for cutoff in [false, true] {
        for trigger in 0..3 {
            let mut scheduler = service();
            let (run, completion) = standard_run(&mut scheduler, cutoff);
            let active: ActiveRun<u8> = ActiveRun::Standard(run);
            assert_eq!(active.cancel_or_await_completion(&mut scheduler), Ok(()));
            let ActiveRun::Standard(mut running) = active else {
                unreachable!()
            };
            if trigger == 0 {
                assert!(running.reads_control());
                assert_eq!(
                    running.control_received(
                        ConnectionEvent::Closed,
                        &mut scheduler,
                        Duration::zero()
                    ),
                    Ok(())
                );
            } else {
                assert!(running.progress_received(Duration::zero()));
                assert!(running.has_pending_reply());
                assert_eq!(
                    running.reply_deadline(),
                    Some(Duration::from_millis(REPLY_TIMEOUT_MILLIS))
                );
                if trigger == 1 {
                    let due = Duration::from_millis(REPLY_TIMEOUT_MILLIS);
                    assert_eq!(running.flush_due(&mut scheduler, due), Ok(false));
                } else {
                    assert_eq!(running.flush_due(&mut scheduler, Duration::zero()), Ok(true));
                    assert_eq!(
                        running.reply_flushed(Err(SocketStatus::Send), &mut scheduler),
                        Ok(())
                    );
                }
            }
            assert!(running.disconnect_observed());
            assert!(!running.has_pending_reply());
            assert!(running.reply_deadline().is_none());
            assert_eq!(
                running.scheduled().operation().is_cancelled(scheduler.coordinator()),
                !cutoff
            );
            finish_disconnected_standard_run(running, completion, &mut scheduler);
        }
    }
}

#[test]
fn unavailable_cancellation_cannot_mask_foreign_scheduler_authority() {
    let mut scheduler = service_named(1);
    let mut foreign = service_named(2);
    let (run, completion) = direct_run(&mut scheduler, true);
    let active = ActiveRun::Direct(run);
    assert_eq!(
        active.cancel_or_await_completion(&mut foreign),
        Err(AuthDaemonError::Scheduler)
    );
    let ActiveRun::Direct(mut running) = active else {
        unreachable!()
    };
    assert_eq!(
        running.observe_active_disconnect(Ok(true), &mut foreign),
        Err(AuthDaemonError::Scheduler)
    );
    assert!(!running.disconnect_observed());
    assert_eq!(running.observe_active_disconnect(Ok(true), &mut scheduler), Ok(()));
    finish_disconnected_direct_run(running, completion, &mut scheduler);

    let mut scheduler = service_named(3);
    let (run, completion) = standard_run(&mut scheduler, true);
    let active: ActiveRun<u8> = ActiveRun::Standard(run);
    assert_eq!(
        active.cancel_or_await_completion(&mut foreign),
        Err(AuthDaemonError::Scheduler)
    );
    let ActiveRun::Standard(mut running) = active else {
        unreachable!()
    };
    assert_eq!(
        running.disconnect_standard_run(&mut foreign),
        Err(AuthDaemonError::Scheduler)
    );
    assert_eq!(running.disconnect_standard_run(&mut scheduler), Ok(()));
    finish_disconnected_standard_run(running, completion, &mut scheduler);
}

#[test]
fn activation_accepts_either_exact_named_listener_order() {
    assert_eq!(
        parse_listener_order(b"t1-touchid-auth.socket:t1bridge-fingerprint.socket"),
        Ok(ListenerOrder::DirectFirst)
    );
    assert_eq!(
        parse_listener_order(b"t1bridge-fingerprint.socket:t1-touchid-auth.socket"),
        Ok(ListenerOrder::StandardFirst)
    );
}

#[test]
fn activation_rejects_missing_duplicate_or_extra_listener_names() {
    for names in [
        "",
        "t1-touchid-auth.socket",
        "t1-touchid-auth.socket:t1-touchid-auth.socket",
        "t1bridge-fingerprint.socket:t1bridge-fingerprint.socket",
        "t1bridge-fingerprint.socket:t1-touchid-auth.socket:extra.socket",
    ] {
        assert_eq!(
            parse_listener_order(names.as_bytes()),
            Err(AuthDaemonError::Activation)
        );
    }
}

#[test]
fn one_worker_completion_retains_exact_token_and_releases_the_slot() {
    let mut service = service();
    let ScheduledDispatch::Start(scheduled) = service.dispatch(
        peer(OWNER_UID),
        policy(),
        AUTHENTICATE_REQUEST,
        Duration::zero(),
    ) else {
        panic!("operation starts")
    };
    let worker = scheduled.authentication().clone_for_worker();
    let channel = ChannelState::Completion(worker.completion_for_worker(Ok(MatchOutcome::Matched)));
    let WorkerPoll::Completed(completion) = poll_worker(channel, true, true) else {
        panic!("worker completion is delivered")
    };
    assert!(completion.belongs_to(scheduled.authentication()));
    assert_eq!(
        service.finish(&scheduled, &completion, Duration::from_secs(1)),
        Response::Okay
    );
    assert!(matches!(
        service.dispatch(
            peer(OWNER_UID),
            policy(),
            AUTHENTICATE_REQUEST,
            Duration::from_secs(1)
        ),
        ScheduledDispatch::Start(_)
    ));
}

#[test]
fn root_cancel_and_disconnect_win_while_new_work_is_busy() {
    let mut service = service();
    let ScheduledDispatch::Start(scheduled) = service.dispatch(
        peer(OWNER_UID),
        policy(),
        AUTHENTICATE_REQUEST,
        Duration::zero(),
    ) else {
        panic!("operation starts")
    };
    let worker = scheduled.authentication().clone_for_worker();
    assert_busy(&mut service);
    assert!(!worker.is_cancelled(service.coordinator()));
    assert!(service.client_disconnected(&scheduled));
    assert!(matches!(
        service.dispatch(peer(0), policy(), CANCEL_REQUEST, Duration::zero()),
        ScheduledDispatch::Reply(Response::Okay)
    ));
    assert!(worker.is_cancelled(service.coordinator()));
    let completion = worker.completion_for_worker(Ok(MatchOutcome::Cancelled));
    assert_eq!(
        service.finish(&scheduled, &completion, Duration::from_secs(1)),
        Response::Failure
    );
}

#[test]
fn lost_worker_poisoning_terminates_the_service() {
    let mut service = service();
    let ScheduledDispatch::Start(scheduled) = service.dispatch(
        peer(OWNER_UID),
        policy(),
        AUTHENTICATE_REQUEST,
        Duration::zero(),
    ) else {
        panic!("operation starts")
    };
    assert!(matches!(
        poll_worker::<AuthenticationCompletion>(ChannelState::Disconnected, true, false),
        WorkerPoll::Lost
    ));
    assert!(service.worker_lost(&scheduled));
    assert!(service.decide(Duration::zero(), false) == LifecycleDecision::Terminate);
}

#[test]
fn worker_results_count_only_of_threads_that_ended_well() {
    assert!(matches!(
        poll_worker(ChannelState::Completion(5), true, true),
        WorkerPoll::Completed(5)
    ));
    assert!(matches!(
        poll_worker(ChannelState::Completion(5), true, false),
        WorkerPoll::Lost
    ));
    assert!(matches!(
        poll_worker::<u8>(ChannelState::Empty, false, false),
        WorkerPoll::Pending
    ));
    assert!(matches!(
        poll_worker::<u8>(ChannelState::Empty, true, true),
        WorkerPoll::Lost
    ));
}

#[test]
fn connected_clients_get_the_reply_of_their_run() {
    let mut scheduler = service();
    let (mut run, completion) = direct_run(&mut scheduler, false);
    assert_eq!(run.observe_active_disconnect(Ok(false), &mut scheduler), Ok(()));
    assert!(!run.disconnect_observed());
    match run.worker_polled(WorkerPoll::Completed(completion), &mut scheduler, Duration::zero()) {
        DirectProgress::Ended(Some(reply)) => {
            assert_eq!(reply.response(), Response::Okay);
            assert_eq!(reply.descriptor(), &7);
        }
        _ => panic!("the client is still there"),
    }

    let (run, completion) = standard_run(&mut scheduler, false);
    match run.worker_polled(WorkerPoll::Completed(completion), &mut scheduler, Duration::zero()) {
        StandardProgress::Ended(Some(message)) => assert_eq!(
            message,
            ServerMessage::Terminal(TerminalOutcome::Enrolled(IdentityId { bytes: [0x21; 16] }))
        ),
        _ => panic!("the client is still there"),
    }
}

#[test]
fn foreign_completions_and_lost_workers_are_fatal() {
    let mut scheduler = service();
    let mut other = service_named(2);
    let (run, _) = direct_run(&mut scheduler, false);
    let (_, foreign) = direct_run(&mut other, false);
    assert!(matches!(
        run.worker_polled(WorkerPoll::Completed(foreign), &mut scheduler, Duration::zero()),
        DirectProgress::Fatal(AuthDaemonError::WorkerLost)
    ));
    assert!(scheduler.decide(Duration::zero(), false) == LifecycleDecision::Terminate);

    let mut scheduler = service();
    let (run, _) = standard_run(&mut scheduler, false);
    assert!(matches!(
        run.worker_polled(WorkerPoll::Lost, &mut scheduler, Duration::zero()),
        StandardProgress::Fatal(AuthDaemonError::WorkerLost)
    ));
    assert!(scheduler.decide(Duration::zero(), false) == LifecycleDecision::Terminate);
}

#[test]
fn starts_beside_an_active_run_never_get_a_worker() {
    let mut scheduler = service();
    let ScheduledDispatch::Start(scheduled) =
        scheduler.dispatch(peer(OWNER_UID), policy(), ENROLL_REQUEST, Duration::zero())
    else {
        panic!("enrollment starts")
    };
    assert!(matches!(
        direct_start(ActiveBrokerSocketSession::new(7, scheduled), true, &mut scheduler),
        Err(AuthDaemonError::Scheduler)
    ));
    assert!(scheduler.decide(Duration::zero(), false) == LifecycleDecision::Terminate);

    let mut scheduler = service();
    let ScheduledStandardDispatch::Start(scheduled) = scheduler.dispatch_standard(
        StandardAuthority::Granted,
        ResolvedStandardOperation::ListIdentities,
        Duration::zero(),
    ) else {
        panic!("the list starts")
    };
    assert!(matches!(
        standard_spawned(scheduled, false, &mut scheduler, Duration::zero()),
        StandardStart::Reply(ServerMessage::Terminal(TerminalOutcome::Error))
    ));
    assert_free(&mut scheduler);
}

#[test]
fn no_standard_worker_starts_beside_an_active_run() {
    for active in [false, true] {
        let mut scheduler = service();
        let ScheduledStandardDispatch::Start(scheduled) = scheduler.dispatch_standard(
            StandardAuthority::Granted,
            ResolvedStandardOperation::ListIdentities,
            Duration::zero(),
        ) else {
            panic!("the list starts")
        };
        match standard_start(scheduled, active, &mut scheduler, Duration::zero()) {
            StandardEntry::Spawn(_) => {
                assert!(!active);
                assert_busy(&mut scheduler);
            }
            StandardEntry::Reply(message) => {
                assert!(active);
                assert_eq!(message, ServerMessage::Terminal(TerminalOutcome::Error));
                assert_free(&mut scheduler);
            }
        }
    }
}

#[test]
fn direct_work_without_a_thread_is_answered_with_failure() {
    let mut scheduler = service();
    let ScheduledDispatch::Start(scheduled) =
        scheduler.dispatch(peer(OWNER_UID), policy(), ENROLL_REQUEST, Duration::zero())
    else {
        panic!("enrollment starts")
    };
    let session = ActiveBrokerSocketSession::new(7, scheduled);
    match direct_spawned(session, false, &mut scheduler, Duration::zero()) {
        DirectStart::Reply(reply) => assert_eq!(reply.response(), Response::Failure),
        DirectStart::Running(_) => panic!("no worker was started"),
    }
    assert_free(&mut scheduler);
}

#[test]
fn control_messages_steer_a_standard_run() {
    let mut scheduler = service();
    let (mut run, _) = standard_run(&mut scheduler, false);
    let now = Duration::from_secs(3);
    assert_eq!(run.control_received(ConnectionEvent::Pending, &mut scheduler, now), Ok(()));
    assert!(run.reads_control());
    assert_eq!(run.control_received(ConnectionEvent::ReplyQueued, &mut scheduler, now), Ok(()));
    assert!(!run.reads_control());
    assert!(!run.polls_worker());
    assert_eq!(run.reply_deadline(), Some(Duration::from_millis(3_250)));
    assert_eq!(run.flush_due(&mut scheduler, Duration::from_millis(3_249)), Ok(true));
    assert_eq!(run.reply_flushed(Ok(false), &mut scheduler), Ok(()));
    assert!(run.has_pending_reply());
    assert_eq!(run.reply_flushed(Ok(true), &mut scheduler), Ok(()));
    assert!(!run.has_pending_reply());
    for event in [ConnectionEvent::Start, ConnectionEvent::Terminate, ConnectionEvent::Failed] {
        assert_eq!(
            run.control_received(event, &mut scheduler, now),
            Err(AuthDaemonError::Scheduler)
        );
    }
    assert!(!run.disconnect_observed());
}

#[test]
fn listeners_are_put_in_protocol_order() {
    assert_eq!(by_protocol(ListenerOrder::DirectFirst, "a", "b"), ("a", "b"));
    assert_eq!(by_protocol(ListenerOrder::StandardFirst, "a", "b"), ("b", "a"));
}

#[test]
fn queues_drop_what_is_over_and_serve_the_rest() {
    let mut queue = TimedQueue::new();
    queue.push("short", Duration::zero(), Duration::from_secs(1));
    queue.push("long", Duration::zero(), Duration::from_secs(9));
    queue.push("short too", Duration::zero(), Duration::from_secs(2));
    assert_eq!(queue.len(), 3);
    let now = Duration::from_secs(2);
    let item = queue.take(now).unwrap();
    assert_eq!(item.item, "long");
    assert_eq!(item.deadline, Duration::from_secs(9));
    queue.keep(item);
    assert!(queue.take(now).is_none());
    queue.end_round();
    assert_eq!(queue.len(), 1);
    queue.clear();
    assert!(queue.is_empty());
}

#[test]
fn standard_connections_wait_in_rounds_of_their_own() {
    let connection = |connection, request, reply| TimedStandardConnection {
        connection,
        deadlines: StandardDeadlines { request, reply },
    };
    let due = Some(Duration::from_secs(2));
    let later = Some(Duration::from_secs(3));
    let mut queue = RoundQueue::new();
    queue.insert(connection("first", None, later));
    queue.insert(connection("late request", due, None));
    queue.insert(connection("late reply", None, due));
    queue.insert(connection("last", None, None));

    let now = Duration::from_secs(2);
    while let Some(timed) = queue.take(now) {
        queue.keep(timed);
    }
    queue.end_round();
    assert_eq!(queue.len(), 2);
    let order: Vec<&str> = core::iter::from_fn(|| queue.take_first())
        .map(|timed| timed.connection)
        .collect();
    assert_eq!(order, ["last", "first"]);
    assert!(queue.take_first().is_none());
}

#[test]
fn a_tick_sees_listeners_connections_and_replies() {
    assert!(!has_input(true, false, false, 0, 0));
    assert!(has_input(true, true, false, 0, 0));
    assert!(has_input(true, false, true, 0, 0));
    assert!(!has_input(false, true, true, 0, 0));
    assert!(has_input(false, false, false, 1, 0));
    assert!(has_input(false, false, false, 0, 1));
    assert!(!anything_waits(0, 0, 0));
    for (direct, standard, replies) in [(1, 0, 0), (0, 1, 0), (0, 0, 1)] {
        assert!(anything_waits(direct, standard, replies));
    }
}

#[test]
fn accepting_is_bounded_per_tick_and_in_all() {
    assert!(may_accept(0, 0, true));
    assert!(!may_accept(0, 0, false));
    assert!(may_accept(MAX_ACCEPTS_PER_TICK - 1, MAX_PENDING_CONNECTIONS - 1, true));
    assert!(!may_accept(MAX_ACCEPTS_PER_TICK, 0, true));
    assert!(!may_accept(0, MAX_PENDING_CONNECTIONS, true));
    assert_eq!(accept_failed(SocketStatus::Interrupted), Ok(()));
    assert_eq!(
        accept_failed(SocketStatus::WrongSocket),
        Err(AuthDaemonError::Listener)
    );
}

#[test]
fn shutdown_begins_once_and_ends_within_its_grace() {
    let mut events = EventLoop::new();
    let start = events.begin_tick(false, Duration::from_secs(1));
    assert!(!start.shutdown_begins);
    assert!(start.accepting);
    assert!(matches!(
        events.end_tick(Duration::from_secs(1), false, false),
        TickEnd::Sleep
    ));
    let start = events.begin_tick(true, Duration::from_secs(5));
    assert!(start.shutdown_begins);
    assert!(!start.accepting);
    let start = events.begin_tick(true, Duration::from_secs(6));
    assert!(!start.shutdown_begins);
    assert!(!start.accepting);
    assert!(matches!(events.end_tick(Duration::from_secs(6), true, false), TickEnd::Sleep));
    assert!(matches!(events.end_tick(Duration::from_secs(6), false, true), TickEnd::Sleep));
    assert!(matches!(events.end_tick(Duration::from_secs(6), false, false), TickEnd::Exit));
    assert!(matches!(
        events.end_tick(Duration::from_secs(7), true, false),
        TickEnd::ShutdownExpired
    ));
}

#[test]
fn ticks_follow_the_scheduler_decision() {
    let mut scheduler = service();
    let (_run, _completion) = direct_run(&mut scheduler, false);
    assert!(matches!(
        decide_tick(scheduler.decide(Duration::from_secs(1), false), true, false),
        Ok(LoopAction::GoOn)
    ));
    let cancel = scheduler.decide(Duration::from_secs(900), false);
    assert!(matches!(cancel, LifecycleDecision::Cancel(_)));
    assert!(matches!(decide_tick(cancel, true, false), Ok(LoopAction::CancelActive)));
    assert!(matches!(
        decide_tick(LifecycleDecision::ExitIdle, false, false),
        Ok(LoopAction::Exit)
    ));
    assert!(matches!(
        decide_tick(LifecycleDecision::ExitIdle, false, true),
        Ok(LoopAction::GoOn)
    ));
    assert!(matches!(
        decide_tick(LifecycleDecision::Terminate, false, false),
        Err(AuthDaemonError::Scheduler)
    ));
}

#[test]
fn direct_connections_are_kept_answered_or_forgotten() {
    assert!(matches!(
        direct_received(Ok(BrokerSocketDispatch::Pending(BrokerSocketConnection::new(3)))),
        DirectFollowUp::Keep(connection) if *connection.descriptor() == 3
    ));
    assert!(matches!(
        direct_received::<u8>(Ok(BrokerSocketDispatch::Closed)),
        DirectFollowUp::Drop
    ));
    assert!(matches!(
        direct_received(Ok(BrokerSocketDispatch::Reply(
            BrokerSocketConnection::new(3).reply(Response::Busy)
        ))),
        DirectFollowUp::Reply(reply) if reply.response() == Response::Busy
    ));
    assert!(matches!(
        direct_received::<u8>(Ok(BrokerSocketDispatch::Terminate)),
        DirectFollowUp::Fatal(AuthDaemonError::Scheduler)
    ));
    assert!(matches!(
        direct_received::<u8>(Err(BrokerSocketError(SocketStatus::Receive))),
        DirectFollowUp::Drop
    ));
}

#[test]
fn standard_connections_keep_their_deadlines() {
    let now = Duration::from_secs(1);
    let mut deadlines = StandardDeadlines::accepted(now);
    assert_eq!(deadlines.request, Some(Duration::from_millis(1_250)));
    assert_eq!(deadlines.reply, None);
    assert!(matches!(deadlines.service(false, now), StandardService::Receive));
    assert!(matches!(deadlines.service(true, now), StandardService::Keep));
    assert!(matches!(
        deadlines.service(false, Duration::from_millis(1_250)),
        StandardService::Drop
    ));
    assert!(matches!(
        deadlines.received(ConnectionEvent::Pending, now),
        Ok(StandardFollowUp::Keep)
    ));
    assert!(matches!(
        deadlines.received(ConnectionEvent::ReplyQueued, now),
        Ok(StandardFollowUp::Keep)
    ));
    assert_eq!(deadlines.request, None);
    assert_eq!(deadlines.reply, Some(Duration::from_millis(1_250)));
    assert!(matches!(deadlines.flush(true, now), FlushDecision::Try));
    assert!(deadlines.flushed(Ok(false)));
    assert!(deadlines.reply.is_some());
    assert!(!StandardDeadlines::replying(now).flushed(Err(SocketStatus::Send)));
    assert!(matches!(
        deadlines.received(ConnectionEvent::Closed, now),
        Ok(StandardFollowUp::Drop)
    ));
    assert!(matches!(
        deadlines.received(ConnectionEvent::Start, now),
        Ok(StandardFollowUp::Start)
    ));
    assert!(matches!(
        deadlines.received(ConnectionEvent::Terminate, now),
        Err(AuthDaemonError::Scheduler)
    ));
}

#[test]
fn ticks_run_their_phases_in_order() {
    let mut phase = TickPhase::first(false);
    assert!(matches!(phase, TickPhase::ObserveDisconnect));
    let mut count = 0;
    while !matches!(phase, TickPhase::End) {
        phase = phase.next();
        count += 1;
    }
    assert_eq!(count, 7);
    assert!(matches!(TickPhase::first(true), TickPhase::AcceptDirect));
}

#[test]
fn daemon_messages_are_exact() {
    for (error, message) in [
        (AuthDaemonError::Activation, "authentication broker activation failed"),
        (AuthDaemonError::Lifecycle, "authentication broker lifecycle failed"),
        (AuthDaemonError::Listener, "authentication broker listener failed"),
        (AuthDaemonError::Scheduler, "authentication broker authority became uncertain"),
        (AuthDaemonError::WorkerLost, "authentication broker worker was lost"),
        (AuthDaemonError::Shutdown, "authentication broker shutdown did not complete"),
    ] {
        assert_eq!(error.message(), message);
    }
}
