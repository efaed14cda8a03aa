use std::cell::Cell;
use t1_daemons::auth_feedback::{AuthenticationFeedback, FeedbackAction};
use t1_daemons::auth_protocol::{AccessPolicy, PeerAddressFamily, Purpose, Response, ROOT_UID};
use t1_daemons::auth_scheduler::{BrokerServiceScheduler, LifecycleDecision, ScheduledDispatch};
use t1_daemons::auth_socket::{
    identify_peer, local_peer, observe_disconnect_result, ActiveBrokerSocketSession,
    BrokerReplyProgress, BrokerSocketConnection, BrokerSocketDispatch, BrokerSocketError,
    CoreDispatch, DisconnectObservation, PeerCredentials, PeerStep, PolicyStep, SocketStatus,
    REQUEST_CAPACITY,
};
use t1_daemons::biometric::MatchOutcome;
use t1_daemons::enrollment_owner::EnrollmentOwnerError;
use t1_daemons::time::Duration;

const AUTHENTICATE_REQUEST: &[u8; 8] = b"T1AUTH\x01\n";
const ENROLL_REQUEST: &[u8; 8] = b"T1ENRL\x01\n";
const CANCEL_REQUEST: &[u8; 8] = b"T1CNCL\x01\n";

const INTERACTIVE_USER: u32 = 42_000;

#[derive(Default)]
struct FakeFeedback(Vec<FeedbackAction>);

impl AuthenticationFeedback for FakeFeedback {
    type Error = core::convert::Infallible;

    fn apply(&mut self, action: FeedbackAction) -> Result<(), Self::Error> {
        self.0.push(action);
        Ok(())
    }
}

fn policy() -> AccessPolicy {
    AccessPolicy::new(INTERACTIVE_USER).unwrap()
}

fn valid_policy() -> Result<AccessPolicy, EnrollmentOwnerError> {
    AccessPolicy::new(INTERACTIVE_USER).map_err(|_| EnrollmentOwnerError::CorruptState)
}

fn service() -> BrokerServiceScheduler {
    match BrokerServiceScheduler::new(1, now(), Duration::from_secs(30)) {
        Ok(service) => service,
        Err(_) => panic!("valid service policy"),
    }
}

fn credentials(user_id: u32) -> PeerCredentials {
    PeerCredentials {
        process_id: 777,
        user_id,
        group_id: 42_001,
    }
}

fn now() -> Duration {
    Duration::from_secs(10)
}

fn dispatch_connection(
    credentials: Result<PeerCredentials, SocketStatus>,
    policy: impl FnOnce() -> Result<AccessPolicy, EnrollmentOwnerError>,
    receive: impl FnOnce(&mut [u8; 8]) -> Result<usize, SocketStatus>,
    service: &mut BrokerServiceScheduler,
    now: Duration,
) -> Result<CoreDispatch, BrokerSocketError> {
    let peer = match identify_peer(credentials) {
        PeerStep::ReadPolicy(peer) => peer,
        PeerStep::Reply(response) => return Ok(CoreDispatch::Reply(response)),
        PeerStep::Failed(error) => return Err(error),
    };
    let peer = match peer.policy_read(policy()) {
        PolicyStep::Receive(peer) => peer,
        PolicyStep::Reply(response) => return Ok(CoreDispatch::Reply(response)),
    };
    let mut buffer = [0; REQUEST_CAPACITY];
    let outcome = receive(&mut buffer);
    peer.received(outcome, &buffer, service, now)
}

fn packet_receive(
    packet: &'static [u8],
) -> impl FnOnce(&mut [u8; 8]) -> Result<usize, SocketStatus> {
    move |buffer| {
        buffer[..packet.len()].copy_from_slice(packet);
        Ok(packet.len())
    }
}

#[test]
fn maps_only_kernel_credential_fields_used_by_policy() {
    let metadata = local_peer(PeerCredentials {
        process_id: 777,
        user_id: INTERACTIVE_USER,
        group_id: 42_001,
    });
    assert_eq!(metadata.address_family, PeerAddressFamily::Local);
    assert_eq!(metadata.user_id, INTERACTIVE_USER);
    assert_eq!(metadata.group_id, 42_001);
    assert!(policy().peer_is_authorized(metadata));
    assert!(!metadata.diagnostic().contains("42000"));
    assert!(!metadata.diagnostic().contains("777"));
}

#[test]
fn listener_and_connection_reject_the_wrong_socket_type() {
    let mut service = service();
    assert!(matches!(
        dispatch_connection(
            Err(SocketStatus::WrongSocket),
            valid_policy,
            |_| unreachable!("wrong socket cannot receive"),
            &mut service,
            now(),
        ),
        Err(BrokerSocketError(SocketStatus::WrongSocket))
    ));
}

#[test]
fn owned_reply_state_is_exact_and_diagnostics_are_payload_free() {
    let reply = BrokerSocketConnection::new(4).reply(Response::Denied);
    assert_eq!(reply.response(), Response::Denied);
    assert_eq!(reply.response().encode(), *b"DENY");
    let rendered = format!(
        "{} {:?}",
        reply.diagnostic(),
        BrokerSocketError(SocketStatus::Receive)
    );
    assert!(!rendered.contains('/'));
    assert!(!rendered.contains("42000"));
}

#[test]
fn different_recorded_owner_is_denied_before_enrollment_packet_receive() {
    let receive_called = Cell::new(false);
    let mut service = service();
    let dispatch = dispatch_connection(
        Ok(credentials(INTERACTIVE_USER + 1)),
        valid_policy,
        |_| {
            receive_called.set(true);
            Ok(0)
        },
        &mut service,
        now(),
    )
    .unwrap();
    assert!(!receive_called.get());
    assert!(matches!(dispatch, CoreDispatch::Reply(Response::Denied)));
}

#[test]
fn unavailable_owner_state_fails_before_receive_or_scheduler_mutation() {
    for error in [
        EnrollmentOwnerError::UnsafeStorage,
        EnrollmentOwnerError::CorruptState,
        EnrollmentOwnerError::StorageUnavailable,
    ] {
        let receive_called = Cell::new(false);
        let mut service = service();
        let dispatch = dispatch_connection(
            Ok(credentials(INTERACTIVE_USER)),
            || Err(error),
            |_| {
                receive_called.set(true);
                Ok(0)
            },
            &mut service,
            now(),
        )
        .unwrap();
        assert!(!receive_called.get());
        assert!(matches!(dispatch, CoreDispatch::Reply(Response::Failure)));

        let CoreDispatch::Start(active) = dispatch_connection(
            Ok(credentials(INTERACTIVE_USER)),
            valid_policy,
            packet_receive(AUTHENTICATE_REQUEST),
            &mut service,
            now(),
        )
        .unwrap() else {
            panic!("owner-state failure must leave the scheduler idle")
        };
        assert_eq!(service.abandon(&active, now()), Response::Failure);
    }
}

#[test]
fn missing_owner_admits_one_candidate_with_busy_and_root_cancel_authority() {
    let mut broker = service();
    let mut wrong_version = *ENROLL_REQUEST;
    wrong_version[6] = 2;
    assert!(matches!(
        dispatch_connection(
            Ok(credentials(INTERACTIVE_USER)),
            || Err(EnrollmentOwnerError::MissingOwner),
            move |buffer| {
                buffer.copy_from_slice(&wrong_version);
                Ok(wrong_version.len())
            },
            &mut broker,
            now(),
        )
        .unwrap(),
        CoreDispatch::Reply(Response::Denied)
    ));

    let CoreDispatch::Start(enrollment) = dispatch_connection(
        Ok(credentials(INTERACTIVE_USER)),
        || Err(EnrollmentOwnerError::MissingOwner),
        packet_receive(ENROLL_REQUEST),
        &mut broker,
        now(),
    )
    .unwrap() else {
        panic!("exact missing-owner enrollment starts")
    };
    assert_eq!(enrollment.authentication().purpose(), Purpose::Enrollment);
    assert_eq!(
        enrollment
            .authentication()
            .enrollment_owner_candidate()
            .expect("candidate is carried into scheduled work")
            .user_id(),
        INTERACTIVE_USER
    );

    assert!(matches!(
        dispatch_connection(
            Ok(credentials(INTERACTIVE_USER + 1)),
            || Err(EnrollmentOwnerError::MissingOwner),
            packet_receive(ENROLL_REQUEST),
            &mut broker,
            now(),
        )
        .unwrap(),
        CoreDispatch::Reply(Response::Busy)
    ));
    assert!(matches!(
        dispatch_connection(
            Ok(credentials(INTERACTIVE_USER)),
            || Err(EnrollmentOwnerError::MissingOwner),
            packet_receive(AUTHENTICATE_REQUEST),
            &mut broker,
            now(),
        )
        .unwrap(),
        CoreDispatch::Reply(Response::Failure)
    ));
    assert!(matches!(
        dispatch_connection(
            Ok(credentials(ROOT_UID)),
            || Err(EnrollmentOwnerError::MissingOwner),
            packet_receive(ENROLL_REQUEST),
            &mut broker,
            now(),
        )
        .unwrap(),
        CoreDispatch::Reply(Response::Denied)
    ));
    assert!(matches!(
        dispatch_connection(
            Ok(credentials(ROOT_UID)),
            || Err(EnrollmentOwnerError::MissingOwner),
            packet_receive(CANCEL_REQUEST),
            &mut broker,
            now(),
        )
        .unwrap(),
        CoreDispatch::Reply(Response::Okay)
    ));
    assert!(enrollment.authentication().is_cancelled(broker.coordinator()));
    assert_eq!(broker.abandon(&enrollment, now()), Response::Failure);
}

#[test]
fn root_cancellation_survives_owner_storage_failure_without_starting_work() {
    let mut broker = service();
    let CoreDispatch::Start(scheduled) = dispatch_connection(
        Ok(credentials(INTERACTIVE_USER)),
        valid_policy,
        packet_receive(AUTHENTICATE_REQUEST),
        &mut broker,
        now(),
    )
    .unwrap() else {
        panic!("authenticated request must start")
    };

    assert!(matches!(
        dispatch_connection(
            Ok(credentials(ROOT_UID)),
            || Err(EnrollmentOwnerError::StorageUnavailable),
            packet_receive(CANCEL_REQUEST),
            &mut broker,
            now(),
        )
        .unwrap(),
        CoreDispatch::Reply(Response::Okay)
    ));
    assert!(scheduled.authentication().is_cancelled(broker.coordinator()));
    assert_eq!(broker.abandon(&scheduled, now()), Response::Failure);

    for (packet, expected) in [
        (CANCEL_REQUEST.as_slice(), Response::Denied),
        (AUTHENTICATE_REQUEST.as_slice(), Response::Failure),
        (b"BADREQ!\n".as_slice(), Response::Denied),
    ] {
        let mut idle = service();
        assert!(matches!(
            dispatch_connection(
                Ok(credentials(ROOT_UID)),
                || Err(EnrollmentOwnerError::MissingOwner),
                move |buffer| {
                    buffer[..packet.len()].copy_from_slice(packet);
                    Ok(packet.len())
                },
                &mut idle,
                now(),
            )
            .unwrap(),
            CoreDispatch::Reply(response) if response == expected
        ));
    }
}

#[test]
fn exact_packets_share_busy_cancel_and_disconnect_authority() {
    let mut service = service();
    let CoreDispatch::Start(scheduled) = dispatch_connection(
        Ok(credentials(INTERACTIVE_USER)),
        valid_policy,
        packet_receive(AUTHENTICATE_REQUEST),
        &mut service,
        now(),
    )
    .unwrap() else {
        panic!("authenticated request must start");
    };

    assert!(matches!(
        dispatch_connection(
            Ok(credentials(INTERACTIVE_USER)),
            valid_policy,
            packet_receive(AUTHENTICATE_REQUEST),
            &mut service,
            now(),
        )
        .unwrap(),
        CoreDispatch::Reply(Response::Busy)
    ));
    assert!(matches!(
        dispatch_connection(
            Ok(credentials(0)),
            valid_policy,
            packet_receive(CANCEL_REQUEST),
            &mut service,
            now(),
        )
        .unwrap(),
        CoreDispatch::Reply(Response::Okay)
    ));
    assert!(scheduled.authentication().is_cancelled(service.coordinator()));
    assert_eq!(
        observe_disconnect_result(Ok(true), &mut service, &scheduled),
        DisconnectObservation::CancellationDelivered
    );
    assert_eq!(service.abandon(&scheduled, now()), Response::Failure);
    assert_eq!(
        observe_disconnect_result(Err(SocketStatus::Receive), &mut service, &scheduled),
        DisconnectObservation::OperationInactive
    );
}

#[test]
fn owned_active_session_routes_the_exact_deadline_and_retains_its_reply() {
    let mut service = service();
    let CoreDispatch::Start(scheduled) = dispatch_connection(
        Ok(credentials(INTERACTIVE_USER)),
        valid_policy,
        packet_receive(AUTHENTICATE_REQUEST),
        &mut service,
        now(),
    )
    .unwrap() else {
        panic!("authenticated request must start")
    };
    let deadline = scheduled.deadline();
    assert_eq!(deadline, Duration::from_secs(10 + 65));
    assert!(service.decide(deadline, false) == LifecycleDecision::Cancel(scheduled.lease()));

    let active = ActiveBrokerSocketSession::new(4, scheduled);
    assert_eq!(active.deadline(), deadline);
    assert!(active.deadline_expired(&mut service));
    assert!(active.authentication().is_cancelled(service.coordinator()));
    let reply = active.abandon(&mut service, deadline);
    assert_eq!(reply.response(), Response::Failure);
}

#[test]
fn owned_active_session_retains_reply_while_feedback_finalizes_exact_work() {
    let mut service = service();
    let CoreDispatch::Start(scheduled) = dispatch_connection(
        Ok(credentials(INTERACTIVE_USER)),
        valid_policy,
        packet_receive(AUTHENTICATE_REQUEST),
        &mut service,
        now(),
    )
    .unwrap() else {
        panic!("authenticated request must start")
    };
    let completion = scheduled.authentication().completion_for_worker(Ok(MatchOutcome::Matched));
    let active = ActiveBrokerSocketSession::new(4, scheduled);
    let mut feedback = FakeFeedback::default();

    let reply =
        active.finish_with_feedback(&mut service, &completion, Some(&mut feedback), now());

    assert_eq!(reply.response(), Response::Okay);
    assert_eq!(
        feedback.0,
        [
            FeedbackAction::ShowSuccess,
            FeedbackAction::PauseAfterSuccess
        ]
    );
    assert!(matches!(
        service.dispatch(
            local_peer(credentials(INTERACTIVE_USER)),
            policy(),
            AUTHENTICATE_REQUEST,
            now()
        ),
        ScheduledDispatch::Start(_)
    ));
}

#[test]
fn bounded_receive_states_are_explicit_and_fail_closed() {
    for (receive, expected) in [
        (SocketStatus::WouldBlock, "pending"),
        (SocketStatus::Interrupted, "pending"),
        (SocketStatus::PeerClosed, "closed"),
        (SocketStatus::Truncated, "denied"),
    ] {
        let mut service = service();
        let dispatch = dispatch_connection(
            Ok(credentials(INTERACTIVE_USER)),
            valid_policy,
            |_| Err(receive),
            &mut service,
            now(),
        )
        .unwrap();
        assert!(matches!(
            (dispatch, expected),
            (CoreDispatch::Pending, "pending")
                | (CoreDispatch::Closed, "closed")
                | (CoreDispatch::Reply(Response::Denied), "denied")
        ));
    }

    let mut service = service();
    assert!(matches!(
        dispatch_connection(
            Ok(credentials(INTERACTIVE_USER)),
            valid_policy,
            |_| Ok(REQUEST_CAPACITY + 1),
            &mut service,
            now(),
        )
        .unwrap(),
        CoreDispatch::Reply(Response::Denied)
    ));
}

#[test]
fn scheduler_termination_is_not_downgraded_to_a_wire_reply() {
    let mut service = match BrokerServiceScheduler::new(1, Duration::max(), Duration::from_secs(30)) {
        Ok(service) => service,
        Err(_) => panic!("valid service policy"),
    };
    assert!(matches!(
        dispatch_connection(
            Ok(credentials(INTERACTIVE_USER)),
            valid_policy,
            packet_receive(AUTHENTICATE_REQUEST),
            &mut service,
            Duration::max(),
        )
        .unwrap(),
        CoreDispatch::Terminate
    ));
}

#[test]
fn replies_are_kept_until_they_are_sent() {
    let reply = BrokerSocketConnection::new(9).reply(Response::Busy);
    let BrokerReplyProgress::Pending(reply) =
        reply.try_send(Err(SocketStatus::WouldBlock)).unwrap()
    else {
        panic!("a blocked reply is kept")
    };
    let BrokerReplyProgress::Pending(reply) =
        reply.try_send(Err(SocketStatus::Interrupted)).unwrap()
    else {
        panic!("an interrupted reply is kept")
    };
    assert_eq!(reply.descriptor(), &9);
    assert!(matches!(
        reply.try_send(Ok(())),
        Ok(BrokerReplyProgress::Sent(Response::Busy))
    ));
    let reply = BrokerSocketConnection::new(9).reply(Response::Busy);
    assert!(matches!(
        reply.try_send(Err(SocketStatus::Send)),
        Err(BrokerSocketError(SocketStatus::Send))
    ));
}

#[test]
fn connections_follow_the_decision_on_their_packet() {
    let connection = || BrokerSocketConnection::new(5);
    assert!(matches!(
        connection().receive_and_dispatch(CoreDispatch::Pending),
        BrokerSocketDispatch::Pending(kept) if *kept.descriptor() == 5
    ));
    assert!(matches!(
        connection().receive_and_dispatch(CoreDispatch::Closed),
        BrokerSocketDispatch::Closed
    ));
    assert!(matches!(
        connection().receive_and_dispatch(CoreDispatch::Reply(Response::Denied)),
        BrokerSocketDispatch::Reply(reply) if reply.response() == Response::Denied
    ));
    assert!(matches!(
        connection().receive_and_dispatch(CoreDispatch::Terminate),
        BrokerSocketDispatch::Terminate
    ));
    let mut broker = service();
    let started = dispatch_connection(
        Ok(credentials(INTERACTIVE_USER)),
        valid_policy,
        packet_receive(ENROLL_REQUEST),
        &mut broker,
        now(),
    )
    .unwrap();
    let BrokerSocketDispatch::Start(session) = connection().receive_and_dispatch(started) else {
        panic!("enrollment starts")
    };
    assert_eq!(session.deadline(), Duration::from_secs(10 + 900));
    assert!(session.is_active_in(&broker));
    assert_eq!(
        session.observe_disconnect(Ok(false), &mut broker),
        DisconnectObservation::Connected
    );
    assert_eq!(
        session.observe_disconnect(Ok(true), &mut broker),
        DisconnectObservation::CancellationDelivered
    );
    assert!(session.worker_lost(&mut broker));
}

#[test]
fn unknown_credentials_are_answered_or_reported() {
    let mut broker = service();
    {
        assert!(matches!(
            dispatch_connection(
                Err(SocketStatus::Credentials),
                valid_policy,
                |_| panic!("an unidentified peer is not read"),
                &mut broker,
                now(),
            ),
            Ok(CoreDispatch::Reply(Response::Denied))
        ));
    }
    assert!(matches!(
        dispatch_connection(
            Ok(credentials(INTERACTIVE_USER)),
            valid_policy,
            |_| Err(SocketStatus::Receive),
            &mut broker,
            now(),
        ),
        Err(BrokerSocketError(SocketStatus::Receive))
    ));
}
