use std::collections::VecDeque;
use t1_daemons::auth_client::{
    map_connect_error, Exchange, ExchangeAction, ExchangeStep, TouchIdClientError, TouchIdCommand,
    REPLY_MARGIN_SECS, RETRY_WAIT_MILLIS,
};
use t1_daemons::auth_protocol::{Request, Response, RESPONSE_SIZE};
use t1_daemons::auth_scheduler::{enrollment_operation_timeout, operation_timeout};
use t1_daemons::auth_socket::SocketStatus;
use t1_daemons::time::Duration;

enum ReceiveStep {
    Packet(Vec<u8>),
    Error(SocketStatus),
    InvalidLength(usize),
}

struct FakeTransport {
    send_steps: VecDeque<Result<(), SocketStatus>>,
    receive_steps: VecDeque<ReceiveStep>,
    sent: Vec<Vec<u8>>,
}

impl FakeTransport {
    fn reply(packet: &[u8]) -> Self {
        Self {
            send_steps: [Ok(())].into_iter().collect(),
            receive_steps: [ReceiveStep::Packet(packet.to_vec())].into_iter().collect(),
            sent: Vec::new(),
        }
    }
}

impl FakeTransport {
    fn send(&mut self, packet: &[u8]) -> Result<(), SocketStatus> {
        self.sent.push(packet.to_vec());
        self.send_steps.pop_front().expect("scripted send")
    }

    fn receive(&mut self, buffer: &mut [u8]) -> Result<usize, SocketStatus> {
        match self.receive_steps.pop_front().expect("scripted receive") {
            ReceiveStep::Packet(packet) => {
                assert!(packet.len() <= buffer.len());
                buffer[..packet.len()].copy_from_slice(&packet);
                Ok(packet.len())
            }
            ReceiveStep::Error(error) => Err(error),
            ReceiveStep::InvalidLength(length) => Ok(length),
        }
    }
}

struct FakeRuntime {
    now: Duration,
    waits: Vec<Duration>,
}

impl FakeRuntime {
    fn default() -> Self {
        Self { now: Duration::zero(), waits: Vec::new() }
    }

    fn now(&self) -> Duration {
        self.now
    }

    fn wait(&mut self, duration: Duration) {
        self.waits.push(duration);
        self.now = self.now.checked_add(duration).unwrap();
    }
}

fn exchange(
    transport: &mut FakeTransport,
    runtime: &mut FakeRuntime,
    command: TouchIdCommand,
    watchdog: Duration,
) -> Result<(), TouchIdClientError> {
    let mut exchange = Exchange::begin(command, runtime.now(), watchdog)?;
    loop {
        let step = match exchange.poll(runtime.now())? {
            ExchangeAction::Send => {
                let outcome = transport.send(&exchange.packet());
                exchange.sent(outcome, runtime.now())
            }
            ExchangeAction::Receive => {
                let mut buffer = [0; RESPONSE_SIZE];
                let outcome = transport.receive(&mut buffer);
                exchange.received(outcome, &buffer, runtime.now())
            }
        };
        match step {
            ExchangeStep::Attempt(next) => exchange = next,
            ExchangeStep::Wait(pause, next) => {
                runtime.wait(pause);
                exchange = next;
            }
            ExchangeStep::Done(result) => return result,
        }
    }
}

fn watchdog_after(budget: Duration) -> Duration {
    budget.checked_add(Duration::from_secs(REPLY_MARGIN_SECS)).unwrap()
}

#[test]
fn parses_only_the_three_product_commands() {
    assert_eq!(
        TouchIdCommand::parse(b"enroll"),
        Some(TouchIdCommand::Enroll)
    );
    assert_eq!(
        TouchIdCommand::parse(b"authenticate"),
        Some(TouchIdCommand::Authenticate)
    );
    assert_eq!(
        TouchIdCommand::parse(b"approve"),
        Some(TouchIdCommand::Approve)
    );
    assert_eq!(TouchIdCommand::parse(b"cancel"), None);
    assert_eq!(TouchIdCommand::parse(&[0xff]), None);
}

#[test]
fn each_command_sends_its_exact_typed_request_and_accepts_only_okay() {
    for (command, request) in [
        (TouchIdCommand::Enroll, Request::Enroll),
        (TouchIdCommand::Authenticate, Request::Authenticate),
        (TouchIdCommand::Approve, Request::Approve),
    ] {
        let mut transport = FakeTransport::reply(&Response::Okay.encode());
        let mut runtime = FakeRuntime::default();
        assert_eq!(
            exchange(
                &mut transport,
                &mut runtime,
                command,
                command.watchdog().unwrap()
            ),
            Ok(())
        );
        assert_eq!(transport.sent, [request.encode()]);
    }
}

#[test]
fn watchdogs_match_broker_budgets_with_one_reply_margin() {
    assert_eq!(
        TouchIdCommand::Enroll.watchdog(),
        Ok(watchdog_after(enrollment_operation_timeout()))
    );
    assert_eq!(
        TouchIdCommand::Authenticate.watchdog(),
        Ok(watchdog_after(operation_timeout()))
    );
    assert_eq!(
        TouchIdCommand::Approve.watchdog(),
        Ok(watchdog_after(operation_timeout()))
    );
}

#[test]
fn exact_non_success_responses_are_typed_failures() {
    for (response, expected) in [
        (Response::Denied, TouchIdClientError::Denied),
        (Response::Busy, TouchIdClientError::Busy),
        (Response::Failure, TouchIdClientError::BrokerFailure),
    ] {
        let mut transport = FakeTransport::reply(&response.encode());
        assert_eq!(
            exchange(
                &mut transport,
                &mut FakeRuntime::default(),
                TouchIdCommand::Authenticate,
                Duration::from_secs(1),
            ),
            Err(expected)
        );
    }
}

#[test]
fn malformed_short_oversized_and_truncated_responses_fail_closed() {
    let scenarios = [
        ReceiveStep::Packet(b"OK".to_vec()),
        ReceiveStep::Packet(b"NOPE".to_vec()),
        ReceiveStep::InvalidLength(RESPONSE_SIZE + 1),
        ReceiveStep::Error(SocketStatus::Truncated),
    ];
    for scenario in scenarios {
        let mut transport = FakeTransport {
            send_steps: [Ok(())].into_iter().collect(),
            receive_steps: [scenario].into_iter().collect(),
            sent: Vec::new(),
        };
        assert_eq!(
            exchange(
                &mut transport,
                &mut FakeRuntime::default(),
                TouchIdCommand::Approve,
                Duration::from_secs(1),
            ),
            Err(TouchIdClientError::InvalidResponse)
        );
    }
}

#[test]
fn transient_send_and_receive_states_retry_without_changing_payload() {
    let mut transport = FakeTransport {
        send_steps: [
            Err(SocketStatus::WouldBlock),
            Err(SocketStatus::Interrupted),
            Ok(()),
        ]
        .into_iter()
        .collect(),
        receive_steps: [
            ReceiveStep::Error(SocketStatus::WouldBlock),
            ReceiveStep::Error(SocketStatus::Interrupted),
            ReceiveStep::Packet(Response::Okay.encode().to_vec()),
        ]
        .into_iter()
        .collect(),
        sent: Vec::new(),
    };
    let mut runtime = FakeRuntime::default();
    assert_eq!(
        exchange(
            &mut transport,
            &mut runtime,
            TouchIdCommand::Enroll,
            Duration::from_secs(1),
        ),
        Ok(())
    );
    assert_eq!(transport.sent, [Request::Enroll.encode(); 3]);
    assert_eq!(runtime.waits, [Duration::from_millis(RETRY_WAIT_MILLIS); 4]);
}

#[test]
fn one_deadline_bounds_send_and_receive_together() {
    let mut transport = FakeTransport {
        send_steps: [Ok(())].into_iter().collect(),
        receive_steps: [
            ReceiveStep::Error(SocketStatus::WouldBlock),
            ReceiveStep::Error(SocketStatus::WouldBlock),
            ReceiveStep::Error(SocketStatus::WouldBlock),
        ]
        .into_iter()
        .collect(),
        sent: Vec::new(),
    };
    let mut runtime = FakeRuntime::default();
    assert_eq!(
        exchange(
            &mut transport,
            &mut runtime,
            TouchIdCommand::Authenticate,
            Duration::from_millis(25),
        ),
        Err(TouchIdClientError::DeadlineExceeded)
    );
    assert_eq!(runtime.now, Duration::from_millis(25));
    assert_eq!(
        runtime.waits,
        [
            Duration::from_millis(10),
            Duration::from_millis(10),
            Duration::from_millis(5),
        ]
    );
}

#[test]
fn permanent_transport_failures_remain_stage_specific() {
    let mut send_failure = FakeTransport {
        send_steps: [Err(SocketStatus::Send)].into_iter().collect(),
        receive_steps: VecDeque::new(),
        sent: Vec::new(),
    };
    assert_eq!(
        exchange(
            &mut send_failure,
            &mut FakeRuntime::default(),
            TouchIdCommand::Authenticate,
            Duration::from_secs(1),
        ),
        Err(TouchIdClientError::SendFailed)
    );

    let mut receive_failure = FakeTransport {
        send_steps: [Ok(())].into_iter().collect(),
        receive_steps: [ReceiveStep::Error(SocketStatus::Receive)]
            .into_iter()
            .collect(),
        sent: Vec::new(),
    };
    assert_eq!(
        exchange(
            &mut receive_failure,
            &mut FakeRuntime::default(),
            TouchIdCommand::Authenticate,
            Duration::from_secs(1),
        ),
        Err(TouchIdClientError::ReceiveFailed)
    );
}

#[test]
fn connection_failures_tell_distrust_from_absence() {
    assert_eq!(
        map_connect_error(SocketStatus::PeerDenied),
        TouchIdClientError::UntrustedBroker
    );
    assert_eq!(
        map_connect_error(SocketStatus::Credentials),
        TouchIdClientError::UntrustedBroker
    );
    for status in [
        SocketStatus::WouldBlock,
        SocketStatus::Interrupted,
        SocketStatus::PeerClosed,
        SocketStatus::Truncated,
        SocketStatus::WrongSocket,
        SocketStatus::Send,
        SocketStatus::Receive,
        SocketStatus::Other,
    ] {
        assert_eq!(map_connect_error(status), TouchIdClientError::BrokerUnavailable);
    }
}

#[test]
fn budgets_and_margins_are_exact() {
    assert_eq!(REPLY_MARGIN_SECS, 35);
    assert_eq!(RETRY_WAIT_MILLIS, 10);
    assert_eq!(TouchIdCommand::Enroll.watchdog(), Ok(Duration::from_secs(935)));
    assert_eq!(TouchIdCommand::Approve.watchdog(), Ok(Duration::from_secs(100)));
}

#[test]
fn a_deadline_beyond_the_clock_is_an_exceeded_deadline() {
    assert!(matches!(
        Exchange::begin(TouchIdCommand::Enroll, Duration::max(), Duration::from_nanos(1)),
        Err(TouchIdClientError::DeadlineExceeded)
    ));
}

#[test]
fn client_messages_are_exact() {
    for (error, message) in [
        (TouchIdClientError::InvalidCommand, "expected enroll, authenticate, or approve"),
        (TouchIdClientError::BrokerUnavailable, "Touch ID broker is unavailable"),
        (TouchIdClientError::UntrustedBroker, "Touch ID broker identity could not be verified"),
        (TouchIdClientError::DeadlineExceeded, "Touch ID request timed out"),
        (TouchIdClientError::SendFailed, "Touch ID request could not be sent"),
        (TouchIdClientError::ReceiveFailed, "Touch ID response could not be received"),
        (TouchIdClientError::InvalidResponse, "Touch ID broker returned an invalid response"),
        (TouchIdClientError::Denied, "Touch ID request was denied"),
        (TouchIdClientError::Busy, "Touch ID broker is busy"),
        (TouchIdClientError::BrokerFailure, "Touch ID operation failed"),
    ] {
        assert_eq!(error.message(), message);
    }
}
