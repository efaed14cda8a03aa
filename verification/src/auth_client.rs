//! Fixed local client for direct Touch ID enrollment and matching.
//!
//! One exchange is a value that names the next piece of work: wait until the
//! socket can take the request, wait until it has the answer, or stop.

use crate::auth_protocol::{
    decode_response, decoded_response, Request, Response, RESPONSE_SIZE,
};
use crate::auth_scheduler::{
    enrollment_operation_timeout, operation_timeout, ENROLLMENT_OPERATION_TIMEOUT_SECS,
    OPERATION_TIMEOUT_SECS,
};
use crate::auth_socket::SocketStatus;
use crate::bytes::same_bytes;
use crate::time::{Duration, MAX_NANOS};
use vstd::prelude::*;

verus! {

/// Time granted beyond the operation for the broker's answer, in seconds.
pub const REPLY_MARGIN_SECS: u64 = 35;

/// Longest pause between two tries, in milliseconds.
pub const RETRY_WAIT_MILLIS: u64 = 10;

/// One exact operation supported by the direct local client.
#[derive(Clone, Copy, Debug, PartialEq, Eq, Structural)]
pub enum TouchIdCommand {
    Enroll,
    Authenticate,
    Approve,
}

impl TouchIdCommand {
    /// The command's word, in ASCII.
    pub open spec fn word(self) -> Seq<u8> {
        match self {
            TouchIdCommand::Enroll => seq![101u8, 110u8, 114u8, 111u8, 108u8, 108u8],
            TouchIdCommand::Authenticate => seq![
                97u8, 117u8, 116u8, 104u8, 101u8, 110u8, 116u8, 105u8, 99u8, 97u8, 116u8, 101u8,
            ],
            TouchIdCommand::Approve => seq![97u8, 112u8, 112u8, 114u8, 111u8, 118u8, 101u8],
        }
    }

    /// Decodes exactly one supported command-line operation: `enroll`,
    /// `authenticate` or `approve`.
    pub fn parse(argument: &[u8]) -> (r: Option<TouchIdCommand>)
        ensures
            forall|command: TouchIdCommand| r == Some(command) <==> argument@ == command.word(),
    {
        let enroll: [u8; 6] = [101, 110, 114, 111, 108, 108];
        let authenticate: [u8; 12] = [97, 117, 116, 104, 101, 110, 116, 105, 99, 97, 116, 101];
        let approve: [u8; 7] = [97, 112, 112, 114, 111, 118, 101];
        proof {
            assert(enroll@ =~= TouchIdCommand::Enroll.word());
            assert(authenticate@ =~= TouchIdCommand::Authenticate.word());
            assert(approve@ =~= TouchIdCommand::Approve.word());
        }
        if same_bytes(argument, enroll.as_slice()) {
            Some(TouchIdCommand::Enroll)
        } else if same_bytes(argument, authenticate.as_slice()) {
            Some(TouchIdCommand::Authenticate)
        } else if same_bytes(argument, approve.as_slice()) {
            Some(TouchIdCommand::Approve)
        } else {
            None
        }
    }

    /// The request the command sends.
    pub open spec fn requested(self) -> Request {
        match self {
            TouchIdCommand::Enroll => Request::Enroll,
            TouchIdCommand::Authenticate => Request::Authenticate,
            TouchIdCommand::Approve => Request::Approve,
        }
    }

    /// The request the command sends.
    pub fn request(self) -> (r: Request)
        ensures
            r == self.requested(),
    {
        match self {
            TouchIdCommand::Enroll => Request::Enroll,
            TouchIdCommand::Authenticate => Request::Authenticate,
            TouchIdCommand::Approve => Request::Approve,
        }
    }

    /// The broker's budget for the command, in seconds.
    pub open spec fn budget_secs(self) -> u64 {
        match self {
            TouchIdCommand::Enroll => ENROLLMENT_OPERATION_TIMEOUT_SECS,
            TouchIdCommand::Authenticate | TouchIdCommand::Approve => OPERATION_TIMEOUT_SECS,
        }
    }

    /// The broker's budget for the command.
    pub fn operation_timeout(self) -> (r: Duration)
        ensures
            r == Duration::of_seconds(self.budget_secs()),
    {
        match self {
            TouchIdCommand::Enroll => enrollment_operation_timeout(),
            TouchIdCommand::Authenticate | TouchIdCommand::Approve => operation_timeout(),
        }
    }

    /// The whole time the client waits: the broker's budget and one margin.
    pub fn watchdog(self) -> (r: Result<Duration, TouchIdClientError>)
        ensures
            r == Ok::<Duration, TouchIdClientError>(
                Duration::of_seconds((self.budget_secs() + REPLY_MARGIN_SECS) as u64),
            ),
    {
        match self.operation_timeout().checked_add(Duration::from_secs(REPLY_MARGIN_SECS)) {
            Some(watchdog) => Ok(watchdog),
            None => Err(TouchIdClientError::DeadlineExceeded),
        }
    }
}

/// Static, payload-free direct client failure.
#[derive(Clone, Copy, Debug, PartialEq, Eq, Structural)]
pub enum TouchIdClientError {
    InvalidCommand,
    BrokerUnavailable,
    UntrustedBroker,
    DeadlineExceeded,
    SendFailed,
    ReceiveFailed,
    InvalidResponse,
    Denied,
    Busy,
    BrokerFailure,
}

impl TouchIdClientError {
    /// The message, as text.
    pub open spec fn text(self) -> Seq<char> {
        match self {
            TouchIdClientError::InvalidCommand => "expected enroll, authenticate, or approve"@,
            TouchIdClientError::BrokerUnavailable => "Touch ID broker is unavailable"@,
            TouchIdClientError::UntrustedBroker => "Touch ID broker identity could not be verified"@,
            TouchIdClientError::DeadlineExceeded => "Touch ID request timed out"@,
            TouchIdClientError::SendFailed => "Touch ID request could not be sent"@,
            TouchIdClientError::ReceiveFailed => "Touch ID response could not be received"@,
            TouchIdClientError::InvalidResponse => "Touch ID broker returned an invalid response"@,
            TouchIdClientError::Denied => "Touch ID request was denied"@,
            TouchIdClientError::Busy => "Touch ID broker is busy"@,
            TouchIdClientError::BrokerFailure => "Touch ID operation failed"@,
        }
    }

    /// A fixed message.
    pub fn message(self) -> (message: &'static str)
        ensures
            message@ == self.text(),
    {
        match self {
            TouchIdClientError::InvalidCommand => "expected enroll, authenticate, or approve",
            TouchIdClientError::BrokerUnavailable => "Touch ID broker is unavailable",
            TouchIdClientError::UntrustedBroker => "Touch ID broker identity could not be verified",
            TouchIdClientError::DeadlineExceeded => "Touch ID request timed out",
            TouchIdClientError::SendFailed => "Touch ID request could not be sent",
            TouchIdClientError::ReceiveFailed => "Touch ID response could not be received",
            TouchIdClientError::InvalidResponse => "Touch ID broker returned an invalid response",
            TouchIdClientError::Denied => "Touch ID request was denied",
            TouchIdClientError::Busy => "Touch ID broker is busy",
            TouchIdClientError::BrokerFailure => "Touch ID operation failed",
        }
    }
}

/// The failure of connecting: an endpoint that did not prove its identity is
/// untrusted, every other failure leaves the broker unavailable.
pub fn map_connect_error(error: SocketStatus) -> (r: TouchIdClientError)
    ensures
        r == if error == SocketStatus::PeerDenied || error == SocketStatus::Credentials {
            TouchIdClientError::UntrustedBroker
        } else {
            TouchIdClientError::BrokerUnavailable
        },
{
    match error {
        SocketStatus::PeerDenied | SocketStatus::Credentials => TouchIdClientError::UntrustedBroker,
        _ => TouchIdClientError::BrokerUnavailable,
    }
}

/// What one exchange is waiting for.
#[derive(Clone, Copy, Debug, PartialEq, Eq, Structural)]
pub enum ExchangePhase {
    /// The request has not been sent yet.
    Sending,
    /// The request has been sent; the answer is awaited.
    Receiving,
}

/// One exchange under one deadline.
#[derive(Clone, Copy, Debug, PartialEq, Eq, Structural)]
pub struct Exchange {
    pub command: TouchIdCommand,
    pub deadline: Duration,
    pub phase: ExchangePhase,
}

/// What to do next in an exchange.
#[derive(Clone, Copy, Debug, PartialEq, Eq)]
pub enum ExchangeStep {
    /// Go on with [`Exchange::poll`].
    Attempt(Exchange),
    /// Wait this long, then go on with [`Exchange::poll`].
    Wait(Duration, Exchange),
    /// The exchange is over.
    Done(Result<(), TouchIdClientError>),
}

/// The socket operation that an exchange may try.
#[derive(Clone, Copy, Debug, PartialEq, Eq, Structural)]
pub enum ExchangeAction {
    /// Send [`Exchange::packet`] and report with [`Exchange::sent`].
    Send,
    /// Receive into four bytes and report with [`Exchange::received`].
    Receive,
}

impl Exchange {
    /// Starts an exchange at `now`: one deadline bounds everything in it.
    pub fn begin(command: TouchIdCommand, now: Duration, watchdog: Duration) -> (r: Result<
        Exchange,
        TouchIdClientError,
    >)
        ensures
            r is Ok <==> now.nanos + watchdog.nanos <= MAX_NANOS,
            r matches Ok(exchange) ==> exchange.command == command && exchange.phase
                == ExchangePhase::Sending && exchange.deadline.nanos == now.nanos + watchdog.nanos,
            r matches Err(error) ==> error == TouchIdClientError::DeadlineExceeded,
    {
        match now.checked_add(watchdog) {
            Some(deadline) => Ok(Exchange { command, deadline, phase: ExchangePhase::Sending }),
            None => Err(TouchIdClientError::DeadlineExceeded),
        }
    }

    /// Names the socket operation to try at `now`; none once the deadline is
    /// reached.
    pub fn poll(self, now: Duration) -> (r: Result<ExchangeAction, TouchIdClientError>)
        ensures
            r == if now.nanos >= self.deadline.nanos {
                Err::<ExchangeAction, TouchIdClientError>(TouchIdClientError::DeadlineExceeded)
            } else if self.phase == ExchangePhase::Sending {
                Ok(ExchangeAction::Send)
            } else {
                Ok(ExchangeAction::Receive)
            },
    {
        if now.at_least(self.deadline) {
            return Err(TouchIdClientError::DeadlineExceeded);
        }
        match self.phase {
            ExchangePhase::Sending => Ok(ExchangeAction::Send),
            ExchangePhase::Receiving => Ok(ExchangeAction::Receive),
        }
    }

    /// The one packet that the exchange sends, on every try.
    pub fn packet(self) -> (packet: [u8; 8])
        ensures
            packet@ == self.command.requested().packet(),
    {
        self.command.request().encode()
    }

    /// The exchange once the request has been sent.
    pub open spec fn awaiting_answer(self) -> Exchange {
        Exchange { phase: ExchangePhase::Receiving, ..self }
    }

    /// A pause of at most the retry interval that does not pass the deadline, or
    /// the end where the deadline is reached.
    pub open spec fn retry(self, now: Duration) -> ExchangeStep {
        if now.nanos >= self.deadline.nanos {
            ExchangeStep::Done(Err(TouchIdClientError::DeadlineExceeded))
        } else {
            ExchangeStep::Wait(
                Duration {
                    nanos: if self.deadline.nanos - now.nanos <= RETRY_WAIT_MILLIS * 1_000_000 {
                        (self.deadline.nanos - now.nanos) as u128
                    } else {
                        (RETRY_WAIT_MILLIS * 1_000_000) as u128
                    },
                },
                self,
            )
        }
    }

    fn wait_for_retry(self, now: Duration) -> (r: ExchangeStep)
        ensures
            r == self.retry(now),
    {
        match self.deadline.checked_sub(now) {
            Some(remaining) => if remaining.is_zero() {
                ExchangeStep::Done(Err(TouchIdClientError::DeadlineExceeded))
            } else {
                ExchangeStep::Wait(
                    remaining.shorter(Duration::from_millis(RETRY_WAIT_MILLIS)),
                    self,
                )
            },
            None => ExchangeStep::Done(Err(TouchIdClientError::DeadlineExceeded)),
        }
    }

    /// Takes the outcome of a send; `now` is read after it. A socket that is not
    /// ready is tried again with the same packet.
    pub fn sent(self, outcome: Result<(), SocketStatus>, now: Duration) -> (r: ExchangeStep)
        ensures
            r == match outcome {
                Ok(()) => ExchangeStep::Attempt(self.awaiting_answer()),
                Err(SocketStatus::WouldBlock) | Err(SocketStatus::Interrupted) => self.retry(now),
                Err(_) => ExchangeStep::Done(Err(TouchIdClientError::SendFailed)),
            },
    {
        match outcome {
            Ok(()) => ExchangeStep::Attempt(
                Exchange {
                    command: self.command,
                    deadline: self.deadline,
                    phase: ExchangePhase::Receiving,
                },
            ),
            Err(SocketStatus::WouldBlock) | Err(SocketStatus::Interrupted) => self.wait_for_retry(
                now,
            ),
            Err(_) => ExchangeStep::Done(Err(TouchIdClientError::SendFailed)),
        }
    }

    /// The verdict on the first `length` bytes of the buffer.
    pub open spec fn verdict(length: usize, buffer: Seq<u8>) -> Result<(), TouchIdClientError> {
        if length > RESPONSE_SIZE {
            Err(TouchIdClientError::InvalidResponse)
        } else {
            match decoded_response(buffer.subrange(0, length as int)) {
                Ok(Response::Okay) => Ok(()),
                Ok(Response::Denied) => Err(TouchIdClientError::Denied),
                Ok(Response::Busy) => Err(TouchIdClientError::Busy),
                Ok(Response::Failure) => Err(TouchIdClientError::BrokerFailure),
                Err(_) => Err(TouchIdClientError::InvalidResponse),
            }
        }
    }

    /// Takes the outcome of a receive into `buffer`; `now` is read after it.
    pub fn received(
        self,
        outcome: Result<usize, SocketStatus>,
        buffer: &[u8; 4],
        now: Duration,
    ) -> (r: ExchangeStep)
        ensures
            r == match outcome {
                Ok(length) => ExchangeStep::Done(Exchange::verdict(length, buffer@)),
                Err(SocketStatus::WouldBlock) | Err(SocketStatus::Interrupted) => self.retry(now),
                Err(SocketStatus::Truncated) => ExchangeStep::Done(
                    Err(TouchIdClientError::InvalidResponse),
                ),
                Err(_) => ExchangeStep::Done(Err(TouchIdClientError::ReceiveFailed)),
            },
    {
        match outcome {
            Ok(length) => {
                if length > RESPONSE_SIZE {
                    return ExchangeStep::Done(Err(TouchIdClientError::InvalidResponse));
                }
                let packet = vstd::slice::slice_subrange(buffer.as_slice(), 0, length);
                ExchangeStep::Done(
                    match decode_response(packet) {
                        Ok(Response::Okay) => Ok(()),
                        Ok(Response::Denied) => Err(TouchIdClientError::Denied),
                        Ok(Response::Busy) => Err(TouchIdClientError::Busy),
                        Ok(Response::Failure) => Err(TouchIdClientError::BrokerFailure),
                        Err(_) => Err(TouchIdClientError::InvalidResponse),
                    },
                )
            },
            Err(SocketStatus::WouldBlock) | Err(SocketStatus::Interrupted) => self.wait_for_retry(
                now,
            ),
            Err(SocketStatus::Truncated) => ExchangeStep::Done(
                Err(TouchIdClientError::InvalidResponse),
            ),
            Err(_) => ExchangeStep::Done(Err(TouchIdClientError::ReceiveFailed)),
        }
    }
}

/// An exchange succeeds on the exact success packet and on nothing else.
pub proof fn law_exchange_succeeds_only_on_okay(length: usize, buffer: Seq<u8>)
    requires
        buffer.len() == RESPONSE_SIZE,
    ensures
        Exchange::verdict(length, buffer) == Ok::<(), TouchIdClientError>(()) <==> length
            == RESPONSE_SIZE && buffer == Response::Okay.packet(),
{
    if length <= RESPONSE_SIZE {
        crate::auth_protocol::law_response_round_trip(
            buffer.subrange(0, length as int),
            Response::Okay,
        );
    }
    assert(buffer.subrange(0, 4) =~= buffer);
}

/// A pause is never empty, never longer than the retry interval, and never
/// passes the deadline; and the exchange it leads to is the same one.
pub proof fn law_pauses_stay_within_the_deadline(
    exchange: Exchange,
    now: Duration,
    pause: Duration,
    next: Exchange,
)
    requires
        exchange.retry(now) == ExchangeStep::Wait(pause, next),
    ensures
        next == exchange,
        pause.nanos != 0,
        pause.nanos <= RETRY_WAIT_MILLIS * 1_000_000,
        now.nanos + pause.nanos <= exchange.deadline.nanos,
{
}

} // verus!
