//! What the local client sends, waits for and believes.

use crate::auth_client::{
    map_connect_error, Exchange, ExchangeAction, ExchangePhase, ExchangeStep, TouchIdClientError,
    TouchIdCommand,
};
use crate::auth_protocol::Request;
use crate::auth_socket::SocketStatus;
use crate::laws::broker::{asks_to_approve, asks_to_authenticate, asks_to_enroll};
use crate::laws::service::last_nanosecond;
use crate::time::Duration;
use vstd::prelude::*;

verus! {

/// Commands are the words `enroll`, `authenticate` and `approve`, byte by byte; nothing
/// else is one.
pub proof fn law_commands_are_their_words(argument: &[u8], r: Option<TouchIdCommand>)
    requires
        call_ensures(TouchIdCommand::parse, (argument,), r),
    ensures
        r == Some(TouchIdCommand::Enroll) <==> argument@ == seq![101u8, 110, 114, 111, 108, 108],
        r == Some(TouchIdCommand::Authenticate) <==> argument@ == seq![
            97u8, 117, 116, 104, 101, 110, 116, 105, 99, 97, 116, 101,
        ],
        r == Some(TouchIdCommand::Approve) <==> argument@ == seq![
            97u8, 112, 112, 114, 111, 118, 101,
        ],
{
    assert(TouchIdCommand::Enroll.word() =~= seq![101u8, 110, 114, 111, 108, 108]);
    assert(TouchIdCommand::Authenticate.word() =~= seq![
        97u8, 117, 116, 104, 101, 110, 116, 105, 99, 97, 116, 101,
    ]);
    assert(TouchIdCommand::Approve.word() =~= seq![97u8, 112, 112, 114, 111, 118, 101]);
}

/// Each command sends the request of its own name, and is watched for thirty-five seconds
/// more than the service's own budget for it.
pub proof fn law_commands_ask_for_themselves_and_are_watched(
    command: TouchIdCommand,
    request: Request,
    budget: Duration,
    watchdog: Result<Duration, TouchIdClientError>,
    exchange: Exchange,
    packet: [u8; 8],
)
    requires
        call_ensures(TouchIdCommand::request, (command,), request),
        call_ensures(TouchIdCommand::operation_timeout, (command,), budget),
        call_ensures(TouchIdCommand::watchdog, (command,), watchdog),
        exchange.command == command,
        call_ensures(Exchange::packet, (exchange,), packet),
    ensures
        command == TouchIdCommand::Enroll <==> request == Request::Enroll,
        command == TouchIdCommand::Authenticate <==> request == Request::Authenticate,
        command == TouchIdCommand::Approve <==> request == Request::Approve,
        command == TouchIdCommand::Enroll <==> asks_to_enroll(packet@),
        command == TouchIdCommand::Authenticate <==> asks_to_authenticate(packet@),
        command == TouchIdCommand::Approve <==> asks_to_approve(packet@),
        budget.nanos == if command == TouchIdCommand::Enroll {
            900_000_000_000int
        } else {
            65_000_000_000int
        },
        watchdog is Ok && watchdog->Ok_0.nanos == budget.nanos + 35_000_000_000,
{
    crate::laws::broker::lemma_packets_by_their_bytes(packet@);
    crate::auth_protocol::law_request_round_trip(packet@, request);
}

/// An exchange sends first, and has the whole watchdog's time.
pub proof fn law_exchanges_begin_by_sending(
    command: TouchIdCommand,
    now: Duration,
    watchdog: Duration,
    r: Result<Exchange, TouchIdClientError>,
)
    requires
        call_ensures(Exchange::begin, (command, now, watchdog), r),
    ensures
        r is Ok <==> now.nanos + watchdog.nanos <= last_nanosecond(),
        r matches Ok(exchange) ==> exchange.command == command && exchange.phase
            == ExchangePhase::Sending && exchange.deadline.nanos - now.nanos == watchdog.nanos,
        r matches Err(error) ==> error == TouchIdClientError::DeadlineExceeded,
{
}

/// From its deadline on an exchange does nothing; before, it does what its phase says.
pub proof fn law_exchanges_stop_at_their_deadline(
    exchange: Exchange,
    now: Duration,
    r: Result<ExchangeAction, TouchIdClientError>,
)
    requires
        call_ensures(Exchange::poll, (exchange, now), r),
    ensures
        r is Ok <==> now.nanos < exchange.deadline.nanos,
        r matches Ok(action) ==> (action == ExchangeAction::Send <==> exchange.phase
            == ExchangePhase::Sending),
        r matches Err(error) ==> error == TouchIdClientError::DeadlineExceeded,
{
}

/// Whether the step waits and tries the same again: never longer than ten milliseconds,
/// never past the deadline, and not at all from the deadline on.
pub open spec fn tries_again(exchange: Exchange, now: Duration, r: ExchangeStep) -> bool {
    if now.nanos < exchange.deadline.nanos {
        &&& r matches ExchangeStep::Wait(pause, next) && next == exchange
        &&& 0 < r->Wait_0.nanos <= 10_000_000 && now.nanos + r->Wait_0.nanos
            <= exchange.deadline.nanos
        &&& r->Wait_0.nanos == 10_000_000 || now.nanos + r->Wait_0.nanos
            == exchange.deadline.nanos
    } else {
        r == ExchangeStep::Done(Err(TouchIdClientError::DeadlineExceeded))
    }
}

/// What was sent is waited for; what could not be sent yet is tried again; any other
/// failure to send ends the exchange.
pub proof fn law_sent_requests_are_waited_for(
    exchange: Exchange,
    outcome: Result<(), SocketStatus>,
    now: Duration,
    r: ExchangeStep,
)
    requires
        call_ensures(Exchange::sent, (exchange, outcome, now), r),
    ensures
        outcome is Ok ==> (r matches ExchangeStep::Attempt(next) && next.command
            == exchange.command && next.deadline == exchange.deadline && next.phase
            == ExchangePhase::Receiving),
        outcome == Err::<(), SocketStatus>(SocketStatus::WouldBlock) || outcome == Err::<
            (),
            SocketStatus,
        >(SocketStatus::Interrupted) ==> tries_again(exchange, now, r),
        outcome is Err && outcome->Err_0 != SocketStatus::WouldBlock && outcome->Err_0
            != SocketStatus::Interrupted ==> r == ExchangeStep::Done(
            Err(TouchIdClientError::SendFailed),
        ),
        r != ExchangeStep::Done(Ok(())),
{
}

/// An exchange succeeds by the four bytes `OKAY` and by nothing else; the other three
/// answers are reported as what they say, and anything else as invalid.
pub proof fn law_only_okay_succeeds(
    exchange: Exchange,
    outcome: Result<usize, SocketStatus>,
    buffer: &[u8; 4],
    now: Duration,
    r: ExchangeStep,
)
    requires
        call_ensures(Exchange::received, (exchange, outcome, buffer, now), r),
    ensures
        r == ExchangeStep::Done(Ok(())) <==> outcome == Ok::<usize, SocketStatus>(4) && buffer@
            == seq![79u8, 75, 65, 89],
        outcome == Ok::<usize, SocketStatus>(4) && buffer@ == seq![68u8, 69, 78, 89] <==> r
            == ExchangeStep::Done(Err(TouchIdClientError::Denied)),
        outcome == Ok::<usize, SocketStatus>(4) && buffer@ == seq![66u8, 85, 83, 89] <==> r
            == ExchangeStep::Done(Err(TouchIdClientError::Busy)),
        outcome == Ok::<usize, SocketStatus>(4) && buffer@ == seq![70u8, 65, 73, 76] <==> r
            == ExchangeStep::Done(Err(TouchIdClientError::BrokerFailure)),
        outcome is Ok ==> r is Done,
        outcome is Ok && outcome->Ok_0 != 4 ==> r == ExchangeStep::Done(
            Err(TouchIdClientError::InvalidResponse),
        ),
        outcome == Err::<usize, SocketStatus>(SocketStatus::Truncated) ==> r == ExchangeStep::Done(
            Err(TouchIdClientError::InvalidResponse),
        ),
        outcome == Err::<usize, SocketStatus>(SocketStatus::WouldBlock) || outcome == Err::<
            usize,
            SocketStatus,
        >(SocketStatus::Interrupted) ==> tries_again(exchange, now, r),
        outcome is Err && outcome->Err_0 != SocketStatus::WouldBlock && outcome->Err_0
            != SocketStatus::Interrupted && outcome->Err_0 != SocketStatus::Truncated ==> r
            == ExchangeStep::Done(Err(TouchIdClientError::ReceiveFailed)),
{
    if let Ok(length) = outcome {
        if length <= 4 {
            let packet = buffer@.subrange(0, length as int);
            crate::laws::wire::lemma_responses_by_their_bytes(packet);
            if length == 4 {
                assert(packet =~= buffer@);
            }
        }
    }
}

/// A service that cannot show who it is, is not trusted; any other failure to connect
/// means that it is not available.
pub proof fn law_unidentified_services_are_untrusted(error: SocketStatus, r: TouchIdClientError)
    requires
        call_ensures(map_connect_error, (error,), r),
    ensures
        r == TouchIdClientError::UntrustedBroker <==> error == SocketStatus::PeerDenied || error
            == SocketStatus::Credentials,
        r == TouchIdClientError::UntrustedBroker || r == TouchIdClientError::BrokerUnavailable,
{
}

/// Spans of time add up and are compared exactly, up to the last nanosecond.
pub proof fn law_durations_are_exact(
    a: Duration,
    b: Duration,
    sum: Option<Duration>,
    capped_sum: Duration,
    rest: Option<Duration>,
    capped_rest: Duration,
    shorter: Duration,
    at_least: bool,
    zero: bool,
    longest: Duration,
    nothing: Duration,
)
    requires
        a.nanos <= last_nanosecond(),
        b.nanos <= last_nanosecond(),
        call_ensures(Duration::checked_add, (a, b), sum),
        call_ensures(Duration::saturating_add, (a, b), capped_sum),
        call_ensures(Duration::checked_sub, (a, b), rest),
        call_ensures(Duration::saturating_sub, (a, b), capped_rest),
        call_ensures(Duration::shorter, (a, b), shorter),
        call_ensures(Duration::at_least, (a, b), at_least),
        call_ensures(Duration::is_zero, (a,), zero),
        call_ensures(Duration::max, (), longest),
        call_ensures(Duration::zero, (), nothing),
    ensures
        sum is Some <==> a.nanos + b.nanos <= last_nanosecond(),
        sum matches Some(total) ==> total.nanos == a.nanos + b.nanos && capped_sum == total,
        sum is None ==> capped_sum.nanos == last_nanosecond(),
        rest is Some <==> a.nanos >= b.nanos,
        rest matches Some(left) ==> left.nanos + b.nanos == a.nanos && capped_rest == left,
        rest is None ==> capped_rest.nanos == 0,
        shorter == a || shorter == b,
        shorter.nanos <= a.nanos && shorter.nanos <= b.nanos,
        at_least <==> a.nanos >= b.nanos,
        zero <==> a.nanos == 0,
        longest.nanos == last_nanosecond(),
        nothing.nanos == 0,
{
}

/// A second is a thousand milliseconds and a thousand million nanoseconds.
pub proof fn law_units_of_time_agree(
    count: u64,
    seconds: Duration,
    milliseconds: Duration,
    nanoseconds: Duration,
    subsecond: u32,
    parts: Option<Duration>,
)
    requires
        call_ensures(Duration::from_secs, (count,), seconds),
        call_ensures(Duration::from_millis, (count,), milliseconds),
        call_ensures(Duration::from_nanos, (count,), nanoseconds),
        call_ensures(Duration::from_parts, (count, subsecond), parts),
    ensures
        nanoseconds.nanos == count,
        milliseconds.nanos == count * 1_000_000,
        seconds.nanos == count * 1_000_000_000,
        parts is Some <==> subsecond < 1_000_000_000,
        parts matches Some(span) ==> span.nanos == seconds.nanos + subsecond,
{
}

} // verus!
