//! What every tick of the event loop does, and for how long anything waits.

use crate::auth_daemon::{
    accept_failed, anything_waits, by_protocol, decide_tick, direct_received, has_input,
    map_scheduler_error, map_socket_error, may_accept, next_live, parse_listener_order,
    poll_worker, reply_deadline, AuthDaemonError, ChannelState, ConnectionEvent, DirectFollowUp,
    EventLoop, Expiring, FlushDecision, ListenerOrder, LoopAction, RoundQueue, StandardDeadlines,
    StandardFollowUp, StandardService, TickEnd, TickPhase, TickStart, Timed,
    TimedStandardConnection, WorkerPoll,
    EVENT_TICK_MILLIS, IDLE_TIMEOUT_SECS,
};
use crate::auth_scheduler::{LifecycleDecision, SchedulerError};
use crate::auth_socket::{BrokerSocketDispatch, BrokerSocketError, SocketStatus};
use crate::laws::service::last_nanosecond;
use crate::time::Duration;
use vstd::prelude::*;

verus! {

/// Whether `later` is `span` nanoseconds after `now`, or the last nanosecond where there is
/// no such time.
pub open spec fn is_after(now: Duration, span: int, later: Duration) -> bool {
    if now.nanos + span <= last_nanosecond() {
        later.nanos == now.nanos + span
    } else {
        later.nanos == last_nanosecond()
    }
}

/// `t1-touchid-auth.socket`.
pub open spec fn direct_name() -> Seq<u8> {
    seq![
        116u8, 49, 45, 116, 111, 117, 99, 104, 105, 100, 45, 97, 117, 116, 104, 46, 115, 111, 99,
        107, 101, 116,
    ]
}

/// `t1bridge-fingerprint.socket`.
pub open spec fn standard_name() -> Seq<u8> {
    seq![
        116u8, 49, 98, 114, 105, 100, 103, 101, 45, 102, 105, 110, 103, 101, 114, 112, 114, 105,
        110, 116, 46, 115, 111, 99, 107, 101, 116,
    ]
}

/// Both listeners have to be named, in either order, joined by a colon; each socket then
/// serves the protocol that its own name stands for.
pub proof fn law_listeners_serve_their_own_protocol<T>(
    names: &[u8],
    r: Result<ListenerOrder, AuthDaemonError>,
    order: ListenerOrder,
    first: T,
    second: T,
    sockets: (T, T),
)
    requires
        call_ensures(parse_listener_order, (names,), r),
        r matches Ok(found) ==> found == order,
        call_ensures(by_protocol::<T>, (order, first, second), sockets),
    ensures
        r is Ok <==> names@ == direct_name() + seq![58u8] + standard_name() || names@
            == standard_name() + seq![58u8] + direct_name(),
        r is Ok && names@ == direct_name() + seq![58u8] + standard_name() ==> sockets == (
            first,
            second,
        ),
        r is Ok && names@ == standard_name() + seq![58u8] + direct_name() ==> sockets == (
            second,
            first,
        ),
        r matches Err(error) ==> error == AuthDaemonError::Activation,
{
    let direct_first = direct_name() + seq![58u8] + standard_name();
    let standard_first = standard_name() + seq![58u8] + direct_name();
    assert(crate::auth_daemon::announced(ListenerOrder::DirectFirst) =~= direct_first);
    assert(crate::auth_daemon::announced(ListenerOrder::StandardFirst) =~= standard_first);
    assert(direct_first[2] == 45u8 && standard_first[2] == 98u8);
    if let Ok(found) = r {
        assert(names@ == crate::auth_daemon::announced(found));
    }
}

/// How long the service stays idle, and how long a tick takes.
pub proof fn law_the_service_idles_for_thirty_seconds()
    ensures
        IDLE_TIMEOUT_SECS == 30,
        EVENT_TICK_MILLIS == 10,
{
}

/// A connection is accepted while a listener is ready, fewer than thirty-two were accepted
/// in this tick and fewer than sixty-four wait; only a listener that is not ready is no
/// failure.
pub proof fn law_accepting_is_bounded(
    accepted: usize,
    pending: usize,
    ready: bool,
    r: bool,
    status: SocketStatus,
    failed: Result<(), AuthDaemonError>,
)
    requires
        call_ensures(may_accept, (accepted, pending, ready), r),
        call_ensures(accept_failed, (status,), failed),
    ensures
        r <==> ready && accepted < 32 && pending < 64,
        failed is Ok <==> status == SocketStatus::WouldBlock || status
            == SocketStatus::Interrupted,
        failed matches Err(error) ==> error == AuthDaemonError::Listener,
{
}

/// Failures of the scheduler and of a socket are reported as what they concern.
pub proof fn law_failures_are_reported_as_what_they_concern(
    scheduler: SchedulerError,
    scheduler_reported: AuthDaemonError,
    socket: BrokerSocketError,
    socket_reported: AuthDaemonError,
)
    requires
        call_ensures(map_scheduler_error, (scheduler,), scheduler_reported),
        call_ensures(map_socket_error, (socket,), socket_reported),
    ensures
        scheduler_reported == AuthDaemonError::Scheduler,
        socket_reported == AuthDaemonError::Listener,
{
}

/// A shutdown begins once, with the first cancellation, and lasts two seconds; nothing is
/// accepted from then on.
pub proof fn law_shutdowns_begin_once(
    event_loop: &mut EventLoop,
    cancelled: bool,
    now: Duration,
    r: TickStart,
)
    requires
        call_ensures(EventLoop::begin_tick, (event_loop, cancelled, now), r),
    ensures
        r.shutdown_begins <==> cancelled && old(event_loop).shutdown() is None,
        r.accepting <==> !cancelled && old(event_loop).shutdown() is None,
        r.shutdown_begins ==> final(event_loop).shutdown() is Some && is_after(
            now,
            2_000_000_000,
            final(event_loop).shutdown()->0,
        ),
        !r.shutdown_begins ==> final(event_loop).shutdown() == old(event_loop).shutdown(),
{
}

/// A tick ends the service only in a shutdown: once nothing is active and no reply waits,
/// or once the shutdown's time is over.
pub proof fn law_shutdowns_wait_for_work_and_replies(
    fresh: EventLoop,
    event_loop: &EventLoop,
    now: Duration,
    active: bool,
    replies_waiting: bool,
    r: TickEnd,
)
    requires
        call_ensures(EventLoop::new, (), fresh),
        call_ensures(EventLoop::end_tick, (event_loop, now, active, replies_waiting), r),
    ensures
        fresh.shutdown() is None,
        r == TickEnd::Exit <==> event_loop.shutdown() is Some && !active && !replies_waiting,
        r == TickEnd::ShutdownExpired <==> (event_loop.shutdown() matches Some(deadline)
            && now.nanos >= deadline.nanos && (active || replies_waiting)),
{
}

/// What counts as input, and what as waiting.
pub proof fn law_connections_and_replies_count(
    accepting: bool,
    direct_ready: bool,
    standard_ready: bool,
    connections: usize,
    standard_connections: usize,
    replies: usize,
    input: bool,
    waiting: bool,
)
    requires
        call_ensures(
            has_input,
            (accepting, direct_ready, standard_ready, connections, standard_connections),
            input,
        ),
        call_ensures(anything_waits, (connections, standard_connections, replies), waiting),
    ensures
        !input <==> connections == 0 && standard_connections == 0 && (!accepting || (!direct_ready
            && !standard_ready)),
        !waiting <==> connections == 0 && standard_connections == 0 && replies == 0,
{
}

/// The service exits idle only with nothing active and nothing waiting; a cancellation
/// needs something active, and without it the authority is uncertain.
pub proof fn law_ticks_follow_the_lifecycle(
    decision: LifecycleDecision,
    active: bool,
    waits: bool,
    r: Result<LoopAction, AuthDaemonError>,
)
    requires
        call_ensures(decide_tick, (decision, active, waits), r),
    ensures
        r == Ok::<LoopAction, AuthDaemonError>(LoopAction::Exit) <==> decision
            == LifecycleDecision::ExitIdle && !active && !waits,
        r == Ok::<LoopAction, AuthDaemonError>(LoopAction::CancelActive) <==> decision is Cancel
            && active,
        r is Err <==> decision == LifecycleDecision::Terminate || (decision is Cancel && !active),
        r matches Err(error) ==> error == AuthDaemonError::Scheduler,
{
}

/// What follows a direct dispatch: a failed connection is dropped, and an unsound service
/// ends the loop.
pub proof fn law_dispatches_are_followed_up<D>(
    dispatch: Result<BrokerSocketDispatch<D>, BrokerSocketError>,
    r: DirectFollowUp<D>,
)
    requires
        call_ensures(direct_received::<D>, (dispatch,), r),
    ensures
        r matches DirectFollowUp::Keep(connection) ==> dispatch == Ok::<
            BrokerSocketDispatch<D>,
            BrokerSocketError,
        >(BrokerSocketDispatch::Pending(connection)),
        r matches DirectFollowUp::Reply(reply) ==> dispatch == Ok::<
            BrokerSocketDispatch<D>,
            BrokerSocketError,
        >(BrokerSocketDispatch::Reply(reply)),
        r matches DirectFollowUp::Start(session) ==> dispatch == Ok::<
            BrokerSocketDispatch<D>,
            BrokerSocketError,
        >(BrokerSocketDispatch::Start(session)),
        r is Drop <==> dispatch is Err || dispatch->Ok_0 is Closed,
        r is Fatal <==> dispatch is Ok && dispatch->Ok_0 is Terminate,
        r matches DirectFollowUp::Fatal(error) ==> error == AuthDaemonError::Scheduler,
{
}

/// A worker is completed by its completion and its end, lost where it ended or
/// disconnected without one, and pending else.
pub proof fn law_workers_complete_or_are_lost<C>(
    channel: ChannelState<C>,
    finished: bool,
    joined: bool,
    r: WorkerPoll<C>,
)
    requires
        call_ensures(poll_worker::<C>, (channel, finished, joined), r),
    ensures
        r is Completed <==> channel is Completion && joined,
        r matches WorkerPoll::Completed(completion) ==> channel == ChannelState::Completion(
            completion,
        ),
        r is Pending <==> channel is Empty && !finished,
{
}

/// A reply has to be sent, and a request received, within a quarter of a second.
pub proof fn law_clients_have_a_quarter_of_a_second(
    now: Duration,
    due: Duration,
    accepted: StandardDeadlines,
    replying: StandardDeadlines,
)
    requires
        call_ensures(reply_deadline, (now,), due),
        call_ensures(StandardDeadlines::accepted, (now,), accepted),
        call_ensures(StandardDeadlines::replying, (now,), replying),
    ensures
        is_after(now, 250_000_000, due),
        accepted.request is Some && is_after(now, 250_000_000, accepted.request->0),
        accepted.reply is None,
        replying.reply is Some && is_after(now, 250_000_000, replying.reply->0),
        replying.request is None,
{
}

/// A standard connection is dropped from either of its deadlines on; a waiting reply keeps
/// it from being read.
pub proof fn law_late_connections_are_dropped(
    deadlines: &StandardDeadlines,
    reply_waits: bool,
    now: Duration,
    service: StandardService,
    flush: FlushDecision,
)
    requires
        call_ensures(StandardDeadlines::service, (deadlines, reply_waits, now), service),
        call_ensures(StandardDeadlines::flush, (deadlines, reply_waits, now), flush),
    ensures
        service == StandardService::Drop <==> (deadlines.request is Some && now.nanos
            >= deadlines.request->0.nanos) || (deadlines.reply is Some && now.nanos
            >= deadlines.reply->0.nanos),
        service == StandardService::Keep ==> reply_waits,
        service == StandardService::Receive ==> !reply_waits,
        flush == FlushDecision::Leave <==> !reply_waits,
        flush == FlushDecision::GiveUp <==> reply_waits && deadlines.reply is Some && now.nanos
            >= deadlines.reply->0.nanos,
{
}

/// What a connection's event does to it and to its deadlines.
pub proof fn law_events_move_the_deadlines(
    deadlines: &mut StandardDeadlines,
    event: ConnectionEvent,
    now: Duration,
    r: Result<StandardFollowUp, AuthDaemonError>,
)
    requires
        call_ensures(StandardDeadlines::received, (deadlines, event, now), r),
    ensures
        r == Ok::<StandardFollowUp, AuthDaemonError>(StandardFollowUp::Drop) <==> event
            == ConnectionEvent::Closed,
        r == Ok::<StandardFollowUp, AuthDaemonError>(StandardFollowUp::Start) <==> event
            == ConnectionEvent::Start,
        r is Err <==> event == ConnectionEvent::Terminate || event == ConnectionEvent::Failed,
        r matches Err(error) ==> error == AuthDaemonError::Scheduler,
        event == ConnectionEvent::ReplyQueued ==> final(deadlines).request is None
            && final(deadlines).reply is Some && is_after(
            now,
            250_000_000,
            final(deadlines).reply->0,
        ),
        event == ConnectionEvent::Start ==> final(deadlines).request is None
            && final(deadlines).reply == old(deadlines).reply,
        event != ConnectionEvent::ReplyQueued && event != ConnectionEvent::Start
            ==> *final(deadlines) == *old(deadlines),
{
}

/// A finished operation's reply is due in a quarter of a second; a sent reply is due no
/// more, and a connection is kept unless sending failed.
pub proof fn law_replies_are_due_until_they_are_sent(
    finishing: &mut StandardDeadlines,
    now: Duration,
    flushing: &mut StandardDeadlines,
    outcome: Result<bool, SocketStatus>,
    keep: bool,
)
    requires
        call_ensures(StandardDeadlines::finished, (finishing, now), ()),
        call_ensures(StandardDeadlines::flushed, (flushing, outcome), keep),
    ensures
        final(finishing).request == old(finishing).request,
        final(finishing).reply is Some && is_after(now, 250_000_000, final(finishing).reply->0),
        keep <==> outcome is Ok,
        outcome == Ok::<bool, SocketStatus>(true) ==> final(flushing).reply is None
            && final(flushing).request == old(flushing).request,
        outcome != Ok::<bool, SocketStatus>(true) ==> *final(flushing) == *old(flushing),
{
}

/// A timed item and a standard connection expire at their deadlines, and not before; a
/// connection without deadlines never does.
pub proof fn law_waiting_items_expire_at_their_deadlines<T>(
    timed: &Timed<T>,
    timed_expired: bool,
    connection: &TimedStandardConnection<T>,
    connection_expired: bool,
    now: Duration,
)
    requires
        call_ensures(Timed::<T>::has_expired, (timed, now), timed_expired),
        call_ensures(
            TimedStandardConnection::<T>::has_expired,
            (connection, now),
            connection_expired,
        ),
    ensures
        timed_expired <==> now.nanos >= timed.deadline.nanos,
        timed.is_past(now) <==> now.nanos >= timed.deadline.nanos,
        connection_expired <==> connection.is_past(now),
        connection.is_past(now) <==> (connection.deadlines.request is Some && now.nanos
            >= connection.deadlines.request->0.nanos) || (connection.deadlines.reply is Some
            && now.nanos >= connection.deadlines.reply->0.nanos),
{
}

/// What was pushed expires after its timeout.
pub proof fn law_pushed_items_expire_in_time<T>(
    queue: &mut RoundQueue<Timed<T>>,
    item: T,
    now: Duration,
    timeout: Duration,
)
    requires
        call_ensures(RoundQueue::<Timed<T>>::push, (queue, item, now, timeout), ()),
    ensures
        final(queue)@.waiting.len() == old(queue)@.waiting.len() + 1,
        final(queue)@.waiting.last().item == item,
        is_after(now, timeout.nanos as int, final(queue)@.waiting.last().deadline),
        final(queue)@.waiting.drop_last() == old(queue)@.waiting,
        final(queue)@.kept == old(queue)@.kept,
        forall|later: Duration| #[trigger]
            final(queue)@.waiting.last().is_past(later) <==> later.nanos
                >= final(queue)@.waiting.last().deadline.nanos,
{
    assert(final(queue)@.waiting.drop_last() =~= old(queue)@.waiting);
}

proof fn lemma_next_live<T: Expiring>(waiting: Seq<T>, now: Duration)
    ensures
        next_live(waiting, now) is None <==> forall|i: int|
            0 <= i < waiting.len() ==> (#[trigger] waiting[i]).is_past(now),
        next_live(waiting, now) matches Some((rest, item)) ==> {
            &&& rest.len() < waiting.len() && waiting[rest.len() as int] == item
            &&& !item.is_past(now)
            &&& rest == waiting.subrange(0, rest.len() as int)
            &&& forall|i: int|
                rest.len() < i < waiting.len() ==> (#[trigger] waiting[i]).is_past(now)
        },
    decreases waiting.len(),
{
    if waiting.len() > 0 {
        let shorter = waiting.drop_last();
        lemma_next_live(shorter, now);
        assert(forall|i: int| 0 <= i < shorter.len() ==> #[trigger] shorter[i] == waiting[i]);
        if waiting.last().is_past(now) {
            if let Some((rest, item)) = next_live(shorter, now) {
                assert(shorter.subrange(0, rest.len() as int) =~= waiting.subrange(
                    0,
                    rest.len() as int,
                ));
                assert forall|i: int| rest.len() < i < waiting.len() implies (
                #[trigger] waiting[i]).is_past(now) by {
                    if i < shorter.len() {
                        assert(shorter[i].is_past(now));
                    }
                }
            } else {
                assert forall|i: int| 0 <= i < waiting.len() implies (
                #[trigger] waiting[i]).is_past(now) by {
                    if i < shorter.len() {
                        assert(shorter[i].is_past(now));
                    }
                }
            }
        } else {
            assert(!waiting[waiting.len() - 1].is_past(now));
            assert(shorter =~= waiting.subrange(0, shorter.len() as int));
        }
    }
}

/// Taken is the latest item that has not expired; the expired ones behind it are gone, and
/// the ones before it stay.
pub proof fn law_expired_items_are_passed_over<T: Expiring>(
    queue: &mut RoundQueue<T>,
    now: Duration,
    r: Option<T>,
)
    requires
        call_ensures(RoundQueue::<T>::take, (queue, now), r),
    ensures
        final(queue)@.kept == old(queue)@.kept,
        r is None <==> forall|i: int|
            0 <= i < old(queue)@.waiting.len() ==> (#[trigger] old(queue)@.waiting[i]).is_past(
                now,
            ),
        r is None ==> final(queue)@.waiting.len() == 0,
        r matches Some(item) ==> {
            let left = final(queue)@.waiting.len();
            &&& left < old(queue)@.waiting.len() && old(queue)@.waiting[left as int] == item
            &&& !item.is_past(now)
            &&& final(queue)@.waiting == old(queue)@.waiting.subrange(0, left as int)
            &&& forall|i: int|
                left < i < old(queue)@.waiting.len() ==> (
                #[trigger] old(queue)@.waiting[i]).is_past(now)
        },
{
    lemma_next_live(old(queue)@.waiting, now);
}

/// A queue begins empty; items are inserted behind, taken in front, kept aside, and wait
/// again after the round.
pub proof fn law_queues_lose_nothing<T: Expiring>(
    fresh: RoundQueue<T>,
    length: usize,
    empty: bool,
    inserting: &mut RoundQueue<T>,
    keeping: &mut RoundQueue<T>,
    item: T,
    taking: &mut RoundQueue<T>,
    taken: Option<T>,
    ending: &mut RoundQueue<T>,
    clearing: &mut RoundQueue<T>,
)
    requires
        call_ensures(RoundQueue::<T>::new, (), fresh),
        call_ensures(RoundQueue::<T>::len, (&fresh,), length),
        call_ensures(RoundQueue::<T>::is_empty, (&fresh,), empty),
        call_ensures(RoundQueue::<T>::insert, (inserting, item), ()),
        call_ensures(RoundQueue::<T>::keep, (keeping, item), ()),
        call_ensures(RoundQueue::<T>::take_first, (taking,), taken),
        call_ensures(RoundQueue::<T>::end_round, (ending,), ()),
        call_ensures(RoundQueue::<T>::clear, (clearing,), ()),
    ensures
        fresh@.waiting.len() == 0 && fresh@.kept.len() == 0 && length == 0 && empty,
        final(inserting)@.waiting == old(inserting)@.waiting.push(item),
        final(inserting)@.kept == old(inserting)@.kept,
        final(keeping)@.kept == old(keeping)@.kept.push(item),
        final(keeping)@.waiting == old(keeping)@.waiting,
        taken is None <==> old(taking)@.waiting.len() == 0,
        taken matches Some(first) ==> old(taking)@.waiting == seq![first] + final(taking)@.waiting,
        taken is None ==> final(taking)@.waiting == old(taking)@.waiting,
        final(taking)@.kept == old(taking)@.kept,
        final(ending)@.waiting == old(ending)@.kept && final(ending)@.kept.len() == 0,
        final(clearing)@.waiting.len() == 0 && final(clearing)@.kept.len() == 0,
{
    if let Some(first) = taken {
        assert(old(taking)@.waiting =~= seq![first] + final(taking)@.waiting);
    }
}

/// How many wait.
pub proof fn law_queues_count_what_waits<T: Expiring>(
    queue: &RoundQueue<T>,
    length: usize,
    empty: bool,
)
    requires
        call_ensures(RoundQueue::<T>::len, (queue,), length),
        call_ensures(RoundQueue::<T>::is_empty, (queue,), empty),
    ensures
        length == queue@.waiting.len(),
        empty <==> length == 0,
{
}

/// The phases of a tick, in their order.
pub open spec fn phase_order() -> Seq<TickPhase> {
    seq![
        TickPhase::AcceptDirect,
        TickPhase::AcceptStandard,
        TickPhase::ProcessDirect,
        TickPhase::ProcessStandard,
        TickPhase::ObserveDisconnect,
        TickPhase::StandardControl,
        TickPhase::Decide,
        TickPhase::FlushStandard,
        TickPhase::FlushActive,
        TickPhase::PollWorker,
        TickPhase::FlushReplies,
        TickPhase::End,
    ]
}

/// A tick goes through its phases in order; in a shutdown it begins after the four that
/// take new work in.
pub proof fn law_ticks_keep_the_order_of_their_phases(
    accepting: bool,
    first: TickPhase,
    place: int,
    next: TickPhase,
)
    requires
        0 <= place < 12,
        call_ensures(TickPhase::first, (accepting,), first),
        call_ensures(TickPhase::next, (phase_order()[place],), next),
    ensures
        first == if accepting {
            phase_order()[0]
        } else {
            phase_order()[4]
        },
        place < 11 ==> next == phase_order()[place + 1],
        place == 11 ==> next == TickPhase::End,
{
}

} // verus!
