//! The broker's event loop: what every tick decides.
//!
//! The caller owns sockets, threads and the clock. This module owns which
//! connections and replies are still served, when the service accepts, cancels,
//! shuts down or exits, and what becomes of the one active run.

use crate::auth_scheduler::{LifecycleDecision, SchedulerError};
use crate::auth_socket::{
    ActiveBrokerSocketSession, BrokerSocketConnection, BrokerSocketDispatch, BrokerSocketError,
    PendingBrokerReply, SocketStatus,
};
use crate::bytes::same_bytes;
use crate::time::Duration;
use vstd::prelude::*;

verus! {

/// Idle time after which a service without work exits, in seconds.
pub const IDLE_TIMEOUT_SECS: u64 = 30;

/// Time that a connection has for its request, in milliseconds.
pub const REQUEST_TIMEOUT_MILLIS: u64 = 250;

/// Time that a reply has to be sent, in milliseconds.
pub const REPLY_TIMEOUT_MILLIS: u64 = 250;

/// Time that a shutdown waits for the active run, in seconds.
pub const SHUTDOWN_GRACE_SECS: u64 = 2;

/// Pause between two ticks, in milliseconds.
pub const EVENT_TICK_MILLIS: u64 = 10;

/// Most connections that wait for their request.
pub const MAX_PENDING_CONNECTIONS: usize = 64;

/// Most connections that one tick accepts on a listener.
pub const MAX_ACCEPTS_PER_TICK: usize = 32;

/// Which of the two activated listeners comes first.
#[derive(Clone, Copy, Debug, PartialEq, Eq, Structural)]
pub enum ListenerOrder {
    DirectFirst,
    StandardFirst,
}

/// Redaction-safe daemon lifecycle failure.
#[derive(Clone, Copy, Debug, PartialEq, Eq, Structural)]
pub enum AuthDaemonError {
    Activation,
    Lifecycle,
    Listener,
    Scheduler,
    WorkerLost,
    Shutdown,
}

impl AuthDaemonError {
    /// The message, as text.
    pub open spec fn text(self) -> Seq<char> {
        match self {
            AuthDaemonError::Activation => "authentication broker activation failed"@,
            AuthDaemonError::Lifecycle => "authentication broker lifecycle failed"@,
            AuthDaemonError::Listener => "authentication broker listener failed"@,
            AuthDaemonError::Scheduler => "authentication broker authority became uncertain"@,
            AuthDaemonError::WorkerLost => "authentication broker worker was lost"@,
            AuthDaemonError::Shutdown => "authentication broker shutdown did not complete"@,
        }
    }

    /// A fixed message.
    pub fn message(self) -> (message: &'static str)
        ensures
            message@ == self.text(),
    {
        match self {
            AuthDaemonError::Activation => "authentication broker activation failed",
            AuthDaemonError::Lifecycle => "authentication broker lifecycle failed",
            AuthDaemonError::Listener => "authentication broker listener failed",
            AuthDaemonError::Scheduler => "authentication broker authority became uncertain",
            AuthDaemonError::WorkerLost => "authentication broker worker was lost",
            AuthDaemonError::Shutdown => "authentication broker shutdown did not complete",
        }
    }
}

/// `t1-touchid-auth.socket`, in ASCII.
pub open spec fn auth_socket_name() -> Seq<u8> {
    seq![
        116u8, 49u8, 45u8, 116u8, 111u8, 117u8, 99u8, 104u8, 105u8, 100u8, 45u8, 97u8, 117u8,
        116u8, 104u8, 46u8, 115u8, 111u8, 99u8, 107u8, 101u8, 116u8,
    ]
}

/// `t1bridge-fingerprint.socket`, in ASCII.
pub open spec fn fingerprint_socket_name() -> Seq<u8> {
    seq![
        116u8, 49u8, 98u8, 114u8, 105u8, 100u8, 103u8, 101u8, 45u8, 102u8, 105u8, 110u8, 103u8,
        101u8, 114u8, 112u8, 114u8, 105u8, 110u8, 116u8, 46u8, 115u8, 111u8, 99u8, 107u8, 101u8,
        116u8,
    ]
}

/// The names that announce an order: both, once each, separated by a colon.
pub open spec fn announced(order: ListenerOrder) -> Seq<u8> {
    match order {
        ListenerOrder::DirectFirst => auth_socket_name().push(58u8) + fingerprint_socket_name(),
        ListenerOrder::StandardFirst => fingerprint_socket_name().push(58u8) + auth_socket_name(),
    }
}

/// Accepts the two exact listener names in either order, and nothing else.
pub fn parse_listener_order(listen_fd_names: &[u8]) -> (r: Result<ListenerOrder, AuthDaemonError>)
    ensures
        forall|order: ListenerOrder|
            r == Ok::<ListenerOrder, AuthDaemonError>(order) <==> listen_fd_names@
                == #[trigger] announced(order),
        r matches Err(error) ==> error == AuthDaemonError::Activation,
{
    let direct_first: [u8; 50] = [
        116, 49, 45, 116, 111, 117, 99, 104, 105, 100, 45, 97, 117, 116, 104, 46, 115, 111, 99, 107,
        101, 116, 58, 116, 49, 98, 114, 105, 100, 103, 101, 45, 102, 105, 110, 103, 101, 114, 112,
        114, 105, 110, 116, 46, 115, 111, 99, 107, 101, 116,
    ];
    let standard_first: [u8; 50] = [
        116, 49, 98, 114, 105, 100, 103, 101, 45, 102, 105, 110, 103, 101, 114, 112, 114, 105, 110,
        116, 46, 115, 111, 99, 107, 101, 116, 58, 116, 49, 45, 116, 111, 117, 99, 104, 105, 100, 45,
        97, 117, 116, 104, 46, 115, 111, 99, 107, 101, 116,
    ];
    proof {
        assert(direct_first@ =~= announced(ListenerOrder::DirectFirst));
        assert(standard_first@ =~= announced(ListenerOrder::StandardFirst));
        assert(announced(ListenerOrder::DirectFirst)[2] != announced(
            ListenerOrder::StandardFirst,
        )[2]);
    }
    if same_bytes(listen_fd_names, direct_first.as_slice()) {
        Ok(ListenerOrder::DirectFirst)
    } else if same_bytes(listen_fd_names, standard_first.as_slice()) {
        Ok(ListenerOrder::StandardFirst)
    } else {
        Err(AuthDaemonError::Activation)
    }
}

/// Puts what belongs to the two activated listeners, in the order in which they
/// come, into the order direct, standard.
pub fn by_protocol<T>(order: ListenerOrder, first: T, second: T) -> (r: (T, T))
    ensures
        r == match order {
            ListenerOrder::DirectFirst => (first, second),
            ListenerOrder::StandardFirst => (second, first),
        },
{
    match order {
        ListenerOrder::DirectFirst => (first, second),
        ListenerOrder::StandardFirst => (second, first),
    }
}

/// A scheduler that cannot be had leaves authority uncertain.
pub fn map_scheduler_error(error: SchedulerError) -> (r: AuthDaemonError)
    ensures
        r == AuthDaemonError::Scheduler,
{
    AuthDaemonError::Scheduler
}

/// A failed socket is a failed listener.
pub fn map_socket_error(error: BrokerSocketError) -> (r: AuthDaemonError)
    ensures
        r == AuthDaemonError::Listener,
{
    AuthDaemonError::Listener
}

/// Something with a deadline.
pub struct Timed<T> {
    pub item: T,
    pub deadline: Duration,
}

/// Something that waits until its time is over.
pub trait Expiring {
    /// Whether the time is over.
    spec fn is_past(&self, now: Duration) -> bool;

    /// Whether the time is over.
    fn has_expired(&self, now: Duration) -> (r: bool)
        ensures
            r == self.is_past(now),
    ;
}

/// Whether the deadline has been reached.
pub open spec fn is_over(now: Duration, deadline: Duration) -> bool {
    now.nanos >= deadline.nanos
}

impl<T> Expiring for Timed<T> {
    open spec fn is_past(&self, now: Duration) -> bool {
        is_over(now, self.deadline)
    }

    fn has_expired(&self, now: Duration) -> (r: bool) {
        now.at_least(self.deadline)
    }
}

/// Connections or replies that wait, each until its time is over. One round takes
/// every waiting item once; what is kept waits for the next round.
pub struct RoundQueue<T> {
    waiting: Vec<T>,
    kept: Vec<T>,
}

/// Connections or replies that wait, each until its deadline.
pub type TimedQueue<T> = RoundQueue<Timed<T>>;

/// A queue as the contracts see it.
pub struct QueueModel<T> {
    pub waiting: Seq<T>,
    pub kept: Seq<T>,
}

impl<T> View for RoundQueue<T> {
    type V = QueueModel<T>;

    closed spec fn view(&self) -> QueueModel<T> {
        QueueModel { waiting: self.waiting@, kept: self.kept@ }
    }
}

/// What a round takes next: the last waiting item whose time is not over, and what
/// waits before it.
pub open spec fn next_live<T: Expiring>(waiting: Seq<T>, now: Duration) -> Option<(Seq<T>, T)>
    decreases waiting.len(),
{
    if waiting.len() == 0 {
        None
    } else if waiting.last().is_past(now) {
        next_live(waiting.drop_last(), now)
    } else {
        Some((waiting.drop_last(), waiting.last()))
    }
}

impl<T> RoundQueue<Timed<T>> {
    /// Adds an item that waits for `timeout` from `now` on.
    pub fn push(&mut self, item: T, now: Duration, timeout: Duration)
        ensures
            final(self)@ == (QueueModel {
                waiting: old(self)@.waiting.push(Timed { item, deadline: now.plus(timeout) }),
                ..old(self)@
            }),
    {
        self.waiting.push(Timed { item, deadline: now.saturating_add(timeout) });
    }
}

impl<T: Expiring> RoundQueue<T> {
    /// An empty queue.
    pub fn new() -> (r: RoundQueue<T>)
        ensures
            r@ == (QueueModel::<T> { waiting: Seq::empty(), kept: Seq::empty() }),
    {
        RoundQueue { waiting: Vec::new(), kept: Vec::new() }
    }

    /// How many items wait.
    pub fn len(&self) -> (r: usize)
        ensures
            r == self@.waiting.len(),
    {
        self.waiting.len()
    }

    /// Whether nothing waits.
    pub fn is_empty(&self) -> (r: bool)
        ensures
            r == (self@.waiting.len() == 0),
    {
        self.waiting.len() == 0
    }

    /// Forgets everything.
    pub fn clear(&mut self)
        ensures
            final(self)@ == (QueueModel::<T> { waiting: Seq::empty(), kept: Seq::empty() }),
    {
        self.waiting = Vec::new();
        self.kept = Vec::new();
    }

    /// Adds an item.
    pub fn insert(&mut self, item: T)
        ensures
            final(self)@ == (QueueModel { waiting: old(self)@.waiting.push(item), ..old(self)@ }),
    {
        self.waiting.push(item);
    }

    /// Takes the next item of the round whose time is not over, and drops those that
    /// come before it and whose time is.
    pub fn take(&mut self, now: Duration) -> (r: Option<T>)
        ensures
            match next_live(old(self)@.waiting, now) {
                None => r is None && final(self)@ == (QueueModel {
                    waiting: Seq::<T>::empty(),
                    ..old(self)@
                }),
                Some((rest, item)) => r == Some(item) && final(self)@ == (QueueModel {
                    waiting: rest,
                    ..old(self)@
                }),
            },
    {
        while self.waiting.len() > 0
            invariant
                next_live(self.waiting@, now) == next_live(old(self)@.waiting, now),
                self.kept@ == old(self)@.kept,
            decreases self.waiting@.len(),
        {
            let ghost before = self.waiting@;
            match self.waiting.pop() {
                None => {},
                Some(item) => {
                    assert(before.drop_last() =~= self.waiting@);
                    if !item.has_expired(now) {
                        return Some(item);
                    }
                },
            }
        }
        assert(self.waiting@ =~= Seq::<T>::empty());
        None
    }

    /// Takes the first waiting item, whether its time is over or not: a round of this
    /// keeps the items in their order.
    pub fn take_first(&mut self) -> (r: Option<T>)
        ensures
            match r {
                None => old(self)@.waiting.len() == 0 && final(self)@ == old(self)@,
                Some(item) => old(self)@.waiting.len() > 0 && item == old(self)@.waiting[0]
                    && final(self)@ == (QueueModel {
                    waiting: old(self)@.waiting.drop_first(),
                    ..old(self)@
                }),
            },
    {
        if self.waiting.len() == 0 {
            return None;
        }
        let item = self.waiting.remove(0);
        assert(self.waiting@ =~= old(self)@.waiting.drop_first());
        Some(item)
    }

    /// Keeps an item of the round for the next one.
    pub fn keep(&mut self, item: T)
        ensures
            final(self)@ == (QueueModel { kept: old(self)@.kept.push(item), ..old(self)@ }),
    {
        self.kept.push(item);
    }

    /// Ends the round: what was kept waits from now on.
    pub fn end_round(&mut self)
        requires
            old(self)@.waiting.len() == 0,
        ensures
            final(self)@ == (QueueModel { waiting: old(self)@.kept, kept: Seq::<T>::empty() }),
    {
        let mut kept: Vec<T> = Vec::new();
        core::mem::swap(&mut kept, &mut self.kept);
        self.waiting = kept;
        assert(self.kept@ =~= Seq::<T>::empty());
    }
}

/// What a round takes is never over, and was waiting.
pub proof fn law_expired_items_are_never_served<T: Expiring>(waiting: Seq<T>, now: Duration)
    ensures
        next_live(waiting, now) matches Some((rest, item)) ==> !item.is_past(now)
            && waiting.contains(item) && rest.len() < waiting.len() && rest == waiting.subrange(
            0,
            rest.len() as int,
        ),
        next_live(waiting, now) is None ==> forall|i: int|
            0 <= i < waiting.len() ==> (#[trigger] waiting[i]).is_past(now),
    decreases waiting.len(),
{
    if waiting.len() != 0 {
        let shorter = waiting.drop_last();
        law_expired_items_are_never_served(shorter, now);
        if waiting.last().is_past(now) {
            if let Some((rest, item)) = next_live(shorter, now) {
                assert(shorter.contains(item));
                let k = choose|k: int| 0 <= k < shorter.len() && shorter[k] == item;
                assert(waiting[k] == item);
                assert(shorter.subrange(0, rest.len() as int) =~= waiting.subrange(
                    0,
                    rest.len() as int,
                ));
            } else {
                assert forall|i: int| 0 <= i < waiting.len() implies (
                #[trigger] waiting[i]).is_past(now) by {
                    if i < shorter.len() {
                        assert(shorter[i] == waiting[i]);
                    }
                }
            }
        } else {
            assert(waiting[waiting.len() - 1] == waiting.last());
            assert(shorter =~= waiting.subrange(0, shorter.len() as int));
        }
    }
}

/// Whether a tick may accept one more connection.
pub fn may_accept(accepted: usize, pending: usize, ready: bool) -> (r: bool)
    ensures
        r == (accepted < MAX_ACCEPTS_PER_TICK && pending < MAX_PENDING_CONNECTIONS && ready),
{
    accepted < MAX_ACCEPTS_PER_TICK && pending < MAX_PENDING_CONNECTIONS && ready
}

/// What a failed accept means: a listener that is not ready ends the tick's
/// accepting, any other failure is the listener's.
pub fn accept_failed(status: SocketStatus) -> (r: Result<(), AuthDaemonError>)
    ensures
        r == if status == SocketStatus::WouldBlock || status == SocketStatus::Interrupted {
            Ok::<(), AuthDaemonError>(())
        } else {
            Err(AuthDaemonError::Listener)
        },
{
    match status {
        SocketStatus::WouldBlock | SocketStatus::Interrupted => Ok(()),
        _ => Err(AuthDaemonError::Listener),
    }
}

/// What one tick begins with.
#[derive(Clone, Copy, Debug, PartialEq, Eq, Structural)]
pub struct TickStart {
    /// Drop all waiting connections and cancel the active run.
    pub shutdown_begins: bool,
    /// Accept and process connections in this tick.
    pub accepting: bool,
}

/// What the lifecycle decision asks for.
#[derive(Clone, Copy, Debug, PartialEq, Eq, Structural)]
pub enum LoopAction {
    /// Go on with the tick.
    GoOn,
    /// Cancel the active run and go on.
    CancelActive,
    /// Leave the loop successfully.
    Exit,
}

/// What one tick ends with.
#[derive(Clone, Copy, Debug, PartialEq, Eq, Structural)]
pub enum TickEnd {
    /// Sleep until the next tick.
    Sleep,
    /// Leave the loop successfully.
    Exit,
    /// The grace period is over: report the active run as lost and fail.
    ShutdownExpired,
}

/// The event loop's own state: when a shutdown that has begun has to be over.
#[derive(Clone, Copy, Debug, PartialEq, Eq, Structural)]
pub struct EventLoop {
    shutdown_deadline: Option<Duration>,
}

impl EventLoop {
    /// When the shutdown has to be over, if one has begun.
    pub closed spec fn shutdown(self) -> Option<Duration> {
        self.shutdown_deadline
    }

    /// A loop that serves.
    pub fn new() -> (r: EventLoop)
        ensures
            r.shutdown() is None,
    {
        EventLoop { shutdown_deadline: None }
    }

    /// Begins a tick. The first tick that sees the service cancelled begins the
    /// shutdown; from then on nothing is accepted.
    pub fn begin_tick(&mut self, cancelled: bool, now: Duration) -> (r: TickStart)
        ensures
            r.shutdown_begins == (cancelled && old(self).shutdown() is None),
            r.accepting == (final(self).shutdown() is None),
            final(self).shutdown() == if r.shutdown_begins {
                Some(now.plus(Duration::of_seconds(SHUTDOWN_GRACE_SECS)))
            } else {
                old(self).shutdown()
            },
    {
        let shutdown_begins = cancelled && self.shutdown_deadline.is_none();
        if shutdown_begins {
            self.shutdown_deadline = Some(
                now.saturating_add(Duration::from_secs(SHUTDOWN_GRACE_SECS)),
            );
        }
        TickStart { shutdown_begins, accepting: self.shutdown_deadline.is_none() }
    }

    /// Ends a tick. A shutdown is complete once no run is active and no reply
    /// waits, and fails once its grace period is over.
    pub fn end_tick(&self, now: Duration, active: bool, replies_waiting: bool) -> (r: TickEnd)
        ensures
            r == match self.shutdown() {
                None => TickEnd::Sleep,
                Some(deadline) => if !active && !replies_waiting {
                    TickEnd::Exit
                } else if is_over(now, deadline) {
                    TickEnd::ShutdownExpired
                } else {
                    TickEnd::Sleep
                },
            },
    {
        match self.shutdown_deadline {
            None => TickEnd::Sleep,
            Some(deadline) => {
                if !active && !replies_waiting {
                    return TickEnd::Exit;
                }
                if now.at_least(deadline) {
                    return TickEnd::ShutdownExpired;
                }
                TickEnd::Sleep
            },
        }
    }
}

/// Whether a tick has anything to read: a listener that is ready while the service
/// accepts, or a connection.
pub fn has_input(
    accepting: bool,
    direct_ready: bool,
    standard_ready: bool,
    connections: usize,
    standard_connections: usize,
) -> (r: bool)
    ensures
        r == ((accepting && (direct_ready || standard_ready)) || connections > 0
            || standard_connections > 0),
{
    (accepting && (direct_ready || standard_ready)) || connections > 0 || standard_connections > 0
}

/// Whether a connection or a reply waits.
pub fn anything_waits(connections: usize, standard_connections: usize, replies: usize) -> (r: bool)
    ensures
        r == (connections > 0 || standard_connections > 0 || replies > 0),
{
    connections > 0 || standard_connections > 0 || replies > 0
}

/// What the lifecycle decision means for the loop: a cancellation needs an active
/// run, and an idle exit waits for every connection and reply.
pub fn decide_tick(decision: LifecycleDecision, active: bool, anything_waits: bool) -> (r: Result<
    LoopAction,
    AuthDaemonError,
>)
    ensures
        r == match decision {
            LifecycleDecision::Continue => Ok::<LoopAction, AuthDaemonError>(LoopAction::GoOn),
            LifecycleDecision::Cancel(_) => if active {
                Ok(LoopAction::CancelActive)
            } else {
                Err(AuthDaemonError::Scheduler)
            },
            LifecycleDecision::ExitIdle => if !active && !anything_waits {
                Ok(LoopAction::Exit)
            } else {
                Ok(LoopAction::GoOn)
            },
            LifecycleDecision::Terminate => Err(AuthDaemonError::Scheduler),
        },
{
    match decision {
        LifecycleDecision::Continue => Ok(LoopAction::GoOn),
        LifecycleDecision::Cancel(_) => if active {
            Ok(LoopAction::CancelActive)
        } else {
            Err(AuthDaemonError::Scheduler)
        },
        LifecycleDecision::ExitIdle => if !active && !anything_waits {
            Ok(LoopAction::Exit)
        } else {
            Ok(LoopAction::GoOn)
        },
        LifecycleDecision::Terminate => Err(AuthDaemonError::Scheduler),
    }
}

/// A shutdown that has begun never ends by accepting again.
pub proof fn law_shutdown_is_never_taken_back(
    before: EventLoop,
    cancelled: bool,
    now: Duration,
    start: TickStart,
    after: EventLoop,
)
    requires
        before.shutdown() is Some,
        start.shutdown_begins == (cancelled && before.shutdown() is None),
        start.accepting == (after.shutdown() is None),
        after.shutdown() == if start.shutdown_begins {
            Some(now.plus(Duration::of_seconds(SHUTDOWN_GRACE_SECS)))
        } else {
            before.shutdown()
        },
    ensures
        !start.accepting,
        !start.shutdown_begins,
        after.shutdown() == before.shutdown(),
{
}

/// What becomes of a direct connection after it was received from.
pub enum DirectFollowUp<D> {
    /// Keep it with its deadline.
    Keep(BrokerSocketConnection<D>),
    /// Forget it.
    Drop,
    /// Queue its reply.
    Reply(PendingBrokerReply<D>),
    /// Start its work.
    Start(ActiveBrokerSocketSession<D>),
    /// Leave the loop with this failure.
    Fatal(AuthDaemonError),
}

/// Takes what a direct connection brought: a connection that fails is forgotten,
/// a service whose authority became uncertain ends the loop.
pub fn direct_received<D>(dispatch: Result<BrokerSocketDispatch<D>, BrokerSocketError>) -> (r:
    DirectFollowUp<D>)
    ensures
        r == match dispatch {
            Ok(BrokerSocketDispatch::Pending(connection)) => DirectFollowUp::Keep(connection),
            Ok(BrokerSocketDispatch::Closed) => DirectFollowUp::<D>::Drop,
            Ok(BrokerSocketDispatch::Reply(reply)) => DirectFollowUp::Reply(reply),
            Ok(BrokerSocketDispatch::Start(session)) => DirectFollowUp::Start(session),
            Ok(BrokerSocketDispatch::Terminate) => DirectFollowUp::Fatal(
                AuthDaemonError::Scheduler,
            ),
            Err(_) => DirectFollowUp::Drop,
        },
{
    match dispatch {
        Ok(BrokerSocketDispatch::Pending(connection)) => DirectFollowUp::Keep(connection),
        Ok(BrokerSocketDispatch::Closed) => DirectFollowUp::Drop,
        Ok(BrokerSocketDispatch::Reply(reply)) => DirectFollowUp::Reply(reply),
        Ok(BrokerSocketDispatch::Start(session)) => DirectFollowUp::Start(session),
        Ok(BrokerSocketDispatch::Terminate) => DirectFollowUp::Fatal(AuthDaemonError::Scheduler),
        Err(_) => DirectFollowUp::Drop,
    }
}

/// When a reply that is queued now has to be sent.
pub open spec fn reply_due(now: Duration) -> Duration {
    now.plus(Duration { nanos: (REPLY_TIMEOUT_MILLIS * 1_000_000) as u128 })
}

/// When a reply that is queued now has to be sent.
pub fn reply_deadline(now: Duration) -> (r: Duration)
    ensures
        r == reply_due(now),
{
    now.saturating_add(Duration::from_millis(REPLY_TIMEOUT_MILLIS))
}

/// What a standard connection brought.
#[derive(Clone, Copy, Debug, PartialEq, Eq, Structural)]
pub enum ConnectionEvent {
    /// Nothing yet, or a cancellation that is under way.
    Pending,
    /// The peer closed.
    Closed,
    /// A reply waits to be sent.
    ReplyQueued,
    /// Work is to be started.
    Start,
    /// The service's authority became uncertain.
    Terminate,
    /// The connection failed.
    Failed,
}

/// What to do about a waiting reply.
#[derive(Clone, Copy, Debug, PartialEq, Eq, Structural)]
pub enum FlushDecision {
    Leave,
    Try,
    GiveUp,
}

/// What polling a worker gave.
pub enum WorkerPoll<Completion> {
    Pending,
    Completed(Completion),
    Lost,
}

/// What a worker's channel holds.
pub enum ChannelState<Completion> {
    Completion(Completion),
    Empty,
    Disconnected,
}

/// What a worker's channel and thread mean together: a completion counts only of
/// a thread that ended well, and a thread that ended without one is lost.
/// `finished` says whether the thread has ended, `joined` whether joining it
/// succeeded where that was tried.
pub fn poll_worker<Completion>(
    channel: ChannelState<Completion>,
    finished: bool,
    joined: bool,
) -> (r: WorkerPoll<Completion>)
    ensures
        r == match channel {
            ChannelState::Completion(completion) => if joined {
                WorkerPoll::Completed(completion)
            } else {
                WorkerPoll::Lost
            },
            ChannelState::Empty => if finished {
                WorkerPoll::Lost
            } else {
                WorkerPoll::Pending
            },
            ChannelState::Disconnected => WorkerPoll::Lost,
        },
{
    match channel {
        ChannelState::Completion(completion) => if joined {
            WorkerPoll::Completed(completion)
        } else {
            WorkerPoll::Lost
        },
        ChannelState::Empty => if finished {
            WorkerPoll::Lost
        } else {
            WorkerPoll::Pending
        },
        ChannelState::Disconnected => WorkerPoll::Lost,
    }
}

/// The deadlines of a standard connection that no run owns.
#[derive(Clone, Copy, Debug, PartialEq, Eq, Structural)]
pub struct StandardDeadlines {
    pub request: Option<Duration>,
    pub reply: Option<Duration>,
}

/// A standard connection that no run owns, with its deadlines.
pub struct TimedStandardConnection<T> {
    pub connection: T,
    pub deadlines: StandardDeadlines,
}

impl<T> Expiring for TimedStandardConnection<T> {
    open spec fn is_past(&self, now: Duration) -> bool {
        self.deadlines.is_past(now)
    }

    fn has_expired(&self, now: Duration) -> (r: bool) {
        self.deadlines.service(false, now) == StandardService::Drop
    }
}

/// What to do with a standard connection that no run owns.
#[derive(Clone, Copy, Debug, PartialEq, Eq, Structural)]
pub enum StandardService {
    /// A deadline has been reached: drop it.
    Drop,
    /// Its reply still waits: keep it.
    Keep,
    /// Receive from it.
    Receive,
}

/// What becomes of a standard connection after it was received from.
#[derive(Clone, Copy, Debug, PartialEq, Eq, Structural)]
pub enum StandardFollowUp {
    Drop,
    Keep,
    /// Its work is to be started with [`standard_start`](crate::active_run::standard_start).
    Start,
}

impl StandardDeadlines {
    /// A connection that has just been accepted.
    pub fn accepted(now: Duration) -> (r: StandardDeadlines)
        ensures
            r == (StandardDeadlines {
                request: Some(
                    now.plus(Duration { nanos: (REQUEST_TIMEOUT_MILLIS * 1_000_000) as u128 }),
                ),
                reply: None,
            }),
    {
        StandardDeadlines {
            request: Some(now.saturating_add(Duration::from_millis(REQUEST_TIMEOUT_MILLIS))),
            reply: None,
        }
    }

    /// A connection whose run has ended with a reply.
    pub fn replying(now: Duration) -> (r: StandardDeadlines)
        ensures
            r == (StandardDeadlines { request: None, reply: Some(reply_due(now)) }),
    {
        StandardDeadlines { request: None, reply: Some(reply_deadline(now)) }
    }

    /// Whether one of the deadlines has been reached.
    pub open spec fn is_past(self, now: Duration) -> bool {
        (self.request matches Some(deadline) && is_over(now, deadline)) || (
        self.reply matches Some(deadline) && is_over(now, deadline))
    }

    /// Decides about a connection in this tick.
    pub fn service(&self, reply_waits: bool, now: Duration) -> (r: StandardService)
        ensures
            r == if self.is_past(now) {
                StandardService::Drop
            } else if reply_waits {
                StandardService::Keep
            } else {
                StandardService::Receive
            },
    {
        if let Some(deadline) = self.request {
            if now.at_least(deadline) {
                return StandardService::Drop;
            }
        }
        if let Some(deadline) = self.reply {
            if now.at_least(deadline) {
                return StandardService::Drop;
            }
        }
        if reply_waits {
            StandardService::Keep
        } else {
            StandardService::Receive
        }
    }

    /// Takes what the connection brought.
    pub fn received(&mut self, event: ConnectionEvent, now: Duration) -> (r: Result<
        StandardFollowUp,
        AuthDaemonError,
    >)
        ensures
            r == match event {
                ConnectionEvent::Closed => Ok::<StandardFollowUp, AuthDaemonError>(
                    StandardFollowUp::Drop,
                ),
                ConnectionEvent::Pending | ConnectionEvent::ReplyQueued => Ok(
                    StandardFollowUp::Keep,
                ),
                ConnectionEvent::Start => Ok(StandardFollowUp::Start),
                ConnectionEvent::Terminate | ConnectionEvent::Failed => Err(
                    AuthDaemonError::Scheduler,
                ),
            },
            *final(self) == match event {
                ConnectionEvent::ReplyQueued => StandardDeadlines {
                    request: None,
                    reply: Some(reply_due(now)),
                },
                ConnectionEvent::Start => StandardDeadlines { request: None, ..*old(self) },
                _ => *old(self),
            },
    {
        match event {
            ConnectionEvent::Closed => Ok(StandardFollowUp::Drop),
            ConnectionEvent::Pending => Ok(StandardFollowUp::Keep),
            ConnectionEvent::ReplyQueued => {
                self.request = None;
                self.reply = Some(reply_deadline(now));
                Ok(StandardFollowUp::Keep)
            },
            ConnectionEvent::Start => {
                self.request = None;
                Ok(StandardFollowUp::Start)
            },
            ConnectionEvent::Terminate | ConnectionEvent::Failed => Err(AuthDaemonError::Scheduler),
        }
    }

    /// Takes that work could not be handed to a worker and was finished with an
    /// error: its reply waits now.
    pub fn finished(&mut self, now: Duration)
        ensures
            *final(self) == (StandardDeadlines { reply: Some(reply_due(now)), ..*old(self) }),
    {
        self.reply = Some(reply_deadline(now));
    }

    /// Decides about the waiting reply of a connection that no run owns.
    pub fn flush(&self, reply_waits: bool, now: Duration) -> (r: FlushDecision)
        ensures
            r == if !reply_waits {
                FlushDecision::Leave
            } else if self.reply matches Some(deadline) && is_over(now, deadline) {
                FlushDecision::GiveUp
            } else {
                FlushDecision::Try
            },
    {
        if !reply_waits {
            return FlushDecision::Leave;
        }
        match self.reply {
            Some(deadline) => if now.at_least(deadline) {
                FlushDecision::GiveUp
            } else {
                FlushDecision::Try
            },
            None => FlushDecision::Try,
        }
    }

    /// Takes the outcome of trying to send: `Ok(true)` where everything was sent.
    /// A connection that fails is dropped.
    pub fn flushed(&mut self, outcome: Result<bool, SocketStatus>) -> (keep: bool)
        ensures
            keep == outcome is Ok,
            *final(self) == if outcome == Ok::<bool, SocketStatus>(true) {
                StandardDeadlines { reply: None, ..*old(self) }
            } else {
                *old(self)
            },
    {
        match outcome {
            Ok(sent) => {
                if sent {
                    self.reply = None;
                }
                true
            },
            Err(_) => false,
        }
    }
}

/// One piece of a tick's work.
#[derive(Clone, Copy, Debug, PartialEq, Eq, Structural)]
pub enum TickPhase {
    AcceptDirect,
    AcceptStandard,
    ProcessDirect,
    ProcessStandard,
    ObserveDisconnect,
    StandardControl,
    Decide,
    FlushStandard,
    FlushActive,
    PollWorker,
    FlushReplies,
    End,
}

impl TickPhase {
    /// The first phase of a tick: connections are served only while accepting.
    pub fn first(accepting: bool) -> (r: TickPhase)
        ensures
            r == if accepting {
                TickPhase::AcceptDirect
            } else {
                TickPhase::ObserveDisconnect
            },
    {
        if accepting {
            TickPhase::AcceptDirect
        } else {
            TickPhase::ObserveDisconnect
        }
    }

    /// The phase's place in a tick.
    pub open spec fn place(self) -> int {
        match self {
            TickPhase::AcceptDirect => 0,
            TickPhase::AcceptStandard => 1,
            TickPhase::ProcessDirect => 2,
            TickPhase::ProcessStandard => 3,
            TickPhase::ObserveDisconnect => 4,
            TickPhase::StandardControl => 5,
            TickPhase::Decide => 6,
            TickPhase::FlushStandard => 7,
            TickPhase::FlushActive => 8,
            TickPhase::PollWorker => 9,
            TickPhase::FlushReplies => 10,
            TickPhase::End => 11,
        }
    }

    /// The phase that follows; nothing follows the end.
    pub fn next(self) -> (r: TickPhase)
        ensures
            r.place() == if self == TickPhase::End {
                11
            } else {
                self.place() + 1
            },
    {
        match self {
            TickPhase::AcceptDirect => TickPhase::AcceptStandard,
            TickPhase::AcceptStandard => TickPhase::ProcessDirect,
            TickPhase::ProcessDirect => TickPhase::ProcessStandard,
            TickPhase::ProcessStandard => TickPhase::ObserveDisconnect,
            TickPhase::ObserveDisconnect => TickPhase::StandardControl,
            TickPhase::StandardControl => TickPhase::Decide,
            TickPhase::Decide => TickPhase::FlushStandard,
            TickPhase::FlushStandard => TickPhase::FlushActive,
            TickPhase::FlushActive => TickPhase::PollWorker,
            TickPhase::PollWorker => TickPhase::FlushReplies,
            TickPhase::FlushReplies => TickPhase::End,
            TickPhase::End => TickPhase::End,
        }
    }
}

} // verus!
