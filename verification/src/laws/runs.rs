//! What becomes of the one active run.

use crate::active_run::{
    direct_spawned, direct_start, standard_spawned, standard_start, ActiveDirectRun, ActiveRun,
    ActiveStandardRun, DirectProgress, DirectStart, StandardClient, StandardEntry,
    StandardProgress, StandardStart,
};
use crate::auth_daemon::{AuthDaemonError, ConnectionEvent, WorkerPoll};
use crate::auth_protocol::{ActiveModel, OperationToken, Response};
use crate::auth_scheduler::{
    BrokerServiceScheduler, ScheduledAuthentication, ScheduledStandardOperation, ServiceModel,
    WorkerLease,
};
use crate::auth_session::{
    AuthenticationCompletion, AuthenticationSessionFailure, StandardCompletion,
};
use crate::auth_socket::{ActiveBrokerSocketSession, SocketStatus};
use crate::biometric::MatchOutcome;
use crate::laws::daemon::is_after;
use crate::laws::service::{has_cancelled, has_ended, is_cancellable, is_held};
use crate::standard_fingerprint_protocol::{MessageModel, TerminalOutcome};
use crate::time::Duration;
use vstd::prelude::*;

verus! {

/// Whether the service holds the worker of this direct work.
pub open spec fn holds_direct(service: ServiceModel, work: ScheduledAuthentication) -> bool {
    is_held(service, work.service(), work.held_lease())
}

/// Whether the service holds the worker of this standard work.
pub open spec fn holds_standard(service: ServiceModel, work: ScheduledStandardOperation) -> bool {
    is_held(service, work.service(), work.held_lease())
}

/// Whether a cancellation reaches the operation of `token`.
pub open spec fn reaches(service: ServiceModel, coordinator: u64, token: OperationToken) -> bool {
    coordinator == service.coordinator.identity && is_cancellable(service)
        && service.coordinator.broker.active->0.token == token
}

/// What a cancellation of held work does: it is cancelled where it can be reached, and
/// nothing else changes.
pub open spec fn cancels(
    before: ServiceModel,
    held: bool,
    coordinator: u64,
    token: OperationToken,
    after: ServiceModel,
) -> bool {
    if held && reaches(before, coordinator, token) {
        has_cancelled(before, token, after)
    } else {
        after == before
    }
}

/// What the loss of a worker does: a held one ends the service for good.
pub open spec fn is_lost(before: ServiceModel, held: bool, after: ServiceModel) -> bool {
    if held {
        after.workers.poisoned && after.workers.active == before.workers.active
            && after.coordinator == before.coordinator && after.identity == before.identity
    } else {
        after == before
    }
}

/// A direct start beside an active run is lost; one whose worker cannot be started fails
/// and frees what it held; else it runs.
pub proof fn law_direct_work_starts_alone<D>(
    session: ActiveBrokerSocketSession<D>,
    active: bool,
    starting: &mut BrokerServiceScheduler,
    start: Result<ActiveBrokerSocketSession<D>, AuthDaemonError>,
    spawned: bool,
    spawning: &mut BrokerServiceScheduler,
    now: Duration,
    r: DirectStart<D>,
)
    requires
        call_ensures(direct_start::<D>, (session, active, starting), start),
        call_ensures(direct_spawned::<D>, (session, spawned, spawning, now), r),
    ensures
        start is Ok <==> !active,
        start is Ok ==> start->Ok_0 == session && final(starting)@ == old(starting)@,
        start is Err ==> start->Err_0 == AuthDaemonError::Scheduler && is_lost(
            old(starting)@,
            holds_direct(old(starting)@, session.work()),
            final(starting)@,
        ),
        r is Running <==> spawned,
        r matches DirectStart::Running(run) ==> run.bound() == session && !run.client_is_gone()
            && final(spawning)@ == old(spawning)@,
        r matches DirectStart::Reply(reply) ==> reply.retained() == Response::Failure
            && reply.target() == session.target() && (if holds_direct(
            old(spawning)@,
            session.work(),
        ) {
            has_ended(
                old(spawning)@,
                session.work().admitted().coordinator(),
                session.work().admitted().admitted().token,
                now,
                final(spawning)@,
            )
        } else {
            final(spawning)@ == old(spawning)@
        }),
{
}

/// A client that is gone, or cannot be seen to be there, cancels its run, once; only a run
/// that the service does not hold is a failure.
pub proof fn law_gone_clients_cancel_direct_runs<D>(
    run: &mut ActiveDirectRun<D>,
    peer_closed: Result<bool, SocketStatus>,
    service: &mut BrokerServiceScheduler,
    r: Result<(), AuthDaemonError>,
)
    requires
        call_ensures(
            ActiveDirectRun::<D>::observe_active_disconnect,
            (run, peer_closed, service),
            r,
        ),
    ensures
        ({
            let work = old(run).bound().work();
            let gone = !old(run).client_is_gone() && peer_closed != Ok::<bool, SocketStatus>(false);
            let held = holds_direct(old(service)@, work);
            &&& final(run).bound() == old(run).bound()
            &&& r is Err <==> gone && !held
            &&& r matches Err(error) ==> error == AuthDaemonError::Scheduler
            &&& final(run).client_is_gone() <==> old(run).client_is_gone() || (gone && held)
            &&& !gone ==> final(service)@ == old(service)@
            &&& gone ==> cancels(
                old(service)@,
                held,
                work.admitted().coordinator(),
                work.admitted().admitted().token,
                final(service)@,
            )
        }),
{
}

/// A run stays while its worker is pending. Its own completion ends it, and is answered to
/// a client that is still there; a completion of anything else, or none, loses the worker.
pub proof fn law_direct_runs_end_by_their_own_completion<D>(
    run: ActiveDirectRun<D>,
    poll: WorkerPoll<AuthenticationCompletion>,
    service: &mut BrokerServiceScheduler,
    now: Duration,
    r: DirectProgress<D>,
)
    requires
        call_ensures(ActiveDirectRun::<D>::worker_polled, (run, poll, service, now), r),
    ensures
        ({
            let operation = run.bound().work().admitted();
            let own = poll matches WorkerPoll::Completed(completion) && completion.completed()
                == operation.admitted().token && completion.coordinator()
                == operation.coordinator();
            let completion = poll->Completed_0;
            let held = holds_direct(old(service)@, run.bound().work());
            &&& r is Running <==> poll is Pending
            &&& r is Running ==> r->Running_0 == run && final(service)@ == old(service)@
            &&& r is Ended <==> own
            &&& r is Fatal ==> r->Fatal_0 == AuthDaemonError::WorkerLost && is_lost(
                old(service)@,
                held,
                final(service)@,
            )
            &&& own ==> {
                let sound = !old(service)@.workers.poisoned && held;
                let matched = sound && operation.coordinator() == old(
                    service
                )@.coordinator.identity && old(service)@.coordinator.broker.active == Some(
                    ActiveModel { token: operation.admitted().token, cancelled: false },
                ) && completion.outcome() == Ok::<MatchOutcome, AuthenticationSessionFailure>(
                    MatchOutcome::Matched,
                );
                &&& r->Ended_0 is Some <==> !run.client_is_gone()
                &&& r->Ended_0 matches Some(reply) ==> reply.target() == run.bound().target() && (
                reply.retained() == Response::Okay <==> matched) && (reply.retained()
                    == Response::Okay || reply.retained() == Response::Failure)
                &&& sound ==> has_ended(
                    old(service)@,
                    operation.coordinator(),
                    operation.admitted().token,
                    now,
                    final(service)@,
                )
                &&& !sound ==> final(service)@ == old(service)@
            }
        }),
{
}

/// What finishing standard work with a result is answered: its result, unless it was
/// cancelled, or is not this service's own.
pub open spec fn is_answered(
    before: ServiceModel,
    held: bool,
    coordinator: u64,
    token: OperationToken,
    result: MessageModel,
    now: Duration,
    message: MessageModel,
    after: ServiceModel,
) -> bool {
    let sound = !before.workers.poisoned && held;
    let active = before.coordinator.broker.active;
    let own = sound && coordinator == before.coordinator.identity;
    &&& own && active == Some(ActiveModel { token, cancelled: false }) ==> message == result
    &&& own && active == Some(ActiveModel { token, cancelled: true }) ==> message
        == MessageModel::Terminal(TerminalOutcome::Cancelled)
    &&& !own || !(active matches Some(running) && running.token == token) ==> message
        == MessageModel::Terminal(TerminalOutcome::Error)
    &&& sound ==> has_ended(before, coordinator, token, now, after)
    &&& !sound ==> after == before
}

/// Standard work starts alone too: beside an active run, or without a worker, it is
/// finished with an error.
pub proof fn law_standard_work_starts_alone(
    scheduled: ScheduledStandardOperation,
    active: bool,
    starting: &mut BrokerServiceScheduler,
    entry: StandardEntry,
    spawned: bool,
    spawning: &mut BrokerServiceScheduler,
    now: Duration,
    r: StandardStart,
)
    requires
        call_ensures(standard_start, (scheduled, active, starting, now), entry),
        call_ensures(standard_spawned, (scheduled, spawned, spawning, now), r),
    ensures
        ({
            let coordinator = scheduled.admitted().coordinator();
            let token = scheduled.admitted().admitted().token;
            let error = MessageModel::Terminal(TerminalOutcome::Error);
            &&& entry is Spawn <==> !active
            &&& entry matches StandardEntry::Spawn(spawning) ==> spawning == scheduled
                && final(starting)@ == old(starting)@
            &&& entry matches StandardEntry::Reply(message) ==> is_answered(
                old(starting)@,
                holds_standard(old(starting)@, scheduled),
                coordinator,
                token,
                error,
                now,
                message@,
                final(starting)@,
            )
            &&& r is Running <==> spawned
            &&& r matches StandardStart::Running(run) ==> run.bound() == scheduled && run.client()
                == (StandardClient { gone: false, reply_waits: false, reply_deadline: None })
                && final(spawning)@ == old(spawning)@
            &&& r matches StandardStart::Reply(message) ==> is_answered(
                old(spawning)@,
                holds_standard(old(spawning)@, scheduled),
                coordinator,
                token,
                error,
                now,
                message@,
                final(spawning)@,
            )
        }),
{
}

/// What the end of a standard client does to its run: it is cancelled where it can be,
/// and nothing waits for the client any more; a run that the service does not hold is a
/// failure and stays as it was.
pub open spec fn client_leaves(
    before: ActiveStandardRun,
    service: ServiceModel,
    failed: bool,
    after: ActiveStandardRun,
    service_after: ServiceModel,
) -> bool {
    let work = before.bound();
    let held = holds_standard(service, work);
    &&& after.bound() == work
    &&& failed <==> !held
    &&& held ==> after.client() == (StandardClient {
        gone: true,
        reply_waits: false,
        reply_deadline: None,
    })
    &&& !held ==> after.client() == before.client()
    &&& cancels(
        service,
        held,
        work.admitted().coordinator(),
        work.admitted().admitted().token,
        service_after,
    )
}

/// What a standard client's events do to its run: closing cancels it, a queued reply is due
/// in a quarter of a second, and anything but these and waiting is a failure.
pub proof fn law_standard_clients_control_their_runs(
    run: &mut ActiveStandardRun,
    event: ConnectionEvent,
    service: &mut BrokerServiceScheduler,
    now: Duration,
    r: Result<(), AuthDaemonError>,
)
    requires
        call_ensures(ActiveStandardRun::control_received, (run, event, service, now), r),
    ensures
        event == ConnectionEvent::Closed ==> client_leaves(
            *old(run),
            old(service)@,
            r is Err,
            *final(run),
            final(service)@,
        ),
        r matches Err(error) ==> error == AuthDaemonError::Scheduler,
        event != ConnectionEvent::Closed ==> final(service)@ == old(service)@,
        event == ConnectionEvent::Start || event == ConnectionEvent::Terminate || event
            == ConnectionEvent::Failed ==> r is Err && *final(run) == *old(run),
        event == ConnectionEvent::Pending ==> r is Ok && *final(run) == *old(run),
        event == ConnectionEvent::ReplyQueued ==> r is Ok && final(run).bound() == old(
            run
        ).bound() && final(run).client().gone == old(run).client().gone
            && final(run).client().reply_waits && final(run).client().reply_deadline is Some
            && is_after(now, 250_000_000, final(run).client().reply_deadline->0),
{
}

/// A reply is sent while its client is there and its time is not over; from then on, or
/// when sending fails, the client counts as gone.
pub proof fn law_standard_replies_are_sent_in_time(
    run: &mut ActiveStandardRun,
    service: &mut BrokerServiceScheduler,
    now: Duration,
    due: Result<bool, AuthDaemonError>,
    flushing: &mut ActiveStandardRun,
    flushing_service: &mut BrokerServiceScheduler,
    outcome: Result<bool, SocketStatus>,
    flushed: Result<(), AuthDaemonError>,
)
    requires
        call_ensures(ActiveStandardRun::flush_due, (run, service, now), due),
        call_ensures(
            ActiveStandardRun::reply_flushed,
            (flushing, outcome, flushing_service),
            flushed,
        ),
    ensures
        ({
            let client = old(run).client();
            let waits = !client.gone && client.reply_waits;
            let late = client.reply_deadline is Some && now.nanos
                >= client.reply_deadline->0.nanos;
            &&& due == Ok::<bool, AuthDaemonError>(true) <==> waits && !late
            &&& !(waits && late) ==> due is Ok && *final(run) == *old(run) && final(service)@
                == old(service)@
            &&& waits && late ==> client_leaves(
                *old(run),
                old(service)@,
                due is Err,
                *final(run),
                final(service)@,
            )
            &&& outcome is Err ==> client_leaves(
                *old(flushing),
                old(flushing_service)@,
                flushed is Err,
                *final(flushing),
                final(flushing_service)@,
            )
            &&& outcome is Ok ==> flushed is Ok && final(flushing_service)@ == old(
                flushing_service
            )@ && final(flushing).bound() == old(flushing).bound()
            &&& outcome == Ok::<bool, SocketStatus>(true) ==> final(flushing).client() == (
            StandardClient {
                gone: old(flushing).client().gone,
                reply_waits: false,
                reply_deadline: None,
            })
            &&& outcome == Ok::<bool, SocketStatus>(false) ==> *final(flushing) == *old(flushing)
        }),
{
}

/// A run listens to its client while it is there and no reply waits, polls its worker
/// while no reply waits, and queues progress for a client that is there.
pub proof fn law_standard_runs_take_turns(
    run: &ActiveStandardRun,
    reads: bool,
    polls: bool,
    gone: bool,
    waits: bool,
    deadline: Option<Duration>,
    progressing: &mut ActiveStandardRun,
    now: Duration,
    queue: bool,
)
    requires
        call_ensures(ActiveStandardRun::reads_control, (run,), reads),
        call_ensures(ActiveStandardRun::polls_worker, (run,), polls),
        call_ensures(ActiveStandardRun::disconnect_observed, (run,), gone),
        call_ensures(ActiveStandardRun::has_pending_reply, (run,), waits),
        call_ensures(ActiveStandardRun::reply_deadline, (run,), deadline),
        call_ensures(ActiveStandardRun::progress_received, (progressing, now), queue),
    ensures
        run.client() == (StandardClient { gone, reply_waits: waits, reply_deadline: deadline }),
        reads <==> !gone && !waits,
        polls <==> !waits,
        queue <==> !old(progressing).client().gone,
        final(progressing).bound() == old(progressing).bound(),
        !queue ==> final(progressing).client() == old(progressing).client(),
        queue ==> !final(progressing).client().gone && final(progressing).client().reply_waits
            && final(progressing).client().reply_deadline is Some && is_after(
            now,
            250_000_000,
            final(progressing).client().reply_deadline->0,
        ),
{
}

/// A standard run ends by its completion, which is answered to a client that is still
/// there; a lost worker ends the service.
pub proof fn law_standard_runs_end_by_their_completion(
    run: ActiveStandardRun,
    poll: WorkerPoll<StandardCompletion>,
    service: &mut BrokerServiceScheduler,
    now: Duration,
    r: StandardProgress,
)
    requires
        call_ensures(ActiveStandardRun::worker_polled, (run, poll, service, now), r),
    ensures
        ({
            let work = run.bound();
            let completion = poll->Completed_0;
            let held = holds_standard(old(service)@, work) && completion.completed()
                == work.admitted().admitted().token && completion.coordinator()
                == work.admitted().coordinator();
            &&& r is Running <==> poll is Pending
            &&& r is Running ==> r->Running_0 == run && final(service)@ == old(service)@
            &&& r is Fatal <==> poll is Lost
            &&& r is Fatal ==> r->Fatal_0 == AuthDaemonError::WorkerLost && is_lost(
                old(service)@,
                holds_standard(old(service)@, work),
                final(service)@,
            )
            &&& r is Ended ==> (r->Ended_0 is Some <==> !run.client().gone)
            &&& r is Ended && r->Ended_0 is Some ==> is_answered(
                old(service)@,
                held,
                completion.coordinator(),
                completion.completed(),
                completion.outcome(),
                now,
                r->Ended_0->0@,
                final(service)@,
            )
            &&& r is Ended && r->Ended_0 is None ==> (if !old(service)@.workers.poisoned && held {
                has_ended(
                    old(service)@,
                    completion.coordinator(),
                    completion.completed(),
                    now,
                    final(service)@,
                )
            } else {
                final(service)@ == old(service)@
            })
        }),
{
}

/// The service, the lease, the coordinator and the token that a run holds.
pub open spec fn ids_of<D>(run: ActiveRun<D>) -> (u64, WorkerLease, u64, OperationToken) {
    match run {
        ActiveRun::Direct(direct) => (
            direct.bound().work().service(),
            direct.bound().work().held_lease(),
            direct.bound().work().admitted().coordinator(),
            direct.bound().work().admitted().admitted().token,
        ),
        ActiveRun::Standard(standard) => (
            standard.bound().service(),
            standard.bound().held_lease(),
            standard.bound().admitted().coordinator(),
            standard.bound().admitted().admitted().token,
        ),
    }
}

/// Of either kind, a run is active where its worker is held; its deadline cancels it where
/// it can be reached; and only a run that is not held is a failure.
pub proof fn law_runs_are_cancelled_or_awaited<D>(
    run: &ActiveRun<D>,
    service: &BrokerServiceScheduler,
    active: bool,
    expiring: &mut BrokerServiceScheduler,
    delivered: bool,
    cancelling: &mut BrokerServiceScheduler,
    r: Result<(), AuthDaemonError>,
    losing: &mut BrokerServiceScheduler,
    lost: bool,
)
    requires
        call_ensures(ActiveRun::<D>::is_active_in, (run, service), active),
        call_ensures(ActiveRun::<D>::deadline_expired, (run, expiring), delivered),
        call_ensures(ActiveRun::<D>::cancel_or_await_completion, (run, cancelling), r),
        call_ensures(ActiveRun::<D>::worker_lost, (*run, losing), lost),
    ensures
        ({
            let (identity, lease, coordinator, token) = ids_of(*run);
            &&& active <==> is_held(service@, identity, lease)
            &&& delivered <==> is_held(old(expiring)@, identity, lease) && reaches(
                old(expiring)@,
                coordinator,
                token,
            )
            &&& cancels(
                old(expiring)@,
                is_held(old(expiring)@, identity, lease),
                coordinator,
                token,
                final(expiring)@,
            )
            &&& r is Ok <==> is_held(old(cancelling)@, identity, lease)
            &&& r matches Err(error) ==> error == AuthDaemonError::Scheduler
            &&& cancels(
                old(cancelling)@,
                is_held(old(cancelling)@, identity, lease),
                coordinator,
                token,
                final(cancelling)@,
            )
            &&& lost <==> is_held(old(losing)@, identity, lease)
            &&& is_lost(old(losing)@, lost, final(losing)@)
        }),
{
}

} // verus!
