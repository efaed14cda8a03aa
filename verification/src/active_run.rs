//! The one run that the broker's event loop keeps active, direct or standard.
//!
//! A run owns the scheduled work and what the loop knows of its client. The
//! caller owns the worker's thread, the sockets and the clock.

use crate::auth_daemon::{
    is_over, reply_deadline, reply_due, AuthDaemonError, ConnectionEvent, WorkerPoll,
};
use crate::auth_protocol::{OperationToken, Response};
use crate::auth_scheduler::{BrokerServiceScheduler, ScheduledStandardOperation, ServiceModel, WorkerLease};
use crate::auth_session::{AuthenticationCompletion, StandardCompletion};
use crate::auth_socket::{
    ActiveBrokerSocketSession, DisconnectObservation, PendingBrokerReply, SocketStatus,
};
use crate::standard_fingerprint_protocol::{MessageModel, ServerMessage};
use crate::time::Duration;
use vstd::prelude::*;

verus! {

/// The authority of a run: the work that a service scheduled for it.
pub struct RunAuthority {
    pub service: u64,
    pub lease: WorkerLease,
    pub coordinator: u64,
    pub token: OperationToken,
}

impl RunAuthority {
    /// Whether the run owns the worker of `service`.
    pub open spec fn owns(self, service: ServiceModel) -> bool {
        service.holds(self.service, self.lease)
    }

    /// Whether a cancellation would reach the run: it owns the worker, its
    /// operation is active, and delivery has not been closed.
    pub open spec fn can_be_cancelled(self, service: ServiceModel) -> bool {
        self.owns(service) && self.coordinator == service.coordinator.identity
            && service.coordinator.broker.is_active(self.token)
            && service.coordinator.can_deliver()
    }

    /// The service after a cancellation of the run was tried.
    pub open spec fn after_cancellation(self, service: ServiceModel) -> ServiceModel {
        if self.can_be_cancelled(service) {
            ServiceModel {
                coordinator: service.coordinator.with_cancelled(self.token),
                ..service
            }
        } else {
            service
        }
    }

    /// The service after the run's worker was reported lost.
    pub open spec fn after_loss(self, service: ServiceModel) -> ServiceModel {
        if self.owns(service) {
            ServiceModel { workers: service.workers.with_poison(), ..service }
        } else {
            service
        }
    }
}

/// A direct run.
pub struct ActiveDirectRun<D> {
    session: ActiveBrokerSocketSession<D>,
    disconnect_observed: bool,
}

/// What becomes of a direct start.
pub enum DirectStart<D> {
    /// The worker runs.
    Running(ActiveDirectRun<D>),
    /// The worker could not be started: this reply waits.
    Reply(PendingBrokerReply<D>),
}

/// What becomes of a direct run after its worker was polled.
pub enum DirectProgress<D> {
    /// It stays active.
    Running(ActiveDirectRun<D>),
    /// It has ended; a client that is still there gets this reply.
    Ended(Option<PendingBrokerReply<D>>),
    /// Leave the loop with this failure.
    Fatal(AuthDaemonError),
}

/// The authority of a direct session.
pub open spec fn direct_authority<D>(session: ActiveBrokerSocketSession<D>) -> RunAuthority {
    RunAuthority {
        service: session.work().service(),
        lease: session.work().held_lease(),
        coordinator: session.work().admitted().coordinator(),
        token: session.work().admitted().admitted().token,
    }
}

/// Lets a direct start go on to its worker. Beside an active run the service's
/// ownership of the hardware is uncertain: the new work is reported lost.
pub fn direct_start<D>(
    session: ActiveBrokerSocketSession<D>,
    active: bool,
    service: &mut BrokerServiceScheduler,
) -> (r: Result<ActiveBrokerSocketSession<D>, AuthDaemonError>)
    requires
        old(service)@.well_formed(),
    ensures
        final(service)@.well_formed(),
        r == if active {
            Err(AuthDaemonError::Scheduler)
        } else {
            Ok(session)
        },
        final(service)@ == if active {
            direct_authority(session).after_loss(old(service)@)
        } else {
            old(service)@
        },
{
    if active {
        session.worker_lost(service);
        return Err(AuthDaemonError::Scheduler);
    }
    Ok(session)
}

/// Takes whether the worker of a direct start could be started.
pub fn direct_spawned<D>(
    session: ActiveBrokerSocketSession<D>,
    spawned: bool,
    service: &mut BrokerServiceScheduler,
    now: Duration,
) -> (r: DirectStart<D>)
    requires
        old(service)@.well_formed(),
    ensures
        final(service)@.well_formed(),
        match r {
            DirectStart::Running(run) => spawned && run.bound() == session
                && !run.client_is_gone() && final(service)@ == old(service)@,
            DirectStart::Reply(reply) => !spawned && reply.target() == session.target()
                && reply.retained() == Response::Failure && final(service)@
                == old(service)@.after_abandon(session.work(), now),
        },
{
    if spawned {
        DirectStart::Running(ActiveDirectRun { session, disconnect_observed: false })
    } else {
        DirectStart::Reply(session.abandon(service, now))
    }
}

impl<D> ActiveDirectRun<D> {
    /// The session that the run serves.
    pub closed spec fn bound(self) -> ActiveBrokerSocketSession<D> {
        self.session
    }

    /// Whether the client is known to be gone; nothing is sent to it any more.
    pub closed spec fn client_is_gone(self) -> bool {
        self.disconnect_observed
    }

    /// The run's authority.
    pub open spec fn authority(self) -> RunAuthority {
        direct_authority(self.bound())
    }

    /// The session that the run serves.
    pub fn session(&self) -> (r: &ActiveBrokerSocketSession<D>)
        ensures
            *r == self.bound(),
    {
        &self.session
    }

    /// Whether the client is known to be gone.
    pub fn disconnect_observed(&self) -> (r: bool)
        ensures
            r == self.client_is_gone(),
    {
        self.disconnect_observed
    }

    /// Takes the outcome of probing the client for closure. A client that is gone
    /// cancels the run; where delivery is closed, the run's own completion is
    /// awaited, and a run that owns no worker of this service is a failure.
    pub fn observe_active_disconnect(
        &mut self,
        peer_closed: Result<bool, SocketStatus>,
        service: &mut BrokerServiceScheduler,
    ) -> (r: Result<(), AuthDaemonError>)
        requires
            old(service)@.well_formed(),
        ensures
            final(service)@.well_formed(),
            final(self).bound() == old(self).bound(),
            ({
                let probed = !old(self).client_is_gone() && peer_closed != Ok::<
                    bool,
                    SocketStatus,
                >(false);
                &&& r == if probed && !old(self).authority().owns(old(service)@) {
                    Err::<(), AuthDaemonError>(AuthDaemonError::Scheduler)
                } else {
                    Ok(())
                }
                &&& final(self).client_is_gone() == (old(self).client_is_gone() || (probed
                    && r is Ok))
                &&& final(service)@ == if probed {
                    old(self).authority().after_cancellation(old(service)@)
                } else {
                    old(service)@
                }
            }),
    {
        if self.disconnect_observed {
            return Ok(());
        }
        match self.session.observe_disconnect(peer_closed, service) {
            DisconnectObservation::Connected => Ok(()),
            DisconnectObservation::CancellationDelivered => {
                self.disconnect_observed = true;
                Ok(())
            },
            DisconnectObservation::OperationInactive => {
                if !self.session.is_active_in(service) {
                    return Err(AuthDaemonError::Scheduler);
                }
                self.disconnect_observed = true;
                Ok(())
            },
        }
    }

    /// Takes what polling the worker gave: a completion ends the run, and one of
    /// another operation counts as a lost worker.
    pub fn worker_polled(
        self,
        poll: WorkerPoll<AuthenticationCompletion>,
        service: &mut BrokerServiceScheduler,
        now: Duration,
    ) -> (r: DirectProgress<D>)
        requires
            old(service)@.well_formed(),
        ensures
            final(service)@.well_formed(),
            match poll {
                WorkerPoll::Pending => r == DirectProgress::Running(self) && final(service)@
                    == old(service)@,
                WorkerPoll::Completed(completion) => if completion.belongs(
                    self.bound().work().admitted(),
                ) {
                    r matches DirectProgress::Ended(reply) && match reply {
                        Some(reply) => !self.client_is_gone() && reply.target()
                            == self.bound().target() && old(service)@.finishes(
                            self.bound().work(),
                            completion,
                            now,
                            reply.retained(),
                            final(service)@,
                        ),
                        None => self.client_is_gone() && exists|response: Response|
                            old(service)@.finishes(
                                self.bound().work(),
                                completion,
                                now,
                                response,
                                final(service)@,
                            ),
                    }
                } else {
                    r == DirectProgress::<D>::Fatal(AuthDaemonError::WorkerLost)
                        && final(service)@ == self.authority().after_loss(old(service)@)
                },
                WorkerPoll::Lost => r == DirectProgress::<D>::Fatal(AuthDaemonError::WorkerLost)
                    && final(service)@ == self.authority().after_loss(old(service)@),
            },
    {
        match poll {
            WorkerPoll::Pending => DirectProgress::Running(self),
            WorkerPoll::Completed(completion) => {
                if !completion.belongs_to(self.session.authentication()) {
                    self.session.worker_lost(service);
                    return DirectProgress::Fatal(AuthDaemonError::WorkerLost);
                }
                let gone = self.disconnect_observed;
                let reply = self.session.finish(service, &completion, now);
                if gone {
                    DirectProgress::Ended(None)
                } else {
                    DirectProgress::Ended(Some(reply))
                }
            },
            WorkerPoll::Lost => {
                self.session.worker_lost(service);
                DirectProgress::Fatal(AuthDaemonError::WorkerLost)
            },
        }
    }
}

/// A standard run. The caller owns its connection, which holds the waiting reply.
pub struct ActiveStandardRun {
    scheduled: ScheduledStandardOperation,
    disconnect_observed: bool,
    reply_waits: bool,
    reply_deadline: Option<Duration>,
}

/// The client's side of a standard run as the contracts see it.
pub struct StandardClient {
    /// The client is known to be gone.
    pub gone: bool,
    /// A reply waits to be sent.
    pub reply_waits: bool,
    /// When the waiting reply has to be sent.
    pub reply_deadline: Option<Duration>,
}

/// What becomes of a standard start.
pub enum StandardStart {
    /// The worker runs.
    Running(ActiveStandardRun),
    /// It was finished with this message, which waits as the connection's reply.
    Reply(ServerMessage),
}

/// What becomes of a standard run after its worker was polled.
pub enum StandardProgress {
    /// It stays active.
    Running(ActiveStandardRun),
    /// It has ended; a client that is still there gets this message.
    Ended(Option<ServerMessage>),
    /// Leave the loop with this failure.
    Fatal(AuthDaemonError),
}

/// The authority of scheduled standard work.
pub open spec fn standard_authority(scheduled: ScheduledStandardOperation) -> RunAuthority {
    RunAuthority {
        service: scheduled.service(),
        lease: scheduled.held_lease(),
        coordinator: scheduled.admitted().coordinator(),
        token: scheduled.admitted().admitted().token,
    }
}

/// What finishing scheduled standard work with a completion's result gives.
pub open spec fn finishes_standard(
    before: ServiceModel,
    scheduled: ScheduledStandardOperation,
    completion: StandardCompletion,
    now: Duration,
    message: MessageModel,
    after: ServiceModel,
) -> bool {
    if !before.workers.poisoned && standard_authority(scheduled).owns(before)
        && completion.belongs(scheduled.admitted()) {
        message == before.coordinator.message_to(
            completion.coordinator(),
            completion.completed(),
            completion.outcome(),
        ) && after == before.after_end(completion.coordinator(), completion.completed(), now)
    } else {
        message == MessageModel::error() && after == before
    }
}

/// What finishing scheduled standard work with an error gives.
pub open spec fn errs_standard(
    before: ServiceModel,
    scheduled: ScheduledStandardOperation,
    now: Duration,
    message: MessageModel,
    after: ServiceModel,
) -> bool {
    if before.workers.poisoned || !standard_authority(scheduled).owns(before) {
        message == MessageModel::error() && after == before
    } else {
        message == before.coordinator.message_to(
            scheduled.admitted().coordinator(),
            scheduled.admitted().admitted().token,
            MessageModel::error(),
        ) && after == before.after_end(
            scheduled.admitted().coordinator(),
            scheduled.admitted().admitted().token,
            now,
        )
    }
}

/// What to do with a standard start.
pub enum StandardEntry {
    /// Start its worker and report with [`standard_spawned`].
    Spawn(ScheduledStandardOperation),
    /// Its client gets this message.
    Reply(ServerMessage),
}

/// Lets a standard start go on to its worker. Beside an active run no worker starts:
/// the new work is finished with an error.
pub fn standard_start(
    scheduled: ScheduledStandardOperation,
    active: bool,
    service: &mut BrokerServiceScheduler,
    now: Duration,
) -> (r: StandardEntry)
    requires
        old(service)@.well_formed(),
    ensures
        final(service)@.well_formed(),
        match r {
            StandardEntry::Spawn(spawning) => !active && spawning == scheduled && final(service)@
                == old(service)@,
            StandardEntry::Reply(message) => active && errs_standard(
                old(service)@,
                scheduled,
                now,
                message@,
                final(service)@,
            ),
        },
{
    if active {
        let completion = scheduled.operation().completion_for_worker(ServerMessage::error());
        return StandardEntry::Reply(service.finish_standard(&scheduled, &completion, now));
    }
    StandardEntry::Spawn(scheduled)
}

/// Takes whether the worker of a standard start could be started: a start without a
/// worker is finished with an error.
pub fn standard_spawned(
    scheduled: ScheduledStandardOperation,
    spawned: bool,
    service: &mut BrokerServiceScheduler,
    now: Duration,
) -> (r: StandardStart)
    requires
        old(service)@.well_formed(),
    ensures
        final(service)@.well_formed(),
        match r {
            StandardStart::Running(run) => spawned && run.bound() == scheduled && run.client()
                == (StandardClient { gone: false, reply_waits: false, reply_deadline: None })
                && final(service)@ == old(service)@,
            StandardStart::Reply(message) => !spawned && errs_standard(
                old(service)@,
                scheduled,
                now,
                message@,
                final(service)@,
            ),
        },
{
    if spawned {
        return StandardStart::Running(
            ActiveStandardRun {
                scheduled,
                disconnect_observed: false,
                reply_waits: false,
                reply_deadline: None,
            },
        );
    }
    let completion = scheduled.operation().completion_for_worker(ServerMessage::error());
    StandardStart::Reply(service.finish_standard(&scheduled, &completion, now))
}

impl ActiveStandardRun {
    /// The scheduled work.
    pub closed spec fn bound(self) -> ScheduledStandardOperation {
        self.scheduled
    }

    /// The client's side of the run.
    pub closed spec fn client(self) -> StandardClient {
        StandardClient {
            gone: self.disconnect_observed,
            reply_waits: self.reply_waits,
            reply_deadline: self.reply_deadline,
        }
    }

    /// The run's authority.
    pub open spec fn authority(self) -> RunAuthority {
        standard_authority(self.bound())
    }

    /// The scheduled work.
    pub fn scheduled(&self) -> (r: &ScheduledStandardOperation)
        ensures
            *r == self.bound(),
    {
        &self.scheduled
    }

    /// Whether the client is known to be gone.
    pub fn disconnect_observed(&self) -> (r: bool)
        ensures
            r == self.client().gone,
    {
        self.disconnect_observed
    }

    /// Whether a reply waits to be sent.
    pub fn has_pending_reply(&self) -> (r: bool)
        ensures
            r == self.client().reply_waits,
    {
        self.reply_waits
    }

    /// When the waiting reply has to be sent.
    pub fn reply_deadline(&self) -> (r: Option<Duration>)
        ensures
            r == self.client().reply_deadline,
    {
        self.reply_deadline
    }

    /// What a client's disappearance gives.
    pub open spec fn disconnects(
        self,
        service: ServiceModel,
        r: Result<(), AuthDaemonError>,
        after: ActiveStandardRun,
        service_after: ServiceModel,
    ) -> bool {
        &&& after.bound() == self.bound()
        &&& r == if self.authority().owns(service) {
            Ok::<(), AuthDaemonError>(())
        } else {
            Err(AuthDaemonError::Scheduler)
        }
        &&& after.client() == if self.authority().owns(service) {
            StandardClient { gone: true, reply_waits: false, reply_deadline: None }
        } else {
            self.client()
        }
        &&& service_after == self.authority().after_cancellation(service)
    }

    /// Takes that the client is gone: the run is cancelled where delivery is
    /// open, and the waiting reply is discarded. A run that owns no worker of this
    /// service is a failure.
    pub fn disconnect_standard_run(&mut self, service: &mut BrokerServiceScheduler) -> (r: Result<
        (),
        AuthDaemonError,
    >)
        requires
            old(service)@.well_formed(),
        ensures
            final(service)@.well_formed(),
            old(self).disconnects(old(service)@, r, *final(self), final(service)@),
    {
        if !service.standard_client_disconnected(&self.scheduled) && !service.owns_standard(
            &self.scheduled,
        ) {
            return Err(AuthDaemonError::Scheduler);
        }
        self.reply_waits = false;
        self.reply_deadline = None;
        self.disconnect_observed = true;
        Ok(())
    }

    /// Whether the connection is read for control messages.
    pub fn reads_control(&self) -> (r: bool)
        ensures
            r == (!self.client().gone && !self.client().reply_waits),
    {
        !self.disconnect_observed && !self.reply_waits
    }

    /// Takes what the connection brought.
    pub fn control_received(
        &mut self,
        event: ConnectionEvent,
        service: &mut BrokerServiceScheduler,
        now: Duration,
    ) -> (r: Result<(), AuthDaemonError>)
        requires
            old(service)@.well_formed(),
        ensures
            final(service)@.well_formed(),
            match event {
                ConnectionEvent::Pending => r == Ok::<(), AuthDaemonError>(()) && *final(self)
                    == *old(self) && final(service)@ == old(service)@,
                ConnectionEvent::Closed => old(self).disconnects(
                    old(service)@,
                    r,
                    *final(self),
                    final(service)@,
                ),
                ConnectionEvent::ReplyQueued => r == Ok::<(), AuthDaemonError>(()) && final(self).bound() == old(self).bound() && final(self).client() == (StandardClient {
                    reply_waits: true,
                    reply_deadline: Some(reply_due(now)),
                    ..old(self).client()
                }) && final(service)@ == old(service)@,
                ConnectionEvent::Start | ConnectionEvent::Terminate | ConnectionEvent::Failed => r
                    == Err::<(), AuthDaemonError>(AuthDaemonError::Scheduler) && *final(self)
                    == *old(self) && final(service)@ == old(service)@,
            },
    {
        match event {
            ConnectionEvent::Pending => Ok(()),
            ConnectionEvent::Closed => self.disconnect_standard_run(service),
            ConnectionEvent::ReplyQueued => {
                self.reply_waits = true;
                self.reply_deadline = Some(reply_deadline(now));
                Ok(())
            },
            ConnectionEvent::Start | ConnectionEvent::Terminate | ConnectionEvent::Failed => Err(
                AuthDaemonError::Scheduler,
            ),
        }
    }

    /// Whether the waiting reply is to be sent now. One whose deadline has been
    /// reached counts as a client that is gone.
    pub fn flush_due(&mut self, service: &mut BrokerServiceScheduler, now: Duration) -> (r: Result<
        bool,
        AuthDaemonError,
    >)
        requires
            old(service)@.well_formed(),
        ensures
            final(service)@.well_formed(),
            if old(self).client().gone || !old(self).client().reply_waits {
                r == Ok::<bool, AuthDaemonError>(false) && *final(self) == *old(self)
                    && final(service)@ == old(service)@
            } else if old(self).client().reply_deadline matches Some(deadline) && is_over(
                now,
                deadline,
            ) {
                exists|end: Result<(), AuthDaemonError>|
                    #[trigger] old(self).disconnects(
                        old(service)@,
                        end,
                        *final(self),
                        final(service)@,
                    ) && r == match end {
                        Ok(()) => Ok::<bool, AuthDaemonError>(false),
                        Err(error) => Err(error),
                    }
            } else {
                r == Ok::<bool, AuthDaemonError>(true) && *final(self) == *old(self)
                    && final(service)@ == old(service)@
            },
    {
        if self.disconnect_observed || !self.reply_waits {
            return Ok(false);
        }
        let over = match self.reply_deadline {
            Some(deadline) => now.at_least(deadline),
            None => false,
        };
        if !over {
            return Ok(true);
        }
        match self.disconnect_standard_run(service) {
            Ok(()) => Ok(false),
            Err(error) => Err(error),
        }
    }

    /// Takes the outcome of sending the waiting reply: sent completely, in part,
    /// or not at all, which counts as a client that is gone.
    pub fn reply_flushed(
        &mut self,
        outcome: Result<bool, SocketStatus>,
        service: &mut BrokerServiceScheduler,
    ) -> (r: Result<(), AuthDaemonError>)
        requires
            old(service)@.well_formed(),
        ensures
            final(service)@.well_formed(),
            match outcome {
                Ok(true) => r == Ok::<(), AuthDaemonError>(()) && final(self).bound() == old(self).bound() && final(self).client() == (StandardClient {
                    reply_waits: false,
                    reply_deadline: None,
                    ..old(self).client()
                }) && final(service)@ == old(service)@,
                Ok(false) => r == Ok::<(), AuthDaemonError>(()) && *final(self) == *old(self)
                    && final(service)@ == old(service)@,
                Err(_) => old(self).disconnects(old(service)@, r, *final(self), final(service)@),
            },
    {
        match outcome {
            Ok(true) => {
                self.reply_waits = false;
                self.reply_deadline = None;
                Ok(())
            },
            Ok(false) => Ok(()),
            Err(_) => self.disconnect_standard_run(service),
        }
    }

    /// Whether the worker is polled: not while a reply waits.
    pub fn polls_worker(&self) -> (r: bool)
        ensures
            r == !self.client().reply_waits,
    {
        !self.reply_waits
    }

    /// Takes progress of the worker: it is queued as a reply for a client that is
    /// still there.
    pub fn progress_received(&mut self, now: Duration) -> (queue: bool)
        ensures
            queue == !old(self).client().gone,
            final(self).bound() == old(self).bound(),
            final(self).client() == if queue {
                StandardClient {
                    reply_waits: true,
                    reply_deadline: Some(reply_due(now)),
                    ..old(self).client()
                }
            } else {
                old(self).client()
            },
    {
        if self.disconnect_observed {
            return false;
        }
        self.reply_waits = true;
        self.reply_deadline = Some(reply_deadline(now));
        true
    }

    /// Takes what polling the worker gave: a completion ends the run.
    pub fn worker_polled(
        self,
        poll: WorkerPoll<StandardCompletion>,
        service: &mut BrokerServiceScheduler,
        now: Duration,
    ) -> (r: StandardProgress)
        requires
            old(service)@.well_formed(),
        ensures
            final(service)@.well_formed(),
            match poll {
                WorkerPoll::Pending => r == StandardProgress::Running(self) && final(service)@
                    == old(service)@,
                WorkerPoll::Completed(completion) => r matches StandardProgress::Ended(message)
                    && match message {
                    Some(message) => !self.client().gone && finishes_standard(
                        old(service)@,
                        self.bound(),
                        completion,
                        now,
                        message@,
                        final(service)@,
                    ),
                    None => self.client().gone && exists|message: MessageModel|
                        finishes_standard(
                            old(service)@,
                            self.bound(),
                            completion,
                            now,
                            message,
                            final(service)@,
                        ),
                },
                WorkerPoll::Lost => r == StandardProgress::Fatal(AuthDaemonError::WorkerLost)
                    && final(service)@ == self.authority().after_loss(old(service)@),
            },
    {
        match poll {
            WorkerPoll::Pending => StandardProgress::Running(self),
            WorkerPoll::Completed(completion) => {
                let ghost before = service@;
                let message = service.finish_standard(&self.scheduled, &completion, now);
                proof {
                    assert(finishes_standard(
                        before,
                        self.bound(),
                        completion,
                        now,
                        message@,
                        service@,
                    ));
                }
                if self.disconnect_observed {
                    StandardProgress::Ended(None)
                } else {
                    StandardProgress::Ended(Some(message))
                }
            },
            WorkerPoll::Lost => {
                service.standard_worker_lost(&self.scheduled);
                StandardProgress::Fatal(AuthDaemonError::WorkerLost)
            },
        }
    }
}

/// The active run.
pub enum ActiveRun<D> {
    Direct(ActiveDirectRun<D>),
    Standard(ActiveStandardRun),
}

impl<D> ActiveRun<D> {
    /// The run's authority.
    pub open spec fn authority(self) -> RunAuthority {
        match self {
            ActiveRun::Direct(run) => run.authority(),
            ActiveRun::Standard(run) => run.authority(),
        }
    }

    /// Cancels the run where delivery is open; the run stays active until its
    /// worker has ended.
    pub fn deadline_expired(&self, service: &mut BrokerServiceScheduler) -> (delivered: bool)
        requires
            old(service)@.well_formed(),
        ensures
            final(service)@.well_formed(),
            delivered == self.authority().can_be_cancelled(old(service)@),
            final(service)@ == self.authority().after_cancellation(old(service)@),
    {
        match self {
            ActiveRun::Direct(run) => run.session.deadline_expired(service),
            ActiveRun::Standard(run) => service.standard_deadline_expired(&run.scheduled),
        }
    }

    /// Whether the run owns the service's worker.
    pub fn is_active_in(&self, service: &BrokerServiceScheduler) -> (r: bool)
        ensures
            r == self.authority().owns(service@),
    {
        match self {
            ActiveRun::Direct(run) => run.session.is_active_in(service),
            ActiveRun::Standard(run) => service.owns_standard(&run.scheduled),
        }
    }

    /// Cancels a run whose deadline has been reached. A mutation cutoff can refuse
    /// delivery while durable work still owns the worker: its exact completion is
    /// awaited. A run that owns no worker of this service is a failure.
    pub fn cancel_or_await_completion(&self, service: &mut BrokerServiceScheduler) -> (r: Result<
        (),
        AuthDaemonError,
    >)
        requires
            old(service)@.well_formed(),
        ensures
            final(service)@.well_formed(),
            r == if self.authority().owns(old(service)@) {
                Ok::<(), AuthDaemonError>(())
            } else {
                Err(AuthDaemonError::Scheduler)
            },
            final(service)@ == self.authority().after_cancellation(old(service)@),
    {
        if self.deadline_expired(service) || self.is_active_in(service) {
            Ok(())
        } else {
            Err(AuthDaemonError::Scheduler)
        }
    }

    /// Reports the run's worker lost.
    pub fn worker_lost(self, service: &mut BrokerServiceScheduler) -> (r: bool)
        requires
            old(service)@.well_formed(),
        ensures
            final(service)@.well_formed(),
            r == self.authority().owns(old(service)@),
            final(service)@ == self.authority().after_loss(old(service)@),
    {
        match self {
            ActiveRun::Direct(run) => run.session.worker_lost(service),
            ActiveRun::Standard(run) => service.standard_worker_lost(&run.scheduled),
        }
    }
}

/// Cancelling a run, once or again, never takes its worker from it: the worker is
/// freed only by the run's own end.
pub proof fn law_cancellation_leaves_the_worker_owned(run: RunAuthority, service: ServiceModel)
    ensures
        run.owns(run.after_cancellation(service)) == run.owns(service),
        run.after_cancellation(service).workers == service.workers,
{
}

/// A run of one service has no effect on another: it can neither cancel there nor
/// cost that service its worker.
pub proof fn law_foreign_runs_change_nothing(run: RunAuthority, service: ServiceModel)
    requires
        run.service != service.identity,
    ensures
        !run.owns(service),
        run.after_cancellation(service) == service,
        run.after_loss(service) == service,
{
}

} // verus!
