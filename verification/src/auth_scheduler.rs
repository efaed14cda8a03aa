//! Scheduling policy for the socket-activated authentication broker.

use crate::auth_feedback::{lemma_nothing_is_presented, presents, AuthenticationFeedback};
use crate::auth_protocol::{
    cancels_as_root, AccessPolicy, PeerMetadata, Purpose, Response, MAX_MATCH_TIMEOUT_SECS,
    SETUP_ALLOWANCE_SECS,
};
use crate::auth_session::{
    ActiveAuthentication, ActiveStandardOperation, AuthenticationCompletion,
    BrokerSessionCoordinator, CoordinatorModel, SessionDecision, StandardCompletion,
    StandardSessionDecision,
};
use crate::biometric::MatchOutcome;
use crate::standard_fingerprint_protocol::{MessageModel, ServerMessage};
use crate::standard_operation_authority::{ResolvedStandardOperation, StandardAuthority};
use crate::time::{Duration, MAX_NANOS};
use vstd::prelude::*;

verus! {

/// Complete setup-and-match budget for one hardware worker, in seconds.
pub const OPERATION_TIMEOUT_SECS: u64 = 65;

/// Complete outer budget for enrollment setup, capture, durable export and
/// cleanup, in seconds.
pub const ENROLLMENT_OPERATION_TIMEOUT_SECS: u64 = 900;

/// The operation budget is the setup allowance and the longest match.
pub proof fn law_operation_budget_covers_setup_and_match()
    ensures
        OPERATION_TIMEOUT_SECS == SETUP_ALLOWANCE_SECS + MAX_MATCH_TIMEOUT_SECS,
{
}

/// Complete setup-and-match budget for one hardware worker.
pub fn operation_timeout() -> (r: Duration)
    ensures
        r == Duration::of_seconds(OPERATION_TIMEOUT_SECS),
{
    Duration::from_secs(OPERATION_TIMEOUT_SECS)
}

/// Complete outer budget for enrollment.
pub fn enrollment_operation_timeout() -> (r: Duration)
    ensures
        r == Duration::of_seconds(ENROLLMENT_OPERATION_TIMEOUT_SECS),
{
    Duration::from_secs(ENROLLMENT_OPERATION_TIMEOUT_SECS)
}

/// Opaque lifecycle identity for one in-process worker. It is no authentication
/// token and carries no cancellation authority.
#[derive(Clone, Copy, PartialEq, Eq, Structural)]
pub struct WorkerLease(u64);

impl WorkerLease {
    /// The lease's place in the order in which leases are given out.
    pub closed spec fn number(self) -> u64 {
        self.0
    }

    /// A diagnostic that does not show the lease.
    pub fn diagnostic(&self) -> (text: &'static str)
        ensures
            text@ == "WorkerLease(<redacted>)"@,
    {
        "WorkerLease(<redacted>)"
    }
}

/// Result of offering one hardware operation to the scheduler.
#[derive(Clone, Copy, PartialEq, Eq, Structural)]
pub enum WorkerAdmission {
    /// The caller may start exactly one worker with this lease and deadline.
    Start { lease: WorkerLease, deadline: Duration },
    /// One worker is already active; the request must be told so now.
    Busy,
    /// The broker must terminate rather than accept more hardware work.
    Terminate,
}

/// Caller action selected from current time and worker ownership.
#[derive(Clone, Copy, PartialEq, Eq, Structural)]
pub enum LifecycleDecision {
    /// Keep servicing the socket and current worker.
    Continue,
    /// Deliver cancellation to the exact worker once; keep it active until it
    /// reports completion.
    Cancel(WorkerLease),
    /// No work is active or pending and the socket-activated process may exit.
    ExitIdle,
    /// Worker ownership became uncertain; terminate the broker process.
    Terminate,
}

/// Invalid broker scheduler policy.
#[derive(Clone, Copy, Debug, PartialEq, Eq, Structural)]
pub enum SchedulerError {
    ZeroIdleTimeout,
}

impl SchedulerError {
    /// A fixed message.
    pub fn message(self) -> (message: &'static str)
        ensures
            message@ == "broker idle timeout must be nonzero"@,
    {
        "broker idle timeout must be nonzero"
    }
}

#[derive(Clone, Copy)]
struct ActiveWorker {
    lease: WorkerLease,
    deadline: Duration,
    cancellation_sent: bool,
}

/// Pure one-worker lifecycle for a socket-activated broker.
///
/// The caller supplies readings from one monotonic clock. The scheduler never
/// queues hardware requests: an active worker makes every new admission
/// immediately busy. Deadline expiry delivers one cancellation decision, but the
/// worker remains active until its exact lease reports completion. A lost worker
/// poisons the scheduler, so uncertain work can never be replaced by a new
/// operation.
pub struct BrokerScheduler {
    idle_timeout: Duration,
    idle_since: Duration,
    active: Option<ActiveWorker>,
    next_lease: u64,
    poisoned: bool,
}

/// The active worker as the contracts see it.
pub struct WorkerModel {
    pub lease: WorkerLease,
    pub deadline: Duration,
    pub cancellation_sent: bool,
}

/// The scheduler as the contracts see it. The next lease is 0 once every lease
/// has been given out.
pub struct WorkersModel {
    pub idle_timeout: Duration,
    pub idle_since: Duration,
    pub active: Option<WorkerModel>,
    pub next_lease: u64,
    pub poisoned: bool,
}

impl WorkersModel {
    /// An idle scheduler.
    pub open spec fn idle(now: Duration, idle_timeout: Duration) -> WorkersModel {
        WorkersModel {
            idle_timeout,
            idle_since: now,
            active: None,
            next_lease: 1,
            poisoned: false,
        }
    }

    /// Whether `lease` names the active worker.
    pub open spec fn holds(self, lease: WorkerLease) -> bool {
        self.active matches Some(worker) && worker.lease == lease
    }

    /// Whether the deadline and the lease of a new worker can be had.
    pub open spec fn can_bound(self, now: Duration, timeout: Duration) -> bool {
        now.nanos + timeout.nanos <= MAX_NANOS && self.next_lease != 0
    }

    /// Whether a new worker can start.
    pub open spec fn can_admit(self, now: Duration, timeout: Duration) -> bool {
        !self.poisoned && self.active is None && self.can_bound(now, timeout)
    }

    /// The scheduler, terminating for good.
    pub open spec fn with_poison(self) -> WorkersModel {
        WorkersModel { poisoned: true, ..self }
    }

    /// The lease after the next one.
    pub open spec fn following_lease(self) -> u64 {
        if self.next_lease == u64::MAX {
            0
        } else {
            (self.next_lease + 1) as u64
        }
    }

    /// What offering an operation gives, and the scheduler afterwards.
    pub open spec fn admits(
        self,
        now: Duration,
        timeout: Duration,
        admission: WorkerAdmission,
        after: WorkersModel,
    ) -> bool {
        if self.poisoned {
            admission == WorkerAdmission::Terminate && after == self
        } else if self.active is Some {
            admission == WorkerAdmission::Busy && after == self
        } else if !self.can_bound(now, timeout) {
            admission == WorkerAdmission::Terminate && after == self.with_poison()
        } else {
            admission matches WorkerAdmission::Start { lease, deadline } && lease.number()
                == self.next_lease && deadline.nanos == now.nanos + timeout.nanos && after
                == (WorkersModel {
                active: Some(WorkerModel { lease, deadline, cancellation_sent: false }),
                next_lease: self.following_lease(),
                ..self
            })
        }
    }

    /// The scheduler after its worker completed.
    pub open spec fn completed(self, now: Duration) -> WorkersModel {
        WorkersModel { active: None, idle_since: now, ..self }
    }

    /// Whether the active worker is due a cancellation.
    pub open spec fn is_due(self, now: Duration) -> bool {
        !self.poisoned && (self.active matches Some(worker) && now.nanos >= worker.deadline.nanos
            && !worker.cancellation_sent)
    }

    /// Whether nothing has run for the idle timeout.
    pub open spec fn is_idle_long(self, now: Duration) -> bool {
        self.active is None && now.nanos >= self.idle_since.nanos && now.nanos
            - self.idle_since.nanos >= self.idle_timeout.nanos
    }

    /// The next lifecycle action.
    pub open spec fn decision(self, now: Duration, listener_ready: bool) -> LifecycleDecision {
        if self.poisoned {
            LifecycleDecision::Terminate
        } else if self.is_due(now) {
            LifecycleDecision::Cancel(self.active->0.lease)
        } else if !listener_ready && self.is_idle_long(now) {
            LifecycleDecision::ExitIdle
        } else {
            LifecycleDecision::Continue
        }
    }

    /// The scheduler after that action was selected: a cancellation is selected
    /// once.
    pub open spec fn after_decision(self, now: Duration) -> WorkersModel {
        if self.is_due(now) {
            WorkersModel {
                active: Some(WorkerModel { cancellation_sent: true, ..self.active->0 }),
                ..self
            }
        } else {
            self
        }
    }

    /// The idle timeout is never zero.
    pub open spec fn well_formed(self) -> bool {
        self.idle_timeout.nanos != 0
    }
}

impl View for BrokerScheduler {
    type V = WorkersModel;

    closed spec fn view(&self) -> WorkersModel {
        WorkersModel {
            idle_timeout: self.idle_timeout,
            idle_since: self.idle_since,
            active: match self.active {
                Some(worker) => Some(
                    WorkerModel {
                        lease: worker.lease,
                        deadline: worker.deadline,
                        cancellation_sent: worker.cancellation_sent,
                    },
                ),
                None => None,
            },
            next_lease: self.next_lease,
            poisoned: self.poisoned,
        }
    }
}

impl BrokerScheduler {
    /// Creates an idle scheduler at `now`. A zero idle timeout is rejected to
    /// prevent socket-activation churn.
    pub fn new(now: Duration, idle_timeout: Duration) -> (r: Result<
        BrokerScheduler,
        SchedulerError,
    >)
        ensures
            r is Ok <==> idle_timeout.nanos != 0,
            r matches Ok(scheduler) ==> scheduler@ == WorkersModel::idle(now, idle_timeout),
            r matches Err(error) ==> error == SchedulerError::ZeroIdleTimeout,
    {
        if idle_timeout.is_zero() {
            return Err(SchedulerError::ZeroIdleTimeout);
        }
        Ok(
            BrokerScheduler {
                idle_timeout,
                idle_since: now,
                active: None,
                next_lease: 1,
                poisoned: false,
            },
        )
    }

    /// Offers one validated broker operation to the hardware worker slot.
    ///
    /// No request is queued. Arithmetic exhaustion poisons the scheduler rather
    /// than starting an operation without a bounded deadline or unique lease.
    pub fn admit_worker(&mut self, now: Duration) -> (admission: WorkerAdmission)
        ensures
            old(self)@.admits(
                now,
                Duration::of_seconds(OPERATION_TIMEOUT_SECS),
                admission,
                final(self)@,
            ),
    {
        self.admit_with_timeout(now, operation_timeout())
    }

    /// Offers one validated operation with its own outer budget.
    pub fn admit_with_timeout(&mut self, now: Duration, operation_timeout: Duration) -> (admission:
        WorkerAdmission)
        ensures
            old(self)@.admits(now, operation_timeout, admission, final(self)@),
    {
        if self.poisoned {
            return WorkerAdmission::Terminate;
        }
        if self.active.is_some() {
            return WorkerAdmission::Busy;
        }
        let deadline = match now.checked_add(operation_timeout) {
            Some(deadline) => deadline,
            None => {
                self.poisoned = true;
                return WorkerAdmission::Terminate;
            },
        };
        if self.next_lease == 0 {
            self.poisoned = true;
            return WorkerAdmission::Terminate;
        }
        let lease = WorkerLease(self.next_lease);
        self.next_lease = match self.next_lease.checked_add(1) {
            Some(next) => next,
            None => 0,
        };
        self.active = Some(ActiveWorker { lease, deadline, cancellation_sent: false });
        WorkerAdmission::Start { lease, deadline }
    }

    /// Completes the exact active worker and begins a new idle interval. A stale
    /// lease cannot clear or replace current work.
    pub fn complete(&mut self, lease: WorkerLease, now: Duration) -> (r: bool)
        ensures
            r == old(self)@.holds(lease),
            final(self)@ == if r {
                old(self)@.completed(now)
            } else {
                old(self)@
            },
    {
        if !self.owns(lease) {
            return false;
        }
        self.active = None;
        self.idle_since = now;
        true
    }

    /// Marks an exact worker as lost without a trustworthy completion: the
    /// scheduler terminates for good. A stale report cannot poison a newer
    /// worker.
    pub fn worker_lost(&mut self, lease: WorkerLease) -> (r: bool)
        ensures
            r == old(self)@.holds(lease),
            final(self)@ == if r {
                old(self)@.with_poison()
            } else {
                old(self)@
            },
    {
        if !self.owns(lease) {
            return false;
        }
        self.poisoned = true;
        true
    }

    /// Whether `lease` names the active worker.
    pub fn owns(&self, lease: WorkerLease) -> (r: bool)
        ensures
            r == self@.holds(lease),
    {
        match self.active {
            Some(worker) => worker.lease == lease,
            None => false,
        }
    }

    /// Makes the scheduler terminate for good.
    pub fn poison(&mut self)
        ensures
            final(self)@ == old(self)@.with_poison(),
    {
        self.poisoned = true;
    }

    /// Whether the scheduler is terminating.
    pub fn is_poisoned(&self) -> (r: bool)
        ensures
            r == self@.poisoned,
    {
        self.poisoned
    }

    /// Selects the next service-lifecycle action.
    ///
    /// Pending socket work wins an idle-timeout race, so the process does not
    /// exit while a request is already queued.
    pub fn decide(&mut self, now: Duration, listener_ready: bool) -> (decision: LifecycleDecision)
        requires
            old(self)@.well_formed(),
        ensures
            decision == old(self)@.decision(now, listener_ready),
            final(self)@ == old(self)@.after_decision(now),
    {
        if self.poisoned {
            return LifecycleDecision::Terminate;
        }
        if let Some(worker) = self.active {
            if now.at_least(worker.deadline) && !worker.cancellation_sent {
                self.active = Some(
                    ActiveWorker {
                        lease: worker.lease,
                        deadline: worker.deadline,
                        cancellation_sent: true,
                    },
                );
                return LifecycleDecision::Cancel(worker.lease);
            }
            return LifecycleDecision::Continue;
        }
        if !listener_ready && now.saturating_sub(self.idle_since).at_least(self.idle_timeout) {
            LifecycleDecision::ExitIdle
        } else {
            LifecycleDecision::Continue
        }
    }
}

/// One broker-authorized operation admitted to the sole hardware worker.
pub struct ScheduledAuthentication {
    authentication: ActiveAuthentication,
    lease: WorkerLease,
    deadline: Duration,
    service_identity: u64,
}

impl ScheduledAuthentication {
    /// The admitted operation.
    pub closed spec fn admitted(self) -> ActiveAuthentication {
        self.authentication
    }

    /// The worker's lease.
    pub closed spec fn held_lease(self) -> WorkerLease {
        self.lease
    }

    /// The worker's deadline.
    pub closed spec fn due(self) -> Duration {
        self.deadline
    }

    /// Identity of the admitting service.
    pub closed spec fn service(self) -> u64 {
        self.service_identity
    }

    /// Token-associated authentication input for the hardware worker.
    pub fn authentication(&self) -> (r: &ActiveAuthentication)
        ensures
            *r == self.admitted(),
    {
        &self.authentication
    }

    /// One monotonic deadline shared by setup and matching work.
    pub fn deadline(&self) -> (r: Duration)
        ensures
            r == self.due(),
    {
        self.deadline
    }

    /// Opaque identity used for lifecycle completion and cancellation routing.
    pub fn lease(&self) -> (r: WorkerLease)
        ensures
            r == self.held_lease(),
    {
        self.lease
    }
}

/// One broker-authorized standard operation admitted to the sole worker.
pub struct ScheduledStandardOperation {
    operation: ActiveStandardOperation,
    lease: WorkerLease,
    deadline: Duration,
    service_identity: u64,
}

impl ScheduledStandardOperation {
    /// The admitted operation.
    pub closed spec fn admitted(self) -> ActiveStandardOperation {
        self.operation
    }

    /// The worker's lease.
    pub closed spec fn held_lease(self) -> WorkerLease {
        self.lease
    }

    /// The worker's deadline.
    pub closed spec fn due(self) -> Duration {
        self.deadline
    }

    /// Identity of the admitting service.
    pub closed spec fn service(self) -> u64 {
        self.service_identity
    }

    /// Exact standard operation and token-associated cancellation input.
    pub fn operation(&self) -> (r: &ActiveStandardOperation)
        ensures
            *r == self.admitted(),
    {
        &self.operation
    }

    /// Complete outer deadline for this operation class.
    pub fn deadline(&self) -> (r: Duration)
        ensures
            r == self.due(),
    {
        self.deadline
    }

    /// Opaque identity used for lifecycle completion and cancellation routing.
    pub fn lease(&self) -> (r: WorkerLease)
        ensures
            r == self.held_lease(),
    {
        self.lease
    }
}

/// Pure result of one admitted broker packet.
pub enum ScheduledDispatch {
    /// Send the broker's immediate fixed response. This includes `BUSY`.
    Reply(Response),
    /// Start the only permitted in-process hardware worker.
    Start(ScheduledAuthentication),
    /// Internal lifecycle state is uncertain; terminate the broker.
    Terminate,
}

/// Pure result of offering one resolved standard operation to the service.
pub enum ScheduledStandardDispatch {
    /// Send one immediate typed response, including busy.
    Reply(ServerMessage),
    /// Start the only permitted in-process hardware worker.
    Start(ScheduledStandardOperation),
    /// Internal lifecycle state is uncertain; terminate the broker.
    Terminate,
}

/// The outer budget of an operation.
pub open spec fn timeout_for(purpose: Purpose) -> Duration {
    match purpose {
        Purpose::Enrollment => Duration::of_seconds(ENROLLMENT_OPERATION_TIMEOUT_SECS),
        Purpose::Authenticate | Purpose::Approve => Duration::of_seconds(OPERATION_TIMEOUT_SECS),
    }
}

/// The outer budget of a standard operation: the long one where the enrolled
/// set changes.
pub open spec fn standard_timeout_for(operation: ResolvedStandardOperation) -> Duration {
    match operation {
        ResolvedStandardOperation::Enroll { .. }
        | ResolvedStandardOperation::DeleteIdentity { .. } => Duration::of_seconds(
            ENROLLMENT_OPERATION_TIMEOUT_SECS,
        ),
        ResolvedStandardOperation::ListIdentities
        | ResolvedStandardOperation::Verify { .. }
        | ResolvedStandardOperation::Identify { .. } => Duration::of_seconds(OPERATION_TIMEOUT_SECS),
    }
}

/// Broker token authority composed with the one-worker service lifecycle.
pub struct BrokerServiceScheduler {
    coordinator: BrokerSessionCoordinator,
    workers: BrokerScheduler,
    identity: u64,
}

/// The service as the contracts see it.
pub struct ServiceModel {
    pub identity: u64,
    pub coordinator: CoordinatorModel,
    pub workers: WorkersModel,
}

impl ServiceModel {
    /// Validity of both halves.
    pub open spec fn well_formed(self) -> bool {
        self.coordinator.well_formed() && self.workers.well_formed() && self.coordinator.identity
            == self.identity
    }

    /// Whether `service` and `lease` name this service's active worker.
    pub open spec fn holds(self, service: u64, lease: WorkerLease) -> bool {
        service == self.identity && self.workers.holds(lease)
    }

    /// What an admitted start becomes, and the service afterwards, given the
    /// coordinator after the start.
    pub open spec fn schedules_start(
        self,
        active: ActiveAuthentication,
        started: CoordinatorModel,
        now: Duration,
        r: ScheduledDispatch,
        after: ServiceModel,
    ) -> bool {
        let timeout = timeout_for(active.admitted().purpose);
        if self.workers.can_admit(now, timeout) {
            r matches ScheduledDispatch::Start(scheduled) && scheduled.admitted() == active
                && scheduled.service() == self.identity && self.workers.admits(
                now,
                timeout,
                WorkerAdmission::Start {
                    lease: scheduled.held_lease(),
                    deadline: scheduled.due(),
                },
                after.workers,
            ) && after == (ServiceModel { coordinator: started, workers: after.workers, ..self })
        } else {
            r is Terminate && after == (ServiceModel {
                coordinator: started.after_end(active.coordinator(), active.admitted().token),
                workers: self.workers.with_poison(),
                ..self
            })
        }
    }

    /// What a session decision becomes, and the service afterwards, given the
    /// coordinator after the decision.
    pub open spec fn schedules(
        self,
        decision: SessionDecision,
        decided: CoordinatorModel,
        now: Duration,
        r: ScheduledDispatch,
        after: ServiceModel,
    ) -> bool {
        match decision {
            SessionDecision::Reply(response) => r == ScheduledDispatch::Reply(response) && after
                == (ServiceModel { coordinator: decided, ..self }),
            SessionDecision::Start(active) => self.schedules_start(
                active,
                decided,
                now,
                r,
                after,
            ),
        }
    }

    /// What a standard session decision becomes, and the service afterwards.
    pub open spec fn schedules_standard(
        self,
        decision: StandardSessionDecision,
        decided: CoordinatorModel,
        now: Duration,
        r: ScheduledStandardDispatch,
        after: ServiceModel,
    ) -> bool {
        match decision {
            StandardSessionDecision::Reply(message) => r == ScheduledStandardDispatch::Reply(
                message,
            ) && after == (ServiceModel { coordinator: decided, ..self }),
            StandardSessionDecision::Start(active) => {
                let timeout = standard_timeout_for(active.admitted().operation);
                if self.workers.can_admit(now, timeout) {
                    r matches ScheduledStandardDispatch::Start(scheduled) && scheduled.admitted()
                        == active && scheduled.service() == self.identity && self.workers.admits(
                        now,
                        timeout,
                        WorkerAdmission::Start {
                            lease: scheduled.held_lease(),
                            deadline: scheduled.due(),
                        },
                        after.workers,
                    ) && after == (ServiceModel {
                        coordinator: decided,
                        workers: after.workers,
                        ..self
                    })
                } else {
                    r is Terminate && after == (ServiceModel {
                        coordinator: decided.after_end(
                            active.coordinator(),
                            active.admitted().token,
                        ),
                        workers: self.workers.with_poison(),
                        ..self
                    })
                }
            },
        }
    }

    /// What one packet gives: termination where ownership is uncertain, else
    /// what the coordinator's decision becomes.
    pub open spec fn dispatches(
        self,
        peer: PeerMetadata,
        policy: AccessPolicy,
        packet: Seq<u8>,
        now: Duration,
        r: ScheduledDispatch,
        after: ServiceModel,
    ) -> bool {
        if self.workers.poisoned {
            r is Terminate && after == self
        } else {
            exists|decision: SessionDecision, decided: CoordinatorModel| #[trigger]
                self.coordinator.dispatches(peer, policy, packet, decision, decided)
                    && self.schedules(decision, decided, now, r, after)
        }
    }

    /// What an enrollment without a recorded owner gives.
    pub open spec fn enrolls_without_owner(
        self,
        peer: PeerMetadata,
        now: Duration,
        r: ScheduledDispatch,
        after: ServiceModel,
    ) -> bool {
        if self.workers.poisoned {
            r is Terminate && after == self
        } else {
            exists|decision: SessionDecision, decided: CoordinatorModel| #[trigger]
                self.coordinator.enrolls_without_owner(peer, decision, decided) && self.schedules(
                    decision,
                    decided,
                    now,
                    r,
                    after,
                )
        }
    }

    /// What a cancellation without a recorded owner gives.
    pub open spec fn cancels_without_owner(
        self,
        peer: PeerMetadata,
        r: ScheduledDispatch,
        after: ServiceModel,
    ) -> bool {
        if self.workers.poisoned {
            r is Terminate && after == self
        } else if cancels_as_root(peer) && self.coordinator.can_deliver() {
            r == ScheduledDispatch::Reply(Response::Okay) && after == (ServiceModel {
                coordinator: self.coordinator.with_cancelled(
                    self.coordinator.broker.active->0.token,
                ),
                ..self
            })
        } else {
            r == ScheduledDispatch::Reply(Response::Denied) && after == self
        }
    }

    /// The service after the operation behind `lease` has ended.
    pub open spec fn after_end(
        self,
        origin: u64,
        token: crate::auth_protocol::OperationToken,
        now: Duration,
    ) -> ServiceModel {
        ServiceModel {
            coordinator: self.coordinator.after_end(origin, token),
            workers: self.workers.completed(now),
            ..self
        }
    }
}

impl View for BrokerServiceScheduler {
    type V = ServiceModel;

    closed spec fn view(&self) -> ServiceModel {
        ServiceModel {
            identity: self.identity,
            coordinator: self.coordinator@,
            workers: self.workers@,
        }
    }
}

impl BrokerServiceScheduler {
    /// Creates an idle socket-activated broker policy. `identity` tells the
    /// service from every other one of the process.
    pub fn new(identity: u64, now: Duration, idle_timeout: Duration) -> (r: Result<
        BrokerServiceScheduler,
        SchedulerError,
    >)
        ensures
            r is Ok <==> idle_timeout.nanos != 0,
            r matches Ok(service) ==> service@.well_formed() && service@ == (ServiceModel {
                identity,
                coordinator: CoordinatorModel::initial(identity),
                workers: WorkersModel::idle(now, idle_timeout),
            }),
            r matches Err(error) ==> error == SchedulerError::ZeroIdleTimeout,
    {
        match BrokerScheduler::new(now, idle_timeout) {
            Ok(workers) => Ok(
                BrokerServiceScheduler {
                    coordinator: BrokerSessionCoordinator::new(identity),
                    workers,
                    identity,
                },
            ),
            Err(error) => Err(error),
        }
    }

    /// The session coordinator.
    pub fn coordinator(&self) -> (r: &BrokerSessionCoordinator)
        ensures
            r@ == self@.coordinator,
    {
        &self.coordinator
    }

    /// Authorizes one exact packet and admits at most one hardware worker.
    pub fn dispatch(
        &mut self,
        peer: PeerMetadata,
        policy: AccessPolicy,
        packet: &[u8],
        now: Duration,
    ) -> (r: ScheduledDispatch)
        requires
            old(self)@.well_formed(),
        ensures
            final(self)@.well_formed(),
            old(self)@.dispatches(peer, policy, packet@, now, r, final(self)@),
    {
        if self.workers.is_poisoned() {
            return ScheduledDispatch::Terminate;
        }
        let decision = self.coordinator.dispatch(peer, policy, packet);
        assert(old(self)@.coordinator.dispatches(
            peer,
            policy,
            packet@,
            decision,
            self.coordinator@,
        ));
        self.schedule(decision, now)
    }

    /// Admits one judged standard operation to the same worker slot as every
    /// other request.
    pub fn dispatch_standard(
        &mut self,
        authority: StandardAuthority,
        operation: ResolvedStandardOperation,
        now: Duration,
    ) -> (r: ScheduledStandardDispatch)
        requires
            old(self)@.well_formed(),
        ensures
            final(self)@.well_formed(),
            if old(self)@.workers.poisoned {
                r is Terminate && final(self)@ == old(self)@
            } else {
                exists|decision: StandardSessionDecision, decided: CoordinatorModel| #[trigger]
                    old(self)@.coordinator.dispatches_standard(
                        authority,
                        operation,
                        decision,
                        decided,
                    ) && old(self)@.schedules_standard(decision, decided, now, r, final(self)@)
            },
    {
        if self.workers.is_poisoned() {
            return ScheduledStandardDispatch::Terminate;
        }
        let decision = self.coordinator.dispatch_standard(authority, operation);
        assert(old(self)@.coordinator.dispatches_standard(
            authority,
            operation,
            decision,
            self.coordinator@,
        ));
        self.schedule_standard(decision, now)
    }

    /// Admits one already-decoded enrollment for a validated local non-root
    /// peer when owner state is authoritatively missing.
    pub fn enroll_without_owner(&mut self, peer: PeerMetadata, now: Duration) -> (r:
        ScheduledDispatch)
        requires
            old(self)@.well_formed(),
        ensures
            final(self)@.well_formed(),
            old(self)@.enrolls_without_owner(peer, now, r, final(self)@),
    {
        if self.workers.is_poisoned() {
            return ScheduledDispatch::Terminate;
        }
        let decision = self.coordinator.enroll_without_owner(peer);
        assert(old(self)@.coordinator.enrolls_without_owner(peer, decision, self.coordinator@));
        self.schedule(decision, now)
    }

    fn schedule(&mut self, decision: SessionDecision, now: Duration) -> (r: ScheduledDispatch)
        requires
            old(self)@.well_formed(),
        ensures
            final(self)@.well_formed(),
            old(self)@.schedules(decision, old(self)@.coordinator, now, r, final(self)@),
    {
        match decision {
            SessionDecision::Reply(response) => ScheduledDispatch::Reply(response),
            SessionDecision::Start(authentication) => {
                let timeout = match authentication.purpose() {
                    Purpose::Enrollment => enrollment_operation_timeout(),
                    Purpose::Authenticate | Purpose::Approve => operation_timeout(),
                };
                match self.workers.admit_with_timeout(now, timeout) {
                    WorkerAdmission::Start { lease, deadline } => ScheduledDispatch::Start(
                        ScheduledAuthentication {
                            authentication,
                            lease,
                            deadline,
                            service_identity: self.identity,
                        },
                    ),
                    WorkerAdmission::Busy | WorkerAdmission::Terminate => {
                        let _ = self.coordinator.abandon(&authentication);
                        self.workers.poison();
                        ScheduledDispatch::Terminate
                    },
                }
            },
        }
    }

    fn schedule_standard(&mut self, decision: StandardSessionDecision, now: Duration) -> (r:
        ScheduledStandardDispatch)
        requires
            old(self)@.well_formed(),
        ensures
            final(self)@.well_formed(),
            old(self)@.schedules_standard(decision, old(self)@.coordinator, now, r, final(self)@),
    {
        match decision {
            StandardSessionDecision::Reply(message) => ScheduledStandardDispatch::Reply(message),
            StandardSessionDecision::Start(operation) => {
                let timeout = match operation.operation().operation() {
                    ResolvedStandardOperation::Enroll { .. }
                    | ResolvedStandardOperation::DeleteIdentity {
                        ..
                    } => enrollment_operation_timeout(),
                    ResolvedStandardOperation::ListIdentities
                    | ResolvedStandardOperation::Verify { .. }
                    | ResolvedStandardOperation::Identify { .. } => operation_timeout(),
                };
                match self.workers.admit_with_timeout(now, timeout) {
                    WorkerAdmission::Start { lease, deadline } => ScheduledStandardDispatch::Start(
                        ScheduledStandardOperation {
                            operation,
                            lease,
                            deadline,
                            service_identity: self.identity,
                        },
                    ),
                    WorkerAdmission::Busy | WorkerAdmission::Terminate => {
                        let _ = self.coordinator.abandon_standard(&operation);
                        self.workers.poison();
                        ScheduledStandardDispatch::Terminate
                    },
                }
            },
        }
    }

    /// Routes an exact root cancellation while owner storage is unavailable. It
    /// never admits hardware work or changes the worker lease.
    pub fn cancel_without_owner(&mut self, peer: PeerMetadata) -> (r: ScheduledDispatch)
        requires
            old(self)@.well_formed(),
        ensures
            final(self)@.well_formed(),
            old(self)@.cancels_without_owner(peer, r, final(self)@),
    {
        if self.workers.is_poisoned() {
            ScheduledDispatch::Terminate
        } else {
            ScheduledDispatch::Reply(self.coordinator.cancel_without_owner(peer))
        }
    }

    /// Finalizes the exact scheduled operation and returns its broker response.
    /// Stale worker or completion state fails without releasing current work.
    pub fn finish(
        &mut self,
        scheduled: &ScheduledAuthentication,
        completion: &AuthenticationCompletion,
        now: Duration,
    ) -> (response: Response)
        requires
            old(self)@.well_formed(),
        ensures
            final(self)@.well_formed(),
            old(self)@.finishes(*scheduled, *completion, now, response, final(self)@),
    {
        if self.workers.is_poisoned() || !self.owns(scheduled) || !completion.belongs_to(
            &scheduled.authentication,
        ) {
            return Response::Failure;
        }
        let response = self.coordinator.finish_for(&scheduled.authentication, completion);
        if !self.workers.complete(scheduled.lease, now) {
            self.workers.poison();
            return Response::Failure;
        }
        response
    }

    /// Finalizes one exact standard worker and releases its shared lease.
    pub fn finish_standard(
        &mut self,
        scheduled: &ScheduledStandardOperation,
        completion: &StandardCompletion,
        now: Duration,
    ) -> (message: ServerMessage)
        requires
            old(self)@.well_formed(),
        ensures
            final(self)@.well_formed(),
            if !old(self)@.workers.poisoned && old(self)@.holds(
                scheduled.service(),
                scheduled.held_lease(),
            ) && completion.belongs(scheduled.admitted()) {
                message@ == old(self)@.coordinator.message_to(
                    completion.coordinator(),
                    completion.completed(),
                    completion.outcome(),
                ) && final(self)@ == old(self)@.after_end(
                    completion.coordinator(),
                    completion.completed(),
                    now,
                )
            } else {
                message@ == MessageModel::error() && final(self)@ == old(self)@
            },
    {
        if self.workers.is_poisoned() || !self.owns_standard(scheduled) || !completion.belongs_to(
            &scheduled.operation,
        ) {
            return ServerMessage::error();
        }
        let message = self.coordinator.finish_standard(&scheduled.operation, completion);
        if !self.workers.complete(scheduled.lease, now) {
            self.workers.poison();
            return ServerMessage::error();
        }
        message
    }

    /// Finalizes the exact scheduled operation, applies best-effort feedback
    /// only after broker authority is resolved, and releases its worker slot.
    /// Cosmetic failure never changes the authoritative response.
    pub fn finish_with_feedback<Feedback: AuthenticationFeedback>(
        &mut self,
        scheduled: &ScheduledAuthentication,
        completion: &AuthenticationCompletion,
        feedback: Option<&mut Feedback>,
        now: Duration,
    ) -> (response: Response)
        requires
            old(self)@.well_formed(),
        ensures
            final(self)@.well_formed(),
            old(self)@.finishes(*scheduled, *completion, now, response, final(self)@),
            match feedback {
                Some(presentation) => presents(
                    old(self)@.shown(*scheduled, *completion),
                    presentation.offered(),
                    final(presentation).offered(),
                ),
                None => true,
            },
    {
        if self.workers.is_poisoned() || !self.owns(scheduled) || !completion.belongs_to(
            &scheduled.authentication,
        ) {
            proof {
                if let Some(presentation) = feedback {
                    lemma_nothing_is_presented(presentation.offered());
                }
            }
            return Response::Failure;
        }
        let response = self.coordinator.finish_with_feedback(completion, feedback);
        if !self.workers.complete(scheduled.lease, now) {
            self.workers.poison();
            return Response::Failure;
        }
        response
    }

    /// Releases an operation whose in-process worker could not be started.
    pub fn abandon(&mut self, scheduled: &ScheduledAuthentication, now: Duration) -> (response:
        Response)
        requires
            old(self)@.well_formed(),
        ensures
            final(self)@.well_formed(),
            response == Response::Failure,
            final(self)@ == old(self)@.after_abandon(*scheduled, now),
    {
        if !self.owns(scheduled) {
            return Response::Failure;
        }
        let response = self.coordinator.abandon(&scheduled.authentication);
        if !self.workers.complete(scheduled.lease, now) {
            self.workers.poison();
            return Response::Failure;
        }
        response
    }

    /// Releases standard work whose in-process worker could not be started.
    pub fn abandon_standard(&mut self, scheduled: &ScheduledStandardOperation, now: Duration) -> (message:
        ServerMessage)
        requires
            old(self)@.well_formed(),
        ensures
            final(self)@.well_formed(),
            if old(self)@.holds(scheduled.service(), scheduled.held_lease()) {
                message@ == old(self)@.coordinator.message_to(
                    scheduled.admitted().coordinator(),
                    scheduled.admitted().admitted().token,
                    MessageModel::error(),
                ) && final(self)@ == old(self)@.after_end(
                    scheduled.admitted().coordinator(),
                    scheduled.admitted().admitted().token,
                    now,
                )
            } else {
                message@ == MessageModel::error() && final(self)@ == old(self)@
            },
    {
        if !self.owns_standard(scheduled) {
            return ServerMessage::error();
        }
        let message = self.coordinator.abandon_standard(&scheduled.operation);
        if !self.workers.complete(scheduled.lease, now) {
            self.workers.poison();
            return ServerMessage::error();
        }
        message
    }

    /// Delivers disconnect cancellation to the exact scheduled operation.
    pub fn client_disconnected(&mut self, scheduled: &ScheduledAuthentication) -> (delivered: bool)
        requires
            old(self)@.well_formed(),
        ensures
            final(self)@.well_formed(),
            old(self)@.cancels_scheduled(*scheduled, delivered, final(self)@),
    {
        self.owns(scheduled) && self.coordinator.client_disconnected(&scheduled.authentication)
    }

    /// Delivers same-connection cancellation to exact scheduled standard work.
    pub fn cancel_standard(&mut self, scheduled: &ScheduledStandardOperation) -> (delivered: bool)
        requires
            old(self)@.well_formed(),
        ensures
            final(self)@.well_formed(),
            old(self)@.cancels_standard(*scheduled, delivered, final(self)@),
    {
        self.owns_standard(scheduled) && self.coordinator.cancel_standard(&scheduled.operation)
    }

    /// Delivers disconnect cancellation to exact scheduled standard work.
    pub fn standard_client_disconnected(&mut self, scheduled: &ScheduledStandardOperation) -> (delivered:
        bool)
        requires
            old(self)@.well_formed(),
        ensures
            final(self)@.well_formed(),
            old(self)@.cancels_standard(*scheduled, delivered, final(self)@),
    {
        self.owns_standard(scheduled) && self.coordinator.standard_client_disconnected(
            &scheduled.operation,
        )
    }

    /// Delivers an elapsed-deadline cancellation to the exact scheduled work.
    /// Delivery is idempotent and does not release the worker slot.
    pub fn deadline_expired(&mut self, scheduled: &ScheduledAuthentication) -> (delivered: bool)
        requires
            old(self)@.well_formed(),
        ensures
            final(self)@.well_formed(),
            old(self)@.cancels_scheduled(*scheduled, delivered, final(self)@),
    {
        self.owns(scheduled) && self.coordinator.client_disconnected(&scheduled.authentication)
    }

    /// Delivers deadline cancellation to exact scheduled standard work.
    pub fn standard_deadline_expired(&mut self, scheduled: &ScheduledStandardOperation) -> (delivered:
        bool)
        requires
            old(self)@.well_formed(),
        ensures
            final(self)@.well_formed(),
            old(self)@.cancels_standard(*scheduled, delivered, final(self)@),
    {
        self.standard_client_disconnected(scheduled)
    }

    /// Closes cancellation delivery of exact scheduled work at its authoritative
    /// cutoff.
    pub fn close_cancellation(&mut self, active: &ActiveAuthentication) -> (closed: bool)
        requires
            old(self)@.well_formed(),
        ensures
            final(self)@.well_formed(),
            final(self)@ == (ServiceModel { coordinator: final(self)@.coordinator, ..old(self)@ }),
            old(self)@.coordinator.closes(
                active.coordinator(),
                active.admitted().token,
                closed,
                final(self)@.coordinator,
            ),
    {
        active.close_cancellation(&mut self.coordinator)
    }

    /// Closes cancellation delivery of exact standard work at its authoritative
    /// cutoff.
    pub fn close_standard_cancellation(&mut self, active: &ActiveStandardOperation) -> (closed: bool)
        requires
            old(self)@.well_formed(),
        ensures
            final(self)@.well_formed(),
            final(self)@ == (ServiceModel { coordinator: final(self)@.coordinator, ..old(self)@ }),
            old(self)@.coordinator.closes(
                active.coordinator(),
                active.admitted().token,
                closed,
                final(self)@.coordinator,
            ),
    {
        active.close_cancellation(&mut self.coordinator)
    }

    /// Selects deadline cancellation, continued service, idle exit, or
    /// fail-closed termination.
    pub fn decide(&mut self, now: Duration, listener_ready: bool) -> (decision: LifecycleDecision)
        requires
            old(self)@.well_formed(),
        ensures
            final(self)@.well_formed(),
            decision == old(self)@.workers.decision(now, listener_ready),
            final(self)@ == (ServiceModel {
                workers: old(self)@.workers.after_decision(now),
                ..old(self)@
            }),
    {
        self.workers.decide(now, listener_ready)
    }

    /// Marks the exact worker as lost so no replacement work can be admitted.
    pub fn worker_lost(&mut self, scheduled: &ScheduledAuthentication) -> (r: bool)
        requires
            old(self)@.well_formed(),
        ensures
            final(self)@.well_formed(),
            r == old(self)@.holds(scheduled.service(), scheduled.held_lease()),
            final(self)@ == if r {
                ServiceModel { workers: old(self)@.workers.with_poison(), ..old(self)@ }
            } else {
                old(self)@
            },
    {
        self.owns(scheduled) && self.workers.worker_lost(scheduled.lease)
    }

    /// Marks an exact standard worker lost and poisons the shared scheduler.
    pub fn standard_worker_lost(&mut self, scheduled: &ScheduledStandardOperation) -> (r: bool)
        requires
            old(self)@.well_formed(),
        ensures
            final(self)@.well_formed(),
            r == old(self)@.holds(scheduled.service(), scheduled.held_lease()),
            final(self)@ == if r {
                ServiceModel { workers: old(self)@.workers.with_poison(), ..old(self)@ }
            } else {
                old(self)@
            },
    {
        self.owns_standard(scheduled) && self.workers.worker_lost(scheduled.lease)
    }

    /// Whether `scheduled` is this service's active worker.
    pub fn owns(&self, scheduled: &ScheduledAuthentication) -> (r: bool)
        ensures
            r == self@.holds(scheduled.service(), scheduled.held_lease()),
    {
        self.identity == scheduled.service_identity && self.workers.owns(scheduled.lease)
    }

    /// Whether `scheduled` is this service's active worker.
    pub fn owns_standard(&self, scheduled: &ScheduledStandardOperation) -> (r: bool)
        ensures
            r == self@.holds(scheduled.service(), scheduled.held_lease()),
    {
        self.identity == scheduled.service_identity && self.workers.owns(scheduled.lease)
    }
}

impl ServiceModel {
    /// What feedback may show of a completion for scheduled work: what the
    /// coordinator lets it show, where the work holds this service's worker, the
    /// completion is its own and the service is not poisoned.
    pub open spec fn shown(
        self,
        scheduled: ScheduledAuthentication,
        completion: AuthenticationCompletion,
    ) -> Option<MatchOutcome> {
        if !self.workers.poisoned && self.holds(scheduled.service(), scheduled.held_lease())
            && completion.belongs(scheduled.admitted()) {
            self.coordinator.shown(completion)
        } else {
            None
        }
    }

    /// What finishing scheduled work gives: the coordinator's response and the
    /// release of both halves, for a completion of exactly the active work; else
    /// a failure that changes nothing.
    pub open spec fn finishes(
        self,
        scheduled: ScheduledAuthentication,
        completion: AuthenticationCompletion,
        now: Duration,
        response: Response,
        after: ServiceModel,
    ) -> bool {
        if !self.workers.poisoned && self.holds(scheduled.service(), scheduled.held_lease())
            && completion.belongs(scheduled.admitted()) {
            response == self.coordinator.response_to(
                completion.coordinator(),
                completion.completed(),
                completion.outcome(),
            ) && after == self.after_end(completion.coordinator(), completion.completed(), now)
        } else {
            response == Response::Failure && after == self
        }
    }

    /// The service after scheduled work was abandoned.
    pub open spec fn after_abandon(
        self,
        scheduled: ScheduledAuthentication,
        now: Duration,
    ) -> ServiceModel {
        if self.holds(scheduled.service(), scheduled.held_lease()) {
            self.after_end(
                scheduled.admitted().coordinator(),
                scheduled.admitted().admitted().token,
                now,
            )
        } else {
            self
        }
    }

    /// What cancelling scheduled work gives.
    pub open spec fn cancels_scheduled(
        self,
        scheduled: ScheduledAuthentication,
        delivered: bool,
        after: ServiceModel,
    ) -> bool {
        if self.holds(scheduled.service(), scheduled.held_lease()) {
            self.coordinator.cancels(
                scheduled.admitted().coordinator(),
                scheduled.admitted().admitted().token,
                delivered,
                after.coordinator,
            ) && after == (ServiceModel { coordinator: after.coordinator, ..self })
        } else {
            !delivered && after == self
        }
    }

    /// What cancelling scheduled standard work gives.
    pub open spec fn cancels_standard(
        self,
        scheduled: ScheduledStandardOperation,
        delivered: bool,
        after: ServiceModel,
    ) -> bool {
        if self.holds(scheduled.service(), scheduled.held_lease()) {
            self.coordinator.cancels(
                scheduled.admitted().coordinator(),
                scheduled.admitted().admitted().token,
                delivered,
                after.coordinator,
            ) && after == (ServiceModel { coordinator: after.coordinator, ..self })
        } else {
            !delivered && after == self
        }
    }
}

/// Giving out `lease` takes `before` to `after`.
pub open spec fn leases_out(before: WorkersModel, lease: WorkerLease, after: WorkersModel) -> bool {
    exists|now: Duration, timeout: Duration, deadline: Duration| #[trigger]
        before.admits(now, timeout, WorkerAdmission::Start { lease, deadline }, after)
}

/// Everything that can happen to the worker slot.
pub open spec fn workers_step(before: WorkersModel, after: WorkersModel) -> bool {
    ||| after == before
    ||| after == before.with_poison()
    ||| exists|lease: WorkerLease| leases_out(before, lease, after)
    ||| exists|now: Duration| after == #[trigger] before.completed(now)
    ||| exists|now: Duration| after == #[trigger] before.after_decision(now)
}

/// How many leases are still to be given out.
pub open spec fn leases_left(workers: WorkersModel) -> nat {
    if workers.next_lease == 0 {
        0
    } else {
        (u64::MAX - workers.next_lease + 1) as nat
    }
}

/// Once poisoned, the scheduler stays poisoned, admits nothing and decides to
/// terminate, whatever happens to it.
pub proof fn law_poison_is_permanent(
    before: WorkersModel,
    after: WorkersModel,
    now: Duration,
    timeout: Duration,
    listener_ready: bool,
    admission: WorkerAdmission,
    admitted: WorkersModel,
)
    requires
        before.poisoned,
        workers_step(before, after),
        after.admits(now, timeout, admission, admitted),
    ensures
        after.poisoned,
        admission == WorkerAdmission::Terminate,
        admitted == after,
        after.decision(now, listener_ready) == LifecycleDecision::Terminate,
{
}

/// While a worker is active, no admission starts another one or disturbs it.
pub proof fn law_one_worker_at_a_time(
    before: WorkersModel,
    now: Duration,
    timeout: Duration,
    admission: WorkerAdmission,
    after: WorkersModel,
)
    requires
        before.active is Some,
        before.admits(now, timeout, admission, after),
    ensures
        !(admission is Start),
        after == before,
{
}

/// A deadline selects one cancellation: from then on the same worker is only
/// waited for, and it stays active.
pub proof fn law_deadline_cancels_once(
    before: WorkersModel,
    now: Duration,
    later: Duration,
    ready: bool,
    ready_later: bool,
    lease: WorkerLease,
)
    requires
        before.decision(now, ready) == LifecycleDecision::Cancel(lease),
    ensures
        before.holds(lease),
        before.after_decision(now).holds(lease),
        before.after_decision(now).decision(later, ready_later) == LifecycleDecision::Continue,
        before.after_decision(now).after_decision(later) == before.after_decision(now),
{
}

/// Pending socket work is never abandoned to an idle exit, and neither is an
/// active worker.
pub proof fn law_pending_work_beats_idle_exit(workers: WorkersModel, now: Duration, ready: bool)
    requires
        ready || workers.active is Some,
    ensures
        workers.decision(now, ready) != LifecycleDecision::ExitIdle,
{
}

/// Along a run of steps the leases left never increase.
proof fn lemma_leases_left_never_increase(run: Seq<WorkersModel>, from: int, to: int)
    requires
        0 <= from <= to < run.len(),
        forall|k: int| 0 <= k < run.len() - 1 ==> #[trigger] workers_step(run[k], run[k + 1]),
    ensures
        leases_left(run[to]) <= leases_left(run[from]),
    decreases to - from,
{
    if from < to {
        lemma_leases_left_never_increase(run, from, to - 1);
        assert(workers_step(run[to - 1], run[to - 1 + 1]));
    }
}

/// No lease is ever given out twice.
pub proof fn law_leases_are_never_reused(
    run: Seq<WorkersModel>,
    i: int,
    j: int,
    first: WorkerLease,
    second: WorkerLease,
)
    requires
        0 <= i < j < run.len() - 1,
        forall|k: int| 0 <= k < run.len() - 1 ==> #[trigger] workers_step(run[k], run[k + 1]),
        leases_out(run[i], first, run[i + 1]),
        leases_out(run[j], second, run[j + 1]),
    ensures
        first != second,
{
    lemma_leases_left_never_increase(run, i + 1, j);
}

/// A worker is active exactly while the broker has an active operation, unless
/// the service is terminating.
pub open spec fn paired(service: ServiceModel) -> bool {
    service.workers.poisoned || (service.workers.active is Some
        <==> service.coordinator.broker.active is Some)
}

/// Dispatching keeps the worker and the broker's operation paired. Work that
/// starts holds both; and with work active, nothing else starts.
pub proof fn law_dispatch_keeps_worker_and_operation_paired(
    before: ServiceModel,
    peer: PeerMetadata,
    policy: AccessPolicy,
    packet: Seq<u8>,
    now: Duration,
    r: ScheduledDispatch,
    after: ServiceModel,
)
    requires
        before.well_formed(),
        paired(before),
        before.dispatches(peer, policy, packet, now, r, after),
    ensures
        paired(after),
        r matches ScheduledDispatch::Start(scheduled) ==> after.holds(
            scheduled.service(),
            scheduled.held_lease(),
        ) && after.coordinator.broker.is_active(scheduled.admitted().admitted().token),
        !before.workers.poisoned && before.workers.active is Some ==> r is Reply && after.workers
            == before.workers,
{
}

/// Ending the active work releases the worker and the broker's operation
/// together, and new work can be admitted.
pub proof fn law_ending_releases_worker_and_operation_together(
    before: ServiceModel,
    service: u64,
    lease: WorkerLease,
    token: crate::auth_protocol::OperationToken,
    now: Duration,
)
    requires
        before.well_formed(),
        paired(before),
        before.holds(service, lease),
        before.coordinator.broker.is_active(token),
    ensures
        paired(before.after_end(before.identity, token, now)),
        before.after_end(before.identity, token, now).workers.active is None,
        before.after_end(before.identity, token, now).coordinator.broker.active is None,
        before.after_end(before.identity, token, now).workers.idle_since == now,
{
}

/// Work of another service holds nothing here, whatever its lease.
pub proof fn law_foreign_work_holds_nothing(service: ServiceModel, foreign: u64, lease: WorkerLease)
    requires
        foreign != service.identity,
    ensures
        !service.holds(foreign, lease),
{
}

} // verus!
