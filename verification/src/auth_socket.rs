//! Sockets of the authentication broker: what a connection may do next.
//!
//! Kernel credentials come before the owner's record, and both come before any
//! byte of a request is read. The caller performs the socket calls and owns
//! readiness, deadlines and worker lifetime.

use crate::auth_feedback::{presents, AuthenticationFeedback};
use crate::auth_protocol::{
    decode_request, decoded_request, AccessPolicy, PeerAddressFamily, PeerMetadata, Request,
    Response, ROOT_UID,
};
use crate::auth_scheduler::{
    BrokerServiceScheduler, ScheduledAuthentication, ScheduledDispatch, ServiceModel,
};
use crate::auth_session::{ActiveAuthentication, AuthenticationCompletion};
use crate::enrollment_owner::EnrollmentOwnerError;
use crate::time::Duration;
use vstd::prelude::*;

verus! {

/// Bytes that a request may take.
pub const REQUEST_CAPACITY: usize = 8;

/// Why a packet socket's call did not succeed.
#[derive(Clone, Copy, Debug, PartialEq, Eq, Structural)]
pub enum SocketStatus {
    WouldBlock,
    Interrupted,
    PeerClosed,
    PeerDenied,
    Truncated,
    Credentials,
    WrongSocket,
    Send,
    Receive,
    Other,
}

/// Static transport failure from an already-connected broker session.
#[derive(Clone, Copy, Debug, PartialEq, Eq, Structural)]
pub struct BrokerSocketError(pub SocketStatus);

/// Credentials that the kernel reports of a connected peer.
#[derive(Clone, Copy, PartialEq, Eq, Structural)]
pub struct PeerCredentials {
    pub process_id: i32,
    pub user_id: u32,
    pub group_id: u32,
}

/// The peer that the credentials describe.
pub open spec fn peer_of(credentials: PeerCredentials) -> PeerMetadata {
    PeerMetadata {
        address_family: PeerAddressFamily::Local,
        user_id: credentials.user_id,
        group_id: credentials.group_id,
    }
}

/// Maps only the credential fields that the policy uses.
pub fn local_peer(credentials: PeerCredentials) -> (r: PeerMetadata)
    ensures
        r == peer_of(credentials),
{
    PeerMetadata {
        address_family: PeerAddressFamily::Local,
        user_id: credentials.user_id,
        group_id: credentials.group_id,
    }
}

/// A connected peer whose credentials are known: the owner's record is read
/// next.
#[derive(Clone, Copy, PartialEq, Eq, Structural)]
pub struct IdentifiedPeer {
    peer: PeerMetadata,
}

/// A peer whose request may be received, and the owner's record or its failure.
#[derive(Clone, Copy, PartialEq, Eq)]
pub struct AdmittedPeer {
    peer: PeerMetadata,
    policy: Result<AccessPolicy, EnrollmentOwnerError>,
}

/// What follows the credentials.
pub enum PeerStep {
    ReadPolicy(IdentifiedPeer),
    Reply(Response),
    Failed(BrokerSocketError),
}

/// What follows the owner's record.
pub enum PolicyStep {
    Receive(AdmittedPeer),
    Reply(Response),
}

/// What one receive attempt comes to.
pub enum CoreDispatch {
    Pending,
    Closed,
    Reply(Response),
    Start(ScheduledAuthentication),
    Terminate,
}

impl CoreDispatch {
    /// Whether it is what the service answered.
    pub open spec fn answers(self, dispatch: ScheduledDispatch) -> bool {
        match dispatch {
            ScheduledDispatch::Reply(response) => self == CoreDispatch::Reply(response),
            ScheduledDispatch::Start(scheduled) => self == CoreDispatch::Start(scheduled),
            ScheduledDispatch::Terminate => self is Terminate,
        }
    }

    fn of_service(dispatch: ScheduledDispatch) -> (r: CoreDispatch)
        ensures
            r.answers(dispatch),
    {
        match dispatch {
            ScheduledDispatch::Reply(response) => CoreDispatch::Reply(response),
            ScheduledDispatch::Start(scheduled) => CoreDispatch::Start(scheduled),
            ScheduledDispatch::Terminate => CoreDispatch::Terminate,
        }
    }
}

/// Takes the kernel's credentials: a peer without them is denied, any other
/// failure is the socket's.
pub fn identify_peer(credentials: Result<PeerCredentials, SocketStatus>) -> (r: PeerStep)
    ensures
        match credentials {
            Ok(credentials) => r is ReadPolicy && r->ReadPolicy_0.identity() == peer_of(
                credentials,
            ),
            Err(SocketStatus::Credentials) => r == PeerStep::Reply(Response::Denied),
            Err(status) => r == PeerStep::Failed(BrokerSocketError(status)),
        },
{
    match credentials {
        Ok(credentials) => PeerStep::ReadPolicy(IdentifiedPeer { peer: local_peer(credentials) }),
        Err(SocketStatus::Credentials) => PeerStep::Reply(Response::Denied),
        Err(status) => PeerStep::Failed(BrokerSocketError(status)),
    }
}

/// The refusal that precedes any receiving, if there is one: the policy does not
/// admit the peer, or a peer other than root finds an owner's record that exists
/// but cannot be used.
pub open spec fn refusal(
    peer: PeerMetadata,
    policy: Result<AccessPolicy, EnrollmentOwnerError>,
) -> Option<Response> {
    match policy {
        Ok(policy) => if policy.admits(peer) {
            None
        } else {
            Some(Response::Denied)
        },
        Err(error) => if error == EnrollmentOwnerError::MissingOwner || peer.user_id == ROOT_UID {
            None
        } else {
            Some(Response::Failure)
        },
    }
}

impl IdentifiedPeer {
    /// The peer.
    pub closed spec fn identity(self) -> PeerMetadata {
        self.peer
    }

    /// Takes the owner's record, before any byte of the request is read.
    pub fn policy_read(self, policy: Result<AccessPolicy, EnrollmentOwnerError>) -> (r: PolicyStep)
        ensures
            match refusal(self.identity(), policy) {
                Some(response) => r == PolicyStep::Reply(response),
                None => r is Receive && r->Receive_0.identity() == self.identity()
                    && r->Receive_0.record() == policy,
            },
    {
        let peer = self.peer;
        match policy {
            Ok(owner_policy) => if !owner_policy.peer_is_authorized(peer) {
                return PolicyStep::Reply(Response::Denied);
            },
            Err(error) => if error != EnrollmentOwnerError::MissingOwner && peer.user_id
                != ROOT_UID {
                return PolicyStep::Reply(Response::Failure);
            },
        }
        PolicyStep::Receive(AdmittedPeer { peer, policy })
    }
}

impl AdmittedPeer {
    /// The peer.
    pub closed spec fn identity(self) -> PeerMetadata {
        self.peer
    }

    /// The owner's record or its failure.
    pub closed spec fn record(self) -> Result<AccessPolicy, EnrollmentOwnerError> {
        self.policy
    }

    /// What a complete request packet gives, and the service afterwards.
    pub open spec fn answers_packet(
        self,
        before: ServiceModel,
        packet: Seq<u8>,
        now: Duration,
        r: CoreDispatch,
        after: ServiceModel,
    ) -> bool {
        match self.record() {
            Ok(policy) => exists|dispatch: ScheduledDispatch| #[trigger]
                before.dispatches(self.identity(), policy, packet, now, dispatch, after)
                    && r.answers(dispatch),
            Err(error) => match decoded_request(packet) {
                Ok(Request::Cancel) => exists|dispatch: ScheduledDispatch| #[trigger]
                    before.cancels_without_owner(self.identity(), dispatch, after) && r.answers(
                        dispatch,
                    ),
                Ok(Request::Enroll) => if error == EnrollmentOwnerError::MissingOwner
                    && self.identity().user_id != ROOT_UID {
                    exists|dispatch: ScheduledDispatch| #[trigger]
                        before.enrolls_without_owner(self.identity(), now, dispatch, after)
                            && r.answers(dispatch)
                } else {
                    r == CoreDispatch::Reply(Response::Denied) && after == before
                },
                Ok(Request::Authenticate) | Ok(Request::Approve) => r == CoreDispatch::Reply(
                    Response::Failure,
                ) && after == before,
                Err(_) => r == CoreDispatch::Reply(Response::Denied) && after == before,
            },
        }
    }

    /// Takes the outcome of one receive into `buffer`. A socket that is not ready
    /// leaves the request pending; oversized or malformed packets are denied;
    /// cancellation by root works while the owner's record cannot be used, and a
    /// first enrollment works where there is none.
    pub fn received(
        self,
        outcome: Result<usize, SocketStatus>,
        buffer: &[u8; 8],
        service: &mut BrokerServiceScheduler,
        now: Duration,
    ) -> (r: Result<CoreDispatch, BrokerSocketError>)
        requires
            old(service)@.well_formed(),
        ensures
            final(service)@.well_formed(),
            match outcome {
                Ok(received) => r is Ok && (if received > REQUEST_CAPACITY {
                    r->Ok_0 == CoreDispatch::Reply(Response::Denied) && final(service)@ == old(
                        service
                    )@
                } else {
                    self.answers_packet(
                        old(service)@,
                        buffer@.subrange(0, received as int),
                        now,
                        r->Ok_0,
                        final(service)@,
                    )
                }),
                Err(status) => final(service)@ == old(service)@ && r == match status {
                    SocketStatus::WouldBlock | SocketStatus::Interrupted => Ok::<
                        CoreDispatch,
                        BrokerSocketError,
                    >(CoreDispatch::Pending),
                    SocketStatus::PeerClosed => Ok(CoreDispatch::Closed),
                    SocketStatus::Truncated => Ok(CoreDispatch::Reply(Response::Denied)),
                    _ => Err(BrokerSocketError(status)),
                },
            },
    {
        let received: usize = match outcome {
            Ok(received) => received,
            Err(SocketStatus::WouldBlock) | Err(SocketStatus::Interrupted) => {
                return Ok(CoreDispatch::Pending);
            },
            Err(SocketStatus::PeerClosed) => {
                return Ok(CoreDispatch::Closed);
            },
            Err(SocketStatus::Truncated) => {
                return Ok(CoreDispatch::Reply(Response::Denied));
            },
            Err(status) => {
                return Err(BrokerSocketError(status));
            },
        };
        if received > REQUEST_CAPACITY {
            return Ok(CoreDispatch::Reply(Response::Denied));
        }
        let packet = vstd::slice::slice_subrange(buffer.as_slice(), 0, received);
        match self.policy {
            Ok(policy) => {
                let dispatch = service.dispatch(self.peer, policy, packet, now);
                Ok(CoreDispatch::of_service(dispatch))
            },
            Err(error) => match decode_request(packet) {
                Ok(Request::Cancel) => {
                    let dispatch = service.cancel_without_owner(self.peer);
                    Ok(CoreDispatch::of_service(dispatch))
                },
                Ok(Request::Enroll) => {
                    if error == EnrollmentOwnerError::MissingOwner && self.peer.user_id
                        != ROOT_UID {
                        let dispatch = service.enroll_without_owner(self.peer, now);
                        Ok(CoreDispatch::of_service(dispatch))
                    } else {
                        Ok(CoreDispatch::Reply(Response::Denied))
                    }
                },
                Ok(Request::Authenticate) | Ok(Request::Approve) => Ok(
                    CoreDispatch::Reply(Response::Failure),
                ),
                Err(_) => Ok(CoreDispatch::Reply(Response::Denied)),
            },
        }
    }
}

/// Without a usable owner's record nothing starts but a first enrollment by a
/// non-root peer, and that only where no owner is recorded.
pub proof fn law_only_a_first_enrollment_starts_without_an_owner(
    admitted: AdmittedPeer,
    before: ServiceModel,
    packet: Seq<u8>,
    now: Duration,
    r: CoreDispatch,
    after: ServiceModel,
)
    requires
        admitted.record() is Err,
        admitted.answers_packet(before, packet, now, r, after),
        r is Start,
    ensures
        admitted.record()->Err_0 == EnrollmentOwnerError::MissingOwner,
        admitted.identity().user_id != ROOT_UID,
        decoded_request(packet) == Ok::<Request, crate::auth_protocol::RequestError>(
            Request::Enroll,
        ),
{
}

/// Result of one nonblocking request receive attempt.
pub enum BrokerSocketDispatch<D> {
    /// No complete request is ready; retry after readiness notification.
    Pending(BrokerSocketConnection<D>),
    /// The peer closed before supplying a request. No response is possible.
    Closed,
    /// A fixed response is ready for an exact packet send.
    Reply(PendingBrokerReply<D>),
    /// An authenticated operation owns this connection until completion.
    Start(ActiveBrokerSocketSession<D>),
    /// The service authority became uncertain and the process must terminate.
    Terminate,
}

/// Result of one exact nonblocking response send attempt.
pub enum BrokerReplyProgress<D> {
    Sent(Response),
    Pending(PendingBrokerReply<D>),
}

/// Fixed response retained across nonblocking send retries.
pub struct PendingBrokerReply<D> {
    descriptor: D,
    response: Response,
}

impl<D> PendingBrokerReply<D> {
    /// The retained response.
    pub closed spec fn retained(self) -> Response {
        self.response
    }

    /// The connection that it goes to.
    pub closed spec fn target(self) -> D {
        self.descriptor
    }

    /// The exact typed response retained by this send state.
    pub fn response(&self) -> (r: Response)
        ensures
            r == self.retained(),
    {
        self.response
    }

    /// The connection that it goes to.
    pub fn descriptor(&self) -> (r: &D)
        ensures
            *r == self.target(),
    {
        &self.descriptor
    }

    /// Takes the outcome of sending the response's exact packet. A socket that is
    /// not ready retains the response for a later retry.
    pub fn try_send(self, outcome: Result<(), SocketStatus>) -> (r: Result<
        BrokerReplyProgress<D>,
        BrokerSocketError,
    >)
        ensures
            r == match outcome {
                Ok(()) => Ok::<BrokerReplyProgress<D>, BrokerSocketError>(
                    BrokerReplyProgress::Sent(self.retained()),
                ),
                Err(SocketStatus::WouldBlock) | Err(SocketStatus::Interrupted) => Ok(
                    BrokerReplyProgress::Pending(self),
                ),
                Err(status) => Err(BrokerSocketError(status)),
            },
    {
        match outcome {
            Ok(()) => Ok(BrokerReplyProgress::Sent(self.response)),
            Err(SocketStatus::WouldBlock) | Err(SocketStatus::Interrupted) => Ok(
                BrokerReplyProgress::Pending(self),
            ),
            Err(status) => Err(BrokerSocketError(status)),
        }
    }

    /// A diagnostic that shows the response and nothing of the connection.
    pub fn diagnostic(&self) -> (text: &'static str)
        ensures
            text@ == match self.retained() {
                Response::Okay => "PendingBrokerReply { response: Okay, .. }"@,
                Response::Denied => "PendingBrokerReply { response: Denied, .. }"@,
                Response::Busy => "PendingBrokerReply { response: Busy, .. }"@,
                Response::Failure => "PendingBrokerReply { response: Failure, .. }"@,
            },
    {
        match self.response {
            Response::Okay => "PendingBrokerReply { response: Okay, .. }",
            Response::Denied => "PendingBrokerReply { response: Denied, .. }",
            Response::Busy => "PendingBrokerReply { response: Busy, .. }",
            Response::Failure => "PendingBrokerReply { response: Failure, .. }",
        }
    }
}

/// One accepted, caller-owned local packet connection.
pub struct BrokerSocketConnection<D> {
    descriptor: D,
}

impl<D> BrokerSocketConnection<D> {
    /// The connection.
    pub closed spec fn target(self) -> D {
        self.descriptor
    }

    /// Takes one accepted connection.
    pub fn new(descriptor: D) -> (r: BrokerSocketConnection<D>)
        ensures
            r.target() == descriptor,
    {
        BrokerSocketConnection { descriptor }
    }

    /// The connection.
    pub fn descriptor(&self) -> (r: &D)
        ensures
            *r == self.target(),
    {
        &self.descriptor
    }

    /// Retains `response` for this connection.
    pub fn reply(self, response: Response) -> (r: PendingBrokerReply<D>)
        ensures
            r.retained() == response,
            r.target() == self.target(),
    {
        PendingBrokerReply { descriptor: self.descriptor, response }
    }

    /// Binds what a receive attempt came to, to this connection.
    pub fn receive_and_dispatch(self, dispatch: CoreDispatch) -> (r: BrokerSocketDispatch<D>)
        ensures
            match dispatch {
                CoreDispatch::Pending => r == BrokerSocketDispatch::Pending(self),
                CoreDispatch::Closed => r is Closed,
                CoreDispatch::Reply(response) => r is Reply && r->Reply_0.retained() == response
                    && r->Reply_0.target() == self.target(),
                CoreDispatch::Start(scheduled) => r is Start && r->Start_0.work() == scheduled
                    && r->Start_0.target() == self.target(),
                CoreDispatch::Terminate => r is Terminate,
            },
    {
        match dispatch {
            CoreDispatch::Pending => BrokerSocketDispatch::Pending(self),
            CoreDispatch::Closed => BrokerSocketDispatch::Closed,
            CoreDispatch::Reply(response) => BrokerSocketDispatch::Reply(self.reply(response)),
            CoreDispatch::Start(scheduled) => BrokerSocketDispatch::Start(
                ActiveBrokerSocketSession { descriptor: self.descriptor, scheduled },
            ),
            CoreDispatch::Terminate => BrokerSocketDispatch::Terminate,
        }
    }
}

/// Outcome of a non-consuming authentication-client disconnect probe.
#[derive(Clone, Copy, Debug, PartialEq, Eq, Structural)]
pub enum DisconnectObservation {
    Connected,
    CancellationDelivered,
    OperationInactive,
}

/// Takes the outcome of probing a peer for closure. Only a probe that shows the
/// peer connected leaves its work alone; a closed peer and a failed probe cancel
/// it.
pub fn observe_disconnect_result(
    peer_closed: Result<bool, SocketStatus>,
    service: &mut BrokerServiceScheduler,
    scheduled: &ScheduledAuthentication,
) -> (r: DisconnectObservation)
    requires
        old(service)@.well_formed(),
    ensures
        final(service)@.well_formed(),
        if peer_closed == Ok::<bool, SocketStatus>(false) {
            r == DisconnectObservation::Connected && final(service)@ == old(service)@
        } else {
            r != DisconnectObservation::Connected && old(service)@.cancels_scheduled(
                *scheduled,
                r == DisconnectObservation::CancellationDelivered,
                final(service)@,
            )
        },
{
    if let Ok(closed) = peer_closed {
        if !closed {
            return DisconnectObservation::Connected;
        }
    }
    if service.client_disconnected(scheduled) {
        DisconnectObservation::CancellationDelivered
    } else {
        DisconnectObservation::OperationInactive
    }
}

/// Active authentication tied to the owned request connection that started it.
pub struct ActiveBrokerSocketSession<D> {
    descriptor: D,
    scheduled: ScheduledAuthentication,
}

impl<D> ActiveBrokerSocketSession<D> {
    /// The scheduled work.
    pub closed spec fn work(self) -> ScheduledAuthentication {
        self.scheduled
    }

    /// The connection that started it.
    pub closed spec fn target(self) -> D {
        self.descriptor
    }

    /// Binds scheduled work to the connection that started it.
    pub fn new(descriptor: D, scheduled: ScheduledAuthentication) -> (r: ActiveBrokerSocketSession<
        D,
    >)
        ensures
            r.work() == scheduled,
            r.target() == descriptor,
    {
        ActiveBrokerSocketSession { descriptor, scheduled }
    }

    /// The connection that started the work.
    pub fn descriptor(&self) -> (r: &D)
        ensures
            *r == self.target(),
    {
        &self.descriptor
    }

    /// The scheduled work.
    pub fn scheduled(&self) -> (r: &ScheduledAuthentication)
        ensures
            *r == self.work(),
    {
        &self.scheduled
    }

    /// Token-associated operation used by the caller-owned hardware worker.
    pub fn authentication(&self) -> (r: &ActiveAuthentication)
        ensures
            *r == self.work().admitted(),
    {
        self.scheduled.authentication()
    }

    /// One monotonic setup-and-match deadline for this exact worker.
    pub fn deadline(&self) -> (r: Duration)
        ensures
            r == self.work().due(),
    {
        self.scheduled.deadline()
    }

    /// Takes the outcome of probing the peer for closure.
    pub fn observe_disconnect(
        &self,
        peer_closed: Result<bool, SocketStatus>,
        service: &mut BrokerServiceScheduler,
    ) -> (r: DisconnectObservation)
        requires
            old(service)@.well_formed(),
        ensures
            final(service)@.well_formed(),
            if peer_closed == Ok::<bool, SocketStatus>(false) {
                r == DisconnectObservation::Connected && final(service)@ == old(service)@
            } else {
                r != DisconnectObservation::Connected && old(service)@.cancels_scheduled(
                    self.work(),
                    r == DisconnectObservation::CancellationDelivered,
                    final(service)@,
                )
            },
    {
        observe_disconnect_result(peer_closed, service, &self.scheduled)
    }

    /// Whether this session's work still owns the service's worker.
    pub fn is_active_in(&self, service: &BrokerServiceScheduler) -> (r: bool)
        ensures
            r == service@.holds(self.work().service(), self.work().held_lease()),
    {
        service.owns(&self.scheduled)
    }

    /// Delivers deadline cancellation to this exact scheduled operation. The
    /// worker remains active until its lease is resolved.
    pub fn deadline_expired(&self, service: &mut BrokerServiceScheduler) -> (delivered: bool)
        requires
            old(service)@.well_formed(),
        ensures
            final(service)@.well_formed(),
            old(service)@.cancels_scheduled(self.work(), delivered, final(service)@),
    {
        service.deadline_expired(&self.scheduled)
    }

    /// Finalizes the exact operation and retains its response for send.
    pub fn finish(
        self,
        service: &mut BrokerServiceScheduler,
        completion: &AuthenticationCompletion,
        now: Duration,
    ) -> (r: PendingBrokerReply<D>)
        requires
            old(service)@.well_formed(),
        ensures
            final(service)@.well_formed(),
            r.target() == self.target(),
            old(service)@.finishes(
                self.work(),
                *completion,
                now,
                r.retained(),
                final(service)@,
            ),
    {
        PendingBrokerReply {
            descriptor: self.descriptor,
            response: service.finish(&self.scheduled, completion, now),
        }
    }

    /// Finalizes the exact operation through best-effort feedback and retains the
    /// same connection for its final response.
    pub fn finish_with_feedback<Feedback: AuthenticationFeedback>(
        self,
        service: &mut BrokerServiceScheduler,
        completion: &AuthenticationCompletion,
        feedback: Option<&mut Feedback>,
        now: Duration,
    ) -> (r: PendingBrokerReply<D>)
        requires
            old(service)@.well_formed(),
        ensures
            final(service)@.well_formed(),
            r.target() == self.target(),
            old(service)@.finishes(
                self.work(),
                *completion,
                now,
                r.retained(),
                final(service)@,
            ),
            match feedback {
                Some(presentation) => presents(
                    old(service)@.shown(self.work(), *completion),
                    presentation.offered(),
                    final(presentation).offered(),
                ),
                None => true,
            },
    {
        PendingBrokerReply {
            descriptor: self.descriptor,
            response: service.finish_with_feedback(&self.scheduled, completion, feedback, now),
        }
    }

    /// Releases work that could not be handed to a caller-owned worker.
    pub fn abandon(self, service: &mut BrokerServiceScheduler, now: Duration) -> (r:
        PendingBrokerReply<D>)
        requires
            old(service)@.well_formed(),
        ensures
            final(service)@.well_formed(),
            r.target() == self.target(),
            r.retained() == Response::Failure,
            final(service)@ == old(service)@.after_abandon(self.work(), now),
    {
        PendingBrokerReply {
            descriptor: self.descriptor,
            response: service.abandon(&self.scheduled, now),
        }
    }

    /// Marks this exact worker lost so the service cannot admit replacement work
    /// under uncertain hardware ownership.
    pub fn worker_lost(self, service: &mut BrokerServiceScheduler) -> (r: bool)
        requires
            old(service)@.well_formed(),
        ensures
            final(service)@.well_formed(),
            r == old(service)@.holds(self.work().service(), self.work().held_lease()),
            final(service)@ == if r {
                ServiceModel { workers: old(service)@.workers.with_poison(), ..old(service)@ }
            } else {
                old(service)@
            },
    {
        service.worker_lost(&self.scheduled)
    }
}

} // verus!
