//! What the service answers on its sockets, and who holds its one worker.

use crate::auth_protocol::{
    AccessPolicy, ActiveModel, OperationToken, PeerAddressFamily, PeerMetadata, PolicyError,
    Purpose, Response,
};
use crate::auth_scheduler::{
    enrollment_operation_timeout, operation_timeout, BrokerScheduler, BrokerServiceScheduler,
    LifecycleDecision, ScheduledAuthentication, ScheduledDispatch, ScheduledStandardDispatch,
    ScheduledStandardOperation, SchedulerError, ServiceModel, WorkerAdmission, WorkerLease,
    WorkerModel, WorkersModel,
};
use crate::auth_session::{
    AuthenticationCompletion, AuthenticationSessionFailure, StandardCompletion,
};
use crate::auth_socket::{
    identify_peer, local_peer, observe_disconnect_result, ActiveBrokerSocketSession, AdmittedPeer,
    BrokerReplyProgress, BrokerSocketConnection, BrokerSocketDispatch, BrokerSocketError,
    CoreDispatch, DisconnectObservation, IdentifiedPeer, PeerCredentials, PeerStep,
    PendingBrokerReply, PolicyStep, SocketStatus,
};
use crate::biometric::MatchOutcome;
use crate::enrollment_owner::EnrollmentOwnerError;
use crate::laws::broker::{
    asks_to_approve, asks_to_authenticate, asks_to_cancel, asks_to_enroll, has_given_out,
    is_served, lemma_packets_by_their_bytes, wants_work,
};
use crate::standard_fingerprint_protocol::{MessageModel, TerminalOutcome};
use crate::standard_operation_authority::{ResolvedStandardOperation, StandardAuthority};
use crate::time::Duration;
use vstd::prelude::*;

verus! {

/// Nanoseconds of the outer budget of work for a purpose: fifteen minutes for an
/// enrollment, sixty-five seconds for the rest.
pub open spec fn budget(purpose: Purpose) -> int {
    if purpose == Purpose::Enrollment {
        900_000_000_000
    } else {
        65_000_000_000
    }
}

/// The longest time that can be told.
pub open spec fn last_nanosecond() -> int {
    18_446_744_073_709_551_615int * 1_000_000_000 + 999_999_999
}

/// The service has one free worker that can be bounded by `budget`.
pub open spec fn has_worker(service: ServiceModel, now: Duration, budget: int) -> bool {
    &&& !service.workers.poisoned
    &&& service.workers.active is None
    &&& service.workers.next_lease != 0
    &&& now.nanos + budget <= last_nanosecond()
}

/// The worker's slot after its next lease was given out until `deadline`.
pub open spec fn has_leased(
    before: WorkersModel,
    lease: WorkerLease,
    deadline: Duration,
    after: WorkersModel,
) -> bool {
    &&& lease.number() == before.next_lease
    &&& after.active == Some(WorkerModel { lease, deadline, cancellation_sent: false })
    &&& before.next_lease < u64::MAX ==> after.next_lease == before.next_lease + 1
    &&& before.next_lease == u64::MAX ==> after.next_lease == 0
    &&& after.poisoned == before.poisoned
    &&& after.idle_timeout == before.idle_timeout
    &&& after.idle_since == before.idle_since
}

/// The service after it has started work: the broker's token and the worker's lease are
/// both given out, the work can be cancelled, and nothing has been cancelled.
pub open spec fn has_started(
    before: ServiceModel,
    scheduled: ScheduledAuthentication,
    now: Duration,
    after: ServiceModel,
) -> bool {
    let operation = scheduled.admitted().admitted();
    &&& has_given_out(before.coordinator.broker, operation.token, after.coordinator.broker)
    &&& has_leased(before.workers, scheduled.held_lease(), scheduled.due(), after.workers)
    &&& scheduled.due().nanos == now.nanos + budget(operation.purpose)
    &&& scheduled.service() == before.identity
    &&& scheduled.admitted().coordinator() == before.coordinator.identity
    &&& after.coordinator.slot.registered == Some(operation.token)
    &&& after.coordinator.slot.delivered == before.coordinator.slot.delivered
    &&& after.identity == before.identity
    &&& after.coordinator.identity == before.coordinator.identity
}

/// The service after a cancellation has reached its active operation, and nothing
/// else has changed.
pub open spec fn has_cancelled(
    before: ServiceModel,
    token: OperationToken,
    after: ServiceModel,
) -> bool {
    &&& before.coordinator.broker.active matches Some(active) && active.token == token
    &&& before.coordinator.slot.registered == Some(token)
    &&& after.coordinator.broker.active == Some(ActiveModel { token, cancelled: true })
    &&& after.coordinator.broker.next_token == before.coordinator.broker.next_token
    &&& after.coordinator.slot.delivered == before.coordinator.slot.delivered.insert(token)
    &&& after.coordinator.slot.registered == before.coordinator.slot.registered
    &&& after.coordinator.identity == before.coordinator.identity
    &&& after.workers == before.workers
    &&& after.identity == before.identity
}

/// The service after it has admitted an operation that no worker can be given to: the
/// operation is ended again, and the service is unsound for good.
pub open spec fn has_given_up(before: ServiceModel, after: ServiceModel) -> bool {
    &&& after.workers.poisoned && after.workers.active == before.workers.active
    &&& after.workers.next_lease == before.workers.next_lease
    &&& after.workers.idle_since == before.workers.idle_since
    &&& after.workers.idle_timeout == before.workers.idle_timeout
    &&& after.coordinator.broker.active is None
    &&& before.coordinator.broker.next_token < u64::MAX ==> after.coordinator.broker.next_token
        == before.coordinator.broker.next_token + 1
    &&& before.coordinator.broker.next_token == u64::MAX
        ==> after.coordinator.broker.next_token == 0
    &&& after.coordinator.slot.registered is None
    &&& after.coordinator.slot.delivered == before.coordinator.slot.delivered
    &&& after.coordinator.identity == before.coordinator.identity
    &&& after.identity == before.identity
}

/// Whether a cancellation of the active operation can be delivered.
pub open spec fn is_cancellable(service: ServiceModel) -> bool {
    service.coordinator.broker.active matches Some(active)
        && service.coordinator.slot.registered == Some(active.token)
}

/// The purpose that the bytes of a packet name.
pub open spec fn purpose_of(packet: Seq<u8>) -> Purpose {
    if asks_to_enroll(packet) {
        Purpose::Enrollment
    } else if asks_to_approve(packet) {
        Purpose::Approve
    } else {
        Purpose::Authenticate
    }
}

/// What the service does with a packet under the policy of an owner. Work starts
/// exactly where the peer is served, the packet asks for it, nothing is active and
/// token, worker and time are left; it is the work that the bytes name. Okay is answered
/// to a delivered cancellation by local user 0 and to nothing else; denial, being busy
/// and failing change nothing.
pub proof fn law_served_packets_start_answer_or_cancel(
    service: &mut BrokerServiceScheduler,
    owner: u32,
    policy: AccessPolicy,
    peer: PeerMetadata,
    packet: &[u8],
    now: Duration,
    r: ScheduledDispatch,
)
    requires
        call_ensures(AccessPolicy::new, (owner,), Ok::<AccessPolicy, PolicyError>(policy)),
        call_ensures(BrokerServiceScheduler::dispatch, (service, peer, policy, packet, now), r),
    ensures
        old(service)@.workers.poisoned ==> r is Terminate && final(service)@ == old(service)@,
        r is Start <==> is_served(peer, owner) && wants_work(peer, packet@)
            && old(service)@.coordinator.broker.active is None
            && old(service)@.coordinator.broker.next_token != 0
            && has_worker(old(service)@, now, budget(purpose_of(packet@))),
        r matches ScheduledDispatch::Start(scheduled) ==> {
            &&& has_started(old(service)@, scheduled, now, final(service)@)
            &&& scheduled.admitted().admitted().purpose == purpose_of(packet@)
            &&& scheduled.admitted().admitted().biometric_user_id == 501
            &&& asks_to_enroll(packet@) ==> (
            scheduled.admitted().admitted().enrollment_owner_candidate matches Some(candidate)
                && candidate.id() == peer.user_id)
            &&& !asks_to_enroll(packet@)
                ==> scheduled.admitted().admitted().enrollment_owner_candidate is None
        },
        !old(service)@.workers.poisoned ==> (r == ScheduledDispatch::Reply(Response::Okay)
            <==> asks_to_cancel(packet@) && peer.address_family == PeerAddressFamily::Local
            && peer.user_id == 0 && is_cancellable(old(service)@)),
        r == ScheduledDispatch::Reply(Response::Okay) ==> has_cancelled(
            old(service)@,
            old(service)@.coordinator.broker.active->0.token,
            final(service)@,
        ),
        !old(service)@.workers.poisoned ==> (r == ScheduledDispatch::Reply(Response::Busy)
            <==> is_served(peer, owner) && wants_work(peer, packet@)
                && old(service)@.coordinator.broker.active is Some),
        !old(service)@.workers.poisoned ==> (r == ScheduledDispatch::Reply(Response::Failure)
            <==> is_served(peer, owner) && wants_work(peer, packet@)
                && old(service)@.coordinator.broker.active is None
                && old(service)@.coordinator.broker.next_token == 0),
        r is Reply && r != ScheduledDispatch::Reply(Response::Okay) ==> final(service)@
            == old(service)@,
        r is Terminate && !old(service)@.workers.poisoned ==> has_given_up(
            old(service)@,
            final(service)@,
        ),
        r is Terminate && old(service)@.workers.poisoned ==> final(service)@ == old(service)@,
        !is_served(peer, owner) && !old(service)@.workers.poisoned ==> r
            == ScheduledDispatch::Reply(Response::Denied),
{
    lemma_packets_by_their_bytes(packet@);
}

/// What a first enrollment gives, while no owner is recorded.
pub proof fn law_first_enrollments_start_for_their_peer(
    service: &mut BrokerServiceScheduler,
    peer: PeerMetadata,
    now: Duration,
    r: ScheduledDispatch,
)
    requires
        call_ensures(BrokerServiceScheduler::enroll_without_owner, (service, peer, now), r),
    ensures
        r is Start <==> peer.address_family == PeerAddressFamily::Local && peer.user_id != 0
            && old(service)@.coordinator.broker.active is None
                && old(service)@.coordinator.broker.next_token != 0
                && has_worker(old(service)@, now, 900_000_000_000),
        r matches ScheduledDispatch::Start(scheduled) ==> {
            &&& has_started(old(service)@, scheduled, now, final(service)@)
            &&& scheduled.admitted().admitted().purpose == Purpose::Enrollment
            &&& scheduled.admitted().admitted().biometric_user_id == 501
            &&& scheduled.admitted().admitted().enrollment_owner_candidate matches Some(candidate)
                && candidate.id() == peer.user_id
        },
        r != ScheduledDispatch::Reply(Response::Okay),
        old(service)@.workers.poisoned ==> r is Terminate,
        r is Reply ==> final(service)@ == old(service)@,
        r == ScheduledDispatch::Reply(Response::Busy) <==> !old(service)@.workers.poisoned
            && peer.address_family == PeerAddressFamily::Local && peer.user_id != 0 && old(
            service
        )@.coordinator.broker.active is Some,
        r == ScheduledDispatch::Reply(Response::Failure) <==> !old(service)@.workers.poisoned
            && peer.address_family == PeerAddressFamily::Local && peer.user_id != 0 && old(
            service
        )@.coordinator.broker.active is None && old(service)@.coordinator.broker.next_token == 0,
        r is Terminate && !old(service)@.workers.poisoned ==> has_given_up(
            old(service)@,
            final(service)@,
        ),
        r is Terminate && old(service)@.workers.poisoned ==> final(service)@ == old(service)@,
        !old(service)@.workers.poisoned && (peer.address_family != PeerAddressFamily::Local
            || peer.user_id == 0) ==> r == ScheduledDispatch::Reply(Response::Denied),
{
}

/// What a cancellation gives, while the owner's record cannot be used.
pub proof fn law_ownerless_cancellations_need_local_root(
    service: &mut BrokerServiceScheduler,
    peer: PeerMetadata,
    r: ScheduledDispatch,
)
    requires
        call_ensures(BrokerServiceScheduler::cancel_without_owner, (service, peer), r),
    ensures
        old(service)@.workers.poisoned <==> r is Terminate,
        r == ScheduledDispatch::Reply(Response::Okay) <==> !old(service)@.workers.poisoned
            && peer.address_family == PeerAddressFamily::Local && peer.user_id == 0
            && is_cancellable(old(service)@),
        r == ScheduledDispatch::Reply(Response::Okay) ==> has_cancelled(
            old(service)@,
            old(service)@.coordinator.broker.active->0.token,
            final(service)@,
        ),
        r != ScheduledDispatch::Reply(Response::Okay) ==> final(service)@ == old(service)@,
        r is Reply && r != ScheduledDispatch::Reply(Response::Okay) ==> r
            == ScheduledDispatch::Reply(Response::Denied),
{
}

/// A connected peer is who the kernel says, on this machine; a peer without credentials
/// is denied, and any other failure is the socket's own.
pub proof fn law_peers_are_who_the_kernel_says(
    credentials: Result<PeerCredentials, SocketStatus>,
    step: PeerStep,
    metadata: PeerMetadata,
)
    requires
        call_ensures(identify_peer, (credentials,), step),
        credentials matches Ok(known) ==> call_ensures(local_peer, (known,), metadata),
    ensures
        step is ReadPolicy <==> credentials is Ok,
        step == PeerStep::Reply(Response::Denied) <==> credentials == Err::<
            PeerCredentials,
            SocketStatus,
        >(SocketStatus::Credentials),
        step is Reply ==> step == PeerStep::Reply(Response::Denied),
        step matches PeerStep::Failed(error) ==> credentials == Err::<
            PeerCredentials,
            SocketStatus,
        >(error.0),
        credentials matches Ok(known) ==> metadata.user_id == known.user_id && metadata.group_id
            == known.group_id && metadata.address_family == PeerAddressFamily::Local
            && step->ReadPolicy_0.identity() == metadata,
{
}

/// Before any byte is read: with an owner's record the peer has to be user 0 or the
/// owner, else it is denied; with a record that exists but cannot be used only user 0
/// goes on, and any other peer is told of a failure; without a record everyone goes on.
pub proof fn law_peers_are_admitted_before_they_are_read(
    credentials: PeerCredentials,
    identified: IdentifiedPeer,
    owner: u32,
    policy: Result<AccessPolicy, EnrollmentOwnerError>,
    step: PolicyStep,
)
    requires
        call_ensures(
            identify_peer,
            (Ok::<PeerCredentials, SocketStatus>(credentials),),
            PeerStep::ReadPolicy(identified),
        ),
        policy matches Ok(known) ==> call_ensures(
            AccessPolicy::new,
            (owner,),
            Ok::<AccessPolicy, PolicyError>(known),
        ),
        call_ensures(IdentifiedPeer::policy_read, (identified, policy), step),
    ensures
        policy is Ok ==> (step is Receive <==> credentials.user_id == 0 || credentials.user_id
            == owner),
        policy is Ok && !(step is Receive) ==> step == PolicyStep::Reply(Response::Denied),
        policy matches Err(error) ==> (step is Receive <==> credentials.user_id == 0 || error
            == EnrollmentOwnerError::MissingOwner),
        policy is Err && !(step is Receive) ==> step == PolicyStep::Reply(Response::Failure),
        step matches PolicyStep::Receive(admitted) ==> admitted.record() == policy
            && admitted.identity().user_id == credentials.user_id
            && admitted.identity().address_family == PeerAddressFamily::Local,
{
}

/// Without a usable owner's record nobody is authenticated or approved: both requests
/// fail and change nothing. Okay is answered to nothing but a delivered cancellation by
/// user 0, and nothing starts but a first enrollment, by a peer that is not user 0, where
/// no owner is recorded. What is no request is denied.
pub proof fn law_nothing_is_granted_without_an_owner(
    credentials: PeerCredentials,
    identified: IdentifiedPeer,
    error: EnrollmentOwnerError,
    admitted: AdmittedPeer,
    buffer: &[u8; 8],
    received: usize,
    service: &mut BrokerServiceScheduler,
    now: Duration,
    r: Result<CoreDispatch, BrokerSocketError>,
)
    requires
        call_ensures(
            identify_peer,
            (Ok::<PeerCredentials, SocketStatus>(credentials),),
            PeerStep::ReadPolicy(identified),
        ),
        call_ensures(
            IdentifiedPeer::policy_read,
            (identified, Err::<AccessPolicy, EnrollmentOwnerError>(error)),
            PolicyStep::Receive(admitted),
        ),
        call_ensures(
            AdmittedPeer::received,
            (admitted, Ok::<usize, SocketStatus>(received), buffer, service, now),
            r,
        ),
        received <= 8,
    ensures
        ({
            let packet = buffer@.subrange(0, received as int);
            &&& r is Ok
            &&& asks_to_authenticate(packet) || asks_to_approve(packet) ==> r == Ok::<
                CoreDispatch,
                BrokerSocketError,
            >(CoreDispatch::Reply(Response::Failure)) && final(service)@ == old(service)@
            &&& r == Ok::<CoreDispatch, BrokerSocketError>(CoreDispatch::Reply(Response::Okay))
                <==> asks_to_cancel(packet) && credentials.user_id == 0 && is_cancellable(
                old(service)@,
            ) && !old(service)@.workers.poisoned
            &&& r == Ok::<CoreDispatch, BrokerSocketError>(CoreDispatch::Reply(Response::Okay))
                ==> has_cancelled(
                old(service)@,
                old(service)@.coordinator.broker.active->0.token,
                final(service)@,
            )
            &&& r->Ok_0 is Start <==> asks_to_enroll(packet) && error
                == EnrollmentOwnerError::MissingOwner && credentials.user_id != 0
                    && old(service)@.coordinator.broker.active is None
                    && old(service)@.coordinator.broker.next_token
                != 0 && has_worker(old(service)@, now, 900_000_000_000)
            &&& r->Ok_0 matches CoreDispatch::Start(scheduled) ==> has_started(
                old(service)@,
                scheduled,
                now,
                final(service)@,
            ) && scheduled.admitted().admitted().purpose == Purpose::Enrollment && (
            scheduled.admitted().admitted().enrollment_owner_candidate matches Some(candidate)
                && candidate.id() == credentials.user_id)
            &&& asks_to_cancel(packet) && !old(service)@.workers.poisoned && !(credentials.user_id
                == 0 && is_cancellable(old(service)@)) ==> r == Ok::<
                CoreDispatch,
                BrokerSocketError,
            >(CoreDispatch::Reply(Response::Denied)) && final(service)@ == old(service)@
            &&& asks_to_enroll(packet) && credentials.user_id != 0 && error
                == EnrollmentOwnerError::MissingOwner && !old(service)@.workers.poisoned && old(
                service
            )@.coordinator.broker.active is Some ==> r == Ok::<CoreDispatch, BrokerSocketError>(
                CoreDispatch::Reply(Response::Busy),
            ) && final(service)@ == old(service)@
            &&& r->Ok_0 is Terminate ==> (old(service)@.workers.poisoned && final(service)@ == old(
                service
            )@) || (!old(service)@.workers.poisoned && has_given_up(
                old(service)@,
                final(service)@,
            ))
            &&& r->Ok_0 is Terminate ==> asks_to_cancel(packet) || asks_to_enroll(packet)
            &&& asks_to_enroll(packet) && (credentials.user_id == 0 || error
                != EnrollmentOwnerError::MissingOwner) ==> r == Ok::<
                CoreDispatch,
                BrokerSocketError,
            >(CoreDispatch::Reply(Response::Denied)) && final(service)@ == old(service)@
            &&& !asks_to_authenticate(packet) && !asks_to_approve(packet) && !asks_to_enroll(
                packet,
            ) && !asks_to_cancel(packet) ==> r == Ok::<CoreDispatch, BrokerSocketError>(
                CoreDispatch::Reply(Response::Denied),
            ) && final(service)@ == old(service)@
            &&& !(r->Ok_0 is Pending) && !(r->Ok_0 is Closed)
        }),
{
    lemma_packets_by_their_bytes(buffer@.subrange(0, received as int));
}

/// Under the policy of an owner the socket gives what the service gives: work starts, is
/// busy, fails, is denied or is cancelled by who the peer is and what the bytes ask for.
pub proof fn law_admitted_packets_are_served(
    credentials: PeerCredentials,
    identified: IdentifiedPeer,
    owner: u32,
    policy: AccessPolicy,
    admitted: AdmittedPeer,
    buffer: &[u8; 8],
    received: usize,
    service: &mut BrokerServiceScheduler,
    now: Duration,
    r: Result<CoreDispatch, BrokerSocketError>,
)
    requires
        call_ensures(
            identify_peer,
            (Ok::<PeerCredentials, SocketStatus>(credentials),),
            PeerStep::ReadPolicy(identified),
        ),
        call_ensures(AccessPolicy::new, (owner,), Ok::<AccessPolicy, PolicyError>(policy)),
        call_ensures(
            IdentifiedPeer::policy_read,
            (identified, Ok::<AccessPolicy, EnrollmentOwnerError>(policy)),
            PolicyStep::Receive(admitted),
        ),
        call_ensures(
            AdmittedPeer::received,
            (admitted, Ok::<usize, SocketStatus>(received), buffer, service, now),
            r,
        ),
        received <= 8,
        !old(service)@.workers.poisoned,
    ensures
        ({
            let packet = buffer@.subrange(0, received as int);
            let asks = asks_to_authenticate(packet) || asks_to_approve(packet) || (asks_to_enroll(
                packet,
            ) && credentials.user_id != 0);
            let broker = old(service)@.coordinator.broker;
            &&& r is Ok
            &&& r->Ok_0 is Start <==> asks && broker.active is None && broker.next_token != 0
                && has_worker(old(service)@, now, budget(purpose_of(packet)))
            &&& r->Ok_0 matches CoreDispatch::Start(scheduled) ==> has_started(
                old(service)@,
                scheduled,
                now,
                final(service)@,
            ) && scheduled.admitted().admitted().purpose == purpose_of(packet)
                && scheduled.admitted().admitted().biometric_user_id == 501 && (
            scheduled.admitted().admitted().enrollment_owner_candidate is Some <==> asks_to_enroll(
                packet,
            )) && (asks_to_enroll(packet)
                ==> scheduled.admitted().admitted().enrollment_owner_candidate->0.id()
                == credentials.user_id)
            &&& r->Ok_0 == CoreDispatch::Reply(Response::Busy) <==> asks && broker.active is Some
            &&& r->Ok_0 == CoreDispatch::Reply(Response::Failure) <==> asks && broker.active is None
                && broker.next_token == 0
            &&& r->Ok_0 == CoreDispatch::Reply(Response::Okay) <==> asks_to_cancel(packet)
                && credentials.user_id == 0 && is_cancellable(old(service)@)
            &&& r->Ok_0 == CoreDispatch::Reply(Response::Okay) ==> has_cancelled(
                old(service)@,
                broker.active->0.token,
                final(service)@,
            )
            &&& r->Ok_0 is Reply && r->Ok_0 != CoreDispatch::Reply(Response::Okay)
                ==> final(service)@ == old(service)@
            &&& !(r->Ok_0 is Pending) && !(r->Ok_0 is Closed)
            &&& r->Ok_0 is Terminate ==> has_given_up(old(service)@, final(service)@)
        }),
{
    lemma_packets_by_their_bytes(buffer@.subrange(0, received as int));
}

/// Without a complete packet nothing changes: a socket that is not ready leaves the
/// request pending, a closed one ends it, and what does not fit is denied.
pub proof fn law_incomplete_packets_change_nothing(
    admitted: AdmittedPeer,
    outcome: Result<usize, SocketStatus>,
    buffer: &[u8; 8],
    service: &mut BrokerServiceScheduler,
    now: Duration,
    r: Result<CoreDispatch, BrokerSocketError>,
)
    requires
        call_ensures(AdmittedPeer::received, (admitted, outcome, buffer, service, now), r),
        outcome matches Ok(received) ==> received > 8,
    ensures
        final(service)@ == old(service)@,
        outcome is Ok ==> r == Ok::<CoreDispatch, BrokerSocketError>(
            CoreDispatch::Reply(Response::Denied),
        ),
        outcome == Err::<usize, SocketStatus>(SocketStatus::Truncated) ==> r == Ok::<
            CoreDispatch,
            BrokerSocketError,
        >(CoreDispatch::Reply(Response::Denied)),
        outcome == Err::<usize, SocketStatus>(SocketStatus::WouldBlock) || outcome == Err::<
            usize,
            SocketStatus,
        >(SocketStatus::Interrupted) <==> r == Ok::<CoreDispatch, BrokerSocketError>(
            CoreDispatch::Pending,
        ),
        outcome == Err::<usize, SocketStatus>(SocketStatus::PeerClosed) <==> r == Ok::<
            CoreDispatch,
            BrokerSocketError,
        >(CoreDispatch::Closed),
        r matches Err(error) ==> outcome == Err::<usize, SocketStatus>(error.0),
{
}

/// A reply stays on its connection, with its response, until it was sent.
pub proof fn law_replies_are_kept_until_they_are_sent<D>(
    descriptor: D,
    connection: BrokerSocketConnection<D>,
    response: Response,
    reply: PendingBrokerReply<D>,
    shown: Response,
    outcome: Result<(), SocketStatus>,
    r: Result<BrokerReplyProgress<D>, BrokerSocketError>,
)
    requires
        call_ensures(BrokerSocketConnection::<D>::new, (descriptor,), connection),
        call_ensures(BrokerSocketConnection::<D>::reply, (connection, response), reply),
        call_ensures(PendingBrokerReply::<D>::response, (&reply,), shown),
        call_ensures(PendingBrokerReply::<D>::try_send, (reply, outcome), r),
    ensures
        shown == response,
        reply.target() == descriptor,
        r matches Ok(BrokerReplyProgress::Sent(sent)) ==> outcome is Ok && sent == response,
        outcome is Ok ==> r is Ok && r->Ok_0 is Sent,
        r matches Ok(BrokerReplyProgress::Pending(kept)) ==> kept == reply && (outcome == Err::<
            (),
            SocketStatus,
        >(SocketStatus::WouldBlock) || outcome == Err::<(), SocketStatus>(
            SocketStatus::Interrupted,
        )),
        outcome == Err::<(), SocketStatus>(SocketStatus::WouldBlock) || outcome == Err::<
            (),
            SocketStatus,
        >(SocketStatus::Interrupted) ==> r is Ok && r->Ok_0 is Pending,
        r matches Err(error) ==> outcome == Err::<(), SocketStatus>(error.0),
{
}

/// What the service decided goes to the connection that asked.
pub proof fn law_dispatches_go_to_their_connection<D>(
    descriptor: D,
    connection: BrokerSocketConnection<D>,
    dispatch: CoreDispatch,
    r: BrokerSocketDispatch<D>,
)
    requires
        call_ensures(BrokerSocketConnection::<D>::new, (descriptor,), connection),
        call_ensures(BrokerSocketConnection::<D>::receive_and_dispatch, (connection, dispatch), r),
    ensures
        r matches BrokerSocketDispatch::Reply(reply) ==> reply.target() == descriptor && dispatch
            == CoreDispatch::Reply(reply.retained()),
        r matches BrokerSocketDispatch::Start(session) ==> session.target() == descriptor
            && dispatch == CoreDispatch::Start(session.work()),
        r matches BrokerSocketDispatch::Pending(kept) ==> kept == connection && dispatch is Pending,
        r is Closed <==> dispatch is Closed,
        r is Terminate <==> dispatch is Terminate,
{
}

/// A lease is given out exactly where the scheduler is sound, free and can bound it; a
/// second worker is busy, and what cannot be bounded ends the scheduler for good.
pub proof fn law_one_bounded_worker_at_a_time(
    scheduler: &mut BrokerScheduler,
    now: Duration,
    timeout: Duration,
    admission: WorkerAdmission,
)
    requires
        call_ensures(BrokerScheduler::admit_with_timeout, (scheduler, now, timeout), admission),
    ensures
        admission == WorkerAdmission::Busy <==> !old(scheduler)@.poisoned
            && old(scheduler)@.active is Some,
        admission is Start <==> !old(scheduler)@.poisoned && old(scheduler)@.active is None
            && old(scheduler)@.next_lease != 0 && now.nanos + timeout.nanos <= last_nanosecond(),
        admission matches WorkerAdmission::Start { lease, deadline } ==> deadline.nanos
            == now.nanos + timeout.nanos && has_leased(
            old(scheduler)@,
            lease,
            deadline,
            final(scheduler)@,
        ),
        admission is Terminate ==> final(scheduler)@.poisoned,
        !(admission is Start) ==> final(scheduler)@.active == old(scheduler)@.active
            && final(scheduler)@.next_lease == old(scheduler)@.next_lease
            && final(scheduler)@.idle_since == old(scheduler)@.idle_since
            && final(scheduler)@.idle_timeout == old(scheduler)@.idle_timeout,
        admission is Busy ==> final(scheduler)@ == old(scheduler)@,
{
}

/// A worker without a budget of its own gets sixty-five seconds.
pub proof fn law_workers_get_the_operation_budget(
    scheduler: &mut BrokerScheduler,
    now: Duration,
    admission: WorkerAdmission,
    operation: Duration,
    enrollment: Duration,
)
    requires
        call_ensures(BrokerScheduler::admit_worker, (scheduler, now), admission),
        call_ensures(operation_timeout, (), operation),
        call_ensures(enrollment_operation_timeout, (), enrollment),
    ensures
        admission matches WorkerAdmission::Start { lease, deadline } ==> deadline.nanos - now.nanos
            == 65_000_000_000,
        operation.nanos == 65_000_000_000,
        enrollment.nanos == 900_000_000_000,
        admission is Busy <==> !old(scheduler)@.poisoned && old(scheduler)@.active is Some,
{
}

/// A worker is completed or lost by its own lease only: completion frees the slot and
/// begins the idle time, loss ends the scheduler for good.
pub proof fn law_workers_end_by_their_own_lease(
    completing: &mut BrokerScheduler,
    losing: &mut BrokerScheduler,
    lease: WorkerLease,
    now: Duration,
    completed: bool,
    lost: bool,
)
    requires
        call_ensures(BrokerScheduler::complete, (completing, lease, now), completed),
        call_ensures(BrokerScheduler::worker_lost, (losing, lease), lost),
    ensures
        completed <==> (old(completing)@.active matches Some(worker) && worker.lease == lease),
        completed ==> final(completing)@.active is None && final(completing)@.idle_since == now
            && final(completing)@.poisoned == old(completing)@.poisoned
            && final(completing)@.next_lease == old(completing)@.next_lease
            && final(completing)@.idle_timeout == old(completing)@.idle_timeout,
        !completed ==> final(completing)@ == old(completing)@,
        lost <==> (old(losing)@.active matches Some(worker) && worker.lease == lease),
        lost ==> final(losing)@.poisoned && final(losing)@.active == old(losing)@.active
            && final(losing)@.next_lease == old(losing)@.next_lease && final(losing)@.idle_since
            == old(losing)@.idle_since && final(losing)@.idle_timeout == old(
            losing
        )@.idle_timeout,
        !lost ==> final(losing)@ == old(losing)@,
{
}

/// What the lifecycle decides: an unsound scheduler terminates; an active worker is
/// cancelled once, from its deadline on; an idle service exits once it has been idle for
/// its timeout and nothing waits; else it goes on.
pub proof fn law_lifecycle_decisions_follow_the_clock(
    scheduler: &mut BrokerScheduler,
    now: Duration,
    listener_ready: bool,
    decision: LifecycleDecision,
)
    requires
        call_ensures(BrokerScheduler::decide, (scheduler, now, listener_ready), decision),
    ensures
        decision == LifecycleDecision::Terminate <==> old(scheduler)@.poisoned,
        decision is Cancel <==> !old(scheduler)@.poisoned && (old(scheduler)@.active matches Some(
            worker,
        ) && now.nanos >= worker.deadline.nanos && !worker.cancellation_sent),
        decision matches LifecycleDecision::Cancel(lease) ==> lease
            == old(scheduler)@.active->0.lease && final(scheduler)@.active == Some(
            WorkerModel {
                lease,
                deadline: old(scheduler)@.active->0.deadline,
                cancellation_sent: true,
            },
        ),
        decision == LifecycleDecision::ExitIdle <==> !old(scheduler)@.poisoned
            && old(scheduler)@.active is None && !listener_ready
            && now.nanos >= old(scheduler)@.idle_since.nanos + old(scheduler)@.idle_timeout.nanos,
        !(decision is Cancel) ==> final(scheduler)@ == old(scheduler)@,
        final(scheduler)@.next_lease == old(scheduler)@.next_lease,
        final(scheduler)@.poisoned == old(scheduler)@.poisoned,
        final(scheduler)@.idle_since == old(scheduler)@.idle_since,
        final(scheduler)@.idle_timeout == old(scheduler)@.idle_timeout,
{
}

/// The service's lifecycle is its scheduler's, and decides nothing about the broker.
pub proof fn law_services_decide_by_their_worker(
    service: &mut BrokerServiceScheduler,
    now: Duration,
    listener_ready: bool,
    decision: LifecycleDecision,
)
    requires
        call_ensures(BrokerServiceScheduler::decide, (service, now, listener_ready), decision),
    ensures
        decision == LifecycleDecision::Terminate <==> old(service)@.workers.poisoned,
        decision is Cancel <==> !old(service)@.workers.poisoned
            && (old(service)@.workers.active matches Some(worker)
            && now.nanos >= worker.deadline.nanos
            && !worker.cancellation_sent),
        decision matches LifecycleDecision::Cancel(lease) ==> final(service)@.workers.active
            == Some(
            WorkerModel {
                lease,
                deadline: old(service)@.workers.active->0.deadline,
                cancellation_sent: true,
            },
        ),
        decision == LifecycleDecision::ExitIdle <==> !old(service)@.workers.poisoned
            && old(service)@.workers.active is None && !listener_ready
            && now.nanos >= old(service)@.workers.idle_since.nanos + old(service)@.workers.idle_timeout.nanos,
        decision matches LifecycleDecision::Cancel(lease) ==> lease == old(
            service
        )@.workers.active->0.lease,
        final(service)@.workers.next_lease == old(service)@.workers.next_lease,
        final(service)@.workers.poisoned == old(service)@.workers.poisoned,
        final(service)@.workers.idle_since == old(service)@.workers.idle_since,
        final(service)@.workers.idle_timeout == old(service)@.workers.idle_timeout,
        final(service)@.identity == old(service)@.identity,
        final(service)@.coordinator == old(service)@.coordinator,
        !(decision is Cancel) ==> final(service)@ == old(service)@,
{
}

/// A service begins idle, with the first token and the first lease, and only with an
/// idle timeout.
pub proof fn law_services_begin_idle(
    identity: u64,
    now: Duration,
    idle_timeout: Duration,
    r: Result<BrokerServiceScheduler, SchedulerError>,
)
    requires
        call_ensures(BrokerServiceScheduler::new, (identity, now, idle_timeout), r),
    ensures
        r is Err <==> idle_timeout.nanos == 0,
        r matches Ok(service) ==> {
            &&& service@.identity == identity && service@.coordinator.identity == identity
            &&& service@.coordinator.broker.active is None
            &&& service@.coordinator.broker.next_token == 1
            &&& service@.coordinator.slot.registered is None
            &&& forall|token: OperationToken| !service@.coordinator.slot.delivered.contains(token)
            &&& service@.workers.active is None && service@.workers.next_lease == 1
            &&& !service@.workers.poisoned
            &&& service@.workers.idle_since == now && service@.workers.idle_timeout == idle_timeout
        },
{
}

/// The work is the service's own active one.
pub open spec fn is_held(service: ServiceModel, identity: u64, lease: WorkerLease) -> bool {
    service.identity == identity && (service.workers.active matches Some(worker) && worker.lease
        == lease)
}

/// The service after its work has ended: the operation and the worker are both free,
/// and the idle time begins.
pub open spec fn has_ended(
    before: ServiceModel,
    origin: u64,
    token: OperationToken,
    now: Duration,
    after: ServiceModel,
) -> bool {
    &&& after.workers.active is None
    &&& after.workers.idle_since == now
    &&& after.workers.next_lease == before.workers.next_lease
    &&& after.workers.poisoned == before.workers.poisoned
    &&& origin == before.coordinator.identity && (before.coordinator.broker.active matches Some(
        active,
    ) && active.token == token) ==> after.coordinator.broker.active is None
    &&& !(origin == before.coordinator.identity && (before.coordinator.broker.active matches Some(
        active,
    ) && active.token == token)) ==> after.coordinator.broker.active
        == before.coordinator.broker.active
    &&& after.coordinator.broker.next_token == before.coordinator.broker.next_token
    &&& after.coordinator.slot.delivered == before.coordinator.slot.delivered
    &&& origin == before.coordinator.identity && before.coordinator.slot.registered == Some(token)
        ==> after.coordinator.slot.registered is None
    &&& !(origin == before.coordinator.identity && before.coordinator.slot.registered == Some(
        token,
    )) ==> after.coordinator.slot.registered == before.coordinator.slot.registered
    &&& after.coordinator.identity == before.coordinator.identity
    &&& after.identity == before.identity
    &&& after.workers.idle_timeout == before.workers.idle_timeout
}

/// Work ends okay exactly where it is this service's own, its completion is its own, it
/// was not cancelled, and it matched; else with a failure. Its own completion frees
/// operation and worker; anything else changes nothing.
pub proof fn law_completed_work_is_answered_by_its_match(
    service: &mut BrokerServiceScheduler,
    scheduled: &ScheduledAuthentication,
    completion: &AuthenticationCompletion,
    now: Duration,
    response: Response,
)
    requires
        call_ensures(
            BrokerServiceScheduler::finish,
            (service, scheduled, completion, now),
            response,
        ),
    ensures
        ({
            let operation = scheduled.admitted();
            let own = !old(service)@.workers.poisoned && is_held(
                old(service)@,
                scheduled.service(),
                scheduled.held_lease(),
            ) && completion.completed() == operation.admitted().token && completion.coordinator()
                == operation.coordinator();
            &&& response == Response::Okay <==> own && operation.coordinator()
                == old(service)@.coordinator.identity && old(service)@.coordinator.broker.active
                == Some(
                ActiveModel { token: operation.admitted().token, cancelled: false },
            ) && completion.outcome() == Ok::<MatchOutcome, AuthenticationSessionFailure>(
                MatchOutcome::Matched,
            )
            &&& response == Response::Okay || response == Response::Failure
            &&& own ==> has_ended(
                old(service)@,
                operation.coordinator(),
                operation.admitted().token,
                now,
                final(service)@,
            )
            &&& !own ==> final(service)@ == old(service)@
        }),
{
}

/// Standard work is answered with its result, with a cancellation where it was
/// cancelled, and with an error where it is not this service's own.
pub proof fn law_completed_standard_work_is_answered_by_its_result(
    service: &mut BrokerServiceScheduler,
    scheduled: &ScheduledStandardOperation,
    completion: &StandardCompletion,
    now: Duration,
    message: crate::standard_fingerprint_protocol::ServerMessage,
)
    requires
        call_ensures(
            BrokerServiceScheduler::finish_standard,
            (service, scheduled, completion, now),
            message,
        ),
    ensures
        ({
            let operation = scheduled.admitted();
            let token = operation.admitted().token;
            let own = !old(service)@.workers.poisoned && is_held(
                old(service)@,
                scheduled.service(),
                scheduled.held_lease(),
            ) && completion.completed() == token && completion.coordinator()
                == operation.coordinator();
            let local = own && operation.coordinator() == old(service)@.coordinator.identity;
            let active = old(service)@.coordinator.broker.active;
            &&& local && active == Some(ActiveModel { token, cancelled: false }) ==> message@
                == completion.outcome()
            &&& local && active == Some(ActiveModel { token, cancelled: true }) ==> message@
                == MessageModel::Terminal(TerminalOutcome::Cancelled)
            &&& !local || !(active matches Some(active) && active.token == token) ==> message@
                == MessageModel::Terminal(TerminalOutcome::Error)
            &&& own ==> has_ended(
                old(service)@,
                operation.coordinator(),
                token,
                now,
                final(service)@,
            )
            &&& !own ==> final(service)@ == old(service)@
        }),
{
}

/// Abandoned work fails and frees operation and worker, where it is this service's own.
pub proof fn law_abandoned_work_fails_and_frees(
    service: &mut BrokerServiceScheduler,
    scheduled: &ScheduledAuthentication,
    now: Duration,
    response: Response,
)
    requires
        call_ensures(BrokerServiceScheduler::abandon, (service, scheduled, now), response),
    ensures
        response == Response::Failure,
        is_held(old(service)@, scheduled.service(), scheduled.held_lease()) ==> has_ended(
            old(service)@,
            scheduled.admitted().coordinator(),
            scheduled.admitted().admitted().token,
            now,
            final(service)@,
        ),
        !is_held(old(service)@, scheduled.service(), scheduled.held_lease()) ==> final(service)@
            == old(service)@,
{
}

/// A client that goes away and a deadline cancel the service's own active work, where it
/// can still be cancelled, and nothing else.
pub proof fn law_gone_clients_and_deadlines_cancel_their_work(
    leaving: &mut BrokerServiceScheduler,
    expiring: &mut BrokerServiceScheduler,
    scheduled: &ScheduledAuthentication,
    left: bool,
    expired: bool,
)
    requires
        call_ensures(BrokerServiceScheduler::client_disconnected, (leaving, scheduled), left),
        call_ensures(BrokerServiceScheduler::deadline_expired, (expiring, scheduled), expired),
    ensures
        ({
            let token = scheduled.admitted().admitted().token;
            let before = old(leaving)@;
            &&& left <==> is_held(before, scheduled.service(), scheduled.held_lease())
                && scheduled.admitted().coordinator() == before.coordinator.identity
                && is_cancellable(before) && before.coordinator.broker.active->0.token == token
            &&& left ==> has_cancelled(before, token, final(leaving)@)
            &&& !left ==> final(leaving)@ == before
            &&& expired <==> is_held(old(expiring)@, scheduled.service(), scheduled.held_lease())
                && scheduled.admitted().coordinator() == old(expiring)@.coordinator.identity
                && is_cancellable(old(expiring)@)
                    && old(expiring)@.coordinator.broker.active->0.token == token
            &&& expired ==> has_cancelled(old(expiring)@, token, final(expiring)@)
            &&& !expired ==> final(expiring)@ == old(expiring)@
        }),
{
}

/// As [`law_gone_clients_and_deadlines_cancel_their_work`], for standard work, and for a
/// cancellation that its client asks for.
pub proof fn law_standard_work_is_cancelled_alike(
    asking: &mut BrokerServiceScheduler,
    leaving: &mut BrokerServiceScheduler,
    expiring: &mut BrokerServiceScheduler,
    scheduled: &ScheduledStandardOperation,
    asked: bool,
    left: bool,
    expired: bool,
)
    requires
        old(asking)@ == old(leaving)@,
        old(asking)@ == old(expiring)@,
        call_ensures(BrokerServiceScheduler::cancel_standard, (asking, scheduled), asked),
        call_ensures(
            BrokerServiceScheduler::standard_client_disconnected,
            (leaving, scheduled),
            left,
        ),
        call_ensures(
            BrokerServiceScheduler::standard_deadline_expired,
            (expiring, scheduled),
            expired,
        ),
    ensures
        ({
            let token = scheduled.admitted().admitted().token;
            let before = old(asking)@;
            &&& asked <==> is_held(before, scheduled.service(), scheduled.held_lease())
                && scheduled.admitted().coordinator() == before.coordinator.identity
                && is_cancellable(before) && before.coordinator.broker.active->0.token == token
            &&& asked ==> has_cancelled(before, token, final(asking)@)
            &&& !asked ==> final(asking)@ == before
            &&& left == asked && expired == asked
            &&& final(leaving)@ == final(asking)@ && final(expiring)@ == final(asking)@
        }),
{
}

/// Lost work ends the service for good, where it is the service's own, and leaves the
/// work in its place.
pub proof fn law_lost_work_ends_the_service(
    direct: &mut BrokerServiceScheduler,
    standard: &mut BrokerServiceScheduler,
    scheduled: &ScheduledAuthentication,
    standard_scheduled: &ScheduledStandardOperation,
    direct_lost: bool,
    standard_lost: bool,
)
    requires
        call_ensures(BrokerServiceScheduler::worker_lost, (direct, scheduled), direct_lost),
        call_ensures(
            BrokerServiceScheduler::standard_worker_lost,
            (standard, standard_scheduled),
            standard_lost,
        ),
    ensures
        direct_lost <==> is_held(old(direct)@, scheduled.service(), scheduled.held_lease()),
        direct_lost ==> final(direct)@.workers.poisoned && final(direct)@.workers.active
            == old(direct)@.workers.active && final(direct)@.coordinator
            == old(direct)@.coordinator,
        !direct_lost ==> final(direct)@ == old(direct)@,
        standard_lost <==> is_held(
            old(standard)@,
            standard_scheduled.service(),
            standard_scheduled.held_lease(),
        ),
        standard_lost ==> final(standard)@.workers.poisoned && final(standard)@.workers.active
            == old(standard)@.workers.active && final(standard)@.coordinator
                == old(standard)@.coordinator,
        !standard_lost ==> final(standard)@ == old(standard)@,
{
}

/// A connection counts as gone unless the socket says that it is not; a gone
/// connection's work is cancelled, where it is still the service's active one.
pub proof fn law_connections_are_gone_unless_seen_open(
    peer_closed: Result<bool, SocketStatus>,
    service: &mut BrokerServiceScheduler,
    scheduled: &ScheduledAuthentication,
    r: DisconnectObservation,
)
    requires
        call_ensures(observe_disconnect_result, (peer_closed, service, scheduled), r),
    ensures
        r == DisconnectObservation::Connected <==> peer_closed == Ok::<bool, SocketStatus>(false),
        r == DisconnectObservation::CancellationDelivered ==> has_cancelled(
            old(service)@,
            scheduled.admitted().admitted().token,
            final(service)@,
        ) && is_held(old(service)@, scheduled.service(), scheduled.held_lease()),
        r != DisconnectObservation::CancellationDelivered ==> final(service)@ == old(service)@,
        r == DisconnectObservation::OperationInactive ==> !(is_held(
            old(service)@,
            scheduled.service(),
            scheduled.held_lease(),
        ) && scheduled.admitted().coordinator() == old(service)@.coordinator.identity
            && is_cancellable(old(service)@) && old(service)@.coordinator.broker.active->0.token
            == scheduled.admitted().admitted().token),
{
}

/// Finished and abandoned sessions answer on their own connection.
pub proof fn law_sessions_answer_on_their_connection<D>(
    descriptor: D,
    scheduled: ScheduledAuthentication,
    session: ActiveBrokerSocketSession<D>,
    finishing: &mut BrokerServiceScheduler,
    completion: &AuthenticationCompletion,
    finished: PendingBrokerReply<D>,
    abandoning: &mut BrokerServiceScheduler,
    abandoned: PendingBrokerReply<D>,
    now: Duration,
)
    requires
        call_ensures(ActiveBrokerSocketSession::<D>::new, (descriptor, scheduled), session),
        call_ensures(
            ActiveBrokerSocketSession::<D>::finish,
            (session, finishing, completion, now),
            finished,
        ),
        call_ensures(
            ActiveBrokerSocketSession::<D>::abandon,
            (session, abandoning, now),
            abandoned,
        ),
    ensures
        finished.target() == descriptor,
        abandoned.target() == descriptor,
        abandoned.retained() == Response::Failure,
        finished.retained() == Response::Okay ==> !old(finishing)@.workers.poisoned && is_held(
            old(finishing)@,
            scheduled.service(),
            scheduled.held_lease(),
        ) && completion.outcome() == Ok::<MatchOutcome, AuthenticationSessionFailure>(
            MatchOutcome::Matched,
        ) && completion.completed() == scheduled.admitted().admitted().token
            && old(finishing)@.coordinator.broker.active == Some(
            ActiveModel { token: completion.completed(), cancelled: false },
        ),
        !old(finishing)@.workers.poisoned && is_held(
            old(finishing)@,
            scheduled.service(),
            scheduled.held_lease(),
        ) && completion.outcome() == Ok::<MatchOutcome, AuthenticationSessionFailure>(
            MatchOutcome::Matched,
        ) && completion.completed() == scheduled.admitted().admitted().token
            && completion.coordinator() == scheduled.admitted().coordinator()
            && completion.coordinator() == old(finishing)@.coordinator.identity
                && old(finishing)@.coordinator.broker.active == Some(
            ActiveModel { token: completion.completed(), cancelled: false },
        ) ==> finished.retained() == Response::Okay,
        finished.retained() == Response::Okay || finished.retained() == Response::Failure,
{
}

/// The outer budget of a standard operation: fifteen minutes where the enrolled set
/// changes, else sixty-five seconds.
pub open spec fn standard_budget(operation: ResolvedStandardOperation) -> int {
    if operation is Enroll || operation is DeleteIdentity {
        900_000_000_000
    } else {
        65_000_000_000
    }
}

/// What a resolved standard operation gives: a refused one is answered with the
/// authority's message; a granted one starts where nothing is active and token, worker
/// and time are left, it is busy behind an active operation, and it is an error without a
/// token.
pub proof fn law_granted_standard_operations_start(
    service: &mut BrokerServiceScheduler,
    authority: StandardAuthority,
    operation: ResolvedStandardOperation,
    now: Duration,
    r: ScheduledStandardDispatch,
)
    requires
        call_ensures(
            BrokerServiceScheduler::dispatch_standard,
            (service, authority, operation, now),
            r,
        ),
    ensures
        r is Start <==> authority is Granted && old(service)@.coordinator.broker.active is None
            && old(service)@.coordinator.broker.next_token != 0 && has_worker(
            old(service)@,
            now,
            standard_budget(operation),
        ),
        r matches ScheduledStandardDispatch::Start(scheduled) ==> {
            let token = scheduled.admitted().admitted().token;
            &&& scheduled.admitted().admitted().operation == operation
            &&& scheduled.due().nanos == now.nanos + standard_budget(operation)
            &&& scheduled.service() == old(service)@.identity
            &&& scheduled.admitted().coordinator() == old(service)@.coordinator.identity
            &&& has_given_out(
                old(service)@.coordinator.broker,
                token,
                final(service)@.coordinator.broker,
            )
            &&& has_leased(
                old(service)@.workers,
                scheduled.held_lease(),
                scheduled.due(),
                final(service)@.workers,
            )
            &&& final(service)@.coordinator.slot.registered == Some(token)
            &&& final(service)@.coordinator.slot.delivered == old(
                service
            )@.coordinator.slot.delivered
            &&& final(service)@.coordinator.identity == old(service)@.coordinator.identity
            &&& final(service)@.identity == old(service)@.identity
        },
        old(service)@.workers.poisoned ==> r is Terminate,
        !old(service)@.workers.poisoned && authority is Granted
            && old(service)@.coordinator.broker.active is None
            && old(service)@.coordinator.broker.next_token == 0 ==> r is Reply && r->Reply_0@
            == MessageModel::Terminal(TerminalOutcome::Error),
        !old(service)@.workers.poisoned && (authority matches StandardAuthority::Refused(message))
            ==> r == ScheduledStandardDispatch::Reply(authority->Refused_0),
        r is Reply ==> final(service)@ == old(service)@,
        !old(service)@.workers.poisoned && authority is Granted
            && old(service)@.coordinator.broker.active is Some ==> r is Reply && r->Reply_0@
            == MessageModel::Terminal(TerminalOutcome::Busy),
        r is Terminate && !old(service)@.workers.poisoned ==> has_given_up(
            old(service)@,
            final(service)@,
        ),
        r is Terminate && old(service)@.workers.poisoned ==> final(service)@ == old(service)@,
{
}

} // verus!
