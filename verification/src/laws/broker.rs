//! What the broker answers to whom, and how its one operation starts and ends.

use crate::auth_protocol::{
    law_request_round_trip, AccessPolicy, ActiveModel, BrokerDecision, BrokerModel, BrokerState,
    OperationResult, OperationToken, PeerAddressFamily, PeerMetadata, PolicyError, Purpose,
    Request, Response, TokenAdmission,
};
use vstd::prelude::*;

verus! {

/// `T1AUTH`, version 1, line feed.
pub open spec fn asks_to_authenticate(packet: Seq<u8>) -> bool {
    packet == seq![84u8, 49u8, 65u8, 85u8, 84u8, 72u8, 1u8, 10u8]
}

/// `T1APRV`, version 1, line feed.
pub open spec fn asks_to_approve(packet: Seq<u8>) -> bool {
    packet == seq![84u8, 49u8, 65u8, 80u8, 82u8, 86u8, 1u8, 10u8]
}

/// `T1ENRL`, version 1, line feed.
pub open spec fn asks_to_enroll(packet: Seq<u8>) -> bool {
    packet == seq![84u8, 49u8, 69u8, 78u8, 82u8, 76u8, 1u8, 10u8]
}

/// `T1CNCL`, version 1, line feed.
pub open spec fn asks_to_cancel(packet: Seq<u8>) -> bool {
    packet == seq![84u8, 49u8, 67u8, 78u8, 67u8, 76u8, 1u8, 10u8]
}

/// The bytes of the four requests, for every packet.
pub proof fn lemma_packets_by_their_bytes(packet: Seq<u8>)
    ensures
        asks_to_authenticate(packet) <==> packet == Request::Authenticate.packet(),
        asks_to_approve(packet) <==> packet == Request::Approve.packet(),
        asks_to_enroll(packet) <==> packet == Request::Enroll.packet(),
        asks_to_cancel(packet) <==> packet == Request::Cancel.packet(),
        crate::auth_protocol::decoded_request(packet) == Ok::<
            Request,
            crate::auth_protocol::RequestError,
        >(Request::Authenticate) <==> asks_to_authenticate(packet),
        crate::auth_protocol::decoded_request(packet) == Ok::<
            Request,
            crate::auth_protocol::RequestError,
        >(Request::Approve) <==> asks_to_approve(packet),
        crate::auth_protocol::decoded_request(packet) == Ok::<
            Request,
            crate::auth_protocol::RequestError,
        >(Request::Enroll) <==> asks_to_enroll(packet),
        crate::auth_protocol::decoded_request(packet) == Ok::<
            Request,
            crate::auth_protocol::RequestError,
        >(Request::Cancel) <==> asks_to_cancel(packet),
        asks_to_authenticate(packet) ==> !asks_to_approve(packet) && !asks_to_enroll(packet)
            && !asks_to_cancel(packet),
        asks_to_approve(packet) ==> !asks_to_enroll(packet) && !asks_to_cancel(packet),
        asks_to_enroll(packet) ==> !asks_to_cancel(packet),
{
    assert(Request::Authenticate.packet() =~= seq![84u8, 49u8, 65u8, 85u8, 84u8, 72u8, 1u8, 10u8]);
    assert(Request::Approve.packet() =~= seq![84u8, 49u8, 65u8, 80u8, 82u8, 86u8, 1u8, 10u8]);
    assert(Request::Enroll.packet() =~= seq![84u8, 49u8, 69u8, 78u8, 82u8, 76u8, 1u8, 10u8]);
    assert(Request::Cancel.packet() =~= seq![84u8, 49u8, 67u8, 78u8, 67u8, 76u8, 1u8, 10u8]);
    law_request_round_trip(packet, Request::Authenticate);
    law_request_round_trip(packet, Request::Approve);
    law_request_round_trip(packet, Request::Enroll);
    law_request_round_trip(packet, Request::Cancel);
    assert(asks_to_authenticate(packet) ==> packet[3] == 85u8);
    assert(asks_to_approve(packet) ==> packet[3] == 80u8);
    assert(asks_to_enroll(packet) ==> packet[2] == 69u8);
    assert(asks_to_cancel(packet) ==> packet[2] == 67u8);
}

/// A peer is served under the policy of `owner`: it is local, and user 0 or the owner.
pub open spec fn is_served(peer: PeerMetadata, owner: u32) -> bool {
    peer.address_family == PeerAddressFamily::Local && (peer.user_id == 0 || peer.user_id == owner)
}

/// The request that the packet holds starts work of this peer's: authentication or
/// approval, or an enrollment by a peer that is not user 0.
pub open spec fn wants_work(peer: PeerMetadata, packet: Seq<u8>) -> bool {
    asks_to_authenticate(packet) || asks_to_approve(packet) || (asks_to_enroll(packet)
        && peer.user_id != 0)
}

/// The state after `token` was given out: it is active, it is not cancelled, and the
/// next token is the following number, or none after the last one.
pub open spec fn has_given_out(
    before: BrokerModel,
    token: OperationToken,
    after: BrokerModel,
) -> bool {
    &&& token.number() == before.next_token
    &&& after.active == Some(ActiveModel { token, cancelled: false })
    &&& before.next_token < u64::MAX ==> after.next_token == before.next_token + 1
    &&& before.next_token == u64::MAX ==> after.next_token == 0
}

/// What a packet starts: exactly the work of a served peer, and only where no operation
/// is active and a token is left. It is for the biometric user 501, for the purpose
/// that the bytes name, and an enrollment is the peer's own.
pub proof fn law_packets_start_the_work_they_ask_for<Deliver: FnOnce(OperationToken) -> bool>(
    broker: &mut BrokerState,
    owner: u32,
    policy: AccessPolicy,
    peer: PeerMetadata,
    packet: &[u8],
    deliver: Deliver,
    decision: BrokerDecision,
)
    requires
        call_ensures(AccessPolicy::new, (owner,), Ok::<AccessPolicy, PolicyError>(policy)),
        call_ensures(
            BrokerState::handle_packet_with_cancellation::<Deliver>,
            (broker, peer, policy, packet, deliver),
            decision,
        ),
    ensures
        decision is Start <==> is_served(peer, owner) && wants_work(peer, packet@) && old(
            broker,
        )@.active is None && old(broker)@.next_token != 0,
        decision matches BrokerDecision::Start(operation) ==> {
            &&& has_given_out(old(broker)@, operation.token, final(broker)@)
            &&& operation.biometric_user_id == 501
            &&& operation.purpose == Purpose::Authenticate <==> asks_to_authenticate(packet@)
            &&& operation.purpose == Purpose::Approve <==> asks_to_approve(packet@)
            &&& operation.purpose == Purpose::Enrollment <==> asks_to_enroll(packet@)
            &&& operation.enrollment_owner_candidate is Some <==> asks_to_enroll(packet@)
            &&& operation.enrollment_owner_candidate matches Some(candidate) ==> candidate.id()
                == peer.user_id
        },
{
    lemma_packets_by_their_bytes(packet@);
}

/// What a packet that starts nothing is answered: a served peer's work is busy behind an
/// active operation and fails without a token; a delivered cancellation by local user 0
/// is okay and marks the active operation, and nothing else is okay; all the rest is
/// denied. Only a delivered cancellation changes the broker.
pub proof fn law_packets_are_answered_by_peer_and_state<Deliver: FnOnce(OperationToken) -> bool>(
    broker: &mut BrokerState,
    owner: u32,
    policy: AccessPolicy,
    peer: PeerMetadata,
    packet: &[u8],
    deliver: Deliver,
    decision: BrokerDecision,
)
    requires
        call_ensures(AccessPolicy::new, (owner,), Ok::<AccessPolicy, PolicyError>(policy)),
        call_ensures(
            BrokerState::handle_packet_with_cancellation::<Deliver>,
            (broker, peer, policy, packet, deliver),
            decision,
        ),
    ensures
        decision == BrokerDecision::Reply(Response::Busy) <==> is_served(peer, owner)
            && wants_work(peer, packet@) && old(broker)@.active is Some,
        decision == BrokerDecision::Reply(Response::Failure) <==> is_served(peer, owner)
            && wants_work(peer, packet@) && old(broker)@.active is None && old(broker)@.next_token
            == 0,
        decision == BrokerDecision::Reply(Response::Okay) ==> asks_to_cancel(packet@)
            && peer.address_family == PeerAddressFamily::Local && peer.user_id == 0 && old(
            broker,
        )@.active is Some && final(broker)@.active == Some(
            ActiveModel { token: old(broker)@.active->0.token, cancelled: true },
        ) && final(broker)@.next_token == old(broker)@.next_token,
        asks_to_cancel(packet@) && peer.address_family == PeerAddressFamily::Local && peer.user_id
            == 0 && old(broker)@.active is Some ==> deliver.ensures(
            (old(broker)@.active->0.token,),
            decision == BrokerDecision::Reply(Response::Okay),
        ),
        !is_served(peer, owner) ==> decision == BrokerDecision::Reply(Response::Denied),
        decision is Reply && decision != BrokerDecision::Reply(Response::Okay) ==> final(broker)@
            == old(broker)@,
{
    lemma_packets_by_their_bytes(packet@);
}

/// Where nothing can be delivered, no packet is okay.
pub proof fn law_undeliverable_cancellations_are_never_okay(
    broker: &mut BrokerState,
    owner: u32,
    policy: AccessPolicy,
    peer: PeerMetadata,
    packet: &[u8],
    decision: BrokerDecision,
)
    requires
        call_ensures(AccessPolicy::new, (owner,), Ok::<AccessPolicy, PolicyError>(policy)),
        call_ensures(BrokerState::handle_packet, (broker, peer, policy, packet), decision),
    ensures
        decision != BrokerDecision::Reply(Response::Okay),
        decision is Reply ==> final(broker)@ == old(broker)@,
        decision is Start <==> is_served(peer, owner) && wants_work(peer, packet@) && old(
            broker,
        )@.active is None && old(broker)@.next_token != 0,
        decision matches BrokerDecision::Start(operation) ==> has_given_out(
            old(broker)@,
            operation.token,
            final(broker)@,
        ) && operation.biometric_user_id == 501 && (operation.purpose == Purpose::Authenticate
            <==> asks_to_authenticate(packet@)) && (operation.purpose == Purpose::Approve
            <==> asks_to_approve(packet@)) && (operation.enrollment_owner_candidate is Some
            <==> asks_to_enroll(packet@)) && (operation.enrollment_owner_candidate is Some
            ==> operation.enrollment_owner_candidate->0.id() == peer.user_id),
        decision == BrokerDecision::Reply(Response::Busy) <==> is_served(peer, owner)
            && wants_work(peer, packet@) && old(broker)@.active is Some,
        decision == BrokerDecision::Reply(Response::Failure) <==> is_served(peer, owner)
            && wants_work(peer, packet@) && old(broker)@.active is None && old(broker)@.next_token
            == 0,
        !is_served(peer, owner) ==> decision == BrokerDecision::Reply(Response::Denied),
{
    lemma_packets_by_their_bytes(packet@);
}

/// Without an owner's record a local peer other than user 0 may start its own
/// enrollment, and nobody else may start anything.
pub proof fn law_first_enrollments_are_the_peers_own(
    broker: &mut BrokerState,
    peer: PeerMetadata,
    decision: BrokerDecision,
)
    requires
        call_ensures(BrokerState::enroll_without_owner, (broker, peer), decision),
    ensures
        peer.address_family != PeerAddressFamily::Local || peer.user_id == 0 ==> decision
            == BrokerDecision::Reply(Response::Denied),
        decision is Start <==> peer.address_family == PeerAddressFamily::Local && peer.user_id != 0
            && old(broker)@.active is None && old(broker)@.next_token != 0,
        decision matches BrokerDecision::Start(operation) ==> {
            &&& has_given_out(old(broker)@, operation.token, final(broker)@)
            &&& operation.biometric_user_id == 501
            &&& operation.purpose == Purpose::Enrollment
            &&& operation.enrollment_owner_candidate matches Some(candidate) && candidate.id()
                == peer.user_id
        },
        decision is Reply ==> final(broker)@ == old(broker)@ && decision != BrokerDecision::Reply(
            Response::Okay,
        ),
        peer.address_family == PeerAddressFamily::Local && peer.user_id != 0 && old(
            broker,
        )@.active is Some ==> decision == BrokerDecision::Reply(Response::Busy),
        peer.address_family == PeerAddressFamily::Local && peer.user_id != 0 && old(
            broker,
        )@.active is None && old(broker)@.next_token == 0 ==> decision == BrokerDecision::Reply(
            Response::Failure,
        ),
{
}

/// Without an owner's record only local user 0 may cancel, and only what is delivered
/// to the active operation counts.
pub proof fn law_only_local_root_cancels<Deliver: FnOnce(OperationToken) -> bool>(
    broker: &mut BrokerState,
    peer: PeerMetadata,
    deliver: Deliver,
    decision: BrokerDecision,
)
    requires
        call_ensures(
            BrokerState::cancel_without_owner::<Deliver>,
            (broker, peer, deliver),
            decision,
        ),
    ensures
        decision == BrokerDecision::Reply(Response::Okay) || decision == BrokerDecision::Reply(
            Response::Denied,
        ),
        decision == BrokerDecision::Reply(Response::Okay) ==> peer.address_family
            == PeerAddressFamily::Local && peer.user_id == 0 && old(broker)@.active is Some
            && final(broker)@.active == Some(
            ActiveModel { token: old(broker)@.active->0.token, cancelled: true },
        ) && final(broker)@.next_token == old(broker)@.next_token,
        peer.address_family == PeerAddressFamily::Local && peer.user_id == 0 && old(
            broker,
        )@.active is Some ==> deliver.ensures(
            (old(broker)@.active->0.token,),
            decision == BrokerDecision::Reply(Response::Okay),
        ),
        decision != BrokerDecision::Reply(Response::Okay) ==> final(broker)@ == old(broker)@,
{
}

/// A worker goes on exactly while its own token is active and not cancelled.
pub proof fn law_workers_stop_unless_theirs_is_active(
    broker: &BrokerState,
    token: OperationToken,
    stop: bool,
)
    requires
        call_ensures(BrokerState::is_cancelled, (broker, token), stop),
    ensures
        !stop <==> broker@.active == Some(ActiveModel { token, cancelled: false }),
{
}

/// A client that goes away cancels its own operation, and no other.
pub proof fn law_disconnected_clients_cancel_their_own<Deliver: FnOnce(OperationToken) -> bool>(
    broker: &mut BrokerState,
    token: OperationToken,
    deliver: Deliver,
    delivered: bool,
)
    requires
        call_ensures(
            BrokerState::client_disconnected::<Deliver>,
            (broker, token, deliver),
            delivered,
        ),
    ensures
        old(broker)@.active matches Some(active) && active.token == token ==> deliver.ensures(
            (token,),
            delivered,
        ),
        delivered ==> (old(broker)@.active matches Some(active) && active.token == token)
            && final(broker)@.active == Some(ActiveModel { token, cancelled: true }),
        final(broker)@.next_token == old(broker)@.next_token,
        !delivered ==> final(broker)@ == old(broker)@,
{
}

/// As [`law_disconnected_clients_cancel_their_own`], for a token.
pub proof fn law_tokens_are_cancelled_on_delivery<Deliver: FnOnce(OperationToken) -> bool>(
    broker: &mut BrokerState,
    token: OperationToken,
    deliver: Deliver,
    delivered: bool,
)
    requires
        call_ensures(BrokerState::cancel_token::<Deliver>, (broker, token, deliver), delivered),
    ensures
        old(broker)@.active matches Some(active) && active.token == token ==> deliver.ensures(
            (token,),
            delivered,
        ),
        delivered ==> (old(broker)@.active matches Some(active) && active.token == token)
            && final(broker)@.active == Some(ActiveModel { token, cancelled: true }),
        final(broker)@.next_token == old(broker)@.next_token,
        !delivered ==> final(broker)@ == old(broker)@,
{
}

/// The end of an operation is okay for a match that was not cancelled, a failure for
/// any other end of the active operation, and nothing for a token that is not active.
/// Afterwards nothing is active, unless nothing was ended.
pub proof fn law_only_uncancelled_matches_end_okay(
    broker: &mut BrokerState,
    token: OperationToken,
    result: OperationResult,
    r: Option<Response>,
)
    requires
        call_ensures(BrokerState::finish, (broker, token, result), r),
    ensures
        r == Some(Response::Okay) <==> old(broker)@.active == Some(
            ActiveModel { token, cancelled: false },
        ) && result == OperationResult::Matched,
        r is None <==> !(old(broker)@.active matches Some(active) && active.token == token),
        r matches Some(response) ==> response == Response::Okay || response == Response::Failure,
        r is Some ==> final(broker)@.active is None,
        r is None ==> final(broker)@.active == old(broker)@.active,
        final(broker)@.next_token == old(broker)@.next_token,
{
}

/// A token is given out exactly where nothing is active and one is left.
pub proof fn law_tokens_are_given_out_one_at_a_time(
    broker: &mut BrokerState,
    admission: TokenAdmission,
)
    requires
        call_ensures(BrokerState::start_token, (broker,), admission),
    ensures
        admission == TokenAdmission::Busy <==> old(broker)@.active is Some,
        admission == TokenAdmission::Failed <==> old(broker)@.active is None && old(
            broker,
        )@.next_token == 0,
        admission matches TokenAdmission::Start(token) ==> has_given_out(
            old(broker)@,
            token,
            final(broker)@,
        ),
        !(admission is Start) ==> final(broker)@ == old(broker)@,
{
}

/// A token is released exactly where it is active, with its cancellation.
pub proof fn law_tokens_are_released_with_their_cancellation(
    broker: &mut BrokerState,
    token: OperationToken,
    r: Option<bool>,
)
    requires
        call_ensures(BrokerState::finish_token, (broker, token), r),
    ensures
        r matches Some(cancelled) ==> old(broker)@.active == Some(
            ActiveModel { token, cancelled },
        ) && final(broker)@.active is None,
        r is None ==> !(old(broker)@.active matches Some(active) && active.token == token)
            && final(broker)@.active == old(broker)@.active,
        final(broker)@.next_token == old(broker)@.next_token,
{
}

/// A broker begins without an operation, at the number it is given, or else at 1.
pub proof fn law_brokers_begin_idle(next_token: u64, broker: BrokerState, first: BrokerState)
    requires
        call_ensures(BrokerState::starting_at, (next_token,), broker),
        call_ensures(BrokerState::default, (), first),
    ensures
        broker@.active is None,
        broker@.next_token == next_token,
        first@.active is None,
        first@.next_token == 1,
{
}

} // verus!
