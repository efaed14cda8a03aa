//! The packets on the wire, who may use the broker, and what a client concludes.

use crate::auth_protocol::{
    client_watchdog, decode_request, decode_response, decoded_response, endpoint_is_trusted,
    evaluate_cancellation_response, evaluate_client_response, law_request_round_trip,
    law_response_round_trip, validate_match_timeout, AccessPolicy, CancellationOutcome,
    ClientFailure, ClientOutcome, ClientPurpose, ClientTransportFailure, EndpointKind,
    EndpointMetadata, EnrollmentOwnerCandidate, PeerAddressFamily, PeerMetadata, PolicyError,
    Request, RequestError, Response, ResponseError,
};
use crate::time::Duration;
use vstd::prelude::*;

verus! {

/// The eight bytes of each request.
proof fn lemma_request_bytes()
    ensures
        Request::Authenticate.packet() == seq![84u8, 49u8, 65u8, 85u8, 84u8, 72u8, 1u8, 10u8],
        Request::Approve.packet() == seq![84u8, 49u8, 65u8, 80u8, 82u8, 86u8, 1u8, 10u8],
        Request::Enroll.packet() == seq![84u8, 49u8, 69u8, 78u8, 82u8, 76u8, 1u8, 10u8],
        Request::Cancel.packet() == seq![84u8, 49u8, 67u8, 78u8, 67u8, 76u8, 1u8, 10u8],
{
    assert(Request::Authenticate.packet() =~= seq![84u8, 49u8, 65u8, 85u8, 84u8, 72u8, 1u8, 10u8]);
    assert(Request::Approve.packet() =~= seq![84u8, 49u8, 65u8, 80u8, 82u8, 86u8, 1u8, 10u8]);
    assert(Request::Enroll.packet() =~= seq![84u8, 49u8, 69u8, 78u8, 82u8, 76u8, 1u8, 10u8]);
    assert(Request::Cancel.packet() =~= seq![84u8, 49u8, 67u8, 78u8, 67u8, 76u8, 1u8, 10u8]);
}

/// What responses are, in bytes.
pub proof fn lemma_responses_by_their_bytes(packet: Seq<u8>)
    ensures
        decoded_response(packet) == Ok::<Response, ResponseError>(Response::Okay) <==> packet
            == seq![79u8, 75, 65, 89],
        decoded_response(packet) == Ok::<Response, ResponseError>(Response::Denied) <==> packet
            == seq![68u8, 69, 78, 89],
        decoded_response(packet) == Ok::<Response, ResponseError>(Response::Busy) <==> packet
            == seq![66u8, 85, 83, 89],
        decoded_response(packet) == Ok::<Response, ResponseError>(Response::Failure) <==> packet
            == seq![70u8, 65, 73, 76],
{
    law_response_round_trip(packet, Response::Okay);
    law_response_round_trip(packet, Response::Denied);
    law_response_round_trip(packet, Response::Busy);
    law_response_round_trip(packet, Response::Failure);
    assert(Response::Okay.packet() =~= seq![79u8, 75, 65, 89]);
    assert(Response::Denied.packet() =~= seq![68u8, 69, 78, 89]);
    assert(Response::Busy.packet() =~= seq![66u8, 85, 83, 89]);
    assert(Response::Failure.packet() =~= seq![70u8, 65, 73, 76]);
}

/// What every packet decodes to, in bytes: the four requests are `T1AUTH`, `T1APRV`,
/// `T1ENRL` and `T1CNCL`, each with the version 1 and a line feed behind it.
pub proof fn law_packets_decode_by_their_bytes(
    packet: &[u8],
    r: Result<Request, RequestError>,
)
    requires
        call_ensures(decode_request, (packet,), r),
    ensures
        r == Ok::<Request, RequestError>(Request::Authenticate) <==> packet@ == seq![
            84u8,
            49u8,
            65u8,
            85u8,
            84u8,
            72u8,
            1u8,
            10u8,
        ],
        r == Ok::<Request, RequestError>(Request::Approve) <==> packet@ == seq![
            84u8,
            49u8,
            65u8,
            80u8,
            82u8,
            86u8,
            1u8,
            10u8,
        ],
        r == Ok::<Request, RequestError>(Request::Enroll) <==> packet@ == seq![
            84u8,
            49u8,
            69u8,
            78u8,
            82u8,
            76u8,
            1u8,
            10u8,
        ],
        r == Ok::<Request, RequestError>(Request::Cancel) <==> packet@ == seq![
            84u8,
            49u8,
            67u8,
            78u8,
            67u8,
            76u8,
            1u8,
            10u8,
        ],
        r matches Err(error) ==> match error {
            RequestError::WrongLength => packet@.len() != 8,
            RequestError::WrongTerminator => packet@.len() == 8 && packet@[7] != 10,
            RequestError::UnsupportedVersion => packet@.len() == 8 && packet@[7] == 10
                && packet@[6] != 1,
            RequestError::UnsupportedAction => packet@.len() == 8 && packet@[7] == 10
                && packet@[6] == 1,
        },
{
    lemma_request_bytes();
    law_request_round_trip(packet@, Request::Authenticate);
    law_request_round_trip(packet@, Request::Approve);
    law_request_round_trip(packet@, Request::Enroll);
    law_request_round_trip(packet@, Request::Cancel);
}

/// A request that was encoded is decoded as itself, and requests that differ have
/// packets that differ.
pub proof fn law_encoded_requests_are_decoded(
    request: Request,
    sent: [u8; 8],
    other: Request,
    other_sent: [u8; 8],
    packet: &[u8],
    r: Result<Request, RequestError>,
)
    requires
        call_ensures(Request::encode, (request,), sent),
        call_ensures(Request::encode, (other,), other_sent),
        packet@ == sent@,
        call_ensures(decode_request, (packet,), r),
    ensures
        r == Ok::<Request, RequestError>(request),
        request != other ==> sent@ != other_sent@,
        sent@[0] == 84 && sent@[1] == 49 && sent@[6] == 1 && sent@[7] == 10,
{
    law_request_round_trip(packet@, request);
    law_request_round_trip(packet@, other);
    lemma_request_bytes();
}

/// A client's purpose is asked for with the request of that name.
pub proof fn law_purposes_ask_for_themselves(
    purpose: ClientPurpose,
    sent: [u8; 8],
    packet: &[u8],
    r: Result<Request, RequestError>,
)
    requires
        call_ensures(ClientPurpose::encode_request, (purpose,), sent),
        packet@ == sent@,
        call_ensures(decode_request, (packet,), r),
    ensures
        r == Ok::<Request, RequestError>(Request::Authenticate) <==> purpose
            == ClientPurpose::Authenticate,
        r == Ok::<Request, RequestError>(Request::Approve) <==> purpose == ClientPurpose::Approve,
{
    law_request_round_trip(packet@, Request::Authenticate);
    law_request_round_trip(packet@, Request::Approve);
    lemma_request_bytes();
}

/// What every response packet decodes to, in bytes: `OKAY`, `DENY`, `BUSY` and `FAIL`.
pub proof fn law_responses_decode_by_their_bytes(
    packet: &[u8],
    r: Result<Response, ResponseError>,
)
    requires
        call_ensures(decode_response, (packet,), r),
    ensures
        r == Ok::<Response, ResponseError>(Response::Okay) <==> packet@ == seq![
            79u8,
            75u8,
            65u8,
            89u8,
        ],
        r == Ok::<Response, ResponseError>(Response::Denied) <==> packet@ == seq![
            68u8,
            69u8,
            78u8,
            89u8,
        ],
        r == Ok::<Response, ResponseError>(Response::Busy) <==> packet@ == seq![
            66u8,
            85u8,
            83u8,
            89u8,
        ],
        r == Ok::<Response, ResponseError>(Response::Failure) <==> packet@ == seq![
            70u8,
            65u8,
            73u8,
            76u8,
        ],
        r == Err::<Response, ResponseError>(ResponseError::WrongLength) <==> packet@.len() != 4,
{
    law_response_round_trip(packet@, Response::Okay);
    law_response_round_trip(packet@, Response::Denied);
    law_response_round_trip(packet@, Response::Busy);
    law_response_round_trip(packet@, Response::Failure);
}

/// A response that was encoded is decoded as itself.
pub proof fn law_encoded_responses_are_decoded(
    response: Response,
    sent: [u8; 4],
    packet: &[u8],
    r: Result<Response, ResponseError>,
)
    requires
        call_ensures(Response::encode, (response,), sent),
        packet@ == sent@,
        call_ensures(decode_response, (packet,), r),
    ensures
        r == Ok::<Response, ResponseError>(response),
{
    law_response_round_trip(packet@, response);
}

/// An endpoint is trusted exactly where it is a local socket, belongs to user 0 and
/// has the mode bit 2, which lets everyone write, clear; no other bit matters.
pub proof fn law_endpoints_are_trusted_by_kind_owner_and_mode(
    endpoint: EndpointMetadata,
    trusted: bool,
    other: EndpointMetadata,
    other_trusted: bool,
)
    requires
        call_ensures(endpoint_is_trusted, (endpoint,), trusted),
        call_ensures(endpoint_is_trusted, (other,), other_trusted),
    ensures
        trusted ==> endpoint.kind == EndpointKind::LocalSocket && endpoint.owner_user_id == 0
            && endpoint.mode & 2u32 == 0,
        endpoint.kind == EndpointKind::LocalSocket && endpoint.owner_user_id == 0 && endpoint.mode
            & 2u32 == 0 ==> trusted,
        endpoint.kind == other.kind && endpoint.owner_user_id == other.owner_user_id
            && endpoint.mode & 2u32 == other.mode & 2u32 ==> trusted == other_trusted,
{
}

/// A policy is built for every user but 0, and it gives that owner back.
pub proof fn law_policies_belong_to_their_owner(
    owner: u32,
    r: Result<AccessPolicy, PolicyError>,
    recorded: u32,
)
    requires
        call_ensures(AccessPolicy::new, (owner,), r),
        r matches Ok(policy) ==> call_ensures(
            AccessPolicy::enrollment_owner_user_id,
            (policy,),
            recorded,
        ),
    ensures
        r is Err <==> owner == 0,
        r is Ok ==> recorded == owner,
{
}

/// Under the policy of an owner exactly local peers that are user 0 or the owner are
/// served, and each of them acts on the biometric user 501; the group does not matter.
pub proof fn law_policies_admit_root_and_their_owner(
    owner: u32,
    policy: AccessPolicy,
    peer: PeerMetadata,
    authorized: bool,
    user: Option<u32>,
)
    requires
        call_ensures(AccessPolicy::new, (owner,), Ok::<AccessPolicy, PolicyError>(policy)),
        call_ensures(AccessPolicy::peer_is_authorized, (policy, peer), authorized),
        call_ensures(AccessPolicy::biometric_user_for, (policy, peer), user),
    ensures
        peer.address_family != PeerAddressFamily::Local ==> !authorized,
        peer.address_family == PeerAddressFamily::Local ==> (authorized <==> peer.user_id == 0
            || peer.user_id == owner),
        authorized ==> user == Some(501u32),
        !authorized ==> user is None,
{
}

/// Every user but 0 can become an enrollment's owner, and stays that user.
pub proof fn law_candidates_are_their_user(
    user_id: u32,
    r: Option<EnrollmentOwnerCandidate>,
    given: u32,
)
    requires
        call_ensures(EnrollmentOwnerCandidate::new, (user_id,), r),
        r matches Some(candidate) ==> call_ensures(
            EnrollmentOwnerCandidate::user_id,
            (candidate,),
            given,
        ),
    ensures
        r is None <==> user_id == 0,
        r is Some ==> given == user_id,
{
}

/// A match timeout is accepted from one nanosecond up to thirty seconds, and the
/// client then waits for thirty-five seconds more.
pub proof fn law_match_timeouts_are_bounded(
    timeout: Duration,
    r: Result<(), ClientFailure>,
    watchdog: Result<Duration, ClientFailure>,
)
    requires
        call_ensures(validate_match_timeout, (timeout,), r),
        call_ensures(client_watchdog, (timeout,), watchdog),
    ensures
        r is Ok <==> 1 <= timeout.nanos <= 30_000_000_000,
        r matches Err(failure) ==> failure == ClientFailure::DeadlineExceeded,
        watchdog is Ok <==> r is Ok,
        watchdog matches Ok(total) ==> total.nanos - timeout.nanos == 35_000_000_000,
        watchdog matches Err(failure) ==> failure == ClientFailure::DeadlineExceeded,
{
}

/// A client is authenticated by the four bytes `OKAY` and by nothing else; every other
/// response and every failure of the transport is reported under its own name.
pub proof fn law_only_okay_authenticates(
    result: Result<&[u8], ClientTransportFailure>,
    outcome: ClientOutcome,
)
    requires
        call_ensures(evaluate_client_response, (result,), outcome),
    ensures
        outcome == ClientOutcome::Authenticated <==> (result matches Ok(packet) && packet@ == seq![
            79u8,
            75u8,
            65u8,
            89u8,
        ]),
        outcome == ClientOutcome::Failed(ClientFailure::Denied) <==> (result matches Ok(packet)
            && packet@ == seq![68u8, 69u8, 78u8, 89u8]),
        outcome == ClientOutcome::Failed(ClientFailure::Busy) <==> (result matches Ok(packet)
            && packet@ == seq![66u8, 85u8, 83u8, 89u8]),
        outcome == ClientOutcome::Failed(ClientFailure::BrokerFailure) <==> (result matches Ok(
            packet,
        ) && packet@ == seq![70u8, 65u8, 73u8, 76u8]),
        outcome == ClientOutcome::Failed(ClientFailure::BrokerUnavailable) <==> result == Err::<
            &[u8],
            ClientTransportFailure,
        >(ClientTransportFailure::BrokerUnavailable),
        outcome == ClientOutcome::Failed(ClientFailure::DeadlineExceeded) <==> result == Err::<
            &[u8],
            ClientTransportFailure,
        >(ClientTransportFailure::DeadlineExceeded),
        outcome == ClientOutcome::Failed(ClientFailure::UntrustedEndpoint) <==> result == Err::<
            &[u8],
            ClientTransportFailure,
        >(ClientTransportFailure::UntrustedEndpoint),
        outcome == ClientOutcome::Failed(ClientFailure::UntrustedPeer) <==> result == Err::<
            &[u8],
            ClientTransportFailure,
        >(ClientTransportFailure::UntrustedPeer),
        outcome == ClientOutcome::Failed(ClientFailure::SendFailed) <==> result == Err::<
            &[u8],
            ClientTransportFailure,
        >(ClientTransportFailure::SendFailed),
        outcome == ClientOutcome::Failed(ClientFailure::ReceiveFailed) <==> result == Err::<
            &[u8],
            ClientTransportFailure,
        >(ClientTransportFailure::ReceiveFailed),
{
    if let Ok(packet) = result {
        law_response_round_trip(packet@, Response::Okay);
        law_response_round_trip(packet@, Response::Denied);
        law_response_round_trip(packet@, Response::Busy);
        law_response_round_trip(packet@, Response::Failure);
    }
}

/// A cancellation is accepted by the four bytes `OKAY` and by nothing else.
pub proof fn law_only_okay_accepts_a_cancellation(
    result: Result<&[u8], ClientTransportFailure>,
    outcome: CancellationOutcome,
)
    requires
        call_ensures(evaluate_cancellation_response, (result,), outcome),
    ensures
        outcome == CancellationOutcome::Accepted <==> (result matches Ok(packet) && packet@
            == seq![79u8, 75u8, 65u8, 89u8]),
{
}

} // verus!
