use t1_daemons::auth_protocol::{
    client_watchdog, decode_request, decode_response, endpoint_is_trusted,
    evaluate_cancellation_response, evaluate_client_response, validate_match_timeout,
    AccessPolicy, BrokerDecision, BrokerState, CancellationOutcome, ClientFailure, ClientOutcome,
    ClientPurpose, ClientTransportFailure, EndpointKind, EndpointMetadata, Operation,
    OperationResult, PeerAddressFamily, PeerMetadata, PolicyError, Purpose, Request, RequestError,
    Response, ResponseError, BIOMETRIC_USER_ID, MAX_MATCH_TIMEOUT_SECS, REQUEST_SIZE, ROOT_UID,
    SETUP_ALLOWANCE_SECS,
};
use t1_daemons::time::Duration;

const AUTHENTICATE_REQUEST: &[u8; 8] = b"T1AUTH\x01\n";
const APPROVE_REQUEST: &[u8; 8] = b"T1APRV\x01\n";
const ENROLL_REQUEST: &[u8; 8] = b"T1ENRL\x01\n";
const CANCEL_REQUEST: &[u8; 8] = b"T1CNCL\x01\n";
const RESPONSE_OK: &[u8; 4] = b"OKAY";
const RESPONSE_DENIED: &[u8; 4] = b"DENY";
const RESPONSE_BUSY: &[u8; 4] = b"BUSY";
const RESPONSE_FAILURE: &[u8; 4] = b"FAIL";
const OWNER_UID: u32 = 42_000;
const OWNER_GID: u32 = 42_001;

fn max_match_timeout() -> Duration {
    Duration::from_secs(MAX_MATCH_TIMEOUT_SECS)
}

fn policy() -> AccessPolicy {
    AccessPolicy::new(OWNER_UID).expect("synthetic enrollment owner")
}

fn peer(user_id: u32) -> PeerMetadata {
    PeerMetadata {
        address_family: PeerAddressFamily::Local,
        user_id,
        group_id: OWNER_GID,
    }
}

fn start(state: &mut BrokerState, request: Request) -> Operation {
    let BrokerDecision::Start(operation) =
        state.handle_packet(peer(OWNER_UID), policy(), &request.encode())
    else {
        panic!("valid synthetic request starts")
    };
    operation
}

#[test]
fn request_and_response_encodings_are_exact() {
    for (request, packet) in [
        (Request::Authenticate, AUTHENTICATE_REQUEST),
        (Request::Approve, APPROVE_REQUEST),
        (Request::Enroll, ENROLL_REQUEST),
        (Request::Cancel, CANCEL_REQUEST),
    ] {
        assert_eq!(&request.encode(), packet);
        assert_eq!(decode_request(packet), Ok(request));
    }
    for (response, packet) in [
        (Response::Okay, RESPONSE_OK),
        (Response::Denied, RESPONSE_DENIED),
        (Response::Busy, RESPONSE_BUSY),
        (Response::Failure, RESPONSE_FAILURE),
    ] {
        assert_eq!(&response.encode(), packet);
        assert_eq!(decode_response(packet), Ok(response));
    }
}

#[test]
fn request_decoder_rejects_truncated_oversized_and_malformed_packets() {
    for length in 0..REQUEST_SIZE {
        assert_eq!(
            decode_request(&AUTHENTICATE_REQUEST[..length]),
            Err(RequestError::WrongLength)
        );
    }

    let mut oversized = AUTHENTICATE_REQUEST.to_vec();
    oversized.push(0);
    assert_eq!(decode_request(&oversized), Err(RequestError::WrongLength));

    let mut wrong_terminator = *AUTHENTICATE_REQUEST;
    wrong_terminator[7] = 0;
    assert_eq!(
        decode_request(&wrong_terminator),
        Err(RequestError::WrongTerminator)
    );

    let mut wrong_version = *AUTHENTICATE_REQUEST;
    wrong_version[6] = 2;
    assert_eq!(
        decode_request(&wrong_version),
        Err(RequestError::UnsupportedVersion)
    );

    let mut wrong_action = *AUTHENTICATE_REQUEST;
    wrong_action[..6].copy_from_slice(b"T1NOPE");
    assert_eq!(
        decode_request(&wrong_action),
        Err(RequestError::UnsupportedAction)
    );
}

#[test]
fn response_decoder_rejects_truncated_oversized_and_unknown_packets() {
    for packet in [&b""[..], &b"O"[..], &b"OK"[..], &b"OKA"[..], &b"OKAYx"[..]] {
        assert_eq!(decode_response(packet), Err(ResponseError::WrongLength));
    }
    assert_eq!(
        decode_response(b"NOPE"),
        Err(ResponseError::UnsupportedResponse)
    );
}

#[test]
fn errors_and_debug_output_do_not_echo_packets_or_credentials() {
    let marker = b"SYNTHETIC_SECRET_MARKER";
    let request_error = decode_request(marker).unwrap_err();
    let response_error = decode_response(marker).unwrap_err();
    assert!(!format!("{request_error:?} {}", request_error.message()).contains("SECRET"));
    assert!(!format!("{response_error:?} {}", response_error.message()).contains("SECRET"));
    assert!(!peer(OWNER_UID).diagnostic().contains("42000"));
}

#[test]
fn endpoint_trust_matches_the_fail_closed_client_contract() {
    let trusted = EndpointMetadata {
        kind: EndpointKind::LocalSocket,
        owner_user_id: ROOT_UID,
        mode: 0o660,
    };
    assert!(endpoint_is_trusted(trusted));
    assert!(!endpoint_is_trusted(EndpointMetadata {
        mode: 0o666,
        ..trusted
    }));
    assert!(!endpoint_is_trusted(EndpointMetadata {
        owner_user_id: OWNER_UID,
        ..trusted
    }));
    assert!(!endpoint_is_trusted(EndpointMetadata {
        kind: EndpointKind::Other,
        ..trusted
    }));
}

#[test]
fn stored_owner_mapping_admits_only_root_and_the_enrollment_owner() {
    for allowed in [ROOT_UID, OWNER_UID] {
        let mut state = BrokerState::default();
        let BrokerDecision::Start(operation) =
            state.handle_packet(peer(allowed), policy(), AUTHENTICATE_REQUEST)
        else {
            panic!("allowed peer starts authentication")
        };
        assert_eq!(operation.biometric_user_id, BIOMETRIC_USER_ID);
    }

    let mut state = BrokerState::default();
    assert!(state.handle_packet(peer(OWNER_UID + 1), policy(), AUTHENTICATE_REQUEST) == BrokerDecision::Reply(Response::Denied));
    assert_eq!(
        AccessPolicy::new(ROOT_UID),
        Err(PolicyError::InvalidEnrollmentOwner)
    );
}

#[test]
fn nonlocal_peer_families_are_rejected_including_netlink() {
    for address_family in [
        PeerAddressFamily::InternetV6,
        PeerAddressFamily::Netlink,
        PeerAddressFamily::Other,
    ] {
        let metadata = PeerMetadata {
            address_family,
            ..peer(ROOT_UID)
        };
        let mut state = BrokerState::default();
        assert!(state.handle_packet(metadata, policy(), AUTHENTICATE_REQUEST) == BrokerDecision::Reply(Response::Denied));
    }
}

#[test]
fn approve_selects_distinct_ui_purpose() {
    let mut state = BrokerState::default();
    let operation = start(&mut state, Request::Approve);
    assert_eq!(operation.purpose, Purpose::Approve);
    assert!(operation.enrollment_owner_candidate.is_none());
}

#[test]
fn enrollment_admits_only_the_recorded_owner_and_carries_a_redacted_candidate() {
    let mut state = BrokerState::default();
    let operation = start(&mut state, Request::Enroll);
    assert_eq!(operation.purpose, Purpose::Enrollment);
    let candidate = operation
        .enrollment_owner_candidate
        .expect("enrollment carries its candidate owner");
    assert_eq!(candidate.user_id(), OWNER_UID);
    assert!(!candidate.diagnostic().contains("42000"));

    let mut root_state = BrokerState::default();
    assert!(root_state.handle_packet(peer(ROOT_UID), policy(), ENROLL_REQUEST) == BrokerDecision::Reply(Response::Denied));
    let mut other_state = BrokerState::default();
    assert!(other_state.handle_packet(peer(OWNER_UID + 1), policy(), ENROLL_REQUEST) == BrokerDecision::Reply(Response::Denied));
}

#[test]
fn missing_owner_enrollment_shares_busy_token_and_root_cancel_authority() {
    let mut state = BrokerState::default();
    let BrokerDecision::Start(operation) = state.enroll_without_owner(peer(OWNER_UID)) else {
        panic!("validated local non-root candidate starts enrollment")
    };
    assert_eq!(operation.purpose, Purpose::Enrollment);
    assert!(operation
            .enrollment_owner_candidate
            .expect("candidate is retained")
            .user_id() == OWNER_UID);
    assert!(state.handle_packet(peer(OWNER_UID), policy(), AUTHENTICATE_REQUEST) == BrokerDecision::Reply(Response::Busy));
    assert!(state.cancel_without_owner(peer(ROOT_UID), |token| token == operation.token) == BrokerDecision::Reply(Response::Okay));
    assert_eq!(
        state.finish(operation.token, OperationResult::Matched),
        Some(Response::Failure),
        "root cancellation wins an enrollment completion race"
    );

    for rejected in [
        peer(ROOT_UID),
        PeerMetadata {
            address_family: PeerAddressFamily::InternetV6,
            ..peer(OWNER_UID)
        },
    ] {
        assert!(BrokerState::default().enroll_without_owner(rejected) == BrokerDecision::Reply(Response::Denied));
    }
}

#[test]
fn malformed_and_wrong_version_requests_never_start_work() {
    let mut wrong_version = *AUTHENTICATE_REQUEST;
    wrong_version[6] = 2;
    let mut wrong_action = *AUTHENTICATE_REQUEST;
    wrong_action[..6].copy_from_slice(b"T1NOPE");

    for packet in [&b""[..], &b"bad"[..], &wrong_version, &wrong_action] {
        let mut state = BrokerState::default();
        assert!(state.handle_packet(peer(OWNER_UID), policy(), packet) == BrokerDecision::Reply(Response::Denied));
        assert!(state.diagnostic().contains("active: false"));
    }
}

#[test]
fn only_one_authentication_can_be_active() {
    let mut state = BrokerState::default();
    let operation = start(&mut state, Request::Authenticate);
    assert!(state.handle_packet(peer(ROOT_UID), policy(), APPROVE_REQUEST) == BrokerDecision::Reply(Response::Busy));
    assert_eq!(
        state.finish(operation.token, OperationResult::Matched),
        Some(Response::Okay)
    );
}

#[test]
fn only_root_can_cancel_an_active_operation() {
    let mut state = BrokerState::default();
    let operation = start(&mut state, Request::Authenticate);

    assert!(state.handle_packet(peer(OWNER_UID), policy(), CANCEL_REQUEST) == BrokerDecision::Reply(Response::Denied));
    assert!(!state.is_cancelled(operation.token));

    assert!(state.handle_packet_with_cancellation(peer(ROOT_UID), policy(), CANCEL_REQUEST, |_| {
            false
        },) == BrokerDecision::Reply(Response::Denied));
    assert!(!state.is_cancelled(operation.token));

    assert!(state.handle_packet_with_cancellation(
            peer(ROOT_UID),
            policy(),
            CANCEL_REQUEST,
            |token| token == operation.token,
        ) == BrokerDecision::Reply(Response::Okay));
    assert!(state.is_cancelled(operation.token));

    assert!(state.handle_packet_with_cancellation(
            peer(ROOT_UID),
            policy(),
            CANCEL_REQUEST,
            |token| token == operation.token,
        ) == BrokerDecision::Reply(Response::Okay));
    assert_eq!(
        state.finish(operation.token, OperationResult::Matched),
        Some(Response::Failure),
        "cancellation wins a race with a reported match"
    );
    assert!(state.handle_packet(peer(ROOT_UID), policy(), CANCEL_REQUEST) == BrokerDecision::Reply(Response::Denied));
}

#[test]
fn ownerless_cancellation_retains_root_local_and_delivery_checks() {
    let mut state = BrokerState::default();
    let operation = start(&mut state, Request::Authenticate);

    assert!(state.cancel_without_owner(peer(OWNER_UID), |_| true) == BrokerDecision::Reply(Response::Denied));
    assert!(state.cancel_without_owner(
            PeerMetadata {
                address_family: PeerAddressFamily::InternetV6,
                user_id: ROOT_UID,
                group_id: 0,
            },
            |_| true,
        ) == BrokerDecision::Reply(Response::Denied));
    assert!(state.cancel_without_owner(peer(ROOT_UID), |_| false) == BrokerDecision::Reply(Response::Denied));
    assert!(!state.is_cancelled(operation.token));
    assert!(state.cancel_without_owner(peer(ROOT_UID), |token| token == operation.token) == BrokerDecision::Reply(Response::Okay));
    assert!(state.is_cancelled(operation.token));
}

#[test]
fn disconnect_cancels_only_the_matching_operation() {
    let mut state = BrokerState::default();
    let first = start(&mut state, Request::Authenticate);
    assert!(!state.client_disconnected(first.token, |_| false));
    assert!(!state.is_cancelled(first.token));
    assert!(state.client_disconnected(first.token, |token| token == first.token));
    assert_eq!(
        state.finish(first.token, OperationResult::Matched),
        Some(Response::Failure)
    );

    let second = start(&mut state, Request::Authenticate);
    assert!(!state.client_disconnected(first.token, |_| true));
    assert!(!state.is_cancelled(second.token));
    assert_eq!(state.finish(first.token, OperationResult::Matched), None);
    assert_eq!(
        state.finish(second.token, OperationResult::Matched),
        Some(Response::Okay)
    );
}

#[test]
fn token_exhaustion_fails_closed_without_reusing_a_stale_token() {
    let mut state = BrokerState::starting_at(u64::MAX);
    let last = start(&mut state, Request::Authenticate);
    assert_eq!(
        state.finish(last.token, OperationResult::Matched),
        Some(Response::Okay)
    );
    assert!(state.handle_packet(peer(OWNER_UID), policy(), AUTHENTICATE_REQUEST) == BrokerDecision::Reply(Response::Failure));
    assert_eq!(state.finish(last.token, OperationResult::Matched), None);
}

#[test]
fn every_nonmatch_backend_result_fails() {
    for result in [
        OperationResult::NoMatch,
        OperationResult::Cancelled,
        OperationResult::Unavailable,
        OperationResult::Failed,
    ] {
        let mut state = BrokerState::default();
        let operation = start(&mut state, Request::Authenticate);
        assert_eq!(
            state.finish(operation.token, result),
            Some(Response::Failure)
        );
    }
}

#[test]
fn client_accepts_only_an_exact_success_packet() {
    assert_eq!(
        evaluate_client_response(Ok(RESPONSE_OK)),
        ClientOutcome::Authenticated
    );
    for packet in [&b""[..], &b"OK"[..], &b"OKAYextra"[..], &b"NOPE"[..]] {
        assert_eq!(
            evaluate_client_response(Ok(packet)),
            ClientOutcome::Failed(ClientFailure::InvalidResponse)
        );
    }
    assert_eq!(
        evaluate_client_response(Ok(RESPONSE_DENIED)),
        ClientOutcome::Failed(ClientFailure::Denied)
    );
    assert_eq!(
        evaluate_client_response(Ok(RESPONSE_BUSY)),
        ClientOutcome::Failed(ClientFailure::Busy)
    );
    assert_eq!(
        evaluate_client_response(Ok(RESPONSE_FAILURE)),
        ClientOutcome::Failed(ClientFailure::BrokerFailure)
    );
}

#[test]
fn broker_unavailable_and_transport_errors_map_to_failure() {
    for (transport, failure) in [
        (
            ClientTransportFailure::BrokerUnavailable,
            ClientFailure::BrokerUnavailable,
        ),
        (
            ClientTransportFailure::DeadlineExceeded,
            ClientFailure::DeadlineExceeded,
        ),
        (
            ClientTransportFailure::UntrustedEndpoint,
            ClientFailure::UntrustedEndpoint,
        ),
        (
            ClientTransportFailure::UntrustedPeer,
            ClientFailure::UntrustedPeer,
        ),
        (
            ClientTransportFailure::SendFailed,
            ClientFailure::SendFailed,
        ),
        (
            ClientTransportFailure::ReceiveFailed,
            ClientFailure::ReceiveFailed,
        ),
    ] {
        assert_eq!(
            evaluate_client_response(Err(transport)),
            ClientOutcome::Failed(failure)
        );
    }
}

#[test]
fn timeout_is_bounded_before_transport_work() {
    assert_eq!(
        validate_match_timeout(Duration::zero()),
        Err(ClientFailure::DeadlineExceeded)
    );
    assert_eq!(validate_match_timeout(Duration::from_secs(1)), Ok(()));
    assert_eq!(validate_match_timeout(max_match_timeout()), Ok(()));
    assert_eq!(
        client_watchdog(max_match_timeout()),
        Ok(Duration::from_secs(65))
    );
    assert_eq!(
        validate_match_timeout(max_match_timeout().checked_add(Duration::from_nanos(1)).unwrap()),
        Err(ClientFailure::DeadlineExceeded)
    );
}

#[test]
fn cancellation_acknowledgement_is_not_authentication() {
    assert_eq!(
        evaluate_cancellation_response(Ok(RESPONSE_OK)),
        CancellationOutcome::Accepted
    );
    for response in [RESPONSE_DENIED, RESPONSE_BUSY, RESPONSE_FAILURE] {
        assert_eq!(
            evaluate_cancellation_response(Ok(response)),
            CancellationOutcome::Denied
        );
    }
    assert_eq!(
        evaluate_cancellation_response(Ok(b"OK")),
        CancellationOutcome::Denied
    );
    assert_eq!(
        evaluate_cancellation_response(Err(ClientTransportFailure::BrokerUnavailable)),
        CancellationOutcome::Denied
    );
}

#[test]
fn published_constants_are_the_wire_packets() {
    assert_eq!(&t1_daemons::auth_protocol::AUTHENTICATE_REQUEST, AUTHENTICATE_REQUEST);
    assert_eq!(&t1_daemons::auth_protocol::APPROVE_REQUEST, APPROVE_REQUEST);
    assert_eq!(&t1_daemons::auth_protocol::ENROLL_REQUEST, ENROLL_REQUEST);
    assert_eq!(&t1_daemons::auth_protocol::CANCEL_REQUEST, CANCEL_REQUEST);
    assert_eq!(&t1_daemons::auth_protocol::RESPONSE_OK, RESPONSE_OK);
    assert_eq!(&t1_daemons::auth_protocol::RESPONSE_DENIED, RESPONSE_DENIED);
    assert_eq!(&t1_daemons::auth_protocol::RESPONSE_BUSY, RESPONSE_BUSY);
    assert_eq!(&t1_daemons::auth_protocol::RESPONSE_FAILURE, RESPONSE_FAILURE);
    assert_eq!(&ClientPurpose::Authenticate.encode_request(), AUTHENTICATE_REQUEST);
    assert_eq!(&ClientPurpose::Approve.encode_request(), APPROVE_REQUEST);
    assert_eq!(MAX_MATCH_TIMEOUT_SECS, 30);
    assert_eq!(SETUP_ALLOWANCE_SECS, 35);
    assert_eq!(BIOMETRIC_USER_ID, 501);
}

#[test]
fn fixed_messages_are_exact() {
    assert_eq!(
        RequestError::WrongLength.message(),
        "authentication request has the wrong length"
    );
    assert_eq!(
        RequestError::WrongTerminator.message(),
        "authentication request has the wrong terminator"
    );
    assert_eq!(
        RequestError::UnsupportedVersion.message(),
        "authentication request uses an unsupported version"
    );
    assert_eq!(
        RequestError::UnsupportedAction.message(),
        "authentication request uses an unsupported action"
    );
    assert_eq!(
        ResponseError::WrongLength.message(),
        "authentication response has the wrong length"
    );
    assert_eq!(
        ResponseError::UnsupportedResponse.message(),
        "authentication response is unsupported"
    );
    assert_eq!(
        PolicyError::InvalidEnrollmentOwner.message(),
        "enrollment owner mapping is invalid"
    );
}

#[test]
fn tokens_differ_from_operation_to_operation() {
    let mut state = BrokerState::default();
    let first = start(&mut state, Request::Authenticate);
    assert_eq!(state.finish(first.token, OperationResult::Failed), Some(Response::Failure));
    let second = start(&mut state, Request::Authenticate);
    assert!(first.token != second.token);
    assert!(state.is_cancelled(first.token));
    assert!(!state.is_cancelled(second.token));
    assert_eq!(first.token.diagnostic(), "OperationToken(<redacted>)");
}
