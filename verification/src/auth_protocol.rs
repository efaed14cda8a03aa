//! Pure wire protocol and state validation for Touch ID authentication.
//!
//! This module deliberately does not open sockets or obtain peer credentials:
//! the caller supplies metadata that it has independently authenticated. Only an
//! exact success response satisfies a client request.

use crate::bytes::{begins_with, same_bytes};
use crate::time::Duration;
use vstd::prelude::*;

verus! {

/// The one protocol version on the wire.
pub const PROTOCOL_VERSION: u8 = 1;

/// Longest accepted match timeout, in seconds.
pub const MAX_MATCH_TIMEOUT_SECS: u64 = 30;

/// Setup time granted on top of the match timeout, in seconds.
pub const SETUP_ALLOWANCE_SECS: u64 = 35;

/// The biometric user that every admitted peer is mapped to.
pub const BIOMETRIC_USER_ID: u32 = 501;

/// `T1AUTH`, the version byte and a line feed.
pub const AUTHENTICATE_REQUEST: [u8; 8] = [84, 49, 65, 85, 84, 72, 1, 10];

/// `T1APRV`, the version byte and a line feed.
pub const APPROVE_REQUEST: [u8; 8] = [84, 49, 65, 80, 82, 86, 1, 10];

/// `T1ENRL`, the version byte and a line feed.
pub const ENROLL_REQUEST: [u8; 8] = [84, 49, 69, 78, 82, 76, 1, 10];

/// `T1CNCL`, the version byte and a line feed.
pub const CANCEL_REQUEST: [u8; 8] = [84, 49, 67, 78, 67, 76, 1, 10];

/// `OKAY`.
pub const RESPONSE_OK: [u8; 4] = [79, 75, 65, 89];

/// `DENY`.
pub const RESPONSE_DENIED: [u8; 4] = [68, 69, 78, 89];

/// `BUSY`.
pub const RESPONSE_BUSY: [u8; 4] = [66, 85, 83, 89];

/// `FAIL`.
pub const RESPONSE_FAILURE: [u8; 4] = [70, 65, 73, 76];

/// Bytes in every request packet.
pub const REQUEST_SIZE: usize = 8;

/// Bytes in every response packet.
pub const RESPONSE_SIZE: usize = 4;

/// The superuser's id.
pub const ROOT_UID: u32 = 0;

/// Mode bit that lets anyone write.
pub const WORLD_WRITABLE: u32 = 2;

/// A typed request to the broker.
#[derive(Clone, Copy, Debug, PartialEq, Eq, Structural)]
pub enum Request {
    Authenticate,
    Approve,
    Enroll,
    Cancel,
}

impl Request {
    /// The six letters that name the action on the wire.
    pub open spec fn action(self) -> Seq<u8> {
        match self {
            Request::Authenticate => seq![84u8, 49u8, 65u8, 85u8, 84u8, 72u8],
            Request::Approve => seq![84u8, 49u8, 65u8, 80u8, 82u8, 86u8],
            Request::Enroll => seq![84u8, 49u8, 69u8, 78u8, 82u8, 76u8],
            Request::Cancel => seq![84u8, 49u8, 67u8, 78u8, 67u8, 76u8],
        }
    }

    /// The complete packet: action, version, line feed.
    pub open spec fn packet(self) -> Seq<u8> {
        self.action().push(PROTOCOL_VERSION).push(10u8)
    }

    /// Encodes the request as its one exact packet.
    pub fn encode(self) -> (packet: [u8; 8])
        ensures
            packet@ == self.packet(),
    {
        let packet = match self {
            Request::Authenticate => AUTHENTICATE_REQUEST,
            Request::Approve => APPROVE_REQUEST,
            Request::Enroll => ENROLL_REQUEST,
            Request::Cancel => CANCEL_REQUEST,
        };
        assert(packet@ =~= self.packet());
        packet
    }
}

/// A typed response of the broker.
#[derive(Clone, Copy, Debug, PartialEq, Eq, Structural)]
pub enum Response {
    Okay,
    Denied,
    Busy,
    Failure,
}

impl Response {
    /// The complete packet.
    pub open spec fn packet(self) -> Seq<u8> {
        match self {
            Response::Okay => seq![79u8, 75u8, 65u8, 89u8],
            Response::Denied => seq![68u8, 69u8, 78u8, 89u8],
            Response::Busy => seq![66u8, 85u8, 83u8, 89u8],
            Response::Failure => seq![70u8, 65u8, 73u8, 76u8],
        }
    }

    /// Encodes the response as its one exact packet.
    pub fn encode(self) -> (packet: [u8; 4])
        ensures
            packet@ == self.packet(),
    {
        let packet = match self {
            Response::Okay => RESPONSE_OK,
            Response::Denied => RESPONSE_DENIED,
            Response::Busy => RESPONSE_BUSY,
            Response::Failure => RESPONSE_FAILURE,
        };
        assert(packet@ =~= self.packet());
        packet
    }
}

/// Why a request packet was refused.
#[derive(Clone, Copy, Debug, PartialEq, Eq, Structural)]
pub enum RequestError {
    WrongLength,
    WrongTerminator,
    UnsupportedVersion,
    UnsupportedAction,
}

impl RequestError {
    /// The message, as text.
    pub open spec fn text(self) -> Seq<char> {
        match self {
            RequestError::WrongLength => "authentication request has the wrong length"@,
            RequestError::WrongTerminator => "authentication request has the wrong terminator"@,
            RequestError::UnsupportedVersion => "authentication request uses an unsupported version"@,
            RequestError::UnsupportedAction => "authentication request uses an unsupported action"@,
        }
    }

    /// A fixed message that never echoes the packet.
    pub fn message(self) -> (message: &'static str)
        ensures
            message@ == self.text(),
    {
        match self {
            RequestError::WrongLength => "authentication request has the wrong length",
            RequestError::WrongTerminator => "authentication request has the wrong terminator",
            RequestError::UnsupportedVersion => "authentication request uses an unsupported version",
            RequestError::UnsupportedAction => "authentication request uses an unsupported action",
        }
    }
}

/// Why a response packet was refused.
#[derive(Clone, Copy, Debug, PartialEq, Eq, Structural)]
pub enum ResponseError {
    WrongLength,
    UnsupportedResponse,
}

impl ResponseError {
    /// The message, as text.
    pub open spec fn text(self) -> Seq<char> {
        match self {
            ResponseError::WrongLength => "authentication response has the wrong length"@,
            ResponseError::UnsupportedResponse => "authentication response is unsupported"@,
        }
    }

    /// A fixed message that never echoes the packet.
    pub fn message(self) -> (message: &'static str)
        ensures
            message@ == self.text(),
    {
        match self {
            ResponseError::WrongLength => "authentication response has the wrong length",
            ResponseError::UnsupportedResponse => "authentication response is unsupported",
        }
    }
}

/// What a packet decodes to: the first fault in the order length, terminator,
/// version, action, or the request whose action it names.
pub open spec fn decoded_request(packet: Seq<u8>) -> Result<Request, RequestError> {
    if packet.len() != REQUEST_SIZE {
        Err(RequestError::WrongLength)
    } else if packet[7] != 10u8 {
        Err(RequestError::WrongTerminator)
    } else if packet[6] != PROTOCOL_VERSION {
        Err(RequestError::UnsupportedVersion)
    } else if packet.subrange(0, 6) == Request::Authenticate.action() {
        Ok(Request::Authenticate)
    } else if packet.subrange(0, 6) == Request::Approve.action() {
        Ok(Request::Approve)
    } else if packet.subrange(0, 6) == Request::Enroll.action() {
        Ok(Request::Enroll)
    } else if packet.subrange(0, 6) == Request::Cancel.action() {
        Ok(Request::Cancel)
    } else {
        Err(RequestError::UnsupportedAction)
    }
}

/// What a packet decodes to as a response.
pub open spec fn decoded_response(packet: Seq<u8>) -> Result<Response, ResponseError> {
    if packet.len() != RESPONSE_SIZE {
        Err(ResponseError::WrongLength)
    } else if packet == Response::Okay.packet() {
        Ok(Response::Okay)
    } else if packet == Response::Denied.packet() {
        Ok(Response::Denied)
    } else if packet == Response::Busy.packet() {
        Ok(Response::Busy)
    } else if packet == Response::Failure.packet() {
        Ok(Response::Failure)
    } else {
        Err(ResponseError::UnsupportedResponse)
    }
}

/// Whether `packet` is `request` on the wire, for a packet whose length,
/// terminator and version are already known to be right.
fn names(packet: &[u8], request: Request) -> (r: bool)
    requires
        packet@.len() == REQUEST_SIZE,
        packet@[7] == 10u8,
        packet@[6] == PROTOCOL_VERSION,
    ensures
        r == (packet@.subrange(0, 6) == request.action()),
{
    let exact = request.encode();
    let r = begins_with(packet, exact.as_slice());
    proof {
        assert(request.packet().subrange(0, 6) =~= request.action());
        if r {
            assert(packet@.subrange(0, 8) =~= packet@);
            assert(packet@.subrange(0, 6) =~= request.action());
        } else if packet@.subrange(0, 6) == request.action() {
            assert forall|i: int| 0 <= i < 6 implies packet@[i] == request.action()[i] by {
                assert(packet@.subrange(0, 6)[i] == packet@[i]);
            }
            assert(packet@.subrange(0, 8) =~= request.packet());
        }
    }
    r
}

/// Decodes one complete packet.
pub fn decode_request(packet: &[u8]) -> (r: Result<Request, RequestError>)
    ensures
        r == decoded_request(packet@),
{
    if packet.len() != REQUEST_SIZE {
        return Err(RequestError::WrongLength);
    }
    if packet[REQUEST_SIZE - 1] != 10 {
        return Err(RequestError::WrongTerminator);
    }
    if packet[REQUEST_SIZE - 2] != PROTOCOL_VERSION {
        return Err(RequestError::UnsupportedVersion);
    }
    if names(packet, Request::Authenticate) {
        Ok(Request::Authenticate)
    } else if names(packet, Request::Approve) {
        Ok(Request::Approve)
    } else if names(packet, Request::Enroll) {
        Ok(Request::Enroll)
    } else if names(packet, Request::Cancel) {
        Ok(Request::Cancel)
    } else {
        Err(RequestError::UnsupportedAction)
    }
}

/// Whether `packet` is exactly `response` on the wire.
fn is_response(packet: &[u8], response: Response) -> (r: bool)
    requires
        packet@.len() == RESPONSE_SIZE,
    ensures
        r == (packet@ == response.packet()),
{
    let exact = response.encode();
    same_bytes(packet, exact.as_slice())
}

/// Decodes one complete response packet.
pub fn decode_response(packet: &[u8]) -> (r: Result<Response, ResponseError>)
    ensures
        r == decoded_response(packet@),
{
    if packet.len() != RESPONSE_SIZE {
        return Err(ResponseError::WrongLength);
    }
    if is_response(packet, Response::Okay) {
        Ok(Response::Okay)
    } else if is_response(packet, Response::Denied) {
        Ok(Response::Denied)
    } else if is_response(packet, Response::Busy) {
        Ok(Response::Busy)
    } else if is_response(packet, Response::Failure) {
        Ok(Response::Failure)
    } else {
        Err(ResponseError::UnsupportedResponse)
    }
}

/// Decoding gives back every request that was encoded, and nothing but the four
/// encodings decodes to a request.
pub proof fn law_request_round_trip(packet: Seq<u8>, request: Request)
    ensures
        decoded_request(packet) == Ok::<Request, RequestError>(request) <==> packet
            == request.packet(),
{
    let exact = request.packet();
    assert(exact.subrange(0, 6) =~= request.action());
    assert(exact[7] == 10u8 && exact[6] == PROTOCOL_VERSION && exact.len() == 8);
    lemma_actions_differ();
    if decoded_request(packet) == Ok::<Request, RequestError>(request) {
        assert forall|i: int| 0 <= i < 8 implies packet[i] == exact[i] by {
            if i < 6 {
                assert(packet.subrange(0, 6)[i] == packet[i]);
            }
        }
        assert(packet =~= exact);
    }
}

/// No two requests share an action.
proof fn lemma_actions_differ()
    ensures
        forall|a: Request, b: Request| a.action() == b.action() ==> a == b,
{
    assert forall|a: Request, b: Request| a.action() == b.action() implies a == b by {
        assert(a.action()[2] == b.action()[2]);
        assert(a.action()[3] == b.action()[3]);
    }
}

/// Decoding gives back every response that was encoded, and nothing but the
/// four encodings decodes to a response.
pub proof fn law_response_round_trip(packet: Seq<u8>, response: Response)
    ensures
        decoded_response(packet) == Ok::<Response, ResponseError>(response) <==> packet
            == response.packet(),
{
    assert forall|a: Response, b: Response| a.packet() == b.packet() implies a == b by {
        assert(a.packet()[0] == b.packet()[0]);
    }
}

/// Address family of a connected peer.
#[derive(Clone, Copy, Debug, PartialEq, Eq, Structural)]
pub enum PeerAddressFamily {
    Local,
    InternetV6,
    Netlink,
    Other,
}

/// Kernel-authenticated identity of a connected peer.
#[derive(Clone, Copy, PartialEq, Eq, Structural)]
pub struct PeerMetadata {
    pub address_family: PeerAddressFamily,
    pub user_id: u32,
    pub group_id: u32,
}

impl PeerMetadata {
    /// A diagnostic that shows no credential.
    pub fn diagnostic(&self) -> (text: &'static str)
        ensures
            text@ == "PeerMetadata { credentials: <redacted> }"@,
    {
        "PeerMetadata { credentials: <redacted> }"
    }
}

/// File-system identity of the broker's endpoint.
#[derive(Clone, Copy, Debug, PartialEq, Eq, Structural)]
pub struct EndpointMetadata {
    pub kind: EndpointKind,
    pub owner_user_id: u32,
    pub mode: u32,
}

/// Kind of file at the endpoint's path.
#[derive(Clone, Copy, Debug, PartialEq, Eq, Structural)]
pub enum EndpointKind {
    LocalSocket,
    Other,
}

/// Whether a client may talk to this endpoint: a local socket that root owns and
/// that not everyone may write.
pub fn endpoint_is_trusted(metadata: EndpointMetadata) -> (r: bool)
    ensures
        r == (metadata.kind == EndpointKind::LocalSocket && metadata.owner_user_id == ROOT_UID
            && metadata.mode & WORLD_WRITABLE == 0),
{
    matches!(metadata.kind, EndpointKind::LocalSocket) && metadata.owner_user_id == ROOT_UID
        && metadata.mode & WORLD_WRITABLE == 0
}

/// The one non-root user whose enrollment the broker serves.
#[derive(Clone, Copy, Debug, PartialEq, Eq, Structural)]
pub struct AccessPolicy {
    enrollment_owner_user_id: u32,
}

impl AccessPolicy {
    /// The recorded owner.
    pub closed spec fn owner(self) -> u32 {
        self.enrollment_owner_user_id
    }

    /// Whether `peer` may use the broker: local, and root or the owner.
    pub open spec fn admits(self, peer: PeerMetadata) -> bool {
        peer.address_family == PeerAddressFamily::Local && (peer.user_id == ROOT_UID || peer.user_id
            == self.owner())
    }

    /// Builds the policy of a non-root owner; root is refused.
    pub fn new(enrollment_owner_user_id: u32) -> (r: Result<AccessPolicy, PolicyError>)
        ensures
            r is Ok <==> enrollment_owner_user_id != ROOT_UID,
            r matches Ok(policy) ==> policy.owner() == enrollment_owner_user_id,
            r matches Err(error) ==> error == PolicyError::InvalidEnrollmentOwner,
    {
        if enrollment_owner_user_id == ROOT_UID {
            Err(PolicyError::InvalidEnrollmentOwner)
        } else {
            Ok(AccessPolicy { enrollment_owner_user_id })
        }
    }

    /// Whether `peer` may use the broker.
    pub fn peer_is_authorized(self, peer: PeerMetadata) -> (r: bool)
        ensures
            r == self.admits(peer),
    {
        self.biometric_user_for(peer).is_some()
    }

    /// The biometric user that `peer` acts on, if it is admitted.
    pub fn biometric_user_for(self, peer: PeerMetadata) -> (r: Option<u32>)
        ensures
            r == if self.admits(peer) {
                Some(BIOMETRIC_USER_ID)
            } else {
                None
            },
    {
        if peer.address_family != PeerAddressFamily::Local {
            return None;
        }
        if peer.user_id == ROOT_UID || peer.user_id == self.enrollment_owner_user_id {
            Some(BIOMETRIC_USER_ID)
        } else {
            None
        }
    }

    /// The recorded owner.
    pub fn enrollment_owner_user_id(self) -> (r: u32)
        ensures
            r == self.owner(),
    {
        self.enrollment_owner_user_id
    }
}

/// Why a policy was refused.
#[derive(Clone, Copy, Debug, PartialEq, Eq, Structural)]
pub enum PolicyError {
    InvalidEnrollmentOwner,
}

impl PolicyError {
    /// A fixed message.
    pub fn message(self) -> (message: &'static str)
        ensures
            message@ == "enrollment owner mapping is invalid"@,
    {
        "enrollment owner mapping is invalid"
    }
}

/// What an admitted operation is for.
#[derive(Clone, Copy, Debug, PartialEq, Eq, Structural)]
pub enum Purpose {
    Authenticate,
    Approve,
    Enrollment,
}

/// The non-root user who asked for an enrollment.
#[derive(Clone, Copy, PartialEq, Eq, Structural)]
pub struct EnrollmentOwnerCandidate(u32);

impl EnrollmentOwnerCandidate {
    /// The user's id.
    pub closed spec fn id(self) -> u32 {
        self.0
    }

    /// A candidate, unless the user is root.
    pub fn new(user_id: u32) -> (r: Option<EnrollmentOwnerCandidate>)
        ensures
            r is Some <==> user_id != ROOT_UID,
            r matches Some(candidate) ==> candidate.id() == user_id,
    {
        if user_id == ROOT_UID {
            None
        } else {
            Some(EnrollmentOwnerCandidate(user_id))
        }
    }

    /// The user's id.
    pub fn user_id(self) -> (r: u32)
        ensures
            r == self.id(),
    {
        self.0
    }

    /// A diagnostic that shows no credential.
    pub fn diagnostic(&self) -> (text: &'static str)
        ensures
            text@ == "EnrollmentOwnerCandidate(<redacted>)"@,
    {
        "EnrollmentOwnerCandidate(<redacted>)"
    }
}

/// Opaque identity of one admitted operation.
#[derive(Clone, Copy, PartialEq, Eq, Structural)]
pub struct OperationToken(u64);

impl OperationToken {
    /// The token's place in the order in which tokens are given out.
    pub closed spec fn number(self) -> u64 {
        self.0
    }

    /// A diagnostic that does not show the token.
    pub fn diagnostic(&self) -> (text: &'static str)
        ensures
            text@ == "OperationToken(<redacted>)"@,
    {
        "OperationToken(<redacted>)"
    }
}

/// One admitted operation.
#[derive(Clone, Copy, PartialEq, Eq, Structural)]
pub struct Operation {
    pub token: OperationToken,
    pub biometric_user_id: u32,
    pub purpose: Purpose,
    pub enrollment_owner_candidate: Option<EnrollmentOwnerCandidate>,
}

/// What the broker answers to one packet.
#[derive(Clone, Copy, PartialEq, Eq, Structural)]
pub enum BrokerDecision {
    Start(Operation),
    Reply(Response),
}

/// How the biometric work of an operation ended.
#[derive(Clone, Copy, Debug, PartialEq, Eq, Structural)]
pub enum OperationResult {
    Matched,
    NoMatch,
    Cancelled,
    Unavailable,
    Failed,
}

#[derive(Clone, Copy)]
struct ActiveOperation {
    token: OperationToken,
    cancelled: bool,
}

/// The broker's authority: at most one active operation, and the next token.
pub struct BrokerState {
    active: Option<ActiveOperation>,
    next_token: u64,
}

/// Answer to a request for a token.
#[derive(Clone, Copy, PartialEq, Eq, Structural)]
pub enum TokenAdmission {
    Start(OperationToken),
    Busy,
    Failed,
}

/// The active operation as the contracts see it.
pub struct ActiveModel {
    pub token: OperationToken,
    pub cancelled: bool,
}

/// The broker's state as the contracts see it. The next token is 0 once every
/// token has been given out.
pub struct BrokerModel {
    pub active: Option<ActiveModel>,
    pub next_token: u64,
}

impl BrokerModel {
    /// No operation yet, token 1 next.
    pub open spec fn initial() -> BrokerModel {
        BrokerModel { active: None, next_token: 1 }
    }

    /// Whether `token` names the active operation.
    pub open spec fn is_active(self, token: OperationToken) -> bool {
        self.active matches Some(active) && active.token == token
    }

    /// Whether a worker holding `token` has to stop: its operation is cancelled
    /// or no longer the active one.
    pub open spec fn must_stop(self, token: OperationToken) -> bool {
        !self.is_active(token) || self.active->0.cancelled
    }

    /// The token after the next one.
    pub open spec fn following_token(self) -> u64 {
        if self.next_token == u64::MAX {
            0
        } else {
            (self.next_token + 1) as u64
        }
    }

    /// The state with `token` active and not cancelled, and one token fewer.
    pub open spec fn with_started(self, token: OperationToken) -> BrokerModel {
        BrokerModel {
            active: Some(ActiveModel { token, cancelled: false }),
            next_token: self.following_token(),
        }
    }

    /// The state with `token`'s cancellation recorded.
    pub open spec fn with_cancelled(self, token: OperationToken) -> BrokerModel {
        BrokerModel { active: Some(ActiveModel { token, cancelled: true }), ..self }
    }

    /// The state with no active operation.
    pub open spec fn released(self) -> BrokerModel {
        BrokerModel { active: None, ..self }
    }

    /// What asking for a token gives, and the state afterwards.
    pub open spec fn admits_token(self, admission: TokenAdmission, after: BrokerModel) -> bool {
        if self.active is Some {
            admission == TokenAdmission::Busy && after == self
        } else if self.next_token == 0 {
            admission == TokenAdmission::Failed && after == self
        } else {
            admission matches TokenAdmission::Start(token) && token.number() == self.next_token
                && after == self.with_started(token)
        }
    }

    /// What asking to start an operation gives, and the state afterwards.
    pub open spec fn starts(
        self,
        biometric_user_id: u32,
        purpose: Purpose,
        candidate: Option<u32>,
        decision: BrokerDecision,
        after: BrokerModel,
    ) -> bool {
        if self.active is Some {
            decision == BrokerDecision::Reply(Response::Busy) && after == self
        } else if self.next_token == 0 {
            decision == BrokerDecision::Reply(Response::Failure) && after == self
        } else {
            decision matches BrokerDecision::Start(operation) && operation.token.number()
                == self.next_token && operation.biometric_user_id == biometric_user_id
                && operation.purpose == purpose && candidate_id(
                operation.enrollment_owner_candidate,
            ) == candidate && after == self.with_started(operation.token)
        }
    }

    /// What a cancellation by `peer` gives, where `delivered` is what delivering
    /// it to the active worker returned.
    pub open spec fn cancels_for(
        self,
        peer: PeerMetadata,
        delivered: bool,
        decision: BrokerDecision,
        after: BrokerModel,
    ) -> bool {
        if cancels_as_root(peer) && self.active is Some && delivered {
            decision == BrokerDecision::Reply(Response::Okay) && after == self.with_cancelled(
                self.active->0.token,
            )
        } else {
            decision == BrokerDecision::Reply(Response::Denied) && after == self
        }
    }

    /// What one packet of `peer` gives, where `delivered` is what delivering a
    /// cancellation to the active worker returned, if that was tried.
    pub open spec fn handles(
        self,
        peer: PeerMetadata,
        policy: AccessPolicy,
        packet: Seq<u8>,
        delivered: bool,
        decision: BrokerDecision,
        after: BrokerModel,
    ) -> bool {
        if !policy.admits(peer) {
            decision == BrokerDecision::Reply(Response::Denied) && after == self
        } else {
            match decoded_request(packet) {
                Err(_) => decision == BrokerDecision::Reply(Response::Denied) && after == self,
                Ok(Request::Cancel) => self.cancels_for(peer, delivered, decision, after),
                Ok(Request::Enroll) => if peer.user_id == ROOT_UID {
                    decision == BrokerDecision::Reply(Response::Denied) && after == self
                } else {
                    self.starts(
                        BIOMETRIC_USER_ID,
                        Purpose::Enrollment,
                        Some(peer.user_id),
                        decision,
                        after,
                    )
                },
                Ok(Request::Authenticate) => self.starts(
                    BIOMETRIC_USER_ID,
                    Purpose::Authenticate,
                    None,
                    decision,
                    after,
                ),
                Ok(Request::Approve) => self.starts(
                    BIOMETRIC_USER_ID,
                    Purpose::Approve,
                    None,
                    decision,
                    after,
                ),
            }
        }
    }

    /// Whether this packet makes the broker try to deliver a cancellation.
    pub open spec fn tries_delivery(
        self,
        peer: PeerMetadata,
        policy: AccessPolicy,
        packet: Seq<u8>,
    ) -> bool {
        policy.admits(peer) && decoded_request(packet) == Ok::<Request, RequestError>(
            Request::Cancel,
        ) && cancels_as_root(peer) && self.active is Some
    }

    /// Holds of the initial state and is kept by every step: the active token
    /// was given out before the next one.
    pub open spec fn well_formed(self) -> bool {
        self.active matches Some(active) ==> active.token.number() != 0 && (self.next_token == 0
            || active.token.number() < self.next_token)
    }

    /// How many tokens are still to be given out.
    pub open spec fn tokens_left(self) -> nat {
        if self.next_token == 0 {
            0
        } else {
            (u64::MAX - self.next_token + 1) as nat
        }
    }
}

/// Only a local root peer may cancel.
pub open spec fn cancels_as_root(peer: PeerMetadata) -> bool {
    peer.address_family == PeerAddressFamily::Local && peer.user_id == ROOT_UID
}

/// The candidate's user id, if there is a candidate.
pub open spec fn candidate_id(candidate: Option<EnrollmentOwnerCandidate>) -> Option<u32> {
    match candidate {
        Some(candidate) => Some(candidate.id()),
        None => None,
    }
}

impl View for BrokerState {
    type V = BrokerModel;

    closed spec fn view(&self) -> BrokerModel {
        BrokerModel {
            active: match self.active {
                Some(active) => Some(
                    ActiveModel { token: active.token, cancelled: active.cancelled },
                ),
                None => None,
            },
            next_token: self.next_token,
        }
    }
}

impl Default for BrokerState {
    fn default() -> (r: BrokerState)
        ensures
            r@ == BrokerModel::initial(),
    {
        BrokerState { active: None, next_token: 1 }
    }
}

impl BrokerState {
    /// A broker whose next token has this number; 0 stands for none left.
    pub fn starting_at(next_token: u64) -> (r: BrokerState)
        ensures
            r@ == (BrokerModel { active: None, next_token }),
    {
        BrokerState { active: None, next_token }
    }

    /// Handles one packet where no cancellation can be delivered.
    #[must_use]
    pub fn handle_packet(
        &mut self,
        peer: PeerMetadata,
        policy: AccessPolicy,
        packet: &[u8],
    ) -> (decision: BrokerDecision)
        ensures
            old(self)@.handles(peer, policy, packet@, false, decision, final(self)@),
    {
        let undeliverable = |_token: OperationToken| -> (delivered: bool)
            ensures
                delivered == false,
            {
                false
            };
        self.handle_packet_with_cancellation(peer, policy, packet, undeliverable)
    }

    /// Authorizes the peer, decodes the packet, and starts, refuses or cancels.
    ///
    /// `deliver` hands a cancellation to the worker of the named operation and
    /// says whether it arrived. It is called for a cancellation by a local root
    /// peer while an operation is active, and only then.
    #[must_use]
    pub fn handle_packet_with_cancellation<Deliver: FnOnce(OperationToken) -> bool>(
        &mut self,
        peer: PeerMetadata,
        policy: AccessPolicy,
        packet: &[u8],
        deliver: Deliver,
    ) -> (decision: BrokerDecision)
        requires
            old(self)@.tries_delivery(peer, policy, packet@) ==> deliver.requires(
                (old(self)@.active->0.token,),
            ),
        ensures
            old(self)@.handles(
                peer,
                policy,
                packet@,
                decision == BrokerDecision::Reply(Response::Okay),
                decision,
                final(self)@,
            ),
            old(self)@.tries_delivery(peer, policy, packet@) ==> deliver.ensures(
                (old(self)@.active->0.token,),
                decision == BrokerDecision::Reply(Response::Okay),
            ),
    {
        let biometric_user_id: u32 = match policy.biometric_user_for(peer) {
            Some(biometric_user_id) => biometric_user_id,
            None => {
                return BrokerDecision::Reply(Response::Denied);
            },
        };
        let request = match decode_request(packet) {
            Ok(request) => request,
            Err(_) => {
                return BrokerDecision::Reply(Response::Denied);
            },
        };
        match request {
            Request::Cancel => self.cancel_for_root(peer, deliver),
            Request::Enroll => if peer.user_id == ROOT_UID {
                BrokerDecision::Reply(Response::Denied)
            } else {
                self.start_operation(
                    biometric_user_id,
                    Purpose::Enrollment,
                    EnrollmentOwnerCandidate::new(peer.user_id),
                )
            },
            Request::Authenticate => self.start_operation(
                biometric_user_id,
                Purpose::Authenticate,
                None,
            ),
            Request::Approve => self.start_operation(biometric_user_id, Purpose::Approve, None),
        }
    }

    /// Starts an enrollment for a local non-root peer while no owner is recorded.
    #[must_use]
    pub fn enroll_without_owner(&mut self, peer: PeerMetadata) -> (decision: BrokerDecision)
        ensures
            if peer.address_family == PeerAddressFamily::Local && peer.user_id != ROOT_UID {
                old(self)@.starts(
                    BIOMETRIC_USER_ID,
                    Purpose::Enrollment,
                    Some(peer.user_id),
                    decision,
                    final(self)@,
                )
            } else {
                decision == BrokerDecision::Reply(Response::Denied) && final(self)@ == old(self)@
            },
    {
        if peer.address_family != PeerAddressFamily::Local {
            return BrokerDecision::Reply(Response::Denied);
        }
        match EnrollmentOwnerCandidate::new(peer.user_id) {
            Some(candidate) => self.start_operation(
                BIOMETRIC_USER_ID,
                Purpose::Enrollment,
                Some(candidate),
            ),
            None => BrokerDecision::Reply(Response::Denied),
        }
    }

    fn start_operation(
        &mut self,
        biometric_user_id: u32,
        purpose: Purpose,
        enrollment_owner_candidate: Option<EnrollmentOwnerCandidate>,
    ) -> (decision: BrokerDecision)
        ensures
            old(self)@.starts(
                biometric_user_id,
                purpose,
                candidate_id(enrollment_owner_candidate),
                decision,
                final(self)@,
            ),
    {
        match self.start_token() {
            TokenAdmission::Start(token) => BrokerDecision::Start(
                Operation { token, biometric_user_id, purpose, enrollment_owner_candidate },
            ),
            TokenAdmission::Busy => BrokerDecision::Reply(Response::Busy),
            TokenAdmission::Failed => BrokerDecision::Reply(Response::Failure),
        }
    }

    /// Cancels the active operation for a local root peer while the owner's
    /// record cannot be read.
    #[must_use]
    pub fn cancel_without_owner<Deliver: FnOnce(OperationToken) -> bool>(
        &mut self,
        peer: PeerMetadata,
        deliver: Deliver,
    ) -> (decision: BrokerDecision)
        requires
            cancels_as_root(peer) && old(self)@.active is Some ==> deliver.requires(
                (old(self)@.active->0.token,),
            ),
        ensures
            old(self)@.cancels_for(
                peer,
                decision == BrokerDecision::Reply(Response::Okay),
                decision,
                final(self)@,
            ),
            cancels_as_root(peer) && old(self)@.active is Some ==> deliver.ensures(
                (old(self)@.active->0.token,),
                decision == BrokerDecision::Reply(Response::Okay),
            ),
    {
        self.cancel_for_root(peer, deliver)
    }

    fn cancel_for_root<Deliver: FnOnce(OperationToken) -> bool>(
        &mut self,
        peer: PeerMetadata,
        deliver: Deliver,
    ) -> (decision: BrokerDecision)
        requires
            cancels_as_root(peer) && old(self)@.active is Some ==> deliver.requires(
                (old(self)@.active->0.token,),
            ),
        ensures
            old(self)@.cancels_for(
                peer,
                decision == BrokerDecision::Reply(Response::Okay),
                decision,
                final(self)@,
            ),
            cancels_as_root(peer) && old(self)@.active is Some ==> deliver.ensures(
                (old(self)@.active->0.token,),
                decision == BrokerDecision::Reply(Response::Okay),
            ),
    {
        if peer.address_family != PeerAddressFamily::Local || peer.user_id != ROOT_UID {
            return BrokerDecision::Reply(Response::Denied);
        }
        let token = match self.active {
            Some(active) => active.token,
            None => {
                return BrokerDecision::Reply(Response::Denied);
            },
        };
        if self.cancel_token(token, deliver) {
            BrokerDecision::Reply(Response::Okay)
        } else {
            BrokerDecision::Reply(Response::Denied)
        }
    }

    /// Whether a worker holding `token` has to stop.
    #[must_use]
    pub fn is_cancelled(&self, token: OperationToken) -> (r: bool)
        ensures
            r == self@.must_stop(token),
    {
        match self.active {
            Some(active) => active.token != token || active.cancelled,
            None => true,
        }
    }

    /// Cancels exactly the operation whose client went away.
    pub fn client_disconnected<Deliver: FnOnce(OperationToken) -> bool>(
        &mut self,
        token: OperationToken,
        deliver: Deliver,
    ) -> (delivered: bool)
        requires
            old(self)@.is_active(token) ==> deliver.requires((token,)),
        ensures
            delivered ==> old(self)@.is_active(token),
            old(self)@.is_active(token) ==> deliver.ensures((token,), delivered),
            final(self)@ == if delivered {
                old(self)@.with_cancelled(token)
            } else {
                old(self)@
            },
    {
        self.cancel_token(token, deliver)
    }

    /// Ends the operation `token` names. Success is answered to a match that was
    /// not cancelled, and to nothing else; a token that is not active changes
    /// nothing.
    pub fn finish(&mut self, token: OperationToken, result: OperationResult) -> (r: Option<
        Response,
    >)
        ensures
            r == if !old(self)@.is_active(token) {
                None
            } else if !old(self)@.active->0.cancelled && result == OperationResult::Matched {
                Some(Response::Okay)
            } else {
                Some(Response::Failure)
            },
            final(self)@ == if old(self)@.is_active(token) {
                old(self)@.released()
            } else {
                old(self)@
            },
    {
        match self.finish_token(token) {
            Some(cancelled) => Some(
                if !cancelled && result == OperationResult::Matched {
                    Response::Okay
                } else {
                    Response::Failure
                },
            ),
            None => None,
        }
    }

    /// Gives out the next token if no operation is active.
    pub fn start_token(&mut self) -> (admission: TokenAdmission)
        ensures
            old(self)@.admits_token(admission, final(self)@),
    {
        if self.active.is_some() {
            return TokenAdmission::Busy;
        }
        if self.next_token == 0 {
            return TokenAdmission::Failed;
        }
        let token = OperationToken(self.next_token);
        self.next_token = match self.next_token.checked_add(1) {
            Some(next) => next,
            None => 0,
        };
        self.active = Some(ActiveOperation { token, cancelled: false });
        TokenAdmission::Start(token)
    }

    /// Records the cancellation of `token` once it has been delivered.
    pub fn cancel_token<Deliver: FnOnce(OperationToken) -> bool>(
        &mut self,
        token: OperationToken,
        deliver: Deliver,
    ) -> (delivered: bool)
        requires
            old(self)@.is_active(token) ==> deliver.requires((token,)),
        ensures
            delivered ==> old(self)@.is_active(token),
            old(self)@.is_active(token) ==> deliver.ensures((token,), delivered),
            final(self)@ == if delivered {
                old(self)@.with_cancelled(token)
            } else {
                old(self)@
            },
    {
        let active_token = match self.active {
            Some(active) => active.token,
            None => return false,
        };
        if active_token != token {
            return false;
        }
        if !deliver(token) {
            return false;
        }
        self.active = Some(ActiveOperation { token, cancelled: true });
        true
    }

    /// Releases `token` if it is active and says whether it was cancelled.
    pub fn finish_token(&mut self, token: OperationToken) -> (r: Option<bool>)
        ensures
            r == if old(self)@.is_active(token) {
                Some(old(self)@.active->0.cancelled)
            } else {
                None
            },
            final(self)@ == if old(self)@.is_active(token) {
                old(self)@.released()
            } else {
                old(self)@
            },
    {
        match self.active {
            Some(active) => if active.token != token {
                None
            } else {
                self.active = None;
                Some(active.cancelled)
            },
            None => None,
        }
    }

    /// A diagnostic that shows neither token nor credential.
    pub fn diagnostic(&self) -> (text: &'static str)
        ensures
            text@ == match self@.active {
                None => "BrokerState { active: false, cancellation_requested: false, .. }"@,
                Some(active) => if active.cancelled {
                    "BrokerState { active: true, cancellation_requested: true, .. }"@
                } else {
                    "BrokerState { active: true, cancellation_requested: false, .. }"@
                },
            },
    {
        match self.active {
            None => "BrokerState { active: false, cancellation_requested: false, .. }",
            Some(active) => if active.cancelled {
                "BrokerState { active: true, cancellation_requested: true, .. }"
            } else {
                "BrokerState { active: true, cancellation_requested: false, .. }"
            },
        }
    }
}

/// Giving out `token` takes `before` to `after`.
pub open spec fn gives_out(before: BrokerModel, token: OperationToken, after: BrokerModel) -> bool {
    before.active is None && before.next_token != 0 && token.number() == before.next_token && after
        == before.with_started(token)
}

/// Everything that can happen to a broker: a token is given out, the active
/// operation is cancelled, it is released, or nothing changes.
pub open spec fn broker_step(before: BrokerModel, after: BrokerModel) -> bool {
    ||| after == before
    ||| exists|token: OperationToken| gives_out(before, token, after)
    ||| before.active is Some && after == before.with_cancelled(before.active->0.token)
    ||| after == before.released()
}

/// Whatever a packet is answered, the broker takes one step; and it keeps the
/// token order.
pub proof fn law_packets_take_steps(
    before: BrokerModel,
    peer: PeerMetadata,
    policy: AccessPolicy,
    packet: Seq<u8>,
    delivered: bool,
    decision: BrokerDecision,
    after: BrokerModel,
)
    requires
        before.handles(peer, policy, packet, delivered, decision, after),
    ensures
        broker_step(before, after),
        before.well_formed() ==> after.well_formed(),
        decision is Start ==> gives_out(before, decision->Start_0.token, after),
        decision is Reply && decision->Reply_0 != Response::Okay ==> after == before,
{
    if let BrokerDecision::Start(operation) = decision {
        assert(gives_out(before, operation.token, after));
    }
}

/// A peer that the policy does not admit, and a packet that is no request, are
/// denied and change nothing.
pub proof fn law_denial_changes_nothing(
    before: BrokerModel,
    peer: PeerMetadata,
    policy: AccessPolicy,
    packet: Seq<u8>,
    delivered: bool,
    decision: BrokerDecision,
    after: BrokerModel,
)
    requires
        before.handles(peer, policy, packet, delivered, decision, after),
        !policy.admits(peer) || decoded_request(packet) is Err,
    ensures
        decision == BrokerDecision::Reply(Response::Denied),
        after == before,
{
}

/// While an operation is active, no packet starts another one.
pub proof fn law_one_operation_at_a_time(
    before: BrokerModel,
    peer: PeerMetadata,
    policy: AccessPolicy,
    packet: Seq<u8>,
    delivered: bool,
    decision: BrokerDecision,
    after: BrokerModel,
)
    requires
        before.handles(peer, policy, packet, delivered, decision, after),
        before.active is Some,
    ensures
        decision is Reply,
        after.active is Some,
        after.active->0.token == before.active->0.token,
        after.next_token == before.next_token,
{
}

/// Along a run of steps the tokens left never increase.
proof fn lemma_tokens_left_never_increase(run: Seq<BrokerModel>, from: int, to: int)
    requires
        0 <= from <= to < run.len(),
        forall|k: int| 0 <= k < run.len() - 1 ==> #[trigger] broker_step(run[k], run[k + 1]),
    ensures
        run[to].tokens_left() <= run[from].tokens_left(),
    decreases to - from,
{
    if from < to {
        lemma_tokens_left_never_increase(run, from, to - 1);
        assert(broker_step(run[to - 1], run[to - 1 + 1]));
    }
}

/// No token is ever given out twice, however many operations a broker runs.
pub proof fn law_tokens_are_never_reused(
    run: Seq<BrokerModel>,
    i: int,
    j: int,
    first: OperationToken,
    second: OperationToken,
)
    requires
        0 <= i < j < run.len() - 1,
        forall|k: int| 0 <= k < run.len() - 1 ==> #[trigger] broker_step(run[k], run[k + 1]),
        gives_out(run[i], first, run[i + 1]),
        gives_out(run[j], second, run[j + 1]),
    ensures
        first != second,
{
    lemma_tokens_left_never_increase(run, i + 1, j);
}

/// Once every token has been given out and the last operation has ended,
/// nothing starts any more.
pub proof fn law_exhaustion_fails_closed(
    before: BrokerModel,
    peer: PeerMetadata,
    policy: AccessPolicy,
    packet: Seq<u8>,
    delivered: bool,
    decision: BrokerDecision,
    after: BrokerModel,
)
    requires
        before.handles(peer, policy, packet, delivered, decision, after),
        before.tokens_left() == 0,
    ensures
        decision is Reply,
        after.tokens_left() == 0,
{
}

/// What a client asks for.
#[derive(Clone, Copy, Debug, PartialEq, Eq, Structural)]
pub enum ClientPurpose {
    Authenticate,
    Approve,
}

impl ClientPurpose {
    /// The request that serves the purpose.
    pub open spec fn request(self) -> Request {
        match self {
            ClientPurpose::Authenticate => Request::Authenticate,
            ClientPurpose::Approve => Request::Approve,
        }
    }

    /// The packet that serves the purpose.
    pub fn encode_request(self) -> (packet: [u8; 8])
        ensures
            packet@ == self.request().packet(),
    {
        match self {
            ClientPurpose::Authenticate => Request::Authenticate.encode(),
            ClientPurpose::Approve => Request::Approve.encode(),
        }
    }
}

/// Why a client's exchange brought no packet.
#[derive(Clone, Copy, Debug, PartialEq, Eq, Structural)]
pub enum ClientTransportFailure {
    BrokerUnavailable,
    DeadlineExceeded,
    UntrustedEndpoint,
    UntrustedPeer,
    SendFailed,
    ReceiveFailed,
}

/// What a client concludes.
#[derive(Clone, Copy, Debug, PartialEq, Eq, Structural)]
pub enum ClientOutcome {
    Authenticated,
    Failed(ClientFailure),
}

/// Why a client is not authenticated.
#[derive(Clone, Copy, Debug, PartialEq, Eq, Structural)]
pub enum ClientFailure {
    BrokerUnavailable,
    DeadlineExceeded,
    UntrustedEndpoint,
    UntrustedPeer,
    SendFailed,
    ReceiveFailed,
    Denied,
    Busy,
    BrokerFailure,
    InvalidResponse,
}

/// Neither zero nor above the limit.
pub open spec fn timeout_is_bounded(timeout: Duration) -> bool {
    timeout.nanos != 0 && timeout.nanos <= Duration::of_seconds(MAX_MATCH_TIMEOUT_SECS).nanos
}

/// Accepts a match timeout that is neither zero nor above the limit.
pub fn validate_match_timeout(timeout: Duration) -> (r: Result<(), ClientFailure>)
    ensures
        r == if timeout_is_bounded(timeout) {
            Ok::<(), ClientFailure>(())
        } else {
            Err(ClientFailure::DeadlineExceeded)
        },
{
    let limit = Duration::from_secs(MAX_MATCH_TIMEOUT_SECS);
    if timeout.is_zero() || !limit.at_least(timeout) {
        Err(ClientFailure::DeadlineExceeded)
    } else {
        Ok(())
    }
}

/// The whole time a client waits: its match timeout and the setup allowance.
pub fn client_watchdog(timeout: Duration) -> (r: Result<Duration, ClientFailure>)
    ensures
        r is Ok <==> timeout_is_bounded(timeout),
        r matches Ok(watchdog) ==> watchdog.nanos == timeout.nanos + Duration::of_seconds(
            SETUP_ALLOWANCE_SECS,
        ).nanos,
        r matches Err(failure) ==> failure == ClientFailure::DeadlineExceeded,
{
    match validate_match_timeout(timeout) {
        Ok(()) => match timeout.checked_add(Duration::from_secs(SETUP_ALLOWANCE_SECS)) {
            Some(watchdog) => Ok(watchdog),
            None => Err(ClientFailure::DeadlineExceeded),
        },
        Err(failure) => Err(failure),
    }
}

/// The failure a client reports for a failure of the transport.
pub open spec fn reported_failure(failure: ClientTransportFailure) -> ClientFailure {
    match failure {
        ClientTransportFailure::BrokerUnavailable => ClientFailure::BrokerUnavailable,
        ClientTransportFailure::DeadlineExceeded => ClientFailure::DeadlineExceeded,
        ClientTransportFailure::UntrustedEndpoint => ClientFailure::UntrustedEndpoint,
        ClientTransportFailure::UntrustedPeer => ClientFailure::UntrustedPeer,
        ClientTransportFailure::SendFailed => ClientFailure::SendFailed,
        ClientTransportFailure::ReceiveFailed => ClientFailure::ReceiveFailed,
    }
}

/// Authenticates on the exact success packet and on nothing else.
#[must_use]
pub fn evaluate_client_response(result: Result<&[u8], ClientTransportFailure>) -> (outcome:
    ClientOutcome)
    ensures
        outcome == match result {
            Err(failure) => ClientOutcome::Failed(reported_failure(failure)),
            Ok(packet) => match decoded_response(packet@) {
                Err(_) => ClientOutcome::Failed(ClientFailure::InvalidResponse),
                Ok(Response::Okay) => ClientOutcome::Authenticated,
                Ok(Response::Denied) => ClientOutcome::Failed(ClientFailure::Denied),
                Ok(Response::Busy) => ClientOutcome::Failed(ClientFailure::Busy),
                Ok(Response::Failure) => ClientOutcome::Failed(ClientFailure::BrokerFailure),
            },
        },
        outcome == ClientOutcome::Authenticated <==> (result matches Ok(packet) && packet@
            == Response::Okay.packet()),
{
    proof {
        if let Ok(packet) = result {
            law_response_round_trip(packet@, Response::Okay);
        }
    }
    match result {
        Err(failure) => ClientOutcome::Failed(
            match failure {
                ClientTransportFailure::BrokerUnavailable => ClientFailure::BrokerUnavailable,
                ClientTransportFailure::DeadlineExceeded => ClientFailure::DeadlineExceeded,
                ClientTransportFailure::UntrustedEndpoint => ClientFailure::UntrustedEndpoint,
                ClientTransportFailure::UntrustedPeer => ClientFailure::UntrustedPeer,
                ClientTransportFailure::SendFailed => ClientFailure::SendFailed,
                ClientTransportFailure::ReceiveFailed => ClientFailure::ReceiveFailed,
            },
        ),
        Ok(packet) => match decode_response(packet) {
            Err(_) => ClientOutcome::Failed(ClientFailure::InvalidResponse),
            Ok(Response::Okay) => ClientOutcome::Authenticated,
            Ok(Response::Denied) => ClientOutcome::Failed(ClientFailure::Denied),
            Ok(Response::Busy) => ClientOutcome::Failed(ClientFailure::Busy),
            Ok(Response::Failure) => ClientOutcome::Failed(ClientFailure::BrokerFailure),
        },
    }
}

/// What a cancelling client concludes.
#[derive(Clone, Copy, Debug, PartialEq, Eq, Structural)]
pub enum CancellationOutcome {
    Accepted,
    Denied,
}

/// A cancellation counts as accepted on the exact success packet only.
#[must_use]
pub fn evaluate_cancellation_response(result: Result<&[u8], ClientTransportFailure>) -> (outcome:
    CancellationOutcome)
    ensures
        outcome == CancellationOutcome::Accepted <==> (result matches Ok(packet) && packet@
            == Response::Okay.packet()),
{
    proof {
        if let Ok(packet) = result {
            law_response_round_trip(packet@, Response::Okay);
        }
    }
    match result {
        Ok(packet) => match decode_response(packet) {
            Ok(Response::Okay) => CancellationOutcome::Accepted,
            _ => CancellationOutcome::Denied,
        },
        Err(_) => CancellationOutcome::Denied,
    }
}

} // verus!
