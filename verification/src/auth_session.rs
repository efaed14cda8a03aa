//! Authentication broker session coordination.
//!
//! Socket activation, peer-credential acquisition, device I/O, clocks and
//! process lifetimes remain caller-owned. This module joins the broker's
//! authority, cancellation delivery and the product's outcome.

use crate::auth_feedback::{
    apply_authentication_feedback, initial_overlay, initial_overlay_state,
    lemma_nothing_is_presented, outcome_of, presents, AuthenticationFeedback,
};
use crate::auth_protocol::{
    cancels_as_root, AccessPolicy, BrokerDecision, BrokerModel, BrokerState,
    EnrollmentOwnerCandidate, Operation, OperationResult, OperationToken, PeerAddressFamily,
    PeerMetadata, Purpose, Response, BIOMETRIC_USER_ID, ROOT_UID,
};
use crate::biometric::{MatchOutcome, ACM_CONTEXT_EXTERNAL_FORM_SIZE};
use crate::overlay::{CancellationSlot, OverlayState, SlotModel};
use crate::standard_fingerprint_protocol::{MessageModel, ServerMessage, TerminalOutcome};
use crate::standard_operation_authority::{
    AuthorizedStandardOperation, ResolvedStandardOperation, StandardAuthority,
    StandardBrokerDecision,
};
use vstd::prelude::*;

verus! {

/// Result of dispatching one already-framed peer packet.
pub enum SessionDecision {
    /// A fixed response can be returned immediately.
    Reply(Response),
    /// One authenticated operation may be run outside the coordinator borrow.
    Start(ActiveAuthentication),
}

/// Result of dispatching one resolved standard fingerprint operation.
pub enum StandardSessionDecision {
    /// A typed standard response can be returned immediately.
    Reply(ServerMessage),
    /// One standard operation may run outside the coordinator borrow.
    Start(ActiveStandardOperation),
}

/// One operation and the coordinator that admitted it.
#[derive(PartialEq, Eq, Structural)]
pub struct ActiveAuthentication {
    operation: Operation,
    origin: u64,
}

impl ActiveAuthentication {
    /// The admitted operation.
    pub closed spec fn admitted(self) -> Operation {
        self.operation
    }

    /// Identity of the admitting coordinator.
    pub closed spec fn coordinator(self) -> u64 {
        self.origin
    }

    /// The same operation, for a worker.
    pub fn clone_for_worker(&self) -> (r: ActiveAuthentication)
        ensures
            r == *self,
    {
        ActiveAuthentication { operation: self.operation, origin: self.origin }
    }

    /// Binds one worker result to this exact operation.
    pub fn completion_for_worker(
        &self,
        result: Result<MatchOutcome, AuthenticationSessionFailure>,
    ) -> (r: AuthenticationCompletion)
        ensures
            r.belongs(*self),
            r.outcome() == result,
    {
        AuthenticationCompletion { token: self.operation.token, origin: self.origin, result }
    }

    /// The operation's token.
    pub fn token(&self) -> (r: OperationToken)
        ensures
            r == self.admitted().token,
    {
        self.operation.token
    }

    /// The biometric user the operation acts on.
    pub fn biometric_user_id(&self) -> (r: u32)
        ensures
            r == self.admitted().biometric_user_id,
    {
        self.operation.biometric_user_id
    }

    /// Presentation selected by the authenticated request.
    pub fn purpose(&self) -> (r: Purpose)
        ensures
            r == self.admitted().purpose,
    {
        self.operation.purpose
    }

    /// Candidate kernel identity to claim only after successful enrollment.
    pub fn enrollment_owner_candidate(&self) -> (r: Option<EnrollmentOwnerCandidate>)
        ensures
            r == self.admitted().enrollment_owner_candidate,
    {
        self.operation.enrollment_owner_candidate
    }

    /// Initial cosmetic state for this request's presentation.
    pub fn initial_overlay_state(&self) -> (r: OverlayState)
        ensures
            r == initial_overlay(self.admitted().purpose),
    {
        initial_overlay_state(self.operation.purpose)
    }

    /// Whether a cancellation has reached this operation's worker.
    pub fn is_cancelled(&self, coordinator: &BrokerSessionCoordinator) -> (r: bool)
        ensures
            r == coordinator@.has_reached(self.coordinator(), self.admitted().token),
    {
        coordinator.identity == self.origin && coordinator.cancellation.has_reached(
            self.operation.token,
        )
    }

    /// Closes cancellation delivery once the sensor has chosen an authoritative
    /// enrollment result, unless a cancellation has already arrived. A later
    /// cancellation is denied, because it cannot be delivered.
    pub fn close_cancellation(&self, coordinator: &mut BrokerSessionCoordinator) -> (r: bool)
        requires
            old(coordinator)@.well_formed(),
        ensures
            final(coordinator)@.well_formed(),
            old(coordinator)@.closes(
                self.coordinator(),
                self.admitted().token,
                r,
                final(coordinator)@,
            ),
    {
        coordinator.identity == self.origin && coordinator.cancellation.close(self.operation.token)
    }

    /// Withdraws this operation from cancellation delivery.
    pub fn clear_delivery(&self, coordinator: &mut BrokerSessionCoordinator)
        requires
            old(coordinator)@.well_formed(),
        ensures
            final(coordinator)@.well_formed(),
            final(coordinator)@ == if old(coordinator)@.identity == self.coordinator() {
                old(coordinator)@.cleared(self.admitted().token)
            } else {
                old(coordinator)@
            },
    {
        if coordinator.identity == self.origin {
            coordinator.cancellation.clear(self.operation.token);
        }
    }
}

/// One exact standard operation and the coordinator that admitted it.
#[derive(PartialEq, Eq)]
pub struct ActiveStandardOperation {
    operation: AuthorizedStandardOperation,
    origin: u64,
}

impl ActiveStandardOperation {
    /// The admitted operation.
    pub closed spec fn admitted(self) -> AuthorizedStandardOperation {
        self.operation
    }

    /// Identity of the admitting coordinator.
    pub closed spec fn coordinator(self) -> u64 {
        self.origin
    }

    /// The same authority and payload, for a worker.
    pub fn clone_for_worker(&self) -> (r: ActiveStandardOperation)
        ensures
            r == *self,
    {
        ActiveStandardOperation {
            operation: self.operation.clone_for_worker(),
            origin: self.origin,
        }
    }

    /// Binds one worker result to this exact operation. A message that cannot
    /// end an operation counts as an error.
    pub fn completion_for_worker(&self, result: ServerMessage) -> (r: StandardCompletion)
        ensures
            r.belongs(*self),
            r.outcome() == if result@.ends_operation() {
                result@
            } else {
                MessageModel::error()
            },
    {
        StandardCompletion::new(self, result)
    }

    /// Exact authority and payload bound at broker admission.
    pub fn operation(&self) -> (r: &AuthorizedStandardOperation)
        ensures
            *r == self.admitted(),
    {
        &self.operation
    }

    /// Whether a cancellation has reached this operation's worker.
    pub fn is_cancelled(&self, coordinator: &BrokerSessionCoordinator) -> (r: bool)
        ensures
            r == coordinator@.has_reached(self.coordinator(), self.admitted().token),
    {
        coordinator.identity == self.origin && coordinator.cancellation.has_reached(
            self.operation.token,
        )
    }

    /// Closes cancellation delivery at an authoritative mutation cutoff, unless
    /// a cancellation has already arrived.
    pub fn close_cancellation(&self, coordinator: &mut BrokerSessionCoordinator) -> (r: bool)
        requires
            old(coordinator)@.well_formed(),
        ensures
            final(coordinator)@.well_formed(),
            old(coordinator)@.closes(
                self.coordinator(),
                self.admitted().token,
                r,
                final(coordinator)@,
            ),
    {
        coordinator.identity == self.origin && coordinator.cancellation.close(self.operation.token)
    }
}

/// Static, payload-free authentication session failure.
#[derive(Clone, Copy, Debug, PartialEq, Eq, Structural)]
pub enum AuthenticationSessionFailure {
    InvalidOperationUser,
    RelayInactive,
    RelayHealth,
    RelayStop,
    ExclusiveSepAndAcm,
    RelayRecovery,
    InvalidCredential,
    Operation,
}

impl AuthenticationSessionFailure {
    /// The message, as text.
    pub open spec fn text(self) -> Seq<char> {
        match self {
            AuthenticationSessionFailure::InvalidOperationUser => "broker operation user is invalid"@,
            AuthenticationSessionFailure::RelayInactive => "keybag relay is inactive"@,
            AuthenticationSessionFailure::RelayHealth => "keybag relay health check failed"@,
            AuthenticationSessionFailure::RelayStop => "keybag relay stop failed"@,
            AuthenticationSessionFailure::ExclusiveSepAndAcm => "exclusive SEP or ACM lease failed"@,
            AuthenticationSessionFailure::RelayRecovery => "keybag relay recovery failed"@,
            AuthenticationSessionFailure::InvalidCredential => "ACM lease returned an invalid credential"@,
            AuthenticationSessionFailure::Operation => "authentication operation failed"@,
        }
    }

    /// A fixed message.
    pub fn message(self) -> (message: &'static str)
        ensures
            message@ == self.text(),
    {
        match self {
            AuthenticationSessionFailure::InvalidOperationUser => "broker operation user is invalid",
            AuthenticationSessionFailure::RelayInactive => "keybag relay is inactive",
            AuthenticationSessionFailure::RelayHealth => "keybag relay health check failed",
            AuthenticationSessionFailure::RelayStop => "keybag relay stop failed",
            AuthenticationSessionFailure::ExclusiveSepAndAcm => "exclusive SEP or ACM lease failed",
            AuthenticationSessionFailure::RelayRecovery => "keybag relay recovery failed",
            AuthenticationSessionFailure::InvalidCredential => "ACM lease returned an invalid credential",
            AuthenticationSessionFailure::Operation => "authentication operation failed",
        }
    }
}

/// Completed product work awaiting an exact token-associated broker response.
pub struct AuthenticationCompletion {
    token: OperationToken,
    origin: u64,
    result: Result<MatchOutcome, AuthenticationSessionFailure>,
}

impl AuthenticationCompletion {
    /// The operation's token.
    pub closed spec fn completed(self) -> OperationToken {
        self.token
    }

    /// Identity of the coordinator that admitted the operation.
    pub closed spec fn coordinator(self) -> u64 {
        self.origin
    }

    /// The product's result.
    pub closed spec fn outcome(self) -> Result<MatchOutcome, AuthenticationSessionFailure> {
        self.result
    }

    /// Whether this completes exactly `active`.
    pub open spec fn belongs(self, active: ActiveAuthentication) -> bool {
        self.completed() == active.admitted().token && self.coordinator() == active.coordinator()
    }

    /// Typed biometric outcome or static redacted failure.
    pub fn result(&self) -> (r: Result<MatchOutcome, AuthenticationSessionFailure>)
        ensures
            r == self.outcome(),
    {
        self.result
    }

    /// Whether this completes exactly `active`.
    pub fn belongs_to(&self, active: &ActiveAuthentication) -> (r: bool)
        ensures
            r == self.belongs(*active),
    {
        self.token == active.operation.token && self.origin == active.origin
    }
}

/// Completed standard work awaiting exact token-associated finalization.
pub struct StandardCompletion {
    token: OperationToken,
    origin: u64,
    result: ServerMessage,
}

impl StandardCompletion {
    /// The operation's token.
    pub closed spec fn completed(self) -> OperationToken {
        self.token
    }

    /// Identity of the coordinator that admitted the operation.
    pub closed spec fn coordinator(self) -> u64 {
        self.origin
    }

    /// The worker's result.
    pub closed spec fn outcome(self) -> MessageModel {
        self.result@
    }

    /// Whether this completes exactly `active`.
    pub open spec fn belongs(self, active: ActiveStandardOperation) -> bool {
        self.completed() == active.admitted().token && self.coordinator() == active.coordinator()
    }

    /// Terminal or identity-list result selected by the standard worker.
    pub fn result(&self) -> (r: &ServerMessage)
        ensures
            r@ == self.outcome(),
    {
        &self.result
    }

    /// Whether this completes exactly `active`.
    pub fn belongs_to(&self, active: &ActiveStandardOperation) -> (r: bool)
        ensures
            r == self.belongs(*active),
    {
        self.token == active.operation.token && self.origin == active.origin
    }

    fn new(active: &ActiveStandardOperation, result: ServerMessage) -> (r: StandardCompletion)
        ensures
            r.belongs(*active),
            r.outcome() == if result@.ends_operation() {
                result@
            } else {
                MessageModel::error()
            },
    {
        let ends = matches!(result, ServerMessage::IdentityList { .. } | ServerMessage::Terminal(_));
        let result = if ends {
            result
        } else {
            ServerMessage::error()
        };
        StandardCompletion { token: active.operation.token, origin: active.origin, result }
    }
}

/// Single-authority broker state plus token-associated cancellation delivery.
pub struct BrokerSessionCoordinator {
    identity: u64,
    state: BrokerState,
    cancellation: CancellationSlot,
}

/// A coordinator as the contracts see it.
pub struct CoordinatorModel {
    pub identity: u64,
    pub broker: BrokerModel,
    pub slot: SlotModel,
}

impl CoordinatorModel {
    /// A fresh coordinator.
    pub open spec fn initial(identity: u64) -> CoordinatorModel {
        CoordinatorModel { identity, broker: BrokerModel::initial(), slot: SlotModel::empty() }
    }

    /// Kept by every operation: only the active operation is registered for
    /// delivery, a cancellation has reached the active operation's worker exactly
    /// where the broker has recorded it, and cancellations only ever reached
    /// operations that had been given a token.
    pub open spec fn well_formed(self) -> bool {
        &&& self.broker.well_formed()
        &&& self.slot.registered matches Some(token) ==> self.broker.is_active(token)
        &&& self.broker.active matches Some(active) ==> (active.cancelled
            <==> self.slot.delivered.contains(active.token))
        &&& forall|token: OperationToken| #[trigger]
            self.slot.delivered.contains(token) ==> token.number() != 0 && (self.broker.next_token
                == 0 || token.number() < self.broker.next_token)
    }

    /// Whether a cancellation of the active operation can be delivered.
    pub open spec fn can_deliver(self) -> bool {
        self.broker.active matches Some(active) && self.slot.registered == Some(active.token)
    }

    /// Whether a cancellation has reached the worker of the operation that
    /// `origin` admitted under `token`.
    pub open spec fn has_reached(self, origin: u64, token: OperationToken) -> bool {
        self.identity == origin && self.slot.delivered.contains(token)
    }

    /// The coordinator with `token` withdrawn from delivery.
    pub open spec fn cleared(self, token: OperationToken) -> CoordinatorModel {
        CoordinatorModel { slot: self.slot.without(token), ..self }
    }

    /// The coordinator after `token` was cancelled.
    pub open spec fn with_cancelled(self, token: OperationToken) -> CoordinatorModel {
        CoordinatorModel {
            broker: self.broker.with_cancelled(token),
            slot: self.slot.with_delivered(token),
            ..self
        }
    }

    /// The coordinator after the operation `token` was started.
    pub open spec fn with_started(self, token: OperationToken) -> CoordinatorModel {
        CoordinatorModel {
            broker: self.broker.with_started(token),
            slot: SlotModel { registered: Some(token), ..self.slot },
            ..self
        }
    }

    /// The coordinator after the operation `token` was released, if it was
    /// active.
    pub open spec fn with_released(self, token: OperationToken) -> CoordinatorModel {
        CoordinatorModel {
            broker: if self.broker.is_active(token) {
                self.broker.released()
            } else {
                self.broker
            },
            slot: self.slot.without(token),
            ..self
        }
    }

    /// What one packet gives, and the coordinator afterwards.
    pub open spec fn dispatches(
        self,
        peer: PeerMetadata,
        policy: AccessPolicy,
        packet: Seq<u8>,
        decision: SessionDecision,
        after: CoordinatorModel,
    ) -> bool {
        match decision {
            SessionDecision::Start(active) => {
                &&& active.coordinator() == self.identity
                &&& self.broker.handles(
                    peer,
                    policy,
                    packet,
                    self.can_deliver(),
                    BrokerDecision::Start(active.admitted()),
                    after.broker,
                )
                &&& after == self.with_started(active.admitted().token)
            },
            SessionDecision::Reply(response) => {
                &&& self.broker.handles(
                    peer,
                    policy,
                    packet,
                    self.can_deliver(),
                    BrokerDecision::Reply(response),
                    after.broker,
                )
                &&& after == if response == Response::Okay {
                    self.with_cancelled(self.broker.active->0.token)
                } else {
                    self
                }
            },
        }
    }

    /// What starting an enrollment without a recorded owner gives.
    pub open spec fn enrolls_without_owner(
        self,
        peer: PeerMetadata,
        decision: SessionDecision,
        after: CoordinatorModel,
    ) -> bool {
        if peer.address_family == PeerAddressFamily::Local && peer.user_id != ROOT_UID {
            match decision {
                SessionDecision::Start(active) => {
                    &&& active.coordinator() == self.identity
                    &&& self.broker.starts(
                        BIOMETRIC_USER_ID,
                        Purpose::Enrollment,
                        Some(peer.user_id),
                        BrokerDecision::Start(active.admitted()),
                        after.broker,
                    )
                    &&& after == self.with_started(active.admitted().token)
                },
                SessionDecision::Reply(response) => {
                    &&& self.broker.starts(
                        BIOMETRIC_USER_ID,
                        Purpose::Enrollment,
                        Some(peer.user_id),
                        BrokerDecision::Reply(response),
                        after.broker,
                    )
                    &&& after == self
                },
            }
        } else {
            decision == SessionDecision::Reply(Response::Denied) && after == self
        }
    }

    /// What a judged standard operation gives, and the coordinator afterwards.
    pub open spec fn dispatches_standard(
        self,
        authority: StandardAuthority,
        operation: ResolvedStandardOperation,
        decision: StandardSessionDecision,
        after: CoordinatorModel,
    ) -> bool {
        match authority {
            StandardAuthority::Refused(message) => decision == StandardSessionDecision::Reply(
                message,
            ) && after == self,
            StandardAuthority::Granted => match decision {
                StandardSessionDecision::Start(active) => {
                    &&& active.coordinator() == self.identity
                    &&& self.broker.starts_standard(
                        operation,
                        StandardBrokerDecision::Start(active.admitted()),
                        after.broker,
                    )
                    &&& after == self.with_started(active.admitted().token)
                },
                StandardSessionDecision::Reply(message) => {
                    &&& self.broker.starts_standard(
                        operation,
                        StandardBrokerDecision::Reply(message),
                        after.broker,
                    )
                    &&& after == self
                },
            },
        }
    }

    /// What cancelling the operation that `origin` admitted under `token` gives.
    pub open spec fn cancels(
        self,
        origin: u64,
        token: OperationToken,
        delivered: bool,
        after: CoordinatorModel,
    ) -> bool {
        &&& delivered == (origin == self.identity && self.broker.is_active(token)
            && self.can_deliver())
        &&& after == if delivered {
            self.with_cancelled(token)
        } else {
            self
        }
    }

    /// What closing delivery for the operation that `origin` admitted under
    /// `token` gives.
    pub open spec fn closes(
        self,
        origin: u64,
        token: OperationToken,
        closed: bool,
        after: CoordinatorModel,
    ) -> bool {
        &&& closed == (origin == self.identity && self.slot.registered == Some(token)
            && !self.slot.delivered.contains(token))
        &&& after == if closed {
            self.cleared(token)
        } else {
            self
        }
    }

    /// The response to the completion of `token`, which `origin` admitted.
    pub open spec fn response_to(
        self,
        origin: u64,
        token: OperationToken,
        result: Result<MatchOutcome, AuthenticationSessionFailure>,
    ) -> Response {
        if origin == self.identity && !self.broker.must_stop(token) && result == Ok::<
            MatchOutcome,
            AuthenticationSessionFailure,
        >(MatchOutcome::Matched) {
            Response::Okay
        } else {
            Response::Failure
        }
    }

    /// The response to the standard completion of `token`, which `origin`
    /// admitted.
    pub open spec fn message_to(
        self,
        origin: u64,
        token: OperationToken,
        result: MessageModel,
    ) -> MessageModel {
        if origin != self.identity || !self.broker.is_active(token) {
            MessageModel::error()
        } else if self.broker.active->0.cancelled {
            MessageModel::Terminal(TerminalOutcome::Cancelled)
        } else {
            result
        }
    }

    /// What feedback may show of a completion: its outcome where the operation is
    /// active here and not cancelled, and nothing of a stale, foreign or cancelled
    /// one.
    pub open spec fn shown(self, completion: AuthenticationCompletion) -> Option<MatchOutcome> {
        if completion.coordinator() == self.identity && !self.broker.must_stop(
            completion.completed(),
        ) {
            outcome_of(completion.outcome())
        } else {
            None
        }
    }

    /// The coordinator after `token`, which `origin` admitted, has ended.
    pub open spec fn after_end(self, origin: u64, token: OperationToken) -> CoordinatorModel {
        if origin == self.identity {
            self.with_released(token)
        } else {
            self
        }
    }
}

impl View for BrokerSessionCoordinator {
    type V = CoordinatorModel;

    closed spec fn view(&self) -> CoordinatorModel {
        CoordinatorModel {
            identity: self.identity,
            broker: self.state@,
            slot: self.cancellation@,
        }
    }
}

impl BrokerSessionCoordinator {
    /// A fresh coordinator. `identity` tells it from every other coordinator of
    /// the process, so that a handle of one cannot act on another.
    pub fn new(identity: u64) -> (r: BrokerSessionCoordinator)
        ensures
            r@ == CoordinatorModel::initial(identity),
            r@.well_formed(),
    {
        BrokerSessionCoordinator {
            identity,
            state: BrokerState::default(),
            cancellation: CancellationSlot::new(),
        }
    }

    /// Authorizes and dispatches one exact packet.
    ///
    /// Unauthorized or malformed requests are denied before an operation is
    /// created. A cancellation is acknowledged only when it has been delivered
    /// to the active operation's worker.
    pub fn dispatch(&mut self, peer: PeerMetadata, policy: AccessPolicy, packet: &[u8]) -> (decision:
        SessionDecision)
        requires
            old(self)@.well_formed(),
        ensures
            final(self)@.well_formed(),
            old(self)@.dispatches(peer, policy, packet@, decision, final(self)@),
    {
        let registered = self.cancellation.registered();
        let reachable = |token: OperationToken| -> (delivered: bool)
            ensures
                delivered == (registered == Some(token)),
            {
                match registered {
                    Some(target) => target == token,
                    None => false,
                }
            };
        let decision = self.state.handle_packet_with_cancellation(peer, policy, packet, reachable);
        if let BrokerDecision::Reply(response) = decision {
            if response == Response::Okay {
                if let Some(target) = registered {
                    let _ = self.cancellation.deliver(target);
                }
            }
        }
        self.install_decision(decision)
    }

    /// Starts an already-decoded enrollment for a validated local non-root peer
    /// only when durable owner state is authoritatively missing.
    pub fn enroll_without_owner(&mut self, peer: PeerMetadata) -> (decision: SessionDecision)
        requires
            old(self)@.well_formed(),
        ensures
            final(self)@.well_formed(),
            old(self)@.enrolls_without_owner(peer, decision, final(self)@),
    {
        let decision = self.state.enroll_without_owner(peer);
        self.install_decision(decision)
    }

    /// Installs one standard operation that the account authority has judged, on
    /// the same broker token and cancellation slot as every other request.
    pub fn dispatch_standard(
        &mut self,
        authority: StandardAuthority,
        operation: ResolvedStandardOperation,
    ) -> (decision: StandardSessionDecision)
        requires
            old(self)@.well_formed(),
        ensures
            final(self)@.well_formed(),
            old(self)@.dispatches_standard(authority, operation, decision, final(self)@),
    {
        let decision = self.state.dispatch_standard(authority, operation);
        self.install_standard_decision(decision)
    }

    fn install_decision(&mut self, decision: BrokerDecision) -> (r: SessionDecision)
        ensures
            final(self)@.identity == old(self)@.identity,
            match decision {
                BrokerDecision::Reply(response) => r == SessionDecision::Reply(response)
                    && final(self)@ == old(self)@,
                BrokerDecision::Start(operation) => if old(self)@.slot.registered is None {
                    r matches SessionDecision::Start(active) && active.admitted() == operation
                        && active.coordinator() == old(self)@.identity && final(self)@
                        == (CoordinatorModel {
                        slot: SlotModel { registered: Some(operation.token), ..old(self)@.slot },
                        ..old(self)@
                    })
                } else {
                    r == SessionDecision::Reply(Response::Failure) && final(self)@
                        == (CoordinatorModel {
                        broker: if old(self)@.broker.is_active(operation.token) {
                            old(self)@.broker.released()
                        } else {
                            old(self)@.broker
                        },
                        ..old(self)@
                    })
                },
            },
    {
        match decision {
            BrokerDecision::Reply(response) => SessionDecision::Reply(response),
            BrokerDecision::Start(operation) => {
                if self.cancellation.install(operation.token).is_err() {
                    let _ = self.state.finish(operation.token, OperationResult::Failed);
                    return SessionDecision::Reply(Response::Failure);
                }
                SessionDecision::Start(ActiveAuthentication { operation, origin: self.identity })
            },
        }
    }

    fn install_standard_decision(&mut self, decision: StandardBrokerDecision) -> (r:
        StandardSessionDecision)
        ensures
            final(self)@.identity == old(self)@.identity,
            match decision {
                StandardBrokerDecision::Reply(message) => r == StandardSessionDecision::Reply(
                    message,
                ) && final(self)@ == old(self)@,
                StandardBrokerDecision::Start(operation) => if old(self)@.slot.registered is None {
                    r matches StandardSessionDecision::Start(active) && active.admitted()
                        == operation && active.coordinator() == old(self)@.identity && final(self)@ == (CoordinatorModel {
                        slot: SlotModel { registered: Some(operation.token), ..old(self)@.slot },
                        ..old(self)@
                    })
                } else {
                    r is Reply && final(self)@ == (CoordinatorModel {
                        broker: if old(self)@.broker.is_active(operation.token) {
                            old(self)@.broker.released()
                        } else {
                            old(self)@.broker
                        },
                        ..old(self)@
                    })
                },
            },
    {
        match decision {
            StandardBrokerDecision::Reply(message) => StandardSessionDecision::Reply(message),
            StandardBrokerDecision::Start(operation) => {
                if self.cancellation.install(operation.token).is_err() {
                    let message = match self.state.finish_standard(
                        &operation,
                        ServerMessage::error(),
                    ) {
                        Some(message) => message,
                        None => ServerMessage::error(),
                    };
                    return StandardSessionDecision::Reply(message);
                }
                StandardSessionDecision::Start(
                    ActiveStandardOperation { operation, origin: self.identity },
                )
            },
        }
    }

    /// Delivers one root cancellation without requiring enrollment-owner
    /// storage to remain readable after the operation started.
    pub fn cancel_without_owner(&mut self, peer: PeerMetadata) -> (response: Response)
        requires
            old(self)@.well_formed(),
        ensures
            final(self)@.well_formed(),
            response == if cancels_as_root(peer) && old(self)@.can_deliver() {
                Response::Okay
            } else {
                Response::Denied
            },
            final(self)@ == if response == Response::Okay {
                old(self)@.with_cancelled(old(self)@.broker.active->0.token)
            } else {
                old(self)@
            },
    {
        let registered = self.cancellation.registered();
        let reachable = |token: OperationToken| -> (delivered: bool)
            ensures
                delivered == (registered == Some(token)),
            {
                match registered {
                    Some(target) => target == token,
                    None => false,
                }
            };
        match self.state.cancel_without_owner(peer, reachable) {
            BrokerDecision::Reply(response) => {
                if response == Response::Okay {
                    if let Some(target) = registered {
                        let _ = self.cancellation.deliver(target);
                    }
                }
                response
            },
            BrokerDecision::Start(_) => Response::Denied,
        }
    }

    fn cancel(&mut self, origin: u64, token: OperationToken) -> (delivered: bool)
        requires
            old(self)@.well_formed(),
        ensures
            final(self)@.well_formed(),
            old(self)@.cancels(origin, token, delivered, final(self)@),
    {
        if origin != self.identity {
            return false;
        }
        let registered = self.cancellation.registered();
        let reachable = |token: OperationToken| -> (delivered: bool)
            ensures
                delivered == (registered == Some(token)),
            {
                match registered {
                    Some(target) => target == token,
                    None => false,
                }
            };
        let delivered = self.state.client_disconnected(token, reachable);
        if delivered {
            let _ = self.cancellation.deliver(token);
        }
        delivered
    }

    /// Delivers disconnect cancellation for exactly this active token. A stale
    /// handle or failed delivery leaves a newer operation untouched.
    pub fn client_disconnected(&mut self, active: &ActiveAuthentication) -> (delivered: bool)
        requires
            old(self)@.well_formed(),
        ensures
            final(self)@.well_formed(),
            old(self)@.cancels(
                active.coordinator(),
                active.admitted().token,
                delivered,
                final(self)@,
            ),
    {
        self.cancel(active.origin, active.operation.token)
    }

    /// Delivers same-connection cancellation to one exact standard operation.
    pub fn cancel_standard(&mut self, active: &ActiveStandardOperation) -> (delivered: bool)
        requires
            old(self)@.well_formed(),
        ensures
            final(self)@.well_formed(),
            old(self)@.cancels(
                active.coordinator(),
                active.admitted().token,
                delivered,
                final(self)@,
            ),
    {
        self.cancel(active.origin, active.operation.token)
    }

    /// Delivers disconnect cancellation to one exact standard operation.
    pub fn standard_client_disconnected(&mut self, active: &ActiveStandardOperation) -> (delivered:
        bool)
        requires
            old(self)@.well_formed(),
        ensures
            final(self)@.well_formed(),
            old(self)@.cancels(
                active.coordinator(),
                active.admitted().token,
                delivered,
                final(self)@,
            ),
    {
        self.cancel(active.origin, active.operation.token)
    }

    /// Commits one completed operation to the exact broker response. A delivered
    /// cancellation wins over a later match; a stale completion fails and cannot
    /// finish a newer operation.
    pub fn finish(&mut self, completion: &AuthenticationCompletion) -> (response: Response)
        requires
            old(self)@.well_formed(),
        ensures
            final(self)@.well_formed(),
            response == old(self)@.response_to(
                completion.coordinator(),
                completion.completed(),
                completion.outcome(),
            ),
            final(self)@ == old(self)@.after_end(completion.coordinator(), completion.completed()),
    {
        self.finalize(completion).0
    }

    /// Commits a completion only when it belongs to the named socket session.
    pub fn finish_for(
        &mut self,
        active: &ActiveAuthentication,
        completion: &AuthenticationCompletion,
    ) -> (response: Response)
        requires
            old(self)@.well_formed(),
        ensures
            final(self)@.well_formed(),
            response == if completion.belongs(*active) {
                old(self)@.response_to(
                    completion.coordinator(),
                    completion.completed(),
                    completion.outcome(),
                )
            } else {
                Response::Failure
            },
            final(self)@ == if completion.belongs(*active) {
                old(self)@.after_end(completion.coordinator(), completion.completed())
            } else {
                old(self)@
            },
    {
        if active.origin != self.identity || !completion.belongs_to(active) {
            return Response::Failure;
        }
        self.finish(completion)
    }

    /// Finalizes one standard completion only for its exact active connection.
    pub fn finish_standard(
        &mut self,
        active: &ActiveStandardOperation,
        completion: &StandardCompletion,
    ) -> (message: ServerMessage)
        requires
            old(self)@.well_formed(),
        ensures
            final(self)@.well_formed(),
            message@ == if completion.belongs(*active) {
                old(self)@.message_to(
                    active.coordinator(),
                    active.admitted().token,
                    completion.outcome(),
                )
            } else {
                MessageModel::error()
            },
            final(self)@ == if completion.belongs(*active) {
                old(self)@.after_end(active.coordinator(), active.admitted().token)
            } else {
                old(self)@
            },
    {
        if active.origin != self.identity || !completion.belongs_to(active) {
            return ServerMessage::error();
        }
        self.cancellation.clear(active.operation.token);
        match self.state.finish_standard(&active.operation, completion.result.duplicate()) {
            Some(message) => message,
            None => ServerMessage::error(),
        }
    }

    /// Finalizes one exact token and then applies best-effort cosmetic feedback.
    /// Stale and cancelled completions emit none.
    pub fn finish_with_feedback<Feedback: AuthenticationFeedback>(
        &mut self,
        completion: &AuthenticationCompletion,
        feedback: Option<&mut Feedback>,
    ) -> (response: Response)
        requires
            old(self)@.well_formed(),
        ensures
            final(self)@.well_formed(),
            response == old(self)@.response_to(
                completion.coordinator(),
                completion.completed(),
                completion.outcome(),
            ),
            final(self)@ == old(self)@.after_end(completion.coordinator(), completion.completed()),
            match feedback {
                Some(presentation) => presents(
                    old(self)@.shown(*completion),
                    presentation.offered(),
                    final(presentation).offered(),
                ),
                None => true,
            },
    {
        let (response, authoritative) = self.finalize(completion);
        if authoritative {
            let _ = apply_authentication_feedback(completion.result, feedback);
        } else {
            proof {
                if let Some(presentation) = feedback {
                    lemma_nothing_is_presented(presentation.offered());
                }
            }
        }
        response
    }

    /// Ends the completed operation and says whether its result is
    /// authoritative, that is, whether feedback may show it: the operation was
    /// active and not cancelled.
    pub fn finalize(&mut self, completion: &AuthenticationCompletion) -> (r: (Response, bool))
        requires
            old(self)@.well_formed(),
        ensures
            final(self)@.well_formed(),
            r.0 == old(self)@.response_to(
                completion.coordinator(),
                completion.completed(),
                completion.outcome(),
            ),
            r.1 == (completion.coordinator() == old(self)@.identity && !old(self)@.broker.must_stop(completion.completed())),
            final(self)@ == old(self)@.after_end(completion.coordinator(), completion.completed()),
    {
        if completion.origin != self.identity {
            return (Response::Failure, false);
        }
        self.cancellation.clear(completion.token);
        let cancelled = self.state.is_cancelled(completion.token);
        let result = match completion.result {
            Ok(MatchOutcome::Matched) => OperationResult::Matched,
            Ok(MatchOutcome::NoMatch) => OperationResult::NoMatch,
            Ok(MatchOutcome::Cancelled) => OperationResult::Cancelled,
            Ok(MatchOutcome::TimedOut) => OperationResult::Unavailable,
            Err(_) => OperationResult::Failed,
        };
        match self.state.finish(completion.token, result) {
            Some(response) => (response, !cancelled),
            None => (Response::Failure, false),
        }
    }

    /// Fails and releases an operation that cannot be handed to a worker.
    pub fn abandon(&mut self, active: &ActiveAuthentication) -> (response: Response)
        requires
            old(self)@.well_formed(),
        ensures
            final(self)@.well_formed(),
            response == Response::Failure,
            final(self)@ == old(self)@.after_end(active.coordinator(), active.admitted().token),
    {
        if active.origin != self.identity {
            return Response::Failure;
        }
        self.cancellation.clear(active.operation.token);
        match self.state.finish(active.operation.token, OperationResult::Failed) {
            Some(response) => response,
            None => Response::Failure,
        }
    }

    /// Fails and releases standard work that could not reach a worker.
    pub fn abandon_standard(&mut self, active: &ActiveStandardOperation) -> (message: ServerMessage)
        requires
            old(self)@.well_formed(),
        ensures
            final(self)@.well_formed(),
            message@ == old(self)@.message_to(
                active.coordinator(),
                active.admitted().token,
                MessageModel::error(),
            ),
            final(self)@ == old(self)@.after_end(active.coordinator(), active.admitted().token),
    {
        if active.origin != self.identity {
            return ServerMessage::error();
        }
        self.cancellation.clear(active.operation.token);
        match self.state.finish_standard(&active.operation, ServerMessage::error()) {
            Some(message) => message,
            None => ServerMessage::error(),
        }
    }
}

/// A fresh operation starts uncancelled, and a cancellation can reach it.
pub proof fn law_fresh_operation_is_not_cancelled(
    before: CoordinatorModel,
    peer: PeerMetadata,
    policy: AccessPolicy,
    packet: Seq<u8>,
    active: ActiveAuthentication,
    after: CoordinatorModel,
)
    requires
        before.well_formed(),
        before.dispatches(peer, policy, packet, SessionDecision::Start(active), after),
    ensures
        !after.has_reached(active.coordinator(), active.admitted().token),
        !after.broker.must_stop(active.admitted().token),
        after.can_deliver(),
{
}

/// An acknowledged cancellation has reached the active operation's worker.
pub proof fn law_acknowledged_cancellation_reaches_the_worker(
    before: CoordinatorModel,
    peer: PeerMetadata,
    policy: AccessPolicy,
    packet: Seq<u8>,
    after: CoordinatorModel,
)
    requires
        before.well_formed(),
        before.dispatches(peer, policy, packet, SessionDecision::Reply(Response::Okay), after),
    ensures
        before.broker.active is Some,
        after.has_reached(before.identity, before.broker.active->0.token),
        after.broker.must_stop(before.broker.active->0.token),
{
}

/// A cancellation that reached an operation beats whatever its worker reports.
pub proof fn law_cancellation_beats_every_result(
    coordinator: CoordinatorModel,
    token: OperationToken,
    result: Result<MatchOutcome, AuthenticationSessionFailure>,
    message: MessageModel,
)
    requires
        coordinator.well_formed(),
        coordinator.broker.is_active(token),
        coordinator.has_reached(coordinator.identity, token),
    ensures
        coordinator.response_to(coordinator.identity, token, result) == Response::Failure,
        coordinator.message_to(coordinator.identity, token, message) == MessageModel::Terminal(
            TerminalOutcome::Cancelled,
        ),
{
}

/// Success is answered to a match of the active, uncancelled operation of this
/// coordinator, and to nothing else.
pub proof fn law_only_an_uncancelled_match_succeeds(
    coordinator: CoordinatorModel,
    origin: u64,
    token: OperationToken,
    result: Result<MatchOutcome, AuthenticationSessionFailure>,
)
    requires
        coordinator.well_formed(),
    ensures
        coordinator.response_to(origin, token, result) == Response::Okay <==> (origin
            == coordinator.identity && coordinator.broker.is_active(token)
            && !coordinator.has_reached(origin, token) && result == Ok::<
            MatchOutcome,
            AuthenticationSessionFailure,
        >(MatchOutcome::Matched)),
{
}

/// Repeating a delivered cancellation succeeds again and changes nothing more.
pub proof fn law_cancellation_is_idempotent(
    before: CoordinatorModel,
    origin: u64,
    token: OperationToken,
    once: CoordinatorModel,
    delivered: bool,
    twice: CoordinatorModel,
)
    requires
        before.well_formed(),
        before.cancels(origin, token, true, once),
        once.cancels(origin, token, delivered, twice),
    ensures
        delivered,
        twice == once,
{
    assert(once.slot.delivered.insert(token) =~= once.slot.delivered);
}

/// Once delivery is closed, no cancellation of the operation is accepted.
pub proof fn law_closed_delivery_refuses_cancellation(
    before: CoordinatorModel,
    origin: u64,
    token: OperationToken,
    closed: CoordinatorModel,
    delivered: bool,
    after: CoordinatorModel,
)
    requires
        before.well_formed(),
        before.closes(origin, token, true, closed),
        closed.cancels(origin, token, delivered, after),
    ensures
        !closed.can_deliver(),
        !delivered,
        after == closed,
        !after.has_reached(origin, token),
{
}

/// Delivery cannot be closed behind a cancellation that has already arrived.
pub proof fn law_delivered_cancellation_prevents_closing(
    before: CoordinatorModel,
    origin: u64,
    token: OperationToken,
    cancelled: CoordinatorModel,
    closed: bool,
    after: CoordinatorModel,
)
    requires
        before.well_formed(),
        before.cancels(origin, token, true, cancelled),
        cancelled.closes(origin, token, closed, after),
    ensures
        !closed,
        after == cancelled,
{
}

/// A handle of another coordinator, or of an operation that is no longer
/// active, changes nothing and succeeds at nothing.
pub proof fn law_foreign_and_stale_handles_change_nothing(
    coordinator: CoordinatorModel,
    origin: u64,
    token: OperationToken,
    delivered: bool,
    after: CoordinatorModel,
    result: Result<MatchOutcome, AuthenticationSessionFailure>,
    message: MessageModel,
)
    requires
        coordinator.well_formed(),
        origin != coordinator.identity || !coordinator.broker.is_active(token),
        coordinator.cancels(origin, token, delivered, after),
    ensures
        !delivered,
        after == coordinator,
        coordinator.after_end(origin, token) == coordinator,
        coordinator.response_to(origin, token, result) == Response::Failure,
        coordinator.message_to(origin, token, message) == MessageModel::error(),
{
}

/// Ending the active operation frees the broker and withdraws delivery, and
/// keeps the coordinator valid.
pub proof fn law_ending_frees_the_broker(coordinator: CoordinatorModel, token: OperationToken)
    requires
        coordinator.well_formed(),
        coordinator.broker.is_active(token),
    ensures
        coordinator.after_end(coordinator.identity, token).well_formed(),
        coordinator.after_end(coordinator.identity, token).broker.active is None,
        coordinator.after_end(coordinator.identity, token).slot.registered is None,
        coordinator.after_end(coordinator.identity, token).broker.next_token
            == coordinator.broker.next_token,
{
}

/// The next work of an admitted authentication.
pub enum ProductStep<'a> {
    /// Run the sensor work for [`PendingProduct::biometric_user_id`] with
    /// [`PendingProduct::credential`] and report with [`PendingProduct::ended`].
    Run(PendingProduct<'a>),
    /// Tear the presentation down and report with [`PendingTeardown::torn_down`].
    TearDown(PendingTeardown<'a>),
    /// The operation has ended.
    Complete(AuthenticationCompletion),
}

/// An authentication whose sensor work is to run.
pub struct PendingProduct<'a> {
    active: &'a ActiveAuthentication,
    credential: &'a [u8],
}

/// An authentication whose sensor work has ended, with its presentation still up.
pub struct PendingTeardown<'a> {
    active: &'a ActiveAuthentication,
    result: Result<MatchOutcome, AuthenticationSessionFailure>,
}

/// The result with which an operation ends before the sensor is used, if it
/// does: an invalid user, then a credential of the wrong length, then a
/// cancellation that has already arrived.
pub open spec fn result_before_product(
    user_is_valid: bool,
    credential_size: nat,
    cancelled: bool,
) -> Option<Result<MatchOutcome, AuthenticationSessionFailure>> {
    if !user_is_valid {
        Some(Err(AuthenticationSessionFailure::InvalidOperationUser))
    } else if credential_size != ACM_CONTEXT_EXTERNAL_FORM_SIZE {
        Some(Err(AuthenticationSessionFailure::InvalidCredential))
    } else if cancelled {
        Some(Ok(MatchOutcome::Cancelled))
    } else {
        None
    }
}

/// How an admitted authentication begins.
pub open spec fn product_begins(
    active: ActiveAuthentication,
    user_is_valid: bool,
    credential: Seq<u8>,
    cancelled: bool,
    step: ProductStep,
) -> bool {
    match result_before_product(user_is_valid, credential.len(), cancelled) {
        Some(result) => step matches ProductStep::Complete(completion) && completion.belongs(active)
            && completion.outcome() == result,
        None => step matches ProductStep::Run(pending) && pending.whose() == active
            && pending.secret() == credential,
    }
}

/// Begins an admitted authentication. `user_is_valid` says whether the sensor's
/// protocol accepts the operation's biometric user. Where the sensor work does not
/// run, nothing was presented and nothing is torn down.
pub fn run_authentication_product<'a>(
    active: &'a ActiveAuthentication,
    coordinator: &BrokerSessionCoordinator,
    user_is_valid: bool,
    credential: &'a [u8],
) -> (step: ProductStep<'a>)
    ensures
        product_begins(
            *active,
            user_is_valid,
            credential@,
            coordinator@.has_reached(active.coordinator(), active.admitted().token),
            step,
        ),
{
    if !user_is_valid {
        return ProductStep::Complete(
            active.completion_for_worker(Err(AuthenticationSessionFailure::InvalidOperationUser)),
        );
    }
    if credential.len() != ACM_CONTEXT_EXTERNAL_FORM_SIZE {
        return ProductStep::Complete(
            active.completion_for_worker(Err(AuthenticationSessionFailure::InvalidCredential)),
        );
    }
    if active.is_cancelled(coordinator) {
        return ProductStep::Complete(active.completion_for_worker(Ok(MatchOutcome::Cancelled)));
    }
    ProductStep::Run(PendingProduct { active, credential })
}

impl<'a> PendingProduct<'a> {
    /// The authentication.
    pub closed spec fn whose(self) -> ActiveAuthentication {
        *self.active
    }

    /// The credential for the sensor work.
    pub closed spec fn secret(self) -> Seq<u8> {
        self.credential@
    }

    /// The user to match.
    pub fn biometric_user_id(&self) -> (r: u32)
        ensures
            r == self.whose().admitted().biometric_user_id,
    {
        self.active.biometric_user_id()
    }

    /// The credential for the sensor work.
    pub fn credential(&self) -> (r: &'a [u8])
        ensures
            r@ == self.secret(),
    {
        self.credential
    }

    /// Takes the result of the sensor work. Whatever it is, the presentation is torn
    /// down next.
    pub fn ended<Failure>(self, result: Result<MatchOutcome, Failure>) -> (step: ProductStep<'a>)
        ensures
            step is TearDown,
            product_follows(ProductStep::Run(self), ProductAnswer::Ended(outcome_of(result)), step),
    {
        let result = match result {
            Ok(outcome) => Ok(outcome),
            Err(_) => Err(AuthenticationSessionFailure::Operation),
        };
        ProductStep::TearDown(PendingTeardown { active: self.active, result })
    }
}

impl<'a> PendingTeardown<'a> {
    /// The authentication.
    pub closed spec fn whose(self) -> ActiveAuthentication {
        *self.active
    }

    /// The result of the sensor work.
    pub closed spec fn ended_with(self) -> Result<MatchOutcome, AuthenticationSessionFailure> {
        self.result
    }

    /// Takes that the presentation is down and binds the result: a failure stays a
    /// failure, and a cancellation that arrived meanwhile replaces every outcome.
    pub fn torn_down(self, coordinator: &BrokerSessionCoordinator) -> (step: ProductStep<'a>)
        ensures
            step is Complete,
            product_follows(
                ProductStep::TearDown(self),
                ProductAnswer::TornDown(
                    coordinator@.has_reached(
                        self.whose().coordinator(),
                        self.whose().admitted().token,
                    ),
                ),
                step,
            ),
    {
        let outcome = match self.result {
            Ok(outcome) => if self.active.is_cancelled(coordinator) {
                Ok(MatchOutcome::Cancelled)
            } else {
                Ok(outcome)
            },
            Err(failure) => Err(failure),
        };
        ProductStep::Complete(self.active.completion_for_worker(outcome))
    }
}

/// One answer to the work that an authentication asks for: how the sensor work
/// ended, if not with a failure; and, once the presentation is down, whether a
/// cancellation has reached the operation.
pub enum ProductAnswer {
    Ended(Option<MatchOutcome>),
    TornDown(bool),
}

/// The step that follows `step` on `answer`, where the answer is of the kind
/// that the step asks for.
pub open spec fn product_follows(
    step: ProductStep,
    answer: ProductAnswer,
    next: ProductStep,
) -> bool {
    match (step, answer) {
        (ProductStep::Run(pending), ProductAnswer::Ended(outcome)) => next matches
            ProductStep::TearDown(owed) && owed.whose() == pending.whose() && owed.ended_with()
            == match outcome {
            Some(outcome) => Ok(outcome),
            None => Err(AuthenticationSessionFailure::Operation),
        },
        (ProductStep::TearDown(pending), ProductAnswer::TornDown(cancelled)) => next matches
            ProductStep::Complete(completion) && completion.belongs(pending.whose())
            && completion.outcome() == match pending.ended_with() {
            Ok(outcome) => Ok(
                if cancelled {
                    MatchOutcome::Cancelled
                } else {
                    outcome
                },
            ),
            Err(failure) => Err(failure),
        },
        _ => false,
    }
}

/// A run of an admitted authentication.
pub open spec fn is_product_run(
    active: ActiveAuthentication,
    user_is_valid: bool,
    credential: Seq<u8>,
    cancelled: bool,
    steps: Seq<ProductStep>,
    answers: Seq<ProductAnswer>,
) -> bool {
    &&& steps.len() == answers.len() + 1
    &&& product_begins(active, user_is_valid, credential, cancelled, steps[0])
    &&& forall|k: int|
        0 <= k < answers.len() ==> product_follows(#[trigger] steps[k], answers[k], steps[k + 1])
}

/// The presentation is torn down exactly once where the sensor work ran, right
/// after it, however it ended, and before the operation completes; where the
/// sensor work did not run, it is not torn down.
pub proof fn law_presentation_is_torn_down_once(
    active: ActiveAuthentication,
    user_is_valid: bool,
    credential: Seq<u8>,
    cancelled: bool,
    steps: Seq<ProductStep>,
    answers: Seq<ProductAnswer>,
    k: int,
)
    requires
        is_product_run(active, user_is_valid, credential, cancelled, steps, answers),
        0 <= k < steps.len(),
    ensures
        steps[k] is Run <==> k == 0 && result_before_product(
            user_is_valid,
            credential.len(),
            cancelled,
        ) is None,
        steps[k] matches ProductStep::Run(pending) ==> pending.whose() == active
            && pending.secret() == credential,
        steps[k] is TearDown <==> k == 1,
        steps[k] matches ProductStep::TearDown(pending) ==> steps[0] is Run && pending.whose()
            == active,
        steps[k] matches ProductStep::Complete(completion) ==> completion.belongs(active) && (k
            == 0 || k == 2),
    decreases k,
{
    if k > 0 {
        law_presentation_is_torn_down_once(
            active,
            user_is_valid,
            credential,
            cancelled,
            steps,
            answers,
            k - 1,
        );
        assert(product_follows(steps[k - 1], answers[k - 1], steps[k - 1 + 1]));
    }
}

/// An event of the sensor, or the cancellation that takes its place.
#[derive(Debug, PartialEq, Eq)]
pub enum CancellableEvent<Event> {
    Cancelled,
    Event(Event),
}

/// What to do before an event of the sensor is read.
pub enum EventStep<'a> {
    /// A cancellation has arrived: it stands for the event, and none is read.
    Cancelled,
    /// Read an event and report with [`PendingEvent::read`].
    Read(PendingEvent<'a>),
}

/// An operation that waits for an event of the sensor.
pub struct PendingEvent<'a> {
    active: &'a ActiveAuthentication,
}

/// Observes a match: no event is read once a cancellation has reached the
/// operation.
pub fn observe_match_event<'a>(
    active: &'a ActiveAuthentication,
    coordinator: &BrokerSessionCoordinator,
) -> (r: EventStep<'a>)
    ensures
        if coordinator@.has_reached(active.coordinator(), active.admitted().token) {
            r is Cancelled
        } else {
            r is Read && r->Read_0.whose() == *active
        },
{
    if active.is_cancelled(coordinator) {
        EventStep::Cancelled
    } else {
        EventStep::Read(PendingEvent { active })
    }
}

impl<'a> PendingEvent<'a> {
    /// The operation.
    pub closed spec fn whose(self) -> ActiveAuthentication {
        *self.active
    }

    /// Puts a cancellation that arrived meanwhile in the place of the event; a
    /// failure of the event source is passed on.
    pub fn read<Event, Error>(
        self,
        coordinator: &BrokerSessionCoordinator,
        event: Result<Event, Error>,
    ) -> (r: Result<CancellableEvent<Event>, Error>)
        ensures
            r == match event {
                Err(error) => Err::<CancellableEvent<Event>, Error>(error),
                Ok(event) => Ok(
                    if coordinator@.has_reached(
                        self.whose().coordinator(),
                        self.whose().admitted().token,
                    ) {
                        CancellableEvent::Cancelled
                    } else {
                        CancellableEvent::Event(event)
                    },
                ),
            },
    {
        match event {
            Ok(event) => if self.active.is_cancelled(coordinator) {
                Ok(CancellableEvent::Cancelled)
            } else {
                Ok(CancellableEvent::Event(event))
            },
            Err(error) => Err(error),
        }
    }
}

} // verus!
