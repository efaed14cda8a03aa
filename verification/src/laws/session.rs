//! How one operation is admitted, cancelled, observed and ended.

use crate::auth_feedback::{
    apply_authentication_feedback, initial_overlay_state, next_feedback, AuthenticationFeedback,
    FeedbackAction, FeedbackProgress,
};
use crate::auth_protocol::{
    AccessPolicy, ActiveModel, BrokerState, Operation, OperationToken, PeerAddressFamily,
    PeerMetadata, PolicyError, Purpose, Response,
};
use crate::auth_session::{
    observe_match_event, run_authentication_product, ActiveAuthentication, ActiveStandardOperation,
    AuthenticationCompletion, AuthenticationSessionFailure, BrokerSessionCoordinator,
    CancellableEvent, CoordinatorModel, EventStep, PendingEvent, PendingProduct, PendingTeardown,
    ProductStep, SessionDecision, StandardCompletion, StandardSessionDecision,
};
use crate::biometric::MatchOutcome;
use crate::laws::broker::{
    asks_to_cancel, asks_to_enroll, has_given_out, is_served, lemma_packets_by_their_bytes,
    wants_work,
};
use crate::laws::service::purpose_of;
use crate::overlay::{CancellationSlot, OverlayState, SlotOccupied};
use crate::standard_fingerprint_protocol::{MessageModel, ServerMessage, TerminalOutcome};
use crate::standard_operation_authority::{
    AuthorizedStandardOperation, ResolvedStandardOperation, StandardAuthority,
    StandardBrokerDecision,
};
use vstd::prelude::*;

verus! {

/// Whether a cancellation can reach the operation.
pub open spec fn can_reach(
    coordinator: CoordinatorModel,
    origin: u64,
    token: OperationToken,
) -> bool {
    origin == coordinator.identity && (coordinator.broker.active matches Some(active)
        && active.token == token) && coordinator.slot.registered == Some(token)
}

/// The coordinator after a cancellation has reached its active operation.
pub open spec fn is_cancelled(
    before: CoordinatorModel,
    token: OperationToken,
    after: CoordinatorModel,
) -> bool {
    &&& after.broker.active == Some(ActiveModel { token, cancelled: true })
    &&& after.broker.next_token == before.broker.next_token
    &&& after.slot.delivered == before.slot.delivered.insert(token)
    &&& after.slot.registered == before.slot.registered
    &&& after.identity == before.identity
}

/// The coordinator after the operation of `token` has ended; one of another origin ends
/// nothing.
pub open spec fn is_ended(
    before: CoordinatorModel,
    origin: u64,
    token: OperationToken,
    after: CoordinatorModel,
) -> bool {
    let active = origin == before.identity && (before.broker.active matches Some(running)
        && running.token == token);
    &&& active ==> after.broker.active is None
    &&& !active ==> after.broker.active == before.broker.active
    &&& after.broker.next_token == before.broker.next_token
    &&& origin == before.identity && before.slot.registered == Some(token)
        ==> after.slot.registered is None
    &&& !(origin == before.identity && before.slot.registered == Some(token))
        ==> after.slot.registered == before.slot.registered
    &&& after.slot.delivered == before.slot.delivered
    &&& after.identity == before.identity
}

/// The coordinator after it has admitted the operation of `token`.
pub open spec fn is_admitted(
    before: CoordinatorModel,
    token: OperationToken,
    after: CoordinatorModel,
) -> bool {
    &&& has_given_out(before.broker, token, after.broker)
    &&& after.slot.registered == Some(token)
    &&& after.slot.delivered == before.slot.delivered
    &&& after.identity == before.identity
}

/// What a coordinator does with a packet under the policy of an owner; see the service's
/// law of the same.
pub proof fn law_coordinators_start_answer_or_cancel(
    coordinator: &mut BrokerSessionCoordinator,
    owner: u32,
    policy: AccessPolicy,
    peer: PeerMetadata,
    packet: &[u8],
    r: SessionDecision,
)
    requires
        call_ensures(AccessPolicy::new, (owner,), Ok::<AccessPolicy, PolicyError>(policy)),
        call_ensures(BrokerSessionCoordinator::dispatch, (coordinator, peer, policy, packet), r),
    ensures
        ({
            let before = old(coordinator)@;
            let asks = is_served(peer, owner) && wants_work(peer, packet@);
            &&& r is Start <==> asks && before.broker.active is None && before.broker.next_token
                != 0
            &&& r matches SessionDecision::Start(active) ==> is_admitted(
                before,
                active.admitted().token,
                final(coordinator)@,
            ) && active.coordinator() == before.identity && active.admitted().purpose == purpose_of(
                packet@,
            ) && active.admitted().biometric_user_id == 501 && (
            active.admitted().enrollment_owner_candidate is Some <==> asks_to_enroll(packet@)) && (
            asks_to_enroll(packet@) ==> active.admitted().enrollment_owner_candidate->0.id()
                == peer.user_id)
            &&& r == SessionDecision::Reply(Response::Okay) <==> asks_to_cancel(packet@)
                && peer.address_family == PeerAddressFamily::Local && peer.user_id == 0
                && before.broker.active is Some && can_reach(
                before,
                before.identity,
                before.broker.active->0.token,
            )
            &&& r == SessionDecision::Reply(Response::Okay) ==> is_cancelled(
                before,
                before.broker.active->0.token,
                final(coordinator)@,
            )
            &&& r == SessionDecision::Reply(Response::Busy) <==> asks && before.broker.active
                is Some
            &&& r == SessionDecision::Reply(Response::Failure) <==> asks && before.broker.active
                is None && before.broker.next_token == 0
            &&& r is Reply && r != SessionDecision::Reply(Response::Okay) ==> final(coordinator)@
                == before
        }),
{
    lemma_packets_by_their_bytes(packet@);
}

/// First enrollments and cancellations without an owner's record.
pub proof fn law_coordinators_serve_without_an_owner(
    enrolling: &mut BrokerSessionCoordinator,
    cancelling: &mut BrokerSessionCoordinator,
    peer: PeerMetadata,
    r: SessionDecision,
    response: Response,
)
    requires
        call_ensures(BrokerSessionCoordinator::enroll_without_owner, (enrolling, peer), r),
        call_ensures(BrokerSessionCoordinator::cancel_without_owner, (cancelling, peer), response),
    ensures
        ({
            let local = peer.address_family == PeerAddressFamily::Local;
            let before = old(enrolling)@;
            let other = old(cancelling)@;
            &&& r is Start <==> local && peer.user_id != 0 && before.broker.active is None
                && before.broker.next_token != 0
            &&& r matches SessionDecision::Start(active) ==> is_admitted(
                before,
                active.admitted().token,
                final(enrolling)@,
            ) && active.coordinator() == before.identity && active.admitted().purpose
                == Purpose::Enrollment && active.admitted().biometric_user_id == 501 && (
            active.admitted().enrollment_owner_candidate matches Some(candidate) && candidate.id()
                == peer.user_id)
            &&& !local || peer.user_id == 0 ==> r == SessionDecision::Reply(Response::Denied)
            &&& local && peer.user_id != 0 && before.broker.active is Some ==> r
                == SessionDecision::Reply(Response::Busy)
            &&& local && peer.user_id != 0 && before.broker.active is None
                && before.broker.next_token == 0 ==> r == SessionDecision::Reply(Response::Failure)
            &&& r is Reply ==> final(enrolling)@ == before
            &&& response == Response::Okay <==> local && peer.user_id == 0 && other.broker.active
                is Some && can_reach(other, other.identity, other.broker.active->0.token)
            &&& response == Response::Okay ==> is_cancelled(
                other,
                other.broker.active->0.token,
                final(cancelling)@,
            )
            &&& response != Response::Okay ==> response == Response::Denied && final(cancelling)@
                == other
        }),
{
}

/// Standard operations are admitted with what they were resolved to.
pub proof fn law_coordinators_admit_standard_operations(
    coordinator: &mut BrokerSessionCoordinator,
    authority: StandardAuthority,
    operation: ResolvedStandardOperation,
    r: StandardSessionDecision,
)
    requires
        call_ensures(
            BrokerSessionCoordinator::dispatch_standard,
            (coordinator, authority, operation),
            r,
        ),
    ensures
        ({
            let before = old(coordinator)@;
            &&& r is Start <==> authority is Granted && before.broker.active is None
                && before.broker.next_token != 0
            &&& r matches StandardSessionDecision::Start(active) ==> is_admitted(
                before,
                active.admitted().token,
                final(coordinator)@,
            ) && active.coordinator() == before.identity && active.admitted().operation
                == operation
            &&& authority matches StandardAuthority::Refused(message) ==> r
                == StandardSessionDecision::Reply(message)
            &&& authority is Granted && before.broker.active is Some ==> r is Reply && r->Reply_0@
                == MessageModel::Terminal(TerminalOutcome::Busy)
            &&& authority is Granted && before.broker.active is None && before.broker.next_token
                == 0 ==> r is Reply && r->Reply_0@ == MessageModel::Terminal(
                TerminalOutcome::Error,
            )
            &&& r is Reply ==> final(coordinator)@ == before
        }),
{
}

/// The broker's own admission and end of standard operations.
pub proof fn law_brokers_admit_standard_operations(
    broker: &mut BrokerState,
    authority: StandardAuthority,
    operation: ResolvedStandardOperation,
    r: StandardBrokerDecision,
    ending: &mut BrokerState,
    admitted: &AuthorizedStandardOperation,
    result: ServerMessage,
    end: Option<ServerMessage>,
)
    requires
        call_ensures(BrokerState::dispatch_standard, (broker, authority, operation), r),
        call_ensures(BrokerState::finish_standard, (ending, admitted, result), end),
    ensures
        r is Start <==> authority is Granted && old(broker)@.active is None && old(
            broker
        )@.next_token != 0,
        r matches StandardBrokerDecision::Start(started) ==> started.operation == operation
            && has_given_out(old(broker)@, started.token, final(broker)@),
        authority matches StandardAuthority::Refused(message) ==> r
            == StandardBrokerDecision::Reply(message),
        authority is Granted && old(broker)@.active is Some ==> r is Reply && r->Reply_0@
            == MessageModel::Terminal(TerminalOutcome::Busy),
        authority is Granted && old(broker)@.active is None && old(broker)@.next_token == 0 ==> r
            is Reply && r->Reply_0@ == MessageModel::Terminal(TerminalOutcome::Error),
        r is Reply ==> final(broker)@ == old(broker)@,
        end is Some <==> (old(ending)@.active matches Some(active) && active.token
            == admitted.token),
        end matches Some(message) ==> final(ending)@.active is None && (if old(
            ending
        )@.active->0.cancelled {
            message@ == MessageModel::Terminal(TerminalOutcome::Cancelled)
        } else {
            message@ == result@
        }),
        end is None ==> final(ending)@ == old(ending)@,
        final(ending)@.next_token == old(ending)@.next_token,
{
}

/// A client that goes away, or asks for it, cancels its own operation where it can be
/// reached, and nothing else.
pub proof fn law_clients_cancel_their_own_operation(
    direct: &mut BrokerSessionCoordinator,
    active: &ActiveAuthentication,
    left: bool,
    asking: &mut BrokerSessionCoordinator,
    leaving: &mut BrokerSessionCoordinator,
    standard: &ActiveStandardOperation,
    asked: bool,
    standard_left: bool,
)
    requires
        call_ensures(BrokerSessionCoordinator::client_disconnected, (direct, active), left),
        call_ensures(BrokerSessionCoordinator::cancel_standard, (asking, standard), asked),
        call_ensures(
            BrokerSessionCoordinator::standard_client_disconnected,
            (leaving, standard),
            standard_left,
        ),
    ensures
        left <==> can_reach(old(direct)@, active.coordinator(), active.admitted().token),
        left ==> is_cancelled(old(direct)@, active.admitted().token, final(direct)@),
        !left ==> final(direct)@ == old(direct)@,
        asked <==> can_reach(old(asking)@, standard.coordinator(), standard.admitted().token),
        asked ==> is_cancelled(old(asking)@, standard.admitted().token, final(asking)@),
        !asked ==> final(asking)@ == old(asking)@,
        standard_left <==> can_reach(
            old(leaving)@,
            standard.coordinator(),
            standard.admitted().token,
        ),
        standard_left ==> is_cancelled(old(leaving)@, standard.admitted().token, final(leaving)@),
        !standard_left ==> final(leaving)@ == old(leaving)@,
{
}

/// A worker sees the cancellation that has reached its operation, and closes delivery only
/// before one has.
pub proof fn law_workers_see_and_close_cancellation(
    coordinator: &BrokerSessionCoordinator,
    active: &ActiveAuthentication,
    seen: bool,
    standard: &ActiveStandardOperation,
    standard_seen: bool,
    closing: &mut BrokerSessionCoordinator,
    closed: bool,
    standard_closing: &mut BrokerSessionCoordinator,
    standard_closed: bool,
    clearing: &mut BrokerSessionCoordinator,
)
    requires
        call_ensures(ActiveAuthentication::is_cancelled, (active, coordinator), seen),
        call_ensures(ActiveStandardOperation::is_cancelled, (standard, coordinator), standard_seen),
        call_ensures(ActiveAuthentication::close_cancellation, (active, closing), closed),
        call_ensures(
            ActiveStandardOperation::close_cancellation,
            (standard, standard_closing),
            standard_closed,
        ),
        call_ensures(ActiveAuthentication::clear_delivery, (active, clearing), ()),
    ensures
        ({
            let token = active.admitted().token;
            let own = active.coordinator();
            let standard_token = standard.admitted().token;
            &&& seen <==> own == coordinator@.identity && coordinator@.slot.delivered.contains(
                token,
            )
            &&& standard_seen <==> standard.coordinator() == coordinator@.identity
                && coordinator@.slot.delivered.contains(standard_token)
            &&& closed <==> own == old(closing)@.identity && old(closing)@.slot.registered == Some(
                token,
            ) && !old(closing)@.slot.delivered.contains(token)
            &&& closed ==> final(closing)@.slot.registered is None
                && final(closing)@.slot.delivered == old(closing)@.slot.delivered
                && final(closing)@.broker == old(closing)@.broker
            &&& !closed ==> final(closing)@ == old(closing)@
            &&& standard_closed <==> standard.coordinator() == old(standard_closing)@.identity
                && old(standard_closing)@.slot.registered == Some(standard_token) && !old(
                standard_closing
            )@.slot.delivered.contains(standard_token)
            &&& standard_closed ==> final(standard_closing)@.slot.registered is None
                && final(standard_closing)@.broker == old(standard_closing)@.broker
            &&& !standard_closed ==> final(standard_closing)@ == old(standard_closing)@
            &&& own == old(clearing)@.identity && old(clearing)@.slot.registered == Some(token)
                ==> final(clearing)@.slot.registered is None
            &&& !(own == old(clearing)@.identity && old(clearing)@.slot.registered == Some(token))
                ==> final(clearing)@.slot.registered == old(clearing)@.slot.registered
            &&& final(clearing)@.broker == old(clearing)@.broker
                && final(clearing)@.slot.delivered == old(clearing)@.slot.delivered
        }),
{
}

/// Whether the operation is active here and was not cancelled.
pub open spec fn stands(before: CoordinatorModel, origin: u64, token: OperationToken) -> bool {
    origin == before.identity && before.broker.active == Some(
        ActiveModel { token, cancelled: false },
    )
}

/// A completion is answered okay exactly where its operation stands and matched; every
/// completion of this coordinator ends its operation.
pub proof fn law_completions_succeed_by_an_uncancelled_match(
    coordinator: &mut BrokerSessionCoordinator,
    completion: &AuthenticationCompletion,
    response: Response,
    bound: &mut BrokerSessionCoordinator,
    active: &ActiveAuthentication,
    bound_response: Response,
    finalizing: &mut BrokerSessionCoordinator,
    finalized: (Response, bool),
)
    requires
        call_ensures(BrokerSessionCoordinator::finish, (coordinator, completion), response),
        call_ensures(
            BrokerSessionCoordinator::finish_for,
            (bound, active, completion),
            bound_response,
        ),
        call_ensures(BrokerSessionCoordinator::finalize, (finalizing, completion), finalized),
    ensures
        ({
            let token = completion.completed();
            let origin = completion.coordinator();
            let matched = completion.outcome() == Ok::<MatchOutcome, AuthenticationSessionFailure>(
                MatchOutcome::Matched,
            );
            let own = token == active.admitted().token && origin == active.coordinator();
            &&& response == Response::Okay <==> stands(old(coordinator)@, origin, token) && matched
            &&& response == Response::Okay || response == Response::Failure
            &&& is_ended(old(coordinator)@, origin, token, final(coordinator)@)
            &&& bound_response == Response::Okay <==> own && stands(old(bound)@, origin, token)
                && matched
            &&& bound_response == Response::Okay || bound_response == Response::Failure
            &&& own ==> is_ended(old(bound)@, origin, token, final(bound)@)
            &&& !own ==> final(bound)@ == old(bound)@
            &&& finalized.0 == Response::Okay <==> stands(old(finalizing)@, origin, token)
                && matched
            &&& finalized.1 <==> stands(old(finalizing)@, origin, token)
            &&& is_ended(old(finalizing)@, origin, token, final(finalizing)@)
        }),
{
}

/// A standard completion is answered with its result, unless its operation was cancelled
/// or is not active here; an abandoned operation with an error.
pub proof fn law_standard_completions_are_answered(
    coordinator: &mut BrokerSessionCoordinator,
    active: &ActiveStandardOperation,
    completion: &StandardCompletion,
    message: ServerMessage,
    abandoning: &mut BrokerSessionCoordinator,
    abandoned: ServerMessage,
    direct: &mut BrokerSessionCoordinator,
    direct_active: &ActiveAuthentication,
    response: Response,
)
    requires
        call_ensures(
            BrokerSessionCoordinator::finish_standard,
            (coordinator, active, completion),
            message,
        ),
        call_ensures(BrokerSessionCoordinator::abandon_standard, (abandoning, active), abandoned),
        call_ensures(BrokerSessionCoordinator::abandon, (direct, direct_active), response),
    ensures
        ({
            let token = active.admitted().token;
            let origin = active.coordinator();
            let own = completion.completed() == token && completion.coordinator() == origin;
            let before = old(coordinator)@;
            let error = MessageModel::Terminal(TerminalOutcome::Error);
            let cancelled = MessageModel::Terminal(TerminalOutcome::Cancelled);
            &&& own && stands(before, origin, token) ==> message@ == completion.outcome()
            &&& own && origin == before.identity && before.broker.active == Some(
                ActiveModel { token, cancelled: true },
            ) ==> message@ == cancelled
            &&& !own || origin != before.identity || !(before.broker.active matches Some(running)
                && running.token == token) ==> message@ == error
            &&& own ==> is_ended(before, origin, token, final(coordinator)@)
            &&& !own ==> final(coordinator)@ == before
            &&& origin == old(abandoning)@.identity && old(abandoning)@.broker.active == Some(
                ActiveModel { token, cancelled: true },
            ) ==> abandoned@ == cancelled
            &&& stands(old(abandoning)@, origin, token) ==> abandoned@ == error
            &&& is_ended(old(abandoning)@, origin, token, final(abandoning)@)
            &&& response == Response::Failure
            &&& is_ended(
                old(direct)@,
                direct_active.coordinator(),
                direct_active.admitted().token,
                final(direct)@,
            )
        }),
{
}

/// A worker's completion is bound to its own operation and carries its result; a standard
/// message that ends nothing counts as an error.
pub proof fn law_completions_are_bound_to_their_operation(
    active: &ActiveAuthentication,
    result: Result<MatchOutcome, AuthenticationSessionFailure>,
    completion: AuthenticationCompletion,
    read: Result<MatchOutcome, AuthenticationSessionFailure>,
    other: &ActiveAuthentication,
    belongs: bool,
    standard: &ActiveStandardOperation,
    message: ServerMessage,
    standard_completion: StandardCompletion,
    standard_read: &ServerMessage,
    standard_other: &ActiveStandardOperation,
    standard_belongs: bool,
)
    requires
        call_ensures(ActiveAuthentication::completion_for_worker, (active, result), completion),
        call_ensures(AuthenticationCompletion::result, (&completion,), read),
        call_ensures(AuthenticationCompletion::belongs_to, (&completion, other), belongs),
        call_ensures(
            ActiveStandardOperation::completion_for_worker,
            (standard, message),
            standard_completion,
        ),
        call_ensures(StandardCompletion::result, (&standard_completion,), standard_read),
        call_ensures(
            StandardCompletion::belongs_to,
            (&standard_completion, standard_other),
            standard_belongs,
        ),
    ensures
        read == result && completion.outcome() == result,
        completion.completed() == active.admitted().token && completion.coordinator()
            == active.coordinator(),
        belongs <==> other.admitted().token == active.admitted().token && other.coordinator()
            == active.coordinator(),
        message@ is Terminal || message@ is IdentityList ==> standard_read@ == message@,
        !(message@ is Terminal || message@ is IdentityList) ==> standard_read@
            == MessageModel::Terminal(TerminalOutcome::Error),
        standard_belongs <==> standard_other.admitted().token == standard.admitted().token
            && standard_other.coordinator() == standard.coordinator(),
        standard_completion.completed() == standard.admitted().token
            && standard_completion.coordinator() == standard.coordinator()
            && standard_completion.outcome() == standard_read@,
{
}

/// A handle shows the operation that was admitted, and its copy is the same.
pub proof fn law_handles_show_their_operation(
    active: &ActiveAuthentication,
    copy: ActiveAuthentication,
    token: OperationToken,
    user_id: u32,
    purpose: Purpose,
    overlay: OverlayState,
    plain: OverlayState,
)
    requires
        call_ensures(ActiveAuthentication::clone_for_worker, (active,), copy),
        call_ensures(ActiveAuthentication::token, (active,), token),
        call_ensures(ActiveAuthentication::biometric_user_id, (active,), user_id),
        call_ensures(ActiveAuthentication::purpose, (active,), purpose),
        call_ensures(ActiveAuthentication::initial_overlay_state, (active,), overlay),
        call_ensures(initial_overlay_state, (purpose,), plain),
    ensures
        copy == *active,
        token == active.admitted().token && user_id == active.admitted().biometric_user_id
            && purpose == active.admitted().purpose,
        overlay == plain,
        plain == OverlayState::Authenticate <==> purpose == Purpose::Authenticate,
        plain == OverlayState::Approve <==> purpose == Purpose::Approve,
        plain == OverlayState::Enrollment <==> purpose == Purpose::Enrollment,
{
}

/// A coordinator begins with nothing active and nothing delivered.
pub proof fn law_coordinators_begin_idle(identity: u64, r: BrokerSessionCoordinator)
    requires
        call_ensures(BrokerSessionCoordinator::new, (identity,), r),
    ensures
        r@.identity == identity,
        r@.broker.active is None && r@.broker.next_token == 1,
        r@.slot.registered is None,
        forall|token: OperationToken| !r@.slot.delivered.contains(token),
{
}

/// A product runs only with a valid user, a credential of sixteen bytes and no
/// cancellation so far; else its completion says why not.
pub proof fn law_products_run_uncancelled_with_a_credential<'a>(
    active: &'a ActiveAuthentication,
    coordinator: &BrokerSessionCoordinator,
    cancelled: bool,
    user_is_valid: bool,
    credential: &'a [u8],
    step: ProductStep<'a>,
)
    requires
        call_ensures(ActiveAuthentication::is_cancelled, (active, coordinator), cancelled),
        call_ensures(
            run_authentication_product,
            (active, coordinator, user_is_valid, credential),
            step,
        ),
    ensures
        step is Run <==> user_is_valid && credential@.len() == 16 && !cancelled,
        step matches ProductStep::Run(pending) ==> pending.whose() == *active && pending.secret()
            == credential@,
        step is Run || step is Complete,
        step matches ProductStep::Complete(completion) ==> {
            &&& completion.completed() == active.admitted().token && completion.coordinator()
                == active.coordinator()
            &&& !user_is_valid ==> completion.outcome() == Err::<
                MatchOutcome,
                AuthenticationSessionFailure,
            >(AuthenticationSessionFailure::InvalidOperationUser)
            &&& user_is_valid && credential@.len() != 16 ==> completion.outcome() == Err::<
                MatchOutcome,
                AuthenticationSessionFailure,
            >(AuthenticationSessionFailure::InvalidCredential)
            &&& user_is_valid && credential@.len() == 16 ==> completion.outcome() == Ok::<
                MatchOutcome,
                AuthenticationSessionFailure,
            >(MatchOutcome::Cancelled)
        },
{
}

/// A product that has ended is torn down before it completes; a cancellation that arrived
/// until then takes the place of every outcome but a failure.
pub proof fn law_products_complete_after_their_teardown<'a, F>(
    pending: PendingProduct<'a>,
    user_id: u32,
    credential: &'a [u8],
    result: Result<MatchOutcome, F>,
    owed: PendingTeardown<'a>,
    coordinator: &BrokerSessionCoordinator,
    completion: AuthenticationCompletion,
    owed_step: ProductStep<'a>,
    completion_step: ProductStep<'a>,
)
    requires
        call_ensures(PendingProduct::<'a>::biometric_user_id, (&pending,), user_id),
        call_ensures(PendingProduct::<'a>::credential, (&pending,), credential),
        call_ensures(PendingProduct::<'a>::ended::<F>, (pending, result), owed_step),
        owed_step is TearDown ==> owed_step->TearDown_0 == owed,
        call_ensures(PendingTeardown::<'a>::torn_down, (owed, coordinator), completion_step),
        completion_step is Complete ==> completion_step->Complete_0 == completion,
    ensures
        owed_step is TearDown,
        completion_step is Complete,
        user_id == pending.whose().admitted().biometric_user_id,
        credential@ == pending.secret(),
        completion.completed() == pending.whose().admitted().token && completion.coordinator()
            == pending.whose().coordinator(),
        result is Err ==> completion.outcome() == Err::<MatchOutcome, AuthenticationSessionFailure>(
            AuthenticationSessionFailure::Operation,
        ),
        ({
            let cancelled = pending.whose().coordinator() == coordinator@.identity
                && coordinator@.slot.delivered.contains(pending.whose().admitted().token);
            &&& result is Ok && cancelled ==> completion.outcome() == Ok::<
                MatchOutcome,
                AuthenticationSessionFailure,
            >(MatchOutcome::Cancelled)
            &&& result is Ok && !cancelled ==> completion.outcome() == Ok::<
                MatchOutcome,
                AuthenticationSessionFailure,
            >(result->Ok_0)
        }),
{
}

/// No event is read after a cancellation, and one that arrives meanwhile takes the event's
/// place.
pub proof fn law_cancellation_comes_before_events<'a, Event, Error>(
    active: &'a ActiveAuthentication,
    before: &BrokerSessionCoordinator,
    cancelled_before: bool,
    step: EventStep<'a>,
    pending: PendingEvent<'a>,
    after: &BrokerSessionCoordinator,
    cancelled_after: bool,
    event: Result<Event, Error>,
    r: Result<CancellableEvent<Event>, Error>,
)
    requires
        call_ensures(ActiveAuthentication::is_cancelled, (active, before), cancelled_before),
        call_ensures(observe_match_event, (active, before), step),
        step matches EventStep::Read(reading) ==> reading == pending,
        call_ensures(ActiveAuthentication::is_cancelled, (active, after), cancelled_after),
        call_ensures(PendingEvent::<'a>::read::<Event, Error>, (pending, after, event), r),
    ensures
        step is Cancelled <==> cancelled_before,
        step is Read <==> !cancelled_before,
        event matches Err(error) ==> r == Err::<CancellableEvent<Event>, Error>(error),
        step is Read && event is Ok ==> r is Ok && (r->Ok_0 is Cancelled <==> cancelled_after),
        r matches Ok(CancellableEvent::Event(read)) ==> event == Ok::<Event, Error>(read),
{
}

/// A slot holds one operation at a time; a cancellation is delivered to the one that it
/// holds, is remembered, and can be closed out only before it was delivered.
pub proof fn law_slots_deliver_to_the_operation_they_hold(
    fresh: CancellationSlot,
    slot: &CancellationSlot,
    shown: Option<OperationToken>,
    token: OperationToken,
    reached: bool,
    installing: &mut CancellationSlot,
    installed: Result<(), SlotOccupied>,
    delivering: &mut CancellationSlot,
    delivered: bool,
    closing: &mut CancellationSlot,
    closed: bool,
    clearing: &mut CancellationSlot,
)
    requires
        call_ensures(CancellationSlot::new, (), fresh),
        call_ensures(CancellationSlot::registered, (slot,), shown),
        call_ensures(CancellationSlot::has_reached, (slot, token), reached),
        call_ensures(CancellationSlot::install, (installing, token), installed),
        call_ensures(CancellationSlot::deliver, (delivering, token), delivered),
        call_ensures(CancellationSlot::close, (closing, token), closed),
        call_ensures(CancellationSlot::clear, (clearing, token), ()),
    ensures
        fresh@.registered is None && !fresh@.delivered.contains(token),
        shown == slot@.registered,
        reached <==> slot@.delivered.contains(token),
        installed is Ok <==> old(installing)@.registered is None,
        installed is Ok ==> final(installing)@.registered == Some(token),
        installed is Err ==> final(installing)@.registered == old(installing)@.registered,
        final(installing)@.delivered == old(installing)@.delivered,
        delivered <==> old(delivering)@.registered == Some(token),
        delivered ==> final(delivering)@.delivered == old(delivering)@.delivered.insert(token),
        !delivered ==> final(delivering)@.delivered == old(delivering)@.delivered,
        final(delivering)@.registered == old(delivering)@.registered,
        closed <==> old(closing)@.registered == Some(token) && !old(
            closing
        )@.delivered.contains(token),
        closed ==> final(closing)@.registered is None,
        !closed ==> final(closing)@.registered == old(closing)@.registered,
        final(closing)@.delivered == old(closing)@.delivered,
        old(clearing)@.registered == Some(token) ==> final(clearing)@.registered is None,
        old(clearing)@.registered != Some(token) ==> final(clearing)@.registered == old(
            clearing
        )@.registered,
        final(clearing)@.delivered == old(clearing)@.delivered,
{
}

/// Feedback shows a match as success and a mismatch as a retry, pauses only after what was
/// accepted, once, and is silent about everything else.
pub proof fn law_feedback_shows_then_pauses(
    outcome: Option<MatchOutcome>,
    progress: FeedbackProgress,
    r: Option<FeedbackAction>,
)
    requires
        call_ensures(next_feedback, (outcome, progress), r),
    ensures
        r == Some(FeedbackAction::ShowSuccess) <==> outcome == Some(MatchOutcome::Matched)
            && progress == FeedbackProgress::Unshown,
        r == Some(FeedbackAction::PauseAfterSuccess) <==> outcome == Some(MatchOutcome::Matched)
            && progress == (FeedbackProgress::Shown { accepted: true }),
        r == Some(FeedbackAction::ShowRetry) <==> outcome == Some(MatchOutcome::NoMatch)
            && progress == FeedbackProgress::Unshown,
        r == Some(FeedbackAction::PauseAfterRetry) <==> outcome == Some(MatchOutcome::NoMatch)
            && progress == (FeedbackProgress::Shown { accepted: true }),
{
}

/// Whether `show`, and where it was accepted `pause`, was added.
pub open spec fn adds(
    before: Seq<(FeedbackAction, bool)>,
    after: Seq<(FeedbackAction, bool)>,
    show: FeedbackAction,
    pause: FeedbackAction,
) -> bool {
    ||| after == before.push((show, false))
    ||| exists|accepted: bool| after == before.push((show, true)).push((pause, accepted))
}

/// Feedback changes no outcome, and adds to what was offered exactly what the outcome
/// calls for.
pub proof fn law_feedback_changes_no_outcome<F: AuthenticationFeedback, E>(
    result: Result<MatchOutcome, E>,
    presentation: &mut F,
    r: Result<MatchOutcome, E>,
    silent: Result<MatchOutcome, E>,
)
    requires
        call_ensures(
            apply_authentication_feedback::<F, E>,
            (result, Some(presentation)),
            r,
        ),
        call_ensures(apply_authentication_feedback::<F, E>, (result, None::<&mut F>), silent),
    ensures
        r == result && silent == result,
        result == Ok::<MatchOutcome, E>(MatchOutcome::Matched) ==> adds(
            old(presentation).offered(),
            final(presentation).offered(),
            FeedbackAction::ShowSuccess,
            FeedbackAction::PauseAfterSuccess,
        ),
        result == Ok::<MatchOutcome, E>(MatchOutcome::NoMatch) ==> adds(
            old(presentation).offered(),
            final(presentation).offered(),
            FeedbackAction::ShowRetry,
            FeedbackAction::PauseAfterRetry,
        ),
        result != Ok::<MatchOutcome, E>(MatchOutcome::Matched) && result != Ok::<MatchOutcome, E>(
            MatchOutcome::NoMatch,
        ) ==> final(presentation).offered() == old(presentation).offered(),
{
    let before = old(presentation).offered();
    let after = final(presentation).offered();
    let offered = after.subrange(before.len() as int, after.len() as int);
    assert(after =~= before + offered) by {
        assert(after.subrange(0, before.len() as int) == before);
    }
    if offered.len() == 0 {
        assert(after =~= before);
    } else if offered.len() == 1 {
        assert(after =~= before.push(offered[0]));
    } else if offered.len() == 2 {
        assert(after =~= before.push(offered[0]).push(offered[1]));
        assert(after == before.push((offered[0].0, true)).push((offered[1].0, offered[1].1)));
    }
}

} // verus!
