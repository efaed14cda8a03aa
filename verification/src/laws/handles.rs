//! What handles show of the work that they stand for, and how feedback goes with its end.

use crate::active_run::{ActiveDirectRun, ActiveStandardRun};
use crate::auth_daemon::AuthDaemonError;
use crate::auth_feedback::{AuthenticationFeedback, FeedbackAction};
use crate::auth_operation::PreparationStep;
use crate::auth_protocol::{
    ActiveModel, EnrollmentOwnerCandidate, OperationToken, Response,
};
use crate::auth_scheduler::{
    BrokerScheduler, BrokerServiceScheduler, ScheduledAuthentication, ScheduledStandardOperation,
    SchedulerError, WorkerLease,
};
use crate::auth_session::{
    ActiveAuthentication, ActiveStandardOperation, AuthenticationCompletion,
    AuthenticationSessionFailure, BrokerSessionCoordinator,
};
use crate::auth_socket::{
    ActiveBrokerSocketSession, BrokerSocketConnection, DisconnectObservation, PendingBrokerReply,
    SocketStatus,
};
use crate::biometric::{CredentialedUser, MatchOutcome};
use crate::catacomb_recovery::{
    CandidateRecovery, Disposal, JudgedRecovery, RemovingCleaning,
};
use crate::catacomb_restore::{
    CatacombRestoreError, CatacombRestoreStage, PendingValidation, RestoreFault,
};
use crate::catacomb_session::{CatacombSessionError, ExportFault};
use crate::catacomb_store::{
    CatacombPair, CatacombPairStore, PairPart, PairReading, StoreLimits,
};
use crate::catacomb_transaction::{CatacombPairTransaction, PendingWork, Work};
use crate::enrollment_transaction::{
    PendingCapture, PendingCutoff, PendingPersistence, PendingSystemPolicy, PendingUserPolicy,
    PendingVerification,
};
use crate::laws::operation::prepares;
use crate::laws::recovery::{is_file_to_go, is_to_go};
use crate::laws::runs::{client_leaves, holds_direct, holds_standard, is_lost, reaches};
use crate::laws::service::{has_cancelled, has_ended};
use crate::laws::session::{adds, is_ended, stands};
use crate::standard_enrollment::{
    StandardCapture, StandardDuplicateCheck, StandardLabeling, StandardPersistence,
    StandardRebinding, StandardReconciliation, StandardResolution, StandardRestore,
    StandardSubject, StandardSystemPolicy, StandardUser, StandardUserPolicy, StandardVerification,
};
use crate::standard_fingerprint_protocol::{
    IdentityId, MessageModel, ServerMessage, TerminalOutcome,
};
use crate::standard_operation_authority::{
    AuthorizedStandardOperation, ResolvedStandardAccount, ResolvedStandardOperation,
};
use crate::time::Duration;
use vstd::prelude::*;

verus! {

/// Whether feedback was given for exactly this outcome.
pub open spec fn is_fed_back(
    outcome: Option<MatchOutcome>,
    before: Seq<(FeedbackAction, bool)>,
    after: Seq<(FeedbackAction, bool)>,
) -> bool {
    &&& outcome == Some(MatchOutcome::Matched) ==> adds(
        before,
        after,
        FeedbackAction::ShowSuccess,
        FeedbackAction::PauseAfterSuccess,
    )
    &&& outcome == Some(MatchOutcome::NoMatch) ==> adds(
        before,
        after,
        FeedbackAction::ShowRetry,
        FeedbackAction::PauseAfterRetry,
    )
    &&& outcome != Some(MatchOutcome::Matched) && outcome != Some(MatchOutcome::NoMatch) ==> after
        == before
}

proof fn lemma_fed_back(
    outcome: Option<MatchOutcome>,
    before: Seq<(FeedbackAction, bool)>,
    after: Seq<(FeedbackAction, bool)>,
)
    requires
        crate::auth_feedback::presents(outcome, before, after),
    ensures
        is_fed_back(outcome, before, after),
{
    let offered = after.subrange(before.len() as int, after.len() as int);
    assert(after =~= before + offered) by {
        assert(after.subrange(0, before.len() as int) == before);
    }
    if offered.len() == 0 {
        assert(after =~= before);
    } else if offered.len() == 1 {
        assert(after =~= before.push(offered[0]));
    } else if offered.len() == 2 {
        assert(after =~= before.push(offered[0]).push(offered[1]));
        assert(after == before.push((offered[0].0, true)).push((offered[1].0, offered[1].1)));
    }
}

/// The outcome that a completion shows, where its operation still stands.
pub open spec fn shown_outcome(
    completion: AuthenticationCompletion,
    stands: bool,
) -> Option<MatchOutcome> {
    if stands && completion.outcome() is Ok {
        Some(completion.outcome()->Ok_0)
    } else {
        None
    }
}

/// Feedback goes with a completion whose operation stands, and with no other; it changes
/// neither the response nor the end of the operation.
pub proof fn law_coordinators_feed_back_what_stands<F: AuthenticationFeedback>(
    coordinator: &mut BrokerSessionCoordinator,
    completion: &AuthenticationCompletion,
    presentation: &mut F,
    response: Response,
)
    requires
        call_ensures(
            BrokerSessionCoordinator::finish_with_feedback::<F>,
            (coordinator, completion, Some(presentation)),
            response,
        ),
    ensures
        ({
            let token = completion.completed();
            let origin = completion.coordinator();
            &&& response == Response::Okay <==> stands(old(coordinator)@, origin, token)
                && completion.outcome() == Ok::<MatchOutcome, AuthenticationSessionFailure>(
                MatchOutcome::Matched,
            )
            &&& response == Response::Okay || response == Response::Failure
            &&& is_ended(old(coordinator)@, origin, token, final(coordinator)@)
            &&& is_fed_back(
                shown_outcome(*completion, stands(old(coordinator)@, origin, token)),
                old(presentation).offered(),
                final(presentation).offered(),
            )
        }),
{
    lemma_fed_back(
        old(coordinator)@.shown(*completion),
        old(presentation).offered(),
        final(presentation).offered(),
    );
}

/// The same of the service's own work.
pub proof fn law_services_feed_back_what_stands<F: AuthenticationFeedback>(
    service: &mut BrokerServiceScheduler,
    scheduled: &ScheduledAuthentication,
    completion: &AuthenticationCompletion,
    presentation: &mut F,
    now: Duration,
    response: Response,
)
    requires
        call_ensures(
            BrokerServiceScheduler::finish_with_feedback::<F>,
            (service, scheduled, completion, Some(presentation), now),
            response,
        ),
    ensures
        ({
            let operation = scheduled.admitted();
            let own = !old(service)@.workers.poisoned && holds_direct(old(service)@, *scheduled)
                && completion.completed() == operation.admitted().token
                && completion.coordinator() == operation.coordinator();
            let standing = own && stands(
                old(service)@.coordinator,
                completion.coordinator(),
                completion.completed(),
            );
            &&& response == Response::Okay <==> standing && completion.outcome() == Ok::<
                MatchOutcome,
                AuthenticationSessionFailure,
            >(MatchOutcome::Matched)
            &&& response == Response::Okay || response == Response::Failure
            &&& own ==> has_ended(
                old(service)@,
                operation.coordinator(),
                operation.admitted().token,
                now,
                final(service)@,
            )
            &&& !own ==> final(service)@ == old(service)@
            &&& is_fed_back(
                shown_outcome(*completion, standing),
                old(presentation).offered(),
                final(presentation).offered(),
            )
        }),
{
    lemma_fed_back(
        old(service)@.shown(*scheduled, *completion),
        old(presentation).offered(),
        final(presentation).offered(),
    );
}

/// And on the connection that asked.
pub proof fn law_sessions_feed_back_what_stands<D, F: AuthenticationFeedback>(
    session: ActiveBrokerSocketSession<D>,
    service: &mut BrokerServiceScheduler,
    completion: &AuthenticationCompletion,
    presentation: &mut F,
    now: Duration,
    reply: PendingBrokerReply<D>,
)
    requires
        call_ensures(
            ActiveBrokerSocketSession::<D>::finish_with_feedback::<F>,
            (session, service, completion, Some(presentation), now),
            reply,
        ),
    ensures
        ({
            let operation = session.work().admitted();
            let own = !old(service)@.workers.poisoned && holds_direct(
                old(service)@,
                session.work(),
            ) && completion.completed() == operation.admitted().token
                && completion.coordinator() == operation.coordinator();
            let standing = own && stands(
                old(service)@.coordinator,
                completion.coordinator(),
                completion.completed(),
            );
            &&& reply.target() == session.target()
            &&& reply.retained() == Response::Okay <==> standing && completion.outcome() == Ok::<
                MatchOutcome,
                AuthenticationSessionFailure,
            >(MatchOutcome::Matched)
            &&& reply.retained() == Response::Okay || reply.retained() == Response::Failure
            &&& own ==> has_ended(
                old(service)@,
                operation.coordinator(),
                operation.admitted().token,
                now,
                final(service)@,
            )
            &&& is_fed_back(
                shown_outcome(*completion, standing),
                old(presentation).offered(),
                final(presentation).offered(),
            )
        }),
{
    lemma_fed_back(
        old(service)@.shown(session.work(), *completion),
        old(presentation).offered(),
        final(presentation).offered(),
    );
}

/// Abandoned standard work is finished with an error, where the service holds it.
pub proof fn law_abandoned_standard_work_errs(
    service: &mut BrokerServiceScheduler,
    scheduled: &ScheduledStandardOperation,
    now: Duration,
    message: ServerMessage,
)
    requires
        call_ensures(BrokerServiceScheduler::abandon_standard, (service, scheduled, now), message),
    ensures
        ({
            let coordinator = scheduled.admitted().coordinator();
            let token = scheduled.admitted().admitted().token;
            let held = holds_standard(old(service)@, *scheduled);
            let cancelled = held && coordinator == old(service)@.coordinator.identity && old(
                service
            )@.coordinator.broker.active == Some(ActiveModel { token, cancelled: true });
            &&& cancelled ==> message@ == MessageModel::Terminal(TerminalOutcome::Cancelled)
            &&& !cancelled ==> message@ == MessageModel::Terminal(TerminalOutcome::Error)
            &&& held ==> has_ended(old(service)@, coordinator, token, now, final(service)@)
            &&& !held ==> final(service)@ == old(service)@
        }),
{
}

/// The service closes delivery as its coordinator does, and changes nothing else.
pub proof fn law_services_close_cancellation(
    direct: &mut BrokerServiceScheduler,
    active: &ActiveAuthentication,
    closed: bool,
    standard: &mut BrokerServiceScheduler,
    operation: &ActiveStandardOperation,
    standard_closed: bool,
)
    requires
        call_ensures(BrokerServiceScheduler::close_cancellation, (direct, active), closed),
        call_ensures(
            BrokerServiceScheduler::close_standard_cancellation,
            (standard, operation),
            standard_closed,
        ),
    ensures
        ({
            let before = old(direct)@;
            let other = old(standard)@;
            &&& closed <==> active.coordinator() == before.coordinator.identity
                && before.coordinator.slot.registered == Some(active.admitted().token)
                && !before.coordinator.slot.delivered.contains(active.admitted().token)
            &&& closed ==> final(direct)@.coordinator.slot.registered is None
                && final(direct)@.coordinator.slot.delivered == before.coordinator.slot.delivered
                && final(direct)@.coordinator.broker == before.coordinator.broker
                && final(direct)@.workers == before.workers
            &&& !closed ==> final(direct)@ == before
            &&& standard_closed <==> operation.coordinator() == other.coordinator.identity
                && other.coordinator.slot.registered == Some(operation.admitted().token)
                && !other.coordinator.slot.delivered.contains(operation.admitted().token)
            &&& standard_closed ==> final(standard)@.coordinator.slot.registered is None
                && final(standard)@.coordinator.broker == other.coordinator.broker
                && final(standard)@.workers == other.workers
            &&& !standard_closed ==> final(standard)@ == other
        }),
{
}

/// Who holds what: a scheduler its one lease, a service the work of its own lease.
pub proof fn law_work_is_held_by_its_lease(
    now: Duration,
    idle_timeout: Duration,
    fresh: Result<BrokerScheduler, SchedulerError>,
    scheduler: &BrokerScheduler,
    lease: WorkerLease,
    held: bool,
    poisoned: bool,
    poisoning: &mut BrokerScheduler,
    service: &BrokerServiceScheduler,
    scheduled: &ScheduledAuthentication,
    owned: bool,
    standard: &ScheduledStandardOperation,
    standard_owned: bool,
    coordinator: &BrokerSessionCoordinator,
)
    requires
        call_ensures(BrokerScheduler::new, (now, idle_timeout), fresh),
        call_ensures(BrokerScheduler::owns, (scheduler, lease), held),
        call_ensures(BrokerScheduler::is_poisoned, (scheduler,), poisoned),
        call_ensures(BrokerScheduler::poison, (poisoning,), ()),
        call_ensures(BrokerServiceScheduler::owns, (service, scheduled), owned),
        call_ensures(BrokerServiceScheduler::owns_standard, (service, standard), standard_owned),
        call_ensures(BrokerServiceScheduler::coordinator, (service,), coordinator),
    ensures
        fresh is Ok <==> idle_timeout.nanos != 0,
        fresh matches Ok(idle) ==> idle@.active is None && idle@.next_lease == 1
            && !idle@.poisoned && idle@.idle_since == now && idle@.idle_timeout == idle_timeout,
        fresh matches Err(error) ==> error == SchedulerError::ZeroIdleTimeout,
        held <==> (scheduler@.active matches Some(worker) && worker.lease == lease),
        poisoned == scheduler@.poisoned,
        final(poisoning)@.poisoned,
        final(poisoning)@.active == old(poisoning)@.active && final(poisoning)@.next_lease == old(
            poisoning
        )@.next_lease && final(poisoning)@.idle_since == old(poisoning)@.idle_since,
        owned <==> holds_direct(service@, *scheduled),
        standard_owned <==> holds_standard(service@, *standard),
        coordinator@ == service@.coordinator,
{
}

/// What a session on a socket does to its service.
pub proof fn law_sessions_act_for_their_work<D>(
    session: ActiveBrokerSocketSession<D>,
    service: &BrokerServiceScheduler,
    active: bool,
    observing: &mut BrokerServiceScheduler,
    peer_closed: Result<bool, SocketStatus>,
    observed: DisconnectObservation,
    expiring: &mut BrokerServiceScheduler,
    delivered: bool,
    losing: &mut BrokerServiceScheduler,
    lost: bool,
)
    requires
        call_ensures(ActiveBrokerSocketSession::<D>::is_active_in, (&session, service), active),
        call_ensures(
            ActiveBrokerSocketSession::<D>::observe_disconnect,
            (&session, peer_closed, observing),
            observed,
        ),
        call_ensures(
            ActiveBrokerSocketSession::<D>::deadline_expired,
            (&session, expiring),
            delivered,
        ),
        call_ensures(ActiveBrokerSocketSession::<D>::worker_lost, (session, losing), lost),
    ensures
        ({
            let work = session.work();
            let token = work.admitted().admitted().token;
            let coordinator = work.admitted().coordinator();
            let reached = holds_direct(old(observing)@, work) && reaches(
                old(observing)@,
                coordinator,
                token,
            );
            &&& active <==> holds_direct(service@, work)
            &&& observed == DisconnectObservation::Connected <==> peer_closed == Ok::<
                bool,
                SocketStatus,
            >(false)
            &&& observed == DisconnectObservation::CancellationDelivered <==> peer_closed != Ok::<
                bool,
                SocketStatus,
            >(false) && reached
            &&& observed == DisconnectObservation::CancellationDelivered ==> has_cancelled(
                old(observing)@,
                token,
                final(observing)@,
            )
            &&& observed != DisconnectObservation::CancellationDelivered ==> final(observing)@
                == old(observing)@
            &&& delivered <==> holds_direct(old(expiring)@, work) && reaches(
                old(expiring)@,
                coordinator,
                token,
            )
            &&& delivered ==> has_cancelled(old(expiring)@, token, final(expiring)@)
            &&& !delivered ==> final(expiring)@ == old(expiring)@
            &&& lost <==> holds_direct(old(losing)@, work)
            &&& is_lost(old(losing)@, lost, final(losing)@)
        }),
{
}

/// A standard run whose client leaves.
pub proof fn law_standard_runs_lose_their_client(
    run: &mut ActiveStandardRun,
    service: &mut BrokerServiceScheduler,
    r: Result<(), AuthDaemonError>,
)
    requires
        call_ensures(ActiveStandardRun::disconnect_standard_run, (run, service), r),
    ensures
        client_leaves(*old(run), old(service)@, r is Err, *final(run), final(service)@),
        r matches Err(error) ==> error == AuthDaemonError::Scheduler,
{
}

/// Scheduled work shows its operation, its deadline and its lease.
pub proof fn law_scheduled_work_shows_itself(
    scheduled: &ScheduledAuthentication,
    authentication: &ActiveAuthentication,
    deadline: Duration,
    lease: WorkerLease,
    candidate: Option<EnrollmentOwnerCandidate>,
    standard: &ScheduledStandardOperation,
    operation: &ActiveStandardOperation,
    standard_deadline: Duration,
    standard_lease: WorkerLease,
    copy: ActiveStandardOperation,
    admitted: &AuthorizedStandardOperation,
)
    requires
        call_ensures(ScheduledAuthentication::authentication, (scheduled,), authentication),
        call_ensures(ScheduledAuthentication::deadline, (scheduled,), deadline),
        call_ensures(ScheduledAuthentication::lease, (scheduled,), lease),
        call_ensures(
            ActiveAuthentication::enrollment_owner_candidate,
            (authentication,),
            candidate,
        ),
        call_ensures(ScheduledStandardOperation::operation, (standard,), operation),
        call_ensures(ScheduledStandardOperation::deadline, (standard,), standard_deadline),
        call_ensures(ScheduledStandardOperation::lease, (standard,), standard_lease),
        call_ensures(ActiveStandardOperation::clone_for_worker, (operation,), copy),
        call_ensures(ActiveStandardOperation::operation, (operation,), admitted),
    ensures
        *authentication == scheduled.admitted() && deadline == scheduled.due() && lease
            == scheduled.held_lease(),
        candidate == authentication.admitted().enrollment_owner_candidate,
        *operation == standard.admitted() && standard_deadline == standard.due() && standard_lease
            == standard.held_lease(),
        copy == *operation,
        *admitted == operation.admitted(),
{
}

/// Connections, replies, sessions and runs show what they were made of.
pub proof fn law_connections_show_what_they_were_made_of<D>(
    descriptor: D,
    connection: BrokerSocketConnection<D>,
    shown: &D,
    response: Response,
    reply: PendingBrokerReply<D>,
    reply_shown: &D,
    scheduled: ScheduledAuthentication,
    session: ActiveBrokerSocketSession<D>,
    session_shown: &D,
    session_work: &ScheduledAuthentication,
    authentication: &ActiveAuthentication,
    deadline: Duration,
    run: &ActiveDirectRun<D>,
    run_session: &ActiveBrokerSocketSession<D>,
    gone: bool,
    standard_run: &ActiveStandardRun,
    standard_work: &ScheduledStandardOperation,
)
    requires
        call_ensures(BrokerSocketConnection::<D>::new, (descriptor,), connection),
        call_ensures(BrokerSocketConnection::<D>::descriptor, (&connection,), shown),
        call_ensures(BrokerSocketConnection::<D>::reply, (connection, response), reply),
        call_ensures(PendingBrokerReply::<D>::descriptor, (&reply,), reply_shown),
        call_ensures(ActiveBrokerSocketSession::<D>::new, (descriptor, scheduled), session),
        call_ensures(ActiveBrokerSocketSession::<D>::descriptor, (&session,), session_shown),
        call_ensures(ActiveBrokerSocketSession::<D>::scheduled, (&session,), session_work),
        call_ensures(ActiveBrokerSocketSession::<D>::authentication, (&session,), authentication),
        call_ensures(ActiveBrokerSocketSession::<D>::deadline, (&session,), deadline),
        call_ensures(ActiveDirectRun::<D>::session, (run,), run_session),
        call_ensures(ActiveDirectRun::<D>::disconnect_observed, (run,), gone),
        call_ensures(ActiveStandardRun::scheduled, (standard_run,), standard_work),
    ensures
        *shown == descriptor && *reply_shown == descriptor && *session_shown == descriptor,
        *session_work == scheduled && *authentication == scheduled.admitted() && deadline
            == scheduled.due(),
        session.work() == scheduled && session.target() == descriptor,
        *run_session == run.bound() && gone == run.client_is_gone(),
        *standard_work == standard_run.bound(),
{
}

/// Copies of standard operations and messages are the same, and an admitted one shows
/// what it was admitted with.
pub proof fn law_copies_are_the_same(
    account: &ResolvedStandardAccount,
    account_copy: ResolvedStandardAccount,
    operation: &ResolvedStandardOperation,
    operation_copy: ResolvedStandardOperation,
    admitted: &AuthorizedStandardOperation,
    admitted_copy: AuthorizedStandardOperation,
    token: OperationToken,
    shown: &ResolvedStandardOperation,
    message: &ServerMessage,
    message_copy: ServerMessage,
    error: ServerMessage,
    id: &IdentityId,
    other: &IdentityId,
    same: bool,
)
    requires
        call_ensures(ResolvedStandardAccount::duplicate, (account,), account_copy),
        call_ensures(ResolvedStandardOperation::duplicate, (operation,), operation_copy),
        call_ensures(AuthorizedStandardOperation::clone_for_worker, (admitted,), admitted_copy),
        call_ensures(AuthorizedStandardOperation::token, (admitted,), token),
        call_ensures(AuthorizedStandardOperation::operation, (admitted,), shown),
        call_ensures(ServerMessage::duplicate, (message,), message_copy),
        call_ensures(ServerMessage::error, (), error),
        call_ensures(IdentityId::same, (id, other), same),
    ensures
        account_copy == *account,
        operation_copy == *operation,
        admitted_copy == *admitted,
        token == admitted.token && *shown == admitted.operation,
        message_copy@ == message@,
        error@ == MessageModel::Terminal(TerminalOutcome::Error),
        same <==> id.bytes == other.bytes,
{
}

/// What a store, a reading and a transaction's work show.
pub proof fn law_storage_handles_show_themselves(
    limits: StoreLimits,
    store: CatacombPairStore,
    shown: StoreLimits,
    reading: &PairReading,
    generation: &[u8],
    part: PairPart,
    reading_limits: StoreLimits,
    pending: &PendingWork,
    work: Work,
    content: &[u8],
    transaction: &CatacombPairTransaction,
)
    requires
        call_ensures(CatacombPairStore::new, (limits,), store),
        call_ensures(CatacombPairStore::limits, (&store,), shown),
        call_ensures(PairReading::generation, (reading,), generation),
        call_ensures(PairReading::part, (reading,), part),
        call_ensures(PairReading::limits, (reading,), reading_limits),
        call_ensures(PendingWork::work, (pending,), work),
        call_ensures(PendingWork::content, (pending,), content),
        call_ensures(PendingWork::transaction, (pending,), transaction),
    ensures
        shown == limits,
        generation@ == reading@.generation && part == reading@.part && reading_limits
            == reading@.limits,
        work == pending.task() && content@ == pending.written() && transaction@ == pending.on(),
{
}

/// What cleaning up and recovery show of the entry and the pair that they are about.
pub proof fn law_recovery_handles_show_themselves(
    removing: &RemovingCleaning,
    disposal: Disposal,
    candidate: &CandidateRecovery,
    token: &[u8],
    judged: &JudgedRecovery,
    pair: &CatacombPair,
)
    requires
        call_ensures(RemovingCleaning::disposal, (removing,), disposal),
        call_ensures(CandidateRecovery::token, (candidate,), token),
        call_ensures(JudgedRecovery::pair, (judged,), pair),
    ensures
        disposal == Disposal::RemoveGeneration <==> is_to_go(
            removing.listing()[removing.at()],
            removing.selected(),
            removing.reserved(),
        ),
        disposal == Disposal::RemoveFile <==> is_file_to_go(
            removing.listing()[removing.at()],
            removing.selected(),
        ),
        token@ == candidate.candidate(),
        pair@ == judged.judged_pair(),
{
    crate::laws::recovery::lemma_disposal(
        removing.listing()[removing.at()],
        removing.selected(),
        removing.reserved(),
    );
}

/// The stages of an enrollment show whom they are about.
pub proof fn law_enrollment_stages_show_their_user<'a>(
    system: &PendingSystemPolicy<'a>,
    system_subject: CredentialedUser<'a>,
    user: &PendingUserPolicy<'a>,
    user_subject: CredentialedUser<'a>,
    capture: &PendingCapture<'a>,
    capture_subject: CredentialedUser<'a>,
    cutoff: &PendingCutoff<'a>,
    cutoff_subject: CredentialedUser<'a>,
    persistence: &PendingPersistence<'a>,
    persistence_subject: CredentialedUser<'a>,
    verification: &PendingVerification<'a>,
    verification_subject: CredentialedUser<'a>,
)
    requires
        call_ensures(PendingSystemPolicy::<'a>::subject, (system,), system_subject),
        call_ensures(PendingUserPolicy::<'a>::subject, (user,), user_subject),
        call_ensures(PendingCapture::<'a>::subject, (capture,), capture_subject),
        call_ensures(PendingCutoff::<'a>::subject, (cutoff,), cutoff_subject),
        call_ensures(PendingPersistence::<'a>::subject, (persistence,), persistence_subject),
        call_ensures(PendingVerification::<'a>::subject, (verification,), verification_subject),
    ensures
        system_subject == system.whom(),
        user_subject == user.whom(),
        capture_subject == capture.whom(),
        cutoff_subject == cutoff.whom(),
        persistence_subject == persistence.whom(),
        verification_subject == verification.whom(),
{
}

/// The stages of a standard enrollment show whom they are about, and with what.
pub proof fn law_standard_stages_show_their_subject<'a, 'p, D, K, C, P, R, U, M>(
    resolution: &StandardResolution<'a>,
    pair: &'p CatacombPair,
    validation: PendingValidation<'p, 'a>,
    restore: &StandardRestore<'a, D>,
    begun: PreparationStep<'a, C, P, R, U, M>,
    user: &StandardUser<'a, D>,
    user_subject: StandardSubject<'a>,
    rebinding: &StandardRebinding<'a, D>,
    rebinding_subject: StandardSubject<'a>,
    system: &StandardSystemPolicy<'a, K>,
    system_subject: StandardSubject<'a>,
    policy: &StandardUserPolicy<'a, K>,
    policy_subject: StandardSubject<'a>,
    check: &StandardDuplicateCheck<'a, K>,
    check_subject: StandardSubject<'a>,
    capture: &StandardCapture<'a, K>,
    capture_subject: StandardSubject<'a>,
    labeling: &StandardLabeling<'a, K>,
    catalog: &K,
    persistence: &StandardPersistence<'a>,
    persistence_subject: StandardSubject<'a>,
    verification: &StandardVerification<'a>,
    verification_subject: StandardSubject<'a>,
)
    requires
        call_ensures(StandardResolution::<'a>::validate, (resolution, pair), validation),
        restore.whom().credential@.len() <= usize::MAX,
        call_ensures(StandardRestore::<'a, D>::begin::<C, P, R, U, M>, (restore,), begun),
        call_ensures(StandardUser::<'a, D>::subject, (user,), user_subject),
        call_ensures(StandardRebinding::<'a, D>::subject, (rebinding,), rebinding_subject),
        call_ensures(StandardSystemPolicy::<'a, K>::subject, (system,), system_subject),
        call_ensures(StandardUserPolicy::<'a, K>::subject, (policy,), policy_subject),
        call_ensures(StandardDuplicateCheck::<'a, K>::subject, (check,), check_subject),
        call_ensures(StandardCapture::<'a, K>::subject, (capture,), capture_subject),
        call_ensures(StandardLabeling::<'a, K>::catalog, (labeling,), catalog),
        call_ensures(StandardPersistence::<'a>::subject, (persistence,), persistence_subject),
        call_ensures(StandardVerification::<'a>::subject, (verification,), verification_subject),
    ensures
        validation.user() == resolution.user() && validation.candidate() == pair
            && validation.calibration() == resolution.calibration(),
        prepares(
            restore.whom().user_id,
            true,
            Some(restore.whom().credential),
            true,
            begun,
        ),
        user_subject == user.whom(),
        rebinding_subject == rebinding.whom(),
        system_subject == system.whom(),
        policy_subject == policy.whom(),
        check_subject == check.whom(),
        capture_subject == capture.whom(),
        *catalog == labeling.labels(),
        persistence_subject == persistence.whom(),
        verification_subject == verification.whom(),
{
}

/// What is reconciled: the identifiers that were found, in their places, for the owner that
/// was asked for, with the metadata that was committed.
pub proof fn law_reconciliations_show_what_was_found<'a, D>(
    reconciliation: &StandardReconciliation<'a, D>,
    before: Vec<IdentityId>,
    owner: &'a str,
    committed: Option<&D>,
)
    requires
        call_ensures(StandardReconciliation::<'a, D>::before, (reconciliation,), before),
        call_ensures(StandardReconciliation::<'a, D>::owner, (reconciliation,), owner),
        call_ensures(
            StandardReconciliation::<'a, D>::committed_metadata,
            (reconciliation,),
            committed,
        ),
    ensures
        before@.len() == reconciliation.found().len(),
        forall|i: int|
            0 <= i < before@.len() ==> (#[trigger] before@[i]).bytes
                == reconciliation.found()[i].identifier,
        owner@ == reconciliation.whom().owner@,
        committed is Some <==> reconciliation.metadata() is Some,
        committed matches Some(metadata) ==> reconciliation.metadata() == Some(*metadata),
{
}

/// A fault of a restore or of an export is reported as what it is.
pub proof fn law_faults_are_reported_as_what_they_are<T, P, C>(
    stage: CatacombRestoreStage,
    fault: RestoreFault<T, P>,
    reported: CatacombRestoreError<T, P, C>,
    export_fault: ExportFault<T, P>,
    export_reported: CatacombSessionError<T, P>,
)
    requires
        call_ensures(CatacombRestoreError::<T, P, C>::from_fault, (stage, fault), reported),
        call_ensures(CatacombSessionError::<T, P>::from_fault, (export_fault,), export_reported),
    ensures
        fault matches RestoreFault::Transport(error) ==> reported == (
        CatacombRestoreError::<T, P, C>::Transport { stage, error }),
        fault matches RestoreFault::Command(error) ==> reported == CatacombRestoreError::<
            T,
            P,
            C,
        >::Command(error),
        fault matches RestoreFault::Response(error) ==> reported == CatacombRestoreError::<
            T,
            P,
            C,
        >::Response(error),
        fault matches RestoreFault::Catacomb(error) ==> reported == CatacombRestoreError::<
            T,
            P,
            C,
        >::Catacomb(error),
        fault matches RestoreFault::Mesa(error) ==> reported == CatacombRestoreError::<
            T,
            P,
            C,
        >::Mesa(error),
        export_fault matches ExportFault::Transport(error) ==> export_reported
            == CatacombSessionError::<T, P>::Transport(error),
        export_fault matches ExportFault::Command(error) ==> export_reported
            == CatacombSessionError::<T, P>::Command(error),
        export_fault matches ExportFault::Catacomb(error) ==> export_reported
            == CatacombSessionError::<T, P>::Catacomb(error),
{
}

} // verus!
