//! What failures say, and what diagnostics show.

use crate::auth_client::TouchIdClientError;
use crate::auth_daemon::AuthDaemonError;
use crate::auth_lifecycle::{AuthenticationLifecycleError, AuthenticationLifecycleStage};
use crate::auth_operation::AuthenticationOperationError;
use crate::auth_protocol::{
    BrokerState, EnrollmentOwnerCandidate, OperationToken, PeerMetadata, PolicyError, RequestError,
    Response, ResponseError,
};
use crate::auth_scheduler::{SchedulerError, WorkerLease};
use crate::auth_session::AuthenticationSessionFailure;
use crate::auth_socket::PendingBrokerReply;
use crate::catacomb_recovery::CatacombRecoveryError;
use crate::catacomb_restore::{CatacombRestoreError, CatacombRestoreStage, RestoredCatacomb};
use crate::catacomb_session::CatacombSessionError;
use crate::catacomb_store::{CatacombPair, CatacombStoreError};
use crate::enrollment_lifecycle::{
    EnrollmentLeaseOutcome, EnrollmentLifecycleError, EnrollmentLifecycleStage,
    EnrollmentOperationError, EnrollmentOwnerPreflightError,
};
use crate::enrollment_owner::{EnrollmentOwner, EnrollmentOwnerError};
use crate::enrollment_transaction::{EnrollmentPreparationError, EnrollmentTransactionError};
use crate::legacy_recovery::LegacyRecoveryReservationError;
use crate::standard_enrollment::{StandardEnrollmentError, StandardEnrollmentPreparationError};
use crate::laws::names::{is_decimal_numeral, tens};
use vstd::prelude::*;

verus! {

/// What a touch-id client error says, for each of its kinds.
pub proof fn law_messages_touch_id_client_error(what: TouchIdClientError, text: &str)
    requires
        call_ensures(TouchIdClientError::message, (what,), text),
    ensures
        what is InvalidCommand ==> text@ == "expected enroll, authenticate, or approve"@,
        what is BrokerUnavailable ==> text@ == "Touch ID broker is unavailable"@,
        what is UntrustedBroker ==> text@ == "Touch ID broker identity could not be verified"@,
        what is DeadlineExceeded ==> text@ == "Touch ID request timed out"@,
        what is SendFailed ==> text@ == "Touch ID request could not be sent"@,
        what is ReceiveFailed ==> text@ == "Touch ID response could not be received"@,
        what is InvalidResponse ==> text@ == "Touch ID broker returned an invalid response"@,
        what is Denied ==> text@ == "Touch ID request was denied"@,
        what is Busy ==> text@ == "Touch ID broker is busy"@,
        what is BrokerFailure ==> text@ == "Touch ID operation failed"@,
{
}

/// What an auth daemon error says, for each of its kinds.
pub proof fn law_messages_auth_daemon_error(what: AuthDaemonError, text: &str)
    requires
        call_ensures(AuthDaemonError::message, (what,), text),
    ensures
        what is Activation ==> text@ == "authentication broker activation failed"@,
        what is Lifecycle ==> text@ == "authentication broker lifecycle failed"@,
        what is Listener ==> text@ == "authentication broker listener failed"@,
        what is Scheduler ==> text@ == "authentication broker authority became uncertain"@,
        what is WorkerLost ==> text@ == "authentication broker worker was lost"@,
        what is Shutdown ==> text@ == "authentication broker shutdown did not complete"@,
{
}

/// What an authentication lifecycle stage says, for each of its kinds.
pub proof fn law_messages_authentication_lifecycle_stage(what: AuthenticationLifecycleStage, text: &str)
    requires
        call_ensures(AuthenticationLifecycleStage::message, (what,), text),
    ensures
        what is RelayHealth ==> text@ == "keybag relay health check"@,
        what is RelayStop ==> text@ == "keybag relay stop"@,
        what is RelayRecovery ==> text@ == "keybag relay recovery"@,
{
}

/// What an authentication lifecycle error says, for each of its kinds.
pub proof fn law_messages_authentication_lifecycle_error<R, O>(what: AuthenticationLifecycleError<R, O>, text: &str)
    requires
        call_ensures(AuthenticationLifecycleError::<R, O>::message, (&what,), text),
    ensures
        what is RelayInactive ==> text@ == "keybag relay is not active before authentication"@,
        what is Runtime && what->Runtime_stage == AuthenticationLifecycleStage::RelayHealth ==> text@ == "authentication keybag relay health check failed"@,
        what is Runtime && what->Runtime_stage == AuthenticationLifecycleStage::RelayStop ==> text@ == "authentication keybag relay stop failed"@,
        what is Runtime && what->Runtime_stage == AuthenticationLifecycleStage::RelayRecovery ==> text@ == "authentication keybag relay recovery failed"@,
        what is Operation ==> text@ == "inner authentication operation failed"@,
{
}

/// What an authentication lifecycle error shows of itself in diagnostics: its kind, and nothing that it carries.
pub proof fn law_diagnostics_authentication_lifecycle_error<R, O>(what: AuthenticationLifecycleError<R, O>, text: &str)
    requires
        call_ensures(AuthenticationLifecycleError::<R, O>::diagnostic, (&what,), text),
    ensures
        what is RelayInactive ==> text@ == "RelayInactive"@,
        what is Runtime && what->Runtime_stage == AuthenticationLifecycleStage::RelayHealth ==> text@ == "Runtime { stage: RelayHealth, error: \"[redacted]\" }"@,
        what is Runtime && what->Runtime_stage == AuthenticationLifecycleStage::RelayStop ==> text@ == "Runtime { stage: RelayStop, error: \"[redacted]\" }"@,
        what is Runtime && what->Runtime_stage == AuthenticationLifecycleStage::RelayRecovery ==> text@ == "Runtime { stage: RelayRecovery, error: \"[redacted]\" }"@,
        what is Operation ==> text@ == "Operation([redacted])"@,
{
}

/// What a request error says, for each of its kinds.
pub proof fn law_messages_request_error(what: RequestError, text: &str)
    requires
        call_ensures(RequestError::message, (what,), text),
    ensures
        what is WrongLength ==> text@ == "authentication request has the wrong length"@,
        what is WrongTerminator ==> text@ == "authentication request has the wrong terminator"@,
        what is UnsupportedVersion ==> text@ == "authentication request uses an unsupported version"@,
        what is UnsupportedAction ==> text@ == "authentication request uses an unsupported action"@,
{
}

/// What a response error says, for each of its kinds.
pub proof fn law_messages_response_error(what: ResponseError, text: &str)
    requires
        call_ensures(ResponseError::message, (what,), text),
    ensures
        what is WrongLength ==> text@ == "authentication response has the wrong length"@,
        what is UnsupportedResponse ==> text@ == "authentication response is unsupported"@,
{
}

/// What a peer metadata shows of itself in diagnostics: its kind, and nothing that it carries.
pub proof fn law_diagnostics_peer_metadata(what: PeerMetadata, text: &str)
    requires
        call_ensures(PeerMetadata::diagnostic, (&what,), text),
    ensures
        text@ == "PeerMetadata { credentials: <redacted> }"@,
{
}

/// What a policy error says, for each of its kinds.
pub proof fn law_messages_policy_error(what: PolicyError, text: &str)
    requires
        call_ensures(PolicyError::message, (what,), text),
    ensures
        text@ == "enrollment owner mapping is invalid"@,
{
}

/// What an enrollment owner candidate shows of itself in diagnostics: its kind, and nothing that it carries.
pub proof fn law_diagnostics_enrollment_owner_candidate(what: EnrollmentOwnerCandidate, text: &str)
    requires
        call_ensures(EnrollmentOwnerCandidate::diagnostic, (&what,), text),
    ensures
        text@ == "EnrollmentOwnerCandidate(<redacted>)"@,
{
}

/// What an operation token shows of itself in diagnostics: its kind, and nothing that it carries.
pub proof fn law_diagnostics_operation_token(what: OperationToken, text: &str)
    requires
        call_ensures(OperationToken::diagnostic, (&what,), text),
    ensures
        text@ == "OperationToken(<redacted>)"@,
{
}

/// What a worker lease shows of itself in diagnostics: its kind, and nothing that it carries.
pub proof fn law_diagnostics_worker_lease(what: WorkerLease, text: &str)
    requires
        call_ensures(WorkerLease::diagnostic, (&what,), text),
    ensures
        text@ == "WorkerLease(<redacted>)"@,
{
}

/// What a scheduler error says, for each of its kinds.
pub proof fn law_messages_scheduler_error(what: SchedulerError, text: &str)
    requires
        call_ensures(SchedulerError::message, (what,), text),
    ensures
        text@ == "broker idle timeout must be nonzero"@,
{
}

/// What an authentication session failure says, for each of its kinds.
pub proof fn law_messages_authentication_session_failure(what: AuthenticationSessionFailure, text: &str)
    requires
        call_ensures(AuthenticationSessionFailure::message, (what,), text),
    ensures
        what is InvalidOperationUser ==> text@ == "broker operation user is invalid"@,
        what is RelayInactive ==> text@ == "keybag relay is inactive"@,
        what is RelayHealth ==> text@ == "keybag relay health check failed"@,
        what is RelayStop ==> text@ == "keybag relay stop failed"@,
        what is ExclusiveSepAndAcm ==> text@ == "exclusive SEP or ACM lease failed"@,
        what is RelayRecovery ==> text@ == "keybag relay recovery failed"@,
        what is InvalidCredential ==> text@ == "ACM lease returned an invalid credential"@,
        what is Operation ==> text@ == "authentication operation failed"@,
{
}

/// What a catacomb restore stage is called, for each of its kinds.
pub proof fn law_names_catacomb_restore_stage(what: CatacombRestoreStage, text: &str)
    requires
        call_ensures(CatacombRestoreStage::name, (what,), text),
    ensures
        what is LiveIdentities ==> text@ == "LiveIdentities"@,
        what is SelectMaster ==> text@ == "SelectMaster"@,
        what is RefreshBeforeRestore ==> text@ == "RefreshBeforeRestore"@,
        what is LoadMaster ==> text@ == "LoadMaster"@,
        what is ValidateMaster ==> text@ == "ValidateMaster"@,
        what is LoadUser ==> text@ == "LoadUser"@,
        what is ValidateUser ==> text@ == "ValidateUser"@,
        what is RestoredIdentities ==> text@ == "RestoredIdentities"@,
        what is LockState ==> text@ == "LockState"@,
{
}

/// What a catacomb restore stage says, for each of its kinds.
pub proof fn law_messages_catacomb_restore_stage(what: CatacombRestoreStage, text: &str)
    requires
        call_ensures(CatacombRestoreStage::message, (what,), text),
    ensures
        what is LiveIdentities ==> text@ == "live identity read"@,
        what is SelectMaster ==> text@ == "master selection"@,
        what is RefreshBeforeRestore ==> text@ == "pre-restore component refresh"@,
        what is LoadMaster ==> text@ == "master load"@,
        what is ValidateMaster ==> text@ == "master validation"@,
        what is LoadUser ==> text@ == "user load"@,
        what is ValidateUser ==> text@ == "user validation"@,
        what is RestoredIdentities ==> text@ == "restored identity read"@,
        what is LockState ==> text@ == "restored lock-state read"@,
{
}

/// What a catacomb store error is called, for each of its kinds.
pub proof fn law_names_catacomb_store_error(what: CatacombStoreError, text: &str)
    requires
        call_ensures(CatacombStoreError::name, (what,), text),
    ensures
        what is MissingPair ==> text@ == "MissingPair"@,
        what is IncompletePair ==> text@ == "IncompletePair"@,
        what is InvalidBlob ==> text@ == "InvalidBlob"@,
        what is InvalidMetadata ==> text@ == "InvalidMetadata"@,
        what is StorageUnavailable ==> text@ == "StorageUnavailable"@,
        what is UnsafeStorage ==> text@ == "UnsafeStorage"@,
        what is PendingExport ==> text@ == "PendingExport"@,
        what is InvalidTransactionState ==> text@ == "InvalidTransactionState"@,
        what is PromotionDurabilityUnknown ==> text@ == "PromotionDurabilityUnknown"@,
{
}

/// What a catacomb store error says, for each of its kinds.
pub proof fn law_messages_catacomb_store_error(what: CatacombStoreError, text: &str)
    requires
        call_ensures(CatacombStoreError::message, (what,), text),
    ensures
        what is MissingPair ==> text@ == "no active catacomb pair exists"@,
        what is IncompletePair ==> text@ == "the active catacomb pair is incomplete"@,
        what is InvalidBlob ==> text@ == "a catacomb blob has an invalid size"@,
        what is InvalidMetadata ==> text@ == "catacomb identity metadata is invalid"@,
        what is StorageUnavailable ==> text@ == "catacomb storage is unavailable"@,
        what is UnsafeStorage ==> text@ == "catacomb storage has unsafe metadata"@,
        what is PendingExport ==> text@ == "a catacomb export is pending recovery"@,
        what is InvalidTransactionState ==> text@ == "catacomb transaction order is invalid"@,
        what is PromotionDurabilityUnknown ==> text@ == "catacomb pair was promoted but its durability is unknown"@,
{
}

/// What an enrollment lease outcome shows of itself in diagnostics: its kind, and nothing that it carries.
pub proof fn law_diagnostics_enrollment_lease_outcome<T, P, E>(what: EnrollmentLeaseOutcome<T, P, E>, text: &str)
    requires
        call_ensures(EnrollmentLeaseOutcome::<T, P, E>::diagnostic, (&what,), text),
    ensures
        what is Completed ==> text@ == "Completed([redacted])"@,
        what is PreparationFailed ==> text@ == "PreparationFailed([redacted])"@,
        what is AcquisitionFailed ==> text@ == "AcquisitionFailed([redacted])"@,
        what is CleanupFailed ==> text@ == "CleanupFailed([redacted])"@,
{
}

/// What an enrollment lifecycle stage says, for each of its kinds.
pub proof fn law_messages_enrollment_lifecycle_stage(what: EnrollmentLifecycleStage, text: &str)
    requires
        call_ensures(EnrollmentLifecycleStage::message, (what,), text),
    ensures
        what is RelayHealth ==> text@ == "keybag relay health check"@,
        what is RelayStop ==> text@ == "keybag relay stop"@,
        what is ExclusiveSepAndAcm ==> text@ == "exclusive SEP and ACM acquisition"@,
        what is LeaseCleanup ==> text@ == "exclusive SEP and ACM cleanup"@,
        what is RelayRecovery ==> text@ == "keybag relay recovery"@,
{
}

/// What an enrollment lifecycle error says, for each of its kinds.
pub proof fn law_messages_enrollment_lifecycle_error<R, O>(what: EnrollmentLifecycleError<R, O>, text: &str)
    requires
        call_ensures(EnrollmentLifecycleError::<R, O>::message, (&what,), text),
    ensures
        what is RelayInactive ==> text@ == "keybag relay is not active before enrollment"@,
        what is Runtime && what->Runtime_stage == EnrollmentLifecycleStage::RelayHealth ==> text@ == "enrollment keybag relay health check failed"@,
        what is Runtime && what->Runtime_stage == EnrollmentLifecycleStage::RelayStop ==> text@ == "enrollment keybag relay stop failed"@,
        what is Runtime && what->Runtime_stage == EnrollmentLifecycleStage::ExclusiveSepAndAcm ==> text@ == "enrollment exclusive SEP and ACM acquisition failed"@,
        what is Runtime && what->Runtime_stage == EnrollmentLifecycleStage::LeaseCleanup ==> text@ == "enrollment exclusive SEP and ACM cleanup failed"@,
        what is Runtime && what->Runtime_stage == EnrollmentLifecycleStage::RelayRecovery ==> text@ == "enrollment keybag relay recovery failed"@,
        what is InvalidCredential ==> text@ == "enrollment ACM lease returned an invalid credential"@,
        what is Operation ==> text@ == "inner enrollment transaction failed"@,
{
}

/// What an enrollment lifecycle error shows of itself in diagnostics: its kind, and nothing that it carries.
pub proof fn law_diagnostics_enrollment_lifecycle_error<R, O>(what: EnrollmentLifecycleError<R, O>, text: &str)
    requires
        call_ensures(EnrollmentLifecycleError::<R, O>::diagnostic, (&what,), text),
    ensures
        what is RelayInactive ==> text@ == "RelayInactive"@,
        what is Runtime && what->Runtime_stage == EnrollmentLifecycleStage::RelayHealth ==> text@ == "Runtime { stage: RelayHealth, error: \"[redacted]\" }"@,
        what is Runtime && what->Runtime_stage == EnrollmentLifecycleStage::RelayStop ==> text@ == "Runtime { stage: RelayStop, error: \"[redacted]\" }"@,
        what is Runtime && what->Runtime_stage == EnrollmentLifecycleStage::ExclusiveSepAndAcm ==> text@ == "Runtime { stage: ExclusiveSepAndAcm, error: \"[redacted]\" }"@,
        what is Runtime && what->Runtime_stage == EnrollmentLifecycleStage::LeaseCleanup ==> text@ == "Runtime { stage: LeaseCleanup, error: \"[redacted]\" }"@,
        what is Runtime && what->Runtime_stage == EnrollmentLifecycleStage::RelayRecovery ==> text@ == "Runtime { stage: RelayRecovery, error: \"[redacted]\" }"@,
        what is InvalidCredential ==> text@ == "InvalidCredential"@,
        what is Operation ==> text@ == "Operation([redacted])"@,
{
}

/// What an enrollment operation error shows of itself in diagnostics: its kind, and nothing that it carries.
pub proof fn law_diagnostics_enrollment_operation_error<P, T>(what: EnrollmentOperationError<P, T>, text: &str)
    requires
        call_ensures(EnrollmentOperationError::<P, T>::diagnostic, (&what,), text),
    ensures
        what is Preparation ==> text@ == "Preparation([redacted])"@,
        what is Transaction ==> text@ == "Transaction([redacted])"@,
{
}

/// What an enrollment owner shows of itself in diagnostics: its kind, and nothing that it carries.
pub proof fn law_diagnostics_enrollment_owner(what: EnrollmentOwner, text: &str)
    requires
        call_ensures(EnrollmentOwner::diagnostic, (&what,), text),
    ensures
        text@ == "EnrollmentOwner(<redacted>)"@,
{
}

/// What an enrollment owner error says, for each of its kinds.
pub proof fn law_messages_enrollment_owner_error(what: EnrollmentOwnerError, text: &str)
    requires
        call_ensures(EnrollmentOwnerError::message, (what,), text),
    ensures
        what is InvalidOwner ==> text@ == "enrollment owner is invalid"@,
        what is MissingOwner ==> text@ == "enrollment owner is not recorded"@,
        what is DifferentOwner ==> text@ == "a different user owns Touch ID enrollment"@,
        what is UnsafeStorage ==> text@ == "enrollment-owner storage is unsafe"@,
        what is CorruptState ==> text@ == "enrollment-owner state is corrupt"@,
        what is StorageUnavailable ==> text@ == "enrollment-owner storage is unavailable"@,
{
}

/// What an enrollment preparation error shows of itself in diagnostics: its kind, and nothing that it carries.
pub proof fn law_diagnostics_enrollment_preparation_error<R, C>(what: EnrollmentPreparationError<R, C>, text: &str)
    requires
        call_ensures(EnrollmentPreparationError::<R, C>::diagnostic, (&what,), text),
    ensures
        what is Recovery ==> text@ == "Recovery([redacted])"@,
        what is RecoveryBlocked ==> text@ == "RecoveryBlocked"@,
        what is StorageReservation ==> text@ == "StorageReservation([redacted])"@,
        what is Calibration ==> text@ == "Calibration([redacted])"@,
{
}

/// What an enrollment transaction error says, for each of its kinds.
pub proof fn law_messages_enrollment_transaction_error<U, S, P, E, B>(what: EnrollmentTransactionError<U, S, P, E, B>, text: &str)
    requires
        call_ensures(EnrollmentTransactionError::<U, S, P, E, B>::message, (&what,), text),
    ensures
        what is User ==> text@ == "enrollment user preparation failed"@,
        what is CatacombNotSecurelyLoaded ==> text@ == "enrollment user catacomb is not securely loaded"@,
        what is IdentityCapacityReached ==> text@ == "enrollment user is at identity capacity"@,
        what is SystemPolicy ==> text@ == "enrollment system policy failed"@,
        what is UserPolicy ==> text@ == "enrollment user policy failed"@,
        what is Enrollment ==> text@ == "Mesa enrollment failed"@,
        what is EnrollmentTimedOut ==> text@ == "Mesa enrollment timed out"@,
        what is EnrollmentCancelled ==> text@ == "Mesa enrollment was cancelled"@,
        what is Persistence ==> text@ == "catacomb persistence failed"@,
        what is PostCommitIdentityVerification ==> text@ == "post-commit identity verification failed; revalidate storage"@,
        what is IdentityMissingAfterCommit ==> text@ == "enrolled identity is absent after catacomb commit; revalidate storage"@,
{
}

/// What a legacy recovery reservation error says, for each of its kinds.
pub proof fn law_messages_legacy_recovery_reservation_error(what: LegacyRecoveryReservationError, text: &str)
    requires
        call_ensures(LegacyRecoveryReservationError::message, (what,), text),
    ensures
        what is Refused ==> text@ == "legacy recovery state is not uniquely eligible"@,
        what is Store ==> text@ == "legacy recovery storage is unavailable"@,
{
}

/// What a standard enrollment preparation error shows of itself in diagnostics: its kind, and nothing that it carries.
pub proof fn law_diagnostics_standard_enrollment_preparation_error<R, M, C>(what: StandardEnrollmentPreparationError<R, M, C>, text: &str)
    requires
        call_ensures(StandardEnrollmentPreparationError::<R, M, C>::diagnostic, (&what,), text),
    ensures
        what is Recovery ==> text@ == "Recovery([redacted])"@,
        what is RecoveryBlocked ==> text@ == "RecoveryBlocked"@,
        what is Store ==> text@ == "Store([redacted])"@,
        what is Metadata ==> text@ == "Metadata([redacted])"@,
        what is Calibration ==> text@ == "Calibration([redacted])"@,
{
}

/// What a standard enrollment error says, for each of its kinds.
pub proof fn law_messages_standard_enrollment_error<R, U, C, M, S, P, E, B>(what: StandardEnrollmentError<R, U, C, M, S, P, E, B>, text: &str)
    requires
        call_ensures(StandardEnrollmentError::<R, U, C, M, S, P, E, B>::message, (&what,), text),
    ensures
        what is Restore ==> text@ == "standard enrollment durable restore failed"@,
        what is User ==> text@ == "standard enrollment user preparation failed"@,
        what is CatacombNotSecurelyLoaded ==> text@ == "standard enrollment user catacomb is not securely loaded"@,
        what is IdentityCapacityReached ==> text@ == "standard enrollment identity capacity was reached"@,
        what is Catalog ==> text@ == "standard enrollment identity catalog is invalid"@,
        what is DuplicateCheck ==> text@ == "standard enrollment duplicate check failed"@,
        what is DuplicateIdentity ==> text@ == "fingerprint is already enrolled"@,
        what is InvalidIdentity ==> text@ == "standard enrollment returned an invalid identity"@,
        what is SystemPolicy ==> text@ == "standard enrollment system policy failed"@,
        what is UserPolicy ==> text@ == "standard enrollment user policy failed"@,
        what is Enrollment ==> text@ == "Mesa standard enrollment failed"@,
        what is EnrollmentTimedOut ==> text@ == "Mesa standard enrollment timed out"@,
        what is EnrollmentCancelled ==> text@ == "Mesa standard enrollment was cancelled"@,
        what is Persistence ==> text@ == "standard enrollment persistence failed"@,
        what is PostCommitIdentityVerification ==> text@ == "standard enrollment post-commit identity read failed"@,
        what is PostCommitIdentitySetChanged ==> text@ == "standard enrollment identity set changed during persistence"@,
{
}

/// A failure that carries the store's says what the store says; what only the protocol's
/// own layers can tell, it leaves to them.
pub proof fn law_carried_failures_speak_for_themselves<C, P, R, U, M, E, T, Q>(
    store: CatacombStoreError,
    store_text: &str,
    operation: &AuthenticationOperationError<C, P, R, U, M>,
    operation_text: Option<&'static str>,
    recovery: &CatacombRecoveryError<E>,
    recovery_text: &str,
    session: &CatacombSessionError<T, Q>,
    session_text: Option<&'static str>,
    session_diagnostic: Option<&'static str>,
    owner: EnrollmentOwnerError,
    owner_text: &str,
    preflight: EnrollmentOwnerPreflightError,
    preflight_text: &str,
)
    requires
        call_ensures(CatacombStoreError::message, (store,), store_text),
        call_ensures(
            AuthenticationOperationError::<C, P, R, U, M>::message,
            (operation,),
            operation_text,
        ),
        call_ensures(CatacombRecoveryError::<E>::message, (recovery,), recovery_text),
        call_ensures(CatacombSessionError::<T, Q>::message, (session,), session_text),
        call_ensures(CatacombSessionError::<T, Q>::diagnostic, (session,), session_diagnostic),
        call_ensures(EnrollmentOwnerError::message, (owner,), owner_text),
        call_ensures(EnrollmentOwnerPreflightError::message, (preflight,), preflight_text),
    ensures
        operation_text is Some <==> *operation is MissingCredential || *operation is Store,
        *operation is MissingCredential ==> operation_text->0@
            == "durable authentication requires an ACM credential"@,
        *operation == AuthenticationOperationError::<C, P, R, U, M>::Store(store)
            ==> operation_text->0@ == store_text@,
        *recovery == CatacombRecoveryError::<E>::Store(store) ==> recovery_text@ == store_text@,
        *recovery is Validator ==> recovery_text@ == "live catacomb validation failed"@,
        session_text is Some <==> *session is Transport || *session is Store,
        *session is Transport ==> session_text->0@ == "biometric transport failed"@,
        *session == CatacombSessionError::<T, Q>::Store(store) ==> session_text->0@ == store_text@,
        session_diagnostic is Some <==> *session is Transport,
        *session is Transport ==> session_diagnostic->0@ == "Transport([redacted])"@,
        preflight == EnrollmentOwnerPreflightError::Owner(owner) ==> preflight_text@
            == owner_text@,
        preflight is UnownedBiometricState ==> preflight_text@
            == "existing biometric state has no recorded owner"@,
{
}

/// Diagnostics of the broker and of a reply show whether there is work, whether it was
/// cancelled and what is answered, and no more.
pub proof fn law_diagnostics_of_live_values<D>(
    broker: &BrokerState,
    broker_text: &str,
    reply: &PendingBrokerReply<D>,
    reply_text: &str,
)
    requires
        call_ensures(BrokerState::diagnostic, (broker,), broker_text),
        call_ensures(PendingBrokerReply::<D>::diagnostic, (reply,), reply_text),
    ensures
        broker@.active is None ==> broker_text@
            == "BrokerState { active: false, cancellation_requested: false, .. }"@,
        broker@.active is Some && broker@.active->0.cancelled ==> broker_text@
            == "BrokerState { active: true, cancellation_requested: true, .. }"@,
        broker@.active is Some && !broker@.active->0.cancelled ==> broker_text@
            == "BrokerState { active: true, cancellation_requested: false, .. }"@,
        reply.retained() == Response::Okay ==> reply_text@
            == "PendingBrokerReply { response: Okay, .. }"@,
        reply.retained() == Response::Denied ==> reply_text@
            == "PendingBrokerReply { response: Denied, .. }"@,
        reply.retained() == Response::Busy ==> reply_text@
            == "PendingBrokerReply { response: Busy, .. }"@,
        reply.retained() == Response::Failure ==> reply_text@
            == "PendingBrokerReply { response: Failure, .. }"@,
{
}

/// Whether the text is the number in decimal.
pub open spec fn spells(text: Seq<char>, n: int) -> bool {
    exists|digits: Seq<u8>| #[trigger]
        is_decimal_numeral(digits) && tens(digits) == n && text.len() == digits.len() && forall|
            i: int,
        |
            0 <= i < text.len() ==> #[trigger] text[i] == digits[i] as char
}

proof fn lemma_spelled(n: nat)
    ensures
        spells(crate::decimal::decimal_text(n), n as int),
{
    crate::laws::names::lemma_decimals_count_tens(n);
    crate::laws::names::lemma_texts_spell_numerals(n);
    let digits = crate::decimal::decimal(n);
    assert(is_decimal_numeral(digits) && tens(digits) == n);
}

/// Whether the text is that of the state: `None`, or its number inside `Some(`..`)`.
pub open spec fn shows_state(text: Seq<char>, state: Option<u32>) -> bool {
    match state {
        None => text == "None"@,
        Some(bits) => exists|number: Seq<char>| #[trigger]
            spells(number, bits as int) && text == "Some("@ + number + ")"@,
    }
}

proof fn lemma_state_is_shown(state: Option<u32>)
    ensures
        shows_state(crate::catacomb_restore::state_text(state), state),
{
    if let Some(bits) = state {
        lemma_spelled(bits as nat);
        let number = crate::decimal::decimal_text(bits as nat);
        assert(spells(number, bits as int));
    }
}

/// What a failed restore says: where the transport failed, what the store says, what the
/// device showed.
pub proof fn law_messages_catacomb_restore_error<T, P, C>(
    error: &CatacombRestoreError<T, P, C>,
    r: Option<String>,
    stage: CatacombRestoreStage,
    stage_text: &str,
    stage_name: &str,
    store: CatacombStoreError,
    store_text: &str,
    store_name: &str,
    d: Option<String>,
)
    requires
        call_ensures(CatacombRestoreError::<T, P, C>::message, (error,), r),
        call_ensures(CatacombRestoreError::<T, P, C>::diagnostic, (error,), d),
        call_ensures(CatacombRestoreStage::message, (stage,), stage_text),
        call_ensures(CatacombRestoreStage::name, (stage,), stage_name),
        call_ensures(CatacombStoreError::message, (store,), store_text),
        call_ensures(CatacombStoreError::name, (store,), store_name),
        error matches CatacombRestoreError::Transport { stage: at, .. } ==> *at == stage,
        error matches CatacombRestoreError::Store(carried) ==> *carried == store,
    ensures
        r is None <==> *error is Command || *error is Response || *error is Catacomb || *error
            is Mesa,
        d is None <==> r is None || *error is Calibration,
        *error is Transport ==> r->0@ == "biometric transport failed during "@ + stage_text@ && d->0@
            == "Transport { stage: "@ + stage_name@ + ", error: \"[redacted]\" }"@,
        *error is Store ==> r->0@ == store_text@ && d->0@ == "Store("@ + store_name@ + ")"@,
        *error is Calibration ==> r->0@ == "recovery calibration failed"@,
        *error is LiveIdentityForAnotherUser ==> r->0@
            == "live catacomb contains an identity for another user"@ && d->0@
            == "LiveIdentityForAnotherUser"@,
        *error is NoEnrolledFingerprints ==> r->0@
            == "restored catacomb contains no enrolled fingerprints"@ && d->0@
            == "NoEnrolledFingerprints"@,
        *error is RestoredIdentityForAnotherUser ==> r->0@
            == "restored catacomb contains an identity for another user"@ && d->0@
            == "RestoredIdentityForAnotherUser"@,
        *error is CorruptedCatacomb ==> r->0@ == "SEP reports the restored catacomb as corrupted"@
            && d->0@ == "CorruptedCatacomb"@,
        *error is MasterNotLoaded ==> exists|text: Seq<char>| #[trigger]
            shows_state(text, (*error)->MasterNotLoaded_state) && r->0@
                == "restored master catacomb is not loaded (state="@ + text + ")"@ && d->0@
                == "MasterNotLoaded { state: "@ + text + " }"@,
        *error is UserNotSecurelyLoaded ==> exists|text: Seq<char>| #[trigger]
            shows_state(text, (*error)->UserNotSecurelyLoaded_state) && r->0@
                == "restored user catacomb is not securely loaded (state="@ + text + ")"@ && d->0@
                == "UserNotSecurelyLoaded { state: "@ + text + " }"@,
{
    if *error is MasterNotLoaded {
        let state = (*error)->MasterNotLoaded_state;
        lemma_state_is_shown(state);
        assert(shows_state(crate::catacomb_restore::state_text(state), state));
    }
    if *error is UserNotSecurelyLoaded {
        let state = (*error)->UserNotSecurelyLoaded_state;
        lemma_state_is_shown(state);
        assert(shows_state(crate::catacomb_restore::state_text(state), state));
    }
}

/// Diagnostics of a restored catacomb and of a pair show sizes, and nothing of what they
/// hold.
pub proof fn law_diagnostics_show_only_sizes(
    restored: &RestoredCatacomb,
    restored_text: String,
    pair: &CatacombPair,
    pair_text: String,
)
    requires
        call_ensures(RestoredCatacomb::diagnostic, (restored,), restored_text),
        call_ensures(CatacombPair::diagnostic, (pair,), pair_text),
    ensures
        exists|count: Seq<char>| #[trigger]
            spells(count, restored.members().len() as int) && restored_text@
                == "RestoredCatacomb { identity_count: "@ + count
                + ", identities: \"[redacted]\", already_loaded: "@ + (if restored.was_live() {
                "true"@
            } else {
                "false"@
            }) + " }"@,
        exists|master: Seq<char>, user: Seq<char>| #[trigger]
            spells(master, pair@.master.len() as int) && #[trigger] spells(
                user,
                pair@.user.len() as int,
            ) && pair_text@ == "CatacombPair { master_len: "@ + master
                + ", master: \"[redacted]\", user_len: "@ + user
                + ", user: \"[redacted]\", metadata: \"[redacted]\" }"@,
{
    lemma_spelled(restored.members().len());
    lemma_spelled(pair@.master.len());
    lemma_spelled(pair@.user.len());
}

} // verus!
