//! What surrounds an operation: the relay's handoff, the lease, the owner's preflight and
//! the texts that are read.

use crate::auth_lifecycle::{AuthenticationLifecycleError, AuthenticationLifecycleStage};
use crate::auth_protocol::AccessPolicy;
use crate::bytes::has_prefix;
use crate::catacomb_store::CatacombStoreError;
use crate::enrollment_lifecycle::{
    check_lease_credential, claim_enrollment_owner, operation_under_lease,
    run_enrollment_transaction_after_handoff, EnrollmentLeaseOutcome, EnrollmentLifecycleError,
    EnrollmentLifecycleStage, EnrollmentOperationError, EnrollmentOwnerPreflightError, LeaseError,
    PendingInspection, PendingOwnerClaim, PendingOwnerLoad, PendingOwnerReload, PreflightStep,
};
use crate::enrollment_owner::{EnrollmentOwner, EnrollmentOwnerError, OwnerClaim};
use crate::laws::names::{
    is_decimal_numeral, lemma_decimals_count_tens, lemma_numerals_are_their_numbers, tens,
};
use crate::pam_client::parse_user_id;
use crate::process_status::{
    line_end, parse_effective_uid, run_end, uid_line, uid_prefix,
};
use crate::relay_handoff::{
    relay_checked, AfterStop, Attempt, HandoffEnd, HandoffFault, PendingOperation, PendingRestart,
    PendingStop,
};
use crate::secret::wipe;
use crate::standard_smoke::{
    recorded_owner, report_failed, StandardSmokeEnvironmentError, StandardSmokeReport,
    StandardSmokeStatus,
};
use vstd::prelude::*;

verus! {

/// An operation runs only between a relay that was active and stopped and one that is
/// restarted; the restart is tried whatever happened, and its failure is reported before
/// anything else.
pub proof fn law_relays_are_restarted_whatever_happened<S, R, O>(
    check: Result<bool, R>,
    first: Result<PendingStop, HandoffFault<R, O>>,
    stopping: PendingStop,
    stop: Attempt<Result<(), R>>,
    second: AfterStop<S, R, O>,
    operating: PendingOperation,
    operation: Attempt<Result<S, O>>,
    after_operation: PendingRestart<S, R, O>,
    restart: Attempt<Result<(), R>>,
    end: HandoffEnd<S, R, O>,
    unoperated: PendingRestart<S, R, O>,
    unoperated_end: HandoffEnd<S, R, O>,
)
    requires
        call_ensures(relay_checked::<R, O>, (check,), first),
        call_ensures(PendingStop::relay_stopped::<S, R, O>, (stopping, stop), second),
        call_ensures(
            PendingOperation::operation_ended::<S, R, O>,
            (operating, operation),
            after_operation,
        ),
        call_ensures(
            PendingRestart::<S, R, O>::relay_restarted,
            (after_operation, restart),
            end,
        ),
        second is Restart ==> second->Restart_0 == unoperated,
        call_ensures(
            PendingRestart::<S, R, O>::relay_restarted,
            (unoperated, restart),
            unoperated_end,
        ),
    ensures
        ({
            let restarted = restart is Returned && restart->Returned_0 is Ok;
            &&& first is Ok <==> check == Ok::<bool, R>(true)
            &&& check == Ok::<bool, R>(false) ==> first == Err::<PendingStop, HandoffFault<R, O>>(
                HandoffFault::Inactive,
            )
            &&& check matches Err(error) ==> first == Err::<PendingStop, HandoffFault<R, O>>(
                HandoffFault::Health(error),
            )
            &&& second is Operate <==> stop is Returned && stop->Returned_0 is Ok
            &&& restart is Panicked ==> end is ResumeRestart && unoperated_end is ResumeRestart
            &&& restart matches Attempt::Returned(Err(error)) ==> end == HandoffEnd::<
                S,
                R,
                O,
            >::Returned(Err(HandoffFault::Recovery(error))) && unoperated_end == end
            &&& restarted && operation is Panicked ==> end is ResumePrimary
            &&& restarted ==> (operation matches Attempt::Returned(Ok(success)) ==> end
                == HandoffEnd::<S, R, O>::Returned(Ok(success)))
            &&& restarted ==> (operation matches Attempt::Returned(Err(error)) ==> end
                == HandoffEnd::<S, R, O>::Returned(Err(HandoffFault::Operation(error))))
            &&& restarted && second is Restart ==> (stop matches Attempt::Returned(Err(error))
                ==> unoperated_end == HandoffEnd::<S, R, O>::Returned(
                Err(HandoffFault::Stop(error)),
            ))
            &&& restarted && second is Restart && stop is Panicked ==> unoperated_end
                is ResumePrimary
        }),
{
}

/// The relay's faults keep their stage in both lifecycles.
pub proof fn law_relay_faults_keep_their_stage<R, O>(
    fault: HandoffFault<R, O>,
    authentication: AuthenticationLifecycleError<R, O>,
    enrollment: EnrollmentLifecycleError<R, O>,
)
    requires
        call_ensures(
            AuthenticationLifecycleError::<R, O>::from_fault,
            (fault,),
            authentication,
        ),
        call_ensures(EnrollmentLifecycleError::<R, O>::from_fault, (fault,), enrollment),
    ensures
        fault is Inactive <==> authentication is RelayInactive,
        fault is Inactive <==> enrollment is RelayInactive,
        fault matches HandoffFault::Health(error) ==> authentication == (
        AuthenticationLifecycleError::<R, O>::Runtime {
            stage: AuthenticationLifecycleStage::RelayHealth,
            error,
        }) && enrollment == (EnrollmentLifecycleError::<R, O>::Runtime {
            stage: EnrollmentLifecycleStage::RelayHealth,
            error,
        }),
        fault matches HandoffFault::Stop(error) ==> authentication == (
        AuthenticationLifecycleError::<R, O>::Runtime {
            stage: AuthenticationLifecycleStage::RelayStop,
            error,
        }) && enrollment == (EnrollmentLifecycleError::<R, O>::Runtime {
            stage: EnrollmentLifecycleStage::RelayStop,
            error,
        }),
        fault matches HandoffFault::Recovery(error) ==> authentication == (
        AuthenticationLifecycleError::<R, O>::Runtime {
            stage: AuthenticationLifecycleStage::RelayRecovery,
            error,
        }) && enrollment == (EnrollmentLifecycleError::<R, O>::Runtime {
            stage: EnrollmentLifecycleStage::RelayRecovery,
            error,
        }),
        fault matches HandoffFault::Operation(error) ==> authentication
            == AuthenticationLifecycleError::<R, O>::Operation(error) && enrollment
            == EnrollmentLifecycleError::<R, O>::Operation(error),
{
}

/// A lease's credential has sixteen bytes, and an operation under it succeeds only where it
/// completed and the lease was cleaned up; the first failure is the one reported.
pub proof fn law_leases_report_the_first_failure<S, R, P, O>(
    credential: &[u8],
    checked: Result<(), LeaseError<R, P, O>>,
    result: Result<S, O>,
    operated: Result<S, LeaseError<R, P, O>>,
    outcome: EnrollmentLeaseOutcome<Result<S, LeaseError<R, P, O>>, P, R>,
    r: Result<S, LeaseError<R, P, O>>,
)
    requires
        call_ensures(check_lease_credential::<R, P, O>, (credential,), checked),
        call_ensures(operation_under_lease::<S, R, P, O>, (result,), operated),
        call_ensures(run_enrollment_transaction_after_handoff::<S, R, P, O>, (outcome,), r),
    ensures
        checked is Ok <==> credential@.len() == 16,
        checked is Err ==> checked->Err_0 is InvalidCredential,
        result matches Ok(success) ==> operated == Ok::<S, LeaseError<R, P, O>>(success),
        result matches Err(error) ==> operated == Err::<S, LeaseError<R, P, O>>(
            EnrollmentLifecycleError::Operation(EnrollmentOperationError::Transaction(error)),
        ),
        r is Ok <==> (outcome matches EnrollmentLeaseOutcome::Completed(Ok(_))),
        outcome matches EnrollmentLeaseOutcome::Completed(completed) ==> r == completed,
        outcome matches EnrollmentLeaseOutcome::PreparationFailed(error) ==> r == Err::<
            S,
            LeaseError<R, P, O>,
        >(EnrollmentLifecycleError::Operation(EnrollmentOperationError::Preparation(error))),
        outcome matches EnrollmentLeaseOutcome::AcquisitionFailed(error) ==> r == Err::<
            S,
            LeaseError<R, P, O>,
        >(
            EnrollmentLifecycleError::Runtime {
                stage: EnrollmentLifecycleStage::ExclusiveSepAndAcm,
                error,
            },
        ),
        outcome matches EnrollmentLeaseOutcome::CleanupFailed { operation: Err(primary), error }
            ==> r == Err::<S, LeaseError<R, P, O>>(primary),
        outcome matches EnrollmentLeaseOutcome::CleanupFailed { operation: Ok(_), error } ==> r
            == Err::<S, LeaseError<R, P, O>>(
            EnrollmentLifecycleError::Runtime {
                stage: EnrollmentLifecycleStage::LeaseCleanup,
                error,
            },
        ),
{
}

/// An owner is claimed only where it is recorded already, or none is and the store is
/// empty; a store that is not empty, or cannot be seen to be, belongs to nobody but an
/// owner that turns up recorded.
pub proof fn law_biometric_state_keeps_its_owner(
    owner: EnrollmentOwner,
    load: PendingOwnerLoad,
    loaded: Result<EnrollmentOwner, EnrollmentOwnerError>,
    second: PreflightStep,
    inspection: PendingInspection,
    empty: Result<bool, CatacombStoreError>,
    third: PreflightStep,
    reload: PendingOwnerReload,
    reloaded: Result<EnrollmentOwner, EnrollmentOwnerError>,
    fourth: PreflightStep,
    claim: PendingOwnerClaim,
    claimed: Result<OwnerClaim, EnrollmentOwnerError>,
    end: PreflightStep,
    load_step: PreflightStep,
)
    requires
        call_ensures(claim_enrollment_owner, (owner,), load_step),
        load_step is LoadOwner ==> load_step->LoadOwner_0 == load,
        call_ensures(PendingOwnerLoad::loaded, (load, loaded), second),
        inspection.owner == owner,
        call_ensures(PendingInspection::inspected, (inspection, empty), third),
        reload.owner == owner,
        call_ensures(PendingOwnerReload::reloaded, (reload, reloaded), fourth),
        call_ensures(PendingOwnerClaim::claimed, (claim, claimed), end),
    ensures
        load_step is LoadOwner,
        second is Claim <==> loaded == Ok::<EnrollmentOwner, EnrollmentOwnerError>(owner),
        second matches PreflightStep::Claim(pending) ==> pending.owner == owner,
        second is InspectStore <==> loaded == Err::<EnrollmentOwner, EnrollmentOwnerError>(
            EnrollmentOwnerError::MissingOwner,
        ),
        second matches PreflightStep::InspectStore(pending) ==> pending.owner == owner,
        loaded is Ok && loaded->Ok_0 != owner ==> second == PreflightStep::End(
            Err(EnrollmentOwnerPreflightError::Owner(EnrollmentOwnerError::DifferentOwner)),
        ),
        loaded is Err && loaded->Err_0 != EnrollmentOwnerError::MissingOwner ==> second
            == PreflightStep::End(Err(EnrollmentOwnerPreflightError::Owner(loaded->Err_0))),
        third is Claim <==> empty == Ok::<bool, CatacombStoreError>(true),
        third is ReloadOwner <==> empty != Ok::<bool, CatacombStoreError>(true),
        third matches PreflightStep::Claim(pending) ==> pending.owner == owner,
        third matches PreflightStep::ReloadOwner(pending) ==> pending.owner == owner,
        fourth is Claim <==> reloaded == Ok::<EnrollmentOwner, EnrollmentOwnerError>(owner),
        fourth matches PreflightStep::Claim(pending) ==> pending.owner == owner,
        reloaded is Ok && reloaded->Ok_0 != owner ==> fourth == PreflightStep::End(
            Err(EnrollmentOwnerPreflightError::Owner(EnrollmentOwnerError::DifferentOwner)),
        ),
        fourth == PreflightStep::End(Err(EnrollmentOwnerPreflightError::UnownedBiometricState))
            <==> reloaded == Err::<EnrollmentOwner, EnrollmentOwnerError>(
            EnrollmentOwnerError::MissingOwner,
        ),
        reloaded is Err && reloaded->Err_0 != EnrollmentOwnerError::MissingOwner ==> fourth
            == PreflightStep::End(Err(EnrollmentOwnerPreflightError::Owner(reloaded->Err_0))),
        end == PreflightStep::End(Ok(())) <==> claimed is Ok,
        claimed matches Err(error) ==> end == PreflightStep::End(
            Err(EnrollmentOwnerPreflightError::Owner(error)),
        ),
{
}

/// A user is named by its number in decimal, without superfluous zeros, and never 0.
pub proof fn law_users_are_named_by_their_number(argument: &[u8], r: Option<u32>)
    requires
        call_ensures(parse_user_id, (argument,), r),
    ensures
        r is Some <==> is_decimal_numeral(argument@) && 1 <= tens(argument@) <= 4_294_967_295,
        r matches Some(user_id) ==> user_id == tens(argument@),
{
    if let Some(user_id) = r {
        lemma_decimals_count_tens(user_id as nat);
    } else if is_decimal_numeral(argument@) && 1 <= tens(argument@) <= 4_294_967_295 {
        lemma_numerals_are_their_numbers(argument@);
        let user_id: u32 = tens(argument@) as u32;
        assert(argument@ == crate::decimal::decimal(user_id as nat));
    }
}

/// A blank inside a line.
pub open spec fn is_blank_byte(byte: u8) -> bool {
    byte == 32 || byte == 9 || byte == 12 || byte == 13
}

/// Whether a line that begins at `from` begins with `Uid:`.
pub open spec fn is_uid_line(text: Seq<u8>, from: int) -> bool {
    &&& 0 <= from && from + 4 <= text.len() && (from == 0 || text[from - 1] == 10)
    &&& text[from] == 85 && text[from + 1] == 105 && text[from + 2] == 100 && text[from + 3] == 58
}

proof fn lemma_line_end(text: Seq<u8>, from: int, end: int)
    requires
        0 <= from <= end <= text.len(),
        forall|i: int| from <= i < end ==> #[trigger] text[i] != 10,
        end == text.len() || text[end] == 10,
    ensures
        line_end(text, from) == end,
    decreases end - from,
{
    if from < end {
        assert(text[from] != 10);
        lemma_line_end(text, from + 1, end);
    }
}

proof fn lemma_line_end_exists(text: Seq<u8>, from: int) -> (end: int)
    requires
        0 <= from <= text.len(),
    ensures
        from <= end <= text.len(),
        line_end(text, from) == end,
        end == text.len() || text[end] == 10,
        forall|i: int| from <= i < end ==> #[trigger] text[i] != 10,
    decreases text.len() - from,
{
    if from == text.len() || text[from] == 10 {
        from
    } else {
        let end = lemma_line_end_exists(text, from + 1);
        assert forall|i: int| from <= i < end implies #[trigger] text[i] != 10 by {}
        end
    }
}

proof fn lemma_prefix_at(text: Seq<u8>, from: int, end: int)
    requires
        0 <= from <= end <= text.len(),
        from == 0 || text[from - 1] == 10,
        forall|i: int| from <= i < end ==> #[trigger] text[i] != 10,
        end == text.len() || text[end] == 10,
    ensures
        has_prefix(text.subrange(from, end), uid_prefix()) <==> is_uid_line(text, from),
{
    let line = text.subrange(from, end);
    if has_prefix(line, uid_prefix()) {
        let head = line.subrange(0, 4);
        assert(head[0] == 85 && head[1] == 105 && head[2] == 100 && head[3] == 58);
    }
    if is_uid_line(text, from) {
        if end < from + 4 {
            assert(text[end] == 10);
            assert(end == from || end == from + 1 || end == from + 2 || end == from + 3);
        }
        assert(line.subrange(0, 4) =~= uid_prefix());
    }
}

proof fn lemma_no_uid_line(text: Seq<u8>, from: int)
    requires
        0 <= from <= text.len(),
        from == 0 || text[from - 1] == 10,
        forall|p: int| from <= p ==> !#[trigger] is_uid_line(text, p),
    ensures
        uid_line(text, from) is None,
    decreases text.len() - from,
{
    if from < text.len() {
        let end = lemma_line_end_exists(text, from);
        lemma_prefix_at(text, from, end);
        assert(!is_uid_line(text, from));
        if end < text.len() {
            lemma_no_uid_line(text, end + 1);
        }
    }
}

proof fn lemma_first_uid_line(text: Seq<u8>, from: int, first: int)
    requires
        0 <= from <= first,
        from == 0 || text[from - 1] == 10,
        is_uid_line(text, first),
        forall|p: int| from <= p < first ==> !#[trigger] is_uid_line(text, p),
    ensures
        uid_line(text, from) == Some(text.subrange(first + 4, line_end(text, first))),
    decreases first - from,
{
    let end = lemma_line_end_exists(text, from);
    lemma_prefix_at(text, from, end);
    if from == first {
        let line = text.subrange(from, end);
        assert(line.subrange(4, line.len() as int) =~= text.subrange(first + 4, end));
    } else {
        assert(!is_uid_line(text, from));
        if end >= first {
            assert(text[first - 1] != 10);
        }
        lemma_first_uid_line(text, end + 1, first);
    }
}

proof fn lemma_run_end(line: Seq<u8>, from: int, end: int, blank: bool)
    requires
        0 <= from <= end <= line.len(),
        forall|i: int|
            from <= i < end ==> crate::process_status::is_blank(#[trigger] line[i]) == blank,
        end == line.len() || crate::process_status::is_blank(line[end]) != blank,
    ensures
        run_end(line, from, blank) == end,
    decreases end - from,
{
    if from < end {
        assert(crate::process_status::is_blank(line[from]) == blank);
        lemma_run_end(line, from + 1, end, blank);
    }
}

/// Whether the line that begins at `line` and ends at `end` has its first two fields at
/// `first` and at `second`, each up to the blank behind it.
pub open spec fn has_fields(
    text: Seq<u8>,
    line: int,
    end: int,
    first: int,
    after_first: int,
    second: int,
    after_second: int,
) -> bool {
    &&& line + 4 <= first < after_first < second < after_second <= end <= text.len()
    &&& end == text.len() || text[end] == 10
    &&& forall|i: int| line <= i < end ==> #[trigger] text[i] != 10
    &&& forall|i: int| line + 4 <= i < first ==> is_blank_byte(#[trigger] text[i])
    &&& forall|i: int| first <= i < after_first ==> !is_blank_byte(#[trigger] text[i])
    &&& forall|i: int| after_first <= i < second ==> is_blank_byte(#[trigger] text[i])
    &&& forall|i: int| second <= i < after_second ==> !is_blank_byte(#[trigger] text[i])
    &&& after_second == end || is_blank_byte(text[after_second])
}

/// Whether every byte is a decimal digit.
pub open spec fn is_digits(bytes: Seq<u8>) -> bool {
    bytes.len() > 0 && forall|i: int| 0 <= i < bytes.len() ==> 48 <= #[trigger] bytes[i] <= 57
}

/// A process without a line that begins with `Uid:` has no effective user.
pub proof fn law_statuses_without_a_uid_name_nobody(status: &[u8], r: Option<u32>)
    requires
        call_ensures(parse_effective_uid, (status,), r),
        forall|p: int| !#[trigger] is_uid_line(status@, p),
    ensures
        r is None,
{
    lemma_no_uid_line(status@, 0);
}

/// The effective user is the second field of the first line that begins with `Uid:`, as a
/// decimal number that fits, with or without a plus.
pub proof fn law_the_second_uid_is_effective(
    status: &[u8],
    r: Option<u32>,
    line: int,
    end: int,
    first: int,
    after_first: int,
    second: int,
    after_second: int,
)
    requires
        call_ensures(parse_effective_uid, (status,), r),
        is_uid_line(status@, line),
        forall|p: int| 0 <= p < line ==> !#[trigger] is_uid_line(status@, p),
        has_fields(status@, line, end, first, after_first, second, after_second),
    ensures
        ({
            let digits = status@.subrange(
                if status@[second] == 43 {
                    second + 1
                } else {
                    second
                },
                after_second,
            );
            &&& r is Some <==> is_digits(digits) && tens(digits) <= 4_294_967_295
            &&& r matches Some(user_id) ==> user_id == tens(digits)
        }),
{
    let text = status@;
    lemma_first_uid_line(text, 0, line);
    lemma_line_end(text, line, end);
    let rest = text.subrange(line + 4, end);
    let a = first - line - 4;
    let b = after_first - line - 4;
    let c = second - line - 4;
    let d = after_second - line - 4;
    assert forall|i: int| 0 <= i < rest.len() implies crate::process_status::is_blank(
        #[trigger] rest[i],
    ) == is_blank_byte(text[line + 4 + i]) by {
        assert(text[line + 4 + i] != 10);
    }
    lemma_run_end(rest, 0, a, true);
    lemma_run_end(rest, a, b, false);
    lemma_run_end(rest, b, c, true);
    lemma_run_end(rest, c, d, false);
    let field = rest.subrange(c, d);
    assert(crate::process_status::second_field(rest) == field);
    let digits = text.subrange(
        if text[second] == 43 {
            second + 1
        } else {
            second
        },
        after_second,
    );
    assert(field[0] == text[second]);
    assert(crate::process_status::unsigned_digits(field) =~= digits);
    if is_digits(digits) {
        crate::laws::names::lemma_values_count_tens(digits);
        assert(crate::bytes::all_digits(digits));
    } else if crate::bytes::all_digits(digits) && digits.len() > 0 {
        assert forall|i: int| 0 <= i < digits.len() implies 48 <= #[trigger] digits[i] <= 57 by {
            assert(crate::bytes::is_digit(digits[i]));
        }
    }
}

/// A report fails by its error and by nothing else; a missing owner's record is no failure.
pub proof fn law_smoke_reports_fail_by_errors(
    report: StandardSmokeReport,
    failed: bool,
    policy: Result<AccessPolicy, EnrollmentOwnerError>,
    owner: Result<Option<AccessPolicy>, StandardSmokeEnvironmentError>,
)
    requires
        call_ensures(report_failed, (report,), failed),
        call_ensures(recorded_owner, (policy,), owner),
    ensures
        failed <==> report == StandardSmokeReport::Status(StandardSmokeStatus::Error),
        policy matches Ok(known) ==> owner == Ok::<
            Option<AccessPolicy>,
            StandardSmokeEnvironmentError,
        >(Some(known)),
        owner == Ok::<Option<AccessPolicy>, StandardSmokeEnvironmentError>(None) <==> policy
            == Err::<AccessPolicy, EnrollmentOwnerError>(EnrollmentOwnerError::MissingOwner),
        owner is Err <==> policy is Err && policy->Err_0 != EnrollmentOwnerError::MissingOwner,
{
}

/// Wiped bytes are zeros, as many as before.
pub proof fn law_wiped_bytes_are_zeros(bytes: &mut Vec<u8>)
    requires
        call_ensures(wipe, (bytes,), ()),
    ensures
        final(bytes)@.len() == old(bytes)@.len(),
        forall|i: int| 0 <= i < final(bytes)@.len() ==> #[trigger] final(bytes)@[i] == 0,
{
}

} // verus!
