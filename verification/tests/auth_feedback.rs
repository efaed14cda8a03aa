use t1_daemons::auth_feedback::{
    apply_authentication_feedback, initial_overlay_state, AuthenticationFeedback, FeedbackAction,
};
use t1_daemons::auth_protocol::Purpose;
use t1_daemons::biometric::MatchOutcome;
use t1_daemons::overlay::OverlayState;

#[derive(Clone, Copy, Debug, Eq, PartialEq)]
struct OperationError;

#[derive(Clone, Copy, Debug, Eq, PartialEq)]
struct CosmeticError;

struct FakeFeedback {
    calls: Vec<&'static str>,
    fail_first: bool,
}

impl FakeFeedback {
    fn available() -> Self {
        Self {
            calls: Vec::new(),
            fail_first: false,
        }
    }

    fn failing() -> Self {
        Self {
            calls: Vec::new(),
            fail_first: true,
        }
    }

    fn record(&mut self, call: &'static str) -> Result<(), CosmeticError> {
        self.calls.push(call);
        if self.fail_first && self.calls.len() == 1 {
            Err(CosmeticError)
        } else {
            Ok(())
        }
    }
}

impl AuthenticationFeedback for FakeFeedback {
    type Error = CosmeticError;

    fn apply(&mut self, action: FeedbackAction) -> Result<(), Self::Error> {
        self.record(match action {
            FeedbackAction::ShowRetry => "retry",
            FeedbackAction::PauseAfterRetry => "pause-retry",
            FeedbackAction::ShowSuccess => "success",
            FeedbackAction::PauseAfterSuccess => "pause-success",
        })
    }
}

#[test]
fn confirmed_results_select_exact_feedback_without_changing_outcome() {
    for (outcome, expected_calls) in [
        (
            MatchOutcome::Matched,
            [Some("success"), Some("pause-success")],
        ),
        (MatchOutcome::NoMatch, [Some("retry"), Some("pause-retry")]),
        (MatchOutcome::Cancelled, [None, None]),
        (MatchOutcome::TimedOut, [None, None]),
    ] {
        let mut feedback = FakeFeedback::available();
        assert_eq!(
            apply_authentication_feedback::<_, OperationError>(
                Ok(outcome),
                Some(&mut feedback)
            ),
            Ok(outcome)
        );
        assert_eq!(
            feedback.calls,
            expected_calls.into_iter().flatten().collect::<Vec<_>>()
        );
    }
}

#[test]
fn cosmetic_absence_and_failure_never_change_authoritative_result() {
    assert_eq!(
        apply_authentication_feedback::<FakeFeedback, OperationError>(
            Ok(MatchOutcome::Matched),
            None
        ),
        Ok(MatchOutcome::Matched)
    );

    let mut feedback = FakeFeedback::failing();
    assert_eq!(
        apply_authentication_feedback::<_, OperationError>(
            Ok(MatchOutcome::Matched),
            Some(&mut feedback)
        ),
        Ok(MatchOutcome::Matched)
    );
    assert_eq!(feedback.calls, ["success"]);

    let mut feedback = FakeFeedback::available();
    assert_eq!(
        apply_authentication_feedback(Err(OperationError), Some(&mut feedback)),
        Err(OperationError)
    );
    assert!(feedback.calls.is_empty());
}

#[test]
fn approval_uses_its_distinct_initial_state() {
    assert_eq!(
        initial_overlay_state(Purpose::Authenticate),
        OverlayState::Authenticate
    );
    assert_eq!(
        initial_overlay_state(Purpose::Approve),
        OverlayState::Approve
    );
    assert_eq!(
        initial_overlay_state(Purpose::Enrollment),
        OverlayState::Enrollment
    );
}
