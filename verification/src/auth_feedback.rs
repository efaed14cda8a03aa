//! Best-effort cosmetic feedback that never changes an outcome.

use crate::auth_protocol::Purpose;
use crate::biometric::MatchOutcome;
use crate::overlay::OverlayState;
use vstd::prelude::*;

verus! {

/// One cosmetic action.
#[derive(Clone, Copy, Debug, PartialEq, Eq, Structural)]
pub enum FeedbackAction {
    ShowSuccess,
    PauseAfterSuccess,
    ShowRetry,
    PauseAfterRetry,
}

/// The presentation that carries cosmetic actions out.
pub trait AuthenticationFeedback {
    type Error;

    /// The actions that were offered so far, each with whether it was taken. A
    /// verified presentation says here what it has been offered.
    closed spec fn offered(&self) -> Seq<(FeedbackAction, bool)> {
        Seq::empty()
    }

    /// Carries one action out. A failure is cosmetic.
    fn apply(&mut self, action: FeedbackAction) -> (r: Result<(), Self::Error>)
        ensures
            final(self).offered() == old(self).offered().push((action, r is Ok)),
    ;
}

/// An outcome was shown, and then held if showing it worked.
pub open spec fn is_shown(
    offered: Seq<(FeedbackAction, bool)>,
    show: FeedbackAction,
    pause: FeedbackAction,
) -> bool {
    &&& offered.len() > 0
    &&& offered[0].0 == show
    &&& if offered[0].1 {
        offered.len() == 2 && offered[1].0 == pause
    } else {
        offered.len() == 1
    }
}

/// The presentation was offered exactly the feedback for `outcome`: success for a
/// match, a retry for a finger that did not match, and nothing for anything else.
pub open spec fn presents(
    outcome: Option<MatchOutcome>,
    before: Seq<(FeedbackAction, bool)>,
    after: Seq<(FeedbackAction, bool)>,
) -> bool {
    let offered = after.subrange(before.len() as int, after.len() as int);
    &&& before.len() <= after.len()
    &&& after.subrange(0, before.len() as int) == before
    &&& match outcome {
        Some(MatchOutcome::Matched) => is_shown(
            offered,
            FeedbackAction::ShowSuccess,
            FeedbackAction::PauseAfterSuccess,
        ),
        Some(MatchOutcome::NoMatch) => is_shown(
            offered,
            FeedbackAction::ShowRetry,
            FeedbackAction::PauseAfterRetry,
        ),
        _ => offered.len() == 0,
    }
}

/// The outcome that a result has, if any.
pub open spec fn outcome_of<OperationError>(result: Result<MatchOutcome, OperationError>) -> Option<
    MatchOutcome,
> {
    match result {
        Ok(outcome) => Some(outcome),
        Err(_) => None,
    }
}

/// A presentation that was offered nothing shows nothing.
pub proof fn lemma_nothing_is_presented(offered: Seq<(FeedbackAction, bool)>)
    ensures
        presents(None, offered, offered),
{
    assert(offered.subrange(0, offered.len() as int) =~= offered);
}

/// The initial presentation of an operation.
pub open spec fn initial_overlay(purpose: Purpose) -> OverlayState {
    match purpose {
        Purpose::Authenticate => OverlayState::Authenticate,
        Purpose::Approve => OverlayState::Approve,
        Purpose::Enrollment => OverlayState::Enrollment,
    }
}

/// The initial presentation of an operation.
pub fn initial_overlay_state(purpose: Purpose) -> (r: OverlayState)
    ensures
        r == initial_overlay(purpose),
{
    match purpose {
        Purpose::Authenticate => OverlayState::Authenticate,
        Purpose::Approve => OverlayState::Approve,
        Purpose::Enrollment => OverlayState::Enrollment,
    }
}

/// What has been presented so far.
#[derive(Clone, Copy, Debug, PartialEq, Eq, Structural)]
pub enum FeedbackProgress {
    /// Nothing yet.
    Unshown,
    /// The outcome has been offered to the presentation, which took it or not.
    Shown { accepted: bool },
    /// The pause has been offered too.
    Paused,
}

/// A confirmed match or non-match is shown, then held if showing it worked;
/// every other outcome, and the lack of one, shows nothing.
pub open spec fn feedback_for(
    outcome: Option<MatchOutcome>,
    progress: FeedbackProgress,
) -> Option<FeedbackAction> {
    match (outcome, progress) {
        (Some(MatchOutcome::Matched), FeedbackProgress::Unshown) => Some(
            FeedbackAction::ShowSuccess,
        ),
        (Some(MatchOutcome::Matched), FeedbackProgress::Shown { accepted: true }) => Some(
            FeedbackAction::PauseAfterSuccess,
        ),
        (Some(MatchOutcome::NoMatch), FeedbackProgress::Unshown) => Some(FeedbackAction::ShowRetry),
        (Some(MatchOutcome::NoMatch), FeedbackProgress::Shown { accepted: true }) => Some(
            FeedbackAction::PauseAfterRetry,
        ),
        _ => None,
    }
}

/// The next cosmetic action after an operation ended with `outcome`, or failed
/// without one.
pub fn next_feedback(outcome: Option<MatchOutcome>, progress: FeedbackProgress) -> (r: Option<
    FeedbackAction,
>)
    ensures
        r == feedback_for(outcome, progress),
{
    match outcome {
        Some(MatchOutcome::Matched) => match progress {
            FeedbackProgress::Unshown => Some(FeedbackAction::ShowSuccess),
            FeedbackProgress::Shown { accepted } => if accepted {
                Some(FeedbackAction::PauseAfterSuccess)
            } else {
                None
            },
            FeedbackProgress::Paused => None,
        },
        Some(MatchOutcome::NoMatch) => match progress {
            FeedbackProgress::Unshown => Some(FeedbackAction::ShowRetry),
            FeedbackProgress::Shown { accepted } => if accepted {
                Some(FeedbackAction::PauseAfterRetry)
            } else {
                None
            },
            FeedbackProgress::Paused => None,
        },
        _ => None,
    }
}

/// Carries out the feedback for `result`, if there is a presentation, and gives
/// the result back unchanged whatever the presentation does.
pub fn apply_authentication_feedback<Feedback: AuthenticationFeedback, OperationError>(
    result: Result<MatchOutcome, OperationError>,
    feedback: Option<&mut Feedback>,
) -> (r: Result<MatchOutcome, OperationError>)
    ensures
        r == result,
        match feedback {
            Some(presentation) => presents(
                outcome_of(result),
                presentation.offered(),
                final(presentation).offered(),
            ),
            None => true,
        },
{
    let outcome = match &result {
        Ok(outcome) => Some(*outcome),
        Err(_) => None,
    };
    if let Some(presentation) = feedback {
        let ghost before = presentation.offered();
        if let Some(action) = next_feedback(outcome, FeedbackProgress::Unshown) {
            let accepted = presentation.apply(action).is_ok();
            if let Some(pause) = next_feedback(outcome, FeedbackProgress::Shown { accepted }) {
                let _ = presentation.apply(pause);
            }
        }
        proof {
            let after = presentation.offered();
            assert(after.subrange(0, before.len() as int) =~= before);
        }
    }
    result
}

} // verus!
