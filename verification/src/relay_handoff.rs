//! Handing the secure processor from the shared keybag relay to one exclusive
//! operation, and back.
//!
//! A healthy relay is required before anything changes. Once a stop has been
//! attempted, the only way to an outcome leads through a restart: the stop and
//! the operation yield a [`PendingRestart`], and only the restart's outcome turns
//! that into the end of the handoff. A failed restart overrides everything
//! before it.

use vstd::prelude::*;

verus! {

/// A call that returned, or unwound.
#[derive(Debug, PartialEq, Eq)]
pub enum Attempt<T> {
    Returned(T),
    Panicked,
}

/// Why a handoff failed: the relay was inactive, the relay's control failed, or
/// the operation failed.
#[derive(Debug, PartialEq, Eq)]
pub enum HandoffFault<RuntimeError, OperationError> {
    Inactive,
    Health(RuntimeError),
    Stop(RuntimeError),
    Recovery(RuntimeError),
    Operation(OperationError),
}

/// How a handoff ends.
#[derive(Debug, PartialEq, Eq)]
pub enum HandoffEnd<Success, RuntimeError, OperationError> {
    Returned(Result<Success, HandoffFault<RuntimeError, OperationError>>),
    /// Resume the unwinding of the stop or of the operation.
    ResumePrimary,
    /// Resume the unwinding of the restart.
    ResumeRestart,
}

/// The relay is healthy: stop it next.
pub struct PendingStop {
    admitted: (),
}

/// The relay is stopped: run the operation next.
pub struct PendingOperation {
    admitted: (),
}

/// A stop has been attempted: restart the relay next.
pub struct PendingRestart<Success, RuntimeError, OperationError> {
    primary: Attempt<Result<Success, HandoffFault<RuntimeError, OperationError>>>,
}

impl<Success, RuntimeError, OperationError> PendingRestart<Success, RuntimeError, OperationError> {
    /// What came of the stop and the operation.
    pub closed spec fn outcome(self) -> Attempt<
        Result<Success, HandoffFault<RuntimeError, OperationError>>,
    > {
        self.primary
    }
}

/// What to do after a stop was attempted.
pub enum AfterStop<Success, RuntimeError, OperationError> {
    Operate(PendingOperation),
    Restart(PendingRestart<Success, RuntimeError, OperationError>),
}

/// Takes the health of the relay. Anything but a healthy relay ends the handoff
/// before it has changed anything.
pub fn relay_checked<RuntimeError, OperationError>(check: Result<bool, RuntimeError>) -> (r: Result<
    PendingStop,
    HandoffFault<RuntimeError, OperationError>,
>)
    ensures
        match check {
            Ok(active) => if active {
                r is Ok
            } else {
                r == Err::<PendingStop, HandoffFault<RuntimeError, OperationError>>(
                    HandoffFault::Inactive,
                )
            },
            Err(error) => r == Err::<PendingStop, HandoffFault<RuntimeError, OperationError>>(
                HandoffFault::Health(error),
            ),
        },
{
    match check {
        Ok(active) => if active {
            Ok(PendingStop { admitted: () })
        } else {
            Err(HandoffFault::Inactive)
        },
        Err(error) => Err(HandoffFault::Health(error)),
    }
}

impl PendingStop {
    /// Takes the outcome of the stop. The operation runs only after a stop that
    /// succeeded; after any other stop the relay is restarted at once.
    pub fn relay_stopped<Success, RuntimeError, OperationError>(
        self,
        stop: Attempt<Result<(), RuntimeError>>,
    ) -> (r: AfterStop<Success, RuntimeError, OperationError>)
        ensures
            match stop {
                Attempt::Returned(Ok(())) => r is Operate,
                Attempt::Returned(Err(error)) => r is Restart && r->Restart_0.outcome()
                    == Attempt::Returned(
                    Err::<Success, HandoffFault<RuntimeError, OperationError>>(
                        HandoffFault::Stop(error),
                    ),
                ),
                Attempt::Panicked => r is Restart && r->Restart_0.outcome() is Panicked,
            },
    {
        match stop {
            Attempt::Returned(Ok(())) => AfterStop::Operate(PendingOperation { admitted: () }),
            Attempt::Returned(Err(error)) => AfterStop::Restart(
                PendingRestart { primary: Attempt::Returned(Err(HandoffFault::Stop(error))) },
            ),
            Attempt::Panicked => AfterStop::Restart(PendingRestart { primary: Attempt::Panicked }),
        }
    }
}

impl PendingOperation {
    /// Takes the outcome of the operation; the relay is restarted next, whatever
    /// the outcome.
    pub fn operation_ended<Success, RuntimeError, OperationError>(
        self,
        operation: Attempt<Result<Success, OperationError>>,
    ) -> (r: PendingRestart<Success, RuntimeError, OperationError>)
        ensures
            r.outcome() == match operation {
                Attempt::Returned(Ok(success)) => Attempt::Returned(
                    Ok::<Success, HandoffFault<RuntimeError, OperationError>>(success),
                ),
                Attempt::Returned(Err(error)) => Attempt::Returned(
                    Err(HandoffFault::Operation(error)),
                ),
                Attempt::Panicked => Attempt::Panicked,
            },
    {
        match operation {
            Attempt::Returned(Ok(success)) => PendingRestart {
                primary: Attempt::Returned(Ok(success)),
            },
            Attempt::Returned(Err(error)) => PendingRestart {
                primary: Attempt::Returned(Err(HandoffFault::Operation(error))),
            },
            Attempt::Panicked => PendingRestart { primary: Attempt::Panicked },
        }
    }
}

/// The end of a handoff, from what came of the stop and the operation, and of
/// the restart.
pub open spec fn end_of_handoff<Success, RuntimeError, OperationError>(
    primary: Attempt<Result<Success, HandoffFault<RuntimeError, OperationError>>>,
    restart: Attempt<Result<(), RuntimeError>>,
) -> HandoffEnd<Success, RuntimeError, OperationError> {
    match restart {
        Attempt::Panicked => HandoffEnd::ResumeRestart,
        Attempt::Returned(Err(error)) => HandoffEnd::Returned(Err(HandoffFault::Recovery(error))),
        Attempt::Returned(Ok(())) => match primary {
            Attempt::Returned(result) => HandoffEnd::Returned(result),
            Attempt::Panicked => HandoffEnd::ResumePrimary,
        },
    }
}

impl<Success, RuntimeError, OperationError> PendingRestart<Success, RuntimeError, OperationError> {
    /// Takes the outcome of the restart and ends the handoff.
    pub fn relay_restarted(self, restart: Attempt<Result<(), RuntimeError>>) -> (r: HandoffEnd<
        Success,
        RuntimeError,
        OperationError,
    >)
        ensures
            r == end_of_handoff(self.outcome(), restart),
    {
        match restart {
            Attempt::Panicked => HandoffEnd::ResumeRestart,
            Attempt::Returned(Err(error)) => HandoffEnd::Returned(
                Err(HandoffFault::Recovery(error)),
            ),
            Attempt::Returned(Ok(())) => match self.primary {
                Attempt::Returned(result) => HandoffEnd::Returned(result),
                Attempt::Panicked => HandoffEnd::ResumePrimary,
            },
        }
    }
}

/// A failed restart overrides every earlier outcome.
pub proof fn law_restart_failure_overrides<Success, RuntimeError, OperationError>(
    primary: Attempt<Result<Success, HandoffFault<RuntimeError, OperationError>>>,
    error: RuntimeError,
)
    ensures
        end_of_handoff(primary, Attempt::Returned(Err(error))) == HandoffEnd::<
            Success,
            RuntimeError,
            OperationError,
        >::Returned(Err(HandoffFault::Recovery(error))),
{
}

/// Success needs a success of the operation and of the restart.
pub proof fn law_success_needs_a_restarted_relay<Success, RuntimeError, OperationError>(
    primary: Attempt<Result<Success, HandoffFault<RuntimeError, OperationError>>>,
    restart: Attempt<Result<(), RuntimeError>>,
    success: Success,
)
    ensures
        end_of_handoff(primary, restart) == HandoffEnd::<
            Success,
            RuntimeError,
            OperationError,
        >::Returned(Ok(success)) <==> restart is Returned && restart->Returned_0 is Ok && primary == Attempt::Returned(
            Ok::<Success, HandoffFault<RuntimeError, OperationError>>(success),
        ),
{
}

} // verus!
