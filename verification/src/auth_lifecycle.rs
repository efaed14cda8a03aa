//! Keybag-relay handoff around one Touch ID authentication operation.

use crate::relay_handoff::HandoffFault;
use vstd::prelude::*;

verus! {

/// Stage of a caller-owned authentication lifecycle failure.
#[derive(Clone, Copy, Debug, PartialEq, Eq, Structural)]
pub enum AuthenticationLifecycleStage {
    RelayHealth,
    RelayStop,
    RelayRecovery,
}

impl AuthenticationLifecycleStage {
    /// The stage's name, as text.
    pub open spec fn text(self) -> Seq<char> {
        match self {
            AuthenticationLifecycleStage::RelayHealth => "keybag relay health check"@,
            AuthenticationLifecycleStage::RelayStop => "keybag relay stop"@,
            AuthenticationLifecycleStage::RelayRecovery => "keybag relay recovery"@,
        }
    }

    /// The stage's name.
    pub fn message(self) -> (message: &'static str)
        ensures
            message@ == self.text(),
    {
        match self {
            AuthenticationLifecycleStage::RelayHealth => "keybag relay health check",
            AuthenticationLifecycleStage::RelayStop => "keybag relay stop",
            AuthenticationLifecycleStage::RelayRecovery => "keybag relay recovery",
        }
    }
}

/// An authentication lifecycle failure.
pub enum AuthenticationLifecycleError<RuntimeError, OperationError> {
    /// The shared keybag relay was not healthy before handoff.
    RelayInactive,
    /// The runtime failed at a lifecycle boundary.
    Runtime { stage: AuthenticationLifecycleStage, error: RuntimeError },
    /// The inner authentication operation failed.
    Operation(OperationError),
}

impl<RuntimeError, OperationError> AuthenticationLifecycleError<RuntimeError, OperationError> {
    /// The failure that a handoff's fault is reported as.
    pub open spec fn of_fault(fault: HandoffFault<RuntimeError, OperationError>) -> Self {
        match fault {
            HandoffFault::Inactive => AuthenticationLifecycleError::RelayInactive,
            HandoffFault::Health(error) => AuthenticationLifecycleError::Runtime {
                stage: AuthenticationLifecycleStage::RelayHealth,
                error,
            },
            HandoffFault::Stop(error) => AuthenticationLifecycleError::Runtime {
                stage: AuthenticationLifecycleStage::RelayStop,
                error,
            },
            HandoffFault::Recovery(error) => AuthenticationLifecycleError::Runtime {
                stage: AuthenticationLifecycleStage::RelayRecovery,
                error,
            },
            HandoffFault::Operation(error) => AuthenticationLifecycleError::Operation(error),
        }
    }

    /// Reports a handoff's fault.
    pub fn from_fault(fault: HandoffFault<RuntimeError, OperationError>) -> (r: Self)
        ensures
            r == Self::of_fault(fault),
    {
        match fault {
            HandoffFault::Inactive => AuthenticationLifecycleError::RelayInactive,
            HandoffFault::Health(error) => AuthenticationLifecycleError::Runtime {
                stage: AuthenticationLifecycleStage::RelayHealth,
                error,
            },
            HandoffFault::Stop(error) => AuthenticationLifecycleError::Runtime {
                stage: AuthenticationLifecycleStage::RelayStop,
                error,
            },
            HandoffFault::Recovery(error) => AuthenticationLifecycleError::Runtime {
                stage: AuthenticationLifecycleStage::RelayRecovery,
                error,
            },
            HandoffFault::Operation(error) => AuthenticationLifecycleError::Operation(error),
        }
    }

    /// The message, as text: it shows the stage and nothing of the error.
    pub open spec fn text(self) -> Seq<char> {
        match self {
            AuthenticationLifecycleError::RelayInactive => "keybag relay is not active before authentication"@,
            AuthenticationLifecycleError::Runtime { stage, .. } => match stage {
                AuthenticationLifecycleStage::RelayHealth => "authentication keybag relay health check failed"@,
                AuthenticationLifecycleStage::RelayStop => "authentication keybag relay stop failed"@,
                AuthenticationLifecycleStage::RelayRecovery => "authentication keybag relay recovery failed"@,
            },
            AuthenticationLifecycleError::Operation(_) => "inner authentication operation failed"@,
        }
    }

    /// A fixed message for each stage.
    pub fn message(&self) -> (message: &'static str)
        ensures
            message@ == self.text(),
    {
        match self {
            AuthenticationLifecycleError::RelayInactive => "keybag relay is not active before authentication",
            AuthenticationLifecycleError::Runtime { stage, .. } => match stage {
                AuthenticationLifecycleStage::RelayHealth => "authentication keybag relay health check failed",
                AuthenticationLifecycleStage::RelayStop => "authentication keybag relay stop failed",
                AuthenticationLifecycleStage::RelayRecovery => "authentication keybag relay recovery failed",
            },
            AuthenticationLifecycleError::Operation(_) => "inner authentication operation failed",
        }
    }

    /// The diagnostic, as text.
    pub open spec fn diagnostic_text(self) -> Seq<char> {
        match self {
            AuthenticationLifecycleError::RelayInactive => "RelayInactive"@,
            AuthenticationLifecycleError::Runtime { stage, .. } => match stage {
                AuthenticationLifecycleStage::RelayHealth => "Runtime { stage: RelayHealth, error: \"[redacted]\" }"@,
                AuthenticationLifecycleStage::RelayStop => "Runtime { stage: RelayStop, error: \"[redacted]\" }"@,
                AuthenticationLifecycleStage::RelayRecovery => "Runtime { stage: RelayRecovery, error: \"[redacted]\" }"@,
            },
            AuthenticationLifecycleError::Operation(_) => "Operation([redacted])"@,
        }
    }

    /// A diagnostic that shows the variant and the stage, and no error.
    pub fn diagnostic(&self) -> (text: &'static str)
        ensures
            text@ == self.diagnostic_text(),
    {
        match self {
            AuthenticationLifecycleError::RelayInactive => "RelayInactive",
            AuthenticationLifecycleError::Runtime { stage, .. } => match stage {
                AuthenticationLifecycleStage::RelayHealth => "Runtime { stage: RelayHealth, error: \"[redacted]\" }",
                AuthenticationLifecycleStage::RelayStop => "Runtime { stage: RelayStop, error: \"[redacted]\" }",
                AuthenticationLifecycleStage::RelayRecovery => "Runtime { stage: RelayRecovery, error: \"[redacted]\" }",
            },
            AuthenticationLifecycleError::Operation(_) => "Operation([redacted])",
        }
    }
}

} // verus!
