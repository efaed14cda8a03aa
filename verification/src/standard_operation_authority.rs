//! Resolved operations of the standard fingerprint service and their admission
//! to the broker's one token.

use crate::auth_protocol::{BrokerModel, BrokerState, OperationToken, TokenAdmission};
use crate::standard_fingerprint_protocol::{
    FingerLabel, IdentityId, MessageModel, ServerMessage, TerminalOutcome,
};
use vstd::prelude::*;

verus! {

/// An account that has been resolved to a user id.
#[derive(Debug, PartialEq, Eq)]
pub struct ResolvedStandardAccount {
    pub name: String,
    pub user_id: u32,
}

/// One operation with everything it names resolved.
#[derive(Debug, PartialEq, Eq)]
pub enum ResolvedStandardOperation {
    ListIdentities,
    Verify { account: ResolvedStandardAccount, identity: IdentityId },
    Identify { account: ResolvedStandardAccount },
    Enroll { account: ResolvedStandardAccount, finger: FingerLabel },
    DeleteIdentity { account: ResolvedStandardAccount, identity: IdentityId },
}

impl ResolvedStandardAccount {
    /// An account equal to this one.
    pub fn duplicate(&self) -> (r: ResolvedStandardAccount)
        ensures
            r == *self,
    {
        ResolvedStandardAccount { name: self.name.clone(), user_id: self.user_id }
    }
}

impl ResolvedStandardOperation {
    /// An operation equal to this one.
    pub fn duplicate(&self) -> (r: ResolvedStandardOperation)
        ensures
            r == *self,
    {
        match self {
            ResolvedStandardOperation::ListIdentities => ResolvedStandardOperation::ListIdentities,
            ResolvedStandardOperation::Verify { account, identity } => {
                ResolvedStandardOperation::Verify {
                    account: account.duplicate(),
                    identity: *identity,
                }
            },
            ResolvedStandardOperation::Identify { account } => {
                ResolvedStandardOperation::Identify { account: account.duplicate() }
            },
            ResolvedStandardOperation::Enroll { account, finger } => {
                ResolvedStandardOperation::Enroll { account: account.duplicate(), finger: *finger }
            },
            ResolvedStandardOperation::DeleteIdentity { account, identity } => {
                ResolvedStandardOperation::DeleteIdentity {
                    account: account.duplicate(),
                    identity: *identity,
                }
            },
        }
    }
}

/// What the account authority says of a resolved operation.
pub enum StandardAuthority {
    /// The peer may run the operation.
    Granted,
    /// The peer may not; this message says so.
    Refused(ServerMessage),
}

/// An operation that holds the broker's token.
#[derive(PartialEq, Eq)]
pub struct AuthorizedStandardOperation {
    pub token: OperationToken,
    pub operation: ResolvedStandardOperation,
}

impl AuthorizedStandardOperation {
    /// The same authority and payload, for a worker.
    pub fn clone_for_worker(&self) -> (r: AuthorizedStandardOperation)
        ensures
            r == *self,
    {
        AuthorizedStandardOperation { token: self.token, operation: self.operation.duplicate() }
    }

    /// The broker's token.
    pub fn token(&self) -> (r: OperationToken)
        ensures
            r == self.token,
    {
        self.token
    }

    /// The resolved operation.
    pub fn operation(&self) -> (r: &ResolvedStandardOperation)
        ensures
            *r == self.operation,
    {
        &self.operation
    }
}

/// What the broker answers to a resolved operation.
pub enum StandardBrokerDecision {
    Start(AuthorizedStandardOperation),
    Reply(ServerMessage),
}

impl BrokerModel {
    /// What offering `offered` gives, and the state afterwards.
    pub open spec fn starts_standard(
        self,
        offered: ResolvedStandardOperation,
        decision: StandardBrokerDecision,
        after: BrokerModel,
    ) -> bool {
        if self.active is Some {
            after == self && decision is Reply && decision->Reply_0@ == MessageModel::Terminal(
                TerminalOutcome::Busy,
            )
        } else if self.next_token == 0 {
            after == self && decision is Reply && decision->Reply_0@ == MessageModel::error()
        } else {
            decision matches StandardBrokerDecision::Start(operation) && operation.operation
                == offered && operation.token.number() == self.next_token && after == self.with_started(
                operation.token,
            )
        }
    }
}

impl BrokerState {
    /// Admits one operation that the account authority has judged: a refusal is
    /// passed on and changes nothing, a granted operation gets the next token
    /// unless one is active.
    pub fn dispatch_standard(
        &mut self,
        authority: StandardAuthority,
        operation: ResolvedStandardOperation,
    ) -> (decision: StandardBrokerDecision)
        ensures
            match authority {
                StandardAuthority::Refused(message) => decision == StandardBrokerDecision::Reply(
                    message,
                ) && final(self)@ == old(self)@,
                StandardAuthority::Granted => old(self)@.starts_standard(
                    operation,
                    decision,
                    final(self)@,
                ),
            },
    {
        match authority {
            StandardAuthority::Refused(message) => StandardBrokerDecision::Reply(message),
            StandardAuthority::Granted => match self.start_token() {
                TokenAdmission::Start(token) => StandardBrokerDecision::Start(
                    AuthorizedStandardOperation { token, operation },
                ),
                TokenAdmission::Busy => StandardBrokerDecision::Reply(
                    ServerMessage::Terminal(TerminalOutcome::Busy),
                ),
                TokenAdmission::Failed => StandardBrokerDecision::Reply(ServerMessage::error()),
            },
        }
    }

    /// Ends one operation: a recorded cancellation wins over the result; a token
    /// that is not active changes nothing.
    pub fn finish_standard(
        &mut self,
        operation: &AuthorizedStandardOperation,
        result: ServerMessage,
    ) -> (r: Option<ServerMessage>)
        ensures
            r is Some <==> old(self)@.is_active(operation.token),
            r matches Some(message) ==> message@ == if old(self)@.active->0.cancelled {
                MessageModel::Terminal(TerminalOutcome::Cancelled)
            } else {
                result@
            },
            final(self)@ == if old(self)@.is_active(operation.token) {
                old(self)@.released()
            } else {
                old(self)@
            },
    {
        match self.finish_token(operation.token) {
            Some(cancelled) => if cancelled {
                Some(ServerMessage::Terminal(TerminalOutcome::Cancelled))
            } else {
                Some(result)
            },
            None => None,
        }
    }
}

} // verus!
