//! Messages of the standard fingerprint service that the broker reads.

use crate::biometric::{same_identifier, IdentityIdentifier};
use vstd::prelude::*;

verus! {

/// Most identities that one owner may enroll.
pub const MAX_OWNER_IDENTITIES: usize = 3;

/// Identifier of one enrolled identity.
#[derive(Clone, Copy, Debug, PartialEq, Eq)]
pub struct IdentityId {
    pub bytes: IdentityIdentifier,
}

impl IdentityId {
    /// Whether the two identifiers are the same.
    pub fn same(&self, other: &IdentityId) -> (r: bool)
        ensures
            r == (*self == *other),
    {
        same_identifier(&self.bytes, &other.bytes)
    }
}

/// Which finger an identity was enrolled from.
#[derive(Clone, Copy, Debug, PartialEq, Eq, Structural)]
pub enum FingerLabel {
    LeftThumb,
    LeftIndex,
    LeftMiddle,
    LeftRing,
    LeftLittle,
    RightThumb,
    RightIndex,
    RightMiddle,
    RightRing,
    RightLittle,
}

/// One identity as listed to a client.
#[derive(Clone, Copy, Debug, PartialEq, Eq)]
pub struct ListedIdentity {
    pub id: IdentityId,
    pub finger: Option<FingerLabel>,
}

/// Progress of an enrollment in normalized stages.
#[derive(Clone, Copy, Debug, PartialEq, Eq, Structural)]
pub struct EnrollProgress {
    pub completed_stage: u8,
    pub total_stages: u8,
}

/// The end of an operation.
#[derive(Clone, Copy, Debug, PartialEq, Eq)]
pub enum TerminalOutcome {
    Matched(IdentityId),
    NoMatch,
    Enrolled(IdentityId),
    Cancelled,
    Busy,
    Error,
}

/// A message of the service to its client.
#[derive(Debug, PartialEq, Eq)]
pub enum ServerMessage {
    Capabilities(u8),
    Opened,
    IdentityList { owner: Option<String>, identities: Vec<ListedIdentity> },
    EnrollProgress(EnrollProgress),
    Terminal(TerminalOutcome),
}

/// A message as the contracts see it.
pub enum MessageModel {
    Capabilities(u8),
    Opened,
    IdentityList { owner: Option<Seq<char>>, identities: Seq<ListedIdentity> },
    EnrollProgress(EnrollProgress),
    Terminal(TerminalOutcome),
}

impl MessageModel {
    /// The message that reports an error.
    pub open spec fn error() -> MessageModel {
        MessageModel::Terminal(TerminalOutcome::Error)
    }

    /// Whether the message may end an operation.
    pub open spec fn ends_operation(self) -> bool {
        self is Terminal || self is IdentityList
    }
}

impl View for ServerMessage {
    type V = MessageModel;

    open spec fn view(&self) -> MessageModel {
        match *self {
            ServerMessage::Capabilities(stages) => MessageModel::Capabilities(stages),
            ServerMessage::Opened => MessageModel::Opened,
            ServerMessage::IdentityList { owner, identities } => MessageModel::IdentityList {
                owner: match owner {
                    Some(name) => Some(name@),
                    None => None,
                },
                identities: identities@,
            },
            ServerMessage::EnrollProgress(progress) => MessageModel::EnrollProgress(progress),
            ServerMessage::Terminal(outcome) => MessageModel::Terminal(outcome),
        }
    }
}

impl ServerMessage {
    /// The message that reports an error.
    pub fn error() -> (r: ServerMessage)
        ensures
            r@ == MessageModel::error(),
    {
        ServerMessage::Terminal(TerminalOutcome::Error)
    }

    /// A message equal to this one.
    pub fn duplicate(&self) -> (r: ServerMessage)
        ensures
            r@ == self@,
    {
        match self {
            ServerMessage::Capabilities(stages) => ServerMessage::Capabilities(*stages),
            ServerMessage::Opened => ServerMessage::Opened,
            ServerMessage::IdentityList { owner, identities } => {
                let owner_copy = match owner {
                    Some(name) => Some(name.clone()),
                    None => None,
                };
                let identities_copy = identities.clone();
                assert(identities_copy@ =~= identities@);
                ServerMessage::IdentityList { owner: owner_copy, identities: identities_copy }
            },
            ServerMessage::EnrollProgress(progress) => ServerMessage::EnrollProgress(*progress),
            ServerMessage::Terminal(outcome) => ServerMessage::Terminal(*outcome),
        }
    }
}

} // verus!
