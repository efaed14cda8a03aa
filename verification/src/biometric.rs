//! Plain values that the sensor's protocol hands to the daemon's decisions.

use vstd::prelude::*;

verus! {

/// Bytes in an authorization context's external form.
pub const ACM_CONTEXT_EXTERNAL_FORM_SIZE: usize = 16;

/// Bytes in an opaque identity identifier.
pub const IDENTIFIER_SIZE: usize = 16;

/// Bytes in an encoded identity: the user's id, then the identifier.
pub const IDENTITY_V1_SIZE: usize = 20;

/// An opaque identity identifier.
pub type IdentityIdentifier = [u8; 16];

/// How a fingerprint match ended.
#[derive(Clone, Copy, Debug, PartialEq, Eq, Structural)]
pub enum MatchOutcome {
    Matched,
    NoMatch,
    Cancelled,
    TimedOut,
}

/// How a fingerprint match ended, with the matched identity.
#[derive(Clone, Copy, Debug, PartialEq, Eq)]
pub enum IdentityMatchOutcome {
    Matched(IdentityIdentifier),
    NoMatch,
    Cancelled,
    TimedOut,
}

/// A user, and the credential that its caller holds for it.
#[derive(Clone, Copy)]
pub struct CredentialedUser<'a> {
    pub user_id: u32,
    pub credential: &'a [u8],
}

/// One enrolled identity.
#[derive(Clone, Copy, Debug, PartialEq, Eq)]
pub struct Identity {
    pub user_id: i32,
    pub identifier: IdentityIdentifier,
}

/// State of one component of the live catacomb.
#[derive(Clone, Copy, Debug, PartialEq, Eq, Structural)]
pub struct CatacombStateEntry {
    pub user_id: u32,
    pub state: u32,
}

/// Whether two identifiers are the same sixteen bytes.
pub fn same_identifier(a: &IdentityIdentifier, b: &IdentityIdentifier) -> (r: bool)
    ensures
        r == (*a == *b),
{
    let mut i: usize = 0;
    while i < IDENTIFIER_SIZE
        invariant
            i <= 16,
            forall|j: int| 0 <= j < i ==> a[j] == b[j],
        decreases 16 - i,
    {
        if a[i] != b[i] {
            return false;
        }
        i += 1;
    }
    assert(*a =~= *b);
    true
}

} // verus!
