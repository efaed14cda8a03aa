//! Master-first restore of one durable secure-catacomb pair.
//!
//! Existing valid identities make a restore unnecessary. Otherwise the master is
//! selected and refreshed, the durable master is loaded and checked, then the
//! user's blob is loaded and checked on its own, and the restored identities and
//! the lock state are checked last.

use crate::biometric::{CatacombStateEntry, Identity};
use crate::catacomb_store::{CatacombPair, CatacombStoreError};
use crate::decimal::{append_decimal, decimal_text};
use vstd::prelude::*;

verus! {

/// The master component's user id in the state list.
pub const MASTER_STATE_USER_ID: u32 = 0xffff_ffff;

/// State bit of a loaded master.
pub const MASTER_LOADED: u32 = 1;

/// State bits of a securely loaded user.
pub const USER_SECURELY_LOADED: u32 = 3;

/// Lock-state bit of a corrupted catacomb.
pub const CATACOMB_CORRUPTED: u32 = 0x80;

/// Identities validated after selecting or restoring one user's catacomb.
pub struct RestoredCatacomb {
    identities: Vec<Identity>,
    already_loaded: bool,
}

impl RestoredCatacomb {
    /// The identities.
    pub closed spec fn members(self) -> Seq<Identity> {
        self.identities@
    }

    /// Whether live identities made a restore unnecessary.
    pub closed spec fn was_live(self) -> bool {
        self.already_loaded
    }

    /// The validated identities needed by the subsequent match flow.
    pub fn identities(&self) -> (r: &[Identity])
        ensures
            r@ == self.members(),
    {
        self.identities.as_slice()
    }

    /// The identity count without exposing opaque identifiers.
    pub fn identity_count(&self) -> (r: usize)
        ensures
            r == self.members().len(),
    {
        self.identities.len()
    }

    /// Whether live identities made a restore unnecessary.
    pub fn already_loaded(&self) -> (r: bool)
        ensures
            r == self.was_live(),
    {
        self.already_loaded
    }

    /// The diagnostic rendering, as text.
    pub open spec fn diagnostic_text(self) -> Seq<char> {
        "RestoredCatacomb { identity_count: "@ + decimal_text(self.members().len())
            + ", identities: \"[redacted]\", already_loaded: "@ + (if self.was_live() {
            "true"@
        } else {
            "false"@
        }) + " }"@
    }

    /// The diagnostic rendering, which shows how many identities there are and
    /// none of them.
    pub fn diagnostic(&self) -> (rendering: String)
        ensures
            rendering@ == self.diagnostic_text(),
    {
        let mut rendering: String = String::from_str("RestoredCatacomb { identity_count: ");
        append_decimal(&mut rendering, self.identities.len() as u64);
        rendering.append(", identities: \"[redacted]\", already_loaded: ");
        if self.already_loaded {
            rendering.append("true");
        } else {
            rendering.append("false");
        }
        rendering.append(" }");
        assert(rendering@ =~= self.diagnostic_text());
        rendering
    }

    /// The identities themselves.
    pub fn into_identities(self) -> (r: Vec<Identity>)
        ensures
            r@ == self.members(),
    {
        self.identities
    }
}

/// Hardware command stage within paired restore.
#[derive(Clone, Copy, Debug, PartialEq, Eq, Structural)]
pub enum CatacombRestoreStage {
    /// Read the requested user's live identities before deciding to restore.
    LiveIdentities,
    /// Select the master component before loading the durable pair.
    SelectMaster,
    /// Refresh the component map before loading the durable master.
    RefreshBeforeRestore,
    /// Load the durable master component.
    LoadMaster,
    /// Validate the master component after loading it.
    ValidateMaster,
    /// Load the durable user component.
    LoadUser,
    /// Validate the user component after loading it.
    ValidateUser,
    /// Read the restored user's identities.
    RestoredIdentities,
    /// Read the restored user's secure-key-store state.
    LockState,
}

impl CatacombRestoreStage {
    /// The stage's name, as text.
    pub open spec fn text(self) -> Seq<char> {
        match self {
            CatacombRestoreStage::LiveIdentities => "live identity read"@,
            CatacombRestoreStage::SelectMaster => "master selection"@,
            CatacombRestoreStage::RefreshBeforeRestore => "pre-restore component refresh"@,
            CatacombRestoreStage::LoadMaster => "master load"@,
            CatacombRestoreStage::ValidateMaster => "master validation"@,
            CatacombRestoreStage::LoadUser => "user load"@,
            CatacombRestoreStage::ValidateUser => "user validation"@,
            CatacombRestoreStage::RestoredIdentities => "restored identity read"@,
            CatacombRestoreStage::LockState => "restored lock-state read"@,
        }
    }

    /// The stage's identifier, as text.
    pub open spec fn name_text(self) -> Seq<char> {
        match self {
            CatacombRestoreStage::LiveIdentities => "LiveIdentities"@,
            CatacombRestoreStage::SelectMaster => "SelectMaster"@,
            CatacombRestoreStage::RefreshBeforeRestore => "RefreshBeforeRestore"@,
            CatacombRestoreStage::LoadMaster => "LoadMaster"@,
            CatacombRestoreStage::ValidateMaster => "ValidateMaster"@,
            CatacombRestoreStage::LoadUser => "LoadUser"@,
            CatacombRestoreStage::ValidateUser => "ValidateUser"@,
            CatacombRestoreStage::RestoredIdentities => "RestoredIdentities"@,
            CatacombRestoreStage::LockState => "LockState"@,
        }
    }

    /// The stage's identifier.
    pub fn name(self) -> (name: &'static str)
        ensures
            name@ == self.name_text(),
    {
        match self {
            CatacombRestoreStage::LiveIdentities => "LiveIdentities",
            CatacombRestoreStage::SelectMaster => "SelectMaster",
            CatacombRestoreStage::RefreshBeforeRestore => "RefreshBeforeRestore",
            CatacombRestoreStage::LoadMaster => "LoadMaster",
            CatacombRestoreStage::ValidateMaster => "ValidateMaster",
            CatacombRestoreStage::LoadUser => "LoadUser",
            CatacombRestoreStage::ValidateUser => "ValidateUser",
            CatacombRestoreStage::RestoredIdentities => "RestoredIdentities",
            CatacombRestoreStage::LockState => "LockState",
        }
    }

    /// The stage's name.
    pub fn message(self) -> (message: &'static str)
        ensures
            message@ == self.text(),
    {
        match self {
            CatacombRestoreStage::LiveIdentities => "live identity read",
            CatacombRestoreStage::SelectMaster => "master selection",
            CatacombRestoreStage::RefreshBeforeRestore => "pre-restore component refresh",
            CatacombRestoreStage::LoadMaster => "master load",
            CatacombRestoreStage::ValidateMaster => "master validation",
            CatacombRestoreStage::LoadUser => "user load",
            CatacombRestoreStage::ValidateUser => "user validation",
            CatacombRestoreStage::RestoredIdentities => "restored identity read",
            CatacombRestoreStage::LockState => "restored lock-state read",
        }
    }
}

/// Why a command of a restore failed: its transport, or a malformed command,
/// daemon response, state list or identity.
#[derive(Debug, PartialEq, Eq)]
pub enum RestoreFault<TransportError, ProtocolError> {
    Transport(TransportError),
    Command(ProtocolError),
    Response(ProtocolError),
    Catacomb(ProtocolError),
    Mesa(ProtocolError),
}

/// How an optional component state is rendered.
pub open spec fn state_text(state: Option<u32>) -> Seq<char> {
    match state {
        Some(state) => "Some("@ + decimal_text(state as nat) + ")"@,
        None => "None"@,
    }
}

fn append_state(out: &mut String, state: Option<u32>)
    ensures
        final(out)@ == old(out)@ + state_text(state),
{
    match state {
        Some(state) => {
            out.append("Some(");
            append_decimal(out, state as u64);
            out.append(")");
        },
        None => {
            out.append("None");
        },
    }
    assert(out@ =~= old(out)@ + state_text(state));
}

/// A paired-restore failure.
#[derive(PartialEq, Eq)]
pub enum CatacombRestoreError<TransportError, ProtocolError, CalibrationError> {
    /// The caller-owned biometric transport failed.
    Transport { stage: CatacombRestoreStage, error: TransportError },
    /// Durable pair storage failed validation or could not be read.
    Store(CatacombStoreError),
    /// The live sensor could not be calibrated before recovery validation.
    Calibration(CalibrationError),
    /// A command packet or fixed response was malformed.
    Command(ProtocolError),
    /// Daemon metadata was malformed.
    Response(ProtocolError),
    /// Catacomb state metadata was malformed.
    Catacomb(ProtocolError),
    /// An identity record was malformed.
    Mesa(ProtocolError),
    /// A live identity-list response contained another user's identity.
    LiveIdentityForAnotherUser,
    /// The master component did not report its loaded bit after restore.
    MasterNotLoaded { state: Option<u32> },
    /// The concrete user did not report both required loaded bits.
    UserNotSecurelyLoaded { state: Option<u32> },
    /// The restored user blob contained no enrolled identities.
    NoEnrolledFingerprints,
    /// A restored identity-list response contained another user's identity.
    RestoredIdentityForAnotherUser,
    /// The secure-key-store state marked the restored catacomb corrupted.
    CorruptedCatacomb,
}

impl<TransportError, ProtocolError, CalibrationError> CatacombRestoreError<
    TransportError,
    ProtocolError,
    CalibrationError,
> {
    /// The failure that a command's fault is reported as.
    pub open spec fn of_fault(
        stage: CatacombRestoreStage,
        fault: RestoreFault<TransportError, ProtocolError>,
    ) -> Self {
        match fault {
            RestoreFault::Transport(error) => CatacombRestoreError::Transport { stage, error },
            RestoreFault::Command(error) => CatacombRestoreError::Command(error),
            RestoreFault::Response(error) => CatacombRestoreError::Response(error),
            RestoreFault::Catacomb(error) => CatacombRestoreError::Catacomb(error),
            RestoreFault::Mesa(error) => CatacombRestoreError::Mesa(error),
        }
    }

    /// Reports a command's fault.
    pub fn from_fault(
        stage: CatacombRestoreStage,
        fault: RestoreFault<TransportError, ProtocolError>,
    ) -> (r: Self)
        ensures
            r == Self::of_fault(stage, fault),
    {
        match fault {
            RestoreFault::Transport(error) => CatacombRestoreError::Transport { stage, error },
            RestoreFault::Command(error) => CatacombRestoreError::Command(error),
            RestoreFault::Response(error) => CatacombRestoreError::Response(error),
            RestoreFault::Catacomb(error) => CatacombRestoreError::Catacomb(error),
            RestoreFault::Mesa(error) => CatacombRestoreError::Mesa(error),
        }
    }

    /// Whether the failure shows that the candidate is definitely not the
    /// device's current pair.
    pub open spec fn is_rejection(self) -> bool {
        self is MasterNotLoaded || self is UserNotSecurelyLoaded || self is NoEnrolledFingerprints
            || self is RestoredIdentityForAnotherUser || self is CorruptedCatacomb
    }

    /// The message, as text; a failure of the outside protocol layers has its own.
    pub open spec fn text(self) -> Option<Seq<char>> {
        match self {
            CatacombRestoreError::Transport { stage, .. } => Some(
                "biometric transport failed during "@ + stage.text(),
            ),
            CatacombRestoreError::Store(error) => Some(error.text()),
            CatacombRestoreError::Calibration(_) => Some("recovery calibration failed"@),
            CatacombRestoreError::Command(_) => None,
            CatacombRestoreError::Response(_) => None,
            CatacombRestoreError::Catacomb(_) => None,
            CatacombRestoreError::Mesa(_) => None,
            CatacombRestoreError::LiveIdentityForAnotherUser => Some(
                "live catacomb contains an identity for another user"@,
            ),
            CatacombRestoreError::MasterNotLoaded { state } => Some(
                "restored master catacomb is not loaded (state="@ + state_text(state) + ")"@,
            ),
            CatacombRestoreError::UserNotSecurelyLoaded { state } => Some(
                "restored user catacomb is not securely loaded (state="@ + state_text(state) + ")"@,
            ),
            CatacombRestoreError::NoEnrolledFingerprints => Some(
                "restored catacomb contains no enrolled fingerprints"@,
            ),
            CatacombRestoreError::RestoredIdentityForAnotherUser => Some(
                "restored catacomb contains an identity for another user"@,
            ),
            CatacombRestoreError::CorruptedCatacomb => Some(
                "SEP reports the restored catacomb as corrupted"@,
            ),
        }
    }

    /// The message; a failure of the outside protocol layers has its own.
    pub fn message(&self) -> (message: Option<String>)
        ensures
            match self.text() {
                Some(text) => message is Some && message->0@ == text,
                None => message is None,
            },
    {
        let mut message: String = String::from_str("");
        assert(message@ =~= Seq::<char>::empty()) by {
            reveal_strlit("");
        }
        match self {
            CatacombRestoreError::Transport { stage, .. } => {
                message.append("biometric transport failed during ");
                message.append(stage.message());
            },
            CatacombRestoreError::Store(error) => {
                message.append(error.message());
            },
            CatacombRestoreError::Calibration(_) => {
                message.append("recovery calibration failed");
            },
            CatacombRestoreError::Command(_) | CatacombRestoreError::Response(_)
            | CatacombRestoreError::Catacomb(_) | CatacombRestoreError::Mesa(_) => {
                return None;
            },
            CatacombRestoreError::LiveIdentityForAnotherUser => {
                message.append("live catacomb contains an identity for another user");
            },
            CatacombRestoreError::MasterNotLoaded { state } => {
                message.append("restored master catacomb is not loaded (state=");
                append_state(&mut message, *state);
                message.append(")");
            },
            CatacombRestoreError::UserNotSecurelyLoaded { state } => {
                message.append("restored user catacomb is not securely loaded (state=");
                append_state(&mut message, *state);
                message.append(")");
            },
            CatacombRestoreError::NoEnrolledFingerprints => {
                message.append("restored catacomb contains no enrolled fingerprints");
            },
            CatacombRestoreError::RestoredIdentityForAnotherUser => {
                message.append("restored catacomb contains an identity for another user");
            },
            CatacombRestoreError::CorruptedCatacomb => {
                message.append("SEP reports the restored catacomb as corrupted");
            },
        }
        assert(message@ =~= self.text()->0);
        Some(message)
    }

    /// The diagnostic rendering, as text; a failure of the outside protocol layers
    /// has its own.
    pub open spec fn diagnostic_text(self) -> Option<Seq<char>> {
        match self {
            CatacombRestoreError::Transport { stage, .. } => Some(
                "Transport { stage: "@ + stage.name_text() + ", error: \"[redacted]\" }"@,
            ),
            CatacombRestoreError::Store(error) => Some("Store("@ + error.name_text() + ")"@),
            CatacombRestoreError::Calibration(_) => None,
            CatacombRestoreError::Command(_) => None,
            CatacombRestoreError::Response(_) => None,
            CatacombRestoreError::Catacomb(_) => None,
            CatacombRestoreError::Mesa(_) => None,
            CatacombRestoreError::LiveIdentityForAnotherUser => Some(
                "LiveIdentityForAnotherUser"@,
            ),
            CatacombRestoreError::MasterNotLoaded { state } => Some(
                "MasterNotLoaded { state: "@ + state_text(state) + " }"@,
            ),
            CatacombRestoreError::UserNotSecurelyLoaded { state } => Some(
                "UserNotSecurelyLoaded { state: "@ + state_text(state) + " }"@,
            ),
            CatacombRestoreError::NoEnrolledFingerprints => Some("NoEnrolledFingerprints"@),
            CatacombRestoreError::RestoredIdentityForAnotherUser => Some(
                "RestoredIdentityForAnotherUser"@,
            ),
            CatacombRestoreError::CorruptedCatacomb => Some("CorruptedCatacomb"@),
        }
    }

    /// The diagnostic rendering, which shows nothing of a transport failure; a
    /// failure of the outside protocol layers has its own.
    pub fn diagnostic(&self) -> (rendering: Option<String>)
        ensures
            match self.diagnostic_text() {
                Some(text) => rendering is Some && rendering->0@ == text,
                None => rendering is None,
            },
    {
        let mut rendering: String = String::from_str("");
        assert(rendering@ =~= Seq::<char>::empty()) by {
            reveal_strlit("");
        }
        match self {
            CatacombRestoreError::Transport { stage, .. } => {
                rendering.append("Transport { stage: ");
                rendering.append(stage.name());
                rendering.append(", error: \"[redacted]\" }");
            },
            CatacombRestoreError::Store(error) => {
                rendering.append("Store(");
                rendering.append(error.name());
                rendering.append(")");
            },
            CatacombRestoreError::Calibration(_) | CatacombRestoreError::Command(_)
            | CatacombRestoreError::Response(_) | CatacombRestoreError::Catacomb(_)
            | CatacombRestoreError::Mesa(_) => {
                return None;
            },
            CatacombRestoreError::LiveIdentityForAnotherUser => {
                rendering.append("LiveIdentityForAnotherUser");
            },
            CatacombRestoreError::MasterNotLoaded { state } => {
                rendering.append("MasterNotLoaded { state: ");
                append_state(&mut rendering, *state);
                rendering.append(" }");
            },
            CatacombRestoreError::UserNotSecurelyLoaded { state } => {
                rendering.append("UserNotSecurelyLoaded { state: ");
                append_state(&mut rendering, *state);
                rendering.append(" }");
            },
            CatacombRestoreError::NoEnrolledFingerprints => {
                rendering.append("NoEnrolledFingerprints");
            },
            CatacombRestoreError::RestoredIdentityForAnotherUser => {
                rendering.append("RestoredIdentityForAnotherUser");
            },
            CatacombRestoreError::CorruptedCatacomb => {
                rendering.append("CorruptedCatacomb");
            },
        }
        assert(rendering@ =~= self.diagnostic_text()->0);
        Some(rendering)
    }
}

/// The state that the list last gives for `user_id`.
pub open spec fn last_state(states: Seq<CatacombStateEntry>, user_id: u32) -> Option<u32>
    decreases states.len(),
{
    if states.len() == 0 {
        None
    } else if states.last().user_id == user_id {
        Some(states.last().state)
    } else {
        last_state(states.drop_last(), user_id)
    }
}

/// The state that the list last gives for `user_id`.
pub fn state_for(states: &Vec<CatacombStateEntry>, user_id: u32) -> (r: Option<u32>)
    ensures
        r == last_state(states@, user_id),
{
    let mut count: usize = states.len();
    assert(states@.subrange(0, count as int) =~= states@);
    while count > 0
        invariant
            count <= states@.len(),
            last_state(states@, user_id) == last_state(
                states@.subrange(0, count as int),
                user_id,
            ),
        decreases count,
    {
        let ghost prefix = states@.subrange(0, count as int);
        assert(prefix.last() == states@[count - 1]);
        assert(prefix.drop_last() =~= states@.subrange(0, count - 1));
        if states[count - 1].user_id == user_id {
            return Some(states[count - 1].state);
        }
        count -= 1;
    }
    None
}

/// Whether a master in this state is loaded.
pub open spec fn master_is_loaded(state: Option<u32>) -> bool {
    state matches Some(state) && state & MASTER_LOADED != 0
}

/// Whether a user in this state is securely loaded.
pub open spec fn user_is_secure(state: Option<u32>) -> bool {
    state matches Some(state) && state & USER_SECURELY_LOADED == USER_SECURELY_LOADED
}

/// Whether every identity is one of `user_id`, which an identity can name.
pub open spec fn all_belong_to(identities: Seq<Identity>, user_id: u32) -> bool {
    user_id <= i32::MAX && forall|i: int|
        0 <= i < identities.len() ==> (#[trigger] identities[i]).user_id == user_id
}

/// Whether every identity is one of `user_id`.
pub fn ensure_identity_user(identities: &Vec<Identity>, user_id: u32) -> (r: bool)
    ensures
        r == all_belong_to(identities@, user_id),
{
    if user_id > 0x7fff_ffff {
        return false;
    }
    let expected: i32 = user_id as i32;
    let mut i: usize = 0;
    while i < identities.len()
        invariant
            i <= identities@.len(),
            user_id <= 0x7fff_ffff,
            expected == user_id,
            forall|j: int| 0 <= j < i ==> (#[trigger] identities@[j]).user_id == user_id,
        decreases identities@.len() - i,
    {
        if identities[i].user_id != expected {
            return false;
        }
        i += 1;
    }
    true
}

/// Which user is restored, and what is accepted.
#[derive(Clone, Copy)]
pub struct RestoreRequest<'a> {
    pub user_id: u32,
    /// The pair to restore.
    pub pair: &'a CatacombPair,
    /// Whether valid live identities make the restore unnecessary.
    pub allow_live: bool,
    /// Whether a securely loaded user without identities is accepted.
    pub allow_empty: bool,
}

/// A command without a payload in its response.
#[derive(Clone, Copy, Debug, PartialEq, Eq, Structural)]
pub enum EmptyCommand {
    SelectMaster,
    LoadMaster,
    LoadUser,
}

/// A reading of the component states.
#[derive(Clone, Copy, Debug, PartialEq, Eq, Structural)]
pub enum StateReading {
    BeforeRestore,
    AfterMaster,
    AfterUser,
}

/// The next command of a restore.
pub enum RestoreStep<'a, TransportError, ProtocolError, CalibrationError> {
    /// Read the user's identities and report with [`PendingIdentities::read`].
    Identities(PendingIdentities<'a>),
    /// Send the command and report with [`PendingCommand::acknowledged`].
    Command(PendingCommand<'a>),
    /// Read how many components there are and report with
    /// [`PendingDaemonInfo::read`].
    DaemonInfo(PendingDaemonInfo<'a>),
    /// Read the states of so many components and report with
    /// [`PendingStates::read`].
    States(PendingStates<'a>),
    /// Read the user's lock state and report with [`PendingLockState::read`].
    LockState(PendingLockState<'a>),
    /// The restore has ended.
    End(
        Result<
            RestoredCatacomb,
            CatacombRestoreError<TransportError, ProtocolError, CalibrationError>,
        >,
    ),
}

/// A pending reading of identities: before the restore, or after it.
#[derive(Clone, Copy)]
pub struct PendingIdentities<'a> {
    pub request: RestoreRequest<'a>,
    pub restored: bool,
}

/// A pending command.
#[derive(Clone, Copy)]
pub struct PendingCommand<'a> {
    pub request: RestoreRequest<'a>,
    pub command: EmptyCommand,
}

/// A pending reading of the component count.
#[derive(Clone, Copy)]
pub struct PendingDaemonInfo<'a> {
    pub request: RestoreRequest<'a>,
    pub reading: StateReading,
}

/// A pending reading of the component states.
#[derive(Clone, Copy)]
pub struct PendingStates<'a> {
    pub request: RestoreRequest<'a>,
    pub reading: StateReading,
    pub component_count: u32,
}

/// A pending reading of the lock state.
pub struct PendingLockState<'a> {
    pub request: RestoreRequest<'a>,
    pub identities: Vec<Identity>,
}

impl StateReading {
    /// The stage that the reading belongs to.
    pub open spec fn stage(self) -> CatacombRestoreStage {
        match self {
            StateReading::BeforeRestore => CatacombRestoreStage::RefreshBeforeRestore,
            StateReading::AfterMaster => CatacombRestoreStage::ValidateMaster,
            StateReading::AfterUser => CatacombRestoreStage::ValidateUser,
        }
    }

    fn its_stage(self) -> (r: CatacombRestoreStage)
        ensures
            r == self.stage(),
    {
        match self {
            StateReading::BeforeRestore => CatacombRestoreStage::RefreshBeforeRestore,
            StateReading::AfterMaster => CatacombRestoreStage::ValidateMaster,
            StateReading::AfterUser => CatacombRestoreStage::ValidateUser,
        }
    }
}

impl EmptyCommand {
    /// The stage that the command belongs to.
    pub open spec fn stage(self) -> CatacombRestoreStage {
        match self {
            EmptyCommand::SelectMaster => CatacombRestoreStage::SelectMaster,
            EmptyCommand::LoadMaster => CatacombRestoreStage::LoadMaster,
            EmptyCommand::LoadUser => CatacombRestoreStage::LoadUser,
        }
    }

    /// The reading that follows the command.
    pub open spec fn reading(self) -> StateReading {
        match self {
            EmptyCommand::SelectMaster => StateReading::BeforeRestore,
            EmptyCommand::LoadMaster => StateReading::AfterMaster,
            EmptyCommand::LoadUser => StateReading::AfterUser,
        }
    }
}

impl<'a> PendingIdentities<'a> {
    /// The stage that the reading belongs to.
    pub open spec fn stage(self) -> CatacombRestoreStage {
        if self.restored {
            CatacombRestoreStage::RestoredIdentities
        } else {
            CatacombRestoreStage::LiveIdentities
        }
    }

    /// What follows the identities.
    pub open spec fn ends<T, P, C>(self, identities: Vec<Identity>, r: RestoreStep<'a, T, P, C>) -> bool {
        if !self.restored {
            if identities@.len() == 0 {
                r == RestoreStep::<T, P, C>::Command(
                    PendingCommand { request: self.request, command: EmptyCommand::SelectMaster },
                )
            } else if !all_belong_to(identities@, self.request.user_id) {
                r == RestoreStep::<T, P, C>::End(
                    Err(CatacombRestoreError::LiveIdentityForAnotherUser),
                )
            } else {
                r is End && r->End_0 is Ok && r->End_0->Ok_0.members() == identities@
                    && r->End_0->Ok_0.was_live()
            }
        } else if identities@.len() == 0 && !self.request.allow_empty {
            r == RestoreStep::<T, P, C>::End(Err(CatacombRestoreError::NoEnrolledFingerprints))
        } else if !all_belong_to(identities@, self.request.user_id) {
            r == RestoreStep::<T, P, C>::End(
                Err(CatacombRestoreError::RestoredIdentityForAnotherUser),
            )
        } else {
            r == RestoreStep::<T, P, C>::LockState(
                PendingLockState { request: self.request, identities },
            )
        }
    }

    /// Takes the identities.
    pub fn read<T, P, C>(self, identities: Result<Vec<Identity>, RestoreFault<T, P>>) -> (r:
        RestoreStep<'a, T, P, C>)
        ensures
            match identities {
                Ok(identities) => self.ends(identities, r),
                Err(fault) => r == RestoreStep::<T, P, C>::End(
                    Err(CatacombRestoreError::of_fault(self.stage(), fault)),
                ),
            },
    {
        let request = self.request;
        let identities = match identities {
            Ok(identities) => identities,
            Err(fault) => {
                let stage = if self.restored {
                    CatacombRestoreStage::RestoredIdentities
                } else {
                    CatacombRestoreStage::LiveIdentities
                };
                return RestoreStep::End(Err(CatacombRestoreError::from_fault(stage, fault)));
            },
        };
        if !self.restored {
            if identities.len() == 0 {
                return RestoreStep::Command(
                    PendingCommand { request, command: EmptyCommand::SelectMaster },
                );
            }
            if !ensure_identity_user(&identities, request.user_id) {
                return RestoreStep::End(Err(CatacombRestoreError::LiveIdentityForAnotherUser));
            }
            return RestoreStep::End(Ok(RestoredCatacomb { identities, already_loaded: true }));
        }
        if identities.len() == 0 && !request.allow_empty {
            return RestoreStep::End(Err(CatacombRestoreError::NoEnrolledFingerprints));
        }
        if !ensure_identity_user(&identities, request.user_id) {
            return RestoreStep::End(Err(CatacombRestoreError::RestoredIdentityForAnotherUser));
        }
        RestoreStep::LockState(PendingLockState { request, identities })
    }
}

impl<'a> PendingCommand<'a> {
    /// The bytes that the command carries: the pair's master, and then its user; the
    /// selection of the master carries none of the pair's.
    pub open spec fn carried(self) -> Option<Seq<u8>> {
        match self.command {
            EmptyCommand::SelectMaster => None,
            EmptyCommand::LoadMaster => Some(self.request.pair@.master),
            EmptyCommand::LoadUser => Some(self.request.pair@.user),
        }
    }

    /// The bytes that the command carries.
    pub fn payload(&self) -> (r: Option<&'a [u8]>)
        ensures
            match r {
                Some(bytes) => self.carried() == Some(bytes@),
                None => self.carried() is None,
            },
    {
        match self.command {
            EmptyCommand::SelectMaster => None,
            EmptyCommand::LoadMaster => Some(self.request.pair.master()),
            EmptyCommand::LoadUser => Some(self.request.pair.user()),
        }
    }

    /// Takes the command's empty response: the component states are read next.
    pub fn acknowledged<T, P, C>(self, outcome: Result<(), RestoreFault<T, P>>) -> (r:
        RestoreStep<'a, T, P, C>)
        ensures
            r == match outcome {
                Ok(()) => RestoreStep::<T, P, C>::DaemonInfo(
                    PendingDaemonInfo { request: self.request, reading: self.command.reading() },
                ),
                Err(fault) => RestoreStep::End(
                    Err(CatacombRestoreError::of_fault(self.command.stage(), fault)),
                ),
            },
    {
        let (stage, reading) = match self.command {
            EmptyCommand::SelectMaster => (
                CatacombRestoreStage::SelectMaster,
                StateReading::BeforeRestore,
            ),
            EmptyCommand::LoadMaster => (
                CatacombRestoreStage::LoadMaster,
                StateReading::AfterMaster,
            ),
            EmptyCommand::LoadUser => (CatacombRestoreStage::LoadUser, StateReading::AfterUser),
        };
        match outcome {
            Ok(()) => RestoreStep::DaemonInfo(
                PendingDaemonInfo { request: self.request, reading },
            ),
            Err(fault) => RestoreStep::End(Err(CatacombRestoreError::from_fault(stage, fault))),
        }
    }
}

impl<'a> PendingDaemonInfo<'a> {
    /// Takes how many components there are.
    pub fn read<T, P, C>(self, component_count: Result<u32, RestoreFault<T, P>>) -> (r:
        RestoreStep<'a, T, P, C>)
        ensures
            r == match component_count {
                Ok(component_count) => RestoreStep::<T, P, C>::States(
                    PendingStates { request: self.request, reading: self.reading, component_count },
                ),
                Err(fault) => RestoreStep::End(
                    Err(CatacombRestoreError::of_fault(self.reading.stage(), fault)),
                ),
            },
    {
        match component_count {
            Ok(component_count) => RestoreStep::States(
                PendingStates { request: self.request, reading: self.reading, component_count },
            ),
            Err(fault) => RestoreStep::End(
                Err(CatacombRestoreError::from_fault(self.reading.its_stage(), fault)),
            ),
        }
    }
}

impl<'a> PendingStates<'a> {
    /// What follows the states.
    pub open spec fn following<T, P, C>(self, states: Seq<CatacombStateEntry>) -> RestoreStep<'a, T, P, C> {
        let request = self.request;
        match self.reading {
            StateReading::BeforeRestore => RestoreStep::Command(
                PendingCommand { request, command: EmptyCommand::LoadMaster },
            ),
            StateReading::AfterMaster => {
                let state = last_state(states, MASTER_STATE_USER_ID);
                if master_is_loaded(state) {
                    RestoreStep::Command(
                        PendingCommand { request, command: EmptyCommand::LoadUser },
                    )
                } else {
                    RestoreStep::End(Err(CatacombRestoreError::MasterNotLoaded { state }))
                }
            },
            StateReading::AfterUser => {
                let state = last_state(states, request.user_id);
                if user_is_secure(state) {
                    RestoreStep::Identities(PendingIdentities { request, restored: true })
                } else {
                    RestoreStep::End(Err(CatacombRestoreError::UserNotSecurelyLoaded { state }))
                }
            },
        }
    }

    /// Takes the component states. What they show before the restore does not
    /// matter; afterwards the master has to be loaded, and the user securely.
    pub fn read<T, P, C>(self, states: Result<Vec<CatacombStateEntry>, RestoreFault<T, P>>) -> (r:
        RestoreStep<'a, T, P, C>)
        ensures
            r == match states {
                Ok(states) => self.following::<T, P, C>(states@),
                Err(fault) => RestoreStep::End(
                    Err(CatacombRestoreError::of_fault(self.reading.stage(), fault)),
                ),
            },
    {
        let request = self.request;
        let states = match states {
            Ok(states) => states,
            Err(fault) => {
                return RestoreStep::End(
                    Err(CatacombRestoreError::from_fault(self.reading.its_stage(), fault)),
                );
            },
        };
        match self.reading {
            StateReading::BeforeRestore => RestoreStep::Command(
                PendingCommand { request, command: EmptyCommand::LoadMaster },
            ),
            StateReading::AfterMaster => {
                let state = state_for(&states, MASTER_STATE_USER_ID);
                let loaded = match state {
                    Some(bits) => bits & MASTER_LOADED != 0,
                    None => false,
                };
                if loaded {
                    RestoreStep::Command(
                        PendingCommand { request, command: EmptyCommand::LoadUser },
                    )
                } else {
                    RestoreStep::End(Err(CatacombRestoreError::MasterNotLoaded { state }))
                }
            },
            StateReading::AfterUser => {
                let state = state_for(&states, request.user_id);
                let secure = match state {
                    Some(bits) => bits & USER_SECURELY_LOADED == USER_SECURELY_LOADED,
                    None => false,
                };
                if secure {
                    RestoreStep::Identities(PendingIdentities { request, restored: true })
                } else {
                    RestoreStep::End(Err(CatacombRestoreError::UserNotSecurelyLoaded { state }))
                }
            },
        }
    }
}

impl<'a> PendingLockState<'a> {
    /// What follows the lock state.
    pub open spec fn ends<T, P, C>(self, lock_state: u32, r: RestoreStep<'a, T, P, C>) -> bool {
        if lock_state & CATACOMB_CORRUPTED != 0 {
            r == RestoreStep::<T, P, C>::End(Err(CatacombRestoreError::CorruptedCatacomb))
        } else {
            r is End && r->End_0 is Ok && r->End_0->Ok_0.members() == self.identities@
                && !r->End_0->Ok_0.was_live()
        }
    }

    /// Takes the lock state.
    pub fn read<T, P, C>(self, lock_state: Result<u32, RestoreFault<T, P>>) -> (r:
        RestoreStep<'a, T, P, C>)
        ensures
            match lock_state {
                Ok(lock_state) => self.ends(lock_state, r),
                Err(fault) => r == RestoreStep::<T, P, C>::End(
                    Err(CatacombRestoreError::of_fault(CatacombRestoreStage::LockState, fault)),
                ),
            },
    {
        match lock_state {
            Err(fault) => RestoreStep::End(
                Err(CatacombRestoreError::from_fault(CatacombRestoreStage::LockState, fault)),
            ),
            Ok(lock_state) => {
                if lock_state & CATACOMB_CORRUPTED != 0 {
                    return RestoreStep::End(Err(CatacombRestoreError::CorruptedCatacomb));
                }
                RestoreStep::End(
                    Ok(RestoredCatacomb { identities: self.identities, already_loaded: false }),
                )
            },
        }
    }
}

/// The first step of a restore.
pub open spec fn first_restore_step<'a, T, P, C>(request: RestoreRequest<'a>) -> RestoreStep<'a, T, P, C> {
    if request.allow_live {
        RestoreStep::Identities(PendingIdentities { request, restored: false })
    } else {
        RestoreStep::Command(PendingCommand { request, command: EmptyCommand::SelectMaster })
    }
}

/// Begins to restore a pair.
pub fn restore_pair<'a, T, P, C>(request: RestoreRequest<'a>) -> (r: RestoreStep<'a, T, P, C>)
    ensures
        r == first_restore_step::<T, P, C>(request),
{
    if request.allow_live {
        RestoreStep::Identities(PendingIdentities { request, restored: false })
    } else {
        RestoreStep::Command(PendingCommand { request, command: EmptyCommand::SelectMaster })
    }
}

/// Begins to restore the active pair, from the outcome of loading it: storage is
/// validated before the device is touched.
pub fn restore_catacomb_pair<'a, T, P, C>(
    loaded: Result<&'a CatacombPair, CatacombStoreError>,
    user_id: u32,
) -> (r: RestoreStep<'a, T, P, C>)
    ensures
        r == match loaded {
            Err(error) => RestoreStep::<T, P, C>::End(Err(CatacombRestoreError::Store(error))),
            Ok(pair) => first_restore_step(
                RestoreRequest { user_id, pair, allow_live: true, allow_empty: false },
            ),
        },
{
    match loaded {
        Err(error) => RestoreStep::End(Err(CatacombRestoreError::Store(error))),
        Ok(pair) => restore_pair(RestoreRequest { user_id, pair, allow_live: true, allow_empty: false }),
    }
}

/// Begins to restore the active pair for an enrollment, which also accepts a
/// securely loaded user without identities.
pub fn restore_catacomb_pair_for_enrollment<'a, T, P, C>(
    loaded: Result<&'a CatacombPair, CatacombStoreError>,
    user_id: u32,
) -> (r: RestoreStep<'a, T, P, C>)
    ensures
        r == match loaded {
            Err(error) => RestoreStep::<T, P, C>::End(Err(CatacombRestoreError::Store(error))),
            Ok(pair) => first_restore_step(
                RestoreRequest { user_id, pair, allow_live: true, allow_empty: true },
            ),
        },
{
    match loaded {
        Err(error) => RestoreStep::End(Err(CatacombRestoreError::Store(error))),
        Ok(pair) => restore_pair(RestoreRequest { user_id, pair, allow_live: true, allow_empty: true }),
    }
}

/// A validation that waits for the calibration.
#[derive(Clone, Copy)]
pub struct PendingValidation<'a, 'r> {
    user_id: u32,
    pair: &'a CatacombPair,
    record: &'r [u8],
}

/// Begins to validate one reserved candidate against the live device: the sensor is
/// calibrated with the record before anything else.
pub fn validate_recovery_candidate<'a, 'r>(
    user_id: u32,
    pair: &'a CatacombPair,
    record: &'r [u8],
) -> (r: PendingValidation<'a, 'r>)
    ensures
        r.user() == user_id,
        r.candidate() == pair,
        r.calibration() == record@,
{
    PendingValidation { user_id, pair, record }
}

impl<'a, 'r> PendingValidation<'a, 'r> {
    /// The user that the candidate has to be restored for.
    pub closed spec fn user(self) -> u32 {
        self.user_id
    }

    /// The candidate.
    pub closed spec fn candidate(self) -> &'a CatacombPair {
        self.pair
    }

    /// The record that the sensor is calibrated with.
    pub closed spec fn calibration(self) -> Seq<u8> {
        self.record@
    }

    /// The record that the sensor is calibrated with.
    pub fn record(&self) -> (r: &'r [u8])
        ensures
            r@ == self.calibration(),
    {
        self.record
    }

    /// Takes the outcome of the calibration: the candidate is then restored, and
    /// existing identities are not trusted.
    pub fn calibrated<T, P, C>(self, outcome: Result<(), C>) -> (r: RestoreStep<'a, T, P, C>)
        ensures
            r == match outcome {
                Err(error) => RestoreStep::<T, P, C>::End(
                    Err(CatacombRestoreError::Calibration(error)),
                ),
                Ok(()) => first_restore_step(
                    RestoreRequest {
                        user_id: self.user(),
                        pair: self.candidate(),
                        allow_live: false,
                        allow_empty: false,
                    },
                ),
            },
    {
        match outcome {
            Err(error) => RestoreStep::End(Err(CatacombRestoreError::Calibration(error))),
            Ok(()) => restore_pair(
                RestoreRequest {
                    user_id: self.user_id,
                    pair: self.pair,
                    allow_live: false,
                    allow_empty: false,
                },
            ),
        }
    }
}

/// The verdict that a candidate's restore gives: success accepts it, a definite
/// finding rejects it, and any other failure establishes nothing.
pub fn recovery_verdict<T, P, C>(
    restored: Result<RestoredCatacomb, CatacombRestoreError<T, P, C>>,
) -> (r: Result<bool, CatacombRestoreError<T, P, C>>)
    ensures
        r == match restored {
            Ok(_) => Ok::<bool, CatacombRestoreError<T, P, C>>(true),
            Err(error) => if error.is_rejection() {
                Ok(false)
            } else {
                Err(error)
            },
        },
{
    match restored {
        Ok(_) => Ok(true),
        Err(error) => {
            let rejected = matches!(
                error,
                CatacombRestoreError::MasterNotLoaded { .. }
                    | CatacombRestoreError::UserNotSecurelyLoaded { .. }
                    | CatacombRestoreError::NoEnrolledFingerprints
                    | CatacombRestoreError::RestoredIdentityForAnotherUser
                    | CatacombRestoreError::CorruptedCatacomb
            );
            if rejected {
                Ok(false)
            } else {
                Err(error)
            }
        },
    }
}

/// One answer to the command that a restore asks for.
pub enum RestoreAnswer<T, P> {
    Identities(Result<Vec<Identity>, RestoreFault<T, P>>),
    Acknowledged(Result<(), RestoreFault<T, P>>),
    ComponentCount(Result<u32, RestoreFault<T, P>>),
    States(Result<Vec<CatacombStateEntry>, RestoreFault<T, P>>),
    LockState(Result<u32, RestoreFault<T, P>>),
}

/// The step that follows `step` on `answer`, where the answer is of the kind
/// that the step asks for.
pub open spec fn restore_follows<'a, T, P, C>(
    step: RestoreStep<'a, T, P, C>,
    answer: RestoreAnswer<T, P>,
    next: RestoreStep<'a, T, P, C>,
) -> bool {
    match (step, answer) {
        (RestoreStep::Identities(pending), RestoreAnswer::Identities(Ok(identities))) => {
            pending.ends(identities, next)
        },
        (RestoreStep::Command(pending), RestoreAnswer::Acknowledged(Ok(()))) => next
            == RestoreStep::<T, P, C>::DaemonInfo(
            PendingDaemonInfo { request: pending.request, reading: pending.command.reading() },
        ),
        (RestoreStep::DaemonInfo(pending), RestoreAnswer::ComponentCount(Ok(count))) => next
            == RestoreStep::<T, P, C>::States(
            PendingStates {
                request: pending.request,
                reading: pending.reading,
                component_count: count,
            },
        ),
        (RestoreStep::States(pending), RestoreAnswer::States(Ok(states))) => next
            == pending.following::<T, P, C>(states@),
        (RestoreStep::LockState(pending), RestoreAnswer::LockState(Ok(lock_state))) => {
            pending.ends(lock_state, next)
        },
        (RestoreStep::Identities(_), RestoreAnswer::Identities(Err(_)))
        | (RestoreStep::Command(_), RestoreAnswer::Acknowledged(Err(_)))
        | (RestoreStep::DaemonInfo(_), RestoreAnswer::ComponentCount(Err(_)))
        | (RestoreStep::States(_), RestoreAnswer::States(Err(_)))
        | (RestoreStep::LockState(_), RestoreAnswer::LockState(Err(_))) => next is End
            && next->End_0 is Err,
        _ => false,
    }
}

/// The commands of a restore, each named by what it does.
#[derive(Clone, Copy, Debug, PartialEq, Eq, Structural)]
pub enum RestoreTask {
    ReadLiveIdentities,
    SelectMaster,
    CountComponents(StateReading),
    ReadStates(StateReading),
    LoadMaster,
    LoadUser,
    ReadRestoredIdentities,
    ReadLockState,
}

/// The command that a step asks for.
pub open spec fn restore_task<'a, T, P, C>(step: RestoreStep<'a, T, P, C>) -> Option<RestoreTask> {
    match step {
        RestoreStep::Identities(pending) => Some(
            if pending.restored {
                RestoreTask::ReadRestoredIdentities
            } else {
                RestoreTask::ReadLiveIdentities
            },
        ),
        RestoreStep::Command(pending) => Some(
            match pending.command {
                EmptyCommand::SelectMaster => RestoreTask::SelectMaster,
                EmptyCommand::LoadMaster => RestoreTask::LoadMaster,
                EmptyCommand::LoadUser => RestoreTask::LoadUser,
            },
        ),
        RestoreStep::DaemonInfo(pending) => Some(RestoreTask::CountComponents(pending.reading)),
        RestoreStep::States(pending) => Some(RestoreTask::ReadStates(pending.reading)),
        RestoreStep::LockState(_) => Some(RestoreTask::ReadLockState),
        RestoreStep::End(_) => None,
    }
}

/// The order of the commands of a complete restore.
pub open spec fn restore_order(request: RestoreRequest) -> Seq<RestoreTask> {
    let live = if request.allow_live {
        seq![RestoreTask::ReadLiveIdentities]
    } else {
        Seq::empty()
    };
    live + seq![
        RestoreTask::SelectMaster,
        RestoreTask::CountComponents(StateReading::BeforeRestore),
        RestoreTask::ReadStates(StateReading::BeforeRestore),
        RestoreTask::LoadMaster,
        RestoreTask::CountComponents(StateReading::AfterMaster),
        RestoreTask::ReadStates(StateReading::AfterMaster),
        RestoreTask::LoadUser,
        RestoreTask::CountComponents(StateReading::AfterUser),
        RestoreTask::ReadStates(StateReading::AfterUser),
        RestoreTask::ReadRestoredIdentities,
        RestoreTask::ReadLockState,
    ]
}

/// A run of a restore.
pub open spec fn is_restore_run<'a, T, P, C>(
    request: RestoreRequest<'a>,
    steps: Seq<RestoreStep<'a, T, P, C>>,
    answers: Seq<RestoreAnswer<T, P>>,
) -> bool {
    &&& steps.len() == answers.len() + 1
    &&& steps[0] == first_restore_step::<T, P, C>(request)
    &&& forall|k: int|
        0 <= k < answers.len() ==> restore_follows(#[trigger] steps[k], answers[k], steps[k + 1])
}

spec fn restores_for<'a, T, P, C>(step: RestoreStep<'a, T, P, C>, request: RestoreRequest<'a>) -> bool {
    match step {
        RestoreStep::Identities(pending) => pending.request == request,
        RestoreStep::Command(pending) => pending.request == request,
        RestoreStep::DaemonInfo(pending) => pending.request == request,
        RestoreStep::States(pending) => pending.request == request,
        RestoreStep::LockState(pending) => pending.request == request,
        RestoreStep::End(_) => true,
    }
}

/// How many readings precede the first command.
spec fn live_readings(request: RestoreRequest) -> int {
    if request.allow_live {
        1
    } else {
        0
    }
}

/// Where a task stands in the order, for a request that reads live identities or
/// not.
spec fn restore_place(task: RestoreTask, request: RestoreRequest) -> int {
    match task {
        RestoreTask::ReadLiveIdentities => 0,
        RestoreTask::SelectMaster => live_readings(request),
        RestoreTask::CountComponents(StateReading::BeforeRestore) => 1 + live_readings(request),
        RestoreTask::ReadStates(StateReading::BeforeRestore) => 2 + live_readings(request),
        RestoreTask::LoadMaster => 3 + live_readings(request),
        RestoreTask::CountComponents(StateReading::AfterMaster) => 4 + live_readings(request),
        RestoreTask::ReadStates(StateReading::AfterMaster) => 5 + live_readings(request),
        RestoreTask::LoadUser => 6 + live_readings(request),
        RestoreTask::CountComponents(StateReading::AfterUser) => 7 + live_readings(request),
        RestoreTask::ReadStates(StateReading::AfterUser) => 8 + live_readings(request),
        RestoreTask::ReadRestoredIdentities => 9 + live_readings(request),
        RestoreTask::ReadLockState => 10 + live_readings(request),
    }
}

proof fn lemma_restore_places(task: RestoreTask, request: RestoreRequest)
    requires
        task == RestoreTask::ReadLiveIdentities ==> request.allow_live,
    ensures
        restore_order(request).len() == 11 + live_readings(request),
        0 <= restore_place(task, request) < restore_order(request).len(),
        restore_order(request)[restore_place(task, request)] == task,
{
}

#[verifier::rlimit(30)]
proof fn lemma_restore_order<'a, T, P, C>(
    request: RestoreRequest<'a>,
    steps: Seq<RestoreStep<'a, T, P, C>>,
    answers: Seq<RestoreAnswer<T, P>>,
    k: int,
)
    requires
        is_restore_run(request, steps, answers),
        0 <= k < steps.len(),
    ensures
        restores_for(steps[k], request),
        restore_task(steps[k]) matches Some(task) ==> restore_place(task, request) == k && (task
            == RestoreTask::ReadLiveIdentities ==> request.allow_live),
        steps[k] is End && steps[k]->End_0 is Ok ==> k == if steps[k]->End_0->Ok_0.was_live() {
            1
        } else {
            11 + live_readings(request)
        },
        k > 0 ==> !(steps[k - 1] is End),
    decreases k,
{
    if k > 0 {
        lemma_restore_order(request, steps, answers, k - 1);
        assert(restore_follows(steps[k - 1], answers[k - 1], steps[k - 1 + 1]));
    }
}

/// A restore sends its commands in one order: the `k`th command that it sends is
/// the `k`th of that order. It succeeds after the last of them, or after the
/// first where the identities were live.
pub proof fn law_restores_follow_one_order<'a, T, P, C>(
    request: RestoreRequest<'a>,
    steps: Seq<RestoreStep<'a, T, P, C>>,
    answers: Seq<RestoreAnswer<T, P>>,
    k: int,
)
    requires
        is_restore_run(request, steps, answers),
        0 <= k < steps.len(),
    ensures
        steps[k] is End || (k < restore_order(request).len() && restore_task(steps[k]) == Some(
            restore_order(request)[k],
        )),
        steps[k] is End && steps[k]->End_0 is Ok ==> k == if steps[k]->End_0->Ok_0.was_live() {
            1
        } else {
            restore_order(request).len() as int
        },
{
    lemma_restore_order(request, steps, answers, k);
    lemma_restore_places(RestoreTask::SelectMaster, request);
    if let Some(task) = restore_task(steps[k]) {
        lemma_restore_places(task, request);
    }
}

/// The bytes that a step's command carries, where it loads a component.
pub open spec fn loaded_bytes<'a, T, P, C>(step: RestoreStep<'a, T, P, C>) -> Option<Seq<u8>> {
    match step {
        RestoreStep::Command(pending) => pending.carried(),
        _ => None,
    }
}

/// A restore loads its own pair: the master's bytes as the master, and after it the
/// user's bytes as the user, and no other.
pub proof fn law_restores_load_their_pair<'a, T, P, C>(
    request: RestoreRequest<'a>,
    steps: Seq<RestoreStep<'a, T, P, C>>,
    answers: Seq<RestoreAnswer<T, P>>,
    k: int,
)
    requires
        is_restore_run(request, steps, answers),
        0 <= k < steps.len(),
    ensures
        loaded_bytes(steps[k]) == match restore_task(steps[k]) {
            Some(RestoreTask::LoadMaster) => Some(request.pair@.master),
            Some(RestoreTask::LoadUser) => Some(request.pair@.user),
            _ => None,
        },
{
    lemma_restore_order(request, steps, answers, k);
}

/// A pair counts as restored only where the device showed the master loaded and
/// the user securely loaded, the restored identities are all the user's and not
/// none (unless that is allowed), and the lock state is not corrupted.
pub proof fn law_restored_pairs_are_validated<'a, T, P, C>(
    request: RestoreRequest<'a>,
    steps: Seq<RestoreStep<'a, T, P, C>>,
    answers: Seq<RestoreAnswer<T, P>>,
    k: int,
    restored: RestoredCatacomb,
)
    requires
        is_restore_run(request, steps, answers),
        0 <= k < steps.len(),
        steps[k] == RestoreStep::<T, P, C>::End(Ok(restored)),
        !restored.was_live(),
    ensures
        ({
            let first = if request.allow_live {
                1int
            } else {
                0int
            };
            &&& k == first + 11
            &&& answers[first + 5] is States && answers[first + 5]->States_0 is Ok
            &&& master_is_loaded(
                last_state(answers[first + 5]->States_0->Ok_0@, MASTER_STATE_USER_ID),
            )
            &&& answers[first + 8] is States && answers[first + 8]->States_0 is Ok
            &&& user_is_secure(last_state(answers[first + 8]->States_0->Ok_0@, request.user_id))
            &&& answers[first + 10] is LockState && answers[first + 10]->LockState_0 is Ok
            &&& answers[first + 10]->LockState_0->Ok_0 & CATACOMB_CORRUPTED == 0
        }),
        all_belong_to(restored.members(), request.user_id),
        restored.members().len() != 0 || request.allow_empty,
{
    let first = if request.allow_live {
        1int
    } else {
        0int
    };
    lemma_restore_order(request, steps, answers, k);
    lemma_restore_order(request, steps, answers, first + 10);
    lemma_restore_order(request, steps, answers, first + 9);
    lemma_restore_order(request, steps, answers, first + 8);
    lemma_restore_order(request, steps, answers, first + 7);
    lemma_restore_order(request, steps, answers, first + 6);
    lemma_restore_order(request, steps, answers, first + 5);
    assert(restore_follows(steps[first + 10], answers[first + 10], steps[first + 10 + 1]));
    assert(restore_follows(steps[first + 9], answers[first + 9], steps[first + 9 + 1]));
    assert(restore_follows(steps[first + 8], answers[first + 8], steps[first + 8 + 1]));
    assert(restore_follows(steps[first + 5], answers[first + 5], steps[first + 5 + 1]));
}

/// Live identities make a restore unnecessary only where that is allowed, there
/// are any, and they are all the user's; nothing was sent but the one reading.
pub proof fn law_live_identities_are_the_users<'a, T, P, C>(
    request: RestoreRequest<'a>,
    steps: Seq<RestoreStep<'a, T, P, C>>,
    answers: Seq<RestoreAnswer<T, P>>,
    k: int,
    restored: RestoredCatacomb,
)
    requires
        is_restore_run(request, steps, answers),
        0 <= k < steps.len(),
        steps[k] == RestoreStep::<T, P, C>::End(Ok(restored)),
        restored.was_live(),
    ensures
        k == 1,
        request.allow_live,
        restored.members().len() != 0,
        all_belong_to(restored.members(), request.user_id),
{
    lemma_restore_order(request, steps, answers, k);
    assert(restore_follows(steps[0], answers[0], steps[1]));
}

} // verus!
