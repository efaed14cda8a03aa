//! How a user is prepared for a match, and what is matched.

use crate::auth_operation::{
    authenticate_user, authenticate_user_after_calibration, encode_identities, encoded_identities,
    encoded_identity, identify_user_after_calibration, legacy_outcome, require_credential,
    restore_user_after_calibration, restore_user_for_enrollment_after_calibration,
    AuthenticationOperationError, CredentialFault, MatchStep, PendingCalibration, PendingFeedback,
    PendingMatch, PendingPairLoad, PendingPolicy, PendingPresentation, PendingRestore, PendingUser,
    PreparationStep, PreparedAuthenticationUser,
};
use crate::biometric::{Identity, IdentityMatchOutcome, MatchOutcome};
use crate::catacomb_restore::{
    CatacombRestoreError, PendingIdentities, RestoreRequest, RestoreStep, RestoredCatacomb,
};
use crate::catacomb_store::{CatacombPair, CatacombStoreError};
use vstd::prelude::*;

verus! {

/// A credential is sixteen bytes long.
pub proof fn law_credentials_have_sixteen_bytes(
    credential: Option<&[u8]>,
    r: Result<(), CredentialFault>,
)
    requires
        credential matches Some(bytes) ==> bytes@.len() <= usize::MAX,
        call_ensures(require_credential, (credential,), r),
    ensures
        r is Ok <==> credential is Some && credential->0@.len() == 16,
        r == Err::<(), CredentialFault>(CredentialFault::Missing) <==> credential is None,
        r matches Err(CredentialFault::InvalidLength { actual }) ==> credential is Some && actual
            == credential->0@.len(),
{
}

/// Whether the preparation begins as it has to: a user with durable state loads its pair,
/// with its credential; without it the live user is prepared, whatever the credential.
pub open spec fn prepares<'a, C, P, R, U, M>(
    user_id: u32,
    durable: bool,
    credential: Option<&'a [u8]>,
    enrolls: bool,
    r: PreparationStep<'a, C, P, R, U, M>,
) -> bool {
    &&& r is PrepareUser <==> !durable
    &&& r is LoadStore <==> durable && credential is Some && credential->0@.len() == 16
    &&& durable && credential is None ==> r == PreparationStep::<C, P, R, U, M>::End(
        Err(AuthenticationOperationError::MissingCredential),
    )
    &&& durable && credential is Some && credential->0@.len() != 16 ==> (
    r matches PreparationStep::End(Err(AuthenticationOperationError::Credential { actual }))
        && actual == credential->0@.len())
    &&& r matches PreparationStep::PrepareUser(pending) ==> pending.user() == user_id
    &&& r matches PreparationStep::LoadStore(pending) ==> pending.user() == user_id
        && pending.secret() == credential->0@ && pending.enrolls() == enrolls
}

/// See [`prepares`]; before a match the sensor is calibrated with its record.
pub proof fn law_preparations_begin_by_what_is_durable<'a, C, P, R, U, M>(
    record: &'a [u8],
    user_id: u32,
    durable: bool,
    credential: Option<&'a [u8]>,
    matching: PreparationStep<'a, C, P, R, U, M>,
    enrolling: PreparationStep<'a, C, P, R, U, M>,
    pending: PendingCalibration<'a>,
    calibrating: &'a [u8],
    calibrated: Result<(), C>,
    after: PreparationStep<'a, C, P, R, U, M>,
)
    requires
        credential matches Some(bytes) ==> bytes@.len() <= usize::MAX,
        call_ensures(
            restore_user_after_calibration::<C, P, R, U, M>,
            (user_id, durable, credential),
            matching,
        ),
        call_ensures(
            restore_user_for_enrollment_after_calibration::<C, P, R, U, M>,
            (user_id, durable, credential),
            enrolling,
        ),
        call_ensures(authenticate_user, (record, user_id, durable, credential), pending),
        call_ensures(PendingCalibration::<'a>::record, (&pending,), calibrating),
        call_ensures(
            PendingCalibration::<'a>::calibrated::<C, P, R, U, M>,
            (pending, calibrated),
            after,
        ),
    ensures
        prepares(user_id, durable, credential, false, matching),
        prepares(user_id, durable, credential, true, enrolling),
        calibrating@ == record@,
        calibrated is Ok ==> prepares(user_id, durable, credential, false, after),
        calibrated matches Err(error) ==> after == PreparationStep::<C, P, R, U, M>::End(
            Err(AuthenticationOperationError::Calibration(error)),
        ),
{
}

/// A durable user's pair is loaded, its policy reasserted with the credential, and the
/// pair restored, in this order; an enrollment also takes a user without identities. What
/// was restored, and how, is what is prepared.
pub proof fn law_durable_users_are_restored<'a, 'p, C, P, R, U, M, T, Q, K>(
    load: PendingPairLoad<'a>,
    loaded: Result<(), CatacombStoreError>,
    second: PreparationStep<'a, C, P, R, U, M>,
    policy: PendingPolicy<'a>,
    policy_user: u32,
    policy_credential: &'a [u8],
    reasserted: Result<(), P>,
    third: PreparationStep<'a, C, P, R, U, M>,
    restore: PendingRestore,
    pair: Result<&'p CatacombPair, CatacombStoreError>,
    begun: RestoreStep<'p, T, Q, K>,
    restored: Result<RestoredCatacomb, R>,
    end: PreparationStep<'a, C, P, R, U, M>,
)
    requires
        call_ensures(PendingPairLoad::<'a>::loaded::<C, P, R, U, M>, (load, loaded), second),
        second is ReassertPolicy ==> second->ReassertPolicy_0 == policy,
        call_ensures(PendingPolicy::<'a>::user_id, (&policy,), policy_user),
        call_ensures(PendingPolicy::<'a>::credential, (&policy,), policy_credential),
        call_ensures(
            PendingPolicy::<'a>::reasserted::<C, P, R, U, M>,
            (policy, reasserted),
            third,
        ),
        third is Restore ==> third->Restore_0 == restore,
        call_ensures(PendingRestore::begin::<T, Q, K>, (&restore, pair), begun),
        call_ensures(
            PendingRestore::restored::<C, P, R, U, M>,
            (restore, restored),
            end,
        ),
    ensures
        second is ReassertPolicy <==> loaded is Ok,
        loaded matches Err(error) ==> second == PreparationStep::<C, P, R, U, M>::End(
            Err(AuthenticationOperationError::Store(error)),
        ),
        second is ReassertPolicy ==> policy_user == load.user() && policy_credential@
            == load.secret(),
        third is Restore <==> reasserted is Ok,
        reasserted matches Err(error) ==> third == PreparationStep::<C, P, R, U, M>::End(
            Err(AuthenticationOperationError::Policy(error)),
        ),
        second is ReassertPolicy && third is Restore ==> restore.user() == load.user()
            && restore.enrolls() == load.enrolls(),
        pair matches Ok(pair) ==> begun == RestoreStep::<T, Q, K>::Identities(
            PendingIdentities {
                request: RestoreRequest {
                    user_id: restore.user(),
                    pair,
                    allow_live: true,
                    allow_empty: restore.enrolls(),
                },
                restored: false,
            },
        ),
        pair matches Err(error) ==> begun == RestoreStep::<T, Q, K>::End(
            Err(CatacombRestoreError::Store(error)),
        ),
        restored matches Ok(catacomb) ==> (end matches PreparationStep::End(Ok(prepared))
            && prepared.user() == restore.user() && prepared.members() == catacomb.members() && (
        prepared.was_restored() <==> !catacomb.was_live())),
        restored matches Err(error) ==> end == PreparationStep::<C, P, R, U, M>::End(
            Err(AuthenticationOperationError::Restore(error)),
        ),
{
}

/// A live user is prepared with the identities that the device gives.
pub proof fn law_live_users_are_prepared<'a, C, P, R, U, M>(
    pending: PendingUser,
    user_id: u32,
    identities: Result<Vec<Identity>, U>,
    end: PreparationStep<'a, C, P, R, U, M>,
    prepared: PreparedAuthenticationUser,
    shown: &[Identity],
    restored: bool,
)
    requires
        call_ensures(PendingUser::user_id, (&pending,), user_id),
        call_ensures(
            PendingUser::prepared::<C, P, R, U, M>,
            (pending, identities),
            end,
        ),
        end matches PreparationStep::End(Ok(made)) ==> made == prepared,
        call_ensures(PreparedAuthenticationUser::identities, (&prepared,), shown),
        call_ensures(PreparedAuthenticationUser::restored_in_this_lease, (&prepared,), restored),
    ensures
        user_id == pending.user(),
        identities is Ok <==> (end matches PreparationStep::End(Ok(_))),
        identities is Ok ==> prepared.user() == user_id && shown@ == identities->Ok_0@
            && !restored,
        identities matches Err(error) ==> end == PreparationStep::<C, P, R, U, M>::End(
            Err(AuthenticationOperationError::User(error)),
        ),
{
}

/// A match is presented, made against the prepared identities of the prepared user, shown
/// and returned; a failure to prepare or to match is returned as it is.
pub proof fn law_matches_are_made_of_what_was_prepared<C, P, R, U, M>(
    prepared: Result<PreparedAuthenticationUser, AuthenticationOperationError<C, P, R, U, M>>,
    first: MatchStep<C, P, R, U, M>,
    presentation: PendingPresentation,
    matching: PendingMatch,
    user_id: u32,
    encoded: Vec<u8>,
    identities: &[Identity],
    direct: Vec<u8>,
    outcome: Result<IdentityMatchOutcome, M>,
    third: MatchStep<C, P, R, U, M>,
    feedback: PendingFeedback,
    shown: IdentityMatchOutcome,
    end: MatchStep<C, P, R, U, M>,
    matching_step: MatchStep<C, P, R, U, M>,
)
    requires
        call_ensures(identify_user_after_calibration::<C, P, R, U, M>, (prepared,), first),
        first is Present ==> first->Present_0 == presentation,
        call_ensures(
            PendingPresentation::presented::<C, P, R, U, M>,
            (presentation,),
            matching_step,
        ),
        matching_step is Match ==> matching_step->Match_0 == matching,
        call_ensures(PendingMatch::user_id, (&matching,), user_id),
        call_ensures(PendingMatch::encoded, (&matching,), encoded),
        prepared matches Ok(user) ==> identities@ == user.members(),
        call_ensures(encode_identities, (identities,), direct),
        call_ensures(PendingMatch::matched::<C, P, R, U, M>, (matching, outcome), third),
        third is Show ==> third->Show_0 == feedback,
        call_ensures(PendingFeedback::outcome, (&feedback,), shown),
        call_ensures(PendingFeedback::shown::<C, P, R, U, M>, (feedback,), end),
    ensures
        matching_step is Match,
        first is Present <==> prepared is Ok,
        prepared matches Err(error) ==> first == MatchStep::<C, P, R, U, M>::End(Err(error)),
        prepared matches Ok(user) ==> user_id == user.user() && encoded@ == direct@,
        third is Show <==> outcome is Ok,
        outcome matches Err(error) ==> third == MatchStep::<C, P, R, U, M>::End(
            Err(AuthenticationOperationError::Match(error)),
        ),
        outcome is Ok ==> shown == outcome->Ok_0 && end == MatchStep::<C, P, R, U, M>::End(
            Ok(outcome->Ok_0),
        ),
{
}

/// An outcome without its identity is of the same kind.
pub proof fn law_outcomes_keep_their_kind<C, P, R, U, M>(
    outcome: IdentityMatchOutcome,
    r: MatchOutcome,
    result: Result<IdentityMatchOutcome, AuthenticationOperationError<C, P, R, U, M>>,
    mapped: Result<MatchOutcome, AuthenticationOperationError<C, P, R, U, M>>,
)
    requires
        call_ensures(legacy_outcome, (outcome,), r),
        call_ensures(authenticate_user_after_calibration::<C, P, R, U, M>, (result,), mapped),
        result matches Ok(same) ==> same == outcome,
    ensures
        r == MatchOutcome::Matched <==> outcome is Matched,
        r == MatchOutcome::NoMatch <==> outcome is NoMatch,
        r == MatchOutcome::Cancelled <==> outcome is Cancelled,
        r == MatchOutcome::TimedOut <==> outcome is TimedOut,
        result is Ok ==> mapped is Ok && mapped->Ok_0 == r,
        result matches Err(error) ==> mapped == Err::<
            MatchOutcome,
            AuthenticationOperationError<C, P, R, U, M>,
        >(error),
{
}

/// Whether the twenty bytes at `at` are the identity: its user's id, least significant
/// byte first and modulo 2^32, and then its identifier.
pub open spec fn is_encoded_at(bytes: Seq<u8>, at: int, identity: Identity) -> bool {
    &&& at + 20 <= bytes.len()
    &&& bytes[at] + 256 * bytes[at + 1] + 65_536 * bytes[at + 2] + 16_777_216 * bytes[at + 3]
        == identity.user_id + if identity.user_id < 0 {
        4_294_967_296int
    } else {
        0int
    }
    &&& forall|k: int| 0 <= k < 16 ==> bytes[at + 4 + k] == #[trigger] identity.identifier@[k]
}

proof fn lemma_encoded_identity(identity: Identity)
    ensures
        encoded_identity(identity).len() == 20,
        is_encoded_at(encoded_identity(identity), 0, identity),
{
    let bytes = encoded_identity(identity);
    let value = crate::auth_operation::unsigned(identity.user_id);
    let low: int = value as int % 256;
    let second: int = (value as int / 256) % 256;
    let third: int = (value as int / 65_536) % 256;
    let high: int = value as int / 16_777_216;
    assert(low + 256 * second + 65_536 * third + 16_777_216 * high == value) by (nonlinear_arith)
        requires
            0 <= value <= 4_294_967_295,
            low == value as int % 256,
            second == (value as int / 256) % 256,
            third == (value as int / 65_536) % 256,
            high == value as int / 16_777_216,
    ;
    assert(bytes[0] == low && bytes[1] == second && bytes[2] == third && bytes[3] == high);
}

proof fn lemma_encoded_identities(identities: Seq<Identity>, i: int)
    requires
        0 <= i < identities.len(),
    ensures
        encoded_identities(identities).len() == 20 * identities.len(),
        is_encoded_at(encoded_identities(identities), 20 * i, identities[i]),
    decreases identities.len(),
{
    let head = identities.drop_last();
    let last = identities.last();
    let bytes = encoded_identities(identities);
    lemma_encoded_identity(last);
    lemma_encoded_length(head);
    if i == identities.len() - 1 {
        let at = 20 * i;
        let own = encoded_identity(last);
        assert(bytes[at] == own[0] && bytes[at + 1] == own[1] && bytes[at + 2] == own[2]
            && bytes[at + 3] == own[3]);
        assert forall|k: int| 0 <= k < 16 implies bytes[at + 4 + k]
            == #[trigger] last.identifier@[k] by {
            assert(bytes[at + 4 + k] == own[4 + k]);
        }
    } else {
        lemma_encoded_identities(head, i);
        let shorter = encoded_identities(head);
        let at = 20 * i;
        assert(head[i] == identities[i]);
        assert forall|j: int| 0 <= j < shorter.len() implies #[trigger] bytes[j] == shorter[j] by {}
        assert forall|k: int| 0 <= k < 16 implies bytes[at + 4 + k]
            == #[trigger] identities[i].identifier@[k] by {
            assert(bytes[at + 4 + k] == shorter[at + 4 + k]);
        }
    }
}

proof fn lemma_encoded_length(identities: Seq<Identity>)
    ensures
        encoded_identities(identities).len() == 20 * identities.len(),
    decreases identities.len(),
{
    if identities.len() > 0 {
        lemma_encoded_length(identities.drop_last());
        lemma_encoded_identity(identities.last());
    }
}

/// Encoded identities stand one behind the other, twenty bytes each.
pub proof fn law_identities_are_encoded_one_by_one(identities: &[Identity], r: Vec<u8>, i: int)
    requires
        call_ensures(encode_identities, (identities,), r),
    ensures
        r@.len() == 20 * identities@.len(),
        0 <= i < identities@.len() ==> is_encoded_at(r@, 20 * i, identities@[i]),
{
    if 0 <= i < identities@.len() {
        lemma_encoded_identities(identities@, i);
    }
}

} // verus!
