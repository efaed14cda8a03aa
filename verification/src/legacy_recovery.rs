//! Reservation of one uniquely identifiable inactive legacy generation.

use crate::bytes::{begins_with, has_prefix, rest_after, same_bytes};
use crate::catacomb_names::{
    active_marker, active_marker_bytes, generation_name, generation_of, generation_prefix,
    generation_prefix_bytes, is_generation_name, names_generation, recovery_name, recovery_prefix,
    recovery_prefix_bytes, reservation_of, stage_prefix, stage_prefix_bytes, temporary_prefix,
    temporary_prefix_bytes,
};
use crate::catacomb_recovery::{names_in_order, sorted_names};
use crate::catacomb_store::{all_bytes, CatacombPairStore, CatacombStoreError, StoreEntry};
use vstd::prelude::*;

verus! {

/// Durable reservation state without exposing a generation name.
#[derive(Clone, Copy, Debug, PartialEq, Eq, Structural)]
pub enum LegacyRecoveryReservation {
    Created,
    Existing,
}

/// Redaction-safe refusal or storage failure from legacy recovery reservation.
#[derive(Clone, Copy, Debug, PartialEq, Eq, Structural)]
pub enum LegacyRecoveryReservationError {
    Refused,
    Store(CatacombStoreError),
}

impl LegacyRecoveryReservationError {
    /// The message, as text.
    pub open spec fn text(self) -> Seq<char> {
        match self {
            LegacyRecoveryReservationError::Refused => "legacy recovery state is not uniquely eligible"@,
            LegacyRecoveryReservationError::Store(_) => "legacy recovery storage is unavailable"@,
        }
    }

    /// A fixed message.
    pub fn message(self) -> (message: &'static str)
        ensures
            message@ == self.text(),
    {
        match self {
            LegacyRecoveryReservationError::Refused => "legacy recovery state is not uniquely eligible",
            LegacyRecoveryReservationError::Store(_) => "legacy recovery storage is unavailable",
        }
    }
}

/// What a complete generation's metadata shows: at least one label, or no
/// metadata at all.
#[derive(Clone, Copy, Debug, PartialEq, Eq, Structural)]
pub enum GenerationKind {
    Labeled,
    Legacy,
}

/// What an entry of the store's directory is to a legacy recovery.
#[derive(Clone, Copy, Debug, PartialEq, Eq, Structural)]
pub enum EntryRole {
    /// Something that does not matter.
    Bystander,
    /// A generation.
    Generation,
    /// Something staged, temporary or malformed: the state is not eligible.
    Obstacle,
}

/// The role that a name plays.
pub open spec fn role_of(name: Seq<u8>) -> EntryRole {
    if name == active_marker() || has_prefix(name, recovery_prefix()) {
        EntryRole::Bystander
    } else if has_prefix(name, generation_prefix()) {
        if names_generation(name) {
            EntryRole::Generation
        } else {
            EntryRole::Obstacle
        }
    } else if has_prefix(name, stage_prefix()) || has_prefix(name, temporary_prefix()) {
        EntryRole::Obstacle
    } else {
        EntryRole::Bystander
    }
}

/// The role that a name plays.
pub fn entry_role(name: &[u8]) -> (r: EntryRole)
    ensures
        r == role_of(name@),
{
    if same_bytes(name, active_marker_bytes().as_slice()) || begins_with(
        name,
        recovery_prefix_bytes().as_slice(),
    ) {
        return EntryRole::Bystander;
    }
    if begins_with(name, generation_prefix_bytes().as_slice()) {
        if is_generation_name(name) {
            return EntryRole::Generation;
        }
        return EntryRole::Obstacle;
    }
    if begins_with(name, stage_prefix_bytes().as_slice()) || begins_with(
        name,
        temporary_prefix_bytes().as_slice(),
    ) {
        return EntryRole::Obstacle;
    }
    EntryRole::Bystander
}

/// The generations among the entries, or the first entry's failure.
pub open spec fn generations_in(entries: Seq<StoreEntry>) -> Result<
    Seq<Seq<u8>>,
    LegacyRecoveryReservationError,
>
    decreases entries.len(),
{
    if entries.len() == 0 {
        Ok(Seq::empty())
    } else {
        match generations_in(entries.drop_last()) {
            Err(error) => Err(error),
            Ok(names) => match entries.last() {
                StoreEntry::Unreadable => Err(
                    LegacyRecoveryReservationError::Store(CatacombStoreError::StorageUnavailable),
                ),
                StoreEntry::NotText => Err(
                    LegacyRecoveryReservationError::Store(CatacombStoreError::UnsafeStorage),
                ),
                StoreEntry::Named(name) => match role_of(name@) {
                    EntryRole::Bystander => Ok(names),
                    EntryRole::Generation => Ok(names.push(name@)),
                    EntryRole::Obstacle => Err(LegacyRecoveryReservationError::Refused),
                },
            },
        }
    }
}

/// Failing early is failing.
proof fn lemma_generations_fail_early(entries: Seq<StoreEntry>, count: int)
    requires
        0 <= count <= entries.len(),
        generations_in(entries.subrange(0, count)) is Err,
    ensures
        generations_in(entries) == generations_in(entries.subrange(0, count)),
    decreases entries.len() - count,
{
    if count == entries.len() {
        assert(entries.subrange(0, count) =~= entries);
    } else {
        let longer = entries.subrange(0, count + 1);
        assert(longer.drop_last() =~= entries.subrange(0, count));
        lemma_generations_fail_early(entries, count + 1);
    }
}

/// Whether one of the names is `name`.
pub open spec fn is_among(names: Seq<Seq<u8>>, name: Seq<u8>) -> bool {
    exists|i: int| 0 <= i < names.len() && #[trigger] names[i] == name
}

fn collect_generations(entries: &Vec<StoreEntry>) -> (r: Result<
    Vec<Vec<u8>>,
    LegacyRecoveryReservationError,
>)
    ensures
        match generations_in(entries@) {
            Ok(names) => r is Ok && all_bytes(r->Ok_0@) == names,
            Err(error) => r == Err::<Vec<Vec<u8>>, LegacyRecoveryReservationError>(error),
        },
{
    let mut names: Vec<Vec<u8>> = Vec::new();
    let mut i: usize = 0;
    assert(entries@.subrange(0, 0) =~= Seq::<StoreEntry>::empty());
    assert(all_bytes(names@) =~= Seq::<Seq<u8>>::empty());
    while i < entries.len()
        invariant
            i <= entries@.len(),
            generations_in(entries@.subrange(0, i as int)) == Ok::<
                Seq<Seq<u8>>,
                LegacyRecoveryReservationError,
            >(all_bytes(names@)),
        decreases entries@.len() - i,
    {
        let ghost longer = entries@.subrange(0, i as int + 1);
        proof {
            assert(longer.drop_last() =~= entries@.subrange(0, i as int));
            assert(longer.last() == entries@[i as int]);
            if generations_in(longer) is Err {
                lemma_generations_fail_early(entries@, i as int + 1);
            }
        }
        match &entries[i] {
            StoreEntry::Unreadable => {
                return Err(
                    LegacyRecoveryReservationError::Store(CatacombStoreError::StorageUnavailable),
                );
            },
            StoreEntry::NotText => {
                return Err(
                    LegacyRecoveryReservationError::Store(CatacombStoreError::UnsafeStorage),
                );
            },
            StoreEntry::Named(name) => match entry_role(name.as_slice()) {
                EntryRole::Bystander => {},
                EntryRole::Obstacle => {
                    return Err(LegacyRecoveryReservationError::Refused);
                },
                EntryRole::Generation => {
                    let ghost before = names@;
                    names.push(crate::bytes::to_vec(name.as_slice()));
                    assert(all_bytes(names@) =~= all_bytes(before).push(name@));
                },
            },
        }
        i += 1;
    }
    assert(entries@.subrange(0, entries@.len() as int) =~= entries@);
    Ok(names)
}

fn holds_name(names: &Vec<Vec<u8>>, name: &[u8]) -> (r: bool)
    ensures
        r == is_among(all_bytes(names@), name@),
{
    let mut i: usize = 0;
    while i < names.len()
        invariant
            i <= names@.len(),
            forall|j: int| 0 <= j < i ==> (#[trigger] all_bytes(names@)[j]) != name@,
        decreases names@.len() - i,
    {
        if same_bytes(names[i].as_slice(), name) {
            assert(all_bytes(names@)[i as int] == name@);
            return true;
        }
        i += 1;
    }
    assert(all_bytes(names@).len() == names@.len());
    false
}

/// Lists the store's generations in the order of their names; the active one has
/// to be among them. `None` stands for a directory that could not be read.
pub fn legacy_recovery_generations(entries: Option<&Vec<StoreEntry>>, active: &[u8]) -> (r: Result<
    Vec<Vec<u8>>,
    LegacyRecoveryReservationError,
>)
    ensures
        match entries {
            None => r == Err::<Vec<Vec<u8>>, LegacyRecoveryReservationError>(
                LegacyRecoveryReservationError::Store(CatacombStoreError::StorageUnavailable),
            ),
            Some(entries) => match generations_in(entries@) {
                Err(error) => r == Err::<Vec<Vec<u8>>, LegacyRecoveryReservationError>(error),
                Ok(names) => if is_among(names, active@) {
                    r is Ok && names_in_order(all_bytes(r->Ok_0@)) && all_bytes(
                        r->Ok_0@,
                    ).to_multiset() == names.to_multiset()
                } else {
                    r == Err::<Vec<Vec<u8>>, LegacyRecoveryReservationError>(
                        LegacyRecoveryReservationError::Refused,
                    )
                },
            },
        },
{
    match entries {
        None => Err(LegacyRecoveryReservationError::Store(CatacombStoreError::StorageUnavailable)),
        Some(entries) => match collect_generations(entries) {
            Err(error) => Err(error),
            Ok(names) => if holds_name(&names, active) {
                Ok(sorted_names(names))
            } else {
                Err(LegacyRecoveryReservationError::Refused)
            },
        },
    }
}

/// What was found in one generation: it could not be read, it has no metadata,
/// or it has metadata that does not decode, or with or without a label.
#[derive(Clone, Copy, Debug, PartialEq, Eq, Structural)]
pub enum GenerationFinding {
    Unreadable(CatacombStoreError),
    NoMetadata,
    InvalidMetadata,
    Metadata { labeled: bool },
}

/// The kind that a finding shows.
pub open spec fn kind_of(finding: GenerationFinding) -> Result<
    GenerationKind,
    LegacyRecoveryReservationError,
> {
    match finding {
        GenerationFinding::Unreadable(error) => Err(LegacyRecoveryReservationError::Store(error)),
        GenerationFinding::NoMetadata => Ok(GenerationKind::Legacy),
        GenerationFinding::InvalidMetadata => Err(
            LegacyRecoveryReservationError::Store(CatacombStoreError::InvalidMetadata),
        ),
        GenerationFinding::Metadata { labeled } => if labeled {
            Ok(GenerationKind::Labeled)
        } else {
            Err(LegacyRecoveryReservationError::Refused)
        },
    }
}

/// Takes what was found in one complete generation; metadata without a label
/// makes the state ineligible.
pub fn generation_kind(finding: GenerationFinding) -> (r: Result<
    GenerationKind,
    LegacyRecoveryReservationError,
>)
    ensures
        r == kind_of(finding),
{
    match finding {
        GenerationFinding::Unreadable(error) => Err(LegacyRecoveryReservationError::Store(error)),
        GenerationFinding::NoMetadata => Ok(GenerationKind::Legacy),
        GenerationFinding::InvalidMetadata => Err(
            LegacyRecoveryReservationError::Store(CatacombStoreError::InvalidMetadata),
        ),
        GenerationFinding::Metadata { labeled } => if labeled {
            Ok(GenerationKind::Labeled)
        } else {
            Err(LegacyRecoveryReservationError::Refused)
        },
    }
}

/// One complete generation.
#[derive(Debug, PartialEq, Eq)]
pub struct Generation {
    pub name: Vec<u8>,
    pub kind: GenerationKind,
}

/// The kinds that the findings show, or the first one's failure.
pub open spec fn kinds_of(findings: Seq<GenerationFinding>) -> Result<
    Seq<GenerationKind>,
    LegacyRecoveryReservationError,
>
    decreases findings.len(),
{
    if findings.len() == 0 {
        Ok(Seq::empty())
    } else {
        match kind_of(findings[0]) {
            Err(error) => Err(error),
            Ok(kind) => match kinds_of(findings.drop_first()) {
                Err(error) => Err(error),
                Ok(kinds) => Ok(seq![kind] + kinds),
            },
        }
    }
}

/// Pairs every generation with the kind that its finding shows; the first failure
/// in the order of the names counts.
pub fn classify_generations(names: Vec<Vec<u8>>, findings: &Vec<GenerationFinding>) -> (r: Result<
    Vec<Generation>,
    LegacyRecoveryReservationError,
>)
    requires
        names@.len() == findings@.len(),
    ensures
        match kinds_of(findings@) {
            Err(error) => r == Err::<Vec<Generation>, LegacyRecoveryReservationError>(error),
            Ok(kinds) => r is Ok && r->Ok_0@.len() == names@.len() && kinds.len() == names@.len()
                && forall|i: int|
                0 <= i < names@.len() ==> (#[trigger] r->Ok_0@[i]).name@ == names@[i]@
                    && r->Ok_0@[i].kind == kinds[i],
        },
{
    let mut generations: Vec<Generation> = Vec::new();
    let mut i: usize = 0;
    while i < names.len()
        invariant
            i <= names@.len(),
            names@.len() == findings@.len(),
            generations@.len() == i,
            forall|j: int|
                0 <= j < i ==> (#[trigger] generations@[j]).name@ == names@[j]@,
            forall|j: int|
                0 <= j < i ==> kind_of(#[trigger] findings@[j]) == Ok::<
                    GenerationKind,
                    LegacyRecoveryReservationError,
                >(generations@[j].kind),
        decreases names@.len() - i,
    {
        match generation_kind(findings[i]) {
            Err(error) => {
                proof {
                    lemma_first_failure_counts(findings@, i as int);
                }
                return Err(error);
            },
            Ok(kind) => {
                generations.push(
                    Generation { name: crate::bytes::to_vec(names[i].as_slice()), kind },
                );
            },
        }
        i += 1;
    }
    proof {
        lemma_kinds_without_failure(findings@);
        assert forall|j: int| 0 <= j < names@.len() implies (#[trigger] generations@[j]).kind
            == kinds_of(findings@)->Ok_0[j] by {
            assert(kind_of(findings@[j]) is Ok);
        }
    }
    Ok(generations)
}

/// The first failing finding gives the failure.
proof fn lemma_first_failure_counts(findings: Seq<GenerationFinding>, place: int)
    requires
        0 <= place < findings.len(),
        kind_of(findings[place]) is Err,
        forall|j: int| 0 <= j < place ==> kind_of(#[trigger] findings[j]) is Ok,
    ensures
        kinds_of(findings) is Err,
        kinds_of(findings)->Err_0 == kind_of(findings[place])->Err_0,
    decreases place,
{
    if place > 0 {
        let rest = findings.drop_first();
        assert forall|j: int| 0 <= j < place - 1 implies kind_of(#[trigger] rest[j]) is Ok by {
            assert(rest[j] == findings[j + 1]);
        }
        assert(rest[place - 1] == findings[place]);
        lemma_first_failure_counts(rest, place - 1);
        assert(kind_of(findings[0]) is Ok);
    }
}

/// Without a failing finding every finding gives its kind.
proof fn lemma_kinds_without_failure(findings: Seq<GenerationFinding>)
    requires
        forall|j: int| 0 <= j < findings.len() ==> kind_of(#[trigger] findings[j]) is Ok,
    ensures
        kinds_of(findings) is Ok,
        kinds_of(findings)->Ok_0.len() == findings.len(),
        forall|j: int|
            0 <= j < findings.len() ==> #[trigger] kinds_of(findings)->Ok_0[j] == kind_of(
                findings[j],
            )->Ok_0,
    decreases findings.len(),
{
    if findings.len() > 0 {
        let rest = findings.drop_first();
        assert forall|j: int| 0 <= j < rest.len() implies kind_of(#[trigger] rest[j]) is Ok by {
            assert(rest[j] == findings[j + 1]);
        }
        lemma_kinds_without_failure(rest);
        assert(kind_of(findings[0]) is Ok);
        let kinds = kinds_of(findings)->Ok_0;
        assert forall|j: int| 0 <= j < findings.len() implies #[trigger] kinds[j] == kind_of(
            findings[j],
        )->Ok_0 by {
            if j > 0 {
                assert(kinds[j] == kinds_of(rest)->Ok_0[j - 1]);
                assert(rest[j - 1] == findings[j]);
            }
        }
    }
}

/// What to do about a reservation.
#[derive(Debug, PartialEq, Eq)]
pub enum ReservationStep {
    /// Create this file exclusively, judge and synchronize it and the directory.
    Create(Vec<u8>),
    /// The exact reservation stands already.
    Existing,
    /// The state is not uniquely eligible.
    Refused,
}

/// The labeled and the legacy generation, where there is exactly one of each.
pub open spec fn unique_pair(generations: Seq<Generation>) -> Option<(Seq<u8>, Seq<u8>)> {
    if generations.len() != 2 {
        None
    } else if generations[0].kind == GenerationKind::Labeled && generations[1].kind
        == GenerationKind::Legacy {
        Some((generations[0].name@, generations[1].name@))
    } else if generations[0].kind == GenerationKind::Legacy && generations[1].kind
        == GenerationKind::Labeled {
        Some((generations[1].name@, generations[0].name@))
    } else {
        None
    }
}

/// Whether there is exactly one labeled and one legacy generation: any other state is
/// refused before the reservations are read.
pub fn is_uniquely_eligible(generations: &Vec<Generation>) -> (r: bool)
    ensures
        r == (unique_pair(generations@) is Some),
{
    generations.len() == 2 && match (generations[0].kind, generations[1].kind) {
        (GenerationKind::Labeled, GenerationKind::Legacy) => true,
        (GenerationKind::Legacy, GenerationKind::Labeled) => true,
        _ => false,
    }
}

/// The reservation's name of a generation.
pub open spec fn reservation_for(generation: Seq<u8>) -> Seq<u8> {
    reservation_of(
        if has_prefix(generation, generation_prefix()) {
            rest_after(generation, 5)
        } else {
            Seq::empty()
        },
    )
}

/// What to do about the reservation: without one, the labeled generation has to
/// be active and the legacy one gets it; with one, it has to be the legacy
/// generation's, and either generation may be active.
pub open spec fn reservation_decision(
    generations: Seq<Generation>,
    active: Seq<u8>,
    tokens: Seq<Seq<u8>>,
    r: ReservationStep,
) -> bool {
    match unique_pair(generations) {
        None => r is Refused,
        Some((labeled, legacy)) => if tokens.len() == 0 && active == labeled {
            r is Create && r->Create_0@ == reservation_for(legacy)
        } else if tokens.len() == 1 && generation_of(tokens[0]) == legacy && (active == labeled
            || active == legacy) {
            r is Existing
        } else {
            r is Refused
        },
    }
}

impl CatacombPairStore {
    /// Decides about the reservation of the only complete inactive generation
    /// without metadata. No caller supplies or receives a generation to select: any
    /// ambiguous or differently shaped state is refused.
    pub fn reserve_unique_inactive_legacy_recovery(
        &self,
        generations: &Vec<Generation>,
        active: &[u8],
        tokens: &Vec<Vec<u8>>,
    ) -> (r: ReservationStep)
        ensures
            reservation_decision(generations@, active@, all_bytes(tokens@), r),
    {
        if generations.len() != 2 {
            return ReservationStep::Refused;
        }
        let first = &generations[0];
        let second = &generations[1];
        let (labeled, legacy) = match (first.kind, second.kind) {
            (GenerationKind::Labeled, GenerationKind::Legacy) => (first, second),
            (GenerationKind::Legacy, GenerationKind::Labeled) => (second, first),
            _ => {
                return ReservationStep::Refused;
            },
        };
        assert(unique_pair(generations@) == Some((labeled.name@, legacy.name@)));
        if tokens.len() == 0 {
            assert(all_bytes(tokens@).len() == 0);
            if same_bytes(active, labeled.name.as_slice()) {
                return ReservationStep::Create(recovery_name(legacy.name.as_slice()));
            }
            return ReservationStep::Refused;
        }
        assert(all_bytes(tokens@).len() == tokens@.len());
        if tokens.len() == 1 {
            assert(all_bytes(tokens@)[0] == tokens@[0]@);
            let reserved = generation_name(tokens[0].as_slice());
            if same_bytes(reserved.as_slice(), legacy.name.as_slice()) && (same_bytes(
                active,
                labeled.name.as_slice(),
            ) || same_bytes(active, legacy.name.as_slice())) {
                return ReservationStep::Existing;
            }
        }
        ReservationStep::Refused
    }
}

/// A reservation that was created is recognized as existing from then on, also
/// after the active marker has come to select the legacy generation.
pub proof fn law_reservation_is_idempotent(
    generations: Seq<Generation>,
    labeled: Seq<u8>,
    legacy: Seq<u8>,
    active: Seq<u8>,
    r: ReservationStep,
)
    requires
        unique_pair(generations) == Some((labeled, legacy)),
        names_generation(legacy),
        active == labeled || active == legacy,
        reservation_decision(generations, active, seq![rest_after(legacy, 5)], r),
    ensures
        reservation_for(legacy) == reservation_of(rest_after(legacy, 5)),
        r is Existing,
{
    crate::catacomb_names::law_names_identify_their_token(legacy, rest_after(legacy, 5));
}

/// A reservation is created only for the inactive one of exactly two
/// generations, which has no metadata, while the active one is labeled.
pub proof fn law_only_the_inactive_legacy_generation_is_reserved(
    generations: Seq<Generation>,
    active: Seq<u8>,
    tokens: Seq<Seq<u8>>,
    r: ReservationStep,
)
    requires
        reservation_decision(generations, active, tokens, r),
        r is Create,
    ensures
        generations.len() == 2,
        tokens.len() == 0,
        exists|i: int|
            0 <= i < 2 && (#[trigger] generations[i]).kind == GenerationKind::Legacy
                && generations[1 - i].kind == GenerationKind::Labeled && generations[1 - i].name@
                == active && r->Create_0@ == reservation_for(generations[i].name@),
{
    let (_, legacy) = unique_pair(generations)->0;
    if generations[0].kind == GenerationKind::Legacy {
        assert(generations[0].name@ == legacy);
    } else {
        assert(generations[1].name@ == legacy);
    }
}

} // verus!
