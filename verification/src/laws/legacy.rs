//! Which generation a legacy recovery reserves.

use crate::catacomb_recovery::{at_most, sorted_by_name, sorted_names, ListedName};
use crate::catacomb_store::{all_bytes, CatacombPairStore, CatacombStoreError, StoreEntry};
use crate::laws::names::{
    has_three_fields, pair_bytes, recovery_bytes,
    stage_bytes, temporary_bytes,
};
use crate::legacy_recovery::{
    classify_generations, entry_role, generation_kind, generations_in, is_among,
    is_uniquely_eligible, kind_of, kinds_of, legacy_recovery_generations, EntryRole, Generation,
    GenerationFinding, GenerationKind, LegacyRecoveryReservationError, ReservationStep,
};
use vstd::prelude::*;

verus! {

/// Whether there are two generations, the one at `legacy` without metadata and the other
/// one labeled.
pub open spec fn is_legacy_at(generations: Seq<Generation>, legacy: int) -> bool {
    &&& generations.len() == 2 && (legacy == 0 || legacy == 1)
    &&& generations[legacy].kind == GenerationKind::Legacy
    &&& generations[1 - legacy].kind == GenerationKind::Labeled
}

/// Wherever the legacy generation stands: without a reservation it gets one, by its own
/// token, while the labeled generation is active; with its own reservation alone that
/// one stands, whichever is active; anything else is refused.
pub proof fn law_the_legacy_generation_is_reserved_in_either_place(
    store: &CatacombPairStore,
    generations: &Vec<Generation>,
    active: &[u8],
    tokens: &Vec<Vec<u8>>,
    r: ReservationStep,
    legacy: int,
)
    requires
        call_ensures(
            CatacombPairStore::reserve_unique_inactive_legacy_recovery,
            (store, generations, active, tokens),
            r,
        ),
        is_legacy_at(generations@, legacy),
    ensures
        r is Create <==> tokens@.len() == 0 && active@ == generations@[1 - legacy].name@,
        r matches ReservationStep::Create(name) ==> forall|token: Seq<u8>|
            generations@[legacy].name@ == #[trigger] (pair_bytes() + token) ==> name@
                == recovery_bytes() + token,
        r is Existing <==> tokens@.len() == 1 && generations@[legacy].name@ == pair_bytes()
            + tokens@[0]@ && (active@ == generations@[0].name@ || active@
            == generations@[1].name@),
{
    let name = generations@[legacy].name@;
    let labeled = generations@[1 - legacy].name@;
    assert(crate::legacy_recovery::unique_pair(generations@) == Some((labeled, name)));
    assert(all_bytes(tokens@).len() == tokens@.len());
    if tokens@.len() == 1 {
        assert(all_bytes(tokens@)[0] == tokens@[0]@);
        assert(crate::catacomb_names::generation_of(tokens@[0]@) =~= pair_bytes() + tokens@[0]@);
    }
    if let ReservationStep::Create(created) = r {
        assert forall|token: Seq<u8>| name == #[trigger] (pair_bytes() + token) implies created@
            == recovery_bytes() + token by {
            assert(name.subrange(0, 5) =~= pair_bytes());
            assert(name.subrange(5, name.len() as int) =~= token);
            assert(created@ =~= recovery_bytes() + token);
        }
    }
}

/// Any other number or kind of generations is refused, and is not eligible.
pub proof fn law_other_generations_are_refused(
    store: &CatacombPairStore,
    generations: &Vec<Generation>,
    active: &[u8],
    tokens: &Vec<Vec<u8>>,
    r: ReservationStep,
    eligible: bool,
)
    requires
        call_ensures(
            CatacombPairStore::reserve_unique_inactive_legacy_recovery,
            (store, generations, active, tokens),
            r,
        ),
        call_ensures(is_uniquely_eligible, (generations,), eligible),
    ensures
        eligible <==> generations@.len() == 2 && generations@[0].kind != generations@[1].kind,
        eligible <==> is_legacy_at(generations@, 0) || is_legacy_at(generations@, 1),
        !eligible ==> r is Refused,
{
}

/// In which order the two generations are listed decides nothing.
pub proof fn law_reservations_do_not_depend_on_the_order(
    store: &CatacombPairStore,
    generations: &Vec<Generation>,
    swapped: &Vec<Generation>,
    active: &[u8],
    tokens: &Vec<Vec<u8>>,
    r: ReservationStep,
    s: ReservationStep,
)
    requires
        generations@.len() == 2,
        swapped@ == seq![generations@[1], generations@[0]],
        call_ensures(
            CatacombPairStore::reserve_unique_inactive_legacy_recovery,
            (store, generations, active, tokens),
            r,
        ),
        call_ensures(
            CatacombPairStore::reserve_unique_inactive_legacy_recovery,
            (store, swapped, active, tokens),
            s,
        ),
    ensures
        r is Refused <==> s is Refused,
        r is Existing <==> s is Existing,
        r matches ReservationStep::Create(name) ==> s is Create && s->Create_0@ == name@,
{
    assert(swapped@[0] == generations@[1] && swapped@[1] == generations@[0]);
}

/// Whether the name begins with the prefix.
pub open spec fn begins(name: Seq<u8>, prefix: Seq<u8>) -> bool {
    prefix.len() <= name.len() && forall|i: int|
        0 <= i < prefix.len() ==> #[trigger] name[i] == prefix[i]
}

/// Prefixes agree byte by byte.
pub proof fn lemma_prefixes(name: Seq<u8>, prefix: Seq<u8>)
    ensures
        crate::bytes::has_prefix(name, prefix) <==> begins(name, prefix),
{
    if prefix.len() <= name.len() {
        let head = name.subrange(0, prefix.len() as int);
        if begins(name, prefix) {
            assert(head =~= prefix);
        }
        if head == prefix {
            assert forall|i: int| 0 <= i < prefix.len() implies #[trigger] name[i] == prefix[i] by {
                assert(head[i] == prefix[i]);
            }
        }
    }
}

/// Generations are the names of tokens behind `pair-`; what else begins with `pair-`,
/// `.stage-` or `.active-` stands in the way; the marker, the reservations and everything
/// else do not matter.
pub proof fn law_entries_matter_by_their_names(name: &[u8], generation: bool, r: EntryRole)
    requires
        call_ensures(entry_role, (name,), r),
        call_ensures(crate::catacomb_names::is_generation_name, (name,), generation),
    ensures
        r == EntryRole::Generation <==> generation,
        r == EntryRole::Obstacle <==> !generation && (begins(name@, pair_bytes()) || begins(
            name@,
            stage_bytes(),
        ) || begins(name@, temporary_bytes())),
{
    lemma_prefixes(name@, pair_bytes());
    lemma_prefixes(name@, stage_bytes());
    lemma_prefixes(name@, temporary_bytes());
    lemma_prefixes(name@, recovery_bytes());
    assert(crate::catacomb_names::generation_prefix() =~= pair_bytes());
    assert(crate::catacomb_names::stage_prefix() =~= stage_bytes());
    assert(crate::catacomb_names::temporary_prefix() =~= temporary_bytes());
    assert(crate::catacomb_names::recovery_prefix() =~= recovery_bytes());
    let marker = crate::catacomb_names::active_marker();
    assert(marker[0] == 97u8);
    if begins(name@, pair_bytes()) {
        assert(name@[0] == pair_bytes()[0]);
    }
    if begins(name@, stage_bytes()) {
        assert(name@[0] == stage_bytes()[0]);
        assert(name@[1] == stage_bytes()[1]);
    }
    if begins(name@, temporary_bytes()) {
        assert(name@[0] == temporary_bytes()[0]);
        assert(name@[1] == temporary_bytes()[1]);
    }
    if begins(name@, recovery_bytes()) {
        assert(name@[0] == recovery_bytes()[0]);
        assert(name@[1] == recovery_bytes()[1]);
    }
}

/// A complete generation without metadata is a legacy one, one with a label is labeled;
/// metadata without a label is refused, and what cannot be read or decoded is the
/// store's failure.
pub proof fn law_generations_are_of_the_kind_that_was_found(
    finding: GenerationFinding,
    r: Result<GenerationKind, LegacyRecoveryReservationError>,
)
    requires
        call_ensures(generation_kind, (finding,), r),
    ensures
        r == Ok::<GenerationKind, LegacyRecoveryReservationError>(GenerationKind::Legacy)
            <==> finding == GenerationFinding::NoMetadata,
        r == Ok::<GenerationKind, LegacyRecoveryReservationError>(GenerationKind::Labeled)
            <==> finding == (GenerationFinding::Metadata { labeled: true }),
        r == Err::<GenerationKind, LegacyRecoveryReservationError>(
            LegacyRecoveryReservationError::Refused,
        ) <==> finding == (GenerationFinding::Metadata { labeled: false }),
        finding == GenerationFinding::InvalidMetadata ==> r == Err::<
            GenerationKind,
            LegacyRecoveryReservationError,
        >(LegacyRecoveryReservationError::Store(CatacombStoreError::InvalidMetadata)),
        finding matches GenerationFinding::Unreadable(error) ==> r == Err::<
            GenerationKind,
            LegacyRecoveryReservationError,
        >(LegacyRecoveryReservationError::Store(error)),
{
}

/// Whether a finding shows the kind of a complete generation.
pub open spec fn shows(finding: GenerationFinding, kind: GenerationKind) -> bool {
    match kind {
        GenerationKind::Legacy => finding == GenerationFinding::NoMetadata,
        GenerationKind::Labeled => finding == (GenerationFinding::Metadata { labeled: true }),
    }
}

/// Whether a finding shows no kind.
pub open spec fn fails(finding: GenerationFinding) -> bool {
    !shows(finding, GenerationKind::Legacy) && !shows(finding, GenerationKind::Labeled)
}

proof fn lemma_kinds_one_by_one(findings: Seq<GenerationFinding>)
    ensures
        kinds_of(findings) is Ok <==> forall|i: int|
            0 <= i < findings.len() ==> !fails(#[trigger] findings[i]),
        kinds_of(findings) matches Ok(kinds) ==> kinds.len() == findings.len() && forall|i: int|
            0 <= i < findings.len() ==> shows(#[trigger] findings[i], kinds[i]),
        forall|i: int|
            0 <= i < findings.len() && fails(#[trigger] findings[i]) && (forall|j: int|
                0 <= j < i ==> !fails(#[trigger] findings[j])) ==> kinds_of(findings) == Err::<
                Seq<GenerationKind>,
                LegacyRecoveryReservationError,
            >(kind_of(findings[i])->Err_0),
    decreases findings.len(),
{
    if findings.len() > 0 {
        let rest = findings.drop_first();
        lemma_kinds_one_by_one(rest);
        assert(forall|i: int| 0 <= i < rest.len() ==> #[trigger] rest[i] == findings[i + 1]);
        if kinds_of(findings) is Ok {
            let kinds = kinds_of(findings)->Ok_0;
            assert forall|i: int| 0 <= i < findings.len() implies shows(
                #[trigger] findings[i],
                kinds[i],
            ) by {
                if i > 0 {
                    assert(rest[i - 1] == findings[i]);
                }
            }
        } else if forall|i: int| 0 <= i < findings.len() ==> !fails(#[trigger] findings[i]) {
            assert(!fails(findings[0]));
            assert forall|i: int| 0 <= i < rest.len() implies !fails(#[trigger] rest[i]) by {
                assert(!fails(findings[i + 1]));
            }
        }
        assert forall|i: int|
            0 <= i < findings.len() && fails(#[trigger] findings[i]) && (forall|j: int|
                0 <= j < i ==> !fails(#[trigger] findings[j])) implies kinds_of(findings) == Err::<
            Seq<GenerationKind>,
            LegacyRecoveryReservationError,
        >(kind_of(findings[i])->Err_0) by {
            if i > 0 {
                assert(!fails(findings[0]));
                assert(rest[i - 1] == findings[i]);
                assert forall|j: int| 0 <= j < i - 1 implies !fails(#[trigger] rest[j]) by {
                    assert(!fails(findings[j + 1]));
                }
            }
        }
    }
}

/// Every generation keeps its name, in its place, with the kind that was found there;
/// where one shows no kind, the first such one's failure is given.
pub proof fn law_generations_are_classified_in_place(
    names: Vec<Vec<u8>>,
    findings: &Vec<GenerationFinding>,
    r: Result<Vec<Generation>, LegacyRecoveryReservationError>,
    place: int,
    failure: Result<GenerationKind, LegacyRecoveryReservationError>,
)
    requires
        names@.len() == findings@.len(),
        call_ensures(classify_generations, (names, findings), r),
        0 <= place < findings@.len(),
        call_ensures(generation_kind, (findings@[place],), failure),
    ensures
        r is Ok <==> forall|i: int| 0 <= i < findings@.len() ==> !fails(#[trigger] findings@[i]),
        r matches Ok(generations) ==> generations@.len() == names@.len()
            && generations@[place].name@ == names@[place]@ && shows(
            findings@[place],
            generations@[place].kind,
        ),
        fails(findings@[place]) && (forall|j: int|
            0 <= j < place ==> !fails(#[trigger] findings@[j])) ==> r is Err && failure is Err
            && r->Err_0 == failure->Err_0,
{
    lemma_kinds_one_by_one(findings@);
    if r is Ok {
        assert(r->Ok_0@[place].name@ == names@[place]@);
    }
}

/// Whether `a` comes before `b` in the order of bytes, or is the same.
pub open spec fn is_ordered(a: Seq<u8>, b: Seq<u8>) -> bool {
    exists|k: int| #[trigger] is_ordered_from(a, b, k)
}

/// Whether `a` and `b` agree up to `k`, where `a` ends or has the smaller byte.
pub open spec fn is_ordered_from(a: Seq<u8>, b: Seq<u8>, k: int) -> bool {
    &&& 0 <= k <= a.len() && k <= b.len()
    &&& forall|i: int| 0 <= i < k ==> #[trigger] a[i] == b[i]
    &&& k == a.len() || (k < b.len() && a[k] < b[k])
}

/// What the names are sorted by is the order of bytes.
pub proof fn lemma_order_is_by_bytes(a: Seq<u8>, b: Seq<u8>)
    ensures
        at_most(a, b) ==> is_ordered(a, b),
    decreases a.len(),
{
    if at_most(a, b) {
        if a.len() == 0 || a[0] != b[0] {
            assert(is_ordered_from(a, b, 0));
        } else {
            let rest_a = a.subrange(1, a.len() as int);
            let rest_b = b.subrange(1, b.len() as int);
            lemma_order_is_by_bytes(rest_a, rest_b);
            let k = choose|k: int| #[trigger] is_ordered_from(rest_a, rest_b, k);
            assert forall|i: int| 0 <= i < k + 1 implies #[trigger] a[i] == b[i] by {
                if i > 0 {
                    assert(rest_a[i - 1] == rest_b[i - 1]);
                }
            }
            if k < rest_b.len() && k < rest_a.len() {
                assert(rest_a[k] == a[k + 1] && rest_b[k] == b[k + 1]);
            }
            assert(is_ordered_from(a, b, k + 1));
        }
    }
}

/// Sorted names stand in the order of their bytes, and are the names that were given.
pub proof fn law_sorted_names_stand_in_order(names: Vec<Vec<u8>>, r: Vec<Vec<u8>>, i: int, j: int)
    requires
        call_ensures(sorted_names, (names,), r),
        0 <= i <= j < r@.len(),
    ensures
        is_ordered(r@[i]@, r@[j]@),
        r@.len() == names@.len(),
        all_bytes(r@).to_multiset() == all_bytes(names@).to_multiset(),
{
    broadcast use vstd::seq_lib::group_to_multiset_ensures;

    assert(all_bytes(r@)[i] == r@[i]@ && all_bytes(r@)[j] == r@[j]@);
    lemma_order_is_by_bytes(r@[i]@, r@[j]@);
    vstd::seq_lib::to_multiset_len(all_bytes(r@));
    vstd::seq_lib::to_multiset_len(all_bytes(names@));
}

/// Sorted entries stand in the order of their names, and are the entries that were
/// given.
pub proof fn law_sorted_entries_stand_in_order(
    entries: Vec<ListedName>,
    r: Vec<ListedName>,
    i: int,
    j: int,
)
    requires
        call_ensures(sorted_by_name, (entries,), r),
        0 <= i <= j < r@.len(),
    ensures
        is_ordered(r@[i].name@, r@[j].name@),
        r@.to_multiset() == entries@.to_multiset(),
{
    lemma_order_is_by_bytes(r@[i].name@, r@[j].name@);
}

/// Whether the name is that of a token behind `pair-`.
pub open spec fn is_generation(name: Seq<u8>) -> bool {
    exists|token: Seq<u8>| #[trigger] has_three_fields(token) && name == pair_bytes() + token
}

/// Whether an entry lets generations be listed: it has a readable name that does not
/// stand in the way.
pub open spec fn is_listable(entry: StoreEntry) -> bool {
    entry matches StoreEntry::Named(name) && (is_generation(name@) || !(begins(
        name@,
        pair_bytes(),
    ) || begins(name@, stage_bytes()) || begins(name@, temporary_bytes())))
}

/// Whether the entry is the generation of this name.
pub open spec fn is_entry_of(entry: StoreEntry, name: Seq<u8>) -> bool {
    entry matches StoreEntry::Named(listed) && listed@ == name && is_generation(name)
}

proof fn lemma_roles(name: Seq<u8>)
    ensures
        crate::legacy_recovery::role_of(name) == EntryRole::Generation <==> is_generation(name),
        crate::legacy_recovery::role_of(name) == EntryRole::Obstacle <==> !is_generation(name) && (
        begins(name, pair_bytes()) || begins(name, stage_bytes()) || begins(
            name,
            temporary_bytes(),
        )),
{
    lemma_prefixes(name, pair_bytes());
    lemma_prefixes(name, stage_bytes());
    lemma_prefixes(name, temporary_bytes());
    lemma_prefixes(name, recovery_bytes());
    assert(crate::catacomb_names::generation_prefix() =~= pair_bytes());
    assert(crate::catacomb_names::stage_prefix() =~= stage_bytes());
    assert(crate::catacomb_names::temporary_prefix() =~= temporary_bytes());
    assert(crate::catacomb_names::recovery_prefix() =~= recovery_bytes());
    assert(crate::catacomb_names::active_marker()[0] == 97u8);
    crate::laws::names::lemma_generations_are_names_of_tokens(name);
    if begins(name, pair_bytes()) {
        assert(name[0] == pair_bytes()[0]);
    }
    if begins(name, stage_bytes()) {
        assert(name[0] == stage_bytes()[0]);
        assert(name[1] == stage_bytes()[1]);
    }
    if begins(name, temporary_bytes()) {
        assert(name[0] == temporary_bytes()[0]);
        assert(name[1] == temporary_bytes()[1]);
    }
    if begins(name, recovery_bytes()) {
        assert(name[0] == recovery_bytes()[0]);
        assert(name[1] == recovery_bytes()[1]);
    }
}

proof fn lemma_generations_one_by_one(entries: Seq<StoreEntry>)
    ensures
        generations_in(entries) is Ok <==> forall|i: int|
            0 <= i < entries.len() ==> is_listable(#[trigger] entries[i]),
        generations_in(entries) matches Ok(names) ==> {
            &&& forall|name: Seq<u8>|
                #[trigger] is_among(names, name) ==> exists|i: int|
                    0 <= i < entries.len() && is_entry_of(#[trigger] entries[i], name)
            &&& forall|i: int, name: Seq<u8>|
                0 <= i < entries.len() && #[trigger] is_entry_of(entries[i], name) ==> is_among(
                    names,
                    name,
                )
            &&& names.len() <= entries.len()
        },
    decreases entries.len(),
{
    if entries.len() > 0 {
        let head = entries.drop_last();
        lemma_generations_one_by_one(head);
        assert(forall|i: int| 0 <= i < head.len() ==> #[trigger] head[i] == entries[i]);
        let last = entries.last();
        if let StoreEntry::Named(name) = last {
            lemma_roles(name@);
        }
        if generations_in(entries) is Ok {
            let names = generations_in(entries)->Ok_0;
            let before = generations_in(head)->Ok_0;
            assert forall|i: int| 0 <= i < entries.len() implies is_listable(
                #[trigger] entries[i],
            ) by {
                if i < head.len() {
                    assert(is_listable(head[i]));
                }
            }
            assert forall|name: Seq<u8>| #[trigger] is_among(names, name) implies exists|i: int|
                0 <= i < entries.len() && is_entry_of(#[trigger] entries[i], name) by {
                let k = choose|k: int| 0 <= k < names.len() && #[trigger] names[k] == name;
                if k < before.len() {
                    assert(before[k] == name);
                    assert(is_among(before, name));
                    let i = choose|i: int|
                        0 <= i < head.len() && is_entry_of(#[trigger] head[i], name);
                    assert(is_entry_of(entries[i], name));
                } else {
                    assert(is_entry_of(entries[entries.len() - 1], name));
                }
            }
            assert forall|i: int, name: Seq<u8>|
                0 <= i < entries.len() && #[trigger] is_entry_of(
                    entries[i],
                    name,
                ) implies is_among(names, name) by {
                if i < head.len() {
                    assert(is_entry_of(head[i], name));
                    assert(is_among(before, name));
                    let k = choose|k: int| 0 <= k < before.len() && #[trigger] before[k] == name;
                    assert(names[k] == name);
                } else {
                    assert(names[before.len() as int] == name);
                }
            }
        } else if forall|i: int| 0 <= i < entries.len() ==> is_listable(#[trigger] entries[i]) {
            assert forall|i: int| 0 <= i < head.len() implies is_listable(#[trigger] head[i]) by {
                assert(is_listable(entries[i]));
            }
            assert(is_listable(entries[entries.len() - 1]));
        }
    }
}

/// Why an entry that does not let generations be listed does not.
pub open spec fn listing_failure(entry: StoreEntry) -> LegacyRecoveryReservationError {
    match entry {
        StoreEntry::Unreadable => LegacyRecoveryReservationError::Store(
            CatacombStoreError::StorageUnavailable,
        ),
        StoreEntry::NotText => LegacyRecoveryReservationError::Store(
            CatacombStoreError::UnsafeStorage,
        ),
        StoreEntry::Named(_) => LegacyRecoveryReservationError::Refused,
    }
}

proof fn lemma_first_unlistable(entries: Seq<StoreEntry>, i: int)
    requires
        0 <= i < entries.len(),
        !is_listable(entries[i]),
        forall|j: int| 0 <= j < i ==> is_listable(#[trigger] entries[j]),
    ensures
        generations_in(entries) == Err::<Seq<Seq<u8>>, LegacyRecoveryReservationError>(
            listing_failure(entries[i]),
        ),
    decreases entries.len(),
{
    let head = entries.drop_last();
    assert(forall|j: int| 0 <= j < head.len() ==> #[trigger] head[j] == entries[j]);
    if i < head.len() {
        assert forall|j: int| 0 <= j < i implies is_listable(#[trigger] head[j]) by {
            assert(is_listable(entries[j]));
        }
        lemma_first_unlistable(head, i);
    } else {
        lemma_generations_one_by_one(head);
        assert forall|j: int| 0 <= j < head.len() implies is_listable(#[trigger] head[j]) by {
            assert(is_listable(entries[j]));
        }
        if let StoreEntry::Named(name) = entries.last() {
            lemma_roles(name@);
        }
    }
}

/// The first entry that does not let generations be listed decides how that fails.
pub proof fn law_the_first_obstacle_is_reported(
    entries: &Vec<StoreEntry>,
    active: &[u8],
    r: Result<Vec<Vec<u8>>, LegacyRecoveryReservationError>,
    i: int,
)
    requires
        call_ensures(legacy_recovery_generations, (Some(entries), active), r),
        0 <= i < entries@.len(),
        !is_listable(entries@[i]),
        forall|j: int| 0 <= j < i ==> is_listable(#[trigger] entries@[j]),
    ensures
        r == Err::<Vec<Vec<u8>>, LegacyRecoveryReservationError>(listing_failure(entries@[i])),
{
    lemma_first_unlistable(entries@, i);
}

/// Generations are listed exactly where the directory can be read, nothing in it stands
/// in the way and the active generation is one of them; listed are then all of them, in
/// the order of their names, and nothing else.
pub proof fn law_all_generations_are_listed_in_order(
    entries: Option<&Vec<StoreEntry>>,
    active: &[u8],
    r: Result<Vec<Vec<u8>>, LegacyRecoveryReservationError>,
)
    requires
        call_ensures(legacy_recovery_generations, (entries, active), r),
    ensures
        r is Ok <==> entries is Some && (forall|i: int|
            0 <= i < entries->0@.len() ==> is_listable(#[trigger] entries->0@[i])) && (exists|
            i: int,
        |
            0 <= i < entries->0@.len() && is_entry_of(#[trigger] entries->0@[i], active@)),
        r matches Ok(names) ==> {
            &&& forall|i: int, j: int|
                0 <= i <= j < names@.len() ==> is_ordered(
                    (#[trigger] names@[i])@,
                    (#[trigger] names@[j])@,
                )
            &&& forall|k: int|
                0 <= k < names@.len() ==> exists|i: int|
                    0 <= i < entries->0@.len() && is_entry_of(
                        #[trigger] entries->0@[i],
                        (#[trigger] names@[k])@,
                    )
            &&& forall|i: int, name: Seq<u8>|
                0 <= i < entries->0@.len() && #[trigger] is_entry_of(entries->0@[i], name)
                    ==> exists|k: int| 0 <= k < names@.len() && (#[trigger] names@[k])@ == name
        },
        entries is None ==> r == Err::<Vec<Vec<u8>>, LegacyRecoveryReservationError>(
            LegacyRecoveryReservationError::Store(CatacombStoreError::StorageUnavailable),
        ),
        entries is Some && (forall|i: int|
            0 <= i < entries->0@.len() ==> is_listable(#[trigger] entries->0@[i])) && r is Err
            ==> r->Err_0 == LegacyRecoveryReservationError::Refused,
{
    broadcast use vstd::seq_lib::group_to_multiset_ensures;

    if let Some(entries) = entries {
        lemma_generations_one_by_one(entries@);
        if generations_in(entries@) is Ok {
            let all = generations_in(entries@)->Ok_0;
            if r is Ok {
                let names = r->Ok_0;
                let bytes = all_bytes(names@);
                assert(bytes.len() == names@.len());
                assert forall|i: int, j: int| 0 <= i <= j < names@.len() implies is_ordered(
                    (#[trigger] names@[i])@,
                    (#[trigger] names@[j])@,
                ) by {
                    assert(bytes[i] == names@[i]@ && bytes[j] == names@[j]@);
                    lemma_order_is_by_bytes(bytes[i], bytes[j]);
                }
                assert forall|k: int| 0 <= k < names@.len() implies exists|i: int|
                    0 <= i < entries@.len() && is_entry_of(
                        #[trigger] entries@[i],
                        (#[trigger] names@[k])@,
                    ) by {
                    assert(bytes[k] == names@[k]@);
                    assert(bytes.contains(bytes[k]));
                    assert(bytes.to_multiset().count(bytes[k]) > 0);
                    assert(all.contains(bytes[k]));
                    assert(is_among(all, bytes[k]));
                }
                assert forall|i: int, name: Seq<u8>|
                    0 <= i < entries@.len() && #[trigger] is_entry_of(
                        entries@[i],
                        name,
                    ) implies exists|k: int|
                    0 <= k < names@.len() && (#[trigger] names@[k])@ == name by {
                    assert(is_among(all, name));
                    assert(all.contains(name));
                    assert(all.to_multiset().count(name) > 0);
                    assert(bytes.contains(name));
                    let k = choose|k: int| 0 <= k < bytes.len() && bytes[k] == name;
                    assert(names@[k]@ == name);
                }
            }
        }
    }
}

} // verus!
