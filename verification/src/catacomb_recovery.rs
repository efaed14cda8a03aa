//! Cleaning a catacomb store up, and resolving an export whose outcome is not
//! known.
//!
//! Cleaning up removes what is known not to be the only current pair. An
//! ambiguous generation is promoted by the live device's verdict alone, and only
//! where it is the one complete candidate.

use crate::bytes::{rest_after, same_bytes, tail};
use crate::catacomb_names::{
    active_marker, active_marker_bytes, encode_marker, generation_name, generation_of,
    is_generation_name, is_marker_temporary_name, is_stage_name, marker_content,
    names_generation, names_stage, names_temporary,
};
use crate::catacomb_store::{
    all_bytes, CatacombPair, CatacombPairStore, CatacombStoreError, PairModel, PairReading,
    ReadingModel, StoreLimits,
};
use vstd::prelude::*;

verus! {

/// One entry of the store's directory that cleaning up looks at.
#[derive(Debug, PartialEq, Eq)]
pub struct ListedName {
    pub name: Vec<u8>,
    /// Whether the name is text.
    pub is_text: bool,
}

/// Lexicographic order of byte strings.
pub open spec fn at_most(a: Seq<u8>, b: Seq<u8>) -> bool
    decreases a.len(),
{
    if a.len() == 0 {
        true
    } else if b.len() == 0 {
        false
    } else if a[0] != b[0] {
        a[0] < b[0]
    } else {
        at_most(a.subrange(1, a.len() as int), b.subrange(1, b.len() as int))
    }
}

proof fn lemma_order_is_total(a: Seq<u8>, b: Seq<u8>)
    ensures
        at_most(a, b) || at_most(b, a),
    decreases a.len(),
{
    if a.len() != 0 && b.len() != 0 && a[0] == b[0] {
        lemma_order_is_total(a.subrange(1, a.len() as int), b.subrange(1, b.len() as int));
    }
}

proof fn lemma_order_is_transitive(a: Seq<u8>, b: Seq<u8>, c: Seq<u8>)
    requires
        at_most(a, b),
        at_most(b, c),
    ensures
        at_most(a, c),
    decreases a.len(),
{
    if a.len() != 0 && b.len() != 0 && c.len() != 0 && a[0] == b[0] && b[0] == c[0] {
        lemma_order_is_transitive(
            a.subrange(1, a.len() as int),
            b.subrange(1, b.len() as int),
            c.subrange(1, c.len() as int),
        );
    }
}

fn is_at_most(a: &[u8], b: &[u8]) -> (r: bool)
    ensures
        r == at_most(a@, b@),
{
    let mut i: usize = 0;
    assert(a@.subrange(0, a@.len() as int) =~= a@);
    assert(b@.subrange(0, b@.len() as int) =~= b@);
    while i < a.len()
        invariant
            i <= a@.len(),
            i <= b@.len(),
            at_most(a@, b@) == at_most(
                a@.subrange(i as int, a@.len() as int),
                b@.subrange(i as int, b@.len() as int),
            ),
        decreases a@.len() - i,
    {
        let ghost rest_a = a@.subrange(i as int, a@.len() as int);
        let ghost rest_b = b@.subrange(i as int, b@.len() as int);
        if i >= b.len() {
            return false;
        }
        assert(rest_a[0] == a@[i as int] && rest_b[0] == b@[i as int]);
        if a[i] != b[i] {
            return a[i] < b[i];
        }
        assert(rest_a.subrange(1, rest_a.len() as int) =~= a@.subrange(
            i as int + 1,
            a@.len() as int,
        ));
        assert(rest_b.subrange(1, rest_b.len() as int) =~= b@.subrange(
            i as int + 1,
            b@.len() as int,
        ));
        i += 1;
    }
    true
}

/// Whether the entries stand in the order of their names.
pub open spec fn in_order(entries: Seq<ListedName>) -> bool {
    forall|i: int, j: int|
        0 <= i <= j < entries.len() ==> at_most(
            (#[trigger] entries[i]).name@,
            (#[trigger] entries[j]).name@,
        )
}

/// The same entries, in the order of their names.
pub fn sorted_by_name(entries: Vec<ListedName>) -> (r: Vec<ListedName>)
    ensures
        in_order(r@),
        r@.to_multiset() == entries@.to_multiset(),
{
    broadcast use vstd::seq_lib::group_to_multiset_ensures;

    let mut left = entries;
    let mut sorted: Vec<ListedName> = Vec::new();
    proof {
        lemma_join_multiset(left@, sorted@);
    }
    while left.len() > 0
        invariant
            in_order(sorted@),
            left@.to_multiset().add(sorted@.to_multiset()) =~= entries@.to_multiset(),
        decreases left@.len(),
    {
        let ghost left_before = left@;
        let ghost sorted_before = sorted@;
        match left.pop() {
            None => {},
            Some(entry) => {
                let mut place: usize = sorted.len();
                while place > 0 && !is_at_most(
                    sorted[place - 1].name.as_slice(),
                    entry.name.as_slice(),
                )
                    invariant
                        place <= sorted@.len(),
                        sorted@ == sorted_before,
                        in_order(sorted@),
                        forall|k: int|
                            place <= k < sorted@.len() ==> !at_most(
                                (#[trigger] sorted@[k]).name@,
                                entry.name@,
                            ),
                    decreases place,
                {
                    place -= 1;
                }
                proof {
                    lemma_insert_keeps_order(sorted@, place as int, entry);
                    vstd::seq_lib::to_multiset_insert(sorted@, place as int, entry);
                    assert(left_before =~= left@.push(entry));
                    vstd::seq_lib::to_multiset_build(left@, entry);
                }
                sorted.insert(place, entry);
                assert(left@.to_multiset().add(sorted@.to_multiset())
                    =~= left_before.to_multiset().add(sorted_before.to_multiset()));
            },
        }
    }
    proof {
        assert(left@ =~= Seq::<ListedName>::empty());
        lemma_empty_multiset(left@);
        assert(left@.to_multiset().add(sorted@.to_multiset()) =~= sorted@.to_multiset());
    }
    sorted
}

proof fn lemma_empty_multiset(entries: Seq<ListedName>)
    requires
        entries.len() == 0,
    ensures
        entries.to_multiset() =~= vstd::multiset::Multiset::empty(),
{
    broadcast use vstd::seq_lib::group_to_multiset_ensures;

    vstd::seq_lib::to_multiset_len(entries);
}

proof fn lemma_join_multiset(left: Seq<ListedName>, sorted: Seq<ListedName>)
    requires
        sorted.len() == 0,
    ensures
        left.to_multiset().add(sorted.to_multiset()) =~= left.to_multiset(),
{
    lemma_empty_multiset(sorted);
}

proof fn lemma_insert_keeps_order(sorted: Seq<ListedName>, place: int, entry: ListedName)
    requires
        in_order(sorted),
        0 <= place <= sorted.len(),
        place > 0 ==> at_most(sorted[place - 1].name@, entry.name@),
        forall|k: int|
            place <= k < sorted.len() ==> !at_most((#[trigger] sorted[k]).name@, entry.name@),
    ensures
        in_order(sorted.insert(place, entry)),
{
    let longer = sorted.insert(place, entry);
    assert forall|i: int, j: int| 0 <= i <= j < longer.len() implies at_most(
        (#[trigger] longer[i]).name@,
        (#[trigger] longer[j]).name@,
    ) by {
        if i < place && j == place {
            assert(longer[i] == sorted[i]);
            assert(at_most(sorted[i].name@, sorted[place - 1].name@));
            lemma_order_is_transitive(sorted[i].name@, sorted[place - 1].name@, entry.name@);
        } else if i == place && j > place {
            assert(longer[j] == sorted[j - 1]);
            lemma_order_is_total(entry.name@, sorted[j - 1].name@);
        } else if i == place && j == place {
            lemma_order_is_total(entry.name@, entry.name@);
        } else {
            let x = if i < place {
                i
            } else {
                i - 1
            };
            let y = if j < place {
                j
            } else {
                j - 1
            };
            assert(longer[i] == sorted[x] && longer[j] == sorted[y]);
            assert(at_most(sorted[x].name@, sorted[y].name@));
        }
    }
}

/// Whether the names stand in their order.
pub open spec fn names_in_order(names: Seq<Seq<u8>>) -> bool {
    forall|i: int, j: int|
        0 <= i <= j < names.len() ==> at_most(#[trigger] names[i], #[trigger] names[j])
}

proof fn lemma_insert_keeps_names_in_order(sorted: Seq<Seq<u8>>, place: int, name: Seq<u8>)
    requires
        names_in_order(sorted),
        0 <= place <= sorted.len(),
        place > 0 ==> at_most(sorted[place - 1], name),
        forall|k: int| place <= k < sorted.len() ==> !at_most(#[trigger] sorted[k], name),
    ensures
        names_in_order(sorted.insert(place, name)),
{
    let longer = sorted.insert(place, name);
    assert forall|i: int, j: int| 0 <= i <= j < longer.len() implies at_most(
        #[trigger] longer[i],
        #[trigger] longer[j],
    ) by {
        if i < place && j == place {
            assert(at_most(sorted[i], sorted[place - 1]));
            lemma_order_is_transitive(sorted[i], sorted[place - 1], name);
        } else if i == place && j > place {
            assert(longer[j] == sorted[j - 1]);
            lemma_order_is_total(name, sorted[j - 1]);
        } else if i == place && j == place {
            lemma_order_is_total(name, name);
        } else {
            let x = if i < place {
                i
            } else {
                i - 1
            };
            let y = if j < place {
                j
            } else {
                j - 1
            };
            assert(longer[i] == sorted[x] && longer[j] == sorted[y]);
            assert(at_most(sorted[x], sorted[y]));
        }
    }
}

/// The same names, in their order.
pub fn sorted_names(names: Vec<Vec<u8>>) -> (r: Vec<Vec<u8>>)
    ensures
        names_in_order(all_bytes(r@)),
        all_bytes(r@).to_multiset() == all_bytes(names@).to_multiset(),
{
    broadcast use vstd::seq_lib::group_to_multiset_ensures;

    let mut left = names;
    let mut sorted: Vec<Vec<u8>> = Vec::new();
    proof {
        assert(all_bytes(sorted@) =~= Seq::<Seq<u8>>::empty());
        vstd::seq_lib::to_multiset_len(all_bytes(sorted@));
        assert(all_bytes(left@).to_multiset().add(all_bytes(sorted@).to_multiset()) =~= all_bytes(
            left@,
        ).to_multiset());
    }
    while left.len() > 0
        invariant
            names_in_order(all_bytes(sorted@)),
            all_bytes(left@).to_multiset().add(all_bytes(sorted@).to_multiset()) =~= all_bytes(
                names@,
            ).to_multiset(),
        decreases left@.len(),
    {
        let ghost left_before = left@;
        let ghost sorted_before = sorted@;
        match left.pop() {
            None => {},
            Some(name) => {
                let mut place: usize = sorted.len();
                while place > 0 && !is_at_most(sorted[place - 1].as_slice(), name.as_slice())
                    invariant
                        place <= sorted@.len(),
                        sorted@ == sorted_before,
                        forall|k: int|
                            place <= k < sorted@.len() ==> !at_most(
                                #[trigger] all_bytes(sorted@)[k],
                                name@,
                            ),
                    decreases place,
                {
                    place -= 1;
                }
                let ghost bytes = all_bytes(sorted@);
                proof {
                    assert(place > 0 ==> at_most(bytes[place - 1], name@));
                    lemma_insert_keeps_names_in_order(bytes, place as int, name@);
                    vstd::seq_lib::to_multiset_insert(bytes, place as int, name@);
                    assert(all_bytes(left_before) =~= all_bytes(left@).push(name@));
                    vstd::seq_lib::to_multiset_build(all_bytes(left@), name@);
                }
                sorted.insert(place, name);
                proof {
                    assert(all_bytes(sorted@) =~= bytes.insert(place as int, name@));
                    assert(all_bytes(left@).to_multiset().add(all_bytes(sorted@).to_multiset())
                        =~= all_bytes(left_before).to_multiset().add(bytes.to_multiset()));
                }
            },
        }
    }
    proof {
        assert(all_bytes(left@) =~= Seq::<Seq<u8>>::empty());
        vstd::seq_lib::to_multiset_len(all_bytes(left@));
        assert(all_bytes(left@).to_multiset().add(all_bytes(sorted@).to_multiset()) =~= all_bytes(
            sorted@,
        ).to_multiset());
    }
    sorted
}

/// What cleaning up does with one entry.
#[derive(Clone, Copy, Debug, PartialEq, Eq, Structural)]
pub enum Disposal {
    /// Leave it alone.
    Keep,
    /// Judge and remove the stage or generation with its members.
    RemoveGeneration,
    /// Judge and remove the file.
    RemoveFile,
    /// Stop: the name is no text.
    Refuse,
}

/// Whether a reservation carries the token.
pub open spec fn is_reserved(tokens: Seq<Seq<u8>>, token: Seq<u8>) -> bool {
    exists|i: int| 0 <= i < tokens.len() && #[trigger] tokens[i] == token
}

/// What cleaning up does with an entry: it removes stages and generations that
/// are neither active nor reserved, and temporary markers.
pub open spec fn disposal_of(
    entry: ListedName,
    active: Option<Seq<u8>>,
    tokens: Seq<Seq<u8>>,
) -> Disposal {
    let name = entry.name@;
    if !entry.is_text {
        Disposal::Refuse
    } else if name == active_marker() || active == Some(name) {
        Disposal::Keep
    } else if names_stage(name) {
        if is_reserved(tokens, rest_after(name, 7)) {
            Disposal::Keep
        } else {
            Disposal::RemoveGeneration
        }
    } else if names_generation(name) {
        if is_reserved(tokens, rest_after(name, 5)) {
            Disposal::Keep
        } else {
            Disposal::RemoveGeneration
        }
    } else if names_temporary(name) {
        Disposal::RemoveFile
    } else {
        Disposal::Keep
    }
}

fn contains_token(tokens: &Vec<Vec<u8>>, token: &[u8]) -> (r: bool)
    ensures
        r == is_reserved(all_bytes(tokens@), token@),
{
    let mut i: usize = 0;
    while i < tokens.len()
        invariant
            i <= tokens@.len(),
            forall|j: int| 0 <= j < i ==> (#[trigger] all_bytes(tokens@)[j]) != token@,
        decreases tokens@.len() - i,
    {
        if same_bytes(tokens[i].as_slice(), token) {
            assert(all_bytes(tokens@)[i as int] == token@);
            return true;
        }
        i += 1;
    }
    assert(all_bytes(tokens@).len() == tokens@.len());
    false
}

/// The name's bytes, if there is a name.
pub open spec fn name_of(name: Option<Vec<u8>>) -> Option<Seq<u8>> {
    match name {
        Some(name) => Some(name@),
        None => None,
    }
}

/// What cleaning up does with an entry.
pub fn dispose(entry: &ListedName, active: &Option<Vec<u8>>, tokens: &Vec<Vec<u8>>) -> (r: Disposal)
    ensures
        r == disposal_of(*entry, name_of(*active), all_bytes(tokens@)),
{
    if !entry.is_text {
        return Disposal::Refuse;
    }
    let name = entry.name.as_slice();
    if same_bytes(name, active_marker_bytes().as_slice()) {
        return Disposal::Keep;
    }
    if let Some(selected) = active {
        if same_bytes(name, selected.as_slice()) {
            return Disposal::Keep;
        }
    }
    if is_stage_name(name) {
        if contains_token(tokens, tail(name, 7)) {
            return Disposal::Keep;
        }
        return Disposal::RemoveGeneration;
    }
    if is_generation_name(name) {
        if contains_token(tokens, tail(name, 5)) {
            return Disposal::Keep;
        }
        return Disposal::RemoveGeneration;
    }
    if is_marker_temporary_name(name) {
        return Disposal::RemoveFile;
    }
    Disposal::Keep
}

/// Cleaning up removes neither the active marker, nor the active generation, nor
/// anything that a reservation names, nor anything but stages, generations and
/// temporary markers.
pub proof fn law_cleaning_spares_active_and_reserved(
    entry: ListedName,
    active: Option<Seq<u8>>,
    tokens: Seq<Seq<u8>>,
    token: Seq<u8>,
)
    requires
        disposal_of(entry, active, tokens) is RemoveGeneration || disposal_of(
            entry,
            active,
            tokens,
        ) is RemoveFile,
    ensures
        entry.name@ != active_marker(),
        active != Some(entry.name@),
        names_stage(entry.name@) || names_generation(entry.name@) || names_temporary(entry.name@),
        is_reserved(tokens, token) ==> entry.name@ != generation_of(token) && entry.name@
            != crate::catacomb_names::stage_of(token),
{
    if entry.name@ == generation_of(token) {
        assert(entry.name@[0] == 112u8);
        assert(rest_after(entry.name@, 5) =~= token);
        if names_temporary(entry.name@) {
            assert(entry.name@.subrange(0, 8)[0] == entry.name@[0]);
        }
        if names_stage(entry.name@) {
            assert(entry.name@.subrange(0, 7)[0] == entry.name@[0]);
        }
    }
    if entry.name@ == crate::catacomb_names::stage_of(token) {
        assert(entry.name@[1] == 115u8);
        assert(rest_after(entry.name@, 7) =~= token);
        if names_temporary(entry.name@) {
            assert(entry.name@.subrange(0, 8)[1] == entry.name@[1]);
        }
        if names_generation(entry.name@) {
            assert(entry.name@.subrange(0, 5)[0] == entry.name@[0]);
        }
    }
}

/// The next work of cleaning a store up.
pub enum CleaningStep {
    /// Open and judge the store's directory.
    OpenStore(PendingCleaning),
    /// Synchronize the store's directory.
    SyncStore(OpenedCleaning),
    /// Read the active marker and report with [`PendingActive::read`].
    ReadActive(PendingActive),
    /// Load the active generation completely.
    LoadActive(LoadedCleaning),
    /// List the directory and report with [`ListingCleaning::listed`].
    ListEntries(ListingCleaning),
    /// Collect the reservations' tokens and report with
    /// [`ListedCleaning::reserved`].
    ReadTokens(ListedCleaning),
    /// Remove [`RemovingCleaning::target`] as [`RemovingCleaning::disposal`] says.
    Remove(RemovingCleaning),
    /// Synchronize the store's directory and report with
    /// [`FinalSync::synchronized`].
    SyncEnd(FinalSync),
    /// Cleaning up has ended.
    End(Result<(), CatacombStoreError>),
}

/// Cleaning up that waits for the store's directory.
pub struct PendingCleaning {
    begun: (),
}

/// Cleaning up that waits for the directory's synchronization.
pub struct OpenedCleaning {
    begun: (),
}

/// Cleaning up that waits for the active marker.
pub struct PendingActive {
    begun: (),
}

/// Cleaning up that waits for the active generation to be loaded.
pub struct LoadedCleaning {
    active: Vec<u8>,
}

/// Cleaning up that waits for the directory's entries.
pub struct ListingCleaning {
    active: Option<Vec<u8>>,
}

/// Cleaning up that waits for the reservations.
pub struct ListedCleaning {
    active: Option<Vec<u8>>,
    entries: Vec<ListedName>,
}

/// Cleaning up that waits for a removal.
pub struct RemovingCleaning {
    active: Option<Vec<u8>>,
    entries: Vec<ListedName>,
    tokens: Vec<Vec<u8>>,
    place: usize,
}

/// Cleaning up that waits for the last synchronization.
pub struct FinalSync {
    begun: (),
}

impl CatacombPairStore {
    /// Begins to remove abandoned staging artifacts.
    pub fn recover(&self) -> (r: CleaningStep)
        ensures
            r is OpenStore,
    {
        CleaningStep::OpenStore(PendingCleaning { begun: () })
    }

    /// Begins to resolve at most one complete ambiguous generation of this store.
    /// There is no candidate yet; whichever it turns out to be is read within the
    /// store's limits. Every error retains the recovery reservation.
    pub fn recover_with_validator<E>(&self) -> (r: RecoveryStep<E>)
        ensures
            r is Work,
            r->Work_0.task() == RecoveryWork::OpenStore,
            r->Work_0.candidate() == Seq::<u8>::empty(),
            r->Work_0.bounds() == self.bounds(),
    {
        let token: Vec<u8> = Vec::new();
        assert(token@ =~= Seq::<u8>::empty());
        RecoveryStep::Work(
            PendingRecovery { work: RecoveryWork::OpenStore, token, limits: self.limits() },
        )
    }
}

impl PendingCleaning {
    /// Takes the judged store directory.
    pub fn opened(self, outcome: Result<(), CatacombStoreError>) -> (r: CleaningStep)
        ensures
            match outcome {
                Ok(()) => r is SyncStore,
                Err(error) => r == CleaningStep::End(Err(error)),
            },
    {
        match outcome {
            Ok(()) => CleaningStep::SyncStore(OpenedCleaning { begun: () }),
            Err(error) => CleaningStep::End(Err(error)),
        }
    }
}

impl OpenedCleaning {
    /// Takes whether the directory was synchronized.
    pub fn synchronized(self, succeeded: bool) -> (r: CleaningStep)
        ensures
            if succeeded {
                r is ReadActive
            } else {
                r == CleaningStep::End(Err(CatacombStoreError::StorageUnavailable))
            },
    {
        if succeeded {
            CleaningStep::ReadActive(PendingActive { begun: () })
        } else {
            CleaningStep::End(Err(CatacombStoreError::StorageUnavailable))
        }
    }
}

impl PendingActive {
    /// Takes the generation that the marker selects. An older complete generation
    /// is never discarded on the authority of a marker whose own pair does not
    /// load, so that pair is loaded next.
    pub fn read(self, outcome: Result<Vec<u8>, CatacombStoreError>) -> (r: CleaningStep)
        ensures
            match outcome {
                Ok(active) => r is LoadActive && r->LoadActive_0.selected() == active@,
                Err(CatacombStoreError::MissingPair) => r is ListEntries
                    && r->ListEntries_0.selected() is None,
                Err(error) => r == CleaningStep::End(Err(error)),
            },
    {
        match outcome {
            Ok(active) => CleaningStep::LoadActive(LoadedCleaning { active }),
            Err(CatacombStoreError::MissingPair) => CleaningStep::ListEntries(
                ListingCleaning { active: None },
            ),
            Err(error) => CleaningStep::End(Err(error)),
        }
    }
}

impl LoadedCleaning {
    /// The active generation.
    pub closed spec fn selected(self) -> Seq<u8> {
        self.active@
    }

    /// Takes whether the active generation loads.
    pub fn loaded(self, outcome: Result<(), CatacombStoreError>) -> (r: CleaningStep)
        ensures
            match outcome {
                Ok(()) => r is ListEntries && r->ListEntries_0.selected() == Some(self.selected()),
                Err(error) => r == CleaningStep::End(Err(error)),
            },
    {
        match outcome {
            Ok(()) => CleaningStep::ListEntries(ListingCleaning { active: Some(self.active) }),
            Err(error) => CleaningStep::End(Err(error)),
        }
    }
}

impl ListingCleaning {
    /// The active generation, if there is one.
    pub closed spec fn selected(self) -> Option<Seq<u8>> {
        name_of(self.active)
    }

    /// Takes the directory's entries, or that they could not be listed.
    pub fn listed(self, entries: Option<Vec<ListedName>>) -> (r: CleaningStep)
        ensures
            match entries {
                Some(entries) => r is ReadTokens && r->ReadTokens_0.selected() == self.selected()
                    && in_order(r->ReadTokens_0.listing())
                    && r->ReadTokens_0.listing().to_multiset() == entries@.to_multiset(),
                None => r == CleaningStep::End(Err(CatacombStoreError::StorageUnavailable)),
            },
    {
        match entries {
            Some(entries) => CleaningStep::ReadTokens(
                ListedCleaning { active: self.active, entries: sorted_by_name(entries) },
            ),
            None => CleaningStep::End(Err(CatacombStoreError::StorageUnavailable)),
        }
    }
}

/// The first entry at or after `place` that is not kept, and what is done with
/// it; nothing where all are kept.
pub open spec fn next_disposal(
    entries: Seq<ListedName>,
    active: Option<Seq<u8>>,
    tokens: Seq<Seq<u8>>,
    place: int,
) -> Option<(int, Disposal)>
    decreases entries.len() - place,
{
    if place < 0 || place >= entries.len() {
        None
    } else if disposal_of(entries[place], active, tokens) is Keep {
        next_disposal(entries, active, tokens, place + 1)
    } else {
        Some((place, disposal_of(entries[place], active, tokens)))
    }
}

/// What follows the entries before `place`.
pub open spec fn cleaning_goes_on(
    entries: Seq<ListedName>,
    active: Option<Seq<u8>>,
    tokens: Seq<Seq<u8>>,
    place: int,
    r: CleaningStep,
) -> bool {
    match next_disposal(entries, active, tokens, place) {
        None => r is SyncEnd,
        Some((_, Disposal::Refuse)) => r == CleaningStep::End(
            Err(CatacombStoreError::UnsafeStorage),
        ),
        Some((at, _)) => r is Remove && r->Remove_0.at() == at && r->Remove_0.listing() == entries
            && r->Remove_0.selected() == active && r->Remove_0.reserved() == tokens,
    }
}

fn go_on(
    active: Option<Vec<u8>>,
    entries: Vec<ListedName>,
    tokens: Vec<Vec<u8>>,
    from: usize,
) -> (r: CleaningStep)
    requires
        from <= entries@.len(),
    ensures
        cleaning_goes_on(entries@, name_of(active), all_bytes(tokens@), from as int, r),
{
    let mut place: usize = from;
    while place < entries.len()
        invariant
            from <= place <= entries@.len(),
            next_disposal(entries@, name_of(active), all_bytes(tokens@), from as int)
                == next_disposal(entries@, name_of(active), all_bytes(tokens@), place as int),
        decreases entries@.len() - place,
    {
        match dispose(&entries[place], &active, &tokens) {
            Disposal::Keep => {},
            Disposal::Refuse => {
                return CleaningStep::End(Err(CatacombStoreError::UnsafeStorage));
            },
            Disposal::RemoveGeneration | Disposal::RemoveFile => {
                return CleaningStep::Remove(RemovingCleaning { active, entries, tokens, place });
            },
        }
        place += 1;
    }
    CleaningStep::SyncEnd(FinalSync { begun: () })
}

impl ListedCleaning {
    /// The active generation, if there is one.
    pub closed spec fn selected(self) -> Option<Seq<u8>> {
        name_of(self.active)
    }

    /// The directory's entries in the order of their names.
    pub closed spec fn listing(self) -> Seq<ListedName> {
        self.entries@
    }

    /// Takes the reservations' tokens.
    pub fn reserved(self, tokens: Result<Vec<Vec<u8>>, CatacombStoreError>) -> (r: CleaningStep)
        ensures
            match tokens {
                Ok(tokens) => cleaning_goes_on(
                    self.listing(),
                    self.selected(),
                    all_bytes(tokens@),
                    0,
                    r,
                ),
                Err(error) => r == CleaningStep::End(Err(error)),
            },
    {
        match tokens {
            Ok(tokens) => go_on(self.active, self.entries, tokens, 0),
            Err(error) => CleaningStep::End(Err(error)),
        }
    }
}

impl RemovingCleaning {
    /// The active generation, if there is one.
    pub closed spec fn selected(self) -> Option<Seq<u8>> {
        name_of(self.active)
    }

    /// The directory's entries in the order of their names.
    pub closed spec fn listing(self) -> Seq<ListedName> {
        self.entries@
    }

    /// The reservations' tokens.
    pub closed spec fn reserved(self) -> Seq<Seq<u8>> {
        all_bytes(self.tokens@)
    }

    /// The place of the entry to remove.
    pub closed spec fn at(self) -> int {
        self.place as int
    }

    /// The place is one of an entry.
    #[verifier::type_invariant]
    spec fn is_valid(self) -> bool {
        self.place < self.entries@.len()
    }

    /// The name of what is to be removed.
    pub fn target(&self) -> (r: &[u8])
        ensures
            r@ == self.listing()[self.at()].name@,
    {
        proof {
            use_type_invariant(self);
        }
        self.entries[self.place].name.as_slice()
    }

    /// How it is to be removed.
    pub fn disposal(&self) -> (r: Disposal)
        ensures
            r == disposal_of(self.listing()[self.at()], self.selected(), self.reserved()),
    {
        proof {
            use_type_invariant(self);
        }
        dispose(&self.entries[self.place], &self.active, &self.tokens)
    }

    /// Takes the outcome of the removal; a failure ends cleaning up.
    pub fn removed(self, outcome: Result<(), CatacombStoreError>) -> (r: CleaningStep)
        ensures
            match outcome {
                Ok(()) => cleaning_goes_on(
                    self.listing(),
                    self.selected(),
                    self.reserved(),
                    self.at() + 1,
                    r,
                ),
                Err(error) => r == CleaningStep::End(Err(error)),
            },
    {
        proof {
            use_type_invariant(&self);
        }
        if let Err(error) = outcome {
            return CleaningStep::End(Err(error));
        }
        let count: usize = self.entries.len();
        assert(self.place < count);
        go_on(self.active, self.entries, self.tokens, self.place + 1)
    }
}

impl FinalSync {
    /// Takes whether the directory was synchronized.
    pub fn synchronized(self, succeeded: bool) -> (r: Result<(), CatacombStoreError>)
        ensures
            r == if succeeded {
                Ok::<(), CatacombStoreError>(())
            } else {
                Err(CatacombStoreError::StorageUnavailable)
            },
    {
        if succeeded {
            Ok(())
        } else {
            Err(CatacombStoreError::StorageUnavailable)
        }
    }
}

/// Result of inspecting reserved, ambiguous export state.
#[derive(Clone, Copy, Debug, PartialEq, Eq, Structural)]
pub enum CatacombRecoveryOutcome {
    /// No reserved export needs a device decision.
    Clean,
    /// The live device accepted and the store promoted one complete candidate.
    Promoted,
    /// State was incomplete, conflicting, unsafe, or rejected by the device.
    Quarantined,
}

/// Recovery failure with validator diagnostics kept opaque.
#[derive(PartialEq, Eq)]
pub enum CatacombRecoveryError<E> {
    Store(CatacombStoreError),
    Validator(E),
}

impl<E> CatacombRecoveryError<E> {
    /// The message, as text.
    pub open spec fn text(self) -> Seq<char> {
        match self {
            CatacombRecoveryError::Store(error) => error.text(),
            CatacombRecoveryError::Validator(_) => "live catacomb validation failed"@,
        }
    }

    /// A fixed message that shows nothing of the validator's failure.
    pub fn message(&self) -> (message: &'static str)
        ensures
            message@ == self.text(),
    {
        match self {
            CatacombRecoveryError::Store(error) => error.message(),
            CatacombRecoveryError::Validator(_) => "live catacomb validation failed",
        }
    }
}

/// One piece of storage work of a recovery.
#[derive(Clone, Copy, Debug, PartialEq, Eq, Structural)]
pub enum RecoveryWork {
    /// Open and judge the store's directory.
    OpenStore,
    /// Synchronize it.
    SyncStore,
    /// The pair is accepted: remove the stale temporary marker.
    RemoveTemporary,
    /// Write the temporary marker.
    WriteMarker,
    /// Replace the active marker with it.
    ReplaceMarker,
    /// The replacement failed: remove the temporary marker, whatever comes of it.
    DiscardTemporary,
    /// Synchronize the store's directory after the replacement.
    SyncPromotion,
    /// Remove the reservation.
    RemoveReservation,
    /// Synchronize the store's directory after it.
    SyncRemoval,
}

/// The next work of a recovery.
pub enum RecoveryStep<E> {
    /// Do it and report with [`PendingRecovery::done`].
    Work(PendingRecovery),
    /// Collect the reservations' tokens and report with [`ReservedRecovery::read`].
    ReadTokens(ReservedRecovery),
    /// See whether the candidate's stage and generation exist and report with
    /// [`ProbedRecovery::probed`].
    Probe(ProbedRecovery),
    /// Read the candidate completely and report with [`CandidateRecovery::read`].
    ReadPair(CandidateRecovery),
    /// Let the live device judge the candidate and report with
    /// [`JudgedRecovery::judged`].
    Validate(JudgedRecovery),
    /// Read the active marker and report with [`AcceptedRecovery::active`].
    ReadActive(AcceptedRecovery),
    /// The recovery has ended.
    End(Result<CatacombRecoveryOutcome, CatacombRecoveryError<E>>),
}

/// A recovery with storage work under way, and its candidate's token once there
/// is one.
pub struct PendingRecovery {
    work: RecoveryWork,
    token: Vec<u8>,
    limits: StoreLimits,
}

/// A recovery that waits for the reservations.
pub struct ReservedRecovery {
    limits: StoreLimits,
}

/// A recovery with one reservation.
pub struct ProbedRecovery {
    token: Vec<u8>,
    limits: StoreLimits,
}

/// A recovery whose candidate's generation exists, and no stage of it.
pub struct CandidateRecovery {
    token: Vec<u8>,
    limits: StoreLimits,
}

/// A recovery whose candidate is complete.
pub struct JudgedRecovery {
    token: Vec<u8>,
    pair: CatacombPair,
    limits: StoreLimits,
}

/// A recovery whose candidate the live device has accepted.
pub struct AcceptedRecovery {
    token: Vec<u8>,
    limits: StoreLimits,
}

impl PendingRecovery {
    /// The limits of the store that is recovered.
    pub closed spec fn bounds(self) -> StoreLimits {
        self.limits
    }

    /// The work under way.
    pub closed spec fn task(self) -> RecoveryWork {
        self.work
    }

    /// The candidate's token.
    pub closed spec fn candidate(self) -> Seq<u8> {
        self.token@
    }

    /// The work under way.
    pub fn work(&self) -> (r: RecoveryWork)
        ensures
            r == self.task(),
    {
        self.work
    }

    /// The candidate's token.
    pub fn token(&self) -> (r: &[u8])
        ensures
            r@ == self.candidate(),
    {
        self.token.as_slice()
    }

    /// What the work writes: only the temporary marker has content, and it names the
    /// candidate's generation.
    pub open spec fn written(self) -> Seq<u8> {
        if self.task() == RecoveryWork::WriteMarker {
            marker_content(generation_of(self.candidate()))
        } else {
            Seq::empty()
        }
    }

    /// What the work writes.
    pub fn content(&self) -> (r: Vec<u8>)
        ensures
            r@ == self.written(),
    {
        if let RecoveryWork::WriteMarker = self.work {
            encode_marker(generation_name(self.token.as_slice()).as_slice())
        } else {
            let nothing: Vec<u8> = Vec::new();
            assert(nothing@ =~= Seq::<u8>::empty());
            nothing
        }
    }

    /// What follows the work on `outcome`. Once the reservation is removed the
    /// candidate is promoted: a removal that is not synchronized can only be undone,
    /// and then the reservation names the generation that is active already.
    pub open spec fn ends<E>(
        self,
        outcome: Result<(), CatacombStoreError>,
        r: RecoveryStep<E>,
    ) -> bool {
        match self.task() {
            RecoveryWork::OpenStore => match outcome {
                Ok(()) => r is Work && r->Work_0.task() == RecoveryWork::SyncStore
                    && r->Work_0.bounds() == self.bounds(),
                Err(CatacombStoreError::MissingPair) => r == RecoveryStep::<E>::End(
                    Ok(CatacombRecoveryOutcome::Clean),
                ),
                Err(error) => r == RecoveryStep::<E>::End(
                    Err(CatacombRecoveryError::Store(error)),
                ),
            },
            RecoveryWork::SyncStore => match outcome {
                Ok(()) => r is ReadTokens && r->ReadTokens_0.bounds() == self.bounds(),
                Err(_) => r == failed_recovery::<E>(CatacombStoreError::StorageUnavailable),
            },
            RecoveryWork::RemoveTemporary => match outcome {
                Ok(()) => self.goes_on(RecoveryWork::WriteMarker, r),
                Err(error) => r == failed_recovery::<E>(error),
            },
            RecoveryWork::WriteMarker => match outcome {
                Ok(()) => self.goes_on(RecoveryWork::ReplaceMarker, r),
                Err(error) => r == failed_recovery::<E>(error),
            },
            RecoveryWork::ReplaceMarker => match outcome {
                Ok(()) => self.goes_on(RecoveryWork::SyncPromotion, r),
                Err(_) => self.goes_on(RecoveryWork::DiscardTemporary, r),
            },
            RecoveryWork::DiscardTemporary => r == failed_recovery::<E>(
                CatacombStoreError::StorageUnavailable,
            ),
            RecoveryWork::SyncPromotion => match outcome {
                Ok(()) => self.goes_on(RecoveryWork::RemoveReservation, r),
                Err(_) => r == failed_recovery::<E>(CatacombStoreError::PromotionDurabilityUnknown),
            },
            RecoveryWork::RemoveReservation => match outcome {
                Ok(()) => self.goes_on(RecoveryWork::SyncRemoval, r),
                Err(error) => r == failed_recovery::<E>(error),
            },
            RecoveryWork::SyncRemoval => r == RecoveryStep::<E>::End(
                Ok(CatacombRecoveryOutcome::Promoted),
            ),
        }
    }

    /// The same candidate with other work.
    pub open spec fn goes_on<E>(self, work: RecoveryWork, r: RecoveryStep<E>) -> bool {
        r is Work && r->Work_0.task() == work && r->Work_0.candidate() == self.candidate()
            && r->Work_0.bounds() == self.bounds()
    }

    /// Takes the outcome of the work.
    pub fn done<E>(self, outcome: Result<(), CatacombStoreError>) -> (r: RecoveryStep<E>)
        ensures
            self.ends(outcome, r),
            recovery_follows(RecoveryStep::Work(self), RecoveryAnswer::Done(outcome), r),
    {
        let token = self.token;
        let limits = self.limits;
        let next = match self.work {
            RecoveryWork::OpenStore => match outcome {
                Ok(()) => RecoveryWork::SyncStore,
                Err(CatacombStoreError::MissingPair) => {
                    return RecoveryStep::End(Ok(CatacombRecoveryOutcome::Clean));
                },
                Err(error) => {
                    return fail(error);
                },
            },
            RecoveryWork::SyncStore => match outcome {
                Ok(()) => {
                    return RecoveryStep::ReadTokens(ReservedRecovery { limits });
                },
                Err(_) => {
                    return fail(CatacombStoreError::StorageUnavailable);
                },
            },
            RecoveryWork::RemoveTemporary => match outcome {
                Ok(()) => RecoveryWork::WriteMarker,
                Err(error) => {
                    return fail(error);
                },
            },
            RecoveryWork::WriteMarker => match outcome {
                Ok(()) => RecoveryWork::ReplaceMarker,
                Err(error) => {
                    return fail(error);
                },
            },
            RecoveryWork::ReplaceMarker => match outcome {
                Ok(()) => RecoveryWork::SyncPromotion,
                Err(_) => RecoveryWork::DiscardTemporary,
            },
            RecoveryWork::DiscardTemporary => {
                return fail(CatacombStoreError::StorageUnavailable);
            },
            RecoveryWork::SyncPromotion => match outcome {
                Ok(()) => RecoveryWork::RemoveReservation,
                Err(_) => {
                    return fail(CatacombStoreError::PromotionDurabilityUnknown);
                },
            },
            RecoveryWork::RemoveReservation => match outcome {
                Ok(()) => RecoveryWork::SyncRemoval,
                Err(error) => {
                    return fail(error);
                },
            },
            RecoveryWork::SyncRemoval => {
                return RecoveryStep::End(Ok(CatacombRecoveryOutcome::Promoted));
            },
        };
        RecoveryStep::Work(PendingRecovery { work: next, token, limits })
    }
}

/// A recovery that ended with a storage failure.
pub open spec fn failed_recovery<E>(error: CatacombStoreError) -> RecoveryStep<E> {
    RecoveryStep::End(Err(CatacombRecoveryError::Store(error)))
}

/// A recovery that left everything untouched.
pub open spec fn quarantined<E>() -> RecoveryStep<E> {
    RecoveryStep::End(Ok(CatacombRecoveryOutcome::Quarantined))
}

fn fail<E>(error: CatacombStoreError) -> (r: RecoveryStep<E>)
    ensures
        r == failed_recovery::<E>(error),
{
    RecoveryStep::End(Err(CatacombRecoveryError::Store(error)))
}

fn quarantine<E>() -> (r: RecoveryStep<E>)
    ensures
        r == quarantined::<E>(),
{
    RecoveryStep::End(Ok(CatacombRecoveryOutcome::Quarantined))
}

impl ReservedRecovery {
    /// The limits of the store that is recovered.
    pub closed spec fn bounds(self) -> StoreLimits {
        self.limits
    }

    /// Takes the reservations' tokens: none is clean, more than one or an unsafe
    /// one is quarantined.
    pub fn read<E>(self, tokens: Result<Vec<Vec<u8>>, CatacombStoreError>) -> (r: RecoveryStep<E>)
        ensures
            match tokens {
                Ok(tokens) => if tokens@.len() == 0 {
                    r == RecoveryStep::<E>::End(Ok(CatacombRecoveryOutcome::Clean))
                } else if tokens@.len() == 1 {
                    r is Probe && r->Probe_0.candidate() == tokens@[0]@ && r->Probe_0.bounds()
                        == self.bounds()
                } else {
                    r == quarantined::<E>()
                },
                Err(error) => if error == CatacombStoreError::UnsafeStorage || error
                    == CatacombStoreError::IncompletePair {
                    r == quarantined::<E>()
                } else {
                    r == failed_recovery::<E>(error)
                },
            },
            recovery_follows(RecoveryStep::ReadTokens(self), RecoveryAnswer::Tokens(tokens), r),
    {
        match tokens {
            Ok(mut tokens) => {
                if tokens.len() == 0 {
                    return RecoveryStep::End(Ok(CatacombRecoveryOutcome::Clean));
                }
                if tokens.len() != 1 {
                    return quarantine();
                }
                let token = tokens.remove(0);
                RecoveryStep::Probe(ProbedRecovery { token, limits: self.limits })
            },
            Err(error) => {
                if error == CatacombStoreError::UnsafeStorage || error
                    == CatacombStoreError::IncompletePair {
                    quarantine()
                } else {
                    fail(error)
                }
            },
        }
    }
}

impl ProbedRecovery {
    /// The limits of the store that is recovered.
    pub closed spec fn bounds(self) -> StoreLimits {
        self.limits
    }

    /// The candidate's token.
    pub closed spec fn candidate(self) -> Seq<u8> {
        self.token@
    }

    /// The candidate's token.
    pub fn token(&self) -> (r: &[u8])
        ensures
            r@ == self.candidate(),
    {
        self.token.as_slice()
    }

    /// Takes whether the stage and the generation exist: only a generation
    /// without a stage is a candidate.
    pub fn probed<E>(self, stage_exists: bool, generation_exists: bool) -> (r: RecoveryStep<E>)
        ensures
            if stage_exists || !generation_exists {
                r == quarantined::<E>()
            } else {
                r is ReadPair && r->ReadPair_0.candidate() == self.candidate()
                    && r->ReadPair_0.bounds() == self.bounds()
            },
            recovery_follows(
                RecoveryStep::Probe(self),
                RecoveryAnswer::Probed { stage_exists, generation_exists },
                r,
            ),
    {
        if stage_exists || !generation_exists {
            return quarantine();
        }
        RecoveryStep::ReadPair(CandidateRecovery { token: self.token, limits: self.limits })
    }
}

impl CandidateRecovery {
    /// The limits of the store that is recovered.
    pub closed spec fn bounds(self) -> StoreLimits {
        self.limits
    }

    /// The reading of the candidate's generation, within the store's limits.
    pub fn reading(&self) -> (r: PairReading)
        ensures
            r@ == ReadingModel::begun(generation_of(self.candidate()), self.bounds()),
    {
        PairReading::begin(generation_name(self.token.as_slice()), self.limits)
    }

    /// The candidate's token.
    pub closed spec fn candidate(self) -> Seq<u8> {
        self.token@
    }

    /// The candidate's token.
    pub fn token(&self) -> (r: &[u8])
        ensures
            r@ == self.candidate(),
    {
        self.token.as_slice()
    }

    /// Takes the candidate's pair: one that is incomplete, invalid or unsafe is
    /// quarantined.
    pub fn read<E>(self, pair: Result<CatacombPair, CatacombStoreError>) -> (r: RecoveryStep<E>)
        ensures
            match pair {
                Ok(pair) => r is Validate && r->Validate_0.candidate() == self.candidate()
                    && r->Validate_0.judged_pair() == pair@ && r->Validate_0.bounds()
                    == self.bounds(),
                Err(CatacombStoreError::IncompletePair)
                | Err(CatacombStoreError::InvalidBlob)
                | Err(CatacombStoreError::InvalidMetadata)
                | Err(CatacombStoreError::UnsafeStorage) => r == quarantined::<E>(),
                Err(error) => r == failed_recovery::<E>(error),
            },
            recovery_follows(RecoveryStep::ReadPair(self), RecoveryAnswer::Pair(pair), r),
    {
        match pair {
            Ok(pair) => RecoveryStep::Validate(
                JudgedRecovery { token: self.token, pair, limits: self.limits },
            ),
            Err(CatacombStoreError::IncompletePair) => quarantine(),
            Err(CatacombStoreError::InvalidBlob) => quarantine(),
            Err(CatacombStoreError::InvalidMetadata) => quarantine(),
            Err(CatacombStoreError::UnsafeStorage) => quarantine(),
            Err(error) => fail(error),
        }
    }
}

impl JudgedRecovery {
    /// The limits of the store that is recovered.
    pub closed spec fn bounds(self) -> StoreLimits {
        self.limits
    }

    /// The candidate's token.
    pub closed spec fn candidate(self) -> Seq<u8> {
        self.token@
    }

    /// The candidate's pair.
    pub closed spec fn judged_pair(self) -> PairModel {
        self.pair@
    }

    /// The pair that the live device has to judge.
    pub fn pair(&self) -> (r: &CatacombPair)
        ensures
            r@ == self.judged_pair(),
    {
        &self.pair
    }

    /// Takes what the live device decided: rejection leaves every object untouched,
    /// and a decision that could not be had is the caller's failure.
    pub fn judged<E>(self, verdict: Result<bool, E>) -> (r: RecoveryStep<E>)
        ensures
            match verdict {
                Ok(accepted) => if accepted {
                    r is ReadActive && r->ReadActive_0.candidate() == self.candidate()
                        && r->ReadActive_0.bounds() == self.bounds()
                } else {
                    r == quarantined::<E>()
                },
                Err(error) => r == RecoveryStep::End(Err(CatacombRecoveryError::Validator(error))),
            },
            recovery_follows(RecoveryStep::Validate(self), RecoveryAnswer::Verdict(verdict), r),
    {
        let mut pair = self.pair;
        pair.wipe();
        match verdict {
            Ok(accepted) => if accepted {
                RecoveryStep::ReadActive(
                    AcceptedRecovery { token: self.token, limits: self.limits },
                )
            } else {
                quarantine()
            },
            Err(error) => RecoveryStep::End(Err(CatacombRecoveryError::Validator(error))),
        }
    }
}

impl AcceptedRecovery {
    /// The limits of the store that is recovered.
    pub closed spec fn bounds(self) -> StoreLimits {
        self.limits
    }

    /// The candidate's token.
    pub closed spec fn candidate(self) -> Seq<u8> {
        self.token@
    }

    /// Takes the generation that the active marker selects. Where that is the
    /// candidate already, only the reservation is left to remove.
    pub fn active<E>(self, active: Result<Vec<u8>, CatacombStoreError>) -> (r: RecoveryStep<E>)
        ensures
            match active {
                Ok(name) => r is Work && r->Work_0.candidate() == self.candidate()
                    && r->Work_0.bounds() == self.bounds() && r->Work_0.task() == if name@
                    == generation_of(self.candidate()) {
                    RecoveryWork::RemoveReservation
                } else {
                    RecoveryWork::RemoveTemporary
                },
                Err(CatacombStoreError::MissingPair) => r is Work && r->Work_0.candidate()
                    == self.candidate() && r->Work_0.bounds() == self.bounds()
                    && r->Work_0.task() == RecoveryWork::RemoveTemporary,
                Err(error) => r == failed_recovery::<E>(error),
            },
            recovery_follows(RecoveryStep::ReadActive(self), RecoveryAnswer::Active(active), r),
    {
        match active {
            Ok(name) => {
                let candidate = generation_name(self.token.as_slice());
                let work = if same_bytes(name.as_slice(), candidate.as_slice()) {
                    RecoveryWork::RemoveReservation
                } else {
                    RecoveryWork::RemoveTemporary
                };
                RecoveryStep::Work(
                    PendingRecovery { work, token: self.token, limits: self.limits },
                )
            },
            Err(CatacombStoreError::MissingPair) => RecoveryStep::Work(
                PendingRecovery {
                    work: RecoveryWork::RemoveTemporary,
                    token: self.token,
                    limits: self.limits,
                },
            ),
            Err(error) => fail(error),
        }
    }
}

/// One answer to the work that a recovery asks for.
pub enum RecoveryAnswer<E> {
    Done(Result<(), CatacombStoreError>),
    Tokens(Result<Vec<Vec<u8>>, CatacombStoreError>),
    Probed { stage_exists: bool, generation_exists: bool },
    Pair(Result<CatacombPair, CatacombStoreError>),
    Verdict(Result<bool, E>),
    Active(Result<Vec<u8>, CatacombStoreError>),
}

/// The step that follows `step` on `answer`, where the answer is of the kind
/// that the step asks for.
pub open spec fn recovery_follows<E>(
    step: RecoveryStep<E>,
    answer: RecoveryAnswer<E>,
    next: RecoveryStep<E>,
) -> bool {
    match (step, answer) {
        (RecoveryStep::Work(pending), RecoveryAnswer::Done(outcome)) => pending.ends(outcome, next),
        (RecoveryStep::ReadTokens(reserved), RecoveryAnswer::Tokens(tokens)) => match tokens {
            Ok(tokens) => if tokens@.len() == 0 {
                next == RecoveryStep::<E>::End(Ok(CatacombRecoveryOutcome::Clean))
            } else if tokens@.len() == 1 {
                next is Probe && next->Probe_0.candidate() == tokens@[0]@
                    && next->Probe_0.bounds() == reserved.bounds()
            } else {
                next == quarantined::<E>()
            },
            Err(error) => if error == CatacombStoreError::UnsafeStorage || error
                == CatacombStoreError::IncompletePair {
                next == quarantined::<E>()
            } else {
                next == failed_recovery::<E>(error)
            },
        },
        (
            RecoveryStep::Probe(probed),
            RecoveryAnswer::Probed { stage_exists, generation_exists },
        ) => if stage_exists || !generation_exists {
            next == quarantined::<E>()
        } else {
            next is ReadPair && next->ReadPair_0.candidate() == probed.candidate()
                && next->ReadPair_0.bounds() == probed.bounds()
        },
        (RecoveryStep::ReadPair(candidate), RecoveryAnswer::Pair(pair)) => match pair {
            Ok(pair) => next is Validate && next->Validate_0.candidate() == candidate.candidate()
                && next->Validate_0.judged_pair() == pair@ && next->Validate_0.bounds()
                == candidate.bounds(),
            Err(CatacombStoreError::IncompletePair)
            | Err(CatacombStoreError::InvalidBlob)
            | Err(CatacombStoreError::InvalidMetadata)
            | Err(CatacombStoreError::UnsafeStorage) => next == quarantined::<E>(),
            Err(error) => next == failed_recovery::<E>(error),
        },
        (RecoveryStep::Validate(judged), RecoveryAnswer::Verdict(verdict)) => match verdict {
            Ok(accepted) => if accepted {
                next is ReadActive && next->ReadActive_0.candidate() == judged.candidate()
                    && next->ReadActive_0.bounds() == judged.bounds()
            } else {
                next == quarantined::<E>()
            },
            Err(error) => next == RecoveryStep::End(Err(CatacombRecoveryError::Validator(error))),
        },
        (RecoveryStep::ReadActive(accepted), RecoveryAnswer::Active(active)) => match active {
            Ok(name) => next is Work && next->Work_0.candidate() == accepted.candidate()
                && next->Work_0.bounds() == accepted.bounds() && next->Work_0.task() == if name@
                == generation_of(accepted.candidate()) {
                RecoveryWork::RemoveReservation
            } else {
                RecoveryWork::RemoveTemporary
            },
            Err(CatacombStoreError::MissingPair) => next is Work && next->Work_0.candidate()
                == accepted.candidate() && next->Work_0.bounds() == accepted.bounds()
                && next->Work_0.task() == RecoveryWork::RemoveTemporary,
            Err(error) => next == failed_recovery::<E>(error),
        },
        _ => false,
    }
}

/// A run of a recovery.
pub open spec fn is_recovery_run<E>(
    steps: Seq<RecoveryStep<E>>,
    answers: Seq<RecoveryAnswer<E>>,
) -> bool {
    &&& steps.len() == answers.len() + 1
    &&& steps[0] is Work
    &&& steps[0]->Work_0.task() == RecoveryWork::OpenStore
    &&& forall|k: int|
        0 <= k < answers.len() ==> recovery_follows(#[trigger] steps[k], answers[k], steps[k + 1])
}

/// The candidate of a step, once there is one.
pub open spec fn candidate_of<E>(step: RecoveryStep<E>) -> Seq<u8> {
    match step {
        RecoveryStep::Work(pending) => pending.candidate(),
        RecoveryStep::Probe(probed) => probed.candidate(),
        RecoveryStep::ReadPair(candidate) => candidate.candidate(),
        RecoveryStep::Validate(judged) => judged.candidate(),
        RecoveryStep::ReadActive(accepted) => accepted.candidate(),
        _ => Seq::empty(),
    }
}

/// Every error retains the recovery reservation: a run that ends in one has not
/// removed it.
pub proof fn law_every_error_retains_the_reservation<E>(
    steps: Seq<RecoveryStep<E>>,
    answers: Seq<RecoveryAnswer<E>>,
    k: int,
    j: int,
)
    requires
        is_recovery_run(steps, answers),
        0 <= j < k < steps.len(),
        steps[k] is End,
        steps[k]->End_0 is Err,
        steps[j] is Work,
        steps[j]->Work_0.task() == RecoveryWork::RemoveReservation,
    ensures
        answers[j] is Done,
        answers[j]->Done_0 is Err,
{
    assert(recovery_follows(steps[j], answers[j], steps[j + 1]));
    if answers[j]->Done_0 is Ok {
        assert(j + 1 < k);
        assert(recovery_follows(steps[j + 1], answers[j + 1], steps[j + 1 + 1]));
        if j + 2 < k {
            assert(recovery_follows(steps[j + 2], answers[j + 2], steps[j + 2 + 1]));
        }
    }
}

/// The limits that a step keeps to, while the recovery goes on.
pub open spec fn bounds_of<E>(step: RecoveryStep<E>) -> Option<StoreLimits> {
    match step {
        RecoveryStep::Work(pending) => Some(pending.bounds()),
        RecoveryStep::ReadTokens(reserved) => Some(reserved.bounds()),
        RecoveryStep::Probe(probed) => Some(probed.bounds()),
        RecoveryStep::ReadPair(candidate) => Some(candidate.bounds()),
        RecoveryStep::Validate(judged) => Some(judged.bounds()),
        RecoveryStep::ReadActive(accepted) => Some(accepted.bounds()),
        RecoveryStep::End(_) => None,
    }
}

/// A recovery keeps to the limits of the store that began it: the candidate is
/// read within them.
pub proof fn law_recoveries_keep_to_the_stores_limits<E>(
    steps: Seq<RecoveryStep<E>>,
    answers: Seq<RecoveryAnswer<E>>,
    k: int,
)
    requires
        is_recovery_run(steps, answers),
        0 <= k < steps.len(),
    ensures
        steps[k] is End || bounds_of(steps[k]) == bounds_of(steps[0]),
    decreases k,
{
    if k > 0 {
        law_recoveries_keep_to_the_stores_limits(steps, answers, k - 1);
        assert(recovery_follows(steps[k - 1], answers[k - 1], steps[k - 1 + 1]));
    }
}

/// Whether the step changes the store: anything after the verdict that is no
/// reading.
pub open spec fn changes_store<E>(step: RecoveryStep<E>) -> bool {
    step is Work && !(step->Work_0.task() is OpenStore || step->Work_0.task() is SyncStore)
}

/// What a step of a run presupposes of the answers before it: the one token, the
/// complete pair, and the verdict.
spec fn presupposes<E>(
    steps: Seq<RecoveryStep<E>>,
    answers: Seq<RecoveryAnswer<E>>,
    k: int,
) -> bool {
    let step = steps[k];
    &&& changes_store(step) || step is ReadActive ==> {
        &&& k >= 6
        &&& answers[5] == RecoveryAnswer::Verdict(Ok::<bool, E>(true))
        &&& steps[5] is Validate
        &&& steps[5]->Validate_0.candidate() == candidate_of(step)
        &&& answers[4] is Pair
        &&& answers[4]->Pair_0 is Ok
        &&& answers[4]->Pair_0->Ok_0@ == steps[5]->Validate_0.judged_pair()
        &&& answers[2] is Tokens
        &&& answers[2]->Tokens_0 is Ok
        &&& answers[2]->Tokens_0->Ok_0@.len() == 1
        &&& answers[2]->Tokens_0->Ok_0@[0]@ == candidate_of(step)
        &&& answers[3] == RecoveryAnswer::<E>::Probed {
            stage_exists: false,
            generation_exists: true,
        }
    }
    &&& step is Validate ==> {
        &&& k == 5
        &&& answers[4] is Pair
        &&& answers[4]->Pair_0 is Ok
        &&& answers[4]->Pair_0->Ok_0@ == step->Validate_0.judged_pair()
        &&& answers[2] is Tokens
        &&& answers[2]->Tokens_0 is Ok
        &&& answers[2]->Tokens_0->Ok_0@.len() == 1
        &&& answers[2]->Tokens_0->Ok_0@[0]@ == candidate_of(step)
        &&& answers[3] == RecoveryAnswer::<E>::Probed {
            stage_exists: false,
            generation_exists: true,
        }
    }
    &&& step is ReadPair ==> {
        &&& k == 4
        &&& answers[2] is Tokens
        &&& answers[2]->Tokens_0 is Ok
        &&& answers[2]->Tokens_0->Ok_0@.len() == 1
        &&& answers[2]->Tokens_0->Ok_0@[0]@ == candidate_of(step)
        &&& answers[3] == RecoveryAnswer::<E>::Probed {
            stage_exists: false,
            generation_exists: true,
        }
    }
    &&& step is Probe ==> {
        &&& k == 3
        &&& answers[2] is Tokens
        &&& answers[2]->Tokens_0 is Ok
        &&& answers[2]->Tokens_0->Ok_0@.len() == 1
        &&& answers[2]->Tokens_0->Ok_0@[0]@ == candidate_of(step)
    }
    &&& step is ReadTokens ==> k == 2
    &&& step is Work && step->Work_0.task() is SyncStore ==> k == 1
    &&& step is Work && step->Work_0.task() is OpenStore ==> k == 0
}

proof fn lemma_recovery_presupposes<E>(
    steps: Seq<RecoveryStep<E>>,
    answers: Seq<RecoveryAnswer<E>>,
    k: int,
)
    requires
        is_recovery_run(steps, answers),
        0 <= k < steps.len(),
    ensures
        presupposes(steps, answers, k),
    decreases k,
{
    if k > 0 {
        lemma_recovery_presupposes(steps, answers, k - 1);
        assert(recovery_follows(steps[k - 1], answers[k - 1], steps[k - 1 + 1]));
    }
}

/// A recovery changes the store only after the live device has accepted the one
/// reserved candidate, which was complete and had no stage; and what it changes
/// is that candidate's.
pub proof fn law_only_an_accepted_candidate_is_promoted<E>(
    steps: Seq<RecoveryStep<E>>,
    answers: Seq<RecoveryAnswer<E>>,
    k: int,
)
    requires
        is_recovery_run(steps, answers),
        0 <= k < steps.len(),
        changes_store(steps[k]),
    ensures
        k >= 6,
        answers[5] == RecoveryAnswer::Verdict(Ok::<bool, E>(true)),
        steps[5] is Validate,
        answers[2] is Tokens && answers[2]->Tokens_0 is Ok,
        answers[2]->Tokens_0->Ok_0@.len() == 1,
        answers[2]->Tokens_0->Ok_0@[0]@ == candidate_of(steps[k]),
        answers[3] == (RecoveryAnswer::<E>::Probed {
            stage_exists: false,
            generation_exists: true,
        }),
        answers[4] is Pair && answers[4]->Pair_0 is Ok,
        answers[4]->Pair_0->Ok_0@ == steps[5]->Validate_0.judged_pair(),
{
    lemma_recovery_presupposes(steps, answers, k);
}

/// The live device is asked only about the complete pair of the one reserved
/// candidate.
pub proof fn law_device_judges_only_complete_candidates<E>(
    steps: Seq<RecoveryStep<E>>,
    answers: Seq<RecoveryAnswer<E>>,
    k: int,
)
    requires
        is_recovery_run(steps, answers),
        0 <= k < steps.len(),
        steps[k] is Validate,
    ensures
        k == 5,
        answers[2] is Tokens && answers[2]->Tokens_0 is Ok,
        answers[2]->Tokens_0->Ok_0@.len() == 1,
        answers[4] is Pair && answers[4]->Pair_0 is Ok,
        answers[4]->Pair_0->Ok_0@ == steps[5]->Validate_0.judged_pair(),
{
    lemma_recovery_presupposes(steps, answers, k);
}

/// A reservation is removed only where the active marker names the candidate:
/// because it did already, or because the replacement has just been
/// synchronized.
pub proof fn law_reservation_outlives_its_promotion<E>(
    steps: Seq<RecoveryStep<E>>,
    answers: Seq<RecoveryAnswer<E>>,
    k: int,
)
    requires
        is_recovery_run(steps, answers),
        0 <= k < steps.len(),
        steps[k] is Work,
        steps[k]->Work_0.task() == RecoveryWork::RemoveReservation,
    ensures
        k >= 1,
        ({
            ||| answers[k - 1] is Active && answers[k - 1]->Active_0 is Ok
                && answers[k - 1]->Active_0->Ok_0@ == generation_of(candidate_of(steps[k]))
            ||| steps[k - 1] is Work && steps[k - 1]->Work_0.task() == RecoveryWork::SyncPromotion
                && answers[k - 1] is Done && answers[k - 1]->Done_0 is Ok
        }),
{
    assert(recovery_follows(steps[k - 1], answers[k - 1], steps[k - 1 + 1]));
}

} // verus!
