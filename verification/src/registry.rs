//! The registry: keyed storage of kitties per owner, global id allocation,
//! and the two state-transition operations, create and breed.

use crate::kitty::{combine_dna, combine_genome, Kitty};
use vstd::prelude::*;

verus! {

/// Identifier of a stored kitty. The store is keyed per owner, so an id
/// only names a kitty together with its owner; ids are nevertheless drawn
/// from one global counter shared by all owners, never reused, and never
/// allowed to wrap past the maximum representable value.
pub type KittyId = u32;

/// The authenticated identity on whose behalf an operation runs; also the
/// ownership key of stored kitties.
pub type AccountId = u64;

/// The fixed selector mask applied to every breeding call: bit-for-bit it
/// decides which parent contributes each bit of the offspring genome. It is
/// a deliberate constant of the breeding rule, not a caller-tunable knob.
pub open const BREED_SELECTOR: u8 = 10;

/// Why an operation was refused. Every failure is detected before any
/// mutation, so a failed operation leaves the registry exactly as it was.
#[derive(Clone, Copy, PartialEq, Eq, Structural, Debug)]
pub enum RegistryError {
    /// The global id counter has reached the maximum representable id.
    IdOverflow,
    /// Both breeding parents derive the same sex.
    IncompatibleParents,
    /// A referenced id is not stored under the calling owner.
    EntityNotFound,
    /// Reserved for a stricter capacity policy; no operation returns it in
    /// this version, since the overflow check already guards allocation.
    MaxCapacityReached,
}

/// One stored record: a kitty under its `(owner, id)` key.
struct Entry {
    owner: AccountId,
    id: KittyId,
    kitty: Kitty,
}

/// The key under which an entry is stored.
spec fn entry_key(e: Entry) -> (AccountId, KittyId) {
    (e.owner, e.id)
}

/// The keyed store that a sequence of entries represents.
spec fn map_of(s: Seq<Entry>) -> Map<(AccountId, KittyId), Kitty>
    decreases s.len(),
{
    if s.len() == 0 {
        Map::empty()
    } else {
        map_of(s.drop_last()).insert(entry_key(s.last()), s.last().kitty)
    }
}

/// A key is in the represented store exactly when some entry carries it.
proof fn lemma_map_of_contains(s: Seq<Entry>, k: (AccountId, KittyId))
    ensures
        map_of(s).contains_key(k) <==> exists|i: int| 0 <= i < s.len() && entry_key(s[i]) == k,
    decreases s.len(),
{
    if s.len() > 0 {
        let s0 = s.drop_last();
        lemma_map_of_contains(s0, k);
        if map_of(s).contains_key(k) {
            if entry_key(s.last()) == k {
                assert(entry_key(s[s.len() - 1]) == k);
            } else {
                let i = choose|i: int| 0 <= i < s0.len() && entry_key(s0[i]) == k;
                assert(entry_key(s[i]) == k);
            }
        }
        if exists|i: int| 0 <= i < s.len() && entry_key(s[i]) == k {
            let i = choose|i: int| 0 <= i < s.len() && entry_key(s[i]) == k;
            if i < s.len() - 1 {
                assert(entry_key(s0[i]) == k);
            }
        }
    }
}

/// An entry whose key no later entry repeats gives the represented store's
/// value at that key.
proof fn lemma_map_of_value(s: Seq<Entry>, i: int)
    requires
        0 <= i < s.len(),
        forall|j: int| i < j < s.len() ==> entry_key(s[j]) != entry_key(s[i]),
    ensures
        map_of(s).contains_key(entry_key(s[i])),
        map_of(s)[entry_key(s[i])] == s[i].kitty,
    decreases s.len(),
{
    if i < s.len() - 1 {
        let s0 = s.drop_last();
        assert(s0[i] == s[i]);
        lemma_map_of_value(s0, i);
    }
}

/// Appending one entry inserts exactly its key and kitty into the
/// represented store.
proof fn lemma_map_of_push(s: Seq<Entry>, e: Entry)
    ensures
        map_of(s.push(e)) == map_of(s).insert(entry_key(e), e.kitty),
{
    assert(s.push(e).drop_last() =~= s);
    assert(s.push(e).last() == e);
}

/// The registry: the keyed store of all kitties plus the global id counter.
/// Both are mutated only by [`Registry::create`] and [`Registry::breed`],
/// each a single atomic read-modify-write over already-resident state.
pub struct Registry {
    entries: Vec<Entry>,
    next_id: KittyId,
}

impl Registry {
    /// The store as a mathematical map from `(owner, id)` keys to kitties.
    pub closed spec fn store(self) -> Map<(AccountId, KittyId), Kitty> {
        map_of(self.entries@)
    }

    /// The id the next successful operation will assign.
    pub closed spec fn spec_next_kitty_id(&self) -> KittyId {
        self.next_id
    }

    /// The registry invariant: keys are stored at most once, and every
    /// stored id was drawn from the counter, so it lies strictly below it.
    pub closed spec fn wf(self) -> bool {
        &&& forall|i: int, j: int|
            0 <= i < j < self.entries@.len() ==> entry_key(self.entries@[i]) != entry_key(
                self.entries@[j],
            )
        &&& forall|i: int|
            0 <= i < self.entries@.len() ==> (self.entries@[i].id as int) < (
            self.next_id as int)
    }

    /// An empty registry whose counter starts at 0.
    pub fn new() -> (r: Registry)
        ensures
            r.wf(),
            r.store() == Map::<(AccountId, KittyId), Kitty>::empty(),
            r.spec_next_kitty_id() == 0,
    {
        Registry { entries: Vec::new(), next_id: 0 }
    }

    /// An empty registry whose counter starts at `next_id`, as when resuming
    /// from persisted state or exercising the capacity limit.
    pub fn with_next_id(next_id: KittyId) -> (r: Registry)
        ensures
            r.wf(),
            r.store() == Map::<(AccountId, KittyId), Kitty>::empty(),
            r.spec_next_kitty_id() == next_id,
    {
        Registry { entries: Vec::new(), next_id }
    }

    /// The counter's current value: the id the next successful operation
    /// will assign.
    #[verifier::when_used_as_spec(spec_next_kitty_id)]
    pub fn next_kitty_id(&self) -> (r: KittyId)
        ensures
            r == self.spec_next_kitty_id(),
    {
        self.next_id
    }

    /// Looks up the kitty stored under `(owner, kitty_id)`, if any.
    pub fn kitties(&self, owner: AccountId, kitty_id: KittyId) -> (r: Option<Kitty>)
        requires
            self.wf(),
        ensures
            match r {
                Some(k) => self.store().contains_key((owner, kitty_id)) && k == self.store()[
                    (owner, kitty_id)
                ],
                None => !self.store().contains_key((owner, kitty_id)),
            },
    {
        let n = self.entries.len();
        let mut i: usize = 0;
        while i < n
            invariant
                self.wf(),
                n == self.entries@.len(),
                0 <= i <= n,
                forall|j: int| 0 <= j < i ==> entry_key(self.entries@[j]) != (owner, kitty_id),
            decreases n - i,
        {
            if self.entries[i].owner == owner && self.entries[i].id == kitty_id {
                proof {
                    lemma_map_of_value(self.entries@, i as int);
                }
                return Some(self.entries[i].kitty);
            }
            i = i + 1;
        }
        proof {
            lemma_map_of_contains(self.entries@, (owner, kitty_id));
        }
        None
    }

    /// Stores `kitty` under `owner` at the counter's current value and bumps
    /// the counter; refused only when the counter is exhausted. The check
    /// comes strictly before the entry is committed.
    fn allocate(&mut self, owner: AccountId, kitty: Kitty) -> (r: Result<KittyId, RegistryError>)
        requires
            old(self).wf(),
        ensures
            final(self).wf(),
            old(self).spec_next_kitty_id() <= final(self).spec_next_kitty_id(),
            r is Ok <==> old(self).spec_next_kitty_id() < KittyId::MAX,
            match r {
                Ok(id) => {
                    &&& id == old(self).spec_next_kitty_id()
                    &&& final(self).spec_next_kitty_id() == id + 1
                    &&& final(self).store() == old(self).store().insert((owner, id), kitty)
                    &&& forall|o: AccountId| !old(self).store().contains_key((o, id))
                },
                Err(e) => {
                    &&& e == RegistryError::IdOverflow
                    &&& *final(self) == *old(self)
                },
            },
    {
        if self.next_id == KittyId::MAX {
            return Err(RegistryError::IdOverflow);
        }
        let id = self.next_id;
        let ghost s = self.entries@;
        let entry = Entry { owner, id, kitty };
        self.entries.push(entry);
        self.next_id = id + 1;
        proof {
            lemma_map_of_push(s, entry);
            assert forall|o: AccountId| !old(self).store().contains_key((o, id)) by {
                lemma_map_of_contains(s, (o, id));
            }
        }
        Ok(id)
    }

    /// Creates a kitty from a caller-supplied fresh genome, stores it under
    /// `owner`, and returns its newly allocated id with the kitty itself.
    /// Fails only with `IdOverflow`, exactly when the counter is exhausted,
    /// and then changes nothing.
    pub fn create(&mut self, owner: AccountId, dna: [u8; 16]) -> (r: Result<
        (KittyId, Kitty),
        RegistryError,
    >)
        requires
            old(self).wf(),
        ensures
            final(self).wf(),
            old(self).spec_next_kitty_id() <= final(self).spec_next_kitty_id(),
            r is Ok <==> old(self).spec_next_kitty_id() < KittyId::MAX,
            match r {
                Ok((id, kitty)) => {
                    &&& id == old(self).spec_next_kitty_id()
                    &&& final(self).spec_next_kitty_id() == id + 1
                    &&& kitty.dna() == dna@
                    &&& final(self).store() == old(self).store().insert((owner, id), kitty)
                    &&& forall|o: AccountId| !old(self).store().contains_key((o, id))
                },
                Err(e) => {
                    &&& e == RegistryError::IdOverflow
                    &&& *final(self) == *old(self)
                },
            },
    {
        let kitty = Kitty(dna);
        match self.allocate(owner, kitty) {
            Ok(id) => Ok((id, kitty)),
            Err(e) => Err(e),
        }
    }

    /// Derives an offspring from two already-looked-up parents, stores it
    /// under `owner`, and returns it with its id. Checks, in order: the
    /// parents' sexes must differ, and the counter must not be exhausted;
    /// on failure nothing changes.
    pub fn breed_new(&mut self, owner: AccountId, kitty_1: &Kitty, kitty_2: &Kitty) -> (r: Result<
        (Kitty, KittyId),
        RegistryError,
    >)
        requires
            old(self).wf(),
        ensures
            final(self).wf(),
            old(self).spec_next_kitty_id() <= final(self).spec_next_kitty_id(),
            r is Ok <==> kitty_1.spec_gender() != kitty_2.spec_gender() && old(
                self,
            ).spec_next_kitty_id() < KittyId::MAX,
            match r {
                Ok((kitty, id)) => {
                    &&& id == old(self).spec_next_kitty_id()
                    &&& final(self).spec_next_kitty_id() == id + 1
                    &&& kitty.dna() == combine_genome(kitty_1.dna(), kitty_2.dna(), BREED_SELECTOR)
                    &&& final(self).store() == old(self).store().insert((owner, id), kitty)
                    &&& forall|o: AccountId| !old(self).store().contains_key((o, id))
                },
                Err(e) => {
                    &&& *final(self) == *old(self)
                    &&& (e == RegistryError::IncompatibleParents <==> kitty_1.spec_gender()
                        == kitty_2.spec_gender())
                    &&& (e == RegistryError::IdOverflow <==> kitty_1.spec_gender()
                        != kitty_2.spec_gender() && old(self).spec_next_kitty_id()
                        == KittyId::MAX)
                },
            },
    {
        if kitty_1.gender() == kitty_2.gender() {
            return Err(RegistryError::IncompatibleParents);
        }
        let mut new_dna: [u8; 16] = [0u8; 16];
        let mut i: usize = 0;
        while i < 16
            invariant
                0 <= i <= 16,
                forall|j: int|
                    0 <= j < i ==> new_dna@[j] == crate::kitty::spec_combine_dna(
                        kitty_1.0@[j],
                        kitty_2.0@[j],
                        BREED_SELECTOR,
                    ),
            decreases 16 - i,
        {
            new_dna[i] = combine_dna(kitty_1.0[i], kitty_2.0[i], BREED_SELECTOR);
            i = i + 1;
        }
        let new_kitty = Kitty(new_dna);
        proof {
            assert(new_kitty.dna() =~= combine_genome(
                kitty_1.dna(),
                kitty_2.dna(),
                BREED_SELECTOR,
            ));
        }
        match self.allocate(owner, new_kitty) {
            Ok(id) => Ok((new_kitty, id)),
            Err(e) => Err(e),
        }
    }

    /// Breeds two kitties the caller owns into a new one stored under the
    /// same owner. Fails with `EntityNotFound` when either id is not stored
    /// under `owner`, with `IncompatibleParents` when both parents derive
    /// the same sex, and with `IdOverflow` when the counter is exhausted,
    /// checked in that order; on failure nothing changes.
    pub fn breed(&mut self, owner: AccountId, kitty_id_1: KittyId, kitty_id_2: KittyId) -> (r:
        Result<(KittyId, Kitty), RegistryError>)
        requires
            old(self).wf(),
        ensures
            final(self).wf(),
            old(self).spec_next_kitty_id() <= final(self).spec_next_kitty_id(),
            ({
                let k = old(self).store();
                let p1 = (owner, kitty_id_1);
                let p2 = (owner, kitty_id_2);
                &&& (r is Ok <==> k.contains_key(p1) && k.contains_key(p2)
                    && k[p1].spec_gender() != k[p2].spec_gender() && old(
                    self,
                ).spec_next_kitty_id() < KittyId::MAX)
                &&& match r {
                    Ok((id, kitty)) => {
                        &&& id == old(self).spec_next_kitty_id()
                        &&& final(self).spec_next_kitty_id() == id + 1
                        &&& kitty.dna() == combine_genome(
                            k[p1].dna(),
                            k[p2].dna(),
                            BREED_SELECTOR,
                        )
                        &&& final(self).store() == k.insert((owner, id), kitty)
                        &&& forall|o: AccountId| !k.contains_key((o, id))
                    },
                    Err(e) => {
                        &&& *final(self) == *old(self)
                        &&& (e == RegistryError::EntityNotFound <==> !(k.contains_key(p1)
                            && k.contains_key(p2)))
                        &&& (e == RegistryError::IncompatibleParents <==> k.contains_key(p1)
                            && k.contains_key(p2) && k[p1].spec_gender() == k[p2].spec_gender())
                        &&& (e == RegistryError::IdOverflow <==> k.contains_key(p1)
                            && k.contains_key(p2) && k[p1].spec_gender() != k[p2].spec_gender()
                            && old(self).spec_next_kitty_id() == KittyId::MAX)
                    },
                }
            }),
    {
        let kitty_1 = match self.kitties(owner, kitty_id_1) {
            Some(k) => k,
            None => {
                return Err(RegistryError::EntityNotFound);
            },
        };
        let kitty_2 = match self.kitties(owner, kitty_id_2) {
            Some(k) => k,
            None => {
                return Err(RegistryError::EntityNotFound);
            },
        };
        match self.breed_new(owner, &kitty_1, &kitty_2) {
            Ok((kitty, id)) => Ok((id, kitty)),
            Err(e) => Err(e),
        }
    }
}

/// Ids are never handed out twice over the registry's lifetime, even across
/// different owners: a successful operation returns the counter's prior
/// value and leaves the counter strictly larger, and no operation ever
/// shrinks the counter, so an id returned once stays strictly below the
/// counter and cannot be returned again.
pub proof fn lemma_allocated_ids_distinct(
    after_first: Registry,
    before_second: Registry,
    id_1: KittyId,
    id_2: KittyId,
)
    requires
        id_1 < after_first.spec_next_kitty_id(),
        after_first.spec_next_kitty_id() <= before_second.spec_next_kitty_id(),
        id_2 == before_second.spec_next_kitty_id(),
    ensures
        id_1 != id_2,
{
}

} // verus!
