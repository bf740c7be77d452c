//! The registry of active subscriptions: a set of small identifiers, handed
//! out lowest first and reused once released.

use vstd::prelude::*;

verus! {

/// The identifiers that a table of flags marks as taken.
pub open spec fn taken_ids(table: Seq<bool>) -> Set<nat> {
    Set::new(|id: nat| id < table.len() && table[id as int])
}

/// The lowest identifier that `ids` does not hold.
pub open spec fn lowest_free(ids: Set<nat>) -> nat {
    choose|id: nat| is_lowest_free(ids, id)
}

/// `id` is not in `ids`, and every smaller identifier is.
pub open spec fn is_lowest_free(ids: Set<nat>, id: nat) -> bool {
    &&& !ids.contains(id)
    &&& forall|below: nat| below < id ==> ids.contains(below)
}

/// Only one identifier can be the lowest free one.
pub proof fn lemma_lowest_free_is_unique(ids: Set<nat>, id: nat)
    requires
        is_lowest_free(ids, id),
    ensures
        lowest_free(ids) == id,
{
    let chosen = lowest_free(ids);
    assert(is_lowest_free(ids, chosen));
    if chosen < id {
        assert(ids.contains(chosen));
    }
    if id < chosen {
        assert(ids.contains(id));
    }
}

/// A finite set leaves an identifier free once `next` and all below it
/// are counted in `below`, a part of the set.
proof fn lemma_search_lowest_free(ids: Set<nat>, next: nat, below: Set<nat>)
    requires
        ids.finite(),
        below.finite(),
        below.len() == next,
        below.subset_of(ids),
        forall|id: nat| below.contains(id) <==> id < next,
    ensures
        exists|id: nat| is_lowest_free(ids, id),
    decreases ids.len() - next,
{
    vstd::set_lib::lemma_len_subset(below, ids);
    if !ids.contains(next) {
        assert(is_lowest_free(ids, next));
    } else {
        let more = below.insert(next);
        vstd::set_lib::lemma_len_subset(more, ids);
        lemma_search_lowest_free(ids, next + 1, more);
    }
}

/// A finite set of identifiers has a lowest free one.
pub proof fn lemma_lowest_free_exists(ids: Set<nat>)
    requires
        ids.finite(),
    ensures
        is_lowest_free(ids, lowest_free(ids)),
{
    lemma_search_lowest_free(ids, 0, Set::<nat>::empty());
}

/// A table marks finitely many identifiers, no more than it has entries.
pub proof fn lemma_taken_ids_finite(table: Seq<bool>)
    ensures
        taken_ids(table).finite(),
        taken_ids(table).len() <= table.len(),
    decreases table.len(),
{
    if table.len() == 0 {
        assert(taken_ids(table) =~= Set::<nat>::empty());
    } else {
        let shorter = table.drop_last();
        let last = (table.len() - 1) as nat;
        lemma_taken_ids_finite(shorter);
        if table.last() {
            assert(taken_ids(table) =~= taken_ids(shorter).insert(last));
        } else {
            assert(taken_ids(table) =~= taken_ids(shorter));
        }
    }
}

/// The set of identifiers of the active subscriptions.
#[derive(Debug)]
pub struct Registry {
    table: Vec<bool>,
    active: usize,
}

impl View for Registry {
    type V = Set<nat>;

    closed spec fn view(&self) -> Set<nat> {
        taken_ids(self.table@)
    }
}

impl Registry {
    /// The cached count agrees with the table.
    pub closed spec fn wf(self) -> bool {
        self.active == taken_ids(self.table@).len()
    }

    /// The registered identifiers are finitely many.
    pub proof fn lemma_finite(self)
        ensures
            self@.finite(),
    {
        lemma_taken_ids_finite(self.table@);
    }

    /// A registry with no identifier taken.
    pub fn new() -> (registry: Registry)
        ensures
            registry.wf(),
            registry@ == Set::<nat>::empty(),
    {
        let registry = Registry { table: Vec::new(), active: 0 };
        assert(registry@ =~= Set::<nat>::empty());
        registry
    }

    /// Number of registered identifiers.
    pub fn len(&self) -> (n: usize)
        requires
            self.wf(),
        ensures
            n == self@.len(),
    {
        self.active
    }

    /// Whether `id` is registered.
    pub fn contains(&self, id: usize) -> (found: bool)
        ensures
            found == self@.contains(id as nat),
    {
        id < self.table.len() && self.table[id]
    }

    /// Registers the lowest free identifier and returns it.
    pub fn insert(&mut self) -> (id: usize)
        requires
            old(self).wf(),
        ensures
            final(self).wf(),
            id == lowest_free(old(self)@),
            !old(self)@.contains(id as nat),
            final(self)@ == old(self)@.insert(id as nat),
    {
        let mut id: usize = 0;
        while id < self.table.len() && self.table[id]
            invariant
                id <= self.table@.len(),
                forall|below: nat| below < id ==> self.table@[below as int],
            decreases self.table@.len() - id,
        {
            id = id + 1;
        }
        proof {
            assert(is_lowest_free(self@, id as nat));
            lemma_lowest_free_is_unique(self@, id as nat);
            lemma_taken_ids_finite(self.table@);
        }
        if id < self.table.len() {
            self.table[id] = true;
        } else {
            self.table.push(true);
        }
        proof {
            assert(self@ =~= old(self)@.insert(id as nat));
            lemma_taken_ids_finite(self.table@);
            assert(self@.len() == old(self)@.len() + 1);
            assert(self.table@.len() == self.table.len());
        }
        self.active = self.active + 1;
        id
    }

    /// Releases `id`. Says whether it was registered.
    pub fn remove(&mut self, id: usize) -> (found: bool)
        requires
            old(self).wf(),
        ensures
            final(self).wf(),
            found == old(self)@.contains(id as nat),
            final(self)@ == old(self)@.remove(id as nat),
    {
        proof {
            lemma_taken_ids_finite(self.table@);
        }
        if id < self.table.len() && self.table[id] {
            self.table[id] = false;
            proof {
                assert(self@ =~= old(self)@.remove(id as nat));
            }
            self.active = self.active - 1;
            true
        } else {
            proof {
                assert(self@ =~= old(self)@.remove(id as nat));
            }
            false
        }
    }

    /// Releases every identifier.
    pub fn clear(&mut self)
        ensures
            final(self).wf(),
            final(self)@ == Set::<nat>::empty(),
    {
        self.table.clear();
        self.active = 0;
        assert(self@ =~= Set::<nat>::empty());
    }
}

} // verus!
