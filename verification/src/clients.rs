//! Allocation of client ids for clients logged into the server

use std::collections::HashSet;
use vstd::prelude::*;
use vstd::set_lib::lemma_len_subset;

verus! {

broadcast use vstd::std_specs::hash::group_hash_axioms;

/// Returns the id that follows `i`, wrapping from the largest id back to zero
pub open spec fn next_index(i: u32) -> u32 {
    if i == u32::MAX { 0 } else { (i + 1) as u32 }
}

/// The id reached from `start` after `k` steps of `next_index`
pub open spec fn id_after(start: u32, k: int) -> u32 {
    ((start + k) % 0x1_0000_0000) as u32
}

/// The number of steps of `next_index` that lead from `start` to `id`
pub open spec fn steps_between(start: u32, id: u32) -> int {
    if id >= start { id - start } else { id + 0x1_0000_0000 - start }
}

/// A list of client ids
pub struct ClientList {
    /// The list of existing clients
    list: HashSet<u32>,
    /// The next index to use for a new client
    index: u32,
}

/// What a client list holds: the ids in use and the next index to try
pub struct ClientListView {
    pub ids: Set<u32>,
    pub index: u32,
}

impl View for ClientList {
    type V = ClientListView;

    closed spec fn view(&self) -> ClientListView {
        ClientListView { ids: self.list@, index: self.index }
    }
}

proof fn lemma_steps(start: u32, k: int)
    requires
        0 <= k < 0x1_0000_0000,
    ensures
        steps_between(start, id_after(start, k)) == k,
        id_after(start, k + 1) == next_index(id_after(start, k)),
{
}

impl ClientList {
    /// The ids in use form a finite set
    pub closed spec fn wf(&self) -> bool {
        self.list@.finite()
    }

    /// Construct an empty list
    pub fn new() -> (c: ClientList)
        ensures
            c.wf(),
            c@.ids == Set::<u32>::empty(),
            c@.index == 0,
    {
        ClientList { list: HashSet::new(), index: 0 }
    }

    /// Construct an empty list whose first new client gets the id `index`
    pub fn starting_at(index: u32) -> (c: ClientList)
        ensures
            c.wf(),
            c@.ids == Set::<u32>::empty(),
            c@.index == index,
    {
        ClientList { list: HashSet::new(), index }
    }

    /// Does the list hold the id `u`?
    pub fn contains(&self, u: u32) -> (b: bool)
        ensures
            b == self@.ids.contains(u),
    {
        self.list.contains(&u)
    }

    /// Add a new client to the list: the first id that is not in use, searching upward from
    /// the next index and wrapping around, is taken and returned, and the index moves past it
    pub fn new_entry(&mut self) -> (t: u32)
        requires
            old(self).wf(),
            old(self)@.ids.len() < 0x1_0000_0000,
        ensures
            final(self).wf(),
            handed_out(old(self)@, final(self)@, t),
            forall|k: int|
                0 <= k < steps_between(old(self)@.index, t) ==> old(self)@.ids.contains(
                    #[trigger] id_after(old(self)@.index, k),
                ),
    {
        let ghost start = self.index;
        let ghost ids = self.list@;
        let ghost mut steps: int = 0;
        let ghost mut visited: Set<u32> = Set::empty();
        while self.list.contains(&self.index)
            invariant
                self.list@ == ids,
                ids.finite(),
                ids.len() < 0x1_0000_0000,
                0 <= steps <= ids.len(),
                self.index == id_after(start, steps),
                visited == Set::new(|x: u32| steps_between(start, x) < steps),
                visited.finite(),
                visited.len() == steps,
                visited.subset_of(ids),
                forall|k: int| 0 <= k < steps ==> ids.contains(#[trigger] id_after(start, k)),
            decreases ids.len() - steps,
        {
            proof {
                lemma_steps(start, steps);
                let nv = Set::new(|x: u32| steps_between(start, x) < steps + 1);
                assert(nv =~= visited.insert(self.index)) by {
                    assert forall|x: u32| nv.contains(x) implies visited.insert(self.index).contains(
                        x,
                    ) by {
                        if steps_between(start, x) == steps {
                            assert(x == id_after(start, steps));
                        }
                    }
                }
                assert(!visited.contains(self.index));
                visited = nv;
                lemma_len_subset(visited, ids);
                assert(ids.contains(id_after(start, steps)));
                steps = steps + 1;
            }
            self.index = self.index.wrapping_add(1);
            proof {
                lemma_steps(start, steps - 1);
            }
        }
        proof {
            lemma_steps(start, steps);
        }
        let t = self.index;
        self.list.insert(t);
        self.index = self.index.wrapping_add(1);
        t
    }

    /// Remove a client from the list
    pub fn remove_entry(&mut self, u: u32)
        requires
            old(self).wf(),
        ensures
            final(self).wf(),
            final(self)@.ids == old(self)@.ids.remove(u),
            final(self)@.index == old(self)@.index,
    {
        self.list.remove(&u);
    }
}

/// Does `after` come from `before` by handing out the id `t`, as `new_entry` does?
pub open spec fn handed_out(before: ClientListView, after: ClientListView, t: u32) -> bool {
    &&& !before.ids.contains(t)
    &&& after.ids == before.ids.insert(t)
    &&& after.index == next_index(t)
}

/// Ids handed out one after another are in use and differ: the second id is not the first,
/// and both stay in use until removed
pub proof fn lemma_entries_distinct(
    v0: ClientListView,
    v1: ClientListView,
    v2: ClientListView,
    t1: u32,
    t2: u32,
)
    requires
        handed_out(v0, v1, t1),
        handed_out(v1, v2, t2),
    ensures
        t1 != t2,
        v2.ids.contains(t1),
        v2.ids.contains(t2),
{
}

/// A removed id is no longer in use, and the other ids stay as they were
pub proof fn lemma_remove_frees(before: Set<u32>, after: Set<u32>, u: u32)
    requires
        after == before.remove(u),
    ensures
        !after.contains(u),
        forall|k: u32| k != u ==> (after.contains(k) <==> before.contains(k)),
{
}

} // verus!
