//! The world of the server: object ids, maps and what is on them

pub mod item;
pub mod object;
pub mod npc;
pub mod monster;
pub mod map_info;
pub mod events;
pub mod damage;
pub mod state;
pub mod step;

use vstd::prelude::*;

verus! {

/// The id for an object that exists in the world
#[derive(Clone, Copy, Debug, PartialEq, Eq, Hash, Structural)]
pub struct WorldObjectId(pub u32);

impl WorldObjectId {
    /// Get the u32 that corresponds to the object id
    pub fn get_u32(&self) -> (r: u32)
        ensures
            r == self.0,
    {
        self.0
    }
}

/// Represents a single map of the world.
/// The monster and drop rates of a map, which are fractional, are held by the server around
/// the library.
#[derive(Clone, Debug)]
pub struct GameMap {
    /// The mapid
    pub id: u16,
    /// The name of the map
    pub name: String,
    /// The minimum x coordinate for the map
    pub min_x: u16,
    /// The maximum x coordinate for the map
    pub max_x: u16,
    /// The minimum y coordinate for the map
    pub min_y: u16,
    /// The maximum y coordinate for the map
    pub max_y: u16,
    /// Is the map underwater?
    pub underwater: bool,
    /// Can players make bookmarks on this map?
    pub bookmarkable: bool,
    /// Does random teleport work on this map?
    pub random_teleport: bool,
    /// Is this map escapable?
    pub escapable: bool,
    /// Does resurrection work on this map?
    pub resurrection: bool,
    /// Do spawn monster items work here?
    pub spawn_monster: bool,
    /// Does this map impose an experience penalty upon death?
    pub death_exp_penalty: bool,
    /// Can pets come to this map?
    pub pets: bool,
    /// Can monsters be summoned on this map?
    pub summon_monster: bool,
    /// Is item usage allowed on this map?
    pub item_usage: bool,
    /// Are skills allowed on this map?
    pub skill_usage: bool,
}

impl GameMap {
    /// Can players use items on this map?
    pub fn can_use_items(&self) -> (b: bool)
        ensures
            b == self.item_usage,
    {
        self.item_usage
    }
}

/// A reference to an object in the world.
#[derive(Clone, Copy, Debug)]
pub struct ObjectRef {
    /// The map where the object is located
    map: u16,
    /// The id for the object in the world
    id: WorldObjectId,
}

impl ObjectRef {
    /// The map of the reference
    pub closed spec fn spec_map(&self) -> u16 {
        self.map
    }

    /// The object id of the reference
    pub closed spec fn spec_id(&self) -> WorldObjectId {
        self.id
    }

    /// Refer to the object `id` on the map `map`
    pub fn new(map: u16, id: WorldObjectId) -> (r: ObjectRef)
        ensures
            r.spec_map() == map,
            r.spec_id() == id,
    {
        ObjectRef { map, id }
    }

    /// Get the map id
    pub fn map(&self) -> (m: u16)
        ensures
            m == self.spec_map(),
    {
        self.map
    }

    /// get the world id
    pub fn world_id(&self) -> (i: WorldObjectId)
        ensures
            i == self.spec_id(),
    {
        self.id
    }
}

/// Hands out the ids of new objects in the world, counting upward
pub struct WorldIdGenerator {
    next: WorldObjectId,
}

impl WorldIdGenerator {
    /// The id that the next call of `new_id` hands out
    pub closed spec fn next(&self) -> u32 {
        self.next.0
    }

    /// The id that the next call of `new_id` hands out
    pub fn next_id_value(&self) -> (n: u32)
        ensures
            n == self.next(),
    {
        self.next.0
    }

    /// Build a new generator
    pub fn new(start: u32) -> (g: WorldIdGenerator)
        ensures
            g.next() == start,
    {
        WorldIdGenerator { next: WorldObjectId(start) }
    }

    /// Get a new object id
    pub fn new_id(&mut self) -> (r: WorldObjectId)
        requires
            old(self).next() < u32::MAX,
        ensures
            r.0 == old(self).next(),
            final(self).next() == old(self).next() + 1,
    {
        let r = self.next;
        self.next.0 = self.next.0 + 1;
        r
    }
}

/// A generator hands out consecutive ids: over `n` calls of `new_id`, where `gs[k]` is the
/// generator before the call `k` and `rs[k]` the id it hands out, the call `k` hands out the
/// first id plus `k`, so the ids are distinct, and the generator ends `n` further on
pub proof fn lemma_ids_consecutive(gs: Seq<WorldIdGenerator>, rs: Seq<WorldObjectId>)
    requires
        gs.len() == rs.len() + 1,
        forall|k: int| 0 <= k < rs.len() ==> #[trigger] rs[k].0 == gs[k].next(),
        forall|k: int| 0 <= k < rs.len() ==> #[trigger] gs[k + 1].next() == gs[k].next() + 1,
    ensures
        forall|k: int| 0 <= k < rs.len() ==> #[trigger] rs[k].0 == gs[0].next() + k,
        forall|a: int, b: int| 0 <= a < b < rs.len() ==> #[trigger] rs[a] != #[trigger] rs[b],
        gs[rs.len() as int].next() == gs[0].next() + rs.len(),
    decreases rs.len(),
{
    if rs.len() > 0 {
        let n = rs.len() - 1;
        lemma_ids_consecutive(gs.take(n + 1), rs.take(n));
        assert forall|k: int| 0 <= k < rs.len() implies #[trigger] rs[k].0 == gs[0].next() + k by {
            if k < n {
                assert(rs.take(n)[k] == rs[k]);
            } else {
                assert(gs.take(n + 1)[n] == gs[n]);
            }
        }
        assert(gs[n + 1].next() == gs[n].next() + 1);
        assert(gs.take(n + 1)[n] == gs[n]);
        assert(gs.take(n + 1)[0] == gs[0]);
    }
    assert forall|a: int, b: int| 0 <= a < b < rs.len() implies #[trigger] rs[a] != #[trigger] rs[b] by {
        assert(rs[a].0 == gs[0].next() + a);
        assert(rs[b].0 == gs[0].next() + b);
    }
}

} // verus!
