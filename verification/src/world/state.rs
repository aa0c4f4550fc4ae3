//! The state of the game world: who is logged in, which object each player plays, the maps
//! and what is on them, and the tables of items and npcs

use crate::character::{details_packet_of, is_inventory_of, is_own_object_packet, FullCharacter, Location};
use crate::clients::{handed_out, ClientList};
use crate::messages::ServerShutdownMessage;
use crate::server_packet::ServerPacket;
use crate::world::events::shutdown_request;
use crate::world::item::armor::{Armor, ArmorInstance};
use crate::world::item::etc::{EtcItem, EtcItemInstance};
use crate::world::item::weapon::{Weapon, WeaponInstance, WeaponStatus};
use crate::world::item::{InventoryElement, InventoryUpdate, Item};
use crate::world::map_info::{object_id, object_location, removed_from, MapInfo, Object};
use crate::world::monster::{is_monster_of, scatter_in_range, MonsterSpawn};
use crate::world::npc::{is_npc_of, NpcDefinition, NpcSpawn};
use crate::world::{GameMap, ObjectRef, WorldIdGenerator, WorldObjectId};
use std::collections::HashMap;
use vstd::prelude::*;

verus! {

broadcast use vstd::std_specs::hash::group_hash_axioms;

/// Does the `n` objects placed from a spawn list, the one with the index `i` under the id
/// `first + i` on the map `maps[i]`, put one under the id `x` on the map `k`?
pub open spec fn placed_at(maps: Seq<u16>, first: int, n: int, k: u16, x: u32) -> bool {
    first <= x < first + n && maps[x - first] == k
}

/// Is `after` the maps `before` with the first `n` objects of a spawn list placed, each on its
/// map where the world has that map (see `placed_at`)? Each placed object `o` under the id `x`
/// meets `made(x, o)`; every other object stays as it was.
pub open spec fn spawned_into(
    before: Map<u16, MapInfo>,
    after: Map<u16, MapInfo>,
    maps: Seq<u16>,
    first: int,
    n: int,
    made: spec_fn(u32, Object) -> bool,
) -> bool {
    &&& after.dom() == before.dom()
    &&& forall|k: u16, x: u32|
        #![trigger after[k].objects().contains_key(x)]
        before.contains_key(k) ==> (after[k].objects().contains_key(x) <==> (before[k].objects().contains_key(x)
            || placed_at(maps, first, n, k, x)))
    &&& forall|k: u16, x: u32|
        #![trigger after[k].objects()[x]]
        before.contains_key(k) && placed_at(maps, first, n, k, x) ==> made(x, after[k].objects()[x])
    &&& forall|k: u16, x: u32|
        #![trigger after[k].objects()[x]]
        before.contains_key(k) && !placed_at(maps, first, n, k, x) && before[k].objects().contains_key(x)
            ==> after[k].objects()[x] == before[k].objects()[x]
}

/// Is `o`, placed under the id `x`, the npc that the spawn with the index `x - first` of
/// `spawns` makes from the definitions `npcs`?
pub open spec fn npc_made(spawns: Seq<NpcSpawn>, first: int, npcs: Map<u32, NpcDefinition>) -> spec_fn(
    u32,
    Object,
) -> bool {
    |x: u32, o: Object|
        o matches Object::GenericNpc(npc) && is_npc_of(npc, spawns[x - first], WorldObjectId(x), npcs)
}

/// Is `o`, placed under the id `x`, a monster that the spawn with the index `x - first` of
/// `spawns` makes from the definitions `npcs`?
pub open spec fn monster_made(
    spawns: Seq<MonsterSpawn>,
    first: int,
    npcs: Map<u32, NpcDefinition>,
) -> spec_fn(u32, Object) -> bool {
    |x: u32, o: Object|
        o matches Object::Monster(m) && is_monster_of(m, spawns[x - first], WorldObjectId(x), npcs)
}

/// Placing one more object of a spawn list, on its map, keeps the maps as `spawned_into`
/// describes them
proof fn lemma_spawn_step(
    orig: Map<u16, MapInfo>,
    before: Map<u16, MapInfo>,
    after: Map<u16, MapInfo>,
    maps: Seq<u16>,
    first: int,
    i: int,
    made: spec_fn(u32, Object) -> bool,
    o: Object,
)
    requires
        spawned_into(orig, before, maps, first, i, made),
        0 <= i < maps.len(),
        0 <= first,
        first + i <= u32::MAX,
        object_id(o).0 == first + i,
        object_location(o).map == maps[i],
        made((first + i) as u32, o),
        after.dom() == before.dom(),
        before.contains_key(maps[i]) ==> after[maps[i]].objects() == before[maps[i]].objects().insert(
            (first + i) as u32,
            o,
        ),
        forall|k: u16| k != maps[i] ==> #[trigger] after.get(k) == before.get(k),
    ensures
        spawned_into(orig, after, maps, first, i + 1, made),
{
    let id = (first + i) as u32;
    assert forall|k: u16, x: u32| #![trigger after[k].objects().contains_key(x)]
        orig.contains_key(k) implies (after[k].objects().contains_key(x) <==> (orig[k].objects().contains_key(x)
            || placed_at(maps, first, i + 1, k, x))) by {
        if k != maps[i] {
            assert(after.get(k) == before.get(k));
            assert(before[k].objects().contains_key(x) <==> (orig[k].objects().contains_key(x)
                || placed_at(maps, first, i, k, x)));
        } else {
            assert(before[k].objects().contains_key(x) <==> (orig[k].objects().contains_key(x)
                || placed_at(maps, first, i, k, x)));
        }
    }
    assert forall|k: u16, x: u32| #![trigger after[k].objects()[x]]
        orig.contains_key(k) && placed_at(maps, first, i + 1, k, x) implies made(x, after[k].objects()[x]) by {
        if x == id {
        } else {
            assert(placed_at(maps, first, i, k, x));
            assert(made(x, before[k].objects()[x]));
            if k != maps[i] {
                assert(after.get(k) == before.get(k));
            }
        }
    }
    assert forall|k: u16, x: u32| #![trigger after[k].objects()[x]]
        orig.contains_key(k) && !placed_at(maps, first, i + 1, k, x) && orig[k].objects().contains_key(x)
            implies after[k].objects()[x] == orig[k].objects()[x] by {
        assert(before[k].objects()[x] == orig[k].objects()[x]);
        if k != maps[i] {
            assert(after.get(k) == before.get(k));
        }
    }
}

/// The maps on which the npcs of `spawns` stand
pub open spec fn npc_maps(spawns: Seq<NpcSpawn>) -> Seq<u16> {
    spawns.map_values(|s: NpcSpawn| s.location.map)
}

/// The maps on which the monsters of `spawns` are put
pub open spec fn monster_maps(spawns: Seq<MonsterSpawn>) -> Seq<u16> {
    spawns.map_values(|s: MonsterSpawn| s.location.map)
}

/// What the world sends to the client of a player
#[derive(Debug, PartialEq)]
pub enum WorldResponse {
    /// A packet for the client
    ServerPacket(ServerPacket),
    /// The inventory of the player, one entry for each item
    Inventory(Vec<InventoryElement>),
    /// The client id handed out to a newly registered client
    NewClientId(u32),
    /// A numbered message of the client's own text table, with the texts filled into it
    Message { ty: u16, msgs: Vec<String> },
    /// A change of an item in the inventory
    InventoryMod(InventoryUpdate),
    /// A new description of an item in the inventory
    InventoryDescription { id: u32, description: String },
}

/// Represents the world for a server
pub struct WorldState {
    /// The users logged into the world, by client id
    pub users: HashMap<u32, String>,
    /// The id generator for users
    pub client_ids: ClientList,
    /// The object id for each player, by client id
    pub characters: HashMap<u32, WorldObjectId>,
    /// Where each object is, by object id
    pub object_ref_table: HashMap<u32, ObjectRef>,
    /// maps of the world
    pub maps: HashMap<u16, GameMap>,
    /// dynamic information for all maps
    pub map_info: HashMap<u16, MapInfo>,
    /// The item lookup table
    pub item_table: HashMap<u32, Item>,
    /// The npc lookup table
    pub npc_table: HashMap<u32, NpcDefinition>,
    /// The object for generating object ids
    pub id_generator: WorldIdGenerator,
}

impl WorldState {
    /// Every map holds each object under its own id, and the client ids form a finite set
    pub open spec fn wf(&self) -> bool {
        &&& forall|k: u16| #[trigger] self.map_info@.contains_key(k) ==> self.map_info@[k].wf()
        &&& self.client_ids.wf()
    }

    /// An empty world whose object ids start at `first_id`
    pub fn new(first_id: u32) -> (w: WorldState)
        ensures
            w.wf(),
            w.users@ == Map::<u32, String>::empty(),
            w.client_ids@.ids == Set::<u32>::empty(),
            w.map_info@ == Map::<u16, MapInfo>::empty(),
            w.maps@ == Map::<u16, GameMap>::empty(),
            w.item_table@ == Map::<u32, Item>::empty(),
            w.id_generator.next() == first_id,
    {
        WorldState {
            users: HashMap::new(),
            client_ids: ClientList::new(),
            characters: HashMap::new(),
            object_ref_table: HashMap::new(),
            maps: HashMap::new(),
            map_info: HashMap::new(),
            item_table: HashMap::new(),
            npc_table: HashMap::new(),
            id_generator: WorldIdGenerator::new(first_id),
        }
    }

    /// Add a map; a map seen before keeps the objects on it
    pub fn add_map(&mut self, m: GameMap)
        requires
            old(self).wf(),
        ensures
            final(self).wf(),
            final(self).maps@ == old(self).maps@.insert(m.id, m),
            final(self).map_info@.dom() == old(self).map_info@.dom().insert(m.id),
            old(self).map_info@.contains_key(m.id) ==> final(self).map_info@ == old(self).map_info@,
            !old(self).map_info@.contains_key(m.id) ==> final(self).map_info@[m.id].objects()
                == Map::<u32, Object>::empty(),
            forall|k: u16| k != m.id ==> #[trigger] final(self).map_info@.get(k) == old(self).map_info@.get(k),
    {
        let id = m.id;
        if !self.map_info.contains_key(&id) {
            self.map_info.insert(id, MapInfo::new());
        }
        self.maps.insert(id, m);
    }

    /// Add a weapon definition to the item table, as an item with a new world id
    pub fn add_weapon(&mut self, w: &Weapon)
        requires
            old(self).id_generator.next() < u32::MAX,
        ensures
            final(self).id_generator.next() == old(self).id_generator.next() + 1,
            final(self).item_table@ == old(self).item_table@.insert(
                w.id,
                Item::Weapon(
                    (WeaponInstance {
                        definition: *w,
                        world_id: WorldObjectId(old(self).id_generator.next()),
                        bonus: WeaponStatus::Normal,
                        enchanted: 0,
                    }),
                ),
            ),
            final(self).map_info@ == old(self).map_info@,
            final(self).client_ids == old(self).client_ids,
    {
        let i = w.get_instance(self.id_generator.new_id());
        self.item_table.insert(w.id, Item::Weapon(i));
    }

    /// Add a definition of a miscellaneous item to the item table, with a new world id
    pub fn add_etc_item(&mut self, e: &EtcItem)
        requires
            old(self).id_generator.next() < u32::MAX,
        ensures
            final(self).id_generator.next() == old(self).id_generator.next() + 1,
            final(self).item_table@ == old(self).item_table@.insert(
                e.id,
                Item::Etc(
                    (EtcItemInstance { definition: *e, world_id: WorldObjectId(old(self).id_generator.next()) }),
                ),
            ),
            final(self).map_info@ == old(self).map_info@,
            final(self).client_ids == old(self).client_ids,
    {
        let i = e.get_instance(self.id_generator.new_id());
        self.item_table.insert(e.id, Item::Etc(i));
    }

    /// Add an armor definition to the item table, with a new world id
    pub fn add_armor(&mut self, a: &Armor)
        requires
            old(self).id_generator.next() < u32::MAX,
        ensures
            final(self).id_generator.next() == old(self).id_generator.next() + 1,
            final(self).item_table@ == old(self).item_table@.insert(
                a.id,
                Item::Armor(
                    (ArmorInstance { definition: *a, world_id: WorldObjectId(old(self).id_generator.next()) }),
                ),
            ),
            final(self).map_info@ == old(self).map_info@,
            final(self).client_ids == old(self).client_ids,
    {
        let i = a.get_instance(self.id_generator.new_id());
        self.item_table.insert(a.id, Item::Armor(i));
    }

    /// Put an object on the map it is on, if the world has that map
    pub fn place(&mut self, o: Object)
        requires
            old(self).wf(),
        ensures
            final(self).wf(),
            final(self).map_info@.dom() == old(self).map_info@.dom(),
            old(self).map_info@.contains_key(object_location(o).map) ==> final(self).map_info@[object_location(o).map].objects()
                == old(self).map_info@[object_location(o).map].objects().insert(object_id(o).0, o),
            forall|k: u16| k != object_location(o).map ==> #[trigger] final(self).map_info@.get(k)
                == old(self).map_info@.get(k),
            !old(self).map_info@.contains_key(object_location(o).map) ==> final(self).map_info@
                == old(self).map_info@,
            final(self).id_generator == old(self).id_generator,
            final(self).client_ids == old(self).client_ids,
            final(self).npc_table@ == old(self).npc_table@,
            final(self).item_table@ == old(self).item_table@,
            final(self).users@ == old(self).users@,
    {
        let m = o.get_location().map;
        match self.map_info.remove(&m) {
            Some(mut info) => {
                info.add_new_object(o);
                self.map_info.insert(m, info);
                assert(self.map_info@.dom() =~= old(self).map_info@.dom());
            },
            None => {},
        }
    }

    /// Place the npcs of the spawn table, each with a new world id, on their maps
    pub fn spawn_npcs(&mut self, spawns: &Vec<NpcSpawn>)
        requires
            old(self).wf(),
            old(self).id_generator.next() + spawns@.len() <= u32::MAX,
            forall|i: int| 0 <= i < spawns@.len() ==> old(self).npc_table@.contains_key(
                #[trigger] spawns@[i].npc_definition,
            ),
        ensures
            final(self).wf(),
            final(self).id_generator.next() == old(self).id_generator.next() + spawns@.len(),
            spawned_into(
                old(self).map_info@,
                final(self).map_info@,
                npc_maps(spawns@),
                old(self).id_generator.next() as int,
                spawns@.len() as int,
                npc_made(spawns@, old(self).id_generator.next() as int, old(self).npc_table@),
            ),
            final(self).npc_table@ == old(self).npc_table@,
            final(self).item_table@ == old(self).item_table@,
            final(self).users@ == old(self).users@,
            final(self).client_ids == old(self).client_ids,
    {
        let ghost first = old(self).id_generator.next() as int;
        let ghost made = npc_made(spawns@, first, old(self).npc_table@);
        let ghost maps = npc_maps(spawns@);
        let mut i: usize = 0;
        while i < spawns.len()
            invariant
                i <= spawns.len(),
                self.wf(),
                first == old(self).id_generator.next(),
                maps == npc_maps(spawns@),
                made == npc_made(spawns@, first, old(self).npc_table@),
                self.id_generator.next() == first + i,
                first + spawns@.len() <= u32::MAX,
                spawned_into(old(self).map_info@, self.map_info@, maps, first, i as int, made),
                self.npc_table@ == old(self).npc_table@,
                self.item_table@ == old(self).item_table@,
                self.users@ == old(self).users@,
                self.client_ids == old(self).client_ids,
                forall|j: int| 0 <= j < spawns@.len() ==> self.npc_table@.contains_key(
                    #[trigger] spawns@[j].npc_definition,
                ),
            decreases spawns.len() - i,
        {
            let id = self.id_generator.new_id();
            let npc = spawns[i].make_npc(id, &self.npc_table);
            let ghost before = self.map_info@;
            let ghost o = Object::GenericNpc(npc);
            self.place(Object::GenericNpc(npc));
            proof {
                lemma_spawn_step(old(self).map_info@, before, self.map_info@, maps, first, i as int, made, o);
            }
            i = i + 1;
        }
    }

    /// Make a monster for each entry of the monster spawn table, each with a new world id,
    /// and place them on their maps; the monsters made are also handed back so that their
    /// tasks can be started
    pub fn spawn_monsters(&mut self, spawns: &Vec<MonsterSpawn>) -> (ids: Vec<WorldObjectId>)
        requires
            old(self).wf(),
            old(self).id_generator.next() + spawns@.len() <= u32::MAX,
            forall|i: int| 0 <= i < spawns@.len() ==> old(self).npc_table@.contains_key(
                #[trigger] spawns@[i].npc_definition,
            ),
            forall|i: int| 0 <= i < spawns@.len() ==> scatter_in_range(#[trigger] spawns@[i]),
        ensures
            final(self).wf(),
            ids@.len() == spawns@.len(),
            forall|i: int| 0 <= i < ids@.len() ==> (#[trigger] ids@[i]).0 == old(self).id_generator.next() + i,
            final(self).id_generator.next() == old(self).id_generator.next() + spawns@.len(),
            spawned_into(
                old(self).map_info@,
                final(self).map_info@,
                monster_maps(spawns@),
                old(self).id_generator.next() as int,
                spawns@.len() as int,
                monster_made(spawns@, old(self).id_generator.next() as int, old(self).npc_table@),
            ),
            final(self).npc_table@ == old(self).npc_table@,
            final(self).item_table@ == old(self).item_table@,
            final(self).users@ == old(self).users@,
            final(self).client_ids == old(self).client_ids,
    {
        let ghost first = old(self).id_generator.next() as int;
        let ghost made = monster_made(spawns@, first, old(self).npc_table@);
        let ghost maps = monster_maps(spawns@);
        let mut ids: Vec<WorldObjectId> = Vec::new();
        let mut i: usize = 0;
        while i < spawns.len()
            invariant
                i <= spawns.len(),
                self.wf(),
                first == old(self).id_generator.next(),
                maps == monster_maps(spawns@),
                made == monster_made(spawns@, first, old(self).npc_table@),
                ids@.len() == i,
                forall|j: int| 0 <= j < i ==> (#[trigger] ids@[j]).0 == old(self).id_generator.next() + j,
                self.id_generator.next() == old(self).id_generator.next() + i,
                old(self).id_generator.next() + spawns@.len() <= u32::MAX,
                spawned_into(old(self).map_info@, self.map_info@, maps, first, i as int, made),
                self.npc_table@ == old(self).npc_table@,
                self.item_table@ == old(self).item_table@,
                self.users@ == old(self).users@,
                self.client_ids == old(self).client_ids,
                forall|j: int| 0 <= j < spawns@.len() ==> self.npc_table@.contains_key(
                    #[trigger] spawns@[j].npc_definition,
                ),
                forall|j: int| 0 <= j < spawns@.len() ==> scatter_in_range(#[trigger] spawns@[j]),
            decreases spawns.len() - i,
        {
            let id = self.id_generator.new_id();
            let m = spawns[i].make_monster(id, &self.npc_table);
            ids.push(id);
            let ghost before = self.map_info@;
            let ghost o = Object::Monster(m);
            self.place(Object::Monster(m));
            proof {
                lemma_spawn_step(old(self).map_info@, before, self.map_info@, maps, first, i as int, made, o);
            }
            i = i + 1;
        }
        ids
    }

    /// Insert a character id into the world
    pub fn insert_id(&mut self, id: u32, account: String)
        ensures
            final(self).users@ == old(self).users@.insert(id, account),
            final(self).client_ids == old(self).client_ids,
            final(self).map_info@ == old(self).map_info@,
    {
        self.users.insert(id, account);
    }

    /// lookup account name from user id
    pub fn lookup_id(&self, id: u32) -> (r: Option<String>)
        ensures
            match r {
                Some(a) => self.users@.contains_key(id) && a@ == self.users@[id]@,
                None => !self.users@.contains_key(id),
            },
    {
        match self.users.get(&id) {
            Some(a) => Some(a.clone()),
            None => None,
        }
    }

    /// Register a new user: a free client id is handed out
    pub fn register_user(&mut self) -> (id: u32)
        requires
            old(self).wf(),
            old(self).client_ids@.ids.len() < 0x1_0000_0000,
        ensures
            final(self).wf(),
            handed_out(old(self).client_ids@, final(self).client_ids@, id),
            final(self).users@ == old(self).users@,
            final(self).map_info@ == old(self).map_info@,
    {
        self.client_ids.new_entry()
    }

    /// Unregister a user: its client id is freed and it is no longer logged in
    pub fn unregister_user(&mut self, uid: u32)
        requires
            old(self).wf(),
        ensures
            final(self).wf(),
            final(self).client_ids@.ids == old(self).client_ids@.ids.remove(uid),
            final(self).users@ == old(self).users@.remove(uid),
            final(self).map_info@ == old(self).map_info@,
    {
        self.client_ids.remove_entry(uid);
        self.users.remove(&uid);
    }

    /// Get the number of players currently in the world (modulo 65536)
    pub fn get_number_players(&self) -> (n: u16)
        ensures
            n == self.users@.len() % 0x10000,
    {
        let l = self.users.len();
        (l % 0x10000) as u16
    }

    /// Get a new object id
    pub fn new_object_id(&mut self) -> (r: WorldObjectId)
        requires
            old(self).id_generator.next() < u32::MAX,
        ensures
            r.0 == old(self).id_generator.next(),
            final(self).id_generator.next() == old(self).id_generator.next() + 1,
            final(self).map_info@ == old(self).map_info@,
            final(self).client_ids == old(self).client_ids,
    {
        self.id_generator.new_id()
    }

    /// Get a location of an object reference
    pub fn get_location(&self, r: ObjectRef) -> (l: Option<Location>)
        ensures
            match l {
                Some(x) => self.map_info@.contains_key(r.spec_map()) && self.map_info@[r.spec_map()].objects().contains_key(
                    r.spec_id().0,
                ) && x == object_location(self.map_info@[r.spec_map()].objects()[r.spec_id().0]),
                None => !(self.map_info@.contains_key(r.spec_map()) && self.map_info@[r.spec_map()].objects().contains_key(
                    r.spec_id().0,
                )),
            },
    {
        match self.map_info.get(&r.map()) {
            Some(m) => m.get_location(r),
            None => None,
        }
    }

    /// The message to the top of the server for a shutdown or restart command of the object
    /// `r`, when it may shut the server down
    pub fn shutdown(&self, r: ObjectRef, restart: bool) -> (m: Option<ServerShutdownMessage>)
        ensures
            m is Some ==> self.map_info@.contains_key(r.spec_map()),
            self.map_info@.contains_key(r.spec_map()) ==> {
                let objs = self.map_info@[r.spec_map()].objects();
                &&& m is Some <==> objs.contains_key(r.spec_id().0) && (objs[r.spec_id().0] matches Object::Player(
                    p,
                ) && p.access_level == 200)
            },
            m matches Some(x) ==> x == (if restart {
                ServerShutdownMessage::Restart
            } else {
                ServerShutdownMessage::Shutdown
            }),
    {
        match self.map_info.get(&r.map()) {
            Some(m) => shutdown_request(m, r, restart),
            None => None,
        }
    }

    /// Remove a player from the world; the reference is cleared
    pub fn remove_player(&mut self, r: &mut Option<ObjectRef>)
        requires
            old(self).wf(),
        ensures
            final(self).wf(),
            *final(r) is None,
            final(self).map_info@.dom() == old(self).map_info@.dom(),
            match *old(r) {
                Some(x) => {
                    &&& old(self).map_info@.contains_key(x.spec_map()) ==> removed_from(
                        old(self).map_info@[x.spec_map()].objects(),
                        final(self).map_info@[x.spec_map()].objects(),
                        x.spec_id().0,
                    )
                    &&& forall|k: u16| k != x.spec_map() ==> #[trigger] final(self).map_info@.get(k)
                        == old(self).map_info@.get(k)
                },
                None => final(self).map_info@ == old(self).map_info@,
            },
            final(self).users@ == old(self).users@,
            final(self).client_ids == old(self).client_ids,
            final(self).id_generator == old(self).id_generator,
    {
        match *r {
            Some(x) => {
                let m = x.map();
                match self.map_info.remove(&m) {
                    Some(mut info) => {
                        info.remove_object(x.world_id());
                        self.map_info.insert(m, info);
                        assert(self.map_info@.dom() =~= old(self).map_info@.dom());
                    },
                    None => {},
                }
            },
            None => {},
        }
        *r = None;
    }

    /// Add a player to the world, with the hit point bar `hp_bar` that its own client shows.
    /// What goes to its client first: its details, its map, the packet that shows it, its
    /// inventory, its spell power and magic resistance, the weather. The player is placed on
    /// its map when the world has that map, and its reference is handed back then.
    pub fn add_player(&mut self, p: FullCharacter, hp_bar: u8) -> (r: (
        Option<ObjectRef>,
        Vec<WorldResponse>,
    ))
        requires
            old(self).wf(),
        ensures
            final(self).wf(),
            r.1@.len() == 6,
            r.1@[0] == WorldResponse::ServerPacket(details_packet_of(p)),
            r.1@[1] == WorldResponse::ServerPacket(ServerPacket::MapId(p.details.location.map, 0)),
            r.1@[2] matches WorldResponse::ServerPacket(op) && is_own_object_packet(op, p, hp_bar),
            r.1@[3] matches WorldResponse::Inventory(v) && is_inventory_of(v@, p.items@),
            r.1@[4] == WorldResponse::ServerPacket(ServerPacket::CharSpMrBonus { sp: 0, mr: 0 }),
            r.1@[5] == WorldResponse::ServerPacket(ServerPacket::Weather(0)),
            final(self).map_info@.dom() == old(self).map_info@.dom(),
            old(self).map_info@.contains_key(p.details.location.map) ==> (r.0 matches Some(x)
                && x.spec_map() == p.details.location.map && x.spec_id() == p.world_id
                && final(self).map_info@[p.details.location.map].objects() == old(self).map_info@[p.details.location.map].objects().insert(
                p.world_id.0,
                Object::Player(p),
            )),
            forall|k: u16| k != p.details.location.map ==> #[trigger] final(self).map_info@.get(k)
                == old(self).map_info@.get(k),
            !old(self).map_info@.contains_key(p.details.location.map) ==> r.0 is None
                && final(self).map_info@ == old(self).map_info@,
            final(self).users@ == old(self).users@,
            final(self).client_ids == old(self).client_ids,
            final(self).id_generator == old(self).id_generator,
    {
        let mut packets: Vec<WorldResponse> = Vec::new();
        packets.push(WorldResponse::ServerPacket(p.details_packet()));
        packets.push(WorldResponse::ServerPacket(p.get_map_packet()));
        packets.push(WorldResponse::ServerPacket(p.get_object_packet(hp_bar)));
        packets.push(WorldResponse::Inventory(p.inventory_list()));
        packets.push(WorldResponse::ServerPacket(ServerPacket::CharSpMrBonus { sp: 0, mr: 0 }));
        packets.push(WorldResponse::ServerPacket(ServerPacket::Weather(0)));
        let location = p.get_location();
        let id = p.id();
        let known = self.map_info.contains_key(&location.map);
        self.place(Object::Player(p));
        if known {
            (Some(ObjectRef::new(location.map, id)), packets)
        } else {
            (None, packets)
        }
    }
}

} // verus!
