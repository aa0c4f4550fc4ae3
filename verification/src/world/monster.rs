//! Monsters in the world

use crate::character::Location;
use crate::server_packet::ServerPacket;
use crate::world::npc::{is_put_creature, put_creature_packet, NpcDefinition};
use crate::world::object::BasicObjectType;
use crate::world::events::{heading_dx, heading_dy, move_from_target};
use crate::world::{ObjectRef, WorldObjectId};
use rand::Rng;
use std::collections::{HashMap, HashSet};
use vstd::std_specs::hash::spec_hash_keys_iter;
use vstd::std_specs::iter::IteratorSpec;
use vstd::prelude::*;

verus! {

broadcast use vstd::std_specs::hash::group_hash_axioms;

/// A number drawn at random from `lo` up to, but not including, `hi`
/// (`rand::Rng::gen_range` on the thread's generator). Claimed: the number is in that range;
/// which number comes out is left open.
#[verifier::external_body]
pub(crate) fn random_in(lo: u16, hi: u16) -> (r: u16)
    requires
        lo < hi,
    ensures
        lo <= r < hi,
{
    rand::thread_rng().gen_range(lo..hi)
}

/// How a monster spawn places its monsters
#[derive(Clone, Copy, Debug, PartialEq, Eq, Structural)]
pub enum SpawnType {
    Normal,
    NearPlayer,
}

/// The spawn type with the stored code `v`
pub open spec fn spawn_type_of_code(v: u8) -> Option<SpawnType> {
    if v == 0 {
        Some(SpawnType::Normal)
    } else if v == 1 {
        Some(SpawnType::NearPlayer)
    } else {
        None
    }
}

impl SpawnType {
    /// The spawn type with the stored code `value`; an unknown code is refused
    pub fn try_from_code(value: u8) -> (r: Result<SpawnType, String>)
        ensures
            r matches Ok(t) ==> spawn_type_of_code(value) == Some(t),
            r is Err <==> spawn_type_of_code(value) is None,
    {
        if value == 0 {
            Ok(SpawnType::Normal)
        } else if value == 1 {
            Ok(SpawnType::NearPlayer)
        } else {
            Err("Invalid monster spawn type".to_owned())
        }
    }
}

/// Where and how many monsters of a kind are placed in the world
#[derive(Debug)]
pub struct MonsterSpawn {
    pub id: u32,
    pub count: u16,
    pub npc_definition: u32,
    pub location: Location,
    pub randomx: u16,
    pub randomy: u16,
    pub coord1: (u16, u16),
    pub coord2: (u16, u16),
    pub respawn_delay: (u32, u32),
    pub spawn_type: SpawnType,
}

impl Clone for MonsterSpawn {
    fn clone(&self) -> (r: MonsterSpawn)
        ensures
            r == *self,
    {
        MonsterSpawn {
            id: self.id,
            count: self.count,
            npc_definition: self.npc_definition,
            location: self.location,
            randomx: self.randomx,
            randomy: self.randomy,
            coord1: self.coord1,
            coord2: self.coord2,
            respawn_delay: self.respawn_delay,
            spawn_type: self.spawn_type,
        }
    }
}

/// The smaller of two coordinates
pub open spec fn low(c: (u16, u16)) -> u16 {
    if c.0 < c.1 { c.0 } else { c.1 }
}

/// The larger of two coordinates
pub open spec fn high(c: (u16, u16)) -> u16 {
    if c.0 < c.1 { c.1 } else { c.0 }
}

/// Does the spawn place its monsters anywhere in a rectangle?
pub open spec fn spawns_in_area(s: MonsterSpawn) -> bool {
    s.coord1.0 != s.coord1.1 && s.coord2.0 != s.coord2.1
}

/// Does the spawn scatter its monsters around its location?
pub open spec fn spawns_scattered(s: MonsterSpawn) -> bool {
    !spawns_in_area(s) && s.randomx != 0 && s.randomy != 0
}

/// Can every scattering of the spawn be computed without leaving the coordinate range?
pub open spec fn scatter_in_range(s: MonsterSpawn) -> bool {
    spawns_scattered(s) ==> {
        &&& s.location.x + s.randomx - 1 <= u16::MAX
        &&& s.location.x >= s.randomx - 1
        &&& s.location.y + s.randomy - 1 <= u16::MAX
        &&& s.location.y >= s.randomy - 1
    }
}

/// The random numbers drawn for placing a monster
pub struct SpawnRolls {
    pub a: u16,
    pub b: u16,
    pub c: u16,
    pub d: u16,
}

/// Are the rolls possible for the spawn? For an area the first two are the coordinates, drawn
/// from the lower coordinate up to the higher one (exclusive); for scattering all four are
/// drawn below the scatter distance (x forward, x back, y forward, y back)
pub open spec fn rolls_fit(s: MonsterSpawn, r: SpawnRolls) -> bool {
    if spawns_in_area(s) {
        low(s.coord1) <= r.a < high(s.coord1) && low(s.coord2) <= r.b < high(s.coord2)
    } else if spawns_scattered(s) {
        r.a < s.randomx && r.b < s.randomx && r.c < s.randomy && r.d < s.randomy
    } else {
        true
    }
}

/// Where a monster of the spawn is placed with the given rolls
pub open spec fn placement(s: MonsterSpawn, r: SpawnRolls) -> Location {
    if spawns_in_area(s) {
        Location { x: r.a, y: r.b, ..s.location }
    } else if spawns_scattered(s) {
        Location {
            x: (s.location.x + r.a - r.b) as u16,
            y: (s.location.y + r.c - r.d) as u16,
            ..s.location
        }
    } else {
        s.location
    }
}

/// Is `m` a monster of the spawn `s` with the world id `id`, as the definitions `npcs`
/// describe it: placed as some possible roll of the spawn places it, with the definition's
/// looks and name?
pub open spec fn is_monster_of(
    m: Monster,
    s: MonsterSpawn,
    id: WorldObjectId,
    npcs: Map<u32, NpcDefinition>,
) -> bool {
    &&& exists|r: SpawnRolls| rolls_fit(s, r) && m.location == placement(s, r)
    &&& m.id == id
    &&& m.alignment == npcs[s.npc_definition].alignment
    &&& m.icon == npcs[s.npc_definition].graphics_id
    &&& m.name@ == npcs[s.npc_definition].name@
    &&& m.light_size == npcs[s.npc_definition].light_size
    &&& m.spawn == s
}

/// Where a spawn places its monsters, for every possible roll: on the spawn's map, facing the
/// spawn's direction; where both coordinate pairs of the spawn differ, anywhere in the
/// rectangle between them (the larger bound excluded); otherwise, where both scatter distances
/// are above zero, less than those distances from the spawn's place in x and y; otherwise at
/// the spawn's place
pub proof fn lemma_spawn_placement(s: MonsterSpawn, r: SpawnRolls)
    requires
        rolls_fit(s, r),
        scatter_in_range(s),
    ensures
        ({
            let l = placement(s, r);
            let (a1, a2) = s.coord1;
            let (b1, b2) = s.coord2;
            &&& l.map == s.location.map && l.direction == s.location.direction
            &&& a1 != a2 && b1 != b2 ==> {
                &&& (a1 <= l.x < a2 || a2 <= l.x < a1)
                &&& (b1 <= l.y < b2 || b2 <= l.y < b1)
            }
            &&& !(a1 != a2 && b1 != b2) && s.randomx != 0 && s.randomy != 0 ==> {
                &&& s.location.x - s.randomx < l.x < s.location.x + s.randomx
                &&& s.location.y - s.randomy < l.y < s.location.y + s.randomy
            }
            &&& !(a1 != a2 && b1 != b2) && !(s.randomx != 0 && s.randomy != 0) ==> l == s.location
        }),
{
}

impl MonsterSpawn {
    /// A spawn as stored, with its spawn type as a code; an unknown code is refused
    pub fn from_stored(
        id: u32,
        count: u16,
        npc_definition: u32,
        x: u16,
        y: u16,
        map: u16,
        direction: u8,
        randomx: u16,
        randomy: u16,
        coord1: (u16, u16),
        coord2: (u16, u16),
        respawn_delay: (u32, u32),
        spawn_type: u8,
    ) -> (r: Option<MonsterSpawn>)
        ensures
            r is Some <==> spawn_type_of_code(spawn_type) is Some,
            r matches Some(s) ==> s == (MonsterSpawn {
                id,
                count,
                npc_definition,
                location: Location { x, y, map, direction },
                randomx,
                randomy,
                coord1,
                coord2,
                respawn_delay,
                spawn_type: spawn_type_of_code(spawn_type)->0,
            }),
    {
        match SpawnType::try_from_code(spawn_type) {
            Ok(t) => Some(
                MonsterSpawn {
                    id,
                    count,
                    npc_definition,
                    location: Location { x, y, map, direction },
                    randomx,
                    randomy,
                    coord1,
                    coord2,
                    respawn_delay,
                    spawn_type: t,
                },
            ),
            Err(_) => None,
        }
    }

    /// The map of the spawn
    pub fn map(&self) -> (m: u16)
        ensures
            m == self.location.map,
    {
        self.location.map
    }

    /// Where a monster of the spawn is placed with the given rolls
    pub fn place(&self, r: &SpawnRolls) -> (l: Location)
        requires
            scatter_in_range(*self),
            rolls_fit(*self, *r),
        ensures
            l == placement(*self, *r),
    {
        let mut location = self.location;
        if self.coord1.0 != self.coord1.1 && self.coord2.0 != self.coord2.1 {
            location.x = r.a;
            location.y = r.b;
        } else if self.randomx != 0 && self.randomy != 0 {
            location.x = location.x + r.a;
            location.x = location.x - r.b;
            location.y = location.y + r.c;
            location.y = location.y - r.d;
        }
        location
    }

    /// Draw the rolls for placing a monster of the spawn
    pub fn roll(&self) -> (r: SpawnRolls)
        ensures
            rolls_fit(*self, r),
    {
        if self.coord1.0 != self.coord1.1 && self.coord2.0 != self.coord2.1 {
            let (l1, h1) = if self.coord1.0 < self.coord1.1 {
                (self.coord1.0, self.coord1.1)
            } else {
                (self.coord1.1, self.coord1.0)
            };
            let a = random_in(l1, h1);
            let (l2, h2) = if self.coord2.0 < self.coord2.1 {
                (self.coord2.0, self.coord2.1)
            } else {
                (self.coord2.1, self.coord2.0)
            };
            let b = random_in(l2, h2);
            SpawnRolls { a, b, c: 0, d: 0 }
        } else if self.randomx != 0 && self.randomy != 0 {
            let a = random_in(0, self.randomx);
            let b = random_in(0, self.randomx);
            let c = random_in(0, self.randomy);
            let d = random_in(0, self.randomy);
            SpawnRolls { a, b, c, d }
        } else {
            SpawnRolls { a: 0, b: 0, c: 0, d: 0 }
        }
    }

    /// Make a monster of this spawn with the world id `id`, from its definition in `npcs`,
    /// which must hold it, placed at random as the spawn says
    pub fn make_monster(&self, id: WorldObjectId, npcs: &HashMap<u32, NpcDefinition>) -> (m:
        Monster)
        requires
            npcs@.contains_key(self.npc_definition),
            scatter_in_range(*self),
        ensures
            is_monster_of(m, *self, id, npcs@),
            m.location.map == self.location.map,
    {
        let npc = npcs.get(&self.npc_definition).unwrap();
        let rolls = self.roll();
        let location = self.place(&rolls);
        Monster {
            id,
            location,
            alignment: npc.alignment,
            icon: npc.graphics_id,
            name: npc.name.clone(),
            light_size: npc.light_size,
            spawn: self.clone(),
        }
    }
}

/// A monster in the world
#[derive(Debug)]
pub struct Monster {
    /// The object id for the monster
    pub id: WorldObjectId,
    /// Where the monster currently exists
    pub location: Location,
    /// The monster name
    pub name: String,
    /// the monster alignment
    pub alignment: i16,
    /// The size of light emitted by the monster
    pub light_size: u8,
    /// the icon for displaying the monster
    pub icon: u16,
    /// The spawner
    pub spawn: MonsterSpawn,
}

impl Monster {
    /// Where the monster is
    pub fn get_location(&self) -> (l: Location)
        ensures
            l == self.location,
    {
        self.location
    }

    /// Move the monster
    pub fn set_location(&mut self, l: Location)
        ensures
            final(self).location == l,
            final(self).id == old(self).id,
    {
        self.location = l;
    }

    /// The world id of the monster
    pub fn id(&self) -> (i: WorldObjectId)
        ensures
            i == self.id,
    {
        self.id
    }

    /// The name of the monster
    pub fn object_name(&self) -> (n: String)
        ensures
            n@ == self.name@,
    {
        self.name.clone()
    }

    /// Monsters are not players: they have no player name
    pub fn player_name(&self) -> (n: Option<String>)
        ensures
            n is None,
    {
        None
    }

    /// Monsters get no other hit rate bonus
    pub fn other_hit_rate_bonus(&self) -> (r: i16)
        ensures
            r == 0,
    {
        0
    }

    /// The critical hit and critical miss values of monsters
    pub fn critical_hit_miss_values(&self) -> (r: (i16, i16))
        ensures
            r == (0i16, 19i16),
    {
        (0, 19)
    }

    /// Monsters get no hit bonus for strength
    pub fn str_attack_hit_bonus(&self) -> (r: i8)
        ensures
            r == 0,
    {
        0
    }

    /// Monsters get no hit bonus for dexterity
    pub fn dex_attack_hit_bonus(&self) -> (r: i8)
        ensures
            r == 0,
    {
        0
    }

    /// Monsters get no hit rate bonus
    pub fn hit_rate_bonus(&self) -> (r: i16)
        ensures
            r == 0,
    {
        0
    }

    /// Monsters get no ranged hit rate bonus
    pub fn ranged_hit_rate_bonus(&self) -> (r: i16)
        ensures
            r == 0,
    {
        0
    }

    /// The base attack rate of monsters
    pub fn base_attack_rate(&self) -> (r: i16)
        ensures
            r == 1,
    {
        1
    }

    /// The armor class of monsters
    pub fn armor_class(&self) -> (r: i8)
        ensures
            r == 0,
    {
        0
    }

    /// The weight a monster can carry
    pub fn max_weight(&self) -> (r: u32)
        ensures
            r == 1,
    {
        1
    }

    /// Monsters are attacked as monsters
    pub fn attack_type(&self) -> (r: BasicObjectType)
        ensures
            r == BasicObjectType::Monster,
    {
        BasicObjectType::Monster
    }

    /// Build a packet for placing the monster on the map for a user
    pub fn build_put_object_packet(&self) -> (p: ServerPacket)
        ensures
            is_put_creature(
                p,
                self.id,
                self.location,
                self.icon,
                self.light_size,
                self.alignment,
                self.name@,
            ),
    {
        put_creature_packet(self.id, self.location, self.icon, self.light_size, self.alignment, &self.name)
    }
}

/// What the task that runs a monster knows: where it is, which objects it sees and where, and
/// which objects attacked it
pub struct MonsterMind {
    /// The monster in the world
    pub reference: ObjectRef,
    /// Where the monster is
    pub location: Location,
    /// The client id of the monster, once the world gave it one
    pub id: Option<u32>,
    /// The objects the monster sees, and where
    pub objects: HashMap<u32, Location>,
    /// The objects that attacked the monster
    pub attacks: HashSet<u32>,
}

/// Can the monster step in every direction from `l` without leaving the coordinate range?
pub open spec fn inside_edges(l: Location) -> bool {
    1 <= l.x < u16::MAX && 1 <= l.y < u16::MAX
}

impl MonsterMind {
    /// The mind of a monster that knows nothing yet
    pub fn new(reference: ObjectRef, location: Location) -> (m: MonsterMind)
        ensures
            m.reference == reference,
            m.location == location,
            m.id is None,
            m.objects@ == Map::<u32, Location>::empty(),
            m.attacks@ == Set::<u32>::empty(),
    {
        MonsterMind { reference, location, id: None, objects: HashMap::new(), attacks: HashSet::new() }
    }

    /// An attack by `attacker` on `target` was seen; when the monster is the target, it
    /// remembers the attacker and says so (the result)
    pub fn on_attack(&mut self, attacker: u32, target: u32) -> (shout: bool)
        ensures
            shout == (target == old(self).reference.spec_id().0),
            shout ==> final(self).attacks@ == old(self).attacks@.insert(attacker),
            !shout ==> final(self).attacks@ == old(self).attacks@,
            final(self).objects@ == old(self).objects@,
            final(self).location == old(self).location,
            final(self).reference == old(self).reference,
            final(self).id == old(self).id,
    {
        if self.reference.world_id().0 == target {
            self.attacks.insert(attacker);
            true
        } else {
            false
        }
    }

    /// The object `id` was seen at `(x, y)` facing `direction`, on the monster's map
    pub fn on_object_at(&mut self, id: u32, x: u16, y: u16, direction: u8)
        ensures
            final(self).objects@ == old(self).objects@.insert(
                id,
                Location { x, y, map: old(self).location.map, direction },
            ),
            final(self).attacks@ == old(self).attacks@,
            final(self).location == old(self).location,
            final(self).reference == old(self).reference,
            final(self).id == old(self).id,
    {
        let l = Location { x, y, map: self.location.map, direction };
        self.objects.insert(id, l);
    }

    /// The object `id` went out of sight
    pub fn on_object_removed(&mut self, id: u32)
        ensures
            final(self).objects@ == old(self).objects@.remove(id),
            final(self).attacks@ == old(self).attacks@,
            final(self).location == old(self).location,
            final(self).reference == old(self).reference,
            final(self).id == old(self).id,
    {
        self.objects.remove(&id);
    }

    /// The world gave the monster the client id `id`; only the first id is taken, and then
    /// the monster is to be registered with the world (the result)
    pub fn on_client_id(&mut self, id: u32) -> (register: bool)
        ensures
            register == old(self).id is None,
            register ==> final(self).id == Some(id),
            !register ==> final(self).id == old(self).id,
            final(self).objects@ == old(self).objects@,
            final(self).attacks@ == old(self).attacks@,
            final(self).location == old(self).location,
    {
        if self.id.is_none() {
            self.id = Some(id);
            true
        } else {
            false
        }
    }

    /// An attacker that the monster sees, if there is one
    pub fn find_target(&self) -> (t: Option<u32>)
        ensures
            match t {
                Some(x) => self.attacks@.contains(x) && self.objects@.contains_key(x),
                None => forall|x: u32| self.attacks@.contains(x) ==> !self.objects@.contains_key(x),
            },
    {
        let ghost keys = spec_hash_keys_iter(&self.attacks).remaining().unref();
        for x in it: self.attacks.iter()
            invariant
                it.seq().unref() == keys,
                keys.to_set() == self.attacks@,
                forall|j: int| 0 <= j < it.index() ==> !self.objects@.contains_key(#[trigger] keys[j]),
        {
            assert(keys[it.index()] == *x);
            if self.objects.contains_key(x) {
                return Some(*x);
            }
        }
        proof {
            assert forall|x: u32| self.attacks@.contains(x) implies !self.objects@.contains_key(x) by {
                assert(keys.to_set().contains(x));
                let j = choose|j: int| 0 <= j < keys.len() && keys[j] == x;
                assert(!self.objects@.contains_key(keys[j]));
            }
        }
        None
    }

    /// Take one step with the heading `direction` (a heading above 7 stays in place but still
    /// turns the monster); the result is where the monster was, which the world is told as the
    /// start of the move
    pub fn step(&mut self, direction: u8) -> (from: (u16, u16))
        requires
            0 <= old(self).location.x + heading_dx(direction) <= u16::MAX,
            0 <= old(self).location.y + heading_dy(direction) <= u16::MAX,
        ensures
            from == (old(self).location.x, old(self).location.y),
            final(self).location == (Location {
                x: (old(self).location.x + heading_dx(direction)) as u16,
                y: (old(self).location.y + heading_dy(direction)) as u16,
                map: old(self).location.map,
                direction,
            }),
            final(self).objects@ == old(self).objects@,
            final(self).attacks@ == old(self).attacks@,
            final(self).reference == old(self).reference,
            final(self).id == old(self).id,
    {
        let x = self.location.x;
        let y = self.location.y;
        let (x2, y2) = move_from_target(x, y, direction);
        self.location = Location { x: x2, y: y2, map: self.location.map, direction };
        (x, y)
    }

    /// Wander: take one step in a random direction
    pub fn wander(&mut self) -> (from: (u16, u16))
        requires
            inside_edges(old(self).location),
        ensures
            from == (old(self).location.x, old(self).location.y),
            final(self).location.direction < 8,
            final(self).location.x == old(self).location.x + heading_dx(final(self).location.direction),
            final(self).location.y == old(self).location.y + heading_dy(final(self).location.direction),
            final(self).location.map == old(self).location.map,
            final(self).objects@ == old(self).objects@,
            final(self).attacks@ == old(self).attacks@,
    {
        let direction = random_in(0, 8) as u8;
        self.step(direction)
    }
}

} // verus!
