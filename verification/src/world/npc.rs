//! Non player characters

use crate::character::Location;
use crate::server_packet::ServerPacket;
use crate::world::object::{BasicObjectType, Effect};
use crate::world::item::weapon::WeaponInstance;
use crate::world::WorldObjectId;
use std::collections::HashMap;
use vstd::prelude::*;

verus! {

broadcast use vstd::std_specs::hash::group_hash_axioms;

/// The definition of a kind of npc
#[derive(Debug)]
pub struct NpcDefinition {
    pub id: u32,
    pub name: String,
    pub graphics_id: u16,
    pub light_size: u8,
    pub alignment: i16,
    pub max_hp: u16,
    pub max_mp: u16,
}

/// Is `p` the packet that places an object of the given kind on the map of a client? Npcs and
/// monsters show as level 54 with 1235 experience, a full hit point bar, no title and no
/// pledge.
pub open spec fn is_put_creature(
    p: ServerPacket,
    id: WorldObjectId,
    location: Location,
    icon: u16,
    light_size: u8,
    alignment: i16,
    name: Seq<char>,
) -> bool {
    p matches ServerPacket::PutObject {
        x,
        y,
        id: pid,
        icon: picon,
        status,
        direction,
        light,
        speed,
        xp,
        alignment: palign,
        name: pname,
        title,
        status2,
        pledgeid,
        pledgename,
        unknown,
        v1,
        hp_bar,
        v2,
        v3,
    } && x == location.x && y == location.y && pid == id.0 && picon == icon && status == 0
        && direction == location.direction && light == light_size && speed == 50 && xp == 1235
        && palign == alignment as u16 && pname@ == name && title@.len() == 0 && status2 == 0
        && pledgeid == 0 && pledgename@.len() == 0 && unknown@.len() == 0 && v1 == 0 && hp_bar
        == 255 && v2 == 0 && v3 == 54
}

/// Build the packet that places a creature on the map of a client
pub(crate) fn put_creature_packet(
    id: WorldObjectId,
    location: Location,
    icon: u16,
    light_size: u8,
    alignment: i16,
    name: &String,
) -> (p: ServerPacket)
    ensures
        is_put_creature(p, id, location, icon, light_size, alignment, name@),
{
    ServerPacket::PutObject {
        x: location.x,
        y: location.y,
        id: id.0,
        icon,
        status: 0,
        direction: location.direction,
        light: light_size,
        speed: 50,
        xp: 1235,
        alignment: alignment as u16,
        name: name.clone(),
        title: String::new(),
        status2: 0,
        pledgeid: 0,
        pledgename: String::new(),
        unknown: String::new(),
        v1: 0,
        hp_bar: 255,
        v2: 0,
        v3: 54,
    }
}

/// Where and how many npcs of a kind are placed in the world
#[derive(Debug)]
pub struct NpcSpawn {
    pub id: u32,
    pub count: u8,
    pub npc_definition: u32,
    pub location: Location,
    pub randomx: u16,
    pub randomy: u16,
    pub respawn_delay: u32,
    pub distance: u32,
}

/// Is `n` the npc of the spawn `s` with the world id `id`, as the definitions `npcs` describe
/// it: at the spawn's place, with the definition's looks and name, and no effects?
pub open spec fn is_npc_of(n: Npc, s: NpcSpawn, id: WorldObjectId, npcs: Map<u32, NpcDefinition>) -> bool {
    &&& n.id == id
    &&& n.location == s.location
    &&& n.alignment == npcs[s.npc_definition].alignment
    &&& n.icon == npcs[s.npc_definition].graphics_id
    &&& n.name@ == npcs[s.npc_definition].name@
    &&& n.light_size == npcs[s.npc_definition].light_size
    &&& n.effects@.len() == 0
}

impl NpcSpawn {
    /// A spawn as stored
    pub fn from_stored(
        id: u32,
        count: u8,
        npc_definition: u32,
        x: u16,
        y: u16,
        map: u16,
        direction: u8,
        randomx: u16,
        randomy: u16,
        respawn_delay: u32,
        distance: u32,
    ) -> (s: NpcSpawn)
        ensures
            s == (NpcSpawn {
                id,
                count,
                npc_definition,
                location: Location { x, y, map, direction },
                randomx,
                randomy,
                respawn_delay,
                distance,
            }),
    {
        NpcSpawn {
            id,
            count,
            npc_definition,
            location: Location { x, y, map, direction },
            randomx,
            randomy,
            respawn_delay,
            distance,
        }
    }

    /// Make the npc of this spawn with the world id `id`, from its definition in `npcs`, which
    /// must hold it
    pub fn make_npc(&self, id: WorldObjectId, npcs: &HashMap<u32, NpcDefinition>) -> (n: Npc)
        requires
            npcs@.contains_key(self.npc_definition),
        ensures
            is_npc_of(n, *self, id, npcs@),
    {
        let npc = npcs.get(&self.npc_definition).unwrap();
        Npc {
            id,
            location: self.location,
            alignment: npc.alignment,
            icon: npc.graphics_id,
            name: npc.name.clone(),
            light_size: npc.light_size,
            effects: Vec::new(),
        }
    }
}

/// A non player character in the world
#[derive(Debug)]
pub struct Npc {
    pub id: WorldObjectId,
    pub location: Location,
    pub name: String,
    pub alignment: i16,
    pub light_size: u8,
    pub icon: u16,
    /// The effects on the npc, each at most once
    pub effects: Vec<Effect>,
}

impl Npc {
    /// Where the npc is
    pub fn get_location(&self) -> (l: Location)
        ensures
            l == self.location,
    {
        self.location
    }

    /// Move the npc
    pub fn set_location(&mut self, l: Location)
        ensures
            final(self).location == l,
            final(self).id == old(self).id,
    {
        self.location = l;
    }

    /// The world id of the npc
    pub fn id(&self) -> (i: WorldObjectId)
        ensures
            i == self.id,
    {
        self.id
    }

    /// Npcs are not players: they have no player name
    pub fn player_name(&self) -> (n: Option<String>)
        ensures
            n is None,
    {
        None
    }

    /// The name of the npc
    pub fn object_name(&self) -> (n: String)
        ensures
            n@ == self.name@,
    {
        self.name.clone()
    }

    /// The damage an npc receives of an attack: the low end of the attack's damage range
    pub fn compute_received_damage(&self, d: (u16, u16)) -> (r: u16)
        ensures
            r == d.0,
    {
        d.0
    }

    /// The damage range of an attack of the npc: none yet
    pub fn compute_max_attack_damage(&self, _weapon: Option<&WeaponInstance>) -> (r: (u16, u16))
        ensures
            r == (0u16, 0u16),
    {
        (0, 0)
    }

    /// Npcs take no damage yet
    pub fn apply_damage(&mut self, _dmg: u16)
        ensures
            *final(self) == *old(self),
    {
    }

    /// Npcs are never polymorphed
    pub fn get_polymorph(&self) -> (r: Option<u32>)
        ensures
            r is None,
    {
        None
    }

    /// Npcs get no damage bonus for dexterity
    pub fn dex_attack_dmg_bonus(&self) -> (r: i8)
        ensures
            r == 0,
    {
        0
    }

    /// Npcs get no damage bonus for strength
    pub fn str_attack_dmg_bonus(&self) -> (r: i8)
        ensures
            r == 0,
    {
        0
    }

    /// Npcs never run out of ammunition
    pub fn use_weapon_ammunition(&mut self) -> (b: bool)
        ensures
            b,
            *final(self) == *old(self),
    {
        true
    }

    /// Npcs do not evade
    pub fn get_evasive_rating(&self) -> (r: u8)
        ensures
            r == 0,
    {
        0
    }

    /// The effects on the npc
    pub fn get_effects(&self) -> (e: &Vec<Effect>)
        ensures
            e@ == self.effects@,
    {
        &self.effects
    }

    /// Npcs get no other hit rate bonus
    pub fn other_hit_rate_bonus(&self) -> (r: i16)
        ensures
            r == 0,
    {
        0
    }

    /// The critical hit and critical miss values of npcs
    pub fn critical_hit_miss_values(&self) -> (r: (i16, i16))
        ensures
            r == (0i16, 19i16),
    {
        (0, 19)
    }

    /// Npcs get no hit bonus for strength
    pub fn str_attack_hit_bonus(&self) -> (r: i8)
        ensures
            r == 0,
    {
        0
    }

    /// Npcs get no hit bonus for dexterity
    pub fn dex_attack_hit_bonus(&self) -> (r: i8)
        ensures
            r == 0,
    {
        0
    }

    /// Npcs wield no weapon
    pub fn weapon(&self) -> (w: Option<&WeaponInstance>)
        ensures
            w is None,
    {
        None
    }

    /// Npcs get no hit rate bonus
    pub fn hit_rate_bonus(&self) -> (r: i16)
        ensures
            r == 0,
    {
        0
    }

    /// Npcs get no ranged hit rate bonus
    pub fn ranged_hit_rate_bonus(&self) -> (r: i16)
        ensures
            r == 0,
    {
        0
    }

    /// The base attack rate of npcs
    pub fn base_attack_rate(&self) -> (r: i16)
        ensures
            r == 1,
    {
        1
    }

    /// The weight an npc can carry
    pub fn max_weight(&self) -> (r: u32)
        ensures
            r == 1,
    {
        1
    }

    /// The armor class of npcs
    pub fn armor_class(&self) -> (r: i8)
        ensures
            r == 0,
    {
        0
    }

    /// Npcs are attacked as npcs
    pub fn attack_type(&self) -> (r: BasicObjectType)
        ensures
            r == BasicObjectType::Npc,
    {
        BasicObjectType::Npc
    }

    /// Build a packet for placing the npc on the map for a user
    pub fn build_put_object_packet(&self) -> (p: ServerPacket)
        ensures
            is_put_creature(
                p,
                self.id,
                self.location,
                self.icon,
                self.light_size,
                self.alignment,
                self.name@,
            ),
    {
        put_creature_packet(self.id, self.location, self.icon, self.light_size, self.alignment, &self.name)
    }
}

} // verus!
