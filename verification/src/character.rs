//! Code for representing characters played by users

use crate::server_packet::ServerPacket;
use crate::world::item::{
    is_inventory_element_of, item_name, item_usage, populated, InventoryElement, Item, ItemInstance,
    ItemInstanceWithoutDefinition, ItemStuff, ItemUsage,
};
use crate::world::map_info::keys_of;
use crate::world::object::ObjectList;
use crate::world::{GameMap, WorldObjectId};
use std::collections::HashMap;
use vstd::prelude::*;

verus! {

/// The location on a specific map for an object
#[derive(Copy, Clone, Debug, PartialEq, Eq, Structural)]
pub struct Location {
    /// The x coordinate
    pub x: u16,
    /// The y coordinate
    pub y: u16,
    /// The map id
    pub map: u16,
    /// The direction that is being faced
    pub direction: u8,
}

/// The change of the x coordinate for one step in the direction `d` (0 faces +y, then clockwise
/// in steps of 45 degrees toward -x); a direction above 7 does not move
pub open spec fn step_dx(d: u8) -> int {
    if d == 1 || d == 2 || d == 3 {
        -1
    } else if d == 5 || d == 6 || d == 7 {
        1
    } else {
        0
    }
}

/// The change of the y coordinate for one step in the direction `d`
pub open spec fn step_dy(d: u8) -> int {
    if d == 0 || d == 1 || d == 7 {
        1
    } else if d == 3 || d == 4 || d == 5 {
        -1
    } else {
        0
    }
}

/// Does one step from `l` in the direction it faces stay within the coordinate range?
pub open spec fn step_in_range(l: Location) -> bool {
    &&& 0 <= l.x + step_dx(l.direction) <= u16::MAX
    &&& 0 <= l.y + step_dy(l.direction) <= u16::MAX
}

/// The distance between two coordinates
pub open spec fn coord_diff(a: u16, b: u16) -> int {
    if a >= b { a - b } else { b - a }
}

/// The manhattan distance between two locations
pub open spec fn manhattan(a: Location, b: Location) -> int {
    coord_diff(a.x, b.x) + coord_diff(a.y, b.y)
}

/// The square of the straight line distance between two locations
pub open spec fn squared_distance(a: Location, b: Location) -> int {
    coord_diff(a.x, b.x) * coord_diff(a.x, b.x) + coord_diff(a.y, b.y) * coord_diff(a.y, b.y)
}

/// The square of the distance (17) below which two objects see each other
pub const VIEW_RANGE_SQUARED: u64 = 289;

fn abs_diff(a: u16, b: u16) -> (r: u16)
    ensures
        r == coord_diff(a, b),
{
    if a >= b {
        a - b
    } else {
        b - a
    }
}

impl Location {
    /// Compute the location for a move packet: one step in the direction being faced
    pub fn compute_for_move(&self) -> (r: Location)
        requires
            step_in_range(*self),
        ensures
            r.x == self.x + step_dx(self.direction),
            r.y == self.y + step_dy(self.direction),
            r.map == self.map,
            r.direction == self.direction,
    {
        match self.direction {
            0 => Location { x: self.x, y: self.y + 1, map: self.map, direction: self.direction },
            1 => Location { x: self.x - 1, y: self.y + 1, map: self.map, direction: self.direction },
            2 => Location { x: self.x - 1, y: self.y, map: self.map, direction: self.direction },
            3 => Location { x: self.x - 1, y: self.y - 1, map: self.map, direction: self.direction },
            4 => Location { x: self.x, y: self.y - 1, map: self.map, direction: self.direction },
            5 => Location { x: self.x + 1, y: self.y - 1, map: self.map, direction: self.direction },
            6 => Location { x: self.x + 1, y: self.y, map: self.map, direction: self.direction },
            7 => Location { x: self.x + 1, y: self.y + 1, map: self.map, direction: self.direction },
            _ => *self,
        }
    }

    /// Calculates the manhattan distance between two map points
    pub fn manhattan_distance(&self, l2: &Location) -> (r: u16)
        requires
            manhattan(*self, *l2) <= u16::MAX,
        ensures
            r == manhattan(*self, *l2),
    {
        let d1 = abs_diff(self.x, l2.x);
        let d2 = abs_diff(self.y, l2.y);
        d1 + d2
    }

    /// The square of the straight line distance to the specified location.
    /// This assumes the objects are already on the same map
    pub fn distance_squared(&self, l2: &Location) -> (r: u64)
        ensures
            r == squared_distance(*self, *l2),
    {
        let dx = abs_diff(self.x, l2.x) as u64;
        let dy = abs_diff(self.y, l2.y) as u64;
        assert(dx * dx <= 0xffff * 0xffff) by (nonlinear_arith)
            requires
                dx <= 0xffff,
        ;
        assert(dy * dy <= 0xffff * 0xffff) by (nonlinear_arith)
            requires
                dy <= 0xffff,
        ;
        dx * dx + dy * dy
    }

    /// Is the straight line distance to `l2` less than 17, the range within which objects see
    /// each other? (The distance is below 17 exactly when its square is below 289.)
    pub fn within_view(&self, l2: &Location) -> (b: bool)
        ensures
            b == (squared_distance(*self, *l2) < VIEW_RANGE_SQUARED),
    {
        self.distance_squared(l2) < VIEW_RANGE_SQUARED
    }
}

/// The distances between two places: the manhattan distance is the sum of the differences
/// of the coordinates, and the squared distance the sum of their squares; both are zero
/// exactly for the same square, and neither depends on the order of the two places
pub proof fn lemma_distances(a: Location, b: Location)
    ensures
        manhattan(a, b) == (if a.x >= b.x { a.x - b.x } else { b.x - a.x }) + (if a.y >= b.y {
            a.y - b.y
        } else {
            b.y - a.y
        }),
        squared_distance(a, b) == (a.x - b.x) * (a.x - b.x) + (a.y - b.y) * (a.y - b.y),
        manhattan(a, b) == manhattan(b, a),
        squared_distance(a, b) == squared_distance(b, a),
        manhattan(a, b) == 0 <==> a.x == b.x && a.y == b.y,
        squared_distance(a, b) == 0 <==> a.x == b.x && a.y == b.y,
{
    let dx = a.x - b.x;
    let dy = a.y - b.y;
    assert(coord_diff(a.x, b.x) * coord_diff(a.x, b.x) == dx * dx) by (nonlinear_arith)
        requires
            coord_diff(a.x, b.x) == dx || coord_diff(a.x, b.x) == -dx,
    ;
    assert(coord_diff(a.y, b.y) * coord_diff(a.y, b.y) == dy * dy) by (nonlinear_arith)
        requires
            coord_diff(a.y, b.y) == dy || coord_diff(a.y, b.y) == -dy,
    ;
    assert(dx * dx >= 0 && dy * dy >= 0) by (nonlinear_arith);
    assert(dx * dx == 0 <==> dx == 0) by (nonlinear_arith);
    assert(dy * dy == 0 <==> dy == 0) by (nonlinear_arith);
    assert(coord_diff(b.x, a.x) == coord_diff(a.x, b.x));
    assert(coord_diff(b.y, a.y) == coord_diff(a.y, b.y));
}

/// One step in a direction from 0 to 7 moves to one of the eight neighbouring squares, and a
/// move in any other direction stays in place; the map and the direction never change
pub proof fn lemma_move_one_step(l: Location, r: Location)
    requires
        step_in_range(l),
        r.x == l.x + step_dx(l.direction),
        r.y == l.y + step_dy(l.direction),
        r.map == l.map,
        r.direction == l.direction,
    ensures
        l.direction < 8 ==> coord_diff(l.x, r.x) <= 1 && coord_diff(l.y, r.y) <= 1 && 1
            <= manhattan(l, r) <= 2,
        l.direction >= 8 ==> r == l,
        r.map == l.map,
{
}

/// Seeing is mutual: two locations are within view of each other or not, whichever is asked
pub proof fn lemma_view_symmetric(a: Location, b: Location)
    ensures
        squared_distance(a, b) == squared_distance(b, a),
        manhattan(a, b) == manhattan(b, a),
{
}

/// The possible classes for a character
#[derive(Clone, Copy, Debug, PartialEq, Eq, Structural)]
pub enum Class {
    /// Prince/princess
    Royal,
    /// Knight
    Knight,
    /// Elf
    Elf,
    /// Wizard
    Wizard,
    /// Dark Elf
    DarkElf,
    /// Dragon Knight
    DragonKnight,
    /// Illusionist
    Illusionist,
}

/// The number of a class, as the game client numbers them
pub open spec fn class_number(c: Class) -> u8 {
    match c {
        Class::Royal => 0,
        Class::Knight => 1,
        Class::Elf => 2,
        Class::Wizard => 3,
        Class::DarkElf => 4,
        Class::DragonKnight => 5,
        Class::Illusionist => 6,
    }
}

/// The class with the client number `v`, if there is one
pub open spec fn class_of_number(v: u8) -> Option<Class> {
    if v == 0 {
        Some(Class::Royal)
    } else if v == 1 {
        Some(Class::Knight)
    } else if v == 2 {
        Some(Class::Elf)
    } else if v == 3 {
        Some(Class::Wizard)
    } else if v == 4 {
        Some(Class::DarkElf)
    } else if v == 5 {
        Some(Class::DragonKnight)
    } else if v == 6 {
        Some(Class::Illusionist)
    } else {
        None
    }
}

/// The class with the database code `v`; each class has two codes (male and female)
pub open spec fn class_of_code(v: u16) -> Option<Class> {
    if v == 0 || v == 1 {
        Some(Class::Royal)
    } else if v == 48 || v == 61 {
        Some(Class::Knight)
    } else if v == 37 || v == 138 {
        Some(Class::Elf)
    } else if v == 734 || v == 1186 {
        Some(Class::Wizard)
    } else if v == 2786 || v == 2796 {
        Some(Class::DarkElf)
    } else if v == 6658 || v == 6661 {
        Some(Class::DragonKnight)
    } else if v == 6650 || v == 6671 {
        Some(Class::Illusionist)
    } else {
        None
    }
}

/// The hit points a new character of class `c` starts with
pub open spec fn class_initial_hp(c: Class) -> u16 {
    match c {
        Class::Royal => 14,
        Class::Knight => 16,
        Class::Elf => 15,
        Class::Wizard => 12,
        Class::DarkElf => 12,
        Class::DragonKnight => 15,
        Class::Illusionist => 15,
    }
}

/// The mana points a new character of class `c` with wisdom `w` starts with
pub open spec fn class_initial_mp(c: Class, w: u8) -> u16 {
    match c {
        Class::Royal => if 12 <= w <= 15 { 3 } else if 16 <= w <= 18 { 4 } else { 2 },
        Class::Knight => if 12 <= w <= 13 { 2 } else { 1 },
        Class::Elf => if 16 <= w <= 18 { 6 } else { 4 },
        Class::Wizard => if 16 <= w <= 18 { 8 } else { 6 },
        Class::DarkElf => if 12 <= w <= 15 { 4 } else if 16 <= w <= 18 { 6 } else { 3 },
        Class::DragonKnight => if 16 <= w <= 18 { 6 } else { 4 },
        Class::Illusionist => if 16 <= w <= 18 { 6 } else { 4 },
    }
}

impl Class {
    /// Get the initial hp for classes
    pub fn initial_hp(&self, _con: u8) -> (r: u16)
        ensures
            r == class_initial_hp(*self),
    {
        match self {
            Class::Royal => 14,
            Class::Knight => 16,
            Class::Elf => 15,
            Class::Wizard => 12,
            Class::DarkElf => 12,
            Class::DragonKnight => 15,
            Class::Illusionist => 15,
        }
    }

    /// Get the initial mp
    pub fn initial_mp(&self, wisdom: u8) -> (r: u16)
        ensures
            r == class_initial_mp(*self, wisdom),
    {
        match self {
            Class::Royal => if 12 <= wisdom && wisdom <= 15 {
                3
            } else if 16 <= wisdom && wisdom <= 18 {
                4
            } else {
                2
            },
            Class::Knight => if 12 <= wisdom && wisdom <= 13 {
                2
            } else {
                1
            },
            Class::Elf => if 16 <= wisdom && wisdom <= 18 {
                6
            } else {
                4
            },
            Class::Wizard => if 16 <= wisdom && wisdom <= 18 {
                8
            } else {
                6
            },
            Class::DarkElf => if 12 <= wisdom && wisdom <= 15 {
                4
            } else if 16 <= wisdom && wisdom <= 18 {
                6
            } else {
                3
            },
            Class::DragonKnight => if 16 <= wisdom && wisdom <= 18 {
                6
            } else {
                4
            },
            Class::Illusionist => if 16 <= wisdom && wisdom <= 18 {
                6
            } else {
                4
            },
        }
    }

    /// The number of the class, as the game client numbers them
    pub fn number(&self) -> (r: u8)
        ensures
            r == class_number(*self),
    {
        match self {
            Class::Royal => 0,
            Class::Knight => 1,
            Class::Elf => 2,
            Class::Wizard => 3,
            Class::DarkElf => 4,
            Class::DragonKnight => 5,
            Class::Illusionist => 6,
        }
    }

    /// The class with the client number `value`
    pub fn try_from_number(value: u8) -> (r: Result<Class, ()>)
        ensures
            r matches Ok(c) ==> class_of_number(value) == Some(c),
            r is Err <==> class_of_number(value) is None,
    {
        match value {
            0 => Ok(Class::Royal),
            1 => Ok(Class::Knight),
            2 => Ok(Class::Elf),
            3 => Ok(Class::Wizard),
            4 => Ok(Class::DarkElf),
            5 => Ok(Class::DragonKnight),
            6 => Ok(Class::Illusionist),
            _ => Err(()),
        }
    }

    /// The class with the database code `value`
    pub fn try_from_code(value: u16) -> (r: Result<Class, ()>)
        ensures
            r matches Ok(c) ==> class_of_code(value) == Some(c),
            r is Err <==> class_of_code(value) is None,
    {
        match value {
            0 | 1 => Ok(Class::Royal),
            48 | 61 => Ok(Class::Knight),
            37 | 138 => Ok(Class::Elf),
            734 | 1186 => Ok(Class::Wizard),
            2786 | 2796 => Ok(Class::DarkElf),
            6658 | 6661 => Ok(Class::DragonKnight),
            6650 | 6671 => Ok(Class::Illusionist),
            _ => Err(()),
        }
    }
}

/// A class read back from its client number is the same class
pub proof fn lemma_class_number_roundtrip(c: Class)
    ensures
        class_of_number(class_number(c)) == Some(c),
{
}

/// The extra details for a character to go from Character to FullCharacter
#[derive(Copy, Clone, Debug)]
pub struct ExtraCharacterDetails {
    /// Character experience
    pub exp: u32,
    /// Current hitpoint amount
    pub curr_hp: u16,
    /// Current mana point amount
    pub curr_mp: u16,
    /// time?
    pub time: u32,
    /// Food level
    pub food: u8,
    /// Amount of weight the player is carrying
    pub weight: u8,
    /// Fire resistance
    pub fire_resist: u8,
    /// Water resistance
    pub water_resist: u8,
    /// Wind resistance
    pub wind_resist: u8,
    /// Earth resist
    pub earth_resist: u8,
    /// Location
    pub location: Location,
    /// The last place the character was
    pub old_location: Option<Location>,
}

impl ExtraCharacterDetails {
    /// The details of a character as stored: a character loaded from storage faces direction
    /// 5 and has no previous location
    pub fn from_stored(
        exp: u32,
        curr_hp: u16,
        curr_mp: u16,
        time: u32,
        food: u8,
        weight: u8,
        fire_resist: u8,
        water_resist: u8,
        wind_resist: u8,
        earth_resist: u8,
        x: u16,
        y: u16,
        map: u16,
    ) -> (d: ExtraCharacterDetails)
        ensures
            d.exp == exp && d.curr_hp == curr_hp && d.curr_mp == curr_mp && d.time == time,
            d.food == food && d.weight == weight,
            d.fire_resist == fire_resist && d.water_resist == water_resist,
            d.wind_resist == wind_resist && d.earth_resist == earth_resist,
            d.location == (Location { x, y, map, direction: 5 }),
            d.old_location is None,
    {
        ExtraCharacterDetails {
            exp,
            curr_hp,
            curr_mp,
            time,
            food,
            weight,
            fire_resist,
            water_resist,
            wind_resist,
            earth_resist,
            location: Location { x, y, map, direction: 5 },
            old_location: None,
        }
    }
}

/// What a character is made of
pub struct CharacterView {
    pub account_name: Seq<char>,
    pub access_level: u16,
    pub name: Seq<char>,
    pub id: u32,
    pub alignment: i16,
    pub level: u8,
    pub pledge: Seq<char>,
    pub class: Class,
    pub gender: u8,
    pub hp_max: u16,
    pub mp_max: u16,
    pub ac: i8,
    pub strength: u8,
    pub dexterity: u8,
    pub constitution: u8,
    pub wisdom: u8,
    pub charisma: u8,
    pub intelligence: u8,
}

/// Represents a playable character in the game
#[derive(Debug)]
pub struct Character {
    /// The account name for the character
    account_name: String,
    /// The access level of the character, 200 = Admin, 100 = monitor
    access_level: u16,
    /// The name of the character
    name: String,
    /// The id of the character in the database
    id: u32,
    /// The alignment of the character
    alignment: i16,
    /// The level of the character
    level: u8,
    /// The pledge name of the character (empty string if no pledge)
    pledge: String,
    /// The class of character
    class: Class,
    /// The gender
    gender: u8,
    /// The current max hp
    hp_max: u16,
    /// The current mp max
    mp_max: u16,
    /// Current armor class
    ac: i8,
    /// Character strength
    strength: u8,
    /// Character dexterity
    dexterity: u8,
    /// Character constitution
    constitution: u8,
    /// Character wisdom
    wisdom: u8,
    /// Character charisma
    charisma: u8,
    /// Character intelligence
    intelligence: u8,
}

impl View for Character {
    type V = CharacterView;

    closed spec fn view(&self) -> CharacterView {
        CharacterView {
            account_name: self.account_name@,
            access_level: self.access_level,
            name: self.name@,
            id: self.id,
            alignment: self.alignment,
            level: self.level,
            pledge: self.pledge@,
            class: self.class,
            gender: self.gender,
            hp_max: self.hp_max,
            mp_max: self.mp_max,
            ac: self.ac,
            strength: self.strength,
            dexterity: self.dexterity,
            constitution: self.constitution,
            wisdom: self.wisdom,
            charisma: self.charisma,
            intelligence: self.intelligence,
        }
    }
}

/// Is `n` acceptable as the name of a character?
pub open spec fn valid_character_name(n: Seq<char>) -> bool {
    n.len() > 0
}

impl Character {
    /// Is the player name valid?
    pub fn valid_name(n: &str) -> (b: bool)
        ensures
            b == valid_character_name(n@),
    {
        !n.is_empty()
    }

    /// Get the player name
    pub fn name(&self) -> (n: &str)
        ensures
            n@ == self@.name,
    {
        self.name.as_str()
    }

    /// Get the account name of the character
    pub fn account_name(&self) -> (n: &str)
        ensures
            n@ == self@.account_name,
    {
        self.account_name.as_str()
    }

    /// Get the id of the character in the database
    pub fn id(&self) -> (i: u32)
        ensures
            i == self@.id,
    {
        self.id
    }

    /// Get the player alignment
    pub fn alignment(&self) -> (a: i16)
        ensures
            a == self@.alignment,
    {
        self.alignment
    }

    /// Get the level of the character
    pub fn level(&self) -> (l: u8)
        ensures
            l == self@.level,
    {
        self.level
    }

    /// The access level of the character (200 for administrators)
    pub fn access_level(&self) -> (r: u16)
        ensures
            r == self@.access_level,
    {
        self.access_level
    }

    /// The gender of the character
    pub fn gender(&self) -> (r: u8)
        ensures
            r == self@.gender,
    {
        self.gender
    }

    /// The maximum hit points of the character
    pub fn hp_max(&self) -> (r: u16)
        ensures
            r == self@.hp_max,
    {
        self.hp_max
    }

    /// The maximum mana points of the character
    pub fn mp_max(&self) -> (r: u16)
        ensures
            r == self@.mp_max,
    {
        self.mp_max
    }

    /// The armor class of the character
    pub fn ac(&self) -> (r: i8)
        ensures
            r == self@.ac,
    {
        self.ac
    }

    /// The strength of the character
    pub fn strength(&self) -> (r: u8)
        ensures
            r == self@.strength,
    {
        self.strength
    }

    /// The dexterity of the character
    pub fn dexterity(&self) -> (r: u8)
        ensures
            r == self@.dexterity,
    {
        self.dexterity
    }

    /// The constitution of the character
    pub fn constitution(&self) -> (r: u8)
        ensures
            r == self@.constitution,
    {
        self.constitution
    }

    /// The wisdom of the character
    pub fn wisdom(&self) -> (r: u8)
        ensures
            r == self@.wisdom,
    {
        self.wisdom
    }

    /// The charisma of the character
    pub fn charisma(&self) -> (r: u8)
        ensures
            r == self@.charisma,
    {
        self.charisma
    }

    /// The intelligence of the character
    pub fn intelligence(&self) -> (r: u8)
        ensures
            r == self@.intelligence,
    {
        self.intelligence
    }

    /// The pledge of the character (empty when it has none)
    pub fn pledge(&self) -> (p: &str)
        ensures
            p@ == self@.pledge,
    {
        self.pledge.as_str()
    }

    /// The class of the character
    pub fn class(&self) -> (c: Class)
        ensures
            c == self@.class,
    {
        self.class
    }

    /// The class of the character as stored: its client number
    pub fn class_code(&self) -> (c: u16)
        ensures
            c == class_number(self@.class),
    {
        self.class.number() as u16
    }

    /// Does there need to be a waiting period to delete the character?
    pub fn needs_delete_waiting(&self) -> (b: bool)
        ensures
            b == (self@.level >= 30),
    {
        self.level >= 30
    }

    /// Set the id of the character in the database, as storing a new character does
    pub fn set_id(&mut self, id: u32)
        ensures
            final(self)@ == (CharacterView { id, ..old(self)@ }),
    {
        self.id = id;
    }

    /// Roll a new character: a level 1 character with armor class 10, no pledge, alignment 0
    /// and access level 0, whose hit and mana points are the starting ones of its class.
    /// There is none when the name is empty or the class number unknown.
    pub fn new(
        account_name: String,
        id: u32,
        name: String,
        class: u8,
        gender: u8,
        strength: u8,
        dex: u8,
        con: u8,
        wis: u8,
        cha: u8,
        intelligence: u8,
    ) -> (r: Option<Character>)
        ensures
            r is Some <==> valid_character_name(name@) && class_of_number(class) is Some,
            r matches Some(c) ==> c@ == (CharacterView {
                account_name: account_name@,
                access_level: 0,
                name: name@,
                id,
                alignment: 0,
                level: 1,
                pledge: Seq::empty(),
                class: class_of_number(class)->0,
                gender,
                hp_max: class_initial_hp(class_of_number(class)->0),
                mp_max: class_initial_mp(class_of_number(class)->0, wis),
                ac: 10,
                strength,
                dexterity: dex,
                constitution: con,
                wisdom: wis,
                charisma: cha,
                intelligence,
            }),
    {
        if !Self::valid_name(name.as_str()) {
            return None;
        }
        let class = match Class::try_from_number(class) {
            Ok(c) => c,
            Err(_) => {
                return None;
            },
        };
        let hp_max = class.initial_hp(con);
        let mp_max = class.initial_mp(wis);
        Some(
            Character {
                account_name,
                name,
                access_level: 0,
                pledge: String::new(),
                id,
                alignment: 0,
                level: 1,
                class,
                gender,
                hp_max,
                mp_max,
                ac: 10,
                strength,
                dexterity: dex,
                constitution: con,
                wisdom: wis,
                charisma: cha,
                intelligence,
            },
        )
    }

    /// A character as stored, with its class as a database code; there is none when the
    /// code names no class
    pub fn from_stored(
        account_name: String,
        name: String,
        id: u32,
        alignment: i16,
        level: u8,
        pledge: String,
        class_code: u16,
        gender: u8,
        hp_max: u16,
        mp_max: u16,
        ac: i8,
        strength: u8,
        dexterity: u8,
        constitution: u8,
        wisdom: u8,
        charisma: u8,
        intelligence: u8,
        access_level: u16,
    ) -> (r: Option<Character>)
        ensures
            r is Some <==> class_of_code(class_code) is Some,
            r matches Some(c) ==> c@ == (CharacterView {
                account_name: account_name@,
                access_level,
                name: name@,
                id,
                alignment,
                level,
                pledge: pledge@,
                class: class_of_code(class_code)->0,
                gender,
                hp_max,
                mp_max,
                ac,
                strength,
                dexterity,
                constitution,
                wisdom,
                charisma,
                intelligence,
            }),
    {
        let class = match Class::try_from_code(class_code) {
            Ok(c) => c,
            Err(_) => {
                return None;
            },
        };
        Some(
            Character {
                account_name,
                access_level,
                name,
                id,
                alignment,
                level,
                pledge,
                class,
                gender,
                hp_max,
                mp_max,
                ac,
                strength,
                dexterity,
                constitution,
                wisdom,
                charisma,
                intelligence,
            },
        )
    }

    /// Construct a details packet for informing the user of a character they can log in with
    pub fn get_details_packet(&self) -> (p: ServerPacket)
        ensures
            p matches ServerPacket::LoginCharacterDetails {
                name,
                pledge,
                ctype,
                gender,
                alignment,
                hp,
                mp,
                ac,
                level,
                strength,
                dexterity,
                constitution,
                wisdom,
                charisma,
                intelligence,
            } && name@ == self@.name && pledge@ == self@.pledge && ctype == class_number(
                self@.class,
            ) && gender == self@.gender && alignment == self@.alignment as u16 && hp
                == self@.hp_max && mp == self@.mp_max && ac == self@.ac && level == self@.level
                && strength == self@.strength && dexterity == self@.dexterity && constitution
                == self@.constitution && wisdom == self@.wisdom && charisma == self@.charisma
                && intelligence == self@.intelligence,
    {
        ServerPacket::LoginCharacterDetails {
            name: self.name.clone(),
            pledge: self.pledge.clone(),
            ctype: self.class.number(),
            gender: self.gender,
            alignment: self.alignment as u16,
            hp: self.hp_max,
            mp: self.mp_max,
            ac: self.ac,
            level: self.level,
            strength: self.strength,
            dexterity: self.dexterity,
            constitution: self.constitution,
            wisdom: self.wisdom,
            charisma: self.charisma,
            intelligence: self.intelligence,
        }
    }

    /// Get a new character details packet, used when creating new characters
    pub fn get_new_char_details_packet(&self) -> (p: ServerPacket)
        ensures
            p matches ServerPacket::NewCharacterDetails {
                name,
                pledge,
                class,
                gender,
                alignment,
                hp,
                mp,
                ac,
                level,
                strength,
                dexterity,
                constitution,
                wisdom,
                charisma,
                intelligence,
            } && name@ == self@.name && pledge@ == self@.pledge && class == class_number(
                self@.class,
            ) && gender == self@.gender && alignment == self@.alignment && hp == self@.hp_max
                && mp == self@.mp_max && ac == self@.ac && level == self@.level && strength
                == self@.strength && dexterity == self@.dexterity && constitution
                == self@.constitution && wisdom == self@.wisdom && charisma == self@.charisma
                && intelligence == self@.intelligence,
    {
        ServerPacket::NewCharacterDetails {
            name: self.name.clone(),
            pledge: self.pledge.clone(),
            class: self.class.number(),
            gender: self.gender,
            alignment: self.alignment,
            hp: self.hp_max,
            mp: self.mp_max,
            ac: self.ac,
            level: self.level,
            strength: self.strength,
            dexterity: self.dexterity,
            constitution: self.constitution,
            wisdom: self.wisdom,
            charisma: self.charisma,
            intelligence: self.intelligence,
        }
    }
}

/// The items a character holds once their definitions are looked up in `table`: the items are
/// keyed by their item id, a later item replaces an earlier one with the same id, and an item
/// whose definition is not in the table is dropped
pub open spec fn full_items(items: Seq<ItemInstanceWithoutDefinition>, table: Map<u32, Item>) -> Map<
    u32,
    ItemInstance,
>
    decreases items.len(),
{
    if items.len() == 0 {
        Map::empty()
    } else {
        let prev = full_items(items.drop_last(), table);
        let i = items.last();
        match populated(i, table) {
            Some(x) => prev.insert(i.stuff.item_id, x),
            None => prev.remove(i.stuff.item_id),
        }
    }
}

/// Represents a partial playable character in the game: a character whose item definitions
/// are still to be looked up
#[derive(Debug)]
pub struct PartialCharacter {
    /// The character as stored
    pub character: Character,
    /// The world id of the character
    pub world_id: WorldObjectId,
    /// Extra details
    pub details: ExtraCharacterDetails,
    /// All the items the character holds, in the order in which they were stored
    pub items: Vec<ItemInstanceWithoutDefinition>,
}

/// Represents a complete playable character in the game
#[derive(Debug)]
pub struct FullCharacter {
    /// The account name for the character
    pub account_name: String,
    /// The name of the character
    pub name: String,
    /// The access level of the character, 200 = Admin, 100 = monitor
    pub access_level: u16,
    /// The id of the character in the database
    pub id: u32,
    /// The world id of the character
    pub world_id: WorldObjectId,
    /// The alignment of the character
    pub alignment: i16,
    /// The level of the character
    pub level: u8,
    /// The pledge name of the character (empty string if no pledge)
    pub pledge: String,
    /// The class of character
    pub class: Class,
    /// The gender
    pub gender: u8,
    /// The current max hp
    pub hp_max: u16,
    /// The current mp max
    pub mp_max: u16,
    /// Current armor class
    pub ac: i8,
    /// Character strength
    pub strength: u8,
    /// Character dexterity
    pub dexterity: u8,
    /// Character constitution
    pub constitution: u8,
    /// Character wisdom
    pub wisdom: u8,
    /// Character charisma
    pub charisma: u8,
    /// Character intelligence
    pub intelligence: u8,
    /// Extra details
    pub details: ExtraCharacterDetails,
    /// All the items the character holds, by item id
    pub items: HashMap<u32, ItemInstance>,
    /// The known objects for the character
    pub known_objects: ObjectList,
}

impl Character {
    /// The character in the world with the id `new_id`, with its stored details and items
    pub fn into_partial(
        self,
        new_id: WorldObjectId,
        details: ExtraCharacterDetails,
        items: Vec<ItemInstanceWithoutDefinition>,
    ) -> (p: PartialCharacter)
        ensures
            p.character@ == self@,
            p.world_id == new_id,
            p.details == details,
            p.items@ == items@,
    {
        PartialCharacter { character: self, world_id: new_id, details, items }
    }
}

impl PartialCharacter {
    /// Convert into a full character, looking up the item definitions in `item_table`; the
    /// character knows no objects yet
    pub fn into_full(self, item_table: &HashMap<u32, Item>) -> (f: FullCharacter)
        ensures
            f.account_name@ == self.character@.account_name,
            f.name@ == self.character@.name,
            f.access_level == self.character@.access_level,
            f.id == self.character@.id,
            f.world_id == self.world_id,
            f.alignment == self.character@.alignment,
            f.level == self.character@.level,
            f.pledge@ == self.character@.pledge,
            f.class == self.character@.class,
            f.gender == self.character@.gender,
            f.hp_max == self.character@.hp_max,
            f.mp_max == self.character@.mp_max,
            f.ac == self.character@.ac,
            f.strength == self.character@.strength,
            f.dexterity == self.character@.dexterity,
            f.constitution == self.character@.constitution,
            f.wisdom == self.character@.wisdom,
            f.charisma == self.character@.charisma,
            f.intelligence == self.character@.intelligence,
            f.details == self.details,
            f.items@ == full_items(self.items@, item_table@),
            f.known_objects@ == Set::<u32>::empty(),
    {
        let mut items: HashMap<u32, ItemInstance> = HashMap::new();
        let mut i: usize = 0;
        while i < self.items.len()
            invariant
                i <= self.items.len(),
                items@ == full_items(self.items@.subrange(0, i as int), item_table@),
            decreases self.items.len() - i,
        {
            let it = self.items[i];
            let key = it.stuff.item_id;
            proof {
                let s = self.items@.subrange(0, i + 1);
                assert(s.drop_last() =~= self.items@.subrange(0, i as int));
                assert(s.last() == it);
            }
            match it.populate_item_definition(item_table) {
                Some(x) => {
                    items.insert(key, x);
                },
                None => {
                    items.remove(&key);
                },
            }
            i = i + 1;
        }
        assert(self.items@.subrange(0, self.items.len() as int) =~= self.items@);
        let c = self.character;
        FullCharacter {
            account_name: c.account_name,
            name: c.name,
            access_level: c.access_level,
            id: c.id,
            world_id: self.world_id,
            alignment: c.alignment,
            level: c.level,
            pledge: c.pledge,
            class: c.class,
            gender: c.gender,
            hp_max: c.hp_max,
            mp_max: c.mp_max,
            ac: c.ac,
            strength: c.strength,
            dexterity: c.dexterity,
            constitution: c.constitution,
            wisdom: c.wisdom,
            charisma: c.charisma,
            intelligence: c.intelligence,
            details: self.details,
            items,
            known_objects: ObjectList::new(),
        }
    }
}

/// Do the characters `a` and `b` agree on everything but the items they hold?
pub open spec fn same_but_items(a: FullCharacter, b: FullCharacter) -> bool {
    &&& a.account_name@ == b.account_name@
    &&& a.name@ == b.name@
    &&& a.access_level == b.access_level
    &&& a.id == b.id
    &&& a.world_id == b.world_id
    &&& a.alignment == b.alignment
    &&& a.level == b.level
    &&& a.pledge@ == b.pledge@
    &&& a.class == b.class
    &&& a.gender == b.gender
    &&& a.hp_max == b.hp_max
    &&& a.mp_max == b.mp_max
    &&& a.ac == b.ac
    &&& a.strength == b.strength
    &&& a.dexterity == b.dexterity
    &&& a.constitution == b.constitution
    &&& a.wisdom == b.wisdom
    &&& a.charisma == b.charisma
    &&& a.intelligence == b.intelligence
    &&& a.details == b.details
    &&& a.known_objects@ == b.known_objects@
}

/// The details packet of the character `f`: the hit points shown are the maximum ones, the
/// dexterity shown is the strength, food is full and the weight half
pub open spec fn details_packet_of(f: FullCharacter) -> ServerPacket {
    (ServerPacket::CharacterDetails {
                id: f.world_id.0,
                level: f.level,
                xp: f.details.exp,
                strength: f.strength,
                dexterity: f.strength,
                constitution: f.constitution,
                wisdom: f.wisdom,
                charisma: f.charisma,
                intelligence: f.intelligence,
                curr_hp: f.hp_max,
                max_hp: f.hp_max,
                curr_mp: f.details.curr_mp,
                max_mp: f.mp_max,
                ac: f.ac,
                time: 1,
                food: 29,
                weight: 15,
                alignment: f.alignment as u16,
                fire_resist: f.details.fire_resist,
                water_resist: f.details.water_resist,
                wind_resist: f.details.wind_resist,
                earth_resist: f.details.earth_resist,
            })
}

/// Is `p` the packet that places the character `f` on the map of another client?
pub open spec fn is_put_player(p: ServerPacket, f: FullCharacter) -> bool {
    p matches ServerPacket::PutObject {
                x,
                y,
                id,
                icon,
                status,
                direction,
                light,
                speed,
                xp,
                alignment,
                name,
                title,
                status2,
                pledgeid,
                pledgename,
                unknown,
                v1,
                hp_bar,
                v2,
                v3,
            } && x == f.details.location.x && y == f.details.location.y && id
                == f.world_id.0 && icon == 29 && status == 0 && direction == 1 && light == 7
                && speed == 50 && xp == f.details.exp && alignment == f.alignment as u16
                && name@ == f.name@ && title@.len() == 0 && status2 == 0 && pledgeid == 0
                && pledgename@ == f.pledge@ && unknown@.len() == 0 && v1 == 0 && hp_bar == 255
                && v2 == 0 && v3 == f.level
}

/// Is `p` the packet that shows the character `f` to its own client, with the hit point bar
/// `hp_bar`?
pub open spec fn is_own_object_packet(p: ServerPacket, f: FullCharacter, hp_bar: u8) -> bool {
    p matches ServerPacket::PutObject {
                x,
                y,
                id,
                icon,
                status,
                direction,
                light,
                speed,
                xp,
                alignment,
                name,
                title,
                status2,
                pledgeid,
                pledgename,
                unknown,
                v1,
                hp_bar: bar,
                v2,
                v3,
            } && x == f.details.location.x && y == f.details.location.y && id
                == f.world_id.0 && icon == 1 && status == 0 && direction == 0 && light == 5
                && speed == 50 && xp == f.details.exp && alignment == f.alignment as u16
                && name@ == f.name@ && title@ == "i am groot"@ && status2 == 0 && pledgeid == 0
                && pledgename@ == f.pledge@ && unknown@.len() == 0 && v1 == 0 && bar == hp_bar
                && v2 == 0 && v3 == f.level
}

/// Is `v` the inventory of the items `items`: one entry for each item, in some order?
pub open spec fn is_inventory_of(v: Seq<InventoryElement>, items: Map<u32, ItemInstance>) -> bool {
    exists|keys: Seq<u32>|
        #![trigger keys.to_set()]
        keys.no_duplicates() && keys.to_set() == items.dom() && keys.len() == v.len() && forall|
            j: int,
        |
            0 <= j < v.len() ==> is_inventory_element_of(#[trigger] v[j], items[keys[j]])
}

/// What using an item came to
#[derive(Debug, PartialEq)]
pub enum ItemUseOutcome {
    /// The character holds no item with that id
    NoSuchItem,
    /// The item cannot be used (message 74, with the item's name)
    NotUsable { name: String },
    /// Items cannot be used on the map (message 563)
    NotOnThisMap,
    /// A weapon or a piece of armor was equipped or taken off: the new description and count
    /// of the item, and whether the item is armor (armor also updates its description)
    EquipToggled { id: u32, description: String, count: u32, armor: bool },
    /// The item was used to no further effect
    Used { usage: ItemUsage },
}

impl FullCharacter {
    /// Where the character is
    pub fn get_location(&self) -> (l: Location)
        ensures
            l == self.details.location,
    {
        self.details.location
    }

    /// Where the character was before its last move, or where it is if it has not moved
    pub fn get_prev_location(&self) -> (l: Location)
        ensures
            l == match self.details.old_location {
                Some(o) => o,
                None => self.details.location,
            },
    {
        match self.details.old_location {
            Some(o) => o,
            None => self.details.location,
        }
    }

    /// Can the character shut the server down? (Only administrators can)
    pub fn can_shutdown(&self) -> (b: bool)
        ensures
            b == (self.access_level == 200),
    {
        self.access_level == 200
    }

    /// Move the character, remembering where it was
    pub fn set_location(&mut self, l: Location)
        ensures
            final(self).details == (ExtraCharacterDetails {
                old_location: Some(old(self).details.location),
                location: l,
                ..old(self).details
            }),
            final(self).world_id == old(self).world_id,
            final(self).items@ == old(self).items@,
            final(self).known_objects@ == old(self).known_objects@,
            final(self).access_level == old(self).access_level,
    {
        self.details.old_location = Some(self.details.location);
        self.details.location = l;
    }

    /// The world id of the character
    pub fn id(&self) -> (i: WorldObjectId)
        ensures
            i == self.world_id,
    {
        self.world_id
    }

    /// The character learns of the object `o`
    pub fn add_object(&mut self, o: WorldObjectId)
        ensures
            final(self).known_objects@ == old(self).known_objects@.insert(o.0),
            final(self).world_id == old(self).world_id,
            final(self).details == old(self).details,
    {
        self.known_objects.add_object(o);
    }

    /// The character forgets the object `o`
    pub fn remove_object(&mut self, o: WorldObjectId)
        ensures
            final(self).known_objects@ == old(self).known_objects@.remove(o.0),
            final(self).world_id == old(self).world_id,
            final(self).details == old(self).details,
    {
        self.known_objects.remove_object(o);
    }

    /// The objects the character knows of
    pub fn get_known_objects(&self) -> (k: &ObjectList)
        ensures
            k@ == self.known_objects@,
    {
        &self.known_objects
    }

    /// The name of the player
    pub fn player_name(&self) -> (n: Option<String>)
        ensures
            n matches Some(x) && x@ == self.name@,
    {
        Some(self.name.clone())
    }

    /// The items of the character
    pub fn get_items(&self) -> (i: &HashMap<u32, ItemInstance>)
        ensures
            i@ == self.items@,
    {
        &self.items
    }

    /// The inventory of the character: an entry for each item it holds
    pub fn inventory_list(&self) -> (v: Vec<InventoryElement>)
        ensures
            is_inventory_of(v@, self.items@),
    {
        let keys = keys_of(&self.items);
        let mut v: Vec<InventoryElement> = Vec::new();
        let mut j: usize = 0;
        while j < keys.len()
            invariant
                j <= keys.len(),
                v@.len() == j,
                keys@.to_set() == self.items@.dom(),
                forall|t: int| 0 <= t < j ==> is_inventory_element_of(#[trigger] v@[t], self.items@[keys@[t]]),
            decreases keys.len() - j,
        {
            assert(keys@.to_set().contains(keys@[j as int]));
            match self.items.get(&keys[j]) {
                Some(it) => {
                    v.push(it.inventory_element());
                },
                None => {
                    assert(false);
                },
            }
            j = j + 1;
        }
        assert(keys@.to_set() == self.items@.dom());
        v
    }

    /// The packet that shows the character to its own client, with the hit point bar `hp_bar`
    /// (the percentage of hit points left)
    pub fn get_object_packet(&self, hp_bar: u8) -> (p: ServerPacket)
        ensures
            is_own_object_packet(p, *self, hp_bar),
    {
        let p = ServerPacket::PutObject {
            x: self.details.location.x,
            y: self.details.location.y,
            id: self.world_id.0,
            icon: 1,
            status: 0,
            direction: 0,
            light: 5,
            speed: 50,
            xp: self.details.exp,
            alignment: self.alignment as u16,
            name: self.name.clone(),
            title: String::from_str("i am groot"),
            status2: 0,
            pledgeid: 0,
            pledgename: self.pledge.clone(),
            unknown: String::new(),
            v1: 0,
            hp_bar,
            v2: 0,
            v3: self.level,
        };
        proof {
            reveal_strlit("i am groot");
        }
        p
    }

    /// Get the current hp of the player
    pub fn curr_hp(&self) -> (h: u16)
        ensures
            h == self.details.curr_hp,
    {
        self.details.curr_hp
    }

    /// Get a reference to the location of the character
    pub fn location_ref(&self) -> (l: &Location)
        ensures
            *l == self.details.location,
    {
        &self.details.location
    }

    /// Get a map location packet
    pub fn get_map_packet(&self) -> (p: ServerPacket)
        ensures
            p == ServerPacket::MapId(self.details.location.map, 0),
    {
        ServerPacket::MapId(self.details.location.map, 0)
    }

    /// Get the details packet for sending to the user: the hit points shown are the maximum
    /// ones, the dexterity shown is the strength, food is full and the weight half
    pub fn details_packet(&self) -> (p: ServerPacket)
        ensures
            p == details_packet_of(*self),
    {
        ServerPacket::CharacterDetails {
            id: self.world_id.0,
            level: self.level,
            xp: self.details.exp,
            strength: self.strength,
            dexterity: self.strength,
            constitution: self.constitution,
            wisdom: self.wisdom,
            charisma: self.charisma,
            intelligence: self.intelligence,
            curr_hp: self.hp_max,
            max_hp: self.hp_max,
            curr_mp: self.details.curr_mp,
            max_mp: self.mp_max,
            ac: self.ac,
            time: 1,
            food: 29,
            weight: 15,
            alignment: self.alignment as u16,
            fire_resist: self.details.fire_resist,
            water_resist: self.details.water_resist,
            wind_resist: self.details.wind_resist,
            earth_resist: self.details.earth_resist,
        }
    }

    /// Build a packet for placing the character on the map for another user
    pub fn build_put_object_packet(&self) -> (p: ServerPacket)
        ensures
            is_put_player(p, *self),
    {
        ServerPacket::PutObject {
            x: self.details.location.x,
            y: self.details.location.y,
            id: self.world_id.0,
            icon: 29,
            status: 0,
            direction: 1,
            light: 7,
            speed: 50,
            xp: self.details.exp,
            alignment: self.alignment as u16,
            name: self.name.clone(),
            title: String::new(),
            status2: 0,
            pledgeid: 0,
            pledgename: self.pledge.clone(),
            unknown: String::new(),
            v1: 0,
            hp_bar: 255,
            v2: 0,
            v3: self.level,
        }
    }

    /// Use the item with the id `id` on the map `map`. An item that cannot be used, or any item
    /// on a map that forbids items, is refused; a weapon or a piece of armor is equipped or
    /// taken off; any other item is used to no further effect. The character is otherwise
    /// unchanged.
    pub fn use_item(&mut self, id: u32, map: &GameMap) -> (r: ItemUseOutcome)
        ensures
            same_but_items(*final(self), *old(self)),
            !old(self).items@.contains_key(id) ==> r is NoSuchItem && final(self).items@ == old(
                self,
            ).items@,
            old(self).items@.contains_key(id) ==> {
                let it = old(self).items@[id];
                let u = item_usage(it.definition);
                if u == ItemUsage::NoUse {
                    &&& r matches ItemUseOutcome::NotUsable { name } && name@ == item_name(
                        it.definition,
                        it.stuff,
                    )
                    &&& final(self).items@ == old(self).items@
                } else if !map.item_usage {
                    &&& r is NotOnThisMap
                    &&& final(self).items@ == old(self).items@
                } else if u == ItemUsage::Armor || u == ItemUsage::Weapon {
                    let toggled = ItemInstance {
                        stuff: ItemStuff { equipped: !it.stuff.equipped, ..it.stuff },
                        ..it
                    };
                    &&& final(self).items@ == old(self).items@.insert(id, toggled)
                    &&& r matches ItemUseOutcome::EquipToggled { id: rid, description, count, armor }
                        && rid == it.stuff.item_id && description@ == item_name(
                        toggled.definition,
                        toggled.stuff,
                    ) && count == it.stuff.count && armor == (u == ItemUsage::Armor)
                } else {
                    &&& r == ItemUseOutcome::Used { usage: u }
                    &&& final(self).items@ == old(self).items@
                }
            },
    {
        match self.items.remove(&id) {
            None => ItemUseOutcome::NoSuchItem,
            Some(mut item) => {
                let u = item.usage();
                if u == ItemUsage::NoUse {
                    let name = item.name();
                    self.items.insert(id, item);
                    proof {
                        assert(self.items@ =~= old(self).items@);
                    }
                    return ItemUseOutcome::NotUsable { name };
                }
                if !map.can_use_items() {
                    self.items.insert(id, item);
                    proof {
                        assert(self.items@ =~= old(self).items@);
                    }
                    return ItemUseOutcome::NotOnThisMap;
                }
                if u == ItemUsage::Armor || u == ItemUsage::Weapon {
                    item.toggle_equip();
                    let description = item.name();
                    let iid = item.id();
                    let count = item.stuff.count;
                    self.items.insert(id, item);
                    ItemUseOutcome::EquipToggled {
                        id: iid,
                        description,
                        count,
                        armor: u == ItemUsage::Armor,
                    }
                } else {
                    self.items.insert(id, item);
                    proof {
                        assert(self.items@ =~= old(self).items@);
                    }
                    ItemUseOutcome::Used { usage: u }
                }
            },
        }
    }
}

} // verus!
