//! Code for weapons

use crate::text::push_str;
use crate::world::item::{
    bracketed, enchant_text, push_bracketed, push_enchant, same_text, ElementalEnchantType,
    ItemStuff, ItemUsage,
};
use crate::world::WorldObjectId;
use vstd::prelude::*;

verus! {

/// The types of weapons
#[derive(Copy, Clone, Debug, PartialEq, Eq, Structural)]
pub enum WeaponType {
    /// sword
    Sword,
    /// dagger
    Dagger,
    /// Two handed sword
    TwoHandSword,
    /// bow
    Bow,
    /// spear
    Spear,
    /// a blunt weapon
    Blunt,
    /// A staff
    Staff,
    /// gauntlet
    Gauntlet,
    /// A claw
    Claw,
    /// Edoryu
    Edoryu,
    /// Single bow
    SingleBow,
    /// Single spear
    SingleSpear,
    /// Two handed blunt weapon
    TwoHandBlunt,
    /// Two handed staff
    TwoHandStaff,
    /// Kiringku
    Kiringku,
    /// chain sword
    ChainSword,
}

/// The id the game client uses for the graphics of a weapon type
pub open spec fn weapon_type_id(t: WeaponType) -> u16 {
    match t {
        WeaponType::Sword => 4,
        WeaponType::Dagger => 46,
        WeaponType::TwoHandSword => 50,
        WeaponType::Bow => 20,
        WeaponType::Spear => 24,
        WeaponType::Blunt => 11,
        WeaponType::Staff => 40,
        WeaponType::Gauntlet => 62,
        WeaponType::Claw => 58,
        WeaponType::Edoryu => 54,
        WeaponType::SingleBow => 20,
        WeaponType::SingleSpear => 24,
        WeaponType::TwoHandBlunt => 1,
        WeaponType::TwoHandStaff => 40,
        WeaponType::Kiringku => 58,
        WeaponType::ChainSword => 24,
    }
}

/// The weapon type named `n` in the weapon table
pub open spec fn weapon_type_of_name(n: Seq<char>) -> Option<WeaponType> {
    if n == "sword"@ {
        Some(WeaponType::Sword)
    } else if n == "dagger"@ {
        Some(WeaponType::Dagger)
    } else if n == "tohandsword"@ {
        Some(WeaponType::TwoHandSword)
    } else if n == "bow"@ {
        Some(WeaponType::Bow)
    } else if n == "spear"@ {
        Some(WeaponType::Spear)
    } else if n == "blunt"@ {
        Some(WeaponType::Blunt)
    } else if n == "staff"@ {
        Some(WeaponType::Staff)
    } else if n == "gauntlet"@ {
        Some(WeaponType::Gauntlet)
    } else if n == "claw"@ {
        Some(WeaponType::Claw)
    } else if n == "edoryu"@ {
        Some(WeaponType::Edoryu)
    } else if n == "singlebow"@ {
        Some(WeaponType::SingleBow)
    } else if n == "singlespear"@ {
        Some(WeaponType::SingleSpear)
    } else if n == "tohandblunt"@ {
        Some(WeaponType::TwoHandBlunt)
    } else if n == "tohandstaff"@ {
        Some(WeaponType::TwoHandStaff)
    } else if n == "kiringku"@ {
        Some(WeaponType::Kiringku)
    } else if n == "chainsword"@ {
        Some(WeaponType::ChainSword)
    } else {
        None
    }
}

impl WeaponType {
    /// Get the weapon id
    pub fn get_id(&self) -> (r: u16)
        ensures
            r == weapon_type_id(*self),
    {
        match self {
            WeaponType::Sword => 4,
            WeaponType::Dagger => 46,
            WeaponType::TwoHandSword => 50,
            WeaponType::Bow => 20,
            WeaponType::Spear => 24,
            WeaponType::Blunt => 11,
            WeaponType::Staff => 40,
            WeaponType::Gauntlet => 62,
            WeaponType::Claw => 58,
            WeaponType::Edoryu => 54,
            WeaponType::SingleBow => 20,
            WeaponType::SingleSpear => 24,
            WeaponType::TwoHandBlunt => 1,
            WeaponType::TwoHandStaff => 40,
            WeaponType::Kiringku => 58,
            WeaponType::ChainSword => 24,
        }
    }

    /// The weapon type named `value` in the weapon table; there is none for an unknown name
    pub fn try_from_name(value: &str) -> (r: Option<WeaponType>)
        ensures
            r == weapon_type_of_name(value@),
    {
        if same_text(value, "sword") {
            Some(WeaponType::Sword)
        } else if same_text(value, "dagger") {
            Some(WeaponType::Dagger)
        } else if same_text(value, "tohandsword") {
            Some(WeaponType::TwoHandSword)
        } else if same_text(value, "bow") {
            Some(WeaponType::Bow)
        } else if same_text(value, "spear") {
            Some(WeaponType::Spear)
        } else if same_text(value, "blunt") {
            Some(WeaponType::Blunt)
        } else if same_text(value, "staff") {
            Some(WeaponType::Staff)
        } else if same_text(value, "gauntlet") {
            Some(WeaponType::Gauntlet)
        } else if same_text(value, "claw") {
            Some(WeaponType::Claw)
        } else if same_text(value, "edoryu") {
            Some(WeaponType::Edoryu)
        } else if same_text(value, "singlebow") {
            Some(WeaponType::SingleBow)
        } else if same_text(value, "singlespear") {
            Some(WeaponType::SingleSpear)
        } else if same_text(value, "tohandblunt") {
            Some(WeaponType::TwoHandBlunt)
        } else if same_text(value, "tohandstaff") {
            Some(WeaponType::TwoHandStaff)
        } else if same_text(value, "kiringku") {
            Some(WeaponType::Kiringku)
        } else if same_text(value, "chainsword") {
            Some(WeaponType::ChainSword)
        } else {
            None
        }
    }
}

/// A weapon definition
#[derive(Debug)]
pub struct Weapon {
    /// Item definition id
    pub id: u32,
    /// item weight
    pub weight: u32,
    /// Graphics for inventory
    pub inventory_graphic: i16,
    /// Graphics for ground
    pub ground_graphic: u16,
    /// Unidentified name
    pub unidentified: String,
    /// Identified name
    pub identified: String,
    /// Maximum use time
    pub max_use_time: u32,
    /// hit rate bonus
    pub hit_rate_bonus: i16,
    /// The weapon type
    pub wtype: WeaponType,
}

impl Clone for Weapon {
    fn clone(&self) -> (r: Weapon)
        ensures
            r == *self,
    {
        Weapon {
            id: self.id,
            weight: self.weight,
            inventory_graphic: self.inventory_graphic,
            ground_graphic: self.ground_graphic,
            unidentified: self.unidentified.clone(),
            identified: self.identified.clone(),
            max_use_time: self.max_use_time,
            hit_rate_bonus: self.hit_rate_bonus,
            wtype: self.wtype,
        }
    }
}

impl Weapon {
    /// Make a weapon instance: a normal weapon, not enchanted
    pub fn get_instance(&self, world_id: WorldObjectId) -> (w: WeaponInstance)
        ensures
            w == (WeaponInstance {
                definition: *self,
                world_id,
                bonus: WeaponStatus::Normal,
                enchanted: 0,
            }),
    {
        WeaponInstance {
            world_id,
            definition: self.clone(),
            bonus: WeaponStatus::Normal,
            enchanted: 0,
        }
    }
}

/// Temporary enchantments that can be applied to a weapon
#[derive(Clone, Copy, Debug, PartialEq, Eq, Structural)]
pub enum WeaponStatus {
    /// The item is holy
    Holy,
    /// The item is enchanted with enchant weapon
    Enchant,
    /// The item is blessed
    Blessed,
    /// The item benefits from shadow fang
    ShadowFang,
    /// There are no benefits applied
    Normal,
}

/// The hit bonus of a temporary enchantment
pub open spec fn status_hit_bonus(s: WeaponStatus) -> i16 {
    match s {
        WeaponStatus::Holy => 1,
        WeaponStatus::Blessed => 2,
        _ => 0,
    }
}

/// The magical damage bonus of a temporary enchantment
pub open spec fn status_dmg_bonus(s: WeaponStatus) -> i16 {
    match s {
        WeaponStatus::Enchant => 2,
        WeaponStatus::Blessed => 2,
        WeaponStatus::ShadowFang => 5,
        _ => 0,
    }
}

impl WeaponStatus {
    /// Lookup the hit bonus due to temporary enchantments
    pub fn hit_bonus(&self) -> (r: i16)
        ensures
            r == status_hit_bonus(*self),
    {
        match self {
            WeaponStatus::Holy => 1,
            WeaponStatus::Enchant => 0,
            WeaponStatus::Blessed => 2,
            WeaponStatus::ShadowFang => 0,
            WeaponStatus::Normal => 0,
        }
    }

    /// Lookup the magical damage bonus due to temporary enchantments
    pub fn dmg_bonus(&self) -> (r: i16)
        ensures
            r == status_dmg_bonus(*self),
    {
        match self {
            WeaponStatus::Holy => 0,
            WeaponStatus::Enchant => 2,
            WeaponStatus::Blessed => 2,
            WeaponStatus::ShadowFang => 5,
            WeaponStatus::Normal => 0,
        }
    }

    /// Lookup if the weapon applies any holy damage
    pub fn holy_damage(&self) -> (r: i16)
        ensures
            r == (if *self == WeaponStatus::Holy { 1i16 } else { 0i16 }),
    {
        match self {
            WeaponStatus::Holy => 1,
            _ => 0,
        }
    }
}

/// A player usable weapon
#[derive(Debug)]
pub struct WeaponInstance {
    /// Item definition
    pub definition: Weapon,
    /// World object id
    pub world_id: WorldObjectId,
    /// Temporary bonus
    pub bonus: WeaponStatus,
    /// Enchantment level
    pub enchanted: i8,
}

impl Clone for WeaponInstance {
    fn clone(&self) -> (r: WeaponInstance)
        ensures
            r == *self,
    {
        WeaponInstance {
            definition: self.definition.clone(),
            world_id: self.world_id,
            bonus: self.bonus,
            enchanted: self.enchanted,
        }
    }
}

/// Half of `e`, rounded toward zero
pub open spec fn half_toward_zero(e: int) -> int {
    if e >= 0 { e / 2 } else { -((-e) / 2) }
}

/// The bonus to the hit rate of a weapon instance: that of its definition, that of its
/// temporary enchantment and half its enchantment level
pub open spec fn weapon_hit_rate_bonus(w: WeaponInstance) -> int {
    w.definition.hit_rate_bonus + status_hit_bonus(w.bonus) + half_toward_zero(w.enchanted as int)
}

/// The description prefix of an elemental enchantment of level 1 to 3
pub open spec fn elemental_prefix(e: Option<(ElementalEnchantType, u8)>) -> Seq<char> {
    match e {
        Some((ElementalEnchantType::Earth, 1)) => "$6124 "@,
        Some((ElementalEnchantType::Earth, 2)) => "$6125 "@,
        Some((ElementalEnchantType::Earth, 3)) => "$6126 "@,
        Some((ElementalEnchantType::Fire, 1)) => "$6115 "@,
        Some((ElementalEnchantType::Fire, 2)) => "$6116 "@,
        Some((ElementalEnchantType::Fire, 3)) => "$6117 "@,
        Some((ElementalEnchantType::Water, 1)) => "$6118 "@,
        Some((ElementalEnchantType::Water, 2)) => "$6119 "@,
        Some((ElementalEnchantType::Water, 3)) => "$6120 "@,
        Some((ElementalEnchantType::Wind, 1)) => "$6121 "@,
        Some((ElementalEnchantType::Wind, 2)) => "$6122 "@,
        Some((ElementalEnchantType::Wind, 3)) => "$6123 "@,
        _ => Seq::empty(),
    }
}

/// The description of a weapon: for an identified one its elemental enchantment, its
/// enchantment level when positive, its identified name and its maximum use time when
/// positive; else its unidentified name; then the count when above 1, and the mark of an
/// equipped weapon
pub open spec fn weapon_name(w: Weapon, stuff: ItemStuff) -> Seq<char> {
    (if stuff.identified {
        elemental_prefix(stuff.elemental_enchant) + (if stuff.enchanted_level > 0 {
            enchant_text(stuff.enchanted_level as nat)
        } else {
            Seq::empty()
        })
    } else {
        Seq::empty()
    }) + (if stuff.identified {
        w.identified@
    } else {
        w.unidentified@
    }) + (if stuff.identified && w.max_use_time > 0 {
        bracketed(w.max_use_time as nat)
    } else {
        Seq::empty()
    }) + (if stuff.count > 1 {
        bracketed(stuff.count as nat)
    } else {
        Seq::empty()
    }) + (if stuff.equipped {
        " ($9)"@
    } else {
        Seq::empty()
    })
}

impl WeaponInstance {
    /// Calculate the bonus to hit rate for the weapon
    pub fn hit_rate_bonus(&self) -> (r: i16)
        requires
            i16::MIN <= self.definition.hit_rate_bonus + status_hit_bonus(self.bonus) <= i16::MAX,
            i16::MIN <= weapon_hit_rate_bonus(*self) <= i16::MAX,
        ensures
            r == weapon_hit_rate_bonus(*self),
    {
        let e = self.enchanted as i16;
        let half: i16 = if e >= 0 {
            e / 2
        } else {
            -((-e) / 2)
        };
        self.definition.hit_rate_bonus + self.bonus.hit_bonus() + half
    }

    /// Is the weapon a ranged weapon (no weapon is yet)
    pub fn is_ranged(&self) -> (b: bool)
        ensures
            !b,
    {
        false
    }

    /// What is the range of this weapon in map units? (Every weapon reaches one unit yet)
    pub fn range(&self) -> (r: u8)
        ensures
            r == 1,
    {
        1
    }

    /// Get the world id
    pub fn world_id(&self) -> (r: WorldObjectId)
        ensures
            r == self.world_id,
    {
        self.world_id
    }

    /// The type of the weapon
    pub fn get_type(&self) -> (r: WeaponType)
        ensures
            r == self.definition.wtype,
    {
        self.definition.wtype
    }

    /// The weight of the weapon
    pub fn weight(&self) -> (r: u32)
        ensures
            r == self.definition.weight,
    {
        self.definition.weight
    }

    /// The id of the weapon definition
    pub fn db_id(&self) -> (r: u32)
        ensures
            r == self.definition.id,
    {
        self.definition.id
    }

    /// The icon of the weapon on the ground
    pub fn ground_icon(&self) -> (r: u16)
        ensures
            r == self.definition.ground_graphic,
    {
        self.definition.ground_graphic
    }

    /// Every weapon is used as a weapon
    pub fn usage(&self) -> (r: ItemUsage)
        ensures
            r == ItemUsage::Weapon,
    {
        ItemUsage::Weapon
    }

    /// The description of the weapon with the given details
    pub fn name(&self, stuff: &ItemStuff) -> (r: String)
        ensures
            r@ == weapon_name(self.definition, *stuff),
    {
        let mut description = String::new();
        if stuff.identified {
            match stuff.elemental_enchant {
                Some((t, l)) => {
                    match t {
                        ElementalEnchantType::Earth => if l == 1 {
                            push_str(&mut description, "$6124 ");
                        } else if l == 2 {
                            push_str(&mut description, "$6125 ");
                        } else if l == 3 {
                            push_str(&mut description, "$6126 ");
                        },
                        ElementalEnchantType::Fire => if l == 1 {
                            push_str(&mut description, "$6115 ");
                        } else if l == 2 {
                            push_str(&mut description, "$6116 ");
                        } else if l == 3 {
                            push_str(&mut description, "$6117 ");
                        },
                        ElementalEnchantType::Water => if l == 1 {
                            push_str(&mut description, "$6118 ");
                        } else if l == 2 {
                            push_str(&mut description, "$6119 ");
                        } else if l == 3 {
                            push_str(&mut description, "$6120 ");
                        },
                        ElementalEnchantType::Wind => if l == 1 {
                            push_str(&mut description, "$6121 ");
                        } else if l == 2 {
                            push_str(&mut description, "$6122 ");
                        } else if l == 3 {
                            push_str(&mut description, "$6123 ");
                        },
                    }
                },
                None => {},
            }
            assert(description@ =~= elemental_prefix(stuff.elemental_enchant));
            if stuff.enchanted_level > 0 {
                push_enchant(&mut description, stuff.enchanted_level as u32);
            }
        }
        let ghost p1 = description@;
        if stuff.identified {
            push_str(&mut description, self.definition.identified.as_str());
        } else {
            push_str(&mut description, self.definition.unidentified.as_str());
        }
        let ghost p2 = description@;
        if stuff.identified && self.definition.max_use_time > 0 {
            push_bracketed(&mut description, self.definition.max_use_time);
        }
        let ghost p3 = description@;
        if stuff.count > 1 {
            push_bracketed(&mut description, stuff.count);
        }
        let ghost p4 = description@;
        if stuff.equipped {
            push_str(&mut description, " ($9)");
        }
        proof {
            let n = weapon_name(self.definition, *stuff);
            assert(description@ =~= n);
        }
        description
    }
}

} // verus!
