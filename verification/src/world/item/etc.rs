//! Code for other miscellaneous item types

use crate::text::push_str;
use crate::world::item::{bracketed, push_bracketed, same_text, ItemStuff, ItemUsage};
use crate::world::WorldObjectId;
use vstd::prelude::*;

verus! {

/// The kinds of miscellaneous items
#[derive(Clone, Copy, Debug, PartialEq, Eq, Structural)]
pub enum EtcItemType {
    Arrow,
    Wand,
    Light,
    Gem,
    Totem,
    Firecracker,
    Potion,
    Food,
    Scroll,
    QuestItem,
    SpellBook,
    PetItem,
    Other,
    Material,
    EventItem,
    Sting,
    TreasureBox,
}

/// The number of a kind of miscellaneous item, counting from 0 in the order of declaration
pub open spec fn etc_type_number(t: EtcItemType) -> u8 {
    match t {
        EtcItemType::Arrow => 0,
        EtcItemType::Wand => 1,
        EtcItemType::Light => 2,
        EtcItemType::Gem => 3,
        EtcItemType::Totem => 4,
        EtcItemType::Firecracker => 5,
        EtcItemType::Potion => 6,
        EtcItemType::Food => 7,
        EtcItemType::Scroll => 8,
        EtcItemType::QuestItem => 9,
        EtcItemType::SpellBook => 10,
        EtcItemType::PetItem => 11,
        EtcItemType::Other => 12,
        EtcItemType::Material => 13,
        EtcItemType::EventItem => 14,
        EtcItemType::Sting => 15,
        EtcItemType::TreasureBox => 16,
    }
}

/// The kind of miscellaneous item with the number `v`
pub open spec fn etc_type_of_number(v: u8) -> Option<EtcItemType> {
    if v <= 16 {
        Some(choose|t: EtcItemType| etc_type_number(t) == v)
    } else {
        None
    }
}

/// The kind of miscellaneous item named `n` in the item table
pub open spec fn etc_type_of_name(n: Seq<char>) -> Option<EtcItemType> {
    if n == "arrow"@ {
        Some(EtcItemType::Arrow)
    } else if n == "wand"@ {
        Some(EtcItemType::Wand)
    } else if n == "light"@ {
        Some(EtcItemType::Light)
    } else if n == "gem"@ {
        Some(EtcItemType::Gem)
    } else if n == "totem"@ {
        Some(EtcItemType::Totem)
    } else if n == "firecracker"@ {
        Some(EtcItemType::Firecracker)
    } else if n == "potion"@ {
        Some(EtcItemType::Potion)
    } else if n == "food"@ {
        Some(EtcItemType::Food)
    } else if n == "scroll"@ {
        Some(EtcItemType::Scroll)
    } else if n == "questitem"@ {
        Some(EtcItemType::QuestItem)
    } else if n == "spellbook"@ {
        Some(EtcItemType::SpellBook)
    } else if n == "petitem"@ {
        Some(EtcItemType::PetItem)
    } else if n == "other"@ {
        Some(EtcItemType::Other)
    } else if n == "material"@ {
        Some(EtcItemType::Material)
    } else if n == "event"@ {
        Some(EtcItemType::EventItem)
    } else if n == "sting"@ {
        Some(EtcItemType::Sting)
    } else if n == "treasure_box"@ {
        Some(EtcItemType::TreasureBox)
    } else {
        None
    }
}

impl EtcItemType {
    /// The number of this kind of item
    pub fn number(&self) -> (r: u8)
        ensures
            r == etc_type_number(*self),
    {
        match self {
            EtcItemType::Arrow => 0,
            EtcItemType::Wand => 1,
            EtcItemType::Light => 2,
            EtcItemType::Gem => 3,
            EtcItemType::Totem => 4,
            EtcItemType::Firecracker => 5,
            EtcItemType::Potion => 6,
            EtcItemType::Food => 7,
            EtcItemType::Scroll => 8,
            EtcItemType::QuestItem => 9,
            EtcItemType::SpellBook => 10,
            EtcItemType::PetItem => 11,
            EtcItemType::Other => 12,
            EtcItemType::Material => 13,
            EtcItemType::EventItem => 14,
            EtcItemType::Sting => 15,
            EtcItemType::TreasureBox => 16,
        }
    }

    /// The kind of item with the number `value`; there is none above 16
    pub fn try_from_number(value: u8) -> (r: Option<EtcItemType>)
        ensures
            r == etc_type_of_number(value),
            r matches Some(t) ==> etc_type_number(t) == value,
    {
        let r = match value {
            0 => Some(EtcItemType::Arrow),
            1 => Some(EtcItemType::Wand),
            2 => Some(EtcItemType::Light),
            3 => Some(EtcItemType::Gem),
            4 => Some(EtcItemType::Totem),
            5 => Some(EtcItemType::Firecracker),
            6 => Some(EtcItemType::Potion),
            7 => Some(EtcItemType::Food),
            8 => Some(EtcItemType::Scroll),
            9 => Some(EtcItemType::QuestItem),
            10 => Some(EtcItemType::SpellBook),
            11 => Some(EtcItemType::PetItem),
            12 => Some(EtcItemType::Other),
            13 => Some(EtcItemType::Material),
            14 => Some(EtcItemType::EventItem),
            15 => Some(EtcItemType::Sting),
            16 => Some(EtcItemType::TreasureBox),
            _ => None,
        };
        proof {
            if let Some(t) = r {
                assert(etc_type_number(t) == value);
                let c = choose|x: EtcItemType| etc_type_number(x) == value;
                assert(etc_type_number(c) == value);
                assert(c == t) by {
                    match c {
                        _ => {},
                    }
                }
            }
        }
        r
    }

    /// The kind of item named `value` in the item table; there is none for an unknown name
    pub fn try_from_name(value: &str) -> (r: Option<EtcItemType>)
        ensures
            r == etc_type_of_name(value@),
    {
        if same_text(value, "arrow") {
            Some(EtcItemType::Arrow)
        } else if same_text(value, "wand") {
            Some(EtcItemType::Wand)
        } else if same_text(value, "light") {
            Some(EtcItemType::Light)
        } else if same_text(value, "gem") {
            Some(EtcItemType::Gem)
        } else if same_text(value, "totem") {
            Some(EtcItemType::Totem)
        } else if same_text(value, "firecracker") {
            Some(EtcItemType::Firecracker)
        } else if same_text(value, "potion") {
            Some(EtcItemType::Potion)
        } else if same_text(value, "food") {
            Some(EtcItemType::Food)
        } else if same_text(value, "scroll") {
            Some(EtcItemType::Scroll)
        } else if same_text(value, "questitem") {
            Some(EtcItemType::QuestItem)
        } else if same_text(value, "spellbook") {
            Some(EtcItemType::SpellBook)
        } else if same_text(value, "petitem") {
            Some(EtcItemType::PetItem)
        } else if same_text(value, "other") {
            Some(EtcItemType::Other)
        } else if same_text(value, "material") {
            Some(EtcItemType::Material)
        } else if same_text(value, "event") {
            Some(EtcItemType::EventItem)
        } else if same_text(value, "sting") {
            Some(EtcItemType::Sting)
        } else if same_text(value, "treasure_box") {
            Some(EtcItemType::TreasureBox)
        } else {
            None
        }
    }
}

/// The definition id of the horse riding helmet
pub const HORSE_RIDING_HELMET: u32 = 20383;
/// The definition id of the lamp
pub const LAMP: u32 = 40001;
/// The definition id of the lantern
pub const LANTERN: u32 = 40002;
/// The definition id of the pet collar
pub const PET_COLLAR_ID: u32 = 40314;
/// The definition id of the high quality pet collar
pub const HIGH_QUALITY_PET_COLLAR: u32 = 40316;

/// The definition of a miscellaneous item
#[derive(Debug)]
pub struct EtcItem {
    pub id: u32,
    pub world_id: Option<WorldObjectId>,
    pub itype: EtcItemType,
    pub weight: u32,
    pub inventory_graphic: i16,
    pub ground_graphic: u16,
    pub max_charge_count: u8,
    pub unidentified: String,
    pub identified: String,
    pub usage: ItemUsage,
}

impl Clone for EtcItem {
    fn clone(&self) -> (r: EtcItem)
        ensures
            r == *self,
    {
        EtcItem {
            id: self.id,
            world_id: self.world_id,
            itype: self.itype,
            weight: self.weight,
            inventory_graphic: self.inventory_graphic,
            ground_graphic: self.ground_graphic,
            max_charge_count: self.max_charge_count,
            unidentified: self.unidentified.clone(),
            identified: self.identified.clone(),
            usage: self.usage,
        }
    }
}

impl EtcItem {
    /// Make an instance of the item with the given world id
    pub fn get_instance(&self, world_id: WorldObjectId) -> (r: EtcItemInstance)
        ensures
            r == (EtcItemInstance { definition: *self, world_id }),
    {
        EtcItemInstance { world_id, definition: self.clone() }
    }
}

/// An instance of a miscellaneous item
#[derive(Debug)]
pub struct EtcItemInstance {
    pub definition: EtcItem,
    pub world_id: WorldObjectId,
}

impl Clone for EtcItemInstance {
    fn clone(&self) -> (r: EtcItemInstance)
        ensures
            r == *self,
    {
        EtcItemInstance { definition: self.definition.clone(), world_id: self.world_id }
    }
}

/// The description of a miscellaneous item: its identified or unidentified name, its charges
/// when it has a charge count (twice for the horse riding helmet), its count when above 1, a
/// mark for pet collars, the mark of an exhausted lamp or lantern, and the mark of an equipped
/// pet item
pub open spec fn etc_item_name(d: EtcItem, stuff: ItemStuff) -> Seq<char> {
    (if stuff.identified {
        d.identified@
    } else {
        d.unidentified@
    }) + (if d.max_charge_count > 0 {
        bracketed(stuff.charges as nat)
    } else {
        Seq::empty()
    }) + (if d.id == HORSE_RIDING_HELMET {
        bracketed(stuff.charges as nat)
    } else {
        Seq::empty()
    }) + (if stuff.count > 1 {
        bracketed(stuff.count as nat)
    } else {
        Seq::empty()
    }) + (if d.id == PET_COLLAR_ID || d.id == HIGH_QUALITY_PET_COLLAR {
        "[PET TODO]"@
    } else {
        Seq::empty()
    }) + (if d.itype == EtcItemType::Light && (d.id == LAMP || d.id == LANTERN)
        && stuff.time_remaining == 0 {
        "($11) )"@
    } else {
        Seq::empty()
    }) + (if stuff.equipped && d.itype == EtcItemType::PetItem {
        " ($117)"@
    } else {
        Seq::empty()
    })
}

impl EtcItemInstance {
    /// The world id of the item
    pub fn world_id(&self) -> (r: WorldObjectId)
        ensures
            r == self.world_id,
    {
        self.world_id
    }

    /// The id of the item definition
    pub fn db_id(&self) -> (r: u32)
        ensures
            r == self.definition.id,
    {
        self.definition.id
    }

    /// The icon of the item on the ground
    pub fn ground_icon(&self) -> (r: u16)
        ensures
            r == self.definition.ground_graphic,
    {
        self.definition.ground_graphic
    }

    /// How the item is used
    pub fn usage(&self) -> (r: ItemUsage)
        ensures
            r == self.definition.usage,
    {
        self.definition.usage
    }

    /// The description of the item with the given details
    pub fn name(&self, stuff: &ItemStuff) -> (r: String)
        ensures
            r@ == etc_item_name(self.definition, *stuff),
    {
        let mut description = String::new();
        if stuff.identified {
            push_str(&mut description, self.definition.identified.as_str());
        } else {
            push_str(&mut description, self.definition.unidentified.as_str());
        }
        let ghost p1 = description@;
        if self.definition.max_charge_count > 0 {
            push_bracketed(&mut description, stuff.charges as u32);
        }
        let ghost p2 = description@;
        if self.definition.id == HORSE_RIDING_HELMET {
            push_bracketed(&mut description, stuff.charges as u32);
        }
        let ghost p3 = description@;
        if stuff.count > 1 {
            push_bracketed(&mut description, stuff.count);
        }
        let ghost p4 = description@;
        if self.definition.id == PET_COLLAR_ID || self.definition.id == HIGH_QUALITY_PET_COLLAR {
            push_str(&mut description, "[PET TODO]");
        }
        let ghost p5 = description@;
        if self.definition.itype == EtcItemType::Light {
            if self.definition.id == LAMP || self.definition.id == LANTERN {
                if stuff.time_remaining == 0 {
                    push_str(&mut description, "($11) )");
                }
            }
        }
        let ghost p6 = description@;
        if stuff.equipped && self.definition.itype == EtcItemType::PetItem {
            push_str(&mut description, " ($117)");
        }
        proof {
            assert(description@ =~= etc_item_name(self.definition, *stuff));
        }
        description
    }
}

} // verus!
