//! Code for items that npcs and players can use and have

pub mod armor;
pub mod etc;
pub mod weapon;

use crate::text::{decimal, push_char, push_decimal, push_str};
use crate::world::item::armor::{ArmorInstance, armor_name};
use crate::world::item::etc::{EtcItemInstance, etc_item_name};
use crate::world::item::weapon::{WeaponInstance, weapon_name};
use crate::world::WorldObjectId;
use std::collections::HashMap;
use vstd::prelude::*;

verus! {

broadcast use vstd::std_specs::hash::group_hash_axioms;

/// Do the two strings hold the same text?
pub(crate) fn same_text(a: &str, b: &str) -> (r: bool)
    ensures
        r == (a@ == b@),
{
    let x = a.to_owned();
    let y = b.to_owned();
    x == y
}

/// The elemental types that an item can be enchanted with
#[derive(Clone, Copy, Debug, PartialEq, Eq, Structural)]
pub enum ElementalEnchantType {
    /// Earth elemental
    Earth,
    /// Fire elemental
    Fire,
    /// Water elemental
    Water,
    /// Wind elemental
    Wind,
}

/// The elemental type with the stored code `v` (1, 2, 4 or 8)
pub open spec fn elemental_of_code(v: u8) -> Option<ElementalEnchantType> {
    if v == 1 {
        Some(ElementalEnchantType::Earth)
    } else if v == 2 {
        Some(ElementalEnchantType::Fire)
    } else if v == 4 {
        Some(ElementalEnchantType::Water)
    } else if v == 8 {
        Some(ElementalEnchantType::Wind)
    } else {
        None
    }
}

/// The ways an item can be used
#[derive(Clone, Copy, Debug, PartialEq, Eq, Structural)]
pub enum ItemUsage {
    NoUse,
    Normal,
    Weapon,
    Armor,
    Wand,
    WishWand,
    WandWithTarget,
    TeleportScroll0,
    TeleportScroll1,
    IdentifyScroll,
    ResurrectScroll,
    Letter,
    Letter2,
    WithTarget,
    MusicalInstrument,
    Polymorph,
    WandNearbyTarget,
    HeroRing,
    EnchantWeaponScroll,
    EnchantArmorScroll,
    BlankScroll,
    BlessedTeleport,
    SpellBuff,
    ChristmasCard,
    ChristmasCard2,
    ValentinesCard,
    ValentinesCard2,
    WhiteDayCard,
    WhiteDayCard2,
    Earring,
    FishingRod,
    EnchantAccessoryScroll,
}

/// The number the game client uses for an item usage
pub open spec fn usage_number(u: ItemUsage) -> i8 {
    match u {
        ItemUsage::NoUse => -1i8,
        ItemUsage::Normal => 0,
        ItemUsage::Weapon => 1,
        ItemUsage::Armor => 2,
        ItemUsage::Wand => 3,
        ItemUsage::WishWand => 4,
        ItemUsage::WandWithTarget => 5,
        ItemUsage::TeleportScroll0 => 9,
        ItemUsage::TeleportScroll1 => 6,
        ItemUsage::IdentifyScroll => 7,
        ItemUsage::ResurrectScroll => 8,
        ItemUsage::Letter => 12,
        ItemUsage::Letter2 => 13,
        ItemUsage::WithTarget => 14,
        ItemUsage::MusicalInstrument => 15,
        ItemUsage::Polymorph => 16,
        ItemUsage::WandNearbyTarget => 17,
        ItemUsage::HeroRing => 23,
        ItemUsage::EnchantWeaponScroll => 26,
        ItemUsage::EnchantArmorScroll => 27,
        ItemUsage::BlankScroll => 28,
        ItemUsage::BlessedTeleport => 29,
        ItemUsage::SpellBuff => 30,
        ItemUsage::ChristmasCard => 31,
        ItemUsage::ChristmasCard2 => 32,
        ItemUsage::ValentinesCard => 33,
        ItemUsage::ValentinesCard2 => 34,
        ItemUsage::WhiteDayCard => 35,
        ItemUsage::WhiteDayCard2 => 36,
        ItemUsage::Earring => 40,
        ItemUsage::FishingRod => 42,
        ItemUsage::EnchantAccessoryScroll => 46,
    }
}

/// The usage with the number `v`; the number 38 is a second number of the wish wand
pub open spec fn usage_of_number(v: i8) -> Option<ItemUsage> {
    if v == 38 {
        Some(ItemUsage::WishWand)
    } else if exists|u: ItemUsage| usage_number(u) == v {
        Some(choose|u: ItemUsage| usage_number(u) == v)
    } else {
        None
    }
}

/// The usage named `n` in the item tables; an unknown name means no usage
pub open spec fn usage_of_name(n: Seq<char>) -> ItemUsage {
    if n == "none"@ {
        ItemUsage::NoUse
    } else if n == "normal"@ {
        ItemUsage::Normal
    } else if n == "weapon"@ {
        ItemUsage::Weapon
    } else if n == "armor"@ {
        ItemUsage::Armor
    } else if n == "spell_long"@ {
        ItemUsage::WandWithTarget
    } else if n == "ntele"@ {
        ItemUsage::TeleportScroll1
    } else if n == "identify"@ {
        ItemUsage::IdentifyScroll
    } else if n == "res"@ {
        ItemUsage::ResurrectScroll
    } else if n == "letter"@ {
        ItemUsage::Letter
    } else if n == "letter_w"@ {
        ItemUsage::Letter2
    } else if n == "choice"@ {
        ItemUsage::WithTarget
    } else if n == "instrument"@ {
        ItemUsage::MusicalInstrument
    } else if n == "sosc"@ {
        ItemUsage::Polymorph
    } else if n == "spell_short"@ {
        ItemUsage::WandNearbyTarget
    } else if n == "zel"@ {
        ItemUsage::EnchantArmorScroll
    } else if n == "dai"@ {
        ItemUsage::EnchantWeaponScroll
    } else if n == "blank"@ {
        ItemUsage::BlankScroll
    } else if n == "ccard"@ {
        ItemUsage::ChristmasCard
    } else if n == "ccard_w"@ {
        ItemUsage::ChristmasCard2
    } else if n == "vcard"@ {
        ItemUsage::ValentinesCard
    } else if n == "vcard_w"@ {
        ItemUsage::ValentinesCard2
    } else if n == "spell_buff"@ {
        ItemUsage::SpellBuff
    } else if n == "earring"@ {
        ItemUsage::Earring
    } else if n == "ring"@ {
        ItemUsage::HeroRing
    } else if n == "btele"@ {
        ItemUsage::BlessedTeleport
    } else if n == "fishing_rod"@ {
        ItemUsage::FishingRod
    } else if n == "del"@ {
        ItemUsage::EnchantAccessoryScroll
    } else {
        ItemUsage::NoUse
    }
}

impl ItemUsage {
    /// The number the game client uses for this usage
    pub fn number(&self) -> (r: i8)
        ensures
            r == usage_number(*self),
    {
        match self {
            ItemUsage::NoUse => -1,
            ItemUsage::Normal => 0,
            ItemUsage::Weapon => 1,
            ItemUsage::Armor => 2,
            ItemUsage::Wand => 3,
            ItemUsage::WishWand => 4,
            ItemUsage::WandWithTarget => 5,
            ItemUsage::TeleportScroll0 => 9,
            ItemUsage::TeleportScroll1 => 6,
            ItemUsage::IdentifyScroll => 7,
            ItemUsage::ResurrectScroll => 8,
            ItemUsage::Letter => 12,
            ItemUsage::Letter2 => 13,
            ItemUsage::WithTarget => 14,
            ItemUsage::MusicalInstrument => 15,
            ItemUsage::Polymorph => 16,
            ItemUsage::WandNearbyTarget => 17,
            ItemUsage::HeroRing => 23,
            ItemUsage::EnchantWeaponScroll => 26,
            ItemUsage::EnchantArmorScroll => 27,
            ItemUsage::BlankScroll => 28,
            ItemUsage::BlessedTeleport => 29,
            ItemUsage::SpellBuff => 30,
            ItemUsage::ChristmasCard => 31,
            ItemUsage::ChristmasCard2 => 32,
            ItemUsage::ValentinesCard => 33,
            ItemUsage::ValentinesCard2 => 34,
            ItemUsage::WhiteDayCard => 35,
            ItemUsage::WhiteDayCard2 => 36,
            ItemUsage::Earring => 40,
            ItemUsage::FishingRod => 42,
            ItemUsage::EnchantAccessoryScroll => 46,
        }
    }

    /// The usage with the client number `value`; there is none for a number that no usage has
    pub fn try_from_number(value: i8) -> (r: Option<ItemUsage>)
        ensures
            r == usage_of_number(value),
    {
        let r = match value {
            -1 => Some(ItemUsage::NoUse),
            0 => Some(ItemUsage::Normal),
            1 => Some(ItemUsage::Weapon),
            2 => Some(ItemUsage::Armor),
            3 => Some(ItemUsage::Wand),
            4 | 38 => Some(ItemUsage::WishWand),
            5 => Some(ItemUsage::WandWithTarget),
            9 => Some(ItemUsage::TeleportScroll0),
            6 => Some(ItemUsage::TeleportScroll1),
            7 => Some(ItemUsage::IdentifyScroll),
            8 => Some(ItemUsage::ResurrectScroll),
            12 => Some(ItemUsage::Letter),
            13 => Some(ItemUsage::Letter2),
            14 => Some(ItemUsage::WithTarget),
            15 => Some(ItemUsage::MusicalInstrument),
            16 => Some(ItemUsage::Polymorph),
            17 => Some(ItemUsage::WandNearbyTarget),
            23 => Some(ItemUsage::HeroRing),
            26 => Some(ItemUsage::EnchantWeaponScroll),
            27 => Some(ItemUsage::EnchantArmorScroll),
            28 => Some(ItemUsage::BlankScroll),
            29 => Some(ItemUsage::BlessedTeleport),
            30 => Some(ItemUsage::SpellBuff),
            31 => Some(ItemUsage::ChristmasCard),
            32 => Some(ItemUsage::ChristmasCard2),
            33 => Some(ItemUsage::ValentinesCard),
            34 => Some(ItemUsage::ValentinesCard2),
            35 => Some(ItemUsage::WhiteDayCard),
            36 => Some(ItemUsage::WhiteDayCard2),
            40 => Some(ItemUsage::Earring),
            42 => Some(ItemUsage::FishingRod),
            46 => Some(ItemUsage::EnchantAccessoryScroll),
            _ => None,
        };
        proof {
            match r {
                Some(u) => {
                    if value != 38 {
                        assert(usage_number(u) == value);
                    }
                },
                None => {
                    assert forall|u: ItemUsage| usage_number(u) != value by {
                        match u {
                            _ => {},
                        }
                    }
                },
            }
        }
        r
    }

    /// The usage with the client number `value`, which must be the number of a usage
    pub fn from_number(value: i8) -> (r: ItemUsage)
        requires
            usage_of_number(value) is Some,
        ensures
            Some(r) == usage_of_number(value),
    {
        match Self::try_from_number(value) {
            Some(u) => u,
            None => ItemUsage::NoUse,
        }
    }

    /// The usage named `value` in the item tables
    pub fn from_name(value: &str) -> (r: ItemUsage)
        ensures
            r == usage_of_name(value@),
    {
        if same_text(value, "none") {
            ItemUsage::NoUse
        } else if same_text(value, "normal") {
            ItemUsage::Normal
        } else if same_text(value, "weapon") {
            ItemUsage::Weapon
        } else if same_text(value, "armor") {
            ItemUsage::Armor
        } else if same_text(value, "spell_long") {
            ItemUsage::WandWithTarget
        } else if same_text(value, "ntele") {
            ItemUsage::TeleportScroll1
        } else if same_text(value, "identify") {
            ItemUsage::IdentifyScroll
        } else if same_text(value, "res") {
            ItemUsage::ResurrectScroll
        } else if same_text(value, "letter") {
            ItemUsage::Letter
        } else if same_text(value, "letter_w") {
            ItemUsage::Letter2
        } else if same_text(value, "choice") {
            ItemUsage::WithTarget
        } else if same_text(value, "instrument") {
            ItemUsage::MusicalInstrument
        } else if same_text(value, "sosc") {
            ItemUsage::Polymorph
        } else if same_text(value, "spell_short") {
            ItemUsage::WandNearbyTarget
        } else if same_text(value, "zel") {
            ItemUsage::EnchantArmorScroll
        } else if same_text(value, "dai") {
            ItemUsage::EnchantWeaponScroll
        } else if same_text(value, "blank") {
            ItemUsage::BlankScroll
        } else if same_text(value, "ccard") {
            ItemUsage::ChristmasCard
        } else if same_text(value, "ccard_w") {
            ItemUsage::ChristmasCard2
        } else if same_text(value, "vcard") {
            ItemUsage::ValentinesCard
        } else if same_text(value, "vcard_w") {
            ItemUsage::ValentinesCard2
        } else if same_text(value, "spell_buff") {
            ItemUsage::SpellBuff
        } else if same_text(value, "earring") {
            ItemUsage::Earring
        } else if same_text(value, "ring") {
            ItemUsage::HeroRing
        } else if same_text(value, "btele") {
            ItemUsage::BlessedTeleport
        } else if same_text(value, "fishing_rod") {
            ItemUsage::FishingRod
        } else if same_text(value, "del") {
            ItemUsage::EnchantAccessoryScroll
        } else {
            ItemUsage::NoUse
        }
    }
}

/// Every usage read back from its client number is the same usage
pub proof fn lemma_usage_number_roundtrip(u: ItemUsage)
    ensures
        usage_of_number(usage_number(u)) == Some(u),
{
    if usage_number(u) != 38 {
        assert(exists|w: ItemUsage| usage_number(w) == usage_number(u));
        let w = choose|w: ItemUsage| usage_number(w) == usage_number(u);
        match u {
            _ => {
                match w {
                    _ => {},
                }
            },
        }
    }
}

/// The stuff for an item instance
#[derive(Clone, Copy, Debug)]
pub struct ItemStuff {
    /// The item id
    pub item_id: u32,
    /// Item count
    pub count: u32,
    /// Equipped
    pub equipped: bool,
    /// Enchantment
    pub enchanted_level: i8,
    /// Is the item identified?
    pub identified: bool,
    /// Durability
    pub durability: u8,
    /// Is the item blessed
    pub blessed: u8,
    /// Number of charges
    pub charges: u8,
    /// Remaining time
    pub time_remaining: u32,
    /// Elemental enchant type and level
    pub elemental_enchant: Option<(ElementalEnchantType, u8)>,
}

/// The elemental enchantment stored as an optional type code and an optional level: there is
/// one when both are present and the code is that of an elemental type
pub open spec fn stored_enchant(t: Option<u8>, l: Option<u8>) -> Option<(ElementalEnchantType, u8)> {
    match (t, l) {
        (Some(t), Some(l)) => match elemental_of_code(t) {
            Some(e) => Some((e, l)),
            None => None,
        },
        _ => None,
    }
}

impl ItemStuff {
    /// The details of an item as stored
    pub fn from_stored(
        item_id: u32,
        count: u32,
        equipped: bool,
        enchanted_level: i8,
        identified: bool,
        durability: u8,
        blessed: u8,
        elemental_type: Option<u8>,
        elemental_level: Option<u8>,
        charges: u8,
        time_remaining: u32,
    ) -> (s: ItemStuff)
        ensures
            s == (ItemStuff {
                item_id,
                count,
                equipped,
                enchanted_level,
                identified,
                durability,
                blessed,
                charges,
                time_remaining,
                elemental_enchant: stored_enchant(elemental_type, elemental_level),
            }),
    {
        let e = match (elemental_type, elemental_level) {
            (Some(t), Some(l)) => {
                if t == 1 {
                    Some((ElementalEnchantType::Earth, l))
                } else if t == 2 {
                    Some((ElementalEnchantType::Fire, l))
                } else if t == 4 {
                    Some((ElementalEnchantType::Water, l))
                } else if t == 8 {
                    Some((ElementalEnchantType::Wind, l))
                } else {
                    None
                }
            },
            _ => None,
        };
        ItemStuff {
            item_id,
            count,
            equipped,
            enchanted_level,
            identified,
            durability,
            blessed,
            charges,
            time_remaining,
            elemental_enchant: e,
        }
    }
}

/// `"(" v ") "`: a number in brackets, as item descriptions show counts and times
pub open spec fn bracketed(v: nat) -> Seq<char> {
    seq!['('] + decimal(v) + seq![')', ' ']
}

/// Append `"(" v ") "` to `s`
pub(crate) fn push_bracketed(s: &mut String, v: u32)
    ensures
        final(s)@ == old(s)@ + bracketed(v as nat),
{
    push_char(s, '(');
    push_decimal(s, v);
    push_char(s, ')');
    push_char(s, ' ');
    assert(final(s)@ =~= old(s)@ + bracketed(v as nat));
}

/// `"+" v " "`: an enchantment level as item descriptions show it
pub open spec fn enchant_text(v: nat) -> Seq<char> {
    seq!['+'] + decimal(v) + seq![' ']
}

/// Append `"+" v " "` to `s`
pub(crate) fn push_enchant(s: &mut String, v: u32)
    ensures
        final(s)@ == old(s)@ + enchant_text(v as nat),
{
    push_char(s, '+');
    push_decimal(s, v);
    push_char(s, ' ');
    assert(final(s)@ =~= old(s)@ + enchant_text(v as nat));
}

/// A generic item
#[derive(Debug)]
pub enum Item {
    /// A player usable weapon
    Weapon(WeaponInstance),
    /// Some other kind of item
    Etc(EtcItemInstance),
    /// A piece of armor
    Armor(ArmorInstance),
}

impl Clone for Item {
    fn clone(&self) -> (r: Item)
        ensures
            r == *self,
    {
        match self {
            Item::Weapon(w) => Item::Weapon(w.clone()),
            Item::Etc(e) => Item::Etc(e.clone()),
            Item::Armor(a) => Item::Armor(a.clone()),
        }
    }
}

/// The description of an item with the given details
pub open spec fn item_name(i: Item, stuff: ItemStuff) -> Seq<char> {
    match i {
        Item::Weapon(w) => weapon_name(w.definition, stuff),
        Item::Etc(e) => etc_item_name(e.definition, stuff),
        Item::Armor(a) => armor_name(a.definition, stuff),
    }
}

/// How an item can be used
pub open spec fn item_usage(i: Item) -> ItemUsage {
    match i {
        Item::Weapon(_) => ItemUsage::Weapon,
        Item::Etc(e) => e.definition.usage,
        Item::Armor(_) => ItemUsage::Armor,
    }
}

/// The world id of an item
pub open spec fn item_world_id(i: Item) -> WorldObjectId {
    match i {
        Item::Weapon(w) => w.world_id,
        Item::Etc(e) => e.world_id,
        Item::Armor(a) => a.world_id,
    }
}

/// The id of the definition of an item in the item tables
pub open spec fn item_db_id(i: Item) -> u32 {
    match i {
        Item::Weapon(w) => w.definition.id,
        Item::Etc(e) => e.definition.id,
        Item::Armor(a) => a.definition.id,
    }
}

/// The icon of an item lying on the ground
pub open spec fn item_ground_icon(i: Item) -> u16 {
    match i {
        Item::Weapon(w) => w.definition.ground_graphic,
        Item::Etc(e) => e.definition.ground_graphic,
        Item::Armor(a) => a.definition.ground_graphic,
    }
}

impl Item {
    /// Retrieve the item id
    pub fn db_id(&self) -> (r: u32)
        ensures
            r == item_db_id(*self),
    {
        match self {
            Item::Weapon(w) => w.definition.id,
            Item::Etc(e) => e.definition.id,
            Item::Armor(a) => a.definition.id,
        }
    }

    /// Get the world id
    pub fn world_id(&self) -> (r: WorldObjectId)
        ensures
            r == item_world_id(*self),
    {
        match self {
            Item::Weapon(w) => w.world_id,
            Item::Etc(e) => e.world_id,
            Item::Armor(a) => a.world_id,
        }
    }

    /// Get the ground icon for this particular item
    pub fn ground_icon(&self) -> (r: u16)
        ensures
            r == item_ground_icon(*self),
    {
        match self {
            Item::Weapon(w) => w.definition.ground_graphic,
            Item::Etc(e) => e.definition.ground_graphic,
            Item::Armor(a) => a.definition.ground_graphic,
        }
    }

    /// Get the item usage
    pub fn usage(&self) -> (r: ItemUsage)
        ensures
            r == item_usage(*self),
    {
        match self {
            Item::Weapon(_) => ItemUsage::Weapon,
            Item::Etc(e) => e.definition.usage,
            Item::Armor(_) => ItemUsage::Armor,
        }
    }

    /// Get the item name
    pub fn name(&self, stuff: &ItemStuff) -> (r: String)
        ensures
            r@ == item_name(*self, *stuff),
    {
        match self {
            Item::Weapon(w) => w.name(stuff),
            Item::Etc(e) => e.name(stuff),
            Item::Armor(a) => a.name(stuff),
        }
    }
}

/// How an item shows in the inventory of a player (blessing normal, no elemental details)
#[derive(Debug, PartialEq)]
pub struct InventoryElement {
    /// The item id
    pub id: u32,
    /// The kind of item
    pub i_type: i8,
    /// How the item is used
    pub n_use: u8,
    /// The inventory icon
    pub icon: i16,
    /// The count
    pub count: u32,
    /// 1 when identified, 0 otherwise
    pub identified: u8,
    /// The description: a space, then the item's name
    pub description: String,
}

/// A change of an item in the inventory of a player (no elemental details)
#[derive(Debug, PartialEq)]
pub struct InventoryUpdate {
    /// The item id
    pub id: u32,
    /// The item's name
    pub description: String,
    /// The count
    pub count: u32,
}

/// The kind of an item as the inventory shows it: 1 for weapons, 2 for armor, the number of
/// the kind of a miscellaneous item
pub open spec fn inventory_type(i: Item) -> i8 {
    match i {
        Item::Weapon(_) => 1,
        Item::Armor(_) => 2,
        Item::Etc(e) => crate::world::item::etc::etc_type_number(e.definition.itype) as i8,
    }
}

/// The inventory icon of an item
pub open spec fn inventory_icon(i: Item) -> i16 {
    match i {
        Item::Weapon(w) => w.definition.inventory_graphic,
        Item::Etc(e) => e.definition.inventory_graphic,
        Item::Armor(a) => a.definition.inventory_graphic,
    }
}

/// Is `e` the inventory entry of the item instance `it`: its id, kind, usage, icon and count,
/// 1 when identified, and a space before its name?
pub open spec fn is_inventory_element_of(e: InventoryElement, it: ItemInstance) -> bool {
    &&& e.id == it.stuff.item_id
    &&& e.i_type == inventory_type(it.definition)
    &&& e.n_use == usage_number(item_usage(it.definition)) as u8
    &&& e.icon == inventory_icon(it.definition)
    &&& e.count == it.stuff.count
    &&& e.identified == (if it.stuff.identified { 1u8 } else { 0u8 })
    &&& e.description@ == seq![' '] + item_name(it.definition, it.stuff)
}

/// an instance of an item, as opposed to Item, which defines what an item is
#[derive(Clone, Copy, Debug)]
pub struct ItemInstanceWithoutDefinition {
    /// The item id
    pub id: u32,
    /// The item configuration details
    pub stuff: ItemStuff,
}

/// an instance of an item, as opposed to Item, which defines what an item is
#[derive(Debug)]
pub struct ItemInstance {
    /// The item definition
    pub definition: Item,
    /// The item definition id
    pub id: u32,
    /// The item configuration details
    pub stuff: ItemStuff,
}

impl ItemInstance {
    /// Get the item id
    pub fn id(&self) -> (r: u32)
        ensures
            r == self.stuff.item_id,
    {
        self.stuff.item_id
    }

    /// Toggle if the item is equipped or not
    pub fn toggle_equip(&mut self)
        ensures
            final(self).stuff == (ItemStuff { equipped: !old(self).stuff.equipped, ..old(self).stuff }),
            final(self).definition == old(self).definition,
            final(self).id == old(self).id,
    {
        self.stuff.equipped = !self.stuff.equipped;
    }

    /// Get the item definition
    pub fn definition(&self) -> (r: &Item)
        ensures
            *r == self.definition,
    {
        &self.definition
    }

    /// Get the item name
    pub fn name(&self) -> (r: String)
        ensures
            r@ == item_name(self.definition, self.stuff),
    {
        self.definition.name(&self.stuff)
    }

    /// Get item usage
    pub fn usage(&self) -> (r: ItemUsage)
        ensures
            r == item_usage(self.definition),
    {
        self.definition.usage()
    }

    /// Get the inventory entry for this item instance
    pub fn inventory_element(&self) -> (e: InventoryElement)
        ensures
            is_inventory_element_of(e, *self),
    {
        let mut description = String::new();
        push_char(&mut description, ' ');
        let name = self.name();
        push_str(&mut description, name.as_str());
        let i_type: i8 = match &self.definition {
            Item::Weapon(_) => 1,
            Item::Armor(_) => 2,
            Item::Etc(e) => e.definition.itype.number() as i8,
        };
        let icon: i16 = match &self.definition {
            Item::Weapon(w) => w.definition.inventory_graphic,
            Item::Etc(e) => e.definition.inventory_graphic,
            Item::Armor(a) => a.definition.inventory_graphic,
        };
        InventoryElement {
            id: self.stuff.item_id,
            i_type,
            n_use: self.usage().number() as u8,
            icon,
            count: self.stuff.count,
            identified: if self.stuff.identified { 1 } else { 0 },
            description,
        }
    }

    /// Get the inventory modification data
    pub fn update_packet(&self) -> (u: InventoryUpdate)
        ensures
            u.id == self.stuff.item_id,
            u.description@ == item_name(self.definition, self.stuff),
            u.count == self.stuff.count,
    {
        InventoryUpdate { id: self.stuff.item_id, description: self.name(), count: self.stuff.count }
    }
}

/// The instance that `i` becomes with the definitions of `table`, if its definition is there
pub open spec fn populated(i: ItemInstanceWithoutDefinition, table: Map<u32, Item>) -> Option<
    ItemInstance,
> {
    if table.contains_key(i.id) {
        Some(ItemInstance { definition: table[i.id], id: i.id, stuff: i.stuff })
    } else {
        None
    }
}

impl ItemInstanceWithoutDefinition {
    /// Populate the item definition from the table of item definitions; there is none when
    /// the table does not hold the definition
    pub fn populate_item_definition(self, item_table: &HashMap<u32, Item>) -> (r: Option<
        ItemInstance,
    >)
        ensures
            r == populated(self, item_table@),
    {
        match item_table.get(&self.id) {
            Some(item) => Some(ItemInstance { definition: item.clone(), id: self.id, stuff: self.stuff }),
            None => None,
        }
    }

    /// Get the item id
    pub fn id(&self) -> (r: u32)
        ensures
            r == self.stuff.item_id,
    {
        self.stuff.item_id
    }
}

/// Is `p` the packet that places the item `i` lying on the ground on the map of a client?
pub open spec fn is_put_item(p: crate::server_packet::ServerPacket, i: ItemWithLocation) -> bool {
    p matches crate::server_packet::ServerPacket::PutObject {
                x,
                y,
                id,
                icon,
                status,
                direction,
                light,
                speed,
                xp,
                alignment,
                name,
                title,
                status2,
                pledgeid,
                pledgename,
                unknown,
                v1,
                hp_bar,
                v2,
                v3,
            } && x == i.location.x && y == i.location.y && id == item_world_id(i.item).0
                && icon == item_ground_icon(i.item) && status == 0 && direction == 0 && light
                == 1 && speed == 1 && xp == 0 && alignment == 0 && name@ == "TODO"@
                && title@.len() == 0 && status2 == 0 && pledgeid == 0 && pledgename@.len() == 0
                && unknown@.len() == 0 && v1 == 0 && hp_bar == 255 && v2 == 0 && v3 == 1
}

/// An item that exists on the ground somewhere
#[derive(Debug)]
pub struct ItemWithLocation {
    /// The map location of the item
    pub location: crate::character::Location,
    /// The item on that spot of the map
    pub item: Item,
}

impl ItemWithLocation {
    /// Where the item lies
    pub fn get_location(&self) -> (l: crate::character::Location)
        ensures
            l == self.location,
    {
        self.location
    }

    /// Move the item
    pub fn set_location(&mut self, l: crate::character::Location)
        ensures
            final(self).location == l,
            final(self).item == old(self).item,
    {
        self.location = l;
    }

    /// The world id of the item
    pub fn id(&self) -> (i: WorldObjectId)
        ensures
            i == item_world_id(self.item),
    {
        self.item.world_id()
    }

    /// Build a packet for placing the item on the map for a user: its ground icon, with the
    /// name "TODO", light 1, speed 1 and level 1
    pub fn build_put_object_packet(&self) -> (p: crate::server_packet::ServerPacket)
        ensures
            is_put_item(p, *self),
    {
        crate::server_packet::ServerPacket::PutObject {
            x: self.location.x,
            y: self.location.y,
            id: self.item.world_id().0,
            icon: self.item.ground_icon(),
            status: 0,
            direction: 0,
            light: 1,
            speed: 1,
            xp: 0,
            alignment: 0,
            name: "TODO".to_owned(),
            title: String::new(),
            status2: 0,
            pledgeid: 0,
            pledgename: String::new(),
            unknown: String::new(),
            v1: 0,
            hp_bar: 255,
            v2: 0,
            v3: 1,
        }
    }
}

} // verus!
