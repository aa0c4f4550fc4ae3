use lineage_server::world::item::armor::Armor;
use lineage_server::world::item::etc::{EtcItem, EtcItemType};
use lineage_server::world::item::weapon::{Weapon, WeaponInstance, WeaponStatus, WeaponType};
use lineage_server::world::item::{
    ElementalEnchantType, Item, ItemInstanceWithoutDefinition, ItemStuff, ItemUsage,
};
use lineage_server::world::WorldObjectId;
use std::collections::HashMap;

fn sword() -> Weapon {
    Weapon {
        id: 1,
        weight: 100,
        inventory_graphic: 5,
        ground_graphic: 6,
        unidentified: "sword".to_string(),
        identified: "Sword of X".to_string(),
        max_use_time: 0,
        hit_rate_bonus: 2,
        wtype: WeaponType::Sword,
    }
}

fn stuff(identified: bool, count: u32, equipped: bool, enchant: i8) -> ItemStuff {
    ItemStuff::from_stored(10, count, equipped, enchant, identified, 0, 0, None, None, 0, 0)
}

#[test]
fn usage_numbers() {
    assert_eq!(ItemUsage::try_from_number(38), Some(ItemUsage::WishWand));
    assert_eq!(ItemUsage::try_from_number(4), Some(ItemUsage::WishWand));
    assert_eq!(ItemUsage::try_from_number(-1), Some(ItemUsage::NoUse));
    assert_eq!(ItemUsage::try_from_number(6), Some(ItemUsage::TeleportScroll1));
    assert_eq!(ItemUsage::try_from_number(10), None);
    assert_eq!(ItemUsage::from_number(46), ItemUsage::EnchantAccessoryScroll);
    assert_eq!(ItemUsage::TeleportScroll0.number(), 9);
    assert_eq!(ItemUsage::NoUse.number(), -1);
}

#[test]
fn usage_names() {
    assert_eq!(ItemUsage::from_name("sosc"), ItemUsage::Polymorph);
    assert_eq!(ItemUsage::from_name("dai"), ItemUsage::EnchantWeaponScroll);
    assert_eq!(ItemUsage::from_name("zel"), ItemUsage::EnchantArmorScroll);
    assert_eq!(ItemUsage::from_name("nonsense"), ItemUsage::NoUse);
}

#[test]
fn stored_elemental_enchantments() {
    let s = ItemStuff::from_stored(1, 1, false, 0, true, 0, 0, Some(2), Some(3), 0, 0);
    assert_eq!(s.elemental_enchant.map(|e| e.1), Some(3));
    assert!(matches!(s.elemental_enchant, Some((ElementalEnchantType::Fire, 3))));
    let t = ItemStuff::from_stored(1, 1, false, 0, true, 0, 0, Some(3), Some(3), 0, 0);
    assert!(t.elemental_enchant.is_none());
    let u = ItemStuff::from_stored(1, 1, false, 0, true, 0, 0, Some(8), None, 0, 0);
    assert!(u.elemental_enchant.is_none());
}

#[test]
fn weapon_names() {
    let w = sword().get_instance(WorldObjectId(3));
    assert_eq!(w.name(&stuff(false, 1, false, 5)), "sword");
    assert_eq!(w.name(&stuff(true, 1, false, 5)), "+5 Sword of X");
    assert_eq!(w.name(&stuff(true, 3, true, 0)), "Sword of X(3)  ($9)");
    let fire = ItemStuff::from_stored(10, 1, false, 2, true, 0, 0, Some(2), Some(2), 0, 0);
    assert_eq!(w.name(&fire), "$6116 +2 Sword of X");
    let mut timed = sword();
    timed.max_use_time = 120;
    let t = timed.get_instance(WorldObjectId(4));
    assert_eq!(t.name(&stuff(true, 1, false, 0)), "Sword of X(120) ");
    assert_eq!(t.name(&stuff(false, 1, false, 0)), "sword");
}

#[test]
fn weapon_bonuses() {
    let mut w = sword().get_instance(WorldObjectId(3));
    assert_eq!(w.hit_rate_bonus(), 2);
    w.enchanted = 5;
    w.bonus = WeaponStatus::Blessed;
    assert_eq!(w.hit_rate_bonus(), 6);
    w.enchanted = -3;
    w.bonus = WeaponStatus::Holy;
    assert_eq!(w.hit_rate_bonus(), 2);
    assert!(!w.is_ranged());
    assert_eq!(w.range(), 1);
    assert_eq!(WeaponStatus::ShadowFang.dmg_bonus(), 5);
    assert_eq!(WeaponStatus::Holy.holy_damage(), 1);
    assert_eq!(WeaponStatus::Blessed.holy_damage(), 0);
    assert_eq!(WeaponStatus::Blessed.hit_bonus(), 2);
}

#[test]
fn weapon_types() {
    assert_eq!(WeaponType::Dagger.get_id(), 46);
    assert_eq!(WeaponType::TwoHandBlunt.get_id(), 1);
    assert_eq!(WeaponType::try_from_name("tohandsword"), Some(WeaponType::TwoHandSword));
    assert_eq!(WeaponType::try_from_name("laser"), None);
}

fn etc(id: u32, itype: EtcItemType, charges: u8) -> EtcItem {
    EtcItem {
        id,
        world_id: None,
        itype,
        weight: 1,
        inventory_graphic: 1,
        ground_graphic: 2,
        max_charge_count: charges,
        unidentified: "thing".to_string(),
        identified: "Thing".to_string(),
        usage: ItemUsage::Normal,
    }
}

#[test]
fn etc_item_names() {
    let lamp = etc(40001, EtcItemType::Light, 0).get_instance(WorldObjectId(1));
    assert_eq!(lamp.name(&stuff(true, 1, false, 0)), "Thing($11) )");
    let wand = etc(5, EtcItemType::Wand, 10).get_instance(WorldObjectId(1));
    let mut s = stuff(false, 2, false, 0);
    s.charges = 7;
    assert_eq!(wand.name(&s), "thing(7) (2) ");
    let collar = etc(40314, EtcItemType::PetItem, 0).get_instance(WorldObjectId(1));
    assert_eq!(collar.name(&stuff(true, 1, true, 0)), "Thing[PET TODO] ($117)");
    let helmet = etc(20383, EtcItemType::Other, 1).get_instance(WorldObjectId(1));
    assert_eq!(helmet.name(&stuff(true, 1, false, 0)), "Thing(0) (0) ");
}

#[test]
fn etc_item_types() {
    assert_eq!(EtcItemType::try_from_number(16), Some(EtcItemType::TreasureBox));
    assert_eq!(EtcItemType::try_from_number(17), None);
    assert_eq!(EtcItemType::Scroll.number(), 8);
    assert_eq!(EtcItemType::try_from_name("treasure_box"), Some(EtcItemType::TreasureBox));
    assert_eq!(EtcItemType::try_from_name("box"), None);
}

#[test]
fn armor_names() {
    let a = Armor {
        id: 9,
        weight: 1,
        inventory_graphic: 1,
        ground_graphic: 1,
        unidentified: "mail".to_string(),
        identified: "Chain Mail".to_string(),
        max_use_time: 0,
    }
    .get_instance(WorldObjectId(2));
    assert_eq!(a.name(&stuff(true, 1, true, 3)), "+3 Chain Mail ($117)");
    assert_eq!(a.name(&stuff(false, 1, true, 3)), "mail ($117)");
    assert_eq!(a.name(&stuff(true, 1, false, -1)), "Chain Mail");
}

#[test]
fn item_definitions_are_looked_up() {
    let mut table = HashMap::new();
    table.insert(1u32, Item::Weapon(sword().get_instance(WorldObjectId(3))));
    let found = ItemInstanceWithoutDefinition { id: 1, stuff: stuff(true, 1, false, 0) };
    let missing = ItemInstanceWithoutDefinition { id: 2, stuff: stuff(true, 1, false, 0) };
    let i = found.populate_item_definition(&table).unwrap();
    assert_eq!(i.name(), "Sword of X");
    assert_eq!(i.usage(), ItemUsage::Weapon);
    assert_eq!(i.id(), 10);
    assert!(missing.populate_item_definition(&table).is_none());
    let mut i = i;
    i.toggle_equip();
    assert_eq!(i.name(), "Sword of X ($9)");
    assert_eq!(i.definition().db_id(), 1);
    let _ = WeaponInstance::clone(&sword().get_instance(WorldObjectId(8)));
}

#[test]
fn inventory_entries() {
    let mut table = HashMap::new();
    table.insert(1u32, Item::Weapon(sword().get_instance(WorldObjectId(3))));
    let mut wand = etc(5, EtcItemType::Wand, 10);
    wand.usage = ItemUsage::NoUse;
    wand.inventory_graphic = 77;
    table.insert(5u32, Item::Etc(wand.get_instance(WorldObjectId(4))));
    let w = ItemInstanceWithoutDefinition { id: 1, stuff: stuff(true, 1, false, 2) }
        .populate_item_definition(&table)
        .unwrap();
    let e = w.inventory_element();
    assert_eq!(e.id, 10);
    assert_eq!(e.i_type, 1);
    assert_eq!(e.n_use, 1);
    assert_eq!(e.icon, 5);
    assert_eq!(e.count, 1);
    assert_eq!(e.identified, 1);
    assert_eq!(e.description, " +2 Sword of X");
    let u = w.update_packet();
    assert_eq!(u.id, 10);
    assert_eq!(u.description, "+2 Sword of X");
    assert_eq!(u.count, 1);

    let mut s = stuff(false, 3, false, 0);
    s.charges = 4;
    let x = ItemInstanceWithoutDefinition { id: 5, stuff: s }
        .populate_item_definition(&table)
        .unwrap();
    let e = x.inventory_element();
    assert_eq!(e.i_type, 1);
    assert_eq!(e.n_use, 255);
    assert_eq!(e.icon, 77);
    assert_eq!(e.count, 3);
    assert_eq!(e.identified, 0);
    assert_eq!(e.description, " thing(4) (3) ");
    assert_eq!(x.update_packet().description, "thing(4) (3) ");
}
