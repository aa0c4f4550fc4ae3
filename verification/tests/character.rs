use lineage_server::character::{
    Character, Class, ExtraCharacterDetails, ItemUseOutcome, Location,
};
use lineage_server::server_packet::ServerPacket;
use lineage_server::world::item::weapon::{Weapon, WeaponType};
use lineage_server::world::item::{Item, ItemInstanceWithoutDefinition, ItemStuff};
use lineage_server::world::state::WorldResponse;
use lineage_server::world::step::item_use_responses;
use lineage_server::world::{GameMap, WorldObjectId};
use std::collections::HashMap;

fn loc(x: u16, y: u16, d: u8) -> Location {
    Location { x, y, map: 4, direction: d }
}

#[test]
fn moving_steps_in_the_facing_direction() {
    let expected = [(10, 11), (9, 11), (9, 10), (9, 9), (10, 9), (11, 9), (11, 10), (11, 11)];
    for d in 0..8u8 {
        let m = loc(10, 10, d).compute_for_move();
        assert_eq!((m.x, m.y), expected[d as usize]);
        assert_eq!(m.map, 4);
        assert_eq!(m.direction, d);
    }
    assert_eq!(loc(10, 10, 8).compute_for_move(), loc(10, 10, 8));
}

#[test]
fn distances() {
    assert_eq!(loc(10, 10, 0).manhattan_distance(&loc(13, 6, 0)), 7);
    assert_eq!(loc(13, 6, 0).manhattan_distance(&loc(10, 10, 0)), 7);
    assert_eq!(loc(0, 0, 0).distance_squared(&loc(3, 4, 0)), 25);
    assert!(loc(0, 0, 0).within_view(&loc(12, 12, 0)));
    assert!(!loc(0, 0, 0).within_view(&loc(17, 0, 0)));
    assert!(loc(0, 0, 0).within_view(&loc(16, 0, 0)));
    assert!(!loc(0, 0, 0).within_view(&loc(12, 13, 0)));
}

#[test]
fn class_tables() {
    assert_eq!(Class::Knight.initial_hp(10), 16);
    assert_eq!(Class::Wizard.initial_hp(10), 12);
    assert_eq!(Class::Royal.initial_mp(11), 2);
    assert_eq!(Class::Royal.initial_mp(12), 3);
    assert_eq!(Class::Royal.initial_mp(16), 4);
    assert_eq!(Class::Royal.initial_mp(19), 2);
    assert_eq!(Class::DarkElf.initial_mp(14), 4);
    assert_eq!(Class::Wizard.initial_mp(17), 8);
    assert_eq!(Class::try_from_number(6), Ok(Class::Illusionist));
    assert_eq!(Class::try_from_number(7), Err(()));
    assert_eq!(Class::try_from_code(2796), Ok(Class::DarkElf));
    assert_eq!(Class::try_from_code(2), Err(()));
    assert_eq!(Class::Elf.number(), 2);
}

#[test]
fn new_characters() {
    assert!(Character::new("acc".into(), 1, "".into(), 0, 0, 1, 1, 1, 1, 1, 1).is_none());
    assert!(Character::new("acc".into(), 1, "bob".into(), 9, 0, 1, 1, 1, 1, 1, 1).is_none());
    let c = Character::new("acc".into(), 1, "bob".into(), 3, 1, 8, 9, 10, 17, 12, 13).unwrap();
    assert_eq!(c.name(), "bob");
    assert_eq!(c.level(), 1);
    assert_eq!(c.alignment(), 0);
    assert!(!c.needs_delete_waiting());
    assert!(Character::valid_name("x"));
    assert!(!Character::valid_name(""));
    match c.get_new_char_details_packet() {
        ServerPacket::NewCharacterDetails { name, class, hp, mp, ac, level, wisdom, .. } => {
            assert_eq!(name, "bob");
            assert_eq!(class, 3);
            assert_eq!(hp, 12);
            assert_eq!(mp, 8);
            assert_eq!(ac, 10);
            assert_eq!(level, 1);
            assert_eq!(wisdom, 17);
        }
        _ => panic!("wrong packet"),
    }
}

#[test]
fn stored_characters() {
    let c = Character::from_stored(
        "acc".into(), "old".into(), 5, -300, 45, "clan".into(), 61, 1, 100, 50, -5, 18, 12, 16,
        10, 9, 8, 200,
    )
    .unwrap();
    assert!(c.needs_delete_waiting());
    match c.get_details_packet() {
        ServerPacket::LoginCharacterDetails { name, pledge, ctype, alignment, ac, .. } => {
            assert_eq!(name, "old");
            assert_eq!(pledge, "clan");
            assert_eq!(ctype, 1);
            assert_eq!(alignment, (-300i16) as u16);
            assert_eq!(ac, -5);
        }
        _ => panic!("wrong packet"),
    }
    assert!(Character::from_stored(
        "acc".into(), "old".into(), 5, 0, 1, "".into(), 62, 1, 1, 1, 1, 1, 1, 1, 1, 1, 1, 0,
    )
    .is_none());
}

fn item(def: u32, key: u32) -> ItemInstanceWithoutDefinition {
    ItemInstanceWithoutDefinition {
        id: def,
        stuff: ItemStuff::from_stored(key, 1, false, 0, true, 0, 0, None, None, 0, 0),
    }
}

fn full_character() -> lineage_server::character::FullCharacter {
    let c = Character::new("acc".into(), 1, "bob".into(), 1, 1, 8, 9, 10, 11, 12, 13).unwrap();
    let d = ExtraCharacterDetails::from_stored(100, 5, 6, 0, 1, 2, 3, 4, 5, 6, 7, 8, 9);
    assert_eq!(d.location, Location { x: 7, y: 8, map: 9, direction: 5 });
    let mut table = HashMap::new();
    table.insert(
        1u32,
        Item::Weapon(
            Weapon {
                id: 1,
                weight: 1,
                inventory_graphic: 1,
                ground_graphic: 1,
                unidentified: "blade".into(),
                identified: "Blade".into(),
                max_use_time: 0,
                hit_rate_bonus: 0,
                wtype: WeaponType::Sword,
            }
            .get_instance(WorldObjectId(50)),
        ),
    );
    // item 20 is listed twice: the later entry has no definition, so it is dropped
    let items = vec![item(1, 10), item(1, 20), item(2, 20), item(2, 30)];
    let p = c.into_partial(WorldObjectId(77), d, items);
    p.into_full(&table)
}

#[test]
fn full_characters_keep_only_defined_items() {
    let f = full_character();
    assert_eq!(f.id(), WorldObjectId(77));
    assert_eq!(f.get_items().len(), 1);
    assert!(f.get_items().contains_key(&10));
    assert!(f.get_known_objects().get_objects().is_empty());
    assert_eq!(f.get_map_packet(), ServerPacket::MapId(9, 0));
    assert_eq!(f.player_name(), Some("bob".to_string()));
    assert!(!f.can_shutdown());
    assert_eq!(f.curr_hp(), 5);
}

#[test]
fn moving_remembers_the_previous_place() {
    let mut f = full_character();
    assert_eq!(f.get_prev_location(), f.get_location());
    let start = f.get_location();
    f.set_location(Location { x: 1, y: 2, map: 9, direction: 0 });
    assert_eq!(f.get_prev_location(), start);
    assert_eq!(f.location_ref().x, 1);
}

#[test]
fn using_items() {
    let mut f = full_character();
    let open = GameMap {
        id: 9,
        name: "m".into(),
        min_x: 0,
        max_x: 10,
        min_y: 0,
        max_y: 10,
        underwater: false,
        bookmarkable: true,
        random_teleport: true,
        escapable: true,
        resurrection: true,
        spawn_monster: true,
        death_exp_penalty: true,
        pets: true,
        summon_monster: true,
        item_usage: true,
        skill_usage: true,
    };
    assert_eq!(f.use_item(99, &open), ItemUseOutcome::NoSuchItem);
    assert_eq!(
        f.use_item(10, &open),
        ItemUseOutcome::EquipToggled {
            id: 10,
            description: "Blade ($9)".to_string(),
            count: 1,
            armor: false
        }
    );
    assert_eq!(
        f.use_item(10, &open),
        ItemUseOutcome::EquipToggled {
            id: 10,
            description: "Blade".to_string(),
            count: 1,
            armor: false
        }
    );
    let mut closed = open.clone();
    closed.item_usage = false;
    assert_eq!(f.use_item(10, &closed), ItemUseOutcome::NotOnThisMap);
    assert!(!closed.can_use_items());
    let g = full_character();
    assert_eq!((f.level, f.strength, f.hp_max, f.name.clone()), (g.level, g.strength, g.hp_max, g.name.clone()));
}

#[test]
fn details_packet_shows_full_hit_points() {
    let f = full_character();
    match f.details_packet() {
        ServerPacket::CharacterDetails { id, curr_hp, max_hp, dexterity, strength, food, weight, .. } => {
            assert_eq!(id, 77);
            assert_eq!(curr_hp, max_hp);
            assert_eq!(max_hp, f.hp_max);
            assert_eq!(dexterity, strength);
            assert_eq!(strength, f.strength);
            assert_eq!(food, 29);
            assert_eq!(weight, 15);
        }
        _ => panic!("wrong packet"),
    }
    match f.build_put_object_packet() {
        ServerPacket::PutObject { icon, light, name, hp_bar, .. } => {
            assert_eq!(icon, 29);
            assert_eq!(light, 7);
            assert_eq!(name, "bob");
            assert_eq!(hp_bar, 255);
        }
        _ => panic!("wrong packet"),
    }
}

#[test]
fn inventory_and_own_object_packet() {
    let f = full_character();
    let inv = f.inventory_list();
    assert_eq!(inv.len(), 1);
    assert_eq!(inv[0].id, 10);
    assert_eq!(inv[0].i_type, 1);
    assert_eq!(inv[0].description, " Blade");
    match f.get_object_packet(42) {
        ServerPacket::PutObject { id, icon, direction, light, speed, name, title, hp_bar, .. } => {
            assert_eq!(id, 77);
            assert_eq!(icon, 1);
            assert_eq!(direction, 0);
            assert_eq!(light, 5);
            assert_eq!(speed, 50);
            assert_eq!(name, "bob");
            assert_eq!(title, "i am groot");
            assert_eq!(hp_bar, 42);
        }
        _ => panic!("wrong packet"),
    }
}

#[test]
fn item_use_outcomes_become_responses() {
    let r = item_use_responses(ItemUseOutcome::NotUsable { name: "rock".into() });
    assert_eq!(r, vec![WorldResponse::Message { ty: 74, msgs: vec!["rock".to_string()] }]);
    let r = item_use_responses(ItemUseOutcome::NotOnThisMap);
    assert_eq!(r, vec![WorldResponse::Message { ty: 563, msgs: vec![] }]);
    let r = item_use_responses(ItemUseOutcome::EquipToggled {
        id: 3,
        description: "Mail ($117)".into(),
        count: 1,
        armor: true,
    });
    assert_eq!(r.len(), 2);
    match (&r[0], &r[1]) {
        (WorldResponse::InventoryMod(u), WorldResponse::InventoryDescription { id, description }) => {
            assert_eq!((u.id, u.count, u.description.as_str()), (3, 1, "Mail ($117)"));
            assert_eq!((*id, description.as_str()), (3, "Mail ($117)"));
        }
        _ => panic!("wrong responses"),
    }
    let r = item_use_responses(ItemUseOutcome::EquipToggled {
        id: 3,
        description: "Blade".into(),
        count: 1,
        armor: false,
    });
    assert_eq!(r.len(), 1);
    assert!(item_use_responses(ItemUseOutcome::NoSuchItem).is_empty());
}
