use lineage_server::character::{Character, ExtraCharacterDetails};
use lineage_server::messages::ServerShutdownMessage;
use lineage_server::server_packet::ServerPacket;
use lineage_server::world::item::weapon::{Weapon, WeaponType};
use lineage_server::world::monster::MonsterSpawn;
use lineage_server::world::npc::{NpcDefinition, NpcSpawn};
use lineage_server::world::state::{WorldResponse, WorldState};
use lineage_server::world::{GameMap, ObjectRef, WorldObjectId};
use std::collections::HashMap;

fn map(id: u16) -> GameMap {
    GameMap {
        id,
        name: "town".into(),
        min_x: 0,
        max_x: 100,
        min_y: 0,
        max_y: 100,
        underwater: false,
        bookmarkable: true,
        random_teleport: true,
        escapable: true,
        resurrection: true,
        spawn_monster: true,
        death_exp_penalty: true,
        pets: true,
        summon_monster: true,
        item_usage: true,
        skill_usage: true,
    }
}

fn character(access: u16) -> lineage_server::character::FullCharacter {
    let c = Character::from_stored(
        "acc".into(), "hero".into(), 1, 0, 10, "".into(), 0, 0, 20, 5, 3, 12, 12, 12, 12, 12, 12,
        access,
    )
    .unwrap();
    let d = ExtraCharacterDetails::from_stored(0, 1, 1, 0, 0, 0, 0, 0, 0, 0, 10, 10, 4);
    c.into_partial(WorldObjectId(500), d, vec![]).into_full(&HashMap::new())
}

#[test]
fn worlds_hold_players_npcs_and_monsters() {
    let mut w = WorldState::new(1);
    w.add_map(map(4));
    w.npc_table.insert(
        45,
        NpcDefinition {
            id: 45,
            name: "guard".into(),
            graphics_id: 7,
            light_size: 2,
            alignment: 0,
            max_hp: 1,
            max_mp: 1,
        },
    );
    w.spawn_npcs(&vec![NpcSpawn::from_stored(1, 1, 45, 10, 12, 4, 0, 0, 0, 0, 0)]);
    assert_eq!(w.id_generator.next_id_value(), 2);
    let ms = MonsterSpawn::from_stored(1, 1, 45, 20, 20, 4, 0, 0, 0, (0, 0), (0, 0), (1, 1), 0)
        .unwrap();
    let ids = w.spawn_monsters(&vec![ms]);
    assert_eq!(ids, vec![WorldObjectId(2)]);
    assert_eq!(w.get_location(ObjectRef::new(4, WorldObjectId(1))).unwrap().y, 12);
    assert_eq!(w.get_location(ObjectRef::new(4, WorldObjectId(2))).unwrap().x, 20);

    let (r, packets) = w.add_player(character(0), 80);
    let r = r.unwrap();
    assert_eq!(packets.len(), 6);
    assert_eq!(packets[1], WorldResponse::ServerPacket(ServerPacket::MapId(4, 0)));
    match &packets[2] {
        WorldResponse::ServerPacket(ServerPacket::PutObject { x, icon, light, title, hp_bar, .. }) => {
            assert_eq!(*x, 10);
            assert_eq!(*icon, 1);
            assert_eq!(*light, 5);
            assert_eq!(title, "i am groot");
            assert_eq!(*hp_bar, 80);
        }
        _ => panic!("wrong response"),
    }
    assert_eq!(packets[3], WorldResponse::Inventory(Vec::new()));
    assert_eq!(packets[4], WorldResponse::ServerPacket(ServerPacket::CharSpMrBonus { sp: 0, mr: 0 }));
    assert_eq!(packets[5], WorldResponse::ServerPacket(ServerPacket::Weather(0)));
    assert_eq!(w.get_location(r).unwrap().x, 10);
    assert_eq!(w.shutdown(r, false), None);
    let mut rr = Some(r);
    w.remove_player(&mut rr);
    assert!(rr.is_none());
    assert!(w.get_location(r).is_none());

    let (r2, _) = w.add_player(character(200), 100);
    assert_eq!(w.shutdown(r2.unwrap(), true), Some(ServerShutdownMessage::Restart));

    let mut elsewhere = character(0);
    elsewhere.details.location.map = 9;
    let (r3, p3) = w.add_player(elsewhere, 100);
    assert!(r3.is_none());
    assert_eq!(p3[1], WorldResponse::ServerPacket(ServerPacket::MapId(9, 0)));
}

#[test]
fn users_and_items() {
    let mut w = WorldState::new(10);
    let a = w.register_user();
    let b = w.register_user();
    assert_ne!(a, b);
    w.insert_id(a, "alice".into());
    w.insert_id(b, "bob".into());
    assert_eq!(w.lookup_id(a), Some("alice".to_string()));
    assert_eq!(w.get_number_players(), 2);
    w.unregister_user(a);
    assert_eq!(w.lookup_id(a), None);
    assert_eq!(w.get_number_players(), 1);
    w.add_weapon(&Weapon {
        id: 3,
        weight: 1,
        inventory_graphic: 1,
        ground_graphic: 1,
        unidentified: "a".into(),
        identified: "A".into(),
        max_use_time: 0,
        hit_rate_bonus: 0,
        wtype: WeaponType::Bow,
    });
    assert_eq!(w.item_table.get(&3).unwrap().world_id(), WorldObjectId(10));
    assert_eq!(w.new_object_id(), WorldObjectId(11));
}
