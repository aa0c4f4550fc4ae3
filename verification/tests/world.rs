use lineage_server::character::{Character, ExtraCharacterDetails, Location};
use lineage_server::messages::ServerShutdownMessage;
use lineage_server::server_packet::ServerPacket;
use lineage_server::world::damage::{Attacker, Damage, HitRolls};
use lineage_server::world::events::{
    character_list_packets, chat_text, delete_answer, find_character, login_with_news, remove_character,
    move_from_target, new_character_id, objects_within, shutdown_request, whisper_targets,
    world_login, NewsStep, WorldLogin, CHAT_RANGE_SQUARED,
};
use lineage_server::world::map_info::{MapInfo, Notice, NoticeKind, Object};
use lineage_server::world::monster::{MonsterSpawn, SpawnRolls, SpawnType};
use lineage_server::world::npc::{NpcDefinition, NpcSpawn};
use lineage_server::world::object::{BasicObjectType, Effect, ObjectList};
use lineage_server::world::{ObjectRef, WorldIdGenerator, WorldObjectId};
use lineage_server::user::UserAccount;
use std::collections::{HashMap, HashSet};

#[test]
fn id_generator_counts_up() {
    let mut g = WorldIdGenerator::new(5);
    assert_eq!(g.new_id(), WorldObjectId(5));
    assert_eq!(g.new_id(), WorldObjectId(6));
    assert_eq!(g.new_id().get_u32(), 7);
    for k in 8..100u32 {
        assert_eq!(g.new_id(), WorldObjectId(k));
    }
    assert_eq!(g.next_id_value(), 100);
}

#[test]
fn object_lists() {
    let mut a = ObjectList::new();
    let mut b = ObjectList::new();
    for i in [1u32, 2, 3] {
        a.add_object(WorldObjectId(i));
    }
    for i in [3u32, 4] {
        b.add_object(WorldObjectId(i));
    }
    let mut d: Vec<u32> = a.difference(&b).iter().map(|w| w.0).collect();
    d.sort();
    assert_eq!(d, vec![1, 2]);
    let mut old = vec![WorldObjectId(100)];
    let mut new = Vec::new();
    a.find_changes(&mut old, &mut new, &b);
    assert_eq!(old[0], WorldObjectId(100));
    let gone: HashSet<u32> = old[1..].iter().map(|w| w.0).collect();
    let came: HashSet<u32> = new.iter().map(|w| w.0).collect();
    assert_eq!(gone, HashSet::from([1, 2]));
    assert_eq!(came, HashSet::from([4]));
    a.remove_object(WorldObjectId(2));
    assert!(!a.contains(WorldObjectId(2)));
    assert_eq!(a.get_objects().len(), 2);
}

fn npc_table() -> HashMap<u32, NpcDefinition> {
    let mut t = HashMap::new();
    t.insert(
        45,
        NpcDefinition {
            id: 45,
            name: "guard".into(),
            graphics_id: 7,
            light_size: 2,
            alignment: -3,
            max_hp: 10,
            max_mp: 0,
        },
    );
    t
}

fn spawn_npc(id: u32, x: u16, y: u16) -> Object {
    let s = NpcSpawn::from_stored(1, 1, 45, x, y, 4, 2, 0, 0, 0, 0);
    Object::GenericNpc(s.make_npc(WorldObjectId(id), &npc_table()))
}

fn monster(id: u32, x: u16, y: u16) -> Object {
    let s = MonsterSpawn::from_stored(1, 1, 45, x, y, 4, 0, 0, 0, (0, 0), (0, 0), (1, 2), 0)
        .unwrap();
    Object::Monster(s.make_monster(WorldObjectId(id), &npc_table()))
}

fn player(id: u32, x: u16, y: u16) -> Object {
    let c = Character::new("acc".into(), 1, "hero".into(), 0, 0, 1, 1, 1, 1, 1, 1).unwrap();
    let d = ExtraCharacterDetails::from_stored(0, 1, 1, 0, 0, 0, 0, 0, 0, 0, x, y, 4);
    Object::Player(c.into_partial(WorldObjectId(id), d, vec![]).into_full(&HashMap::new()))
}

#[test]
fn npcs_and_monsters_are_made_from_their_definitions() {
    let n = spawn_npc(9, 10, 11);
    assert_eq!(n.id(), WorldObjectId(9));
    assert_eq!(n.get_location(), Location { x: 10, y: 11, map: 4, direction: 2 });
    assert!(!n.has_sender());
    match n.build_put_object_packet() {
        ServerPacket::PutObject { icon, name, light, v3, .. } => {
            assert_eq!(icon, 7);
            assert_eq!(name, "guard");
            assert_eq!(light, 2);
            assert_eq!(v3, 54);
        }
        _ => panic!("wrong packet"),
    }
    let m = monster(3, 100, 100);
    assert!(m.has_sender());
    assert_eq!(m.get_location().x, 100);
    assert!(MonsterSpawn::from_stored(1, 1, 45, 1, 1, 4, 0, 0, 0, (0, 0), (0, 0), (1, 2), 2).is_none());
    assert_eq!(SpawnType::try_from_code(1), Ok(SpawnType::NearPlayer));
}

#[test]
fn monster_placement() {
    let area = MonsterSpawn::from_stored(1, 1, 45, 50, 50, 4, 0, 0, 0, (10, 20), (40, 30), (1, 2), 0)
        .unwrap();
    let l = area.place(&SpawnRolls { a: 12, b: 35, c: 0, d: 0 });
    assert_eq!((l.x, l.y, l.map), (12, 35, 4));
    for _ in 0..20 {
        let m = area.make_monster(WorldObjectId(1), &npc_table());
        let l = m.get_location();
        assert!(10 <= l.x && l.x < 20 && 30 <= l.y && l.y < 40);
    }
    let scatter = MonsterSpawn::from_stored(1, 1, 45, 50, 60, 4, 0, 5, 3, (0, 0), (0, 0), (1, 2), 0)
        .unwrap();
    let l = scatter.place(&SpawnRolls { a: 4, b: 1, c: 0, d: 2 });
    assert_eq!((l.x, l.y), (53, 58));
    for _ in 0..20 {
        let l = scatter.make_monster(WorldObjectId(1), &npc_table()).get_location();
        assert!(46 <= l.x && l.x <= 54 && 58 <= l.y && l.y <= 62);
    }
    assert_eq!(scatter.map(), 4);
}

fn sorted(v: Vec<u32>) -> Vec<u32> {
    let mut v = v;
    v.sort();
    v
}

#[test]
fn maps_track_objects() {
    let mut map = MapInfo::new();
    map.add_new_object(player(1, 100, 100));
    map.add_new_object(spawn_npc(2, 105, 100));
    map.add_new_object(monster(3, 200, 200));
    assert_eq!(sorted(map.objects_iter()), vec![1, 2, 3]);
    let r = ObjectRef::new(4, WorldObjectId(1));
    assert_eq!(map.get_name(r), Some("hero".to_string()));
    assert_eq!(map.get_name(ObjectRef::new(4, WorldObjectId(2))), None);
    assert_eq!(map.get_location(r).unwrap().x, 100);
    assert!(map.get_object_from_id(WorldObjectId(9)).is_none());
    assert_eq!(map.object_is_new_here(r), vec![2]);
    assert!(map.object_is_new_here(ObjectRef::new(4, WorldObjectId(2))).is_empty());
    map.change_direction(r, 6);
    assert_eq!(map.get_location(r).unwrap().direction, 6);
    map.remove_object(WorldObjectId(2));
    assert_eq!(sorted(map.objects_iter()), vec![1, 3]);
}

#[test]
fn moving_tells_who_needs_to_know() {
    let mut map = MapInfo::new();
    map.add_new_object(player(1, 100, 100));
    map.add_new_object(spawn_npc(2, 95, 100));
    map.add_new_object(monster(3, 130, 100));
    let r = ObjectRef::new(4, WorldObjectId(1));
    let notices = map.move_object(r, Location { x: 120, y: 100, map: 4, direction: 6 });
    let got: HashSet<Notice> = notices.iter().cloned().collect();
    assert_eq!(got.len(), notices.len());
    let n = |to: u32, about: u32, kind: NoticeKind| Notice {
        to: WorldObjectId(to),
        about: WorldObjectId(about),
        kind,
    };
    let expected = HashSet::from([
        n(1, 2, NoticeKind::Remove),
        n(1, 3, NoticeKind::Put),
        n(3, 1, NoticeKind::Put),
        n(3, 1, NoticeKind::Move),
    ]);
    assert_eq!(got, expected);
    assert_eq!(map.get_location(r).unwrap().x, 120);
}

#[test]
fn chat_and_whispers() {
    assert_eq!(chat_text("bob", "hello"), "[bob] hello");
    let mut map = MapInfo::new();
    map.add_new_object(player(1, 100, 100));
    map.add_new_object(spawn_npc(2, 129, 100));
    map.add_new_object(spawn_npc(3, 130, 100));
    let at = Location { x: 100, y: 100, map: 4, direction: 0 };
    assert_eq!(sorted(objects_within(&map, at, CHAT_RANGE_SQUARED)), vec![1, 2]);
    assert_eq!(whisper_targets(&map, "hero"), vec![1]);
    assert!(whisper_targets(&map, "guard").is_empty());
    assert_eq!(move_from_target(10, 10, 0), (10, 9));
    assert_eq!(move_from_target(10, 10, 3), (11, 11));
    assert_eq!(move_from_target(10, 10, 9), (10, 10));
}

#[test]
fn character_selection_and_deletion() {
    let young = Character::new("a".into(), 1, "young".into(), 0, 0, 1, 1, 1, 1, 1, 1).unwrap();
    let old = Character::from_stored(
        "a".into(), "old".into(), 2, 0, 40, "".into(), 0, 0, 1, 1, 1, 1, 1, 1, 1, 1, 1, 0,
    )
    .unwrap();
    let chars = vec![young, old];
    assert_eq!(find_character(&chars, "old"), Some(1));
    assert_eq!(find_character(&chars, "none"), None);
    assert_eq!(delete_answer(&chars, "old"), Some(ServerPacket::DeleteCharacterWait));
    assert_eq!(delete_answer(&chars, "young"), Some(ServerPacket::DeleteCharacterOk));
    assert_eq!(delete_answer(&chars, "none"), None);
    let ps = character_list_packets(&chars);
    assert_eq!(ps.len(), 3);
    assert_eq!(ps[0], ServerPacket::NumberCharacters(2, 8));
    assert_eq!(new_character_id(Some(44)), 44);
    let mut chars = chars;
    assert!(remove_character(&mut chars, "none").is_none());
    assert_eq!(chars.len(), 2);
    let gone = remove_character(&mut chars, "young").unwrap();
    assert_eq!(gone.name(), "young");
    assert_eq!(chars.len(), 1);
    assert_eq!(chars[0].name(), "old");
    assert_eq!(new_character_id(None), 2);
}

#[test]
fn world_logins() {
    assert_eq!(
        login_with_news(String::new()),
        NewsStep::ListCharacters(vec![ServerPacket::LoginResult { code: 0 }])
    );
    assert_eq!(
        login_with_news("news!".into()),
        NewsStep::ShowNews(vec![
            ServerPacket::LoginResult { code: 0 },
            ServerPacket::News("news!".into())
        ])
    );
    let stored = UserAccount::new("u".into(), "pw".into(), "ip".into(), "salt".into());
    assert!(matches!(
        world_login(Some(stored), "u".into(), "pw".into(), "salt".into(), false, "p".into()),
        WorldLogin::LoggedIn(_)
    ));
    let stored = UserAccount::new("u".into(), "pw".into(), "ip".into(), "salt".into());
    assert!(matches!(
        world_login(Some(stored), "u".into(), "bad".into(), "salt".into(), true, "p".into()),
        WorldLogin::Refused
    ));
    assert!(matches!(
        world_login(None, "u".into(), "pw".into(), "salt".into(), false, "p".into()),
        WorldLogin::Refused
    ));
    match world_login(None, "u".into(), "pw".into(), "salt".into(), true, "1.2.3.4:5".into()) {
        WorldLogin::Created(a) => {
            assert_eq!(a.ip(), "1.2.3.4:5");
            assert!(a.check_login("salt", "pw"));
        }
        _ => panic!("account not created"),
    }
}

#[test]
fn only_administrators_shut_down() {
    let mut map = MapInfo::new();
    map.add_new_object(player(1, 1, 1));
    let r = ObjectRef::new(4, WorldObjectId(1));
    assert_eq!(shutdown_request(&map, r, false), None);
    let mut admin = match player(2, 1, 1) {
        Object::Player(p) => p,
        _ => unreachable!(),
    };
    admin.access_level = 200;
    map.add_new_object(Object::Player(admin));
    let r2 = ObjectRef::new(4, WorldObjectId(2));
    assert_eq!(shutdown_request(&map, r2, false), Some(ServerShutdownMessage::Shutdown));
    assert_eq!(shutdown_request(&map, r2, true), Some(ServerShutdownMessage::Restart));
    assert_eq!(shutdown_request(&map, ObjectRef::new(4, WorldObjectId(5)), true), None);
}

fn attacker() -> Attacker {
    Attacker {
        location: Location { x: 1, y: 1, map: 4, direction: 0 },
        atype: BasicObjectType::Player,
        is_monster: false,
        base_attack_rate: 1,
        str_attack_hit_bonus: 2,
        dex_attack_hit_bonus: 3,
        str_attack_dmg_bonus: 4,
        dex_attack_dmg_bonus: 5,
        hit_rate_bonus: 6,
        ranged_hit_rate_bonus: 7,
        other_hit_rate_bonus: 8,
        weight_penalty: 3,
        critical: (0, 19),
        polymorph: None,
        effects: vec![],
    }
}

#[test]
fn attacks() {
    let d = Damage::new(attacker(), None, true).unwrap();
    assert_eq!(d.attack_roll_bonus, 1 + 2 + 3 - 3 + 8);
    assert_eq!(d.range, 1);
    assert_eq!(d.damage_bonus, 0);
    assert!(Damage::new(attacker(), None, false).is_none());
    let mut m = attacker();
    m.is_monster = true;
    assert_eq!(Damage::new(m, None, true).unwrap().range, 17);

    let mut d = Damage::new(attacker(), None, true).unwrap();
    // out of range: never hits, the bonus is unchanged
    let rolls = HitRolls { attack: 19, defense: 0, hit: 1, evade: 100 };
    assert!(!d.hit_with(2, &vec![], 0, 0, &rolls));
    assert_eq!(d.attack_roll_bonus, 11);
    // a high roll against armor 10 hits when the hit roll is below 100
    assert!(d.hit_with(1, &vec![], 10, 0, &HitRolls { attack: 10, defense: 0, hit: 99, evade: 1 }));
    assert!(!d.hit_with(1, &vec![], 10, 0, &HitRolls { attack: 10, defense: 0, hit: 100, evade: 1 }));
    // a critical miss
    assert!(!d.hit_with(1, &vec![], 10, 0, &HitRolls { attack: 0, defense: 0, hit: 1, evade: 1 }));
    // an absolute barrier stops every attack, uncanny dodge lowers the bonus
    assert!(!d.hit_with(1, &vec![Effect::AbsoluteBarrier], 10, 0, &rolls));
    let before = d.attack_roll_bonus;
    d.hit_with(1, &vec![Effect::UncannyDodge], 10, 0, &rolls);
    assert_eq!(d.attack_roll_bonus, before - 5);
    let r = Damage::roll(-5);
    assert!(r.attack < 20 && r.defense < 8 && (1..=100).contains(&r.hit));
}

#[test]
fn attacks_out_of_range_leave_the_attack_alone() {
    let mut d = Damage::new(attacker(), None, true).unwrap();
    let before = d.attack_roll_bonus;
    let far = d.range as u32 + 1;
    assert!(!d.should_hit(far, &vec![lineage_server::world::object::Effect::UncannyDodge], 5, 0));
    assert_eq!(d.attack_roll_bonus, before);
    d.should_hit(0, &vec![lineage_server::world::object::Effect::UncannyDodge], 5, 0);
    assert_eq!(d.attack_roll_bonus, before - 5);
}
