use lineage_server::character::Location;
use lineage_server::lifecycle::{exit_result, on_event, Reaction, ServerEvent, ShutdownMode};
use lineage_server::messages::ServerShutdownMessage;
use lineage_server::world::monster::MonsterMind;
use lineage_server::world::{ObjectRef, WorldObjectId};

#[test]
fn shutdown_modes() {
    let mut mode = None;
    assert_eq!(
        on_event(&mut mode, ServerEvent::Request(ServerShutdownMessage::Restart)),
        Reaction { stop_servers: true, leave: false }
    );
    assert_eq!(mode, Some(ShutdownMode::Restart));
    assert_eq!(
        on_event(&mut mode, ServerEvent::TaskFinished),
        Reaction { stop_servers: false, leave: true }
    );
    assert_eq!(mode, Some(ShutdownMode::Restart));
    assert_eq!(exit_result(mode.unwrap()), Err("Restarting".to_string()));

    let mut mode = None;
    on_event(&mut mode, ServerEvent::RequestsBroken);
    assert_eq!(mode, None);
    on_event(&mut mode, ServerEvent::TaskFinished);
    assert_eq!(mode, Some(ShutdownMode::Abnormal));
    assert_eq!(exit_result(ShutdownMode::Abnormal), Err("Abnormal shutdown".to_string()));

    let mut mode = Some(ShutdownMode::Normal);
    on_event(&mut mode, ServerEvent::TaskFailed("boom".to_string()));
    assert_eq!(mode, Some(ShutdownMode::Error("boom".to_string())));
    assert_eq!(exit_result(ShutdownMode::Normal), Ok(()));
    let mut mode = None;
    on_event(&mut mode, ServerEvent::Interrupted);
    assert_eq!(mode, Some(ShutdownMode::Normal));
}

#[test]
fn monster_minds() {
    let r = ObjectRef::new(4, WorldObjectId(9));
    let mut m = MonsterMind::new(r, Location { x: 10, y: 10, map: 4, direction: 0 });
    assert_eq!(m.find_target(), None);
    assert!(!m.on_attack(5, 8));
    assert!(m.on_attack(5, 9));
    assert_eq!(m.find_target(), None);
    m.on_object_at(5, 11, 10, 2);
    assert_eq!(m.find_target(), Some(5));
    m.on_object_removed(5);
    assert_eq!(m.find_target(), None);
    assert!(m.on_client_id(77));
    assert!(!m.on_client_id(78));
    assert_eq!(m.id, Some(77));
    assert_eq!(m.step(3), (10, 10));
    assert_eq!(m.location, Location { x: 11, y: 11, map: 4, direction: 3 });
    let from = m.wander();
    assert_eq!(from, (11, 11));
    let l = m.location;
    assert!(l.direction < 8);
    assert!((l.x as i32 - 11).abs() <= 1 && (l.y as i32 - 11).abs() <= 1);
}
