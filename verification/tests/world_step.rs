use lineage_server::character::{Character, ExtraCharacterDetails};
use lineage_server::client_packet::ClientPacket;
use lineage_server::clients::ClientList;
use lineage_server::messages::ServerShutdownMessage;
use lineage_server::server_packet::ServerPacket;
use lineage_server::world::state::{WorldResponse, WorldState};
use lineage_server::world::step::{world_step, WorldAction, WorldEvent};
use lineage_server::world::{GameMap, ObjectRef, WorldObjectId};
use std::collections::HashMap;

fn map(id: u16) -> GameMap {
    GameMap {
        id,
        name: "town".into(),
        min_x: 0,
        max_x: 100,
        min_y: 0,
        max_y: 100,
        underwater: false,
        bookmarkable: true,
        random_teleport: true,
        escapable: true,
        resurrection: true,
        spawn_monster: true,
        death_exp_penalty: true,
        pets: true,
        summon_monster: true,
        item_usage: true,
        skill_usage: true,
    }
}

/// A world with one player, "hero" (object 500 on map 4, at 10,10), played by client 500
fn world(access: u16) -> WorldState {
    let mut w = WorldState::new(1);
    w.add_map(map(4));
    w.client_ids = ClientList::starting_at(500);
    let c = Character::from_stored(
        "acc".into(), "hero".into(), 1, 0, 10, "".into(), 0, 0, 20, 5, 3, 12, 12, 12, 12, 12, 12,
        access,
    )
    .unwrap();
    let d = ExtraCharacterDetails::from_stored(0, 1, 1, 0, 0, 0, 0, 0, 0, 0, 10, 10, 4);
    let p = c.into_partial(WorldObjectId(500), d, vec![]).into_full(&HashMap::new());
    let (r, _) = w.add_player(p, 100);
    let r = r.unwrap();
    let acts = world_step(&mut w, WorldEvent::Register);
    assert_eq!(acts.len(), 1);
    assert!(matches!(acts[0], WorldAction::Send(500, WorldResponse::NewClientId(500))));
    w.characters.insert(500, WorldObjectId(500));
    w.object_ref_table.insert(500, r);
    w
}

fn packet(w: &mut WorldState, p: ClientPacket) -> Vec<WorldAction> {
    world_step(w, WorldEvent::Packet { sender: Some(500), packet: p })
}

#[test]
fn registered_clients_get_the_version() {
    let mut w = world(0);
    let acts = packet(&mut w, ClientPacket::Version(1, 2, 3, 4));
    assert_eq!(acts.len(), 1);
    assert!(matches!(
        acts[0],
        WorldAction::Send(
            500,
            WorldResponse::ServerPacket(ServerPacket::ServerVersion {
                id: 2,
                version: 0x16009,
                time: 3,
                new_accounts: 1,
                english: 1,
                country: 0
            })
        )
    ));
    assert!(world_step(&mut w, WorldEvent::Unregister(500)).is_empty());
    assert!(packet(&mut w, ClientPacket::Version(1, 2, 3, 4)).is_empty());
    assert!(world_step(&mut w, WorldEvent::Packet { sender: None, packet: ClientPacket::KeepAlive })
        .is_empty());
}

#[test]
fn chat_reaches_the_players_nearby() {
    let mut w = world(0);
    for (p, kind) in [
        (ClientPacket::Chat("hi".into()), 0),
        (ClientPacket::YellChat("hi".into()), 1),
        (ClientPacket::GlobalChat("hi".into()), 2),
        (ClientPacket::PartyChat("hi".into()), 3),
        (ClientPacket::PledgeChat("hi".into()), 4),
    ] {
        let acts = packet(&mut w, p);
        assert_eq!(acts.len(), 1);
        match (&acts[0], kind) {
            (WorldAction::Send(500, WorldResponse::ServerPacket(ServerPacket::RegularChat { id: 0, msg })), 0) => {
                assert_eq!(msg, "[hero] hi")
            }
            (
                WorldAction::Send(500, WorldResponse::ServerPacket(ServerPacket::YellChat { id: 0, msg, x: 10, y: 10 })),
                1,
            ) => assert_eq!(msg, "[hero] hi"),
            (WorldAction::Send(500, WorldResponse::ServerPacket(ServerPacket::GlobalChat(msg))), 2) => {
                assert_eq!(msg, "[hero] hi")
            }
            (WorldAction::Send(500, WorldResponse::ServerPacket(ServerPacket::PartyChat(msg))), 3) => {
                assert_eq!(msg, "[hero] hi")
            }
            (WorldAction::Send(500, WorldResponse::ServerPacket(ServerPacket::PledgeChat(msg))), 4) => {
                assert_eq!(msg, "[hero] hi")
            }
            _ => panic!("wrong action"),
        }
    }
}

#[test]
fn whispers_find_the_named_player() {
    let mut w = world(0);
    let acts = packet(&mut w, ClientPacket::WhisperChat("hero".into(), "psst".into()));
    assert_eq!(acts.len(), 1);
    match &acts[0] {
        WorldAction::Send(500, WorldResponse::ServerPacket(ServerPacket::WhisperChat { name, msg })) => {
            assert_eq!(name, "hero");
            assert_eq!(msg, "psst");
        }
        _ => panic!("wrong action"),
    }
    let acts = packet(&mut w, ClientPacket::WhisperChat("nobody".into(), "psst".into()));
    assert_eq!(acts.len(), 1);
    match &acts[0] {
        WorldAction::Send(500, WorldResponse::Message { ty, msgs }) => {
            assert_eq!(*ty, 73);
            assert_eq!(msgs, &vec!["nobody".to_string()]);
        }
        _ => panic!("wrong action"),
    }
}

#[test]
fn command_chat_in_the_world() {
    let mut w = world(0);
    let acts = packet(&mut w, ClientPacket::CommandChat("quit now".into()));
    assert!(matches!(acts[..], [WorldAction::Send(500, WorldResponse::ServerPacket(ServerPacket::Disconnect))]));
    assert_eq!(packet(&mut w, ClientPacket::CommandChat("chat".into())).len(), 8);
    assert!(packet(&mut w, ClientPacket::CommandChat("shutdown".into())).is_empty());
    assert!(packet(&mut w, ClientPacket::CommandChat("dance".into())).is_empty());
    let mut admin = world(200);
    let acts = packet(&mut admin, ClientPacket::CommandChat("restart".into()));
    assert!(matches!(acts[..], [WorldAction::Top(ServerShutdownMessage::Restart)]));
    let acts = packet(&mut admin, ClientPacket::CommandChat(" shutdown".into()));
    assert!(matches!(acts[..], [WorldAction::Top(ServerShutdownMessage::Shutdown)]));
}

#[test]
fn turning_and_stored_packets() {
    let mut w = world(0);
    assert!(packet(&mut w, ClientPacket::ChangeDirection(3)).is_empty());
    assert_eq!(w.get_location(ObjectRef::new(4, WorldObjectId(500))).unwrap().direction, 3);
    let acts = packet(&mut w, ClientPacket::NewsDone);
    assert!(matches!(acts[..], [WorldAction::Stored(500, ClientPacket::NewsDone)]));
    let acts = packet(&mut w, ClientPacket::DeleteCharacter("hero".into()));
    assert!(matches!(&acts[..], [WorldAction::Stored(500, ClientPacket::DeleteCharacter(n))] if n == "hero"));
}
