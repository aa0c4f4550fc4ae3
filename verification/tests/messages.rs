use lineage_server::character::Location;
use lineage_server::messages::ServerMessage;
use lineage_server::server_packet::ServerPacket;
use lineage_server::world::WorldObjectId;

#[test]
fn creation_status_codes() {
    assert_eq!(
        ServerMessage::CharacterCreateStatus(0).into_packet(),
        Some(ServerPacket::CharacterCreationStatus(2))
    );
    assert_eq!(
        ServerMessage::CharacterCreateStatus(1).into_packet(),
        Some(ServerPacket::CharacterCreationStatus(9))
    );
    assert_eq!(
        ServerMessage::CharacterCreateStatus(2).into_packet(),
        Some(ServerPacket::CharacterCreationStatus(6))
    );
    assert_eq!(
        ServerMessage::CharacterCreateStatus(3).into_packet(),
        Some(ServerPacket::CharacterCreationStatus(21))
    );
    assert_eq!(ServerMessage::CharacterCreateStatus(4).into_packet(), None);
}

#[test]
fn chat_messages_become_chat_packets() {
    assert_eq!(
        ServerMessage::WhisperChat("ann".to_string(), "hi".to_string()).into_packet(),
        Some(ServerPacket::WhisperChat { name: "ann".to_string(), msg: "hi".to_string() })
    );
    assert_eq!(
        ServerMessage::YellChat { id: 4, msg: "hey".to_string(), x: 1, y: 2 }.into_packet(),
        Some(ServerPacket::YellChat { id: 4, msg: "hey".to_string(), x: 1, y: 2 })
    );
    assert_eq!(ServerMessage::Disconnect.into_packet(), Some(ServerPacket::Disconnect));
    assert_eq!(
        ServerMessage::GlobalChat("g".to_string()).into_packet(),
        Some(ServerPacket::GlobalChat("g".to_string()))
    );
}

#[test]
fn messages_handled_elsewhere_send_nothing() {
    assert_eq!(ServerMessage::AssignId(5).into_packet(), None);
    let l = Location { x: 1, y: 2, map: 3, direction: 0 };
    assert_eq!(
        ServerMessage::AddObject { id: WorldObjectId(7), location: l }.into_packet(),
        None
    );
    assert_eq!(ServerMessage::RemoveObject { id: WorldObjectId(7) }.into_packet(), None);
}
