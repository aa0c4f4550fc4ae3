//! Messages passed between the parts of the server

use crate::character::Location;
use crate::server_packet::ServerPacket;
use crate::world::WorldObjectId;
use vstd::prelude::*;

verus! {

/// Represents messages sent by the server to player clients
#[allow(inconsistent_fields)]
#[derive(Clone, Debug, PartialEq)]
pub enum ServerMessage {
    /// The client is given an id
    AssignId(u32),
    /// The client is to disconnect
    Disconnect,
    /// A message from the system
    SystemMessage(String),
    /// A shout from an npc
    NpcShout(String),
    /// A regular chat message
    RegularChat { id: u32, msg: String },
    ///msg = "player name: message"
    YellChat { id: u32, msg: String, x: u16, y: u16 },
    ///msg = "<player name> message"
    GlobalChat(String),
    ///msg = "[player name] message"
    PledgeChat(String),
    /// A party chat message
    PartyChat(String),
    ///name message
    WhisperChat(String, String),
    /// The outcome of a request to create a character (0 to 3)
    CharacterCreateStatus(u8),
    /// The details of a new character
    NewCharacterDetails {
        name: String,
        pledge: String,
        class: u8,
        gender: u8,
        alignment: i16,
        hp: u16,
        mp: u16,
        ac: i8,
        level: u8,
        strength: u8,
        dexterity: u8,
        constitution: u8,
        wisdom: u8,
        charisma: u8,
        intelligence: u8,
    },
    /// Add an object to the players known object list
    AddObject {
        /// The id of the object
        id: WorldObjectId,
        /// The location of the object
        location: Location,
    },
    /// Remove an object from the players known object list
    RemoveObject {
        /// The id of the object
        id: WorldObjectId,
    },
}

/// Messages that can be passed back to the top level of the server
#[derive(Clone, Copy, Debug, PartialEq, Eq, Structural)]
pub enum ServerShutdownMessage {
    Shutdown,
    Restart,
}

/// The status code the game client expects for a character creation outcome: 0 (created)
/// is 2, 1 (the name is taken) is 9, 2 (invalid name) is 6 and 3 (wrong amount of points)
/// is 21
pub open spec fn creation_status_code(v: u8) -> Option<u8> {
    if v == 0 {
        Some(2u8)
    } else if v == 1 {
        Some(9u8)
    } else if v == 2 {
        Some(6u8)
    } else if v == 3 {
        Some(21u8)
    } else {
        None
    }
}

/// The packet that a client is sent for a message of the server, if any: the id assignment
/// and the object messages are handled elsewhere, and an unknown creation status sends nothing
pub open spec fn message_packet(m: ServerMessage) -> Option<ServerPacket> {
    match m {
        ServerMessage::AssignId(_) => None,
        ServerMessage::Disconnect => Some(ServerPacket::Disconnect),
        ServerMessage::SystemMessage(s) => Some(ServerPacket::SystemMessage(s)),
        ServerMessage::NpcShout(s) => Some(ServerPacket::NpcShout(s)),
        ServerMessage::RegularChat { id, msg } => Some(ServerPacket::RegularChat { id, msg }),
        ServerMessage::YellChat { id, msg, x, y } => Some(ServerPacket::YellChat { id, msg, x, y }),
        ServerMessage::GlobalChat(s) => Some(ServerPacket::GlobalChat(s)),
        ServerMessage::PledgeChat(s) => Some(ServerPacket::PledgeChat(s)),
        ServerMessage::PartyChat(s) => Some(ServerPacket::PartyChat(s)),
        ServerMessage::WhisperChat(name, msg) => Some(ServerPacket::WhisperChat { name, msg }),
        ServerMessage::CharacterCreateStatus(v) => match creation_status_code(v) {
            Some(c) => Some(ServerPacket::CharacterCreationStatus(c)),
            None => None,
        },
        ServerMessage::NewCharacterDetails {
            name,
            pledge,
            class,
            gender,
            alignment,
            hp,
            mp,
            ac,
            level,
            strength,
            dexterity,
            constitution,
            wisdom,
            charisma,
            intelligence,
        } => Some(
            ServerPacket::NewCharacterDetails {
                name,
                pledge,
                class,
                gender,
                alignment,
                hp,
                mp,
                ac,
                level,
                strength,
                dexterity,
                constitution,
                wisdom,
                charisma,
                intelligence,
            },
        ),
        ServerMessage::AddObject { .. } => None,
        ServerMessage::RemoveObject { .. } => None,
    }
}

impl ServerMessage {
    /// The packet to send to the client for this message, if any
    pub fn into_packet(self) -> (p: Option<ServerPacket>)
        ensures
            p == message_packet(self),
    {
        match self {
            ServerMessage::AssignId(_) => None,
            ServerMessage::Disconnect => Some(ServerPacket::Disconnect),
            ServerMessage::SystemMessage(s) => Some(ServerPacket::SystemMessage(s)),
            ServerMessage::NpcShout(s) => Some(ServerPacket::NpcShout(s)),
            ServerMessage::RegularChat { id, msg } => Some(ServerPacket::RegularChat { id, msg }),
            ServerMessage::YellChat { id, msg, x, y } => Some(
                ServerPacket::YellChat { id, msg, x, y },
            ),
            ServerMessage::GlobalChat(s) => Some(ServerPacket::GlobalChat(s)),
            ServerMessage::PledgeChat(s) => Some(ServerPacket::PledgeChat(s)),
            ServerMessage::PartyChat(s) => Some(ServerPacket::PartyChat(s)),
            ServerMessage::WhisperChat(name, msg) => Some(ServerPacket::WhisperChat { name, msg }),
            ServerMessage::CharacterCreateStatus(v) => {
                if v == 0 {
                    Some(ServerPacket::CharacterCreationStatus(2))
                } else if v == 1 {
                    Some(ServerPacket::CharacterCreationStatus(9))
                } else if v == 2 {
                    Some(ServerPacket::CharacterCreationStatus(6))
                } else if v == 3 {
                    Some(ServerPacket::CharacterCreationStatus(21))
                } else {
                    None
                }
            },
            ServerMessage::NewCharacterDetails {
                name,
                pledge,
                class,
                gender,
                alignment,
                hp,
                mp,
                ac,
                level,
                strength,
                dexterity,
                constitution,
                wisdom,
                charisma,
                intelligence,
            } => Some(
                ServerPacket::NewCharacterDetails {
                    name,
                    pledge,
                    class,
                    gender,
                    alignment,
                    hp,
                    mp,
                    ac,
                    level,
                    strength,
                    dexterity,
                    constitution,
                    wisdom,
                    charisma,
                    intelligence,
                },
            ),
            ServerMessage::AddObject { .. } => None,
            ServerMessage::RemoveObject { .. } => None,
        }
    }
}

/// This enum represents the messages sent from a client
#[derive(Debug, PartialEq)]
pub enum ClientMessage {
    /// A regular chat level
    RegularChat {
        /// The id of the character that did the chat
        id: u32,
        /// The message
        msg: String,
    },
    ///msg = "player name: message"
    YellChat {
        /// The id of the character that did the yelling
        id: u32,
        /// The yell message
        msg: String,
        /// They x coordinate where yelling came from
        x: u16,
        /// The y coordinate where yelling came from
        y: u16,
    },
    ///msg = "<player name> message"
    GlobalChat(u32, String),
    ///msg = "[player name] message"
    PledgeChat(u32, String),
    /// party level chat
    PartyChat(u32, String),
    ///id, name message
    WhisperChat(u32, String, String),
    ///Id and account name that was successfully logged in
    LoggedIn(u32, String),
    /// Create a new character
    NewCharacter {
        id: u32,
        name: String,
        class: u8,
        gender: u8,
        strength: u8,
        dexterity: u8,
        constitution: u8,
        wisdom: u8,
        charisma: u8,
        intelligence: u8,
    },
    /// The client wishes to delete a character
    DeleteCharacter {
        /// The id of the character to delete
        id: u32,
        /// The name of the character to delete
        name: String,
    },
    /// Unregister the client with the id
    Unregister(u32),
}

} // verus!
