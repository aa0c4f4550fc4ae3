//! The packets game clients send to the server, and how they are read from bytes

use crate::packet::{first_zero, latin1, le16, le32, lemma_first_zero_is, lemma_read_nonneg, Packet};
use vstd::prelude::*;

verus! {

/// The 'ClientPacket' type. Represents packets sent by the client
#[derive(Debug, PartialEq)]
pub enum ClientPacket {
    /// The client version
    Version(u16, u32, u8, u32),
    /// A login attempt with account name and password
    Login(String, String, u32, u32, u32, u32, u32, u32, u32),
    /// A whispered message to the named player
    WhisperChat(String, String),
    /// Delete the named character
    DeleteCharacter(String),
    /// A global chat message
    GlobalChat(String),
    /// The client is done reading the news
    NewsDone,
    /// The connection is still in use
    KeepAlive,
    /// Create a new character
    NewCharacter { name: String, class: u8, gender: u8, strength: u8, dexterity: u8, constitution: u8, wisdom: u8, charisma: u8, intelligence: u8 },
    /// The character changes the direction it faces
    ChangeDirection(u8),
    /// Log in with the named character
    CharacterSelect { name: String },
    /// The character moves
    Move { x: u16, y: u16, heading: u8 },
    /// The client finished initializing the game
    GameInitDone,
    /// The client window was activated or deactivated
    WindowActivate(u8),
    /// Change the password of an account
    ChangePassword { account: String, oldpass: String, newpass: String },
    /// Save the character
    Save,
    /// A regular chat message
    Chat(String),
    /// A yelled chat message
    YellChat(String),
    /// A party chat message
    PartyChat(String),
    /// A pledge chat message
    PledgeChat(String),
    /// A command, typed as a chat message starting with '-'
    CommandChat(String),
    /// A special command, typed as a chat message starting with '.'
    SpecialCommandChat(String),
    /// A packet that is not understood, with all of its bytes
    Unknown(Vec<u8>),
}

/// The abstract value of a client packet: strings as characters, bytes as sequences
pub enum ClientPacketView {
    /// The client version
    Version(u16, u32, u8, u32),
    /// A login attempt with account name and password
    Login(Seq<char>, Seq<char>, u32, u32, u32, u32, u32, u32, u32),
    /// A whispered message to the named player
    WhisperChat(Seq<char>, Seq<char>),
    /// Delete the named character
    DeleteCharacter(Seq<char>),
    /// A global chat message
    GlobalChat(Seq<char>),
    /// The client is done reading the news
    NewsDone,
    /// The connection is still in use
    KeepAlive,
    /// Create a new character
    NewCharacter { name: Seq<char>, class: u8, gender: u8, strength: u8, dexterity: u8, constitution: u8, wisdom: u8, charisma: u8, intelligence: u8 },
    /// The character changes the direction it faces
    ChangeDirection(u8),
    /// Log in with the named character
    CharacterSelect { name: Seq<char> },
    /// The character moves
    Move { x: u16, y: u16, heading: u8 },
    /// The client finished initializing the game
    GameInitDone,
    /// The client window was activated or deactivated
    WindowActivate(u8),
    /// Change the password of an account
    ChangePassword { account: Seq<char>, oldpass: Seq<char>, newpass: Seq<char> },
    /// Save the character
    Save,
    /// A regular chat message
    Chat(Seq<char>),
    /// A yelled chat message
    YellChat(Seq<char>),
    /// A party chat message
    PartyChat(Seq<char>),
    /// A pledge chat message
    PledgeChat(Seq<char>),
    /// A command, typed as a chat message starting with '-'
    CommandChat(Seq<char>),
    /// A special command, typed as a chat message starting with '.'
    SpecialCommandChat(Seq<char>),
    /// A packet that is not understood, with all of its bytes
    Unknown(Seq<u8>),
}

impl View for ClientPacket {
    type V = ClientPacketView;

    open spec fn view(&self) -> ClientPacketView {
        match *self {
            ClientPacket::Version(a0, a1, a2, a3) => ClientPacketView::Version(
                a0, a1, a2, a3,
            ),
            ClientPacket::Login(a0, a1, a2, a3, a4, a5, a6, a7, a8) => ClientPacketView::Login(
                a0@, a1@, a2, a3, a4, a5, a6, a7, a8,
            ),
            ClientPacket::WhisperChat(a0, a1) => ClientPacketView::WhisperChat(
                a0@, a1@,
            ),
            ClientPacket::DeleteCharacter(a0) => ClientPacketView::DeleteCharacter(
                a0@,
            ),
            ClientPacket::GlobalChat(a0) => ClientPacketView::GlobalChat(
                a0@,
            ),
            ClientPacket::NewsDone => ClientPacketView::NewsDone,
            ClientPacket::KeepAlive => ClientPacketView::KeepAlive,
            ClientPacket::NewCharacter { name, class, gender, strength, dexterity, constitution, wisdom, charisma, intelligence } => ClientPacketView::NewCharacter {
                name: name@,
                class: class,
                gender: gender,
                strength: strength,
                dexterity: dexterity,
                constitution: constitution,
                wisdom: wisdom,
                charisma: charisma,
                intelligence: intelligence,
            },
            ClientPacket::ChangeDirection(a0) => ClientPacketView::ChangeDirection(
                a0,
            ),
            ClientPacket::CharacterSelect { name } => ClientPacketView::CharacterSelect {
                name: name@,
            },
            ClientPacket::Move { x, y, heading } => ClientPacketView::Move {
                x: x,
                y: y,
                heading: heading,
            },
            ClientPacket::GameInitDone => ClientPacketView::GameInitDone,
            ClientPacket::WindowActivate(a0) => ClientPacketView::WindowActivate(
                a0,
            ),
            ClientPacket::ChangePassword { account, oldpass, newpass } => ClientPacketView::ChangePassword {
                account: account@,
                oldpass: oldpass@,
                newpass: newpass@,
            },
            ClientPacket::Save => ClientPacketView::Save,
            ClientPacket::Chat(a0) => ClientPacketView::Chat(
                a0@,
            ),
            ClientPacket::YellChat(a0) => ClientPacketView::YellChat(
                a0@,
            ),
            ClientPacket::PartyChat(a0) => ClientPacketView::PartyChat(
                a0@,
            ),
            ClientPacket::PledgeChat(a0) => ClientPacketView::PledgeChat(
                a0@,
            ),
            ClientPacket::CommandChat(a0) => ClientPacketView::CommandChat(
                a0@,
            ),
            ClientPacket::SpecialCommandChat(a0) => ClientPacketView::SpecialCommandChat(
                a0@,
            ),
            ClientPacket::Unknown(a0) => ClientPacketView::Unknown(
                a0@,
            ),
        }
    }
}

/// Read a zero terminated string at `p`, with the position after its terminator
pub open spec fn spec_str(d: Seq<u8>, p: int) -> Option<(Seq<char>, int)> {
    if 0 <= p && first_zero(d, p) < d.len() {
        Some((latin1(d.subrange(p, first_zero(d, p))), first_zero(d, p) + 1))
    } else {
        None
    }
}

/// The packet that a chat message of type `t` with text `m` stands for, or none
/// where an ordinary message is empty; `d` holds all bytes of the packet
pub open spec fn spec_chat(t: u8, m: Seq<char>, d: Seq<u8>) -> Option<ClientPacketView> {
    if t == 0 {
        if m.len() == 0 {
            None
        } else if m[0] == '!' {
            Some(ClientPacketView::YellChat(m.drop_first()))
        } else if m[0] == '-' {
            Some(ClientPacketView::CommandChat(m.drop_first()))
        } else if m[0] == '.' {
            Some(ClientPacketView::SpecialCommandChat(m.drop_first()))
        } else {
            Some(ClientPacketView::Chat(m))
        }
    } else if t == 4 {
        Some(ClientPacketView::PledgeChat(m))
    } else if t == 11 {
        Some(ClientPacketView::PartyChat(m))
    } else {
        Some(ClientPacketView::Unknown(d))
    }
}

/// The packet that the bytes `d` stand for when read from position `p` on, or
/// none where they end before the packet does (or hold an empty ordinary chat message)
pub open spec fn parse_client_packet(d: Seq<u8>, p: int) -> Option<ClientPacketView> {
    if 0 <= p && p + 1 <= d.len() {
        let opcode = d[p];
        let p0 = p + 1;
        if opcode == 104 {
            if p0 + 1 <= d.len() {
                match spec_str(d, p0 + 1) {
                    Some((m, q)) => spec_chat(d[p0], m, d),
                    None => None,
                }
            } else {
                None
            }
        } else if opcode == 71 {
            if p0 + 11 <= d.len() {
                let a = le16(d[p0], d[p0 + 1]);
                let b = le32(d[p0 + 2], d[p0 + 3], d[p0 + 4], d[p0 + 5]);
                let c = d[p0 + 6];
                let e = le32(d[p0 + 7], d[p0 + 8], d[p0 + 9], d[p0 + 10]);
                Some(ClientPacketView::Version(a, b, c, e))
            } else {
                None
            }
        } else if opcode == 12 {
            match spec_str(d, p0) {
                Some((user, q1)) => {
                    match spec_str(d, q1) {
                        Some((pass, q2)) => {
                            if q2 + 28 <= d.len() {
                                let v1 = le32(d[q2], d[q2 + 1], d[q2 + 2], d[q2 + 3]);
                                let v2 = le32(d[q2 + 4], d[q2 + 5], d[q2 + 6], d[q2 + 7]);
                                let v3 = le32(d[q2 + 8], d[q2 + 9], d[q2 + 10], d[q2 + 11]);
                                let v4 = le32(d[q2 + 12], d[q2 + 13], d[q2 + 14], d[q2 + 15]);
                                let v5 = le32(d[q2 + 16], d[q2 + 17], d[q2 + 18], d[q2 + 19]);
                                let v6 = le32(d[q2 + 20], d[q2 + 21], d[q2 + 22], d[q2 + 23]);
                                let v7 = le32(d[q2 + 24], d[q2 + 25], d[q2 + 26], d[q2 + 27]);
                                Some(ClientPacketView::Login(user, pass, v1, v2, v3, v4, v5, v6, v7))
                            } else {
                                None
                            }
                        },
                        None => None,
                    }
                },
                None => None,
            }
        } else if opcode == 13 {
            match spec_str(d, p0) {
                Some((name, q1)) => {
                    match spec_str(d, q1) {
                        Some((msg, q2)) => {
                            Some(ClientPacketView::WhisperChat(name, msg))
                        },
                        None => None,
                    }
                },
                None => None,
            }
        } else if opcode == 34 {
            match spec_str(d, p0) {
                Some((name, q1)) => {
                    Some(ClientPacketView::DeleteCharacter(name))
                },
                None => None,
            }
        } else if opcode == 40 {
            if p0 + 1 <= d.len() {
                match spec_str(d, (p0 + 1)) {
                    Some((msg, q2)) => {
                        Some(ClientPacketView::GlobalChat(msg))
                    },
                    None => None,
                }
            } else {
                None
            }
        } else if opcode == 43 {
            Some(ClientPacketView::NewsDone)
        } else if opcode == 57 {
            Some(ClientPacketView::KeepAlive)
        } else if opcode == 72 {
            match spec_str(d, p0) {
                Some((name, q1)) => {
                    if q1 + 8 <= d.len() {
                        let class = d[q1];
                        let gender = d[q1 + 1];
                        let strength = d[q1 + 2];
                        let dexterity = d[q1 + 3];
                        let constitution = d[q1 + 4];
                        let wisdom = d[q1 + 5];
                        let charisma = d[q1 + 6];
                        let intelligence = d[q1 + 7];
                        Some(ClientPacketView::NewCharacter { name: name, class: class, gender: gender, strength: strength, dexterity: dexterity, constitution: constitution, wisdom: wisdom, charisma: charisma, intelligence: intelligence })
                    } else {
                        None
                    }
                },
                None => None,
            }
        } else if opcode == 74 {
            if p0 + 1 <= d.len() {
                let d = d[p0];
                Some(ClientPacketView::ChangeDirection(d))
            } else {
                None
            }
        } else if opcode == 83 {
            match spec_str(d, p0) {
                Some((name, q1)) => {
                    Some(ClientPacketView::CharacterSelect { name: name })
                },
                None => None,
            }
        } else if opcode == 88 {
            if p0 + 5 <= d.len() {
                let x = le16(d[p0], d[p0 + 1]);
                let y = le16(d[p0 + 2], d[p0 + 3]);
                let heading = d[p0 + 4];
                Some(ClientPacketView::Move { x: x, y: y, heading: heading })
            } else {
                None
            }
        } else if opcode == 92 {
            Some(ClientPacketView::GameInitDone)
        } else if opcode == 97 {
            if p0 + 2 <= d.len() {
                let v2 = d[p0 + 1];
                Some(ClientPacketView::WindowActivate(v2))
            } else {
                None
            }
        } else if opcode == 100 {
            match spec_str(d, p0) {
                Some((account, q1)) => {
                    match spec_str(d, q1) {
                        Some((oldpass, q2)) => {
                            match spec_str(d, q2) {
                                Some((newpass, q3)) => {
                                    Some(ClientPacketView::ChangePassword { account: account, oldpass: oldpass, newpass: newpass })
                                },
                                None => None,
                            }
                        },
                        None => None,
                    }
                },
                None => None,
            }
        } else if opcode == 111 {
            Some(ClientPacketView::Save)
        } else {
            Some(ClientPacketView::Unknown(d))
        }
    } else {
        None
    }
}

impl Packet {
    /// Read the client packet held from the read position on, or none where the
    /// bytes end before the packet does (or hold an empty ordinary chat message)
    pub fn try_convert(self) -> (r: Option<ClientPacket>)
        ensures
            match r {
                Some(c) => parse_client_packet(self@.data, self@.read) == Some(c@),
                None => parse_client_packet(self@.data, self@.read) is None,
            },
    {
        proof {
            lemma_read_nonneg(&self);
        }
        let mut pk = self;
        if pk.remaining() < 1 {
            return None;
        }
        let opcode: u8 = pk.pull_u8();
        if opcode == 104 {
            if pk.remaining() < 1 {
                return None;
            }
            let t = pk.pull_u8();
            if !pk.has_string() {
                return None;
            }
            let m = pk.pull_string();
            if t == 0 {
                if m.as_str().is_empty() {
                    return None;
                }
                let first = m.as_str().get_char(0);
                if first == '!' || first == '-' || first == '.' {
                    let rest = m.as_str().substring_char(1, m.as_str().unicode_len()).to_owned();
                    assert(rest@ =~= m@.drop_first());
                    if first == '!' {
                        Some(ClientPacket::YellChat(rest))
                    } else if first == '-' {
                        Some(ClientPacket::CommandChat(rest))
                    } else {
                        Some(ClientPacket::SpecialCommandChat(rest))
                    }
                } else {
                    Some(ClientPacket::Chat(m))
                }
            } else if t == 4 {
                Some(ClientPacket::PledgeChat(m))
            } else if t == 11 {
                Some(ClientPacket::PartyChat(m))
            } else {
                Some(ClientPacket::Unknown(pk.buf()))
            }
        } else if opcode == 71 {
            if pk.remaining() < 11 {
                return None;
            }
            let a = pk.pull_u16();
            let b = pk.pull_u32();
            let c = pk.pull_u8();
            let e = pk.pull_u32();
            Some(ClientPacket::Version(a, b, c, e))
        } else if opcode == 12 {
            if !pk.has_string() {
                return None;
            }
            let user = pk.pull_string();
            if !pk.has_string() {
                return None;
            }
            let pass = pk.pull_string();
            if pk.remaining() < 28 {
                return None;
            }
            let v1 = pk.pull_u32();
            let v2 = pk.pull_u32();
            let v3 = pk.pull_u32();
            let v4 = pk.pull_u32();
            let v5 = pk.pull_u32();
            let v6 = pk.pull_u32();
            let v7 = pk.pull_u32();
            Some(ClientPacket::Login(user, pass, v1, v2, v3, v4, v5, v6, v7))
        } else if opcode == 13 {
            if !pk.has_string() {
                return None;
            }
            let name = pk.pull_string();
            if !pk.has_string() {
                return None;
            }
            let msg = pk.pull_string();
            Some(ClientPacket::WhisperChat(name, msg))
        } else if opcode == 34 {
            if !pk.has_string() {
                return None;
            }
            let name = pk.pull_string();
            Some(ClientPacket::DeleteCharacter(name))
        } else if opcode == 40 {
            if pk.remaining() < 1 {
                return None;
            }
            pk.pull_u8();
            if !pk.has_string() {
                return None;
            }
            let msg = pk.pull_string();
            Some(ClientPacket::GlobalChat(msg))
        } else if opcode == 43 {
            Some(ClientPacket::NewsDone)
        } else if opcode == 57 {
            Some(ClientPacket::KeepAlive)
        } else if opcode == 72 {
            if !pk.has_string() {
                return None;
            }
            let name = pk.pull_string();
            if pk.remaining() < 8 {
                return None;
            }
            let class = pk.pull_u8();
            let gender = pk.pull_u8();
            let strength = pk.pull_u8();
            let dexterity = pk.pull_u8();
            let constitution = pk.pull_u8();
            let wisdom = pk.pull_u8();
            let charisma = pk.pull_u8();
            let intelligence = pk.pull_u8();
            Some(ClientPacket::NewCharacter { name: name, class: class, gender: gender, strength: strength, dexterity: dexterity, constitution: constitution, wisdom: wisdom, charisma: charisma, intelligence: intelligence })
        } else if opcode == 74 {
            if pk.remaining() < 1 {
                return None;
            }
            let d = pk.pull_u8();
            Some(ClientPacket::ChangeDirection(d))
        } else if opcode == 83 {
            if !pk.has_string() {
                return None;
            }
            let name = pk.pull_string();
            Some(ClientPacket::CharacterSelect { name: name })
        } else if opcode == 88 {
            if pk.remaining() < 5 {
                return None;
            }
            let x = pk.pull_u16();
            let y = pk.pull_u16();
            let heading = pk.pull_u8();
            Some(ClientPacket::Move { x: x, y: y, heading: heading })
        } else if opcode == 92 {
            Some(ClientPacket::GameInitDone)
        } else if opcode == 97 {
            if pk.remaining() < 2 {
                return None;
            }
            pk.pull_u8();
            let v2 = pk.pull_u8();
            Some(ClientPacket::WindowActivate(v2))
        } else if opcode == 100 {
            if !pk.has_string() {
                return None;
            }
            let account = pk.pull_string();
            if !pk.has_string() {
                return None;
            }
            let oldpass = pk.pull_string();
            if !pk.has_string() {
                return None;
            }
            let newpass = pk.pull_string();
            Some(ClientPacket::ChangePassword { account: account, oldpass: oldpass, newpass: newpass })
        } else if opcode == 111 {
            Some(ClientPacket::Save)
        } else {
            Some(ClientPacket::Unknown(pk.buf()))
        }
    }

    /// Read the client packet held from the read position on
    pub fn convert(self) -> (c: ClientPacket)
        requires
            parse_client_packet(self@.data, self@.read) is Some,
        ensures
            Some(c@) == parse_client_packet(self@.data, self@.read),
    {
        match self.try_convert() {
            Some(c) => c,
            None => {
                assert(false);
                ClientPacket::Unknown(Vec::new())
            },
        }
    }
}

/// A move request is the opcode 88 followed by x and y, each two bytes with the low byte
/// first, and the heading byte: read at `p`, its x is the pair of bytes right after the
/// opcode, its y the next pair and its heading the byte after them
pub proof fn lemma_move_request_layout(d: Seq<u8>, p: int)
    requires
        0 <= p,
        p + 6 <= d.len(),
        d[p] == 88,
    ensures
        parse_client_packet(d, p) matches Some(ClientPacketView::Move { x, y, heading }) && x as int
            == d[p + 1] as int + 256 * (d[p + 2] as int) && y as int == d[p + 3] as int + 256 * (
        d[p + 4] as int) && heading == d[p + 5],
{
}

/// Reading the bytes of an encoded move request (the opcode 88, x and y low byte first, then
/// the heading) gives back the same x, y and heading
pub proof fn lemma_move_request_roundtrip(x: u16, y: u16, heading: u8)
    ensures
        parse_client_packet(
            seq![88u8, (x % 256) as u8, (x / 256) as u8, (y % 256) as u8, (y / 256) as u8, heading],
            0,
        ) == Some(ClientPacketView::Move { x, y, heading }),
{
    let d = seq![88u8, (x % 256) as u8, (x / 256) as u8, (y % 256) as u8, (y / 256) as u8, heading];
    lemma_move_request_layout(d, 0);
}

/// The requests of fixed length, as the client writes them: a version request is the opcode 71,
/// a two byte number, a four byte number, a byte and a four byte number (low bytes first); a
/// change of direction is the opcode 74 and the direction; a window activation is the opcode
/// 97, a byte that is skipped and the value
pub proof fn lemma_fixed_request_layouts(d: Seq<u8>, p: int)
    requires
        0 <= p < d.len(),
    ensures
        d[p] == 71 && p + 12 <= d.len() ==> (parse_client_packet(d, p) matches Some(
            ClientPacketView::Version(a, b, c, e),
        ) && a as int == d[p + 1] + 256 * d[p + 2] && b as int == d[p + 3] + 256 * d[p + 4] + 65536
            * d[p + 5] + 16777216 * d[p + 6] && c == d[p + 7] && e as int == d[p + 8] + 256 * d[p
            + 9] + 65536 * d[p + 10] + 16777216 * d[p + 11]),
        d[p] == 74 && p + 2 <= d.len() ==> parse_client_packet(d, p) == Some(
            ClientPacketView::ChangeDirection(d[p + 1]),
        ),
        d[p] == 97 && p + 3 <= d.len() ==> parse_client_packet(d, p) == Some(
            ClientPacketView::WindowActivate(d[p + 2]),
        ),
        d[p] == 43 ==> parse_client_packet(d, p) == Some(ClientPacketView::NewsDone),
        d[p] == 57 ==> parse_client_packet(d, p) == Some(ClientPacketView::KeepAlive),
        d[p] == 92 ==> parse_client_packet(d, p) == Some(ClientPacketView::GameInitDone),
        d[p] == 111 ==> parse_client_packet(d, p) == Some(ClientPacketView::Save),
{
}

/// A new character request, as the client writes it: the opcode 72, the name ended by a zero
/// byte, then class, gender, strength, dexterity, constitution, wisdom, charisma and
/// intelligence, one byte each
pub proof fn lemma_new_character_layout(d: Seq<u8>, p: int, z: int)
    requires
        0 <= p,
        p + 1 <= z,
        z + 9 <= d.len(),
        d[p] == 72,
        d[z] == 0,
        forall|i: int| p + 1 <= i < z ==> d[i] != 0,
    ensures
        parse_client_packet(d, p) == Some(
            ClientPacketView::NewCharacter {
                name: latin1(d.subrange(p + 1, z)),
                class: d[z + 1],
                gender: d[z + 2],
                strength: d[z + 3],
                dexterity: d[z + 4],
                constitution: d[z + 5],
                wisdom: d[z + 6],
                charisma: d[z + 7],
                intelligence: d[z + 8],
            },
        ),
{
    lemma_first_zero_is(d, p + 1, z);
}

/// A chat request, as the client writes it: the opcode 104, the kind of chat and the text ended
/// by a zero byte; kind 4 goes to the pledge and kind 11 to the party, and an ordinary text
/// starting with '!' is yelled
pub proof fn lemma_chat_request_layout(d: Seq<u8>, p: int, z: int)
    requires
        0 <= p,
        p + 2 <= z < d.len(),
        d[p] == 104,
        d[z] == 0,
        forall|i: int| p + 2 <= i < z ==> d[i] != 0,
    ensures
        d[p + 1] == 4 ==> parse_client_packet(d, p) == Some(
            ClientPacketView::PledgeChat(latin1(d.subrange(p + 2, z))),
        ),
        d[p + 1] == 11 ==> parse_client_packet(d, p) == Some(
            ClientPacketView::PartyChat(latin1(d.subrange(p + 2, z))),
        ),
        d[p + 1] == 0 && z > p + 2 && d[p + 2] == 33 ==> parse_client_packet(d, p) == Some(
            ClientPacketView::YellChat(latin1(d.subrange(p + 3, z))),
        ),
{
    lemma_first_zero_is(d, p + 2, z);
    if d[p + 1] == 0 && z > p + 2 && d[p + 2] == 33 {
        assert(latin1(d.subrange(p + 2, z)).drop_first() =~= latin1(d.subrange(p + 3, z)));
    }
}

/// The requests that carry two texts, as the client writes them: after the opcode, the first
/// text ended by a zero byte at `z1` and the second ended by a zero byte at `z2`. A login (12)
/// is the user then the password, followed by seven four byte numbers (low bytes first); a
/// whisper (13) is the name of the receiver then the message
pub proof fn lemma_two_text_request_layouts(d: Seq<u8>, p: int, z1: int, z2: int)
    requires
        0 <= p,
        p + 1 <= z1 < z2 < d.len(),
        d[z1] == 0,
        d[z2] == 0,
        forall|i: int| p + 1 <= i < z1 ==> d[i] != 0,
        forall|i: int| z1 + 1 <= i < z2 ==> d[i] != 0,
    ensures
        d[p] == 13 ==> parse_client_packet(d, p) == Some(
            ClientPacketView::WhisperChat(latin1(d.subrange(p + 1, z1)), latin1(d.subrange(z1 + 1, z2))),
        ),
        d[p] == 12 && z2 + 29 <= d.len() ==> (parse_client_packet(d, p) matches Some(
            ClientPacketView::Login(u, pw, v1, v2, v3, v4, v5, v6, v7),
        ) && u == latin1(d.subrange(p + 1, z1)) && pw == latin1(d.subrange(z1 + 1, z2)) && v1 as int
            == d[z2 + 1] + 256 * d[z2 + 2] + 65536 * d[z2 + 3] + 16777216 * d[z2 + 4] && v7 as int
            == d[z2 + 25] + 256 * d[z2 + 26] + 65536 * d[z2 + 27] + 16777216 * d[z2 + 28]),
{
    lemma_first_zero_is(d, p + 1, z1);
    lemma_first_zero_is(d, z1 + 1, z2);
}

/// The requests that carry texts only, as the client writes them: after the opcode comes each
/// text ended by a zero byte (a global chat first skips one byte). Deleting (34) and selecting
/// (83) a character name it; a password change (100) names the account, then the old and then
/// the new password
pub proof fn lemma_text_request_layouts(d: Seq<u8>, p: int, z1: int, z2: int, z3: int)
    requires
        0 <= p,
        p + 1 <= z1 < z2 < z3 < d.len(),
        d[z1] == 0,
        d[z2] == 0,
        d[z3] == 0,
        forall|i: int| p + 1 <= i < z1 ==> d[i] != 0,
        forall|i: int| z1 + 1 <= i < z2 ==> d[i] != 0,
        forall|i: int| z2 + 1 <= i < z3 ==> d[i] != 0,
    ensures
        d[p] == 34 ==> parse_client_packet(d, p) == Some(
            ClientPacketView::DeleteCharacter(latin1(d.subrange(p + 1, z1))),
        ),
        d[p] == 83 ==> parse_client_packet(d, p) == Some(
            ClientPacketView::CharacterSelect { name: latin1(d.subrange(p + 1, z1)) },
        ),
        d[p] == 100 ==> parse_client_packet(d, p) == Some(
            ClientPacketView::ChangePassword {
                account: latin1(d.subrange(p + 1, z1)),
                oldpass: latin1(d.subrange(z1 + 1, z2)),
                newpass: latin1(d.subrange(z2 + 1, z3)),
            },
        ),
        d[p] == 40 && p + 2 <= z1 ==> parse_client_packet(d, p) == Some(
            ClientPacketView::GlobalChat(latin1(d.subrange(p + 2, z1))),
        ),
{
    lemma_first_zero_is(d, p + 1, z1);
    lemma_first_zero_is(d, z1 + 1, z2);
    lemma_first_zero_is(d, z2 + 1, z3);
    if d[p] == 40 && p + 2 <= z1 {
        lemma_first_zero_is(d, p + 2, z1);
    }
}

} // verus!
