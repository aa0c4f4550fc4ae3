//! What the server does with each packet a logged in game client sends: which packets it
//! answers with, which messages it passes on to the rest of the server, and which accounts
//! it has to look up first

use crate::client_packet::ClientPacket;
use crate::messages::ClientMessage;
use crate::server_packet::ServerPacket;
use crate::text::push_char;
use crate::user::{password_hash, UserAccount};
use crate::world::item::same_text;
use vstd::std_specs::iter::IteratorSpec;
use vstd::prelude::*;

verus! {

/// Is `c` white space (the Unicode White_Space property, as `char::is_whitespace`)?
pub open spec fn is_white_space(c: char) -> bool {
    ||| ('\u{9}' <= c <= '\u{d}')
    ||| c == ' '
    ||| c == '\u{85}'
    ||| c == '\u{a0}'
    ||| c == '\u{1680}'
    ||| ('\u{2000}' <= c <= '\u{200a}')
    ||| c == '\u{2028}'
    ||| c == '\u{2029}'
    ||| c == '\u{202f}'
    ||| c == '\u{205f}'
    ||| c == '\u{3000}'
}

/// Is `c` white space?
pub fn white_space(c: char) -> (b: bool)
    ensures
        b == is_white_space(c),
{
    ('\u{9}' <= c && c <= '\u{d}') || c == ' ' || c == '\u{85}' || c == '\u{a0}' || c
        == '\u{1680}' || ('\u{2000}' <= c && c <= '\u{200a}') || c == '\u{2028}' || c
        == '\u{2029}' || c == '\u{202f}' || c == '\u{205f}' || c == '\u{3000}'
}

/// The position of the first character at or after `i` that is not white space
pub open spec fn word_start(s: Seq<char>, i: int) -> int
    decreases s.len() - i,
{
    if i >= s.len() {
        s.len() as int
    } else if is_white_space(s[i]) {
        word_start(s, i + 1)
    } else {
        i
    }
}

/// The position of the first white space at or after `i`, or the end
pub open spec fn word_end(s: Seq<char>, i: int) -> int
    decreases s.len() - i,
{
    if i >= s.len() {
        s.len() as int
    } else if is_white_space(s[i]) {
        i
    } else {
        word_end(s, i + 1)
    }
}

/// The first word of `s`, as `split_whitespace` yields it, if there is one
pub open spec fn first_word(s: Seq<char>) -> Option<Seq<char>> {
    let b = word_start(s, 0);
    if b >= s.len() {
        None
    } else {
        Some(s.subrange(b, word_end(s, b)))
    }
}

proof fn lemma_word_start_bounds(s: Seq<char>, i: int)
    requires
        0 <= i,
    ensures
        i <= word_start(s, i) <= s.len() || (i > s.len() && word_start(s, i) == s.len()),
        word_start(s, i) < s.len() ==> !is_white_space(s[word_start(s, i)]),
    decreases s.len() - i,
{
    if i < s.len() && is_white_space(s[i]) {
        lemma_word_start_bounds(s, i + 1);
    }
}

/// The first word of `m`
pub fn command_word(m: &str) -> (r: Option<String>)
    ensures
        match first_word(m@) {
            Some(w) => r matches Some(x) && x@ == w,
            None => r is None,
        },
{
    let ghost s = m@;
    let mut chars = m.chars();
    let mut word = String::new();
    let mut started = false;
    let ghost mut pos: int = 0;
    loop
        invariant_except_break
            chars.remaining() == s.skip(pos),
        invariant
            chars.obeys_prophetic_iter_laws(),
            0 <= pos <= s.len(),
            !started ==> word_start(s, pos) == word_start(s, 0) && word@.len() == 0,
            started ==> {
                let b = word_start(s, 0);
                &&& b < pos
                &&& word_end(s, pos) == word_end(s, b)
                &&& word@ == s.subrange(b, pos)
                &&& b < s.len()
            },
        ensures
            started ==> word@ == s.subrange(word_start(s, 0), word_end(s, word_start(s, 0)))
                && word_start(s, 0) < s.len(),
            !started ==> word_start(s, 0) >= s.len(),
        decreases s.len() - pos,
    {
        let c = chars.next();
        match c {
            None => {
                proof {
                    assert(s.skip(pos).len() == 0);
                }
                break;
            },
            Some(ch) => {
                assert(s.skip(pos)[0] == s[pos]);
                assert(ch == s[pos]);
                if white_space(ch) {
                    if started {
                        break;
                    }
                } else {
                    let ghost was = started;
                    if !started {
                        started = true;
                    }
                    let ghost before = word@;
                    push_char(&mut word, ch);
                    proof {
                        lemma_word_start_bounds(s, 0);
                        if !was {
                            assert(word_start(s, pos) == pos);
                            assert(word@ =~= s.subrange(pos, pos + 1));
                        } else {
                            assert(word@ =~= s.subrange(word_start(s, 0), pos + 1));
                        }
                        assert(word_end(s, pos) == word_end(s, pos + 1));
                    }
                }
                proof {
                    assert(s.skip(pos).drop_first() =~= s.skip(pos + 1));
                    pos = pos + 1;
                }
            },
        }
    }
    if started {
        Some(word)
    } else {
        None
    }
}

/// What the server does with a packet from a client
#[derive(Debug, PartialEq)]
pub enum PacketPlan {
    /// Pass the message (if any) on to the rest of the server, then send the packets to the
    /// client
    Respond { message: Option<ClientMessage>, packets: Vec<ServerPacket> },
    /// Look up the account `user`, then answer as `login_response` says
    Login { user: String, password: String },
    /// Look up the account, then answer as `password_change_response` says
    ChangePassword { account: String, oldpass: String, newpass: String },
}

/// The character details shown for every account at the character selection
pub open spec fn is_demo_character(p: ServerPacket) -> bool {
    p matches ServerPacket::LoginCharacterDetails {
        name,
        pledge,
        ctype,
        gender,
        alignment,
        hp,
        mp,
        ac,
        level,
        strength,
        dexterity,
        constitution,
        wisdom,
        charisma,
        intelligence,
    } && name@ == "whatever"@ && pledge@ == "whocares"@ && ctype == 1 && gender == 2
        && alignment == 32767 && hp == 1234 && mp == 95 && ac == -12 && level == 51 && strength
        == 12 && dexterity == 12 && constitution == 12 && wisdom == 12 && charisma == 12
        && intelligence == 12
}

/// The packets that start the game after a character is selected
pub open spec fn is_game_start(ps: Seq<ServerPacket>) -> bool {
    &&& ps.len() == 6
    &&& ps[0] == ServerPacket::StartGame(0)
    &&& ps[1] == ServerPacket::CharacterDetails {
        id: 1,
        level: 5,
        xp: 1234,
        strength: 12,
        dexterity: 12,
        constitution: 13,
        wisdom: 14,
        charisma: 15,
        intelligence: 16,
        curr_hp: 123,
        max_hp: 985,
        curr_mp: 34,
        max_mp: 345,
        ac: -13i8,
        time: 1,
        food: 29,
        weight: 15,
        alignment: 32675,
        fire_resist: 0,
        water_resist: 1,
        wind_resist: 2,
        earth_resist: 3,
    }
    &&& ps[2] == ServerPacket::MapId(4, 0)
    &&& ps[3] matches ServerPacket::PutObject {
        x,
        y,
        id,
        icon,
        status,
        direction,
        light,
        speed,
        xp,
        alignment,
        name,
        title,
        status2,
        pledgeid,
        pledgename,
        unknown,
        v1,
        hp_bar,
        v2,
        v3,
    } && x == 33430 && y == 32815 && id == 1 && icon == 1 && status == 0 && direction == 0
        && light == 5 && speed == 50 && xp == 1234 && alignment == 32767 && name@ == "testing"@
        && title@ == "i am groot"@ && status2 == 0 && pledgeid == 0 && pledgename@
        == "avengers"@ && unknown@ == Seq::<char>::empty() && v1 == 0 && hp_bar == 100 && v2 == 0
        && v3 == 0
    &&& ps[4] == ServerPacket::CharSpMrBonus { sp: 0, mr: 0 }
    &&& ps[5] == ServerPacket::Weather(0)
}

/// The packets of the "chat" test command: one of each kind of chat message
pub open spec fn is_chat_test(ps: Seq<ServerPacket>) -> bool {
    &&& ps.len() == 8
    &&& ps[0] matches ServerPacket::SystemMessage(m) && m@ == "This is a test of the system message"@
    &&& ps[1] matches ServerPacket::NpcShout(m) && m@ == "NPC Shout test"@
    &&& ps[2] matches ServerPacket::RegularChat { id, msg } && id == 0 && msg@ == "regular chat"@
    &&& ps[3] matches ServerPacket::YellChat { id, msg, x, y } && id == 0 && msg@ == "yelling"@
        && x == 32768 && y == 32768
    &&& ps[4] matches ServerPacket::GlobalChat(m) && m@ == "global chat"@
    &&& ps[5] matches ServerPacket::PledgeChat(m) && m@ == "pledge chat"@
    &&& ps[6] matches ServerPacket::PartyChat(m) && m@ == "party chat"@
    &&& ps[7] matches ServerPacket::WhisperChat { name, msg } && name@ == "test"@ && msg@
        == "whisper message"@
}

/// The packets answering a command typed as chat: "quit" disconnects, "chat" shows one of each
/// kind of chat message, and any other command (or none) is answered with nothing
pub open spec fn command_packets(m: Seq<char>, ps: Seq<ServerPacket>) -> bool {
    match first_word(m) {
        Some(w) => if w == "quit"@ {
            ps == seq![ServerPacket::Disconnect]
        } else if w == "chat"@ {
            is_chat_test(ps)
        } else {
            ps.len() == 0
        },
        None => ps.len() == 0,
    }
}

/// Does `p` say what to do with the packet `c` from the client with the id `id`?
pub open spec fn planned(c: ClientPacket, id: u32, p: PacketPlan) -> bool {
    match c {
        ClientPacket::Version(..) => p matches PacketPlan::Respond { message, packets }
            && message is None && packets@ == seq![
            ServerPacket::ServerVersion {
                id: 2,
                version: 2,
                time: 3,
                new_accounts: 1,
                english: 1,
                country: 0,
            },
        ],
        ClientPacket::Login(u, pw, ..) => p matches PacketPlan::Login { user, password } && user@
            == u@ && password@ == pw@,
        ClientPacket::NewsDone => p matches PacketPlan::Respond { message, packets }
            && message is None && packets@.len() == 2 && packets@[0]
            == ServerPacket::NumberCharacters(1, 8) && is_demo_character(packets@[1]),
        ClientPacket::NewCharacter {
            name,
            class,
            gender,
            strength,
            dexterity,
            constitution,
            wisdom,
            charisma,
            intelligence,
        } => p matches PacketPlan::Respond { message, packets } && (packets@.len() == 0
            && (message matches Some(
            ClientMessage::NewCharacter {
                id: mid,
                name: mname,
                class: mclass,
                gender: mgender,
                strength: mstr,
                dexterity: mdex,
                constitution: mcon,
                wisdom: mwis,
                charisma: mcha,
                intelligence: mint,
            },
        ) && mid == id && mname@ == name@ && mclass == class && mgender == gender && mstr
            == strength && mdex == dexterity && mcon == constitution && mwis == wisdom && mcha
            == charisma && mint == intelligence)),
        ClientPacket::DeleteCharacter(n) => p matches PacketPlan::Respond { message, packets } && (packets@ == seq![ServerPacket::DeleteCharacterOk] && (message matches Some(
            ClientMessage::DeleteCharacter { id: mid, name },
        ) && mid == id && name@ == n@)),
        ClientPacket::CharacterSelect { .. } => p matches PacketPlan::Respond { message, packets }
            && message is None && is_game_start(packets@),
        ClientPacket::Chat(m) => p matches PacketPlan::Respond { message, packets } && (packets@.len() == 0 && (message matches Some(ClientMessage::RegularChat { id: mid, msg })
            && mid == id && msg@ == m@)),
        ClientPacket::YellChat(m) => p matches PacketPlan::Respond { message, packets } && (packets@.len() == 0 && (message matches Some(
            ClientMessage::YellChat { id: mid, msg, x, y },
        ) && mid == id && msg@ == m@ && x == 32768 && y == 32768)),
        ClientPacket::PartyChat(m) => p matches PacketPlan::Respond { message, packets } && (packets@.len() == 0 && (message matches Some(ClientMessage::PartyChat(mid, msg))
            && mid == id && msg@ == m@)),
        ClientPacket::PledgeChat(m) => p matches PacketPlan::Respond { message, packets } && (packets@.len() == 0 && (message matches Some(ClientMessage::PledgeChat(mid, msg))
            && mid == id && msg@ == m@)),
        ClientPacket::WhisperChat(n, m) => p matches PacketPlan::Respond { message, packets } && (packets@.len() == 0 && (message matches Some(
            ClientMessage::WhisperChat(mid, name, msg),
        ) && mid == id && name@ == n@ && msg@ == m@)),
        ClientPacket::GlobalChat(m) => p matches PacketPlan::Respond { message, packets } && (packets@.len() == 0 && (message matches Some(ClientMessage::GlobalChat(mid, msg))
            && mid == id && msg@ == m@)),
        ClientPacket::CommandChat(m) => p matches PacketPlan::Respond { message, packets }
            && message is None && command_packets(m@, packets@),
        ClientPacket::ChangePassword { account, oldpass, newpass } => p matches PacketPlan::ChangePassword {
            account: a,
            oldpass: o,
            newpass: n,
        } && a@ == account@ && o@ == oldpass@ && n@ == newpass@,
        _ => p matches PacketPlan::Respond { message, packets } && message is None
            && packets@.len() == 0,
    }
}

/// The packets answering a command typed as chat
fn command_response(m: &str) -> (ps: Vec<ServerPacket>)
    ensures
        command_packets(m@, ps@),
{
    let mut ps: Vec<ServerPacket> = Vec::new();
    match command_word(m) {
        Some(w) => {
            if same_text(w.as_str(), "quit") {
                ps.push(ServerPacket::Disconnect);
            } else if same_text(w.as_str(), "chat") {
                ps.push(ServerPacket::SystemMessage("This is a test of the system message".to_owned()));
                ps.push(ServerPacket::NpcShout("NPC Shout test".to_owned()));
                ps.push(ServerPacket::RegularChat { id: 0, msg: "regular chat".to_owned() });
                ps.push(
                    ServerPacket::YellChat { id: 0, msg: "yelling".to_owned(), x: 32768, y: 32768 },
                );
                ps.push(ServerPacket::GlobalChat("global chat".to_owned()));
                ps.push(ServerPacket::PledgeChat("pledge chat".to_owned()));
                ps.push(ServerPacket::PartyChat("party chat".to_owned()));
                ps.push(
                    ServerPacket::WhisperChat {
                        name: "test".to_owned(),
                        msg: "whisper message".to_owned(),
                    },
                );
            }
        },
        None => {},
    }
    ps
}

/// Decide what to do with the packet `c` from the logged in client with the id `id`
pub fn plan_packet(c: ClientPacket, id: u32) -> (p: PacketPlan)
    ensures
        planned(c, id, p),
{
    match c {
        ClientPacket::Version(..) => {
            let mut packets = Vec::new();
            packets.push(
                ServerPacket::ServerVersion {
                    id: 2,
                    version: 2,
                    time: 3,
                    new_accounts: 1,
                    english: 1,
                    country: 0,
                },
            );
            PacketPlan::Respond { message: None, packets }
        },
        ClientPacket::Login(u, pw, ..) => PacketPlan::Login { user: u, password: pw },
        ClientPacket::NewsDone => {
            let mut packets = Vec::new();
            packets.push(ServerPacket::NumberCharacters(1, 8));
            packets.push(
                ServerPacket::LoginCharacterDetails {
                    name: "whatever".to_owned(),
                    pledge: "whocares".to_owned(),
                    ctype: 1,
                    gender: 2,
                    alignment: 32767,
                    hp: 1234,
                    mp: 95,
                    ac: -12,
                    level: 51,
                    strength: 12,
                    dexterity: 12,
                    constitution: 12,
                    wisdom: 12,
                    charisma: 12,
                    intelligence: 12,
                },
            );
            PacketPlan::Respond { message: None, packets }
        },
        ClientPacket::NewCharacter {
            name,
            class,
            gender,
            strength,
            dexterity,
            constitution,
            wisdom,
            charisma,
            intelligence,
        } => PacketPlan::Respond {
            message: Some(
                ClientMessage::NewCharacter {
                    id,
                    name,
                    class,
                    gender,
                    strength,
                    dexterity,
                    constitution,
                    wisdom,
                    charisma,
                    intelligence,
                },
            ),
            packets: Vec::new(),
        },
        ClientPacket::DeleteCharacter(n) => {
            let mut packets = Vec::new();
            packets.push(ServerPacket::DeleteCharacterOk);
            PacketPlan::Respond { message: Some(ClientMessage::DeleteCharacter { id, name: n }), packets }
        },
        ClientPacket::CharacterSelect { .. } => {
            let mut packets = Vec::new();
            packets.push(ServerPacket::StartGame(0));
            packets.push(
                ServerPacket::CharacterDetails {
                    id: 1,
                    level: 5,
                    xp: 1234,
                    strength: 12,
                    dexterity: 12,
                    constitution: 13,
                    wisdom: 14,
                    charisma: 15,
                    intelligence: 16,
                    curr_hp: 123,
                    max_hp: 985,
                    curr_mp: 34,
                    max_mp: 345,
                    ac: -13,
                    time: 1,
                    food: 29,
                    weight: 15,
                    alignment: 32675,
                    fire_resist: 0,
                    water_resist: 1,
                    wind_resist: 2,
                    earth_resist: 3,
                },
            );
            packets.push(ServerPacket::MapId(4, 0));
            packets.push(
                ServerPacket::PutObject {
                    x: 33430,
                    y: 32815,
                    id: 1,
                    icon: 1,
                    status: 0,
                    direction: 0,
                    light: 5,
                    speed: 50,
                    xp: 1234,
                    alignment: 32767,
                    name: "testing".to_owned(),
                    title: "i am groot".to_owned(),
                    status2: 0,
                    pledgeid: 0,
                    pledgename: "avengers".to_owned(),
                    unknown: String::new(),
                    v1: 0,
                    hp_bar: 100,
                    v2: 0,
                    v3: 0,
                },
            );
            packets.push(ServerPacket::CharSpMrBonus { sp: 0, mr: 0 });
            packets.push(ServerPacket::Weather(0));
            PacketPlan::Respond { message: None, packets }
        },
        ClientPacket::Chat(m) => PacketPlan::Respond {
            message: Some(ClientMessage::RegularChat { id, msg: m }),
            packets: Vec::new(),
        },
        ClientPacket::YellChat(m) => PacketPlan::Respond {
            message: Some(ClientMessage::YellChat { id, msg: m, x: 32768, y: 32768 }),
            packets: Vec::new(),
        },
        ClientPacket::PartyChat(m) => PacketPlan::Respond {
            message: Some(ClientMessage::PartyChat(id, m)),
            packets: Vec::new(),
        },
        ClientPacket::PledgeChat(m) => PacketPlan::Respond {
            message: Some(ClientMessage::PledgeChat(id, m)),
            packets: Vec::new(),
        },
        ClientPacket::WhisperChat(n, m) => PacketPlan::Respond {
            message: Some(ClientMessage::WhisperChat(id, n, m)),
            packets: Vec::new(),
        },
        ClientPacket::GlobalChat(m) => PacketPlan::Respond {
            message: Some(ClientMessage::GlobalChat(id, m)),
            packets: Vec::new(),
        },
        ClientPacket::CommandChat(m) => {
            let packets = command_response(m.as_str());
            PacketPlan::Respond { message: None, packets }
        },
        ClientPacket::ChangePassword { account, oldpass, newpass } => PacketPlan::ChangePassword {
            account,
            oldpass,
            newpass,
        },
        _ => PacketPlan::Respond { message: None, packets: Vec::new() },
    }
}

/// The answer to a login attempt
pub struct LoginResponse {
    /// The packets to send to the client, first
    pub packets: Vec<ServerPacket>,
    /// The message to pass on to the rest of the server, after the packets
    pub message: Option<ClientMessage>,
    /// The account to store, for a login with an unknown account name
    pub new_account: Option<UserAccount>,
}

/// The packets of a successful login: the login result 0 and the news
pub open spec fn is_login_ok(ps: Seq<ServerPacket>) -> bool {
    &&& ps.len() == 2
    &&& ps[0] == ServerPacket::LoginResult { code: 0 }
    &&& ps[1] matches ServerPacket::News(n) && n@ == "This is the news"@
}

/// Answer the login of the client `id` as the account `user` with the password `password`,
/// where `found` is the stored account of that name, if there is one. A stored account logs in
/// when the password hashes to the stored hash (with the salt "lineage"), and is refused with
/// the login result 8 otherwise; an unknown account name is created with the password, to be
/// stored, and logs in.
pub fn login_response(id: u32, user: String, password: String, found: Option<UserAccount>) -> (r:
    LoginResponse)
    ensures
        match found {
            Some(us) => if password_hash(us@.name, "lineage"@, password@) == us@.password {
                &&& is_login_ok(r.packets@)
                &&& r.message matches Some(ClientMessage::LoggedIn(i, n)) && i == id && n@ == user@
                &&& r.new_account is None
            } else {
                &&& r.packets@ == seq![ServerPacket::LoginResult { code: 8 }]
                &&& r.message is None
                &&& r.new_account is None
            },
            None => {
                &&& is_login_ok(r.packets@)
                &&& r.message matches Some(ClientMessage::LoggedIn(i, n)) && i == id && n@ == user@
                &&& r.new_account matches Some(a) && a@.name == user@ && a@.password
                    == password_hash(user@, "lineage"@, password@) && a@.ip == "127.0.0.1"@
                    && a@.host == "127.0.0.1"@ && a@.access == 0 && !a@.banned && a@.slot == 0
                    && a@.active == 1
            },
        },
{
    match found {
        Some(us) => {
            if us.check_login("lineage", password.as_str()) {
                let mut packets = Vec::new();
                packets.push(ServerPacket::LoginResult { code: 0 });
                packets.push(ServerPacket::News("This is the news".to_owned()));
                LoginResponse {
                    packets,
                    message: Some(ClientMessage::LoggedIn(id, user)),
                    new_account: None,
                }
            } else {
                let mut packets = Vec::new();
                packets.push(ServerPacket::LoginResult { code: 8 });
                LoginResponse { packets, message: None, new_account: None }
            }
        },
        None => {
            let name = user.clone();
            let account = UserAccount::new(name, password, "127.0.0.1".to_owned(), "lineage".to_owned());
            let mut packets = Vec::new();
            packets.push(ServerPacket::LoginResult { code: 0 });
            packets.push(ServerPacket::News("This is the news".to_owned()));
            LoginResponse {
                packets,
                message: Some(ClientMessage::LoggedIn(id, user)),
                new_account: Some(account),
            }
        },
    }
}

/// Answer a request to change the password of an account, where `found` is the stored account
/// of that name, if there is one: the login result 0x30 when the old password is right, and 8
/// otherwise or when there is no such account
pub fn password_change_response(found: Option<UserAccount>, oldpass: &str) -> (ps: Vec<ServerPacket>)
    ensures
        match found {
            Some(us) => if password_hash(us@.name, "lineage"@, oldpass@) == us@.password {
                ps@ == seq![ServerPacket::LoginResult { code: 0x30 }]
            } else {
                ps@ == seq![ServerPacket::LoginResult { code: 8 }]
            },
            None => ps@ == seq![ServerPacket::LoginResult { code: 8 }],
        },
{
    let mut ps = Vec::new();
    match found {
        Some(us) => {
            if us.check_login("lineage", oldpass) {
                ps.push(ServerPacket::LoginResult { code: 0x30 });
            } else {
                ps.push(ServerPacket::LoginResult { code: 8 });
            }
        },
        None => {
            ps.push(ServerPacket::LoginResult { code: 8 });
        },
    }
    ps
}

} // verus!
