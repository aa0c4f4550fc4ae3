//! The packets the server sends to game clients, and their byte layout

use crate::packet::{cstr, i16_bits, i8_bits, u16_le, u32_le, Packet};
use vstd::prelude::*;

verus! {

/// Represents packets sent to the client, from the server
#[allow(inconsistent_fields)]
#[derive(Clone, Debug, PartialEq)]
pub enum ServerPacket {
    /// The server's protocol version and settings
    ServerVersion {
        id: u8,
        version: u32,
        time: u32,
        new_accounts: u8,
        english: u8,
        country: u8,
    },
    /// Tell the client to disconnect
    Disconnect,
    /// The result of a login attempt
    LoginResult {
        code: u8,
    },
    /// The news to show after logging in
    News(String),
    /// The status of a character creation request
    CharacterCreationStatus(u8),
    /// The details of a newly created character
    NewCharacterDetails {
        name: String,
        pledge: String,
        class: u8,
        gender: u8,
        alignment: i16,
        hp: u16,
        mp: u16,
        ac: i8,
        level: u8,
        strength: u8,
        dexterity: u8,
        constitution: u8,
        wisdom: u8,
        charisma: u8,
        intelligence: u8,
    },
    /// The character was deleted
    DeleteCharacterOk,
    /// The character will be deleted after a waiting period
    DeleteCharacterWait,
    /// The number of characters of the account and the number of slots
    NumberCharacters(u8, u8),
    /// The details of a character the account can log in with
    LoginCharacterDetails {
        name: String,
        pledge: String,
        ctype: u8,
        gender: u8,
        alignment: u16,
        hp: u16,
        mp: u16,
        ac: i8,
        level: u8,
        strength: u8,
        dexterity: u8,
        constitution: u8,
        wisdom: u8,
        charisma: u8,
        intelligence: u8,
    },
    /// Enter the game
    StartGame(u32),
    /// The full details of the character being played; food and weight are in 29ths of the maximum
    CharacterDetails {
        id: u32,
        level: u8,
        xp: u32,
        strength: u8,
        dexterity: u8,
        constitution: u8,
        wisdom: u8,
        charisma: u8,
        intelligence: u8,
        curr_hp: u16,
        max_hp: u16,
        curr_mp: u16,
        max_mp: u16,
        ac: i8,
        time: u32,
        food: u8,
        weight: u8,
        alignment: u16,
        fire_resist: u8,
        water_resist: u8,
        wind_resist: u8,
        earth_resist: u8,
    },
    /// The map the character is on and whether it is underwater
    MapId(u16, u8),
    /// Place an object on the map of the client
    PutObject {
        x: u16,
        y: u16,
        id: u32,
        icon: u16,
        status: u8,
        direction: u8,
        light: u8,
        speed: u8,
        xp: u32,
        alignment: u16,
        name: String,
        title: String,
        status2: u8,
        pledgeid: u32,
        pledgename: String,
        unknown: String,
        v1: u8,
        hp_bar: u8,
        v2: u8,
        v3: u8,
    },
    /// The spell power and magic resistance bonuses
    CharSpMrBonus {
        sp: u8,
        mr: u8,
    },
    /// The current weather
    Weather(u8),
    /// A message from the system
    SystemMessage(String),
    /// A shout from an npc
    NpcShout(String),
    /// A regular chat message, "player name: message"
    RegularChat {
        id: u32,
        msg: String,
    },
    /// A yelled chat message and where it was yelled
    YellChat {
        id: u32,
        msg: String,
        x: u16,
        y: u16,
    },
    /// A whispered message and the name of its sender
    WhisperChat {
        name: String,
        msg: String,
    },
    /// A global chat message, "[player name] message"
    GlobalChat(String),
    /// A pledge chat message
    PledgeChat(String),
    /// A party chat message
    PartyChat(String),
}

/// The bytes of the packet that the server sends for `p`
pub open spec fn server_packet_bytes(p: ServerPacket) -> Seq<u8> {
    match p {
        ServerPacket::ServerVersion { id, version, time, new_accounts, english, country } => (((((Seq::<u8>::empty().push(10u8).push(0u8).push(id) + u32_le(version)) + u32_le(version)) + u32_le(version)) + u32_le(version)) + u32_le(time)).push(new_accounts).push(english).push(country),
        ServerPacket::Disconnect => ((Seq::<u8>::empty().push(18u8) + u16_le(500u16)) + u32_le(0u32)),
        ServerPacket::LoginResult { code } => (Seq::<u8>::empty().push(21u8).push(code) + u32_le(0u32)),
        ServerPacket::News(f0) => (Seq::<u8>::empty().push(90u8) + cstr(f0@)),
        ServerPacket::CharacterCreationStatus(f0) => ((Seq::<u8>::empty().push(106u8).push(f0) + u32_le(0u32)) + u32_le(0u32)),
        ServerPacket::NewCharacterDetails { name, pledge, class, gender, alignment, hp, mp, ac, level, strength, dexterity, constitution, wisdom, charisma, intelligence } => ((((((Seq::<u8>::empty().push(98u8) + cstr(name@)) + cstr(pledge@)).push(class).push(gender) + u16_le(i16_bits(alignment))) + u16_le(hp)) + u16_le(mp)).push(i8_bits(ac)).push(level).push(strength).push(dexterity).push(constitution).push(wisdom).push(charisma).push(intelligence).push(1u8).push(2u8) + u32_le(3u32)),
        ServerPacket::DeleteCharacterOk => Seq::<u8>::empty().push(33u8).push(5u8),
        ServerPacket::DeleteCharacterWait => Seq::<u8>::empty().push(33u8).push(81u8),
        ServerPacket::NumberCharacters(f0, f1) => Seq::<u8>::empty().push(113u8).push(f0).push(f1),
        ServerPacket::LoginCharacterDetails { name, pledge, ctype, gender, alignment, hp, mp, ac, level, strength, dexterity, constitution, wisdom, charisma, intelligence } => ((((((Seq::<u8>::empty().push(99u8) + cstr(name@)) + cstr(pledge@)).push(ctype).push(gender) + u16_le(alignment)) + u16_le(hp)) + u16_le(mp)).push(i8_bits(ac)).push(level).push(strength).push(dexterity).push(constitution).push(wisdom).push(charisma).push(intelligence).push(14u8) + u32_le(15u32)),
        ServerPacket::StartGame(f0) => (Seq::<u8>::empty().push(63u8).push(3u8) + u32_le(f0)),
        ServerPacket::CharacterDetails { id, level, xp, strength, dexterity, constitution, wisdom, charisma, intelligence, curr_hp, max_hp, curr_mp, max_mp, ac, time, food, weight, alignment, fire_resist, water_resist, wind_resist, earth_resist } => ((((((((Seq::<u8>::empty().push(69u8) + u32_le(id)).push(level) + u32_le(xp)).push(strength).push(intelligence).push(wisdom).push(dexterity).push(constitution).push(charisma) + u16_le(curr_hp)) + u16_le(max_hp)) + u16_le(curr_mp)) + u16_le(max_mp)).push(i8_bits(ac)) + u32_le(time)).push(food).push(weight) + u16_le(alignment)).push(fire_resist).push(water_resist).push(wind_resist).push(earth_resist),
        ServerPacket::MapId(f0, f1) => (Seq::<u8>::empty().push(76u8) + u16_le(f0)).push(f1),
        ServerPacket::PutObject { x, y, id, icon, status, direction, light, speed, xp, alignment, name, title, status2, pledgeid, pledgename, unknown, v1, hp_bar, v2, v3 } => (((((((((((Seq::<u8>::empty().push(64u8) + u16_le(x)) + u16_le(y)) + u32_le(id)) + u16_le(icon)).push(status).push(direction).push(light).push(speed) + u32_le(xp)) + u16_le(alignment)) + cstr(name@)) + cstr(title@)).push(status2) + u32_le(pledgeid)) + cstr(pledgename@)) + cstr(unknown@)).push(v1).push(hp_bar).push(v2).push(v3),
        ServerPacket::CharSpMrBonus { sp, mr } => Seq::<u8>::empty().push(80u8).push(sp).push(mr),
        ServerPacket::Weather(f0) => Seq::<u8>::empty().push(83u8).push(f0),
        ServerPacket::SystemMessage(f0) => (Seq::<u8>::empty().push(105u8).push(9u8) + cstr(f0@)),
        ServerPacket::NpcShout(f0) => ((((Seq::<u8>::empty().push(42u8).push(2u8) + u32_le(0u32)) + cstr(f0@)) + u16_le(1u16)) + u16_le(2u16)),
        ServerPacket::RegularChat { id, msg } => ((Seq::<u8>::empty().push(8u8).push(0u8) + u32_le(id)) + cstr(msg@)),
        ServerPacket::YellChat { id, msg, x, y } => ((((Seq::<u8>::empty().push(8u8).push(2u8) + u32_le(id)) + cstr(msg@)) + u16_le(x)) + u16_le(y)),
        ServerPacket::WhisperChat { name, msg } => ((Seq::<u8>::empty().push(91u8) + cstr(name@)) + cstr(msg@)),
        ServerPacket::GlobalChat(f0) => (Seq::<u8>::empty().push(105u8).push(3u8) + cstr(f0@)),
        ServerPacket::PledgeChat(f0) => (Seq::<u8>::empty().push(105u8).push(4u8) + cstr(f0@)),
        ServerPacket::PartyChat(f0) => (Seq::<u8>::empty().push(105u8).push(11u8) + cstr(f0@)),
    }
}

impl ServerPacket {
    /// Build the packet bytes for sending to the client
    pub fn build(self) -> (p: Packet)
        ensures
            p@.data == server_packet_bytes(self),
            p@.read == 0,
    {
        let ghost spec_self = self;
        let mut p = Packet::new();
        match self {
            ServerPacket::ServerVersion { id, version, time, new_accounts, english, country } => {
                p.add_u8(10);
                p.add_u8(0);
                p.add_u8(id);
                p.add_u32(version);
                p.add_u32(version);
                p.add_u32(version);
                p.add_u32(version);
                p.add_u32(time);
                p.add_u8(new_accounts);
                p.add_u8(english);
                p.add_u8(country);
            },
            ServerPacket::Disconnect => {
                p.add_u8(18);
                p.add_u16(500);
                p.add_u32(0);
            },
            ServerPacket::LoginResult { code } => {
                p.add_u8(21);
                p.add_u8(code);
                p.add_u32(0);
            },
            ServerPacket::News(f0) => {
                p.add_u8(90);
                p.add_string(f0);
            },
            ServerPacket::CharacterCreationStatus(f0) => {
                p.add_u8(106);
                p.add_u8(f0);
                p.add_u32(0);
                p.add_u32(0);
            },
            ServerPacket::NewCharacterDetails { name, pledge, class, gender, alignment, hp, mp, ac, level, strength, dexterity, constitution, wisdom, charisma, intelligence } => {
                p.add_u8(98);
                p.add_string(name);
                p.add_string(pledge);
                p.add_u8(class);
                p.add_u8(gender);
                p.add_i16(alignment);
                p.add_u16(hp);
                p.add_u16(mp);
                p.add_i8(ac);
                p.add_u8(level);
                p.add_u8(strength);
                p.add_u8(dexterity);
                p.add_u8(constitution);
                p.add_u8(wisdom);
                p.add_u8(charisma);
                p.add_u8(intelligence);
                p.add_u8(1);
                p.add_u8(2);
                p.add_u32(3);
            },
            ServerPacket::DeleteCharacterOk => {
                p.add_u8(33);
                p.add_u8(5);
            },
            ServerPacket::DeleteCharacterWait => {
                p.add_u8(33);
                p.add_u8(81);
            },
            ServerPacket::NumberCharacters(f0, f1) => {
                p.add_u8(113);
                p.add_u8(f0);
                p.add_u8(f1);
            },
            ServerPacket::LoginCharacterDetails { name, pledge, ctype, gender, alignment, hp, mp, ac, level, strength, dexterity, constitution, wisdom, charisma, intelligence } => {
                p.add_u8(99);
                p.add_string(name);
                p.add_string(pledge);
                p.add_u8(ctype);
                p.add_u8(gender);
                p.add_u16(alignment);
                p.add_u16(hp);
                p.add_u16(mp);
                p.add_i8(ac);
                p.add_u8(level);
                p.add_u8(strength);
                p.add_u8(dexterity);
                p.add_u8(constitution);
                p.add_u8(wisdom);
                p.add_u8(charisma);
                p.add_u8(intelligence);
                p.add_u8(14);
                p.add_u32(15);
            },
            ServerPacket::StartGame(f0) => {
                p.add_u8(63);
                p.add_u8(3);
                p.add_u32(f0);
            },
            ServerPacket::CharacterDetails { id, level, xp, strength, dexterity, constitution, wisdom, charisma, intelligence, curr_hp, max_hp, curr_mp, max_mp, ac, time, food, weight, alignment, fire_resist, water_resist, wind_resist, earth_resist } => {
                p.add_u8(69);
                p.add_u32(id);
                p.add_u8(level);
                p.add_u32(xp);
                p.add_u8(strength);
                p.add_u8(intelligence);
                p.add_u8(wisdom);
                p.add_u8(dexterity);
                p.add_u8(constitution);
                p.add_u8(charisma);
                p.add_u16(curr_hp);
                p.add_u16(max_hp);
                p.add_u16(curr_mp);
                p.add_u16(max_mp);
                p.add_i8(ac);
                p.add_u32(time);
                p.add_u8(food);
                p.add_u8(weight);
                p.add_u16(alignment);
                p.add_u8(fire_resist);
                p.add_u8(water_resist);
                p.add_u8(wind_resist);
                p.add_u8(earth_resist);
            },
            ServerPacket::MapId(f0, f1) => {
                p.add_u8(76);
                p.add_u16(f0);
                p.add_u8(f1);
            },
            ServerPacket::PutObject { x, y, id, icon, status, direction, light, speed, xp, alignment, name, title, status2, pledgeid, pledgename, unknown, v1, hp_bar, v2, v3 } => {
                p.add_u8(64);
                p.add_u16(x);
                p.add_u16(y);
                p.add_u32(id);
                p.add_u16(icon);
                p.add_u8(status);
                p.add_u8(direction);
                p.add_u8(light);
                p.add_u8(speed);
                p.add_u32(xp);
                p.add_u16(alignment);
                p.add_string(name);
                p.add_string(title);
                p.add_u8(status2);
                p.add_u32(pledgeid);
                p.add_string(pledgename);
                p.add_string(unknown);
                p.add_u8(v1);
                p.add_u8(hp_bar);
                p.add_u8(v2);
                p.add_u8(v3);
            },
            ServerPacket::CharSpMrBonus { sp, mr } => {
                p.add_u8(80);
                p.add_u8(sp);
                p.add_u8(mr);
            },
            ServerPacket::Weather(f0) => {
                p.add_u8(83);
                p.add_u8(f0);
            },
            ServerPacket::SystemMessage(f0) => {
                p.add_u8(105);
                p.add_u8(9);
                p.add_string(f0);
            },
            ServerPacket::NpcShout(f0) => {
                p.add_u8(42);
                p.add_u8(2);
                p.add_u32(0);
                p.add_string(f0);
                p.add_u16(1);
                p.add_u16(2);
            },
            ServerPacket::RegularChat { id, msg } => {
                p.add_u8(8);
                p.add_u8(0);
                p.add_u32(id);
                p.add_string(msg);
            },
            ServerPacket::YellChat { id, msg, x, y } => {
                p.add_u8(8);
                p.add_u8(2);
                p.add_u32(id);
                p.add_string(msg);
                p.add_u16(x);
                p.add_u16(y);
            },
            ServerPacket::WhisperChat { name, msg } => {
                p.add_u8(91);
                p.add_string(name);
                p.add_string(msg);
            },
            ServerPacket::GlobalChat(f0) => {
                p.add_u8(105);
                p.add_u8(3);
                p.add_string(f0);
            },
            ServerPacket::PledgeChat(f0) => {
                p.add_u8(105);
                p.add_u8(4);
                p.add_string(f0);
            },
            ServerPacket::PartyChat(f0) => {
                p.add_u8(105);
                p.add_u8(11);
                p.add_string(f0);
            },
        }
        assert(p@.data =~= server_packet_bytes(spec_self));
        p
    }
}

/// Appending to bytes keeps their first `n` bytes
proof fn lemma_keeps_prefix(a: Seq<u8>, b: Seq<u8>, n: int)
    requires
        0 <= n <= a.len(),
    ensures
        (a + b).subrange(0, n) == a.subrange(0, n),
        (a.push(b.len() as u8)).subrange(0, n) == a.subrange(0, n),
{
    assert((a + b).subrange(0, n) =~= a.subrange(0, n));
    assert((a.push(b.len() as u8)).subrange(0, n) =~= a.subrange(0, n));
}

/// Pushing a byte keeps the first `n` bytes
proof fn lemma_push_keeps_prefix(a: Seq<u8>, v: u8, n: int)
    requires
        0 <= n <= a.len(),
    ensures
        a.push(v).subrange(0, n) == a.subrange(0, n),
{
    assert(a.push(v).subrange(0, n) =~= a.subrange(0, n));
}

/// The first 21 bytes of a packet that places an object
pub open spec fn put_object_head(x: u16, y: u16, id: u32, icon: u16, status: u8, direction: u8, light: u8, speed: u8, xp: u32, alignment: u16) -> Seq<u8> {
    ((((Seq::<u8>::empty().push(64u8) + u16_le(x)) + u16_le(y)) + u32_le(id)) + u16_le(icon)).push(
        status,
    ).push(direction).push(light).push(speed) + u32_le(xp) + u16_le(alignment)
}

/// The first 21 bytes of a packet that places an object, read as numbers
proof fn lemma_put_object_head(x: u16, y: u16, id: u32, icon: u16, status: u8, direction: u8, light: u8, speed: u8, xp: u32, alignment: u16)
    ensures
        ({
            let h = put_object_head(x, y, id, icon, status, direction, light, speed, xp, alignment);
            &&& h.len() == 21
            &&& h[0] == 64
            &&& h[1] + 256 * h[2] == x
            &&& h[3] + 256 * h[4] == y
            &&& h[5] + 256 * h[6] + 65536 * h[7] + 16777216 * h[8] == id
            &&& h[9] + 256 * h[10] == icon
            &&& h[11] == status
            &&& h[12] == direction
            &&& h[13] == light
            &&& h[14] == speed
            &&& h[15] + 256 * h[16] + 65536 * h[17] + 16777216 * h[18] == xp
            &&& h[19] + 256 * h[20] == alignment
        }),
{
    lemma_u16_le_value(x);
    lemma_u16_le_value(y);
    lemma_u32_le_value(id);
    lemma_u16_le_value(icon);
    lemma_u32_le_value(xp);
    lemma_u16_le_value(alignment);
    let a0 = Seq::<u8>::empty().push(64u8);
    let a1 = a0 + u16_le(x);
    let a2 = a1 + u16_le(y);
    let a3 = a2 + u32_le(id);
    let a4 = a3 + u16_le(icon);
    let a5 = a4.push(status).push(direction).push(light).push(speed);
    let a6 = a5 + u32_le(xp);
    let h = a6 + u16_le(alignment);
    assert(a1[1] == u16_le(x)[0] && a1[2] == u16_le(x)[1]);
    assert(a2[3] == u16_le(y)[0] && a2[4] == u16_le(y)[1]);
    assert(a3[5] == u32_le(id)[0] && a3[6] == u32_le(id)[1] && a3[7] == u32_le(id)[2] && a3[8] == u32_le(id)[3]);
    assert(a4[9] == u16_le(icon)[0] && a4[10] == u16_le(icon)[1]);
    assert(a6[15] == u32_le(xp)[0] && a6[16] == u32_le(xp)[1] && a6[17] == u32_le(xp)[2] && a6[18] == u32_le(xp)[3]);
    assert(h[19] == u16_le(alignment)[0] && h[20] == u16_le(alignment)[1]);
    assert(h.subrange(0, 19) =~= a6.subrange(0, 19));
    assert(a6.subrange(0, 15) =~= a5);
    assert(a5.subrange(0, 11) =~= a4);
    assert(a4.subrange(0, 9) =~= a3);
    assert(a3.subrange(0, 5) =~= a2);
    assert(a2.subrange(0, 3) =~= a1);
    assert(h[1] == h.subrange(0, 19)[1]);
    assert(h[2] == h.subrange(0, 19)[2]);
    assert(h[3] == h.subrange(0, 19)[3]);
    assert(h[4] == h.subrange(0, 19)[4]);
    assert(h[5] == h.subrange(0, 19)[5]);
    assert(h[6] == h.subrange(0, 19)[6]);
    assert(h[7] == h.subrange(0, 19)[7]);
    assert(h[8] == h.subrange(0, 19)[8]);
    assert(h[9] == h.subrange(0, 19)[9]);
    assert(h[10] == h.subrange(0, 19)[10]);
    assert(h[0] == h.subrange(0, 19)[0]);
    assert(h[11] == h.subrange(0, 19)[11]);
    assert(h[12] == h.subrange(0, 19)[12]);
    assert(h[13] == h.subrange(0, 19)[13]);
    assert(h[14] == h.subrange(0, 19)[14]);
    assert(h[15] == h.subrange(0, 19)[15]);
    assert(h[16] == h.subrange(0, 19)[16]);
    assert(h[17] == h.subrange(0, 19)[17]);
    assert(h[18] == h.subrange(0, 19)[18]);
}

/// The two bytes of a 16 bit value, low byte first, read back as a number
pub(crate) proof fn lemma_u16_le_value(v: u16)
    ensures
        u16_le(v).len() == 2,
        u16_le(v)[0] + 256 * u16_le(v)[1] == v,
{
}

/// The four bytes of a 32 bit value, low byte first, read back as a number
pub(crate) proof fn lemma_u32_le_value(v: u32)
    ensures
        u32_le(v).len() == 4,
        u32_le(v)[0] + 256 * u32_le(v)[1] + 65536 * u32_le(v)[2] + 16777216 * u32_le(v)[3] == v,
{
}

/// The bytes of a packet that places an object, as the client reads them: the opcode 64, then
/// x and y (two bytes each, low byte first), the object id (four bytes, low byte first), the
/// icon (two bytes), the status, direction, light and speed bytes, the experience (four
/// bytes), the alignment (two bytes), and then the name
pub proof fn lemma_put_object_layout(p: ServerPacket)
    requires
        p is PutObject,
    ensures
        ({
            let d = server_packet_bytes(p);
            p matches ServerPacket::PutObject { x, y, id, icon, status, direction, light, speed, xp, alignment, .. } && {
                &&& d.len() >= 21
                &&& d[0] == 64
                &&& d[1] + 256 * d[2] == x
                &&& d[3] + 256 * d[4] == y
                &&& d[5] + 256 * d[6] + 65536 * d[7] + 16777216 * d[8] == id
                &&& d[9] + 256 * d[10] == icon
                &&& d[11] == status
                &&& d[12] == direction
                &&& d[13] == light
                &&& d[14] == speed
                &&& d[15] + 256 * d[16] + 65536 * d[17] + 16777216 * d[18] == xp
                &&& d[19] + 256 * d[20] == alignment
            }
        }),
{
    match p {
        ServerPacket::PutObject { x, y, id, icon, status, direction, light, speed, xp, alignment, name, title, status2, pledgeid, pledgename, unknown, v1, hp_bar, v2, v3 } => {
            let pre = put_object_head(x, y, id, icon, status, direction, light, speed, xp, alignment);
            lemma_put_object_head(x, y, id, icon, status, direction, light, speed, xp, alignment);
            let e1 = pre + cstr(name@);
            lemma_keeps_prefix(pre, cstr(name@), 21);
            let e2 = e1 + cstr(title@);
            lemma_keeps_prefix(e1, cstr(title@), 21);
            let e3 = e2.push(status2);
            lemma_push_keeps_prefix(e2, status2, 21);
            let e4 = e3 + u32_le(pledgeid);
            lemma_keeps_prefix(e3, u32_le(pledgeid), 21);
            let e5 = e4 + cstr(pledgename@);
            lemma_keeps_prefix(e4, cstr(pledgename@), 21);
            let e6 = e5 + cstr(unknown@);
            lemma_keeps_prefix(e5, cstr(unknown@), 21);
            let e7 = e6.push(v1);
            lemma_push_keeps_prefix(e6, v1, 21);
            let e8 = e7.push(hp_bar);
            lemma_push_keeps_prefix(e7, hp_bar, 21);
            let e9 = e8.push(v2);
            lemma_push_keeps_prefix(e8, v2, 21);
            let e10 = e9.push(v3);
            lemma_push_keeps_prefix(e9, v3, 21);
            let d = server_packet_bytes(p);
            assert(d == e10);
            assert(d.subrange(0, 21) == pre);
            assert forall|i: int| 0 <= i < 21 implies d[i] == pre[i] by {
                assert(d.subrange(0, 21)[i] == d[i]);
            }
        },
        _ => {},
    }
}

/// The bytes of the short packets, as the client reads them: each starts with its opcode, and
/// two and four byte numbers are read low byte first
pub proof fn lemma_short_packet_layouts(p: ServerPacket)
    ensures
        ({
            let d = server_packet_bytes(p);
            match p {
                ServerPacket::ServerVersion { id, version, time, new_accounts, english, country } => {
                    &&& d.len() == 26
                    &&& d[0] == 10 && d[1] == 0 && d[2] == id
                    &&& d[3] + 256 * d[4] + 65536 * d[5] + 16777216 * d[6] == version
                    &&& d[7] + 256 * d[8] + 65536 * d[9] + 16777216 * d[10] == version
                    &&& d[11] + 256 * d[12] + 65536 * d[13] + 16777216 * d[14] == version
                    &&& d[15] + 256 * d[16] + 65536 * d[17] + 16777216 * d[18] == version
                    &&& d[19] + 256 * d[20] + 65536 * d[21] + 16777216 * d[22] == time
                    &&& d[23] == new_accounts && d[24] == english && d[25] == country
                },
                ServerPacket::LoginResult { code } => d.len() == 6 && d[0] == 21 && d[1] == code,
                ServerPacket::NumberCharacters(n, slots) => d =~= seq![113u8, n, slots],
                ServerPacket::StartGame(v) => d.len() == 6 && d[0] == 63 && d[1] == 3 && d[2] + 256
                    * d[3] + 65536 * d[4] + 16777216 * d[5] == v,
                ServerPacket::MapId(m, u) => d.len() == 4 && d[0] == 76 && d[1] + 256 * d[2] == m
                    && d[3] == u,
                ServerPacket::CharSpMrBonus { sp, mr } => d =~= seq![80u8, sp, mr],
                ServerPacket::Weather(w) => d =~= seq![83u8, w],
                ServerPacket::Disconnect => d =~= seq![18u8, 244u8, 1u8, 0u8, 0u8, 0u8, 0u8],
                ServerPacket::DeleteCharacterOk => d =~= seq![33u8, 5u8],
                ServerPacket::DeleteCharacterWait => d =~= seq![33u8, 81u8],
                ServerPacket::CharacterCreationStatus(c) => d =~= seq![106u8, c, 0, 0, 0, 0, 0, 0, 0, 0],
                ServerPacket::News(_) => d.len() >= 2 && d[0] == 90,
                ServerPacket::SystemMessage(_) => d.len() >= 3 && d[0] == 105 && d[1] == 9,
                ServerPacket::GlobalChat(_) => d.len() >= 3 && d[0] == 105 && d[1] == 3,
                ServerPacket::PledgeChat(_) => d.len() >= 3 && d[0] == 105 && d[1] == 4,
                ServerPacket::PartyChat(_) => d.len() >= 3 && d[0] == 105 && d[1] == 11,
                ServerPacket::WhisperChat { .. } => d.len() >= 3 && d[0] == 91,
                ServerPacket::NpcShout(_) => d.len() >= 11 && d[0] == 42 && d[1] == 2 && d[2] == 0
                    && d[3] == 0 && d[4] == 0 && d[5] == 0,
                _ => true,
            }
        }),
{
    match p {
        ServerPacket::ServerVersion { version, time, .. } => {
            lemma_u32_le_value(version);
            lemma_u32_le_value(time);
        },
        ServerPacket::StartGame(v) => {
            lemma_u32_le_value(v);
        },
        ServerPacket::MapId(m, _) => {
            lemma_u16_le_value(m);
        },
        _ => {},
    }
}

/// The bytes of the details packet of a character, as the client reads them: the opcode 69,
/// the id (four bytes, low byte first), the level, the experience (four bytes), then strength,
/// intelligence, wisdom, dexterity, constitution and charisma, the current and maximum hit
/// points and the current and maximum mana (two bytes each), the armor class, the time (four
/// bytes), food, weight, the alignment (two bytes) and the fire, water, wind and earth
/// resistances
pub proof fn lemma_character_details_layout(p: ServerPacket)
    requires
        p is CharacterDetails,
    ensures
        ({
            let d = server_packet_bytes(p);
            p matches ServerPacket::CharacterDetails { id, level, xp, strength, dexterity, constitution, wisdom, charisma, intelligence, curr_hp, max_hp, curr_mp, max_mp, ac, time, food, weight, alignment, fire_resist, water_resist, wind_resist, earth_resist } && {
                &&& d.len() == 37
                &&& d[0] == 69
                &&& d[1] + 256 * d[2] + 65536 * d[3] + 16777216 * d[4] == id
                &&& d[5] == level
                &&& d[6] + 256 * d[7] + 65536 * d[8] + 16777216 * d[9] == xp
                &&& d[10] == strength && d[11] == intelligence && d[12] == wisdom
                &&& d[13] == dexterity && d[14] == constitution && d[15] == charisma
                &&& d[16] + 256 * d[17] == curr_hp
                &&& d[18] + 256 * d[19] == max_hp
                &&& d[20] + 256 * d[21] == curr_mp
                &&& d[22] + 256 * d[23] == max_mp
                &&& d[24] == i8_bits(ac)
                &&& d[25] + 256 * d[26] + 65536 * d[27] + 16777216 * d[28] == time
                &&& d[29] == food && d[30] == weight
                &&& d[31] + 256 * d[32] == alignment
                &&& d[33] == fire_resist && d[34] == water_resist && d[35] == wind_resist && d[36]
                    == earth_resist
            }
        }),
{
    match p {
        ServerPacket::CharacterDetails { id, xp, curr_hp, max_hp, curr_mp, max_mp, time, alignment, .. } => {
            lemma_u32_le_value(id);
            lemma_u32_le_value(xp);
            lemma_u16_le_value(curr_hp);
            lemma_u16_le_value(max_hp);
            lemma_u16_le_value(curr_mp);
            lemma_u16_le_value(max_mp);
            lemma_u32_le_value(time);
            lemma_u16_le_value(alignment);
        },
        _ => {},
    }
}

/// The bytes of the chat packets, as the client reads them: a regular or yelled message starts
/// with the opcode 8, the kind (0 or 2) and the speaker's id (four bytes, low byte first); a
/// yelled message ends with x and then y (two bytes each, low byte first)
pub proof fn lemma_chat_packet_layouts(p: ServerPacket)
    ensures
        ({
            let d = server_packet_bytes(p);
            let n = d.len() as int;
            match p {
                ServerPacket::RegularChat { id, .. } => {
                    &&& n >= 7
                    &&& d[0] == 8 && d[1] == 0
                    &&& d[2] + 256 * d[3] + 65536 * d[4] + 16777216 * d[5] == id
                    &&& d[n - 1] == 0
                },
                ServerPacket::YellChat { id, x, y, .. } => {
                    &&& n >= 11
                    &&& d[0] == 8 && d[1] == 2
                    &&& d[2] + 256 * d[3] + 65536 * d[4] + 16777216 * d[5] == id
                    &&& d[n - 4] + 256 * d[n - 3] == x
                    &&& d[n - 2] + 256 * d[n - 1] == y
                },
                _ => true,
            }
        }),
{
    match p {
        ServerPacket::RegularChat { id, msg } => {
            lemma_u32_le_value(id);
            let a = Seq::<u8>::empty().push(8u8).push(0u8) + u32_le(id);
            assert(a.len() == 6);
            let d = a + cstr(msg@);
            assert(server_packet_bytes(p) == d);
            assert(d[2] == a[2] && d[3] == a[3] && d[4] == a[4] && d[5] == a[5]);
            assert(d[0] == a[0] && d[1] == a[1]);
            assert(d[d.len() - 1] == cstr(msg@)[cstr(msg@).len() - 1]);
        },
        ServerPacket::YellChat { id, msg, x, y } => {
            lemma_u32_le_value(id);
            lemma_u16_le_value(x);
            lemma_u16_le_value(y);
            let a = Seq::<u8>::empty().push(8u8).push(2u8) + u32_le(id);
            let b = a + cstr(msg@);
            let c = b + u16_le(x);
            let d = c + u16_le(y);
            assert(server_packet_bytes(p) == d);
            assert(b[2] == a[2] && b[3] == a[3] && b[4] == a[4] && b[5] == a[5]);
            assert(b[0] == a[0] && b[1] == a[1]);
            assert(c[0] == b[0] && c[1] == b[1] && c[2] == b[2] && c[3] == b[3] && c[4] == b[4] && c[5] == b[5]);
            assert(d[0] == c[0] && d[1] == c[1] && d[2] == c[2] && d[3] == c[3] && d[4] == c[4] && d[5] == c[5]);
            assert(d[d.len() - 4] == c[b.len() as int] && d[d.len() - 3] == c[b.len() + 1int]);
        },
        _ => {},
    }
}

/// The last bytes of the two character packets of the character list, as the client reads
/// them from the end: after the name and pledge come the class (or type), the gender, the
/// alignment, hit points and mana (two bytes each, low byte first), the armor class, the level,
/// then strength, dexterity, constitution, wisdom, charisma and intelligence, and fixed
/// trailing values
pub proof fn lemma_character_list_layouts(p: ServerPacket)
    ensures
        ({
            let d = server_packet_bytes(p);
            let n = d.len() as int;
            match p {
                ServerPacket::NewCharacterDetails { class, gender, alignment, hp, mp, ac, level, strength, dexterity, constitution, wisdom, charisma, intelligence, .. } => {
                    &&& n >= 23 && d[0] == 98
                    &&& d[n - 22] == class && d[n - 21] == gender
                    &&& d[n - 20] + 256 * d[n - 19] == i16_bits(alignment)
                    &&& d[n - 18] + 256 * d[n - 17] == hp
                    &&& d[n - 16] + 256 * d[n - 15] == mp
                    &&& d[n - 14] == i8_bits(ac) && d[n - 13] == level
                    &&& d[n - 12] == strength && d[n - 11] == dexterity && d[n - 10] == constitution
                    &&& d[n - 9] == wisdom && d[n - 8] == charisma && d[n - 7] == intelligence
                    &&& d[n - 6] == 1 && d[n - 5] == 2
                    &&& d[n - 4] + 256 * d[n - 3] + 65536 * d[n - 2] + 16777216 * d[n - 1] == 3
                },
                ServerPacket::LoginCharacterDetails { ctype, gender, alignment, hp, mp, ac, level, strength, dexterity, constitution, wisdom, charisma, intelligence, .. } => {
                    &&& n >= 22 && d[0] == 99
                    &&& d[n - 21] == ctype && d[n - 20] == gender
                    &&& d[n - 19] + 256 * d[n - 18] == alignment
                    &&& d[n - 17] + 256 * d[n - 16] == hp
                    &&& d[n - 15] + 256 * d[n - 14] == mp
                    &&& d[n - 13] == i8_bits(ac) && d[n - 12] == level
                    &&& d[n - 11] == strength && d[n - 10] == dexterity && d[n - 9] == constitution
                    &&& d[n - 8] == wisdom && d[n - 7] == charisma && d[n - 6] == intelligence
                    &&& d[n - 5] == 14
                    &&& d[n - 4] + 256 * d[n - 3] + 65536 * d[n - 2] + 16777216 * d[n - 1] == 15
                },
                _ => true,
            }
        }),
{
    match p {
        ServerPacket::NewCharacterDetails { name, pledge, class, gender, alignment, hp, mp, ac, level, strength, dexterity, constitution, wisdom, charisma, intelligence } => {
            lemma_u16_le_value(i16_bits(alignment));
            lemma_u16_le_value(hp);
            lemma_u16_le_value(mp);
            lemma_u32_le_value(3u32);
            let a = (Seq::<u8>::empty().push(98u8) + cstr(name@)) + cstr(pledge@);
            let t = ((((seq![class, gender] + u16_le(i16_bits(alignment))) + u16_le(hp)) + u16_le(mp))
                + seq![i8_bits(ac), level, strength, dexterity, constitution, wisdom, charisma, intelligence, 1u8, 2u8])
                + u32_le(3u32);
            let d = server_packet_bytes(p);
            assert(d =~= a + t);
            assert(t.len() == 22);
            assert(d[0] == a[0]);
        },
        ServerPacket::LoginCharacterDetails { name, pledge, ctype, gender, alignment, hp, mp, ac, level, strength, dexterity, constitution, wisdom, charisma, intelligence } => {
            lemma_u16_le_value(alignment);
            lemma_u16_le_value(hp);
            lemma_u16_le_value(mp);
            lemma_u32_le_value(15u32);
            let a = (Seq::<u8>::empty().push(99u8) + cstr(name@)) + cstr(pledge@);
            let t = ((((seq![ctype, gender] + u16_le(alignment)) + u16_le(hp)) + u16_le(mp))
                + seq![i8_bits(ac), level, strength, dexterity, constitution, wisdom, charisma, intelligence, 14u8])
                + u32_le(15u32);
            let d = server_packet_bytes(p);
            assert(d =~= a + t);
            assert(t.len() == 21);
            assert(d[0] == a[0]);
        },
        _ => {},
    }
}

} // verus!
