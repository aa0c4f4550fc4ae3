//! One step of the world: what it does with each message that reaches it

use crate::client_packet::ClientPacket;
use crate::clients::{handed_out, ClientList, ClientListView};
use crate::messages::ServerShutdownMessage;
use crate::server_packet::ServerPacket;
use crate::session::{command_word, first_word};
use crate::world::events::{
    chat_line, chat_text, heard_by, objects_within, players_named, turned, whisper_targets,
    CHAT_RANGE_SQUARED, YELL_RANGE_SQUARED,
};
use crate::world::map_info::{lemma_push_contains, lemma_push_no_dup, object_location, MapInfo, Object};
use crate::world::state::{WorldResponse, WorldState};
use crate::character::ItemUseOutcome;
use crate::world::item::{same_text, InventoryUpdate};
use crate::world::ObjectRef;
use vstd::prelude::*;

verus! {

broadcast use vstd::std_specs::hash::group_hash_axioms;

/// What reaches the world
#[derive(Debug)]
pub enum WorldEvent {
    /// A new client asks for a client id
    Register,
    /// The client with this id is gone
    Unregister(u32),
    /// A packet from a client; `sender` is its client id, where it has one
    Packet { sender: Option<u32>, packet: ClientPacket },
}

/// What the world does in answer to a message
#[derive(Debug)]
pub enum WorldAction {
    /// Send to the client with the given id
    Send(u32, WorldResponse),
    /// Pass a request to the top of the server
    Top(ServerShutdownMessage),
    /// The packet of the client needs the stored accounts and characters; it is answered
    /// where they are kept (see `world_login`, `character_list_packets`, `delete_answer`)
    Stored(u32, ClientPacket),
}

/// The kinds of chat that go to several clients
#[derive(Clone, Copy, Debug, PartialEq, Eq, Structural)]
pub enum ChatKind {
    /// Heard nearby
    Regular,
    /// Heard further away, with the place it was yelled from
    Yell,
    /// To the party
    Party,
    /// To the pledge
    Pledge,
    /// To everyone
    Global,
}

/// Is `p` the chat packet of the kind `kind` with the text `line`, said at (`x`, `y`)?
pub open spec fn is_chat_packet(p: ServerPacket, kind: ChatKind, line: Seq<char>, x: u16, y: u16) -> bool {
    match kind {
        ChatKind::Regular => p matches ServerPacket::RegularChat { id, msg } && id == 0 && msg@ == line,
        ChatKind::Yell => p matches ServerPacket::YellChat { id, msg, x: px, y: py } && id == 0
            && msg@ == line && px == x && py == y,
        ChatKind::Party => p matches ServerPacket::PartyChat(m) && m@ == line,
        ChatKind::Pledge => p matches ServerPacket::PledgeChat(m) && m@ == line,
        ChatKind::Global => p matches ServerPacket::GlobalChat(m) && m@ == line,
    }
}

/// The chat packet of the kind `kind` with the text `line`, said at (`x`, `y`)
fn chat_packet(kind: ChatKind, line: &String, x: u16, y: u16) -> (p: ServerPacket)
    ensures
        is_chat_packet(p, kind, line@, x, y),
{
    match kind {
        ChatKind::Regular => ServerPacket::RegularChat { id: 0, msg: line.clone() },
        ChatKind::Yell => ServerPacket::YellChat { id: 0, msg: line.clone(), x, y },
        ChatKind::Party => ServerPacket::PartyChat(line.clone()),
        ChatKind::Pledge => ServerPacket::PledgeChat(line.clone()),
        ChatKind::Global => ServerPacket::GlobalChat(line.clone()),
    }
}

/// Does the action `a` send the client `t` the chat packet described by the other arguments?
pub open spec fn is_chat_to(a: WorldAction, t: u32, kind: ChatKind, line: Seq<char>, x: u16, y: u16) -> bool {
    a matches WorldAction::Send(to, WorldResponse::ServerPacket(p)) && to == t && is_chat_packet(
        p,
        kind,
        line,
        x,
        y,
    )
}

/// Do the actions `acts` send the chat packet described by the other arguments to each of
/// `targets` once, and nothing else?
pub open spec fn chats_to_each(
    acts: Seq<WorldAction>,
    targets: Set<u32>,
    kind: ChatKind,
    line: Seq<char>,
    x: u16,
    y: u16,
) -> bool {
    exists|ts: Seq<u32>|
        #![trigger ts.to_set()]
        ts.no_duplicates() && ts.to_set() == targets && ts.len() == acts.len() && forall|j: int|
            0 <= j < acts.len() ==> #[trigger] is_chat_to(acts[j], ts[j], kind, line, x, y)
}

/// Send the chat packet described by the other arguments to each client among `ids`
fn chat_to_each(ids: &Vec<u32>, clients: &ClientList, kind: ChatKind, line: &String, x: u16, y: u16) -> (acts: Vec<WorldAction>)
    requires
        ids@.no_duplicates(),
    ensures
        chats_to_each(acts@, ids@.to_set().intersect(clients@.ids), kind, line@, x, y),
{
    let mut acts: Vec<WorldAction> = Vec::new();
    let ghost mut ts: Seq<u32> = Seq::empty();
    let mut i: usize = 0;
    while i < ids.len()
        invariant
            i <= ids.len(),
            ids@.no_duplicates(),
            ts.no_duplicates(),
            ts.len() == acts@.len(),
            forall|k: u32| ts.contains(k) <==> (ids@.subrange(0, i as int).contains(k) && clients@.ids.contains(k)),
            forall|j: int| 0 <= j < acts@.len() ==> #[trigger] is_chat_to(acts@[j], ts[j], kind, line@, x, y),
        decreases ids.len() - i,
    {
        let k = ids[i];
        let ghost before = ts;
        proof {
            if ids@.subrange(0, i as int).contains(k) {
                let j = choose|j: int| 0 <= j < i && ids@.subrange(0, i as int)[j] == k;
                assert(ids@[j] == ids@[i as int]);
            }
        }
        if clients.contains(k) {
            proof {
                lemma_push_no_dup(ts, k);
            }
            acts.push(WorldAction::Send(k, WorldResponse::ServerPacket(chat_packet(kind, line, x, y))));
            proof {
                ts = ts.push(k);
                assert(is_chat_to(acts@[acts@.len() - 1], ts[ts.len() - 1], kind, line@, x, y));
            }
        }
        proof {
            assert(ids@.subrange(0, i + 1) =~= ids@.subrange(0, i as int).push(k));
            assert forall|q: u32| ts.contains(q) <==> (ids@.subrange(0, i + 1).contains(q) && clients@.ids.contains(q)) by {
                lemma_push_contains(ids@.subrange(0, i as int), k, q);
                lemma_push_contains(before, k, q);
            }
        }
        i = i + 1;
    }
    proof {
        assert(ids@.subrange(0, ids@.len() as int) =~= ids@);
        assert(ts.to_set() =~= ids@.to_set().intersect(clients@.ids));
    }
    acts
}

/// The reference of the object that the client `s` plays, where it has one
pub open spec fn sender_ref(w: WorldState, s: u32) -> Option<ObjectRef> {
    if w.characters@.contains_key(s) && w.object_ref_table@.contains_key(w.characters@[s].0) {
        Some(w.object_ref_table@[w.characters@[s].0])
    } else {
        None
    }
}

/// The reference of the object that the client `s` plays and its map, where the world has
/// that map
pub open spec fn sender_map(w: WorldState, s: u32) -> Option<(ObjectRef, MapInfo)> {
    match sender_ref(w, s) {
        Some(r) => if w.map_info@.contains_key(r.spec_map()) {
            Some((r, w.map_info@[r.spec_map()]))
        } else {
            None
        },
        None => None,
    }
}

/// Where the client `s` has a map, is its object a player on it? (Chat needs the name of the
/// speaker.)
pub open spec fn speaks_as_player(w: WorldState, s: u32) -> bool {
    match sender_map(w, s) {
        Some((r, m)) => m.objects().contains_key(r.spec_id().0) && m.objects()[r.spec_id().0] is Player,
        None => true,
    }
}

/// Is the packet a chat message that names its speaker?
pub open spec fn is_named_chat(p: ClientPacket) -> bool {
    ||| p is Chat
    ||| p is YellChat
    ||| p is PartyChat
    ||| p is PledgeChat
    ||| p is GlobalChat
    ||| p is WhisperChat
}

/// Can the world take the event `ev`? A new client needs a free id; a new character is not
/// made by the world; a client whose object is on a map of the world does not move through
/// it; a chat message needs a speaker that is a player.
pub open spec fn step_defined(w: WorldState, ev: WorldEvent) -> bool {
    match ev {
        WorldEvent::Register => w.client_ids@.ids.len() < 0x1_0000_0000,
        WorldEvent::Unregister(_) => true,
        WorldEvent::Packet { sender, packet } => {
            &&& !(packet is NewCharacter)
            &&& sender matches Some(s) ==> (is_named_chat(packet) ==> speaks_as_player(w, s)) && (
            packet is Move ==> sender_map(w, s) is None)
        },
    }
}

/// Do the worlds `a` and `b` agree on their users, characters, references, maps, tables and
/// id generator?
pub open spec fn same_tables(a: WorldState, b: WorldState) -> bool {
    &&& b.users@ == a.users@
    &&& b.characters@ == a.characters@
    &&& b.object_ref_table@ == a.object_ref_table@
    &&& b.maps@ == a.maps@
    &&& b.item_table@ == a.item_table@
    &&& b.npc_table@ == a.npc_table@
    &&& b.id_generator == a.id_generator
}

/// The packet with the server's version
pub open spec fn version_packet() -> ServerPacket {
    ServerPacket::ServerVersion { id: 2, version: 0x16009, time: 3, new_accounts: 1, english: 1, country: 0 }
}

/// What a chat message `msg` of the kind `kind` from the client `s` comes to: the speaker's
/// line goes to every registered client whose id is that of an object on the map that hears
/// it (nearby for regular chat, further for yelling, the whole map otherwise)
pub open spec fn chat_effect(w: WorldState, s: u32, kind: ChatKind, msg: Seq<char>, acts: Seq<WorldAction>) -> bool {
    match sender_map(w, s) {
        Some((r, m)) => {
            let o = m.objects()[r.spec_id().0];
            let at = object_location(o);
            let line = chat_line(o->Player_0.name@, msg);
            let heard = match kind {
                ChatKind::Regular => heard_by(m.objects(), at, CHAT_RANGE_SQUARED),
                ChatKind::Yell => heard_by(m.objects(), at, YELL_RANGE_SQUARED),
                _ => m.objects().dom(),
            };
            chats_to_each(acts, heard.intersect(w.client_ids@.ids), kind, line, at.x, at.y)
        },
        None => acts.len() == 0,
    }
}

/// What a whisper `msg` to the player named `n` from the client `s` comes to: it goes, with
/// the speaker's name, to one registered client whose id is that of a player of that name on
/// the speaker's map; without one, the speaker (when registered) is sent message 73 naming `n`
pub open spec fn whisper_effect(w: WorldState, s: u32, n: Seq<char>, msg: Seq<char>, acts: Seq<WorldAction>) -> bool {
    match sender_map(w, s) {
        Some((r, m)) => {
            let name = m.objects()[r.spec_id().0]->Player_0.name@;
            let targets = players_named(m.objects(), n).intersect(w.client_ids@.ids);
            if targets == Set::<u32>::empty() {
                if w.client_ids@.ids.contains(s) {
                    &&& acts.len() == 1
                    &&& acts[0] matches WorldAction::Send(t, WorldResponse::Message { ty, msgs }) && t
                        == s && ty == 73 && msgs@.len() == 1 && msgs@[0]@ == n
                } else {
                    acts.len() == 0
                }
            } else {
                &&& acts.len() == 1
                &&& acts[0] matches WorldAction::Send(
                    t,
                    WorldResponse::ServerPacket(ServerPacket::WhisperChat { name: nm, msg: mm }),
                ) && targets.contains(t) && nm@ == name && mm@ == msg
            }
        },
        None => acts.len() == 0,
    }
}

/// May the object `r` shut the server down: is it a player with access level 200 on a map of
/// the world?
pub open spec fn may_shut_down(w: WorldState, r: ObjectRef) -> bool {
    &&& w.map_info@.contains_key(r.spec_map())
    &&& w.map_info@[r.spec_map()].objects().contains_key(r.spec_id().0)
    &&& w.map_info@[r.spec_map()].objects()[r.spec_id().0] matches Object::Player(p) && p.access_level == 200
}

/// A shutdown or restart command of the client `s` passes the request to the top of the server
/// when its object may shut it down
pub open spec fn shutdown_effect(w: WorldState, s: u32, restart: bool, acts: Seq<WorldAction>) -> bool {
    match sender_ref(w, s) {
        Some(r) => if may_shut_down(w, r) {
            acts == seq![
                WorldAction::Top(
                    if restart {
                        ServerShutdownMessage::Restart
                    } else {
                        ServerShutdownMessage::Shutdown
                    },
                ),
            ]
        } else {
            acts.len() == 0
        },
        None => acts.len() == 0,
    }
}

/// Does the action `a` send the client `s` a system message with the text `text`?
pub open spec fn sends_system_message(a: WorldAction, s: u32, text: Seq<char>) -> bool {
    a matches WorldAction::Send(t, WorldResponse::ServerPacket(ServerPacket::SystemMessage(m)))
        && t == s && m@ == text
}

/// The eight test packets of the chat command, all to the client `s`
pub open spec fn chat_test_effect(s: u32, acts: Seq<WorldAction>) -> bool {
    &&& acts.len() == 8
    &&& sends_system_message(acts[0], s, "This is a test of the system message"@)
    &&& acts[1] matches WorldAction::Send(t, WorldResponse::ServerPacket(ServerPacket::NpcShout(m)))
        && t == s && m@ == "NPC Shout test"@
    &&& acts[2] matches WorldAction::Send(t, WorldResponse::ServerPacket(ServerPacket::RegularChat { id, msg }))
        && t == s && id == 0 && msg@ == "regular chat"@
    &&& acts[3] matches WorldAction::Send(
        t,
        WorldResponse::ServerPacket(ServerPacket::YellChat { id, msg, x, y }),
    ) && t == s && id == 0 && msg@ == "yelling"@ && x == 32768 && y == 32768
    &&& acts[4] matches WorldAction::Send(t, WorldResponse::ServerPacket(ServerPacket::GlobalChat(m)))
        && t == s && m@ == "global chat"@
    &&& acts[5] matches WorldAction::Send(t, WorldResponse::ServerPacket(ServerPacket::PledgeChat(m)))
        && t == s && m@ == "pledge chat"@
    &&& acts[6] matches WorldAction::Send(t, WorldResponse::ServerPacket(ServerPacket::PartyChat(m)))
        && t == s && m@ == "party chat"@
    &&& acts[7] matches WorldAction::Send(
        t,
        WorldResponse::ServerPacket(ServerPacket::WhisperChat { name, msg }),
    ) && t == s && name@ == "test"@ && msg@ == "whisper message"@
}

/// What a command `msg` from the client `s` comes to, by its first word: "shutdown" and
/// "restart" pass the request on (see `shutdown_effect`), "quit" disconnects the client,
/// "chat" sends it the test packets; a client that is not registered gets nothing
pub open spec fn command_effect(w: WorldState, s: u32, msg: Seq<char>, acts: Seq<WorldAction>) -> bool {
    if !w.client_ids@.ids.contains(s) {
        acts.len() == 0
    } else {
        match first_word(msg) {
            Some(wd) => if wd == "shutdown"@ {
                shutdown_effect(w, s, false, acts)
            } else if wd == "restart"@ {
                shutdown_effect(w, s, true, acts)
            } else if wd == "quit"@ {
                acts == seq![WorldAction::Send(s, WorldResponse::ServerPacket(ServerPacket::Disconnect))]
            } else if wd == "chat"@ {
                chat_test_effect(s, acts)
            } else {
                acts.len() == 0
            },
            None => acts.len() == 0,
        }
    }
}

/// A change of direction of the client `s` turns its object on its map (`turned`)
pub open spec fn turn_effect(w: WorldState, s: u32, d: u8, maps2: Map<u16, MapInfo>) -> bool {
    match sender_map(w, s) {
        Some((r, m)) => {
            &&& maps2.dom() == w.map_info@.dom()
            &&& turned(m.objects(), maps2[r.spec_map()].objects(), r.spec_id().0, d)
            &&& forall|k: u16| k != r.spec_map() ==> #[trigger] maps2.get(k) == w.map_info@.get(k)
        },
        None => maps2 == w.map_info@,
    }
}

/// What the packet `packet` from the client `s` comes to: the maps afterwards are `maps2`
/// and the actions `acts`
pub open spec fn packet_effect(
    w: WorldState,
    s: u32,
    packet: ClientPacket,
    maps2: Map<u16, MapInfo>,
    acts: Seq<WorldAction>,
) -> bool {
    match packet {
        ClientPacket::ChangeDirection(d) => acts.len() == 0 && turn_effect(w, s, d, maps2),
        _ => maps2 == w.map_info@ && match packet {
            ClientPacket::Version(..) => acts == (if w.client_ids@.ids.contains(s) {
                seq![WorldAction::Send(s, WorldResponse::ServerPacket(version_packet()))]
            } else {
                Seq::empty()
            }),
            ClientPacket::Login(..) | ClientPacket::NewsDone | ClientPacket::DeleteCharacter(
                _,
            ) | ClientPacket::CharacterSelect { .. } | ClientPacket::ChangePassword {
                ..
            } => acts == seq![WorldAction::Stored(s, packet)],
            ClientPacket::Chat(m) => chat_effect(w, s, ChatKind::Regular, m@, acts),
            ClientPacket::YellChat(m) => chat_effect(w, s, ChatKind::Yell, m@, acts),
            ClientPacket::PartyChat(m) => chat_effect(w, s, ChatKind::Party, m@, acts),
            ClientPacket::PledgeChat(m) => chat_effect(w, s, ChatKind::Pledge, m@, acts),
            ClientPacket::GlobalChat(m) => chat_effect(w, s, ChatKind::Global, m@, acts),
            ClientPacket::WhisperChat(n, m) => whisper_effect(w, s, n@, m@, acts),
            ClientPacket::CommandChat(m) => command_effect(w, s, m@, acts),
            _ => acts.len() == 0,
        },
    }
}

/// What the event `ev` comes to: the world `w` becomes `w2`, and the actions are `acts`
pub open spec fn step_effect(w: WorldState, ev: WorldEvent, w2: WorldState, acts: Seq<WorldAction>) -> bool {
    &&& same_tables(w, w2)
    &&& match ev {
        WorldEvent::Register => {
            &&& w2.map_info@ == w.map_info@
            &&& acts.len() == 1
            &&& acts[0] matches WorldAction::Send(t, WorldResponse::NewClientId(t2)) && t == t2
                && handed_out(w.client_ids@, w2.client_ids@, t)
        },
        WorldEvent::Unregister(id) => {
            &&& w2.map_info@ == w.map_info@
            &&& w2.client_ids@ == (ClientListView { ids: w.client_ids@.ids.remove(id), ..w.client_ids@ })
            &&& acts.len() == 0
        },
        WorldEvent::Packet { sender, packet } => {
            &&& w2.client_ids@ == w.client_ids@
            &&& match sender {
                Some(s) => packet_effect(w, s, packet, w2.map_info@, acts),
                None => w2.map_info@ == w.map_info@ && acts.len() == 0,
            }
        },
    }
}

/// The reference of the object that the client `s` plays, where it has one
fn locate(w: &WorldState, s: u32) -> (r: Option<ObjectRef>)
    ensures
        r == sender_ref(*w, s),
{
    match w.characters.get(&s) {
        Some(id) => match w.object_ref_table.get(&id.0) {
            Some(r) => Some(*r),
            None => None,
        },
        None => None,
    }
}

/// The actions for a chat message `msg` of the kind `kind` from the client `s`
fn chat_step(w: &WorldState, s: u32, kind: ChatKind, msg: &String) -> (acts: Vec<WorldAction>)
    requires
        w.wf(),
        speaks_as_player(*w, s),
    ensures
        chat_effect(*w, s, kind, msg@, acts@),
{
    match locate(w, s) {
        None => Vec::new(),
        Some(r) => match w.map_info.get(&r.map()) {
            None => Vec::new(),
            Some(m) => {
                assert(m.wf());
                let name = m.get_name(r).unwrap();
                let at = m.get_location(r).unwrap();
                let line = chat_text(name.as_str(), msg.as_str());
                let ids = match kind {
                    ChatKind::Regular => objects_within(m, at, CHAT_RANGE_SQUARED),
                    ChatKind::Yell => objects_within(m, at, YELL_RANGE_SQUARED),
                    _ => m.objects_iter(),
                };
                chat_to_each(&ids, &w.client_ids, kind, &line, at.x, at.y)
            },
        },
    }
}

/// The actions for a whisper `msg` to the player named `n` from the client `s`
#[verifier::loop_isolation(false)]
fn whisper_step(w: &WorldState, s: u32, n: &String, msg: &String) -> (acts: Vec<WorldAction>)
    requires
        w.wf(),
        speaks_as_player(*w, s),
    ensures
        whisper_effect(*w, s, n@, msg@, acts@),
{
    match locate(w, s) {
        None => Vec::new(),
        Some(r) => match w.map_info.get(&r.map()) {
            None => Vec::new(),
            Some(m) => {
                assert(m.wf());
                let name = m.get_name(r).unwrap();
                let ids = whisper_targets(m, n.as_str());
                let ghost targets = players_named(m.objects(), n@).intersect(w.client_ids@.ids);
                let mut i: usize = 0;
                while i < ids.len()
                    invariant
                        i <= ids.len(),
                        forall|j: int| 0 <= j < i ==> !w.client_ids@.ids.contains(#[trigger] ids@[j]),
                    decreases ids.len() - i,
                {
                    if w.client_ids.contains(ids[i]) {
                        let mut acts: Vec<WorldAction> = Vec::new();
                        proof {
                            assert(ids@.to_set().contains(ids@[i as int]));
                            assert(targets.contains(ids@[i as int]));
                            assert(targets != Set::<u32>::empty());
                        }
                        acts.push(
                            WorldAction::Send(
                                ids[i],
                                WorldResponse::ServerPacket(
                                    ServerPacket::WhisperChat { name: name.clone(), msg: msg.clone() },
                                ),
                            ),
                        );
                        return acts;
                    }
                    i = i + 1;
                }
                proof {
                    assert forall|t: u32| !targets.contains(t) by {
                        if targets.contains(t) {
                            assert(ids@.to_set().contains(t));
                            let j = choose|j: int| 0 <= j < ids@.len() && ids@[j] == t;
                            assert(!w.client_ids@.ids.contains(ids@[j]));
                        }
                    }
                    assert(targets =~= Set::<u32>::empty());
                }
                let mut acts: Vec<WorldAction> = Vec::new();
                if w.client_ids.contains(s) {
                    let mut msgs: Vec<String> = Vec::new();
                    msgs.push(n.clone());
                    acts.push(WorldAction::Send(s, WorldResponse::Message { ty: 73, msgs }));
                }
                acts
            },
        },
    }
}

/// The actions for a shutdown (or restart) command from the client `s`
fn shutdown_step(w: &WorldState, s: u32, restart: bool) -> (acts: Vec<WorldAction>)
    ensures
        shutdown_effect(*w, s, restart, acts@),
{
    let mut acts: Vec<WorldAction> = Vec::new();
    match locate(w, s) {
        Some(r) => match w.shutdown(r, restart) {
            Some(m) => {
                acts.push(WorldAction::Top(m));
                assert(acts@ =~= seq![WorldAction::Top(m)]);
            },
            None => {},
        },
        None => {},
    }
    acts
}

/// The test packets of the chat command, all for the client `s`
fn chat_test(s: u32) -> (acts: Vec<WorldAction>)
    ensures
        chat_test_effect(s, acts@),
{
    let mut acts: Vec<WorldAction> = Vec::new();
    acts.push(
        WorldAction::Send(
            s,
            WorldResponse::ServerPacket(
                ServerPacket::SystemMessage(String::from_str("This is a test of the system message")),
            ),
        ),
    );
    acts.push(
        WorldAction::Send(
            s,
            WorldResponse::ServerPacket(ServerPacket::NpcShout(String::from_str("NPC Shout test"))),
        ),
    );
    acts.push(
        WorldAction::Send(
            s,
            WorldResponse::ServerPacket(
                ServerPacket::RegularChat { id: 0, msg: String::from_str("regular chat") },
            ),
        ),
    );
    acts.push(
        WorldAction::Send(
            s,
            WorldResponse::ServerPacket(
                ServerPacket::YellChat { id: 0, msg: String::from_str("yelling"), x: 32768, y: 32768 },
            ),
        ),
    );
    acts.push(
        WorldAction::Send(
            s,
            WorldResponse::ServerPacket(ServerPacket::GlobalChat(String::from_str("global chat"))),
        ),
    );
    acts.push(
        WorldAction::Send(
            s,
            WorldResponse::ServerPacket(ServerPacket::PledgeChat(String::from_str("pledge chat"))),
        ),
    );
    acts.push(
        WorldAction::Send(
            s,
            WorldResponse::ServerPacket(ServerPacket::PartyChat(String::from_str("party chat"))),
        ),
    );
    acts.push(
        WorldAction::Send(
            s,
            WorldResponse::ServerPacket(
                ServerPacket::WhisperChat {
                    name: String::from_str("test"),
                    msg: String::from_str("whisper message"),
                },
            ),
        ),
    );
    acts
}

/// The actions for a command `msg` from the client `s`
fn command_step(w: &WorldState, s: u32, msg: &String) -> (acts: Vec<WorldAction>)
    ensures
        command_effect(*w, s, msg@, acts@),
{
    if !w.client_ids.contains(s) {
        return Vec::new();
    }
    match command_word(msg.as_str()) {
        Some(wd) => {
            if same_text(wd.as_str(), "shutdown") {
                shutdown_step(w, s, false)
            } else if same_text(wd.as_str(), "restart") {
                shutdown_step(w, s, true)
            } else if same_text(wd.as_str(), "quit") {
                let mut acts: Vec<WorldAction> = Vec::new();
                acts.push(WorldAction::Send(s, WorldResponse::ServerPacket(ServerPacket::Disconnect)));
                assert(acts@ =~= seq![
                    WorldAction::Send(s, WorldResponse::ServerPacket(ServerPacket::Disconnect)),
                ]);
                acts
            } else if same_text(wd.as_str(), "chat") {
                chat_test(s)
            } else {
                Vec::new()
            }
        },
        None => Vec::new(),
    }
}

/// The client `s` turns its object to face the direction `d`
fn turn_step(w: &mut WorldState, s: u32, d: u8)
    requires
        old(w).wf(),
    ensures
        final(w).wf(),
        same_tables(*old(w), *final(w)),
        final(w).client_ids == old(w).client_ids,
        turn_effect(*old(w), s, d, final(w).map_info@),
{
    match locate(w, s) {
        Some(r) => {
            let mp = r.map();
            match w.map_info.remove(&mp) {
                Some(mut info) => {
                    assert(old(w).map_info@.contains_key(mp));
                    let ghost before = info;
                    info.change_direction(r, d);
                    let ghost after = info;
                    w.map_info.insert(mp, info);
                    proof {
                        assert(before == old(w).map_info@[mp]);
                        assert(w.map_info@[mp] == after);
                        assert forall|k: u16| k != mp implies #[trigger] w.map_info@.get(k) == old(
                            w,
                        ).map_info@.get(k) by {}
                        assert(w.map_info@.dom() =~= old(w).map_info@.dom());
                        assert forall|k: u16| #[trigger] w.map_info@.contains_key(k) implies w.map_info@[k].wf() by {
                            if k != mp {
                                assert(old(w).map_info@.contains_key(k));
                            }
                        }
                    }
                },
                None => {
                    assert(w.map_info@ =~= old(w).map_info@);
                },
            }
        },
        None => {},
    }
}

/// Take one event: the world changes as `step_effect` says, and the actions to carry out are
/// handed back (the sending, the requests to the top of the server, and the packets that need
/// the stored accounts and characters)
pub fn world_step(w: &mut WorldState, ev: WorldEvent) -> (acts: Vec<WorldAction>)
    requires
        old(w).wf(),
        step_defined(*old(w), ev),
    ensures
        final(w).wf(),
        step_effect(*old(w), ev, *final(w), acts@),
{
    match ev {
        WorldEvent::Register => {
            let id = w.client_ids.new_entry();
            let mut acts: Vec<WorldAction> = Vec::new();
            acts.push(WorldAction::Send(id, WorldResponse::NewClientId(id)));
            acts
        },
        WorldEvent::Unregister(id) => {
            w.client_ids.remove_entry(id);
            Vec::new()
        },
        WorldEvent::Packet { sender, packet } => {
            let s = match sender {
                Some(s) => s,
                None => {
                    return Vec::new();
                },
            };
            let stored = match &packet {
                ClientPacket::Login(..) | ClientPacket::NewsDone | ClientPacket::DeleteCharacter(
                    _,
                ) | ClientPacket::CharacterSelect { .. } | ClientPacket::ChangePassword { .. } => true,
                _ => false,
            };
            if stored {
                let mut acts: Vec<WorldAction> = Vec::new();
                acts.push(WorldAction::Stored(s, packet));
                assert(acts@ =~= seq![WorldAction::Stored(s, packet)]);
                return acts;
            }
            match &packet {
                ClientPacket::ChangeDirection(d) => {
                    turn_step(w, s, *d);
                    Vec::new()
                },
                ClientPacket::Version(..) => {
                    let mut acts: Vec<WorldAction> = Vec::new();
                    if w.client_ids.contains(s) {
                        acts.push(
                            WorldAction::Send(
                                s,
                                WorldResponse::ServerPacket(
                                    ServerPacket::ServerVersion {
                                        id: 2,
                                        version: 0x16009,
                                        time: 3,
                                        new_accounts: 1,
                                        english: 1,
                                        country: 0,
                                    },
                                ),
                            ),
                        );
                        assert(acts@ =~= seq![
                            WorldAction::Send(s, WorldResponse::ServerPacket(version_packet())),
                        ]);
                    } else {
                        assert(acts@ =~= Seq::<WorldAction>::empty());
                    }
                    acts
                },
                ClientPacket::Chat(m) => chat_step(w, s, ChatKind::Regular, m),
                ClientPacket::YellChat(m) => chat_step(w, s, ChatKind::Yell, m),
                ClientPacket::PartyChat(m) => chat_step(w, s, ChatKind::Party, m),
                ClientPacket::PledgeChat(m) => chat_step(w, s, ChatKind::Pledge, m),
                ClientPacket::GlobalChat(m) => chat_step(w, s, ChatKind::Global, m),
                ClientPacket::WhisperChat(n, m) => whisper_step(w, s, n, m),
                ClientPacket::CommandChat(m) => command_step(w, s, m),
                _ => Vec::new(),
            }
        },
    }
}

/// What the client of a character is sent for the outcome `o` of using an item: message 74
/// with the item's name when it cannot be used, message 563 when the map forbids items, the
/// inventory change when a weapon or a piece of armor is equipped or taken off (and, for
/// armor, its new description), nothing otherwise
pub fn item_use_responses(o: ItemUseOutcome) -> (r: Vec<WorldResponse>)
    ensures
        match o {
            ItemUseOutcome::NotUsable { name } => r@.len() == 1 && (r@[0] matches WorldResponse::Message {
                ty,
                msgs,
            } && ty == 74 && msgs@.len() == 1 && msgs@[0]@ == name@),
            ItemUseOutcome::NotOnThisMap => r@.len() == 1 && (r@[0] matches WorldResponse::Message {
                ty,
                msgs,
            } && ty == 563 && msgs@.len() == 0),
            ItemUseOutcome::EquipToggled { id, description, count, armor } => {
                &&& r@.len() == (if armor { 2int } else { 1int })
                &&& r@[0] matches WorldResponse::InventoryMod(u) && u.id == id && u.description@
                    == description@ && u.count == count
                &&& armor ==> (r@[1] matches WorldResponse::InventoryDescription { id: di, description: dd }
                    && di == id && dd@ == description@)
            },
            _ => r@.len() == 0,
        },
{
    let mut r: Vec<WorldResponse> = Vec::new();
    match o {
        ItemUseOutcome::NotUsable { name } => {
            let mut msgs: Vec<String> = Vec::new();
            msgs.push(name);
            r.push(WorldResponse::Message { ty: 74, msgs });
        },
        ItemUseOutcome::NotOnThisMap => {
            r.push(WorldResponse::Message { ty: 563, msgs: Vec::new() });
        },
        ItemUseOutcome::EquipToggled { id, description, count, armor } => {
            let d2 = description.clone();
            r.push(WorldResponse::InventoryMod(InventoryUpdate { id, description, count }));
            if armor {
                r.push(WorldResponse::InventoryDescription { id, description: d2 });
            }
        },
        _ => {},
    }
    r
}

} // verus!
