//! The decisions the world makes on the requests of the clients in it: logging in, choosing
//! and deleting characters, moving, turning, chatting and shutting the server down

use crate::character::{squared_distance, step_dx, step_dy, Character, Location};
use crate::messages::ServerShutdownMessage;
use crate::server_packet::ServerPacket;
use crate::text::{push_char, push_str};
use crate::user::{password_hash, UserAccount, UserAccountView};
use crate::world::item::same_text;
use crate::world::map_info::{
    lemma_push_contains, lemma_push_no_dup, object_id, object_location, same_kind, MapInfo, Object,
};
use crate::world::ObjectRef;
use vstd::prelude::*;

verus! {

/// The change of the x coordinate for a step with the heading `h`, as movement requests of
/// clients count headings (0 is toward -y, then clockwise toward +x)
pub open spec fn heading_dx(h: u8) -> int {
    if h == 1 || h == 2 || h == 3 {
        1
    } else if h == 5 || h == 6 || h == 7 {
        -1
    } else {
        0
    }
}

/// The change of the y coordinate for a step with the heading `h`
pub open spec fn heading_dy(h: u8) -> int {
    if h == 0 || h == 1 || h == 7 {
        -1
    } else if h == 3 || h == 4 || h == 5 {
        1
    } else {
        0
    }
}

/// The sign of `v`: -1, 0 or 1
pub open spec fn sign(v: int) -> int {
    if v < 0 {
        -1
    } else if v > 0 {
        1
    } else {
        0
    }
}

/// The eight headings, as steps: heading 0 goes toward -y, and the headings go clockwise, one
/// neighbouring square after the other; a heading above 7 does not move
pub proof fn lemma_heading_table(h: u8)
    ensures
        h < 8 ==> heading_dx(h) == seq![0int, 1, 1, 1, 0, -1, -1, -1][h as int],
        h < 8 ==> heading_dy(h) == seq![-1int, -1, 0, 1, 1, 1, 0, -1][h as int],
        h >= 8 ==> heading_dx(h) == 0 && heading_dy(h) == 0,
{
}

/// How the headings relate: heading 0 steps toward -y; each next heading is the step turned
/// 45 degrees clockwise, which for a step `(dx, dy)` is `(sign(dx - dy), sign(dx + dy))`;
/// and the heading four further on is the opposite step
pub proof fn lemma_headings_turn(h: u8)
    requires
        h < 8,
    ensures
        heading_dx(0) == 0 && heading_dy(0) == -1,
        heading_dx(((h + 1) % 8) as u8) == sign(heading_dx(h) - heading_dy(h)),
        heading_dy(((h + 1) % 8) as u8) == sign(heading_dx(h) + heading_dy(h)),
        heading_dx(((h + 4) % 8) as u8) == -heading_dx(h),
        heading_dy(((h + 4) % 8) as u8) == -heading_dy(h),
        heading_dx(h) != 0 || heading_dy(h) != 0,
{
}

/// A step of an object in the direction it faces goes the opposite way of a move request with
/// the same number as its heading
pub proof fn lemma_step_opposes_heading(d: u8)
    ensures
        step_dx(d) == -heading_dx(d),
        step_dy(d) == -heading_dy(d),
{
}

/// Where a client moving from `(x, y)` with the heading `heading` arrives; a heading above 7
/// stays in place. The step must stay within the coordinate range.
pub fn move_from_target(x: u16, y: u16, heading: u8) -> (r: (u16, u16))
    requires
        0 <= x + heading_dx(heading) <= u16::MAX,
        0 <= y + heading_dy(heading) <= u16::MAX,
    ensures
        r.0 == x + heading_dx(heading),
        r.1 == y + heading_dy(heading),
{
    match heading {
        0 => (x, y - 1),
        1 => (x + 1, y - 1),
        2 => (x + 1, y),
        3 => (x + 1, y + 1),
        4 => (x, y + 1),
        5 => (x - 1, y + 1),
        6 => (x - 1, y),
        7 => (x - 1, y - 1),
        _ => (x, y),
    }
}

/// A chat message as others see it: `"[" name "] " msg`
pub open spec fn chat_line(name: Seq<char>, msg: Seq<char>) -> Seq<char> {
    seq!['['] + name + seq![']', ' '] + msg
}

/// Build the chat message others see
pub fn chat_text(name: &str, msg: &str) -> (r: String)
    ensures
        r@ == chat_line(name@, msg@),
{
    let mut r = String::new();
    push_char(&mut r, '[');
    push_str(&mut r, name);
    push_char(&mut r, ']');
    push_char(&mut r, ' ');
    push_str(&mut r, msg);
    assert(r@ =~= chat_line(name@, msg@));
    r
}

/// The square of the distance (30) within which a regular chat message is heard
pub const CHAT_RANGE_SQUARED: u64 = 900;

/// The square of the distance (60) within which a yelled message is heard
pub const YELL_RANGE_SQUARED: u64 = 3600;

/// The objects of the map (the speaker too) whose distance from `at` is below the square
/// root of `range_squared`
pub open spec fn heard_by(objs: Map<u32, Object>, at: Location, range_squared: u64) -> Set<u32> {
    Set::new(
        |k: u32|
            objs.dom().contains(k) && squared_distance(object_location(objs[k]), at)
                < range_squared,
    )
}

/// The objects of the map within hearing of a message said at `at`, each once
pub fn objects_within(map: &MapInfo, at: Location, range_squared: u64) -> (r: Vec<u32>)
    requires
        map.wf(),
    ensures
        r@.to_set() == heard_by(map.objects(), at, range_squared),
        r@.no_duplicates(),
{
    let ids = map.objects_iter();
    let mut r: Vec<u32> = Vec::new();
    let mut i: usize = 0;
    while i < ids.len()
        invariant
            i <= ids.len(),
            ids@.to_set() == map.objects().dom(),
            ids@.no_duplicates(),
            r@.no_duplicates(),
            forall|k: u32|
                r@.contains(k) <==> ids@.subrange(0, i as int).contains(k) && heard_by(
                    map.objects(),
                    at,
                    range_squared,
                ).contains(k),
        decreases ids.len() - i,
    {
        let k = ids[i];
        let ghost before = r@;
        assert(ids@.contains(k));
        let o = map.get_object_from_id(crate::world::WorldObjectId(k)).unwrap();
        if o.get_location().distance_squared(&at) < range_squared {
            proof {
                assert(!ids@.subrange(0, i as int).contains(k));
                lemma_push_no_dup(r@, k);
            }
            r.push(k);
        }
        proof {
            assert(ids@.subrange(0, i + 1) =~= ids@.subrange(0, i as int).push(k));
            assert forall|x: u32|
                r@.contains(x) <==> ids@.subrange(0, i + 1).contains(x) && heard_by(
                    map.objects(),
                    at,
                    range_squared,
                ).contains(x) by {
                lemma_push_contains(ids@.subrange(0, i as int), k, x);
                lemma_push_contains(before, k, x);
            }
        }
        i = i + 1;
    }
    assert(ids@.subrange(0, ids.len() as int) =~= ids@);
    assert(r@.to_set() =~= heard_by(map.objects(), at, range_squared)) by {
        assert forall|x: u32| heard_by(map.objects(), at, range_squared).contains(x) implies r@.contains(
            x,
        ) by {
            assert(ids@.to_set().contains(x));
        }
    }
    r
}

/// The objects of the map that are players named `name`
pub open spec fn players_named(objs: Map<u32, Object>, name: Seq<char>) -> Set<u32> {
    Set::new(
        |k: u32| objs.dom().contains(k) && (objs[k] matches Object::Player(p) && p.name@ == name),
    )
}

/// The players of the map named `name`, each once, to whom a whisper to that name goes
pub fn whisper_targets(map: &MapInfo, name: &str) -> (r: Vec<u32>)
    requires
        map.wf(),
    ensures
        r@.to_set() == players_named(map.objects(), name@),
        r@.no_duplicates(),
{
    let ids = map.objects_iter();
    let mut r: Vec<u32> = Vec::new();
    let mut i: usize = 0;
    while i < ids.len()
        invariant
            i <= ids.len(),
            ids@.to_set() == map.objects().dom(),
            ids@.no_duplicates(),
            r@.no_duplicates(),
            forall|k: u32|
                r@.contains(k) <==> ids@.subrange(0, i as int).contains(k) && players_named(
                    map.objects(),
                    name@,
                ).contains(k),
        decreases ids.len() - i,
    {
        let k = ids[i];
        let ghost before = r@;
        assert(ids@.contains(k));
        let o = map.get_object_from_id(crate::world::WorldObjectId(k)).unwrap();
        let named = match o.player_name() {
            Some(n) => same_text(n.as_str(), name),
            None => false,
        };
        if named {
            proof {
                assert(!ids@.subrange(0, i as int).contains(k));
                lemma_push_no_dup(r@, k);
            }
            r.push(k);
        }
        proof {
            assert(ids@.subrange(0, i + 1) =~= ids@.subrange(0, i as int).push(k));
            assert forall|x: u32|
                r@.contains(x) <==> ids@.subrange(0, i + 1).contains(x) && players_named(
                    map.objects(),
                    name@,
                ).contains(x) by {
                lemma_push_contains(ids@.subrange(0, i as int), k, x);
                lemma_push_contains(before, k, x);
            }
        }
        i = i + 1;
    }
    assert(ids@.subrange(0, ids.len() as int) =~= ids@);
    assert(r@.to_set() =~= players_named(map.objects(), name@)) by {
        assert forall|x: u32| players_named(map.objects(), name@).contains(x) implies r@.contains(
            x,
        ) by {
            assert(ids@.to_set().contains(x));
        }
    }
    r
}

/// Find the first character named `name`
pub fn find_character(chars: &Vec<Character>, name: &str) -> (r: Option<usize>)
    ensures
        match r {
            Some(i) => i < chars@.len() && chars@[i as int]@.name == name@ && forall|j: int|
                0 <= j < i ==> chars@[j]@.name != name@,
            None => forall|j: int| 0 <= j < chars@.len() ==> chars@[j]@.name != name@,
        },
{
    let mut i: usize = 0;
    while i < chars.len()
        invariant
            i <= chars.len(),
            forall|j: int| 0 <= j < i ==> chars@[j]@.name != name@,
        decreases chars.len() - i,
    {
        if same_text(chars[i].name(), name) {
            return Some(i);
        }
        i = i + 1;
    }
    None
}

/// Take the first character named `name` out of the list, to be deleted from storage; the
/// list is unchanged when there is none
pub fn remove_character(chars: &mut Vec<Character>, name: &str) -> (r: Option<Character>)
    ensures
        match r {
            Some(c) => exists|i: int|
                0 <= i < old(chars)@.len() && old(chars)@[i]@.name == name@ && (forall|j: int|
                    0 <= j < i ==> old(chars)@[j]@.name != name@) && c == old(chars)@[i]
                    && final(chars)@ == old(chars)@.remove(i),
            None => (forall|j: int| 0 <= j < old(chars)@.len() ==> old(chars)@[j]@.name != name@)
                && final(chars)@ == old(chars)@,
        },
{
    match find_character(chars, name) {
        Some(i) => Some(chars.remove(i)),
        None => None,
    }
}

/// The answer to a request to delete the character named `name` of the account whose
/// characters are `chars`: none when there is no such character, a waiting period for a
/// character of level 30 or more, and the deletion otherwise
pub fn delete_answer(chars: &Vec<Character>, name: &str) -> (r: Option<ServerPacket>)
    ensures
        match r {
            Some(p) => exists|i: int|
                0 <= i < chars@.len() && chars@[i]@.name == name@ && (forall|j: int|
                    0 <= j < i ==> chars@[j]@.name != name@) && p == (if chars@[i]@.level >= 30 {
                    ServerPacket::DeleteCharacterWait
                } else {
                    ServerPacket::DeleteCharacterOk
                }),
            None => forall|j: int| 0 <= j < chars@.len() ==> chars@[j]@.name != name@,
        },
{
    match find_character(chars, name) {
        Some(i) => {
            if chars[i].needs_delete_waiting() {
                Some(ServerPacket::DeleteCharacterWait)
            } else {
                Some(ServerPacket::DeleteCharacterOk)
            }
        },
        None => None,
    }
}

/// The packets listing the characters of an account: their number (modulo 256) and 8 slots,
/// then the details of each character in order
pub fn character_list_packets(chars: &Vec<Character>) -> (ps: Vec<ServerPacket>)
    ensures
        ps@.len() == chars@.len() + 1,
        ps@[0] == ServerPacket::NumberCharacters((chars@.len() % 256) as u8, 8),
        forall|i: int|
            0 <= i < chars@.len() ==> (#[trigger] ps@[i + 1] matches ServerPacket::LoginCharacterDetails {
                name,
                level,
                ..
            } && name@ == chars@[i]@.name && level == chars@[i]@.level),
{
    let mut ps: Vec<ServerPacket> = Vec::new();
    let n = chars.len();
    let count: u8 = (n % 256) as u8;
    ps.push(ServerPacket::NumberCharacters(count, 8));
    let mut i: usize = 0;
    while i < chars.len()
        invariant
            i <= chars.len(),
            n == chars@.len(),
            ps@.len() == i + 1,
            ps@[0] == ServerPacket::NumberCharacters((chars@.len() % 256) as u8, 8),
            forall|j: int|
                0 <= j < i ==> (#[trigger] ps@[j + 1] matches ServerPacket::LoginCharacterDetails {
                    name,
                    level,
                    ..
                } && name@ == chars@[j]@.name && level == chars@[j]@.level),
        decreases chars.len() - i,
    {
        let p = chars[i].get_details_packet();
        ps.push(p);
        i = i + 1;
    }
    ps
}

/// What the world does after a login succeeds
#[derive(Debug, PartialEq)]
pub enum NewsStep {
    /// Send the login result 0 and the news; the character list follows once the client has
    /// read it
    ShowNews(Vec<ServerPacket>),
    /// Send the login result 0, then the character list at once (there is no news)
    ListCharacters(Vec<ServerPacket>),
}

/// The packets that start a successful login, given the news of the server
pub fn login_with_news(news: String) -> (r: NewsStep)
    ensures
        news@.len() == 0 ==> (r matches NewsStep::ListCharacters(ps) && ps@ == seq![
            (ServerPacket::LoginResult { code: 0 }),
        ]),
        news@.len() > 0 ==> (r matches NewsStep::ShowNews(ps) && ps@.len() == 2 && ps@[0]
            == (ServerPacket::LoginResult { code: 0 }) && ps@[1] == ServerPacket::News(news)),
{
    let mut ps = Vec::new();
    ps.push(ServerPacket::LoginResult { code: 0 });
    if news.as_str().is_empty() {
        NewsStep::ListCharacters(ps)
    } else {
        ps.push(ServerPacket::News(news));
        NewsStep::ShowNews(ps)
    }
}

/// How the world answers a login
pub enum WorldLogin {
    /// The stored account logs in, and is kept as the account of the client
    LoggedIn(UserAccount),
    /// The account did not exist and is created, to be stored; the client logs in
    Created(UserAccount),
    /// The login is refused (login result 8)
    Refused,
}

/// Answer a login as `user` with `password`, where `found` is the stored account of that
/// name, if any; `salt` hashes the passwords, `auto_create` says whether unknown accounts are
/// created, and `peer` is the address of the client
pub fn world_login(
    found: Option<UserAccount>,
    user: String,
    password: String,
    salt: String,
    auto_create: bool,
    peer: String,
) -> (r: WorldLogin)
    ensures
        match found {
            Some(us) => if password_hash(us@.name, salt@, password@) == us@.password {
                r matches WorldLogin::LoggedIn(a) && a@ == us@
            } else {
                r is Refused
            },
            None => if auto_create {
                r matches WorldLogin::Created(a) && a@ == (UserAccountView {
                    name: user@,
                    password: password_hash(user@, salt@, password@),
                    active: 1,
                    access: 0,
                    ip: peer@,
                    host: peer@,
                    banned: false,
                    slot: 0,
                })
            } else {
                r is Refused
            },
        },
{
    match found {
        Some(us) => {
            if us.check_login(salt.as_str(), password.as_str()) {
                WorldLogin::LoggedIn(us)
            } else {
                WorldLogin::Refused
            }
        },
        None => {
            if auto_create {
                WorldLogin::Created(UserAccount::new(user, password, peer, salt))
            } else {
                WorldLogin::Refused
            }
        },
    }
}

/// The message to the top of the server for a shutdown (or restart) command of the object
/// `r`: only an object on the map that may shut the server down (an administrator) is heard
pub fn shutdown_request(map: &MapInfo, r: ObjectRef, restart: bool) -> (m: Option<
    ServerShutdownMessage,
>)
    ensures
        m is Some <==> map.objects().contains_key(r.spec_id().0) && (map.objects()[r.spec_id().0] matches Object::Player(
            p,
        ) && p.access_level == 200),
        m matches Some(x) ==> x == (if restart {
            ServerShutdownMessage::Restart
        } else {
            ServerShutdownMessage::Shutdown
        }),
{
    let allowed = match map.get_object_from_id(r.world_id()) {
        Some(o) => o.can_shutdown(),
        None => false,
    };
    if allowed {
        if restart {
            Some(ServerShutdownMessage::Restart)
        } else {
            Some(ServerShutdownMessage::Shutdown)
        }
    } else {
        None
    }
}

/// The id a new character is stored with: the next free id of the database, or 2 when the
/// database has none
pub fn new_character_id(next: Option<u32>) -> (id: u32)
    ensures
        id == match next {
            Some(n) => n,
            None => 2,
        },
{
    match next {
        Some(n) => n,
        None => 2,
    }
}

/// Are the objects `after` the objects `before` with the object `id`, where there is one,
/// turned to face the direction `d` (all else unchanged)?
pub open spec fn turned(before: Map<u32, Object>, after: Map<u32, Object>, id: u32, d: u8) -> bool {
    &&& after.dom() == before.dom()
    &&& forall|k: u32| #[trigger] after.contains_key(k) && k != id ==> after[k] == before[k]
    &&& before.contains_key(id) ==> {
        let a = before[id];
        let b = after[id];
        &&& object_location(b) == (Location { direction: d, ..object_location(a) })
        &&& object_id(b) == object_id(a)
        &&& same_kind(b, a)
    }
    &&& !before.contains_key(id) ==> after == before
}

impl MapInfo {
    /// The object `r` turns to face the direction `d`; nothing happens when it is not on the
    /// map
    pub fn change_direction(&mut self, r: ObjectRef, d: u8)
        requires
            old(self).wf(),
        ensures
            final(self).wf(),
            turned(old(self).objects(), final(self).objects(), r.spec_id().0, d),
    {
        match self.get_location(r) {
            Some(loc) => {
                let new_loc = Location { direction: d, ..loc };
                self.set_object_location(r, new_loc);
            },
            None => {},
        }
    }
}

} // verus!
