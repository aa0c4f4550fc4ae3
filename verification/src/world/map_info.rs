//! The objects on each map, and who is told what when they appear, move and go

use crate::character::{is_put_player, squared_distance, step_dx, step_dy, step_in_range, FullCharacter, Location, VIEW_RANGE_SQUARED};
use crate::server_packet::ServerPacket;
use crate::world::item::{is_put_item, item_world_id, ItemWithLocation};
use crate::world::npc::is_put_creature;
use crate::world::monster::Monster;
use crate::world::npc::Npc;
use crate::world::{ObjectRef, WorldObjectId};
use std::collections::HashMap;
use vstd::prelude::*;
use vstd::std_specs::hash::spec_keys_iter;
use vstd::std_specs::iter::IteratorSpec;

verus! {

broadcast use vstd::std_specs::hash::group_hash_axioms;

/// The things that an object can be
#[derive(Debug)]
pub enum Object {
    /// A character played by a user
    Player(FullCharacter),
    /// A generic npc
    GenericNpc(Npc),
    /// A generic monster
    Monster(Monster),
    /// An item on the ground
    GroundItem(ItemWithLocation),
}

/// The world id of an object
pub open spec fn object_id(o: Object) -> WorldObjectId {
    match o {
        Object::Player(p) => p.world_id,
        Object::GenericNpc(n) => n.id,
        Object::Monster(m) => m.id,
        Object::GroundItem(i) => item_world_id(i.item),
    }
}

/// Where an object is
pub open spec fn object_location(o: Object) -> Location {
    match o {
        Object::Player(p) => p.details.location,
        Object::GenericNpc(n) => n.location,
        Object::Monster(m) => m.location,
        Object::GroundItem(i) => i.location,
    }
}

/// Can the object be sent packets? Players are sent them by their client, monsters by their
/// own task.
pub open spec fn has_sender(o: Object) -> bool {
    o is Player || o is Monster
}

/// Two objects are the same kind of object
pub open spec fn same_kind(a: Object, b: Object) -> bool {
    &&& a is Player <==> b is Player
    &&& a is GenericNpc <==> b is GenericNpc
    &&& a is Monster <==> b is Monster
    &&& a is GroundItem <==> b is GroundItem
}

impl Object {
    /// Get the object id for this object
    pub fn id(&self) -> (i: WorldObjectId)
        ensures
            i == object_id(*self),
    {
        match self {
            Object::Player(p) => p.id(),
            Object::GenericNpc(n) => n.id(),
            Object::Monster(m) => m.id(),
            Object::GroundItem(i) => i.id(),
        }
    }

    /// Get the location of the object
    pub fn get_location(&self) -> (l: Location)
        ensures
            l == object_location(*self),
    {
        match self {
            Object::Player(p) => p.get_location(),
            Object::GenericNpc(n) => n.get_location(),
            Object::Monster(m) => m.get_location(),
            Object::GroundItem(i) => i.get_location(),
        }
    }

    /// Set the location of the object
    pub fn set_location(&mut self, l: Location)
        ensures
            object_location(*final(self)) == l,
            object_id(*final(self)) == object_id(*old(self)),
            same_kind(*final(self), *old(self)),
    {
        match self {
            Object::Player(p) => p.set_location(l),
            Object::GenericNpc(n) => n.set_location(l),
            Object::Monster(m) => m.set_location(l),
            Object::GroundItem(i) => i.set_location(l),
        }
    }

    /// Is the object a player?
    pub fn is_player(&self) -> (b: bool)
        ensures
            b == (*self is Player),
    {
        match self {
            Object::Player(_) => true,
            _ => false,
        }
    }

    /// Can the object be sent packets?
    pub fn has_sender(&self) -> (b: bool)
        ensures
            b == has_sender(*self),
    {
        match self {
            Object::Player(_) => true,
            Object::Monster(_) => true,
            _ => false,
        }
    }

    /// The name of the character, if the object is a player
    pub fn player_name(&self) -> (n: Option<String>)
        ensures
            match *self {
                Object::Player(p) => n matches Some(x) && x@ == p.name@,
                _ => n is None,
            },
    {
        match self {
            Object::Player(p) => p.player_name(),
            _ => None,
        }
    }

    /// Can the object shut the server down?
    pub fn can_shutdown(&self) -> (b: bool)
        ensures
            b == (*self matches Object::Player(p) && p.access_level == 200),
    {
        match self {
            Object::Player(p) => p.can_shutdown(),
            _ => false,
        }
    }

    /// Build a packet for placing the object on the map for a user
    pub fn build_put_object_packet(&self) -> (p: ServerPacket)
        ensures
            match *self {
                Object::Player(f) => is_put_player(p, f),
                Object::GenericNpc(n) => is_put_creature(
                    p,
                    n.id,
                    n.location,
                    n.icon,
                    n.light_size,
                    n.alignment,
                    n.name@,
                ),
                Object::Monster(m) => is_put_creature(
                    p,
                    m.id,
                    m.location,
                    m.icon,
                    m.light_size,
                    m.alignment,
                    m.name@,
                ),
                Object::GroundItem(i) => is_put_item(p, i),
            },
    {
        match self {
            Object::Player(p) => p.build_put_object_packet(),
            Object::GenericNpc(n) => n.build_put_object_packet(),
            Object::Monster(m) => m.build_put_object_packet(),
            Object::GroundItem(i) => i.build_put_object_packet(),
        }
    }

    /// The object forgets the object `id`, if it keeps a list of known objects (only players do)
    pub fn remove_object(&mut self, id: WorldObjectId)
        ensures
            object_id(*final(self)) == object_id(*old(self)),
            object_location(*final(self)) == object_location(*old(self)),
            same_kind(*final(self), *old(self)),
            match (*old(self), *final(self)) {
                (Object::Player(a), Object::Player(b)) => b.known_objects@ == a.known_objects@.remove(id.0),
                _ => *final(self) == *old(self),
            },
    {
        match self {
            Object::Player(p) => p.remove_object(id),
            _ => {},
        }
    }
}

/// Are the objects `after` the objects `before` with the object `id` gone, and every player
/// left having forgotten it (other objects stay as they were)?
pub open spec fn removed_from(before: Map<u32, Object>, after: Map<u32, Object>, id: u32) -> bool {
    &&& after.dom() == before.dom().remove(id)
    &&& forall|k: u32| #[trigger]
        after.contains_key(k) ==> {
            let a = before[k];
            let b = after[k];
            &&& object_id(b) == object_id(a)
            &&& object_location(b) == object_location(a)
            &&& same_kind(b, a)
            &&& match (a, b) {
                (Object::Player(pa), Object::Player(pb)) => pb.known_objects@
                    == pa.known_objects@.remove(id),
                _ => b == a,
            }
        }
}

/// The ids of the objects other than `me` that are within view of the location `at`
pub open spec fn in_view(objs: Map<u32, Object>, me: u32, at: Location) -> Set<u32> {
    Set::new(
        |k: u32|
            objs.dom().contains(k) && k != me && squared_distance(object_location(objs[k]), at)
                < VIEW_RANGE_SQUARED,
    )
}

/// What an object has to be told when another object moves
#[derive(Clone, Copy, Debug, PartialEq, Eq, Hash, Structural)]
pub enum NoticeKind {
    /// An object is no longer in view
    Remove,
    /// An object came into view
    Put,
    /// An object in view moves
    Move,
}

/// A packet to send: the object `to` is told of the object `about`
#[derive(Clone, Copy, Debug, PartialEq, Eq, Hash, Structural)]
pub struct Notice {
    pub to: WorldObjectId,
    pub about: WorldObjectId,
    pub kind: NoticeKind,
}

/// The notices of a move of the object `me` on a map whose objects are `objs` after the move:
/// `olds` are the objects that were in view of it before, `news` those in view after. The
/// mover and every other object that can be sent packets are told of each object that went
/// out of view (removed) and came into view (put), and every object in view after the move
/// that can be sent packets is told of the move.
pub open spec fn expected_notice(
    objs: Map<u32, Object>,
    me: u32,
    olds: Set<u32>,
    news: Set<u32>,
    n: Notice,
) -> bool {
    let mover_hears = has_sender(objs[me]);
    match n.kind {
        NoticeKind::Remove => {
            ||| n.to.0 == me && olds.contains(n.about.0) && !news.contains(n.about.0) && mover_hears
            ||| n.about.0 == me && olds.contains(n.to.0) && !news.contains(n.to.0) && has_sender(
                objs[n.to.0],
            )
        },
        NoticeKind::Put => {
            ||| n.to.0 == me && news.contains(n.about.0) && !olds.contains(n.about.0) && mover_hears
            ||| n.about.0 == me && news.contains(n.to.0) && !olds.contains(n.to.0) && has_sender(
                objs[n.to.0],
            )
        },
        NoticeKind::Move => n.about.0 == me && news.contains(n.to.0) && has_sender(objs[n.to.0]),
    }
}

/// Represents the dynamic information of a map
#[derive(Debug)]
pub struct MapInfo {
    /// The objects on the map, by id
    objects: HashMap<u32, Object>,
}

/// The keys that the map `m` holds, each once
pub(crate) fn keys_of<V>(m: &HashMap<u32, V>) -> (r: Vec<u32>)
    ensures
        r@.to_set() == m@.dom(),
        r@.no_duplicates(),
{
    let mut r: Vec<u32> = Vec::new();
    let ghost keys = spec_keys_iter(m).remaining().unref();
    for x in it: m.keys()
        invariant
            it.seq().unref() == keys,
            keys.no_duplicates(),
            keys.to_set() == m@.dom(),
            r@ == keys.subrange(0, it.index()),
    {
        assert(keys[it.index()] == *x);
        r.push(*x);
        assert(r@ =~= keys.subrange(0, it.index() + 1));
    }
    assert(keys.subrange(0, keys.len() as int) =~= keys);
    r
}

/// Does the sequence hold `x`?
fn holds(v: &Vec<u32>, x: u32) -> (b: bool)
    ensures
        b == v@.contains(x),
{
    let mut i: usize = 0;
    while i < v.len()
        invariant
            i <= v.len(),
            forall|j: int| 0 <= j < i ==> v@[j] != x,
        decreases v.len() - i,
    {
        if v[i] == x {
            return true;
        }
        i = i + 1;
    }
    false
}

/// The elements of `a` that `b` does not hold, each once
fn minus(a: &Vec<u32>, b: &Vec<u32>) -> (r: Vec<u32>)
    requires
        a@.no_duplicates(),
    ensures
        r@.to_set() == a@.to_set().difference(b@.to_set()),
        r@.no_duplicates(),
{
    let mut r: Vec<u32> = Vec::new();
    let mut i: usize = 0;
    while i < a.len()
        invariant
            i <= a.len(),
            a@.no_duplicates(),
            r@.no_duplicates(),
            forall|k: u32| r@.contains(k) <==> a@.subrange(0, i as int).contains(k) && !b@.contains(k),
        decreases a.len() - i,
    {
        let x = a[i];
        let ghost before = r@;
        if !holds(b, x) {
            proof {
                assert(!a@.subrange(0, i as int).contains(x));
            }
            r.push(x);
        }
        proof {
            assert(a@.subrange(0, i + 1) =~= a@.subrange(0, i as int).push(x));
            assert forall|k: u32| r@.contains(k) <==> a@.subrange(0, i + 1).contains(k) && !b@.contains(
                k,
            ) by {
                lemma_push_contains(a@.subrange(0, i as int), x, k);
                lemma_push_contains(before, x, k);
            }
        }
        i = i + 1;
    }
    assert(a@.subrange(0, a.len() as int) =~= a@);
    assert(r@.to_set() =~= a@.to_set().difference(b@.to_set()));
    r
}

impl MapInfo {
    /// The objects on the map, by id
    pub closed spec fn objects(&self) -> Map<u32, Object> {
        self.objects@
    }

    /// Every object is held under its own id
    pub closed spec fn wf(&self) -> bool {
        forall|k: u32| #[trigger] self.objects@.contains_key(k) ==> object_id(self.objects@[k]).0 == k
    }

    /// Construct a new map info object
    pub fn new() -> (m: MapInfo)
        ensures
            m.wf(),
            m.objects() == Map::<u32, Object>::empty(),
    {
        MapInfo { objects: HashMap::new() }
    }

    /// Add an object to the map, in place of any object with the same id
    pub fn add_new_object(&mut self, new_o: Object)
        requires
            old(self).wf(),
        ensures
            final(self).wf(),
            final(self).objects() == old(self).objects().insert(object_id(new_o).0, new_o),
    {
        let id = new_o.id();
        self.objects.insert(id.0, new_o);
    }

    /// Get an object reference from the map
    pub fn get_object(&self, r: ObjectRef) -> (o: Option<&Object>)
        ensures
            match o {
                Some(x) => self.objects().contains_key(r.spec_id().0) && *x == self.objects()[r.spec_id().0],
                None => !self.objects().contains_key(r.spec_id().0),
            },
    {
        self.objects.get(&r.world_id().0)
    }

    /// Get an object from the object id
    pub fn get_object_from_id(&self, id: WorldObjectId) -> (o: Option<&Object>)
        ensures
            match o {
                Some(x) => self.objects().contains_key(id.0) && *x == self.objects()[id.0],
                None => !self.objects().contains_key(id.0),
            },
    {
        self.objects.get(&id.0)
    }

    /// Get a location of an object reference
    pub fn get_location(&self, r: ObjectRef) -> (l: Option<Location>)
        ensures
            match l {
                Some(x) => self.objects().contains_key(r.spec_id().0) && x == object_location(
                    self.objects()[r.spec_id().0],
                ),
                None => !self.objects().contains_key(r.spec_id().0),
            },
    {
        match self.get_object(r) {
            Some(o) => Some(o.get_location()),
            None => None,
        }
    }

    /// Get the name of an object reference, if it is a player
    pub fn get_name(&self, r: ObjectRef) -> (n: Option<String>)
        ensures
            match n {
                Some(x) => self.objects().contains_key(r.spec_id().0) && (
                self.objects()[r.spec_id().0] matches Object::Player(p) && x@ == p.name@),
                None => !(self.objects().contains_key(r.spec_id().0) && self.objects()[r.spec_id().0] is Player),
            },
    {
        match self.get_object(r) {
            Some(o) => o.player_name(),
            None => None,
        }
    }

    /// Place the object `r`, which must be on the map, at `l`
    pub fn set_object_location(&mut self, r: ObjectRef, l: Location)
        requires
            old(self).wf(),
            old(self).objects().contains_key(r.spec_id().0),
        ensures
            final(self).wf(),
            final(self).objects().dom() == old(self).objects().dom(),
            forall|k: u32| #[trigger]
                final(self).objects().contains_key(k) && k != r.spec_id().0 ==> final(self).objects()[k]
                    == old(self).objects()[k],
            object_location(final(self).objects()[r.spec_id().0]) == l,
            object_id(final(self).objects()[r.spec_id().0]) == object_id(old(self).objects()[r.spec_id().0]),
            same_kind(final(self).objects()[r.spec_id().0], old(self).objects()[r.spec_id().0]),
    {
        let k = r.world_id().0;
        let mut o = self.objects.remove(&k).unwrap();
        o.set_location(l);
        self.objects.insert(k, o);
        assert(self.objects@.dom() =~= old(self).objects@.dom());
    }

    /// The ids of all objects on the map, each once
    pub fn objects_iter(&self) -> (ids: Vec<u32>)
        ensures
            ids@.to_set() == self.objects().dom(),
            ids@.no_duplicates(),
    {
        keys_of(&self.objects)
    }

    /// The ids of the objects other than `me` within view of the location `at`, each once
    fn ids_in_view(&self, me: u32, at: Location) -> (r: Vec<u32>)
        ensures
            r@.to_set() == in_view(self.objects(), me, at),
            r@.no_duplicates(),
    {
        let keys = keys_of(&self.objects);
        let mut r: Vec<u32> = Vec::new();
        let mut i: usize = 0;
        while i < keys.len()
            invariant
                i <= keys.len(),
                keys@.to_set() == self.objects@.dom(),
                keys@.no_duplicates(),
                r@.no_duplicates(),
                forall|k: u32|
                    r@.contains(k) <==> keys@.subrange(0, i as int).contains(k) && in_view(
                        self.objects@,
                        me,
                        at,
                    ).contains(k),
            decreases keys.len() - i,
        {
            let k = keys[i];
            let ghost before = r@;
            assert(self.objects@.dom().contains(k)) by {
                assert(keys@.contains(k));
            }
            let o = self.objects.get(&k).unwrap();
            if k != me && o.get_location().within_view(&at) {
                proof {
                    assert(!keys@.subrange(0, i as int).contains(k));
                    lemma_push_no_dup(r@, k);
                }
                r.push(k);
            }
            proof {
                assert(keys@.subrange(0, i + 1) =~= keys@.subrange(0, i as int).push(k));
                assert forall|x: u32|
                    r@.contains(x) <==> keys@.subrange(0, i + 1).contains(x) && in_view(
                        self.objects@,
                        me,
                        at,
                    ).contains(x) by {
                    lemma_push_contains(keys@.subrange(0, i as int), k, x);
                    lemma_push_contains(before, k, x);
                }
            }
            i = i + 1;
        }
        assert(keys@.subrange(0, keys.len() as int) =~= keys@);
        assert(r@.to_set() =~= in_view(self.objects@, me, at)) by {
            assert forall|x: u32| in_view(self.objects@, me, at).contains(x) implies r@.contains(x) by {
                assert(keys@.to_set().contains(x));
            }
        }
        r
    }

    /// The object `r` is new here: if it can be sent packets, it is to be sent the objects
    /// around it (those within view), each once; the object must be on the map
    pub fn object_is_new_here(&self, r: ObjectRef) -> (shown: Vec<u32>)
        requires
            self.objects().contains_key(r.spec_id().0),
        ensures
            has_sender(self.objects()[r.spec_id().0]) ==> shown@.to_set() == in_view(
                self.objects(),
                r.spec_id().0,
                object_location(self.objects()[r.spec_id().0]),
            ),
            !has_sender(self.objects()[r.spec_id().0]) ==> shown@.len() == 0,
            shown@.no_duplicates(),
    {
        let me = r.world_id().0;
        let obj = self.objects.get(&me).unwrap();
        let loc = obj.get_location();
        if obj.has_sender() {
            self.ids_in_view(me, loc)
        } else {
            Vec::new()
        }
    }

    /// Remove an object from the map; every object that keeps a list of known objects forgets
    /// it
    pub fn remove_object(&mut self, id: WorldObjectId)
        requires
            old(self).wf(),
        ensures
            final(self).wf(),
            removed_from(old(self).objects(), final(self).objects(), id.0),
    {
        self.objects.remove(&id.0);
        let ghost mid = self.objects@;
        let keys = keys_of(&self.objects);
        let mut i: usize = 0;
        while i < keys.len()
            invariant
                i <= keys.len(),
                keys@.to_set() == mid.dom(),
                keys@.no_duplicates(),
                self.objects@.dom() == mid.dom(),
                mid.dom() == old(self).objects@.dom().remove(id.0),
                forall|k: u32| #[trigger] mid.contains_key(k) ==> mid[k] == old(self).objects@[k],
                forall|k: u32| #[trigger]
                    old(self).objects@.contains_key(k) ==> object_id(old(self).objects@[k]).0 == k,
                forall|k: u32| #[trigger]
                    self.objects@.contains_key(k) ==> {
                        let a = mid[k];
                        let b = self.objects@[k];
                        &&& object_id(b) == object_id(a)
                        &&& object_location(b) == object_location(a)
                        &&& same_kind(b, a)
                        &&& if keys@.subrange(0, i as int).contains(k) {
                            match (a, b) {
                                (Object::Player(pa), Object::Player(pb)) => pb.known_objects@
                                    == pa.known_objects@.remove(id.0),
                                _ => b == a,
                            }
                        } else {
                            b == a
                        }
                    },
            decreases keys.len() - i,
        {
            let k = keys[i];
            assert(keys@.contains(k));
            let mut o = self.objects.remove(&k).unwrap();
            o.remove_object(id);
            self.objects.insert(k, o);
            proof {
                assert(keys@.subrange(0, i + 1) =~= keys@.subrange(0, i as int).push(k));
                assert(!keys@.subrange(0, i as int).contains(k));
                assert(self.objects@.dom() =~= mid.dom());
                assert forall|x: u32| #[trigger] self.objects@.contains_key(x) implies (keys@.subrange(
                    0,
                    i + 1,
                ).contains(x) <==> keys@.subrange(0, i as int).contains(x) || x == k) by {
                    lemma_push_contains(keys@.subrange(0, i as int), k, x);
                }
            }
            i = i + 1;
        }
        proof {
            assert(keys@.subrange(0, keys.len() as int) =~= keys@);
            assert forall|k: u32| #[trigger] self.objects@.contains_key(k) implies keys@.contains(k) by {
                assert(keys@.to_set().contains(k));
            }
        }
    }

    /// Move the object `r` to `new_loc`. The objects in view of it before and after the move
    /// are compared: each object that went out of view and the mover tell each other (if they
    /// can be sent packets) that the other is gone, each that came into view and the mover are
    /// shown to each other, and each object in view after the move is told of the move. The
    /// object must be on the map, and one step from its new location must stay on the map
    /// (the move packet shows that step).
    pub fn move_object(&mut self, r: ObjectRef, new_loc: Location) -> (notices: Vec<Notice>)
        requires
            old(self).wf(),
            old(self).objects().contains_key(r.spec_id().0),
            step_in_range(new_loc),
        ensures
            final(self).wf(),
            final(self).objects().dom() == old(self).objects().dom(),
            forall|k: u32| #[trigger]
                final(self).objects().contains_key(k) && k != r.spec_id().0 ==> final(self).objects()[k]
                    == old(self).objects()[k],
            object_location(final(self).objects()[r.spec_id().0]) == new_loc,
            object_id(final(self).objects()[r.spec_id().0]) == r.spec_id(),
            same_kind(final(self).objects()[r.spec_id().0], old(self).objects()[r.spec_id().0]),
            notices@.no_duplicates(),
            forall|n: Notice|
                notices@.contains(n) <==> expected_notice(
                    final(self).objects(),
                    r.spec_id().0,
                    in_view(
                        old(self).objects(),
                        r.spec_id().0,
                        object_location(old(self).objects()[r.spec_id().0]),
                    ),
                    in_view(final(self).objects(), r.spec_id().0, new_loc),
                    n,
                ),
    {
        let me_ref = r.world_id();
        let me = me_ref.0;
        let ghost me_id = r.spec_id();
        let old_loc = self.objects.get(&me).unwrap().get_location();
        let old_ids = self.ids_in_view(me, old_loc);
        let mut mover = self.objects.remove(&me).unwrap();
        mover.set_location(new_loc);
        self.objects.insert(me, mover);
        let ghost objs = self.objects@;
        proof {
            assert(objs.dom() =~= old(self).objects@.dom());
            assert(in_view(old(self).objects@, me, old_loc) =~= in_view(objs, me, old_loc));
        }
        let new_ids = self.ids_in_view(me, new_loc);
        let ghost olds = old_ids@.to_set();
        let ghost news = new_ids@.to_set();
        let mover_hears = self.objects.get(&me).unwrap().has_sender();
        let removed = minus(&old_ids, &new_ids);
        let added = minus(&new_ids, &old_ids);
        let mut notices: Vec<Notice> = Vec::new();
        let mut i: usize = 0;
        while i < removed.len()
            invariant
                i <= removed.len(),
                me_ref == me_id,
                me_id.0 == me,
                self.objects@ == objs,
                objs.contains_key(me),
                mover_hears == has_sender(objs[me]),
                removed@.no_duplicates(),
                removed@.to_set() == olds.difference(news),
                olds == in_view(objs, me, old_loc),
                notices@.no_duplicates(),
                forall|n: Notice|
                    notices@.contains(n) <==> n.kind == NoticeKind::Remove && expected_notice(
                        objs,
                        me,
                        removed@.subrange(0, i as int).to_set(),
                        Set::empty(),
                        n,
                    ),
            decreases removed.len() - i,
        {
            let k = removed[i];
            let ghost before = notices@;
            let ghost done = removed@.subrange(0, i as int).to_set();
            proof {
                assert(!done.contains(k)) by {
                    assert(removed@.subrange(0, i as int).contains(k) ==> false);
                }
                assert(removed@.to_set().contains(k)) by {
                    assert(removed@[i as int] == k);
                }
            }
            assert(k != me);
            let ghost n1 = Notice { to: me_id, about: WorldObjectId(k), kind: NoticeKind::Remove };
            if mover_hears {
                notices.push(Notice { to: me_ref, about: WorldObjectId(k), kind: NoticeKind::Remove });
                assert(notices@ == before.push(n1));
            }
            assert(notices@ == push_if(before, mover_hears, n1));
            let ghost mid = notices@;
            assert(objs.contains_key(k));
            let other_hears = self.objects.get(&k).unwrap().has_sender();
            let ghost n2 = Notice { to: WorldObjectId(k), about: me_id, kind: NoticeKind::Remove };
            if other_hears {
                notices.push(Notice { to: WorldObjectId(k), about: me_ref, kind: NoticeKind::Remove });
                assert(notices@ == mid.push(n2));
            }
            assert(notices@ == push_if(mid, other_hears, n2));
            proof {
                let done2 = removed@.subrange(0, i + 1).to_set();
                assert(removed@.subrange(0, i + 1) =~= removed@.subrange(0, i as int).push(k));
                lemma_push_to_set(removed@.subrange(0, i as int), k);
                assert(!before.contains(n1));
                assert(!before.contains(n2));
                lemma_push_if(before, mover_hears, n1, n1);
                lemma_push_if(before, mover_hears, n1, n2);
                assert(!mid.contains(n2));
                lemma_push_if(mid, other_hears, n2, n2);
                assert forall|n: Notice|
                    notices@.contains(n) <==> n.kind == NoticeKind::Remove && expected_notice(
                        objs,
                        me,
                        done2,
                        Set::empty(),
                        n,
                    ) by {
                    lemma_push_if(before, mover_hears, n1, n);
                    lemma_push_if(mid, other_hears, n2, n);
                }
            }
            i = i + 1;
        }
        assert(removed@.subrange(0, removed.len() as int) =~= removed@);
        let mut i: usize = 0;
        while i < added.len()
            invariant
                i <= added.len(),
                me_ref == me_id,
                me_id.0 == me,
                self.objects@ == objs,
                objs.contains_key(me),
                mover_hears == has_sender(objs[me]),
                added@.no_duplicates(),
                added@.to_set() == news.difference(olds),
                news == in_view(objs, me, new_loc),
                notices@.no_duplicates(),
                forall|n: Notice|
                    notices@.contains(n) <==> (n.kind == NoticeKind::Remove && expected_notice(
                        objs,
                        me,
                        olds,
                        news,
                        n,
                    )) || (n.kind == NoticeKind::Put && expected_notice(
                        objs,
                        me,
                        Set::empty(),
                        added@.subrange(0, i as int).to_set(),
                        n,
                    )),
            decreases added.len() - i,
        {
            let k = added[i];
            let ghost before = notices@;
            let ghost done = added@.subrange(0, i as int).to_set();
            proof {
                assert(!done.contains(k)) by {
                    assert(added@.subrange(0, i as int).contains(k) ==> false);
                }
                assert(added@.to_set().contains(k)) by {
                    assert(added@[i as int] == k);
                }
            }
            assert(k != me);
            let ghost n1 = Notice { to: me_id, about: WorldObjectId(k), kind: NoticeKind::Put };
            if mover_hears {
                notices.push(Notice { to: me_ref, about: WorldObjectId(k), kind: NoticeKind::Put });
                assert(notices@ == before.push(n1));
            }
            assert(notices@ == push_if(before, mover_hears, n1));
            let ghost mid = notices@;
            assert(objs.contains_key(k));
            let other_hears = self.objects.get(&k).unwrap().has_sender();
            let ghost n2 = Notice { to: WorldObjectId(k), about: me_id, kind: NoticeKind::Put };
            if other_hears {
                notices.push(Notice { to: WorldObjectId(k), about: me_ref, kind: NoticeKind::Put });
                assert(notices@ == mid.push(n2));
            }
            assert(notices@ == push_if(mid, other_hears, n2));
            proof {
                let done2 = added@.subrange(0, i + 1).to_set();
                assert(added@.subrange(0, i + 1) =~= added@.subrange(0, i as int).push(k));
                lemma_push_to_set(added@.subrange(0, i as int), k);
                assert(!before.contains(n1));
                assert(!before.contains(n2));
                lemma_push_if(before, mover_hears, n1, n1);
                lemma_push_if(before, mover_hears, n1, n2);
                assert(!mid.contains(n2));
                lemma_push_if(mid, other_hears, n2, n2);
                assert forall|n: Notice|
                    notices@.contains(n) <==> (n.kind == NoticeKind::Remove && expected_notice(
                        objs,
                        me,
                        olds,
                        news,
                        n,
                    )) || (n.kind == NoticeKind::Put && expected_notice(
                        objs,
                        me,
                        Set::empty(),
                        done2,
                        n,
                    )) by {
                    lemma_push_if(before, mover_hears, n1, n);
                    lemma_push_if(mid, other_hears, n2, n);
                }
            }
            i = i + 1;
        }
        assert(added@.subrange(0, added.len() as int) =~= added@);
        let mut i: usize = 0;
        while i < new_ids.len()
            invariant
                i <= new_ids.len(),
                me_ref == me_id,
                me_id.0 == me,
                self.objects@ == objs,
                objs.contains_key(me),
                new_ids@.no_duplicates(),
                new_ids@.to_set() == news,
                news == in_view(objs, me, new_loc),
                notices@.no_duplicates(),
                forall|n: Notice|
                    notices@.contains(n) <==> (n.kind != NoticeKind::Move && expected_notice(
                        objs,
                        me,
                        olds,
                        news,
                        n,
                    )) || (n.kind == NoticeKind::Move && expected_notice(
                        objs,
                        me,
                        olds,
                        new_ids@.subrange(0, i as int).to_set(),
                        n,
                    )),
            decreases new_ids.len() - i,
        {
            let k = new_ids[i];
            let ghost before = notices@;
            let ghost done = new_ids@.subrange(0, i as int).to_set();
            proof {
                assert(!done.contains(k)) by {
                    assert(new_ids@.subrange(0, i as int).contains(k) ==> false);
                }
                assert(news.contains(k)) by {
                    assert(new_ids@[i as int] == k);
                }
            }
            assert(objs.contains_key(k));
            let other_hears = self.objects.get(&k).unwrap().has_sender();
            let ghost n2 = Notice { to: WorldObjectId(k), about: me_id, kind: NoticeKind::Move };
            if other_hears {
                notices.push(Notice { to: WorldObjectId(k), about: me_ref, kind: NoticeKind::Move });
                assert(notices@ == before.push(n2));
            }
            assert(notices@ == push_if(before, other_hears, n2));
            proof {
                let done2 = new_ids@.subrange(0, i + 1).to_set();
                assert(new_ids@.subrange(0, i + 1) =~= new_ids@.subrange(0, i as int).push(k));
                lemma_push_to_set(new_ids@.subrange(0, i as int), k);
                lemma_push_if(before, other_hears, n2, n2);
                assert forall|n: Notice|
                    notices@.contains(n) <==> (n.kind != NoticeKind::Move && expected_notice(
                        objs,
                        me,
                        olds,
                        news,
                        n,
                    )) || (n.kind == NoticeKind::Move && expected_notice(
                        objs,
                        me,
                        olds,
                        done2,
                        n,
                    )) by {
                    lemma_push_if(before, other_hears, n2, n);
                }
            }
            i = i + 1;
        }
        assert(new_ids@.subrange(0, new_ids.len() as int) =~= new_ids@);
        notices
    }
}

/// `s` with `x` pushed when `b` holds
spec fn push_if<A>(s: Seq<A>, b: bool, x: A) -> Seq<A> {
    if b { s.push(x) } else { s }
}

pub(crate) proof fn lemma_push_contains<A>(s: Seq<A>, x: A, k: A)
    ensures
        s.push(x).contains(k) <==> s.contains(k) || k == x,
{
    if s.push(x).contains(k) && k != x {
        let j = choose|j: int| 0 <= j < s.push(x).len() && s.push(x)[j] == k;
        assert(s[j] == k);
    }
    if s.contains(k) {
        let j = choose|j: int| 0 <= j < s.len() && s[j] == k;
        assert(s.push(x)[j] == k);
    }
    assert(s.push(x)[s.len() as int] == x);
}

proof fn lemma_push_if(s: Seq<Notice>, b: bool, x: Notice, n: Notice)
    ensures
        push_if(s, b, x).contains(n) <==> s.contains(n) || (b && n == x),
        s.no_duplicates() && (b ==> !s.contains(x)) ==> push_if(s, b, x).no_duplicates(),
{
    lemma_push_contains(s, x, n);
    if b && s.no_duplicates() && !s.contains(x) {
        lemma_push_no_dup(s, x);
    }
}

pub(crate) proof fn lemma_push_no_dup<A>(s: Seq<A>, x: A)
    requires
        s.no_duplicates(),
        !s.contains(x),
    ensures
        s.push(x).no_duplicates(),
{
    assert forall|a: int, b: int| 0 <= a < b < s.push(x).len() implies s.push(x)[a] != s.push(
        x,
    )[b] by {
        if b == s.len() {
            assert(s[a] == s.push(x)[a]);
        }
    }
}

/// The elements of a sequence grown by one element
proof fn lemma_push_to_set<A>(s: Seq<A>, x: A)
    ensures
        s.push(x).to_set() == s.to_set().insert(x),
{
    assert forall|k: A| s.push(x).to_set().contains(k) == s.to_set().insert(x).contains(k) by {
        lemma_push_contains(s, x, k);
    }
    assert(s.push(x).to_set() =~= s.to_set().insert(x));
}

} // verus!
