//! Code generally used for all objects in the game

use crate::world::WorldObjectId;
use std::collections::HashSet;
use vstd::prelude::*;
use vstd::std_specs::hash::spec_hash_keys_iter;
use vstd::std_specs::iter::IteratorSpec;

verus! {

broadcast use vstd::std_specs::hash::group_hash_axioms;

/// The effects that can be on an object
#[derive(Clone, Copy, Debug, PartialEq, Eq, Hash, Structural)]
pub enum Effect {
    AbsoluteBarrier,
    AdditionalFire,
    AreaSilence,
    Barlog,
    Berserkers,
    Blind,
    BlindHiding,
    BloodLust,
    BluePotion,
    BounceAttack,
    Brave,
    BurningSpirit,
    BurningWeapon,
    Concentration,
    Cooking,
    Cooking1N,
    Cooking1S,
    Cooking2N,
    Cooking2S,
    Cooking3N,
    Cooking3S,
    CounterBarrier,
    CounterMagic,
    CubeBalance,
    CubeIgnition,
    CubeQuake,
    CubeShock,
    Darkness,
    DecayPotion,
    DecreaseWeight,
    DoubleBreak,
    DragonSkin,
    DressEvasion,
    EarthBind,
    ElementalFire,
    ElementalProtection,
    ElfBrave,
    EnchantVenom,
    Entangle,
    EraseMagic,
    ExoticVitalize,
    FireBless,
    FireWeapon,
    FloatingEye,
    Freeze,
    FreezingBlizzard,
    FreezingBreath,
    GreaterHaste,
    Haste,
    HolyMithrilPowder,
    HolyWalk,
    HolyWater,
    HolyWaterEva,
    IceLance,
    IllusionistAvatar,
    ImmuneToHarm,
    Invisibility,
    JoyOfPain,
    Light,
    MassSlow,
    Meditation,
    MirrorImage,
    MortalBody,
    MovingAcceleration,
    NaturesTouch,
    NoChat,
    Patience,
    Poison,
    PoisonParalyzed,
    PoisonParalyzing,
    PoisonSilence,
    PolluteWater,
    PolyEffect,
    Polymorph,
    ReductionArmor,
    ResistFear,
    RiBrave,
    ShockStun,
    Silence,
    Slow,
    SolidCarriage,
    SoulOfFlame,
    StrikerGale,
    UncannyDodge,
    UnderwaterBreath,
    VenomResist,
    WaterLife,
    WindWalk,
    WindShackle,
    WisdomPotion,
    Yahee,
}

/// The types of objects, for attacking and being attacked
#[derive(Clone, Copy, Debug, PartialEq, Eq, Structural)]
pub enum BasicObjectType {
    /// The object is a user playing a character
    Player,
    /// The object is an npc
    Npc,
    /// The object is a monster
    Monster,
    /// The object is something else
    Other,
}

/// The ids that `a` holds and `b` does not, each once, in the order in which the set `a` is
/// walked
fn ids_not_in(a: &HashSet<u32>, b: &HashSet<u32>) -> (r: Vec<u32>)
    ensures
        r@.to_set() == a@.difference(b@),
        r@.no_duplicates(),
{
    let mut r: Vec<u32> = Vec::new();
    let ghost keys = spec_hash_keys_iter(a).remaining().unref();
    for x in it: a.iter()
        invariant
            it.seq().unref() == keys,
            keys.no_duplicates(),
            keys.to_set() == a@,
            r@.no_duplicates(),
            forall|k: u32|
                r@.contains(k) <==> (exists|j: int| 0 <= j < it.index() && keys[j] == k)
                    && !b@.contains(k),
    {
        let ghost i = it.index();
        let ghost before = r@;
        assert(keys[i] == *x);
        if !b.contains(x) {
            proof {
                assert forall|j: int| 0 <= j < i implies keys[j] != *x by {}
            }
            r.push(*x);
        }
        proof {
            assert forall|k: u32|
                r@.contains(k) <==> (exists|j: int| 0 <= j < i + 1 && keys[j] == k) && !b@.contains(
                    k,
                ) by {
                if r@.contains(k) && k != *x {
                    assert(before.contains(k));
                }
                if k == *x && !b@.contains(k) {
                    assert(r@[r@.len() - 1] == k);
                }
                if (exists|j: int| 0 <= j < i + 1 && keys[j] == k) && !b@.contains(k) && k != *x {
                    let j = choose|j: int| 0 <= j < i + 1 && keys[j] == k;
                    assert(j < i);
                    assert(before.contains(k));
                    let m = choose|m: int| 0 <= m < before.len() && before[m] == k;
                    assert(r@[m] == k);
                }
            }
        }
    }
    proof {
        assert forall|k: u32| #[trigger] r@.to_set().contains(k) == a@.difference(b@).contains(
            k,
        ) by {
            if a@.contains(k) {
                assert(keys.contains(k));
            }
        }
    }
    assert(r@.to_set() =~= a@.difference(b@));
    r
}

/// The raw ids of a sequence of object ids
pub open spec fn ids_of(v: Seq<WorldObjectId>) -> Seq<u32> {
    v.map_values(|w: WorldObjectId| w.0)
}

/// Append the ids `v` as object ids to `dst`
fn append_ids(dst: &mut Vec<WorldObjectId>, v: &Vec<u32>)
    ensures
        ids_of(final(dst)@) == ids_of(old(dst)@) + v@,
        final(dst)@.len() == old(dst)@.len() + v@.len(),
{
    let mut i: usize = 0;
    while i < v.len()
        invariant
            i <= v.len(),
            ids_of(dst@) == ids_of(old(dst)@) + v@.subrange(0, i as int),
            dst@.len() == old(dst)@.len() + i,
        decreases v.len() - i,
    {
        let ghost prev = dst@;
        dst.push(WorldObjectId(v[i]));
        assert(ids_of(dst@) =~= ids_of(prev).push(v@[i as int]));
        assert(ids_of(dst@) =~= ids_of(old(dst)@) + v@.subrange(0, i + 1));
        i = i + 1;
    }
    assert(v@.subrange(0, v.len() as int) =~= v@);
}

/// A helper struct for managing a list of objects known to a player
#[derive(Debug)]
pub struct ObjectList {
    /// The ids of the objects
    items: HashSet<u32>,
}

impl View for ObjectList {
    type V = Set<u32>;

    closed spec fn view(&self) -> Set<u32> {
        self.items@
    }
}

impl ObjectList {
    /// Construct a blank list
    pub fn new() -> (l: ObjectList)
        ensures
            l@ == Set::<u32>::empty(),
    {
        ObjectList { items: HashSet::new() }
    }

    /// The objects of this list that are not in `other`, each once
    pub fn difference(&self, other: &ObjectList) -> (r: Vec<WorldObjectId>)
        ensures
            ids_of(r@).to_set() == self@.difference(other@),
            ids_of(r@).no_duplicates(),
    {
        let d = ids_not_in(&self.items, &other.items);
        let mut r: Vec<WorldObjectId> = Vec::new();
        append_ids(&mut r, &d);
        assert(ids_of(r@) =~= d@);
        r
    }

    /// Add an object to the list
    pub fn add_object(&mut self, i: WorldObjectId)
        ensures
            final(self)@ == old(self)@.insert(i.0),
    {
        self.items.insert(i.0);
    }

    /// Remove an object from the list
    pub fn remove_object(&mut self, i: WorldObjectId)
        ensures
            final(self)@ == old(self)@.remove(i.0),
    {
        self.items.remove(&i.0);
    }

    /// Does the list hold the object `i`?
    pub fn contains(&self, i: WorldObjectId) -> (b: bool)
        ensures
            b == self@.contains(i.0),
    {
        self.items.contains(&i.0)
    }

    /// Get the list of objects, each once
    pub fn get_objects(&self) -> (r: Vec<WorldObjectId>)
        ensures
            ids_of(r@).to_set() == self@,
            ids_of(r@).no_duplicates(),
    {
        let none: HashSet<u32> = HashSet::new();
        let d = ids_not_in(&self.items, &none);
        let mut r: Vec<WorldObjectId> = Vec::new();
        append_ids(&mut r, &d);
        assert(ids_of(r@) =~= d@);
        assert(self@.difference(none@) =~= self@);
        r
    }

    /// Get list of changes required to go from this list to `o`: the objects that are no
    /// longer present are appended to `old_objects`, and the objects that are new are
    /// appended to `new_objects`, each once
    pub fn find_changes(
        &self,
        old_objects: &mut Vec<WorldObjectId>,
        new_objects: &mut Vec<WorldObjectId>,
        o: &ObjectList,
    )
        ensures
            final(old_objects)@.len() >= old(old_objects)@.len(),
            final(new_objects)@.len() >= old(new_objects)@.len(),
            final(old_objects)@.subrange(0, old(old_objects)@.len() as int) == old(old_objects)@,
            final(new_objects)@.subrange(0, old(new_objects)@.len() as int) == old(new_objects)@,
            ids_of(final(old_objects)@.skip(old(old_objects)@.len() as int)).to_set()
                == self@.difference(o@),
            ids_of(final(old_objects)@.skip(old(old_objects)@.len() as int)).no_duplicates(),
            ids_of(final(new_objects)@.skip(old(new_objects)@.len() as int)).to_set()
                == o@.difference(self@),
            ids_of(final(new_objects)@.skip(old(new_objects)@.len() as int)).no_duplicates(),
    {
        let gone = ids_not_in(&self.items, &o.items);
        let ghost o1 = old_objects@;
        append_ids(old_objects, &gone);
        proof {
            assert(ids_of(old_objects@) =~= ids_of(o1) + gone@);
            assert(old_objects@.subrange(0, o1.len() as int) =~= o1) by {
                assert forall|j: int| 0 <= j < o1.len() implies old_objects@[j] == o1[j] by {
                    assert(ids_of(old_objects@)[j] == ids_of(o1)[j]);
                }
            }
            assert(ids_of(old_objects@.skip(o1.len() as int)) =~= gone@) by {
                assert forall|j: int| 0 <= j < gone@.len() implies ids_of(
                    old_objects@.skip(o1.len() as int),
                )[j] == gone@[j] by {
                    assert(ids_of(old_objects@)[o1.len() + j] == gone@[j]);
                }
            }
        }
        let came = ids_not_in(&o.items, &self.items);
        let ghost n1 = new_objects@;
        append_ids(new_objects, &came);
        proof {
            assert(ids_of(new_objects@) =~= ids_of(n1) + came@);
            assert(new_objects@.subrange(0, n1.len() as int) =~= n1) by {
                assert forall|j: int| 0 <= j < n1.len() implies new_objects@[j] == n1[j] by {
                    assert(ids_of(new_objects@)[j] == ids_of(n1)[j]);
                }
            }
            assert(ids_of(new_objects@.skip(n1.len() as int)) =~= came@) by {
                assert forall|j: int| 0 <= j < came@.len() implies ids_of(
                    new_objects@.skip(n1.len() as int),
                )[j] == came@[j] by {
                    assert(ids_of(new_objects@)[n1.len() + j] == came@[j]);
                }
            }
        }
    }
}

/// Going from one list of known objects to another by the changes `find_changes` reports:
/// dropping the objects no longer present and adding the new ones gives the other list
pub proof fn lemma_changes_rebuild(a: Set<u32>, b: Set<u32>)
    ensures
        a.difference(a.difference(b)).union(b.difference(a)) == b,
        a.difference(b).disjoint(b.difference(a)),
{
    assert(a.difference(a.difference(b)).union(b.difference(a)) =~= b);
}

} // verus!
