//! Attacks: how an attack is set up, and whether it hits

use crate::character::Location;
use crate::world::item::weapon::{
    status_hit_bonus, weapon_hit_rate_bonus, WeaponInstance, WeaponType,
};
use crate::world::monster::random_in;
use crate::world::object::{BasicObjectType, Effect};
use vstd::prelude::*;

verus! {

/// The damage that can be applied to an object
pub struct Damage {
    /// Where the damage originated from
    pub origin: Location,
    /// The range of the attack
    pub range: u8,
    /// The type of object doing the damage
    pub atype: BasicObjectType,
    /// The roll for attack bonus by the attacker
    pub attack_roll_bonus: i16,
    /// The polymorph, if applicable of the attacker
    pub attacker_poly: Option<u32>,
    /// The effects applied to the attacker
    pub effects: Vec<Effect>,
    /// Damage bonus for the attacker
    pub damage_bonus: i8,
    /// Attacker critical hit and miss values
    pub critical: (i16, i16),
    /// The weapon type
    pub weapon_type: Option<WeaponType>,
}

/// What the attacking object brings to an attack
pub struct Attacker {
    /// Where the attacker is
    pub location: Location,
    /// The kind of attacker
    pub atype: BasicObjectType,
    /// Is the attacker a monster?
    pub is_monster: bool,
    /// The base attack rate
    pub base_attack_rate: i16,
    /// The hit bonus for strength
    pub str_attack_hit_bonus: i8,
    /// The hit bonus for dexterity
    pub dex_attack_hit_bonus: i8,
    /// The damage bonus for strength
    pub str_attack_dmg_bonus: i8,
    /// The damage bonus for dexterity
    pub dex_attack_dmg_bonus: i8,
    /// The hit rate bonus for melee attacks
    pub hit_rate_bonus: i16,
    /// The hit rate bonus for ranged attacks
    pub ranged_hit_rate_bonus: i16,
    /// Other hit rate bonuses (auras and the like)
    pub other_hit_rate_bonus: i16,
    /// The penalty for the weight carried: 0 up to a third of the maximum weight, 1 up to a
    /// half, 3 up to two thirds and 5 above
    pub weight_penalty: i16,
    /// The critical hit and miss values
    pub critical: (i16, i16),
    /// The polymorph of the attacker, if any
    pub polymorph: Option<u32>,
    /// The effects on the attacker
    pub effects: Vec<Effect>,
}

/// Does `v` fit in an `i16`?
pub open spec fn fits16(v: int) -> bool {
    i16::MIN <= v <= i16::MAX
}

/// The hit rate bonus a weapon adds to an attack, if there is a weapon
pub open spec fn weapon_part(a: Attacker, weapon: Option<WeaponInstance>) -> int {
    match weapon {
        Some(w) => weapon_hit_rate_bonus(w),
        None => 0,
    }
}

/// The melee hit rate bonus of the attacker, which counts when it wields a weapon
pub open spec fn melee_part(a: Attacker, weapon: Option<WeaponInstance>) -> int {
    match weapon {
        Some(w) => a.hit_rate_bonus as int,
        None => 0,
    }
}

/// Does every partial sum of the attack roll bonus, in the order in which the attack adds
/// its parts, fit in an `i16`? (The weight penalty is one of 0, 1, 3 and 5.)
pub open spec fn attacker_in_range(a: Attacker, weapon: Option<WeaponInstance>) -> bool {
    let p1 = a.base_attack_rate + a.str_attack_hit_bonus;
    let p2 = p1 + a.dex_attack_hit_bonus;
    let p3 = p2 + weapon_part(a, weapon);
    let p4 = p3 + melee_part(a, weapon);
    &&& fits16(p1)
    &&& fits16(p2)
    &&& match weapon {
        Some(w) => fits16(w.definition.hit_rate_bonus + status_hit_bonus(w.bonus)) && fits16(
            weapon_hit_rate_bonus(w),
        ),
        None => true,
    }
    &&& fits16(p3)
    &&& fits16(p4)
    &&& a.weight_penalty == 0 || a.weight_penalty == 1 || a.weight_penalty == 3
        || a.weight_penalty == 5
    &&& fits16(p4 - a.weight_penalty)
    &&& fits16(p4 - a.weight_penalty + a.other_hit_rate_bonus)
}

/// The attack roll bonus of an attack: the base rate, the strength and dexterity bonuses, the
/// weapon's hit rate bonus and the melee bonus (no weapon is ranged yet), less the weight
/// penalty, plus the other bonuses
pub open spec fn roll_bonus(a: Attacker, weapon: Option<WeaponInstance>) -> int {
    a.base_attack_rate + a.str_attack_hit_bonus + a.dex_attack_hit_bonus + match weapon {
        Some(w) => weapon_hit_rate_bonus(w) + a.hit_rate_bonus,
        None => 0,
    } - a.weight_penalty + a.other_hit_rate_bonus
}

impl Damage {
    /// Construct a new attack by the attacker with the given weapon; there is none when the
    /// attacker's ammunition ran out
    pub fn new(a: Attacker, weapon: Option<&WeaponInstance>, ammunition: bool) -> (d: Option<Damage>)
        requires
            attacker_in_range(a, match weapon {
                Some(w) => Some(*w),
                None => None,
            }),
        ensures
            d is Some <==> ammunition,
            d matches Some(x) ==> {
                &&& x.origin == a.location
                &&& x.atype == a.atype
                &&& x.attacker_poly == a.polymorph
                &&& x.effects@ == a.effects@
                &&& x.critical == a.critical
                &&& x.attack_roll_bonus == roll_bonus(a, match weapon {
                    Some(w) => Some(*w),
                    None => None,
                })
                &&& match weapon {
                    Some(w) => x.weapon_type == Some(w.definition.wtype) && x.range == 1
                        && x.damage_bonus == a.str_attack_dmg_bonus,
                    None => x.weapon_type is None && x.range == (if a.is_monster { 17u8 } else { 1u8 })
                        && x.damage_bonus == 0,
                }
            },
    {
        let mut roll: i16 = a.base_attack_rate;
        let mut dmg_bonus: i8 = 0;
        roll = roll + a.str_attack_hit_bonus as i16;
        roll = roll + a.dex_attack_hit_bonus as i16;
        let (wtype, range) = match weapon {
            Some(w) => {
                roll = roll + w.hit_rate_bonus();
                if w.is_ranged() {
                    dmg_bonus = dmg_bonus + a.dex_attack_dmg_bonus;
                    roll = roll + a.ranged_hit_rate_bonus;
                } else {
                    dmg_bonus = dmg_bonus + a.str_attack_dmg_bonus;
                    roll = roll + a.hit_rate_bonus;
                }
                (Some(w.get_type()), w.range())
            },
            None => {
                if a.is_monster {
                    (None, 17u8)
                } else {
                    (None, 1u8)
                }
            },
        };
        if !ammunition {
            return None;
        }
        roll = roll - a.weight_penalty;
        roll = roll + a.other_hit_rate_bonus;
        Some(
            Damage {
                origin: a.location,
                range,
                atype: a.atype,
                attacker_poly: a.polymorph,
                effects: a.effects,
                attack_roll_bonus: roll,
                critical: a.critical,
                weapon_type: wtype,
                damage_bonus: dmg_bonus,
            },
        )
    }
}

/// The random numbers of an attack: the attacker's roll (0 to 19), the defender's roll
/// (below the defender's maximum roll, for negative armor), the hit roll (1 to 100) and the
/// evasion roll against bows (1 to 100)
pub struct HitRolls {
    pub attack: u16,
    pub defense: u16,
    pub hit: u16,
    pub evade: u16,
}

/// The largest defence roll for the armor class `ac` (below 0): one and a half times its
/// size, rounded half away from zero
pub open spec fn max_defense_roll(ac: i8) -> int {
    (3 * (-(ac as int)) + 1) / 2
}

/// Are the rolls possible for a defender with armor class `ac`?
pub open spec fn rolls_possible(r: HitRolls, ac: i8) -> bool {
    &&& r.attack < 20
    &&& ac < 0 ==> r.defense < max_defense_roll(ac)
    &&& 1 <= r.hit <= 100
    &&& 1 <= r.evade <= 100
}

/// The attack roll bonus after the defender's effects: 5 less for uncanny dodge and for mirror
/// image each, 5 more for resist fear
pub open spec fn bonus_against(bonus: i16, effects: Seq<Effect>) -> int {
    bonus - (if effects.contains(Effect::UncannyDodge) { 5int } else { 0 }) - (if effects.contains(
        Effect::MirrorImage,
    ) { 5int } else { 0 }) + (if effects.contains(Effect::ResistFear) { 5int } else { 0 })
}

/// The attack `d` after judging it against a defender at distance `attack_distance` with the
/// effects `effects`: within range the roll bonus takes in the effects; nothing else changes
pub open spec fn judged(d: Damage, attack_distance: u32, effects: Seq<Effect>) -> Damage {
    if attack_distance > d.range {
        d
    } else {
        Damage { attack_roll_bonus: bonus_against(d.attack_roll_bonus, effects) as i16, ..d }
    }
}

/// Does every step of judging an attack with the attacker's die `roll` (0 to 19) fit in an
/// `i16`: each change of the bonus by the defender's effects, the attacker's roll, and the
/// bonus plus each critical value?
pub open spec fn judging_fits(d: Damage, effects: Seq<Effect>, roll: int) -> bool {
    let b1 = d.attack_roll_bonus - (if effects.contains(Effect::UncannyDodge) { 5int } else { 0 });
    let b2 = b1 - (if effects.contains(Effect::MirrorImage) { 5int } else { 0 });
    let b3 = b2 + (if effects.contains(Effect::ResistFear) { 5int } else { 0 });
    &&& fits16(b1)
    &&& fits16(b2)
    &&& fits16(b3)
    &&& fits16(roll + 1 + b3)
    &&& fits16(roll + 1 + b3 - 10)
    &&& fits16(b3 + d.critical.0)
    &&& fits16(b3 + d.critical.1)
}

/// Do the defender's effects make it impossible to hit?
pub open spec fn untouchable(effects: Seq<Effect>) -> bool {
    ||| effects.contains(Effect::AbsoluteBarrier)
    ||| effects.contains(Effect::IceLance)
    ||| effects.contains(Effect::FreezingBlizzard)
    ||| effects.contains(Effect::FreezingBreath)
    ||| effects.contains(Effect::EarthBind)
}

/// Does an attack hit, with the given rolls? The attacker's roll is its die (1 to 20) plus
/// the bonus less 10; at or below the bonus plus the critical miss value it misses, at or
/// above the bonus plus the critical hit value it hits, and otherwise it hits when above the
/// defender's roll (10 less the armor class, or 11 less a random roll for negative armor).
/// A kiringku always hits, an untouchable defender is never hit, the hit roll must be below
/// the chance, and a bow's attack must also beat the defender's evasion.
pub open spec fn hits(
    d: Damage,
    attack_distance: u32,
    effects: Seq<Effect>,
    ac: i8,
    evasive: u8,
    r: HitRolls,
) -> bool {
    if attack_distance > d.range {
        false
    } else {
        let bonus = bonus_against(d.attack_roll_bonus, effects);
        let attacker_roll = r.attack + 1 + bonus - 10;
        let defender_roll = if ac >= 0 { 10 - ac } else { 10 - r.defense + 1 };
        let chance: int = if attacker_roll <= bonus + d.critical.0 {
            0
        } else if attacker_roll >= bonus + d.critical.1 {
            100
        } else if attacker_roll > defender_roll {
            100
        } else {
            0
        };
        let chance = if d.weapon_type == Some(WeaponType::Kiringku) { 100 } else { chance };
        let chance = if untouchable(effects) { 0 } else { chance };
        if d.weapon_type == Some(WeaponType::Bow) {
            evasive < r.evade && chance > r.hit
        } else {
            chance > r.hit
        }
    }
}

/// Does `v` hold `e`?
fn has_effect(v: &Vec<Effect>, e: Effect) -> (b: bool)
    ensures
        b == v@.contains(e),
{
    let mut i: usize = 0;
    while i < v.len()
        invariant
            i <= v.len(),
            forall|j: int| 0 <= j < i ==> v@[j] != e,
        decreases v.len() - i,
    {
        if v[i] == e {
            return true;
        }
        i = i + 1;
    }
    false
}

impl Damage {
    /// Is the attacked object hit, with the given rolls? The attack's roll bonus takes in the
    /// defender's effects when the defender is within range
    pub fn hit_with(
        &mut self,
        attack_distance: u32,
        effects: &Vec<Effect>,
        ac: i8,
        evasive: u8,
        r: &HitRolls,
    ) -> (b: bool)
        requires
            attack_distance <= old(self).range ==> judging_fits(*old(self), effects@, r.attack as int),
            rolls_possible(*r, ac),
        ensures
            b == hits(*old(self), attack_distance, effects@, ac, evasive, *r),
            *final(self) == judged(*old(self), attack_distance, effects@),
            old(self).weapon_type == Some(WeaponType::Kiringku) && attack_distance <= old(self).range
                && !effects@.contains(Effect::AbsoluteBarrier) && !effects@.contains(Effect::IceLance)
                && !effects@.contains(Effect::FreezingBlizzard) && !effects@.contains(
                Effect::FreezingBreath,
            ) && !effects@.contains(Effect::EarthBind) && r.hit < 100 ==> b,
            effects@.contains(Effect::AbsoluteBarrier) || effects@.contains(Effect::IceLance)
                || effects@.contains(Effect::FreezingBlizzard) || effects@.contains(
                Effect::FreezingBreath,
            ) || effects@.contains(Effect::EarthBind) ==> !b,
            attack_distance > old(self).range ==> !b,
            r.hit >= 100 ==> !b,
    {
        if attack_distance > self.range as u32 {
            return false;
        }
        if has_effect(effects, Effect::UncannyDodge) {
            self.attack_roll_bonus = self.attack_roll_bonus - 5;
        }
        if has_effect(effects, Effect::MirrorImage) {
            self.attack_roll_bonus = self.attack_roll_bonus - 5;
        }
        if has_effect(effects, Effect::ResistFear) {
            self.attack_roll_bonus = self.attack_roll_bonus + 5;
        }
        let bonus = self.attack_roll_bonus;
        let attacker_roll: i16 = r.attack as i16 + 1 + bonus - 10;
        let defender_roll: i16 = if ac >= 0 {
            10 - ac as i16
        } else {
            10 - r.defense as i16 + 1
        };
        let mut hit_percent: u8 = if attacker_roll <= bonus + self.critical.0 {
            0
        } else if attacker_roll >= bonus + self.critical.1 {
            100
        } else if attacker_roll > defender_roll {
            100
        } else {
            0
        };
        if self.weapon_type == Some(WeaponType::Kiringku) {
            hit_percent = 100;
        }
        if has_effect(effects, Effect::AbsoluteBarrier) || has_effect(effects, Effect::IceLance)
            || has_effect(effects, Effect::FreezingBlizzard) || has_effect(
            effects,
            Effect::FreezingBreath,
        ) || has_effect(effects, Effect::EarthBind) {
            hit_percent = 0;
        }
        if self.weapon_type == Some(WeaponType::Bow) {
            (evasive as u16) < r.evade && (hit_percent as u16) > r.hit
        } else {
            (hit_percent as u16) > r.hit
        }
    }

    /// Roll the dice for an attack on a defender with armor class `ac`
    pub fn roll(ac: i8) -> (r: HitRolls)
        ensures
            rolls_possible(r, ac),
    {
        let attack = random_in(0, 20);
        let defense = if ac < 0 {
            let max_roll: u16 = ((3 * (-(ac as i16)) + 1) / 2) as u16;
            random_in(0, max_roll)
        } else {
            0
        };
        let hit = random_in(1, 101);
        let evade = random_in(1, 101);
        HitRolls { attack, defense, hit, evade }
    }

    /// Calculate if the attacked object is hit: the dice are rolled and the attack is judged
    /// as `hit_with` says
    pub fn should_hit(&mut self, attack_distance: u32, effects: &Vec<Effect>, ac: i8, evasive: u8) -> (b:
        bool)
        requires
            attack_distance <= old(self).range ==> judging_fits(*old(self), effects@, 0)
                && judging_fits(*old(self), effects@, 19),
        ensures
            exists|r: HitRolls|
                rolls_possible(r, ac) && b == hits(*old(self), attack_distance, effects@, ac, evasive, r),
            attack_distance > old(self).range ==> !b,
            *final(self) == judged(*old(self), attack_distance, effects@),
    {
        let r = Damage::roll(ac);
        self.hit_with(attack_distance, effects, ac, evasive, &r)
    }
}

/// A kiringku always hits a defender within range that none of absolute barrier, ice lance,
/// freezing blizzard, freezing breath and earth bind protects, whenever the hit roll is below
/// 100, whatever the attacker's and defender's rolls, the armor class and the critical values;
/// and such a defender is never hit by anything, nor one out of range
pub proof fn lemma_kiringku_hits(
    d: Damage,
    attack_distance: u32,
    effects: Seq<Effect>,
    ac: i8,
    evasive: u8,
    r: HitRolls,
)
    ensures
        d.weapon_type == Some(WeaponType::Kiringku) && attack_distance <= d.range && !effects.contains(
            Effect::AbsoluteBarrier,
        ) && !effects.contains(Effect::IceLance) && !effects.contains(Effect::FreezingBlizzard)
            && !effects.contains(Effect::FreezingBreath) && !effects.contains(Effect::EarthBind)
            && r.hit < 100 ==> hits(d, attack_distance, effects, ac, evasive, r),
        effects.contains(Effect::AbsoluteBarrier) || effects.contains(Effect::IceLance)
            || effects.contains(Effect::FreezingBlizzard) || effects.contains(Effect::FreezingBreath)
            || effects.contains(Effect::EarthBind) ==> !hits(d, attack_distance, effects, ac, evasive, r),
        attack_distance > d.range ==> !hits(d, attack_distance, effects, ac, evasive, r),
{
}

/// How the attack roll bonus is made up: without a weapon it is the base rate plus the
/// strength and dexterity bonuses, less the weight penalty, plus the other bonuses; a weapon
/// adds its own hit rate bonus and the melee bonus
pub proof fn lemma_roll_bonus_parts(a: Attacker, w: WeaponInstance)
    ensures
        roll_bonus(a, None) == a.base_attack_rate + a.str_attack_hit_bonus + a.dex_attack_hit_bonus
            - a.weight_penalty + a.other_hit_rate_bonus,
        roll_bonus(a, Some(w)) == roll_bonus(a, None) + weapon_hit_rate_bonus(w) + a.hit_rate_bonus,
{
}

/// How the dice decide an attack within range on a defender that none of the untouchable
/// effects protects, with a weapon that is neither a kiringku nor a bow, and a hit roll below
/// 100 (`b` is the attack roll bonus after the defender's effects: 5 less for each of uncanny
/// dodge and mirror image, 5 more for resist fear):
/// - an attack die of at most the critical miss value plus 9 misses;
/// - otherwise, an attack die of at least the critical hit value plus 9 hits;
/// - otherwise it hits when the die plus 1 plus `b` less 10 is above the defender's roll:
///   10 less the armor class, or 11 less the defence roll for a negative armor class.
/// And a higher attack die never turns a hit into a miss; a bow misses when the defender's
/// evasion is not below the evasion roll; a hit roll of 100 always misses.
pub proof fn lemma_attack_dice(
    d: Damage,
    attack_distance: u32,
    effects: Seq<Effect>,
    ac: i8,
    evasive: u8,
    r: HitRolls,
    r2: HitRolls,
)
    ensures
        ({
            let b = d.attack_roll_bonus - (if effects.contains(Effect::UncannyDodge) { 5int } else { 0 })
                - (if effects.contains(Effect::MirrorImage) { 5int } else { 0 }) + (if effects.contains(
                Effect::ResistFear,
            ) { 5int } else { 0 });
            let plain = attack_distance <= d.range && !effects.contains(Effect::AbsoluteBarrier)
                && !effects.contains(Effect::IceLance) && !effects.contains(Effect::FreezingBlizzard)
                && !effects.contains(Effect::FreezingBreath) && !effects.contains(Effect::EarthBind)
                && d.weapon_type != Some(WeaponType::Kiringku) && d.weapon_type != Some(WeaponType::Bow)
                && r.hit < 100;
            let defender = if ac >= 0 { 10 - ac } else { 11 - r.defense };
            &&& plain && r.attack <= d.critical.0 + 9 ==> !hits(d, attack_distance, effects, ac, evasive, r)
            &&& plain && r.attack > d.critical.0 + 9 && r.attack >= d.critical.1 + 9 ==> hits(
                d,
                attack_distance,
                effects,
                ac,
                evasive,
                r,
            )
            &&& plain && r.attack > d.critical.0 + 9 && r.attack < d.critical.1 + 9 ==> (hits(
                d,
                attack_distance,
                effects,
                ac,
                evasive,
                r,
            ) <==> r.attack + 1 + b - 10 > defender)
        }),
        r2.attack >= r.attack && r2.defense == r.defense && r2.hit == r.hit && r2.evade == r.evade
            && hits(d, attack_distance, effects, ac, evasive, r) ==> hits(d, attack_distance, effects, ac, evasive, r2),
        d.weapon_type == Some(WeaponType::Bow) && evasive as int >= r.evade ==> !hits(
            d,
            attack_distance,
            effects,
            ac,
            evasive,
            r,
        ),
        r.hit >= 100 ==> !hits(d, attack_distance, effects, ac, evasive, r),
{
}

} // verus!
