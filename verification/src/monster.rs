//! Monster definitions: spawning (move tables, ascension-gated hit points
//! and starting modifiers) and per-archetype move selection.

use vstd::prelude::*;
use crate::effect::{EffectTemplate, TargetKind};
use crate::effect::{templates1, templates2, templates4};
use crate::modifier::{ModifierKind, modifier_apply};
use crate::modifier::modifier_has;
use crate::rng::{rng_range, rng_ratio};
use crate::state::{Intent, Monster, Move, spec_move_count, vitals_new};
use crate::types::{MonsterKind, MonsterName};

verus! {

// Move indices per archetype.
pub const JW_CHOMP: usize = 0;
pub const JW_BELLOW: usize = 1;
pub const JW_THRASH: usize = 2;

pub const CULT_INCANT: usize = 0;
pub const CULT_DARK: usize = 1;

pub const FB_BITE: usize = 0;
pub const FB_GROW: usize = 1;

pub const LG_BITE: usize = 0;
pub const LG_GROW: usize = 1;

pub const TG_CHARGING: usize = 0;
pub const TG_FIERCE: usize = 1;
pub const TG_VENT: usize = 2;
pub const TG_WHIRL: usize = 3;
pub const TG_DEFENSIVE: usize = 4;
pub const TG_ROLL: usize = 5;
pub const TG_TWIN: usize = 6;

/// A freshly spawned monster: untouched vitals at full health, no move
/// chosen yet, no history.
pub open spec fn spec_fresh(m: Monster, name: MonsterName, kind: MonsterKind) -> bool {
    &&& m.wf()
    &&& m.name == name
    &&& m.kind == kind
    &&& m.vitals.health == m.vitals.health_max
    &&& m.vitals.block == 0
    &&& m.move_current is None
    &&& m.move_history@.len() == 0
}

/// Spawn hit-point range for each archetype at the given ascension.
pub open spec fn spec_hp_range(name: MonsterName, ascension: u8) -> (int, int) {
    match name {
        MonsterName::JawWorm => if ascension < 7 { (40int, 44int) } else { (42int, 46int) },
        MonsterName::Cultist => if ascension < 7 { (48int, 54int) } else { (50int, 56int) },
        MonsterName::FungiBeast => if ascension < 7 { (22int, 28int) } else { (24int, 28int) },
        MonsterName::LouseGreen => if ascension < 7 { (10int, 15int) } else { (11int, 16int) },
        MonsterName::TheGuardian => if ascension < 9 { (240int, 240int) } else { (250int, 250int) },
        MonsterName::Dummy => (50int, 50int),
    }
}

pub open spec fn spec_hp_in_range(m: Monster, ascension: u8) -> bool {
    spec_hp_range(m.name, ascension).0 <= m.vitals.health_max
        <= spec_hp_range(m.name, ascension).1
}

pub fn spawn_monster(
    name: MonsterName,
    ascension: u8,
    rng: &mut rand::rngs::SmallRng,
) -> (r: Monster)
    ensures
        spec_fresh(r, name, match name {
            MonsterName::TheGuardian => MonsterKind::Boss,
            _ => MonsterKind::Normal,
        }),
        spec_hp_in_range(r, ascension),
        name == MonsterName::FungiBeast ==> {
            &&& r.vitals.modifiers.spec_has(ModifierKind::SporeCloud)
            &&& r.vitals.modifiers.spec_stacks(ModifierKind::SporeCloud) == 2
            &&& !r.vitals.modifiers.spec_new(ModifierKind::SporeCloud)
        },
        name == MonsterName::TheGuardian ==> {
            &&& r.vitals.modifiers.spec_has(ModifierKind::ModeShift)
            &&& r.vitals.modifiers.spec_stacks(ModifierKind::ModeShift)
                == spec_mode_shift_base(ascension)
            &&& !r.vitals.modifiers.spec_new(ModifierKind::ModeShift)
        },
{
    match name {
        MonsterName::JawWorm => spawn_jaw_worm(ascension, rng),
        MonsterName::Cultist => spawn_cultist(ascension, rng),
        MonsterName::FungiBeast => spawn_fungi_beast(ascension, rng),
        MonsterName::LouseGreen => spawn_louse_green(ascension, rng),
        MonsterName::TheGuardian => spawn_the_guardian(ascension),
        MonsterName::Dummy => spawn_dummy(),
    }
}

/// Roll hit points uniformly in `[lo, hi]`.
fn roll_hp(rng: &mut rand::rngs::SmallRng, lo: u16, hi: u16) -> (r: u16)
    requires
        lo <= hi,
    ensures
        lo <= r <= hi,
{
    let v = rng_range(rng, lo as i64, hi as i64);
    v as u16
}

fn spawn_jaw_worm(asc: u8, rng: &mut rand::rngs::SmallRng) -> (r: Monster)
    ensures
        spec_fresh(r, MonsterName::JawWorm, MonsterKind::Normal),
        spec_hp_in_range(r, asc),
        r.moves@[JW_THRASH as int].effects@ =~= seq![
            EffectTemplate::DamagePhysical { base: 7u16, target: TargetKind::Character },
            EffectTemplate::BlockGain { amount: 5u16, target: TargetKind::Source },
        ],
{
    let (hmin, hmax): (u16, u16) = if asc < 7 { (40, 44) } else { (42, 46) };
    let hp = roll_hp(rng, hmin, hmax);

    let chomp_damage: u16 = if asc < 2 { 11 } else { 12 };
    let chomp_effects = templates1(
        EffectTemplate::DamagePhysical { base: chomp_damage, target: TargetKind::Character },
    );

    let (bellow_str, bellow_block): (i16, u16) = if asc < 2 {
        (3, 6)
    } else if asc < 17 {
        (4, 6)
    } else {
        (5, 9)
    };
    let bellow_effects = templates2(
        EffectTemplate::ModifierGain {
            kind: ModifierKind::Strength,
            stacks: bellow_str,
            target: TargetKind::Source,
        },
        EffectTemplate::BlockGain { amount: bellow_block, target: TargetKind::Source },
    );

    let thrash_effects = templates2(
        EffectTemplate::DamagePhysical { base: 7, target: TargetKind::Character },
        EffectTemplate::BlockGain { amount: 5, target: TargetKind::Source },
    );

    let mut moves: Vec<Move> = Vec::new();
    moves.push(Move { name: "Chomp", effects: chomp_effects, intent: Intent::attack(chomp_damage, 1) });
    moves.push(Move { name: "Bellow", effects: bellow_effects, intent: Intent::buff_block() });
    moves.push(Move { name: "Thrash", effects: thrash_effects, intent: Intent::attack_block(7, 1) });

    Monster {
        name: MonsterName::JawWorm,
        kind: MonsterKind::Normal,
        vitals: vitals_new(hp, hp),
        moves,
        move_current: None,
        move_history: Vec::new(),
    }
}

fn spawn_cultist(asc: u8, rng: &mut rand::rngs::SmallRng) -> (r: Monster)
    ensures
        spec_fresh(r, MonsterName::Cultist, MonsterKind::Normal),
        spec_hp_in_range(r, asc),
        r.moves@[CULT_DARK as int].effects@ =~= seq![
            EffectTemplate::DamagePhysical { base: 6u16, target: TargetKind::Character },
        ],
{
    let (hmin, hmax): (u16, u16) = if asc < 7 { (48, 54) } else { (50, 56) };
    let hp = roll_hp(rng, hmin, hmax);

    let ritual_stacks: i16 = if asc < 2 { 3 } else if asc < 17 { 4 } else { 5 };
    let incant_effects = templates1(
        EffectTemplate::ModifierGain {
            kind: ModifierKind::Ritual,
            stacks: ritual_stacks,
            target: TargetKind::Source,
        },
    );
    let dark_effects = templates1(
        EffectTemplate::DamagePhysical { base: 6, target: TargetKind::Character },
    );

    let mut moves: Vec<Move> = Vec::new();
    moves.push(Move { name: "Incantation", effects: incant_effects, intent: Intent::buff() });
    moves.push(Move { name: "Dark Strike", effects: dark_effects, intent: Intent::attack(6, 1) });

    Monster {
        name: MonsterName::Cultist,
        kind: MonsterKind::Normal,
        vitals: vitals_new(hp, hp),
        moves,
        move_current: None,
        move_history: Vec::new(),
    }
}

fn spawn_fungi_beast(asc: u8, rng: &mut rand::rngs::SmallRng) -> (r: Monster)
    ensures
        spec_fresh(r, MonsterName::FungiBeast, MonsterKind::Normal),
        spec_hp_in_range(r, asc),
        r.vitals.modifiers.spec_has(ModifierKind::SporeCloud),
        r.vitals.modifiers.spec_stacks(ModifierKind::SporeCloud) == 2,
        !r.vitals.modifiers.spec_new(ModifierKind::SporeCloud),
{
    let (hmin, hmax): (u16, u16) = if asc < 7 { (22, 28) } else { (24, 28) };
    let hp = roll_hp(rng, hmin, hmax);

    let grow_stacks: i16 = if asc < 2 { 3 } else if asc < 17 { 4 } else { 5 };
    let bite_effects = templates1(
        EffectTemplate::DamagePhysical { base: 6, target: TargetKind::Character },
    );
    let grow_effects = templates1(
        EffectTemplate::ModifierGain {
            kind: ModifierKind::Strength,
            stacks: grow_stacks,
            target: TargetKind::Source,
        },
    );

    let mut vitals = vitals_new(hp, hp);
    modifier_apply(&mut vitals.modifiers, ModifierKind::SporeCloud, 2);
    // The spore cloud is innate, not gained this turn.
    crate::modifier::modifier_force_not_new(&mut vitals.modifiers, ModifierKind::SporeCloud);

    let mut moves: Vec<Move> = Vec::new();
    moves.push(Move { name: "Bite", effects: bite_effects, intent: Intent::attack(6, 1) });
    moves.push(Move { name: "Grow", effects: grow_effects, intent: Intent::buff() });

    Monster {
        name: MonsterName::FungiBeast,
        kind: MonsterKind::Normal,
        vitals,
        moves,
        move_current: None,
        move_history: Vec::new(),
    }
}

fn spawn_louse_green(asc: u8, rng: &mut rand::rngs::SmallRng) -> (r: Monster)
    ensures
        spec_fresh(r, MonsterName::LouseGreen, MonsterKind::Normal),
        spec_hp_in_range(r, asc),
        r.moves@[LG_BITE as int].effects@.len() == 1,
        r.moves@[LG_BITE as int].effects@[0] matches EffectTemplate::DamagePhysical {
            base,
            target: TargetKind::Character,
        } && (if asc < 2 { 5 <= base <= 7 } else { 6 <= base <= 8 }),
{
    let (hmin, hmax): (u16, u16) = if asc < 7 { (10, 15) } else { (11, 16) };
    let hp = roll_hp(rng, hmin, hmax);

    let base = rng_range(rng, 5, 7) as u16;
    let bite_damage: u16 = if asc >= 2 { base + 1 } else { base };

    let grow_stacks: i16 = if asc < 17 { 3 } else { 4 };
    let bite_effects = templates1(
        EffectTemplate::DamagePhysical { base: bite_damage, target: TargetKind::Character },
    );
    let grow_effects = templates1(
        EffectTemplate::ModifierGain {
            kind: ModifierKind::Strength,
            stacks: grow_stacks,
            target: TargetKind::Source,
        },
    );

    // The louse's curl-up reaction is outside the modelled modifier set, so
    // no starting modifier is applied here.
    Monster {
        name: MonsterName::LouseGreen,
        kind: MonsterKind::Normal,
        vitals: vitals_new(hp, hp),
        moves: {
            let mut moves: Vec<Move> = Vec::new();
            moves.push(Move {
                name: "Bite",
                effects: bite_effects,
                intent: Intent::attack(bite_damage, 1),
            });
            moves.push(Move { name: "Grow", effects: grow_effects, intent: Intent::buff() });
            moves
        },
        move_current: None,
        move_history: Vec::new(),
    }
}

/// Mode-shift counter the Guardian starts (and refills) with at each
/// ascension tier.
pub open spec fn spec_mode_shift_base(ascension: u8) -> i16 {
    if ascension < 9 { 30i16 } else if ascension < 19 { 35i16 } else { 40i16 }
}

pub fn mode_shift_base(ascension: u8) -> (r: i16)
    ensures
        r == spec_mode_shift_base(ascension),
{
    if ascension < 9 { 30 } else if ascension < 19 { 35 } else { 40 }
}

pub fn spawn_the_guardian(asc: u8) -> (r: Monster)
    ensures
        spec_fresh(r, MonsterName::TheGuardian, MonsterKind::Boss),
        spec_hp_in_range(r, asc),
        r.vitals.modifiers.spec_has(ModifierKind::ModeShift),
        r.vitals.modifiers.spec_stacks(ModifierKind::ModeShift) == spec_mode_shift_base(asc),
        !r.vitals.modifiers.spec_new(ModifierKind::ModeShift),
        r.moves@[TG_CHARGING as int].name@ == "Charging Up"@,
        r.moves@[TG_FIERCE as int].name@ == "Fierce Bash"@,
        r.moves@[TG_VENT as int].name@ == "Vent Steam"@,
        r.moves@[TG_WHIRL as int].name@ == "Whirlwind"@,
        r.moves@[TG_DEFENSIVE as int].name@ == "Defensive Mode"@,
        r.moves@[TG_ROLL as int].name@ == "Roll Attack"@,
        r.moves@[TG_TWIN as int].name@ == "Twin Slam"@,
{
    let hp: u16 = if asc < 9 { 240 } else { 250 };

    let fierce_damage: u16 = if asc < 4 { 32 } else { 36 };
    let fierce_effects = templates1(
        EffectTemplate::DamagePhysical { base: fierce_damage, target: TargetKind::Character },
    );
    let charging_effects = templates1(
        EffectTemplate::BlockGain { amount: 9, target: TargetKind::Source },
    );
    let vent_effects = templates2(
        EffectTemplate::ModifierGain {
            kind: ModifierKind::Weak,
            stacks: 2,
            target: TargetKind::Character,
        },
        EffectTemplate::ModifierGain {
            kind: ModifierKind::Vulnerable,
            stacks: 2,
            target: TargetKind::Character,
        },
    );
    let whirl_effects = templates4(
        EffectTemplate::DamagePhysical { base: 5, target: TargetKind::Character },
        EffectTemplate::DamagePhysical { base: 5, target: TargetKind::Character },
        EffectTemplate::DamagePhysical { base: 5, target: TargetKind::Character },
        EffectTemplate::DamagePhysical { base: 5, target: TargetKind::Character },
    );
    let sharp_hide_stacks: i16 = if asc < 19 { 3 } else { 4 };
    let defensive_effects = templates1(
        EffectTemplate::ModifierGain {
            kind: ModifierKind::SharpHide,
            stacks: sharp_hide_stacks,
            target: TargetKind::Source,
        },
    );
    let roll_damage: u16 = if asc < 4 { 9 } else { 10 };
    let roll_effects = templates1(
        EffectTemplate::DamagePhysical { base: roll_damage, target: TargetKind::Character },
    );
    let twin_effects = templates4(
        EffectTemplate::DamagePhysical { base: 8, target: TargetKind::Character },
        EffectTemplate::DamagePhysical { base: 8, target: TargetKind::Character },
        EffectTemplate::ModifierGain {
            kind: ModifierKind::ModeShift,
            stacks: 0,
            target: TargetKind::Source,
        },
        EffectTemplate::ModifierRemove {
            kind: ModifierKind::SharpHide,
            target: TargetKind::Source,
        },
    );

    let mut vitals = vitals_new(hp, hp);
    modifier_apply(&mut vitals.modifiers, ModifierKind::ModeShift, mode_shift_base(asc));
    // The counter is innate, not gained this turn.
    crate::modifier::modifier_force_not_new(&mut vitals.modifiers, ModifierKind::ModeShift);

    let mut moves: Vec<Move> = Vec::new();
    moves.push(Move { name: "Charging Up", effects: charging_effects, intent: Intent::block_only() });
    moves.push(Move { name: "Fierce Bash", effects: fierce_effects, intent: Intent::attack(fierce_damage, 1) });
    moves.push(Move { name: "Vent Steam", effects: vent_effects, intent: Intent::debuff() });
    moves.push(Move { name: "Whirlwind", effects: whirl_effects, intent: Intent::attack(5, 4) });
    moves.push(Move { name: "Defensive Mode", effects: defensive_effects, intent: Intent::buff() });
    moves.push(Move { name: "Roll Attack", effects: roll_effects, intent: Intent::attack(roll_damage, 1) });
    moves.push(Move { name: "Twin Slam", effects: twin_effects, intent: Intent::attack(8, 2) });

    Monster {
        name: MonsterName::TheGuardian,
        kind: MonsterKind::Boss,
        vitals,
        moves,
        move_current: None,
        move_history: Vec::new(),
    }
}

pub fn spawn_dummy() -> (r: Monster)
    ensures
        spec_fresh(r, MonsterName::Dummy, MonsterKind::Normal),
        r.vitals.health_max == 50,
{
    let attack_effects = templates1(
        EffectTemplate::DamagePhysical { base: 12, target: TargetKind::Character },
    );
    let defend_effects = templates1(
        EffectTemplate::BlockGain { amount: 12, target: TargetKind::Source },
    );
    let mut moves: Vec<Move> = Vec::new();
    moves.push(Move { name: "Attack", effects: attack_effects, intent: Intent::attack(12, 1) });
    moves.push(Move { name: "Defend", effects: defend_effects, intent: Intent::block_only() });
    Monster {
        name: MonsterName::Dummy,
        kind: MonsterKind::Normal,
        vitals: vitals_new(50, 50),
        moves,
        move_current: None,
        move_history: Vec::new(),
    }
}

// ---------------------------------------------------------------------------
// Move selection
// ---------------------------------------------------------------------------

fn last_move(monster: &Monster) -> (r: Option<usize>)
    ensures
        r == spec_last(*monster),
{
    let n = monster.move_history.len();
    if n == 0 {
        None
    } else {
        Some(monster.move_history[n - 1])
    }
}

/// The last `n` executed move indices, oldest first, if at least `n` moves
/// have been executed.
fn last_n_moves(monster: &Monster, n: usize) -> (r: Option<Vec<usize>>)
    ensures
        monster.move_history@.len() >= n <==> r is Some,
        r matches Some(v) ==> v@ == monster.move_history@.subrange(
            monster.move_history@.len() - n,
            monster.move_history@.len() as int,
        ),
{
    let h_len = monster.move_history.len();
    if h_len >= n {
        let mut v: Vec<usize> = Vec::new();
        let mut i: usize = h_len - n;
        while i < h_len
            invariant
                h_len == monster.move_history@.len(),
                n <= h_len,
                h_len - n <= i <= h_len,
                v@ == monster.move_history@.subrange((h_len - n) as int, i as int),
            decreases h_len - i,
        {
            v.push(monster.move_history[i]);
            proof {
                assert(v@ =~= monster.move_history@.subrange((h_len - n) as int, i + 1));
            }
            i = i + 1;
        }
        Some(v)
    } else {
        None
    }
}

/// True when the last two executed moves were `a` then `b`.
pub open spec fn spec_last_two(m: Monster, a: usize, b: usize) -> bool {
    let h = m.move_history@;
    h.len() >= 2 && h[h.len() - 2] == a && h[h.len() - 1] == b
}

pub open spec fn spec_last(m: Monster) -> Option<usize> {
    if m.move_history@.len() == 0 {
        None
    } else {
        Some(m.move_history@[m.move_history@.len() - 1])
    }
}

/// Select the next telegraphed move for `monster`. Pure apart from draws
/// on the seeded random source; the result always indexes the monster's
/// move table. Hard anti-repeat constraints are stated per archetype below.
pub fn select_next_move(
    monster: &Monster,
    _ascension: u8,
    rng: &mut rand::rngs::SmallRng,
) -> (r: usize)
    requires
        monster.wf(),
    ensures
        r < monster.moves@.len(),
        monster.name == MonsterName::JawWorm ==> {
            &&& (monster.move_current is None ==> r == JW_CHOMP)
            &&& (spec_last(*monster) == Some(JW_CHOMP) && monster.move_current is Some
                ==> r != JW_CHOMP)
            &&& (spec_last_two(*monster, JW_THRASH, JW_THRASH) && monster.move_current is Some
                ==> r != JW_THRASH)
            &&& (spec_last(*monster) == Some(JW_BELLOW) && monster.move_current is Some
                ==> r != JW_BELLOW)
        },
        monster.name == MonsterName::Cultist ==> r == (
            if monster.move_current is None { CULT_INCANT } else { CULT_DARK }
        ),
        monster.name == MonsterName::FungiBeast ==> {
            &&& (spec_last_two(*monster, FB_BITE, FB_BITE) ==> r != FB_BITE)
            &&& (spec_last(*monster) == Some(FB_GROW) ==> r != FB_GROW)
        },
        monster.name == MonsterName::LouseGreen ==> {
            &&& (spec_last_two(*monster, LG_BITE, LG_BITE) ==> r != LG_BITE)
            &&& (spec_last(*monster) == Some(LG_GROW) ==> r != LG_GROW)
        },
        monster.name == MonsterName::TheGuardian ==> r == spec_guardian_transition(
            monster.move_current is None,
            monster.vitals.modifiers.spec_has(ModifierKind::ModeShift),
            monster.vitals.modifiers.spec_has(ModifierKind::SharpHide),
            spec_last(*monster),
        ),
        monster.name == MonsterName::Dummy ==> (monster.move_current is Some
            ==> r == (if spec_last(*monster) == Some(0usize) { 1int } else { 0int })),
{
    match monster.name {
        MonsterName::JawWorm => jaw_worm_next_move(monster, rng),
        MonsterName::Cultist => cultist_next_move(monster),
        MonsterName::FungiBeast => fungi_beast_next_move(monster, rng),
        MonsterName::LouseGreen => louse_green_next_move(monster, rng),
        MonsterName::TheGuardian => guardian_next_move(monster),
        MonsterName::Dummy => dummy_next_move(monster, rng),
    }
}

fn jaw_worm_next_move(monster: &Monster, rng: &mut rand::rngs::SmallRng) -> (r: usize)
    requires
        monster.wf(),
        monster.name == MonsterName::JawWorm,
    ensures
        r < 3,
        monster.move_current is None ==> r == JW_CHOMP,
        monster.move_current is Some ==> {
            &&& (spec_last(*monster) == Some(JW_CHOMP) ==> r != JW_CHOMP)
            &&& (spec_last_two(*monster, JW_THRASH, JW_THRASH) ==> r != JW_THRASH)
            &&& (spec_last(*monster) == Some(JW_BELLOW) ==> r != JW_BELLOW)
        },
{
    if monster.move_current.is_none() {
        return JW_CHOMP;
    }

    let num = rng_range(rng, 0, 98);
    if num < 25 {
        if last_move(monster) == Some(JW_CHOMP) {
            return if rng_ratio(rng, 5625, 10000) { JW_BELLOW } else { JW_THRASH };
        }
        JW_CHOMP
    } else if num < 55 {
        let last2 = last_n_moves(monster, 2);
        let is_double_thrash = match last2 {
            Some(v) => v[0] == JW_THRASH && v[1] == JW_THRASH,
            None => false,
        };
        if is_double_thrash {
            return if rng_ratio(rng, 357, 1000) { JW_CHOMP } else { JW_BELLOW };
        }
        JW_THRASH
    } else {
        if last_move(monster) == Some(JW_BELLOW) {
            return if rng_ratio(rng, 416, 1000) { JW_CHOMP } else { JW_THRASH };
        }
        JW_BELLOW
    }
}

fn cultist_next_move(monster: &Monster) -> (r: usize)
    ensures
        r == (if monster.move_current is None { CULT_INCANT } else { CULT_DARK }),
        r < 2,
{
    if monster.move_current.is_none() { CULT_INCANT } else { CULT_DARK }
}

fn fungi_beast_next_move(monster: &Monster, rng: &mut rand::rngs::SmallRng) -> (r: usize)
    ensures
        r < 2,
        spec_last_two(*monster, FB_BITE, FB_BITE) ==> r != FB_BITE,
        spec_last(*monster) == Some(FB_GROW) ==> r != FB_GROW,
{
    let num = rng_range(rng, 0, 98);
    if num < 60 {
        let last2 = last_n_moves(monster, 2);
        let is_double_bite = match last2 {
            Some(v) => v[0] == FB_BITE && v[1] == FB_BITE,
            None => false,
        };
        if is_double_bite {
            return FB_GROW;
        }
        return FB_BITE;
    }
    if last_move(monster) == Some(FB_GROW) {
        return FB_BITE;
    }
    FB_GROW
}

fn louse_green_next_move(monster: &Monster, rng: &mut rand::rngs::SmallRng) -> (r: usize)
    ensures
        r < 2,
        spec_last_two(*monster, LG_BITE, LG_BITE) ==> r != LG_BITE,
        spec_last(*monster) == Some(LG_GROW) ==> r != LG_GROW,
{
    let num = rng_range(rng, 0, 98);
    if num < 60 {
        let last2 = last_n_moves(monster, 2);
        let is_double_bite = match last2 {
            Some(v) => v[0] == LG_BITE && v[1] == LG_BITE,
            None => false,
        };
        if is_double_bite {
            return LG_GROW;
        }
        return LG_BITE;
    }
    if last_move(monster) == Some(LG_GROW) {
        return LG_BITE;
    }
    LG_GROW
}

/// The Guardian's move table walk: its first move charges up; with the
/// mode-shift counter present it cycles the offensive table, without it
/// the defensive one. A (mode, last move) pair outside the current table's
/// domain restarts the owning cycle at its head. That restart is specified
/// rather than fatal by design: re-selection is a queued effect, and the
/// queue may legitimately carry modifier effects that change the mode
/// between enqueueing and processing, so no precondition over the pair can
/// be discharged at the queue driver; the total transition keeps every
/// selection defined and exactly stated, and the engine's own flows never
/// produce an out-of-domain pair.
pub open spec fn spec_guardian_transition(
    first: bool,
    mode_shift: bool,
    sharp_hide: bool,
    last: Option<usize>,
) -> usize {
    if first {
        TG_CHARGING
    } else if mode_shift {
        match last {
            Some(l) => {
                if l == TG_CHARGING { TG_FIERCE }
                else if l == TG_FIERCE { TG_VENT }
                else if l == TG_VENT { TG_WHIRL }
                else if l == TG_WHIRL { TG_CHARGING }
                else if l == TG_TWIN { TG_WHIRL }
                else { TG_CHARGING }
            },
            None => TG_CHARGING,
        }
    } else if sharp_hide {
        match last {
            Some(l) => {
                if l == TG_DEFENSIVE { TG_ROLL }
                else if l == TG_ROLL { TG_TWIN }
                else { TG_DEFENSIVE }
            },
            None => TG_DEFENSIVE,
        }
    } else {
        TG_DEFENSIVE
    }
}

fn guardian_next_move(monster: &Monster) -> (r: usize)
    requires
        monster.wf(),
        monster.name == MonsterName::TheGuardian,
    ensures
        r < 7,
        r == spec_guardian_transition(
            monster.move_current is None,
            monster.vitals.modifiers.spec_has(ModifierKind::ModeShift),
            monster.vitals.modifiers.spec_has(ModifierKind::SharpHide),
            spec_last(*monster),
        ),
{
    if monster.move_current.is_none() {
        return TG_CHARGING;
    }

    let has_mode_shift = modifier_has(&monster.vitals.modifiers, ModifierKind::ModeShift);
    if has_mode_shift {
        // Offensive mode.
        match last_move(monster) {
            Some(l) => {
                if l == TG_CHARGING { TG_FIERCE }
                else if l == TG_FIERCE { TG_VENT }
                else if l == TG_VENT { TG_WHIRL }
                else if l == TG_WHIRL { TG_CHARGING }
                else if l == TG_TWIN { TG_WHIRL }
                else { TG_CHARGING }
            },
            None => TG_CHARGING,
        }
    } else {
        // Defensive mode.
        let has_sharp_hide = modifier_has(&monster.vitals.modifiers, ModifierKind::SharpHide);
        if has_sharp_hide {
            match last_move(monster) {
                Some(l) => {
                    if l == TG_DEFENSIVE { TG_ROLL }
                    else if l == TG_ROLL { TG_TWIN }
                    else { TG_DEFENSIVE }
                },
                None => TG_DEFENSIVE,
            }
        } else {
            TG_DEFENSIVE
        }
    }
}

fn dummy_next_move(monster: &Monster, rng: &mut rand::rngs::SmallRng) -> (r: usize)
    ensures
        r < 2,
        monster.move_current is Some ==> r == (
            if spec_last(*monster) == Some(0usize) { 1int } else { 0int }
        ),
{
    if monster.move_current.is_none() {
        return rng_range(rng, 0, 1) as usize;
    }
    match last_move(monster) {
        Some(l) => if l == 0 { 1 } else { 0 },
        None => 0,
    }
}

} // verus!
