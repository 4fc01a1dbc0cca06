//! The effect processor: one entry point consumes one runtime effect,
//! mutates the game state, and yields follow-up effects plus a control
//! signal; the queue driver runs it until the queue empties or a pause or
//! halt is raised.

use vstd::prelude::*;
use crate::card::{card_cost, card_exhaust, card_innate, card_kind, get_card};
use crate::card::{reward_pool_common, reward_pool_rare, reward_pool_uncommon};
use crate::card::{spec_reward_pool_common, spec_reward_pool_rare, spec_reward_pool_uncommon};
use crate::effect::{Effect, EffectTemplate, SelectionKind, TargetKind};
use crate::modifier::{ModifierKind, spec_clamp, spec_modifier_def};
use crate::modifier::{modifier_apply, modifier_def, modifier_has, modifier_remove, modifier_stacks, modifier_tick};
use crate::state::{card_dup, Card, Energy, GameState, Monster, Vitals};
use crate::types::{ActorId, CardName, CardType, MonsterName, RoomType};

verus! {

pub const MAX_SIZE_HAND: usize = 10;
pub const CARDS_DRAWN_PER_TURN: u8 = 5;
pub const MAX_COMBAT_CARD_REWARD: usize = 3;

// ---------------------------------------------------------------------------
// EffectResult: what processing one effect yields
// ---------------------------------------------------------------------------

/// Follow-up effects to re-insert at the queue front (in order) or append at
/// the back, plus the control signal: `halt` ends the episode, `pause`
/// suspends the drain until the caller supplies input.
pub struct EffectResult {
    pub push_top: Vec<Effect>,
    pub push_bot: Vec<Effect>,
    pub halt: bool,
    pub pause: bool,
}

impl EffectResult {
    pub open spec fn is_empty(self) -> bool {
        &&& self.push_top@ =~= Seq::<Effect>::empty()
        &&& self.push_bot@ =~= Seq::<Effect>::empty()
        &&& !self.halt
        &&& !self.pause
    }

    pub fn empty() -> (r: Self)
        ensures
            r.is_empty(),
    {
        EffectResult { push_top: Vec::new(), push_bot: Vec::new(), halt: false, pause: false }
    }

    pub fn top(effects: Vec<Effect>) -> (r: Self)
        ensures
            r.push_top == effects,
            r.push_bot@ =~= Seq::<Effect>::empty(),
            !r.halt,
            !r.pause,
    {
        EffectResult { push_top: effects, push_bot: Vec::new(), halt: false, pause: false }
    }

    pub fn bot(effects: Vec<Effect>) -> (r: Self)
        ensures
            r.push_top@ =~= Seq::<Effect>::empty(),
            r.push_bot == effects,
            !r.halt,
            !r.pause,
    {
        EffectResult { push_top: Vec::new(), push_bot: effects, halt: false, pause: false }
    }

    pub fn both(top: Vec<Effect>, bot: Vec<Effect>) -> (r: Self)
        ensures
            r.push_top == top,
            r.push_bot == bot,
            !r.halt,
            !r.pause,
    {
        EffectResult { push_top: top, push_bot: bot, halt: false, pause: false }
    }

    pub fn halt() -> (r: Self)
        ensures
            r.push_top@ =~= Seq::<Effect>::empty(),
            r.push_bot@ =~= Seq::<Effect>::empty(),
            r.halt,
            !r.pause,
    {
        EffectResult { push_top: Vec::new(), push_bot: Vec::new(), halt: true, pause: false }
    }

    pub fn pause() -> (r: Self)
        ensures
            r.push_top@ =~= Seq::<Effect>::empty(),
            r.push_bot@ =~= Seq::<Effect>::empty(),
            !r.halt,
            r.pause,
    {
        EffectResult { push_top: Vec::new(), push_bot: Vec::new(), halt: false, pause: true }
    }
}

// ---------------------------------------------------------------------------
// Actor access
// ---------------------------------------------------------------------------

/// Whether `actor` names a live combatant. Effects can outlive the monster
/// they name (a death re-indexes the list), so every handler checks this
/// and silently skips a sourceless effect, as the error model prescribes.
pub open spec fn spec_actor_exists(s: GameState, a: ActorId) -> bool {
    match a {
        ActorId::Character => true,
        ActorId::Monster(i) => (i as int) < s.monsters@.len(),
    }
}

pub open spec fn spec_vitals(s: GameState, a: ActorId) -> Vitals {
    match a {
        ActorId::Character => s.character.vitals,
        ActorId::Monster(i) => s.monsters@[i as int].vitals,
    }
}

pub fn actor_exists(state: &GameState, actor: ActorId) -> (r: bool)
    ensures
        r == spec_actor_exists(*state, actor),
{
    match actor {
        ActorId::Character => true,
        ActorId::Monster(i) => (i as usize) < state.monsters.len(),
    }
}

fn vitals_ref(state: &GameState, actor: ActorId) -> (r: &Vitals)
    requires
        spec_actor_exists(*state, actor),
    ensures
        *r == spec_vitals(*state, actor),
{
    match actor {
        ActorId::Character => &state.character.vitals,
        ActorId::Monster(i) => &state.monsters[i as usize].vitals,
    }
}

/// Everything except `actor`'s vitals is untouched.
pub open spec fn spec_untouched_but_vitals(s0: GameState, s1: GameState, a: ActorId) -> bool {
    &&& s1.ascension == s0.ascension
    &&& s1.fsm == s0.fsm
    &&& s1.energy == s0.energy
    &&& s1.deck == s0.deck
    &&& s1.combat_cards == s0.combat_cards
    &&& s1.draw_pile == s0.draw_pile
    &&& s1.hand == s0.hand
    &&& s1.discard_pile == s0.discard_pile
    &&& s1.exhaust_pile == s0.exhaust_pile
    &&& s1.card_active == s0.card_active
    &&& s1.card_target == s0.card_target
    &&& s1.card_rewards == s0.card_rewards
    &&& s1.map == s0.map
    &&& s1.effect_queue == s0.effect_queue
    &&& match a {
        ActorId::Character => {
            &&& s1.monsters == s0.monsters
            &&& s1.character.reward_roll_offset == s0.character.reward_roll_offset
        },
        ActorId::Monster(i) => {
            &&& s1.character == s0.character
            &&& s1.monsters@.len() == s0.monsters@.len()
            &&& forall|j: int| 0 <= j < s0.monsters@.len() && j != i
                ==> s1.monsters@[j] == s0.monsters@[j]
            &&& (i as int) < s0.monsters@.len() ==> {
                &&& s1.monsters@[i as int].name == s0.monsters@[i as int].name
                &&& s1.monsters@[i as int].kind == s0.monsters@[i as int].kind
                &&& s1.monsters@[i as int].moves == s0.monsters@[i as int].moves
                &&& s1.monsters@[i as int].move_current == s0.monsters@[i as int].move_current
                &&& s1.monsters@[i as int].move_history == s0.monsters@[i as int].move_history
            }
        },
    }
}

// ---------------------------------------------------------------------------
// Core numeric rules
// ---------------------------------------------------------------------------

/// The physical damage formula: add the attacker's strength, multiply by
/// 3/4 while weakened, by 3/2 against a vulnerable target, and double under
/// double-damage; truncation happens once, at the end, never per step. A
/// non-positive value deals nothing.
pub open spec fn spec_attack_damage(
    base: u16,
    strength: i16,
    weak: bool,
    vuln: bool,
    dbl: bool,
) -> u16 {
    let v0 = base + strength;
    let num = v0 * (if weak { 3int } else { 1int }) * (if vuln { 3int } else { 1int })
        * (if dbl { 2int } else { 1int });
    let den = (if weak { 4int } else { 1int }) * (if vuln { 2int } else { 1int });
    if num <= 0 {
        0u16
    } else {
        let q = num / den;
        if q > 0xffff { 0xffffu16 } else { q as u16 }
    }
}

pub fn attack_damage(base: u16, strength: i16, weak: bool, vuln: bool, dbl: bool) -> (r: u16)
    ensures
        r == spec_attack_damage(base, strength, weak, vuln, dbl),
{
    let v0: i64 = base as i64 + strength as i64;
    let mut num: i64 = v0;
    let mut den: u64 = 1;
    if weak {
        num = num * 3;
        den = den * 4;
    }
    if vuln {
        num = num * 3;
        den = den * 2;
    }
    if dbl {
        num = num * 2;
    }
    if num <= 0 {
        0
    } else {
        let q: u64 = (num as u64) / den;
        if q > 0xffff { 0xffff } else { q as u16 }
    }
}

// ---------------------------------------------------------------------------
// Per-actor mutations
// ---------------------------------------------------------------------------

/// Set the block of `actor`.
fn actor_block_set(state: &mut GameState, actor: ActorId, amount: u16)
    requires
        old(state).wf(),
        spec_actor_exists(*old(state), actor),
    ensures
        final(state).wf(),
        spec_untouched_but_vitals(*old(state), *final(state), actor),
        spec_vitals(*final(state), actor).block == amount,
        spec_vitals(*final(state), actor).health == spec_vitals(*old(state), actor).health,
        spec_vitals(*final(state), actor).health_max
            == spec_vitals(*old(state), actor).health_max,
        spec_vitals(*final(state), actor).modifiers
            == spec_vitals(*old(state), actor).modifiers,
{
    match actor {
        ActorId::Character => {
            state.character.vitals.block = amount;
        },
        ActorId::Monster(i) => {
            let idx = i as usize;
            let mut m = state.monsters.remove(idx);
            m.vitals.block = amount;
            state.monsters.insert(idx, m);
            proof {
                monster_update_frame(*old(state), *state, i as int);
            }
        },
    }
}

/// Set the health of `actor` (must stay within its maximum).
fn actor_health_set(state: &mut GameState, actor: ActorId, health: u16)
    requires
        old(state).wf(),
        spec_actor_exists(*old(state), actor),
        health <= spec_vitals(*old(state), actor).health_max,
    ensures
        final(state).wf(),
        spec_untouched_but_vitals(*old(state), *final(state), actor),
        spec_vitals(*final(state), actor).health == health,
        spec_vitals(*final(state), actor).block == spec_vitals(*old(state), actor).block,
        spec_vitals(*final(state), actor).health_max
            == spec_vitals(*old(state), actor).health_max,
        spec_vitals(*final(state), actor).modifiers
            == spec_vitals(*old(state), actor).modifiers,
{
    match actor {
        ActorId::Character => {
            state.character.vitals.health = health;
        },
        ActorId::Monster(i) => {
            let idx = i as usize;
            let mut m = state.monsters.remove(idx);
            m.vitals.health = health;
            state.monsters.insert(idx, m);
            proof {
                monster_update_frame(*old(state), *state, i as int);
            }
        },
    }
}

/// Gain a modifier on `actor` (the store's gain rule: clamped install or
/// clamped addition).
fn actor_modifier_apply(state: &mut GameState, actor: ActorId, kind: ModifierKind, stacks: i16)
    requires
        old(state).wf(),
        spec_actor_exists(*old(state), actor),
    ensures
        final(state).wf(),
        spec_untouched_but_vitals(*old(state), *final(state), actor),
        crate::modifier::spec_apply_rel(
            spec_vitals(*old(state), actor).modifiers,
            spec_vitals(*final(state), actor).modifiers,
            kind,
            stacks,
        ),
        spec_vitals(*final(state), actor).block == spec_vitals(*old(state), actor).block,
        spec_vitals(*final(state), actor).health == spec_vitals(*old(state), actor).health,
        spec_vitals(*final(state), actor).health_max
            == spec_vitals(*old(state), actor).health_max,
{
    match actor {
        ActorId::Character => {
            modifier_apply(&mut state.character.vitals.modifiers, kind, stacks);
        },
        ActorId::Monster(i) => {
            let idx = i as usize;
            let mut m = state.monsters.remove(idx);
            modifier_apply(&mut m.vitals.modifiers, kind, stacks);
            state.monsters.insert(idx, m);
            proof {
                monster_update_frame(*old(state), *state, i as int);
            }
        },
    }
}

/// Remove a modifier from `actor` outright.
fn actor_modifier_remove(state: &mut GameState, actor: ActorId, kind: ModifierKind)
    requires
        old(state).wf(),
        spec_actor_exists(*old(state), actor),
    ensures
        final(state).wf(),
        spec_untouched_but_vitals(*old(state), *final(state), actor),
        crate::modifier::spec_remove_rel(
            spec_vitals(*old(state), actor).modifiers,
            spec_vitals(*final(state), actor).modifiers,
            kind,
        ),
        spec_vitals(*final(state), actor).block == spec_vitals(*old(state), actor).block,
        spec_vitals(*final(state), actor).health == spec_vitals(*old(state), actor).health,
        spec_vitals(*final(state), actor).health_max
            == spec_vitals(*old(state), actor).health_max,
{
    match actor {
        ActorId::Character => {
            modifier_remove(&mut state.character.vitals.modifiers, kind);
        },
        ActorId::Monster(i) => {
            let idx = i as usize;
            let mut m = state.monsters.remove(idx);
            modifier_remove(&mut m.vitals.modifiers, kind);
            state.monsters.insert(idx, m);
            proof {
                monster_update_frame(*old(state), *state, i as int);
            }
        },
    }
}

/// End-of-turn decay tick on `actor`'s modifier store.
fn actor_modifier_tick(state: &mut GameState, actor: ActorId)
    requires
        old(state).wf(),
        spec_actor_exists(*old(state), actor),
    ensures
        final(state).wf(),
        spec_untouched_but_vitals(*old(state), *final(state), actor),
        crate::modifier::spec_tick_rel(
            spec_vitals(*old(state), actor).modifiers,
            spec_vitals(*final(state), actor).modifiers,
        ),
        spec_vitals(*final(state), actor).block == spec_vitals(*old(state), actor).block,
        spec_vitals(*final(state), actor).health == spec_vitals(*old(state), actor).health,
        spec_vitals(*final(state), actor).health_max
            == spec_vitals(*old(state), actor).health_max,
{
    match actor {
        ActorId::Character => {
            modifier_tick(&mut state.character.vitals.modifiers);
        },
        ActorId::Monster(i) => {
            let idx = i as usize;
            let mut m = state.monsters.remove(idx);
            modifier_tick(&mut m.vitals.modifiers);
            state.monsters.insert(idx, m);
            proof {
                monster_update_frame(*old(state), *state, i as int);
            }
        },
    }
}

/// Overwrite the stacks of a present modifier on `actor` with an in-range
/// value.
fn actor_modifier_set_stacks(state: &mut GameState, actor: ActorId, kind: ModifierKind, stacks: i16)
    requires
        old(state).wf(),
        spec_actor_exists(*old(state), actor),
        spec_modifier_def(kind).min_stacks <= stacks <= spec_modifier_def(kind).max_stacks,
    ensures
        final(state).wf(),
        spec_untouched_but_vitals(*old(state), *final(state), actor),
        spec_vitals(*final(state), actor).modifiers.stacks@
            == spec_vitals(*old(state), actor).modifiers.stacks@.update(kind.spec_idx(), stacks),
        spec_vitals(*final(state), actor).modifiers.is_new@
            == spec_vitals(*old(state), actor).modifiers.is_new@,
        spec_vitals(*final(state), actor).modifiers.active@
            == spec_vitals(*old(state), actor).modifiers.active@,
        spec_vitals(*final(state), actor).block == spec_vitals(*old(state), actor).block,
        spec_vitals(*final(state), actor).health == spec_vitals(*old(state), actor).health,
        spec_vitals(*final(state), actor).health_max
            == spec_vitals(*old(state), actor).health_max,
{
    match actor {
        ActorId::Character => {
            crate::modifier::modifier_set_stacks(&mut state.character.vitals.modifiers, kind, stacks);
        },
        ActorId::Monster(i) => {
            let idx = i as usize;
            let mut m = state.monsters.remove(idx);
            crate::modifier::modifier_set_stacks(&mut m.vitals.modifiers, kind, stacks);
            state.monsters.insert(idx, m);
            proof {
                monster_update_frame(*old(state), *state, i as int);
            }
        },
    }
}

/// After removing monster `i`, mutating it, and re-inserting it at `i`, the
/// list is the old list with entry `i` replaced; well-formedness follows
/// when the mutation preserved the monster's own well-formedness.
proof fn monster_update_frame(s0: GameState, s1: GameState, i: int)
    requires
        0 <= i < s0.monsters@.len(),
        s1.monsters@.len() == s0.monsters@.len(),
        s1.monsters@ =~= s0.monsters@.remove(i).insert(i, s1.monsters@[i]),
    ensures
        forall|j: int| 0 <= j < s0.monsters@.len() && j != i
            ==> s1.monsters@[j] == s0.monsters@[j],
{
    assert forall|j: int| 0 <= j < s0.monsters@.len() && j != i
        implies s1.monsters@[j] == s0.monsters@[j] by {
        if j < i {
            assert(s1.monsters@[j] == s0.monsters@.remove(i)[j]);
        } else {
            assert(s1.monsters@[j] == s0.monsters@.remove(i)[j - 1]);
        }
    }
}


// ---------------------------------------------------------------------------
// Effect template instantiation
// ---------------------------------------------------------------------------

/// Resolve a symbolic target against the current state: the player-chosen
/// single target if set (else nobody), the character, every live monster in
/// list order, or the acting actor itself.
pub open spec fn spec_resolve_targets(kind: TargetKind, source: ActorId, s: GameState) -> Seq<ActorId> {
    match kind {
        TargetKind::CardTarget => match s.card_target {
            Some(mi) => seq![ActorId::Monster(mi)],
            None => Seq::<ActorId>::empty(),
        },
        TargetKind::Character => seq![ActorId::Character],
        TargetKind::AllMonsters => Seq::new(s.monsters@.len(), |i: int| ActorId::Monster(i as u8)),
        TargetKind::Source => seq![source],
    }
}

/// The runtime effects one template expands to.
pub open spec fn spec_template_effects(t: EffectTemplate, source: ActorId, s: GameState) -> Seq<Effect> {
    match t {
        EffectTemplate::DamagePhysical { base, target } => spec_resolve_targets(target, source, s)
            .map_values(|a: ActorId| Effect::DamagePhysical { source, target: a, base }),
        EffectTemplate::BlockGain { amount, target } => spec_resolve_targets(target, source, s)
            .map_values(|a: ActorId| Effect::BlockGain { target: a, amount, from_card: true }),
        EffectTemplate::ModifierGain { kind, stacks, target } => spec_resolve_targets(target, source, s)
            .map_values(|a: ActorId| Effect::ModifierGain { target: a, kind, stacks }),
        EffectTemplate::ModifierRemove { kind, target } => spec_resolve_targets(target, source, s)
            .map_values(|a: ActorId| Effect::ModifierRemove { target: a, kind }),
        EffectTemplate::EnergyGain { amount } => seq![Effect::EnergyGain { amount }],
        EffectTemplate::AddShivs { count } => seq![Effect::AddShivs { count }],
        EffectTemplate::CardDraw { count } => seq![Effect::CardDraw { count }],
        EffectTemplate::CardDiscard { selection } => match selection {
            SelectionKind::Input => seq![Effect::AwaitDiscard],
            SelectionKind::Random => seq![Effect::CardDiscardRandom],
        },
        EffectTemplate::CalculatedGamble => seq![Effect::CalculatedGamble],
    }
}

/// Expand a template list in order against the current state.
pub open spec fn spec_instantiate(ts: Seq<EffectTemplate>, source: ActorId, s: GameState) -> Seq<Effect>
    decreases ts.len(),
{
    if ts.len() == 0 {
        Seq::<Effect>::empty()
    } else {
        spec_template_effects(ts[0], source, s) + spec_instantiate(ts.drop_first(), source, s)
    }
}

proof fn lemma_instantiate_push(ts: Seq<EffectTemplate>, t: EffectTemplate, source: ActorId, s: GameState)
    ensures
        spec_instantiate(ts.push(t), source, s)
            =~= spec_instantiate(ts, source, s) + spec_template_effects(t, source, s),
    decreases ts.len(),
{
    if ts.len() == 0 {
        reveal_with_fuel(spec_instantiate, 3);
        assert(ts.push(t).drop_first() =~= Seq::<EffectTemplate>::empty());
        assert(ts.push(t)[0] == t);
        assert(spec_instantiate(ts.push(t), source, s)
            =~= spec_instantiate(ts, source, s) + spec_template_effects(t, source, s));
    } else {
        assert(ts.push(t).drop_first() =~= ts.drop_first().push(t));
        lemma_instantiate_push(ts.drop_first(), t, source, s);
        assert(ts.push(t)[0] == ts[0]);
        assert(spec_instantiate(ts.push(t), source, s)
            == spec_template_effects(ts[0], source, s)
                + spec_instantiate(ts.drop_first().push(t), source, s));
        assert(spec_instantiate(ts.drop_first().push(t), source, s)
            =~= spec_instantiate(ts.drop_first(), source, s)
                + spec_template_effects(t, source, s));
        assert(spec_instantiate(ts.push(t), source, s)
            =~= spec_instantiate(ts, source, s) + spec_template_effects(t, source, s));
    }
}

fn resolve_target_kind(kind: TargetKind, source: ActorId, state: &GameState) -> (r: Vec<ActorId>)
    ensures
        r@ == spec_resolve_targets(kind, source, *state),
{
    match kind {
        TargetKind::CardTarget => {
            let mut v: Vec<ActorId> = Vec::new();
            if let Some(mi) = state.card_target {
                v.push(ActorId::Monster(mi));
            }
            proof {
                assert(v@ =~= spec_resolve_targets(kind, source, *state));
            }
            v
        },
        TargetKind::Character => {
            let mut v: Vec<ActorId> = Vec::new();
            v.push(ActorId::Character);
            proof {
                assert(v@ =~= spec_resolve_targets(kind, source, *state));
            }
            v
        },
        TargetKind::AllMonsters => {
            let mut v: Vec<ActorId> = Vec::new();
            let n = state.monsters.len();
            let mut i: usize = 0;
            while i < n
                invariant
                    i <= n,
                    v@.len() == i,
                    forall|j: int| 0 <= j < i ==> v@[j] == ActorId::Monster((j as u8)),
                decreases n - i,
            {
                v.push(ActorId::Monster(i as u8));
                i = i + 1;
            }
            proof {
                assert(v@ =~= spec_resolve_targets(kind, source, *state));
            }
            v
        },
        TargetKind::Source => {
            let mut v: Vec<ActorId> = Vec::new();
            v.push(source);
            proof {
                assert(v@ =~= spec_resolve_targets(kind, source, *state));
            }
            v
        },
    }
}

/// Append one template's expansion to `out`.
#[verifier::loop_isolation(false)]
fn push_template_effects(out: &mut Vec<Effect>, t: &EffectTemplate, source: ActorId, state: &GameState)
    ensures
        final(out)@ == old(out)@ + spec_template_effects(*t, source, *state),
{
    match *t {
        EffectTemplate::DamagePhysical { base, target } => {
            let targets = resolve_target_kind(target, source, state);
            let ghost f = |a: ActorId| Effect::DamagePhysical { source, target: a, base };
            let mut k: usize = 0;
            while k < targets.len()
                invariant
                    k <= targets@.len(),
                    out@ =~= old(out)@ + targets@.subrange(0, k as int).map_values(f),
                decreases targets@.len() - k,
            {
                out.push(Effect::DamagePhysical { source, target: targets[k], base });
                proof {
                    assert(targets@.subrange(0, k + 1)
                        =~= targets@.subrange(0, k as int).push(targets@[k as int]));
                    assert(targets@.subrange(0, k + 1).map_values(f)
                        =~= targets@.subrange(0, k as int).map_values(f).push(f(targets@[k as int])));
                    assert(out@ =~= old(out)@ + targets@.subrange(0, k + 1).map_values(f));
                }
                k = k + 1;
            }
            proof {
                assert(targets@.subrange(0, targets@.len() as int) =~= targets@);
                assert(out@ =~= old(out)@ + spec_template_effects(*t, source, *state));
            }
        },
        EffectTemplate::BlockGain { amount, target } => {
            let targets = resolve_target_kind(target, source, state);
            let ghost f = |a: ActorId| Effect::BlockGain { target: a, amount, from_card: true };
            let mut k: usize = 0;
            while k < targets.len()
                invariant
                    k <= targets@.len(),
                    out@ =~= old(out)@ + targets@.subrange(0, k as int).map_values(f),
                decreases targets@.len() - k,
            {
                out.push(Effect::BlockGain { target: targets[k], amount, from_card: true });
                proof {
                    assert(targets@.subrange(0, k + 1)
                        =~= targets@.subrange(0, k as int).push(targets@[k as int]));
                    assert(targets@.subrange(0, k + 1).map_values(f)
                        =~= targets@.subrange(0, k as int).map_values(f).push(f(targets@[k as int])));
                    assert(out@ =~= old(out)@ + targets@.subrange(0, k + 1).map_values(f));
                }
                k = k + 1;
            }
            proof {
                assert(targets@.subrange(0, targets@.len() as int) =~= targets@);
                assert(out@ =~= old(out)@ + spec_template_effects(*t, source, *state));
            }
        },
        EffectTemplate::ModifierGain { kind, stacks, target } => {
            let targets = resolve_target_kind(target, source, state);
            let ghost f = |a: ActorId| Effect::ModifierGain { target: a, kind, stacks };
            let mut k: usize = 0;
            while k < targets.len()
                invariant
                    k <= targets@.len(),
                    out@ =~= old(out)@ + targets@.subrange(0, k as int).map_values(f),
                decreases targets@.len() - k,
            {
                out.push(Effect::ModifierGain { target: targets[k], kind, stacks });
                proof {
                    assert(targets@.subrange(0, k + 1)
                        =~= targets@.subrange(0, k as int).push(targets@[k as int]));
                    assert(targets@.subrange(0, k + 1).map_values(f)
                        =~= targets@.subrange(0, k as int).map_values(f).push(f(targets@[k as int])));
                    assert(out@ =~= old(out)@ + targets@.subrange(0, k + 1).map_values(f));
                }
                k = k + 1;
            }
            proof {
                assert(targets@.subrange(0, targets@.len() as int) =~= targets@);
                assert(out@ =~= old(out)@ + spec_template_effects(*t, source, *state));
            }
        },
        EffectTemplate::ModifierRemove { kind, target } => {
            let targets = resolve_target_kind(target, source, state);
            let ghost f = |a: ActorId| Effect::ModifierRemove { target: a, kind };
            let mut k: usize = 0;
            while k < targets.len()
                invariant
                    k <= targets@.len(),
                    out@ =~= old(out)@ + targets@.subrange(0, k as int).map_values(f),
                decreases targets@.len() - k,
            {
                out.push(Effect::ModifierRemove { target: targets[k], kind });
                proof {
                    assert(targets@.subrange(0, k + 1)
                        =~= targets@.subrange(0, k as int).push(targets@[k as int]));
                    assert(targets@.subrange(0, k + 1).map_values(f)
                        =~= targets@.subrange(0, k as int).map_values(f).push(f(targets@[k as int])));
                    assert(out@ =~= old(out)@ + targets@.subrange(0, k + 1).map_values(f));
                }
                k = k + 1;
            }
            proof {
                assert(targets@.subrange(0, targets@.len() as int) =~= targets@);
                assert(out@ =~= old(out)@ + spec_template_effects(*t, source, *state));
            }
        },
        EffectTemplate::EnergyGain { amount } => {
            out.push(Effect::EnergyGain { amount });
            proof {
                assert(out@ =~= old(out)@ + spec_template_effects(*t, source, *state));
            }
        },
        EffectTemplate::AddShivs { count } => {
            out.push(Effect::AddShivs { count });
            proof {
                assert(out@ =~= old(out)@ + spec_template_effects(*t, source, *state));
            }
        },
        EffectTemplate::CardDraw { count } => {
            out.push(Effect::CardDraw { count });
            proof {
                assert(out@ =~= old(out)@ + spec_template_effects(*t, source, *state));
            }
        },
        EffectTemplate::CardDiscard { selection } => {
            match selection {
                SelectionKind::Input => {
                    out.push(Effect::AwaitDiscard);
                },
                SelectionKind::Random => {
                    out.push(Effect::CardDiscardRandom);
                },
            }
            proof {
                assert(out@ =~= old(out)@ + spec_template_effects(*t, source, *state));
            }
        },
        EffectTemplate::CalculatedGamble => {
            out.push(Effect::CalculatedGamble);
            proof {
                assert(out@ =~= old(out)@ + spec_template_effects(*t, source, *state));
            }
        },
    }
}

/// Instantiate a template list into concrete runtime effects, resolving
/// symbolic targets against the current state.
fn instantiate_templates(
    templates: &Vec<EffectTemplate>,
    source: ActorId,
    state: &GameState,
) -> (r: Vec<Effect>)
    ensures
        r@ == spec_instantiate(templates@, source, *state),
{
    let mut out: Vec<Effect> = Vec::new();
    let mut i: usize = 0;
    while i < templates.len()
        invariant
            i <= templates@.len(),
            out@ =~= spec_instantiate(templates@.subrange(0, i as int), source, *state),
        decreases templates@.len() - i,
    {
        push_template_effects(&mut out, &templates[i], source, state);
        proof {
            assert(templates@.subrange(0, i + 1)
                =~= templates@.subrange(0, i as int).push(templates@[i as int]));
            lemma_instantiate_push(templates@.subrange(0, i as int), templates@[i as int], source, *state);
        }
        i = i + 1;
    }
    proof {
        assert(templates@.subrange(0, templates@.len() as int) =~= templates@);
    }
    out
}


// ---------------------------------------------------------------------------
// Handlers: energy, block, health, damage
// ---------------------------------------------------------------------------

/// Energy gain saturates at the counter's capacity.
pub open spec fn spec_energy_gain_post(s0: GameState, s1: GameState, amount: u8, r: EffectResult) -> bool {
    &&& s1 == (GameState {
        energy: Energy {
            current: spec_clamp(s0.energy.current + amount, 0, 255) as u8,
            max: s0.energy.max,
        },
        ..s0
    })
    &&& r.is_empty()
}

fn process_energy_gain(state: &mut GameState, amount: u8) -> (r: EffectResult)
    ensures
        spec_energy_gain_post(*old(state), *final(state), amount, r),
{
    let sum: u16 = state.energy.current as u16 + amount as u16;
    state.energy.current = if sum > 255 { 255 } else { sum as u8 };
    EffectResult::empty()
}

/// Energy loss saturates at zero: spending never drives the counter
/// negative.
pub open spec fn spec_energy_loss_post(s0: GameState, s1: GameState, amount: u8, r: EffectResult) -> bool {
    &&& s1 == (GameState {
        energy: Energy {
            current: (if amount <= s0.energy.current {
                s0.energy.current - amount
            } else {
                0int
            }) as u8,
            max: s0.energy.max,
        },
        ..s0
    })
    &&& r.is_empty()
}

fn process_energy_loss(state: &mut GameState, amount: u8) -> (r: EffectResult)
    ensures
        spec_energy_loss_post(*old(state), *final(state), amount, r),
{
    state.energy.current = if amount <= state.energy.current {
        state.energy.current - amount
    } else {
        0
    };
    EffectResult::empty()
}

pub open spec fn spec_block_set_post(
    s0: GameState,
    s1: GameState,
    target: ActorId,
    amount: u16,
    r: EffectResult,
) -> bool {
    &&& r.is_empty()
    &&& if !spec_actor_exists(s0, target) {
        s1 == s0
    } else {
        &&& spec_untouched_but_vitals(s0, s1, target)
        &&& spec_vitals(s1, target) == (Vitals { block: amount, ..spec_vitals(s0, target) })
    }
}

fn process_block_set(state: &mut GameState, target: ActorId, amount: u16) -> (r: EffectResult)
    requires
        old(state).wf(),
    ensures
        final(state).wf(),
        spec_block_set_post(*old(state), *final(state), target, amount, r),
{
    if actor_exists(state, target) {
        actor_block_set(state, target, amount);
        proof {
            assert(spec_vitals(*state, target)
                == (Vitals { block: amount, ..spec_vitals(*old(state), target) }));
        }
    }
    EffectResult::empty()
}

/// Block gain adds the target's dexterity only when the block came from a
/// played card; the total is capped at 999.
pub open spec fn spec_block_gain_value(v: Vitals, amount: u16, from_card: bool) -> int {
    let dex = if from_card && v.modifiers.spec_has(ModifierKind::Dexterity) {
        v.modifiers.spec_stacks(ModifierKind::Dexterity) as int
    } else {
        0int
    };
    amount + dex
}

pub open spec fn spec_block_gain_post(
    s0: GameState,
    s1: GameState,
    target: ActorId,
    amount: u16,
    from_card: bool,
    r: EffectResult,
) -> bool {
    &&& r.is_empty()
    &&& if !spec_actor_exists(s0, target) {
        s1 == s0
    } else {
        let gain = spec_block_gain_value(spec_vitals(s0, target), amount, from_card);
        if gain > 0 {
            &&& spec_untouched_but_vitals(s0, s1, target)
            &&& spec_vitals(s1, target) == (Vitals {
                block: spec_clamp(spec_vitals(s0, target).block + gain, 0, 999) as u16,
                ..spec_vitals(s0, target)
            })
        } else {
            s1 == s0
        }
    }
}

fn process_block_gain(
    state: &mut GameState,
    target: ActorId,
    amount: u16,
    from_card: bool,
) -> (r: EffectResult)
    requires
        old(state).wf(),
    ensures
        final(state).wf(),
        spec_block_gain_post(*old(state), *final(state), target, amount, from_card, r),
{
    if actor_exists(state, target) {
        let v = vitals_ref(state, target);
        let dex: i64 = if from_card && modifier_has(&v.modifiers, ModifierKind::Dexterity) {
            modifier_stacks(&v.modifiers, ModifierKind::Dexterity) as i64
        } else {
            0
        };
        let value: i64 = amount as i64 + dex;
        if value > 0 {
            let total: i64 = v.block as i64 + value;
            let capped: u16 = if total > 999 { 999 } else { total as u16 };
            actor_block_set(state, target, capped);
            proof {
                assert(spec_vitals(*state, target)
                    == (Vitals { block: capped, ..spec_vitals(*old(state), target) }));
            }
        }
    }
    EffectResult::empty()
}

pub open spec fn spec_health_gain_post(
    s0: GameState,
    s1: GameState,
    target: ActorId,
    amount: u16,
    r: EffectResult,
) -> bool {
    &&& r.is_empty()
    &&& if !spec_actor_exists(s0, target) {
        s1 == s0
    } else {
        &&& spec_untouched_but_vitals(s0, s1, target)
        &&& spec_vitals(s1, target) == (Vitals {
            health: spec_clamp(
                spec_vitals(s0, target).health + amount,
                0,
                spec_vitals(s0, target).health_max as int,
            ) as u16,
            ..spec_vitals(s0, target)
        })
    }
}

/// Healing is capped at the target's maximum health.
fn process_health_gain(state: &mut GameState, target: ActorId, amount: u16) -> (r: EffectResult)
    requires
        old(state).wf(),
    ensures
        final(state).wf(),
        spec_health_gain_post(*old(state), *final(state), target, amount, r),
{
    if actor_exists(state, target) {
        let v = vitals_ref(state, target);
        let sum: u32 = v.health as u32 + amount as u32;
        let capped: u16 = if sum > v.health_max as u32 { v.health_max } else { sum as u16 };
        actor_health_set(state, target, capped);
        proof {
            assert(spec_vitals(*state, target) == (Vitals {
                health: spec_clamp(
                    spec_vitals(*old(state), target).health + amount,
                    0,
                    spec_vitals(*old(state), target).health_max as int,
                ) as u16,
                ..spec_vitals(*old(state), target)
            }));
        }
    }
    EffectResult::empty()
}

/// Mitigation (the block rule): post-state block is `max(0, block - amount)`
/// and the emitted health loss is `max(0, amount - block)`; health itself is
/// only touched by the follow-up effect.
pub open spec fn spec_damage_deal_post(
    s0: GameState,
    s1: GameState,
    target: ActorId,
    amount: u16,
    r: EffectResult,
) -> bool {
    &&& !r.halt && !r.pause
    &&& r.push_bot@ =~= Seq::<Effect>::empty()
    &&& if !spec_actor_exists(s0, target) {
        s1 == s0 && r.push_top@ =~= Seq::<Effect>::empty()
    } else {
        let b0 = spec_vitals(s0, target).block;
        let hp_loss: int = if amount <= b0 { 0int } else { amount - b0 };
        &&& spec_untouched_but_vitals(s0, s1, target)
        &&& spec_vitals(s1, target) == (Vitals {
            block: (if amount <= b0 { b0 - amount } else { 0int }) as u16,
            ..spec_vitals(s0, target)
        })
        &&& if hp_loss > 0 {
            r.push_top@ =~= seq![Effect::HealthLoss { target, amount: hp_loss as u16 }]
        } else {
            r.push_top@ =~= Seq::<Effect>::empty()
        }
    }
}

fn process_damage_deal(state: &mut GameState, target: ActorId, amount: u16) -> (r: EffectResult)
    requires
        old(state).wf(),
    ensures
        final(state).wf(),
        spec_damage_deal_post(*old(state), *final(state), target, amount, r),
{
    if !actor_exists(state, target) {
        return EffectResult::empty();
    }
    let b0 = vitals_ref(state, target).block;
    let new_block = if amount <= b0 { b0 - amount } else { 0 };
    let over_block = if amount <= b0 { 0 } else { amount - b0 };
    actor_block_set(state, target, new_block);
    proof {
        assert(spec_vitals(*state, target)
            == (Vitals { block: new_block, ..spec_vitals(*old(state), target) }));
    }
    if over_block > 0 {
        let mut effects: Vec<Effect> = Vec::new();
        effects.push(Effect::HealthLoss { target, amount: over_block });
        EffectResult::top(effects)
    } else {
        EffectResult::empty()
    }
}

/// Pending ("intent") damage resolved against live modifiers: strength,
/// weak, vulnerable, and double-damage, in that fixed order, with one
/// truncation at the end. The state itself is untouched; the final amount
/// is re-queued as a direct `DamageDeal`.
pub open spec fn spec_damage_physical_post(
    s0: GameState,
    s1: GameState,
    source: ActorId,
    target: ActorId,
    base: u16,
    r: EffectResult,
) -> bool {
    &&& s1 == s0
    &&& !r.halt && !r.pause
    &&& r.push_bot@ =~= Seq::<Effect>::empty()
    &&& if !spec_actor_exists(s0, source) || !spec_actor_exists(s0, target) {
        r.push_top@ =~= Seq::<Effect>::empty()
    } else {
        let sm = spec_vitals(s0, source).modifiers;
        let tm = spec_vitals(s0, target).modifiers;
        let strength: i16 = if sm.spec_has(ModifierKind::Strength) {
            sm.spec_stacks(ModifierKind::Strength)
        } else {
            0i16
        };
        let dmg = spec_attack_damage(
            base,
            strength,
            sm.spec_has(ModifierKind::Weak),
            tm.spec_has(ModifierKind::Vulnerable),
            sm.spec_has(ModifierKind::DoubleDamage),
        );
        if dmg > 0 {
            r.push_top@ =~= seq![Effect::DamageDeal { target, amount: dmg }]
        } else {
            r.push_top@ =~= Seq::<Effect>::empty()
        }
    }
}

fn process_damage_physical(
    state: &mut GameState,
    source: ActorId,
    target: ActorId,
    base: u16,
) -> (r: EffectResult)
    requires
        old(state).wf(),
    ensures
        final(state).wf(),
        spec_damage_physical_post(*old(state), *final(state), source, target, base, r),
{
    if !actor_exists(state, source) || !actor_exists(state, target) {
        return EffectResult::empty();
    }
    let strength: i16 = {
        let sm = &vitals_ref(state, source).modifiers;
        if modifier_has(sm, ModifierKind::Strength) {
            modifier_stacks(sm, ModifierKind::Strength)
        } else {
            0
        }
    };
    let weak = modifier_has(&vitals_ref(state, source).modifiers, ModifierKind::Weak);
    let vuln = modifier_has(&vitals_ref(state, target).modifiers, ModifierKind::Vulnerable);
    let dbl = modifier_has(&vitals_ref(state, source).modifiers, ModifierKind::DoubleDamage);

    let final_damage = attack_damage(base, strength, weak, vuln, dbl);
    if final_damage > 0 {
        let mut effects: Vec<Effect> = Vec::new();
        effects.push(Effect::DamageDeal { target, amount: final_damage });
        EffectResult::top(effects)
    } else {
        EffectResult::empty()
    }
}


// ---------------------------------------------------------------------------
// Handlers: health loss, modifiers, death
// ---------------------------------------------------------------------------

/// Count of executed moves equal to `v` in the first `n` history entries.
pub open spec fn spec_count_prefix(h: Seq<usize>, v: usize, n: int) -> int
    decreases n,
{
    if n <= 0 {
        0int
    } else {
        spec_count_prefix(h, v, n - 1) + if h[n - 1] == v { 1int } else { 0int }
    }
}

/// Health loss: a live mode-shift counter intercepts the whole amount,
/// decrementing instead of the normal health path, and its exhaustion
/// removes it and forces the monster to re-select its move. Otherwise
/// health drops (saturating at zero) and reaching zero emits the death
/// effect.
pub open spec fn spec_health_loss_post(
    s0: GameState,
    s1: GameState,
    target: ActorId,
    amount: u16,
    r: EffectResult,
) -> bool {
    &&& !r.halt && !r.pause
    &&& r.push_bot@ =~= Seq::<Effect>::empty()
    &&& if !spec_actor_exists(s0, target) {
        s1 == s0 && r.push_top@ =~= Seq::<Effect>::empty()
    } else {
        let v0 = spec_vitals(s0, target);
        if v0.modifiers.spec_has(ModifierKind::ModeShift) {
            let ns = v0.modifiers.spec_stacks(ModifierKind::ModeShift) - amount;
            &&& spec_untouched_but_vitals(s0, s1, target)
            &&& spec_vitals(s1, target).health == v0.health
            &&& spec_vitals(s1, target).block == v0.block
            &&& spec_vitals(s1, target).health_max == v0.health_max
            &&& if ns < spec_modifier_def(ModifierKind::ModeShift).min_stacks {
                &&& crate::modifier::spec_remove_rel(
                    v0.modifiers,
                    spec_vitals(s1, target).modifiers,
                    ModifierKind::ModeShift,
                )
                &&& match target {
                    ActorId::Monster(i) => r.push_top@
                        =~= seq![Effect::MonsterMoveUpdate { monster_idx: i }],
                    ActorId::Character => r.push_top@ =~= Seq::<Effect>::empty(),
                }
            } else {
                &&& spec_vitals(s1, target).modifiers.stacks@ == v0.modifiers.stacks@.update(
                    ModifierKind::ModeShift.spec_idx(),
                    ns as i16,
                )
                &&& spec_vitals(s1, target).modifiers.is_new@ == v0.modifiers.is_new@
                &&& spec_vitals(s1, target).modifiers.active@ == v0.modifiers.active@
                &&& r.push_top@ =~= Seq::<Effect>::empty()
            }
        } else {
            let h1: int = if amount <= v0.health { v0.health - amount } else { 0int };
            &&& spec_untouched_but_vitals(s0, s1, target)
            &&& spec_vitals(s1, target).health == h1
            &&& spec_vitals(s1, target).block == v0.block
            &&& spec_vitals(s1, target).health_max == v0.health_max
            &&& spec_vitals(s1, target).modifiers == v0.modifiers
            &&& if h1 == 0 {
                r.push_top@ =~= seq![Effect::Death { actor: target }]
            } else {
                r.push_top@ =~= Seq::<Effect>::empty()
            }
        }
    }
}

fn process_health_loss(state: &mut GameState, target: ActorId, amount: u16) -> (r: EffectResult)
    requires
        old(state).wf(),
    ensures
        final(state).wf(),
        spec_health_loss_post(*old(state), *final(state), target, amount, r),
{
    if !actor_exists(state, target) {
        return EffectResult::empty();
    }

    if modifier_has(&vitals_ref(state, target).modifiers, ModifierKind::ModeShift) {
        let stacks = modifier_stacks(&vitals_ref(state, target).modifiers, ModifierKind::ModeShift);
        let ns: i32 = stacks as i32 - amount as i32;
        let min_stacks = modifier_def(ModifierKind::ModeShift).min_stacks;
        if ns < min_stacks as i32 {
            actor_modifier_remove(state, target, ModifierKind::ModeShift);
            if let ActorId::Monster(i) = target {
                let mut effects: Vec<Effect> = Vec::new();
                effects.push(Effect::MonsterMoveUpdate { monster_idx: i });
                return EffectResult::top(effects);
            }
            return EffectResult::empty();
        } else {
            proof {
                assert(spec_vitals(*state, target).modifiers.spec_has(ModifierKind::ModeShift));
            }
            actor_modifier_set_stacks(state, target, ModifierKind::ModeShift, ns as i16);
            return EffectResult::empty();
        }
    }

    let h0 = vitals_ref(state, target).health;
    let h1: u16 = if amount <= h0 { h0 - amount } else { 0 };
    actor_health_set(state, target, h1);

    if h1 == 0 {
        let mut effects: Vec<Effect> = Vec::new();
        effects.push(Effect::Death { actor: target });
        return EffectResult::top(effects);
    }
    EffectResult::empty()
}

/// A modifier gain: the mode-shift counter is special-cased (the boss
/// refill rule); negative stacks only drain an already-present kind,
/// removing it when it falls under its minimum; everything else follows
/// the store's gain rule.
pub open spec fn spec_modifier_gain_post(
    s0: GameState,
    s1: GameState,
    target: ActorId,
    kind: ModifierKind,
    stacks: i16,
    r: EffectResult,
) -> bool {
    if kind == ModifierKind::ModeShift {
        spec_mode_shift_gain_post(s0, s1, target, r)
    } else {
        &&& r.is_empty()
        &&& if !spec_actor_exists(s0, target) {
            s1 == s0
        } else {
            let m0 = spec_vitals(s0, target).modifiers;
            let m1 = spec_vitals(s1, target).modifiers;
            &&& spec_untouched_but_vitals(s0, s1, target)
            &&& spec_vitals(s1, target).block == spec_vitals(s0, target).block
            &&& spec_vitals(s1, target).health == spec_vitals(s0, target).health
            &&& spec_vitals(s1, target).health_max == spec_vitals(s0, target).health_max
            &&& if stacks < 0 {
                if m0.spec_has(kind) {
                    let ns = m0.spec_stacks(kind) + stacks;
                    if ns < spec_modifier_def(kind).min_stacks {
                        crate::modifier::spec_remove_rel(m0, m1, kind)
                    } else {
                        &&& m1.stacks@ == m0.stacks@.update(kind.spec_idx(), ns as i16)
                        &&& m1.is_new@ == m0.is_new@
                        &&& m1.active@ == m0.active@
                    }
                } else {
                    s1 == s0
                }
            } else {
                crate::modifier::spec_apply_rel(m0, m1, kind, stacks)
            }
        }
    }
}

/// The boss's mode-shift refill: the base value for the ascension tier plus
/// ten for each completed offense/defense cycle (counted by executed
/// "twin slam" moves), installed without counting as new this turn.
pub open spec fn spec_mode_shift_gain_post(
    s0: GameState,
    s1: GameState,
    target: ActorId,
    r: EffectResult,
) -> bool {
    &&& r.is_empty()
    &&& match target {
        ActorId::Character => s1 == s0,
        ActorId::Monster(i) => {
            if (i as int) >= s0.monsters@.len() {
                s1 == s0
            } else {
                let m = s0.monsters@[i as int];
                let cycles: int = if m.name == crate::types::MonsterName::TheGuardian {
                    spec_count_prefix(
                        m.move_history@,
                        crate::monster::TG_TWIN,
                        m.move_history@.len() as int,
                    )
                } else {
                    0int
                };
                let raw = crate::monster::spec_mode_shift_base(s0.ascension) + 10 * cycles;
                let st: i16 = if raw > 999 { 999i16 } else { raw as i16 };
                let m0 = m.vitals.modifiers;
                let m1 = spec_vitals(s1, target).modifiers;
                &&& spec_untouched_but_vitals(s0, s1, target)
                &&& spec_vitals(s1, target).block == m.vitals.block
                &&& spec_vitals(s1, target).health == m.vitals.health
                &&& spec_vitals(s1, target).health_max == m.vitals.health_max
                &&& m1.active@ == m0.active@.update(ModifierKind::ModeShift.spec_idx(), true)
                &&& m1.is_new@ == m0.is_new@.update(ModifierKind::ModeShift.spec_idx(), false)
                &&& (!m0.spec_has(ModifierKind::ModeShift) ==> m1.stacks@ == m0.stacks@.update(
                    ModifierKind::ModeShift.spec_idx(),
                    st,
                ))
            }
        },
    }
}

fn count_twin_slams(m: &Monster) -> (r: usize)
    ensures
        r == spec_count_prefix(m.move_history@, crate::monster::TG_TWIN, m.move_history@.len() as int),
        r <= m.move_history@.len(),
{
    let mut count: usize = 0;
    let mut i: usize = 0;
    while i < m.move_history.len()
        invariant
            i <= m.move_history@.len(),
            count == spec_count_prefix(m.move_history@, crate::monster::TG_TWIN, i as int),
            count <= i,
        decreases m.move_history@.len() - i,
    {
        if m.move_history[i] == crate::monster::TG_TWIN {
            count = count + 1;
        }
        i = i + 1;
    }
    count
}

fn process_mode_shift_gain(state: &mut GameState, target: ActorId) -> (r: EffectResult)
    requires
        old(state).wf(),
    ensures
        final(state).wf(),
        spec_mode_shift_gain_post(*old(state), *final(state), target, r),
{
    if let ActorId::Monster(i) = target {
        if (i as usize) < state.monsters.len() {
            let cycles: usize = if matches!(
                state.monsters[i as usize].name,
                crate::types::MonsterName::TheGuardian
            ) {
                count_twin_slams(&state.monsters[i as usize])
            } else {
                0
            };
            let base = crate::monster::mode_shift_base(state.ascension);
            let st: i16 = if cycles >= 100 {
                999
            } else {
                let raw: i64 = base as i64 + 10 * cycles as i64;
                if raw > 999 { 999 } else { raw as i16 }
            };
            let ghost m0 = spec_vitals(*state, target).modifiers;
            actor_modifier_apply(state, target, ModifierKind::ModeShift, st);
            actor_modifier_force_not_new(state, target, ModifierKind::ModeShift);
            proof {
                let gi = ModifierKind::ModeShift.spec_idx();
                let m1 = spec_vitals(*state, target).modifiers;
                assert(m1.is_new@ =~= m0.is_new@.update(gi, false));
                if m0.spec_has(ModifierKind::ModeShift) {
                    assert(m1.active@ =~= m0.active@.update(gi, true));
                } else {
                    assert(m1.active@ =~= m0.active@.update(gi, true));
                    assert(m1.stacks@ =~= m0.stacks@.update(gi, st));
                }
            }
        }
    }
    EffectResult::empty()
}

/// Clear one kind's newness flag on an actor.
fn actor_modifier_force_not_new(state: &mut GameState, actor: ActorId, kind: ModifierKind)
    requires
        old(state).wf(),
        spec_actor_exists(*old(state), actor),
    ensures
        final(state).wf(),
        spec_untouched_but_vitals(*old(state), *final(state), actor),
        spec_vitals(*final(state), actor).modifiers.stacks@
            == spec_vitals(*old(state), actor).modifiers.stacks@,
        spec_vitals(*final(state), actor).modifiers.active@
            == spec_vitals(*old(state), actor).modifiers.active@,
        spec_vitals(*final(state), actor).modifiers.is_new@
            == spec_vitals(*old(state), actor).modifiers.is_new@.update(kind.spec_idx(), false),
        spec_vitals(*final(state), actor).block == spec_vitals(*old(state), actor).block,
        spec_vitals(*final(state), actor).health == spec_vitals(*old(state), actor).health,
        spec_vitals(*final(state), actor).health_max
            == spec_vitals(*old(state), actor).health_max,
{
    match actor {
        ActorId::Character => {
            crate::modifier::modifier_force_not_new(&mut state.character.vitals.modifiers, kind);
        },
        ActorId::Monster(i) => {
            let idx = i as usize;
            let mut m = state.monsters.remove(idx);
            crate::modifier::modifier_force_not_new(&mut m.vitals.modifiers, kind);
            state.monsters.insert(idx, m);
            proof {
                monster_update_frame(*old(state), *state, i as int);
            }
        },
    }
}

fn process_modifier_gain(
    state: &mut GameState,
    target: ActorId,
    kind: ModifierKind,
    stacks: i16,
) -> (r: EffectResult)
    requires
        old(state).wf(),
    ensures
        final(state).wf(),
        spec_modifier_gain_post(*old(state), *final(state), target, kind, stacks, r),
{
    if matches!(kind, ModifierKind::ModeShift) {
        return process_mode_shift_gain(state, target);
    }

    if !actor_exists(state, target) {
        return EffectResult::empty();
    }

    if stacks < 0 {
        let mods = &vitals_ref(state, target).modifiers;
        if modifier_has(mods, kind) {
            let s0 = modifier_stacks(mods, kind);
            let ns: i32 = s0 as i32 + stacks as i32;
            let cfg = modifier_def(kind);
            if ns < cfg.min_stacks as i32 {
                actor_modifier_remove(state, target, kind);
            } else {
                actor_modifier_set_stacks(state, target, kind, ns as i16);
            }
        }
        return EffectResult::empty();
    }

    actor_modifier_apply(state, target, kind, stacks);
    EffectResult::empty()
}

pub open spec fn spec_modifier_remove_post(
    s0: GameState,
    s1: GameState,
    target: ActorId,
    kind: ModifierKind,
    r: EffectResult,
) -> bool {
    &&& r.is_empty()
    &&& if !spec_actor_exists(s0, target) {
        s1 == s0
    } else {
        &&& spec_untouched_but_vitals(s0, s1, target)
        &&& spec_vitals(s1, target).block == spec_vitals(s0, target).block
        &&& spec_vitals(s1, target).health == spec_vitals(s0, target).health
        &&& spec_vitals(s1, target).health_max == spec_vitals(s0, target).health_max
        &&& crate::modifier::spec_remove_rel(
            spec_vitals(s0, target).modifiers,
            spec_vitals(s1, target).modifiers,
            kind,
        )
    }
}

fn process_modifier_remove(
    state: &mut GameState,
    target: ActorId,
    kind: ModifierKind,
) -> (r: EffectResult)
    requires
        old(state).wf(),
    ensures
        final(state).wf(),
        spec_modifier_remove_post(*old(state), *final(state), target, kind, r),
{
    if actor_exists(state, target) {
        actor_modifier_remove(state, target, kind);
    }
    EffectResult::empty()
}

pub open spec fn spec_modifier_tick_post(
    s0: GameState,
    s1: GameState,
    target: ActorId,
    r: EffectResult,
) -> bool {
    &&& r.is_empty()
    &&& if !spec_actor_exists(s0, target) {
        s1 == s0
    } else {
        &&& spec_untouched_but_vitals(s0, s1, target)
        &&& spec_vitals(s1, target).block == spec_vitals(s0, target).block
        &&& spec_vitals(s1, target).health == spec_vitals(s0, target).health
        &&& spec_vitals(s1, target).health_max == spec_vitals(s0, target).health_max
        &&& crate::modifier::spec_tick_rel(
            spec_vitals(s0, target).modifiers,
            spec_vitals(s1, target).modifiers,
        )
    }
}

fn process_modifier_tick(state: &mut GameState, target: ActorId) -> (r: EffectResult)
    requires
        old(state).wf(),
    ensures
        final(state).wf(),
        spec_modifier_tick_post(*old(state), *final(state), target, r),
{
    if actor_exists(state, target) {
        actor_modifier_tick(state, target);
    }
    EffectResult::empty()
}

/// Everything except the monster list is untouched.
pub open spec fn spec_untouched_but_monsters(s0: GameState, s1: GameState) -> bool {
    &&& s1.ascension == s0.ascension
    &&& s1.fsm == s0.fsm
    &&& s1.character == s0.character
    &&& s1.energy == s0.energy
    &&& s1.deck == s0.deck
    &&& s1.combat_cards == s0.combat_cards
    &&& s1.draw_pile == s0.draw_pile
    &&& s1.hand == s0.hand
    &&& s1.discard_pile == s0.discard_pile
    &&& s1.exhaust_pile == s0.exhaust_pile
    &&& s1.card_active == s0.card_active
    &&& s1.card_target == s0.card_target
    &&& s1.card_rewards == s0.card_rewards
    &&& s1.map == s0.map
    &&& s1.effect_queue == s0.effect_queue
}

/// The character's death halts the game; a monster's death removes it from
/// the live list (after its on-death spore cloud fires), and the last
/// monster's death ends the combat.
pub open spec fn spec_death_post(
    s0: GameState,
    s1: GameState,
    actor: ActorId,
    r: EffectResult,
) -> bool {
    &&& !r.halt && !r.pause
    &&& r.push_bot@ =~= Seq::<Effect>::empty()
    &&& match actor {
        ActorId::Character => s1 == s0 && r.push_top@ =~= seq![Effect::GameEnd],
        ActorId::Monster(i) => {
            if (i as int) >= s0.monsters@.len() {
                s1 == s0 && r.push_top@ =~= Seq::<Effect>::empty()
            } else {
                let m = s0.monsters@[i as int];
                let spore: Seq<Effect> = if m.vitals.modifiers.spec_has(ModifierKind::SporeCloud) {
                    seq![Effect::ModifierGain {
                        target: ActorId::Character,
                        kind: ModifierKind::Vulnerable,
                        stacks: m.vitals.modifiers.spec_stacks(ModifierKind::SporeCloud),
                    }]
                } else {
                    Seq::<Effect>::empty()
                };
                let combat_end: Seq<Effect> = if s0.monsters@.len() == 1 {
                    seq![Effect::CombatEnd]
                } else {
                    Seq::<Effect>::empty()
                };
                &&& spec_untouched_but_monsters(s0, s1)
                &&& s1.monsters@ == s0.monsters@.remove(i as int)
                &&& r.push_top@ =~= spore + combat_end
            }
        },
    }
}

fn process_death(state: &mut GameState, actor: ActorId) -> (r: EffectResult)
    requires
        old(state).wf(),
    ensures
        final(state).wf(),
        spec_death_post(*old(state), *final(state), actor, r),
{
    match actor {
        ActorId::Character => {
            let mut effects: Vec<Effect> = Vec::new();
            effects.push(Effect::GameEnd);
            EffectResult::top(effects)
        },
        ActorId::Monster(i) => {
            let idx = i as usize;
            if idx >= state.monsters.len() {
                return EffectResult::empty();
            }
            let mut effects: Vec<Effect> = Vec::new();

            let mods = &state.monsters[idx].vitals.modifiers;
            if modifier_has(mods, ModifierKind::SporeCloud) {
                let stacks = modifier_stacks(mods, ModifierKind::SporeCloud);
                effects.push(Effect::ModifierGain {
                    target: ActorId::Character,
                    kind: ModifierKind::Vulnerable,
                    stacks,
                });
            }

            state.monsters.remove(idx);

            if state.monsters.len() == 0 {
                effects.push(Effect::CombatEnd);
            }
            proof {
                assert forall|j: int| 0 <= j < state.monsters@.len()
                    implies (#[trigger] state.monsters@[j]).wf() by {
                    if j < i as int {
                        assert(state.monsters@[j] == old(state).monsters@[j]);
                    } else {
                        assert(state.monsters@[j] == old(state).monsters@[j + 1]);
                    }
                }
            }
            EffectResult::top(effects)
        },
    }
}

/// Clear the "newly applied this turn" flag on the character and every
/// monster.
pub open spec fn spec_set_not_new_post(s0: GameState, s1: GameState, r: EffectResult) -> bool {
    &&& r.is_empty()
    &&& s1.ascension == s0.ascension
    &&& s1.fsm == s0.fsm
    &&& s1.energy == s0.energy
    &&& s1.deck == s0.deck
    &&& s1.combat_cards == s0.combat_cards
    &&& s1.draw_pile == s0.draw_pile
    &&& s1.hand == s0.hand
    &&& s1.discard_pile == s0.discard_pile
    &&& s1.exhaust_pile == s0.exhaust_pile
    &&& s1.card_active == s0.card_active
    &&& s1.card_target == s0.card_target
    &&& s1.card_rewards == s0.card_rewards
    &&& s1.map == s0.map
    &&& s1.effect_queue == s0.effect_queue
    &&& s1.character.reward_roll_offset == s0.character.reward_roll_offset
    &&& s1.character.vitals.modifiers.stacks@ == s0.character.vitals.modifiers.stacks@
    &&& s1.character.vitals.modifiers.active@ == s0.character.vitals.modifiers.active@
    &&& forall|k: int| 0 <= k < crate::modifier::MODIFIER_COUNT
        ==> !(#[trigger] s1.character.vitals.modifiers.is_new@[k])
    &&& s1.character.vitals.health == s0.character.vitals.health
    &&& s1.character.vitals.health_max == s0.character.vitals.health_max
    &&& s1.character.vitals.block == s0.character.vitals.block
    &&& s1.monsters@.len() == s0.monsters@.len()
    &&& forall|j: int| 0 <= j < s0.monsters@.len() ==> {
        let m0 = #[trigger] s0.monsters@[j];
        let m1 = s1.monsters@[j];
        &&& m1.name == m0.name
        &&& m1.kind == m0.kind
        &&& m1.moves == m0.moves
        &&& m1.move_current == m0.move_current
        &&& m1.move_history == m0.move_history
        &&& m1.vitals.health == m0.vitals.health
        &&& m1.vitals.health_max == m0.vitals.health_max
        &&& m1.vitals.block == m0.vitals.block
        &&& m1.vitals.modifiers.stacks@ == m0.vitals.modifiers.stacks@
        &&& m1.vitals.modifiers.active@ == m0.vitals.modifiers.active@
        &&& forall|k: int| 0 <= k < crate::modifier::MODIFIER_COUNT
            ==> !(#[trigger] m1.vitals.modifiers.is_new@[k])
    }
}

fn process_modifier_set_not_new(state: &mut GameState) -> (r: EffectResult)
    requires
        old(state).wf(),
    ensures
        final(state).wf(),
        spec_set_not_new_post(*old(state), *final(state), r),
{
    crate::modifier::modifier_set_not_new(&mut state.character.vitals.modifiers);
    let mut i: usize = 0;
    while i < state.monsters.len()
        invariant
            old(state).wf(),
            state.wf(),
            i <= state.monsters@.len(),
            state.ascension == old(state).ascension,
            state.fsm == old(state).fsm,
            state.energy == old(state).energy,
            state.deck == old(state).deck,
            state.combat_cards == old(state).combat_cards,
            state.draw_pile == old(state).draw_pile,
            state.hand == old(state).hand,
            state.discard_pile == old(state).discard_pile,
            state.exhaust_pile == old(state).exhaust_pile,
            state.card_active == old(state).card_active,
            state.card_target == old(state).card_target,
            state.card_rewards == old(state).card_rewards,
            state.map == old(state).map,
            state.effect_queue == old(state).effect_queue,
            state.character.reward_roll_offset == old(state).character.reward_roll_offset,
            state.character.vitals.modifiers.stacks@
                == old(state).character.vitals.modifiers.stacks@,
            state.character.vitals.modifiers.active@
                == old(state).character.vitals.modifiers.active@,
            forall|k: int| 0 <= k < crate::modifier::MODIFIER_COUNT
                ==> !(#[trigger] state.character.vitals.modifiers.is_new@[k]),
            state.character.vitals.health == old(state).character.vitals.health,
            state.character.vitals.health_max == old(state).character.vitals.health_max,
            state.character.vitals.block == old(state).character.vitals.block,
            state.monsters@.len() == old(state).monsters@.len(),
            forall|j: int| i <= j < old(state).monsters@.len()
                ==> state.monsters@[j] == old(state).monsters@[j],
            forall|j: int| 0 <= j < i ==> {
                let m0 = #[trigger] old(state).monsters@[j];
                let m1 = state.monsters@[j];
                &&& m1.name == m0.name
                &&& m1.kind == m0.kind
                &&& m1.moves == m0.moves
                &&& m1.move_current == m0.move_current
                &&& m1.move_history == m0.move_history
                &&& m1.vitals.health == m0.vitals.health
                &&& m1.vitals.health_max == m0.vitals.health_max
                &&& m1.vitals.block == m0.vitals.block
                &&& m1.vitals.modifiers.stacks@ == m0.vitals.modifiers.stacks@
                &&& m1.vitals.modifiers.active@ == m0.vitals.modifiers.active@
                &&& forall|k: int| 0 <= k < crate::modifier::MODIFIER_COUNT
                    ==> !(#[trigger] m1.vitals.modifiers.is_new@[k])
            },
        decreases state.monsters@.len() - i,
    {
        let ghost pre = *state;
        let mut m = state.monsters.remove(i);
        crate::modifier::modifier_set_not_new(&mut m.vitals.modifiers);
        state.monsters.insert(i, m);
        proof {
            monster_update_frame(pre, *state, i as int);
            assert forall|j: int| 0 <= j < state.monsters@.len()
                implies (#[trigger] state.monsters@[j]).wf() by {
                if j != i as int {
                    assert(state.monsters@[j] == pre.monsters@[j]);
                }
            }
        }
        i = i + 1;
    }
    EffectResult::empty()
}


// ---------------------------------------------------------------------------
// Handlers: card piles
// ---------------------------------------------------------------------------

/// `p` is the position of the first occurrence of `v` in `h`.
pub open spec fn spec_first_occ(h: Seq<usize>, v: usize, p: int) -> bool {
    &&& 0 <= p < h.len()
    &&& h[p] == v
    &&& forall|j: int| 0 <= j < p ==> h[j] != v
}

/// Remove the first occurrence of `card_idx` from the hand, if present, and
/// report its position.
fn remove_from_hand(state: &mut GameState, card_idx: usize) -> (r: Option<usize>)
    requires
        old(state).wf(),
    ensures
        final(state).wf(),
        *final(state) == (GameState { hand: final(state).hand, ..*old(state) }),
        match r {
            Some(p) => {
                &&& spec_first_occ(old(state).hand@, card_idx, p as int)
                &&& final(state).hand@ == old(state).hand@.remove(p as int)
            },
            None => {
                &&& !old(state).hand@.contains(card_idx)
                &&& final(state).hand@ == old(state).hand@
            },
        },
{
    let mut i: usize = 0;
    while i < state.hand.len()
        invariant
            state == old(state),
            old(state).wf(),
            i <= state.hand@.len(),
            forall|j: int| 0 <= j < i ==> state.hand@[j] != card_idx,
        decreases state.hand@.len() - i,
    {
        if state.hand[i] == card_idx {
            state.hand.remove(i);
            proof {
                assert forall|j: int| 0 <= j < state.hand@.len()
                    implies #[trigger] state.hand@[j] < state.combat_cards@.len() by {
                    if j < i {
                        assert(state.hand@[j] == old(state).hand@[j]);
                    } else {
                        assert(state.hand@[j] == old(state).hand@[j + 1]);
                    }
                }
            }
            return Some(i);
        }
        i = i + 1;
    }
    proof {
        assert(!state.hand@.contains(card_idx)) by {
            if state.hand@.contains(card_idx) {
                let j = choose|j: int| 0 <= j < state.hand@.len()
                    && state.hand@[j] == card_idx;
                assert(state.hand@[j] != card_idx);
            }
        }
    }
    None
}

/// Discard one card: it leaves the hand (first occurrence, if present) and
/// joins the discard pile.
pub open spec fn spec_card_discard_post(
    s0: GameState,
    s1: GameState,
    card_idx: usize,
    r: EffectResult,
) -> bool {
    &&& r.is_empty()
    &&& if (card_idx as int) >= s0.combat_cards@.len() {
        s1 == s0
    } else {
        &&& s1 == (GameState { hand: s1.hand, discard_pile: s1.discard_pile, ..s0 })
        &&& s1.discard_pile@ == s0.discard_pile@.push(card_idx)
        &&& if s0.hand@.contains(card_idx) {
            exists|p: int| spec_first_occ(s0.hand@, card_idx, p)
                && s1.hand@ == s0.hand@.remove(p)
        } else {
            s1.hand@ == s0.hand@
        }
    }
}

fn process_card_discard(state: &mut GameState, card_idx: usize) -> (r: EffectResult)
    requires
        old(state).wf(),
    ensures
        final(state).wf(),
        spec_card_discard_post(*old(state), *final(state), card_idx, r),
{
    if card_idx < state.combat_cards.len() {
        remove_from_hand(state, card_idx);
        state.discard_pile.push(card_idx);
    }
    EffectResult::empty()
}

/// Exhaust one card: it leaves the hand and joins the exhaust pile.
pub open spec fn spec_card_exhaust_post(
    s0: GameState,
    s1: GameState,
    card_idx: usize,
    r: EffectResult,
) -> bool {
    &&& r.is_empty()
    &&& if (card_idx as int) >= s0.combat_cards@.len() {
        s1 == s0
    } else {
        &&& s1 == (GameState { hand: s1.hand, exhaust_pile: s1.exhaust_pile, ..s0 })
        &&& s1.exhaust_pile@ == s0.exhaust_pile@.push(card_idx)
        &&& if s0.hand@.contains(card_idx) {
            exists|p: int| spec_first_occ(s0.hand@, card_idx, p)
                && s1.hand@ == s0.hand@.remove(p)
        } else {
            s1.hand@ == s0.hand@
        }
    }
}

fn process_card_exhaust(state: &mut GameState, card_idx: usize) -> (r: EffectResult)
    requires
        old(state).wf(),
    ensures
        final(state).wf(),
        spec_card_exhaust_post(*old(state), *final(state), card_idx, r),
{
    if card_idx < state.combat_cards.len() {
        remove_from_hand(state, card_idx);
        state.exhaust_pile.push(card_idx);
    }
    EffectResult::empty()
}

/// Remove one card from the hand without sending it to any pile (a played
/// power leaves the combat entirely).
pub open spec fn spec_card_remove_post(
    s0: GameState,
    s1: GameState,
    card_idx: usize,
    r: EffectResult,
) -> bool {
    &&& r.is_empty()
    &&& s1 == (GameState { hand: s1.hand, ..s0 })
    &&& if s0.hand@.contains(card_idx) {
        exists|p: int| spec_first_occ(s0.hand@, card_idx, p) && s1.hand@ == s0.hand@.remove(p)
    } else {
        s1.hand@ == s0.hand@
    }
}

fn process_card_remove(state: &mut GameState, card_idx: usize) -> (r: EffectResult)
    requires
        old(state).wf(),
    ensures
        final(state).wf(),
        spec_card_remove_post(*old(state), *final(state), card_idx, r),
{
    remove_from_hand(state, card_idx);
    EffectResult::empty()
}

/// Discard the whole hand.
pub open spec fn spec_card_discard_all_post(s0: GameState, s1: GameState, r: EffectResult) -> bool {
    &&& r.is_empty()
    &&& s1 == (GameState { hand: s1.hand, discard_pile: s1.discard_pile, ..s0 })
    &&& s1.discard_pile@ == s0.discard_pile@ + s0.hand@
    &&& s1.hand@ =~= Seq::<usize>::empty()
}

fn process_card_discard_all(state: &mut GameState) -> (r: EffectResult)
    requires
        old(state).wf(),
    ensures
        final(state).wf(),
        spec_card_discard_all_post(*old(state), *final(state), r),
{
    state.discard_pile.append(&mut state.hand);
    EffectResult::empty()
}

/// Discard one uniformly random card from the hand (no effect on an empty
/// hand).
pub open spec fn spec_card_discard_random_post(s0: GameState, s1: GameState, r: EffectResult) -> bool {
    &&& r.is_empty()
    &&& s1 == (GameState { hand: s1.hand, discard_pile: s1.discard_pile, rng: s1.rng, ..s0 })
    &&& if s0.hand@.len() == 0 {
        s1.hand@ == s0.hand@ && s1.discard_pile@ == s0.discard_pile@
    } else {
        exists|j: int| {
            &&& 0 <= j < s0.hand@.len()
            &&& s1.hand@ == s0.hand@.remove(j)
            &&& s1.discard_pile@ == s0.discard_pile@.push(s0.hand@[j])
        }
    }
}

fn process_card_discard_random(state: &mut GameState) -> (r: EffectResult)
    requires
        old(state).wf(),
    ensures
        final(state).wf(),
        spec_card_discard_random_post(*old(state), *final(state), r),
{
    let n = state.hand.len();
    if n == 0 {
        return EffectResult::empty();
    }
    let j = crate::rng::rng_index(&mut state.rng, n);
    let ci = state.hand.remove(j);
    state.discard_pile.push(ci);
    proof {
        assert forall|k: int| 0 <= k < state.hand@.len()
            implies #[trigger] state.hand@[k] < state.combat_cards@.len() by {
            if k < j {
                assert(state.hand@[k] == old(state).hand@[k]);
            } else {
                assert(state.hand@[k] == old(state).hand@[k + 1]);
            }
        }
    }
    EffectResult::empty()
}

/// Discard the whole hand and draw as many cards anew.
pub open spec fn spec_calculated_gamble_post(s0: GameState, s1: GameState, r: EffectResult) -> bool {
    &&& s1 == s0
    &&& !r.halt && !r.pause
    &&& r.push_bot@ =~= Seq::<Effect>::empty()
    &&& r.push_top@ =~= seq![
        Effect::CardDiscardAll,
        Effect::CardDraw {
            count: (if s0.hand@.len() > 255 { 255int } else { s0.hand@.len() as int }) as u8,
        },
    ]
}

fn process_calculated_gamble(state: &mut GameState) -> (r: EffectResult)
    ensures
        final(state).wf() == old(state).wf(),
        spec_calculated_gamble_post(*old(state), *final(state), r),
{
    let n = state.hand.len();
    let count: u8 = if n > 255 { 255 } else { n as u8 };
    let mut effects: Vec<Effect> = Vec::new();
    effects.push(Effect::CardDiscardAll);
    effects.push(Effect::CardDraw { count });
    EffectResult::top(effects)
}

/// Upgrading replaces the deck card wholesale with its upgraded twin; the
/// card keeps its name and gains the upgraded definition.
pub open spec fn spec_card_upgrade_post(
    s0: GameState,
    s1: GameState,
    deck_idx: usize,
    r: EffectResult,
) -> bool {
    &&& r.is_empty()
    &&& if (deck_idx as int) >= s0.deck@.len() {
        s1 == s0
    } else {
        let name = s0.deck@[deck_idx as int].name;
        let c = s1.deck@[deck_idx as int];
        &&& s1 == (GameState { deck: s1.deck, ..s0 })
        &&& s1.deck@ == s0.deck@.update(deck_idx as int, c)
        &&& c.name == name
        &&& c.upgraded
        &&& c.kind == card_kind(name)
        &&& c.cost == card_cost(name, true)
        &&& c.exhaust == card_exhaust(name, true)
        &&& c.innate == card_innate(name, true)
        &&& c.effects@ == crate::card::card_effects(name, true)
    }
}

fn process_card_upgrade(state: &mut GameState, deck_idx: usize) -> (r: EffectResult)
    requires
        old(state).wf(),
    ensures
        final(state).wf(),
        spec_card_upgrade_post(*old(state), *final(state), deck_idx, r),
{
    if deck_idx < state.deck.len() {
        let name = state.deck[deck_idx].name;
        let upgraded = get_card(name, true);
        state.deck.remove(deck_idx);
        state.deck.insert(deck_idx, upgraded);
        proof {
            assert(state.deck@ =~= old(state).deck@.update(
                deck_idx as int,
                state.deck@[deck_idx as int],
            ));
        }
    }
    EffectResult::empty()
}

/// Taking a reward adds that card to the permanent deck and clears the
/// pending rewards.
pub open spec fn spec_card_reward_select_post(
    s0: GameState,
    s1: GameState,
    reward_idx: usize,
    r: EffectResult,
) -> bool {
    &&& r.is_empty()
    &&& if (reward_idx as int) >= s0.card_rewards@.len() {
        s1 == s0
    } else {
        &&& s1 == (GameState { deck: s1.deck, card_rewards: s1.card_rewards, ..s0 })
        &&& s1.deck@.len() == s0.deck@.len() + 1
        &&& forall|j: int| 0 <= j < s0.deck@.len() ==> s1.deck@[j] == s0.deck@[j]
        &&& s1.deck@[s0.deck@.len() as int].same_card(s0.card_rewards@[reward_idx as int])
        &&& s1.card_rewards@ =~= Seq::<Card>::empty()
    }
}

fn process_card_reward_select(state: &mut GameState, reward_idx: usize) -> (r: EffectResult)
    requires
        old(state).wf(),
    ensures
        final(state).wf(),
        spec_card_reward_select_post(*old(state), *final(state), reward_idx, r),
{
    if reward_idx < state.card_rewards.len() {
        let card = card_dup(&state.card_rewards[reward_idx]);
        state.deck.push(card);
        state.card_rewards.clear();
    }
    EffectResult::empty()
}


// ---------------------------------------------------------------------------
// Handlers: drawing, shivs, playing a card, rewards
// ---------------------------------------------------------------------------

/// An in-place permutation: the result holds exactly the same values, with
/// multiplicity, as the input.
fn shuffle_indices(v: &mut Vec<usize>, rng: &mut rand::rngs::SmallRng)
    ensures
        final(v)@.len() == old(v)@.len(),
        final(v)@.to_multiset() == old(v)@.to_multiset(),
        forall|k: int| 0 <= k < final(v)@.len() ==> old(v)@.contains(#[trigger] final(v)@[k]),
{
    let mut i: usize = v.len();
    while i > 1
        invariant
            v@.len() == old(v)@.len(),
            v@.to_multiset() == old(v)@.to_multiset(),
            i <= v@.len(),
            forall|k: int| 0 <= k < v@.len() ==> old(v)@.contains(#[trigger] v@[k]),
        decreases i,
    {
        i = i - 1;
        let j = crate::rng::rng_index(rng, i + 1);
        let ghost before = v@;
        let a = v[i];
        let b = v[j];
        v[i] = b;
        v[j] = a;
        proof {
            broadcast use vstd::seq_lib::to_multiset_update;
            broadcast use vstd::multiset::group_multiset_axioms;
            broadcast use vstd::seq_lib::group_to_multiset_ensures;
            assert(v@ == before.update(i as int, b).update(j as int, a));
            assert(before.update(i as int, b)[j as int] == b);
            assert(v@.to_multiset() =~= before.to_multiset());
        }
    }
}

pub open spec fn spec_min3(a: int, b: int, c: int) -> int {
    if a <= b && a <= c { a } else if b <= c { b } else { c }
}

/// Moving the draw pile's front card into the hand or the discard pile
/// conserves the pool indices across the three piles, with multiplicity.
proof fn lemma_draw_moves_front(d0: Seq<usize>, h0: Seq<usize>, c0: Seq<usize>, to_hand: bool)
    requires
        d0.len() > 0,
    ensures
        to_hand ==> (d0.remove(0) + h0.push(d0[0]) + c0).to_multiset()
            == (d0 + h0 + c0).to_multiset(),
        !to_hand ==> (d0.remove(0) + h0 + c0.push(d0[0])).to_multiset()
            == (d0 + h0 + c0).to_multiset(),
{
    broadcast use vstd::seq_lib::lemma_multiset_commutative;
    broadcast use vstd::seq_lib::group_to_multiset_ensures;
    broadcast use vstd::multiset::group_multiset_axioms;
    let x = d0[0];
    assert(d0.remove(0).to_multiset() =~= d0.to_multiset().remove(x));
    assert(h0.push(x).to_multiset() =~= h0.to_multiset().insert(x));
    assert(c0.push(x).to_multiset() =~= c0.to_multiset().insert(x));
    assert(d0.contains(x));
    assert(d0.to_multiset().count(x) > 0);
    if to_hand {
        assert((d0.remove(0) + h0.push(x) + c0).to_multiset() =~= (d0 + h0 + c0).to_multiset());
    } else {
        assert((d0.remove(0) + h0 + c0.push(x)).to_multiset() =~= (d0 + h0 + c0).to_multiset());
    }
}

/// Folding the discard pile into the draw pile conserves the pool indices.
proof fn lemma_refill_conserves(d0: Seq<usize>, h0: Seq<usize>, c0: Seq<usize>)
    ensures
        ((d0 + c0) + h0 + Seq::<usize>::empty()).to_multiset() == (d0 + h0 + c0).to_multiset(),
{
    broadcast use vstd::seq_lib::lemma_multiset_commutative;
    broadcast use vstd::seq_lib::group_to_multiset_ensures;
    broadcast use vstd::multiset::group_multiset_axioms;
    assert forall|x: usize| #[trigger] Seq::<usize>::empty().to_multiset().count(x) == 0 by {
        assert(!Seq::<usize>::empty().contains(x));
    }
    assert(((d0 + c0) + h0 + Seq::<usize>::empty()).to_multiset()
        =~= (d0 + h0 + c0).to_multiset());
}

/// Drawing: refill (and shuffle) the draw pile from the discard pile when
/// it runs out, stop early when both are empty, and route overdraw past a
/// full hand to the discard pile. The pool indices across the three piles
/// are conserved with multiplicity, and the hand grows to exactly the
/// smallest of: its old size plus the count, the hand cap, and everything
/// available. Only the combat piles and the random stream change.
pub open spec fn spec_card_draw_post(s0: GameState, s1: GameState, count: u8, r: EffectResult) -> bool {
    &&& r.is_empty()
    &&& s1 == (GameState {
        draw_pile: s1.draw_pile,
        hand: s1.hand,
        discard_pile: s1.discard_pile,
        rng: s1.rng,
        ..s0
    })
    &&& (s1.draw_pile@ + s1.hand@ + s1.discard_pile@).to_multiset()
        == (s0.draw_pile@ + s0.hand@ + s0.discard_pile@).to_multiset()
    &&& s1.hand@.len() == spec_min3(
        s0.hand@.len() + count,
        if s0.hand@.len() > MAX_SIZE_HAND {
            s0.hand@.len() as int
        } else {
            MAX_SIZE_HAND as int
        },
        s0.hand@.len() + s0.draw_pile@.len() + s0.discard_pile@.len() as int,
    )
}

#[verifier::rlimit(100)]
fn process_card_draw(state: &mut GameState, count: u8) -> (r: EffectResult)
    requires
        old(state).wf(),
    ensures
        final(state).wf(),
        spec_card_draw_post(*old(state), *final(state), count, r),
{
    let ghost cap: int = if old(state).hand@.len() > MAX_SIZE_HAND {
        old(state).hand@.len() as int
    } else {
        MAX_SIZE_HAND as int
    };
    let ghost total: int = old(state).hand@.len() + old(state).draw_pile@.len()
        + old(state).discard_pile@.len() as int;

    let mut k: u8 = 0;
    while k < count
        invariant
            state.wf(),
            k <= count,
            *state == (GameState {
                draw_pile: state.draw_pile,
                hand: state.hand,
                discard_pile: state.discard_pile,
                rng: state.rng,
                ..*old(state)
            }),
            cap == (if old(state).hand@.len() > MAX_SIZE_HAND {
                old(state).hand@.len() as int
            } else {
                MAX_SIZE_HAND as int
            }),
            total == old(state).hand@.len() + old(state).draw_pile@.len()
                + old(state).discard_pile@.len(),
            (state.draw_pile@ + state.hand@ + state.discard_pile@).to_multiset()
                == (old(state).draw_pile@ + old(state).hand@
                    + old(state).discard_pile@).to_multiset(),
            state.hand@.len() + state.draw_pile@.len() + state.discard_pile@.len() == total,
            state.hand@.len() == spec_min3(old(state).hand@.len() + k, cap, total),
        decreases count - k,
    {
        if state.draw_pile.len() == 0 {
            // Shuffle the discard pile back in.
            let ghost pre = *state;
            state.draw_pile.append(&mut state.discard_pile);
            proof {
                lemma_refill_conserves(pre.draw_pile@, pre.hand@, pre.discard_pile@);
                assert(state.draw_pile@ == pre.draw_pile@ + pre.discard_pile@);
                assert(state.discard_pile@ =~= Seq::<usize>::empty());
            }
            let ghost mid = *state;
            shuffle_indices(&mut state.draw_pile, &mut state.rng);
            proof {
                broadcast use vstd::seq_lib::lemma_multiset_commutative;
                broadcast use vstd::multiset::group_multiset_axioms;
                assert((state.draw_pile@ + state.hand@ + state.discard_pile@).to_multiset()
                    =~= (mid.draw_pile@ + mid.hand@ + mid.discard_pile@).to_multiset());
                assert forall|j2: int| 0 <= j2 < state.draw_pile@.len()
                    implies #[trigger] state.draw_pile@[j2] < state.combat_cards@.len() by {
                    assert(mid.draw_pile@.contains(state.draw_pile@[j2]));
                    let w = choose|w: int| 0 <= w < mid.draw_pile@.len()
                        && mid.draw_pile@[w] == state.draw_pile@[j2];
                }
            }
        }

        if state.draw_pile.len() == 0 {
            // Both piles ran dry: everything is in the hand, and drawing
            // simply stops early.
            proof {
                assert(state.hand@.len() == total);
            }
            return EffectResult::empty();
        }

        let ghost pre = *state;
        let card_idx = state.draw_pile.remove(0);
        if state.hand.len() < MAX_SIZE_HAND {
            state.hand.push(card_idx);
            proof {
                lemma_draw_moves_front(pre.draw_pile@, pre.hand@, pre.discard_pile@, true);
            }
        } else {
            state.discard_pile.push(card_idx);
            proof {
                lemma_draw_moves_front(pre.draw_pile@, pre.hand@, pre.discard_pile@, false);
            }
        }
        k = k + 1;
    }
    EffectResult::empty()
}

/// Fresh shiv cards enter the combat pool and go to the hand (or, past a
/// full hand, to the discard pile).
pub open spec fn spec_add_shivs_post(s0: GameState, s1: GameState, count: u8, r: EffectResult) -> bool {
    &&& r.is_empty()
    &&& s1 == (GameState {
        combat_cards: s1.combat_cards,
        hand: s1.hand,
        discard_pile: s1.discard_pile,
        ..s0
    })
    &&& s1.combat_cards@.len() == s0.combat_cards@.len() + count
    &&& forall|j: int| 0 <= j < s0.combat_cards@.len()
        ==> s1.combat_cards@[j] == s0.combat_cards@[j]
    &&& forall|j: int| s0.combat_cards@.len() <= j < s1.combat_cards@.len() ==> {
        &&& (#[trigger] s1.combat_cards@[j]).name == CardName::Shiv
        &&& !s1.combat_cards@[j].upgraded
    }
}

fn process_add_shivs(state: &mut GameState, count: u8) -> (r: EffectResult)
    requires
        old(state).wf(),
    ensures
        final(state).wf(),
        spec_add_shivs_post(*old(state), *final(state), count, r),
{
    let mut k: u8 = 0;
    while k < count
        invariant
            state.wf(),
            k <= count,
            *state == (GameState {
                combat_cards: state.combat_cards,
                hand: state.hand,
                discard_pile: state.discard_pile,
                ..*old(state)
            }),
            state.combat_cards@.len() == old(state).combat_cards@.len() + k,
            forall|j: int| 0 <= j < old(state).combat_cards@.len()
                ==> state.combat_cards@[j] == old(state).combat_cards@[j],
            forall|j: int| old(state).combat_cards@.len() <= j < state.combat_cards@.len() ==> {
                &&& (#[trigger] state.combat_cards@[j]).name == CardName::Shiv
                &&& !state.combat_cards@[j].upgraded
            },
        decreases count - k,
    {
        let shiv = get_card(CardName::Shiv, false);
        let idx = state.combat_cards.len();
        state.combat_cards.push(shiv);
        if state.hand.len() < MAX_SIZE_HAND {
            state.hand.push(idx);
        } else {
            state.discard_pile.push(idx);
        }
        k = k + 1;
    }
    EffectResult::empty()
}

/// Damage to every monster from the thousand-cuts trigger, in list order.
pub open spec fn spec_thousand_cuts_effects(n: int, stacks: i16) -> Seq<Effect> {
    Seq::new(n as nat, |i: int| Effect::DamagePhysical {
        source: ActorId::Character,
        target: ActorId::Monster(i as u8),
        base: stacks as u16,
    })
}

/// Retaliation from every sharp-hide monster among the first `k`, in list
/// order.
pub open spec fn spec_sharp_hide_effects(ms: Seq<Monster>, k: int) -> Seq<Effect>
    decreases k,
{
    if k <= 0 {
        Seq::<Effect>::empty()
    } else {
        spec_sharp_hide_effects(ms, k - 1)
            + if ms[k - 1].vitals.modifiers.spec_has(ModifierKind::SharpHide) {
                seq![Effect::DamageDeal {
                    target: ActorId::Character,
                    amount: ms[k - 1].vitals.modifiers.spec_stacks(ModifierKind::SharpHide) as u16,
                }]
            } else {
                Seq::<Effect>::empty()
            }
    }
}

/// The full effect batch of playing one card: pay its cost; dispose of it
/// (exhaust, leave play as a power, or discard); after-image block and
/// thousand-cuts damage for each played card; sharp-hide retaliation for an
/// attack; the card's own instantiated templates; and, under burst, a
/// skill's templates once more at the price of one burst stack.
pub open spec fn spec_card_play_effects(s: GameState, card_idx: usize) -> Seq<Effect> {
    let c = s.combat_cards@[card_idx as int];
    let cmods = s.character.vitals.modifiers;
    let disposal: Effect = if c.exhaust {
        Effect::CardExhaust { card_idx }
    } else if c.kind == CardType::Power {
        Effect::CardRemove { card_idx }
    } else {
        Effect::CardDiscard { card_idx }
    };
    seq![Effect::EnergyLoss { amount: c.cost }, disposal]
        + (if cmods.spec_has(ModifierKind::AfterImage) {
            seq![Effect::BlockGain {
                target: ActorId::Character,
                amount: cmods.spec_stacks(ModifierKind::AfterImage) as u16,
                from_card: false,
            }]
        } else {
            Seq::<Effect>::empty()
        })
        + (if cmods.spec_has(ModifierKind::ThousandCuts) {
            spec_thousand_cuts_effects(
                s.monsters@.len() as int,
                cmods.spec_stacks(ModifierKind::ThousandCuts),
            )
        } else {
            Seq::<Effect>::empty()
        })
        + (if c.kind == CardType::Attack {
            spec_sharp_hide_effects(s.monsters@, s.monsters@.len() as int)
        } else {
            Seq::<Effect>::empty()
        })
        + spec_instantiate(c.effects@, ActorId::Character, s)
        + (if cmods.spec_has(ModifierKind::Burst) && c.kind == CardType::Skill {
            spec_instantiate(c.effects@, ActorId::Character, s) + seq![Effect::ModifierGain {
                target: ActorId::Character,
                kind: ModifierKind::Burst,
                stacks: -1i16,
            }]
        } else {
            Seq::<Effect>::empty()
        })
}

pub open spec fn spec_card_play_post(
    s0: GameState,
    s1: GameState,
    card_idx: usize,
    r: EffectResult,
) -> bool {
    &&& s1 == s0
    &&& !r.halt && !r.pause
    &&& r.push_bot@ =~= Seq::<Effect>::empty()
    &&& if (card_idx as int) >= s0.combat_cards@.len() {
        r.push_top@ =~= Seq::<Effect>::empty()
    } else {
        r.push_top@ =~= spec_card_play_effects(s0, card_idx)
    }
}

#[verifier::rlimit(80)]
fn process_card_play(state: &mut GameState, card_idx: usize) -> (r: EffectResult)
    requires
        old(state).wf(),
    ensures
        final(state).wf(),
        spec_card_play_post(*old(state), *final(state), card_idx, r),
{
    if card_idx >= state.combat_cards.len() {
        return EffectResult::empty();
    }
    let mut effects: Vec<Effect> = Vec::new();

    // Pay the cost.
    effects.push(Effect::EnergyLoss { amount: state.combat_cards[card_idx].cost });

    // Dispose of the card.
    if state.combat_cards[card_idx].exhaust {
        effects.push(Effect::CardExhaust { card_idx });
    } else if matches!(state.combat_cards[card_idx].kind, CardType::Power) {
        effects.push(Effect::CardRemove { card_idx });
    } else {
        effects.push(Effect::CardDiscard { card_idx });
    }

    // After image: block for every played card.
    let cmods = &state.character.vitals.modifiers;
    if modifier_has(cmods, ModifierKind::AfterImage) {
        let stacks = modifier_stacks(cmods, ModifierKind::AfterImage);
        effects.push(Effect::BlockGain {
            target: ActorId::Character,
            amount: stacks as u16,
            from_card: false,
        });
    }

    // Thousand cuts: damage to every monster for every played card.
    let ghost before_tc = effects@;
    if modifier_has(&state.character.vitals.modifiers, ModifierKind::ThousandCuts) {
        let stacks = modifier_stacks(&state.character.vitals.modifiers, ModifierKind::ThousandCuts);
        let n = state.monsters.len();
        let mut i: usize = 0;
        while i < n
            invariant
                i <= n,
                effects@ =~= before_tc + spec_thousand_cuts_effects(i as int, stacks),
            decreases n - i,
        {
            effects.push(Effect::DamagePhysical {
                source: ActorId::Character,
                target: ActorId::Monster(i as u8),
                base: stacks as u16,
            });
            proof {
                assert(effects@ =~= before_tc + spec_thousand_cuts_effects(i + 1, stacks));
            }
            i = i + 1;
        }
    }

    // Sharp hide: each such monster retaliates against an attack.
    let ghost before_sh = effects@;
    if matches!(state.combat_cards[card_idx].kind, CardType::Attack) {
        let n = state.monsters.len();
        let mut i: usize = 0;
        while i < n
            invariant
                i <= n,
                n == state.monsters@.len(),
                state.wf(),
                effects@ =~= before_sh + spec_sharp_hide_effects(state.monsters@, i as int),
            decreases n - i,
        {
            let mods = &state.monsters[i].vitals.modifiers;
            if modifier_has(mods, ModifierKind::SharpHide) {
                let stacks = modifier_stacks(mods, ModifierKind::SharpHide);
                effects.push(Effect::DamageDeal {
                    target: ActorId::Character,
                    amount: stacks as u16,
                });
            }
            proof {
                assert(effects@ =~= before_sh
                    + spec_sharp_hide_effects(state.monsters@, i + 1));
            }
            i = i + 1;
        }
    }

    // The card's own effects.
    let card_effects = instantiate_templates(&{
        let c = &state.combat_cards[card_idx];
        card_dup(c)
    }.effects, ActorId::Character, state);
    let ghost before_own = effects@;
    let mut ce = card_effects;
    effects.append(&mut ce);

    // Burst: a skill's effects fire twice, consuming one stack.
    if modifier_has(&state.character.vitals.modifiers, ModifierKind::Burst)
        && matches!(state.combat_cards[card_idx].kind, CardType::Skill) {
        let extra = instantiate_templates(&{
            let c = &state.combat_cards[card_idx];
            card_dup(c)
        }.effects, ActorId::Character, state);
        let mut ex = extra;
        effects.append(&mut ex);
        effects.push(Effect::ModifierGain {
            target: ActorId::Character,
            kind: ModifierKind::Burst,
            stacks: -1,
        });
    }

    proof {
        assert(effects@ =~= spec_card_play_effects(*state, card_idx));
    }
    EffectResult::top(effects)
}


// ---------------------------------------------------------------------------
// Handlers: card rewards
// ---------------------------------------------------------------------------

pub const CHANCE_RARE: i64 = 3;
pub const CHANCE_UNCOMMON: i64 = 40;
pub const CARD_REWARD_ROLL_OFFSET_BASE: i8 = 5;
pub const CARD_REWARD_ROLL_OFFSET_MIN: i8 = -40;

fn vec_contains_name(v: &Vec<CardName>, x: CardName) -> (r: bool)
    ensures
        r == v@.contains(x),
{
    let mut i: usize = 0;
    while i < v.len()
        invariant
            i <= v@.len(),
            forall|j: int| 0 <= j < i ==> v@[j] != x,
        decreases v@.len() - i,
    {
        if v[i] == x {
            proof {
                assert(v@.contains(x));
            }
            return true;
        }
        i = i + 1;
    }
    proof {
        assert(!v@.contains(x)) by {
            if v@.contains(x) {
                let j = choose|j: int| 0 <= j < v@.len() && v@[j] == x;
                assert(v@[j] != x);
            }
        }
    }
    false
}

/// Pool entries not yet rolled: exactly those pool members absent from
/// `rolled`, each at least once.
fn pool_candidates(pool: &Vec<CardName>, rolled: &Vec<CardName>) -> (r: Vec<CardName>)
    ensures
        forall|k: int| 0 <= k < r@.len()
            ==> pool@.contains(#[trigger] r@[k]) && !rolled@.contains(r@[k]),
        forall|j: int| 0 <= j < pool@.len() && !rolled@.contains(#[trigger] pool@[j])
            ==> r@.contains(pool@[j]),
{
    let mut out: Vec<CardName> = Vec::new();
    let mut i: usize = 0;
    while i < pool.len()
        invariant
            i <= pool@.len(),
            forall|k: int| 0 <= k < out@.len()
                ==> pool@.contains(#[trigger] out@[k]) && !rolled@.contains(out@[k]),
            forall|j: int| 0 <= j < i && !rolled@.contains(#[trigger] pool@[j])
                ==> out@.contains(pool@[j]),
        decreases pool@.len() - i,
    {
        if !vec_contains_name(rolled, pool[i]) {
            proof {
                assert(pool@.contains(pool@[i as int]));
            }
            let ghost out0 = out@;
            out.push(pool[i]);
            proof {
                assert(out@[out0.len() as int] == pool@[i as int]);
                assert forall|j: int| 0 <= j < i + 1 && !rolled@.contains(#[trigger] pool@[j])
                    implies out@.contains(pool@[j]) by {
                    if j < i {
                        let w = choose|w: int| 0 <= w < out0.len() && out0[w] == pool@[j];
                        assert(out@[w] == pool@[j]);
                    } else {
                        assert(out@[out0.len() as int] == pool@[j]);
                    }
                }
            }
        }
        i = i + 1;
    }
    out
}

/// Two names already rolled cannot cover three pairwise-distinct pool
/// heads, so some candidate always remains.
proof fn lemma_candidates_remain(pool: Seq<CardName>, rolled: Seq<CardName>)
    requires
        pool.len() >= 3,
        pool[0] != pool[1] && pool[0] != pool[2] && pool[1] != pool[2],
        rolled.len() <= 2,
    ensures
        exists|j: int| 0 <= j < pool.len() && !rolled.contains(#[trigger] pool[j]),
{
    if rolled.contains(pool[0]) && rolled.contains(pool[1]) && rolled.contains(pool[2]) {
        let i0 = choose|i: int| 0 <= i < rolled.len() && rolled[i] == pool[0];
        let i1 = choose|i: int| 0 <= i < rolled.len() && rolled[i] == pool[1];
        let i2 = choose|i: int| 0 <= i < rolled.len() && rolled[i] == pool[2];
        assert(i0 == i1 || i0 == i2 || i1 == i2);
        assert(false);
    }
}



pub open spec fn spec_in_reward_pools(n: CardName) -> bool {
    ||| spec_reward_pool_common().contains(n)
    ||| spec_reward_pool_uncommon().contains(n)
    ||| spec_reward_pool_rare().contains(n)
}

/// The rarity pool a pity-adjusted roll total selects.
pub open spec fn spec_pool_for(total: int) -> Seq<CardName> {
    if total < CHANCE_RARE {
        spec_reward_pool_rare()
    } else if total < CHANCE_UNCOMMON {
        spec_reward_pool_uncommon()
    } else {
        spec_reward_pool_common()
    }
}

/// The pity offset after such a roll: reset to its base on a rare hit,
/// untouched on an uncommon one, decremented with a floor on a common one.
pub open spec fn spec_offset_after(offset: i8, total: int) -> i8 {
    if total < CHANCE_RARE {
        CARD_REWARD_ROLL_OFFSET_BASE
    } else if total < CHANCE_UNCOMMON {
        offset
    } else if offset - 1 < CARD_REWARD_ROLL_OFFSET_MIN {
        CARD_REWARD_ROLL_OFFSET_MIN
    } else {
        (offset - 1) as i8
    }
}

/// A raw roll against a pity offset can draw `name`: the name sits in the
/// pool the adjusted total selects.
pub open spec fn spec_roll_picks(roll: i64, offset: i8, name: CardName) -> bool {
    spec_pool_for(roll + offset).contains(name)
}

/// `c` is the catalog card `(name, upgraded)`.
pub open spec fn spec_is_card(c: Card, name: CardName, upgraded: bool) -> bool {
    &&& c.name == name
    &&& c.kind == card_kind(name)
    &&& c.color == crate::card::card_color(name)
    &&& c.rarity == crate::card::card_rarity(name)
    &&& c.cost == card_cost(name, upgraded)
    &&& c.upgraded == upgraded
    &&& c.exhaust == card_exhaust(name, upgraded)
    &&& c.innate == card_innate(name, upgraded)
    &&& c.effects@ == crate::card::card_effects(name, upgraded)
}

/// One reward roll: a uniform raw roll in [0, 98], plus the pity offset,
/// selects the rarity pool and updates the offset; a not-yet-rolled pool
/// name is drawn and its unupgraded card joins the rewards.
pub open spec fn spec_reward_roll_step(
    offset0: i8,
    rolled0: Seq<CardName>,
    rewards0: Seq<Card>,
    offset1: i8,
    rolled1: Seq<CardName>,
    rewards1: Seq<Card>,
) -> bool {
    exists|roll: i64, name: CardName| {
        &&& 0 <= roll <= 98
        &&& #[trigger] spec_roll_picks(roll, offset0, name)
        &&& offset1 == spec_offset_after(offset0, roll + offset0)
        &&& !rolled0.contains(name)
        &&& rolled1 == rolled0.push(name)
        &&& rewards1.len() == rewards0.len() + 1
        &&& (forall|j: int| 0 <= j < rewards0.len() ==> rewards1[j] == rewards0[j])
        &&& spec_is_card(rewards1[rewards0.len() as int], name, false)
    }
}

/// Rolling combat rewards: exactly three unupgraded cards with
/// pairwise-distinct names, each drawn by one reward roll in sequence (the
/// pools are wide enough that three distinct names always exist), then a
/// pause awaiting the choice.
pub open spec fn spec_card_reward_roll_post(s0: GameState, s1: GameState, r: EffectResult) -> bool {
    &&& !r.halt && !r.pause
    &&& r.push_top@ =~= Seq::<Effect>::empty()
    &&& r.push_bot@ =~= seq![Effect::AwaitCardReward]
    &&& s1 == (GameState { card_rewards: s1.card_rewards, character: s1.character, rng: s1.rng, ..s0 })
    &&& s1.character.vitals == s0.character.vitals
    &&& s1.card_rewards@.len() == MAX_COMBAT_CARD_REWARD
    &&& forall|j: int| 0 <= j < s1.card_rewards@.len() ==> {
        &&& !(#[trigger] s1.card_rewards@[j]).upgraded
        &&& spec_in_reward_pools(s1.card_rewards@[j].name)
        &&& forall|k: int| 0 <= k < j ==> s1.card_rewards@[k].name != s1.card_rewards@[j].name
    }
    &&& exists|o1: i8, o2: i8, n1: Seq<CardName>, n2: Seq<CardName>, n3: Seq<CardName>,
        w1: Seq<Card>, w2: Seq<Card>| {
        &&& #[trigger] spec_reward_roll_step(
            s0.character.reward_roll_offset,
            Seq::<CardName>::empty(),
            Seq::<Card>::empty(),
            o1,
            n1,
            w1,
        )
        &&& #[trigger] spec_reward_roll_step(o1, n1, w1, o2, n2, w2)
        &&& #[trigger] spec_reward_roll_step(
            o2,
            n2,
            w2,
            s1.character.reward_roll_offset,
            n3,
            s1.card_rewards@,
        )
    }
}

/// The first three entries of every reward pool are pairwise distinct.
proof fn lemma_pool_heads_distinct()
    ensures
        spec_reward_pool_rare().len() >= 3,
        spec_reward_pool_uncommon().len() >= 3,
        spec_reward_pool_common().len() >= 3,
        spec_reward_pool_rare()[0] != spec_reward_pool_rare()[1],
        spec_reward_pool_rare()[0] != spec_reward_pool_rare()[2],
        spec_reward_pool_rare()[1] != spec_reward_pool_rare()[2],
        spec_reward_pool_uncommon()[0] != spec_reward_pool_uncommon()[1],
        spec_reward_pool_uncommon()[0] != spec_reward_pool_uncommon()[2],
        spec_reward_pool_uncommon()[1] != spec_reward_pool_uncommon()[2],
        spec_reward_pool_common()[0] != spec_reward_pool_common()[1],
        spec_reward_pool_common()[0] != spec_reward_pool_common()[2],
        spec_reward_pool_common()[1] != spec_reward_pool_common()[2],
{
}

/// Perform one reward roll: draw, select the pool, update the pity offset,
/// and record the drawn name and its card.
fn roll_one_reward(state: &mut GameState, rolled: &mut Vec<CardName>)
    requires
        old(state).wf(),
        old(rolled)@.len() <= 2,
    ensures
        final(state).wf(),
        *final(state) == (GameState {
            card_rewards: final(state).card_rewards,
            character: final(state).character,
            rng: final(state).rng,
            ..*old(state)
        }),
        final(state).character.vitals == old(state).character.vitals,
        spec_reward_roll_step(
            old(state).character.reward_roll_offset,
            old(rolled)@,
            old(state).card_rewards@,
            final(state).character.reward_roll_offset,
            final(rolled)@,
            final(state).card_rewards@,
        ),
{
    let roll: i64 = crate::rng::rng_range(&mut state.rng, 0, 98);
    let ghost offset0 = state.character.reward_roll_offset;
    let total: i64 = roll + state.character.reward_roll_offset as i64;

    let pool: Vec<CardName> = if total < CHANCE_RARE {
        state.character.reward_roll_offset = CARD_REWARD_ROLL_OFFSET_BASE;
        reward_pool_rare()
    } else if total < CHANCE_UNCOMMON {
        reward_pool_uncommon()
    } else {
        let dec: i16 = state.character.reward_roll_offset as i16 - 1;
        state.character.reward_roll_offset = if dec < CARD_REWARD_ROLL_OFFSET_MIN as i16 {
            CARD_REWARD_ROLL_OFFSET_MIN
        } else {
            dec as i8
        };
        reward_pool_common()
    };
    proof {
        assert(pool@ == spec_pool_for(total as int));
        assert(state.character.reward_roll_offset == spec_offset_after(offset0, total as int));
        lemma_pool_heads_distinct();
        lemma_candidates_remain(pool@, rolled@);
    }

    let candidates = pool_candidates(&pool, rolled);
    proof {
        let j = choose|j: int| 0 <= j < pool@.len() && !rolled@.contains(#[trigger] pool@[j]);
        assert(candidates@.contains(pool@[j]));
        assert(candidates@.len() > 0);
    }
    let pick = crate::rng::rng_index(&mut state.rng, candidates.len());
    let name = candidates[pick];
    rolled.push(name);
    state.card_rewards.push(get_card(name, false));
    proof {
        assert(pool@.contains(name));
        assert(spec_roll_picks(roll, offset0, name));
    }
}

fn process_card_reward_roll(state: &mut GameState) -> (r: EffectResult)
    requires
        old(state).wf(),
    ensures
        final(state).wf(),
        spec_card_reward_roll_post(*old(state), *final(state), r),
{
    state.card_rewards.clear();
    let mut rolled: Vec<CardName> = Vec::new();
    proof {
        assert(rolled@ =~= Seq::<CardName>::empty());
        assert(state.card_rewards@ =~= Seq::<Card>::empty());
    }

    roll_one_reward(state, &mut rolled);
    let ghost o1 = state.character.reward_roll_offset;
    let ghost n1 = rolled@;
    let ghost w1 = state.card_rewards@;

    roll_one_reward(state, &mut rolled);
    let ghost o2 = state.character.reward_roll_offset;
    let ghost n2 = rolled@;
    let ghost w2 = state.card_rewards@;

    roll_one_reward(state, &mut rolled);

    proof {
        let (r1, m1) = choose|roll: i64, name: CardName| {
            &&& 0 <= roll <= 98
            &&& #[trigger] spec_roll_picks(roll, old(state).character.reward_roll_offset, name)
            &&& o1 == spec_offset_after(
                old(state).character.reward_roll_offset,
                roll + old(state).character.reward_roll_offset,
            )
            &&& !Seq::<CardName>::empty().contains(name)
            &&& n1 == Seq::<CardName>::empty().push(name)
            &&& w1.len() == 1
            &&& spec_is_card(w1[0], name, false)
        };
        let (r2, m2) = choose|roll: i64, name: CardName| {
            &&& 0 <= roll <= 98
            &&& #[trigger] spec_roll_picks(roll, o1, name)
            &&& o2 == spec_offset_after(o1, roll + o1)
            &&& !n1.contains(name)
            &&& n2 == n1.push(name)
            &&& w2.len() == w1.len() + 1
            &&& (forall|j: int| 0 <= j < w1.len() ==> w2[j] == w1[j])
            &&& spec_is_card(w2[w1.len() as int], name, false)
        };
        let (r3, m3) = choose|roll: i64, name: CardName| {
            &&& 0 <= roll <= 98
            &&& #[trigger] spec_roll_picks(roll, o2, name)
            &&& state.character.reward_roll_offset == spec_offset_after(o2, roll + o2)
            &&& !n2.contains(name)
            &&& rolled@ == n2.push(name)
            &&& state.card_rewards@.len() == w2.len() + 1
            &&& (forall|j: int| 0 <= j < w2.len() ==> state.card_rewards@[j] == w2[j])
            &&& spec_is_card(state.card_rewards@[w2.len() as int], name, false)
        };
        assert(state.card_rewards@[0] == w1[0] && state.card_rewards@[1] == w2[1]);
        assert(state.card_rewards@[0].name == m1);
        assert(state.card_rewards@[1].name == m2);
        assert(state.card_rewards@[2].name == m3);
        assert(n1[0] == m1);
        assert(n2[0] == m1 && n2[1] == m2);
        assert(spec_in_reward_pools(m1)) by {
            assert(spec_pool_for(r1 + old(state).character.reward_roll_offset).contains(m1));
        }
        assert(spec_in_reward_pools(m2)) by {
            assert(spec_pool_for(r2 + o1).contains(m2));
        }
        assert(spec_in_reward_pools(m3)) by {
            assert(spec_pool_for(r3 + o2).contains(m3));
        }
        assert(m1 != m2) by {
            if m1 == m2 {
                assert(n1.contains(m2)) by {
                    assert(n1[0] == m2);
                }
            }
        }
        assert(m1 != m3) by {
            if m1 == m3 {
                assert(n2.contains(m3)) by {
                    assert(n2[0] == m3);
                }
            }
        }
        assert(m2 != m3) by {
            if m2 == m3 {
                assert(n2.contains(m3)) by {
                    assert(n2[1] == m3);
                }
            }
        }
    }

    let mut bot: Vec<Effect> = Vec::new();
    bot.push(Effect::AwaitCardReward);
    EffectResult::bot(bot)
}


// ---------------------------------------------------------------------------
// Handlers: lifecycle
// ---------------------------------------------------------------------------

/// The first `k` draw-pile entries are exactly the innate cards: innate on
/// top, nothing innate below.
pub open spec fn spec_innate_on_top(s: GameState, k: int) -> bool {
    &&& 0 <= k <= s.draw_pile@.len()
    &&& (forall|j: int| 0 <= j < k
        ==> s.combat_cards@[#[trigger] s.draw_pile@[j] as int].innate)
    &&& (forall|j: int| k <= j < s.draw_pile@.len()
        ==> !s.combat_cards@[#[trigger] s.draw_pile@[j] as int].innate)
}

/// Combat start: the permanent deck is copied into the combat pool; innate
/// cards go on top of the draw pile in deck order, the rest are shuffled
/// under them; the other piles and selections reset; every monster picks a
/// move and the character's first turn starts.
pub open spec fn spec_combat_start_post(s0: GameState, s1: GameState, r: EffectResult) -> bool {
    &&& !r.halt && !r.pause
    &&& r.push_bot@ =~= Seq::<Effect>::empty()
    &&& r.push_top@ =~= Seq::new(s0.monsters@.len(), |i: int| Effect::MonsterMoveUpdate {
        monster_idx: i as u8,
    }).push(Effect::TurnStart { actor: ActorId::Character })
    &&& s1 == (GameState {
        combat_cards: s1.combat_cards,
        draw_pile: s1.draw_pile,
        hand: s1.hand,
        discard_pile: s1.discard_pile,
        exhaust_pile: s1.exhaust_pile,
        card_active: s1.card_active,
        card_target: s1.card_target,
        rng: s1.rng,
        ..s0
    })
    &&& s1.combat_cards@.len() == s0.deck@.len()
    &&& forall|j: int| 0 <= j < s0.deck@.len()
        ==> (#[trigger] s1.combat_cards@[j]).same_card(s0.deck@[j])
    &&& s1.draw_pile@.len() == s0.deck@.len()
    &&& s1.draw_pile@.to_multiset() == Seq::new(s0.deck@.len(), |i: int| i as usize).to_multiset()
    &&& exists|k: int| #[trigger] spec_innate_on_top(s1, k)
    &&& s1.hand@ =~= Seq::<usize>::empty()
    &&& s1.discard_pile@ =~= Seq::<usize>::empty()
    &&& s1.exhaust_pile@ =~= Seq::<usize>::empty()
    &&& s1.card_active is None
    &&& s1.card_target is None
}

#[verifier::rlimit(80)]
fn process_combat_start(state: &mut GameState) -> (r: EffectResult)
    requires
        old(state).wf(),
    ensures
        final(state).wf(),
        spec_combat_start_post(*old(state), *final(state), r),
{
    // Copy the permanent deck into the combat pool.
    let mut pool: Vec<Card> = Vec::new();
    let mut i: usize = 0;
    while i < state.deck.len()
        invariant
            state == old(state),
            i <= state.deck@.len(),
            pool@.len() == i,
            forall|j: int| 0 <= j < i ==> (#[trigger] pool@[j]).same_card(state.deck@[j]),
        decreases state.deck@.len() - i,
    {
        pool.push(card_dup(&state.deck[i]));
        i = i + 1;
    }
    // Reset the piles before installing the fresh pool, so every pile entry
    // keeps indexing into the pool.
    state.hand.clear();
    state.draw_pile.clear();
    state.discard_pile.clear();
    state.exhaust_pile.clear();
    state.card_active = None;
    state.card_target = None;
    let n = pool.len();
    state.combat_cards = pool;

    // Separate innate cards from the rest.
    let mut innate_indices: Vec<usize> = Vec::new();
    let mut other_indices: Vec<usize> = Vec::new();
    proof {
        assert(innate_indices@ + other_indices@ =~= Seq::<usize>::empty());
        assert(Seq::new(0nat, |i: int| i as usize) =~= Seq::<usize>::empty());
    }
    let mut j: usize = 0;
    while j < n
        invariant
            n == state.combat_cards@.len(),
            state.wf(),
            j <= n,
            innate_indices@.len() + other_indices@.len() == j,
            (innate_indices@ + other_indices@).to_multiset()
                == Seq::new(j as nat, |i: int| i as usize).to_multiset(),
            forall|k: int| 0 <= k < innate_indices@.len()
                ==> #[trigger] innate_indices@[k] < n
                    && state.combat_cards@[innate_indices@[k] as int].innate,
            forall|k: int| 0 <= k < other_indices@.len()
                ==> #[trigger] other_indices@[k] < n
                    && !state.combat_cards@[other_indices@[k] as int].innate,
        decreases n - j,
    {
        let ghost inn0 = innate_indices@;
        let ghost oth0 = other_indices@;
        if state.combat_cards[j].innate {
            innate_indices.push(j);
        } else {
            other_indices.push(j);
        }
        proof {
            broadcast use vstd::seq_lib::to_multiset_build;
            broadcast use vstd::seq_lib::lemma_multiset_commutative;
            broadcast use vstd::multiset::group_multiset_axioms;
            assert(Seq::new((j + 1) as nat, |i: int| i as usize)
                =~= Seq::new(j as nat, |i: int| i as usize).push(j));
            if state.combat_cards@[j as int].innate {
                assert((innate_indices@ + other_indices@).to_multiset()
                    =~= (inn0 + oth0).to_multiset().insert(j)) by {
                    assert(innate_indices@ == inn0.push(j));
                    assert((inn0.push(j) + oth0).to_multiset()
                        == inn0.push(j).to_multiset().add(oth0.to_multiset()));
                    assert((inn0 + oth0).to_multiset()
                        == inn0.to_multiset().add(oth0.to_multiset()));
                    assert(inn0.push(j).to_multiset() == inn0.to_multiset().insert(j));
                    assert(inn0.to_multiset().insert(j).add(oth0.to_multiset())
                        =~= inn0.to_multiset().add(oth0.to_multiset()).insert(j));
                }
            } else {
                assert((innate_indices@ + other_indices@).to_multiset()
                    =~= (inn0 + oth0).to_multiset().insert(j)) by {
                    assert(other_indices@ == oth0.push(j));
                    assert(inn0 + oth0.push(j) =~= (inn0 + oth0).push(j));
                    assert(((inn0 + oth0).push(j)).to_multiset()
                        == (inn0 + oth0).to_multiset().insert(j));
                }
            }
        }
        j = j + 1;
    }

    // Shuffle the non-innate part.
    let ghost others_pre = other_indices@;
    shuffle_indices(&mut other_indices, &mut state.rng);
    proof {
        assert forall|k: int| 0 <= k < other_indices@.len()
            implies #[trigger] other_indices@[k] < n
                && !state.combat_cards@[other_indices@[k] as int].innate by {
            assert(others_pre.contains(other_indices@[k]));
            let w = choose|w: int| 0 <= w < others_pre.len()
                && others_pre[w] == other_indices@[k];
        }
    }

    // Draw pile: innate first, then the shuffled rest.
    let ghost innate_len = innate_indices@.len();
    let ghost inn_final = innate_indices@;
    let ghost oth_final = other_indices@;
    let mut draw = innate_indices;
    draw.append(&mut other_indices);
    state.draw_pile = draw;
    proof {
        broadcast use vstd::seq_lib::lemma_multiset_commutative;
        broadcast use vstd::multiset::group_multiset_axioms;
        assert(state.draw_pile@ == inn_final + oth_final);
        assert(state.draw_pile@.to_multiset()
            =~= Seq::new(n as nat, |i: int| i as usize).to_multiset()) by {
            assert((inn_final + oth_final).to_multiset()
                == inn_final.to_multiset().add(oth_final.to_multiset()));
            assert((inn_final + others_pre).to_multiset()
                == inn_final.to_multiset().add(others_pre.to_multiset()));
        }
    }

    let mut effects: Vec<Effect> = Vec::new();
    let m = state.monsters.len();
    let mut mi: usize = 0;
    while mi < m
        invariant
            mi <= m,
            effects@.len() == mi,
            forall|k: int| 0 <= k < mi
                ==> effects@[k] == (Effect::MonsterMoveUpdate { monster_idx: k as u8 }),
        decreases m - mi,
    {
        effects.push(Effect::MonsterMoveUpdate { monster_idx: mi as u8 });
        mi = mi + 1;
    }
    effects.push(Effect::TurnStart { actor: ActorId::Character });
    proof {
        assert(effects@ =~= Seq::new(old(state).monsters@.len(), |i: int|
            Effect::MonsterMoveUpdate { monster_idx: i as u8 })
            .push(Effect::TurnStart { actor: ActorId::Character }));
        assert(state.draw_pile@.len() == old(state).deck@.len());
        assert(spec_innate_on_top(*state, innate_len as int)) by {
            assert(0 <= innate_len <= state.draw_pile@.len());
            assert(forall|j2: int| 0 <= j2 < innate_len
                ==> state.combat_cards@[#[trigger] state.draw_pile@[j2] as int].innate);
            assert(forall|j2: int| innate_len <= j2 < state.draw_pile@.len()
                ==> !state.combat_cards@[#[trigger] state.draw_pile@[j2] as int].innate);
        }
    }
    EffectResult::top(effects)
}

/// Combat end: the ephemeral combat state is discarded wholesale and the
/// character's modifiers are cleared; a beaten boss ends the game, a beaten
/// monster room queues a card-reward roll.
pub open spec fn spec_combat_end_post(s0: GameState, s1: GameState, r: EffectResult) -> bool {
    &&& !r.halt && !r.pause
    &&& s1 == (GameState {
        combat_cards: s1.combat_cards,
        draw_pile: s1.draw_pile,
        hand: s1.hand,
        discard_pile: s1.discard_pile,
        exhaust_pile: s1.exhaust_pile,
        card_active: s1.card_active,
        card_target: s1.card_target,
        character: s1.character,
        ..s0
    })
    &&& s1.combat_cards@ =~= Seq::<Card>::empty()
    &&& s1.draw_pile@ =~= Seq::<usize>::empty()
    &&& s1.hand@ =~= Seq::<usize>::empty()
    &&& s1.discard_pile@ =~= Seq::<usize>::empty()
    &&& s1.exhaust_pile@ =~= Seq::<usize>::empty()
    &&& s1.card_active is None
    &&& s1.card_target is None
    &&& s1.character.reward_roll_offset == s0.character.reward_roll_offset
    &&& s1.character.vitals.health == s0.character.vitals.health
    &&& s1.character.vitals.health_max == s0.character.vitals.health_max
    &&& s1.character.vitals.block == s0.character.vitals.block
    &&& forall|k: ModifierKind| !(#[trigger] s1.character.vitals.modifiers.spec_has(k))
    &&& match s0.map.spec_active_room_type() {
        Some(RoomType::CombatBoss) => {
            r.push_top@ =~= seq![Effect::GameEnd] && r.push_bot@ =~= Seq::<Effect>::empty()
        },
        Some(RoomType::CombatMonster) => {
            r.push_top@ =~= Seq::<Effect>::empty()
                && r.push_bot@ =~= seq![Effect::CardRewardRoll]
        },
        _ => {
            r.push_top@ =~= Seq::<Effect>::empty() && r.push_bot@ =~= Seq::<Effect>::empty()
        },
    }
}

fn process_combat_end(state: &mut GameState) -> (r: EffectResult)
    requires
        old(state).wf(),
    ensures
        final(state).wf(),
        spec_combat_end_post(*old(state), *final(state), r),
{
    state.hand.clear();
    state.draw_pile.clear();
    state.discard_pile.clear();
    state.exhaust_pile.clear();
    state.combat_cards.clear();
    state.card_active = None;
    state.card_target = None;
    crate::modifier::modifier_clear(&mut state.character.vitals.modifiers);

    match state.map.active_room_type() {
        Some(RoomType::CombatBoss) => {
            let mut effects: Vec<Effect> = Vec::new();
            effects.push(Effect::GameEnd);
            EffectResult::top(effects)
        },
        Some(RoomType::CombatMonster) => {
            let mut effects: Vec<Effect> = Vec::new();
            effects.push(Effect::CardRewardRoll);
            EffectResult::bot(effects)
        },
        // A combat cannot end in a rest site or outside a room; nothing to
        // follow up with.
        _ => EffectResult::empty(),
    }
}

/// A monster re-selects its telegraphed move: the chosen index becomes the
/// current move and joins its history.
pub open spec fn spec_monster_move_update_post(
    s0: GameState,
    s1: GameState,
    monster_idx: u8,
    r: EffectResult,
) -> bool {
    &&& r.is_empty()
    &&& if (monster_idx as int) >= s0.monsters@.len() {
        s1 == s0
    } else {
        let m0 = s0.monsters@[monster_idx as int];
        let m1 = s1.monsters@[monster_idx as int];
        &&& s1 == (GameState { monsters: s1.monsters, rng: s1.rng, ..s0 })
        &&& s1.monsters@.len() == s0.monsters@.len()
        &&& forall|j: int| 0 <= j < s0.monsters@.len() && j != monster_idx
            ==> s1.monsters@[j] == s0.monsters@[j]
        &&& m1.name == m0.name
        &&& m1.kind == m0.kind
        &&& m1.vitals == m0.vitals
        &&& m1.moves == m0.moves
        &&& m1.move_current matches Some(nx) && (nx as int) < m0.moves@.len()
            && m1.move_history@ == m0.move_history@.push(nx)
        &&& (m0.name == MonsterName::TheGuardian
            ==> m1.move_current == Some(crate::monster::spec_guardian_transition(
                m0.move_current is None,
                m0.vitals.modifiers.spec_has(ModifierKind::ModeShift),
                m0.vitals.modifiers.spec_has(ModifierKind::SharpHide),
                crate::monster::spec_last(m0),
            )))
        &&& (m0.name == MonsterName::Cultist
            ==> m1.move_current == Some(
                if m0.move_current is None {
                    crate::monster::CULT_INCANT
                } else {
                    crate::monster::CULT_DARK
                },
            ))
    }
}

fn process_monster_move_update(state: &mut GameState, monster_idx: u8) -> (r: EffectResult)
    requires
        old(state).wf(),
    ensures
        final(state).wf(),
        spec_monster_move_update_post(*old(state), *final(state), monster_idx, r),
{
    let idx = monster_idx as usize;
    if idx >= state.monsters.len() {
        return EffectResult::empty();
    }
    let next = crate::monster::select_next_move(&state.monsters[idx], state.ascension, &mut state.rng);
    let mut m = state.monsters.remove(idx);
    m.move_current = Some(next);
    m.move_history.push(next);
    state.monsters.insert(idx, m);
    proof {
        monster_update_frame(*old(state), *state, idx as int);
        assert forall|j: int| 0 <= j < state.monsters@.len()
            implies (#[trigger] state.monsters@[j]).wf() by {
            if j != idx as int {
                assert(state.monsters@[j] == old(state).monsters@[j]);
            }
        }
    }
    EffectResult::empty()
}

/// Entering a room: a boss room spawns the boss; a monster room spawns one
/// of the three fixed encounters (worm, cultist, or a fungus pair); either
/// starts combat. A rest site spawns nothing.
pub open spec fn spec_room_enter_post(s0: GameState, s1: GameState, r: EffectResult) -> bool {
    &&& !r.halt && !r.pause
    &&& r.push_bot@ =~= Seq::<Effect>::empty()
    &&& match s0.map.spec_active_room_type() {
        Some(RoomType::CombatBoss) => {
            &&& s1 == (GameState { monsters: s1.monsters, rng: s1.rng, ..s0 })
            &&& s1.monsters@.len() == 1
            &&& crate::monster::spec_fresh(
                s1.monsters@[0],
                MonsterName::TheGuardian,
                crate::types::MonsterKind::Boss,
            )
            &&& crate::monster::spec_hp_in_range(s1.monsters@[0], s0.ascension)
            &&& s1.monsters@[0].vitals.modifiers.spec_has(ModifierKind::ModeShift)
            &&& s1.monsters@[0].vitals.modifiers.spec_stacks(ModifierKind::ModeShift)
                == crate::monster::spec_mode_shift_base(s0.ascension)
            &&& !s1.monsters@[0].vitals.modifiers.spec_new(ModifierKind::ModeShift)
            &&& r.push_top@ =~= seq![Effect::CombatStart]
        },
        Some(RoomType::CombatMonster) => {
            &&& s1 == (GameState { monsters: s1.monsters, rng: s1.rng, ..s0 })
            &&& (s1.monsters@.len() == 1 || s1.monsters@.len() == 2)
            &&& (s1.monsters@.len() == 1 ==> {
                ||| crate::monster::spec_fresh(
                    s1.monsters@[0],
                    MonsterName::JawWorm,
                    crate::types::MonsterKind::Normal,
                )
                ||| crate::monster::spec_fresh(
                    s1.monsters@[0],
                    MonsterName::Cultist,
                    crate::types::MonsterKind::Normal,
                )
            })
            &&& (s1.monsters@.len() == 2 ==> forall|j: int| 0 <= j < 2 ==> {
                &&& crate::monster::spec_fresh(
                    #[trigger] s1.monsters@[j],
                    MonsterName::FungiBeast,
                    crate::types::MonsterKind::Normal,
                )
                &&& s1.monsters@[j].vitals.modifiers.spec_has(ModifierKind::SporeCloud)
                &&& s1.monsters@[j].vitals.modifiers.spec_stacks(ModifierKind::SporeCloud) == 2
                &&& !s1.monsters@[j].vitals.modifiers.spec_new(ModifierKind::SporeCloud)
            })
            &&& forall|j: int| 0 <= j < s1.monsters@.len()
                ==> crate::monster::spec_hp_in_range(#[trigger] s1.monsters@[j], s0.ascension)
            &&& r.push_top@ =~= seq![Effect::CombatStart]
        },
        _ => s1 == s0 && r.push_top@ =~= Seq::<Effect>::empty(),
    }
}

fn process_room_enter(state: &mut GameState) -> (r: EffectResult)
    requires
        old(state).wf(),
    ensures
        final(state).wf(),
        spec_room_enter_post(*old(state), *final(state), r),
{
    match state.map.active_room_type() {
        Some(RoomType::CombatBoss) => {
            let boss = crate::monster::spawn_monster(
                MonsterName::TheGuardian,
                state.ascension,
                &mut state.rng,
            );
            let mut ms: Vec<Monster> = Vec::new();
            ms.push(boss);
            state.monsters = ms;
            let mut effects: Vec<Effect> = Vec::new();
            effects.push(Effect::CombatStart);
            EffectResult::top(effects)
        },
        Some(RoomType::CombatMonster) => {
            let encounter = crate::rng::rng_range(&mut state.rng, 0, 2);
            let mut ms: Vec<Monster> = Vec::new();
            if encounter == 0 {
                ms.push(crate::monster::spawn_monster(
                    MonsterName::JawWorm,
                    state.ascension,
                    &mut state.rng,
                ));
            } else if encounter == 1 {
                ms.push(crate::monster::spawn_monster(
                    MonsterName::Cultist,
                    state.ascension,
                    &mut state.rng,
                ));
            } else {
                ms.push(crate::monster::spawn_monster(
                    MonsterName::FungiBeast,
                    state.ascension,
                    &mut state.rng,
                ));
                ms.push(crate::monster::spawn_monster(
                    MonsterName::FungiBeast,
                    state.ascension,
                    &mut state.rng,
                ));
            }
            state.monsters = ms;
            let mut effects: Vec<Effect> = Vec::new();
            effects.push(Effect::CombatStart);
            EffectResult::top(effects)
        },
        _ => EffectResult::empty(),
    }
}


// ---------------------------------------------------------------------------
// Handlers: turns
// ---------------------------------------------------------------------------

/// The effects a turn start yields: the new block total (kept block under
/// blur plus any banked next-turn block), a double-damage stack under
/// phantasmal, and — for the character — the draw, the single energy refill
/// back to the maximum, the decay ticks for everyone, any banked next-turn
/// energy, and infinite-blades shivs.
pub open spec fn spec_turn_start_effects(s: GameState, actor: ActorId) -> Seq<Effect> {
    let v = spec_vitals(s, actor);
    let nb = spec_clamp(
        (if v.modifiers.spec_has(ModifierKind::Blur) { v.block as int } else { 0int })
            + (if v.modifiers.spec_has(ModifierKind::NextTurnBlock) {
                v.modifiers.spec_stacks(ModifierKind::NextTurnBlock) as int
            } else {
                0int
            }),
        0,
        0xffff,
    ) as u16;
    seq![Effect::BlockSet { target: actor, amount: nb }]
        + (if v.modifiers.spec_has(ModifierKind::Phantasmal) {
            seq![Effect::ModifierGain {
                target: actor,
                kind: ModifierKind::DoubleDamage,
                stacks: 1i16,
            }]
        } else {
            Seq::<Effect>::empty()
        })
        + (if actor == ActorId::Character {
            seq![
                Effect::CardDraw { count: CARDS_DRAWN_PER_TURN },
                Effect::EnergyGain {
                    amount: (if s.energy.max >= s.energy.current {
                        s.energy.max - s.energy.current
                    } else {
                        0int
                    }) as u8,
                },
                Effect::ModifierTick { target: ActorId::Character },
            ] + Seq::new(s.monsters@.len(), |i: int| Effect::ModifierTick {
                target: ActorId::Monster(i as u8),
            })
                + (if v.modifiers.spec_has(ModifierKind::NextTurnEnergy) {
                    seq![Effect::EnergyGain {
                        amount: spec_clamp(
                            v.modifiers.spec_stacks(ModifierKind::NextTurnEnergy) as int,
                            0,
                            255,
                        ) as u8,
                    }]
                } else {
                    Seq::<Effect>::empty()
                })
                + (if v.modifiers.spec_has(ModifierKind::InfiniteBlades) {
                    seq![Effect::AddShivs {
                        count: spec_clamp(
                            v.modifiers.spec_stacks(ModifierKind::InfiniteBlades) as int,
                            0,
                            255,
                        ) as u8,
                    }]
                } else {
                    Seq::<Effect>::empty()
                })
        } else {
            Seq::<Effect>::empty()
        })
}

pub open spec fn spec_turn_start_post(
    s0: GameState,
    s1: GameState,
    actor: ActorId,
    r: EffectResult,
) -> bool {
    &&& !r.halt && !r.pause
    &&& r.push_bot@ =~= Seq::<Effect>::empty()
    &&& if !spec_actor_exists(s0, actor) {
        s1 == s0 && r.push_top@ =~= Seq::<Effect>::empty()
    } else {
        let m0 = spec_vitals(s0, actor).modifiers;
        let m1 = spec_vitals(s1, actor).modifiers;
        &&& r.push_top@ =~= spec_turn_start_effects(s0, actor)
        &&& spec_untouched_but_vitals(s0, s1, actor)
        &&& spec_vitals(s1, actor).block == spec_vitals(s0, actor).block
        &&& spec_vitals(s1, actor).health == spec_vitals(s0, actor).health
        &&& spec_vitals(s1, actor).health_max == spec_vitals(s0, actor).health_max
        &&& !m1.spec_has(ModifierKind::NextTurnBlock)
        &&& (actor == ActorId::Character ==> !m1.spec_has(ModifierKind::NextTurnEnergy))
        &&& forall|k: ModifierKind| k != ModifierKind::NextTurnBlock
            && k != ModifierKind::NextTurnEnergy ==> {
            &&& #[trigger] m1.spec_has(k) == m0.spec_has(k)
            &&& m1.spec_stacks(k) == m0.spec_stacks(k)
            &&& m1.spec_new(k) == m0.spec_new(k)
        }
        &&& (actor != ActorId::Character ==> {
            &&& m1.spec_has(ModifierKind::NextTurnEnergy)
                == m0.spec_has(ModifierKind::NextTurnEnergy)
            &&& m1.spec_stacks(ModifierKind::NextTurnEnergy)
                == m0.spec_stacks(ModifierKind::NextTurnEnergy)
            &&& m1.spec_new(ModifierKind::NextTurnEnergy)
                == m0.spec_new(ModifierKind::NextTurnEnergy)
        })
    }
}

#[verifier::rlimit(100)]
#[verifier::spinoff_prover]
fn process_turn_start(state: &mut GameState, actor: ActorId) -> (r: EffectResult)
    requires
        old(state).wf(),
    ensures
        final(state).wf(),
        spec_turn_start_post(*old(state), *final(state), actor, r),
{
    if !actor_exists(state, actor) {
        return EffectResult::empty();
    }

    // Read everything the effect list depends on first.
    let v = vitals_ref(state, actor);
    let blur = modifier_has(&v.modifiers, ModifierKind::Blur);
    let block0 = v.block;
    let ntb_has = modifier_has(&v.modifiers, ModifierKind::NextTurnBlock);
    let ntb_stacks = modifier_stacks(&v.modifiers, ModifierKind::NextTurnBlock);
    let phant = modifier_has(&v.modifiers, ModifierKind::Phantasmal);
    let nte_has = modifier_has(&v.modifiers, ModifierKind::NextTurnEnergy);
    let nte_stacks = modifier_stacks(&v.modifiers, ModifierKind::NextTurnEnergy);
    let ib_has = modifier_has(&v.modifiers, ModifierKind::InfiniteBlades);
    let ib_stacks = modifier_stacks(&v.modifiers, ModifierKind::InfiniteBlades);

    let mut effects: Vec<Effect> = Vec::new();

    // Block carries over only under blur, plus any banked next-turn block.
    let nb_wide2: i64 = (if blur { block0 as i64 } else { 0 })
        + (if ntb_has { ntb_stacks as i64 } else { 0 });
    let nb: u16 = if nb_wide2 < 0 {
        0
    } else if nb_wide2 > 0xffff {
        0xffff
    } else {
        nb_wide2 as u16
    };
    effects.push(Effect::BlockSet { target: actor, amount: nb });

    if phant {
        effects.push(Effect::ModifierGain {
            target: actor,
            kind: ModifierKind::DoubleDamage,
            stacks: 1,
        });
    }

    if matches!(actor, ActorId::Character) {
        effects.push(Effect::CardDraw { count: CARDS_DRAWN_PER_TURN });
        let gain: u8 = if state.energy.max >= state.energy.current {
            state.energy.max - state.energy.current
        } else {
            0
        };
        effects.push(Effect::EnergyGain { amount: gain });
        effects.push(Effect::ModifierTick { target: ActorId::Character });
        let ghost pre_ticks = effects@;
        let n = state.monsters.len();
        let mut i: usize = 0;
        while i < n
            invariant
                i <= n,
                effects@ =~= pre_ticks + Seq::new(i as nat, |j: int| Effect::ModifierTick {
                    target: ActorId::Monster(j as u8),
                }),
            decreases n - i,
        {
            effects.push(Effect::ModifierTick { target: ActorId::Monster(i as u8) });
            proof {
                assert(effects@ =~= pre_ticks + Seq::new((i + 1) as nat, |j: int|
                    Effect::ModifierTick { target: ActorId::Monster(j as u8) }));
            }
            i = i + 1;
        }
        if nte_has {
            let amt: u8 = if nte_stacks < 0 {
                0
            } else if nte_stacks > 255 {
                255
            } else {
                nte_stacks as u8
            };
            effects.push(Effect::EnergyGain { amount: amt });
        }
        if ib_has {
            let cnt: u8 = if ib_stacks < 0 {
                0
            } else if ib_stacks > 255 {
                255
            } else {
                ib_stacks as u8
            };
            effects.push(Effect::AddShivs { count: cnt });
        }
    }

    // Consume the banked modifiers.
    if ntb_has {
        actor_modifier_remove(state, actor, ModifierKind::NextTurnBlock);
    }
    if matches!(actor, ActorId::Character) && nte_has {
        actor_modifier_remove(state, actor, ModifierKind::NextTurnEnergy);
    }

    proof {
        let m0 = spec_vitals(*old(state), actor).modifiers;
        let m1 = spec_vitals(*state, actor).modifiers;
        assert forall|k: ModifierKind| k != ModifierKind::NextTurnBlock
            && k != ModifierKind::NextTurnEnergy implies {
            &&& #[trigger] m1.spec_has(k) == m0.spec_has(k)
            &&& m1.spec_stacks(k) == m0.spec_stacks(k)
            &&& m1.spec_new(k) == m0.spec_new(k)
        } by {
            assert(k.spec_idx() != ModifierKind::NextTurnBlock.spec_idx());
            assert(k.spec_idx() != ModifierKind::NextTurnEnergy.spec_idx());
        }
        assert(effects@ =~= spec_turn_start_effects(*old(state), actor));
    }
    EffectResult::top(effects)
}

/// One monster's turn at the end of the character's turn: its turn starts,
/// its telegraphed move's templates fire, it re-selects, and its turn ends.
pub open spec fn spec_monster_turn_effects(s: GameState, i: int) -> Seq<Effect> {
    let m = s.monsters@[i];
    seq![Effect::TurnStart { actor: ActorId::Monster(i as u8) }]
        + (match m.move_current {
            Some(mi) => spec_instantiate(
                m.moves@[mi as int].effects@,
                ActorId::Monster(i as u8),
                s,
            ),
            None => Seq::<Effect>::empty(),
        })
        + seq![
            Effect::MonsterMoveUpdate { monster_idx: i as u8 },
            Effect::TurnEnd { actor: ActorId::Monster(i as u8) },
        ]
}

pub open spec fn spec_all_monster_turns(s: GameState, k: int) -> Seq<Effect>
    decreases k,
{
    if k <= 0 {
        Seq::<Effect>::empty()
    } else {
        spec_all_monster_turns(s, k - 1) + spec_monster_turn_effects(s, k - 1)
    }
}

/// A turn end: a ritual combatant (unless the ritual is new this turn)
/// gains strength; the character's turn end further discards the hand,
/// ages every modifier, runs every monster's turn, and starts the next
/// character turn, consuming any burst.
pub open spec fn spec_turn_end_effects(s: GameState, actor: ActorId) -> Seq<Effect> {
    let v = spec_vitals(s, actor);
    let rit: Seq<Effect> = if v.modifiers.spec_has(ModifierKind::Ritual)
        && !v.modifiers.spec_new(ModifierKind::Ritual) {
        seq![Effect::ModifierGain {
            target: actor,
            kind: ModifierKind::Strength,
            stacks: v.modifiers.spec_stacks(ModifierKind::Ritual),
        }]
    } else {
        Seq::<Effect>::empty()
    };
    if actor == ActorId::Character {
        rit + seq![Effect::CardDiscardAll, Effect::ModifierSetNotNew]
            + spec_all_monster_turns(s, s.monsters@.len() as int)
            + seq![Effect::TurnStart { actor: ActorId::Character }]
    } else {
        rit
    }
}

pub open spec fn spec_turn_end_post(
    s0: GameState,
    s1: GameState,
    actor: ActorId,
    r: EffectResult,
) -> bool {
    &&& !r.halt && !r.pause
    &&& r.push_bot@ =~= Seq::<Effect>::empty()
    &&& if !spec_actor_exists(s0, actor) {
        s1 == s0 && r.push_top@ =~= Seq::<Effect>::empty()
    } else {
        let m0 = spec_vitals(s0, actor).modifiers;
        let m1 = spec_vitals(s1, actor).modifiers;
        &&& r.push_top@ =~= spec_turn_end_effects(s0, actor)
        &&& spec_untouched_but_vitals(s0, s1, actor)
        &&& spec_vitals(s1, actor).block == spec_vitals(s0, actor).block
        &&& spec_vitals(s1, actor).health == spec_vitals(s0, actor).health
        &&& spec_vitals(s1, actor).health_max == spec_vitals(s0, actor).health_max
        &&& (actor == ActorId::Character ==> !m1.spec_has(ModifierKind::Burst))
        &&& forall|k: ModifierKind| k != ModifierKind::Burst ==> {
            &&& #[trigger] m1.spec_has(k) == m0.spec_has(k)
            &&& m1.spec_stacks(k) == m0.spec_stacks(k)
            &&& m1.spec_new(k) == m0.spec_new(k)
        }
        &&& (actor != ActorId::Character ==> m1 == m0)
    }
}

#[verifier::rlimit(80)]
fn process_turn_end(state: &mut GameState, actor: ActorId) -> (r: EffectResult)
    requires
        old(state).wf(),
    ensures
        final(state).wf(),
        spec_turn_end_post(*old(state), *final(state), actor, r),
{
    if !actor_exists(state, actor) {
        return EffectResult::empty();
    }

    let mut effects: Vec<Effect> = Vec::new();

    // Ritual: gain strength, unless the ritual itself was applied this turn.
    {
        let v = vitals_ref(state, actor);
        let has_ritual = modifier_has(&v.modifiers, ModifierKind::Ritual);
        let ritual_new = v.modifiers.is_new[ModifierKind::Ritual.idx()];
        if has_ritual && !ritual_new {
            let stacks = modifier_stacks(&v.modifiers, ModifierKind::Ritual);
            effects.push(Effect::ModifierGain {
                target: actor,
                kind: ModifierKind::Strength,
                stacks,
            });
        }
    }

    if !matches!(actor, ActorId::Character) {
        proof {
            assert(effects@ =~= spec_turn_end_effects(*state, actor));
        }
        return EffectResult::top(effects);
    }

    // Character turn end: discard the hand, age modifiers, run each
    // monster's turn, then start the next character turn.
    effects.push(Effect::CardDiscardAll);
    effects.push(Effect::ModifierSetNotNew);

    let ghost pre_turns = effects@;
    let n = state.monsters.len();
    let mut i: usize = 0;
    while i < n
        invariant
            old(state).wf(),
            state == old(state),
            n == state.monsters@.len(),
            i <= n,
            effects@ =~= pre_turns + spec_all_monster_turns(*state, i as int),
        decreases n - i,
    {
        effects.push(Effect::TurnStart { actor: ActorId::Monster(i as u8) });

        if let Some(move_idx) = state.monsters[i].move_current {
            let mut move_effects = instantiate_templates(
                &state.monsters[i].moves[move_idx].effects,
                ActorId::Monster(i as u8),
                state,
            );
            effects.append(&mut move_effects);
        }

        effects.push(Effect::MonsterMoveUpdate { monster_idx: i as u8 });
        effects.push(Effect::TurnEnd { actor: ActorId::Monster(i as u8) });
        proof {
            assert(effects@ =~= pre_turns + spec_all_monster_turns(*state, i + 1));
        }
        i = i + 1;
    }

    effects.push(Effect::TurnStart { actor: ActorId::Character });

    // Burst does not outlive the turn.
    let burst = modifier_has(&state.character.vitals.modifiers, ModifierKind::Burst);
    if burst {
        actor_modifier_remove(state, actor, ModifierKind::Burst);
    }

    proof {
        let m0 = spec_vitals(*old(state), actor).modifiers;
        let m1 = spec_vitals(*state, actor).modifiers;
        assert forall|k: ModifierKind| k != ModifierKind::Burst implies {
            &&& #[trigger] m1.spec_has(k) == m0.spec_has(k)
            &&& m1.spec_stacks(k) == m0.spec_stacks(k)
            &&& m1.spec_new(k) == m0.spec_new(k)
        } by {
            assert(k.spec_idx() != ModifierKind::Burst.spec_idx());
        }
        assert(effects@ =~= spec_turn_end_effects(*old(state), actor));
    }
    EffectResult::top(effects)
}


// ---------------------------------------------------------------------------
// Top-level dispatch and the queue driver
// ---------------------------------------------------------------------------

/// What processing one effect does, by effect kind. Every runtime effect
/// kind has exactly one handler; no handler blocks or retries.
pub open spec fn spec_process_effect_post(
    s0: GameState,
    s1: GameState,
    effect: Effect,
    r: EffectResult,
) -> bool {
    match effect {
        Effect::CardDraw { count } => spec_card_draw_post(s0, s1, count, r),
        Effect::CardPlay { card_idx } => spec_card_play_post(s0, s1, card_idx, r),
        Effect::CardDiscard { card_idx } => spec_card_discard_post(s0, s1, card_idx, r),
        Effect::CardDiscardRandom => spec_card_discard_random_post(s0, s1, r),
        Effect::CardDiscardAll => spec_card_discard_all_post(s0, s1, r),
        Effect::CardExhaust { card_idx } => spec_card_exhaust_post(s0, s1, card_idx, r),
        Effect::CardRemove { card_idx } => spec_card_remove_post(s0, s1, card_idx, r),
        Effect::CardActiveSet { card_idx } => {
            &&& r.is_empty()
            &&& if (card_idx as int) < s0.combat_cards@.len() {
                s1 == (GameState { card_active: Some(card_idx), ..s0 })
            } else {
                s1 == s0
            }
        },
        Effect::CardActiveClear => {
            r.is_empty() && s1 == (GameState { card_active: None::<usize>, ..s0 })
        },
        Effect::AddShivs { count } => spec_add_shivs_post(s0, s1, count, r),
        Effect::CalculatedGamble => spec_calculated_gamble_post(s0, s1, r),
        Effect::CardUpgrade { deck_idx } => spec_card_upgrade_post(s0, s1, deck_idx, r),
        Effect::CardRewardRoll => spec_card_reward_roll_post(s0, s1, r),
        Effect::CardRewardSelect { reward_idx } => spec_card_reward_select_post(
            s0,
            s1,
            reward_idx,
            r,
        ),
        Effect::CardRewardClear => {
            &&& r.is_empty()
            &&& s1 == (GameState { card_rewards: s1.card_rewards, ..s0 })
            &&& s1.card_rewards@ =~= Seq::<Card>::empty()
        },
        Effect::TargetSet { monster_idx } => {
            r.is_empty() && s1 == (GameState { card_target: Some(monster_idx), ..s0 })
        },
        Effect::TargetClear => {
            r.is_empty() && s1 == (GameState { card_target: None::<u8>, ..s0 })
        },
        Effect::DamagePhysical { source, target, base } => spec_damage_physical_post(
            s0,
            s1,
            source,
            target,
            base,
            r,
        ),
        Effect::DamageDeal { target, amount } => spec_damage_deal_post(s0, s1, target, amount, r),
        Effect::HealthGain { target, amount } => spec_health_gain_post(s0, s1, target, amount, r),
        Effect::HealthLoss { target, amount } => spec_health_loss_post(s0, s1, target, amount, r),
        Effect::BlockGain { target, amount, from_card } => spec_block_gain_post(
            s0,
            s1,
            target,
            amount,
            from_card,
            r,
        ),
        Effect::BlockSet { target, amount } => spec_block_set_post(s0, s1, target, amount, r),
        Effect::EnergyGain { amount } => spec_energy_gain_post(s0, s1, amount, r),
        Effect::EnergyLoss { amount } => spec_energy_loss_post(s0, s1, amount, r),
        Effect::ModifierGain { target, kind, stacks } => spec_modifier_gain_post(
            s0,
            s1,
            target,
            kind,
            stacks,
            r,
        ),
        Effect::ModifierRemove { target, kind } => spec_modifier_remove_post(
            s0,
            s1,
            target,
            kind,
            r,
        ),
        Effect::ModifierTick { target } => spec_modifier_tick_post(s0, s1, target, r),
        Effect::ModifierSetNotNew => spec_set_not_new_post(s0, s1, r),
        Effect::Death { actor } => spec_death_post(s0, s1, actor, r),
        Effect::CombatStart => spec_combat_start_post(s0, s1, r),
        Effect::CombatEnd => spec_combat_end_post(s0, s1, r),
        Effect::TurnStart { actor } => spec_turn_start_post(s0, s1, actor, r),
        Effect::TurnEnd { actor } => spec_turn_end_post(s0, s1, actor, r),
        Effect::MonsterMoveUpdate { monster_idx } => spec_monster_move_update_post(
            s0,
            s1,
            monster_idx,
            r,
        ),
        Effect::RoomEnter => spec_room_enter_post(s0, s1, r),
        Effect::GameEnd => {
            &&& s1 == (GameState { effect_queue: s1.effect_queue, ..s0 })
            &&& s1.effect_queue@ == seq![Effect::GameEnd] + s0.effect_queue@
            &&& r.push_top@ =~= Seq::<Effect>::empty()
            &&& r.push_bot@ =~= Seq::<Effect>::empty()
            &&& r.halt && !r.pause
        },
        Effect::AwaitMapNode => {
            &&& s1 == (GameState { effect_queue: s1.effect_queue, ..s0 })
            &&& s1.effect_queue@ == seq![Effect::AwaitMapNode] + s0.effect_queue@
            &&& r.push_top@ =~= Seq::<Effect>::empty()
            &&& r.push_bot@ =~= Seq::<Effect>::empty()
            &&& !r.halt && r.pause
        },
        Effect::AwaitCardReward => {
            &&& s1 == (GameState { effect_queue: s1.effect_queue, ..s0 })
            &&& s1.effect_queue@ == seq![Effect::AwaitCardReward] + s0.effect_queue@
            &&& r.push_top@ =~= Seq::<Effect>::empty()
            &&& r.push_bot@ =~= Seq::<Effect>::empty()
            &&& !r.halt && r.pause
        },
        Effect::AwaitDiscard => {
            &&& s1 == (GameState { effect_queue: s1.effect_queue, ..s0 })
            &&& s1.effect_queue@ == seq![Effect::AwaitDiscard] + s0.effect_queue@
            &&& r.push_top@ =~= Seq::<Effect>::empty()
            &&& r.push_bot@ =~= Seq::<Effect>::empty()
            &&& !r.halt && r.pause
        },
    }
}

/// Consume one runtime effect: mutate the state and yield follow-up effects
/// plus the control signal. A pause or halt always leaves the raising
/// effect back at the queue head, where the state-machine derivation reads
/// it.
pub fn process_effect(state: &mut GameState, effect: Effect) -> (r: EffectResult)
    requires
        old(state).wf(),
    ensures
        final(state).wf(),
        spec_process_effect_post(*old(state), *final(state), effect, r),
        (r.pause || r.halt) ==> {
            &&& r.push_top@.len() == 0
            &&& r.push_bot@.len() == 0
            &&& final(state).effect_queue@.len() > 0
            &&& final(state).effect_queue@[0].is_wait_marker()
        },
{
    match effect {
        Effect::CardDraw { count } => process_card_draw(state, count),
        Effect::CardPlay { card_idx } => process_card_play(state, card_idx),
        Effect::CardDiscard { card_idx } => process_card_discard(state, card_idx),
        Effect::CardDiscardRandom => process_card_discard_random(state),
        Effect::CardDiscardAll => process_card_discard_all(state),
        Effect::CardExhaust { card_idx } => process_card_exhaust(state, card_idx),
        Effect::CardRemove { card_idx } => process_card_remove(state, card_idx),
        Effect::CardActiveSet { card_idx } => {
            if card_idx < state.combat_cards.len() {
                state.card_active = Some(card_idx);
            }
            EffectResult::empty()
        },
        Effect::CardActiveClear => {
            state.card_active = None;
            EffectResult::empty()
        },
        Effect::AddShivs { count } => process_add_shivs(state, count),
        Effect::CalculatedGamble => process_calculated_gamble(state),
        Effect::CardUpgrade { deck_idx } => process_card_upgrade(state, deck_idx),
        Effect::CardRewardRoll => process_card_reward_roll(state),
        Effect::CardRewardSelect { reward_idx } => process_card_reward_select(state, reward_idx),
        Effect::CardRewardClear => {
            state.card_rewards.clear();
            EffectResult::empty()
        },
        Effect::TargetSet { monster_idx } => {
            state.card_target = Some(monster_idx);
            EffectResult::empty()
        },
        Effect::TargetClear => {
            state.card_target = None;
            EffectResult::empty()
        },
        Effect::DamagePhysical { source, target, base } => process_damage_physical(
            state, source, target, base,
        ),
        Effect::DamageDeal { target, amount } => process_damage_deal(state, target, amount),
        Effect::HealthGain { target, amount } => process_health_gain(state, target, amount),
        Effect::HealthLoss { target, amount } => process_health_loss(state, target, amount),
        Effect::BlockGain { target, amount, from_card } => process_block_gain(
            state, target, amount, from_card,
        ),
        Effect::BlockSet { target, amount } => process_block_set(state, target, amount),
        Effect::EnergyGain { amount } => process_energy_gain(state, amount),
        Effect::EnergyLoss { amount } => process_energy_loss(state, amount),
        Effect::ModifierGain { target, kind, stacks } => process_modifier_gain(
            state, target, kind, stacks,
        ),
        Effect::ModifierRemove { target, kind } => process_modifier_remove(state, target, kind),
        Effect::ModifierTick { target } => process_modifier_tick(state, target),
        Effect::ModifierSetNotNew => process_modifier_set_not_new(state),
        Effect::Death { actor } => process_death(state, actor),
        Effect::CombatStart => process_combat_start(state),
        Effect::CombatEnd => process_combat_end(state),
        Effect::TurnStart { actor } => process_turn_start(state, actor),
        Effect::TurnEnd { actor } => process_turn_end(state, actor),
        Effect::MonsterMoveUpdate { monster_idx } => process_monster_move_update(
            state, monster_idx,
        ),
        Effect::RoomEnter => process_room_enter(state),
        Effect::GameEnd => {
            // Re-insert so the state-machine derivation can observe it.
            state.effect_queue.push_front(Effect::GameEnd);
            EffectResult::halt()
        },
        Effect::AwaitMapNode => {
            state.effect_queue.push_front(Effect::AwaitMapNode);
            EffectResult::pause()
        },
        Effect::AwaitCardReward => {
            state.effect_queue.push_front(Effect::AwaitCardReward);
            EffectResult::pause()
        },
        Effect::AwaitDiscard => {
            state.effect_queue.push_front(Effect::AwaitDiscard);
            EffectResult::pause()
        },
    }
}

/// A stop for a drain that failed to settle within the step budget (an
/// engine defect, unreachable in any real episode): the episode is declared
/// over rather than looping forever.
pub const MAX_QUEUE_STEPS: u64 = 0x1_0000_0000;

/// One driver iteration from `s0`, whose queue head is `e`: the head is
/// popped (a combat-end first discards everything else the dying combat
/// still had queued), the effect is processed according to its per-kind
/// relation, the yielded front effects are re-inserted in reverse (so their
/// relative order is preserved, ahead of everything already queued) and the
/// yielded back effects are appended in order.
pub open spec fn spec_drain_step(s0: GameState, s1: GameState, e: Effect, r: EffectResult) -> bool {
    &&& s0.effect_queue@.len() > 0
    &&& e == s0.effect_queue@[0]
    &&& exists|mid: GameState, done: GameState| {
        &&& #[trigger] spec_process_effect_post(mid, done, e, r)
        &&& mid == (GameState { effect_queue: mid.effect_queue, ..s0 })
        &&& mid.effect_queue@ == (if e == Effect::CombatEnd {
            Seq::<Effect>::empty()
        } else {
            s0.effect_queue@.drop_first()
        })
        &&& s1 == (GameState { effect_queue: s1.effect_queue, ..done })
        &&& s1.effect_queue@ == r.push_top@ + done.effect_queue@ + r.push_bot@
    }
}

/// A run of consecutive driver iterations.
pub open spec fn spec_drain_trace(tr: Seq<GameState>, es: Seq<Effect>, rs: Seq<EffectResult>) -> bool {
    &&& tr.len() >= 1
    &&& es.len() == tr.len() - 1
    &&& rs.len() == tr.len() - 1
    &&& forall|i: int| 0 <= i < es.len()
        ==> #[trigger] spec_drain_step(tr[i], tr[i + 1], es[i], rs[i])
}

/// The drain relation: `s1` is reached from `s0` by driver iterations, and
/// the run ended because the queue drained empty, because the last
/// processed effect signalled a pause or halt, or — only after a full step
/// budget of real iterations — by the failure stop that discards the queue
/// and parks the terminal marker.
pub open spec fn spec_queue_drained(s0: GameState, s1: GameState) -> bool {
    exists|tr: Seq<GameState>, es: Seq<Effect>, rs: Seq<EffectResult>| {
        &&& #[trigger] spec_drain_trace(tr, es, rs)
        &&& tr[0] == s0
        &&& {
            let last = tr[tr.len() - 1];
            ||| (s1 == last && (last.effect_queue@.len() == 0 || (rs.len() > 0 && (rs[
                rs.len() - 1].halt || rs[rs.len() - 1].pause))))
            ||| (es.len() >= MAX_QUEUE_STEPS && s1 == (GameState {
                effect_queue: s1.effect_queue,
                ..last
            }) && s1.effect_queue@ =~= seq![Effect::GameEnd])
        }
    }
}

/// Drain the effect queue: pop the front, clear everything queued by a
/// dying combat before a combat-end effect, process, re-insert the yielded
/// front effects in reverse (preserving their relative order), append the
/// yielded back effects, and stop on a pause or halt. On return the queue
/// is empty or its head is the pause or terminal marker the state machine
/// derivation reads, and the final state is reachable from the initial one
/// by `spec_queue_drained`.
pub fn process_queue(state: &mut GameState)
    requires
        old(state).wf(),
    ensures
        final(state).wf(),
        final(state).fsm_input_ok(),
        old(state).effect_queue@.len() == 0 ==> *final(state) == *old(state),
        spec_queue_drained(*old(state), *final(state)),
{
    let ghost mut tr: Seq<GameState> = seq![*old(state)];
    let ghost mut es: Seq<Effect> = Seq::<Effect>::empty();
    let ghost mut rs: Seq<EffectResult> = Seq::<EffectResult>::empty();

    let mut steps: u64 = 0;
    while steps < MAX_QUEUE_STEPS && state.effect_queue.len() > 0
        invariant
            state.wf(),
            steps <= MAX_QUEUE_STEPS,
            old(state).effect_queue@.len() == 0 ==> *state == *old(state),
            spec_drain_trace(tr, es, rs),
            tr[0] == *old(state),
            tr[tr.len() - 1] == *state,
            es.len() == steps,
        decreases MAX_QUEUE_STEPS - steps,
    {
        let ghost s_pre = *state;
        let effect = match state.effect_queue.pop_front() {
            Some(e) => e,
            None => {
                return;
            },
        };

        // A combat-end discards everything the dying combat still had
        // queued.
        if matches!(effect, Effect::CombatEnd) {
            state.effect_queue.clear();
        }
        let ghost s_mid = *state;

        let result = process_effect(state, effect);
        let ghost s_done = *state;

        // Front effects go back in reverse, so their relative order is kept.
        let mut j: usize = result.push_top.len();
        while j > 0
            invariant
                state.wf(),
                j <= result.push_top@.len(),
                *state == (GameState { effect_queue: state.effect_queue, ..s_done }),
                state.effect_queue@ =~= result.push_top@.subrange(
                    j as int,
                    result.push_top@.len() as int,
                ) + s_done.effect_queue@,
                (result.pause || result.halt) ==> {
                    &&& result.push_top@.len() == 0
                    &&& result.push_bot@.len() == 0
                    &&& state.effect_queue@.len() > 0
                    &&& state.effect_queue@[0].is_wait_marker()
                },
            decreases j,
        {
            j = j - 1;
            state.effect_queue.push_front(result.push_top[j]);
            proof {
                assert(state.effect_queue@ =~= result.push_top@.subrange(
                    j as int,
                    result.push_top@.len() as int,
                ) + s_done.effect_queue@);
            }
        }
        let mut k: usize = 0;
        while k < result.push_bot.len()
            invariant
                state.wf(),
                k <= result.push_bot@.len(),
                *state == (GameState { effect_queue: state.effect_queue, ..s_done }),
                state.effect_queue@ =~= result.push_top@ + s_done.effect_queue@
                    + result.push_bot@.subrange(0, k as int),
                (result.pause || result.halt) ==> {
                    &&& result.push_bot@.len() == 0
                    &&& state.effect_queue@.len() > 0
                    &&& state.effect_queue@[0].is_wait_marker()
                },
            decreases result.push_bot@.len() - k,
        {
            state.effect_queue.push_back(result.push_bot[k]);
            proof {
                assert(state.effect_queue@ =~= result.push_top@ + s_done.effect_queue@
                    + result.push_bot@.subrange(0, k + 1));
            }
            k = k + 1;
        }

        proof {
            assert(state.effect_queue@ == result.push_top@ + s_done.effect_queue@
                + result.push_bot@) by {
                assert(result.push_bot@.subrange(0, result.push_bot@.len() as int)
                    =~= result.push_bot@);
                assert(state.effect_queue@ =~= result.push_top@ + s_done.effect_queue@
                    + result.push_bot@);
            }
            assert(spec_drain_step(s_pre, *state, effect, result)) by {
                assert(s_mid == (GameState { effect_queue: s_mid.effect_queue, ..s_pre }));
                assert(s_mid.effect_queue@ == (if effect == Effect::CombatEnd {
                    Seq::<Effect>::empty()
                } else {
                    s_pre.effect_queue@.drop_first()
                })) by {
                    if effect == Effect::CombatEnd {
                        assert(s_mid.effect_queue@ =~= Seq::<Effect>::empty());
                    }
                }
                assert(spec_process_effect_post(s_mid, s_done, effect, result));
            }
            let ghost tr2 = tr.push(*state);
            let ghost es2 = es.push(effect);
            let ghost rs2 = rs.push(result);
            assert(spec_drain_trace(tr2, es2, rs2)) by {
                assert forall|i: int| 0 <= i < es2.len()
                    implies #[trigger] spec_drain_step(tr2[i], tr2[i + 1], es2[i], rs2[i]) by {
                    if i < es.len() {
                        assert(tr2[i] == tr[i] && tr2[i + 1] == tr[i + 1]);
                        assert(es2[i] == es[i] && rs2[i] == rs[i]);
                        assert(spec_drain_step(tr[i], tr[i + 1], es[i], rs[i]));
                    } else {
                        assert(tr2[i] == s_pre && tr2[i + 1] == *state);
                        assert(es2[i] == effect && rs2[i] == result);
                    }
                }
            }
            tr = tr2;
            es = es2;
            rs = rs2;
        }

        if result.halt || result.pause {
            proof {
                assert(spec_queue_drained(*old(state), *state)) by {
                    assert(spec_drain_trace(tr, es, rs));
                    assert(tr[tr.len() - 1] == *state);
                    assert(rs[rs.len() - 1] == result);
                }
            }
            return;
        }
        steps = steps + 1;
    }

    if state.effect_queue.len() > 0 {
        // The budget ran out with work left: the engine failed to settle,
        // so the episode stops here.
        let ghost s_last = *state;
        state.effect_queue.clear();
        state.effect_queue.push_front(Effect::GameEnd);
        proof {
            assert(spec_queue_drained(*old(state), *state)) by {
                assert(spec_drain_trace(tr, es, rs));
                assert(tr[tr.len() - 1] == s_last);
                assert(es.len() >= MAX_QUEUE_STEPS);
                assert(*state == (GameState { effect_queue: state.effect_queue, ..s_last }));
                assert(state.effect_queue@ =~= seq![Effect::GameEnd]);
            }
        }
    } else {
        proof {
            assert(spec_queue_drained(*old(state), *state)) by {
                assert(spec_drain_trace(tr, es, rs));
                assert(tr[tr.len() - 1] == *state);
            }
        }
    }
}

// ---------------------------------------------------------------------------
// Engine laws
// ---------------------------------------------------------------------------

/// Energy conservation, queueing half: playing any card queues the loss of
/// exactly its printed cost as the very first follow-up effect.
pub proof fn lemma_play_card_costs_energy(s: GameState, card_idx: usize)
    requires
        (card_idx as int) < s.combat_cards@.len(),
    ensures
        spec_card_play_effects(s, card_idx)[0] == (Effect::EnergyLoss {
            amount: s.combat_cards@[card_idx as int].cost,
        }),
        spec_card_play_effects(s, card_idx).len() >= 2,
{
}

/// Energy conservation, spending half: processing the loss of an affordable
/// cost `amount` decreases the counter by exactly `amount`, and no loss can
/// ever drive the counter negative or raise it.
pub proof fn lemma_energy_conservation(s0: GameState, s1: GameState, amount: u8, r: EffectResult)
    requires
        spec_energy_loss_post(s0, s1, amount, r),
    ensures
        amount <= s0.energy.current ==> s1.energy.current == s0.energy.current - amount,
        s1.energy.current <= s0.energy.current,
        s1.energy.max == s0.energy.max,
{
}

/// Energy conservation, refill half: processing the refill the character's
/// turn start queues (the exact missing amount) restores the counter to its
/// maximum.
pub proof fn lemma_energy_refill_restores_max(s0: GameState, s1: GameState, r: EffectResult)
    requires
        s0.energy.current <= s0.energy.max,
        spec_energy_gain_post(s0, s1, (s0.energy.max - s0.energy.current) as u8, r),
    ensures
        s1.energy.current == s1.energy.max,
{
}

/// The character's turn start queues exactly one energy refill (of exactly
/// the missing amount), plus at most one further gain: the banked next-turn
/// bonus. No other effect in the batch touches energy.
pub proof fn lemma_turn_start_queues_one_refill(s: GameState)
    requires
        s.energy.current <= s.energy.max,
    ensures
        ({
            let es = spec_turn_start_effects(s, ActorId::Character);
            let p: int = if spec_vitals(s, ActorId::Character).modifiers.spec_has(
                ModifierKind::Phantasmal,
            ) {
                1int
            } else {
                0int
            };
            &&& es[2 + p] == (Effect::EnergyGain {
                amount: (s.energy.max - s.energy.current) as u8,
            })
            &&& forall|j: int| 0 <= j < es.len() && j != 2 + p
                && (#[trigger] es[j] matches Effect::EnergyGain { amount: _ })
                ==> spec_vitals(s, ActorId::Character).modifiers.spec_has(
                    ModifierKind::NextTurnEnergy,
                ) && j == 4 + p + s.monsters@.len()
        }),
{
    let es = spec_turn_start_effects(s, ActorId::Character);
    let v = spec_vitals(s, ActorId::Character);
    let p: int = if v.modifiers.spec_has(ModifierKind::Phantasmal) { 1int } else { 0int };
    assert(es[2 + p] == (Effect::EnergyGain {
        amount: (s.energy.max - s.energy.current) as u8,
    }));
    assert forall|j: int| 0 <= j < es.len() && j != 2 + p
        && (#[trigger] es[j] matches Effect::EnergyGain { amount: _ })
        implies v.modifiers.spec_has(ModifierKind::NextTurnEnergy)
            && j == 4 + p + s.monsters@.len() by {
    }
}

/// Block mitigates monotonically: a target with block `b` receiving final
/// damage `d` keeps `max(0, b - d)` block and is owed exactly `max(0, d - b)`
/// health loss; processing that loss saturates at zero health, so health
/// never underflows.
pub proof fn lemma_block_mitigation(
    s0: GameState,
    s1: GameState,
    target: ActorId,
    amount: u16,
    r: EffectResult,
)
    requires
        spec_actor_exists(s0, target),
        spec_damage_deal_post(s0, s1, target, amount, r),
    ensures
        ({
            let b = spec_vitals(s0, target).block;
            &&& spec_vitals(s1, target).block == (if amount <= b {
                b - amount
            } else {
                0int
            })
            &&& (amount > b ==> r.push_top@ =~= seq![Effect::HealthLoss {
                target,
                amount: (amount - b) as u16,
            }])
            &&& (amount <= b ==> r.push_top@.len() == 0)
        }),
{
}

/// The saturation half of mitigation: without a mode-shift counter in the
/// way, a health loss leaves exactly `max(0, health - amount)` health
/// behind; and in every case health never wraps below zero.
pub proof fn lemma_health_never_underflows(
    s0: GameState,
    s1: GameState,
    target: ActorId,
    amount: u16,
    r: EffectResult,
)
    requires
        spec_actor_exists(s0, target),
        spec_health_loss_post(s0, s1, target, amount, r),
    ensures
        !spec_vitals(s0, target).modifiers.spec_has(ModifierKind::ModeShift)
            ==> spec_vitals(s1, target).health == (
                if amount <= spec_vitals(s0, target).health {
                    spec_vitals(s0, target).health - amount
                } else {
                    0int
                }
            ),
        spec_vitals(s1, target).health >= 0,
{
}

} // verus!
