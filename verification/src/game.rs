//! The game loop: create a seeded episode, initialize it, apply one action
//! per step, and derive the externally visible input state after every
//! queue drain.

use vstd::prelude::*;
use crate::action::{Action, handle_action, spec_action_valid, spec_handle_action_post};
use crate::card::get_card;
use crate::effect::Effect;
use crate::game_map::generate_map;
use crate::modifier::ModifierKind;
use crate::process::process_queue;
use crate::state::{Card, Character, Energy, GameState, Vitals, vitals_new};
use crate::types::{CardName, Fsm, RoomType};

verus! {

// ---------------------------------------------------------------------------
// Create + initialize
// ---------------------------------------------------------------------------

/// Starting (current, maximum) health of the character by ascension:
/// 70 at base, 66 from ascension 14 up, and nine tenths of the maximum
/// (truncated) as current health from ascension 6 up.
pub open spec fn spec_silent_health(ascension: u8) -> (int, int) {
    let hm: int = if ascension >= 14 { 66 } else { 70 };
    let h: int = if ascension >= 6 { (hm * 9) / 10 } else { hm };
    (h, hm)
}

fn silent_health(ascension: u8) -> (r: (u16, u16))
    ensures
        r.0 == spec_silent_health(ascension).0,
        r.1 == spec_silent_health(ascension).1,
        r.0 <= r.1,
{
    let health_max: u16 = if ascension >= 14 { 66 } else { 70 };
    let health: u16 = if ascension >= 6 { health_max * 9 / 10 } else { health_max };
    (health, health_max)
}

/// The starter deck layout: five strikes, five defends, one survivor, one
/// neutralize, all unupgraded.
pub open spec fn spec_starter_name(j: int) -> CardName {
    if j < 5 {
        CardName::Strike
    } else if j < 10 {
        CardName::Defend
    } else if j == 10 {
        CardName::Survivor
    } else {
        CardName::Neutralize
    }
}

fn silent_starter_deck() -> (r: Vec<Card>)
    ensures
        r@.len() == 12,
        forall|j: int| 0 <= j < 12 ==> {
            &&& (#[trigger] r@[j]).name == spec_starter_name(j)
            &&& !r@[j].upgraded
        },
{
    let mut deck: Vec<Card> = Vec::new();
    let mut i: usize = 0;
    while i < 5
        invariant
            i <= 5,
            deck@.len() == i,
            forall|j: int| 0 <= j < i
                ==> (#[trigger] deck@[j]).name == CardName::Strike && !deck@[j].upgraded,
        decreases 5 - i,
    {
        deck.push(get_card(CardName::Strike, false));
        i = i + 1;
    }
    let mut k: usize = 0;
    while k < 5
        invariant
            k <= 5,
            deck@.len() == 5 + k,
            forall|j: int| 0 <= j < 5
                ==> (#[trigger] deck@[j]).name == CardName::Strike && !deck@[j].upgraded,
            forall|j: int| 5 <= j < 5 + k
                ==> (#[trigger] deck@[j]).name == CardName::Defend && !deck@[j].upgraded,
        decreases 5 - k,
    {
        deck.push(get_card(CardName::Defend, false));
        k = k + 1;
    }
    deck.push(get_card(CardName::Survivor, false));
    deck.push(get_card(CardName::Neutralize, false));
    deck
}

/// A fresh episode for the given ascension and seed: full health, three of
/// three energy, the starter deck, a freshly generated map with no active
/// room, no combat state, and an empty effect queue.
pub fn create_game_state(ascension: u8, seed: u64) -> (s: GameState)
    ensures
        s.wf(),
        s.ascension == ascension,
        s.fsm == Fsm::MapSelect,
        s.character.vitals.health == spec_silent_health(ascension).0,
        s.character.vitals.health_max == spec_silent_health(ascension).1,
        s.character.vitals.block == 0,
        forall|k: ModifierKind| !(#[trigger] s.character.vitals.modifiers.spec_has(k)),
        s.character.reward_roll_offset == 5,
        s.energy == (Energy { current: 3u8, max: 3u8 }),
        s.deck@.len() == 12,
        forall|j: int| 0 <= j < 12 ==> {
            &&& (#[trigger] s.deck@[j]).name == spec_starter_name(j)
            &&& !s.deck@[j].upgraded
        },
        s.combat_cards@.len() == 0,
        s.draw_pile@.len() == 0,
        s.hand@.len() == 0,
        s.discard_pile@.len() == 0,
        s.exhaust_pile@.len() == 0,
        s.card_active is None,
        s.card_target is None,
        s.monsters@.len() == 0,
        s.card_rewards@.len() == 0,
        s.map.active_y is None,
        s.map.active_x is None,
        s.effect_queue@.len() == 0,
{
    let mut rng = crate::rng::rng_new(seed);

    let (health, health_max) = silent_health(ascension);
    let character = Character {
        vitals: vitals_new(health, health_max),
        reward_roll_offset: 5,
    };

    let deck = silent_starter_deck();
    let map = generate_map(&mut rng);

    GameState {
        ascension,
        fsm: Fsm::MapSelect,
        rng,
        character,
        energy: Energy { current: 3, max: 3 },
        deck,
        combat_cards: Vec::new(),
        draw_pile: Vec::new(),
        hand: Vec::new(),
        discard_pile: Vec::new(),
        exhaust_pile: Vec::new(),
        card_active: None,
        card_target: None,
        monsters: Vec::new(),
        card_rewards: Vec::new(),
        map,
        effect_queue: std::collections::VecDeque::new(),
    }
}

/// Queue the first map-node wait and derive the initial input state.
pub fn initialize(state: &mut GameState)
    requires
        old(state).wf(),
        old(state).effect_queue@.len() == 0,
    ensures
        final(state).wf(),
        final(state).fsm_input_ok(),
        *final(state) == (GameState {
            fsm: final(state).fsm,
            effect_queue: final(state).effect_queue,
            ..*old(state)
        }),
        final(state).effect_queue@ =~= seq![Effect::AwaitMapNode],
        final(state).fsm == Fsm::MapSelect,
{
    state.effect_queue.push_back(Effect::AwaitMapNode);
    let f = determine_fsm(state);
    state.fsm = f;
}

// ---------------------------------------------------------------------------
// Step
// ---------------------------------------------------------------------------

/// Apply one external action: translate it to effects, append them to the
/// queue, drain until it empties or pauses, and recompute the visible input
/// state. The final state is what the action handler's relation followed by
/// the drain relation produce, with the derived input state written back.
/// The action must be valid for the current input state; the unverified
/// shell enforces this and aborts otherwise, as the error model demands.
pub fn step(state: &mut GameState, action: Action)
    requires
        old(state).wf(),
        spec_action_valid(*old(state), action),
    ensures
        final(state).wf(),
        final(state).fsm_input_ok(),
        final(state).fsm == spec_fsm(*final(state)),
        exists|handled: GameState, batch: Seq<Effect>, queued: GameState, drained: GameState| {
            &&& #[trigger] spec_handle_action_post(*old(state), handled, action, batch)
            &&& queued == (GameState { effect_queue: queued.effect_queue, ..handled })
            &&& queued.effect_queue@ == handled.effect_queue@ + batch
            &&& #[trigger] crate::process::spec_queue_drained(queued, drained)
            &&& *final(state) == (GameState { fsm: final(state).fsm, ..drained })
        },
{
    let effects = handle_action(state, action);
    let ghost s_handled = *state;
    let ghost batch = effects@;

    let mut i: usize = 0;
    while i < effects.len()
        invariant
            state.wf(),
            i <= effects@.len(),
            *state == (GameState { effect_queue: state.effect_queue, ..s_handled }),
            state.effect_queue@ =~= s_handled.effect_queue@ + effects@.subrange(0, i as int),
        decreases effects@.len() - i,
    {
        state.effect_queue.push_back(effects[i]);
        proof {
            assert(state.effect_queue@ =~= s_handled.effect_queue@
                + effects@.subrange(0, i + 1));
        }
        i = i + 1;
    }
    let ghost s_queued = *state;
    proof {
        assert(effects@.subrange(0, effects@.len() as int) =~= effects@);
        assert(s_queued.effect_queue@ == s_handled.effect_queue@ + batch);
    }

    process_queue(state);
    let ghost s_drained = *state;

    let f = determine_fsm(state);
    state.fsm = f;
    proof {
        assert(spec_fsm(*state) == f);
        assert(*state == (GameState { fsm: state.fsm, ..s_drained }));
        assert(spec_handle_action_post(*old(state), s_handled, action, batch));
    }
}

// ---------------------------------------------------------------------------
// Input-state derivation
// ---------------------------------------------------------------------------

/// The externally visible "what input is expected now" state, as a function
/// of the queue head, the active-card flag, and the active room type alone;
/// nothing else influences it. A non-marker queue head never reaches this
/// derivation (the driver always parks a marker or drains the queue).
pub open spec fn spec_fsm(s: GameState) -> Fsm {
    if s.effect_queue@.len() > 0 {
        match s.effect_queue@[0] {
            Effect::GameEnd => Fsm::GameOver,
            Effect::AwaitDiscard => Fsm::CombatAwaitDiscard,
            Effect::AwaitMapNode => Fsm::MapSelect,
            Effect::AwaitCardReward => Fsm::CardReward,
            _ => Fsm::MapSelect,
        }
    } else if s.card_active is Some {
        Fsm::CombatAwaitTarget
    } else {
        match s.map.spec_active_room_type() {
            Some(RoomType::RestSite) => Fsm::RestSite,
            Some(RoomType::CombatMonster) => Fsm::CombatDefault,
            Some(RoomType::CombatBoss) => Fsm::CombatDefault,
            None => Fsm::MapSelect,
        }
    }
}

/// Derive the input state from the current state without mutating anything.
pub fn determine_fsm(state: &GameState) -> (r: Fsm)
    requires
        state.wf(),
        state.fsm_input_ok(),
    ensures
        r == spec_fsm(*state),
{
    if state.effect_queue.len() > 0 {
        return match state.effect_queue[0] {
            Effect::GameEnd => Fsm::GameOver,
            Effect::AwaitDiscard => Fsm::CombatAwaitDiscard,
            Effect::AwaitMapNode => Fsm::MapSelect,
            Effect::AwaitCardReward => Fsm::CardReward,
            _ => Fsm::MapSelect,
        };
    }

    if state.card_active.is_some() {
        return Fsm::CombatAwaitTarget;
    }

    match state.map.active_room_type() {
        Some(RoomType::RestSite) => Fsm::RestSite,
        Some(RoomType::CombatMonster) => Fsm::CombatDefault,
        Some(RoomType::CombatBoss) => Fsm::CombatDefault,
        None => Fsm::MapSelect,
    }
}

/// The input-state derivation is pure: two states agreeing on the queue
/// head, on whether a card is marked active, and on the active room type
/// derive the same input state, whatever else differs — so deriving twice
/// without intervening mutation always yields the same result.
pub proof fn lemma_fsm_derivation_pure(s1: GameState, s2: GameState)
    requires
        (s1.effect_queue@.len() == 0) <==> (s2.effect_queue@.len() == 0),
        s1.effect_queue@.len() > 0 ==> s1.effect_queue@[0] == s2.effect_queue@[0],
        (s1.card_active is Some) <==> (s2.card_active is Some),
        s1.map.spec_active_room_type() == s2.map.spec_active_room_type(),
    ensures
        spec_fsm(s1) == spec_fsm(s2),
{
}

} // verus!
