//! Action handling: translating one external action into its initial batch
//! of effects. Each action is valid only in one specific state of the input
//! machine; supplying any other pairing is a caller contract violation, not
//! a recoverable condition, and is excluded by precondition (the unverified
//! shell checks and aborts exactly as the engine's error model demands).

use vstd::prelude::*;
use crate::effect::Effect;
use crate::state::{GameState, MAP_HEIGHT, MAP_WIDTH};
use crate::types::{ActorId, Fsm, RoomType};

verus! {

#[derive(Debug, Clone, Copy, PartialEq, Eq, Structural)]
pub enum Action {
    PlayCard { hand_idx: usize },
    EndTurn,
    SelectMonster { monster_idx: u8 },
    SelectMapNode { column: usize },
    SelectCardReward { reward_idx: usize },
    SkipCardReward,
    Rest,
    Upgrade { deck_idx: usize },
}

/// Healing at a rest site: three tenths of maximum health, truncated.
pub open spec fn spec_rest_heal(health_max: u16) -> int {
    (health_max * 3) / 10
}

pub fn rest_heal_amount(health_max: u16) -> (r: u16)
    ensures
        r == spec_rest_heal(health_max),
{
    ((health_max as u32 * 3) / 10) as u16
}

/// The pairings of input-machine state and action the engine accepts, with
/// each pairing's own preconditions. Anything else is a programming
/// contract violation and fatal.
pub open spec fn spec_action_valid(s: GameState, a: Action) -> bool {
    match (s.fsm, a) {
        (Fsm::CombatDefault, Action::PlayCard { hand_idx }) => {
            &&& (hand_idx as int) < s.hand@.len()
            &&& s.combat_cards@[s.hand@[hand_idx as int] as int].cost <= s.energy.current
        },
        (Fsm::CombatDefault, Action::EndTurn) => true,
        (Fsm::CombatAwaitTarget, Action::SelectMonster { monster_idx }) => {
            &&& s.card_active is Some
            &&& (monster_idx as int) < s.monsters@.len()
        },
        (Fsm::CombatAwaitDiscard, Action::PlayCard { hand_idx }) => {
            &&& (hand_idx as int) < s.hand@.len()
            &&& s.effect_queue@.len() > 0
            &&& s.effect_queue@[0] == Effect::AwaitDiscard
        },
        (Fsm::MapSelect, Action::SelectMapNode { column }) => {
            let next_y: int = match s.map.active_y {
                Some(y) => y + 1,
                None => 0int,
            };
            &&& column < MAP_WIDTH
            &&& s.effect_queue@.len() > 0
            &&& s.effect_queue@[0] == Effect::AwaitMapNode
            &&& next_y < MAP_HEIGHT
            &&& s.map.nodes@[next_y]@[column as int] is Some
        },
        (Fsm::CardReward, Action::SelectCardReward { reward_idx }) => {
            &&& (reward_idx as int) < s.card_rewards@.len()
            &&& s.effect_queue@.len() > 0
            &&& s.effect_queue@[0] == Effect::AwaitCardReward
        },
        (Fsm::CardReward, Action::SkipCardReward) => {
            &&& s.effect_queue@.len() > 0
            &&& s.effect_queue@[0] == Effect::AwaitCardReward
        },
        (Fsm::RestSite, Action::Rest) => true,
        (Fsm::RestSite, Action::Upgrade { deck_idx }) => (deck_idx as int) < s.deck@.len(),
        _ => false,
    }
}

/// The effect batch of playing the card at `hand_idx`: a card that needs a
/// target plays immediately against a lone enemy, or waits for a target
/// among several; an untargeted card plays immediately.
pub open spec fn spec_play_card_effects(s: GameState, hand_idx: usize) -> Seq<Effect> {
    let card_idx = s.hand@[hand_idx as int];
    let c = s.combat_cards@[card_idx as int];
    if c.spec_requires_target() {
        if s.monsters@.len() == 1 {
            seq![
                Effect::TargetSet { monster_idx: 0u8 },
                Effect::CardActiveClear,
                Effect::CardPlay { card_idx },
                Effect::TargetClear,
            ]
        } else {
            seq![Effect::CardActiveSet { card_idx }]
        }
    } else {
        seq![Effect::CardPlay { card_idx }]
    }
}

/// What one action does before the queue drains: the effects it enqueues
/// and the immediate state change it makes (consuming the wait marker it
/// answers, or moving on the map).
pub open spec fn spec_handle_action_post(
    s0: GameState,
    s1: GameState,
    a: Action,
    r: Seq<Effect>,
) -> bool {
    match (s0.fsm, a) {
        (Fsm::CombatDefault, Action::PlayCard { hand_idx }) => {
            s1 == s0 && r == spec_play_card_effects(s0, hand_idx)
        },
        (Fsm::CombatDefault, Action::EndTurn) => {
            s1 == s0 && r =~= seq![Effect::TurnEnd { actor: ActorId::Character }]
        },
        (Fsm::CombatAwaitTarget, Action::SelectMonster { monster_idx }) => {
            &&& s1 == s0
            &&& r =~= seq![
                Effect::TargetSet { monster_idx },
                Effect::CardActiveClear,
                Effect::CardPlay { card_idx: s0.card_active->Some_0 },
                Effect::TargetClear,
            ]
        },
        (Fsm::CombatAwaitDiscard, Action::PlayCard { hand_idx }) => {
            &&& s1 == (GameState { effect_queue: s1.effect_queue, ..s0 })
            &&& s1.effect_queue@ == s0.effect_queue@.drop_first()
            &&& r =~= seq![Effect::CardDiscard { card_idx: s0.hand@[hand_idx as int] }]
        },
        (Fsm::MapSelect, Action::SelectMapNode { column }) => {
            let y = match s0.map.active_y {
                Some(y0) => y0 + 1,
                None => 0int,
            };
            &&& s1 == (GameState {
                effect_queue: s1.effect_queue,
                map: s1.map,
                card_rewards: s1.card_rewards,
                ..s0
            })
            &&& s1.effect_queue@ == s0.effect_queue@.drop_first()
            &&& s1.map == (crate::state::GameMap {
                active_y: Some(y as usize),
                active_x: Some(column),
                ..s0.map
            })
            &&& s1.card_rewards@.len() == 0
            &&& r =~= seq![Effect::RoomEnter]
        },
        (Fsm::CardReward, Action::SelectCardReward { reward_idx }) => {
            &&& s1 == (GameState { effect_queue: s1.effect_queue, ..s0 })
            &&& s1.effect_queue@ == s0.effect_queue@.drop_first()
            &&& r =~= seq![Effect::CardRewardSelect { reward_idx }, Effect::AwaitMapNode]
        },
        (Fsm::CardReward, Action::SkipCardReward) => {
            &&& s1 == (GameState { effect_queue: s1.effect_queue, ..s0 })
            &&& s1.effect_queue@ == s0.effect_queue@.drop_first()
            &&& r =~= seq![Effect::CardRewardClear, Effect::AwaitMapNode]
        },
        (Fsm::RestSite, Action::Rest) => {
            let heal = spec_rest_heal(s0.character.vitals.health_max) as u16;
            if s0.map.active_y == Some((MAP_HEIGHT - 1) as usize) {
                &&& s1 == (GameState { map: s1.map, ..s0 })
                &&& s1.map == (crate::state::GameMap {
                    active_y: Some(s0.map.boss_room_y),
                    active_x: Some(0usize),
                    ..s0.map
                })
                &&& r =~= seq![
                    Effect::HealthGain { target: ActorId::Character, amount: heal },
                    Effect::RoomEnter,
                ]
            } else {
                &&& s1 == s0
                &&& r =~= seq![
                    Effect::HealthGain { target: ActorId::Character, amount: heal },
                    Effect::AwaitMapNode,
                ]
            }
        },
        (Fsm::RestSite, Action::Upgrade { deck_idx }) => {
            if s0.map.active_y == Some((MAP_HEIGHT - 1) as usize) {
                &&& s1 == (GameState { map: s1.map, ..s0 })
                &&& s1.map == (crate::state::GameMap {
                    active_y: Some(s0.map.boss_room_y),
                    active_x: Some(0usize),
                    ..s0.map
                })
                &&& r =~= seq![Effect::CardUpgrade { deck_idx }, Effect::RoomEnter]
            } else {
                &&& s1 == s0
                &&& r =~= seq![Effect::CardUpgrade { deck_idx }, Effect::AwaitMapNode]
            }
        },
        _ => false,
    }
}

/// Translate one external action into its initial effect batch, consuming
/// the wait marker it answers and applying any immediate map movement.
pub fn handle_action(state: &mut GameState, action: Action) -> (r: Vec<Effect>)
    requires
        old(state).wf(),
        spec_action_valid(*old(state), action),
    ensures
        final(state).wf(),
        spec_handle_action_post(*old(state), *final(state), action, r@),
{
    let fsm = state.fsm;
    match (fsm, action) {
        (Fsm::CombatDefault, Action::PlayCard { hand_idx }) => handle_play_card(state, hand_idx),
        (Fsm::CombatDefault, Action::EndTurn) => {
            let mut v: Vec<Effect> = Vec::new();
            v.push(Effect::TurnEnd { actor: ActorId::Character });
            v
        },
        (Fsm::CombatAwaitTarget, Action::SelectMonster { monster_idx }) => {
            handle_select_monster(state, monster_idx)
        },
        (Fsm::CombatAwaitDiscard, Action::PlayCard { hand_idx }) => {
            handle_select_discard(state, hand_idx)
        },
        (Fsm::MapSelect, Action::SelectMapNode { column }) => {
            handle_select_map_node(state, column)
        },
        (Fsm::CardReward, Action::SelectCardReward { reward_idx }) => {
            handle_card_reward_select(state, reward_idx)
        },
        (Fsm::CardReward, Action::SkipCardReward) => handle_card_reward_skip(state),
        (Fsm::RestSite, Action::Rest) => handle_rest(state),
        (Fsm::RestSite, Action::Upgrade { deck_idx }) => handle_upgrade(state, deck_idx),
        _ => {
            proof {
                assert(false);
            }
            Vec::new()
        },
    }
}

fn handle_play_card(state: &mut GameState, hand_idx: usize) -> (r: Vec<Effect>)
    requires
        old(state).wf(),
        (hand_idx as int) < old(state).hand@.len(),
    ensures
        *final(state) == *old(state),
        r@ == spec_play_card_effects(*old(state), hand_idx),
{
    let card_idx = state.hand[hand_idx];
    let mut v: Vec<Effect> = Vec::new();
    if state.combat_cards[card_idx].requires_target() {
        // With a single enemy the target resolves itself; with several the
        // card waits for a chosen target.
        if state.monsters.len() == 1 {
            v.push(Effect::TargetSet { monster_idx: 0 });
            v.push(Effect::CardActiveClear);
            v.push(Effect::CardPlay { card_idx });
            v.push(Effect::TargetClear);
        } else {
            v.push(Effect::CardActiveSet { card_idx });
        }
    } else {
        v.push(Effect::CardPlay { card_idx });
    }
    proof {
        assert(v@ =~= spec_play_card_effects(*old(state), hand_idx));
    }
    v
}

fn handle_select_monster(state: &mut GameState, monster_idx: u8) -> (r: Vec<Effect>)
    requires
        old(state).wf(),
        old(state).card_active is Some,
    ensures
        *final(state) == *old(state),
        r@ =~= seq![
            Effect::TargetSet { monster_idx },
            Effect::CardActiveClear,
            Effect::CardPlay { card_idx: old(state).card_active->Some_0 },
            Effect::TargetClear,
        ],
{
    let card_idx = match state.card_active {
        Some(ci) => ci,
        None => {
            proof {
                assert(false);
            }
            0
        },
    };
    let mut v: Vec<Effect> = Vec::new();
    v.push(Effect::TargetSet { monster_idx });
    v.push(Effect::CardActiveClear);
    v.push(Effect::CardPlay { card_idx });
    v.push(Effect::TargetClear);
    v
}

fn handle_select_discard(state: &mut GameState, hand_idx: usize) -> (r: Vec<Effect>)
    requires
        old(state).wf(),
        (hand_idx as int) < old(state).hand@.len(),
        old(state).effect_queue@.len() > 0,
    ensures
        final(state).wf(),
        *final(state) == (GameState { effect_queue: final(state).effect_queue, ..*old(state) }),
        final(state).effect_queue@ == old(state).effect_queue@.drop_first(),
        r@ =~= seq![Effect::CardDiscard { card_idx: old(state).hand@[hand_idx as int] }],
{
    let card_idx = state.hand[hand_idx];
    // Consume the pending discard-wait marker.
    state.effect_queue.pop_front();
    let mut v: Vec<Effect> = Vec::new();
    v.push(Effect::CardDiscard { card_idx });
    v
}

fn handle_select_map_node(state: &mut GameState, column: usize) -> (r: Vec<Effect>)
    requires
        old(state).wf(),
        column < MAP_WIDTH,
        old(state).effect_queue@.len() > 0,
        old(state).map.active_y matches Some(y) ==> y < old(state).map.boss_room_y,
    ensures
        final(state).wf(),
        *final(state) == (GameState {
            effect_queue: final(state).effect_queue,
            map: final(state).map,
            card_rewards: final(state).card_rewards,
            ..*old(state)
        }),
        final(state).effect_queue@ == old(state).effect_queue@.drop_first(),
        final(state).map == (crate::state::GameMap {
            active_y: Some(
                (match old(state).map.active_y {
                    Some(y0) => y0 + 1,
                    None => 0int,
                }) as usize,
            ),
            active_x: Some(column),
            ..old(state).map
        }),
        final(state).card_rewards@.len() == 0,
        r@ =~= seq![Effect::RoomEnter],
{
    // Consume the pending map-wait marker.
    state.effect_queue.pop_front();

    let y: usize = match state.map.active_y {
        Some(y0) => y0 + 1,
        None => 0,
    };
    state.map.active_y = Some(y);
    state.map.active_x = Some(column);

    // Rewards do not survive leaving their room.
    state.card_rewards.clear();

    let mut v: Vec<Effect> = Vec::new();
    v.push(Effect::RoomEnter);
    v
}

fn handle_card_reward_select(state: &mut GameState, reward_idx: usize) -> (r: Vec<Effect>)
    requires
        old(state).wf(),
        old(state).effect_queue@.len() > 0,
    ensures
        final(state).wf(),
        *final(state) == (GameState { effect_queue: final(state).effect_queue, ..*old(state) }),
        final(state).effect_queue@ == old(state).effect_queue@.drop_first(),
        r@ =~= seq![Effect::CardRewardSelect { reward_idx }, Effect::AwaitMapNode],
{
    state.effect_queue.pop_front();
    let mut v: Vec<Effect> = Vec::new();
    v.push(Effect::CardRewardSelect { reward_idx });
    v.push(Effect::AwaitMapNode);
    v
}

fn handle_card_reward_skip(state: &mut GameState) -> (r: Vec<Effect>)
    requires
        old(state).wf(),
        old(state).effect_queue@.len() > 0,
    ensures
        final(state).wf(),
        *final(state) == (GameState { effect_queue: final(state).effect_queue, ..*old(state) }),
        final(state).effect_queue@ == old(state).effect_queue@.drop_first(),
        r@ =~= seq![Effect::CardRewardClear, Effect::AwaitMapNode],
{
    state.effect_queue.pop_front();
    let mut v: Vec<Effect> = Vec::new();
    v.push(Effect::CardRewardClear);
    v.push(Effect::AwaitMapNode);
    v
}

fn handle_rest(state: &mut GameState) -> (r: Vec<Effect>)
    requires
        old(state).wf(),
    ensures
        final(state).wf(),
        spec_rest_post(*old(state), *final(state), r@),
{
    let heal = rest_heal_amount(state.character.vitals.health_max);

    let is_last_floor = match state.map.active_y {
        Some(y) => y == MAP_HEIGHT - 1,
        None => false,
    };

    let mut v: Vec<Effect> = Vec::new();
    v.push(Effect::HealthGain { target: ActorId::Character, amount: heal });

    if is_last_floor {
        // The floor above the last row is the boss room.
        state.map.active_y = Some(state.map.boss_room_y);
        state.map.active_x = Some(0);
        v.push(Effect::RoomEnter);
    } else {
        v.push(Effect::AwaitMapNode);
    }
    v
}

/// The shared floor-advance branching of the two rest-site actions.
pub open spec fn spec_rest_post(s0: GameState, s1: GameState, r: Seq<Effect>) -> bool {
    let heal = spec_rest_heal(s0.character.vitals.health_max) as u16;
    if s0.map.active_y == Some((MAP_HEIGHT - 1) as usize) {
        &&& s1 == (GameState { map: s1.map, ..s0 })
        &&& s1.map == (crate::state::GameMap {
            active_y: Some(s0.map.boss_room_y),
            active_x: Some(0usize),
            ..s0.map
        })
        &&& r =~= seq![
            Effect::HealthGain { target: ActorId::Character, amount: heal },
            Effect::RoomEnter,
        ]
    } else {
        &&& s1 == s0
        &&& r =~= seq![
            Effect::HealthGain { target: ActorId::Character, amount: heal },
            Effect::AwaitMapNode,
        ]
    }
}

fn handle_upgrade(state: &mut GameState, deck_idx: usize) -> (r: Vec<Effect>)
    requires
        old(state).wf(),
    ensures
        final(state).wf(),
        spec_upgrade_post(*old(state), *final(state), deck_idx, r@),
{
    let is_last_floor = match state.map.active_y {
        Some(y) => y == MAP_HEIGHT - 1,
        None => false,
    };

    let mut v: Vec<Effect> = Vec::new();
    v.push(Effect::CardUpgrade { deck_idx });

    if is_last_floor {
        state.map.active_y = Some(state.map.boss_room_y);
        state.map.active_x = Some(0);
        v.push(Effect::RoomEnter);
    } else {
        v.push(Effect::AwaitMapNode);
    }
    v
}

pub open spec fn spec_upgrade_post(
    s0: GameState,
    s1: GameState,
    deck_idx: usize,
    r: Seq<Effect>,
) -> bool {
    if s0.map.active_y == Some((MAP_HEIGHT - 1) as usize) {
        &&& s1 == (GameState { map: s1.map, ..s0 })
        &&& s1.map == (crate::state::GameMap {
            active_y: Some(s0.map.boss_room_y),
            active_x: Some(0usize),
            ..s0.map
        })
        &&& r =~= seq![Effect::CardUpgrade { deck_idx }, Effect::RoomEnter]
    } else {
        &&& s1 == s0
        &&& r =~= seq![Effect::CardUpgrade { deck_idx }, Effect::AwaitMapNode]
    }
}

} // verus!
