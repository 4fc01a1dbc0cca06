//! End-to-end scenarios driven through the public engine API.

use slai::action::Action;
use slai::card::get_card;
use slai::effect::Effect;
use slai::game::{create_game_state, determine_fsm, initialize, step};
use slai::monster::spawn_dummy;
use slai::state::{GameMap, GameState, MapNode, MAP_HEIGHT, MAP_WIDTH};
use slai::types::{CardName, Fsm, RoomType};

/// A minimal map whose single node at (0, 0) has the given room type, with
/// the position already set there.
fn map_with_room(room_type: RoomType) -> GameMap {
    let mut nodes: Vec<Vec<Option<MapNode>>> = Vec::new();
    for y in 0..MAP_HEIGHT {
        let mut row: Vec<Option<MapNode>> = Vec::new();
        for x in 0..MAP_WIDTH {
            if y == 0 && x == 0 {
                row.push(Some(MapNode {
                    y,
                    x,
                    room_type,
                    x_next: Vec::new(),
                }));
            } else {
                row.push(None);
            }
        }
        nodes.push(row);
    }
    GameMap {
        nodes,
        active_y: Some(0),
        active_x: Some(0),
        boss_room_y: MAP_HEIGHT,
    }
}

/// A combat already in progress: one dummy monster, one Strike in hand,
/// full energy, in a monster-combat room.
fn strike_fixture() -> GameState {
    let mut s = create_game_state(0, 7);
    s.map = map_with_room(RoomType::CombatMonster);
    s.monsters = vec![spawn_dummy()];
    s.combat_cards = vec![get_card(CardName::Strike, false)];
    s.hand = vec![0];
    s.fsm = Fsm::CombatDefault;
    s
}

#[test]
fn fresh_game_state() {
    let mut s = create_game_state(0, 42);
    initialize(&mut s);
    assert_eq!(s.character.vitals.health, 70);
    assert_eq!(s.character.vitals.health_max, 70);
    assert_eq!(s.deck.len(), 12);
    let strikes = s.deck.iter().filter(|c| c.name == CardName::Strike).count();
    let defends = s.deck.iter().filter(|c| c.name == CardName::Defend).count();
    let survivors = s.deck.iter().filter(|c| c.name == CardName::Survivor).count();
    let neutralizes = s.deck.iter().filter(|c| c.name == CardName::Neutralize).count();
    assert_eq!(strikes, 5);
    assert_eq!(defends, 5);
    assert_eq!(survivors, 1);
    assert_eq!(neutralizes, 1);
    assert!(s.deck.iter().all(|c| !c.upgraded));
    assert_eq!(s.fsm, Fsm::MapSelect);
    assert_eq!(s.energy.current, 3);
    assert_eq!(s.energy.max, 3);
}

#[test]
fn ascension_health_penalties() {
    let s6 = create_game_state(6, 1);
    assert_eq!(s6.character.vitals.health, 63);
    assert_eq!(s6.character.vitals.health_max, 70);
    let s14 = create_game_state(14, 1);
    assert_eq!(s14.character.vitals.health, 59);
    assert_eq!(s14.character.vitals.health_max, 66);
}

#[test]
fn strike_deals_exactly_six_and_costs_one() {
    let mut s = strike_fixture();
    assert_eq!(s.monsters[0].vitals.health, 50);
    step(&mut s, Action::PlayCard { hand_idx: 0 });
    assert_eq!(s.monsters.len(), 1);
    assert_eq!(s.monsters[0].vitals.health, 44);
    assert_eq!(s.monsters[0].vitals.block, 0);
    assert_eq!(s.energy.current, 2);
    assert!(s.hand.is_empty());
    assert_eq!(s.discard_pile, vec![0]);
}

#[test]
fn killing_last_monster_ends_combat_and_rolls_rewards() {
    let mut s = strike_fixture();
    s.monsters[0].vitals.health = 5;
    step(&mut s, Action::PlayCard { hand_idx: 0 });
    // The monster left the live list; combat ended; a reward roll queued
    // three choices and the engine awaits the pick.
    assert!(s.monsters.is_empty());
    assert!(s.combat_cards.is_empty());
    assert!(s.hand.is_empty() && s.draw_pile.is_empty() && s.discard_pile.is_empty());
    assert_eq!(s.card_rewards.len(), 3);
    assert_eq!(s.fsm, Fsm::CardReward);
    // The three rolled rewards carry distinct names, all unupgraded.
    assert!(s.card_rewards[0].name != s.card_rewards[1].name);
    assert!(s.card_rewards[0].name != s.card_rewards[2].name);
    assert!(s.card_rewards[1].name != s.card_rewards[2].name);
    assert!(s.card_rewards.iter().all(|c| !c.upgraded));
    // Three rolls from the starting pity offset leave it in range.
    assert!(s.character.reward_roll_offset <= 5 && s.character.reward_roll_offset >= -40);
}

#[test]
fn killing_boss_ends_game() {
    let mut s = strike_fixture();
    s.map = map_with_room(RoomType::CombatMonster);
    s.map.active_y = Some(MAP_HEIGHT); // the virtual boss room
    s.map.active_x = Some(0);
    s.monsters[0].vitals.health = 1;
    step(&mut s, Action::PlayCard { hand_idx: 0 });
    assert_eq!(s.fsm, Fsm::GameOver);
}

#[test]
fn end_turn_restores_energy_to_max() {
    let mut s = strike_fixture();
    step(&mut s, Action::PlayCard { hand_idx: 0 });
    assert_eq!(s.energy.current, 2);
    step(&mut s, Action::EndTurn);
    assert_eq!(s.energy.current, 3);
    assert_eq!(s.energy.max, 3);
}

#[test]
fn block_absorbs_damage_before_health() {
    let mut s = strike_fixture();
    s.monsters[0].vitals.block = 4;
    step(&mut s, Action::PlayCard { hand_idx: 0 });
    // 6 damage against 4 block: block exhausted, 2 health lost.
    assert_eq!(s.monsters[0].vitals.block, 0);
    assert_eq!(s.monsters[0].vitals.health, 48);

    let mut s2 = strike_fixture();
    s2.monsters[0].vitals.block = 10;
    step(&mut s2, Action::PlayCard { hand_idx: 0 });
    // 6 damage against 10 block: health untouched.
    assert_eq!(s2.monsters[0].vitals.block, 4);
    assert_eq!(s2.monsters[0].vitals.health, 50);
}

#[test]
fn entering_monster_room_spawns_encounter() {
    for seed in 0..12u64 {
        let mut s = create_game_state(0, seed);
        s.map = map_with_room(RoomType::CombatMonster);
        s.effect_queue.push_back(Effect::RoomEnter);
        slai::process::process_queue(&mut s);
        // The fixed three-outcome table: one jaw worm, one cultist, or two
        // fungi beasts — each inside its documented hit-point range.
        assert!(s.monsters.len() == 1 || s.monsters.len() == 2);
        for m in &s.monsters {
            let (lo, hi) = match m.name {
                slai::types::MonsterName::JawWorm => (40, 44),
                slai::types::MonsterName::Cultist => (48, 54),
                slai::types::MonsterName::FungiBeast => (22, 28),
                other => panic!("unexpected encounter member {:?}", other),
            };
            assert!(m.vitals.health_max >= lo && m.vitals.health_max <= hi);
            assert_eq!(m.vitals.health, m.vitals.health_max);
        }
        if s.monsters.len() == 2 {
            assert_eq!(s.monsters[0].name, slai::types::MonsterName::FungiBeast);
            assert_eq!(s.monsters[1].name, slai::types::MonsterName::FungiBeast);
        }
    }
}

#[test]
fn combat_start_keeps_innate_cards_on_top() {
    let mut s = create_game_state(0, 3);
    s.map = map_with_room(RoomType::CombatMonster);
    s.monsters = vec![spawn_dummy()];
    // Two innate backstabs buried in the deck.
    s.deck = vec![
        get_card(CardName::Strike, false),
        get_card(CardName::Backstab, false),
        get_card(CardName::Defend, false),
        get_card(CardName::Strike, false),
        get_card(CardName::Backstab, false),
        get_card(CardName::Defend, false),
    ];
    // Process only the combat-start effect itself, so the draw pile can be
    // inspected before the first turn draws from it.
    let r = slai::process::process_effect(&mut s, Effect::CombatStart);
    assert!(!r.halt && !r.pause);
    assert_eq!(s.draw_pile.len(), 6);
    // Innate cards first, nothing innate below them.
    assert!(s.combat_cards[s.draw_pile[0]].innate);
    assert!(s.combat_cards[s.draw_pile[1]].innate);
    for j in 2..6 {
        assert!(!s.combat_cards[s.draw_pile[j]].innate);
    }
    // The draw pile is a permutation of the whole pool.
    let mut sorted = s.draw_pile.clone();
    sorted.sort();
    assert_eq!(sorted, vec![0, 1, 2, 3, 4, 5]);
}

#[test]
fn rest_site_heals_and_returns_to_map() {
    let mut s = create_game_state(0, 5);
    s.map = map_with_room(RoomType::RestSite);
    s.character.vitals.health = 40;
    s.fsm = Fsm::RestSite;
    step(&mut s, Action::Rest);
    // Three tenths of 70, truncated: 21.
    assert_eq!(s.character.vitals.health, 61);
    assert_eq!(s.fsm, Fsm::MapSelect);
}

#[test]
fn rest_on_last_row_jumps_to_boss() {
    let mut s = create_game_state(0, 5);
    let mut map = map_with_room(RoomType::RestSite);
    // Put the single rest node on the final row instead.
    map.nodes[0][0] = None;
    map.nodes[MAP_HEIGHT - 1][0] = Some(MapNode {
        y: MAP_HEIGHT - 1,
        x: 0,
        room_type: RoomType::RestSite,
        x_next: Vec::new(),
    });
    map.active_y = Some(MAP_HEIGHT - 1);
    map.active_x = Some(0);
    s.map = map;
    s.fsm = Fsm::RestSite;
    step(&mut s, Action::Rest);
    // The boss room is entered at once: the boss is alive and combat is on.
    assert_eq!(s.map.active_y, Some(MAP_HEIGHT));
    assert_eq!(s.monsters.len(), 1);
    assert_eq!(s.monsters[0].name, slai::types::MonsterName::TheGuardian);
    assert_eq!(s.fsm, Fsm::CombatDefault);
}

#[test]
fn upgrade_replaces_deck_card_wholesale() {
    let mut s = create_game_state(0, 5);
    s.map = map_with_room(RoomType::RestSite);
    s.fsm = Fsm::RestSite;
    assert_eq!(s.deck[0].name, CardName::Strike);
    assert!(!s.deck[0].upgraded);
    step(&mut s, Action::Upgrade { deck_idx: 0 });
    assert!(s.deck[0].upgraded);
    assert_eq!(s.deck[0].name, CardName::Strike);
    // The upgraded strike hits for 9.
    match s.deck[0].effects[0] {
        slai::effect::EffectTemplate::DamagePhysical { base, .. } => assert_eq!(base, 9),
        ref other => panic!("unexpected template {:?}", other),
    }
    assert_eq!(s.fsm, Fsm::MapSelect);
}

#[test]
fn reward_selection_grows_deck() {
    let mut s = strike_fixture();
    s.monsters[0].vitals.health = 1;
    step(&mut s, Action::PlayCard { hand_idx: 0 });
    assert_eq!(s.fsm, Fsm::CardReward);
    let picked = s.card_rewards[1].name;
    step(&mut s, Action::SelectCardReward { reward_idx: 1 });
    assert_eq!(s.deck.len(), 13);
    assert_eq!(s.deck[12].name, picked);
    assert!(s.card_rewards.is_empty());
    assert_eq!(s.fsm, Fsm::MapSelect);
}

#[test]
fn reward_skip_keeps_deck() {
    let mut s = strike_fixture();
    s.monsters[0].vitals.health = 1;
    step(&mut s, Action::PlayCard { hand_idx: 0 });
    step(&mut s, Action::SkipCardReward);
    assert_eq!(s.deck.len(), 12);
    assert!(s.card_rewards.is_empty());
    assert_eq!(s.fsm, Fsm::MapSelect);
}

#[test]
fn replaying_a_seed_reproduces_the_state_byte_for_byte() {
    // Run once with a fixed decision policy, recording the actions.
    let mut actions: Vec<Action> = Vec::new();
    let mut s1 = create_game_state(0, 42);
    initialize(&mut s1);
    let col = (0..MAP_WIDTH)
        .find(|&x| s1.map.nodes[0][x].is_some())
        .expect("generated map has a first-row node");
    let a = Action::SelectMapNode { column: col };
    actions.push(a);
    step(&mut s1, a);
    for _ in 0..6 {
        if s1.fsm != Fsm::CombatDefault {
            break;
        }
        let a = Action::EndTurn;
        actions.push(a);
        step(&mut s1, a);
    }

    // An independent run of the same seed and the same action sequence.
    let mut s2 = create_game_state(0, 42);
    initialize(&mut s2);
    for a in &actions {
        step(&mut s2, *a);
    }

    assert_eq!(format!("{:?}", s1), format!("{:?}", s2));
}

#[test]
fn fsm_derivation_is_stable_without_mutation() {
    let mut s = create_game_state(0, 9);
    initialize(&mut s);
    let f1 = determine_fsm(&s);
    let f2 = determine_fsm(&s);
    assert_eq!(f1, f2);
    assert_eq!(f1, Fsm::MapSelect);
    // Fields outside (queue head, active card, room type) do not matter.
    s.energy.current = 0;
    s.character.vitals.health = 1;
    assert_eq!(determine_fsm(&s), f1);
}

#[test]
fn await_discard_pauses_for_input() {
    // Survivor: gain block, then await a discard choice.
    let mut s = create_game_state(0, 11);
    s.map = map_with_room(RoomType::CombatMonster);
    s.monsters = vec![spawn_dummy()];
    s.combat_cards = vec![
        get_card(CardName::Survivor, false),
        get_card(CardName::Defend, false),
    ];
    s.hand = vec![0, 1];
    s.fsm = Fsm::CombatDefault;
    step(&mut s, Action::PlayCard { hand_idx: 0 });
    assert_eq!(s.fsm, Fsm::CombatAwaitDiscard);
    assert_eq!(s.character.vitals.block, 8);
    // Choose the remaining hand card to discard.
    step(&mut s, Action::PlayCard { hand_idx: 0 });
    assert_eq!(s.fsm, Fsm::CombatDefault);
    assert!(s.hand.is_empty());
}

#[test]
fn multi_enemy_targeting_awaits_selection() {
    let mut s = create_game_state(0, 13);
    s.map = map_with_room(RoomType::CombatMonster);
    s.monsters = vec![spawn_dummy(), spawn_dummy()];
    s.combat_cards = vec![get_card(CardName::Strike, false)];
    s.hand = vec![0];
    s.fsm = Fsm::CombatDefault;
    step(&mut s, Action::PlayCard { hand_idx: 0 });
    assert_eq!(s.fsm, Fsm::CombatAwaitTarget);
    assert_eq!(s.card_active, Some(0));
    step(&mut s, Action::SelectMonster { monster_idx: 1 });
    assert_eq!(s.monsters[1].vitals.health, 44);
    assert_eq!(s.monsters[0].vitals.health, 50);
    assert_eq!(s.card_active, None);
    assert_eq!(s.card_target, None);
}

#[test]
fn mode_shift_counter_intercepts_health_loss() {
    let mut s = create_game_state(0, 17);
    s.map = map_with_room(RoomType::CombatMonster);
    s.map.active_y = Some(MAP_HEIGHT);
    s.monsters = vec![slai::monster::spawn_the_guardian(0)];
    // Mid-fight: a move has already been telegraphed.
    s.monsters[0].move_current = Some(3);
    s.monsters[0].move_history.push(3);
    s.fsm = Fsm::CombatDefault;
    // The counter soaks the loss; health stays put.
    s.effect_queue.push_back(Effect::HealthLoss {
        target: slai::types::ActorId::Monster(0),
        amount: 10,
    });
    slai::process::process_queue(&mut s);
    assert_eq!(s.monsters[0].vitals.health, 240);
    assert_eq!(
        slai::modifier::modifier_stacks(
            &s.monsters[0].vitals.modifiers,
            slai::modifier::ModifierKind::ModeShift
        ),
        20
    );
    // Exhausting it removes the counter and forces a move re-selection.
    s.effect_queue.push_back(Effect::HealthLoss {
        target: slai::types::ActorId::Monster(0),
        amount: 25,
    });
    slai::process::process_queue(&mut s);
    assert!(!slai::modifier::modifier_has(
        &s.monsters[0].vitals.modifiers,
        slai::modifier::ModifierKind::ModeShift
    ));
    // With the counter gone and no sharp hide, the boss turtles up.
    assert_eq!(s.monsters[0].move_current, Some(4));
    // Without the counter, losses hit health normally.
    s.effect_queue.push_back(Effect::HealthLoss {
        target: slai::types::ActorId::Monster(0),
        amount: 40,
    });
    slai::process::process_queue(&mut s);
    assert_eq!(s.monsters[0].vitals.health, 200);
}

#[test]
fn burst_doubles_a_skill_and_is_consumed() {
    let mut s = strike_fixture();
    s.combat_cards = vec![get_card(CardName::Defend, false)];
    s.hand = vec![0];
    slai::modifier::modifier_apply(
        &mut s.character.vitals.modifiers,
        slai::modifier::ModifierKind::Burst,
        1,
    );
    step(&mut s, Action::PlayCard { hand_idx: 0 });
    // Defend's five block fired twice under burst.
    assert_eq!(s.character.vitals.block, 10);
    assert!(!slai::modifier::modifier_has(
        &s.character.vitals.modifiers,
        slai::modifier::ModifierKind::Burst
    ));
}

#[test]
fn after_image_and_thousand_cuts_trigger_per_played_card() {
    let mut s = strike_fixture();
    slai::modifier::modifier_apply(
        &mut s.character.vitals.modifiers,
        slai::modifier::ModifierKind::AfterImage,
        1,
    );
    slai::modifier::modifier_apply(
        &mut s.character.vitals.modifiers,
        slai::modifier::ModifierKind::ThousandCuts,
        2,
    );
    step(&mut s, Action::PlayCard { hand_idx: 0 });
    // One block from the after image (no dexterity involved).
    assert_eq!(s.character.vitals.block, 1);
    // Two thousand-cuts damage on top of the strike's six.
    assert_eq!(s.monsters[0].vitals.health, 50 - 6 - 2);
}

#[test]
fn sharp_hide_retaliates_against_attacks() {
    let mut s = strike_fixture();
    slai::modifier::modifier_apply(
        &mut s.monsters[0].vitals.modifiers,
        slai::modifier::ModifierKind::SharpHide,
        3,
    );
    step(&mut s, Action::PlayCard { hand_idx: 0 });
    assert_eq!(s.character.vitals.health, 67);
    assert_eq!(s.monsters[0].vitals.health, 44);
}

#[test]
fn weak_and_vulnerable_round_once_at_the_end() {
    let mut s = strike_fixture();
    slai::modifier::modifier_apply(
        &mut s.character.vitals.modifiers,
        slai::modifier::ModifierKind::Weak,
        2,
    );
    slai::modifier::modifier_apply(
        &mut s.monsters[0].vitals.modifiers,
        slai::modifier::ModifierKind::Vulnerable,
        2,
    );
    step(&mut s, Action::PlayCard { hand_idx: 0 });
    // 6 * 3/4 * 3/2 = 6.75, truncated once: 6 damage.
    assert_eq!(s.monsters[0].vitals.health, 44);
}

#[test]
fn dexterity_boosts_card_block_only() {
    let mut s = strike_fixture();
    s.combat_cards = vec![get_card(CardName::Defend, false)];
    s.hand = vec![0];
    slai::modifier::modifier_apply(
        &mut s.character.vitals.modifiers,
        slai::modifier::ModifierKind::Dexterity,
        3,
    );
    step(&mut s, Action::PlayCard { hand_idx: 0 });
    assert_eq!(s.character.vitals.block, 8);
}
