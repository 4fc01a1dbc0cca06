//! Unit tests for the numeric rules, the modifier store, the card catalog,
//! monster spawning and move selection, and map generation.

use rand::SeedableRng;
use rand::rngs::SmallRng;
use slai::card::{get_card, reward_pool_common, reward_pool_rare, reward_pool_uncommon};
use slai::modifier::{
    MODIFIER_COUNT, ModifierKind, modifier_apply, modifier_def, modifier_has, modifier_remove,
    modifier_set_not_new, modifier_stacks, modifier_tick, modifiers_new,
};
use slai::monster::{select_next_move, spawn_dummy, spawn_monster, spawn_the_guardian};
use slai::process::attack_damage;
use slai::action::rest_heal_amount;
use slai::state::MAP_HEIGHT;
use slai::types::{CardName, CardRarity, CardType, MonsterKind, MonsterName, RoomType};

// ---------------------------------------------------------------------------
// Damage formula
// ---------------------------------------------------------------------------

#[test]
fn damage_formula_exact_values() {
    // Base only.
    assert_eq!(attack_damage(6, 0, false, false, false), 6);
    // Strength adds before any factor.
    assert_eq!(attack_damage(6, 3, false, false, false), 9);
    // Weak multiplies by 3/4, truncated once at the end: 6 * 0.75 = 4.5.
    assert_eq!(attack_damage(6, 0, true, false, false), 4);
    // Vulnerable multiplies by 3/2: 6 * 1.5 = 9.
    assert_eq!(attack_damage(6, 0, false, true, false), 9);
    // Weak and vulnerable compose before truncation: 6 * 9/8 = 6.75.
    assert_eq!(attack_damage(6, 0, true, true, false), 6);
    // Double damage doubles at the end.
    assert_eq!(attack_damage(6, 0, false, false, true), 12);
    // All together: (6+3) * 3/4 * 3/2 * 2 = 20.25.
    assert_eq!(attack_damage(6, 3, true, true, true), 20);
    // Negative strength can zero an attack, never underflow.
    assert_eq!(attack_damage(6, -6, false, false, false), 0);
    assert_eq!(attack_damage(6, -10, false, true, true), 0);
}

#[test]
fn rest_heal_is_three_tenths_truncated() {
    assert_eq!(rest_heal_amount(70), 21);
    assert_eq!(rest_heal_amount(66), 19);
    assert_eq!(rest_heal_amount(1), 0);
}

// ---------------------------------------------------------------------------
// Modifier store
// ---------------------------------------------------------------------------

#[test]
fn modifier_gain_clamps_into_range() {
    let mut m = modifiers_new();
    modifier_apply(&mut m, ModifierKind::Vulnerable, 2000);
    assert!(modifier_has(&m, ModifierKind::Vulnerable));
    assert_eq!(modifier_stacks(&m, ModifierKind::Vulnerable), 999);

    modifier_apply(&mut m, ModifierKind::Dexterity, -5000);
    assert_eq!(modifier_stacks(&m, ModifierKind::Dexterity), -999);

    // Adding onto a present kind re-clamps.
    modifier_apply(&mut m, ModifierKind::Vulnerable, 50);
    assert_eq!(modifier_stacks(&m, ModifierKind::Vulnerable), 999);

    // Every present kind sits inside its clamp range.
    for i in 0..MODIFIER_COUNT as u8 {
        let kind = ModifierKind::from_u8(i);
        if modifier_has(&m, kind) {
            let cfg = modifier_def(kind);
            let st = modifier_stacks(&m, kind);
            assert!(cfg.min_stacks <= st && st <= cfg.max_stacks);
        }
    }
}

#[test]
fn modifier_gain_marks_new_and_tick_spares_new() {
    let mut m = modifiers_new();
    modifier_apply(&mut m, ModifierKind::Weak, 2);
    assert!(m.is_new[17]); // Weak's table position
    // A tick in the turn of application leaves the stacks alone.
    modifier_tick(&mut m);
    assert_eq!(modifier_stacks(&m, ModifierKind::Weak), 2);
    // After the newness flag clears, each tick drops one stack.
    modifier_set_not_new(&mut m);
    modifier_tick(&mut m);
    assert_eq!(modifier_stacks(&m, ModifierKind::Weak), 1);
    modifier_tick(&mut m);
    assert_eq!(modifier_stacks(&m, ModifierKind::Weak), 0);
    // Dropping below the minimum removes the kind entirely.
    modifier_tick(&mut m);
    assert!(!modifier_has(&m, ModifierKind::Weak));
    assert_eq!(modifier_stacks(&m, ModifierKind::Weak), 0);
    assert!(!m.is_new[17]);
}

#[test]
fn non_duration_modifiers_do_not_decay() {
    let mut m = modifiers_new();
    modifier_apply(&mut m, ModifierKind::Strength, 3);
    modifier_set_not_new(&mut m);
    modifier_tick(&mut m);
    assert_eq!(modifier_stacks(&m, ModifierKind::Strength), 3);
}

#[test]
fn modifier_removal_clears_all_three_parts() {
    let mut m = modifiers_new();
    modifier_apply(&mut m, ModifierKind::Blur, 4);
    modifier_remove(&mut m, ModifierKind::Blur);
    assert!(!modifier_has(&m, ModifierKind::Blur));
    assert_eq!(modifier_stacks(&m, ModifierKind::Blur), 0);
    assert!(!m.is_new[2]); // Blur's table position
}

#[test]
fn modifier_kind_round_trips_through_index() {
    for i in 0..MODIFIER_COUNT as u8 {
        let kind = ModifierKind::from_u8(i);
        assert_eq!(kind.idx(), i as usize);
    }
}

// ---------------------------------------------------------------------------
// Card catalog
// ---------------------------------------------------------------------------

#[test]
fn catalog_matches_card_text() {
    let strike = get_card(CardName::Strike, false);
    assert_eq!(strike.cost, 1);
    assert_eq!(strike.kind, CardType::Attack);
    assert_eq!(strike.rarity, CardRarity::Basic);
    assert!(!strike.exhaust && !strike.innate);

    let defend_plus = get_card(CardName::Defend, true);
    assert!(defend_plus.upgraded);
    match defend_plus.effects[0] {
        slai::effect::EffectTemplate::BlockGain { amount, .. } => assert_eq!(amount, 8),
        ref other => panic!("unexpected template {:?}", other),
    }

    // Upgrading Terror drops its cost to zero.
    assert_eq!(get_card(CardName::Terror, false).cost, 1);
    assert_eq!(get_card(CardName::Terror, true).cost, 0);

    // Upgrading Calculated Gamble removes its exhaust.
    assert!(get_card(CardName::CalculatedGamble, false).exhaust);
    assert!(!get_card(CardName::CalculatedGamble, true).exhaust);

    // Backstab is innate in both versions.
    assert!(get_card(CardName::Backstab, false).innate);
    assert!(get_card(CardName::Backstab, true).innate);

    // Shiv is the colorless special.
    let shiv = get_card(CardName::Shiv, false);
    assert_eq!(shiv.color, slai::types::CardColor::Colorless);
    assert_eq!(shiv.rarity, CardRarity::Special);
    assert_eq!(shiv.cost, 0);
    assert!(shiv.exhaust);
}

#[test]
fn requires_target_and_discard_flags() {
    assert!(get_card(CardName::Strike, false).requires_target());
    assert!(!get_card(CardName::Defend, false).requires_target());
    assert!(get_card(CardName::Survivor, false).requires_discard());
    assert!(!get_card(CardName::Strike, false).requires_discard());
    // All-out attack hits everyone without a chosen target.
    assert!(!get_card(CardName::AllOutAttack, false).requires_target());
}

#[test]
fn reward_pools_partition_by_rarity() {
    for name in reward_pool_common() {
        assert_eq!(get_card(name, false).rarity, CardRarity::Common);
    }
    for name in reward_pool_uncommon() {
        assert_eq!(get_card(name, false).rarity, CardRarity::Uncommon);
    }
    for name in reward_pool_rare() {
        assert_eq!(get_card(name, false).rarity, CardRarity::Rare);
    }
    assert_eq!(reward_pool_common().len(), 9);
    assert_eq!(reward_pool_uncommon().len(), 10);
    assert_eq!(reward_pool_rare().len(), 6);
}

#[test]
fn card_names_render() {
    assert_eq!(CardName::AThousandCuts.as_str(), "A Thousand Cuts");
    assert_eq!(CardName::Strike.as_str(), "Strike");
    assert_eq!(MonsterName::LouseGreen.as_str(), "Louse (green)");
}

// ---------------------------------------------------------------------------
// Monsters
// ---------------------------------------------------------------------------

#[test]
fn spawn_health_stays_in_documented_ranges() {
    for seed in 0..24u64 {
        let mut rng = SmallRng::seed_from_u64(seed);
        let jw = spawn_monster(MonsterName::JawWorm, 0, &mut rng);
        assert!((40..=44).contains(&jw.vitals.health_max));
        let jw7 = spawn_monster(MonsterName::JawWorm, 7, &mut rng);
        assert!((42..=46).contains(&jw7.vitals.health_max));
        let cu = spawn_monster(MonsterName::Cultist, 0, &mut rng);
        assert!((48..=54).contains(&cu.vitals.health_max));
        let fb = spawn_monster(MonsterName::FungiBeast, 0, &mut rng);
        assert!((22..=28).contains(&fb.vitals.health_max));
        let lg = spawn_monster(MonsterName::LouseGreen, 0, &mut rng);
        assert!((10..=15).contains(&lg.vitals.health_max));
    }
}

#[test]
fn guardian_spawns_with_mode_shift_counter() {
    let g = spawn_the_guardian(0);
    assert_eq!(g.kind, MonsterKind::Boss);
    assert_eq!(g.vitals.health_max, 240);
    assert!(modifier_has(&g.vitals.modifiers, ModifierKind::ModeShift));
    assert_eq!(modifier_stacks(&g.vitals.modifiers, ModifierKind::ModeShift), 30);
    let g9 = spawn_the_guardian(9);
    assert_eq!(g9.vitals.health_max, 250);
    assert_eq!(modifier_stacks(&g9.vitals.modifiers, ModifierKind::ModeShift), 35);
    let g19 = spawn_the_guardian(19);
    assert_eq!(modifier_stacks(&g19.vitals.modifiers, ModifierKind::ModeShift), 40);
}

#[test]
fn fungi_beast_spawns_with_spore_cloud() {
    let mut rng = SmallRng::seed_from_u64(1);
    let fb = spawn_monster(MonsterName::FungiBeast, 0, &mut rng);
    assert!(modifier_has(&fb.vitals.modifiers, ModifierKind::SporeCloud));
    assert_eq!(modifier_stacks(&fb.vitals.modifiers, ModifierKind::SporeCloud), 2);
}

#[test]
fn cultist_chants_then_strikes() {
    let mut rng = SmallRng::seed_from_u64(2);
    let mut cu = spawn_monster(MonsterName::Cultist, 0, &mut rng);
    let first = select_next_move(&cu, 0, &mut rng);
    assert_eq!(first, 0); // Incantation
    cu.move_current = Some(first);
    cu.move_history.push(first);
    for _ in 0..4 {
        let nxt = select_next_move(&cu, 0, &mut rng);
        assert_eq!(nxt, 1); // Dark Strike forever after
        cu.move_current = Some(nxt);
        cu.move_history.push(nxt);
    }
}

#[test]
fn guardian_cycles_offense_then_defense() {
    let mut rng = SmallRng::seed_from_u64(3);
    let mut g = spawn_the_guardian(0);
    // Offensive cycle while the counter holds.
    let expected = [0usize, 1, 2, 3, 0, 1];
    for &want in &expected {
        let nxt = select_next_move(&g, 0, &mut rng);
        assert_eq!(nxt, want);
        g.move_current = Some(nxt);
        g.move_history.push(nxt);
    }
    // Exhaust the counter: defensive mode entered.
    modifier_remove(&mut g.vitals.modifiers, ModifierKind::ModeShift);
    let d = select_next_move(&g, 0, &mut rng);
    assert_eq!(d, 4); // Defensive Mode
    g.move_current = Some(d);
    g.move_history.push(d);
    // Its sharp hide is up once the move executes.
    modifier_apply(&mut g.vitals.modifiers, ModifierKind::SharpHide, 3);
    let r = select_next_move(&g, 0, &mut rng);
    assert_eq!(r, 5); // Roll Attack
    g.move_current = Some(r);
    g.move_history.push(r);
    let t = select_next_move(&g, 0, &mut rng);
    assert_eq!(t, 6); // Twin Slam
}

#[test]
fn jaw_worm_never_repeats_forbidden_moves() {
    // The anti-repeat constraints: no second chomp in a row, no third
    // thrash, no second bellow.
    for seed in 0..40u64 {
        let mut rng = SmallRng::seed_from_u64(seed);
        let mut jw = spawn_monster(MonsterName::JawWorm, 0, &mut rng);
        let mut prev: Option<usize> = None;
        let mut prev2: Option<usize> = None;
        for _ in 0..30 {
            let nxt = select_next_move(&jw, 0, &mut rng);
            assert!(nxt < 3);
            if let Some(p) = prev {
                if jw.move_current.is_some() {
                    assert!(!(p == 0 && nxt == 0), "chomp repeated");
                    assert!(!(p == 1 && nxt == 1), "bellow repeated");
                    if prev2 == Some(2) && p == 2 {
                        assert!(nxt != 2, "thrash tripled");
                    }
                }
            }
            jw.move_current = Some(nxt);
            jw.move_history.push(nxt);
            prev2 = prev;
            prev = Some(nxt);
        }
    }
}

#[test]
fn dummy_alternates_moves() {
    let mut rng = SmallRng::seed_from_u64(4);
    let mut d = spawn_dummy();
    let first = select_next_move(&d, 0, &mut rng);
    d.move_current = Some(first);
    d.move_history.push(first);
    let mut last = first;
    for _ in 0..6 {
        let nxt = select_next_move(&d, 0, &mut rng);
        assert_eq!(nxt, 1 - last);
        d.move_current = Some(nxt);
        d.move_history.push(nxt);
        last = nxt;
    }
}

// ---------------------------------------------------------------------------
// Map generation
// ---------------------------------------------------------------------------

#[test]
fn generated_map_is_well_formed() {
    for seed in 0..8u64 {
        let mut rng = SmallRng::seed_from_u64(seed);
        let map = slai::game_map::generate_map(&mut rng);
        assert_eq!(map.nodes.len(), MAP_HEIGHT);
        assert!(map.active_y.is_none() && map.active_x.is_none());
        assert_eq!(map.boss_room_y, MAP_HEIGHT);
        let mut any = false;
        for row in &map.nodes {
            assert_eq!(row.len(), 7);
            for n in row.iter().flatten() {
                any = true;
                for &x in &n.x_next {
                    assert!(x < 7);
                }
            }
        }
        assert!(any, "a generated map holds at least one room");
        // The last row holds only rest sites.
        for n in map.nodes[MAP_HEIGHT - 1].iter().flatten() {
            assert_eq!(n.room_type, RoomType::RestSite);
        }
        // The first row has at least one entry point.
        assert!(map.nodes[0].iter().any(|n| n.is_some()));
    }
}

#[test]
fn upgraded_acrobatics_and_backflip_values() {
    // Acrobatics+ draws one more card.
    match get_card(CardName::Acrobatics, false).effects[0] {
        slai::effect::EffectTemplate::CardDraw { count } => assert_eq!(count, 3),
        ref other => panic!("unexpected template {:?}", other),
    }
    match get_card(CardName::Acrobatics, true).effects[0] {
        slai::effect::EffectTemplate::CardDraw { count } => assert_eq!(count, 4),
        ref other => panic!("unexpected template {:?}", other),
    }
    // Backflip+ grants three more block.
    match get_card(CardName::Backflip, false).effects[0] {
        slai::effect::EffectTemplate::BlockGain { amount, .. } => assert_eq!(amount, 5),
        ref other => panic!("unexpected template {:?}", other),
    }
    match get_card(CardName::Backflip, true).effects[0] {
        slai::effect::EffectTemplate::BlockGain { amount, .. } => assert_eq!(amount, 8),
        ref other => panic!("unexpected template {:?}", other),
    }
}
