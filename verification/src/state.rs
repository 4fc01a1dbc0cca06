//! The mutable world: cards, combatant vitals, monsters, the map position,
//! and the single `GameState` that owns everything, including the effect
//! queue and the seeded random source.

use vstd::prelude::*;
use std::collections::VecDeque;
use crate::effect::{Effect, EffectTemplate, SelectionKind, TargetKind};
use crate::modifier::Modifiers;
use crate::modifier::modifiers_new;
use crate::types::{CardColor, CardName, CardRarity, CardType, Fsm, MonsterKind, MonsterName, RoomType};

verus! {

// ---------------------------------------------------------------------------
// Card: immutable card blueprint
// ---------------------------------------------------------------------------

#[derive(Debug, Clone)]
pub struct Card {
    pub name: CardName,
    pub kind: CardType,
    pub color: CardColor,
    pub rarity: CardRarity,
    pub cost: u8,
    pub upgraded: bool,
    pub exhaust: bool,
    pub innate: bool,
    pub effects: Vec<EffectTemplate>,
}

/// Whether a template aims at the player-chosen single target.
pub open spec fn spec_targets_card_target(e: EffectTemplate) -> bool {
    ||| e matches EffectTemplate::DamagePhysical { target: TargetKind::CardTarget, .. }
    ||| e matches EffectTemplate::BlockGain { target: TargetKind::CardTarget, .. }
    ||| e matches EffectTemplate::ModifierGain { target: TargetKind::CardTarget, .. }
    ||| e matches EffectTemplate::ModifierRemove { target: TargetKind::CardTarget, .. }
}

impl Card {
    /// Scalar fields agree with `other` and the template lists are equal.
    pub open spec fn same_card(self, other: Card) -> bool {
        &&& self.name == other.name
        &&& self.kind == other.kind
        &&& self.color == other.color
        &&& self.rarity == other.rarity
        &&& self.cost == other.cost
        &&& self.upgraded == other.upgraded
        &&& self.exhaust == other.exhaust
        &&& self.innate == other.innate
        &&& self.effects@ == other.effects@
    }

    pub open spec fn spec_requires_target(self) -> bool {
        exists|i: int| 0 <= i < self.effects@.len()
            && spec_targets_card_target(#[trigger] self.effects@[i])
    }

    pub open spec fn spec_requires_discard(self) -> bool {
        exists|i: int| 0 <= i < self.effects@.len()
            && #[trigger] self.effects@[i]
                == (EffectTemplate::CardDiscard { selection: SelectionKind::Input })
    }

    /// A card needs a chosen target iff one of its templates aims at the
    /// player-chosen single target.
    pub fn requires_target(&self) -> (r: bool)
        ensures
            r == self.spec_requires_target(),
    {
        let mut i: usize = 0;
        while i < self.effects.len()
            invariant
                i <= self.effects@.len(),
                forall|j: int| 0 <= j < i
                    ==> !spec_targets_card_target(#[trigger] self.effects@[j]),
            decreases self.effects@.len() - i,
        {
            let hit = match self.effects[i] {
                EffectTemplate::DamagePhysical { target: TargetKind::CardTarget, .. } => true,
                EffectTemplate::BlockGain { target: TargetKind::CardTarget, .. } => true,
                EffectTemplate::ModifierGain { target: TargetKind::CardTarget, .. } => true,
                EffectTemplate::ModifierRemove { target: TargetKind::CardTarget, .. } => true,
                _ => false,
            };
            if hit {
                return true;
            }
            i = i + 1;
        }
        false
    }

    /// A card awaits a discard choice iff one of its templates is an
    /// input-selected discard.
    pub fn requires_discard(&self) -> (r: bool)
        ensures
            r == self.spec_requires_discard(),
    {
        let mut i: usize = 0;
        while i < self.effects.len()
            invariant
                i <= self.effects@.len(),
                forall|j: int| 0 <= j < i ==> #[trigger] self.effects@[j]
                    != (EffectTemplate::CardDiscard { selection: SelectionKind::Input }),
            decreases self.effects@.len() - i,
        {
            if matches!(
                self.effects[i],
                EffectTemplate::CardDiscard { selection: SelectionKind::Input }
            ) {
                return true;
            }
            i = i + 1;
        }
        false
    }
}

/// An exact copy of a card (its template list is element-for-element equal).
pub fn card_dup(c: &Card) -> (r: Card)
    ensures
        r.same_card(*c),
{
    let mut effects: Vec<EffectTemplate> = Vec::new();
    let mut i: usize = 0;
    while i < c.effects.len()
        invariant
            i <= c.effects@.len(),
            effects@ == c.effects@.subrange(0, i as int),
        decreases c.effects@.len() - i,
    {
        effects.push(c.effects[i]);
        proof {
            assert(effects@ =~= c.effects@.subrange(0, i + 1));
        }
        i = i + 1;
    }
    proof {
        assert(effects@ =~= c.effects@);
    }
    Card {
        name: c.name,
        kind: c.kind,
        color: c.color,
        rarity: c.rarity,
        cost: c.cost,
        upgraded: c.upgraded,
        exhaust: c.exhaust,
        innate: c.innate,
        effects,
    }
}

// ---------------------------------------------------------------------------
// Vitals: shared health/block/modifier state
// ---------------------------------------------------------------------------

#[derive(Debug, Clone)]
pub struct Vitals {
    pub health: u16,
    pub health_max: u16,
    pub block: u16,
    pub modifiers: Modifiers,
}

impl Vitals {
    pub open spec fn wf(self) -> bool {
        &&& self.modifiers.wf()
        &&& self.health <= self.health_max
    }
}

pub fn vitals_new(health: u16, health_max: u16) -> (v: Vitals)
    requires
        health <= health_max,
    ensures
        v.wf(),
        v.health == health,
        v.health_max == health_max,
        v.block == 0,
        forall|kind: crate::modifier::ModifierKind| !(#[trigger] v.modifiers.spec_has(kind)),
{
    Vitals { health, health_max, block: 0, modifiers: modifiers_new() }
}

// ---------------------------------------------------------------------------
// Character
// ---------------------------------------------------------------------------

#[derive(Debug, Clone)]
pub struct Character {
    pub vitals: Vitals,
    pub reward_roll_offset: i8,
}

// ---------------------------------------------------------------------------
// Intent: display-only summary of a monster move's base numbers
// ---------------------------------------------------------------------------

#[derive(Debug, Clone, Copy, Default, PartialEq, Eq, Structural)]
pub struct Intent {
    pub damage: Option<u16>,
    pub instances: Option<u8>,
    pub block: bool,
    pub buff: bool,
    pub debuff: bool,
}

impl Intent {
    pub fn attack(damage: u16, instances: u8) -> (r: Self)
        ensures
            r == (Intent {
                damage: Some(damage),
                instances: Some(instances),
                block: false,
                buff: false,
                debuff: false,
            }),
    {
        Intent {
            damage: Some(damage),
            instances: Some(instances),
            block: false,
            buff: false,
            debuff: false,
        }
    }

    pub fn attack_block(damage: u16, instances: u8) -> (r: Self)
        ensures
            r == (Intent {
                damage: Some(damage),
                instances: Some(instances),
                block: true,
                buff: false,
                debuff: false,
            }),
    {
        Intent {
            damage: Some(damage),
            instances: Some(instances),
            block: true,
            buff: false,
            debuff: false,
        }
    }

    pub fn buff() -> (r: Self)
        ensures
            r == (Intent {
                damage: None,
                instances: None,
                block: false,
                buff: true,
                debuff: false,
            }),
    {
        Intent { damage: None, instances: None, block: false, buff: true, debuff: false }
    }

    pub fn buff_block() -> (r: Self)
        ensures
            r == (Intent {
                damage: None,
                instances: None,
                block: true,
                buff: true,
                debuff: false,
            }),
    {
        Intent { damage: None, instances: None, block: true, buff: true, debuff: false }
    }

    pub fn block_only() -> (r: Self)
        ensures
            r == (Intent {
                damage: None,
                instances: None,
                block: true,
                buff: false,
                debuff: false,
            }),
    {
        Intent { damage: None, instances: None, block: true, buff: false, debuff: false }
    }

    pub fn debuff() -> (r: Self)
        ensures
            r == (Intent {
                damage: None,
                instances: None,
                block: false,
                buff: false,
                debuff: true,
            }),
    {
        Intent { damage: None, instances: None, block: false, buff: false, debuff: true }
    }
}

// ---------------------------------------------------------------------------
// Monster moves and monsters
// ---------------------------------------------------------------------------

#[derive(Debug, Clone)]
pub struct Move {
    pub name: &'static str,
    pub effects: Vec<EffectTemplate>,
    pub intent: Intent,
}

/// How many moves each archetype's table holds.
pub open spec fn spec_move_count(name: MonsterName) -> int {
    match name {
        MonsterName::Cultist => 2,
        MonsterName::Dummy => 2,
        MonsterName::FungiBeast => 2,
        MonsterName::JawWorm => 3,
        MonsterName::LouseGreen => 2,
        MonsterName::TheGuardian => 7,
    }
}

#[derive(Debug, Clone)]
pub struct Monster {
    pub name: MonsterName,
    pub kind: MonsterKind,
    pub vitals: Vitals,
    pub moves: Vec<Move>,
    pub move_current: Option<usize>,
    pub move_history: Vec<usize>,
}

impl Monster {
    pub open spec fn wf(self) -> bool {
        &&& self.vitals.wf()
        &&& self.moves@.len() == spec_move_count(self.name)
        &&& (self.move_current matches Some(mi) ==> mi < self.moves@.len())
    }
}

// ---------------------------------------------------------------------------
// Energy
// ---------------------------------------------------------------------------

#[derive(Debug, Clone, Copy, PartialEq, Eq, Structural)]
pub struct Energy {
    pub current: u8,
    pub max: u8,
}

// ---------------------------------------------------------------------------
// Map
// ---------------------------------------------------------------------------

pub const MAP_HEIGHT: usize = 15;
pub const MAP_WIDTH: usize = 7;

#[derive(Debug, Clone)]
pub struct MapNode {
    pub y: usize,
    pub x: usize,
    pub room_type: RoomType,
    pub x_next: Vec<usize>,
}

#[derive(Debug, Clone)]
pub struct GameMap {
    pub nodes: Vec<Vec<Option<MapNode>>>,
    pub active_y: Option<usize>,
    pub active_x: Option<usize>,
    pub boss_room_y: usize,
}

impl GameMap {
    /// The node grid is `MAP_HEIGHT` rows of `MAP_WIDTH` columns, the boss
    /// room sits one row past the grid, and the active position is inside
    /// the grid-plus-boss-row area.
    pub open spec fn wf(self) -> bool {
        &&& self.nodes@.len() == MAP_HEIGHT
        &&& forall|y: int| 0 <= y < MAP_HEIGHT ==> (#[trigger] self.nodes@[y])@.len() == MAP_WIDTH
        &&& self.boss_room_y == MAP_HEIGHT
        &&& (self.active_y matches Some(y) ==> y <= MAP_HEIGHT)
        &&& (self.active_x matches Some(x) ==> x < MAP_WIDTH)
    }

    pub open spec fn spec_active_node(self) -> Option<MapNode> {
        match (self.active_y, self.active_x) {
            (Some(y), Some(x)) => {
                if y >= self.nodes@.len() {
                    None
                } else {
                    self.nodes@[y as int]@[x as int]
                }
            },
            _ => None,
        }
    }

    pub open spec fn spec_active_room_type(self) -> Option<RoomType> {
        match self.active_y {
            Some(y) => {
                if y == self.boss_room_y {
                    Some(RoomType::CombatBoss)
                } else {
                    match self.spec_active_node() {
                        Some(n) => Some(n.room_type),
                        None => None,
                    }
                }
            },
            None => None,
        }
    }

    pub fn active_node(&self) -> (r: Option<&MapNode>)
        requires
            self.wf(),
        ensures
            match r {
                Some(n) => self.spec_active_node() == Some(*n),
                None => self.spec_active_node() is None,
            },
    {
        let y = match self.active_y {
            Some(y) => y,
            None => { return None; },
        };
        let x = match self.active_x {
            Some(x) => x,
            None => { return None; },
        };
        if y >= self.nodes.len() {
            // The boss room is virtual, not in the grid.
            return None;
        }
        self.nodes[y][x].as_ref()
    }

    pub fn active_room_type(&self) -> (r: Option<RoomType>)
        requires
            self.wf(),
        ensures
            r == self.spec_active_room_type(),
    {
        let y = match self.active_y {
            Some(y) => y,
            None => { return None; },
        };
        if y == self.boss_room_y {
            return Some(RoomType::CombatBoss);
        }
        match self.active_node() {
            Some(n) => Some(n.room_type),
            None => None,
        }
    }

    pub fn is_boss_room(&self) -> (r: bool)
        ensures
            r == (self.active_y matches Some(y) && y == self.boss_room_y),
    {
        match self.active_y {
            Some(y) => y == self.boss_room_y,
            None => false,
        }
    }
}

// ---------------------------------------------------------------------------
// GameState: the single source of truth
// ---------------------------------------------------------------------------

#[derive(Debug)]
pub struct GameState {
    // Meta
    pub ascension: u8,
    pub fsm: Fsm,
    pub rng: rand::rngs::SmallRng,

    // Character
    pub character: Character,
    pub energy: Energy,

    // Permanent deck
    pub deck: Vec<Card>,

    // Combat card pool + piles (indices into combat_cards)
    pub combat_cards: Vec<Card>,
    pub draw_pile: Vec<usize>,
    pub hand: Vec<usize>,
    pub discard_pile: Vec<usize>,
    pub exhaust_pile: Vec<usize>,

    // Active card / target
    pub card_active: Option<usize>,
    pub card_target: Option<u8>,

    // Monsters
    pub monsters: Vec<Monster>,

    // Card rewards
    pub card_rewards: Vec<Card>,

    // Map
    pub map: GameMap,

    // Effect queue
    pub effect_queue: VecDeque<Effect>,
}

impl GameState {
    /// Every pile entry (and the active card, if any) indexes into the
    /// combat card pool.
    pub open spec fn piles_wf(self) -> bool {
        &&& forall|i: int| 0 <= i < self.draw_pile@.len()
            ==> #[trigger] self.draw_pile@[i] < self.combat_cards@.len()
        &&& forall|i: int| 0 <= i < self.hand@.len()
            ==> #[trigger] self.hand@[i] < self.combat_cards@.len()
        &&& forall|i: int| 0 <= i < self.discard_pile@.len()
            ==> #[trigger] self.discard_pile@[i] < self.combat_cards@.len()
        &&& forall|i: int| 0 <= i < self.exhaust_pile@.len()
            ==> #[trigger] self.exhaust_pile@[i] < self.combat_cards@.len()
        &&& (self.card_active matches Some(ci) ==> ci < self.combat_cards@.len())
    }

    /// The structural invariant every engine entry point preserves.
    pub open spec fn wf(self) -> bool {
        &&& self.character.vitals.wf()
        &&& self.piles_wf()
        &&& forall|i: int| 0 <= i < self.monsters@.len() ==> (#[trigger] self.monsters@[i]).wf()
        &&& self.map.wf()
    }

    /// The queue head, if any, is a pause/terminal marker; this is what the
    /// state-machine derivation reads, and it holds whenever the queue
    /// driver has returned control to the caller.
    pub open spec fn fsm_input_ok(self) -> bool {
        self.effect_queue@.len() > 0 ==> self.effect_queue@[0].is_wait_marker()
    }
}

} // verus!
