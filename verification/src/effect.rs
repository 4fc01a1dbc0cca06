//! Effect system: authoring-time effect templates carried by cards and
//! monster moves, and the concrete runtime effects consumed by the
//! processor.

use vstd::prelude::*;
use crate::modifier::ModifierKind;
use crate::types::ActorId;

verus! {

/// Symbolic target of an effect template, resolved at instantiation time.
#[derive(Debug, Clone, Copy, PartialEq, Eq, Structural)]
pub enum TargetKind {
    CardTarget,
    Character,
    AllMonsters,
    Source,
}

/// How a card-discard template picks the card: by player input or at random.
#[derive(Debug, Clone, Copy, PartialEq, Eq, Structural)]
pub enum SelectionKind {
    Input,
    Random,
}

/// Declarative, authoring-time description of an effect with a symbolic
/// target. Never executed directly; always instantiated first.
#[derive(Debug, Clone, Copy, PartialEq, Eq, Structural)]
pub enum EffectTemplate {
    DamagePhysical { base: u16, target: TargetKind },
    BlockGain { amount: u16, target: TargetKind },
    ModifierGain { kind: ModifierKind, stacks: i16, target: TargetKind },
    ModifierRemove { kind: ModifierKind, target: TargetKind },
    EnergyGain { amount: u8 },
    AddShivs { count: u8 },
    CardDraw { count: u8 },
    CardDiscard { selection: SelectionKind },
    CalculatedGamble,
}

/// A concrete, already-targeted unit of work queued during gameplay; the
/// only thing the effect processor consumes.
#[derive(Debug, Clone, Copy, PartialEq, Eq, Structural)]
pub enum Effect {
    // Card operations
    CardDraw { count: u8 },
    CardPlay { card_idx: usize },
    CardDiscard { card_idx: usize },
    CardDiscardRandom,
    CardDiscardAll,
    CardExhaust { card_idx: usize },
    CardRemove { card_idx: usize },
    CardActiveSet { card_idx: usize },
    CardActiveClear,
    AddShivs { count: u8 },
    CalculatedGamble,
    CardUpgrade { deck_idx: usize },

    // Card rewards
    CardRewardRoll,
    CardRewardSelect { reward_idx: usize },
    CardRewardClear,

    // Targeting
    TargetSet { monster_idx: u8 },
    TargetClear,

    // Damage: `DamagePhysical` still needs modifier math; `DamageDeal`
    // mutates directly.
    DamagePhysical { source: ActorId, target: ActorId, base: u16 },
    DamageDeal { target: ActorId, amount: u16 },

    // Vitals
    HealthGain { target: ActorId, amount: u16 },
    HealthLoss { target: ActorId, amount: u16 },
    BlockGain { target: ActorId, amount: u16, from_card: bool },
    BlockSet { target: ActorId, amount: u16 },
    EnergyGain { amount: u8 },
    EnergyLoss { amount: u8 },

    // Modifiers
    ModifierGain { target: ActorId, kind: ModifierKind, stacks: i16 },
    ModifierRemove { target: ActorId, kind: ModifierKind },
    ModifierTick { target: ActorId },
    ModifierSetNotNew,

    // Lifecycle
    Death { actor: ActorId },
    CombatStart,
    CombatEnd,
    TurnStart { actor: ActorId },
    TurnEnd { actor: ActorId },
    MonsterMoveUpdate { monster_idx: u8 },
    RoomEnter,
    GameEnd,

    // Await input: each pauses the queue with itself left at the head.
    AwaitMapNode,
    AwaitCardReward,
    AwaitDiscard,
}

impl Effect {
    /// The pause/terminal markers: an effect that re-inserts itself at the
    /// queue head so the state machine derivation can observe what the
    /// engine is waiting for.
    pub open spec fn is_wait_marker(self) -> bool {
        match self {
            Effect::GameEnd => true,
            Effect::AwaitMapNode => true,
            Effect::AwaitCardReward => true,
            Effect::AwaitDiscard => true,
            _ => false,
        }
    }
}

pub(crate) fn templates1(e0: EffectTemplate) -> (r: Vec<EffectTemplate>)
    ensures
        r@ =~= seq![e0],
{
    let mut v: Vec<EffectTemplate> = Vec::new();
    v.push(e0);
    v
}

pub(crate) fn templates2(e0: EffectTemplate, e1: EffectTemplate) -> (r: Vec<EffectTemplate>)
    ensures
        r@ =~= seq![e0, e1],
{
    let mut v: Vec<EffectTemplate> = Vec::new();
    v.push(e0);
    v.push(e1);
    v
}

pub(crate) fn templates3(e0: EffectTemplate, e1: EffectTemplate, e2: EffectTemplate) -> (r:
    Vec<EffectTemplate>)
    ensures
        r@ =~= seq![e0, e1, e2],
{
    let mut v: Vec<EffectTemplate> = Vec::new();
    v.push(e0);
    v.push(e1);
    v.push(e2);
    v
}

pub(crate) fn templates4(
    e0: EffectTemplate,
    e1: EffectTemplate,
    e2: EffectTemplate,
    e3: EffectTemplate,
) -> (r: Vec<EffectTemplate>)
    ensures
        r@ =~= seq![e0, e1, e2, e3],
{
    let mut v: Vec<EffectTemplate> = Vec::new();
    v.push(e0);
    v.push(e1);
    v.push(e2);
    v.push(e3);
    v
}

} // verus!
