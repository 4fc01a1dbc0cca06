//! Core enums shared across the engine.

use vstd::prelude::*;

verus! {

#[derive(Debug, Clone, Copy, PartialEq, Eq, Hash, Structural)]
pub enum CardName {
    AThousandCuts,
    Accuracy,
    Acrobatics,
    Adrenaline,
    AfterImage,
    AllOutAttack,
    Backflip,
    Backstab,
    BladeDance,
    Blur,
    Burst,
    CalculatedGamble,
    CloakAndDagger,
    DaggerThrow,
    Dash,
    Defend,
    Deflect,
    DieDieDie,
    DodgeAndRoll,
    FlyingKnee,
    Footwork,
    InfiniteBlades,
    LegSweep,
    Neutralize,
    Outmaneuver,
    PhantasmalKiller,
    Shiv,
    Strike,
    Survivor,
    Terror,
}

impl CardName {
    /// The display name of the card.
    pub open spec fn spec_str(self) -> Seq<char> {
        match self {
            CardName::AThousandCuts => "A Thousand Cuts"@,
            CardName::Accuracy => "Accuracy"@,
            CardName::Acrobatics => "Acrobatics"@,
            CardName::Adrenaline => "Adrenaline"@,
            CardName::AfterImage => "After Image"@,
            CardName::AllOutAttack => "All Out Attack"@,
            CardName::Backflip => "Backflip"@,
            CardName::Backstab => "Backstab"@,
            CardName::BladeDance => "Blade Dance"@,
            CardName::Blur => "Blur"@,
            CardName::Burst => "Burst"@,
            CardName::CalculatedGamble => "Calculated Gamble"@,
            CardName::CloakAndDagger => "Cloak And Dagger"@,
            CardName::DaggerThrow => "Dagger Throw"@,
            CardName::Dash => "Dash"@,
            CardName::Defend => "Defend"@,
            CardName::Deflect => "Deflect"@,
            CardName::DieDieDie => "Die Die Die"@,
            CardName::DodgeAndRoll => "Dodge And Roll"@,
            CardName::FlyingKnee => "Flying Knee"@,
            CardName::Footwork => "Footwork"@,
            CardName::InfiniteBlades => "Infinite Blades"@,
            CardName::LegSweep => "Leg Sweep"@,
            CardName::Neutralize => "Neutralize"@,
            CardName::Outmaneuver => "Outmaneuver"@,
            CardName::PhantasmalKiller => "Phantasmal Killer"@,
            CardName::Shiv => "Shiv"@,
            CardName::Strike => "Strike"@,
            CardName::Survivor => "Survivor"@,
            CardName::Terror => "Terror"@,
        }
    }

    pub fn as_str(self) -> (r: &'static str)
        ensures
            r@ == self.spec_str(),
    {
        match self {
            CardName::AThousandCuts => "A Thousand Cuts",
            CardName::Accuracy => "Accuracy",
            CardName::Acrobatics => "Acrobatics",
            CardName::Adrenaline => "Adrenaline",
            CardName::AfterImage => "After Image",
            CardName::AllOutAttack => "All Out Attack",
            CardName::Backflip => "Backflip",
            CardName::Backstab => "Backstab",
            CardName::BladeDance => "Blade Dance",
            CardName::Blur => "Blur",
            CardName::Burst => "Burst",
            CardName::CalculatedGamble => "Calculated Gamble",
            CardName::CloakAndDagger => "Cloak And Dagger",
            CardName::DaggerThrow => "Dagger Throw",
            CardName::Dash => "Dash",
            CardName::Defend => "Defend",
            CardName::Deflect => "Deflect",
            CardName::DieDieDie => "Die Die Die",
            CardName::DodgeAndRoll => "Dodge And Roll",
            CardName::FlyingKnee => "Flying Knee",
            CardName::Footwork => "Footwork",
            CardName::InfiniteBlades => "Infinite Blades",
            CardName::LegSweep => "Leg Sweep",
            CardName::Neutralize => "Neutralize",
            CardName::Outmaneuver => "Outmaneuver",
            CardName::PhantasmalKiller => "Phantasmal Killer",
            CardName::Shiv => "Shiv",
            CardName::Strike => "Strike",
            CardName::Survivor => "Survivor",
            CardName::Terror => "Terror",
        }
    }
}

#[derive(Debug, Clone, Copy, PartialEq, Eq, Hash, Structural)]
pub enum CardType {
    Attack,
    Curse,
    Power,
    Skill,
    Status,
}

#[derive(Debug, Clone, Copy, PartialEq, Eq, Hash, Structural)]
pub enum CardColor {
    Colorless,
    Curse,
    Green,
}

#[derive(Debug, Clone, Copy, PartialEq, Eq, Hash, Structural)]
pub enum CardRarity {
    Basic,
    Common,
    Uncommon,
    Rare,
    Special,
    Curse,
}

#[derive(Debug, Clone, Copy, PartialEq, Eq, Hash, Structural)]
pub enum MonsterName {
    Cultist,
    Dummy,
    FungiBeast,
    JawWorm,
    LouseGreen,
    TheGuardian,
}

impl MonsterName {
    /// The display name of the monster.
    pub open spec fn spec_str(self) -> Seq<char> {
        match self {
            MonsterName::Cultist => "Cultist"@,
            MonsterName::Dummy => "Dummy"@,
            MonsterName::FungiBeast => "Fungi Beast"@,
            MonsterName::JawWorm => "Jaw Worm"@,
            MonsterName::LouseGreen => "Louse (green)"@,
            MonsterName::TheGuardian => "The Guardian"@,
        }
    }

    pub fn as_str(self) -> (r: &'static str)
        ensures
            r@ == self.spec_str(),
    {
        match self {
            MonsterName::Cultist => "Cultist",
            MonsterName::Dummy => "Dummy",
            MonsterName::FungiBeast => "Fungi Beast",
            MonsterName::JawWorm => "Jaw Worm",
            MonsterName::LouseGreen => "Louse (green)",
            MonsterName::TheGuardian => "The Guardian",
        }
    }
}

#[derive(Debug, Clone, Copy, PartialEq, Eq, Hash, Structural)]
pub enum MonsterKind {
    Normal,
    Elite,
    Boss,
}

#[derive(Debug, Clone, Copy, PartialEq, Eq, Hash, Structural)]
pub enum RoomType {
    CombatBoss,
    CombatMonster,
    RestSite,
}

/// The externally observable "what input is expected now" state, derived from
/// the queue head and the current room rather than stored independently.
#[derive(Debug, Clone, Copy, PartialEq, Eq, Hash, Structural)]
pub enum Fsm {
    CardReward,
    CombatDefault,
    CombatAwaitTarget,
    CombatAwaitDiscard,
    GameOver,
    MapSelect,
    RestSite,
}

/// Identifies a combatant: the player character or a live monster by its
/// index in the monster list.
#[derive(Debug, Clone, Copy, PartialEq, Eq, Hash, Structural)]
pub enum ActorId {
    Character,
    Monster(u8),
}

} // verus!
