//! The card catalog: every card's immutable definition, keyed by
//! `(CardName, upgraded)`. Upgraded and base versions are distinct
//! immutable values; upgrading a deck card replaces it wholesale.

use vstd::prelude::*;
use crate::effect::{EffectTemplate, SelectionKind, TargetKind};
use crate::effect::{templates1, templates2, templates3};
use crate::modifier::ModifierKind;
use crate::state::Card;
use crate::types::{CardColor, CardName, CardRarity, CardType};

verus! {

pub open spec fn card_kind(name: CardName) -> CardType {
    match name {
        CardName::AThousandCuts => CardType::Power,
        CardName::Accuracy => CardType::Power,
        CardName::Acrobatics => CardType::Skill,
        CardName::Adrenaline => CardType::Skill,
        CardName::AfterImage => CardType::Power,
        CardName::AllOutAttack => CardType::Attack,
        CardName::Backflip => CardType::Skill,
        CardName::Backstab => CardType::Attack,
        CardName::BladeDance => CardType::Skill,
        CardName::Blur => CardType::Skill,
        CardName::Burst => CardType::Skill,
        CardName::CalculatedGamble => CardType::Skill,
        CardName::CloakAndDagger => CardType::Skill,
        CardName::DaggerThrow => CardType::Attack,
        CardName::Dash => CardType::Attack,
        CardName::Defend => CardType::Skill,
        CardName::Deflect => CardType::Skill,
        CardName::DieDieDie => CardType::Attack,
        CardName::DodgeAndRoll => CardType::Skill,
        CardName::FlyingKnee => CardType::Attack,
        CardName::Footwork => CardType::Power,
        CardName::InfiniteBlades => CardType::Power,
        CardName::LegSweep => CardType::Skill,
        CardName::Neutralize => CardType::Attack,
        CardName::Outmaneuver => CardType::Skill,
        CardName::PhantasmalKiller => CardType::Skill,
        CardName::Shiv => CardType::Attack,
        CardName::Strike => CardType::Attack,
        CardName::Survivor => CardType::Skill,
        CardName::Terror => CardType::Skill,
    }
}

pub open spec fn card_color(name: CardName) -> CardColor {
    match name {
        CardName::AThousandCuts => CardColor::Green,
        CardName::Accuracy => CardColor::Green,
        CardName::Acrobatics => CardColor::Green,
        CardName::Adrenaline => CardColor::Green,
        CardName::AfterImage => CardColor::Green,
        CardName::AllOutAttack => CardColor::Green,
        CardName::Backflip => CardColor::Green,
        CardName::Backstab => CardColor::Green,
        CardName::BladeDance => CardColor::Green,
        CardName::Blur => CardColor::Green,
        CardName::Burst => CardColor::Green,
        CardName::CalculatedGamble => CardColor::Green,
        CardName::CloakAndDagger => CardColor::Green,
        CardName::DaggerThrow => CardColor::Green,
        CardName::Dash => CardColor::Green,
        CardName::Defend => CardColor::Green,
        CardName::Deflect => CardColor::Green,
        CardName::DieDieDie => CardColor::Green,
        CardName::DodgeAndRoll => CardColor::Green,
        CardName::FlyingKnee => CardColor::Green,
        CardName::Footwork => CardColor::Green,
        CardName::InfiniteBlades => CardColor::Green,
        CardName::LegSweep => CardColor::Green,
        CardName::Neutralize => CardColor::Green,
        CardName::Outmaneuver => CardColor::Green,
        CardName::PhantasmalKiller => CardColor::Green,
        CardName::Shiv => CardColor::Colorless,
        CardName::Strike => CardColor::Green,
        CardName::Survivor => CardColor::Green,
        CardName::Terror => CardColor::Green,
    }
}

pub open spec fn card_rarity(name: CardName) -> CardRarity {
    match name {
        CardName::AThousandCuts => CardRarity::Rare,
        CardName::Accuracy => CardRarity::Uncommon,
        CardName::Acrobatics => CardRarity::Common,
        CardName::Adrenaline => CardRarity::Rare,
        CardName::AfterImage => CardRarity::Rare,
        CardName::AllOutAttack => CardRarity::Uncommon,
        CardName::Backflip => CardRarity::Common,
        CardName::Backstab => CardRarity::Uncommon,
        CardName::BladeDance => CardRarity::Common,
        CardName::Blur => CardRarity::Uncommon,
        CardName::Burst => CardRarity::Rare,
        CardName::CalculatedGamble => CardRarity::Uncommon,
        CardName::CloakAndDagger => CardRarity::Common,
        CardName::DaggerThrow => CardRarity::Common,
        CardName::Dash => CardRarity::Uncommon,
        CardName::Defend => CardRarity::Basic,
        CardName::Deflect => CardRarity::Common,
        CardName::DieDieDie => CardRarity::Rare,
        CardName::DodgeAndRoll => CardRarity::Common,
        CardName::FlyingKnee => CardRarity::Common,
        CardName::Footwork => CardRarity::Uncommon,
        CardName::InfiniteBlades => CardRarity::Uncommon,
        CardName::LegSweep => CardRarity::Uncommon,
        CardName::Neutralize => CardRarity::Basic,
        CardName::Outmaneuver => CardRarity::Common,
        CardName::PhantasmalKiller => CardRarity::Rare,
        CardName::Shiv => CardRarity::Special,
        CardName::Strike => CardRarity::Basic,
        CardName::Survivor => CardRarity::Basic,
        CardName::Terror => CardRarity::Uncommon,
    }
}

pub open spec fn card_cost(name: CardName, upgraded: bool) -> u8 {
    match name {
        CardName::AThousandCuts => 2u8,
        CardName::Accuracy => 1u8,
        CardName::Acrobatics => 1u8,
        CardName::Adrenaline => 0u8,
        CardName::AfterImage => 1u8,
        CardName::AllOutAttack => 1u8,
        CardName::Backflip => 1u8,
        CardName::Backstab => 0u8,
        CardName::BladeDance => 1u8,
        CardName::Blur => 1u8,
        CardName::Burst => 1u8,
        CardName::CalculatedGamble => 0u8,
        CardName::CloakAndDagger => 1u8,
        CardName::DaggerThrow => 1u8,
        CardName::Dash => 2u8,
        CardName::Defend => 1u8,
        CardName::Deflect => 0u8,
        CardName::DieDieDie => 1u8,
        CardName::DodgeAndRoll => 1u8,
        CardName::FlyingKnee => 1u8,
        CardName::Footwork => 1u8,
        CardName::InfiniteBlades => 1u8,
        CardName::LegSweep => 2u8,
        CardName::Neutralize => 0u8,
        CardName::Outmaneuver => 1u8,
        CardName::PhantasmalKiller => if !upgraded { 1u8 } else { 0u8 },
        CardName::Shiv => 0u8,
        CardName::Strike => 1u8,
        CardName::Survivor => 1u8,
        CardName::Terror => if !upgraded { 1u8 } else { 0u8 },
    }
}

pub open spec fn card_exhaust(name: CardName, upgraded: bool) -> bool {
    match name {
        CardName::AThousandCuts => false,
        CardName::Accuracy => false,
        CardName::Acrobatics => false,
        CardName::Adrenaline => true,
        CardName::AfterImage => false,
        CardName::AllOutAttack => false,
        CardName::Backflip => false,
        CardName::Backstab => true,
        CardName::BladeDance => false,
        CardName::Blur => false,
        CardName::Burst => false,
        CardName::CalculatedGamble => if !upgraded { true } else { false },
        CardName::CloakAndDagger => false,
        CardName::DaggerThrow => false,
        CardName::Dash => false,
        CardName::Defend => false,
        CardName::Deflect => false,
        CardName::DieDieDie => true,
        CardName::DodgeAndRoll => false,
        CardName::FlyingKnee => false,
        CardName::Footwork => false,
        CardName::InfiniteBlades => false,
        CardName::LegSweep => false,
        CardName::Neutralize => false,
        CardName::Outmaneuver => false,
        CardName::PhantasmalKiller => false,
        CardName::Shiv => true,
        CardName::Strike => false,
        CardName::Survivor => false,
        CardName::Terror => true,
    }
}

pub open spec fn card_innate(name: CardName, upgraded: bool) -> bool {
    match name {
        CardName::AThousandCuts => false,
        CardName::Accuracy => false,
        CardName::Acrobatics => false,
        CardName::Adrenaline => false,
        CardName::AfterImage => if !upgraded { false } else { true },
        CardName::AllOutAttack => false,
        CardName::Backflip => false,
        CardName::Backstab => true,
        CardName::BladeDance => false,
        CardName::Blur => false,
        CardName::Burst => false,
        CardName::CalculatedGamble => false,
        CardName::CloakAndDagger => false,
        CardName::DaggerThrow => false,
        CardName::Dash => false,
        CardName::Defend => false,
        CardName::Deflect => false,
        CardName::DieDieDie => false,
        CardName::DodgeAndRoll => false,
        CardName::FlyingKnee => false,
        CardName::Footwork => false,
        CardName::InfiniteBlades => if !upgraded { false } else { true },
        CardName::LegSweep => false,
        CardName::Neutralize => false,
        CardName::Outmaneuver => false,
        CardName::PhantasmalKiller => false,
        CardName::Shiv => false,
        CardName::Strike => false,
        CardName::Survivor => false,
        CardName::Terror => false,
    }
}

pub open spec fn card_effects(name: CardName, upgraded: bool) -> Seq<EffectTemplate> {
    match name {
        CardName::AThousandCuts => if !upgraded { seq![
            EffectTemplate::ModifierGain { kind: ModifierKind::ThousandCuts, stacks: 1i16, target: TargetKind::Character, },
        ] } else { seq![
            EffectTemplate::ModifierGain { kind: ModifierKind::ThousandCuts, stacks: 2i16, target: TargetKind::Character, },
        ] },
        CardName::Accuracy => if !upgraded { seq![
            EffectTemplate::ModifierGain { kind: ModifierKind::Accuracy, stacks: 4i16, target: TargetKind::Character, },
        ] } else { seq![
            EffectTemplate::ModifierGain { kind: ModifierKind::Accuracy, stacks: 6i16, target: TargetKind::Character, },
        ] },
        CardName::Acrobatics => if !upgraded { seq![
            EffectTemplate::CardDraw { count: 3u8 },
            EffectTemplate::CardDiscard { selection: SelectionKind::Input, },
        ] } else { seq![
            EffectTemplate::CardDraw { count: 4u8 },
            EffectTemplate::CardDiscard { selection: SelectionKind::Input, },
        ] },
        CardName::Adrenaline => if !upgraded { seq![
            EffectTemplate::EnergyGain { amount: 1u8 },
            EffectTemplate::CardDraw { count: 2u8 },
        ] } else { seq![
            EffectTemplate::EnergyGain { amount: 2u8 },
            EffectTemplate::CardDraw { count: 2u8 },
        ] },
        CardName::AfterImage => seq![
            EffectTemplate::ModifierGain { kind: ModifierKind::AfterImage, stacks: 1i16, target: TargetKind::Character, },
        ],
        CardName::AllOutAttack => if !upgraded { seq![
            EffectTemplate::DamagePhysical { base: 10u16, target: TargetKind::AllMonsters, },
            EffectTemplate::CardDiscard { selection: SelectionKind::Random, },
        ] } else { seq![
            EffectTemplate::DamagePhysical { base: 14u16, target: TargetKind::AllMonsters, },
            EffectTemplate::CardDiscard { selection: SelectionKind::Random, },
        ] },
        CardName::Backflip => if !upgraded { seq![
            EffectTemplate::BlockGain { amount: 5u16, target: TargetKind::Character, },
            EffectTemplate::CardDraw { count: 2u8 },
        ] } else { seq![
            EffectTemplate::BlockGain { amount: 8u16, target: TargetKind::Character, },
            EffectTemplate::CardDraw { count: 2u8 },
        ] },
        CardName::Backstab => if !upgraded { seq![
            EffectTemplate::DamagePhysical { base: 11u16, target: TargetKind::CardTarget, },
        ] } else { seq![
            EffectTemplate::DamagePhysical { base: 15u16, target: TargetKind::CardTarget, },
        ] },
        CardName::BladeDance => if !upgraded { seq![
            EffectTemplate::AddShivs { count: 3u8 },
        ] } else { seq![
            EffectTemplate::AddShivs { count: 4u8 },
        ] },
        CardName::Blur => if !upgraded { seq![
            EffectTemplate::BlockGain { amount: 5u16, target: TargetKind::Character, },
            EffectTemplate::ModifierGain { kind: ModifierKind::Blur, stacks: 1i16, target: TargetKind::Character, },
        ] } else { seq![
            EffectTemplate::BlockGain { amount: 8u16, target: TargetKind::Character, },
            EffectTemplate::ModifierGain { kind: ModifierKind::Blur, stacks: 1i16, target: TargetKind::Character, },
        ] },
        CardName::Burst => if !upgraded { seq![
            EffectTemplate::ModifierGain { kind: ModifierKind::Burst, stacks: 1i16, target: TargetKind::Character, },
        ] } else { seq![
            EffectTemplate::ModifierGain { kind: ModifierKind::Burst, stacks: 2i16, target: TargetKind::Character, },
        ] },
        CardName::CalculatedGamble => seq![
            EffectTemplate::CalculatedGamble,
        ],
        CardName::CloakAndDagger => if !upgraded { seq![
            EffectTemplate::BlockGain { amount: 6u16, target: TargetKind::Character, },
            EffectTemplate::AddShivs { count: 1u8 },
        ] } else { seq![
            EffectTemplate::BlockGain { amount: 6u16, target: TargetKind::Character, },
            EffectTemplate::AddShivs { count: 2u8 },
        ] },
        CardName::DaggerThrow => if !upgraded { seq![
            EffectTemplate::DamagePhysical { base: 9u16, target: TargetKind::CardTarget, },
            EffectTemplate::CardDraw { count: 1u8 },
            EffectTemplate::CardDiscard { selection: SelectionKind::Input, },
        ] } else { seq![
            EffectTemplate::DamagePhysical { base: 12u16, target: TargetKind::CardTarget, },
            EffectTemplate::CardDraw { count: 1u8 },
            EffectTemplate::CardDiscard { selection: SelectionKind::Input, },
        ] },
        CardName::Dash => if !upgraded { seq![
            EffectTemplate::BlockGain { amount: 10u16, target: TargetKind::Character, },
            EffectTemplate::DamagePhysical { base: 10u16, target: TargetKind::CardTarget, },
        ] } else { seq![
            EffectTemplate::BlockGain { amount: 13u16, target: TargetKind::Character, },
            EffectTemplate::DamagePhysical { base: 13u16, target: TargetKind::CardTarget, },
        ] },
        CardName::Defend => if !upgraded { seq![
            EffectTemplate::BlockGain { amount: 5u16, target: TargetKind::Character, },
        ] } else { seq![
            EffectTemplate::BlockGain { amount: 8u16, target: TargetKind::Character, },
        ] },
        CardName::Deflect => if !upgraded { seq![
            EffectTemplate::BlockGain { amount: 4u16, target: TargetKind::Character, },
        ] } else { seq![
            EffectTemplate::BlockGain { amount: 7u16, target: TargetKind::Character, },
        ] },
        CardName::DieDieDie => if !upgraded { seq![
            EffectTemplate::DamagePhysical { base: 13u16, target: TargetKind::AllMonsters, },
        ] } else { seq![
            EffectTemplate::DamagePhysical { base: 17u16, target: TargetKind::AllMonsters, },
        ] },
        CardName::DodgeAndRoll => if !upgraded { seq![
            EffectTemplate::BlockGain { amount: 4u16, target: TargetKind::Character, },
            EffectTemplate::ModifierGain { kind: ModifierKind::NextTurnBlock, stacks: 4i16, target: TargetKind::Character, },
        ] } else { seq![
            EffectTemplate::BlockGain { amount: 6u16, target: TargetKind::Character, },
            EffectTemplate::ModifierGain { kind: ModifierKind::NextTurnBlock, stacks: 6i16, target: TargetKind::Character, },
        ] },
        CardName::FlyingKnee => if !upgraded { seq![
            EffectTemplate::DamagePhysical { base: 8u16, target: TargetKind::CardTarget, },
            EffectTemplate::ModifierGain { kind: ModifierKind::NextTurnEnergy, stacks: 1i16, target: TargetKind::Character, },
        ] } else { seq![
            EffectTemplate::DamagePhysical { base: 11u16, target: TargetKind::CardTarget, },
            EffectTemplate::ModifierGain { kind: ModifierKind::NextTurnEnergy, stacks: 1i16, target: TargetKind::Character, },
        ] },
        CardName::Footwork => if !upgraded { seq![
            EffectTemplate::ModifierGain { kind: ModifierKind::Dexterity, stacks: 2i16, target: TargetKind::Character, },
        ] } else { seq![
            EffectTemplate::ModifierGain { kind: ModifierKind::Dexterity, stacks: 3i16, target: TargetKind::Character, },
        ] },
        CardName::InfiniteBlades => seq![
            EffectTemplate::ModifierGain { kind: ModifierKind::InfiniteBlades, stacks: 1i16, target: TargetKind::Character, },
        ],
        CardName::LegSweep => if !upgraded { seq![
            EffectTemplate::BlockGain { amount: 11u16, target: TargetKind::Character, },
            EffectTemplate::ModifierGain { kind: ModifierKind::Weak, stacks: 2i16, target: TargetKind::CardTarget, },
        ] } else { seq![
            EffectTemplate::BlockGain { amount: 14u16, target: TargetKind::Character, },
            EffectTemplate::ModifierGain { kind: ModifierKind::Weak, stacks: 3i16, target: TargetKind::CardTarget, },
        ] },
        CardName::Neutralize => if !upgraded { seq![
            EffectTemplate::DamagePhysical { base: 3u16, target: TargetKind::CardTarget, },
            EffectTemplate::ModifierGain { kind: ModifierKind::Weak, stacks: 1i16, target: TargetKind::CardTarget, },
        ] } else { seq![
            EffectTemplate::DamagePhysical { base: 4u16, target: TargetKind::CardTarget, },
            EffectTemplate::ModifierGain { kind: ModifierKind::Weak, stacks: 2i16, target: TargetKind::CardTarget, },
        ] },
        CardName::Outmaneuver => if !upgraded { seq![
            EffectTemplate::ModifierGain { kind: ModifierKind::NextTurnEnergy, stacks: 2i16, target: TargetKind::Character, },
        ] } else { seq![
            EffectTemplate::ModifierGain { kind: ModifierKind::NextTurnEnergy, stacks: 3i16, target: TargetKind::Character, },
        ] },
        CardName::PhantasmalKiller => seq![
            EffectTemplate::ModifierGain { kind: ModifierKind::Phantasmal, stacks: 1i16, target: TargetKind::Character, },
        ],
        CardName::Shiv => if !upgraded { seq![
            EffectTemplate::DamagePhysical { base: 4u16, target: TargetKind::CardTarget, },
        ] } else { seq![
            EffectTemplate::DamagePhysical { base: 6u16, target: TargetKind::CardTarget, },
        ] },
        CardName::Strike => if !upgraded { seq![
            EffectTemplate::DamagePhysical { base: 6u16, target: TargetKind::CardTarget, },
        ] } else { seq![
            EffectTemplate::DamagePhysical { base: 9u16, target: TargetKind::CardTarget, },
        ] },
        CardName::Survivor => if !upgraded { seq![
            EffectTemplate::BlockGain { amount: 8u16, target: TargetKind::Character, },
            EffectTemplate::CardDiscard { selection: SelectionKind::Input, },
        ] } else { seq![
            EffectTemplate::BlockGain { amount: 11u16, target: TargetKind::Character, },
            EffectTemplate::CardDiscard { selection: SelectionKind::Input, },
        ] },
        CardName::Terror => seq![
            EffectTemplate::ModifierGain { kind: ModifierKind::Vulnerable, stacks: 99i16, target: TargetKind::CardTarget, },
        ],
    }
}

/// The immutable definition of the card `(name, upgraded)`.
pub fn get_card(name: CardName, upgraded: bool) -> (r: Card)
    ensures
        r.name == name,
        r.kind == card_kind(name),
        r.color == card_color(name),
        r.rarity == card_rarity(name),
        r.cost == card_cost(name, upgraded),
        r.upgraded == upgraded,
        r.exhaust == card_exhaust(name, upgraded),
        r.innate == card_innate(name, upgraded),
        r.effects@ =~= card_effects(name, upgraded),
{
    match (name, upgraded) {
        (CardName::AThousandCuts, false) => Card {
            name: CardName::AThousandCuts,
            kind: CardType::Power,
            color: CardColor::Green,
            rarity: CardRarity::Rare,
            cost: 2,
            upgraded: false,
            exhaust: false,
            innate: false,
            effects: templates1(
                EffectTemplate::ModifierGain { kind: ModifierKind::ThousandCuts, stacks: 1, target: TargetKind::Character, },
            ),
        },
        (CardName::AThousandCuts, true) => Card {
            name: CardName::AThousandCuts,
            kind: CardType::Power,
            color: CardColor::Green,
            rarity: CardRarity::Rare,
            cost: 2,
            upgraded: true,
            exhaust: false,
            innate: false,
            effects: templates1(
                EffectTemplate::ModifierGain { kind: ModifierKind::ThousandCuts, stacks: 2, target: TargetKind::Character, },
            ),
        },
        (CardName::Accuracy, false) => Card {
            name: CardName::Accuracy,
            kind: CardType::Power,
            color: CardColor::Green,
            rarity: CardRarity::Uncommon,
            cost: 1,
            upgraded: false,
            exhaust: false,
            innate: false,
            effects: templates1(
                EffectTemplate::ModifierGain { kind: ModifierKind::Accuracy, stacks: 4, target: TargetKind::Character, },
            ),
        },
        (CardName::Accuracy, true) => Card {
            name: CardName::Accuracy,
            kind: CardType::Power,
            color: CardColor::Green,
            rarity: CardRarity::Uncommon,
            cost: 1,
            upgraded: true,
            exhaust: false,
            innate: false,
            effects: templates1(
                EffectTemplate::ModifierGain { kind: ModifierKind::Accuracy, stacks: 6, target: TargetKind::Character, },
            ),
        },
        (CardName::Acrobatics, false) => Card {
            name: CardName::Acrobatics,
            kind: CardType::Skill,
            color: CardColor::Green,
            rarity: CardRarity::Common,
            cost: 1,
            upgraded: false,
            exhaust: false,
            innate: false,
            effects: templates2(
                EffectTemplate::CardDraw { count: 3 },
                EffectTemplate::CardDiscard { selection: SelectionKind::Input, },
            ),
        },
        (CardName::Acrobatics, true) => Card {
            name: CardName::Acrobatics,
            kind: CardType::Skill,
            color: CardColor::Green,
            rarity: CardRarity::Common,
            cost: 1,
            upgraded: true,
            exhaust: false,
            innate: false,
            effects: templates2(
                EffectTemplate::CardDraw { count: 4 },
                EffectTemplate::CardDiscard { selection: SelectionKind::Input, },
            ),
        },
        (CardName::Adrenaline, false) => Card {
            name: CardName::Adrenaline,
            kind: CardType::Skill,
            color: CardColor::Green,
            rarity: CardRarity::Rare,
            cost: 0,
            upgraded: false,
            exhaust: true,
            innate: false,
            effects: templates2(
                EffectTemplate::EnergyGain { amount: 1 },
                EffectTemplate::CardDraw { count: 2 },
            ),
        },
        (CardName::Adrenaline, true) => Card {
            name: CardName::Adrenaline,
            kind: CardType::Skill,
            color: CardColor::Green,
            rarity: CardRarity::Rare,
            cost: 0,
            upgraded: true,
            exhaust: true,
            innate: false,
            effects: templates2(
                EffectTemplate::EnergyGain { amount: 2 },
                EffectTemplate::CardDraw { count: 2 },
            ),
        },
        (CardName::AfterImage, false) => Card {
            name: CardName::AfterImage,
            kind: CardType::Power,
            color: CardColor::Green,
            rarity: CardRarity::Rare,
            cost: 1,
            upgraded: false,
            exhaust: false,
            innate: false,
            effects: templates1(
                EffectTemplate::ModifierGain { kind: ModifierKind::AfterImage, stacks: 1, target: TargetKind::Character, },
            ),
        },
        (CardName::AfterImage, true) => Card {
            name: CardName::AfterImage,
            kind: CardType::Power,
            color: CardColor::Green,
            rarity: CardRarity::Rare,
            cost: 1,
            upgraded: true,
            exhaust: false,
            innate: true,
            effects: templates1(
                EffectTemplate::ModifierGain { kind: ModifierKind::AfterImage, stacks: 1, target: TargetKind::Character, },
            ),
        },
        (CardName::AllOutAttack, false) => Card {
            name: CardName::AllOutAttack,
            kind: CardType::Attack,
            color: CardColor::Green,
            rarity: CardRarity::Uncommon,
            cost: 1,
            upgraded: false,
            exhaust: false,
            innate: false,
            effects: templates2(
                EffectTemplate::DamagePhysical { base: 10, target: TargetKind::AllMonsters, },
                EffectTemplate::CardDiscard { selection: SelectionKind::Random, },
            ),
        },
        (CardName::AllOutAttack, true) => Card {
            name: CardName::AllOutAttack,
            kind: CardType::Attack,
            color: CardColor::Green,
            rarity: CardRarity::Uncommon,
            cost: 1,
            upgraded: true,
            exhaust: false,
            innate: false,
            effects: templates2(
                EffectTemplate::DamagePhysical { base: 14, target: TargetKind::AllMonsters, },
                EffectTemplate::CardDiscard { selection: SelectionKind::Random, },
            ),
        },
        (CardName::Backflip, false) => Card {
            name: CardName::Backflip,
            kind: CardType::Skill,
            color: CardColor::Green,
            rarity: CardRarity::Common,
            cost: 1,
            upgraded: false,
            exhaust: false,
            innate: false,
            effects: templates2(
                EffectTemplate::BlockGain { amount: 5, target: TargetKind::Character, },
                EffectTemplate::CardDraw { count: 2 },
            ),
        },
        (CardName::Backflip, true) => Card {
            name: CardName::Backflip,
            kind: CardType::Skill,
            color: CardColor::Green,
            rarity: CardRarity::Common,
            cost: 1,
            upgraded: true,
            exhaust: false,
            innate: false,
            effects: templates2(
                EffectTemplate::BlockGain { amount: 8, target: TargetKind::Character, },
                EffectTemplate::CardDraw { count: 2 },
            ),
        },
        (CardName::Backstab, false) => Card {
            name: CardName::Backstab,
            kind: CardType::Attack,
            color: CardColor::Green,
            rarity: CardRarity::Uncommon,
            cost: 0,
            upgraded: false,
            exhaust: true,
            innate: true,
            effects: templates1(
                EffectTemplate::DamagePhysical { base: 11, target: TargetKind::CardTarget, },
            ),
        },
        (CardName::Backstab, true) => Card {
            name: CardName::Backstab,
            kind: CardType::Attack,
            color: CardColor::Green,
            rarity: CardRarity::Uncommon,
            cost: 0,
            upgraded: true,
            exhaust: true,
            innate: true,
            effects: templates1(
                EffectTemplate::DamagePhysical { base: 15, target: TargetKind::CardTarget, },
            ),
        },
        (CardName::BladeDance, false) => Card {
            name: CardName::BladeDance,
            kind: CardType::Skill,
            color: CardColor::Green,
            rarity: CardRarity::Common,
            cost: 1,
            upgraded: false,
            exhaust: false,
            innate: false,
            effects: templates1(
                EffectTemplate::AddShivs { count: 3 },
            ),
        },
        (CardName::BladeDance, true) => Card {
            name: CardName::BladeDance,
            kind: CardType::Skill,
            color: CardColor::Green,
            rarity: CardRarity::Common,
            cost: 1,
            upgraded: true,
            exhaust: false,
            innate: false,
            effects: templates1(
                EffectTemplate::AddShivs { count: 4 },
            ),
        },
        (CardName::Blur, false) => Card {
            name: CardName::Blur,
            kind: CardType::Skill,
            color: CardColor::Green,
            rarity: CardRarity::Uncommon,
            cost: 1,
            upgraded: false,
            exhaust: false,
            innate: false,
            effects: templates2(
                EffectTemplate::BlockGain { amount: 5, target: TargetKind::Character, },
                EffectTemplate::ModifierGain { kind: ModifierKind::Blur, stacks: 1, target: TargetKind::Character, },
            ),
        },
        (CardName::Blur, true) => Card {
            name: CardName::Blur,
            kind: CardType::Skill,
            color: CardColor::Green,
            rarity: CardRarity::Uncommon,
            cost: 1,
            upgraded: true,
            exhaust: false,
            innate: false,
            effects: templates2(
                EffectTemplate::BlockGain { amount: 8, target: TargetKind::Character, },
                EffectTemplate::ModifierGain { kind: ModifierKind::Blur, stacks: 1, target: TargetKind::Character, },
            ),
        },
        (CardName::Burst, false) => Card {
            name: CardName::Burst,
            kind: CardType::Skill,
            color: CardColor::Green,
            rarity: CardRarity::Rare,
            cost: 1,
            upgraded: false,
            exhaust: false,
            innate: false,
            effects: templates1(
                EffectTemplate::ModifierGain { kind: ModifierKind::Burst, stacks: 1, target: TargetKind::Character, },
            ),
        },
        (CardName::Burst, true) => Card {
            name: CardName::Burst,
            kind: CardType::Skill,
            color: CardColor::Green,
            rarity: CardRarity::Rare,
            cost: 1,
            upgraded: true,
            exhaust: false,
            innate: false,
            effects: templates1(
                EffectTemplate::ModifierGain { kind: ModifierKind::Burst, stacks: 2, target: TargetKind::Character, },
            ),
        },
        (CardName::CalculatedGamble, false) => Card {
            name: CardName::CalculatedGamble,
            kind: CardType::Skill,
            color: CardColor::Green,
            rarity: CardRarity::Uncommon,
            cost: 0,
            upgraded: false,
            exhaust: true,
            innate: false,
            effects: templates1(
                EffectTemplate::CalculatedGamble,
            ),
        },
        (CardName::CalculatedGamble, true) => Card {
            name: CardName::CalculatedGamble,
            kind: CardType::Skill,
            color: CardColor::Green,
            rarity: CardRarity::Uncommon,
            cost: 0,
            upgraded: true,
            exhaust: false,
            innate: false,
            effects: templates1(
                EffectTemplate::CalculatedGamble,
            ),
        },
        (CardName::CloakAndDagger, false) => Card {
            name: CardName::CloakAndDagger,
            kind: CardType::Skill,
            color: CardColor::Green,
            rarity: CardRarity::Common,
            cost: 1,
            upgraded: false,
            exhaust: false,
            innate: false,
            effects: templates2(
                EffectTemplate::BlockGain { amount: 6, target: TargetKind::Character, },
                EffectTemplate::AddShivs { count: 1 },
            ),
        },
        (CardName::CloakAndDagger, true) => Card {
            name: CardName::CloakAndDagger,
            kind: CardType::Skill,
            color: CardColor::Green,
            rarity: CardRarity::Common,
            cost: 1,
            upgraded: true,
            exhaust: false,
            innate: false,
            effects: templates2(
                EffectTemplate::BlockGain { amount: 6, target: TargetKind::Character, },
                EffectTemplate::AddShivs { count: 2 },
            ),
        },
        (CardName::DaggerThrow, false) => Card {
            name: CardName::DaggerThrow,
            kind: CardType::Attack,
            color: CardColor::Green,
            rarity: CardRarity::Common,
            cost: 1,
            upgraded: false,
            exhaust: false,
            innate: false,
            effects: templates3(
                EffectTemplate::DamagePhysical { base: 9, target: TargetKind::CardTarget, },
                EffectTemplate::CardDraw { count: 1 },
                EffectTemplate::CardDiscard { selection: SelectionKind::Input, },
            ),
        },
        (CardName::DaggerThrow, true) => Card {
            name: CardName::DaggerThrow,
            kind: CardType::Attack,
            color: CardColor::Green,
            rarity: CardRarity::Common,
            cost: 1,
            upgraded: true,
            exhaust: false,
            innate: false,
            effects: templates3(
                EffectTemplate::DamagePhysical { base: 12, target: TargetKind::CardTarget, },
                EffectTemplate::CardDraw { count: 1 },
                EffectTemplate::CardDiscard { selection: SelectionKind::Input, },
            ),
        },
        (CardName::Dash, false) => Card {
            name: CardName::Dash,
            kind: CardType::Attack,
            color: CardColor::Green,
            rarity: CardRarity::Uncommon,
            cost: 2,
            upgraded: false,
            exhaust: false,
            innate: false,
            effects: templates2(
                EffectTemplate::BlockGain { amount: 10, target: TargetKind::Character, },
                EffectTemplate::DamagePhysical { base: 10, target: TargetKind::CardTarget, },
            ),
        },
        (CardName::Dash, true) => Card {
            name: CardName::Dash,
            kind: CardType::Attack,
            color: CardColor::Green,
            rarity: CardRarity::Uncommon,
            cost: 2,
            upgraded: true,
            exhaust: false,
            innate: false,
            effects: templates2(
                EffectTemplate::BlockGain { amount: 13, target: TargetKind::Character, },
                EffectTemplate::DamagePhysical { base: 13, target: TargetKind::CardTarget, },
            ),
        },
        (CardName::Defend, false) => Card {
            name: CardName::Defend,
            kind: CardType::Skill,
            color: CardColor::Green,
            rarity: CardRarity::Basic,
            cost: 1,
            upgraded: false,
            exhaust: false,
            innate: false,
            effects: templates1(
                EffectTemplate::BlockGain { amount: 5, target: TargetKind::Character, },
            ),
        },
        (CardName::Defend, true) => Card {
            name: CardName::Defend,
            kind: CardType::Skill,
            color: CardColor::Green,
            rarity: CardRarity::Basic,
            cost: 1,
            upgraded: true,
            exhaust: false,
            innate: false,
            effects: templates1(
                EffectTemplate::BlockGain { amount: 8, target: TargetKind::Character, },
            ),
        },
        (CardName::Deflect, false) => Card {
            name: CardName::Deflect,
            kind: CardType::Skill,
            color: CardColor::Green,
            rarity: CardRarity::Common,
            cost: 0,
            upgraded: false,
            exhaust: false,
            innate: false,
            effects: templates1(
                EffectTemplate::BlockGain { amount: 4, target: TargetKind::Character, },
            ),
        },
        (CardName::Deflect, true) => Card {
            name: CardName::Deflect,
            kind: CardType::Skill,
            color: CardColor::Green,
            rarity: CardRarity::Common,
            cost: 0,
            upgraded: true,
            exhaust: false,
            innate: false,
            effects: templates1(
                EffectTemplate::BlockGain { amount: 7, target: TargetKind::Character, },
            ),
        },
        (CardName::DieDieDie, false) => Card {
            name: CardName::DieDieDie,
            kind: CardType::Attack,
            color: CardColor::Green,
            rarity: CardRarity::Rare,
            cost: 1,
            upgraded: false,
            exhaust: true,
            innate: false,
            effects: templates1(
                EffectTemplate::DamagePhysical { base: 13, target: TargetKind::AllMonsters, },
            ),
        },
        (CardName::DieDieDie, true) => Card {
            name: CardName::DieDieDie,
            kind: CardType::Attack,
            color: CardColor::Green,
            rarity: CardRarity::Rare,
            cost: 1,
            upgraded: true,
            exhaust: true,
            innate: false,
            effects: templates1(
                EffectTemplate::DamagePhysical { base: 17, target: TargetKind::AllMonsters, },
            ),
        },
        (CardName::DodgeAndRoll, false) => Card {
            name: CardName::DodgeAndRoll,
            kind: CardType::Skill,
            color: CardColor::Green,
            rarity: CardRarity::Common,
            cost: 1,
            upgraded: false,
            exhaust: false,
            innate: false,
            effects: templates2(
                EffectTemplate::BlockGain { amount: 4, target: TargetKind::Character, },
                EffectTemplate::ModifierGain { kind: ModifierKind::NextTurnBlock, stacks: 4, target: TargetKind::Character, },
            ),
        },
        (CardName::DodgeAndRoll, true) => Card {
            name: CardName::DodgeAndRoll,
            kind: CardType::Skill,
            color: CardColor::Green,
            rarity: CardRarity::Common,
            cost: 1,
            upgraded: true,
            exhaust: false,
            innate: false,
            effects: templates2(
                EffectTemplate::BlockGain { amount: 6, target: TargetKind::Character, },
                EffectTemplate::ModifierGain { kind: ModifierKind::NextTurnBlock, stacks: 6, target: TargetKind::Character, },
            ),
        },
        (CardName::FlyingKnee, false) => Card {
            name: CardName::FlyingKnee,
            kind: CardType::Attack,
            color: CardColor::Green,
            rarity: CardRarity::Common,
            cost: 1,
            upgraded: false,
            exhaust: false,
            innate: false,
            effects: templates2(
                EffectTemplate::DamagePhysical { base: 8, target: TargetKind::CardTarget, },
                EffectTemplate::ModifierGain { kind: ModifierKind::NextTurnEnergy, stacks: 1, target: TargetKind::Character, },
            ),
        },
        (CardName::FlyingKnee, true) => Card {
            name: CardName::FlyingKnee,
            kind: CardType::Attack,
            color: CardColor::Green,
            rarity: CardRarity::Common,
            cost: 1,
            upgraded: true,
            exhaust: false,
            innate: false,
            effects: templates2(
                EffectTemplate::DamagePhysical { base: 11, target: TargetKind::CardTarget, },
                EffectTemplate::ModifierGain { kind: ModifierKind::NextTurnEnergy, stacks: 1, target: TargetKind::Character, },
            ),
        },
        (CardName::Footwork, false) => Card {
            name: CardName::Footwork,
            kind: CardType::Power,
            color: CardColor::Green,
            rarity: CardRarity::Uncommon,
            cost: 1,
            upgraded: false,
            exhaust: false,
            innate: false,
            effects: templates1(
                EffectTemplate::ModifierGain { kind: ModifierKind::Dexterity, stacks: 2, target: TargetKind::Character, },
            ),
        },
        (CardName::Footwork, true) => Card {
            name: CardName::Footwork,
            kind: CardType::Power,
            color: CardColor::Green,
            rarity: CardRarity::Uncommon,
            cost: 1,
            upgraded: true,
            exhaust: false,
            innate: false,
            effects: templates1(
                EffectTemplate::ModifierGain { kind: ModifierKind::Dexterity, stacks: 3, target: TargetKind::Character, },
            ),
        },
        (CardName::InfiniteBlades, false) => Card {
            name: CardName::InfiniteBlades,
            kind: CardType::Power,
            color: CardColor::Green,
            rarity: CardRarity::Uncommon,
            cost: 1,
            upgraded: false,
            exhaust: false,
            innate: false,
            effects: templates1(
                EffectTemplate::ModifierGain { kind: ModifierKind::InfiniteBlades, stacks: 1, target: TargetKind::Character, },
            ),
        },
        (CardName::InfiniteBlades, true) => Card {
            name: CardName::InfiniteBlades,
            kind: CardType::Power,
            color: CardColor::Green,
            rarity: CardRarity::Uncommon,
            cost: 1,
            upgraded: true,
            exhaust: false,
            innate: true,
            effects: templates1(
                EffectTemplate::ModifierGain { kind: ModifierKind::InfiniteBlades, stacks: 1, target: TargetKind::Character, },
            ),
        },
        (CardName::LegSweep, false) => Card {
            name: CardName::LegSweep,
            kind: CardType::Skill,
            color: CardColor::Green,
            rarity: CardRarity::Uncommon,
            cost: 2,
            upgraded: false,
            exhaust: false,
            innate: false,
            effects: templates2(
                EffectTemplate::BlockGain { amount: 11, target: TargetKind::Character, },
                EffectTemplate::ModifierGain { kind: ModifierKind::Weak, stacks: 2, target: TargetKind::CardTarget, },
            ),
        },
        (CardName::LegSweep, true) => Card {
            name: CardName::LegSweep,
            kind: CardType::Skill,
            color: CardColor::Green,
            rarity: CardRarity::Uncommon,
            cost: 2,
            upgraded: true,
            exhaust: false,
            innate: false,
            effects: templates2(
                EffectTemplate::BlockGain { amount: 14, target: TargetKind::Character, },
                EffectTemplate::ModifierGain { kind: ModifierKind::Weak, stacks: 3, target: TargetKind::CardTarget, },
            ),
        },
        (CardName::Neutralize, false) => Card {
            name: CardName::Neutralize,
            kind: CardType::Attack,
            color: CardColor::Green,
            rarity: CardRarity::Basic,
            cost: 0,
            upgraded: false,
            exhaust: false,
            innate: false,
            effects: templates2(
                EffectTemplate::DamagePhysical { base: 3, target: TargetKind::CardTarget, },
                EffectTemplate::ModifierGain { kind: ModifierKind::Weak, stacks: 1, target: TargetKind::CardTarget, },
            ),
        },
        (CardName::Neutralize, true) => Card {
            name: CardName::Neutralize,
            kind: CardType::Attack,
            color: CardColor::Green,
            rarity: CardRarity::Basic,
            cost: 0,
            upgraded: true,
            exhaust: false,
            innate: false,
            effects: templates2(
                EffectTemplate::DamagePhysical { base: 4, target: TargetKind::CardTarget, },
                EffectTemplate::ModifierGain { kind: ModifierKind::Weak, stacks: 2, target: TargetKind::CardTarget, },
            ),
        },
        (CardName::Outmaneuver, false) => Card {
            name: CardName::Outmaneuver,
            kind: CardType::Skill,
            color: CardColor::Green,
            rarity: CardRarity::Common,
            cost: 1,
            upgraded: false,
            exhaust: false,
            innate: false,
            effects: templates1(
                EffectTemplate::ModifierGain { kind: ModifierKind::NextTurnEnergy, stacks: 2, target: TargetKind::Character, },
            ),
        },
        (CardName::Outmaneuver, true) => Card {
            name: CardName::Outmaneuver,
            kind: CardType::Skill,
            color: CardColor::Green,
            rarity: CardRarity::Common,
            cost: 1,
            upgraded: true,
            exhaust: false,
            innate: false,
            effects: templates1(
                EffectTemplate::ModifierGain { kind: ModifierKind::NextTurnEnergy, stacks: 3, target: TargetKind::Character, },
            ),
        },
        (CardName::PhantasmalKiller, false) => Card {
            name: CardName::PhantasmalKiller,
            kind: CardType::Skill,
            color: CardColor::Green,
            rarity: CardRarity::Rare,
            cost: 1,
            upgraded: false,
            exhaust: false,
            innate: false,
            effects: templates1(
                EffectTemplate::ModifierGain { kind: ModifierKind::Phantasmal, stacks: 1, target: TargetKind::Character, },
            ),
        },
        (CardName::PhantasmalKiller, true) => Card {
            name: CardName::PhantasmalKiller,
            kind: CardType::Skill,
            color: CardColor::Green,
            rarity: CardRarity::Rare,
            cost: 0,
            upgraded: true,
            exhaust: false,
            innate: false,
            effects: templates1(
                EffectTemplate::ModifierGain { kind: ModifierKind::Phantasmal, stacks: 1, target: TargetKind::Character, },
            ),
        },
        (CardName::Shiv, false) => Card {
            name: CardName::Shiv,
            kind: CardType::Attack,
            color: CardColor::Colorless,
            rarity: CardRarity::Special,
            cost: 0,
            upgraded: false,
            exhaust: true,
            innate: false,
            effects: templates1(
                EffectTemplate::DamagePhysical { base: 4, target: TargetKind::CardTarget, },
            ),
        },
        (CardName::Shiv, true) => Card {
            name: CardName::Shiv,
            kind: CardType::Attack,
            color: CardColor::Colorless,
            rarity: CardRarity::Special,
            cost: 0,
            upgraded: true,
            exhaust: true,
            innate: false,
            effects: templates1(
                EffectTemplate::DamagePhysical { base: 6, target: TargetKind::CardTarget, },
            ),
        },
        (CardName::Strike, false) => Card {
            name: CardName::Strike,
            kind: CardType::Attack,
            color: CardColor::Green,
            rarity: CardRarity::Basic,
            cost: 1,
            upgraded: false,
            exhaust: false,
            innate: false,
            effects: templates1(
                EffectTemplate::DamagePhysical { base: 6, target: TargetKind::CardTarget, },
            ),
        },
        (CardName::Strike, true) => Card {
            name: CardName::Strike,
            kind: CardType::Attack,
            color: CardColor::Green,
            rarity: CardRarity::Basic,
            cost: 1,
            upgraded: true,
            exhaust: false,
            innate: false,
            effects: templates1(
                EffectTemplate::DamagePhysical { base: 9, target: TargetKind::CardTarget, },
            ),
        },
        (CardName::Survivor, false) => Card {
            name: CardName::Survivor,
            kind: CardType::Skill,
            color: CardColor::Green,
            rarity: CardRarity::Basic,
            cost: 1,
            upgraded: false,
            exhaust: false,
            innate: false,
            effects: templates2(
                EffectTemplate::BlockGain { amount: 8, target: TargetKind::Character, },
                EffectTemplate::CardDiscard { selection: SelectionKind::Input, },
            ),
        },
        (CardName::Survivor, true) => Card {
            name: CardName::Survivor,
            kind: CardType::Skill,
            color: CardColor::Green,
            rarity: CardRarity::Basic,
            cost: 1,
            upgraded: true,
            exhaust: false,
            innate: false,
            effects: templates2(
                EffectTemplate::BlockGain { amount: 11, target: TargetKind::Character, },
                EffectTemplate::CardDiscard { selection: SelectionKind::Input, },
            ),
        },
        (CardName::Terror, false) => Card {
            name: CardName::Terror,
            kind: CardType::Skill,
            color: CardColor::Green,
            rarity: CardRarity::Uncommon,
            cost: 1,
            upgraded: false,
            exhaust: true,
            innate: false,
            effects: templates1(
                EffectTemplate::ModifierGain { kind: ModifierKind::Vulnerable, stacks: 99, target: TargetKind::CardTarget, },
            ),
        },
        (CardName::Terror, true) => Card {
            name: CardName::Terror,
            kind: CardType::Skill,
            color: CardColor::Green,
            rarity: CardRarity::Uncommon,
            cost: 0,
            upgraded: true,
            exhaust: true,
            innate: false,
            effects: templates1(
                EffectTemplate::ModifierGain { kind: ModifierKind::Vulnerable, stacks: 99, target: TargetKind::CardTarget, },
            ),
        },
    }
}

/// Names eligible for common card rewards.
pub open spec fn spec_reward_pool_common() -> Seq<CardName> {
    seq![
        CardName::Acrobatics,
        CardName::Backflip,
        CardName::BladeDance,
        CardName::CloakAndDagger,
        CardName::DaggerThrow,
        CardName::Deflect,
        CardName::DodgeAndRoll,
        CardName::FlyingKnee,
        CardName::Outmaneuver,
    ]
}

pub fn reward_pool_common() -> (r: Vec<CardName>)
    ensures
        r@ =~= spec_reward_pool_common(),
{
    let mut v: Vec<CardName> = Vec::new();
    v.push(CardName::Acrobatics);
    v.push(CardName::Backflip);
    v.push(CardName::BladeDance);
    v.push(CardName::CloakAndDagger);
    v.push(CardName::DaggerThrow);
    v.push(CardName::Deflect);
    v.push(CardName::DodgeAndRoll);
    v.push(CardName::FlyingKnee);
    v.push(CardName::Outmaneuver);
    v
}

/// Names eligible for uncommon card rewards.
pub open spec fn spec_reward_pool_uncommon() -> Seq<CardName> {
    seq![
        CardName::Accuracy,
        CardName::AllOutAttack,
        CardName::Backstab,
        CardName::Blur,
        CardName::CalculatedGamble,
        CardName::Dash,
        CardName::Footwork,
        CardName::InfiniteBlades,
        CardName::LegSweep,
        CardName::Terror,
    ]
}

pub fn reward_pool_uncommon() -> (r: Vec<CardName>)
    ensures
        r@ =~= spec_reward_pool_uncommon(),
{
    let mut v: Vec<CardName> = Vec::new();
    v.push(CardName::Accuracy);
    v.push(CardName::AllOutAttack);
    v.push(CardName::Backstab);
    v.push(CardName::Blur);
    v.push(CardName::CalculatedGamble);
    v.push(CardName::Dash);
    v.push(CardName::Footwork);
    v.push(CardName::InfiniteBlades);
    v.push(CardName::LegSweep);
    v.push(CardName::Terror);
    v
}

/// Names eligible for rare card rewards.
pub open spec fn spec_reward_pool_rare() -> Seq<CardName> {
    seq![
        CardName::AThousandCuts,
        CardName::Adrenaline,
        CardName::AfterImage,
        CardName::Burst,
        CardName::DieDieDie,
        CardName::PhantasmalKiller,
    ]
}

pub fn reward_pool_rare() -> (r: Vec<CardName>)
    ensures
        r@ =~= spec_reward_pool_rare(),
{
    let mut v: Vec<CardName> = Vec::new();
    v.push(CardName::AThousandCuts);
    v.push(CardName::Adrenaline);
    v.push(CardName::AfterImage);
    v.push(CardName::Burst);
    v.push(CardName::DieDieDie);
    v.push(CardName::PhantasmalKiller);
    v
}

} // verus!
