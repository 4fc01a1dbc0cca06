//! Modifier (buff/debuff) storage: a fixed-cardinality table of per-kind
//! stack counts, a "newly applied this turn" flag per kind, and a presence
//! flag per kind. A kind is meaningful only while present; stacks of a
//! present kind are always clamped into that kind's `[min, max]` range.

use vstd::prelude::*;

verus! {

pub const MODIFIER_COUNT: usize = 18;

#[derive(Debug, Clone, Copy, PartialEq, Eq, Hash, Structural)]
pub enum ModifierKind {
    Accuracy,
    AfterImage,
    Blur,
    Burst,
    Dexterity,
    DoubleDamage,
    InfiniteBlades,
    ModeShift,
    NextTurnBlock,
    NextTurnEnergy,
    Phantasmal,
    Ritual,
    SharpHide,
    SporeCloud,
    Strength,
    ThousandCuts,
    Vulnerable,
    Weak,
}

impl ModifierKind {
    /// Position of this kind in the dense storage tables.
    pub open spec fn spec_idx(self) -> int {
        match self {
            ModifierKind::Accuracy => 0,
            ModifierKind::AfterImage => 1,
            ModifierKind::Blur => 2,
            ModifierKind::Burst => 3,
            ModifierKind::Dexterity => 4,
            ModifierKind::DoubleDamage => 5,
            ModifierKind::InfiniteBlades => 6,
            ModifierKind::ModeShift => 7,
            ModifierKind::NextTurnBlock => 8,
            ModifierKind::NextTurnEnergy => 9,
            ModifierKind::Phantasmal => 10,
            ModifierKind::Ritual => 11,
            ModifierKind::SharpHide => 12,
            ModifierKind::SporeCloud => 13,
            ModifierKind::Strength => 14,
            ModifierKind::ThousandCuts => 15,
            ModifierKind::Vulnerable => 16,
            ModifierKind::Weak => 17,
        }
    }

    pub fn idx(self) -> (r: usize)
        ensures
            r == self.spec_idx(),
    {
        match self {
            ModifierKind::Accuracy => 0,
            ModifierKind::AfterImage => 1,
            ModifierKind::Blur => 2,
            ModifierKind::Burst => 3,
            ModifierKind::Dexterity => 4,
            ModifierKind::DoubleDamage => 5,
            ModifierKind::InfiniteBlades => 6,
            ModifierKind::ModeShift => 7,
            ModifierKind::NextTurnBlock => 8,
            ModifierKind::NextTurnEnergy => 9,
            ModifierKind::Phantasmal => 10,
            ModifierKind::Ritual => 11,
            ModifierKind::SharpHide => 12,
            ModifierKind::SporeCloud => 13,
            ModifierKind::Strength => 14,
            ModifierKind::ThousandCuts => 15,
            ModifierKind::Vulnerable => 16,
            ModifierKind::Weak => 17,
        }
    }

    /// The kind stored at table position `v`; the caller must pass a valid
    /// position.
    pub fn from_u8(v: u8) -> (r: ModifierKind)
        requires
            (v as int) < MODIFIER_COUNT,
        ensures
            r == kind_at(v as int),
            r.spec_idx() == v,
    {
        kind_of_index(v as usize)
    }
}

/// Kind at table position `i`; the inverse of `ModifierKind::spec_idx`.
pub open spec fn kind_at(i: int) -> ModifierKind {
    if i == 0 { ModifierKind::Accuracy }
    else if i == 1 { ModifierKind::AfterImage }
    else if i == 2 { ModifierKind::Blur }
    else if i == 3 { ModifierKind::Burst }
    else if i == 4 { ModifierKind::Dexterity }
    else if i == 5 { ModifierKind::DoubleDamage }
    else if i == 6 { ModifierKind::InfiniteBlades }
    else if i == 7 { ModifierKind::ModeShift }
    else if i == 8 { ModifierKind::NextTurnBlock }
    else if i == 9 { ModifierKind::NextTurnEnergy }
    else if i == 10 { ModifierKind::Phantasmal }
    else if i == 11 { ModifierKind::Ritual }
    else if i == 12 { ModifierKind::SharpHide }
    else if i == 13 { ModifierKind::SporeCloud }
    else if i == 14 { ModifierKind::Strength }
    else if i == 15 { ModifierKind::ThousandCuts }
    else if i == 16 { ModifierKind::Vulnerable }
    else { ModifierKind::Weak }
}

pub fn kind_of_index(i: usize) -> (r: ModifierKind)
    requires
        i < MODIFIER_COUNT,
    ensures
        r == kind_at(i as int),
        r.spec_idx() == i,
{
    if i == 0 { ModifierKind::Accuracy }
    else if i == 1 { ModifierKind::AfterImage }
    else if i == 2 { ModifierKind::Blur }
    else if i == 3 { ModifierKind::Burst }
    else if i == 4 { ModifierKind::Dexterity }
    else if i == 5 { ModifierKind::DoubleDamage }
    else if i == 6 { ModifierKind::InfiniteBlades }
    else if i == 7 { ModifierKind::ModeShift }
    else if i == 8 { ModifierKind::NextTurnBlock }
    else if i == 9 { ModifierKind::NextTurnEnergy }
    else if i == 10 { ModifierKind::Phantasmal }
    else if i == 11 { ModifierKind::Ritual }
    else if i == 12 { ModifierKind::SharpHide }
    else if i == 13 { ModifierKind::SporeCloud }
    else if i == 14 { ModifierKind::Strength }
    else if i == 15 { ModifierKind::ThousandCuts }
    else if i == 16 { ModifierKind::Vulnerable }
    else { ModifierKind::Weak }
}

/// Static description of one modifier kind: polarity, whether stacks decay
/// at end of turn, and the clamp range for its stack count.
#[derive(Debug, Clone, Copy, PartialEq, Eq, Structural)]
pub struct Modifier {
    pub kind: ModifierKind,
    pub is_buff: bool,
    pub stacks_duration: bool,
    pub min_stacks: i16,
    pub max_stacks: i16,
}

pub open spec fn spec_modifier_def(kind: ModifierKind) -> Modifier {
    Modifier {
        kind: kind,
        is_buff: !(kind == ModifierKind::Vulnerable || kind == ModifierKind::Weak),
        stacks_duration: (kind == ModifierKind::Blur || kind == ModifierKind::DoubleDamage
            || kind == ModifierKind::Phantasmal || kind == ModifierKind::Vulnerable
            || kind == ModifierKind::Weak),
        min_stacks: if kind == ModifierKind::Dexterity || kind == ModifierKind::Strength {
            -999i16
        } else if kind == ModifierKind::Vulnerable || kind == ModifierKind::Weak {
            0i16
        } else {
            1i16
        },
        max_stacks: 999i16,
    }
}

pub fn modifier_def(kind: ModifierKind) -> (r: Modifier)
    ensures
        r == spec_modifier_def(kind),
{
    let is_buff = !(matches!(kind, ModifierKind::Vulnerable) || matches!(kind, ModifierKind::Weak));
    let stacks_duration = matches!(kind, ModifierKind::Blur)
        || matches!(kind, ModifierKind::DoubleDamage)
        || matches!(kind, ModifierKind::Phantasmal)
        || matches!(kind, ModifierKind::Vulnerable)
        || matches!(kind, ModifierKind::Weak);
    let min_stacks: i16 = if matches!(kind, ModifierKind::Dexterity)
        || matches!(kind, ModifierKind::Strength) {
        -999
    } else if matches!(kind, ModifierKind::Vulnerable) || matches!(kind, ModifierKind::Weak) {
        0
    } else {
        1
    };
    Modifier { kind, is_buff, stacks_duration, min_stacks, max_stacks: 999 }
}

/// Per-combatant modifier state, indexed by `ModifierKind::spec_idx`.
#[derive(Debug, Clone, PartialEq)]
pub struct Modifiers {
    pub stacks: Vec<i16>,
    pub is_new: Vec<bool>,
    pub active: Vec<bool>,
}

pub open spec fn spec_clamp(v: int, lo: int, hi: int) -> int {
    if v < lo { lo } else if v > hi { hi } else { v }
}

impl Modifiers {
    pub open spec fn spec_has(self, kind: ModifierKind) -> bool {
        self.active@[kind.spec_idx()]
    }

    pub open spec fn spec_stacks(self, kind: ModifierKind) -> i16 {
        self.stacks@[kind.spec_idx()]
    }

    pub open spec fn spec_new(self, kind: ModifierKind) -> bool {
        self.is_new@[kind.spec_idx()]
    }

    /// Well-formed: the tables have the fixed cardinality and every present
    /// kind's stacks lie in that kind's clamp range.
    pub open spec fn wf(self) -> bool {
        &&& self.stacks@.len() == MODIFIER_COUNT
        &&& self.is_new@.len() == MODIFIER_COUNT
        &&& self.active@.len() == MODIFIER_COUNT
        &&& forall|kind: ModifierKind| #[trigger] self.spec_has(kind)
            ==> spec_modifier_def(kind).min_stacks <= self.spec_stacks(kind)
                <= spec_modifier_def(kind).max_stacks
    }
}

pub fn modifiers_new() -> (m: Modifiers)
    ensures
        m.wf(),
        forall|kind: ModifierKind| !(#[trigger] m.spec_has(kind)),
        forall|kind: ModifierKind| #[trigger] m.spec_stacks(kind) == 0,
        forall|kind: ModifierKind| !(#[trigger] m.spec_new(kind)),
{
    Modifiers {
        stacks: vec![0i16; MODIFIER_COUNT],
        is_new: vec![false; MODIFIER_COUNT],
        active: vec![false; MODIFIER_COUNT],
    }
}

pub fn modifier_stacks(mods: &Modifiers, kind: ModifierKind) -> (r: i16)
    requires
        mods.wf(),
    ensures
        r == mods.spec_stacks(kind),
{
    mods.stacks[kind.idx()]
}

pub fn modifier_has(mods: &Modifiers, kind: ModifierKind) -> (r: bool)
    requires
        mods.wf(),
    ensures
        r == mods.spec_has(kind),
{
    mods.active[kind.idx()]
}

/// Relation between a modifier store and its state after gaining `stacks`
/// of `kind`: an absent kind is installed with its initial stacks clamped
/// into range and marked new; a present kind adds and re-clamps without
/// touching its "new" flag.
pub open spec fn spec_apply_rel(m0: Modifiers, m1: Modifiers, kind: ModifierKind, stacks: i16) -> bool {
    if m0.spec_has(kind) {
        &&& m1.stacks@ == m0.stacks@.update(
            kind.spec_idx(),
            spec_clamp(
                m0.spec_stacks(kind) + stacks,
                spec_modifier_def(kind).min_stacks as int,
                spec_modifier_def(kind).max_stacks as int,
            ) as i16,
        )
        &&& m1.is_new@ == m0.is_new@
        &&& m1.active@ == m0.active@
    } else {
        &&& m1.stacks@ == m0.stacks@.update(
            kind.spec_idx(),
            spec_clamp(
                stacks as int,
                spec_modifier_def(kind).min_stacks as int,
                spec_modifier_def(kind).max_stacks as int,
            ) as i16,
        )
        &&& m1.is_new@ == m0.is_new@.update(kind.spec_idx(), true)
        &&& m1.active@ == m0.active@.update(kind.spec_idx(), true)
    }
}

/// Relation after removing `kind` outright: stacks, newness flag, and
/// presence are cleared together, never partially.
pub open spec fn spec_remove_rel(m0: Modifiers, m1: Modifiers, kind: ModifierKind) -> bool {
    &&& m1.stacks@ == m0.stacks@.update(kind.spec_idx(), 0i16)
    &&& m1.is_new@ == m0.is_new@.update(kind.spec_idx(), false)
    &&& m1.active@ == m0.active@.update(kind.spec_idx(), false)
}

/// Relation after an end-of-turn tick over the whole store.
pub open spec fn spec_tick_rel(m0: Modifiers, m1: Modifiers) -> bool {
    &&& m1.stacks@.len() == MODIFIER_COUNT
    &&& m1.is_new@.len() == MODIFIER_COUNT
    &&& m1.active@.len() == MODIFIER_COUNT
    &&& forall|i: int| 0 <= i < MODIFIER_COUNT ==> #[trigger] spec_tick_at(m0, i)
        == (m1.stacks@[i], m1.is_new@[i], m1.active@[i])
}

/// Gain `stacks` of `kind`: an absent kind is installed with its initial
/// stacks clamped into range and marked new; a present kind adds and
/// re-clamps without touching its "new" flag.
pub fn modifier_apply(mods: &mut Modifiers, kind: ModifierKind, stacks: i16)
    requires
        old(mods).wf(),
    ensures
        final(mods).wf(),
        spec_apply_rel(*old(mods), *final(mods), kind, stacks),
{
    let cfg = modifier_def(kind);
    let idx = kind.idx();
    if mods.active[idx] {
        let sum: i32 = mods.stacks[idx] as i32 + stacks as i32;
        let clamped: i32 = if sum < cfg.min_stacks as i32 {
            cfg.min_stacks as i32
        } else if sum > cfg.max_stacks as i32 {
            cfg.max_stacks as i32
        } else {
            sum
        };
        mods.stacks[idx] = clamped as i16;
        proof {
            assert(mods.spec_has(kind) == old(mods).spec_has(kind));
            assert forall|k2: ModifierKind| #[trigger] mods.spec_has(k2)
                implies spec_modifier_def(k2).min_stacks <= mods.spec_stacks(k2)
                    <= spec_modifier_def(k2).max_stacks by {
                if k2.spec_idx() != kind.spec_idx() {
                    assert(old(mods).spec_has(k2));
                }
            }
        }
    } else {
        let clamped: i16 = if stacks < cfg.min_stacks {
            cfg.min_stacks
        } else if stacks > cfg.max_stacks {
            cfg.max_stacks
        } else {
            stacks
        };
        mods.stacks[idx] = clamped;
        mods.is_new[idx] = true;
        mods.active[idx] = true;
        proof {
            assert forall|k2: ModifierKind| #[trigger] mods.spec_has(k2)
                implies spec_modifier_def(k2).min_stacks <= mods.spec_stacks(k2)
                    <= spec_modifier_def(k2).max_stacks by {
                if k2.spec_idx() != kind.spec_idx() {
                    assert(old(mods).spec_has(k2));
                }
            }
        }
    }
}

/// Remove `kind` outright: stacks, newness flag, and presence are cleared
/// together, never partially.
pub fn modifier_remove(mods: &mut Modifiers, kind: ModifierKind)
    requires
        old(mods).wf(),
    ensures
        final(mods).wf(),
        spec_remove_rel(*old(mods), *final(mods), kind),
{
    let idx = kind.idx();
    mods.stacks[idx] = 0;
    mods.is_new[idx] = false;
    mods.active[idx] = false;
    proof {
        assert forall|k2: ModifierKind| #[trigger] mods.spec_has(k2)
            implies spec_modifier_def(k2).min_stacks <= mods.spec_stacks(k2)
                <= spec_modifier_def(k2).max_stacks by {
            assert(old(mods).spec_has(k2));
        }
    }
}

/// One end-of-turn tick applied to a single table slot.
pub open spec fn spec_tick_at(m: Modifiers, i: int) -> (i16, bool, bool) {
    let kind = kind_at(i);
    let cfg = spec_modifier_def(kind);
    if m.active@[i] && cfg.stacks_duration && !m.is_new@[i] {
        if m.stacks@[i] - 1 < cfg.min_stacks {
            (0i16, false, false)
        } else {
            ((m.stacks@[i] - 1) as i16, m.is_new@[i], true)
        }
    } else {
        (m.stacks@[i], m.is_new@[i], m.active@[i])
    }
}

/// End-of-turn decay: every present duration-stacked kind that was not
/// applied this turn loses one stack; dropping below its minimum removes
/// the kind entirely.
pub fn modifier_tick(mods: &mut Modifiers)
    requires
        old(mods).wf(),
    ensures
        final(mods).wf(),
        spec_tick_rel(*old(mods), *final(mods)),
{
    let mut i: usize = 0;
    while i < MODIFIER_COUNT
        invariant
            old(mods).wf(),
            i <= MODIFIER_COUNT,
            mods.stacks@.len() == MODIFIER_COUNT,
            mods.is_new@.len() == MODIFIER_COUNT,
            mods.active@.len() == MODIFIER_COUNT,
            forall|j: int| 0 <= j < i ==> #[trigger] spec_tick_at(*old(mods), j)
                == (mods.stacks@[j], mods.is_new@[j], mods.active@[j]),
            forall|j: int| i <= j < MODIFIER_COUNT ==> {
                &&& mods.stacks@[j] == old(mods).stacks@[j]
                &&& mods.is_new@[j] == old(mods).is_new@[j]
                &&& mods.active@[j] == old(mods).active@[j]
            },
        decreases MODIFIER_COUNT - i,
    {
        let kind = kind_of_index(i);
        let cfg = modifier_def(kind);
        if mods.active[i] && cfg.stacks_duration && !mods.is_new[i] {
            proof {
                assert(old(mods).spec_has(kind));
                assert(kind.spec_idx() == i as int);
            }
            let s = mods.stacks[i];
            if s - 1 < cfg.min_stacks {
                mods.stacks[i] = 0;
                mods.is_new[i] = false;
                mods.active[i] = false;
            } else {
                mods.stacks[i] = s - 1;
            }
        }
        proof {
            assert(spec_tick_at(*old(mods), i as int)
                == (mods.stacks@[i as int], mods.is_new@[i as int], mods.active@[i as int]));
        }
        i = i + 1;
    }
    proof {
        assert forall|kind: ModifierKind| #[trigger] mods.spec_has(kind)
            implies spec_modifier_def(kind).min_stacks <= mods.spec_stacks(kind)
                <= spec_modifier_def(kind).max_stacks by {
            let i = kind.spec_idx();
            assert(spec_tick_at(*old(mods), i)
                == (mods.stacks@[i], mods.is_new@[i], mods.active@[i]));
            assert(kind_at(i) == kind);
            if old(mods).active@[i] {
                assert(old(mods).spec_has(kind));
            }
        }
    }
}

/// Overwrite the stack count of a present kind with a value already inside
/// its clamp range, leaving flags and presence untouched.
pub fn modifier_set_stacks(mods: &mut Modifiers, kind: ModifierKind, stacks: i16)
    requires
        old(mods).wf(),
        spec_modifier_def(kind).min_stacks <= stacks <= spec_modifier_def(kind).max_stacks,
    ensures
        final(mods).wf(),
        final(mods).stacks@ == old(mods).stacks@.update(kind.spec_idx(), stacks),
        final(mods).is_new@ == old(mods).is_new@,
        final(mods).active@ == old(mods).active@,
{
    let idx = kind.idx();
    mods.stacks[idx] = stacks;
    proof {
        assert forall|k2: ModifierKind| #[trigger] mods.spec_has(k2)
            implies spec_modifier_def(k2).min_stacks <= mods.spec_stacks(k2)
                <= spec_modifier_def(k2).max_stacks by {
            assert(old(mods).spec_has(k2));
        }
    }
}

/// Clear one kind's "newly applied this turn" flag, leaving everything
/// else untouched; used for modifiers that are innate rather than gained
/// during a turn.
pub fn modifier_force_not_new(mods: &mut Modifiers, kind: ModifierKind)
    requires
        old(mods).wf(),
    ensures
        final(mods).wf(),
        final(mods).stacks@ == old(mods).stacks@,
        final(mods).active@ == old(mods).active@,
        final(mods).is_new@ == old(mods).is_new@.update(kind.spec_idx(), false),
{
    let idx = kind.idx();
    mods.is_new[idx] = false;
    proof {
        assert forall|k2: ModifierKind| #[trigger] mods.spec_has(k2)
            implies spec_modifier_def(k2).min_stacks <= mods.spec_stacks(k2)
                <= spec_modifier_def(k2).max_stacks by {
            assert(old(mods).spec_has(k2));
        }
    }
}

/// Clear every kind's "newly applied this turn" flag.
pub fn modifier_set_not_new(mods: &mut Modifiers)
    requires
        old(mods).wf(),
    ensures
        final(mods).wf(),
        final(mods).stacks@ == old(mods).stacks@,
        final(mods).active@ == old(mods).active@,
        final(mods).is_new@.len() == MODIFIER_COUNT,
        forall|i: int| 0 <= i < MODIFIER_COUNT ==> !(#[trigger] final(mods).is_new@[i]),
{
    let mut i: usize = 0;
    while i < MODIFIER_COUNT
        invariant
            i <= MODIFIER_COUNT,
            mods.stacks@ == old(mods).stacks@,
            mods.active@ == old(mods).active@,
            mods.is_new@.len() == MODIFIER_COUNT,
            old(mods).wf(),
            forall|j: int| 0 <= j < i ==> !(#[trigger] mods.is_new@[j]),
        decreases MODIFIER_COUNT - i,
    {
        mods.is_new[i] = false;
        i = i + 1;
    }
    proof {
        assert forall|kind: ModifierKind| #[trigger] mods.spec_has(kind)
            implies spec_modifier_def(kind).min_stacks <= mods.spec_stacks(kind)
                <= spec_modifier_def(kind).max_stacks by {
            assert(old(mods).spec_has(kind));
        }
    }
}

/// Reset the whole store to empty.
pub fn modifier_clear(mods: &mut Modifiers)
    requires
        old(mods).wf(),
    ensures
        final(mods).wf(),
        forall|kind: ModifierKind| !(#[trigger] final(mods).spec_has(kind)),
        forall|kind: ModifierKind| #[trigger] final(mods).spec_stacks(kind) == 0,
        forall|kind: ModifierKind| !(#[trigger] final(mods).spec_new(kind)),
        final(mods).stacks@.len() == MODIFIER_COUNT,
        final(mods).is_new@.len() == MODIFIER_COUNT,
        final(mods).active@.len() == MODIFIER_COUNT,
{
    mods.stacks = vec![0i16; MODIFIER_COUNT];
    mods.is_new = vec![false; MODIFIER_COUNT];
    mods.active = vec![false; MODIFIER_COUNT];
}

/// The clamp invariant: in a well-formed store, every present kind's
/// stacks lie inside that kind's `[min, max]` range — and gaining or
/// ticking preserves well-formedness, so this holds after any gain or tick.
pub proof fn lemma_present_stacks_clamped(m: Modifiers, kind: ModifierKind)
    requires
        m.wf(),
        m.spec_has(kind),
    ensures
        spec_modifier_def(kind).min_stacks <= m.spec_stacks(kind)
            <= spec_modifier_def(kind).max_stacks,
{
}

} // verus!
