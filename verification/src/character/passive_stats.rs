//! Passive values: what a character sheet adds to them by hand, and what
//! they come to once attributes, skills and edges are counted in.

use vstd::prelude::*;
use crate::character::edges::Edge3;
use crate::character::Character;
use crate::character::Sheet;
use crate::stats::BoolStat;
use crate::stats::IntStat;

verus! {

/// Adjustments a player makes by hand, and how the character attacks.
#[derive(Debug, Clone, Copy, PartialEq, Eq, Hash)]
pub struct PassiveModifiers {
    pub life: IntStat<20, 20>,
    pub parry: IntStat<4, 4>,
    pub robustness: IntStat<4, 4>,
    pub attack: IntStat<4, 4>,
    pub attack_wild: BoolStat,
    pub attack_head: BoolStat,
    pub no_wound_penalty: BoolStat,
}

impl Default for PassiveModifiers {
    fn default() -> (r: Self)
        ensures
            r.life.value() == 0,
            r.parry.value() == 0,
            r.robustness.value() == 0,
            r.attack.value() == 0,
            !r.attack_wild.0,
            !r.attack_head.0,
            !r.no_wound_penalty.0,
    {
        PassiveModifiers {
            life: IntStat::default(),
            parry: IntStat::default(),
            robustness: IntStat::default(),
            attack: IntStat::default(),
            attack_wild: BoolStat(false),
            attack_head: BoolStat(false),
            no_wound_penalty: BoolStat(false),
        }
    }
}

impl PassiveModifiers {
    /// Whether two sets of modifiers hold the same values.
    pub fn same(&self, other: &PassiveModifiers) -> (r: bool)
        ensures
            r == (*self == *other),
    {
        self.life.same(other.life) && self.parry.same(other.parry) && self.robustness.same(
            other.robustness,
        ) && self.attack.same(other.attack) && self.attack_wild == other.attack_wild
            && self.attack_head == other.attack_head && self.no_wound_penalty
            == other.no_wound_penalty
    }
}

/// Which hand-made adjustment an edit or a label is about.
#[derive(Debug, Clone, Copy, PartialEq, Eq, Structural)]
pub enum PassiveModifier {
    Life,
    Parry,
    Robustness,
    Attack,
}

/// Which way of attacking an edit or a label is about.
#[derive(Debug, Clone, Copy, PartialEq, Eq, Structural)]
pub enum StrategyInfo {
    AttackWild,
    AttackHead,
    NoWoundPenalty,
}

impl StrategyInfo {
    pub open spec fn spec_get(self, modifiers: PassiveModifiers) -> BoolStat {
        match self {
            StrategyInfo::AttackWild => modifiers.attack_wild,
            StrategyInfo::AttackHead => modifiers.attack_head,
            StrategyInfo::NoWoundPenalty => modifiers.no_wound_penalty,
        }
    }

    pub open spec fn spec_put(self, modifiers: PassiveModifiers, value: BoolStat)
        -> PassiveModifiers {
        match self {
            StrategyInfo::AttackWild => PassiveModifiers { attack_wild: value, ..modifiers },
            StrategyInfo::AttackHead => PassiveModifiers { attack_head: value, ..modifiers },
            StrategyInfo::NoWoundPenalty => PassiveModifiers {
                no_wound_penalty: value,
                ..modifiers
            },
        }
    }

    pub fn get(self, modifiers: &PassiveModifiers) -> (r: BoolStat)
        ensures
            r == self.spec_get(*modifiers),
    {
        match self {
            StrategyInfo::AttackWild => modifiers.attack_wild,
            StrategyInfo::AttackHead => modifiers.attack_head,
            StrategyInfo::NoWoundPenalty => modifiers.no_wound_penalty,
        }
    }

    pub fn put(self, modifiers: &mut PassiveModifiers, value: BoolStat)
        ensures
            *final(modifiers) == self.spec_put(*old(modifiers), value),
    {
        match self {
            StrategyInfo::AttackWild => modifiers.attack_wild = value,
            StrategyInfo::AttackHead => modifiers.attack_head = value,
            StrategyInfo::NoWoundPenalty => modifiers.no_wound_penalty = value,
        }
    }
}

/// What a character starts a fight with.
#[derive(Debug, Clone, Copy, PartialEq, Eq, Structural)]
pub struct PassiveStats {
    pub life: u8,
    pub parry: u8,
    pub robustness: u8,
}

impl PassiveStats {
    /// Life: 24, the dice of constitution and will, 5 per tier of the
    /// life-force edge, and the adjustment made by hand.
    pub open spec fn spec_life(sheet: Sheet) -> int {
        24 + sheet.attributes.kon.spec_sides() + sheet.attributes.wil.spec_sides()
            + match sheet.edges.lebenskraft {
            Edge3::Off => 0int,
            Edge3::Normal => 5int,
            Edge3::Improved => 10int,
        } + sheet.passive_modifiers.life.value()
    }

    /// Parry: 2, half the fighting die and the adjustment made by hand, not
    /// below 0; one more for the ambidextrous with both weapons in use.
    pub open spec fn spec_parry(sheet: Sheet) -> int {
        let base = 2 + sheet.skills.kampfen.spec_sides() / 2 + sheet.passive_modifiers.parry.value();
        let floored = if base < 0 {
            0
        } else {
            base
        };
        if sheet.edges.beidhandig.0 && sheet.weapon.active && sheet.secondary_weapon.active {
            floored + 1
        } else {
            floored
        }
    }

    /// Robustness: 2, half the constitution die, and the adjustment made by
    /// hand.
    pub open spec fn spec_robustness(sheet: Sheet) -> int {
        2 + sheet.attributes.kon.spec_sides() / 2 + sheet.passive_modifiers.robustness.value()
    }

    /// The passive values of the character.
    pub fn new(character: &Character) -> (r: Self)
        ensures
            r == Self::spec_of(character.spec_sheet()),
    {
        let sheet = character.sheet();
        Self::of(&sheet)
    }

    /// The passive values that follow from a sheet.
    pub open spec fn spec_of(sheet: Sheet) -> PassiveStats {
        PassiveStats {
            life: Self::spec_life(sheet) as u8,
            parry: Self::spec_parry(sheet) as u8,
            robustness: Self::spec_robustness(sheet) as u8,
        }
    }

    pub fn of(sheet: &Sheet) -> (r: Self)
        ensures
            r == Self::spec_of(*sheet),
            r.life == Self::spec_life(*sheet),
            r.life >= 12,
            r.parry == Self::spec_parry(*sheet),
            r.robustness == Self::spec_robustness(*sheet),
    {
        PassiveStats {
            life: Self::calc_life(sheet),
            parry: Self::calc_parry(sheet),
            robustness: Self::calc_robustness(sheet),
        }
    }

    pub fn calc_life(sheet: &Sheet) -> (r: u8)
        ensures
            r == Self::spec_life(*sheet),
            12 <= r <= 82,
    {
        let base: i16 = 24 + sheet.attributes.kon.sides() as i16 + sheet.attributes.wil.sides() as i16;
        let edge_bonus: i16 = match sheet.edges.lebenskraft {
            Edge3::Off => 0,
            Edge3::Normal => 5,
            Edge3::Improved => 10,
        };
        let life: i16 = base + edge_bonus + sheet.passive_modifiers.life.get() as i16;
        life as u8
    }

    pub fn calc_parry(sheet: &Sheet) -> (r: u8)
        ensures
            r == Self::spec_parry(*sheet),
            r <= 14,
    {
        let base: i16 = 2 + (sheet.skills.kampfen.sides() / 2) as i16
            + sheet.passive_modifiers.parry.get() as i16;
        let mut parry: u8 = if base < 0 {
            0
        } else {
            base as u8
        };
        if sheet.edges.beidhandig.is_set() && sheet.weapon.active && sheet.secondary_weapon.active {
            parry = parry + 1;
        }
        parry
    }

    pub fn calc_robustness(sheet: &Sheet) -> (r: u8)
        ensures
            r == Self::spec_robustness(*sheet),
            r <= 13,
    {
        let robustness: i16 = 2 + (sheet.attributes.kon.sides() / 2) as i16
            + sheet.passive_modifiers.robustness.get() as i16;
        robustness as u8
    }
}

} // verus!
