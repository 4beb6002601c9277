//! Weapons: the damage die and what modifies a strike.

use vstd::prelude::*;
use vstd::std_specs::convert::FromSpecImpl;
use crate::stats::BoolStat;
use crate::stats::IntStat;

verus! {

/// The damage die of a weapon. `Unarmed` is the bare hand.
#[derive(Debug, Clone, Copy, PartialEq, Eq, Hash, Structural)]
pub enum Damage {
    Unarmed,
    W4,
    W6,
    W8,
    W10,
    W12,
}

impl Default for Damage {
    fn default() -> (r: Self)
        ensures
            r == Damage::Unarmed,
    {
        Damage::Unarmed
    }
}

impl Damage {
    /// The sides of the damage die; the bare hand has no die.
    pub open spec fn spec_sides(self) -> u8 {
        match self {
            Damage::Unarmed => 0,
            Damage::W4 => 4,
            Damage::W6 => 6,
            Damage::W8 => 8,
            Damage::W10 => 10,
            Damage::W12 => 12,
        }
    }

    /// The next bigger die; `W12` stays.
    pub open spec fn next(self) -> Damage {
        match self {
            Damage::Unarmed => Damage::W4,
            Damage::W4 => Damage::W6,
            Damage::W6 => Damage::W8,
            Damage::W8 => Damage::W10,
            Damage::W10 => Damage::W12,
            Damage::W12 => Damage::W12,
        }
    }

    /// The next smaller die; `Unarmed` stays.
    pub open spec fn prev(self) -> Damage {
        match self {
            Damage::Unarmed => Damage::Unarmed,
            Damage::W4 => Damage::Unarmed,
            Damage::W6 => Damage::W4,
            Damage::W8 => Damage::W6,
            Damage::W10 => Damage::W8,
            Damage::W12 => Damage::W10,
        }
    }

    #[verifier::when_used_as_spec(spec_sides)]
    pub fn sides(self) -> (r: u8)
        ensures
            r == self.spec_sides(),
    {
        match self {
            Damage::Unarmed => 0,
            Damage::W4 => 4,
            Damage::W6 => 6,
            Damage::W8 => 8,
            Damage::W10 => 10,
            Damage::W12 => 12,
        }
    }

    pub fn decrement(&mut self)
        ensures
            *final(self) == old(self).prev(),
    {
        let new = match *self {
            Damage::Unarmed => Damage::Unarmed,
            Damage::W4 => Damage::Unarmed,
            Damage::W6 => Damage::W4,
            Damage::W8 => Damage::W6,
            Damage::W10 => Damage::W8,
            Damage::W12 => Damage::W10,
        };
        *self = new;
    }

    pub fn increment(&mut self)
        ensures
            *final(self) == old(self).next(),
    {
        let new = match *self {
            Damage::Unarmed => Damage::W4,
            Damage::W4 => Damage::W6,
            Damage::W6 => Damage::W8,
            Damage::W8 => Damage::W10,
            Damage::W10 => Damage::W12,
            Damage::W12 => Damage::W12,
        };
        *self = new;
    }

    /// Every damage die, smallest first.
    pub fn possible_values() -> (r: Vec<Damage>)
        ensures
            r@ == seq![
                Damage::Unarmed,
                Damage::W4,
                Damage::W6,
                Damage::W8,
                Damage::W10,
                Damage::W12,
            ],
    {
        vec![Damage::Unarmed, Damage::W4, Damage::W6, Damage::W8, Damage::W10, Damage::W12]
    }

    /// The label of the value.
    pub fn as_str(self) -> (r: &'static str)
        ensures
            r@ == match self {
                Damage::Unarmed => "---"@,
                Damage::W4 => "W4"@,
                Damage::W6 => "W6"@,
                Damage::W8 => "W8"@,
                Damage::W10 => "W10"@,
                Damage::W12 => "W12"@,
            },
    {
        match self {
            Damage::Unarmed => "---",
            Damage::W4 => "W4",
            Damage::W6 => "W6",
            Damage::W8 => "W8",
            Damage::W10 => "W10",
            Damage::W12 => "W12",
        }
    }
}

/// Which of a character's two weapons an edit or a label is about.
#[derive(Debug, Clone, Copy, PartialEq, Eq, Structural)]
pub enum DamageName {
    Primary,
    Secondary,
}

/// Which number of a weapon an edit or a label is about.
#[derive(Debug, Clone, Copy, PartialEq, Eq, Structural)]
pub enum ModifierName {
    BonusDamage,
    Piercing,
    Reach,
}

/// A weapon. `SECONDARY` tells the off-hand weapon from the main one.
#[derive(Debug, Clone, Copy, PartialEq, Eq, Hash)]
pub struct Weapon<const SECONDARY: bool> {
    pub active: bool,
    pub damage: Damage,
    pub bonus_damage: IntStat<2, 2>,
    pub piercing: IntStat<0, 3>,
    pub reach: IntStat<0, 2>,
    pub more_crit: BoolStat,
}

impl<const SECONDARY: bool> Weapon<SECONDARY> {
    pub open spec fn spec_unarmed(&self) -> bool {
        self.damage == Damage::Unarmed
    }

    /// Whether the weapon is the bare hand.
    #[verifier::when_used_as_spec(spec_unarmed)]
    pub fn unarmed(&self) -> (r: bool)
        ensures
            r == self.spec_unarmed(),
    {
        self.damage == Damage::Unarmed
    }

    /// The heading under which the weapon is listed, on one's own sheet or
    /// on an opponent's.
    pub fn heading(&self, opponent: bool) -> (r: &'static str)
        ensures
            r@ == match (SECONDARY, opponent) {
                (false, false) => "Hauptwaffe"@,
                (true, false) => "Zweitwaffe"@,
                (false, true) => "Gegner Hauptwaffe"@,
                (true, true) => "Gegner Zweitwaffe"@,
            },
    {
        match (SECONDARY, opponent) {
            (false, false) => "Hauptwaffe",
            (true, false) => "Zweitwaffe",
            (false, true) => "Gegner Hauptwaffe",
            (true, true) => "Gegner Zweitwaffe",
        }
    }

    /// Which weapon of the sheet this is.
    pub fn damage_name(&self) -> (r: DamageName)
        ensures
            r == (if SECONDARY { DamageName::Secondary } else { DamageName::Primary }),
    {
        if SECONDARY {
            DamageName::Secondary
        } else {
            DamageName::Primary
        }
    }

    /// Whether two weapons hold the same values.
    pub fn same(&self, other: &Self) -> (r: bool)
        ensures
            r == (*self == *other),
    {
        self.active == other.active && self.damage == other.damage && self.bonus_damage.same(
            other.bonus_damage,
        ) && self.piercing.same(other.piercing) && self.reach.same(other.reach) && self.more_crit
            == other.more_crit
    }
}

impl<const SECONDARY: bool> Default for Weapon<SECONDARY> {
    fn default() -> (r: Self)
        ensures
            r.active == !SECONDARY,
            r.damage == Damage::Unarmed,
            r.bonus_damage.value() == 0,
            r.piercing.value() == 0,
            r.reach.value() == 0,
            !r.more_crit.0,
    {
        Weapon {
            active: !SECONDARY,
            damage: Damage::Unarmed,
            bonus_damage: IntStat::default(),
            piercing: IntStat::default(),
            reach: IntStat::default(),
            more_crit: BoolStat(false),
        }
    }
}

/// The sides of a damage die.
impl From<Damage> for u8 {
    fn from(value: Damage) -> (r: u8) {
        value.sides()
    }
}

impl FromSpecImpl<Damage> for u8 {
    open spec fn obeys_from_spec() -> bool {
        true
    }

    open spec fn from_spec(value: Damage) -> u8 {
        value.spec_sides()
    }
}

} // verus!
