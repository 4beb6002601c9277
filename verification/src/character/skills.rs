//! The fighting skill and its die sizes.

use vstd::prelude::*;
use vstd::std_specs::convert::FromSpecImpl;

verus! {

/// The die a character rolls for a skill.
#[derive(Debug, Clone, Copy, PartialEq, Eq, Hash, Structural)]
pub enum Skill {
    W4m2,
    W4,
    W6,
    W8,
    W10,
    W12,
    W12p1,
    W12p2,
    Master,
}

impl Default for Skill {
    fn default() -> (r: Self)
        ensures
            r == Skill::W4m2,
    {
        Skill::W4m2
    }
}

impl Skill {
    /// The skill as one number: the die's sides, shifted by its modifier.
    pub open spec fn spec_sides(self) -> u8 {
        match self {
            Skill::W4m2 => 2,
            Skill::W4 => 4,
            Skill::W6 => 6,
            Skill::W8 => 8,
            Skill::W10 => 10,
            Skill::W12 => 12,
            Skill::W12p1 => 13,
            Skill::W12p2 => 14,
            Skill::Master => 14,
        }
    }

    /// The die that is actually rolled, and what is added to it.
    pub open spec fn spec_die(self) -> (u8, i8) {
        match self {
            Skill::W4m2 => (4, -2i8),
            Skill::W4 => (4, 0),
            Skill::W6 => (6, 0),
            Skill::W8 => (8, 0),
            Skill::W10 => (10, 0),
            Skill::W12 => (12, 0),
            Skill::W12p1 => (12, 1),
            Skill::W12p2 => (12, 2),
            Skill::Master => (12, 2),
        }
    }

    pub open spec fn spec_wild_die_sides(self) -> u8 {
        if self == Skill::Master {
            10
        } else {
            6
        }
    }

    /// The next better die; `Master` stays.
    pub open spec fn next(self) -> Skill {
        match self {
            Skill::W4m2 => Skill::W4,
            Skill::W4 => Skill::W6,
            Skill::W6 => Skill::W8,
            Skill::W8 => Skill::W10,
            Skill::W10 => Skill::W12,
            Skill::W12 => Skill::W12p1,
            Skill::W12p1 => Skill::W12p2,
            Skill::W12p2 => Skill::Master,
            Skill::Master => Skill::Master,
        }
    }

    /// The next worse die; `W4m2` stays.
    pub open spec fn prev(self) -> Skill {
        match self {
            Skill::W4m2 => Skill::W4m2,
            Skill::W4 => Skill::W4m2,
            Skill::W6 => Skill::W4,
            Skill::W8 => Skill::W6,
            Skill::W10 => Skill::W8,
            Skill::W12 => Skill::W10,
            Skill::W12p1 => Skill::W12,
            Skill::W12p2 => Skill::W12p1,
            Skill::Master => Skill::W12p2,
        }
    }

    #[verifier::when_used_as_spec(spec_sides)]
    pub fn sides(self) -> (r: u8)
        ensures
            r == self.spec_sides(),
    {
        match self {
            Skill::W4m2 => 2,
            Skill::W4 => 4,
            Skill::W6 => 6,
            Skill::W8 => 8,
            Skill::W10 => 10,
            Skill::W12 => 12,
            Skill::W12p1 => 13,
            Skill::W12p2 => 14,
            Skill::Master => 14,
        }
    }

    #[verifier::when_used_as_spec(spec_die)]
    pub fn die(self) -> (r: (u8, i8))
        ensures
            r == self.spec_die(),
    {
        match self {
            Skill::W4m2 => (4, -2),
            Skill::W4 => (4, 0),
            Skill::W6 => (6, 0),
            Skill::W8 => (8, 0),
            Skill::W10 => (10, 0),
            Skill::W12 => (12, 0),
            Skill::W12p1 => (12, 1),
            Skill::W12p2 => (12, 2),
            Skill::Master => (12, 2),
        }
    }

    /// The sides of the wild die rolled beside this skill.
    #[verifier::when_used_as_spec(spec_wild_die_sides)]
    pub fn wild_die_sides(self) -> (r: u8)
        ensures
            r == self.spec_wild_die_sides(),
    {
        match self {
            Skill::Master => 10,
            _ => 6,
        }
    }

    pub fn increment(&mut self)
        ensures
            *final(self) == old(self).next(),
    {
        let new = match *self {
            Skill::W4m2 => Skill::W4,
            Skill::W4 => Skill::W6,
            Skill::W6 => Skill::W8,
            Skill::W8 => Skill::W10,
            Skill::W10 => Skill::W12,
            Skill::W12 => Skill::W12p1,
            Skill::W12p1 => Skill::W12p2,
            Skill::W12p2 => Skill::Master,
            Skill::Master => Skill::Master,
        };
        *self = new;
    }

    pub fn decrement(&mut self)
        ensures
            *final(self) == old(self).prev(),
    {
        let new = match *self {
            Skill::W4m2 => Skill::W4m2,
            Skill::W4 => Skill::W4m2,
            Skill::W6 => Skill::W4,
            Skill::W8 => Skill::W6,
            Skill::W10 => Skill::W8,
            Skill::W12 => Skill::W10,
            Skill::W12p1 => Skill::W12,
            Skill::W12p2 => Skill::W12p1,
            Skill::Master => Skill::W12p2,
        };
        *self = new;
    }

    /// Every value a skill can take, from the worst die to the best.
    pub fn possible_values() -> (r: Vec<Skill>)
        ensures
            r@ == seq![
                Skill::W4m2,
                Skill::W4,
                Skill::W6,
                Skill::W8,
                Skill::W10,
                Skill::W12,
                Skill::W12p1,
                Skill::W12p2,
                Skill::Master,
            ],
    {
        vec![
            Skill::W4m2,
            Skill::W4,
            Skill::W6,
            Skill::W8,
            Skill::W10,
            Skill::W12,
            Skill::W12p1,
            Skill::W12p2,
            Skill::Master,
        ]
    }

    /// The label of the value.
    pub fn as_str(self) -> (r: &'static str)
        ensures
            r@ == match self {
                Skill::W4m2 => "W4-2"@,
                Skill::W4 => "W4"@,
                Skill::W6 => "W6"@,
                Skill::W8 => "W8"@,
                Skill::W10 => "W10"@,
                Skill::W12 => "W12"@,
                Skill::W12p1 => "W12+1"@,
                Skill::W12p2 => "W12+2"@,
                Skill::Master => "Meister"@,
            },
    {
        match self {
            Skill::W4m2 => "W4-2",
            Skill::W4 => "W4",
            Skill::W6 => "W6",
            Skill::W8 => "W8",
            Skill::W10 => "W10",
            Skill::W12 => "W12",
            Skill::W12p1 => "W12+1",
            Skill::W12p2 => "W12+2",
            Skill::Master => "Meister",
        }
    }
}

/// The skills of one character.
#[derive(Debug, Clone, Copy, PartialEq, Eq, Hash, Structural)]
pub struct Skills {
    pub kampfen: Skill,
}

impl Skills {
    /// The skills of a beginner.
    pub open spec fn beginner() -> Skills {
        Skills { kampfen: Skill::W4m2 }
    }
}

impl Default for Skills {
    fn default() -> (r: Self)
        ensures
            r == Skills::beginner(),
    {
        Skills { kampfen: Skill::W4m2 }
    }
}

/// Which skill an edit or a label is about.
#[derive(Debug, Clone, Copy, PartialEq, Eq, Structural)]
pub enum SkillName {
    Kampfen,
}

/// A skill as one number.
impl From<Skill> for u8 {
    fn from(value: Skill) -> (r: u8) {
        value.sides()
    }
}

impl FromSpecImpl<Skill> for u8 {
    open spec fn obeys_from_spec() -> bool {
        true
    }

    open spec fn from_spec(value: Skill) -> u8 {
        value.spec_sides()
    }
}

} // verus!
