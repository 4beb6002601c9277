//! The five attributes of a character and their die sizes.

use vstd::prelude::*;
use vstd::std_specs::convert::FromSpecImpl;

verus! {

/// The die a character rolls for an attribute.
#[derive(Debug, Clone, Copy, PartialEq, Eq, Hash, Structural)]
pub enum Attribute {
    W4,
    W6,
    W8,
    W10,
    W12,
    W12p1,
    W12p2,
    Master,
}

impl Default for Attribute {
    fn default() -> (r: Self)
        ensures
            r == Attribute::W4,
    {
        Attribute::W4
    }
}

impl Attribute {
    /// The attribute as one number: the die's sides, plus its bonus above W12.
    pub open spec fn spec_sides(self) -> u8 {
        match self {
            Attribute::W4 => 4,
            Attribute::W6 => 6,
            Attribute::W8 => 8,
            Attribute::W10 => 10,
            Attribute::W12 => 12,
            Attribute::W12p1 => 13,
            Attribute::W12p2 => 14,
            Attribute::Master => 14,
        }
    }

    /// The die that is actually rolled, and what is added to it.
    pub open spec fn spec_die(self) -> (u8, i8) {
        match self {
            Attribute::W4 => (4, 0),
            Attribute::W6 => (6, 0),
            Attribute::W8 => (8, 0),
            Attribute::W10 => (10, 0),
            Attribute::W12 => (12, 0),
            Attribute::W12p1 => (12, 1),
            Attribute::W12p2 => (12, 2),
            Attribute::Master => (12, 2),
        }
    }

    pub open spec fn spec_wild_die_sides(self) -> u8 {
        if self == Attribute::Master {
            10
        } else {
            6
        }
    }

    /// The next better die; `Master` stays.
    pub open spec fn next(self) -> Attribute {
        match self {
            Attribute::W4 => Attribute::W6,
            Attribute::W6 => Attribute::W8,
            Attribute::W8 => Attribute::W10,
            Attribute::W10 => Attribute::W12,
            Attribute::W12 => Attribute::W12p1,
            Attribute::W12p1 => Attribute::W12p2,
            Attribute::W12p2 => Attribute::Master,
            Attribute::Master => Attribute::Master,
        }
    }

    /// The next worse die; `W4` stays.
    pub open spec fn prev(self) -> Attribute {
        match self {
            Attribute::W4 => Attribute::W4,
            Attribute::W6 => Attribute::W4,
            Attribute::W8 => Attribute::W6,
            Attribute::W10 => Attribute::W8,
            Attribute::W12 => Attribute::W10,
            Attribute::W12p1 => Attribute::W12,
            Attribute::W12p2 => Attribute::W12p1,
            Attribute::Master => Attribute::W12p2,
        }
    }

    #[verifier::when_used_as_spec(spec_sides)]
    pub fn sides(self) -> (r: u8)
        ensures
            r == self.spec_sides(),
    {
        match self {
            Attribute::W4 => 4,
            Attribute::W6 => 6,
            Attribute::W8 => 8,
            Attribute::W10 => 10,
            Attribute::W12 => 12,
            Attribute::W12p1 => 13,
            Attribute::W12p2 => 14,
            Attribute::Master => 14,
        }
    }

    #[verifier::when_used_as_spec(spec_die)]
    pub fn die(self) -> (r: (u8, i8))
        ensures
            r == self.spec_die(),
    {
        match self {
            Attribute::W4 => (4, 0),
            Attribute::W6 => (6, 0),
            Attribute::W8 => (8, 0),
            Attribute::W10 => (10, 0),
            Attribute::W12 => (12, 0),
            Attribute::W12p1 => (12, 1),
            Attribute::W12p2 => (12, 2),
            Attribute::Master => (12, 2),
        }
    }

    /// The sides of the wild die rolled beside this attribute.
    #[verifier::when_used_as_spec(spec_wild_die_sides)]
    pub fn wild_die_sides(self) -> (r: u8)
        ensures
            r == self.spec_wild_die_sides(),
    {
        match self {
            Attribute::Master => 10,
            _ => 6,
        }
    }

    pub fn increment(&mut self)
        ensures
            *final(self) == old(self).next(),
    {
        let new = match *self {
            Attribute::W4 => Attribute::W6,
            Attribute::W6 => Attribute::W8,
            Attribute::W8 => Attribute::W10,
            Attribute::W10 => Attribute::W12,
            Attribute::W12 => Attribute::W12p1,
            Attribute::W12p1 => Attribute::W12p2,
            Attribute::W12p2 => Attribute::Master,
            Attribute::Master => Attribute::Master,
        };
        *self = new;
    }

    pub fn decrement(&mut self)
        ensures
            *final(self) == old(self).prev(),
    {
        let new = match *self {
            Attribute::W4 => Attribute::W4,
            Attribute::W6 => Attribute::W4,
            Attribute::W8 => Attribute::W6,
            Attribute::W10 => Attribute::W8,
            Attribute::W12 => Attribute::W10,
            Attribute::W12p1 => Attribute::W12,
            Attribute::W12p2 => Attribute::W12p1,
            Attribute::Master => Attribute::W12p2,
        };
        *self = new;
    }

    /// Every value an attribute can take, from the worst die to the best.
    pub fn possible_values() -> (r: Vec<Attribute>)
        ensures
            r@ == seq![
                Attribute::W4,
                Attribute::W6,
                Attribute::W8,
                Attribute::W10,
                Attribute::W12,
                Attribute::W12p1,
                Attribute::W12p2,
                Attribute::Master,
            ],
    {
        vec![
            Attribute::W4,
            Attribute::W6,
            Attribute::W8,
            Attribute::W10,
            Attribute::W12,
            Attribute::W12p1,
            Attribute::W12p2,
            Attribute::Master,
        ]
    }

    /// The label of the value.
    pub fn as_str(self) -> (r: &'static str)
        ensures
            r@ == match self {
                Attribute::W4 => "W4"@,
                Attribute::W6 => "W6"@,
                Attribute::W8 => "W8"@,
                Attribute::W10 => "W10"@,
                Attribute::W12 => "W12"@,
                Attribute::W12p1 => "W12+1"@,
                Attribute::W12p2 => "W12+2"@,
                Attribute::Master => "Meister"@,
            },
    {
        match self {
            Attribute::W4 => "W4",
            Attribute::W6 => "W6",
            Attribute::W8 => "W8",
            Attribute::W10 => "W10",
            Attribute::W12 => "W12",
            Attribute::W12p1 => "W12+1",
            Attribute::W12p2 => "W12+2",
            Attribute::Master => "Meister",
        }
    }
}

/// The attributes of one character.
#[derive(Debug, Clone, Copy, PartialEq, Eq, Hash, Structural)]
pub struct Attributes {
    pub ges: Attribute,
    pub kon: Attribute,
    pub sta: Attribute,
    pub ver: Attribute,
    pub wil: Attribute,
}

impl Attributes {
    /// The attributes of a beginner: every die a W4.
    pub open spec fn beginner() -> Attributes {
        Attributes {
            ges: Attribute::W4,
            kon: Attribute::W4,
            sta: Attribute::W4,
            ver: Attribute::W4,
            wil: Attribute::W4,
        }
    }
}

impl Default for Attributes {
    fn default() -> (r: Self)
        ensures
            r == Attributes::beginner(),
    {
        Attributes {
            ges: Attribute::W4,
            kon: Attribute::W4,
            sta: Attribute::W4,
            ver: Attribute::W4,
            wil: Attribute::W4,
        }
    }
}

/// Which attribute an edit or a label is about.
#[derive(Debug, Clone, Copy, PartialEq, Eq, Structural)]
pub enum AttrName {
    Ges,
    Sta,
    Kon,
    Int,
    Wil,
}

impl AttrName {
    /// The attribute of `attributes` that this name stands for.
    pub open spec fn spec_get(self, attributes: Attributes) -> Attribute {
        match self {
            AttrName::Ges => attributes.ges,
            AttrName::Sta => attributes.sta,
            AttrName::Kon => attributes.kon,
            AttrName::Int => attributes.ver,
            AttrName::Wil => attributes.wil,
        }
    }

    /// `attributes` with the named attribute replaced by `value`.
    pub open spec fn spec_put(self, attributes: Attributes, value: Attribute) -> Attributes {
        match self {
            AttrName::Ges => Attributes { ges: value, ..attributes },
            AttrName::Sta => Attributes { sta: value, ..attributes },
            AttrName::Kon => Attributes { kon: value, ..attributes },
            AttrName::Int => Attributes { ver: value, ..attributes },
            AttrName::Wil => Attributes { wil: value, ..attributes },
        }
    }

    pub fn get(self, attributes: &Attributes) -> (r: Attribute)
        ensures
            r == self.spec_get(*attributes),
    {
        match self {
            AttrName::Ges => attributes.ges,
            AttrName::Sta => attributes.sta,
            AttrName::Kon => attributes.kon,
            AttrName::Int => attributes.ver,
            AttrName::Wil => attributes.wil,
        }
    }

    pub fn put(self, attributes: &mut Attributes, value: Attribute)
        ensures
            *final(attributes) == self.spec_put(*old(attributes), value),
    {
        match self {
            AttrName::Ges => attributes.ges = value,
            AttrName::Sta => attributes.sta = value,
            AttrName::Kon => attributes.kon = value,
            AttrName::Int => attributes.ver = value,
            AttrName::Wil => attributes.wil = value,
        }
    }
}

/// An attribute as one number.
impl From<Attribute> for u8 {
    fn from(value: Attribute) -> (r: u8) {
        value.sides()
    }
}

impl FromSpecImpl<Attribute> for u8 {
    open spec fn obeys_from_spec() -> bool {
        true
    }

    open spec fn from_spec(value: Attribute) -> u8 {
        value.spec_sides()
    }
}

} // verus!
