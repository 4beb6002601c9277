//! The two kinds of adjustable value a character sheet is made of: a bounded
//! signed number and a yes/no switch.

use vstd::prelude::*;
use vstd::std_specs::convert::FromSpecImpl;

verus! {

/// A signed value that never leaves the range `-BELOW ..= ABOVE`.
#[derive(Debug, Clone, Copy, PartialEq, Eq, Hash)]
pub struct IntStat<const BELOW: u8, const ABOVE: u8>(i8);

impl<const BELOW: u8, const ABOVE: u8> IntStat<BELOW, ABOVE> {
    /// The lowest value the stat can take.
    pub open spec fn spec_min() -> int {
        if BELOW > 128 {
            -128
        } else {
            -(BELOW as int)
        }
    }

    /// The highest value the stat can take.
    pub open spec fn spec_max() -> int {
        if ABOVE > 127 {
            127
        } else {
            ABOVE as int
        }
    }

    /// `value` moved to the nearest end of the range where it lies outside.
    pub open spec fn clamped(value: int) -> int {
        if value < Self::spec_min() {
            Self::spec_min()
        } else if value > Self::spec_max() {
            Self::spec_max()
        } else {
            value
        }
    }

    #[verifier::type_invariant]
    spec fn in_range(self) -> bool {
        Self::spec_min() <= self.0 <= Self::spec_max()
    }

    /// The value held.
    pub closed spec fn value(self) -> int {
        self.0 as int
    }

    /// The stat that holds `value`, or the end of the range nearest to it.
    pub closed spec fn with_value(value: int) -> Self {
        IntStat(Self::clamped(value) as i8)
    }

    pub fn min() -> (r: i8)
        ensures
            r as int == Self::spec_min(),
    {
        if BELOW > 128 {
            -128
        } else {
            (0 - BELOW as i16) as i8
        }
    }

    pub fn max() -> (r: i8)
        ensures
            r as int == Self::spec_max(),
    {
        if ABOVE > 127 {
            127
        } else {
            ABOVE as i8
        }
    }

    /// A stat holding `value`, or the end of the range nearest to it.
    pub fn new(value: i8) -> (r: Self)
        ensures
            r == Self::with_value(value as int),
            r.value() == Self::clamped(value as int),
    {
        let lo = Self::min();
        let hi = Self::max();
        if value < lo {
            IntStat(lo)
        } else if value > hi {
            IntStat(hi)
        } else {
            IntStat(value)
        }
    }

    /// What the stat holds, within its range.
    pub fn get(self) -> (r: i8)
        ensures
            r as int == self.value(),
            Self::spec_min() <= r <= Self::spec_max(),
    {
        proof {
            use_type_invariant(&self);
        }
        self.0
    }

    pub fn set(&mut self, value: i8)
        ensures
            *final(self) == Self::with_value(value as int),
            final(self).value() == Self::clamped(value as int),
    {
        *self = Self::new(value);
    }

    /// Whether two stats hold the same value.
    pub fn same(self, other: Self) -> (r: bool)
        ensures
            r == (self == other),
    {
        self.0 == other.0
    }

    /// One less, unless the stat is at the bottom of its range.
    pub fn decrement(&mut self)
        ensures
            *final(self) == Self::with_value(old(self).value() - 1),
            final(self).value() == Self::clamped(old(self).value() - 1),
    {
        proof {
            use_type_invariant(&*self);
        }
        if self.0 > Self::min() {
            self.0 = self.0 - 1;
        }
    }

    /// One more, unless the stat is at the top of its range.
    pub fn increment(&mut self)
        ensures
            *final(self) == Self::with_value(old(self).value() + 1),
            final(self).value() == Self::clamped(old(self).value() + 1),
    {
        proof {
            use_type_invariant(&*self);
        }
        if self.0 < Self::max() {
            self.0 = self.0 + 1;
        }
    }
}

impl<const BELOW: u8, const ABOVE: u8> Default for IntStat<BELOW, ABOVE> {
    fn default() -> (r: Self)
        ensures
            r.value() == 0,
    {
        IntStat(0)
    }
}

/// A switch that is either set or not.
#[derive(Debug, Clone, Copy, PartialEq, Eq, Hash, Structural)]
pub struct BoolStat(pub bool);

impl BoolStat {
    pub fn decrement(&mut self)
        ensures
            !final(self).0,
    {
        self.0 = false;
    }

    pub fn increment(&mut self)
        ensures
            final(self).0,
    {
        self.0 = true;
    }

    pub fn set(&mut self, value: Self)
        ensures
            *final(self) == value,
    {
        self.0 = value.0;
    }

    #[verifier::when_used_as_spec(spec_is_set)]
    pub fn is_set(self) -> (r: bool)
        ensures
            r == self.0,
    {
        self.0
    }

    pub open spec fn spec_is_set(self) -> bool {
        self.0
    }

    /// The switch in the other position.
    pub fn toggled(self) -> (r: Self)
        ensures
            r.0 == !self.0,
    {
        BoolStat(!self.0)
    }

    pub fn as_str(self) -> (r: &'static str)
        ensures
            r@ == (if self.0 { "Ja"@ } else { "Nein"@ }),
    {
        if self.0 {
            "Ja"
        } else {
            "Nein"
        }
    }
}

impl Default for BoolStat {
    fn default() -> (r: Self)
        ensures
            !r.0,
    {
        BoolStat(false)
    }
}

/// What a stat holds.
impl<const BELOW: u8, const ABOVE: u8> From<IntStat<BELOW, ABOVE>> for i8 {
    fn from(value: IntStat<BELOW, ABOVE>) -> (r: i8) {
        value.0
    }
}

impl<const BELOW: u8, const ABOVE: u8> FromSpecImpl<IntStat<BELOW, ABOVE>> for i8 {
    open spec fn obeys_from_spec() -> bool {
        true
    }

    open spec fn from_spec(value: IntStat<BELOW, ABOVE>) -> i8 {
        value.value() as i8
    }
}

} // verus!
