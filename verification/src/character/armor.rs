//! Armor values by body part.

use vstd::prelude::*;
use crate::stats::IntStat;

verus! {

#[derive(Debug, Clone, Copy, PartialEq, Eq, Hash)]
pub struct Armor {
    pub torso: IntStat<0, 5>,
    pub head: IntStat<0, 5>,
}

impl Default for Armor {
    fn default() -> (r: Self)
        ensures
            r.torso.value() == 0,
            r.head.value() == 0,
    {
        Armor { torso: IntStat::default(), head: IntStat::default() }
    }
}

impl Armor {
    /// Whether two sets of armor hold the same values.
    pub fn same(&self, other: &Armor) -> (r: bool)
        ensures
            r == (*self == *other),
    {
        self.torso.same(other.torso) && self.head.same(other.head)
    }
}

/// Which piece of armor an edit or a label is about.
#[derive(Debug, Clone, Copy, PartialEq, Eq, Structural)]
pub enum ArmorInfo {
    Torso,
    Head,
}

} // verus!
