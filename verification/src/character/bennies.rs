//! Bennies: how many a character starts with and what they are spent on.

use vstd::prelude::*;
use crate::stats::BoolStat;
use crate::stats::IntStat;

verus! {

#[derive(Debug, Clone, Copy, PartialEq, Eq, Hash)]
pub struct Bennies {
    pub count: IntStat<0, 10>,
    pub use_for_unshake: BoolStat,
    pub use_for_special_attacks: BoolStat,
    pub use_against_step_back: BoolStat,
    pub use_for_attack: BoolStat,
    pub use_for_damage: BoolStat,
}

impl Default for Bennies {
    fn default() -> (r: Self)
        ensures
            r.count.value() == 0,
            !r.use_for_unshake.0,
            !r.use_for_special_attacks.0,
            !r.use_against_step_back.0,
            !r.use_for_attack.0,
            !r.use_for_damage.0,
    {
        Bennies {
            count: IntStat::default(),
            use_for_unshake: BoolStat(false),
            use_for_special_attacks: BoolStat(false),
            use_against_step_back: BoolStat(false),
            use_for_attack: BoolStat(false),
            use_for_damage: BoolStat(false),
        }
    }
}

impl Bennies {
    /// Whether two benny settings are the same.
    pub fn same(&self, other: &Bennies) -> (r: bool)
        ensures
            r == (*self == *other),
    {
        self.count.same(other.count) && self.use_for_unshake == other.use_for_unshake
            && self.use_for_special_attacks == other.use_for_special_attacks
            && self.use_against_step_back == other.use_against_step_back && self.use_for_attack
            == other.use_for_attack && self.use_for_damage == other.use_for_damage
    }
}

/// The label and edits of the benny count.
#[derive(Debug, Clone, Copy, PartialEq, Eq, Structural)]
pub struct NumBennies;

/// Which use of bennies an edit or a label is about.
#[derive(Debug, Clone, Copy, PartialEq, Eq, Structural)]
pub enum UsageInfo {
    Unshake,
    SpecialAttacks,
    AgainstStepBack,
    Attack,
    Damage,
}

impl UsageInfo {
    pub open spec fn spec_get(self, bennies: Bennies) -> BoolStat {
        match self {
            UsageInfo::Unshake => bennies.use_for_unshake,
            UsageInfo::SpecialAttacks => bennies.use_for_special_attacks,
            UsageInfo::AgainstStepBack => bennies.use_against_step_back,
            UsageInfo::Attack => bennies.use_for_attack,
            UsageInfo::Damage => bennies.use_for_damage,
        }
    }

    pub open spec fn spec_put(self, bennies: Bennies, value: BoolStat) -> Bennies {
        match self {
            UsageInfo::Unshake => Bennies { use_for_unshake: value, ..bennies },
            UsageInfo::SpecialAttacks => Bennies { use_for_special_attacks: value, ..bennies },
            UsageInfo::AgainstStepBack => Bennies { use_against_step_back: value, ..bennies },
            UsageInfo::Attack => Bennies { use_for_attack: value, ..bennies },
            UsageInfo::Damage => Bennies { use_for_damage: value, ..bennies },
        }
    }

    pub fn get(self, bennies: &Bennies) -> (r: BoolStat)
        ensures
            r == self.spec_get(*bennies),
    {
        match self {
            UsageInfo::Unshake => bennies.use_for_unshake,
            UsageInfo::SpecialAttacks => bennies.use_for_special_attacks,
            UsageInfo::AgainstStepBack => bennies.use_against_step_back,
            UsageInfo::Attack => bennies.use_for_attack,
            UsageInfo::Damage => bennies.use_for_damage,
        }
    }

    pub fn put(self, bennies: &mut Bennies, value: BoolStat)
        ensures
            *final(bennies) == self.spec_put(*old(bennies), value),
    {
        match self {
            UsageInfo::Unshake => bennies.use_for_unshake = value,
            UsageInfo::SpecialAttacks => bennies.use_for_special_attacks = value,
            UsageInfo::AgainstStepBack => bennies.use_against_step_back = value,
            UsageInfo::Attack => bennies.use_for_attack = value,
            UsageInfo::Damage => bennies.use_for_damage = value,
        }
    }
}

} // verus!
