//! The character sheet: what a combatant is made of before a fight starts.

pub mod armor;
pub mod attributes;
pub mod bennies;
pub mod edges;
pub mod name;
pub mod passive_stats;
pub mod skills;
pub mod weapon;

use vstd::prelude::*;

pub use armor::Armor;
pub use attributes::Attribute;
pub use attributes::Attributes;
pub use bennies::Bennies;
pub use edges::Edge3;
pub use edges::Edges;
pub use name::Name;
pub use passive_stats::PassiveModifiers;
pub use passive_stats::PassiveStats;
pub use skills::Skill;
pub use skills::Skills;
pub use weapon::Damage;
pub use weapon::Weapon;

verus! {

/// Everything about a character that matters in a fight. Two characters
/// with the same sheet fight alike, whatever they are called.
#[derive(Debug, Clone, Copy, PartialEq, Eq, Hash)]
pub struct Sheet {
    pub passive_modifiers: PassiveModifiers,
    pub attributes: Attributes,
    pub skills: Skills,
    pub armor: Armor,
    pub weapon: Weapon<false>,
    pub secondary_weapon: Weapon<true>,
    pub edges: Edges,
    pub bennies: Bennies,
}

impl Sheet {
    /// Whether two sheets hold the same values.
    pub fn same(&self, other: &Sheet) -> (r: bool)
        ensures
            r == (*self == *other),
    {
        self.passive_modifiers.same(&other.passive_modifiers) && self.attributes
            == other.attributes && self.skills == other.skills && self.armor.same(&other.armor)
            && self.weapon.same(&other.weapon) && self.secondary_weapon.same(
            &other.secondary_weapon,
        ) && self.edges == other.edges && self.bennies.same(&other.bennies)
    }
}

impl Sheet {
    /// Whether this is the sheet of a beginner: every attribute a W4, the
    /// fighting skill a W4-2, no edge, no armor, no benny and none to be
    /// spent, no adjustment by hand, and two bare hands of which the main
    /// one is in use.
    pub open spec fn is_beginner(self) -> bool {
        &&& self.attributes == Attributes::beginner()
        &&& self.skills == Skills::beginner()
        &&& self.edges == Edges::bare()
        &&& self.passive_modifiers.life.value() == 0
        &&& self.passive_modifiers.parry.value() == 0
        &&& self.passive_modifiers.robustness.value() == 0
        &&& self.passive_modifiers.attack.value() == 0
        &&& !self.passive_modifiers.attack_wild.0
        &&& !self.passive_modifiers.attack_head.0
        &&& !self.passive_modifiers.no_wound_penalty.0
        &&& self.armor.torso.value() == 0
        &&& self.armor.head.value() == 0
        &&& self.weapon.active
        &&& self.weapon.damage == Damage::Unarmed
        &&& self.weapon.bonus_damage.value() == 0
        &&& self.weapon.piercing.value() == 0
        &&& self.weapon.reach.value() == 0
        &&& !self.weapon.more_crit.0
        &&& !self.secondary_weapon.active
        &&& self.secondary_weapon.damage == Damage::Unarmed
        &&& self.secondary_weapon.bonus_damage.value() == 0
        &&& self.secondary_weapon.piercing.value() == 0
        &&& self.secondary_weapon.reach.value() == 0
        &&& !self.secondary_weapon.more_crit.0
        &&& self.bennies.count.value() == 0
        &&& !self.bennies.use_for_unshake.0
        &&& !self.bennies.use_for_special_attacks.0
        &&& !self.bennies.use_against_step_back.0
        &&& !self.bennies.use_for_attack.0
        &&& !self.bennies.use_for_damage.0
    }
}

impl Default for Sheet {
    /// The sheet of a beginner.
    fn default() -> (r: Self)
        ensures
            r.is_beginner(),
    {
        Sheet {
            passive_modifiers: PassiveModifiers::default(),
            attributes: Attributes::default(),
            skills: Skills::default(),
            armor: Armor::default(),
            weapon: Weapon::default(),
            secondary_weapon: Weapon::default(),
            edges: Edges::default(),
            bennies: Bennies::default(),
        }
    }
}

/// A character as a player edits it: a name and the values of the sheet.
#[derive(Debug, Clone, PartialEq, Eq, Hash)]
pub struct Character {
    pub name: Name,
    pub passive_modifiers: PassiveModifiers,
    pub attributes: Attributes,
    pub skills: Skills,
    pub armor: Armor,
    pub weapon: Weapon<false>,
    pub secondary_weapon: Weapon<true>,
    pub edges: Edges,
    pub bennies: Bennies,
}

impl Character {
    /// The character without its name.
    pub open spec fn spec_sheet(&self) -> Sheet {
        Sheet {
            passive_modifiers: self.passive_modifiers,
            attributes: self.attributes,
            skills: self.skills,
            armor: self.armor,
            weapon: self.weapon,
            secondary_weapon: self.secondary_weapon,
            edges: self.edges,
            bennies: self.bennies,
        }
    }

    #[verifier::when_used_as_spec(spec_sheet)]
    pub fn sheet(&self) -> (r: Sheet)
        ensures
            r == self.spec_sheet(),
    {
        Sheet {
            passive_modifiers: self.passive_modifiers,
            attributes: self.attributes,
            skills: self.skills,
            armor: self.armor,
            weapon: self.weapon,
            secondary_weapon: self.secondary_weapon,
            edges: self.edges,
            bennies: self.bennies,
        }
    }

    /// A character called `name` with the values of `sheet`.
    pub fn from_sheet(name: Name, sheet: Sheet) -> (r: Self)
        ensures
            r.name == name,
            r.spec_sheet() == sheet,
    {
        Character {
            name,
            passive_modifiers: sheet.passive_modifiers,
            attributes: sheet.attributes,
            skills: sheet.skills,
            armor: sheet.armor,
            weapon: sheet.weapon,
            secondary_weapon: sheet.secondary_weapon,
            edges: sheet.edges,
            bennies: sheet.bennies,
        }
    }
}

impl Default for Character {
    /// A beginner called Hans Dampf.
    fn default() -> (r: Self)
        ensures
            r.name@ == "Hans Dampf"@,
            r.spec_sheet().is_beginner(),
    {
        Character::from_sheet(Name::default(), Sheet::default())
    }
}

} // verus!
