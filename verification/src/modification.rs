//! Edits of a character sheet as values: which number or switch, and what
//! to do with it. A simulator can apply an edit to a copy of a sheet to
//! find out what the edit would be worth.

use vstd::prelude::*;
use crate::character::armor::ArmorInfo;
use crate::character::attributes::AttrName;
use crate::character::bennies::NumBennies;
use crate::character::bennies::UsageInfo;
use crate::character::edges::Edge2Info;
use crate::character::edges::Edge3Info;
use crate::character::passive_stats::PassiveModifier;
use crate::character::passive_stats::StrategyInfo;
use crate::character::skills::SkillName;
use crate::character::weapon::DamageName;
use crate::character::weapon::ModifierName;
use crate::character::Armor;
use crate::character::Attribute;
use crate::character::Bennies;
use crate::character::Damage;
use crate::character::Edge3;
use crate::character::PassiveModifiers;
use crate::character::Sheet;
use crate::character::Skill;
use crate::character::Skills;
use crate::character::Weapon;
use crate::group::CharIndex;
use crate::selection::CharSelection;
use crate::selection::GroupId;
use crate::stats::BoolStat;
use crate::stats::IntStat;

verus! {

/// What an edit does to a value: one step down, one step up, or a new
/// value.
#[derive(Debug, Clone, Copy)]
pub enum Step<V> {
    Decrement,
    Increment,
    To(V),
}

/// An edit of one value of a sheet.
#[derive(Debug, Clone, Copy)]
pub enum CharEdit {
    Attribute(AttrName, Step<Attribute>),
    Skill(SkillName, Step<Skill>),
    Armor(ArmorInfo, Step<i8>),
    NumBennies(Step<i8>),
    BennieUsage(UsageInfo, Step<BoolStat>),
    Edge2(Edge2Info, Step<BoolStat>),
    Edge3(Edge3Info, Step<Edge3>),
    Passive(PassiveModifier, Step<i8>),
    Strategy(StrategyInfo, Step<BoolStat>),
    Damage(DamageName, Step<Damage>),
    WeaponStat(DamageName, ModifierName, Step<i8>),
    WeaponActive(DamageName, Step<bool>),
}

/// An edit of one character: its group, its place there, and the edit.
#[derive(Debug, Clone, Copy)]
pub struct CharModification {
    pub group_id: GroupId,
    pub index: CharIndex,
    pub modification: CharEdit,
}

pub open spec fn stepped_attribute(step: Step<Attribute>, value: Attribute) -> Attribute {
    match step {
        Step::Decrement => value.prev(),
        Step::Increment => value.next(),
        Step::To(v) => v,
    }
}

pub open spec fn stepped_skill(step: Step<Skill>, value: Skill) -> Skill {
    match step {
        Step::Decrement => value.prev(),
        Step::Increment => value.next(),
        Step::To(v) => v,
    }
}

pub open spec fn stepped_edge3(step: Step<Edge3>, value: Edge3) -> Edge3 {
    match step {
        Step::Decrement => value.prev(),
        Step::Increment => value.next(),
        Step::To(v) => v,
    }
}

pub open spec fn stepped_damage(step: Step<Damage>, value: Damage) -> Damage {
    match step {
        Step::Decrement => value.prev(),
        Step::Increment => value.next(),
        Step::To(v) => v,
    }
}

/// A switch goes off by a step down and on by a step up.
pub open spec fn stepped_switch(step: Step<BoolStat>, value: BoolStat) -> BoolStat {
    match step {
        Step::Decrement => BoolStat(false),
        Step::Increment => BoolStat(true),
        Step::To(v) => v,
    }
}

pub open spec fn stepped_flag(step: Step<bool>, value: bool) -> bool {
    match step {
        Step::Decrement => false,
        Step::Increment => true,
        Step::To(v) => v,
    }
}

/// A bounded number moves by one, or takes the new value, within its
/// range.
pub open spec fn stepped_int<const BELOW: u8, const ABOVE: u8>(
    step: Step<i8>,
    value: IntStat<BELOW, ABOVE>,
) -> IntStat<BELOW, ABOVE> {
    match step {
        Step::Decrement => IntStat::<BELOW, ABOVE>::with_value(value.value() - 1),
        Step::Increment => IntStat::<BELOW, ABOVE>::with_value(value.value() + 1),
        Step::To(v) => IntStat::<BELOW, ABOVE>::with_value(v as int),
    }
}

fn step_attribute(step: Step<Attribute>, value: &mut Attribute)
    ensures
        *final(value) == stepped_attribute(step, *old(value)),
{
    match step {
        Step::Decrement => value.decrement(),
        Step::Increment => value.increment(),
        Step::To(v) => *value = v,
    }
}

fn step_skill(step: Step<Skill>, value: &mut Skill)
    ensures
        *final(value) == stepped_skill(step, *old(value)),
{
    match step {
        Step::Decrement => value.decrement(),
        Step::Increment => value.increment(),
        Step::To(v) => *value = v,
    }
}

fn step_edge3(step: Step<Edge3>, value: &mut Edge3)
    ensures
        *final(value) == stepped_edge3(step, *old(value)),
{
    match step {
        Step::Decrement => value.decrement(),
        Step::Increment => value.increment(),
        Step::To(v) => *value = v,
    }
}

fn step_damage(step: Step<Damage>, value: &mut Damage)
    ensures
        *final(value) == stepped_damage(step, *old(value)),
{
    match step {
        Step::Decrement => value.decrement(),
        Step::Increment => value.increment(),
        Step::To(v) => *value = v,
    }
}

fn step_switch(step: Step<BoolStat>, value: &mut BoolStat)
    ensures
        *final(value) == stepped_switch(step, *old(value)),
{
    match step {
        Step::Decrement => value.decrement(),
        Step::Increment => value.increment(),
        Step::To(v) => value.set(v),
    }
}

fn step_flag(step: Step<bool>, value: &mut bool)
    ensures
        *final(value) == stepped_flag(step, *old(value)),
{
    match step {
        Step::Decrement => *value = false,
        Step::Increment => *value = true,
        Step::To(v) => *value = v,
    }
}

fn step_int<const BELOW: u8, const ABOVE: u8>(step: Step<i8>, value: IntStat<BELOW, ABOVE>) -> (r:
    IntStat<BELOW, ABOVE>)
    ensures
        r == stepped_int(step, value),
{
    let mut stat = value;
    match step {
        Step::Decrement => stat.decrement(),
        Step::Increment => stat.increment(),
        Step::To(v) => stat.set(v),
    }
    stat
}

impl CharEdit {
    pub open spec fn armor_after(info: ArmorInfo, step: Step<i8>, armor: Armor) -> Armor {
        match info {
            ArmorInfo::Torso => Armor { torso: stepped_int(step, armor.torso), ..armor },
            ArmorInfo::Head => Armor { head: stepped_int(step, armor.head), ..armor },
        }
    }

    pub open spec fn passive_after(
        info: PassiveModifier,
        step: Step<i8>,
        modifiers: PassiveModifiers,
    ) -> PassiveModifiers {
        match info {
            PassiveModifier::Life => PassiveModifiers {
                life: stepped_int(step, modifiers.life),
                ..modifiers
            },
            PassiveModifier::Parry => PassiveModifiers {
                parry: stepped_int(step, modifiers.parry),
                ..modifiers
            },
            PassiveModifier::Robustness => PassiveModifiers {
                robustness: stepped_int(step, modifiers.robustness),
                ..modifiers
            },
            PassiveModifier::Attack => PassiveModifiers {
                attack: stepped_int(step, modifiers.attack),
                ..modifiers
            },
        }
    }

    pub open spec fn weapon_after<const SECONDARY: bool>(
        name: ModifierName,
        step: Step<i8>,
        weapon: Weapon<SECONDARY>,
    ) -> Weapon<SECONDARY> {
        match name {
            ModifierName::BonusDamage => Weapon {
                bonus_damage: stepped_int(step, weapon.bonus_damage),
                ..weapon
            },
            ModifierName::Piercing => Weapon {
                piercing: stepped_int(step, weapon.piercing),
                ..weapon
            },
            ModifierName::Reach => Weapon { reach: stepped_int(step, weapon.reach), ..weapon },
        }
    }

    /// The sheet after the edit. Only the value that the edit names
    /// changes.
    pub open spec fn applied(self, sheet: Sheet) -> Sheet {
        match self {
            CharEdit::Attribute(name, step) => Sheet {
                attributes: name.spec_put(
                    sheet.attributes,
                    stepped_attribute(step, name.spec_get(sheet.attributes)),
                ),
                ..sheet
            },
            CharEdit::Skill(name, step) => Sheet {
                skills: Skills { kampfen: stepped_skill(step, sheet.skills.kampfen) },
                ..sheet
            },
            CharEdit::Armor(info, step) => Sheet {
                armor: Self::armor_after(info, step, sheet.armor),
                ..sheet
            },
            CharEdit::NumBennies(step) => Sheet {
                bennies: Bennies { count: stepped_int(step, sheet.bennies.count), ..sheet.bennies },
                ..sheet
            },
            CharEdit::BennieUsage(info, step) => Sheet {
                bennies: info.spec_put(
                    sheet.bennies,
                    stepped_switch(step, info.spec_get(sheet.bennies)),
                ),
                ..sheet
            },
            CharEdit::Edge2(info, step) => Sheet {
                edges: info.spec_put(sheet.edges, stepped_switch(step, info.spec_get(sheet.edges))),
                ..sheet
            },
            CharEdit::Edge3(info, step) => Sheet {
                edges: info.spec_put(sheet.edges, stepped_edge3(step, info.spec_get(sheet.edges))),
                ..sheet
            },
            CharEdit::Passive(info, step) => Sheet {
                passive_modifiers: Self::passive_after(info, step, sheet.passive_modifiers),
                ..sheet
            },
            CharEdit::Strategy(info, step) => Sheet {
                passive_modifiers: info.spec_put(
                    sheet.passive_modifiers,
                    stepped_switch(step, info.spec_get(sheet.passive_modifiers)),
                ),
                ..sheet
            },
            CharEdit::Damage(DamageName::Primary, step) => Sheet {
                weapon: Weapon { damage: stepped_damage(step, sheet.weapon.damage), ..sheet.weapon },
                ..sheet
            },
            CharEdit::Damage(DamageName::Secondary, step) => Sheet {
                secondary_weapon: Weapon {
                    damage: stepped_damage(step, sheet.secondary_weapon.damage),
                    ..sheet.secondary_weapon
                },
                ..sheet
            },
            CharEdit::WeaponStat(DamageName::Primary, name, step) => Sheet {
                weapon: Self::weapon_after(name, step, sheet.weapon),
                ..sheet
            },
            CharEdit::WeaponStat(DamageName::Secondary, name, step) => Sheet {
                secondary_weapon: Self::weapon_after(name, step, sheet.secondary_weapon),
                ..sheet
            },
            CharEdit::WeaponActive(DamageName::Primary, step) => Sheet {
                weapon: Weapon { active: stepped_flag(step, sheet.weapon.active), ..sheet.weapon },
                ..sheet
            },
            CharEdit::WeaponActive(DamageName::Secondary, step) => Sheet {
                secondary_weapon: Weapon {
                    active: stepped_flag(step, sheet.secondary_weapon.active),
                    ..sheet.secondary_weapon
                },
                ..sheet
            },
        }
    }

    fn apply_to_armor(info: ArmorInfo, step: Step<i8>, armor: &mut Armor)
        ensures
            *final(armor) == Self::armor_after(info, step, *old(armor)),
    {
        match info {
            ArmorInfo::Torso => armor.torso = step_int(step, armor.torso),
            ArmorInfo::Head => armor.head = step_int(step, armor.head),
        }
    }

    fn apply_to_passive(info: PassiveModifier, step: Step<i8>, modifiers: &mut PassiveModifiers)
        ensures
            *final(modifiers) == Self::passive_after(info, step, *old(modifiers)),
    {
        match info {
            PassiveModifier::Life => modifiers.life = step_int(step, modifiers.life),
            PassiveModifier::Parry => modifiers.parry = step_int(step, modifiers.parry),
            PassiveModifier::Robustness => modifiers.robustness = step_int(
                step,
                modifiers.robustness,
            ),
            PassiveModifier::Attack => modifiers.attack = step_int(step, modifiers.attack),
        }
    }

    fn apply_to_weapon<const SECONDARY: bool>(
        name: ModifierName,
        step: Step<i8>,
        weapon: &mut Weapon<SECONDARY>,
    )
        ensures
            *final(weapon) == Self::weapon_after(name, step, *old(weapon)),
    {
        match name {
            ModifierName::BonusDamage => weapon.bonus_damage = step_int(step, weapon.bonus_damage),
            ModifierName::Piercing => weapon.piercing = step_int(step, weapon.piercing),
            ModifierName::Reach => weapon.reach = step_int(step, weapon.reach),
        }
    }

    /// Makes the edit on `sheet`.
    pub fn apply(&self, sheet: &mut Sheet)
        ensures
            *final(sheet) == self.applied(*old(sheet)),
    {
        match *self {
            CharEdit::Attribute(name, step) => {
                let mut value = name.get(&sheet.attributes);
                step_attribute(step, &mut value);
                name.put(&mut sheet.attributes, value);
            },
            CharEdit::Skill(_, step) => {
                step_skill(step, &mut sheet.skills.kampfen);
            },
            CharEdit::Armor(info, step) => {
                Self::apply_to_armor(info, step, &mut sheet.armor);
            },
            CharEdit::NumBennies(step) => {
                sheet.bennies.count = step_int(step, sheet.bennies.count);
            },
            CharEdit::BennieUsage(info, step) => {
                let mut value = info.get(&sheet.bennies);
                step_switch(step, &mut value);
                info.put(&mut sheet.bennies, value);
            },
            CharEdit::Edge2(info, step) => {
                let mut value = info.get(&sheet.edges);
                step_switch(step, &mut value);
                info.put(&mut sheet.edges, value);
            },
            CharEdit::Edge3(info, step) => {
                let mut value = info.get(&sheet.edges);
                step_edge3(step, &mut value);
                info.put(&mut sheet.edges, value);
            },
            CharEdit::Passive(info, step) => {
                Self::apply_to_passive(info, step, &mut sheet.passive_modifiers);
            },
            CharEdit::Strategy(info, step) => {
                let mut value = info.get(&sheet.passive_modifiers);
                step_switch(step, &mut value);
                info.put(&mut sheet.passive_modifiers, value);
            },
            CharEdit::Damage(DamageName::Primary, step) => {
                step_damage(step, &mut sheet.weapon.damage);
            },
            CharEdit::Damage(DamageName::Secondary, step) => {
                step_damage(step, &mut sheet.secondary_weapon.damage);
            },
            CharEdit::WeaponStat(DamageName::Primary, name, step) => {
                Self::apply_to_weapon(name, step, &mut sheet.weapon);
            },
            CharEdit::WeaponStat(DamageName::Secondary, name, step) => {
                Self::apply_to_weapon(name, step, &mut sheet.secondary_weapon);
            },
            CharEdit::WeaponActive(DamageName::Primary, step) => {
                step_flag(step, &mut sheet.weapon.active);
            },
            CharEdit::WeaponActive(DamageName::Secondary, step) => {
                step_flag(step, &mut sheet.secondary_weapon.active);
            },
        }
    }
}

impl CharModification {
    pub open spec fn spec_new(selection: CharSelection, modification: CharEdit)
        -> CharModification {
        CharModification {
            group_id: selection.spec_group_id(),
            index: selection.spec_char_index(),
            modification,
        }
    }

    /// The edit `modification` of the character that `selection` points at.
    #[verifier::when_used_as_spec(spec_new)]
    pub fn new(selection: CharSelection, modification: CharEdit) -> (r: Self)
        ensures
            r == Self::spec_new(selection, modification),
    {
        let (group_id, index) = match selection {
            CharSelection::Left(char_index) => (GroupId::Left, char_index),
            CharSelection::Right(char_index) => (GroupId::Right, char_index),
        };
        CharModification { group_id, index, modification }
    }
}

/// What an editor needs to know of a value of a sheet: its label, and the
/// edits that step it down, step it up and set it.
pub trait DrawInfo<Value> {
    /// The label under which the value is listed.
    spec fn label(&self) -> Seq<char>;

    /// The edit of the value with the step `step`.
    spec fn edit(&self, step: Step<Value>) -> CharEdit;

    fn as_str(&self) -> (r: &'static str)
        ensures
            r@ == self.label(),
    ;

    fn mod_dec(&self, selection: CharSelection) -> (r: CharModification)
        ensures
            r == CharModification::spec_new(selection, self.edit(Step::Decrement)),
    ;

    fn mod_inc(&self, selection: CharSelection) -> (r: CharModification)
        ensures
            r == CharModification::spec_new(selection, self.edit(Step::Increment)),
    ;

    fn mod_set(&self, selection: CharSelection, value: Value) -> (r: CharModification)
        ensures
            r == CharModification::spec_new(selection, self.edit(Step::To(value))),
    ;
}

impl DrawInfo<Attribute> for AttrName {
    open spec fn label(&self) -> Seq<char> {
        match self {
            AttrName::Ges => "Ges"@,
            AttrName::Sta => "Stä"@,
            AttrName::Kon => "Kon"@,
            AttrName::Int => "Ver"@,
            AttrName::Wil => "Wil"@,
        }
    }

    open spec fn edit(&self, step: Step<Attribute>) -> CharEdit {
        CharEdit::Attribute(*self, step)
    }

    fn as_str(&self) -> (r: &'static str) {
        match self {
            AttrName::Ges => "Ges",
            AttrName::Sta => "Stä",
            AttrName::Kon => "Kon",
            AttrName::Int => "Ver",
            AttrName::Wil => "Wil",
        }
    }

    fn mod_dec(&self, selection: CharSelection) -> (r: CharModification) {
        CharModification::new(selection, CharEdit::Attribute(*self, Step::Decrement))
    }

    fn mod_inc(&self, selection: CharSelection) -> (r: CharModification) {
        CharModification::new(selection, CharEdit::Attribute(*self, Step::Increment))
    }

    fn mod_set(&self, selection: CharSelection, value: Attribute) -> (r: CharModification) {
        CharModification::new(selection, CharEdit::Attribute(*self, Step::To(value)))
    }
}

impl DrawInfo<Skill> for SkillName {
    open spec fn label(&self) -> Seq<char> {
        "Kämpfen"@
    }

    open spec fn edit(&self, step: Step<Skill>) -> CharEdit {
        CharEdit::Skill(*self, step)
    }

    fn as_str(&self) -> (r: &'static str) {
        match self {
            SkillName::Kampfen => "Kämpfen",
        }
    }

    fn mod_dec(&self, selection: CharSelection) -> (r: CharModification) {
        CharModification::new(selection, CharEdit::Skill(*self, Step::Decrement))
    }

    fn mod_inc(&self, selection: CharSelection) -> (r: CharModification) {
        CharModification::new(selection, CharEdit::Skill(*self, Step::Increment))
    }

    fn mod_set(&self, selection: CharSelection, value: Skill) -> (r: CharModification) {
        CharModification::new(selection, CharEdit::Skill(*self, Step::To(value)))
    }
}

impl DrawInfo<i8> for ArmorInfo {
    open spec fn label(&self) -> Seq<char> {
        match self {
            ArmorInfo::Torso => "Torso"@,
            ArmorInfo::Head => "Kopf"@,
        }
    }

    open spec fn edit(&self, step: Step<i8>) -> CharEdit {
        CharEdit::Armor(*self, step)
    }

    fn as_str(&self) -> (r: &'static str) {
        match self {
            ArmorInfo::Torso => "Torso",
            ArmorInfo::Head => "Kopf",
        }
    }

    fn mod_dec(&self, selection: CharSelection) -> (r: CharModification) {
        CharModification::new(selection, CharEdit::Armor(*self, Step::Decrement))
    }

    fn mod_inc(&self, selection: CharSelection) -> (r: CharModification) {
        CharModification::new(selection, CharEdit::Armor(*self, Step::Increment))
    }

    fn mod_set(&self, selection: CharSelection, value: i8) -> (r: CharModification) {
        CharModification::new(selection, CharEdit::Armor(*self, Step::To(value)))
    }
}

impl DrawInfo<i8> for NumBennies {
    open spec fn label(&self) -> Seq<char> {
        "Anzahl Bennies"@
    }

    open spec fn edit(&self, step: Step<i8>) -> CharEdit {
        CharEdit::NumBennies(step)
    }

    fn as_str(&self) -> (r: &'static str) {
        "Anzahl Bennies"
    }

    fn mod_dec(&self, selection: CharSelection) -> (r: CharModification) {
        CharModification::new(selection, CharEdit::NumBennies(Step::Decrement))
    }

    fn mod_inc(&self, selection: CharSelection) -> (r: CharModification) {
        CharModification::new(selection, CharEdit::NumBennies(Step::Increment))
    }

    fn mod_set(&self, selection: CharSelection, value: i8) -> (r: CharModification) {
        CharModification::new(selection, CharEdit::NumBennies(Step::To(value)))
    }
}

impl DrawInfo<BoolStat> for UsageInfo {
    open spec fn label(&self) -> Seq<char> {
        match self {
            UsageInfo::Unshake => "Nutzen für Entschütteln"@,
            UsageInfo::SpecialAttacks => "Nutzen für Entschütteln vor Sonderangriffen"@,
            UsageInfo::AgainstStepBack => "Nutzen für Entschütteln gegen Zurückweichen"@,
            UsageInfo::Attack => "Nutzen für Angriffe"@,
            UsageInfo::Damage => "Nutzen für Schaden"@,
        }
    }

    open spec fn edit(&self, step: Step<BoolStat>) -> CharEdit {
        CharEdit::BennieUsage(*self, step)
    }

    fn as_str(&self) -> (r: &'static str) {
        match self {
            UsageInfo::Unshake => "Nutzen für Entschütteln",
            UsageInfo::SpecialAttacks => "Nutzen für Entschütteln vor Sonderangriffen",
            UsageInfo::AgainstStepBack => "Nutzen für Entschütteln gegen Zurückweichen",
            UsageInfo::Attack => "Nutzen für Angriffe",
            UsageInfo::Damage => "Nutzen für Schaden",
        }
    }

    fn mod_dec(&self, selection: CharSelection) -> (r: CharModification) {
        CharModification::new(selection, CharEdit::BennieUsage(*self, Step::Decrement))
    }

    fn mod_inc(&self, selection: CharSelection) -> (r: CharModification) {
        CharModification::new(selection, CharEdit::BennieUsage(*self, Step::Increment))
    }

    fn mod_set(&self, selection: CharSelection, value: BoolStat) -> (r: CharModification) {
        CharModification::new(selection, CharEdit::BennieUsage(*self, Step::To(value)))
    }
}

impl DrawInfo<BoolStat> for Edge2Info {
    open spec fn label(&self) -> Seq<char> {
        match self {
            Edge2Info::Ubertolpeln => "Übertölpeln"@,
            Edge2Info::Erbarmungslos => "Erbarmungslos"@,
            Edge2Info::MachtigerHieb => "Mächtiger Hieb"@,
            Edge2Info::BeidhandigerKampf => "Beidhändiger Kampf"@,
            Edge2Info::Beidhandig => "Beidhändig (Hintergrund)"@,
            Edge2Info::FechtenMit2Waffen => "Fechten mit zwei Waffen"@,
            Edge2Info::Kampfreflexe => "Kampfreflexe"@,
            Edge2Info::Schnell => "Schnell (Hintergrund)"@,
            Edge2Info::Erstschlag => "Erstschlag"@,
            Edge2Info::Kampfkunstler => "Kampfkünstler"@,
            Edge2Info::Rundumschlag => "Rundumschlag"@,
        }
    }

    open spec fn edit(&self, step: Step<BoolStat>) -> CharEdit {
        CharEdit::Edge2(*self, step)
    }

    fn as_str(&self) -> (r: &'static str) {
        match self {
            Edge2Info::Ubertolpeln => "Übertölpeln",
            Edge2Info::Erbarmungslos => "Erbarmungslos",
            Edge2Info::MachtigerHieb => "Mächtiger Hieb",
            Edge2Info::BeidhandigerKampf => "Beidhändiger Kampf",
            Edge2Info::Beidhandig => "Beidhändig (Hintergrund)",
            Edge2Info::FechtenMit2Waffen => "Fechten mit zwei Waffen",
            Edge2Info::Kampfreflexe => "Kampfreflexe",
            Edge2Info::Schnell => "Schnell (Hintergrund)",
            Edge2Info::Erstschlag => "Erstschlag",
            Edge2Info::Kampfkunstler => "Kampfkünstler",
            Edge2Info::Rundumschlag => "Rundumschlag",
        }
    }

    fn mod_dec(&self, selection: CharSelection) -> (r: CharModification) {
        CharModification::new(selection, CharEdit::Edge2(*self, Step::Decrement))
    }

    fn mod_inc(&self, selection: CharSelection) -> (r: CharModification) {
        CharModification::new(selection, CharEdit::Edge2(*self, Step::Increment))
    }

    fn mod_set(&self, selection: CharSelection, value: BoolStat) -> (r: CharModification) {
        CharModification::new(selection, CharEdit::Edge2(*self, Step::To(value)))
    }
}

impl DrawInfo<Edge3> for Edge3Info {
    open spec fn label(&self) -> Seq<char> {
        match self {
            Edge3Info::Blitzhieb => "Blitzhieb"@,
            Edge3Info::Berserker => "Berserker (Hintergrund)"@,
            Edge3Info::Riposte => "Riposte"@,
            Edge3Info::Tuchfuhlung => "Tuchfühlung"@,
            Edge3Info::Lebenskraft => "Lebenskraft"@,
            Edge3Info::KuhlerKopf => "Kühler Kopf"@,
        }
    }

    open spec fn edit(&self, step: Step<Edge3>) -> CharEdit {
        CharEdit::Edge3(*self, step)
    }

    fn as_str(&self) -> (r: &'static str) {
        match self {
            Edge3Info::Blitzhieb => "Blitzhieb",
            Edge3Info::Berserker => "Berserker (Hintergrund)",
            Edge3Info::Riposte => "Riposte",
            Edge3Info::Tuchfuhlung => "Tuchfühlung",
            Edge3Info::Lebenskraft => "Lebenskraft",
            Edge3Info::KuhlerKopf => "Kühler Kopf",
        }
    }

    fn mod_dec(&self, selection: CharSelection) -> (r: CharModification) {
        CharModification::new(selection, CharEdit::Edge3(*self, Step::Decrement))
    }

    fn mod_inc(&self, selection: CharSelection) -> (r: CharModification) {
        CharModification::new(selection, CharEdit::Edge3(*self, Step::Increment))
    }

    fn mod_set(&self, selection: CharSelection, value: Edge3) -> (r: CharModification) {
        CharModification::new(selection, CharEdit::Edge3(*self, Step::To(value)))
    }
}

impl DrawInfo<i8> for PassiveModifier {
    open spec fn label(&self) -> Seq<char> {
        match self {
            PassiveModifier::Life => "LeP"@,
            PassiveModifier::Parry => "PA"@,
            PassiveModifier::Robustness => "ROB"@,
            PassiveModifier::Attack => "AT"@,
        }
    }

    open spec fn edit(&self, step: Step<i8>) -> CharEdit {
        CharEdit::Passive(*self, step)
    }

    fn as_str(&self) -> (r: &'static str) {
        match self {
            PassiveModifier::Life => "LeP",
            PassiveModifier::Parry => "PA",
            PassiveModifier::Robustness => "ROB",
            PassiveModifier::Attack => "AT",
        }
    }

    fn mod_dec(&self, selection: CharSelection) -> (r: CharModification) {
        CharModification::new(selection, CharEdit::Passive(*self, Step::Decrement))
    }

    fn mod_inc(&self, selection: CharSelection) -> (r: CharModification) {
        CharModification::new(selection, CharEdit::Passive(*self, Step::Increment))
    }

    fn mod_set(&self, selection: CharSelection, value: i8) -> (r: CharModification) {
        CharModification::new(selection, CharEdit::Passive(*self, Step::To(value)))
    }
}

impl DrawInfo<BoolStat> for StrategyInfo {
    open spec fn label(&self) -> Seq<char> {
        match self {
            StrategyInfo::AttackWild => "Wild angreifen"@,
            StrategyInfo::AttackHead => "Auf Kopf zielen"@,
            StrategyInfo::NoWoundPenalty => "Keine Wundabzüge"@,
        }
    }

    open spec fn edit(&self, step: Step<BoolStat>) -> CharEdit {
        CharEdit::Strategy(*self, step)
    }

    fn as_str(&self) -> (r: &'static str) {
        match self {
            StrategyInfo::AttackWild => "Wild angreifen",
            StrategyInfo::AttackHead => "Auf Kopf zielen",
            StrategyInfo::NoWoundPenalty => "Keine Wundabzüge",
        }
    }

    fn mod_dec(&self, selection: CharSelection) -> (r: CharModification) {
        CharModification::new(selection, CharEdit::Strategy(*self, Step::Decrement))
    }

    fn mod_inc(&self, selection: CharSelection) -> (r: CharModification) {
        CharModification::new(selection, CharEdit::Strategy(*self, Step::Increment))
    }

    fn mod_set(&self, selection: CharSelection, value: BoolStat) -> (r: CharModification) {
        CharModification::new(selection, CharEdit::Strategy(*self, Step::To(value)))
    }
}

impl DrawInfo<Damage> for DamageName {
    open spec fn label(&self) -> Seq<char> {
        "Schaden"@
    }

    open spec fn edit(&self, step: Step<Damage>) -> CharEdit {
        CharEdit::Damage(*self, step)
    }

    fn as_str(&self) -> (r: &'static str) {
        "Schaden"
    }

    fn mod_dec(&self, selection: CharSelection) -> (r: CharModification) {
        CharModification::new(selection, CharEdit::Damage(*self, Step::Decrement))
    }

    fn mod_inc(&self, selection: CharSelection) -> (r: CharModification) {
        CharModification::new(selection, CharEdit::Damage(*self, Step::Increment))
    }

    fn mod_set(&self, selection: CharSelection, value: Damage) -> (r: CharModification) {
        CharModification::new(selection, CharEdit::Damage(*self, Step::To(value)))
    }
}

/// One number of one of the two weapons.
#[derive(Debug, Clone, Copy, PartialEq, Eq, Structural)]
pub struct WeaponModifier {
    pub weapon: DamageName,
    pub name: ModifierName,
}

impl DrawInfo<i8> for WeaponModifier {
    open spec fn label(&self) -> Seq<char> {
        match self.name {
            ModifierName::BonusDamage => "Bonusschaden"@,
            ModifierName::Piercing => "Panzerbrechend"@,
            ModifierName::Reach => "Reichweite"@,
        }
    }

    open spec fn edit(&self, step: Step<i8>) -> CharEdit {
        CharEdit::WeaponStat(self.weapon, self.name, step)
    }

    fn as_str(&self) -> (r: &'static str) {
        match self.name {
            ModifierName::BonusDamage => "Bonusschaden",
            ModifierName::Piercing => "Panzerbrechend",
            ModifierName::Reach => "Reichweite",
        }
    }

    fn mod_dec(&self, selection: CharSelection) -> (r: CharModification) {
        CharModification::new(
            selection,
            CharEdit::WeaponStat(self.weapon, self.name, Step::Decrement),
        )
    }

    fn mod_inc(&self, selection: CharSelection) -> (r: CharModification) {
        CharModification::new(
            selection,
            CharEdit::WeaponStat(self.weapon, self.name, Step::Increment),
        )
    }

    fn mod_set(&self, selection: CharSelection, value: i8) -> (r: CharModification) {
        CharModification::new(
            selection,
            CharEdit::WeaponStat(self.weapon, self.name, Step::To(value)),
        )
    }
}

} // verus!
