use fightsim::character::armor::ArmorInfo;
use fightsim::character::attributes::AttrName;
use fightsim::character::bennies::NumBennies;
use fightsim::character::bennies::UsageInfo;
use fightsim::character::edges::Edge2Info;
use fightsim::character::edges::Edge3Info;
use fightsim::character::passive_stats::PassiveModifier;
use fightsim::character::passive_stats::StrategyInfo;
use fightsim::character::skills::SkillName;
use fightsim::character::weapon::DamageName;
use fightsim::character::weapon::ModifierName;
use fightsim::character::Attribute;
use fightsim::character::Character;
use fightsim::character::Damage;
use fightsim::character::Edge3;
use fightsim::character::Edges;
use fightsim::character::Name;
use fightsim::character::PassiveStats;
use fightsim::character::Sheet;
use fightsim::character::Skill;
use fightsim::character::Weapon;
use fightsim::group::CharIndex;
use fightsim::modification::CharEdit;
use fightsim::modification::CharModification;
use fightsim::modification::DrawInfo;
use fightsim::modification::Step;
use fightsim::modification::WeaponModifier;
use fightsim::selection::CharSelection;
use fightsim::selection::GroupId;
use fightsim::simulator::GroupData;
use fightsim::stats::BoolStat;
use fightsim::stats::IntStat;

#[test]
fn int_stat_stays_in_its_range() {
    let mut stat: IntStat<2, 3> = IntStat::default();
    assert_eq!(stat.get(), 0);
    assert_eq!(IntStat::<2, 3>::min(), -2);
    assert_eq!(IntStat::<2, 3>::max(), 3);
    stat.set(100);
    assert_eq!(stat.get(), 3);
    stat.increment();
    assert_eq!(stat.get(), 3);
    stat.set(-100);
    assert_eq!(stat.get(), -2);
    stat.decrement();
    assert_eq!(stat.get(), -2);
    stat.increment();
    assert_eq!(stat.get(), -1);
    assert_eq!(IntStat::<2, 3>::new(1).get(), 1);
    assert!(IntStat::<2, 3>::new(5).same(IntStat::new(3)));
    assert!(!IntStat::<2, 3>::new(2).same(IntStat::new(3)));
    assert_eq!(IntStat::<200, 200>::min(), -128);
    assert_eq!(IntStat::<200, 200>::max(), 127);
}

#[test]
fn bool_stat_switches() {
    let mut stat = BoolStat::default();
    assert!(!stat.is_set());
    assert_eq!(stat.as_str(), "Nein");
    stat.increment();
    assert!(stat.is_set());
    assert_eq!(stat.as_str(), "Ja");
    assert!(!stat.toggled().is_set());
    stat.decrement();
    assert!(!stat.is_set());
    stat.set(BoolStat(true));
    assert!(stat.is_set());
}

#[test]
fn attribute_steps_and_dice() {
    let mut attribute = Attribute::default();
    assert_eq!(attribute, Attribute::W4);
    attribute.decrement();
    assert_eq!(attribute, Attribute::W4);
    let mut seen = vec![attribute];
    for _ in 0..8 {
        attribute.increment();
        seen.push(attribute);
    }
    assert_eq!(&seen[..8], &Attribute::possible_values()[..]);
    assert_eq!(attribute, Attribute::Master);
    attribute.decrement();
    assert_eq!(attribute, Attribute::W12p2);

    assert_eq!(Attribute::W4.sides(), 4);
    assert_eq!(Attribute::W12p1.sides(), 13);
    assert_eq!(Attribute::Master.sides(), 14);
    assert_eq!(Attribute::W12p1.die(), (12, 1));
    assert_eq!(Attribute::Master.die(), (12, 2));
    assert_eq!(Attribute::W12p2.wild_die_sides(), 6);
    assert_eq!(Attribute::Master.wild_die_sides(), 10);
    assert_eq!(Attribute::W12p2.as_str(), "W12+2");
    assert_eq!(Attribute::Master.as_str(), "Meister");
}

#[test]
fn skill_steps_and_dice() {
    let mut skill = Skill::default();
    assert_eq!(skill, Skill::W4m2);
    skill.decrement();
    assert_eq!(skill, Skill::W4m2);
    skill.increment();
    assert_eq!(skill, Skill::W4);
    assert_eq!(Skill::possible_values().len(), 9);
    assert_eq!(Skill::W4m2.die(), (4, -2));
    assert_eq!(Skill::W4m2.sides(), 2);
    assert_eq!(Skill::Master.die(), (12, 2));
    assert_eq!(Skill::Master.wild_die_sides(), 10);
    assert_eq!(Skill::W8.wild_die_sides(), 6);
    assert_eq!(Skill::W4m2.as_str(), "W4-2");
    let mut top = Skill::Master;
    top.increment();
    assert_eq!(top, Skill::Master);
    top.decrement();
    assert_eq!(top, Skill::W12p2);
}

#[test]
fn edge_and_damage_steps() {
    let mut edge = Edge3::default();
    assert_eq!(edge, Edge3::Off);
    edge.decrement();
    assert_eq!(edge, Edge3::Off);
    edge.increment();
    assert_eq!(edge, Edge3::Normal);
    edge.increment();
    edge.increment();
    assert_eq!(edge, Edge3::Improved);
    assert_eq!(Edge3::possible_values(), vec![Edge3::Off, Edge3::Normal, Edge3::Improved]);
    assert_eq!(Edge3::Off.as_str(Edge3Info::Riposte), "Nein");
    assert_eq!(Edge3::Improved.as_str(Edge3Info::Riposte), "Verb. Riposte");
    assert_eq!(Edge3::Normal.as_str(Edge3Info::KuhlerKopf), "Kühler Kopf");
    assert_eq!(Edges::edge3_iter().len(), 6);
    assert_eq!(Edges::edge2_iter().len(), 11);

    let mut damage = Damage::default();
    assert_eq!(damage, Damage::Unarmed);
    assert_eq!(damage.sides(), 0);
    assert_eq!(damage.as_str(), "---");
    damage.decrement();
    assert_eq!(damage, Damage::Unarmed);
    damage.increment();
    assert_eq!(damage, Damage::W4);
    let mut biggest = Damage::W12;
    biggest.increment();
    assert_eq!(biggest, Damage::W12);
    assert_eq!(biggest.sides(), 12);
    assert_eq!(Damage::possible_values().len(), 6);
}

#[test]
fn weapons_know_their_place() {
    let main: Weapon<false> = Weapon::default();
    let second: Weapon<true> = Weapon::default();
    assert!(main.active);
    assert!(!second.active);
    assert!(main.unarmed());
    assert_eq!(main.heading(false), "Hauptwaffe");
    assert_eq!(main.heading(true), "Gegner Hauptwaffe");
    assert_eq!(second.heading(false), "Zweitwaffe");
    assert_eq!(second.heading(true), "Gegner Zweitwaffe");
    assert_eq!(main.damage_name(), DamageName::Primary);
    assert_eq!(second.damage_name(), DamageName::Secondary);
    let mut armed = main;
    armed.damage = Damage::W6;
    assert!(!armed.unarmed());
    assert!(!armed.same(&main));
    assert!(armed.same(&armed));
}

#[test]
fn name_is_kept_apart_from_the_sheet() {
    let mut character = Character::default();
    assert_eq!(character.name.as_str(), "Hans Dampf");
    let sheet = character.sheet();
    character.name.clear();
    assert_eq!(character.name.as_str(), "");
    assert!(character.sheet().same(&sheet));
    let renamed = Character::from_sheet(Name::new("Grete"), sheet);
    assert_eq!(renamed.name.as_str(), "Grete");
    assert!(renamed.sheet().same(&Sheet::default()));
}

#[test]
fn passive_stats_of_a_beginner() {
    let character = Character::default();
    let stats = PassiveStats::new(&character);
    assert_eq!(stats.life, 32);
    assert_eq!(stats.parry, 3);
    assert_eq!(stats.robustness, 4);
}

#[test]
fn passive_stats_follow_the_sheet() {
    let mut sheet = Sheet::default();
    sheet.attributes.kon = Attribute::W12p2;
    sheet.attributes.wil = Attribute::W8;
    sheet.edges.lebenskraft = Edge3::Improved;
    sheet.passive_modifiers.life.set(-20);
    sheet.skills.kampfen = Skill::W10;
    sheet.passive_modifiers.parry.set(4);
    sheet.passive_modifiers.robustness.set(-4);
    assert_eq!(PassiveStats::calc_life(&sheet), 24 + 14 + 8 + 10 - 20);
    assert_eq!(PassiveStats::calc_parry(&sheet), 2 + 5 + 4);
    assert_eq!(PassiveStats::calc_robustness(&sheet), 2 + 7 - 4);

    // the ambidextrous parry better with both weapons in use
    sheet.edges.beidhandig.increment();
    sheet.secondary_weapon.active = true;
    assert_eq!(PassiveStats::calc_parry(&sheet), 12);
    sheet.weapon.active = false;
    assert_eq!(PassiveStats::calc_parry(&sheet), 11);

    // a parry never goes below 0
    let mut clumsy = Sheet::default();
    clumsy.passive_modifiers.parry.set(-4);
    assert_eq!(PassiveStats::calc_parry(&clumsy), 0);
    let stats = PassiveStats::of(&clumsy);
    assert_eq!((stats.life, stats.parry, stats.robustness), (32, 0, 4));
}

#[test]
fn edits_change_the_value_they_name() {
    let mut sheet = Sheet::default();
    CharEdit::Attribute(AttrName::Sta, Step::Increment).apply(&mut sheet);
    assert_eq!(sheet.attributes.sta, Attribute::W6);
    CharEdit::Attribute(AttrName::Int, Step::To(Attribute::W10)).apply(&mut sheet);
    assert_eq!(sheet.attributes.ver, Attribute::W10);
    CharEdit::Attribute(AttrName::Sta, Step::Decrement).apply(&mut sheet);
    assert_eq!(sheet.attributes.sta, Attribute::W4);
    CharEdit::Skill(SkillName::Kampfen, Step::To(Skill::W8)).apply(&mut sheet);
    assert_eq!(sheet.skills.kampfen, Skill::W8);
    CharEdit::Armor(ArmorInfo::Head, Step::To(9)).apply(&mut sheet);
    assert_eq!(sheet.armor.head.get(), 5);
    assert_eq!(sheet.armor.torso.get(), 0);
    CharEdit::Armor(ArmorInfo::Torso, Step::Increment).apply(&mut sheet);
    assert_eq!(sheet.armor.torso.get(), 1);
    CharEdit::NumBennies(Step::To(3)).apply(&mut sheet);
    CharEdit::NumBennies(Step::Decrement).apply(&mut sheet);
    assert_eq!(sheet.bennies.count.get(), 2);
    CharEdit::BennieUsage(UsageInfo::Attack, Step::Increment).apply(&mut sheet);
    assert!(sheet.bennies.use_for_attack.is_set());
    assert!(!sheet.bennies.use_for_damage.is_set());
    CharEdit::Edge2(Edge2Info::Schnell, Step::To(BoolStat(true))).apply(&mut sheet);
    assert!(sheet.edges.schnell.is_set());
    CharEdit::Edge2(Edge2Info::Schnell, Step::Decrement).apply(&mut sheet);
    assert!(!sheet.edges.schnell.is_set());
    CharEdit::Edge3(Edge3Info::Berserker, Step::Increment).apply(&mut sheet);
    assert_eq!(sheet.edges.berserker, Edge3::Normal);
    CharEdit::Passive(PassiveModifier::Life, Step::To(-30)).apply(&mut sheet);
    assert_eq!(sheet.passive_modifiers.life.get(), -20);
    CharEdit::Passive(PassiveModifier::Attack, Step::Increment).apply(&mut sheet);
    assert_eq!(sheet.passive_modifiers.attack.get(), 1);
    CharEdit::Strategy(StrategyInfo::AttackHead, Step::Increment).apply(&mut sheet);
    assert!(sheet.passive_modifiers.attack_head.is_set());
    CharEdit::Damage(DamageName::Secondary, Step::Increment).apply(&mut sheet);
    assert_eq!(sheet.secondary_weapon.damage, Damage::W4);
    assert_eq!(sheet.weapon.damage, Damage::Unarmed);
    CharEdit::WeaponStat(DamageName::Primary, ModifierName::Reach, Step::To(7)).apply(&mut sheet);
    assert_eq!(sheet.weapon.reach.get(), 2);
    CharEdit::WeaponStat(DamageName::Secondary, ModifierName::BonusDamage, Step::Decrement)
        .apply(&mut sheet);
    assert_eq!(sheet.secondary_weapon.bonus_damage.get(), -1);
    CharEdit::WeaponActive(DamageName::Secondary, Step::Increment).apply(&mut sheet);
    assert!(sheet.secondary_weapon.active);
    CharEdit::WeaponActive(DamageName::Primary, Step::To(false)).apply(&mut sheet);
    assert!(!sheet.weapon.active);
}

#[test]
fn infos_make_the_edits_of_their_value() {
    let selection = CharSelection::Right(CharIndex(1));
    let modification = AttrName::Kon.mod_inc(selection);
    assert_eq!(modification.group_id, GroupId::Right);
    assert_eq!(modification.index, CharIndex(1));
    let mut sheet = Sheet::default();
    modification.modification.apply(&mut sheet);
    assert_eq!(sheet.attributes.kon, Attribute::W6);
    AttrName::Kon.mod_dec(selection).modification.apply(&mut sheet);
    assert_eq!(sheet.attributes.kon, Attribute::W4);
    AttrName::Ges.mod_set(selection, Attribute::W12).modification.apply(&mut sheet);
    assert_eq!(sheet.attributes.ges, Attribute::W12);
    NumBennies.mod_set(selection, 4).modification.apply(&mut sheet);
    assert_eq!(sheet.bennies.count.get(), 4);
    WeaponModifier { weapon: DamageName::Primary, name: ModifierName::Piercing }
        .mod_inc(selection)
        .modification
        .apply(&mut sheet);
    assert_eq!(sheet.weapon.piercing.get(), 1);
    DamageName::Primary.mod_set(selection, Damage::W8).modification.apply(&mut sheet);
    assert_eq!(sheet.weapon.damage, Damage::W8);

    assert_eq!(AttrName::Sta.as_str(), "Stä");
    assert_eq!(AttrName::Int.as_str(), "Ver");
    assert_eq!(SkillName::Kampfen.as_str(), "Kämpfen");
    assert_eq!(ArmorInfo::Head.as_str(), "Kopf");
    assert_eq!(NumBennies.as_str(), "Anzahl Bennies");
    assert_eq!(UsageInfo::Damage.as_str(), "Nutzen für Schaden");
    assert_eq!(Edge2Info::MachtigerHieb.as_str(), "Mächtiger Hieb");
    assert_eq!(Edge3Info::Berserker.as_str(), "Berserker (Hintergrund)");
    assert_eq!(PassiveModifier::Robustness.as_str(), "ROB");
    assert_eq!(StrategyInfo::AttackWild.as_str(), "Wild angreifen");
    assert_eq!(DamageName::Secondary.as_str(), "Schaden");
    assert_eq!(
        WeaponModifier { weapon: DamageName::Secondary, name: ModifierName::Reach }.as_str(),
        "Reichweite"
    );
}

#[test]
fn modifications_reach_one_character() {
    let group = vec![Character::default(), Character::default()];
    let mut data = GroupData::new(&group, &group);
    let modification = CharModification::new(
        CharSelection::new(GroupId::Left, CharIndex(1)),
        CharEdit::Skill(SkillName::Kampfen, Step::To(Skill::W12)),
    );
    assert!(data.can_apply(&modification));
    let before = data.duplicate();
    assert!(data.same(&before));
    data.apply_mod(modification);
    assert!(!data.same(&before));
    assert_eq!(data.group_left[1].skills.kampfen, Skill::W12);
    assert_eq!(data.group_left[0].skills.kampfen, Skill::W4m2);
    assert_eq!(data.group_right[1].skills.kampfen, Skill::W4m2);

    let out_of_reach = CharModification::new(
        CharSelection::Right(CharIndex(2)),
        CharEdit::NumBennies(Step::Increment),
    );
    assert!(!data.can_apply(&out_of_reach));
}
