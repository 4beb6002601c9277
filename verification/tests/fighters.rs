use fightsim::character::Attribute;
use fightsim::character::Damage;
use fightsim::character::Edge3;
use fightsim::character::Sheet;
use fightsim::simulator::cards::Card;
use fightsim::simulator::cards::CardDeck;
use fightsim::simulator::distance::DistanceMap;
use fightsim::simulator::fight_report::FightStats;
use fightsim::simulator::fighter::all_miss;
use fightsim::simulator::fighter::count_hits;
use fightsim::simulator::fighter::no_results;
use fightsim::simulator::fighter::AttackResult;
use fightsim::simulator::fighter::Battlefield;
use fightsim::simulator::fighter::CriticalFailResult;
use fightsim::simulator::fighter::Fighter;
use fightsim::simulator::fighter::Group;
use fightsim::simulator::fighter::NoOpponentLeft;
use fightsim::simulator::roller::Roll;
use fightsim::simulator::roller::RollError;
use fightsim::simulator::roller::Roller;
use fightsim::stats::BoolStat;

fn field(seed: u64) -> Battlefield {
    Battlefield {
        distance_map: DistanceMap::new(),
        stats: FightStats::new(),
        roller: Roller::from_seed(seed),
    }
}

fn pair(field: &mut Battlefield, left: Sheet, right: Sheet) -> (Fighter, Fighter) {
    let a = Fighter::new(left, Group::Left, &mut field.distance_map, true);
    let b = Fighter::new(right, Group::Right, &mut field.distance_map, false);
    (a, b)
}

#[test]
fn a_fighter_begins_fresh() {
    let mut map = DistanceMap::new();
    let mut sheet = Sheet::default();
    sheet.bennies.count.set(3);
    sheet.edges.berserker = Edge3::Improved;
    let first = Fighter::new(sheet, Group::Left, &mut map, true);
    let second = Fighter::new(Sheet::default(), Group::Right, &mut map, false);
    assert_eq!(first.group(), Group::Left);
    assert_eq!(first.distance_id, 0);
    assert_eq!(second.distance_id, 1);
    assert_eq!(first.bennies, 3);
    assert!(first.berserker);
    assert!(!second.berserker);
    assert!(first.counted && !second.counted);
    assert_eq!(first.passive_stats.life, 32);
    assert!(first.drawn_card.is_none());
    assert!(!first.shaken && !first.fell && !first.joker && !first.weapon_lost);
    assert!(!first.is_dead());
}

#[test]
fn death_comes_at_five_and_for_berserkers_at_zero() {
    let mut field = field(1);
    let (mut fighter, _) = pair(&mut field, Sheet::default(), Sheet::default());
    fighter.passive_stats.life = 6;
    assert!(!fighter.is_dead());
    fighter.passive_stats.life = 5;
    assert!(fighter.is_dead());
    fighter.berserker = true;
    assert!(!fighter.is_dead());
    fighter.passive_stats.life = 1;
    assert!(!fighter.is_dead());
    fighter.passive_stats.life = 0;
    assert!(fighter.is_dead());
}

#[test]
fn wounds_weigh_on_rolls() {
    let mut field = field(1);
    let (mut fighter, _) = pair(&mut field, Sheet::default(), Sheet::default());
    let penalty = |fighter: &Fighter| {
        let mut roll = Roll(10);
        fighter.apply_wound_penalty(&mut roll);
        10 - roll.as_i8()
    };
    assert_eq!(penalty(&fighter), 0);
    fighter.passive_stats.life = 21;
    assert_eq!(penalty(&fighter), 0);
    fighter.passive_stats.life = 20;
    assert_eq!(penalty(&fighter), 1);
    fighter.passive_stats.life = 11;
    assert_eq!(penalty(&fighter), 1);
    fighter.passive_stats.life = 10;
    assert_eq!(penalty(&fighter), 3);
    fighter.berserker = true;
    assert_eq!(penalty(&fighter), 0);
    fighter.berserker = false;
    fighter.character.passive_modifiers.no_wound_penalty = BoolStat(true);
    assert_eq!(penalty(&fighter), 0);
}

#[test]
fn small_modifiers() {
    let mut field = field(1);
    let mut armored = Sheet::default();
    armored.armor.torso.set(2);
    armored.armor.head.set(1);
    armored.weapon.reach.set(2);
    let (mut fighter, opponent) = pair(&mut field, Sheet::default(), armored);

    let mut roll = Roll(5);
    fighter.apply_joker(&mut roll);
    fighter.apply_berserker_attack(&mut roll);
    fighter.apply_berserker_damage(&mut roll);
    fighter.apply_kampfreflexe(&mut roll);
    fighter.apply_joker_to_damage(&mut roll);
    fighter.apply_piercing(&opponent, &mut roll);
    fighter.apply_tuchfuhlung_to_attack(&opponent, &mut roll);
    assert_eq!(roll, Roll(5));

    fighter.joker = true;
    fighter.berserker = true;
    fighter.character.edges.kampfreflexe.increment();
    fighter.character.weapon.piercing.set(3);
    fighter.character.edges.tuchfuhlung = Edge3::Improved;
    fighter.apply_joker(&mut roll);
    assert_eq!(roll, Roll(7));
    fighter.apply_berserker_attack(&mut roll);
    fighter.apply_berserker_damage(&mut roll);
    assert_eq!(roll, Roll(11));
    fighter.apply_kampfreflexe(&mut roll);
    assert_eq!(roll, Roll(13));
    // piercing goes through no more armor than there is
    fighter.apply_piercing(&opponent, &mut roll);
    assert_eq!(roll, Roll(15));
    fighter.apply_tuchfuhlung_to_attack(&opponent, &mut roll);
    assert_eq!(roll, Roll(18));
    fighter.apply_joker_to_damage(&mut roll);
    assert_eq!(roll, Roll(20));
    fighter.character.edges.machtiger_hieb.increment();
    fighter.apply_joker_to_damage(&mut roll);
    assert_eq!(roll, Roll(44));
    fighter.apply_opponents_armor(&opponent, &mut roll);
    assert_eq!(roll, Roll(42));
    fighter.character.passive_modifiers.attack_head.increment();
    fighter.apply_opponents_armor(&opponent, &mut roll);
    assert_eq!(roll, Roll(41));
    fighter.apply_opponent_berserker_rob(&opponent, &mut roll);
    assert_eq!(roll, Roll(41));
    opponent.apply_opponent_berserker_rob(&fighter, &mut roll);
    assert_eq!(roll, Roll(39));

    let mut parry = 3_u8;
    opponent.apply_tuchfuhlung_to_parry(&fighter, &mut parry);
    assert_eq!(parry, 3);
    fighter.apply_tuchfuhlung_to_parry(&opponent, &mut parry);
    assert_eq!(parry, 6);
    let mut high = 254_u8;
    fighter.apply_tuchfuhlung_to_parry(&opponent, &mut high);
    assert_eq!(high, 255);
    assert!(opponent.weapon_has_reach());
    assert!(!Fighter::new(Sheet::default(), Group::Left, &mut field.distance_map, false)
        .weapon_has_reach());
}

#[test]
fn attacks_are_held_against_the_parry() {
    let mut field = field(1);
    let (attacker, mut defender) = pair(&mut field, Sheet::default(), Sheet::default());
    let hit = |attacker: &Fighter, defender: &Fighter, map: &DistanceMap, roll: i8| {
        attacker.try_to_hit_without_bennie(defender, map, Roll(roll), 0)
    };
    // a beginner parries at 3
    assert_eq!(hit(&attacker, &defender, &field.distance_map, 2), AttackResult::Miss);
    assert_eq!(hit(&attacker, &defender, &field.distance_map, 3), AttackResult::Hit);
    assert_eq!(hit(&attacker, &defender, &field.distance_map, 6), AttackResult::Hit);
    assert_eq!(hit(&attacker, &defender, &field.distance_map, 7), AttackResult::Raise);
    assert_eq!(
        attacker.try_to_hit_without_bennie(&defender, &field.distance_map, Roll(5), -3),
        AttackResult::Miss
    );
    // on the ground the parry is 2 less
    defender.fell = true;
    assert_eq!(hit(&attacker, &defender, &field.distance_map, 1), AttackResult::Hit);
    defender.berserker = true;
    defender.attacked_wild = true;
    assert_eq!(hit(&attacker, &defender, &field.distance_map, 0), AttackResult::Hit);
    assert_eq!(hit(&attacker, &defender, &field.distance_map, -1), AttackResult::Miss);
    defender.fell = false;
    defender.berserker = false;
    defender.attacked_wild = false;

    // a blow at the head is 4 harder
    let mut aiming = attacker;
    aiming.character.passive_modifiers.attack_head.increment();
    assert_eq!(hit(&aiming, &defender, &field.distance_map, 6), AttackResult::Miss);
    assert_eq!(hit(&aiming, &defender, &field.distance_map, 7), AttackResult::Hit);

    // bare hands against a weapon count as unarmed
    let mut armed = attacker;
    armed.character.weapon.damage = Damage::W6;
    assert!(defender.unarmed(&armed));
    assert!(!armed.unarmed(&defender));
    assert_eq!(hit(&armed, &defender, &field.distance_map, 1), AttackResult::Hit);
    defender.character.edges.kampfkunstler.increment();
    assert!(!defender.unarmed(&armed));
    assert_eq!(hit(&armed, &defender, &field.distance_map, 2), AttackResult::Miss);
    let mut disarmed = armed;
    disarmed.weapon_lost = true;
    assert!(disarmed.unarmed(&defender));
}

#[test]
fn ganging_up_helps() {
    let mut field = field(1);
    let target = Fighter::new(Sheet::default(), Group::Right, &mut field.distance_map, false);
    let mut attackers = Vec::new();
    for _ in 0..7 {
        attackers.push(Fighter::new(Sheet::default(), Group::Left, &mut field.distance_map, true));
    }
    let bonus = |map: &DistanceMap, target: &Fighter| {
        let mut roll = Roll(0);
        Fighter::apply_gangup(target, map, &mut roll);
        roll.as_i8()
    };
    assert_eq!(bonus(&field.distance_map, &target), 0);
    let mut expected = [0, 1, 2, 3, 4, 4, 4].into_iter();
    for attacker in &attackers {
        field.distance_map.set_base_contact(attacker, &target, true);
        assert_eq!(bonus(&field.distance_map, &target), expected.next().unwrap());
    }
    assert_eq!(field.distance_map.all_base_contacts(&target), 7);
    assert_eq!(field.distance_map.all_base_contacts(&attackers[0]), 1);
    let mut fencer = target;
    fencer.character.edges.fechten_m2w.increment();
    assert_eq!(bonus(&field.distance_map, &fencer), 4);
    fencer.character.secondary_weapon.active = true;
    assert_eq!(bonus(&field.distance_map, &fencer), 0);
}

#[test]
fn base_contact_is_kept_by_pair() {
    let mut map = DistanceMap::default();
    let left = Fighter::new(Sheet::default(), Group::Left, &mut map, true);
    let other = Fighter::new(Sheet::default(), Group::Left, &mut map, true);
    let right = Fighter::new(Sheet::default(), Group::Right, &mut map, false);
    assert!(map.has_room());
    assert!(!map.base_contact(&left, &right));
    map.set_base_contact(&left, &right, true);
    assert!(map.base_contact(&left, &right));
    // the relation reads the same from both sides
    assert!(map.base_contact(&right, &left));
    assert!(!map.base_contact(&other, &right));
    map.set_base_contact(&right, &left, true);
    assert_eq!(map.all_base_contacts(&right), 1);
    map.set_base_contact(&right, &other, true);
    assert_eq!(map.all_base_contacts(&right), 2);
    map.set_base_contact(&right, &left, false);
    assert!(!map.base_contact(&left, &right));
    assert!(map.base_contact(&other, &right));
    map.set_base_contact(&right, &left, false);
    assert_eq!(map.all_base_contacts(&right), 1);
    assert_eq!(DistanceMap::get_key(Group::Left, 3, 9), (3, 9));
    assert_eq!(DistanceMap::get_key(Group::Right, 3, 9), (9, 3));
}

#[test]
fn damage_adds_up() {
    let mut field = field(1);
    let mut armored = Sheet::default();
    armored.armor.torso.set(1);
    let (mut attacker, mut opponent) = pair(&mut field, Sheet::default(), armored);
    assert_eq!(attacker.total_damage(&opponent, Roll(5), 2), Roll(7));
    attacker.character.weapon.piercing.set(3);
    attacker.berserker = true;
    attacker.character.edges.ubertolpeln.increment();
    assert_eq!(attacker.total_damage(&opponent, Roll(5), 0), Roll(8));
    opponent.shaken = true;
    assert_eq!(attacker.total_damage(&opponent, Roll(5), 0), Roll(12));
    attacker.character.passive_modifiers.attack_head.increment();
    assert_eq!(attacker.total_damage(&opponent, Roll(5), -2), Roll(16));
    attacker.joker = true;
    assert_eq!(attacker.total_damage(&opponent, Roll(5), -2), Roll(18));
    attacker.character.edges.machtiger_hieb.increment();
    assert_eq!(attacker.total_damage(&opponent, Roll(5), -2), Roll(36));
}

#[test]
fn a_wound_costs_life_and_is_counted() {
    let mut field = field(1);
    let mut raging = Sheet::default();
    raging.edges.berserker = Edge3::Normal;
    raging.armor.torso.set(2);
    let (mut attacker, mut opponent) = pair(&mut field, Sheet::default(), raging);
    let mut stats = FightStats::new();
    // robustness 4 and armor 2 are taken off
    attacker.wound(&mut opponent, Roll(10), &mut stats);
    assert_eq!(opponent.passive_stats.life, 32 - 4);
    assert!(opponent.shaken);
    assert!(opponent.berserker);
    assert!(!opponent.interrupted);
    assert_eq!(stats.damaging_hits_dealt, 1);
    assert_eq!(stats.damage_dealt, 4);
    assert_eq!(stats.damaging_hits_received, 0);
    // rage absorbs 2 more; the holder of a joker interrupts
    attacker.joker = true;
    attacker.wound(&mut opponent, Roll(10), &mut stats);
    assert_eq!(opponent.passive_stats.life, 28 - 2);
    assert!(opponent.interrupted);
    assert_eq!(stats.damage_dealt, 6);
    // what the other side deals is counted as received
    opponent.wound(&mut attacker, Roll(40), &mut stats);
    assert_eq!(attacker.passive_stats.life, 0);
    assert_eq!(stats.damaging_hits_received, 1);
    assert_eq!(stats.damage_received, 36);
    assert!(attacker.is_dead());
    assert!(!attacker.berserker);
}

#[test]
fn mishaps_by_the_table() {
    let short: Vec<_> = (2..=12).map(CriticalFailResult::of_short_range).collect();
    assert_eq!(
        short,
        vec![
            CriticalFailResult::WeaponDestroyed,
            CriticalFailResult::Fell,
            CriticalFailResult::Fell,
            CriticalFailResult::Fell,
            CriticalFailResult::Tripped,
            CriticalFailResult::Tripped,
            CriticalFailResult::Tripped,
            CriticalFailResult::WeaponLost,
            CriticalFailResult::WeaponLost,
            CriticalFailResult::Injured,
            CriticalFailResult::HeavilyInjured
        ]
    );
    let long: Vec<_> = (2..=12).map(CriticalFailResult::of_long_range).collect();
    assert_eq!(
        long,
        vec![
            CriticalFailResult::WeaponDestroyed,
            CriticalFailResult::WeaponDestroyed,
            CriticalFailResult::WeaponLost,
            CriticalFailResult::WeaponLost,
            CriticalFailResult::WeaponLost,
            CriticalFailResult::WeaponLost,
            CriticalFailResult::WeaponLost,
            CriticalFailResult::WeaponLost,
            CriticalFailResult::WeaponLost,
            CriticalFailResult::Injured,
            CriticalFailResult::Injured
        ]
    );
    let mut roller = Roller::from_seed(4);
    let mut seen = Vec::new();
    for _ in 0..500 {
        let mishap = CriticalFailResult::short_range(&mut roller);
        if !seen.contains(&mishap) {
            seen.push(mishap);
        }
        assert_ne!(CriticalFailResult::long_range(&mut roller), CriticalFailResult::Fell);
    }
    assert_eq!(seen.len(), 6);
}

#[test]
fn mishaps_do_what_they_say() {
    let mut field = field(2);
    let (fresh, _) = pair(&mut field, Sheet::default(), Sheet::default());

    let mut fighter = fresh;
    fighter.suffer(CriticalFailResult::WeaponDestroyed, true, &mut field);
    assert_eq!(fighter.passive_stats.life, 0);
    assert!(fighter.is_dead());

    let mut fighter = fresh;
    fighter.suffer(CriticalFailResult::Fell, true, &mut field);
    assert!(fighter.shaken && fighter.fell);
    let mut fighter = fresh;
    fighter.suffer_plainly(CriticalFailResult::Tripped);
    assert!(fighter.shaken && fighter.fell);

    let mut fighter = fresh;
    fighter.suffer(CriticalFailResult::WeaponLost, true, &mut field);
    assert!(fighter.weapon_lost);

    // a martial artist has no weapon to lose
    let mut artist = fresh;
    artist.character.edges.kampfkunstler.increment();
    artist.suffer(CriticalFailResult::WeaponDestroyed, true, &mut field);
    artist.suffer(CriticalFailResult::WeaponLost, true, &mut field);
    assert_eq!(artist.passive_stats.life, 32);
    assert!(!artist.weapon_lost);

    // an injury is a hit with the own weapon; the shaken do not hit
    let mut shaken = fresh;
    shaken.shaken = true;
    shaken.suffer(CriticalFailResult::HeavilyInjured, true, &mut field);
    assert_eq!(shaken.passive_stats.life, 32);
    let mut strong = fresh;
    strong.character.attributes.sta = Attribute::W12;
    strong.character.weapon.damage = Damage::W12;
    let mut hurt = 0;
    for _ in 0..50 {
        let mut fighter = strong;
        fighter.suffer(CriticalFailResult::HeavilyInjured, true, &mut field);
        assert_eq!(fighter.bennies, strong.bennies);
        if fighter.passive_stats.life < 32 {
            assert!(fighter.shaken);
            hurt += 1;
        }
    }
    assert!(hurt > 0);
    // the fighter is on the counted side: it dealt the wound and received it
    assert!(field.stats.damaging_hits_dealt >= hurt);
    assert_eq!(field.stats.damaging_hits_received, field.stats.damaging_hits_dealt);
    assert_eq!(field.stats.damage_received, field.stats.damage_dealt);
}

#[test]
fn bennies_shake_off_being_shaken() {
    let mut field = field(1);
    let mut sheet = Sheet::default();
    sheet.bennies.count.set(1);
    let (mut fighter, _) = pair(&mut field, sheet, Sheet::default());
    fighter.unshake_with_bennie();
    assert_eq!(fighter.bennies, 1);
    fighter.shaken = true;
    fighter.unshake_against_step_back();
    assert!(fighter.shaken);
    fighter.unshake_with_bennie();
    assert!(!fighter.shaken);
    assert_eq!(fighter.bennies, 0);
    fighter.shaken = true;
    fighter.unshake_with_bennie();
    assert!(fighter.shaken);
    fighter.bennies = 2;
    fighter.character.bennies.use_against_step_back.increment();
    fighter.unshake_against_step_back();
    assert!(!fighter.shaken);
    assert_eq!(fighter.bennies, 1);
    fighter.enable_berserker();
    assert!(!fighter.berserker);
    fighter.character.edges.berserker = Edge3::Normal;
    fighter.enable_berserker();
    assert!(fighter.berserker);
}

#[test]
fn a_will_roll_against_being_shaken() {
    let mut field = field(1);
    let (mut fighter, _) = pair(&mut field, Sheet::default(), Sheet::default());
    fighter.shaken = true;
    assert!(!fighter.settle_unshake(Ok(Roll(3))));
    assert!(fighter.shaken);
    assert!(!fighter.settle_unshake(Err(RollError::CriticalFail)));
    assert!(fighter.shaken);
    assert!(!fighter.settle_unshake(Ok(Roll(4))));
    assert!(!fighter.shaken);
    fighter.shaken = true;
    assert!(fighter.settle_unshake(Ok(Roll(8))));
    assert!(!fighter.shaken);
    // wounds weigh on the roll, a joker and quick reflexes help
    fighter.shaken = true;
    fighter.passive_stats.life = 10;
    assert!(!fighter.settle_unshake(Ok(Roll(6))));
    assert!(fighter.shaken);
    fighter.joker = true;
    fighter.character.edges.kampfreflexe.increment();
    assert!(!fighter.settle_unshake(Ok(Roll(3))));
    assert!(!fighter.shaken);

    let mut interrupted = fighter;
    interrupted.interrupted = true;
    assert!(!interrupted.unshake_without_bennie(&mut field.roller));
    assert!(!interrupted.interrupted);
    assert!(interrupted.unshake_without_bennie(&mut field.roller));
    assert!(interrupted.unshake(&mut field.roller));
}

#[test]
fn cards_are_drawn_for_initiative() {
    let mut field = field(1);
    let (mut fighter, _) = pair(&mut field, Sheet::default(), Sheet::default());
    assert_eq!(fighter.cards_to_draw(), 1);
    let stack = |numbers: &[u8]| {
        CardDeck::stacked(numbers.iter().map(|n| Card::new(*n)).collect(), 1)
    };
    let mut deck = stack(&[52, 7, 30]);
    fighter.riposte_done = true;
    fighter.new_round(&mut deck);
    assert_eq!(fighter.drawn_card(), Card::new(30));
    assert!(!fighter.joker);
    assert!(!fighter.riposte_done);
    assert_eq!(deck.remaining().len(), 2);

    // a cool head draws more cards and keeps the best
    fighter.character.edges.kuhler_kopf = Edge3::Improved;
    assert_eq!(fighter.cards_to_draw(), 3);
    let mut deck = stack(&[1, 52, 7, 30]);
    fighter.new_round(&mut deck);
    assert_eq!(fighter.drawn_card(), Card::joker());
    assert!(fighter.joker);
    assert_eq!(deck.remaining().len(), 1);

    // the quick draw again below a seven
    fighter.character.edges.kuhler_kopf = Edge3::Off;
    fighter.character.edges.schnell.increment();
    let mut deck = stack(&[40, 20, 19, 0]);
    fighter.draw_card(&mut deck);
    assert_eq!(fighter.drawn_card(), Card::new(20));
    assert_eq!(deck.remaining().len(), 1);
}

#[test]
fn hits_are_counted() {
    assert_eq!(count_hits(&vec![AttackResult::Miss, AttackResult::Hit, AttackResult::Raise, AttackResult::Miss, AttackResult::Hit]), 3);
    assert_eq!(count_hits(&all_miss(4)), 0);
    assert_eq!(all_miss(3), vec![AttackResult::Miss, AttackResult::Miss, AttackResult::Miss]);
    assert_eq!(count_hits(&vec![AttackResult::Hit; 300]), 255);
    assert_eq!(no_results(2), vec![None, None]);
    assert!(!Fighter::sweep_hit_any(&vec![None, Some(AttackResult::Miss)]));
    assert!(Fighter::sweep_hit_any(&vec![None, Some(AttackResult::Miss), Some(AttackResult::Raise)]));
}

#[test]
fn attack_modifiers() {
    let mut field = field(1);
    let (mut fighter, _) = pair(&mut field, Sheet::default(), Sheet::default());
    assert_eq!(fighter.primary_attack_modifiers(), (1, 0, 0));
    assert_eq!(fighter.secondary_attack_modifiers(), (-4, 0));
    assert_eq!(fighter.sweep_attack_modifiers(), (0, 0));
    fighter.character.edges.blitzhieb = Edge3::Normal;
    fighter.character.passive_modifiers.attack_wild.increment();
    assert_eq!(fighter.primary_attack_modifiers(), (2, 0, 2));
    fighter.character.secondary_weapon.active = true;
    assert_eq!(fighter.primary_attack_modifiers(), (2, -2, 2));
    assert_eq!(fighter.sweep_attack_modifiers(), (0, 2));
    fighter.character.edges.blitzhieb = Edge3::Improved;
    fighter.character.edges.beidhandiger_kampf.increment();
    assert_eq!(fighter.primary_attack_modifiers(), (2, 2, 2));
    assert_eq!(fighter.secondary_attack_modifiers(), (0, 2));
    fighter.character.edges.beidhandig.increment();
    assert_eq!(fighter.secondary_attack_modifiers(), (2, 2));
}

#[test]
fn the_first_opponent_is_picked() {
    let mut field = field(1);
    let (_, mut opponent) = pair(&mut field, Sheet::default(), Sheet::default());
    let living = vec![opponent, opponent];
    assert_eq!(Fighter::pick_opponent(&living), Ok(0));
    opponent.passive_stats.life = 0;
    let fallen = vec![opponent, living[0]];
    assert_eq!(Fighter::pick_opponent(&fallen), Err(NoOpponentLeft));
}

#[test]
fn stepping_forward_and_back() {
    let mut field = field(6);
    let mut wary = Sheet::default();
    wary.edges.erstschlag.increment();
    let (mut attacker, opponent) = pair(&mut field, wary, Sheet::default());
    let mut opponents = vec![opponent];
    assert!(!attacker.wanna_do_rundumschlag(&opponents, &field.distance_map));
    assert_eq!(attacker.step_forward(&mut opponents, &mut field), Ok(()));
    assert!(field.distance_map.base_contact(&attacker, &opponents[0]));
    // a second step changes nothing
    assert_eq!(attacker.step_forward(&mut opponents, &mut field), Ok(()));
    assert_eq!(field.distance_map.all_base_contacts(&attacker), 1);

    // no step back from an opponent who could follow
    attacker.step_back(&mut opponents, &mut field);
    assert!(field.distance_map.base_contact(&attacker, &opponents[0]));
    opponents[0].shaken = true;
    attacker.step_back(&mut opponents, &mut field);
    assert!(!field.distance_map.base_contact(&attacker, &opponents[0]));

    // an opponent with a benny to spare follows
    attacker.step_forward(&mut opponents, &mut field).unwrap();
    opponents[0].shaken = true;
    opponents[0].bennies = 1;
    opponents[0].character.bennies.use_against_step_back.increment();
    attacker.step_back(&mut opponents, &mut field);
    assert!(field.distance_map.base_contact(&attacker, &opponents[0]));
    assert_eq!(opponents[0].bennies, 0);
    assert!(!opponents[0].shaken);

    // a long weapon needs no step
    let mut field = self::field(6);
    let mut long = Sheet::default();
    long.weapon.reach.set(1);
    let (mut attacker, opponent) = pair(&mut field, long, Sheet::default());
    let mut opponents = vec![opponent];
    assert_eq!(attacker.step_forward(&mut opponents, &mut field), Ok(()));
    assert!(!field.distance_map.base_contact(&attacker, &opponents[0]));
    opponents[0].passive_stats.life = 3;
    assert_eq!(attacker.step_forward(&mut opponents, &mut field), Err(NoOpponentLeft));
}

#[test]
fn a_sweep_needs_two_opponents_in_contact() {
    let mut field = field(9);
    let mut sweeper = Sheet::default();
    sweeper.edges.rundumschlag.increment();
    sweeper.skills.kampfen = fightsim::character::Skill::Master;
    sweeper.attributes.sta = Attribute::W12;
    sweeper.weapon.damage = Damage::W12;
    let attacker = Fighter::new(sweeper, Group::Left, &mut field.distance_map, true);
    let mut opponents = Vec::new();
    for _ in 0..3 {
        opponents.push(Fighter::new(Sheet::default(), Group::Right, &mut field.distance_map, false));
    }
    field.distance_map.set_base_contact(&attacker, &opponents[0], true);
    assert!(!attacker.wanna_do_rundumschlag(&opponents, &field.distance_map));
    field.distance_map.set_base_contact(&attacker, &opponents[2], true);
    assert!(attacker.wanna_do_rundumschlag(&opponents, &field.distance_map));

    // bare hands parry a weapon at 2 less: 3 - 2 = 1
    let results = attacker.sweep_results(&opponents, &field.distance_map, Roll(4), 0);
    assert_eq!(results, vec![Some(AttackResult::Hit), None, Some(AttackResult::Hit)]);
    let results = attacker.sweep_results(&opponents, &field.distance_map, Roll(5), 0);
    assert_eq!(results, vec![Some(AttackResult::Raise), None, Some(AttackResult::Raise)]);
    let mut stats = FightStats::new();
    assert_eq!(attacker.count_sweep(&opponents, &results, &mut stats), 2);
    assert_eq!(stats.hits_dealt, 2);
    assert_eq!(stats.hits_received, 0);

    // whoever stands apart is never hurt by a sweep
    for _ in 0..30 {
        let mut sweeping = attacker;
        let mut targets = opponents.clone();
        sweeping.do_rundumschlag(&mut targets, &mut field);
        assert_eq!(targets[1].passive_stats.life, 32);
        assert!(!targets[1].shaken);
    }
    assert!(field.stats.hits_dealt > 0);
}

#[test]
fn turns_keep_what_a_fight_cannot_change() {
    let mut field = field(12);
    let mut sheet = Sheet::default();
    sheet.bennies.count.set(2);
    sheet.bennies.use_for_attack.increment();
    sheet.bennies.use_for_damage.increment();
    sheet.edges.riposte = Edge3::Improved;
    sheet.skills.kampfen = fightsim::character::Skill::W8;
    sheet.weapon.damage = Damage::W8;
    let (mut attacker, opponent) = pair(&mut field, sheet, sheet);
    let mut opponents = vec![opponent];
    let mut deck = CardDeck::from_seed(1);
    for _ in 0..20 {
        let before = (attacker, opponents[0]);
        attacker.new_round(&mut deck);
        opponents[0].new_round(&mut deck);
        attacker.action(&mut opponents, &mut field);
        assert!(attacker.passive_stats.life <= before.0.passive_stats.life);
        assert!(opponents[0].passive_stats.life <= before.1.passive_stats.life);
        assert!(attacker.bennies <= before.0.bennies);
        assert!(opponents[0].bennies <= before.1.bennies);
        assert_eq!(attacker.distance_id, 0);
        assert_eq!(opponents[0].distance_id, 1);
        assert_eq!(attacker.passive_stats.parry, before.0.passive_stats.parry);
        assert!(attacker.character.same(&sheet));
        if opponents[0].is_dead() || attacker.is_dead() {
            break;
        }
    }
    assert_eq!(field.stats.rounds, 0);
    assert_eq!(opponents.len(), 1);
}

#[test]
fn the_best_of_the_cards_on_top() {
    let stack = |numbers: &[u8]| {
        CardDeck::stacked(numbers.iter().map(|n| Card::new(*n)).collect(), 1)
    };
    let mut deck = stack(&[9, 50, 3, 12]);
    assert_eq!(Fighter::draw_best(&mut deck, 1), Card::new(12));
    assert_eq!(deck.remaining().len(), 3);
    let mut deck = stack(&[9, 50, 3, 12]);
    assert_eq!(Fighter::draw_best(&mut deck, 2), Card::new(12));
    let mut deck = stack(&[9, 50, 3, 12]);
    assert_eq!(Fighter::draw_best(&mut deck, 3), Card::new(50));
    assert_eq!(deck.remaining(), &vec![Card::new(9)]);
    // a deck that runs out takes its cards back
    let mut deck = stack(&[51]);
    let best = Fighter::draw_best(&mut deck, 3);
    assert!(best >= Card::new(51));
    assert_eq!(deck.remaining().len(), 51);
}

#[test]
fn bennies_buy_new_attack_rolls() {
    let mut field = field(17);
    let mut clumsy = Sheet::default();
    clumsy.bennies.count.set(3);
    clumsy.bennies.use_for_attack.increment();
    let mut nimble = Sheet::default();
    nimble.skills.kampfen = fightsim::character::Skill::Master;
    nimble.passive_modifiers.parry.set(4);
    let (attacker, defender) = pair(&mut field, clumsy, nimble);
    assert_eq!(defender.passive_stats.parry, 13);
    let mut hits = 0;
    let mut spent_all = 0;
    for _ in 0..200 {
        let mut fighter = attacker;
        let before = field.stats.hits_dealt;
        match fighter.try_to_hit_with_bennie(&defender, &mut field, 2, 0) {
            Ok(attacks) => {
                assert_eq!(attacks.len(), 2);
                let count = u32::from(count_hits(&attacks));
                assert_eq!(field.stats.hits_dealt, before + count);
                hits += count;
                if count == 0 {
                    // nobody settles for a miss with a benny left
                    assert_eq!(fighter.bennies, 0);
                    spent_all += 1;
                }
            }
            Err(_) => assert_eq!(field.stats.hits_dealt, before),
        }
        assert!(fighter.bennies <= 3);
        assert!(fighter.character.same(&clumsy));
    }
    assert!(spent_all > 0);
    assert_eq!(field.stats.hits_dealt, hits);
    assert_eq!(field.stats.hits_received, 0);
}

#[test]
fn a_strike_wounds_or_leaves_alone() {
    let mut field = field(23);
    let mut strong = Sheet::default();
    strong.attributes.sta = Attribute::W10;
    strong.weapon.damage = Damage::W8;
    strong.bennies.count.set(2);
    strong.bennies.use_for_damage.increment();
    let mut tough = Sheet::default();
    tough.attributes.kon = Attribute::W12;
    tough.armor.torso.set(3);
    let (attacker, defender) = pair(&mut field, strong, tough);
    assert_eq!(defender.passive_stats.robustness, 8);
    let mut wounds = 0;
    for _ in 0..200 {
        let mut striker = attacker;
        let mut victim = defender;
        let before = field.stats;
        match striker.strike(true, &mut victim, false, 0, false, &mut field) {
            Some(damage) => {
                let damage = damage.as_u8();
                assert!(damage >= 8);
                let wound = damage.saturating_sub(8 + 3);
                assert_eq!(victim.passive_stats.life, defender.passive_stats.life - wound);
                assert!(victim.shaken);
                assert_eq!(field.stats.damaging_hits_dealt, before.damaging_hits_dealt + 1);
                assert_eq!(field.stats.damage_dealt, before.damage_dealt + u32::from(wound));
                wounds += 1;
            }
            None => {
                assert_eq!(victim.passive_stats.life, defender.passive_stats.life);
                assert!(!victim.shaken);
                assert_eq!(striker.bennies, 0);
                assert_eq!(field.stats, before);
            }
        }
    }
    assert!(wounds > 0);
    // damage to oneself is never rolled again
    let mut striker = attacker;
    let mut victim = defender;
    victim.passive_stats.robustness = 200;
    assert_eq!(striker.strike(true, &mut victim, true, 0, true, &mut field), None);
    assert_eq!(striker.bennies, 2);
}

#[test]
fn a_miss_invites_the_riposte() {
    let mut field = field(31);
    let mut fencer = Sheet::default();
    fencer.edges.riposte = Edge3::Improved;
    fencer.skills.kampfen = fightsim::character::Skill::W12;
    fencer.attributes.sta = Attribute::W12;
    fencer.weapon.damage = Damage::W12;
    let (attacker, defender) = pair(&mut field, Sheet::default(), fencer);
    let mut struck_back = 0;
    for _ in 0..100 {
        let mut striker = attacker;
        let mut victim = defender;
        striker.do_damage(true, &mut victim, AttackResult::Miss, 0, false, &mut field);
        assert_eq!(victim.passive_stats.life, defender.passive_stats.life);
        if victim.riposte_done {
            struck_back += 1;
        }
        // the riposte is made once a round
        let life = striker.passive_stats.life;
        let shaken = striker.shaken;
        striker.do_damage(true, &mut victim, AttackResult::Miss, 0, false, &mut field);
        if victim.riposte_done && !shaken {
            assert_eq!(striker.passive_stats.life, life);
        }
    }
    assert!(struck_back > 50);
    // without the edge a miss is just a miss
    let mut striker = attacker;
    let mut victim = attacker;
    let before = field.stats;
    striker.do_damage(true, &mut victim, AttackResult::Miss, 0, false, &mut field);
    assert!(!victim.riposte_done);
    assert_eq!(field.stats, before);
    // the shaken do no damage
    striker.shaken = true;
    striker.do_damage(true, &mut victim, AttackResult::Raise, 0, false, &mut field);
    assert_eq!(victim.passive_stats.life, 32);
}

#[test]
fn an_interruption_costs_the_turn() {
    let mut field = field(41);
    let (fresh, _) = pair(&mut field, Sheet::default(), Sheet::default());
    // neither interrupted nor shaken: the fighter acts
    let mut fighter = fresh;
    assert!(fighter.unshake(&mut field.roller));
    assert!(!fighter.interrupted && !fighter.shaken);
    assert_eq!(fighter.bennies, fresh.bennies);

    let mut fighter = fresh;
    fighter.interrupted = true;
    assert!(!fighter.unshake(&mut field.roller));
    assert!(!fighter.interrupted);
    assert!(fighter.unshake(&mut field.roller));

    // with a benny for it, an interrupted fighter that is not shaken acts
    let mut fighter = fresh;
    fighter.interrupted = true;
    fighter.character.bennies.use_for_unshake.increment();
    assert!(fighter.unshake(&mut field.roller));
    assert!(!fighter.interrupted);
    fighter.interrupted = true;
    fighter.shaken = true;
    assert!(!fighter.unshake(&mut field.roller));
    assert!(fighter.shaken);
    fighter.interrupted = true;
    fighter.bennies = 1;
    assert!(fighter.unshake(&mut field.roller));
    assert!(!fighter.shaken);
    assert_eq!(fighter.bennies, 0);

    // a shaken fighter with a benny to spend always comes to act
    for _ in 0..100 {
        let mut fighter = fresh;
        fighter.shaken = true;
        fighter.bennies = 1;
        fighter.character.bennies.use_for_unshake.increment();
        assert!(fighter.unshake(&mut field.roller));
        assert!(!fighter.shaken);
    }
}

#[test]
fn masters_fail_critically_too() {
    let mut field = field(43);
    let mut master = Sheet::default();
    master.skills.kampfen = fightsim::character::Skill::W12p1;
    let (attacker, defender) = pair(&mut field, master, Sheet::default());
    let mut failed = false;
    for _ in 0..4000 {
        let mut fighter = attacker;
        let before = field.stats;
        match fighter.try_to_hit_with_bennie(&defender, &mut field, 1, 0) {
            Ok(attacks) => assert_eq!(attacks.len(), 1),
            Err(_) => {
                // a critical failure counts nothing
                assert_eq!(field.stats, before);
                failed = true;
            }
        }
    }
    assert!(failed);
}

#[test]
fn a_wild_attack_leaves_its_mark() {
    let mut field = field(47);
    let mut wild = Sheet::default();
    wild.passive_modifiers.attack_wild.increment();
    let (attacker, defender) = pair(&mut field, wild, Sheet::default());
    let (calm, _) = pair(&mut field, Sheet::default(), Sheet::default());
    for _ in 0..30 {
        let mut fighter = attacker;
        let mut opponent = defender;
        fighter.attack_with_primary_weapon(&mut opponent, &mut field);
        assert!(fighter.attacked_wild);
        let mut fighter = attacker;
        fighter.attack_with_second_weapon(&mut opponent, &mut field);
        assert!(fighter.attacked_wild);
        let mut fighter = attacker;
        let mut opponents = vec![defender];
        fighter.do_rundumschlag(&mut opponents, &mut field);
        assert!(fighter.attacked_wild);
        // an attack out of turn is wild only for the merciless
        let mut fighter = attacker;
        fighter.do_special_attack(&mut opponent, &mut field);
        assert!(!fighter.attacked_wild);
        fighter.character.edges.erbarmungslos.increment();
        fighter.do_special_attack(&mut opponent, &mut field);
        assert!(fighter.attacked_wild);
        let mut fighter = calm;
        fighter.attack_with_primary_weapon(&mut opponent, &mut field);
        assert!(!fighter.attacked_wild);
    }
}

#[test]
fn a_riposte_is_made_once_and_costs_the_shaken_a_benny() {
    let mut field = field(53);
    let mut fencer = Sheet::default();
    fencer.edges.riposte = Edge3::Improved;
    fencer.bennies.count.set(2);
    let (attacker, defender) = pair(&mut field, Sheet::default(), fencer);
    let mut striker = attacker;
    let mut victim = defender;
    victim.trigger_riposte(&mut striker, &mut field);
    assert!(victim.riposte_done);
    assert_eq!(victim.bennies, 2);

    // the shaken do not strike back without a benny for it
    let mut victim = defender;
    victim.shaken = true;
    let before = field.stats;
    victim.trigger_riposte(&mut striker, &mut field);
    assert!(!victim.riposte_done);
    assert!(victim.shaken);
    assert_eq!(field.stats, before);
    victim.character.bennies.use_for_special_attacks.increment();
    victim.trigger_riposte(&mut striker, &mut field);
    assert!(victim.riposte_done);
    assert!(victim.bennies < 2);

    // a missed attack sets the riposte off
    let mut striker = attacker;
    let mut victim = defender;
    striker.do_damage(true, &mut victim, AttackResult::Miss, 0, false, &mut field);
    assert!(victim.riposte_done);

    // the first strike needs the edge, and contact or an opponent with reach
    let mut guard = defender;
    let mut comer = attacker;
    guard.shaken = true;
    guard.character.bennies.use_for_special_attacks.increment();
    let untouched = guard;
    guard.trigger_erstschlag(&mut comer, true, &mut field);
    assert_eq!(guard.bennies, untouched.bennies);
    guard.character.edges.erstschlag.increment();
    guard.trigger_erstschlag(&mut comer, false, &mut field);
    assert_eq!(guard.bennies, 2);
    assert!(guard.shaken);
    guard.trigger_erstschlag(&mut comer, true, &mut field);
    assert!(guard.bennies < 2);
}

#[test]
fn damage_that_cannot_fall_short_always_wounds() {
    let mut field = field(59);
    let mut aiming = Sheet::default();
    aiming.passive_modifiers.attack_head.increment();
    let mut frail = Sheet::default();
    frail.passive_modifiers.robustness.set(-4);
    let (attacker, defender) = pair(&mut field, aiming, frail);
    assert_eq!(defender.passive_stats.robustness, 0);
    for _ in 0..100 {
        let mut striker = attacker;
        let mut victim = defender;
        assert!(striker.strike(true, &mut victim, false, 0, false, &mut field).is_some());
        assert!(victim.shaken);
        let mut hurt = defender;
        hurt.injure_self(true, true, &mut field);
        assert!(hurt.shaken);
    }
    // a blow at the head makes 6 at least
    let (_, sturdy) = pair(&mut field, Sheet::default(), Sheet::default());
    assert_eq!(sturdy.passive_stats.robustness, 4);
    for _ in 0..100 {
        let mut striker = attacker;
        let mut victim = sturdy;
        assert!(striker.strike(true, &mut victim, false, 0, false, &mut field).is_some());
    }
}

#[test]
fn attacks_need_a_first_opponent_still_in_the_fight() {
    let mut field = field(61);
    let (attacker, defender) = pair(&mut field, Sheet::default(), Sheet::default());
    let mut fallen = defender;
    fallen.passive_stats.life = 0;
    let mut fighter = attacker;
    let mut opponents = vec![fallen, defender];
    let before = field.stats;
    assert_eq!(fighter.do_main_attack(&mut opponents, &mut field), Err(NoOpponentLeft));
    assert_eq!(fighter.do_second_attack(&mut opponents, &mut field), Err(NoOpponentLeft));
    assert_eq!(fighter.do_full_attack(&mut opponents, &mut field), Err(NoOpponentLeft));
    fighter.engage(&mut opponents, &mut field);
    assert_eq!(field.stats, before);
    assert_eq!(opponents[1].passive_stats.life, 32);
    assert!(!field.distance_map.base_contact(&fighter, &opponents[0]));
    assert_eq!(fighter.bennies, attacker.bennies);

    // only the first opponent is attacked
    let mut opponents = vec![defender, defender];
    for _ in 0..30 {
        assert_eq!(fighter.do_main_attack(&mut opponents, &mut field), Ok(()));
        assert_eq!(fighter.do_second_attack(&mut opponents, &mut field), Ok(()));
    }
    assert_eq!(opponents[1].passive_stats.life, 32);
    assert!(!opponents[1].shaken);

    // without a weapon in use there is nothing but the benny
    let mut idle = attacker;
    idle.character.weapon.active = false;
    idle.shaken = true;
    idle.bennies = 1;
    idle.character.bennies.use_for_unshake.increment();
    let before = field.stats;
    assert_eq!(idle.do_full_attack(&mut opponents, &mut field), Ok(()));
    assert!(!idle.shaken);
    assert_eq!(idle.bennies, 0);
    assert_eq!(field.stats, before);
}

#[test]
fn opponents_follow_a_step_back_one_after_the_other() {
    let mut field = field(67);
    let mut wary = Sheet::default();
    wary.edges.erstschlag.increment();
    let attacker = Fighter::new(wary, Group::Left, &mut field.distance_map, true);
    let mut ready = Sheet::default();
    ready.bennies.count.set(1);
    ready.bennies.use_against_step_back.increment();
    let mut opponents = Vec::new();
    for sheet in [Sheet::default(), ready, ready] {
        let mut opponent = Fighter::new(sheet, Group::Right, &mut field.distance_map, false);
        opponent.shaken = true;
        field.distance_map.set_base_contact(&attacker, &opponent, true);
        opponents.push(opponent);
    }
    let mut fighter = attacker;
    fighter.step_back(&mut opponents, &mut field);
    // the first cannot follow, the second does, the third is not asked
    assert!(opponents[0].shaken);
    assert!(!opponents[1].shaken);
    assert_eq!(opponents[1].bennies, 0);
    assert!(opponents[2].shaken);
    assert_eq!(opponents[2].bennies, 1);
    assert_eq!(field.distance_map.all_base_contacts(&attacker), 3);

    // nobody can follow: the contact ends with all who are still in the fight
    opponents[1].shaken = true;
    opponents[2].bennies = 0;
    opponents[0].passive_stats.life = 0;
    fighter.step_back(&mut opponents, &mut field);
    assert!(field.distance_map.base_contact(&attacker, &opponents[0]));
    assert!(!field.distance_map.base_contact(&attacker, &opponents[1]));
    assert!(!field.distance_map.base_contact(&attacker, &opponents[2]));
    assert!(Fighter::cannot_follow(&mut opponents[0]));
}

#[test]
fn a_turn_begins_on_the_feet() {
    let mut field = field(71);
    let (attacker, defender) = pair(&mut field, Sheet::default(), Sheet::default());
    let mut opponents = vec![defender];
    let before = field.stats;

    let mut fighter = attacker;
    fighter.fell = true;
    fighter.attacked_wild = true;
    fighter.weapon_lost = true;
    fighter.action(&mut opponents, &mut field);
    assert!(!fighter.fell && !fighter.attacked_wild && !fighter.weapon_lost);
    assert!(!field.distance_map.base_contact(&fighter, &opponents[0]));
    assert_eq!(field.stats, before);

    let mut fighter = attacker;
    fighter.interrupted = true;
    fighter.fell = true;
    fighter.action(&mut opponents, &mut field);
    assert!(!fighter.fell && !fighter.interrupted);
    assert!(!field.distance_map.base_contact(&fighter, &opponents[0]));
    assert_eq!(field.stats, before);

    // one without reach and without first strike ends in contact
    let mut fighter = attacker;
    fighter.action(&mut opponents, &mut field);
    assert!(field.distance_map.base_contact(&fighter, &opponents[0]));
}

#[test]
fn a_sweep_counts_each_hit_once() {
    let mut field = field(83);
    let attacker = Fighter::new(Sheet::default(), Group::Right, &mut field.distance_map, false);
    let mut opponents = Vec::new();
    for at in 0..4 {
        opponents.push(Fighter::new(Sheet::default(), Group::Left, &mut field.distance_map, at != 2));
    }
    let results = vec![
        Some(AttackResult::Hit),
        Some(AttackResult::Miss),
        Some(AttackResult::Raise),
        None,
    ];
    let mut stats = FightStats::new();
    assert_eq!(attacker.count_sweep(&opponents, &results, &mut stats), 2);
    // the attacker is not counted; of the two who were hit, one is
    assert_eq!(stats, FightStats { hits_received: 1, ..FightStats::new() });

    let mut counted = attacker;
    counted.counted = true;
    let mut stats = FightStats { hits_dealt: u32::MAX - 1, ..FightStats::new() };
    assert_eq!(counted.count_sweep(&opponents, &results, &mut stats), 2);
    assert_eq!(stats, FightStats { hits_dealt: u32::MAX, hits_received: 1, ..FightStats::new() });

    let nothing = no_results(4);
    let mut stats = FightStats::new();
    assert_eq!(counted.count_sweep(&opponents, &nothing, &mut stats), 0);
    assert_eq!(stats, FightStats::new());
}

#[test]
fn a_shaken_fighter_sits_out_or_shakes_it_off() {
    let mut field = field(89);
    let (attacker, defender) = pair(&mut field, Sheet::default(), Sheet::default());
    let mut sat_out = 0;
    let mut acted = 0;
    for _ in 0..200 {
        let mut fighter = attacker;
        fighter.shaken = true;
        fighter.fell = true;
        fighter.attacked_wild = true;
        let mut opponents = vec![defender];
        field.distance_map.set_base_contact(&attacker, &defender, false);
        let before = field.stats;
        fighter.action(&mut opponents, &mut field);
        assert!(!fighter.fell && !fighter.attacked_wild);
        if field.distance_map.base_contact(&fighter, &opponents[0]) {
            acted += 1;
        } else {
            // the turn went by: nothing but the shaken state may differ
            sat_out += 1;
            assert_eq!(opponents[0].passive_stats.life, defender.passive_stats.life);
            assert_eq!(opponents[0].shaken, defender.shaken);
            assert_eq!(field.stats, before);
            assert_eq!(fighter.bennies, attacker.bennies);
            assert_eq!(fighter.passive_stats.life, attacker.passive_stats.life);
            assert!(!fighter.weapon_lost && !fighter.interrupted);
        }
    }
    assert!(sat_out > 0 && acted > 0);

    // with a benny for it the fighter always comes to act
    let mut spender = attacker;
    spender.character.bennies.use_for_unshake.increment();
    for _ in 0..100 {
        let mut fighter = spender;
        fighter.shaken = true;
        fighter.bennies = 1;
        let mut opponents = vec![defender];
        field.distance_map.set_base_contact(&attacker, &defender, false);
        fighter.action(&mut opponents, &mut field);
        assert!(field.distance_map.base_contact(&fighter, &opponents[0]));
    }
}

#[test]
fn bennies_go_only_where_the_sheet_allows() {
    let mut field = field(97);
    let (attacker, defender) = pair(&mut field, Sheet::default(), Sheet::default());
    for _ in 0..200 {
        let mut fighter = attacker;
        fighter.bennies = 3;
        let mut opponent = defender;
        fighter.attack_with_primary_weapon(&mut opponent, &mut field);
        assert_eq!(fighter.bennies, 3);
        // whoever lost life is shaken
        if opponent.passive_stats.life < defender.passive_stats.life {
            assert!(opponent.shaken);
        }
    }

    // one who spends them on attacks settles for a miss only without a benny
    let mut keen = attacker;
    keen.character.bennies.use_for_attack.increment();
    let mut missed = 0;
    for _ in 0..300 {
        let mut fighter = keen;
        fighter.bennies = 2;
        if let Ok(attacks) = fighter.try_to_hit_with_bennie(&defender, &mut field, 1, -4) {
            if attacks[0] == AttackResult::Miss {
                missed += 1;
                assert_eq!(fighter.bennies, 0);
            }
        }
    }
    assert!(missed > 0);

    // a sweep that is followed up on may cost a benny for damage, never else
    let mut sweeper = attacker;
    sweeper.character.bennies.use_for_damage.increment();
    let mut opponents = vec![defender];
    field.distance_map.set_base_contact(&attacker, &defender, true);
    for _ in 0..100 {
        let mut fighter = sweeper;
        fighter.bennies = 1;
        let mut targets = opponents.clone();
        let before = field.stats;
        fighter.do_rundumschlag(&mut targets, &mut field);
        if fighter.bennies == 0 {
            // a benny went for damage: the roll had hit, and was counted once
            assert_eq!(field.stats.hits_dealt, before.hits_dealt + 1);
        }
        assert!(field.stats.hits_dealt <= before.hits_dealt + 1);
    }
    opponents.clear();
}

#[test]
fn a_benny_buys_a_new_roll_only_after_a_failure() {
    let mut field = field(101);
    let (attacker, defender) = pair(&mut field, Sheet::default(), Sheet::default());
    let mut keen = attacker;
    keen.character.bennies.use_for_attack.increment();
    keen.character.bennies.use_for_damage.increment();

    let miss = vec![AttackResult::Miss, AttackResult::Miss];
    let hit = vec![AttackResult::Miss, AttackResult::Hit];
    assert!(keen.rolls_attack_again(&miss, 1));
    assert!(!keen.rolls_attack_again(&miss, 0));
    assert!(!keen.rolls_attack_again(&hit, 3));
    assert!(!attacker.rolls_attack_again(&miss, 3));

    // a beginner's robustness is 4
    assert!(keen.rolls_damage_again(&defender, Roll(3), false, 1));
    assert!(keen.rolls_damage_again(&defender, Roll(-5), false, 1));
    assert!(!keen.rolls_damage_again(&defender, Roll(4), false, 1));
    assert!(!keen.rolls_damage_again(&defender, Roll(3), true, 1));
    assert!(!keen.rolls_damage_again(&defender, Roll(3), false, 0));
    assert!(!attacker.rolls_damage_again(&defender, Roll(3), false, 2));

    assert!(keen.sweeps_again(&vec![Some(AttackResult::Miss), None], 1));
    assert!(keen.sweeps_again(&no_results(3), 2));
    assert!(!keen.sweeps_again(&vec![Some(AttackResult::Raise), None], 1));
    assert!(!keen.sweeps_again(&vec![None], 0));
    assert!(!attacker.sweeps_again(&vec![None], 5));
}

#[test]
fn damage_is_rolled_until_it_wounds_or_no_benny_is_left() {
    let mut field = field(103);
    let (attacker, defender) = pair(&mut field, Sheet::default(), Sheet::default());
    let before = field.stats;
    for _ in 0..200 {
        let (dealt, left) = attacker.roll_to_wound(true, &defender, false, 0, false, &mut field);
        assert_eq!(left, attacker.bennies);
        if let Some(damage) = dealt {
            assert!(damage.as_u8() >= defender.passive_stats.robustness);
        }
    }
    assert_eq!(field.stats, before);

    let mut keen = attacker;
    keen.character.bennies.use_for_damage.increment();
    keen.bennies = 3;
    let mut spent = false;
    for _ in 0..200 {
        let (dealt, left) = keen.roll_to_wound(true, &defender, false, 0, false, &mut field);
        assert!(left <= 3);
        spent = spent || left < 3;
        // whoever settles for no wound has no benny left
        assert!(dealt.is_some() || left == 0);
        // damage done to oneself is never rolled again
        let (_, kept) = keen.roll_to_wound(true, &defender, false, 0, true, &mut field);
        assert_eq!(kept, 3);
    }
    assert!(spent);

    for _ in 0..100 {
        let mut fighter = keen;
        let mut opponent = defender;
        let dealt = fighter.roll_and_wound(true, &mut opponent, true, 2, false, &mut field);
        assert_eq!(dealt.is_some(), opponent.shaken);
        assert_eq!(dealt.is_some(), opponent.passive_stats.life < defender.passive_stats.life
            || opponent.shaken);
    }
}

#[test]
fn the_dice_of_a_hit_add_up() {
    let mut field = field(107);
    let mut strong = Sheet::default();
    strong.attributes.sta = Attribute::W8;
    strong.weapon.damage = Damage::W6;
    let (attacker, _) = pair(&mut field, strong, Sheet::default());
    let mut least = i8::MAX;
    let mut least_raise = i8::MAX;
    for _ in 0..3000 {
        let plain = attacker.roll_damage_dice(&mut field.roller, true, false).as_i8();
        let raise = attacker.roll_damage_dice(&mut field.roller, true, true).as_i8();
        least = least.min(plain);
        least_raise = least_raise.min(raise);
    }
    // two dice show 2 at least, three dice 3
    assert_eq!(least, 2);
    assert_eq!(least_raise, 3);
    // bare hands roll the strength die alone
    let mut bare = attacker;
    bare.character.weapon.damage = Damage::Unarmed;
    let mut least = i8::MAX;
    for _ in 0..300 {
        least = least.min(bare.roll_damage_dice(&mut field.roller, true, false).as_i8());
    }
    assert_eq!(least, 1);
}

#[test]
fn the_attacks_of_a_turn_follow_one_another() {
    let mut field = field(109);
    let mut both = Sheet::default();
    both.secondary_weapon.active = true;
    let (attacker, defender) = pair(&mut field, both, Sheet::default());
    field.distance_map.set_base_contact(&attacker, &defender, true);
    let mut hits = 0;
    for _ in 0..100 {
        let mut fighter = attacker;
        let mut opponents = vec![defender];
        let before = field.stats.hits_dealt;
        assert_eq!(fighter.attack_in_turn(&mut opponents, &mut field), Ok(()));
        // one die for each weapon
        assert!(field.stats.hits_dealt <= before + 2);
        hits += field.stats.hits_dealt - before;
    }
    assert!(hits > 0);
    // nothing is attacked once the first opponent is out of the fight
    let mut fallen = defender;
    fallen.passive_stats.life = 0;
    let mut fighter = attacker;
    let mut opponents = vec![fallen];
    let before = field.stats;
    assert_eq!(fighter.attack_in_turn(&mut opponents, &mut field), Err(NoOpponentLeft));
    assert_eq!(field.stats, before);
}

#[test]
fn the_kept_card_is_the_best_of_those_dealt() {
    // the deck runs out between the draws: the best card is kept all the same
    let mut deck = CardDeck::stacked(vec![Card::new(30)], 5);
    let best = Fighter::draw_best(&mut deck, 3);
    assert_eq!(deck.remaining().len(), 51);
    assert!(best.number() >= 30);
    let mut deck = CardDeck::stacked(vec![Card::new(3), Card::new(51), Card::new(20)], 5);
    assert_eq!(Fighter::draw_best(&mut deck, 3), Card::new(51));
    assert!(deck.remaining().is_empty());
}

#[test]
fn a_riposte_is_made_once() {
    let mut field = field(113);
    let mut quick = Sheet::default();
    quick.edges.riposte = Edge3::Improved;
    let (attacker, defender) = pair(&mut field, Sheet::default(), quick);
    let mut hits = 0;
    for _ in 0..100 {
        let mut fighter = defender;
        let mut opponent = attacker;
        let before = field.stats.hits_received;
        fighter.trigger_riposte(&mut opponent, &mut field);
        assert!(fighter.riposte_done);
        // the riposte is one attack with one die, counted as received
        assert!(field.stats.hits_received <= before + 1);
        hits += field.stats.hits_received - before;
        // a second one in the same round does nothing
        let again = field.stats;
        let mut same = opponent;
        fighter.trigger_riposte(&mut same, &mut field);
        assert_eq!(field.stats, again);
        assert_eq!(same.passive_stats.life, opponent.passive_stats.life);

        let mut fighter = defender;
        let mut opponent = attacker;
        fighter.riposte(&mut opponent, &mut field);
        assert!(fighter.riposte_done);
    }
    assert!(hits > 0);
    // one without the edge does not strike back
    let mut plain = attacker;
    let mut opponent = defender;
    let before = field.stats;
    plain.trigger_riposte(&mut opponent, &mut field);
    assert!(!plain.riposte_done);
    assert_eq!(field.stats, before);
}

#[test]
fn every_die_of_an_attack_is_followed_up_on() {
    let mut field = field(127);
    let (attacker, defender) = pair(&mut field, Sheet::default(), Sheet::default());
    let before = field.stats;
    // misses against one who does not strike back change nothing
    let mut fighter = attacker;
    let mut opponent = defender;
    let misses = vec![AttackResult::Miss, AttackResult::Miss];
    fighter.follow_attacks(true, &mut opponent, &misses, 0, &mut field);
    assert_eq!(opponent.passive_stats.life, defender.passive_stats.life);
    assert!(!opponent.shaken);
    assert_eq!(field.stats, before);
    // two raises at 100 more wound twice
    let mut opponent = defender;
    let raises = vec![AttackResult::Raise, AttackResult::Raise];
    fighter.follow_attacks(true, &mut opponent, &raises, 100, &mut field);
    assert!(opponent.shaken);
    assert!(opponent.passive_stats.life < defender.passive_stats.life);
    assert_eq!(field.stats.damaging_hits_dealt, before.damaging_hits_dealt + 2);
}
