use fightsim::character::Attribute;
use fightsim::character::Damage;
use fightsim::character::Skill;
use fightsim::character::Weapon;
use fightsim::simulator::roller::Roll;
use fightsim::simulator::roller::RollError;
use fightsim::simulator::roller::RollResult;
use fightsim::simulator::roller::Roller;

#[test]
fn rolls_saturate() {
    assert_eq!(Roll(127) + 1_i8, Roll(127));
    assert_eq!(Roll(120) + Roll(120), Roll(127));
    assert_eq!(Roll(-128) - 1_i8, Roll(-128));
    assert_eq!(Roll(-100) - 100_u8, Roll(-128));
    assert_eq!(Roll(-128) + 255_u8, Roll(-1));
    assert_eq!(Roll(0) - 255_u8, Roll(-127));
    assert_eq!(Roll(7) * 2_u8, Roll(14));
    assert_eq!(Roll(70) * 2_u8, Roll(127));
    assert_eq!(Roll(-70) * 2_u8, Roll(-128));
    assert_eq!(Roll(-3) * 0_u8, Roll(0));
    let mut roll = Roll(5);
    roll *= 3_u8;
    roll += Roll(-20);
    assert_eq!(roll, Roll(-5));
    assert_eq!(Roll(-5).as_u8(), 0);
    assert_eq!(Roll(-5).as_i8(), -5);
    assert_eq!(Roll(99).as_u8(), 99);
}

#[test]
fn rolls_taken_off_unsigned_values() {
    assert_eq!(10_u8 - Roll(3), 7);
    assert_eq!(10_u8 - Roll(10), 0);
    assert_eq!(10_u8 - Roll(127), 0);
    assert_eq!(10_u8 - Roll(-5), 10);
    let mut life = 32_u8;
    life -= Roll(6);
    assert_eq!(life, 26);
    life -= Roll(-6);
    assert_eq!(life, 26);
    life -= Roll(100);
    assert_eq!(life, 0);
}

#[test]
fn eval_against_extremes() {
    // a target above i8::MAX counts as i8::MAX, and the roll stops there too
    assert_eq!(Roll(127).eval_against(255), RollResult::Fail);
    assert_eq!(Roll(127).eval_against(126), RollResult::Success);
    assert_eq!(Roll(127).eval_against(123), RollResult::Success);
    assert_eq!(Roll(127).eval_against(122), RollResult::Raise);
    assert_eq!(Roll(0).eval_against(0), RollResult::Success);
    assert_eq!(Roll(-1).eval_against(0), RollResult::Fail);
    assert_eq!(Roll(4).eval_against(0), RollResult::Raise);
}

#[test]
fn faces_add_up_until_the_die_stops_exploding() {
    assert_eq!(Roller::add_face(Roll(0), Roll(6), 6), (Roll(6), true));
    assert_eq!(Roller::add_face(Roll(6), Roll(5), 6), (Roll(11), false));
    assert_eq!(Roller::add_face(Roll(12), Roll(1), 6), (Roll(13), false));
    // the total stops at the top, and the die with it
    assert_eq!(Roller::add_face(Roll(120), Roll(12), 12), (Roll(127), false));
    assert_eq!(Roller::add_face(Roll(115), Roll(12), 12), (Roll(127), false));
    assert_eq!(Roller::add_face(Roll(114), Roll(12), 12), (Roll(126), true));
    // a die with more sides than a roll can hold never shows its top
    assert_eq!(Roller::add_face(Roll(0), Roll(127), 200), (Roll(127), false));
}

#[test]
fn a_die_shows_what_it_can() {
    let mut roller = Roller::from_seed(1);
    let mut seen = [false; 128];
    for _ in 0..2000 {
        let roll = roller.roll_die(6, 0).as_i8();
        assert!(roll >= 1);
        // an exploding die never stops on a multiple of its sides
        assert!(roll % 6 != 0 || roll == 127);
        seen[roll as usize] = true;
    }
    for face in 1..=5 {
        assert!(seen[face], "no {face} in 2000 rolls");
    }
    assert!(seen[7..].iter().any(|s| *s), "the die never exploded");
    assert!(!seen[127], "the die never stopped");
}

#[test]
fn dice_without_sides_and_modifiers() {
    let mut roller = Roller::new();
    assert_eq!(roller.roll_die(0, 5), Roll(0));
    assert_eq!(roller.roll_die_nonexploding(0), Roll(0));
    for _ in 0..200 {
        let plain = roller.roll_die_nonexploding(4).as_i8();
        assert!((1..=4).contains(&plain));
        let big = roller.roll_die_nonexploding(255).as_i8();
        assert!(big >= 1);
        let shifted = roller.roll_die(4, -2).as_i8();
        assert!(shifted >= -1);
        assert!((shifted + 2) % 4 != 0 || shifted == 125);
        let mishap = roller.roll_critical_fail_result().as_u8();
        assert!((2..=12).contains(&mishap));
        assert!(roller.roll_raise().as_i8() >= 1);
        assert!(roller.roll_raise_d10().as_i8() >= 1);
        assert!(roller.roll_attribute_without_wild_die(Attribute::W12p2).as_i8() >= 3);
    }
}

#[test]
fn equal_seeds_roll_alike() {
    let mut first = Roller::from_seed(99);
    let mut second = Roller::from_seed(99);
    let mut other = Roller::from_seed(100);
    let a: Vec<Roll> = (0..50).map(|_| first.roll_die(8, 0)).collect();
    let b: Vec<Roll> = (0..50).map(|_| second.roll_die(8, 0)).collect();
    let c: Vec<Roll> = (0..50).map(|_| other.roll_die(8, 0)).collect();
    assert_eq!(a, b);
    assert_ne!(a, c);
}

#[test]
fn the_wild_die_keeps_the_higher() {
    assert_eq!(Roller::keep_higher(Roll(3), 0, Roll(5)), Ok(Roll(5)));
    assert_eq!(Roller::keep_higher(Roll(5), 0, Roll(3)), Ok(Roll(5)));
    assert_eq!(Roller::keep_higher(Roll(1), 0, Roll(2)), Ok(Roll(2)));
    assert_eq!(Roller::keep_higher(Roll(2), 0, Roll(1)), Ok(Roll(2)));
    assert_eq!(Roller::keep_higher(Roll(1), 0, Roll(1)), Err(RollError::CriticalFail));
    assert_eq!(Roller::keep_higher(Roll(-1), 0, Roll(1)), Err(RollError::CriticalFail));
    assert_eq!(Roller::keep_higher(Roll(-1), 0, Roll(0)), Err(RollError::CriticalFail));
}

#[test]
fn the_lowest_face_fails_whatever_the_modifier() {
    // a die with a bonus that shows its lowest face fails with the wild die
    assert_eq!(Roller::keep_higher(Roll(2), 1, Roll(1)), Err(RollError::CriticalFail));
    assert_eq!(Roller::keep_higher(Roll(3), 2, Roll(1)), Err(RollError::CriticalFail));
    assert_eq!(Roller::keep_higher(Roll(3), 1, Roll(1)), Ok(Roll(3)));
    assert_eq!(Roller::keep_higher(Roll(2), 1, Roll(2)), Ok(Roll(2)));
    // a die with a malus that counts for little did not show its lowest face
    assert_eq!(Roller::keep_higher(Roll(0), -2, Roll(1)), Ok(Roll(1)));
    assert_eq!(Roller::keep_higher(Roll(1), -2, Roll(1)), Ok(Roll(1)));
    assert_eq!(Roller::keep_higher(Roll(1), -2, Roll(0)), Ok(Roll(1)));
    assert_eq!(Roller::keep_higher(Roll(-1), -2, Roll(1)), Err(RollError::CriticalFail));
    assert_eq!(
        Roller::apply_wild_die(vec![Roll(5), Roll(2)], 1, Roll(1)),
        Err(RollError::CriticalFail)
    );
    assert_eq!(
        Roller::apply_wild_die(vec![Roll(0), Roll(4)], -2, Roll(1)),
        Ok(vec![Roll(1), Roll(4)])
    );
}

#[test]
fn the_wild_die_stands_in_for_the_lowest() {
    let rolls = vec![Roll(4), Roll(2), Roll(7), Roll(2)];
    assert_eq!(Roller::lowest(&rolls), 1);
    assert!(!Roller::any_shows_one(&rolls));
    assert_eq!(
        Roller::apply_wild_die(rolls.clone(), 0, Roll(5)),
        Ok(vec![Roll(4), Roll(5), Roll(7), Roll(2)])
    );
    assert_eq!(Roller::apply_wild_die(rolls.clone(), 0, Roll(1)), Ok(rolls));
    let weak = vec![Roll(3), Roll(1)];
    assert!(Roller::any_shows_one(&weak));
    assert_eq!(Roller::lowest(&weak), 1);
    assert_eq!(Roller::apply_wild_die(weak.clone(), 0, Roll(1)), Err(RollError::CriticalFail));
    assert_eq!(Roller::apply_wild_die(weak, 0, Roll(2)), Ok(vec![Roll(3), Roll(2)]));
    assert!(!Roller::any_shows_one(&vec![Roll(-1), Roll(0), Roll(2)]));
}

#[test]
fn skill_rolls_have_as_many_dice_as_asked() {
    let mut roller = Roller::from_seed(5);
    let mut failed = 0;
    let mut critical = 0;
    for n in 1..=3 {
        for _ in 0..300 {
            match roller.roll_skill_with_n_dice(Skill::W6, n, true) {
                Ok(rolls) => assert_eq!(rolls.len(), n),
                Err(RollError::Fail) => failed += 1,
                Err(RollError::CriticalFail) => critical += 1,
            }
            match roller.roll_skill_with_n_dice(Skill::W4m2, n, false) {
                Ok(rolls) => assert_eq!(rolls.len(), n),
                Err(RollError::Fail) => panic!("only a berserker fails on a one"),
                Err(RollError::CriticalFail) => critical += 1,
            }
        }
    }
    assert!(failed > 0);
    assert!(critical > 0);
}

#[test]
fn attribute_rolls_fail_critically_at_times() {
    let mut roller = Roller::from_seed(8);
    let mut critical = 0;
    for _ in 0..500 {
        match roller.roll_attribute(Attribute::W4) {
            Ok(roll) => assert!(roll.as_i8() >= 2),
            Err(error) => {
                assert_eq!(error, RollError::CriticalFail);
                critical += 1;
            }
        }
    }
    assert!(critical > 0);
}

#[test]
fn strength_caps_the_damage_die() {
    let mut roller = Roller::from_seed(3);
    let mut sword: Weapon<false> = Weapon::default();
    sword.damage = Damage::W12;
    sword.bonus_damage.set(2);
    let bare: Weapon<true> = Weapon::default();
    for _ in 0..300 {
        // a W12 in the hand of a W4: a W4 is rolled
        let weak = roller.roll_weapon_damage(&sword, Attribute::W4).as_i8();
        assert!(weak >= 3);
        assert!((weak - 2) % 4 != 0 || weak == 127);
        let strong = roller.roll_weapon_damage(&sword, Attribute::Master).as_i8();
        assert!((strong - 2) % 12 != 0 || strong == 127);
        // the bare hand has no die
        assert_eq!(roller.roll_weapon_damage(&bare, Attribute::W12), Roll(0));
    }
}

#[test]
fn values_convert_to_numbers() {
    assert_eq!(u8::from(Roll(-3)), 0);
    assert_eq!(u8::from(Roll(9)), 9);
    assert_eq!(i8::from(Roll(-3)), -3);
    assert_eq!(u8::from(Attribute::W12p1), 13);
    assert_eq!(u8::from(Skill::W4m2), 2);
    assert_eq!(u8::from(Damage::Unarmed), 0);
    assert_eq!(u8::from(Damage::W10), 10);
    assert_eq!(i8::from(fightsim::stats::IntStat::<4, 4>::new(-9)), -4);
}

#[test]
fn dice_with_a_bonus_fail_on_their_lowest_faces() {
    let mut roller = Roller::from_seed(13);
    let mut attribute_failed = false;
    let mut skill_failed = false;
    for _ in 0..4000 {
        match roller.roll_attribute(Attribute::W12p1) {
            Ok(roll) => assert!(roll.as_i8() >= 2),
            Err(e) => {
                assert_eq!(e, RollError::CriticalFail);
                attribute_failed = true;
            }
        }
        match roller.roll_skill_with_n_dice(Skill::W12p2, 2, false) {
            Ok(rolls) => assert_eq!(rolls.len(), 2),
            Err(e) => {
                assert_eq!(e, RollError::CriticalFail);
                skill_failed = true;
            }
        }
    }
    assert!(attribute_failed);
    assert!(skill_failed);
}
