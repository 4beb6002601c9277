use fightsim::simulator::roller::Roll;
use fightsim::simulator::roller::RollResult;

#[test]
fn test_roll_eval() {
    assert_eq!(Roll(-1).eval(), RollResult::Fail);
    assert_eq!(Roll(0).eval(), RollResult::Fail);
    assert_eq!(Roll(1).eval(), RollResult::Fail);
    assert_eq!(Roll(2).eval(), RollResult::Fail);
    assert_eq!(Roll(3).eval(), RollResult::Fail);
    assert_eq!(Roll(4).eval(), RollResult::Success);
    assert_eq!(Roll(5).eval(), RollResult::Success);
    assert_eq!(Roll(6).eval(), RollResult::Success);
    assert_eq!(Roll(7).eval(), RollResult::Success);
    assert_eq!(Roll(8).eval(), RollResult::Raise);
    assert_eq!(Roll(9).eval(), RollResult::Raise);
    assert_eq!(Roll(i8::MAX).eval(), RollResult::Raise);
}

#[test]
fn test_roll_eval_against() {
    assert_eq!(Roll(7).eval_against(8), RollResult::Fail);
    assert_eq!(Roll(8).eval_against(8), RollResult::Success);
    assert_eq!(Roll(9).eval_against(8), RollResult::Success);
    assert_eq!(Roll(10).eval_against(8), RollResult::Success);
    assert_eq!(Roll(11).eval_against(8), RollResult::Success);
    assert_eq!(Roll(12).eval_against(8), RollResult::Raise);
    assert_eq!(Roll(13).eval_against(8), RollResult::Raise);
}

#[test]
fn test_roll_arithmetic_assign() {
    let mut roll = Roll(2);
    roll += 1_u8;
    assert_eq!(roll.0, 3);
    roll += 1_i8;
    assert_eq!(roll.0, 4);
    roll -= 1_u8;
    assert_eq!(roll.0, 3);
    roll -= 1_i8;
    assert_eq!(roll.0, 2);
}

#[test]
fn test_roll_arithmetic() {
    let roll = Roll(3);
    assert_eq!(roll + 2_u8, Roll(5));
    assert_eq!(roll + 2_i8, Roll(5));
    assert_eq!(roll - 2_u8, Roll(1));
    assert_eq!(roll - 2_i8, Roll(1));
}

#[test]
fn test_roll_arithmetic_around_zero() {
    assert_eq!(Roll(1) - 2_u8, Roll(-1));
    assert_eq!(Roll(1) - 2_i8, Roll(-1));
    assert_eq!(Roll(1) + (-2_i8), Roll(-1));
    assert_eq!(Roll(-1) + (2_u8), Roll(1));
    assert_eq!(Roll(-1) + (2_i8), Roll(1));
    assert_eq!(Roll(-1) - (-2_i8), Roll(1));
}

#[test]
fn test_roll_arithmetic_assign_around_zero() {
    let mut roll = Roll(1);
    roll -= 2_u8;
    assert_eq!(roll.0, -1);
    roll += 2_u8;
    assert_eq!(roll.0, 1);
    roll -= 2_i8;
    assert_eq!(roll.0, -1);
    roll += 2_i8;
    assert_eq!(roll.0, 1);
}
