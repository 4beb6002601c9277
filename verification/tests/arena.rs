use fightsim::character::Character;
use fightsim::simulator::arena::simulate_fights;
use fightsim::simulator::GroupData;

#[test]
fn test_probability_for_same_chars_is_around_50() {
    let count_fights = 10000;
    let max_rounds = 100;

    let character = Character::default();
    let data = GroupData::new(&vec![character.clone()], &vec![character]);

    let prob: i8 = simulate_fights(&data, count_fights, max_rounds)
        .total()
        .try_into()
        .unwrap();

    println!("prob = {prob}");
    assert!((45..=55).contains(&prob), "{prob} is too far away from 50");
}
