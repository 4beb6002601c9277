use fightsim::gradient::Gradient;
use fightsim::gradient::InvalidGradientValue;
use fightsim::gradient::InvalidTotalValue;
use fightsim::gradient::MissingTotalValue;
use fightsim::gradient::Total;
use fightsim::simulator::fight_report::FightOutcome;
use fightsim::simulator::fight_report::FightReport;
use fightsim::simulator::fight_report::FightStats;
use fightsim::simulator::fight_report::ReportBuilder;
use fightsim::simulator::fight_report::Stat;
use fightsim::simulator::ProgressTracker;

#[test]
fn totals_are_percentages() {
    assert_eq!(Total::new(0).unwrap().value(), Ok(0));
    assert_eq!(Total::new(100).unwrap().value(), Ok(100));
    assert_eq!(Total::new(-1), Err(InvalidTotalValue));
    assert_eq!(Total::new(101), Err(InvalidTotalValue));
    assert_eq!(Total::none().value(), Err(MissingTotalValue));
    assert_eq!(Total::default(), Total::none());
    assert_eq!(Total::zero(), Total::new(0).unwrap());
    assert_ne!(Total::zero(), Total::none());
}

#[test]
fn gradients_are_differences_of_totals() {
    let low = Total::new(20).unwrap();
    let high = Total::new(75).unwrap();
    assert_eq!(high - low, Gradient::new(55).unwrap());
    assert_eq!(low - high, Gradient::new(-55).unwrap());
    assert_eq!((low - low).value(), Some(0));
    assert_eq!(Total::new(100).unwrap() - Total::zero(), Gradient::new(100).unwrap());
    assert_eq!(Total::zero().change_from(Total::new(100).unwrap()).value(), Some(-100));
    assert_eq!(high - Total::none(), Gradient::none());
    assert_eq!(Total::none() - low, Gradient::none());
    assert_eq!(Gradient::none().value(), None);
    assert_eq!(Gradient::default(), Gradient::none());
    assert_eq!(Gradient::new(-101), Err(InvalidGradientValue));
    assert_eq!(Gradient::new(101), Err(InvalidGradientValue));
    assert_eq!(Gradient::new(-100).unwrap().value(), Some(-100));
}

#[test]
fn fight_stats_count_up() {
    let mut stats = FightStats::new();
    assert_eq!(stats, FightStats::default());
    stats.add_round();
    stats.add_round();
    stats.add_hits_dealt(3);
    stats.add_damage_dealt(7);
    stats.add_damage_dealt(5);
    stats.add_hits_received(1);
    stats.add_damage_received(9);
    assert_eq!(
        stats,
        FightStats {
            rounds: 2,
            hits_dealt: 3,
            damaging_hits_dealt: 2,
            damage_dealt: 12,
            hits_received: 1,
            damaging_hits_received: 1,
            damage_received: 9,
        }
    );
}

#[test]
fn fight_stats_stop_at_the_top() {
    let mut stats = FightStats::new();
    stats.rounds = u32::MAX;
    stats.hits_dealt = u32::MAX - 1;
    stats.damage_received = u32::MAX - 3;
    stats.add_round();
    stats.add_hits_dealt(200);
    stats.add_damage_received(255);
    assert_eq!(stats.rounds, u32::MAX);
    assert_eq!(stats.hits_dealt, u32::MAX);
    assert_eq!(stats.damage_received, u32::MAX);
    assert_eq!(stats.damaging_hits_received, 1);
}

#[test]
fn report_without_fights_is_zero_not_pending() {
    let report = ReportBuilder::new().build();
    assert_eq!(report, FightReport::zero());
    assert_ne!(report, FightReport::none());
    assert_eq!(report.total(), Total::zero());
    assert_eq!(FightReport::none().total(), Total::none());
    assert_eq!(FightReport::default(), FightReport::none());
    assert_eq!(FightReport::none().averages(), [Stat(None); 7]);
    assert_eq!(FightReport::zero().averages(), [Stat(Some(0)); 7]);
}

#[test]
fn report_averages_and_percentages() {
    let won = FightStats {
        rounds: 3,
        hits_dealt: 4,
        damaging_hits_dealt: 2,
        damage_dealt: 9,
        hits_received: 1,
        damaging_hits_received: 0,
        damage_received: 0,
    };
    let lost = FightStats {
        rounds: 8,
        hits_dealt: 1,
        damaging_hits_dealt: 1,
        damage_dealt: 2,
        hits_received: 6,
        damaging_hits_received: 3,
        damage_received: 20,
    };
    let drawn = FightStats { rounds: 100, ..FightStats::new() };
    let mut builder = ReportBuilder::new();
    builder.add_fight(FightOutcome::LeftWon(won));
    builder.add_fight(FightOutcome::RightWon(lost));
    builder.add_fight(FightOutcome::Draw(drawn));
    assert_eq!(builder.fights(), 3);
    let report = builder.build();
    assert_eq!(report.prob_win(), Total::new(33).unwrap());
    assert_eq!(report.prob_draw(), Total::new(33).unwrap());
    // the chance to win and half the chance of a draw
    assert_eq!(report.total(), Total::new(33 + 16).unwrap());
    assert_eq!(
        report.averages(),
        [
            Stat(Some(111 / 3)),
            Stat(Some(5 / 3)),
            Stat(Some(3 / 3)),
            Stat(Some(11 / 3)),
            Stat(Some(7 / 3)),
            Stat(Some(3 / 3)),
            Stat(Some(20 / 3)),
        ]
    );
}

#[test]
fn percentages_add_up_to_about_100() {
    for (wins, draws, losses) in [(1u32, 1u32, 1u32), (5, 0, 2), (0, 0, 7), (3, 3, 1), (1, 0, 0)] {
        let mut builder = ReportBuilder::new();
        for _ in 0..wins {
            builder.add_fight(FightOutcome::LeftWon(FightStats::new()));
        }
        for _ in 0..draws {
            builder.add_fight(FightOutcome::Draw(FightStats::new()));
        }
        for _ in 0..losses {
            builder.add_fight(FightOutcome::RightWon(FightStats::new()));
        }
        let fights = wins + draws + losses;
        let report = builder.build();
        let win = i32::from(report.prob_win().value().unwrap());
        let draw = i32::from(report.prob_draw().value().unwrap());
        let loss = (100 * losses / fights) as i32;
        assert_eq!(win, (100 * wins / fights) as i32);
        assert_eq!(draw, (100 * draws / fights) as i32);
        assert!((98..=100).contains(&(win + draw + loss)));
    }
}

#[test]
fn a_report_of_wins_only() {
    let mut builder = ReportBuilder::default();
    for _ in 0..4 {
        builder.add_fight(FightOutcome::LeftWon(FightStats::new()));
    }
    let report = builder.build();
    assert_eq!(report.prob_win().value(), Ok(100));
    assert_eq!(report.prob_draw().value(), Ok(0));
    assert_eq!(report.total().value(), Ok(100));
    // damage per wounding hit is 0 where no hit wounded
    assert_eq!(report.averages()[3], Stat(Some(0)));
}

#[test]
fn progress_of_a_tracker() {
    let mut tracker = ProgressTracker::new();
    assert_eq!(tracker.get_progress(false), 100);
    tracker.add_request();
    tracker.add_request();
    tracker.add_request();
    assert_eq!(tracker.open_jobs(), 3);
    assert_eq!(tracker.get_progress(true), 0);
    tracker.add_resolved();
    assert_eq!(tracker.get_progress(true), 33);
    tracker.add_resolved();
    assert_eq!(tracker.get_progress(false), 66);
    tracker.add_resolved();
    assert_eq!(tracker.open_jobs(), 0);
    assert_eq!(tracker.get_progress(false), 100);
    assert_eq!(tracker, tracker.clone());
    // the counters start over only once the timeout is reached
    tracker.add_request();
    assert_eq!(tracker.get_progress(true), 75);
    tracker.add_resolved();
    assert_eq!(tracker.get_progress(true), 100);
    assert_eq!(tracker, ProgressTracker::default());
    tracker.add_request();
    assert_eq!(tracker.get_progress(false), 0);
}

#[test]
fn totals_and_gradients_convert() {
    assert_eq!(Total::try_from(42), Total::new(42));
    assert_eq!(Total::try_from(-1), Err(InvalidTotalValue));
    assert_eq!(i8::try_from(Total::try_from(42).unwrap()), Ok(42));
    assert_eq!(i8::try_from(Total::none()), Err(MissingTotalValue));
    assert_eq!(Gradient::try_from(-100), Gradient::new(-100));
    assert_eq!(Gradient::try_from(-101), Err(InvalidGradientValue));
    let total: Result<Total, _> = 100_i8.try_into();
    assert_eq!(total.unwrap().value(), Ok(100));
}
