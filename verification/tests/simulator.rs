use fightsim::character::Character;
use fightsim::character::attributes::AttrName;
use fightsim::character::skills::SkillName;
use fightsim::gradient::Gradient;
use fightsim::group::CharIndex;
use fightsim::modification::CharModification;
use fightsim::modification::DrawInfo;
use fightsim::selection::CharSelection;
use fightsim::simulator::arena::simulate_fights_seeded;
use fightsim::simulator::fight_report::FightReport;
use fightsim::simulator::GroupData;
use fightsim::simulator::Simulator;

fn create_simulator() -> Simulator {
    let group = vec![Character::default()];
    Simulator::new(&group, &group)
}

/// Plays the jobs that the simulator asked for, and hands back the reports.
fn run_jobs(simulator: &mut Simulator, jobs: Vec<GroupData>) {
    for job in jobs {
        let report = simulate_fights_seeded(&job, 200, 100, 42);
        assert!(simulator.deliver(&job, report));
    }
}

#[test]
fn test_simulator_starts_with_100_percent() {
    let mut simulator = create_simulator();
    assert_eq!(simulator.progress(false), 100);
}

#[test]
fn test_simulator_progress() {
    let mod1 = || SkillName::Kampfen.mod_inc(CharSelection::Left(CharIndex::default()));
    let mod2 = || AttrName::Sta.mod_inc(CharSelection::Right(CharIndex::default()));
    let mut simulator = create_simulator();

    assert_eq!(simulator.progress(false), 100);

    let (gradient_1, mut jobs) = simulator.gradient(mod1());
    let (gradient_2, more_jobs) = simulator.gradient(mod2());
    jobs.extend(more_jobs);
    assert_eq!(gradient_1, Gradient::none());
    assert_eq!(gradient_2, Gradient::none());
    assert_ne!(simulator.progress(false), 100);

    run_jobs(&mut simulator, jobs);

    let (gradient_1, jobs_1) = simulator.gradient(mod1());
    let (gradient_2, jobs_2) = simulator.gradient(mod2());
    assert_ne!(gradient_1, Gradient::none());
    assert_ne!(gradient_2, Gradient::none());
    assert!(jobs_1.is_empty());
    assert!(jobs_2.is_empty());
    assert_eq!(simulator.progress(false), 100);
}

#[test]
fn report_is_requested_once() {
    let mut simulator = create_simulator();
    let (first, job) = simulator.report();
    assert_eq!(first, FightReport::none());
    let job = job.expect("the first request starts a job");
    let (second, again) = simulator.report();
    assert_eq!(second, first);
    assert!(again.is_none());
    assert_eq!(simulator.progress(false), 0);

    let report = simulate_fights_seeded(&job, 100, 100, 1);
    assert!(simulator.deliver(&job, report));
    let (third, none) = simulator.report();
    assert_eq!(third, report);
    assert!(none.is_none());
    let (fourth, none) = simulator.report();
    assert_eq!(fourth, third);
    assert!(none.is_none());
    assert_eq!(simulator.progress(false), 100);
}

#[test]
fn report_is_delivered_once() {
    let mut simulator = create_simulator();
    let (_, job) = simulator.report();
    let job = job.unwrap();
    let report = simulate_fights_seeded(&job, 50, 100, 1);
    let other = simulate_fights_seeded(&job, 0, 100, 1);
    assert_eq!(other, FightReport::zero());
    assert!(simulator.deliver(&job, report));
    assert!(!simulator.deliver(&job, other));
    assert_eq!(simulator.report().0, report);

    let stranger = GroupData::new(&Vec::new(), &Vec::new());
    assert!(!simulator.deliver(&stranger, other));
}

#[test]
fn gradient_of_an_edit_that_changes_nothing_is_zero() {
    let mut simulator = create_simulator();
    // a beginner has no benny to lose
    let no_op = || {
        CharModification::new(
            CharSelection::Left(CharIndex::default()),
            fightsim::modification::CharEdit::NumBennies(fightsim::modification::Step::Decrement),
        )
    };
    let (pending, jobs) = simulator.gradient(no_op());
    assert_eq!(pending, Gradient::none());
    assert_eq!(jobs.len(), 1);
    run_jobs(&mut simulator, jobs);
    let (gradient, jobs) = simulator.gradient(no_op());
    assert!(jobs.is_empty());
    assert_eq!(gradient.value(), Some(0));
}

#[test]
fn progress_starts_over_after_the_timeout() {
    let mut simulator = create_simulator();
    let (_, job) = simulator.report();
    assert_eq!(simulator.progress(true), 0);
    let job = job.unwrap();
    let report = simulate_fights_seeded(&job, 10, 100, 5);
    simulator.deliver(&job, report);
    assert_eq!(simulator.progress(false), 100);
    assert_eq!(simulator.progress(true), 100);
    assert_eq!(simulator.progress(false), 100);
}

#[test]
fn update_keeps_the_cache() {
    let mut simulator = create_simulator();
    let (_, job) = simulator.report();
    let job = job.unwrap();
    let report = simulate_fights_seeded(&job, 10, 100, 5);
    simulator.deliver(&job, report);

    let mut named = Character::default();
    named.name = fightsim::character::Name::new("Somebody else");
    simulator.update(&vec![named.clone()], &vec![named]);
    let (again, job) = simulator.report();
    assert!(job.is_none(), "a new name makes no new configuration");
    assert_eq!(again, report);

    let mut stronger = Character::default();
    stronger.attributes.sta.increment();
    simulator.update(&vec![stronger], &vec![Character::default()]);
    let (other, job) = simulator.report();
    assert!(job.is_some());
    assert_eq!(other, FightReport::none());
}

#[test]
fn gradient_asks_for_the_view_and_then_for_the_edit() {
    let raise = || SkillName::Kampfen.mod_inc(CharSelection::Left(CharIndex::default()));
    let mut simulator = create_simulator();
    let plain = GroupData::new(&vec![Character::default()], &vec![Character::default()]);
    let mut edited = plain.duplicate();
    edited.apply_mod(raise());
    assert!(!edited.same(&plain));

    let (_, jobs) = simulator.gradient(raise());
    assert_eq!(jobs.len(), 2);
    assert!(jobs[0].same(&plain));
    assert!(jobs[1].same(&edited));

    // the view is known by now: another edit asks for itself alone
    let other = || AttrName::Sta.mod_inc(CharSelection::Right(CharIndex::default()));
    let mut changed = plain.duplicate();
    changed.apply_mod(other());
    let (_, jobs) = simulator.gradient(other());
    assert_eq!(jobs.len(), 1);
    assert!(jobs[0].same(&changed));
}
