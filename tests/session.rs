use collision_black_box::session::{Action, Event, Hidden, Input, Mode, Session};
use collision_black_box::terminal::terminal_setup;

fn run_trial(s: &mut Session, hit: bool) -> Vec<Action> {
    let mut seen = Vec::new();
    loop {
        let a = s.current();
        seen.push(a);
        let e = if a == Action::Collide { Event::Outcome(hit) } else { Event::Done };
        s.advance(e);
        if s.pos == 0 {
            return seen;
        }
    }
}

fn samples(actions: &[Action]) -> Vec<Hidden> {
    actions
        .iter()
        .filter_map(|a| match a {
            Action::Sample(k) => Some(*k),
            _ => None,
        })
        .collect()
}

#[test]
fn new_session_announces_first_trial() {
    let s = Session::new(Mode::Wall);
    assert_eq!(s.trial, 1);
    assert_eq!(s.current(), Action::Announce(1));
}

#[test]
fn wall_trial_script() {
    let mut s = Session::new(Mode::Wall);
    let seen = run_trial(&mut s, true);
    assert_eq!(
        seen,
        vec![
            Action::Announce(1),
            Action::Ask(Input::LaunchSpeed),
            Action::Perturb(Input::LaunchSpeed),
            Action::Ask(Input::LaunchAngle),
            Action::Perturb(Input::LaunchAngle),
            Action::Ask(Input::AngularSpeed),
            Action::Perturb(Input::AngularSpeed),
            Action::Sample(Hidden::Radius),
            Action::Sample(Hidden::Restitution),
            Action::Sample(Hidden::Friction),
            Action::Sample(Hidden::Moment),
            Action::Collide,
            Action::Running,
            Action::Sample(Hidden::Distance),
            Action::Sample(Hidden::Processing),
            Action::Wait,
            Action::ReportOutcome,
        ]
    );
    assert_eq!(s.trial, 2);
    assert_eq!(s.current(), Action::Announce(2));
}

#[test]
fn disk_miss_draws_distance_and_reports_miss() {
    let mut s = Session::new(Mode::Disk);
    let seen = run_trial(&mut s, false);
    assert_eq!(seen.len(), 20);
    assert_eq!(seen[16], Action::Collide);
    assert_eq!(
        &seen[17..],
        &[Action::Sample(Hidden::Distance), Action::Wait, Action::ReportMiss]
    );
}

#[test]
fn disk_hit_reports_outcome_without_distance() {
    let mut s = Session::new(Mode::Disk);
    let seen = run_trial(&mut s, true);
    assert_eq!(
        &seen[17..],
        &[Action::Running, Action::Wait, Action::ReportOutcome]
    );
    assert!(!seen.contains(&Action::Sample(Hidden::Distance)));
}

#[test]
fn disk_inputs_in_order() {
    let mut s = Session::new(Mode::Disk);
    let seen = run_trial(&mut s, true);
    let asked: Vec<Input> = seen
        .iter()
        .filter_map(|a| match a {
            Action::Ask(m) => Some(*m),
            _ => None,
        })
        .collect();
    assert_eq!(
        asked,
        vec![Input::ProbeMass, Input::LaunchPosition, Input::LaunchAngle, Input::LaunchSpeed]
    );
}

#[test]
fn rejected_input_is_asked_again() {
    let mut s = Session::new(Mode::Wall);
    s.advance(Event::Done);
    assert_eq!(s.current(), Action::Ask(Input::LaunchSpeed));
    s.advance(Event::Rejected);
    s.advance(Event::Rejected);
    assert_eq!(s.current(), Action::Ask(Input::LaunchSpeed));
    s.advance(Event::Done);
    assert_eq!(s.current(), Action::Perturb(Input::LaunchSpeed));
}

#[test]
fn every_trial_draws_all_constants_again() {
    let mut s = Session::new(Mode::Disk);
    let first = run_trial(&mut s, false);
    // reject a few inputs in the second trial: the draws must not change
    s.advance(Event::Done);
    s.advance(Event::Rejected);
    s.advance(Event::Rejected);
    let mut second = vec![Action::Announce(2)];
    second.extend(run_trial(&mut s, false));
    assert_eq!(samples(&first), samples(&second));
    assert_eq!(
        samples(&first),
        vec![
            Hidden::ProbeRadius,
            Hidden::MysteryRadius,
            Hidden::MysteryMass,
            Hidden::Processing,
            Hidden::Restitution,
            Hidden::PositionX,
            Hidden::PositionY,
            Hidden::Distance,
        ]
    );
    assert_eq!(s.trial, 3);
}

#[test]
fn perturbations_precede_draws() {
    for mode in [Mode::Wall, Mode::Disk] {
        let mut s = Session::new(mode);
        let seen = run_trial(&mut s, true);
        let last_perturb = seen.iter().rposition(|a| matches!(a, Action::Perturb(_))).unwrap();
        let first_sample = seen.iter().position(|a| matches!(a, Action::Sample(_))).unwrap();
        assert!(last_perturb < first_sample);
    }
}

#[test]
fn trial_count_stops_at_largest() {
    let mut s = Session::new(Mode::Wall);
    s.trial = u64::MAX;
    run_trial(&mut s, true);
    assert_eq!(s.trial, u64::MAX);
    assert_eq!(s.current(), Action::Announce(u64::MAX));
}

#[test]
fn collision_outcome_recorded() {
    let mut s = Session::new(Mode::Disk);
    for _ in 0..16 {
        s.advance(Event::Done);
    }
    assert_eq!(s.current(), Action::Collide);
    s.advance(Event::Outcome(true));
    assert!(s.hit);
    assert_eq!(s.current(), Action::Running);
}

#[test]
fn terminal_setup_returns() {
    terminal_setup();
}
