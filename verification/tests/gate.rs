use line_follower::gate::{RobotState, StartStopGate};

#[test]
fn a_new_gate_is_idle_with_no_wait() {
    let gate = StartStopGate::new(false);
    assert_eq!(gate.state(), RobotState::Idle);
    assert!(!gate.is_waiting());
    assert!(!gate.level());
    assert!(StartStopGate::new(true).level());
}

#[test]
fn one_rising_edge_releases_exactly_one_wait() {
    let mut gate = StartStopGate::new(false);
    gate.wait();
    assert!(gate.is_waiting());
    assert!(gate.observe(true));
    assert!(!gate.is_waiting());
    assert_eq!(gate.state(), RobotState::Running);
    // the same edge releases nothing more
    assert!(!gate.observe(true));
    assert!(!gate.observe(false));
    assert!(!gate.observe(true));
    assert_eq!(gate.state(), RobotState::Running);
}

#[test]
fn a_held_button_is_one_activation() {
    let mut gate = StartStopGate::new(false);
    gate.wait();
    let mut releases = 0;
    for _ in 0..100 {
        if gate.observe(true) {
            releases += 1;
        }
        // the caller comes back for more while the button is still down
        gate.wait();
    }
    assert_eq!(releases, 1);
    assert_eq!(gate.state(), RobotState::Running);
}

#[test]
fn a_level_that_was_high_from_the_start_is_no_edge() {
    let mut gate = StartStopGate::new(true);
    gate.wait();
    assert!(!gate.observe(true));
    assert!(!gate.observe(false));
    assert!(gate.observe(true));
}

#[test]
fn an_edge_before_the_wait_is_not_kept() {
    let mut gate = StartStopGate::new(false);
    assert!(!gate.observe(true));
    gate.wait();
    assert!(!gate.observe(true));
    assert_eq!(gate.state(), RobotState::Idle);
    assert!(!gate.observe(false));
    assert!(gate.observe(true));
}

#[test]
fn a_falling_edge_releases_nothing() {
    let mut gate = StartStopGate::new(true);
    gate.wait();
    assert!(!gate.observe(false));
    assert!(gate.is_waiting());
    assert_eq!(gate.state(), RobotState::Idle);
}

#[test]
fn waiting_twice_is_waiting_once() {
    let mut gate = StartStopGate::new(false);
    gate.wait();
    gate.wait();
    assert!(gate.observe(true));
    assert!(!gate.is_waiting());
    assert!(!gate.observe(false));
    assert!(!gate.observe(true));
}

#[test]
fn repeated_waits_toggle_the_robot() {
    let mut gate = StartStopGate::new(false);
    let mut states = Vec::new();
    for _ in 0..4 {
        gate.wait();
        assert!(!gate.observe(false));
        assert!(gate.observe(true));
        states.push(gate.state());
    }
    assert_eq!(
        states,
        vec![RobotState::Running, RobotState::Idle, RobotState::Running, RobotState::Idle]
    );
}

#[test]
fn the_gate_remembers_the_level() {
    let mut gate = StartStopGate::new(false);
    gate.observe(true);
    assert!(gate.level());
    gate.observe(false);
    assert!(!gate.level());
}
