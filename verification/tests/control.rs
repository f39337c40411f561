use line_follower::control::{choose_maneuver, ControlLoop};
use line_follower::gate::RobotState;
use line_follower::motors::{Direction, DutyWrite, Maneuver, Side};
use line_follower::sensors::SensorReadings;

fn reading(front: u16, left: u16, right: u16) -> SensorReadings {
    SensorReadings { front, left, right }
}

fn write(side: Side, direction: Direction, duty: u16) -> DutyWrite {
    DutyWrite { side, direction, duty }
}

/// A loop that was started by one rising edge and runs at the given speeds.
fn running(left: u16, right: u16) -> ControlLoop {
    let mut control = ControlLoop::new(6400, 6400, false);
    control.wait();
    assert!(control.observe(true).is_some());
    assert!(control.set_speeds(left, right).is_some());
    control
}

fn mirror(control: &ControlLoop) -> [u16; 4] {
    let motors = control.motors();
    [
        motors.duty(Side::Left, Direction::Forward),
        motors.duty(Side::Left, Direction::Reverse),
        motors.duty(Side::Right, Direction::Forward),
        motors.duty(Side::Right, Direction::Reverse),
    ]
}

#[test]
fn any_left_signal_turns_right_whatever_its_size() {
    assert_eq!(choose_maneuver(&reading(0, 1, 0)), Maneuver::TurnRight);
    assert_eq!(choose_maneuver(&reading(0, 65535, 0)), Maneuver::TurnRight);
    assert_eq!(choose_maneuver(&reading(0, 300, 0)), Maneuver::TurnRight);
}

#[test]
fn right_beats_front() {
    assert_eq!(choose_maneuver(&reading(7, 0, 7)), Maneuver::TurnLeft);
    assert_eq!(choose_maneuver(&reading(0, 0, 1)), Maneuver::TurnLeft);
}

#[test]
fn left_beats_right_and_front() {
    assert_eq!(choose_maneuver(&reading(7, 7, 7)), Maneuver::TurnRight);
    assert_eq!(choose_maneuver(&reading(0, 7, 7)), Maneuver::TurnRight);
    assert_eq!(choose_maneuver(&reading(7, 7, 0)), Maneuver::TurnRight);
}

#[test]
fn front_alone_turns_right() {
    assert_eq!(choose_maneuver(&reading(5, 0, 0)), Maneuver::TurnRight);
    assert_eq!(choose_maneuver(&reading(65535, 0, 0)), Maneuver::TurnRight);
}

#[test]
fn all_zero_goes_forward() {
    assert_eq!(choose_maneuver(&reading(0, 0, 0)), Maneuver::GoForward);
}

#[test]
fn policy_over_every_pattern_of_zero_and_nonzero() {
    for front in [0u16, 1, 65535] {
        for left in [0u16, 1, 65535] {
            for right in [0u16, 1, 65535] {
                let expected = if left > 0 {
                    Maneuver::TurnRight
                } else if right > 0 {
                    Maneuver::TurnLeft
                } else if front > 0 {
                    Maneuver::TurnRight
                } else {
                    Maneuver::GoForward
                };
                assert_eq!(choose_maneuver(&reading(front, left, right)), expected);
            }
        }
    }
}

#[test]
fn no_hysteresis_between_iterations() {
    let mut control = running(3250, 3000);
    let first = control.step(&reading(0, 0, 0)).unwrap();
    assert_eq!(first.0, Maneuver::GoForward);
    assert_eq!(mirror(&control), [3250, 0, 3000, 0]);
    let second = control.step(&reading(5, 0, 0)).unwrap();
    assert_eq!(second.0, Maneuver::TurnRight);
    assert_eq!(mirror(&control), [3250, 0, 0, 3000]);
    let third = control.step(&reading(0, 0, 0)).unwrap();
    assert_eq!(third.0, Maneuver::GoForward);
    assert_eq!(mirror(&control), [3250, 0, 3000, 0]);
}

#[test]
fn the_state_after_a_step_depends_on_its_reading_alone() {
    let last = reading(0, 0, 9);
    let mut direct = running(3250, 3000);
    direct.step(&last);
    for earlier in [reading(0, 0, 0), reading(5, 0, 0), reading(0, 5, 0), reading(1, 1, 1)] {
        let mut control = running(3250, 3000);
        control.step(&earlier);
        let issued = control.step(&last).unwrap();
        assert_eq!(issued.0, Maneuver::TurnLeft);
        assert_eq!(mirror(&control), mirror(&direct));
    }
}

#[test]
fn a_new_loop_is_idle_and_at_rest() {
    let control = ControlLoop::new(6400, 3200, false);
    assert_eq!(control.state(), RobotState::Idle);
    assert_eq!(mirror(&control), [0, 0, 0, 0]);
    assert_eq!(control.motors().max_duty(Side::Right), 6400);
    assert_eq!(control.motors().max_duty(Side::Left), 3200);
    assert!(!control.gate().is_waiting());
    assert!(!control.gate().level());
}

#[test]
fn an_idle_loop_issues_nothing() {
    let mut control = ControlLoop::new(6400, 6400, false);
    assert!(control.step(&reading(0, 5, 0)).is_none());
    assert!(control.set_speeds(3250, 3000).is_none());
    assert_eq!(control.state(), RobotState::Idle);
    assert_eq!(mirror(&control), [0, 0, 0, 0]);
    assert_eq!(control.motors().speed(Side::Left), 0);
    assert_eq!(control.motors().speed(Side::Right), 0);
}

#[test]
fn an_edge_without_a_wait_starts_nothing() {
    let mut control = ControlLoop::new(6400, 6400, false);
    assert!(control.observe(true).is_none());
    assert!(control.observe(false).is_none());
    assert_eq!(control.state(), RobotState::Idle);
}

#[test]
fn one_edge_starts_the_loop() {
    let mut control = ControlLoop::new(6400, 6400, false);
    control.wait();
    assert!(control.gate().is_waiting());
    let writes = control.observe(true).unwrap();
    assert_eq!(
        writes,
        [
            write(Side::Left, Direction::Reverse, 0),
            write(Side::Left, Direction::Forward, 0),
            write(Side::Right, Direction::Reverse, 0),
            write(Side::Right, Direction::Forward, 0),
        ]
    );
    assert_eq!(control.state(), RobotState::Running);
    assert!(!control.gate().is_waiting());
    let speeds = control.set_speeds(3250, 3000).unwrap();
    assert_eq!(
        speeds,
        [
            write(Side::Left, Direction::Reverse, 0),
            write(Side::Left, Direction::Forward, 3250),
            write(Side::Right, Direction::Reverse, 0),
            write(Side::Right, Direction::Forward, 3000),
        ]
    );
    assert_eq!(mirror(&control), [3250, 0, 3000, 0]);
}

#[test]
fn set_speeds_clamps_to_each_timer() {
    let mut control = ControlLoop::new(1000, 2000, false);
    control.wait();
    control.observe(true);
    let speeds = control.set_speeds(3250, 3000).unwrap();
    assert_eq!(speeds[1].duty, 2000);
    assert_eq!(speeds[3].duty, 1000);
    assert_eq!(mirror(&control), [2000, 0, 1000, 0]);
}

#[test]
fn a_step_returns_the_writes_of_its_maneuver() {
    let mut control = running(3250, 3000);
    let (maneuver, writes) = control.step(&reading(0, 1, 0)).unwrap();
    assert_eq!(maneuver, Maneuver::TurnRight);
    assert_eq!(
        writes,
        [
            write(Side::Left, Direction::Reverse, 0),
            write(Side::Left, Direction::Forward, 3250),
            write(Side::Right, Direction::Forward, 0),
            write(Side::Right, Direction::Reverse, 3000),
        ]
    );
    let (maneuver, writes) = control.step(&reading(7, 0, 7)).unwrap();
    assert_eq!(maneuver, Maneuver::TurnLeft);
    assert_eq!(
        writes,
        [
            write(Side::Left, Direction::Forward, 0),
            write(Side::Left, Direction::Reverse, 3250),
            write(Side::Right, Direction::Reverse, 0),
            write(Side::Right, Direction::Forward, 3000),
        ]
    );
}

#[test]
fn a_second_edge_stops_the_loop_and_zeroes_the_duty() {
    let mut control = running(3250, 3000);
    control.step(&reading(0, 1, 0));
    assert_eq!(mirror(&control), [3250, 0, 0, 3000]);
    // the input is still high and nobody waits: nothing happens
    assert!(control.observe(true).is_none());
    control.wait();
    assert!(control.observe(true).is_none());
    assert!(control.observe(false).is_none());
    assert_eq!(control.state(), RobotState::Running);
    let writes = control.observe(true).unwrap();
    assert_eq!(
        writes,
        [
            write(Side::Left, Direction::Reverse, 0),
            write(Side::Left, Direction::Forward, 0),
            write(Side::Right, Direction::Reverse, 0),
            write(Side::Right, Direction::Forward, 0),
        ]
    );
    assert_eq!(control.state(), RobotState::Idle);
    assert_eq!(mirror(&control), [0, 0, 0, 0]);
    assert!(control.step(&reading(0, 1, 0)).is_none());
    assert_eq!(mirror(&control), [0, 0, 0, 0]);
}

#[test]
fn a_restart_goes_forward_at_the_stored_speeds() {
    let mut control = running(3250, 3000);
    control.wait();
    control.observe(false);
    control.observe(true);
    assert_eq!(control.state(), RobotState::Idle);
    control.wait();
    control.observe(false);
    let writes = control.observe(true).unwrap();
    assert_eq!(control.state(), RobotState::Running);
    assert_eq!(writes[1], write(Side::Left, Direction::Forward, 3250));
    assert_eq!(writes[3], write(Side::Right, Direction::Forward, 3000));
    assert_eq!(mirror(&control), [3250, 0, 3000, 0]);
}

#[test]
fn idle_always_means_zero_duty() {
    let mut control = ControlLoop::new(6400, 6400, true);
    let readings = [reading(0, 0, 0), reading(0, 3, 0), reading(0, 0, 3), reading(3, 0, 0)];
    let levels = [true, false, true, true, false, false, true, false, true, true, false, true];
    for (i, level) in levels.iter().enumerate() {
        if i % 2 == 0 {
            control.wait();
        }
        control.observe(*level);
        control.set_speeds(3250, 3000);
        control.step(&readings[i % 4]);
        if control.state() == RobotState::Idle {
            assert_eq!(mirror(&control), [0, 0, 0, 0]);
        }
    }
}
