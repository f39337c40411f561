//! The control loop: the steering policy that turns a reading into one
//! maneuver, gated by the start/stop gate.
//!
//! One iteration takes one reading and issues at most one maneuver. Nothing
//! is remembered from one iteration to the next, so a single reading can flip
//! the maneuver at once.

use crate::gate::{GateState, RobotState, StartStopGate};
use crate::motors::{
    drive_writes, lemma_both_sides, Direction, DutyWrite, Maneuver, MotorDriver, MotorState, Side,
};
use crate::sensors::SensorReadings;
use vstd::prelude::*;

verus! {

/// The steering policy, in strict order of priority: anything on the left
/// turns right; else anything on the right turns left; else anything in
/// front turns right; else straight on.
pub open spec fn steer(reading: SensorReadings) -> Maneuver {
    if reading.left > 0 {
        Maneuver::TurnRight
    } else if reading.right > 0 {
        Maneuver::TurnLeft
    } else if reading.front > 0 {
        Maneuver::TurnRight
    } else {
        Maneuver::GoForward
    }
}

/// Chooses the maneuver for a reading.
pub fn choose_maneuver(reading: &SensorReadings) -> (maneuver: Maneuver)
    ensures
        maneuver == steer(*reading),
{
    if reading.left > 0 {
        Maneuver::TurnRight
    } else if reading.right > 0 {
        Maneuver::TurnLeft
    } else if reading.front > 0 {
        Maneuver::TurnRight
    } else {
        Maneuver::GoForward
    }
}

/// The policy looks only at which channels are nonzero, never at how large
/// they are: two readings that agree on that select the same maneuver.
pub proof fn lemma_steering_ignores_magnitude(a: SensorReadings, b: SensorReadings)
    requires
        (a.left > 0) == (b.left > 0),
        (a.right > 0) == (b.right > 0),
        (a.front > 0) == (b.front > 0),
    ensures
        steer(a) == steer(b),
{
}

/// The order of priority: left before right before front.
pub proof fn lemma_steering_priority(reading: SensorReadings)
    ensures
        reading.left > 0 ==> steer(reading) == Maneuver::TurnRight,
        reading.left == 0 && reading.right > 0 ==> steer(reading) == Maneuver::TurnLeft,
        reading.left == 0 && reading.right == 0 && reading.front > 0 ==> steer(reading)
            == Maneuver::TurnRight,
        reading.left == 0 && reading.right == 0 && reading.front == 0 ==> steer(reading)
            == Maneuver::GoForward,
{
}

/// Mathematical model of the control loop: its gate and its motor drive.
pub struct ControlState {
    pub gate: GateState,
    pub motors: MotorState,
}

impl ControlState {
    /// An idle loop with the drive at rest.
    pub open spec fn initial(max_right: u16, max_left: u16, level: bool) -> ControlState {
        ControlState {
            gate: GateState::initial(level),
            motors: MotorState::initial(max_right, max_left),
        }
    }

    /// The robot is running.
    pub open spec fn running(self) -> bool {
        self.gate.robot is Running
    }

    /// Validity: the drive is valid, and while the robot is idle no channel
    /// carries any duty.
    pub open spec fn wf(self) -> bool {
        &&& self.motors.wf()
        &&& !self.running() ==> self.motors.at_rest()
    }

    /// The loop with a wait pending on its gate.
    pub open spec fn wait(self) -> ControlState {
        ControlState { gate: self.gate.wait(), ..self }
    }

    /// The loop after its gate has seen `level`. A release that starts the
    /// robot sends it forward at the stored speeds; one that stops it brings
    /// the drive to rest.
    pub open spec fn observe(self, level: bool) -> ControlState {
        let gate = self.gate.observe(level);
        if !self.gate.releases(level) {
            ControlState { gate, ..self }
        } else if gate.robot is Running {
            ControlState { gate, motors: self.motors.go_forward() }
        } else {
            ControlState { gate, motors: self.motors.stop() }
        }
    }

    /// The writes that a release asks for.
    pub open spec fn release_plan(self) -> Seq<DutyWrite> {
        if self.running() {
            MotorState::stop_plan()
        } else {
            self.motors.plan(Maneuver::GoForward)
        }
    }

    /// The loop after both speeds are set. An idle loop stays as it is.
    pub open spec fn set_speeds(self, left: u16, right: u16) -> ControlState {
        if self.running() {
            ControlState {
                motors: self.motors.set_left_speed(left).set_right_speed(right),
                ..self
            }
        } else {
            self
        }
    }

    /// The writes that set both speeds: the left side first, then the right.
    pub open spec fn speed_plan(self, left: u16, right: u16) -> Seq<DutyWrite> {
        drive_writes(
            Side::Left,
            Direction::Forward,
            MotorState::clamp(left, self.motors.max_left),
        ) + drive_writes(
            Side::Right,
            Direction::Forward,
            MotorState::clamp(right, self.motors.max_right),
        )
    }

    /// The loop after one iteration on `reading`. An idle loop stays as it
    /// is.
    pub open spec fn step(self, reading: SensorReadings) -> ControlState {
        if self.running() {
            ControlState { motors: self.motors.perform(steer(reading)), ..self }
        } else {
            self
        }
    }
}

/// Every transition of a valid loop gives a valid loop. In particular, an
/// idle robot never has duty on any channel.
pub proof fn lemma_idle_stays_at_rest(
    c: ControlState,
    level: bool,
    left: u16,
    right: u16,
    reading: SensorReadings,
)
    requires
        c.wf(),
    ensures
        c.wait().wf(),
        c.observe(level).wf(),
        c.set_speeds(left, right).wf(),
        c.step(reading).wf(),
{
}

/// The robot state changes only when its gate releases: setting speeds,
/// iterating and waiting leave it alone, and so does a level that releases
/// nothing.
pub proof fn lemma_only_a_release_toggles(
    c: ControlState,
    level: bool,
    left: u16,
    right: u16,
    reading: SensorReadings,
)
    ensures
        c.wait().gate.robot == c.gate.robot,
        c.set_speeds(left, right).gate == c.gate,
        c.step(reading).gate == c.gate,
        c.observe(level).gate.robot == if c.gate.releases(level) {
            c.gate.robot.toggled()
        } else {
            c.gate.robot
        },
{
}

/// No hysteresis: the state after an iteration depends on the reading of
/// that iteration alone, not on the readings before it.
pub proof fn lemma_no_hysteresis(c: ControlState, earlier: SensorReadings, reading: SensorReadings)
    ensures
        c.step(earlier).step(reading) == c.step(reading),
{
}

/// The control loop of the robot, owner of its gate and of its motor drive.
pub struct ControlLoop {
    gate: StartStopGate,
    motors: MotorDriver,
}

impl View for ControlLoop {
    type V = ControlState;

    closed spec fn view(&self) -> ControlState {
        ControlState { gate: self.gate@, motors: self.motors@ }
    }
}

impl ControlLoop {
    /// Every loop is valid at all times.
    #[verifier::type_invariant]
    pub open spec fn inv(self) -> bool {
        self@.wf()
    }

    /// An idle loop for two timers with the given maximum duties and a gate
    /// on an input that is at `level`.
    pub fn new(max_duty_r: u16, max_duty_l: u16, level: bool) -> (control: Self)
        ensures
            control@ == ControlState::initial(max_duty_r, max_duty_l, level),
    {
        ControlLoop {
            gate: StartStopGate::new(level),
            motors: MotorDriver::new(max_duty_r, max_duty_l),
        }
    }

    /// Whether the robot is idle or running.
    pub fn state(&self) -> (robot: RobotState)
        ensures
            robot == self@.gate.robot,
    {
        self.gate.state()
    }

    /// This loop's gate as it stands.
    pub fn gate(&self) -> (gate: StartStopGate)
        ensures
            gate@ == self@.gate,
    {
        self.gate
    }

    /// The motor drive as it stands.
    pub fn motors(&self) -> (motors: MotorDriver)
        ensures
            motors@ == self@.motors,
    {
        self.motors
    }

    /// Registers a wait on this loop's gate.
    pub fn wait(&mut self)
        ensures
            final(self)@ == old(self)@.wait(),
    {
        proof {
            use_type_invariant(&*self);
        }
        let mut gate = self.gate;
        gate.wait();
        *self = ControlLoop { gate, motors: self.motors };
    }

    /// Feeds this loop's gate the level of its input. On a release the robot state
    /// toggles and the writes that start or stop the drive are returned.
    pub fn observe(&mut self, level: bool) -> (writes: Option<[DutyWrite; 4]>)
        ensures
            final(self)@ == old(self)@.observe(level),
            match writes {
                Some(plan) => {
                    &&& old(self)@.gate.releases(level)
                    &&& plan@ == old(self)@.release_plan()
                    &&& old(self)@.motors.apply(plan@) == final(self)@.motors
                    &&& old(self)@.motors.exclusive_throughout(plan@)
                },
                None => !old(self)@.gate.releases(level),
            },
    {
        proof {
            use_type_invariant(&*self);
            use_type_invariant(&self.motors);
        }
        let mut gate = self.gate;
        let mut motors = self.motors;
        let was = gate.state();
        let released = gate.observe(level);
        if released {
            let plan = match was {
                RobotState::Idle => motors.go_forward(),
                RobotState::Running => motors.stop(),
            };
            *self = ControlLoop { gate, motors };
            Some(plan)
        } else {
            *self = ControlLoop { gate, motors };
            None
        }
    }

    /// Sets both speeds while the robot is running and returns the writes
    /// that apply them. While it is idle nothing changes.
    pub fn set_speeds(&mut self, left: u16, right: u16) -> (writes: Option<[DutyWrite; 4]>)
        ensures
            final(self)@ == old(self)@.set_speeds(left, right),
            match writes {
                Some(plan) => {
                    &&& old(self)@.running()
                    &&& plan@ == old(self)@.speed_plan(left, right)
                    &&& old(self)@.motors.apply(plan@).same_duties(final(self)@.motors)
                    &&& old(self)@.motors.exclusive_throughout(plan@)
                },
                None => !old(self)@.running(),
            },
    {
        proof {
            use_type_invariant(&*self);
            use_type_invariant(&self.motors);
            lemma_both_sides(
                self@.motors,
                Direction::Forward,
                MotorState::clamp(left, self@.motors.max_left),
                Direction::Forward,
                MotorState::clamp(right, self@.motors.max_right),
            );
        }
        match self.gate.state() {
            RobotState::Idle => None,
            RobotState::Running => {
                let mut motors = self.motors;
                let l = motors.set_left_speed(left);
                let r = motors.set_right_speed(right);
                *self = ControlLoop { gate: self.gate, motors };
                let plan = [l[0], l[1], r[0], r[1]];
                assert(plan@ =~= l@ + r@);
                Some(plan)
            },
        }
    }

    /// One iteration: while the robot is running, chooses the maneuver for
    /// `reading`, performs it and returns it with its writes. While it is
    /// idle nothing changes.
    pub fn step(&mut self, reading: &SensorReadings) -> (issued: Option<(Maneuver, [DutyWrite; 4])>)
        ensures
            final(self)@ == old(self)@.step(*reading),
            match issued {
                Some((maneuver, plan)) => {
                    &&& old(self)@.running()
                    &&& maneuver == steer(*reading)
                    &&& plan@ == old(self)@.motors.plan(maneuver)
                    &&& old(self)@.motors.apply(plan@) == final(self)@.motors
                    &&& old(self)@.motors.exclusive_throughout(plan@)
                },
                None => !old(self)@.running(),
            },
    {
        proof {
            use_type_invariant(&*self);
            use_type_invariant(&self.motors);
        }
        match self.gate.state() {
            RobotState::Idle => None,
            RobotState::Running => {
                let maneuver = choose_maneuver(reading);
                let mut motors = self.motors;
                let plan = motors.perform(maneuver);
                *self = ControlLoop { gate: self.gate, motors };
                Some((maneuver, plan))
            },
        }
    }
}

} // verus!
