//! The start/stop gate: a caller waits on it, and one rising edge of the
//! monitored input releases that wait and toggles the robot between idle and
//! running.
//!
//! A gate is fed the level of the input. How the caller comes by the level
//! (a poll, an interrupt, an await) is its own business; an edge that was
//! signalled as such is fed as a low level followed by a high one.

use vstd::prelude::*;

verus! {

/// Whether the robot is driving.
#[derive(Clone, Copy, Debug, PartialEq, Eq, Structural)]
pub enum RobotState {
    Idle,
    Running,
}

impl RobotState {
    /// The other state.
    pub open spec fn toggled(self) -> RobotState {
        match self {
            RobotState::Idle => RobotState::Running,
            RobotState::Running => RobotState::Idle,
        }
    }
}

/// Mathematical model of a gate: the level last seen on the input, whether
/// a wait is pending, and the robot state that it toggles.
pub struct GateState {
    pub level: bool,
    pub waiting: bool,
    pub robot: RobotState,
}

impl GateState {
    /// A gate on an input at `level`, with no wait pending and the robot idle.
    pub open spec fn initial(level: bool) -> GateState {
        GateState { level, waiting: false, robot: RobotState::Idle }
    }

    /// This gate with a wait pending.
    pub open spec fn wait(self) -> GateState {
        GateState { waiting: true, ..self }
    }

    /// Seeing `level` next releases the pending wait: a wait is pending and
    /// the input rises from low to high.
    pub open spec fn releases(self, level: bool) -> bool {
        self.waiting && !self.level && level
    }

    /// This gate after it has seen `level`. A release consumes the pending
    /// wait and toggles the robot state; nothing else changes either.
    pub open spec fn observe(self, level: bool) -> GateState {
        if self.releases(level) {
            GateState { level, waiting: false, robot: self.robot.toggled() }
        } else {
            GateState { level, ..self }
        }
    }

    /// This gate after it has seen the levels in order, with no new wait made
    /// in between.
    pub open spec fn observe_all(self, levels: Seq<bool>) -> GateState
        decreases levels.len(),
    {
        if levels.len() == 0 {
            self
        } else {
            self.observe_all(levels.drop_last()).observe(levels.last())
        }
    }

    /// How many times this gate releases while it sees the levels in order,
    /// with no new wait made in between.
    pub open spec fn releases_in(self, levels: Seq<bool>) -> nat
        decreases levels.len(),
    {
        if levels.len() == 0 {
            0
        } else {
            let before = self.observe_all(levels.drop_last());
            self.releases_in(levels.drop_last()) + if before.releases(levels.last()) {
                1nat
            } else {
                0nat
            }
        }
    }
}

/// One rising edge releases the pending wait exactly once: the edge releases
/// it and toggles the robot state, and then no level releases anything until
/// a new wait is made. If the caller waits again while the input is still
/// high, that level releases nothing: a gate reacts to edges, not levels.
pub proof fn lemma_edge_releases_once(g: GateState, next: bool)
    requires
        g.waiting,
        !g.level,
    ensures
        g.releases(true),
        g.observe(true).robot == g.robot.toggled(),
        !g.observe(true).waiting,
        !g.observe(true).releases(next),
        !g.observe(true).wait().releases(true),
{
}

/// Whatever levels follow, one wait is released at most once, and without a
/// pending wait nothing is released and the robot state stays as it is.
pub proof fn lemma_one_wait_one_release(g: GateState, levels: Seq<bool>)
    ensures
        g.releases_in(levels) <= 1,
        !g.waiting ==> g.releases_in(levels) == 0,
        !g.waiting ==> g.observe_all(levels).robot == g.robot,
        g.releases_in(levels) == 1 ==> !g.observe_all(levels).waiting,
        g.releases_in(levels) == 1 ==> g.observe_all(levels).robot == g.robot.toggled(),
        g.releases_in(levels) == 0 ==> g.observe_all(levels).waiting == g.waiting,
        g.releases_in(levels) == 0 ==> g.observe_all(levels).robot == g.robot,
    decreases levels.len(),
{
    if levels.len() > 0 {
        lemma_one_wait_one_release(g, levels.drop_last());
    }
}

/// The start/stop gate.
#[derive(Clone, Copy, Debug)]
pub struct StartStopGate {
    level: bool,
    waiting: bool,
    robot: RobotState,
}

impl View for StartStopGate {
    type V = GateState;

    closed spec fn view(&self) -> GateState {
        GateState { level: self.level, waiting: self.waiting, robot: self.robot }
    }
}

impl StartStopGate {
    /// A gate on an input that is at `level`, with no wait pending and the
    /// robot idle.
    pub fn new(level: bool) -> (gate: Self)
        ensures
            gate@ == GateState::initial(level),
    {
        StartStopGate { level, waiting: false, robot: RobotState::Idle }
    }

    /// The robot state that this gate has toggled to.
    pub fn state(&self) -> (robot: RobotState)
        ensures
            robot == self@.robot,
    {
        self.robot
    }

    /// The level last seen on the input.
    pub fn level(&self) -> (level: bool)
        ensures
            level == self@.level,
    {
        self.level
    }

    /// Whether a wait is pending.
    pub fn is_waiting(&self) -> (waiting: bool)
        ensures
            waiting == self@.waiting,
    {
        self.waiting
    }

    /// Registers the caller's wait. It stays pending until the next rising
    /// edge.
    pub fn wait(&mut self)
        ensures
            final(self)@ == old(self)@.wait(),
    {
        self.waiting = true;
    }

    /// Feeds this gate the level of the input. Returns whether this releases
    /// the pending wait.
    pub fn observe(&mut self, level: bool) -> (released: bool)
        ensures
            released == old(self)@.releases(level),
            final(self)@ == old(self)@.observe(level),
    {
        let released = self.waiting && !self.level && level;
        self.level = level;
        if released {
            self.waiting = false;
            self.robot = match self.robot {
                RobotState::Idle => RobotState::Running,
                RobotState::Running => RobotState::Idle,
            };
        }
        released
    }
}

} // verus!
