//! Differential motor drive: two sides, each with a forward and a reverse PWM
//! channel, and the duty assignments that realise speeds and maneuvers.
//!
//! The driver keeps a mirror of the duty carried by each of the four channels
//! and hands every change back as an ordered list of channel writes. Whoever
//! owns the timers performs the writes in that order.

use vstd::prelude::*;

verus! {

/// Carrier frequency of all four PWM outputs, in hertz.
pub const PWM_CARRIER_HZ: u32 = 10_000;

/// One of the two drive sides.
#[derive(Clone, Copy, Debug, PartialEq, Eq, Structural)]
pub enum Side {
    Left,
    Right,
}

/// One of the two complementary channels of a drive side.
#[derive(Clone, Copy, Debug, PartialEq, Eq, Structural)]
pub enum Direction {
    Forward,
    Reverse,
}

impl Direction {
    /// The other channel of the same side.
    pub open spec fn opposite(self) -> Direction {
        match self {
            Direction::Forward => Direction::Reverse,
            Direction::Reverse => Direction::Forward,
        }
    }
}

/// A duty value to be written to one PWM channel.
#[derive(Clone, Copy, Debug, PartialEq, Eq, Structural)]
pub struct DutyWrite {
    pub side: Side,
    pub direction: Direction,
    pub duty: u16,
}

/// A discrete steering command.
#[derive(Clone, Copy, Debug, PartialEq, Eq, Structural)]
pub enum Maneuver {
    GoForward,
    TurnLeft,
    TurnRight,
}

/// Duty carried by the two channels of one side.
#[derive(Clone, Copy, Debug, PartialEq, Eq, Structural)]
pub struct SideDuty {
    pub forward: u16,
    pub reverse: u16,
}

impl SideDuty {
    /// At most one of the two channels carries a nonzero duty.
    pub open spec fn exclusive(self) -> bool {
        self.forward == 0 || self.reverse == 0
    }

    /// No channel carries more than `max`.
    pub open spec fn within(self, max: u16) -> bool {
        self.forward <= max && self.reverse <= max
    }

    /// The side after `duty` is written to its `direction` channel.
    pub open spec fn write(self, direction: Direction, duty: u16) -> SideDuty {
        match direction {
            Direction::Forward => SideDuty { forward: duty, reverse: self.reverse },
            Direction::Reverse => SideDuty { forward: self.forward, reverse: duty },
        }
    }

    /// The side driven through `direction` at `duty`, the other channel at rest.
    pub open spec fn driven(direction: Direction, duty: u16) -> SideDuty {
        match direction {
            Direction::Forward => SideDuty { forward: duty, reverse: 0 },
            Direction::Reverse => SideDuty { forward: 0, reverse: duty },
        }
    }
}

/// Mathematical model of the motor drive: the two timers' maximum duties, the
/// stored speed of each side, and the duty on each of the four channels.
pub struct MotorState {
    pub max_left: u16,
    pub max_right: u16,
    pub speed_left: u16,
    pub speed_right: u16,
    pub left: SideDuty,
    pub right: SideDuty,
}

/// The two writes that drive `side` through `direction` at `duty`: the opposite
/// channel is brought to rest first, then the driven channel is set.
pub open spec fn drive_writes(side: Side, direction: Direction, duty: u16) -> Seq<DutyWrite> {
    seq![
        DutyWrite { side, direction: direction.opposite(), duty: 0 },
        DutyWrite { side, direction, duty },
    ]
}

impl MotorState {
    /// A drive at rest with both speeds zero.
    pub open spec fn initial(max_right: u16, max_left: u16) -> MotorState {
        MotorState {
            max_left,
            max_right,
            speed_left: 0,
            speed_right: 0,
            left: SideDuty { forward: 0, reverse: 0 },
            right: SideDuty { forward: 0, reverse: 0 },
        }
    }

    /// On each side at most one channel carries a nonzero duty.
    pub open spec fn exclusive(self) -> bool {
        self.left.exclusive() && self.right.exclusive()
    }

    /// All four channels carry zero duty.
    pub open spec fn at_rest(self) -> bool {
        &&& self.left.forward == 0
        &&& self.left.reverse == 0
        &&& self.right.forward == 0
        &&& self.right.reverse == 0
    }

    /// Validity: speeds and duties stay within their own timer's maximum, and
    /// no side is driven in both directions at once.
    pub open spec fn wf(self) -> bool {
        &&& self.speed_left <= self.max_left
        &&& self.speed_right <= self.max_right
        &&& self.left.within(self.max_left)
        &&& self.right.within(self.max_right)
        &&& self.exclusive()
    }

    /// The two drives carry the same duty on each of the four channels.
    pub open spec fn same_duties(self, other: MotorState) -> bool {
        self.left == other.left && self.right == other.right
    }

    /// Duty carried by one channel.
    pub open spec fn duty(self, side: Side, direction: Direction) -> u16 {
        match (side, direction) {
            (Side::Left, Direction::Forward) => self.left.forward,
            (Side::Left, Direction::Reverse) => self.left.reverse,
            (Side::Right, Direction::Forward) => self.right.forward,
            (Side::Right, Direction::Reverse) => self.right.reverse,
        }
    }

    /// The stored speed of one side.
    pub open spec fn speed(self, side: Side) -> u16 {
        match side {
            Side::Left => self.speed_left,
            Side::Right => self.speed_right,
        }
    }

    /// The maximum duty of one side's timer.
    pub open spec fn max_duty(self, side: Side) -> u16 {
        match side {
            Side::Left => self.max_left,
            Side::Right => self.max_right,
        }
    }

    /// The state after a single channel write.
    pub open spec fn write(self, w: DutyWrite) -> MotorState {
        match w.side {
            Side::Left => MotorState { left: self.left.write(w.direction, w.duty), ..self },
            Side::Right => MotorState { right: self.right.write(w.direction, w.duty), ..self },
        }
    }

    /// The state after the writes have been performed in order.
    pub open spec fn apply(self, writes: Seq<DutyWrite>) -> MotorState
        decreases writes.len(),
    {
        if writes.len() == 0 {
            self
        } else {
            self.apply(writes.drop_last()).write(writes.last())
        }
    }

    /// No side is driven in both directions at any instant while the writes
    /// are performed one after the other.
    pub open spec fn exclusive_throughout(self, writes: Seq<DutyWrite>) -> bool {
        forall|k: int|
            0 <= k <= writes.len() ==> (#[trigger] self.apply(writes.take(k))).exclusive()
    }

    /// The state with one side driven through `direction` at `duty` and that
    /// side's other channel at rest.
    pub open spec fn drive_side(self, side: Side, direction: Direction, duty: u16) -> MotorState {
        match side {
            Side::Left => MotorState { left: SideDuty::driven(direction, duty), ..self },
            Side::Right => MotorState { right: SideDuty::driven(direction, duty), ..self },
        }
    }

    /// A requested duty, limited to the timer's maximum.
    pub open spec fn clamp(duty: u16, max: u16) -> u16 {
        if duty <= max {
            duty
        } else {
            max
        }
    }

    /// Stores the clamped speed of the left side and drives that side forward
    /// at it.
    pub open spec fn set_left_speed(self, speed: u16) -> MotorState {
        let stored = Self::clamp(speed, self.max_left);
        MotorState {
            speed_left: stored,
            left: SideDuty::driven(Direction::Forward, stored),
            ..self
        }
    }

    /// Stores the clamped speed of the right side and drives that side forward
    /// at it.
    pub open spec fn set_right_speed(self, speed: u16) -> MotorState {
        let stored = Self::clamp(speed, self.max_right);
        MotorState {
            speed_right: stored,
            right: SideDuty::driven(Direction::Forward, stored),
            ..self
        }
    }

    /// Each side driven through the given channel at its stored speed.
    pub open spec fn drive(self, left: Direction, right: Direction) -> MotorState {
        MotorState {
            left: SideDuty::driven(left, self.speed_left),
            right: SideDuty::driven(right, self.speed_right),
            ..self
        }
    }

    /// The writes that realise `drive`: the left side first, then the right.
    pub open spec fn drive_plan(self, left: Direction, right: Direction) -> Seq<DutyWrite> {
        drive_writes(Side::Left, left, self.speed_left) + drive_writes(
            Side::Right,
            right,
            self.speed_right,
        )
    }

    /// Both sides forward at their stored speeds.
    pub open spec fn go_forward(self) -> MotorState {
        self.drive(Direction::Forward, Direction::Forward)
    }

    /// Pivot to the left: left side reversed, right side forward.
    pub open spec fn turn_left(self) -> MotorState {
        self.drive(Direction::Reverse, Direction::Forward)
    }

    /// Pivot to the right: left side forward, right side reversed.
    pub open spec fn turn_right(self) -> MotorState {
        self.drive(Direction::Forward, Direction::Reverse)
    }

    /// All four channels at rest; the stored speeds are kept.
    pub open spec fn stop(self) -> MotorState {
        MotorState {
            left: SideDuty { forward: 0, reverse: 0 },
            right: SideDuty { forward: 0, reverse: 0 },
            ..self
        }
    }

    /// The writes that realise `stop`.
    pub open spec fn stop_plan() -> Seq<DutyWrite> {
        drive_writes(Side::Left, Direction::Forward, 0) + drive_writes(
            Side::Right,
            Direction::Forward,
            0,
        )
    }

    /// The channel through which each side is driven in a maneuver, left
    /// side first.
    pub open spec fn directions(maneuver: Maneuver) -> (Direction, Direction) {
        match maneuver {
            Maneuver::GoForward => (Direction::Forward, Direction::Forward),
            Maneuver::TurnLeft => (Direction::Reverse, Direction::Forward),
            Maneuver::TurnRight => (Direction::Forward, Direction::Reverse),
        }
    }

    /// The state after a maneuver.
    pub open spec fn perform(self, maneuver: Maneuver) -> MotorState {
        match maneuver {
            Maneuver::GoForward => self.go_forward(),
            Maneuver::TurnLeft => self.turn_left(),
            Maneuver::TurnRight => self.turn_right(),
        }
    }

    /// The writes that realise a maneuver.
    pub open spec fn plan(self, maneuver: Maneuver) -> Seq<DutyWrite> {
        self.drive_plan(Self::directions(maneuver).0, Self::directions(maneuver).1)
    }
}

/// Performing one more write extends the state reached by the writes before it.
proof fn lemma_apply_next(s: MotorState, writes: Seq<DutyWrite>, k: int)
    requires
        0 <= k < writes.len(),
    ensures
        s.apply(writes.take(k + 1)) == s.apply(writes.take(k)).write(writes[k]),
{
    assert(writes.take(k + 1).drop_last() =~= writes.take(k));
}

/// Performing two lists of writes one after the other is performing their
/// concatenation.
proof fn lemma_apply_concat(s: MotorState, first: Seq<DutyWrite>, second: Seq<DutyWrite>)
    ensures
        s.apply(first + second) == s.apply(first).apply(second),
    decreases second.len(),
{
    if second.len() == 0 {
        assert(first + second =~= first);
    } else {
        lemma_apply_concat(s, first, second.drop_last());
        assert((first + second).drop_last() =~= first + second.drop_last());
    }
}

/// Two lists of writes that each keep the sides exclusive do so together.
proof fn lemma_exclusive_concat(s: MotorState, first: Seq<DutyWrite>, second: Seq<DutyWrite>)
    requires
        s.exclusive_throughout(first),
        s.apply(first).exclusive_throughout(second),
    ensures
        s.exclusive_throughout(first + second),
{
    let all = first + second;
    assert forall|k: int| 0 <= k <= all.len() implies (#[trigger] s.apply(
        all.take(k),
    )).exclusive() by {
        if k <= first.len() {
            assert(all.take(k) =~= first.take(k));
        } else {
            let j = k - first.len();
            assert(all.take(k) =~= first + second.take(j));
            lemma_apply_concat(s, first, second.take(j));
            assert(s.apply(first).apply(second.take(j)).exclusive());
        }
    }
}

/// Driving one side through one channel takes two writes. They lead to the
/// state with that side driven, and after each of them no side is driven in
/// both directions.
pub proof fn lemma_side_drive(s: MotorState, side: Side, direction: Direction, duty: u16)
    requires
        s.exclusive(),
    ensures
        s.apply(drive_writes(side, direction, duty)) == s.drive_side(side, direction, duty),
        s.exclusive_throughout(drive_writes(side, direction, duty)),
{
    let writes = drive_writes(side, direction, duty);
    assert(writes.take(0) =~= Seq::<DutyWrite>::empty());
    assert(writes.take(2) =~= writes);
    lemma_apply_next(s, writes, 0);
    lemma_apply_next(s, writes, 1);
    assert forall|k: int| 0 <= k <= writes.len() implies (#[trigger] s.apply(
        writes.take(k),
    )).exclusive() by {
        assert(k == 0 || k == 1 || k == 2);
    }
}

/// Driving the left side and then the right takes four writes. They lead to
/// the state with both sides driven, and after each of them no side is driven
/// in both directions.
pub proof fn lemma_both_sides(
    s: MotorState,
    left: Direction,
    left_duty: u16,
    right: Direction,
    right_duty: u16,
)
    requires
        s.exclusive(),
    ensures
        s.apply(
            drive_writes(Side::Left, left, left_duty) + drive_writes(
                Side::Right,
                right,
                right_duty,
            ),
        ) == s.drive_side(Side::Left, left, left_duty).drive_side(Side::Right, right, right_duty),
        s.exclusive_throughout(
            drive_writes(Side::Left, left, left_duty) + drive_writes(
                Side::Right,
                right,
                right_duty,
            ),
        ),
{
    let first = drive_writes(Side::Left, left, left_duty);
    let second = drive_writes(Side::Right, right, right_duty);
    lemma_side_drive(s, Side::Left, left, left_duty);
    lemma_side_drive(s.apply(first), Side::Right, right, right_duty);
    lemma_apply_concat(s, first, second);
    lemma_exclusive_concat(s, first, second);
}

/// The four writes that stop the drive lead to the state at rest, and after
/// each of them no side is driven in both directions.
pub proof fn lemma_stop_plan(s: MotorState)
    requires
        s.exclusive(),
    ensures
        s.apply(MotorState::stop_plan()) == s.stop(),
        s.exclusive_throughout(MotorState::stop_plan()),
{
    lemma_both_sides(s, Direction::Forward, 0, Direction::Forward, 0);
}

/// After every maneuver the drive is valid, so on each side at most one
/// channel carries a nonzero duty; the stored speeds are what they were.
pub proof fn lemma_maneuver_keeps_sides_exclusive(s: MotorState, maneuver: Maneuver)
    requires
        s.wf(),
    ensures
        s.perform(maneuver).wf(),
        s.perform(maneuver).exclusive(),
        s.perform(maneuver).speed_left == s.speed_left,
        s.perform(maneuver).speed_right == s.speed_right,
{
}

/// Setting a speed and stopping keep the drive valid too. A speed is stored
/// as asked for when it is within the timer's maximum, and as the maximum
/// when it is not.
pub proof fn lemma_speed_and_stop_keep_valid(s: MotorState, speed: u16)
    requires
        s.wf(),
    ensures
        s.set_left_speed(speed).wf(),
        s.set_right_speed(speed).wf(),
        s.stop().wf(),
        s.stop().at_rest(),
        speed <= s.max_left ==> s.set_left_speed(speed).speed_left == speed,
        speed > s.max_left ==> s.set_left_speed(speed).speed_left == s.max_left,
        speed <= s.max_right ==> s.set_right_speed(speed).speed_right == speed,
        speed > s.max_right ==> s.set_right_speed(speed).speed_right == s.max_right,
{
}

/// While the writes of a maneuver are performed one by one, no side is
/// driven in both directions at any instant, and they end in the state that
/// the maneuver asks for.
pub proof fn lemma_maneuver_never_overlaps(s: MotorState, maneuver: Maneuver)
    requires
        s.wf(),
    ensures
        s.exclusive_throughout(s.plan(maneuver)),
        s.apply(s.plan(maneuver)) == s.perform(maneuver),
{
    lemma_both_sides(
        s,
        MotorState::directions(maneuver).0,
        s.speed_left,
        MotorState::directions(maneuver).1,
        s.speed_right,
    );
}

/// A left speed within the timer's maximum, followed by going forward, puts
/// exactly that duty on the left forward channel and none on the left
/// reverse channel.
pub proof fn lemma_left_speed_then_forward(s: MotorState, duty: u16)
    requires
        s.wf(),
        duty <= s.max_left,
    ensures
        s.set_left_speed(duty).go_forward().left.forward == duty,
        s.set_left_speed(duty).go_forward().left.reverse == 0,
{
}

/// A right speed within the timer's maximum, followed by going forward, puts
/// exactly that duty on the right forward channel and none on the right
/// reverse channel.
pub proof fn lemma_right_speed_then_forward(s: MotorState, duty: u16)
    requires
        s.wf(),
        duty <= s.max_right,
    ensures
        s.set_right_speed(duty).go_forward().right.forward == duty,
        s.set_right_speed(duty).go_forward().right.reverse == 0,
{
}

/// The motor drive of the robot: the stored speed of each side and a mirror
/// of the duty on each of the four PWM channels.
#[derive(Clone, Copy, Debug)]
pub struct MotorDriver {
    max_r: u16,
    max_l: u16,
    speed_r: u16,
    speed_l: u16,
    left: SideDuty,
    right: SideDuty,
}

impl View for MotorDriver {
    type V = MotorState;

    closed spec fn view(&self) -> MotorState {
        MotorState {
            max_left: self.max_l,
            max_right: self.max_r,
            speed_left: self.speed_l,
            speed_right: self.speed_r,
            left: self.left,
            right: self.right,
        }
    }
}

/// The side with one channel driven and the other at rest.
fn driven(direction: Direction, duty: u16) -> (side: SideDuty)
    ensures
        side == SideDuty::driven(direction, duty),
{
    match direction {
        Direction::Forward => SideDuty { forward: duty, reverse: 0 },
        Direction::Reverse => SideDuty { forward: 0, reverse: duty },
    }
}

/// The two writes that drive one side through one channel.
fn side_writes(side: Side, direction: Direction, duty: u16) -> (writes: [DutyWrite; 2])
    ensures
        writes@ == drive_writes(side, direction, duty),
{
    let other = match direction {
        Direction::Forward => Direction::Reverse,
        Direction::Reverse => Direction::Forward,
    };
    let writes = [
        DutyWrite { side, direction: other, duty: 0 },
        DutyWrite { side, direction, duty },
    ];
    assert(writes@ =~= drive_writes(side, direction, duty));
    writes
}

/// The four writes that drive first the left and then the right side.
fn both_writes(left: (Direction, u16), right: (Direction, u16)) -> (writes: [DutyWrite; 4])
    ensures
        writes@ == drive_writes(Side::Left, left.0, left.1) + drive_writes(
            Side::Right,
            right.0,
            right.1,
        ),
{
    let l = side_writes(Side::Left, left.0, left.1);
    let r = side_writes(Side::Right, right.0, right.1);
    let writes = [l[0], l[1], r[0], r[1]];
    assert(writes@ =~= l@ + r@);
    writes
}

impl MotorDriver {
    /// Every driver is valid at all times.
    #[verifier::type_invariant]
    pub open spec fn inv(self) -> bool {
        self@.wf()
    }

    /// A driver for two timers with the given maximum duties, at rest and
    /// with both speeds zero.
    pub fn new(max_duty_r: u16, max_duty_l: u16) -> (driver: Self)
        ensures
            driver@ == MotorState::initial(max_duty_r, max_duty_l),
    {
        MotorDriver {
            max_r: max_duty_r,
            max_l: max_duty_l,
            speed_r: 0,
            speed_l: 0,
            left: SideDuty { forward: 0, reverse: 0 },
            right: SideDuty { forward: 0, reverse: 0 },
        }
    }

    /// Stores `speed`, clamped to the right timer's maximum duty, and drives
    /// the right side forward at it. The writes bring the right reverse
    /// channel to rest and then set the right forward channel.
    pub fn set_right_speed(&mut self, speed: u16) -> (writes: [DutyWrite; 2])
        ensures
            final(self)@ == old(self)@.set_right_speed(speed),
            writes@ == drive_writes(Side::Right, Direction::Forward, final(self)@.speed_right),
            final(self)@.exclusive(),
            old(self)@.apply(writes@).same_duties(final(self)@),
            old(self)@.exclusive_throughout(writes@),
    {
        proof {
            use_type_invariant(&*self);
            lemma_side_drive(
                self@,
                Side::Right,
                Direction::Forward,
                MotorState::clamp(speed, self@.max_right),
            );
        }
        let stored = if speed <= self.max_r {
            speed
        } else {
            self.max_r
        };
        *self = MotorDriver { speed_r: stored, right: driven(Direction::Forward, stored), ..*self };
        side_writes(Side::Right, Direction::Forward, stored)
    }

    /// Stores `speed`, clamped to the left timer's maximum duty, and drives
    /// the left side forward at it. The writes bring the left reverse channel
    /// to rest and then set the left forward channel.
    pub fn set_left_speed(&mut self, speed: u16) -> (writes: [DutyWrite; 2])
        ensures
            final(self)@ == old(self)@.set_left_speed(speed),
            writes@ == drive_writes(Side::Left, Direction::Forward, final(self)@.speed_left),
            final(self)@.exclusive(),
            old(self)@.apply(writes@).same_duties(final(self)@),
            old(self)@.exclusive_throughout(writes@),
    {
        proof {
            use_type_invariant(&*self);
            lemma_side_drive(
                self@,
                Side::Left,
                Direction::Forward,
                MotorState::clamp(speed, self@.max_left),
            );
        }
        let stored = if speed <= self.max_l {
            speed
        } else {
            self.max_l
        };
        *self = MotorDriver { speed_l: stored, left: driven(Direction::Forward, stored), ..*self };
        side_writes(Side::Left, Direction::Forward, stored)
    }

    /// Drives each side through the given channel at its stored speed.
    fn drive(&mut self, left: Direction, right: Direction) -> (writes: [DutyWrite; 4])
        ensures
            final(self)@ == old(self)@.drive(left, right),
            writes@ == old(self)@.drive_plan(left, right),
            old(self)@.apply(writes@) == final(self)@,
            old(self)@.exclusive_throughout(writes@),
    {
        proof {
            use_type_invariant(&*self);
            lemma_both_sides(self@, left, self@.speed_left, right, self@.speed_right);
        }
        *self = MotorDriver {
            left: driven(left, self.speed_l),
            right: driven(right, self.speed_r),
            ..*self
        };
        both_writes((left, self.speed_l), (right, self.speed_r))
    }

    /// Drives both sides forward at their stored speeds.
    pub fn go_forward(&mut self) -> (writes: [DutyWrite; 4])
        ensures
            final(self)@ == old(self)@.go_forward(),
            writes@ == old(self)@.plan(Maneuver::GoForward),
            final(self)@.exclusive(),
            old(self)@.apply(writes@) == final(self)@,
            old(self)@.exclusive_throughout(writes@),
    {
        self.drive(Direction::Forward, Direction::Forward)
    }

    /// Pivots to the left: the left side runs in reverse at the left speed,
    /// the right side forward at the right speed.
    pub fn turn_left(&mut self) -> (writes: [DutyWrite; 4])
        ensures
            final(self)@ == old(self)@.turn_left(),
            writes@ == old(self)@.plan(Maneuver::TurnLeft),
            final(self)@.exclusive(),
            old(self)@.apply(writes@) == final(self)@,
            old(self)@.exclusive_throughout(writes@),
    {
        self.drive(Direction::Reverse, Direction::Forward)
    }

    /// Pivots to the right, as the mirror image of `turn_left`: the right
    /// side runs in reverse at the right speed, the left side forward at the
    /// left speed. Each side keeps its own speed; the two are never crossed
    /// over, because each is bounded by its own timer's maximum duty and the
    /// maxima of the two timers may differ.
    pub fn turn_right(&mut self) -> (writes: [DutyWrite; 4])
        ensures
            final(self)@ == old(self)@.turn_right(),
            writes@ == old(self)@.plan(Maneuver::TurnRight),
            final(self)@.exclusive(),
            old(self)@.apply(writes@) == final(self)@,
            old(self)@.exclusive_throughout(writes@),
    {
        self.drive(Direction::Forward, Direction::Reverse)
    }

    /// Performs the given maneuver.
    pub fn perform(&mut self, maneuver: Maneuver) -> (writes: [DutyWrite; 4])
        ensures
            final(self)@ == old(self)@.perform(maneuver),
            writes@ == old(self)@.plan(maneuver),
            final(self)@.exclusive(),
            old(self)@.apply(writes@) == final(self)@,
            old(self)@.exclusive_throughout(writes@),
    {
        match maneuver {
            Maneuver::GoForward => self.go_forward(),
            Maneuver::TurnLeft => self.turn_left(),
            Maneuver::TurnRight => self.turn_right(),
        }
    }

    /// The duty that the mirror holds for one channel.
    pub fn duty(&self, side: Side, direction: Direction) -> (duty: u16)
        ensures
            duty == self@.duty(side, direction),
    {
        match (side, direction) {
            (Side::Left, Direction::Forward) => self.left.forward,
            (Side::Left, Direction::Reverse) => self.left.reverse,
            (Side::Right, Direction::Forward) => self.right.forward,
            (Side::Right, Direction::Reverse) => self.right.reverse,
        }
    }

    /// The stored speed of one side.
    pub fn speed(&self, side: Side) -> (speed: u16)
        ensures
            speed == self@.speed(side),
            speed <= self@.max_duty(side),
    {
        proof {
            use_type_invariant(self);
        }
        match side {
            Side::Left => self.speed_l,
            Side::Right => self.speed_r,
        }
    }

    /// The maximum duty of one side's timer.
    pub fn max_duty(&self, side: Side) -> (max: u16)
        ensures
            max == self@.max_duty(side),
    {
        match side {
            Side::Left => self.max_l,
            Side::Right => self.max_r,
        }
    }

    /// Brings all four channels to rest and keeps the stored speeds.
    pub fn stop(&mut self) -> (writes: [DutyWrite; 4])
        ensures
            final(self)@ == old(self)@.stop(),
            writes@ == MotorState::stop_plan(),
            final(self)@.at_rest(),
            old(self)@.apply(writes@) == final(self)@,
            old(self)@.exclusive_throughout(writes@),
    {
        proof {
            use_type_invariant(&*self);
            lemma_stop_plan(self@);
        }
        *self = MotorDriver {
            left: SideDuty { forward: 0, reverse: 0 },
            right: SideDuty { forward: 0, reverse: 0 },
            ..*self
        };
        both_writes((Direction::Forward, 0), (Direction::Forward, 0))
    }
}

} // verus!
