//! Reflectance sensing: the seven detectors behind one analog converter, the
//! aggregated reading, and the sequence of steps that makes up one strobed
//! sample pass.
//!
//! The array never touches a pin or the converter itself. It tells its caller
//! which step comes next, and is told when the step is done; the caller owns
//! the emitter lines and the converter and performs each step.

use vstd::prelude::*;

verus! {

/// Number of emitter lines, all switched together.
pub const EMITTER_COUNT: usize = 6;

/// Number of detector channels behind the converter.
pub const DETECTOR_COUNT: usize = 7;

/// A detector channel. The two far channels are sampled for diagnostics only.
#[derive(Clone, Copy, Debug, PartialEq, Eq, Structural)]
pub enum Detector {
    Front,
    LeftFar,
    LeftNear1,
    LeftNear2,
    RightFar,
    RightNear1,
    RightNear2,
}

impl Detector {
    /// The detector converted after this one in a pass; `None` after the last.
    pub open spec fn next(self) -> Option<Detector> {
        match self {
            Detector::Front => Some(Detector::LeftFar),
            Detector::LeftFar => Some(Detector::LeftNear1),
            Detector::LeftNear1 => Some(Detector::LeftNear2),
            Detector::LeftNear2 => Some(Detector::RightFar),
            Detector::RightFar => Some(Detector::RightNear1),
            Detector::RightNear1 => Some(Detector::RightNear2),
            Detector::RightNear2 => None,
        }
    }

    /// The detector converted after this one in a pass.
    pub fn following(self) -> (after: Option<Detector>)
        ensures
            after == self.next(),
    {
        match self {
            Detector::Front => Some(Detector::LeftFar),
            Detector::LeftFar => Some(Detector::LeftNear1),
            Detector::LeftNear1 => Some(Detector::LeftNear2),
            Detector::LeftNear2 => Some(Detector::RightFar),
            Detector::RightFar => Some(Detector::RightNear1),
            Detector::RightNear1 => Some(Detector::RightNear2),
            Detector::RightNear2 => None,
        }
    }
}

/// The raw value of each detector channel.
#[derive(Clone, Copy, Debug, PartialEq, Eq, Structural)]
pub struct RawSamples {
    pub front: u16,
    pub left_far: u16,
    pub left_near_1: u16,
    pub left_near_2: u16,
    pub right_far: u16,
    pub right_near_1: u16,
    pub right_near_2: u16,
}

impl RawSamples {
    /// All channels zero.
    pub open spec fn zero() -> RawSamples {
        RawSamples {
            front: 0,
            left_far: 0,
            left_near_1: 0,
            left_near_2: 0,
            right_far: 0,
            right_near_1: 0,
            right_near_2: 0,
        }
    }

    /// The samples with one channel replaced.
    pub open spec fn with(self, detector: Detector, value: u16) -> RawSamples {
        match detector {
            Detector::Front => RawSamples { front: value, ..self },
            Detector::LeftFar => RawSamples { left_far: value, ..self },
            Detector::LeftNear1 => RawSamples { left_near_1: value, ..self },
            Detector::LeftNear2 => RawSamples { left_near_2: value, ..self },
            Detector::RightFar => RawSamples { right_far: value, ..self },
            Detector::RightNear1 => RawSamples { right_near_1: value, ..self },
            Detector::RightNear2 => RawSamples { right_near_2: value, ..self },
        }
    }

    /// Replaces the value of one channel.
    pub fn record(&mut self, detector: Detector, value: u16)
        ensures
            *final(self) == old(self).with(detector, value),
    {
        match detector {
            Detector::Front => self.front = value,
            Detector::LeftFar => self.left_far = value,
            Detector::LeftNear1 => self.left_near_1 = value,
            Detector::LeftNear2 => self.left_near_2 = value,
            Detector::RightFar => self.right_far = value,
            Detector::RightNear1 => self.right_near_1 = value,
            Detector::RightNear2 => self.right_near_2 = value,
        }
    }
}

/// Truncating integer average of two raw samples.
pub open spec fn average(a: u16, b: u16) -> u16 {
    ((a + b) / 2) as u16
}

/// Computes the truncating average of two samples. The sum is formed in a
/// wider type, so no pair of samples overflows.
pub fn average_of(a: u16, b: u16) -> (mean: u16)
    ensures
        mean == average(a, b),
        mean == (a + b) / 2,
{
    let sum: u32 = a as u32 + b as u32;
    (sum / 2) as u16
}

/// The aggregated reading that steering works on.
#[derive(Clone, Copy, Debug, PartialEq, Eq, Structural)]
pub struct SensorReadings {
    pub front: u16,
    pub left: u16,
    pub right: u16,
}

impl SensorReadings {
    /// The reading that a set of raw samples aggregates to: the front channel
    /// as it is, each side as the average of its two near channels. The far
    /// channels do not enter.
    pub open spec fn of(raw: RawSamples) -> SensorReadings {
        SensorReadings {
            front: raw.front,
            left: average(raw.left_near_1, raw.left_near_2),
            right: average(raw.right_near_1, raw.right_near_2),
        }
    }

    /// Aggregates a set of raw samples.
    pub fn from_raw(raw: &RawSamples) -> (reading: SensorReadings)
        ensures
            reading == SensorReadings::of(*raw),
            reading.front == raw.front,
            reading.left == (raw.left_near_1 + raw.left_near_2) / 2,
            reading.right == (raw.right_near_1 + raw.right_near_2) / 2,
    {
        SensorReadings {
            front: raw.front,
            left: average_of(raw.left_near_1, raw.left_near_2),
            right: average_of(raw.right_near_1, raw.right_near_2),
        }
    }
}

/// Where a sample pass stands.
#[derive(Clone, Copy, Debug, PartialEq, Eq, Structural)]
pub enum SamplePhase {
    /// No pass is in flight; the emitters are off.
    Idle,
    /// The emitters were asked to switch on.
    Lighting,
    /// The emitters are on and the conversion of this detector is in flight.
    Converting(Detector),
    /// All detectors are converted and the emitters were asked to switch off.
    Dimming,
}

/// What the caller reports to the array.
#[derive(Clone, Copy, Debug, PartialEq, Eq, Structural)]
pub enum SampleEvent {
    /// A reading is wanted.
    Request,
    /// The emitters were switched as asked.
    EmittersSwitched,
    /// The conversion that was asked for completed with this value.
    Converted(u16),
}

/// What the array asks its caller to do next.
#[derive(Clone, Copy, Debug, PartialEq, Eq, Structural)]
pub enum SampleAction {
    /// Drive all emitter lines high (`true`) or low (`false`), then report
    /// `EmittersSwitched`.
    SwitchEmitters(bool),
    /// Run one blocking conversion of this detector, then report `Converted`.
    Convert(Detector),
    /// The pass is complete; this is its reading.
    Deliver(SensorReadings),
    /// The event does not fit the state of the pass. Nothing has changed.
    Refuse,
}

/// Mathematical model of the sensor array: the phase of the pass and the raw
/// values converted most recently.
pub struct SamplerState {
    pub phase: SamplePhase,
    pub raw: RawSamples,
}

impl SamplerState {
    /// No pass in flight and all raw values zero.
    pub open spec fn initial() -> SamplerState {
        SamplerState { phase: SamplePhase::Idle, raw: RawSamples::zero() }
    }

    /// A pass is in flight.
    pub open spec fn busy(self) -> bool {
        !(self.phase is Idle)
    }

    /// The emitters are known to be on: they were reported switched on and
    /// have not been reported switched off since.
    pub open spec fn emitters_lit(self) -> bool {
        self.phase is Converting || self.phase is Dimming
    }

    /// The conversion in flight, if any. There is never more than one.
    pub open spec fn in_flight(self) -> Option<Detector> {
        match self.phase {
            SamplePhase::Converting(detector) => Some(detector),
            _ => None,
        }
    }

    /// The state that follows and the action asked for, by state and event.
    pub open spec fn react(self, event: SampleEvent) -> (SamplerState, SampleAction) {
        match (self.phase, event) {
            (SamplePhase::Idle, SampleEvent::Request) => (
                SamplerState { phase: SamplePhase::Lighting, ..self },
                SampleAction::SwitchEmitters(true),
            ),
            (SamplePhase::Lighting, SampleEvent::EmittersSwitched) => (
                SamplerState { phase: SamplePhase::Converting(Detector::Front), ..self },
                SampleAction::Convert(Detector::Front),
            ),
            (SamplePhase::Converting(detector), SampleEvent::Converted(value)) => {
                let raw = self.raw.with(detector, value);
                match detector.next() {
                    Some(after) => (
                        SamplerState { phase: SamplePhase::Converting(after), raw },
                        SampleAction::Convert(after),
                    ),
                    None => (
                        SamplerState { phase: SamplePhase::Dimming, raw },
                        SampleAction::SwitchEmitters(false),
                    ),
                }
            },
            (SamplePhase::Dimming, SampleEvent::EmittersSwitched) => (
                SamplerState { phase: SamplePhase::Idle, ..self },
                SampleAction::Deliver(SensorReadings::of(self.raw)),
            ),
            _ => (self, SampleAction::Refuse),
        }
    }

    /// The state reached and the actions asked for, in order, when the events
    /// are reported one after the other.
    pub open spec fn run(self, events: Seq<SampleEvent>) -> (SamplerState, Seq<SampleAction>)
        decreases events.len(),
    {
        if events.len() == 0 {
            (self, Seq::empty())
        } else {
            let before = self.run(events.drop_last());
            let last = before.0.react(events.last());
            (last.0, before.1.push(last.1))
        }
    }

    /// The events of one complete pass in which the conversions give `raw`.
    pub open spec fn pass_events(raw: RawSamples) -> Seq<SampleEvent> {
        seq![
            SampleEvent::Request,
            SampleEvent::EmittersSwitched,
            SampleEvent::Converted(raw.front),
            SampleEvent::Converted(raw.left_far),
            SampleEvent::Converted(raw.left_near_1),
            SampleEvent::Converted(raw.left_near_2),
            SampleEvent::Converted(raw.right_far),
            SampleEvent::Converted(raw.right_near_1),
            SampleEvent::Converted(raw.right_near_2),
            SampleEvent::EmittersSwitched,
        ]
    }

    /// The actions of one complete pass in which the conversions give `raw`:
    /// emitters on, the seven conversions in their fixed order, emitters off,
    /// and the reading.
    pub open spec fn pass_actions(raw: RawSamples) -> Seq<SampleAction> {
        seq![
            SampleAction::SwitchEmitters(true),
            SampleAction::Convert(Detector::Front),
            SampleAction::Convert(Detector::LeftFar),
            SampleAction::Convert(Detector::LeftNear1),
            SampleAction::Convert(Detector::LeftNear2),
            SampleAction::Convert(Detector::RightFar),
            SampleAction::Convert(Detector::RightNear1),
            SampleAction::Convert(Detector::RightNear2),
            SampleAction::SwitchEmitters(false),
            SampleAction::Deliver(SensorReadings::of(raw)),
        ]
    }
}

/// Reporting one more event extends the run of the events before it.
proof fn lemma_run_next(s: SamplerState, events: Seq<SampleEvent>, k: int)
    requires
        0 <= k < events.len(),
    ensures
        s.run(events.take(k + 1)).0 == s.run(events.take(k)).0.react(events[k]).0,
        s.run(events.take(k + 1)).1 == s.run(events.take(k)).1.push(
            s.run(events.take(k)).0.react(events[k]).1,
        ),
{
    assert(events.take(k + 1).drop_last() =~= events.take(k));
}

/// One complete pass from rest: whatever the array held before, it asks for
/// emitters on, the seven conversions in their fixed order and emitters off,
/// delivers the reading of exactly the values converted in this pass, and is
/// at rest again holding those values.
pub proof fn lemma_full_pass(s: SamplerState, raw: RawSamples)
    requires
        !s.busy(),
    ensures
        s.run(SamplerState::pass_events(raw)).0 == (SamplerState { phase: SamplePhase::Idle, raw }),
        s.run(SamplerState::pass_events(raw)).1 == SamplerState::pass_actions(raw),
{
    let events = SamplerState::pass_events(raw);
    assert(events.take(0) =~= Seq::<SampleEvent>::empty());
    lemma_run_next(s, events, 0);
    lemma_run_next(s, events, 1);
    lemma_run_next(s, events, 2);
    lemma_run_next(s, events, 3);
    lemma_run_next(s, events, 4);
    lemma_run_next(s, events, 5);
    lemma_run_next(s, events, 6);
    lemma_run_next(s, events, 7);
    lemma_run_next(s, events, 8);
    lemma_run_next(s, events, 9);
    assert(events.take(10) =~= events);
    assert(s.run(events).1 =~= SamplerState::pass_actions(raw));
}

/// A request that arrives while a pass is in flight is refused and leaves
/// the pass as it is: two passes never interleave.
pub proof fn lemma_request_while_busy_is_refused(s: SamplerState)
    requires
        s.busy(),
    ensures
        s.react(SampleEvent::Request) == (s, SampleAction::Refuse),
{
}

/// A conversion is asked for only with the emitters on, one at a time, and
/// the array is then waiting for exactly that conversion. A reading is
/// delivered only by the event that ends a pass, with the emitters off.
pub proof fn lemma_strobe_discipline(s: SamplerState, event: SampleEvent)
    ensures
        s.react(event).1 matches SampleAction::Convert(detector) ==> {
            &&& s.react(event).0.emitters_lit()
            &&& s.react(event).0.in_flight() == Some(detector)
        },
        s.react(event).1 is Deliver ==> {
            &&& s.phase is Dimming
            &&& !s.react(event).0.busy()
            &&& !s.react(event).0.emitters_lit()
        },
        !s.busy() ==> !s.emitters_lit(),
{
}

/// The sensor array. It sequences the sample passes and keeps the raw values
/// of the last conversions.
pub struct Diodes {
    phase: SamplePhase,
    raw: RawSamples,
}

impl View for Diodes {
    type V = SamplerState;

    closed spec fn view(&self) -> SamplerState {
        SamplerState { phase: self.phase, raw: self.raw }
    }
}

impl Diodes {
    /// An array at rest.
    pub fn new() -> (diodes: Self)
        ensures
            diodes@ == SamplerState::initial(),
    {
        Diodes {
            phase: SamplePhase::Idle,
            raw: RawSamples {
                front: 0,
                left_far: 0,
                left_near_1: 0,
                left_near_2: 0,
                right_far: 0,
                right_near_1: 0,
                right_near_2: 0,
            },
        }
    }

    /// Where the pass stands.
    pub fn phase(&self) -> (phase: SamplePhase)
        ensures
            phase == self@.phase,
    {
        self.phase
    }

    /// The raw value converted most recently on each of the seven channels,
    /// the far ones included.
    pub fn raw(&self) -> (raw: RawSamples)
        ensures
            raw == self@.raw,
    {
        self.raw
    }

    /// Takes the report of what has happened and says what to do next.
    pub fn step(&mut self, event: SampleEvent) -> (action: SampleAction)
        ensures
            (final(self)@, action) == old(self)@.react(event),
    {
        match (self.phase, event) {
            (SamplePhase::Idle, SampleEvent::Request) => {
                self.phase = SamplePhase::Lighting;
                SampleAction::SwitchEmitters(true)
            },
            (SamplePhase::Lighting, SampleEvent::EmittersSwitched) => {
                self.phase = SamplePhase::Converting(Detector::Front);
                SampleAction::Convert(Detector::Front)
            },
            (SamplePhase::Converting(detector), SampleEvent::Converted(value)) => {
                self.raw.record(detector, value);
                match detector.following() {
                    Some(after) => {
                        self.phase = SamplePhase::Converting(after);
                        SampleAction::Convert(after)
                    },
                    None => {
                        self.phase = SamplePhase::Dimming;
                        SampleAction::SwitchEmitters(false)
                    },
                }
            },
            (SamplePhase::Dimming, SampleEvent::EmittersSwitched) => {
                self.phase = SamplePhase::Idle;
                SampleAction::Deliver(SensorReadings::from_raw(&self.raw))
            },
            _ => SampleAction::Refuse,
        }
    }
}

} // verus!
