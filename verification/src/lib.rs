//! Control core of a line-following differential-drive robot.
//!
//! The robot follows a reflective line with infrared reflectance sensing and
//! starts and stops on a button press. This crate holds what it decides and
//! computes, free of any peripheral:
//!
//! - [`sensors`]: the strobed sample pass over the seven detectors and the
//!   reading it aggregates to;
//! - [`motors`]: the differential drive, its speeds and maneuvers, as ordered
//!   duty writes to four PWM channels;
//! - [`control`]: the steering policy and the loop that applies it;
//! - [`gate`]: the start/stop gate on the button's rising edge;
//! - [`telemetry`]: the cadence of the diagnostic emitter strobe.
//!
//! Every type with state has a mathematical model as its view, and every
//! operation is specified as a transition of that model. Whoever owns the
//! pins, the timers and the converter performs the steps that the core asks
//! for and reports back what came of them.

pub mod control;
pub mod gate;
pub mod motors;
pub mod sensors;
pub mod telemetry;
