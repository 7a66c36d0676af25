//! Controller communication and feedback animation for motion-sensing wands.
//!
//! The crate holds the byte-exact report codec, the calibration arithmetic,
//! the feedback pacing, the bookkeeping of connected wands and the keyframe
//! animation engine. It performs no input or output: callers read and write
//! the device and hand the bytes over.
//!
//! * [`controller::proto`] frames and reads the fixed-size reports.
//! * [`controller::hid`] says which devices of the system are wands.
//! * [`controller`] keeps one connected wand: its calibration, its latest
//!   reading and the feedback that it is asked to show.
//! * [`engine::animation`] moves values along queues of keyframes.
//! * [`engine::players`] keeps the register of connected wands and drives
//!   their update tick by tick.
//!
//! All arithmetic is exact. Readings are fractions of two integers
//! ([`ratio::Ratio`]), time is counted in nanoseconds, and an instant is the
//! time since an origin that the caller picks.

pub mod controller;
pub mod engine;
pub mod ratio;
