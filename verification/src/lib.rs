//! Verified real-time presentation layer for a handheld-console emulation
//! core: a bounded audio sample queue with a lossy backpressure policy, a
//! bounds-checked frame buffer, an append-only serial log, level-sampled
//! button state, and the frame pacing controller that drives one emulation
//! step per iteration and sleeps the remainder of each frame interval.

pub mod audio;
pub mod input;
pub mod pacing;
pub mod serial;
pub mod video;
