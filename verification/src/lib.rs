//! A minimal game-loop skeleton: a frame driver that owns the run/quit flag,
//! a fullscreen flag, and the frame-timing counters used to report frames per
//! second once per second.
//!
//! The driver itself is pure state-machine logic: the surrounding program
//! polls input events and reads the millisecond tick counter, and hands both
//! to the driver as plain values.

pub mod event;
pub mod driver;
pub mod laws;
