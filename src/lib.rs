//! Keeps an amplifier's power and input in step with a network streamer.
//!
//! The decision policy is a state machine (`controller`) that a driver runs:
//! it performs each `Action` the controller hands out and feeds back the
//! matching `Event`.
pub mod protocol;
pub mod status;
pub mod controller;
pub mod laws;
