//! Core of a terminal audio player: a parametric equalizer built from
//! cascaded biquad sections, a playback queue with loop modes, a sample
//! position tracker, a buffered sample source, and the engine state machine
//! that drives them.
//!
//! All audio quantities (samples, gains, frequencies, seconds) are carried
//! as Q20 fixed-point integers; the unverified shell converts to and from
//! the floating-point world of the audio device at the boundary.

use vstd::prelude::*;

pub mod fixed;
pub mod eq;
pub mod biquad;
pub mod equalizer;
pub mod metadata;
pub mod queue;
pub mod commands;
pub mod position;
pub mod dsp_node;
pub mod source;
pub mod engine;
pub mod browser;
pub mod tui_state;
pub mod tui_routes;
pub mod logger;
mod rng;
mod channel;

verus! {

/// Prepare the audio engine subsystem (nothing to do ahead of
/// `EngineCore::new`; kept as the library's initialization hook).
pub fn init_engine() {
}

/// Prepare the logging subsystem (the shell owns the actual backend).
pub fn init_logger() {
}

/// Initialize the library: logging first, then the engine subsystem.
pub fn init() -> (r: Result<(), String>)
    ensures r is Ok,
{
    init_logger();
    init_engine();
    Ok(())
}

} // verus!
