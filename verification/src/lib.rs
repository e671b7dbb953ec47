//! A verified model of a terminal music player's audio engine.
//!
//! The engine turns queued audio sources into one continuous stream of
//! samples: a streaming queue with gapless track-to-track continuation, a
//! mixer that sums concurrent streams with clipping, a playback sink with
//! volume, speed, pause and seek control, and a player orchestrating
//! track handoff, seek stepping and progress reporting.  A command-handling
//! entry point serves the remote-control surface, and a small display model
//! tracks what the progress bar shows.
//!
//! Samples are integers at a fixed full-scale amplitude, and time is counted
//! in whole time-units, so every rule of the engine is stated and proved
//! exactly.

use vstd::prelude::*;

pub mod conversions;
pub mod mixer;
pub mod mpris;
pub mod player;
pub mod progress;
pub mod queue;
pub mod sink;
pub mod source;
pub mod strutil;

verus! {

/// Full-scale amplitude of a sample in the engine's internal format.
pub const AMP_MAX: i64 = 32767;

/// A sample sequence stays within the engine's amplitude range.
pub open spec fn samples_bounded(s: Seq<i64>) -> bool {
    forall|i: int| 0 <= i < s.len() ==> -(AMP_MAX as int) <= #[trigger] s[i] <= AMP_MAX as int
}

/// Clamp a summed sample back into the engine's amplitude range
/// (the mixer's soft clipping).
pub open spec fn clamp_amp(v: int) -> int {
    if v > AMP_MAX as int {
        AMP_MAX as int
    } else if v < -(AMP_MAX as int) {
        -(AMP_MAX as int)
    } else {
        v
    }
}

} // verus!
