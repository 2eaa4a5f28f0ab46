//! The crossfade phase machine that drives transitions between tracks.
//!
//! The timing data of a fade (start instant, duration, frozen gains) is
//! audio-rate state kept by the host beside the phase; the phase itself says
//! which track is coming in and whether the display already shows it.

use vstd::prelude::*;
use std::sync::Arc;
use std::sync::atomic::{AtomicU32, Ordering};

verus! {

/// Lifecycle of a crossfade between the current and the next track.
#[derive(PartialEq, Eq, Structural, Debug, Clone, Copy)]
pub enum CrossfadePhase {
    /// No crossfade activity at all.
    Idle,
    /// The next track is being decoded (ring buffer filling).
    Preparing { next_index: usize },
    /// Both tracks are mixing in the output callback.
    Fading {
        next_index: usize,
        /// Whether the display already switched to the incoming track.
        ui_switched: bool,
    },
    /// The user paused while a crossfade was active; gains are frozen.
    PausedFading { next_index: usize },
}

impl CrossfadePhase {
    /// Whether a crossfade is mixing or paused mid-fade.
    pub open spec fn spec_is_active(self) -> bool {
        self is Fading || self is PausedFading
    }

    /// The incoming track's index, if one has been prepared.
    pub open spec fn spec_next_index(self) -> Option<usize> {
        match self {
            CrossfadePhase::Idle => None,
            CrossfadePhase::Preparing { next_index } => Some(next_index),
            CrossfadePhase::Fading { next_index, .. } => Some(next_index),
            CrossfadePhase::PausedFading { next_index } => Some(next_index),
        }
    }

    /// Returns `true` while a crossfade is mixing (or paused mid-fade).
    pub fn is_active(&self) -> (r: bool)
        ensures
            r == self.spec_is_active(),
    {
        match self {
            CrossfadePhase::Fading { .. } => true,
            CrossfadePhase::PausedFading { .. } => true,
            _ => false,
        }
    }

    /// Returns `true` if a next track has been prepared (decoding or mixing).
    pub fn has_prepared(&self) -> (r: bool)
        ensures
            r == !(*self is Idle),
    {
        match self {
            CrossfadePhase::Idle => false,
            _ => true,
        }
    }

    /// The playlist index of the incoming track, if one has been prepared.
    pub fn next_index(&self) -> (r: Option<usize>)
        ensures
            r == self.spec_next_index(),
    {
        match self {
            CrossfadePhase::Idle => None,
            CrossfadePhase::Preparing { next_index } => Some(*next_index),
            CrossfadePhase::Fading { next_index, .. } => Some(*next_index),
            CrossfadePhase::PausedFading { next_index } => Some(*next_index),
        }
    }
}

/// Resets the micro-fade frame counter (call when a crossfade starts).
///
/// The counter is shared with the audio output callback, which advances it
/// once per frame; the reset stores zero with sequentially consistent
/// ordering. What the callback stores afterwards is up to it.
pub fn reset_micro_fade(counter: &Arc<AtomicU32>) {
    counter.store(0, Ordering::SeqCst);
}

/// The counter value after frame `cur` of a micro-fade of `total` frames:
/// one more until the fade is complete, after which it stays (`None`: no
/// store).
pub fn micro_fade_step(cur: u32, total: u32) -> (next: Option<u32>)
    ensures
        next == (if cur < total { Some((cur + 1) as u32) } else { None::<u32> }),
{
    if cur < total {
        Some(cur + 1)
    } else {
        None
    }
}

/// Advances the micro-fade counter by one frame and returns the frame index
/// it held, from which the caller derives the fade-in multiplier. The
/// counter is shared with other threads, so nothing is stated of the value
/// read; what is stored follows [`micro_fade_step`] from it.
pub fn advance_micro_fade_index(counter: &Arc<AtomicU32>, total: u32) -> (cur: u32) {
    let cur = counter.load(Ordering::Relaxed);
    match micro_fade_step(cur, total) {
        Some(next) => counter.store(next, Ordering::Relaxed),
        None => {},
    }
    cur
}
} // verus!
