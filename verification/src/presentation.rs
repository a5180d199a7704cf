//! Presentation-time public types.
use vstd::prelude::*;
use std::time::Duration;
use crate::output::OutputId;

verus! {

/// Compositor clock domain that presentation timestamps live in (the
/// POSIX `CLOCK_*` id reported by `wp_presentation.clock_id`).
#[derive(Debug, Clone, Copy, PartialEq, Eq, Structural)]
pub struct PresentationClock {
    /// Raw `clock_gettime(2)` clock id.
    pub id: u32,
}

/// Flags accompanying a [`PresentationInfo`]; the bits of
/// `wp_presentation_feedback.kind`.
#[derive(Debug, Default, Clone, Copy, PartialEq, Eq, Hash, Structural)]
pub struct PresentFlags {
    /// Raw flag bits.
    pub bits: u32,
}

impl PresentFlags {
    /// The presentation was vsync'd to the output.
    pub fn vsync() -> (f: PresentFlags)
        ensures
            f.bits == 1,
    {
        PresentFlags { bits: 1 }
    }

    /// The timestamp came from a hardware clock.
    pub fn hw_clock() -> (f: PresentFlags)
        ensures
            f.bits == 2,
    {
        PresentFlags { bits: 2 }
    }

    /// The display hardware signalled completion.
    pub fn hw_completion() -> (f: PresentFlags)
        ensures
            f.bits == 4,
    {
        PresentFlags { bits: 4 }
    }

    /// The buffer was scanned out directly.
    pub fn zero_copy() -> (f: PresentFlags)
        ensures
            f.bits == 8,
    {
        PresentFlags { bits: 8 }
    }

    /// Whether every flag of `other` is set.
    pub fn contains(self, other: PresentFlags) -> (b: bool)
        ensures
            b == (self.bits & other.bits == other.bits),
    {
        self.bits & other.bits == other.bits
    }
}

/// Snapshot of one frame's presentation.
#[derive(Debug, Clone, Copy)]
pub struct PresentationInfo {
    /// Time the content turned into light, in the presentation clock.
    pub time: Duration,
    /// Predicted refresh period (zero when not predicted).
    pub refresh: Duration,
    /// Output frame counter.
    pub seq: u64,
    /// The output the surface synced to, once reported.
    pub sync_output: Option<OutputId>,
    /// Presentation kind flags.
    pub flags: PresentFlags,
}

} // verus!
