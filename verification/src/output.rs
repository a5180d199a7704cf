//! Output (monitor) identifiers and mirrored state.
use vstd::prelude::*;
use crate::geometry::Size;

verus! {

/// Stable per-output identifier, assigned when the output is first seen.
#[derive(Debug, Clone, Copy, Default, PartialEq, Eq, Hash, Structural)]
pub struct OutputId(pub u64);

impl OutputId {
    /// Raw u64. Stable for the lifetime of the event loop.
    pub fn as_u64(self) -> (r: u64)
        ensures
            r == self.0,
    {
        self.0
    }
}

/// Snapshot of a `wl_output`'s state.
#[derive(Debug)]
pub struct OutputInfo {
    /// Stable id.
    pub id: OutputId,
    /// Compositor's machine-readable name (e.g. `"DP-1"`).
    pub name: Option<String>,
    /// Human-readable description.
    pub description: Option<String>,
    /// Integer scale advertised by the compositor (always at least 1).
    pub scale: i32,
    /// Physical size of the active mode in pixels.
    pub physical_size: Size,
    /// Position in compositor-global coordinates.
    pub position: (i32, i32),
    /// Refresh rate of the current mode in mHz (`0` until known).
    pub refresh_mhz: i32,
}

impl Clone for OutputInfo {
    fn clone(&self) -> (r: OutputInfo)
        ensures
            r == *self,
    {
        OutputInfo {
            id: self.id,
            name: clone_opt_string(&self.name),
            description: clone_opt_string(&self.description),
            scale: self.scale,
            physical_size: self.physical_size,
            position: self.position,
            refresh_mhz: self.refresh_mhz,
        }
    }
}

/// Per-output mirrored state, updated from `wl_output` events.
pub struct OutputState {
    /// Stable id.
    pub id: OutputId,
    /// Name (`wl_output` v4+).
    pub name: Option<String>,
    /// Description (`wl_output` v4+).
    pub description: Option<String>,
    /// Integer scale.
    pub scale: i32,
    /// Physical size of the current mode.
    pub physical_size: Size,
    /// Global position.
    pub position: (i32, i32),
    /// Refresh rate of the current mode in mHz.
    pub refresh_mhz: i32,
    /// Whether the last staged change was closed by `done`.
    pub ready: bool,
}

/// A `wl_output` event, with the fields the state machine reads.
pub enum OutputEvent {
    /// `geometry` (position only).
    Geometry {
        /// X in global coordinates.
        x: i32,
        /// Y in global coordinates.
        y: i32,
    },
    /// `mode`; `flags` is `None` when the flag word had unknown bits.
    Mode {
        /// Mode flags.
        flags: Option<u32>,
        /// Width in pixels.
        width: i32,
        /// Height in pixels.
        height: i32,
        /// Refresh in mHz.
        refresh: i32,
    },
    /// `scale`.
    Scale {
        /// Integer scale factor.
        factor: i32,
    },
    /// `name`.
    Name {
        /// Output name.
        name: String,
    },
    /// `description`.
    Description {
        /// Output description.
        description: String,
    },
    /// `done`.
    Done,
    /// Any other event (ignored).
    Other,
}

/// The `current` bit of `wl_output.mode` flags.
pub const OUTPUT_MODE_CURRENT: u32 = 0x1;

/// Larger of two integers.
pub open spec fn spec_max(a: int, b: int) -> int {
    if a >= b { a } else { b }
}

/// Snapshot of an output state: the scale is reported as at least 1.
pub open spec fn spec_snapshot(o: OutputState, info: OutputInfo) -> bool {
    &&& info.id == o.id
    &&& info.name == o.name
    &&& info.description == o.description
    &&& info.scale == spec_max(o.scale as int, 1)
    &&& info.physical_size == o.physical_size
    &&& info.position == o.position
    &&& info.refresh_mhz == o.refresh_mhz
}

/// Copy of an optional string.
pub fn clone_opt_string(s: &Option<String>) -> (r: Option<String>)
    ensures
        r == *s,
{
    match s {
        Some(t) => Some(t.clone()),
        None => None,
    }
}

impl OutputState {
    /// Fresh state for a newly seen output: scale 1 until told otherwise.
    pub open spec fn spec_fresh(id: OutputId) -> OutputState {
        OutputState {
            id,
            name: None,
            description: None,
            scale: 1,
            physical_size: Size { width: 0, height: 0 },
            position: (0, 0),
            refresh_mhz: 0,
            ready: false,
        }
    }

    /// Fresh state for a newly seen output: scale 1 until told otherwise.
    pub fn fresh(id: OutputId) -> (o: OutputState)
        ensures
            o == OutputState::spec_fresh(id),
    {
        OutputState {
            id,
            name: None,
            description: None,
            scale: 1,
            physical_size: Size { width: 0, height: 0 },
            position: (0, 0),
            refresh_mhz: 0,
            ready: false,
        }
    }

    /// Snapshot for consumers.
    pub fn snapshot(&self) -> (info: OutputInfo)
        ensures
            spec_snapshot(*self, info),
            info.scale >= 1,
    {
        OutputInfo {
            id: self.id,
            name: clone_opt_string(&self.name),
            description: clone_opt_string(&self.description),
            scale: if self.scale >= 1 { self.scale } else { 1 },
            physical_size: self.physical_size,
            position: self.position,
            refresh_mhz: self.refresh_mhz,
        }
    }
}

} // verus!
