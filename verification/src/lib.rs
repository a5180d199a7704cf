//! Wayland-first windowing toolkit: the protocol-independent core.
//!
//! This crate holds the decision logic of a Wayland client toolkit:
//! configure handshakes, scale composition, pointer / touch / keyboard /
//! text-input event translation, key repeat and run-loop pacing. The
//! socket, the protocol proxies and the dispatch plumbing drive it from
//! the outside and hand it plain values.
use vstd::prelude::*;

pub mod cursor;
pub mod error;
pub mod event;
pub mod event_loop;
pub mod geometry;
pub mod ime;
pub mod keyboard;
pub mod laws;
pub mod layer_shell;
pub mod output;
pub mod pointer;
pub mod presentation;
pub mod run_loop;
pub mod state;
pub mod surface;
pub mod surfaces;
pub mod toplevel;
pub mod touch;

pub use cursor::CursorIcon;
pub use error::{ActivationError, Error};
pub use event_loop::EventLoopProxy;
pub use keyboard::{KeyCode, KeyEvent, KeyInfo, KeyState, Modifiers, ScanCode};
pub use layer_shell::{Anchor, KeyboardInteractivity, Layer, LayerSurfaceBuilder, Margin};
pub use presentation::{PresentFlags, PresentationClock, PresentationInfo};
pub use state::State;
pub use surfaces::{SurfaceState, Surfaces};
pub use toplevel::ToplevelBuilder;
pub use event::{Event, WindowEvent};
pub use geometry::{Position, Rect, Size};
pub use ime::{ContentHint, ContentPurpose, Ime, ImeEvent};
pub use output::{OutputId, OutputInfo};
pub use pointer::{AxisDirection, AxisSource, PointerButton, PointerButtonState, PointerPosition, ScrollEvent};
pub use surface::SurfaceId;
pub use touch::{TouchEvent, TouchId, TouchPhase};

verus! {

} // verus!
