//! Event types produced by the client state machine.
use vstd::prelude::*;
use crate::geometry::Size;
use crate::ime::ImeEvent;
use crate::keyboard::{KeyEvent, Modifiers};
use crate::pointer::{PointerButton, PointerButtonState, PointerPosition, ScrollEvent};
use crate::surface::SurfaceId;
use crate::touch::TouchEvent;

verus! {

/// Top-level event the application handler receives. `T` is the
/// consumer's user-event type.
#[derive(Debug, PartialEq, Eq)]
pub enum Event<T> {
    /// First event after the loop starts.
    Resumed,
    /// Per-surface event.
    WindowEvent {
        /// Which surface the event belongs to.
        surface_id: SurfaceId,
        /// What happened.
        event: WindowEvent,
    },
    /// User event sent through the loop's proxy.
    UserEvent(T),
    /// The loop is about to wait for new events.
    AboutToWait,
    /// The loop is shutting down.
    LoopExiting,
}

/// Per-surface event variants.
///
/// Scale factors are counted in 1/120 units (the fractional-scale
/// protocol's unit): `120` is a scale of 1.0, `150` is 1.25.
#[derive(Debug, PartialEq, Eq)]
pub enum WindowEvent {
    /// Surface logical size changed.
    Resized(Size),
    /// Surface scale factor changed.
    ScaleFactorChanged {
        /// New scale factor in 1/120 units.
        scale_120: u64,
        /// Suggested logical size (the current one).
        suggested_size: Size,
    },
    /// The compositor asked for the surface to close.
    CloseRequested,
    /// The surface should redraw now.
    RedrawRequested,
    /// Surface gained keyboard focus.
    Focused,
    /// Surface lost keyboard focus.
    Unfocused,
    /// The compositor fully obscured (`true`) or revealed (`false`) the
    /// surface.
    Occluded(bool),
    /// Pointer entered the surface.
    PointerEntered {
        /// Initial pointer position.
        position: PointerPosition,
    },
    /// Pointer left the surface.
    PointerLeft,
    /// Pointer moved while inside the surface.
    PointerMoved {
        /// New pointer position.
        position: PointerPosition,
    },
    /// Pointer button transitioned.
    PointerButton {
        /// Which button.
        button: PointerButton,
        /// Pressed or released.
        state: PointerButtonState,
        /// Modifier state reported with the button.
        modifiers: Modifiers,
    },
    /// Scroll / wheel event.
    Scroll(ScrollEvent),
    /// Touch event.
    Touch(TouchEvent),
    /// Keyboard key event.
    Key(KeyEvent),
    /// IME composition event.
    Ime(ImeEvent),
}

/// The event `event` addressed to surface `sid`.
pub open spec fn wev(sid: SurfaceId, event: WindowEvent) -> Event<()> {
    Event::WindowEvent { surface_id: sid, event }
}

} // verus!
