//! Pointer / mouse input types.
use vstd::prelude::*;
use crate::event::{Event, WindowEvent, wev};
use crate::geometry::Position;
use crate::keyboard::Modifiers;
use crate::surface::SurfaceId;

verus! {

/// Logical pointer button. Wayland speaks Linux evdev codes; the common
/// ones get named variants and the rest stay in [`PointerButton::Other`].
#[derive(Debug, Clone, Copy, PartialEq, Eq, Hash, Structural)]
#[non_exhaustive]
pub enum PointerButton {
    /// Primary (typically left). evdev `BTN_LEFT` = 0x110.
    Left,
    /// Secondary (typically right). evdev `BTN_RIGHT` = 0x111.
    Right,
    /// Middle / wheel-click. evdev `BTN_MIDDLE` = 0x112.
    Middle,
    /// "Back" thumb button. evdev `BTN_SIDE` = 0x113.
    Back,
    /// "Forward" thumb button. evdev `BTN_EXTRA` = 0x114.
    Forward,
    /// Any other evdev button code.
    Other(u32),
}

/// Whether a pointer button transitioned to pressed or released.
#[derive(Debug, Clone, Copy, PartialEq, Eq, Hash, Structural)]
pub enum PointerButtonState {
    /// Button just pressed.
    Pressed,
    /// Button just released.
    Released,
}

/// Source of an axis (scroll) event.
#[derive(Debug, Clone, Copy, PartialEq, Eq, Hash, Structural)]
#[non_exhaustive]
pub enum AxisSource {
    /// Discrete scroll wheel (typically integer step per detent).
    Wheel,
    /// Touchpad two-finger scroll (smooth, sub-pixel).
    Finger,
    /// Continuous-motion device (drawing tablet ring, jog dial).
    Continuous,
    /// Tilt of the scroll wheel sideways.
    WheelTilt,
}

/// Scroll axis: vertical or horizontal.
#[derive(Debug, Clone, Copy, PartialEq, Eq, Hash, Structural)]
pub enum AxisDirection {
    /// Vertical (most common).
    Vertical,
    /// Horizontal (Shift+wheel, touchpad two-finger horizontal).
    Horizontal,
}

/// A scroll / wheel event, flushed once per `wl_pointer.frame` and axis.
///
/// The smooth delta is kept in the protocol's fixed-point unit (1/256 of
/// a logical pixel), so sums of wire values stay exact. Positive vertical
/// values scroll up (toward the top of the document); positive horizontal
/// values scroll right.
#[derive(Debug, Clone, Copy, PartialEq, Eq, Structural)]
#[non_exhaustive]
pub struct ScrollEvent {
    /// Which axis scrolled.
    pub axis: AxisDirection,
    /// Smooth delta in 1/256 logical pixels.
    pub delta_fixed: i64,
    /// Discrete detent count (0 if the source is not a wheel).
    pub discrete_steps: i32,
    /// High-resolution wheel value in 1/120 detents.
    pub high_res_120: i32,
    /// What kind of input produced the event.
    pub source: AxisSource,
}

/// Pointer position relative to the surface's origin, in logical pixels.
#[derive(Debug, Clone, Copy, PartialEq, Eq, Structural)]
pub struct PointerPosition(pub Position);

impl PointerPosition {
    /// Wrap a [`Position`].
    pub fn from_position(p: Position) -> (r: PointerPosition)
        ensures
            r.0 == p,
    {
        PointerPosition(p)
    }
}

/// Translation of an evdev button code to a [`PointerButton`].
pub open spec fn spec_evdev_button(code: u32) -> PointerButton {
    if code == 0x110 {
        PointerButton::Left
    } else if code == 0x111 {
        PointerButton::Right
    } else if code == 0x112 {
        PointerButton::Middle
    } else if code == 0x113 {
        PointerButton::Back
    } else if code == 0x114 {
        PointerButton::Forward
    } else {
        PointerButton::Other(code)
    }
}

/// Translate an evdev button code to a [`PointerButton`].
pub fn evdev_to_pointer_button(code: u32) -> (b: PointerButton)
    ensures
        b == spec_evdev_button(code),
{
    match code {
        0x110 => PointerButton::Left,
        0x111 => PointerButton::Right,
        0x112 => PointerButton::Middle,
        0x113 => PointerButton::Back,
        0x114 => PointerButton::Forward,
        other => PointerButton::Other(other),
    }
}

/// The evdev translation loses nothing: distinct codes give distinct
/// buttons.
pub proof fn lemma_evdev_button_injective(a: u32, b: u32)
    requires
        a != b,
    ensures
        spec_evdev_button(a) != spec_evdev_button(b),
{
}

/// Whole logical pixels of a `wl_fixed` (24.8 fixed point) value,
/// truncated toward zero.
pub open spec fn spec_fixed_to_px(v: int) -> int {
    if v >= 0 {
        v / 256
    } else {
        -((-v) / 256)
    }
}

/// Convert a `wl_fixed` coordinate to whole logical pixels, truncating
/// toward zero as a float-to-integer cast does.
pub fn fixed_to_px(v: i32) -> (r: i32)
    ensures
        r == spec_fixed_to_px(v as int),
{
    if v >= 0 {
        v / 256
    } else {
        let m: i64 = -(v as i64);
        let q: i64 = m / 256;
        -(q as i32)
    }
}


/// Pointer focus and the scroll accumulated since the last
/// `wl_pointer.frame`.
pub struct PointerState {
    /// Surface the pointer is over, if any.
    pub focused_surface: Option<SurfaceId>,
    /// Serial of the latest `wl_pointer.enter` (needed to set the cursor).
    pub enter_serial: u32,
    /// Accumulated vertical smooth scroll, 1/256 logical pixels.
    pub axis_vertical: i64,
    /// Accumulated horizontal smooth scroll, 1/256 logical pixels.
    pub axis_horizontal: i64,
    /// Accumulated vertical detents.
    pub axis_discrete_v: i32,
    /// Accumulated horizontal detents.
    pub axis_discrete_h: i32,
    /// Accumulated vertical 1/120 detents.
    pub axis_value120_v: i32,
    /// Accumulated horizontal 1/120 detents.
    pub axis_value120_h: i32,
    /// Source of the scroll in this frame, if announced.
    pub axis_source: Option<AxisSource>,
    /// Some scroll arrived since the last frame.
    pub axis_pending: bool,
}

/// The pointer state with the scroll accumulators emptied.
pub open spec fn spec_axis_reset(p: PointerState) -> PointerState {
    PointerState {
        axis_vertical: 0,
        axis_horizontal: 0,
        axis_discrete_v: 0,
        axis_discrete_h: 0,
        axis_value120_v: 0,
        axis_value120_h: 0,
        axis_source: None,
        axis_pending: false,
        ..p
    }
}

/// The position carried by pointer events for wire coordinates `x`, `y`.
pub open spec fn spec_pointer_position(x: i32, y: i32) -> PointerPosition {
    PointerPosition(Position { x: spec_fixed_to_px(x as int) as i32, y: spec_fixed_to_px(y as int) as i32 })
}

/// The scroll events a `wl_pointer.frame` flushes: with scroll pending
/// and a focused surface, one vertical event (negated, so positive
/// scrolls up) when any vertical value is non-zero, then one horizontal
/// event when any horizontal value is non-zero. The source defaults to
/// `Wheel`.
pub open spec fn spec_frame_events(p: PointerState) -> Seq<Event<()>> {
    if !p.axis_pending || p.focused_surface is None {
        Seq::empty()
    } else {
        let sid = p.focused_surface->0;
        let source = match p.axis_source {
            Some(s) => s,
            None => AxisSource::Wheel,
        };
        (if p.axis_vertical != 0 || p.axis_discrete_v != 0 || p.axis_value120_v != 0 {
            seq![wev(sid, WindowEvent::Scroll(ScrollEvent {
                axis: AxisDirection::Vertical,
                delta_fixed: 0i64.wrapping_sub(p.axis_vertical),
                discrete_steps: 0i32.wrapping_sub(p.axis_discrete_v),
                high_res_120: 0i32.wrapping_sub(p.axis_value120_v),
                source,
            }))]
        } else {
            Seq::empty()
        }) + (if p.axis_horizontal != 0 || p.axis_discrete_h != 0 || p.axis_value120_h != 0 {
            seq![wev(sid, WindowEvent::Scroll(ScrollEvent {
                axis: AxisDirection::Horizontal,
                delta_fixed: p.axis_horizontal,
                discrete_steps: p.axis_discrete_h,
                high_res_120: p.axis_value120_h,
                source,
            }))]
        } else {
            Seq::empty()
        })
    }
}

impl PointerState {
    /// No focus, nothing accumulated.
    pub fn new() -> (p: PointerState)
        ensures
            p.focused_surface is None,
            p.enter_serial == 0,
            p == spec_axis_reset(p),
    {
        PointerState {
            focused_surface: None,
            enter_serial: 0,
            axis_vertical: 0,
            axis_horizontal: 0,
            axis_discrete_v: 0,
            axis_discrete_h: 0,
            axis_value120_v: 0,
            axis_value120_h: 0,
            axis_source: None,
            axis_pending: false,
        }
    }

    /// `wl_pointer.enter` at wire coordinates `x`, `y` on `surface`
    /// (`None` when the surface is not one of ours): the serial is kept;
    /// for one of ours the pointer focuses it and `PointerEntered` is
    /// emitted.
    pub fn enter(&mut self, serial: u32, surface: Option<SurfaceId>, x: i32, y: i32, out: &mut Vec<Event<()>>)
        ensures
            *final(self) == (match surface {
                Some(sid) => PointerState { enter_serial: serial, focused_surface: Some(sid), ..*old(self) },
                None => PointerState { enter_serial: serial, ..*old(self) },
            }),
            final(out)@ == old(out)@ + match surface {
                Some(sid) => seq![wev(sid, WindowEvent::PointerEntered { position: spec_pointer_position(x, y) })],
                None => Seq::<Event<()>>::empty(),
            },
    {
        self.enter_serial = serial;
        if let Some(sid) = surface {
            self.focused_surface = Some(sid);
            let px = fixed_to_px(x);
            let py = fixed_to_px(y);
            out.push(Event::WindowEvent {
                surface_id: sid,
                event: WindowEvent::PointerEntered { position: PointerPosition(Position { x: px, y: py }) },
            });
        }
        assert(out@ =~= old(out)@ + match surface {
            Some(sid) => seq![wev(sid, WindowEvent::PointerEntered { position: spec_pointer_position(x, y) })],
            None => Seq::<Event<()>>::empty(),
        });
    }

    /// `wl_pointer.leave`: `PointerLeft` for one of our surfaces; focus is
    /// dropped either way.
    pub fn leave(&mut self, surface: Option<SurfaceId>, out: &mut Vec<Event<()>>)
        ensures
            *final(self) == (PointerState { focused_surface: None, ..*old(self) }),
            final(out)@ == old(out)@ + match surface {
                Some(sid) => seq![wev(sid, WindowEvent::PointerLeft)],
                None => Seq::<Event<()>>::empty(),
            },
    {
        if let Some(sid) = surface {
            out.push(Event::WindowEvent { surface_id: sid, event: WindowEvent::PointerLeft });
        }
        self.focused_surface = None;
        assert(out@ =~= old(out)@ + match surface {
            Some(sid) => seq![wev(sid, WindowEvent::PointerLeft)],
            None => Seq::<Event<()>>::empty(),
        });
    }

    /// `wl_pointer.motion`: `PointerMoved` on the focused surface.
    pub fn motion(&self, x: i32, y: i32, out: &mut Vec<Event<()>>)
        ensures
            final(out)@ == old(out)@ + match self.focused_surface {
                Some(sid) => seq![wev(sid, WindowEvent::PointerMoved { position: spec_pointer_position(x, y) })],
                None => Seq::<Event<()>>::empty(),
            },
    {
        if let Some(sid) = self.focused_surface {
            let px = fixed_to_px(x);
            let py = fixed_to_px(y);
            out.push(Event::WindowEvent {
                surface_id: sid,
                event: WindowEvent::PointerMoved { position: PointerPosition(Position { x: px, y: py }) },
            });
        }
        assert(out@ =~= old(out)@ + match self.focused_surface {
            Some(sid) => seq![wev(sid, WindowEvent::PointerMoved { position: spec_pointer_position(x, y) })],
            None => Seq::<Event<()>>::empty(),
        });
    }

    /// `wl_pointer.button` with evdev code `button` (`state` is `None`
    /// for an unknown state value): `PointerButton` on the focused
    /// surface, reported with no modifiers.
    pub fn button(&self, button: u32, state: Option<PointerButtonState>, out: &mut Vec<Event<()>>)
        ensures
            final(out)@ == old(out)@ + (if self.focused_surface is Some && state is Some {
                seq![wev(self.focused_surface->0, WindowEvent::PointerButton {
                    button: spec_evdev_button(button),
                    state: state->0,
                    modifiers: Modifiers::spec_none(),
                })]
            } else {
                Seq::<Event<()>>::empty()
            }),
    {
        if let Some(sid) = self.focused_surface {
            if let Some(st) = state {
                let pb = evdev_to_pointer_button(button);
                out.push(Event::WindowEvent {
                    surface_id: sid,
                    event: WindowEvent::PointerButton { button: pb, state: st, modifiers: Modifiers::none() },
                });
            }
        }
        assert(out@ =~= old(out)@ + (if self.focused_surface is Some && state is Some {
            seq![wev(self.focused_surface->0, WindowEvent::PointerButton {
                button: spec_evdev_button(button),
                state: state->0,
                modifiers: Modifiers::spec_none(),
            })]
        } else {
            Seq::<Event<()>>::empty()
        }));
    }

    /// `wl_pointer.axis` (wire value in 1/256 px; `axis` is `None` for an
    /// unknown axis, which is ignored): accumulate until the frame.
    pub fn axis(&mut self, axis: Option<AxisDirection>, value: i32)
        ensures
            *final(self) == (match axis {
                Some(AxisDirection::Vertical) => PointerState {
                    axis_vertical: old(self).axis_vertical.wrapping_add(value as i64),
                    axis_pending: true,
                    ..*old(self)
                },
                Some(AxisDirection::Horizontal) => PointerState {
                    axis_horizontal: old(self).axis_horizontal.wrapping_add(value as i64),
                    axis_pending: true,
                    ..*old(self)
                },
                None => *old(self),
            }),
    {
        match axis {
            Some(AxisDirection::Vertical) => {
                self.axis_vertical = self.axis_vertical.wrapping_add(value as i64);
                self.axis_pending = true;
            },
            Some(AxisDirection::Horizontal) => {
                self.axis_horizontal = self.axis_horizontal.wrapping_add(value as i64);
                self.axis_pending = true;
            },
            None => {},
        }
    }

    /// `wl_pointer.axis_discrete`: accumulate detents until the frame.
    pub fn axis_discrete(&mut self, axis: Option<AxisDirection>, discrete: i32)
        ensures
            *final(self) == (match axis {
                Some(AxisDirection::Vertical) => PointerState {
                    axis_discrete_v: old(self).axis_discrete_v.wrapping_add(discrete),
                    axis_pending: true,
                    ..*old(self)
                },
                Some(AxisDirection::Horizontal) => PointerState {
                    axis_discrete_h: old(self).axis_discrete_h.wrapping_add(discrete),
                    axis_pending: true,
                    ..*old(self)
                },
                None => *old(self),
            }),
    {
        match axis {
            Some(AxisDirection::Vertical) => {
                self.axis_discrete_v = self.axis_discrete_v.wrapping_add(discrete);
                self.axis_pending = true;
            },
            Some(AxisDirection::Horizontal) => {
                self.axis_discrete_h = self.axis_discrete_h.wrapping_add(discrete);
                self.axis_pending = true;
            },
            None => {},
        }
    }

    /// `wl_pointer.axis_value120`: accumulate 1/120 detents until the
    /// frame.
    pub fn axis_value120(&mut self, axis: Option<AxisDirection>, value120: i32)
        ensures
            *final(self) == (match axis {
                Some(AxisDirection::Vertical) => PointerState {
                    axis_value120_v: old(self).axis_value120_v.wrapping_add(value120),
                    axis_pending: true,
                    ..*old(self)
                },
                Some(AxisDirection::Horizontal) => PointerState {
                    axis_value120_h: old(self).axis_value120_h.wrapping_add(value120),
                    axis_pending: true,
                    ..*old(self)
                },
                None => *old(self),
            }),
    {
        match axis {
            Some(AxisDirection::Vertical) => {
                self.axis_value120_v = self.axis_value120_v.wrapping_add(value120);
                self.axis_pending = true;
            },
            Some(AxisDirection::Horizontal) => {
                self.axis_value120_h = self.axis_value120_h.wrapping_add(value120);
                self.axis_pending = true;
            },
            None => {},
        }
    }

    /// `wl_pointer.axis_source` (`None` for an unknown source).
    pub fn set_axis_source(&mut self, source: Option<AxisSource>)
        ensures
            *final(self) == (PointerState { axis_source: source, ..*old(self) }),
    {
        self.axis_source = source;
    }

    /// `wl_pointer.frame`: flush the accumulated scroll as at most one
    /// event per axis and empty the accumulators (nothing happens when
    /// no scroll arrived).
    pub fn frame(&mut self, out: &mut Vec<Event<()>>)
        ensures
            *final(self) == (if old(self).axis_pending { spec_axis_reset(*old(self)) } else { *old(self) }),
            final(out)@ == old(out)@ + spec_frame_events(*old(self)),
    {
        if !self.axis_pending {
            return;
        }
        let sid = match self.focused_surface {
            Some(id) => id,
            None => {
                self.reset_axis();
                return;
            },
        };
        let source = match self.axis_source {
            Some(s) => s,
            None => AxisSource::Wheel,
        };
        let ghost o = out@;
        if self.axis_vertical != 0 || self.axis_discrete_v != 0 || self.axis_value120_v != 0 {
            out.push(Event::WindowEvent {
                surface_id: sid,
                event: WindowEvent::Scroll(ScrollEvent {
                    axis: AxisDirection::Vertical,
                    delta_fixed: 0i64.wrapping_sub(self.axis_vertical),
                    discrete_steps: 0i32.wrapping_sub(self.axis_discrete_v),
                    high_res_120: 0i32.wrapping_sub(self.axis_value120_v),
                    source,
                }),
            });
        }
        if self.axis_horizontal != 0 || self.axis_discrete_h != 0 || self.axis_value120_h != 0 {
            out.push(Event::WindowEvent {
                surface_id: sid,
                event: WindowEvent::Scroll(ScrollEvent {
                    axis: AxisDirection::Horizontal,
                    delta_fixed: self.axis_horizontal,
                    discrete_steps: self.axis_discrete_h,
                    high_res_120: self.axis_value120_h,
                    source,
                }),
            });
        }
        assert(out@ =~= o + spec_frame_events(*old(self)));
        self.reset_axis();
    }

    /// Empty the scroll accumulators.
    fn reset_axis(&mut self)
        ensures
            *final(self) == spec_axis_reset(*old(self)),
    {
        self.axis_vertical = 0;
        self.axis_horizontal = 0;
        self.axis_discrete_v = 0;
        self.axis_discrete_h = 0;
        self.axis_value120_v = 0;
        self.axis_value120_h = 0;
        self.axis_source = None;
        self.axis_pending = false;
    }
}

} // verus!
