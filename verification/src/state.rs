//! The client state machine: every protocol event the dispatch plumbing
//! receives goes through one of these transitions, which update the state
//! and append the resulting events to `pending_events`.
use vstd::prelude::*;
use crate::event::{Event, WindowEvent, wev};
use crate::ime::TextInputState;
use crate::keyboard::{KeyInfo, KeyState, KeyboardState};
use crate::pointer::{PointerButtonState, PointerState};
use crate::surface::SurfaceId;
use crate::surfaces::Surfaces;
use crate::touch::TouchState;

verus! {

/// The whole client state, minus the protocol objects.
pub struct State {
    /// Events produced and not yet delivered, oldest first.
    pub pending_events: Vec<Event<()>>,
    /// Toplevels, layer surfaces and outputs.
    pub surfaces: Surfaces,
    /// Pointer focus and scroll accumulation.
    pub pointer: PointerState,
    /// Keyboard focus, modifiers and key repeat.
    pub keyboard: KeyboardState,
    /// Active touch contacts.
    pub touch: TouchState,
    /// Text-input (IME) state.
    pub text_input: TextInputState,
    /// Serial of the most recent user input (`0` = none yet): the last
    /// pointer button, key press or touch down.
    pub last_input_serial: u32,
    /// The consumer asked the loop to exit.
    pub exit_requested: bool,
    /// Single-shot deadline for the next wait, in nanoseconds on the
    /// loop's clock.
    pub wait_until_ns: Option<u64>,
}

/// Longest the loop waits for socket activity in one iteration: 50 ms.
pub const PUMP_CAP_NS: u64 = 50_000_000;

/// `a - b`, floored at zero.
pub open spec fn spec_sat_sub(a: u64, b: u64) -> u64 {
    if a >= b { (a - b) as u64 } else { 0 }
}

/// Smaller of two values.
pub open spec fn spec_min_u64(a: u64, b: u64) -> u64 {
    if a <= b { a } else { b }
}

/// How long the loop may wait: 50 ms, shortened to the next key repeat
/// and to the consumer's deadline, when there are such.
pub open spec fn spec_pump_timeout(repeat_at: Option<u64>, deadline: Option<u64>, now_ns: u64) -> u64 {
    let t0 = PUMP_CAP_NS;
    let t1 = match repeat_at {
        Some(r) => spec_min_u64(t0, spec_sat_sub(r, now_ns)),
        None => t0,
    };
    match deadline {
        Some(d) => spec_min_u64(t1, spec_sat_sub(d, now_ns)),
        None => t1,
    }
}

/// `b` is `a` with, at most, other pending events.
pub open spec fn same_but_events(a: State, b: State) -> bool {
    &&& b.surfaces == a.surfaces
    &&& b.pointer == a.pointer
    &&& b.keyboard == a.keyboard
    &&& b.touch == a.touch
    &&& b.text_input == a.text_input
    &&& b.last_input_serial == a.last_input_serial
    &&& b.exit_requested == a.exit_requested
    &&& b.wait_until_ns == a.wait_until_ns
}

impl State {
    /// Identifiers unique, touch keys unique.
    pub open spec fn wf(&self) -> bool {
        self.surfaces.wf() && self.touch.wf()
    }

    /// A client with no surface, no focus and nothing pending.
    pub fn new() -> (s: State)
        ensures
            s.wf(),
            s.pending_events@.len() == 0,
            s.surfaces.toplevels@.len() == 0,
            s.surfaces.layer_surfaces@.len() == 0,
            s.surfaces.outputs@.len() == 0,
            s.surfaces.next_surface_id == 0,
            s.surfaces.next_output_id == 0,
            s.pointer.focused_surface is None,
            s.keyboard.focused_surface is None,
            s.keyboard.repeating is None,
            s.touch.surfaces@.len() == 0,
            s.text_input.focused_surface is None,
            s.last_input_serial == 0,
            !s.exit_requested,
            s.wait_until_ns is None,
    {
        State {
            pending_events: Vec::new(),
            surfaces: Surfaces::new(),
            pointer: PointerState::new(),
            keyboard: KeyboardState::new(),
            touch: TouchState::new(),
            text_input: TextInputState::new(),
            last_input_serial: 0,
            exit_requested: false,
            wait_until_ns: None,
        }
    }

    /// `wl_pointer.button`: the serial becomes the last input serial and
    /// the button goes to the focused surface.
    pub fn pointer_button(&mut self, serial: u32, button: u32, state: Option<PointerButtonState>)
        requires
            old(self).wf(),
        ensures
            final(self).wf(),
            final(self).last_input_serial == serial,
            final(self).pending_events@ == old(self).pending_events@ + (if old(self).pointer.focused_surface is Some && state is Some {
                seq![wev(old(self).pointer.focused_surface->0, WindowEvent::PointerButton {
                    button: crate::pointer::spec_evdev_button(button),
                    state: state->0,
                    modifiers: crate::keyboard::Modifiers::spec_none(),
                })]
            } else {
                Seq::<Event<()>>::empty()
            }),
            final(self).pointer == old(self).pointer,
            final(self).keyboard == old(self).keyboard,
            final(self).touch == old(self).touch,
            final(self).surfaces == old(self).surfaces,
            final(self).text_input == old(self).text_input,
            final(self).exit_requested == old(self).exit_requested,
            final(self).wait_until_ns == old(self).wait_until_ns,
    {
        self.last_input_serial = serial;
        self.pointer.button(button, state, &mut self.pending_events);
    }

    /// `wl_keyboard.key`: a press's serial becomes the last input serial;
    /// the key goes through the keyboard state (see
    /// [`KeyboardState::key`]).
    pub fn keyboard_key(&mut self, serial: u32, key: u32, state: Option<KeyState>, info: Option<KeyInfo>, now_ns: u64)
        requires
            old(self).wf(),
        ensures
            final(self).wf(),
            final(self).last_input_serial == (if state == Some(KeyState::Pressed) { serial } else { old(self).last_input_serial }),
            final(self).pointer == old(self).pointer,
            final(self).touch == old(self).touch,
            final(self).surfaces == old(self).surfaces,
            final(self).text_input == old(self).text_input,
            final(self).exit_requested == old(self).exit_requested,
            final(self).wait_until_ns == old(self).wait_until_ns,
            final(self).keyboard.focused_surface == old(self).keyboard.focused_surface,
            final(self).keyboard.modifiers == old(self).keyboard.modifiers,
            final(self).keyboard.repeat_rate_hz == old(self).keyboard.repeat_rate_hz,
            final(self).keyboard.repeat_delay_ms == old(self).keyboard.repeat_delay_ms,
            (old(self).keyboard.focused_surface is None || info is None || state is None) ==> {
                &&& final(self).keyboard.repeating == old(self).keyboard.repeating
                &&& final(self).pending_events@ == old(self).pending_events@
            },
            (old(self).keyboard.focused_surface is Some && info is Some && state is Some) ==> {
                let sid = old(self).keyboard.focused_surface->0;
                let i = info->0;
                let text = crate::keyboard::spec_key_text(i.utf8);
                let code = crate::keyboard::spec_key_code(i);
                &&& final(self).pending_events@ == old(self).pending_events@.push(wev(sid, WindowEvent::Key(crate::keyboard::KeyEvent {
                    scancode: crate::keyboard::ScanCode(key),
                    key_code: code,
                    modifiers: old(self).keyboard.modifiers,
                    state: state->0,
                    text,
                    repeat: false,
                })))
                &&& final(self).keyboard.repeating == crate::keyboard::spec_repeat_after_key(old(self).keyboard, sid, key, state->0, i.repeats, code, text, now_ns)
            },
    {
        let pressed = match state {
            Some(KeyState::Pressed) => true,
            _ => false,
        };
        if pressed {
            self.last_input_serial = serial;
        }
        self.keyboard.key(key, state, info, now_ns, &mut self.pending_events);
    }

    /// `wl_touch.down`: the serial becomes the last input serial and the
    /// contact starts (see [`TouchState::down`]).
    pub fn touch_down(&mut self, serial: u32, surface: Option<SurfaceId>, id: i32, x: i32, y: i32)
        requires
            old(self).wf(),
        ensures
            final(self).wf(),
            final(self).last_input_serial == serial,
            final(self).pointer == old(self).pointer,
            final(self).keyboard == old(self).keyboard,
            final(self).surfaces == old(self).surfaces,
            final(self).text_input == old(self).text_input,
            final(self).exit_requested == old(self).exit_requested,
            final(self).wait_until_ns == old(self).wait_until_ns,
            surface is None ==> final(self).touch == old(self).touch && final(self).pending_events@ == old(self).pending_events@,
            surface is Some ==> {
                let sid = surface->0;
                &&& final(self).touch.positions@ == crate::touch::assoc_insert(old(self).touch.positions@, id, crate::touch::spec_touch_position(x, y))
                &&& final(self).touch.surfaces@ == crate::touch::assoc_insert(old(self).touch.surfaces@, id, sid)
                &&& final(self).pending_events@ == old(self).pending_events@.push(wev(sid, WindowEvent::Touch(crate::touch::TouchEvent {
                    id: crate::touch::TouchId(id),
                    phase: crate::touch::TouchPhase::Started,
                    position: crate::touch::spec_touch_position(x, y),
                })))
            },
    {
        self.last_input_serial = serial;
        self.touch.down(surface, id, x, y, &mut self.pending_events);
    }

    /// Serve the redraw flags (see [`Surfaces::drain_redraw_requests`]).
    pub fn drain_redraw_requests(&mut self)
        requires
            old(self).wf(),
        ensures
            final(self).wf(),
            final(self).surfaces.toplevels@ == old(self).surfaces.toplevels@.map_values(
                |s: crate::surfaces::SurfaceState| crate::surfaces::spec_redraw_served(s)),
            final(self).surfaces.layer_surfaces@ == old(self).surfaces.layer_surfaces@.map_values(
                |s: crate::surfaces::SurfaceState| crate::surfaces::spec_redraw_served(s)),
            final(self).pending_events@ == old(self).pending_events@
                + crate::surfaces::spec_redraw_events(old(self).surfaces.toplevels@)
                + crate::surfaces::spec_redraw_events(old(self).surfaces.layer_surfaces@),
            final(self).surfaces.outputs == old(self).surfaces.outputs,
            final(self).surfaces.next_surface_id == old(self).surfaces.next_surface_id,
            final(self).surfaces.next_output_id == old(self).surfaces.next_output_id,
            final(self).keyboard == old(self).keyboard,
            final(self).pointer == old(self).pointer,
            final(self).touch == old(self).touch,
            final(self).text_input == old(self).text_input,
            final(self).last_input_serial == old(self).last_input_serial,
            final(self).exit_requested == old(self).exit_requested,
            final(self).wait_until_ns == old(self).wait_until_ns,
    {
        self.surfaces.drain_redraw_requests(&mut self.pending_events);
    }

    /// Synthesize the key repeats due at `now_ns` (see
    /// [`KeyboardState::drain_repeats`]).
    pub fn drain_key_repeats(&mut self, now_ns: u64)
        requires
            old(self).wf(),
        ensures
            final(self).wf(),
            final(self).surfaces == old(self).surfaces,
            final(self).pointer == old(self).pointer,
            final(self).touch == old(self).touch,
            final(self).text_input == old(self).text_input,
            final(self).last_input_serial == old(self).last_input_serial,
            final(self).exit_requested == old(self).exit_requested,
            final(self).wait_until_ns == old(self).wait_until_ns,
            final(self).keyboard.focused_surface == old(self).keyboard.focused_surface,
            final(self).keyboard.modifiers == old(self).keyboard.modifiers,
            final(self).keyboard.repeat_delay_ms == old(self).keyboard.repeat_delay_ms,
            final(self).keyboard.repeat_rate_hz == old(self).keyboard.repeat_rate_hz,
            (old(self).keyboard.repeat_rate_hz <= 0 || old(self).keyboard.repeating is None) ==> {
                &&& final(self).keyboard.repeating == old(self).keyboard.repeating
                &&& final(self).pending_events@ == old(self).pending_events@
            },
            (old(self).keyboard.repeat_rate_hz > 0 && old(self).keyboard.repeating is Some) ==> {
                let r = old(self).keyboard.repeating->0;
                let p = crate::keyboard::spec_repeat_period(old(self).keyboard.repeat_rate_hz);
                let n = crate::keyboard::spec_repeat_count(r.next_fire_ns, p, now_ns);
                &&& final(self).pending_events@ == old(self).pending_events@
                    + Seq::new(n as nat, |k: int| crate::keyboard::spec_repeat_event(r, old(self).keyboard.modifiers))
                &&& final(self).keyboard.repeating == Some(crate::keyboard::RepeatingKey {
                    next_fire_ns: crate::keyboard::spec_sat_add(r.next_fire_ns as int, n * p) as u64,
                    ..r
                })
            },
    {
        self.keyboard.drain_repeats(now_ns, &mut self.pending_events);
    }

    /// Ask the loop to exit after the current iteration.
    pub fn exit(&mut self)
        ensures
            *final(self) == (State { exit_requested: true, ..*old(self) }),
    {
        self.exit_requested = true;
    }

    /// Cap the next wait at `deadline_ns`; with several calls before the
    /// wait, the earliest deadline wins.
    pub fn wait_until(&mut self, deadline_ns: u64)
        ensures
            *final(self) == (State {
                wait_until_ns: Some(match old(self).wait_until_ns {
                    Some(prev) => spec_min_u64(prev, deadline_ns),
                    None => deadline_ns,
                }),
                ..*old(self)
            }),
    {
        let d = match self.wait_until_ns {
            Some(prev) => if prev <= deadline_ns { prev } else { deadline_ns },
            None => deadline_ns,
        };
        self.wait_until_ns = Some(d);
    }

    /// How long the next wait may last at time `now_ns`: 50 ms, shortened
    /// to the next key repeat and to the consumer's deadline. The
    /// deadline is used up.
    pub fn pump_timeout(&mut self, now_ns: u64) -> (t: u64)
        ensures
            t == spec_pump_timeout(
                match old(self).keyboard.repeating {
                    Some(r) => Some(r.next_fire_ns),
                    None => None,
                },
                old(self).wait_until_ns,
                now_ns,
            ),
            t <= PUMP_CAP_NS,
            *final(self) == (State { wait_until_ns: None, ..*old(self) }),
    {
        let mut t: u64 = PUMP_CAP_NS;
        if let Some(r) = &self.keyboard.repeating {
            let until = if r.next_fire_ns >= now_ns { r.next_fire_ns - now_ns } else { 0 };
            if until < t {
                t = until;
            }
        }
        let deadline = self.wait_until_ns.take();
        if let Some(d) = deadline {
            let until = if d >= now_ns { d - now_ns } else { 0 };
            if until < t {
                t = until;
            }
        }
        t
    }

    /// Hand over every pending event, oldest first, leaving none.
    pub fn take_events(&mut self) -> (evs: Vec<Event<()>>)
        ensures
            evs@ == old(self).pending_events@,
            final(self).pending_events@.len() == 0,
            same_but_events(*old(self), *final(self)),
    {
        let mut evs: Vec<Event<()>> = Vec::new();
        std::mem::swap(&mut evs, &mut self.pending_events);
        evs
    }

    /// Take the oldest pending event, if any: events come out in the order
    /// they were produced.
    pub fn pop_event(&mut self) -> (e: Option<Event<()>>)
        ensures
            old(self).pending_events@.len() == 0 ==> e is None && final(self).pending_events@.len() == 0,
            old(self).pending_events@.len() > 0 ==> e == Some(old(self).pending_events@[0])
                && final(self).pending_events@ == old(self).pending_events@.subrange(1, old(self).pending_events@.len() as int),
            same_but_events(*old(self), *final(self)),
    {
        if self.pending_events.len() == 0 {
            None
        } else {
            Some(self.pending_events.remove(0))
        }
    }
}

/// Milliseconds to block in one `poll(2)` before `deadline_ns`, at most
/// 50; `None` once the deadline has passed.
pub fn poll_wait_ms(deadline_ns: u64, now_ns: u64) -> (r: Option<i32>)
    ensures
        now_ns >= deadline_ns ==> r is None,
        now_ns < deadline_ns ==> r == Some((if (deadline_ns - now_ns) / 1_000_000 <= 50 {
            (deadline_ns - now_ns) / 1_000_000
        } else {
            50
        }) as i32),
{
    if now_ns >= deadline_ns {
        None
    } else {
        let ms = (deadline_ns - now_ns) / 1_000_000;
        Some(if ms <= 50 { ms as i32 } else { 50 })
    }
}

} // verus!
