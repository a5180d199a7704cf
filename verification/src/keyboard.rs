//! Keyboard input types.
use vstd::prelude::*;
use crate::event::{Event, WindowEvent, wev};
use crate::output::clone_opt_string;
use crate::surface::SurfaceId;

verus! {

/// Raw evdev scancode of a key (as sent by `wl_keyboard.key`).
#[derive(Debug, Clone, Copy, PartialEq, Eq, Hash, Structural)]
pub struct ScanCode(pub u32);

/// Logical key: the xkb keysym name when it has one, else the raw keysym.
#[derive(Debug, PartialEq, Eq, Hash)]
pub enum KeyCode {
    /// Named keysym (e.g. `"Return"`, `"a"`).
    Named(String),
    /// Keysym without a name.
    Sym(u32),
}

impl Clone for KeyCode {
    fn clone(&self) -> (r: KeyCode)
        ensures
            r == *self,
    {
        match self {
            KeyCode::Named(s) => KeyCode::Named(s.clone()),
            KeyCode::Sym(v) => KeyCode::Sym(*v),
        }
    }
}

/// Pressed or released.
#[derive(Debug, Clone, Copy, PartialEq, Eq, Hash, Structural)]
pub enum KeyState {
    /// Key went down (or repeats).
    Pressed,
    /// Key went up.
    Released,
}

/// Keyboard modifier state.
#[derive(Debug, Clone, Copy, PartialEq, Eq, Hash, Structural)]
pub struct Modifiers {
    /// Shift held.
    pub shift: bool,
    /// Control held.
    pub ctrl: bool,
    /// Alt (Mod1) held.
    pub alt: bool,
    /// Logo / Super (Mod4) held.
    pub logo: bool,
    /// Caps lock active.
    pub caps_lock: bool,
    /// Num lock (Mod2) active.
    pub num_lock: bool,
}

impl Modifiers {
    /// No modifier active.
    pub open spec fn spec_none() -> Modifiers {
        Modifiers { shift: false, ctrl: false, alt: false, logo: false, caps_lock: false, num_lock: false }
    }

    /// No modifier active.
    pub fn none() -> (m: Modifiers)
        ensures
            m == Modifiers::spec_none(),
    {
        Modifiers { shift: false, ctrl: false, alt: false, logo: false, caps_lock: false, num_lock: false }
    }
}

/// A keyboard key event.
#[derive(Debug, PartialEq, Eq)]
pub struct KeyEvent {
    /// Raw scancode.
    pub scancode: ScanCode,
    /// Logical key.
    pub key_code: KeyCode,
    /// Modifier state when the key event happened.
    pub modifiers: Modifiers,
    /// Pressed or released.
    pub state: KeyState,
    /// Printable text the key produces; `None` for control characters.
    pub text: Option<String>,
    /// `true` for synthesized key-repeat events.
    pub repeat: bool,
}

/// What the keymap says about one key: the facts the keyboard logic
/// needs, looked up by the caller in its xkb state.
pub struct KeyInfo {
    /// Keysym of the key under the current modifier state.
    pub keysym: u32,
    /// UTF-8 text the key produces (possibly empty).
    pub utf8: String,
    /// Name of the keysym (empty when it has none).
    pub name: String,
    /// Whether the keymap marks the key as repeating.
    pub repeats: bool,
}


/// A control character: below U+0020, or DEL.
pub open spec fn spec_is_control(c: char) -> bool {
    (c as u32) < 0x20 || (c as u32) == 0x7f
}

/// The text a key event carries: none for an empty string or a single
/// control character (Return, BackSpace, Tab, Escape, Delete, ...).
pub open spec fn spec_key_text(t: String) -> Option<String> {
    if t@.len() == 0 || (t@.len() == 1 && spec_is_control(t@[0])) {
        None
    } else {
        Some(t)
    }
}

/// The logical key: the keysym's name when it has one, else the keysym.
pub open spec fn spec_key_code(info: KeyInfo) -> KeyCode {
    if info.name@.len() > 0 {
        KeyCode::Named(info.name)
    } else {
        KeyCode::Sym(info.keysym)
    }
}

/// Whether `s` is empty or one control character.
fn is_non_text(s: &str) -> (b: bool)
    ensures
        b == (s@.len() == 0 || (s@.len() == 1 && spec_is_control(s@[0]))),
{
    broadcast use vstd::string::axiom_spec_iter, vstd::string::next_postcondition;
    let mut it = s.chars();
    let first = it.next();
    match first {
        None => true,
        Some(c) => {
            let second = it.next();
            let cv = c as u32;
            second.is_none() && (cv < 0x20 || cv == 0x7f)
        },
    }
}

/// The key currently auto-repeating.
#[derive(Debug, PartialEq, Eq)]
pub struct RepeatingKey {
    /// Surface that had focus when the key went down.
    pub surface_id: SurfaceId,
    /// Scancode of the held key.
    pub scancode: ScanCode,
    /// Logical key of the held key.
    pub key_code: KeyCode,
    /// Text of the held key.
    pub text: Option<String>,
    /// Time of the next repeat, in nanoseconds on the caller's clock.
    pub next_fire_ns: u64,
}

/// Keyboard focus, modifiers and key-repeat state.
pub struct KeyboardState {
    /// Surface with keyboard focus, if any.
    pub focused_surface: Option<SurfaceId>,
    /// Current modifier state.
    pub modifiers: Modifiers,
    /// Repeat rate in keys per second (`<= 0` disables repeat).
    pub repeat_rate_hz: i32,
    /// Delay before the first repeat in milliseconds (`<= 0` disables).
    pub repeat_delay_ms: i32,
    /// The held repeatable key, if any.
    pub repeating: Option<RepeatingKey>,
}

/// Nanoseconds per millisecond.
pub const NANOS_PER_MILLI: u64 = 1_000_000;

/// At most this many repeats are synthesized per iteration.
pub const REPEAT_BUDGET: u64 = 32;

/// `a + b`, capped at `u64::MAX`.
pub open spec fn spec_sat_add(a: int, b: int) -> int {
    if a + b > u64::MAX as int {
        u64::MAX as int
    } else {
        a + b
    }
}

/// The key-repeat state after a key event whose text and logical key are
/// `text` and `code`.
pub open spec fn spec_repeat_after_key(kb: KeyboardState, sid: SurfaceId, key: u32, state: KeyState, repeats: bool, code: KeyCode, text: Option<String>, now_ns: u64) -> Option<RepeatingKey> {
    match state {
        KeyState::Pressed => {
            if kb.repeat_rate_hz > 0 && kb.repeat_delay_ms > 0 && repeats {
                Some(RepeatingKey {
                    surface_id: sid,
                    scancode: ScanCode(key),
                    key_code: code,
                    text,
                    next_fire_ns: spec_sat_add(now_ns as int, kb.repeat_delay_ms as int * NANOS_PER_MILLI as int) as u64,
                })
            } else {
                None
            }
        },
        KeyState::Released => {
            if kb.repeating matches Some(r) && r.scancode == ScanCode(key) {
                None
            } else {
                kb.repeating
            }
        },
    }
}

/// Period between repeats, in nanoseconds, at `rate_hz` keys per second.
pub open spec fn spec_repeat_period(rate_hz: i32) -> int {
    (1000int / spec_max_i(rate_hz as int, 1)) * NANOS_PER_MILLI as int
}

/// Larger of two integers.
pub open spec fn spec_max_i(a: int, b: int) -> int {
    if a >= b { a } else { b }
}

/// Number of repeats due at `now` for a key next due at `next` with
/// period `period`: every tick at or before `now`, at most 32.
pub open spec fn spec_repeat_count(next: u64, period: int, now: u64) -> int {
    if next > now {
        0
    } else if period == 0 || now == u64::MAX {
        REPEAT_BUDGET as int
    } else {
        let due = (now - next) / period + 1;
        if due > REPEAT_BUDGET as int { REPEAT_BUDGET as int } else { due }
    }
}

/// The synthesized repeat of the held key `r`.
pub open spec fn spec_repeat_event(r: RepeatingKey, modifiers: Modifiers) -> Event<()> {
    wev(r.surface_id, WindowEvent::Key(KeyEvent {
        scancode: r.scancode,
        key_code: r.key_code,
        modifiers,
        state: KeyState::Pressed,
        text: r.text,
        repeat: true,
    }))
}

impl KeyboardState {
    /// No focus, no modifiers; repeat at 30 keys per second after 500 ms
    /// until the compositor says otherwise.
    pub fn new() -> (kb: KeyboardState)
        ensures
            kb.focused_surface is None,
            kb.modifiers == Modifiers::spec_none(),
            kb.repeat_rate_hz == 30,
            kb.repeat_delay_ms == 500,
            kb.repeating is None,
    {
        KeyboardState {
            focused_surface: None,
            modifiers: Modifiers::none(),
            repeat_rate_hz: 30,
            repeat_delay_ms: 500,
            repeating: None,
        }
    }

    /// `wl_keyboard.enter` on `surface` (`None` when not one of ours,
    /// which is ignored): focus moves there and `Focused` is emitted.
    pub fn enter(&mut self, surface: Option<SurfaceId>, out: &mut Vec<Event<()>>)
        ensures
            final(self).focused_surface == (match surface {
                Some(sid) => Some(sid),
                None => old(self).focused_surface,
            }),
            final(self).modifiers == old(self).modifiers,
            final(self).repeat_rate_hz == old(self).repeat_rate_hz,
            final(self).repeat_delay_ms == old(self).repeat_delay_ms,
            final(self).repeating == old(self).repeating,
            final(out)@ == old(out)@ + match surface {
                Some(sid) => seq![wev(sid, WindowEvent::Focused)],
                None => Seq::<Event<()>>::empty(),
            },
    {
        if let Some(sid) = surface {
            self.focused_surface = Some(sid);
            out.push(Event::WindowEvent { surface_id: sid, event: WindowEvent::Focused });
        }
        assert(out@ =~= old(out)@ + match surface {
            Some(sid) => seq![wev(sid, WindowEvent::Focused)],
            None => Seq::<Event<()>>::empty(),
        });
    }

    /// `wl_keyboard.leave`: `Unfocused` for one of our surfaces; focus and
    /// any key repeat stop either way.
    pub fn leave(&mut self, surface: Option<SurfaceId>, out: &mut Vec<Event<()>>)
        ensures
            final(self).focused_surface is None,
            final(self).repeating is None,
            final(self).modifiers == old(self).modifiers,
            final(self).repeat_rate_hz == old(self).repeat_rate_hz,
            final(self).repeat_delay_ms == old(self).repeat_delay_ms,
            final(out)@ == old(out)@ + match surface {
                Some(sid) => seq![wev(sid, WindowEvent::Unfocused)],
                None => Seq::<Event<()>>::empty(),
            },
    {
        if let Some(sid) = surface {
            out.push(Event::WindowEvent { surface_id: sid, event: WindowEvent::Unfocused });
        }
        self.focused_surface = None;
        self.repeating = None;
        assert(out@ =~= old(out)@ + match surface {
            Some(sid) => seq![wev(sid, WindowEvent::Unfocused)],
            None => Seq::<Event<()>>::empty(),
        });
    }

    /// `wl_keyboard.modifiers`, as resolved through the keymap.
    pub fn set_modifiers(&mut self, modifiers: Modifiers)
        ensures
            final(self).modifiers == modifiers,
            final(self).focused_surface == old(self).focused_surface,
            final(self).repeat_rate_hz == old(self).repeat_rate_hz,
            final(self).repeat_delay_ms == old(self).repeat_delay_ms,
            final(self).repeating == old(self).repeating,
    {
        self.modifiers = modifiers;
    }

    /// `wl_keyboard.repeat_info`: adopt the rate and delay; a disabled
    /// rate or delay stops any repeat in flight.
    pub fn repeat_info(&mut self, rate: i32, delay: i32)
        ensures
            final(self).repeat_rate_hz == rate,
            final(self).repeat_delay_ms == delay,
            final(self).repeating == (if rate <= 0 || delay <= 0 { None } else { old(self).repeating }),
            final(self).focused_surface == old(self).focused_surface,
            final(self).modifiers == old(self).modifiers,
    {
        self.repeat_rate_hz = rate;
        self.repeat_delay_ms = delay;
        if rate <= 0 || delay <= 0 {
            self.repeating = None;
        }
    }

    /// `wl_keyboard.key` with scancode `key` (`state` is `None` for an
    /// unknown state value; `info` is what the keymap says of the key, or
    /// `None` before a keymap arrived) at time `now_ns`. With a focused
    /// surface, a keymap and a known state, a `Key` event is emitted; a
    /// press of a repeating key (with repeat enabled) arms key repeat
    /// after the delay, any other press disarms it, and the release of
    /// the held key disarms it.
    pub fn key(&mut self, key: u32, state: Option<KeyState>, info: Option<KeyInfo>, now_ns: u64, out: &mut Vec<Event<()>>)
        ensures
            final(self).focused_surface == old(self).focused_surface,
            final(self).modifiers == old(self).modifiers,
            final(self).repeat_rate_hz == old(self).repeat_rate_hz,
            final(self).repeat_delay_ms == old(self).repeat_delay_ms,
            (old(self).focused_surface is None || info is None || state is None) ==> {
                &&& final(self).repeating == old(self).repeating
                &&& final(out)@ == old(out)@
            },
            (old(self).focused_surface is Some && info is Some && state is Some) ==> {
                let sid = old(self).focused_surface->0;
                let i = info->0;
                let text = spec_key_text(i.utf8);
                let code = spec_key_code(i);
                &&& final(out)@ == old(out)@.push(wev(sid, WindowEvent::Key(KeyEvent {
                    scancode: ScanCode(key),
                    key_code: code,
                    modifiers: old(self).modifiers,
                    state: state->0,
                    text,
                    repeat: false,
                })))
                &&& final(self).repeating == spec_repeat_after_key(*old(self), sid, key, state->0, i.repeats, code, text, now_ns)
            },
    {
        let sid = match self.focused_surface {
            Some(id) => id,
            None => return,
        };
        let info = match info {
            Some(i) => i,
            None => return,
        };
        let st = match state {
            Some(s) => s,
            None => return,
        };
        let ghost i0 = info;
        let KeyInfo { keysym, utf8, name, repeats } = info;
        let text: Option<String> = if is_non_text(utf8.as_str()) { None } else { Some(utf8) };
        let key_code = if !name.as_str().is_empty() { KeyCode::Named(name) } else { KeyCode::Sym(keysym) };
        assert(text == spec_key_text(i0.utf8));
        assert(key_code == spec_key_code(i0));
        let code_copy = key_code.clone();
        let text_copy = clone_opt_string(&text);
        out.push(Event::WindowEvent {
            surface_id: sid,
            event: WindowEvent::Key(KeyEvent {
                scancode: ScanCode(key),
                key_code,
                modifiers: self.modifiers,
                state: st,
                text,
                repeat: false,
            }),
        });
        match st {
            KeyState::Pressed => {
                if self.repeat_rate_hz > 0 && self.repeat_delay_ms > 0 && repeats {
                    let delay_ns: u64 = (self.repeat_delay_ms as u64) * NANOS_PER_MILLI;
                    let next = now_ns.saturating_add(delay_ns);
                    self.repeating = Some(RepeatingKey {
                        surface_id: sid,
                        scancode: ScanCode(key),
                        key_code: code_copy,
                        text: text_copy,
                        next_fire_ns: next,
                    });
                } else {
                    self.repeating = None;
                }
            },
            KeyState::Released => {
                let stop = match &self.repeating {
                    Some(r) => r.scancode.0 == key,
                    None => false,
                };
                if stop {
                    self.repeating = None;
                }
            },
        }
    }

    /// Synthesize the key repeats due at `now_ns`: one `Key` event
    /// (`repeat: true`, `Pressed`) per repeat tick at or before `now_ns`,
    /// at most 32, each advancing the next tick by the period `1000 / rate`
    /// milliseconds. Nothing happens when repeat is disabled or no key is
    /// held.
    pub fn drain_repeats(&mut self, now_ns: u64, out: &mut Vec<Event<()>>)
        ensures
            final(self).focused_surface == old(self).focused_surface,
            final(self).modifiers == old(self).modifiers,
            final(self).repeat_rate_hz == old(self).repeat_rate_hz,
            final(self).repeat_delay_ms == old(self).repeat_delay_ms,
            (old(self).repeat_rate_hz <= 0 || old(self).repeating is None) ==> {
                &&& final(self).repeating == old(self).repeating
                &&& final(out)@ == old(out)@
            },
            (old(self).repeat_rate_hz > 0 && old(self).repeating is Some) ==> {
                let r = old(self).repeating->0;
                let p = spec_repeat_period(old(self).repeat_rate_hz);
                let n = spec_repeat_count(r.next_fire_ns, p, now_ns);
                &&& final(out)@ == old(out)@ + Seq::new(n as nat, |k: int| spec_repeat_event(r, old(self).modifiers))
                &&& final(self).repeating == Some(RepeatingKey {
                    next_fire_ns: spec_sat_add(r.next_fire_ns as int, n * p) as u64,
                    ..r
                })
            },
    {
        if self.repeat_rate_hz <= 0 {
            return;
        }
        let mut rep = match self.repeating.take() {
            Some(r) => r,
            None => return,
        };
        let ghost r0 = rep;
        let rate: i32 = self.repeat_rate_hz;
        let period: u64 = ((1000 / rate) as u64) * NANOS_PER_MILLI;
        assert(period as int == spec_repeat_period(rate));
        let modifiers = self.modifiers;
        let ghost o0 = out@;
        let ghost n = spec_repeat_count(r0.next_fire_ns, period as int, now_ns);
        let mut fired: u64 = 0;
        proof {
            lemma_repeat_count(r0.next_fire_ns, period as int, now_ns, 0);
        }
        while rep.next_fire_ns <= now_ns && fired < REPEAT_BUDGET
            invariant
                fired <= n,
                n <= REPEAT_BUDGET,
                rep == (RepeatingKey { next_fire_ns: spec_sat_add(r0.next_fire_ns as int, fired * period) as u64, ..r0 }),
                out@ == o0 + Seq::new(fired as nat, |k: int| spec_repeat_event(r0, modifiers)),
                period as int == spec_repeat_period(rate),
                n == spec_repeat_count(r0.next_fire_ns, period as int, now_ns),
                (rep.next_fire_ns <= now_ns && fired < REPEAT_BUDGET) ==> fired < n,
                !(rep.next_fire_ns <= now_ns && fired < REPEAT_BUDGET) ==> fired == n,
            decreases REPEAT_BUDGET - fired,
        {
            out.push(Event::WindowEvent {
                surface_id: rep.surface_id,
                event: WindowEvent::Key(KeyEvent {
                    scancode: rep.scancode,
                    key_code: rep.key_code.clone(),
                    modifiers,
                    state: KeyState::Pressed,
                    text: clone_opt_string(&rep.text),
                    repeat: true,
                }),
            });
            let ghost prev = fired as int;
            rep.next_fire_ns = rep.next_fire_ns.saturating_add(period);
            fired = fired + 1;
            proof {
                assert((prev + 1) * period == prev * period + period) by (nonlinear_arith);
                assert(prev * period >= 0) by (nonlinear_arith) requires prev >= 0, period >= 0;
                lemma_repeat_count(r0.next_fire_ns, period as int, now_ns, fired as int);
                assert(out@ =~= o0 + Seq::new(fired as nat, |k: int| spec_repeat_event(r0, modifiers)));
            }
        }
        self.repeating = Some(rep);
    }
}

/// The loop of [`KeyboardState::drain_repeats`] stops after exactly
/// [`spec_repeat_count`] ticks: after `k` ticks the next tick is due when
/// `k` is below the count, and not otherwise.
proof fn lemma_repeat_count(next: u64, period: int, now: u64, k: int)
    requires
        0 <= period <= 1_000_000_000,
        0 <= k <= spec_repeat_count(next, period, now),
    ensures
        (spec_sat_add(next as int, k * period) <= now && k < REPEAT_BUDGET) <==> k < spec_repeat_count(next, period, now),
        spec_repeat_count(next, period, now) <= REPEAT_BUDGET,
{
    let n = spec_repeat_count(next, period, now);
    if next > now {
    } else if period == 0 || now == u64::MAX {
        if period == 0 {
            assert(k * period == 0) by (nonlinear_arith) requires period == 0;
        }
    } else {
        let d = (now - next) as int;
        let q = d / period;
        assert(0 <= d);
        assert(q * period <= d < (q + 1) * period) by (nonlinear_arith)
            requires
                period > 0,
                d >= 0,
                q == d / period;
        if k <= q {
            assert(k * period <= q * period) by (nonlinear_arith) requires k <= q, period > 0;
        } else {
            assert(k * period >= (q + 1) * period) by (nonlinear_arith) requires k >= q + 1, period > 0;
        }
    }
}

} // verus!
