use wayr::event::{Event, WindowEvent};
use wayr::keyboard::KeyboardState;
use wayr::{KeyCode, KeyEvent, KeyInfo, KeyState, Modifiers, ScanCode, SurfaceId};

fn sid(n: u64) -> SurfaceId {
    SurfaceId::from_raw(n).unwrap()
}

fn info(keysym: u32, utf8: &str, name: &str, repeats: bool) -> KeyInfo {
    KeyInfo { keysym, utf8: utf8.to_string(), name: name.to_string(), repeats }
}

const MS: u64 = 1_000_000;

fn focused() -> (KeyboardState, Vec<Event<()>>) {
    let mut kb = KeyboardState::new();
    let mut out = Vec::new();
    kb.enter(Some(sid(1)), &mut out);
    assert_eq!(out, vec![Event::WindowEvent { surface_id: sid(1), event: WindowEvent::Focused }]);
    out.clear();
    (kb, out)
}

#[test]
fn defaults_follow_documented_repeat_settings() {
    let kb = KeyboardState::new();
    assert_eq!(kb.repeat_rate_hz, 30);
    assert_eq!(kb.repeat_delay_ms, 500);
    assert_eq!(kb.focused_surface, None);
    assert_eq!(kb.modifiers, Modifiers::none());
    assert!(kb.repeating.is_none());
}

#[test]
fn key_press_emits_text_and_named_code() {
    let (mut kb, mut out) = focused();
    let mods = Modifiers { shift: true, ..Modifiers::none() };
    kb.set_modifiers(mods);
    kb.key(30, Some(KeyState::Pressed), Some(info(0x41, "A", "A", true)), 0, &mut out);
    assert_eq!(
        out,
        vec![Event::WindowEvent {
            surface_id: sid(1),
            event: WindowEvent::Key(KeyEvent {
                scancode: ScanCode(30),
                key_code: KeyCode::Named("A".to_string()),
                modifiers: mods,
                state: KeyState::Pressed,
                text: Some("A".to_string()),
                repeat: false,
            }),
        }]
    );
}

#[test]
fn control_characters_carry_no_text_and_unnamed_keys_use_keysym() {
    let (mut kb, mut out) = focused();
    kb.key(28, Some(KeyState::Pressed), Some(info(0xff0d, "\r", "", false)), 0, &mut out);
    kb.key(1, Some(KeyState::Pressed), Some(info(0x1234, "", "", false)), 0, &mut out);
    kb.key(2, Some(KeyState::Pressed), Some(info(0x1235, "\u{7f}", "Delete", false)), 0, &mut out);
    let texts: Vec<_> = out
        .iter()
        .map(|e| match e {
            Event::WindowEvent { event: WindowEvent::Key(k), .. } => (k.key_code.clone(), k.text.clone()),
            other => panic!("unexpected {:?}", other),
        })
        .collect();
    assert_eq!(
        texts,
        vec![
            (KeyCode::Sym(0xff0d), None),
            (KeyCode::Sym(0x1234), None),
            (KeyCode::Named("Delete".to_string()), None),
        ]
    );
}

#[test]
fn keys_without_focus_keymap_or_state_are_dropped() {
    let mut kb = KeyboardState::new();
    let mut out = Vec::new();
    kb.key(30, Some(KeyState::Pressed), Some(info(0x61, "a", "a", true)), 0, &mut out);
    assert!(out.is_empty());
    let (mut kb, mut out) = focused();
    kb.key(30, Some(KeyState::Pressed), None, 0, &mut out);
    kb.key(30, None, Some(info(0x61, "a", "a", true)), 0, &mut out);
    assert!(out.is_empty());
    assert!(kb.repeating.is_none());
}

#[test]
fn press_arms_repeat_after_delay_and_drain_fires_each_period() {
    let (mut kb, mut out) = focused();
    kb.repeat_info(25, 600);
    kb.key(30, Some(KeyState::Pressed), Some(info(0x61, "a", "a", true)), 1_000 * MS, &mut out);
    let r = kb.repeating.as_ref().unwrap();
    assert_eq!(r.next_fire_ns, 1_600 * MS);
    out.clear();
    kb.drain_repeats(1_599 * MS, &mut out);
    assert!(out.is_empty());
    // period is 1000 / 25 = 40 ms: ticks at 1600, 1640, 1680.
    kb.drain_repeats(1_690 * MS, &mut out);
    assert_eq!(out.len(), 3);
    for e in &out {
        match e {
            Event::WindowEvent { event: WindowEvent::Key(k), .. } => {
                assert!(k.repeat);
                assert_eq!(k.state, KeyState::Pressed);
                assert_eq!(k.scancode, ScanCode(30));
                assert_eq!(k.text.as_deref(), Some("a"));
            }
            other => panic!("unexpected {:?}", other),
        }
    }
    assert_eq!(kb.repeating.as_ref().unwrap().next_fire_ns, 1_720 * MS);
}

#[test]
fn drain_is_bounded_by_budget() {
    let (mut kb, mut out) = focused();
    kb.key(30, Some(KeyState::Pressed), Some(info(0x61, "a", "a", true)), 0, &mut out);
    out.clear();
    kb.drain_repeats(3_600_000 * MS, &mut out);
    assert_eq!(out.len(), 32);
    // 30 Hz: 1000 / 30 = 33 ms per tick.
    assert_eq!(kb.repeating.as_ref().unwrap().next_fire_ns, 500 * MS + 32 * 33 * MS);
}

#[test]
fn release_of_held_key_stops_repeat_other_release_keeps_it() {
    let (mut kb, mut out) = focused();
    kb.key(30, Some(KeyState::Pressed), Some(info(0x61, "a", "a", true)), 0, &mut out);
    kb.key(31, Some(KeyState::Released), Some(info(0x62, "b", "b", true)), 0, &mut out);
    assert!(kb.repeating.is_some());
    kb.key(30, Some(KeyState::Released), Some(info(0x61, "a", "a", true)), 0, &mut out);
    assert!(kb.repeating.is_none());
}

#[test]
fn non_repeating_press_or_disabled_rate_disarms() {
    let (mut kb, mut out) = focused();
    kb.key(30, Some(KeyState::Pressed), Some(info(0x61, "a", "a", true)), 0, &mut out);
    kb.key(42, Some(KeyState::Pressed), Some(info(0xffe1, "", "Shift_L", false)), 0, &mut out);
    assert!(kb.repeating.is_none());
    kb.key(30, Some(KeyState::Pressed), Some(info(0x61, "a", "a", true)), 0, &mut out);
    assert!(kb.repeating.is_some());
    kb.repeat_info(0, 500);
    assert!(kb.repeating.is_none());
    kb.key(30, Some(KeyState::Pressed), Some(info(0x61, "a", "a", true)), 0, &mut out);
    assert!(kb.repeating.is_none());
}

#[test]
fn leave_unfocuses_and_stops_repeat() {
    let (mut kb, mut out) = focused();
    kb.key(30, Some(KeyState::Pressed), Some(info(0x61, "a", "a", true)), 0, &mut out);
    out.clear();
    kb.leave(Some(sid(1)), &mut out);
    assert_eq!(out, vec![Event::WindowEvent { surface_id: sid(1), event: WindowEvent::Unfocused }]);
    assert_eq!(kb.focused_surface, None);
    assert!(kb.repeating.is_none());
    out.clear();
    kb.drain_repeats(u64::MAX, &mut out);
    assert!(out.is_empty());
}

#[test]
fn repeat_deadline_saturates() {
    let (mut kb, mut out) = focused();
    kb.key(30, Some(KeyState::Pressed), Some(info(0x61, "a", "a", true)), u64::MAX - 1, &mut out);
    assert_eq!(kb.repeating.as_ref().unwrap().next_fire_ns, u64::MAX);
}
