use std::sync::mpsc;
use wayr::error::activation_serial;
use wayr::event::{Event, WindowEvent};
use wayr::event_loop::map_event;
use wayr::state::{poll_wait_ms, PUMP_CAP_NS};
use wayr::surfaces::SurfaceState;
use wayr::{ActivationError, EventLoopProxy, KeyInfo, KeyState, PointerButton, PointerButtonState, Size, State, SurfaceId};

const MS: u64 = 1_000_000;

fn sid(n: u64) -> SurfaceId {
    SurfaceId::from_raw(n).unwrap()
}

#[test]
fn new_state_is_idle() {
    let s = State::new();
    assert!(s.pending_events.is_empty());
    assert_eq!(s.last_input_serial, 0);
    assert!(!s.exit_requested);
    assert_eq!(s.wait_until_ns, None);
}

#[test]
fn pump_timeout_caps_at_fifty_ms() {
    let mut s = State::new();
    assert_eq!(s.pump_timeout(0), PUMP_CAP_NS);
    assert_eq!(PUMP_CAP_NS, 50 * MS);
}

#[test]
fn wait_until_earliest_deadline_wins_and_is_used_up() {
    let mut s = State::new();
    s.wait_until(1_030 * MS);
    s.wait_until(1_010 * MS);
    s.wait_until(1_020 * MS);
    assert_eq!(s.wait_until_ns, Some(1_010 * MS));
    assert_eq!(s.pump_timeout(1_000 * MS), 10 * MS);
    assert_eq!(s.wait_until_ns, None);
    assert_eq!(s.pump_timeout(1_000 * MS), 50 * MS);
    s.wait_until(5 * MS);
    assert_eq!(s.pump_timeout(1_000 * MS), 0);
}

#[test]
fn pump_timeout_shortened_by_key_repeat() {
    let mut s = State::new();
    let mut out = Vec::new();
    s.keyboard.enter(Some(sid(1)), &mut out);
    let info = KeyInfo { keysym: 0x61, utf8: "a".to_string(), name: "a".to_string(), repeats: true };
    s.keyboard_key(5, 30, Some(KeyState::Pressed), Some(info), 0, );
    assert_eq!(s.last_input_serial, 5);
    assert_eq!(s.pump_timeout(480 * MS), 20 * MS);
    s.drain_key_repeats(500 * MS);
    assert_eq!(s.pending_events.len(), 2);
}

#[test]
fn key_release_does_not_move_input_serial() {
    let mut s = State::new();
    s.keyboard_key(9, 30, Some(KeyState::Released), None, 0);
    assert_eq!(s.last_input_serial, 0);
    s.keyboard_key(9, 30, Some(KeyState::Pressed), None, 0);
    assert_eq!(s.last_input_serial, 9);
}

#[test]
fn pointer_button_and_touch_record_serial() {
    let mut s = State::new();
    let mut out = Vec::new();
    s.pointer.enter(1, Some(sid(2)), 0, 0, &mut out);
    s.pointer_button(11, 0x110, Some(PointerButtonState::Pressed));
    assert_eq!(s.last_input_serial, 11);
    assert_eq!(s.pending_events.len(), 1);
    match &s.pending_events[0] {
        Event::WindowEvent { event: WindowEvent::PointerButton { button, .. }, .. } => assert_eq!(*button, PointerButton::Left),
        other => panic!("unexpected {:?}", other),
    }
    s.touch_down(12, Some(sid(2)), 0, 0, 0);
    assert_eq!(s.last_input_serial, 12);
    assert_eq!(s.pending_events.len(), 2);
}

#[test]
fn take_and_pop_events() {
    let mut s = State::new();
    let a = s.surfaces.alloc_surface_id();
    s.surfaces.register_toplevel(SurfaceState::fresh(a, Size::new(1, 1)));
    s.surfaces.request_redraw(a);
    s.drain_redraw_requests();
    s.surfaces.toplevel_close(a, &mut s.pending_events);
    assert_eq!(
        s.pop_event(),
        Some(Event::WindowEvent { surface_id: a, event: WindowEvent::RedrawRequested })
    );
    let evs = s.take_events();
    assert_eq!(evs, vec![Event::WindowEvent { surface_id: a, event: WindowEvent::CloseRequested }]);
    assert!(s.pending_events.is_empty());
    assert_eq!(s.pop_event(), None);
}

#[test]
fn exit_is_sticky() {
    let mut s = State::new();
    s.exit();
    assert!(s.exit_requested);
    let _ = s.take_events();
    assert!(s.exit_requested);
}

#[test]
fn poll_wait_rounds_down_and_caps() {
    assert_eq!(poll_wait_ms(100 * MS, 100 * MS), None);
    assert_eq!(poll_wait_ms(100 * MS, 200 * MS), None);
    assert_eq!(poll_wait_ms(100 * MS + 999_999, 90 * MS), Some(10));
    assert_eq!(poll_wait_ms(10_000 * MS, 0), Some(50));
}

#[test]
fn activation_needs_serial_then_global() {
    assert_eq!(activation_serial(0, true), Err(ActivationError::NoInputSerial));
    assert_eq!(activation_serial(0, false), Err(ActivationError::NoInputSerial));
    assert_eq!(activation_serial(7, false), Err(ActivationError::Unsupported));
    assert_eq!(activation_serial(7, true), Ok(7));
}

#[test]
fn proxy_delivers_and_reports_closed_loop() {
    let (tx, rx) = mpsc::channel::<u32>();
    let proxy = EventLoopProxy::new(tx);
    let other = proxy.clone();
    proxy.send_event(5).unwrap();
    other.send_event(6).unwrap();
    assert_eq!(rx.try_recv(), Ok(5));
    assert_eq!(rx.try_recv(), Ok(6));
    drop(rx);
    assert_eq!(proxy.send_event(7).unwrap_err().0, 7);
}

#[test]
fn map_event_keeps_window_events() {
    let e: Event<String> = map_event(Event::WindowEvent { surface_id: sid(3), event: WindowEvent::Focused });
    assert_eq!(e, Event::WindowEvent { surface_id: sid(3), event: WindowEvent::Focused });
    assert_eq!(map_event::<String>(Event::Resumed), Event::Resumed);
    assert_eq!(map_event::<String>(Event::AboutToWait), Event::AboutToWait);
    assert_eq!(map_event::<String>(Event::LoopExiting), Event::LoopExiting);
}

#[test]
fn far_deadline_does_not_shorten_wait() {
    let mut s = State::new();
    s.wait_until(1_000 * MS + 80 * MS);
    assert_eq!(s.pump_timeout(1_000 * MS), 50 * MS);
    s.wait_until(u64::MAX);
    assert_eq!(s.pump_timeout(0), PUMP_CAP_NS);
}

#[test]
fn pop_event_yields_in_arrival_order() {
    let mut s = State::new();
    let a = s.surfaces.alloc_surface_id();
    let b = s.surfaces.alloc_surface_id();
    s.surfaces.register_toplevel(SurfaceState::fresh(a, Size::new(1, 1)));
    s.surfaces.register_toplevel(SurfaceState::fresh(b, Size::new(1, 1)));
    s.surfaces.toplevel_close(a, &mut s.pending_events);
    s.surfaces.toplevel_close(b, &mut s.pending_events);
    assert_eq!(s.pop_event(), Some(Event::WindowEvent { surface_id: a, event: WindowEvent::CloseRequested }));
    assert_eq!(s.pop_event(), Some(Event::WindowEvent { surface_id: b, event: WindowEvent::CloseRequested }));
    assert_eq!(s.pop_event(), None);
    assert!(s.surfaces.toplevels.len() == 2 && s.surfaces.outputs.is_empty());
}
