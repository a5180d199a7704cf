use wayr::event::{Event, WindowEvent};
use wayr::pointer::{evdev_to_pointer_button, fixed_to_px, PointerState};
use wayr::{AxisDirection, AxisSource, Modifiers, PointerButton, PointerButtonState, PointerPosition, Position, SurfaceId};

fn sid(n: u64) -> SurfaceId {
    SurfaceId::from_raw(n).unwrap()
}

fn win(s: SurfaceId, event: WindowEvent) -> Event<()> {
    Event::WindowEvent { surface_id: s, event }
}

#[test]
fn evdev_codes_map_to_named_buttons() {
    assert_eq!(evdev_to_pointer_button(0x110), PointerButton::Left);
    assert_eq!(evdev_to_pointer_button(0x111), PointerButton::Right);
    assert_eq!(evdev_to_pointer_button(0x112), PointerButton::Middle);
    assert_eq!(evdev_to_pointer_button(0x113), PointerButton::Back);
    assert_eq!(evdev_to_pointer_button(0x114), PointerButton::Forward);
    assert_eq!(evdev_to_pointer_button(0x115), PointerButton::Other(0x115));
    assert_eq!(evdev_to_pointer_button(0), PointerButton::Other(0));
}

#[test]
fn fixed_point_truncates_toward_zero() {
    assert_eq!(fixed_to_px(0), 0);
    assert_eq!(fixed_to_px(256 * 10 + 255), 10);
    assert_eq!(fixed_to_px(-(256 * 3) - 128), -3);
    assert_eq!(fixed_to_px(-1), 0);
    assert_eq!(fixed_to_px(i32::MIN), -8388608);
    assert_eq!(fixed_to_px(i32::MAX), 8388607);
}

#[test]
fn pointer_position_wraps_position() {
    let p = PointerPosition::from_position(Position::new(5, -6));
    assert_eq!(p.0, Position { x: 5, y: -6 });
}

#[test]
fn enter_motion_leave_sequence() {
    let mut p = PointerState::new();
    let mut out = Vec::new();
    p.motion(256, 256, &mut out);
    assert!(out.is_empty());
    p.enter(7, Some(sid(1)), 256 * 4, 256 * 9, &mut out);
    assert_eq!(p.enter_serial, 7);
    assert_eq!(p.focused_surface, Some(sid(1)));
    p.motion(256 * 5 + 3, 256 * 2, &mut out);
    p.leave(Some(sid(1)), &mut out);
    assert_eq!(p.focused_surface, None);
    assert_eq!(
        out,
        vec![
            win(sid(1), WindowEvent::PointerEntered { position: PointerPosition(Position { x: 4, y: 9 }) }),
            win(sid(1), WindowEvent::PointerMoved { position: PointerPosition(Position { x: 5, y: 2 }) }),
            win(sid(1), WindowEvent::PointerLeft),
        ]
    );
}

#[test]
fn enter_on_foreign_surface_keeps_serial_only() {
    let mut p = PointerState::new();
    let mut out = Vec::new();
    p.enter(42, None, 0, 0, &mut out);
    assert_eq!(p.enter_serial, 42);
    assert_eq!(p.focused_surface, None);
    assert!(out.is_empty());
}

#[test]
fn button_goes_to_focused_surface_without_modifiers() {
    let mut p = PointerState::new();
    let mut out = Vec::new();
    p.button(0x110, Some(PointerButtonState::Pressed), &mut out);
    assert!(out.is_empty());
    p.enter(1, Some(sid(3)), 0, 0, &mut out);
    out.clear();
    p.button(0x111, Some(PointerButtonState::Released), &mut out);
    p.button(0x111, None, &mut out);
    assert_eq!(
        out,
        vec![win(
            sid(3),
            WindowEvent::PointerButton {
                button: PointerButton::Right,
                state: PointerButtonState::Released,
                modifiers: Modifiers::none(),
            }
        )]
    );
}

#[test]
fn frame_flushes_scroll_once_with_vertical_negated() {
    let mut p = PointerState::new();
    let mut out = Vec::new();
    p.enter(1, Some(sid(2)), 0, 0, &mut out);
    out.clear();
    p.axis(Some(AxisDirection::Vertical), 2560);
    p.axis(Some(AxisDirection::Vertical), 256);
    p.axis_discrete(Some(AxisDirection::Vertical), 1);
    p.axis_value120(Some(AxisDirection::Vertical), 120);
    p.axis(Some(AxisDirection::Horizontal), -512);
    p.set_axis_source(Some(AxisSource::Finger));
    p.frame(&mut out);
    assert_eq!(out.len(), 2);
    match &out[0] {
        Event::WindowEvent { surface_id, event: WindowEvent::Scroll(s) } => {
            assert_eq!(*surface_id, sid(2));
            assert_eq!(s.axis, AxisDirection::Vertical);
            assert_eq!(s.delta_fixed, -2816);
            assert_eq!(s.discrete_steps, -1);
            assert_eq!(s.high_res_120, -120);
            assert_eq!(s.source, AxisSource::Finger);
        }
        other => panic!("unexpected {:?}", other),
    }
    match &out[1] {
        Event::WindowEvent { event: WindowEvent::Scroll(s), .. } => {
            assert_eq!(s.axis, AxisDirection::Horizontal);
            assert_eq!(s.delta_fixed, -512);
            assert_eq!(s.discrete_steps, 0);
            assert_eq!(s.source, AxisSource::Finger);
        }
        other => panic!("unexpected {:?}", other),
    }
    assert!(!p.axis_pending);
    assert_eq!(p.axis_vertical, 0);
    assert_eq!(p.axis_source, None);
    p.frame(&mut out);
    assert_eq!(out.len(), 2);
}

#[test]
fn frame_without_source_defaults_to_wheel_and_skips_zero_axes() {
    let mut p = PointerState::new();
    let mut out = Vec::new();
    p.enter(1, Some(sid(2)), 0, 0, &mut out);
    out.clear();
    p.axis(Some(AxisDirection::Horizontal), 100);
    p.frame(&mut out);
    assert_eq!(out.len(), 1);
    match &out[0] {
        Event::WindowEvent { event: WindowEvent::Scroll(s), .. } => {
            assert_eq!(s.axis, AxisDirection::Horizontal);
            assert_eq!(s.source, AxisSource::Wheel);
            assert_eq!(s.delta_fixed, 100);
        }
        other => panic!("unexpected {:?}", other),
    }
}

#[test]
fn frame_without_focus_drops_scroll() {
    let mut p = PointerState::new();
    let mut out = Vec::new();
    p.axis(Some(AxisDirection::Vertical), 256);
    p.axis(None, 256);
    p.frame(&mut out);
    assert!(out.is_empty());
    assert!(!p.axis_pending);
    assert_eq!(p.axis_vertical, 0);
}
