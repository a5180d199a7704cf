use wayr::event::{Event, WindowEvent};
use wayr::output::OutputEvent;
use wayr::surfaces::{physical_size, viewport_dest, SurfaceState, Surfaces, XDG_STATE_ACTIVATED, XDG_STATE_SUSPENDED};
use wayr::{OutputId, Size, SurfaceId};

fn win(s: SurfaceId, event: WindowEvent) -> Event<()> {
    Event::WindowEvent { surface_id: s, event }
}

fn with_toplevel(preferred: Size) -> (Surfaces, SurfaceId) {
    let mut s = Surfaces::new();
    let id = s.alloc_surface_id();
    s.register_toplevel(SurfaceState::fresh(id, preferred));
    (s, id)
}

#[test]
fn surface_ids_start_at_one_and_increase() {
    let mut s = Surfaces::new();
    let a = s.alloc_surface_id();
    let b = s.alloc_surface_id();
    assert_eq!(a.as_u64(), 1);
    assert_eq!(b.as_u64(), 2);
    assert_eq!(SurfaceId::from_raw(0), None);
    assert_eq!(SurfaceId::from_raw(9).map(|s| s.as_u64()), Some(9));
}

#[test]
fn toplevel_configure_handshake_emits_resized_scale_and_redraw() {
    let (mut s, id) = with_toplevel(Size::new(800, 600));
    let mut out = Vec::new();
    s.toplevel_configure(id, 1024, 768, &[XDG_STATE_ACTIVATED], &mut out);
    assert!(out.is_empty());
    let dest = s.toplevel_ack(id, &mut out);
    assert_eq!(dest, Some((1024, 768)));
    assert_eq!(
        out,
        vec![
            win(id, WindowEvent::Resized(Size::new(1024, 768))),
            win(id, WindowEvent::ScaleFactorChanged { scale_120: 120, suggested_size: Size::new(1024, 768) }),
            win(id, WindowEvent::RedrawRequested),
        ]
    );
    let st = s.get(id).unwrap();
    assert!(st.activated);
    assert_eq!(st.pending_ack, None);
}

#[test]
fn zero_configure_uses_preferred_then_current_size() {
    let (mut s, id) = with_toplevel(Size::new(640, 480));
    let mut out = Vec::new();
    s.toplevel_configure(id, 0, 0, &[], &mut out);
    assert_eq!(s.toplevel_ack(id, &mut out), Some((640, 480)));
    s.toplevel_configure(id, 700, 0, &[], &mut out);
    out.clear();
    assert_eq!(s.toplevel_ack(id, &mut out), Some((700, 480)));
    assert_eq!(out[0], win(id, WindowEvent::Resized(Size::new(700, 480))));
}

#[test]
fn repeated_ack_of_same_size_only_redraws() {
    let (mut s, id) = with_toplevel(Size::new(800, 600));
    let mut out = Vec::new();
    s.toplevel_configure(id, 300, 200, &[], &mut out);
    s.toplevel_ack(id, &mut out);
    out.clear();
    s.toplevel_configure(id, 300, 200, &[], &mut out);
    s.toplevel_ack(id, &mut out);
    assert_eq!(out, vec![win(id, WindowEvent::RedrawRequested)]);
}

#[test]
fn zero_size_viewport_is_clamped_to_one() {
    assert_eq!(viewport_dest(Size::new(0, 0)), (1, 1));
    assert_eq!(viewport_dest(Size::new(5, 0)), (5, 1));
    let (mut s, id) = with_toplevel(Size::new(0, 0));
    let mut out = Vec::new();
    assert_eq!(s.toplevel_ack(id, &mut out), Some((1, 1)));
}

#[test]
fn suspended_flip_emits_occluded_once() {
    let (mut s, id) = with_toplevel(Size::new(800, 600));
    let mut out = Vec::new();
    s.toplevel_configure(id, 0, 0, &[XDG_STATE_SUSPENDED], &mut out);
    s.toplevel_configure(id, 0, 0, &[XDG_STATE_SUSPENDED], &mut out);
    s.toplevel_configure(id, 0, 0, &[XDG_STATE_ACTIVATED], &mut out);
    assert_eq!(out, vec![win(id, WindowEvent::Occluded(true)), win(id, WindowEvent::Occluded(false))]);
}

#[test]
fn unknown_surface_configure_does_nothing() {
    let (mut s, _id) = with_toplevel(Size::new(800, 600));
    let ghost = SurfaceId::from_raw(77).unwrap();
    let mut out = Vec::new();
    s.toplevel_configure(ghost, 10, 10, &[], &mut out);
    assert_eq!(s.toplevel_ack(ghost, &mut out), None);
    assert_eq!(s.layer_configure(ghost, 10, 10, &mut out), None);
    assert!(out.is_empty());
}

#[test]
fn layer_configure_acks_and_reports() {
    let mut s = Surfaces::new();
    let id = s.alloc_surface_id();
    s.register_layer_surface(SurfaceState::fresh(id, Size::new(0, 32)));
    let mut out = Vec::new();
    assert_eq!(s.layer_configure(id, 1920, 0, &mut out), Some((1920, 32)));
    assert_eq!(
        out,
        vec![
            win(id, WindowEvent::Resized(Size::new(1920, 32))),
            win(id, WindowEvent::ScaleFactorChanged { scale_120: 120, suggested_size: Size::new(1920, 32) }),
            win(id, WindowEvent::RedrawRequested),
        ]
    );
    out.clear();
    s.layer_closed(id, &mut out);
    assert_eq!(out, vec![win(id, WindowEvent::CloseRequested)]);
    assert!(s.get(id).unwrap().closed);
}

#[test]
fn redraw_requests_coalesce() {
    let (mut s, a) = with_toplevel(Size::new(10, 10));
    let b = s.alloc_surface_id();
    s.register_layer_surface(SurfaceState::fresh(b, Size::new(1, 1)));
    s.request_redraw(b);
    s.request_redraw(a);
    s.request_redraw(a);
    let mut out = Vec::new();
    s.drain_redraw_requests(&mut out);
    assert_eq!(out, vec![win(a, WindowEvent::RedrawRequested), win(b, WindowEvent::RedrawRequested)]);
    out.clear();
    s.drain_redraw_requests(&mut out);
    assert!(out.is_empty());
}

#[test]
fn toplevel_close_and_request_close() {
    let (mut s, id) = with_toplevel(Size::new(10, 10));
    let mut out = Vec::new();
    s.toplevel_close(id, &mut out);
    assert_eq!(out, vec![win(id, WindowEvent::CloseRequested)]);
    out.clear();
    s.request_close(id, &mut out);
    assert!(s.get(id).unwrap().closed);
    assert_eq!(out, vec![win(id, WindowEvent::CloseRequested)]);
    out.clear();
    s.request_close(SurfaceId::from_raw(99).unwrap(), &mut out);
    assert!(out.is_empty());
}

#[test]
fn scale_follows_largest_overlapped_output() {
    let (mut s, id) = with_toplevel(Size::new(100, 100));
    let mut out = Vec::new();
    let o1 = s.output_event(None, OutputEvent::Scale { factor: 2 }, &mut out);
    s.output_event(Some(o1), OutputEvent::Done, &mut out);
    let o2 = s.output_event(None, OutputEvent::Scale { factor: 3 }, &mut out);
    s.output_event(Some(o2), OutputEvent::Done, &mut out);
    assert!(out.is_empty());
    s.surface_enter(id, Some(o1), &mut out);
    s.surface_enter(id, Some(o2), &mut out);
    s.surface_leave(id, Some(o2), &mut out);
    assert_eq!(
        out,
        vec![
            win(id, WindowEvent::ScaleFactorChanged { scale_120: 240, suggested_size: Size::new(0, 0) }),
            win(id, WindowEvent::ScaleFactorChanged { scale_120: 360, suggested_size: Size::new(0, 0) }),
            win(id, WindowEvent::ScaleFactorChanged { scale_120: 240, suggested_size: Size::new(0, 0) }),
        ]
    );
    out.clear();
    s.output_event(Some(o1), OutputEvent::Scale { factor: 1 }, &mut out);
    assert!(out.is_empty());
    s.output_event(Some(o1), OutputEvent::Done, &mut out);
    assert_eq!(out, vec![win(id, WindowEvent::ScaleFactorChanged { scale_120: 120, suggested_size: Size::new(0, 0) })]);
}

#[test]
fn fractional_scale_overrides_outputs() {
    let (mut s, id) = with_toplevel(Size::new(100, 100));
    let mut out = Vec::new();
    s.fractional_scale(id, 150, &mut out);
    s.fractional_scale(id, 150, &mut out);
    assert_eq!(out, vec![win(id, WindowEvent::ScaleFactorChanged { scale_120: 150, suggested_size: Size::new(0, 0) })]);
    out.clear();
    let o = s.surface_enter(id, None, &mut out);
    s.output_event(Some(o), OutputEvent::Scale { factor: 2 }, &mut out);
    s.output_event(Some(o), OutputEvent::Done, &mut out);
    assert!(out.is_empty());
    assert_eq!(s.get(id).unwrap().scale_120, 150);
}

#[test]
fn output_ids_are_fresh_and_snapshot_reports_state() {
    let mut s = Surfaces::new();
    let mut out = Vec::new();
    let o = s.output_event(None, OutputEvent::Geometry { x: 10, y: 20 }, &mut out);
    assert_eq!(o, OutputId(1));
    s.output_event(Some(o), OutputEvent::Mode { flags: Some(0x3), width: 1920, height: 1080, refresh: 60000 }, &mut out);
    s.output_event(Some(o), OutputEvent::Mode { flags: Some(0x2), width: 640, height: 480, refresh: 30000 }, &mut out);
    s.output_event(Some(o), OutputEvent::Name { name: "DP-1".to_string() }, &mut out);
    s.output_event(Some(o), OutputEvent::Description { description: "Monitor".to_string() }, &mut out);
    s.output_event(Some(o), OutputEvent::Scale { factor: 0 }, &mut out);
    s.output_event(Some(o), OutputEvent::Done, &mut out);
    let snap = s.outputs_snapshot();
    assert_eq!(snap.len(), 1);
    let info = &snap[0];
    assert_eq!(info.id, o);
    assert_eq!(info.id.as_u64(), 1);
    assert_eq!(info.position, (10, 20));
    assert_eq!(info.physical_size, Size::new(1920, 1080));
    assert_eq!(info.refresh_mhz, 60000);
    assert_eq!(info.name.as_deref(), Some("DP-1"));
    assert_eq!(info.description.as_deref(), Some("Monitor"));
    assert_eq!(info.scale, 1);
    assert!(s.outputs[0].ready);
    let o2 = s.output_event(None, OutputEvent::Other, &mut out);
    assert_eq!(o2, OutputId(2));
    assert!(!s.outputs[1].ready);
}

#[test]
fn physical_size_rounds_up() {
    assert_eq!(physical_size(Size::new(800, 600), 120), Size::new(800, 600));
    assert_eq!(physical_size(Size::new(801, 601), 150), Size::new(1002, 752));
    assert_eq!(physical_size(Size::new(3, 3), 60), Size::new(2, 2));
    assert_eq!(physical_size(Size::new(10, 7), 60), Size::new(5, 4));
    assert_eq!(physical_size(Size::new(10, 10), 0), Size::new(0, 0));
    assert_eq!(physical_size(Size::new(u32::MAX, 1), 240), Size::new(u32::MAX, 2));
    assert_eq!(physical_size(Size::new(0, 0), 360), Size::new(0, 0));
}

#[test]
fn unset_output_scale_reports_one() {
    let mut s = Surfaces::new();
    let mut out = Vec::new();
    let o = s.output_event(None, OutputEvent::Done, &mut out);
    let snap = s.outputs_snapshot();
    assert_eq!(snap[0].id, o);
    assert_eq!(snap[0].scale, 1);
    assert_eq!(snap[0].physical_size, Size::new(0, 0));
    assert_eq!(snap[0].name, None);
}
