use wayr::event::{Event, WindowEvent};
use wayr::touch::TouchState;
use wayr::{Position, SurfaceId, TouchId, TouchPhase};

fn sid(n: u64) -> SurfaceId {
    SurfaceId::from_raw(n).unwrap()
}

fn touches(out: &[Event<()>]) -> Vec<(SurfaceId, i32, TouchPhase, Position)> {
    out.iter()
        .map(|e| match e {
            Event::WindowEvent { surface_id, event: WindowEvent::Touch(t) } => (*surface_id, t.id.0, t.phase, t.position),
            other => panic!("unexpected {:?}", other),
        })
        .collect()
}

#[test]
fn down_motion_up_lifecycle() {
    let mut t = TouchState::new();
    let mut out = Vec::new();
    t.down(Some(sid(1)), 5, 256 * 10, 256 * 20, &mut out);
    t.motion(5, 256 * 11, 256 * 21, &mut out);
    t.up(5, &mut out);
    assert_eq!(
        touches(&out),
        vec![
            (sid(1), 5, TouchPhase::Started, Position { x: 10, y: 20 }),
            (sid(1), 5, TouchPhase::Moved, Position { x: 11, y: 21 }),
            (sid(1), 5, TouchPhase::Ended, Position { x: 11, y: 21 }),
        ]
    );
    assert!(t.surfaces.is_empty());
    assert!(t.positions.is_empty());
}

#[test]
fn up_of_unknown_contact_is_ignored() {
    let mut t = TouchState::new();
    let mut out = Vec::new();
    t.up(9, &mut out);
    assert!(out.is_empty());
}

#[test]
fn down_on_foreign_surface_is_ignored() {
    let mut t = TouchState::new();
    let mut out = Vec::new();
    t.down(None, 1, 0, 0, &mut out);
    assert!(out.is_empty());
    assert!(t.surfaces.is_empty());
}

#[test]
fn cancel_ends_every_contact_in_down_order() {
    let mut t = TouchState::new();
    let mut out = Vec::new();
    t.down(Some(sid(1)), 3, 256, 256, &mut out);
    t.down(Some(sid(2)), 1, 512, 512, &mut out);
    t.motion(3, 768, 1024, &mut out);
    out.clear();
    t.cancel(&mut out);
    assert_eq!(
        touches(&out),
        vec![
            (sid(1), 3, TouchPhase::Cancelled, Position { x: 3, y: 4 }),
            (sid(2), 1, TouchPhase::Cancelled, Position { x: 2, y: 2 }),
        ]
    );
    assert!(t.surfaces.is_empty());
    out.clear();
    t.motion(3, 0, 0, &mut out);
    assert!(out.is_empty());
}

#[test]
fn redown_of_same_id_replaces_contact() {
    let mut t = TouchState::new();
    let mut out = Vec::new();
    t.down(Some(sid(1)), 4, 0, 0, &mut out);
    t.down(Some(sid(2)), 4, 256, 0, &mut out);
    assert_eq!(t.surfaces.len(), 1);
    out.clear();
    t.up(4, &mut out);
    assert_eq!(touches(&out), vec![(sid(2), 4, TouchPhase::Ended, Position { x: 1, y: 0 })]);
    assert_eq!(TouchId(4).0, 4);
}
