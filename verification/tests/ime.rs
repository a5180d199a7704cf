use wayr::event::{Event, WindowEvent};
use wayr::ime::{TextInputRequest, TextInputState};
use wayr::{ContentHint, ContentPurpose, Ime, ImeEvent, Position, Rect, Size, SurfaceId};

fn sid(n: u64) -> SurfaceId {
    SurfaceId::from_raw(n).unwrap()
}

fn ime(s: SurfaceId, e: ImeEvent) -> Event<()> {
    Event::WindowEvent { surface_id: s, event: WindowEvent::Ime(e) }
}

#[test]
fn enable_and_disable_commit() {
    let mut i = Ime::new();
    assert!(!i.enabled);
    assert_eq!(i.enable(), vec![TextInputRequest::Enable, TextInputRequest::Commit]);
    assert!(i.enabled);
    assert_eq!(i.disable(), vec![TextInputRequest::Disable, TextInputRequest::Commit]);
    assert!(!i.enabled);
}

#[test]
fn content_type_keeps_last_hint_and_purpose() {
    let mut i = Ime::new();
    let hint = ContentHint::spellcheck().union(ContentHint::latin());
    assert_eq!(i.set_hint(hint), vec![TextInputRequest::SetContentType { hint: 0x102, purpose: 0 }]);
    assert_eq!(
        i.set_purpose(ContentPurpose::Email),
        vec![TextInputRequest::SetContentType { hint: 0x102, purpose: 6 }]
    );
    assert_eq!(i.purpose, ContentPurpose::Email);
    assert_eq!(ContentPurpose::Terminal.wire_value(), 13);
}

#[test]
fn content_hint_flags() {
    let h = ContentHint::completion().union(ContentHint::hidden_text());
    assert_eq!(h.bits, 0x41);
    assert!(h.contains(ContentHint::completion()));
    assert!(!h.contains(ContentHint::multiline()));
    assert!(h.contains(ContentHint::empty()));
    assert_eq!(ContentHint::sensitive_data().bits, 0x80);
    assert_eq!(ContentHint::auto_capital().bits, 0x4);
    assert_eq!(ContentHint::lowercase().bits, 0x8);
    assert_eq!(ContentHint::uppercase().bits, 0x10);
    assert_eq!(ContentHint::titlecase().bits, 0x20);
}

#[test]
fn cursor_rect_and_surrounding_text_requests() {
    let i = Ime::new();
    assert_eq!(
        i.set_cursor_rect(Rect::new(Position::new(3, 4), Size::new(5, 6))),
        vec![TextInputRequest::SetCursorRectangle { x: 3, y: 4, width: 5, height: 6 }]
    );
    assert_eq!(
        i.set_surrounding_text("héllo", 2, 1),
        vec![TextInputRequest::SetSurroundingText { text: "héllo".to_string(), cursor: 2, anchor: 1 }]
    );
}

#[test]
fn done_emits_delete_commit_preedit_in_order() {
    let mut t = TextInputState::new();
    t.enter(Some(sid(1)));
    t.preedit_string(Some("ka".to_string()), 2, 2);
    t.commit_string(Some("日本".to_string()));
    t.delete_surrounding_text(3, 1);
    let mut out = Vec::new();
    t.done(9, &mut out);
    assert_eq!(
        out,
        vec![
            ime(sid(1), ImeEvent::DeleteSurroundingText { before_bytes: 3, after_bytes: 1 }),
            ime(sid(1), ImeEvent::Commit("日本".to_string())),
            ime(sid(1), ImeEvent::Preedit { text: "ka".to_string(), cursor: Some(2) }),
        ]
    );
    assert_eq!(t.last_done_serial, 9);
    out.clear();
    t.done(10, &mut out);
    assert!(out.is_empty());
}

#[test]
fn preedit_cursor_hidden_for_negative_range_and_absent_text_is_empty() {
    let mut t = TextInputState::new();
    t.enter(Some(sid(2)));
    t.preedit_string(None, -1, -1);
    t.commit_string(None);
    let mut out = Vec::new();
    t.done(1, &mut out);
    assert_eq!(
        out,
        vec![
            ime(sid(2), ImeEvent::Commit(String::new())),
            ime(sid(2), ImeEvent::Preedit { text: String::new(), cursor: None }),
        ]
    );
}

#[test]
fn done_without_focus_drops_staged_state() {
    let mut t = TextInputState::new();
    t.commit_string(Some("x".to_string()));
    let mut out = Vec::new();
    t.done(4, &mut out);
    assert!(out.is_empty());
    assert!(t.pending_commit.is_none());
    t.enter(Some(sid(1)));
    t.enabled = true;
    t.leave();
    assert!(!t.enabled);
    assert_eq!(t.focused_surface, None);
}
