use wayr::{Position, Rect, Size};

#[test]
fn rect_new_keeps_parts() {
    let r = Rect::new(Position::new(-3, 4), Size::new(10, 20));
    assert_eq!(r.position, Position { x: -3, y: 4 });
    assert_eq!(r.size, Size { width: 10, height: 20 });
}

#[test]
fn zero_is_the_origin() {
    assert_eq!(Position::zero(), Position { x: 0, y: 0 });
    assert_eq!(Position::zero(), Position::new(0, 0));
    assert_eq!(Position::new(-5, 7), Position { x: -5, y: 7 });
}
