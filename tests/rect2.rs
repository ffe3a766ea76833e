use vecmath::{Rect2, Vec2};

#[test]
fn from_borders_splits_position_and_size() {
    let r = Rect2::from_borders(1, 2, 3, 4);
    assert_eq!(r.position, Vec2::new(1, 2));
    assert_eq!(r.size, Vec2::new(3, 4));
}

#[test]
fn new_keeps_both_vectors() {
    let r = Rect2::new(Vec2::new(-5i32, 6), Vec2::new(7, 8));
    assert_eq!(r.position, Vec2::new(-5, 6));
    assert_eq!(r.size, Vec2::new(7, 8));
}

#[test]
fn negative_size_is_kept() {
    let r = Rect2::from_borders(0i64, 0, -10, -20);
    assert_eq!(r.size, Vec2::new(-10, -20));
}
