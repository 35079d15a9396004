use life_core::vector::Vector2;

#[test]
fn vector_new_and_set() {
    let mut v = Vector2::new(3, 4);
    assert_eq!((v.x, v.y), (3, 4));
    v.set(-1, 7);
    assert_eq!(v, Vector2::new(-1, 7));
    assert_eq!(v.pair(), (-1, 7));
}

#[test]
fn vector_max_min() {
    let a = Vector2::new(1, 9);
    let b = Vector2::new(4, -2);
    assert_eq!(Vector2::max(a, b), Vector2::new(4, 9));
    assert_eq!(Vector2::min(a, b), Vector2::new(1, -2));
}

#[test]
fn vector_perpendicular_and_scale() {
    assert_eq!(Vector2::perpendicular(Vector2::new(2, 5)), Vector2::new(-5, 2));
    assert_eq!(Vector2::scale(Vector2::new(2, -3), Vector2::new(7, 4)), Vector2::new(14, -12));
}

#[test]
fn vector_reflect() {
    // Off the horizontal line with normal (0, 1): the y component flips.
    assert_eq!(Vector2::reflect(Vector2::new(3, -2), Vector2::new(0, 1)), Vector2::new(3, 2));
    // factor = -2 * (1*2 + 1*1) = -6; result = (-6 + 2, -6 + 1).
    assert_eq!(Vector2::reflect(Vector2::new(2, 1), Vector2::new(1, 1)), Vector2::new(-4, -5));
}

#[test]
fn vector_arithmetic() {
    let a = Vector2::new(3, -4);
    let b = Vector2::new(-1, 6);
    assert_eq!(a.add(b), Vector2::new(2, 2));
    assert_eq!(a.sub(b), Vector2::new(4, -10));
    assert_eq!(a.mul(-3), Vector2::new(-9, 12));
    assert_eq!(a.neg(), Vector2::new(-3, 4));
    assert_eq!(a.sqr_magnitude(), 25);
    assert_eq!(Vector2::new(i32::MIN, i32::MIN).sqr_magnitude(), 1u64 << 63);
}

#[test]
fn vector_conversions() {
    let v: Vector2<i32> = (5, -6).into();
    assert_eq!(v, Vector2::new(5, -6));
    let w: Vector2<i32> = [7, 8].into();
    assert_eq!(w, Vector2::new(7, 8));
    let t: (i32, i32) = w.into();
    assert_eq!(t, (7, 8));
}
