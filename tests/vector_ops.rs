use vecmat::Vector;

#[test]
fn dot_of_concrete_vectors() {
    let a = Vector::new(1, 2, 3);
    let b = Vector::new(4, 5, 6);
    assert_eq!(a.dot(&b), 32);
}

#[test]
fn dot_is_commutative() {
    let a = Vector::new(-3, 7, 11);
    let b = Vector::new(5, -2, 9);
    assert_eq!(a.dot(&b), b.dot(&a));
    assert_eq!(a.dot(&b), -15 - 14 + 99);
}

#[test]
fn cross_of_axes() {
    let r = Vector::new(1, 0, 0).cross(&Vector::new(0, 1, 0));
    assert_eq!(r, Vector::new(0, 0, 1));
    assert_eq!(Vector::y_axis().cross(&Vector::z_axis()), Vector::x_axis());
}

#[test]
fn cross_is_anticommutative() {
    let a = Vector::new(2, -3, 5);
    let b = Vector::new(-7, 1, 4);
    let ab = a.cross(&b);
    let ba = b.cross(&a);
    assert_eq!(ab, Vector::new(-17, -43, -19));
    assert_eq!(ab, Vector::new(-ba.x, -ba.y, -ba.z));
}

#[test]
fn cross_with_itself_is_zero() {
    let a = Vector::new(9, -4, 6);
    assert_eq!(a.cross(&a), Vector::default());
    let parallel = Vector::new(18, -8, 12);
    assert_eq!(a.cross(&parallel), Vector::new(0, 0, 0));
}

#[test]
fn magnitude_squared_is_self_dot() {
    let a = Vector::new(-3, 4, -12);
    assert_eq!(a.magnitude_squared(), 169);
    assert_eq!(a.magnitude_squared(), a.dot(&a));
    assert_eq!(Vector::default().magnitude_squared(), 0);
}

#[test]
fn constructors() {
    assert_eq!(Vector::scalar(7), Vector::new(7, 7, 7));
    assert_eq!(Vector::default(), Vector::new(0, 0, 0));
    assert_eq!(Vector::x_axis(), Vector::new(1, 0, 0));
    assert_eq!(Vector::y_axis(), Vector::new(0, 1, 0));
    assert_eq!(Vector::z_axis(), Vector::new(0, 0, 1));
}

#[test]
fn normalize_divides_by_integer_length() {
    assert_eq!(Vector::new(10, 0, 0).normalize(), Vector::new(1, 0, 0));
    assert_eq!(Vector::new(0, -7, 0).normalize(), Vector::new(0, -1, 0));
    assert_eq!(Vector::new(20, 0, 1).normalize(), Vector::new(1, 0, 0));
    assert_eq!(Vector::new(3, 4, 0).normalize(), Vector::new(0, 0, 0));
    assert_eq!(Vector::new(0, 0, 400).normalize(), Vector::z_axis());
}

#[test]
fn componentwise_arithmetic() {
    let a = Vector::new(1, -2, 3);
    let b = Vector::new(10, 20, -30);
    assert_eq!(a.add(&b), Vector::new(11, 18, -27));
    assert_eq!(a.sub(&b), Vector::new(-9, -22, 33));
    assert_eq!(a.mul_scalar(-4), Vector::new(-4, 8, -12));
    assert_eq!(Vector::new(-7, 7, 1).div_scalar(2), Vector::new(-3, 3, 0));
    assert_eq!(Vector::new(-7, 7, 1).div_scalar(-2), Vector::new(3, -3, 0));
}

#[test]
fn in_place_arithmetic() {
    let mut v = Vector::new(1, 2, 3);
    v.add_assign(&Vector::new(1, 1, 1));
    assert_eq!(v, Vector::new(2, 3, 4));
    v.sub_assign(&Vector::new(5, 5, 5));
    assert_eq!(v, Vector::new(-3, -2, -1));
    v.mul_scalar_assign(3);
    assert_eq!(v, Vector::new(-9, -6, -3));
    v.div_scalar_assign(4);
    assert_eq!(v, Vector::new(-2, -1, 0));
}

#[test]
fn equality_is_exact() {
    assert_ne!(Vector::new(1, 2, 3), Vector::new(1, 2, 4));
    let a = Vector::new(5, 6, 7);
    let b = a;
    assert_eq!(a, b);
}

#[test]
fn debug_lists_components() {
    let text = format!("{:?}", Vector::new(1, -2, 3));
    assert_eq!(text, "Vector { x: 1, y: -2, z: 3 }");
}
