use vecmat::{Matrix, Vector};

fn sample() -> Matrix {
    Matrix::new(2, -1, 0, 3, 4, 5, -6, 1, 7)
}

#[test]
fn identical_rows_have_no_inverse() {
    let m = Matrix::new(1, 2, 3, 1, 2, 3, 4, 5, 6);
    assert_eq!(m.determinant(), 0);
    assert!(m.inverse().is_none());
}

#[test]
fn determinant_by_cofactors() {
    assert_eq!(sample().determinant(), 2 * (28 - 5) + (21 + 30));
    assert_eq!(Matrix::unity().determinant(), 1);
    assert_eq!(Matrix::new(2, 0, 0, 0, 3, 0, 0, 0, 4).determinant(), 24);
}

#[test]
fn inverse_of_unimodular_matrix() {
    let m = Matrix::new(2, 3, 1, 1, 2, 1, 0, 0, 1);
    assert_eq!(m.determinant(), 1);
    let inv = m.inverse().unwrap();
    assert_eq!(inv, Matrix::new(2, -3, 1, -1, 2, -1, 0, 0, 1));
    assert_eq!(m.mul(&inv), Matrix::unity());
    assert_eq!(inv.mul(&m), Matrix::unity());
}

#[test]
fn inverse_with_negative_determinant() {
    let m = Matrix::new(0, 1, 0, 1, 0, 0, 0, 0, 1);
    assert_eq!(m.determinant(), -1);
    let inv = m.inverse().unwrap();
    assert_eq!(inv, m);
    assert_eq!(m.mul(&inv), Matrix::unity());
}

#[test]
fn inverse_rounds_reciprocal_toward_zero() {
    let m = Matrix::new(2, 0, 0, 0, 1, 0, 0, 0, 1);
    assert_eq!(m.determinant(), 2);
    assert_eq!(m.inverse(), Some(Matrix::default()));
}

#[test]
fn transpose_twice_is_identity() {
    let m = sample();
    let t = m.transpose();
    assert_eq!(t, Matrix::new(2, 3, -6, -1, 4, 1, 0, 5, 7));
    assert_eq!(t.transpose(), m);
}

#[test]
fn unity_is_neutral() {
    let m = sample();
    assert_eq!(Matrix::unity().mul(&m), m);
    assert_eq!(m.mul(&Matrix::unity()), m);
}

#[test]
fn product_is_associative() {
    let a = sample();
    let b = Matrix::new(1, 2, 3, 4, 5, 6, 7, 8, 9);
    let c = Matrix::new(-1, 0, 2, 3, -2, 1, 0, 4, -3);
    assert_eq!(a.mul(&b).mul(&c), a.mul(&b.mul(&c)));
}

#[test]
fn product_is_not_commutative() {
    let a = Matrix::new(1, 1, 0, 0, 1, 0, 0, 0, 1);
    let b = Matrix::new(1, 0, 0, 1, 1, 0, 0, 0, 1);
    assert_eq!(a.mul(&b), Matrix::new(2, 1, 0, 1, 1, 0, 0, 0, 1));
    assert_eq!(b.mul(&a), Matrix::new(1, 1, 0, 1, 2, 0, 0, 0, 1));
    assert_ne!(a.mul(&b), b.mul(&a));
}

#[test]
fn product_in_place() {
    let mut m = sample();
    m.mul_assign(&Matrix::unity());
    assert_eq!(m, sample());
    m.mul_assign(&Matrix::scalar(1));
    assert_eq!(m, Matrix::new(1, 1, 1, 12, 12, 12, 2, 2, 2));
}

#[test]
fn matrix_times_vector_uses_rows() {
    let quarter_turn = Matrix::new(0, -1, 0, 1, 0, 0, 0, 0, 1);
    assert_eq!(quarter_turn.mul_vector(&Vector::x_axis()), Vector::y_axis());
    let m = Matrix::new(1, 2, 3, 4, 5, 6, 7, 8, 9);
    assert_eq!(m.mul_vector(&Vector::new(1, -1, 2)), Vector::new(5, 11, 17));
}

#[test]
fn cellwise_arithmetic() {
    let a = sample();
    let b = Matrix::scalar(3);
    assert_eq!(a.add(&b), Matrix::new(5, 2, 3, 6, 7, 8, -3, 4, 10));
    assert_eq!(a.sub(&b), Matrix::new(-1, -4, -3, 0, 1, 2, -9, -2, 4));
    assert_eq!(a.mul_scalar(2), Matrix::new(4, -2, 0, 6, 8, 10, -12, 2, 14));
    assert_eq!(a.div_scalar(2), Matrix::new(1, 0, 0, 1, 2, 2, -3, 0, 3));
}

#[test]
fn cellwise_arithmetic_in_place() {
    let mut m = sample();
    m.add_assign(&Matrix::scalar(1));
    assert_eq!(m, Matrix::new(3, 0, 1, 4, 5, 6, -5, 2, 8));
    m.sub_assign(&Matrix::unity());
    assert_eq!(m, Matrix::new(2, 0, 1, 4, 4, 6, -5, 2, 7));
    m.mul_scalar_assign(-1);
    assert_eq!(m, Matrix::new(-2, 0, -1, -4, -4, -6, 5, -2, -7));
    m.div_scalar_assign(3);
    assert_eq!(m, Matrix::new(0, 0, 0, -1, -1, -2, 1, 0, -2));
}

#[test]
fn constructors_fill_cells() {
    assert_eq!(Matrix::default(), Matrix::scalar(0));
    assert_eq!(Matrix::unity(), Matrix::new(1, 0, 0, 0, 1, 0, 0, 0, 1));
    let m = Matrix::new(1, 2, 3, 4, 5, 6, 7, 8, 9);
    assert_eq!((m.m12, m.m21, m.m33), (2, 4, 9));
}
