use vstd::prelude::*;

use crate::vector::Vector;
use crate::{div_trunc, fits, sum3_fits};

verus! {

/// A 3x3 matrix stored row by row: `m11..m13` is the first row.
///
/// Equality is exact and cellwise.
#[derive(Clone, Copy, Debug, PartialEq, Eq, Structural)]
pub struct Matrix {
    pub m11: i64,
    pub m12: i64,
    pub m13: i64,
    pub m21: i64,
    pub m22: i64,
    pub m23: i64,
    pub m31: i64,
    pub m32: i64,
    pub m33: i64,
}

/// The mathematical value of a matrix: nine unbounded integers, row by row.
pub struct Grid {
    pub m11: int,
    pub m12: int,
    pub m13: int,
    pub m21: int,
    pub m22: int,
    pub m23: int,
    pub m31: int,
    pub m32: int,
    pub m33: int,
}

impl View for Matrix {
    type V = Grid;

    open spec fn view(&self) -> Grid {
        Grid {
            m11: self.m11 as int,
            m12: self.m12 as int,
            m13: self.m13 as int,
            m21: self.m21 as int,
            m22: self.m22 as int,
            m23: self.m23 as int,
            m31: self.m31 as int,
            m32: self.m32 as int,
            m33: self.m33 as int,
        }
    }
}

/// Every cell of a grid fits in an `i64`.
pub open spec fn grid_fits(g: Grid) -> bool {
    &&& fits(g.m11) && fits(g.m12) && fits(g.m13)
    &&& fits(g.m21) && fits(g.m22) && fits(g.m23)
    &&& fits(g.m31) && fits(g.m32) && fits(g.m33)
}

/// The grid with every cell equal to `v`.
pub open spec fn grid_const(v: int) -> Grid {
    Grid { m11: v, m12: v, m13: v, m21: v, m22: v, m23: v, m31: v, m32: v, m33: v }
}

/// The identity: ones on the diagonal, zeros elsewhere.
pub open spec fn grid_identity() -> Grid {
    Grid { m11: 1, m12: 0, m13: 0, m21: 0, m22: 1, m23: 0, m31: 0, m32: 0, m33: 1 }
}

/// The determinant, by cofactor expansion along the first row.
pub open spec fn grid_det(g: Grid) -> int {
    g.m11 * (g.m22 * g.m33 - g.m23 * g.m32) - g.m12 * (g.m21 * g.m33 - g.m23 * g.m31) + g.m13 * (
    g.m21 * g.m32 - g.m22 * g.m31)
}

/// Rows and columns exchanged.
pub open spec fn grid_transpose(g: Grid) -> Grid {
    Grid {
        m11: g.m11,
        m12: g.m21,
        m13: g.m31,
        m21: g.m12,
        m22: g.m22,
        m23: g.m32,
        m31: g.m13,
        m32: g.m23,
        m33: g.m33,
    }
}

/// The row-by-column product.
pub open spec fn grid_mul(a: Grid, b: Grid) -> Grid {
    Grid {
        m11: a.m11 * b.m11 + a.m12 * b.m21 + a.m13 * b.m31,
        m12: a.m11 * b.m12 + a.m12 * b.m22 + a.m13 * b.m32,
        m13: a.m11 * b.m13 + a.m12 * b.m23 + a.m13 * b.m33,
        m21: a.m21 * b.m11 + a.m22 * b.m21 + a.m23 * b.m31,
        m22: a.m21 * b.m12 + a.m22 * b.m22 + a.m23 * b.m32,
        m23: a.m21 * b.m13 + a.m22 * b.m23 + a.m23 * b.m33,
        m31: a.m31 * b.m11 + a.m32 * b.m21 + a.m33 * b.m31,
        m32: a.m31 * b.m12 + a.m32 * b.m22 + a.m33 * b.m32,
        m33: a.m31 * b.m13 + a.m32 * b.m23 + a.m33 * b.m33,
    }
}

/// The adjugate: the transpose of the cofactor matrix.
pub open spec fn grid_adjugate(g: Grid) -> Grid {
    Grid {
        m11: g.m22 * g.m33 - g.m23 * g.m32,
        m12: g.m13 * g.m32 - g.m12 * g.m33,
        m13: g.m12 * g.m23 - g.m13 * g.m22,
        m21: g.m23 * g.m31 - g.m21 * g.m33,
        m22: g.m11 * g.m33 - g.m13 * g.m31,
        m23: g.m21 * g.m13 - g.m11 * g.m23,
        m31: g.m21 * g.m32 - g.m22 * g.m31,
        m32: g.m12 * g.m31 - g.m11 * g.m32,
        m33: g.m11 * g.m22 - g.m12 * g.m21,
    }
}

/// Every cell multiplied by `k`.
pub open spec fn grid_scale(g: Grid, k: int) -> Grid {
    Grid {
        m11: g.m11 * k,
        m12: g.m12 * k,
        m13: g.m13 * k,
        m21: g.m21 * k,
        m22: g.m22 * k,
        m23: g.m23 * k,
        m31: g.m31 * k,
        m32: g.m32 * k,
        m33: g.m33 * k,
    }
}

/// Every cell divided by `k`, rounding toward zero.
pub open spec fn grid_div(g: Grid, k: int) -> Grid {
    Grid {
        m11: div_trunc(g.m11, k),
        m12: div_trunc(g.m12, k),
        m13: div_trunc(g.m13, k),
        m21: div_trunc(g.m21, k),
        m22: div_trunc(g.m22, k),
        m23: div_trunc(g.m23, k),
        m31: div_trunc(g.m31, k),
        m32: div_trunc(g.m32, k),
        m33: div_trunc(g.m33, k),
    }
}

/// The cellwise sum.
pub open spec fn grid_add(a: Grid, b: Grid) -> Grid {
    Grid {
        m11: a.m11 + b.m11,
        m12: a.m12 + b.m12,
        m13: a.m13 + b.m13,
        m21: a.m21 + b.m21,
        m22: a.m22 + b.m22,
        m23: a.m23 + b.m23,
        m31: a.m31 + b.m31,
        m32: a.m32 + b.m32,
        m33: a.m33 + b.m33,
    }
}

/// The cellwise difference.
pub open spec fn grid_sub(a: Grid, b: Grid) -> Grid {
    Grid {
        m11: a.m11 - b.m11,
        m12: a.m12 - b.m12,
        m13: a.m13 - b.m13,
        m21: a.m21 - b.m21,
        m22: a.m22 - b.m22,
        m23: a.m23 - b.m23,
        m31: a.m31 - b.m31,
        m32: a.m32 - b.m32,
        m33: a.m33 - b.m33,
    }
}

/// The integer reciprocal `1 / d`, rounded toward zero: nonzero only for
/// `d == 1` and `d == -1`.
pub open spec fn reciprocal(d: int) -> int {
    if d == 1 {
        1
    } else if d == -1 {
        -1
    } else {
        0
    }
}

/// The inverse of a matrix with a nonzero determinant: the adjugate scaled by
/// the integer reciprocal of the determinant. It is exact when the
/// determinant is 1 or -1.
pub open spec fn grid_inverse(g: Grid) -> Grid {
    grid_scale(grid_adjugate(g), reciprocal(grid_det(g)))
}

/// The product of two factors minus the product of two others: both
/// products and the difference fit in an `i64`.
pub open spec fn diff_fits(a: int, b: int, c: int, d: int) -> bool {
    fits(a * b) && fits(c * d) && fits(a * b - c * d)
}

/// Every partial result of the determinant fits in an `i64`.
pub open spec fn det_fits(g: Grid) -> bool {
    let c1 = g.m22 * g.m33 - g.m23 * g.m32;
    let c2 = g.m21 * g.m33 - g.m23 * g.m31;
    let c3 = g.m21 * g.m32 - g.m22 * g.m31;
    &&& diff_fits(g.m22, g.m33, g.m23, g.m32)
    &&& diff_fits(g.m21, g.m33, g.m23, g.m31)
    &&& diff_fits(g.m21, g.m32, g.m22, g.m31)
    &&& fits(g.m11 * c1) && fits(g.m12 * c2) && fits(g.m13 * c3)
    &&& fits(g.m11 * c1 - g.m12 * c2)
    &&& fits(grid_det(g))
}

/// Every partial result of the adjugate fits in an `i64`, and so does the
/// adjugate scaled by the reciprocal of the determinant.
pub open spec fn adjugate_fits(g: Grid) -> bool {
    &&& diff_fits(g.m22, g.m33, g.m23, g.m32)
    &&& diff_fits(g.m13, g.m32, g.m12, g.m33)
    &&& diff_fits(g.m12, g.m23, g.m13, g.m22)
    &&& diff_fits(g.m23, g.m31, g.m21, g.m33)
    &&& diff_fits(g.m11, g.m33, g.m13, g.m31)
    &&& diff_fits(g.m21, g.m13, g.m11, g.m23)
    &&& diff_fits(g.m21, g.m32, g.m22, g.m31)
    &&& diff_fits(g.m12, g.m31, g.m11, g.m32)
    &&& diff_fits(g.m11, g.m22, g.m12, g.m21)
    &&& grid_fits(grid_inverse(g))
}

/// Every partial result of the product `a * b` fits in an `i64`.
pub open spec fn mul_fits(a: Grid, b: Grid) -> bool {
    &&& sum3_fits(a.m11, b.m11, a.m12, b.m21, a.m13, b.m31)
    &&& sum3_fits(a.m11, b.m12, a.m12, b.m22, a.m13, b.m32)
    &&& sum3_fits(a.m11, b.m13, a.m12, b.m23, a.m13, b.m33)
    &&& sum3_fits(a.m21, b.m11, a.m22, b.m21, a.m23, b.m31)
    &&& sum3_fits(a.m21, b.m12, a.m22, b.m22, a.m23, b.m32)
    &&& sum3_fits(a.m21, b.m13, a.m22, b.m23, a.m23, b.m33)
    &&& sum3_fits(a.m31, b.m11, a.m32, b.m21, a.m33, b.m31)
    &&& sum3_fits(a.m31, b.m12, a.m32, b.m22, a.m33, b.m32)
    &&& sum3_fits(a.m31, b.m13, a.m32, b.m23, a.m33, b.m33)
}

impl Default for Matrix {
    /// The zero matrix.
    fn default() -> (r: Matrix)
        ensures
            r@ == grid_const(0),
    {
        Matrix { m11: 0, m12: 0, m13: 0, m21: 0, m22: 0, m23: 0, m31: 0, m32: 0, m33: 0 }
    }
}

impl Matrix {
    /// The matrix with the given cells, row by row.
    pub fn new(
        m11: i64,
        m12: i64,
        m13: i64,
        m21: i64,
        m22: i64,
        m23: i64,
        m31: i64,
        m32: i64,
        m33: i64,
    ) -> (r: Matrix)
        ensures
            r.m11 == m11 && r.m12 == m12 && r.m13 == m13,
            r.m21 == m21 && r.m22 == m22 && r.m23 == m23,
            r.m31 == m31 && r.m32 == m32 && r.m33 == m33,
    {
        Matrix { m11, m12, m13, m21, m22, m23, m31, m32, m33 }
    }

    /// The matrix with every cell equal to `scalar`.
    pub fn scalar(scalar: i64) -> (r: Matrix)
        ensures
            r@ == grid_const(scalar as int),
    {
        Matrix {
            m11: scalar,
            m12: scalar,
            m13: scalar,
            m21: scalar,
            m22: scalar,
            m23: scalar,
            m31: scalar,
            m32: scalar,
            m33: scalar,
        }
    }

    /// The identity matrix.
    pub fn unity() -> (r: Matrix)
        ensures
            r@ == grid_identity(),
    {
        Matrix { m11: 1, m12: 0, m13: 0, m21: 0, m22: 1, m23: 0, m31: 0, m32: 0, m33: 1 }
    }

    /// The determinant, by cofactor expansion along the first row.
    pub fn determinant(&self) -> (r: i64)
        requires
            det_fits(self@),
        ensures
            r == grid_det(self@),
    {
        self.m11 * (self.m22 * self.m33 - self.m23 * self.m32) - self.m12 * (self.m21 * self.m33
            - self.m23 * self.m31) + self.m13 * (self.m21 * self.m32 - self.m22 * self.m31)
    }

    /// The matrix with rows and columns exchanged.
    pub fn transpose(&self) -> (r: Matrix)
        ensures
            r@ == grid_transpose(self@),
    {
        Matrix {
            m11: self.m11,
            m12: self.m21,
            m13: self.m31,
            m21: self.m12,
            m22: self.m22,
            m23: self.m32,
            m31: self.m13,
            m32: self.m23,
            m33: self.m33,
        }
    }

    /// The inverse: absent exactly when the determinant is zero; otherwise the
    /// adjugate scaled by the determinant's reciprocal, rounded toward zero.
    pub fn inverse(&self) -> (r: Option<Matrix>)
        requires
            det_fits(self@),
            adjugate_fits(self@),
        ensures
            r is None <==> grid_det(self@) == 0,
            r matches Some(inv) ==> inv@ == grid_inverse(self@),
    {
        let det = self.determinant();
        if det == 0 {
            return None;
        }
        let inv_det: i64 = if det == 1 {
            1
        } else if det == -1 {
            -1
        } else {
            0
        };
        Some(
            Matrix {
                m11: (self.m22 * self.m33 - self.m23 * self.m32) * inv_det,
                m12: (self.m13 * self.m32 - self.m12 * self.m33) * inv_det,
                m13: (self.m12 * self.m23 - self.m13 * self.m22) * inv_det,
                m21: (self.m23 * self.m31 - self.m21 * self.m33) * inv_det,
                m22: (self.m11 * self.m33 - self.m13 * self.m31) * inv_det,
                m23: (self.m21 * self.m13 - self.m11 * self.m23) * inv_det,
                m31: (self.m21 * self.m32 - self.m22 * self.m31) * inv_det,
                m32: (self.m12 * self.m31 - self.m11 * self.m32) * inv_det,
                m33: (self.m11 * self.m22 - self.m12 * self.m21) * inv_det,
            },
        )
    }

    /// The row-by-column product `self * rhs`.
    pub fn mul(&self, rhs: &Matrix) -> (r: Matrix)
        requires
            mul_fits(self@, rhs@),
        ensures
            r@ == grid_mul(self@, rhs@),
    {
        Matrix {
            m11: self.m11 * rhs.m11 + self.m12 * rhs.m21 + self.m13 * rhs.m31,
            m12: self.m11 * rhs.m12 + self.m12 * rhs.m22 + self.m13 * rhs.m32,
            m13: self.m11 * rhs.m13 + self.m12 * rhs.m23 + self.m13 * rhs.m33,
            m21: self.m21 * rhs.m11 + self.m22 * rhs.m21 + self.m23 * rhs.m31,
            m22: self.m21 * rhs.m12 + self.m22 * rhs.m22 + self.m23 * rhs.m32,
            m23: self.m21 * rhs.m13 + self.m22 * rhs.m23 + self.m23 * rhs.m33,
            m31: self.m31 * rhs.m11 + self.m32 * rhs.m21 + self.m33 * rhs.m31,
            m32: self.m31 * rhs.m12 + self.m32 * rhs.m22 + self.m33 * rhs.m32,
            m33: self.m31 * rhs.m13 + self.m32 * rhs.m23 + self.m33 * rhs.m33,
        }
    }

    /// Replaces this matrix by the product `self * rhs`.
    pub fn mul_assign(&mut self, rhs: &Matrix)
        requires
            mul_fits(old(self)@, rhs@),
        ensures
            final(self)@ == grid_mul(old(self)@, rhs@),
    {
        *self = self.mul(rhs);
    }

    /// The linear map applied to a vector: each component of the result is
    /// the inner product of one row with `v`.
    pub fn mul_vector(&self, v: &Vector) -> (r: Vector)
        requires
            sum3_fits(self.m11 as int, v.x as int, self.m12 as int, v.y as int, self.m13 as int, v.z as int),
            sum3_fits(self.m21 as int, v.x as int, self.m22 as int, v.y as int, self.m23 as int, v.z as int),
            sum3_fits(self.m31 as int, v.x as int, self.m32 as int, v.y as int, self.m33 as int, v.z as int),
        ensures
            r.x == self.m11 * v.x + self.m12 * v.y + self.m13 * v.z,
            r.y == self.m21 * v.x + self.m22 * v.y + self.m23 * v.z,
            r.z == self.m31 * v.x + self.m32 * v.y + self.m33 * v.z,
    {
        Vector {
            x: self.m11 * v.x + self.m12 * v.y + self.m13 * v.z,
            y: self.m21 * v.x + self.m22 * v.y + self.m23 * v.z,
            z: self.m31 * v.x + self.m32 * v.y + self.m33 * v.z,
        }
    }

    /// The cellwise sum.
    pub fn add(&self, rhs: &Matrix) -> (r: Matrix)
        requires
            grid_fits(grid_add(self@, rhs@)),
        ensures
            r@ == grid_add(self@, rhs@),
    {
        Matrix {
            m11: self.m11 + rhs.m11,
            m12: self.m12 + rhs.m12,
            m13: self.m13 + rhs.m13,
            m21: self.m21 + rhs.m21,
            m22: self.m22 + rhs.m22,
            m23: self.m23 + rhs.m23,
            m31: self.m31 + rhs.m31,
            m32: self.m32 + rhs.m32,
            m33: self.m33 + rhs.m33,
        }
    }

    /// The cellwise difference.
    pub fn sub(&self, rhs: &Matrix) -> (r: Matrix)
        requires
            grid_fits(grid_sub(self@, rhs@)),
        ensures
            r@ == grid_sub(self@, rhs@),
    {
        Matrix {
            m11: self.m11 - rhs.m11,
            m12: self.m12 - rhs.m12,
            m13: self.m13 - rhs.m13,
            m21: self.m21 - rhs.m21,
            m22: self.m22 - rhs.m22,
            m23: self.m23 - rhs.m23,
            m31: self.m31 - rhs.m31,
            m32: self.m32 - rhs.m32,
            m33: self.m33 - rhs.m33,
        }
    }

    /// Every cell multiplied by `scalar`.
    pub fn mul_scalar(&self, scalar: i64) -> (r: Matrix)
        requires
            grid_fits(grid_scale(self@, scalar as int)),
        ensures
            r@ == grid_scale(self@, scalar as int),
    {
        Matrix {
            m11: self.m11 * scalar,
            m12: self.m12 * scalar,
            m13: self.m13 * scalar,
            m21: self.m21 * scalar,
            m22: self.m22 * scalar,
            m23: self.m23 * scalar,
            m31: self.m31 * scalar,
            m32: self.m32 * scalar,
            m33: self.m33 * scalar,
        }
    }

    /// Every cell divided by `scalar`, rounding toward zero.
    pub fn div_scalar(&self, scalar: i64) -> (r: Matrix)
        requires
            scalar != 0,
            grid_fits(grid_div(self@, scalar as int)),
        ensures
            r@ == grid_div(self@, scalar as int),
    {
        Matrix {
            m11: self.m11 / scalar,
            m12: self.m12 / scalar,
            m13: self.m13 / scalar,
            m21: self.m21 / scalar,
            m22: self.m22 / scalar,
            m23: self.m23 / scalar,
            m31: self.m31 / scalar,
            m32: self.m32 / scalar,
            m33: self.m33 / scalar,
        }
    }

    /// Adds `rhs` to this matrix in place.
    pub fn add_assign(&mut self, rhs: &Matrix)
        requires
            grid_fits(grid_add(old(self)@, rhs@)),
        ensures
            final(self)@ == grid_add(old(self)@, rhs@),
    {
        *self = self.add(rhs);
    }

    /// Subtracts `rhs` from this matrix in place.
    pub fn sub_assign(&mut self, rhs: &Matrix)
        requires
            grid_fits(grid_sub(old(self)@, rhs@)),
        ensures
            final(self)@ == grid_sub(old(self)@, rhs@),
    {
        *self = self.sub(rhs);
    }

    /// Multiplies every cell by `scalar` in place.
    pub fn mul_scalar_assign(&mut self, scalar: i64)
        requires
            grid_fits(grid_scale(old(self)@, scalar as int)),
        ensures
            final(self)@ == grid_scale(old(self)@, scalar as int),
    {
        *self = self.mul_scalar(scalar);
    }

    /// Divides every cell by `scalar` in place, rounding toward zero.
    pub fn div_scalar_assign(&mut self, scalar: i64)
        requires
            scalar != 0,
            grid_fits(grid_div(old(self)@, scalar as int)),
        ensures
            final(self)@ == grid_div(old(self)@, scalar as int),
    {
        *self = self.div_scalar(scalar);
    }
}

/// Transposing twice gives back the matrix.
pub proof fn lemma_transpose_involutive(m: Matrix)
    ensures
        grid_transpose(grid_transpose(m@)) == m@,
{
}

/// The identity matrix is neutral for the product, on either side.
pub proof fn lemma_unity_neutral(m: Matrix)
    ensures
        grid_mul(grid_identity(), m@) == m@,
        grid_mul(m@, grid_identity()) == m@,
{
}

/// `a * (p * q - r * s)` as two monomials whose factors are in a fixed order.
proof fn lemma_times_diff(a: int, p: int, q: int, r: int, s: int)
    ensures
        a * (p * q - r * s) == a * p * q - a * r * s,
        a * p * q == a * q * p && a * p * q == p * a * q && a * p * q == p * q * a,
        a * p * q == q * a * p && a * p * q == q * p * a,
        a * r * s == a * s * r && a * r * s == r * a * s && a * r * s == r * s * a,
        a * r * s == s * a * r && a * r * s == s * r * a,
{
    assert(a * (p * q - r * s) == a * p * q - a * r * s) by (nonlinear_arith);
    assert(a * p * q == a * q * p && a * p * q == p * a * q && a * p * q == p * q * a
        && a * p * q == q * a * p && a * p * q == q * p * a) by (nonlinear_arith);
    assert(a * r * s == a * s * r && a * r * s == r * a * s && a * r * s == r * s * a
        && a * r * s == s * a * r && a * r * s == s * r * a) by (nonlinear_arith);
}

/// A matrix times its adjugate is its determinant times the identity; here
/// cell by cell over the nine entries.
proof fn lemma_cells_times_adjugate(
    m11: int, m12: int, m13: int, m21: int, m22: int, m23: int, m31: int, m32: int, m33: int,
    d: int,
)
    requires
        d == m11 * (m22 * m33 - m23 * m32) - m12 * (m21 * m33 - m23 * m31) + m13 * (m21 * m32 - m22 * m31),
    ensures
        m11 * (m22 * m33 - m23 * m32) + m12 * (m23 * m31 - m21 * m33) + m13 * (m21 * m32 - m22 * m31) == d,
        m11 * (m13 * m32 - m12 * m33) + m12 * (m11 * m33 - m13 * m31) + m13 * (m12 * m31 - m11 * m32) == 0,
        m11 * (m12 * m23 - m13 * m22) + m12 * (m21 * m13 - m11 * m23) + m13 * (m11 * m22 - m12 * m21) == 0,
        m21 * (m22 * m33 - m23 * m32) + m22 * (m23 * m31 - m21 * m33) + m23 * (m21 * m32 - m22 * m31) == 0,
        m21 * (m13 * m32 - m12 * m33) + m22 * (m11 * m33 - m13 * m31) + m23 * (m12 * m31 - m11 * m32) == d,
        m21 * (m12 * m23 - m13 * m22) + m22 * (m21 * m13 - m11 * m23) + m23 * (m11 * m22 - m12 * m21) == 0,
        m31 * (m22 * m33 - m23 * m32) + m32 * (m23 * m31 - m21 * m33) + m33 * (m21 * m32 - m22 * m31) == 0,
        m31 * (m13 * m32 - m12 * m33) + m32 * (m11 * m33 - m13 * m31) + m33 * (m12 * m31 - m11 * m32) == 0,
        m31 * (m12 * m23 - m13 * m22) + m32 * (m21 * m13 - m11 * m23) + m33 * (m11 * m22 - m12 * m21) == d,
{
    lemma_times_diff(m11, m12, m23, m13, m22);
    lemma_times_diff(m11, m13, m32, m12, m33);
    lemma_times_diff(m11, m22, m33, m23, m32);
    lemma_times_diff(m12, m11, m33, m13, m31);
    lemma_times_diff(m12, m21, m13, m11, m23);
    lemma_times_diff(m12, m21, m33, m23, m31);
    lemma_times_diff(m12, m23, m31, m21, m33);
    lemma_times_diff(m13, m11, m22, m12, m21);
    lemma_times_diff(m13, m12, m31, m11, m32);
    lemma_times_diff(m13, m21, m32, m22, m31);
    lemma_times_diff(m21, m12, m23, m13, m22);
    lemma_times_diff(m21, m13, m32, m12, m33);
    lemma_times_diff(m21, m22, m33, m23, m32);
    lemma_times_diff(m22, m11, m33, m13, m31);
    lemma_times_diff(m22, m21, m13, m11, m23);
    lemma_times_diff(m22, m23, m31, m21, m33);
    lemma_times_diff(m23, m11, m22, m12, m21);
    lemma_times_diff(m23, m12, m31, m11, m32);
    lemma_times_diff(m23, m21, m32, m22, m31);
    lemma_times_diff(m31, m12, m23, m13, m22);
    lemma_times_diff(m31, m13, m32, m12, m33);
    lemma_times_diff(m31, m22, m33, m23, m32);
    lemma_times_diff(m32, m11, m33, m13, m31);
    lemma_times_diff(m32, m21, m13, m11, m23);
    lemma_times_diff(m32, m23, m31, m21, m33);
    lemma_times_diff(m33, m11, m22, m12, m21);
    lemma_times_diff(m33, m12, m31, m11, m32);
    lemma_times_diff(m33, m21, m32, m22, m31);
}

/// A matrix times its adjugate is its determinant times the identity.
pub proof fn lemma_mul_adjugate(m: Matrix)
    ensures
        grid_mul(m@, grid_adjugate(m@)) == grid_scale(grid_identity(), grid_det(m@)),
{
    let g = m@;
    lemma_cells_times_adjugate(g.m11, g.m12, g.m13, g.m21, g.m22, g.m23, g.m31, g.m32, g.m33, grid_det(g));
}

proof fn lemma_row_scaled_column(a1: int, a2: int, a3: int, b1: int, b2: int, b3: int, k: int)
    ensures
        a1 * (b1 * k) + a2 * (b2 * k) + a3 * (b3 * k) == (a1 * b1 + a2 * b2 + a3 * b3) * k,
{
    assert(a1 * (b1 * k) == a1 * b1 * k && a2 * (b2 * k) == a2 * b2 * k && a3 * (b3 * k) == a3
        * b3 * k) by (nonlinear_arith);
    lemma_sum3_times(a1 * b1, a2 * b2, a3 * b3, k);
}

/// Scaling the right factor of a product scales the product.
proof fn lemma_mul_scale_right(a: Grid, b: Grid, k: int)
    ensures
        grid_mul(a, grid_scale(b, k)) == grid_scale(grid_mul(a, b), k),
{
    lemma_row_scaled_column(a.m11, a.m12, a.m13, b.m11, b.m21, b.m31, k);
    lemma_row_scaled_column(a.m11, a.m12, a.m13, b.m12, b.m22, b.m32, k);
    lemma_row_scaled_column(a.m11, a.m12, a.m13, b.m13, b.m23, b.m33, k);
    lemma_row_scaled_column(a.m21, a.m22, a.m23, b.m11, b.m21, b.m31, k);
    lemma_row_scaled_column(a.m21, a.m22, a.m23, b.m12, b.m22, b.m32, k);
    lemma_row_scaled_column(a.m21, a.m22, a.m23, b.m13, b.m23, b.m33, k);
    lemma_row_scaled_column(a.m31, a.m32, a.m33, b.m11, b.m21, b.m31, k);
    lemma_row_scaled_column(a.m31, a.m32, a.m33, b.m12, b.m22, b.m32, k);
    lemma_row_scaled_column(a.m31, a.m32, a.m33, b.m13, b.m23, b.m33, k);
}

/// A matrix whose determinant is 1 or -1 times its inverse is the identity.
pub proof fn lemma_inverse_right(m: Matrix)
    requires
        grid_det(m@) == 1 || grid_det(m@) == -1,
    ensures
        grid_mul(m@, grid_inverse(m@)) == grid_identity(),
{
    let d = grid_det(m@);
    lemma_mul_adjugate(m);
    lemma_mul_scale_right(m@, grid_adjugate(m@), reciprocal(d));
}

/// One cell of the associativity of the product: a row `a` times the
/// grid `b` times a column `c`, grouped either way.
proof fn lemma_row_grid_column(
    a1: int, a2: int, a3: int,
    b11: int, b12: int, b13: int, b21: int, b22: int, b23: int, b31: int, b32: int, b33: int,
    c1: int, c2: int, c3: int,
)
    ensures
        (a1 * b11 + a2 * b21 + a3 * b31) * c1 + (a1 * b12 + a2 * b22 + a3 * b32) * c2 + (a1 * b13
            + a2 * b23 + a3 * b33) * c3 == a1 * (b11 * c1 + b12 * c2 + b13 * c3) + a2 * (b21 * c1
            + b22 * c2 + b23 * c3) + a3 * (b31 * c1 + b32 * c2 + b33 * c3),
{
    lemma_sum3_times(a1 * b11, a2 * b21, a3 * b31, c1);
    lemma_sum3_times(a1 * b12, a2 * b22, a3 * b32, c2);
    lemma_sum3_times(a1 * b13, a2 * b23, a3 * b33, c3);
    lemma_times_sum3(a1, b11 * c1, b12 * c2, b13 * c3);
    lemma_times_sum3(a2, b21 * c1, b22 * c2, b23 * c3);
    lemma_times_sum3(a3, b31 * c1, b32 * c2, b33 * c3);
    assert(a1 * b11 * c1 == a1 * (b11 * c1) && a1 * b12 * c2 == a1 * (b12 * c2) && a1 * b13 * c3
        == a1 * (b13 * c3)) by (nonlinear_arith);
    assert(a2 * b21 * c1 == a2 * (b21 * c1) && a2 * b22 * c2 == a2 * (b22 * c2) && a2 * b23 * c3
        == a2 * (b23 * c3)) by (nonlinear_arith);
    assert(a3 * b31 * c1 == a3 * (b31 * c1) && a3 * b32 * c2 == a3 * (b32 * c2) && a3 * b33 * c3
        == a3 * (b33 * c3)) by (nonlinear_arith);
}

proof fn lemma_sum3_times(p: int, q: int, r: int, c: int)
    ensures
        (p + q + r) * c == p * c + q * c + r * c,
{
    assert((p + q + r) * c == p * c + q * c + r * c) by (nonlinear_arith);
}

proof fn lemma_times_sum3(a: int, p: int, q: int, r: int)
    ensures
        a * (p + q + r) == a * p + a * q + a * r,
{
    assert(a * (p + q + r) == a * p + a * q + a * r) by (nonlinear_arith);
}

/// The matrix product is associative.
pub proof fn lemma_mul_associative(a: Matrix, b: Matrix, c: Matrix)
    ensures
        grid_mul(grid_mul(a@, b@), c@) == grid_mul(a@, grid_mul(b@, c@)),
{
    let (x, y, z) = (a@, b@, c@);
    lemma_row_grid_column(x.m11, x.m12, x.m13, y.m11, y.m12, y.m13, y.m21, y.m22, y.m23, y.m31, y.m32, y.m33, z.m11, z.m21, z.m31);
    lemma_row_grid_column(x.m11, x.m12, x.m13, y.m11, y.m12, y.m13, y.m21, y.m22, y.m23, y.m31, y.m32, y.m33, z.m12, z.m22, z.m32);
    lemma_row_grid_column(x.m11, x.m12, x.m13, y.m11, y.m12, y.m13, y.m21, y.m22, y.m23, y.m31, y.m32, y.m33, z.m13, z.m23, z.m33);
    lemma_row_grid_column(x.m21, x.m22, x.m23, y.m11, y.m12, y.m13, y.m21, y.m22, y.m23, y.m31, y.m32, y.m33, z.m11, z.m21, z.m31);
    lemma_row_grid_column(x.m21, x.m22, x.m23, y.m11, y.m12, y.m13, y.m21, y.m22, y.m23, y.m31, y.m32, y.m33, z.m12, z.m22, z.m32);
    lemma_row_grid_column(x.m21, x.m22, x.m23, y.m11, y.m12, y.m13, y.m21, y.m22, y.m23, y.m31, y.m32, y.m33, z.m13, z.m23, z.m33);
    lemma_row_grid_column(x.m31, x.m32, x.m33, y.m11, y.m12, y.m13, y.m21, y.m22, y.m23, y.m31, y.m32, y.m33, z.m11, z.m21, z.m31);
    lemma_row_grid_column(x.m31, x.m32, x.m33, y.m11, y.m12, y.m13, y.m21, y.m22, y.m23, y.m31, y.m32, y.m33, z.m12, z.m22, z.m32);
    lemma_row_grid_column(x.m31, x.m32, x.m33, y.m11, y.m12, y.m13, y.m21, y.m22, y.m23, y.m31, y.m32, y.m33, z.m13, z.m23, z.m33);
}

} // verus!
