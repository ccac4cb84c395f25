//! Three-dimensional vectors and 3x3 matrices over exact 64-bit integers.
//!
//! Every operation is stated over unbounded integers in its contract; a
//! caller only has to make sure that the exact results fit in an `i64`.
use vstd::prelude::*;

pub mod matrix;
pub mod vector;

pub use matrix::Matrix;
pub use vector::Vector;

verus! {

/// An exact integer value that an `i64` can hold.
pub open spec fn fits(v: int) -> bool {
    i64::MIN <= v <= i64::MAX
}

/// Every partial result of `a1 * b1 + a2 * b2 + a3 * b3`, evaluated from
/// left to right, fits in an `i64`.
pub open spec fn sum3_fits(a1: int, b1: int, a2: int, b2: int, a3: int, b3: int) -> bool {
    &&& fits(a1 * b1) && fits(a2 * b2) && fits(a3 * b3)
    &&& fits(a1 * b1 + a2 * b2)
    &&& fits(a1 * b1 + a2 * b2 + a3 * b3)
}

/// Integer division rounding toward zero, as Rust's `/` on integers does.
pub open spec fn div_trunc(a: int, b: int) -> int {
    if a >= 0 {
        a / b
    } else {
        -((-a) / b)
    }
}

} // verus!
