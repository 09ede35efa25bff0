//! Numbers, points and transforms as the drawing engine takes them.
//!
//! The engine measures in 64-bit binary numbers with a fraction part. This
//! crate never computes with them: it only hands them on, so each one
//! travels as its bit pattern and is equal to another exactly when all 64
//! bits agree.

use vstd::prelude::*;

verus! {

/// The bit pattern of zero.
pub const ZERO_BITS: u64 = 0;

/// A number of the engine, held as its 64-bit pattern.
#[derive(Clone, Copy, Debug, PartialEq, Eq, Structural)]
pub struct Scalar {
    pub bits: u64,
}

impl Scalar {
    /// The number zero.
    pub open spec fn spec_zero() -> Scalar {
        Scalar { bits: ZERO_BITS }
    }

    /// The number zero.
    #[verifier::when_used_as_spec(spec_zero)]
    pub fn zero() -> (s: Scalar)
        ensures
            s == Scalar::spec_zero(),
    {
        Scalar { bits: ZERO_BITS }
    }
}

/// A point of the plane.
#[derive(Clone, Copy, Debug, PartialEq, Eq, Structural)]
pub struct Point {
    pub x: Scalar,
    pub y: Scalar,
}

impl Point {
    /// The origin.
    pub open spec fn spec_origin() -> Point {
        Point { x: Scalar::spec_zero(), y: Scalar::spec_zero() }
    }

    /// The origin.
    #[verifier::when_used_as_spec(spec_origin)]
    pub fn origin() -> (p: Point)
        ensures
            p == Point::spec_origin(),
    {
        Point { x: Scalar::zero(), y: Scalar::zero() }
    }
}

/// An affine transform of the plane by its six coefficients: a point
/// `(x, y)` goes to `(a x + c y + e, b x + d y + f)`.
#[derive(Clone, Copy, Debug, PartialEq, Eq, Structural)]
pub struct Affine {
    pub a: Scalar,
    pub b: Scalar,
    pub c: Scalar,
    pub d: Scalar,
    pub e: Scalar,
    pub f: Scalar,
}

/// The same transform as the engine names its parts: a point `(x, y)` goes
/// to `(xx x + xy y + x0, yx x + yy y + y0)`.
#[derive(Clone, Copy, Debug, PartialEq, Eq, Structural)]
pub struct Matrix {
    pub xx: Scalar,
    pub yx: Scalar,
    pub xy: Scalar,
    pub yy: Scalar,
    pub x0: Scalar,
    pub y0: Scalar,
}

/// The engine's matrix for a transform: the coefficients in their order,
/// not transposed.
pub open spec fn matrix_of(affine: Affine) -> Matrix {
    Matrix {
        xx: affine.a,
        yx: affine.b,
        xy: affine.c,
        yy: affine.d,
        x0: affine.e,
        y0: affine.f,
    }
}

/// The transform that an engine's matrix stands for.
pub open spec fn affine_of(matrix: Matrix) -> Affine {
    Affine {
        a: matrix.xx,
        b: matrix.yx,
        c: matrix.xy,
        d: matrix.yy,
        e: matrix.x0,
        f: matrix.y0,
    }
}

/// Hands a transform to the engine.
pub fn affine_to_matrix(affine: Affine) -> (matrix: Matrix)
    ensures
        matrix == matrix_of(affine),
{
    Matrix {
        xx: affine.a,
        yx: affine.b,
        xy: affine.c,
        yy: affine.d,
        x0: affine.e,
        y0: affine.f,
    }
}

/// Takes a transform back from the engine.
pub fn matrix_to_affine(matrix: Matrix) -> (affine: Affine)
    ensures
        affine == affine_of(matrix),
{
    Affine {
        a: matrix.xx,
        b: matrix.yx,
        c: matrix.xy,
        d: matrix.yy,
        e: matrix.x0,
        f: matrix.y0,
    }
}

/// A transform that goes to the engine and comes back is the same
/// transform, coefficient by coefficient and bit by bit.
pub proof fn lemma_affine_round_trip(affine: Affine)
    ensures
        affine_of(matrix_of(affine)) == affine,
{
}

/// A matrix that is read from the engine and handed back is the same
/// matrix.
pub proof fn lemma_matrix_round_trip(matrix: Matrix)
    ensures
        matrix_of(affine_of(matrix)) == matrix,
{
}

} // verus!
