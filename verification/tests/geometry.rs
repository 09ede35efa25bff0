use piet_cairo::geometry::{affine_to_matrix, matrix_to_affine, Affine, Matrix, Point, Scalar};

fn s(x: f64) -> Scalar {
    Scalar { bits: x.to_bits() }
}

#[test]
fn zero_is_zero() {
    assert_eq!(f64::from_bits(Scalar::zero().bits), 0.0);
    assert_eq!(Point::origin(), Point { x: s(0.0), y: s(0.0) });
}

#[test]
fn affine_to_matrix_keeps_the_order_of_the_coefficients() {
    let affine = Affine { a: s(1.0), b: s(2.0), c: s(3.0), d: s(4.0), e: s(5.0), f: s(6.0) };
    let matrix = affine_to_matrix(affine);
    assert_eq!(
        matrix,
        Matrix { xx: s(1.0), yx: s(2.0), xy: s(3.0), yy: s(4.0), x0: s(5.0), y0: s(6.0) }
    );
}

#[test]
fn matrix_to_affine_keeps_the_order_of_the_coefficients() {
    let matrix = Matrix { xx: s(1.0), yx: s(2.0), xy: s(3.0), yy: s(4.0), x0: s(5.0), y0: s(6.0) };
    assert_eq!(
        matrix_to_affine(matrix),
        Affine { a: s(1.0), b: s(2.0), c: s(3.0), d: s(4.0), e: s(5.0), f: s(6.0) }
    );
}

#[test]
fn rotation_is_not_transposed() {
    // A quarter turn: (x, y) goes to (-y, x).
    let turn = Affine { a: s(0.0), b: s(1.0), c: s(-1.0), d: s(0.0), e: s(0.0), f: s(0.0) };
    let matrix = affine_to_matrix(turn);
    assert_eq!(f64::from_bits(matrix.yx.bits), 1.0);
    assert_eq!(f64::from_bits(matrix.xy.bits), -1.0);
}

#[test]
fn affine_round_trip_gives_the_same_coefficients() {
    let cases = [
        [1.0, 0.0, 0.0, 1.0, 0.0, 0.0],
        [2.0, 0.0, 0.0, 3.0, 0.0, 0.0],
        [1.0, 0.0, 0.0, 1.0, 10.5, -7.25],
        [0.6, 0.8, -0.8, 0.6, 3.0, 4.0],
        [1e-300, -0.0, f64::MAX, f64::MIN_POSITIVE, 0.1, 1.0 / 3.0],
    ];
    for c in cases.iter() {
        let affine =
            Affine { a: s(c[0]), b: s(c[1]), c: s(c[2]), d: s(c[3]), e: s(c[4]), f: s(c[5]) };
        assert_eq!(matrix_to_affine(affine_to_matrix(affine)), affine);
    }
}

#[test]
fn matrix_round_trip_gives_the_same_matrix() {
    let matrix =
        Matrix { xx: s(0.5), yx: s(-1.5), xy: s(2.5), yy: s(-3.5), x0: s(4.5), y0: s(-5.5) };
    assert_eq!(affine_to_matrix(matrix_to_affine(matrix)), matrix);
}
