use piet::kurbo;
use piet_cairo::engine::EngineCall;
use piet_cairo::geometry::{Point, Scalar};
use piet_cairo::path::{set_path, PathEl};

fn p(x: f64, y: f64) -> Point {
    Point { x: Scalar { bits: x.to_bits() }, y: Scalar { bits: y.to_bits() } }
}

fn k(point: Point) -> kurbo::Point {
    kurbo::Point::new(f64::from_bits(point.x.bits), f64::from_bits(point.y.bits))
}

#[test]
fn empty_path_only_drops_the_old_path() {
    assert_eq!(set_path(&[]), vec![EngineCall::NewPath]);
}

#[test]
fn path_elements_become_calls_in_their_order() {
    let path = [
        PathEl::MoveTo(p(1.0, 2.0)),
        PathEl::LineTo(p(3.0, 4.0)),
        PathEl::CurveTo(p(5.0, 6.0), p(7.0, 8.0), p(9.0, 10.0)),
        PathEl::ClosePath,
    ];
    assert_eq!(
        set_path(&path),
        vec![
            EngineCall::NewPath,
            EngineCall::MoveTo(p(1.0, 2.0)),
            EngineCall::LineTo(p(3.0, 4.0)),
            EngineCall::CurveTo(p(5.0, 6.0), p(7.0, 8.0), p(9.0, 10.0)),
            EngineCall::ClosePath,
        ]
    );
}

#[test]
fn quadratic_starts_where_the_element_before_it_ends() {
    let path = [
        PathEl::MoveTo(p(1.0, 1.0)),
        PathEl::QuadTo(p(2.0, 3.0), p(4.0, 1.0)),
        PathEl::LineTo(p(5.0, 5.0)),
        PathEl::QuadTo(p(6.0, 6.0), p(7.0, 5.0)),
        PathEl::CurveTo(p(8.0, 8.0), p(9.0, 9.0), p(10.0, 10.0)),
        PathEl::QuadTo(p(11.0, 11.0), p(12.0, 10.0)),
        PathEl::QuadTo(p(13.0, 13.0), p(14.0, 10.0)),
    ];
    let calls = set_path(&path);
    assert_eq!(calls[2], EngineCall::QuadTo(p(1.0, 1.0), p(2.0, 3.0), p(4.0, 1.0)));
    assert_eq!(calls[4], EngineCall::QuadTo(p(5.0, 5.0), p(6.0, 6.0), p(7.0, 5.0)));
    assert_eq!(calls[6], EngineCall::QuadTo(p(10.0, 10.0), p(11.0, 11.0), p(12.0, 10.0)));
    assert_eq!(calls[7], EngineCall::QuadTo(p(12.0, 10.0), p(13.0, 13.0), p(14.0, 10.0)));
}

#[test]
fn quadratic_at_the_very_start_starts_at_the_origin() {
    let calls = set_path(&[PathEl::QuadTo(p(1.0, 2.0), p(2.0, 0.0))]);
    assert_eq!(
        calls,
        vec![EngineCall::NewPath, EngineCall::QuadTo(p(0.0, 0.0), p(1.0, 2.0), p(2.0, 0.0))]
    );
}

#[test]
fn closing_a_piece_leaves_the_current_point() {
    let path = [
        PathEl::MoveTo(p(1.0, 1.0)),
        PathEl::LineTo(p(3.0, 1.0)),
        PathEl::ClosePath,
        PathEl::QuadTo(p(4.0, 4.0), p(5.0, 1.0)),
    ];
    let calls = set_path(&path);
    assert_eq!(calls[4], EngineCall::QuadTo(p(3.0, 1.0), p(4.0, 4.0), p(5.0, 1.0)));
}

#[test]
fn quadratic_is_raised_to_the_cubic_of_the_same_shape() {
    let calls = set_path(&[PathEl::MoveTo(p(0.0, 0.0)), PathEl::QuadTo(p(1.0, 2.0), p(2.0, 0.0))]);
    match calls[2] {
        EngineCall::QuadTo(p0, p1, p2) => {
            let cubic = kurbo::QuadBez::new(k(p0), k(p1), k(p2)).raise();
            assert!((cubic.p1.x - 0.667).abs() < 1e-3);
            assert!((cubic.p1.y - 1.333).abs() < 1e-3);
            assert!((cubic.p2.x - 1.333).abs() < 1e-3);
            assert!((cubic.p2.y - 1.333).abs() < 1e-3);
            assert_eq!(cubic.p0, kurbo::Point::new(0.0, 0.0));
            assert_eq!(cubic.p3, kurbo::Point::new(2.0, 0.0));
        }
        _ => panic!("the second element should be a quadratic"),
    }
}
