use piet_cairo::brush::{
    gradient, set_brush, solid_brush, Brush, FixedGradient, FixedLinearGradient,
    FixedRadialGradient, GradientStop, PatternCall,
};
use piet_cairo::engine::{EngineCall, Pattern};
use piet_cairo::geometry::{Point, Scalar};

fn s(x: f64) -> Scalar {
    Scalar { bits: x.to_bits() }
}

fn p(x: f64, y: f64) -> Point {
    Point { x: s(x), y: s(y) }
}

#[test]
fn solid_brush_holds_its_colour() {
    let brush: Brush<(), ()> = solid_brush(0x11223344);
    assert_eq!(brush, Brush::Solid(0x11223344));
}

#[test]
fn solid_brush_is_set_by_its_four_channels() {
    let brush: Brush<(), ()> = Brush::Solid(0x11223344);
    assert_eq!(set_brush(&brush), EngineCall::SetSourceRgba(0x11, 0x22, 0x33, 0x44));
}

#[test]
fn gradient_brushes_are_set_as_patterns() {
    let linear: Brush<&str, &str> = Brush::Linear("a line");
    let radial: Brush<&str, &str> = Brush::Radial("a circle");
    assert_eq!(set_brush(&linear), EngineCall::SetSource(Pattern::Linear));
    assert_eq!(set_brush(&radial), EngineCall::SetSource(Pattern::Radial));
}

#[test]
fn brush_is_cloned_with_its_handle() {
    let brush: Brush<String, ()> = Brush::Linear(String::from("handle"));
    assert_eq!(brush.clone(), brush);
}

#[test]
fn linear_gradient_is_made_from_its_ends_then_its_stops() {
    let fixed = FixedGradient::Linear(FixedLinearGradient {
        start: p(0.0, 0.0),
        end: p(10.0, 5.0),
        stops: vec![
            GradientStop { pos: s(0.0), color: 0xff0000ff },
            GradientStop { pos: s(0.5), color: 0x00ff0080 },
            GradientStop { pos: s(1.0), color: 0x0000ff00 },
        ],
    });
    assert_eq!(
        gradient(&fixed),
        vec![
            PatternCall::NewLinear(p(0.0, 0.0), p(10.0, 5.0)),
            PatternCall::AddColorStopRgba(s(0.0), 255, 0, 0, 255),
            PatternCall::AddColorStopRgba(s(0.5), 0, 255, 0, 128),
            PatternCall::AddColorStopRgba(s(1.0), 0, 0, 255, 0),
        ]
    );
}

#[test]
fn radial_gradient_starts_from_a_point_at_its_focus() {
    let fixed = FixedGradient::Radial(FixedRadialGradient {
        center: p(5.0, 5.0),
        focus: p(6.0, 4.0),
        radius: s(3.0),
        stops: vec![GradientStop { pos: s(0.25), color: 0x01020304 }],
    });
    assert_eq!(
        gradient(&fixed),
        vec![
            PatternCall::NewRadial(p(6.0, 4.0), s(0.0), p(5.0, 5.0), s(3.0)),
            PatternCall::AddColorStopRgba(s(0.25), 1, 2, 3, 4),
        ]
    );
}

#[test]
fn gradient_stops_keep_the_order_in_which_they_were_given() {
    let fixed = FixedGradient::Linear(FixedLinearGradient {
        start: p(0.0, 0.0),
        end: p(1.0, 0.0),
        stops: vec![
            GradientStop { pos: s(0.9), color: 1 },
            GradientStop { pos: s(0.1), color: 2 },
            GradientStop { pos: s(0.1), color: 3 },
        ],
    });
    assert_eq!(
        gradient(&fixed),
        vec![
            PatternCall::NewLinear(p(0.0, 0.0), p(1.0, 0.0)),
            PatternCall::AddColorStopRgba(s(0.9), 0, 0, 0, 1),
            PatternCall::AddColorStopRgba(s(0.1), 0, 0, 0, 2),
            PatternCall::AddColorStopRgba(s(0.1), 0, 0, 0, 3),
        ]
    );
}

#[test]
fn gradient_without_stops_is_only_made() {
    let fixed = FixedGradient::Linear(FixedLinearGradient {
        start: p(1.0, 2.0),
        end: p(3.0, 4.0),
        stops: vec![],
    });
    assert_eq!(gradient(&fixed), vec![PatternCall::NewLinear(p(1.0, 2.0), p(3.0, 4.0))]);
}
