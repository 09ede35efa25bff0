use piet_cairo::engine;
use piet_cairo::engine::EngineCall;
use piet_cairo::geometry::Scalar;
use piet_cairo::stroke::{
    convert_line_cap, convert_line_join, set_stroke, LineCap, LineJoin, StrokeStyle,
    DEFAULT_MITER_LIMIT_BITS,
};

fn s(x: f64) -> Scalar {
    Scalar { bits: x.to_bits() }
}

#[test]
fn default_miter_limit_is_ten() {
    assert_eq!(f64::from_bits(DEFAULT_MITER_LIMIT_BITS), 10.0);
}

#[test]
fn line_caps_keep_their_names() {
    assert_eq!(convert_line_cap(LineCap::Butt), engine::LineCap::Butt);
    assert_eq!(convert_line_cap(LineCap::Round), engine::LineCap::Round);
    assert_eq!(convert_line_cap(LineCap::Square), engine::LineCap::Square);
}

#[test]
fn line_joins_keep_their_names() {
    assert_eq!(convert_line_join(LineJoin::Miter), engine::LineJoin::Miter);
    assert_eq!(convert_line_join(LineJoin::Round), engine::LineJoin::Round);
    assert_eq!(convert_line_join(LineJoin::Bevel), engine::LineJoin::Bevel);
}

#[test]
fn stroke_without_style_sets_every_default() {
    assert_eq!(
        set_stroke(s(2.5), None),
        vec![
            EngineCall::SetLineWidth(s(2.5)),
            EngineCall::SetLineJoin(engine::LineJoin::Miter),
            EngineCall::SetLineCap(engine::LineCap::Butt),
            EngineCall::SetMiterLimit(s(10.0)),
            EngineCall::SetDash(vec![], s(0.0)),
        ]
    );
}

#[test]
fn stroke_with_an_empty_style_sets_every_default() {
    let style = StrokeStyle { line_join: None, line_cap: None, dash: None, miter_limit: None };
    assert_eq!(set_stroke(s(1.0), Some(&style)), set_stroke(s(1.0), None));
}

#[test]
fn stroke_with_a_full_style_sets_what_it_names() {
    let style = StrokeStyle {
        line_join: Some(LineJoin::Bevel),
        line_cap: Some(LineCap::Square),
        dash: Some((vec![s(4.0), s(2.0), s(1.0)], s(0.5))),
        miter_limit: Some(s(3.0)),
    };
    assert_eq!(
        set_stroke(s(7.0), Some(&style)),
        vec![
            EngineCall::SetLineWidth(s(7.0)),
            EngineCall::SetLineJoin(engine::LineJoin::Bevel),
            EngineCall::SetLineCap(engine::LineCap::Square),
            EngineCall::SetMiterLimit(s(3.0)),
            EngineCall::SetDash(vec![s(4.0), s(2.0), s(1.0)], s(0.5)),
        ]
    );
}

#[test]
fn each_part_of_a_style_defaults_on_its_own() {
    let style = StrokeStyle {
        line_join: Some(LineJoin::Round),
        line_cap: None,
        dash: None,
        miter_limit: Some(s(1.5)),
    };
    assert_eq!(
        set_stroke(s(1.0), Some(&style)),
        vec![
            EngineCall::SetLineWidth(s(1.0)),
            EngineCall::SetLineJoin(engine::LineJoin::Round),
            EngineCall::SetLineCap(engine::LineCap::Butt),
            EngineCall::SetMiterLimit(s(1.5)),
            EngineCall::SetDash(vec![], s(0.0)),
        ]
    );
    let style = StrokeStyle {
        line_join: None,
        line_cap: Some(LineCap::Round),
        dash: Some((vec![s(1.0)], s(0.0))),
        miter_limit: None,
    };
    assert_eq!(
        set_stroke(s(1.0), Some(&style)),
        vec![
            EngineCall::SetLineWidth(s(1.0)),
            EngineCall::SetLineJoin(engine::LineJoin::Miter),
            EngineCall::SetLineCap(engine::LineCap::Round),
            EngineCall::SetMiterLimit(s(10.0)),
            EngineCall::SetDash(vec![s(1.0)], s(0.0)),
        ]
    );
}

#[test]
fn stroke_without_style_after_a_dashed_one_clears_the_dashes() {
    let dashed = StrokeStyle {
        line_join: None,
        line_cap: None,
        dash: Some((vec![s(3.0), s(1.0)], s(2.0))),
        miter_limit: None,
    };
    let mut calls = set_stroke(s(1.0), Some(&dashed));
    calls.extend(set_stroke(s(1.0), None));
    let last_dash = calls
        .iter()
        .rev()
        .find(|call| matches!(call, EngineCall::SetDash(_, _)))
        .unwrap();
    assert_eq!(*last_dash, EngineCall::SetDash(vec![], s(0.0)));
}
