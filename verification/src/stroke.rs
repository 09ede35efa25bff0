//! Stroke styles: from what a caller may leave open to the engine's line
//! settings, all of them, every time.

use vstd::prelude::*;
use crate::engine;
use crate::engine::{
    lemma_run_push, push_call, run, step, trace, Call, Engine, EngineCall, Graphics, Line,
};
use crate::geometry::{Scalar, ZERO_BITS};

verus! {

/// The bit pattern of ten, the miter limit of a style that names none.
pub const DEFAULT_MITER_LIMIT_BITS: u64 = 0x4024_0000_0000_0000;

/// How the end of an open line is to be drawn.
#[derive(Clone, Copy, Debug, PartialEq, Eq, Structural)]
pub enum LineCap {
    Butt,
    Round,
    Square,
}

/// How the corner between two lines is to be drawn.
#[derive(Clone, Copy, Debug, PartialEq, Eq, Structural)]
pub enum LineJoin {
    Miter,
    Round,
    Bevel,
}

/// What a caller says of a stroke beyond its width. Each part may be left
/// open.
#[derive(Debug, PartialEq, Eq)]
pub struct StrokeStyle {
    pub line_join: Option<LineJoin>,
    pub line_cap: Option<LineCap>,
    /// The lengths of dashes and gaps in turn, and how far into them the
    /// line starts.
    pub dash: Option<(Vec<Scalar>, Scalar)>,
    pub miter_limit: Option<Scalar>,
}

/// The engine's name for a line cap.
pub open spec fn cap_of(line_cap: LineCap) -> engine::LineCap {
    match line_cap {
        LineCap::Butt => engine::LineCap::Butt,
        LineCap::Round => engine::LineCap::Round,
        LineCap::Square => engine::LineCap::Square,
    }
}

/// The engine's name for a line join.
pub open spec fn join_of(line_join: LineJoin) -> engine::LineJoin {
    match line_join {
        LineJoin::Miter => engine::LineJoin::Miter,
        LineJoin::Round => engine::LineJoin::Round,
        LineJoin::Bevel => engine::LineJoin::Bevel,
    }
}

/// The line join of a stroke: a miter where none is named.
pub open spec fn line_join_of(style: Option<&StrokeStyle>) -> LineJoin {
    match style {
        Some(style) => match style.line_join {
            Some(line_join) => line_join,
            None => LineJoin::Miter,
        },
        None => LineJoin::Miter,
    }
}

/// The line cap of a stroke: a butt where none is named.
pub open spec fn line_cap_of(style: Option<&StrokeStyle>) -> LineCap {
    match style {
        Some(style) => match style.line_cap {
            Some(line_cap) => line_cap,
            None => LineCap::Butt,
        },
        None => LineCap::Butt,
    }
}

/// The miter limit of a stroke: ten where none is named.
pub open spec fn miter_limit_of(style: Option<&StrokeStyle>) -> Scalar {
    match style {
        Some(style) => match style.miter_limit {
            Some(limit) => limit,
            None => Scalar { bits: DEFAULT_MITER_LIMIT_BITS },
        },
        None => Scalar { bits: DEFAULT_MITER_LIMIT_BITS },
    }
}

/// The dash lengths of a stroke: none at all where no dash is named.
pub open spec fn dashes_of(style: Option<&StrokeStyle>) -> Seq<Scalar> {
    match style {
        Some(style) => match style.dash {
            Some(dash) => dash.0@,
            None => Seq::empty(),
        },
        None => Seq::empty(),
    }
}

/// Where in the dashes a stroke starts: at zero where no dash is named.
pub open spec fn dash_offset_of(style: Option<&StrokeStyle>) -> Scalar {
    match style {
        Some(style) => match style.dash {
            Some(dash) => dash.1,
            None => Scalar { bits: ZERO_BITS },
        },
        None => Scalar { bits: ZERO_BITS },
    }
}

/// The calls that set the engine's line settings for a stroke. All five are
/// set, so nothing of an earlier stroke is left behind.
pub open spec fn stroke_calls(width: Scalar, style: Option<&StrokeStyle>) -> Seq<Call> {
    seq![
        Call::SetLineWidth(width),
        Call::SetLineJoin(join_of(line_join_of(style))),
        Call::SetLineCap(cap_of(line_cap_of(style))),
        Call::SetMiterLimit(miter_limit_of(style)),
        Call::SetDash(dashes_of(style), dash_offset_of(style)),
    ]
}

/// The engine's name for a line cap.
pub fn convert_line_cap(line_cap: LineCap) -> (cap: engine::LineCap)
    ensures
        cap == cap_of(line_cap),
{
    match line_cap {
        LineCap::Butt => engine::LineCap::Butt,
        LineCap::Round => engine::LineCap::Round,
        LineCap::Square => engine::LineCap::Square,
    }
}

/// The engine's name for a line join.
pub fn convert_line_join(line_join: LineJoin) -> (join: engine::LineJoin)
    ensures
        join == join_of(line_join),
{
    match line_join {
        LineJoin::Miter => engine::LineJoin::Miter,
        LineJoin::Round => engine::LineJoin::Round,
        LineJoin::Bevel => engine::LineJoin::Bevel,
    }
}

/// A copy of a list of numbers.
fn copy_scalars(list: &Vec<Scalar>) -> (copy: Vec<Scalar>)
    ensures
        copy@ == list@,
{
    let mut copy: Vec<Scalar> = Vec::new();
    let n: usize = list.len();
    let mut i: usize = 0;
    while i < n
        invariant
            i <= n,
            n == list@.len(),
            copy@ == list@.take(i as int),
        decreases n - i,
    {
        copy.push(list[i]);
        i += 1;
        assert(copy@ =~= list@.take(i as int));
    }
    assert(list@.take(n as int) =~= list@);
    copy
}

/// Adds the line settings of a stroke to a sequence of calls.
pub(crate) fn push_stroke(calls: &mut Vec<EngineCall>, width: Scalar, style: Option<&StrokeStyle>)
    ensures
        trace(final(calls)@) == trace(old(calls)@) + stroke_calls(width, style),
{
    let mut line_join: LineJoin = LineJoin::Miter;
    let mut line_cap: LineCap = LineCap::Butt;
    let mut miter_limit: Scalar = Scalar { bits: DEFAULT_MITER_LIMIT_BITS };
    let mut dashes: Vec<Scalar> = Vec::new();
    let mut dash_offset: Scalar = Scalar { bits: ZERO_BITS };
    if let Some(style) = style {
        if let Some(named) = style.line_join {
            line_join = named;
        }
        if let Some(named) = style.line_cap {
            line_cap = named;
        }
        if let Some(named) = style.miter_limit {
            miter_limit = named;
        }
        if let Some(dash) = &style.dash {
            dashes = copy_scalars(&dash.0);
            dash_offset = dash.1;
        }
    }
    assert(dashes@ =~= dashes_of(style));
    push_call(calls, EngineCall::SetLineWidth(width));
    push_call(calls, EngineCall::SetLineJoin(convert_line_join(line_join)));
    push_call(calls, EngineCall::SetLineCap(convert_line_cap(line_cap)));
    push_call(calls, EngineCall::SetMiterLimit(miter_limit));
    push_call(calls, EngineCall::SetDash(dashes, dash_offset));
    assert(trace(calls@) =~= trace(old(calls)@) + stroke_calls(width, style));
}

/// Sets the engine's line settings for a stroke of the given width. What
/// the style leaves open, and all of it where there is no style, is set to
/// its default: a miter join, a butt cap, a miter limit of ten, no dashes
/// and a dash offset of zero.
pub fn set_stroke(width: Scalar, style: Option<&StrokeStyle>) -> (calls: Vec<EngineCall>)
    ensures
        trace(calls@) == stroke_calls(width, style),
{
    let mut calls: Vec<EngineCall> = Vec::new();
    push_stroke(&mut calls, width, style);
    assert(trace(calls@) =~= stroke_calls(width, style));
    calls
}

/// The line settings of a stroke.
pub open spec fn line_of(width: Scalar, style: Option<&StrokeStyle>) -> Line {
    Line {
        width: width,
        join: join_of(line_join_of(style)),
        cap: cap_of(line_cap_of(style)),
        miter_limit: miter_limit_of(style),
        dashes: dashes_of(style),
        dash_offset: dash_offset_of(style),
    }
}

/// After the calls for a stroke the engine's line settings are those of the
/// stroke, all of them, whatever they were before. Nothing else changes.
pub proof fn lemma_stroke_sets_every_line_setting(
    e: Engine,
    width: Scalar,
    style: Option<&StrokeStyle>,
)
    ensures
        run(e, stroke_calls(width, style)) == (Engine {
            graphics: Graphics { line: line_of(width, style), ..e.graphics },
            ..e
        }),
{
    let c0 = Call::SetLineWidth(width);
    let c1 = Call::SetLineJoin(join_of(line_join_of(style)));
    let c2 = Call::SetLineCap(cap_of(line_cap_of(style)));
    let c3 = Call::SetMiterLimit(miter_limit_of(style));
    let c4 = Call::SetDash(dashes_of(style), dash_offset_of(style));
    let s1 = step(e, c0);
    let s2 = step(s1, c1);
    let s3 = step(s2, c2);
    let s4 = step(s3, c3);
    let s5 = step(s4, c4);
    let t1 = Seq::<Call>::empty().push(c0);
    let t2 = t1.push(c1);
    let t3 = t2.push(c2);
    let t4 = t3.push(c3);
    let t5 = t4.push(c4);
    lemma_run_push(e, Seq::empty(), c0);
    lemma_run_push(e, t1, c1);
    lemma_run_push(e, t2, c2);
    lemma_run_push(e, t3, c3);
    lemma_run_push(e, t4, c4);
    assert(stroke_calls(width, style) =~= t5);
    assert(run(e, t5) == s5);
    assert(s5 =~~= (Engine {
        graphics: Graphics { line: line_of(width, style), ..e.graphics },
        ..e
    }));
}

/// A stroke without a style leaves the engine with no dashes and a dash
/// offset of zero, whatever dashes an earlier stroke had set.
pub proof fn lemma_stroke_without_style_clears_dashes(e: Engine, width: Scalar)
    ensures
        run(e, stroke_calls(width, None)).graphics.line.dashes == Seq::<Scalar>::empty(),
        run(e, stroke_calls(width, None)).graphics.line.dash_offset == (Scalar { bits: ZERO_BITS }),
{
    lemma_stroke_sets_every_line_setting(e, width, None);
}

} // verus!
