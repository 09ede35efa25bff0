//! The drawing engine as this crate sees it: the calls that can be made on
//! its context, and what a sequence of calls is.
//!
//! The engine is stateful: it has a current path, a current source, line
//! and fill settings, a transform, and a stack on which all but the path
//! can be saved. A drawing operation of this crate is a sequence of calls;
//! whoever holds the engine makes them in order.

use vstd::prelude::*;
use crate::geometry::{Matrix, Point, Scalar};

verus! {

/// How the inside of a path is told from its outside.
#[derive(Clone, Copy, Debug, PartialEq, Eq, Structural)]
pub enum FillRule {
    Winding,
    EvenOdd,
}

/// How the end of an open line is drawn.
#[derive(Clone, Copy, Debug, PartialEq, Eq, Structural)]
pub enum LineCap {
    Butt,
    Round,
    Square,
}

/// How the corner between two lines is drawn.
#[derive(Clone, Copy, Debug, PartialEq, Eq, Structural)]
pub enum LineJoin {
    Miter,
    Round,
    Bevel,
}

/// How the pixels of a scaled surface are sampled.
#[derive(Clone, Copy, Debug, PartialEq, Eq, Structural)]
pub enum Filter {
    Nearest,
    Bilinear,
}

/// A pattern that can be the engine's source. The pattern itself is an
/// object of the engine that the caller holds; this says which one is
/// meant.
#[derive(Clone, Copy, Debug, PartialEq, Eq, Structural)]
pub enum Pattern {
    /// The linear gradient of the brush in hand.
    Linear,
    /// The radial gradient of the brush in hand.
    Radial,
    /// The image in hand, sampled with the given filter.
    Surface(Filter),
}

/// One call on the engine's context.
#[derive(Debug, PartialEq, Eq)]
pub enum EngineCall {
    /// Empties the current path.
    NewPath,
    MoveTo(Point),
    LineTo(Point),
    /// A cubic curve from the current point: two control points, then the
    /// end point.
    CurveTo(Point, Point, Point),
    /// A quadratic curve by its start, its control point and its end. The
    /// engine has no such curve: it is to be given the cubic curve of the
    /// same shape, whose control points lie two thirds of the way from each
    /// end to the quadratic's control point.
    QuadTo(Point, Point, Point),
    ClosePath,
    SetFillRule(FillRule),
    /// Fills the current path with the source and empties the path.
    Fill,
    /// Strokes the current path with the source and empties the path.
    Stroke,
    /// Narrows the clip to the inside of the current path and empties the
    /// path.
    Clip,
    /// Paints the source everywhere inside the clip.
    Paint,
    /// An opaque colour as source: red, green, blue, each out of 255.
    SetSourceRgb(u8, u8, u8),
    /// A colour as source: red, green, blue, alpha, each out of 255.
    SetSourceRgba(u8, u8, u8, u8),
    SetSource(Pattern),
    SetLineWidth(Scalar),
    SetLineJoin(LineJoin),
    SetLineCap(LineCap),
    SetMiterLimit(Scalar),
    /// The lengths of the dashes and gaps, and how far into them a line
    /// starts. No lengths means a solid line.
    SetDash(Vec<Scalar>, Scalar),
    /// Makes the font of the text layout in hand the current font.
    SetScaledFont,
    /// Shows the text of the layout in hand at the current point.
    ShowText,
    /// Pushes source, line and fill settings, transform and clip.
    Save,
    /// Pops what the matching save pushed.
    Restore,
    /// Puts a transform in front of the current one.
    Transform(Matrix),
    Translate(Scalar, Scalar),
    Scale(Scalar, Scalar),
}

/// What an [`EngineCall`] says, as a mathematical value.
pub enum Call {
    NewPath,
    MoveTo(Point),
    LineTo(Point),
    CurveTo(Point, Point, Point),
    QuadTo(Point, Point, Point),
    ClosePath,
    SetFillRule(FillRule),
    Fill,
    Stroke,
    Clip,
    Paint,
    SetSourceRgb(u8, u8, u8),
    SetSourceRgba(u8, u8, u8, u8),
    SetSource(Pattern),
    SetLineWidth(Scalar),
    SetLineJoin(LineJoin),
    SetLineCap(LineCap),
    SetMiterLimit(Scalar),
    SetDash(Seq<Scalar>, Scalar),
    SetScaledFont,
    ShowText,
    Save,
    Restore,
    Transform(Matrix),
    Translate(Scalar, Scalar),
    Scale(Scalar, Scalar),
}

impl View for EngineCall {
    type V = Call;

    open spec fn view(&self) -> Call {
        match *self {
            EngineCall::NewPath => Call::NewPath,
            EngineCall::MoveTo(p) => Call::MoveTo(p),
            EngineCall::LineTo(p) => Call::LineTo(p),
            EngineCall::CurveTo(p1, p2, p3) => Call::CurveTo(p1, p2, p3),
            EngineCall::QuadTo(p0, p1, p2) => Call::QuadTo(p0, p1, p2),
            EngineCall::ClosePath => Call::ClosePath,
            EngineCall::SetFillRule(rule) => Call::SetFillRule(rule),
            EngineCall::Fill => Call::Fill,
            EngineCall::Stroke => Call::Stroke,
            EngineCall::Clip => Call::Clip,
            EngineCall::Paint => Call::Paint,
            EngineCall::SetSourceRgb(r, g, b) => Call::SetSourceRgb(r, g, b),
            EngineCall::SetSourceRgba(r, g, b, a) => Call::SetSourceRgba(r, g, b, a),
            EngineCall::SetSource(pattern) => Call::SetSource(pattern),
            EngineCall::SetLineWidth(width) => Call::SetLineWidth(width),
            EngineCall::SetLineJoin(join) => Call::SetLineJoin(join),
            EngineCall::SetLineCap(cap) => Call::SetLineCap(cap),
            EngineCall::SetMiterLimit(limit) => Call::SetMiterLimit(limit),
            EngineCall::SetDash(dashes, offset) => Call::SetDash(dashes@, offset),
            EngineCall::SetScaledFont => Call::SetScaledFont,
            EngineCall::ShowText => Call::ShowText,
            EngineCall::Save => Call::Save,
            EngineCall::Restore => Call::Restore,
            EngineCall::Transform(matrix) => Call::Transform(matrix),
            EngineCall::Translate(x, y) => Call::Translate(x, y),
            EngineCall::Scale(x, y) => Call::Scale(x, y),
        }
    }
}

/// What a sequence of calls says, call by call.
pub open spec fn trace(calls: Seq<EngineCall>) -> Seq<Call> {
    calls.map_values(|call: EngineCall| call@)
}

/// Adds one call to the end of a sequence.
pub(crate) fn push_call(calls: &mut Vec<EngineCall>, call: EngineCall)
    ensures
        trace(final(calls)@) == trace(old(calls)@).push(call@),
{
    calls.push(call);
    assert(trace(calls@) =~= trace(old(calls)@).push(call@));
}

/// What the engine paints with.
pub enum Source {
    Rgb(u8, u8, u8),
    Rgba(u8, u8, u8, u8),
    Pattern(Pattern),
}

/// The engine's line settings.
#[verifier::ext_equal]
pub struct Line {
    pub width: Scalar,
    pub join: LineJoin,
    pub cap: LineCap,
    pub miter_limit: Scalar,
    pub dashes: Seq<Scalar>,
    pub dash_offset: Scalar,
}

/// One narrowing of the clip: the path whose inside is kept, and the rule
/// that tells its inside.
#[verifier::ext_equal]
pub struct Region {
    pub outline: Seq<Call>,
    pub rule: FillRule,
}

/// The part of the engine's state that a save keeps and a restore brings
/// back. Transforms and clip regions are held as the calls that made them,
/// oldest first.
#[verifier::ext_equal]
pub struct Graphics {
    pub source: Source,
    pub fill_rule: FillRule,
    pub line: Line,
    pub transforms: Seq<Call>,
    pub clip: Seq<Region>,
    /// Whether a font has been made current.
    pub font: bool,
}

/// The kinds of drawing.
pub enum Stamp {
    Fill,
    Stroke,
    Paint,
    Text,
}

/// One drawing on the surface: its kind, the path that it was made with and
/// the state that the engine was in when it was made.
#[verifier::ext_equal]
pub struct Mark {
    pub kind: Stamp,
    pub path: Seq<Call>,
    pub graphics: Graphics,
}

/// The engine's state: the current path as the calls that built it, the
/// current graphics state, the saved ones with the latest last, and all
/// that has been drawn so far.
#[verifier::ext_equal]
pub struct Engine {
    pub path: Seq<Call>,
    pub graphics: Graphics,
    pub saved: Seq<Graphics>,
    pub drawn: Seq<Mark>,
}

/// Whether a call adds to the current path.
pub open spec fn builds_path(call: Call) -> bool {
    match call {
        Call::MoveTo(_) => true,
        Call::LineTo(_) => true,
        Call::CurveTo(_, _, _) => true,
        Call::QuadTo(_, _, _) => true,
        Call::ClosePath => true,
        _ => false,
    }
}

/// The graphics state after a call that sets one of its parts; any other
/// call leaves it as it is.
pub open spec fn set_graphics(g: Graphics, call: Call) -> Graphics {
    match call {
        Call::SetFillRule(rule) => Graphics { fill_rule: rule, ..g },
        Call::SetSourceRgb(r, gr, b) => Graphics { source: Source::Rgb(r, gr, b), ..g },
        Call::SetSourceRgba(r, gr, b, a) => Graphics { source: Source::Rgba(r, gr, b, a), ..g },
        Call::SetSource(pattern) => Graphics { source: Source::Pattern(pattern), ..g },
        Call::SetLineWidth(width) => Graphics { line: Line { width: width, ..g.line }, ..g },
        Call::SetLineJoin(join) => Graphics { line: Line { join: join, ..g.line }, ..g },
        Call::SetLineCap(cap) => Graphics { line: Line { cap: cap, ..g.line }, ..g },
        Call::SetMiterLimit(limit) => Graphics { line: Line { miter_limit: limit, ..g.line }, ..g },
        Call::SetDash(dashes, offset) => Graphics {
            line: Line { dashes: dashes, dash_offset: offset, ..g.line },
            ..g
        },
        Call::SetScaledFont => Graphics { font: true, ..g },
        Call::Transform(_) => Graphics { transforms: g.transforms.push(call), ..g },
        Call::Translate(_, _) => Graphics { transforms: g.transforms.push(call), ..g },
        Call::Scale(_, _) => Graphics { transforms: g.transforms.push(call), ..g },
        _ => g,
    }
}

/// The engine's state after one call.
pub open spec fn step(e: Engine, call: Call) -> Engine {
    match call {
        Call::NewPath => Engine { path: Seq::empty(), ..e },
        Call::MoveTo(_) => Engine { path: e.path.push(call), ..e },
        Call::LineTo(_) => Engine { path: e.path.push(call), ..e },
        Call::CurveTo(_, _, _) => Engine { path: e.path.push(call), ..e },
        Call::QuadTo(_, _, _) => Engine { path: e.path.push(call), ..e },
        Call::ClosePath => Engine { path: e.path.push(call), ..e },
        Call::Fill => Engine {
            path: Seq::empty(),
            drawn: e.drawn.push(Mark { kind: Stamp::Fill, path: e.path, graphics: e.graphics }),
            ..e
        },
        Call::Stroke => Engine {
            path: Seq::empty(),
            drawn: e.drawn.push(Mark { kind: Stamp::Stroke, path: e.path, graphics: e.graphics }),
            ..e
        },
        Call::Clip => Engine {
            path: Seq::empty(),
            graphics: Graphics {
                clip: e.graphics.clip.push(Region { outline: e.path, rule: e.graphics.fill_rule }),
                ..e.graphics
            },
            ..e
        },
        Call::Paint => Engine {
            drawn: e.drawn.push(Mark { kind: Stamp::Paint, path: e.path, graphics: e.graphics }),
            ..e
        },
        Call::ShowText => Engine {
            path: e.path.push(call),
            drawn: e.drawn.push(Mark { kind: Stamp::Text, path: e.path, graphics: e.graphics }),
            ..e
        },
        Call::Save => Engine { saved: e.saved.push(e.graphics), ..e },
        Call::Restore => if e.saved.len() > 0 {
            Engine { graphics: e.saved.last(), saved: e.saved.drop_last(), ..e }
        } else {
            e
        },
        _ => Engine { graphics: set_graphics(e.graphics, call), ..e },
    }
}

/// The engine's state after a sequence of calls, made in order.
pub open spec fn run(e: Engine, calls: Seq<Call>) -> Engine
    decreases calls.len(),
{
    if calls.len() == 0 {
        e
    } else {
        step(run(e, calls.drop_last()), calls.last())
    }
}

/// One more call at the end is one more step.
pub proof fn lemma_run_push(e: Engine, calls: Seq<Call>, call: Call)
    ensures
        run(e, calls.push(call)) == step(run(e, calls), call),
{
    assert(calls.push(call).drop_last() =~= calls);
}

/// A single call is a single step.
pub proof fn lemma_run_one(e: Engine, call: Call)
    ensures
        run(e, seq![call]) == step(e, call),
{
    lemma_run_push(e, Seq::empty(), call);
}

/// Running two sequences one after the other is running the one that they
/// make together.
pub proof fn lemma_run_concat(e: Engine, first: Seq<Call>, second: Seq<Call>)
    ensures
        run(e, first + second) == run(run(e, first), second),
    decreases second.len(),
{
    if second.len() == 0 {
        assert(first + second =~= first);
    } else {
        lemma_run_concat(e, first, second.drop_last());
        assert((first + second).drop_last() =~= first + second.drop_last());
    }
}

/// Calls that build a path add themselves to the current path and change
/// nothing else.
pub proof fn lemma_run_path(e: Engine, calls: Seq<Call>)
    requires
        forall|i: int| 0 <= i < calls.len() ==> builds_path(#[trigger] calls[i]),
    ensures
        run(e, calls) == (Engine { path: e.path + calls, ..e }),
    decreases calls.len(),
{
    if calls.len() == 0 {
        assert(e.path + calls =~= e.path);
    } else {
        lemma_run_path(e, calls.drop_last());
        assert(builds_path(calls[calls.len() - 1]));
        assert((e.path + calls.drop_last()).push(calls.last()) =~= e.path + calls);
    }
}

/// How often a call occurs in a sequence.
pub open spec fn count(calls: Seq<Call>, call: Call) -> nat
    decreases calls.len(),
{
    if calls.len() == 0 {
        0
    } else if calls.last() == call {
        count(calls.drop_last(), call) + 1
    } else {
        count(calls.drop_last(), call)
    }
}

/// What occurs in two sequences occurs as often in the one that they make
/// together.
pub proof fn lemma_count_concat(first: Seq<Call>, second: Seq<Call>, call: Call)
    ensures
        count(first + second, call) == count(first, call) + count(second, call),
    decreases second.len(),
{
    if second.len() == 0 {
        assert(first + second =~= first);
    } else {
        lemma_count_concat(first, second.drop_last(), call);
        assert((first + second).drop_last() =~= first + second.drop_last());
    }
}

/// One more call at the end counts once if it is the call that is counted.
pub proof fn lemma_count_push(calls: Seq<Call>, last: Call, call: Call)
    ensures
        count(calls.push(last), call) == count(calls, call) + if last == call { 1nat } else { 0nat },
{
    assert(calls.push(last).drop_last() =~= calls);
}

/// A single call occurs once in the sequence that it makes alone, and no
/// other call does.
pub proof fn lemma_count_one(single: Call, call: Call)
    ensures
        count(seq![single], call) == if single == call { 1nat } else { 0nat },
{
    reveal_with_fuel(count, 2);
    assert(seq![single].drop_last() =~= Seq::<Call>::empty());
    assert(seq![single].last() == single);
}

/// Among calls that build a path there is none of another kind.
pub proof fn lemma_count_in_path(calls: Seq<Call>, call: Call)
    requires
        forall|i: int| 0 <= i < calls.len() ==> builds_path(#[trigger] calls[i]),
        !builds_path(call),
    ensures
        count(calls, call) == 0,
    decreases calls.len(),
{
    if calls.len() > 0 {
        lemma_count_in_path(calls.drop_last(), call);
        assert(builds_path(calls[calls.len() - 1]));
    }
}

/// A sequence of calls that leaves the stack of saved states as it finds
/// it, whatever state the engine is in.
pub open spec fn keeps_saved(calls: Seq<Call>) -> bool {
    forall|e: Engine| (#[trigger] run(e, calls)).saved == e.saved
}

/// Two sequences that leave the stack alone leave it alone together.
pub proof fn lemma_keeps_saved_concat(first: Seq<Call>, second: Seq<Call>)
    requires
        keeps_saved(first),
        keeps_saved(second),
    ensures
        keeps_saved(first + second),
{
    assert forall|e: Engine| (#[trigger] run(e, first + second)).saved == e.saved by {
        lemma_run_concat(e, first, second);
        assert(run(run(e, first), second).saved == run(e, first).saved);
    }
}

} // verus!
