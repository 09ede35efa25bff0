//! Brushes: a colour or a gradient as one value, and the gradients' making.

use vstd::prelude::*;
use crate::color::{unpack_rgba, unpacked, Rgba8};
use crate::engine::{step, Call, Engine, EngineCall, Graphics, Pattern, Source};
use crate::geometry::{Point, Scalar, ZERO_BITS};

verus! {

/// What a shape is filled or stroked with. A gradient is an object of the
/// engine, made once and held here by the handle that the engine gave for
/// it: `L` for a linear gradient, `R` for a radial one.
#[derive(Clone, Debug, PartialEq, Eq)]
pub enum Brush<L, R> {
    /// One colour, packed as red, green, blue, alpha.
    Solid(u32),
    Linear(L),
    Radial(R),
}

/// The call that makes a brush the engine's source.
pub open spec fn brush_call<L, R>(brush: &Brush<L, R>) -> Call {
    match brush {
        Brush::Solid(rgba) => {
            let c = unpacked(*rgba);
            Call::SetSourceRgba(c.r, c.g, c.b, c.a)
        },
        Brush::Linear(_) => Call::SetSource(Pattern::Linear),
        Brush::Radial(_) => Call::SetSource(Pattern::Radial),
    }
}

/// What the engine paints with once a brush is its source.
pub open spec fn source_of<L, R>(brush: &Brush<L, R>) -> Source {
    match brush {
        Brush::Solid(rgba) => {
            let c = unpacked(*rgba);
            Source::Rgba(c.r, c.g, c.b, c.a)
        },
        Brush::Linear(_) => Source::Pattern(Pattern::Linear),
        Brush::Radial(_) => Source::Pattern(Pattern::Radial),
    }
}

/// The call for a brush sets the engine's source and nothing else.
pub proof fn lemma_brush_sets_the_source<L, R>(e: Engine, brush: &Brush<L, R>)
    ensures
        step(e, brush_call(brush)) == (Engine {
            graphics: Graphics { source: source_of(brush), ..e.graphics },
            ..e
        }),
{
}

/// A brush of one colour.
pub fn solid_brush<L, R>(rgba: u32) -> (brush: Brush<L, R>)
    ensures
        brush == Brush::<L, R>::Solid(rgba),
{
    Brush::Solid(rgba)
}

/// Makes a brush the engine's source: a colour by its four channels, a
/// gradient as the pattern that it is.
pub fn set_brush<L, R>(brush: &Brush<L, R>) -> (call: EngineCall)
    ensures
        call@ == brush_call(brush),
{
    match brush {
        Brush::Solid(rgba) => {
            let c: Rgba8 = unpack_rgba(*rgba);
            EngineCall::SetSourceRgba(c.r, c.g, c.b, c.a)
        },
        Brush::Linear(_) => EngineCall::SetSource(Pattern::Linear),
        Brush::Radial(_) => EngineCall::SetSource(Pattern::Radial),
    }
}

/// A colour at a place along a gradient.
#[derive(Clone, Copy, Debug, PartialEq, Eq, Structural)]
pub struct GradientStop {
    /// The place, from zero at the start to one at the end.
    pub pos: Scalar,
    /// The colour, packed as red, green, blue, alpha.
    pub color: u32,
}

/// A gradient along the line from `start` to `end`.
#[derive(Debug, PartialEq, Eq)]
pub struct FixedLinearGradient {
    pub start: Point,
    pub end: Point,
    pub stops: Vec<GradientStop>,
}

/// A gradient that spreads from the point `focus` to the circle of the
/// given radius round `center`.
#[derive(Debug, PartialEq, Eq)]
pub struct FixedRadialGradient {
    pub center: Point,
    pub focus: Point,
    pub radius: Scalar,
    pub stops: Vec<GradientStop>,
}

/// A gradient of either kind.
#[derive(Debug, PartialEq, Eq)]
pub enum FixedGradient {
    Linear(FixedLinearGradient),
    Radial(FixedRadialGradient),
}

/// One call in the making of a gradient.
#[derive(Clone, Copy, Debug, PartialEq, Eq, Structural)]
pub enum PatternCall {
    /// Makes a linear gradient from the first point to the second.
    NewLinear(Point, Point),
    /// Makes a radial gradient between two circles: the centre and radius
    /// of the first, then of the second.
    NewRadial(Point, Scalar, Point, Scalar),
    /// Adds a stop: its place, then red, green, blue, alpha, each out of
    /// 255.
    AddColorStopRgba(Scalar, u8, u8, u8, u8),
}

/// The call that adds a stop.
pub open spec fn stop_call(stop: GradientStop) -> PatternCall {
    let c = unpacked(stop.color);
    PatternCall::AddColorStopRgba(stop.pos, c.r, c.g, c.b, c.a)
}

/// The calls that add a gradient's stops, in the order in which the stops
/// were given.
pub open spec fn stop_calls(stops: Seq<GradientStop>) -> Seq<PatternCall> {
    Seq::new(stops.len(), |i: int| stop_call(stops[i]))
}

/// The calls that make a gradient. A radial gradient starts from a circle
/// of radius zero at its focus.
pub open spec fn gradient_calls(gradient: &FixedGradient) -> Seq<PatternCall> {
    match gradient {
        FixedGradient::Linear(linear) => seq![PatternCall::NewLinear(linear.start, linear.end)]
            + stop_calls(linear.stops@),
        FixedGradient::Radial(radial) => seq![
            PatternCall::NewRadial(
                radial.focus,
                Scalar { bits: ZERO_BITS },
                radial.center,
                radial.radius,
            ),
        ] + stop_calls(radial.stops@),
    }
}

/// Adds the calls for a gradient's stops.
fn push_stops(calls: &mut Vec<PatternCall>, stops: &Vec<GradientStop>)
    ensures
        final(calls)@ == old(calls)@ + stop_calls(stops@),
{
    let n: usize = stops.len();
    let mut i: usize = 0;
    while i < n
        invariant
            i <= n,
            n == stops@.len(),
            calls@ == old(calls)@ + stop_calls(stops@).take(i as int),
        decreases n - i,
    {
        let stop: GradientStop = stops[i];
        let c: Rgba8 = unpack_rgba(stop.color);
        calls.push(PatternCall::AddColorStopRgba(stop.pos, c.r, c.g, c.b, c.a));
        i += 1;
        assert(calls@ =~= old(calls)@ + stop_calls(stops@).take(i as int));
    }
    assert(stop_calls(stops@).take(n as int) =~= stop_calls(stops@));
}

/// Makes a gradient: the gradient object first, then its stops in their
/// order, each colour by its four channels.
pub fn gradient(fixed: &FixedGradient) -> (calls: Vec<PatternCall>)
    ensures
        calls@ == gradient_calls(fixed),
{
    let mut calls: Vec<PatternCall> = Vec::new();
    match fixed {
        FixedGradient::Linear(linear) => {
            calls.push(PatternCall::NewLinear(linear.start, linear.end));
            push_stops(&mut calls, &linear.stops);
        },
        FixedGradient::Radial(radial) => {
            calls.push(
                PatternCall::NewRadial(
                    radial.focus,
                    Scalar { bits: ZERO_BITS },
                    radial.center,
                    radial.radius,
                ),
            );
            push_stops(&mut calls, &radial.stops);
        },
    }
    assert(calls@ =~= gradient_calls(fixed));
    calls
}

} // verus!
