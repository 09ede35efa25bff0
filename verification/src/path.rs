//! Paths: from the elements that a shape is made of to the engine's path
//! calls.

use vstd::prelude::*;
use crate::engine::{
    builds_path, lemma_count_concat, lemma_count_in_path, lemma_count_one, lemma_run_concat,
    lemma_run_one, lemma_run_path, count, push_call, run, trace, Call, Engine, EngineCall,
};
use crate::geometry::Point;

verus! {

/// One element of a path.
#[derive(Clone, Copy, Debug, PartialEq, Eq, Structural)]
pub enum PathEl {
    /// Starts a new piece at the point.
    MoveTo(Point),
    /// A line from the current point to the point.
    LineTo(Point),
    /// A quadratic curve from the current point: control point, end point.
    QuadTo(Point, Point),
    /// A cubic curve from the current point: two control points, end point.
    CurveTo(Point, Point, Point),
    /// Closes the piece.
    ClosePath,
}

/// The current point behind an element, given the current point in front
/// of it. Closing a piece leaves it where it was.
pub open spec fn point_after(el: PathEl, last: Point) -> Point {
    match el {
        PathEl::MoveTo(p) => p,
        PathEl::LineTo(p) => p,
        PathEl::QuadTo(_, p2) => p2,
        PathEl::CurveTo(_, _, p3) => p3,
        PathEl::ClosePath => last,
    }
}

/// The current point in front of element `n` of a path. In front of the
/// first element it is the origin.
pub open spec fn current_point(els: Seq<PathEl>, n: int) -> Point
    decreases n,
{
    if n <= 0 {
        Point::spec_origin()
    } else {
        point_after(els[n - 1], current_point(els, n - 1))
    }
}

/// The engine call for one element. A quadratic curve is handed on with the
/// point that it starts from, which the element itself does not name.
pub open spec fn lowered(el: PathEl, last: Point) -> Call {
    match el {
        PathEl::MoveTo(p) => Call::MoveTo(p),
        PathEl::LineTo(p) => Call::LineTo(p),
        PathEl::QuadTo(p1, p2) => Call::QuadTo(last, p1, p2),
        PathEl::CurveTo(p1, p2, p3) => Call::CurveTo(p1, p2, p3),
        PathEl::ClosePath => Call::ClosePath,
    }
}

/// The calls for the elements of a path, one for each and in their order.
pub open spec fn element_calls(els: Seq<PathEl>) -> Seq<Call> {
    Seq::new(els.len(), |i: int| lowered(els[i], current_point(els, i)))
}

/// The calls that make a path the engine's current path: the old path is
/// dropped, whatever it was, then the elements follow.
pub open spec fn path_calls(els: Seq<PathEl>) -> Seq<Call> {
    seq![Call::NewPath] + element_calls(els)
}

/// Lowers one element.
fn lower(el: PathEl, last: Point) -> (call: EngineCall)
    ensures
        call@ == lowered(el, last),
{
    match el {
        PathEl::MoveTo(p) => EngineCall::MoveTo(p),
        PathEl::LineTo(p) => EngineCall::LineTo(p),
        PathEl::QuadTo(p1, p2) => EngineCall::QuadTo(last, p1, p2),
        PathEl::CurveTo(p1, p2, p3) => EngineCall::CurveTo(p1, p2, p3),
        PathEl::ClosePath => EngineCall::ClosePath,
    }
}

/// The current point behind an element.
fn advance(el: PathEl, last: Point) -> (next: Point)
    ensures
        next == point_after(el, last),
{
    match el {
        PathEl::MoveTo(p) => p,
        PathEl::LineTo(p) => p,
        PathEl::QuadTo(_, p2) => p2,
        PathEl::CurveTo(_, _, p3) => p3,
        PathEl::ClosePath => last,
    }
}

/// Makes a path the engine's current path.
pub fn set_path(path: &[PathEl]) -> (calls: Vec<EngineCall>)
    ensures
        trace(calls@) == path_calls(path@),
{
    let mut calls: Vec<EngineCall> = Vec::new();
    push_call(&mut calls, EngineCall::NewPath);
    let mut last: Point = Point::origin();
    let n: usize = path.len();
    let mut i: usize = 0;
    while i < n
        invariant
            i <= n,
            n == path@.len(),
            last == current_point(path@, i as int),
            trace(calls@) == seq![Call::NewPath] + element_calls(path@).take(i as int),
        decreases n - i,
    {
        let el: PathEl = path[i];
        push_call(&mut calls, lower(el, last));
        last = advance(el, last);
        i += 1;
        assert(trace(calls@) =~= seq![Call::NewPath] + element_calls(path@).take(i as int));
    }
    assert(element_calls(path@).take(n as int) =~= element_calls(path@));
    calls
}

/// Setting a path replaces the engine's current path, whatever it was, by
/// the calls of the elements, and touches nothing else.
pub proof fn lemma_path_replaces_the_path(e: Engine, els: Seq<PathEl>)
    ensures
        run(e, path_calls(els)) == (Engine { path: element_calls(els), ..e }),
{
    let built = element_calls(els);
    assert forall|i: int| 0 <= i < built.len() implies builds_path(#[trigger] built[i]) by {}
    lemma_run_concat(e, seq![Call::NewPath], built);
    lemma_run_one(e, Call::NewPath);
    let cleared = Engine { path: Seq::empty(), ..e };
    lemma_run_path(cleared, built);
    assert(cleared.path + built =~= built);
}

/// Setting a path makes no call but on the path: nothing is drawn, set,
/// saved or restored.
pub proof fn lemma_path_calls_only_build(els: Seq<PathEl>, call: Call)
    requires
        !builds_path(call),
        call != Call::NewPath,
    ensures
        count(path_calls(els), call) == 0,
{
    let built = element_calls(els);
    assert forall|i: int| 0 <= i < built.len() implies builds_path(#[trigger] built[i]) by {}
    lemma_count_concat(seq![Call::NewPath], built, call);
    lemma_count_one(Call::NewPath, call);
    lemma_count_in_path(built, call);
}

} // verus!
