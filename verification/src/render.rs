//! The drawing operations: each one as the sequence of engine calls that
//! carries it out.
//!
//! No operation counts on what an earlier one left in the engine. Each sets
//! the path, the source and the settings that it draws with, and only then
//! draws.

use vstd::prelude::*;
use crate::brush::{brush_call, lemma_brush_sets_the_source, set_brush, source_of, Brush};
use crate::color::{unpack_rgba, unpacked, Rgba8};
use crate::engine::{
    count, keeps_saved, lemma_count_concat, lemma_count_one, lemma_count_push, lemma_run_concat,
    lemma_run_one, lemma_run_push, push_call, run, step, trace, Call, Engine, EngineCall, FillRule,
    Filter, Graphics, Mark, Pattern, Region, Source, Stamp,
};
use crate::geometry::{affine_to_matrix, matrix_of, Affine, Point, Scalar};
use crate::path::{
    element_calls, lemma_path_calls_only_build, lemma_path_replaces_the_path, path_calls, set_path,
    PathEl,
};
use crate::stroke::{
    lemma_stroke_sets_every_line_setting, line_of, push_stroke, stroke_calls, StrokeStyle,
};

verus! {

/// How an image is to be sampled when it is scaled.
#[derive(Clone, Copy, Debug, PartialEq, Eq, Structural)]
pub enum InterpolationMode {
    /// The nearest pixel, unblended.
    NearestNeighbor,
    /// The four nearest pixels, blended.
    Bilinear,
}

/// Where an image's pixels go on the page: they are scaled by `scale_x` and
/// `scale_y`, then shifted by `shift_x` and `shift_y`.
#[derive(Clone, Copy, Debug, PartialEq, Eq, Structural)]
pub struct Placement {
    pub shift_x: Scalar,
    pub shift_y: Scalar,
    pub scale_x: Scalar,
    pub scale_y: Scalar,
}

/// The engine's filter for an interpolation mode.
pub open spec fn filter_of(interp: InterpolationMode) -> Filter {
    match interp {
        InterpolationMode::NearestNeighbor => Filter::Nearest,
        InterpolationMode::Bilinear => Filter::Bilinear,
    }
}

/// Clearing: the colour without its alpha as source, then paint.
pub open spec fn clear_calls(rgba: u32) -> Seq<Call> {
    let c = unpacked(rgba);
    seq![Call::SetSourceRgb(c.r, c.g, c.b), Call::Paint]
}

/// Filling: the path, the brush, the fill rule, then fill.
pub open spec fn fill_calls<L, R>(path: Seq<PathEl>, brush: &Brush<L, R>, rule: FillRule) -> Seq<
    Call,
> {
    path_calls(path) + seq![brush_call(brush), Call::SetFillRule(rule), Call::Fill]
}

/// Clipping: the path, the winding rule, then clip.
pub open spec fn clip_calls(path: Seq<PathEl>) -> Seq<Call> {
    path_calls(path) + seq![Call::SetFillRule(FillRule::Winding), Call::Clip]
}

/// Stroking: the path, the line settings, the brush, then stroke.
pub open spec fn stroke_op_calls<L, R>(
    path: Seq<PathEl>,
    brush: &Brush<L, R>,
    width: Scalar,
    style: Option<&StrokeStyle>,
) -> Seq<Call> {
    path_calls(path) + stroke_calls(width, style) + seq![brush_call(brush), Call::Stroke]
}

/// Drawing text: the font, the brush, the place, then the text.
pub open spec fn text_calls<L, R>(pos: Point, brush: &Brush<L, R>) -> Seq<Call> {
    seq![Call::SetScaledFont, brush_call(brush), Call::MoveTo(pos), Call::ShowText]
}

/// Transforming: the transform, as the engine's matrix, in front of the
/// current one.
pub open spec fn transform_calls(affine: Affine) -> Seq<Call> {
    seq![Call::Transform(matrix_of(affine))]
}

/// A scope: what is saved in front of the body is restored behind it.
pub open spec fn scoped_calls(body: Seq<Call>) -> Seq<Call> {
    seq![Call::Save] + body + seq![Call::Restore]
}

/// What drawing an image does between save and restore: clip to where the
/// image goes, shift and scale the page so that the image's pixels fall
/// there, make the image the source, then paint.
pub open spec fn image_body_calls(dst: Seq<PathEl>, place: Placement, interp: InterpolationMode) -> Seq<
    Call,
> {
    clip_calls(dst) + seq![
        Call::Translate(place.shift_x, place.shift_y),
        Call::Scale(place.scale_x, place.scale_y),
        Call::SetSource(Pattern::Surface(filter_of(interp))),
        Call::Paint,
    ]
}

/// Drawing an image: its body in a scope of its own, so that clip and
/// transform end with it.
pub open spec fn image_calls(dst: Seq<PathEl>, place: Placement, interp: InterpolationMode) -> Seq<
    Call,
> {
    scoped_calls(image_body_calls(dst, place, interp))
}

/// The engine's filter for an interpolation mode.
pub fn convert_interpolation(interp: InterpolationMode) -> (filter: Filter)
    ensures
        filter == filter_of(interp),
{
    match interp {
        InterpolationMode::NearestNeighbor => Filter::Nearest,
        InterpolationMode::Bilinear => Filter::Bilinear,
    }
}

/// Clears the whole surface to a colour. The colour's alpha is left out:
/// the surface becomes opaque.
pub fn clear(rgba: u32) -> (calls: Vec<EngineCall>)
    ensures
        trace(calls@) == clear_calls(rgba),
{
    let c: Rgba8 = unpack_rgba(rgba);
    let mut calls: Vec<EngineCall> = Vec::new();
    push_call(&mut calls, EngineCall::SetSourceRgb(c.r, c.g, c.b));
    push_call(&mut calls, EngineCall::Paint);
    assert(trace(calls@) =~= clear_calls(rgba));
    calls
}

/// Fills a path under a fill rule.
fn fill_with<L, R>(path: &[PathEl], brush: &Brush<L, R>, rule: FillRule) -> (calls: Vec<EngineCall>)
    ensures
        trace(calls@) == fill_calls(path@, brush, rule),
{
    let mut calls: Vec<EngineCall> = set_path(path);
    push_call(&mut calls, set_brush(brush));
    push_call(&mut calls, EngineCall::SetFillRule(rule));
    push_call(&mut calls, EngineCall::Fill);
    assert(trace(calls@) =~= fill_calls(path@, brush, rule));
    calls
}

/// Fills a path: a point is inside where the path winds round it.
pub fn fill<L, R>(path: &[PathEl], brush: &Brush<L, R>) -> (calls: Vec<EngineCall>)
    ensures
        trace(calls@) == fill_calls(path@, brush, FillRule::Winding),
{
    fill_with(path, brush, FillRule::Winding)
}

/// Fills a path: a point is inside where a ray from it crosses the path an
/// odd number of times.
pub fn fill_even_odd<L, R>(path: &[PathEl], brush: &Brush<L, R>) -> (calls: Vec<EngineCall>)
    ensures
        trace(calls@) == fill_calls(path@, brush, FillRule::EvenOdd),
{
    fill_with(path, brush, FillRule::EvenOdd)
}

/// Adds the calls that narrow the clip to the inside of a path.
fn push_clip(calls: &mut Vec<EngineCall>, path: &[PathEl])
    ensures
        trace(final(calls)@) == trace(old(calls)@) + clip_calls(path@),
{
    let mut shape: Vec<EngineCall> = set_path(path);
    let ghost before = calls@;
    let ghost added = shape@;
    calls.append(&mut shape);
    assert(trace(calls@) =~= trace(before) + trace(added));
    push_call(calls, EngineCall::SetFillRule(FillRule::Winding));
    push_call(calls, EngineCall::Clip);
    assert(trace(calls@) =~= trace(before) + clip_calls(path@));
}

/// Narrows the clip to the inside of a path.
pub fn clip(path: &[PathEl]) -> (calls: Vec<EngineCall>)
    ensures
        trace(calls@) == clip_calls(path@),
{
    let mut calls: Vec<EngineCall> = Vec::new();
    push_clip(&mut calls, path);
    assert(trace(calls@) =~= clip_calls(path@));
    calls
}

/// Strokes a path with or without a style.
fn stroke_with<L, R>(
    path: &[PathEl],
    brush: &Brush<L, R>,
    width: Scalar,
    style: Option<&StrokeStyle>,
) -> (calls: Vec<EngineCall>)
    ensures
        trace(calls@) == stroke_op_calls(path@, brush, width, style),
{
    let mut calls: Vec<EngineCall> = set_path(path);
    push_stroke(&mut calls, width, style);
    push_call(&mut calls, set_brush(brush));
    push_call(&mut calls, EngineCall::Stroke);
    assert(trace(calls@) =~= stroke_op_calls(path@, brush, width, style));
    calls
}

/// Strokes a path with a line of the given width and every other line
/// setting at its default.
pub fn stroke<L, R>(path: &[PathEl], brush: &Brush<L, R>, width: Scalar) -> (calls: Vec<EngineCall>)
    ensures
        trace(calls@) == stroke_op_calls(path@, brush, width, None),
{
    stroke_with(path, brush, width, None)
}

/// Strokes a path with a line of the given width and style.
pub fn stroke_styled<L, R>(
    path: &[PathEl],
    brush: &Brush<L, R>,
    width: Scalar,
    style: &StrokeStyle,
) -> (calls: Vec<EngineCall>)
    ensures
        trace(calls@) == stroke_op_calls(path@, brush, width, Some(style)),
{
    stroke_with(path, brush, width, Some(style))
}

/// Draws the text layout in hand with its baseline starting at `pos`.
pub fn draw_text<L, R>(pos: Point, brush: &Brush<L, R>) -> (calls: Vec<EngineCall>)
    ensures
        trace(calls@) == text_calls(pos, brush),
{
    let mut calls: Vec<EngineCall> = Vec::new();
    push_call(&mut calls, EngineCall::SetScaledFont);
    push_call(&mut calls, set_brush(brush));
    push_call(&mut calls, EngineCall::MoveTo(pos));
    push_call(&mut calls, EngineCall::ShowText);
    assert(trace(calls@) =~= text_calls(pos, brush));
    calls
}

/// Applies a transform to all that is drawn from now on, up to the end of
/// the scope. It joins the transforms that are in force and replaces none.
pub fn transform(affine: Affine) -> (calls: Vec<EngineCall>)
    ensures
        trace(calls@) == transform_calls(affine),
{
    let mut calls: Vec<EngineCall> = Vec::new();
    push_call(&mut calls, EngineCall::Transform(affine_to_matrix(affine)));
    assert(trace(calls@) =~= transform_calls(affine));
    calls
}

/// Puts a sequence of calls in a scope: a save in front, a restore behind.
/// The restore does not wait on what the body does to the engine.
pub fn with_save(body: Vec<EngineCall>) -> (calls: Vec<EngineCall>)
    ensures
        trace(calls@) == scoped_calls(trace(body@)),
{
    let mut body = body;
    let ghost inner = body@;
    let mut calls: Vec<EngineCall> = Vec::new();
    push_call(&mut calls, EngineCall::Save);
    let ghost before = calls@;
    calls.append(&mut body);
    assert(trace(calls@) =~= trace(before) + trace(inner));
    push_call(&mut calls, EngineCall::Restore);
    assert(trace(calls@) =~= scoped_calls(trace(inner)));
    calls
}

/// Draws the image in hand where `dst` tells: `dst` is the outline of the
/// destination, `place` the scale and shift that take the wanted part of
/// the image onto it.
pub fn draw_image(dst: &[PathEl], place: Placement, interp: InterpolationMode) -> (calls: Vec<
    EngineCall,
>)
    ensures
        trace(calls@) == image_calls(dst@, place, interp),
{
    let mut body: Vec<EngineCall> = Vec::new();
    push_clip(&mut body, dst);
    push_call(&mut body, EngineCall::Translate(place.shift_x, place.shift_y));
    push_call(&mut body, EngineCall::Scale(place.scale_x, place.scale_y));
    push_call(&mut body, EngineCall::SetSource(Pattern::Surface(convert_interpolation(interp))));
    push_call(&mut body, EngineCall::Paint);
    assert(trace(body@) =~= image_body_calls(dst@, place, interp));
    with_save(body)
}

/// Clearing paints the colour, opaque, and leaves it as the source. The
/// path, the stack and the rest of the state stay as they are.
pub proof fn lemma_clear_paints_the_colour(e: Engine, rgba: u32)
    ensures
        ({
            let c = unpacked(rgba);
            let g = Graphics { source: Source::Rgb(c.r, c.g, c.b), ..e.graphics };
            run(e, clear_calls(rgba)) == (Engine {
                path: e.path,
                graphics: g,
                saved: e.saved,
                drawn: e.drawn.push(Mark { kind: Stamp::Paint, path: e.path, graphics: g }),
            })
        }),
{
    let c = unpacked(rgba);
    let set = Call::SetSourceRgb(c.r, c.g, c.b);
    let t1 = Seq::<Call>::empty().push(set);
    lemma_run_push(e, Seq::empty(), set);
    lemma_run_push(e, t1, Call::Paint);
    assert(clear_calls(rgba) =~= t1.push(Call::Paint));
}

/// Filling draws the shape with the brush under the fill rule, whatever
/// path, source and fill rule the engine had before, and leaves the engine
/// with no path. The stack stays as it is.
pub proof fn lemma_fill_draws_the_shape<L, R>(
    e: Engine,
    path: Seq<PathEl>,
    brush: &Brush<L, R>,
    rule: FillRule,
)
    ensures
        ({
            let g = Graphics { source: source_of(brush), fill_rule: rule, ..e.graphics };
            run(e, fill_calls(path, brush, rule)) == (Engine {
                path: Seq::empty(),
                graphics: g,
                saved: e.saved,
                drawn: e.drawn.push(
                    Mark { kind: Stamp::Fill, path: element_calls(path), graphics: g },
                ),
            })
        }),
{
    let a = path_calls(path);
    let b = brush_call(brush);
    let t1 = a.push(b);
    let t2 = t1.push(Call::SetFillRule(rule));
    lemma_path_replaces_the_path(e, path);
    lemma_brush_sets_the_source(run(e, a), brush);
    lemma_run_push(e, a, b);
    lemma_run_push(e, t1, Call::SetFillRule(rule));
    lemma_run_push(e, t2, Call::Fill);
    assert(fill_calls(path, brush, rule) =~= t2.push(Call::Fill));
}

/// Clipping narrows the clip to the inside of the shape under the winding
/// rule, whatever path the engine had before, and leaves the engine with no
/// path. Nothing is drawn and the stack stays as it is.
pub proof fn lemma_clip_narrows_to_the_shape(e: Engine, path: Seq<PathEl>)
    ensures
        run(e, clip_calls(path)) == (Engine {
            path: Seq::empty(),
            graphics: Graphics {
                fill_rule: FillRule::Winding,
                clip: e.graphics.clip.push(
                    Region { outline: element_calls(path), rule: FillRule::Winding },
                ),
                ..e.graphics
            },
            saved: e.saved,
            drawn: e.drawn,
        }),
{
    let a = path_calls(path);
    let t1 = a.push(Call::SetFillRule(FillRule::Winding));
    lemma_path_replaces_the_path(e, path);
    lemma_run_push(e, a, Call::SetFillRule(FillRule::Winding));
    lemma_run_push(e, t1, Call::Clip);
    assert(clip_calls(path) =~= t1.push(Call::Clip));
}

/// Stroking draws the shape with the brush and the line settings of the
/// stroke, whatever path, source and line settings the engine had before,
/// and leaves the engine with no path. The stack stays as it is.
pub proof fn lemma_stroke_draws_the_shape<L, R>(
    e: Engine,
    path: Seq<PathEl>,
    brush: &Brush<L, R>,
    width: Scalar,
    style: Option<&StrokeStyle>,
)
    ensures
        ({
            let g = Graphics {
                source: source_of(brush),
                line: line_of(width, style),
                ..e.graphics
            };
            run(e, stroke_op_calls(path, brush, width, style)) == (Engine {
                path: Seq::empty(),
                graphics: g,
                saved: e.saved,
                drawn: e.drawn.push(
                    Mark { kind: Stamp::Stroke, path: element_calls(path), graphics: g },
                ),
            })
        }),
{
    let a = path_calls(path);
    let settings = stroke_calls(width, style);
    let b = brush_call(brush);
    let t1 = (a + settings).push(b);
    lemma_path_replaces_the_path(e, path);
    lemma_run_concat(e, a, settings);
    lemma_stroke_sets_every_line_setting(run(e, a), width, style);
    lemma_brush_sets_the_source(run(e, a + settings), brush);
    lemma_run_push(e, a + settings, b);
    lemma_run_push(e, t1, Call::Stroke);
    assert(stroke_op_calls(path, brush, width, style) =~= t1.push(Call::Stroke));
}

/// Drawing text makes the font current, sets the brush and shows the text
/// at the place. The stack stays as it is.
pub proof fn lemma_text_is_shown_at_the_place<L, R>(e: Engine, pos: Point, brush: &Brush<L, R>)
    ensures
        ({
            let g = Graphics { source: source_of(brush), font: true, ..e.graphics };
            let at = e.path.push(Call::MoveTo(pos));
            run(e, text_calls(pos, brush)) == (Engine {
                path: at.push(Call::ShowText),
                graphics: g,
                saved: e.saved,
                drawn: e.drawn.push(Mark { kind: Stamp::Text, path: at, graphics: g }),
            })
        }),
{
    let b = brush_call(brush);
    let t1 = Seq::<Call>::empty().push(Call::SetScaledFont);
    let t2 = t1.push(b);
    let t3 = t2.push(Call::MoveTo(pos));
    lemma_run_push(e, Seq::empty(), Call::SetScaledFont);
    lemma_brush_sets_the_source(run(e, t1), brush);
    lemma_run_push(e, t1, b);
    lemma_run_push(e, t2, Call::MoveTo(pos));
    lemma_run_push(e, t3, Call::ShowText);
    assert(text_calls(pos, brush) =~= t3.push(Call::ShowText));
}

/// A transform is added behind the transforms that are in force, which all
/// stay. Nothing else changes.
pub proof fn lemma_transform_joins_the_others(e: Engine, affine: Affine)
    ensures
        run(e, transform_calls(affine)) == (Engine {
            graphics: Graphics {
                transforms: e.graphics.transforms.push(Call::Transform(matrix_of(affine))),
                ..e.graphics
            },
            ..e
        }),
{
    lemma_run_one(e, Call::Transform(matrix_of(affine)));
}

/// A scope starts with its save and ends with its restore, and has one save
/// and one restore more than its body, whatever the body is and whatever it
/// does to the engine.
pub proof fn lemma_scope_restores_once(body: Seq<Call>)
    ensures
        scoped_calls(body).first() == Call::Save,
        scoped_calls(body).last() == Call::Restore,
        count(scoped_calls(body), Call::Save) == count(body, Call::Save) + 1,
        count(scoped_calls(body), Call::Restore) == count(body, Call::Restore) + 1,
{
    let head = seq![Call::Save];
    assert(scoped_calls(body) =~= (head + body).push(Call::Restore));
    lemma_count_push(head + body, Call::Restore, Call::Save);
    lemma_count_push(head + body, Call::Restore, Call::Restore);
    lemma_count_concat(head, body, Call::Save);
    lemma_count_concat(head, body, Call::Restore);
    lemma_count_one(Call::Save, Call::Save);
    lemma_count_one(Call::Save, Call::Restore);
}

/// Behind a scope whose body leaves the stack alone, the engine's graphics
/// state and its stack are what they were in front of it.
pub proof fn lemma_scope_restores_the_state(e: Engine, body: Seq<Call>)
    requires
        keeps_saved(body),
    ensures
        run(e, scoped_calls(body)).graphics == e.graphics,
        run(e, scoped_calls(body)).saved == e.saved,
{
    let head = seq![Call::Save];
    let entered = step(e, Call::Save);
    assert(scoped_calls(body) =~= (head + body).push(Call::Restore));
    lemma_run_push(e, head + body, Call::Restore);
    lemma_run_concat(e, head, body);
    lemma_run_one(e, Call::Save);
    assert(run(entered, body).saved == entered.saved);
    assert(entered.saved.drop_last() =~= e.saved);
}

/// Drawing an image paints it once, clipped to its destination and with
/// the page shifted and scaled for it. Behind the drawing the engine's
/// graphics state and its stack are what they were in front of it: clip,
/// transform and source do not outlast the drawing.
pub proof fn lemma_image_is_drawn_in_a_scope(
    e: Engine,
    dst: Seq<PathEl>,
    place: Placement,
    interp: InterpolationMode,
)
    ensures
        ({
            let inner = Graphics {
                source: Source::Pattern(Pattern::Surface(filter_of(interp))),
                fill_rule: FillRule::Winding,
                clip: e.graphics.clip.push(
                    Region { outline: element_calls(dst), rule: FillRule::Winding },
                ),
                transforms: e.graphics.transforms.push(
                    Call::Translate(place.shift_x, place.shift_y),
                ).push(Call::Scale(place.scale_x, place.scale_y)),
                ..e.graphics
            };
            run(e, image_calls(dst, place, interp)) == (Engine {
                path: Seq::empty(),
                graphics: e.graphics,
                saved: e.saved,
                drawn: e.drawn.push(
                    Mark { kind: Stamp::Paint, path: Seq::empty(), graphics: inner },
                ),
            })
        }),
{
    let head = seq![Call::Save];
    let body = image_body_calls(dst, place, interp);
    let entered = step(e, Call::Save);
    let c = clip_calls(dst);
    let t1 = c.push(Call::Translate(place.shift_x, place.shift_y));
    let t2 = t1.push(Call::Scale(place.scale_x, place.scale_y));
    let t3 = t2.push(Call::SetSource(Pattern::Surface(filter_of(interp))));
    assert(body =~= t3.push(Call::Paint));
    lemma_clip_narrows_to_the_shape(entered, dst);
    lemma_run_push(entered, c, Call::Translate(place.shift_x, place.shift_y));
    lemma_run_push(entered, t1, Call::Scale(place.scale_x, place.scale_y));
    lemma_run_push(entered, t2, Call::SetSource(Pattern::Surface(filter_of(interp))));
    lemma_run_push(entered, t3, Call::Paint);
    assert(image_calls(dst, place, interp) =~= (head + body).push(Call::Restore));
    lemma_run_push(e, head + body, Call::Restore);
    lemma_run_concat(e, head, body);
    lemma_run_one(e, Call::Save);
    assert(entered.saved.drop_last() =~= e.saved);
}

/// Drawing an image makes exactly one save, as its first call, and exactly
/// one restore, as its last.
pub proof fn lemma_image_restores_once(dst: Seq<PathEl>, place: Placement, interp: InterpolationMode)
    ensures
        image_calls(dst, place, interp).first() == Call::Save,
        image_calls(dst, place, interp).last() == Call::Restore,
        count(image_calls(dst, place, interp), Call::Save) == 1,
        count(image_calls(dst, place, interp), Call::Restore) == 1,
{
    let body = image_body_calls(dst, place, interp);
    let a = path_calls(dst);
    let t1 = a.push(Call::SetFillRule(FillRule::Winding));
    let t2 = t1.push(Call::Clip);
    let t3 = t2.push(Call::Translate(place.shift_x, place.shift_y));
    let t4 = t3.push(Call::Scale(place.scale_x, place.scale_y));
    let t5 = t4.push(Call::SetSource(Pattern::Surface(filter_of(interp))));
    assert(body =~= t5.push(Call::Paint));
    lemma_path_calls_only_build(dst, Call::Save);
    lemma_path_calls_only_build(dst, Call::Restore);
    lemma_count_push(a, Call::SetFillRule(FillRule::Winding), Call::Save);
    lemma_count_push(t1, Call::Clip, Call::Save);
    lemma_count_push(t2, Call::Translate(place.shift_x, place.shift_y), Call::Save);
    lemma_count_push(t3, Call::Scale(place.scale_x, place.scale_y), Call::Save);
    lemma_count_push(t4, Call::SetSource(Pattern::Surface(filter_of(interp))), Call::Save);
    lemma_count_push(t5, Call::Paint, Call::Save);
    lemma_count_push(a, Call::SetFillRule(FillRule::Winding), Call::Restore);
    lemma_count_push(t1, Call::Clip, Call::Restore);
    lemma_count_push(t2, Call::Translate(place.shift_x, place.shift_y), Call::Restore);
    lemma_count_push(t3, Call::Scale(place.scale_x, place.scale_y), Call::Restore);
    lemma_count_push(t4, Call::SetSource(Pattern::Surface(filter_of(interp))), Call::Restore);
    lemma_count_push(t5, Call::Paint, Call::Restore);
    lemma_scope_restores_once(body);
}

/// No drawing operation leaves anything on the stack or takes anything
/// from it.
pub proof fn lemma_operations_keep_saved<L, R>(
    path: Seq<PathEl>,
    brush: &Brush<L, R>,
    rule: FillRule,
    width: Scalar,
    style: Option<&StrokeStyle>,
    pos: Point,
    rgba: u32,
    place: Placement,
    interp: InterpolationMode,
)
    ensures
        keeps_saved(clear_calls(rgba)),
        keeps_saved(fill_calls(path, brush, rule)),
        keeps_saved(clip_calls(path)),
        keeps_saved(stroke_op_calls(path, brush, width, style)),
        keeps_saved(text_calls(pos, brush)),
        keeps_saved(image_calls(path, place, interp)),
{
    assert forall|e: Engine| (#[trigger] run(e, clear_calls(rgba))).saved == e.saved by {
        lemma_clear_paints_the_colour(e, rgba);
    }
    assert forall|e: Engine| (#[trigger] run(e, fill_calls(path, brush, rule))).saved
        == e.saved by {
        lemma_fill_draws_the_shape(e, path, brush, rule);
    }
    assert forall|e: Engine| (#[trigger] run(e, clip_calls(path))).saved == e.saved by {
        lemma_clip_narrows_to_the_shape(e, path);
    }
    assert forall|e: Engine| (#[trigger] run(e, stroke_op_calls(path, brush, width, style))).saved
        == e.saved by {
        lemma_stroke_draws_the_shape(e, path, brush, width, style);
    }
    assert forall|e: Engine| (#[trigger] run(e, text_calls(pos, brush))).saved == e.saved by {
        lemma_text_is_shown_at_the_place(e, pos, brush);
    }
    assert forall|e: Engine| (#[trigger] run(e, image_calls(path, place, interp))).saved
        == e.saved by {
        lemma_image_is_drawn_in_a_scope(e, path, place, interp);
    }
}

} // verus!
