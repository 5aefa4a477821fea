//! The exact pixel model of the recorded commands.
//!
//! Rasterization is the engines' job and mostly out of scope here, but the
//! boundary contract pins some pixels down exactly: a clear overwrites every
//! pixel with the packed color, and an opaque, pixel-aligned rectangle fill
//! (whether issued as a rectangle or as the equivalent rectangular path)
//! paints exactly the pixels of its box. This module states that model and
//! proves the laws both engines must agree on: what a clear leaves, what a
//! rectangle fill leaves, and that the rectangular path equals the rectangle
//! fill pixel for pixel.

use vstd::prelude::*;
use crate::color::{pack, packed_spec, Rgba};
use crate::geom::{fx_aligned, fx_px, Fx, Point};
use crate::path::Segment;
use crate::registry::Registry;
use crate::surface::{is_fill_path_cmd, is_fill_rect_cmd, DrawCmd, FillRule};
use crate::table::Handle;

verus! {

/// Fixed-point addition as the model computes a rectangle's far corner.
pub open spec fn fx_add(a: Fx, b: Fx) -> Fx {
    Fx { raw: (a.raw + b.raw) as i32 }
}

/// The pixel (px, py) lies in the box with corners (x0, y0) and (x1, y1).
pub open spec fn covers(x0: Fx, y0: Fx, x1: Fx, y1: Fx, px: int, py: int) -> bool {
    x0.px() <= px < x1.px() && y0.px() <= py < y1.px()
}

/// The box is exact in the model: both corners on the pixel grid and not
/// inverted.
pub open spec fn box_exact(x0: Fx, y0: Fx, x1: Fx, y1: Fx) -> bool {
    x0.aligned() && y0.aligned() && x1.aligned() && y1.aligned() && x0.px() <= x1.px() && y0.px()
        <= y1.px()
}

/// The explicit rectangular path: a move to the origin, three lines around
/// the box, and a close.
pub open spec fn rect_segments(x: Fx, y: Fx, w: Fx, h: Fx) -> Seq<Segment> {
    seq![
        Segment::MoveTo(Point { x, y }),
        Segment::LineTo(Point { x: fx_add(x, w), y }),
        Segment::LineTo(Point { x: fx_add(x, w), y: fx_add(y, h) }),
        Segment::LineTo(Point { x, y: fx_add(y, h) }),
        Segment::Close,
    ]
}

/// The corners of a path that is exactly one axis-aligned rectangle:
/// either the rectangle shortcut segment, or the explicit form.
pub open spec fn rect_path_corners(segs: Seq<Segment>) -> Option<(Point, Point)> {
    if segs.len() == 1 {
        match segs[0] {
            Segment::RectTo(o, sz) => Some(
                (o, Point { x: fx_add(o.x, sz.x), y: fx_add(o.y, sz.y) }),
            ),
            _ => None,
        }
    } else if segs.len() == 5 {
        match (segs[0], segs[1], segs[2], segs[3], segs[4]) {
            (
                Segment::MoveTo(p00),
                Segment::LineTo(p10),
                Segment::LineTo(p11),
                Segment::LineTo(p01),
                Segment::Close,
            ) => if p10.y == p00.y && p10.x == p11.x && p01.x == p00.x && p01.y == p11.y {
                Some((p00, p11))
            } else {
                None
            },
            _ => None,
        }
    } else {
        None
    }
}

/// The command's pixels are pinned exactly by the contract: a clear of any
/// color, or an opaque fill of a pixel-aligned rectangle (as a rectangle or
/// as the rectangular path under `NonZero`).
pub open spec fn cmd_modelable(c: DrawCmd) -> bool {
    match c {
        DrawCmd::Clear(_) => true,
        DrawCmd::FillRect { x, y, w, h, color } => color.a == 255 && box_exact(
            x,
            y,
            fx_add(x, w),
            fx_add(y, h),
        ),
        DrawCmd::FillPath { segs, color, rule } => color.a == 255 && rule is NonZero && (
        match rect_path_corners(segs@) {
            Some(c2) => box_exact(c2.0.x, c2.0.y, c2.1.x, c2.1.y),
            None => false,
        }),
        DrawCmd::StrokePath { .. } => false,
    }
}

/// What the command makes of the pixel: the packed color it paints there,
/// or nothing. Meaningful for modelable commands.
pub open spec fn cmd_paint(c: DrawCmd, px: int, py: int) -> Option<u32> {
    match c {
        DrawCmd::Clear(col) => Some(packed_spec(col) as u32),
        DrawCmd::FillRect { x, y, w, h, color } => if covers(
            x,
            y,
            fx_add(x, w),
            fx_add(y, h),
            px,
            py,
        ) {
            Some(packed_spec(color) as u32)
        } else {
            None
        },
        DrawCmd::FillPath { segs, color, rule } => match rect_path_corners(segs@) {
            Some(c2) => if covers(c2.0.x, c2.0.y, c2.1.x, c2.1.y, px, py) {
                Some(packed_spec(color) as u32)
            } else {
                None
            },
            None => None,
        },
        DrawCmd::StrokePath { .. } => None,
    }
}

/// Every command of the log is pinned by the model.
pub open spec fn log_modelable(log: Seq<DrawCmd>) -> bool {
    forall|i: int| 0 <= i < log.len() ==> cmd_modelable(#[trigger] log[i])
}

/// The pixel's packed value after the whole log, starting from the
/// engines' initial transparent black (0). The latest command that paints
/// the pixel decides it.
pub open spec fn pixel_after(log: Seq<DrawCmd>, px: int, py: int) -> u32
    decreases log.len(),
{
    if log.len() == 0 {
        0u32
    } else {
        match cmd_paint(log.last(), px, py) {
            Some(v) => v,
            None => pixel_after(log.drop_last(), px, py),
        }
    }
}

/// Computes the far corner of a rectangle, as `fx_add` does.
pub fn fx_add_fx(a: Fx, b: Fx) -> (r: Fx)
    ensures
        r == fx_add(a, b),
{
    let s: i64 = a.raw as i64 + b.raw as i64;
    Fx { raw: #[verifier::truncate] (s as i32) }
}

/// Decides whether the pixel lies in the box.
pub fn covers_px(x0: Fx, y0: Fx, x1: Fx, y1: Fx, px: i32, py: i32) -> (r: bool)
    ensures
        r == covers(x0, y0, x1, y1, px as int, py as int),
{
    fx_px(x0) <= px && px < fx_px(x1) && fx_px(y0) <= py && py < fx_px(y1)
}

/// Decides whether the box is exact in the model.
pub fn box_exact_px(x0: Fx, y0: Fx, x1: Fx, y1: Fx) -> (r: bool)
    ensures
        r == box_exact(x0, y0, x1, y1),
{
    fx_aligned(x0) && fx_aligned(y0) && fx_aligned(x1) && fx_aligned(y1) && fx_px(x0) <= fx_px(x1)
        && fx_px(y0) <= fx_px(y1)
}

/// Extracts the corners of a path that is exactly one rectangle.
pub fn rect_corners_of(segs: &Vec<Segment>) -> (r: Option<(Point, Point)>)
    ensures
        r == rect_path_corners(segs@),
{
    if segs.len() == 1 {
        match segs[0] {
            Segment::RectTo(o, sz) => Some(
                (o, Point { x: fx_add_fx(o.x, sz.x), y: fx_add_fx(o.y, sz.y) }),
            ),
            _ => None,
        }
    } else if segs.len() == 5 {
        match (segs[0], segs[1], segs[2], segs[3], segs[4]) {
            (
                Segment::MoveTo(p00),
                Segment::LineTo(p10),
                Segment::LineTo(p11),
                Segment::LineTo(p01),
                Segment::Close,
            ) => if p10.y == p00.y && p10.x == p11.x && p01.x == p00.x && p01.y == p11.y {
                Some((p00, p11))
            } else {
                None
            },
            _ => None,
        }
    } else {
        None
    }
}

/// Decides whether the model pins the command's pixels exactly.
pub fn cmd_is_modelable(c: &DrawCmd) -> (r: bool)
    ensures
        r == cmd_modelable(*c),
{
    match c {
        DrawCmd::Clear(_) => true,
        DrawCmd::FillRect { x, y, w, h, color } => color.a == 255 && box_exact_px(
            *x,
            *y,
            fx_add_fx(*x, *w),
            fx_add_fx(*y, *h),
        ),
        DrawCmd::FillPath { segs, color, rule } => color.a == 255 && matches!(
            rule,
            FillRule::NonZero,
        ) && (match rect_corners_of(segs) {
            Some(c2) => box_exact_px(c2.0.x, c2.0.y, c2.1.x, c2.1.y),
            None => false,
        }),
        DrawCmd::StrokePath { .. } => false,
    }
}

/// Computes what the command makes of the pixel.
pub fn cmd_paint_at(c: &DrawCmd, px: i32, py: i32) -> (r: Option<u32>)
    ensures
        r == cmd_paint(*c, px as int, py as int),
{
    match c {
        DrawCmd::Clear(col) => Some(pack(*col)),
        DrawCmd::FillRect { x, y, w, h, color } => if covers_px(
            *x,
            *y,
            fx_add_fx(*x, *w),
            fx_add_fx(*y, *h),
            px,
            py,
        ) {
            Some(pack(*color))
        } else {
            None
        },
        DrawCmd::FillPath { segs, color, rule: _ } => match rect_corners_of(segs) {
            Some(c2) => if covers_px(c2.0.x, c2.0.y, c2.1.x, c2.1.y, px, py) {
                Some(pack(*color))
            } else {
                None
            },
            None => None,
        },
        DrawCmd::StrokePath { .. } => None,
    }
}

/// The model's value of one pixel of the surface: the reference that both
/// engines' outputs are held against. Yields a value exactly when the
/// handle is live, the pixel is in bounds, and every recorded command is
/// pinned by the model; the value is then the proved `pixel_after` of the
/// surface's whole log.
pub fn model_pixel(reg: &Registry, h: Handle, px: i32, py: i32) -> (r: Option<u32>)
    requires
        reg.wf(),
    ensures
        (r is Some <==> reg.has_surface(h) && 0 <= px < reg.surface_at(h).width && 0 <= py
            < reg.surface_at(h).height && log_modelable(reg.surface_at(h).log@)),
        r matches Some(v) ==> v == pixel_after(reg.surface_at(h).log@, px as int, py as int),
{
    let w = reg.surface_width(h);
    if w == 0 {
        return None;
    }
    let ht = reg.surface_height(h);
    if px < 0 || px >= w || py < 0 || py >= ht {
        return None;
    }
    let ghost log = reg.surface_at(h).log@;
    let n = reg.surface_cmd_count(h);
    let mut i: usize = 0;
    while i < n
        invariant
            reg.wf(),
            reg.has_surface(h),
            n == log.len(),
            log == reg.surface_at(h).log@,
            i <= n,
            forall|j: int| 0 <= j < i ==> cmd_modelable(#[trigger] log[j]),
        decreases n - i,
    {
        let c = reg.surface_cmd(h, i).unwrap();
        if !cmd_is_modelable(c) {
            proof {
                assert(!cmd_modelable(log[i as int]));
            }
            return None;
        }
        i = i + 1;
    }
    proof {
        assert(log.take(n as int) =~= log);
    }
    let mut k: usize = n;
    while k > 0
        invariant
            reg.wf(),
            reg.has_surface(h),
            n == log.len(),
            log == reg.surface_at(h).log@,
            k <= n,
            0 <= px < reg.surface_at(h).width,
            0 <= py < reg.surface_at(h).height,
            pixel_after(log, px as int, py as int) == pixel_after(
                log.take(k as int),
                px as int,
                py as int,
            ),
            log_modelable(log),
        decreases k,
    {
        k = k - 1;
        let c = reg.surface_cmd(h, k).unwrap();
        proof {
            assert(log.take(k as int + 1).last() == log[k as int]);
            assert(log.take(k as int + 1).drop_last() =~= log.take(k as int));
        }
        match cmd_paint_at(c, px, py) {
            Some(v) => {
                return Some(v);
            },
            None => {},
        }
    }
    proof {
        assert(log.take(n as int) =~= log);
    }
    Some(0)
}

/// A clear overwrites every pixel with the packed clear color, whatever was
/// drawn before and whatever the alpha: a full overwrite, not a blend.
pub proof fn lemma_clear_overwrites(log: Seq<DrawCmd>, c: Rgba, px: int, py: int)
    ensures
        pixel_after(log.push(DrawCmd::Clear(c)), px, py) == packed_spec(c),
{
    crate::color::lemma_packed_bounds(c);
}

/// An opaque, pixel-aligned rectangle fill paints exactly the pixels of its
/// box and leaves every other pixel as it was.
pub proof fn lemma_fill_rect_region(
    log: Seq<DrawCmd>,
    cmd: DrawCmd,
    x: Fx,
    y: Fx,
    w: Fx,
    h: Fx,
    c: Rgba,
    px: int,
    py: int,
)
    requires
        is_fill_rect_cmd(cmd, x, y, w, h, c),
    ensures
        pixel_after(log.push(cmd), px, py) == (if covers(x, y, fx_add(x, w), fx_add(y, h), px, py) {
            packed_spec(c) as u32
        } else {
            pixel_after(log, px, py)
        }),
{
    assert(log.push(cmd).drop_last() =~= log);
}

/// A rectangle fill over a cleared surface: the rectangle's color inside
/// the box, the clear color everywhere else.
pub proof fn lemma_rect_on_clear(
    c0: Rgba,
    cmd: DrawCmd,
    x: Fx,
    y: Fx,
    w: Fx,
    h: Fx,
    c: Rgba,
    px: int,
    py: int,
)
    requires
        is_fill_rect_cmd(cmd, x, y, w, h, c),
    ensures
        pixel_after(seq![DrawCmd::Clear(c0), cmd], px, py) == (if covers(
            x,
            y,
            fx_add(x, w),
            fx_add(y, h),
            px,
            py,
        ) {
            packed_spec(c) as u32
        } else {
            packed_spec(c0) as u32
        }),
{
    let log = seq![DrawCmd::Clear(c0)];
    lemma_clear_overwrites(Seq::<DrawCmd>::empty(), c0, px, py);
    assert(Seq::<DrawCmd>::empty().push(DrawCmd::Clear(c0)) =~= log);
    lemma_fill_rect_region(log, cmd, x, y, w, h, c, px, py);
    assert(log.push(cmd) =~= seq![DrawCmd::Clear(c0), cmd]);
}

/// The segments a builder accumulates for the explicit rectangle — a
/// `move_to`, three `line_to`s, and a `close` — are the explicit
/// rectangular path.
pub proof fn lemma_built_rect_segments(x: Fx, y: Fx, w: Fx, h: Fx)
    ensures
        Seq::<Segment>::empty().push(Segment::MoveTo(Point { x, y })).push(
            Segment::LineTo(Point { x: fx_add(x, w), y }),
        ).push(Segment::LineTo(Point { x: fx_add(x, w), y: fx_add(y, h) })).push(
            Segment::LineTo(Point { x, y: fx_add(y, h) }),
        ).push(Segment::Close) =~= rect_segments(x, y, w, h),
{
}

/// Filling the explicit rectangular path under `NonZero` is pixel for pixel
/// the rectangle fill of the same box with the same color.
pub proof fn lemma_rect_path_equals_fill_rect(
    log: Seq<DrawCmd>,
    pcmd: DrawCmd,
    rcmd: DrawCmd,
    x: Fx,
    y: Fx,
    w: Fx,
    h: Fx,
    c: Rgba,
    px: int,
    py: int,
)
    requires
        is_fill_path_cmd(pcmd, rect_segments(x, y, w, h), c, FillRule::NonZero),
        is_fill_rect_cmd(rcmd, x, y, w, h, c),
    ensures
        cmd_modelable(pcmd) == cmd_modelable(rcmd),
        pixel_after(log.push(pcmd), px, py) == pixel_after(log.push(rcmd), px, py),
{
    let segs = rect_segments(x, y, w, h);
    assert(rect_path_corners(segs) == Some(
        (Point { x, y }, Point { x: fx_add(x, w), y: fx_add(y, h) }),
    ));
    assert(log.push(pcmd).drop_last() =~= log);
    assert(log.push(rcmd).drop_last() =~= log);
}

/// The rectangle shortcut segment and the explicit rectangular path have
/// the same corners, so filling either under `NonZero` paints the same
/// pixels.
pub proof fn lemma_rect_shortcut_equals_explicit(
    log: Seq<DrawCmd>,
    scmd: DrawCmd,
    ecmd: DrawCmd,
    o: Point,
    sz: Point,
    c: Rgba,
    px: int,
    py: int,
)
    requires
        is_fill_path_cmd(scmd, seq![Segment::RectTo(o, sz)], c, FillRule::NonZero),
        is_fill_path_cmd(ecmd, rect_segments(o.x, o.y, sz.x, sz.y), c, FillRule::NonZero),
    ensures
        cmd_modelable(scmd) == cmd_modelable(ecmd),
        pixel_after(log.push(scmd), px, py) == pixel_after(log.push(ecmd), px, py),
{
    assert(rect_path_corners(seq![Segment::RectTo(o, sz)]) == Some(
        (o, Point { x: fx_add(o.x, sz.x), y: fx_add(o.y, sz.y) }),
    ));
    assert(rect_path_corners(rect_segments(o.x, o.y, sz.x, sz.y)) == Some(
        (Point { x: o.x, y: o.y }, Point { x: fx_add(o.x, sz.x), y: fx_add(o.y, sz.y) }),
    ));
    assert(log.push(scmd).drop_last() =~= log);
    assert(log.push(ecmd).drop_last() =~= log);
}

} // verus!
