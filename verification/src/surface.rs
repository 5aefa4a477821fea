//! Surfaces and the draw commands recorded against them.
//!
//! A surface has fixed positive dimensions and records every drawing call as
//! a command. Rendering is two-phase: a pixel read takes the commands that no
//! engine has executed yet (`take_pending`) and an adapter replays them, so a
//! read always reflects every drawing call issued so far whether the engine
//! rasterizes eagerly or lazily, and a repeated read with no new draws
//! replays nothing.

use vstd::prelude::*;
use crate::color::Rgba;
use crate::geom::Fx;
use crate::path::Segment;

verus! {

/// Which regions of a self-intersecting path count as filled.
#[derive(Clone, Copy, PartialEq, Eq, Structural, Debug)]
pub enum FillRule {
    NonZero,
    EvenOdd,
}

/// How a stroke ends an open subpath.
#[derive(Clone, Copy, PartialEq, Eq, Structural, Debug)]
pub enum LineCap {
    Butt,
    Round,
    Square,
}

/// How a stroke joins two segments.
#[derive(Clone, Copy, PartialEq, Eq, Structural, Debug)]
pub enum LineJoin {
    Miter,
    Round,
    Bevel,
}

/// Outline rasterization parameters. The miter limit is fixed and there is
/// no caller-settable dash pattern.
#[derive(Clone, Copy, PartialEq, Eq, Structural, Debug)]
pub struct StrokeStyle {
    /// Stroke width; never negative.
    pub width: Fx,
    pub cap: LineCap,
    pub join: LineJoin,
}

/// Decodes the boundary's fill-rule selector: 1 is `EvenOdd`, everything
/// else `NonZero`.
pub fn decode_fill_rule(v: i32) -> (r: FillRule)
    ensures
        r == (if v == 1 { FillRule::EvenOdd } else { FillRule::NonZero }),
{
    if v == 1 { FillRule::EvenOdd } else { FillRule::NonZero }
}

/// Decodes the boundary's line-cap selector: 1 is `Round`, 2 is `Square`,
/// everything else `Butt`.
pub fn decode_line_cap(v: i32) -> (r: LineCap)
    ensures
        r == (if v == 1 { LineCap::Round } else if v == 2 { LineCap::Square } else { LineCap::Butt }),
{
    if v == 1 { LineCap::Round } else if v == 2 { LineCap::Square } else { LineCap::Butt }
}

/// Decodes the boundary's line-join selector: 1 is `Round`, 2 is `Bevel`,
/// everything else `Miter`.
pub fn decode_line_join(v: i32) -> (r: LineJoin)
    ensures
        r == (if v == 1 { LineJoin::Round } else if v == 2 { LineJoin::Bevel } else { LineJoin::Miter }),
{
    if v == 1 { LineJoin::Round } else if v == 2 { LineJoin::Bevel } else { LineJoin::Miter }
}

/// One recorded drawing call.
pub enum DrawCmd {
    /// Overwrites every pixel with the packed color; a full overwrite, not a
    /// blend.
    Clear(Rgba),
    /// Fills the path's interior under the fill rule, source-over.
    FillPath { segs: Vec<Segment>, color: Rgba, rule: FillRule },
    /// Strokes the path's outline with the style, source-over.
    StrokePath { segs: Vec<Segment>, color: Rgba, style: StrokeStyle },
    /// Fills the axis-aligned rectangle from (x, y) with extent (w, h),
    /// equivalent to filling the rectangular path under `NonZero`.
    FillRect { x: Fx, y: Fx, w: Fx, h: Fx, color: Rgba },
}

/// The command is a `Clear` of the given color.
pub open spec fn is_clear_cmd(c: DrawCmd, color: Rgba) -> bool {
    c matches DrawCmd::Clear(c2) && c2 == color
}

/// The command is a `FillPath` of the given geometry, color and rule.
pub open spec fn is_fill_path_cmd(c: DrawCmd, segs: Seq<Segment>, color: Rgba, rule: FillRule) -> bool {
    c matches DrawCmd::FillPath { segs: s2, color: c2, rule: r2 } && s2@ == segs && c2 == color
        && r2 == rule
}

/// The command is a `StrokePath` of the given geometry, color and style.
pub open spec fn is_stroke_path_cmd(
    c: DrawCmd,
    segs: Seq<Segment>,
    color: Rgba,
    style: StrokeStyle,
) -> bool {
    c matches DrawCmd::StrokePath { segs: s2, color: c2, style: st2 } && s2@ == segs && c2 == color
        && st2 == style
}

/// The command is a `FillRect` of the given rectangle and color.
pub open spec fn is_fill_rect_cmd(c: DrawCmd, x: Fx, y: Fx, w: Fx, h: Fx, color: Rgba) -> bool {
    c matches DrawCmd::FillRect { x: x2, y: y2, w: w2, h: h2, color: c2 } && x2 == x && y2 == y
        && w2 == w && h2 == h && c2 == color
}

/// A drawing surface: fixed dimensions and the log of recorded commands.
/// `replayed` counts the prefix of the log already handed to the engine.
pub struct SurfaceEntry {
    pub width: u16,
    pub height: u16,
    pub log: Vec<DrawCmd>,
    pub replayed: usize,
}

impl SurfaceEntry {
    /// Dimensions are positive and the replayed prefix lies within the log.
    pub open spec fn wf(self) -> bool {
        self.width > 0 && self.height > 0 && self.replayed <= self.log@.len()
    }

    /// Creates a surface of the given dimensions with an empty log.
    pub fn new(width: u16, height: u16) -> (r: SurfaceEntry)
        requires
            width > 0,
            height > 0,
        ensures
            r.wf(),
            r.width == width && r.height == height,
            r.log@ =~= Seq::<DrawCmd>::empty(),
            r.replayed == 0,
    {
        SurfaceEntry { width, height, log: Vec::new(), replayed: 0 }
    }

    /// Records one drawing call; dimensions and the replayed prefix stand.
    pub fn record(&mut self, cmd: DrawCmd)
        requires
            old(self).wf(),
        ensures
            final(self).wf(),
            final(self).log@ =~= old(self).log@.push(cmd),
            final(self).width == old(self).width,
            final(self).height == old(self).height,
            final(self).replayed == old(self).replayed,
    {
        self.log.push(cmd);
    }

    /// Takes the range of commands not yet replayed and marks them replayed.
    /// A second call with no draws in between yields an empty range, so a
    /// repeated pixel read replays nothing.
    pub fn take_pending(&mut self) -> (r: (usize, usize))
        requires
            old(self).wf(),
        ensures
            final(self).wf(),
            r.0 == old(self).replayed,
            r.1 == old(self).log@.len(),
            final(self).log@ =~= old(self).log@,
            final(self).width == old(self).width,
            final(self).height == old(self).height,
            final(self).replayed == final(self).log@.len(),
    {
        let start = self.replayed;
        let end = self.log.len();
        self.replayed = end;
        (start, end)
    }
}

} // verus!
