//! Incremental path construction and its state machine.
//!
//! A path builder starts `Empty`, becomes `Open` on its first segment, and is
//! made `Finished` exactly once by the draw call that consumes it. `Finished`
//! is terminal: every further mutation is rejected with `UseAfterFinish` and
//! leaves the builder unchanged. Appending a line or curve before any
//! `move_to` synthesizes an implicit `move_to` at the first supplied
//! coordinate, so that case has one documented meaning.

use vstd::prelude::*;
use crate::geom::Point;
use crate::error::ApiError;

verus! {

/// One drawing segment of a path.
#[derive(Clone, Copy, PartialEq, Eq, Structural, Debug)]
pub enum Segment {
    /// Starts a new subpath at the point.
    MoveTo(Point),
    /// A straight segment to the point.
    LineTo(Point),
    /// A quadratic curve: control point, then end point.
    QuadTo(Point, Point),
    /// A cubic curve: two control points, then the end point.
    CubicTo(Point, Point, Point),
    /// Closes the current subpath with a straight segment to its start.
    Close,
    /// A whole axis-aligned rectangle subpath: origin, then extent.
    RectTo(Point, Point),
}

/// Where a path builder stands in its lifecycle.
#[derive(Clone, Copy, PartialEq, Eq, Structural, Debug)]
pub enum PathState {
    /// No segment appended yet.
    Empty,
    /// At least one segment appended; still mutable.
    Open,
    /// Consumed by a draw call; terminal.
    Finished,
}

/// A path builder: the accumulated segments and the lifecycle state.
pub struct PathEntry {
    pub segs: Vec<Segment>,
    pub state: PathState,
}

impl PathEntry {
    /// An empty builder holds no segments.
    pub open spec fn wf(self) -> bool {
        self.state is Empty ==> self.segs@.len() == 0
    }

    /// Creates a fresh, empty builder.
    pub fn new() -> (r: PathEntry)
        ensures
            r.wf(),
            r.state is Empty,
            r.segs@ =~= Seq::<Segment>::empty(),
    {
        PathEntry { segs: Vec::new(), state: PathState::Empty }
    }

    /// Starts a new subpath. It does not close a prior open subpath.
    pub fn move_to(&mut self, p: Point) -> (r: Result<(), ApiError>)
        requires
            old(self).wf(),
        ensures
            final(self).wf(),
            old(self).state is Finished ==> r == Err::<(), ApiError>(ApiError::UseAfterFinish)
                && *final(self) == *old(self),
            !(old(self).state is Finished) ==> r == Ok::<(), ApiError>(())
                && final(self).segs@ =~= old(self).segs@.push(Segment::MoveTo(p))
                && final(self).state is Open,
    {
        if matches!(self.state, PathState::Finished) {
            return Err(ApiError::UseAfterFinish);
        }
        self.segs.push(Segment::MoveTo(p));
        self.state = PathState::Open;
        Ok(())
    }

    /// Appends a segment that extends the current subpath; on an empty
    /// builder an implicit `move_to` at `first` is synthesized before it.
    fn append_extending(&mut self, first: Point, seg: Segment) -> (r: Result<(), ApiError>)
        requires
            old(self).wf(),
        ensures
            final(self).wf(),
            old(self).state is Finished ==> r == Err::<(), ApiError>(ApiError::UseAfterFinish)
                && *final(self) == *old(self),
            old(self).state is Empty ==> r == Ok::<(), ApiError>(())
                && final(self).segs@ =~= old(self).segs@.push(Segment::MoveTo(first)).push(seg)
                && final(self).state is Open,
            old(self).state is Open ==> r == Ok::<(), ApiError>(())
                && final(self).segs@ =~= old(self).segs@.push(seg)
                && final(self).state is Open,
    {
        match self.state {
            PathState::Finished => Err(ApiError::UseAfterFinish),
            PathState::Empty => {
                self.segs.push(Segment::MoveTo(first));
                self.segs.push(seg);
                self.state = PathState::Open;
                Ok(())
            },
            PathState::Open => {
                self.segs.push(seg);
                Ok(())
            },
        }
    }

    /// Appends a straight segment to `p`.
    pub fn line_to(&mut self, p: Point) -> (r: Result<(), ApiError>)
        requires
            old(self).wf(),
        ensures
            final(self).wf(),
            old(self).state is Finished ==> r == Err::<(), ApiError>(ApiError::UseAfterFinish)
                && *final(self) == *old(self),
            old(self).state is Empty ==> r == Ok::<(), ApiError>(())
                && final(self).segs@ =~= old(self).segs@.push(Segment::MoveTo(p)).push(
                Segment::LineTo(p))
                && final(self).state is Open,
            old(self).state is Open ==> r == Ok::<(), ApiError>(())
                && final(self).segs@ =~= old(self).segs@.push(Segment::LineTo(p))
                && final(self).state is Open,
    {
        self.append_extending(p, Segment::LineTo(p))
    }

    /// Appends a quadratic curve through control point `c` to `p`.
    pub fn quad_to(&mut self, c: Point, p: Point) -> (r: Result<(), ApiError>)
        requires
            old(self).wf(),
        ensures
            final(self).wf(),
            old(self).state is Finished ==> r == Err::<(), ApiError>(ApiError::UseAfterFinish)
                && *final(self) == *old(self),
            old(self).state is Empty ==> r == Ok::<(), ApiError>(())
                && final(self).segs@ =~= old(self).segs@.push(Segment::MoveTo(c)).push(
                Segment::QuadTo(c, p))
                && final(self).state is Open,
            old(self).state is Open ==> r == Ok::<(), ApiError>(())
                && final(self).segs@ =~= old(self).segs@.push(Segment::QuadTo(c, p))
                && final(self).state is Open,
    {
        self.append_extending(c, Segment::QuadTo(c, p))
    }

    /// Appends a cubic curve through control points `c1`, `c2` to `p`.
    pub fn cubic_to(&mut self, c1: Point, c2: Point, p: Point) -> (r: Result<(), ApiError>)
        requires
            old(self).wf(),
        ensures
            final(self).wf(),
            old(self).state is Finished ==> r == Err::<(), ApiError>(ApiError::UseAfterFinish)
                && *final(self) == *old(self),
            old(self).state is Empty ==> r == Ok::<(), ApiError>(())
                && final(self).segs@ =~= old(self).segs@.push(Segment::MoveTo(c1)).push(
                Segment::CubicTo(c1, c2, p))
                && final(self).state is Open,
            old(self).state is Open ==> r == Ok::<(), ApiError>(())
                && final(self).segs@ =~= old(self).segs@.push(Segment::CubicTo(c1, c2, p))
                && final(self).state is Open,
    {
        self.append_extending(c1, Segment::CubicTo(c1, c2, p))
    }

    /// Closes the current subpath. With no subpath started yet there is
    /// nothing to close, and the call is an accepted no-op.
    pub fn close(&mut self) -> (r: Result<(), ApiError>)
        requires
            old(self).wf(),
        ensures
            final(self).wf(),
            old(self).state is Finished ==> r == Err::<(), ApiError>(ApiError::UseAfterFinish)
                && *final(self) == *old(self),
            old(self).state is Empty ==> r == Ok::<(), ApiError>(()) && *final(self) == *old(self),
            old(self).state is Open ==> r == Ok::<(), ApiError>(())
                && final(self).segs@ =~= old(self).segs@.push(Segment::Close)
                && final(self).state is Open,
    {
        match self.state {
            PathState::Finished => Err(ApiError::UseAfterFinish),
            PathState::Empty => Ok(()),
            PathState::Open => {
                self.segs.push(Segment::Close);
                Ok(())
            },
        }
    }

    /// Appends a whole rectangle as its own closed subpath: origin `o`,
    /// extent `sz`.
    pub fn rect(&mut self, o: Point, sz: Point) -> (r: Result<(), ApiError>)
        requires
            old(self).wf(),
        ensures
            final(self).wf(),
            old(self).state is Finished ==> r == Err::<(), ApiError>(ApiError::UseAfterFinish)
                && *final(self) == *old(self),
            !(old(self).state is Finished) ==> r == Ok::<(), ApiError>(())
                && final(self).segs@ =~= old(self).segs@.push(Segment::RectTo(o, sz))
                && final(self).state is Open,
    {
        if matches!(self.state, PathState::Finished) {
            return Err(ApiError::UseAfterFinish);
        }
        self.segs.push(Segment::RectTo(o, sz));
        self.state = PathState::Open;
        Ok(())
    }

    /// Consumes the builder for a draw call: yields the finished geometry and
    /// leaves the builder `Finished`, so any later use is rejected.
    pub fn consume(&mut self) -> (r: Result<Vec<Segment>, ApiError>)
        requires
            old(self).wf(),
        ensures
            final(self).wf(),
            old(self).state is Finished ==> r == Err::<Vec<Segment>, ApiError>(
                ApiError::UseAfterFinish) && *final(self) == *old(self),
            !(old(self).state is Finished) ==> r is Ok && r->Ok_0@ =~= old(self).segs@
                && final(self).segs@ =~= Seq::<Segment>::empty()
                && final(self).state is Finished,
    {
        if matches!(self.state, PathState::Finished) {
            return Err(ApiError::UseAfterFinish);
        }
        self.state = PathState::Finished;
        let mut out: Vec<Segment> = Vec::new();
        core::mem::swap(&mut out, &mut self.segs);
        Ok(out)
    }
}

} // verus!
