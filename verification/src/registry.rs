//! The unified boundary layer: every surface and path operation, over
//! generation-checked handles.
//!
//! Each operation validates its handles first; a null, stale, or destroyed
//! handle makes it a no-op that reports `InvalidHandle` and leaves the whole
//! registry untouched. A draw call consumes its path: the path becomes
//! `Finished`, and any later mutation or draw through that handle is a no-op
//! reporting `UseAfterFinish`. The same rules hold whichever rendering
//! engine later replays the recorded commands.

use vstd::prelude::*;
use crate::color::Rgba;
use crate::error::ApiError;
use crate::geom::{Fx, Point};
use crate::path::{PathEntry, PathState, Segment};
use crate::surface::{DrawCmd, FillRule, StrokeStyle, SurfaceEntry};
use crate::surface::{is_clear_cmd, is_fill_path_cmd, is_fill_rect_cmd, is_stroke_path_cmd};
use crate::table::{Handle, Table};

verus! {

/// The registry of all live surfaces and path builders.
pub struct Registry {
    pub surfaces: Table<SurfaceEntry>,
    pub paths: Table<PathEntry>,
}

impl Registry {
    /// Both tables are well formed, and so is every entry in them.
    pub open spec fn wf(self) -> bool {
        &&& self.surfaces.wf()
        &&& self.paths.wf()
        &&& forall|h: Handle|
            #[trigger] self.surfaces.contains(h) ==> self.surfaces.value(h).wf()
        &&& forall|h: Handle| #[trigger] self.paths.contains(h) ==> self.paths.value(h).wf()
    }

    /// The handle names a live surface.
    pub open spec fn has_surface(self, h: Handle) -> bool {
        self.surfaces.contains(h)
    }

    /// The surface the handle names.
    pub open spec fn surface_at(self, h: Handle) -> SurfaceEntry {
        self.surfaces.value(h)
    }

    /// The handle names a live path builder.
    pub open spec fn has_path(self, h: Handle) -> bool {
        self.paths.contains(h)
    }

    /// The path builder the handle names.
    pub open spec fn path_at(self, h: Handle) -> PathEntry {
        self.paths.value(h)
    }

    /// Every surface other than `except` is as in `prior`.
    pub open spec fn same_surfaces_except(self, prior: Self, except: Handle) -> bool {
        forall|h: Handle|
            h != except ==> (#[trigger] self.surfaces.contains(h) == prior.surfaces.contains(h)
                && (self.surfaces.contains(h) ==> self.surfaces.value(h) == prior.surfaces.value(
                h,
            )))
    }

    /// Every path other than `except` is as in `prior`.
    pub open spec fn same_paths_except(self, prior: Self, except: Handle) -> bool {
        forall|h: Handle|
            h != except ==> (#[trigger] self.paths.contains(h) == prior.paths.contains(h)
                && (self.paths.contains(h) ==> self.paths.value(h) == prior.paths.value(h)))
    }

    /// Creates an empty registry.
    pub fn new() -> (r: Registry)
        ensures
            r.wf(),
            r.surfaces.live() == 0,
            r.paths.live() == 0,
            forall|h: Handle| !r.has_surface(h) && !r.has_path(h),
    {
        Registry { surfaces: Table::new(), paths: Table::new() }
    }

    /// Creates a surface of the given dimensions: a fresh handle when both
    /// lie in 1..=65535, the engines' addressable range, and otherwise an
    /// `AllocationFailure` no-op (the boundary then hands out null).
    pub fn surface_create(&mut self, width: i32, height: i32) -> (r: Result<Handle, ApiError>)
        requires
            old(self).wf(),
        ensures
            final(self).wf(),
            r is Ok <==> (1 <= width <= 0xFFFF && 1 <= height <= 0xFFFF),
            r is Err ==> r == Err::<Handle, ApiError>(ApiError::AllocationFailure) && *final(self)
                == *old(self),
            r matches Ok(h) ==> final(self).has_surface(h) && !old(self).has_surface(h)
                && final(self).surface_at(h).width == width && final(self).surface_at(h).height
                == height && final(self).surface_at(h).log@ =~= Seq::<DrawCmd>::empty() && final(self).surface_at(h).replayed == 0 && final(self).surfaces.live() == old(self).surfaces.live() + 1 && final(self).same_surfaces_except(*old(self), h),
            final(self).paths == old(self).paths,
    {
        if width < 1 || width > 0xFFFF || height < 1 || height > 0xFFFF {
            return Err(ApiError::AllocationFailure);
        }
        let entry = SurfaceEntry::new(width as u16, height as u16);
        let h = self.surfaces.insert(entry);
        Ok(h)
    }

    /// Destroys the surface exactly once; a null, stale, or repeated destroy
    /// is a detected no-op.
    pub fn surface_destroy(&mut self, h: Handle) -> (r: Result<(), ApiError>)
        requires
            old(self).wf(),
        ensures
            final(self).wf(),
            r is Ok <==> old(self).has_surface(h),
            r is Err ==> r == Err::<(), ApiError>(ApiError::InvalidHandle) && *final(self) == *old(self),
            r is Ok ==> !final(self).has_surface(h) && final(self).surfaces.live() == old(self).surfaces.live() - 1 && final(self).same_surfaces_except(*old(self), h),
            final(self).paths == old(self).paths,
    {
        if self.surfaces.destroy(h) {
            Ok(())
        } else {
            Err(ApiError::InvalidHandle)
        }
    }

    /// The surface's width, or 0 for a null or invalid handle.
    pub fn surface_width(&self, h: Handle) -> (r: i32)
        requires
            self.wf(),
        ensures
            self.has_surface(h) ==> r == self.surface_at(h).width,
            !self.has_surface(h) ==> r == 0,
    {
        if self.surfaces.is_live(h) {
            self.surfaces.borrow_at(h).width as i32
        } else {
            0
        }
    }

    /// The surface's height, or 0 for a null or invalid handle.
    pub fn surface_height(&self, h: Handle) -> (r: i32)
        requires
            self.wf(),
        ensures
            self.has_surface(h) ==> r == self.surface_at(h).height,
            !self.has_surface(h) ==> r == 0,
    {
        if self.surfaces.is_live(h) {
            self.surfaces.borrow_at(h).height as i32
        } else {
            0
        }
    }

    /// Records one command against the surface.
    fn record_cmd(&mut self, h: Handle, cmd: DrawCmd) -> (r: Result<(), ApiError>)
        requires
            old(self).wf(),
        ensures
            final(self).wf(),
            r is Ok <==> old(self).has_surface(h),
            r is Err ==> r == Err::<(), ApiError>(ApiError::InvalidHandle) && *final(self) == *old(self),
            r is Ok ==> final(self).has_surface(h) && final(self).surface_at(h).log@ =~= old(self).surface_at(h).log@.push(cmd) && final(self).surface_at(h).width == old(self).surface_at(h).width && final(self).surface_at(h).height == old(self).surface_at(
                h,
            ).height && final(self).surface_at(h).replayed == old(self).surface_at(h).replayed
                && final(self).surfaces.live() == old(self).surfaces.live() && final(self).same_surfaces_except(*old(self), h),
            final(self).paths == old(self).paths,
    {
        if !self.surfaces.is_live(h) {
            return Err(ApiError::InvalidHandle);
        }
        let mut entry = self.surfaces.withdraw(h);
        entry.record(cmd);
        self.surfaces.restore(h, entry);
        Ok(())
    }

    /// Overwrites every pixel of the surface with the straight color: a full
    /// overwrite, not a blend.
    pub fn clear(&mut self, h: Handle, color: Rgba) -> (r: Result<(), ApiError>)
        requires
            old(self).wf(),
        ensures
            final(self).wf(),
            r is Ok <==> old(self).has_surface(h),
            r is Err ==> r == Err::<(), ApiError>(ApiError::InvalidHandle) && *final(self) == *old(self),
            r is Ok ==> final(self).has_surface(h) && final(self).surface_at(h).log@.len() == old(self).surface_at(h).log@.len() + 1 && final(self).surface_at(h).log@.drop_last() =~= old(self).surface_at(h).log@ && is_clear_cmd(final(self).surface_at(h).log@.last(), color)
                && final(self).surface_at(h).width == old(self).surface_at(h).width && final(self).surface_at(h).height == old(self).surface_at(h).height && final(self).surface_at(
                h,
            ).replayed == old(self).surface_at(h).replayed && final(self).same_surfaces_except(
                *old(self),
                h,
            ),
            final(self).paths == old(self).paths,
    {
        self.record_cmd(h, DrawCmd::Clear(color))
    }

    /// Fills the axis-aligned rectangle from (x, y) with extent (w, h),
    /// exactly as filling the rectangular path under `NonZero` would.
    pub fn fill_rect(&mut self, s: Handle, x: Fx, y: Fx, w: Fx, h: Fx, color: Rgba) -> (r: Result<
        (),
        ApiError,
    >)
        requires
            old(self).wf(),
        ensures
            final(self).wf(),
            r is Ok <==> old(self).has_surface(s),
            r is Err ==> r == Err::<(), ApiError>(ApiError::InvalidHandle) && *final(self) == *old(self),
            r is Ok ==> final(self).has_surface(s) && final(self).surface_at(s).log@.len() == old(self).surface_at(s).log@.len() + 1 && final(self).surface_at(s).log@.drop_last() =~= old(self).surface_at(s).log@ && is_fill_rect_cmd(
                final(self).surface_at(s).log@.last(),
                x,
                y,
                w,
                h,
                color,
            ) && final(self).surface_at(s).width == old(self).surface_at(s).width && final(self).surface_at(s).height == old(self).surface_at(s).height && final(self).surface_at(
                s,
            ).replayed == old(self).surface_at(s).replayed && final(self).same_surfaces_except(*old(self), s),
            final(self).paths == old(self).paths,
    {
        self.record_cmd(s, DrawCmd::FillRect { x, y, w, h, color })
    }

    /// Takes the range of the surface's commands that no engine has replayed
    /// yet and marks them replayed. An adapter calls this from its pixel
    /// read, so the read reflects every drawing call issued so far and a
    /// repeated read replays nothing.
    pub fn take_pending(&mut self, h: Handle) -> (r: Result<(usize, usize), ApiError>)
        requires
            old(self).wf(),
        ensures
            final(self).wf(),
            r is Ok <==> old(self).has_surface(h),
            r is Err ==> r == Err::<(usize, usize), ApiError>(ApiError::InvalidHandle) && *final(self) == *old(self),
            r matches Ok(range) ==> range.0 == old(self).surface_at(h).replayed && range.1 == old(self).surface_at(h).log@.len() && final(self).has_surface(h) && final(self).surface_at(
                h,
            ).log@ =~= old(self).surface_at(h).log@ && final(self).surface_at(h).width == old(self).surface_at(h).width && final(self).surface_at(h).height == old(self).surface_at(
                h,
            ).height && final(self).surface_at(h).replayed == old(self).surface_at(h).log@.len()
                && final(self).same_surfaces_except(*old(self), h),
            final(self).paths == old(self).paths,
    {
        if !self.surfaces.is_live(h) {
            return Err(ApiError::InvalidHandle);
        }
        let mut entry = self.surfaces.withdraw(h);
        let range = entry.take_pending();
        self.surfaces.restore(h, entry);
        Ok(range)
    }

    /// Borrows one recorded command of the surface, for an adapter to
    /// replay; nothing for an invalid handle or an index past the log.
    pub fn surface_cmd(&self, h: Handle, i: usize) -> (r: Option<&DrawCmd>)
        requires
            self.wf(),
        ensures
            (r is Some <==> self.has_surface(h) && i < self.surface_at(h).log@.len()),
            r matches Some(c) ==> *c == self.surface_at(h).log@[i as int],
    {
        if !self.surfaces.is_live(h) {
            return None;
        }
        let entry = self.surfaces.borrow_at(h);
        if i < entry.log.len() {
            Some(&entry.log[i])
        } else {
            None
        }
    }

    /// How many commands the surface has recorded so far; 0 for an invalid
    /// handle.
    pub fn surface_cmd_count(&self, h: Handle) -> (r: usize)
        requires
            self.wf(),
        ensures
            self.has_surface(h) ==> r == self.surface_at(h).log@.len(),
            !self.has_surface(h) ==> r == 0,
    {
        if self.surfaces.is_live(h) {
            self.surfaces.borrow_at(h).log.len()
        } else {
            0
        }
    }

    /// How many surfaces are live, for allocation accounting.
    pub fn live_surfaces(&self) -> (r: usize)
        ensures
            r == self.surfaces.live(),
    {
        self.surfaces.live_count()
    }

    /// How many path builders are live, for allocation accounting.
    pub fn live_paths(&self) -> (r: usize)
        ensures
            r == self.paths.live(),
    {
        self.paths.live_count()
    }

    /// Creates an empty path builder and mints its handle.
    pub fn path_create(&mut self) -> (r: Handle)
        requires
            old(self).wf(),
        ensures
            final(self).wf(),
            final(self).has_path(r) && !old(self).has_path(r),
            final(self).path_at(r).state is Empty,
            final(self).path_at(r).segs@ =~= Seq::<Segment>::empty(),
            final(self).paths.live() == old(self).paths.live() + 1,
            final(self).same_paths_except(*old(self), r),
            final(self).surfaces == old(self).surfaces,
    {
        self.paths.insert(PathEntry::new())
    }

    /// Destroys the path builder exactly once; a null, stale, or repeated
    /// destroy is a detected no-op.
    pub fn path_destroy(&mut self, h: Handle) -> (r: Result<(), ApiError>)
        requires
            old(self).wf(),
        ensures
            final(self).wf(),
            r is Ok <==> old(self).has_path(h),
            r is Err ==> r == Err::<(), ApiError>(ApiError::InvalidHandle) && *final(self) == *old(self),
            r is Ok ==> !final(self).has_path(h) && final(self).paths.live() == old(self).paths.live() - 1 && final(self).same_paths_except(*old(self), h),
            final(self).surfaces == old(self).surfaces,
    {
        if self.paths.destroy(h) {
            Ok(())
        } else {
            Err(ApiError::InvalidHandle)
        }
    }

    /// The path builder's lifecycle state, for callers that want to test a
    /// handle before using it; nothing for an invalid handle.
    pub fn path_state(&self, h: Handle) -> (r: Option<PathState>)
        requires
            self.wf(),
        ensures
            (r is Some <==> self.has_path(h)),
            r matches Some(st) ==> st == self.path_at(h).state,
    {
        if self.paths.is_live(h) {
            Some(self.paths.borrow_at(h).state)
        } else {
            None
        }
    }

    /// What an operation through this path handle would report: the common
    /// screening of every path mutation and draw.
    fn screen_path(&self, h: Handle) -> (r: Result<(), ApiError>)
        requires
            self.wf(),
        ensures
            !self.has_path(h) ==> r == Err::<(), ApiError>(ApiError::InvalidHandle),
            self.has_path(h) && self.path_at(h).state is Finished ==> r == Err::<(), ApiError>(
                ApiError::UseAfterFinish,
            ),
            self.has_path(h) && !(self.path_at(h).state is Finished) ==> r == Ok::<(), ApiError>(
                (),
            ),
    {
        if !self.paths.is_live(h) {
            return Err(ApiError::InvalidHandle);
        }
        if matches!(self.paths.borrow_at(h).state, PathState::Finished) {
            return Err(ApiError::UseAfterFinish);
        }
        Ok(())
    }

    /// Starts a new subpath of the path at the point.
    pub fn move_to(&mut self, h: Handle, p: Point) -> (r: Result<(), ApiError>)
        requires
            old(self).wf(),
        ensures
            final(self).wf(),
            !old(self).has_path(h) ==> r == Err::<(), ApiError>(ApiError::InvalidHandle) && *final(self) == *old(self),
            old(self).has_path(h) && old(self).path_at(h).state is Finished ==> r == Err::<
                (),
                ApiError,
            >(ApiError::UseAfterFinish) && *final(self) == *old(self),
            old(self).has_path(h) && !(old(self).path_at(h).state is Finished) ==> r == Ok::<
                (),
                ApiError,
            >(()) && final(self).has_path(h) && final(self).path_at(h).state is Open && final(self).path_at(h).segs@ =~= old(self).path_at(h).segs@.push(Segment::MoveTo(p)) && final(self).paths.live() == old(self).paths.live() && final(self).same_paths_except(
                *old(self),
                h,
            ),
            final(self).surfaces == old(self).surfaces,
    {
        if let Err(e) = self.screen_path(h) {
            return Err(e);
        }
        let mut entry = self.paths.withdraw(h);
        let res = entry.move_to(p);
        self.paths.restore(h, entry);
        res
    }

    /// Appends a straight segment of the path to the point. On an empty
    /// path an implicit `move_to` at the point comes first.
    pub fn line_to(&mut self, h: Handle, p: Point) -> (r: Result<(), ApiError>)
        requires
            old(self).wf(),
        ensures
            final(self).wf(),
            !old(self).has_path(h) ==> r == Err::<(), ApiError>(ApiError::InvalidHandle) && *final(self) == *old(self),
            old(self).has_path(h) && old(self).path_at(h).state is Finished ==> r == Err::<
                (),
                ApiError,
            >(ApiError::UseAfterFinish) && *final(self) == *old(self),
            old(self).has_path(h) && old(self).path_at(h).state is Empty ==> r == Ok::<
                (),
                ApiError,
            >(()) && final(self).path_at(h).segs@ =~= old(self).path_at(h).segs@.push(
                Segment::MoveTo(p),
            ).push(Segment::LineTo(p)),
            old(self).has_path(h) && old(self).path_at(h).state is Open ==> r == Ok::<(), ApiError>(
                (),
            ) && final(self).path_at(h).segs@ =~= old(self).path_at(h).segs@.push(
                Segment::LineTo(p),
            ),
            old(self).has_path(h) && !(old(self).path_at(h).state is Finished) ==> final(self).has_path(h) && final(self).path_at(h).state is Open && final(self).paths.live()
                == old(self).paths.live() && final(self).same_paths_except(*old(self), h),
            final(self).surfaces == old(self).surfaces,
    {
        if let Err(e) = self.screen_path(h) {
            return Err(e);
        }
        let mut entry = self.paths.withdraw(h);
        let res = entry.line_to(p);
        self.paths.restore(h, entry);
        res
    }

    /// Appends a quadratic curve of the path: control point, end point. On
    /// an empty path an implicit `move_to` at the control point comes first.
    pub fn quad_to(&mut self, h: Handle, c: Point, p: Point) -> (r: Result<(), ApiError>)
        requires
            old(self).wf(),
        ensures
            final(self).wf(),
            !old(self).has_path(h) ==> r == Err::<(), ApiError>(ApiError::InvalidHandle) && *final(self) == *old(self),
            old(self).has_path(h) && old(self).path_at(h).state is Finished ==> r == Err::<
                (),
                ApiError,
            >(ApiError::UseAfterFinish) && *final(self) == *old(self),
            old(self).has_path(h) && old(self).path_at(h).state is Empty ==> r == Ok::<
                (),
                ApiError,
            >(()) && final(self).path_at(h).segs@ =~= old(self).path_at(h).segs@.push(
                Segment::MoveTo(c),
            ).push(Segment::QuadTo(c, p)),
            old(self).has_path(h) && old(self).path_at(h).state is Open ==> r == Ok::<(), ApiError>(
                (),
            ) && final(self).path_at(h).segs@ =~= old(self).path_at(h).segs@.push(
                Segment::QuadTo(c, p),
            ),
            old(self).has_path(h) && !(old(self).path_at(h).state is Finished) ==> final(self).has_path(h) && final(self).path_at(h).state is Open && final(self).paths.live()
                == old(self).paths.live() && final(self).same_paths_except(*old(self), h),
            final(self).surfaces == old(self).surfaces,
    {
        if let Err(e) = self.screen_path(h) {
            return Err(e);
        }
        let mut entry = self.paths.withdraw(h);
        let res = entry.quad_to(c, p);
        self.paths.restore(h, entry);
        res
    }

    /// Appends a cubic curve of the path: two control points, end point. On
    /// an empty path an implicit `move_to` at the first control point comes
    /// first.
    pub fn cubic_to(&mut self, h: Handle, c1: Point, c2: Point, p: Point) -> (r: Result<
        (),
        ApiError,
    >)
        requires
            old(self).wf(),
        ensures
            final(self).wf(),
            !old(self).has_path(h) ==> r == Err::<(), ApiError>(ApiError::InvalidHandle) && *final(self) == *old(self),
            old(self).has_path(h) && old(self).path_at(h).state is Finished ==> r == Err::<
                (),
                ApiError,
            >(ApiError::UseAfterFinish) && *final(self) == *old(self),
            old(self).has_path(h) && old(self).path_at(h).state is Empty ==> r == Ok::<
                (),
                ApiError,
            >(()) && final(self).path_at(h).segs@ =~= old(self).path_at(h).segs@.push(
                Segment::MoveTo(c1),
            ).push(Segment::CubicTo(c1, c2, p)),
            old(self).has_path(h) && old(self).path_at(h).state is Open ==> r == Ok::<(), ApiError>(
                (),
            ) && final(self).path_at(h).segs@ =~= old(self).path_at(h).segs@.push(
                Segment::CubicTo(c1, c2, p),
            ),
            old(self).has_path(h) && !(old(self).path_at(h).state is Finished) ==> final(self).has_path(h) && final(self).path_at(h).state is Open && final(self).paths.live()
                == old(self).paths.live() && final(self).same_paths_except(*old(self), h),
            final(self).surfaces == old(self).surfaces,
    {
        if let Err(e) = self.screen_path(h) {
            return Err(e);
        }
        let mut entry = self.paths.withdraw(h);
        let res = entry.cubic_to(c1, c2, p);
        self.paths.restore(h, entry);
        res
    }

    /// Closes the path's current subpath; on an empty path an accepted
    /// no-op.
    pub fn close(&mut self, h: Handle) -> (r: Result<(), ApiError>)
        requires
            old(self).wf(),
        ensures
            final(self).wf(),
            !old(self).has_path(h) ==> r == Err::<(), ApiError>(ApiError::InvalidHandle) && *final(self) == *old(self),
            old(self).has_path(h) && old(self).path_at(h).state is Finished ==> r == Err::<
                (),
                ApiError,
            >(ApiError::UseAfterFinish) && *final(self) == *old(self),
            old(self).has_path(h) && old(self).path_at(h).state is Empty ==> r == Ok::<
                (),
                ApiError,
            >(()) && final(self).path_at(h) == old(self).path_at(h),
            old(self).has_path(h) && old(self).path_at(h).state is Open ==> r == Ok::<(), ApiError>(
                (),
            ) && final(self).path_at(h).segs@ =~= old(self).path_at(h).segs@.push(Segment::Close)
                && final(self).path_at(h).state is Open,
            old(self).has_path(h) && !(old(self).path_at(h).state is Finished) ==> final(self).has_path(h) && final(self).paths.live() == old(self).paths.live() && final(self).same_paths_except(*old(self), h),
            final(self).surfaces == old(self).surfaces,
    {
        if let Err(e) = self.screen_path(h) {
            return Err(e);
        }
        let mut entry = self.paths.withdraw(h);
        let res = entry.close();
        self.paths.restore(h, entry);
        res
    }

    /// Appends a whole rectangle subpath of the path: origin, extent.
    pub fn rect(&mut self, h: Handle, o: Point, sz: Point) -> (r: Result<(), ApiError>)
        requires
            old(self).wf(),
        ensures
            final(self).wf(),
            !old(self).has_path(h) ==> r == Err::<(), ApiError>(ApiError::InvalidHandle) && *final(self) == *old(self),
            old(self).has_path(h) && old(self).path_at(h).state is Finished ==> r == Err::<
                (),
                ApiError,
            >(ApiError::UseAfterFinish) && *final(self) == *old(self),
            old(self).has_path(h) && !(old(self).path_at(h).state is Finished) ==> r == Ok::<
                (),
                ApiError,
            >(()) && final(self).has_path(h) && final(self).path_at(h).state is Open && final(self).path_at(h).segs@ =~= old(self).path_at(h).segs@.push(Segment::RectTo(o, sz)) && final(self).paths.live() == old(self).paths.live() && final(self).same_paths_except(
                *old(self),
                h,
            ),
            final(self).surfaces == old(self).surfaces,
    {
        if let Err(e) = self.screen_path(h) {
            return Err(e);
        }
        let mut entry = self.paths.withdraw(h);
        let res = entry.rect(o, sz);
        self.paths.restore(h, entry);
        res
    }

    /// Fills the path's interior on the surface under the fill rule,
    /// source-over. The call consumes the path: the builder is left
    /// `Finished`, and every later mutation or draw through its handle is a
    /// rejected no-op. The handle itself stays until its own destroy.
    pub fn fill_path(&mut self, s: Handle, p: Handle, color: Rgba, rule: FillRule) -> (r: Result<
        (),
        ApiError,
    >)
        requires
            old(self).wf(),
        ensures
            final(self).wf(),
            r is Ok <==> (old(self).has_surface(s) && old(self).has_path(p) && !(old(self).path_at(
                p,
            ).state is Finished)),
            !(old(self).has_surface(s) && old(self).has_path(p)) ==> r == Err::<(), ApiError>(
                ApiError::InvalidHandle,
            ) && *final(self) == *old(self),
            old(self).has_surface(s) && old(self).has_path(p) && old(self).path_at(p).state
                is Finished ==> r == Err::<(), ApiError>(ApiError::UseAfterFinish) && *final(self)
                == *old(self),
            r is Ok ==> final(self).has_surface(s) && final(self).surface_at(s).log@.len() == old(self).surface_at(s).log@.len() + 1 && final(self).surface_at(s).log@.drop_last() =~= old(self).surface_at(s).log@ && is_fill_path_cmd(
                final(self).surface_at(s).log@.last(),
                old(self).path_at(p).segs@,
                color,
                rule,
            ) && final(self).surface_at(s).width == old(self).surface_at(s).width && final(self).surface_at(s).height == old(self).surface_at(s).height && final(self).surface_at(
                s,
            ).replayed == old(self).surface_at(s).replayed && final(self).has_path(p) && final(self).path_at(p).state is Finished && final(self).surfaces.live() == old(self).surfaces.live() && final(self).paths.live() == old(self).paths.live() && final(self).same_surfaces_except(*old(self), s) && final(self).same_paths_except(*old(self), p),
    {
        if !self.surfaces.is_live(s) || !self.paths.is_live(p) {
            return Err(ApiError::InvalidHandle);
        }
        if let Err(e) = self.screen_path(p) {
            return Err(e);
        }
        let mut entry = self.paths.withdraw(p);
        let res = entry.consume();
        let segs = match res {
            Ok(v) => v,
            Err(_) => {
                self.paths.restore(p, entry);
                return Err(ApiError::UseAfterFinish);
            },
        };
        self.paths.restore(p, entry);
        self.record_cmd(s, DrawCmd::FillPath { segs, color, rule })
    }

    /// Strokes the path's outline on the surface with the style,
    /// source-over. Consumes the path exactly as `fill_path` does.
    pub fn stroke_path(&mut self, s: Handle, p: Handle, color: Rgba, style: StrokeStyle) -> (r:
        Result<(), ApiError>)
        requires
            old(self).wf(),
            style.width.raw >= 0,
        ensures
            final(self).wf(),
            r is Ok <==> (old(self).has_surface(s) && old(self).has_path(p) && !(old(self).path_at(
                p,
            ).state is Finished)),
            !(old(self).has_surface(s) && old(self).has_path(p)) ==> r == Err::<(), ApiError>(
                ApiError::InvalidHandle,
            ) && *final(self) == *old(self),
            old(self).has_surface(s) && old(self).has_path(p) && old(self).path_at(p).state
                is Finished ==> r == Err::<(), ApiError>(ApiError::UseAfterFinish) && *final(self)
                == *old(self),
            r is Ok ==> final(self).has_surface(s) && final(self).surface_at(s).log@.len() == old(self).surface_at(s).log@.len() + 1 && final(self).surface_at(s).log@.drop_last() =~= old(self).surface_at(s).log@ && is_stroke_path_cmd(
                final(self).surface_at(s).log@.last(),
                old(self).path_at(p).segs@,
                color,
                style,
            ) && final(self).surface_at(s).width == old(self).surface_at(s).width && final(self).surface_at(s).height == old(self).surface_at(s).height && final(self).surface_at(
                s,
            ).replayed == old(self).surface_at(s).replayed && final(self).has_path(p) && final(self).path_at(p).state is Finished && final(self).surfaces.live() == old(self).surfaces.live() && final(self).paths.live() == old(self).paths.live() && final(self).same_surfaces_except(*old(self), s) && final(self).same_paths_except(*old(self), p),
    {
        if !self.surfaces.is_live(s) || !self.paths.is_live(p) {
            return Err(ApiError::InvalidHandle);
        }
        if let Err(e) = self.screen_path(p) {
            return Err(e);
        }
        let mut entry = self.paths.withdraw(p);
        let res = entry.consume();
        let segs = match res {
            Ok(v) => v,
            Err(_) => {
                self.paths.restore(p, entry);
                return Err(ApiError::UseAfterFinish);
            },
        };
        self.paths.restore(p, entry);
        self.record_cmd(s, DrawCmd::StrokePath { segs, color, style })
    }
}

} // verus!
