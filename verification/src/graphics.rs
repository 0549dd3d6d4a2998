//! The drawing context and the two borrowing sessions through which draw
//! and fill calls are issued.
//!
//! A session pairs a drawing context exclusively with a pen or brush: while
//! it lives, the borrow checker rules out every other use of either object,
//! so a native handle can never be reached while mutably aliased. Sessions
//! own nothing and release nothing; the owning wrappers do.
//!
//! Each fallible operation takes the status its native call reported and
//! decides the outcome: status `0` succeeds and commits the session's
//! tracked state, any other status leaves the state exactly as it was and
//! returns the translated error.

use vstd::prelude::*;

use crate::brush::SolidBrush;
use crate::enums::SmoothingMode;
use crate::pen::Pen;
use crate::types::spec_error_of;
use crate::types::check_status;
use crate::types::Error;
use crate::types::Point;
use crate::types::RectF;

verus! {

/// Exclusive owner of a native drawing-surface handle, the root object of
/// all drawing. A value of this type exists only for a context the native
/// library reported as successfully created, and its handle stays non-null
/// for the value's whole lifetime.
pub struct Graphics {
    graphics: usize,
}

impl Graphics {
    /// The native handle this context owns.
    pub closed spec fn spec_handle(&self) -> usize {
        self.graphics
    }

    #[verifier::type_invariant]
    spec fn inv(&self) -> bool {
        self.graphics != 0
    }

    /// The raw native handle, for issuing the native calls that act on this context.
    pub fn graphics(&self) -> (h: usize)
        ensures
            h == self.spec_handle(),
            h != 0,
    {
        proof {
            use_type_invariant(self);
        }
        self.graphics
    }

    /// Takes ownership of the outcome of the native create-context-from-
    /// surface call: on status `0` the freshly created handle becomes an
    /// owned context, on any other status nothing is constructed and the
    /// translated error comes back. A successful native create hands over a
    /// non-null handle.
    pub fn from_hdc(status: u32, handle: usize) -> (r: Result<Graphics, Error>)
        requires
            status == 0 ==> handle != 0,
        ensures
            status == 0 ==> (r matches Ok(g) && g.spec_handle() == handle),
            status != 0 ==> (r matches Err(e) && e == spec_error_of(status)),
    {
        match check_status(status) {
            Ok(()) => Ok(Graphics { graphics: handle }),
            Err(e) => Err(e),
        }
    }

    /// Decides the outcome of the native set-smoothing-mode call that
    /// forwarded `mode` to this context: the mode is written through to
    /// native state, never cached here, so only the reported status matters.
    pub fn set_smoothing_mode(&mut self, mode: SmoothingMode, status: u32) -> (r: Result<
        &mut Self,
        Error,
    >)
        ensures
            status == 0 ==> (r matches Ok(g) && g.spec_handle() == old(self).spec_handle() && *final(self) == *final(g)),
            status != 0 ==> (r matches Err(e) && e == spec_error_of(status) && *final(self) == *old(self)),
    {
        let _ = mode;
        match check_status(status) {
            Ok(()) => Ok(self),
            Err(e) => Err(e),
        }
    }

    /// Opens a fill session, borrowing this context and the brush
    /// exclusively for the session's lifetime. Cannot fail.
    pub fn with_brush<'a>(&'a mut self, brush: &'a mut SolidBrush) -> (r: WithBrush<'a>)
        ensures
            r.spec_graphics_handle() == old(self).spec_handle(),
            r.spec_brush_handle() == old(brush).spec_handle(),
    {
        WithBrush::new(self, brush)
    }

    /// Opens a draw session, borrowing this context and the pen exclusively
    /// for the session's lifetime. Cannot fail.
    pub fn with_pen<'a>(&'a mut self, pen: &'a mut Pen) -> (r: WithPen<'a>)
        ensures
            r.spec_graphics_handle() == old(self).spec_handle(),
            r.spec_pen_handle() == old(pen).spec_handle(),
            r.spec_pos() == (0u32, 0u32),
    {
        WithPen::new(self, pen)
    }
}

/// A draw session: a drawing context paired exclusively with a pen, plus
/// the tracked current pen position. Holds its two borrows for its whole
/// lifetime, so nothing else can touch either object while it lives; it
/// owns neither handle and releases nothing.
pub struct WithPen<'a> {
    graphics: &'a mut Graphics,
    pen: &'a mut Pen,
    current_pos: Point,
}

impl<'a> WithPen<'a> {
    /// The session's tracked current pen position.
    pub closed spec fn spec_pos(&self) -> Point {
        self.current_pos
    }

    /// The handle of the borrowed drawing context.
    pub closed spec fn spec_graphics_handle(&self) -> usize {
        self.graphics.spec_handle()
    }

    /// The handle of the borrowed pen.
    pub closed spec fn spec_pen_handle(&self) -> usize {
        self.pen.spec_handle()
    }

    /// The borrowed pen itself, as handed to a `modify` capability.
    pub closed spec fn spec_pen(&self) -> &'a mut Pen {
        self.pen
    }

    /// Opens a session on the given context and pen; the current position
    /// starts at the origin.
    pub fn new(graphics: &'a mut Graphics, pen: &'a mut Pen) -> (r: WithPen<'a>)
        ensures
            r.spec_graphics_handle() == old(graphics).spec_handle(),
            r.spec_pen_handle() == old(pen).spec_handle(),
            r.spec_pos() == (0u32, 0u32),
    {
        WithPen { graphics, pen, current_pos: (0, 0) }
    }

    /// The session's tracked current pen position; reads nothing native.
    pub fn current_pos(&self) -> (p: Point)
        ensures
            p == self.spec_pos(),
    {
        self.current_pos
    }

    /// The handle of the borrowed drawing context, for issuing this
    /// session's native draw calls.
    pub fn graphics(&self) -> (h: usize)
        ensures
            h == self.spec_graphics_handle(),
    {
        self.graphics.graphics()
    }

    /// The handle of the borrowed pen, for issuing this session's native
    /// draw calls.
    pub fn pen(&self) -> (h: usize)
        ensures
            h == self.spec_pen_handle(),
    {
        self.pen.pen()
    }

    /// Applies a capability to the borrowed pen and propagates its failure;
    /// the session's context and position are untouched either way, and the
    /// result is exactly what the capability returned.
    pub fn modify<F: FnOnce(&mut Pen) -> Result<(), Error>>(&mut self, fn_: F) -> (r: Result<
        &mut Self,
        Error,
    >)
        requires
            forall|p: &mut Pen| *p == *old(self).spec_pen() ==> call_requires(fn_, (p,)),
        ensures
            r matches Ok(s) ==> s.spec_pos() == old(self).spec_pos()
                && s.spec_graphics_handle() == old(self).spec_graphics_handle() && *final(self)
                == *final(s) && exists|p: &mut Pen, res: Result<(), Error>|
                *p == *old(self).spec_pen() && #[trigger] call_ensures(fn_, (p,), res)
                    && res is Ok,
            r matches Err(e) ==> final(self).spec_pos() == old(self).spec_pos() && final(self).spec_graphics_handle() == old(self).spec_graphics_handle() && exists|p: &mut Pen|
                *p == *old(self).spec_pen() && #[trigger] call_ensures(
                    fn_,
                    (p,),
                    Result::<(), Error>::Err(e),
                ) && *final(p) == *final(self).spec_pen(),
    {
        match fn_(self.pen) {
            Ok(()) => Ok(self),
            Err(e) => Err(e),
        }
    }

    /// Rebinds the session to another pen; no native call, position kept.
    pub fn replace(&mut self, pen: &'a mut Pen) -> (r: &mut Self)
        ensures
            r.spec_pen_handle() == old(pen).spec_handle(),
            r.spec_pos() == old(self).spec_pos(),
            r.spec_graphics_handle() == old(self).spec_graphics_handle(),
            *final(self) == *final(r),
    {
        self.pen = pen;
        self
    }

    /// Sets the current position without drawing; cannot fail.
    pub fn move_to(&mut self, point: Point) -> (r: &mut Self)
        ensures
            r.spec_pos() == point,
            r.spec_graphics_handle() == old(self).spec_graphics_handle(),
            r.spec_pen_handle() == old(self).spec_pen_handle(),
            *final(self) == *final(r),
    {
        self.current_pos = point;
        self
    }

    /// Decides the outcome of the native draw-line call from the current
    /// position to `point`: on status `0` the current position moves to
    /// `point`, on any other status it is left exactly as it was and the
    /// translated error comes back.
    pub fn line_to(&mut self, point: Point, status: u32) -> (r: Result<&mut Self, Error>)
        ensures
            status == 0 ==> (r matches Ok(s) && s.spec_pos() == point && s.spec_graphics_handle()
                == old(self).spec_graphics_handle() && s.spec_pen_handle() == old(self).spec_pen_handle() && *final(self) == *final(s)),
            status != 0 ==> (r matches Err(e) && e == spec_error_of(status) && *final(self) == *old(self)),
    {
        match check_status(status) {
            Ok(()) => {
                self.current_pos = point;
                Ok(self)
            },
            Err(e) => Err(e),
        }
    }

    /// Decides the outcome of the native draw-line call between the two
    /// explicit points: the current position is neither read nor changed,
    /// whatever the outcome.
    pub fn draw_line(&mut self, from: Point, to: Point, status: u32) -> (r: Result<
        &mut Self,
        Error,
    >)
        ensures
            status == 0 ==> (r matches Ok(s) && s.spec_pos() == old(self).spec_pos()
                && s.spec_graphics_handle() == old(self).spec_graphics_handle()
                && s.spec_pen_handle() == old(self).spec_pen_handle() && *final(self) == *final(s)),
            status != 0 ==> (r matches Err(e) && e == spec_error_of(status) && *final(self) == *old(self)),
    {
        match check_status(status) {
            Ok(()) => Ok(self),
            Err(e) => Err(e),
        }
    }
}

/// A fill session: a drawing context paired exclusively with a brush.
/// Holds its two borrows for its whole lifetime, so nothing else can touch
/// either object while it lives; it owns neither handle and releases
/// nothing. Tracks no position.
pub struct WithBrush<'a> {
    graphics: &'a mut Graphics,
    brush: &'a mut SolidBrush,
}

impl<'a> WithBrush<'a> {
    /// The handle of the borrowed drawing context.
    pub closed spec fn spec_graphics_handle(&self) -> usize {
        self.graphics.spec_handle()
    }

    /// The handle of the borrowed brush.
    pub closed spec fn spec_brush_handle(&self) -> usize {
        self.brush.spec_handle()
    }

    /// The borrowed brush itself, as handed to a `modify` capability.
    pub closed spec fn spec_brush(&self) -> &'a mut SolidBrush {
        self.brush
    }

    /// Opens a session on the given context and brush.
    pub fn new(graphics: &'a mut Graphics, brush: &'a mut SolidBrush) -> (r: WithBrush<'a>)
        ensures
            r.spec_graphics_handle() == old(graphics).spec_handle(),
            r.spec_brush_handle() == old(brush).spec_handle(),
    {
        WithBrush { graphics, brush }
    }

    /// The handle of the borrowed drawing context, for issuing this
    /// session's native fill calls.
    pub fn graphics(&self) -> (h: usize)
        ensures
            h == self.spec_graphics_handle(),
    {
        self.graphics.graphics()
    }

    /// The handle of the borrowed brush, for issuing this session's native
    /// fill calls.
    pub fn brush(&self) -> (h: usize)
        ensures
            h == self.spec_brush_handle(),
    {
        self.brush.brush()
    }

    /// Applies a capability to the borrowed brush and propagates its
    /// failure; the session's context is untouched either way, and the
    /// result is exactly what the capability returned.
    pub fn modify<F: FnOnce(&mut SolidBrush) -> Result<(), Error>>(&mut self, fn_: F) -> (r: Result<
        &mut Self,
        Error,
    >)
        requires
            forall|b: &mut SolidBrush| *b == *old(self).spec_brush() ==> call_requires(fn_, (b,)),
        ensures
            r matches Ok(s) ==> s.spec_graphics_handle() == old(self).spec_graphics_handle()
                && *final(self) == *final(s) && exists|b: &mut SolidBrush, res: Result<(), Error>|
                *b == *old(self).spec_brush() && #[trigger] call_ensures(fn_, (b,), res)
                    && res is Ok,
            r matches Err(e) ==> final(self).spec_graphics_handle() == old(self).spec_graphics_handle() && exists|b: &mut SolidBrush|
                *b == *old(self).spec_brush() && #[trigger] call_ensures(
                    fn_,
                    (b,),
                    Result::<(), Error>::Err(e),
                ) && *final(b) == *final(self).spec_brush(),
    {
        match fn_(self.brush) {
            Ok(()) => Ok(self),
            Err(e) => Err(e),
        }
    }

    /// Rebinds the session to another brush; no native call.
    pub fn replace(&mut self, brush: &'a mut SolidBrush) -> (r: &mut Self)
        ensures
            r.spec_brush_handle() == old(brush).spec_handle(),
            r.spec_graphics_handle() == old(self).spec_graphics_handle(),
            *final(self) == *final(r),
    {
        self.brush = brush;
        self
    }

    /// Decides the outcome of the native fill-rectangle call for the
    /// axis-aligned rectangle with top-left `position` and the given width
    /// and height: success on status `0`, else the translated error. The
    /// session itself is untouched either way.
    pub fn fill_rectangle(&mut self, position: Point, width: u32, height: u32, status: u32) -> (r:
        Result<&mut Self, Error>)
        ensures
            status == 0 ==> (r matches Ok(s) && s.spec_graphics_handle() == old(self).spec_graphics_handle() && s.spec_brush_handle() == old(self).spec_brush_handle()
                && *final(self) == *final(s)),
            status != 0 ==> (r matches Err(e) && e == spec_error_of(status) && *final(self) == *old(self)),
    {
        match check_status(status) {
            Ok(()) => Ok(self),
            Err(e) => Err(e),
        }
    }

    /// Decides the outcome of the one native fill-rectangles call that was
    /// handed the whole batch `rects` (an empty batch included): success on
    /// status `0`, else the translated error, atomically for the batch —
    /// no partial-fill promise is added here beyond what the native call
    /// itself gives. The session itself is untouched either way.
    pub fn fill_rectangles(&mut self, rects: Vec<RectF>, status: u32) -> (r: Result<
        &mut Self,
        Error,
    >)
        ensures
            status == 0 ==> (r matches Ok(s) && s.spec_graphics_handle() == old(self).spec_graphics_handle() && s.spec_brush_handle() == old(self).spec_brush_handle()
                && *final(self) == *final(s)),
            status != 0 ==> (r matches Err(e) && e == spec_error_of(status) && *final(self) == *old(self)),
    {
        let _ = rects;
        match check_status(status) {
            Ok(()) => Ok(self),
            Err(e) => Err(e),
        }
    }
}

} // verus!

