use vstd::prelude::*;

use crate::drag::{Drag, DragOp};
use crate::mouse_position::MousePosition;

verus! {

/// Numerator of the zoom step: one wheel notch toward the user scales the
/// view by exactly 6/5 = 1.2.
pub const ZOOM_STEP_NUM: i128 = 6;

/// Denominator of the zoom step.
pub const ZOOM_STEP_DEN: i128 = 5;

/// Magnitude bound on the stored numerators and on the shared denominator.
/// A wheel event whose exact result would leave these bounds is ignored, so
/// the committed state always stays exact; the bound is 2^62, far beyond any
/// zoom level or pan offset a viewer reaches in practice.
pub const STATE_LIMIT: i128 = 4611686018427387904;

/// The direction of a wheel event: scrolling toward the user (a negative
/// vertical delta) zooms in, anything else zooms out.
#[derive(Clone, Copy, PartialEq, Eq, Structural, Debug)]
pub enum WheelDirection {
    ZoomIn,
    ZoomOut,
}

/// What the surrounding event loop must do after an input event: nothing,
/// redraw under the current effective transform, or resize the surface to
/// the viewport and then redraw.
#[derive(Clone, Copy, PartialEq, Eq, Structural, Debug)]
pub enum Action {
    NoRedraw,
    Redraw,
    ResizeAndRedraw,
}

/// An exact fraction `num / den`; well-formed when `den` is positive.
#[derive(Clone, Copy, PartialEq, Eq, Structural, Debug)]
pub struct Frac {
    pub num: i128,
    pub den: i128,
}

impl Frac {
    /// Well-formedness: the denominator is positive.
    pub open spec fn wf(self) -> bool {
        self.den > 0
    }
}

/// The affine transform a redraw applies: a uniform scale and a translation,
/// all three sharing one exact denominator.
#[derive(Clone, Copy, PartialEq, Eq, Structural, Debug)]
pub struct Transform {
    pub scale: Frac,
    pub tx: Frac,
    pub ty: Frac,
}

/// The buttons that start and end a drag, in the input source's button
/// numbering.
pub open spec fn accepted_button(button: i16) -> bool {
    button == 1 || button == 2
}

/// Numerator of the scale factor a wheel step applies: 6 zooming in, 5
/// zooming out.
pub open spec fn factor_num(dir: WheelDirection) -> int {
    if dir is ZoomIn {
        ZOOM_STEP_NUM as int
    } else {
        ZOOM_STEP_DEN as int
    }
}

/// Denominator of the scale factor a wheel step applies.
pub open spec fn factor_den(dir: WheelDirection) -> int {
    if dir is ZoomIn {
        ZOOM_STEP_DEN as int
    } else {
        ZOOM_STEP_NUM as int
    }
}

/// The wheel direction that undoes the given one.
pub open spec fn opposite(dir: WheelDirection) -> WheelDirection {
    if dir is ZoomIn {
        WheelDirection::ZoomOut
    } else {
        WheelDirection::ZoomIn
    }
}

/// The zoom numerator after a wheel step.
pub open spec fn zoomed_num(z: int, dir: WheelDirection) -> int {
    z * factor_num(dir)
}

/// The shared denominator after a wheel step.
pub open spec fn scaled_den(d: int, dir: WheelDirection) -> int {
    d * factor_den(dir)
}

/// The translation numerator after a wheel step anchored at cursor
/// coordinate `c`: with denominator `d`, the value `t/d` becomes
/// `(t/d - c) * f + c`, the standard zoom anchored at a point — translate
/// the anchor to the origin, scale, translate back.
pub open spec fn anchored_num(t: int, c: int, d: int, dir: WheelDirection) -> int {
    (t - c * d) * factor_num(dir) + c * d * factor_den(dir)
}

/// The translation numerator after committing a drag delta `dlt` (whole
/// surface pixels, so scaled by the denominator `d`); left unchanged in the
/// rare case the exact result would leave the stored bounds.
pub open spec fn committed_num(t: int, dlt: int, d: int) -> int {
    if -STATE_LIMIT <= t + dlt * d <= STATE_LIMIT {
        t + dlt * d
    } else {
        t
    }
}

/// Owns the committed view state and an in-progress drag, consumes pointer,
/// wheel, resize and reset events, and says when a redraw is due.
///
/// The committed translation is `(tx_num / den, ty_num / den)` in surface
/// pixels and the committed zoom is `zoom_num / den`; the three share the
/// denominator `den` because only wheel events, which rescale all three at
/// once, ever change it.  Every value is exact: the zoom factor 1.2 is
/// carried as 6/5.
pub struct Viewport {
    /// Numerator of the committed zoom factor.
    pub zoom_num: i128,
    /// Numerator of the committed horizontal pan offset.
    pub tx_num: i128,
    /// Numerator of the committed vertical pan offset.
    pub ty_num: i128,
    /// Shared positive denominator of the three values above.
    pub den: i128,
    /// The drag in progress, if any; its delta is added to the committed
    /// translation on every redraw and folded in when the drag ends.
    pub drag: Drag,
}

impl Viewport {
    /// The controller's invariant: the denominator is positive, the zoom is
    /// positive, every stored value is within `STATE_LIMIT`, and the drag
    /// tracker is well-formed.
    pub open spec fn wf(self) -> bool {
        &&& 1 <= self.zoom_num <= STATE_LIMIT
        &&& 1 <= self.den <= STATE_LIMIT
        &&& -STATE_LIMIT <= self.tx_num <= STATE_LIMIT
        &&& -STATE_LIMIT <= self.ty_num <= STATE_LIMIT
        &&& self.drag.wf()
    }

    /// The same view state with another drag tracker.
    pub open spec fn with_drag(self, drag: Drag) -> Viewport {
        Viewport {
            zoom_num: self.zoom_num,
            tx_num: self.tx_num,
            ty_num: self.ty_num,
            den: self.den,
            drag: drag,
        }
    }

    /// The state reset leads to: zoom 1, translation (0, 0), the drag in
    /// progress untouched.
    pub open spec fn reset_spec(self) -> Viewport {
        Viewport { zoom_num: 1, tx_num: 0, ty_num: 0, den: 1, drag: self.drag }
    }

    /// Whether the exact result of a wheel step stays within the stored
    /// bounds; when it does not, the event is ignored.
    pub open spec fn wheel_fits(self, dir: WheelDirection, cursor: MousePosition) -> bool {
        &&& zoomed_num(self.zoom_num as int, dir) <= STATE_LIMIT
        &&& scaled_den(self.den as int, dir) <= STATE_LIMIT
        &&& -STATE_LIMIT <= anchored_num(self.tx_num as int, cursor.x as int, self.den as int, dir)
            <= STATE_LIMIT
        &&& -STATE_LIMIT <= anchored_num(self.ty_num as int, cursor.y as int, self.den as int, dir)
            <= STATE_LIMIT
    }

    /// Decides the invariant at run time, for callers outside the verified
    /// world that must check it before handing a controller in.
    pub fn is_well_formed(&self) -> (b: bool)
        ensures
            b == self.wf(),
    {
        1 <= self.zoom_num && self.zoom_num <= STATE_LIMIT && 1 <= self.den && self.den
            <= STATE_LIMIT && -STATE_LIMIT <= self.tx_num && self.tx_num <= STATE_LIMIT
            && -STATE_LIMIT <= self.ty_num && self.ty_num <= STATE_LIMIT
            && self.drag.dragging == self.drag.start.is_some() && self.drag.dragging
            == self.drag.current.is_some()
    }

    /// Creates a controller in its initial state: zoom 1, translation
    /// (0, 0), no drag in progress.
    pub fn new() -> (v: Viewport)
        ensures
            v == (Viewport { zoom_num: 1, tx_num: 0, ty_num: 0, den: 1, drag: Drag::cleared() }),
            v.wf(),
    {
        Viewport { zoom_num: 1, tx_num: 0, ty_num: 0, den: 1, drag: Drag::new() }
    }

    /// Handles a pointer-down event: for an accepted button it (re)starts
    /// the drag at `position`; other buttons change nothing.  No redraw is
    /// due — nothing visible changes until the pointer moves.
    pub fn on_pointer_down(&mut self, button: i16, position: MousePosition) -> (action: Action)
        requires
            old(self).wf(),
        ensures
            final(self).wf(),
            accepted_button(button) ==> *final(self) == old(self).with_drag(
                old(self).drag.step(DragOp::Begin(position)),
            ),
            !accepted_button(button) ==> *final(self) == *old(self),
            action == Action::NoRedraw,
    {
        if button == 1 || button == 2 {
            self.drag.mouse_down(position);
        }
        Action::NoRedraw
    }

    /// Handles a pointer movement: updates the drag in progress and asks for
    /// a redraw under the new pending delta; without an active drag it is a
    /// no-op.
    pub fn on_pointer_move(&mut self, position: MousePosition) -> (action: Action)
        requires
            old(self).wf(),
        ensures
            final(self).wf(),
            *final(self) == old(self).with_drag(old(self).drag.step(DragOp::Move(position))),
            action == (if old(self).drag.dragging {
                Action::Redraw
            } else {
                Action::NoRedraw
            }),
    {
        let was_dragging = self.drag.dragging;
        self.drag.mouse_move(position);
        if was_dragging {
            Action::Redraw
        } else {
            Action::NoRedraw
        }
    }

    /// Handles a resize notification: the view state is untouched, but the
    /// surface must be resized to the viewport and immediately redrawn under
    /// the current effective transform, which a resize would otherwise
    /// discard.
    pub fn on_resize(&self) -> (action: Action)
        ensures
            action == Action::ResizeAndRedraw,
    {
        Action::ResizeAndRedraw
    }

    /// Handles the reset control: zoom back to 1 and translation to (0, 0)
    /// whatever the prior view state, leaving any drag in progress alone,
    /// then redraw.  (The reset translation is the origin, matching the
    /// initial state.)
    pub fn on_reset(&mut self) -> (action: Action)
        requires
            old(self).wf(),
        ensures
            final(self).wf(),
            *final(self) == old(self).reset_spec(),
            action == Action::Redraw,
    {
        self.zoom_num = 1;
        self.tx_num = 0;
        self.ty_num = 0;
        self.den = 1;
        Action::Redraw
    }

    /// Handles a pointer-up event: for an accepted button it ends the drag
    /// — as if the pointer had moved to `position` one last time — folds
    /// the drag's delta into the committed translation and asks for a
    /// redraw.  Other buttons change nothing.  Ending when no drag is
    /// active commits a zero delta.
    pub fn on_pointer_up(&mut self, button: i16, position: MousePosition) -> (action: Action)
        requires
            old(self).wf(),
        ensures
            final(self).wf(),
            !accepted_button(button) ==> *final(self) == *old(self) && action == Action::NoRedraw,
            accepted_button(button) ==> {
                &&& final(self).drag == Drag::cleared()
                &&& final(self).zoom_num == old(self).zoom_num
                &&& final(self).den == old(self).den
                &&& final(self).tx_num == committed_num(
                    old(self).tx_num as int,
                    old(self).drag.end_delta(position).0,
                    old(self).den as int,
                )
                &&& final(self).ty_num == committed_num(
                    old(self).ty_num as int,
                    old(self).drag.end_delta(position).1,
                    old(self).den as int,
                )
                &&& action == Action::Redraw
            },
    {
        if !(button == 1 || button == 2) {
            return Action::NoRedraw;
        }
        let delta = self.drag.mouse_up(position);
        proof {
            assert(-4294967296 <= delta.0 as int <= 4294967296);
            assert(-4294967296 <= delta.1 as int <= 4294967296);
            lemma_mul_bound(delta.0 as int, 4294967296, self.den as int, STATE_LIMIT as int);
            lemma_mul_bound(delta.1 as int, 4294967296, self.den as int, STATE_LIMIT as int);
        }
        let px: i128 = (delta.0 as i128) * self.den;
        let py: i128 = (delta.1 as i128) * self.den;
        let candidate_x: i128 = self.tx_num + px;
        let candidate_y: i128 = self.ty_num + py;
        if -STATE_LIMIT <= candidate_x && candidate_x <= STATE_LIMIT {
            self.tx_num = candidate_x;
        }
        if -STATE_LIMIT <= candidate_y && candidate_y <= STATE_LIMIT {
            self.ty_num = candidate_y;
        }
        Action::Redraw
    }

    /// Handles a wheel event at `cursor`.  While a drag is active the event
    /// is ignored — zoom and pan are mutually exclusive within one gesture.
    /// Otherwise the zoom gains a factor 6/5 (in) or 5/6 (out) and the
    /// translation is recomputed so the image point under the cursor stays
    /// put, then a redraw is due.  In the rare case the exact result would
    /// leave the stored bounds the event is ignored instead.
    pub fn on_wheel(&mut self, direction: WheelDirection, cursor: MousePosition) -> (action:
        Action)
        requires
            old(self).wf(),
        ensures
            final(self).wf(),
            old(self).drag.dragging ==> *final(self) == *old(self) && action == Action::NoRedraw,
            !old(self).drag.dragging && !old(self).wheel_fits(direction, cursor) ==> *final(self)
                == *old(self) && action == Action::NoRedraw,
            !old(self).drag.dragging && old(self).wheel_fits(direction, cursor) ==> {
                &&& final(self).zoom_num == zoomed_num(old(self).zoom_num as int, direction)
                &&& final(self).den == scaled_den(old(self).den as int, direction)
                &&& final(self).tx_num == anchored_num(
                    old(self).tx_num as int,
                    cursor.x as int,
                    old(self).den as int,
                    direction,
                )
                &&& final(self).ty_num == anchored_num(
                    old(self).ty_num as int,
                    cursor.y as int,
                    old(self).den as int,
                    direction,
                )
                &&& final(self).drag == old(self).drag
                &&& action == Action::Redraw
            },
    {
        if self.drag.dragging {
            return Action::NoRedraw;
        }
        let (fnum, fden): (i128, i128) = match direction {
            WheelDirection::ZoomIn => (ZOOM_STEP_NUM, ZOOM_STEP_DEN),
            WheelDirection::ZoomOut => (ZOOM_STEP_DEN, ZOOM_STEP_NUM),
        };
        proof {
            lemma_mul_bound(cursor.x as int, 2147483648, self.den as int, STATE_LIMIT as int);
            lemma_mul_bound(cursor.y as int, 2147483648, self.den as int, STATE_LIMIT as int);
            lemma_mul_bound(self.zoom_num as int, STATE_LIMIT as int, fnum as int, 6);
            lemma_mul_bound(self.den as int, STATE_LIMIT as int, fden as int, 6);
        }
        let cdx: i128 = (cursor.x as i128) * self.den;
        let cdy: i128 = (cursor.y as i128) * self.den;
        let new_zoom: i128 = self.zoom_num * fnum;
        let new_den: i128 = self.den * fden;
        proof {
            lemma_mul_bound(
                self.tx_num - cdx,
                19807040628566084398385987584,
                fnum as int,
                6,
            );
            lemma_mul_bound(
                self.ty_num - cdy,
                19807040628566084398385987584,
                fnum as int,
                6,
            );
            lemma_mul_bound(cdx as int, 9903520314283042199192993792, fden as int, 6);
            lemma_mul_bound(cdy as int, 9903520314283042199192993792, fden as int, 6);
        }
        let new_tx: i128 = (self.tx_num - cdx) * fnum + cdx * fden;
        let new_ty: i128 = (self.ty_num - cdy) * fnum + cdy * fden;
        if new_zoom <= STATE_LIMIT && new_den <= STATE_LIMIT && -STATE_LIMIT <= new_tx && new_tx
            <= STATE_LIMIT && -STATE_LIMIT <= new_ty && new_ty <= STATE_LIMIT {
            proof {
                assert(new_zoom >= 1 && new_den >= 1) by (nonlinear_arith)
                    requires
                        self.zoom_num >= 1,
                        self.den >= 1,
                        fnum >= 1,
                        fden >= 1,
                        new_zoom == self.zoom_num * fnum,
                        new_den == self.den * fden,
                ;
            }
            self.zoom_num = new_zoom;
            self.den = new_den;
            self.tx_num = new_tx;
            self.ty_num = new_ty;
            Action::Redraw
        } else {
            Action::NoRedraw
        }
    }

    /// The transform a redraw must apply, set fresh each time: the committed
    /// zoom as the uniform scale, and the committed translation plus the
    /// pending drag delta.  The drag delta is in whole surface pixels —
    /// dragging always pans pixel for pixel, whatever the zoom — so it is
    /// scaled by the shared denominator before being added.
    pub fn effective_transform(&self) -> (t: Transform)
        requires
            self.wf(),
        ensures
            t.scale == (Frac { num: self.zoom_num, den: self.den }),
            t.tx.num == self.tx_num + self.drag.pending_delta_spec().0 * self.den,
            t.ty.num == self.ty_num + self.drag.pending_delta_spec().1 * self.den,
            t.tx.den == self.den,
            t.ty.den == self.den,
            t.scale.wf() && t.tx.wf() && t.ty.wf(),
    {
        let delta = self.drag.get_translation();
        proof {
            assert(-4294967296 <= delta.0 as int <= 4294967296);
            assert(-4294967296 <= delta.1 as int <= 4294967296);
            lemma_mul_bound(delta.0 as int, 4294967296, self.den as int, STATE_LIMIT as int);
            lemma_mul_bound(delta.1 as int, 4294967296, self.den as int, STATE_LIMIT as int);
        }
        let px: i128 = (delta.0 as i128) * self.den;
        let py: i128 = (delta.1 as i128) * self.den;
        Transform {
            scale: Frac { num: self.zoom_num, den: self.den },
            tx: Frac { num: self.tx_num + px, den: self.den },
            ty: Frac { num: self.ty_num + py, den: self.den },
        }
    }
}

/// Law: an anchored wheel step keeps the cursor's image point at the
/// cursor.  `wn / wd` is an image coordinate whose screen position under
/// zoom `z / d` and translation `t / d` is the cursor coordinate `c` — the
/// hypothesis states `(z / d) * (wn / wd) + t / d == c` with denominators
/// cleared — and after the step the screen position is still `c`.
pub proof fn lemma_wheel_keeps_cursor_point(
    z: int,
    t: int,
    d: int,
    c: int,
    wn: int,
    wd: int,
    dir: WheelDirection,
)
    requires
        z * wn + t * wd == c * d * wd,
    ensures
        zoomed_num(z, dir) * wn + anchored_num(t, c, d, dir) * wd == c * scaled_den(d, dir) * wd,
{
    lemma_anchor_identity(z, t, d, c, wn, wd, factor_num(dir), factor_den(dir));
}

/// The ring identity behind the anchored step, for any scale factor
/// `fnum / fden`.
#[verifier::rlimit(100)]
proof fn lemma_anchor_identity(
    z: int,
    t: int,
    d: int,
    c: int,
    wn: int,
    wd: int,
    fnum: int,
    fden: int,
) by (nonlinear_arith)
    requires
        z * wn + t * wd == c * d * wd,
    ensures
        (z * fnum) * wn + ((t - c * d) * fnum + c * d * fden) * wd == c * (d * fden) * wd,
{
}

/// Law over the controller: an image point `(wxn / wd, wyn / wd)` that sits
/// exactly under the cursor keeps its screen position across a wheel step
/// in either direction — zooming never slides the pixel under the pointer.
pub proof fn lemma_wheel_anchors_cursor(
    v: Viewport,
    cursor: MousePosition,
    dir: WheelDirection,
    wxn: int,
    wyn: int,
    wd: int,
)
    requires
        v.zoom_num * wxn + v.tx_num * wd == cursor.x * v.den * wd,
        v.zoom_num * wyn + v.ty_num * wd == cursor.y * v.den * wd,
    ensures
        zoomed_num(v.zoom_num as int, dir) * wxn + anchored_num(
            v.tx_num as int,
            cursor.x as int,
            v.den as int,
            dir,
        ) * wd == cursor.x * scaled_den(v.den as int, dir) * wd,
        zoomed_num(v.zoom_num as int, dir) * wyn + anchored_num(
            v.ty_num as int,
            cursor.y as int,
            v.den as int,
            dir,
        ) * wd == cursor.y * scaled_den(v.den as int, dir) * wd,
{
    lemma_wheel_keeps_cursor_point(
        v.zoom_num as int,
        v.tx_num as int,
        v.den as int,
        cursor.x as int,
        wxn,
        wd,
        dir,
    );
    lemma_wheel_keeps_cursor_point(
        v.zoom_num as int,
        v.ty_num as int,
        v.den as int,
        cursor.y as int,
        wyn,
        wd,
        dir,
    );
}

/// Law: a wheel step leaves the translation value unchanged exactly when
/// the translation already equals the cursor coordinate (`t / d == c`) —
/// the step's scale factor is 6/5 or 5/6, never 1, so anchoring moves every
/// other translation.
pub proof fn lemma_wheel_moves_translation(t: int, c: int, d: int, dir: WheelDirection)
    requires
        d != 0,
    ensures
        (anchored_num(t, c, d, dir) * d == t * scaled_den(d, dir)) <==> t == c * d,
{
    lemma_moves_identity(t, c, d, factor_num(dir), factor_den(dir));
}

/// The equivalence behind `lemma_wheel_moves_translation`, for any scale
/// factor whose numerator and denominator differ by one.
proof fn lemma_moves_identity(t: int, c: int, d: int, fnum: int, fden: int) by (nonlinear_arith)
    requires
        d != 0,
        fnum - fden == 1 || fnum - fden == -1,
    ensures
        (((t - c * d) * fnum + c * d * fden) * d == t * (d * fden)) <==> t == c * d,
{
}

/// Law: a wheel step followed by one in the opposite direction at the same
/// cursor restores both the zoom and the translation to their original
/// exact values: the fractions agree after cross-multiplying (the stored
/// denominator has grown by the factor 6 * 5 = 30 on both sides).
pub proof fn lemma_opposite_wheels_cancel(t: int, z: int, d: int, c: int, dir: WheelDirection)
    ensures
        zoomed_num(zoomed_num(z, dir), opposite(dir)) * d == z * scaled_den(
            scaled_den(d, dir),
            opposite(dir),
        ),
        anchored_num(anchored_num(t, c, d, dir), c, scaled_den(d, dir), opposite(dir)) * d == t
            * scaled_den(scaled_den(d, dir), opposite(dir)),
{
    let fnum: int = factor_num(dir);
    let fden: int = factor_den(dir);
    assert(factor_num(opposite(dir)) == fden && factor_den(opposite(dir)) == fnum);
    assert(zoomed_num(zoomed_num(z, dir), opposite(dir)) == (z * fnum) * fden);
    assert(scaled_den(scaled_den(d, dir), opposite(dir)) == (d * fden) * fnum);
    assert(anchored_num(anchored_num(t, c, d, dir), c, scaled_den(d, dir), opposite(dir)) == ((t
        - c * d) * fnum + c * d * fden - c * (d * fden)) * fden + c * (d * fden) * fnum);
    lemma_cancel_identity(t, z, d, c, fnum, fden);
}

/// The ring identities behind the cancellation: one step with factor
/// `fnum / fden` and one with the reciprocal multiply both the numerators
/// and the denominator by `fnum * fden`.
proof fn lemma_cancel_identity(t: int, z: int, d: int, c: int, fnum: int, fden: int) by (
    nonlinear_arith
)
    ensures
        ((z * fnum) * fden) * d == z * ((d * fden) * fnum),
        (((t - c * d) * fnum + c * d * fden - c * (d * fden)) * fden + c * (d * fden) * fnum) * d
            == t * ((d * fden) * fnum),
{
}

/// Law over the controller: applying a wheel step and then its opposite at
/// the same cursor returns the zoom and both translation components to
/// their original exact values.
pub proof fn lemma_wheel_round_trip(v: Viewport, cursor: MousePosition, dir: WheelDirection)
    ensures
        zoomed_num(zoomed_num(v.zoom_num as int, dir), opposite(dir)) * v.den == v.zoom_num
            * scaled_den(scaled_den(v.den as int, dir), opposite(dir)),
        anchored_num(
            anchored_num(v.tx_num as int, cursor.x as int, v.den as int, dir),
            cursor.x as int,
            scaled_den(v.den as int, dir),
            opposite(dir),
        ) * v.den == v.tx_num * scaled_den(scaled_den(v.den as int, dir), opposite(dir)),
        anchored_num(
            anchored_num(v.ty_num as int, cursor.y as int, v.den as int, dir),
            cursor.y as int,
            scaled_den(v.den as int, dir),
            opposite(dir),
        ) * v.den == v.ty_num * scaled_den(scaled_den(v.den as int, dir), opposite(dir)),
{
    lemma_opposite_wheels_cancel(v.tx_num as int, v.zoom_num as int, v.den as int, cursor.x as int, dir);
    lemma_opposite_wheels_cancel(v.ty_num as int, v.zoom_num as int, v.den as int, cursor.y as int, dir);
}

/// Law: reset is idempotent — resetting an already-reset controller
/// changes nothing, whatever state it started from.
pub proof fn lemma_reset_idempotent(v: Viewport)
    ensures
        v.reset_spec().reset_spec() == v.reset_spec(),
{
}

/// The product of a value bounded in magnitude and a nonnegative bounded
/// value is bounded by the product of the bounds.
proof fn lemma_mul_bound(a: int, am: int, b: int, bm: int) by (nonlinear_arith)
    requires
        -am <= a <= am,
        0 <= b <= bm,
    ensures
        -(am * bm) <= a * b <= am * bm,
{
}

} // verus!
