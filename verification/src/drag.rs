use vstd::prelude::*;

use crate::mouse_position::MousePosition;

verus! {

/// One pointer operation as the drag tracker sees it: a drag starting, the
/// pointer moving, a drag ending.
#[derive(Clone, Copy, PartialEq, Eq, Structural, Debug)]
pub enum DragOp {
    Begin(MousePosition),
    Move(MousePosition),
    End(MousePosition),
}

/// Tracks a single in-progress pointer drag: the position where the drag
/// started and the most recent position seen since.  The pending translation
/// delta is the vector from the first to the second; it is committed
/// elsewhere when the drag ends and never persisted here.
pub struct Drag {
    /// Whether a drag is currently in progress.
    pub dragging: bool,
    /// Pointer position at drag start; present exactly while dragging.
    pub start: Option<MousePosition>,
    /// Most recent pointer position; present exactly while dragging.
    pub current: Option<MousePosition>,
}

impl Drag {
    /// The tracker's invariant: the start and current positions are present
    /// exactly when a drag is active.
    pub open spec fn wf(self) -> bool {
        &&& self.dragging == (self.start is Some)
        &&& self.dragging == (self.current is Some)
    }

    /// The state with no drag in progress: both positions absent.
    pub open spec fn cleared() -> Drag {
        Drag { dragging: false, start: None, current: None }
    }

    /// The pending translation delta: the vector from the drag's start to its
    /// most recent position while a drag is active, zero otherwise.
    pub open spec fn pending_delta_spec(self) -> (int, int) {
        match (self.current, self.start) {
            (Some(current), Some(start)) => {
                if self.dragging {
                    (current.x - start.x, current.y - start.y)
                } else {
                    (0int, 0int)
                }
            },
            _ => (0int, 0int),
        }
    }

    /// How one pointer operation changes the tracker: `Begin` (re)starts the
    /// drag at the given anchor, `Move` updates the current position of an
    /// active drag and does nothing otherwise, `End` clears all state.
    pub open spec fn step(self, op: DragOp) -> Drag {
        match op {
            DragOp::Begin(p) => Drag { dragging: true, start: Some(p), current: Some(p) },
            DragOp::Move(p) => {
                if self.dragging {
                    Drag { dragging: self.dragging, start: self.start, current: Some(p) }
                } else {
                    self
                }
            },
            DragOp::End(_) => Drag::cleared(),
        }
    }

    /// The tracker after a whole sequence of pointer operations.
    pub open spec fn run(self, ops: Seq<DragOp>) -> Drag
        decreases ops.len(),
    {
        if ops.len() == 0 {
            self
        } else {
            self.step(ops[0]).run(ops.drop_first())
        }
    }

    /// The delta a drag ending at `p` yields: the pending delta after one
    /// last move to `p`.
    pub open spec fn end_delta(self, p: MousePosition) -> (int, int) {
        self.step(DragOp::Move(p)).pending_delta_spec()
    }

    /// Creates a tracker with no drag in progress.
    pub fn new() -> (d: Drag)
        ensures
            d == Drag::cleared(),
            d.wf(),
    {
        Drag { dragging: false, start: None, current: None }
    }

    /// Starts a drag at `position`; if one is already active it restarts from
    /// the new anchor.
    pub fn mouse_down(&mut self, position: MousePosition)
        ensures
            *final(self) == old(self).step(DragOp::Begin(position)),
            final(self).wf(),
    {
        self.dragging = true;
        self.start = Some(position);
        self.current = Some(position);
    }

    /// Records a pointer movement: updates the current position while a drag
    /// is active, does nothing otherwise.
    pub fn mouse_move(&mut self, position: MousePosition)
        requires
            old(self).wf(),
        ensures
            *final(self) == old(self).step(DragOp::Move(position)),
            final(self).wf(),
    {
        if self.dragging {
            self.current = Some(position);
        }
    }

    /// Ends the drag at `position` and returns the delta it accumulated — as
    /// if the pointer had moved to `position` one last time — then clears all
    /// state.  Safe when no drag is active: returns `(0, 0)` and stays
    /// cleared.
    pub fn mouse_up(&mut self, position: MousePosition) -> (delta: (i64, i64))
        requires
            old(self).wf(),
        ensures
            *final(self) == old(self).step(DragOp::End(position)),
            final(self).wf(),
            (delta.0 as int, delta.1 as int) == old(self).end_delta(position),
    {
        self.mouse_move(position);
        let delta = self.get_translation();
        self.dragging = false;
        self.start = None;
        self.current = None;
        delta
    }

    /// The pending translation delta of the drag in progress, `(0, 0)` when
    /// none is.  Pure; reading it any number of times changes nothing.
    pub fn get_translation(&self) -> (delta: (i64, i64))
        requires
            self.wf(),
        ensures
            (delta.0 as int, delta.1 as int) == self.pending_delta_spec(),
    {
        match (self.current, self.start) {
            (Some(current), Some(start)) => {
                (current.x as i64 - start.x as i64, current.y as i64 - start.y as i64)
            },
            _ => (0i64, 0i64),
        }
    }
}

/// Law: whenever no drag is active the pending delta is zero.  Together with
/// the laws below this covers any operation sequence: the tracker reports a
/// zero delta before a drag begins and again after one ends.
pub proof fn lemma_inactive_pending_delta_zero(d: Drag)
    requires
        !d.dragging,
    ensures
        d.pending_delta_spec() == (0int, 0int),
{
}

/// Law: ending a drag clears the tracker, so immediately after any `end` the
/// pending delta is zero — whatever state the tracker was in before.
pub proof fn lemma_pending_delta_zero_after_end(d: Drag, p: MousePosition)
    ensures
        d.step(DragOp::End(p)).pending_delta_spec() == (0int, 0int),
{
}

/// Law: a cleared tracker run through any operation sequence that contains no
/// `begin` stays inactive, with a zero pending delta throughout; in
/// particular the delta is zero before the first `begin` of any sequence.
pub proof fn lemma_pending_delta_zero_before_begin(d: Drag, ops: Seq<DragOp>)
    requires
        !d.dragging,
        d.wf(),
        forall|i: int| 0 <= i < ops.len() ==> !(ops[i] is Begin),
    ensures
        !d.run(ops).dragging,
        d.run(ops).pending_delta_spec() == (0int, 0int),
    decreases ops.len(),
{
    if ops.len() > 0 {
        let d1 = d.step(ops[0]);
        assert(!d1.dragging && d1.wf());
        assert(forall|i: int|
            0 <= i < ops.drop_first().len() ==> !(#[trigger] ops.drop_first()[i] is Begin)) by {
            assert(forall|i: int|
                0 <= i < ops.drop_first().len() ==> ops.drop_first()[i] == ops[i + 1]);
        }
        lemma_pending_delta_zero_before_begin(d1, ops.drop_first());
    }
}

/// Law: ending at `p` a drag begun at `a`, with no move in between, yields
/// exactly the delta `(p.x - a.x, p.y - a.y)`.
pub proof fn lemma_end_after_begin_delta(d: Drag, a: MousePosition, p: MousePosition)
    ensures
        d.step(DragOp::Begin(a)).end_delta(p) == (p.x - a.x, p.y - a.y),
{
}

} // verus!
