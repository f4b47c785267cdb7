//! The canvas: the single writing surface the widgets paint on.
//!
//! Painting is modelled explicitly. A [`Canvas`] holds the queue of pending
//! paint operations in the order they were issued; widget contracts state
//! exactly which operations a call appends. A front end that owns the real
//! terminal drains the queue with [`Canvas::take_ops`] and emits each
//! operation as one cell write, then flushes once — the queue-then-flush-once
//! batching the widgets rely on.

use vstd::prelude::*;

verus! {

/// One cell write: paint `sym` at screen column `x`, row `y` (both 0-based).
#[derive(Clone, Copy, Debug, PartialEq, Eq, Structural)]
pub struct PaintOp {
    pub x: usize,
    pub y: usize,
    pub sym: char,
}

/// An in-memory queue of paint operations, in issue order.
pub struct Canvas {
    ops: Vec<PaintOp>,
}

impl View for Canvas {
    type V = Seq<PaintOp>;

    closed spec fn view(&self) -> Seq<PaintOp> {
        self.ops@
    }
}

impl Canvas {
    /// A canvas with no pending operations.
    pub fn new() -> (r: Canvas)
        ensures
            r@ == Seq::<PaintOp>::empty(),
    {
        Canvas { ops: Vec::new() }
    }

    /// Queue one cell write.
    pub fn paint_cell(&mut self, x: usize, y: usize, sym: char)
        ensures
            final(self)@ == old(self)@.push(PaintOp { x, y, sym }),
    {
        self.ops.push(PaintOp { x, y, sym });
    }

    /// The number of pending operations.
    pub fn len(&self) -> (r: usize)
        ensures
            r == self@.len(),
    {
        self.ops.len()
    }

    /// Hand out the pending operations in issue order and leave the queue
    /// empty; the caller emits them and flushes once.
    pub fn take_ops(&mut self) -> (r: Vec<PaintOp>)
        ensures
            r@ == old(self)@,
            final(self)@ == Seq::<PaintOp>::empty(),
    {
        let mut taken: Vec<PaintOp> = Vec::new();
        core::mem::swap(&mut taken, &mut self.ops);
        taken
    }
}

} // verus!
