//! Symbolic scalars: an arithmetic tape the rendering host evaluates.
//!
//! The tessellator never performs real-number arithmetic itself. Every scalar
//! it needs is one entry of a [`Tape`]: either a literal handed in by the
//! caller, a small constant, or an operation over earlier entries. The host
//! walks the tape once, in order, carrying out each operation with its native
//! single-precision arithmetic, and so obtains one concrete value per entry.
//! A [`ScalarId`] is the position of an entry; shapes refer to their
//! coordinates by id.

use vstd::prelude::*;

verus! {

/// An opaque scalar literal: the bit pattern of the host's single-precision
/// value. The library never inspects the bits; it only carries them.
#[derive(Debug, Clone, Copy, PartialEq, Eq, Structural)]
pub struct Scalar {
    pub bits: u32,
}

/// The position of one entry on a [`Tape`].
#[derive(Debug, Clone, Copy, PartialEq, Eq, Structural)]
pub struct ScalarId {
    pub index: usize,
}

/// One deferred operation. Operands always point at earlier tape entries.
#[derive(Debug, Clone, Copy, PartialEq, Eq, Structural)]
pub enum ScalarOp {
    /// A literal supplied by the caller.
    Lit(Scalar),
    /// A small nonnegative integer constant.
    OfInt(usize),
    /// The half-turn circle constant.
    Pi,
    Add(ScalarId, ScalarId),
    Sub(ScalarId, ScalarId),
    Mul(ScalarId, ScalarId),
    Div(ScalarId, ScalarId),
    Cos(ScalarId),
    Sin(ScalarId),
    /// `Atan2(y, x)`: the direction angle of the vector `(x, y)`.
    Atan2(ScalarId, ScalarId),
}

/// An operation may only refer to entries strictly before `bound`.
pub open spec fn op_wf(op: ScalarOp, bound: int) -> bool {
    match op {
        ScalarOp::Lit(_) => true,
        ScalarOp::OfInt(_) => true,
        ScalarOp::Pi => true,
        ScalarOp::Add(a, b) => a.index < bound && b.index < bound,
        ScalarOp::Sub(a, b) => a.index < bound && b.index < bound,
        ScalarOp::Mul(a, b) => a.index < bound && b.index < bound,
        ScalarOp::Div(a, b) => a.index < bound && b.index < bound,
        ScalarOp::Cos(a) => a.index < bound,
        ScalarOp::Sin(a) => a.index < bound,
        ScalarOp::Atan2(a, b) => a.index < bound && b.index < bound,
    }
}

/// The ordered list of deferred scalar operations of one canvas.
pub struct Tape {
    pub ops: Vec<ScalarOp>,
}

impl Tape {
    /// Every entry refers only to entries before it, so one forward pass
    /// evaluates the whole tape.
    pub open spec fn wf(self) -> bool {
        forall|i: int| 0 <= i < self.ops@.len() ==> op_wf(#[trigger] self.ops@[i], i)
    }

    /// `id` names an entry of this tape.
    pub open spec fn holds(self, id: ScalarId) -> bool {
        id.index < self.ops@.len()
    }

    pub open spec fn len(self) -> int {
        self.ops@.len() as int
    }

    pub fn new() -> (t: Tape)
        ensures
            t.ops@ == Seq::<ScalarOp>::empty(),
            t.wf(),
    {
        Tape { ops: Vec::new() }
    }

    /// Append one operation and return its position.
    pub fn push_op(&mut self, op: ScalarOp) -> (id: ScalarId)
        requires
            old(self).wf(),
            op_wf(op, old(self).ops@.len() as int),
        ensures
            final(self).ops@ == old(self).ops@.push(op),
            id.index == old(self).ops@.len(),
            final(self).wf(),
            final(self).holds(id),
    {
        let id = ScalarId { index: self.ops.len() };
        self.ops.push(op);
        proof {
            assert forall|i: int| 0 <= i < self.ops@.len() implies op_wf(
                #[trigger] self.ops@[i],
                i,
            ) by {
                if i < old(self).ops@.len() {
                    assert(self.ops@[i] == old(self).ops@[i]);
                }
            }
        }
        id
    }

    pub fn push_lit(&mut self, s: Scalar) -> (id: ScalarId)
        requires
            old(self).wf(),
        ensures
            final(self).ops@ == old(self).ops@.push(ScalarOp::Lit(s)),
            id.index == old(self).ops@.len(),
            final(self).wf(),
            final(self).holds(id),
    {
        self.push_op(ScalarOp::Lit(s))
    }

    pub fn push_int(&mut self, n: usize) -> (id: ScalarId)
        requires
            old(self).wf(),
        ensures
            final(self).ops@ == old(self).ops@.push(ScalarOp::OfInt(n)),
            id.index == old(self).ops@.len(),
            final(self).wf(),
            final(self).holds(id),
    {
        self.push_op(ScalarOp::OfInt(n))
    }

    /// The ops of this tape, for the host's evaluation pass.
    pub fn entries(&self) -> (r: &Vec<ScalarOp>)
        ensures
            r@ == self.ops@,
    {
        &self.ops
    }
}

} // verus!
