//! A single-threaded, manually reference-counted shared allocation.

use vstd::prelude::*;
use crate::cell::Cell;

verus! {

/// The shared allocation block of the counted pointer: one value together
/// with the count of live handles that reference it. The count lives in a
/// [`Cell`], the small piece of state every operation on the block reads
/// and overwrites; with all updates routed through the block itself, the
/// non-atomic read-modify-write on the count is trivially free of
/// interleaving.
pub struct Rc<T> {
    value: T,
    refcount: Cell<usize>,
}

/// One live claim on a shared allocation. Handles carry no data of their
/// own; they exist so that every increment of the reference count has a
/// value whose destruction accounts for the matching decrement. A handle
/// cannot be constructed outside this module.
pub struct Handle {
    _private: (),
}

/// What becomes of the allocation when a handle is released: either the
/// block survives with its count decremented, or this was the last claim and
/// the block is deallocated, surrendering the stored value.
pub enum ReleaseResult<T> {
    Retained(Rc<T>),
    Freed(T),
}

impl<T> Rc<T> {
    /// The stored value.
    pub closed spec fn stored(&self) -> T {
        self.value
    }

    /// The number of live handles referencing this block.
    pub closed spec fn count(&self) -> usize {
        self.refcount@
    }

    /// The block exists only while at least one handle references it.
    pub open spec fn wf(&self) -> bool {
        self.count() >= 1
    }

    /// Allocates a block holding `value` with a reference count of one, and
    /// returns it together with the first handle.
    pub fn new(value: T) -> (r: (Rc<T>, Handle))
        ensures
            r.0.wf(),
            r.0.stored() == value,
            r.0.count() == 1,
    {
        let block = Rc { value, refcount: Cell::new(1) };
        (block, Handle { _private: () })
    }

    /// Mints a new handle to the same allocation: reads the current count,
    /// increments it by one and writes it back. No copy of the value is made.
    pub fn clone_handle(&mut self) -> (h: Handle)
        requires
            old(self).wf(),
            old(self).count() < usize::MAX,
        ensures
            final(self).wf(),
            final(self).stored() == old(self).stored(),
            final(self).count() == old(self).count() + 1,
    {
        let count = self.refcount.get();
        self.refcount.set(count + 1);
        Handle { _private: () }
    }

    /// The current reference count: how many live handles reference this
    /// block.
    pub fn strong_count(&self) -> (n: usize)
        ensures
            n == self.count(),
    {
        self.refcount.get()
    }

    /// Read-only access to the stored value; no mutable access to it is ever
    /// exposed through this component.
    pub fn value(&self) -> (v: &T)
        ensures
            *v == self.stored(),
    {
        &self.value
    }

    /// Releases one handle: if it was the last claim the block is freed and
    /// the stored value surrendered; otherwise the count is decremented and
    /// the block survives unchanged. Deallocation therefore happens exactly
    /// once, on the release that finds the count at one.
    pub fn release(self, handle: Handle) -> (r: ReleaseResult<T>)
        requires
            self.wf(),
        ensures
            self.count() == 1 ==> (r matches ReleaseResult::Freed(v) && v == self.stored()),
            self.count() > 1 ==> (r matches ReleaseResult::Retained(b)
                && b.wf()
                && b.stored() == self.stored()
                && b.count() == self.count() - 1),
    {
        let Rc { value, refcount } = self;
        let count = refcount.get();
        if count == 1 {
            ReleaseResult::Freed(value)
        } else {
            let mut refcount = refcount;
            refcount.set(count - 1);
            ReleaseResult::Retained(Rc { value, refcount })
        }
    }
}

/// The two things that happen to an allocation's handles over its life: a
/// new handle is minted from an existing one, or a live handle is released.
pub enum RcOp {
    MintHandle,
    ReleaseHandle,
}

/// When an operation is possible: both presuppose a live handle, so a count
/// of at least one (a count of zero means the block is already gone), and a
/// mint needs headroom in the counter.
pub open spec fn rc_op_enabled(count: nat, op: RcOp) -> bool {
    match op {
        RcOp::MintHandle => 1 <= count < usize::MAX,
        RcOp::ReleaseHandle => count >= 1,
    }
}

/// The count after one operation. A release that reaches zero is the
/// deallocation event: the block is freed at that moment and no operation
/// is enabled ever after.
pub open spec fn rc_op_step(count: nat, op: RcOp) -> nat {
    match op {
        RcOp::MintHandle => count + 1,
        RcOp::ReleaseHandle => (count - 1) as nat,
    }
}

/// The count after a whole sequence of operations.
pub open spec fn rc_run(count: nat, ops: Seq<RcOp>) -> nat
    decreases ops.len(),
{
    if ops.len() == 0 {
        count
    } else {
        rc_run(rc_op_step(count, ops[0]), ops.drop_first())
    }
}

/// Every operation of the sequence is enabled in the count it meets.
pub open spec fn rc_legal(count: nat, ops: Seq<RcOp>) -> bool
    decreases ops.len(),
{
    ops.len() == 0 || (rc_op_enabled(count, ops[0]) && rc_legal(rc_op_step(count, ops[0]), ops.drop_first()))
}

/// How many handles `ops` mints.
pub open spec fn handles_minted(ops: Seq<RcOp>) -> nat
    decreases ops.len(),
{
    if ops.len() == 0 {
        0
    } else {
        (if ops[0] is MintHandle {
            1nat
        } else {
            0nat
        }) + handles_minted(ops.drop_first())
    }
}

/// How many handles `ops` releases.
pub open spec fn handles_released(ops: Seq<RcOp>) -> nat
    decreases ops.len(),
{
    if ops.len() == 0 {
        0
    } else {
        (if ops[0] is ReleaseHandle {
            1nat
        } else {
            0nat
        }) + handles_released(ops.drop_first())
    }
}

/// Handle census: along any legal run the count is an exact tally of live
/// handles — the count afterwards plus the handles released equals the
/// count before plus the handles minted.
pub proof fn lemma_handle_accounting(count: nat, ops: Seq<RcOp>)
    requires
        rc_legal(count, ops),
    ensures
        rc_run(count, ops) + handles_released(ops) == count + handles_minted(ops),
    decreases ops.len(),
{
    if ops.len() > 0 {
        lemma_handle_accounting(rc_op_step(count, ops[0]), ops.drop_first());
    }
}

/// Before the run is over, the block is still alive: every operation of a
/// legal sequence finds a count of at least one, so no deallocation happens
/// strictly inside the sequence.
pub proof fn lemma_block_alive_at(count: nat, ops: Seq<RcOp>, i: int)
    requires
        rc_legal(count, ops),
        0 <= i < ops.len(),
    ensures
        rc_run(count, ops.take(i)) >= 1,
    decreases i,
{
    if i == 0 {
        assert(ops.take(0) =~= Seq::<RcOp>::empty());
    } else {
        assert(ops.take(i).drop_first() =~= ops.drop_first().take(i - 1));
        lemma_block_alive_at(rc_op_step(count, ops[0]), ops.drop_first(), i - 1);
    }
}

/// Exactly one deallocation event, on the release of the last surviving
/// handle: a fresh allocation (one handle, count one) taken through any
/// legal interleaving of mints and releases that releases every handle —
/// the original and each one minted — ends at count zero, the block freed;
/// and after every proper prefix the count is still at least one, so the
/// block survives until the very last release and is freed exactly once,
/// whatever the order of destruction.
pub proof fn lemma_single_deallocation(ops: Seq<RcOp>, i: int)
    requires
        rc_legal(1, ops),
        handles_released(ops) == handles_minted(ops) + 1,
        0 <= i < ops.len(),
    ensures
        rc_run(1, ops) == 0,
        rc_run(1, ops.take(i)) >= 1,
{
    lemma_handle_accounting(1, ops);
    lemma_block_alive_at(1, ops, i);
}

} // verus!
