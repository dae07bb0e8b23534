//! A dynamically checked borrow-arbitration container: one value plus a
//! tri-state tracker enforcing at runtime the rule a static borrow checker
//! enforces at compile time — any number of concurrent readers, or exactly
//! one writer, never both.

use vstd::prelude::*;
use crate::cell::Cell;

verus! {

/// The borrow tracker: no borrow outstanding, `n` shared (read-only)
/// borrows outstanding, or one exclusive (read-write) borrow outstanding.
#[derive(Clone, Copy, Debug, PartialEq, Eq, Structural)]
pub enum RefState {
    Unshared,
    Shared(usize),
    Exclusive,
}

/// A `Shared` tracker always records at least one live guard.
pub open spec fn state_wf(s: RefState) -> bool {
    s matches RefState::Shared(n) ==> n >= 1
}

/// The requests and releases a cell arbitrates. `Borrow` and `BorrowMut`
/// are guard requests (which may be denied); `Release` and `ReleaseMut`
/// are the ends of life of a shared and an exclusive guard.
pub enum BorrowOp {
    Borrow,
    BorrowMut,
    Release,
    ReleaseMut,
}

/// A shared borrow request is granted whenever no exclusive borrow is
/// outstanding.
pub open spec fn borrow_granted(s: RefState) -> bool {
    !(s is Exclusive)
}

/// An exclusive borrow request is granted only when nothing is outstanding.
pub open spec fn borrow_mut_granted(s: RefState) -> bool {
    s is Unshared
}

/// Tracker transition on a shared borrow request: a denied request leaves
/// the tracker unchanged.
pub open spec fn borrow_step(s: RefState) -> RefState {
    match s {
        RefState::Unshared => RefState::Shared(1),
        RefState::Shared(n) => RefState::Shared((n + 1) as usize),
        RefState::Exclusive => RefState::Exclusive,
    }
}

/// Tracker transition on an exclusive borrow request: a denied request
/// leaves the tracker unchanged.
pub open spec fn borrow_mut_step(s: RefState) -> RefState {
    match s {
        RefState::Unshared => RefState::Exclusive,
        _ => s,
    }
}

/// Tracker transition when a shared guard is released.
pub open spec fn release_step(s: RefState) -> RefState {
    match s {
        RefState::Shared(n) => if n == 1 {
            RefState::Unshared
        } else {
            RefState::Shared((n - 1) as usize)
        },
        _ => s,
    }
}

/// Tracker transition when an exclusive guard is released.
pub open spec fn release_mut_step(s: RefState) -> RefState {
    match s {
        RefState::Exclusive => RefState::Unshared,
        _ => s,
    }
}

/// When an operation is allowed to be submitted at all: borrow requests
/// always are (shared ones up to the counter's capacity), while a release
/// presupposes a live guard of the matching kind — releasing from any other
/// tracker state would contradict the guard's own existence.
pub open spec fn op_enabled(s: RefState, op: BorrowOp) -> bool {
    match op {
        BorrowOp::Borrow => s matches RefState::Shared(n) ==> n < usize::MAX,
        BorrowOp::BorrowMut => true,
        BorrowOp::Release => s matches RefState::Shared(_),
        BorrowOp::ReleaseMut => s is Exclusive,
    }
}

/// The tracker after one operation.
pub open spec fn op_step(s: RefState, op: BorrowOp) -> RefState {
    match op {
        BorrowOp::Borrow => borrow_step(s),
        BorrowOp::BorrowMut => borrow_mut_step(s),
        BorrowOp::Release => release_step(s),
        BorrowOp::ReleaseMut => release_mut_step(s),
    }
}

/// The tracker after a whole sequence of operations.
pub open spec fn run(s: RefState, ops: Seq<BorrowOp>) -> RefState
    decreases ops.len(),
{
    if ops.len() == 0 {
        s
    } else {
        run(op_step(s, ops[0]), ops.drop_first())
    }
}

/// Every operation of the sequence is enabled in the state it meets.
pub open spec fn legal(s: RefState, ops: Seq<BorrowOp>) -> bool
    decreases ops.len(),
{
    ops.len() == 0 || (op_enabled(s, ops[0]) && legal(op_step(s, ops[0]), ops.drop_first()))
}

/// How many shared guards the tracker says are alive.
pub open spec fn shared_guards(s: RefState) -> nat {
    match s {
        RefState::Shared(n) => n as nat,
        _ => 0,
    }
}

/// How many exclusive guards the tracker says are alive.
pub open spec fn exclusive_guards(s: RefState) -> nat {
    if s is Exclusive {
        1
    } else {
        0
    }
}

/// How many shared guards a run of `ops` from `s` hands out.
pub open spec fn shared_issued(s: RefState, ops: Seq<BorrowOp>) -> nat
    decreases ops.len(),
{
    if ops.len() == 0 {
        0
    } else {
        (if ops[0] is Borrow && borrow_granted(s) {
            1nat
        } else {
            0nat
        }) + shared_issued(op_step(s, ops[0]), ops.drop_first())
    }
}

/// How many exclusive guards a run of `ops` from `s` hands out.
pub open spec fn exclusive_issued(s: RefState, ops: Seq<BorrowOp>) -> nat
    decreases ops.len(),
{
    if ops.len() == 0 {
        0
    } else {
        (if ops[0] is BorrowMut && borrow_mut_granted(s) {
            1nat
        } else {
            0nat
        }) + exclusive_issued(op_step(s, ops[0]), ops.drop_first())
    }
}

/// How many shared guards `ops` releases.
pub open spec fn shared_released(ops: Seq<BorrowOp>) -> nat
    decreases ops.len(),
{
    if ops.len() == 0 {
        0
    } else {
        (if ops[0] is Release {
            1nat
        } else {
            0nat
        }) + shared_released(ops.drop_first())
    }
}

/// How many exclusive guards `ops` releases.
pub open spec fn exclusive_released(ops: Seq<BorrowOp>) -> nat
    decreases ops.len(),
{
    if ops.len() == 0 {
        0
    } else {
        (if ops[0] is ReleaseMut {
            1nat
        } else {
            0nat
        }) + exclusive_released(ops.drop_first())
    }
}

/// Guard accounting: along any legal run the tracker keeps an exact census
/// of live guards — guards alive afterwards plus guards released equals
/// guards alive before plus guards handed out, separately for each kind —
/// and a well-formed tracker stays well-formed.
pub proof fn lemma_guard_accounting(s: RefState, ops: Seq<BorrowOp>)
    requires
        state_wf(s),
        legal(s, ops),
    ensures
        state_wf(run(s, ops)),
        shared_guards(run(s, ops)) + shared_released(ops) == shared_guards(s) + shared_issued(
            s,
            ops,
        ),
        exclusive_guards(run(s, ops)) + exclusive_released(ops) == exclusive_guards(s)
            + exclusive_issued(s, ops),
    decreases ops.len(),
{
    if ops.len() > 0 {
        lemma_guard_accounting(op_step(s, ops[0]), ops.drop_first());
    }
}

/// Round-trip: a balanced sequence of operations — one that is legal from a
/// fresh tracker and releases exactly as many guards of each kind as it was
/// handed — returns the tracker exactly to `Unshared`.
pub proof fn lemma_balanced_ops_restore_unshared(ops: Seq<BorrowOp>)
    requires
        legal(RefState::Unshared, ops),
        shared_released(ops) == shared_issued(RefState::Unshared, ops),
        exclusive_released(ops) == exclusive_issued(RefState::Unshared, ops),
    ensures
        run(RefState::Unshared, ops) == RefState::Unshared,
{
    lemma_guard_accounting(RefState::Unshared, ops);
}

/// Running a concatenation is running the pieces in order.
pub proof fn lemma_run_append(s: RefState, ops: Seq<BorrowOp>, more: Seq<BorrowOp>)
    ensures
        run(s, ops + more) == run(run(s, ops), more),
    decreases ops.len(),
{
    if ops.len() == 0 {
        assert(ops + more =~= more);
    } else {
        assert((ops + more).drop_first() =~= ops.drop_first() + more);
        lemma_run_append(op_step(s, ops[0]), ops.drop_first(), more);
    }
}

/// No leaked state: after a balanced sequence, any further operations
/// behave exactly as they would on a freshly constructed cell.
pub proof fn lemma_no_leaked_state(ops: Seq<BorrowOp>, more: Seq<BorrowOp>)
    requires
        legal(RefState::Unshared, ops),
        shared_released(ops) == shared_issued(RefState::Unshared, ops),
        exclusive_released(ops) == exclusive_issued(RefState::Unshared, ops),
    ensures
        run(RefState::Unshared, ops + more) == run(RefState::Unshared, more),
{
    lemma_run_append(RefState::Unshared, ops, more);
    lemma_balanced_ops_restore_unshared(ops);
}

/// One value plus its borrow tracker. The tracker lives in a [`Cell`], as
/// the small piece of state the container mutates on every request while
/// the value itself stays put.
pub struct RefCell<T> {
    value: T,
    state: Cell<RefState>,
}

/// Witness of one live shared (read-only) borrow of a cell. Guards cannot
/// be constructed or duplicated outside this module — duplicating one would
/// silently falsify the tracker's census — and grant access only while
/// outstanding, through the cell's own methods.
pub struct Ref {
    _private: (),
}

/// Witness of the one live exclusive (read-write) borrow of a cell. Not
/// constructible or duplicable outside this module.
pub struct RefMut {
    _private: (),
}

impl<T> RefCell<T> {
    /// The wrapped value.
    pub closed spec fn stored(&self) -> T {
        self.value
    }

    /// The current tracker state.
    pub closed spec fn borrow_state(&self) -> RefState {
        self.state@
    }

    /// A well-formed cell never records a shared count of zero.
    pub open spec fn wf(&self) -> bool {
        state_wf(self.borrow_state())
    }

    /// Creates a cell holding `value` with no borrow outstanding.
    pub fn new(value: T) -> (c: Self)
        ensures
            c.wf(),
            c.stored() == value,
            c.borrow_state() == RefState::Unshared,
    {
        RefCell { value, state: Cell::new(RefState::Unshared) }
    }

    /// The tracker state, observable at any time.
    pub fn state(&self) -> (s: RefState)
        ensures
            s == self.borrow_state(),
    {
        self.state.get()
    }

    /// Requests a shared borrow. Granted — with a guard returned and the
    /// shared count grown by one — exactly when no exclusive borrow is
    /// outstanding; a denial returns no guard and changes nothing. The
    /// denial is an expected, recoverable outcome, not a fault.
    pub fn borrow(&mut self) -> (g: Option<Ref>)
        requires
            old(self).wf(),
            op_enabled(old(self).borrow_state(), BorrowOp::Borrow),
        ensures
            final(self).wf(),
            final(self).stored() == old(self).stored(),
            final(self).borrow_state() == op_step(old(self).borrow_state(), BorrowOp::Borrow),
            g is Some <==> borrow_granted(old(self).borrow_state()),
    {
        match self.state.get() {
            RefState::Unshared => {
                self.state.set(RefState::Shared(1));
                Some(Ref { _private: () })
            },
            RefState::Shared(n) => {
                self.state.set(RefState::Shared(n + 1));
                Some(Ref { _private: () })
            },
            RefState::Exclusive => None,
        }
    }

    /// Requests an exclusive borrow. Granted only when no borrow of either
    /// kind is outstanding; any outstanding shared or exclusive borrow
    /// causes a denial, which returns no guard and changes nothing.
    pub fn borrow_mut(&mut self) -> (g: Option<RefMut>)
        requires
            old(self).wf(),
        ensures
            final(self).wf(),
            final(self).stored() == old(self).stored(),
            final(self).borrow_state() == op_step(old(self).borrow_state(), BorrowOp::BorrowMut),
            g is Some <==> borrow_mut_granted(old(self).borrow_state()),
    {
        match self.state.get() {
            RefState::Unshared => {
                self.state.set(RefState::Exclusive);
                Some(RefMut { _private: () })
            },
            _ => None,
        }
    }

    /// Releases a shared guard, consuming it: the shared count shrinks by
    /// one, down to `Unshared` when this was the last reader. A release
    /// while the tracker is not in a shared state would contradict the
    /// guard's existence and is excluded outright.
    pub fn release(&mut self, guard: Ref)
        requires
            old(self).wf(),
            op_enabled(old(self).borrow_state(), BorrowOp::Release),
        ensures
            final(self).wf(),
            final(self).stored() == old(self).stored(),
            final(self).borrow_state() == op_step(old(self).borrow_state(), BorrowOp::Release),
    {
        match self.state.get() {
            RefState::Shared(n) => {
                if n == 1 {
                    self.state.set(RefState::Unshared);
                } else {
                    self.state.set(RefState::Shared(n - 1));
                }
            },
            _ => unreached(),
        }
    }

    /// Releases the exclusive guard, consuming it: the tracker returns to
    /// `Unshared`. A release while the tracker is not exclusive would
    /// contradict the guard's existence and is excluded outright.
    pub fn release_mut(&mut self, guard: RefMut)
        requires
            old(self).wf(),
            op_enabled(old(self).borrow_state(), BorrowOp::ReleaseMut),
        ensures
            final(self).wf(),
            final(self).stored() == old(self).stored(),
            final(self).borrow_state() == op_step(old(self).borrow_state(), BorrowOp::ReleaseMut),
    {
        match self.state.get() {
            RefState::Exclusive => {
                self.state.set(RefState::Unshared);
            },
            _ => unreached(),
        }
    }

    /// Read access through a live shared guard.
    pub fn read(&self, guard: &Ref) -> (v: &T)
        requires
            self.borrow_state() matches RefState::Shared(_),
        ensures
            *v == self.stored(),
    {
        &self.value
    }

    /// Read access through the live exclusive guard.
    pub fn read_exclusive(&self, guard: &RefMut) -> (v: &T)
        requires
            self.borrow_state() is Exclusive,
        ensures
            *v == self.stored(),
    {
        &self.value
    }

    /// Write access through the live exclusive guard: overwrites the
    /// wrapped value, leaving the tracker untouched.
    pub fn write(&mut self, guard: &RefMut, value: T)
        requires
            old(self).wf(),
            old(self).borrow_state() is Exclusive,
        ensures
            final(self).wf(),
            final(self).stored() == value,
            final(self).borrow_state() == old(self).borrow_state(),
    {
        self.value = value;
    }
}

} // verus!
