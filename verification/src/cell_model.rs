//! The borrow-state machine that both cell profiles implement.
//!
//! A cell is modelled by [`CellModel`]: the wrapped value together with an
//! integer borrow-state counter. `0` means unborrowed, `n > 0` means `n` live
//! shared claims, and `-1` is the sentinel for the one exclusive claim. The
//! spec functions here are the vocabulary of every contract in [`crate::checked`]
//! and [`crate::unchecked`]; the proof functions state the laws of the
//! discipline once, for both profiles.

use vstd::prelude::*;

verus! {

/// Mathematical model of a cell.
///
/// `value` is the wrapped value; it is `None` exactly while an exclusive guard
/// owns it. `borrows` is the borrow-state counter described above.
pub struct CellModel<T> {
    /// The wrapped value, absent exactly while an exclusive claim is live.
    pub value: Option<T>,
    /// `0` = unborrowed, `n > 0` = `n` live shared claims, `-1` = exclusive.
    pub borrows: int,
}

impl<T> CellModel<T> {
    /// Well-formedness: the counter never drops below the exclusive sentinel,
    /// and the value is absent exactly while that sentinel is set.
    pub open spec fn wf(self) -> bool {
        &&& self.borrows >= -1
        &&& (self.borrows == -1 <==> self.value is None)
    }

    /// The wrapped value, meaningful whenever no exclusive claim is live.
    pub open spec fn val(self) -> T {
        self.value->0
    }

    pub open spec fn is_unborrowed(self) -> bool {
        self.borrows == 0
    }

    pub open spec fn is_shared(self) -> bool {
        self.borrows >= 1
    }

    pub open spec fn is_exclusive(self) -> bool {
        self.borrows == -1
    }

    /// A fresh cell wrapping `v`.
    pub open spec fn init(v: T) -> CellModel<T> {
        CellModel { value: Some(v), borrows: 0 }
    }

    /// A shared claim may be taken while no exclusive claim is live.
    pub open spec fn can_borrow(self) -> bool {
        self.borrows >= 0
    }

    /// Taking one shared claim.
    pub open spec fn borrowed(self) -> CellModel<T> {
        CellModel { value: self.value, borrows: self.borrows + 1 }
    }

    /// The exclusive claim may be taken only while the cell is unborrowed.
    pub open spec fn can_borrow_mut(self) -> bool {
        self.borrows == 0
    }

    /// Taking the exclusive claim moves the value out to its guard.
    pub open spec fn mut_borrowed(self) -> CellModel<T> {
        CellModel { value: None, borrows: -1 }
    }

    /// Releasing one shared claim.
    pub open spec fn released(self) -> CellModel<T> {
        CellModel { value: self.value, borrows: self.borrows - 1 }
    }

    /// Releasing the exclusive claim deposits `v` back into the cell.
    pub open spec fn mut_released(self, v: T) -> CellModel<T> {
        CellModel { value: Some(v), borrows: 0 }
    }

    /// Replacing the wrapped value while unborrowed.
    pub open spec fn replaced(self, v: T) -> CellModel<T> {
        CellModel { value: Some(v), borrows: self.borrows }
    }
}

/// One operation of the borrow discipline, as seen by the cell.
pub enum BorrowOp<T> {
    /// Request one shared claim.
    Borrow,
    /// Request the exclusive claim.
    BorrowMut,
    /// Return one shared claim.
    Release,
    /// Return the exclusive claim, depositing the carried value.
    ReleaseMut(T),
    /// Replace the wrapped value (acquires and releases the exclusive claim).
    Replace(T),
}

/// Whether `op` is a legal transition from `m`.
pub open spec fn op_enabled<T>(m: CellModel<T>, op: BorrowOp<T>) -> bool {
    match op {
        BorrowOp::Borrow => m.can_borrow(),
        BorrowOp::BorrowMut => m.can_borrow_mut(),
        BorrowOp::Release => m.is_shared(),
        BorrowOp::ReleaseMut(_) => m.is_exclusive(),
        BorrowOp::Replace(_) => m.can_borrow_mut(),
    }
}

/// The state after a legal `op`.
pub open spec fn op_step<T>(m: CellModel<T>, op: BorrowOp<T>) -> CellModel<T> {
    match op {
        BorrowOp::Borrow => m.borrowed(),
        BorrowOp::BorrowMut => m.mut_borrowed(),
        BorrowOp::Release => m.released(),
        BorrowOp::ReleaseMut(v) => m.mut_released(v),
        BorrowOp::Replace(v) => m.replaced(v),
    }
}

/// The state after attempting `op`: a refused operation leaves the cell
/// exactly as it was (a failed acquisition never partially mutates the
/// borrow state).
pub open spec fn op_apply<T>(m: CellModel<T>, op: BorrowOp<T>) -> CellModel<T> {
    if op_enabled(m, op) {
        op_step(m, op)
    } else {
        m
    }
}

/// The state after attempting a whole sequence of operations.
pub open spec fn run<T>(m: CellModel<T>, ops: Seq<BorrowOp<T>>) -> CellModel<T>
    decreases ops.len(),
{
    if ops.len() == 0 {
        m
    } else {
        run(op_apply(m, ops[0]), ops.drop_first())
    }
}

/// One attempted operation preserves well-formedness.
pub proof fn lemma_step_preserves_wf<T>(m: CellModel<T>, op: BorrowOp<T>)
    requires
        m.wf(),
    ensures
        op_apply(m, op).wf(),
{
}

/// Law: along every sequence of borrow, exclusive-borrow, release and replace
/// operations, the borrow state stays well formed — the counter never goes
/// below the single exclusive sentinel, and a shared claim and the exclusive
/// claim never coexist.
pub proof fn lemma_trace_wf<T>(m: CellModel<T>, ops: Seq<BorrowOp<T>>)
    requires
        m.wf(),
    ensures
        run(m, ops).wf(),
        !(run(m, ops).is_shared() && run(m, ops).is_exclusive()),
    decreases ops.len(),
{
    if ops.len() > 0 {
        lemma_step_preserves_wf(m, ops[0]);
        lemma_trace_wf(op_apply(m, ops[0]), ops.drop_first());
    }
}

/// Law: while a shared claim is live, a second shared claim always succeeds
/// and observes the same value, and the exclusive claim is refused.
pub proof fn lemma_shared_reborrow<T>(m: CellModel<T>)
    requires
        m.wf(),
        m.can_borrow(),
    ensures
        m.borrowed().wf(),
        m.borrowed().can_borrow(),
        m.borrowed().val() == m.val(),
        m.borrowed().is_shared(),
        !m.borrowed().can_borrow_mut(),
{
}

/// Law: a replace hands back exactly the value stored by the preceding
/// creation or replace, and stores its argument.
pub proof fn lemma_replace_round_trip<T>(x: T, v: T)
    ensures
        CellModel::init(x).can_borrow_mut(),
        CellModel::init(x).val() == x,
        CellModel::init(x).replaced(v).val() == v,
        CellModel::init(x).replaced(v).can_borrow_mut(),
{
}

/// Law: taking a claim and releasing it returns the cell to exactly its prior
/// borrow state and value. Guard transformations such as `map` do not touch
/// the cell at all, so the claim count is preserved across them and this
/// round trip also covers releasing a transformed guard.
pub proof fn lemma_claim_round_trip<T>(m: CellModel<T>)
    ensures
        m.borrowed().released() == m,
        m.can_borrow_mut() && m.value is Some ==> m.mut_borrowed().mut_released(m.val()) == m,
{
    assert(m.borrowed().released() =~= m);
    if m.can_borrow_mut() && m.value is Some {
        assert(m.mut_borrowed().mut_released(m.val()) =~= m);
    }
}

/// Law: a swap between two unborrowed cells exchanges their wrapped values
/// exactly and leaves both unborrowed, and a second swap restores both.
pub proof fn lemma_swap_exchanges<T>(a: CellModel<T>, b: CellModel<T>)
    requires
        a.wf(),
        b.wf(),
        a.can_borrow_mut(),
        b.can_borrow_mut(),
    ensures
        a.replaced(b.val()).val() == b.val(),
        b.replaced(a.val()).val() == a.val(),
        a.replaced(b.val()).is_unborrowed(),
        b.replaced(a.val()).is_unborrowed(),
        a.replaced(b.val()).replaced(a.val()) == a,
        b.replaced(a.val()).replaced(b.val()) == b,
{
    assert(a.replaced(b.val()).replaced(a.val()) =~= a);
    assert(b.replaced(a.val()).replaced(b.val()) =~= b);
}

} // verus!
