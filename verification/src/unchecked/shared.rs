//! The shared (read-only) guard of the unchecked profile.

use vstd::prelude::*;

use super::DcRefCell;

verus! {

/// A live shared claim against an unchecked [`DcRefCell`], carrying its own
/// copy of the observed value.
///
/// While any shared claim is outstanding, every operation that could change
/// the cell's value is ruled out by its precondition, so the copy a guard
/// carries stays equal to the wrapped value until the claim is returned. A
/// guard made by one of the transformation operations carries the transformed
/// view instead; the claim it holds is still one claim against the cell it
/// was drawn from, and returning it through [`DcRefCell::release`] releases
/// exactly that claim.
#[derive(Debug)]
pub struct Ref<T> {
    value: T,
}

impl<T> View for Ref<T> {
    type V = T;

    closed spec fn view(&self) -> T {
        self.value
    }
}

impl<T> Ref<T> {
    /// Wraps an observed value in a guard. Only the cell's own borrow
    /// operations and the guard transformations below create guards.
    pub(crate) fn make(value: T) -> (r: Self)
        ensures
            r@ == value,
    {
        Ref { value }
    }

    /// The value this guard observes.
    pub fn get(&self) -> (r: &T)
        ensures
            *r == self@,
    {
        &self.value
    }

    /// Copies a guard: the cell takes one more shared claim, which is always
    /// possible while the cell is already shared, and the new guard observes
    /// the same value. The claim taken is ghost, so nothing is counted at
    /// runtime.
    pub fn clone<S>(cell: &mut DcRefCell<S>, orig: &Ref<T>) -> (r: Ref<T>) where T: Copy
        requires
            old(cell).wf(),
            old(cell)@.is_shared(),
        ensures
            final(cell)@ == old(cell)@.borrowed(),
            final(cell).wf(),
            r@ == orig@,
    {
        cell.add_shared_claim();
        Ref { value: orig.value }
    }

    /// Makes a new guard for a transformed view of the observed value,
    /// consuming the original: the claim transfers, the cell is untouched.
    pub fn map<U, F: FnOnce(T) -> U>(orig: Self, f: F) -> (r: Ref<U>)
        requires
            call_requires(f, (orig@,)),
        ensures
            call_ensures(f, (orig@,), r@),
    {
        Ref { value: f(orig.value) }
    }

    /// Makes a new guard for an optional view of the observed value; the
    /// original guard is handed back unchanged if the closure reports that no
    /// such view exists. Either way the claim is preserved.
    pub fn filter_map<U, F: FnOnce(T) -> Option<U>>(orig: Self, f: F) -> (r: Result<
        Ref<U>,
        Ref<T>,
    >) where T: Copy
        requires
            call_requires(f, (orig@,)),
        ensures
            r matches Ok(g) ==> call_ensures(f, (orig@,), Some(g@)),
            r matches Err(g) ==> g@ == orig@ && call_ensures(f, (orig@,), None::<U>),
    {
        let observed = orig.value;
        match f(observed) {
            Some(part) => Ok(Ref { value: part }),
            None => Err(orig),
        }
    }

    /// Splits one guard into two guards for the two halves of a pair-producing
    /// view. The one claim is understood to cover both halves, so the cell
    /// takes one more (ghost) shared claim and each resulting guard can be
    /// released on its own.
    pub fn map_split<S, U, V, F: FnOnce(T) -> (U, V)>(
        cell: &mut DcRefCell<S>,
        orig: Self,
        f: F,
    ) -> (r: (Ref<U>, Ref<V>))
        requires
            old(cell).wf(),
            old(cell)@.is_shared(),
            call_requires(f, (orig@,)),
        ensures
            final(cell)@ == old(cell)@.borrowed(),
            final(cell).wf(),
            call_ensures(f, (orig@,), (r.0@, r.1@)),
    {
        cell.add_shared_claim();
        let (left, right) = f(orig.value);
        (Ref { value: left }, Ref { value: right })
    }

    /// Converts the guard into its observed value without returning the
    /// claim: the cell permanently loses one unit of borrow capacity and can
    /// never reach the unborrowed state again unless other claims outweigh
    /// the leak.
    pub fn leak(orig: Self) -> (r: T)
        ensures
            r == orig@,
    {
        orig.value
    }
}

} // verus!
