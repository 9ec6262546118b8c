//! The unchecked profile: the cell keeps no runtime bookkeeping at all.
//!
//! The borrow-state counter of this profile is ghost. Every operation that
//! the checked profile guards with a runtime test instead carries the same
//! condition as a `requires` clause, so the aliasing discipline is assumed —
//! and discharged statically — rather than verified at runtime, and a
//! violation cannot be written in verified code. Correct callers observe
//! exactly the behaviour of [`crate::checked`]: both profiles implement the
//! transition system of [`crate::cell_model`].

use vstd::prelude::*;

use crate::cell_model::CellModel;
use vstd::std_specs::cmp::OrdSpec;
use vstd::std_specs::cmp::PartialEqSpec;
use vstd::std_specs::cmp::PartialOrdSpec;

mod exclusive;
mod shared;

pub use exclusive::RefMut;
pub use shared::Ref;

verus! {

/// A mutable memory location whose borrow discipline is assumed to hold: the
/// borrow-state counter exists only for specification and costs nothing at
/// runtime.
///
/// The wrapped value is absent exactly while an exclusive guard owns it.
pub struct DcRefCell<T> {
    value: Option<T>,
    borrows: Ghost<int>,
}

impl<T> View for DcRefCell<T> {
    type V = CellModel<T>;

    closed spec fn view(&self) -> CellModel<T> {
        CellModel { value: self.value, borrows: self.borrows@ }
    }
}

impl<T> DcRefCell<T> {
    /// Well-formedness of the cell's borrow state. Every constructor
    /// establishes it and every operation preserves it.
    pub open spec fn wf(&self) -> bool {
        self@.wf()
    }

    /// Creates a new cell containing `value`, unborrowed.
    pub fn new(value: T) -> (r: Self)
        ensures
            r@ == CellModel::init(value),
            r.wf(),
    {
        DcRefCell { value: Some(value), borrows: Ghost(0) }
    }

    /// Consumes the cell, returning the wrapped value.
    ///
    /// Whole-cell ownership precludes a live exclusive guard, which here is
    /// the requirement that the value has not been moved out.
    pub fn into_inner(self) -> (r: T)
        requires
            self.wf(),
            !self@.is_exclusive(),
        ensures
            r == self@.val(),
    {
        self.value.unwrap()
    }

    /// Returns a mutable reference to the wrapped value directly, without
    /// consulting a guard: exclusive access to the cell itself already
    /// precludes taking any new claim through it while the borrow lasts.
    pub fn get_mut(&mut self) -> (r: &mut T)
        requires
            old(self).wf(),
            !old(self)@.is_exclusive(),
        ensures
            *r == old(self)@.val(),
            final(self)@ == (CellModel { value: Some(*final(r)), borrows: old(self)@.borrows }),
            final(self).wf(),
    {
        match &mut self.value {
            Some(v) => v,
            None => vstd::pervasive::unreached(),
        }
    }

    /// Takes one more (ghost) shared claim; used by the guard operations that
    /// duplicate or split a claim, which hold the cell in the shared state.
    pub(crate) fn add_shared_claim(&mut self)
        requires
            old(self).wf(),
            old(self)@.is_shared(),
        ensures
            final(self)@ == old(self)@.borrowed(),
            final(self).wf(),
    {
        self.borrows = Ghost(self.borrows@ + 1);
    }

    /// Returns one shared claim, handing its guard back to the cell it was
    /// drawn from. The guard may observe any view of the value — shared
    /// guards over transformed views release the same single claim.
    pub fn release<U>(&mut self, guard: Ref<U>)
        requires
            old(self).wf(),
            old(self)@.is_shared(),
        ensures
            final(self)@ == old(self)@.released(),
            final(self).wf(),
    {
        let _observed = guard;
        self.borrows = Ghost(self.borrows@ - 1);
    }

    /// Returns the exclusive claim, depositing the value the guard carries
    /// back into the cell and leaving it unborrowed.
    pub fn release_mut(&mut self, guard: RefMut<T>)
        requires
            old(self).wf(),
            old(self)@.is_exclusive(),
        ensures
            final(self)@ == old(self)@.mut_released(guard@),
            final(self).wf(),
    {
        self.value = Some(RefMut::leak(guard));
        self.borrows = Ghost(0);
    }

    /// Returns the exclusive claim through a guard whose view was transformed
    /// by `RefMut::map` or recovered from `RefMut::filter_map`: `rebuild`
    /// turns the transformed view back into a whole value, which the cell
    /// then holds, unborrowed.
    pub fn release_mut_with<U, F: FnOnce(U) -> T>(&mut self, guard: RefMut<U>, rebuild: F)
        requires
            old(self).wf(),
            old(self)@.is_exclusive(),
            call_requires(rebuild, (guard@,)),
        ensures
            final(self)@.is_unborrowed(),
            final(self)@.value is Some,
            call_ensures(rebuild, (guard@,), final(self)@.val()),
            final(self).wf(),
    {
        self.value = Some(rebuild(RefMut::leak(guard)));
        self.borrows = Ghost(0);
    }

    /// Returns the exclusive claim through the two halves produced by
    /// `RefMut::map_split`: `rebuild` joins the halves back into a whole
    /// value, which the cell then holds, unborrowed.
    pub fn release_mut_pair<U, V, F: FnOnce(U, V) -> T>(
        &mut self,
        left: RefMut<U>,
        right: RefMut<V>,
        rebuild: F,
    )
        requires
            old(self).wf(),
            old(self)@.is_exclusive(),
            call_requires(rebuild, (left@, right@)),
        ensures
            final(self)@.is_unborrowed(),
            final(self)@.value is Some,
            call_ensures(rebuild, (left@, right@), final(self)@.val()),
            final(self).wf(),
    {
        self.value = Some(rebuild(RefMut::leak(left), RefMut::leak(right)));
        self.borrows = Ghost(0);
    }

    /// Exclusively borrows the wrapped value: the cell's sole exclusive claim
    /// is taken and the value moves into the returned guard. The caller must
    /// establish that the cell is unborrowed; no check is made at runtime.
    pub fn borrow_mut(&mut self) -> (r: RefMut<T>)
        requires
            old(self).wf(),
            old(self)@.can_borrow_mut(),
        ensures
            final(self)@ == old(self)@.mut_borrowed(),
            r@ == old(self)@.val(),
            final(self).wf(),
    {
        let value = self.value.take();
        self.borrows = Ghost(-1);
        RefMut::make(value.unwrap())
    }

    /// Like [`Self::borrow_mut`]; the message is accepted for interface
    /// parity with the checked profile and never used, since the discipline
    /// is established statically.
    pub fn borrow_mut_expect(&mut self, _msg: &str) -> (r: RefMut<T>)
        requires
            old(self).wf(),
            old(self)@.can_borrow_mut(),
        ensures
            final(self)@ == old(self)@.mut_borrowed(),
            r@ == old(self)@.val(),
            final(self).wf(),
    {
        let value = self.value.take();
        self.borrows = Ghost(-1);
        RefMut::make(value.unwrap())
    }

    /// Replaces the wrapped value with `t`, returning the old value. The
    /// operation internally takes and returns the exclusive claim, so the
    /// caller must establish that the cell is unborrowed.
    pub fn replace(&mut self, t: T) -> (r: T)
        requires
            old(self).wf(),
            old(self)@.can_borrow_mut(),
        ensures
            r == old(self)@.val(),
            final(self)@ == old(self)@.replaced(t),
            final(self).wf(),
    {
        let mut slot = Some(t);
        core::mem::swap(&mut self.value, &mut slot);
        slot.unwrap()
    }

    /// Like [`Self::replace`]; the message is accepted for interface parity
    /// with the checked profile and never used.
    pub fn replace_expect(&mut self, t: T, _msg: &str) -> (r: T)
        requires
            old(self).wf(),
            old(self)@.can_borrow_mut(),
        ensures
            r == old(self)@.val(),
            final(self)@ == old(self)@.replaced(t),
            final(self).wf(),
    {
        let mut slot = Some(t);
        core::mem::swap(&mut self.value, &mut slot);
        slot.unwrap()
    }

    /// Replaces the wrapped value with one computed from it by `f`, returning
    /// the old value. The caller must establish that the cell is unborrowed.
    pub fn replace_with<F: FnOnce(&T) -> T>(&mut self, f: F) -> (r: T)
        requires
            old(self).wf(),
            old(self)@.can_borrow_mut(),
            call_requires(f, (&old(self)@.val(),)),
        ensures
            r == old(self)@.val(),
            final(self)@.is_unborrowed(),
            final(self)@.value is Some,
            call_ensures(f, (&old(self)@.val(),), final(self)@.val()),
            final(self).wf(),
    {
        let old_value = self.value.take().unwrap();
        let new_value = f(&old_value);
        self.value = Some(new_value);
        old_value
    }

    /// Like [`Self::replace_with`]; the message is accepted for interface
    /// parity with the checked profile and never used.
    pub fn replace_with_expect<F: FnOnce(&T) -> T>(&mut self, f: F, _msg: &str) -> (r: T)
        requires
            old(self).wf(),
            old(self)@.can_borrow_mut(),
            call_requires(f, (&old(self)@.val(),)),
        ensures
            r == old(self)@.val(),
            final(self)@.is_unborrowed(),
            final(self)@.value is Some,
            call_ensures(f, (&old(self)@.val(),), final(self)@.val()),
            final(self).wf(),
    {
        let old_value = self.value.take().unwrap();
        let new_value = f(&old_value);
        self.value = Some(new_value);
        old_value
    }

    /// Swaps the wrapped values of two cells, which the caller must establish
    /// are both unborrowed.
    ///
    /// Swapping a cell with itself is unrepresentable here: the two mutable
    /// borrows this signature takes are statically distinct, so the
    /// self-swap question is settled at compile time rather than by a runtime
    /// rule.
    pub fn swap(&mut self, other: &mut Self)
        requires
            old(self).wf(),
            old(other).wf(),
            old(self)@.can_borrow_mut(),
            old(other)@.can_borrow_mut(),
        ensures
            final(self)@ == old(self)@.replaced(old(other)@.val()),
            final(other)@ == old(other)@.replaced(old(self)@.val()),
            final(self).wf(),
            final(other).wf(),
    {
        core::mem::swap(&mut self.value, &mut other.value);
    }

    /// Like [`Self::swap`]; the message is accepted for interface parity with
    /// the checked profile and never used.
    pub fn swap_expect(&mut self, other: &mut Self, _msg: &str)
        requires
            old(self).wf(),
            old(other).wf(),
            old(self)@.can_borrow_mut(),
            old(other)@.can_borrow_mut(),
        ensures
            final(self)@ == old(self)@.replaced(old(other)@.val()),
            final(other)@ == old(other)@.replaced(old(self)@.val()),
            final(self).wf(),
            final(other).wf(),
    {
        core::mem::swap(&mut self.value, &mut other.value);
    }
}

impl<T: Copy> DcRefCell<T> {
    /// Takes one shared claim on the wrapped value, which the returned guard
    /// then observes. The caller must establish that the exclusive claim is
    /// not out; no check is made at runtime.
    pub fn borrow(&mut self) -> (r: Ref<T>)
        requires
            old(self).wf(),
            old(self)@.can_borrow(),
        ensures
            final(self)@ == old(self)@.borrowed(),
            r@ == old(self)@.val(),
            final(self).wf(),
    {
        let observed = match &self.value {
            Some(v) => *v,
            None => vstd::pervasive::unreached(),
        };
        self.borrows = Ghost(self.borrows@ + 1);
        Ref::make(observed)
    }

    /// Like [`Self::borrow`]; the message is accepted for interface parity
    /// with the checked profile and never used.
    pub fn borrow_expect(&mut self, _msg: &str) -> (r: Ref<T>)
        requires
            old(self).wf(),
            old(self)@.can_borrow(),
        ensures
            final(self)@ == old(self)@.borrowed(),
            r@ == old(self)@.val(),
            final(self).wf(),
    {
        let observed = match &self.value {
            Some(v) => *v,
            None => vstd::pervasive::unreached(),
        };
        self.borrows = Ghost(self.borrows@ + 1);
        Ref::make(observed)
    }
}

impl<T: Clone> DcRefCell<T> {
    /// Returns a new, unborrowed cell around a copy of the wrapped value. The
    /// copy is taken under an internal exclusive claim, so the caller must
    /// establish that the cell is unborrowed.
    pub fn clone(&self) -> (r: Self)
        requires
            self.wf(),
            self@.can_borrow_mut(),
        ensures
            r@.borrows == 0,
            r@.value is Some,
            cloned::<T>(self@.val(), r@.val()),
    {
        match &self.value {
            Some(v) => Self::new(v.clone()),
            None => vstd::pervasive::unreached(),
        }
    }

    /// Like [`Self::clone`]; the message is accepted for interface parity
    /// with the checked profile and never used.
    pub fn clone_expect(&self, _msg: &str) -> (r: Self)
        requires
            self.wf(),
            self@.can_borrow_mut(),
        ensures
            r@.borrows == 0,
            r@.value is Some,
            cloned::<T>(self@.val(), r@.val()),
    {
        match &self.value {
            Some(v) => Self::new(v.clone()),
            None => vstd::pervasive::unreached(),
        }
    }

    /// Returns a new, unborrowed cell around a copy of the wrapped value,
    /// taken through exclusive access to the cell itself rather than a claim.
    pub fn clone_mut(&mut self) -> (r: Self)
        requires
            old(self).wf(),
            !old(self)@.is_exclusive(),
        ensures
            final(self)@ == old(self)@,
            r@.borrows == 0,
            r@.value is Some,
            cloned::<T>(old(self)@.val(), r@.val()),
    {
        match &self.value {
            Some(v) => Self::new(v.clone()),
            None => vstd::pervasive::unreached(),
        }
    }
}

impl<T: PartialEq> DcRefCell<T> {
    /// Tests the wrapped values of two cells for equality. Each value is read
    /// under an internal shared claim, so the caller must establish that
    /// neither cell is exclusively borrowed.
    pub fn eq(&self, other: &Self) -> (r: bool)
        requires
            self.wf(),
            other.wf(),
            self@.can_borrow(),
            other@.can_borrow(),
        ensures
            T::obeys_eq_spec() ==> r == self@.val().eq_spec(&other@.val()),
    {
        match (&self.value, &other.value) {
            (Some(a), Some(b)) => a == b,
            _ => vstd::pervasive::unreached(),
        }
    }

    /// Like [`Self::eq`]; the message is accepted for interface parity with
    /// the checked profile and never used.
    pub fn eq_expect(&self, other: &Self, _msg: &str) -> (r: bool)
        requires
            self.wf(),
            other.wf(),
            self@.can_borrow(),
            other@.can_borrow(),
        ensures
            T::obeys_eq_spec() ==> r == self@.val().eq_spec(&other@.val()),
    {
        match (&self.value, &other.value) {
            (Some(a), Some(b)) => a == b,
            _ => vstd::pervasive::unreached(),
        }
    }
}

impl<T: PartialOrd> DcRefCell<T> {
    /// Returns an ordering between the wrapped values of two cells, if one
    /// exists. Each value is read under an internal shared claim, so the
    /// caller must establish that neither cell is exclusively borrowed.
    pub fn partial_cmp(&self, other: &Self) -> (r: Option<core::cmp::Ordering>)
        requires
            self.wf(),
            other.wf(),
            self@.can_borrow(),
            other@.can_borrow(),
        ensures
            T::obeys_partial_cmp_spec() ==> r == self@.val().partial_cmp_spec(&other@.val()),
    {
        match (&self.value, &other.value) {
            (Some(a), Some(b)) => a.partial_cmp(b),
            _ => vstd::pervasive::unreached(),
        }
    }

    /// Like [`Self::partial_cmp`]; the message is accepted for interface
    /// parity with the checked profile and never used.
    pub fn partial_cmp_expect(&self, other: &Self, _msg: &str) -> (r: Option<core::cmp::Ordering>)
        requires
            self.wf(),
            other.wf(),
            self@.can_borrow(),
            other@.can_borrow(),
        ensures
            T::obeys_partial_cmp_spec() ==> r == self@.val().partial_cmp_spec(&other@.val()),
    {
        match (&self.value, &other.value) {
            (Some(a), Some(b)) => a.partial_cmp(b),
            _ => vstd::pervasive::unreached(),
        }
    }

    /// Tests whether the wrapped value of `self` is ordered strictly before
    /// that of `other`, under the same conditions as [`Self::partial_cmp`].
    pub fn lt(&self, other: &Self) -> (r: bool)
        requires
            self.wf(),
            other.wf(),
            self@.can_borrow(),
            other@.can_borrow(),
        ensures
            T::obeys_partial_cmp_spec() ==> (r <==> self@.val().partial_cmp_spec(&other@.val())
                == Some(core::cmp::Ordering::Less)),
    {
        match (&self.value, &other.value) {
            (Some(a), Some(b)) => a.lt(b),
            _ => vstd::pervasive::unreached(),
        }
    }

    /// Like [`Self::lt`]; the message is accepted for interface parity with
    /// the checked profile and never used.
    pub fn lt_expect(&self, other: &Self, _msg: &str) -> (r: bool)
        requires
            self.wf(),
            other.wf(),
            self@.can_borrow(),
            other@.can_borrow(),
        ensures
            T::obeys_partial_cmp_spec() ==> (r <==> self@.val().partial_cmp_spec(&other@.val())
                == Some(core::cmp::Ordering::Less)),
    {
        match (&self.value, &other.value) {
            (Some(a), Some(b)) => a.lt(b),
            _ => vstd::pervasive::unreached(),
        }
    }

    /// Tests whether the wrapped value of `self` is ordered before or the
    /// same as that of `other`, under the same conditions as
    /// [`Self::partial_cmp`].
    pub fn le(&self, other: &Self) -> (r: bool)
        requires
            self.wf(),
            other.wf(),
            self@.can_borrow(),
            other@.can_borrow(),
        ensures
            T::obeys_partial_cmp_spec() ==> (r <==> (self@.val().partial_cmp_spec(&other@.val())
                matches Some(core::cmp::Ordering::Less | core::cmp::Ordering::Equal))),
    {
        match (&self.value, &other.value) {
            (Some(a), Some(b)) => a.le(b),
            _ => vstd::pervasive::unreached(),
        }
    }

    /// Like [`Self::le`]; the message is accepted for interface parity with
    /// the checked profile and never used.
    pub fn le_expect(&self, other: &Self, _msg: &str) -> (r: bool)
        requires
            self.wf(),
            other.wf(),
            self@.can_borrow(),
            other@.can_borrow(),
        ensures
            T::obeys_partial_cmp_spec() ==> (r <==> (self@.val().partial_cmp_spec(&other@.val())
                matches Some(core::cmp::Ordering::Less | core::cmp::Ordering::Equal))),
    {
        match (&self.value, &other.value) {
            (Some(a), Some(b)) => a.le(b),
            _ => vstd::pervasive::unreached(),
        }
    }

    /// Tests whether the wrapped value of `self` is ordered strictly after
    /// that of `other`, under the same conditions as [`Self::partial_cmp`].
    pub fn gt(&self, other: &Self) -> (r: bool)
        requires
            self.wf(),
            other.wf(),
            self@.can_borrow(),
            other@.can_borrow(),
        ensures
            T::obeys_partial_cmp_spec() ==> (r <==> self@.val().partial_cmp_spec(&other@.val())
                == Some(core::cmp::Ordering::Greater)),
    {
        match (&self.value, &other.value) {
            (Some(a), Some(b)) => a.gt(b),
            _ => vstd::pervasive::unreached(),
        }
    }

    /// Like [`Self::gt`]; the message is accepted for interface parity with
    /// the checked profile and never used.
    pub fn gt_expect(&self, other: &Self, _msg: &str) -> (r: bool)
        requires
            self.wf(),
            other.wf(),
            self@.can_borrow(),
            other@.can_borrow(),
        ensures
            T::obeys_partial_cmp_spec() ==> (r <==> self@.val().partial_cmp_spec(&other@.val())
                == Some(core::cmp::Ordering::Greater)),
    {
        match (&self.value, &other.value) {
            (Some(a), Some(b)) => a.gt(b),
            _ => vstd::pervasive::unreached(),
        }
    }

    /// Tests whether the wrapped value of `self` is ordered after or the same
    /// as that of `other`, under the same conditions as
    /// [`Self::partial_cmp`].
    pub fn ge(&self, other: &Self) -> (r: bool)
        requires
            self.wf(),
            other.wf(),
            self@.can_borrow(),
            other@.can_borrow(),
        ensures
            T::obeys_partial_cmp_spec() ==> (r <==> (self@.val().partial_cmp_spec(&other@.val())
                matches Some(core::cmp::Ordering::Greater | core::cmp::Ordering::Equal))),
    {
        match (&self.value, &other.value) {
            (Some(a), Some(b)) => a.ge(b),
            _ => vstd::pervasive::unreached(),
        }
    }

    /// Like [`Self::ge`]; the message is accepted for interface parity with
    /// the checked profile and never used.
    pub fn ge_expect(&self, other: &Self, _msg: &str) -> (r: bool)
        requires
            self.wf(),
            other.wf(),
            self@.can_borrow(),
            other@.can_borrow(),
        ensures
            T::obeys_partial_cmp_spec() ==> (r <==> (self@.val().partial_cmp_spec(&other@.val())
                matches Some(core::cmp::Ordering::Greater | core::cmp::Ordering::Equal))),
    {
        match (&self.value, &other.value) {
            (Some(a), Some(b)) => a.ge(b),
            _ => vstd::pervasive::unreached(),
        }
    }
}

impl<T: Ord> DcRefCell<T> {
    /// Returns the total ordering between the wrapped values of two cells.
    /// Each value is read under an internal shared claim, so the caller must
    /// establish that neither cell is exclusively borrowed.
    pub fn cmp(&self, other: &Self) -> (r: core::cmp::Ordering)
        requires
            self.wf(),
            other.wf(),
            self@.can_borrow(),
            other@.can_borrow(),
        ensures
            T::obeys_cmp_spec() ==> r == self@.val().cmp_spec(&other@.val()),
    {
        match (&self.value, &other.value) {
            (Some(a), Some(b)) => a.cmp(b),
            _ => vstd::pervasive::unreached(),
        }
    }

    /// Like [`Self::cmp`]; the message is accepted for interface parity with
    /// the checked profile and never used.
    pub fn cmp_expect(&self, other: &Self, _msg: &str) -> (r: core::cmp::Ordering)
        requires
            self.wf(),
            other.wf(),
            self@.can_borrow(),
            other@.can_borrow(),
        ensures
            T::obeys_cmp_spec() ==> r == self@.val().cmp_spec(&other@.val()),
    {
        match (&self.value, &other.value) {
            (Some(a), Some(b)) => a.cmp(b),
            _ => vstd::pervasive::unreached(),
        }
    }
}

impl<T: Default> Default for DcRefCell<T> {
    /// Creates a new, unborrowed cell around the default value of `T`.
    fn default() -> (r: Self)
        ensures
            r@.borrows == 0,
            r@.value is Some,
            call_ensures(T::default, (), r@.val()),
            r.wf(),
    {
        Self::new(T::default())
    }
}

impl<T> From<T> for DcRefCell<T> {
    /// Creates a new, unborrowed cell containing the given value, as
    /// [`Self::new`] does.
    fn from(value: T) -> (r: Self)
        ensures
            r@ == CellModel::init(value),
            r.wf(),
    {
        DcRefCell { value: Some(value), borrows: Ghost(0) }
    }
}

impl<T> vstd::std_specs::convert::FromSpecImpl<T> for DcRefCell<T> {
    open spec fn obeys_from_spec() -> bool {
        true
    }

    closed spec fn from_spec(v: T) -> Self {
        DcRefCell { value: Some(v), borrows: Ghost(0) }
    }
}

} // verus!
