//! The checked profile: the cell tracks its borrow state in a runtime counter
//! and reports every violation of the aliasing discipline as a recoverable
//! [`BorrowError`].

use vstd::prelude::*;

use crate::cell_model::CellModel;
use vstd::std_specs::cmp::OrdSpec;
use vstd::std_specs::cmp::PartialEqSpec;
use vstd::std_specs::cmp::PartialOrdSpec;

mod exclusive;
mod shared;

pub use exclusive::RefMut;
pub use shared::Ref;

verus! {

/// The failure reported when a guard is requested (or an operation that
/// internally acquires one is attempted) while the cell's borrow state
/// forbids it, optionally carrying a caller-supplied diagnostic message.
#[derive(Debug)]
pub struct BorrowError {
    /// The diagnostic message supplied through an `_expect` operation, if any.
    pub message: Option<String>,
}

/// A mutable memory location whose borrow discipline is enforced at runtime.
///
/// The wrapped value is absent exactly while an exclusive guard owns it; the
/// counter is `0` when unborrowed, `n > 0` with `n` live shared claims, and
/// `-1` while the exclusive claim is out.
#[derive(Debug)]
pub struct DcRefCell<T> {
    value: Option<T>,
    borrows: i64,
}

impl<T> View for DcRefCell<T> {
    type V = CellModel<T>;

    closed spec fn view(&self) -> CellModel<T> {
        CellModel { value: self.value, borrows: self.borrows as int }
    }
}

impl<T> DcRefCell<T> {
    /// Well-formedness of the cell's borrow state. Every constructor
    /// establishes it and every operation preserves it.
    pub open spec fn wf(&self) -> bool {
        self@.wf()
    }

    /// Creates a new cell containing `value`, unborrowed.
    pub fn new(value: T) -> (r: Self)
        ensures
            r@ == CellModel::init(value),
            r.wf(),
    {
        DcRefCell { value: Some(value), borrows: 0 }
    }

    /// The current borrow-state counter: `0` = unborrowed, `n > 0` = `n` live
    /// shared claims, `-1` = the exclusive claim is out.
    pub fn borrow_state(&self) -> (s: i64)
        ensures
            s as int == self@.borrows,
    {
        self.borrows
    }

    /// Consumes the cell, returning the wrapped value.
    ///
    /// Whole-cell ownership precludes a live exclusive guard, which here is
    /// the requirement that the value has not been moved out.
    pub fn into_inner(self) -> (r: T)
        requires
            self.wf(),
            !self@.is_exclusive(),
        ensures
            r == self@.val(),
    {
        self.value.unwrap()
    }

    /// Returns a mutable reference to the wrapped value directly, without
    /// consulting a guard: exclusive access to the cell itself already
    /// precludes taking any new claim through it while the borrow lasts.
    pub fn get_mut(&mut self) -> (r: &mut T)
        requires
            old(self).wf(),
            !old(self)@.is_exclusive(),
        ensures
            *r == old(self)@.val(),
            final(self)@ == (CellModel { value: Some(*final(r)), borrows: old(self)@.borrows }),
            final(self).wf(),
    {
        match &mut self.value {
            Some(v) => v,
            None => vstd::pervasive::unreached(),
        }
    }

    /// Takes one more shared claim; used by the guard operations that
    /// duplicate or split a claim, which hold the cell in the shared state.
    pub(crate) fn add_shared_claim(&mut self)
        requires
            old(self).wf(),
            old(self)@.is_shared(),
            old(self)@.borrows < i64::MAX,
        ensures
            final(self)@ == old(self)@.borrowed(),
            final(self).wf(),
    {
        self.borrows = self.borrows + 1;
    }

    /// Returns one shared claim, handing its guard back to the cell it was
    /// drawn from. The guard may observe any view of the value — shared
    /// guards over transformed views release the same single claim.
    pub fn release<U>(&mut self, guard: Ref<U>)
        requires
            old(self).wf(),
            old(self)@.is_shared(),
        ensures
            final(self)@ == old(self)@.released(),
            final(self).wf(),
    {
        let _observed = guard;
        self.borrows = self.borrows - 1;
    }

    /// Returns the exclusive claim, depositing the value the guard carries
    /// back into the cell and leaving it unborrowed.
    pub fn release_mut(&mut self, guard: RefMut<T>)
        requires
            old(self).wf(),
            old(self)@.is_exclusive(),
        ensures
            final(self)@ == old(self)@.mut_released(guard@),
            final(self).wf(),
    {
        self.value = Some(RefMut::leak(guard));
        self.borrows = 0;
    }

    /// Returns the exclusive claim through a guard whose view was transformed
    /// by `RefMut::map` or recovered from `RefMut::filter_map`: `rebuild`
    /// turns the transformed view back into a whole value, which the cell
    /// then holds, unborrowed.
    pub fn release_mut_with<U, F: FnOnce(U) -> T>(&mut self, guard: RefMut<U>, rebuild: F)
        requires
            old(self).wf(),
            old(self)@.is_exclusive(),
            call_requires(rebuild, (guard@,)),
        ensures
            final(self)@.is_unborrowed(),
            final(self)@.value is Some,
            call_ensures(rebuild, (guard@,), final(self)@.val()),
            final(self).wf(),
    {
        self.value = Some(rebuild(RefMut::leak(guard)));
        self.borrows = 0;
    }

    /// Returns the exclusive claim through the two halves produced by
    /// `RefMut::map_split`: `rebuild` joins the halves back into a whole
    /// value, which the cell then holds, unborrowed.
    pub fn release_mut_pair<U, V, F: FnOnce(U, V) -> T>(
        &mut self,
        left: RefMut<U>,
        right: RefMut<V>,
        rebuild: F,
    )
        requires
            old(self).wf(),
            old(self)@.is_exclusive(),
            call_requires(rebuild, (left@, right@)),
        ensures
            final(self)@.is_unborrowed(),
            final(self)@.value is Some,
            call_ensures(rebuild, (left@, right@), final(self)@.val()),
            final(self).wf(),
    {
        self.value = Some(rebuild(RefMut::leak(left), RefMut::leak(right)));
        self.borrows = 0;
    }

    /// Replaces the wrapped value with `t`, returning the old value. The
    /// operation internally takes and returns the exclusive claim, so it
    /// fails — leaving the cell untouched and dropping `t` — exactly when the
    /// cell is not unborrowed.
    pub fn replace(&mut self, t: T) -> (r: Result<T, BorrowError>)
        requires
            old(self).wf(),
        ensures
            r is Ok <==> old(self)@.can_borrow_mut(),
            r matches Ok(v) ==> v == old(self)@.val() && final(self)@ == old(self)@.replaced(t),
            r is Err ==> final(self)@ == old(self)@,
            r matches Err(e) ==> e.message is None,
            final(self).wf(),
    {
        if self.borrows == 0 {
            let mut slot = Some(t);
            core::mem::swap(&mut self.value, &mut slot);
            Ok(slot.unwrap())
        } else {
            Err(BorrowError { message: None })
        }
    }

    /// Like [`Self::replace`], but a failure carries `msg` as its diagnostic
    /// message.
    pub fn replace_expect(&mut self, t: T, msg: &str) -> (r: Result<T, BorrowError>)
        requires
            old(self).wf(),
        ensures
            r is Ok <==> old(self)@.can_borrow_mut(),
            r matches Ok(v) ==> v == old(self)@.val() && final(self)@ == old(self)@.replaced(t),
            r is Err ==> final(self)@ == old(self)@,
            r matches Err(e) ==> (e.message matches Some(m) && m@ == msg@),
            final(self).wf(),
    {
        if self.borrows == 0 {
            let mut slot = Some(t);
            core::mem::swap(&mut self.value, &mut slot);
            Ok(slot.unwrap())
        } else {
            Err(BorrowError { message: Some(msg.to_owned()) })
        }
    }

    /// Replaces the wrapped value with one computed from it by `f`, returning
    /// the old value. Fails, leaving the cell untouched, exactly when the
    /// cell is not unborrowed; `f` is then never called.
    pub fn replace_with<F: FnOnce(&T) -> T>(&mut self, f: F) -> (r: Result<T, BorrowError>)
        requires
            old(self).wf(),
            old(self)@.can_borrow_mut() ==> call_requires(f, (&old(self)@.val(),)),
        ensures
            r is Ok <==> old(self)@.can_borrow_mut(),
            r matches Ok(v) ==> v == old(self)@.val() && final(self)@.is_unborrowed()
                && final(self)@.value is Some
                && call_ensures(f, (&old(self)@.val(),), final(self)@.val()),
            r is Err ==> final(self)@ == old(self)@,
            r matches Err(e) ==> e.message is None,
            final(self).wf(),
    {
        if self.borrows == 0 {
            let old_value = self.value.take().unwrap();
            let new_value = f(&old_value);
            self.value = Some(new_value);
            Ok(old_value)
        } else {
            Err(BorrowError { message: None })
        }
    }

    /// Like [`Self::replace_with`], but a failure carries `msg` as its
    /// diagnostic message.
    pub fn replace_with_expect<F: FnOnce(&T) -> T>(&mut self, f: F, msg: &str) -> (r: Result<
        T,
        BorrowError,
    >)
        requires
            old(self).wf(),
            old(self)@.can_borrow_mut() ==> call_requires(f, (&old(self)@.val(),)),
        ensures
            r is Ok <==> old(self)@.can_borrow_mut(),
            r matches Ok(v) ==> v == old(self)@.val() && final(self)@.is_unborrowed()
                && final(self)@.value is Some
                && call_ensures(f, (&old(self)@.val(),), final(self)@.val()),
            r is Err ==> final(self)@ == old(self)@,
            r matches Err(e) ==> (e.message matches Some(m) && m@ == msg@),
            final(self).wf(),
    {
        if self.borrows == 0 {
            let old_value = self.value.take().unwrap();
            let new_value = f(&old_value);
            self.value = Some(new_value);
            Ok(old_value)
        } else {
            Err(BorrowError { message: Some(msg.to_owned()) })
        }
    }

    /// Swaps the wrapped values of two cells. The operation internally takes
    /// the exclusive claim of both, so it fails, leaving both untouched,
    /// unless both cells are unborrowed.
    ///
    /// Swapping a cell with itself is unrepresentable here: the two mutable
    /// borrows this signature takes are statically distinct, so the
    /// self-swap question is settled at compile time rather than by a runtime
    /// rule.
    pub fn swap(&mut self, other: &mut Self) -> (r: Result<(), BorrowError>)
        requires
            old(self).wf(),
            old(other).wf(),
        ensures
            r is Ok <==> old(self)@.can_borrow_mut() && old(other)@.can_borrow_mut(),
            r is Ok ==> final(self)@ == old(self)@.replaced(old(other)@.val()) && final(other)@
                == old(other)@.replaced(old(self)@.val()),
            r is Err ==> final(self)@ == old(self)@ && final(other)@ == old(other)@,
            r matches Err(e) ==> e.message is None,
            final(self).wf(),
            final(other).wf(),
    {
        if self.borrows == 0 && other.borrows == 0 {
            core::mem::swap(&mut self.value, &mut other.value);
            Ok(())
        } else {
            Err(BorrowError { message: None })
        }
    }

    /// Like [`Self::swap`], but a failure carries `msg` as its diagnostic
    /// message.
    pub fn swap_expect(&mut self, other: &mut Self, msg: &str) -> (r: Result<(), BorrowError>)
        requires
            old(self).wf(),
            old(other).wf(),
        ensures
            r is Ok <==> old(self)@.can_borrow_mut() && old(other)@.can_borrow_mut(),
            r is Ok ==> final(self)@ == old(self)@.replaced(old(other)@.val()) && final(other)@
                == old(other)@.replaced(old(self)@.val()),
            r is Err ==> final(self)@ == old(self)@ && final(other)@ == old(other)@,
            r matches Err(e) ==> (e.message matches Some(m) && m@ == msg@),
            final(self).wf(),
            final(other).wf(),
    {
        if self.borrows == 0 && other.borrows == 0 {
            core::mem::swap(&mut self.value, &mut other.value);
            Ok(())
        } else {
            Err(BorrowError { message: Some(msg.to_owned()) })
        }
    }

    /// Exclusively borrows the wrapped value: the cell's sole exclusive claim
    /// is taken and the value moves into the returned guard. Fails, leaving
    /// the cell untouched, exactly when the cell is not unborrowed.
    pub fn borrow_mut(&mut self) -> (r: Result<RefMut<T>, BorrowError>)
        requires
            old(self).wf(),
        ensures
            r is Ok <==> old(self)@.can_borrow_mut(),
            r matches Ok(g) ==> final(self)@ == old(self)@.mut_borrowed() && g@ == old(self)@.val(),
            r matches Err(e) ==> final(self)@ == old(self)@ && e.message is None,
            final(self).wf(),
    {
        if self.borrows == 0 {
            let value = self.value.take();
            self.borrows = -1;
            Ok(RefMut::make(value.unwrap()))
        } else {
            Err(BorrowError { message: None })
        }
    }

    /// Like [`Self::borrow_mut`], but a failure carries `msg` as its
    /// diagnostic message.
    pub fn borrow_mut_expect(&mut self, msg: &str) -> (r: Result<RefMut<T>, BorrowError>)
        requires
            old(self).wf(),
        ensures
            r is Ok <==> old(self)@.can_borrow_mut(),
            r matches Ok(g) ==> final(self)@ == old(self)@.mut_borrowed() && g@ == old(self)@.val(),
            r matches Err(e) ==> final(self)@ == old(self)@ && (e.message matches Some(m) && m@ == msg@),
            final(self).wf(),
    {
        if self.borrows == 0 {
            let value = self.value.take();
            self.borrows = -1;
            Ok(RefMut::make(value.unwrap()))
        } else {
            Err(BorrowError { message: Some(msg.to_owned()) })
        }
    }
}

impl<T: Copy> DcRefCell<T> {
    /// Takes one shared claim on the wrapped value, which the returned guard
    /// then observes. Fails, leaving the cell untouched, exactly when the
    /// exclusive claim is out.
    pub fn borrow(&mut self) -> (r: Result<Ref<T>, BorrowError>)
        requires
            old(self).wf(),
            old(self)@.borrows < i64::MAX,
        ensures
            r is Ok <==> old(self)@.can_borrow(),
            r matches Ok(g) ==> final(self)@ == old(self)@.borrowed() && g@ == old(self)@.val(),
            r matches Err(e) ==> final(self)@ == old(self)@ && e.message is None,
            final(self).wf(),
    {
        if self.borrows >= 0 {
            let observed = match &self.value {
                Some(v) => *v,
                None => vstd::pervasive::unreached(),
            };
            self.borrows = self.borrows + 1;
            Ok(Ref::make(observed))
        } else {
            Err(BorrowError { message: None })
        }
    }

    /// Like [`Self::borrow`], but a failure carries `msg` as its diagnostic
    /// message.
    pub fn borrow_expect(&mut self, msg: &str) -> (r: Result<Ref<T>, BorrowError>)
        requires
            old(self).wf(),
            old(self)@.borrows < i64::MAX,
        ensures
            r is Ok <==> old(self)@.can_borrow(),
            r matches Ok(g) ==> final(self)@ == old(self)@.borrowed() && g@ == old(self)@.val(),
            r matches Err(e) ==> final(self)@ == old(self)@ && (e.message matches Some(m) && m@ == msg@),
            final(self).wf(),
    {
        if self.borrows >= 0 {
            let observed = match &self.value {
                Some(v) => *v,
                None => vstd::pervasive::unreached(),
            };
            self.borrows = self.borrows + 1;
            Ok(Ref::make(observed))
        } else {
            Err(BorrowError { message: Some(msg.to_owned()) })
        }
    }
}

impl<T: Clone> DcRefCell<T> {
    /// Returns a new, unborrowed cell around a copy of the wrapped value.
    /// The copy is taken under an internal exclusive claim, so the operation
    /// fails exactly when the cell is not unborrowed.
    pub fn clone(&self) -> (r: Result<Self, BorrowError>)
        requires
            self.wf(),
        ensures
            r is Ok <==> self@.can_borrow_mut(),
            r matches Ok(c) ==> c@.borrows == 0 && c@.value is Some && cloned::<T>(
                self@.val(),
                c@.val(),
            ),
            r matches Err(e) ==> e.message is None,
    {
        if self.borrows == 0 {
            match &self.value {
                Some(v) => Ok(Self::new(v.clone())),
                None => vstd::pervasive::unreached(),
            }
        } else {
            Err(BorrowError { message: None })
        }
    }

    /// Like [`Self::clone`], but a failure carries `msg` as its diagnostic
    /// message.
    pub fn clone_expect(&self, msg: &str) -> (r: Result<Self, BorrowError>)
        requires
            self.wf(),
        ensures
            r is Ok <==> self@.can_borrow_mut(),
            r matches Ok(c) ==> c@.borrows == 0 && c@.value is Some && cloned::<T>(
                self@.val(),
                c@.val(),
            ),
            r matches Err(e) ==> (e.message matches Some(m) && m@ == msg@),
    {
        if self.borrows == 0 {
            match &self.value {
                Some(v) => Ok(Self::new(v.clone())),
                None => vstd::pervasive::unreached(),
            }
        } else {
            Err(BorrowError { message: Some(msg.to_owned()) })
        }
    }

    /// Returns a new, unborrowed cell around a copy of the wrapped value,
    /// taken through exclusive access to the cell itself rather than a
    /// claim — like [`Self::get_mut`], this needs no borrow check beyond the
    /// requirement that the value has not been moved out.
    pub fn clone_mut(&mut self) -> (r: Self)
        requires
            old(self).wf(),
            !old(self)@.is_exclusive(),
        ensures
            final(self)@ == old(self)@,
            r@.borrows == 0,
            r@.value is Some,
            cloned::<T>(old(self)@.val(), r@.val()),
    {
        match &self.value {
            Some(v) => Self::new(v.clone()),
            None => vstd::pervasive::unreached(),
        }
    }
}

impl<T: PartialEq> DcRefCell<T> {
    /// Tests the wrapped values of two cells for equality. Each value is read
    /// under an internal shared claim, so the operation fails exactly when
    /// either cell is exclusively borrowed.
    pub fn eq(&self, other: &Self) -> (r: Result<bool, BorrowError>)
        requires
            self.wf(),
            other.wf(),
        ensures
            r is Ok <==> self@.can_borrow() && other@.can_borrow(),
            r matches Ok(b) ==> (T::obeys_eq_spec() ==> b == self@.val().eq_spec(&other@.val())),
            r matches Err(e) ==> e.message is None,
    {
        if self.borrows >= 0 && other.borrows >= 0 {
            match (&self.value, &other.value) {
                (Some(a), Some(b)) => Ok(a == b),
                _ => vstd::pervasive::unreached(),
            }
        } else {
            Err(BorrowError { message: None })
        }
    }

    /// Like [`Self::eq`], but a failure carries `msg` as its diagnostic
    /// message.
    pub fn eq_expect(&self, other: &Self, msg: &str) -> (r: Result<bool, BorrowError>)
        requires
            self.wf(),
            other.wf(),
        ensures
            r is Ok <==> self@.can_borrow() && other@.can_borrow(),
            r matches Ok(b) ==> (T::obeys_eq_spec() ==> b == self@.val().eq_spec(&other@.val())),
            r matches Err(e) ==> (e.message matches Some(m) && m@ == msg@),
    {
        if self.borrows >= 0 && other.borrows >= 0 {
            match (&self.value, &other.value) {
                (Some(a), Some(b)) => Ok(a == b),
                _ => vstd::pervasive::unreached(),
            }
        } else {
            Err(BorrowError { message: Some(msg.to_owned()) })
        }
    }
}

impl<T: PartialOrd> DcRefCell<T> {
    /// Returns an ordering between the wrapped values of two cells, if one
    /// exists. Each value is read under an internal shared claim, so the
    /// operation fails exactly when either cell is exclusively borrowed.
    pub fn partial_cmp(&self, other: &Self) -> (r: Result<
        Option<core::cmp::Ordering>,
        BorrowError,
    >)
        requires
            self.wf(),
            other.wf(),
        ensures
            r is Ok <==> self@.can_borrow() && other@.can_borrow(),
            r matches Ok(o) ==> (T::obeys_partial_cmp_spec() ==> o == self@.val().partial_cmp_spec(
                &other@.val(),
            )),
            r matches Err(e) ==> e.message is None,
    {
        if self.borrows >= 0 && other.borrows >= 0 {
            match (&self.value, &other.value) {
                (Some(a), Some(b)) => Ok(a.partial_cmp(b)),
                _ => vstd::pervasive::unreached(),
            }
        } else {
            Err(BorrowError { message: None })
        }
    }

    /// Like [`Self::partial_cmp`], but a failure carries `msg` as its
    /// diagnostic message.
    pub fn partial_cmp_expect(&self, other: &Self, msg: &str) -> (r: Result<
        Option<core::cmp::Ordering>,
        BorrowError,
    >)
        requires
            self.wf(),
            other.wf(),
        ensures
            r is Ok <==> self@.can_borrow() && other@.can_borrow(),
            r matches Ok(o) ==> (T::obeys_partial_cmp_spec() ==> o == self@.val().partial_cmp_spec(
                &other@.val(),
            )),
            r matches Err(e) ==> (e.message matches Some(m) && m@ == msg@),
    {
        if self.borrows >= 0 && other.borrows >= 0 {
            match (&self.value, &other.value) {
                (Some(a), Some(b)) => Ok(a.partial_cmp(b)),
                _ => vstd::pervasive::unreached(),
            }
        } else {
            Err(BorrowError { message: Some(msg.to_owned()) })
        }
    }

    /// Tests whether the wrapped value of `self` is ordered strictly before that of `other`.
    /// Each value is read under an internal shared claim, so the operation
    /// fails exactly when either cell is exclusively borrowed.
    pub fn lt(&self, other: &Self) -> (r: Result<bool, BorrowError>)
        requires
            self.wf(),
            other.wf(),
        ensures
            r is Ok <==> self@.can_borrow() && other@.can_borrow(),
            r matches Ok(b) ==> (T::obeys_partial_cmp_spec() ==> (b <==> self@.val().partial_cmp_spec(
                &other@.val(),
            ) == Some(core::cmp::Ordering::Less))),
            r matches Err(e) ==> e.message is None,
    {
        if self.borrows >= 0 && other.borrows >= 0 {
            match (&self.value, &other.value) {
                (Some(a), Some(b)) => Ok(a.lt(b)),
                _ => vstd::pervasive::unreached(),
            }
        } else {
            Err(BorrowError { message: None })
        }
    }

    /// Like [`Self::lt`], but a failure carries `msg` as its diagnostic
    /// message.
    pub fn lt_expect(&self, other: &Self, msg: &str) -> (r: Result<bool, BorrowError>)
        requires
            self.wf(),
            other.wf(),
        ensures
            r is Ok <==> self@.can_borrow() && other@.can_borrow(),
            r matches Ok(b) ==> (T::obeys_partial_cmp_spec() ==> (b <==> self@.val().partial_cmp_spec(
                &other@.val(),
            ) == Some(core::cmp::Ordering::Less))),
            r matches Err(e) ==> (e.message matches Some(m) && m@ == msg@),
    {
        if self.borrows >= 0 && other.borrows >= 0 {
            match (&self.value, &other.value) {
                (Some(a), Some(b)) => Ok(a.lt(b)),
                _ => vstd::pervasive::unreached(),
            }
        } else {
            Err(BorrowError { message: Some(msg.to_owned()) })
        }
    }

    /// Tests whether the wrapped value of `self` is ordered before or the same as that of `other`.
    /// Each value is read under an internal shared claim, so the operation
    /// fails exactly when either cell is exclusively borrowed.
    pub fn le(&self, other: &Self) -> (r: Result<bool, BorrowError>)
        requires
            self.wf(),
            other.wf(),
        ensures
            r is Ok <==> self@.can_borrow() && other@.can_borrow(),
            r matches Ok(b) ==> (T::obeys_partial_cmp_spec() ==> (b <==> (self@.val().partial_cmp_spec(
                &other@.val(),
            ) matches Some(core::cmp::Ordering::Less | core::cmp::Ordering::Equal)))),
            r matches Err(e) ==> e.message is None,
    {
        if self.borrows >= 0 && other.borrows >= 0 {
            match (&self.value, &other.value) {
                (Some(a), Some(b)) => Ok(a.le(b)),
                _ => vstd::pervasive::unreached(),
            }
        } else {
            Err(BorrowError { message: None })
        }
    }

    /// Like [`Self::le`], but a failure carries `msg` as its diagnostic
    /// message.
    pub fn le_expect(&self, other: &Self, msg: &str) -> (r: Result<bool, BorrowError>)
        requires
            self.wf(),
            other.wf(),
        ensures
            r is Ok <==> self@.can_borrow() && other@.can_borrow(),
            r matches Ok(b) ==> (T::obeys_partial_cmp_spec() ==> (b <==> (self@.val().partial_cmp_spec(
                &other@.val(),
            ) matches Some(core::cmp::Ordering::Less | core::cmp::Ordering::Equal)))),
            r matches Err(e) ==> (e.message matches Some(m) && m@ == msg@),
    {
        if self.borrows >= 0 && other.borrows >= 0 {
            match (&self.value, &other.value) {
                (Some(a), Some(b)) => Ok(a.le(b)),
                _ => vstd::pervasive::unreached(),
            }
        } else {
            Err(BorrowError { message: Some(msg.to_owned()) })
        }
    }

    /// Tests whether the wrapped value of `self` is ordered strictly after that of `other`.
    /// Each value is read under an internal shared claim, so the operation
    /// fails exactly when either cell is exclusively borrowed.
    pub fn gt(&self, other: &Self) -> (r: Result<bool, BorrowError>)
        requires
            self.wf(),
            other.wf(),
        ensures
            r is Ok <==> self@.can_borrow() && other@.can_borrow(),
            r matches Ok(b) ==> (T::obeys_partial_cmp_spec() ==> (b <==> self@.val().partial_cmp_spec(
                &other@.val(),
            ) == Some(core::cmp::Ordering::Greater))),
            r matches Err(e) ==> e.message is None,
    {
        if self.borrows >= 0 && other.borrows >= 0 {
            match (&self.value, &other.value) {
                (Some(a), Some(b)) => Ok(a.gt(b)),
                _ => vstd::pervasive::unreached(),
            }
        } else {
            Err(BorrowError { message: None })
        }
    }

    /// Like [`Self::gt`], but a failure carries `msg` as its diagnostic
    /// message.
    pub fn gt_expect(&self, other: &Self, msg: &str) -> (r: Result<bool, BorrowError>)
        requires
            self.wf(),
            other.wf(),
        ensures
            r is Ok <==> self@.can_borrow() && other@.can_borrow(),
            r matches Ok(b) ==> (T::obeys_partial_cmp_spec() ==> (b <==> self@.val().partial_cmp_spec(
                &other@.val(),
            ) == Some(core::cmp::Ordering::Greater))),
            r matches Err(e) ==> (e.message matches Some(m) && m@ == msg@),
    {
        if self.borrows >= 0 && other.borrows >= 0 {
            match (&self.value, &other.value) {
                (Some(a), Some(b)) => Ok(a.gt(b)),
                _ => vstd::pervasive::unreached(),
            }
        } else {
            Err(BorrowError { message: Some(msg.to_owned()) })
        }
    }

    /// Tests whether the wrapped value of `self` is ordered after or the same as that of `other`.
    /// Each value is read under an internal shared claim, so the operation
    /// fails exactly when either cell is exclusively borrowed.
    pub fn ge(&self, other: &Self) -> (r: Result<bool, BorrowError>)
        requires
            self.wf(),
            other.wf(),
        ensures
            r is Ok <==> self@.can_borrow() && other@.can_borrow(),
            r matches Ok(b) ==> (T::obeys_partial_cmp_spec() ==> (b <==> (self@.val().partial_cmp_spec(
                &other@.val(),
            ) matches Some(core::cmp::Ordering::Greater | core::cmp::Ordering::Equal)))),
            r matches Err(e) ==> e.message is None,
    {
        if self.borrows >= 0 && other.borrows >= 0 {
            match (&self.value, &other.value) {
                (Some(a), Some(b)) => Ok(a.ge(b)),
                _ => vstd::pervasive::unreached(),
            }
        } else {
            Err(BorrowError { message: None })
        }
    }

    /// Like [`Self::ge`], but a failure carries `msg` as its diagnostic
    /// message.
    pub fn ge_expect(&self, other: &Self, msg: &str) -> (r: Result<bool, BorrowError>)
        requires
            self.wf(),
            other.wf(),
        ensures
            r is Ok <==> self@.can_borrow() && other@.can_borrow(),
            r matches Ok(b) ==> (T::obeys_partial_cmp_spec() ==> (b <==> (self@.val().partial_cmp_spec(
                &other@.val(),
            ) matches Some(core::cmp::Ordering::Greater | core::cmp::Ordering::Equal)))),
            r matches Err(e) ==> (e.message matches Some(m) && m@ == msg@),
    {
        if self.borrows >= 0 && other.borrows >= 0 {
            match (&self.value, &other.value) {
                (Some(a), Some(b)) => Ok(a.ge(b)),
                _ => vstd::pervasive::unreached(),
            }
        } else {
            Err(BorrowError { message: Some(msg.to_owned()) })
        }
    }
}

impl<T: Ord> DcRefCell<T> {
    /// Returns the total ordering between the wrapped values of two cells.
    /// Each value is read under an internal shared claim, so the operation
    /// fails exactly when either cell is exclusively borrowed.
    pub fn cmp(&self, other: &Self) -> (r: Result<core::cmp::Ordering, BorrowError>)
        requires
            self.wf(),
            other.wf(),
        ensures
            r is Ok <==> self@.can_borrow() && other@.can_borrow(),
            r matches Ok(o) ==> (T::obeys_cmp_spec() ==> o == self@.val().cmp_spec(&other@.val())),
            r matches Err(e) ==> e.message is None,
    {
        if self.borrows >= 0 && other.borrows >= 0 {
            match (&self.value, &other.value) {
                (Some(a), Some(b)) => Ok(a.cmp(b)),
                _ => vstd::pervasive::unreached(),
            }
        } else {
            Err(BorrowError { message: None })
        }
    }

    /// Like [`Self::cmp`], but a failure carries `msg` as its diagnostic
    /// message.
    pub fn cmp_expect(&self, other: &Self, msg: &str) -> (r: Result<
        core::cmp::Ordering,
        BorrowError,
    >)
        requires
            self.wf(),
            other.wf(),
        ensures
            r is Ok <==> self@.can_borrow() && other@.can_borrow(),
            r matches Ok(o) ==> (T::obeys_cmp_spec() ==> o == self@.val().cmp_spec(&other@.val())),
            r matches Err(e) ==> (e.message matches Some(m) && m@ == msg@),
    {
        if self.borrows >= 0 && other.borrows >= 0 {
            match (&self.value, &other.value) {
                (Some(a), Some(b)) => Ok(a.cmp(b)),
                _ => vstd::pervasive::unreached(),
            }
        } else {
            Err(BorrowError { message: Some(msg.to_owned()) })
        }
    }
}

impl<T: Default> Default for DcRefCell<T> {
    /// Creates a new, unborrowed cell around the default value of `T`.
    fn default() -> (r: Self)
        ensures
            r@.borrows == 0,
            r@.value is Some,
            call_ensures(T::default, (), r@.val()),
            r.wf(),
    {
        Self::new(T::default())
    }
}

impl<T> From<T> for DcRefCell<T> {
    /// Creates a new, unborrowed cell containing the given value, as
    /// [`Self::new`] does.
    fn from(value: T) -> (r: Self)
        ensures
            r@ == CellModel::init(value),
            r.wf(),
    {
        DcRefCell { value: Some(value), borrows: 0 }
    }
}

impl<T> vstd::std_specs::convert::FromSpecImpl<T> for DcRefCell<T> {
    open spec fn obeys_from_spec() -> bool {
        true
    }

    closed spec fn from_spec(v: T) -> Self {
        DcRefCell { value: Some(v), borrows: 0 }
    }
}

} // verus!
