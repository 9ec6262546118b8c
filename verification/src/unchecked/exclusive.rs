//! The exclusive (read-write) guard of the unchecked profile.

use vstd::prelude::*;

verus! {

/// The sole exclusive claim against a [`super::DcRefCell`], owning the
/// wrapped value for as long as the claim lives.
///
/// The value moves out of the cell when the claim is taken and moves back
/// when the guard is returned through [`super::DcRefCell::release_mut`] (or
/// one of its rebuilding variants, after a transformation). Because each
/// guard owns its view outright, the views produced by `map_split` are
/// disjoint by construction.
#[derive(Debug)]
pub struct RefMut<T> {
    value: T,
}

impl<T> View for RefMut<T> {
    type V = T;

    closed spec fn view(&self) -> T {
        self.value
    }
}

impl<T> RefMut<T> {
    /// Wraps a carried value in a guard. Only the cell's own borrow
    /// operations and the guard transformations below create guards.
    pub(crate) fn make(value: T) -> (r: Self)
        ensures
            r@ == value,
    {
        RefMut { value }
    }

    /// The value this guard carries.
    pub fn get(&self) -> (r: &T)
        ensures
            *r == self@,
    {
        &self.value
    }

    /// A mutable reference to the carried value.
    pub fn get_mut(&mut self) -> (r: &mut T)
        ensures
            *r == old(self)@,
            final(self)@ == *final(r),
    {
        &mut self.value
    }

    /// Overwrites the carried value.
    pub fn set(&mut self, value: T)
        ensures
            final(self)@ == value,
    {
        self.value = value;
    }

    /// Overwrites the carried value, returning the previous one.
    pub fn replace(&mut self, value: T) -> (r: T)
        ensures
            r == old(self)@,
            final(self)@ == value,
    {
        let mut taken = value;
        core::mem::swap(&mut self.value, &mut taken);
        taken
    }

    /// Makes a new guard carrying a transformed view of the value, consuming
    /// the original: the claim transfers, the cell is untouched. The cell is
    /// later rebuilt from the transformed view through
    /// [`super::DcRefCell::release_mut_with`].
    pub fn map<U, F: FnOnce(T) -> U>(orig: Self, f: F) -> (r: RefMut<U>)
        requires
            call_requires(f, (orig@,)),
        ensures
            call_ensures(f, (orig@,), r@),
    {
        RefMut { value: f(orig.value) }
    }

    /// Makes a new guard for an optional transformed view; the closure hands
    /// the value back if no such view exists, and the guard is then rebuilt
    /// around it unchanged in shape. Either way the claim is preserved.
    pub fn filter_map<U, F: FnOnce(T) -> Result<U, T>>(orig: Self, f: F) -> (r: Result<
        RefMut<U>,
        RefMut<T>,
    >)
        requires
            call_requires(f, (orig@,)),
        ensures
            r matches Ok(g) ==> call_ensures(f, (orig@,), Ok::<U, T>(g@)),
            r matches Err(g) ==> call_ensures(f, (orig@,), Err::<U, T>(g@)),
    {
        match f(orig.value) {
            Ok(part) => Ok(RefMut { value: part }),
            Err(whole) => Err(RefMut { value: whole }),
        }
    }

    /// Splits one guard into two independently mutable guards for the two
    /// halves of the value. Each half is owned outright, so the two views
    /// cannot overlap; the cell stays exclusively borrowed until both are
    /// returned together through [`super::DcRefCell::release_mut_pair`].
    pub fn map_split<U, V, F: FnOnce(T) -> (U, V)>(orig: Self, f: F) -> (r: (RefMut<U>, RefMut<V>))
        requires
            call_requires(f, (orig@,)),
        ensures
            call_ensures(f, (orig@,), (r.0@, r.1@)),
    {
        let (left, right) = f(orig.value);
        (RefMut { value: left }, RefMut { value: right })
    }

    /// Converts the guard into the value it carries without returning the
    /// claim: the cell remains exclusively borrowed forever and its value
    /// slot stays empty.
    pub fn leak(orig: Self) -> (r: T)
        ensures
            r == orig@,
    {
        orig.value
    }
}

} // verus!
