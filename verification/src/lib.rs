//! A single-owner, dynamically-checked interior-mutability cell in two build
//! profiles, together with the guard types that carry its borrow claims.
//!
//! The [`checked`] profile tracks the borrow state in a runtime counter and
//! reports every violation of the aliasing discipline as a recoverable
//! [`checked::BorrowError`]. The [`unchecked`] profile keeps no runtime
//! bookkeeping at all: its borrow state is ghost, and the same discipline is
//! imposed on callers as `requires` clauses, so a violation is impossible in
//! verified code rather than detected at runtime. Both profiles implement the
//! one transition system described in [`cell_model`], so correct callers
//! cannot tell them apart.
//!
//! The extension traits [`DcOption`], [`DcResultOk`], [`DcResultErr`] and
//! [`DcSlice`] are stateless companions: extraction and indexing operations
//! whose preconditions make the extracted variant or index provably present,
//! so no failure path is needed.

use vstd::prelude::*;

pub mod cell_model;
pub mod checked;
pub mod unchecked;
mod dc_option;
mod dc_result;
mod dc_slice;

pub use dc_option::DcOption;
pub use dc_result::DcResultErr;
pub use dc_result::DcResultOk;
pub use dc_slice::DcSlice;

verus! {

/// Replaces the value behind `reference` with one computed from it by
/// `closure`, in place.
///
/// The closure's precondition is discharged statically, so it cannot fail
/// while the location is mid-update; no unwind safeguard is needed.
pub fn replace_with_dc<T, F: FnOnce(&T) -> T>(reference: &mut T, closure: F)
    requires
        call_requires(closure, (&*old(reference),)),
    ensures
        call_ensures(closure, (&*old(reference),), *final(reference)),
{
    let new_value = closure(&*reference);
    *reference = new_value;
}

} // verus!
