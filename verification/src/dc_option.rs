//! Extraction of the present variant of an optional value.
//!
//! The companion of the cell types for callers that know an option is
//! present: the knowledge is a precondition, so the extraction needs no
//! failure path. Where the borrow discipline of [`crate::checked`] reports a
//! violation at runtime, these operations make the violation unwritable, like
//! the [`crate::unchecked`] profile.

use vstd::prelude::*;

verus! {

/// Extraction of the value of an optional that is provably present.
pub trait DcOption: Sized {
    /// The type of the carried value.
    type Item;

    /// Whether the value is present.
    spec fn dc_present(self) -> bool;

    /// The carried value, meaningful when present.
    spec fn dc_value(self) -> Self::Item;

    /// Extracts the carried value, which the caller must establish is
    /// present.
    fn unwrap_dc(self) -> (r: Self::Item)
        requires
            self.dc_present(),
        ensures
            r == self.dc_value(),
    ;

    /// Like [`Self::unwrap_dc`]; the message is accepted for interface parity
    /// with the checked cell operations and never used, since presence is
    /// established statically.
    fn expect_dc(self, msg: &str) -> (r: Self::Item)
        requires
            self.dc_present(),
        ensures
            r == self.dc_value(),
    ;
}

impl<T> DcOption for Option<T> {
    type Item = T;

    open spec fn dc_present(self) -> bool {
        self is Some
    }

    open spec fn dc_value(self) -> T {
        self->0
    }

    fn unwrap_dc(self) -> (r: T) {
        self.unwrap()
    }

    fn expect_dc(self, _msg: &str) -> (r: T) {
        self.unwrap()
    }
}

} // verus!
