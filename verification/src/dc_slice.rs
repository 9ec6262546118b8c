//! Indexed access into a sequence whose bound is provably respected.
//!
//! The companion of the cell types for callers that know an index is in
//! range: the knowledge is a precondition, so the access needs no failure
//! path.

use vstd::prelude::*;

verus! {

broadcast use vstd::slice::group_slice_axioms;

/// Access to an element at an index the caller must establish is in range.
pub trait DcSlice {
    /// The element type.
    type Elem;

    /// The elements, as a sequence.
    spec fn dc_seq(&self) -> Seq<Self::Elem>;

    /// The element at `index`, which the caller must establish is in range.
    fn get_dc(&self, index: usize) -> (r: &Self::Elem)
        requires
            index < self.dc_seq().len(),
        ensures
            *r == self.dc_seq()[index as int],
    ;

    /// Like [`Self::get_dc`]; the message is accepted for interface parity
    /// with the checked cell operations and never used, since the bound is
    /// established statically.
    fn get_expect_dc(&self, index: usize, msg: &str) -> (r: &Self::Elem)
        requires
            index < self.dc_seq().len(),
        ensures
            *r == self.dc_seq()[index as int],
    ;
}

impl<U> DcSlice for [U] {
    type Elem = U;

    open spec fn dc_seq(&self) -> Seq<U> {
        self@
    }

    fn get_dc(&self, index: usize) -> (r: &U) {
        match self.get(index) {
            Some(element) => element,
            None => vstd::pervasive::unreached(),
        }
    }

    fn get_expect_dc(&self, index: usize, _msg: &str) -> (r: &U) {
        match self.get(index) {
            Some(element) => element,
            None => vstd::pervasive::unreached(),
        }
    }
}

} // verus!
