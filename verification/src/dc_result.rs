//! Extraction of the chosen variant of a success-or-failure value.
//!
//! Companions of the cell types for callers that know which variant a result
//! holds: the knowledge is a precondition, so the extraction needs no failure
//! path.

use vstd::prelude::*;

verus! {

/// Extraction of the success value of a result that is provably successful.
pub trait DcResultOk: Sized {
    /// The success type.
    type T;

    /// The failure type.
    type E;

    /// Whether the value is a success.
    spec fn dc_is_ok(self) -> bool;

    /// The carried success value, meaningful on success.
    spec fn dc_ok_value(self) -> Self::T;

    /// Extracts the success value, which the caller must establish is there.
    fn unwrap_dc_ok(self) -> (r: Self::T)
        requires
            self.dc_is_ok(),
        ensures
            r == self.dc_ok_value(),
    ;

    /// Like [`Self::unwrap_dc_ok`]; the message is accepted for interface
    /// parity with the checked cell operations and never used.
    fn expect_dc_ok(self, msg: &str) -> (r: Self::T)
        requires
            self.dc_is_ok(),
        ensures
            r == self.dc_ok_value(),
    ;
}

/// Extraction of the failure value of a result that provably failed.
pub trait DcResultErr: Sized {
    /// The success type.
    type T;

    /// The failure type.
    type E;

    /// Whether the value is a failure.
    spec fn dc_is_err(self) -> bool;

    /// The carried failure value, meaningful on failure.
    spec fn dc_err_value(self) -> Self::E;

    /// Extracts the failure value, which the caller must establish is there.
    fn unwrap_dc_err(self) -> (r: Self::E)
        requires
            self.dc_is_err(),
        ensures
            r == self.dc_err_value(),
    ;

    /// Like [`Self::unwrap_dc_err`]; the message is accepted for interface
    /// parity with the checked cell operations and never used.
    fn expect_dc_err(self, msg: &str) -> (r: Self::E)
        requires
            self.dc_is_err(),
        ensures
            r == self.dc_err_value(),
    ;
}

impl<T, E> DcResultOk for Result<T, E> {
    type T = T;

    type E = E;

    open spec fn dc_is_ok(self) -> bool {
        self is Ok
    }

    open spec fn dc_ok_value(self) -> T {
        self->Ok_0
    }

    fn unwrap_dc_ok(self) -> (r: T) {
        match self {
            Ok(t) => t,
            Err(_) => vstd::pervasive::unreached(),
        }
    }

    fn expect_dc_ok(self, _msg: &str) -> (r: T) {
        match self {
            Ok(t) => t,
            Err(_) => vstd::pervasive::unreached(),
        }
    }
}

impl<T, E> DcResultErr for Result<T, E> {
    type T = T;

    type E = E;

    open spec fn dc_is_err(self) -> bool {
        self is Err
    }

    open spec fn dc_err_value(self) -> E {
        self->Err_0
    }

    fn unwrap_dc_err(self) -> (r: E) {
        match self {
            Ok(_) => vstd::pervasive::unreached(),
            Err(e) => e,
        }
    }

    fn expect_dc_err(self, _msg: &str) -> (r: E) {
        match self {
            Ok(_) => vstd::pervasive::unreached(),
            Err(e) => e,
        }
    }
}

} // verus!
