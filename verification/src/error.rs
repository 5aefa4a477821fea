//! Error kinds tracked by the boundary layer.
//!
//! The caller-visible contract of the boundary is that a bad call is a safe
//! no-op; internally every operation reports which kind of no-op it was, for
//! diagnostics and for tests.

use vstd::prelude::*;

verus! {

/// Why an operation did nothing.
#[derive(Clone, Copy, PartialEq, Eq, Structural, Debug)]
pub enum ApiError {
    /// The handle was null, stale, or already destroyed.
    InvalidHandle,
    /// A path was mutated or drawn again after a draw call consumed it.
    UseAfterFinish,
    /// A surface or path could not be allocated; the creation call returns
    /// null instead of aborting.
    AllocationFailure,
}

} // verus!
