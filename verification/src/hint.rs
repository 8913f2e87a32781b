//! Branch-weight hints.
//!
//! These functions exist so that callers can mark the expected outcome of a
//! condition; they do not change the value they are given.

use vstd::prelude::*;

verus! {

/// A "dummy" function marking a code path that is not expected to be taken.
pub fn cold_path() {
}

/// Return the given `bool` value, marking `true` as the likely case.
pub fn likely(b: bool) -> (r: bool)
    ensures
        r == b,
{
    if b {
        true
    } else {
        cold_path();
        false
    }
}

/// Return the given `bool` value, marking `false` as the likely case.
pub fn unlikely(b: bool) -> (r: bool)
    ensures
        r == b,
{
    if b {
        cold_path();
        true
    } else {
        false
    }
}

} // verus!
