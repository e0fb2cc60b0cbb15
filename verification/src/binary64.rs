//! Floating-point values as opaque bit patterns.
//!
//! The probes never compute with the measurements they pass on, so a
//! measurement travels through this crate as the 64 bits of its IEEE-754
//! binary64 form and is turned back into a number by whoever records it.

use vstd::prelude::*;

verus! {

/// A floating-point value, held as its IEEE-754 binary64 bit pattern.
#[derive(Clone, Copy, Debug, PartialEq, Eq, Structural)]
pub struct Binary64 {
    pub bits: u64,
}

impl Binary64 {
    /// Positive zero, whose bits are all clear.
    pub open spec fn zero_spec() -> Binary64 {
        Binary64 { bits: 0 }
    }

    /// Positive zero.
    #[verifier::when_used_as_spec(zero_spec)]
    pub fn zero() -> (r: Binary64)
        ensures
            r == Binary64::zero_spec(),
    {
        Binary64 { bits: 0 }
    }
}

} // verus!
