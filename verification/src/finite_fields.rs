//! Building blocks for finite fields.

use vstd::prelude::*;

verus! {

/// A wrapper around `u64` for primes.  Primality itself is not checked
/// here: the constructor trusts its caller, and testing candidates is the
/// business of an outside collaborator.
#[derive(Debug, Hash, PartialEq, Eq, Structural, Clone, Copy)]
pub struct Prime {
    /// The prime itself.
    pub val: u64,
}

impl Prime {
    /// Wraps a number that has already been confirmed prime.
    pub fn new(candidate: u64) -> (r: Self)
        ensures
            r.val == candidate,
    {
        Prime { val: candidate }
    }
}

} // verus!
