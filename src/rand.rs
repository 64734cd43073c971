use crate::error::Unspecified;
use vstd::prelude::*;

verus! {

/// A source of cryptographically secure random bytes.
pub trait SecureRandom {
    /// Fills `dest` with random bytes, or fails when no entropy can be had.
    fn fill(&self, dest: &mut [u8]) -> Result<(), Unspecified>;
}

} // verus!
