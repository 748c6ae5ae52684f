//! Where the panel gets its random numbers.
use vstd::prelude::*;

verus! {

/// One call of `rand::random::<u32>()`: a fresh 32-bit number from the
/// thread-local generator. Nothing is claimed of the number, and two calls
/// need not agree.
#[verifier::external_body]
pub(crate) fn random_u32() -> u32 {
    rand::random::<u32>()
}

/// One call of `rand::random::<u8>()`: a fresh 8-bit number from the
/// thread-local generator. Nothing is claimed of the number, and two calls
/// need not agree.
#[verifier::external_body]
pub(crate) fn random_u8() -> u8 {
    rand::random::<u8>()
}

} // verus!
