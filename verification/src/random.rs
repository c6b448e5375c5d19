//! Where chance comes from.

use vstd::prelude::*;

verus! {

/// Draws 32 bits from the thread's generator of the `rand` crate (`rand::rng`,
/// then `RngCore::next_u32`). Nothing is claimed of the number.
#[verifier::external_body]
pub(crate) fn random_u32() -> u32 {
    rand::RngCore::next_u32(&mut rand::rng())
}

} // verus!
