//! Waiting for an account to be linked.

use vstd::prelude::*;

verus! {

/// Why a wait for a linked account ended without one.
#[derive(Clone, Copy, Debug, PartialEq, Eq, Structural)]
pub enum AuthenticationStandbyError {
    /// The other side went away.
    Canceled,
    /// Nothing came in time.
    Timeout,
}

} // verus!
