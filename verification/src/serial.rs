//! The serial interface singleton, split into transmitter and receiver.
//!
//! The DMA transfers are performed by the surrounding program; this module
//! holds the singleton accounting: the pair may be taken exactly once for
//! the process lifetime.

use vstd::prelude::*;

verus! {

/// [singleton] Transmitter half of the serial interface.
pub struct Tx {
    _private: (),
}

/// [singleton] Receiver half of the serial interface.
pub struct Rx {
    _private: (),
}

/// Takes the singleton serial interface, split into its transmitter and
/// receiver halves.  `taken` is the once-flag backing the claim; it starts
/// `false` and never returns to it.  A second take would panic on the
/// target, so the flag must still be clear.
pub fn take(taken: &mut bool) -> (r: (Tx, Rx))
    requires
        !*old(taken),
    ensures
        *final(taken),
{
    *taken = true;
    (Tx { _private: () }, Rx { _private: () })
}

} // verus!
