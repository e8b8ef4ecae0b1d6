//! The I2C host (TWIM) singleton and its error taxonomy.
//!
//! The register-level transfers are performed by the surrounding program;
//! this module holds the driver's error type and the singleton accounting:
//! the instance may be taken exactly once for the process lifetime.

use vstd::prelude::*;

verus! {

/// I2C error.
#[derive(Clone, Copy, Debug, PartialEq, Eq, Structural)]
pub enum Error {
    /// Wrote less data than requested; carries the byte count written.
    ShortWrite(u8),
    /// Read less data than requested; carries the byte count read.
    ShortRead(u8),
    /// Hardware error, as encoded by the error-source register.
    Src(u8),
}

/// [singleton] The I2C host.  Only [`Twim::take`] produces an instance, and
/// only once, so at most one exists for the process lifetime.
pub struct Twim {
    _private: (),
}

impl Twim {
    /// Takes the singleton instance of this I2C host.  `taken` is the
    /// once-flag backing the claim; it starts `false` and never returns to
    /// it.  A second take would panic on the target, so the flag must still
    /// be clear.
    pub fn take(taken: &mut bool) -> (r: Twim)
        requires
            !*old(taken),
        ensures
            *final(taken),
    {
        *taken = true;
        Twim { _private: () }
    }
}

} // verus!
