//! A cooperative async runtime for single-core, bare-metal targets.
//!
//! The crate verifies the runtime engine itself: the round-robin executor,
//! the bump arena backing the task records, the waker registry used by the
//! synchronization primitives, a bounded channel, a mutual-exclusion lock and
//! a one-shot yield.  The engine is a state machine over plain values; the
//! pieces it cannot own — the user computations that are polled, and the
//! processor's sleep and event instructions — sit behind the `Workload`
//! trait, which the surrounding program implements.
//!
//! Register-level peripheral drivers are consumers of this engine and are out
//! of scope here; only their pure decision logic (register codecs, bounds
//! checks, singleton accounting) lives in this crate.

use vstd::prelude::*;

pub mod wake;
pub mod arena;
pub mod channel;
pub mod ds3231;
pub mod executor;
pub mod mutex;
pub mod scd30;
pub mod serial;
pub mod task;
pub mod timer;
pub mod twim;
pub mod waker_set;

verus! {

/// Maximum number of spawned tasks; also bounds the channel capacity and the
/// waker-registry size.
pub const NTASKS: usize = 8;

/// Size in bytes of the bump arena out of which task records are allocated.
pub const ARENA_SIZE: usize = 1024;

/// Structural failures.  On the bare-metal target every one of these is
/// answered by the platform's divergent abort; the engine reports them as
/// values so that the caller owning the abort hook can do so.
#[derive(Clone, Copy, Debug, PartialEq, Eq, Structural)]
pub enum Fatal {
    /// `block_on` was entered while another `block_on` call was running.
    BlockOnReentry,
    /// `spawn` was called with the task table already at capacity.
    TaskTableFull,
    /// A waker registry was asked to hold more entries than it has slots.
    RegistryFull,
    /// A spawned task's computation returned instead of running forever.
    TaskCompleted,
    /// The bump arena cannot serve an allocation request.
    ArenaExhausted,
}

/// Start of the RAM region that the DMA engines can address.
pub const RAM_START: usize = 0x2000_0000;

/// Size in bytes of that RAM region.
pub const RAM_SIZE: usize = 128 * 1024;

/// First address past the RAM region.
pub const RAM_END: usize = RAM_START + RAM_SIZE;

/// Reports whether the byte range starting at `start` of length `len` lies
/// entirely inside the RAM region that peripherals can read from.
pub fn slice_in_ram(start: usize, len: usize) -> (r: bool)
    requires
        start + len <= usize::MAX,
    ensures
        r == (RAM_START <= start && start + len < RAM_END),
{
    RAM_START <= start && start + len < RAM_END
}

} // verus!
