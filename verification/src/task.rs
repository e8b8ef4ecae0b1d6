//! The public task surface: `block_on`, `spawn` and the cooperative yield.

use vstd::prelude::*;

use crate::Fatal;
use crate::NTASKS;
use crate::executor::Executor;
use crate::executor::Workload;
use crate::wake::Context;

verus! {

/// Drives the workload's main computation to completion, polling every
/// spawned task as it becomes ready; see [`Executor::block_on`].
pub fn block_on<T, W: Workload<T>>(ex: &mut Executor, w: &mut W, max_rounds: usize) -> (r: Result<
    Option<T>,
    Fatal,
>)
    requires
        old(ex).wf(),
    ensures
        final(ex).wf(),
        (r == Err::<Option<T>, Fatal>(Fatal::BlockOnReentry)) <==> old(ex).in_block_on,
        old(ex).in_block_on ==> *final(ex) == *old(ex),
        !old(ex).in_block_on ==> {
            &&& !final(ex).in_block_on
            &&& final(ex).tasks@.len() == old(ex).tasks@.len()
            &&& (r is Err ==> r == Err::<Option<T>, Fatal>(Fatal::TaskCompleted))
        },
{
    ex.block_on(w, max_rounds)
}

/// Registers one more never-terminating task; see [`Executor::spawn`].
pub fn spawn(ex: &mut Executor) -> (r: Result<usize, Fatal>)
    requires
        old(ex).wf(),
    ensures
        final(ex).wf(),
        final(ex).in_block_on == old(ex).in_block_on,
        final(ex).main_ready == old(ex).main_ready,
        final(ex).event == old(ex).event,
        if old(ex).tasks@.len() < NTASKS {
            &&& r == Ok::<usize, Fatal>(old(ex).tasks@.len() as usize)
            &&& final(ex).tasks@.len() == old(ex).tasks@.len() + 1
            &&& final(ex).flags() == old(ex).flags().push(true)
        } else {
            &&& r == Err::<usize, Fatal>(Fatal::TaskTableFull)
            &&& *final(ex) == *old(ex)
        },
{
    ex.spawn()
}

/// A one-shot cooperative yield: pending on its first poll — waking its own
/// flag and signalling the event latch, so the task runs again after one
/// full round — and ready on the second.
pub struct Yield {
    /// Whether the operation already suspended once.
    pub yielded: bool,
}

/// Begins a cooperative yield.
pub fn yield_now() -> (f: Yield)
    ensures
        !f.yielded,
{
    Yield { yielded: false }
}

impl Yield {
    /// One poll of the yield.  Returns whether the yield is complete.
    pub fn poll(&mut self, cx: &mut Context) -> (r: bool)
        ensures
            final(self).yielded,
            r == old(self).yielded,
            if old(self).yielded {
                *final(cx) == *old(cx)
            } else {
                &&& final(cx).me == old(cx).me
                &&& final(cx).wakes@ == old(cx).wakes@.push(old(cx).me)
                &&& final(cx).event
            },
    {
        if self.yielded {
            true
        } else {
            self.yielded = true;
            cx.wake_self();
            cx.signal_event();
            false
        }
    }
}

} // verus!
