//! Wake handles and the polling context.
//!
//! On the target, a waker is a tagged pointer to an atomic ready flag; waking
//! stores `true` into that flag.  Here a waker is the [`WakeHandle`] naming
//! the flag, and the store is deferred: every wake issued while a computation
//! is polled is collected in a [`Context`], and the executor applies the
//! collected wakes to its flags once the poll returns.

use vstd::prelude::*;

verus! {

/// Names a notification flag: either the main computation's flag owned by
/// `block_on`, or the ready flag of spawned task `i`.
#[derive(Clone, Copy, Debug, PartialEq, Eq, Structural)]
pub enum WakeHandle {
    /// The main computation's flag.
    Main,
    /// The ready flag of the spawned task with this index.
    Task(usize),
}

/// What a single poll may do to the scheduler: wake flags and set the
/// event latch.  `me` is the waker handed to the polled computation; cloning
/// the waker amounts to copying this handle.
pub struct Context {
    /// The handle of the computation being polled.
    pub me: WakeHandle,
    /// Wake requests issued during the poll, in order.
    pub wakes: Vec<WakeHandle>,
    /// Whether the event latch was signalled during the poll, so that the
    /// next sleep attempt returns immediately.
    pub event: bool,
}

impl Context {
    /// A fresh context for polling the computation behind `me`.
    pub fn new(me: WakeHandle) -> (r: Context)
        ensures
            r.me == me,
            r.wakes@ == Seq::<WakeHandle>::empty(),
            r.event == false,
    {
        Context { me, wakes: Vec::new(), event: false }
    }

    /// The waker of the computation being polled, as `cx.waker()` hands the
    /// real waker out.
    pub fn waker(&self) -> (r: WakeHandle)
        ensures
            r == self.me,
    {
        self.me
    }

    /// Requests a wake of the flag behind `h`.
    pub fn wake(&mut self, h: WakeHandle)
        ensures
            final(self).me == old(self).me,
            final(self).wakes@ == old(self).wakes@.push(h),
            final(self).event == old(self).event,
    {
        self.wakes.push(h);
    }

    /// Requests a wake of the caller's own flag, as `waker().wake_by_ref()`
    /// does.
    pub fn wake_self(&mut self)
        ensures
            final(self).me == old(self).me,
            final(self).wakes@ == old(self).wakes@.push(old(self).me),
            final(self).event == old(self).event,
    {
        let h = self.me;
        self.wakes.push(h);
    }

    /// Signals the event latch, so that the next sleep attempt is skipped.
    pub fn signal_event(&mut self)
        ensures
            final(self).me == old(self).me,
            final(self).wakes@ == old(self).wakes@,
            final(self).event == true,
    {
        self.event = true;
    }
}

} // verus!
