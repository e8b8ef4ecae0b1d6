//! The mutual-exclusion lock: a non-reentrant binary latch with a waker
//! registry of waiters.
//!
//! Holding the lock is holding the [`MutexGuard`], which owns the protected
//! value while the lock is held; [`Mutex::unlock`] gives the value back and
//! notifies at most one waiter.  Because a guard can only be produced by a
//! successful `try_lock` and is consumed by `unlock`, at most one guard per
//! lock exists at any instant.
//!
//! Releasing uses `notify_any` rather than `notify_one`: only one waiter
//! can win the lock, so a second in-flight notification would be a wasted
//! wake.

use vstd::prelude::*;

use crate::Fatal;
use crate::NTASKS;
use crate::wake::Context;
use crate::waker_set::Slot;
use crate::waker_set::WakerSet;
use crate::waker_set::cancel_rel;
use crate::waker_set::entries_after_remove;
use crate::waker_set::first_vacant;
use crate::waker_set::removed_waiting;
use crate::waker_set::notify_any_rel;

verus! {

/// A mutual-exclusion lock protecting a value of type `T`.
///
/// The value sits in `slot` while the lock is free and moves into the
/// [`MutexGuard`] while it is held.
pub struct Mutex<T> {
    /// The protected value; `None` exactly while the lock is held.
    pub slot: Option<T>,
    /// Waiters blocked on the held lock.
    pub wakers: WakerSet,
}

/// The scoped handle of a held [`Mutex`]: owns the protected value until it
/// is handed back by [`Mutex::unlock`].  Only `try_lock` produces guards,
/// so at most one exists per lock at any instant.
pub struct MutexGuard<T> {
    value: T,
}

impl<T> View for MutexGuard<T> {
    type V = T;

    /// The protected value as the guard holds it.
    closed spec fn view(&self) -> T {
        self.value
    }
}

impl<T> MutexGuard<T> {
    /// Shared access to the protected value.
    pub fn get(&self) -> (r: &T)
        ensures
            *r == self@,
    {
        &self.value
    }

    /// Exclusive access to the protected value.
    pub fn get_mut(&mut self) -> (r: &mut T)
        ensures
            *r == old(self)@,
            final(self)@ == *final(r),
    {
        &mut self.value
    }
}

impl<T> Mutex<T> {
    /// Whether the lock is currently held.
    pub open spec fn locked(&self) -> bool {
        self.slot is None
    }

    /// The lock invariant: a well-formed waiter registry.
    pub open spec fn wf(&self) -> bool {
        self.wakers.wf()
    }

    /// Creates an unlocked mutex protecting `t`.
    pub fn new(t: T) -> (r: Mutex<T>)
        ensures
            r.wf(),
            !r.locked(),
            r.slot == Some(t),
            r.wakers.notifiable == 0,
            r.wakers.entries@ == Seq::new(NTASKS as nat, |i: int| Slot::Vacant),
    {
        Mutex { slot: Some(t), wakers: WakerSet::new() }
    }

    /// Attempts to acquire the lock: hands the guard out exactly when the
    /// lock is free.
    pub fn try_lock(&mut self) -> (r: Option<MutexGuard<T>>)
        ensures
            final(self).wakers == old(self).wakers,
            if old(self).locked() {
                &&& r is None
                &&& *final(self) == *old(self)
            } else {
                &&& r matches Some(g) && g@ == old(self).slot->Some_0
                &&& final(self).locked()
            },
    {
        match self.slot.take() {
            Some(v) => Some(MutexGuard { value: v }),
            None => None,
        }
    }

    /// Releases the lock: the guard's value moves back into the lock and,
    /// unless a notification is already in flight, the first waiter is
    /// woken.
    pub fn unlock(&mut self, g: MutexGuard<T>, cx: &mut Context)
        requires
            old(self).wf(),
            old(self).locked(),
        ensures
            final(self).wf(),
            !final(self).locked(),
            final(self).slot == Some(g@),
            notify_any_rel(
                old(self).wakers,
                final(self).wakers,
                old(cx).wakes@,
                final(cx).wakes@,
            ),
            final(cx).me == old(cx).me,
            final(cx).event == old(cx).event,
    {
        self.slot = Some(g.value);
        self.wakers.notify_any(cx);
    }

    /// Begins a lock acquisition: the returned operation is polled with the
    /// mutex until it hands the guard out.
    pub fn lock(&self) -> (f: LockFut)
        ensures
            f.key is None,
    {
        LockFut { key: None }
    }
}

/// A suspendable lock acquisition, the analog of the future returned by
/// `lock`.
pub struct LockFut {
    /// The key of this operation's entry in the lock's waiter registry,
    /// while it is suspended there.
    pub key: Option<usize>,
}

impl LockFut {
    /// Whether this operation's bookkeeping is consistent with the lock:
    /// while suspended, its key names a non-vacant entry of the registry.
    pub open spec fn wf_for<T>(&self, m: Mutex<T>) -> bool {
        self.key matches Some(k) ==> k < NTASKS && !(m.wakers.entries@[k as int] is Vacant)
    }

    /// One poll of the acquisition: de-registers, retries `try_lock`, and
    /// either hands the guard out (`Ok(Some(g))`), or re-registers with the
    /// caller's waker and suspends (`Ok(None)`).
    pub fn poll<T>(&mut self, m: &mut Mutex<T>, cx: &mut Context) -> (r: Result<
        Option<MutexGuard<T>>,
        Fatal,
    >)
        requires
            old(m).wf(),
            old(self).wf_for(*old(m)),
        ensures
            final(m).wf(),
            final(cx).me == old(cx).me,
            final(cx).event == old(cx).event,
            final(cx).wakes@ == old(cx).wakes@,
            match r {
                Ok(Some(g)) => {
                    &&& !old(m).locked()
                    &&& g@ == old(m).slot->Some_0
                    &&& final(m).locked()
                    &&& final(self).key is None
                    &&& final(m).wakers.entries@ == entries_after_remove(
                        old(m).wakers.entries@,
                        old(self).key,
                    )
                    &&& final(m).wakers.notifiable == old(m).wakers.notifiable - removed_waiting(
                        old(m).wakers.entries@,
                        old(self).key,
                    )
                },
                Ok(None) => {
                    &&& old(m).locked()
                    &&& final(m).locked()
                    &&& final(self).wf_for(*final(m))
                    &&& ({
                        let mid = entries_after_remove(old(m).wakers.entries@, old(self).key);
                        let k2 = first_vacant(mid);
                        &&& final(self).key == Some(k2 as usize)
                        &&& final(m).wakers.entries@ == mid.update(k2, Slot::Waiting(old(cx).me))
                        &&& final(m).wakers.notifiable == old(m).wakers.notifiable
                            - removed_waiting(old(m).wakers.entries@, old(self).key) + 1
                    })
                },
                Err(e) => {
                    &&& e == Fatal::RegistryFull
                    &&& old(m).locked()
                    &&& final(m).locked() == old(m).locked()
                },
            },
    {
        if let Some(k) = self.key {
            self.key = None;
            m.wakers.remove(k);
        }
        match m.try_lock() {
            Some(g) => Ok(Some(g)),
            None => {
                let me = cx.waker();
                match m.wakers.insert(me) {
                    Ok(k2) => {
                        self.key = Some(k2);
                        Ok(None)
                    },
                    Err(e) => Err(e),
                }
            },
        }
    }

    /// Cancels a suspended acquisition, as dropping the operation mid-wait
    /// does on the target: the registry entry is cleaned up and a pending
    /// notification, if this operation already absorbed one, is handed to
    /// another waiter.
    pub fn cancel<T>(&mut self, m: &mut Mutex<T>, cx: &mut Context)
        requires
            old(m).wf(),
            old(self).wf_for(*old(m)),
        ensures
            final(m).wf(),
            final(self).key is None,
            final(m).slot == old(m).slot,
            final(cx).me == old(cx).me,
            final(cx).event == old(cx).event,
            old(self).key is None ==> *final(m) == *old(m) && *final(cx) == *old(cx),
            old(self).key matches Some(k) ==> cancel_rel(
                old(m).wakers,
                final(m).wakers,
                k as int,
                old(cx).wakes@,
                final(cx).wakes@,
            ),
    {
        if let Some(k) = self.key {
            self.key = None;
            m.wakers.cancel(k, cx);
        }
    }
}

/// Law (release handoff): when a held lock with no notification in flight
/// and at least one waiter is released, [`Mutex::unlock`] — whose contract
/// is exactly the `notify_any` relation this lemma unfolds — wakes
/// precisely one waiter, the first waiting one, and spends exactly its
/// callback.  Together with the scheduler's no-lost-wake law, that waiter
/// is polled in the next round.
pub proof fn lemma_release_wakes_one_waiter(
    pre: WakerSet,
    post: WakerSet,
    pre_wakes: Seq<crate::wake::WakeHandle>,
    post_wakes: Seq<crate::wake::WakeHandle>,
)
    requires
        notify_any_rel(pre, post, pre_wakes, post_wakes),
        !crate::waker_set::has_notified(pre.entries@),
        crate::waker_set::has_waiting(pre.entries@),
    ensures
        ({
            let k = crate::waker_set::first_waiting(pre.entries@);
            &&& post_wakes == pre_wakes.push(pre.entries@[k]->Waiting_0)
            &&& post.entries@ == pre.entries@.update(k, Slot::Notified)
            &&& post.notifiable == pre.notifiable - 1
        }),
{
}

} // verus!
