//! The waker registry.
//!
//! A fixed-capacity slab mapping small integer keys to notification
//! callbacks, used by the synchronization primitives to suspend and resume
//! tasks.  An entry is *waiting* while it still holds its callback, and
//! *notified* once the registry has woken it but the owning task has not yet
//! removed it; keeping notified entries present is what makes [`cancel`]
//! able to hand a pending wake over to another waiter.
//!
//! The registry runs in the single foreground context only.
//!
//! [`cancel`]: WakerSet::cancel

use vstd::prelude::*;

use crate::Fatal;
use crate::NTASKS;
use crate::wake::Context;
use crate::wake::WakeHandle;

verus! {

/// One slot of the registry.
#[derive(Clone, Copy, Debug, PartialEq, Eq, Structural)]
pub enum Slot {
    /// No entry occupies the slot.
    Vacant,
    /// A suspended operation waits here; the slot holds its wake handle.
    Waiting(WakeHandle),
    /// The entry was notified: its callback is spent, but the entry stays
    /// until the owning task removes it (or cancels).
    Notified,
}

/// Number of waiting slots in `s`.
pub open spec fn count_waiting(s: Seq<Slot>) -> int
    decreases s.len(),
{
    if s.len() == 0 {
        0
    } else {
        count_waiting(s.drop_last()) + if s.last() is Waiting {
            1int
        } else {
            0int
        }
    }
}

/// Index of the first waiting slot of `s`, or `s.len()` if none waits.
pub open spec fn first_waiting(s: Seq<Slot>) -> int
    decreases s.len(),
{
    if s.len() == 0 {
        0
    } else if s[0] is Waiting {
        0
    } else {
        1 + first_waiting(s.drop_first())
    }
}

/// Index of the first vacant slot of `s`, or `s.len()` if none is vacant.
pub open spec fn first_vacant(s: Seq<Slot>) -> int
    decreases s.len(),
{
    if s.len() == 0 {
        0
    } else if s[0] is Vacant {
        0
    } else {
        1 + first_vacant(s.drop_first())
    }
}

/// Whether some slot of `s` is waiting.
pub open spec fn has_waiting(s: Seq<Slot>) -> bool {
    first_waiting(s) < s.len()
}

/// Whether some slot of `s` holds a notified entry.
pub open spec fn has_notified(s: Seq<Slot>) -> bool {
    exists|i: int| 0 <= i < s.len() && s[i] is Notified
}

proof fn lemma_count_push(s: Seq<Slot>, x: Slot)
    ensures
        count_waiting(s.push(x)) == count_waiting(s) + if x is Waiting {
            1int
        } else {
            0int
        },
{
    assert(s.push(x).drop_last() =~= s);
    assert(s.push(x).last() == x);
}

proof fn lemma_count_update(s: Seq<Slot>, i: int, x: Slot)
    requires
        0 <= i < s.len(),
    ensures
        count_waiting(s.update(i, x)) == count_waiting(s) - (if s[i] is Waiting {
            1int
        } else {
            0int
        }) + (if x is Waiting {
            1int
        } else {
            0int
        }),
    decreases s.len(),
{
    let t = s.update(i, x);
    if i == s.len() - 1 {
        assert(t.drop_last() =~= s.drop_last());
        assert(t.last() == x);
        assert(s.last() == s[i]);
    } else {
        assert(t.drop_last() =~= s.drop_last().update(i, x));
        lemma_count_update(s.drop_last(), i, x);
        assert(t.last() == s.last());
        assert(s.drop_last()[i] == s[i]);
    }
}

proof fn lemma_count_bounds(s: Seq<Slot>)
    ensures
        0 <= count_waiting(s) <= s.len(),
    decreases s.len(),
{
    if s.len() > 0 {
        lemma_count_bounds(s.drop_last());
    }
}

proof fn lemma_count_waiting_at(s: Seq<Slot>, i: int)
    requires
        0 <= i < s.len(),
        s[i] is Waiting,
    ensures
        count_waiting(s) >= 1,
    decreases s.len(),
{
    if i == s.len() - 1 {
        lemma_count_bounds(s.drop_last());
    } else {
        assert(s.drop_last()[i] == s[i]);
        lemma_count_waiting_at(s.drop_last(), i);
    }
}

/// What `first_waiting` returns: the least waiting index, `s.len()` if none.
proof fn lemma_first_waiting_char(s: Seq<Slot>)
    ensures
        0 <= first_waiting(s) <= s.len(),
        first_waiting(s) < s.len() ==> s[first_waiting(s)] is Waiting,
        forall|j: int| 0 <= j < first_waiting(s) ==> !(s[j] is Waiting),
    decreases s.len(),
{
    if s.len() > 0 && !(s[0] is Waiting) {
        lemma_first_waiting_char(s.drop_first());
        assert forall|j: int| 0 <= j < first_waiting(s) implies !(s[j] is Waiting) by {
            if j > 0 {
                assert(s[j] == s.drop_first()[j - 1]);
            }
        }
    }
}

/// What `first_vacant` returns: the least vacant index, `s.len()` if none.
proof fn lemma_first_vacant_char(s: Seq<Slot>)
    ensures
        0 <= first_vacant(s) <= s.len(),
        first_vacant(s) < s.len() ==> s[first_vacant(s)] is Vacant,
        forall|j: int| 0 <= j < first_vacant(s) ==> !(s[j] is Vacant),
    decreases s.len(),
{
    if s.len() > 0 && !(s[0] is Vacant) {
        lemma_first_vacant_char(s.drop_first());
        assert forall|j: int| 0 <= j < first_vacant(s) implies !(s[j] is Vacant) by {
            if j > 0 {
                assert(s[j] == s.drop_first()[j - 1]);
            }
        }
    }
}

/// Law (cancellation safety): cancelling an entry that was already
/// notified never loses the pending wake.  Vacating the entry leaves some
/// operation waiting, so [`WakerSet::cancel`] — whose contract produces
/// exactly the state this lemma describes — wakes the first such waiter,
/// and the accounting stays exact: one live callback is spent for the one
/// wake handed out.
pub proof fn lemma_cancel_propagates(s: Seq<Slot>, key: int)
    requires
        0 <= key < s.len(),
        s[key] is Notified,
        has_waiting(s.update(key, Slot::Vacant)),
    ensures
        ({
            let vacated = s.update(key, Slot::Vacant);
            let k = first_waiting(vacated);
            &&& 0 <= k < vacated.len()
            &&& vacated[k] is Waiting
            &&& count_waiting(vacated.update(k, Slot::Notified)) == count_waiting(s) - 1
        }),
{
    let vacated = s.update(key, Slot::Vacant);
    let k = first_waiting(vacated);
    lemma_first_waiting_char(vacated);
    lemma_count_update(s, key, Slot::Vacant);
    lemma_count_update(vacated, k, Slot::Notified);
}

/// Relates a registry and a wake list before and after cancelling the
/// non-vacant entry `key`: a waiting entry is simply vacated; a notified
/// entry is vacated and its pending wake handed to the first remaining
/// waiter, if one waits.
pub open spec fn cancel_rel(
    pre: WakerSet,
    post: WakerSet,
    key: int,
    pre_wakes: Seq<WakeHandle>,
    post_wakes: Seq<WakeHandle>,
) -> bool {
    if pre.entries@[key] is Waiting {
        &&& post.entries@ == pre.entries@.update(key, Slot::Vacant)
        &&& post.notifiable == pre.notifiable - 1
        &&& post_wakes == pre_wakes
    } else {
        let vacated = pre.entries@.update(key, Slot::Vacant);
        if has_waiting(vacated) {
            let k = first_waiting(vacated);
            &&& post.entries@ == vacated.update(k, Slot::Notified)
            &&& post.notifiable == pre.notifiable - 1
            &&& post_wakes == pre_wakes.push(vacated[k]->Waiting_0)
        } else {
            &&& post.entries@ == vacated
            &&& post.notifiable == pre.notifiable
            &&& post_wakes == pre_wakes
        }
    }
}

/// The registry slots after the entry behind `key`, if any, is removed.
pub open spec fn entries_after_remove(s: Seq<Slot>, key: Option<usize>) -> Seq<Slot> {
    match key {
        None => s,
        Some(k) => s.update(k as int, Slot::Vacant),
    }
}

/// How many live callbacks removing the entry behind `key` spends: one for
/// a waiting entry, none otherwise.
pub open spec fn removed_waiting(s: Seq<Slot>, key: Option<usize>) -> int {
    match key {
        None => 0,
        Some(k) => if s[k as int] is Waiting {
            1int
        } else {
            0int
        },
    }
}

/// Relates a registry and a wake list before and after one `notify_one`
/// call: the first waiting entry, if any, turns notified and its handle is
/// appended to the wake list; otherwise nothing changes.
pub open spec fn notify_one_rel(
    pre: WakerSet,
    post: WakerSet,
    pre_wakes: Seq<WakeHandle>,
    post_wakes: Seq<WakeHandle>,
) -> bool {
    if has_waiting(pre.entries@) {
        let k = first_waiting(pre.entries@);
        &&& post.entries@ == pre.entries@.update(k, Slot::Notified)
        &&& post.notifiable == pre.notifiable - 1
        &&& post_wakes == pre_wakes.push(pre.entries@[k]->Waiting_0)
    } else {
        &&& post == pre
        &&& post_wakes == pre_wakes
    }
}

/// Relates a registry and a wake list before and after one `notify_any`
/// call: if no notification is already in flight, as `notify_one`;
/// otherwise nothing changes.
pub open spec fn notify_any_rel(
    pre: WakerSet,
    post: WakerSet,
    pre_wakes: Seq<WakeHandle>,
    post_wakes: Seq<WakeHandle>,
) -> bool {
    if !has_notified(pre.entries@) {
        notify_one_rel(pre, post, pre_wakes, post_wakes)
    } else {
        &&& post == pre
        &&& post_wakes == pre_wakes
    }
}

/// A fixed-capacity registry of notification callbacks.
///
/// The accounting invariant — `notifiable` equals the number of waiting
/// entries — is [`wf`]; every operation preserves it.
///
/// [`wf`]: WakerSet::wf
pub struct WakerSet {
    /// The slots, exactly `NTASKS` of them.
    pub entries: Vec<Slot>,
    /// How many entries still hold a live callback.
    pub notifiable: usize,
}

impl WakerSet {
    /// The accounting invariant: there are exactly `NTASKS` slots and
    /// `notifiable` counts the waiting ones.
    pub open spec fn wf(&self) -> bool {
        &&& self.entries@.len() == NTASKS
        &&& self.notifiable == count_waiting(self.entries@)
    }

    /// Creates an empty registry.
    pub fn new() -> (r: WakerSet)
        ensures
            r.wf(),
            r.entries@ == Seq::new(NTASKS as nat, |i: int| Slot::Vacant),
            r.notifiable == 0,
    {
        let mut entries: Vec<Slot> = Vec::new();
        let mut i: usize = 0;
        while i < NTASKS
            invariant
                i <= NTASKS,
                entries@.len() == i,
                forall|j: int| 0 <= j < i ==> entries@[j] == Slot::Vacant,
                count_waiting(entries@) == 0,
            decreases NTASKS - i,
        {
            proof {
                lemma_count_push(entries@, Slot::Vacant);
            }
            entries.push(Slot::Vacant);
            i = i + 1;
        }
        proof {
            assert(entries@ =~= Seq::new(NTASKS as nat, |j: int| Slot::Vacant));
        }
        WakerSet { entries, notifiable: 0 }
    }

    /// Stores the wake handle `h` in the first vacant slot and returns its
    /// key.  Fails with [`Fatal::RegistryFull`] exactly when no slot is
    /// vacant.
    pub fn insert(&mut self, h: WakeHandle) -> (r: Result<usize, Fatal>)
        requires
            old(self).wf(),
        ensures
            final(self).wf(),
            match r {
                Ok(k) => {
                    &&& k == first_vacant(old(self).entries@)
                    &&& k < NTASKS
                    &&& old(self).entries@[k as int] is Vacant
                    &&& final(self).entries@ == old(self).entries@.update(
                        k as int,
                        Slot::Waiting(h),
                    )
                    &&& final(self).notifiable == old(self).notifiable + 1
                },
                Err(e) => {
                    &&& e == Fatal::RegistryFull
                    &&& first_vacant(old(self).entries@) == NTASKS
                    &&& *final(self) == *old(self)
                },
            },
    {
        proof {
            lemma_first_vacant_char(self.entries@);
            lemma_count_bounds(self.entries@);
        }
        let mut k: usize = 0;
        while k < NTASKS
            invariant
                old(self).wf(),
                *self == *old(self),
                k <= NTASKS,
                forall|j: int| 0 <= j < k ==> !(old(self).entries@[j] is Vacant),
            decreases NTASKS - k,
        {
            if matches!(self.entries[k], Slot::Vacant) {
                proof {
                    lemma_first_vacant_char(self.entries@);
                    lemma_count_update(self.entries@, k as int, Slot::Waiting(h));
                    lemma_count_bounds(self.entries@);
                }
                self.entries[k] = Slot::Waiting(h);
                self.notifiable = self.notifiable + 1;
                return Ok(k);
            }
            k = k + 1;
        }
        proof {
            lemma_first_vacant_char(self.entries@);
        }
        Err(Fatal::RegistryFull)
    }

    /// Removes the entry behind `key`.  The count drops only if the entry
    /// was still waiting; a notified entry leaves the count untouched, and a
    /// vacant key is a no-op.
    pub fn remove(&mut self, key: usize)
        requires
            old(self).wf(),
            key < NTASKS,
        ensures
            final(self).wf(),
            old(self).entries@[key as int] is Waiting ==> {
                &&& final(self).entries@ == old(self).entries@.update(key as int, Slot::Vacant)
                &&& final(self).notifiable == old(self).notifiable - 1
            },
            old(self).entries@[key as int] is Notified ==> {
                &&& final(self).entries@ == old(self).entries@.update(key as int, Slot::Vacant)
                &&& final(self).notifiable == old(self).notifiable
            },
            old(self).entries@[key as int] is Vacant ==> *final(self) == *old(self),
    {
        match self.entries[key] {
            Slot::Waiting(_) => {
                proof {
                    lemma_count_update(self.entries@, key as int, Slot::Vacant);
                    lemma_count_waiting_at(self.entries@, key as int);
                }
                self.entries[key] = Slot::Vacant;
                self.notifiable = self.notifiable - 1;
            },
            Slot::Notified => {
                proof {
                    lemma_count_update(self.entries@, key as int, Slot::Vacant);
                }
                self.entries[key] = Slot::Vacant;
            },
            Slot::Vacant => {},
        }
    }

    /// Notifies one additional waiter: wakes the first waiting entry, if
    /// any, leaving it present as notified.  Returns whether one was woken.
    pub fn notify_one(&mut self, cx: &mut Context) -> (r: bool)
        requires
            old(self).wf(),
        ensures
            final(self).wf(),
            r == has_waiting(old(self).entries@),
            final(cx).me == old(cx).me,
            final(cx).event == old(cx).event,
            has_waiting(old(self).entries@) ==> {
                let k = first_waiting(old(self).entries@);
                &&& final(self).entries@ == old(self).entries@.update(k, Slot::Notified)
                &&& final(self).notifiable == old(self).notifiable - 1
                &&& final(cx).wakes@ == old(cx).wakes@.push(old(self).entries@[k]->Waiting_0)
            },
            !has_waiting(old(self).entries@) ==> {
                &&& *final(self) == *old(self)
                &&& final(cx).wakes@ == old(cx).wakes@
            },
    {
        proof {
            lemma_first_waiting_char(self.entries@);
        }
        let mut k: usize = 0;
        while k < NTASKS
            invariant
                old(self).wf(),
                *self == *old(self),
                *cx == *old(cx),
                k <= NTASKS,
                forall|j: int| 0 <= j < k ==> !(old(self).entries@[j] is Waiting),
            decreases NTASKS - k,
        {
            match self.entries[k] {
                Slot::Waiting(h) => {
                    proof {
                        lemma_first_waiting_char(self.entries@);
                        lemma_count_update(self.entries@, k as int, Slot::Notified);
                        lemma_count_waiting_at(self.entries@, k as int);
                    }
                    self.entries[k] = Slot::Notified;
                    self.notifiable = self.notifiable - 1;
                    cx.wake(h);
                    return true;
                },
                _ => {},
            }
            k = k + 1;
        }
        proof {
            lemma_first_waiting_char(self.entries@);
        }
        false
    }

    /// Makes sure at least one notification is in flight: if no entry is
    /// already notified, behaves as [`notify_one`]; otherwise does nothing.
    /// Returns whether a waiter was woken.
    ///
    /// [`notify_one`]: WakerSet::notify_one
    pub fn notify_any(&mut self, cx: &mut Context) -> (r: bool)
        requires
            old(self).wf(),
        ensures
            final(self).wf(),
            final(cx).me == old(cx).me,
            final(cx).event == old(cx).event,
            r == (!has_notified(old(self).entries@) && has_waiting(old(self).entries@)),
            r ==> {
                let k = first_waiting(old(self).entries@);
                &&& final(self).entries@ == old(self).entries@.update(k, Slot::Notified)
                &&& final(self).notifiable == old(self).notifiable - 1
                &&& final(cx).wakes@ == old(cx).wakes@.push(old(self).entries@[k]->Waiting_0)
            },
            !r ==> {
                &&& *final(self) == *old(self)
                &&& final(cx).wakes@ == old(cx).wakes@
            },
    {
        let mut k: usize = 0;
        while k < NTASKS
            invariant
                old(self).wf(),
                *self == *old(self),
                k <= NTASKS,
                forall|j: int| 0 <= j < k ==> !(old(self).entries@[j] is Notified),
            decreases NTASKS - k,
        {
            if matches!(self.entries[k], Slot::Notified) {
                return false;
            }
            k = k + 1;
        }
        self.notify_one(cx)
    }

    /// Removes the entry of a cancelled operation.  If the entry was already
    /// notified, its pending wake is handed to the first remaining waiter
    /// instead, so that no wake is lost.  Returns whether another waiter was
    /// woken on the cancelled entry's behalf.
    pub fn cancel(&mut self, key: usize, cx: &mut Context) -> (r: bool)
        requires
            old(self).wf(),
            key < NTASKS,
            !(old(self).entries@[key as int] is Vacant),
        ensures
            final(self).wf(),
            final(cx).me == old(cx).me,
            final(cx).event == old(cx).event,
            cancel_rel(*old(self), *final(self), key as int, old(cx).wakes@, final(cx).wakes@),
            r == (old(self).entries@[key as int] is Notified && has_waiting(
                old(self).entries@.update(key as int, Slot::Vacant),
            )),
    {
        match self.entries[key] {
            Slot::Waiting(_) => {
                proof {
                    lemma_count_update(self.entries@, key as int, Slot::Vacant);
                    lemma_count_waiting_at(self.entries@, key as int);
                }
                self.entries[key] = Slot::Vacant;
                self.notifiable = self.notifiable - 1;
                false
            },
            _ => {
                // The entry was notified before it could run: pass the wake
                // on to another waiter so it is not lost.
                proof {
                    lemma_count_update(self.entries@, key as int, Slot::Vacant);
                }
                self.entries[key] = Slot::Vacant;
                self.notify_one(cx)
            },
        }
    }
}

} // verus!
