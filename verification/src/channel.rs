//! The bounded channel: a multi-producer, multi-consumer ring buffer with a
//! waker registry on each side.
//!
//! The channel is foreground-only.  A send that finds the buffer full and a
//! receive that finds it empty suspend by registering in the `send_wakers`
//! or `recv_wakers` registry; each transferred value notifies one waiter of
//! the opposite side, so `n` sends wake `n` receivers.
//!
//! `send` and `recv` hand out suspendable operations ([`SendFut`],
//! [`RecvFut`]) that are polled with the channel and the caller's polling
//! context, mirroring how the stored futures are polled on the target.

use vstd::prelude::*;

use crate::Fatal;
use crate::NTASKS;
use crate::wake::Context;
use crate::waker_set::Slot;
use crate::waker_set::WakerSet;
use crate::waker_set::cancel_rel;
use crate::waker_set::entries_after_remove;
use crate::waker_set::first_vacant;
use crate::waker_set::removed_waiting;
use crate::waker_set::notify_one_rel;

verus! {

/// Reduces a position in `0..2 * NTASKS` to a buffer index.
pub open spec fn wrap_spec(i: int) -> int {
    if i < NTASKS {
        i
    } else {
        i - NTASKS
    }
}

/// Executable counterpart of [`wrap_spec`].
fn wrap(i: usize) -> (r: usize)
    requires
        i < 2 * NTASKS,
    ensures
        r == wrap_spec(i as int),
{
    if i < NTASKS {
        i
    } else {
        i - NTASKS
    }
}

/// A bounded channel of capacity `NTASKS`.
pub struct Channel<T> {
    /// The ring storage; a slot holds `Some` exactly while a value is in
    /// flight there.
    pub buf: Vec<Option<T>>,
    /// Buffer index of the oldest value in flight.
    pub read: usize,
    /// Number of values in flight.
    pub len: usize,
    /// Waiters blocked on a full buffer.
    pub send_wakers: WakerSet,
    /// Waiters blocked on an empty buffer.
    pub recv_wakers: WakerSet,
}

impl<T> Channel<T> {
    /// Whether buffer index `k` currently holds a value in flight.
    pub open spec fn in_window(&self, k: int) -> bool {
        if self.read + self.len <= NTASKS {
            self.read <= k < self.read + self.len
        } else {
            k < self.read + self.len - NTASKS || self.read <= k < NTASKS
        }
    }

    /// The channel invariant: ring geometry, slots occupied exactly inside
    /// the window, and well-formed registries.
    pub open spec fn wf(&self) -> bool {
        &&& self.buf@.len() == NTASKS
        &&& self.read < NTASKS
        &&& self.len <= NTASKS
        &&& forall|k: int|
            0 <= k < NTASKS ==> ((#[trigger] self.buf@[k]) is Some <==> self.in_window(k))
        &&& self.send_wakers.wf()
        &&& self.recv_wakers.wf()
    }

    /// The values in flight, oldest first.
    pub open spec fn items(&self) -> Seq<T> {
        Seq::new(self.len as nat, |j: int| self.buf@[wrap_spec(self.read + j)]->Some_0)
    }

    /// Creates an empty channel.
    pub fn new() -> (r: Channel<T>)
        ensures
            r.wf(),
            r.items() == Seq::<T>::empty(),
            r.send_wakers.notifiable == 0,
            r.recv_wakers.notifiable == 0,
            r.send_wakers.entries@ == Seq::new(NTASKS as nat, |i: int| Slot::Vacant),
            r.recv_wakers.entries@ == Seq::new(NTASKS as nat, |i: int| Slot::Vacant),
    {
        let mut buf: Vec<Option<T>> = Vec::new();
        let mut i: usize = 0;
        while i < NTASKS
            invariant
                i <= NTASKS,
                buf@.len() == i,
                forall|k: int| 0 <= k < i ==> (#[trigger] buf@[k]) is None,
            decreases NTASKS - i,
        {
            buf.push(None);
            i = i + 1;
        }
        let r = Channel {
            buf,
            read: 0,
            len: 0,
            send_wakers: WakerSet::new(),
            recv_wakers: WakerSet::new(),
        };
        proof {
            assert(r.items() =~= Seq::<T>::empty());
        }
        r
    }

    /// Attempts to place `val` into the channel.  If there is room, the
    /// value is appended, one blocked receiver (if any) is notified and the
    /// event latch is signalled; with the buffer full the value comes back
    /// unchanged and nothing else happens.
    pub fn try_send(&mut self, cx: &mut Context, val: T) -> (r: Result<(), T>)
        requires
            old(self).wf(),
        ensures
            final(self).wf(),
            final(cx).me == old(cx).me,
            if old(self).len < NTASKS {
                &&& r is Ok
                &&& final(self).items() == old(self).items().push(val)
                &&& final(self).read == old(self).read
                &&& final(self).len == old(self).len + 1
                &&& final(self).send_wakers == old(self).send_wakers
                &&& notify_one_rel(
                    old(self).recv_wakers,
                    final(self).recv_wakers,
                    old(cx).wakes@,
                    final(cx).wakes@,
                )
                &&& final(cx).event
            } else {
                &&& r == Err::<(), T>(val)
                &&& *final(self) == *old(self)
                &&& *final(cx) == *old(cx)
            },
    {
        if self.len < NTASKS {
            let idx = wrap(self.read + self.len);
            let ghost pre = *self;
            let slot = &mut self.buf[idx];
            *slot = Some(val);
            self.len = self.len + 1;
            proof {
                assert forall|k: int|
                    0 <= k < NTASKS implies ((#[trigger] self.buf@[k]) is Some <==> self.in_window(
                    k,
                )) by {
                    assert(self.buf@ == pre.buf@.update(idx as int, Some(val)));
                }
                assert(self.items() =~= pre.items().push(val));
            }
            self.recv_wakers.notify_one(cx);
            cx.signal_event();
            Ok(())
        } else {
            Err(val)
        }
    }

    /// Attempts to take the oldest value out of the channel.  If one is in
    /// flight, it is removed, one blocked sender (if any) is notified and
    /// the event latch is signalled; an empty channel returns `None` and
    /// nothing else happens.
    pub fn try_recv(&mut self, cx: &mut Context) -> (r: Option<T>)
        requires
            old(self).wf(),
        ensures
            final(self).wf(),
            final(cx).me == old(cx).me,
            if old(self).len > 0 {
                &&& r == Some(old(self).items()[0])
                &&& final(self).items() == old(self).items().drop_first()
                &&& final(self).len == old(self).len - 1
                &&& final(self).recv_wakers == old(self).recv_wakers
                &&& notify_one_rel(
                    old(self).send_wakers,
                    final(self).send_wakers,
                    old(cx).wakes@,
                    final(cx).wakes@,
                )
                &&& final(cx).event
            } else {
                &&& r is None
                &&& *final(self) == *old(self)
                &&& *final(cx) == *old(cx)
            },
    {
        if self.len > 0 {
            let ghost pre = *self;
            let slot = &mut self.buf[self.read];
            let v = slot.take();
            match v {
                Some(x) => {
                    self.read = wrap(self.read + 1);
                    self.len = self.len - 1;
                    proof {
                        assert(pre.buf@[pre.read as int] is Some);
                        assert forall|k: int|
                            0 <= k < NTASKS implies ((#[trigger] self.buf@[k]) is Some
                            <==> self.in_window(k)) by {
                            assert(self.buf@ == pre.buf@.update(pre.read as int, None));
                        }
                        assert(self.items() =~= pre.items().drop_first());
                        assert(x == pre.items()[0]);
                    }
                    self.send_wakers.notify_one(cx);
                    cx.signal_event();
                    Some(x)
                },
                None => {
                    proof {
                        assert(pre.buf@[pre.read as int] is Some);
                        assert(false);
                    }
                    None
                },
            }
        } else {
            None
        }
    }

    /// Begins a send of `val`: the returned operation is polled with the
    /// channel until it reports completion.
    pub fn send(&self, val: T) -> (f: SendFut<T>)
        ensures
            f.msg == Some(val),
            f.key is None,
    {
        SendFut { msg: Some(val), key: None }
    }

    /// Begins a receive: the returned operation is polled with the channel
    /// until it hands a value back.
    pub fn recv(&self) -> (f: RecvFut)
        ensures
            f.key is None,
    {
        RecvFut { key: None }
    }
}

/// Law (capacity): a well-formed channel never holds more than `NTASKS`
/// values in flight; together with `try_send`'s contract, the send that
/// would exceed the capacity returns its value unsent.
pub proof fn lemma_channel_capacity<T>(ch: Channel<T>)
    requires
        ch.wf(),
    ensures
        ch.items().len() <= NTASKS,
{
}

/// Law (FIFO): sending `v1` then `v2` into an empty channel and then
/// receiving twice hands back `v1` first and `v2` second, and drains the
/// channel.  `try_send` appends to `items()` and `try_recv` removes
/// `items()[0]`, so this is exactly what two sends followed by two receives
/// observe when no other send interleaves.
pub proof fn lemma_channel_fifo<T>(items: Seq<T>, v1: T, v2: T)
    requires
        items.len() == 0,
    ensures
        ({
            let after = items.push(v1).push(v2);
            &&& after[0] == v1
            &&& after.drop_first()[0] == v2
            &&& after.drop_first().drop_first() == items
        }),
{
    let after = items.push(v1).push(v2);
    assert(after.drop_first().drop_first() =~= items);
}

/// A suspendable send, the analog of the future returned by `send`.
pub struct SendFut<T> {
    /// The value still to be sent; `None` once the send completed.
    pub msg: Option<T>,
    /// The key of this operation's entry in the channel's `send_wakers`
    /// registry, while it is suspended there.
    pub key: Option<usize>,
}

/// A suspendable receive, the analog of the future returned by `recv`.
pub struct RecvFut {
    /// The key of this operation's entry in the channel's `recv_wakers`
    /// registry, while it is suspended there.
    pub key: Option<usize>,
}

impl<T> SendFut<T> {
    /// The operation still has a value to deliver.
    pub open spec fn in_flight(&self) -> bool {
        self.msg is Some
    }

    /// Whether this operation's bookkeeping is consistent with the channel:
    /// while suspended, its key names a non-vacant entry of `send_wakers`.
    pub open spec fn wf_for(&self, ch: Channel<T>) -> bool {
        self.key matches Some(k) ==> k < NTASKS && !(ch.send_wakers.entries@[k as int] is Vacant)
    }

    /// One poll of the send: de-registers, retries `try_send`, and either
    /// completes (`Ok(true)`), or re-registers with the caller's waker and
    /// suspends (`Ok(false)`).  [`Fatal::RegistryFull`] can only arise if
    /// more operations suspend on the channel than the registry has slots.
    pub fn poll(&mut self, ch: &mut Channel<T>, cx: &mut Context) -> (r: Result<bool, Fatal>)
        requires
            old(self).in_flight(),
            old(ch).wf(),
            old(self).wf_for(*old(ch)),
        ensures
            final(ch).wf(),
            final(cx).me == old(cx).me,
            match r {
                Ok(true) => {
                    &&& old(ch).items().len() < NTASKS
                    &&& final(self).msg is None
                    &&& final(self).key is None
                    &&& final(ch).items() == old(ch).items().push(old(self).msg->Some_0)
                    &&& final(ch).send_wakers.entries@ == entries_after_remove(
                        old(ch).send_wakers.entries@,
                        old(self).key,
                    )
                    &&& final(ch).send_wakers.notifiable == old(ch).send_wakers.notifiable
                        - removed_waiting(old(ch).send_wakers.entries@, old(self).key)
                    &&& notify_one_rel(
                        old(ch).recv_wakers,
                        final(ch).recv_wakers,
                        old(cx).wakes@,
                        final(cx).wakes@,
                    )
                    &&& final(cx).event
                },
                Ok(false) => {
                    &&& old(ch).items().len() == NTASKS
                    &&& final(self).msg == old(self).msg
                    &&& final(self).wf_for(*final(ch))
                    &&& ({
                        let mid = entries_after_remove(
                            old(ch).send_wakers.entries@,
                            old(self).key,
                        );
                        let k2 = first_vacant(mid);
                        &&& final(self).key == Some(k2 as usize)
                        &&& final(ch).send_wakers.entries@ == mid.update(
                            k2,
                            Slot::Waiting(old(cx).me),
                        )
                        &&& final(ch).send_wakers.notifiable == old(ch).send_wakers.notifiable
                            - removed_waiting(old(ch).send_wakers.entries@, old(self).key) + 1
                    })
                    &&& final(ch).items() == old(ch).items()
                    &&& final(ch).recv_wakers == old(ch).recv_wakers
                    &&& *final(cx) == *old(cx)
                },
                Err(e) => {
                    &&& e == Fatal::RegistryFull
                    &&& old(ch).items().len() == NTASKS
                    &&& final(ch).items() == old(ch).items()
                },
            },
    {
        if let Some(k) = self.key {
            self.key = None;
            ch.send_wakers.remove(k);
        }
        let m = self.msg.take();
        let val = match m {
            Some(v) => v,
            None => vstd::pervasive::unreached(),
        };
        match ch.try_send(cx, val) {
            Ok(()) => Ok(true),
            Err(v) => {
                self.msg = Some(v);
                let me = cx.waker();
                match ch.send_wakers.insert(me) {
                    Ok(k2) => {
                        self.key = Some(k2);
                        Ok(false)
                    },
                    Err(e) => Err(e),
                }
            },
        }
    }

    /// Cancels a suspended send, as dropping the operation mid-wait does on
    /// the target: the registry entry is cleaned up and a pending
    /// notification, if this operation already absorbed one, is handed to
    /// another waiting sender.
    pub fn cancel(&mut self, ch: &mut Channel<T>, cx: &mut Context)
        requires
            old(ch).wf(),
            old(self).wf_for(*old(ch)),
        ensures
            final(ch).wf(),
            final(self).key is None,
            final(self).msg == old(self).msg,
            final(ch).items() == old(ch).items(),
            final(ch).recv_wakers == old(ch).recv_wakers,
            final(cx).me == old(cx).me,
            final(cx).event == old(cx).event,
            old(self).key is None ==> *final(ch) == *old(ch) && *final(cx) == *old(cx),
            old(self).key matches Some(k) ==> cancel_rel(
                old(ch).send_wakers,
                final(ch).send_wakers,
                k as int,
                old(cx).wakes@,
                final(cx).wakes@,
            ),
    {
        if let Some(k) = self.key {
            self.key = None;
            ch.send_wakers.cancel(k, cx);
        }
    }
}

impl RecvFut {
    /// Whether this operation's bookkeeping is consistent with the channel:
    /// while suspended, its key names a non-vacant entry of `recv_wakers`.
    pub open spec fn wf_for<T>(&self, ch: Channel<T>) -> bool {
        self.key matches Some(k) ==> k < NTASKS && !(ch.recv_wakers.entries@[k as int] is Vacant)
    }

    /// One poll of the receive: de-registers, retries `try_recv`, and
    /// either hands the oldest value back (`Ok(Some(v))`), or re-registers
    /// with the caller's waker and suspends (`Ok(None)`).
    pub fn poll<T>(&mut self, ch: &mut Channel<T>, cx: &mut Context) -> (r: Result<
        Option<T>,
        Fatal,
    >)
        requires
            old(ch).wf(),
            old(self).wf_for(*old(ch)),
        ensures
            final(ch).wf(),
            final(cx).me == old(cx).me,
            match r {
                Ok(Some(v)) => {
                    &&& old(ch).items().len() > 0
                    &&& v == old(ch).items()[0]
                    &&& final(self).key is None
                    &&& final(ch).items() == old(ch).items().drop_first()
                    &&& final(ch).recv_wakers.entries@ == entries_after_remove(
                        old(ch).recv_wakers.entries@,
                        old(self).key,
                    )
                    &&& final(ch).recv_wakers.notifiable == old(ch).recv_wakers.notifiable
                        - removed_waiting(old(ch).recv_wakers.entries@, old(self).key)
                    &&& notify_one_rel(
                        old(ch).send_wakers,
                        final(ch).send_wakers,
                        old(cx).wakes@,
                        final(cx).wakes@,
                    )
                    &&& final(cx).event
                },
                Ok(None) => {
                    &&& old(ch).items().len() == 0
                    &&& final(self).wf_for(*final(ch))
                    &&& ({
                        let mid = entries_after_remove(
                            old(ch).recv_wakers.entries@,
                            old(self).key,
                        );
                        let k2 = first_vacant(mid);
                        &&& final(self).key == Some(k2 as usize)
                        &&& final(ch).recv_wakers.entries@ == mid.update(
                            k2,
                            Slot::Waiting(old(cx).me),
                        )
                        &&& final(ch).recv_wakers.notifiable == old(ch).recv_wakers.notifiable
                            - removed_waiting(old(ch).recv_wakers.entries@, old(self).key) + 1
                    })
                    &&& final(ch).items() == old(ch).items()
                    &&& final(ch).send_wakers == old(ch).send_wakers
                    &&& *final(cx) == *old(cx)
                },
                Err(e) => {
                    &&& e == Fatal::RegistryFull
                    &&& old(ch).items().len() == 0
                    &&& final(ch).items() == old(ch).items()
                },
            },
    {
        if let Some(k) = self.key {
            self.key = None;
            ch.recv_wakers.remove(k);
        }
        match ch.try_recv(cx) {
            Some(v) => Ok(Some(v)),
            None => {
                let me = cx.waker();
                match ch.recv_wakers.insert(me) {
                    Ok(k2) => {
                        self.key = Some(k2);
                        Ok(None)
                    },
                    Err(e) => Err(e),
                }
            },
        }
    }

    /// Cancels a suspended receive, as dropping the operation mid-wait does
    /// on the target: the registry entry is cleaned up and a pending
    /// notification, if this operation already absorbed one, is handed to
    /// another waiting receiver.
    pub fn cancel<T>(&mut self, ch: &mut Channel<T>, cx: &mut Context)
        requires
            old(ch).wf(),
            old(self).wf_for(*old(ch)),
        ensures
            final(ch).wf(),
            final(self).key is None,
            final(ch).items() == old(ch).items(),
            final(ch).send_wakers == old(ch).send_wakers,
            final(cx).me == old(cx).me,
            final(cx).event == old(cx).event,
            old(self).key is None ==> *final(ch) == *old(ch) && *final(cx) == *old(cx),
            old(self).key matches Some(k) ==> cancel_rel(
                old(ch).recv_wakers,
                final(ch).recv_wakers,
                k as int,
                old(cx).wakes@,
                final(cx).wakes@,
            ),
    {
        if let Some(k) = self.key {
            self.key = None;
            ch.recv_wakers.cancel(k, cx);
        }
    }
}

} // verus!
