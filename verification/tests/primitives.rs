//! Unit tests of the synchronization primitives and the arena.

use async_embedded::arena::Arena;
use async_embedded::channel::Channel;
use async_embedded::mutex::Mutex;
use async_embedded::task::yield_now;
use async_embedded::wake::{Context, WakeHandle};
use async_embedded::waker_set::{Slot, WakerSet};
use async_embedded::{Fatal, ARENA_SIZE, NTASKS};

#[test]
fn waker_set_insert_remove_accounting() {
    let mut ws = WakerSet::new();
    assert_eq!(ws.notifiable, 0);
    let mut cx = Context::new(WakeHandle::Main);
    let k0 = ws.insert(WakeHandle::Task(0)).unwrap();
    let k1 = ws.insert(WakeHandle::Task(1)).unwrap();
    assert_eq!((k0, k1), (0, 1));
    assert_eq!(ws.notifiable, 2);
    ws.remove(k0);
    assert_eq!(ws.notifiable, 1);
    assert_eq!(ws.entries[k0], Slot::Vacant);
    // Keys are reused after removal.
    let k2 = ws.insert(WakeHandle::Task(2)).unwrap();
    assert_eq!(k2, k0);
    assert_eq!(ws.notifiable, 2);
    // Notifying marks the first waiting entry and hands its wake out.
    assert!(ws.notify_one(&mut cx));
    assert_eq!(cx.wakes, vec![WakeHandle::Task(2)]);
    assert_eq!(ws.entries[k2], Slot::Notified);
    assert_eq!(ws.notifiable, 1);
    // Removing a notified entry vacates it without touching the count.
    ws.remove(k2);
    assert_eq!(ws.entries[k2], Slot::Vacant);
    assert_eq!(ws.notifiable, 1);
}

#[test]
fn waker_set_fills_up() {
    let mut ws = WakerSet::new();
    for i in 0..NTASKS {
        assert_eq!(ws.insert(WakeHandle::Task(i)), Ok(i));
    }
    assert_eq!(ws.insert(WakeHandle::Main), Err(Fatal::RegistryFull));
}

#[test]
fn notify_one_is_additive() {
    let mut ws = WakerSet::new();
    ws.insert(WakeHandle::Task(0)).unwrap();
    ws.insert(WakeHandle::Task(1)).unwrap();
    let mut cx = Context::new(WakeHandle::Main);
    assert!(ws.notify_one(&mut cx));
    assert!(ws.notify_one(&mut cx));
    assert!(!ws.notify_one(&mut cx));
    assert_eq!(cx.wakes, vec![WakeHandle::Task(0), WakeHandle::Task(1)]);
}

#[test]
fn notify_any_is_idempotent() {
    let mut ws = WakerSet::new();
    ws.insert(WakeHandle::Task(0)).unwrap();
    ws.insert(WakeHandle::Task(1)).unwrap();
    let mut cx = Context::new(WakeHandle::Main);
    // The first call wakes one waiter; while that notification is still in
    // flight, further calls do nothing.
    assert!(ws.notify_any(&mut cx));
    assert!(!ws.notify_any(&mut cx));
    assert_eq!(cx.wakes, vec![WakeHandle::Task(0)]);
}

#[test]
fn cancel_waiting_entry_wakes_nobody() {
    let mut ws = WakerSet::new();
    let k = ws.insert(WakeHandle::Task(0)).unwrap();
    ws.insert(WakeHandle::Task(1)).unwrap();
    let mut cx = Context::new(WakeHandle::Main);
    assert!(!ws.cancel(k, &mut cx));
    assert!(cx.wakes.is_empty());
    assert_eq!(ws.notifiable, 1);
    assert_eq!(ws.entries[k], Slot::Vacant);
}

#[test]
fn cancel_notified_entry_propagates_wake() {
    let mut ws = WakerSet::new();
    let k0 = ws.insert(WakeHandle::Task(0)).unwrap();
    let k1 = ws.insert(WakeHandle::Task(1)).unwrap();
    let mut cx = Context::new(WakeHandle::Main);
    assert!(ws.notify_one(&mut cx));
    assert_eq!(cx.wakes, vec![WakeHandle::Task(0)]);
    // The notified waiter is cancelled before it could run: its wake moves
    // to the remaining waiter, and the accounting stays exact.
    let mut cx2 = Context::new(WakeHandle::Main);
    assert!(ws.cancel(k0, &mut cx2));
    assert_eq!(cx2.wakes, vec![WakeHandle::Task(1)]);
    assert_eq!(ws.entries[k0], Slot::Vacant);
    assert_eq!(ws.entries[k1], Slot::Notified);
    assert_eq!(ws.notifiable, 0);
}

#[test]
fn channel_fifo() {
    let mut ch: Channel<u32> = Channel::new();
    let mut cx = Context::new(WakeHandle::Main);
    assert_eq!(ch.try_send(&mut cx, 1), Ok(()));
    assert_eq!(ch.try_send(&mut cx, 2), Ok(()));
    assert_eq!(ch.try_recv(&mut cx), Some(1));
    assert_eq!(ch.try_recv(&mut cx), Some(2));
    assert_eq!(ch.try_recv(&mut cx), None);
}

#[test]
fn channel_fifo_across_wraparound() {
    let mut ch: Channel<u32> = Channel::new();
    let mut cx = Context::new(WakeHandle::Main);
    for round in 0..3u32 {
        for i in 0..NTASKS as u32 {
            assert_eq!(ch.try_send(&mut cx, 100 * round + i), Ok(()));
        }
        for i in 0..NTASKS as u32 {
            assert_eq!(ch.try_recv(&mut cx), Some(100 * round + i));
        }
    }
}

#[test]
fn channel_capacity() {
    let mut ch: Channel<u32> = Channel::new();
    let mut cx = Context::new(WakeHandle::Main);
    for i in 0..NTASKS as u32 {
        assert_eq!(ch.try_send(&mut cx, i), Ok(()));
    }
    // The (capacity + 1)-th send hands the value back.
    assert_eq!(ch.try_send(&mut cx, 99), Err(99));
    assert_eq!(ch.try_recv(&mut cx), Some(0));
    assert_eq!(ch.try_send(&mut cx, 99), Ok(()));
}

#[test]
fn channel_send_signals_event_and_receiver() {
    let mut ch: Channel<u32> = Channel::new();
    // A receiver suspends on the empty channel.
    let mut rf = ch.recv();
    let mut rcx = Context::new(WakeHandle::Task(3));
    assert_eq!(rf.poll(&mut ch, &mut rcx), Ok(None));
    assert!(!rcx.event);
    assert_eq!(ch.recv_wakers.notifiable, 1);
    // A send wakes it and signals the event latch.
    let mut scx = Context::new(WakeHandle::Main);
    assert_eq!(ch.try_send(&mut scx, 7), Ok(()));
    assert!(scx.event);
    assert_eq!(scx.wakes, vec![WakeHandle::Task(3)]);
    // The woken receiver re-polls: it de-registers and takes the value.
    let mut rcx2 = Context::new(WakeHandle::Task(3));
    assert_eq!(rf.poll(&mut ch, &mut rcx2), Ok(Some(7)));
    assert_eq!(ch.recv_wakers.notifiable, 0);
}

#[test]
fn cancel_propagation_across_receivers() {
    let mut ch: Channel<u32> = Channel::new();
    // Two receivers suspend on the empty channel.
    let mut f1 = ch.recv();
    let mut f2 = ch.recv();
    let mut cx1 = Context::new(WakeHandle::Task(0));
    let mut cx2 = Context::new(WakeHandle::Task(1));
    assert_eq!(f1.poll(&mut ch, &mut cx1), Ok(None));
    assert_eq!(f2.poll(&mut ch, &mut cx2), Ok(None));
    // A producer sends one value: exactly the first receiver is woken; the
    // second stays waiting in the registry, not spuriously readied.
    let mut pcx = Context::new(WakeHandle::Main);
    assert_eq!(ch.try_send(&mut pcx, 5), Ok(()));
    assert_eq!(pcx.wakes, vec![WakeHandle::Task(0)]);
    assert_eq!(ch.recv_wakers.entries[f1.key.unwrap()], Slot::Notified);
    assert_eq!(
        ch.recv_wakers.entries[f2.key.unwrap()],
        Slot::Waiting(WakeHandle::Task(1))
    );
    // The woken receiver's operation is dropped without consuming: its
    // pending wake is handed to the other receiver instead of being lost.
    let mut ccx = Context::new(WakeHandle::Task(0));
    f1.cancel(&mut ch, &mut ccx);
    assert_eq!(ccx.wakes, vec![WakeHandle::Task(1)]);
    // The other receiver re-polls and takes the value.
    let mut cx3 = Context::new(WakeHandle::Task(1));
    assert_eq!(f2.poll(&mut ch, &mut cx3), Ok(Some(5)));
}

#[test]
fn send_suspends_on_full_channel() {
    let mut ch: Channel<u32> = Channel::new();
    let mut cx = Context::new(WakeHandle::Task(2));
    for i in 0..NTASKS as u32 {
        assert_eq!(ch.try_send(&mut cx, i), Ok(()));
    }
    let mut sf = ch.send(42);
    assert_eq!(sf.poll(&mut ch, &mut cx), Ok(false));
    assert_eq!(ch.send_wakers.notifiable, 1);
    // A receive frees a slot and wakes the sender...
    let mut rcx = Context::new(WakeHandle::Main);
    assert_eq!(ch.try_recv(&mut rcx), Some(0));
    assert_eq!(rcx.wakes, vec![WakeHandle::Task(2)]);
    // ...whose next poll completes the send.
    let mut cx2 = Context::new(WakeHandle::Task(2));
    assert_eq!(sf.poll(&mut ch, &mut cx2), Ok(true));
    assert_eq!(ch.send_wakers.notifiable, 0);
}

#[test]
fn send_registry_overflow_is_fatal() {
    let mut ch: Channel<u32> = Channel::new();
    let mut cx = Context::new(WakeHandle::Main);
    for i in 0..NTASKS as u32 {
        assert_eq!(ch.try_send(&mut cx, i), Ok(()));
    }
    // Every registry slot fills with one suspended sender...
    let mut suspended = Vec::new();
    for i in 0..NTASKS {
        let mut f = ch.send(50 + i as u32);
        let mut scx = Context::new(WakeHandle::Task(i));
        assert_eq!(f.poll(&mut ch, &mut scx), Ok(false));
        suspended.push(f);
    }
    // ...and one more suspension than the registry has slots is fatal, as
    // it would be on the target.
    let mut extra = ch.send(99);
    let mut ecx = Context::new(WakeHandle::Main);
    assert_eq!(extra.poll(&mut ch, &mut ecx), Err(Fatal::RegistryFull));
}

#[test]
fn mutex_exclusive() {
    let mut m = Mutex::new(7u32);
    let g = m.try_lock();
    assert!(g.is_some());
    // A second attempt on the held lock fails.
    assert!(m.try_lock().is_none());
    // Releasing hands the (possibly updated) value back.
    let mut g = g.unwrap();
    *g.get_mut() = 9;
    let mut cx = Context::new(WakeHandle::Main);
    m.unlock(g, &mut cx);
    assert!(cx.wakes.is_empty());
    let g2 = m.try_lock().unwrap();
    assert_eq!(*g2.get(), 9);
}

#[test]
fn lock_suspends_and_release_wakes_one_waiter() {
    let mut m = Mutex::new(0u32);
    let g = m.try_lock().unwrap();
    let mut f1 = m.lock();
    let mut f2 = m.lock();
    let mut cx1 = Context::new(WakeHandle::Task(0));
    let mut cx2 = Context::new(WakeHandle::Task(1));
    assert!(matches!(f1.poll(&mut m, &mut cx1), Ok(None)));
    assert!(matches!(f2.poll(&mut m, &mut cx2), Ok(None)));
    assert_eq!(m.wakers.notifiable, 2);
    // Dropping the guard wakes exactly the first waiter.
    let mut rcx = Context::new(WakeHandle::Main);
    m.unlock(g, &mut rcx);
    assert_eq!(rcx.wakes, vec![WakeHandle::Task(0)]);
    // The woken waiter re-polls and acquires; the other keeps waiting.
    let mut cx3 = Context::new(WakeHandle::Task(0));
    let got = f1.poll(&mut m, &mut cx3).unwrap();
    assert!(got.is_some());
    let mut cx4 = Context::new(WakeHandle::Task(1));
    assert!(matches!(f2.poll(&mut m, &mut cx4), Ok(None)));
}

#[test]
fn lock_cancel_propagates_pending_wake() {
    let mut m = Mutex::new(0u32);
    let g = m.try_lock().unwrap();
    let mut f1 = m.lock();
    let mut f2 = m.lock();
    let mut cx1 = Context::new(WakeHandle::Task(0));
    let mut cx2 = Context::new(WakeHandle::Task(1));
    assert!(matches!(f1.poll(&mut m, &mut cx1), Ok(None)));
    assert!(matches!(f2.poll(&mut m, &mut cx2), Ok(None)));
    let mut rcx = Context::new(WakeHandle::Main);
    m.unlock(g, &mut rcx);
    assert_eq!(rcx.wakes, vec![WakeHandle::Task(0)]);
    // The notified waiter is dropped before it could acquire: its wake is
    // handed to the remaining waiter.
    let mut ccx = Context::new(WakeHandle::Task(0));
    f1.cancel(&mut m, &mut ccx);
    assert_eq!(ccx.wakes, vec![WakeHandle::Task(1)]);
    let mut cx3 = Context::new(WakeHandle::Task(1));
    assert!(f2.poll(&mut m, &mut cx3).unwrap().is_some());
}

#[test]
fn yield_once_then_ready() {
    let mut y = yield_now();
    let mut cx = Context::new(WakeHandle::Task(4));
    // The first poll suspends, wakes its own flag and signals the latch.
    assert!(!y.poll(&mut cx));
    assert_eq!(cx.wakes, vec![WakeHandle::Task(4)]);
    assert!(cx.event);
    // The second poll completes without touching the context.
    let mut cx2 = Context::new(WakeHandle::Task(4));
    assert!(y.poll(&mut cx2));
    assert!(cx2.wakes.is_empty());
    assert!(!cx2.event);
}

#[test]
fn arena_alignment_and_exhaustion() {
    let mut a = Arena::new(ARENA_SIZE);
    assert_eq!(a.alloc_init(10, 1), Ok(0));
    // The cursor is rounded up to the next multiple of the alignment.
    assert_eq!(a.alloc_init(16, 8), Ok(16));
    assert_eq!(a.cursor, 32);
    assert_eq!(a.alloc_init(1, 4), Ok(32));
    assert_eq!(a.alloc_init(ARENA_SIZE, 1), Err(Fatal::ArenaExhausted));
    // Allocation is monotonic: a failed request leaves the cursor alone.
    assert_eq!(a.cursor, 33);
    assert_eq!(a.alloc_init(3, 2), Ok(34));
}
