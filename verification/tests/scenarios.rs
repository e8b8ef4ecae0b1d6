//! End-to-end scheduling scenarios: workloads driven through `block_on`.

use async_embedded::executor::{Action, Executor, TaskStatus, Workload};
use async_embedded::channel::{Channel, RecvFut, SendFut};
use async_embedded::mutex::{LockFut, Mutex, MutexGuard};
use async_embedded::task::{block_on, spawn, yield_now, Yield};
use async_embedded::wake::{Context, WakeHandle};
use async_embedded::{Fatal, NTASKS};

/// Task A of the yield-interleaving scenario: `loop { log("A"); yield }`.
/// Main task B: `log("B"); yield; log("B"); yield; log("DONE"); park`.
struct YieldInterleaving {
    log: Vec<String>,
    a_yield: Option<Yield>,
    b_step: u8,
    b_yield: Option<Yield>,
}

impl Workload<()> for YieldInterleaving {
    fn poll_main(&mut self, cx: &mut Context) -> Option<()> {
        loop {
            if let Some(y) = self.b_yield.as_mut() {
                if !y.poll(cx) {
                    return None;
                }
                self.b_yield = None;
            }
            match self.b_step {
                0 | 1 => {
                    self.log.push("B".to_string());
                    self.b_step += 1;
                    self.b_yield = Some(yield_now());
                }
                2 => {
                    self.log.push("DONE".to_string());
                    self.b_step = 3;
                }
                _ => return None, // park forever
            }
        }
    }

    fn poll_task(&mut self, _i: usize, cx: &mut Context) -> TaskStatus {
        loop {
            if let Some(y) = self.a_yield.as_mut() {
                if !y.poll(cx) {
                    return TaskStatus::Pending;
                }
                self.a_yield = None;
            }
            self.log.push("A".to_string());
            self.a_yield = Some(yield_now());
        }
    }

    fn wait_for_event(&mut self, _cx: &mut Context) {
        panic!("no sleep expected while tasks keep waking");
    }
}

#[test]
fn two_task_yield_interleaving() {
    let mut ex = Executor::new();
    spawn(&mut ex).unwrap();
    let mut w = YieldInterleaving { log: Vec::new(), a_yield: None, b_step: 0, b_yield: None };
    let r = block_on(&mut ex, &mut w, 16);
    assert!(matches!(r, Ok(None)));
    assert!(w.log.len() >= 5);
    assert_eq!(&w.log[..5], &["B", "A", "B", "A", "DONE"]);
}

/// The mutex-handoff scenario: the lock is taken outside any task, task A
/// writes through the guard, releases and yields, and main B suspends on
/// `lock` until the release hands the value over.
struct MutexHandoff {
    log: Vec<String>,
    mutex: Mutex<u32>,
    guard: Option<MutexGuard<u32>>,
    a_step: u8,
    a_yield: Option<Yield>,
    b_step: u8,
    b_fut: Option<LockFut>,
}

impl Workload<()> for MutexHandoff {
    fn poll_main(&mut self, cx: &mut Context) -> Option<()> {
        if self.b_step == 0 {
            self.log.push("B-before".to_string());
            self.b_fut = Some(self.mutex.lock());
            self.b_step = 1;
        }
        let mut f = self.b_fut.take().unwrap();
        match f.poll(&mut self.mutex, cx).unwrap() {
            Some(mut g) => {
                self.log.push(format!("B-{}", *g.get_mut()));
                self.log.push("DONE".to_string());
                Some(())
            }
            None => {
                self.b_fut = Some(f);
                None
            }
        }
    }

    fn poll_task(&mut self, _i: usize, cx: &mut Context) -> TaskStatus {
        loop {
            if let Some(y) = self.a_yield.as_mut() {
                if !y.poll(cx) {
                    return TaskStatus::Pending;
                }
                self.a_yield = None;
            }
            if self.a_step == 0 {
                self.a_step = 1;
                self.log.push("A-before-write".to_string());
                let mut g = self.guard.take().unwrap();
                *g.get_mut() = 42;
                self.mutex.unlock(g, cx);
                self.log.push("A-released".to_string());
            }
            self.log.push("A-yield".to_string());
            self.a_yield = Some(yield_now());
        }
    }

    fn wait_for_event(&mut self, _cx: &mut Context) {
        panic!("no sleep expected while tasks keep waking");
    }
}

#[test]
fn mutex_handoff() {
    let mut ex = Executor::new();
    spawn(&mut ex).unwrap();
    let mut mutex = Mutex::new(0u32);
    let guard = mutex.try_lock();
    assert!(guard.is_some());
    let mut w = MutexHandoff {
        log: Vec::new(),
        mutex,
        guard,
        a_step: 0,
        a_yield: None,
        b_step: 0,
        b_fut: None,
    };
    let r = block_on(&mut ex, &mut w, 16);
    assert!(matches!(r, Ok(Some(()))));
    assert_eq!(
        w.log,
        vec!["B-before", "A-before-write", "A-released", "A-yield", "B-42", "DONE"]
    );
}

/// The channel-handoff scenario: main B suspends on an empty channel, task
/// A sends one value and yields, and B receives it in the next round.
struct ChannelHandoff {
    log: Vec<String>,
    ch: Channel<u32>,
    a_step: u8,
    a_send: Option<SendFut<u32>>,
    a_yield: Option<Yield>,
    b_step: u8,
    b_recv: Option<RecvFut>,
}

impl Workload<()> for ChannelHandoff {
    fn poll_main(&mut self, cx: &mut Context) -> Option<()> {
        if self.b_step == 0 {
            self.log.push("B-recv".to_string());
            self.b_recv = Some(self.ch.recv());
            self.b_step = 1;
        }
        let mut f = self.b_recv.take().unwrap();
        match f.poll(&mut self.ch, cx).unwrap() {
            Some(v) => {
                self.log.push(format!("B-{}", v));
                self.log.push("DONE".to_string());
                Some(())
            }
            None => {
                self.b_recv = Some(f);
                None
            }
        }
    }

    fn poll_task(&mut self, _i: usize, cx: &mut Context) -> TaskStatus {
        loop {
            if let Some(y) = self.a_yield.as_mut() {
                if !y.poll(cx) {
                    return TaskStatus::Pending;
                }
                self.a_yield = None;
            }
            if self.a_step == 0 {
                self.a_step = 1;
                self.log.push("A-send".to_string());
                self.a_send = Some(self.ch.send(42));
            }
            if let Some(f) = self.a_send.as_mut() {
                if !f.poll(&mut self.ch, cx).unwrap() {
                    return TaskStatus::Pending;
                }
                self.a_send = None;
                self.log.push("A-after-send".to_string());
            }
            self.log.push("A-yield".to_string());
            self.a_yield = Some(yield_now());
        }
    }

    fn wait_for_event(&mut self, _cx: &mut Context) {
        panic!("no sleep expected while tasks keep waking");
    }
}

#[test]
fn channel_handoff() {
    let mut ex = Executor::new();
    spawn(&mut ex).unwrap();
    let mut w = ChannelHandoff {
        log: Vec::new(),
        ch: Channel::new(),
        a_step: 0,
        a_send: None,
        a_yield: None,
        b_step: 0,
        b_recv: None,
    };
    let r = block_on(&mut ex, &mut w, 16);
    assert!(matches!(r, Ok(Some(()))));
    assert_eq!(
        w.log,
        vec!["B-recv", "A-send", "A-after-send", "A-yield", "B-42", "DONE"]
    );
}

/// The sleep-elision scenario: with nothing ready the executor sleeps; an
/// interrupt (the first `wait_for_event`) wakes the one task; afterwards
/// nothing wakes again and the executor re-enters the sleep with no poll in
/// between.
struct SleepElision {
    log: Vec<String>,
    wfe_calls: u8,
}

impl Workload<()> for SleepElision {
    fn poll_main(&mut self, _cx: &mut Context) -> Option<()> {
        self.log.push("main".to_string());
        None
    }

    fn poll_task(&mut self, _i: usize, _cx: &mut Context) -> TaskStatus {
        self.log.push("poll".to_string());
        TaskStatus::Pending
    }

    fn wait_for_event(&mut self, cx: &mut Context) {
        self.log.push("wfe".to_string());
        if self.wfe_calls == 0 {
            // The interrupt fires and sets the task's ready flag.
            cx.wake(WakeHandle::Task(0));
        }
        self.wfe_calls += 1;
    }
}

#[test]
fn sleep_elision() {
    let mut ex = Executor::new();
    spawn(&mut ex).unwrap();
    let mut w = SleepElision { log: Vec::new(), wfe_calls: 0 };
    let r = block_on(&mut ex, &mut w, 6);
    assert!(matches!(r, Ok(None)));
    // Round 1 polls main and the ready-born task; round 2 sleeps and the
    // interrupt wakes the task; round 3 polls exactly it; rounds 4..6 have
    // no flag set and sleep again with zero polls in between.
    assert_eq!(w.log, vec!["main", "poll", "wfe", "poll", "wfe", "wfe", "wfe"]);
}

/// A workload for tests that never get to poll anything.
struct Inert;

impl Workload<()> for Inert {
    fn poll_main(&mut self, _cx: &mut Context) -> Option<()> {
        Some(())
    }

    fn poll_task(&mut self, _i: usize, _cx: &mut Context) -> TaskStatus {
        TaskStatus::Pending
    }

    fn wait_for_event(&mut self, _cx: &mut Context) {}
}

#[test]
fn spawn_after_fill_aborts() {
    let mut ex = Executor::new();
    for i in 0..NTASKS {
        assert_eq!(spawn(&mut ex), Ok(i));
    }
    assert_eq!(spawn(&mut ex), Err(Fatal::TaskTableFull));
}

#[test]
fn block_on_reentry_aborts() {
    let mut ex = Executor::new();
    ex.in_block_on = true;
    let mut w = Inert;
    assert_eq!(block_on(&mut ex, &mut w, 4), Err(Fatal::BlockOnReentry));
    // The guard is still held by the outer call.
    assert!(ex.in_block_on);
    ex.in_block_on = false;
    assert_eq!(block_on(&mut ex, &mut w, 4), Ok(Some(())));
    assert!(!ex.in_block_on);
}

/// A workload whose spawned task returns — the structural error immortal
/// tasks must never commit.
struct Terminating;

impl Workload<()> for Terminating {
    fn poll_main(&mut self, _cx: &mut Context) -> Option<()> {
        None
    }

    fn poll_task(&mut self, _i: usize, _cx: &mut Context) -> TaskStatus {
        TaskStatus::Completed
    }

    fn wait_for_event(&mut self, _cx: &mut Context) {}
}

#[test]
fn task_completion_aborts() {
    let mut ex = Executor::new();
    spawn(&mut ex).unwrap();
    let mut w = Terminating;
    assert_eq!(block_on(&mut ex, &mut w, 4), Err(Fatal::TaskCompleted));
    assert!(!ex.in_block_on);
}

#[test]
fn interrupt_wake_sets_flag_and_latch() {
    let mut ex = Executor::new();
    spawn(&mut ex).unwrap();
    spawn(&mut ex).unwrap();
    // Drain the ready-born flags.
    let mut round = ex.round_start();
    assert_eq!(ex.round_next(&mut round), Action::PollTask(0));
    assert_eq!(ex.round_next(&mut round), Action::PollTask(1));
    assert_eq!(ex.round_next(&mut round), Action::EndWoken);
    ex.event = false;
    // An interrupt wakes task 1: its flag and the event latch go up.
    ex.wake_task(1);
    assert!(ex.tasks[1].ready && !ex.tasks[0].ready && ex.event);
    let mut next = ex.round_start();
    assert_eq!(ex.round_next(&mut next), Action::PollTask(1));
    // Waking the main flag works the same way.
    ex.event = false;
    ex.wake_main();
    assert!(ex.main_ready && ex.event);
}

#[test]
fn round_robin_order() {
    let mut ex = Executor::new();
    for _ in 0..3 {
        spawn(&mut ex).unwrap();
    }
    ex.main_ready = true;
    let mut round = ex.round_start();
    assert_eq!(ex.round_next(&mut round), Action::PollMain);
    assert_eq!(ex.round_next(&mut round), Action::PollTask(0));
    assert_eq!(ex.round_next(&mut round), Action::PollTask(1));
    assert_eq!(ex.round_next(&mut round), Action::PollTask(2));
    assert_eq!(ex.round_next(&mut round), Action::EndWoken);
    // All flags were cleared before the polls; a fresh round is idle.
    let mut idle = ex.round_start();
    assert_eq!(ex.round_next(&mut idle), Action::EndIdle);
}

#[test]
fn wake_during_poll_is_not_lost() {
    let mut ex = Executor::new();
    spawn(&mut ex).unwrap();
    let mut round = ex.round_start();
    // The task's flag is cleared as its poll is emitted...
    assert_eq!(ex.round_next(&mut round), Action::PollTask(0));
    assert!(!ex.tasks[0].ready);
    // ...a wake arrives while the task runs...
    let mut cx = Context::new(WakeHandle::Task(0));
    cx.wake_self();
    ex.apply(cx);
    // ...and the next round polls the task again.
    let mut next = ex.round_start();
    assert_eq!(ex.round_next(&mut next), Action::PollTask(0));
}
