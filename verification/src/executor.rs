//! The executor: a single-threaded, round-robin cooperative scheduler.
//!
//! The executor owns the scheduling state — the main computation's ready
//! flag, the append-only task table and the event latch — and decides, round
//! by round, which computation to poll next.  The computations themselves
//! and the processor's sleep instruction cannot live inside the engine; they
//! stand behind the [`Workload`] trait, which the surrounding program
//! implements, and [`Executor::block_on`] drives them through it.
//!
//! A scheduling round examines the main flag first and then every task flag
//! in insertion order.  A flag is cleared *before* the poll, so a wake
//! arriving during the poll sets it again and the task is polled in the next
//! round; this is what makes wakes impossible to lose.  The round logic is
//! mirrored by the specification functions [`sched_step`] and
//! [`sched_trace`], over which the round-robin and no-lost-wake laws are
//! proved.

use vstd::prelude::*;

use crate::Fatal;
use crate::NTASKS;
use crate::wake::Context;
use crate::wake::WakeHandle;

verus! {

/// A task record: the scheduling half of a spawned task.  The polled
/// computation that belongs to it lives outside the engine, indexed by the
/// task's position in the table.
pub struct Node {
    /// The task's ready flag.  Set by wakers (also from interrupt context on
    /// the target), cleared by the scheduler just before each poll.
    pub ready: bool,
}

/// What the scheduler asks of the caller next.
#[derive(Clone, Copy, Debug, PartialEq, Eq, Structural)]
pub enum Action {
    /// Poll the main computation; its flag was just cleared.
    PollMain,
    /// Poll the task with this index; its flag was just cleared.
    PollTask(usize),
    /// The round is over and at least one computation was polled: start the
    /// next round without sleeping.
    EndWoken,
    /// The round is over and nothing was polled: sleep until an event.
    EndIdle,
}

/// The scheduling state a round works on, as the specification sees it.
pub struct SchedState {
    /// The main computation's ready flag.
    pub main_ready: bool,
    /// The spawned tasks' ready flags, in insertion order.
    pub flags: Seq<bool>,
    /// Position of the round: `0` before the main flag is examined,
    /// `p` in `1..=len` before task `p - 1` is examined, `len + 1` at the
    /// round's end.
    pub pos: int,
    /// Whether some computation was polled in this round.
    pub woken: bool,
}

/// The first position in `p..=len` whose task flag is set, or `len + 1` if
/// none is (position `q` stands for task `q - 1`).
pub open spec fn next_ready(flags: Seq<bool>, p: int, len: int) -> int
    decreases len - p + 1,
{
    if p < 1 || p > len {
        len + 1
    } else if flags[p - 1] {
        p
    } else {
        next_ready(flags, p + 1, len)
    }
}

/// One decision of the scheduler: from state `s` (with `len` the snapshot of
/// the table length), the next state and the action taken.
pub open spec fn sched_step(s: SchedState, len: int) -> (SchedState, Action) {
    if s.pos == 0 && s.main_ready {
        (
            SchedState { main_ready: false, flags: s.flags, pos: 1, woken: true },
            Action::PollMain,
        )
    } else {
        let start = if s.pos == 0 {
            1int
        } else {
            s.pos
        };
        let q = next_ready(s.flags, start, len);
        if q <= len {
            (
                SchedState {
                    main_ready: s.main_ready,
                    flags: s.flags.update(q - 1, false),
                    pos: q + 1,
                    woken: true,
                },
                Action::PollTask((q - 1) as usize),
            )
        } else if s.woken {
            (s, Action::EndWoken)
        } else {
            (s, Action::EndIdle)
        }
    }
}

proof fn lemma_contains_push<A>(s: Seq<A>, x: A, y: A)
    ensures
        s.push(x).contains(y) == (s.contains(y) || x == y),
{
    assert(s.push(x)[s.len() as int] == x);
    if s.push(x).contains(y) {
        let w = choose|w: int| 0 <= w < s.push(x).len() && s.push(x)[w] == y;
        if w < s.len() {
            assert(s[w] == y);
        }
    }
    if s.contains(y) {
        let w = choose|w: int| 0 <= w < s.len() && s[w] == y;
        assert(s.push(x)[w] == y);
    }
}

/// What `next_ready` returns: the least set position in `p..=len`, or
/// `len + 1` if none is set.
proof fn lemma_next_ready_char(flags: Seq<bool>, p: int, len: int)
    requires
        1 <= p <= len + 1,
        len <= flags.len(),
    ensures
        ({
            let q = next_ready(flags, p, len);
            &&& p <= q <= len + 1
            &&& q <= len ==> flags[q - 1]
            &&& forall|j: int| p <= j < q ==> !(#[trigger] flags[j - 1])
        }),
    decreases len + 1 - p,
{
    if p <= len && !flags[p - 1] {
        lemma_next_ready_char(flags, p + 1, len);
    }
}

/// The actions of the rest of the round: repeated `sched_step`s up to and
/// including the round's closing `EndWoken` or `EndIdle`.
pub open spec fn sched_trace(s: SchedState, len: int) -> Seq<Action>
    decreases len + 1 - s.pos,
        when 0 <= s.pos <= len + 1 && 0 <= len <= s.flags.len()
        via sched_trace_dec
{
    let (s2, a) = sched_step(s, len);
    if a is EndWoken || a is EndIdle {
        seq![a]
    } else {
        seq![a] + sched_trace(s2, len)
    }
}

#[via_fn]
proof fn sched_trace_dec(s: SchedState, len: int) {
    let start = if s.pos == 0 {
        1int
    } else {
        s.pos
    };
    if 0 <= s.pos <= len + 1 && 0 <= len <= s.flags.len() && !(s.pos == 0 && s.main_ready) {
        lemma_next_ready_char(s.flags, start, len);
    }
}

/// Law (round robin): in a round entered with the main flag and every task
/// flag set, the scheduler polls the main computation first and then every
/// task exactly once, in index order, before the round ends.
pub proof fn lemma_round_robin(s: SchedState, len: int)
    requires
        s.pos == 0,
        !s.woken,
        s.main_ready,
        0 <= len <= s.flags.len(),
        forall|i: int| 0 <= i < len ==> s.flags[i],
    ensures
        sched_trace(s, len) == seq![Action::PollMain] + Seq::new(
            len as nat,
            |i: int| Action::PollTask(i as usize),
        ) + seq![Action::EndWoken],
{
    let (s1, a1) = sched_step(s, len);
    lemma_round_robin_tail(s1, len, 1);
    assert(sched_trace(s, len) =~= seq![Action::PollMain] + sched_trace(s1, len));
    assert(Seq::new((len + 1 - 1) as nat, |i: int| Action::PollTask((1 - 1 + i) as usize)) =~= Seq::new(
        len as nat,
        |i: int| Action::PollTask(i as usize),
    ));
    assert(sched_trace(s, len) =~= seq![Action::PollMain] + Seq::new(
        len as nat,
        |i: int| Action::PollTask(i as usize),
    ) + seq![Action::EndWoken]);
}

proof fn lemma_round_robin_tail(s: SchedState, len: int, p: int)
    requires
        s.pos == p,
        1 <= p <= len + 1,
        s.woken,
        len <= s.flags.len(),
        forall|i: int| p - 1 <= i < len ==> s.flags[i],
    ensures
        sched_trace(s, len) == Seq::new(
            (len + 1 - p) as nat,
            |i: int| Action::PollTask((p - 1 + i) as usize),
        ) + seq![Action::EndWoken],
    decreases len + 1 - p,
{
    lemma_next_ready_char(s.flags, p, len);
    let (s2, a) = sched_step(s, len);
    if p == len + 1 {
        assert(sched_trace(s, len) =~= Seq::new(
            (len + 1 - p) as nat,
            |i: int| Action::PollTask((p - 1 + i) as usize),
        ) + seq![Action::EndWoken]);
    } else {
        assert(next_ready(s.flags, p, len) == p);
        lemma_round_robin_tail(s2, len, p + 1);
        assert(sched_trace(s, len) =~= Seq::new(
            (len + 1 - p) as nat,
            |i: int| Action::PollTask((p - 1 + i) as usize),
        ) + seq![Action::EndWoken]);
    }
}

/// Law (no lost wakes): if task `i`'s flag is set and the round has not yet
/// passed position `i + 1`, the round polls task `i`.  Since the scheduler
/// clears a flag only at the moment it emits the task's poll, and
/// [`Executor::apply`] turns every wake issued during a poll back into a set
/// flag, a task woken during or after its own poll is polled again in the
/// next round.
pub proof fn lemma_ready_task_is_polled(s: SchedState, len: int, i: int)
    requires
        0 <= i < len,
        len <= s.flags.len(),
        s.flags[i],
        0 <= s.pos <= i + 1,
    ensures
        sched_trace(s, len).contains(Action::PollTask(i as usize)),
    decreases len + 1 - s.pos,
{
    let (s2, a) = sched_step(s, len);
    let tr = sched_trace(s, len);
    if s.pos == 0 && s.main_ready {
        lemma_ready_task_is_polled(s2, len, i);
        let t2 = sched_trace(s2, len);
        let k = choose|k: int| 0 <= k < t2.len() && t2[k] == Action::PollTask(i as usize);
        assert(tr[k + 1] == Action::PollTask(i as usize));
    } else {
        let start = if s.pos == 0 {
            1int
        } else {
            s.pos
        };
        lemma_next_ready_char(s.flags, start, len);
        let q = next_ready(s.flags, start, len);
        if q > i + 1 {
            assert(!s.flags[(i + 1) - 1]);
            assert(false);
        }
        assert(q <= i + 1);
        if q == i + 1 {
            assert(tr[0] == Action::PollTask(i as usize));
        } else {
            assert(s2.flags[i]);
            lemma_ready_task_is_polled(s2, len, i);
            let t2 = sched_trace(s2, len);
            let k = choose|k: int| 0 <= k < t2.len() && t2[k] == Action::PollTask(i as usize);
            assert(tr[k + 1] == Action::PollTask(i as usize));
        }
    }
}

/// The walking state of one scheduling round.
pub struct Round {
    /// Current position, as in [`SchedState::pos`].
    pub pos: usize,
    /// The table length observed when the round began.
    pub len: usize,
    /// Whether some computation was polled in this round.
    pub woken: bool,
}

/// The computations the executor drives, and the platform's sleep hook.
///
/// This is the boundary of the engine: the implementor owns the polled
/// computations (the analog of the stored futures) and the processor's
/// wait-for-event instruction.  A poll receives a [`Context`] carrying its
/// waker and collecting its wakes; the executor applies the context to its
/// flags when the poll returns.
pub trait Workload<T> {
    /// Polls the main computation.  `Some` is the computation's final value;
    /// `None` means it is pending.
    fn poll_main(&mut self, cx: &mut Context) -> Option<T>;

    /// Polls spawned task `i`.  A spawned task must never complete.
    fn poll_task(&mut self, i: usize, cx: &mut Context) -> TaskStatus;

    /// Sleeps until an event or interrupt arrives; wakes performed by
    /// interrupt handlers while sleeping are issued through `cx`.
    fn wait_for_event(&mut self, cx: &mut Context);
}

/// What polling a spawned task reported.
#[derive(Clone, Copy, Debug, PartialEq, Eq, Structural)]
pub enum TaskStatus {
    /// The task suspended; it will be polled again once woken.
    Pending,
    /// The task's computation returned — a structural error for immortal
    /// tasks.
    Completed,
}

/// The executor singleton: the re-entry guard, the main flag, the
/// append-only task table and the event latch.
pub struct Executor {
    /// Guards against nested `block_on` calls.
    pub in_block_on: bool,
    /// The main computation's ready flag; lives across one `block_on`.
    pub main_ready: bool,
    /// The task table: one record per spawned task, in spawn order.
    pub tasks: Vec<Node>,
    /// The event latch: set when an event was signalled since the last
    /// sleep, making the next sleep return immediately.
    pub event: bool,
}

impl Executor {
    /// The table never exceeds its fixed capacity.
    pub open spec fn wf(&self) -> bool {
        self.tasks@.len() <= NTASKS
    }

    /// The task ready flags, in insertion order.
    pub open spec fn flags(&self) -> Seq<bool> {
        self.tasks@.map_values(|n: Node| n.ready)
    }

    /// Creates an executor with an empty task table.
    pub fn new() -> (r: Executor)
        ensures
            r.wf(),
            !r.in_block_on,
            !r.main_ready,
            r.tasks@.len() == 0,
            !r.event,
    {
        Executor { in_block_on: false, main_ready: false, tasks: Vec::new(), event: false }
    }

    /// Appends a task record to the table, born ready so it is polled in the
    /// first round.  Returns the new task's index, or
    /// [`Fatal::TaskTableFull`] exactly when the table is at capacity.
    pub fn spawn(&mut self) -> (r: Result<usize, Fatal>)
        requires
            old(self).wf(),
        ensures
            final(self).wf(),
            final(self).in_block_on == old(self).in_block_on,
            final(self).main_ready == old(self).main_ready,
            final(self).event == old(self).event,
            if old(self).tasks@.len() < NTASKS {
                &&& r == Ok::<usize, Fatal>(old(self).tasks@.len() as usize)
                &&& final(self).tasks@.len() == old(self).tasks@.len() + 1
                &&& final(self).flags() == old(self).flags().push(true)
            } else {
                &&& r == Err::<usize, Fatal>(Fatal::TaskTableFull)
                &&& *final(self) == *old(self)
            },
    {
        let n = self.tasks.len();
        if n < NTASKS {
            self.tasks.push(Node { ready: true });
            proof {
                assert(self.flags() =~= old(self).flags().push(true));
            }
            Ok(n)
        } else {
            Err(Fatal::TaskTableFull)
        }
    }

    /// Wakes spawned task `i` from outside any poll — the interrupt path.
    /// The interrupt also latches the event, so a sleeping executor resumes.
    pub fn wake_task(&mut self, i: usize)
        requires
            i < old(self).tasks@.len(),
        ensures
            final(self).in_block_on == old(self).in_block_on,
            final(self).main_ready == old(self).main_ready,
            final(self).tasks@.len() == old(self).tasks@.len(),
            final(self).flags() == old(self).flags().update(i as int, true),
            final(self).event,
    {
        let node = &mut self.tasks[i];
        node.ready = true;
        self.event = true;
        proof {
            assert(self.flags() =~= old(self).flags().update(i as int, true));
        }
    }

    /// Wakes the main computation from outside any poll.
    pub fn wake_main(&mut self)
        ensures
            final(self).in_block_on == old(self).in_block_on,
            final(self).main_ready,
            final(self).tasks@ == old(self).tasks@,
            final(self).event,
    {
        self.main_ready = true;
        self.event = true;
    }

    /// Applies the wakes a poll collected: every named flag is set, and the
    /// event latch is set if the poll signalled it.  A handle naming a task
    /// the table does not have is ignored; the engine's own wakers never
    /// produce one.
    pub fn apply(&mut self, cx: Context)
        ensures
            final(self).in_block_on == old(self).in_block_on,
            final(self).tasks@.len() == old(self).tasks@.len(),
            final(self).main_ready == (old(self).main_ready || cx.wakes@.contains(
                WakeHandle::Main,
            )),
            forall|i: int|
                0 <= i < old(self).tasks@.len() ==> final(self).flags()[i] == (old(self).flags()[i]
                    || cx.wakes@.contains(WakeHandle::Task(i as usize))),
            final(self).event == (old(self).event || cx.event),
    {
        let ghost all = cx.wakes@;
        let mut k: usize = 0;
        while k < cx.wakes.len()
            invariant
                k <= cx.wakes@.len(),
                cx.wakes@ == all,
                self.in_block_on == old(self).in_block_on,
                self.event == old(self).event,
                self.tasks@.len() == old(self).tasks@.len(),
                self.main_ready == (old(self).main_ready || all.subrange(0, k as int).contains(
                    WakeHandle::Main,
                )),
                forall|i: int|
                    0 <= i < old(self).tasks@.len() ==> self.flags()[i] == (old(self).flags()[i]
                        || all.subrange(0, k as int).contains(WakeHandle::Task(i as usize))),
            decreases cx.wakes@.len() - k,
        {
            let ghost pre = self.flags();
            let h = cx.wakes[k];
            match h {
                WakeHandle::Main => {
                    self.main_ready = true;
                },
                WakeHandle::Task(t) => {
                    if t < self.tasks.len() {
                        let node = &mut self.tasks[t];
                        node.ready = true;
                        proof {
                            assert(self.flags() =~= pre.update(t as int, true));
                        }
                    }
                },
            }
            k = k + 1;
            proof {
                let sub = all.subrange(0, k - 1);
                assert(all.subrange(0, k as int) =~= sub.push(all[k - 1]));
                lemma_contains_push(sub, all[k - 1], WakeHandle::Main);
                assert forall|i: int| 0 <= i < old(self).tasks@.len() implies self.flags()[i] == (
                old(self).flags()[i] || all.subrange(0, k as int).contains(
                    WakeHandle::Task(i as usize),
                )) by {
                    lemma_contains_push(sub, all[k - 1], WakeHandle::Task(i as usize));
                }
            }
        }
        proof {
            assert(all.subrange(0, all.len() as int) =~= all);
            assert forall|i: int| 0 <= i < old(self).tasks@.len() implies self.flags()[i] == (old(
                self,
            ).flags()[i] || all.contains(WakeHandle::Task(i as usize))) by {
                assert(self.flags()[i] == (old(self).flags()[i] || all.subrange(
                    0,
                    k as int,
                ).contains(WakeHandle::Task(i as usize))));
            }
        }
        self.event = self.event || cx.event;
    }

    /// A round is consistent with the executor it walks.
    pub open spec fn round_wf(&self, r: Round) -> bool {
        &&& r.len <= self.tasks@.len()
        &&& r.pos <= r.len + 1
    }

    /// The scheduling state, as the specification functions see it.
    pub open spec fn sched(&self, r: Round) -> SchedState {
        SchedState {
            main_ready: self.main_ready,
            flags: self.flags(),
            pos: r.pos as int,
            woken: r.woken,
        }
    }

    /// Begins a round: snapshots the table length, as the scheduler reads it
    /// once per round.
    pub fn round_start(&self) -> (r: Round)
        ensures
            r.pos == 0,
            r.len == self.tasks@.len(),
            !r.woken,
            self.round_wf(r),
    {
        Round { pos: 0, len: self.tasks.len(), woken: false }
    }

    /// One decision of the scheduler, exactly [`sched_step`]: examines the
    /// flag at the round's position, clears it if set, and says what to do.
    pub fn round_next(&mut self, r: &mut Round) -> (a: Action)
        requires
            old(self).wf(),
            old(self).round_wf(*old(r)),
        ensures
            final(self).wf(),
            final(self).round_wf(*final(r)),
            final(r).len == old(r).len,
            final(self).in_block_on == old(self).in_block_on,
            final(self).event == old(self).event,
            final(self).tasks@.len() == old(self).tasks@.len(),
            ({
                let (s2, act) = sched_step(old(self).sched(*old(r)), old(r).len as int);
                &&& a == act
                &&& final(self).main_ready == s2.main_ready
                &&& final(self).flags() == s2.flags
                &&& final(r).pos == s2.pos
                &&& final(r).woken == s2.woken
            }),
            (a is PollMain || a is PollTask) ==> final(r).pos > old(r).pos,
            (a is EndWoken || a is EndIdle) ==> *final(self) == *old(self) && *final(r) == *old(
                r,
            ),
            a is PollTask ==> a->PollTask_0 < old(r).len,
    {
        proof {
            lemma_next_ready_char(
                old(self).flags(),
                if old(r).pos == 0 {
                    1int
                } else {
                    old(r).pos as int
                },
                old(r).len as int,
            );
        }
        if r.pos == 0 {
            if self.main_ready {
                self.main_ready = false;
                r.woken = true;
                r.pos = 1;
                return Action::PollMain;
            }
        }
        let ghost start: int = if old(r).pos == 0 {
            1int
        } else {
            old(r).pos as int
        };
        let mut q: usize = if r.pos == 0 {
            1
        } else {
            r.pos
        };
        while q <= r.len
            invariant
                old(self).wf(),
                *self == *old(self),
                *r == *old(r),
                start == (if old(r).pos == 0 { 1int } else { old(r).pos as int }),
                !(old(r).pos == 0 && old(self).main_ready),
                1 <= start,
                start <= q <= r.len + 1,
                r.len <= self.tasks@.len(),
                forall|j: int| start <= j < q ==> !(#[trigger] old(self).flags()[j - 1]),
            decreases r.len + 1 - q,
        {
            let is_ready = self.tasks[q - 1].ready;
            proof {
                assert(old(self).flags()[q - 1] == old(self).tasks@[q - 1].ready);
            }
            if is_ready {
                proof {
                    lemma_next_ready_char(old(self).flags(), start, old(r).len as int);
                    let nr = next_ready(old(self).flags(), start, old(r).len as int);
                    if nr < q {
                        assert(old(self).flags()[nr - 1]);
                        assert(false);
                    }
                    if nr > q {
                        assert(!old(self).flags()[q - 1]);
                        assert(false);
                    }
                    assert(nr == q);
                }
                let ghost pre = self.flags();
                let node = &mut self.tasks[q - 1];
                node.ready = false;
                proof {
                    assert(self.flags() =~= pre.update(q - 1 as int, false));
                }
                r.woken = true;
                r.pos = q + 1;
                return Action::PollTask(q - 1);
            }
            q = q + 1;
        }
        proof {
            lemma_next_ready_char(old(self).flags(), start, old(r).len as int);
            assert(next_ready(old(self).flags(), start, old(r).len as int) == old(r).len + 1);
        }
        if r.woken {
            Action::EndWoken
        } else {
            Action::EndIdle
        }
    }

    /// Drives the workload's main computation, polling every spawned task's
    /// computation as its flag comes up, for at most `max_rounds` scheduling
    /// rounds.
    ///
    /// Returns `Ok(Some(v))` with the main computation's value, `Ok(None)`
    /// if the budget ran out first, [`Fatal::BlockOnReentry`] exactly when
    /// called while another `block_on` runs, and [`Fatal::TaskCompleted`] if
    /// a spawned task's computation returned.
    ///
    /// When a round ends without any poll, the executor consults the event
    /// latch: if it is set the sleep is skipped, otherwise the workload's
    /// sleep hook runs and the wakes it collected are applied.
    pub fn block_on<T, W: Workload<T>>(&mut self, w: &mut W, max_rounds: usize) -> (r: Result<
        Option<T>,
        Fatal,
    >)
        requires
            old(self).wf(),
        ensures
            final(self).wf(),
            (r == Err::<Option<T>, Fatal>(Fatal::BlockOnReentry)) <==> old(self).in_block_on,
            old(self).in_block_on ==> *final(self) == *old(self),
            !old(self).in_block_on ==> {
                &&& !final(self).in_block_on
                &&& final(self).tasks@.len() == old(self).tasks@.len()
                &&& (r is Err ==> r == Err::<Option<T>, Fatal>(Fatal::TaskCompleted))
            },
    {
        if self.in_block_on {
            return Err(Fatal::BlockOnReentry);
        }
        self.in_block_on = true;
        // Polled once immediately: the flag is born set.
        self.main_ready = true;
        let mut rounds: usize = 0;
        while rounds < max_rounds
            invariant
                !old(self).in_block_on,
                self.wf(),
                self.in_block_on,
                self.tasks@.len() == old(self).tasks@.len(),
                rounds <= max_rounds,
            decreases max_rounds - rounds,
        {
            let mut round = self.round_start();
            loop
                invariant
                    !old(self).in_block_on,
                    self.wf(),
                    self.in_block_on,
                    self.tasks@.len() == old(self).tasks@.len(),
                    self.round_wf(round),
                    round.len <= self.tasks@.len(),
                decreases round.len + 1 - round.pos,
            {
                let a = self.round_next(&mut round);
                match a {
                    Action::PollMain => {
                        let mut cx = Context::new(WakeHandle::Main);
                        let out = w.poll_main(&mut cx);
                        self.apply(cx);
                        if let Some(v) = out {
                            self.in_block_on = false;
                            return Ok(Some(v));
                        }
                    },
                    Action::PollTask(i) => {
                        let mut cx = Context::new(WakeHandle::Task(i));
                        let st = w.poll_task(i, &mut cx);
                        self.apply(cx);
                        if matches!(st, TaskStatus::Completed) {
                            // A spawned task must never return; on the
                            // target this aborts.
                            self.in_block_on = false;
                            return Err(Fatal::TaskCompleted);
                        }
                    },
                    Action::EndWoken => {
                        break;
                    },
                    Action::EndIdle => {
                        if self.event {
                            // The latch is set: an event arrived since the
                            // last sleep, so the sleep returns immediately.
                            self.event = false;
                        } else {
                            let mut cx = Context::new(WakeHandle::Main);
                            w.wait_for_event(&mut cx);
                            self.apply(cx);
                            self.event = false;
                        }
                        break;
                    },
                }
            }
            rounds = rounds + 1;
        }
        self.in_block_on = false;
        Ok(None)
    }
}

} // verus!
