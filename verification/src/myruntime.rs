//! The central orchestrator: owns the thread table, one ready structure
//! per policy, the current-running slot and the join-wait table, and
//! drives run-to-completion execution.

use vstd::prelude::*;
use crate::exits::Exits;
use crate::lottery::{lottery_winner, LotteryScheduler};
use crate::mythread::{routine_eval, MyThread, Routine, ThreadId};
use crate::mythreadattr::MyThreadAttr;
use crate::real_time::{insert_pos, RealTimeScheduler};
use crate::round_robin::RRScheduler;
use crate::scheduler_type::SchedulerType;
use crate::thread_state::ThreadState;

verus! {

/// The policy a creation request resolves to: round-robin when none is
/// named.
pub open spec fn chosen_policy(s: Option<SchedulerType>) -> SchedulerType {
    match s {
        Some(k) => k,
        None => SchedulerType::RoundRobin,
    }
}

/// Identifiers of a thread table are strictly increasing: handles are
/// allocated monotonically and never reused while a record exists.
pub open spec fn ids_strictly_increasing(s: Seq<MyThread>) -> bool {
    forall|i: int, j: int| 0 <= i < j < s.len() ==> s[i].id < s[j].id
}

/// How many table records have not yet terminated.
pub open spec fn count_unterminated(s: Seq<MyThread>) -> int
    decreases s.len(),
{
    if s.len() == 0 {
        0
    } else {
        (if s[0].state != ThreadState::Terminated {
            1int
        } else {
            0int
        }) + count_unterminated(s.drop_first())
    }
}

/// The table position of the record with identifier `tid`.
pub open spec fn idx_of(s: Seq<MyThread>, tid: ThreadId) -> int {
    choose|i: int| 0 <= i < s.len() && s[i].id == tid
}

pub open spec fn has_tid(s: Seq<MyThread>, tid: ThreadId) -> bool {
    exists|i: int| 0 <= i < s.len() && s[i].id == tid
}

/// The position of the join-wait entry for `target`.
pub open spec fn wait_idx(s: Seq<(ThreadId, ThreadId)>, target: ThreadId) -> int {
    choose|i: int| 0 <= i < s.len() && (#[trigger] s[i]).0 == target
}

/// Whether some entry of a join-wait table names `target`.
pub open spec fn wait_table_has(s: Seq<(ThreadId, ThreadId)>, target: ThreadId) -> bool {
    exists|i: int| 0 <= i < s.len() && (#[trigger] s[i]).0 == target
}

/// The waiter registered for `target` in a join-wait table.
pub open spec fn waiter_for(s: Seq<(ThreadId, ThreadId)>, target: ThreadId) -> ThreadId {
    s[wait_idx(s, target)].1
}

/// The exact effect of waking `target`'s joiner on the three affected
/// components: if an entry names the target, the entry goes away and a
/// waiter found blocked is readied and appended to the driver queue;
/// otherwise nothing moves.
pub open spec fn wake_rel(
    threads0: Seq<MyThread>,
    wait0: Seq<(ThreadId, ThreadId)>,
    run0: Seq<ThreadId>,
    threads1: Seq<MyThread>,
    wait1: Seq<(ThreadId, ThreadId)>,
    run1: Seq<ThreadId>,
    target: ThreadId,
) -> bool {
    if wait_table_has(wait0, target) {
        let w = waiter_for(wait0, target);
        &&& wait1 == wait0.remove(wait_idx(wait0, target))
        &&& if has_tid(threads0, w) && threads0[idx_of(threads0, w)].state
            == ThreadState::Blocked {
            &&& threads1 == threads0.update(
                idx_of(threads0, w),
                (MyThread { state: ThreadState::Ready, ..threads0[idx_of(threads0, w)] }),
            )
            &&& run1 == run0.push(w)
        } else {
            &&& threads1 == threads0
            &&& run1 == run0
        }
    } else {
        &&& threads1 == threads0
        &&& wait1 == wait0
        &&& run1 == run0
    }
}

/// Whether any ready queue holds an entry for `t`.
pub open spec fn queued_in(rt: MyTRuntime, t: ThreadId) -> bool {
    ||| rt.rr.q@.contains(t)
    ||| exists|k: int|
        0 <= k < rt.lottery.entries@.len() && (#[trigger] rt.lottery.entries@[k]).0 == t
    ||| exists|k: int| 0 <= k < rt.real_time.q@.len() && (#[trigger] rt.real_time.q@[k]).1 == t
}

/// One scheduling step only moves records forward: the set of
/// identifiers, attributes, routines and policies is preserved, and a
/// terminated record is frozen for good.
pub open spec fn table_evolves(a: Seq<MyThread>, b: Seq<MyThread>) -> bool {
    &&& b.len() == a.len()
    &&& forall|i: int|
        0 <= i < a.len() ==> {
            &&& (#[trigger] b[i]).id == a[i].id
            &&& b[i].attr == a[i].attr
            &&& b[i].start_routine == a[i].start_routine
            &&& b[i].arg == a[i].arg
            &&& b[i].scheduler == a[i].scheduler
            &&& (a[i].state == ThreadState::Terminated ==> b[i] == a[i])
        }
}

/// Across one or more scheduling steps, a record that terminates does
/// so by running: it carries exactly its routine's result for its
/// argument, and an already-terminated record stays frozen.
pub open spec fn table_step_sound(a: Seq<MyThread>, b: Seq<MyThread>) -> bool {
    forall|i: int|
        0 <= i < a.len() && (#[trigger] b[i]).state == ThreadState::Terminated ==> {
            ||| (a[i].state == ThreadState::Terminated && b[i] == a[i])
            ||| b[i].ret_val == Some(routine_eval(a[i].start_routine, a[i].arg))
        }
}

/// Step soundness composes along evolving tables.
pub proof fn lemma_step_sound_trans(a: Seq<MyThread>, b: Seq<MyThread>, c: Seq<MyThread>)
    requires
        table_evolves(a, b),
        table_evolves(b, c),
        table_step_sound(a, b),
        table_step_sound(b, c),
    ensures
        table_step_sound(a, c),
{
    assert forall|i: int|
        0 <= i < a.len() && (#[trigger] c[i]).state == ThreadState::Terminated implies {
        ||| (a[i].state == ThreadState::Terminated && c[i] == a[i])
        ||| c[i].ret_val == Some(routine_eval(a[i].start_routine, a[i].arg))
    } by {
        if b[i].state == ThreadState::Terminated {
            assert(c[i] == b[i]);
        }
    }
}

/// The round-robin queue a full rebuild produces from a table: the
/// identifiers of ready round-robin records, in table order.
pub open spec fn rebuild_rr(s: Seq<MyThread>) -> Seq<ThreadId>
    decreases s.len(),
{
    if s.len() == 0 {
        Seq::empty()
    } else {
        let q = rebuild_rr(s.drop_last());
        let t = s.last();
        if t.state == ThreadState::Ready && t.scheduler == SchedulerType::RoundRobin {
            q.push(t.id)
        } else {
            q
        }
    }
}

/// The lottery pool a full rebuild produces from a table.
pub open spec fn rebuild_lottery(s: Seq<MyThread>) -> Seq<(ThreadId, u32)>
    decreases s.len(),
{
    if s.len() == 0 {
        Seq::empty()
    } else {
        let q = rebuild_lottery(s.drop_last());
        let t = s.last();
        if t.state == ThreadState::Ready && t.scheduler == SchedulerType::Lottery {
            q.push((t.id, crate::lottery::effective_tickets(t.attr.priority)))
        } else {
            q
        }
    }
}

/// The real-time queue a full rebuild produces from a table.
pub open spec fn rebuild_rt(s: Seq<MyThread>) -> Seq<(usize, ThreadId)>
    decreases s.len(),
{
    if s.len() == 0 {
        Seq::empty()
    } else {
        let q = rebuild_rt(s.drop_last());
        let t = s.last();
        if t.state == ThreadState::Ready && t.scheduler == SchedulerType::RealTime {
            q.insert(insert_pos(q, (t.attr.dead_line, t.id)), (t.attr.dead_line, t.id))
        } else {
            q
        }
    }
}

/// The runtime: thread table ordered by identifier, one ready structure
/// per policy, the running slot, the join-wait table (one waiter slot
/// per target) and the monotone identifier counter.
pub struct MyTRuntime {
    pub time_ms: usize,
    pub run_queue: Vec<ThreadId>,
    pub threads: Vec<MyThread>,
    pub next_id: ThreadId,
    pub current: Option<ThreadId>,
    pub wait_on: Vec<(ThreadId, ThreadId)>,
    pub rr: RRScheduler,
    pub lottery: LotteryScheduler,
    pub real_time: RealTimeScheduler,
}

impl MyTRuntime {
    /// Structural well-formedness: table sorted by identifier, every
    /// identifier below the counter, ready structures well formed, and
    /// at most one join-wait entry per target. Because execution is
    /// run-to-completion, control rests outside the runtime only
    /// between unit executions, so no record is in the transient
    /// `Running` state at an operation boundary; while the scheduler
    /// drives a routine, the running record is the one named by
    /// `current` (the single-`Running` invariant).
    pub open spec fn wf(&self) -> bool {
        &&& ids_strictly_increasing(self.threads@)
        &&& forall|i: int|
            0 <= i < self.threads@.len() ==> (#[trigger] self.threads@[i]).id < self.next_id
        &&& forall|i: int|
            0 <= i < self.threads@.len() ==> (#[trigger] self.threads@[i]).state
                != ThreadState::Running
        &&& self.lottery.wf()
        &&& self.real_time.wf()
        &&& forall|i: int, j: int|
            0 <= i < j < self.wait_on@.len() ==> (#[trigger] self.wait_on@[i]).0 != (
            #[trigger] self.wait_on@[j]).0
    }

    pub open spec fn has_thread(&self, tid: ThreadId) -> bool {
        has_tid(self.threads@, tid)
    }

    /// The record stored under `tid`.
    pub open spec fn thread_spec(&self, tid: ThreadId) -> MyThread {
        self.threads@[idx_of(self.threads@, tid)]
    }

    pub open spec fn is_terminated(&self, tid: ThreadId) -> bool {
        self.has_thread(tid) && self.thread_spec(tid).state == ThreadState::Terminated
    }

    /// Whether some join-wait entry names `target`.
    pub open spec fn has_waiter(&self, target: ThreadId) -> bool {
        wait_table_has(self.wait_on@, target)
    }

    /// The number of entries across all three ready queues.
    pub open spec fn queue_total(&self) -> int {
        self.rr.q@.len() as int + self.lottery.entries@.len() as int + self.real_time.q@.len() as int
    }

    pub fn new() -> (r: Self)
        ensures
            r.wf(),
            r.threads@ == Seq::<MyThread>::empty(),
            r.next_id == 0,
            r.current is None,
            r.wait_on@ == Seq::<(ThreadId, ThreadId)>::empty(),
            r.run_queue@ == Seq::<ThreadId>::empty(),
            r.time_ms == 0,
            r.rr.q@ == Seq::<ThreadId>::empty(),
            r.lottery.entries@ == Seq::<(ThreadId, u32)>::empty(),
            r.real_time.q@ == Seq::<(usize, ThreadId)>::empty(),
    {
        MyTRuntime {
            time_ms: 0,
            run_queue: Vec::new(),
            threads: Vec::new(),
            next_id: 0,
            current: None,
            wait_on: Vec::new(),
            rr: RRScheduler::new(),
            lottery: LotteryScheduler::new(),
            real_time: RealTimeScheduler::new(),
        }
    }

    /// Advances the runtime clock, saturating at the top of the range.
    pub fn advance_steps(&mut self, passed: usize)
        ensures
            final(self).time_ms == if old(self).time_ms + passed > usize::MAX {
                usize::MAX
            } else {
                (old(self).time_ms + passed) as usize
            },
            *final(self) == (MyTRuntime { time_ms: final(self).time_ms, ..*old(self) }),
    {
        if passed > usize::MAX - self.time_ms {
            self.time_ms = usize::MAX;
        } else {
            self.time_ms = self.time_ms + passed;
        }
    }

    /// Table position of `tid`, if the identifier is known.
    pub(crate) fn find_thread(&self, tid: ThreadId) -> (r: Option<usize>)
        ensures
            r is None ==> !self.has_thread(tid),
            r matches Some(i) ==> i < self.threads@.len() && self.threads@[i as int].id == tid,
    {
        let n = self.threads.len();
        let mut i: usize = 0;
        while i < n
            invariant
                n == self.threads@.len(),
                i <= n,
                forall|j: int| 0 <= j < i ==> (#[trigger] self.threads@[j]).id != tid,
            decreases n - i,
        {
            if self.threads[i].id == tid {
                return Some(i);
            }
            i = i + 1;
        }
        None
    }

    /// The state of the record under `tid`, if any.
    pub fn get_state(&self, tid: ThreadId) -> (r: Option<ThreadState>)
        requires
            self.wf(),
        ensures
            self.has_thread(tid) ==> r == Some(self.thread_spec(tid).state),
            !self.has_thread(tid) ==> r is None,
    {
        match self.find_thread(tid) {
            Some(i) => {
                proof {
                    lemma_idx_of(self.threads@, tid, i as int);
                }
                Some(self.threads[i].state)
            },
            None => None,
        }
    }

    /// The identifier in the running slot, if any.
    pub fn get_current(&self) -> (r: Option<ThreadId>)
        ensures
            r == self.current,
    {
        self.current
    }

    /// Overwrites the state of a known record. Unknown identifiers are
    /// ignored; so are terminated records (`Terminated` is absorbing)
    /// and requests for `Running`, which only the scheduler enters
    /// while it drives a routine.
    pub fn set_state(&mut self, tid: ThreadId, st: ThreadState)
        requires
            old(self).wf(),
        ensures
            final(self).wf(),
            old(self).has_thread(tid) && !old(self).is_terminated(tid) && st
                != ThreadState::Running ==> final(self).threads@ == old(self).threads@.update(
                idx_of(old(self).threads@, tid),
                (MyThread { state: st, ..old(self).thread_spec(tid) }),
            ),
            !(old(self).has_thread(tid) && !old(self).is_terminated(tid) && st
                != ThreadState::Running) ==> final(self).threads@ == old(self).threads@,
            *final(self) == (MyTRuntime { threads: final(self).threads, ..*old(self) }),
    {
        if st == ThreadState::Running {
            return ;
        }
        match self.find_thread(tid) {
            Some(i) => {
                proof {
                    lemma_idx_of(self.threads@, tid, i as int);
                }
                if self.threads[i].state != ThreadState::Terminated {
                    self.threads[i].state = st;
                }
            },
            None => {},
        }
    }

    /// Appends an identifier to the plain driver queue.
    pub fn enqueue(&mut self, tid: ThreadId)
        ensures
            final(self).run_queue@ == old(self).run_queue@.push(tid),
            *final(self) == (MyTRuntime { run_queue: final(self).run_queue, ..*old(self) }),
    {
        self.run_queue.push(tid);
    }

    /// Empties the running slot.
    pub fn clear_current(&mut self)
        ensures
            *final(self) == (MyTRuntime { current: None, ..*old(self) }),
    {
        self.current = None;
    }

    /// Marks the running record ready again, if there is one.
    pub fn save_context(&mut self)
        requires
            old(self).wf(),
        ensures
            final(self).wf(),
            old(self).current matches Some(c) ==> {
                &&& old(self).has_thread(c) && !old(self).is_terminated(c) ==> final(self).threads@ == old(self).threads@.update(
                    idx_of(old(self).threads@, c),
                    (MyThread { state: ThreadState::Ready, ..old(self).thread_spec(c) }),
                )
                &&& !(old(self).has_thread(c) && !old(self).is_terminated(c)) ==> final(self).threads@ == old(self).threads@
            },
            old(self).current is None ==> final(self).threads@ == old(self).threads@,
            *final(self) == (MyTRuntime { threads: final(self).threads, ..*old(self) }),
    {
        match self.current {
            Some(tid) => {
                self.set_state(tid, ThreadState::Ready);
            },
            None => {},
        }
    }

    /// Forces a known, unterminated record back to ready.
    pub fn wake_thread(&mut self, target: ThreadId) -> (r: Exits)
        requires
            old(self).wf(),
        ensures
            final(self).wf(),
            !old(self).has_thread(target)
                ==> r == Exits::UnknownThread && *final(self) == *old(self),
            old(self).is_terminated(target) ==> r == Exits::ThreadIsTerminated && *final(self)
                == *old(self),
            old(self).has_thread(target) && !old(self).is_terminated(target) ==> {
                &&& r == Exits::Success
                &&& final(self).threads@ == old(self).threads@.update(
                    idx_of(old(self).threads@, target),
                    (MyThread { state: ThreadState::Ready, ..old(self).thread_spec(target) }),
                )
                &&& *final(self) == (MyTRuntime { threads: final(self).threads, ..*old(self) })
            },
    {
        match self.find_thread(target) {
            Some(i) => {
                proof {
                    lemma_idx_of(self.threads@, target, i as int);
                }
                if self.threads[i].state != ThreadState::Terminated {
                    self.threads[i].state = ThreadState::Ready;
                    Exits::Success
                } else {
                    Exits::ThreadIsTerminated
                }
            },
            None => Exits::UnknownThread,
        }
    }
    /// Allocates the next identifier, stores a ready record and admits
    /// it into the queue of the chosen policy (round-robin by default).
    /// Identifier allocation is monotone, so the counter must not have
    /// reached the top of its range.
    pub fn create(
        &mut self,
        attr: MyThreadAttr,
        start_routine: Routine,
        args: i64,
        scheduler: Option<SchedulerType>,
    ) -> (r: (Exits, ThreadId))
        requires
            old(self).wf(),
            old(self).next_id < u64::MAX,
        ensures
            final(self).wf(),
            r.0 == Exits::Success,
            r.1 == old(self).next_id,
            final(self).next_id == old(self).next_id + 1,
            final(self).threads@ == old(self).threads@.push(
                (MyThread {
                    id: old(self).next_id,
                    state: ThreadState::Ready,
                    attr,
                    start_routine,
                    arg: args,
                    ret_val: None,
                    scheduler: chosen_policy(scheduler),
                }),
            ),
            final(self).current == old(self).current,
            final(self).wait_on == old(self).wait_on,
            final(self).run_queue == old(self).run_queue,
            final(self).time_ms == old(self).time_ms,
            chosen_policy(scheduler) == SchedulerType::RoundRobin ==> {
                &&& final(self).rr.q@ == old(self).rr.q@.push(old(self).next_id)
                &&& final(self).lottery == old(self).lottery
                &&& final(self).real_time == old(self).real_time
            },
            chosen_policy(scheduler) == SchedulerType::Lottery ==> {
                &&& final(self).lottery.entries@ == old(self).lottery.entries@.push(
                    (old(self).next_id, crate::lottery::effective_tickets(attr.priority)),
                )
                &&& final(self).lottery.rng_state == old(self).lottery.rng_state
                &&& final(self).rr == old(self).rr
                &&& final(self).real_time == old(self).real_time
            },
            chosen_policy(scheduler) == SchedulerType::RealTime ==> {
                &&& final(self).real_time.q@ == old(self).real_time.q@.insert(
                    insert_pos(
                        old(self).real_time.q@,
                        (attr.dead_line, old(self).next_id),
                    ),
                    (attr.dead_line, old(self).next_id),
                )
                &&& final(self).rr == old(self).rr
                &&& final(self).lottery == old(self).lottery
            },
    {
        let id = self.next_id;
        self.next_id = self.next_id + 1;
        let mut new_thread = MyThread::new(id, attr, start_routine, args, scheduler);
        new_thread.state = ThreadState::Ready;
        self.threads.push(new_thread);
        proof {
            let s = self.threads@;
            let o = old(self).threads@;
            assert forall|i: int, j: int| 0 <= i < j < s.len() implies s[i].id < s[j].id by {
                if j < o.len() {
                    assert(s[i] == o[i] && s[j] == o[j]);
                } else {
                    assert(s[j] == new_thread);
                    if i < o.len() {
                        assert(s[i] == o[i]);
                    }
                }
            }
        }
        match new_thread.scheduler {
            SchedulerType::RoundRobin => self.rr.enqueue(id, &new_thread),
            SchedulerType::Lottery => self.lottery.enqueue(id, &new_thread),
            SchedulerType::RealTime => self.real_time.enqueue(id, &new_thread),
        }
        (Exits::Success, id)
    }

    /// Position of the join-wait entry for `target`, if any.
    fn find_wait(&self, target: ThreadId) -> (r: Option<usize>)
        ensures
            r is None ==> !self.has_waiter(target),
            r matches Some(i) ==> i < self.wait_on@.len() && self.wait_on@[i as int].0 == target,
    {
        let n = self.wait_on.len();
        let mut i: usize = 0;
        while i < n
            invariant
                n == self.wait_on@.len(),
                i <= n,
                forall|j: int| 0 <= j < i ==> (#[trigger] self.wait_on@[j]).0 != target,
            decreases n - i,
        {
            if self.wait_on[i].0 == target {
                return Some(i);
            }
            i = i + 1;
        }
        None
    }

    /// Suspends `waiter` on `target`: marks it blocked and takes the
    /// single join-wait slot for the target if that slot is free.
    pub fn mark_blocked_on(&mut self, waiter: ThreadId, target: ThreadId)
        requires
            old(self).wf(),
        ensures
            final(self).wf(),
            old(self).has_thread(waiter) && !old(self).is_terminated(waiter) ==> final(self).threads@ == old(self).threads@.update(
                idx_of(old(self).threads@, waiter),
                (MyThread { state: ThreadState::Blocked, ..old(self).thread_spec(waiter) }),
            ),
            !(old(self).has_thread(waiter) && !old(self).is_terminated(waiter)) ==> final(self).threads@ == old(self).threads@,
            !old(self).has_waiter(target) ==> final(self).wait_on@ == old(self).wait_on@.push(
                (target, waiter),
            ),
            old(self).has_waiter(target) ==> final(self).wait_on@ == old(self).wait_on@,
            *final(self) == (MyTRuntime {
                threads: final(self).threads,
                wait_on: final(self).wait_on,
                ..*old(self)
            }),
    {
        self.set_state(waiter, ThreadState::Blocked);
        match self.find_wait(target) {
            Some(_) => {},
            None => {
                let ghost ow = self.wait_on@;
                self.wait_on.push((target, waiter));
                proof {
                    let s = self.wait_on@;
                    assert forall|i: int, j: int| 0 <= i < j < s.len() implies (
                    #[trigger] s[i]).0 != (#[trigger] s[j]).0 by {
                        if j < ow.len() {
                            assert(s[i] == ow[i] && s[j] == ow[j]);
                        } else {
                            assert(s[j] == (target, waiter));
                            assert(s[i] == ow[i]);
                        }
                    }
                }
            },
        }
    }

    /// Clears the join-wait entry for a terminated target and readies
    /// its registered waiter, handing it back to the driver queue.
    pub fn on_terminated(&mut self, target: ThreadId)
        requires
            old(self).wf(),
        ensures
            final(self).wf(),
            table_evolves(old(self).threads@, final(self).threads@),
            count_unterminated(final(self).threads@) == count_unterminated(old(self).threads@),
            !final(self).has_waiter(target),
            !old(self).has_waiter(target) ==> *final(self) == *old(self),
            wake_rel(
                old(self).threads@,
                old(self).wait_on@,
                old(self).run_queue@,
                final(self).threads@,
                final(self).wait_on@,
                final(self).run_queue@,
                target,
            ),
            old(self).has_waiter(target) ==> {
                let w = waiter_for(old(self).wait_on@, target);
                &&& final(self).wait_on@ == old(self).wait_on@.remove(
                    wait_idx(old(self).wait_on@, target),
                )
                &&& (old(self).has_thread(w) && old(self).thread_spec(w).state
                    == ThreadState::Blocked ==> final(self).threads@ == old(self).threads@.update(
                    idx_of(old(self).threads@, w),
                    (MyThread { state: ThreadState::Ready, ..old(self).thread_spec(w) }),
                ) && final(self).run_queue@ == old(self).run_queue@.push(w))
                &&& (!(old(self).has_thread(w) && old(self).thread_spec(w).state
                    == ThreadState::Blocked) ==> final(self).threads@ == old(self).threads@
                    && final(self).run_queue@ == old(self).run_queue@)
            },
            final(self).current == old(self).current,
            final(self).next_id == old(self).next_id,
            final(self).rr == old(self).rr,
            final(self).lottery == old(self).lottery,
            final(self).real_time == old(self).real_time,
            final(self).time_ms == old(self).time_ms,
    {
        self.wake_joiners(target);
        proof {
            if old(self).has_waiter(target) {
                let w = waiter_for(old(self).wait_on@, target);
                assert(wait_table_has(old(self).wait_on@, target));
                if old(self).has_thread(w) && old(self).thread_spec(w).state
                    == ThreadState::Blocked {
                    assert(has_tid(old(self).threads@, w));
                    assert(old(self).threads@[idx_of(old(self).threads@, w)].state
                        == ThreadState::Blocked);
                }
            }
        }
    }

    /// Removes the join-wait entry for `objective`, if one exists, and
    /// moves its blocked waiter back to ready on the driver queue.
    fn wake_joiners(&mut self, objective: ThreadId)
        requires
            old(self).wf(),
        ensures
            final(self).wf(),
            table_evolves(old(self).threads@, final(self).threads@),
            count_unterminated(final(self).threads@) == count_unterminated(old(self).threads@),
            !final(self).has_waiter(objective),
            !old(self).has_waiter(objective) ==> *final(self) == *old(self),
            final(self).current == old(self).current,
            final(self).next_id == old(self).next_id,
            final(self).rr == old(self).rr,
            final(self).lottery == old(self).lottery,
            final(self).real_time == old(self).real_time,
            final(self).time_ms == old(self).time_ms,
            table_step_sound(old(self).threads@, final(self).threads@),
            old(self).has_waiter(objective) ==> final(self).wait_on@ == old(self).wait_on@.remove(
                wait_idx(old(self).wait_on@, objective),
            ),
            wake_rel(
                old(self).threads@,
                old(self).wait_on@,
                old(self).run_queue@,
                final(self).threads@,
                final(self).wait_on@,
                final(self).run_queue@,
                objective,
            ),
            forall|i: int|
                0 <= i < old(self).threads@.len() ==> (#[trigger] final(self).threads@[i]).state
                    == old(self).threads@[i].state || (old(self).threads@[i].state
                    == ThreadState::Blocked && final(self).threads@[i].state == ThreadState::Ready),
            forall|i: int|
                0 <= i < old(self).threads@.len() ==> (#[trigger] final(self).threads@[i]).ret_val
                    == old(self).threads@[i].ret_val,
    {
        match self.find_wait(objective) {
            Some(wi) => {
                let ghost ow = self.wait_on@;
                let entry = self.wait_on.remove(wi);
                proof {
                    ow.remove_ensures(wi as int);
                    assert forall|i: int, j: int|
                        0 <= i < j < self.wait_on@.len() implies (#[trigger] self.wait_on@[i]).0
                        != (#[trigger] self.wait_on@[j]).0 by {
                        let s = self.wait_on@;
                        if i < wi {
                            assert(s[i] == ow[i]);
                        } else {
                            assert(s[i] == ow[i + 1]);
                        }
                        if j < wi {
                            assert(s[j] == ow[j]);
                        } else {
                            assert(s[j] == ow[j + 1]);
                        }
                    }
                    assert forall|i: int|
                        0 <= i < self.wait_on@.len() implies (#[trigger] self.wait_on@[i]).0
                        != objective by {
                        let s = self.wait_on@;
                        if i < wi {
                            assert(s[i] == ow[i]);
                        } else {
                            assert(s[i] == ow[i + 1]);
                        }
                    }
                    lemma_wait_idx(ow, objective, wi as int);
                }
                let w = entry.1;
                match self.find_thread(w) {
                    Some(ti) => {
                        proof {
                            lemma_idx_of(self.threads@, w, ti as int);
                        }
                        if self.threads[ti].state == ThreadState::Blocked {
                            let ghost ot = self.threads@;
                            self.threads[ti].state = ThreadState::Ready;
                            self.run_queue.push(w);
                            proof {
                                lemma_count_update(ot, ti as int, self.threads@[ti as int]);
                            }
                        }
                    },
                    None => {},
                }
            },
            None => {},
        }
    }

    /// The identifier the fixed policy order `RealTime > Lottery >
    /// RoundRobin` will pick next, given the queues as they stand.
    pub open spec fn next_choice(&self) -> Option<ThreadId> {
        if self.real_time.q@.len() > 0 {
            Some(self.real_time.q@[0].1)
        } else if self.lottery.entries@.len() > 0 {
            let s = self.lottery.entries@;
            Some(s[lottery_winner(s, self.lottery.rng_state)].0)
        } else if self.rr.q@.len() > 0 {
            Some(self.rr.q@[0])
        } else {
            None
        }
    }

    /// Pops the next identifier from the first non-empty queue in the
    /// fixed policy order.
    fn pick_any_next(&mut self) -> (r: Option<ThreadId>)
        requires
            old(self).wf(),
        ensures
            final(self).wf(),
            r == old(self).next_choice(),
            *final(self) == (MyTRuntime {
                rr: final(self).rr,
                lottery: final(self).lottery,
                real_time: final(self).real_time,
                ..*old(self)
            }),
            old(self).real_time.q@.len() > 0 ==> {
                &&& final(self).real_time.q@ == old(self).real_time.q@.drop_first()
                &&& final(self).rr == old(self).rr
                &&& final(self).lottery == old(self).lottery
            },
            old(self).real_time.q@.len() == 0 && old(self).lottery.entries@.len() > 0 ==> {
                &&& final(self).real_time == old(self).real_time
                &&& final(self).rr == old(self).rr
                &&& final(self).lottery.rng_state == crate::lottery::splitmix_advance(
                    old(self).lottery.rng_state,
                )
                &&& final(self).lottery.entries@ == old(self).lottery.entries@.update(
                    lottery_winner(old(self).lottery.entries@, old(self).lottery.rng_state),
                    old(self).lottery.entries@.last(),
                ).drop_last()
            },
            old(self).real_time.q@.len() == 0 && old(self).lottery.entries@.len() == 0
                && old(self).rr.q@.len() > 0 ==> {
                &&& final(self).real_time == old(self).real_time
                &&& final(self).lottery == old(self).lottery
                &&& final(self).rr.q@ == old(self).rr.q@.drop_first()
            },
            old(self).next_choice() is None ==> *final(self) == *old(self),
    {
        if !self.real_time.is_empty() {
            return self.real_time.pick_next();
        }
        if !self.lottery.is_empty() {
            return self.lottery.pick_next();
        }
        if !self.rr.is_empty() {
            return self.rr.pick_next();
        }
        None
    }

    /// Runs a live record to completion: marked `Running` while its
    /// routine is invoked synchronously (it is the record named by
    /// `current`, honouring the single-`Running` invariant), then the
    /// result is stored, the record terminated and its joiner woken.
    fn run_thread(&mut self, tid: ThreadId)
        requires
            old(self).wf(),
            old(self).has_thread(tid),
            old(self).thread_spec(tid).state != ThreadState::Terminated,
            old(self).current == Some(tid),
        ensures
            final(self).wf(),
            table_evolves(old(self).threads@, final(self).threads@),
            count_unterminated(final(self).threads@) == count_unterminated(old(self).threads@) - 1,
            final(self).is_terminated(tid),
            final(self).thread_spec(tid).ret_val == Some(
                routine_eval(old(self).thread_spec(tid).start_routine, old(self).thread_spec(tid).arg),
            ),
            table_step_sound(old(self).threads@, final(self).threads@),
            !final(self).has_waiter(tid),
            wake_rel(
                old(self).threads@.update(
                    idx_of(old(self).threads@, tid),
                    final(self).thread_spec(tid),
                ),
                old(self).wait_on@,
                old(self).run_queue@,
                final(self).threads@,
                final(self).wait_on@,
                final(self).run_queue@,
                tid,
            ),
            forall|i: int|
                0 <= i < old(self).threads@.len() ==> (#[trigger] final(self).threads@[i]).state
                    == old(self).threads@[i].state || (old(self).threads@[i].state
                    == ThreadState::Blocked && final(self).threads@[i].state == ThreadState::Ready)
                    || (old(self).threads@[i].id == tid && final(self).threads@[i].state
                    == ThreadState::Terminated),
            final(self).current == old(self).current,
            final(self).next_id == old(self).next_id,
            final(self).rr == old(self).rr,
            final(self).lottery == old(self).lottery,
            final(self).real_time == old(self).real_time,
            final(self).time_ms == old(self).time_ms,
    {
        let found = self.find_thread(tid);
        match found {
            Some(i) => {
                proof {
                    lemma_idx_of(self.threads@, tid, i as int);
                }
                let ghost ot = self.threads@;
                self.threads[i].state = ThreadState::Running;
                let routine = self.threads[i].start_routine;
                let a = self.threads[i].arg;
                let sched = self.threads[i].scheduler;
                let ret = crate::mythread::apply_routine(routine, a);
                self.threads[i].ret_val = Some(ret);
                self.threads[i].state = ThreadState::Terminated;
                proof {
                    assert(self.threads@ =~= ot.update(i as int, self.threads@[i as int]));
                    lemma_count_update(ot, i as int, self.threads@[i as int]);
                    lemma_idx_of(self.threads@, tid, i as int);
                }
                match sched {
                    SchedulerType::RoundRobin => self.rr.on_exit(tid),
                    SchedulerType::Lottery => self.lottery.on_exit(tid),
                    SchedulerType::RealTime => self.real_time.on_exit(tid),
                }
                let ghost mid = *self;
                self.wake_joiners(tid);
                proof {
                    let fi = idx_of(final(self).threads@, tid);
                    assert(mid.threads@[i as int].state == ThreadState::Terminated);
                    assert(final(self).threads@[i as int] == mid.threads@[i as int]);
                    lemma_idx_of(final(self).threads@, tid, i as int);
                    assert(mid.threads@ =~= old(self).threads@.update(
                        i as int,
                        final(self).thread_spec(tid),
                    ));
                }
            },
            None => {
                proof {
                    assert(false);
                }
            },
        }
    }

    /// Selects a policy in the fixed order and runs the chosen record
    /// to completion. A stale (already terminated) or missing choice
    /// runs nothing; the returned status distinguishes "something ran"
    /// from "nothing to run".
    pub fn schedule_next(&mut self) -> (r: Exits)
        requires
            old(self).wf(),
        ensures
            final(self).wf(),
            schedule_step(*old(self), *final(self), r),
    {
        let picked = self.pick_any_next();
        proof {
            if old(self).next_choice() is Some {
                if old(self).real_time.q@.len() > 0 {
                    assert(self.real_time.q@.len() == old(self).real_time.q@.len() - 1);
                } else if old(self).lottery.entries@.len() > 0 {
                    let e0 = old(self).lottery.entries@;
                    crate::lottery::lemma_total_at_least_len(e0);
                    crate::lottery::lemma_winner_props(
                        e0,
                        crate::lottery::lottery_draw(e0, old(self).lottery.rng_state),
                    );
                    let upd = e0.update(
                        lottery_winner(e0, old(self).lottery.rng_state),
                        e0.last(),
                    );
                    assert(self.lottery.entries@ == upd.drop_last());
                    assert(upd.len() == e0.len());
                    assert(self.lottery.entries@.len() == e0.len() - 1);
                } else {
                    assert(old(self).rr.q@.len() > 0);
                    assert(self.rr.q@.len() == old(self).rr.q@.len() - 1);
                }
                assert(self.queue_total() == old(self).queue_total() - 1);
            }
        }
        match picked {
            Some(next) => {
                self.current = Some(next);
                let found = self.find_thread(next);
                match found {
                    Some(i) => {
                        proof {
                            lemma_idx_of(self.threads@, next, i as int);
                        }
                        if self.threads[i].state == ThreadState::Terminated {
                            self.wake_joiners(next);
                            return Exits::NothingToRun;
                        }
                        self.run_thread(next);
                        Exits::Success
                    },
                    None => Exits::UnknownThread,
                }
            },
            None => {
                self.current = None;
                Exits::NothingToRun
            },
        }
    }

    /// Blocks until the target terminates and hands out its stored
    /// return value. A target that is unknown or detached is not
    /// joinable; an already-terminated target answers immediately
    /// without touching any runtime state; a live thread never joins
    /// itself.
    /// With no running thread, the caller drives the scheduler itself;
    /// with one, the caller takes the target's single waiter slot
    /// (occupied exactly when a join-wait entry already names the
    /// target). In both driving modes the loop drives on past stale
    /// queue entries, and the deadlock status is reported only once
    /// every ready queue is empty while the target is still alive.
    pub fn join(&mut self, target: ThreadId) -> (r: (Exits, Option<i64>))
        requires
            old(self).wf(),
        ensures
            final(self).wf(),
            table_evolves(old(self).threads@, final(self).threads@),
            !old(self).has_thread(target) ==> r == (Exits::NoSuchThread, None::<i64>) && *final(self) == *old(self),
            old(self).has_thread(target) && old(self).thread_spec(target).attr.detached ==> r == (
            Exits::NoSuchThread, None::<i64>) && *final(self) == *old(self),
            old(self).has_thread(target) && !old(self).thread_spec(target).attr.detached && old(self).thread_spec(target).state == ThreadState::Terminated ==> r == (
            Exits::Success, old(self).thread_spec(target).ret_val) && *final(self) == *old(self),
            old(self).has_thread(target) && !old(self).thread_spec(target).attr.detached && old(self).thread_spec(target).state != ThreadState::Terminated && old(self).current == Some(
                target,
            ) ==> r == (Exits::SelfJoin, None::<i64>) && *final(self) == *old(self),
            r.0 == Exits::Success ==> final(self).is_terminated(target) && r.1 == final(self).thread_spec(target).ret_val,
            old(self).has_thread(target) && !old(self).thread_spec(target).attr.detached && old(self).current != Some(target) && old(self).thread_spec(target).state
                != ThreadState::Terminated ==> {
                &&& (old(self).current is None ==> r.0 == Exits::Success || r.0
                    == Exits::NothingToRun)
                &&& (old(self).current is Some ==> r.0 == Exits::Success || r.0
                    == Exits::NothingToRun || r.0 == Exits::AlreadyWaiting)
                &&& (r.0 == Exits::Success ==> !final(self).has_waiter(target))
                &&& (r.0 == Exits::Success ==> r.1 == Some(
                    routine_eval(
                        old(self).thread_spec(target).start_routine,
                        old(self).thread_spec(target).arg,
                    ),
                ))
                &&& (r.0 == Exits::NothingToRun ==> !final(self).is_terminated(target) && r.1
                    is None && final(self).next_choice() is None)
                &&& (r.0 == Exits::NothingToRun ==> forall|t: ThreadId|
                    #[trigger] queued_in(*old(self), t) ==> !final(self).has_thread(t) || final(self).is_terminated(t))
                &&& (old(self).current is Some ==> (r.0 == Exits::AlreadyWaiting <==> old(self).has_waiter(target)))
                &&& (r.0 == Exits::AlreadyWaiting ==> old(self).has_waiter(target) && r.1 is None
                    && *final(self) == *old(self))
            },
    {
        let found = self.find_thread(target);
        let ti = match found {
            Some(i) => i,
            None => {
                return (Exits::NoSuchThread, None);
            },
        };
        proof {
            lemma_idx_of(self.threads@, target, ti as int);
        }
        if self.threads[ti].attr.detached {
            return (Exits::NoSuchThread, None);
        }
        if self.threads[ti].state == ThreadState::Terminated {
            return (Exits::Success, self.threads[ti].ret_val);
        }
        let is_self = match self.current {
            Some(c) => c == target,
            None => false,
        };
        if is_self {
            return (Exits::SelfJoin, None);
        }
        let driverless = self.current.is_none();
        if !driverless {
            // A running thread suspends on the target: the single
            // waiter slot must be free.
            let cur = match self.current {
                Some(c) => c,
                None => {
                    proof {
                        assert(false);
                    }
                    return (Exits::NoSuchThread, None);
                },
            };
            match self.find_wait(target) {
                Some(_) => {
                    return (Exits::AlreadyWaiting, None);
                },
                None => {},
            }
            self.mark_blocked_on(cur, target);
            proof {
                assert(self.threads@[ti as int].id == target);
                assert(has_tid(self.threads@, target));
            }
        }
        loop
            invariant
                self.wf(),
                self.has_thread(target),
                old(self).has_thread(target),
                !old(self).thread_spec(target).attr.detached,
                old(self).current != Some(target),
                old(self).thread_spec(target).state != ThreadState::Terminated,
                table_evolves(old(self).threads@, self.threads@),
                table_step_sound(old(self).threads@, self.threads@),
                idx_of(self.threads@, target) == idx_of(old(self).threads@, target),
                old(self).current is Some ==> !old(self).has_waiter(target),
                forall|t: ThreadId|
                    #[trigger] queued_in(*old(self), t) ==> queued_in(*self, t) || !self.has_thread(
                        t,
                    ) || self.is_terminated(t),
            decreases count_unterminated(self.threads@), self.queue_total(),
        {
            let fi = match self.find_thread(target) {
                Some(i) => i,
                None => {
                    proof {
                        assert(false);
                    }
                    return (Exits::NoSuchThread, None);
                },
            };
            proof {
                lemma_idx_of(self.threads@, target, fi as int);
            }
            if self.threads[fi].state == ThreadState::Terminated {
                let ret = self.threads[fi].ret_val;
                self.wake_joiners(target);
                proof {
                    lemma_idx_of(self.threads@, target, fi as int);
                }
                return (Exits::Success, ret);
            }
            let ghost prert = *self;
            let ghost pre = self.threads@;
            let st = self.schedule_next();
            proof {
                lemma_evolves_has(pre, self.threads@, target);
                lemma_count_nonneg(self.threads@);
                lemma_step_sound_trans(old(self).threads@, pre, self.threads@);
                assert forall|t: ThreadId| #[trigger] queued_in(*old(self), t) implies queued_in(
                    *self,
                    t,
                ) || !self.has_thread(t) || self.is_terminated(t) by {
                    if queued_in(prert, t) {
                        lemma_step_keeps_queued(prert, *self, st, t);
                    } else if !prert.has_thread(t) {
                        lemma_evolves_has_not(prert.threads@, self.threads@, t);
                    } else if prert.is_terminated(t) {
                        lemma_term_persists(prert.threads@, self.threads@, t);
                    }
                }
            }
            if st != Exits::Success {
                let gi = match self.find_thread(target) {
                    Some(i) => i,
                    None => {
                        proof {
                            assert(false);
                        }
                        return (Exits::NoSuchThread, None);
                    },
                };
                proof {
                    lemma_idx_of(self.threads@, target, gi as int);
                }
                if self.threads[gi].state == ThreadState::Terminated {
                    let ret = self.threads[gi].ret_val;
                    self.wake_joiners(target);
                    proof {
                        lemma_idx_of(self.threads@, target, gi as int);
                    }
                    return (Exits::Success, ret);
                }
                if self.rr.is_empty() && self.lottery.is_empty() && self.real_time.is_empty() {
                    return (Exits::NothingToRun, None);
                }
                // A stale queue entry was consumed without running
                // anything; keep driving while work remains.
            }
        }
    }

    /// Terminates the running thread with the given return value, wakes
    /// its joiner onto the driver queue, clears the running slot and
    /// schedules the next unit from the queues as they stood.
    pub fn end_current(&mut self, retval: i64) -> (r: Exits)
        requires
            old(self).wf(),
        ensures
            final(self).wf(),
            old(self).current is None ==> r == Exits::CurrentIsEmpty && *final(self) == *old(self),
            old(self).current matches Some(c) ==> {
                &&& (!old(self).has_thread(c) ==> r == Exits::UnknownThread && *final(self) == *old(self))
                &&& (old(self).has_thread(c) ==> {
                    &&& r == Exits::Success
                    &&& final(self).is_terminated(c)
                    &&& final(self).thread_spec(c).ret_val == Some(retval)
                    &&& final(self).next_id == old(self).next_id
                    &&& end_step(*old(self), *final(self), c, retval)
                    &&& !final(self).has_waiter(c)
                    &&& (old(self).next_choice() is None ==> final(self).current is None)
                    &&& (old(self).next_choice() matches Some(t) ==> final(self).current == Some(
                        t,
                    ))
                    &&& (old(self).has_waiter(c) ==> {
                        let w = waiter_for(old(self).wait_on@, c);
                        old(self).has_thread(w) && old(self).thread_spec(w).state
                            == ThreadState::Blocked && w != c ==> {
                            &&& final(self).has_thread(w)
                            &&& final(self).thread_spec(w).state != ThreadState::Blocked
                            &&& old(self).run_queue@.push(w).is_prefix_of(final(self).run_queue@)
                        }
                    })
                })
            },
    {
        let cur = match self.current {
            Some(c) => c,
            None => {
                return Exits::CurrentIsEmpty;
            },
        };
        let i = match self.find_thread(cur) {
            Some(i) => i,
            None => {
                return Exits::UnknownThread;
            },
        };
        proof {
            lemma_idx_of(self.threads@, cur, i as int);
        }
        let ghost ot = self.threads@;
        self.threads[i].ret_val = Some(retval);
        self.threads[i].state = ThreadState::Terminated;
        proof {
            assert(self.threads@ =~= ot.update(i as int, self.threads@[i as int]));
            lemma_idx_of(self.threads@, cur, i as int);
            assert(self.threads@[i as int] == (MyThread {
                state: ThreadState::Terminated,
                ret_val: Some(retval),
                ..old(self).thread_spec(cur)
            }));
        }
        let ghost postterm = *self;
        self.wake_joiners(cur);
        proof {
            lemma_idx_of(self.threads@, cur, i as int);
        }
        self.clear_current();
        let ghost midst = *self;
        let st = self.schedule_next();
        proof {
            lemma_idx_of(self.threads@, cur, i as int);
            assert(end_mid(*old(self), midst, cur, retval));
            assert(schedule_step(midst, *self, st));
            assert(schedule_effect(midst, *self));
            assert(end_step(*old(self), *self, cur, retval));
            // the queues and generator were untouched before the
            // scheduling step, so the pick is decided by the old state
            assert(midst.next_choice() == old(self).next_choice());
            // no join-wait entry for the ended thread survives
            assert(!midst.has_waiter(cur));
            match midst.next_choice() {
                Some(t2) => {
                    if midst.has_thread(t2) && wait_table_has(midst.wait_on@, t2) {
                        let k = wait_idx(midst.wait_on@, t2);
                        assert(0 <= k < midst.wait_on@.len() && midst.wait_on@[k].0 == t2);
                        lemma_remove_keeps_absent(midst.wait_on@, k, cur);
                    }
                },
                None => {},
            }
            assert(!self.has_waiter(cur));
            // the woken joiner stays off the blocked state and on the
            // driver queue
            if old(self).has_waiter(cur) {
                let w = waiter_for(old(self).wait_on@, cur);
                if old(self).has_thread(w) && old(self).thread_spec(w).state
                    == ThreadState::Blocked && w != cur {
                    let wi = idx_of(old(self).threads@, w);
                    lemma_idx_of(old(self).threads@, w, wi);
                    assert(postterm.threads@[wi].id == w);
                    lemma_idx_of(postterm.threads@, w, wi);
                    assert(has_tid(postterm.threads@, w));
                    assert(postterm.threads@[wi].state == ThreadState::Blocked);
                    assert(midst.threads@ == postterm.threads@.update(
                        wi,
                        (MyThread { state: ThreadState::Ready, ..postterm.threads@[wi] }),
                    ));
                    assert(midst.run_queue@ == old(self).run_queue@.push(w));
                    assert(midst.threads@[wi].id == w);
                    lemma_idx_of(midst.threads@, w, wi);
                    assert(midst.threads@[wi].state == ThreadState::Ready);
                    lemma_evolves_has(midst.threads@, self.threads@, w);
                    assert(self.threads@[wi].id == w);
                    lemma_idx_of(self.threads@, w, wi);
                    assert(self.threads@[wi].state != ThreadState::Blocked);
                    assert(old(self).run_queue@.push(w).is_prefix_of(self.run_queue@)) by {
                        if self.run_queue@ == midst.run_queue@ {
                            lemma_prefix_push(old(self).run_queue@.push(w), self.run_queue@);
                        } else {
                            lemma_prefix_push(old(self).run_queue@.push(w), self.run_queue@);
                        }
                    }
                }
            }
        }
        Exits::Success
    }

    /// Marks a record detached (not joinable); a record that has
    /// already terminated is reclaimed from the table at once.
    pub fn detach(&mut self, tid: ThreadId) -> (r: Exits)
        requires
            old(self).wf(),
        ensures
            final(self).wf(),
            !old(self).has_thread(tid) ==> r == Exits::NoSuchThread && *final(self) == *old(self),
            old(self).has_thread(tid) ==> {
                &&& r == Exits::Success
                &&& (old(self).thread_spec(tid).state == ThreadState::Terminated ==> final(self).threads@ == old(self).threads@.remove(idx_of(old(self).threads@, tid)))
                &&& (old(self).thread_spec(tid).state != ThreadState::Terminated ==> final(self).threads@ == old(self).threads@.update(
                    idx_of(old(self).threads@, tid),
                    (MyThread {
                        attr: (MyThreadAttr { detached: true, ..old(self).thread_spec(tid).attr }),
                        ..old(self).thread_spec(tid)
                    }),
                ))
                &&& *final(self) == (MyTRuntime { threads: final(self).threads, ..*old(self) })
            },
    {
        let i = match self.find_thread(tid) {
            Some(i) => i,
            None => {
                return Exits::NoSuchThread;
            },
        };
        proof {
            lemma_idx_of(self.threads@, tid, i as int);
        }
        self.threads[i].attr.detached = true;
        if self.threads[i].state == ThreadState::Terminated {
            let ghost ot = self.threads@;
            self.threads.remove(i);
            proof {
                ot.remove_ensures(i as int);
                assert forall|a: int, b: int|
                    0 <= a < b < self.threads@.len() implies self.threads@[a].id
                    < self.threads@[b].id by {
                    let s = self.threads@;
                    if a < i {
                        assert(s[a] == ot[a]);
                    } else {
                        assert(s[a] == ot[a + 1]);
                    }
                    if b < i {
                        assert(s[b] == ot[b]);
                    } else {
                        assert(s[b] == ot[b + 1]);
                    }
                }
                assert forall|a: int|
                    0 <= a < self.threads@.len() implies (#[trigger] self.threads@[a]).id
                    < self.next_id by {
                    let s = self.threads@;
                    if a < i {
                        assert(s[a] == ot[a]);
                    } else {
                        assert(s[a] == ot[a + 1]);
                    }
                }
            }
        }
        Exits::Success
    }

    /// Moves a live record to a new policy and rebuilds every ready
    /// queue from the table, so that no identifier ever sits in more
    /// than one queue or goes stale after the change. Unknown,
    /// terminated or already-matching records change nothing.
    pub fn change_scheduler(&mut self, tid: ThreadId, new_kind: SchedulerType) -> (r: Exits)
        requires
            old(self).wf(),
        ensures
            final(self).wf(),
            !old(self).has_thread(tid) ==> r == Exits::NoSuchThread && *final(self) == *old(self),
            old(self).has_thread(tid) && old(self).thread_spec(tid).state
                == ThreadState::Terminated ==> r == Exits::ThreadIsTerminated && *final(self)
                == *old(self),
            old(self).has_thread(tid) && old(self).thread_spec(tid).state
                != ThreadState::Terminated && old(self).thread_spec(tid).scheduler == new_kind
                ==> r == Exits::Success && *final(self) == *old(self),
            old(self).has_thread(tid) && old(self).thread_spec(tid).state
                != ThreadState::Terminated && old(self).thread_spec(tid).scheduler != new_kind
                ==> {
                &&& r == Exits::Success
                &&& final(self).threads@ == old(self).threads@.update(
                    idx_of(old(self).threads@, tid),
                    (MyThread { scheduler: new_kind, ..old(self).thread_spec(tid) }),
                )
                &&& final(self).rr.q@ == rebuild_rr(final(self).threads@)
                &&& final(self).lottery.entries@ == rebuild_lottery(final(self).threads@)
                &&& final(self).real_time.q@ == rebuild_rt(final(self).threads@)
                &&& final(self).current == old(self).current
                &&& final(self).wait_on == old(self).wait_on
                &&& final(self).run_queue == old(self).run_queue
                &&& final(self).next_id == old(self).next_id
                &&& final(self).time_ms == old(self).time_ms
            },
    {
        let i = match self.find_thread(tid) {
            Some(i) => i,
            None => {
                return Exits::NoSuchThread;
            },
        };
        proof {
            lemma_idx_of(self.threads@, tid, i as int);
        }
        if self.threads[i].state == ThreadState::Terminated {
            return Exits::ThreadIsTerminated;
        }
        let old_kind = self.threads[i].scheduler;
        if old_kind == new_kind {
            return Exits::Success;
        }
        self.threads[i].scheduler = new_kind;
        self.rebuild_ready_queues();
        Exits::Success
    }

    /// Resets all three ready queues and re-admits every ready record
    /// into the queue of its (possibly just-changed) policy.
    fn rebuild_ready_queues(&mut self)
        requires
            old(self).wf(),
        ensures
            final(self).wf(),
            final(self).rr.q@ == rebuild_rr(old(self).threads@),
            final(self).lottery.entries@ == rebuild_lottery(old(self).threads@),
            final(self).real_time.q@ == rebuild_rt(old(self).threads@),
            *final(self) == (MyTRuntime {
                rr: final(self).rr,
                lottery: final(self).lottery,
                real_time: final(self).real_time,
                ..*old(self)
            }),
    {
        self.rr = RRScheduler::new();
        self.lottery = LotteryScheduler::new();
        self.real_time = RealTimeScheduler::new();
        let ghost t0 = self.threads@;
        let n = self.threads.len();
        let mut i: usize = 0;
        proof {
            assert(t0.take(0) =~= Seq::<MyThread>::empty());
        }
        while i < n
            invariant
                self.wf(),
                n == self.threads@.len(),
                i <= n,
                self.threads@ == t0,
                self.rr.q@ == rebuild_rr(t0.take(i as int)),
                self.lottery.entries@ == rebuild_lottery(t0.take(i as int)),
                self.real_time.q@ == rebuild_rt(t0.take(i as int)),
                *self == (MyTRuntime {
                    rr: self.rr,
                    lottery: self.lottery,
                    real_time: self.real_time,
                    ..*old(self)
                }),
            decreases n - i,
        {
            let t = self.threads[i];
            proof {
                assert(t0.take(i + 1).drop_last() =~= t0.take(i as int));
                assert(t0.take(i + 1).last() == t0[i as int]);
            }
            if t.state == ThreadState::Ready {
                match t.scheduler {
                    SchedulerType::RoundRobin => self.rr.enqueue(t.id, &t),
                    SchedulerType::Lottery => self.lottery.enqueue(t.id, &t),
                    SchedulerType::RealTime => self.real_time.enqueue(t.id, &t),
                }
            }
            i = i + 1;
        }
        proof {
            assert(t0.take(n as int) =~= t0);
        }
    }
}

/// A table that only evolves keeps every identifier it had.
pub proof fn lemma_evolves_has(a: Seq<MyThread>, b: Seq<MyThread>, tid: ThreadId)
    requires
        table_evolves(a, b),
        has_tid(a, tid),
    ensures
        has_tid(b, tid),
{
    let i = choose|i: int| 0 <= i < a.len() && a[i].id == tid;
    assert(b[i].id == tid);
}

/// The unterminated count is never negative.
pub proof fn lemma_count_nonneg(s: Seq<MyThread>)
    ensures
        count_unterminated(s) >= 0,
    decreases s.len(),
{
    if s.len() > 0 {
        lemma_count_nonneg(s.drop_first());
    }
}

/// In a table with strictly increasing identifiers, an index holding
/// `tid` is the canonical one.
pub proof fn lemma_idx_of(s: Seq<MyThread>, tid: ThreadId, i: int)
    requires
        ids_strictly_increasing(s),
        0 <= i < s.len(),
        s[i].id == tid,
    ensures
        idx_of(s, tid) == i,
        has_tid(s, tid),
{
    assert(has_tid(s, tid));
    let j = idx_of(s, tid);
    if j < i {
        assert(s[j].id < s[i].id);
    } else if j > i {
        assert(s[i].id < s[j].id);
    }
}

/// In a wait table with distinct targets, an index holding `target` is
/// the canonical one.
pub proof fn lemma_wait_idx(s: Seq<(ThreadId, ThreadId)>, target: ThreadId, i: int)
    requires
        forall|a: int, b: int|
            0 <= a < b < s.len() ==> (#[trigger] s[a]).0 != (#[trigger] s[b]).0,
        0 <= i < s.len(),
        s[i].0 == target,
    ensures
        wait_idx(s, target) == i,
{
    assert(0 <= i < s.len() && (#[trigger] s[i]).0 == target);
    let j = wait_idx(s, target);
    assert(s[j].0 == target);
    if j != i {
        if j < i {
            assert(s[j].0 != s[i].0);
        } else {
            assert(s[i].0 != s[j].0);
        }
    }
}

/// Updating one record changes the unterminated count only through that
/// record's state.
pub proof fn lemma_count_update(s: Seq<MyThread>, i: int, t: MyThread)
    requires
        0 <= i < s.len(),
    ensures
        count_unterminated(s.update(i, t)) == count_unterminated(s) + (
        if t.state != ThreadState::Terminated {
            1int
        } else {
            0int
        }) - (
        if s[i].state != ThreadState::Terminated {
            1int
        } else {
            0int
        }),
    decreases i,
{
    let u = s.update(i, t);
    if i == 0 {
        assert(u.drop_first() =~= s.drop_first());
    } else {
        assert(u.drop_first() =~= s.drop_first().update(i - 1, t));
        lemma_count_update(s.drop_first(), i - 1, t);
    }
}


/// The full effect of one `schedule_next` call from `pre` to `post`
/// with status `r`: which identifier the policy order picks, how the
/// serving queue shrinks, how the picked record runs to completion (or
/// is found stale or missing), and how the picked identifier's joiner
/// is handed back to the driver queue.
pub open spec fn schedule_step(pre: MyTRuntime, post: MyTRuntime, r: Exits) -> bool {
    &&& table_evolves(pre.threads@, post.threads@)
    &&& table_step_sound(pre.threads@, post.threads@)
    &&& post.next_id == pre.next_id
    &&& post.time_ms == pre.time_ms
    &&& (r == Exits::Success ==> count_unterminated(post.threads@) == count_unterminated(
        pre.threads@,
    ) - 1)
    &&& (r != Exits::Success ==> count_unterminated(post.threads@) == count_unterminated(
        pre.threads@,
    ))
    &&& (pre.next_choice() is Some ==> post.queue_total() == pre.queue_total() - 1)
    &&& (pre.next_choice() is None ==> {
        &&& r == Exits::NothingToRun
        &&& post.current is None
        &&& post.threads@ == pre.threads@
        &&& post.wait_on == pre.wait_on
        &&& post.run_queue == pre.run_queue
        &&& post.rr == pre.rr
        &&& post.lottery == pre.lottery
        &&& post.real_time == pre.real_time
    })
    &&& (pre.next_choice() matches Some(tid) ==> {
        &&& post.current == Some(tid)
        &&& (pre.real_time.q@.len() > 0 ==> post.real_time.q@ == pre.real_time.q@.drop_first()
            && post.rr == pre.rr && post.lottery == pre.lottery)
        &&& (pre.real_time.q@.len() == 0 && pre.lottery.entries@.len() > 0 ==> {
            &&& post.real_time == pre.real_time
            &&& post.rr == pre.rr
            &&& post.lottery.rng_state == crate::lottery::splitmix_advance(pre.lottery.rng_state)
            &&& post.lottery.entries@ == pre.lottery.entries@.update(
                lottery_winner(pre.lottery.entries@, pre.lottery.rng_state),
                pre.lottery.entries@.last(),
            ).drop_last()
        })
        &&& (pre.real_time.q@.len() == 0 && pre.lottery.entries@.len() == 0 && pre.rr.q@.len() > 0
            ==> post.real_time == pre.real_time && post.lottery == pre.lottery && post.rr.q@
            == pre.rr.q@.drop_first())
        &&& (!pre.has_thread(tid) ==> r == Exits::UnknownThread && post.threads@ == pre.threads@
            && post.wait_on == pre.wait_on && post.run_queue == pre.run_queue)
        &&& (pre.has_thread(tid) ==> {
            &&& !post.has_waiter(tid)
            &&& (pre.thread_spec(tid).state == ThreadState::Terminated ==> {
                &&& r == Exits::NothingToRun
                &&& wake_rel(
                    pre.threads@,
                    pre.wait_on@,
                    pre.run_queue@,
                    post.threads@,
                    post.wait_on@,
                    post.run_queue@,
                    tid,
                )
            })
            &&& (pre.thread_spec(tid).state != ThreadState::Terminated ==> {
                &&& r == Exits::Success
                &&& post.is_terminated(tid)
                &&& post.thread_spec(tid).ret_val == Some(
                    routine_eval(pre.thread_spec(tid).start_routine, pre.thread_spec(tid).arg),
                )
                &&& wake_rel(
                    pre.threads@.update(idx_of(pre.threads@, tid), post.thread_spec(tid)),
                    pre.wait_on@,
                    pre.run_queue@,
                    post.threads@,
                    post.wait_on@,
                    post.run_queue@,
                    tid,
                )
            })
        })
    })
    &&& forall|i: int|
        0 <= i < pre.threads@.len() ==> (#[trigger] post.threads@[i]).state
            == pre.threads@[i].state || (pre.threads@[i].state == ThreadState::Blocked
            && post.threads@[i].state == ThreadState::Ready) || (pre.next_choice() == Some(
            pre.threads@[i].id,
        ) && post.threads@[i].state == ThreadState::Terminated)
}

/// One scheduling step happened, whatever its status was.
pub open spec fn schedule_effect(pre: MyTRuntime, post: MyTRuntime) -> bool {
    exists|st: Exits| #[trigger] schedule_step(pre, post, st)
}

/// The state between `end_current`'s bookkeeping and its scheduling
/// step: the running record `c` terminated with the stored value, its
/// joiner woken onto the driver queue, the running slot cleared, and
/// nothing else touched.
pub open spec fn end_mid(pre: MyTRuntime, mid: MyTRuntime, c: ThreadId, retval: i64) -> bool {
    &&& wake_rel(
        pre.threads@.update(
            idx_of(pre.threads@, c),
            (MyThread { state: ThreadState::Terminated, ret_val: Some(retval), ..pre.thread_spec(c) }),
        ),
        pre.wait_on@,
        pre.run_queue@,
        mid.threads@,
        mid.wait_on@,
        mid.run_queue@,
        c,
    )
    &&& mid.current is None
    &&& mid.next_id == pre.next_id
    &&& mid.time_ms == pre.time_ms
    &&& mid.rr == pre.rr
    &&& mid.lottery == pre.lottery
    &&& mid.real_time == pre.real_time
}

/// `end_current`'s whole successful effect: terminate the running
/// record, wake its joiner, clear the slot, then take one scheduling
/// step from that intermediate state.
pub open spec fn end_step(pre: MyTRuntime, post: MyTRuntime, c: ThreadId, retval: i64) -> bool {
    exists|mid: MyTRuntime| #[trigger] end_mid(pre, mid, c, retval) && schedule_effect(mid, post)
}

/// The state after a live record `c` has been marked ready and
/// re-admitted to the queue of its own policy, with everything else
/// untouched.
pub open spec fn requeue_mid(pre: MyTRuntime, mid: MyTRuntime, c: ThreadId) -> bool {
    &&& mid.threads@ == pre.threads@.update(
        idx_of(pre.threads@, c),
        (MyThread { state: ThreadState::Ready, ..pre.thread_spec(c) }),
    )
    &&& mid.current == pre.current
    &&& mid.next_id == pre.next_id
    &&& mid.time_ms == pre.time_ms
    &&& mid.wait_on == pre.wait_on
    &&& mid.run_queue == pre.run_queue
    &&& (pre.thread_spec(c).scheduler == SchedulerType::RoundRobin ==> mid.rr.q@ == pre.rr.q@.push(
        c,
    ) && mid.lottery == pre.lottery && mid.real_time == pre.real_time)
    &&& (pre.thread_spec(c).scheduler == SchedulerType::Lottery ==> {
        &&& mid.lottery.entries@ == pre.lottery.entries@.push(
            (c, crate::lottery::effective_tickets(pre.thread_spec(c).attr.priority)),
        )
        &&& mid.lottery.rng_state == pre.lottery.rng_state
        &&& mid.rr == pre.rr
        &&& mid.real_time == pre.real_time
    })
    &&& (pre.thread_spec(c).scheduler == SchedulerType::RealTime ==> {
        &&& mid.real_time.q@ == pre.real_time.q@.insert(
            insert_pos(pre.real_time.q@, (pre.thread_spec(c).attr.dead_line, c)),
            (pre.thread_spec(c).attr.dead_line, c),
        )
        &&& mid.rr == pre.rr
        &&& mid.lottery == pre.lottery
    })
}

/// A yield of the live record `c`: ready it, re-admit it to its
/// policy's queue, then take one scheduling step from that state.
pub open spec fn yield_requeue_step(pre: MyTRuntime, post: MyTRuntime, c: ThreadId) -> bool {
    exists|mid: MyTRuntime| #[trigger] requeue_mid(pre, mid, c) && schedule_effect(mid, post)
}

/// Removing an entry cannot make a join-wait table name a target it
/// did not name before.
pub proof fn lemma_remove_keeps_absent(s: Seq<(ThreadId, ThreadId)>, k: int, t: ThreadId)
    requires
        0 <= k < s.len(),
        !wait_table_has(s, t),
    ensures
        !wait_table_has(s.remove(k), t),
{
    s.remove_ensures(k);
    assert forall|i: int| 0 <= i < s.remove(k).len() implies (#[trigger] s.remove(k)[i]).0 != t by {
        if i < k {
            assert(s.remove(k)[i] == s[i]);
        } else {
            assert(s.remove(k)[i] == s[i + 1]);
        }
    }
}

/// A sequence is a prefix of itself and of any one-element extension.
pub proof fn lemma_prefix_push(s: Seq<ThreadId>, t: Seq<ThreadId>)
    requires
        t == s || exists|e: ThreadId| t == s.push(e),
    ensures
        s.is_prefix_of(t),
{
    if t == s {
        assert(s =~= t.subrange(0, s.len() as int));
    } else {
        let e = choose|e: ThreadId| t == s.push(e);
        assert(s =~= t.subrange(0, s.len() as int));
    }
}


/// A table that only evolves keeps a terminated record terminated,
/// under the same identifier.
pub proof fn lemma_term_persists(a: Seq<MyThread>, b: Seq<MyThread>, t: ThreadId)
    requires
        table_evolves(a, b),
        ids_strictly_increasing(a),
        ids_strictly_increasing(b),
        has_tid(a, t),
        a[idx_of(a, t)].state == ThreadState::Terminated,
    ensures
        has_tid(b, t),
        b[idx_of(b, t)].state == ThreadState::Terminated,
{
    let i = idx_of(a, t);
    assert(0 <= i < a.len() && a[i].id == t);
    assert(b[i] == a[i]);
    lemma_idx_of(b, t, i);
}

/// A table that only evolves names no identifier it did not name.
pub proof fn lemma_evolves_has_not(a: Seq<MyThread>, b: Seq<MyThread>, t: ThreadId)
    requires
        table_evolves(a, b),
        !has_tid(a, t),
    ensures
        !has_tid(b, t),
{
    if has_tid(b, t) {
        let i = choose|i: int| 0 <= i < b.len() && b[i].id == t;
        assert(a[i].id == t);
    }
}

/// Across one scheduling step, a queued identifier either stays
/// queued or has run to termination (or was never in the table).
pub proof fn lemma_step_keeps_queued(pre: MyTRuntime, post: MyTRuntime, r: Exits, t: ThreadId)
    requires
        pre.wf(),
        post.wf(),
        schedule_step(pre, post, r),
        queued_in(pre, t),
    ensures
        queued_in(post, t) || !post.has_thread(t) || post.is_terminated(t),
{
    match pre.next_choice() {
        None => {
            assert(post.rr == pre.rr && post.lottery == pre.lottery && post.real_time
                == pre.real_time);
            assert(queued_in(post, t));
        },
        Some(tid) => {
            if t == tid {
                if !pre.has_thread(tid) {
                    lemma_evolves_has_not(pre.threads@, post.threads@, t);
                } else if pre.thread_spec(tid).state == ThreadState::Terminated {
                    lemma_term_persists(pre.threads@, post.threads@, t);
                } else {
                    assert(post.is_terminated(tid));
                }
            } else {
                if pre.real_time.q@.len() > 0 {
                    assert(pre.real_time.q@[0].1 == tid);
                    if exists|k: int|
                        0 <= k < pre.real_time.q@.len() && (#[trigger] pre.real_time.q@[k]).1
                            == t {
                        let k = choose|k: int|
                            0 <= k < pre.real_time.q@.len() && (#[trigger] pre.real_time.q@[k]).1
                                == t;
                        assert(k >= 1);
                        assert(post.real_time.q@[k - 1] == pre.real_time.q@[k]);
                        assert(queued_in(post, t));
                    } else {
                        assert(queued_in(post, t));
                    }
                } else if pre.lottery.entries@.len() > 0 {
                    let s = pre.lottery.entries@;
                    let w = lottery_winner(s, pre.lottery.rng_state);
                    crate::lottery::lemma_total_at_least_len(s);
                    crate::lottery::lemma_winner_props(
                        s,
                        crate::lottery::lottery_draw(s, pre.lottery.rng_state),
                    );
                    assert(s[w].0 == tid);
                    if exists|k: int| 0 <= k < s.len() && (#[trigger] s[k]).0 == t {
                        let k = choose|k: int| 0 <= k < s.len() && (#[trigger] s[k]).0 == t;
                        assert(k != w);
                        let upd = s.update(w, s.last());
                        if k < s.len() - 1 {
                            assert(post.lottery.entries@[k] == upd[k]);
                            assert(upd[k] == s[k]);
                            assert(queued_in(post, t));
                        } else {
                            assert(w < s.len() - 1);
                            assert(post.lottery.entries@[w] == upd[w]);
                            assert(upd[w] == s.last());
                            assert(queued_in(post, t));
                        }
                    } else {
                        assert(queued_in(post, t));
                    }
                } else {
                    assert(pre.rr.q@.len() > 0);
                    assert(pre.rr.q@[0] == tid);
                    if pre.rr.q@.contains(t) {
                        let k = choose|k: int| 0 <= k < pre.rr.q@.len() && pre.rr.q@[k] == t;
                        assert(k >= 1);
                        assert(post.rr.q@[k - 1] == pre.rr.q@[k]);
                        assert(post.rr.q@.contains(t));
                        assert(queued_in(post, t));
                    } else {
                        assert(queued_in(post, t));
                    }
                }
            }
        },
    }
}

} // verus!
