//! The public facade: thread create/join/yield/end/detach, policy
//! changes and mutex operations, all delegating to the runtime.

use vstd::prelude::*;
use crate::exits::Exits;
use crate::mymutex::{lock_transition, try_lock_transition, unlock_transition, MyMutex};
use crate::myruntime::{chosen_policy, table_evolves, MyTRuntime};
use crate::mythread::{Routine, ThreadId};
use crate::mythreadattr::MyThreadAttr;
use crate::scheduler_type::SchedulerType;
use crate::thread_state::ThreadState;

verus! {

/// One explicitly constructed runtime instance; every operation goes
/// through it, so independent runtimes can coexist.
pub struct MyPThread {
    pub runtime: MyTRuntime,
}

impl MyPThread {
    pub fn new() -> (r: Self)
        ensures
            r.runtime.wf(),
            r.runtime.threads@.len() == 0,
            r.runtime.next_id == 0,
            r.runtime.current is None,
            r.runtime.wait_on@.len() == 0,
            r.runtime.rr.q@.len() == 0,
            r.runtime.lottery.entries@.len() == 0,
            r.runtime.real_time.q@.len() == 0,
    {
        MyPThread { runtime: MyTRuntime::new() }
    }

    /// Spawns a unit of work: a ready record under a fresh identifier,
    /// queued under the chosen policy (round-robin when unspecified).
    pub fn my_thread_create(
        &mut self,
        attr: MyThreadAttr,
        start_routine: Routine,
        arg: i64,
        scheduler: Option<SchedulerType>,
    ) -> (r: (Exits, ThreadId))
        requires
            old(self).runtime.wf(),
            old(self).runtime.next_id < u64::MAX,
        ensures
            final(self).runtime.wf(),
            r.0 == Exits::Success,
            r.1 == old(self).runtime.next_id,
            final(self).runtime.next_id == old(self).runtime.next_id + 1,
            final(self).runtime.has_thread(r.1),
            final(self).runtime.thread_spec(r.1) == (crate::mythread::MyThread {
                id: r.1,
                state: ThreadState::Ready,
                attr,
                start_routine,
                arg,
                ret_val: None,
                scheduler: chosen_policy(scheduler),
            }),
            final(self).runtime.threads@ == old(self).runtime.threads@.push(
                final(self).runtime.thread_spec(r.1),
            ),
            final(self).runtime.current == old(self).runtime.current,
            final(self).runtime.wait_on == old(self).runtime.wait_on,
            final(self).runtime.run_queue == old(self).runtime.run_queue,
            final(self).runtime.time_ms == old(self).runtime.time_ms,
            chosen_policy(scheduler) == SchedulerType::RoundRobin ==> {
                &&& final(self).runtime.rr.q@ == old(self).runtime.rr.q@.push(r.1)
                &&& final(self).runtime.lottery == old(self).runtime.lottery
                &&& final(self).runtime.real_time == old(self).runtime.real_time
            },
            chosen_policy(scheduler) == SchedulerType::Lottery ==> {
                &&& final(self).runtime.lottery.entries@ == old(self).runtime.lottery.entries@.push(
                    (r.1, crate::lottery::effective_tickets(attr.priority)),
                )
                &&& final(self).runtime.lottery.rng_state == old(self).runtime.lottery.rng_state
                &&& final(self).runtime.rr == old(self).runtime.rr
                &&& final(self).runtime.real_time == old(self).runtime.real_time
            },
            chosen_policy(scheduler) == SchedulerType::RealTime ==> {
                &&& final(self).runtime.real_time.q@ == old(self).runtime.real_time.q@.insert(
                    crate::real_time::insert_pos(
                        old(self).runtime.real_time.q@,
                        (attr.dead_line, r.1),
                    ),
                    (attr.dead_line, r.1),
                )
                &&& final(self).runtime.rr == old(self).runtime.rr
                &&& final(self).runtime.lottery == old(self).runtime.lottery
            },
    {
        let r = self.runtime.create(attr, start_routine, arg, scheduler);
        proof {
            let s = self.runtime.threads@;
            crate::myruntime::lemma_idx_of(s, r.1, s.len() - 1);
        }
        r
    }

    /// Blocks until `thread` terminates and hands back its stored
    /// return value; unknown or detached targets are not joinable, and
    /// a live thread never joins itself. The deadlock status comes only
    /// once nothing at all is runnable, and then every identifier that
    /// sat in a ready queue has either run to termination or left the
    /// table.
    pub fn my_thread_join(&mut self, thread: ThreadId) -> (r: (Exits, Option<i64>))
        requires
            old(self).runtime.wf(),
        ensures
            final(self).runtime.wf(),
            table_evolves(old(self).runtime.threads@, final(self).runtime.threads@),
            !old(self).runtime.has_thread(thread) ==> r == (Exits::NoSuchThread, None::<i64>)
                && *final(self) == *old(self),
            old(self).runtime.has_thread(thread) && old(self).runtime.thread_spec(
                thread,
            ).attr.detached ==> r == (Exits::NoSuchThread, None::<i64>) && *final(self) == *old(self),
            old(self).runtime.has_thread(thread) && !old(self).runtime.thread_spec(
                thread,
            ).attr.detached && old(self).runtime.is_terminated(thread) ==> r == (
            Exits::Success, old(self).runtime.thread_spec(thread).ret_val) && *final(self) == *old(self),
            old(self).runtime.has_thread(thread) && !old(self).runtime.thread_spec(
                thread,
            ).attr.detached && !old(self).runtime.is_terminated(thread) && old(self).runtime.current == Some(thread) ==> r == (Exits::SelfJoin, None::<i64>) && *final(self) == *old(self),
            r.0 == Exits::Success ==> final(self).runtime.is_terminated(thread) && r.1 == final(self).runtime.thread_spec(thread).ret_val,
            old(self).runtime.has_thread(thread) && !old(self).runtime.thread_spec(
                thread,
            ).attr.detached && !old(self).runtime.is_terminated(thread) && old(self).runtime.current != Some(thread) ==> {
                &&& (old(self).runtime.current is None ==> r.0 == Exits::Success || r.0
                    == Exits::NothingToRun)
                &&& (old(self).runtime.current is Some ==> r.0 == Exits::Success || r.0
                    == Exits::NothingToRun || r.0 == Exits::AlreadyWaiting)
                &&& (r.0 == Exits::Success ==> !final(self).runtime.has_waiter(thread))
                &&& (r.0 == Exits::Success ==> r.1 == Some(
                    crate::mythread::routine_eval(
                        old(self).runtime.thread_spec(thread).start_routine,
                        old(self).runtime.thread_spec(thread).arg,
                    ),
                ))
                &&& (r.0 == Exits::NothingToRun ==> !final(self).runtime.is_terminated(thread)
                    && r.1 is None && final(self).runtime.next_choice() is None)
                &&& (r.0 == Exits::NothingToRun ==> forall|t: ThreadId|
                    #[trigger] crate::myruntime::queued_in(old(self).runtime, t) ==> !final(self).runtime.has_thread(t) || final(self).runtime.is_terminated(t))
                &&& (old(self).runtime.current is Some ==> (r.0 == Exits::AlreadyWaiting <==> old(self).runtime.has_waiter(thread)))
                &&& (r.0 == Exits::AlreadyWaiting ==> old(self).runtime.has_waiter(thread) && r.1
                    is None && *final(self) == *old(self))
            },
    {
        self.runtime.join(thread)
    }

    /// Readies and re-queues the live running record into its policy's
    /// queue, then asks the scheduler to pick next; with no live
    /// running record the pick happens alone. This is a
    /// whole-routine-boundary operation: routines themselves always
    /// run to completion.
    pub fn my_thread_yield(&mut self) -> (r: Exits)
        requires
            old(self).runtime.wf(),
        ensures
            final(self).runtime.wf(),
            r == Exits::Success,
            table_evolves(old(self).runtime.threads@, final(self).runtime.threads@),
            crate::myruntime::table_step_sound(
                old(self).runtime.threads@,
                final(self).runtime.threads@,
            ),
            final(self).runtime.next_id == old(self).runtime.next_id,
            old(self).runtime.current is None ==> crate::myruntime::schedule_effect(
                old(self).runtime,
                final(self).runtime,
            ),
            old(self).runtime.current matches Some(c) ==> {
                &&& (!old(self).runtime.has_thread(c) || old(self).runtime.is_terminated(c)
                    ==> crate::myruntime::schedule_effect(old(self).runtime, final(self).runtime))
                &&& (old(self).runtime.has_thread(c) && !old(self).runtime.is_terminated(c)
                    ==> crate::myruntime::yield_requeue_step(
                    old(self).runtime,
                    final(self).runtime,
                    c,
                ))
            },
    {
        let ghost t0 = self.runtime.threads@;
        match self.runtime.current {
            Some(tid) => {
                let st = self.runtime.get_state(tid);
                match st {
                    Some(ThreadState::Terminated) => {},
                    Some(_) => {
                        self.runtime.set_state(tid, ThreadState::Ready);
                        proof {
                            assert(old(self).runtime.has_thread(tid));
                            let j = crate::myruntime::idx_of(old(self).runtime.threads@, tid);
                            assert(old(self).runtime.threads@[j].id == tid);
                            assert(self.runtime.threads@[j].id == tid);
                            assert(crate::myruntime::has_tid(self.runtime.threads@, tid));
                        }
                        self.requeue_ready(tid);
                    },
                    None => {},
                }
            },
            None => {},
        }
        let ghost mid = self.runtime;
        let ghost pre = self.runtime.threads@;
        let st2 = self.runtime.schedule_next();
        proof {
            crate::myruntime::lemma_step_sound_trans(t0, pre, self.runtime.threads@);
            assert(crate::myruntime::schedule_step(mid, self.runtime, st2));
            assert(crate::myruntime::schedule_effect(mid, self.runtime));
            match old(self).runtime.current {
                Some(c) => {
                    if old(self).runtime.has_thread(c) && !old(self).runtime.is_terminated(c) {
                        assert(crate::myruntime::requeue_mid(old(self).runtime, mid, c));
                        assert(crate::myruntime::yield_requeue_step(
                            old(self).runtime,
                            self.runtime,
                            c,
                        ));
                    }
                },
                None => {},
            }
        }
        Exits::Success
    }

    /// Admits a known record into the queue of its own policy.
    fn requeue_ready(&mut self, tid: ThreadId)
        requires
            old(self).runtime.wf(),
            old(self).runtime.has_thread(tid),
        ensures
            final(self).runtime.wf(),
            final(self).runtime.threads == old(self).runtime.threads,
            final(self).runtime.next_id == old(self).runtime.next_id,
            final(self).runtime.current == old(self).runtime.current,
            final(self).runtime.wait_on == old(self).runtime.wait_on,
            final(self).runtime.run_queue == old(self).runtime.run_queue,
            final(self).runtime.time_ms == old(self).runtime.time_ms,
            old(self).runtime.thread_spec(tid).scheduler == SchedulerType::RoundRobin ==> {
                &&& final(self).runtime.rr.q@ == old(self).runtime.rr.q@.push(tid)
                &&& final(self).runtime.lottery == old(self).runtime.lottery
                &&& final(self).runtime.real_time == old(self).runtime.real_time
            },
            old(self).runtime.thread_spec(tid).scheduler == SchedulerType::Lottery ==> {
                &&& final(self).runtime.lottery.entries@ == old(self).runtime.lottery.entries@.push(
                    (
                        tid,
                        crate::lottery::effective_tickets(
                            old(self).runtime.thread_spec(tid).attr.priority,
                        ),
                    ),
                )
                &&& final(self).runtime.lottery.rng_state == old(self).runtime.lottery.rng_state
                &&& final(self).runtime.rr == old(self).runtime.rr
                &&& final(self).runtime.real_time == old(self).runtime.real_time
            },
            old(self).runtime.thread_spec(tid).scheduler == SchedulerType::RealTime ==> {
                &&& final(self).runtime.real_time.q@ == old(self).runtime.real_time.q@.insert(
                    crate::real_time::insert_pos(
                        old(self).runtime.real_time.q@,
                        (old(self).runtime.thread_spec(tid).attr.dead_line, tid),
                    ),
                    (old(self).runtime.thread_spec(tid).attr.dead_line, tid),
                )
                &&& final(self).runtime.rr == old(self).runtime.rr
                &&& final(self).runtime.lottery == old(self).runtime.lottery
            },
    {
        let i = match self.runtime.find_thread(tid) {
            Some(i) => i,
            None => {
                proof {
                    assert(false);
                }
                return ;
            },
        };
        proof {
            crate::myruntime::lemma_idx_of(self.runtime.threads@, tid, i as int);
        }
        let t = self.runtime.threads[i];
        match t.scheduler {
            SchedulerType::RoundRobin => self.runtime.rr.enqueue(tid, &t),
            SchedulerType::Lottery => self.runtime.lottery.enqueue(tid, &t),
            SchedulerType::RealTime => self.runtime.real_time.enqueue(tid, &t),
        }
    }

    /// Terminates the running record with the given return value,
    /// wakes its joiner, clears the slot and schedules the next unit.
    pub fn my_thread_end(&mut self, retval: i64) -> (r: Exits)
        requires
            old(self).runtime.wf(),
        ensures
            final(self).runtime.wf(),
            old(self).runtime.current is None ==> r == Exits::CurrentIsEmpty && *final(self)
                == *old(self),
            old(self).runtime.current matches Some(c) ==> {
                &&& (!old(self).runtime.has_thread(c) ==> r == Exits::UnknownThread && *final(self)
                    == *old(self))
                &&& (old(self).runtime.has_thread(c) ==> {
                    &&& r == Exits::Success
                    &&& final(self).runtime.is_terminated(c)
                    &&& final(self).runtime.thread_spec(c).ret_val == Some(retval)
                    &&& crate::myruntime::end_step(
                        old(self).runtime,
                        final(self).runtime,
                        c,
                        retval,
                    )
                    &&& !final(self).runtime.has_waiter(c)
                    &&& (old(self).runtime.next_choice() is None ==> final(self).runtime.current
                        is None)
                    &&& (old(self).runtime.next_choice() matches Some(t) ==> final(self).runtime.current == Some(t))
                    &&& (old(self).runtime.has_waiter(c) ==> {
                        let w = crate::myruntime::waiter_for(old(self).runtime.wait_on@, c);
                        old(self).runtime.has_thread(w) && old(self).runtime.thread_spec(w).state
                            == ThreadState::Blocked && w != c ==> {
                            &&& final(self).runtime.has_thread(w)
                            &&& final(self).runtime.thread_spec(w).state != ThreadState::Blocked
                            &&& old(self).runtime.run_queue@.push(w).is_prefix_of(
                                final(self).runtime.run_queue@,
                            )
                        }
                    })
                })
            },
    {
        self.runtime.end_current(retval)
    }

    /// Makes a record unjoinable; an already-terminated one is
    /// reclaimed immediately.
    pub fn my_thread_detach(&mut self, thread: ThreadId) -> (r: Exits)
        requires
            old(self).runtime.wf(),
        ensures
            final(self).runtime.wf(),
            !old(self).runtime.has_thread(thread) ==> r == Exits::NoSuchThread && *final(self)
                == *old(self),
            old(self).runtime.has_thread(thread) ==> {
                &&& r == Exits::Success
                &&& (old(self).runtime.thread_spec(thread).state != ThreadState::Terminated
                    ==> final(self).runtime.has_thread(thread) && final(self).runtime.thread_spec(
                    thread,
                ).attr.detached)
                &&& (old(self).runtime.thread_spec(thread).state == ThreadState::Terminated
                    ==> !final(self).runtime.has_thread(thread))
            },
    {
        let ghost os = self.runtime.threads@;
        let r = self.runtime.detach(thread);
        proof {
            if old(self).runtime.has_thread(thread) {
                let i = crate::myruntime::idx_of(os, thread);
                assert(0 <= i < os.len() && os[i].id == thread);
                let ns = self.runtime.threads@;
                if old(self).runtime.thread_spec(thread).state != ThreadState::Terminated {
                    assert(ns[i].id == thread);
                    crate::myruntime::lemma_idx_of(ns, thread, i);
                } else {
                    os.remove_ensures(i);
                    assert forall|j: int| 0 <= j < ns.len() implies ns[j].id != thread by {
                        if j < i {
                            assert(ns[j] == os[j]);
                            assert(os[j].id < os[i].id);
                        } else {
                            assert(ns[j] == os[j + 1]);
                            assert(os[i].id < os[j + 1].id);
                        }
                    }
                }
            }
        }
        r
    }

    /// Moves a live record to another policy and rebuilds every ready
    /// queue from the table.
    pub fn my_thread_chsched(&mut self, thread: ThreadId, new_kind: SchedulerType) -> (r: Exits)
        requires
            old(self).runtime.wf(),
        ensures
            final(self).runtime.wf(),
            !old(self).runtime.has_thread(thread) ==> r == Exits::NoSuchThread && *final(self)
                == *old(self),
            old(self).runtime.has_thread(thread) && old(self).runtime.is_terminated(thread) ==> r
                == Exits::ThreadIsTerminated && *final(self) == *old(self),
            old(self).runtime.has_thread(thread) && !old(self).runtime.is_terminated(thread)
                && old(self).runtime.thread_spec(thread).scheduler == new_kind ==> r
                == Exits::Success && *final(self) == *old(self),
            old(self).runtime.has_thread(thread) && !old(self).runtime.is_terminated(thread)
                && old(self).runtime.thread_spec(thread).scheduler != new_kind ==> {
                &&& r == Exits::Success
                &&& final(self).runtime.threads@ == old(self).runtime.threads@.update(
                    crate::myruntime::idx_of(old(self).runtime.threads@, thread),
                    (crate::mythread::MyThread {
                        scheduler: new_kind,
                        ..old(self).runtime.thread_spec(thread)
                    }),
                )
                &&& final(self).runtime.rr.q@ == crate::myruntime::rebuild_rr(
                    final(self).runtime.threads@,
                )
                &&& final(self).runtime.lottery.entries@ == crate::myruntime::rebuild_lottery(
                    final(self).runtime.threads@,
                )
                &&& final(self).runtime.real_time.q@ == crate::myruntime::rebuild_rt(
                    final(self).runtime.threads@,
                )
                &&& final(self).runtime.current == old(self).runtime.current
                &&& final(self).runtime.wait_on == old(self).runtime.wait_on
                &&& final(self).runtime.run_queue == old(self).runtime.run_queue
                &&& final(self).runtime.next_id == old(self).runtime.next_id
                &&& final(self).runtime.time_ms == old(self).runtime.time_ms
            },
    {
        self.runtime.change_scheduler(thread, new_kind)
    }

    /// Prepares a mutex for use.
    pub fn my_mutex_init(&mut self, mutex: &mut MyMutex) -> (r: Exits)
        ensures
            *final(self) == *old(self),
            r == Exits::Success,
            final(mutex)@.initialized,
            !final(mutex)@.locked,
            final(mutex)@.owner is None,
            final(mutex)@.waiters.len() == 0,
    {
        mutex.init_mut()
    }

    /// Retires a mutex; it must be unlocked with no queued waiters.
    pub fn my_mutex_destroy(&mut self, mutex: &mut MyMutex) -> (r: Exits)
        ensures
            *final(self) == *old(self),
            (old(mutex)@.initialized && !old(mutex)@.locked && old(mutex)@.waiters.len() == 0)
                ==> r == Exits::Success && !final(mutex)@.initialized,
            !(old(mutex)@.initialized && !old(mutex)@.locked && old(mutex)@.waiters.len() == 0)
                ==> r == Exits::MutexInvalidState && *final(mutex) == *old(mutex),
    {
        mutex.destroy()
    }

    /// Requests the lock for the running thread. The mutex itself
    /// grants or queues; the facade reports that the caller is to treat
    /// itself as blocked until it observes the grant.
    pub fn my_mutex_lock(&mut self, mutex: &mut MyMutex) -> (r: Exits)
        ensures
            *final(self) == *old(self),
            old(self).runtime.current is None ==> r == Exits::CurrentIsEmpty && *final(mutex)
                == *old(mutex),
            old(self).runtime.current matches Some(c) ==> {
                &&& final(mutex)@ == lock_transition(old(mutex)@, c).0
                &&& r == Exits::ThreadBlocked
            },
    {
        match self.runtime.get_current() {
            Some(tid) => {
                mutex.lock(tid);
                Exits::ThreadBlocked
            },
            None => Exits::CurrentIsEmpty,
        }
    }

    /// As `my_mutex_lock`, but reports the grant or refusal directly
    /// and never queues the caller.
    pub fn my_mutex_trylock(&mut self, mutex: &mut MyMutex) -> (r: Exits)
        ensures
            *final(self) == *old(self),
            old(self).runtime.current is None ==> r == Exits::CurrentIsEmpty && *final(mutex)
                == *old(mutex),
            old(self).runtime.current matches Some(c) ==> (final(mutex)@, r) == try_lock_transition(
                old(mutex)@,
                c,
            ),
    {
        match self.runtime.get_current() {
            Some(tid) => mutex.try_lock(tid),
            None => Exits::CurrentIsEmpty,
        }
    }

    /// Releases a mutex on behalf of the running thread.
    pub fn my_mutex_unlock(&mut self, mutex: &mut MyMutex) -> (r: Exits)
        ensures
            *final(self) == *old(self),
            (final(mutex)@, r) == unlock_transition(old(mutex)@, old(self).runtime.current),
    {
        let cur = self.runtime.get_current();
        mutex.unlock(cur)
    }
}

} // verus!
