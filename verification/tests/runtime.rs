use mypthreads::exits::Exits;
use mypthreads::mypthread::MyPThread;
use mypthreads::myruntime::MyTRuntime;
use mypthreads::mythread::{Routine, ThreadId};
use mypthreads::mythreadattr::MyThreadAttr;
use mypthreads::scheduler_type::SchedulerType;
use mypthreads::thread_state::ThreadState;

#[test]
fn test_change_scheduler_to_lottery_and_join() {
    let mut pth = MyPThread::new();

    let attr = MyThreadAttr::new(usize::MAX, 10);

    let (r, tid) = pth.my_thread_create(attr, Routine::Const(42), 0, None);
    assert_eq!(r, Exits::Success, "my_thread_create failed");

    let rc = pth.my_thread_chsched(tid, SchedulerType::Lottery);
    assert_eq!(rc, Exits::Success, "my_thread_chsched failed");

    let (j, retval) = pth.my_thread_join(tid);
    assert_eq!(j, Exits::Success, "my_thread_join failed");
    assert_eq!(retval, Some(42), "unexpected returned value");
}

#[test]
fn test_change_scheduler_to_realtime_runs_first() {
    let mut pth = MyPThread::new();

    let attr_rr = MyThreadAttr::new(usize::MAX, 1);
    let attr_rt = MyThreadAttr::new(10, 1);

    let (r1, tid_rr) = pth.my_thread_create(attr_rr, Routine::Const(1), 0, None);
    assert_eq!(r1, Exits::Success);

    let (r2, tid_rt) = pth.my_thread_create(attr_rt, Routine::Const(2), 0, None);
    assert_eq!(r2, Exits::Success);

    let rc = pth.my_thread_chsched(tid_rt, SchedulerType::RealTime);
    assert_eq!(rc, Exits::Success, "my_thread_chsched failed");

    // One scheduling step must pick the real-time thread first under
    // the fixed policy order RealTime > Lottery > RoundRobin.
    pth.runtime.schedule_next();
    assert_eq!(pth.runtime.get_state(tid_rt), Some(ThreadState::Terminated));
    assert_eq!(pth.runtime.get_state(tid_rr), Some(ThreadState::Ready));

    let (j1, _) = pth.my_thread_join(tid_rr);
    assert_eq!(j1, Exits::Success);

    let (j2, _) = pth.my_thread_join(tid_rt);
    assert_eq!(j2, Exits::Success);
}

#[test]
fn test_create_and_join_behaviors() {
    let mut pth = MyPThread::new();

    let my_attr = MyThreadAttr::new(usize::MAX, 1);

    let (res, tid) = pth.my_thread_create(
        my_attr,
        Routine::AddConst(10),
        5,
        Some(SchedulerType::RoundRobin),
    );
    assert_eq!(res, Exits::Success, "my_thread_create failed");

    let (res_join, retval) = pth.my_thread_join(tid);
    assert_eq!(res_join, Exits::Success, "my_thread_join failed");

    assert_eq!(retval, Some(15), "wrong value from the joined routine (expected 15)");
}

#[test]
fn test_multiple_threads() {
    let mut pth = MyPThread::new();
    const IDS_SIZE: usize = 3;
    let mut ids: [ThreadId; IDS_SIZE] = [1; IDS_SIZE];
    let my_attr = MyThreadAttr::new(usize::MAX, 1);

    for item in ids.iter_mut().take(IDS_SIZE) {
        let (res, tid) = pth.my_thread_create(
            my_attr,
            Routine::Const(42),
            5,
            Some(SchedulerType::RoundRobin),
        );
        assert_eq!(res, Exits::Success, "my_thread_create failed");
        *item = tid;
    }

    for id in ids.iter().take(IDS_SIZE) {
        let (res, ret) = pth.my_thread_join(*id);
        assert_eq!(res, Exits::Success, "join failed");
        assert_eq!(ret, Some(42), "the thread {:?} did not return 42", id);
    }

    // No residual ready or running records remain for the joined
    // threads.
    for id in ids.iter() {
        assert_eq!(pth.runtime.get_state(*id), Some(ThreadState::Terminated));
    }
}

#[test]
fn tests_test_multiple_threads() {
    let mut pth = MyPThread::new();
    const IDS_SIZE: usize = 3;
    let mut ids: [ThreadId; IDS_SIZE] = [1; IDS_SIZE];
    let attr = MyThreadAttr::new(usize::MAX, 1);

    for item in ids.iter_mut().take(IDS_SIZE) {
        let (res, tid) = pth.my_thread_create(attr, Routine::Const(42), 0, None);
        assert_eq!(res, Exits::Success, "my_thread_create failed");
        *item = tid;
    }

    for id in ids.iter().take(IDS_SIZE) {
        let (res, ret) = pth.my_thread_join(*id);
        assert_eq!(res, Exits::Success, "join failed");
        assert_eq!(ret, Some(42), "the thread {:?} did not return 42", id);
    }
}

#[test]
fn test_thread_yield_behavior() {
    let mut pth = MyPThread::new();

    let attr1 = MyThreadAttr::new(usize::MAX, 1);
    let attr2 = MyThreadAttr::new(usize::MAX, 1);

    pth.my_thread_create(attr1, Routine::Const(42), 0, Some(SchedulerType::RoundRobin));
    pth.my_thread_create(attr2, Routine::Const(42), 0, Some(SchedulerType::RoundRobin));

    pth.runtime.schedule_next();
    let before = pth.runtime.get_current().unwrap();
    let state = pth.runtime.get_state(before);
    assert!(state == Some(ThreadState::Running) || state == Some(ThreadState::Terminated));

    let result = pth.my_thread_yield();
    assert_eq!(result, Exits::Success, "my_thread_yield should report success");

    let after = pth.runtime.get_current().unwrap();
    assert_ne!(before, after, "my_thread_yield did not move to the next thread");
    let state = pth.runtime.get_state(after);
    assert!(state == Some(ThreadState::Running) || state == Some(ThreadState::Terminated));
}

#[test]
fn test_thread_end_behavior() {
    let mut pth = MyPThread::new();
    let attr = MyThreadAttr::new(usize::MAX, 1);

    let (_, tid) = pth.my_thread_create(
        attr,
        Routine::Const(42),
        0,
        Some(SchedulerType::RoundRobin),
    );
    pth.runtime.schedule_next();
    assert_eq!(pth.runtime.get_current(), Some(tid));

    let result = pth.my_thread_end(0);
    assert_eq!(result, Exits::Success, "my_thread_end did not report success");

    assert_eq!(
        pth.runtime.get_state(tid),
        Some(ThreadState::Terminated),
        "the thread was not marked Terminated"
    );
    assert!(pth.runtime.get_current().is_none(), "current was not cleared");
}

#[test]
fn test_thread_detach_behavior() {
    let mut pth = MyPThread::new();
    let attr = MyThreadAttr::new(usize::MAX, 1);

    let (_, tid) = pth.my_thread_create(
        attr,
        Routine::Const(42),
        10,
        Some(SchedulerType::RoundRobin),
    );

    let res_detach = pth.my_thread_detach(tid);
    assert_eq!(res_detach, Exits::Success, "my_thread_detach did not report success");

    // The thread keeps its table entry, but marked detached.
    assert!(pth.runtime.get_state(tid).is_some(), "the thread should stay in the table");
}

#[test]
fn test_end_current_marks_terminated() {
    let mut rt = MyTRuntime::new();
    let attr = MyThreadAttr::new(usize::MAX, 1);

    let (_, tid) = rt.create(attr, Routine::Const(0), 0, None);

    rt.schedule_next();
    assert_eq!(rt.get_current(), Some(tid));

    let rc = rt.end_current(0x1234);
    assert_eq!(rc, Exits::Success);

    let t = rt.threads.iter().find(|t| t.id == tid).unwrap();
    assert_eq!(t.state, ThreadState::Terminated);
    assert_eq!(t.ret_val, Some(0x1234));
}

#[test]
fn join_idempotent_on_terminated_target() {
    let mut pth = MyPThread::new();
    let attr = MyThreadAttr::new(usize::MAX, 1);
    let (_, tid) = pth.my_thread_create(attr, Routine::AddConst(1), 41, None);

    let (r1, v1) = pth.my_thread_join(tid);
    assert_eq!((r1, v1), (Exits::Success, Some(42)));

    // Joining an already-terminated target again returns the same
    // stored value, without blocking and without state change.
    let wait_entries = pth.runtime.wait_on.len();
    for _ in 0..5 {
        let (r, v) = pth.my_thread_join(tid);
        assert_eq!((r, v), (Exits::Success, Some(42)));
        assert_eq!(pth.runtime.wait_on.len(), wait_entries);
    }
}

#[test]
fn self_join_always_rejected() {
    let mut pth = MyPThread::new();
    let attr = MyThreadAttr::new(usize::MAX, 1);
    let (_, tid) = pth.my_thread_create(attr, Routine::Const(1), 0, None);

    // A live thread in the current slot may never join itself; the
    // call fails with the self-join status and does not block.
    pth.runtime.current = Some(tid);
    let (r, v) = pth.my_thread_join(tid);
    assert_eq!((r, v), (Exits::SelfJoin, None));
    // The call changed nothing and can be repeated freely.
    let (r2, v2) = pth.my_thread_join(tid);
    assert_eq!((r2, v2), (Exits::SelfJoin, None));
}

#[test]
fn join_unknown_thread_fails() {
    let mut pth = MyPThread::new();
    let (r, v) = pth.my_thread_join(99);
    assert_eq!((r, v), (Exits::NoSuchThread, None));
}

#[test]
fn join_detached_thread_fails() {
    let mut pth = MyPThread::new();
    let attr = MyThreadAttr::new(usize::MAX, 1);
    let (_, tid) = pth.my_thread_create(attr, Routine::Const(1), 0, None);
    assert_eq!(pth.my_thread_detach(tid), Exits::Success);
    let (r, v) = pth.my_thread_join(tid);
    assert_eq!((r, v), (Exits::NoSuchThread, None));
}

#[test]
fn join_occupied_wait_slot_fails() {
    let mut pth = MyPThread::new();
    let attr = MyThreadAttr::new(usize::MAX, 1);
    let (_, target) = pth.my_thread_create(attr, Routine::Const(1), 0, None);
    let (_, waiter) = pth.my_thread_create(attr, Routine::Const(2), 0, None);
    let (_, other) = pth.my_thread_create(attr, Routine::Const(3), 0, None);

    // The single waiter slot for the target is taken, and another
    // running thread asks to join the same target.
    pth.runtime.mark_blocked_on(waiter, target);
    pth.runtime.current = Some(other);
    let (r, v) = pth.my_thread_join(target);
    assert_eq!((r, v), (Exits::AlreadyWaiting, None));
}

#[test]
fn change_scheduler_error_cases() {
    let mut pth = MyPThread::new();
    assert_eq!(pth.my_thread_chsched(7, SchedulerType::Lottery), Exits::NoSuchThread);

    let attr = MyThreadAttr::new(usize::MAX, 1);
    let (_, tid) = pth.my_thread_create(attr, Routine::Const(1), 0, None);
    let (j, _) = pth.my_thread_join(tid);
    assert_eq!(j, Exits::Success);
    assert_eq!(pth.my_thread_chsched(tid, SchedulerType::Lottery), Exits::ThreadIsTerminated);
}

#[test]
fn end_current_without_running_thread_fails() {
    let mut pth = MyPThread::new();
    assert_eq!(pth.my_thread_end(0), Exits::CurrentIsEmpty);
}

#[test]
fn detach_unknown_thread_fails() {
    let mut pth = MyPThread::new();
    assert_eq!(pth.my_thread_detach(3), Exits::NoSuchThread);
}

#[test]
fn detach_after_termination_reclaims_entry() {
    let mut pth = MyPThread::new();
    let attr = MyThreadAttr::new(usize::MAX, 1);
    let (_, tid) = pth.my_thread_create(attr, Routine::Const(1), 0, None);
    let (j, _) = pth.my_thread_join(tid);
    assert_eq!(j, Exits::Success);
    assert_eq!(pth.my_thread_detach(tid), Exits::Success);
    assert!(pth.runtime.get_state(tid).is_none(), "a terminated detached entry is reclaimed");
}

#[test]
fn identity_routine_hands_argument_back() {
    let mut pth = MyPThread::new();
    let attr = MyThreadAttr::new(usize::MAX, 1);
    let (_, tid) = pth.my_thread_create(attr, Routine::Identity, -7, None);
    let (j, v) = pth.my_thread_join(tid);
    assert_eq!((j, v), (Exits::Success, Some(-7)));
}

#[test]
fn add_routine_saturates_at_extremes() {
    let mut pth = MyPThread::new();
    let attr = MyThreadAttr::new(usize::MAX, 1);
    let (_, tid) = pth.my_thread_create(attr, Routine::AddConst(i64::MAX), 5, None);
    let (j, v) = pth.my_thread_join(tid);
    assert_eq!((j, v), (Exits::Success, Some(i64::MAX)));
}

#[test]
fn join_reports_deadlock_when_nothing_runnable() {
    let mut pth = MyPThread::new();
    let attr = MyThreadAttr::new(usize::MAX, 1);
    let (_, tid) = pth.my_thread_create(attr, Routine::Const(1), 0, None);

    // Empty the ready queue behind the runtime's back: the target is
    // alive but nothing can ever run it.
    pth.runtime.rr = mypthreads::round_robin::RRScheduler::new();
    let (r, v) = pth.my_thread_join(tid);
    assert_eq!((r, v), (Exits::NothingToRun, None));
    assert_eq!(pth.runtime.get_state(tid), Some(ThreadState::Ready));
}

#[test]
fn wake_thread_readies_live_threads_only() {
    let mut pth = MyPThread::new();
    let attr = MyThreadAttr::new(usize::MAX, 1);
    let (_, tid) = pth.my_thread_create(attr, Routine::Const(1), 0, None);

    assert_eq!(pth.runtime.wake_thread(99), Exits::UnknownThread);
    assert_eq!(pth.runtime.wake_thread(tid), Exits::Success);
    assert_eq!(pth.runtime.get_state(tid), Some(ThreadState::Ready));

    let (j, _) = pth.my_thread_join(tid);
    assert_eq!(j, Exits::Success);
    assert_eq!(pth.runtime.wake_thread(tid), Exits::ThreadIsTerminated);
}

#[test]
fn join_drives_past_stale_queue_entries() {
    let mut pth = MyPThread::new();
    let attr = MyThreadAttr::new(usize::MAX, 1);
    let (_, t1) = pth.my_thread_create(attr, Routine::Const(1), 0, None);
    let (j1, _) = pth.my_thread_join(t1);
    assert_eq!(j1, Exits::Success);

    // Re-insert the terminated thread's identifier as a stale entry in
    // front of a freshly created live thread.
    pth.runtime.rr.q.push_back(t1);
    let (_, t2) = pth.my_thread_create(attr, Routine::Const(2), 0, None);
    pth.runtime.current = None;

    // The stale entry is discarded and the live thread still runs: the
    // join must not mistake the stale pick for a deadlock.
    let (j2, v2) = pth.my_thread_join(t2);
    assert_eq!((j2, v2), (Exits::Success, Some(2)));
}

#[test]
fn occupied_wait_slot_leaves_state_unchanged() {
    let mut pth = MyPThread::new();
    let attr = MyThreadAttr::new(usize::MAX, 1);
    let (_, target) = pth.my_thread_create(attr, Routine::Const(1), 0, None);
    let (_, waiter) = pth.my_thread_create(attr, Routine::Const(2), 0, None);
    let (_, other) = pth.my_thread_create(attr, Routine::Const(3), 0, None);

    pth.runtime.mark_blocked_on(waiter, target);
    pth.runtime.current = Some(other);
    let entries = pth.runtime.wait_on.clone();
    let (r, v) = pth.my_thread_join(target);
    assert_eq!((r, v), (Exits::AlreadyWaiting, None));
    assert_eq!(pth.runtime.wait_on, entries);
    assert_eq!(pth.runtime.get_state(target), Some(ThreadState::Ready));
    assert_eq!(pth.runtime.get_state(waiter), Some(ThreadState::Blocked));
}
