use mypthreads::exits::Exits;
use mypthreads::mymutex::MyMutex;
use mypthreads::mypthread::MyPThread;
use mypthreads::mythread::Routine;
use mypthreads::mythreadattr::MyThreadAttr;
use mypthreads::scheduler_type::SchedulerType;

#[test]
fn test_mutex_init_and_destroy() {
    let mut pth = MyPThread::new();
    let mut mutex = MyMutex::new();

    let res_init = pth.my_mutex_init(&mut mutex);
    assert_eq!(res_init, Exits::Success, "my_mutex_init failed");
    assert!(mutex.initialized, "the mutex was not marked initialized");

    let res_destroy = pth.my_mutex_destroy(&mut mutex);
    assert_eq!(res_destroy, Exits::Success, "my_mutex_destroy failed");
    assert!(!mutex.initialized, "the mutex should have been uninitialized");
}

#[test]
fn test_mutex_lock_and_unlock() {
    let block_val = Exits::ThreadBlocked;
    let mut pth = MyPThread::new();
    let attr = MyThreadAttr::new(usize::MAX, 1);

    let (_, tid) = pth.my_thread_create(
        attr,
        Routine::Const(42),
        10,
        Some(SchedulerType::RoundRobin),
    );

    pth.runtime.schedule_next();
    let mut mutex = MyMutex::new();

    pth.my_mutex_init(&mut mutex);

    let res_lock = pth.my_mutex_lock(&mut mutex);
    assert_eq!(res_lock, block_val, "my_mutex_lock did not report ThreadBlocked");

    mutex.owner = Some(tid);
    mutex.locked = true;

    let res_unlock = pth.my_mutex_unlock(&mut mutex);
    assert_eq!(res_unlock, Exits::Success, "my_mutex_unlock did not report success");
}

#[test]
fn mutex_mutual_exclusion_between_unlocks() {
    let mut m = MyMutex::new();
    m.init_mut();

    // The first lock is approved; while it is held every further lock
    // reports "would block", never "approved".
    assert_eq!(m.lock(1), Exits::MutexLockApproved);
    assert_eq!(m.lock(2), Exits::MutexLocked);
    assert_eq!(m.lock(3), Exits::MutexLocked);
    assert_eq!(m.try_lock(2), Exits::MutexLocked);

    // Only after the owner's unlock is exactly one next lock approved.
    assert_eq!(m.unlock(Some(1)), Exits::Success);
    assert_eq!(m.lock(2), Exits::MutexLockApproved);
    assert_eq!(m.lock(3), Exits::MutexLocked);
}

#[test]
fn mutex_queues_each_waiter_once() {
    let mut m = MyMutex::new();
    m.init_mut();
    assert_eq!(m.lock(1), Exits::MutexLockApproved);
    assert_eq!(m.lock(2), Exits::MutexLocked);
    assert_eq!(m.lock(2), Exits::MutexLocked);
    assert_eq!(m.lock(3), Exits::MutexLocked);
    assert_eq!(m.wait_queue.len(), 2, "a waiter is queued only once");
}

#[test]
fn mutex_uninitialized_refuses_operations() {
    let mut m = MyMutex::new();
    assert_eq!(m.lock(1), Exits::MutexNotInitialized);
    assert_eq!(m.try_lock(1), Exits::MutexNotInitialized);
    assert_eq!(m.destroy(), Exits::MutexInvalidState);
}

#[test]
fn mutex_destroy_refused_while_held() {
    let mut m = MyMutex::new();
    m.init_mut();
    assert_eq!(m.lock(1), Exits::MutexLockApproved);
    assert_eq!(m.destroy(), Exits::MutexInvalidState);
    assert_eq!(m.unlock(Some(1)), Exits::Success);
    assert_eq!(m.destroy(), Exits::Success);
}

#[test]
fn mutex_unlock_requires_owner() {
    let mut m = MyMutex::new();
    m.init_mut();
    assert_eq!(m.lock(1), Exits::MutexLockApproved);
    assert_eq!(m.unlock(Some(2)), Exits::MutexInvalidOwner);
    assert_eq!(m.unlock(None), Exits::UnknownThread);
    assert_eq!(m.unlock(Some(1)), Exits::Success);
}

#[test]
fn facade_trylock_reports_grant_and_refusal() {
    let mut pth = MyPThread::new();
    let mut m = MyMutex::new();
    pth.my_mutex_init(&mut m);

    assert_eq!(pth.my_mutex_trylock(&mut m), Exits::CurrentIsEmpty);

    let attr = MyThreadAttr::new(usize::MAX, 1);
    pth.my_thread_create(attr, Routine::Const(0), 0, None);
    pth.runtime.schedule_next();

    assert_eq!(pth.my_mutex_trylock(&mut m), Exits::MutexLockApproved);
    assert_eq!(pth.my_mutex_trylock(&mut m), Exits::MutexLocked);
    assert!(m.wait_queue.is_empty(), "try_lock never queues the caller");
}
