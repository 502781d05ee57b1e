use mypthreads::lottery::LotteryScheduler;
use mypthreads::mythread::{MyThread, Routine, ThreadId};
use mypthreads::mythreadattr::MyThreadAttr;
use mypthreads::real_time::RealTimeScheduler;
use mypthreads::round_robin::RRScheduler;
use mypthreads::scheduler_type::SchedulerType;

fn make_thread(id: ThreadId, priority: u8, deadline: usize, sched: SchedulerType) -> MyThread {
    let attr = MyThreadAttr::new(deadline, priority);
    MyThread::new(id, attr, Routine::Const(0), 0, Some(sched))
}

#[test]
fn rr_basic_fifo() {
    let mut rr = RRScheduler::new();

    let t1 = make_thread(1, 10, usize::MAX, SchedulerType::RoundRobin);
    let t2 = make_thread(2, 20, usize::MAX, SchedulerType::RoundRobin);
    let t3 = make_thread(3, 30, usize::MAX, SchedulerType::RoundRobin);

    rr.enqueue(1, &t1);
    rr.enqueue(2, &t2);
    rr.enqueue(3, &t3);

    assert_eq!(rr.pick_next(), Some(1));
    assert_eq!(rr.pick_next(), Some(2));
    assert_eq!(rr.pick_next(), Some(3));
    assert_eq!(rr.pick_next(), None);
    assert!(rr.is_empty());
}

#[test]
fn rr_cycle_with_reenqueue() {
    let mut rr = RRScheduler::new();
    let t1 = make_thread(1, 10, usize::MAX, SchedulerType::RoundRobin);
    let t2 = make_thread(2, 10, usize::MAX, SchedulerType::RoundRobin);

    rr.enqueue(1, &t1);
    rr.enqueue(2, &t2);

    assert_eq!(rr.pick_next(), Some(1));
    rr.enqueue(1, &t1);

    assert_eq!(rr.pick_next(), Some(2));
    rr.enqueue(2, &t2);

    assert_eq!(rr.pick_next(), Some(1));
}

#[test]
fn rr_empty_returns_none() {
    let mut rr = RRScheduler::new();
    assert!(rr.is_empty());
    assert_eq!(rr.pick_next(), None);
}

#[test]
fn edf_picks_earliest_deadline_first() {
    let mut edf = RealTimeScheduler::new();

    let t1 = make_thread(1, 0, 50, SchedulerType::RealTime);
    let t2 = make_thread(2, 0, 10, SchedulerType::RealTime);
    let t3 = make_thread(3, 0, 30, SchedulerType::RealTime);

    edf.enqueue(1, &t1);
    edf.enqueue(2, &t2);
    edf.enqueue(3, &t3);

    assert_eq!(edf.pick_next(), Some(2));
    assert_eq!(edf.pick_next(), Some(3));
    assert_eq!(edf.pick_next(), Some(1));
    assert_eq!(edf.pick_next(), None);
    assert!(edf.is_empty());
}

#[test]
fn edf_tie_breaker_by_tid_when_same_deadline() {
    let mut edf = RealTimeScheduler::new();

    let t1 = make_thread(10, 0, 100, SchedulerType::RealTime);
    let t2 = make_thread(5, 0, 100, SchedulerType::RealTime);

    edf.enqueue(10, &t1);
    edf.enqueue(5, &t2);

    assert_eq!(edf.pick_next(), Some(5));
    assert_eq!(edf.pick_next(), Some(10));
    assert_eq!(edf.pick_next(), None);
}

#[test]
fn edf_empty_returns_none() {
    let mut edf = RealTimeScheduler::new();
    assert!(edf.is_empty());
    assert_eq!(edf.pick_next(), None);
}

#[test]
fn lottery_bias_matches_tickets_ratio() {
    let mut lot = LotteryScheduler::new();

    let t1 = make_thread(1, 1, usize::MAX, SchedulerType::Lottery);
    let t2 = make_thread(2, 9, usize::MAX, SchedulerType::Lottery);

    let trials = 20_000;
    let mut c1 = 0usize;
    let mut c2 = 0usize;

    for _ in 0..trials {
        lot.enqueue(1, &t1);
        lot.enqueue(2, &t2);
        let draw = lot.pick_next().unwrap();
        let _ = lot.pick_next();

        match draw {
            1 => c1 += 1,
            2 => c2 += 1,
            _ => unreachable!(),
        }
    }

    let p1 = c1 as f64 / trials as f64;
    let p2 = c2 as f64 / trials as f64;

    assert!(p1 > 0.07 && p1 < 0.13, "p1={p1}, counts=({c1},{c2})");
    assert!(p2 > 0.87 && p2 < 0.93, "p2={p2}, counts=({c1},{c2})");
}

#[test]
fn lottery_min_one_ticket_even_if_zero() {
    let mut lot = LotteryScheduler::new();

    let t1 = make_thread(1, 0, usize::MAX, SchedulerType::Lottery);
    let t2 = make_thread(2, 0, usize::MAX, SchedulerType::Lottery);

    let trials = 6_000;
    let mut c1 = 0usize;
    let mut c2 = 0usize;

    for _ in 0..trials {
        lot.enqueue(1, &t1);
        lot.enqueue(2, &t2);
        let draw = lot.pick_next().unwrap();
        let _ = lot.pick_next();
        match draw {
            1 => c1 += 1,
            2 => c2 += 1,
            _ => unreachable!(),
        }
    }

    let p1 = c1 as f64 / trials as f64;
    assert!(p1 > 0.45 && p1 < 0.55, "p1={p1}, c1={c1}, c2={c2}");
}

#[test]
fn lottery_empty_returns_none() {
    let mut lot = LotteryScheduler::new();
    assert!(lot.is_empty());
    assert_eq!(lot.pick_next(), None);
}

#[test]
fn lottery_with_seed_is_reproducible() {
    let mut a = LotteryScheduler::with_seed(7);
    let mut b = LotteryScheduler::with_seed(7);
    let t1 = make_thread(1, 3, usize::MAX, SchedulerType::Lottery);
    let t2 = make_thread(2, 5, usize::MAX, SchedulerType::Lottery);
    for _ in 0..100 {
        a.enqueue(1, &t1);
        a.enqueue(2, &t2);
        b.enqueue(1, &t1);
        b.enqueue(2, &t2);
        assert_eq!(a.pick_next(), b.pick_next());
        assert_eq!(a.pick_next(), b.pick_next());
    }
}
