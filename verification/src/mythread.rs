//! The thread record: one passive entry per spawned unit of work.

use vstd::prelude::*;
use crate::mythreadattr::MyThreadAttr;
use crate::scheduler_type::SchedulerType;
use crate::thread_state::ThreadState;

verus! {

/// Opaque, monotonically increasing thread handle.
pub type ThreadId = u64;

/// The unit of work a thread performs, as an owned, typed payload.
/// Each routine maps its integer argument to an integer result;
/// additive routines saturate at the ends of the `i64` range.
#[derive(Debug, Clone, Copy, PartialEq, Eq, Structural)]
pub enum Routine {
    /// Returns the argument unchanged.
    Identity,
    /// Ignores the argument and returns the stored constant.
    Const(i64),
    /// Adds the stored constant to the argument, saturating.
    AddConst(i64),
}

/// What a routine returns for a given argument.
pub open spec fn routine_eval(r: Routine, arg: i64) -> i64 {
    match r {
        Routine::Identity => arg,
        Routine::Const(k) => k,
        Routine::AddConst(k) => {
            if arg + k > i64::MAX {
                i64::MAX
            } else if arg + k < i64::MIN {
                i64::MIN
            } else {
                (arg + k) as i64
            }
        },
    }
}

/// Runs a routine on its argument.
pub fn apply_routine(r: Routine, arg: i64) -> (ret: i64)
    ensures
        ret == routine_eval(r, arg),
{
    match r {
        Routine::Identity => arg,
        Routine::Const(k) => k,
        Routine::AddConst(k) => {
            let wide: i128 = arg as i128 + k as i128;
            if wide > i64::MAX as i128 {
                i64::MAX
            } else if wide < i64::MIN as i128 {
                i64::MIN
            } else {
                wide as i64
            }
        },
    }
}

/// One table entry per spawned unit of work. Records are owned
/// exclusively by the runtime's thread table and referenced elsewhere
/// only by identifier.
#[derive(Debug, Clone, Copy, PartialEq, Eq, Structural)]
pub struct MyThread {
    pub id: ThreadId,
    pub state: ThreadState,
    pub attr: MyThreadAttr,
    pub start_routine: Routine,
    pub arg: i64,
    pub ret_val: Option<i64>,
    pub scheduler: SchedulerType,
}

impl MyThread {
    /// Builds a record in the `New` state with an empty return slot.
    pub fn new(
        id: ThreadId,
        attr: MyThreadAttr,
        routine: Routine,
        arg: i64,
        scheduler: Option<SchedulerType>,
    ) -> (r: Self)
        ensures
            r.id == id,
            r.state == ThreadState::New,
            r.attr == attr,
            r.start_routine == routine,
            r.arg == arg,
            r.ret_val is None,
            r.scheduler == if let Some(s) = scheduler { s } else { SchedulerType::RoundRobin },
    {
        let sched: SchedulerType = match scheduler {
            Some(s) => s,
            None => SchedulerType::default(),
        };
        MyThread {
            id,
            state: ThreadState::New,
            attr,
            start_routine: routine,
            arg,
            ret_val: None,
            scheduler: sched,
        }
    }

    /// Executes the routine to completion, storing the result and
    /// marking the record terminated. Already-terminated records are
    /// left untouched.
    pub fn run(&mut self)
        ensures
            old(self).state == ThreadState::Terminated ==> *final(self) == *old(self),
            old(self).state != ThreadState::Terminated ==> *final(self) == (MyThread {
                state: ThreadState::Terminated,
                ret_val: Some(routine_eval(old(self).start_routine, old(self).arg)),
                ..*old(self)
            }),
    {
        if self.state == ThreadState::Terminated {
            return;
        }
        let result = apply_routine(self.start_routine, self.arg);
        self.ret_val = Some(result);
        self.state = ThreadState::Terminated;
    }

    pub fn id(&self) -> (r: ThreadId)
        ensures
            r == self.id,
    {
        self.id
    }
}

} // verus!
