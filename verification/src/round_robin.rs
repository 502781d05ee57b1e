//! Round-robin policy: a strict FIFO queue of ready identifiers.

use vstd::prelude::*;
use std::collections::VecDeque;
use crate::mythread::{MyThread, ThreadId};

verus! {

/// FIFO ready queue; no thread attribute is consulted.
pub struct RRScheduler {
    pub q: VecDeque<ThreadId>,
}

impl RRScheduler {
    pub fn new() -> (r: Self)
        ensures
            r.q@ == Seq::<ThreadId>::empty(),
    {
        RRScheduler { q: VecDeque::new() }
    }

    /// Admits a ready thread at the tail of the queue.
    pub fn enqueue(&mut self, tid: ThreadId, _t: &MyThread)
        ensures
            final(self).q@ == old(self).q@.push(tid),
    {
        self.q.push_back(tid);
    }

    /// Removes and returns the head of the queue, arrival order.
    pub fn pick_next(&mut self) -> (r: Option<ThreadId>)
        ensures
            old(self).q@.len() == 0 ==> r is None && final(self).q@ == old(self).q@,
            old(self).q@.len() > 0 ==> {
                &&& r == Some(old(self).q@[0])
                &&& final(self).q@ == old(self).q@.drop_first()
            },
    {
        self.q.pop_front()
    }

    pub fn on_block(&mut self, _tid: ThreadId)
        ensures
            *final(self) == *old(self),
    {
    }

    pub fn on_exit(&mut self, _tid: ThreadId)
        ensures
            *final(self) == *old(self),
    {
    }

    pub fn is_empty(&self) -> (r: bool)
        ensures
            r == (self.q@.len() == 0),
    {
        self.q.len() == 0
    }
}

/// The order a FIFO queue hands back: the head first, then whatever the
/// remainder hands back.
pub open spec fn fifo_drain(s: Seq<ThreadId>) -> Seq<ThreadId>
    decreases s.len(),
{
    if s.len() == 0 {
        Seq::empty()
    } else {
        seq![s[0]] + fifo_drain(s.drop_first())
    }
}

/// Round-robin FIFO: for any sequence of enqueues followed by as many
/// `pick_next` calls with no interleaving, the output order equals the
/// enqueue order exactly. `pick_next` always returns the head and keeps
/// the rest, so draining a queue holding `s` yields exactly `s`.
pub proof fn lemma_round_robin_fifo(s: Seq<ThreadId>)
    ensures
        fifo_drain(s) == s,
    decreases s.len(),
{
    if s.len() == 0 {
        assert(fifo_drain(s) =~= s);
    } else {
        lemma_round_robin_fifo(s.drop_first());
        assert(fifo_drain(s) =~= s);
    }
}

} // verus!
