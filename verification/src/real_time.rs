//! Real-time policy: earliest deadline first, with ties between equal
//! deadlines broken in favour of the smaller thread identifier.

use vstd::prelude::*;
use crate::mythread::{MyThread, ThreadId};

verus! {

/// Ordering on `(deadline, identifier)` pairs: earlier deadline wins,
/// and on equal deadlines the smaller identifier wins.
pub open spec fn dl_le(a: (usize, ThreadId), b: (usize, ThreadId)) -> bool {
    a.0 < b.0 || (a.0 == b.0 && a.1 <= b.1)
}

pub open spec fn dl_sorted(s: Seq<(usize, ThreadId)>) -> bool {
    forall|i: int, j: int| 0 <= i < j < s.len() ==> dl_le(s[i], s[j])
}

/// Where a pair belongs in a sorted sequence: after every entry that
/// does not come strictly later than it.
pub open spec fn insert_pos(s: Seq<(usize, ThreadId)>, p: (usize, ThreadId)) -> int
    decreases s.len(),
{
    if s.len() == 0 {
        0
    } else if dl_le(s[0], p) {
        1 + insert_pos(s.drop_first(), p)
    } else {
        0
    }
}

/// Ready queue ordered by `(deadline, identifier)`; the head is always
/// the next unit to run.
pub struct RealTimeScheduler {
    pub q: Vec<(usize, ThreadId)>,
}

impl RealTimeScheduler {
    pub open spec fn wf(&self) -> bool {
        dl_sorted(self.q@)
    }

    pub fn new() -> (r: Self)
        ensures
            r.q@ == Seq::<(usize, ThreadId)>::empty(),
            r.wf(),
    {
        RealTimeScheduler { q: Vec::new() }
    }

    /// Admits a ready thread keyed by the deadline read from its
    /// attributes, keeping the queue sorted.
    pub fn enqueue(&mut self, tid: ThreadId, t: &MyThread)
        requires
            old(self).wf(),
        ensures
            final(self).wf(),
            final(self).q@ == old(self).q@.insert(
                insert_pos(old(self).q@, (t.attr.dead_line, tid)),
                (t.attr.dead_line, tid),
            ),
    {
        let p: (usize, ThreadId) = (t.attr.dead_line, tid);
        let k = find_insert_pos(&self.q, p);
        let ghost olds = self.q@;
        self.q.insert(k, p);
        proof {
            let news = self.q@;
            assert(news == olds.insert(k as int, p));
            olds.insert_ensures(k as int, p);
            lemma_insert_pos_props(olds, p);
            assert forall|i: int, j: int| 0 <= i < j < news.len() implies dl_le(
                news[i],
                news[j],
            ) by {
                if i < k {
                    assert(news[i] == olds[i]);
                } else if i == k {
                    assert(news[i] == p);
                } else {
                    assert(olds.insert(k as int, p)[(i - 1) + 1] == olds[i - 1]);
                    assert(news[i] == olds[i - 1]);
                }
                if j < k {
                    assert(news[j] == olds[j]);
                } else if j == k {
                    assert(news[j] == p);
                } else {
                    assert(olds.insert(k as int, p)[(j - 1) + 1] == olds[j - 1]);
                    assert(news[j] == olds[j - 1]);
                }
            }
        }
    }

    /// Removes and returns the identifier with the least
    /// `(deadline, identifier)` key, or nothing when empty.
    pub fn pick_next(&mut self) -> (r: Option<ThreadId>)
        requires
            old(self).wf(),
        ensures
            final(self).wf(),
            old(self).q@.len() == 0 ==> r is None && final(self).q@ == old(self).q@,
            old(self).q@.len() > 0 ==> {
                &&& r == Some(old(self).q@[0].1)
                &&& final(self).q@ == old(self).q@.drop_first()
                &&& forall|i: int|
                    0 <= i < old(self).q@.len() ==> dl_le(old(self).q@[0], old(self).q@[i])
            },
    {
        if self.q.len() == 0 {
            return None;
        }
        let head = self.q.remove(0);
        proof {
            assert(self.q@ =~= old(self).q@.drop_first());
        }
        Some(head.1)
    }

    pub fn on_block(&mut self, _tid: ThreadId)
        ensures
            *final(self) == *old(self),
    {
    }

    pub fn on_exit(&mut self, _tid: ThreadId)
        ensures
            *final(self) == *old(self),
    {
    }

    pub fn is_empty(&self) -> (r: bool)
        ensures
            r == (self.q@.len() == 0),
    {
        self.q.len() == 0
    }
}

/// Linear scan for the sorted insertion point of `p`.
fn find_insert_pos(q: &Vec<(usize, ThreadId)>, p: (usize, ThreadId)) -> (k: usize)
    requires
        dl_sorted(q@),
    ensures
        k == insert_pos(q@, p),
        k <= q@.len(),
{
    proof {
        lemma_insert_pos_le_len(q@, p);
    }
    let n = q.len();
    let mut k: usize = 0;
    while k < n
        invariant
            dl_sorted(q@),
            n == q@.len(),
            k <= n,
            forall|j: int| 0 <= j < k ==> dl_le(q@[j], p),
            insert_pos(q@, p) >= k,
        decreases n - k,
    {
        let e = q[k];
        if !(e.0 < p.0 || (e.0 == p.0 && e.1 <= p.1)) {
            proof {
                lemma_insert_pos_here(q@, p, k as int);
            }
            return k;
        }
        proof {
            lemma_insert_pos_past(q@, p, k as int);
        }
        k = k + 1;
    }
    proof {
        lemma_insert_pos_end(q@, p);
    }
    k
}

proof fn lemma_insert_pos_past(s: Seq<(usize, ThreadId)>, p: (usize, ThreadId), k: int)
    requires
        0 <= k < s.len(),
        forall|j: int| 0 <= j <= k ==> dl_le(s[j], p),
    ensures
        insert_pos(s, p) > k,
    decreases k,
{
    assert(dl_le(s[0], p));
    let t = s.drop_first();
    if k > 0 {
        assert forall|j: int| 0 <= j <= k - 1 implies dl_le(t[j], p) by {
            assert(t[j] == s[j + 1]);
        }
        lemma_insert_pos_past(t, p, k - 1);
    } else {
        lemma_insert_pos_le_len(t, p);
    }
}

proof fn lemma_insert_pos_here(s: Seq<(usize, ThreadId)>, p: (usize, ThreadId), k: int)
    requires
        0 <= k < s.len(),
        forall|j: int| 0 <= j < k ==> dl_le(s[j], p),
        !dl_le(s[k], p),
    ensures
        insert_pos(s, p) == k,
    decreases k,
{
    if k > 0 {
        assert(dl_le(s[0], p));
        let t = s.drop_first();
        assert forall|j: int| 0 <= j < k - 1 implies dl_le(t[j], p) by {
            assert(t[j] == s[j + 1]);
        }
        assert(t[k - 1] == s[k]);
        lemma_insert_pos_here(t, p, k - 1);
    }
}

proof fn lemma_insert_pos_end(s: Seq<(usize, ThreadId)>, p: (usize, ThreadId))
    requires
        forall|j: int| 0 <= j < s.len() ==> dl_le(s[j], p),
    ensures
        insert_pos(s, p) == s.len(),
    decreases s.len(),
{
    if s.len() > 0 {
        assert(dl_le(s[0], p));
        let t = s.drop_first();
        assert forall|j: int| 0 <= j < t.len() implies dl_le(t[j], p) by {
            assert(t[j] == s[j + 1]);
        }
        lemma_insert_pos_end(t, p);
    }
}

proof fn lemma_insert_pos_props(s: Seq<(usize, ThreadId)>, p: (usize, ThreadId))
    requires
        dl_sorted(s),
    ensures
        forall|j: int| 0 <= j < insert_pos(s, p) ==> dl_le(s[j], p),
        forall|j: int| insert_pos(s, p) <= j < s.len() ==> dl_le(p, s[j]),
    decreases s.len(),
{
    if s.len() > 0 {
        let t = s.drop_first();
        lemma_insert_pos_le_len(s, p);
        lemma_insert_pos_le_len(t, p);
        assert forall|i: int, j: int| 0 <= i < j < t.len() implies dl_le(t[i], t[j]) by {
            assert(t[i] == s[i + 1]);
            assert(t[j] == s[j + 1]);
        }
        lemma_insert_pos_props(t, p);
        if dl_le(s[0], p) {
            let ip = insert_pos(s, p);
            assert forall|j: int| 0 <= j < ip implies dl_le(s[j], p) by {
                if j > 0 {
                    assert(t[j - 1] == s[j]);
                }
            }
            assert forall|j: int| ip <= j < s.len() implies dl_le(p, s[j]) by {
                assert(t[j - 1] == s[j]);
            }
        } else {
            assert forall|j: int| 0 <= j < s.len() implies dl_le(p, s[j]) by {
                if j > 0 {
                    assert(dl_le(s[0], s[j]));
                }
            }
        }
    }
}

proof fn lemma_insert_pos_le_len(s: Seq<(usize, ThreadId)>, p: (usize, ThreadId))
    ensures
        0 <= insert_pos(s, p) <= s.len(),
    decreases s.len(),
{
    if s.len() > 0 {
        lemma_insert_pos_le_len(s.drop_first(), p);
    }
}

} // verus!
