//! Lottery policy: each ready thread holds `max(1, priority)` tickets
//! and a deterministic, seedable splitmix-style generator draws the
//! winner; a drawn entry leaves the pool until it is re-admitted.

use vstd::prelude::*;
use crate::mythread::{MyThread, ThreadId};
use crate::mythreadattr::PriorityLevel;

verus! {

/// Generator state after one step.
pub open spec fn splitmix_advance(state: u64) -> u64 {
    state.wrapping_add(0x9E37_79B9_7F4A_7C15)
}

/// The value the generator emits for a given (already advanced) state.
pub open spec fn splitmix_output(z: u64) -> u64 {
    let z1 = (z ^ (z >> 30u64)).wrapping_mul(0xBF58_476D_1CE4_E5B9);
    let z2 = (z1 ^ (z1 >> 27u64)).wrapping_mul(0x94D0_49BB_1331_11EB);
    z2 ^ (z2 >> 31u64)
}

/// Tickets granted by a priority: at least one, even for priority zero.
pub open spec fn effective_tickets(p: PriorityLevel) -> u32 {
    if p == 0 {
        1u32
    } else {
        p as u32
    }
}

/// Total ticket weight of a pool of `(identifier, tickets)` entries.
pub open spec fn total_tickets(s: Seq<(ThreadId, u32)>) -> int
    decreases s.len(),
{
    if s.len() == 0 {
        0
    } else {
        s[0].1 + total_tickets(s.drop_first())
    }
}

/// Tickets held by the entries before index `i`.
pub open spec fn cumulative_tickets(s: Seq<(ThreadId, u32)>, i: int) -> int {
    total_tickets(s.take(i))
}

/// The entry whose cumulative ticket interval contains the drawn value:
/// the walk subtracts each entry's tickets from the draw until it falls
/// inside one.
pub open spec fn winner_idx(s: Seq<(ThreadId, u32)>, r: int) -> int
    decreases s.len(),
{
    if s.len() == 0 {
        0
    } else if r < s[0].1 {
        0
    } else {
        1 + winner_idx(s.drop_first(), r - s[0].1)
    }
}

/// The value drawn from a pool at a given generator state.
pub open spec fn lottery_draw(s: Seq<(ThreadId, u32)>, state: u64) -> int {
    splitmix_output(splitmix_advance(state)) as int % total_tickets(s)
}

/// Which entry a `pick_next` at a given generator state removes.
pub open spec fn lottery_winner(s: Seq<(ThreadId, u32)>, state: u64) -> int {
    winner_idx(s, lottery_draw(s, state))
}

/// Ready pool of `(identifier, tickets)` pairs plus the generator state.
pub struct LotteryScheduler {
    pub entries: Vec<(ThreadId, u32)>,
    pub rng_state: u64,
}

impl LotteryScheduler {
    /// Every pooled entry holds at least one ticket.
    pub open spec fn wf(&self) -> bool {
        forall|i: int| 0 <= i < self.entries@.len() ==> (#[trigger] self.entries@[i]).1 >= 1
    }

    pub fn new() -> (r: Self)
        ensures
            r.entries@ == Seq::<(ThreadId, u32)>::empty(),
            r.rng_state == 0x9E37_79B9_7F4A_7C15u64,
            r.wf(),
    {
        LotteryScheduler { entries: Vec::new(), rng_state: 0x9E37_79B9_7F4A_7C15 }
    }

    /// A scheduler whose draws are reproducible from the given seed.
    pub fn with_seed(seed: u64) -> (r: Self)
        ensures
            r.entries@ == Seq::<(ThreadId, u32)>::empty(),
            r.rng_state == seed,
            r.wf(),
    {
        LotteryScheduler { entries: Vec::new(), rng_state: seed }
    }

    /// Advances the generator and returns its output.
    fn next_u64(&mut self) -> (r: u64)
        ensures
            final(self).rng_state == splitmix_advance(old(self).rng_state),
            r == splitmix_output(final(self).rng_state),
            final(self).entries == old(self).entries,
    {
        let z = self.rng_state.wrapping_add(0x9E37_79B9_7F4A_7C15u64);
        self.rng_state = z;
        let z1 = (z ^ (z >> 30u64)).wrapping_mul(0xBF58_476D_1CE4_E5B9u64);
        let z2 = (z1 ^ (z1 >> 27u64)).wrapping_mul(0x94D0_49BB_1331_11EBu64);
        z2 ^ (z2 >> 31u64)
    }

    /// Admits a ready thread with tickets read from its priority,
    /// clamped to a minimum of one.
    pub fn enqueue(&mut self, tid: ThreadId, t: &MyThread)
        requires
            old(self).wf(),
        ensures
            final(self).wf(),
            final(self).entries@ == old(self).entries@.push(
                (tid, effective_tickets(t.attr.priority)),
            ),
            final(self).rng_state == old(self).rng_state,
    {
        let p = t.attr.priority as u32;
        let tickets: u32 = if p < 1 {
            1
        } else {
            p
        };
        self.entries.push((tid, tickets));
    }

    /// Draws a winner: the entry whose cumulative ticket interval
    /// contains the draw leaves the pool and is returned.
    pub fn pick_next(&mut self) -> (r: Option<ThreadId>)
        requires
            old(self).wf(),
        ensures
            final(self).wf(),
            old(self).entries@.len() == 0 ==> r is None && *final(self) == *old(self),
            old(self).entries@.len() > 0 ==> {
                let s = old(self).entries@;
                let w = lottery_winner(s, old(self).rng_state);
                &&& r == Some(s[w].0)
                &&& final(self).rng_state == splitmix_advance(old(self).rng_state)
                &&& final(self).entries@ == s.update(w, s.last()).drop_last()
            },
    {
        if self.entries.len() == 0 {
            return None;
        }
        proof {
            lemma_total_at_least_len(self.entries@);
        }
        let total = sum_tickets(&self.entries);
        if total == 0 {
            return None;
        }
        let ghost s = self.entries@;
        let out = self.next_u64();
        let r = (out as u128) % total;
        let idx = find_winner(&self.entries, r);
        proof {
            assert(r as int == lottery_draw(s, old(self).rng_state));
            assert(idx as int == lottery_winner(s, old(self).rng_state));
        }
        let entry = self.entries.swap_remove(idx);
        proof {
            assert forall|i: int| 0 <= i < self.entries@.len() implies (#[trigger] self
                .entries@[i]).1 >= 1 by {
                assert(self.entries@[i] == s.update(idx as int, s.last()).drop_last()[i]);
            }
        }
        Some(entry.0)
    }

    pub fn on_block(&mut self, _tid: ThreadId)
        ensures
            *final(self) == *old(self),
    {
    }

    pub fn on_exit(&mut self, _tid: ThreadId)
        ensures
            *final(self) == *old(self),
    {
    }

    pub fn is_empty(&self) -> (r: bool)
        ensures
            r == (self.entries@.len() == 0),
    {
        self.entries.len() == 0
    }
}

/// Adds up the pool's tickets; a `u128` accumulator cannot overflow.
fn sum_tickets(entries: &Vec<(ThreadId, u32)>) -> (total: u128)
    ensures
        total == total_tickets(entries@),
{
    let n = entries.len();
    let mut acc: u128 = 0;
    let mut i: usize = 0;
    while i < n
        invariant
            n == entries@.len(),
            i <= n,
            acc == total_tickets(entries@.take(i as int)),
            acc <= i * 0x1_0000_0000,
        decreases n - i,
    {
        let tk = entries[i].1;
        proof {
            lemma_total_take_step(entries@, i as int);
            assert(acc + tk <= (i + 1) * 0x1_0000_0000) by (nonlinear_arith)
                requires
                    acc <= i * 0x1_0000_0000,
                    tk <= 0x1_0000_0000,
            ;
            assert((i + 1) * 0x1_0000_0000 <= 0x1_0000_0000_0000_0000 * 0x1_0000_0000)
                by (nonlinear_arith)
                requires
                    i + 1 <= 0x1_0000_0000_0000_0000,
            ;
        }
        acc = acc + (tk as u128);
        i = i + 1;
    }
    proof {
        assert(entries@.take(n as int) =~= entries@);
    }
    acc
}

/// Walks the cumulative ticket prefix to the entry owning draw `r`.
fn find_winner(entries: &Vec<(ThreadId, u32)>, r: u128) -> (idx: usize)
    requires
        entries@.len() > 0,
        r < total_tickets(entries@),
    ensures
        idx < entries@.len(),
        idx == winner_idx(entries@, r as int),
{
    let n = entries.len();
    let mut acc: u128 = 0;
    let mut i: usize = 0;
    while i < n
        invariant
            n == entries@.len(),
            i <= n,
            acc == total_tickets(entries@.take(i as int)),
            r < total_tickets(entries@),
            acc <= r,
        decreases n - i,
    {
        let tk = entries[i].1;
        proof {
            lemma_total_take_step(entries@, i as int);
            lemma_total_take_bound(entries@, i as int);
            lemma_total_upper(entries@);
        }
        if r < acc + (tk as u128) {
            proof {
                lemma_winner_interval(entries@, r as int, i as int);
            }
            return i;
        }
        acc = acc + (tk as u128);
        i = i + 1;
    }
    proof {
        assert(entries@.take(n as int) =~= entries@);
        assert(false);
    }
    0
}

/// `total_tickets` of a one-longer prefix grows by the next entry.
proof fn lemma_total_take_step(s: Seq<(ThreadId, u32)>, i: int)
    requires
        0 <= i < s.len(),
    ensures
        total_tickets(s.take(i + 1)) == total_tickets(s.take(i)) + s[i].1,
    decreases i,
{
    if i == 0 {
        assert(s.take(1).drop_first() =~= s.take(0));
        assert(total_tickets(s.take(1)) == s[0].1 + total_tickets(s.take(0)));
    } else {
        let t = s.drop_first();
        lemma_total_take_step(t, i - 1);
        assert(s.take(i + 1).drop_first() =~= t.take(i));
        assert(s.take(i).drop_first() =~= t.take(i - 1));
        assert(total_tickets(s.take(i + 1)) == s[0].1 + total_tickets(t.take(i)));
        assert(total_tickets(s.take(i)) == s[0].1 + total_tickets(t.take(i - 1)));
        assert(t[i - 1] == s[i]);
    }
}

/// No pool holds more than `len * 2^32` tickets.
proof fn lemma_total_upper(s: Seq<(ThreadId, u32)>)
    ensures
        total_tickets(s) <= s.len() * 0x1_0000_0000,
    decreases s.len(),
{
    if s.len() > 0 {
        lemma_total_upper(s.drop_first());
        assert(s.len() * 0x1_0000_0000 == (s.len() - 1) * 0x1_0000_0000 + 0x1_0000_0000)
            by (nonlinear_arith);
    }
}

/// A prefix never holds more tickets than the whole pool.
proof fn lemma_total_take_bound(s: Seq<(ThreadId, u32)>, i: int)
    requires
        0 <= i <= s.len(),
    ensures
        total_tickets(s.take(i)) <= total_tickets(s),
    decreases s.len() - i,
{
    if i < s.len() {
        lemma_total_take_step(s, i);
        lemma_total_take_bound(s, i + 1);
    } else {
        assert(s.take(i) =~= s);
    }
}

/// A pool whose entries all hold at least one ticket has at least as
/// many tickets as entries.
pub proof fn lemma_total_at_least_len(s: Seq<(ThreadId, u32)>)
    requires
        forall|i: int| 0 <= i < s.len() ==> (#[trigger] s[i]).1 >= 1,
    ensures
        total_tickets(s) >= s.len(),
    decreases s.len(),
{
    if s.len() > 0 {
        let t = s.drop_first();
        assert forall|i: int| 0 <= i < t.len() implies (#[trigger] t[i]).1 >= 1 by {
            assert(t[i] == s[i + 1]);
        }
        lemma_total_at_least_len(t);
    }
}

/// A draw inside entry `i`'s cumulative ticket interval selects `i`.
proof fn lemma_winner_interval(s: Seq<(ThreadId, u32)>, r: int, i: int)
    requires
        0 <= i < s.len(),
        cumulative_tickets(s, i) <= r < cumulative_tickets(s, i) + s[i].1,
        r >= 0,
    ensures
        winner_idx(s, r) == i,
    decreases i,
{
    if i == 0 {
        assert(s.take(0) =~= Seq::<(ThreadId, u32)>::empty());
    } else {
        let t = s.drop_first();
        lemma_total_take_step(s, 0);
        assert(s.take(0) =~= Seq::<(ThreadId, u32)>::empty());
        assert(s.take(1).drop_first() =~= Seq::<(ThreadId, u32)>::empty());
        lemma_cumulative_monotone(s, 1, i);
        assert(r >= s[0].1);
        assert(t.take(i - 1) =~= s.take(i).drop_first());
        assert(cumulative_tickets(t, i - 1) == cumulative_tickets(s, i) - s[0].1);
        assert(t[i - 1] == s[i]);
        lemma_winner_interval(t, r - s[0].1, i - 1);
    }
}

/// Cumulative tickets grow along the pool.
proof fn lemma_cumulative_monotone(s: Seq<(ThreadId, u32)>, i: int, j: int)
    requires
        0 <= i <= j <= s.len(),
    ensures
        cumulative_tickets(s, i) <= cumulative_tickets(s, j),
    decreases j - i,
{
    if i < j {
        lemma_total_take_step(s, i);
        lemma_cumulative_monotone(s, i + 1, j);
    }
}

/// Every draw in range lands on some entry, inside its interval.
pub proof fn lemma_winner_props(s: Seq<(ThreadId, u32)>, r: int)
    requires
        0 <= r < total_tickets(s),
    ensures
        0 <= winner_idx(s, r) < s.len(),
        cumulative_tickets(s, winner_idx(s, r)) <= r < cumulative_tickets(s, winner_idx(s, r))
            + s[winner_idx(s, r)].1,
    decreases s.len(),
{
    if s.len() == 0 {
        assert(false);
    } else if r < s[0].1 {
        assert(s.take(0) =~= Seq::<(ThreadId, u32)>::empty());
    } else {
        let t = s.drop_first();
        lemma_winner_props(t, r - s[0].1);
        let w = winner_idx(s, r);
        let wt = winner_idx(t, r - s[0].1);
        assert(w == 1 + wt);
        assert(t.take(wt) =~= s.take(w).drop_first());
        assert(cumulative_tickets(s, w) == s[0].1 + cumulative_tickets(t, wt));
        assert(t[wt] == s[w]);
    }
}

/// Lottery ticket share: among the `total_tickets` equally likely draw
/// values, entry `i` is selected for exactly those in its own ticket
/// interval — its selection chance is its ticket weight divided by the
/// total weight at draw time.
pub proof fn lemma_lottery_ticket_share(s: Seq<(ThreadId, u32)>, i: int)
    requires
        0 <= i < s.len(),
    ensures
        forall|r: int|
            0 <= r < total_tickets(s) ==> (winner_idx(s, r) == i <==> cumulative_tickets(s, i) <= r
                < cumulative_tickets(s, i) + s[i].1),
{
    assert forall|r: int| 0 <= r < total_tickets(s) implies (winner_idx(s, r) == i
        <==> cumulative_tickets(s, i) <= r < cumulative_tickets(s, i) + s[i].1) by {
        lemma_winner_props(s, r);
        if cumulative_tickets(s, i) <= r < cumulative_tickets(s, i) + s[i].1 {
            lemma_winner_interval(s, r, i);
        }
    }
}

} // verus!
