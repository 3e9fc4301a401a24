//! The cooperative timer scheduler model: armed timers are independent
//! pending tasks; the earliest-due task is handed out first, and handing it
//! out advances the clock to its due time. Exactly one task runs at a time,
//! so concurrency is interleaving, never parallelism.

use vstd::prelude::*;

use crate::base::{WIPICErrorKind, WIPICWord};

verus! {

/// One armed timer: due time on the scheduler clock, the guest callback
/// address to re-enter, and the parameter word to pass it.
#[derive(Clone, Copy, PartialEq, Eq, Structural, Debug)]
pub struct PendingTimer {
    /// Clock value at or after which the timer fires.
    pub fire_at: u64,
    /// Guest code address of the stored callback.
    pub callback: WIPICWord,
    /// The single argument word handed to the callback.
    pub param: WIPICWord,
}

/// The scheduler: a clock and the armed, not yet fired, timer tasks.
pub struct Scheduler {
    /// The current time on the backend clock.
    pub now: u64,
    /// All armed timers, in arming order.
    pub pending: Vec<PendingTimer>,
}

/// Index of the earliest-due pending timer; among equals, the one armed
/// first.
pub open spec fn earliest_index(s: Seq<PendingTimer>) -> int
    decreases s.len(),
{
    if s.len() <= 1 {
        0
    } else {
        let m = earliest_index(s.drop_last());
        if s.last().fire_at < s[m].fire_at {
            s.len() - 1
        } else {
            m
        }
    }
}

/// The earliest index is in range and no pending timer is due before the one
/// it denotes.
pub proof fn lemma_earliest_index_bounds(s: Seq<PendingTimer>)
    requires
        s.len() > 0,
    ensures
        0 <= earliest_index(s) < s.len(),
        forall|i: int| 0 <= i < s.len() ==> s[earliest_index(s)].fire_at <= #[trigger] s[i].fire_at,
    decreases s.len(),
{
    if s.len() > 1 {
        let prefix = s.drop_last();
        lemma_earliest_index_bounds(prefix);
        let m = earliest_index(s);
        assert forall|i: int| 0 <= i < s.len() implies s[m].fire_at <= #[trigger] s[i].fire_at by {
            if i < s.len() - 1 {
                assert(s[i] == prefix[i]);
                assert(prefix[earliest_index(prefix)].fire_at <= prefix[i].fire_at);
            }
        }
    }
}

/// The earliest index is exactly the first position holding the minimal due
/// time.
pub proof fn lemma_earliest_index_first_min(s: Seq<PendingTimer>, m: int)
    requires
        0 <= m < s.len(),
        forall|i: int| 0 <= i < s.len() ==> s[m].fire_at <= #[trigger] s[i].fire_at,
        forall|i: int| 0 <= i < m ==> s[m].fire_at < #[trigger] s[i].fire_at,
    ensures
        earliest_index(s) == m,
    decreases s.len(),
{
    if s.len() > 1 {
        let prefix = s.drop_last();
        if m == s.len() - 1 {
            lemma_earliest_index_bounds(prefix);
        } else {
            lemma_earliest_index_first_min(prefix, m);
        }
    }
}

impl Scheduler {
    /// Creates a scheduler with no armed timer, at the given clock value.
    pub fn with_start_time(now: u64) -> (r: Scheduler)
        ensures
            r.now == now,
            r.pending@.len() == 0,
    {
        Scheduler { now, pending: Vec::new() }
    }

    /// Arms exactly one independent timer task, due `delay` after the
    /// current clock value, carrying the stored callback and parameter.
    /// Fails only where the due time would overflow the 64-bit clock.
    pub fn spawn_timer(&mut self, delay: u64, callback: WIPICWord, param: WIPICWord) -> (r:
        Result<(), WIPICErrorKind>)
        ensures
            final(self).now == old(self).now,
            r is Ok <==> old(self).now + delay <= u64::MAX,
            match r {
                Ok(()) => final(self).pending@ == old(self).pending@.push(
                    PendingTimer { fire_at: (old(self).now + delay) as u64, callback, param },
                ),
                Err(k) => {
                    &&& k == WIPICErrorKind::ClockOverflow
                    &&& final(self).pending@ == old(self).pending@
                },
            },
    {
        if delay <= u64::MAX - self.now {
            self.pending.push(PendingTimer { fire_at: self.now + delay, callback, param });
            Ok(())
        } else {
            Err(WIPICErrorKind::ClockOverflow)
        }
    }

    /// Hands out the earliest-due armed timer, removes it, and advances the
    /// clock to its due time, so the timer fires exactly once and never
    /// before it is due; returns nothing when no timer is armed. Among
    /// timers due at the same instant, the one armed first fires first.
    pub fn pop_due(&mut self) -> (r: Option<PendingTimer>)
        ensures
            old(self).pending@.len() == 0 ==> r is None && *final(self) == *old(self),
            old(self).pending@.len() > 0 ==> {
                let m = earliest_index(old(self).pending@);
                let fired = old(self).pending@[m];
                &&& r == Some(fired)
                &&& final(self).pending@ == old(self).pending@.remove(m)
                &&& final(self).now == if fired.fire_at > old(self).now {
                    fired.fire_at
                } else {
                    old(self).now
                }
                &&& final(self).now >= fired.fire_at
            },
    {
        if self.pending.len() == 0 {
            return None;
        }
        let mut best: usize = 0;
        let mut i: usize = 1;
        while i < self.pending.len()
            invariant
                self.pending@.len() > 0,
                0 <= best < i <= self.pending@.len(),
                forall|j: int|
                    0 <= j < i ==> self.pending@[best as int].fire_at <= #[trigger] self
                        .pending@[j].fire_at,
                forall|j: int|
                    0 <= j < best ==> self.pending@[best as int].fire_at < #[trigger] self
                        .pending@[j].fire_at,
            decreases self.pending@.len() - i,
        {
            if self.pending[i].fire_at < self.pending[best].fire_at {
                best = i;
            }
            i = i + 1;
        }
        proof {
            lemma_earliest_index_first_min(self.pending@, best as int);
        }
        let fired = self.pending.remove(best);
        if fired.fire_at > self.now {
            self.now = fired.fire_at;
        }
        Some(fired)
    }
}

/// No armed timer is due before the one the scheduler hands out first.
pub proof fn lemma_earliest_fires_first(s: Seq<PendingTimer>, i: int)
    requires
        0 <= i < s.len(),
    ensures
        s[earliest_index(s)].fire_at <= s[i].fire_at,
{
    lemma_earliest_index_bounds(s);
}

/// A timer armed alone is handed out exactly once: it is the earliest-due
/// task, and handing it out leaves no armed task behind, so a second poll
/// returns nothing.
pub proof fn lemma_single_timer_fires_once(t: PendingTimer)
    ensures
        seq![t][earliest_index(seq![t])] == t,
        seq![t].remove(earliest_index(seq![t])) == Seq::<PendingTimer>::empty(),
{
    assert(earliest_index(seq![t]) == 0);
    assert(seq![t].remove(0) =~= Seq::<PendingTimer>::empty());
}

/// Two timers armed at the same instant with delays `d1 < d2` have due
/// times in that same order, so whichever of the two was armed first, the
/// scheduler hands out the shorter-delay timer first and the other one
/// second.
pub proof fn lemma_two_timers_fire_in_delay_order(a: PendingTimer, b: PendingTimer)
    requires
        a.fire_at < b.fire_at,
    ensures
        seq![a, b][earliest_index(seq![a, b])] == a,
        seq![a, b].remove(earliest_index(seq![a, b])) == seq![b],
        seq![b, a][earliest_index(seq![b, a])] == a,
        seq![b, a].remove(earliest_index(seq![b, a])) == seq![b],
        seq![b][earliest_index(seq![b])] == b,
{
    let ab = seq![a, b];
    let ba = seq![b, a];
    assert(ab.drop_last() =~= seq![a]);
    assert(ba.drop_last() =~= seq![b]);
    assert(earliest_index(seq![a]) == 0);
    assert(earliest_index(seq![b]) == 0);
    assert(earliest_index(ab) == 0);
    assert(earliest_index(ba) == 1);
    assert(ab.remove(0) =~= seq![b]);
    assert(ba.remove(1) =~= seq![b]);
}

} // verus!
