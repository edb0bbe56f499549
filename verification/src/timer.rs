//! A countdown register driven by accumulated elapsed time against a fixed
//! tick period, with a one-shot "just completed" signal.

use vstd::prelude::*;

verus! {

/// Default tick period: one 60 Hz tick expressed in the time unit of the
/// clock that drives the emulation loop.
pub const DEFAULT_TICK_PERIOD: u32 = 16_000_000;

/// A countdown timer. `count` holds the remaining ticks; `accumulated` is the
/// elapsed time since the last tick boundary, in the same unit as `update`'s
/// input; `just_completed` is set exactly by the tick on which `count` goes
/// from 1 to 0; `tick_period` is fixed at construction.
#[derive(Clone, Copy, Debug, PartialEq, Eq, Structural)]
pub struct Timer {
    pub count: u8,
    pub accumulated: u32,
    pub just_completed: bool,
    pub tick_period: u32,
}

/// The state of a timer after one `update(delta)` call: the delta is added to
/// the accumulated time; if the total reaches the tick period, one period is
/// subtracted (once per call, even if several periods elapsed) and a counting
/// timer loses one tick, setting `just_completed` when it reaches zero, while
/// an idle timer clears `just_completed` instead.
pub open spec fn timer_after_update(t: Timer, delta: u32) -> Timer
    recommends
        t.accumulated + delta <= u32::MAX,
{
    let total = t.accumulated + delta;
    if total >= t.tick_period {
        let acc = (total - t.tick_period) as u32;
        if t.count > 0 {
            Timer {
                count: (t.count - 1) as u8,
                accumulated: acc,
                just_completed: if t.count == 1 {
                    true
                } else {
                    t.just_completed
                },
                tick_period: t.tick_period,
            }
        } else {
            Timer { count: 0, accumulated: acc, just_completed: false, tick_period: t.tick_period }
        }
    } else {
        Timer {
            count: t.count,
            accumulated: total as u32,
            just_completed: t.just_completed,
            tick_period: t.tick_period,
        }
    }
}

/// The given timer with its remaining-tick count replaced, as an external
/// count write leaves it: accumulated time, completion flag and tick period
/// are untouched.
pub open spec fn with_count(t: Timer, count: u8) -> Timer {
    Timer { count, ..t }
}

/// The total of a sequence of update deltas.
pub open spec fn sum_deltas(deltas: Seq<u32>) -> int
    decreases deltas.len(),
{
    if deltas.len() == 0 {
        0
    } else {
        sum_deltas(deltas.drop_last()) + deltas.last()
    }
}

/// The state of a timer after one `update` call per element of `deltas`, in
/// order.
pub open spec fn timer_after_updates(t: Timer, deltas: Seq<u32>) -> Timer
    decreases deltas.len(),
{
    if deltas.len() == 0 {
        t
    } else {
        timer_after_update(timer_after_updates(t, deltas.drop_last()), deltas.last())
    }
}

proof fn lemma_sum_take_step(deltas: Seq<u32>, i: int)
    requires
        0 < i <= deltas.len(),
    ensures
        sum_deltas(deltas.take(i)) == sum_deltas(deltas.take(i - 1)) + deltas[i - 1],
{
    assert(deltas.take(i).drop_last() =~= deltas.take(i - 1));
}

proof fn lemma_sum_remaining(deltas: Seq<u32>, i: int)
    requires
        0 <= i <= deltas.len(),
        forall|k: int| 0 <= k < deltas.len() ==> 1 <= #[trigger] deltas[k],
    ensures
        sum_deltas(deltas) - sum_deltas(deltas.take(i)) >= deltas.len() - i,
    decreases deltas.len() - i,
{
    if i == deltas.len() {
        assert(deltas.take(i) =~= deltas);
    } else {
        lemma_sum_remaining(deltas, i + 1);
        lemma_sum_take_step(deltas, i + 1);
    }
}

/// A timer in mid-countdown: less than one period accumulated, at least one
/// tick to go, completion flag clear, and the remaining update total exactly
/// enough for the remaining ticks.
spec fn counting_down(t: Timer, remaining: int) -> bool {
    &&& t.accumulated < t.tick_period
    &&& t.count >= 1
    &&& !t.just_completed
    &&& t.accumulated + remaining == t.count * t.tick_period
}

proof fn lemma_countdown_prefix(t: Timer, deltas: Seq<u32>, i: int)
    requires
        t.tick_period >= 1,
        t.count >= 1,
        t.accumulated == 0,
        !t.just_completed,
        forall|k: int| 0 <= k < deltas.len() ==> 1 <= #[trigger] deltas[k] <= t.tick_period,
        sum_deltas(deltas) == t.count * t.tick_period,
        0 <= i <= deltas.len(),
    ensures
        i < deltas.len() ==> counting_down(
            timer_after_updates(t, deltas.take(i)),
            sum_deltas(deltas) - sum_deltas(deltas.take(i)),
        ),
        i == deltas.len() ==> timer_after_updates(t, deltas.take(i)).count == 0
            && timer_after_updates(t, deltas.take(i)).just_completed
            && timer_after_updates(t, deltas.take(i)).accumulated == 0,
        timer_after_updates(t, deltas.take(i)).tick_period == t.tick_period,
    decreases i,
{
    if i == 0 {
        assert(deltas.take(0) =~= Seq::<u32>::empty());
        if deltas.len() == 0 {
            assert(t.count * t.tick_period >= t.tick_period) by (nonlinear_arith)
                requires
                    t.count >= 1,
                    t.tick_period >= 1,
            ;
            assert(false);
        }
    } else {
        lemma_countdown_prefix(t, deltas, i - 1);
        lemma_sum_take_step(deltas, i);
        let s = timer_after_updates(t, deltas.take(i - 1));
        let d = deltas[i - 1];
        assert(deltas.take(i).drop_last() =~= deltas.take(i - 1));
        assert(timer_after_updates(t, deltas.take(i)) == timer_after_update(s, d));
        let rem_prev = sum_deltas(deltas) - sum_deltas(deltas.take(i - 1));
        let rem = sum_deltas(deltas) - sum_deltas(deltas.take(i));
        assert(1 <= d <= t.tick_period);
        if s.accumulated + d >= s.tick_period {
            if s.count == 1 {
                lemma_sum_remaining(deltas, i);
                assert(s.count * s.tick_period == s.tick_period) by (nonlinear_arith)
                    requires
                        s.count == 1,
                ;
                assert(rem == 0);
                assert(i == deltas.len());
            } else {
                assert((s.count - 1) * s.tick_period == s.count * s.tick_period - s.tick_period)
                    by (nonlinear_arith);
                if i == deltas.len() {
                    assert(deltas.take(i) =~= deltas);
                    assert((s.count - 1) * s.tick_period >= s.tick_period) by (nonlinear_arith)
                        requires
                            s.count >= 2,
                            s.tick_period >= 1,
                    ;
                    assert(false);
                }
            }
        } else {
            if i == deltas.len() {
                assert(deltas.take(i) =~= deltas);
                assert(s.count * s.tick_period >= s.tick_period) by (nonlinear_arith)
                    requires
                        s.count >= 1,
                        s.tick_period >= 1,
                ;
                assert(false);
            }
        }
    }
}

/// A timer armed with some positive count, fed update deltas that are each
/// positive, each at most one tick period, and that total exactly the count
/// times the period, counts all the way down: after every update but the last
/// the completion flag is clear and ticks remain, and the last update brings
/// the count to zero and sets the flag.
pub proof fn lemma_timer_countdown(t: Timer, deltas: Seq<u32>)
    requires
        t.tick_period >= 1,
        t.count >= 1,
        t.accumulated == 0,
        !t.just_completed,
        forall|k: int| 0 <= k < deltas.len() ==> 1 <= #[trigger] deltas[k] <= t.tick_period,
        sum_deltas(deltas) == t.count * t.tick_period,
    ensures
        timer_after_updates(t, deltas).count == 0,
        timer_after_updates(t, deltas).just_completed,
        forall|j: int| 1 <= j < deltas.len()
            ==> !(#[trigger] timer_after_updates(t, deltas.take(j))).just_completed,
        forall|j: int| 1 <= j < deltas.len()
            ==> timer_after_updates(t, deltas.take(j)).count >= 1,
{
    lemma_countdown_prefix(t, deltas, deltas.len() as int);
    assert(deltas.take(deltas.len() as int) =~= deltas);
    assert forall|j: int| 1 <= j < deltas.len() implies !(#[trigger] timer_after_updates(
        t,
        deltas.take(j),
    )).just_completed && timer_after_updates(t, deltas.take(j)).count >= 1 by {
        lemma_countdown_prefix(t, deltas, j);
    }
}

impl Timer {
    /// A zeroed timer with the given tick period.
    pub fn new(tick_period: u32) -> (t: Timer)
        ensures
            t == (Timer { count: 0, accumulated: 0, just_completed: false, tick_period }),
    {
        Timer { count: 0, accumulated: 0, just_completed: false, tick_period }
    }

    /// Advance the timer by `delta_time` elapsed units.
    pub fn update(&mut self, delta_time: u32)
        requires
            old(self).accumulated + delta_time <= u32::MAX,
        ensures
            *final(self) == timer_after_update(*old(self), delta_time),
    {
        self.accumulated = self.accumulated + delta_time;
        if self.accumulated >= self.tick_period {
            self.accumulated = self.accumulated - self.tick_period;
            if self.count > 0 {
                self.count = self.count - 1;
                if self.count == 0 {
                    self.just_completed = true;
                }
            } else {
                self.just_completed = false;
            }
        }
    }

    /// Whether the most recent tick brought the count to zero.
    pub fn complete(&self) -> (r: bool)
        ensures
            r == self.just_completed,
    {
        self.just_completed
    }

    /// Arm the timer: the remaining-tick count is replaced, the accumulated
    /// time and the completion flag are untouched.
    pub fn set_count(&mut self, value: u8)
        ensures
            *final(self) == (Timer { count: value, ..*old(self) }),
    {
        self.count = value;
    }

    /// The remaining-tick count.
    pub fn get_count(&self) -> (r: u8)
        ensures
            r == self.count,
    {
        self.count
    }
}

} // verus!
