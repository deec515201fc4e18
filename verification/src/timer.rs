use vstd::arithmetic::div_mod::lemma_mod_sub_multiples_vanish;
use vstd::prelude::*;

verus! {

/// Whether a timer stops for good after its first completed interval, or
/// wraps around and can fire again on every interval boundary.
#[derive(Clone, Copy, PartialEq, Eq, Structural, Debug)]
pub enum TimerMode {
    Once,
    Repeating,
}

/// Tracks accumulated time against a target interval, in whole time units.
///
/// `just_finished` is a transient signal: it is true exactly on a tick in
/// which the accumulator crossed the interval boundary, and reflects only
/// the most recent call to `tick`.
pub struct Timer {
    /// Target interval; always positive.
    pub interval: u64,
    /// Time accumulated towards the next interval boundary.
    pub elapsed: u64,
    /// One-shot or repeating reset semantics.
    pub mode: TimerMode,
    /// A one-shot timer that has crossed its boundary; further ticks are
    /// no-ops. Never set in repeating mode.
    pub finished: bool,
    /// Whether the most recent tick crossed the interval boundary.
    pub just_finished: bool,
}

impl Timer {
    /// Well-formedness: the interval is positive, and the accumulator stays
    /// below it except that a finished one-shot timer rests exactly at it.
    pub open spec fn wf(self) -> bool {
        &&& self.interval > 0
        &&& (self.finished ==> self.mode is Once && self.elapsed == self.interval)
        &&& (!self.finished ==> self.elapsed < self.interval)
    }

    pub fn new(interval: u64, mode: TimerMode) -> (t: Timer)
        requires
            interval > 0,
        ensures
            t == (Timer {
                interval,
                elapsed: 0,
                mode,
                finished: false,
                just_finished: false,
            }),
            t.wf(),
    {
        Timer { interval, elapsed: 0, mode, finished: false, just_finished: false }
    }

    /// Adds `delta` to the accumulator and recomputes the transient
    /// `just_finished` signal, exactly as `spec_tick` describes.
    pub fn tick(&mut self, delta: u64)
        requires
            old(self).wf(),
        ensures
            *final(self) == spec_tick(*old(self), delta),
            final(self).wf(),
    {
        if self.finished {
            self.just_finished = false;
        } else {
            let remaining: u64 = self.interval - self.elapsed;
            if delta >= remaining {
                match self.mode {
                    TimerMode::Once => {
                        self.elapsed = self.interval;
                        self.finished = true;
                        self.just_finished = true;
                    },
                    TimerMode::Repeating => {
                        let over: u64 = delta - remaining;
                        let rem: u64 = over % self.interval;
                        proof {
                            lemma_mod_sub_multiples_vanish(
                                old(self).elapsed + delta,
                                self.interval as int,
                            );
                        }
                        self.elapsed = rem;
                        self.just_finished = true;
                    },
                }
            } else {
                self.elapsed = self.elapsed + delta;
                self.just_finished = false;
            }
        }
    }

    /// Whether the most recent `tick` crossed the interval boundary.
    pub fn just_finished(&self) -> (r: bool)
        ensures
            r == self.just_finished,
    {
        self.just_finished
    }
}

/// The timer after one tick of `delta` time units.
///
/// A finished one-shot timer ignores the tick. Otherwise the accumulator
/// grows by `delta`; on crossing the interval a one-shot timer clamps to the
/// interval and finishes, while a repeating one wraps, keeping the remainder
/// modulo the interval, so overshoot past several intervals carries over.
pub open spec fn spec_tick(t: Timer, delta: u64) -> Timer {
    if t.finished {
        Timer {
            interval: t.interval,
            elapsed: t.elapsed,
            mode: t.mode,
            finished: t.finished,
            just_finished: false,
        }
    } else if t.elapsed + delta >= t.interval {
        match t.mode {
            TimerMode::Once => Timer {
                interval: t.interval,
                elapsed: t.interval,
                mode: t.mode,
                finished: true,
                just_finished: true,
            },
            TimerMode::Repeating => Timer {
                interval: t.interval,
                elapsed: (((t.elapsed + delta) % (t.interval as int)) as u64),
                mode: t.mode,
                finished: false,
                just_finished: true,
            },
        }
    } else {
        Timer {
            interval: t.interval,
            elapsed: ((t.elapsed + delta) as u64),
            mode: t.mode,
            finished: t.finished,
            just_finished: false,
        }
    }
}

/// The timer after ticking once per element of `deltas`, in order.
pub open spec fn spec_run(t: Timer, deltas: Seq<u64>) -> Timer
    decreases deltas.len(),
{
    if deltas.len() == 0 {
        t
    } else {
        spec_run(spec_tick(t, deltas[0]), deltas.drop_first())
    }
}

/// How many of the ticks in `deltas`, fed in order, report `just_finished`.
pub open spec fn count_finishes(t: Timer, deltas: Seq<u64>) -> int
    decreases deltas.len(),
{
    if deltas.len() == 0 {
        0
    } else {
        let t1 = spec_tick(t, deltas[0]);
        (if t1.just_finished {
            1int
        } else {
            0int
        }) + count_finishes(t1, deltas.drop_first())
    }
}

/// The sum of a sequence of deltas.
pub open spec fn sum_deltas(deltas: Seq<u64>) -> int
    decreases deltas.len(),
{
    if deltas.len() == 0 {
        0
    } else {
        deltas[0] + sum_deltas(deltas.drop_first())
    }
}

proof fn lemma_sum_nonneg(deltas: Seq<u64>)
    ensures
        sum_deltas(deltas) >= 0,
    decreases deltas.len(),
{
    if deltas.len() > 0 {
        lemma_sum_nonneg(deltas.drop_first());
    }
}

/// A repeating timer fed deltas that together fall short of the boundary
/// never fires, and just accumulates their sum.
proof fn lemma_run_below_boundary(t: Timer, deltas: Seq<u64>)
    requires
        t.wf(),
        t.mode is Repeating,
        sum_deltas(deltas) < t.interval - t.elapsed,
    ensures
        count_finishes(t, deltas) == 0,
        spec_run(t, deltas).elapsed == t.elapsed + sum_deltas(deltas),
        spec_run(t, deltas).wf(),
        spec_run(t, deltas).mode is Repeating,
        spec_run(t, deltas).interval == t.interval,
    decreases deltas.len(),
{
    if deltas.len() > 0 {
        let d0 = deltas[0];
        lemma_sum_nonneg(deltas.drop_first());
        let t1 = spec_tick(t, d0);
        assert(t.elapsed + d0 < t.interval);
        lemma_run_below_boundary(t1, deltas.drop_first());
    }
}

/// A repeating timer fed deltas that together reach the boundary exactly
/// fires on exactly one of those ticks.
proof fn lemma_run_exact_boundary(t: Timer, deltas: Seq<u64>)
    requires
        t.wf(),
        t.mode is Repeating,
        sum_deltas(deltas) == t.interval - t.elapsed,
    ensures
        count_finishes(t, deltas) == 1,
    decreases deltas.len(),
{
    assert(deltas.len() > 0);
    let d0 = deltas[0];
    lemma_sum_nonneg(deltas.drop_first());
    let t1 = spec_tick(t, d0);
    if t.elapsed + d0 >= t.interval {
        assert(d0 == t.interval - t.elapsed);
        assert(t.elapsed + d0 == t.interval);
        assert((t.elapsed + d0) % (t.interval as int) == 0) by {
            vstd::arithmetic::div_mod::lemma_mod_self_0(t.interval as int);
        }
        assert(t1.elapsed == 0);
        assert(t1.just_finished);
        assert(sum_deltas(deltas.drop_first()) == 0);
        lemma_run_below_boundary(t1, deltas.drop_first());
    } else {
        assert(!t1.just_finished);
        assert(t1.elapsed == t.elapsed + d0);
        lemma_run_exact_boundary(t1, deltas.drop_first());
    }
}

/// For a fresh repeating timer, every sequence of non-negative deltas that
/// sums to exactly the interval makes `just_finished` true on exactly one
/// tick of that sequence.
pub proof fn lemma_repeating_fires_once(t: Timer, deltas: Seq<u64>)
    requires
        t.wf(),
        t.mode is Repeating,
        t.elapsed == 0,
        sum_deltas(deltas) == t.interval,
    ensures
        count_finishes(t, deltas) == 1,
{
    lemma_run_exact_boundary(t, deltas);
}

/// Feeding a fresh repeating timer a single delta spanning at least two
/// intervals fires on that one call, and the residual accumulator is the
/// delta modulo the interval.
pub proof fn lemma_repeating_large_delta(t: Timer, delta: u64)
    requires
        t.wf(),
        t.mode is Repeating,
        t.elapsed == 0,
        delta >= 2 * t.interval,
    ensures
        spec_tick(t, delta).just_finished,
        spec_tick(t, delta).elapsed == delta as int % (t.interval as int),
{
}

} // verus!
