//! Frame time.
//!
//! All durations are whole nanoseconds. `TimeState` owns the last reading of
//! a monotonic clock and the accumulated elapsed time; `Time` is the
//! immutable snapshot (delta and elapsed nanoseconds) that `tick` produces
//! and the frame driver publishes into the registry for systems to read.
//! `TimeFixed` is the configuration resource holding the fixed-update
//! interval. The fixed-timestep arithmetic — clamping a frame delta,
//! charging it to an accumulator, and paying the accumulator out in whole
//! fixed steps — is modelled here as well, so the frame driver's contracts
//! and the determinism law below speak one language.

use vstd::prelude::*;
use vstd::arithmetic::div_mod::{
    lemma_fundamental_div_mod, lemma_fundamental_div_mod_converse, lemma_mod_division_less_than_divisor,
};
use vstd::arithmetic::mul::{lemma_mul_is_commutative, lemma_mul_is_distributive_add};

verus! {

/// The fixed-update interval used when none is configured: one sixtieth of a
/// second, in nanoseconds.
pub const DEFAULT_FIXED_INTERVAL_NANOS: u64 = 16_666_667;

/// Ceiling on the frame delta charged to the fixed-update accumulator: a
/// quarter of a second, in nanoseconds. Time beyond it is discarded, so a
/// debugger pause or platform hiccup cannot cause an unbounded catch-up
/// burst.
pub const FRAME_DELTA_CLAMP_NANOS: u64 = 250_000_000;

/// Largest admissible fixed-update interval; keeps the accumulator's charge
/// within `u64` whatever frame delta arrives.
pub const MAX_FIXED_INTERVAL_NANOS: u64 = u64::MAX - FRAME_DELTA_CLAMP_NANOS;

/// An immutable snapshot of frame time, published once per frame.
#[derive(Debug, Clone, Copy)]
pub struct Time {
    /// Nanoseconds between the two most recent ticks.
    pub delta_nanos: u64,
    /// Nanoseconds accumulated over all ticks so far.
    pub elapsed_nanos: u64,
}

/// Configuration resource: the fixed-update interval in nanoseconds.
pub struct TimeFixed {
    /// Nanoseconds between two fixed-update steps.
    pub delta_nanos: u64,
}

impl TimeFixed {
    /// A fixed-update interval of `delta_nanos` nanoseconds.
    pub fn new(delta_nanos: u64) -> (t: TimeFixed)
        ensures
            t.delta_nanos == delta_nanos,
    {
        TimeFixed { delta_nanos }
    }
}

/// Owns the previous monotonic clock reading and the elapsed total; turns
/// clock readings into `Time` snapshots.
pub struct TimeState {
    /// The clock reading of the previous `tick` (or of construction, before
    /// the first `tick`).
    pub last_nanos: u64,
    /// The snapshot produced by the previous `tick`.
    pub time: Time,
}

impl TimeState {
    /// Starts timekeeping at the clock reading `now_nanos`: the first `tick`
    /// measures from here.
    pub fn new(now_nanos: u64) -> (s: TimeState)
        ensures
            s.last_nanos == now_nanos,
            s.time.delta_nanos == 0,
            s.time.elapsed_nanos == 0,
    {
        TimeState { last_nanos: now_nanos, time: Time { delta_nanos: 0, elapsed_nanos: 0 } }
    }

    /// Advances to the clock reading `now_nanos` and returns the fresh
    /// snapshot: the delta is the time since the previous call (or since
    /// construction, on the first call), and the elapsed total grows by it.
    /// A monotonic clock never runs backwards; if a reading nevertheless
    /// does, the delta counts as zero, and an elapsed total beyond the
    /// representable range saturates.
    pub fn tick(&mut self, now_nanos: u64) -> (t: Time)
        ensures
            t == final(self).time,
            final(self).last_nanos == now_nanos,
            final(self).time.delta_nanos == if now_nanos >= old(self).last_nanos {
                now_nanos - old(self).last_nanos
            } else {
                0
            },
            final(self).time.elapsed_nanos == if old(self).time.elapsed_nanos
                + final(self).time.delta_nanos <= u64::MAX {
                old(self).time.elapsed_nanos + final(self).time.delta_nanos
            } else {
                u64::MAX as int
            },
    {
        let delta: u64 = if now_nanos >= self.last_nanos {
            now_nanos - self.last_nanos
        } else {
            0
        };
        let elapsed: u64 = if self.time.elapsed_nanos <= u64::MAX - delta {
            self.time.elapsed_nanos + delta
        } else {
            u64::MAX
        };
        self.last_nanos = now_nanos;
        self.time = Time { delta_nanos: delta, elapsed_nanos: elapsed };
        Time { delta_nanos: delta, elapsed_nanos: elapsed }
    }
}

/// A frame delta as charged to the accumulator: clamped to the ceiling.
pub open spec fn clamp_frame_delta(delta: u64) -> u64 {
    if delta > FRAME_DELTA_CLAMP_NANOS {
        FRAME_DELTA_CLAMP_NANOS
    } else {
        delta
    }
}

/// How many whole fixed steps one dispatch pays out, starting from
/// accumulator `acc`.
pub open spec fn dispatch_steps(acc: int, delta: u64, interval: int) -> int {
    (acc + clamp_frame_delta(delta)) / interval
}

/// The accumulator one dispatch leaves behind.
pub open spec fn dispatch_acc(acc: int, delta: u64, interval: int) -> int {
    (acc + clamp_frame_delta(delta)) % interval
}

/// Total fixed steps paid out over a whole sequence of frame deltas.
pub open spec fn total_fixed_steps(acc: int, deltas: Seq<u64>, interval: int) -> int
    decreases deltas.len(),
{
    if deltas.len() == 0 {
        0
    } else {
        dispatch_steps(acc, deltas.first(), interval) + total_fixed_steps(
            dispatch_acc(acc, deltas.first(), interval),
            deltas.drop_first(),
            interval,
        )
    }
}

/// The accumulator left after a whole sequence of frame deltas.
pub open spec fn final_accumulator(acc: int, deltas: Seq<u64>, interval: int) -> int
    decreases deltas.len(),
{
    if deltas.len() == 0 {
        acc
    } else {
        final_accumulator(
            dispatch_acc(acc, deltas.first(), interval),
            deltas.drop_first(),
            interval,
        )
    }
}

/// Sum of a sequence of frame deltas, in nanoseconds.
pub open spec fn total_nanos(deltas: Seq<u64>) -> int
    decreases deltas.len(),
{
    if deltas.len() == 0 {
        0
    } else {
        deltas.first() + total_nanos(deltas.drop_first())
    }
}

proof fn lemma_accumulator_invariant(acc: int, deltas: Seq<u64>, interval: int)
    requires
        interval > 0,
        0 <= acc < interval,
        forall|i: int| 0 <= i < deltas.len() ==> deltas[i] <= FRAME_DELTA_CLAMP_NANOS,
    ensures
        interval * total_fixed_steps(acc, deltas, interval) + final_accumulator(
            acc,
            deltas,
            interval,
        ) == acc + total_nanos(deltas),
        0 <= final_accumulator(acc, deltas, interval) < interval,
    decreases deltas.len(),
{
    if deltas.len() > 0 {
        let d = deltas.first();
        assert(clamp_frame_delta(d) == d);
        let charged = acc + d;
        let steps = charged / interval;
        let acc1 = charged % interval;
        lemma_fundamental_div_mod(charged, interval);
        lemma_mod_division_less_than_divisor(charged, interval);
        lemma_accumulator_invariant(acc1, deltas.drop_first(), interval);
        let rest_steps = total_fixed_steps(acc1, deltas.drop_first(), interval);
        lemma_mul_is_distributive_add(interval, steps, rest_steps);
        assert(total_fixed_steps(acc, deltas, interval) == steps + rest_steps);
        assert(total_nanos(deltas) == d + total_nanos(deltas.drop_first()));
    }
}

/// Law: the fixed-timestep accumulator is deterministic. For any fixed
/// interval and any sequence of frame deltas each below the clamp ceiling,
/// starting from an empty accumulator, the total number of fixed-update
/// steps equals the floor of the summed deltas divided by the interval, and
/// the accumulator left over equals the summed deltas modulo the interval —
/// however the sum was split into frames.
pub proof fn lemma_accumulator_determinism(deltas: Seq<u64>, interval: u64)
    requires
        interval > 0,
        forall|i: int| 0 <= i < deltas.len() ==> deltas[i] <= FRAME_DELTA_CLAMP_NANOS,
    ensures
        total_fixed_steps(0, deltas, interval as int) == total_nanos(deltas) / interval as int,
        final_accumulator(0, deltas, interval as int) == total_nanos(deltas) % interval as int,
{
    lemma_accumulator_invariant(0, deltas, interval as int);
    lemma_mul_is_commutative(interval as int, total_fixed_steps(0, deltas, interval as int));
    lemma_fundamental_div_mod_converse(
        total_nanos(deltas),
        interval as int,
        total_fixed_steps(0, deltas, interval as int),
        final_accumulator(0, deltas, interval as int),
    );
}

} // verus!
