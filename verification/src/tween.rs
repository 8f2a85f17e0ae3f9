//! A time-driven linear interpolation ("tween") driver.
//!
//! A [`Tween`] drives a caller-owned slot linearly from a start value to
//! an end value over a wall-clock duration, reporting every recomputed
//! value to a caller-supplied callback, and blocks the caller until the
//! duration has elapsed. Progress is recomputed from the clock on every
//! tick, never accumulated.
//!
//! Time is measured in whole nanoseconds on a monotonic clock, so a
//! backward clock jump cannot occur and no failure path is needed. A
//! zero duration is taken as "complete immediately": the slot is set to
//! the end value and the callback sees exactly that value once.

use crate::vector::Vector;
use vstd::prelude::*;

verus! {

/// The capability a value needs so that a tween can drive it: linear
/// interpolation between two endpoints, parameterized by the elapsed
/// time out of a total duration.
pub trait Interpolate: Sized + Copy {
    /// When interpolation from `self` to `end` is defined (for bounded
    /// element types: freedom from overflow at every progress point).
    spec fn lerp_req(self, end: Self) -> bool;

    /// The interpolated value after `elapsed` of `duration` time units:
    /// `self + (end - self) * elapsed / duration`.
    spec fn lerp_spec(self, end: Self, elapsed: int, duration: int) -> Self;

    /// Interpolation at time zero yields the start value exactly.
    proof fn lemma_lerp_at_zero(self, end: Self, duration: int)
        requires
            self.lerp_req(end),
            duration > 0,
        ensures
            self.lerp_spec(end, 0, duration) == self,
    ;

    /// Computes the interpolated value strictly before the duration is up.
    fn lerp(self, end: Self, elapsed: u64, duration: u64) -> (r: Self)
        requires
            self.lerp_req(end),
            elapsed < duration,
        ensures
            r == self.lerp_spec(end, elapsed as int, duration as int),
    ;
}

impl Interpolate for i64 {
    open spec fn lerp_req(self, end: i64) -> bool {
        true
    }

    open spec fn lerp_spec(self, end: i64, elapsed: int, duration: int) -> i64 {
        if end >= self {
            (self + (end - self) * elapsed / duration) as i64
        } else {
            (self - (self - end) * elapsed / duration) as i64
        }
    }

    proof fn lemma_lerp_at_zero(self, end: i64, duration: int) {
    }

    fn lerp(self, end: i64, elapsed: u64, duration: u64) -> (r: i64) {
        if end >= self {
            let diff: u128 = (end as i128 - self as i128) as u128;
            proof {
                lemma_scaled_offset_bound(diff as int, elapsed as int, duration as int);
            }
            let q: u128 = diff * (elapsed as u128) / (duration as u128);
            (self as i128 + q as i128) as i64
        } else {
            let diff: u128 = (self as i128 - end as i128) as u128;
            proof {
                lemma_scaled_offset_bound(diff as int, elapsed as int, duration as int);
            }
            let q: u128 = diff * (elapsed as u128) / (duration as u128);
            (self as i128 - q as i128) as i64
        }
    }
}

/// Scaling a non-negative offset by a progress fraction below one never
/// enlarges it: `diff * elapsed / duration <= diff`. Also bounds the
/// intermediate product for offsets and times that fit in 64 bits.
proof fn lemma_scaled_offset_bound(diff: int, elapsed: int, duration: int)
    requires
        0 <= diff < 0x10000000000000000,
        0 <= elapsed < duration,
        elapsed < 0x10000000000000000,
    ensures
        0 <= diff * elapsed < 0x100000000000000000000000000000000,
        diff * elapsed / duration <= diff,
{
    assert(0 <= diff * elapsed < 0x100000000000000000000000000000000) by (nonlinear_arith)
        requires
            0 <= diff < 0x10000000000000000,
            0 <= elapsed < 0x10000000000000000,
    ;
    assert(diff * elapsed / duration <= diff) by (nonlinear_arith)
        requires
            0 <= diff,
            0 <= elapsed < duration,
    ;
}

/// A scalar interpolant never overshoots: strictly inside the duration
/// it stays between the two endpoints, whichever way they are ordered.
pub proof fn lemma_lerp_within_endpoints(start: i64, end: i64, elapsed: int, duration: int)
    requires
        0 <= elapsed < duration,
    ensures
        start <= end ==> start <= start.lerp_spec(end, elapsed, duration) <= end,
        end < start ==> end <= start.lerp_spec(end, elapsed, duration) <= start,
{
    if start <= end {
        let diff: int = end - start;
        assert(0 <= diff * elapsed / duration <= diff) by (nonlinear_arith)
            requires
                0 <= diff,
                0 <= elapsed < duration,
        ;
    } else {
        let diff: int = start - end;
        assert(0 <= diff * elapsed / duration <= diff) by (nonlinear_arith)
            requires
                0 <= diff,
                0 <= elapsed < duration,
        ;
    }
}

// A tween may drive a whole vector: interpolation is component-wise.
impl<T: Interpolate> Interpolate for Vector<T> {
    open spec fn lerp_req(self, end: Vector<T>) -> bool {
        self.x.lerp_req(end.x) && self.y.lerp_req(end.y) && self.z.lerp_req(end.z)
    }

    open spec fn lerp_spec(self, end: Vector<T>, elapsed: int, duration: int) -> Vector<T> {
        Vector {
            x: self.x.lerp_spec(end.x, elapsed, duration),
            y: self.y.lerp_spec(end.y, elapsed, duration),
            z: self.z.lerp_spec(end.z, elapsed, duration),
        }
    }

    proof fn lemma_lerp_at_zero(self, end: Vector<T>, duration: int) {
        self.x.lemma_lerp_at_zero(end.x, duration);
        self.y.lemma_lerp_at_zero(end.y, duration);
        self.z.lemma_lerp_at_zero(end.z, duration);
    }

    fn lerp(self, end: Vector<T>, elapsed: u64, duration: u64) -> (r: Vector<T>) {
        Vector::new(
            self.x.lerp(end.x, elapsed, duration),
            self.y.lerp(end.y, elapsed, duration),
            self.z.lerp(end.z, elapsed, duration),
        )
    }
}

/// The values a tween may hand to its callback and leave in the driven
/// slot: every interpolant strictly inside the duration, and, for the
/// zero-duration tween, the end value itself.
pub open spec fn is_tween_value<T: Interpolate>(start: T, end: T, duration: int, v: T) -> bool {
    ||| (duration == 0 && v == end)
    ||| (exists|t: int| 0 <= t < duration && v == #[trigger] start.lerp_spec(end, t, duration))
}

#[verifier::external_type_specification]
#[verifier::external_body]
pub struct ExInstant(std::time::Instant);

/// Relies on std::time::Instant::now: an opaque reading of a monotonic
/// clock. Nothing is assumed of the value.
#[verifier::external_body]
fn monotonic_now() -> std::time::Instant {
    std::time::Instant::now()
}

/// Relies on std::time::Instant::elapsed: the time since `earlier`, as
/// whole nanoseconds, truncated to 64 bits. Nothing is assumed of the
/// value: the caller must be correct for every reading.
#[verifier::external_body]
fn nanos_since(earlier: &std::time::Instant) -> u64 {
    earlier.elapsed().as_nanos() as u64
}

/// How many clock polls a single `start` call may make before giving up
/// on a clock that no longer advances. At nanosecond resolution this
/// budget outlasts any realistic duration by centuries; it exists so the
/// polling loop provably terminates.
const SPIN_BUDGET: u64 = 18_446_744_073_709_551_615;

/// Drives a value linearly from `start` to `end` over `duration`
/// nanoseconds of wall-clock time, invoking `on_progress` with every
/// recomputed value.
pub struct Tween<T, F> {
    pub start: T,
    pub end: T,
    pub duration: u64,
    pub on_progress: F,
}

impl<T: Interpolate, F: Fn(T)> Tween<T, F> {
    /// Captures the endpoints, the duration and the callback; timing
    /// begins only on `start`.
    pub fn new(start: T, end: T, duration: u64, on_progress: F) -> (tw: Tween<T, F>)
        ensures
            tw == (Tween { start, end, duration, on_progress }),
    {
        Tween { start, end, duration, on_progress }
    }

    /// Blocks until `duration` nanoseconds have passed, repeatedly
    /// storing `start + (end - start) * elapsed / duration` into `value`
    /// and reporting it to the callback. Progress is read from the clock
    /// anew on every tick. The first tick always runs, at elapsed time
    /// zero, so the callback is invoked at least once and sees the start
    /// value; the slot is left holding the last tick's value, which was
    /// also reported and may fall short of `end`. A zero duration
    /// completes immediately at `end`, and the callback sees exactly
    /// that value.
    pub fn start(&self, value: &mut T)
        requires
            self.duration > 0 ==> self.start.lerp_req(self.end),
            forall|v: T|
                #[trigger] is_tween_value(self.start, self.end, self.duration as int, v)
                    ==> call_requires(self.on_progress, (v,)),
        ensures
            is_tween_value(self.start, self.end, self.duration as int, *final(value)),
            self.duration == 0 ==> *final(value) == self.end,
            call_ensures(self.on_progress, (*final(value),), ()),
            self.duration > 0 ==> call_ensures(self.on_progress, (self.start,), ()),
            self.duration == 0 ==> call_ensures(self.on_progress, (self.end,), ()),
    {
        if self.duration == 0 {
            *value = self.end;
            proof {
                assert(is_tween_value(self.start, self.end, self.duration as int, self.end));
            }
            (self.on_progress)(self.end);
            return;
        }
        let clock: std::time::Instant = monotonic_now();
        let first: T = self.start.lerp(self.end, 0, self.duration);
        proof {
            self.start.lemma_lerp_at_zero(self.end, self.duration as int);
            assert(first == self.start);
        }
        *value = first;
        proof {
            assert(is_tween_value(self.start, self.end, self.duration as int, first));
        }
        (self.on_progress)(first);
        let mut spins: u64 = 0;
        let mut elapsed: u64 = nanos_since(&clock);
        while elapsed < self.duration && spins < SPIN_BUDGET
            invariant
                self.duration > 0,
                self.start.lerp_req(self.end),
                spins <= SPIN_BUDGET,
                forall|v: T|
                    #[trigger] is_tween_value(self.start, self.end, self.duration as int, v)
                        ==> call_requires(self.on_progress, (v,)),
                is_tween_value(self.start, self.end, self.duration as int, *value),
                call_ensures(self.on_progress, (*value,), ()),
                call_ensures(self.on_progress, (self.start,), ()),
            decreases SPIN_BUDGET - spins,
        {
            let v: T = self.start.lerp(self.end, elapsed, self.duration);
            *value = v;
            proof {
                assert(is_tween_value(self.start, self.end, self.duration as int, v));
            }
            (self.on_progress)(v);
            spins = spins + 1;
            elapsed = nanos_since(&clock);
        }
    }
}

} // verus!
