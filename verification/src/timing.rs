//! Timing statistics: a moving average over a window, and the minimum, average and maximum of
//! loop times; a stopwatch on the monotonic clock.
use std::time::{Duration, Instant};
use vstd::prelude::*;

verus! {

/// The sum of the values.
pub open spec fn sum(s: Seq<u32>) -> int
    decreases s.len(),
{
    if s.len() == 0 {
        0
    } else {
        sum(s.drop_last()) + s.last()
    }
}

/// The sum of a window of values changes by the change of the value replaced.
pub proof fn lemma_sum_update(s: Seq<u32>, i: int, v: u32)
    requires
        0 <= i < s.len(),
    ensures
        sum(s.update(i, v)) == sum(s) - s[i] + v,
        sum(s) >= s[i],
    decreases s.len(),
{
    if i < s.len() - 1 {
        lemma_sum_update(s.drop_last(), i, v);
        assert(s.update(i, v).drop_last() =~= s.drop_last().update(i, v));
    } else {
        assert(s.update(i, v).drop_last() =~= s.drop_last());
        lemma_sum_nonneg(s.drop_last());
    }
}

/// A sum of values is not negative.
pub proof fn lemma_sum_nonneg(s: Seq<u32>)
    ensures
        sum(s) >= 0,
    decreases s.len(),
{
    if s.len() > 0 {
        lemma_sum_nonneg(s.drop_last());
    }
}

/// The sum of values that are all below `b` is at most `(b - 1)` times their number.
pub proof fn lemma_sum_bound(s: Seq<u32>, b: u32)
    requires
        b > 0,
        forall|i: int| 0 <= i < s.len() ==> #[trigger] s[i] < b,
    ensures
        sum(s) <= (b - 1) * s.len(),
    decreases s.len(),
{
    if s.len() > 0 {
        lemma_sum_bound(s.drop_last(), b);
        assert(s.last() == s[s.len() - 1]);
        assert((b - 1) * (s.len() - 1) + (b - 1) == (b - 1) * s.len()) by (nonlinear_arith);
    }
}

/// A window of values of fixed size, replaced one at a time in a ring, with their running total.
pub struct MovingAverage {
    data: Vec<u32>,
    total: u32,
    index: usize,
}

impl MovingAverage {
    /// The values of the window, in ring order.
    pub closed spec fn window(&self) -> Seq<u32> {
        self.data@
    }

    /// The position the next value replaces.
    pub closed spec fn position(&self) -> int {
        self.index as int
    }

    /// The window is not empty, the position is in it, and the total is the sum of the window.
    pub closed spec fn wf(&self) -> bool {
        &&& self.data@.len() > 0
        &&& self.index < self.data@.len()
        &&& self.total == sum(self.data@)
    }

    /// A window of `size` zeros.
    pub fn new(size: usize) -> (r: MovingAverage)
        requires
            size > 0,
        ensures
            r.wf(),
            r.window() == Seq::new(size as nat, |i: int| 0u32),
            r.position() == 0,
    {
        let mut data: Vec<u32> = Vec::new();
        let mut i: usize = 0;
        while i < size
            invariant
                i <= size,
                data@ == Seq::new(i as nat, |k: int| 0u32),
                sum(data@) == 0,
            decreases size - i,
        {
            let ghost prev = data@;
            data.push(0u32);
            proof {
                assert(data@.drop_last() =~= prev);
            }
            i = i + 1;
        }
        MovingAverage { data, total: 0, index: 0 }
    }

    /// The average of the window, rounded down.
    pub fn avg(&self) -> (r: u32)
        requires
            self.wf(),
            self.window().len() <= u32::MAX,
        ensures
            r == sum(self.window()) / (self.window().len() as int),
    {
        let n = self.data.len() as u32;
        self.total / n
    }

    /// Puts `new` in place of the oldest value of the window.
    pub fn update(&mut self, new: u32)
        requires
            old(self).wf(),
            sum(old(self).window()) - old(self).window()[old(self).position()] + new <= u32::MAX,
        ensures
            final(self).wf(),
            final(self).window() == old(self).window().update(old(self).position(), new),
            final(self).position() == (old(self).position() + 1) % (old(self).window().len() as int),
    {
        proof {
            lemma_sum_update(self.data@, self.index as int, new);
        }
        self.total = self.total - self.data[self.index];
        self.total = self.total + new;
        self.data.set(self.index, new);
        let n = self.data.len();
        self.index = (self.index + 1) % n;
    }
}

/// The size of the window of loop times.
pub const TIMING_WINDOW: usize = 500;

/// The minimum, average (over the last `TIMING_WINDOW` times) and maximum of loop times, in
/// milliseconds.
pub struct TimingStats {
    pub min: u32,
    pub avg: u32,
    pub max: u32,
    pub rolling: MovingAverage,
}

impl TimingStats {
    /// The times recorded in the window.
    pub closed spec fn window(&self) -> Seq<u32> {
        self.rolling.window()
    }

    /// The window is full size and holds sub-second times.
    pub closed spec fn wf(&self) -> bool {
        &&& self.rolling.wf()
        &&& self.rolling.window().len() == TIMING_WINDOW
        &&& forall|i: int| 0 <= i < self.rolling.window().len() ==> #[trigger] self.rolling.window()[i] < 1000
    }

    /// No time recorded: the minimum is the largest value, average and maximum zero.
    pub fn new() -> (r: TimingStats)
        ensures
            r.wf(),
            r.min == u32::MAX,
            r.avg == 0,
            r.max == 0,
    {
        TimingStats { min: u32::MAX, avg: 0, max: 0, rolling: MovingAverage::new(TIMING_WINDOW) }
    }

    /// Records a loop time (the milliseconds within its second).
    pub fn update(&mut self, millis: u32)
        requires
            old(self).wf(),
            millis < 1000,
        ensures
            final(self).wf(),
            final(self).min == if millis < old(self).min {
                millis
            } else {
                old(self).min
            },
            final(self).max == if millis > old(self).max {
                millis
            } else {
                old(self).max
            },
            final(self).avg == sum(final(self).window()) / (TIMING_WINDOW as int),
            final(self).window() == old(self).window().update(old(self).rolling.position(), millis),
    {
        proof {
            lemma_sum_bound(self.rolling.window(), 1000);
            lemma_sum_update(self.rolling.window(), self.rolling.position(), millis);
        }
        self.rolling.update(millis);
        self.avg = self.rolling.avg();
        if self.min > millis {
            self.min = millis;
        }
        if self.max < millis {
            self.max = millis;
        }
    }
}

/// A point of the monotonic clock.
#[verifier::external_type_specification]
#[verifier::external_body]
pub struct ExInstant(Instant);

/// Calls `std::time::Instant::now`: the current time of the monotonic clock. Nothing is stated
/// of it; it depends on the clock.
#[verifier::external_body]
fn instant_now() -> (r: Instant) {
    Instant::now()
}

/// Calls `std::time::Instant::elapsed`: the time since `t`. Nothing is stated of it; it depends
/// on the clock.
#[verifier::external_body]
fn instant_elapsed(t: &Instant) -> (r: Duration) {
    t.elapsed()
}

/// A stopwatch.
pub struct ElapsedTimer {
    last_time: Instant,
}

impl ElapsedTimer {
    /// Started now. The clock's reading is kept inside; nothing is stated of it.
    pub fn new() -> (r: ElapsedTimer) {
        ElapsedTimer { last_time: instant_now() }
    }

    /// The time since it was started or last reset. Nothing is stated of it: it depends on the
    /// clock.
    pub fn duration(&self) -> (r: Duration) {
        instant_elapsed(&self.last_time)
    }

    /// The time since it was started or last reset; restarts it. Nothing is stated of the time
    /// returned or of the new start: both depend on the clock.
    pub fn duration_reset(&mut self) -> (r: Duration) {
        let dur = instant_elapsed(&self.last_time);
        self.last_time = instant_now();
        dur
    }
}

} // verus!
