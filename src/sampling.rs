use vstd::prelude::*;
use crate::error::MetricError;

verus! {

/// Nanoseconds in one second.
pub const NANOS_PER_SEC: u64 = 1_000_000_000;

/// A timestamped capture of one metric category.
pub struct Snapshot<T> {
    /// Reading of a monotonic clock, in nanoseconds.
    pub captured_at_ns: u64,
    pub payload: T,
}

/// What two snapshots of one category yield.
pub struct Delta<R> {
    /// The measured gap between the two captures, in nanoseconds.
    pub elapsed_ns: u64,
    pub fields: R,
}

/// How far a monotonic counter advanced; a counter that went down was reset
/// (wrapped, or its device restarted) and counts as not having advanced.
pub open spec fn counter_diff(before: u64, after: u64) -> nat {
    if after >= before {
        (after - before) as nat
    } else {
        0
    }
}

/// `diff` spread over `elapsed_ns`, per second, rounded down; a rate beyond
/// the range of `u64` is reported as `u64::MAX`.
pub open spec fn per_second(diff: nat, elapsed_ns: nat) -> nat
    recommends
        elapsed_ns > 0,
{
    let q = diff * (NANOS_PER_SEC as nat) / elapsed_ns;
    if q > u64::MAX {
        u64::MAX as nat
    } else {
        q
    }
}

/// The per-second rate of a counter read as `before` and then as `after`.
pub open spec fn counter_rate(before: u64, after: u64, elapsed_ns: nat) -> nat {
    per_second(counter_diff(before, after), elapsed_ns)
}

/// The gap between two captures, or why there is none to divide by.
pub open spec fn elapsed_between(before_ns: u64, after_ns: u64) -> Result<u64, MetricError> {
    if after_ns > before_ns {
        Ok((after_ns - before_ns) as u64)
    } else {
        Err(MetricError::MeasurementError)
    }
}

/// The per-second rate of a counter over a window of `elapsed_ns`.
pub fn counter_rate_exec(before: u64, after: u64, elapsed_ns: u64) -> (r: u64)
    requires
        elapsed_ns > 0,
    ensures
        r == counter_rate(before, after, elapsed_ns as nat),
{
    let diff: u64 = if after >= before {
        after - before
    } else {
        0
    };
    assert((diff as nat) * (NANOS_PER_SEC as nat) <= (u64::MAX as nat) * (NANOS_PER_SEC as nat))
        by (nonlinear_arith)
        requires
            diff <= u64::MAX,
    ;
    let scaled: u128 = diff as u128 * NANOS_PER_SEC as u128;
    let q: u128 = scaled / elapsed_ns as u128;
    if q > u64::MAX as u128 {
        u64::MAX
    } else {
        q as u64
    }
}

/// The measured gap between two capture times; `MeasurementError` where the
/// clock did not advance, so that no rate is ever divided by zero.
pub fn elapsed_exec(before_ns: u64, after_ns: u64) -> (r: Result<u64, MetricError>)
    ensures
        r == elapsed_between(before_ns, after_ns),
{
    if after_ns > before_ns {
        Ok(after_ns - before_ns)
    } else {
        Err(MetricError::MeasurementError)
    }
}

/// Accepts a requested sampling window. An empty window is refused with
/// `MeasurementError`, before any capture is made.
pub fn check_window(duration_ns: u64) -> (r: Result<u64, MetricError>)
    ensures
        duration_ns == 0 ==> r == Err::<u64, MetricError>(MetricError::MeasurementError),
        duration_ns > 0 ==> r == Ok::<u64, MetricError>(duration_ns),
{
    if duration_ns == 0 {
        Err(MetricError::MeasurementError)
    } else {
        Ok(duration_ns)
    }
}

/// Rates of a row of counters. Position `i` of `after` is paired with position
/// `i` of `before`; a position that `before` lacks appeared during the window
/// and has rate 0.
pub fn counter_rates(before: &Vec<u64>, after: &Vec<u64>, elapsed_ns: u64) -> (r: Vec<u64>)
    requires
        elapsed_ns > 0,
    ensures
        r@.len() == after@.len(),
        forall|i: int|
            0 <= i < after@.len() ==> r@[i] == if i < before@.len() {
                counter_rate(before@[i], after@[i], elapsed_ns as nat)
            } else {
                0
            },
{
    let mut r: Vec<u64> = Vec::new();
    let mut i: usize = 0;
    while i < after.len()
        invariant
            elapsed_ns > 0,
            i <= after@.len(),
            r@.len() == i,
            forall|j: int|
                0 <= j < i ==> r@[j] == if j < before@.len() {
                    counter_rate(before@[j], after@[j], elapsed_ns as nat)
                } else {
                    0
                },
        decreases after@.len() - i,
    {
        let v = if i < before.len() {
            counter_rate_exec(before[i], after[i], elapsed_ns)
        } else {
            0
        };
        r.push(v);
        i = i + 1;
    }
    r
}

/// A counter that went down yields rate 0, never a negative rate.
pub proof fn lemma_reset_counts_zero(before: u64, after: u64, elapsed_ns: nat)
    requires
        after < before,
        elapsed_ns > 0,
    ensures
        counter_rate(before, after, elapsed_ns) == 0,
{
    assert(0nat * (NANOS_PER_SEC as nat) / elapsed_ns == 0) by (nonlinear_arith)
        requires
            elapsed_ns > 0,
    ;
}

/// Rates are taken over the measured gap, whatever window was asked for: a
/// counter that advances `rate` per second for `elapsed_ns` nanoseconds, on a
/// gap that is a whole multiple of a nanosecond's worth of counts, is reported
/// at exactly `rate`.
pub proof fn lemma_rate_over_measured_gap(before: u64, after: u64, elapsed_ns: nat, rate: nat)
    requires
        elapsed_ns > 0,
        before <= after,
        (after - before) * (NANOS_PER_SEC as nat) == rate * elapsed_ns,
        rate <= u64::MAX,
    ensures
        counter_rate(before, after, elapsed_ns) == rate,
{
    let d = (after - before) as nat;
    assert(d * (NANOS_PER_SEC as nat) / elapsed_ns == rate) by (nonlinear_arith)
        requires
            d * (NANOS_PER_SEC as nat) == rate * elapsed_ns,
            elapsed_ns > 0,
    ;
}

/// For a counter that advanced by `rate * elapsed_ns / 10^9` (rounded down), the
/// reported rate is at most `rate` and falls short of it by less than
/// `10^9 / elapsed_ns + 1`: with a gap of at least 0.8 s, by at most 2.
pub proof fn lemma_rate_tolerance(before: u64, after: u64, elapsed_ns: nat, rate: nat)
    requires
        elapsed_ns > 0,
        before <= after,
        (after - before) == rate * elapsed_ns / NANOS_PER_SEC as nat,
        rate <= u64::MAX,
    ensures
        counter_rate(before, after, elapsed_ns) <= rate,
        rate < counter_rate(before, after, elapsed_ns) + (NANOS_PER_SEC as nat) / elapsed_ns + 2,
{
    let d = (after - before) as nat;
    let n = NANOS_PER_SEC as nat;
    assert(d * n <= rate * elapsed_ns && rate * elapsed_ns < d * n + n) by (nonlinear_arith)
        requires
            d == rate * elapsed_ns / n,
            n > 0,
    ;
    assert(d * n / elapsed_ns <= rate) by (nonlinear_arith)
        requires
            d * n <= rate * elapsed_ns,
            elapsed_ns > 0,
    ;
    assert(rate < d * n / elapsed_ns + n / elapsed_ns + 2) by (nonlinear_arith)
        requires
            rate * elapsed_ns < d * n + n,
            elapsed_ns > 0,
    ;
}

/// Both captures of a sample, if both succeeded; else the first failure.
pub open spec fn captures_of<T>(
    before: Result<Snapshot<T>, MetricError>,
    after: Result<Snapshot<T>, MetricError>,
) -> Result<(Snapshot<T>, Snapshot<T>), MetricError> {
    match before {
        Err(e) => Err(e),
        Ok(b) => match after {
            Err(e) => Err(e),
            Ok(a) => Ok((b, a)),
        },
    }
}

/// Pairs the two captures of a sample. A failed capture fails the whole
/// sample: a valid `before` is never kept beside a missing `after`.
pub fn pair_captures<T>(
    before: Result<Snapshot<T>, MetricError>,
    after: Result<Snapshot<T>, MetricError>,
) -> (r: Result<(Snapshot<T>, Snapshot<T>), MetricError>)
    ensures
        r == captures_of(before, after),
        after is Err ==> r is Err,
{
    match before {
        Err(e) => Err(e),
        Ok(b) => match after {
            Err(e) => Err(e),
            Ok(a) => Ok((b, a)),
        },
    }
}

/// Where a sample stands. The caller performs what the step asks for (a
/// capture, after waiting `window_ns` for the later one) and hands the outcome
/// to `on_capture`; the decisions are all made here.
pub enum SampleStep<T> {
    /// Take the earlier capture now.
    CaptureBefore { window_ns: u64 },
    /// Block for `window_ns`, then take the later capture.
    CaptureAfter { window_ns: u64, before: Snapshot<T> },
    /// The sample failed; nothing was or will be reduced.
    Failed(MetricError),
    /// Both captures are in, ready to be reduced.
    Ready(Snapshot<T>, Snapshot<T>),
}

/// The first step of a sample over `window_ns`: an empty window fails at once
/// with `MeasurementError`, before any capture is asked for.
pub fn start_sample<T>(window_ns: u64) -> (r: SampleStep<T>)
    ensures
        window_ns == 0 ==> r == SampleStep::<T>::Failed(MetricError::MeasurementError),
        window_ns > 0 ==> r == (SampleStep::<T>::CaptureBefore { window_ns }),
{
    match check_window(window_ns) {
        Err(e) => SampleStep::Failed(e),
        Ok(w) => SampleStep::CaptureBefore { window_ns: w },
    }
}

/// What follows `step` once the capture it asked for came back as `captured`.
/// A failed capture fails the sample; a step that asks for no capture stays as it is.
pub open spec fn next_step<T>(step: SampleStep<T>, captured: Result<Snapshot<T>, MetricError>) -> SampleStep<T> {
    match step {
        SampleStep::CaptureBefore { window_ns } => match captured {
            Ok(b) => SampleStep::CaptureAfter { window_ns, before: b },
            Err(e) => SampleStep::Failed(e),
        },
        SampleStep::CaptureAfter { window_ns, before } => match captured {
            Ok(a) => SampleStep::Ready(before, a),
            Err(e) => SampleStep::Failed(e),
        },
        _ => step,
    }
}

/// Advances a sample by one capture.
pub fn on_capture<T>(step: SampleStep<T>, captured: Result<Snapshot<T>, MetricError>) -> (r: SampleStep<T>)
    ensures
        r == next_step(step, captured),
{
    match step {
        SampleStep::CaptureBefore { window_ns } => match captured {
            Ok(b) => SampleStep::CaptureAfter { window_ns, before: b },
            Err(e) => SampleStep::Failed(e),
        },
        SampleStep::CaptureAfter { window_ns, before } => match captured {
            Ok(a) => SampleStep::Ready(before, a),
            Err(e) => SampleStep::Failed(e),
        },
        other => other,
    }
}

/// A sample whose later capture fails ends failed with that error: no pair of
/// snapshots, hence no delta, comes out of it, whatever the earlier capture was.
pub proof fn lemma_failed_after_capture_fails<T>(
    window_ns: u64,
    before: Result<Snapshot<T>, MetricError>,
    e: MetricError,
)
    ensures
        (next_step(next_step((SampleStep::<T>::CaptureBefore { window_ns }), before), Err(e))
            is Failed),
        before is Ok ==> next_step(
            next_step((SampleStep::<T>::CaptureBefore { window_ns }), before),
            Err(e),
        ) == SampleStep::<T>::Failed(e),
{
}

} // verus!
