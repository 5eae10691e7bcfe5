use vstd::prelude::*;
use crate::error::MetricError;
use crate::records::InterruptDetails;
use crate::sampling::{
    captures_of, counter_rate, counter_rates, elapsed_between, elapsed_exec, pair_captures, Delta,
    Snapshot,
};

verus! {

/// Per-second rates of one interrupt row, one per CPU.
#[derive(Debug, Clone, PartialEq)]
pub struct InterruptRate {
    pub interrupt_type: String,
    pub description: String,
    pub per_cpu: Vec<u64>,
}

/// `r` holds the rates of row `a` measured against row `b` over `e` nanoseconds;
/// a CPU that `b` lacks came online meanwhile and has rate 0.
pub open spec fn interrupt_rate_of(
    b: InterruptDetails,
    a: InterruptDetails,
    e: nat,
    r: InterruptRate,
) -> bool {
    &&& r.interrupt_type@ == a.interrupt_type@
    &&& r.description@ == a.description@
    &&& r.per_cpu@.len() == a.cpu_counts@.len()
    &&& forall|c: int|
        0 <= c < a.cpu_counts@.len() ==> #[trigger] r.per_cpu@[c] == if c < b.cpu_counts@.len() {
            counter_rate(b.cpu_counts@[c], a.cpu_counts@[c], e)
        } else {
            0
        }
}

/// The earlier row that row `i` of `a` is measured against: row `i` of `b`, or
/// the row itself where `b` has fewer rows, whose rates are then 0.
pub open spec fn row_baseline(b: Seq<InterruptDetails>, a: Seq<InterruptDetails>, i: int) -> InterruptDetails {
    if i < b.len() {
        b[i]
    } else {
        a[i]
    }
}

/// What an interrupt sample over `before` and `after` yields.
pub open spec fn interrupt_delta_of(
    before: Snapshot<Vec<InterruptDetails>>,
    after: Snapshot<Vec<InterruptDetails>>,
    r: Result<Delta<Vec<InterruptRate>>, MetricError>,
) -> bool {
    match elapsed_between(before.captured_at_ns, after.captured_at_ns) {
        Err(e) => r == Err::<Delta<Vec<InterruptRate>>, MetricError>(e),
        Ok(e) => match r {
            Ok(d) => {
                &&& d.elapsed_ns == e
                &&& d.fields@.len() == after.payload@.len()
                &&& forall|i: int|
                    0 <= i < after.payload@.len() ==> interrupt_rate_of(
                        row_baseline(before.payload@, after.payload@, i),
                        after.payload@[i],
                        e as nat,
                        #[trigger] d.fields@[i],
                    )
            },
            Err(_) => false,
        },
    }
}

/// Reduces two interrupt tables to per-CPU rates over the measured gap; rows
/// are paired by position. `MeasurementError` where the clock did not advance.
pub fn interrupt_delta(
    before: &Snapshot<Vec<InterruptDetails>>,
    after: &Snapshot<Vec<InterruptDetails>>,
) -> (r: Result<Delta<Vec<InterruptRate>>, MetricError>)
    ensures
        interrupt_delta_of(*before, *after, r),
{
    let e = match elapsed_exec(before.captured_at_ns, after.captured_at_ns) {
        Err(err) => {
            return Err(err);
        },
        Ok(e) => e,
    };
    let b = &before.payload;
    let a = &after.payload;
    let mut rows: Vec<InterruptRate> = Vec::new();
    let mut i: usize = 0;
    while i < a.len()
        invariant
            e > 0,
            i <= a@.len(),
            rows@.len() == i,
            forall|k: int|
                0 <= k < i ==> interrupt_rate_of(
                    row_baseline(b@, a@, k),
                    a@[k],
                    e as nat,
                    #[trigger] rows@[k],
                ),
        decreases a@.len() - i,
    {
        let row = &a[i];
        let base = if i < b.len() {
            &b[i]
        } else {
            row
        };
        let per_cpu = counter_rates(&base.cpu_counts, &row.cpu_counts, e);
        let rate = InterruptRate {
            interrupt_type: row.interrupt_type.clone(),
            description: row.description.clone(),
            per_cpu,
        };
        rows.push(rate);
        i = i + 1;
    }
    Ok(Delta { elapsed_ns: e, fields: rows })
}

/// An interrupt sample from its two captures: the first failed capture's error
/// if either failed, else the rates over the measured gap.
pub fn sample_interrupts(
    before: Result<Snapshot<Vec<InterruptDetails>>, MetricError>,
    after: Result<Snapshot<Vec<InterruptDetails>>, MetricError>,
) -> (r: Result<Delta<Vec<InterruptRate>>, MetricError>)
    ensures
        match captures_of(before, after) {
            Err(e) => r == Err::<Delta<Vec<InterruptRate>>, MetricError>(e),
            Ok((b, a)) => interrupt_delta_of(b, a, r),
        },
        after is Err ==> r is Err,
{
    match pair_captures(before, after) {
        Err(e) => Err(e),
        Ok((b, a)) => interrupt_delta(&b, &a),
    }
}

} // verus!
