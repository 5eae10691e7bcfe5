use vstd::prelude::*;
use crate::error::MetricError;
use crate::sampling::{
    captures_of, counter_rate, counter_rate_exec, elapsed_between, elapsed_exec, pair_captures, Delta,
    Snapshot,
};

verus! {

/// Cumulative counters of one network interface.
#[derive(Debug, Clone, PartialEq)]
pub struct NetDevStat {
    pub interface: String,
    pub rx_bytes: u64,
    pub rx_packets: u64,
    pub rx_errors: u64,
    pub rx_dropped: u64,
    pub tx_bytes: u64,
    pub tx_packets: u64,
    pub tx_errors: u64,
    pub tx_dropped: u64,
}

/// Per-second rates of one network interface over a sampling window.
#[derive(Debug, Clone, PartialEq)]
pub struct NetDevRate {
    pub interface: String,
    pub rx_bytes: u64,
    pub rx_packets: u64,
    pub rx_errors: u64,
    pub rx_dropped: u64,
    pub tx_bytes: u64,
    pub tx_packets: u64,
    pub tx_errors: u64,
    pub tx_dropped: u64,
}

/// Position of the last row of `b` for interface `name`, or -1.
pub open spec fn dev_index(b: Seq<NetDevStat>, name: Seq<char>) -> int
    decreases b.len(),
{
    if b.len() == 0 {
        -1
    } else if b.last().interface@ == name {
        b.len() - 1
    } else {
        dev_index(b.drop_last(), name)
    }
}

/// The earlier reading that row `a` is measured against: the row of the same
/// interface in `b`, or `a` itself for an interface that appeared meanwhile,
/// whose rates are then 0.
pub open spec fn baseline(b: Seq<NetDevStat>, a: NetDevStat) -> NetDevStat {
    let j = dev_index(b, a.interface@);
    if 0 <= j < b.len() {
        b[j]
    } else {
        a
    }
}

/// `r` holds the rates of interface row `a` measured against `b` over `e` nanoseconds.
pub open spec fn dev_rate_of(b: NetDevStat, a: NetDevStat, e: nat, r: NetDevRate) -> bool {
    &&& r.interface@ == a.interface@
    &&& r.rx_bytes == counter_rate(b.rx_bytes, a.rx_bytes, e)
    &&& r.rx_packets == counter_rate(b.rx_packets, a.rx_packets, e)
    &&& r.rx_errors == counter_rate(b.rx_errors, a.rx_errors, e)
    &&& r.rx_dropped == counter_rate(b.rx_dropped, a.rx_dropped, e)
    &&& r.tx_bytes == counter_rate(b.tx_bytes, a.tx_bytes, e)
    &&& r.tx_packets == counter_rate(b.tx_packets, a.tx_packets, e)
    &&& r.tx_errors == counter_rate(b.tx_errors, a.tx_errors, e)
    &&& r.tx_dropped == counter_rate(b.tx_dropped, a.tx_dropped, e)
}

/// `r` holds, for each interface of `a` in order, its rates against `b` over `e` nanoseconds.
pub open spec fn net_rates_of(
    b: Seq<NetDevStat>,
    a: Seq<NetDevStat>,
    e: nat,
    r: Seq<NetDevRate>,
) -> bool {
    &&& r.len() == a.len()
    &&& forall|i: int| 0 <= i < a.len() ==> dev_rate_of(baseline(b, a[i]), a[i], e, #[trigger] r[i])
}

/// What a network sample over `before` and `after` yields.
pub open spec fn net_delta_of(
    before: Snapshot<Vec<NetDevStat>>,
    after: Snapshot<Vec<NetDevStat>>,
    r: Result<Delta<Vec<NetDevRate>>, MetricError>,
) -> bool {
    match elapsed_between(before.captured_at_ns, after.captured_at_ns) {
        Err(e) => r == Err::<Delta<Vec<NetDevRate>>, MetricError>(e),
        Ok(e) => match r {
            Ok(d) => d.elapsed_ns == e && net_rates_of(
                before.payload@,
                after.payload@,
                e as nat,
                d.fields@,
            ),
            Err(_) => false,
        },
    }
}

/// Finds the last row of `b` for interface `name`.
fn find_dev(b: &Vec<NetDevStat>, name: &String) -> (r: Option<usize>)
    ensures
        match r {
            Some(j) => j == dev_index(b@, name@) && j < b@.len(),
            None => dev_index(b@, name@) == -1,
        },
{
    let mut found: Option<usize> = None;
    let mut i: usize = 0;
    while i < b.len()
        invariant
            i <= b@.len(),
            match found {
                Some(j) => j == dev_index(b@.subrange(0, i as int), name@) && j < i,
                None => dev_index(b@.subrange(0, i as int), name@) == -1,
            },
        decreases b@.len() - i,
    {
        assert(b@.subrange(0, i + 1).drop_last() == b@.subrange(0, i as int));
        if b[i].interface == *name {
            found = Some(i);
        }
        i = i + 1;
    }
    assert(b@.subrange(0, b@.len() as int) == b@);
    found
}

/// Rates of interface row `a` against `b` over `elapsed_ns`.
fn dev_rate(b: &NetDevStat, a: &NetDevStat, elapsed_ns: u64) -> (r: NetDevRate)
    requires
        elapsed_ns > 0,
    ensures
        dev_rate_of(*b, *a, elapsed_ns as nat, r),
{
    NetDevRate {
        interface: a.interface.clone(),
        rx_bytes: counter_rate_exec(b.rx_bytes, a.rx_bytes, elapsed_ns),
        rx_packets: counter_rate_exec(b.rx_packets, a.rx_packets, elapsed_ns),
        rx_errors: counter_rate_exec(b.rx_errors, a.rx_errors, elapsed_ns),
        rx_dropped: counter_rate_exec(b.rx_dropped, a.rx_dropped, elapsed_ns),
        tx_bytes: counter_rate_exec(b.tx_bytes, a.tx_bytes, elapsed_ns),
        tx_packets: counter_rate_exec(b.tx_packets, a.tx_packets, elapsed_ns),
        tx_errors: counter_rate_exec(b.tx_errors, a.tx_errors, elapsed_ns),
        tx_dropped: counter_rate_exec(b.tx_dropped, a.tx_dropped, elapsed_ns),
    }
}

/// Rates of every interface of `after` against `before` over `elapsed_ns`.
/// Interfaces are matched by name; one that `before` lacks has rates 0.
pub fn net_rates(before: &Vec<NetDevStat>, after: &Vec<NetDevStat>, elapsed_ns: u64) -> (r: Vec<
    NetDevRate,
>)
    requires
        elapsed_ns > 0,
    ensures
        net_rates_of(before@, after@, elapsed_ns as nat, r@),
{
    let mut r: Vec<NetDevRate> = Vec::new();
    let mut i: usize = 0;
    while i < after.len()
        invariant
            elapsed_ns > 0,
            i <= after@.len(),
            r@.len() == i,
            forall|k: int|
                0 <= k < i ==> dev_rate_of(
                    baseline(before@, after@[k]),
                    after@[k],
                    elapsed_ns as nat,
                    #[trigger] r@[k],
                ),
        decreases after@.len() - i,
    {
        let a = &after[i];
        let rate = match find_dev(before, &a.interface) {
            Some(j) => dev_rate(&before[j], a, elapsed_ns),
            None => dev_rate(a, a, elapsed_ns),
        };
        r.push(rate);
        i = i + 1;
    }
    r
}

/// Reduces two network snapshots to per-second rates over the measured gap
/// between them; `MeasurementError` where the clock did not advance.
pub fn network_delta(before: &Snapshot<Vec<NetDevStat>>, after: &Snapshot<Vec<NetDevStat>>) -> (r:
    Result<Delta<Vec<NetDevRate>>, MetricError>)
    ensures
        net_delta_of(*before, *after, r),
{
    match elapsed_exec(before.captured_at_ns, after.captured_at_ns) {
        Err(e) => Err(e),
        Ok(e) => Ok(
            Delta { elapsed_ns: e, fields: net_rates(&before.payload, &after.payload, e) },
        ),
    }
}

/// A network sample from its two captures: the first failed capture's error if
/// either failed, else the rates over the measured gap. No rates come out of a
/// sample whose `after` capture failed.
pub fn sample_network(
    before: Result<Snapshot<Vec<NetDevStat>>, MetricError>,
    after: Result<Snapshot<Vec<NetDevStat>>, MetricError>,
) -> (r: Result<Delta<Vec<NetDevRate>>, MetricError>)
    ensures
        match captures_of(before, after) {
            Err(e) => r == Err::<Delta<Vec<NetDevRate>>, MetricError>(e),
            Ok((b, a)) => net_delta_of(b, a, r),
        },
        after is Err ==> r is Err,
{
    match pair_captures(before, after) {
        Err(e) => Err(e),
        Ok((b, a)) => network_delta(&b, &a),
    }
}

} // verus!
