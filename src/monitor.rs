//! Throughput of the machine's network interfaces.
//!
//! Rates come from two snapshots of the summed interface counters: the
//! difference of each counter over the time between them. Sampling is
//! driven by the caller; nothing runs in the background.
use crate::models::TrafficStats;
use vstd::multiset::Multiset;
use vstd::prelude::*;

verus! {

#[verifier::external_type_specification]
#[verifier::external_body]
pub struct ExNetworks(sysinfo::Networks);

#[verifier::external_type_specification]
#[verifier::external_body]
pub struct ExNetworkData(sysinfo::NetworkData);

#[verifier::external_type_specification]
#[verifier::external_body]
pub struct ExInstant(std::time::Instant);

/// Relies on sysinfo::Networks::new_with_refreshed_list: the interfaces of
/// the machine, with their counters read once.
#[verifier::external_body]
fn networks_with_list() -> (r: sysinfo::Networks) {
    sysinfo::Networks::new_with_refreshed_list()
}

/// Relies on sysinfo::Networks::refresh: reads the counters again.
#[verifier::external_body]
fn refresh_networks(networks: &mut sysinfo::Networks) {
    networks.refresh()
}

/// The cumulative received-byte counters of the interfaces that `networks`
/// holds, as last read.
pub uninterp spec fn received_of(networks: sysinfo::Networks) -> Multiset<u64>;

/// The cumulative transmitted-byte counters of the interfaces that
/// `networks` holds, as last read.
pub uninterp spec fn transmitted_of(networks: sysinfo::Networks) -> Multiset<u64>;

/// Relies on sysinfo::NetworkData::total_received: the cumulative bytes
/// received by each interface that `networks` holds, one entry each, in the
/// map's order.
#[verifier::external_body]
fn received_counters(networks: &sysinfo::Networks) -> (r: Vec<u64>)
    ensures
        r@.to_multiset() == received_of(*networks),
{
    networks.iter().map(|(_, data)| data.total_received()).collect()
}

/// Relies on sysinfo::NetworkData::total_transmitted: the cumulative bytes
/// transmitted by each interface that `networks` holds, one entry each, in
/// the map's order.
#[verifier::external_body]
fn transmitted_counters(networks: &sysinfo::Networks) -> (r: Vec<u64>)
    ensures
        r@.to_multiset() == transmitted_of(*networks),
{
    networks.iter().map(|(_, data)| data.total_transmitted()).collect()
}

/// Relies on std::time::Instant::now.
#[verifier::external_body]
fn instant_now() -> (r: std::time::Instant) {
    std::time::Instant::now()
}

/// Relies on std::time::Instant::elapsed: the nanoseconds since `origin`.
/// They depend on the clock, so nothing is stated of them.
#[verifier::external_body]
fn nanos_since(origin: &std::time::Instant) -> (r: u128) {
    origin.elapsed().as_nanos()
}

/// Shortest interval over which a rate is computed, in nanoseconds.
pub const MIN_INTERVAL_NANOS: u128 = 500_000_000;

/// Nanoseconds in one second.
pub const NANOS_PER_SECOND: u128 = 1_000_000_000;

/// Summed interface counters at one instant.
#[derive(Debug, Clone, Copy, PartialEq, Eq, Structural)]
pub struct CounterSnapshot {
    /// Bytes received over all interfaces.
    pub received: u64,
    /// Bytes transmitted over all interfaces.
    pub transmitted: u64,
    /// When the counters were read, in nanoseconds on the monitor's clock.
    pub taken_at_nanos: u128,
}

/// The growth of a counter; a counter that went down (an interface was
/// reset) has not grown.
pub open spec fn growth(before: u64, after: u64) -> nat {
    if after >= before {
        (after - before) as nat
    } else {
        0
    }
}

/// Bytes per second for `bytes` over `nanos` nanoseconds, rounded down and
/// capped at the largest `u64`.
pub open spec fn per_second(bytes: nat, nanos: nat) -> nat
    recommends
        nanos > 0,
{
    let r = bytes * NANOS_PER_SECOND as nat / nanos;
    if r > u64::MAX {
        u64::MAX as nat
    } else {
        r
    }
}

/// Time between two snapshots; none where the clock went back.
pub open spec fn interval(before: CounterSnapshot, after: CounterSnapshot) -> nat {
    if after.taken_at_nanos >= before.taken_at_nanos {
        (after.taken_at_nanos - before.taken_at_nanos) as nat
    } else {
        0
    }
}

/// Upload rate, download rate and the next baseline, for a reading of
/// `current` against `baseline`. Within the shortest interval the rates are
/// zero and the baseline stays.
pub open spec fn reading(baseline: CounterSnapshot, current: CounterSnapshot) -> (u64, u64, CounterSnapshot) {
    let nanos = interval(baseline, current);
    if nanos < MIN_INTERVAL_NANOS {
        (0, 0, baseline)
    } else {
        (
            per_second(growth(baseline.transmitted, current.transmitted), nanos) as u64,
            per_second(growth(baseline.received, current.received), nanos) as u64,
            current,
        )
    }
}

fn rate(before: u64, after: u64, nanos: u128) -> (r: u64)
    requires
        nanos >= MIN_INTERVAL_NANOS,
    ensures
        r == per_second(growth(before, after), nanos as nat),
{
    let delta = after.saturating_sub(before);
    assert(delta as nat == growth(before, after));
    assert((delta as u128) * NANOS_PER_SECOND <= 0xffff_ffff_ffff_ffffu128 * 1_000_000_000u128) by (nonlinear_arith)
        requires
            delta <= 0xffff_ffff_ffff_ffffu64,
    ;
    let scaled: u128 = (delta as u128) * NANOS_PER_SECOND;
    let r: u128 = scaled / nanos;
    if r > u64::MAX as u128 {
        u64::MAX
    } else {
        r as u64
    }
}

/// The rate computation: the last snapshot that a rate was computed from.
#[derive(Debug, Clone, Copy, PartialEq, Eq, Structural)]
pub struct SpeedTracker {
    pub baseline: CounterSnapshot,
}

impl SpeedTracker {
    /// A tracker whose first rates are measured from `baseline`.
    pub fn new(baseline: CounterSnapshot) -> (r: Self)
        ensures
            r.baseline == baseline,
    {
        SpeedTracker { baseline }
    }

    /// Upload and download rates, in bytes per second, from the baseline to
    /// `current`, which becomes the baseline. Within the shortest interval
    /// the rates are zero and the baseline stays as it was.
    pub fn observe(&mut self, current: CounterSnapshot) -> (r: (u64, u64))
        ensures
            (r.0, r.1, final(self).baseline) == reading(old(self).baseline, current),
    {
        let base = self.baseline;
        if current.taken_at_nanos < base.taken_at_nanos
            || current.taken_at_nanos - base.taken_at_nanos < MIN_INTERVAL_NANOS {
            return (0, 0);
        }
        let nanos = current.taken_at_nanos - base.taken_at_nanos;
        let up = rate(base.transmitted, current.transmitted, nanos);
        let down = rate(base.received, current.received, nanos);
        self.baseline = current;
        (up, down)
    }
}

/// A second reading within the shortest interval gives zero rates and
/// leaves the baseline, so that a later reading measures from the same
/// snapshot as if the early one had not been taken.
pub proof fn lemma_early_reading_keeps_baseline(baseline: CounterSnapshot, early: CounterSnapshot, later: CounterSnapshot)
    requires
        early.taken_at_nanos < baseline.taken_at_nanos + MIN_INTERVAL_NANOS,
    ensures
        reading(baseline, early) == (0u64, 0u64, baseline),
        reading(reading(baseline, early).2, later) == reading(baseline, later),
{
}

/// A counter that went down between two snapshots gives a rate of zero in
/// its direction, never a negative or wrapped one.
pub proof fn lemma_counter_reset_gives_zero(baseline: CounterSnapshot, current: CounterSnapshot)
    ensures
        current.received < baseline.received ==> reading(baseline, current).1 == 0,
        current.transmitted < baseline.transmitted ==> reading(baseline, current).0 == 0,
{
}

/// Sum of `counters`.
pub open spec fn sum(counters: Seq<u64>) -> nat
    decreases counters.len(),
{
    if counters.len() == 0 {
        0
    } else {
        (sum(counters.drop_last()) + counters.last()) as nat
    }
}

/// `n`, capped at the largest `u64`.
pub open spec fn capped(n: nat) -> u64 {
    if n > u64::MAX {
        u64::MAX
    } else {
        n as u64
    }
}

/// Per-interface counters summed, the sum capped at the largest `u64`.
pub fn sum_counters(counters: &Vec<u64>) -> (r: u64)
    ensures
        r == capped(sum(counters@)),
{
    let mut total: u64 = 0;
    let mut i: usize = 0;
    while i < counters.len()
        invariant
            i <= counters@.len(),
            total == capped(sum(counters@.subrange(0, i as int))),
        decreases counters@.len() - i,
    {
        proof {
            let next = counters@.subrange(0, i as int + 1);
            assert(next.drop_last() =~= counters@.subrange(0, i as int));
        }
        total = total.saturating_add(counters[i]);
        i = i + 1;
    }
    assert(counters@.subrange(0, counters@.len() as int) =~= counters@);
    total
}

/// `total` is the sum of `counters`, capped at the largest `u64` (taken in
/// any order: a sum does not depend on it).
pub open spec fn is_capped_total(total: u64, counters: Multiset<u64>) -> bool {
    exists|s: Seq<u64>| s.to_multiset() == counters && total == capped(sum(s))
}

/// The traffic monitor: the machine's interfaces, the clock, and the
/// baseline of the rate computation.
pub struct MonitorState {
    networks: sysinfo::Networks,
    origin: std::time::Instant,
    tracker: SpeedTracker,
}

impl View for MonitorState {
    type V = CounterSnapshot;

    /// The baseline of the rate computation.
    closed spec fn view(&self) -> CounterSnapshot {
        self.tracker.baseline
    }
}

impl MonitorState {
    /// Received-byte counters of the interfaces, as last read.
    pub closed spec fn received_held(&self) -> Multiset<u64> {
        received_of(self.networks)
    }

    /// Transmitted-byte counters of the interfaces, as last read.
    pub closed spec fn transmitted_held(&self) -> Multiset<u64> {
        transmitted_of(self.networks)
    }

    /// The summed counters as last read, stamped `taken_at_nanos`.
    fn snapshot(&self, taken_at_nanos: u128) -> (r: CounterSnapshot)
        ensures
            r.taken_at_nanos == taken_at_nanos,
            is_capped_total(r.received, self.received_held()),
            is_capped_total(r.transmitted, self.transmitted_held()),
    {
        let received = received_counters(&self.networks);
        let transmitted = transmitted_counters(&self.networks);
        let r = CounterSnapshot {
            received: sum_counters(&received),
            transmitted: sum_counters(&transmitted),
            taken_at_nanos,
        };
        assert(received@.to_multiset() == self.received_held() && r.received == capped(sum(received@)));
        assert(transmitted@.to_multiset() == self.transmitted_held() && r.transmitted == capped(sum(transmitted@)));
        r
    }

    /// A monitor whose baseline is the counters read now.
    pub fn new() -> (r: Self)
        ensures
            r@.taken_at_nanos == 0,
            is_capped_total(r@.received, r.received_held()),
            is_capped_total(r@.transmitted, r.transmitted_held()),
    {
        let networks = networks_with_list();
        let origin = instant_now();
        let mut r = MonitorState {
            networks,
            origin,
            tracker: SpeedTracker::new(CounterSnapshot { received: 0, transmitted: 0, taken_at_nanos: 0 }),
        };
        let baseline = r.snapshot(0);
        r.tracker = SpeedTracker::new(baseline);
        r
    }

    /// Reads the counters again and measures the rates against the
    /// baseline; returns the rates and the summed counters just read.
    fn sample(&mut self) -> (r: ((u64, u64), CounterSnapshot))
        ensures
            is_capped_total(r.1.received, final(self).received_held()),
            is_capped_total(r.1.transmitted, final(self).transmitted_held()),
            reading(old(self)@, r.1) == (r.0.0, r.0.1, final(self)@),
    {
        refresh_networks(&mut self.networks);
        let taken_at_nanos = nanos_since(&self.origin);
        let current = self.snapshot(taken_at_nanos);
        let rates = self.tracker.observe(current);
        (rates, current)
    }

    /// Upload and download rates since the baseline, in bytes per second,
    /// from counters read now (see `SpeedTracker::observe`).
    pub fn get_speed(&mut self) -> (r: (u64, u64))
        ensures
            exists|current: CounterSnapshot|
                is_capped_total(current.received, final(self).received_held())
                && is_capped_total(current.transmitted, final(self).transmitted_held())
                && reading(old(self)@, current) == (r.0, r.1, final(self)@),
    {
        let (rates, current) = self.sample();
        rates
    }

    /// Upload and download bytes since the interfaces came up: the
    /// transmitted and the received counters summed over all interfaces as
    /// last read. The baseline is not consulted.
    pub fn get_totals(&self) -> (r: (u64, u64))
        ensures
            is_capped_total(r.0, self.transmitted_held()),
            is_capped_total(r.1, self.received_held()),
    {
        let current = self.snapshot(0);
        (current.transmitted, current.received)
    }
}

/// Current rates and totals from one reading of the counters. The rates
/// advance the monitor's baseline as `MonitorState::get_speed` does; the
/// totals are the summed counters of that reading, upload first.
pub fn get_traffic_stats(monitor: &mut MonitorState) -> (r: TrafficStats)
    ensures
        exists|current: CounterSnapshot|
            is_capped_total(current.received, final(monitor).received_held())
            && is_capped_total(current.transmitted, final(monitor).transmitted_held())
            && reading(old(monitor)@, current) == (r.upload_speed, r.download_speed, final(monitor)@)
            && r.upload_total == current.transmitted && r.download_total == current.received,
{
    let ((upload_speed, download_speed), current) = monitor.sample();
    TrafficStats {
        upload_speed,
        download_speed,
        upload_total: current.transmitted,
        download_total: current.received,
    }
}

} // verus!
