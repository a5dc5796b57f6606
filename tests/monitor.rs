use netproxy::models::TrafficStats;
use netproxy::monitor::{get_traffic_stats, sum_counters, CounterSnapshot, MonitorState, SpeedTracker};

fn snap(received: u64, transmitted: u64, taken_at_nanos: u128) -> CounterSnapshot {
    CounterSnapshot { received, transmitted, taken_at_nanos }
}

#[test]
fn rates_over_one_second() {
    let mut t = SpeedTracker::new(snap(1000, 500, 0));
    assert_eq!(t.observe(snap(3000, 1500, 1_000_000_000)), (1000, 2000));
    assert_eq!(t.baseline, snap(3000, 1500, 1_000_000_000));
}

#[test]
fn rates_over_two_and_a_half_seconds_round_down() {
    let mut t = SpeedTracker::new(snap(0, 0, 0));
    assert_eq!(t.observe(snap(1001, 10, 2_500_000_000)), (4, 400));
}

#[test]
fn early_reading_is_zero_and_keeps_baseline() {
    let base = snap(1000, 500, 0);
    let mut t = SpeedTracker::new(base);
    assert_eq!(t.observe(snap(2000, 900, 400_000_000)), (0, 0));
    assert_eq!(t.baseline, base);
    assert_eq!(t.observe(snap(3000, 1500, 1_000_000_000)), (1000, 2000));
}

#[test]
fn reading_at_exactly_half_a_second_counts() {
    let mut t = SpeedTracker::new(snap(0, 0, 0));
    assert_eq!(t.observe(snap(100, 50, 500_000_000)), (100, 200));
}

#[test]
fn counter_reset_gives_zero() {
    let mut t = SpeedTracker::new(snap(5000, 5000, 0));
    assert_eq!(t.observe(snap(100, 7000, 1_000_000_000)), (2000, 0));
    let mut t = SpeedTracker::new(snap(5000, 5000, 0));
    assert_eq!(t.observe(snap(6000, 10, 1_000_000_000)), (0, 1000));
}

#[test]
fn clock_going_back_gives_zero() {
    let base = snap(0, 0, 2_000_000_000);
    let mut t = SpeedTracker::new(base);
    assert_eq!(t.observe(snap(100, 100, 1_000_000_000)), (0, 0));
    assert_eq!(t.baseline, base);
}

#[test]
fn huge_growth_is_capped() {
    let mut t = SpeedTracker::new(snap(0, 0, 0));
    assert_eq!(t.observe(snap(u64::MAX, 0, 500_000_000)), (0, u64::MAX));
}

#[test]
fn sums_over_interfaces() {
    assert_eq!(sum_counters(&vec![]), 0);
    assert_eq!(sum_counters(&vec![10, 20, 30]), 60);
    assert_eq!(sum_counters(&vec![u64::MAX, 5]), u64::MAX);
    assert_eq!(sum_counters(&vec![u64::MAX - 1, 1]), u64::MAX);
}

#[test]
fn fresh_monitor_reports_no_rate_at_once() {
    let mut m = MonitorState::new();
    assert_eq!(m.get_speed(), (0, 0));
    let stats: TrafficStats = get_traffic_stats(&mut m);
    assert_eq!(stats.upload_speed, 0);
    assert_eq!(stats.download_speed, 0);
}
