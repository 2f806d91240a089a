use bim_core::counter::{LoadCounter, StreamStatus, Throughput};

fn counter_with(totals: &[u64]) -> LoadCounter {
    let mut c = LoadCounter::new(0);
    let mut prev = 0u64;
    for (i, t) in totals.iter().enumerate() {
        c.increase(t.wrapping_sub(prev));
        prev = *t;
        c.count((i as u128 + 1) * 500_000);
    }
    c
}

#[test]
fn new_counter_is_empty() {
    let c = LoadCounter::new(4);
    assert!(!c.is_end());
    assert!(c.results().is_empty());
    assert_eq!(c.stream_status(), StreamStatus::NoData);
    assert_eq!(c.status(), "无数据");
    assert_eq!(c.throughput(), Throughput::Idle);
}

#[test]
fn count_records_the_running_total() {
    let mut c = LoadCounter::new(1);
    c.increase(100);
    c.increase(50);
    c.count(500_000);
    c.increase(25);
    c.count(1_000_000);
    assert_eq!(c.results(), &vec![(150u64, 500_000u128), (175, 1_000_000)]);
}

#[test]
fn increase_wraps_like_an_atomic_add() {
    let mut c = LoadCounter::new(1);
    c.increase(u64::MAX);
    c.increase(2);
    c.count(1);
    assert_eq!(c.results()[0].0, 1);
}

#[test]
fn end_is_sticky() {
    let mut c = LoadCounter::new(1);
    assert!(!c.is_end());
    c.end();
    assert!(c.is_end());
    c.increase(10);
    assert!(c.is_end());
}

#[test]
fn wait_passes_when_alone() {
    let c = LoadCounter::new(0);
    c.wait();
}

#[test]
fn growing_stream_is_normal() {
    let c = counter_with(&[10, 20, 30, 40, 50, 60, 70, 80]);
    assert_eq!(c.status(), "正常");
}

#[test]
fn settled_stream_is_normal_despite_stalls() {
    // Many stalls, but the last three totals are equal: the transfer finished.
    let c = counter_with(&[0, 0, 0, 0, 0, 0, 0, 10, 20, 20, 20]);
    assert_eq!(c.stream_status(), StreamStatus::Normal);
}

#[test]
fn stalling_stream_is_interrupted() {
    // Six stalls (the first sample compares with zero), not settled at the end.
    let c = counter_with(&[0, 0, 0, 5, 5, 5, 5, 9, 12]);
    assert_eq!(c.stream_status(), StreamStatus::Interrupted);
    assert_eq!(c.status(), "断流");
}

#[test]
fn five_stalls_are_still_normal() {
    let c = counter_with(&[0, 0, 0, 5, 5, 5, 9, 12]);
    assert_eq!(c.status(), "正常");
}

#[test]
fn zero_tail_counts_as_settled() {
    // Nothing ever moved: nine stalls, but the tail is settled.
    let c = counter_with(&[0, 0, 0, 0, 0, 0, 0, 0, 0]);
    assert_eq!(c.stream_status(), StreamStatus::Normal);
}

#[test]
fn throughput_needs_two_samples() {
    let c = counter_with(&[100]);
    assert_eq!(c.throughput(), Throughput::Idle);
}

#[test]
fn throughput_over_all_samples_when_few() {
    let c = counter_with(&[100, 300, 700]);
    assert_eq!(c.throughput(), Throughput::Rate { bytes: 600, micros: 1_000_000 });
}

#[test]
fn throughput_over_last_ten_samples() {
    let totals: Vec<u64> = (1..=15).map(|i| i * 1000).collect();
    let c = counter_with(&totals);
    // Samples 6..15 (indices 5..14): 6000 -> 15000 over 9 intervals of 0.5 s.
    assert_eq!(c.throughput(), Throughput::Rate { bytes: 9000, micros: 4_500_000 });
}

#[test]
fn throughput_idle_when_nothing_moved() {
    let c = counter_with(&[500, 500, 500]);
    assert_eq!(c.throughput(), Throughput::Idle);
}

#[test]
fn throughput_idle_when_total_went_down() {
    // A wrapped total compares lower: saturating difference is zero.
    let mut c = LoadCounter::new(0);
    c.increase(1000);
    c.count(1);
    c.increase(u64::MAX - 100);
    c.count(2);
    assert_eq!(c.throughput(), Throughput::Idle);
}

#[test]
fn throughput_idle_when_no_time_passed() {
    let mut c = LoadCounter::new(0);
    c.increase(10);
    c.count(7);
    c.increase(10);
    c.count(7);
    assert_eq!(c.throughput(), Throughput::Idle);
}
