use bim_core::ping::{
    capped_ping_fits, capped_ping_stats, http_ping_stats, http_ping_window, HttpPingStats, sort_samples, tcp_ping_fits,
    tcp_ping_stats, CappedPingStats, TcpPingStats,
};

#[test]
fn sort_orders_samples() {
    let v = vec![5u128, 3, 9, 3, 0, 7];
    assert_eq!(sort_samples(&v), vec![0u128, 3, 3, 5, 7, 9]);
    assert_eq!(sort_samples(&vec![]), Vec::<u128>::new());
}

#[test]
fn http_window_trims_one_each_end_of_ten() {
    let v: Vec<u128> = vec![900, 100, 800, 200, 700, 300, 600, 400, 500, 1000];
    assert_eq!(
        http_ping_window(&v),
        Some(vec![200u128, 300, 400, 500, 600, 700, 800, 900])
    );
}

#[test]
fn http_window_drops_lost_and_slow_replies() {
    // 0: no reply; 1_000_000 and above: too slow.
    let v: Vec<u128> = vec![0, 1_000_000, 2_000_000, 40, 30, 0, 20, 0, 0, 0];
    // Three kept replies: nothing trimmed.
    assert_eq!(http_ping_window(&v), Some(vec![20u128, 30, 40]));
}

#[test]
fn http_window_none_without_replies() {
    assert_eq!(http_ping_window(&vec![0u128; 10]), None);
    assert_eq!(http_ping_window(&vec![]), None);
}

#[test]
fn tcp_stats_of_ten_replies() {
    let raw: Vec<u128> = vec![100, 200, 300, 400, 500, 600, 700, 800, 900, 1000];
    assert!(tcp_ping_fits(&raw));
    // One dropped at each end: window 200..900, minimum 200.
    let expected_total: u128 = (200..=900).step_by(100).map(|p| p - 200).sum();
    assert_eq!(
        tcp_ping_stats(&raw),
        Some(TcpPingStats { min_micros: 200, jitter_total: expected_total, jitter_count: 8 })
    );
}

#[test]
fn tcp_stats_use_the_replies_only() {
    // Two replies among failed attempts: window [500, 700] (a tenth rounded
    // up would leave nothing, so both stay).
    let raw: Vec<u128> = vec![0, 500, 0, 0, 0, 0, 0, 0, 0, 700];
    assert_eq!(
        tcp_ping_stats(&raw),
        Some(TcpPingStats { min_micros: 500, jitter_total: 200, jitter_count: 2 })
    );
}

#[test]
fn tcp_stats_single_reply_after_a_failure() {
    let raw: Vec<u128> = vec![0, 5000, 0, 0, 0, 0, 0, 0, 0, 0];
    assert_eq!(
        tcp_ping_stats(&raw),
        Some(TcpPingStats { min_micros: 5000, jitter_total: 0, jitter_count: 1 })
    );
}

#[test]
fn tcp_stats_none_without_replies() {
    let raw = vec![0u128; 10];
    assert!(tcp_ping_fits(&raw));
    assert_eq!(tcp_ping_stats(&raw), None);
}

#[test]
fn tcp_fits_detects_overflow() {
    let raw: Vec<u128> = vec![1, u128::MAX, u128::MAX, u128::MAX, 1, 1, 1, 1, 1, 1];
    // Window after dropping one at each end still holds a maximal sample
    // and a one: two distances near u128::MAX overflow.
    assert!(!tcp_ping_fits(&raw));
}

#[test]
fn capped_stats() {
    let raw: Vec<u128> = vec![300, 0, 100, 200, 0, 400];
    assert!(capped_ping_fits(&raw));
    assert_eq!(
        capped_ping_stats(&raw),
        Some(CappedPingStats { min_micros: 100, jitter_total: 200 + 0 + 100 + 300 })
    );
}

#[test]
fn capped_minimum_is_at_most_ten_seconds() {
    let raw: Vec<u128> = vec![20_000_000, 0, 0, 0, 0, 0];
    assert_eq!(
        capped_ping_stats(&raw),
        Some(CappedPingStats { min_micros: 10_000_000, jitter_total: 10_000_000 })
    );
}

#[test]
fn capped_stats_none_without_replies() {
    assert_eq!(capped_ping_stats(&vec![0u128; 6]), None);
}

#[test]
fn capped_fits_detects_overflow() {
    let raw: Vec<u128> = vec![1, u128::MAX, u128::MAX, 0, 0, 0];
    assert!(!capped_ping_fits(&raw));
}

#[test]
fn http_stats_of_ten_replies() {
    let v: Vec<u128> = vec![900, 100, 800, 200, 700, 300, 600, 400, 500, 1000];
    // Window 200..900: latency 200, sum 4400, neighbour gaps 7 * 100.
    assert_eq!(
        http_ping_stats(&v),
        Some(HttpPingStats { latency_micros: 200, sum: 4400, gap_total: 700, count: 8 })
    );
}

#[test]
fn http_stats_single_reply() {
    let v: Vec<u128> = vec![0, 0, 3000, 0, 0, 0, 0, 0, 0, 0];
    assert_eq!(
        http_ping_stats(&v),
        Some(HttpPingStats { latency_micros: 3000, sum: 3000, gap_total: 0, count: 1 })
    );
    assert_eq!(http_ping_stats(&vec![0u128; 10]), None);
}
