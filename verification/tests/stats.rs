use aa_player::gpui_video::stats::{
    bucket_of, on_time_pct, percentile, ProfileStats, Snapshot, HIST_LEN, INTERVAL_BUCKETS_MS,
};
use aa_player::time::Instant;

fn hist_of(pairs: &[(usize, u64)]) -> [u64; HIST_LEN] {
    let mut h = [0u64; HIST_LEN];
    for &(i, c) in pairs {
        h[i] = c;
    }
    h
}

#[test]
fn percentile_returns_bucket_upper_bound() {
    let h = hist_of(&[(3, 100)]);
    assert_eq!(percentile(&h, 100, 99), 35);
}

#[test]
fn percentile_detects_tail() {
    let h = hist_of(&[(3, 99), (HIST_LEN - 1, 1)]);
    assert_eq!(percentile(&h, 100, 99), 35);
    assert_eq!(percentile(&h, 100, 100), 999);
}

#[test]
fn percentile_handles_empty() {
    assert_eq!(percentile(&[0u64; HIST_LEN], 0, 99), 0);
}

#[test]
fn on_time_counts_nominal_buckets() {
    let h = hist_of(&[(1, 6), (2, 15), (3, 14), (4, 16), (5, 7), (6, 1)]);
    assert_eq!(on_time_pct(&h, 59), 98);
}

#[test]
fn steady_state_playback_is_not_janky() {
    let s = Snapshot {
        decoded_fps: 30,
        displayed_fps: 30,
        avg_decode_us: 600,
        avg_interval_ms: 32,
        p99_interval_ms: 42,
        max_interval_ms: 41,
        on_time_pct: 98,
        hist: hist_of(&[(1, 6), (2, 15), (3, 14), (4, 16), (5, 7)]),
        av_sync_mean_ms: 3,
        av_sync_rms_ms: 4,
        av_sync_max_lag_ms: 9,
        av_sync_max_lead_ms: 8,
        av_sync_bad_pct: 0,
    };
    assert!(!s.is_janky());
}

#[test]
fn jank_detected_by_dropped_frame() {
    let mut s = Snapshot {
        decoded_fps: 30,
        displayed_fps: 30,
        avg_decode_us: 4000,
        avg_interval_ms: 33,
        p99_interval_ms: 38,
        max_interval_ms: 36,
        on_time_pct: 100,
        hist: [0; HIST_LEN],
        av_sync_mean_ms: 0,
        av_sync_rms_ms: 0,
        av_sync_max_lag_ms: 0,
        av_sync_max_lead_ms: 0,
        av_sync_bad_pct: 0,
    };
    assert!(!s.is_janky());
    s.max_interval_ms = 70;
    assert!(s.is_janky());
}

#[test]
fn jank_detected_by_low_on_time_rate() {
    let s = Snapshot {
        decoded_fps: 30,
        displayed_fps: 30,
        avg_decode_us: 4000,
        avg_interval_ms: 33,
        p99_interval_ms: 42,
        max_interval_ms: 50,
        on_time_pct: 80,
        hist: [0; HIST_LEN],
        av_sync_mean_ms: 0,
        av_sync_rms_ms: 0,
        av_sync_max_lag_ms: 0,
        av_sync_max_lead_ms: 0,
        av_sync_bad_pct: 0,
    };
    assert!(s.is_janky());
}

#[test]
fn minor_jitter_is_not_jank() {
    let s = Snapshot {
        decoded_fps: 30,
        displayed_fps: 30,
        avg_decode_us: 4000,
        avg_interval_ms: 32,
        p99_interval_ms: 42,
        max_interval_ms: 39,
        on_time_pct: 98,
        hist: [0; HIST_LEN],
        av_sync_mean_ms: 0,
        av_sync_rms_ms: 0,
        av_sync_max_lag_ms: 0,
        av_sync_max_lead_ms: 0,
        av_sync_bad_pct: 0,
    };
    assert!(!s.is_janky());
}

#[test]
fn av_sync_zero_when_no_drift() {
    let mut stats = ProfileStats::default();
    for _ in 0..100 {
        stats.record_av_sync(0);
    }
    let snap = stats.take_snapshot(2);
    assert_eq!(snap.av_sync_mean_ms, 0);
    assert_eq!(snap.av_sync_rms_ms, 0);
    assert_eq!(snap.av_sync_bad_pct, 0);
    assert!(!snap.is_av_out_of_sync());
}

#[test]
fn av_sync_tolerates_occasional_spike() {
    let mut stats = ProfileStats::default();
    for _ in 0..99 {
        stats.record_av_sync(1_000);
    }
    stats.record_av_sync(60_000);
    let snap = stats.take_snapshot(2);
    assert_eq!(snap.av_sync_bad_pct, 1);
    assert!(!snap.is_av_out_of_sync());
}

#[test]
fn av_sync_flags_systematic_lag() {
    let mut stats = ProfileStats::default();
    for _ in 0..50 {
        stats.record_av_sync(50_000);
    }
    let snap = stats.take_snapshot(2);
    assert!(snap.av_sync_bad_pct > 10);
    assert!(snap.is_av_out_of_sync());
}

#[test]
fn av_sync_reports_lag_direction() {
    let mut stats = ProfileStats::default();
    for _ in 0..10 {
        stats.record_av_sync(20_000);
    }
    let snap = stats.take_snapshot(2);
    assert!(snap.av_sync_mean_ms > 0);
    assert!(snap.av_sync_max_lag_ms >= 20);
    assert_eq!(snap.av_sync_max_lead_ms, 0);
}

#[test]
fn av_sync_flags_extreme_single_frame() {
    let mut stats = ProfileStats::default();
    stats.record_av_sync(150_000);
    let snap = stats.take_snapshot(2);
    assert!(snap.is_av_out_of_sync());
}

#[test]
fn snapshot_computes_rates_over_window() {
    let mut stats = ProfileStats::default();
    for _ in 0..60 {
        stats.record_decoded(5_000);
    }
    let snap = stats.take_snapshot(2);
    assert_eq!(snap.decoded_fps, 30);
    assert_eq!(snap.avg_decode_us, 5_000);

    let snap2 = stats.take_snapshot(2);
    assert_eq!(snap2.decoded_fps, 0);
}

#[test]
fn lead_gives_a_negative_mean() {
    let mut stats = ProfileStats::default();
    for _ in 0..4 {
        stats.record_av_sync(-12_500);
    }
    let snap = stats.take_snapshot(2);
    assert_eq!(snap.av_sync_mean_ms, -12);
    assert_eq!(snap.av_sync_rms_ms, 12);
    assert_eq!(snap.av_sync_max_lead_ms, 12);
    assert_eq!(snap.av_sync_max_lag_ms, 0);
}

#[test]
fn opposite_drifts_cancel_in_the_mean_only() {
    let mut stats = ProfileStats::default();
    for _ in 0..8 {
        stats.record_av_sync(30_000);
        stats.record_av_sync(-30_000);
    }
    let snap = stats.take_snapshot(2);
    assert_eq!(snap.av_sync_mean_ms, 0);
    assert_eq!(snap.av_sync_rms_ms, 30);
}

#[test]
fn root_mean_square_is_cut_off() {
    let mut stats = ProfileStats::default();
    stats.record_av_sync(3_000);
    stats.record_av_sync(4_000);
    // The root of 12.5 is 3.53.
    assert_eq!(stats.take_snapshot(2).av_sync_rms_ms, 3);
}

#[test]
fn tolerance_is_in_whole_milliseconds() {
    let mut stats = ProfileStats::default();
    stats.record_av_sync(40_999);
    stats.record_av_sync(-40_999);
    assert_eq!(stats.av_sync_out_of_range, 0);
    stats.record_av_sync(41_000);
    stats.record_av_sync(-41_000);
    assert_eq!(stats.av_sync_out_of_range, 2);
}

#[test]
fn gaps_go_into_their_buckets() {
    for (ms, bucket) in [
        (0, 0),
        (19, 0),
        (20, 1),
        (28, 2),
        (33, 3),
        (35, 4),
        (41, 5),
        (42, 6),
        (65, 7),
        (99, 8),
        (100, 9),
        (5_000, 9),
    ] {
        assert_eq!(bucket_of(ms), bucket, "{ms}ms");
    }
    assert_eq!(INTERVAL_BUCKETS_MS.len() + 1, HIST_LEN);
}

#[test]
fn displayed_pictures_are_measured() {
    let mut stats = ProfileStats::default();
    stats.record_displayed_at(Instant::at_nanos(0));
    stats.record_displayed_at(Instant::at_nanos(33_900_000));
    stats.record_displayed_at(Instant::at_nanos(133_900_000));
    let snap = stats.take_snapshot(1);
    assert_eq!(snap.displayed_fps, 3);
    assert_eq!(snap.hist, hist_of(&[(3, 1), (9, 1)]));
    assert_eq!(snap.max_interval_ms, 100);
    assert_eq!(snap.avg_interval_ms, 66);
    assert_eq!(snap.on_time_pct, 50);
    assert_eq!(snap.p99_interval_ms, 999);
    // The last picture is remembered over the snapshot.
    stats.record_displayed_at(Instant::at_nanos(153_900_000));
    assert_eq!(stats.take_snapshot(0).max_interval_ms, 20);
}

#[test]
fn running_clock_measures_too() {
    let mut stats = ProfileStats::new();
    stats.record_displayed();
    stats.record_displayed();
    let snap = stats.take_snapshot(1);
    assert_eq!(snap.displayed_fps, 2);
    assert_eq!(snap.hist.iter().sum::<u64>(), 1);
}

#[test]
fn higher_percentiles_are_not_lower() {
    let h = hist_of(&[(0, 5), (3, 50), (6, 40), (8, 5)]);
    let mut last = 0;
    for pct in 0..=100 {
        let ms = percentile(&h, 100, pct);
        assert!(ms >= last);
        last = ms;
    }
    assert_eq!(percentile(&h, 100, 5), 20);
    assert_eq!(percentile(&h, 100, 6), 35);
    assert_eq!(percentile(&h, 100, 95), 50);
    assert_eq!(percentile(&h, 100, 96), 100);
}

#[test]
fn decoding_is_counted_among_everything_else() {
    let at = |ms: u64| Instant::at_nanos(ms * 1_000_000);
    let mut mixed = ProfileStats::new();
    let mut apart = ProfileStats::new();
    for us in [100, 250, 400] {
        mixed.record_decoded(us);
        mixed.record_av_sync(-45_000);
        mixed.record_displayed_at(at(us));
        apart.record_av_sync(-45_000);
        apart.record_displayed_at(at(us));
    }
    // The pictures in another order, and one more of them.
    for us in [7, 400, 100, 250] {
        apart.record_decoded(us);
    }
    let a = mixed.take_snapshot(0);
    let b = apart.take_snapshot(2);
    assert_eq!((a.decoded_fps, a.avg_decode_us), (3, 250));
    assert_eq!((b.decoded_fps, b.avg_decode_us), (2, 757 / 4));
    assert_eq!(a.hist, b.hist);
    assert_eq!(a.max_interval_ms, b.max_interval_ms);
    assert_eq!(a.av_sync_mean_ms, b.av_sync_mean_ms);
    assert_eq!(a.av_sync_bad_pct, b.av_sync_bad_pct);
}

#[test]
fn figures_of_a_snapshot_fit_together() {
    let mut stats = ProfileStats::new();
    let mut now = 0;
    for round in 0..4u64 {
        for i in 0..50u64 {
            now += (i * i * 7 + round * 13) % 130;
            stats.record_displayed_at(Instant::at_nanos(now * 1_000_000));
            stats.record_av_sync((i as i64 - 20) * 4_000);
        }
        let s = stats.take_snapshot(round);
        assert!(s.on_time_pct <= 100 && s.av_sync_bad_pct <= 100);
        assert!(s.avg_interval_ms <= s.max_interval_ms);
        assert!(s.av_sync_rms_ms <= s.av_sync_max_lag_ms.max(s.av_sync_max_lead_ms));
        assert!(s.p99_interval_ms == 999 || INTERVAL_BUCKETS_MS.contains(&s.p99_interval_ms));
    }
}

#[test]
fn snapshot_leaves_nothing_behind() {
    let mut stats = ProfileStats::new();
    stats.record_decoded(10);
    stats.record_displayed_at(Instant::at_nanos(0));
    stats.record_displayed_at(Instant::at_nanos(33_000_000));
    stats.record_av_sync(90_000);
    stats.record_av_sync(-90_000);
    let first = stats.take_snapshot(1);
    assert_eq!(first.on_time_pct, 100);
    let empty = stats.take_snapshot(1);
    assert_eq!(empty.hist, hist_of(&[]));
    assert_eq!(
        (empty.on_time_pct, empty.p99_interval_ms, empty.max_interval_ms),
        (0, 0, 0)
    );
    assert_eq!(
        (empty.av_sync_max_lag_ms, empty.av_sync_max_lead_ms),
        (0, 0)
    );
    assert_eq!(empty.av_sync_rms_ms, 0);
}
