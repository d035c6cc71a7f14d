use aa_player::gpui_video::playback_clock::Schedule;
use aa_player::player_app::playback::{
    drain_audio, drift_of, must_wait, Action, AudioClockSource, Decoded, DecodeThread,
    PlaybackClock, RenderLoop, DROP_THRESHOLD_MS, RESYNC_THRESHOLD_MS,
};
use aa_player::player_app::stats::{on_time_pct, percentile, ProfileStats, Snapshot, HIST_LEN};
use aa_player::player_app::view::{key_of, showing, Key, PlaybackCommand, PlayerView, Showing};
use aa_player::player_core::audio_output::AudioClock;
use aa_player::time::{Duration, Instant};

fn hist_of(pairs: &[(usize, u64)]) -> [u64; HIST_LEN] {
    let mut h = [0u64; HIST_LEN];
    for &(i, c) in pairs {
        h[i] = c;
    }
    h
}

fn fake_clock(ms: u64) -> AudioClock {
    AudioClock::for_test(Duration::from_millis(ms), true)
}

fn fake_clock_unstarted(ms: u64) -> AudioClock {
    AudioClock::for_test(Duration::from_millis(ms), false)
}

#[test]
fn playback_clock_waits_for_future_frame() {
    let mut clock = PlaybackClock::new();
    assert!(matches!(clock.schedule(Duration::zero()), Schedule::Now));
    match clock.schedule(Duration::from_secs(1)) {
        Schedule::Wait(d) => {
            assert!(
                d > Duration::from_millis(900) && d <= Duration::from_secs(1),
                "expected a wait of about 1s, got {d:?}"
            );
        }
        _ => panic!("a future frame has to wait"),
    }
}

#[test]
fn clock_calibrates_origin_from_nonzero_first_pts() {
    let mut clock = PlaybackClock::new();
    let first = clock.schedule(Duration::from_secs(5));
    assert!(matches!(first, Schedule::Now));
}

#[test]
fn clock_resyncs_when_far_behind() {
    let mut clock = PlaybackClock::new();
    clock.schedule(Duration::zero());
    clock.origin = Some(clock.now().minus(Duration::from_secs(10)));

    match clock.schedule(Duration::from_millis(100)) {
        Schedule::Resynced { behind } => {
            assert!(behind > Duration::from_millis(RESYNC_THRESHOLD_MS));
        }
        _ => panic!("too far behind has to resync"),
    }

    assert!(matches!(
        clock.schedule(Duration::from_millis(100)),
        Schedule::Now
    ));
}

#[test]
fn clock_tolerates_small_lag_without_resync() {
    let mut clock = PlaybackClock::new();
    clock.schedule(Duration::zero());
    clock.origin = Some(clock.now().minus(Duration::from_millis(50)));
    assert!(matches!(clock.schedule(Duration::zero()), Schedule::Now));
}

#[test]
fn audio_clock_waits_for_future_frame() {
    let mut clock = PlaybackClock::with_audio(fake_clock(0));
    match clock.schedule(Duration::from_millis(500)) {
        Schedule::Wait(d) => assert!(d > Duration::from_millis(400)),
        _ => panic!("a future frame has to wait"),
    }
    assert!(matches!(
        PlaybackClock::with_audio(fake_clock(500)).schedule(Duration::from_millis(500)),
        Schedule::Now
    ));
}

#[test]
fn audio_clock_drops_frame_when_far_behind() {
    let mut clock = PlaybackClock::with_audio(fake_clock(5000));
    match clock.schedule(Duration::from_millis(100)) {
        Schedule::Drop { behind } => {
            assert!(
                behind > Duration::from_millis(DROP_THRESHOLD_MS),
                "{behind:?}"
            );
        }
        other => panic!("far behind the sound has to drop, got {other:?}"),
    }
}

#[test]
fn audio_clock_shows_frame_within_drop_tolerance() {
    let mut clock = PlaybackClock::with_audio(fake_clock(150));
    assert!(matches!(
        clock.schedule(Duration::from_millis(100)),
        Schedule::Now
    ));
}

#[test]
fn audio_clock_ignored_before_it_starts() {
    let mut clock = PlaybackClock::with_audio(fake_clock_unstarted(0));
    assert!(matches!(clock.schedule(Duration::zero()), Schedule::Now));
}

#[test]
fn stats_percentile_returns_bucket_upper_bound() {
    let h = hist_of(&[(3, 100)]);
    assert_eq!(percentile(&h, 100, 99), 35);
}

#[test]
fn stats_percentile_detects_tail() {
    let h = hist_of(&[(3, 99), (HIST_LEN - 1, 1)]);
    assert_eq!(percentile(&h, 100, 99), 35);
    assert_eq!(percentile(&h, 100, 100), 999);
}

#[test]
fn stats_percentile_handles_empty() {
    assert_eq!(percentile(&[0u64; HIST_LEN], 0, 99), 0);
}

#[test]
fn stats_on_time_counts_nominal_buckets() {
    let h = hist_of(&[(2, 10), (3, 70), (4, 10), (7, 10)]);
    assert_eq!(on_time_pct(&h, 100), 90);
}

#[test]
fn stats_jank_detected_by_dropped_frame() {
    let mut s = Snapshot {
        decoded_fps: 30,
        displayed_fps: 30,
        avg_decode_us: 4000,
        avg_interval_ms: 33,
        p99_interval_ms: 38,
        max_interval_ms: 36,
        on_time_pct: 100,
        hist: [0; HIST_LEN],
    };
    assert!(!s.is_janky());
    s.max_interval_ms = 70;
    assert!(s.is_janky());
}

#[test]
fn stats_jank_detected_by_low_on_time_rate() {
    let s = Snapshot {
        decoded_fps: 30,
        displayed_fps: 30,
        avg_decode_us: 4000,
        avg_interval_ms: 33,
        p99_interval_ms: 42,
        max_interval_ms: 50,
        on_time_pct: 80,
        hist: [0; HIST_LEN],
    };
    assert!(s.is_janky());
}

#[test]
fn stats_minor_jitter_is_not_jank() {
    let s = Snapshot {
        decoded_fps: 30,
        displayed_fps: 30,
        avg_decode_us: 4000,
        avg_interval_ms: 32,
        p99_interval_ms: 42,
        max_interval_ms: 39,
        on_time_pct: 98,
        hist: [0; HIST_LEN],
    };
    assert!(!s.is_janky());
}

#[test]
fn stats_snapshot_computes_rates_over_window() {
    let mut stats = ProfileStats::default();
    for _ in 0..60 {
        stats.record_decoded(5_000);
    }
    let snap = stats.take_snapshot(2);
    assert_eq!(snap.decoded_fps, 30);
    assert_eq!(snap.avg_decode_us, 5_000);

    let snap2 = stats.take_snapshot(2);
    assert_eq!(snap2.decoded_fps, 0);
}

#[test]
fn gaps_of_the_simple_pipeline_are_measured() {
    let mut stats = ProfileStats::new();
    stats.record_displayed_at(Instant::at_nanos(0));
    stats.record_displayed_at(Instant::at_nanos(30_000_000));
    stats.record_displayed_at(Instant::at_nanos(55_000_000));
    stats.record_displayed();
    let snap = stats.take_snapshot(1);
    assert_eq!(snap.displayed_fps, 4);
    assert_eq!(snap.hist[2], 1);
    assert_eq!(snap.hist[1], 1);
}

#[test]
fn only_the_first_clock_counts() {
    let mut source = AudioClockSource::default();
    assert_eq!(source.get(), None);
    source.attach(fake_clock(1));
    source.attach(fake_clock(2));
    assert_eq!(source.get(), Some(fake_clock(1)));
    assert_eq!(source.get_with_generation(), (1, 0, Some(fake_clock(1))));
}

#[test]
fn only_clock_goes_on() {
    let mut source = AudioClockSource::new();
    source.refresh(fake_clock(5));
    assert_eq!(source.get_with_generation(), (0, 0, None));
    source.attach(fake_clock_unstarted(0));
    source.refresh(fake_clock(20));
    assert_eq!(source.get(), Some(fake_clock(20)));
    source.refresh(fake_clock(40));
    assert_eq!(source.get_with_generation(), (1, 0, Some(fake_clock(40))));
}

#[test]
fn window_follows_the_clock_and_its_offset() {
    let at = |ms: u64| Instant::at_nanos(ms * 1_000_000);
    let d = Duration::from_millis;
    let mut l = RenderLoop::new();
    // The wall clock leads before the card plays, and its zero outlives a new clock.
    l.update(0, 0, None);
    assert_eq!(l.on_item(&Some((1, 0)), at(1_000)), Some(Schedule::Now));
    l.update(1, 0, Some(fake_clock_unstarted(0)));
    assert_eq!(l.clock.origin, Some(at(1_000)));
    assert_eq!(l.on_item(&Some((1, 40_000)), at(1_010)), Some(Schedule::Wait(d(30))));
    // Read again under the same number, the card leads.
    l.update(1, 0, Some(fake_clock(100)));
    assert_eq!(l.on_item(&Some((1, 140_000)), at(9_000)), Some(Schedule::Wait(d(40))));
    // The offset of a seek moves the place of the sound, both ways.
    l.update(2, 2_000_000, Some(fake_clock(100)));
    assert_eq!(l.on_item(&Some((1, 2_140_000)), at(9_000)), Some(Schedule::Wait(d(40))));
    assert_eq!(
        l.on_item(&Some((1, 1_000_000)), at(9_000)),
        Some(Schedule::Drop { behind: d(1_100) })
    );
    l.update(2, -500_000, Some(fake_clock(100)));
    assert_eq!(l.on_item(&Some((1, 10_000)), at(9_000)), Some(Schedule::Wait(d(10))));
    assert_eq!(l.clock.origin, Some(at(1_000)));
    assert_eq!(l.audio_generation, 2);
    // A look that finds no clock changes nothing but the offset.
    l.update(2, 0, None);
    assert_eq!(l.clock.audio, Some(fake_clock(100)));
    assert_eq!(l.on_item(&None::<(u8, u64)>, at(9_000)), None);
    // A picture that is shown too late lags behind the sound.
    assert_eq!(drift_of(&Some((1, 60_000)), Some(fake_clock(100))), Some(40_000));
    assert_eq!(drift_of(&Some((1, 160_000)), Some(fake_clock(100))), Some(-60_000));
    assert_eq!(drift_of(&Some((1, 60_000)), None), None);
    assert_eq!(drift_of(&None::<(u8, u64)>, Some(fake_clock(100))), None);
}

#[test]
fn decoding_goes_straight_through() {
    let mut t = DecodeThread::new(true, true);
    for i in 1..=120 {
        assert_eq!(
            t.on_decoded(Decoded::Video),
            Action::SendPicture { log: i % 60 == 0 }
        );
    }
    assert_eq!(t.frame_no, 120);
    assert_eq!(t.on_decoded(Decoded::Audio), Action::PushSound);
    assert_eq!(t.on_decoded(Decoded::End), Action::Finish { drain: true });
    assert_eq!(t.on_decoded(Decoded::Failed), Action::Finish { drain: false });
}

#[test]
fn silent_media_leave_the_sound_card_alone() {
    for (device, sound) in [(true, false), (false, true), (false, false)] {
        let mut t = DecodeThread::new(device, sound);
        assert_eq!(t.on_decoded(Decoded::Audio), Action::Continue);
        assert_eq!(t.on_decoded(Decoded::End), Action::Finish { drain: false });
    }
}

#[test]
fn sound_waits_for_room_and_for_its_end() {
    assert!(!must_wait(true, Duration::from_millis(400)));
    assert!(must_wait(true, Duration::from_millis(401)));
    assert!(!must_wait(false, Duration::from_millis(401)));
    assert!(drain_audio(true, 1));
    assert!(!drain_audio(true, 0));
    assert!(!drain_audio(false, 1));
}

#[test]
fn clock_decides_what_is_shown() {
    let d = Duration::from_millis(5);
    assert_eq!(showing(Schedule::Wait(d)), Showing::After(d));
    assert_eq!(showing(Schedule::Now), Showing::Now);
    assert_eq!(showing(Schedule::Drop { behind: d }), Showing::Skip);
    assert_eq!(showing(Schedule::Resynced { behind: d }), Showing::Now);
}

fn view_at(position_s: u64, duration_s: u64) -> PlayerView<u8> {
    let mut v: PlayerView<u8> = PlayerView::new();
    v.on_picture(1, Duration::from_secs(position_s), duration_s * 1_000_000);
    v
}

#[test]
fn keys_pause_and_seek() {
    let mut v = view_at(7, 10);
    assert_eq!(v.on_key(key_of("space")), Some(PlaybackCommand::Pause));
    assert!(v.paused);
    assert_eq!(v.on_key(key_of("space")), Some(PlaybackCommand::Resume));
    assert!(!v.paused);
    assert_eq!(
        v.on_key(key_of("right")),
        Some(PlaybackCommand::Seek(Duration::from_secs(10)))
    );
    assert_eq!(
        v.on_key(key_of("left")),
        Some(PlaybackCommand::Seek(Duration::from_secs(5)))
    );
    assert_eq!(
        v.on_key(key_of("left")),
        Some(PlaybackCommand::Seek(Duration::zero()))
    );
    assert_eq!(
        v.on_key(key_of("left")),
        Some(PlaybackCommand::Seek(Duration::zero()))
    );
    assert_eq!(key_of("Space"), Key::Other);
    assert_eq!(v.on_key(Key::Other), None);
}

#[test]
fn clicks_map_to_places() {
    let mut v = view_at(0, 100);
    // A window of 124 pixels has a slider of 100.
    let px = 1000;
    let unit = 1000;
    assert_eq!(
        v.seek_click(37 * px, 0, 124 * px, unit),
        Some(PlaybackCommand::Seek(Duration::from_secs(25)))
    );
    assert_eq!(v.position, Duration::from_secs(25));
    assert_eq!(
        v.seek_click(5 * px, 0, 124 * px, unit),
        Some(PlaybackCommand::Seek(Duration::zero()))
    );
    assert_eq!(
        v.seek_click(500 * px, 0, 124 * px, unit),
        Some(PlaybackCommand::Seek(Duration::from_secs(100)))
    );
    assert_eq!(
        v.seek_click(137 * px, 100 * px, 124 * px, unit),
        Some(PlaybackCommand::Seek(Duration::from_secs(25)))
    );
    assert_eq!(v.seek_click(5 * px, 0, 24 * px, unit), None);
    // A slider that is narrower than its margins runs the other way.
    assert_eq!(
        v.seek_click(2 * px, 0, 4 * px, unit),
        Some(PlaybackCommand::Seek(Duration::from_secs(50)))
    );
    // Whole pixels will do as well.
    assert_eq!(
        v.seek_click(37, 0, 124, 1),
        Some(PlaybackCommand::Seek(Duration::from_secs(25)))
    );
}

#[test]
fn slider_and_text_follow_the_place() {
    let v = view_at(65, 130);
    assert_eq!(v.fill(), (65_000_000_000, 130_000_000_000));
    assert_eq!(v.time_text(), "01:05 / 02:10");
    let mut v = view_at(7_384, 7_384);
    assert_eq!(v.fill(), (7_384_000_000_000, 7_384_000_000_000));
    assert_eq!(v.time_text(), "123:04 / 123:04");
    v.on_picture(2, Duration::from_secs(1), 3_000_000);
    assert_eq!(v.fill(), (1_000_000_000, 3_000_000_000));
    assert_eq!(v.latest_frame, Some(2));
    v.on_end();
    assert_eq!(v.position, Duration::from_secs(3));
    let mut empty: PlayerView<u8> = PlayerView::new();
    assert_eq!(empty.fill(), (0, 1));
    empty.on_end();
    assert_eq!(empty.position, Duration::zero());
}

#[test]
fn simple_statistics_fit_together_and_start_anew() {
    let at = |ms: u64| Instant::at_nanos(ms * 1_000_000);
    let mut stats = ProfileStats::new();
    for (i, ms) in [0, 30, 64, 200, 233].into_iter().enumerate() {
        stats.record_displayed_at(at(ms));
        stats.record_decoded(i as u64 * 100);
    }
    let s = stats.take_snapshot(1);
    assert_eq!((s.decoded_fps, s.avg_decode_us), (5, 200));
    assert_eq!((s.avg_interval_ms, s.max_interval_ms), (58, 136));
    assert_eq!((s.on_time_pct, s.p99_interval_ms), (75, 999));
    let empty = stats.take_snapshot(1);
    assert_eq!(empty.hist, hist_of(&[]));
    assert_eq!((empty.decoded_fps, empty.displayed_fps), (0, 0));
    assert_eq!((empty.avg_interval_ms, empty.on_time_pct), (0, 0));
    assert_eq!((empty.p99_interval_ms, empty.max_interval_ms), (0, 0));
}
