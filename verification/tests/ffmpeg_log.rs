use aa_player::player_core::ffmpeg_log::{
    decide, env_level, line_len, plain_level, route, throttle_map, throttle_window, Level,
    Severity, ThrottleMap, AV_LOG_ERROR, AV_LOG_QUIET, AV_LOG_WARNING, MAX_KEYS,
};
use aa_player::time::{Duration, Instant, Stopwatch};

#[test]
fn first_message_emits_immediately() {
    let mut m = ThrottleMap::new();
    let now = Stopwatch::start().now();
    assert_eq!(decide(&mut m, "x", now, throttle_window()), Some(1));
}

#[test]
fn repeats_within_window_suppressed_and_counted() {
    let mut m = ThrottleMap::new();
    let t = Stopwatch::start().now();
    assert_eq!(decide(&mut m, "x", t, throttle_window()), Some(1));
    for _ in 0..9 {
        assert_eq!(decide(&mut m, "x", t, throttle_window()), None);
    }
    assert_eq!(
        decide(
            &mut m,
            "x",
            t.plus(throttle_window()),
            throttle_window()
        ),
        Some(10)
    );
}

#[test]
fn distinct_messages_throttled_independently() {
    let mut m = ThrottleMap::new();
    let t = Stopwatch::start().now();
    assert_eq!(decide(&mut m, "a", t, throttle_window()), Some(1));
    assert_eq!(decide(&mut m, "b", t, throttle_window()), Some(1));
    assert_eq!(decide(&mut m, "a", t, throttle_window()), None);
}

#[test]
fn key_overflow_clears_table_instead_of_growing_forever() {
    let mut m = ThrottleMap::new();
    let t = Stopwatch::start().now();
    for i in 0..(MAX_KEYS as u32 + 10) {
        decide(&mut m, &format!("k{i}"), t, throttle_window());
    }
    assert!(m.len() <= MAX_KEYS + 1);
}

#[test]
fn level_routing_matches_av_constants() {
    let mut m = throttle_map();
    let t = Stopwatch::start().now();
    assert_eq!(
        route(&mut m, AV_LOG_ERROR, "route-test-error", t),
        Some((Severity::Error, "route-test-error".to_string()))
    );
    assert_eq!(
        route(&mut m, AV_LOG_WARNING, "route-test-warning", t),
        Some((Severity::Warn, "route-test-warning".to_string()))
    );
    assert_eq!(
        route(&mut m, AV_LOG_WARNING + 8, "route-test-info", t),
        Some((Severity::Debug, "route-test-info".to_string()))
    );
}

#[test]
fn repetitions_are_told() {
    let mut m = throttle_map();
    let t = Instant::at_nanos(0);
    assert!(route(&mut m, 24, "lost sync", t).is_some());
    assert_eq!(route(&mut m, 24, "lost sync", t), None);
    assert_eq!(
        route(&mut m, 24, "lost sync", Instant::at_nanos(2_999_999_999)),
        None
    );
    assert_eq!(
        route(&mut m, 24, "lost sync", Instant::at_nanos(3_000_000_000)),
        Some((Severity::Warn, "lost sync ×3".to_string()))
    );
    assert_eq!(route(&mut m, 24, "", t), None);
    assert_eq!(m.len(), 1);
}

#[test]
fn one_message_counts_what_came_since() {
    let mut m = throttle_map();
    let window = Duration::from_millis(10);
    let mut told = 0;
    let mut sent = 0;
    for i in 0..100u64 {
        sent += 1;
        if let Some(n) = decide(&mut m, "m", Instant::at_nanos(i * 3_000_000), window) {
            told += n;
        }
    }
    if let Some(n) = decide(&mut m, "m", Instant::at_nanos(1_000_000_000), window) {
        told += n;
        sent += 1;
    }
    assert_eq!(told, sent);
}

#[test]
fn levels_lose_their_category() {
    assert_eq!(plain_level(AV_LOG_QUIET), None);
    assert_eq!(plain_level(16), Some(16));
    assert_eq!(plain_level(0x1_0018), Some(0x18));
}

#[test]
fn lines_fit_their_buffer() {
    assert_eq!(line_len(-1, 1024), None);
    assert_eq!(line_len(0, 1024), None);
    assert_eq!(line_len(10, 1024), Some(10));
    assert_eq!(line_len(1023, 1024), Some(1023));
    assert_eq!(line_len(1024, 1024), Some(1023));
    assert_eq!(line_len(i32::MAX, 1024), Some(1023));
}

#[test]
fn levels_have_words() {
    for (word, level) in [
        ("quiet", Level::Quiet),
        ("panic", Level::Panic),
        ("fatal", Level::Fatal),
        ("Error", Level::Error),
        ("WARNING", Level::Warning),
        ("info", Level::Info),
        ("dEbUg", Level::Debug),
        ("trace", Level::Trace),
    ] {
        assert_eq!(env_level(word), Some(level));
    }
    assert_eq!(env_level("verbose"), None);
    assert_eq!(env_level(""), None);
    assert_eq!(env_level("infos"), None);
}

#[test]
fn history_of_two_messages_is_kept_apart() {
    let mut m = throttle_map();
    let window = Duration::from_millis(100);
    let mut history = Vec::new();
    for i in 0..60u64 {
        let key = if i % 3 == 0 { "a" } else { "b" };
        let now = Instant::at_nanos(i * 7_000_000);
        history.push((key, i * 7, decide(&mut m, key, now, window)));
    }
    for key in ["a", "b"] {
        let (mut held, mut last) = (0, None);
        for &(_, ms, told) in history.iter().filter(|e| e.0 == key) {
            match last {
                Some(t) if ms - t < 100 => {
                    assert_eq!(told, None);
                    held += 1;
                }
                _ => {
                    assert_eq!(told, Some(held + 1));
                    held = 0;
                    last = Some(ms);
                }
            }
        }
        assert!(last > Some(0));
    }
}
