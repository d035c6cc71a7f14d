use aa_player::gpui_video::playback_clock::{schedule_against, Lag, PlaybackClock, Schedule};
use aa_player::player_core::audio_output::AudioClock;
use aa_player::time::{Duration, Instant};

#[test]
fn playback_clock_clock_waits_for_future_frame() {
    let mut clock = PlaybackClock::new();
    assert!(matches!(clock.schedule(Duration::zero()), Schedule::Now));
    match clock.schedule(Duration::from_secs(1)) {
        Schedule::Wait(d) => {
            assert!(
                d > Duration::from_millis(900) && d <= Duration::from_secs(1),
                "expected a wait of about 1s, got {d:?}"
            );
        }
        _ => panic!("a future frame has to wait"),
    }
}

#[test]
fn audio_clock_drops_when_late() {
    let mut clock = PlaybackClock::new();
    clock.set_duration(1_000_000);
    clock.set_audio(AudioClock::for_test(Duration::from_millis(200), true));
    assert!(matches!(
        clock.schedule(Duration::from_millis(300)),
        Schedule::Wait(_)
    ));
    assert!(matches!(
        clock.schedule(Duration::from_millis(50)),
        Schedule::Drop { .. }
    ));
}

#[test]
fn audio_clock_capped_by_duration() {
    let mut clock = PlaybackClock::new();
    clock.set_duration(1_000_000);
    clock.set_audio(AudioClock::for_test(Duration::from_secs(2), true));
    assert!(matches!(
        clock.schedule(Duration::from_millis(900)),
        Schedule::Now
    ));
}

#[test]
fn sound_decides_to_the_nanosecond() {
    let mut clock = PlaybackClock::new();
    clock.set_audio(AudioClock::for_test(Duration::from_millis(200), true));
    let now = Instant::at_nanos(0);
    assert_eq!(
        clock.schedule_at(Duration::from_millis(300), now),
        Schedule::Wait(Duration::from_millis(100))
    );
    // Exactly at the threshold a picture is still shown.
    assert_eq!(
        clock.schedule_at(Duration::from_millis(100), now),
        Schedule::Now
    );
    assert_eq!(
        clock.schedule_at(Duration::from_nanos(99_999_999), now),
        Schedule::Drop {
            behind: Duration::from_nanos(100_000_001)
        }
    );
}

#[test]
fn offset_moves_the_sound_clock() {
    let mut clock = PlaybackClock::new();
    clock.set_audio(AudioClock::for_test(Duration::from_millis(200), true));
    clock.set_audio_offset(3_000_000);
    let now = Instant::at_nanos(0);
    assert_eq!(
        clock.schedule_at(Duration::from_millis(3_250), now),
        Schedule::Wait(Duration::from_millis(50))
    );
    // A negative reading counts as the start of the media.
    clock.set_audio_offset(-1_000_000);
    assert_eq!(
        clock.schedule_at(Duration::from_millis(10), now),
        Schedule::Wait(Duration::from_millis(10))
    );
}

#[test]
fn first_picture_is_shown_and_set_audio_keeps_the_origin() {
    let mut clock = PlaybackClock::new();
    let start = Instant::at_nanos(1_000_000_000);
    assert_eq!(
        clock.schedule_at(Duration::from_secs(7), start),
        Schedule::Now
    );
    let origin = clock.origin;
    clock.set_audio(AudioClock::for_test(Duration::zero(), false));
    assert_eq!(clock.origin, origin);
    let later = Instant::at_nanos(1_040_000_000);
    assert_eq!(
        clock.schedule_at(Duration::from_millis(7_100), later),
        Schedule::Wait(Duration::from_millis(60))
    );
    clock.reset_origin();
    assert_eq!(
        clock.schedule_at(Duration::from_millis(9_000), later),
        Schedule::Now
    );
}

#[test]
fn wait_is_over_when_it_is_over() {
    let mut clock = PlaybackClock::new();
    let t0 = Instant::at_nanos(0);
    assert_eq!(clock.schedule_at(Duration::zero(), t0), Schedule::Now);
    let target = Duration::from_millis(33);
    match clock.schedule_at(target, Instant::at_nanos(3_000_000)) {
        Schedule::Wait(d) => {
            assert_eq!(d, Duration::from_millis(30));
            assert_eq!(
                clock.schedule_at(target, Instant::at_nanos(3_000_000).plus(d)),
                Schedule::Now
            );
        }
        other => panic!("expected a wait, got {other:?}"),
    }
}

#[test]
fn resync_happens_behind_the_threshold_and_settles() {
    let mut clock = PlaybackClock::new();
    assert_eq!(
        clock.schedule_at(Duration::zero(), Instant::at_nanos(0)),
        Schedule::Now
    );
    let late = Instant::at_nanos(300_000_000);
    assert_eq!(
        clock.schedule_at(Duration::from_millis(100), late),
        Schedule::Now
    );
    assert_eq!(
        clock.schedule_at(Duration::from_millis(99), late),
        Schedule::Resynced {
            behind: Duration::from_millis(201)
        }
    );
    assert_eq!(
        clock.schedule_at(Duration::from_millis(99), late),
        Schedule::Now
    );
}

#[test]
fn lag_has_three_sides() {
    let limit = Duration::from_millis(10);
    let now = Duration::from_millis(100);
    assert_eq!(
        schedule_against(Duration::from_millis(101), now, limit),
        Lag::Ahead(Duration::from_millis(1))
    );
    assert_eq!(
        schedule_against(Duration::from_millis(90), now, limit),
        Lag::Due
    );
    assert_eq!(
        schedule_against(Duration::from_millis(89), now, limit),
        Lag::Behind(Duration::from_millis(11))
    );
}
