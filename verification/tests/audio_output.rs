use aa_player::player_core::audio_output::{
    account, AudioClock, AudioFormat, AudioOutput, FULL_VOLUME, NO_VOLUME,
};
use aa_player::time::Duration;

const STEREO: AudioFormat = AudioFormat {
    sample_rate: 48_000,
    channels: 2,
};

#[test]
fn clock_does_not_run_before_playback_starts() {
    let (advance, started, underrun) = account(512, 0, false);
    assert_eq!(advance, 0);
    assert!(!started);
    assert!(!underrun);
}

#[test]
fn clock_counts_requested_not_filled_once_running() {
    let (advance, started, underrun) = account(512, 128, true);
    assert_eq!(advance, 512);
    assert!(started);
    assert!(underrun);
}

#[test]
fn first_nonempty_callback_starts_the_clock() {
    let (advance, started, underrun) = account(512, 512, false);
    assert_eq!(advance, 512);
    assert!(started);
    assert!(!underrun);
}

#[test]
fn samples_come_out_in_order_with_silence_behind() {
    let mut out: AudioOutput<i16> = AudioOutput::new(STEREO);
    out.push_samples(&vec![1, 2, 3]);
    out.push_samples(&vec![4, 5, 6]);
    let mut buf = vec![9i16; 4];
    out.fill(&mut buf, 0);
    assert_eq!(buf, vec![1, 2, 3, 4]);
    assert!(!out.take_underrun());
    out.fill(&mut buf, 0);
    assert_eq!(buf, vec![5, 6, 0, 0]);
    assert!(out.take_underrun());
    assert!(!out.take_underrun());
}

#[test]
fn position_follows_the_device() {
    let mut out: AudioOutput<i16> = AudioOutput::new(STEREO);
    let mut buf = vec![0i16; 960];
    for _ in 0..100 {
        out.fill(&mut buf, 0);
    }
    assert_eq!(out.position(), Duration::zero());
    assert!(!out.started());
    assert!(!out.take_underrun());
    out.push_samples(&vec![1; 960]);
    out.fill(&mut buf, 0);
    assert!(out.started());
    assert_eq!(out.position(), Duration::from_millis(10));
    // A gap takes its time too.
    out.fill(&mut buf, 0);
    assert_eq!(out.position(), Duration::from_millis(20));
    assert_eq!(out.clock().position(), Duration::from_millis(20));
    assert!(out.clock().started());
    assert_eq!(out.pushed_position(), Duration::from_millis(10));
}

#[test]
fn clearing_excuses_one_gap() {
    let mut out: AudioOutput<i16> = AudioOutput::new_paused(STEREO);
    let mut buf = vec![0i16; 4];
    out.push_samples(&vec![1; 8]);
    out.fill(&mut buf, 0);
    out.clear();
    assert_eq!(out.queued_frames(), 0);
    out.fill(&mut buf, 0);
    assert!(!out.take_underrun());
    out.fill(&mut buf, 0);
    assert!(out.take_underrun());
    out.mark_discontinuity();
    out.fill(&mut buf, 0);
    assert!(!out.take_underrun());
    out.fill(&mut buf, 0);
    assert!(out.take_underrun());
}

#[test]
fn queue_is_measured_in_time() {
    let mut out: AudioOutput<i16> = AudioOutput::new(STEREO);
    out.push_samples(&vec![0; 9_600]);
    assert_eq!(out.queued_frames(), 4_800);
    assert_eq!(out.queued_duration(), Duration::from_millis(100));
    assert_eq!(out.format(), STEREO);
}

#[test]
fn pausing_keeps_what_waits() {
    let mut out: AudioOutput<i16> = AudioOutput::new(STEREO);
    assert!(!out.is_paused());
    out.push_samples(&vec![0; 10]);
    out.pause();
    assert!(out.is_paused());
    assert_eq!(out.queued_frames(), 5);
    out.resume();
    assert!(!out.is_paused());
    out.pause();
    out.start();
    assert!(!out.is_paused());
}

#[test]
fn volume_is_limited() {
    let mut out: AudioOutput<i16> = AudioOutput::new(STEREO);
    assert_eq!(f32::from_bits(out.volume()), 1.0);
    assert_eq!((out.volume(), NO_VOLUME), (FULL_VOLUME, 0));
    for v in [
        0.0f32,
        -0.0,
        0.3,
        0.333_333_34,
        1.0,
        1.000_000_1,
        5.0,
        -0.1,
        -7.0,
        f32::MIN_POSITIVE,
        -f32::MIN_POSITIVE,
        1e-45,
        -1e-45,
        f32::MAX,
        f32::MIN,
        f32::INFINITY,
        f32::NEG_INFINITY,
    ] {
        out.set_volume(v.to_bits());
        assert_eq!(out.volume(), v.clamp(0.0, 1.0).to_bits(), "{v}");
    }
    for nan in [f32::NAN, -f32::NAN] {
        out.set_volume(nan.to_bits());
        assert!(f32::from_bits(out.volume()).is_nan());
    }
}

#[test]
fn made_up_clock_reads_back() {
    for ms in [0, 1, 7, 150, 200, 5_000, 3_600_000] {
        let d = Duration::from_millis(ms);
        assert_eq!(AudioClock::for_test(d, true).position(), d);
    }
    assert_eq!(
        AudioClock::for_test(Duration::from_millis(200), true).frames_played,
        9_600
    );
}
