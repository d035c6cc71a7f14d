use aa_player::player_core::audio_decoder::{
    clamp_speed, interleaved, AudioDecoder, AudioStream, MAX_SPEED, MIN_SPEED, NORMAL_SPEED,
};
use aa_player::player_core::audio_output::AudioFormat;
use aa_player::player_core::frame::Rational;
use aa_player::time::Duration;

/// A speed that is so many times normal speed.
fn speed_of(times: f64) -> u64 {
    (times * NORMAL_SPEED as f64) as u64
}

fn decoder() -> AudioDecoder {
    AudioDecoder::new(
        &AudioStream {
            index: 1,
            time_base: Rational {
                num: 1,
                den: 44_100,
            },
            duration: 441_000,
            sample_rate: 44_100,
            channels: 1,
        },
        AudioFormat {
            sample_rate: 48_000,
            channels: 2,
        },
    )
}

#[test]
fn new_decoder_tells_about_its_stream() {
    let d = decoder();
    assert_eq!(d.info().sample_rate, 44_100);
    assert_eq!(d.info().channels, 1);
    assert_eq!(d.info().duration, Duration::from_secs(10));
    assert_eq!(d.format().sample_rate, 48_000);
    assert_eq!(d.speed(), NORMAL_SPEED);
    assert_eq!(d.output_rate(), 48_000);
}

#[test]
fn speed_changes_the_rate() {
    let mut d = decoder();
    assert_eq!(d.set_speed(speed_of(1.0)), None);
    assert_eq!(d.set_speed(speed_of(1.25)), Some(38_400));
    assert_eq!(d.set_speed(speed_of(1.25)), None);
    assert_eq!(d.set_speed(speed_of(0.5)), Some(96_000));
    assert_eq!(d.set_speed(0), Some(192_000));
    assert_eq!(d.speed(), MIN_SPEED);
    assert_eq!(d.set_speed(u64::MAX), Some(12_000));
    assert_eq!(d.speed(), MAX_SPEED);
    assert_eq!(clamp_speed(speed_of(3.999)), speed_of(3.999));
    // The speed outlives a seek.
    assert_eq!(d.flush(), 12_000);
}

/// The rate that a device of the rate gets at a speed.
fn rate_at(sample_rate: u32, times: f64) -> u32 {
    let mut d = AudioDecoder::new(
        &AudioStream {
            index: 1,
            time_base: Rational { num: 1, den: 1000 },
            duration: 0,
            sample_rate: 48_000,
            channels: 1,
        },
        AudioFormat {
            sample_rate,
            channels: 2,
        },
    );
    d.set_speed(speed_of(times));
    d.output_rate()
}

#[test]
fn rate_is_the_quotient_of_doubles() {
    // The double closest to 1.6 is a little more, and the quotient still comes out whole.
    assert_eq!(rate_at(48_000, 1.6), 30_000);
    for rate in [0, 1, 7, 8_000, 11_025, 44_100, 48_000, 96_000, 192_000, u32::MAX] {
        for thousandths in 250..=4000 {
            let times = f64::from(thousandths) / 1000.0;
            let expected = (f64::from(rate) / times) as u32;
            assert_eq!(rate_at(rate, times), expected, "{rate} at {times}");
        }
    }
    // Doubles from all over the range, and those around quotients that are whole numbers.
    let mut seed = 1u64;
    for _ in 0..20_000 {
        seed = seed.wrapping_mul(6_364_136_223_846_793_005).wrapping_add(1);
        let low = 0.25f64.to_bits();
        let bits = low + seed % (4.0f64.to_bits() - low);
        let rate = (seed >> 40) as u32;
        for times in [f64::from_bits(bits), 44_100.0 / f64::from(rate % 150_000 + 12_000)] {
            for near in [-2i64, -1, 0, 1, 2] {
                let times = f64::from_bits(times.to_bits().wrapping_add_signed(near));
                if !(0.25..=4.0).contains(&times) || (times - 1.0).abs() < f64::EPSILON {
                    continue;
                }
                for rate in [rate, 44_100] {
                    let expected = (f64::from(rate) / times) as u32;
                    assert_eq!(rate_at(rate, times), expected, "{rate} at {times}");
                }
            }
        }
    }
}

#[test]
fn chunks_off_the_time_line_are_refused() {
    let mut d = decoder();
    assert!(d.can_take(None, usize::MAX));
    assert!(d.can_take(Some(i64::MAX), 0));
    assert!(!d.can_take(Some(-1), 0));
    assert!(d.can_take(Some(0), 960));
    d.receive(Some(i64::MAX), vec![0i8; 2]);
    assert!(d.can_take(None, 960));
}

#[test]
fn chunks_without_time_stamps_follow_each_other() {
    let mut d = decoder();
    let a = d.receive(Some(44_100), vec![0i8; 960]);
    assert_eq!(a.pts, Duration::from_secs(1));
    assert_eq!(a.frames(), 480);
    assert_eq!(a.duration(), Duration::from_millis(10));
    let b = d.receive(None, vec![0i8; 960]);
    assert_eq!(b.pts, Duration::from_millis(1_010));
    let c = d.flush_resampler(vec![0i8; 96]).expect("a tail");
    assert_eq!(c.pts, Duration::from_millis(1_020));
    assert_eq!(d.flush_resampler(Vec::<i8>::new()).map(|c| c.pts), None);
    let e = d.receive(None, vec![0i8; 2]);
    assert_eq!(e.pts, Duration::from_millis(1_021));
    d.flush();
    let f = d.receive(None, vec![0i8; 2]);
    assert_eq!(f.pts, Duration::zero());
}

#[test]
fn buffers_are_cut_to_their_sound() {
    let plane: Vec<i16> = (0..10).collect();
    assert_eq!(interleaved(&plane, 3, 2), vec![0, 1, 2, 3, 4, 5]);
    assert_eq!(interleaved(&plane, 5, 2), plane);
    assert_eq!(interleaved(&plane, 6, 2), plane);
    assert_eq!(interleaved(&plane, 0, 2), Vec::<i16>::new());
}
