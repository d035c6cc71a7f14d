use aa_player::player_core::audio_decoder::{AudioStream, NORMAL_SPEED};
use aa_player::player_core::audio_output::AudioFormat;
use aa_player::player_core::frame::{can_time, video_pts, AudioChunk, Rational};
use aa_player::player_core::media_source::{
    check_source, FfmpegSource, OpenError, Outcome, Packet, ReadOutcome, Received, Request,
    SeekCancelled, SeekError, SeekOutcome, Sent, VideoStream, AUDIO_CONVERGENCE_FRAMES,
    MAX_PUMP_VIDEO_HELD, MAX_STALLED,
};
use aa_player::player_core::probe::{audio_event, maybe_report, packet, Counters, Report};
use aa_player::time::{Duration, Instant};
use std::collections::VecDeque;

const VIDEO: usize = 0;
const AUDIO: usize = 1;
const SUBTITLES: usize = 2;

/// A payload: the time stamp of the unit, in ticks of its stream.
type Data = i64;

/// A decoder with a short input queue that hands out one unit for each packet.
struct Decoder {
    input: VecDeque<Data>,
    room: usize,
    ended: bool,
    given: Vec<Data>,
}

impl Decoder {
    fn new(room: usize) -> Self {
        Decoder {
            input: VecDeque::new(),
            room,
            ended: false,
            given: Vec::new(),
        }
    }

    fn send(&mut self, data: Data) -> Sent {
        if self.input.len() >= self.room {
            return Sent::Full;
        }
        self.given.push(data);
        self.input.push_back(data);
        Sent::Accepted
    }

    fn flush(&mut self) {
        self.input.clear();
        self.ended = false;
        self.given.clear();
    }
}

/// A resampler from 48 000 samples a second to the format of a device, which holds some back until
/// it is flushed.
struct Resampler {
    format: AudioFormat,
    taken: usize,
    given: usize,
}

impl Resampler {
    const HELD_BACK: usize = 16;

    fn new(format: AudioFormat) -> Self {
        Resampler {
            format,
            taken: 0,
            given: 0,
        }
    }

    fn due(&self) -> usize {
        self.taken * self.format.sample_rate as usize / 48_000
    }

    fn hand_out(&mut self, upto: usize) -> Vec<f32> {
        let frames = upto - self.given;
        self.given = upto;
        vec![0.0; frames * usize::from(self.format.channels)]
    }

    fn convert(&mut self, samples: usize) -> Vec<f32> {
        self.taken += samples;
        let upto = self.due() - Self::HELD_BACK;
        self.hand_out(upto)
    }

    fn flush(&mut self) -> Vec<f32> {
        let upto = self.due();
        self.hand_out(upto)
    }
}

/// A container of ten seconds: thirty pictures and about forty-seven stretches of sound a second,
/// in the order of their times.
struct Media {
    packets: Vec<(usize, Data)>,
    at: usize,
    video: Decoder,
    audio: Decoder,
    last_video: Data,
    last_audio: Data,
    tail: bool,
    sound: Option<Resampler>,
    chunks: Vec<AudioChunk<f32>>,
    fail_at: Option<usize>,
    interrupt: bool,
}

#[derive(Debug, PartialEq, Clone, Copy)]
enum Unit {
    Video(u64),
    Audio(u64),
}

#[derive(Debug, PartialEq)]
enum Failure {
    Cancelled,
    Failed,
}

fn video_ms(ts: Data) -> u64 {
    (ts * 1000 / 30) as u64
}

fn audio_ms(ts: Data) -> u64 {
    (ts * 1000 / 48_000) as u64
}

impl Media {
    fn sample() -> Self {
        let mut packets: Vec<(u64, usize, Data)> = Vec::new();
        for i in 0..300 {
            packets.push((i * 1000 / 30, VIDEO, i as Data));
        }
        for i in 0..469 {
            packets.push((i * 1024 * 1000 / 48_000, AUDIO, i as Data * 1024));
        }
        for i in 0..5 {
            packets.push((i * 2000, SUBTITLES, i as Data));
        }
        packets.sort();
        Media {
            packets: packets.into_iter().map(|(_, s, d)| (s, d)).collect(),
            at: 0,
            video: Decoder::new(4),
            audio: Decoder::new(4),
            last_video: 0,
            last_audio: 0,
            tail: true,
            sound: None,
            chunks: Vec::new(),
            fail_at: None,
            interrupt: false,
        }
    }

    /// The same container, whose sound is resampled and made into chunks.
    fn with_sound(format: AudioFormat) -> Self {
        Media {
            sound: Some(Resampler::new(format)),
            ..Media::sample()
        }
    }

    fn perform(&mut self, src: &mut FfmpegSource<Data>, r: Request, pump: bool) -> Request {
        match r {
            Request::ReceiveVideo => {
                let got = match self.video.input.pop_front() {
                    Some(ts) => {
                        self.last_video = ts;
                        Received::Ready
                    }
                    None if self.video.ended => Received::End,
                    None => Received::Again,
                };
                src.on_video(got)
            }
            Request::ReceiveAudio => {
                let got = match self.audio.input.pop_front() {
                    Some(ts) => {
                        self.last_audio = ts;
                        if let Some(r) = &mut self.sound {
                            let samples = r.convert(1024);
                            self.chunks.push(src.audio_chunk(Some(ts), samples));
                        }
                        Received::Ready
                    }
                    None if self.audio.ended => Received::End,
                    None => Received::Again,
                };
                if pump {
                    src.pump_on_audio(got)
                } else {
                    src.on_audio(got)
                }
            }
            Request::FlushResampler => {
                if let Some(r) = &mut self.sound {
                    let samples = r.flush();
                    let held = !samples.is_empty();
                    if held {
                        self.chunks.push(src.audio_chunk(None, samples));
                    }
                    return src.on_tail(held);
                }
                let held = self.tail;
                self.tail = false;
                src.on_tail(held)
            }
            Request::ReadPacket => {
                let read = if self.interrupt {
                    ReadOutcome::Interrupted
                } else if self.fail_at == Some(self.at) {
                    ReadOutcome::Failed
                } else if self.at < self.packets.len() {
                    let (stream, data) = self.packets[self.at];
                    self.at += 1;
                    ReadOutcome::Packet(Packet { stream, data })
                } else {
                    ReadOutcome::Eof
                };
                if pump {
                    src.pump_on_packet(read)
                } else {
                    src.on_packet(read)
                }
            }
            Request::SendVideo => {
                let data = src.in_flight().expect("a packet").data;
                src.on_sent(self.video.send(data))
            }
            Request::SendAudio => {
                let data = src.in_flight().expect("a packet").data;
                let sent = self.audio.send(data);
                if pump {
                    src.pump_on_sent(sent)
                } else {
                    src.on_sent(sent)
                }
            }
            Request::SendEof => {
                self.video.ended = true;
                self.audio.ended = true;
                src.on_eof_sent()
            }
            Request::Finish(o) => Request::Finish(o),
        }
    }

    fn outcome(&mut self, src: &mut FfmpegSource<Data>, first: Request, pump: bool) -> Outcome {
        let mut r = first;
        for _ in 0..100_000 {
            match r {
                Request::Finish(o) => return o,
                _ => r = self.perform(src, r, pump),
            }
        }
        panic!("a read has to end");
    }

    fn unit(&self, o: Outcome) -> Result<Option<Unit>, Failure> {
        match o {
            Outcome::Video => Ok(Some(Unit::Video(video_ms(self.last_video)))),
            Outcome::Audio => Ok(Some(Unit::Audio(audio_ms(self.last_audio)))),
            Outcome::Nothing => Ok(None),
            Outcome::Cancelled => Err(Failure::Cancelled),
            Outcome::Failed => Err(Failure::Failed),
        }
    }

    fn next_event(&mut self, src: &mut FfmpegSource<Data>) -> Result<Option<Unit>, Failure> {
        let first = src.next_event();
        let o = self.outcome(src, first, false);
        self.unit(o)
    }

    fn next_frame(&mut self, src: &mut FfmpegSource<Data>) -> Result<Option<u64>, Failure> {
        let mut r = src.next_event();
        loop {
            let o = self.outcome(src, r, false);
            match src.next_frame(o) {
                Request::Finish(o) => {
                    return Ok(match self.unit(o)? {
                        Some(Unit::Video(ms)) => Some(ms),
                        Some(Unit::Audio(_)) => panic!("sound is passed over"),
                        None => None,
                    })
                }
                next => r = next,
            }
        }
    }

    fn try_next_audio(&mut self, src: &mut FfmpegSource<Data>) -> Option<u64> {
        let first = src.try_next_audio();
        match self.outcome(src, first, true) {
            Outcome::Audio => Some(audio_ms(self.last_audio)),
            Outcome::Nothing => None,
            other => panic!("unexpected {other:?}"),
        }
    }

    /// Goes to the last whole second at or before the time.
    fn seek(&mut self, src: &mut FfmpegSource<Data>, ms: u64) {
        let second = ms / 1000;
        self.at = self
            .packets
            .iter()
            .position(|&(s, d)| s == VIDEO && d as u64 == second * 30)
            .expect("a picture");
        self.video.flush();
        self.audio.flush();
        src.seek(SeekOutcome::Done).expect("the seek went through");
    }
}

fn video_stream() -> VideoStream {
    VideoStream {
        index: VIDEO,
        time_base: Rational { num: 1, den: 15_360 },
        duration: 153_600,
        frame_rate: Rational { num: 30, den: 1 },
        width: 480,
        height: 270,
    }
}

fn audio_stream() -> AudioStream {
    AudioStream {
        index: AUDIO,
        time_base: Rational { num: 1, den: 48_000 },
        duration: 480_000,
        sample_rate: 48_000,
        channels: 1,
    }
}

fn device_format() -> AudioFormat {
    AudioFormat {
        sample_rate: 48_000,
        channels: 2,
    }
}

fn open(with_audio: bool) -> FfmpegSource<Data> {
    let format = if with_audio {
        Some(device_format())
    } else {
        None
    };
    FfmpegSource::from_input_with(Some(video_stream()), Some(audio_stream()), format)
        .expect("open")
}

#[test]
fn open_reports_correct_video_info() {
    let src = open(false);
    let info = src.video_info();
    assert_eq!(info.width, 480);
    assert_eq!(info.height, 270);
    assert_eq!(info.duration, Duration::from_secs(10));
    assert_eq!(info.fps, Rational { num: 30, den: 1 });
}

#[test]
fn media_without_pictures_or_file_are_refused() {
    let r: Result<FfmpegSource<Data>, OpenError> =
        FfmpegSource::from_input_with(None, Some(audio_stream()), None);
    assert_eq!(
        r.err().expect("refused").message(),
        "no video stream in source"
    );
    assert!(check_source("/tmp/a.mp4", true).is_ok());
    assert_eq!(
        check_source("/tmp/a.mp4", false).err().expect("refused").message(),
        "source not found: /tmp/a.mp4"
    );
}

#[test]
fn sound_is_not_looked_at_without_a_device() {
    // A length that is no span of time, in the stream of the pictures at that.
    let broken = AudioStream {
        index: VIDEO,
        time_base: Rational { num: 1, den: 0 },
        ..audio_stream()
    };
    assert!(!broken.is_measurable());
    assert!(audio_stream().is_measurable() && video_stream().is_measurable());
    let src: FfmpegSource<Data> =
        FfmpegSource::from_input_with(Some(video_stream()), Some(broken), None).expect("open");
    assert_eq!(src.audio_info(), None);
    assert!(!src.can_take(None, 0));
}

#[test]
fn streams_have_to_be_measurable() {
    let length = |num, den, duration| {
        VideoStream {
            time_base: Rational { num, den },
            duration,
            ..video_stream()
        }
        .is_measurable()
    };
    assert!(length(1, 15_360, i64::MIN));
    assert!(!length(1, 0, 1) && !length(1, 0, 0));
    assert!(!length(-1, 15_360, 1) && length(-1, 15_360, 0));
    assert!(length(-1, -15_360, 1) && length(0, -1, 1));
    // Longer than any span of time.
    assert!(!length(i32::MAX, 1, i64::MAX) && length(1, 1, i64::MAX));
    let base = Rational { num: 1, den: 0 };
    assert!(!can_time(Some(1), base));
    assert!(can_time(Some(-1), base) && can_time(Some(0), base) && can_time(None, base));
    assert!(!can_time(Some(i64::MAX), Rational { num: i32::MAX, den: 1 }));
}

#[test]
fn unknown_frame_rate_counts_as_zero() {
    let mut v = video_stream();
    v.frame_rate = Rational { num: 30, den: 0 };
    v.duration = -153_600;
    let src: FfmpegSource<Data> =
        FfmpegSource::from_input_with(Some(v), None, Some(device_format())).expect("open");
    assert_eq!(src.video_info().fps, Rational { num: 0, den: 1 });
    assert_eq!(src.video_info().duration, Duration::from_secs(10));
    assert_eq!(src.audio_info(), None);
}

#[test]
fn decode_to_end_returns_none_without_panic() {
    let mut src = open(false);
    let mut media = Media::sample();
    let mut count = 0;
    while let Some(_) = media.next_frame(&mut src).expect("decode") {
        count += 1;
        assert!(count < 1000);
    }
    assert!((280..=320).contains(&count), "{count}");
    assert_eq!(media.next_frame(&mut src), Ok(None));
}

#[test]
fn decode_several_frames_increases_pts() {
    let mut src = open(false);
    let mut media = Media::sample();
    let mut last = None;
    for _ in 0..30 {
        let ms = media.next_frame(&mut src).expect("decode");
        assert!(ms.is_some());
        assert!(ms > last);
        last = ms;
    }
}

/// Reads the whole media: the times of the pictures, and the sound.
fn drain_events(
    src: &mut FfmpegSource<Data>,
    media: &mut Media,
) -> (Vec<Duration>, Vec<AudioChunk<f32>>) {
    let (mut video, mut heard) = (Vec::new(), 0);
    while let Some(u) = media.next_event(src).expect("next_event") {
        match u {
            Unit::Video(_) => video.push(picture_time(media.last_video)),
            Unit::Audio(_) => heard += 1,
        }
        assert!(video.len() + heard < 10_000);
    }
    let sound = std::mem::take(&mut media.chunks);
    assert_eq!(sound.len(), heard);
    (video, sound)
}

/// The time of a picture, whose time stamps are 512 ticks apart.
fn picture_time(n: Data) -> Duration {
    video_pts(Some(n * 512), video_stream().time_base)
}

/// How long some sound lasts, in seconds.
fn total_secs(chunks: &[AudioChunk<f32>]) -> f64 {
    let nanos: u128 = chunks.iter().map(|c| c.duration().as_nanos()).sum();
    nanos as f64 / 1e9
}

/// A source whose sound goes to a device of the format, and its container.
fn open_for(format: AudioFormat) -> (FfmpegSource<Data>, Media) {
    let src = FfmpegSource::from_input_with(
        Some(video_stream()),
        Some(audio_stream()),
        Some(format),
    )
    .expect("open");
    (src, Media::with_sound(format))
}

#[test]
fn source_yields_both_streams_when_audio_enabled() {
    let (mut src, mut media) = open_for(device_format());
    let info = src.audio_info().expect("sound");
    assert_eq!(info.sample_rate, 48_000);
    assert_eq!(info.channels, 1);
    assert_eq!(info.duration, Duration::from_secs(10));
    let (video, sound) = drain_events(&mut src, &mut media);
    assert!((280..=320).contains(&video.len()), "{}", video.len());
    assert!(!sound.is_empty());
    // The resampler gives one more chunk at the end.
    assert_eq!(sound.len(), 470);
    let secs = total_secs(&sound);
    assert!((secs - 10.0).abs() < 0.2, "{secs}");
    assert_eq!(media.next_event(&mut src), Ok(None));
}

#[test]
fn chunk_pts_advances_monotonically() {
    let (mut src, mut media) = open_for(AudioFormat {
        sample_rate: 48_000,
        channels: 1,
    });
    let (_, chunks) = drain_events(&mut src, &mut media);
    let mut prev = Duration::zero();
    for (i, c) in chunks.iter().enumerate() {
        assert!(c.pts >= prev, "{i}: {:?} < {prev:?}", c.pts);
        prev = c.pts;
    }
    let last = chunks.last().expect("sound").pts;
    assert!(last > Duration::from_secs(9), "{last:?}");
}

#[test]
fn resamples_to_device_rate_and_channels() {
    let (mut src, mut media) = open_for(AudioFormat {
        sample_rate: 44_100,
        channels: 2,
    });
    let (_, chunks) = drain_events(&mut src, &mut media);
    assert!(!chunks.is_empty());
    for c in &chunks {
        assert_eq!(c.channels, 2);
        assert_eq!(c.sample_rate, 44_100);
        assert_eq!(c.samples.len() % 2, 0);
    }
    let frames: usize = chunks.iter().map(|c| c.frames()).sum();
    let secs = frames as f64 / 44_100.0;
    assert!((secs - 10.0).abs() < 0.2, "{secs}");
}

#[test]
fn audio_and_video_pts_advance_together() {
    let (mut src, mut media) = open_for(device_format());
    let (mut last_v, mut last_a) = (Duration::zero(), Duration::zero());
    let mut worst_gap = 0u128;
    let (mut n_v, mut n_a) = (0, 0);
    while let Some(u) = media.next_event(&mut src).expect("next_event") {
        match u {
            Unit::Video(_) => {
                last_v = picture_time(media.last_video);
                n_v += 1;
            }
            Unit::Audio(_) => {
                last_a = media.chunks.last().expect("sound").pts;
                n_a += 1;
            }
        }
        if last_v > Duration::zero() && last_a > Duration::zero() {
            let gap = last_v.as_nanos().abs_diff(last_a.as_nanos());
            worst_gap = worst_gap.max(gap);
        }
    }
    assert!(n_v > 0 && n_a > 0, "video={n_v} audio={n_a}");
    assert!(worst_gap < 1_000_000_000, "{worst_gap}");
    assert!(worst_gap > 0);
}

#[test]
fn streams_are_interleaved_not_batched() {
    let mut src = open(true);
    let mut media = Media::sample();
    let mut kinds = String::new();
    while let Some(u) = media.next_event(&mut src).expect("next_event") {
        kinds.push(if matches!(u, Unit::Video(_)) { 'V' } else { 'A' });
    }
    let k: Vec<char> = kinds.chars().collect();
    let switches = k.windows(2).filter(|w| w[0] != w[1]).count();
    assert!(switches > 50, "{switches}");
    let head = &kinds[..20];
    assert!(head.contains('V') && head.contains('A'), "{head}");
}

#[test]
fn audio_stays_off_unless_requested() {
    let mut src = open(false);
    let mut media = Media::sample();
    assert_eq!(src.audio_info(), None);
    let (mut v, mut a) = (0, 0);
    while let Some(u) = media.next_event(&mut src).expect("next_event") {
        match u {
            Unit::Video(_) => v += 1,
            Unit::Audio(_) => a += 1,
        }
    }
    assert_eq!(a, 0);
    assert!((280..=320).contains(&v));
}

#[test]
fn next_frame_skips_audio_without_stalling() {
    let mut src = open(true);
    let mut media = Media::sample();
    let mut count = 0;
    while media.next_frame(&mut src).expect("next_frame").is_some() {
        count += 1;
        assert!(count < 1000);
    }
    assert!((280..=320).contains(&count), "{count}");
}

#[test]
fn seek_then_decode_returns_frames_near_target() {
    let mut src = open(false);
    let mut media = Media::sample();
    media.seek(&mut src, 5_000);
    let first = media.next_frame(&mut src).expect("decode").expect("a frame");
    assert!((4_000..=6_000).contains(&first), "{first}");
}

#[test]
fn seek_resets_both_streams() {
    let mut src = open(true);
    let mut media = Media::sample();
    while media.next_event(&mut src).expect("next_event").is_some() {}
    assert!(src.is_draining());
    media.seek(&mut src, 2_000);
    assert!(!src.is_draining());
    let (mut video, mut audio) = (None, None);
    for _ in 0..500 {
        match media.next_event(&mut src).expect("next_event") {
            Some(Unit::Video(ms)) => video = video.or(Some(ms)),
            Some(Unit::Audio(ms)) => audio = audio.or(Some(ms)),
            None => break,
        }
    }
    let (v, a) = (video.expect("pictures"), audio.expect("sound"));
    assert!((1_500..=3_000).contains(&v) && (1_500..=3_000).contains(&a), "{v} {a}");
}

#[test]
fn seek_to_zero_keeps_audio_flowing() {
    let mut src = open(true);
    let mut media = Media::sample();
    for _ in 0..60 {
        media.next_event(&mut src).expect("next_event");
    }
    media.seek(&mut src, 0);
    let (mut v, mut a) = (0, 0);
    for _ in 0..600 {
        match media.next_event(&mut src).expect("next_event") {
            Some(Unit::Video(_)) => v += 1,
            Some(Unit::Audio(_)) => a += 1,
            None => break,
        }
        if v >= 60 {
            break;
        }
    }
    assert!(v > 0);
    assert!(a > 0);
}

#[test]
fn seek_resets_budget_and_decoding_consumes_it() {
    let mut src = open(true);
    let mut media = Media::sample();
    for _ in 0..30 {
        if media.next_event(&mut src).expect("next_event").is_none() {
            break;
        }
    }
    media.seek(&mut src, 2_000);
    assert_eq!(src.audio_convergence_budget(), AUDIO_CONVERGENCE_FRAMES);

    let mut times: Vec<u64> = Vec::new();
    let mut consumed_seen = false;
    for _ in 0..500 {
        match media.next_event(&mut src).expect("next_event") {
            Some(Unit::Audio(ms)) => {
                times.push(ms);
                if !consumed_seen && src.audio_convergence_budget() == 0 {
                    consumed_seen = true;
                    assert!(times.len() <= AUDIO_CONVERGENCE_FRAMES as usize + 1);
                }
            }
            Some(Unit::Video(_)) => {}
            None => break,
        }
        if times.len() >= 8 {
            break;
        }
    }
    assert!(consumed_seen);
    assert_eq!(src.audio_convergence_budget(), 0);
    for w in times.windows(2) {
        assert!(w[1] > w[0]);
    }
}

#[test]
fn arm_discards_does_not_reset_budget() {
    let mut src = open(true);
    let mut media = Media::sample();
    media.seek(&mut src, 2_000);
    while src.audio_convergence_budget() > 0 {
        if media.next_event(&mut src).expect("next_event").is_none() {
            break;
        }
    }
    src.arm_discards(Duration::from_secs(3));
    assert_eq!(src.audio_convergence_budget(), 0);
    assert!(src.discards(Duration::from_millis(2_999)));
    assert!(!src.discards(Duration::from_secs(3)));
    // A stretch of sound across the line is kept, so that no hole is left.
    let ms = Duration::from_millis;
    assert!(src.discards_sound(ms(2_960), ms(20)));
    assert!(src.discards_sound(ms(2_980), ms(20)));
    assert!(!src.discards_sound(ms(2_990), ms(20)));
    assert!(!src.discards_sound(ms(3_000), ms(20)));
    media.seek(&mut src, 1_000);
    assert!(!src.discards(Duration::from_millis(2_999)));
    assert!(!src.discards_sound(ms(0), ms(20)));
}

#[test]
fn linear_play_from_zero_is_not_affected_by_convergence_drop() {
    let mut src = open(true);
    let mut media = Media::sample();
    let mut first = None;
    for _ in 0..200 {
        match media.next_event(&mut src).expect("next_event") {
            Some(Unit::Audio(ms)) => {
                first = Some(ms);
                break;
            }
            Some(Unit::Video(_)) => {}
            None => break,
        }
    }
    assert!(first.expect("sound") < 500);
    assert_eq!(first, Some(0));
}

#[test]
fn open_with_interrupt_decodes_and_seeks() {
    let mut src = open(false);
    let mut media = Media::sample();
    let mut frames = 0;
    while frames < 30 {
        match media.next_frame(&mut src) {
            Ok(Some(_)) => frames += 1,
            Ok(None) => break,
            Err(e) => panic!("{e:?}"),
        }
    }
    assert!(frames >= 30);
    media.seek(&mut src, 500);
    assert!(media.next_frame(&mut src).expect("decode").is_some());
}

#[test]
fn read_error_surfaces_instead_of_looking_like_eof() {
    let mut src = open(false);
    let mut media = Media::sample();
    media.fail_at = Some(media.packets.len() / 4);
    let mut count = 0;
    loop {
        match media.next_frame(&mut src) {
            Ok(Some(_)) => count += 1,
            Ok(None) => panic!("an error passed for the end after {count} frames"),
            Err(e) => {
                assert_eq!(e, Failure::Failed);
                break;
            }
        }
        assert!(count < 1_000);
    }
    assert!(count < 300);
    assert!(!src.is_draining());
    // The error stays an error.
    assert_eq!(media.next_frame(&mut src), Err(Failure::Failed));
}

#[test]
fn interrupted_read_is_told_apart() {
    let mut src = open(true);
    let mut media = Media::sample();
    media.interrupt = true;
    assert_eq!(media.next_event(&mut src), Err(Failure::Cancelled));
    media.interrupt = false;
    assert!(media.next_event(&mut src).expect("next_event").is_some());
}

#[test]
fn damaged_packets_are_skipped() {
    let mut src = open(false);
    let r = src.next_event();
    assert_eq!(r, Request::ReceiveVideo);
    assert_eq!(src.on_video(Received::Again), Request::ReadPacket);
    assert_eq!(src.on_packet(ReadOutcome::InvalidData), Request::ReadPacket);
    assert_eq!(
        src.on_packet(ReadOutcome::Packet(Packet {
            stream: VIDEO,
            data: 7
        })),
        Request::SendVideo
    );
    assert_eq!(src.in_flight().expect("a packet").data, 7);
    assert_eq!(src.on_sent(Sent::Accepted), Request::ReceiveVideo);
    assert!(src.in_flight().is_none());
}

#[test]
fn seeks_can_be_cancelled_or_fail() {
    let mut src = open(true);
    let mut media = Media::sample();
    for _ in 0..40 {
        media.next_event(&mut src).expect("next_event");
    }
    let before = src.audio_convergence_budget();
    assert_eq!(
        src.seek(SeekOutcome::Cancelled),
        Err(SeekError::Cancelled(SeekCancelled))
    );
    assert_eq!(src.seek(SeekOutcome::Failed), Err(SeekError::Failed));
    assert_eq!(src.audio_convergence_budget(), before);
    assert_eq!(SeekCancelled.message(), "seek cancelled by newer request");
}

#[test]
fn refused_packets_are_offered_again() {
    let mut src = open(true);
    src.next_event();
    src.on_video(Received::Again);
    assert_eq!(src.on_audio(Received::Again), Request::ReadPacket);
    assert_eq!(
        src.on_packet(ReadOutcome::Packet(Packet {
            stream: AUDIO,
            data: 5
        })),
        Request::SendAudio
    );
    for i in 0..MAX_STALLED {
        assert_eq!(src.on_sent(Sent::Full), Request::ReceiveVideo, "{i}");
        assert_eq!(src.on_video(Received::Again), Request::ReceiveAudio);
        assert_eq!(src.on_audio(Received::Again), Request::SendAudio);
        assert_eq!(src.in_flight().expect("a packet").data, 5);
    }
    // Too many refusals in a row end the read; the packet is not lost.
    assert_eq!(src.on_sent(Sent::Full), Request::Finish(Outcome::Nothing));
    src.next_event();
    src.on_video(Received::Again);
    assert_eq!(src.on_audio(Received::Again), Request::SendAudio);
    assert_eq!(src.in_flight().expect("a packet").data, 5);
    assert_eq!(src.on_sent(Sent::Failed), Request::Finish(Outcome::Failed));
    assert!(src.in_flight().is_none());
}

#[test]
fn decoder_errors_end_a_read() {
    let mut src = open(true);
    src.next_event();
    assert_eq!(
        src.on_video(Received::Failed),
        Request::Finish(Outcome::Failed)
    );
    src.next_event();
    src.on_video(Received::Again);
    assert_eq!(
        src.on_audio(Received::Failed),
        Request::Finish(Outcome::Failed)
    );
    assert_eq!(src.try_next_audio(), Request::ReceiveAudio);
    assert_eq!(
        src.pump_on_audio(Received::Failed),
        Request::Finish(Outcome::Failed)
    );
}

#[test]
fn pump_runs_ahead_and_loses_nothing() {
    let mut src = open(true);
    let mut media = Media::sample();
    let mut sound: Vec<u64> = Vec::new();
    // Fetch a good deal of sound before any picture.
    while sound.len() < 40 {
        match media.try_next_audio(&mut src) {
            Some(ms) => sound.push(ms),
            None => break,
        }
    }
    assert_eq!(sound.len(), 40);
    assert!(src.backlog_len() > 20);
    let mut pictures: Vec<u64> = Vec::new();
    while let Some(u) = media.next_event(&mut src).expect("next_event") {
        match u {
            Unit::Video(ms) => pictures.push(ms),
            Unit::Audio(ms) => sound.push(ms),
        }
    }
    assert_eq!(pictures.len(), 300);
    for w in pictures.windows(2) {
        assert!(w[1] > w[0]);
    }
    sound.pop();
    assert_eq!(sound.len(), 469);
    for w in sound.windows(2) {
        assert!(w[1] > w[0]);
    }
    assert_eq!(src.backlog_len(), 0);
}

#[test]
fn pump_keeps_a_refused_picture_in_its_place() {
    let mut src = open(true);
    src.next_event();
    src.on_video(Received::Again);
    src.on_audio(Received::Again);
    src.on_packet(ReadOutcome::Packet(Packet {
        stream: VIDEO,
        data: 1,
    }));
    // The video decoder is full and a picture that it held comes out.
    assert_eq!(src.on_sent(Sent::Full), Request::ReceiveVideo);
    assert_eq!(
        src.on_video(Received::Ready),
        Request::Finish(Outcome::Video)
    );
    // The pump reads past two more.
    assert_eq!(src.try_next_audio(), Request::ReceiveAudio);
    assert_eq!(src.pump_on_audio(Received::Again), Request::ReadPacket);
    for data in [2, 3] {
        assert_eq!(
            src.pump_on_packet(ReadOutcome::Packet(Packet {
                stream: VIDEO,
                data
            })),
            Request::ReadPacket
        );
    }
    assert_eq!(
        src.pump_on_packet(ReadOutcome::Packet(Packet {
            stream: AUDIO,
            data: 9
        })),
        Request::SendAudio
    );
    assert_eq!(src.pump_on_sent(Sent::Accepted), Request::ReceiveAudio);
    assert_eq!(
        src.pump_on_audio(Received::Ready),
        Request::Finish(Outcome::Audio)
    );
    // The pictures come in their order.
    for data in [1, 2, 3] {
        src.next_event();
        src.on_video(Received::Again);
        assert_eq!(src.on_audio(Received::Again), Request::SendVideo);
        assert_eq!(src.in_flight().expect("a packet").data, data);
        src.on_sent(Sent::Accepted);
    }
}

#[test]
fn pump_is_bounded_and_leaves_the_end_alone() {
    let mut src = open(true);
    assert_eq!(src.try_next_audio(), Request::ReceiveAudio);
    let mut r = src.pump_on_audio(Received::Again);
    let mut read = 0;
    while r == Request::ReadPacket {
        read += 1;
        r = src.pump_on_packet(ReadOutcome::Packet(Packet {
            stream: VIDEO,
            data: read as Data,
        }));
    }
    assert_eq!(r, Request::Finish(Outcome::Nothing));
    assert_eq!(read, MAX_PUMP_VIDEO_HELD);
    src.try_next_audio();
    assert_eq!(src.pump_on_audio(Received::Again), Request::ReadPacket);
    assert_eq!(
        src.pump_on_packet(ReadOutcome::Eof),
        Request::Finish(Outcome::Nothing)
    );
    assert!(!src.is_draining());
    let mut mute = open(false);
    assert_eq!(
        mute.try_next_audio(),
        Request::Finish(Outcome::Nothing)
    );
}

#[test]
fn pump_offers_a_refused_packet_first() {
    let mut src = open(true);
    src.try_next_audio();
    src.pump_on_audio(Received::Again);
    assert_eq!(
        src.pump_on_packet(ReadOutcome::Packet(Packet {
            stream: AUDIO,
            data: 1
        })),
        Request::SendAudio
    );
    assert_eq!(
        src.pump_on_sent(Sent::Full),
        Request::Finish(Outcome::Nothing)
    );
    src.try_next_audio();
    assert_eq!(src.pump_on_audio(Received::Again), Request::SendAudio);
    assert_eq!(src.in_flight().expect("a packet").data, 1);
}

#[test]
fn speed_reaches_the_sound() {
    let mut src = open(true);
    assert_eq!(src.set_speed(2 * NORMAL_SPEED), Some(24_000));
    assert_eq!(src.set_speed(2 * NORMAL_SPEED), None);
    let chunk = src.audio_chunk(Some(24_000), vec![0u8; 480]);
    assert_eq!(chunk.pts, Duration::from_millis(500));
    assert_eq!(chunk.sample_rate, 24_000);
    assert_eq!(chunk.channels, 2);
    // Two hundred and forty samples per channel at 24 000 a second last ten milliseconds.
    let next = src.audio_chunk(None, vec![0u8; 2]);
    assert_eq!(next.pts, Duration::from_millis(510));
    let mut mute = open(false);
    assert_eq!(mute.set_speed(2 * NORMAL_SPEED), None);
}

#[test]
fn pictures_before_the_start_are_shown_at_the_start() {
    let base = Rational { num: 1, den: 15_360 };
    assert_eq!(video_pts(None, base), Duration::zero());
    assert_eq!(video_pts(Some(-512), base), Duration::zero());
    assert_eq!(video_pts(Some(512), base), Duration::from_nanos(33_333_333));
    let turned = Rational {
        num: -1,
        den: -15_360,
    };
    assert_eq!(
        video_pts(Some(15_360), turned),
        Duration::from_secs(1)
    );
    // Only the sign of the whole counts, and nothing over nothing is the start as well.
    let backwards = Rational {
        num: -1,
        den: 15_360,
    };
    assert_eq!(video_pts(Some(15_360), backwards), Duration::zero());
    assert_eq!(video_pts(Some(-15_360), backwards), Duration::from_secs(1));
    let broken = Rational { num: 1, den: 0 };
    assert_eq!(video_pts(Some(0), broken), Duration::zero());
    assert_eq!(video_pts(Some(-1), broken), Duration::zero());
    assert_eq!(video_pts(Some(7), Rational { num: 0, den: 0 }), Duration::zero());
}

#[test]
fn packets_are_reported_every_two_seconds() {
    let mut c = Counters::new();
    packet(&mut c);
    assert_eq!(
        maybe_report(&mut c, Instant::at_nanos(5)),
        Some(Report {
            packets: 1,
            audio_events: 0
        })
    );
    packet(&mut c);
    packet(&mut c);
    audio_event(&mut c);
    assert_eq!(maybe_report(&mut c, Instant::at_nanos(2_000_000_004)), None);
    assert_eq!(
        maybe_report(&mut c, Instant::at_nanos(2_000_000_005)),
        Some(Report {
            packets: 2,
            audio_events: 1
        })
    );
    assert_eq!(c.packets, 0);
}
