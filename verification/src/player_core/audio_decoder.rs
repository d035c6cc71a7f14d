//! From decoded sound to chunks that the sound card can play.
//!
//! Decoder and resampler are driven from outside; [`AudioDecoder`] decides the rate that the
//! resampler puts out, the time at which each chunk starts, and how much of the resampler's buffer
//! is sound.

use crate::player_core::audio_output::AudioFormat;
use crate::player_core::frame::{
    is_ahead, size_of_i64, stream_duration, AudioChunk, Rational,
};
use crate::time::{ticks_to_nanos, Duration, MAX_NANOS};
use vstd::prelude::*;

verus! {

/// Normal speed. Speeds are counted in steps of which 2^54 make normal speed, so that every
/// double-precision number of the playable range is a whole number of them.
pub const NORMAL_SPEED: u64 = 0x40_0000_0000_0000;

/// The slowest speed: a quarter of normal speed.
pub const MIN_SPEED: u64 = 0x10_0000_0000_0000;

/// The fastest speed: four times normal speed.
pub const MAX_SPEED: u64 = 0x100_0000_0000_0000;

/// Two speeds that are less than this apart count as one: 2^-52 of normal speed.
pub const SPEED_EPSILON: u64 = 4;

/// What is known of the audio stream of a media, before resampling.
#[derive(Debug, Clone, Copy, PartialEq, Eq, Structural)]
pub struct AudioInfo {
    pub sample_rate: u32,
    pub channels: u16,
    /// Total length; empty where the stream does not tell.
    pub duration: Duration,
}

/// An audio stream as the container describes it.
#[derive(Debug, Clone, Copy, PartialEq, Eq, Structural)]
pub struct AudioStream {
    pub index: usize,
    pub time_base: Rational,
    /// Length in ticks of the time base.
    pub duration: i64,
    pub sample_rate: u32,
    pub channels: u16,
}

impl AudioStream {
    /// The size of the length.
    pub open spec fn ticks(self) -> int {
        if self.duration < 0 {
            -self.duration
        } else {
            self.duration as int
        }
    }

    /// The length of the stream is a span of time.
    pub open spec fn measurable(self) -> bool {
        self.time_base.is_time(self.ticks()) && self.time_base.nanos(self.ticks()) <= MAX_NANOS
    }

    /// Whether the length of the stream is a span of time.
    pub fn is_measurable(&self) -> (r: bool)
        ensures
            r == self.measurable(),
    {
        self.time_base.is_span(size_of_i64(self.duration))
    }
}

/// A speed within the range that can be played.
pub open spec fn playable_speed(speed: u64) -> u64 {
    if speed < MIN_SPEED {
        MIN_SPEED
    } else if speed > MAX_SPEED {
        MAX_SPEED
    } else {
        speed
    }
}

/// A speed within the range that can be played.
pub fn clamp_speed(speed: u64) -> (r: u64)
    ensures
        r == playable_speed(speed),
        MIN_SPEED <= r <= MAX_SPEED,
{
    if speed < MIN_SPEED {
        MIN_SPEED
    } else if speed > MAX_SPEED {
        MAX_SPEED
    } else {
        speed
    }
}

/// Two speeds count as one.
pub open spec fn same_speed(a: u64, b: u64) -> bool {
    a - b < SPEED_EPSILON && b - a < SPEED_EPSILON
}

/// Whether two speeds count as one.
pub fn is_same_speed(a: u64, b: u64) -> (r: bool)
    ensures
        r == same_speed(a, b),
{
    if a < b {
        b - a < SPEED_EPSILON
    } else {
        a - b < SPEED_EPSILON
    }
}

/// The smallest power of two that is more than `n`.
pub open spec fn power_above(n: nat) -> nat
    decreases n,
{
    if n == 0 {
        1
    } else {
        2 * power_above(n / 2)
    }
}

/// The smallest power of two that is more than `n`.
fn next_power(n: u64) -> (p: u64)
    requires
        n < 0x1000_0000_0000_0000,
    ensures
        p == power_above(n as nat),
        p <= 2 * n + 1,
    decreases n,
{
    if n == 0 {
        1
    } else {
        2 * next_power(n / 2)
    }
}

/// The rate that the resampler puts out for a device of `rate` samples a second, so that sound
/// plays at `speed`: fewer samples, played at the rate of the device, are over sooner.
///
/// It is the whole part of the quotient as double precision gives it: a quotient that lies below a
/// whole number by no more than half the distance to the next smaller double is that whole number.
pub open spec fn resampled_rate(rate: int, speed: int) -> int {
    let scaled = rate * NORMAL_SPEED;
    let whole = scaled / speed;
    let missing = (whole + 1) * speed - scaled;
    let out = if missing * NORMAL_SPEED <= speed * power_above(whole as nat) {
        whole + 1
    } else {
        whole
    };
    if out > u32::MAX {
        u32::MAX as int
    } else {
        out
    }
}

/// The rate that the resampler puts out.
fn rate_for(rate: u32, speed: u64) -> (r: u32)
    requires
        MIN_SPEED <= speed <= MAX_SPEED,
    ensures
        r == resampled_rate(rate as int, speed as int),
{
    let scaled: u128 = rate as u128 * NORMAL_SPEED as u128;
    let whole: u128 = scaled / speed as u128;
    proof {
        lemma_quotient(rate as int, speed as int);
    }
    let missing: u128 = speed as u128 - scaled % speed as u128;
    let power: u128 = next_power(whole as u64) as u128;
    assert(speed * power <= MAX_SPEED * 0x8_0000_0000) by (nonlinear_arith)
        requires
            0 <= speed <= MAX_SPEED,
            0 <= power <= 0x8_0000_0000,
    ;
    let out: u128 = if missing * NORMAL_SPEED as u128 <= speed as u128 * power {
        whole + 1
    } else {
        whole
    };
    if out > u32::MAX as u128 {
        u32::MAX
    } else {
        out as u32
    }
}

/// The quotient of a rate and a speed is small, and what it lacks to the next whole number is more
/// than nothing.
proof fn lemma_quotient(rate: int, speed: int)
    requires
        0 <= rate <= u32::MAX,
        MIN_SPEED <= speed <= MAX_SPEED,
    ensures
        ({
            let scaled = rate * NORMAL_SPEED;
            let whole = scaled / speed;
            &&& 0 <= whole <= 4 * rate
            &&& (whole + 1) * speed - scaled == speed - scaled % speed
        }),
{
    let scaled = rate * NORMAL_SPEED;
    let whole = scaled / speed;
    assert(0 <= whole <= 4 * rate) by (nonlinear_arith)
        requires
            scaled == rate * NORMAL_SPEED,
            whole == scaled / speed,
            0 <= rate,
            MIN_SPEED <= speed,
            4 * MIN_SPEED == NORMAL_SPEED,
    ;
    assert((whole + 1) * speed - scaled == speed - scaled % speed) by (nonlinear_arith)
        requires
            whole == scaled / speed,
            speed > 0,
    ;
}

/// The state of the audio side of a source.
#[derive(Debug, Clone, Copy, PartialEq, Eq, Structural)]
pub struct AudioDecoder {
    time_base: Rational,
    target: AudioFormat,
    info: AudioInfo,
    speed: u64,
    output_rate: u32,
    next_pts: Duration,
}

/// The state of an audio decoder as its contracts speak of it.
pub struct DecoderState {
    pub time_base: Rational,
    /// The format of the device.
    pub target: AudioFormat,
    pub info: AudioInfo,
    pub speed: u64,
    /// The rate that the resampler puts out.
    pub output_rate: u32,
    /// Where the last chunk ended, in nanoseconds.
    pub next_pts: nat,
}

impl DecoderState {
    /// Speed and rate fit together.
    pub open spec fn wf(self) -> bool {
        &&& MIN_SPEED <= self.speed <= MAX_SPEED
        &&& self.output_rate == resampled_rate(self.target.sample_rate as int, self.speed as int)
    }

    /// The nanosecond at which a chunk with this time stamp starts; one without a time stamp
    /// follows the one before it.
    pub open spec fn start_of(self, timestamp: Option<i64>) -> int {
        match timestamp {
            Some(ts) => self.time_base.nanos(ts as int),
            None => self.next_pts as int,
        }
    }

    /// A chunk of `samples` samples with this time stamp lies on the time line.
    pub open spec fn accepts(self, timestamp: Option<i64>, samples: nat) -> bool {
        &&& timestamp matches Some(ts) ==> self.time_base.is_time(ts as int)
        &&& self.start_of(timestamp) + self.length_of(samples) <= MAX_NANOS
    }

    /// How many nanoseconds `samples` samples play.
    pub open spec fn length_of(self, samples: nat) -> int {
        ticks_to_nanos(
            (samples / crate::player_core::frame::at_least_one(
                self.target.channels as int,
            ) as nat) as int,
            crate::player_core::frame::at_least_one(self.output_rate as int),
        )
    }
}

/// The decoder after its speed was set. A speed that counts as the one it has changes nothing.
pub open spec fn at_speed(d: DecoderState, speed: u64) -> DecoderState {
    if same_speed(playable_speed(speed), d.speed) {
        d
    } else {
        DecoderState {
            speed: playable_speed(speed),
            output_rate: resampled_rate(
                d.target.sample_rate as int,
                playable_speed(speed) as int,
            ) as u32,
            ..d
        }
    }
}

impl View for AudioDecoder {
    type V = DecoderState;

    closed spec fn view(&self) -> DecoderState {
        DecoderState {
            time_base: self.time_base,
            target: self.target,
            info: self.info,
            speed: self.speed,
            output_rate: self.output_rate,
            next_pts: self.next_pts@,
        }
    }
}

/// The sound at the front of a buffer that holds `frames` samples for each channel: the buffer may
/// be longer, for alignment, or shorter, and is never read past its end.
pub fn interleaved<S: Copy>(plane: &Vec<S>, frames: usize, channels: u16) -> (out: Vec<S>)
    requires
        frames * channels <= usize::MAX,
    ensures
        out@ == plane@.take(
            if frames * channels <= plane@.len() {
                frames * channels
            } else {
                plane@.len() as int
            },
        ),
{
    let wanted: usize = frames * channels as usize;
    let avail: usize = plane.len();
    let take: usize = if wanted <= avail {
        wanted
    } else {
        avail
    };
    let mut out: Vec<S> = Vec::new();
    let mut i: usize = 0;
    while i < take
        invariant
            i <= take <= plane@.len(),
            out@ == plane@.take(i as int),
        decreases take - i,
    {
        out.push(plane[i]);
        i = i + 1;
        assert(out@ =~= plane@.take(i as int));
    }
    out
}

impl AudioDecoder {
    /// A decoder for `stream` whose chunks fit the device, at normal speed.
    pub fn new(stream: &AudioStream, target: AudioFormat) -> (d: AudioDecoder)
        requires
            stream.measurable(),
        ensures
            d@.wf(),
            d@.time_base == stream.time_base,
            d@.target == target,
            d@.speed == NORMAL_SPEED,
            d@.output_rate == target.sample_rate,
            d@.next_pts == 0,
            d@.info.sample_rate == stream.sample_rate,
            d@.info.channels == stream.channels,
            d@.info.duration@ == stream.time_base.nanos(stream.ticks()),
    {
        let duration = stream_duration(stream.duration, stream.time_base);
        proof {
            lemma_normal_rate(target.sample_rate as int);
        }
        AudioDecoder {
            time_base: stream.time_base,
            target,
            info: AudioInfo {
                sample_rate: stream.sample_rate,
                channels: stream.channels,
                duration,
            },
            speed: NORMAL_SPEED,
            output_rate: target.sample_rate,
            next_pts: Duration::zero(),
        }
    }

    /// The speed.
    pub fn speed(&self) -> (s: u64)
        ensures
            s == self@.speed,
    {
        self.speed
    }

    /// The rate that the resampler has to put out.
    pub fn output_rate(&self) -> (r: u32)
        ensures
            r == self@.output_rate,
    {
        self.output_rate
    }

    /// Sets the speed, within the playable range. Where that changes it, the resampler has to be
    /// built anew for the rate that is returned.
    pub fn set_speed(&mut self, speed: u64) -> (rebuild: Option<u32>)
        requires
            old(self)@.wf(),
        ensures
            final(self)@.wf(),
            final(self)@ == at_speed(old(self)@, speed),
            rebuild == (if same_speed(playable_speed(speed), old(self)@.speed) {
                None
            } else {
                Some(final(self)@.output_rate)
            }),
    {
        let speed: u64 = clamp_speed(speed);
        if is_same_speed(speed, self.speed) {
            return None;
        }
        self.speed = speed;
        self.output_rate = rate_for(self.target.sample_rate, speed);
        Some(self.output_rate)
    }

    /// What is known of the stream.
    pub fn info(&self) -> (i: AudioInfo)
        ensures
            i == self@.info,
    {
        self.info
    }

    /// The format of the device.
    pub fn format(&self) -> (f: AudioFormat)
        ensures
            f == self@.target,
    {
        self.target
    }

    /// Whether a chunk of so many samples with this time stamp can be made.
    pub fn can_take(&self, timestamp: Option<i64>, samples: usize) -> (r: bool)
        ensures
            r == self@.accepts(timestamp, samples as nat),
    {
        let channels: usize = if self.target.channels == 0 {
            1
        } else {
            self.target.channels as usize
        };
        let rate: u32 = if self.output_rate == 0 {
            1
        } else {
            self.output_rate
        };
        let length: u128 = Duration::from_ticks((samples / channels) as u64, rate).as_nanos();
        let start: u128 = match timestamp {
            Some(ts) => {
                if self.time_base.den == 0 || (ts != 0 && self.time_base.num != 0 && !is_ahead(
                    ts,
                    self.time_base,
                )) {
                    proof {
                        lemma_not_a_time(self.time_base, ts as int);
                    }
                    return false;
                }
                proof {
                    lemma_not_a_time(self.time_base, ts as int);
                }
                self.time_base.nanos_of(size_of_i64(ts))
            },
            None => self.next_pts.as_nanos(),
        };
        start <= MAX_NANOS && length <= MAX_NANOS - start
    }

    /// Makes a chunk of decoded samples. One without a time stamp starts where the one before it
    /// ended.
    pub fn receive<S>(&mut self, timestamp: Option<i64>, samples: Vec<S>) -> (chunk: AudioChunk<S>)
        requires
            old(self)@.accepts(timestamp, samples@.len()),
        ensures
            chunk.samples == samples,
            chunk.channels == old(self)@.target.channels,
            chunk.sample_rate == old(self)@.output_rate,
            chunk.pts@ == old(self)@.start_of(timestamp),
            final(self)@ == (DecoderState {
                next_pts: (old(self)@.start_of(timestamp) + old(self)@.length_of(
                    samples@.len(),
                )) as nat,
                ..old(self)@
            }),
    {
        let pts = match timestamp {
            Some(ts) => {
                proof {
                    lemma_length_nonnegative(self@, samples@.len());
                }
                self.time_base.time_of(size_of_i64(ts))
            },
            None => self.next_pts,
        };
        let chunk = AudioChunk {
            samples,
            channels: self.target.channels,
            sample_rate: self.output_rate,
            pts,
        };
        let length = chunk.duration();
        self.next_pts = pts.plus(length);
        chunk
    }

    /// Makes a chunk of what the resampler still held at the end of the stream, where that is
    /// anything.
    pub fn flush_resampler<S>(&mut self, samples: Vec<S>) -> (chunk: Option<AudioChunk<S>>)
        requires
            old(self)@.next_pts + old(self)@.length_of(samples@.len()) <= MAX_NANOS,
        ensures
            samples@.len() == 0 ==> chunk is None && final(self)@ == old(self)@,
            samples@.len() > 0 ==> {
                &&& chunk matches Some(c)
                &&& c.samples == samples
                &&& c.channels == old(self)@.target.channels
                &&& c.sample_rate == old(self)@.output_rate
                &&& c.pts@ == old(self)@.next_pts
                &&& final(self)@ == (DecoderState {
                    next_pts: (old(self)@.next_pts + old(self)@.length_of(samples@.len())) as nat,
                    ..old(self)@
                })
            },
    {
        if samples.len() == 0 {
            return None;
        }
        Some(self.receive(None, samples))
    }

    /// Forgets what belongs to the place before a seek. The resampler has to be built anew for the
    /// rate that is returned; the speed stays.
    pub fn flush(&mut self) -> (rebuild: u32)
        ensures
            rebuild == old(self)@.output_rate,
            final(self)@ == (DecoderState { next_pts: 0, ..old(self)@ }),
    {
        self.next_pts = Duration::zero();
        self.output_rate
    }
}

/// When a number of ticks is no time.
proof fn lemma_not_a_time(base: Rational, ticks: int)
    ensures
        base.is_time(ticks) <==> base.den != 0 && (ticks == 0 || base.num == 0 || base.is_ahead(
            ticks,
        )),
{
    assert(ticks * base.num == 0 <==> ticks == 0 || base.num == 0) by (nonlinear_arith);
}

proof fn lemma_length_nonnegative(s: DecoderState, samples: nat)
    ensures
        s.length_of(samples) >= 0,
{
    let ticks = (samples / crate::player_core::frame::at_least_one(
        s.target.channels as int,
    ) as nat) as int;
    let rate = crate::player_core::frame::at_least_one(s.output_rate as int);
    assert((2 * (ticks * 1_000_000_000) + rate) / (2 * rate) >= 0) by (nonlinear_arith)
        requires
            ticks >= 0,
            rate >= 1,
    ;
}

/// Chunks without time stamps follow each other without a gap: the second one starts where the
/// first one ended.
pub proof fn law_chunks_are_seamless(s: DecoderState, first: nat)
    ensures
        ({
            let after = DecoderState {
                next_pts: (s.start_of(None) + s.length_of(first)) as nat,
                ..s
            };
            after.start_of(None) == s.start_of(None) + s.length_of(first)
        }),
{
    lemma_length_nonnegative(s, first);
}

/// Playing faster puts out no more samples, and normal speed puts out the rate of the device.
pub proof fn law_faster_is_shorter(rate: u32, slow: u64, fast: u64)
    requires
        MIN_SPEED <= slow <= fast <= MAX_SPEED,
    ensures
        resampled_rate(rate as int, fast as int) <= resampled_rate(rate as int, slow as int),
        resampled_rate(rate as int, NORMAL_SPEED as int) == rate,
{
    let scaled = rate * NORMAL_SPEED;
    let (s, f) = (slow as int, fast as int);
    lemma_quotient(rate as int, s);
    lemma_quotient(rate as int, f);
    let whole = scaled / s;
    assert(scaled / f <= whole) by (nonlinear_arith)
        requires
            0 <= scaled,
            0 < s <= f,
            whole == scaled / s,
    ;
    if scaled / f == whole {
        let power = power_above(whole as nat) as int;
        lemma_power_is_near(whole as nat);
        let factor = (whole + 1) * NORMAL_SPEED - power;
        assert(factor * s <= factor * f) by (nonlinear_arith)
            requires
                factor >= 0,
                s <= f,
        ;
        lemma_rounds_up(scaled, whole, s, power);
        lemma_rounds_up(scaled, whole, f, power);
    }
    lemma_normal_rate(rate as int);
}

proof fn lemma_power_is_near(n: nat)
    ensures
        n < power_above(n) <= 2 * n + 1,
    decreases n,
{
    if n > 0 {
        lemma_power_is_near(n / 2);
    }
}

/// When a quotient counts as the next whole number, said of the speed alone.
proof fn lemma_rounds_up(scaled: int, whole: int, speed: int, power: int)
    ensures
        ((whole + 1) * speed - scaled) * NORMAL_SPEED <= speed * power <==> ((whole + 1)
            * NORMAL_SPEED - power) * speed <= scaled * NORMAL_SPEED,
{
    let n = NORMAL_SPEED as int;
    assert(((whole + 1) * speed - scaled) * n == ((whole + 1) * n) * speed - scaled * n)
        by (nonlinear_arith);
    assert(((whole + 1) * n - power) * speed == ((whole + 1) * n) * speed - speed * power)
        by (nonlinear_arith);
}

/// Normal speed puts out the rate of the device.
proof fn lemma_normal_rate(rate: int)
    requires
        0 <= rate <= u32::MAX,
    ensures
        resampled_rate(rate, NORMAL_SPEED as int) == rate,
{
    let n = NORMAL_SPEED as int;
    assert(rate * n / n == rate) by (nonlinear_arith)
        requires
            n > 0,
    ;
    lemma_power_is_near(rate as nat);
    let power = power_above(rate as nat) as int;
    assert((rate + 1) * n - rate * n == n) by (nonlinear_arith);
    assert(n * n > n * power) by (nonlinear_arith)
        requires
            n > power,
            n > 0,
    ;
}

} // verus!
