//! What holds of time stamps, of the sound on its way to the card, and of the speeds, in terms of the
//! numbers that go in.

use crate::player_core::audio_decoder::{
    at_speed, playable_speed, power_above, resampled_rate, same_speed, AudioStream, DecoderState,
    MAX_SPEED, MIN_SPEED, NORMAL_SPEED,
};
use crate::player_core::audio_output::{
    after_callback, channels_of, drained, filled_of, limited, played, AudioClock, AudioFormat,
    OutputState,
};
use crate::player_core::frame::{at_least_one, has_pts, Rational};
use crate::player_core::media_source::VideoStream;
use crate::time::{
    law_nearest_is_closest, law_ticks_last_their_share, lemma_nearest_is_unique,
};
use vstd::prelude::*;

verus! {

/// What a fraction says of a count of ticks depends on its value, not on how it is written: turning
/// both signs changes nothing. With a positive denominator a count is ahead where count and numerator
/// have the same sign, and a time where they have, or where it is nothing.
pub proof fn law_signs_of_fractions(base: Rational, turned: Rational, ticks: int)
    requires
        base.den > 0,
        turned.num == -base.num,
        turned.den == -base.den,
    ensures
        base.is_ahead(ticks) <==> (ticks > 0 && base.num > 0) || (ticks < 0 && base.num < 0),
        turned.is_ahead(ticks) <==> base.is_ahead(ticks),
        base.is_time(ticks) <==> base.is_ahead(ticks) || ticks == 0 || base.num == 0,
        turned.is_time(ticks) <==> base.is_time(ticks),
        base.positive() <==> base.num > 0,
        turned.positive() <==> base.positive(),
        turned.nanos(ticks) == base.nanos(ticks),
{
    let n = base.num as int;
    assert(ticks * n > 0 <==> (ticks > 0 && n > 0) || (ticks < 0 && n < 0)) by (nonlinear_arith);
    assert(ticks * n == 0 <==> ticks == 0 || n == 0) by (nonlinear_arith);
    assert(ticks * (-n) == -(ticks * n)) by (nonlinear_arith);
}

/// Without a denominator nothing is a time, and no rate is positive; a count is ahead as with the
/// denominator one.
pub proof fn law_fractions_without_denominator(base: Rational, whole: Rational, ticks: int)
    requires
        base.den == 0,
        whole.den == 1,
        whole.num == base.num,
    ensures
        !base.is_time(ticks),
        !base.positive(),
        base.is_ahead(ticks) <==> whole.is_ahead(ticks),
{
}

/// The nanoseconds of a count of ticks are right to half a nanosecond: `den` seconds hold `num` units
/// for each tick. Signs are left out.
pub proof fn law_ticks_become_nanos(base: Rational, ticks: int)
    requires
        base.num >= 0,
        base.den > 0,
        ticks >= 0,
    ensures
        -base.den < 2 * (base.nanos(ticks) * base.den - ticks * base.num * 1_000_000_000)
            <= base.den,
        base.nanos(-ticks) == base.nanos(ticks),
        ticks == base.den ==> base.nanos(ticks) == base.num * 1_000_000_000,
{
    law_nearest_is_closest(ticks * base.num * 1_000_000_000, base.den as int);
    if ticks == base.den {
        let (n, d) = (base.num as int, base.den as int);
        assert(n * 1_000_000_000 * d == ticks * n * 1_000_000_000) by (nonlinear_arith)
            requires
                ticks == d,
        ;
        lemma_nearest_is_unique(ticks * n * 1_000_000_000, d, n * 1_000_000_000);
    }
}

/// A frame has a presentation time unless its time stamp is ahead and the fraction has no denominator
/// or the span is longer than any.
pub proof fn law_which_frames_have_a_time(ts: i64, base: Rational)
    ensures
        has_pts(None, base),
        !base.is_ahead(ts as int) ==> has_pts(Some(ts), base),
        base.is_ahead(ts as int) && base.den == 0 ==> !has_pts(Some(ts), base),
        base.is_ahead(ts as int) && base.den != 0 ==> (has_pts(Some(ts), base) <==> base.nanos(
            ts as int,
        ) <= 18_446_744_073_709_551_615_999_999_999),
{
}

/// A reading of the sound card's clock tells what was played to half a nanosecond: a second holds as
/// many samples as the rate says; whole seconds are exact.
pub proof fn law_reading_is_the_time_played(a: AudioClock, secs: int)
    requires
        a.sample_rate > 0,
    ensures
        -(a.sample_rate as int) < 2 * (a.nanos() * a.sample_rate - a.frames_played * 1_000_000_000)
            <= a.sample_rate,
        a.frames_played == secs * a.sample_rate ==> a.nanos() == secs * 1_000_000_000,
{
    law_ticks_last_their_share(a.frames_played as int, a.sample_rate as int, secs);
}

/// A callback takes what it can from the front of the queue and leaves the rest in its order; the
/// device gets that, and silence for what was missing.
pub proof fn law_callback_plays_the_front<S>(
    s: OutputState<S>,
    requested: nat,
    silence: S,
    i: int,
)
    requires
        0 <= i < requested,
    ensures
        ({
            let after = after_callback(s, requested as int);
            let out = played(s.queue, requested, silence);
            &&& out.len() == requested
            &&& i < s.queue.len() ==> out[i] == s.queue[i]
            &&& i >= s.queue.len() ==> out[i] == silence
            &&& requested <= s.queue.len() ==> after.queue.len() + requested == s.queue.len()
            &&& requested <= s.queue.len() ==> out + after.queue == s.queue
            &&& requested > s.queue.len() ==> after.queue.len() == 0
        }),
{
    let after = after_callback(s, requested as int);
    let out = played(s.queue, requested, silence);
    if requested <= s.queue.len() {
        assert(out + after.queue =~= s.queue);
    }
}

/// A callback moves the clock by the samples per channel that the device asked for, once anything was
/// played, and not at all before. Playing has begun once the device got a sample. The device was
/// starved where it got less than it asked for, unless that was expected; one such gap uses up what
/// was expected. Nothing else changes.
pub proof fn law_callback_keeps_the_books<S>(s: OutputState<S>, requested: nat)
    requires
        s.format.channels > 0,
        s.frames_played + requested <= u64::MAX,
    ensures
        ({
            let after = after_callback(s, requested as int);
            let passed = after.frames_played - s.frames_played;
            let starved = after.started && s.queue.len() < requested;
            &&& after.started <==> s.started || (s.queue.len() > 0 && requested > 0)
            &&& after.started ==> passed * s.format.channels <= requested < (passed + 1)
                * s.format.channels
            &&& !after.started ==> passed == 0
            &&& after.underrun <==> s.underrun || (starved && !s.grace)
            &&& after.grace <==> s.grace && !starved
            &&& after.format == s.format
            &&& after.paused == s.paused
            &&& after.volume == s.volume
            &&& after.pushed_frames == s.pushed_frames
        }),
{
    let c = s.format.channels as int;
    let n = requested as int;
    let q = n / c;
    assert(q * c <= n < (q + 1) * c && 0 <= q <= n) by (nonlinear_arith)
        requires
            q == n / c,
            c > 0,
            n >= 0,
    ;
}

/// Two callbacks one after the other play what one of both their sizes would have played, and leave
/// the same queue.
pub proof fn law_callbacks_add_up<S>(queue: Seq<S>, first: nat, second: nat, silence: S)
    ensures
        played(queue, first, silence) + played(drained(queue, first as int), second, silence)
            == played(queue, first + second, silence),
        drained(drained(queue, first as int), second as int) == drained(
            queue,
            (first + second) as int,
        ),
        filled_of(queue.len() as int, first as int) + filled_of(
            drained(queue, first as int).len() as int,
            second as int,
        ) == filled_of(queue.len() as int, (first + second) as int),
{
    assert(played(queue, first, silence) + played(drained(queue, first as int), second, silence)
        =~= played(queue, first + second, silence));
    assert(drained(drained(queue, first as int), second as int) =~= drained(
        queue,
        (first + second) as int,
    ));
}

/// Samples are shared out to as many channels as the format has; a format without channels counts as
/// one with a single one.
pub proof fn law_samples_are_shared_out(format: AudioFormat, x: int)
    ensures
        format.channels > 0 ==> channels_of(format) == format.channels,
        format.channels == 0 ==> channels_of(format) == 1,
        x >= 1 ==> at_least_one(x) == x,
        x < 1 ==> at_least_one(x) == 1,
{
}

/// A volume stays as it is from silence to full volume; a larger one, endless ones included, counts as
/// full volume, and a negative one, endless ones included, as silence. Volumes are given by the bits
/// of single-precision numbers: positive ones are ordered as their bits are, and the highest bit is
/// the sign. What is no number stays.
pub proof fn law_volume_is_limited(volume: u32)
    ensures
        volume <= 0x3f80_0000 ==> limited(volume) == volume,
        0x3f80_0000 < volume <= 0x7f80_0000 ==> limited(volume) == 0x3f80_0000,
        0x7f80_0000 < volume <= 0x8000_0000 ==> limited(volume) == volume,
        0x8000_0000 < volume <= 0xff80_0000 ==> limited(volume) == 0,
        0xff80_0000 < volume ==> limited(volume) == volume,
        limited(limited(volume)) == limited(volume),
{
}

/// A speed from a quarter of normal speed to four times normal speed can be played as it is; one
/// beyond that counts as the bound that it passes. Two speeds are one where they are less than four of
/// the 2^54 steps of normal speed apart.
pub proof fn law_speeds_are_limited(a: u64, b: u64)
    ensures
        NORMAL_SPEED == 0x40_0000_0000_0000,
        NORMAL_SPEED <= 4 * a && a <= 4 * NORMAL_SPEED ==> playable_speed(a) == a,
        4 * a < NORMAL_SPEED ==> 4 * playable_speed(a) == NORMAL_SPEED,
        a > 4 * NORMAL_SPEED ==> playable_speed(a) == 4 * NORMAL_SPEED,
        same_speed(a, b) <==> -4 < a - b < 4,
{
}

/// The power of two above a number: the number is less than it, and not less than half of it.
pub proof fn law_power_is_just_above(n: nat)
    ensures
        n < power_above(n),
        n > 0 ==> power_above(n) <= 2 * n,
        power_above(2 * n + 1) == 2 * power_above(n),
        n > 0 ==> power_above(2 * n) == 2 * power_above(n),
        power_above(0) == 1,
    decreases n,
{
    if n > 1 {
        law_power_is_just_above(n / 2);
    }
    reveal_with_fuel(power_above, 2);
}

/// The rate that the resampler puts out is that of the device divided by the speed, cut off: `out`
/// samples at the speed make up no more than the rate, but for the precision of the quotient, and one
/// more would. Where the quotient is whole it is met exactly. Rates that do not fit are capped.
pub proof fn law_resampled_rate_is_the_quotient(rate: u32, speed: u64, k: int)
    requires
        MIN_SPEED <= speed <= MAX_SPEED,
    ensures
        ({
            let out = resampled_rate(rate as int, speed as int);
            &&& 0 <= out <= u32::MAX
            &&& out < u32::MAX ==> rate * 0x40_0000_0000_0000 < (out + 1) * speed
            &&& (out * speed - rate * 0x40_0000_0000_0000) * 0x40_0000_0000_0000 <= 2 * out * speed
            &&& k * speed == rate * 0x40_0000_0000_0000 && k <= u32::MAX ==> out == k
        }),
{
    let n = 0x40_0000_0000_0000int;
    let sp = speed as int;
    let scaled = rate * n;
    let whole = scaled / sp;
    assert(whole * sp <= scaled < (whole + 1) * sp && whole >= 0) by (nonlinear_arith)
        requires
            whole == scaled / sp,
            sp > 0,
            scaled >= 0,
    ;
    law_power_is_just_above(whole as nat);
    let power = power_above(whole as nat) as int;
    let missing = (whole + 1) * sp - scaled;
    let out = resampled_rate(rate as int, sp);
    let uncapped = if missing * n <= sp * power {
        whole + 1
    } else {
        whole
    };
    assert(scaled < (uncapped + 1) * sp) by (nonlinear_arith)
        requires
            scaled < (whole + 1) * sp,
            uncapped >= whole,
            sp > 0,
    ;
    if out <= whole {
        assert(out * sp <= whole * sp) by (nonlinear_arith)
            requires
                out <= whole,
                sp > 0,
        ;
        assert((out * sp - scaled) * n <= 0 && 0 <= 2 * out * sp) by (nonlinear_arith)
            requires
                out * sp - scaled <= 0,
                n > 0,
                out >= 0,
                sp > 0,
        ;
    } else {
        assert(out == whole + 1);
        assert((out * sp - scaled) * n == missing * n);
        assert(sp * power <= 2 * out * sp) by (nonlinear_arith)
            requires
                power <= 2 * out,
                sp > 0,
        ;
    }
    if k * sp == scaled && k <= u32::MAX {
        assert(k == whole) by (nonlinear_arith)
            requires
                whole * sp <= k * sp < (whole + 1) * sp,
                sp > 0,
        ;
        assert((whole + 1) * sp == whole * sp + sp) by (nonlinear_arith);
        assert(missing == sp);
        assert(sp * n > sp * power) by (nonlinear_arith)
            requires
                power <= 2 * 0x1_0000_0000,
                n > 2 * 0x1_0000_0000,
                sp > 0,
        ;
        assert(whole >= 0 && power <= 2 * whole + 1);
    }
}

/// Setting the speed takes over the one that was asked for, or the bound that it passes, and the rate
/// that belongs to it, unless that hardly changes the speed; nothing else changes.
pub proof fn law_speed_is_taken_over(d: DecoderState, speed: u64)
    requires
        d.wf(),
    ensures
        ({
            let after = at_speed(d, speed);
            let wanted = if 4 * speed < 0x40_0000_0000_0000 {
                0x10_0000_0000_0000
            } else if speed > 4 * 0x40_0000_0000_0000 {
                0x100_0000_0000_0000
            } else {
                speed as int
            };
            &&& -4 < wanted - d.speed < 4 ==> after == d
            &&& !(-4 < wanted - d.speed < 4) ==> after.speed == wanted && after.output_rate
                == resampled_rate(d.target.sample_rate as int, wanted)
            &&& after.time_base == d.time_base
            &&& after.target == d.target
            &&& after.info == d.info
            &&& after.next_pts == d.next_pts
            &&& after.wf()
        }),
{
    law_resampled_rate_is_the_quotient(d.target.sample_rate, playable_speed(speed), 0);
}

/// The length of a stream can be measured where its ticks, signs left out, are a time and no longer
/// than the longest span.
pub proof fn law_which_streams_can_be_measured(a: AudioStream, v: VideoStream)
    ensures
        a.duration >= 0 ==> a.ticks() == a.duration,
        a.duration < 0 ==> a.ticks() == -a.duration,
        v.duration >= 0 ==> v.ticks() == v.duration,
        v.duration < 0 ==> v.ticks() == -v.duration,
        a.measurable() <==> a.time_base.is_time(a.ticks()) && a.time_base.nanos(a.ticks())
            <= 18_446_744_073_709_551_615_999_999_999,
        v.measurable() <==> v.time_base.is_time(v.ticks()) && v.time_base.nanos(v.ticks())
            <= 18_446_744_073_709_551_615_999_999_999,
{
}

/// A chunk with a time stamp starts at the time of the stamp, to half a nanosecond; one without it
/// starts where the one before it ended.
pub proof fn law_chunks_start_at_their_stamp(d: DecoderState, ts: i64)
    requires
        d.time_base.num > 0,
        d.time_base.den > 0,
        ts >= 0,
    ensures
        d.start_of(None) == d.next_pts,
        -d.time_base.den < 2 * (d.start_of(Some(ts)) * d.time_base.den - ts * d.time_base.num
            * 1_000_000_000) <= d.time_base.den,
{
    law_ticks_become_nanos(d.time_base, ts as int);
}

/// A chunk plays as long as its samples per channel do at the rate of the resampler, to half a
/// nanosecond.
pub proof fn law_chunks_last_their_samples(d: DecoderState, samples: nat, frames: int)
    requires
        d.target.channels > 0,
        d.output_rate > 0,
        frames * d.target.channels <= samples < (frames + 1) * d.target.channels,
    ensures
        -(d.output_rate as int) < 2 * (d.length_of(samples) * d.output_rate - frames
            * 1_000_000_000) <= d.output_rate,
{
    let c = d.target.channels as int;
    let n = samples as int;
    assert(n / c == frames) by (nonlinear_arith)
        requires
            frames * c <= n < (frames + 1) * c,
            c > 0,
    ;
    law_ticks_last_their_share(frames, d.output_rate as int, 0);
}

/// A chunk is taken where its stamp is a time and its end is a span of time.
pub proof fn law_which_chunks_are_taken(d: DecoderState, ts: i64, samples: nat)
    ensures
        d.accepts(None, samples) <==> d.next_pts + d.length_of(samples)
            <= 18_446_744_073_709_551_615_999_999_999,
        d.accepts(Some(ts), samples) <==> d.time_base.is_time(ts as int) && d.start_of(Some(ts))
            + d.length_of(samples) <= 18_446_744_073_709_551_615_999_999_999,
{
}

} // verus!
