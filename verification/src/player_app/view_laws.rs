//! What holds of the simple player window: where a click leads, what is filled, what the time reads
//! as, and what the pictures are timed by.

use crate::gpui_video::clock_laws::{has_played, law_reading_tells_what_was_played, timed_at};
use crate::gpui_video::playback_clock::Schedule;
use crate::player_app::playback::{
    attached, refreshed, updated, AudioClockSource, PlaybackClock, RenderLoop, AUDIO_BACKOFF_MS,
    AUDIO_BUFFER_MS, DECODE_LOG_EVERY, DROP_THRESHOLD_MS, FRAME_QUEUE_CAP, RESYNC_THRESHOLD_MS,
    SEND_BACKOFF_MS,
};
use crate::player_app::view::{
    at_most, clock_text, filled, place_at, slider_place, PROGRESS_INSET, SEEK_STEP_SECS,
    STATS_WINDOW_SECS,
};
use crate::player_core::audio_output::AudioClock;
use crate::text::{is_number, law_padded_reads_back, padded, reads};
use crate::time::{Duration, Instant};
use vstd::prelude::*;

verus! {

/// The place of a click divides the media as the click divides the slider, cut off to a nanosecond:
/// for every point of the slider, its ends included.
pub proof fn law_place_is_proportional(duration: nat, x: int, width: int)
    requires
        width > 0,
        0 <= x <= width,
    ensures
        place_at(duration, x, width) * width <= duration * x < (place_at(duration, x, width) + 1)
            * width,
{
    let d = duration as int;
    let p = place_at(duration, x, width);
    if x == 0 {
        assert(d * x == 0 && p * width == 0 && (p + 1) * width == width) by (nonlinear_arith)
            requires
                x == 0,
                p == 0,
        ;
    } else if x == width {
        assert(p * width == d * x && d * x < (p + 1) * width) by (nonlinear_arith)
            requires
                x == width,
                p == d,
                width > 0,
        ;
    } else {
        assert(p * width <= d * x < (p + 1) * width) by (nonlinear_arith)
            requires
                p == d * x / width,
                width > 0,
        ;
    }
}

/// A click beside the slider counts as one on the end that is closer.
pub proof fn law_clicks_beside_count_as_ends(duration: nat, x: int, width: int)
    requires
        width > 0,
    ensures
        x < 0 ==> place_at(duration, x, width) == 0,
        x > width ==> place_at(duration, x, width) == duration,
{
}

/// A slider whose width is negative runs the other way: it is the slider of the same size, mirrored.
/// The place is proportional on both.
pub proof fn law_slider_runs_both_ways(duration: nat, x: int, width: int)
    requires
        width > 0,
    ensures
        slider_place(duration, x, width) == slider_place(duration, -x, -width),
        0 <= x <= width ==> slider_place(duration, x, width) * width <= duration * x < (slider_place(
            duration,
            x,
            width,
        ) + 1) * width,
        x <= 0 ==> slider_place(duration, x, width) == 0,
        x >= width ==> slider_place(duration, x, width) == duration,
        0 <= slider_place(duration, x, width) <= duration,
{
    if 0 <= x <= width {
        law_place_is_proportional(duration, x, width);
    }
    crate::player_app::view::law_slider_is_monotone(duration, x, x, width);
}

/// The slider has a margin of twelve pixels on both sides: for a click at `x` on a window that begins
/// at `left`, the place of the slider below it divides the media as the click divides what lies
/// between the margins, whatever the unit of the coordinates.
pub proof fn law_slider_lies_between_the_margins(
    duration: nat,
    x: int,
    left: int,
    width: int,
    unit: int,
)
    requires
        unit >= 0,
        width > 24 * unit,
        left + 12 * unit <= x <= left + width - 12 * unit,
    ensures
        ({
            let place = slider_place(
                duration,
                x - left - PROGRESS_INSET * unit,
                width - 2 * PROGRESS_INSET * unit,
            );
            place * (width - 24 * unit) <= duration * (x - left - 12 * unit) < (place + 1) * (width
                - 24 * unit)
        }),
{
    assert(PROGRESS_INSET * unit == 12 * unit);
    assert(2 * PROGRESS_INSET * unit == 24 * unit);
    law_slider_runs_both_ways(duration, x - left - 12 * unit, width - 24 * unit);
}

/// Equal steps on the slider are equal steps in the media, to a nanosecond.
pub proof fn law_slider_is_even(duration: nat, x: int, step: int, width: int)
    requires
        width > 0,
        0 <= x,
        0 <= step,
        x + step <= width,
    ensures
        ({
            let moved = place_at(duration, x + step, width) - place_at(duration, x, width);
            (moved - 1) * width < duration * step < (moved + 1) * width
        }),
{
    law_place_is_proportional(duration, x, width);
    law_place_is_proportional(duration, x + step, width);
    let a = place_at(duration, x, width);
    let b = place_at(duration, x + step, width);
    let d = duration as int;
    assert(d * (x + step) == d * x + d * step) by (nonlinear_arith);
    assert((b - a - 1) * width == b * width - (a + 1) * width) by (nonlinear_arith);
    assert((b - a + 1) * width == (b + 1) * width - a * width) by (nonlinear_arith);
}

/// The slider is filled up to the place: what is filled is to the whole as the place is to the
/// length, and everything from the end on. Without a length nothing is.
pub proof fn law_slider_is_filled_to_the_place(position: nat, duration: nat)
    ensures
        filled(position, duration).1 > 0,
        filled(position, duration).0 <= filled(position, duration).1,
        duration == 0 ==> filled(position, duration).0 == 0,
        position <= duration && duration > 0 ==> filled(position, duration).0 * duration == position
            * filled(position, duration).1,
        position >= duration > 0 ==> filled(position, duration).0 == filled(position, duration).1,
{
    if position >= duration && duration > 0 && position <= duration {
        assert(duration * duration == position * duration);
    }
}

/// A click fills the slider to where it was made, to a nanosecond's worth: clicking and filling fit
/// together.
pub proof fn law_click_fills_to_the_click(duration: nat, x: int, width: int)
    requires
        width > 0,
        duration > 0,
        0 <= x <= width,
    ensures
        ({
            let part = filled(place_at(duration, x, width) as nat, duration);
            &&& part.0 * width <= part.1 * x
            &&& part.1 * x < (part.0 + 1) * width
        }),
{
    law_place_is_proportional(duration, x, width);
    crate::player_app::view::law_slider_is_monotone(duration, x, x, width);
}

/// The end of the media bounds where a seek goes.
pub proof fn law_seek_stays_inside(target: Duration, end: Duration)
    ensures
        target@ <= end@ ==> at_most(target, end) == target,
        target@ > end@ ==> at_most(target, end) == end,
{
}

/// The time reads back as the whole seconds, in minutes and less than sixty seconds, each with at
/// least two digits.
pub proof fn law_time_reads_back(nanos: nat)
    ensures
        exists|m: Seq<char>, s: Seq<char>|
            {
                &&& #[trigger] is_number(m)
                &&& #[trigger] is_number(s)
                &&& m.len() >= 2
                &&& s.len() == 2
                &&& 0 <= reads(s) < 60
                &&& (reads(m) * 60 + reads(s)) * 1_000_000_000 <= nanos < (reads(m) * 60 + reads(s)
                    + 1) * 1_000_000_000
                &&& clock_text(nanos) == m + ":"@ + s
            },
{
    let secs = nanos / 1_000_000_000;
    law_padded_reads_back(secs / 60, 2);
    law_padded_reads_back(secs % 60, 2);
    let m = padded(secs / 60, 2);
    let s = padded(secs % 60, 2);
    assert(s.len() == 2) by {
        reveal_with_fuel(crate::text::decimal, 3);
    }
    assert(is_number(m) && is_number(s));
    assert(secs == (secs / 60) * 60 + secs % 60);
}

/// The sound leads once it has begun: the place is what was played plus the offset, to the
/// nanosecond, and the start where that lies before it; a picture waits for exactly what is missing,
/// is dropped where it is more than a tenth of a second late, and is shown otherwise.
pub proof fn law_pictures_follow_the_sound(
    clock: PlaybackClock,
    a: AudioClock,
    n: int,
    us: int,
    target: Duration,
    now: Instant,
    r: Schedule,
    after: PlaybackClock,
)
    requires
        clock.audio == Some(a),
        a.started,
        has_played(a, n, us),
        clock.decides(target, now, r, after),
    ensures
        n + clock.audio_offset * 1000 >= 0 ==> timed_at(
            r,
            target@ as int,
            n + clock.audio_offset * 1000,
        ),
        n + clock.audio_offset * 1000 < 0 ==> timed_at(r, target@ as int, 0),
        after == clock,
{
    law_reading_tells_what_was_played(a, n, us);
}

/// Without sound that has begun, the time since the zero of the wall clock counts: a picture waits
/// for exactly what is missing; one that is more than a fifth of a second late is shown too, and the
/// zero moved so that the picture is on time; any other is shown, and the zero stays.
pub proof fn law_pictures_follow_the_wall(
    clock: PlaybackClock,
    zero: Instant,
    target: Duration,
    now: Instant,
    r: Schedule,
    after: PlaybackClock,
)
    requires
        clock.audio is None || !clock.audio->0.started,
        clock.origin == Some(zero),
        zero@ <= now@ <= zero@ + 18_446_744_073_709_551_615_999_999_999,
        clock.decides(target, now, r, after),
    ensures
        r is Wait <==> now@ < zero@ + target@,
        r matches Schedule::Wait(d) ==> now@ + d@ == zero@ + target@,
        r is Resynced <==> zero@ + target@ + 200_000_000 < now@,
        r matches Schedule::Resynced { behind } ==> zero@ + target@ + behind@ == now@,
        r == Schedule::Now <==> zero@ + target@ <= now@ <= zero@ + target@ + 200_000_000,
        after.origin is Some,
        r is Resynced ==> after.origin->0@ + target@ == now@,
        r !is Resynced ==> after.origin->0@ == zero@,
        after == (PlaybackClock { origin: after.origin, ..clock }),
{
}

/// Without sound and without a zero, the picture that comes first is shown at once, and the zero is
/// set so that it is on time.
pub proof fn law_first_picture_sets_the_zero(
    clock: PlaybackClock,
    target: Duration,
    now: Instant,
    r: Schedule,
    after: PlaybackClock,
)
    requires
        clock.audio is None || !clock.audio->0.started,
        clock.origin is None,
        target@ <= 18_446_744_073_709_551_615_999_999_999,
        clock.decides(target, now, r, after),
    ensures
        r == Schedule::Now,
        after.origin is Some,
        after.origin->0@ + target@ == now@,
        after == (PlaybackClock { origin: after.origin, ..clock }),
{
}

/// Bringing the loop up to date takes over the offset and the number every time. A reading is taken
/// over where the number is new or one was known before; without a reading the last one stays. The
/// zero of the wall clock always stays.
pub proof fn law_update_takes_over(
    s: RenderLoop,
    generation: u64,
    offset_us: i64,
    audio: Option<AudioClock>,
)
    ensures
        ({
            let t = updated(s, generation, offset_us, audio);
            &&& t.clock.audio_offset == offset_us
            &&& t.audio_generation == generation
            &&& t.clock.origin == s.clock.origin
            &&& t.clock.watch == s.clock.watch
            &&& audio is None ==> t.clock.audio == s.clock.audio
            &&& audio is Some && s.clock.audio is Some ==> t.clock.audio == audio
            &&& audio is Some && generation != s.audio_generation ==> t.clock.audio == audio
            &&& generation == s.audio_generation && s.clock.audio is None ==> t.clock.audio is None
        }),
{
}

/// What becomes of the next picture after an update is settled by the arguments of that very update:
/// with `n` nanoseconds played, the place of the sound is `n` and the offset, or the start.
pub proof fn law_next_picture_goes_by_the_update(
    s: RenderLoop,
    generation: u64,
    offset_us: i64,
    a: AudioClock,
    n: int,
    us: int,
    target: Duration,
    now: Instant,
    r: Schedule,
    after: PlaybackClock,
)
    requires
        generation != s.audio_generation || s.clock.audio is Some,
        a.started,
        has_played(a, n, us),
        updated(s, generation, offset_us, Some(a)).clock.decides(target, now, r, after),
    ensures
        timed_at(
            r,
            target@ as int,
            if n + offset_us * 1000 < 0 {
                0
            } else {
                n + offset_us * 1000
            },
        ),
{
    law_pictures_follow_the_sound(
        updated(s, generation, offset_us, Some(a)).clock,
        a,
        n,
        us,
        target,
        now,
        r,
        after,
    );
}

/// The clock is handed over once: the first one stays, and reading it again takes in the reading.
pub proof fn law_first_clock_stays(s: AudioClockSource, first: AudioClock, second: AudioClock)
    ensures
        s.clock is None ==> attached(s, first).clock == Some(first),
        s.clock is Some ==> attached(s, first).clock == s.clock,
        attached(attached(s, first), second) == attached(s, first),
        s.clock is Some ==> refreshed(s, second).clock == Some(second),
        s.clock is None ==> refreshed(s, second).clock is None,
{
}

/// The limits: a tenth of a second behind the sound, twice that behind the wall clock, four times
/// that of sound that may wait; three pictures that may wait; short pauses between two attempts; a
/// line in the log for two seconds' worth of pictures, as long as a report of the statistics covers.
pub proof fn law_limits()
    ensures
        DROP_THRESHOLD_MS * 10 == 1000,
        RESYNC_THRESHOLD_MS == 2 * DROP_THRESHOLD_MS,
        AUDIO_BUFFER_MS == 4 * DROP_THRESHOLD_MS,
        FRAME_QUEUE_CAP == 3,
        SEND_BACKOFF_MS == 2,
        AUDIO_BACKOFF_MS == 5,
        DECODE_LOG_EVERY == 30 * STATS_WINDOW_SECS,
        STATS_WINDOW_SECS == 2,
        SEEK_STEP_SECS == 5,
{
}

/// Before the zero of the wall clock a picture waits for its whole time, and the zero stays.
pub proof fn law_nothing_has_passed_before_the_zero(
    clock: PlaybackClock,
    zero: Instant,
    target: Duration,
    now: Instant,
    r: Schedule,
    after: PlaybackClock,
)
    requires
        clock.audio is None || !clock.audio->0.started,
        clock.origin == Some(zero),
        now@ <= zero@,
        clock.decides(target, now, r, after),
    ensures
        target@ > 0 ==> r is Wait && r->Wait_0@ == target@,
        target@ == 0 ==> r == Schedule::Now,
        after.origin is Some,
        after.origin->0@ == zero@,
        after == (PlaybackClock { origin: after.origin, ..clock }),
{
}

} // verus!
