//! What holds of the clock that times the pictures, in terms of what has been played.

use crate::gpui_video::controller::commands::PREVIEW_MIN_INTERVAL_MS;
use crate::gpui_video::playback_clock::{
    lag_is, Lag, PlaybackClock, Schedule, DROP_THRESHOLD_MS, RESYNC_THRESHOLD_MS,
};
use crate::gpui_video::player::{
    by_schedule, drift, lasting, same_window, updated, Player, RenderLoop, Showing, MAX_WAIT_MS,
    SEEK_STEP_SECS, STATS_WINDOW_SECS,
};
use crate::player_core::audio_output::AudioClock;
use crate::time::{lemma_nearest_is_unique, Duration, Instant};
use vstd::prelude::*;

verus! {

/// The device has played `us` whole microseconds: `n` is the nanosecond closest to the samples that
/// it has consumed, of which there are as many in a second as its rate says.
pub open spec fn has_played(a: AudioClock, n: int, us: int) -> bool {
    &&& a.sample_rate > 0
    &&& -(a.sample_rate as int) < 2 * (n * a.sample_rate - a.frames_played * 1_000_000_000)
        <= a.sample_rate
    &&& us * 1000 <= n < us * 1000 + 1000
    &&& 0 <= us < 0x8000_0000_0000_0000
}

/// What a picture of the time `target` comes to by a clock that stands at `place`, both in
/// nanoseconds: it waits for exactly what is missing, is dropped where it is more than a tenth of a
/// second late, and is shown otherwise.
pub open spec fn timed_at(r: Schedule, target: int, place: int) -> bool {
    &&& r is Wait <==> place < target
    &&& r matches Schedule::Wait(d) ==> place + d@ == target
    &&& r is Drop <==> target + 100_000_000 < place
    &&& r matches Schedule::Drop { behind } ==> target + behind@ == place
    &&& r == Schedule::Now <==> target <= place <= target + 100_000_000
}

/// A reading of the sound card's clock tells what was played to half a nanosecond: a second holds as
/// many samples as the rate says.
pub proof fn law_reading_tells_what_was_played(a: AudioClock, n: int, us: int)
    requires
        has_played(a, n, us),
    ensures
        a.nanos() == n,
        a.nanos() / 1000 == us,
{
    lemma_nearest_is_unique(a.frames_played * 1_000_000_000, a.sample_rate as int, n);
}

/// The sound leads: with `p` microseconds played and an offset that puts the place inside the media,
/// a picture is timed by exactly the sum of the two. A place before the start counts as the start.
/// Past the end of a media whose length is known nothing is waited for and nothing dropped.
pub proof fn law_pictures_follow_the_sound(
    clock: PlaybackClock,
    a: AudioClock,
    n: int,
    p: int,
    target: Duration,
    now: Instant,
    r: Schedule,
    after: PlaybackClock,
)
    requires
        clock.audio == Some(a),
        a.started,
        has_played(a, n, p),
        clock.duration_us < 0x8000_0000_0000_0000,
        clock.decides(target, now, r, after),
    ensures
        0 <= p + clock.audio_offset && (clock.duration_us == 0 || p + clock.audio_offset
            <= clock.duration_us) ==> timed_at(
            r,
            target@ as int,
            (p + clock.audio_offset) * 1000,
        ),
        p + clock.audio_offset < 0 ==> timed_at(r, target@ as int, 0),
        clock.duration_us > 0 && p + clock.audio_offset > clock.duration_us ==> r == Schedule::Now,
        after == clock,
{
    law_reading_tells_what_was_played(a, n, p);
}

/// Only what was played, the offset and the length of the media count while the sound leads: two
/// clocks that agree in them decide alike, at whatever time they are asked.
pub proof fn law_wall_clock_is_silent_under_sound(
    first: PlaybackClock,
    second: PlaybackClock,
    a: AudioClock,
    target: Duration,
    now: Instant,
    later: Instant,
    r: Schedule,
    s: Schedule,
    after: PlaybackClock,
    too: PlaybackClock,
)
    requires
        first.audio == Some(a),
        second.audio == Some(a),
        a.started,
        first.audio_offset == second.audio_offset,
        first.duration_us == second.duration_us,
        first.decides(target, now, r, after),
        second.decides(target, later, s, too),
    ensures
        r is Wait <==> s is Wait,
        r is Drop <==> s is Drop,
        r matches Schedule::Wait(d) ==> s->Wait_0@ == d@,
        r matches Schedule::Drop { behind } ==> s->Drop_behind@ == behind@,
        r !is Resynced,
{
}

/// What was played and the offset count only by their sum: where that is the same, so is what becomes
/// of a picture.
pub proof fn law_offset_and_sound_add_up(
    clock: PlaybackClock,
    other: PlaybackClock,
    a: AudioClock,
    b: AudioClock,
    n: int,
    m: int,
    p: int,
    q: int,
    target: Duration,
    now: Instant,
    r: Schedule,
    s: Schedule,
    after: PlaybackClock,
    too: PlaybackClock,
)
    requires
        clock.audio == Some(a),
        other.audio == Some(b),
        a.started,
        b.started,
        has_played(a, n, p),
        has_played(b, m, q),
        p + clock.audio_offset == q + other.audio_offset,
        clock.duration_us == other.duration_us,
        clock.decides(target, now, r, after),
        other.decides(target, now, s, too),
    ensures
        r is Wait <==> s is Wait,
        r is Drop <==> s is Drop,
        r matches Schedule::Wait(d) ==> s->Wait_0@ == d@,
        r matches Schedule::Drop { behind } ==> s->Drop_behind@ == behind@,
{
    law_reading_tells_what_was_played(a, n, p);
    law_reading_tells_what_was_played(b, m, q);
}

/// Without sound that has begun, the time since the zero of the wall clock counts: a picture waits
/// for exactly what is missing; one that is more than a fifth of a second late is shown too, and the
/// zero moved so that the picture is on time; any other is shown, and the zero stays.
pub proof fn law_pictures_follow_the_wall(
    clock: PlaybackClock,
    zero: Instant,
    target: Duration,
    now: Instant,
    r: Schedule,
    after: PlaybackClock,
)
    requires
        clock.audio is None || !clock.audio->0.started,
        clock.origin == Some(zero),
        zero@ <= now@ <= zero@ + 18_446_744_073_709_551_615_999_999_999,
        clock.decides(target, now, r, after),
    ensures
        r is Wait <==> now@ < zero@ + target@,
        r matches Schedule::Wait(d) ==> now@ + d@ == zero@ + target@,
        r is Resynced <==> zero@ + target@ + 200_000_000 < now@,
        r matches Schedule::Resynced { behind } ==> zero@ + target@ + behind@ == now@,
        r == Schedule::Now <==> zero@ + target@ <= now@ <= zero@ + target@ + 200_000_000,
        after.origin is Some,
        r is Resynced ==> after.origin->0@ + target@ == now@,
        r !is Resynced ==> after.origin->0@ == zero@,
        after == (PlaybackClock { origin: after.origin, ..clock }),
{
}

/// Without sound and without a zero, the picture that comes first is shown at once, and the zero is
/// set so that it is on time.
pub proof fn law_first_picture_sets_the_zero(
    clock: PlaybackClock,
    target: Duration,
    now: Instant,
    r: Schedule,
    after: PlaybackClock,
)
    requires
        clock.audio is None || !clock.audio->0.started,
        clock.origin is None,
        target@ <= 18_446_744_073_709_551_615_999_999_999,
        clock.decides(target, now, r, after),
    ensures
        r == Schedule::Now,
        after.origin is Some,
        after.origin->0@ + target@ == now@,
        after == (PlaybackClock { origin: after.origin, ..clock }),
{
}

/// Bringing the loop up to date takes over the offset and the number every time, whether or not the
/// number is a new one. A reading is taken over where the number is new or one was known before;
/// without a reading the last one stays. A new number forgets the zero of the wall clock, the same
/// number keeps it.
pub proof fn law_update_takes_over(
    s: RenderLoop,
    generation: u64,
    offset_us: i64,
    audio: Option<AudioClock>,
)
    ensures
        updated(s, generation, offset_us, audio).clock.audio_offset == offset_us,
        updated(s, generation, offset_us, audio).audio_generation == generation,
        updated(s, generation, offset_us, audio).clock.duration_us == s.clock.duration_us,
        updated(s, generation, offset_us, audio).clock.watch == s.clock.watch,
        audio is None ==> updated(s, generation, offset_us, audio).clock.audio == s.clock.audio,
        audio is Some && s.clock.audio is Some ==> updated(
            s,
            generation,
            offset_us,
            audio,
        ).clock.audio == audio,
        audio is Some && generation != s.audio_generation ==> updated(
            s,
            generation,
            offset_us,
            audio,
        ).clock.audio == audio,
        generation == s.audio_generation && s.clock.audio is None ==> updated(
            s,
            generation,
            offset_us,
            audio,
        ).clock.audio is None,
        generation == s.audio_generation ==> updated(
            s,
            generation,
            offset_us,
            audio,
        ).clock.origin == s.clock.origin,
        generation != s.audio_generation ==> updated(
            s,
            generation,
            offset_us,
            audio,
        ).clock.origin is None,
{
}

/// The last word counts: after two updates the offset, the number and the reading are those of the
/// second one.
pub proof fn law_last_update_counts(
    s: RenderLoop,
    first: u64,
    first_us: i64,
    before: AudioClock,
    second: u64,
    second_us: i64,
    a: AudioClock,
)
    requires
        first != s.audio_generation || s.clock.audio is Some,
    ensures
        ({
            let once = updated(s, first, first_us, Some(before));
            let twice = updated(once, second, second_us, Some(a));
            &&& twice.clock.audio == Some(a)
            &&& twice.clock.audio_offset == second_us
            &&& twice.audio_generation == second
        }),
{
}

/// What becomes of the next picture after an update is settled by the arguments of that very update:
/// with `p` microseconds played, the place of the sound is `p + offset_us`, or the start where that
/// lies before it. A picture up to a second ahead of it is waited for, one further ahead or more
/// than a tenth of a second behind is thrown away, and any other is shown.
pub proof fn law_next_picture_goes_by_the_update(
    s: RenderLoop,
    generation: u64,
    offset_us: i64,
    a: AudioClock,
    n: int,
    p: int,
    pts_us: u64,
    duration_us: u64,
    target: Duration,
    now: Instant,
    decision: Schedule,
    after: PlaybackClock,
)
    requires
        generation != s.audio_generation || s.clock.audio is Some,
        a.started,
        has_played(a, n, p),
        duration_us < 0x8000_0000_0000_0000,
        duration_us == 0 || p + offset_us <= duration_us,
        target@ == pts_us * 1000,
        lasting(updated(s, generation, offset_us, Some(a)).clock, duration_us).decides(
            target,
            now,
            decision,
            after,
        ),
    ensures
        ({
            let place = if p + offset_us < 0 {
                0
            } else {
                p + offset_us
            };
            let r = by_schedule(decision);
            &&& r is After <==> place < pts_us < place + 1_001_000
            &&& r matches Showing::After(d) ==> place * 1000 + d@ == pts_us * 1000
            &&& r == Showing::Now <==> pts_us <= place <= pts_us + 100_000
            &&& r == Showing::Skip <==> place + 1_001_000 <= pts_us || pts_us + 100_000 < place
        }),
{
    let clock = lasting(updated(s, generation, offset_us, Some(a)).clock, duration_us);
    law_pictures_follow_the_sound(clock, a, n, p, target, now, decision, after);
}

/// What becomes of a picture by the decision of the clock: waits of up to a second are kept as they
/// are, longer ones and pictures that came too late are thrown away, and all others are shown.
pub proof fn law_decisions_are_carried_out(s: Schedule)
    ensures
        by_schedule(s) is After <==> s is Wait && s->Wait_0@ < 1_001_000_000,
        by_schedule(s) matches Showing::After(d) ==> s == Schedule::Wait(d),
        by_schedule(s) == Showing::Now <==> s == Schedule::Now || s is Resynced,
{
}

/// The length of the media is the one that came with the picture; nothing else of the clock changes.
pub proof fn law_length_comes_with_the_picture(clock: PlaybackClock, duration_us: u64)
    ensures
        lasting(clock, duration_us).duration_us == duration_us,
        lasting(clock, duration_us).audio == clock.audio,
        lasting(clock, duration_us).audio_offset == clock.audio_offset,
        lasting(clock, duration_us).origin == clock.origin,
        lasting(clock, duration_us).watch == clock.watch,
{
}

/// The drift leads from the time of the picture to what has been played: positive where the picture
/// is late.
pub proof fn law_drift_leads_to_the_sound(a: AudioClock, n: int, p: int, pts_us: u64)
    requires
        has_played(a, n, p),
        pts_us < 0x8000_0000_0000_0000,
    ensures
        pts_us + drift(a, pts_us) == p,
{
    law_reading_tells_what_was_played(a, n, p);
}

/// Where a picture stands is settled by its time and the reading alone: ahead by what is missing,
/// behind by what is too much beyond the threshold, and due in between.
pub proof fn law_lag_is_the_distance(lag: Lag, target: nat, now: nat, threshold: nat)
    requires
        lag_is(lag, target, now, threshold),
    ensures
        lag is Ahead <==> now < target,
        lag matches Lag::Ahead(d) ==> now + d@ == target,
        lag is Behind <==> target + threshold < now,
        lag matches Lag::Behind(d) ==> target + d@ == now,
        lag is Due <==> target <= now <= target + threshold,
{
}

/// Before the zero of the wall clock a picture waits for its whole time, and the zero stays.
pub proof fn law_nothing_has_passed_before_the_zero(
    clock: PlaybackClock,
    zero: Instant,
    target: Duration,
    now: Instant,
    r: Schedule,
    after: PlaybackClock,
)
    requires
        clock.audio is None || !clock.audio->0.started,
        clock.origin == Some(zero),
        now@ <= zero@,
        clock.decides(target, now, r, after),
    ensures
        target@ > 0 ==> r is Wait && r->Wait_0@ == target@,
        target@ == 0 ==> r == Schedule::Now,
        after.origin is Some,
        after.origin->0@ == zero@,
        after == (PlaybackClock { origin: after.origin, ..clock }),
{
}

/// A length that the sign of a 64-bit number does not leave room for counts from below: behind it, as
/// behind any end, pictures are shown, and before it they are timed by the sound.
pub proof fn law_lengths_run_over(
    clock: PlaybackClock,
    a: AudioClock,
    n: int,
    p: int,
    target: Duration,
    now: Instant,
    r: Schedule,
    after: PlaybackClock,
)
    requires
        clock.audio == Some(a),
        a.started,
        has_played(a, n, p),
        clock.duration_us >= 0x8000_0000_0000_0000,
        clock.decides(target, now, r, after),
    ensures
        p + clock.audio_offset > clock.duration_us - 0x1_0000_0000_0000_0000 ==> r == Schedule::Now,
        p + clock.audio_offset <= clock.duration_us - 0x1_0000_0000_0000_0000 ==> timed_at(
            r,
            target@ as int,
            0,
        ),
        after == clock,
{
    law_reading_tells_what_was_played(a, n, p);
}

/// A window that is the same drags nothing else, shows and hides nothing, and writes the place as
/// before.
pub proof fn law_same_window_looks_the_same<F>(before: Player<F>, after: Player<F>)
    ensures
        same_window(before, after) <==> after.dragging == before.dragging && after.controls_visible
            == before.controls_visible && after.time_format == before.time_format,
{
}

/// The limits: a tenth of a second behind the sound, a fifth behind the wall clock, a second that is
/// waited for at most; arrow keys go five seconds, and a report covers two.
pub proof fn law_limits()
    ensures
        DROP_THRESHOLD_MS * 10 == 1000,
        RESYNC_THRESHOLD_MS * 5 == 1000,
        MAX_WAIT_MS == 1000,
        SEEK_STEP_SECS == 5,
        STATS_WINDOW_SECS == 2,
        PREVIEW_MIN_INTERVAL_MS == 45,
{
}

} // verus!
