//! What holds of the commands, in terms of where the player was and where it is.

use super::commands::{
    after_muted, after_pause, after_preview, after_seek_to, after_speed, consumed, is_step,
    is_throttled, next_number, next_speed, speed_index, step_index, went_back, went_forward, within,
    SPEED_STEPS,
};
use super::{
    asked, attached, known_fps, refreshed, AudioClockSource, ControllerState,
    PlayerCommand, SeekStep,
};
use crate::gpui_video::i18n::Lang;
use crate::player_core::audio_output::AudioClock;
use crate::player_core::frame::Rational;
use crate::text::{is_number, law_decimal_reads_back, reads};
use crate::time::{law_nearest_is_closest, lemma_nearest_is_unique, Duration, Instant};
use vstd::prelude::*;

verus! {

/// Nothing changed but the place, the drag, the number of the last seek, and what is asked for.
pub open spec fn only_moved<F>(before: ControllerState<F>, after: ControllerState<F>) -> bool {
    after == (ControllerState {
        position: after.position,
        dragging: after.dragging,
        seek_gen: after.seek_gen,
        outbox: after.outbox,
        ..before
    })
}

/// The player stands at `place` nanoseconds, the drag is over, and the decoding side was asked, last
/// of all and once, to go to that very place, under a number that the player takes for the last one.
pub open spec fn committed_at<F>(
    before: ControllerState<F>,
    place: int,
    after: ControllerState<F>,
) -> bool {
    &&& only_moved(before, after)
    &&& after.position@ == place
    &&& !after.dragging
    &&& after.outbox == before.outbox.push(
        PlayerCommand::SeekCommit(after.position, after.seek_gen),
    )
    &&& before.seek_gen < u64::MAX ==> after.seek_gen == before.seek_gen + 1
    &&& after.seek_gen != before.seek_gen
}

/// A seek goes to its target, or to the end of a media that is known to be shorter.
pub proof fn law_seek_goes_there<F>(s: ControllerState<F>, target: Duration)
    ensures
        s.duration@ == 0 || target@ <= s.duration@ ==> committed_at(
            s,
            target@ as int,
            after_seek_to(s, target),
        ),
        0 < s.duration@ < target@ ==> committed_at(
            s,
            s.duration@ as int,
            after_seek_to(s, target),
        ),
{
}

/// Going forward moves the place by exactly as much as was asked for, and by less only where the
/// media ends before that: it is then at the end.
pub proof fn law_forward_moves_by_delta<F>(
    before: ControllerState<F>,
    delta: int,
    after: ControllerState<F>,
)
    requires
        delta >= 0,
        went_forward(before, delta, after),
    ensures
        before.position@ + delta <= before.duration@ ==> committed_at(
            before,
            before.position@ + delta,
            after,
        ),
        before.position@ + delta > before.duration@ ==> committed_at(
            before,
            before.duration@ as int,
            after,
        ),
{
}

/// Going back moves the place by exactly as much as was asked for, and by less only where the media
/// begins after that: it is then at the start. A place that still lies past the end of the media
/// counts as the end.
pub proof fn law_back_moves_by_delta<F>(
    before: ControllerState<F>,
    delta: int,
    after: ControllerState<F>,
)
    requires
        delta >= 0,
        went_back(before, delta, after),
    ensures
        before.position@ >= delta && (before.duration@ == 0 || before.position@ - delta
            <= before.duration@) ==> committed_at(before, before.position@ - delta, after),
        before.position@ < delta ==> committed_at(before, 0, after),
        0 < before.duration@ < before.position@ - delta ==> committed_at(
            before,
            before.duration@ as int,
            after,
        ),
{
}

/// Going forward and then back by the same leads back to where it began, unless the media ended in
/// between.
pub proof fn law_forward_and_back<F>(
    before: ControllerState<F>,
    delta: int,
    between: ControllerState<F>,
    after: ControllerState<F>,
)
    requires
        delta >= 0,
        before.position@ + delta <= before.duration@,
        went_forward(before, delta, between),
        went_back(between, delta, after),
    ensures
        after.position@ == before.position@,
        after.outbox.len() == before.outbox.len() + 2,
{
    law_forward_moves_by_delta(before, delta, between);
    law_back_moves_by_delta(between, delta, after);
}

/// Going back and then forward by the same leads back to where it began, unless the media began in
/// between.
pub proof fn law_back_and_forward<F>(
    before: ControllerState<F>,
    delta: int,
    between: ControllerState<F>,
    after: ControllerState<F>,
)
    requires
        0 <= delta <= before.position@,
        before.position@ <= before.duration@,
        went_back(before, delta, between),
        went_forward(between, delta, after),
    ensures
        after.position@ == before.position@,
{
    law_back_moves_by_delta(before, delta, between);
    law_forward_moves_by_delta(between, delta, after);
}

/// Two steps forward lead as far as one of their sum.
pub proof fn law_steps_add_up<F>(
    before: ControllerState<F>,
    first: int,
    second: int,
    between: ControllerState<F>,
    after: ControllerState<F>,
    at_once: ControllerState<F>,
)
    requires
        first >= 0,
        second >= 0,
        went_forward(before, first, between),
        went_forward(between, second, after),
        went_forward(before, first + second, at_once),
    ensures
        after.position@ == at_once.position@,
{
    law_forward_moves_by_delta(before, first, between);
    law_forward_moves_by_delta(between, second, after);
    law_forward_moves_by_delta(before, first + second, at_once);
}

/// A step of so many pictures lasts as long as they do, to half a nanosecond; one of so much time
/// lasts that time. A media that tells no rate, or one that is not positive, counts thirty pictures
/// a second.
pub proof fn law_step_lasts_its_pictures(n: u32, d: Duration, fps: Rational)
    ensures
        SeekStep::Duration(d).nanos(fps) == d@,
        fps.num > 0 && fps.den > 0 ==> -fps.num < 2 * (SeekStep::Frames(n).nanos(fps) * fps.num - n
            * fps.den * 1_000_000_000) <= fps.num,
        fps.num < 0 && fps.den < 0 ==> fps.num < 2 * (SeekStep::Frames(n).nanos(fps) * (-fps.num)
            - n * (-fps.den) * 1_000_000_000) <= -fps.num,
        fps.den == 0 || fps.num == 0 || (fps.num > 0 && fps.den < 0) || (fps.num < 0 && fps.den > 0)
            ==> -30 < 2 * (SeekStep::Frames(n).nanos(fps) * 30 - n * 1_000_000_000) <= 30,
        fps.num > 0 && fps.den > 0 && n == fps.num ==> SeekStep::Frames(n).nanos(fps) == fps.den
            * 1_000_000_000,
{
    let known = known_fps(fps);
    let (num, den) = (known.abs_num(), known.abs_den());
    law_nearest_is_closest(n * den * 1_000_000_000, num);
    if fps.num > 0 && fps.den > 0 && n == fps.num {
        assert(den * 1_000_000_000 * num == n * den * 1_000_000_000) by (nonlinear_arith)
            requires
                n == num,
        ;
        lemma_nearest_is_unique(n * den * 1_000_000_000, num, den * 1_000_000_000);
    }
    if !(fps.num > 0 && fps.den > 0) && !(fps.num < 0 && fps.den < 0) {
        assert(n * den == n) by (nonlinear_arith)
            requires
                den == 1,
        ;
    }
}

/// A preview moves the place like a seek, begins or goes on with the drag, and takes a new number.
/// The decoding side is asked for the picture of that very place where it was not asked before, or
/// last at least 45 milliseconds ago; it is not asked otherwise.
pub proof fn law_preview_follows_the_slider<F>(
    s: ControllerState<F>,
    target: Duration,
    now: Instant,
    last: Instant,
)
    ensures
        ({
            let after = after_preview(s, target, now);
            &&& s.duration@ == 0 || target@ <= s.duration@ ==> after.position@ == target@
            &&& 0 < s.duration@ < target@ ==> after.position@ == s.duration@
            &&& after.dragging
            &&& s.seek_gen < u64::MAX ==> after.seek_gen == s.seek_gen + 1
            &&& after == (ControllerState {
                position: after.position,
                dragging: true,
                seek_gen: after.seek_gen,
                outbox: after.outbox,
                last_preview_sent: after.last_preview_sent,
                ..s
            })
            &&& s.last_preview_sent is None || (s.last_preview_sent == Some(last) && now@ - last@
                >= 45_000_000) ==> {
                &&& after.outbox == s.outbox.push(
                    PlayerCommand::SeekPreview(after.position, after.seek_gen),
                )
                &&& after.last_preview_sent == Some(now)
            }
            &&& s.last_preview_sent == Some(last) && now@ - last@ < 45_000_000 ==> {
                &&& after.outbox == s.outbox
                &&& after.last_preview_sent == s.last_preview_sent
            }
        }),
{
}

/// Pausing asks the decoding side exactly where the player was not paused, and the other way round;
/// the flag is the one that was asked for.
pub proof fn law_pause_is_asked_once<F>(s: ControllerState<F>, paused: bool)
    ensures
        after_pause(s, paused).paused == paused,
        after_pause(s, paused) == (ControllerState {
            paused,
            outbox: after_pause(s, paused).outbox,
            ..s
        }),
        s.paused == paused ==> after_pause(s, paused).outbox == s.outbox,
        !s.paused && paused ==> after_pause(s, paused).outbox == s.outbox.push(PlayerCommand::Pause),
        s.paused && !paused ==> after_pause(s, paused).outbox == s.outbox.push(
            PlayerCommand::Resume,
        ),
{
}

/// Muting asks the decoding side exactly where it changes something; the flag is the one that was
/// asked for.
pub proof fn law_mute_is_asked_once<F>(s: ControllerState<F>, muted: bool)
    ensures
        after_muted(s, muted).muted == muted,
        after_muted(s, muted) == (ControllerState { muted, outbox: after_muted(s, muted).outbox, ..s }),
        s.muted == muted ==> after_muted(s, muted).outbox == s.outbox,
        s.muted != muted ==> after_muted(s, muted).outbox == s.outbox.push(
            PlayerCommand::SetMuted(muted),
        ),
{
}

/// A speed between a quarter of normal speed and four times normal speed is taken over as it is, one
/// beyond that as the bound that it passes. The decoding side is asked for the speed that the player
/// then has, unless the speed hardly changes.
pub proof fn law_speed_is_asked_once<F>(s: ControllerState<F>, speed: u64)
    ensures
        ({
            let after = after_speed(s, speed);
            let wanted = if 4 * speed < 0x40_0000_0000_0000 {
                0x10_0000_0000_0000u64
            } else if speed > 4 * 0x40_0000_0000_0000 {
                0x100_0000_0000_0000u64
            } else {
                speed
            };
            &&& after == (ControllerState { speed: after.speed, outbox: after.outbox, ..s })
            &&& -4 < wanted - s.speed < 4 ==> after == s
            &&& !(-4 < wanted - s.speed < 4) ==> {
                &&& after.speed == wanted
                &&& after.outbox == s.outbox.push(PlayerCommand::SetSpeed(wanted))
            }
        }),
{
}

/// The menu goes from normal speed to five quarters, three halves, twice and half of it, and from
/// there back to normal speed. From a speed that is not in the menu it goes on as from normal speed.
pub proof fn law_menu_of_speeds(speed: u64)
    ensures
        -4 < speed - 0x20_0000_0000_0000 < 4 ==> next_speed(speed) == 0x40_0000_0000_0000,
        -4 < speed - 0x40_0000_0000_0000 < 4 ==> 4 * next_speed(speed) == 5 * 0x40_0000_0000_0000,
        -4 < speed - 0x50_0000_0000_0000 < 4 ==> 2 * next_speed(speed) == 3 * 0x40_0000_0000_0000,
        -4 < speed - 0x60_0000_0000_0000 < 4 ==> next_speed(speed) == 2 * 0x40_0000_0000_0000,
        -4 < speed - 0x80_0000_0000_0000 < 4 ==> 2 * next_speed(speed) == 0x40_0000_0000_0000,
        (forall|i: int| 0 <= i < 5 ==> !(-4 < speed - #[trigger] SPEED_STEPS@[i] < 4)) ==> 4
            * next_speed(speed) == 5 * 0x40_0000_0000_0000,
        exists|i: int| 0 <= i < 5 && next_speed(speed) == #[trigger] SPEED_STEPS@[i],
{
    let i = (speed_index(speed) + 1) % 5;
    assert(next_speed(speed) == SPEED_STEPS@[i]);
    assert(SPEED_STEPS@[1] == 0x50_0000_0000_0000);
    assert(SPEED_STEPS@[2] == 0x60_0000_0000_0000);
    assert(SPEED_STEPS@[3] == 0x80_0000_0000_0000);
    assert(SPEED_STEPS@[4] == 0x20_0000_0000_0000);
    assert(SPEED_STEPS@[0] == 0x40_0000_0000_0000);
}

/// The menu of steps begins with one picture and a millisecond; the hundred milliseconds that follow
/// are a hundred times that, the five seconds fifty times as long again, then twice and three times
/// the one before. No step stands in two places, and one that stands nowhere counts as the first.
pub proof fn law_menu_of_steps(step: SeekStep, d: Duration, e: Duration, place: int)
    ensures
        is_step(SeekStep::Duration(d), 1) && is_step(SeekStep::Duration(e), 2) ==> e@ == 100 * d@,
        is_step(SeekStep::Duration(d), 2) && is_step(SeekStep::Duration(e), 3) ==> e@ == 50 * d@,
        is_step(SeekStep::Duration(d), 3) && is_step(SeekStep::Duration(e), 4) ==> e@ == 2 * d@,
        is_step(SeekStep::Duration(d), 4) && is_step(SeekStep::Duration(e), 5) ==> e@ == 3 * d@,
        is_step(SeekStep::Duration(d), 1) ==> d@ * 1000 == 1_000_000_000,
        is_step(step, 0) <==> step == SeekStep::Frames(1),
        is_step(step, place) ==> 0 <= place < 6 && step_index(step) == place,
        0 <= step_index(step) < 6,
        step_index(step) != 0 ==> is_step(step, step_index(step)),
{
}

/// A picture brings the length of the media and is shown. It moves the place to its own time unless
/// the slider is dragged or it was decoded before the last seek; the end of the media moves the place
/// to the end where that is known. Nothing else changes, and nothing is asked for.
pub proof fn law_picture_moves_the_place<F>(
    before: ControllerState<F>,
    image: F,
    pts_us: u64,
    duration_us: u64,
    preview: bool,
    frame_gen: u64,
    after: ControllerState<F>,
    end: ControllerState<F>,
)
    requires
        consumed(before, Some((image, pts_us, duration_us, preview, frame_gen)), after),
        consumed(before, None, end),
    ensures
        after.latest_frame == Some(image),
        after.duration@ == duration_us * 1000,
        !before.dragging && frame_gen >= before.seek_gen ==> after.position@ == pts_us * 1000,
        before.dragging ==> after.position == before.position,
        frame_gen < before.seek_gen ==> after.position == before.position,
        after == (ControllerState {
            latest_frame: after.latest_frame,
            duration: after.duration,
            position: after.position,
            ..before
        }),
        before.duration@ > 0 ==> end.position@ == before.duration@,
        before.duration@ == 0 ==> end.position == before.position,
        end == (ControllerState { position: end.position, ..before }),
{
}

/// What is asked for stands behind everything that was asked before, and nothing else changes.
pub proof fn law_commands_keep_their_order<F>(s: ControllerState<F>, c: PlayerCommand)
    ensures
        asked(s, c).outbox.len() == s.outbox.len() + 1,
        asked(s, c).outbox.last() == c,
        asked(s, c).outbox.drop_last() == s.outbox,
        asked(s, c) == (ControllerState { outbox: asked(s, c).outbox, ..s }),
{
    assert(asked(s, c).outbox.drop_last() =~= s.outbox);
}

/// Reading the clock again changes the reading alone; handing over a clock changes the number too.
pub proof fn law_readings_change_nothing_else(s: AudioClockSource, clock: AudioClock)
    ensures
        s.clock is Some ==> refreshed(s, clock).clock == Some(clock),
        s.clock is None ==> refreshed(s, clock).clock is None,
        refreshed(s, clock).generation == s.generation,
        refreshed(s, clock).seek_offset_us == s.seek_offset_us,
        attached(s, clock).clock == Some(clock),
        attached(s, clock).seek_offset_us == s.seek_offset_us,
{
}

/// The name of a step is a number with its unit behind it: pictures; milliseconds for what is
/// shorter than a second; whole seconds for the rest.
pub proof fn law_step_is_named_by_its_number(step: SeekStep, lang: Lang)
    ensures
        step matches SeekStep::Frames(n) ==> exists|digits: Seq<char>|
            {
                &&& #[trigger] is_number(digits)
                &&& reads(digits) == n
                &&& lang == Lang::Zh ==> step.short_name(lang) == digits + "帧"@
                &&& lang == Lang::En ==> step.short_name(lang) == digits + "frame"@
            },
        step matches SeekStep::Duration(d) ==> exists|digits: Seq<char>|
            {
                &&& #[trigger] is_number(digits)
                &&& d@ < 1_000_000_000 ==> {
                    &&& reads(digits) * 1_000_000 <= d@ < (reads(digits) + 1) * 1_000_000
                    &&& step.short_name(lang) == digits + "ms"@
                }
                &&& d@ >= 1_000_000_000 ==> {
                    &&& reads(digits) * 1_000_000_000 <= d@ < (reads(digits) + 1) * 1_000_000_000
                    &&& step.short_name(lang) == digits + "s"@
                }
            },
{
    match step {
        SeekStep::Frames(n) => {
            law_decimal_reads_back(n as nat);
            assert(is_number(crate::text::decimal(n as nat)));
        },
        SeekStep::Duration(d) => {
            let n = if d@ < 1_000_000_000 {
                d@ / 1_000_000
            } else {
                d@ / 1_000_000_000
            };
            law_decimal_reads_back(n);
            assert(is_number(crate::text::decimal(n)));
        },
    }
}

/// A place never lies past the end of a media of known length, and is the target where that is
/// inside; the numbers of seeks count up.
pub proof fn law_targets_are_kept_inside(target: Duration, duration: Duration, n: u64, now: Instant)
    ensures
        duration@ == 0 || target@ <= duration@ ==> within(target, duration) == target,
        0 < duration@ < target@ ==> within(target, duration) == duration,
        n < u64::MAX ==> next_number(n) == n + 1,
        next_number(u64::MAX) == 0,
        !is_throttled(None, now),
{
}

} // verus!
