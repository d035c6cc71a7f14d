//! What the user does with a player.

use super::{asked, ControllerState, FrameMsg, PlayerCommand, PlayerController, SeekStep};
use crate::player_core::audio_decoder::{
    clamp_speed, is_same_speed, playable_speed, same_speed, NORMAL_SPEED,
};
use crate::player_core::frame::size_of_i64;
use crate::time::{span_between, Duration, Instant, MAX_NANOS};
use vstd::prelude::*;

verus! {

/// Milliseconds that have to pass between two previews.
pub const PREVIEW_MIN_INTERVAL_MS: u64 = 45;

/// The speeds of the menu: normal speed, 1.25, 1.5 and 2 times as fast, and half as fast.
pub const SPEED_STEPS: [u64; 5] = [
    0x40_0000_0000_0000,
    0x50_0000_0000_0000,
    0x60_0000_0000_0000,
    0x80_0000_0000_0000,
    0x20_0000_0000_0000,
];

/// Where a speed stands in the menu; a speed that is not there counts as the first one.
pub open spec fn speed_index(speed: u64) -> int {
    if same_speed(SPEED_STEPS@[1], speed) {
        1
    } else if same_speed(SPEED_STEPS@[2], speed) {
        2
    } else if same_speed(SPEED_STEPS@[3], speed) {
        3
    } else if same_speed(SPEED_STEPS@[4], speed) {
        4
    } else {
        0
    }
}

/// The speed after the given one.
pub open spec fn next_speed(speed: u64) -> u64 {
    SPEED_STEPS@[(speed_index(speed) + 1) % 5]
}

/// The step is the one in the given place of the menu: one picture, one millisecond, a hundred,
/// five seconds, ten, thirty.
pub open spec fn is_step(step: SeekStep, place: int) -> bool {
    match step {
        SeekStep::Frames(n) => n == 1 && place == 0,
        SeekStep::Duration(d) => {
            ||| place == 1 && d@ == 1_000_000
            ||| place == 2 && d@ == 100_000_000
            ||| place == 3 && d@ == 5_000_000_000
            ||| place == 4 && d@ == 10_000_000_000
            ||| place == 5 && d@ == 30_000_000_000
        },
    }
}

/// Where a step stands in the menu; a step that is not there counts as the first one.
pub open spec fn step_index(step: SeekStep) -> int {
    if is_step(step, 1) {
        1
    } else if is_step(step, 2) {
        2
    } else if is_step(step, 3) {
        3
    } else if is_step(step, 4) {
        4
    } else if is_step(step, 5) {
        5
    } else {
        0
    }
}

/// Where a seek goes: not past the end of the media. A media of unknown length has no end.
pub open spec fn within(target: Duration, duration: Duration) -> Duration {
    if duration@ == 0 || target@ <= duration@ {
        target
    } else {
        duration
    }
}

/// The number of the seek after the one numbered `n`.
pub open spec fn next_number(n: u64) -> u64 {
    ((n + 1) % 0x1_0000_0000_0000_0000) as u64
}

/// The player after a seek to `target`: it shows the place at once, without waiting for the
/// decoding side.
pub open spec fn after_seek_to<F>(s: ControllerState<F>, target: Duration) -> ControllerState<F> {
    let place = within(target, s.duration);
    let number = next_number(s.seek_gen);
    asked(
        ControllerState { position: place, dragging: false, seek_gen: number, ..s },
        PlayerCommand::SeekCommit(place, number),
    )
}

/// A preview was asked for too short a time ago.
pub open spec fn is_throttled(last: Option<Instant>, now: Instant) -> bool {
    last matches Some(t) && span_between(t@, now@) < PREVIEW_MIN_INTERVAL_MS * 1_000_000
}

/// The player after the slider was dragged to `target` at the time `now`: the place follows every
/// move, and the decoding side is asked for a picture unless it was asked just before.
pub open spec fn after_preview<F>(
    s: ControllerState<F>,
    target: Duration,
    now: Instant,
) -> ControllerState<F> {
    let place = within(target, s.duration);
    let number = next_number(s.seek_gen);
    let moved = ControllerState { position: place, dragging: true, seek_gen: number, ..s };
    if is_throttled(s.last_preview_sent, now) {
        moved
    } else {
        asked(
            ControllerState { last_preview_sent: Some(now), ..moved },
            PlayerCommand::SeekPreview(place, number),
        )
    }
}

/// The player after playing was paused, or went on.
pub open spec fn after_pause<F>(s: ControllerState<F>, paused: bool) -> ControllerState<F> {
    if s.paused == paused {
        s
    } else {
        asked(
            ControllerState { paused, ..s },
            if paused {
                PlayerCommand::Pause
            } else {
                PlayerCommand::Resume
            },
        )
    }
}

/// The player after the sound was muted or unmuted.
pub open spec fn after_muted<F>(s: ControllerState<F>, muted: bool) -> ControllerState<F> {
    if s.muted == muted {
        s
    } else {
        asked(ControllerState { muted, ..s }, PlayerCommand::SetMuted(muted))
    }
}

/// The player after its speed was set.
pub open spec fn after_speed<F>(s: ControllerState<F>, speed: u64) -> ControllerState<F> {
    if same_speed(playable_speed(speed), s.speed) {
        s
    } else {
        asked(
            ControllerState { speed: playable_speed(speed), ..s },
            PlayerCommand::SetSpeed(playable_speed(speed)),
        )
    }
}

/// The player after it took in a picture, or the end of the media.
pub open spec fn consumed<F>(
    before: ControllerState<F>,
    item: FrameMsg<F>,
    after: ControllerState<F>,
) -> bool {
    match item {
        Some((image, pts_us, duration_us, _, frame_gen)) => {
            &&& after == (ControllerState {
                duration: after.duration,
                position: after.position,
                latest_frame: Some(image),
                ..before
            })
            &&& after.duration@ == duration_us * 1000
            &&& if before.dragging || frame_gen < before.seek_gen {
                after.position == before.position
            } else {
                after.position@ == pts_us * 1000
            }
        },
        None => after == (ControllerState {
            position: if before.duration@ == 0 {
                before.position
            } else {
                before.duration
            },
            ..before
        }),
    }
}

impl<F> PlayerController<F> {
    /// Mutes the sound, or unmutes it.
    pub fn toggle_mute(&mut self)
        ensures
            final(self)@ == after_muted(old(self)@, !old(self)@.muted),
    {
        self.set_muted(!self.muted);
    }

    /// Mutes or unmutes the sound, until further notice.
    pub fn set_muted(&mut self, muted: bool)
        ensures
            final(self)@ == after_muted(old(self)@, muted),
    {
        if self.muted == muted {
            return;
        }
        self.muted = muted;
        self.send(PlayerCommand::SetMuted(muted));
    }

    /// Whether the menu is open.
    pub fn is_menu_open(&self) -> (r: bool)
        ensures
            r == self@.menu_open,
    {
        self.menu_open
    }

    /// Opens or closes the menu.
    pub fn toggle_menu(&mut self)
        ensures
            final(self)@ == (ControllerState { menu_open: !old(self)@.menu_open, ..old(self)@ }),
    {
        self.menu_open = !self.menu_open;
    }

    /// Closes the menu.
    pub fn close_menu(&mut self)
        ensures
            final(self)@ == (ControllerState { menu_open: false, ..old(self)@ }),
    {
        self.menu_open = false;
    }

    /// The speed.
    pub fn speed(&self) -> (s: u64)
        ensures
            s == self@.speed,
    {
        self.speed
    }

    /// Sets the speed, within the playable range. One that counts as the speed that is set already
    /// is not asked for.
    pub fn set_speed(&mut self, speed: u64)
        ensures
            final(self)@ == after_speed(old(self)@, speed),
    {
        let speed: u64 = clamp_speed(speed);
        if is_same_speed(speed, self.speed) {
            return;
        }
        self.speed = speed;
        self.send(PlayerCommand::SetSpeed(speed));
    }

    /// Goes on to the next speed of the menu.
    pub fn cycle_speed(&mut self)
        ensures
            final(self)@ == after_speed(old(self)@, next_speed(old(self)@.speed)),
    {
        let next: u64 = if is_same_speed(SPEED_STEPS[1], self.speed) {
            SPEED_STEPS[2]
        } else if is_same_speed(SPEED_STEPS[2], self.speed) {
            SPEED_STEPS[3]
        } else if is_same_speed(SPEED_STEPS[3], self.speed) {
            SPEED_STEPS[4]
        } else if is_same_speed(SPEED_STEPS[4], self.speed) {
            SPEED_STEPS[0]
        } else {
            SPEED_STEPS[1]
        };
        self.set_speed(next);
    }

    /// The steps of the menu.
    pub fn seek_step_options() -> (r: Vec<SeekStep>)
        ensures
            r@.len() == 6,
            forall|i: int| 0 <= i < 6 ==> is_step(#[trigger] r@[i], i),
    {
        vec![
            SeekStep::Frames(1),
            SeekStep::Duration(Duration::from_millis(1)),
            SeekStep::Duration(Duration::from_millis(100)),
            SeekStep::Duration(Duration::from_secs(5)),
            SeekStep::Duration(Duration::from_secs(10)),
            SeekStep::Duration(Duration::from_secs(30)),
        ]
    }

    /// How far one step goes.
    pub fn seek_step(&self) -> (r: SeekStep)
        ensures
            r == self@.seek_step,
    {
        self.seek_step
    }

    /// How long one step is in this media.
    pub fn seek_step_duration(&self) -> (d: Duration)
        ensures
            d@ == self@.seek_step.nanos(self@.video_fps),
    {
        self.seek_step.resolve(self.video_fps)
    }

    /// Sets how far one step goes.
    pub fn set_seek_step(&mut self, step: SeekStep)
        ensures
            final(self)@ == (ControllerState { seek_step: step, ..old(self)@ }),
    {
        self.seek_step = step;
    }

    /// Goes one step forward.
    pub fn seek_forward_step(&mut self)
        requires
            old(self)@.position@ + old(self)@.seek_step.nanos(old(self)@.video_fps) <= MAX_NANOS,
        ensures
            went_forward(
                old(self)@,
                old(self)@.seek_step.nanos(old(self)@.video_fps),
                final(self)@,
            ),
    {
        let step = self.seek_step_duration();
        self.seek_forward(step);
    }

    /// Goes one step back.
    pub fn seek_backward_step(&mut self)
        ensures
            went_back(
                old(self)@,
                old(self)@.seek_step.nanos(old(self)@.video_fps),
                final(self)@,
            ),
    {
        let step = self.seek_step_duration();
        self.seek_backward(step);
    }

    /// Goes on to the next step of the menu.
    pub fn cycle_seek_step(&mut self)
        ensures
            is_step(final(self)@.seek_step, (step_index(old(self)@.seek_step) + 1) % 6),
            final(self)@ == (ControllerState { seek_step: final(self)@.seek_step, ..old(self)@ }),
    {
        let place: usize = match self.seek_step {
            SeekStep::Frames(_) => 0,
            SeekStep::Duration(d) => {
                let nanos: u128 = d.as_nanos();
                if nanos == 1_000_000 {
                    1
                } else if nanos == 100_000_000 {
                    2
                } else if nanos == 5_000_000_000 {
                    3
                } else if nanos == 10_000_000_000 {
                    4
                } else if nanos == 30_000_000_000 {
                    5
                } else {
                    0
                }
            },
        };
        let options = Self::seek_step_options();
        self.seek_step = options[(place + 1) % 6];
    }

    /// Whether the information panel is open.
    pub fn is_info_open(&self) -> (r: bool)
        ensures
            r == self@.info_open,
    {
        self.info_open
    }

    /// Opens or closes the information panel.
    pub fn toggle_info(&mut self)
        ensures
            final(self)@ == (ControllerState { info_open: !old(self)@.info_open, ..old(self)@ }),
    {
        self.info_open = !self.info_open;
    }

    /// Closes the information panel.
    pub fn close_info(&mut self)
        ensures
            final(self)@ == (ControllerState { info_open: false, ..old(self)@ }),
    {
        self.info_open = false;
    }

    /// Goes on playing.
    pub fn play(&mut self)
        ensures
            final(self)@ == after_pause(old(self)@, false),
    {
        if self.paused {
            self.paused = false;
            self.send(PlayerCommand::Resume);
        }
    }

    /// Pauses playing.
    pub fn pause(&mut self)
        ensures
            final(self)@ == after_pause(old(self)@, true),
    {
        if !self.paused {
            self.paused = true;
            self.send(PlayerCommand::Pause);
        }
    }

    /// Pauses playing, or goes on.
    pub fn toggle(&mut self)
        ensures
            final(self)@ == after_pause(old(self)@, !old(self)@.paused),
    {
        if self.paused {
            self.play();
        } else {
            self.pause();
        }
    }

    /// Goes to `target`.
    pub fn seek_to(&mut self, target: Duration)
        ensures
            final(self)@ == after_seek_to(old(self)@, target),
    {
        let target = self.clamp_target(target);
        self.position = target;
        self.dragging = false;
        self.seek_gen = self.seek_gen.wrapping_add(1);
        self.send(PlayerCommand::SeekCommit(target, self.seek_gen));
    }

    /// A drag begins: nothing is to be heard during it.
    pub fn mute_audio(&mut self)
        ensures
            final(self)@ == asked(old(self)@, PlayerCommand::MuteAudio),
    {
        self.send(PlayerCommand::MuteAudio);
    }

    /// The slider is dragged to `target`, at the time `now`.
    pub fn seek_preview_at(&mut self, target: Duration, now: Instant)
        ensures
            final(self)@ == after_preview(old(self)@, target, now),
    {
        let target = self.clamp_target(target);
        self.position = target;
        self.dragging = true;
        self.seek_gen = self.seek_gen.wrapping_add(1);
        let throttled = match self.last_preview_sent {
            Some(t) => now.since(t) < Duration::from_millis(PREVIEW_MIN_INTERVAL_MS),
            None => false,
        };
        if throttled {
            return;
        }
        self.last_preview_sent = Some(now);
        self.send(PlayerCommand::SeekPreview(target, self.seek_gen));
    }

    /// The slider is dragged to `target`, at the time that the watch reads.
    pub fn seek_preview(&mut self, target: Duration)
        ensures
            exists|now: Instant|
                #[trigger] old(self)@.watch.reads(now) && 0 <= now@ <= u64::MAX && final(self)@
                    == after_preview(old(self)@, target, now),
    {
        let now = self.watch.now();
        self.seek_preview_at(target, now);
    }

    /// The slider is let go at `target`.
    pub fn seek_release(&mut self, target: Duration)
        ensures
            final(self)@ == after_seek_to(old(self)@, target),
    {
        self.dragging = false;
        self.seek_to(target);
    }

    /// Where a seek to `target` goes.
    fn clamp_target(&self, target: Duration) -> (r: Duration)
        ensures
            r == within(target, self@.duration),
    {
        if self.duration.is_zero() {
            target
        } else {
            target.shorter(self.duration)
        }
    }

    /// Goes forward by `delta_ns` nanoseconds, or back where it is negative.
    pub fn seek_relative(&mut self, delta_ns: i64)
        requires
            delta_ns >= 0 ==> old(self)@.position@ + delta_ns <= MAX_NANOS,
        ensures
            delta_ns >= 0 ==> went_forward(old(self)@, delta_ns as int, final(self)@),
            delta_ns < 0 ==> went_back(old(self)@, -delta_ns, final(self)@),
    {
        let size: u64 = size_of_i64(delta_ns);
        if delta_ns >= 0 {
            self.seek_forward(Duration::from_nanos(size));
        } else {
            self.seek_backward(Duration::from_nanos(size));
        }
    }

    /// Goes forward by `delta`, but not past the end of the media.
    pub fn seek_forward(&mut self, delta: Duration)
        requires
            old(self)@.position@ + delta@ <= MAX_NANOS,
        ensures
            went_forward(old(self)@, delta@ as int, final(self)@),
    {
        let target = self.position.plus(delta).shorter(self.duration);
        self.seek_to(target);
        assert(self@ == after_seek_to(old(self)@, target));
    }

    /// Goes back by `delta`, but not past the start of the media.
    pub fn seek_backward(&mut self, delta: Duration)
        ensures
            went_back(old(self)@, delta@ as int, final(self)@),
    {
        let target = self.position.saturating_minus(delta);
        self.seek_to(target);
        assert(self@ == after_seek_to(old(self)@, target));
    }

    /// Takes in a picture, or the end of the media. A picture that was decoded before the last seek
    /// is still shown, but does not move the place back to where it was; during a drag the place is
    /// where the slider is.
    pub fn consume_frame(&mut self, item: FrameMsg<F>)
        ensures
            consumed(old(self)@, item, final(self)@),
    {
        match item {
            Some((image, pts_us, duration_us, _, frame_gen)) => {
                self.duration = Duration::from_micros(duration_us);
                let stale = frame_gen < self.seek_gen;
                if !self.dragging && !stale {
                    self.position = Duration::from_micros(pts_us);
                }
                self.latest_frame = Some(image);
            },
            None => {
                if !self.duration.is_zero() {
                    self.position = self.duration;
                }
            },
        }
    }
}

/// The player went forward by `delta` nanoseconds, but not past the end of the media.
pub open spec fn went_forward<F>(
    before: ControllerState<F>,
    delta: int,
    after: ControllerState<F>,
) -> bool {
    exists|target: Duration|
        {
            &&& #[trigger] target@ == (if before.position@ + delta <= before.duration@ {
                before.position@ + delta
            } else {
                before.duration@ as int
            })
            &&& after == after_seek_to(before, target)
        }
}

/// The player went back by `delta` nanoseconds, but not past the start of the media.
pub open spec fn went_back<F>(
    before: ControllerState<F>,
    delta: int,
    after: ControllerState<F>,
) -> bool {
    exists|target: Duration|
        {
            &&& #[trigger] target@ == (if before.position@ >= delta {
                before.position@ - delta
            } else {
                0
            })
            &&& after == after_seek_to(before, target)
        }
}

/// Every seek has a larger number than the ones before it, so that a picture tells whether it is
/// from before the last one.
pub proof fn law_seek_numbers_grow<F>(s: ControllerState<F>, target: Duration, now: Instant)
    requires
        s.seek_gen < u64::MAX,
    ensures
        after_seek_to(s, target).seek_gen == s.seek_gen + 1,
        after_preview(s, target, now).seek_gen == s.seek_gen + 1,
{
}

/// A picture from before a seek never moves the place away from where the seek went.
pub proof fn law_stale_pictures_do_not_move<F>(
    s: ControllerState<F>,
    target: Duration,
    image: F,
    pts_us: u64,
    duration_us: u64,
    preview: bool,
    frame_gen: u64,
    after: ControllerState<F>,
)
    requires
        s.seek_gen < u64::MAX,
        frame_gen <= s.seek_gen,
        consumed(
            after_seek_to(s, target),
            Some((image, pts_us, duration_us, preview, frame_gen)),
            after,
        ),
    ensures
        after.position == within(target, s.duration),
        after.latest_frame == Some(image),
{
}

/// The picture of the last seek does move the place.
pub proof fn law_current_picture_moves<F>(
    s: ControllerState<F>,
    target: Duration,
    image: F,
    pts_us: u64,
    duration_us: u64,
    after: ControllerState<F>,
)
    requires
        consumed(
            after_seek_to(s, target),
            Some((image, pts_us, duration_us, false, after_seek_to(s, target).seek_gen)),
            after,
        ),
    ensures
        after.position@ == pts_us * 1000,
{
}

/// While the slider is dragged the place is where the slider is, whatever pictures come.
pub proof fn law_slider_leads_during_drag<F>(
    s: ControllerState<F>,
    target: Duration,
    now: Instant,
    image: F,
    pts_us: u64,
    duration_us: u64,
    preview: bool,
    frame_gen: u64,
    after: ControllerState<F>,
)
    requires
        consumed(
            after_preview(s, target, now),
            Some((image, pts_us, duration_us, preview, frame_gen)),
            after,
        ),
    ensures
        after.position == within(target, s.duration),
        after.dragging,
{
}

/// Letting the slider go always asks for the final place, however short a time ago a preview was
/// asked for, and ends the drag.
pub proof fn law_release_always_commits<F>(s: ControllerState<F>, target: Duration, now: Instant)
    ensures
        ({
            let dragged = after_preview(s, target, now);
            let released = after_seek_to(dragged, target);
            &&& !released.dragging
            &&& released.outbox.last() == PlayerCommand::SeekCommit(
                within(target, s.duration),
                released.seek_gen,
            )
            &&& released.outbox.len() == dragged.outbox.len() + 1
        }),
{
}

/// Two previews are never asked for within the interval.
pub proof fn law_previews_are_throttled<F>(
    s: ControllerState<F>,
    first: Duration,
    second: Duration,
    now: Instant,
    later: Instant,
)
    requires
        now@ <= later@ < now@ + PREVIEW_MIN_INTERVAL_MS * 1_000_000,
        !is_throttled(s.last_preview_sent, now),
    ensures
        ({
            let once = after_preview(s, first, now);
            let twice = after_preview(once, second, later);
            &&& once.outbox.len() == s.outbox.len() + 1
            &&& twice.outbox == once.outbox
            &&& twice.position == within(second, s.duration)
        }),
{
}

/// A place never lies past the end of the media.
pub proof fn law_place_is_within(target: Duration, duration: Duration)
    ensures
        duration@ > 0 ==> within(target, duration)@ <= duration@,
        within(within(target, duration), duration) == within(target, duration),
{
}

/// Asking twice for the same pause, mute or speed asks the decoding side once; toggling twice
/// leads back.
pub proof fn law_settings_settle<F>(s: ControllerState<F>, flag: bool, speed: u64)
    ensures
        after_pause(after_pause(s, flag), flag) == after_pause(s, flag),
        after_muted(after_muted(s, flag), flag) == after_muted(s, flag),
        after_speed(after_speed(s, speed), speed) == after_speed(s, speed),
        after_pause(after_pause(s, !s.paused), s.paused).paused == s.paused,
        after_muted(after_muted(s, !s.muted), s.muted).muted == s.muted,
{
}

/// Going through the speeds of the menu leads back to normal speed, and each of them can be
/// played.
pub proof fn law_speeds_come_around()
    ensures
        next_speed(next_speed(next_speed(next_speed(next_speed(NORMAL_SPEED))))) == NORMAL_SPEED,
        forall|i: int|
            0 <= i < SPEED_STEPS@.len() ==> playable_speed(#[trigger] SPEED_STEPS@[i])
                == SPEED_STEPS@[i],
{
}

/// Going through the steps of the menu leads back to where it began.
pub proof fn law_steps_come_around(place: int)
    requires
        0 <= place < 6,
    ensures
        (((((((place + 1) % 6 + 1) % 6 + 1) % 6 + 1) % 6 + 1) % 6) + 1) % 6 == place,
        forall|step: SeekStep| #[trigger] is_step(step, place) ==> step_index(step) == place,
{
}

} // verus!
