//! When the window shows which picture, and what keys and the slider do.

use crate::gpui_video::controller::commands::{
    after_pause, after_preview, after_seek_to, went_back, went_forward,
};
use crate::gpui_video::controller::{
    asked, ControllerState, FrameMsg, PlayerCommand, PlayerController,
};
use crate::gpui_video::playback_clock::{PlaybackClock, Schedule};
use crate::player_core::audio_output::AudioClock;
use crate::time::{wrap_i64, Duration, Instant, MAX_NANOS};
use vstd::prelude::*;

verus! {

/// Seconds from one report of the statistics to the next.
pub const STATS_WINDOW_SECS: u64 = 2;

/// Seconds that an arrow key goes forward or back.
pub const SEEK_STEP_SECS: u64 = 5;

/// A picture whose time is further away than this many milliseconds is left over from before a
/// seek.
pub const MAX_WAIT_MS: u64 = 1000;

/// The media came to its end.
#[derive(Debug, Clone, Copy, PartialEq, Eq, Structural)]
pub struct PlaybackEnded;

/// How the place is written.
#[derive(Debug, Clone, Copy, PartialEq, Eq, Structural)]
pub enum TimeFormat {
    /// Minutes, seconds and pictures.
    Frame,
    /// Minutes, seconds and pictures, the milliseconds of the second, and all milliseconds.
    FrameMillis,
}

impl Default for TimeFormat {
    fn default() -> (f: TimeFormat)
        ensures
            f == TimeFormat::Frame,
    {
        TimeFormat::Frame
    }
}

/// What becomes of a picture, or of the end of the media.
#[derive(Debug, Clone, Copy, PartialEq, Eq, Structural)]
pub enum Showing {
    /// It is taken in at once.
    Now,
    /// It is taken in after this long.
    After(Duration),
    /// It is thrown away.
    Skip,
}

/// What becomes of a picture, by the decision of the clock. A wait that is too long means that the
/// picture is left over from before a seek: waiting would hold up those that come after it.
pub open spec fn by_schedule(s: Schedule) -> Showing {
    match s {
        Schedule::Now | Schedule::Resynced { .. } => Showing::Now,
        Schedule::Wait(d) => if d@ / 1_000_000 > MAX_WAIT_MS {
            Showing::Skip
        } else {
            Showing::After(d)
        },
        Schedule::Drop { .. } => Showing::Skip,
    }
}

/// The loop that takes pictures from the decoding side.
#[derive(Debug, Clone, Copy)]
pub struct RenderLoop {
    pub clock: PlaybackClock,
    /// The number of the sound card's clock that the pictures go by.
    pub audio_generation: u64,
}

/// The clock of the loop after it was brought up to date with the sound card: one of another number
/// takes the place of the old one, and the wall clock is set anew by the next picture; one of the
/// same number was only read again.
pub open spec fn updated(
    s: RenderLoop,
    generation: u64,
    offset_us: i64,
    audio: Option<AudioClock>,
) -> RenderLoop {
    let known = generation != s.audio_generation || s.clock.audio is Some;
    let clock = PlaybackClock {
        audio: if audio is Some && known {
            audio
        } else {
            s.clock.audio
        },
        origin: if generation != s.audio_generation {
            None
        } else {
            s.clock.origin
        },
        audio_offset: offset_us,
        ..s.clock
    };
    RenderLoop { clock, audio_generation: generation }
}

/// The clock, for a media that lasts `duration_us` microseconds.
pub open spec fn lasting(clock: PlaybackClock, duration_us: u64) -> PlaybackClock {
    PlaybackClock { duration_us, ..clock }
}

/// How far a picture of the time `pts_us` lies from the sound, in microseconds.
pub open spec fn drift(audio: AudioClock, pts_us: u64) -> i64 {
    wrap_i64(wrap_i64(audio.nanos() / 1000) - wrap_i64(pts_us as int)) as i64
}

impl RenderLoop {
    /// The sound card's clock can be read.
    pub open spec fn wf(self) -> bool {
        self.clock.wf()
    }

    /// A loop that has seen nothing yet.
    pub fn new() -> (s: RenderLoop)
        ensures
            s.wf(),
            s.clock.audio is None,
            s.clock.audio_offset == 0,
            s.clock.duration_us == 0,
            s.clock.origin is None,
            s.audio_generation == 0,
    {
        RenderLoop { clock: PlaybackClock::new(), audio_generation: 0 }
    }

    /// Brings the clock up to date with the sound card: `generation` numbers its clock, `audio` is
    /// a reading of it, and `offset_us` tells where in the media it starts.
    pub fn update(&mut self, generation: u64, offset_us: i64, audio: Option<AudioClock>)
        requires
            old(self).wf(),
            audio matches Some(a) ==> a.sample_rate > 0,
        ensures
            final(self).wf(),
            *final(self) == updated(*old(self), generation, offset_us, audio),
            final(self).clock.audio_offset == offset_us,
            final(self).audio_generation == generation,
    {
        match audio {
            Some(a) => {
                if generation != self.audio_generation || self.clock.audio.is_some() {
                    self.clock.set_audio(a);
                }
            },
            None => {},
        }
        if generation != self.audio_generation {
            self.audio_generation = generation;
            self.clock.reset_origin();
        }
        self.clock.set_audio_offset(offset_us);
    }

    /// Decides what becomes of an item, at the time `now`. A preview is shown at once, as is
    /// everything during a drag, when the sound stands still and its clock with it. The end of the
    /// media is always taken in.
    pub fn on_item<F>(&mut self, item: &FrameMsg<F>, dragging: bool, now: Instant) -> (r: Showing)
        requires
            old(self).wf(),
            0 <= now@ <= u64::MAX,
        ensures
            final(self).wf(),
            match *item {
                Some((_, pts_us, duration_us, preview, _)) => if preview || dragging {
                    r == Showing::Now && *final(self) == *old(self)
                } else {
                    exists|target: Duration, s: Schedule|
                        {
                            &&& target@ == pts_us * 1000
                            &&& #[trigger] lasting(old(self).clock, duration_us).decides(
                                target,
                                now,
                                s,
                                final(self).clock,
                            )
                            &&& r == by_schedule(s)
                            &&& final(self).audio_generation == old(self).audio_generation
                        }
                },
                None => r == Showing::Now && *final(self) == *old(self),
            },
    {
        match item {
            Some((_, pts_us, duration_us, preview, _)) => {
                if *preview || dragging {
                    return Showing::Now;
                }
                self.clock.set_duration(*duration_us);
                let target = Duration::from_micros(*pts_us);
                let s = self.clock.schedule_at(target, now);
                assert(lasting(old(self).clock, *duration_us).decides(target, now, s, self.clock));
                match s {
                    Schedule::Now | Schedule::Resynced { .. } => Showing::Now,
                    Schedule::Wait(d) => if d.as_millis() > MAX_WAIT_MS as u128 {
                        Showing::Skip
                    } else {
                        Showing::After(d)
                    },
                    Schedule::Drop { .. } => Showing::Skip,
                }
            },
            None => Showing::Now,
        }
    }
}

/// How far a picture that is shown lies from the sound, in microseconds; nothing for a preview, for
/// the end of the media, and without sound.
pub fn drift_of<F>(item: &FrameMsg<F>, audio: Option<AudioClock>) -> (r: Option<i64>)
    requires
        audio matches Some(a) ==> a.sample_rate > 0,
    ensures
        r == (match (*item, audio) {
            (Some((_, pts_us, _, false, _)), Some(a)) => Some(drift(a, pts_us)),
            _ => None,
        }),
{
    match item {
        Some((_, pts_us, _, preview, _)) => {
            if *preview {
                return None;
            }
            match audio {
                Some(a) => {
                    let played: i64 = a.position().micros_i64();
                    let pts: i64 = crate::time::low_i64(*pts_us as u128);
                    Some(played.wrapping_sub(pts))
                },
                None => None,
            }
        },
        None => None,
    }
}

/// What the slider reports.
#[derive(Debug, Clone, Copy, PartialEq, Eq, Structural)]
pub enum SliderEvent {
    /// It is dragged to this many milliseconds.
    Change(u64),
    /// It is let go at this many milliseconds.
    Release(u64),
}

/// The keys that the player listens to.
#[derive(Debug, Clone, Copy, PartialEq, Eq, Structural)]
pub enum Key {
    Space,
    Left,
    Right,
    Other,
}

/// The key of the given name.
pub fn key_of(name: &str) -> (k: Key)
    ensures
        k == (if name@ == "space"@ {
            Key::Space
        } else if name@ == "left"@ {
            Key::Left
        } else if name@ == "right"@ {
            Key::Right
        } else {
            Key::Other
        }),
{
    let name = name.to_string();
    if name == "space".to_string() {
        Key::Space
    } else if name == "left".to_string() {
        Key::Left
    } else if name == "right".to_string() {
        Key::Right
    } else {
        Key::Other
    }
}

/// A player window: the state of its player, and what the window remembers beside it.
pub struct Player<F> {
    pub controller: PlayerController<F>,
    /// The slider is being dragged.
    pub dragging: bool,
    /// The controls are shown.
    pub controls_visible: bool,
    pub time_format: TimeFormat,
}

/// Nothing about the window changed but the state of its player.
pub open spec fn same_window<F>(before: Player<F>, after: Player<F>) -> bool {
    &&& after.dragging == before.dragging
    &&& after.controls_visible == before.controls_visible
    &&& after.time_format == before.time_format
}

impl<F> Player<F> {
    /// A window whose controls are hidden.
    pub fn new(controller: PlayerController<F>) -> (p: Player<F>)
        ensures
            p == (Player {
                controller,
                dragging: false,
                controls_visible: false,
                time_format: TimeFormat::Frame,
            }),
    {
        Player {
            controller,
            dragging: false,
            controls_visible: false,
            time_format: TimeFormat::Frame,
        }
    }

    /// The same window with another way to write the place.
    pub fn time_format(self, format: TimeFormat) -> (p: Player<F>)
        ensures
            p == (Player { time_format: format, ..self }),
    {
        Player { time_format: format, ..self }
    }

    /// The slider was moved, at the time `now`. The first move of a drag silences the sound; each
    /// move asks for a preview, and letting go for the place itself.
    pub fn on_slider(&mut self, event: SliderEvent, now: Instant)
        ensures
            final(self).controls_visible == old(self).controls_visible,
            final(self).time_format == old(self).time_format,
            final(self).dragging == (event is Change),
            match event {
                SliderEvent::Change(ms) => exists|target: Duration|
                    {
                        &&& #[trigger] target@ == ms * 1_000_000
                        &&& final(self).controller@ == after_preview(
                            if old(self).dragging {
                                old(self).controller@
                            } else {
                                asked(old(self).controller@, PlayerCommand::MuteAudio)
                            },
                            target,
                            now,
                        )
                    },
                SliderEvent::Release(ms) => exists|target: Duration|
                    {
                        &&& #[trigger] target@ == ms * 1_000_000
                        &&& final(self).controller@ == after_seek_to(old(self).controller@, target)
                    },
            },
    {
        match event {
            SliderEvent::Change(ms) => {
                if !self.dragging {
                    self.dragging = true;
                    self.controller.mute_audio();
                }
                let target = Duration::from_millis(ms);
                self.controller.seek_preview_at(target, now);
                assert(target@ == ms * 1_000_000);
            },
            SliderEvent::Release(ms) => {
                self.dragging = false;
                let target = Duration::from_millis(ms);
                self.controller.seek_release(target);
                assert(target@ == ms * 1_000_000);
            },
        }
    }

    /// Where the slider stands and ends, in milliseconds; during a drag it stands where the user
    /// holds it.
    pub fn slider_range(&self) -> (r: Option<(u128, u128)>)
        ensures
            self.controller@.dragging ==> r is None,
            !self.controller@.dragging ==> r == Some(
                {
                    let end = (self.controller@.duration@ / 1_000_000) as u128;
                    let at = (self.controller@.position@ / 1_000_000) as u128;
                    (
                        if at < end {
                            at
                        } else {
                            end
                        },
                        end,
                    )
                },
            ),
    {
        if self.controller.is_dragging() {
            return None;
        }
        let end: u128 = self.controller.duration().as_millis();
        let at: u128 = self.controller.position().as_millis();
        Some(
            (
                if at < end {
                    at
                } else {
                    end
                },
                end,
            ),
        )
    }

    /// Drags the slider to `target` and lets it go, at the time `now`.
    pub fn seek(&mut self, target: Duration, now: Instant)
        ensures
            same_window(*old(self), *final(self)),
            final(self).controller@ == after_seek_to(
                after_preview(old(self).controller@, target, now),
                target,
            ),
    {
        self.controller.seek_preview_at(target, now);
        self.controller.seek_release(target);
    }

    /// Drags the slider to `target`, at the time `now`.
    pub fn seek_preview(&mut self, target: Duration, now: Instant)
        ensures
            same_window(*old(self), *final(self)),
            final(self).controller@ == after_preview(old(self).controller@, target, now),
    {
        self.controller.seek_preview_at(target, now);
    }

    /// Pauses playing, or goes on.
    pub fn toggle(&mut self)
        ensures
            same_window(*old(self), *final(self)),
            final(self).controller@ == after_pause(
                old(self).controller@,
                !old(self).controller@.paused,
            ),
    {
        self.controller.toggle();
    }

    /// Goes forward by `delta`, but not past the end of the media.
    pub fn seek_forward(&mut self, delta: Duration)
        requires
            old(self).controller@.position@ + delta@ <= MAX_NANOS,
        ensures
            same_window(*old(self), *final(self)),
            went_forward(old(self).controller@, delta@ as int, final(self).controller@),
    {
        self.controller.seek_forward(delta);
    }

    /// Goes back by `delta`, but not past the start of the media.
    pub fn seek_backward(&mut self, delta: Duration)
        ensures
            same_window(*old(self), *final(self)),
            went_back(old(self).controller@, delta@ as int, final(self).controller@),
    {
        self.controller.seek_backward(delta);
    }

    /// A key was pressed.
    pub fn on_key(&mut self, key: Key)
        requires
            key == Key::Right ==> old(self).controller@.position@ + SEEK_STEP_SECS * 1_000_000_000
                <= MAX_NANOS,
        ensures
            same_window(*old(self), *final(self)),
            match key {
                Key::Space => final(self).controller@ == after_pause(
                    old(self).controller@,
                    !old(self).controller@.paused,
                ),
                Key::Left => went_back(
                    old(self).controller@,
                    SEEK_STEP_SECS * 1_000_000_000,
                    final(self).controller@,
                ),
                Key::Right => went_forward(
                    old(self).controller@,
                    SEEK_STEP_SECS * 1_000_000_000,
                    final(self).controller@,
                ),
                Key::Other => final(self).controller@ == old(self).controller@,
            },
    {
        match key {
            Key::Space => self.toggle(),
            Key::Left => self.seek_backward(Duration::from_secs(SEEK_STEP_SECS)),
            Key::Right => self.seek_forward(Duration::from_secs(SEEK_STEP_SECS)),
            Key::Other => {},
        }
    }

    /// The pointer moved over the window. Says whether that changed anything.
    pub fn on_pointer_move(&mut self) -> (changed: bool)
        ensures
            *final(self) == (Player { controls_visible: true, ..*old(self) }),
            changed == !old(self).controls_visible,
    {
        let changed = !self.controls_visible;
        self.controls_visible = true;
        changed
    }

    /// The pointer left the window: the controls go, unless the menu or the panel is open. Says
    /// whether they went.
    pub fn on_pointer_exit(&mut self) -> (hidden: bool)
        ensures
            hidden == !(old(self).controller@.menu_open || old(self).controller@.info_open),
            *final(self) == (Player {
                controls_visible: old(self).controls_visible && !hidden,
                ..*old(self)
            }),
    {
        let keep = self.controller.is_menu_open() || self.controller.is_info_open();
        if !keep {
            self.controls_visible = false;
        }
        !keep
    }

    /// The user clicked beside menu and panel: both close.
    pub fn on_click_outside(&mut self)
        ensures
            same_window(*old(self), *final(self)),
            final(self).controller@ == (ControllerState {
                menu_open: false,
                info_open: false,
                ..old(self).controller@
            }),
    {
        if self.controller.is_menu_open() {
            self.controller.close_menu();
        }
        if self.controller.is_info_open() {
            self.controller.close_info();
        }
    }
}

/// A new clock of the sound card, as after a seek, makes the next picture without sound be shown
/// at once; the same clock leaves the time line as it is.
pub proof fn law_new_clock_resets(
    s: RenderLoop,
    generation: u64,
    offset_us: i64,
    audio: Option<AudioClock>,
)
    ensures
        generation != s.audio_generation ==> updated(
            s,
            generation,
            offset_us,
            audio,
        ).clock.origin is None,
        generation == s.audio_generation ==> updated(
            s,
            generation,
            offset_us,
            audio,
        ).clock.origin == s.clock.origin,
{
}

/// No picture is waited for longer than the limit.
pub proof fn law_waits_are_bounded(s: Schedule)
    ensures
        by_schedule(s) matches Showing::After(d) ==> d@ < (MAX_WAIT_MS + 1) * 1_000_000,
{
}

} // verus!
