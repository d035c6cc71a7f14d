//! The state of the simple player window.

use crate::gpui_video::playback_clock::Schedule;
use crate::text::{padded, push_padded};
use crate::time::{Duration, MAX_NANOS};
use vstd::prelude::*;
use vstd::string::StringExecFns;

pub use crate::gpui_video::player::{key_of, Key, Showing};

verus! {

/// Seconds from one report of the statistics to the next.
pub const STATS_WINDOW_SECS: u64 = 2;

/// Seconds that an arrow key goes forward or back.
pub const SEEK_STEP_SECS: u64 = 5;

/// The margin on both sides of the slider, in pixels.
pub const PROGRESS_INSET: i64 = 12;

/// What the decoding side is asked to do.
#[derive(Debug, Clone, Copy, PartialEq, Eq, Structural)]
pub enum PlaybackCommand {
    Pause,
    Resume,
    Seek(Duration),
}

/// What the window shows.
pub struct PlayerView<F> {
    pub latest_frame: Option<F>,
    /// How long the media is; empty where that is not known.
    pub duration: Duration,
    /// The place in the media.
    pub position: Duration,
    pub paused: bool,
}

/// What becomes of a picture, by the decision of the clock.
pub fn showing(s: Schedule) -> (r: Showing)
    ensures
        r == (match s {
            Schedule::Wait(d) => Showing::After(d),
            Schedule::Now => Showing::Now,
            Schedule::Drop { .. } => Showing::Skip,
            Schedule::Resynced { .. } => Showing::Now,
        }),
{
    match s {
        Schedule::Wait(d) => Showing::After(d),
        Schedule::Now => Showing::Now,
        Schedule::Drop { .. } => Showing::Skip,
        Schedule::Resynced { .. } => Showing::Now,
    }
}

/// The place `target`, or the end of the media where that comes first.
pub open spec fn at_most(target: Duration, end: Duration) -> Duration {
    if target@ <= end@ {
        target
    } else {
        end
    }
}

/// The part of a media of `duration` nanoseconds that lies before `position`, as a numerator and a
/// denominator.
pub open spec fn filled(position: nat, duration: nat) -> (nat, nat) {
    if duration == 0 {
        (0, 1)
    } else if position >= duration {
        (duration, duration)
    } else {
        (position, duration)
    }
}

/// The nanosecond of a media of `duration` nanoseconds that lies at `x` on a slider of the width
/// `width`.
pub open spec fn place_at(duration: nat, x: int, width: int) -> int {
    if x <= 0 {
        0
    } else if x >= width {
        duration as int
    } else {
        duration as int * x / width
    }
}

/// The nanosecond that lies at `x` on a slider of the width `width`, which runs to the left where the
/// width is negative.
pub open spec fn slider_place(duration: nat, x: int, width: int) -> int {
    if width > 0 {
        place_at(duration, x, width)
    } else {
        place_at(duration, -x, -width)
    }
}

/// Minutes and seconds of a span.
pub open spec fn clock_text(nanos: nat) -> Seq<char> {
    padded(nanos / 1_000_000_000 / 60, 2) + ":"@ + padded(nanos / 1_000_000_000 % 60, 2)
}

/// Appends minutes and seconds of a span.
fn push_clock(out: &mut String, d: Duration)
    ensures
        final(out)@ == old(out)@ + clock_text(d@),
{
    let ghost before = out@;
    let secs: u64 = d.as_secs();
    push_padded(out, (secs / 60) as u128, 2);
    out.append(":");
    push_padded(out, (secs % 60) as u128, 2);
    assert(out@ =~= before + clock_text(d@));
}

impl<F> PlayerView<F> {
    /// A window without a picture.
    pub fn new() -> (v: PlayerView<F>)
        ensures
            v.latest_frame is None,
            v.duration@ == 0,
            v.position@ == 0,
            !v.paused,
    {
        PlayerView {
            latest_frame: None,
            duration: Duration::zero(),
            position: Duration::zero(),
            paused: false,
        }
    }

    /// The media came to its end: the place is there. The window stays, for the user may go back.
    pub fn on_end(&mut self)
        ensures
            *final(self) == (PlayerView {
                position: if old(self).duration@ == 0 {
                    old(self).position
                } else {
                    old(self).duration
                },
                ..*old(self)
            }),
    {
        if !self.duration.is_zero() {
            self.position = self.duration;
        }
    }

    /// A picture is shown.
    pub fn on_picture(&mut self, image: F, pts: Duration, duration_us: u64)
        ensures
            *final(self) == (PlayerView {
                latest_frame: Some(image),
                duration: final(self).duration,
                position: pts,
                ..*old(self)
            }),
            final(self).duration@ == duration_us * 1000,
    {
        self.latest_frame = Some(image);
        self.duration = Duration::from_micros(duration_us);
        self.position = pts;
    }

    /// Pauses playing, or goes on.
    pub fn toggle_pause(&mut self) -> (c: PlaybackCommand)
        ensures
            *final(self) == (PlayerView { paused: !old(self).paused, ..*old(self) }),
            c == (if old(self).paused {
                PlaybackCommand::Resume
            } else {
                PlaybackCommand::Pause
            }),
    {
        self.paused = !self.paused;
        if self.paused {
            PlaybackCommand::Pause
        } else {
            PlaybackCommand::Resume
        }
    }

    /// Goes to `target`, but not past the end of the media.
    pub fn seek_to(&mut self, target: Duration) -> (c: PlaybackCommand)
        ensures
            *final(self) == (PlayerView {
                position: at_most(target, old(self).duration),
                ..*old(self)
            }),
            c == PlaybackCommand::Seek(final(self).position),
    {
        let target = target.shorter(self.duration);
        self.position = target;
        PlaybackCommand::Seek(target)
    }

    /// Goes back by `delta`, but not past the start of the media.
    pub fn seek_backward(&mut self, delta: Duration) -> (c: PlaybackCommand)
        ensures
            *final(self) == (PlayerView { position: final(self).position, ..*old(self) }),
            ({
                let target = if old(self).position@ >= delta@ {
                    old(self).position@ - delta@
                } else {
                    0
                };
                final(self).position@ == (if target <= old(self).duration@ {
                    target
                } else {
                    old(self).duration@ as int
                })
            }),
            c == PlaybackCommand::Seek(final(self).position),
    {
        self.seek_to(self.position.saturating_minus(delta))
    }

    /// Goes forward by `delta`, but not past the end of the media.
    pub fn seek_forward(&mut self, delta: Duration) -> (c: PlaybackCommand)
        ensures
            *final(self) == (PlayerView { position: final(self).position, ..*old(self) }),
            ({
                let sum = old(self).position@ + delta@;
                let target = if sum <= MAX_NANOS {
                    sum
                } else {
                    MAX_NANOS as nat
                };
                final(self).position@ == (if target <= old(self).duration@ {
                    target
                } else {
                    old(self).duration@
                })
            }),
            c == PlaybackCommand::Seek(final(self).position),
    {
        self.seek_to(self.position.saturating_plus(delta))
    }

    /// A click at `x` on a window that begins at `left` and is `width` wide, all in a unit of which
    /// `unit` make a pixel: goes to the place of the slider below it. A slider without any width
    /// does not listen.
    pub fn seek_click(&mut self, x: i32, left: i32, width: i32, unit: u16) -> (c: Option<
        PlaybackCommand,
    >)
        ensures
            width == 2 * PROGRESS_INSET * unit ==> c is None && *final(self) == *old(self),
            width != 2 * PROGRESS_INSET * unit ==> {
                &&& *final(self) == (PlayerView { position: final(self).position, ..*old(self) })
                &&& final(self).position@ == slider_place(
                    old(self).duration@,
                    x - left - PROGRESS_INSET * unit,
                    width - 2 * PROGRESS_INSET * unit,
                )
                &&& c == Some(PlaybackCommand::Seek(final(self).position))
            },
    {
        let inset: i64 = PROGRESS_INSET * unit as i64;
        let track: i64 = width as i64 - 2 * inset;
        assert(2 * PROGRESS_INSET * unit == 2 * inset) by (nonlinear_arith)
            requires
                inset == PROGRESS_INSET * unit,
        ;
        if track == 0 {
            return None;
        }
        let from_left: i64 = x as i64 - left as i64 - inset;
        let at: i64 = if track > 0 {
            from_left
        } else {
            -from_left
        };
        let track: i64 = if track > 0 {
            track
        } else {
            -track
        };
        let target = if at <= 0 {
            Duration::zero()
        } else if at >= track {
            self.duration
        } else {
            let total: u128 = self.duration.as_nanos();
            proof {
                assert(total * at <= MAX_NANOS * 0x2_0000_0000) by (nonlinear_arith)
                    requires
                        0 <= total <= MAX_NANOS,
                        0 < at < 0x2_0000_0000,
                ;
                assert(total * at / (track as int) <= total) by (nonlinear_arith)
                    requires
                        total >= 0,
                        0 < at < track,
                ;
            }
            Duration::of_nanos(total * (at as u128) / (track as u128))
        };
        Some(self.seek_to(target))
    }

    /// A key was pressed: the command that it stands for, where it stands for one.
    pub fn on_key(&mut self, key: Key) -> (c: Option<PlaybackCommand>)
        ensures
            match key {
                Key::Space => {
                    &&& *final(self) == (PlayerView { paused: !old(self).paused, ..*old(self) })
                    &&& c == Some(
                        if old(self).paused {
                            PlaybackCommand::Resume
                        } else {
                            PlaybackCommand::Pause
                        },
                    )
                },
                Key::Left | Key::Right => {
                    let step = (SEEK_STEP_SECS * 1_000_000_000) as int;
                    let there = if key == Key::Right {
                        if old(self).position@ + step <= MAX_NANOS {
                            old(self).position@ + step
                        } else {
                            MAX_NANOS as int
                        }
                    } else if old(self).position@ >= step {
                        old(self).position@ - step
                    } else {
                        0
                    };
                    &&& *final(self) == (PlayerView {
                        position: final(self).position,
                        ..*old(self)
                    })
                    &&& final(self).position@ == (if there <= old(self).duration@ {
                        there
                    } else {
                        old(self).duration@ as int
                    })
                    &&& c == Some(PlaybackCommand::Seek(final(self).position))
                },
                Key::Other => *final(self) == *old(self) && c is None,
            },
    {
        match key {
            Key::Space => Some(self.toggle_pause()),
            Key::Left => Some(self.seek_backward(Duration::from_secs(SEEK_STEP_SECS))),
            Key::Right => Some(self.seek_forward(Duration::from_secs(SEEK_STEP_SECS))),
            Key::Other => None,
        }
    }

    /// How much of the slider is filled: a numerator and a denominator.
    pub fn fill(&self) -> (r: (u128, u128))
        ensures
            (r.0 as nat, r.1 as nat) == filled(self.position@, self.duration@),
            r.0 <= r.1,
            r.1 > 0,
    {
        let total: u128 = self.duration.as_nanos();
        let done: u128 = self.position.as_nanos();
        if total == 0 {
            (0, 1)
        } else if done >= total {
            (total, total)
        } else {
            (done, total)
        }
    }

    /// The place and the length of the media, in minutes and seconds.
    pub fn time_text(&self) -> (r: String)
        ensures
            r@ == clock_text(self.position@) + " / "@ + clock_text(self.duration@),
    {
        let mut text = String::new();
        push_clock(&mut text, self.position);
        assert(text@ =~= clock_text(self.position@));
        text.append(" / ");
        push_clock(&mut text, self.duration);
        text
    }
}

/// A click on the slider fills it to the place of the click: the ends of the slider are the ends
/// of the media, and further right is never earlier.
pub proof fn law_slider_is_monotone(duration: nat, x: int, y: int, width: int)
    requires
        width > 0,
        x <= y,
    ensures
        0 <= place_at(duration, x, width) <= place_at(duration, y, width) <= duration,
        place_at(duration, 0, width) == 0,
        place_at(duration, width, width) == duration,
{
    let d = duration as int;
    if 0 < x < width {
        assert(0 <= d * x / width <= d) by (nonlinear_arith)
            requires
                d >= 0,
                0 < x < width,
        ;
    }
    if 0 < y < width {
        assert(0 <= d * y / width <= d) by (nonlinear_arith)
            requires
                d >= 0,
                0 < y < width,
        ;
    }
    if 0 < x && y < width {
        assert(d * x / width <= d * y / width) by (nonlinear_arith)
            requires
                d >= 0,
                0 < x <= y < width,
        ;
    }
}

} // verus!
