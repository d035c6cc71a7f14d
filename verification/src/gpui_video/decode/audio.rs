//! What becomes of decoded sound.

use crate::gpui_video::decode::{before_target, DecodeLoop};
use crate::time::Duration;
use vstd::prelude::*;

verus! {

/// Milliseconds of sound that may wait; with more, decoding waits.
pub const AUDIO_BUFFER_MS: u64 = 400;

/// Milliseconds of sound that have to wait before a sound card that was opened anew is started.
pub const AUDIO_START_MIN_MS: u64 = 80;

/// Milliseconds between two looks at a full buffer.
pub const AUDIO_BACKOFF_MS: u64 = 5;

/// Decides whether the sound card is started: it was asked to, it is there, and enough sound waits.
pub fn try_start_audio(audio: bool, queued: Duration, start_audio: &mut bool) -> (start: bool)
    ensures
        start == (*old(start_audio) && audio && queued@ >= AUDIO_START_MIN_MS * 1_000_000),
        *final(start_audio) == (*old(start_audio) && !start),
{
    if !*start_audio {
        return false;
    }
    if !audio {
        return false;
    }
    if queued >= Duration::from_millis(AUDIO_START_MIN_MS) {
        *start_audio = false;
        true
    } else {
        false
    }
}

/// Where a stretch of sound goes.
#[derive(Debug, Clone, Copy, PartialEq, Eq, Structural)]
pub enum AudioFate {
    /// Away: it comes before the place that was sought.
    BeforeTarget,
    /// Away: only a picture is wanted.
    ScrubPaused,
    /// Nowhere: there is no sound card.
    NoDevice,
    /// To the sound card; at once, or once there is room.
    Push { wait_for_room: bool },
}

/// Where sound of the time `pts` goes.
pub open spec fn fate_of<F>(s: DecodeLoop<F>, pts: Duration, backpressure: bool) -> AudioFate {
    if before_target(s.audio_seek_target, pts) {
        AudioFate::BeforeTarget
    } else if s.scrub_paused {
        AudioFate::ScrubPaused
    } else if !s.audio {
        AudioFate::NoDevice
    } else {
        AudioFate::Push { wait_for_room: backpressure && !s.start_audio && !s.previewing }
    }
}

/// The loop after sound of the time `pts` was decoded.
pub open spec fn after_sound<F>(s: DecodeLoop<F>, pts: Duration) -> DecodeLoop<F> {
    DecodeLoop {
        audio_seek_target: if before_target(s.audio_seek_target, pts) {
            s.audio_seek_target
        } else {
            None
        },
        ..s
    }
}

/// Whether sound has to wait for room: more than the limit waits already.
pub fn is_full(queued: Duration) -> (r: bool)
    ensures
        r == (queued@ > AUDIO_BUFFER_MS * 1_000_000),
{
    queued > Duration::from_millis(AUDIO_BUFFER_MS)
}

impl<F> DecodeLoop<F> {
    /// Whether the sound is filled up before a picture is sent, given that `queued` waits. While
    /// sound is only thrown away there is no filling up: it would read the media to its end.
    pub fn wants_audio(&self, queued: Duration) -> (r: bool)
        ensures
            r == (self.audio && !self.scrub_paused && queued@ < AUDIO_BUFFER_MS * 1_000_000),
    {
        self.audio && !self.scrub_paused && queued < Duration::from_millis(AUDIO_BUFFER_MS)
    }

    /// Decides where sound of the time `pts` goes. Sound at or behind the place that was sought
    /// ends the search for it. Sound that is filled up never waits for room: the filling ends by
    /// itself, and waiting would hold up the pictures. Neither does sound that nothing plays yet.
    pub fn deliver_audio(&mut self, pts: Duration, backpressure: bool) -> (r: AudioFate)
        requires
            old(self).wf(),
        ensures
            final(self).wf(),
            r == fate_of(*old(self), pts, backpressure),
            *final(self) == after_sound(*old(self), pts),
    {
        match self.audio_seek_target {
            Some(target) => {
                if pts < target {
                    return AudioFate::BeforeTarget;
                }
                self.audio_seek_target = None;
            },
            None => {},
        }
        if self.scrub_paused {
            AudioFate::ScrubPaused
        } else if !self.audio {
            AudioFate::NoDevice
        } else {
            AudioFate::Push { wait_for_room: backpressure && !self.start_audio && !self.previewing }
        }
    }
}

/// What is done at the end of the media, to let the rest of the sound be heard.
#[derive(Debug, Clone, Copy, PartialEq, Eq, Structural)]
pub enum DrainStep {
    /// Start the sound card, which stands still.
    Start,
    /// Look again a little later.
    Wait,
    /// Nothing is left to be heard, or nobody listens any more.
    Done,
}

/// What is done at the end of the media, given that `queued_frames` samples wait.
pub fn drain_audio(running: bool, is_paused: bool, queued_frames: usize) -> (r: DrainStep)
    ensures
        r == (if is_paused {
            DrainStep::Start
        } else if running && queued_frames > 0 {
            DrainStep::Wait
        } else {
            DrainStep::Done
        }),
{
    if is_paused {
        DrainStep::Start
    } else if running && queued_frames > 0 {
        DrainStep::Wait
    } else {
        DrainStep::Done
    }
}

} // verus!
