//! A simple pipeline: one loop decodes and never turns back, one clock times the pictures.

use crate::gpui_video::playback_clock::{by_sound, by_wall, lag_is, Lag};
use crate::gpui_video::player::drift;
use crate::player_core::audio_output::AudioClock;
use crate::player_core::frame::size_of_i64;
use crate::time::{low_i64, span_between, Duration, Instant, Stopwatch, MAX_NANOS, MIN_INSTANT};
use vstd::prelude::*;

pub use crate::gpui_video::playback_clock::{schedule_against, Schedule};

verus! {

/// How many pictures may wait for the window. Few: the window takes them when their time comes, so
/// that the queue is meant to be full.
pub const FRAME_QUEUE_CAP: usize = 3;

/// Milliseconds behind the wall clock after which the clock is set anew.
pub const RESYNC_THRESHOLD_MS: u64 = 200;

/// Milliseconds behind the sound after which a picture is dropped.
pub const DROP_THRESHOLD_MS: u64 = 100;

/// Milliseconds between two attempts to send a picture.
pub const SEND_BACKOFF_MS: u64 = 2;

/// Every so many pictures the progress is logged.
pub const DECODE_LOG_EVERY: u64 = 60;

/// Milliseconds of sound that may wait; with more, decoding waits.
pub const AUDIO_BUFFER_MS: u64 = 400;

/// Milliseconds between two looks at a full buffer.
pub const AUDIO_BACKOFF_MS: u64 = 5;

/// A picture on its way to the window, and its time in microseconds. Nothing stands for the end.
pub type FrameMsg<F> = Option<(F, u64)>;

/// The clock of the sound card on its way from the decoding side to the window. It is handed over
/// once; a media without sound never has one.
#[derive(Debug, Clone, Copy, PartialEq, Eq, Structural)]
pub struct AudioClockSource {
    /// The last reading of the clock.
    pub clock: Option<AudioClock>,
}

/// The source once the clock that was handed over has been read again. Before one is handed over
/// there is nothing to read.
pub open spec fn refreshed(s: AudioClockSource, clock: AudioClock) -> AudioClockSource {
    match s.clock {
        Some(_) => AudioClockSource { clock: Some(clock) },
        None => s,
    }
}

/// The source after a clock was handed over: it keeps the one that it has.
pub open spec fn attached(s: AudioClockSource, clock: AudioClock) -> AudioClockSource {
    match s.clock {
        Some(_) => s,
        None => AudioClockSource { clock: Some(clock) },
    }
}

impl AudioClockSource {
    /// No clock yet.
    pub fn new() -> (s: AudioClockSource)
        ensures
            s.clock is None,
    {
        AudioClockSource { clock: None }
    }

    /// Hands over the clock. Only the first one counts.
    pub fn attach(&mut self, clock: AudioClock)
        ensures
            *final(self) == attached(*old(self), clock),
    {
        if self.clock.is_none() {
            self.clock = Some(clock);
        }
    }

    /// Takes in a new reading of the clock that was handed over. The device plays on, so this comes
    /// before each look at the clock.
    pub fn refresh(&mut self, clock: AudioClock)
        ensures
            *final(self) == refreshed(*old(self), clock),
    {
        if self.clock.is_some() {
            self.clock = Some(clock);
        }
    }

    /// The last reading of the clock, where there is one.
    pub fn get(&self) -> (r: Option<AudioClock>)
        ensures
            r == self.clock,
    {
        self.clock
    }

    /// The number of clocks so far, where in the media the clock starts, and its last reading. A
    /// loop that never turns back starts its only clock with the media.
    pub fn get_with_generation(&self) -> (r: (u64, i64, Option<AudioClock>))
        ensures
            r.0 == (if self.clock is Some {
                1
            } else {
                0u64
            }),
            r.1 == 0,
            r.2 == self.clock,
    {
        let generation: u64 = if self.clock.is_some() {
            1
        } else {
            0
        };
        (generation, 0, self.clock)
    }
}

impl Default for AudioClockSource {
    fn default() -> (s: AudioClockSource)
        ensures
            s.clock is None,
    {
        AudioClockSource::new()
    }
}

/// What came out of the media.
#[derive(Debug, Clone, Copy, PartialEq, Eq, Structural)]
pub enum Decoded {
    Video,
    Audio,
    End,
    Failed,
}

/// What the decoding loop does next.
#[derive(Debug, Clone, Copy, PartialEq, Eq, Structural)]
pub enum Action {
    /// Count and send the picture; where `log` is set, log the progress.
    SendPicture { log: bool },
    /// Push the sound once there is room.
    PushSound,
    /// Read on.
    Continue,
    /// Let the rest of the sound be heard, tell the window that this was all, and end.
    Finish { drain: bool },
}

/// What the decoding loop remembers.
#[derive(Debug, Clone, Copy, PartialEq, Eq, Structural)]
pub struct DecodeThread {
    /// Pictures so far.
    pub frame_no: u64,
    /// There is a sound card, and the media has sound.
    pub audio: bool,
}

impl DecodeThread {
    /// A loop at the start of a media. A sound card is of use only where the media has sound: its
    /// clock would never move, and the pictures would wait for it.
    pub fn new(has_device: bool, has_sound: bool) -> (t: DecodeThread)
        ensures
            t == (DecodeThread { frame_no: 0, audio: has_device && has_sound }),
    {
        DecodeThread { frame_no: 0, audio: has_device && has_sound }
    }

    /// Decides what becomes of what came out of the media. An error ends the loop as the end of
    /// the media does, but nothing is left to be heard.
    pub fn on_decoded(&mut self, decoded: Decoded) -> (r: Action)
        ensures
            final(self).audio == old(self).audio,
            match decoded {
                Decoded::Video => {
                    &&& final(self).frame_no == (old(self).frame_no + 1)
                        % 0x1_0000_0000_0000_0000
                    &&& r == (Action::SendPicture {
                        log: final(self).frame_no % DECODE_LOG_EVERY == 0,
                    })
                },
                Decoded::Audio => *final(self) == *old(self) && r == (if old(self).audio {
                    Action::PushSound
                } else {
                    Action::Continue
                }),
                Decoded::End => *final(self) == *old(self) && r == (Action::Finish {
                    drain: old(self).audio,
                }),
                Decoded::Failed => *final(self) == *old(self) && r == (Action::Finish {
                    drain: false,
                }),
            },
    {
        match decoded {
            Decoded::Video => {
                self.frame_no = self.frame_no.wrapping_add(1);
                Action::SendPicture { log: self.frame_no % DECODE_LOG_EVERY == 0 }
            },
            Decoded::Audio => if self.audio {
                Action::PushSound
            } else {
                Action::Continue
            },
            Decoded::End => Action::Finish { drain: self.audio },
            Decoded::Failed => Action::Finish { drain: false },
        }
    }
}

/// Whether sound has to wait for room: more than the limit waits already.
pub fn must_wait(running: bool, queued: Duration) -> (r: bool)
    ensures
        r == (running && queued@ > AUDIO_BUFFER_MS * 1_000_000),
{
    running && queued > Duration::from_millis(AUDIO_BUFFER_MS)
}

/// Whether the end has to wait for the rest of the sound.
pub fn drain_audio(running: bool, queued_frames: usize) -> (r: bool)
    ensures
        r == (running && queued_frames > 0),
{
    running && queued_frames > 0
}

/// The clock that times the pictures: the sound card's, once it has begun to play, and a wall
/// clock before that and without sound.
#[derive(Debug, Clone, Copy)]
pub struct PlaybackClock {
    /// The last reading of the sound card's clock, where there is sound.
    pub audio: Option<AudioClock>,
    /// Microseconds between the place in the media and the reading of the sound card's clock.
    pub audio_offset: i64,
    /// The zero of the wall clock.
    pub origin: Option<Instant>,
    /// What the wall clock goes by.
    pub watch: Stopwatch,
}

impl PlaybackClock {
    /// The sound card's clock can be read.
    pub open spec fn wf(self) -> bool {
        self.audio matches Some(a) ==> a.sample_rate > 0
    }

    /// The sound card leads.
    pub open spec fn led_by_sound(self) -> bool {
        self.audio matches Some(a) && a.started
    }

    /// The place in the media by the sound card's clock, in nanoseconds: not before the start, and
    /// no further than a span of time reaches.
    pub open spec fn sound_nanos(self) -> nat {
        let place = self.audio->0.nanos() + self.audio_offset * 1000;
        if place < 0 {
            0
        } else if place > MAX_NANOS {
            MAX_NANOS as nat
        } else {
            place as nat
        }
    }

    /// Where the zero of the wall clock is for a picture of the time `target` at the time `now`.
    pub open spec fn origin_at(self, target: nat, now: int) -> int {
        match self.origin {
            Some(o) => o@,
            None => now - target,
        }
    }

    /// The decision for a picture of the time `target` at the time `now`, and the clock after it.
    pub open spec fn decides(
        self,
        target: Duration,
        now: Instant,
        r: Schedule,
        after: PlaybackClock,
    ) -> bool {
        if self.led_by_sound() {
            &&& after == self
            &&& exists|lag: Lag|
                #[trigger] lag_is(
                    lag,
                    target@,
                    self.sound_nanos(),
                    (DROP_THRESHOLD_MS * 1_000_000) as nat,
                ) && r == by_sound(lag)
        } else {
            let origin = self.origin_at(target@, now@);
            &&& exists|lag: Lag|
                #[trigger] lag_is(
                    lag,
                    target@,
                    span_between(origin, now@),
                    (RESYNC_THRESHOLD_MS * 1_000_000) as nat,
                ) && r == by_wall(lag)
            &&& after.origin matches Some(o)
            &&& o@ == (if r is Resynced {
                now@ - target@
            } else {
                origin
            })
            &&& after == (PlaybackClock { origin: after.origin, ..self })
        }
    }

    /// A clock without sound, whose zero the first picture sets.
    pub fn new() -> (c: PlaybackClock)
        ensures
            c.wf(),
            c.audio is None,
            c.audio_offset == 0,
            c.origin is None,
    {
        PlaybackClock { audio: None, audio_offset: 0, origin: None, watch: Stopwatch::start() }
    }

    /// A clock that the sound card leads.
    pub fn with_audio(audio: AudioClock) -> (c: PlaybackClock)
        ensures
            c.audio == Some(audio),
            c.audio_offset == 0,
            c.origin is None,
    {
        PlaybackClock {
            audio: Some(audio),
            audio_offset: 0,
            origin: None,
            watch: Stopwatch::start(),
        }
    }

    /// Sets the sound card's clock. The zero of the wall clock stays.
    pub fn set_audio(&mut self, audio: AudioClock)
        ensures
            *final(self) == (PlaybackClock { audio: Some(audio), ..*old(self) }),
    {
        self.audio = Some(audio);
    }

    /// Sets where in the media the sound card's clock starts, in microseconds.
    pub fn set_audio_offset(&mut self, offset_us: i64)
        ensures
            *final(self) == (PlaybackClock { audio_offset: offset_us, ..*old(self) }),
    {
        self.audio_offset = offset_us;
    }

    /// The place in the media by the sound card's clock.
    fn sound_place(&self, audio: AudioClock) -> (d: Duration)
        requires
            self.audio == Some(audio),
            audio.sample_rate > 0,
        ensures
            d@ == self.sound_nanos(),
    {
        let played: u128 = audio.position().as_nanos();
        let offset: u128 = size_of_i64(self.audio_offset) as u128 * 1000;
        if self.audio_offset < 0 {
            Duration::of_nanos(
                if played < offset {
                    0
                } else {
                    played - offset
                },
            )
        } else {
            let place: u128 = played + offset;
            Duration::of_nanos(
                if place > MAX_NANOS {
                    MAX_NANOS
                } else {
                    place
                },
            )
        }
    }

    /// Reads the watch that the wall clock goes by.
    pub fn now(&self) -> (t: Instant)
        ensures
            self.watch.reads(t),
            0 <= t@ <= u64::MAX,
    {
        self.watch.now()
    }

    /// Decides when the picture of the time `target` is shown, at the time `now`.
    pub fn schedule_at(&mut self, target: Duration, now: Instant) -> (r: Schedule)
        requires
            old(self).wf(),
            now@ - target@ >= MIN_INSTANT,
        ensures
            old(self).decides(target, now, r, *final(self)),
            final(self).wf(),
    {
        match self.audio {
            Some(audio) => if audio.started() {
                let lag = schedule_against(
                    target,
                    self.sound_place(audio),
                    Duration::from_millis(DROP_THRESHOLD_MS),
                );
                assert(lag_is(
                    lag,
                    target@,
                    self.sound_nanos(),
                    (DROP_THRESHOLD_MS * 1_000_000) as nat,
                ));
                return match lag {
                    Lag::Ahead(d) => Schedule::Wait(d),
                    Lag::Due => Schedule::Now,
                    Lag::Behind(behind) => Schedule::Drop { behind },
                };
            },
            None => {},
        }
        let origin = match self.origin {
            Some(o) => o,
            None => now.minus(target),
        };
        self.origin = Some(origin);
        let lag = schedule_against(
            target,
            now.since(origin),
            Duration::from_millis(RESYNC_THRESHOLD_MS),
        );
        assert(lag_is(
            lag,
            target@,
            span_between(old(self).origin_at(target@, now@), now@),
            (RESYNC_THRESHOLD_MS * 1_000_000) as nat,
        ));
        match lag {
            Lag::Ahead(d) => Schedule::Wait(d),
            Lag::Due => Schedule::Now,
            Lag::Behind(behind) => {
                self.origin = Some(now.minus(target));
                Schedule::Resynced { behind }
            },
        }
    }

    /// Decides when the picture of the time `target` is shown, at the time that the watch reads.
    pub fn schedule(&mut self, target: Duration) -> (r: Schedule)
        requires
            old(self).wf(),
        ensures
            exists|now: Instant|
                #[trigger] old(self).watch.reads(now) && 0 <= now@ <= u64::MAX && old(self).decides(
                    target,
                    now,
                    r,
                    *final(self),
                ),
            final(self).wf(),
    {
        let now = self.now();
        let nanos: u128 = target.as_nanos();
        assert(nanos <= MAX_NANOS);
        self.schedule_at(target, now)
    }
}

impl Default for PlaybackClock {
    fn default() -> (c: PlaybackClock)
        ensures
            c.wf(),
            c.audio is None,
            c.audio_offset == 0,
            c.origin is None,
    {
        PlaybackClock::new()
    }
}

/// The loop that takes pictures from the decoding side.
#[derive(Debug, Clone, Copy)]
pub struct RenderLoop {
    pub clock: PlaybackClock,
    /// The number of the sound card's clock that the pictures go by.
    pub audio_generation: u64,
}

/// The loop after it was brought up to date with the sound card. A clock of another number takes
/// the place of the one before it; one of the same number was only read again. The zero of the wall
/// clock stays: until the card plays, the pictures go by it.
pub open spec fn updated(
    s: RenderLoop,
    generation: u64,
    offset_us: i64,
    audio: Option<AudioClock>,
) -> RenderLoop {
    let known = generation != s.audio_generation || s.clock.audio is Some;
    RenderLoop {
        clock: PlaybackClock {
            audio: if audio is Some && known {
                audio
            } else {
                s.clock.audio
            },
            audio_offset: offset_us,
            ..s.clock
        },
        audio_generation: generation,
    }
}

impl RenderLoop {
    /// The sound card's clock can be read.
    pub open spec fn wf(self) -> bool {
        self.clock.wf()
    }

    /// A loop that has seen nothing yet.
    pub fn new() -> (s: RenderLoop)
        ensures
            s.wf(),
            s.clock.audio is None,
            s.clock.audio_offset == 0,
            s.clock.origin is None,
            s.audio_generation == 0,
    {
        RenderLoop { clock: PlaybackClock::new(), audio_generation: 0 }
    }

    /// Brings the clock up to date with the sound card: `generation` numbers its clock, `audio` is
    /// a reading of it, and `offset_us` tells where in the media it starts.
    pub fn update(&mut self, generation: u64, offset_us: i64, audio: Option<AudioClock>)
        requires
            old(self).wf(),
            audio matches Some(a) ==> a.sample_rate > 0,
        ensures
            final(self).wf(),
            *final(self) == updated(*old(self), generation, offset_us, audio),
            final(self).clock.origin == old(self).clock.origin,
    {
        match audio {
            Some(a) => {
                if generation != self.audio_generation || self.clock.audio.is_some() {
                    self.clock.set_audio(a);
                }
            },
            None => {},
        }
        self.audio_generation = generation;
        self.clock.set_audio_offset(offset_us);
    }

    /// Decides when a picture is shown, at the time `now`; nothing for the end of the media, which
    /// is taken in at once.
    pub fn on_item<F>(&mut self, item: &FrameMsg<F>, now: Instant) -> (r: Option<Schedule>)
        requires
            old(self).wf(),
            0 <= now@ <= u64::MAX,
        ensures
            final(self).wf(),
            match *item {
                Some((_, pts_us)) => {
                    &&& r matches Some(s)
                    &&& final(self).audio_generation == old(self).audio_generation
                    &&& exists|target: Duration|
                        {
                            &&& target@ == pts_us * 1000
                            &&& #[trigger] old(self).clock.decides(
                                target,
                                now,
                                s,
                                final(self).clock,
                            )
                        }
                },
                None => r is None && *final(self) == *old(self),
            },
    {
        match item {
            Some((_, pts_us)) => {
                let target = Duration::from_micros(*pts_us);
                let s = self.clock.schedule_at(target, now);
                assert(old(self).clock.decides(target, now, s, self.clock));
                Some(s)
            },
            None => None,
        }
    }
}

/// How far a picture that is shown lies from the sound, in microseconds; nothing for the end of the
/// media, and without sound.
pub fn drift_of<F>(item: &FrameMsg<F>, audio: Option<AudioClock>) -> (r: Option<i64>)
    requires
        audio matches Some(a) ==> a.sample_rate > 0,
    ensures
        r == (match (*item, audio) {
            (Some((_, pts_us)), Some(a)) => Some(drift(a, pts_us)),
            _ => None,
        }),
{
    match (item, audio) {
        (Some((_, pts_us)), Some(a)) => {
            let played: i64 = a.position().micros_i64();
            let pts: i64 = low_i64(*pts_us as u128);
            Some(played.wrapping_sub(pts))
        },
        _ => None,
    }
}

/// A clock that the window learns of, or reads again, does not disturb the pictures before the card
/// plays: each is decided on as without it, by the same wall clock.
pub proof fn law_waiting_card_disturbs_nothing(
    s: RenderLoop,
    generation: u64,
    offset_us: i64,
    audio: AudioClock,
    target: Duration,
    now: Instant,
    r: Schedule,
    after: PlaybackClock,
    again: Schedule,
    after_update: PlaybackClock,
)
    requires
        s.wf(),
        !s.clock.led_by_sound(),
        !audio.started,
        s.clock.decides(target, now, r, after),
        updated(s, generation, offset_us, Some(audio)).clock.decides(
            target,
            now,
            again,
            after_update,
        ),
    ensures
        after_update.origin->0@ == after.origin->0@,
        again is Wait == r is Wait,
        again is Now == r is Now,
        again is Resynced == r is Resynced,
{
}

/// A clock that is handed over goes on: a later reading takes the place of the one before it, and
/// reading it again does not make one where there was none.
pub proof fn law_clock_goes_on(s: AudioClockSource, first: AudioClock, later: AudioClock)
    ensures
        refreshed(attached(s, first), later).clock == Some(later),
        s.clock is None ==> refreshed(s, later) == s,
        refreshed(refreshed(s, first), later) == refreshed(s, later),
{
}

/// The first clock that is handed over is the one that stays.
pub proof fn law_first_clock_stays(s: AudioClockSource, first: AudioClock, second: AudioClock)
    ensures
        attached(attached(s, first), second) == attached(s, first),
        s.clock is None ==> attached(s, first).clock == Some(first),
{
}

/// A sound card that has not begun to play says nothing: the first picture is shown at once, and
/// not held back for a clock that stands still.
pub proof fn law_silent_card_is_ignored(
    clock: PlaybackClock,
    target: Duration,
    now: Instant,
    r: Schedule,
    after: PlaybackClock,
)
    requires
        clock.wf(),
        clock.audio matches Some(a) ==> !a.started,
        clock.origin is None,
        target@ <= MAX_NANOS,
        clock.decides(target, now, r, after),
    ensures
        r == Schedule::Now,
{
}

/// A picture of a media with sound is dropped exactly if it is more than the threshold behind the
/// sound; without sound none is.
pub proof fn law_only_sound_drops(
    clock: PlaybackClock,
    target: Duration,
    now: Instant,
    r: Schedule,
    after: PlaybackClock,
)
    requires
        clock.wf(),
        clock.decides(target, now, r, after),
    ensures
        r is Drop <==> clock.led_by_sound() && clock.sound_nanos() - target@ > DROP_THRESHOLD_MS
            * 1_000_000,
        r is Resynced ==> !clock.led_by_sound(),
{
}

/// Setting the wall clock anew settles the matter: the same picture at the same time is then due.
pub proof fn law_resync_settles(
    clock: PlaybackClock,
    target: Duration,
    now: Instant,
    behind: Duration,
    between: PlaybackClock,
    again: Schedule,
    after: PlaybackClock,
)
    requires
        clock.wf(),
        target@ <= MAX_NANOS,
        clock.decides(target, now, Schedule::Resynced { behind }, between),
        between.decides(target, now, again, after),
    ensures
        again == Schedule::Now,
        behind@ > RESYNC_THRESHOLD_MS * 1_000_000,
{
}

} // verus!
