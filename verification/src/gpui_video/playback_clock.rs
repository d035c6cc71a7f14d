//! When a picture is shown.
//!
//! With sound, the sound card's clock leads: a picture that comes too late is dropped, for the
//! sound is gone. Without sound a wall clock leads, whose zero is moved when the pictures fall too
//! far behind. Both are one type because it only turns out while playing which one it is.

use crate::player_core::audio_output::AudioClock;
use crate::time::{
    low_i64, span_between, wrap_i64, Duration, Instant, Stopwatch, MAX_NANOS, MIN_INSTANT,
};
use vstd::prelude::*;

verus! {

/// Milliseconds behind the sound after which a picture is dropped.
pub const DROP_THRESHOLD_MS: u64 = 100;

/// Milliseconds behind the wall clock after which the clock is set anew.
pub const RESYNC_THRESHOLD_MS: u64 = 200;

/// What becomes of a picture.
#[derive(Debug, Clone, Copy, PartialEq, Eq, Structural)]
pub enum Schedule {
    /// It is shown after this long.
    Wait(Duration),
    /// It is shown now.
    Now,
    /// It is not shown: it is this far behind the sound.
    Drop { behind: Duration },
    /// It is shown now; it was this far behind, and the wall clock was set anew.
    Resynced { behind: Duration },
}

/// Where a picture stands on a clock.
#[derive(Debug, Clone, Copy, PartialEq, Eq, Structural)]
pub enum Lag {
    /// Its time comes after this long.
    Ahead(Duration),
    /// Its time is now, or a little ago.
    Due,
    /// Its time was this long ago, which is too long.
    Behind(Duration),
}

/// Where a picture of the time `target` stands on a clock that reads `now`, in nanoseconds.
pub open spec fn lag_is(lag: Lag, target: nat, now: nat, threshold: nat) -> bool {
    if target > now {
        lag matches Lag::Ahead(d) && d@ == target - now
    } else if now - target > threshold {
        lag matches Lag::Behind(d) && d@ == now - target
    } else {
        lag == Lag::Due
    }
}

/// Where a picture of the time `target` stands on a clock that reads `now`.
pub fn schedule_against(target: Duration, now: Duration, threshold: Duration) -> (r: Lag)
    ensures
        lag_is(r, target@, now@, threshold@),
{
    if target > now {
        Lag::Ahead(target.minus(now))
    } else {
        let behind = now.minus(target);
        if behind > threshold {
            Lag::Behind(behind)
        } else {
            Lag::Due
        }
    }
}

/// The decision for a picture by the sound card's clock.
pub open spec fn by_sound(lag: Lag) -> Schedule {
    match lag {
        Lag::Ahead(d) => Schedule::Wait(d),
        Lag::Due => Schedule::Now,
        Lag::Behind(behind) => Schedule::Drop { behind },
    }
}

/// The decision for a picture by the wall clock.
pub open spec fn by_wall(lag: Lag) -> Schedule {
    match lag {
        Lag::Ahead(d) => Schedule::Wait(d),
        Lag::Due => Schedule::Now,
        Lag::Behind(behind) => Schedule::Resynced { behind },
    }
}

/// The clock that times the pictures.
#[derive(Debug, Clone, Copy)]
pub struct PlaybackClock {
    /// The last reading of the sound card's clock, where there is sound.
    pub audio: Option<AudioClock>,
    /// Microseconds between the place in the media and the reading of the sound card's clock.
    pub audio_offset: i64,
    /// Microseconds that the media lasts; zero where that is not known.
    pub duration_us: u64,
    /// The zero of the wall clock.
    pub origin: Option<Instant>,
    /// What the wall clock goes by.
    pub watch: Stopwatch,
}

impl PlaybackClock {
    /// The sound card's clock can be read.
    pub open spec fn wf(self) -> bool {
        self.audio matches Some(a) ==> a.sample_rate > 0
    }

    /// The sound card leads.
    pub open spec fn led_by_sound(self) -> bool {
        self.audio matches Some(a) && a.started
    }

    /// The place in the media by the sound card's clock, in microseconds.
    pub open spec fn sound_us(self) -> int {
        wrap_i64(self.audio->0.nanos() / 1000) + self.audio_offset
    }

    /// The sound is over: its clock reads more than the media lasts.
    pub open spec fn sound_is_over(self) -> bool {
        self.duration_us > 0 && self.sound_us() > wrap_i64(self.duration_us as int)
    }

    /// The place in the media by the sound card's clock, in nanoseconds.
    pub open spec fn sound_nanos(self) -> nat {
        if self.sound_us() < 0 {
            0
        } else {
            (self.sound_us() * 1000) as nat
        }
    }

    /// Where the zero of the wall clock is for a picture of the time `target` at the time `now`: it
    /// is set by the first picture.
    pub open spec fn origin_at(self, target: nat, now: int) -> int {
        match self.origin {
            Some(o) => o@,
            None => now - target,
        }
    }

    /// The decision for a picture of the time `target` at the time `now`, and the clock after it.
    pub open spec fn decides(
        self,
        target: Duration,
        now: Instant,
        r: Schedule,
        after: PlaybackClock,
    ) -> bool {
        if self.led_by_sound() {
            &&& after == self
            &&& if self.sound_is_over() {
                r == Schedule::Now
            } else {
                exists|lag: Lag|
                    #[trigger] lag_is(
                        lag,
                        target@,
                        self.sound_nanos(),
                        (DROP_THRESHOLD_MS * 1_000_000) as nat,
                    ) && r == by_sound(lag)
            }
        } else {
            let origin = self.origin_at(target@, now@);
            &&& exists|lag: Lag|
                #[trigger] lag_is(
                    lag,
                    target@,
                    span_between(origin, now@),
                    (RESYNC_THRESHOLD_MS * 1_000_000) as nat,
                ) && r == by_wall(lag)
            &&& after.origin matches Some(o)
            &&& o@ == (if r is Resynced {
                now@ - target@
            } else {
                origin
            })
            &&& after == (PlaybackClock { origin: after.origin, ..self })
        }
    }

    /// A clock without sound, whose zero the first picture sets.
    pub fn new() -> (c: PlaybackClock)
        ensures
            c.wf(),
            c.audio is None,
            c.audio_offset == 0,
            c.duration_us == 0,
            c.origin is None,
    {
        PlaybackClock {
            audio: None,
            audio_offset: 0,
            duration_us: 0,
            origin: None,
            watch: Stopwatch::start(),
        }
    }

    /// Sets how long the media lasts, in microseconds.
    pub fn set_duration(&mut self, duration_us: u64)
        ensures
            *final(self) == (PlaybackClock { duration_us, ..*old(self) }),
    {
        self.duration_us = duration_us;
    }

    /// Sets the sound card's clock. The zero of the wall clock stays.
    pub fn set_audio(&mut self, audio: AudioClock)
        ensures
            *final(self) == (PlaybackClock { audio: Some(audio), ..*old(self) }),
    {
        self.audio = Some(audio);
    }

    /// Forgets the zero of the wall clock: the next picture sets it.
    pub fn reset_origin(&mut self)
        ensures
            *final(self) == (PlaybackClock { origin: None, ..*old(self) }),
    {
        self.origin = None;
    }

    /// Sets the microseconds between the place in the media and the sound card's clock.
    pub fn set_audio_offset(&mut self, offset_us: i64)
        ensures
            *final(self) == (PlaybackClock { audio_offset: offset_us, ..*old(self) }),
    {
        self.audio_offset = offset_us;
    }

    /// Reads the watch that the wall clock goes by.
    pub fn now(&self) -> (t: Instant)
        ensures
            self.watch.reads(t),
            0 <= t@ <= u64::MAX,
    {
        self.watch.now()
    }

    /// Decides when the picture of the time `target` is shown, at the time `now`.
    pub fn schedule_at(&mut self, target: Duration, now: Instant) -> (r: Schedule)
        requires
            old(self).wf(),
            now@ - target@ >= MIN_INSTANT,
        ensures
            old(self).decides(target, now, r, *final(self)),
            final(self).wf(),
    {
        match self.audio {
            Some(audio) => if audio.started() {
                let played: i64 = audio.position().micros_i64();
                let now_us: i128 = played as i128 + self.audio_offset as i128;
                if self.duration_us > 0 {
                    let end: i64 = low_i64(self.duration_us as u128);
                    if now_us > end as i128 {
                        return Schedule::Now;
                    }
                }
                let reading = if now_us < 0 {
                    Duration::zero()
                } else {
                    Duration::from_micros(now_us as u64)
                };
                let lag = schedule_against(
                    target,
                    reading,
                    Duration::from_millis(DROP_THRESHOLD_MS),
                );
                assert(lag_is(lag, target@, self.sound_nanos(), (DROP_THRESHOLD_MS * 1_000_000) as nat));
                return match lag {
                    Lag::Ahead(d) => Schedule::Wait(d),
                    Lag::Due => Schedule::Now,
                    Lag::Behind(behind) => Schedule::Drop { behind },
                };
            },
            None => {},
        }
        let origin = match self.origin {
            Some(o) => o,
            None => now.minus(target),
        };
        self.origin = Some(origin);
        let lag = schedule_against(
            target,
            now.since(origin),
            Duration::from_millis(RESYNC_THRESHOLD_MS),
        );
        assert(lag_is(
            lag,
            target@,
            span_between(old(self).origin_at(target@, now@), now@),
            (RESYNC_THRESHOLD_MS * 1_000_000) as nat,
        ));
        match lag {
            Lag::Ahead(d) => Schedule::Wait(d),
            Lag::Due => Schedule::Now,
            Lag::Behind(behind) => {
                self.origin = Some(now.minus(target));
                Schedule::Resynced { behind }
            },
        }
    }

    /// Decides when the picture of the time `target` is shown, at the time that the watch reads.
    pub fn schedule(&mut self, target: Duration) -> (r: Schedule)
        requires
            old(self).wf(),
        ensures
            exists|now: Instant|
                #[trigger] old(self).watch.reads(now) && 0 <= now@ <= u64::MAX && old(self).decides(
                    target,
                    now,
                    r,
                    *final(self),
                ),
            final(self).wf(),
    {
        let now = self.now();
        let nanos: u128 = target.as_nanos();
        assert(nanos <= MAX_NANOS);
        self.schedule_at(target, now)
    }
}

impl Default for PlaybackClock {
    fn default() -> (c: PlaybackClock)
        ensures
            c.wf(),
            c.audio is None,
            c.audio_offset == 0,
            c.duration_us == 0,
            c.origin is None,
    {
        PlaybackClock::new()
    }
}

/// While the sound leads, a picture is dropped exactly if it is more than the threshold behind it,
/// waits exactly if its time is still to come, for exactly that long, and is shown otherwise. The
/// clock is never set anew: the sound is gone and cannot be called back.
pub proof fn law_sound_leads(
    clock: PlaybackClock,
    target: Duration,
    now: Instant,
    r: Schedule,
    after: PlaybackClock,
)
    requires
        clock.wf(),
        clock.led_by_sound(),
        clock.decides(target, now, r, after),
    ensures
        clock.sound_is_over() ==> r == Schedule::Now,
        !clock.sound_is_over() ==> {
            &&& r is Drop <==> clock.sound_nanos() - target@ > DROP_THRESHOLD_MS * 1_000_000
            &&& r is Wait <==> target@ > clock.sound_nanos()
        },
        r matches Schedule::Drop { behind } ==> behind@ == clock.sound_nanos() - target@,
        r matches Schedule::Wait(d) ==> d@ == target@ - clock.sound_nanos(),
        r !is Resynced,
        after == clock,
{
}

/// Without sound no picture is dropped: one that is too late is shown, and the clock is set anew.
pub proof fn law_wall_drops_nothing(
    clock: PlaybackClock,
    target: Duration,
    now: Instant,
    r: Schedule,
    after: PlaybackClock,
)
    requires
        clock.wf(),
        !clock.led_by_sound(),
        clock.decides(target, now, r, after),
    ensures
        r !is Drop,
        r is Resynced <==> span_between(clock.origin_at(target@, now@), now@) - target@
            > RESYNC_THRESHOLD_MS * 1_000_000,
        r is Wait <==> target@ > span_between(clock.origin_at(target@, now@), now@),
{
}

/// The first picture without sound is shown at once, whatever its time.
pub proof fn law_first_picture_is_shown(
    clock: PlaybackClock,
    target: Duration,
    now: Instant,
    r: Schedule,
    after: PlaybackClock,
)
    requires
        clock.wf(),
        !clock.led_by_sound(),
        clock.origin is None,
        target@ <= MAX_NANOS,
        clock.decides(target, now, r, after),
    ensures
        r == Schedule::Now,
{
}

/// Setting the wall clock anew settles the matter: the same picture at the same time is then due.
pub proof fn law_resync_settles(
    clock: PlaybackClock,
    target: Duration,
    now: Instant,
    behind: Duration,
    between: PlaybackClock,
    again: Schedule,
    after: PlaybackClock,
)
    requires
        clock.wf(),
        !clock.led_by_sound(),
        target@ <= MAX_NANOS,
        clock.decides(target, now, Schedule::Resynced { behind }, between),
        between.decides(target, now, again, after),
    ensures
        again == Schedule::Now,
{
}

/// A picture that has to wait for the wall clock is due when the wait is over.
pub proof fn law_wait_is_exact(
    clock: PlaybackClock,
    target: Duration,
    now: Instant,
    d: Duration,
    between: PlaybackClock,
    later: Instant,
    r: Schedule,
    after: PlaybackClock,
)
    requires
        clock.wf(),
        !clock.led_by_sound(),
        target@ <= MAX_NANOS,
        clock.origin matches Some(o) && o@ <= now@,
        clock.decides(target, now, Schedule::Wait(d), between),
        later@ == now@ + d@,
        between.decides(target, later, r, after),
    ensures
        r == Schedule::Now,
{
}

} // verus!
