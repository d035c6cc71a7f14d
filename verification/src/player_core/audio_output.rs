//! The sample queue in front of the sound card, and the clock that its consumption drives.
//!
//! The sound card asks for samples at a fixed rate, which makes the number of samples that it has
//! consumed the steadiest clock there is: [`AudioClock`] reads the playing position from it, and
//! the pictures follow. [`AudioOutput`] holds what is to be played and keeps the count; opening
//! the device, and multiplying each sample with the volume, is left to its owner.

use crate::time::{counted, nearest, ticks_to_nanos, Duration};
use std::collections::VecDeque;
use vstd::arithmetic::div_mod::lemma_fundamental_div_mod_converse;
use vstd::prelude::*;

verus! {

/// The format that the device wants its samples in.
#[derive(Debug, Clone, Copy, PartialEq, Eq, Structural)]
pub struct AudioFormat {
    /// Samples per second and channel.
    pub sample_rate: u32,
    pub channels: u16,
}

/// Full volume. A volume is kept as the bits of the single-precision number that the samples are
/// multiplied with; this one is 1.
pub const FULL_VOLUME: u32 = 0x3f80_0000;

/// No volume: the bits of 0.
pub const NO_VOLUME: u32 = 0;

/// The bits of infinity; those above it up to the sign are no number.
pub const INFINITE_VOLUME: u32 = 0x7f80_0000;

/// The bit that tells that a number is negative.
pub const MINUS_BIT: u32 = 0x8000_0000;

/// A volume between none and full volume. Positive numbers are ordered as their bits are; what is
/// no number, and the zero with a minus, stay as they are.
pub open spec fn limited(volume: u32) -> u32 {
    if FULL_VOLUME < volume <= INFINITE_VOLUME {
        FULL_VOLUME
    } else if MINUS_BIT < volume <= MINUS_BIT + INFINITE_VOLUME {
        NO_VOLUME
    } else {
        volume
    }
}

/// How much the clock advances over one callback of the device, whether playing has begun, and
/// whether the device was starved.
///
/// The device asked for `requested` samples and the queue had `filled`. Before the first sample
/// nothing counts: the position is what was played, not how long the device has been open. After
/// it everything counts that was asked for: the silence that fills a gap takes its time too.
pub fn account(requested: usize, filled: usize, started: bool) -> (r: (usize, bool, bool))
    ensures
        r.1 == (started || filled > 0),
        r.0 == (if started || filled > 0 {
            requested
        } else {
            0
        }),
        r.2 == ((started || filled > 0) && filled < requested),
{
    let started = started || filled > 0;
    let advance: usize = if started {
        requested
    } else {
        0
    };
    let underrun = started && filled < requested;
    (advance, started, underrun)
}

/// The samples that wait for the sound card, and what it has consumed.
pub struct AudioOutput<S> {
    format: AudioFormat,
    queue: VecDeque<S>,
    frames_played: u64,
    underrun: bool,
    started: bool,
    paused: bool,
    volume: u32,
    pushed_frames: u64,
    grace: bool,
}

/// The state of an output as its contracts speak of it.
#[verifier::ext_equal]
pub struct OutputState<S> {
    pub format: AudioFormat,
    /// Samples that wait, the next one first.
    pub queue: Seq<S>,
    /// Samples per channel that the device has consumed, the silence of gaps included.
    pub frames_played: u64,
    /// The device was starved since the flag was last read.
    pub underrun: bool,
    /// A sample has been played.
    pub started: bool,
    pub paused: bool,
    pub volume: u32,
    /// Samples per channel that were ever pushed.
    pub pushed_frames: u64,
    /// The next gap is expected and does not count as starving.
    pub grace: bool,
}

/// The channels that samples are shared out to: at least one.
pub open spec fn channels_of(format: AudioFormat) -> int {
    if format.channels == 0 {
        1
    } else {
        format.channels as int
    }
}

/// The queue after a callback took what it could.
pub open spec fn drained<S>(queue: Seq<S>, requested: int) -> Seq<S> {
    if requested >= queue.len() {
        Seq::empty()
    } else {
        queue.skip(requested)
    }
}

/// What the device gets to play: the head of the queue, and silence behind it.
pub open spec fn played<S>(queue: Seq<S>, requested: nat, silence: S) -> Seq<S> {
    Seq::new(
        requested,
        |i: int|
            if i < queue.len() {
                queue[i]
            } else {
                silence
            },
    )
}

/// Samples that the queue has for a callback that asks for `requested`.
pub open spec fn filled_of(len: int, requested: int) -> int {
    if len < requested {
        len
    } else {
        requested
    }
}

/// The output after a callback of the device that asked for `requested` samples.
pub open spec fn after_callback<S>(s: OutputState<S>, requested: int) -> OutputState<S> {
    let filled = filled_of(s.queue.len() as int, requested);
    let started = s.started || filled > 0;
    let starved = started && filled < requested;
    OutputState {
        queue: drained(s.queue, requested),
        started,
        grace: s.grace && !starved,
        underrun: s.underrun || (starved && !s.grace),
        frames_played: counted(
            s.frames_played,
            if started {
                requested / s.format.channels as int
            } else {
                0
            },
        ),
        ..s
    }
}

impl<S> View for AudioOutput<S> {
    type V = OutputState<S>;

    closed spec fn view(&self) -> OutputState<S> {
        OutputState {
            format: self.format,
            queue: self.queue@,
            frames_played: self.frames_played,
            underrun: self.underrun,
            started: self.started,
            paused: self.paused,
            volume: self.volume,
            pushed_frames: self.pushed_frames,
            grace: self.grace,
        }
    }
}

impl<S: Copy> AudioOutput<S> {
    /// An output for a device of the given format, with nothing to play.
    pub fn new(format: AudioFormat) -> (o: AudioOutput<S>)
        ensures
            o@ == (OutputState {
                format,
                queue: Seq::<S>::empty(),
                frames_played: 0,
                underrun: false,
                started: false,
                paused: false,
                volume: FULL_VOLUME,
                pushed_frames: 0,
                grace: false,
            }),
    {
        AudioOutput {
            format,
            queue: VecDeque::new(),
            frames_played: 0,
            underrun: false,
            started: false,
            paused: false,
            volume: FULL_VOLUME,
            pushed_frames: 0,
            grace: false,
        }
    }

    /// An output for a device that is opened without being started. It counts as running, for it is
    /// not stopped: it waits for [`AudioOutput::start`].
    pub fn new_paused(format: AudioFormat) -> (o: AudioOutput<S>)
        ensures
            o@ == (OutputState {
                format,
                queue: Seq::<S>::empty(),
                frames_played: 0,
                underrun: false,
                started: false,
                paused: false,
                volume: FULL_VOLUME,
                pushed_frames: 0,
                grace: false,
            }),
    {
        AudioOutput::new(format)
    }

    /// The callback of the device: fills `out` with the next samples, and with `silence` where the
    /// queue runs dry, and moves the clock on. The first gap after the queue was cleared is
    /// expected; any other one is noted.
    pub fn fill(&mut self, out: &mut Vec<S>, silence: S)
        requires
            old(self)@.format.channels > 0,
        ensures
            final(out)@ == played(old(self)@.queue, old(out)@.len(), silence),
            final(self)@ == after_callback(old(self)@, old(out)@.len() as int),
    {
        let ghost before = self@;
        let requested: usize = out.len();
        let mut filled: usize = 0;
        while filled < requested && self.queue.len() > 0
            invariant
                out@.len() == requested,
                filled <= requested,
                filled <= before.queue.len(),
                before == old(self)@,
                self@ == (OutputState { queue: before.queue.skip(filled as int), ..before }),
                forall|i: int| 0 <= i < filled ==> #[trigger] out@[i] == before.queue[i],
            decreases requested - filled,
        {
            match self.queue.pop_front() {
                Some(v) => {
                    out.set(filled, v);
                    filled = filled + 1;
                    assert(self@.queue =~= before.queue.skip(filled as int));
                },
                None => {},
            }
        }
        let mut i: usize = filled;
        while i < requested
            invariant
                out@.len() == requested,
                filled <= i <= requested,
                filled <= before.queue.len(),
                filled < requested ==> filled == before.queue.len(),
                forall|j: int| 0 <= j < filled ==> #[trigger] out@[j] == before.queue[j],
                forall|j: int| filled <= j < i ==> #[trigger] out@[j] == silence,
            decreases requested - i,
        {
            out.set(i, silence);
            i = i + 1;
        }
        assert(out@ =~= played(before.queue, requested as nat, silence));
        let (advance, now_started, starved) = account(requested, filled, self.started);
        self.started = now_started;
        if starved {
            if !self.grace {
                self.underrun = true;
            }
            self.grace = false;
        }
        let frames: usize = advance / self.format.channels as usize;
        self.frames_played = self.frames_played.wrapping_add(frames as u64);
        proof {
            assert(before.queue.skip(filled as int) =~= drained(before.queue, requested as int));
            assert(0int / (before.format.channels as int) == 0) by (nonlinear_arith)
                requires
                    before.format.channels > 0,
            ;
            assert(self@ =~= after_callback(before, requested as int));
        }
    }

    /// The format of the device.
    pub fn format(&self) -> (f: AudioFormat)
        ensures
            f == self@.format,
    {
        self.format
    }

    /// Appends samples to the queue, the channels interleaved.
    pub fn push_samples(&mut self, samples: &Vec<S>)
        ensures
            final(self)@ == (OutputState {
                queue: old(self)@.queue + samples@,
                pushed_frames: counted(
                    old(self)@.pushed_frames,
                    samples@.len() as int / channels_of(old(self)@.format),
                ),
                ..old(self)@
            }),
    {
        let ghost before = self@;
        let mut i: usize = 0;
        while i < samples.len()
            invariant
                i <= samples@.len(),
                self@ == (OutputState { queue: before.queue + samples@.take(i as int), ..before }),
            decreases samples@.len() - i,
        {
            self.queue.push_back(samples[i]);
            i = i + 1;
            assert(self@.queue =~= before.queue + samples@.take(i as int));
        }
        let channels: usize = if self.format.channels == 0 {
            1
        } else {
            self.format.channels as usize
        };
        let frames: usize = samples.len() / channels;
        self.pushed_frames = self.pushed_frames.wrapping_add(frames as u64);
        assert(samples@.take(i as int) =~= samples@);
    }

    /// How long everything plays that was ever pushed.
    pub fn pushed_position(&self) -> (d: Duration)
        requires
            self@.format.sample_rate > 0,
        ensures
            d@ == ticks_to_nanos(
                self@.pushed_frames as int,
                self@.format.sample_rate as int,
            ),
    {
        Duration::from_ticks(self.pushed_frames, self.format.sample_rate)
    }

    /// Throws away what waits in the queue. The gap until new samples come is expected.
    pub fn clear(&mut self)
        ensures
            final(self)@ == (OutputState { queue: Seq::empty(), grace: true, ..old(self)@ }),
    {
        self.grace = true;
        self.queue.clear();
    }

    /// Notes a jump on the time line: the next gap is expected. The queue stays.
    pub fn mark_discontinuity(&mut self)
        ensures
            final(self)@ == (OutputState { grace: true, ..old(self)@ }),
    {
        self.grace = true;
    }

    /// Samples per channel that wait.
    pub fn queued_frames(&self) -> (n: usize)
        ensures
            n == self@.queue.len() as int / channels_of(self@.format),
    {
        let channels: usize = if self.format.channels == 0 {
            1
        } else {
            self.format.channels as usize
        };
        self.queue.len() / channels
    }

    /// How long the queue plays.
    pub fn queued_duration(&self) -> (d: Duration)
        requires
            self@.format.sample_rate > 0,
        ensures
            d@ == ticks_to_nanos(
                self@.queue.len() as int / channels_of(self@.format),
                self@.format.sample_rate as int,
            ),
    {
        Duration::from_ticks(self.queued_frames() as u64, self.format.sample_rate)
    }

    /// A reading of the clock.
    pub fn clock(&self) -> (c: AudioClock)
        ensures
            c == (AudioClock {
                frames_played: self@.frames_played,
                started: self@.started,
                sample_rate: self@.format.sample_rate,
            }),
    {
        AudioClock {
            frames_played: self.frames_played,
            started: self.started,
            sample_rate: self.format.sample_rate,
        }
    }

    /// How much the device has played since the first sample.
    pub fn position(&self) -> (d: Duration)
        requires
            self@.format.sample_rate > 0,
        ensures
            d@ == ticks_to_nanos(
                self@.frames_played as int,
                self@.format.sample_rate as int,
            ),
    {
        Duration::from_ticks(self.frames_played, self.format.sample_rate)
    }

    /// Whether a sample has been played.
    pub fn started(&self) -> (r: bool)
        ensures
            r == self@.started,
    {
        self.started
    }

    /// Reads and clears the note that the device was starved.
    pub fn take_underrun(&mut self) -> (r: bool)
        ensures
            r == old(self)@.underrun,
            final(self)@ == (OutputState { underrun: false, ..old(self)@ }),
    {
        let seen = self.underrun;
        self.underrun = false;
        seen
    }

    /// Notes that the device is stopped. What waits is kept.
    pub fn pause(&mut self)
        ensures
            final(self)@ == (OutputState { paused: true, ..old(self)@ }),
    {
        self.paused = true;
    }

    /// Notes that the device runs again.
    pub fn resume(&mut self)
        ensures
            final(self)@ == (OutputState { paused: false, ..old(self)@ }),
    {
        self.paused = false;
    }

    /// Notes that a device that was opened without being started runs now.
    pub fn start(&mut self)
        ensures
            final(self)@ == (OutputState { paused: false, ..old(self)@ }),
    {
        self.paused = false;
    }

    /// Whether the device is stopped.
    pub fn is_paused(&self) -> (r: bool)
        ensures
            r == self@.paused,
    {
        self.paused
    }

    /// Sets the volume, given as the bits of a single-precision number, to no less than none and no
    /// more than full volume.
    pub fn set_volume(&mut self, volume: u32)
        ensures
            final(self)@ == (OutputState { volume: limited(volume), ..old(self)@ }),
    {
        self.volume = if FULL_VOLUME < volume && volume <= INFINITE_VOLUME {
            FULL_VOLUME
        } else if MINUS_BIT < volume && volume <= MINUS_BIT + INFINITE_VOLUME {
            NO_VOLUME
        } else {
            volume
        };
    }

    /// The volume.
    pub fn volume(&self) -> (v: u32)
        ensures
            v == self@.volume,
    {
        self.volume
    }
}

/// A reading of the sound card's clock. Whoever keeps one takes a new one before going by it: the
/// device plays on.
#[derive(Debug, Clone, Copy, PartialEq, Eq, Structural)]
pub struct AudioClock {
    pub frames_played: u64,
    pub started: bool,
    pub sample_rate: u32,
}

impl AudioClock {
    /// How much the device had played, in nanoseconds.
    pub open spec fn nanos(self) -> int {
        ticks_to_nanos(self.frames_played as int, self.sample_rate as int)
    }

    /// How much the device had played.
    pub fn position(&self) -> (d: Duration)
        requires
            self.sample_rate > 0,
        ensures
            d@ == self.nanos(),
    {
        Duration::from_ticks(self.frames_played, self.sample_rate)
    }

    /// Whether the device had played a sample. Before that the position says nothing.
    pub fn started(&self) -> (r: bool)
        ensures
            r == self.started,
    {
        self.started
    }

    /// A reading made up: a clock of 48 000 samples a second at the sample closest to `position`.
    pub fn for_test(position: Duration, started: bool) -> (c: AudioClock)
        ensures
            c.started == started,
            c.sample_rate == 48_000,
            c.frames_played == {
                let frames = nearest(position@ as int * 48_000, 1_000_000_000);
                if frames > u64::MAX {
                    u64::MAX as int
                } else {
                    frames
                }
            },
    {
        let nanos: u128 = position.as_nanos();
        let frames: u128 = (2 * (nanos * 48_000) + 1_000_000_000) / 2_000_000_000;
        let frames_played: u64 = if frames > u64::MAX as u128 {
            u64::MAX
        } else {
            frames as u64
        };
        AudioClock { frames_played, started, sample_rate: 48_000 }
    }
}

/// The queue is first in, first out: what is pushed comes out behind everything that waited, in
/// the order in which it was pushed, and the callbacks take from the front.
pub proof fn law_samples_in_order<S>(queue: Seq<S>, pushed: Seq<S>, requested: nat, silence: S)
    ensures
        requested <= queue.len() + pushed.len() ==> played(queue + pushed, requested, silence)
            + drained(queue + pushed, requested as int) == queue + pushed,
        requested >= queue.len() + pushed.len() ==> played(queue + pushed, requested, silence).take(
            (queue.len() + pushed.len()) as int,
        ) == queue + pushed,
{
    let all = queue + pushed;
    if requested <= all.len() {
        assert(played(all, requested, silence) + drained(all, requested as int) =~= all);
    }
    if requested >= all.len() {
        assert(played(all, requested, silence).take(all.len() as int) =~= all);
    }
}

/// Before the first sample the clock stands still: any number of callbacks that find nothing
/// leave the position at zero.
pub proof fn law_clock_waits_for_first_sample<S>(s: OutputState<S>, requested: int)
    requires
        s.format.channels > 0,
        !s.started,
        s.queue.len() == 0,
        requested >= 0,
    ensures
        after_callback(s, requested).frames_played == s.frames_played,
        !after_callback(s, requested).started,
        after_callback(s, requested).underrun == s.underrun,
{
}

/// Once playing has begun, a callback moves the clock by what the device asked for, whether or not
/// the queue had it, and the clock never forgets that playing has begun.
pub proof fn law_clock_counts_time<S>(s: OutputState<S>, requested: int)
    requires
        s.format.channels > 0,
        s.started || (s.queue.len() > 0 && requested > 0),
        0 <= requested,
        s.frames_played + requested / s.format.channels as int <= u64::MAX,
    ensures
        after_callback(s, requested).started,
        after_callback(s, requested).frames_played == s.frames_played + requested
            / s.format.channels as int,
        after_callback(s, requested).frames_played >= s.frames_played,
{
    let c = s.format.channels as int;
    assert(0 <= requested / c) by (nonlinear_arith)
        requires
            requested >= 0,
            c > 0,
    ;
}

/// Clearing the queue excuses one gap: the first starved callback after it is not reported, the
/// second one is.
pub proof fn law_one_gap_is_excused<S>(s: OutputState<S>, first: int, second: int)
    requires
        s.format.channels > 0,
        s.started,
        first > 0,
        second > 0,
    ensures
        ({
            let cleared = OutputState { queue: Seq::<S>::empty(), grace: true, ..s };
            let once = after_callback(cleared, first);
            let twice = after_callback(once, second);
            &&& once.underrun == s.underrun
            &&& twice.underrun
        }),
{
}

/// A made-up clock reads back the position that it was made for, to the millisecond.
pub proof fn law_made_up_clock_reads_back(ms: int)
    requires
        0 <= ms,
    ensures
        ticks_to_nanos(nearest(ms * 1_000_000 * 48_000, 1_000_000_000), 48_000) == ms * 1_000_000,
{
    lemma_fundamental_div_mod_converse(
        2 * (ms * 1_000_000 * 48_000) + 1_000_000_000,
        2_000_000_000,
        48 * ms,
        1_000_000_000,
    );
    lemma_fundamental_div_mod_converse(
        2 * (48 * ms * 1_000_000_000) + 48_000,
        96_000,
        ms * 1_000_000,
        48_000,
    );
}

} // verus!
