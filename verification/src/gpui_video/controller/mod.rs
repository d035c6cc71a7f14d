//! What the user can do with a player, and what comes of it.
//!
//! [`PlayerController`] is the state that the controls show and change. What it wants of the
//! decoding side it puts into a list of commands, which its owner hands over.

pub mod commands;
pub mod laws;

use crate::gpui_video::i18n::{I18n, Lang, StrKey};
use crate::player_core::audio_decoder::NORMAL_SPEED;
use crate::player_core::audio_output::AudioClock;
use crate::player_core::frame::Rational;
use crate::text::{decimal, push_decimal};
use crate::time::{nearest, Duration, Instant, Stopwatch, NANOS_PER_SEC};
use vstd::prelude::*;
use vstd::string::StringExecFns;

verus! {

/// A picture on its way to the window: the picture, its time and the length of the media in
/// microseconds, whether it is a preview, and the number of the seek that it was decoded after.
/// Nothing stands for the end of the media.
pub type FrameMsg<F> = Option<(F, u64, u64, bool, u64)>;

/// What the decoding side is asked to do.
#[derive(Debug, Clone, Copy, PartialEq, Eq, Structural)]
pub enum PlayerCommand {
    Pause,
    Resume,
    /// A drag begins: the sound stops and what waits to be heard is thrown away.
    MuteAudio,
    /// During a drag: show the picture at this time. With the number of the seek.
    SeekPreview(Duration, u64),
    /// Go to this time, pictures and sound. With the number of the seek.
    SeekCommit(Duration, u64),
    /// Mute the sound until it is unmuted.
    SetMuted(bool),
    /// Play at this speed.
    SetSpeed(u64),
}

/// The clock of the sound card on its way from the decoding side, which owns the card, to the
/// window, which needs to know how far it has come.
#[derive(Debug, Clone, Copy, PartialEq, Eq, Structural)]
pub struct AudioClockSource {
    /// The last reading of the clock.
    pub clock: Option<AudioClock>,
    /// How many clocks there have been.
    pub generation: u64,
    /// Microseconds between the place in the media and the reading of the clock.
    pub seek_offset_us: i64,
}

/// What the window is told once the clock of a sound card that was just opened is handed over.
pub open spec fn attached(s: AudioClockSource, clock: AudioClock) -> AudioClockSource {
    AudioClockSource {
        clock: Some(clock),
        generation: ((s.generation + 1) % 0x1_0000_0000_0000_0000) as u64,
        ..s
    }
}

/// What the window is told once the clock that was handed over has been read again. Before one is
/// handed over there is nothing to read.
pub open spec fn refreshed(s: AudioClockSource, clock: AudioClock) -> AudioClockSource {
    AudioClockSource {
        clock: match s.clock {
            Some(_) => Some(clock),
            None => None,
        },
        ..s
    }
}

impl AudioClockSource {
    /// No clock yet.
    pub fn new() -> (s: AudioClockSource)
        ensures
            s == (AudioClockSource { clock: None, generation: 0, seek_offset_us: 0 }),
    {
        AudioClockSource { clock: None, generation: 0, seek_offset_us: 0 }
    }

    /// Hands over the clock of a sound card that was just opened.
    pub fn attach(&mut self, clock: AudioClock)
        ensures
            *final(self) == attached(*old(self), clock),
    {
        self.clock = Some(clock);
        self.generation = self.generation.wrapping_add(1);
    }

    /// Takes in a new reading of the clock that was handed over. The device plays on, so this comes
    /// before each look at the clock.
    pub fn refresh(&mut self, clock: AudioClock)
        ensures
            *final(self) == refreshed(*old(self), clock),
    {
        if self.clock.is_some() {
            self.clock = Some(clock);
        }
    }

    /// Notes where in the media the clock starts, in microseconds.
    pub fn set_seek_offset(&mut self, us: i64)
        ensures
            *final(self) == (AudioClockSource { seek_offset_us: us, ..*old(self) }),
    {
        self.seek_offset_us = us;
    }

    /// The number of clocks so far, where in the media the clock starts, and its last reading.
    pub fn get_with_generation(&self) -> (r: (u64, i64, Option<AudioClock>))
        ensures
            r == (self.generation, self.seek_offset_us, self.clock),
    {
        (self.generation, self.seek_offset_us, self.clock)
    }
}

impl Default for AudioClockSource {
    fn default() -> (s: AudioClockSource)
        ensures
            s == (AudioClockSource { clock: None, generation: 0, seek_offset_us: 0 }),
    {
        AudioClockSource::new()
    }
}

/// How far one step forward or back goes.
#[derive(Debug, Clone, Copy, PartialEq, Eq, Structural)]
pub enum SeekStep {
    /// So many pictures; how long that is depends on the media.
    Frames(u32),
    /// So much time.
    Duration(Duration),
}

/// The frames per second that a step goes by: thirty where the media does not tell.
pub open spec fn known_fps(fps: Rational) -> Rational {
    if fps.positive() {
        fps
    } else {
        Rational { num: 30, den: 1 }
    }
}

impl SeekStep {
    /// The nanoseconds of a step.
    pub open spec fn nanos(self, fps: Rational) -> int {
        match self {
            SeekStep::Frames(n) => nearest(
                n * known_fps(fps).abs_den() * NANOS_PER_SEC,
                known_fps(fps).abs_num(),
            ),
            SeekStep::Duration(d) => d@ as int,
        }
    }

    /// How long a step is in a media of `fps` frames per second.
    pub fn resolve(self, fps: Rational) -> (d: Duration)
        ensures
            d@ == self.nanos(fps),
    {
        match self {
            SeekStep::Frames(n) => {
                let known = if fps.is_positive() {
                    fps
                } else {
                    Rational { num: 30, den: 1 }
                };
                let (num, den): (u32, u32) = known.sizes();
                proof {
                    assert(known.abs_den() <= 0x8000_0000);
                    assert(n * den <= 0xffff_ffff * 0x8000_0000) by (nonlinear_arith)
                        requires
                            n <= 0xffff_ffff,
                            den <= 0x8000_0000,
                    ;
                }
                let total: u128 = n as u128 * den as u128 * 1_000_000_000;
                let nanos: u128 = (2 * total + num as u128) / (2 * num as u128);
                assert(nanos <= total + 1) by (nonlinear_arith)
                    requires
                        num >= 1,
                        nanos == (2 * total + num) / (2 * num as int),
                ;
                Duration::of_nanos(nanos)
            },
            SeekStep::Duration(d) => d,
        }
    }

    /// The short name of the step.
    pub open spec fn short_name(self, lang: Lang) -> Seq<char> {
        match self {
            SeekStep::Frames(n) => decimal(n as nat) + (if lang == Lang::Zh {
                "帧"@
            } else {
                "frame"@
            }),
            SeekStep::Duration(d) => if d@ < NANOS_PER_SEC {
                decimal(d@ / 1_000_000) + "ms"@
            } else {
                decimal(d@ / 1_000_000_000) + "s"@
            },
        }
    }

    /// The short name of the step, for the menu.
    pub fn label(self, lang: Lang) -> (r: String)
        ensures
            r@ == self.short_name(lang),
    {
        let mut text = String::new();
        match self {
            SeekStep::Frames(n) => {
                push_decimal(&mut text, n as u128);
                assert(text@ =~= decimal(n as nat));
                if lang == Lang::Zh {
                    text.append("帧");
                } else {
                    text.append("frame");
                }
            },
            SeekStep::Duration(d) => {
                if d < Duration::from_secs(1) {
                    push_decimal(&mut text, d.as_millis());
                    assert(text@ =~= decimal(d@ / 1_000_000));
                    text.append("ms");
                } else {
                    push_decimal(&mut text, d.as_secs() as u128);
                    assert(text@ =~= decimal(d@ / 1_000_000_000));
                    text.append("s");
                }
            },
        }
        text
    }
}

/// The state of a player. What it asks of the decoding side waits in a list.
pub struct PlayerController<F> {
    latest_frame: Option<F>,
    outbox: Vec<PlayerCommand>,
    duration: Duration,
    position: Duration,
    paused: bool,
    dragging: bool,
    muted: bool,
    menu_open: bool,
    speed: u64,
    seek_step: SeekStep,
    i18n: I18n,
    info_open: bool,
    seek_gen: u64,
    last_preview_sent: Option<Instant>,
    video_size: (u32, u32),
    video_fps: Rational,
    watch: Stopwatch,
}

/// The state of a player as its contracts speak of it.
#[verifier::ext_equal]
pub struct ControllerState<F> {
    /// The picture that is shown.
    pub latest_frame: Option<F>,
    /// What the decoding side is asked to do, oldest first.
    pub outbox: Seq<PlayerCommand>,
    /// How long the media is; empty where that is not known.
    pub duration: Duration,
    /// The place in the media.
    pub position: Duration,
    pub paused: bool,
    /// The user drags the slider.
    pub dragging: bool,
    pub muted: bool,
    pub menu_open: bool,
    pub speed: u64,
    pub seek_step: SeekStep,
    pub lang: Lang,
    pub info_open: bool,
    /// The number of the last seek.
    pub seek_gen: u64,
    /// When a preview was last asked for.
    pub last_preview_sent: Option<Instant>,
    /// Width and height of the pictures.
    pub video_size: (u32, u32),
    /// Frames per second.
    pub video_fps: Rational,
    /// What the time between previews is measured with.
    pub watch: Stopwatch,
}

impl<F> View for PlayerController<F> {
    type V = ControllerState<F>;

    closed spec fn view(&self) -> ControllerState<F> {
        ControllerState {
            latest_frame: self.latest_frame,
            outbox: self.outbox@,
            duration: self.duration,
            position: self.position,
            paused: self.paused,
            dragging: self.dragging,
            muted: self.muted,
            menu_open: self.menu_open,
            speed: self.speed,
            seek_step: self.seek_step,
            lang: self.i18n.lang,
            info_open: self.info_open,
            seek_gen: self.seek_gen,
            last_preview_sent: self.last_preview_sent,
            video_size: self.video_size,
            video_fps: self.video_fps,
            watch: self.watch,
        }
    }
}

impl<F> PlayerController<F> {
    /// A player for a media that was just opened, in the given language.
    pub fn open(lang: Lang) -> (c: PlayerController<F>)
        ensures
            c@ == (ControllerState::<F> {
                latest_frame: None,
                outbox: Seq::<PlayerCommand>::empty(),
                duration: c@.duration,
                position: c@.position,
                paused: false,
                dragging: false,
                muted: false,
                menu_open: false,
                speed: NORMAL_SPEED,
                seek_step: c@.seek_step,
                lang,
                info_open: false,
                seek_gen: 0,
                last_preview_sent: None,
                video_size: (0, 0),
                video_fps: Rational { num: 0, den: 1 },
                watch: c@.watch,
            }),
            c@.duration@ == 0,
            c@.position@ == 0,
            c@.seek_step matches SeekStep::Duration(d) && d@ == 5 * NANOS_PER_SEC,
    {
        PlayerController {
            latest_frame: None,
            outbox: Vec::new(),
            duration: Duration::zero(),
            position: Duration::zero(),
            paused: false,
            dragging: false,
            muted: false,
            menu_open: false,
            speed: NORMAL_SPEED,
            seek_step: SeekStep::Duration(Duration::from_secs(5)),
            i18n: I18n::new(lang),
            info_open: false,
            seek_gen: 0,
            last_preview_sent: None,
            video_size: (0, 0),
            video_fps: Rational { num: 0, den: 1 },
            watch: Stopwatch::start(),
        }
    }

    /// Hands out what the decoding side is asked to do.
    pub fn take_commands(&mut self) -> (cmds: Vec<PlayerCommand>)
        ensures
            cmds@ == old(self)@.outbox,
            final(self)@ == (ControllerState { outbox: Seq::empty(), ..old(self)@ }),
    {
        let mut cmds: Vec<PlayerCommand> = Vec::new();
        std::mem::swap(&mut cmds, &mut self.outbox);
        assert(self@ =~= (ControllerState { outbox: Seq::empty(), ..old(self)@ }));
        cmds
    }

    /// Notes the size of the pictures, which the decoding side found out.
    pub fn set_video_size(&mut self, width: u32, height: u32)
        ensures
            final(self)@ == (ControllerState { video_size: (width, height), ..old(self)@ }),
    {
        self.video_size = (width, height);
    }

    /// Notes the frames per second, which the decoding side found out.
    pub fn set_fps(&mut self, fps: Rational)
        ensures
            final(self)@ == (ControllerState { video_fps: fps, ..old(self)@ }),
    {
        self.video_fps = fps;
    }

    /// The picture that is shown.
    pub fn latest_frame(&self) -> (r: Option<&F>)
        ensures
            r == (match self@.latest_frame {
                Some(f) => Some(&f),
                None => None,
            }),
    {
        self.latest_frame.as_ref()
    }

    /// How long the media is.
    pub fn duration(&self) -> (d: Duration)
        ensures
            d == self@.duration,
    {
        self.duration
    }

    /// Width and height of the pictures; zero until they are known.
    pub fn video_size(&self) -> (r: (u32, u32))
        ensures
            r == self@.video_size,
    {
        self.video_size
    }

    /// Frames per second; zero until they are known.
    pub fn fps(&self) -> (r: Rational)
        ensures
            r == self@.video_fps,
    {
        self.video_fps
    }

    /// The place in the media.
    pub fn position(&self) -> (d: Duration)
        ensures
            d == self@.position,
    {
        self.position
    }

    /// Whether playing is paused.
    pub fn paused(&self) -> (r: bool)
        ensures
            r == self@.paused,
    {
        self.paused
    }

    /// Whether the user drags the slider.
    pub fn is_dragging(&self) -> (r: bool)
        ensures
            r == self@.dragging,
    {
        self.dragging
    }

    /// Whether the sound is muted.
    pub fn is_muted(&self) -> (r: bool)
        ensures
            r == self@.muted,
    {
        self.muted
    }

    /// The number of the last seek.
    pub fn seek_gen(&self) -> (r: u64)
        ensures
            r == self@.seek_gen,
    {
        self.seek_gen
    }

    /// The language.
    pub fn lang(&self) -> (r: Lang)
        ensures
            r == self@.lang,
    {
        self.i18n.lang()
    }

    /// The text for `key`.
    pub fn t(&self, key: StrKey) -> (r: &'static str)
        ensures
            r@ == crate::gpui_video::i18n::translated(self@.lang, key),
    {
        self.i18n.get(key)
    }

    /// Goes on to the next language.
    pub fn cycle_lang(&mut self)
        ensures
            final(self)@ == (ControllerState { lang: old(self)@.lang.other(), ..old(self)@ }),
    {
        self.i18n.cycle();
    }

    /// Asks the decoding side for something.
    fn send(&mut self, c: PlayerCommand)
        ensures
            final(self)@ == asked(old(self)@, c),
    {
        self.outbox.push(c);
        assert(self@ =~= asked(old(self)@, c));
    }
}

/// The player after it asked the decoding side for something.
pub open spec fn asked<F>(s: ControllerState<F>, c: PlayerCommand) -> ControllerState<F> {
    ControllerState { outbox: s.outbox.push(c), ..s }
}

/// A clock that is handed over goes on: however often it is read again, what the window gets is the
/// last reading, and neither the number of the clock nor the place where it starts changes. Reading
/// it again does not pass for a new clock, nor for one where there was none.
pub proof fn law_clock_goes_on(
    s: AudioClockSource,
    handed_over: AudioClock,
    readings: Seq<AudioClock>,
)
    ensures
        ({
            let source = attached(s, handed_over);
            let after = all_refreshed(source, readings);
            &&& after.clock == Some(
                if readings.len() == 0 {
                    handed_over
                } else {
                    readings.last()
                },
            )
            &&& after.generation == source.generation
            &&& after.seek_offset_us == source.seek_offset_us
        }),
        s.clock is None ==> all_refreshed(s, readings) == s,
    decreases readings.len(),
{
    if readings.len() > 0 {
        law_clock_goes_on(s, handed_over, readings.drop_last());
    }
}

/// The source after its clock was read again and again.
pub open spec fn all_refreshed(s: AudioClockSource, readings: Seq<AudioClock>) -> AudioClockSource
    decreases readings.len(),
{
    if readings.len() == 0 {
        s
    } else {
        refreshed(all_refreshed(s, readings.drop_last()), readings.last())
    }
}

/// A card that was opened anew is noticed: the clock that the window gets is the new one, under a
/// number that it has not had before, until the numbers run over; the place in the media where the
/// old one started is kept until a new one is known.
pub proof fn law_new_clock_is_noticed(s: AudioClockSource, clock: AudioClock)
    ensures
        attached(s, clock).clock == Some(clock),
        attached(s, clock).generation != s.generation,
        s.generation < u64::MAX ==> attached(s, clock).generation == s.generation + 1,
        attached(s, clock).seek_offset_us == s.seek_offset_us,
{
}

} // verus!
