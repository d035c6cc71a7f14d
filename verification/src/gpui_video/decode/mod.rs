//! The loop that decodes: what it does next, and what commands, pictures and sound do to it.
//!
//! [`DecodeLoop`] holds what the loop remembers from one round to the next. Its driver owns the
//! media, the sound card and the channel to the window. Each round it hands over the commands that
//! have come, performs the seek that is left of them, and then does what
//! [`DecodeLoop::next_step`] says.

pub mod audio;
pub mod laws;
pub mod probe;
pub mod runs;
pub mod video;

use crate::gpui_video::controller::PlayerCommand;
use crate::player_core::audio_output::{FULL_VOLUME, NO_VOLUME};
use crate::player_core::media_source::SeekOutcome;
use crate::time::{wrap_i64, wrap_u64, Duration};
use vstd::prelude::*;

verus! {

/// How many pictures may wait for the window. This bounds how far decoding runs ahead, and with it
/// how much sound can be buffered.
pub const FRAME_QUEUE_CAP: usize = 12;

/// How far from the end of the media a seek stops, in microseconds.
pub const SEEK_END_MARGIN_US: u64 = 1_000_000;

/// Milliseconds for which an idle loop sleeps.
pub const IDLE_MS: u64 = 8;

/// Where a seek to `us` microseconds goes in a media of `duration_us` microseconds.
pub open spec fn clamped_us(us: int, duration_us: int) -> int {
    let end = if duration_us >= SEEK_END_MARGIN_US {
        duration_us - SEEK_END_MARGIN_US
    } else {
        0
    };
    if us < end {
        us
    } else {
        end
    }
}

/// Where a seek to `t` goes: never closer to the end of the media than the margin.
pub fn seek_clamped(t: Duration, duration_us: u64) -> (r: Duration)
    ensures
        r@ == clamped_us(wrap_u64((t@ / 1000) as int), duration_us as int) * 1000,
{
    let end: u64 = duration_us.saturating_sub(SEEK_END_MARGIN_US);
    let us: u64 = t.micros_u64();
    Duration::from_micros(
        if us < end {
            us
        } else {
            end
        },
    )
}

/// What the driver does to the sound card or the media at once.
#[derive(Debug, Clone, Copy, PartialEq, Eq, Structural)]
pub enum Effect {
    /// Stop the sound card.
    PauseAudio,
    /// Let the sound card run.
    ResumeAudio,
    /// Stop the sound card and throw away what waits.
    MuteAudio,
    /// Set the volume.
    SetVolume(u32),
    /// Set the speed of the media.
    SetSpeed(u64),
}

/// The effect of a command, where it has one at once. Without a sound card only the speed has.
pub open spec fn effect_of(c: PlayerCommand, audio: bool) -> Seq<Effect> {
    match c {
        PlayerCommand::Pause => if audio {
            seq![Effect::PauseAudio]
        } else {
            Seq::empty()
        },
        PlayerCommand::Resume => if audio {
            seq![Effect::ResumeAudio]
        } else {
            Seq::empty()
        },
        PlayerCommand::MuteAudio => if audio {
            seq![Effect::MuteAudio]
        } else {
            Seq::empty()
        },
        PlayerCommand::SetMuted(m) => if audio {
            seq![
                Effect::SetVolume(
                    if m {
                        NO_VOLUME
                    } else {
                        FULL_VOLUME
                    },
                ),
            ]
        } else {
            Seq::empty()
        },
        PlayerCommand::SetSpeed(s) => seq![Effect::SetSpeed(s)],
        PlayerCommand::SeekPreview(_, _) | PlayerCommand::SeekCommit(_, _) => Seq::empty(),
    }
}

/// The effects of some commands, in their order.
pub open spec fn effects_of(cmds: Seq<PlayerCommand>, audio: bool) -> Seq<Effect>
    decreases cmds.len(),
{
    if cmds.len() == 0 {
        Seq::empty()
    } else {
        effects_of(cmds.drop_last(), audio) + effect_of(cmds.last(), audio)
    }
}

/// The command is a seek.
pub open spec fn is_seek(c: PlayerCommand) -> bool {
    c is SeekPreview || c is SeekCommit
}

/// The seek that is left of some commands: the last one.
pub open spec fn latest_seek(cmds: Seq<PlayerCommand>) -> Option<PlayerCommand>
    decreases cmds.len(),
{
    if cmds.len() == 0 {
        None
    } else if is_seek(cmds.last()) {
        Some(cmds.last())
    } else {
        latest_seek(cmds.drop_last())
    }
}

/// The time that a seek goes to.
pub open spec fn seek_time(c: PlayerCommand) -> Duration {
    match c {
        PlayerCommand::SeekPreview(t, _) => t,
        PlayerCommand::SeekCommit(t, _) => t,
        _ => arbitrary(),
    }
}

/// The number of a seek.
pub open spec fn seek_number(c: PlayerCommand) -> u64 {
    match c {
        PlayerCommand::SeekPreview(_, g) => g,
        PlayerCommand::SeekCommit(_, g) => g,
        _ => 0,
    }
}

/// A picture that waits to be sent: the picture, its time in microseconds, whether it is a preview,
/// and the number of the seek that it was decoded after.
pub struct HeldFrame<F> {
    pub image: F,
    pub pts_us: u64,
    pub preview: bool,
    pub frame_gen: u64,
}

/// What the loop remembers.
pub struct DecodeLoop<F> {
    /// Playing is paused.
    pub paused: bool,
    /// A drag is going on.
    pub previewing: bool,
    /// The picture of the drag is out; nothing is decoded until the next command.
    pub preview_stall: bool,
    /// Pictures before this time are dropped.
    pub video_seek_target: Option<Duration>,
    /// Sound before this time is dropped.
    pub audio_seek_target: Option<Duration>,
    /// The next picture tells where in the media the sound card's clock starts.
    pub pending_anchor: bool,
    /// The sound card is to be started as soon as enough sound waits.
    pub start_audio: bool,
    /// A picture that waits to be sent.
    pub next_frame: Option<HeldFrame<F>>,
    /// The media is at its end.
    pub finished: bool,
    /// Paused, but the picture of a seek is still to be shown.
    pub scrub_paused: bool,
    /// The number of the last seek.
    pub current_gen: u64,
    /// There is a sound card.
    pub audio: bool,
    /// Microseconds that the media lasts.
    pub duration_us: u64,
}

/// What the loop does next.
pub enum Step<F> {
    /// Sleep a little and look for commands again.
    Idle,
    /// Fill up the sound, and send this picture.
    Send(HeldFrame<F>),
    /// Read the next unit of the media.
    Pull,
}

/// What follows a seek.
#[derive(Debug, Clone, Copy, PartialEq, Eq, Structural)]
pub enum SeekFollowUp {
    /// Nothing: the seek was given up for a newer one.
    Retry,
    /// Throw away the sound that waits, where there is a sound card.
    ClearAudio(bool),
    /// Open the sound card anew without starting it: its clock cannot be turned back.
    RebuildAudio,
}

/// What is left of a batch of commands.
pub struct Batch {
    /// What is done at once, in order.
    pub effects: Vec<Effect>,
    /// The seek to perform.
    pub seek: Option<PlayerCommand>,
}

/// The loop after one command.
pub open spec fn after_command<F>(s: DecodeLoop<F>, c: PlayerCommand) -> DecodeLoop<F> {
    match c {
        PlayerCommand::Pause => DecodeLoop { paused: true, ..s },
        PlayerCommand::Resume => if s.previewing {
            DecodeLoop { paused: false, ..s }
        } else {
            DecodeLoop { paused: false, scrub_paused: false, start_audio: true, ..s }
        },
        _ => s,
    }
}

/// The loop after some commands. Their seeks come afterwards.
pub open spec fn after_commands<F>(s: DecodeLoop<F>, cmds: Seq<PlayerCommand>) -> DecodeLoop<F>
    decreases cmds.len(),
{
    if cmds.len() == 0 {
        s
    } else {
        after_command(after_commands(s, cmds.drop_last()), cmds.last())
    }
}

/// The loop after a seek to `target` that was not given up.
pub open spec fn after_seek<F>(s: DecodeLoop<F>, c: PlayerCommand, target: Duration) -> DecodeLoop<
    F,
> {
    let sought = DecodeLoop {
        current_gen: seek_number(c),
        finished: false,
        next_frame: None,
        preview_stall: false,
        ..s
    };
    match c {
        PlayerCommand::SeekPreview(_, _) => DecodeLoop {
            previewing: true,
            video_seek_target: None,
            scrub_paused: s.scrub_paused || s.paused,
            ..sought
        },
        _ => DecodeLoop {
            previewing: false,
            pending_anchor: true,
            video_seek_target: Some(target),
            audio_seek_target: Some(target),
            scrub_paused: s.scrub_paused || s.paused,
            start_audio: !s.paused,
            ..sought
        },
    }
}

/// The loop waits for a command.
pub open spec fn is_idle<F>(s: DecodeLoop<F>) -> bool {
    ||| s.previewing && s.preview_stall
    ||| s.paused && !s.scrub_paused
    ||| s.finished
}

/// The loop after its picture was sent. `start` tells that the sound card was started.
pub open spec fn after_sent<F>(s: DecodeLoop<F>, preview: bool, start: bool) -> DecodeLoop<F> {
    DecodeLoop {
        preview_stall: s.preview_stall || (preview && s.previewing),
        scrub_paused: false,
        start_audio: s.start_audio && !start,
        ..s
    }
}

/// The picture of the time `pts` comes before the place that was sought.
pub open spec fn before_target(target: Option<Duration>, pts: Duration) -> bool {
    target matches Some(t) && pts@ < t@
}

/// The loop after a picture of the time `pts` was decoded.
pub open spec fn after_video<F>(s: DecodeLoop<F>, pts: Duration) -> DecodeLoop<F> {
    if before_target(s.video_seek_target, pts) {
        s
    } else {
        DecodeLoop { video_seek_target: None, pending_anchor: false, ..s }
    }
}

/// A picture of the time `pts` as it is kept to be sent.
pub open spec fn held<F>(s: DecodeLoop<F>, image: F, pts: Duration) -> HeldFrame<F> {
    HeldFrame {
        image,
        pts_us: wrap_u64((pts@ / 1000) as int) as u64,
        preview: s.previewing,
        frame_gen: s.current_gen,
    }
}

/// The loop after its picture was handed out.
pub open spec fn after_handed<F>(s: DecodeLoop<F>) -> DecodeLoop<F> {
    DecodeLoop { next_frame: None, ..s }
}

/// The sound card is started when a picture was sent and `queued` sound waits.
pub open spec fn starts_audio<F>(s: DecodeLoop<F>, queued: Duration) -> bool {
    s.start_audio && s.audio && queued@ >= audio::AUDIO_START_MIN_MS * 1_000_000
}

impl<F> DecodeLoop<F> {
    /// A picture that waits belongs to the last seek and to the drag that is going on, if one is.
    pub open spec fn wf(self) -> bool {
        self.next_frame matches Some(f) ==> f.frame_gen == self.current_gen && f.preview
            == self.previewing
    }

    /// A loop at the start of a media.
    pub fn new(audio: bool, duration_us: u64) -> (s: DecodeLoop<F>)
        ensures
            s.wf(),
            s == (DecodeLoop::<F> {
                paused: false,
                previewing: false,
                preview_stall: false,
                video_seek_target: None,
                audio_seek_target: None,
                pending_anchor: false,
                start_audio: false,
                next_frame: None,
                finished: false,
                scrub_paused: false,
                current_gen: 0,
                audio,
                duration_us,
            }),
    {
        DecodeLoop {
            paused: false,
            previewing: false,
            preview_stall: false,
            video_seek_target: None,
            audio_seek_target: None,
            pending_anchor: false,
            start_audio: false,
            next_frame: None,
            finished: false,
            scrub_paused: false,
            current_gen: 0,
            audio,
            duration_us,
        }
    }

    /// Takes in the commands that have come. What they ask of the sound card and the media is done
    /// in their order; of the seeks only the last one is left, for each takes its time and the ones
    /// before it are no longer wanted.
    ///
    /// Going on after a pause takes back a pause that only a picture was to be shown in, and starts
    /// the sound card when it has something to play; not so during a drag.
    pub fn on_commands(&mut self, cmds: &Vec<PlayerCommand>) -> (b: Batch)
        requires
            old(self).wf(),
        ensures
            final(self).wf(),
            *final(self) == after_commands(*old(self), cmds@),
            b.effects@ == effects_of(cmds@, old(self).audio),
            b.seek == latest_seek(cmds@),
    {
        let mut effects: Vec<Effect> = Vec::new();
        let mut seek: Option<PlayerCommand> = None;
        let mut i: usize = 0;
        while i < cmds.len()
            invariant
                i <= cmds@.len(),
                self.wf(),
                self.audio == old(self).audio,
                *self == after_commands(*old(self), cmds@.take(i as int)),
                effects@ == effects_of(cmds@.take(i as int), old(self).audio),
                seek == latest_seek(cmds@.take(i as int)),
            decreases cmds@.len() - i,
        {
            let ghost done = cmds@.take(i as int);
            let c = cmds[i];
            i = i + 1;
            proof {
                assert(cmds@.take(i as int).drop_last() =~= done);
                assert(cmds@.take(i as int).last() == c);
            }
            let ghost before = effects@;
            match c {
                PlayerCommand::Pause => {
                    self.paused = true;
                    if self.audio {
                        effects.push(Effect::PauseAudio);
                    }
                },
                PlayerCommand::Resume => {
                    self.paused = false;
                    if !self.previewing {
                        self.scrub_paused = false;
                        self.start_audio = true;
                    }
                    if self.audio {
                        effects.push(Effect::ResumeAudio);
                    }
                },
                PlayerCommand::MuteAudio => {
                    if self.audio {
                        effects.push(Effect::MuteAudio);
                    }
                },
                PlayerCommand::SetMuted(m) => {
                    if self.audio {
                        effects.push(
                            Effect::SetVolume(
                                if m {
                                    NO_VOLUME
                                } else {
                                    FULL_VOLUME
                                },
                            ),
                        );
                    }
                },
                PlayerCommand::SetSpeed(s) => {
                    effects.push(Effect::SetSpeed(s));
                },
                PlayerCommand::SeekPreview(_, _) | PlayerCommand::SeekCommit(_, _) => {
                    seek = Some(c);
                },
            }
            assert(effects@ =~= before + effect_of(c, self.audio));
        }
        assert(cmds@.take(i as int) =~= cmds@);
        Batch { effects, seek }
    }

    /// Where a seek goes.
    pub fn seek_target(&self, c: PlayerCommand) -> (r: Duration)
        requires
            is_seek(c),
        ensures
            r@ == clamped_us(
                wrap_u64((seek_time(c)@ / 1000) as int),
                self.duration_us as int,
            ) * 1000,
    {
        match c {
            PlayerCommand::SeekPreview(t, _) => seek_clamped(t, self.duration_us),
            PlayerCommand::SeekCommit(t, _) => seek_clamped(t, self.duration_us),
            _ => Duration::zero(),
        }
    }

    /// The media was asked to go to `target`. A seek that was given up for a newer one changes
    /// nothing: the newer one is among the next commands. One that failed counts as done.
    pub fn on_seek(&mut self, c: PlayerCommand, target: Duration, outcome: SeekOutcome) -> (r:
        SeekFollowUp)
        requires
            old(self).wf(),
            is_seek(c),
        ensures
            final(self).wf(),
            outcome == SeekOutcome::Cancelled ==> *final(self) == *old(self) && r
                == SeekFollowUp::Retry,
            outcome != SeekOutcome::Cancelled ==> {
                &&& *final(self) == after_seek(*old(self), c, target)
                &&& r == (if c is SeekPreview {
                    SeekFollowUp::ClearAudio(old(self).audio)
                } else {
                    SeekFollowUp::RebuildAudio
                })
            },
    {
        match outcome {
            SeekOutcome::Cancelled => {
                return SeekFollowUp::Retry;
            },
            SeekOutcome::Done | SeekOutcome::Failed => {},
        }
        self.finished = false;
        self.next_frame = None;
        self.preview_stall = false;
        if self.paused {
            self.scrub_paused = true;
        }
        match c {
            PlayerCommand::SeekPreview(_, number) => {
                self.current_gen = number;
                self.previewing = true;
                self.video_seek_target = None;
                SeekFollowUp::ClearAudio(self.audio)
            },
            PlayerCommand::SeekCommit(_, number) => {
                self.current_gen = number;
                self.previewing = false;
                self.pending_anchor = true;
                self.video_seek_target = Some(target);
                self.audio_seek_target = Some(target);
                self.start_audio = !self.paused;
                SeekFollowUp::RebuildAudio
            },
            _ => SeekFollowUp::Retry,
        }
    }

    /// The sound card was opened anew, or could not be.
    pub fn on_audio_rebuilt(&mut self, opened: bool)
        requires
            old(self).wf(),
        ensures
            final(self).wf(),
            *final(self) == (DecodeLoop { audio: opened, ..*old(self) }),
    {
        self.audio = opened;
    }

    /// Says what the loop does next, once there is no seek to perform. A picture to be sent is
    /// handed out.
    pub fn next_step(&mut self) -> (r: Step<F>)
        requires
            old(self).wf(),
        ensures
            final(self).wf(),
            is_idle(*old(self)) ==> r is Idle && *final(self) == *old(self),
            !is_idle(*old(self)) ==> match old(self).next_frame {
                Some(f) => {
                    &&& r == Step::Send(f)
                    &&& *final(self) == after_handed(*old(self))
                },
                None => r is Pull && *final(self) == *old(self),
            },
    {
        if self.previewing && self.preview_stall {
            return Step::Idle;
        }
        if self.paused && !self.scrub_paused {
            return Step::Idle;
        }
        if self.finished {
            return Step::Idle;
        }
        match self.next_frame.take() {
            Some(f) => Step::Send(f),
            None => Step::Pull,
        }
    }

    /// A picture was sent, and `queued` sound waits. Says whether the sound card is started now.
    pub fn on_sent(&mut self, preview: bool, queued: Duration) -> (start: bool)
        requires
            old(self).wf(),
            old(self).next_frame is None,
        ensures
            final(self).wf(),
            start == starts_audio(*old(self), queued),
            *final(self) == after_sent(*old(self), preview, start),
    {
        if preview && self.previewing {
            self.preview_stall = true;
        }
        self.scrub_paused = false;
        audio::try_start_audio(self.audio, queued, &mut self.start_audio)
    }

    /// A picture of the time `pts` was decoded. Says whether it is shown, and if so, whether and to
    /// what the start of the sound card's clock in the media is set, given that the card has played
    /// `played`.
    pub fn on_video(&mut self, pts: Duration, played: Option<Duration>) -> (r: Option<Option<i64>>)
        requires
            old(self).wf(),
        ensures
            final(self).wf(),
            *final(self) == after_video(*old(self), pts),
            before_target(old(self).video_seek_target, pts) ==> r is None,
            !before_target(old(self).video_seek_target, pts) ==> r == (if old(
                self,
            ).pending_anchor {
                Some(
                    Some(
                        wrap_i64(
                            wrap_i64((pts@ / 1000) as int) - (match played {
                                Some(p) => wrap_i64((p@ / 1000) as int),
                                None => 0,
                            }),
                        ) as i64,
                    ),
                )
            } else {
                Some(None)
            }),
    {
        match self.video_seek_target {
            Some(target) => {
                if pts < target {
                    return None;
                }
                self.video_seek_target = None;
            },
            None => {},
        }
        if self.pending_anchor {
            self.pending_anchor = false;
            let played_us: i64 = match played {
                Some(p) => p.micros_i64(),
                None => 0,
            };
            let anchor: i64 = pts.micros_i64().wrapping_sub(played_us);
            Some(Some(anchor))
        } else {
            Some(None)
        }
    }

    /// Keeps a picture of the time `pts` to be sent in the next round.
    pub fn hold(&mut self, image: F, pts: Duration)
        requires
            old(self).wf(),
            old(self).next_frame is None,
        ensures
            final(self).wf(),
            *final(self) == (DecodeLoop {
                next_frame: Some(held(*old(self), image, pts)),
                ..*old(self)
            }),
    {
        self.next_frame = Some(
            HeldFrame {
                image,
                pts_us: pts.micros_u64(),
                preview: self.previewing,
                frame_gen: self.current_gen,
            },
        );
    }

    /// The media came to its end: nothing more is read until a seek.
    pub fn on_eof(&mut self)
        requires
            old(self).wf(),
        ensures
            final(self).wf(),
            *final(self) == (DecodeLoop { finished: true, ..*old(self) }),
    {
        self.finished = true;
    }
}

/// Why a read failed.
#[derive(Debug, Clone, Copy, PartialEq, Eq, Structural)]
pub enum ReadFailure {
    /// A newer seek interrupted it.
    Cancelled,
    /// The data are damaged here.
    InvalidData,
    /// Anything else.
    Other,
}

/// What follows a read that failed.
#[derive(Debug, Clone, Copy, PartialEq, Eq, Structural)]
pub enum ReadFollowUp {
    /// Look for commands.
    ReadCommands,
    /// Read on behind the damage.
    Skip,
    /// Tell the window that nothing more comes, and end.
    Stop,
}

/// What follows a read that failed: only an error that is neither an interruption nor a damaged
/// stretch ends the loop.
pub fn on_read_failure(failure: ReadFailure) -> (r: ReadFollowUp)
    ensures
        r == (match failure {
            ReadFailure::Cancelled => ReadFollowUp::ReadCommands,
            ReadFailure::InvalidData => ReadFollowUp::Skip,
            ReadFailure::Other => ReadFollowUp::Stop,
        }),
{
    match failure {
        ReadFailure::Cancelled => ReadFollowUp::ReadCommands,
        ReadFailure::InvalidData => ReadFollowUp::Skip,
        ReadFailure::Other => ReadFollowUp::Stop,
    }
}

/// A seek stays inside the media and away from its end, goes where it was asked to where that is
/// possible, and asking again for the place where it went changes nothing.
pub proof fn law_seek_stays_inside(us: int, duration_us: int)
    requires
        0 <= us,
        0 <= duration_us,
    ensures
        0 <= clamped_us(us, duration_us) <= us,
        duration_us >= SEEK_END_MARGIN_US ==> clamped_us(us, duration_us) <= duration_us
            - SEEK_END_MARGIN_US,
        us <= duration_us - SEEK_END_MARGIN_US ==> clamped_us(us, duration_us) == us,
        clamped_us(clamped_us(us, duration_us), duration_us) == clamped_us(us, duration_us),
{
}

/// However many seeks have come, only the last one is performed.
pub proof fn law_last_seek_wins(
    before: Seq<PlayerCommand>,
    c: PlayerCommand,
    after: Seq<PlayerCommand>,
)
    requires
        is_seek(c),
        forall|i: int| 0 <= i < after.len() ==> !is_seek(#[trigger] after[i]),
    ensures
        latest_seek(before.push(c) + after) == Some(c),
    decreases after.len(),
{
    let all = before.push(c) + after;
    if after.len() == 0 {
        assert(all =~= before.push(c));
        assert(all.last() == c);
    } else {
        assert(all.last() == after.last());
        assert(!is_seek(after.last()));
        assert(all.drop_last() =~= before.push(c) + after.drop_last());
        law_last_seek_wins(before, c, after.drop_last());
    }
}

/// Taking in commands touches nothing but the pause and the start of the sound: in particular it
/// neither throws a picture away nor changes the number of the last seek.
pub proof fn law_commands_only_pause<F>(s: DecodeLoop<F>, cmds: Seq<PlayerCommand>)
    ensures
        ({
            let after = after_commands(s, cmds);
            after == (DecodeLoop {
                paused: after.paused,
                scrub_paused: after.scrub_paused,
                start_audio: after.start_audio,
                ..s
            })
        }),
    decreases cmds.len(),
{
    if cmds.len() > 0 {
        law_commands_only_pause(s, cmds.drop_last());
    }
}

/// A pause stops the pictures, and going on lets them flow again.
pub proof fn law_pause_stops_and_resume_resumes<F>(s: DecodeLoop<F>)
    requires
        !s.scrub_paused,
        !s.previewing,
        !s.finished,
    ensures
        is_idle(after_command(s, PlayerCommand::Pause)),
        !is_idle(
            after_command(after_command(s, PlayerCommand::Pause), PlayerCommand::Resume),
        ),
{
}

/// A drag that is held still freezes on its picture: the seek of a preview lets one picture
/// through, and once that is sent the loop stands still. Standing still changes nothing, so it
/// stays that way until a command comes.
pub proof fn law_preview_freezes<F>(
    s: DecodeLoop<F>,
    t: Duration,
    number: u64,
    target: Duration,
    start: bool,
)
    ensures
        ({
            let sought = after_seek(s, PlayerCommand::SeekPreview(t, number), target);
            &&& !is_idle(sought)
            &&& is_idle(after_sent(sought, true, start))
        }),
{
}

/// A seek after the end of the media brings the pictures back.
pub proof fn law_seek_after_end_resumes<F>(s: DecodeLoop<F>, c: PlayerCommand, target: Duration)
    requires
        is_seek(c),
        s.finished,
    ensures
        is_idle(s),
        !is_idle(after_seek(s, c, target)),
        after_seek(s, c, target).next_frame is None,
{
}

/// A seek while playing is paused shows the picture of the place and stays paused: one picture
/// goes out, no sound does, and the sound card is not started.
pub proof fn law_paused_seek_shows_one_picture<F>(
    s: DecodeLoop<F>,
    t: Duration,
    number: u64,
    target: Duration,
    pts: Duration,
    backpressure: bool,
)
    requires
        s.paused,
    ensures
        ({
            let sought = after_seek(s, PlayerCommand::SeekCommit(t, number), target);
            &&& sought.paused
            &&& !is_idle(sought)
            &&& !sought.start_audio
            &&& audio::fate_of(sought, pts, backpressure) !is Push
            &&& after_sent(sought, false, false).paused
            &&& is_idle(after_sent(sought, false, false))
        }),
{
}

/// After a seek nothing that comes before the place is shown or heard, and what was on its way is
/// thrown away. Every picture that is kept from then on carries the number of that seek.
pub proof fn law_nothing_before_the_place<F>(
    s: DecodeLoop<F>,
    t: Duration,
    number: u64,
    target: Duration,
    pts: Duration,
    backpressure: bool,
)
    requires
        pts@ < target@,
    ensures
        ({
            let sought = after_seek(s, PlayerCommand::SeekCommit(t, number), target);
            &&& before_target(sought.video_seek_target, pts)
            &&& audio::fate_of(sought, pts, backpressure) == audio::AudioFate::BeforeTarget
            &&& sought.next_frame is None
            &&& sought.current_gen == number
        }),
{
}

} // verus!
