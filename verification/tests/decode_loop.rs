use aa_player::gpui_video::controller::commands::SPEED_STEPS;
use aa_player::gpui_video::controller::{PlayerCommand, PlayerController};
use aa_player::gpui_video::decode::audio::{
    drain_audio, is_full, AudioFate, DrainStep, AUDIO_BUFFER_MS,
};
use aa_player::gpui_video::decode::probe::{
    arm_chunk, audio_chunk, audio_dropped, audio_pushed, maybe_report, next_event_done,
    pump_chunk, send_blocked, Acc, Report,
};
use aa_player::gpui_video::decode::video::{send_blocking, SendStep, TrySend};
use aa_player::gpui_video::decode::{
    on_read_failure, seek_clamped, DecodeLoop, Effect, ReadFailure, ReadFollowUp, SeekFollowUp,
    Step, FRAME_QUEUE_CAP,
};
use aa_player::gpui_video::i18n::Lang;
use aa_player::player_core::audio_output::{AudioFormat, AudioOutput};
use aa_player::player_core::media_source::SeekOutcome;
use aa_player::time::{Duration, Instant};
use std::collections::VecDeque;

const DURATION_MS: u64 = 10_000;
const FORMAT: AudioFormat = AudioFormat {
    sample_rate: 1000,
    channels: 1,
};

/// A player over a made-up media of ten seconds: a picture every 33 milliseconds and a stretch of
/// sound of 20 milliseconds every 20. The window takes pictures when the test asks for them.
struct Rig {
    controller: PlayerController<u64>,
    state: DecodeLoop<u64>,
    audio: AudioOutput<u8>,
    card_runs: bool,
    video_at: u64,
    audio_at: u64,
    channel: VecDeque<(u64, bool, u64)>,
    clocks: u32,
    pumped: u32,
    seeks: u32,
    anchor_us: i64,
}

impl Rig {
    fn new() -> Self {
        Rig {
            controller: PlayerController::open(Lang::Zh),
            state: DecodeLoop::new(true, DURATION_MS * 1000),
            audio: AudioOutput::new(FORMAT),
            card_runs: true,
            video_at: 0,
            audio_at: 0,
            channel: VecDeque::new(),
            clocks: 1,
            pumped: 0,
            seeks: 0,
            anchor_us: 0,
        }
    }

    fn push_sound(&mut self, pts: u64, backpressure: bool) -> AudioFate {
        let fate = self
            .state
            .deliver_audio(Duration::from_millis(pts), backpressure);
        if let AudioFate::Push { wait_for_room } = fate {
            while wait_for_room && is_full(self.audio.queued_duration()) {
                self.play(5);
            }
            self.audio.push_samples(&vec![1; 20]);
        }
        fate
    }

    /// The sound card plays for some milliseconds.
    fn play(&mut self, ms: usize) {
        if self.card_runs {
            let mut buf = vec![0; ms];
            self.audio.fill(&mut buf, 0);
        }
    }

    /// One round of the loop. Says whether it did anything.
    fn round(&mut self) -> bool {
        let cmds = self.controller.take_commands();
        let batch = self.state.on_commands(&cmds);
        for e in batch.effects {
            match e {
                Effect::PauseAudio => {
                    self.audio.pause();
                    self.card_runs = false;
                }
                Effect::ResumeAudio => {
                    self.audio.resume();
                    self.card_runs = true;
                }
                Effect::MuteAudio => {
                    self.audio.pause();
                    self.card_runs = false;
                    self.audio.clear();
                }
                Effect::SetVolume(v) => self.audio.set_volume(v),
                Effect::SetSpeed(_) => {}
            }
        }
        if let Some(c) = batch.seek {
            let target = self.state.seek_target(c);
            // The media goes to the last whole second at or before the place.
            let second = target.as_secs() * 1000;
            self.video_at = second.div_ceil(33) * 33;
            self.audio_at = second;
            self.seeks += 1;
            match self.state.on_seek(c, target, SeekOutcome::Done) {
                SeekFollowUp::Retry => {}
                SeekFollowUp::ClearAudio(there) => {
                    if there {
                        self.audio.clear();
                    }
                }
                SeekFollowUp::RebuildAudio => {
                    self.audio = AudioOutput::new_paused(FORMAT);
                    self.card_runs = false;
                    self.clocks += 1;
                    self.state.on_audio_rebuilt(true);
                }
            }
            return true;
        }
        if self.channel.len() >= FRAME_QUEUE_CAP {
            // The window is slow; the loop would wait.
            return false;
        }
        match self.state.next_step() {
            Step::Idle => false,
            Step::Send(f) => {
                while self.state.wants_audio(self.audio.queued_duration())
                    && self.audio_at < DURATION_MS
                {
                    let pts = self.audio_at;
                    self.audio_at += 20;
                    self.pumped += 1;
                    self.push_sound(pts, false);
                }
                self.channel.push_back((f.pts_us, f.preview, f.frame_gen));
                if self.state.on_sent(f.preview, self.audio.queued_duration()) {
                    self.audio.start();
                    self.card_runs = true;
                }
                true
            }
            Step::Pull => {
                if self.audio_at < self.video_at && self.audio_at < DURATION_MS {
                    let pts = self.audio_at;
                    self.audio_at += 20;
                    self.push_sound(pts, true);
                } else if self.video_at < DURATION_MS {
                    let pts = Duration::from_millis(self.video_at);
                    self.video_at += 33;
                    if let Some(anchor) = self.state.on_video(pts, Some(self.audio.position())) {
                        if let Some(us) = anchor {
                            self.anchor_us = us;
                        }
                        self.state.hold(pts.as_millis() as u64, pts);
                    }
                } else {
                    self.state.on_eof();
                }
                true
            }
        }
    }

    /// Runs the loop until the window has got `n` pictures, or nothing more comes.
    fn consume_frames(&mut self, n: usize) -> usize {
        let mut got = 0;
        for _ in 0..20_000 {
            if got >= n {
                break;
            }
            if self.channel.pop_front().is_some() {
                got += 1;
                self.play(10);
            } else {
                self.round();
            }
        }
        got
    }

    /// Runs the loop ahead of the window, until no more pictures may wait.
    fn run_ahead(&mut self) {
        for _ in 0..2_000 {
            self.round();
        }
        assert_eq!(self.channel.len(), FRAME_QUEUE_CAP);
    }

    /// Waits for one picture.
    fn receive(&mut self) -> Option<(u64, bool, u64)> {
        for _ in 0..2_000 {
            self.round();
            if let Some(f) = self.channel.pop_front() {
                return Some(f);
            }
        }
        None
    }

    /// Throws away what is on its way, and runs the loop for a while. Gives what came.
    fn settle(&mut self) -> Vec<(u64, bool, u64)> {
        let mut seen = Vec::new();
        for _ in 0..2_000 {
            self.round();
            while let Some(f) = self.channel.pop_front() {
                seen.push(f);
            }
        }
        seen
    }
}

#[test]
fn tests_seek_preview_release_keeps_frames_flowing() {
    let mut rig = Rig::new();
    assert!(rig.consume_frames(30) >= 30);
    rig.controller.seek_preview(Duration::from_secs(2));
    rig.controller.seek_release(Duration::from_secs(2));
    assert!(rig.consume_frames(10) >= 10);
}

#[test]
fn tests_rapid_drag_does_not_stall_decode() {
    let mut rig = Rig::new();
    assert!(rig.consume_frames(20) >= 20);
    for i in 0..50 {
        rig.controller
            .seek_preview_at(Duration::from_millis(i * 50), Instant::at_nanos(i * 50_000_000));
    }
    rig.controller.seek_release(Duration::from_millis(2500));
    assert!(rig.consume_frames(10) >= 10);
    // However many seeks there were, one was performed.
    assert_eq!(rig.seeks, 1);
    assert_eq!(rig.state.current_gen, 51);
}

#[test]
fn tests_preview_holds_still_freezes_not_fast_forward() {
    let mut rig = Rig::new();
    assert!(rig.consume_frames(30) >= 30);
    rig.controller.mute_audio();
    rig.controller.seek_preview(Duration::from_secs(4));
    let seen = rig.settle();
    let previews: Vec<_> = seen.iter().filter(|f| f.1).collect();
    assert_eq!(previews.len(), 1);
    assert_eq!(rig.settle(), vec![]);
    rig.controller.seek_release(Duration::from_secs(4));
    assert!(rig.consume_frames(5) >= 5);
}

#[test]
fn main_seek_preview_release_keeps_frames_flowing() {
    let mut rig = Rig::new();
    assert!(rig.consume_frames(30) >= 30);
    rig.controller.seek_preview(Duration::from_secs(2));
    rig.settle();
    rig.controller.seek_release(Duration::from_secs(2));
    assert!(rig.consume_frames(10) >= 10);
}

#[test]
fn main_rapid_drag_does_not_stall_decode() {
    let mut rig = Rig::new();
    assert!(rig.consume_frames(20) >= 20);
    for i in 0..50 {
        rig.controller.seek_preview(Duration::from_millis(i * 50));
    }
    rig.controller.seek_release(Duration::from_millis(2500));
    assert!(rig.consume_frames(10) >= 10);
}

#[test]
fn main_preview_holds_still_freezes_not_fast_forward() {
    let mut rig = Rig::new();
    assert!(rig.consume_frames(30) >= 30);
    rig.run_ahead();
    let target = Duration::from_secs(2);
    rig.controller.mute_audio();
    rig.controller.seek_preview(target);
    assert!(rig.receive().is_some());
    let leaked = rig.settle();
    assert_eq!(rig.settle(), vec![], "the preview freezes");
    let furthest = leaked.iter().map(|f| f.0).max().unwrap_or(0);
    assert!(furthest.saturating_sub(2_000_000) / 1000 <= 600);
    assert!(!leaked.is_empty() || target.as_millis() < 100);
    // What was on its way comes first, and the preview behind it is the last.
    assert_eq!(leaked.iter().filter(|f| f.1).count(), 1);
    assert!(leaked.last().expect("a picture").1);
    rig.controller.seek_release(target);
    assert!(rig.consume_frames(5) >= 5);
}

#[test]
fn pause_stops_frame_flow_then_resume_resumes() {
    let mut rig = Rig::new();
    assert!(rig.consume_frames(20) >= 20);
    rig.controller.pause();
    rig.settle();
    assert_eq!(rig.settle(), vec![]);
    rig.controller.play();
    assert!(rig.consume_frames(5) >= 5);
}

#[test]
fn paused_seek_backward_then_play_keeps_audio_clock_running() {
    let mut rig = Rig::new();
    assert!(rig.consume_frames(30) >= 30);
    rig.controller.pause();
    rig.settle();
    assert_eq!(rig.settle(), vec![]);

    let clocks = rig.clocks;
    let pumped = rig.pumped;
    rig.controller.seek_to(Duration::from_millis(200));
    let shown = rig.settle();
    assert_eq!(shown.len(), 1, "one picture of the place");
    assert_eq!(shown[0].2, 1);
    assert!(shown[0].0 >= 200_000);
    // Nothing was read ahead only to be thrown away.
    assert_eq!(rig.pumped, pumped);
    assert!(!rig.card_runs);

    rig.controller.play();
    let mut progressed = false;
    for _ in 0..5_000 {
        rig.round();
        rig.channel.clear();
        assert!(rig.clocks > clocks);
        rig.play(1);
        if rig.audio.position() >= Duration::from_millis(150) {
            progressed = true;
            break;
        }
    }
    assert!(progressed);
}

#[test]
fn seek_after_end_resumes_playback() {
    let mut rig = Rig::new();
    let all = rig.consume_frames(1_000);
    assert_eq!(all, 304);
    rig.settle();
    assert!(rig.state.finished);
    rig.controller.seek_to(Duration::from_secs(5));
    assert!(rig.consume_frames(10) >= 10);
}

#[test]
fn nothing_before_the_place_is_shown() {
    let mut rig = Rig::new();
    rig.consume_frames(5);
    rig.channel.clear();
    rig.controller.seek_to(Duration::from_millis(5_500));
    for _ in 0..200 {
        rig.round();
    }
    let first = rig.channel.pop_front().expect("a picture");
    assert!(first.0 >= 5_500_000 && first.0 < 5_540_000, "{first:?}");
    assert_eq!(first.2, 1);
    assert_eq!(rig.anchor_us, first.0 as i64);
}

#[test]
fn seeks_stop_before_the_end() {
    let s = Duration::from_secs;
    assert_eq!(seek_clamped(s(5), 10_000_000), s(5));
    assert_eq!(seek_clamped(s(9), 10_000_000), s(9));
    assert_eq!(seek_clamped(Duration::from_millis(9_001), 10_000_000), s(9));
    assert_eq!(seek_clamped(s(500), 10_000_000), s(9));
    assert_eq!(seek_clamped(s(5), 999_999), s(0));
    assert_eq!(seek_clamped(s(5), 0), s(0));
}

#[test]
fn cancelled_seek_changes_nothing() {
    let mut l: DecodeLoop<u8> = DecodeLoop::new(true, 10_000_000);
    l.hold(7, Duration::from_millis(33));
    let c = PlayerCommand::SeekCommit(Duration::from_secs(1), 4);
    let t = l.seek_target(c);
    assert_eq!(
        l.on_seek(c, t, SeekOutcome::Cancelled),
        SeekFollowUp::Retry
    );
    assert_eq!(l.current_gen, 0);
    assert!(l.next_frame.is_some());
    // One that failed counts as done.
    assert_eq!(
        l.on_seek(c, t, SeekOutcome::Failed),
        SeekFollowUp::RebuildAudio
    );
    assert_eq!(l.current_gen, 4);
    assert!(l.next_frame.is_none());
    assert!(l.pending_anchor && l.start_audio);
    assert_eq!(l.video_seek_target, Some(Duration::from_secs(1)));
    assert_eq!(l.audio_seek_target, Some(Duration::from_secs(1)));
}

#[test]
fn commands_have_effects_in_order() {
    let mut l: DecodeLoop<u8> = DecodeLoop::new(true, 10_000_000);
    let cmds = vec![
        PlayerCommand::SetSpeed(SPEED_STEPS[2]),
        PlayerCommand::SeekPreview(Duration::from_secs(1), 1),
        PlayerCommand::Pause,
        PlayerCommand::SetMuted(true),
        PlayerCommand::SetMuted(false),
        PlayerCommand::SeekCommit(Duration::from_secs(2), 2),
        PlayerCommand::MuteAudio,
        PlayerCommand::Resume,
    ];
    let b = l.on_commands(&cmds);
    assert_eq!(
        b.effects,
        vec![
            Effect::SetSpeed(SPEED_STEPS[2]),
            Effect::PauseAudio,
            Effect::SetVolume(0f32.to_bits()),
            Effect::SetVolume(1f32.to_bits()),
            Effect::MuteAudio,
            Effect::ResumeAudio
        ]
    );
    assert_eq!(
        b.seek,
        Some(PlayerCommand::SeekCommit(Duration::from_secs(2), 2))
    );
    assert!(!l.paused);
    assert!(l.start_audio);
    // Without a sound card only the speed has an effect.
    let mut mute: DecodeLoop<u8> = DecodeLoop::new(false, 10_000_000);
    assert_eq!(mute.on_commands(&cmds).effects, vec![Effect::SetSpeed(SPEED_STEPS[2])]);
}

#[test]
fn going_on_during_a_drag_waits_for_its_end() {
    let mut l: DecodeLoop<u8> = DecodeLoop::new(true, 10_000_000);
    l.on_commands(&vec![PlayerCommand::Pause]);
    let c = PlayerCommand::SeekPreview(Duration::from_secs(1), 1);
    let t = l.seek_target(c);
    l.on_seek(c, t, SeekOutcome::Done);
    assert!(l.scrub_paused && l.previewing);
    l.on_commands(&vec![PlayerCommand::Resume]);
    assert!(!l.paused && l.scrub_paused && !l.start_audio);
}

#[test]
fn sound_goes_where_it_belongs() {
    let mut l: DecodeLoop<u8> = DecodeLoop::new(true, 10_000_000);
    let ms = Duration::from_millis;
    assert_eq!(
        l.deliver_audio(ms(0), true),
        AudioFate::Push {
            wait_for_room: true
        }
    );
    assert_eq!(
        l.deliver_audio(ms(0), false),
        AudioFate::Push {
            wait_for_room: false
        }
    );
    l.audio_seek_target = Some(ms(100));
    assert_eq!(l.deliver_audio(ms(99), true), AudioFate::BeforeTarget);
    l.scrub_paused = true;
    assert_eq!(l.deliver_audio(ms(100), true), AudioFate::ScrubPaused);
    assert_eq!(l.audio_seek_target, None);
    assert!(!l.wants_audio(ms(0)));
    l.scrub_paused = false;
    assert!(l.wants_audio(ms(AUDIO_BUFFER_MS - 1)));
    assert!(!l.wants_audio(ms(AUDIO_BUFFER_MS)));
    l.start_audio = true;
    assert_eq!(
        l.deliver_audio(ms(0), true),
        AudioFate::Push {
            wait_for_room: false
        }
    );
    l.on_audio_rebuilt(false);
    assert_eq!(l.deliver_audio(ms(0), true), AudioFate::NoDevice);
    assert!(!l.wants_audio(ms(0)));
}

#[test]
fn card_is_started_with_enough_sound() {
    let mut l: DecodeLoop<u8> = DecodeLoop::new(true, 10_000_000);
    l.start_audio = true;
    assert!(!l.on_sent(false, Duration::from_millis(79)));
    assert!(l.start_audio);
    assert!(l.on_sent(false, Duration::from_millis(80)));
    assert!(!l.start_audio);
    assert!(!l.on_sent(false, Duration::from_millis(80)));
}

#[test]
fn anchor_is_picture_minus_sound() {
    let mut l: DecodeLoop<u8> = DecodeLoop::new(true, 10_000_000);
    l.pending_anchor = true;
    assert_eq!(
        l.on_video(Duration::from_secs(5), Some(Duration::from_millis(300))),
        Some(Some(4_700_000))
    );
    assert_eq!(
        l.on_video(Duration::from_secs(5), Some(Duration::from_millis(300))),
        Some(None)
    );
    l.pending_anchor = true;
    assert_eq!(
        l.on_video(Duration::from_millis(100), Some(Duration::from_millis(300))),
        Some(Some(-200_000))
    );
    l.pending_anchor = true;
    assert_eq!(
        l.on_video(Duration::from_millis(100), None),
        Some(Some(100_000))
    );
    l.video_seek_target = Some(Duration::from_secs(1));
    assert_eq!(l.on_video(Duration::from_millis(999), None), None);
}

#[test]
fn failures_are_told_apart() {
    assert_eq!(
        on_read_failure(ReadFailure::Cancelled),
        ReadFollowUp::ReadCommands
    );
    assert_eq!(
        on_read_failure(ReadFailure::InvalidData),
        ReadFollowUp::Skip
    );
    assert_eq!(on_read_failure(ReadFailure::Other), ReadFollowUp::Stop);
}

#[test]
fn pictures_are_never_given_up_for_want_of_room() {
    assert_eq!(send_blocking(TrySend::Sent, true), SendStep::Done);
    assert_eq!(send_blocking(TrySend::Full, true), SendStep::Again);
    assert_eq!(send_blocking(TrySend::Full, false), SendStep::Stop);
    assert_eq!(send_blocking(TrySend::Closed, true), SendStep::Stop);
}

#[test]
fn end_lets_the_sound_be_heard() {
    assert_eq!(drain_audio(true, true, 5), DrainStep::Start);
    assert_eq!(drain_audio(true, false, 5), DrainStep::Wait);
    assert_eq!(drain_audio(true, false, 0), DrainStep::Done);
    assert_eq!(drain_audio(false, false, 5), DrainStep::Done);
}

#[test]
fn time_of_the_loop_is_reported() {
    let mut acc = Acc::new();
    let ms = |n: u64| Instant::at_nanos(n * 1_000_000);
    let d = Duration::from_millis;
    assert_eq!(next_event_done(&mut acc, d(30), ms(10)), None);
    assert_eq!(send_blocked(&mut acc, d(7), ms(20)), None);
    pump_chunk(&mut acc);
    arm_chunk(&mut acc);
    arm_chunk(&mut acc);
    audio_dropped(&mut acc);
    audio_chunk(&mut acc, d(500));
    // 2 048 samples of two channels at 48 000 a second are 21.3 milliseconds.
    assert_eq!(audio_pushed(&mut acc, 2048, 2, 48_000, d(120), ms(30)), None);
    assert_eq!(audio_pushed(&mut acc, 2048, 2, 48_000, d(90), ms(1_999)), None);
    assert_eq!(
        maybe_report(&mut acc, ms(2_000)),
        Some(Report {
            next_event_ms: 30,
            send_blocked_ms: 7,
            audio_pushed_ms: 42,
            card_consumed_ms: 500,
            audio_queued_peak_ms: 120,
            pump_chunks: 1,
            arm_chunks: 2,
            dropped: 1,
            events: 1,
        })
    );
    audio_chunk(&mut acc, d(800));
    let second = next_event_done(&mut acc, d(1), ms(4_000)).expect("a report");
    assert_eq!(second.card_consumed_ms, 300);
    assert_eq!(second.events, 2);
    assert_eq!(second.pump_chunks, 0);
}

#[test]
fn sound_without_a_rate_never_ends() {
    let ms = |ms: u64| Instant::at_nanos(ms * 1_000_000);
    let mut acc = Acc::new();
    let none = Duration::zero();
    assert_eq!(audio_pushed(&mut acc, 0, 2, 0, none, ms(1)), None);
    let r = maybe_report(&mut acc, ms(2_000)).expect("a report");
    assert_eq!(r.audio_pushed_ms, 0);
    assert_eq!(audio_pushed(&mut acc, 1, 2, 0, none, ms(2_001)), None);
    let r = maybe_report(&mut acc, ms(4_000)).expect("a report");
    assert_eq!(r.audio_pushed_ms, u64::MAX / 10);
    // As long as the counter reaches: more samples than it can hold tenths of milliseconds.
    assert_eq!(audio_pushed(&mut acc, usize::MAX, 0, 1, none, ms(4_001)), None);
    let r = maybe_report(&mut acc, ms(6_000)).expect("a report");
    assert_eq!(r.audio_pushed_ms, u64::MAX / 10);
}

#[test]
fn committed_seek_shows_only_what_lies_behind_it() {
    let mut rig = Rig::new();
    assert!(rig.consume_frames(30) >= 30);
    rig.controller.seek_to(Duration::from_millis(3_500));
    let mut seen = Vec::new();
    for i in 0..3_000 {
        if i == 500 {
            rig.controller.pause();
        }
        if i == 600 {
            rig.controller.play();
        }
        rig.round();
        rig.play(1);
        seen.extend(rig.channel.pop_front());
    }
    let behind: Vec<_> = seen.iter().filter(|f| f.2 == 1).collect();
    assert!(behind.len() > 50);
    for f in behind {
        assert!(!f.1 && f.0 >= 3_500_000, "{f:?}");
    }
}

#[test]
fn sound_returns_when_the_picture_of_a_paused_seek_is_out() {
    let mut rig = Rig::new();
    assert!(rig.consume_frames(30) >= 30);
    rig.controller.pause();
    rig.settle();
    rig.controller.seek_to(Duration::from_secs(5));
    assert_eq!(rig.settle().len(), 1);
    assert_eq!(rig.audio.queued_frames(), 0);
    assert!(!rig.state.start_audio);
    rig.controller.play();
    rig.settle();
    assert!(rig.card_runs);
    assert!(!rig.state.start_audio);
}
