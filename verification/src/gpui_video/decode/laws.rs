//! What holds of single steps of the loop that decodes, in terms of what it remembers before and
//! after.

use crate::gpui_video::controller::PlayerCommand;
use crate::gpui_video::decode::audio::{
    after_sound, fate_of, AudioFate, AUDIO_BACKOFF_MS, AUDIO_BUFFER_MS, AUDIO_START_MIN_MS,
};
use crate::gpui_video::decode::video::SEND_BACKOFF_MS;
use crate::gpui_video::decode::{
    after_command, after_commands, after_handed, after_seek, after_sent, after_video,
    before_target, clamped_us, effect_of, effects_of, held, is_idle, is_seek, latest_seek,
    seek_number, seek_time, starts_audio, DecodeLoop, Effect, FRAME_QUEUE_CAP, IDLE_MS,
};
use crate::time::Duration;
use vstd::prelude::*;

verus! {

/// A seek goes to where it was asked to go unless that is less than a second before the end of the
/// media or behind it: it then goes to a second before the end. In a media that is shorter than a
/// second it goes to the start.
pub proof fn law_seek_keeps_a_second_from_the_end(us: int, duration_us: int)
    requires
        0 <= us,
        0 <= duration_us,
    ensures
        us + 1_000_000 <= duration_us ==> clamped_us(us, duration_us) == us,
        1_000_000 <= duration_us <= us + 1_000_000 ==> clamped_us(us, duration_us) + 1_000_000
            == duration_us,
        duration_us < 1_000_000 ==> clamped_us(us, duration_us) == 0,
{
}

/// With a sound card each command that is no seek has exactly one effect, its own; without one only
/// the speed has.
pub proof fn law_commands_take_effect(muted: bool, speed: u64, t: Duration, number: u64)
    ensures
        effect_of(PlayerCommand::Pause, true) == seq![Effect::PauseAudio],
        effect_of(PlayerCommand::Resume, true) == seq![Effect::ResumeAudio],
        effect_of(PlayerCommand::MuteAudio, true) == seq![Effect::MuteAudio],
        effect_of(PlayerCommand::SetMuted(true), true) == seq![Effect::SetVolume(0)],
        effect_of(PlayerCommand::SetMuted(false), true) == seq![Effect::SetVolume(0x3f80_0000)],
        forall|audio: bool| #[trigger]
            effect_of(PlayerCommand::SetSpeed(speed), audio) == seq![Effect::SetSpeed(speed)],
        effect_of(PlayerCommand::Pause, false).len() == 0,
        effect_of(PlayerCommand::Resume, false).len() == 0,
        effect_of(PlayerCommand::MuteAudio, false).len() == 0,
        effect_of(PlayerCommand::SetMuted(muted), false).len() == 0,
        forall|audio: bool| #[trigger]
            effect_of(PlayerCommand::SeekPreview(t, number), audio).len() == 0,
        forall|audio: bool| #[trigger]
            effect_of(PlayerCommand::SeekCommit(t, number), audio).len() == 0,
{
}

/// It makes no difference how the commands are cut into batches: the effects, and what the loop
/// remembers, are those of all of them in their order.
pub proof fn law_batches_add_up<F>(
    s: DecodeLoop<F>,
    first: Seq<PlayerCommand>,
    second: Seq<PlayerCommand>,
    audio: bool,
)
    ensures
        effects_of(first + second, audio) == effects_of(first, audio) + effects_of(second, audio),
        after_commands(s, first + second) == after_commands(after_commands(s, first), second),
        latest_seek(first + second) == (if latest_seek(second) is Some {
            latest_seek(second)
        } else {
            latest_seek(first)
        }),
    decreases second.len(),
{
    let all = first + second;
    if second.len() == 0 {
        assert(all =~= first);
        assert(effects_of(first, audio) + effects_of(second, audio) =~= effects_of(first, audio));
    } else {
        law_batches_add_up(s, first, second.drop_last(), audio);
        assert(all.drop_last() =~= first + second.drop_last());
        assert(all.last() == second.last());
        assert(effects_of(all, audio) =~= effects_of(first, audio) + effects_of(second, audio));
    }
}

/// Of some commands the last seek is left: it is one of them, a seek, and no seek stands behind it.
/// Where none is left there was none.
pub proof fn law_last_seek_is_left(cmds: Seq<PlayerCommand>)
    ensures
        latest_seek(cmds) is Some ==> exists|i: int|
            {
                &&& 0 <= i < cmds.len()
                &&& #[trigger] cmds[i] == latest_seek(cmds)->0
                &&& cmds[i] is SeekPreview || cmds[i] is SeekCommit
                &&& forall|j: int|
                    i < j < cmds.len() ==> !((#[trigger] cmds[j]) is SeekPreview || cmds[j]
                        is SeekCommit)
            },
        latest_seek(cmds) is None ==> forall|j: int|
            0 <= j < cmds.len() ==> !((#[trigger] cmds[j]) is SeekPreview || cmds[j]
                is SeekCommit),
    decreases cmds.len(),
{
    if cmds.len() > 0 {
        let head = cmds.drop_last();
        if is_seek(cmds.last()) {
            assert(cmds[cmds.len() - 1] == latest_seek(cmds)->0);
        } else {
            law_last_seek_is_left(head);
            if latest_seek(cmds) is Some {
                let i = choose|i: int|
                    {
                        &&& 0 <= i < head.len()
                        &&& #[trigger] head[i] == latest_seek(head)->0
                        &&& head[i] is SeekPreview || head[i] is SeekCommit
                        &&& forall|j: int|
                            i < j < head.len() ==> !((#[trigger] head[j]) is SeekPreview || head[j]
                                is SeekCommit)
                    };
                assert(cmds[i] == latest_seek(cmds)->0);
                assert forall|j: int| i < j < cmds.len() implies !((#[trigger] cmds[j])
                    is SeekPreview || cmds[j] is SeekCommit) by {
                    if j < head.len() {
                        assert(cmds[j] == head[j]);
                    }
                }
            } else {
                assert forall|j: int| 0 <= j < cmds.len() implies !((#[trigger] cmds[j])
                    is SeekPreview || cmds[j] is SeekCommit) by {
                    if j < head.len() {
                        assert(cmds[j] == head[j]);
                    }
                }
            }
        }
    }
}

/// Time and number of a seek are those that it was asked with.
pub proof fn law_seeks_carry_time_and_number(t: Duration, number: u64)
    ensures
        is_seek(PlayerCommand::SeekPreview(t, number)),
        is_seek(PlayerCommand::SeekCommit(t, number)),
        seek_time(PlayerCommand::SeekPreview(t, number)) == t,
        seek_time(PlayerCommand::SeekCommit(t, number)) == t,
        seek_number(PlayerCommand::SeekPreview(t, number)) == number,
        seek_number(PlayerCommand::SeekCommit(t, number)) == number,
        !is_seek(PlayerCommand::Pause),
        !is_seek(PlayerCommand::Resume),
        !is_seek(PlayerCommand::MuteAudio),
        forall|m: bool| !(#[trigger] is_seek(PlayerCommand::SetMuted(m))),
        forall|speed: u64| !(#[trigger] is_seek(PlayerCommand::SetSpeed(speed))),
{
}

/// A pause pauses and changes nothing else. Going on ends the pause; outside a drag it also ends the
/// wait for the picture of a seek and has the sound card started. No other command changes what the
/// loop remembers.
pub proof fn law_commands_change_the_pause<F>(s: DecodeLoop<F>, c: PlayerCommand)
    ensures
        ({
            let after = after_command(s, c);
            &&& c == PlayerCommand::Pause ==> after == (DecodeLoop { paused: true, ..s })
            &&& c == PlayerCommand::Resume ==> {
                &&& !after.paused
                &&& s.previewing ==> after.scrub_paused == s.scrub_paused && after.start_audio
                    == s.start_audio
                &&& !s.previewing ==> !after.scrub_paused && after.start_audio
                &&& after == (DecodeLoop {
                    paused: false,
                    scrub_paused: after.scrub_paused,
                    start_audio: after.start_audio,
                    ..s
                })
            }
            &&& c != PlayerCommand::Pause && c != PlayerCommand::Resume ==> after == s
        }),
{
}

/// A seek that was not given up forgets the picture that waited and the end of the media, takes over
/// the number, and lets a picture through even in a pause. For a preview a drag goes on, and no
/// picture is too early; where the sound begins is left open. For any other seek the drag is over,
/// pictures and sound before the target are too early, the next picture tells where the clock starts,
/// and the sound card is to be started unless playing is paused.
pub proof fn law_seek_sets_the_stage<F>(
    s: DecodeLoop<F>,
    t: Duration,
    number: u64,
    target: Duration,
)
    ensures
        ({
            let preview = after_seek(s, PlayerCommand::SeekPreview(t, number), target);
            let commit = after_seek(s, PlayerCommand::SeekCommit(t, number), target);
            &&& preview.current_gen == number && commit.current_gen == number
            &&& !preview.finished && !commit.finished
            &&& preview.next_frame is None && commit.next_frame is None
            &&& !preview.preview_stall && !commit.preview_stall
            &&& preview.scrub_paused == (s.scrub_paused || s.paused)
            &&& commit.scrub_paused == (s.scrub_paused || s.paused)
            &&& preview.paused == s.paused && commit.paused == s.paused
            &&& preview.audio == s.audio && commit.audio == s.audio
            &&& preview.duration_us == s.duration_us && commit.duration_us == s.duration_us
            &&& preview.previewing && !commit.previewing
            &&& preview.video_seek_target is None
            &&& commit.video_seek_target == Some(target)
            &&& preview.audio_seek_target == s.audio_seek_target
            &&& commit.audio_seek_target == Some(target)
            &&& preview.pending_anchor == s.pending_anchor && commit.pending_anchor
            &&& preview.start_audio == s.start_audio && commit.start_audio == !s.paused
        }),
{
}

/// The loop waits for a command exactly where the picture of a drag is out, where playing is paused
/// and no picture of a seek is wanted, and at the end of the media.
pub proof fn law_when_the_loop_waits<F>(s: DecodeLoop<F>)
    ensures
        s.finished ==> is_idle(s),
        s.paused && !s.scrub_paused ==> is_idle(s),
        s.previewing && s.preview_stall ==> is_idle(s),
        !s.finished && (!s.paused || s.scrub_paused) && !(s.previewing && s.preview_stall)
            ==> !is_idle(s),
{
}

/// Once a picture was sent no picture of a seek is wanted any more; a preview that was sent during a
/// drag holds the loop; a sound card that was started is not to be started again.
pub proof fn law_sending_settles<F>(s: DecodeLoop<F>, preview: bool, start: bool)
    ensures
        ({
            let after = after_sent(s, preview, start);
            &&& !after.scrub_paused
            &&& after.preview_stall <==> s.preview_stall || (preview && s.previewing)
            &&& after.start_audio <==> s.start_audio && !start
            &&& after == (DecodeLoop {
                preview_stall: after.preview_stall,
                scrub_paused: false,
                start_audio: after.start_audio,
                ..s
            })
        }),
        after_handed(s) == (DecodeLoop { next_frame: None, ..s }),
{
}

/// A picture before the place that was sought changes nothing; the first one at or behind it ends the
/// search, and settles where the clock starts. Without a search every picture counts.
pub proof fn law_first_picture_ends_the_search<F>(s: DecodeLoop<F>, target: Duration, pts: Duration)
    ensures
        s.video_seek_target == Some(target) && pts@ < target@ ==> {
            &&& before_target(s.video_seek_target, pts)
            &&& after_video(s, pts) == s
        },
        s.video_seek_target is None || (s.video_seek_target == Some(target) && pts@ >= target@)
            ==> {
            &&& !before_target(s.video_seek_target, pts)
            &&& after_video(s, pts).video_seek_target is None
            &&& !after_video(s, pts).pending_anchor
            &&& after_video(s, pts) == (DecodeLoop {
                video_seek_target: None,
                pending_anchor: false,
                ..s
            })
        },
{
}

/// A picture is kept with its own time, in whole microseconds, with whether a drag goes on, and with
/// the number of the last seek.
pub proof fn law_pictures_are_kept_with_their_time<F>(s: DecodeLoop<F>, image: F, pts: Duration)
    ensures
        held(s, image, pts).image == image,
        held(s, image, pts).preview == s.previewing,
        held(s, image, pts).frame_gen == s.current_gen,
        pts@ < 0x1_0000_0000_0000_0000 * 1000 ==> held(s, image, pts).pts_us * 1000 <= pts@ < (held(
            s,
            image,
            pts,
        ).pts_us + 1) * 1000,
{
}

/// The sound card is started when it is to be, is there, and at least 80 milliseconds of sound wait.
pub proof fn law_sound_starts_with_enough<F>(s: DecodeLoop<F>, queued: Duration)
    ensures
        s.start_audio && s.audio && queued@ >= 80_000_000 ==> starts_audio(s, queued),
        !s.start_audio || !s.audio || queued@ < 80_000_000 ==> !starts_audio(s, queued),
{
}

/// Sound before the place that was sought is thrown away, and so is any while only a picture is
/// wanted; the rest goes to the card where there is one. It waits for room only while the card plays
/// and nothing is dragged.
pub proof fn law_where_sound_goes<F>(
    s: DecodeLoop<F>,
    target: Duration,
    pts: Duration,
    backpressure: bool,
)
    ensures
        ({
            let fate = fate_of(s, pts, backpressure);
            let early = s.audio_seek_target == Some(target) && pts@ < target@;
            let late = s.audio_seek_target is None || (s.audio_seek_target == Some(target) && pts@
                >= target@);
            &&& early ==> fate == AudioFate::BeforeTarget && after_sound(s, pts) == s
            &&& late ==> after_sound(s, pts) == (DecodeLoop { audio_seek_target: None, ..s })
            &&& late && s.scrub_paused ==> fate == AudioFate::ScrubPaused
            &&& late && !s.scrub_paused && !s.audio ==> fate == AudioFate::NoDevice
            &&& late && !s.scrub_paused && s.audio ==> fate is Push
            &&& fate matches AudioFate::Push { wait_for_room } ==> (wait_for_room <==> backpressure
                && !s.start_audio && !s.previewing)
        }),
{
}

/// The limits: twelve pictures may wait, and four tenths of a second of sound; a fifth of that is
/// enough to start with. The pauses between two looks are short.
pub proof fn law_limits()
    ensures
        FRAME_QUEUE_CAP == 12,
        AUDIO_BUFFER_MS * 10 == 4000,
        AUDIO_START_MIN_MS * 5 == AUDIO_BUFFER_MS,
        AUDIO_BACKOFF_MS == 5,
        SEND_BACKOFF_MS == 2,
        IDLE_MS == 8,
{
}

/// A batch of one command does what the command does; an empty one does nothing.
pub proof fn law_single_commands<F>(s: DecodeLoop<F>, c: PlayerCommand, audio: bool)
    ensures
        effects_of(Seq::empty(), audio).len() == 0,
        effects_of(seq![c], audio) == effect_of(c, audio),
        after_commands(s, Seq::empty()) == s,
        after_commands(s, seq![c]) == after_command(s, c),
        latest_seek(Seq::empty()) is None,
{
    let one = seq![c];
    assert(one.drop_last() =~= Seq::<PlayerCommand>::empty());
    assert(one.last() == c);
    assert(effects_of(one.drop_last(), audio) =~= Seq::<Effect>::empty());
    assert(effects_of(one, audio) =~= effect_of(c, audio));
    assert(after_commands(s, one.drop_last()) == s);
}

} // verus!
