//! What holds of the loop over any number of rounds.

use crate::gpui_video::controller::PlayerCommand;
use crate::gpui_video::decode::audio::{after_sound, fate_of, AudioFate, AUDIO_START_MIN_MS};
use crate::gpui_video::decode::{
    after_command, after_commands, after_handed, after_seek, after_sent, after_video,
    before_target, clamped_us, held, is_idle, is_seek, latest_seek, law_commands_only_pause,
    law_last_seek_wins, starts_audio, DecodeLoop, HeldFrame,
};
use crate::time::{wrap_u64, Duration};
use vstd::prelude::*;

verus! {

/// Something that happens to the loop, other than a seek.
pub enum Event<F> {
    /// Commands came, without a seek among them.
    Commands(Seq<PlayerCommand>),
    /// The sound card was opened anew, or could not be.
    Rebuilt(bool),
    /// The picture that waits is handed out to be sent.
    Handed(HeldFrame<F>),
    /// Sound was decoded.
    Sound { pts: Duration, backpressure: bool },
    /// The picture that was handed out was sent, with so much sound waiting.
    Sent { queued: Duration },
    /// A picture was decoded.
    Picture { image: F, pts: Duration },
    /// The media came to its end.
    End,
}

/// The loop, and the picture that was handed out and is not sent yet.
pub struct Round<F> {
    pub state: DecodeLoop<F>,
    pub out: Option<HeldFrame<F>>,
}

/// The loop reads the next unit of the media.
pub open spec fn is_pulling<F>(a: Round<F>) -> bool {
    !is_idle(a.state) && a.state.next_frame is None && a.out is None
}

/// The event `e` leads from `a` to `b`. Only while the loop is not idle is anything read from the
/// media or handed out; while a picture is on its way, sound is read only where it is wanted.
pub open spec fn step<F>(a: Round<F>, e: Event<F>, b: Round<F>) -> bool {
    let s = a.state;
    match e {
        Event::Commands(cmds) => {
            &&& a.out is None
            &&& latest_seek(cmds) is None
            &&& b == (Round { state: after_commands(s, cmds), out: None })
        },
        Event::Rebuilt(opened) => {
            &&& a.out is None
            &&& b == (Round { state: DecodeLoop { audio: opened, ..s }, out: None })
        },
        Event::Handed(f) => {
            &&& a.out is None
            &&& !is_idle(s)
            &&& s.next_frame == Some(f)
            &&& b == (Round { state: after_handed(s), out: Some(f) })
        },
        Event::Sound { pts, backpressure } => {
            &&& is_pulling(a) || (a.out is Some && s.audio && !s.scrub_paused)
            &&& b == (Round { state: after_sound(s, pts), ..a })
        },
        Event::Sent { queued } => {
            &&& a.out matches Some(f)
            &&& b == (Round {
                state: after_sent(s, f.preview, starts_audio(s, queued)),
                out: None,
            })
        },
        Event::Picture { image, pts } => {
            &&& is_pulling(a)
            &&& b == (Round {
                state: if before_target(s.video_seek_target, pts) {
                    after_video(s, pts)
                } else {
                    DecodeLoop {
                        next_frame: Some(held(after_video(s, pts), image, pts)),
                        ..after_video(s, pts)
                    }
                },
                out: None,
            })
        },
        Event::End => {
            &&& is_pulling(a)
            &&& b == (Round { state: DecodeLoop { finished: true, ..s }, out: None })
        },
    }
}

/// The event with the number `i` leads from one of the rounds to the next.
pub open spec fn step_at<F>(rounds: Seq<Round<F>>, events: Seq<Event<F>>, i: int) -> bool {
    step(rounds[i], events[i], rounds[i + 1])
}

/// The events lead through the rounds.
pub open spec fn is_run<F>(rounds: Seq<Round<F>>, events: Seq<Event<F>>) -> bool {
    &&& rounds.len() == events.len() + 1
    &&& forall|i: int| 0 <= i < events.len() ==> #[trigger] step_at(rounds, events, i)
}

/// The run begins with the loop as it is after a seek.
pub open spec fn begins_with_seek<F>(
    rounds: Seq<Round<F>>,
    s: DecodeLoop<F>,
    c: PlayerCommand,
    target: Duration,
) -> bool {
    rounds[0] == (Round { state: after_seek(s, c, target), out: None })
}

/// No command comes.
pub open spec fn undisturbed<F>(events: Seq<Event<F>>) -> bool {
    forall|i: int| 0 <= i < events.len() ==> !(#[trigger] events[i] is Commands)
}

/// Once the media has brought a picture of the place, it brings none that comes before it.
pub open spec fn pictures_stay_behind<F>(events: Seq<Event<F>>, target: Duration) -> bool {
    forall|i: int, j: int|
        0 <= i < j < events.len() ==> (#[trigger] events[i] matches Event::Picture {
            pts: first,
            ..
        } ==> (#[trigger] events[j] matches Event::Picture { pts: later, .. } ==> (first@
            >= target@ ==> later@ >= target@)))
}

/// Once the media has brought sound of the place, it brings none that comes before it.
pub open spec fn sound_stays_behind<F>(events: Seq<Event<F>>, target: Duration) -> bool {
    forall|i: int, j: int|
        0 <= i < j < events.len() ==> (#[trigger] events[i] matches Event::Sound {
            pts: first,
            ..
        } ==> (#[trigger] events[j] matches Event::Sound { pts: later, .. } ==> (first@
            >= target@ ==> later@ >= target@)))
}

/// The picture with the number `i`, where the event is one, comes at or behind the place.
spec fn picture_reached<F>(events: Seq<Event<F>>, target: Duration, i: int) -> bool {
    events[i] matches Event::Picture { pts, .. } && pts@ >= target@
}

/// The sound with the number `i`, where the event is some, comes at or behind the place.
spec fn sound_reached<F>(events: Seq<Event<F>>, target: Duration, i: int) -> bool {
    events[i] matches Event::Sound { pts, .. } && pts@ >= target@
}

/// The picture belongs to the seek with the number `number`, and to the place or behind it.
pub open spec fn is_of_the_place<F>(f: HeldFrame<F>, number: u64, target: Duration) -> bool {
    &&& !f.preview
    &&& f.frame_gen == number
    &&& f.pts_us * 1000 >= target@
}

proof fn lemma_after_commit<F>(
    rounds: Seq<Round<F>>,
    events: Seq<Event<F>>,
    s: DecodeLoop<F>,
    t: Duration,
    number: u64,
    target: Duration,
    n: nat,
)
    requires
        is_run(rounds, events),
        begins_with_seek(rounds, s, PlayerCommand::SeekCommit(t, number), target),
        target@ % 1000 == 0,
        pictures_stay_behind(events, target),
        forall|i: int|
            0 <= i < events.len() ==> (#[trigger] events[i] matches Event::Picture { pts, .. }
                ==> pts@ / 1000 <= u64::MAX),
        n < rounds.len(),
    ensures
        ({
            let a = rounds[n as int].state;
            &&& !a.previewing
            &&& a.current_gen == number
            &&& a.next_frame matches Some(f) ==> is_of_the_place(f, number, target)
            &&& a.video_seek_target == Some(target) || (a.video_seek_target is None
                && exists|i: int| 0 <= i < n && #[trigger] picture_reached(events, target, i))
        }),
    decreases n,
{
    if n > 0 {
        let m = n - 1;
        lemma_after_commit(rounds, events, s, t, number, target, m as nat);
        assert(step_at(rounds, events, m));
        let a = rounds[m].state;
        let e = events[m];
        match e {
            Event::Commands(cmds) => {
                law_commands_only_pause(a, cmds);
            },
            Event::Picture { image, pts } => {
                if a.video_seek_target is None {
                    let i = choose|i: int|
                        0 <= i < m && #[trigger] picture_reached(events, target, i);
                    assert(events[i] is Picture && events[m] is Picture);
                }
                if !before_target(a.video_seek_target, pts) {
                    assert(pts@ >= target@);
                    assert(picture_reached(events, target, m));
                }
            },
            _ => {},
        }
        if a.video_seek_target is None {
            let i = choose|i: int| 0 <= i < m && #[trigger] picture_reached(events, target, i);
            assert(picture_reached(events, target, i));
        }
    }
}

/// After a seek to a place, as long as no other seek comes, whatever else does: every picture that
/// is sent is of that place or behind it, none is a preview, and each carries the number of that
/// seek. The media is only asked not to go back before the place once it has reached it.
pub proof fn law_only_pictures_of_the_place<F>(
    rounds: Seq<Round<F>>,
    events: Seq<Event<F>>,
    s: DecodeLoop<F>,
    t: Duration,
    number: u64,
    target: Duration,
)
    requires
        is_run(rounds, events),
        begins_with_seek(rounds, s, PlayerCommand::SeekCommit(t, number), target),
        target@ == clamped_us(wrap_u64((t@ / 1000) as int), s.duration_us as int) * 1000,
        pictures_stay_behind(events, target),
        forall|i: int|
            0 <= i < events.len() ==> (#[trigger] events[i] matches Event::Picture { pts, .. }
                ==> pts@ / 1000 <= u64::MAX),
    ensures
        forall|i: int|
            0 <= i < events.len() ==> (#[trigger] events[i] matches Event::Handed(f)
                ==> is_of_the_place(f, number, target)),
{
    assert forall|i: int| 0 <= i < events.len() implies (#[trigger] events[i] matches Event::Handed(
        f,
    ) ==> is_of_the_place(f, number, target)) by {
        lemma_after_commit(rounds, events, s, t, number, target, i as nat);
        assert(step_at(rounds, events, i));
    }
}

/// Of a batch of commands only the last seek is performed. Where that one takes up a place, and no
/// command comes behind it, what is sent from then on is of that place, and while playing is
/// paused it is one picture at most.
pub proof fn law_last_seek_of_a_batch_decides<F>(
    rounds: Seq<Round<F>>,
    events: Seq<Event<F>>,
    s: DecodeLoop<F>,
    before: Seq<PlayerCommand>,
    t: Duration,
    number: u64,
    after: Seq<PlayerCommand>,
    target: Duration,
)
    requires
        forall|i: int| 0 <= i < after.len() ==> !is_seek(#[trigger] after[i]),
        is_run(rounds, events),
        begins_with_seek(
            rounds,
            after_commands(s, before.push(PlayerCommand::SeekCommit(t, number)) + after),
            PlayerCommand::SeekCommit(t, number),
            target,
        ),
        target@ == clamped_us(wrap_u64((t@ / 1000) as int), s.duration_us as int) * 1000,
        pictures_stay_behind(events, target),
        undisturbed(events),
        forall|i: int|
            0 <= i < events.len() ==> (#[trigger] events[i] matches Event::Picture { pts, .. }
                ==> pts@ / 1000 <= u64::MAX),
    ensures
        latest_seek(before.push(PlayerCommand::SeekCommit(t, number)) + after) == Some(
            PlayerCommand::SeekCommit(t, number),
        ),
        forall|i: int|
            0 <= i < events.len() ==> (#[trigger] events[i] matches Event::Handed(f)
                ==> is_of_the_place(f, number, target)),
        after_commands(s, before.push(PlayerCommand::SeekCommit(t, number)) + after).paused
            ==> handed_out(events, events.len()) <= 1,
{
    let c = PlayerCommand::SeekCommit(t, number);
    let cmds = before.push(c) + after;
    let taken = after_commands(s, cmds);
    law_last_seek_wins(before, c, after);
    law_commands_only_pause(s, cmds);
    law_only_pictures_of_the_place(rounds, events, taken, t, number, target);
    if taken.paused {
        law_paused_seek_stays_paused(rounds, events, taken, t, number, target);
    }
}

proof fn lemma_sound_after_commit<F>(
    rounds: Seq<Round<F>>,
    events: Seq<Event<F>>,
    s: DecodeLoop<F>,
    t: Duration,
    number: u64,
    target: Duration,
    n: nat,
)
    requires
        is_run(rounds, events),
        begins_with_seek(rounds, s, PlayerCommand::SeekCommit(t, number), target),
        n < rounds.len(),
    ensures
        ({
            let a = rounds[n as int].state;
            a.audio_seek_target == Some(target) || (a.audio_seek_target is None && exists|i: int|
                0 <= i < n && #[trigger] sound_reached(events, target, i))
        }),
    decreases n,
{
    if n > 0 {
        let m = n - 1;
        lemma_sound_after_commit(rounds, events, s, t, number, target, m as nat);
        assert(step_at(rounds, events, m));
        let a = rounds[m].state;
        match events[m] {
            Event::Commands(cmds) => {
                law_commands_only_pause(a, cmds);
            },
            Event::Sound { pts, .. } => {
                if !before_target(a.audio_seek_target, pts) && a.audio_seek_target is Some {
                    assert(sound_reached(events, target, m));
                }
            },
            _ => {},
        }
        if a.audio_seek_target is None {
            let i = choose|i: int| 0 <= i < m && #[trigger] sound_reached(events, target, i);
            assert(sound_reached(events, target, i));
        }
    }
}

/// After a seek to a place, as long as no other seek comes, nothing is heard from before it. The
/// media is only asked not to go back before the place once it has reached it.
pub proof fn law_only_sound_of_the_place<F>(
    rounds: Seq<Round<F>>,
    events: Seq<Event<F>>,
    s: DecodeLoop<F>,
    t: Duration,
    number: u64,
    target: Duration,
)
    requires
        is_run(rounds, events),
        begins_with_seek(rounds, s, PlayerCommand::SeekCommit(t, number), target),
        sound_stays_behind(events, target),
    ensures
        forall|i: int|
            0 <= i < events.len() ==> (#[trigger] events[i] matches Event::Sound {
                pts,
                backpressure,
            } ==> (fate_of(rounds[i].state, pts, backpressure) is Push ==> pts@ >= target@)),
{
    assert forall|i: int| 0 <= i < events.len() implies (#[trigger] events[i] matches Event::Sound {
        pts,
        backpressure,
    } ==> (fate_of(rounds[i].state, pts, backpressure) is Push ==> pts@ >= target@)) by {
        lemma_sound_after_commit(rounds, events, s, t, number, target, i as nat);
        if rounds[i].state.audio_seek_target is None {
            let k = choose|k: int| 0 <= k < i && #[trigger] sound_reached(events, target, k);
            assert(events[k] is Sound);
        }
    }
}

/// How many of the first `n` events hand out a picture.
pub open spec fn handed_out<F>(events: Seq<Event<F>>, n: nat) -> nat
    decreases n,
{
    if n == 0 {
        0
    } else {
        handed_out(events, (n - 1) as nat) + if events[n - 1] is Handed {
            1nat
        } else {
            0nat
        }
    }
}

proof fn lemma_paused_seek<F>(
    rounds: Seq<Round<F>>,
    events: Seq<Event<F>>,
    s: DecodeLoop<F>,
    t: Duration,
    number: u64,
    target: Duration,
    n: nat,
)
    requires
        s.paused,
        is_run(rounds, events),
        begins_with_seek(rounds, s, PlayerCommand::SeekCommit(t, number), target),
        undisturbed(events),
        n < rounds.len(),
    ensures
        ({
            let a = rounds[n as int];
            &&& a.state.paused
            &&& !a.state.previewing
            &&& !a.state.start_audio
            &&& a.out is Some ==> a.state.scrub_paused
            &&& handed_out(events, n) <= 1
            &&& handed_out(events, n) == 0 ==> a.out is None
            &&& handed_out(events, n) == 1 ==> a.out is Some || !a.state.scrub_paused
        }),
    decreases n,
{
    if n > 0 {
        lemma_paused_seek(rounds, events, s, t, number, target, (n - 1) as nat);
        assert(step_at(rounds, events, n - 1));
        assert(!(events[n - 1] is Commands));
    }
}

proof fn lemma_handed_counts<F>(events: Seq<Event<F>>, i: int, n: nat)
    requires
        0 <= i < n <= events.len(),
        events[i] is Handed,
    ensures
        handed_out(events, n) >= 1,
    decreases n,
{
    if i < n - 1 {
        lemma_handed_counts(events, i, (n - 1) as nat);
    }
}

/// A seek while playing is paused shows at most one picture and stays paused, for as long as no
/// command comes: no sound goes to the card, and the card is not started. From that picture on
/// nothing more is read from the media, so that the sound behind it is still there.
pub proof fn law_paused_seek_stays_paused<F>(
    rounds: Seq<Round<F>>,
    events: Seq<Event<F>>,
    s: DecodeLoop<F>,
    t: Duration,
    number: u64,
    target: Duration,
)
    requires
        s.paused,
        is_run(rounds, events),
        begins_with_seek(rounds, s, PlayerCommand::SeekCommit(t, number), target),
        undisturbed(events),
    ensures
        rounds.last().state.paused,
        handed_out(events, events.len()) <= 1,
        forall|i: int|
            0 <= i < events.len() ==> (#[trigger] events[i] matches Event::Sound {
                pts,
                backpressure,
            } ==> !(fate_of(rounds[i].state, pts, backpressure) is Push)),
        forall|i: int|
            0 <= i < events.len() ==> (#[trigger] events[i] matches Event::Sent { queued }
                ==> !starts_audio(rounds[i].state, queued)),
        forall|i: int, j: int|
            0 <= i < j < events.len() && #[trigger] events[i] is Handed
                ==> #[trigger] events[j] is Sent || events[j] is Rebuilt,
{
    lemma_paused_seek(rounds, events, s, t, number, target, events.len());
    assert forall|i: int, j: int|
        0 <= i < j < events.len()
            && #[trigger] events[i] is Handed implies #[trigger] events[j] is Sent
        || events[j] is Rebuilt by {
        lemma_handed_counts(events, i, j as nat);
        lemma_paused_seek(rounds, events, s, t, number, target, j as nat);
        assert(step_at(rounds, events, j));
    }
    assert forall|i: int| 0 <= i < events.len() implies (#[trigger] events[i] matches Event::Sound {
        pts,
        backpressure,
    } ==> !(fate_of(rounds[i].state, pts, backpressure) is Push)) by {
        lemma_paused_seek(rounds, events, s, t, number, target, i as nat);
        assert(step_at(rounds, events, i));
    }
    assert forall|i: int| 0 <= i < events.len() implies (#[trigger] events[i] matches Event::Sent {
        queued,
    } ==> !starts_audio(rounds[i].state, queued)) by {
        lemma_paused_seek(rounds, events, s, t, number, target, i as nat);
    }
}

/// Going on after a seek that was made while paused brings the sound back, also where the picture
/// of the place was shown in between: the loop goes on unless the media is at its end, sound at or
/// behind the place goes to the card without waiting for room, and the next picture that is sent
/// with enough sound waiting starts the card.
pub proof fn law_resume_after_paused_seek_starts_sound<F>(
    rounds: Seq<Round<F>>,
    events: Seq<Event<F>>,
    s: DecodeLoop<F>,
    t: Duration,
    number: u64,
    target: Duration,
)
    requires
        s.paused,
        is_run(rounds, events),
        begins_with_seek(rounds, s, PlayerCommand::SeekCommit(t, number), target),
        undisturbed(events),
        rounds.last().state.audio,
    ensures
        ({
            let before = rounds.last().state;
            let resumed = after_command(before, PlayerCommand::Resume);
            &&& !resumed.paused
            &&& is_idle(resumed) == before.finished
            &&& forall|pts: Duration, backpressure: bool|
                pts@ >= target@ ==> #[trigger] fate_of(resumed, pts, backpressure)
                    == (AudioFate::Push { wait_for_room: false })
            &&& forall|queued: Duration|
                queued@ >= AUDIO_START_MIN_MS * 1_000_000 ==> #[trigger] starts_audio(
                    resumed,
                    queued,
                )
        }),
{
    lemma_paused_seek(rounds, events, s, t, number, target, events.len());
    lemma_sound_after_commit(rounds, events, s, t, number, target, events.len());
}

/// A card that is to be started stays so, however many pictures are sent with too little sound
/// waiting, until it is started: only that, or a seek, takes it back.
pub proof fn law_start_is_not_forgotten<F>(rounds: Seq<Round<F>>, events: Seq<Event<F>>)
    requires
        is_run(rounds, events),
        rounds[0].state.start_audio,
        forall|i: int|
            0 <= i < events.len() ==> (#[trigger] events[i] matches Event::Sent { queued }
                ==> !starts_audio(rounds[i].state, queued)),
    ensures
        rounds.last().state.start_audio,
    decreases events.len(),
{
    if events.len() > 0 {
        let m = events.len() - 1;
        let before = rounds.drop_last();
        let head = events.drop_last();
        assert forall|i: int| 0 <= i < head.len() implies #[trigger] step_at(before, head, i) by {
            assert(step_at(rounds, events, i));
        }
        assert forall|i: int| 0 <= i < head.len() implies (#[trigger] head[i] matches Event::Sent {
            queued,
        } ==> !starts_audio(before[i].state, queued)) by {
            assert(events[i] == head[i]);
        }
        law_start_is_not_forgotten(before, head);
        assert(step_at(rounds, events, m));
        if let Event::Commands(cmds) = events[m] {
            lemma_commands_keep_start(rounds[m].state, cmds);
        }
    }
}

proof fn lemma_commands_keep_start<F>(s: DecodeLoop<F>, cmds: Seq<PlayerCommand>)
    requires
        s.start_audio,
    ensures
        after_commands(s, cmds).start_audio,
    decreases cmds.len(),
{
    if cmds.len() > 0 {
        lemma_commands_keep_start(s, cmds.drop_last());
    }
}

proof fn lemma_preview<F>(
    rounds: Seq<Round<F>>,
    events: Seq<Event<F>>,
    s: DecodeLoop<F>,
    t: Duration,
    number: u64,
    target: Duration,
    n: nat,
)
    requires
        is_run(rounds, events),
        begins_with_seek(rounds, s, PlayerCommand::SeekPreview(t, number), target),
        n < rounds.len(),
    ensures
        ({
            let a = rounds[n as int];
            &&& a.state.previewing
            &&& a.state.current_gen == number
            &&& a.state.next_frame matches Some(f) ==> f.preview && f.frame_gen == number
            &&& a.out matches Some(f) ==> f.preview
            &&& handed_out(events, n) <= 1
            &&& handed_out(events, n) == 0 ==> a.out is None
            &&& handed_out(events, n) == 1 ==> a.out is Some || a.state.preview_stall
        }),
    decreases n,
{
    if n > 0 {
        lemma_preview(rounds, events, s, t, number, target, (n - 1) as nat);
        assert(step_at(rounds, events, n - 1));
        if let Event::Commands(cmds) = events[n - 1] {
            law_commands_only_pause(rounds[n - 1].state, cmds);
        }
    }
}

/// A drag that is held still freezes on its picture: until the next seek at most one picture is
/// sent, whatever other commands come, and that one is a preview and carries the number of the
/// seek.
pub proof fn law_held_drag_freezes<F>(
    rounds: Seq<Round<F>>,
    events: Seq<Event<F>>,
    s: DecodeLoop<F>,
    t: Duration,
    number: u64,
    target: Duration,
)
    requires
        is_run(rounds, events),
        begins_with_seek(rounds, s, PlayerCommand::SeekPreview(t, number), target),
    ensures
        handed_out(events, events.len()) <= 1,
        forall|i: int|
            0 <= i < events.len() ==> (#[trigger] events[i] matches Event::Handed(f) ==> f.preview
                && f.frame_gen == number),
{
    lemma_preview(rounds, events, s, t, number, target, events.len());
    assert forall|i: int| 0 <= i < events.len() implies (#[trigger] events[i] matches Event::Handed(
        f,
    ) ==> f.preview && f.frame_gen == number) by {
        lemma_preview(rounds, events, s, t, number, target, i as nat);
        assert(step_at(rounds, events, i));
    }
}

} // verus!
