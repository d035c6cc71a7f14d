//! What holds of a source over any sequence of reads, calls of the pump and seeks.

use crate::player_core::audio_decoder::AudioStream;
use crate::player_core::audio_output::AudioFormat;
use crate::player_core::media_source::{
    after_tail, asks, audio_answered, audio_ran_dry, fed, law_seek_forgets, moved, opened,
    packet_answered, pump_asks, pump_audio_answered, pump_begins, pump_packet_answered,
    pump_sent_answered, pumped_on, sent_answered, set_aside, video_answered, Outcome, Packet,
    ReadOutcome, Received, Request, Sent, SourceState, VideoStream, MAX_STALLED,
};
use vstd::prelude::*;

verus! {

/// What the driver reports, or asks for between two calls.
pub enum Report<P> {
    /// A read begins.
    Read,
    /// A call of the pump begins.
    Pump,
    /// The container was put to another place.
    Moved,
    /// A chunk was made, the speed was set, or the units before some time became unwanted.
    Tuned,
    /// The video decoder answered.
    Video(Received),
    /// The audio decoder answered.
    Audio(Received),
    /// The resampler answered: it still held samples, or none.
    Tail(bool),
    /// The container answered.
    Packet(ReadOutcome<P>),
    /// The decoders were told that no more packets come.
    EofSent,
    /// A decoder answered to a packet.
    Sent(Sent),
}

/// The state of a source, the request that waits for its answer, and whether the pump made it.
/// Between two calls the request is the one that ended the last call.
pub struct Moment<P> {
    pub state: SourceState<P>,
    pub request: Request,
    pub pump: bool,
}

/// The report `e` leads from `a` to `b`, as the contracts of the source say.
pub open spec fn step<P>(a: Moment<P>, e: Report<P>, b: Moment<P>) -> bool {
    let (s, t, r) = (a.state, b.state, b.request);
    match e {
        Report::Read => {
            &&& a.request is Finish
            &&& t == (SourceState { stalled: 0, ..s })
            &&& r == Request::ReceiveVideo
            &&& !b.pump
        },
        Report::Pump => {
            &&& a.request is Finish
            &&& t == (SourceState { pumped: 0, ..s })
            &&& r == pump_begins(s)
            &&& b.pump
        },
        Report::Moved => {
            &&& a.request is Finish
            &&& b == (Moment { state: moved(s), ..a })
        },
        Report::Tuned => {
            &&& b == (Moment {
                state: SourceState { decoder: t.decoder, discard_line: t.discard_line, ..s },
                ..a
            })
            &&& t.decoder is Some == s.decoder is Some
            &&& t.decoder matches Some(d) ==> d.wf()
        },
        Report::Video(x) => {
            &&& a.request == Request::ReceiveVideo
            &&& video_answered(s, x, t, r)
            &&& b.pump == a.pump
        },
        Report::Audio(x) => {
            &&& a.request == Request::ReceiveAudio
            &&& if a.pump {
                pump_audio_answered(s, x, t, r)
            } else {
                audio_answered(s, x, t, r)
            }
            &&& b.pump == a.pump
        },
        Report::Tail(samples) => {
            &&& a.request == Request::FlushResampler
            &&& t == s
            &&& r == after_tail(samples)
            &&& b.pump == a.pump
        },
        Report::Packet(x) => {
            &&& a.request == Request::ReadPacket
            &&& if a.pump {
                pump_packet_answered(s, x, t, r)
            } else {
                packet_answered(s, x, t, r)
            }
            &&& b.pump == a.pump
        },
        Report::EofSent => {
            &&& a.request == Request::SendEof
            &&& t == s
            &&& r == Request::ReceiveVideo
            &&& b.pump == a.pump
        },
        Report::Sent(x) => {
            &&& a.request == Request::SendVideo || a.request == Request::SendAudio
            &&& if a.pump {
                pump_sent_answered(s, x, t, r)
            } else {
                sent_answered(s, x, t, r)
            }
            &&& b.pump == a.pump
        },
    }
}

/// The report with the number `i` leads from one of the moments to the next.
pub open spec fn step_at<P>(moments: Seq<Moment<P>>, reports: Seq<Report<P>>, i: int) -> bool {
    step(moments[i], reports[i], moments[i + 1])
}

/// The reports lead through the moments, from a source that was just opened.
pub open spec fn is_run<P>(
    moments: Seq<Moment<P>>,
    reports: Seq<Report<P>>,
    video: VideoStream,
    audio: Option<AudioStream>,
    format: Option<AudioFormat>,
) -> bool {
    &&& moments.len() == reports.len() + 1
    &&& opened(moments[0].state, video, audio, format)
    &&& moments[0].state.wf()
    &&& moments[0].request is Finish
    &&& forall|i: int| 0 <= i < reports.len() ==> #[trigger] step_at(moments, reports, i)
}

/// Within the first `n` reports, the container told a read that the file is at its end, and was not
/// put to another place since then.
pub open spec fn reached_end<P>(moments: Seq<Moment<P>>, reports: Seq<Report<P>>, n: nat) -> bool
    decreases n,
{
    if n == 0 {
        false
    } else {
        match reports[n - 1] {
            Report::Packet(ReadOutcome::Eof) if !moments[n - 1].pump => true,
            Report::Moved => false,
            _ => reached_end(moments, reports, (n - 1) as nat),
        }
    }
}

/// What the decoders and the resampler have said since something was last given to them: that they
/// have nothing.
pub struct Dry {
    pub video: bool,
    pub audio: bool,
    pub tail: bool,
}

/// What has run dry after the first `n` reports.
pub open spec fn dry<P>(reports: Seq<Report<P>>, n: nat) -> Dry
    decreases n,
{
    if n == 0 {
        Dry { video: false, audio: false, tail: false }
    } else {
        let before = dry(reports, (n - 1) as nat);
        match reports[n - 1] {
            Report::Video(Received::Again) | Report::Video(Received::End) => Dry {
                video: true,
                ..before
            },
            Report::Audio(Received::Again) | Report::Audio(Received::End) => Dry {
                audio: true,
                ..before
            },
            Report::Tail(false) => Dry { tail: true, ..before },
            Report::Tail(true) | Report::Tuned | Report::Video(_) | Report::Audio(_) => before,
            _ => Dry { video: false, audio: false, tail: false },
        }
    }
}

/// The media has nothing more to give: the file was read to its end, the video decoder is empty,
/// and so are the audio decoder and the resampler where there is sound.
pub open spec fn all_given<P>(moments: Seq<Moment<P>>, reports: Seq<Report<P>>, n: nat) -> bool {
    &&& reached_end(moments, reports, n)
    &&& dry(reports, n).video
    &&& moments[n as int].state.audio is Some ==> dry(reports, n).audio && dry(reports, n).tail
}

proof fn lemma_run<P>(
    moments: Seq<Moment<P>>,
    reports: Seq<Report<P>>,
    video: VideoStream,
    audio: Option<AudioStream>,
    format: Option<AudioFormat>,
    n: nat,
)
    requires
        is_run(moments, reports, video, audio, format),
        n < moments.len(),
    ensures
        ({
            let m = moments[n as int];
            &&& m.state.draining == reached_end(moments, reports, n)
            &&& m.state.audio is Some == (audio is Some && format is Some)
            &&& m.state.stalled <= MAX_STALLED
            &&& m.pump ==> !(m.request is ReceiveVideo || m.request is FlushResampler
                || m.request is SendEof || m.request is SendVideo)
            &&& !m.pump && m.request is ReceiveAudio ==> dry(reports, n).video
                && m.state.audio is Some
            &&& m.pump && !(m.request is Finish) ==> m.state.audio is Some
            &&& m.request is FlushResampler ==> dry(reports, n).video && dry(reports, n).audio
                && m.state.draining && m.state.audio is Some
        }),
    decreases n,
{
    if n > 0 {
        lemma_run(moments, reports, video, audio, format, (n - 1) as nat);
        assert(step_at(moments, reports, n - 1));
    }
}

/// Only the end of the file makes a source drain its decoders, and only a seek takes that back:
/// over any sequence of reads, calls of the pump and seeks, neither an error, nor damaged data, nor
/// an interrupted read, nor anything that the pump meets passes for the end of the file.
pub proof fn law_only_the_end_is_the_end<P>(
    moments: Seq<Moment<P>>,
    reports: Seq<Report<P>>,
    video: VideoStream,
    audio: Option<AudioStream>,
    format: Option<AudioFormat>,
    n: nat,
)
    requires
        is_run(moments, reports, video, audio, format),
        n < moments.len(),
    ensures
        moments[n as int].state.draining == reached_end(moments, reports, n),
{
    lemma_run(moments, reports, video, audio, format, n);
}

/// A read that ends without a unit has met the end: the file was read to its end and everything
/// that the decoders and the resampler still held was handed out. The one other way is a decoder
/// that has refused its packet too often in a row.
pub proof fn law_nothing_means_the_end<P>(
    moments: Seq<Moment<P>>,
    reports: Seq<Report<P>>,
    video: VideoStream,
    audio: Option<AudioStream>,
    format: Option<AudioFormat>,
    i: nat,
)
    requires
        is_run(moments, reports, video, audio, format),
        i < reports.len(),
        !moments[i as int].pump,
        !(moments[i as int].request is Finish),
        moments[i as int + 1].request == Request::Finish(Outcome::Nothing),
    ensures
        all_given(moments, reports, (i + 1) as nat) || (reports[i as int] == Report::<P>::Sent(
            Sent::Full,
        ) && moments[i as int].state.stalled == MAX_STALLED),
{
    lemma_run(moments, reports, video, audio, format, i);
    lemma_run(moments, reports, video, audio, format, (i + 1) as nat);
    assert(step_at(moments, reports, i as int));
}

/// A file that was read to its end is told as such: once the decoders say that they have nothing
/// and the resampler is empty, the read is over, without a unit. Until then each of them is asked
/// in turn.
pub proof fn law_the_end_is_told<P>(
    moments: Seq<Moment<P>>,
    reports: Seq<Report<P>>,
    video: VideoStream,
    audio: Option<AudioStream>,
    format: Option<AudioFormat>,
    i: nat,
)
    requires
        is_run(moments, reports, video, audio, format),
        i < reports.len(),
        !moments[i as int].pump,
        reached_end(moments, reports, i),
    ensures
        reports[i as int] == Report::<P>::Video(Received::Again) || reports[i as int]
            == Report::<P>::Video(Received::End) ==> moments[i as int + 1].request == (
        if audio is Some && format is Some {
            Request::ReceiveAudio
        } else {
            Request::Finish(Outcome::Nothing)
        }),
        reports[i as int] == Report::<P>::Audio(Received::Again) || reports[i as int]
            == Report::<P>::Audio(Received::End) ==> moments[i as int + 1].request
            == Request::FlushResampler,
        reports[i as int] == Report::<P>::Tail(false) ==> moments[i as int + 1].request
            == Request::Finish(Outcome::Nothing),
{
    lemma_run(moments, reports, video, audio, format, i);
    assert(step_at(moments, reports, i as int));
}

/// What becomes of a read whose packet could not be had, wherever in a sequence of calls it stands:
/// a failure ends it as a failure, an interruption as an interruption, and damaged data do not end
/// it. The source is left as it was.
pub proof fn law_failed_reads_are_told<P>(
    moments: Seq<Moment<P>>,
    reports: Seq<Report<P>>,
    video: VideoStream,
    audio: Option<AudioStream>,
    format: Option<AudioFormat>,
    i: int,
)
    requires
        is_run(moments, reports, video, audio, format),
        0 <= i < reports.len(),
        !moments[i].pump,
    ensures
        reports[i] == Report::Packet(ReadOutcome::<P>::Failed) ==> moments[i + 1].request
            == Request::Finish(Outcome::Failed) && moments[i + 1].state == moments[i].state,
        reports[i] == Report::Packet(ReadOutcome::<P>::Interrupted) ==> moments[i + 1].request
            == Request::Finish(Outcome::Cancelled) && moments[i + 1].state == moments[i].state,
        reports[i] == Report::Packet(ReadOutcome::<P>::InvalidData) ==> moments[i + 1].request
            == Request::ReadPacket && moments[i + 1].state == moments[i].state,
{
    assert(step_at(moments, reports, i));
}

/// A read ends with a failure only where an outside call has failed just before.
pub proof fn law_failures_have_a_cause<P>(
    moments: Seq<Moment<P>>,
    reports: Seq<Report<P>>,
    video: VideoStream,
    audio: Option<AudioStream>,
    format: Option<AudioFormat>,
    i: int,
)
    requires
        is_run(moments, reports, video, audio, format),
        0 <= i < reports.len(),
        !(moments[i].request is Finish),
        !(reports[i] is Tuned),
        moments[i + 1].request == Request::Finish(Outcome::Failed),
    ensures
        reports[i] == Report::<P>::Video(Received::Failed) || reports[i] == Report::<P>::Audio(
            Received::Failed,
        ) || reports[i] == Report::Packet(ReadOutcome::<P>::Failed) || reports[i]
            == Report::<P>::Sent(Sent::Failed),
{
    lemma_run(moments, reports, video, audio, format, i as nat);
    assert(step_at(moments, reports, i));
}

/// A media without sound, or one that is played without a sound card, never gives any: no call
/// ends with a chunk, and neither the audio decoder nor the resampler is asked for one.
pub proof fn law_silent_media_gives_no_sound<P>(
    moments: Seq<Moment<P>>,
    reports: Seq<Report<P>>,
    video: VideoStream,
    audio: Option<AudioStream>,
    format: Option<AudioFormat>,
    n: nat,
)
    requires
        is_run(moments, reports, video, audio, format),
        moments[0].request == Request::Finish(Outcome::Nothing),
        audio is None || format is None,
        n < moments.len(),
    ensures
        moments[n as int].request != Request::Finish(Outcome::Audio),
        !(moments[n as int].request is ReceiveAudio),
        !(moments[n as int].request is FlushResampler),
    decreases n,
{
    lemma_run(moments, reports, video, audio, format, n);
    if n > 0 {
        law_silent_media_gives_no_sound(
            moments,
            reports,
            video,
            audio,
            format,
            (n - 1) as nat,
        );
        lemma_run(moments, reports, video, audio, format, (n - 1) as nat);
        assert(step_at(moments, reports, n - 1));
    }
}

/// The driver can answer the request of the moment.
spec fn can_answer<P>(m: Moment<P>) -> bool {
    if m.pump {
        pump_asks(m.state, m.request)
    } else {
        asks(m.state, m.request)
    }
}

/// Choosing the next packet keeps what is held.
proof fn lemma_fed<P>(s: SourceState<P>, t: SourceState<P>, r: Request)
    requires
        s.wf(),
        s.in_flight is None,
        fed(s, t, r),
    ensures
        t.wf(),
        asks(t, r),
{
    assert(t.held_video() =~= s.held_video());
    assert(t.held_audio() =~= s.held_audio());
}

/// The next packet of the pump keeps what is held.
proof fn lemma_pumped_on<P>(s: SourceState<P>, t: SourceState<P>, r: Request)
    requires
        s.wf(),
        s.in_flight is None,
        s.audio is Some,
        pumped_on(s, t, r),
    ensures
        t.wf(),
        pump_asks(t, r),
{
    assert(t.held_video() =~= s.held_video());
    assert(t.held_audio() =~= s.held_audio());
}

/// A packet that was read stands behind what is held of its stream.
proof fn lemma_with_read<P>(s: SourceState<P>, p: Packet<P>)
    requires
        s.wf(),
        s.in_flight is None,
        s.pending is None,
        s.claims(p.stream),
        p.stream == s.stream_index ==> s.video_backlog.len() == 0,
    ensures
        s.with_read(p).wf(),
{
    let t = s.with_read(p);
    assert(s.held_video() =~= s.video_backlog);
    assert(s.held_audio() =~= Seq::empty());
    if p.stream == s.stream_index {
        assert(t.held_video() =~= s.held_video().push(p));
        assert(t.held_audio() =~= Seq::empty());
        assert(t.video_log.read =~= t.video_log.sent + t.held_video());
    } else {
        assert(t.held_video() =~= s.held_video());
        assert(t.held_audio() =~= seq![p]);
        assert(t.audio_log.read =~= t.audio_log.sent + t.held_audio());
    }
}

/// A video packet that the pump puts aside stands behind what is held.
proof fn lemma_set_aside<P>(s: SourceState<P>, p: Packet<P>)
    requires
        s.wf(),
        s.in_flight is None,
        s.pending is None,
        p.stream == s.stream_index,
    ensures
        set_aside(s, p).wf(),
{
    let t = set_aside(s, p);
    assert(s.held_video() =~= s.video_backlog);
    assert(t.held_video() =~= s.held_video().push(p));
    assert(t.video_log.read =~= t.video_log.sent + t.held_video());
    assert(t.held_audio() =~= s.held_audio());
}

/// A packet that its decoder was given is the oldest one that was held.
proof fn lemma_handed_over<P>(s: SourceState<P>)
    requires
        s.wf(),
        s.in_flight is Some,
    ensures
        s.handed_over().wf(),
{
    let p = s.in_flight->0;
    let t = s.handed_over();
    if p.stream == s.stream_index {
        assert(s.held_video() =~= seq![p] + s.video_backlog);
        assert(t.held_video() =~= s.video_backlog);
        assert(t.held_audio() =~= s.held_audio());
        assert(t.video_log.read =~= t.video_log.sent + t.held_video());
    } else {
        assert(s.held_audio() =~= seq![p]);
        assert(t.held_audio() =~= Seq::empty());
        assert(t.held_video() =~= s.held_video());
        assert(t.audio_log.read =~= t.audio_log.sent + t.held_audio());
    }
}

proof fn lemma_step_loses_nothing<P>(a: Moment<P>, e: Report<P>, b: Moment<P>)
    requires
        a.state.wf(),
        can_answer(a),
        step(a, e, b),
    ensures
        b.state.wf(),
        can_answer(b),
{
    let (s, t, r) = (a.state, b.state, b.request);
    match e {
        Report::Moved => {
            law_seek_forgets(s);
        },
        Report::Video(Received::Again) | Report::Video(Received::End) => {
            if s.audio is None {
                lemma_fed(s, t, r);
            }
        },
        Report::Audio(Received::Again) | Report::Audio(Received::End) => {
            if a.pump {
                lemma_pumped_on(s, t, r);
            } else {
                let dried = audio_ran_dry(s);
                assert(dried.held_video() =~= s.held_video());
                assert(dried.held_audio() =~= s.held_audio());
                lemma_fed(dried, t, r);
            }
        },
        Report::Packet(ReadOutcome::Packet(p)) => {
            if a.pump {
                if p.stream == s.stream_index {
                    lemma_set_aside(s, p);
                    lemma_pumped_on(set_aside(s, p), t, r);
                } else if s.claims(p.stream) {
                    lemma_with_read(s, p);
                } else {
                    lemma_pumped_on(s, t, r);
                }
            } else if s.claims(p.stream) {
                lemma_with_read(s, p);
            }
        },
        Report::Sent(_) => {
            lemma_handed_over(s);
        },
        _ => {},
    }
    if e is Sent || e is Read || e is Pump || e is Tuned || e is Audio || e is Packet {
        assert(t.in_flight == s.in_flight && t.pending == s.pending && t.video_backlog
            == s.video_backlog && t.audio == s.audio ==> t.held_video() =~= s.held_video()
            && t.held_audio() =~= s.held_audio());
        assert(s.in_flight is Some && t.in_flight is None && t.pending == s.in_flight
            && t.video_backlog == s.video_backlog && t.audio == s.audio ==> t.held_video()
            =~= s.held_video() && t.held_audio() =~= s.held_audio());
    }
}

/// No packet is lost and none changes its place, over any sequence of reads, calls of the pump and
/// seeks, whatever the decoders and the container answer: what was read for a stream since the last
/// seek is what its decoder was given, followed by what is still held for it.
pub proof fn law_no_packet_is_lost<P>(
    moments: Seq<Moment<P>>,
    reports: Seq<Report<P>>,
    video: VideoStream,
    audio: Option<AudioStream>,
    format: Option<AudioFormat>,
    n: nat,
)
    requires
        is_run(moments, reports, video, audio, format),
        n < moments.len(),
    ensures
        moments[n as int].state.wf(),
        ({
            let s = moments[n as int].state;
            &&& s.video_log.read == s.video_log.sent + s.held_video()
            &&& s.audio_log.read == s.audio_log.sent + s.held_audio()
        }),
{
    lemma_loses_nothing(moments, reports, video, audio, format, n);
}

proof fn lemma_loses_nothing<P>(
    moments: Seq<Moment<P>>,
    reports: Seq<Report<P>>,
    video: VideoStream,
    audio: Option<AudioStream>,
    format: Option<AudioFormat>,
    n: nat,
)
    requires
        is_run(moments, reports, video, audio, format),
        n < moments.len(),
    ensures
        moments[n as int].state.wf(),
        can_answer(moments[n as int]),
    decreases n,
{
    if n > 0 {
        lemma_loses_nothing(moments, reports, video, audio, format, (n - 1) as nat);
        assert(step_at(moments, reports, n - 1));
        lemma_step_loses_nothing(moments[n - 1], reports[n - 1], moments[n as int]);
    }
}

} // verus!
