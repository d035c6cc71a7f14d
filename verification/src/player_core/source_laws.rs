//! What holds of single answers to a source, of the messages of the decoding libraries, and of the
//! counters, in terms of what goes in and what comes out.

use crate::player_core::audio_decoder::{AudioStream, DecoderState};
use crate::player_core::audio_output::AudioFormat;
use crate::player_core::ffmpeg_log::{
    decided, entry, severity, table_for, text_for, Level, Severity, AV_LOG_QUIET, MAX_KEYS,
    THROTTLE_WINDOW_MS,
};
use crate::player_core::frame::VideoInfo;
use crate::player_core::media_source::{
    after_tail, asks, audio_answered, audio_ran_dry, chunk_came, fed, moved, opened,
    packet_answered, pump_asks, pump_audio_answered, pump_begins, pump_packet_answered,
    pump_sent_answered, pumped_on, refused, sent_answered, video_answered, Outcome, Packet,
    ReadOutcome, Received, Request, Sent, SourceState, VideoStream, AUDIO_CONVERGENCE_FRAMES,
    MAX_PUMP_VIDEO_HELD, MAX_STALLED,
};
use crate::player_core::probe::REPORT_INTERVAL_NANOS;
use crate::text::{is_number, law_decimal_reads_back, reads};
use crate::time::{Duration, Instant};
use vstd::prelude::*;

verus! {

/// Nothing changed but what is held of the packets, and the counters of a call.
pub open spec fn same_place<P>(s: SourceState<P>, t: SourceState<P>) -> bool {
    t == (SourceState {
        in_flight: t.in_flight,
        pending: t.pending,
        video_backlog: t.video_backlog,
        stalled: t.stalled,
        pumped: t.pumped,
        video_log: t.video_log,
        audio_log: t.audio_log,
        ..s
    })
}

/// A seek forgets every packet, the end of the file, and what was unwanted; the next three chunks of
/// sound are dropped; chunks without a stamp start at zero, and the resampler has nothing left. Which
/// streams are read, their formats and the speed stay.
pub proof fn law_seek_starts_over<P>(s: SourceState<P>)
    ensures
        ({
            let t = moved(s);
            &&& t.pending is None
            &&& t.video_backlog.len() == 0
            &&& !t.draining
            &&& t.convergence == 3
            &&& t.discard_line is None
            &&& t.video_log.read.len() == 0 && t.video_log.sent.len() == 0
            &&& t.audio_log.read.len() == 0 && t.audio_log.sent.len() == 0
            &&& s.decoder is None ==> t.decoder is None
            &&& s.decoder is Some ==> t.decoder == Some(
                DecoderState { next_pts: 0, ..s.decoder->0 },
            )
            &&& s.audio is None ==> t.audio is None
            &&& s.audio is Some ==> t.audio is Some && t.audio->0.index == s.audio->0.index
                && !t.audio->0.flushing_resampler
            &&& t.info == s.info
            &&& t.stream_index == s.stream_index
            &&& t.in_flight == s.in_flight
            &&& t.stalled == s.stalled
            &&& t.pumped == s.pumped
        }),
{
}

/// A read looks at the pictures first and at the sound after them: a picture that is ready, or a
/// failure, ends it; with nothing ready the audio decoder is asked where there is one.
pub proof fn law_pictures_come_first<P>(
    s: SourceState<P>,
    received: Received,
    t: SourceState<P>,
    r: Request,
)
    requires
        video_answered(s, received, t, r),
    ensures
        received == Received::Ready ==> t == s && r == Request::Finish(Outcome::Video),
        received == Received::Failed ==> t == s && r == Request::Finish(Outcome::Failed),
        (received == Received::Again || received == Received::End) && s.audio is Some ==> t == s && r
            == Request::ReceiveAudio,
        (received == Received::Again || received == Received::End) && s.audio is None ==> fed(s, t, r),
{
}

/// Sound that is ready ends a read or a call of the pump, unless it belongs to the first chunks after
/// a seek: of those each is dropped, one fewer is left to be dropped, and the decoder is asked again.
/// A failure ends the call.
pub proof fn law_sound_comes_out<P>(
    s: SourceState<P>,
    received: Received,
    t: SourceState<P>,
    r: Request,
)
    requires
        audio_answered(s, received, t, r) || pump_audio_answered(s, received, t, r),
    ensures
        received == Received::Ready && s.convergence == 0 ==> t == s && r == Request::Finish(
            Outcome::Audio,
        ),
        received == Received::Ready && s.convergence > 0 ==> {
            &&& t.convergence + 1 == s.convergence
            &&& t == (SourceState { convergence: t.convergence, ..s })
            &&& r == Request::ReceiveAudio
        },
        received == Received::Failed ==> t == s && r == Request::Finish(Outcome::Failed),
        chunk_came(s, t, r) && s.convergence > 0 ==> t.convergence + 1 == s.convergence,
{
}

/// With neither decoder ready, a read feeds them: the refused packet first, after it the ones that the
/// pump put aside, in their order, and after them a fresh one. Once the file is read to its end only
/// the rest of the resampler is left, where the audio decoder is empty, and after that nothing.
pub proof fn law_decoders_are_fed_in_order<P>(s: SourceState<P>, t: SourceState<P>, r: Request)
    requires
        fed(s, t, r),
        s.in_flight is None,
    ensures
        s.draining ==> t == s,
        s.draining && s.audio is Some && s.audio->0.flushing_resampler ==> r
            == Request::FlushResampler,
        s.draining && (s.audio is None || !s.audio->0.flushing_resampler) ==> r == Request::Finish(
            Outcome::Nothing,
        ),
        !s.draining && s.pending is Some ==> {
            &&& t.in_flight == s.pending
            &&& t.pending is None
            &&& t.video_backlog == s.video_backlog
            &&& s.pending->0.stream == s.stream_index ==> r == Request::SendVideo
            &&& s.pending->0.stream != s.stream_index ==> r == Request::SendAudio
        },
        !s.draining && s.pending is None && s.video_backlog.len() > 0 ==> {
            &&& t.in_flight is Some
            &&& seq![t.in_flight->0] + t.video_backlog == s.video_backlog
            &&& t.pending is None
            &&& r == Request::SendVideo
        },
        !s.draining && s.pending is None && s.video_backlog.len() == 0 ==> t == s && r
            == Request::ReadPacket,
        same_place(s, t),
        t.stalled == s.stalled,
        t.pumped == s.pumped,
        t.video_log == s.video_log,
        t.audio_log == s.audio_log,
{
    if !s.draining && s.pending is None && s.video_backlog.len() > 0 {
        assert(seq![t.in_flight->0] + t.video_backlog =~= s.video_backlog);
    }
}

/// An audio decoder that has nothing more hands over to the resampler at the end of the file, and
/// only there.
pub proof fn law_resampler_comes_last<P>(s: SourceState<P>)
    requires
        s.audio is Some,
    ensures
        !s.draining ==> audio_ran_dry(s) == s,
        s.draining ==> {
            &&& audio_ran_dry(s).audio is Some
            &&& audio_ran_dry(s).audio->0.flushing_resampler
            &&& audio_ran_dry(s).audio->0.index == s.audio->0.index
            &&& audio_ran_dry(s) == (SourceState { audio: audio_ran_dry(s).audio, ..s })
        },
        after_tail(true) == Request::Finish(Outcome::Audio),
        after_tail(false) == Request::Finish(Outcome::Nothing),
{
}

/// A packet that was read goes to the decoder of its stream and into the books of that stream; one of
/// another stream is passed over. The end of the file is told to the decoders; damage is skipped;
/// a newer seek and every other failure end the read as what they are.
pub proof fn law_packets_go_to_their_decoder<P>(
    s: SourceState<P>,
    read: ReadOutcome<P>,
    t: SourceState<P>,
    r: Request,
)
    requires
        packet_answered(s, read, t, r),
        s.audio matches Some(a) ==> a.index != s.stream_index,
    ensures
        read matches ReadOutcome::Packet(p) ==> {
            &&& p.stream == s.stream_index ==> {
                &&& r == Request::SendVideo
                &&& t.in_flight == Some(p)
                &&& t.video_log.read == s.video_log.read.push(p)
                &&& t.audio_log == s.audio_log
                &&& t.stalled == s.stalled
            }
            &&& p.stream != s.stream_index && s.audio is Some && s.audio->0.index == p.stream ==> {
                &&& r == Request::SendAudio
                &&& t.in_flight == Some(p)
                &&& t.audio_log.read == s.audio_log.read.push(p)
                &&& t.video_log == s.video_log
                &&& t.stalled == s.stalled
            }
            &&& p.stream != s.stream_index && (s.audio is None || s.audio->0.index != p.stream)
                ==> t == (SourceState { stalled: 0, ..s }) && r == Request::ReceiveVideo
            &&& t.video_log.sent == s.video_log.sent
            &&& t.audio_log.sent == s.audio_log.sent
            &&& t.pending == s.pending
            &&& t.video_backlog == s.video_backlog
            &&& same_place(s, t)
        },
        read is Eof ==> t == (SourceState { draining: true, ..s }) && r == Request::SendEof,
        read is InvalidData ==> t == s && r == Request::ReadPacket,
        read is Interrupted ==> t == s && r == Request::Finish(Outcome::Cancelled),
        read is Failed ==> t == s && r == Request::Finish(Outcome::Failed),
{
}

/// A packet that its decoder took, or refused for good, is in the books as sent and held no more; one
/// that found no room is kept and offered again, up to 64 times in a row, after which the read ends
/// without a unit. A failure is told.
pub proof fn law_refusals_are_counted<P>(
    s: SourceState<P>,
    sent: Sent,
    t: SourceState<P>,
    r: Request,
)
    requires
        s.in_flight is Some,
        sent_answered(s, sent, t, r),
    ensures
        t.in_flight is None,
        sent != Sent::Full ==> {
            &&& t.pending == s.pending
            &&& s.in_flight->0.stream == s.stream_index ==> t.video_log.sent == s.video_log.sent.push(
                s.in_flight->0,
            ) && t.audio_log == s.audio_log
            &&& s.in_flight->0.stream != s.stream_index ==> t.audio_log.sent == s.audio_log.sent.push(
                s.in_flight->0,
            ) && t.video_log == s.video_log
        },
        sent == Sent::Accepted ==> t.stalled == 0 && r == Request::ReceiveVideo,
        sent == Sent::Failed ==> t.stalled == s.stalled && r == Request::Finish(Outcome::Failed),
        sent == Sent::Full ==> {
            &&& t.pending == s.in_flight
            &&& t.video_log == s.video_log
            &&& t.audio_log == s.audio_log
            &&& s.stalled < 64 ==> t.stalled == s.stalled + 1 && r == Request::ReceiveVideo
            &&& s.stalled >= 64 ==> t.stalled == s.stalled && r == Request::Finish(Outcome::Nothing)
        },
        t.video_backlog == s.video_backlog,
        t.video_log.read == s.video_log.read,
        t.audio_log.read == s.audio_log.read,
        same_place(s, t),
        t.pumped == s.pumped,
        sent == Sent::Full ==> refused(s, t, r),
{
}

/// The pump fetches up to 32 packets in one call, and none behind the end of the file: a refused audio
/// packet first; a refused video packet goes in front of those that wait.
pub proof fn law_pump_fetches_so_many<P>(s: SourceState<P>, t: SourceState<P>, r: Request)
    requires
        pumped_on(s, t, r),
        s.in_flight is None,
    ensures
        s.draining || s.pumped >= 32 ==> t == s && r == Request::Finish(Outcome::Nothing),
        !s.draining && s.pumped < 32 ==> {
            &&& t.pumped == s.pumped + 1
            &&& t.pending is None
            &&& s.pending is None ==> t == (SourceState { pumped: t.pumped, ..s }) && r
                == Request::ReadPacket
            &&& s.pending is Some && s.pending->0.stream == s.stream_index ==> {
                &&& t.in_flight is None
                &&& t.video_backlog == seq![s.pending->0] + s.video_backlog
                &&& r == Request::ReadPacket
            }
            &&& s.pending is Some && s.pending->0.stream != s.stream_index ==> {
                &&& t.in_flight == s.pending
                &&& t.video_backlog == s.video_backlog
                &&& r == Request::SendAudio
            }
        },
        same_place(s, t),
        t.stalled == s.stalled,
        t.video_log == s.video_log,
        t.audio_log == s.audio_log,
{
}

/// The pump puts video packets behind those that wait already, offers audio packets, and passes over
/// all others. Neither the end of the file nor a failure is its to tell: it ends without a unit and
/// changes nothing. Damage is skipped.
pub proof fn law_pump_sorts_packets<P>(
    s: SourceState<P>,
    read: ReadOutcome<P>,
    t: SourceState<P>,
    r: Request,
)
    requires
        pump_packet_answered(s, read, t, r),
        s.audio matches Some(a) && a.index != s.stream_index,
        s.in_flight is None,
        s.pending is None,
    ensures
        read matches ReadOutcome::Packet(p) ==> {
            &&& p.stream == s.stream_index ==> {
                &&& t.video_backlog == s.video_backlog.push(p)
                &&& t.video_log.read == s.video_log.read.push(p)
                &&& t.audio_log == s.audio_log
                &&& t.in_flight is None
            }
            &&& p.stream == s.audio->0.index ==> {
                &&& t.in_flight == Some(p)
                &&& t.audio_log.read == s.audio_log.read.push(p)
                &&& t.video_log == s.video_log
                &&& t.video_backlog == s.video_backlog
                &&& r == Request::SendAudio
            }
            &&& p.stream != s.stream_index && p.stream != s.audio->0.index ==> {
                &&& t.video_backlog == s.video_backlog
                &&& t.video_log == s.video_log
                &&& t.audio_log == s.audio_log
                &&& t.in_flight is None
            }
            &&& p.stream != s.audio->0.index ==> {
                &&& s.draining || s.pumped >= 32 ==> r == Request::Finish(Outcome::Nothing)
                    && t.pumped == s.pumped
                &&& !s.draining && s.pumped < 32 ==> r == Request::ReadPacket && t.pumped == s.pumped
                    + 1
            }
            &&& t.video_log.sent == s.video_log.sent
            &&& t.audio_log.sent == s.audio_log.sent
            &&& same_place(s, t)
        },
        read is InvalidData ==> t == s && r == Request::ReadPacket,
        read is Eof || read is Interrupted || read is Failed ==> t == s && r == Request::Finish(
            Outcome::Nothing,
        ),
{
}

/// A packet of the pump that its decoder took makes the decoder be asked again; one that found no room
/// is kept, and the call ends without a unit; a failure is told.
pub proof fn law_pump_hands_over<P>(s: SourceState<P>, sent: Sent, t: SourceState<P>, r: Request)
    requires
        s.in_flight is Some,
        s.in_flight->0.stream != s.stream_index,
        pump_sent_answered(s, sent, t, r),
    ensures
        t.in_flight is None,
        sent == Sent::Accepted ==> r == Request::ReceiveAudio,
        sent == Sent::Failed ==> r == Request::Finish(Outcome::Failed),
        sent == Sent::Full ==> r == Request::Finish(Outcome::Nothing) && t.pending == s.in_flight
            && t.audio_log == s.audio_log,
        sent != Sent::Full ==> t.pending == s.pending && t.audio_log.sent == s.audio_log.sent.push(
            s.in_flight->0,
        ),
        t.video_log == s.video_log,
        t.audio_log.read == s.audio_log.read,
        t.video_backlog == s.video_backlog,
        t.stalled == s.stalled,
        t.pumped == s.pumped,
        same_place(s, t),
        s.audio is Some ==> pump_begins(s) == Request::ReceiveAudio,
        s.audio is None ==> pump_begins(s) == Request::Finish(Outcome::Nothing),
{
}

/// The audio decoder's emptiness leads a read to the packets, and the pump to the packets of the sound.
pub proof fn law_empty_decoder_wants_packets<P>(
    s: SourceState<P>,
    received: Received,
    t: SourceState<P>,
    r: Request,
)
    requires
        received == Received::Again || received == Received::End,
        s.audio is Some,
    ensures
        audio_answered(s, received, t, r) && !s.draining ==> fed(s, t, r),
        audio_answered(s, received, t, r) && s.draining ==> r == Request::FlushResampler && t
            == audio_ran_dry(s),
        pump_audio_answered(s, received, t, r) ==> pumped_on(s, t, r),
{
}

/// A request to offer a packet is made only with a packet of that decoder in flight; to read one, only
/// where none is left to be offered; to ask the audio decoder, only where there is one. The pump never
/// asks anything of the video decoder.
pub proof fn law_requests_can_be_answered<P>(s: SourceState<P>, r: Request)
    ensures
        asks(s, r) && r == Request::SendVideo ==> s.in_flight is Some && s.in_flight->0.stream
            == s.stream_index,
        asks(s, r) && r == Request::SendAudio ==> s.in_flight is Some && s.audio is Some
            && s.in_flight->0.stream == s.audio->0.index,
        asks(s, r) && r == Request::ReadPacket ==> s.pending is None && s.video_backlog.len() == 0,
        asks(s, r) && r == Request::ReceiveAudio ==> s.audio is Some,
        asks(s, r) && r != Request::SendVideo && r != Request::SendAudio ==> s.in_flight is None,
        pump_asks(s, r) ==> r != Request::ReceiveVideo && r != Request::SendVideo && r
            != Request::SendEof && r != Request::FlushResampler,
        pump_asks(s, r) && r == Request::SendAudio ==> s.in_flight is Some && s.audio is Some
            && s.in_flight->0.stream == s.audio->0.index,
        pump_asks(s, r) && r == Request::ReadPacket ==> s.pending is None && s.audio is Some,
{
}

/// A source that was just opened reads the streams that it was opened for, has nothing read and drops
/// nothing; the sound plays at normal speed at the rate of the device, from the start.
pub proof fn law_source_opens_fresh<P>(
    s: SourceState<P>,
    video: VideoStream,
    audio: Option<AudioStream>,
    format: Option<AudioFormat>,
    info: VideoInfo,
)
    requires
        opened(s, video, audio, format),
        video.described_by(info),
    ensures
        s.stream_index == video.index,
        audio is Some && format is Some ==> {
            &&& s.audio is Some && s.audio->0.index == audio->0.index
            &&& !s.audio->0.flushing_resampler
            &&& s.decoder is Some
            &&& s.decoder->0.time_base == audio->0.time_base
            &&& s.decoder->0.target == format->0
            &&& s.decoder->0.output_rate == format->0.sample_rate
            &&& s.decoder->0.speed == 0x40_0000_0000_0000
            &&& s.decoder->0.next_pts == 0
            &&& s.decoder->0.info.sample_rate == audio->0.sample_rate
            &&& s.decoder->0.info.channels == audio->0.channels
        },
        audio is None || format is None ==> s.audio is None && s.decoder is None,
        s.convergence == 0,
        !s.draining,
        s.in_flight is None && s.pending is None && s.video_backlog.len() == 0,
        s.discard_line is None,
        info.width == video.width,
        info.height == video.height,
        video.frame_rate.den != 0 ==> info.fps == video.frame_rate,
        video.frame_rate.den == 0 ==> info.fps.num == 0 && info.fps.den == 1,
        info.duration@ == video.time_base.nanos(
            if video.duration < 0 {
                -video.duration
            } else {
                video.duration as int
            },
        ),
{
}

/// A message is let through where it is not known, was never let through, or was let through at least
/// the window ago: it then stands for itself and for every one like it that was held back since. Any
/// other is held back, and one more counts as held back since the same time. What is known of other
/// messages stays, unless the table has grown beyond 512 of them: then all is forgotten first.
pub proof fn law_repetitions_are_held_back(
    m: Map<Seq<char>, (u64, Option<Instant>)>,
    key: Seq<char>,
    other: Seq<char>,
    now: Instant,
    last: Instant,
    window: Duration,
    r: Option<u64>,
    after: Map<Seq<char>, (u64, Option<Instant>)>,
)
    requires
        decided(m, key, now, window, r, after),
        other != key,
        window@ <= 18_446_744_073_709_551_615_999_999_999,
    ensures
        after.contains_key(key),
        m.len() > 512 || !m.contains_key(key) || m[key].1 is None ==> r is Some,
        m.len() <= 512 && m.contains_key(key) && m[key].1 == Some(last) && now@ >= last@ ==> (r
            is Some <==> last@ + window@ <= now@),
        m.len() <= 512 && m.contains_key(key) && m[key].1 == Some(last) && now@ < last@ ==> (r
            is Some <==> window@ == 0),
        m.len() > 512 || !m.contains_key(key) ==> r == Some(1u64),
        m.len() <= 512 && m.contains_key(key) && m[key].0 < u64::MAX ==> {
            &&& r is Some ==> r->0 == m[key].0 + 1
            &&& r is None ==> after[key].0 == m[key].0 + 1 && after[key].1 == m[key].1
        },
        r is Some ==> after[key] == (0u64, Some(now)),
        m.len() <= 512 ==> (after.contains_key(other) <==> m.contains_key(other)),
        m.len() <= 512 && m.contains_key(other) ==> after[other] == m[other],
        m.len() > 512 ==> !after.contains_key(other),
{
}

/// What is not in the table counts as never seen.
pub proof fn law_unknown_messages_are_new(
    m: Map<Seq<char>, (u64, Option<Instant>)>,
    key: Seq<char>,
)
    ensures
        m.len() <= 512 ==> table_for(m) == m,
        m.len() > 512 ==> !table_for(m).contains_key(key),
        !m.contains_key(key) ==> entry(m, key).0 == 0 && entry(m, key).1 is None,
        m.contains_key(key) ==> entry(m, key) == m[key],
{
}

/// A message that stands for itself alone keeps its text; one that stands for more has their number
/// behind it.
pub proof fn law_text_tells_the_number(msg: Seq<char>, count: nat)
    ensures
        count <= 1 ==> text_for(msg, count) == msg,
        count > 1 ==> exists|digits: Seq<char>|
            {
                &&& #[trigger] is_number(digits)
                &&& reads(digits) == count
                &&& text_for(msg, count) == msg + " ×"@ + digits
            },
{
    law_decimal_reads_back(count);
    assert(is_number(crate::text::decimal(count)));
}

/// Levels up to 16 are errors, those up to 24 warnings, and all beyond are for debugging: a smaller
/// number is never less severe.
pub proof fn law_smaller_levels_are_worse(level: int)
    ensures
        severity(level) == Severity::Error <==> level <= 16,
        severity(level) == Severity::Warn <==> 16 < level <= 24,
        severity(level) == Severity::Debug <==> level > 24,
{
}

/// The words for the levels, letter by letter.
pub proof fn law_levels_have_their_words()
    ensures
        Level::Quiet.word() == seq!['q', 'u', 'i', 'e', 't'],
        Level::Panic.word() == seq!['p', 'a', 'n', 'i', 'c'],
        Level::Fatal.word() == seq!['f', 'a', 't', 'a', 'l'],
        Level::Error.word() == seq!['e', 'r', 'r', 'o', 'r'],
        Level::Warning.word() == seq!['w', 'a', 'r', 'n', 'i', 'n', 'g'],
        Level::Info.word() == seq!['i', 'n', 'f', 'o'],
        Level::Debug.word() == seq!['d', 'e', 'b', 'u', 'g'],
        Level::Trace.word() == seq!['t', 'r', 'a', 'c', 'e'],
{
    reveal_strlit("quiet");
    reveal_strlit("panic");
    reveal_strlit("fatal");
    reveal_strlit("error");
    reveal_strlit("warning");
    reveal_strlit("info");
    reveal_strlit("debug");
    reveal_strlit("trace");
    assert(Level::Quiet.word() =~= seq!['q', 'u', 'i', 'e', 't']);
    assert(Level::Panic.word() =~= seq!['p', 'a', 'n', 'i', 'c']);
    assert(Level::Fatal.word() =~= seq!['f', 'a', 't', 'a', 'l']);
    assert(Level::Error.word() =~= seq!['e', 'r', 'r', 'o', 'r']);
    assert(Level::Warning.word() =~= seq!['w', 'a', 'r', 'n', 'i', 'n', 'g']);
    assert(Level::Info.word() =~= seq!['i', 'n', 'f', 'o']);
    assert(Level::Debug.word() =~= seq!['d', 'e', 'b', 'u', 'g']);
    assert(Level::Trace.word() =~= seq!['t', 'r', 'a', 'c', 'e']);
}

/// The limits: repetitions are held back for three seconds, a report is made every two; 512 messages
/// are remembered; three chunks are dropped after a seek; a call of the pump puts 32 packets aside,
/// and twice as many refusals are borne.
pub proof fn law_limits()
    ensures
        THROTTLE_WINDOW_MS == 3000,
        REPORT_INTERVAL_NANOS == 2_000_000_000,
        MAX_KEYS == 512,
        AUDIO_CONVERGENCE_FRAMES == 3,
        MAX_PUMP_VIDEO_HELD == 32,
        MAX_STALLED == 2 * MAX_PUMP_VIDEO_HELD,
        AV_LOG_QUIET == -8,
{
}

/// What is held of a stream is what is in flight, what was refused and, for the pictures, what the
/// pump put aside, in this order; a packet of the other stream is not among it.
pub proof fn law_what_is_held<P>(s: SourceState<P>, p: Packet<P>)
    ensures
        s.in_flight is None && s.pending is None ==> s.held_video() == s.video_backlog,
        s.in_flight == Some(p) && p.stream == s.stream_index && s.pending is None ==> s.held_video()
            == seq![p] + s.video_backlog,
        s.in_flight is None && s.pending == Some(p) && p.stream == s.stream_index ==> s.held_video()
            == seq![p] + s.video_backlog,
        s.in_flight == Some(p) && p.stream != s.stream_index && s.pending is None ==> s.held_video()
            == s.video_backlog,
        s.audio is None ==> s.held_audio().len() == 0,
        s.audio is Some && s.in_flight is None && s.pending is None ==> s.held_audio().len() == 0,
        s.audio is Some && s.in_flight == Some(p) && p.stream == s.audio->0.index && s.pending
            is None ==> s.held_audio() == seq![p],
        s.audio is Some && s.in_flight is None && s.pending == Some(p) && p.stream
            == s.audio->0.index ==> s.held_audio() == seq![p],
        s.claims(p.stream) <==> p.stream == s.stream_index || (s.audio is Some && s.audio->0.index
            == p.stream),
{
    assert(s.in_flight is None && s.pending is None ==> s.held_video() =~= s.video_backlog);
    assert(s.in_flight == Some(p) && p.stream == s.stream_index && s.pending is None
        ==> s.held_video() =~= seq![p] + s.video_backlog);
    assert(s.in_flight is None && s.pending == Some(p) && p.stream == s.stream_index
        ==> s.held_video() =~= seq![p] + s.video_backlog);
    assert(s.in_flight == Some(p) && p.stream != s.stream_index && s.pending is None
        ==> s.held_video() =~= s.video_backlog);
    assert(s.audio is Some && s.in_flight == Some(p) && p.stream == s.audio->0.index && s.pending
        is None ==> s.held_audio() =~= seq![p]);
    assert(s.audio is Some && s.in_flight is None && s.pending == Some(p) && p.stream
        == s.audio->0.index ==> s.held_audio() =~= seq![p]);
}

} // verus!
