//! The media source: one packet stream, two decoders, one exit.
//!
//! A container holds a single stream of packets. [`FfmpegSource`] decides which packet goes to
//! which decoder and when; the calls into the demultiplexer and the decoders are made by its
//! driver. The driver performs the [`Request`] it is given and reports what happened; each report
//! yields the next request, until one says [`Request::Finish`].
//!
//! The rules of the exchange are those of the decoders: a decoder whose input is full refuses the
//! packet, which has to be offered again after its output was drained; a decoder reports its end
//! only after it was told that no more input comes.

use crate::player_core::audio_decoder::{
    at_speed, playable_speed, same_speed, AudioDecoder, AudioInfo, AudioStream, DecoderState,
    NORMAL_SPEED,
};
use crate::player_core::audio_output::AudioFormat;
use crate::player_core::frame::{
    size_of_i64, stream_duration, AudioChunk, DecodedFrame, Rational, VideoInfo,
};
use crate::time::{Duration, MAX_NANOS};
use std::collections::VecDeque;
use vstd::prelude::*;
use vstd::string::StringExecFns;

verus! {

/// How many video packets one call of the audio pump may put aside.
pub const MAX_PUMP_VIDEO_HELD: u32 = 32;

/// How often in a row a decoder may refuse its packet before a read gives up.
pub const MAX_STALLED: u32 = 64;

/// How many decoded audio frames are dropped after a seek: an audio decoder entered in the middle
/// of a stream produces degraded sound until it has converged.
pub const AUDIO_CONVERGENCE_FRAMES: u32 = 3;

/// One decoded unit of a media.
#[derive(Debug, Clone)]
pub enum MediaEvent<S> {
    /// A picture.
    Video(DecodedFrame),
    /// A stretch of sound.
    Audio(AudioChunk<S>),
}

/// A video stream as the container describes it.
#[derive(Debug, Clone, Copy, PartialEq, Eq, Structural)]
pub struct VideoStream {
    pub index: usize,
    pub time_base: Rational,
    /// Length in ticks of the time base.
    pub duration: i64,
    /// Average frames per second; without meaning where its denominator is zero.
    pub frame_rate: Rational,
    pub width: u32,
    pub height: u32,
}

impl VideoStream {
    /// The size of the length.
    pub open spec fn ticks(self) -> int {
        if self.duration < 0 {
            -self.duration
        } else {
            self.duration as int
        }
    }

    /// The length of the stream is a span of time.
    pub open spec fn measurable(self) -> bool {
        self.time_base.is_time(self.ticks()) && self.time_base.nanos(self.ticks()) <= MAX_NANOS
    }

    /// Whether the length of the stream is a span of time.
    pub fn is_measurable(&self) -> (r: bool)
        ensures
            r == self.measurable(),
    {
        self.time_base.is_span(size_of_i64(self.duration))
    }

    /// What the stream tells about itself.
    pub open spec fn described_by(self, info: VideoInfo) -> bool {
        &&& info.width == self.width
        &&& info.height == self.height
        &&& info.duration@ == self.time_base.nanos(self.ticks())
        &&& info.fps == if self.frame_rate.den != 0 {
            self.frame_rate
        } else {
            Rational { num: 0, den: 1 }
        }
    }
}

/// Why a media could not be opened.
#[derive(Debug)]
pub enum OpenError {
    /// There is no such file.
    NotFound(String),
    /// The media has no pictures.
    NoVideoStream,
}

impl OpenError {
    /// The message of the error.
    pub fn message(&self) -> (r: String)
        ensures
            r@ == (match *self {
                OpenError::NotFound(path) => "source not found: "@ + path@,
                OpenError::NoVideoStream => "no video stream in source"@,
            }),
    {
        match self {
            OpenError::NotFound(path) => {
                let mut text = "source not found: ".to_string();
                text.append(path.as_str());
                text
            },
            OpenError::NoVideoStream => "no video stream in source".to_string(),
        }
    }
}

/// Refuses a path at which there is no file.
pub fn check_source(path: &str, exists: bool) -> (r: Result<(), OpenError>)
    ensures
        exists ==> r is Ok,
        !exists ==> (r matches Err(OpenError::NotFound(p)) && p@ == path@),
{
    if exists {
        Ok(())
    } else {
        Err(OpenError::NotFound(path.to_string()))
    }
}

/// A compressed packet: the stream that it belongs to, and its payload.
#[derive(Debug)]
pub struct Packet<P> {
    pub stream: usize,
    pub data: P,
}

/// The audio side of a source.
#[derive(Debug, Clone, Copy, PartialEq, Eq, Structural)]
pub struct AudioTrack {
    /// Index of the audio stream.
    pub index: usize,
    /// The decoder is empty; the resampler may still hold the last samples.
    pub flushing_resampler: bool,
}

/// What the driver is to do next.
#[derive(Debug, Clone, Copy, PartialEq, Eq, Structural)]
pub enum Request {
    /// Ask the video decoder for a frame.
    ReceiveVideo,
    /// Ask the audio decoder for a chunk.
    ReceiveAudio,
    /// Ask the resampler for the samples that it still holds.
    FlushResampler,
    /// Read a packet from the container.
    ReadPacket,
    /// Offer the packet in flight to the video decoder.
    SendVideo,
    /// Offer the packet in flight to the audio decoder.
    SendAudio,
    /// Tell both decoders that no more packets come.
    SendEof,
    /// The call is over.
    Finish(Outcome),
}

/// How a call ended.
#[derive(Debug, Clone, Copy, PartialEq, Eq, Structural)]
pub enum Outcome {
    /// The video frame that was just received.
    Video,
    /// The audio chunk that was just received.
    Audio,
    /// Nothing to hand out: the end of the media, or nothing for now.
    Nothing,
    /// A newer seek interrupted the call.
    Cancelled,
    /// The outside call that was just made failed.
    Failed,
}

/// What a decoder answered to a request for output.
#[derive(Debug, Clone, Copy, PartialEq, Eq, Structural)]
pub enum Received {
    /// Output is there.
    Ready,
    /// The decoder wants more input first.
    Again,
    /// The decoder has handed out everything.
    End,
    /// Decoding failed.
    Failed,
}

/// What a decoder answered to a packet.
#[derive(Debug, Clone, Copy, PartialEq, Eq, Structural)]
pub enum Sent {
    /// The packet was taken.
    Accepted,
    /// The input is full; the packet has to be offered again.
    Full,
    /// The packet was refused for good.
    Failed,
}

/// What reading from the container gave.
#[derive(Debug)]
pub enum ReadOutcome<P> {
    /// A packet.
    Packet(Packet<P>),
    /// The end of the file.
    Eof,
    /// A damaged packet; the demultiplexer finds its way behind it.
    InvalidData,
    /// A newer seek interrupted the read.
    Interrupted,
    /// Reading failed, and would fail again.
    Failed,
}

/// What a seek in the container gave.
#[derive(Debug, Clone, Copy, PartialEq, Eq, Structural)]
pub enum SeekOutcome {
    /// The container stands at the new place.
    Done,
    /// A newer seek interrupted this one.
    Cancelled,
    /// The seek failed.
    Failed,
}

/// A seek that a newer request interrupted. It neither succeeded nor failed: the caller reads the
/// newest request and seeks again.
#[derive(Debug, Clone, Copy, PartialEq, Eq, Structural)]
pub struct SeekCancelled;

impl SeekCancelled {
    /// The message of the error.
    pub fn message(&self) -> (r: &'static str)
        ensures
            r@ == "seek cancelled by newer request"@,
    {
        "seek cancelled by newer request"
    }
}

/// Why a seek did not take place.
#[derive(Debug, Clone, Copy, PartialEq, Eq, Structural)]
pub enum SeekError {
    /// A newer request interrupted it.
    Cancelled(SeekCancelled),
    /// The container could not be positioned.
    Failed,
}

/// Every packet that was read for a stream since the last seek, and every packet that was handed
/// to its decoder since then.
pub struct PacketLog<P> {
    pub read: Seq<Packet<P>>,
    pub sent: Seq<Packet<P>>,
}

/// The state of a source.
#[verifier::reject_recursive_types(P)]
pub struct FfmpegSource<P> {
    info: VideoInfo,
    decoder: Option<AudioDecoder>,
    stream_index: usize,
    audio: Option<AudioTrack>,
    /// The packet that is being offered to its decoder.
    in_flight: Option<Packet<P>>,
    /// A packet that its decoder had no room for.
    pending: Option<Packet<P>>,
    /// Video packets that the audio pump read past, oldest first.
    video_backlog: VecDeque<Packet<P>>,
    /// The file is read to its end and the decoders know it.
    draining: bool,
    /// Refusals in a row.
    stalled: u32,
    /// Packets read by the current call of the pump.
    pumped: u32,
    /// Decoded audio frames still to be dropped.
    convergence: u32,
    /// Units before this time are not wanted.
    discard_line: Option<Duration>,
    video_log: Ghost<PacketLog<P>>,
    audio_log: Ghost<PacketLog<P>>,
}

/// The state of a source as its contracts speak of it.
#[verifier::ext_equal]
pub struct SourceState<P> {
    pub info: VideoInfo,
    pub decoder: Option<DecoderState>,
    pub stream_index: usize,
    pub audio: Option<AudioTrack>,
    pub in_flight: Option<Packet<P>>,
    pub pending: Option<Packet<P>>,
    pub video_backlog: Seq<Packet<P>>,
    pub draining: bool,
    pub stalled: u32,
    pub pumped: u32,
    pub convergence: u32,
    pub discard_line: Option<Duration>,
    pub video_log: PacketLog<P>,
    pub audio_log: PacketLog<P>,
}

/// The packet, where there is one and it belongs to `stream`.
pub open spec fn if_of<P>(packet: Option<Packet<P>>, stream: usize) -> Seq<Packet<P>> {
    match packet {
        Some(p) => if p.stream == stream {
            seq![p]
        } else {
            Seq::empty()
        },
        None => Seq::empty(),
    }
}

impl<P> SourceState<P> {
    /// The packets that were read for the video stream and not handed to its decoder, oldest first.
    pub open spec fn held_video(self) -> Seq<Packet<P>> {
        if_of(self.in_flight, self.stream_index) + if_of(self.pending, self.stream_index)
            + self.video_backlog
    }

    /// The packets that were read for the audio stream and not handed to its decoder, oldest first.
    pub open spec fn held_audio(self) -> Seq<Packet<P>> {
        match self.audio {
            Some(a) => if_of(self.in_flight, a.index) + if_of(self.pending, a.index),
            None => Seq::empty(),
        }
    }

    /// Whether one of the decoders wants the packets of `stream`.
    pub open spec fn claims(self, stream: usize) -> bool {
        stream == self.stream_index || (self.audio matches Some(a) && a.index == stream)
    }

    /// The request that offers `p` to its decoder.
    pub open spec fn offer(self, p: Packet<P>) -> Request {
        if p.stream == self.stream_index {
            Request::SendVideo
        } else {
            Request::SendAudio
        }
    }

    /// The source keeps its packets in order and loses none: what was read for a stream is what its
    /// decoder was given, followed by what is still held.
    pub open spec fn wf(self) -> bool {
        &&& self.audio is Some <==> self.decoder is Some
        &&& self.decoder matches Some(d) ==> d.wf()
        &&& self.audio matches Some(a) ==> a.index != self.stream_index
        &&& self.in_flight matches Some(p) ==> self.claims(p.stream)
        &&& self.pending matches Some(p) ==> self.claims(p.stream)
        &&& self.in_flight is Some ==> self.pending is None
        &&& forall|i: int|
            0 <= i < self.video_backlog.len() ==> (#[trigger] self.video_backlog[i]).stream
                == self.stream_index
        &&& self.stalled <= MAX_STALLED
        &&& self.pumped <= MAX_PUMP_VIDEO_HELD
        &&& self.video_log.read == self.video_log.sent + self.held_video()
        &&& self.audio_log.read == self.audio_log.sent + self.held_audio()
    }

    /// The state after the packet `p` was read and stands ready to be offered.
    pub open spec fn with_read(self, p: Packet<P>) -> SourceState<P> {
        SourceState { in_flight: Some(p), ..self.logged_read(p) }
    }

    /// The state after the logs took note that `p` was read.
    pub open spec fn logged_read(self, p: Packet<P>) -> SourceState<P> {
        if p.stream == self.stream_index {
            SourceState {
                video_log: PacketLog { read: self.video_log.read.push(p), ..self.video_log },
                ..self
            }
        } else {
            SourceState {
                audio_log: PacketLog { read: self.audio_log.read.push(p), ..self.audio_log },
                ..self
            }
        }
    }

    /// The state after the packet in flight was handed to its decoder.
    pub open spec fn handed_over(self) -> SourceState<P> {
        let p = self.in_flight->0;
        if p.stream == self.stream_index {
            SourceState {
                in_flight: None,
                video_log: PacketLog { sent: self.video_log.sent.push(p), ..self.video_log },
                ..self
            }
        } else {
            SourceState {
                in_flight: None,
                audio_log: PacketLog { sent: self.audio_log.sent.push(p), ..self.audio_log },
                ..self
            }
        }
    }
}

impl<P> View for FfmpegSource<P> {
    type V = SourceState<P>;

    closed spec fn view(&self) -> SourceState<P> {
        SourceState {
            info: self.info,
            decoder: match self.decoder {
                Some(d) => Some(d@),
                None => None,
            },
            stream_index: self.stream_index,
            audio: self.audio,
            in_flight: self.in_flight,
            pending: self.pending,
            video_backlog: self.video_backlog@,
            draining: self.draining,
            stalled: self.stalled,
            pumped: self.pumped,
            convergence: self.convergence,
            discard_line: self.discard_line,
            video_log: self.video_log@,
            audio_log: self.audio_log@,
        }
    }
}

impl<P> FfmpegSource<P> {
    /// A source over the streams of an opened container, with nothing read and nothing held. A
    /// media without pictures is refused; one without sound is played in silence, as is any media
    /// where there is no device to play sound on.
    pub fn from_input_with(
        video: Option<VideoStream>,
        audio: Option<AudioStream>,
        audio_format: Option<AudioFormat>,
    ) -> (r: Result<FfmpegSource<P>, OpenError>)
        requires
            video matches Some(v) ==> v.measurable(),
            audio_format is Some ==> (audio matches Some(a) ==> a.measurable()),
            audio_format is Some && video is Some && audio is Some ==> video->0.index
                != audio->0.index,
        ensures
            video is None ==> r matches Err(OpenError::NoVideoStream),
            video matches Some(v) ==> {
                &&& r matches Ok(s)
                &&& s@.wf()
                &&& v.described_by(s@.info)
                &&& opened(s@, v, audio, audio_format)
            },
    {
        match video {
            Some(v) => {
                let duration = stream_duration(v.duration, v.time_base);
                let fps = if v.frame_rate.den != 0 {
                    v.frame_rate
                } else {
                    Rational { num: 0, den: 1 }
                };
                let (track, decoder) = match (audio_format, audio) {
                    (Some(format), Some(a)) => (
                        Some(AudioTrack { index: a.index, flushing_resampler: false }),
                        Some(AudioDecoder::new(&a, format)),
                    ),
                    _ => (None, None),
                };
                Ok(
                    FfmpegSource {
                        info: VideoInfo { width: v.width, height: v.height, duration, fps },
                        decoder,
                        stream_index: v.index,
                        audio: track,
                        in_flight: None,
                        pending: None,
                        video_backlog: VecDeque::new(),
                        draining: false,
                        stalled: 0,
                        pumped: 0,
                        convergence: 0,
                        discard_line: None,
                        video_log: Ghost(PacketLog { read: Seq::empty(), sent: Seq::empty() }),
                        audio_log: Ghost(PacketLog { read: Seq::empty(), sent: Seq::empty() }),
                    },
                )
            },
            None => Err(OpenError::NoVideoStream),
        }
    }

    /// What is known of the video stream.
    pub fn video_info(&self) -> (r: VideoInfo)
        ensures
            r == self@.info,
    {
        self.info
    }

    /// What is known of the audio stream, where one is decoded.
    pub fn audio_info(&self) -> (r: Option<AudioInfo>)
        ensures
            r == (match self@.decoder {
                Some(d) => Some(d.info),
                None => None,
            }),
    {
        match self.decoder {
            Some(d) => Some(d.info()),
            None => None,
        }
    }

    /// Sets the playing speed. Where that changes the resampler's rate, the resampler has to be
    /// built anew for the rate that is returned. Without sound there is nothing to do.
    pub fn set_speed(&mut self, speed: u64) -> (rebuild: Option<u32>)
        requires
            old(self)@.wf(),
        ensures
            final(self)@.wf(),
            match old(self)@.decoder {
                Some(d) => {
                    &&& final(self)@ == (SourceState {
                        decoder: Some(at_speed(d, speed)),
                        ..old(self)@
                    })
                    &&& rebuild == (if same_speed(playable_speed(speed), d.speed) {
                        None
                    } else {
                        Some(at_speed(d, speed).output_rate)
                    })
                },
                None => final(self)@ == old(self)@ && rebuild is None,
            },
    {
        match self.decoder {
            Some(d) => {
                let mut d = d;
                let rebuild = d.set_speed(speed);
                self.decoder = Some(d);
                proof {
                    assert(self@.held_video() =~= old(self)@.held_video());
                    assert(self@.held_audio() =~= old(self)@.held_audio());
                }
                rebuild
            },
            None => None,
        }
    }

    /// Whether a chunk can be made of so many samples with this time stamp: there is sound, and the
    /// chunk lies on the time line.
    pub fn can_take(&self, timestamp: Option<i64>, samples: usize) -> (r: bool)
        ensures
            r == (self@.decoder matches Some(d) && d.accepts(timestamp, samples as nat)),
    {
        match self.decoder {
            Some(d) => d.can_take(timestamp, samples),
            None => false,
        }
    }

    /// Makes a chunk of the samples that the audio decoder has just put out.
    pub fn audio_chunk<S>(&mut self, timestamp: Option<i64>, samples: Vec<S>) -> (chunk: AudioChunk<
        S,
    >)
        requires
            old(self)@.wf(),
            old(self)@.decoder matches Some(d) && d.accepts(timestamp, samples@.len()),
        ensures
            final(self)@.wf(),
            ({
                let d = old(self)@.decoder->0;
                let end = (d.start_of(timestamp) + d.length_of(samples@.len())) as nat;
                &&& chunk.samples == samples
                &&& chunk.channels == d.target.channels
                &&& chunk.sample_rate == d.output_rate
                &&& chunk.pts@ == d.start_of(timestamp)
                &&& final(self)@ == (SourceState {
                    decoder: Some(DecoderState { next_pts: end, ..d }),
                    ..old(self)@
                })
            }),
    {
        match self.decoder {
            Some(d) => {
                let mut d = d;
                let chunk = d.receive(timestamp, samples);
                self.decoder = Some(d);
                proof {
                    assert(self@.held_video() =~= old(self)@.held_video());
                    assert(self@.held_audio() =~= old(self)@.held_audio());
                }
                chunk
            },
            None => {
                proof {
                    assert(false);
                }
                AudioChunk {
                    samples,
                    channels: 0,
                    sample_rate: 0,
                    pts: Duration::zero(),
                }
            },
        }
    }

    /// Follows a read that ended with `outcome` where only pictures are wanted: sound is passed
    /// over by reading on, and everything else is what the caller gets.
    pub fn next_frame(&mut self, outcome: Outcome) -> (r: Request)
        requires
            old(self)@.wf(),
            old(self)@.in_flight is None,
        ensures
            final(self)@.wf(),
            asks(final(self)@, r),
            outcome == Outcome::Audio ==> final(self)@ == (SourceState { stalled: 0, ..old(self)@ })
                && r == Request::ReceiveVideo,
            outcome != Outcome::Audio ==> final(self)@ == old(self)@ && r == Request::Finish(
                outcome,
            ),
    {
        match outcome {
            Outcome::Audio => self.next_event(),
            _ => Request::Finish(outcome),
        }
    }

    /// The packet that a `Send` request speaks of.
    pub fn in_flight(&self) -> (r: Option<&Packet<P>>)
        ensures
            r == (match self@.in_flight {
                Some(p) => Some(&p),
                None => None,
            }),
    {
        self.in_flight.as_ref()
    }

    /// Decoded audio frames that are still to be dropped.
    pub fn audio_convergence_budget(&self) -> (n: u32)
        ensures
            n == self@.convergence,
    {
        self.convergence
    }

    /// Lets units before `line` be unwanted, as where a place is taken up that a preview has sought
    /// already. No seek takes place: in particular no sound is dropped that a seek would drop.
    pub fn arm_discards(&mut self, line: Duration)
        requires
            old(self)@.wf(),
        ensures
            final(self)@.wf(),
            final(self)@ == (SourceState { discard_line: Some(line), ..old(self)@ }),
    {
        self.discard_line = Some(line);
        proof {
            assert(self@.held_video() =~= old(self)@.held_video());
            assert(self@.held_audio() =~= old(self)@.held_audio());
        }
    }

    /// Whether a picture of the time `pts` is unwanted.
    pub fn discards(&self, pts: Duration) -> (r: bool)
        ensures
            r == (self@.discard_line matches Some(line) && pts@ < line@),
    {
        match self.discard_line {
            Some(line) => pts < line,
            None => false,
        }
    }

    /// Whether a stretch of sound that starts at `pts` and lasts for `length` is unwanted: it ends
    /// before the line. One that reaches across the line is kept, so that no hole is left.
    pub fn discards_sound(&self, pts: Duration, length: Duration) -> (r: bool)
        ensures
            r == (self@.discard_line matches Some(line) && pts@ + length@ <= line@),
    {
        match self.discard_line {
            Some(line) => pts <= line && length <= line.minus(pts),
            None => false,
        }
    }

    /// Whether the file is read to its end.
    pub fn is_draining(&self) -> (r: bool)
        ensures
            r == self@.draining,
    {
        self.draining
    }

    /// How many video packets wait for their turn behind the audio pump.
    pub fn backlog_len(&self) -> (n: usize)
        ensures
            n == self@.video_backlog.len(),
    {
        self.video_backlog.len()
    }

    /// Starts a read of the next unit.
    pub fn next_event(&mut self) -> (r: Request)
        requires
            old(self)@.wf(),
            old(self)@.in_flight is None,
        ensures
            asks(final(self)@, r),
            final(self)@.wf(),
            final(self)@ == (SourceState { stalled: 0, ..old(self)@ }),
            r == Request::ReceiveVideo,
    {
        self.stalled = 0;
        Request::ReceiveVideo
    }

    /// Chooses the next packet for a decoder once neither decoder has output: the refused packet
    /// first, then what the pump put aside, then a fresh one; at the end of the file the rest of
    /// the resampler.
    fn feed(&mut self) -> (r: Request)
        requires
            old(self)@.wf(),
            old(self)@.in_flight is None,
        ensures
            asks(final(self)@, r),
            final(self)@.wf(),
            fed(old(self)@, final(self)@, r),
    {
        if self.draining {
            match self.audio {
                Some(a) => if a.flushing_resampler {
                    Request::FlushResampler
                } else {
                    Request::Finish(Outcome::Nothing)
                },
                None => Request::Finish(Outcome::Nothing),
            }
        } else {
            match self.pending.take() {
                Some(p) => {
                    let r = if p.stream == self.stream_index {
                        Request::SendVideo
                    } else {
                        Request::SendAudio
                    };
                    self.in_flight = Some(p);
                    proof {
                        assert(self@.held_video() =~= old(self)@.held_video());
                        assert(self@.held_audio() =~= old(self)@.held_audio());
                    }
                    r
                },
                None => match self.video_backlog.pop_front() {
                    Some(p) => {
                        self.in_flight = Some(p);
                        proof {
                            assert(self@.held_video() =~= old(self)@.held_video());
                            assert(self@.held_audio() =~= old(self)@.held_audio());
                        }
                        Request::SendVideo
                    },
                    None => Request::ReadPacket,
                },
            }
        }
    }

    /// The video decoder answered to `ReceiveVideo`.
    pub fn on_video(&mut self, received: Received) -> (r: Request)
        requires
            old(self)@.wf(),
            old(self)@.in_flight is None,
        ensures
            asks(final(self)@, r),
            final(self)@.wf(),
            video_answered(old(self)@, received, final(self)@, r),
    {
        match received {
            Received::Ready => Request::Finish(Outcome::Video),
            Received::Failed => Request::Finish(Outcome::Failed),
            Received::Again | Received::End => {
                if self.audio.is_some() {
                    Request::ReceiveAudio
                } else {
                    self.feed()
                }
            },
        }
    }

    /// The audio decoder answered to `ReceiveAudio`. The first chunks after a seek are dropped; at
    /// the end of the file an empty decoder hands over to the resampler.
    pub fn on_audio(&mut self, received: Received) -> (r: Request)
        requires
            old(self)@.wf(),
            old(self)@.in_flight is None,
            old(self)@.audio is Some,
        ensures
            asks(final(self)@, r),
            final(self)@.wf(),
            audio_answered(old(self)@, received, final(self)@, r),
    {
        match received {
            Received::Ready => {
                if self.convergence > 0 {
                    self.convergence = self.convergence - 1;
                    Request::ReceiveAudio
                } else {
                    Request::Finish(Outcome::Audio)
                }
            },
            Received::Failed => Request::Finish(Outcome::Failed),
            Received::Again | Received::End => {
                if self.draining {
                    match self.audio {
                        Some(a) => {
                            self.audio = Some(
                                AudioTrack { index: a.index, flushing_resampler: true },
                            );
                        },
                        None => {},
                    }
                }
                proof {
                    assert(self@ =~= audio_ran_dry(old(self)@));
                    assert(self@.held_audio() =~= old(self)@.held_audio());
                }
                self.feed()
            },
        }
    }

    /// The resampler answered to `FlushResampler`: `samples` tells whether it still held any.
    pub fn on_tail(&mut self, samples: bool) -> (r: Request)
        requires
            old(self)@.wf(),
            old(self)@.in_flight is None,
        ensures
            asks(final(self)@, r),
            final(self)@ == old(self)@,
            r == after_tail(samples),
    {
        if samples {
            Request::Finish(Outcome::Audio)
        } else {
            Request::Finish(Outcome::Nothing)
        }
    }

    /// The container answered to `ReadPacket`. A damaged packet is skipped, the end of the file
    /// starts the draining of both decoders, and every other error ends the call: an error must not
    /// pass for the end of the file.
    pub fn on_packet(&mut self, read: ReadOutcome<P>) -> (r: Request)
        requires
            old(self)@.wf(),
            old(self)@.in_flight is None,
            old(self)@.pending is None,
            old(self)@.video_backlog.len() == 0,
        ensures
            asks(final(self)@, r),
            final(self)@.wf(),
            packet_answered(old(self)@, read, final(self)@, r),
    {
        match read {
            ReadOutcome::Packet(p) => {
                let wanted_video = p.stream == self.stream_index;
                let wanted_audio = match self.audio {
                    Some(a) => a.index == p.stream,
                    None => false,
                };
                if wanted_video || wanted_audio {
                    self.take_in(p);
                    if wanted_video {
                        Request::SendVideo
                    } else {
                        Request::SendAudio
                    }
                } else {
                    self.stalled = 0;
                    Request::ReceiveVideo
                }
            },
            ReadOutcome::Eof => {
                self.draining = true;
                Request::SendEof
            },
            ReadOutcome::InvalidData => Request::ReadPacket,
            ReadOutcome::Interrupted => Request::Finish(Outcome::Cancelled),
            ReadOutcome::Failed => Request::Finish(Outcome::Failed),
        }
    }

    /// Puts a packet that was just read in flight.
    fn take_in(&mut self, p: Packet<P>)
        requires
            old(self)@.wf(),
            old(self)@.in_flight is None,
            old(self)@.pending is None,
            old(self)@.claims(p.stream),
            p.stream == old(self)@.stream_index ==> old(self)@.video_backlog.len() == 0,
        ensures
            final(self)@.wf(),
            final(self)@ == old(self)@.with_read(p),
    {
        let ghost before = self@;
        proof {
            if p.stream == self.stream_index {
                let log = self.video_log@;
                self.video_log@ = PacketLog { read: log.read.push(p), ..log };
            } else {
                let log = self.audio_log@;
                self.audio_log@ = PacketLog { read: log.read.push(p), ..log };
            }
        }
        self.in_flight = Some(p);
        proof {
            assert(self@ =~= before.with_read(p));
            assert(before.held_video() =~= before.video_backlog);
            assert(before.held_audio() =~= Seq::empty());
            if p.stream == before.stream_index {
                assert(self@.held_video() =~= before.held_video().push(p));
                assert(self@.held_audio() =~= Seq::empty());
                assert(self@.video_log.read =~= self@.video_log.sent + self@.held_video());
            } else {
                assert(self@.held_video() =~= before.held_video());
                assert(self@.held_audio() =~= seq![p]);
                assert(self@.audio_log.read =~= self@.audio_log.sent + self@.held_audio());
            }
        }
    }

    /// The decoders were told that no more packets come.
    pub fn on_eof_sent(&mut self) -> (r: Request)
        requires
            old(self)@.wf(),
            old(self)@.in_flight is None,
        ensures
            asks(final(self)@, r),
            final(self)@ == old(self)@,
            r == Request::ReceiveVideo,
    {
        Request::ReceiveVideo
    }

    /// Ends the flight of a packet that its decoder took, or refused for good.
    fn let_go(&mut self)
        requires
            old(self)@.wf(),
            old(self)@.in_flight is Some,
        ensures
            final(self)@.wf(),
            final(self)@ == old(self)@.handed_over(),
    {
        let ghost before = self@;
        let ghost p = before.in_flight->0;
        proof {
            if p.stream == self.stream_index {
                let log = self.video_log@;
                self.video_log@ = PacketLog { sent: log.sent.push(p), ..log };
            } else {
                let log = self.audio_log@;
                self.audio_log@ = PacketLog { sent: log.sent.push(p), ..log };
            }
        }
        self.in_flight = None;
        proof {
            assert(self@ =~= before.handed_over());
            if p.stream == before.stream_index {
                assert(before.held_video() =~= seq![p] + before.video_backlog);
                assert(self@.held_video() =~= before.video_backlog);
                assert(self@.held_audio() =~= before.held_audio());
                assert(self@.video_log.read =~= self@.video_log.sent + self@.held_video());
            } else {
                assert(before.held_audio() =~= seq![p]);
                assert(self@.held_audio() =~= Seq::empty());
                assert(self@.held_video() =~= before.held_video());
                assert(self@.audio_log.read =~= self@.audio_log.sent + self@.held_audio());
            }
        }
    }

    /// Keeps the packet in flight for the next attempt.
    fn put_back(&mut self)
        requires
            old(self)@.wf(),
            old(self)@.in_flight is Some,
        ensures
            final(self)@.wf(),
            final(self)@ == (SourceState {
                in_flight: None,
                pending: old(self)@.in_flight,
                ..old(self)@
            }),
    {
        let ghost before = self@;
        self.pending = self.in_flight.take();
        proof {
            assert(self@.held_video() =~= before.held_video());
            assert(self@.held_audio() =~= before.held_audio());
        }
    }

    /// The decoder answered to `SendVideo` or `SendAudio`. A packet that found no room is kept for
    /// the next attempt; too many refusals in a row end the call, so that the caller can seek.
    pub fn on_sent(&mut self, sent: Sent) -> (r: Request)
        requires
            old(self)@.wf(),
            old(self)@.in_flight is Some,
        ensures
            asks(final(self)@, r),
            final(self)@.wf(),
            sent_answered(old(self)@, sent, final(self)@, r),
    {
        match sent {
            Sent::Accepted => {
                self.let_go();
                self.stalled = 0;
                Request::ReceiveVideo
            },
            Sent::Failed => {
                self.let_go();
                Request::Finish(Outcome::Failed)
            },
            Sent::Full => {
                self.put_back();
                if self.stalled < MAX_STALLED {
                    self.stalled = self.stalled + 1;
                    Request::ReceiveVideo
                } else {
                    Request::Finish(Outcome::Nothing)
                }
            },
        }
    }
}

impl<P> FfmpegSource<P> {
    /// Starts a call of the audio pump, which fetches audio ahead of the video: it never touches
    /// the video decoder, and puts the video packets that it reads past aside.
    pub fn try_next_audio(&mut self) -> (r: Request)
        requires
            old(self)@.wf(),
            old(self)@.in_flight is None,
        ensures
            pump_asks(final(self)@, r),
            final(self)@.wf(),
            final(self)@ == (SourceState { pumped: 0, ..old(self)@ }),
            r == pump_begins(old(self)@),
    {
        self.pumped = 0;
        if self.audio.is_some() {
            Request::ReceiveAudio
        } else {
            Request::Finish(Outcome::Nothing)
        }
    }

    /// Fetches one more packet for the pump, unless the file is at its end or the call has fetched
    /// enough. A refused audio packet goes first; a refused video packet joins the others that wait.
    fn pump(&mut self) -> (r: Request)
        requires
            old(self)@.wf(),
            old(self)@.audio is Some,
            old(self)@.in_flight is None,
        ensures
            pump_asks(final(self)@, r),
            final(self)@.wf(),
            pumped_on(old(self)@, final(self)@, r),
    {
        if self.draining || self.pumped >= MAX_PUMP_VIDEO_HELD {
            Request::Finish(Outcome::Nothing)
        } else {
            let ghost before = self@;
            self.pumped = self.pumped + 1;
            match self.pending.take() {
                Some(p) => {
                    if p.stream == self.stream_index {
                        self.video_backlog.push_front(p);
                        proof {
                            assert(self@.held_video() =~= before.held_video());
                            assert(self@.held_audio() =~= before.held_audio());
                        }
                        Request::ReadPacket
                    } else {
                        self.in_flight = Some(p);
                        proof {
                            assert(self@.held_video() =~= before.held_video());
                            assert(self@.held_audio() =~= before.held_audio());
                        }
                        Request::SendAudio
                    }
                },
                None => Request::ReadPacket,
            }
        }
    }

    /// The audio decoder answered to a `ReceiveAudio` of the pump.
    pub fn pump_on_audio(&mut self, received: Received) -> (r: Request)
        requires
            old(self)@.wf(),
            old(self)@.in_flight is None,
            old(self)@.audio is Some,
        ensures
            pump_asks(final(self)@, r),
            final(self)@.wf(),
            pump_audio_answered(old(self)@, received, final(self)@, r),
    {
        match received {
            Received::Ready => {
                if self.convergence > 0 {
                    self.convergence = self.convergence - 1;
                    Request::ReceiveAudio
                } else {
                    Request::Finish(Outcome::Audio)
                }
            },
            Received::Failed => Request::Finish(Outcome::Failed),
            Received::Again | Received::End => self.pump(),
        }
    }

    /// The container answered to a `ReadPacket` of the pump. Neither the end of the file nor an
    /// error is the pump's to report: the next read meets them again.
    pub fn pump_on_packet(&mut self, read: ReadOutcome<P>) -> (r: Request)
        requires
            old(self)@.wf(),
            old(self)@.audio is Some,
            old(self)@.in_flight is None,
            old(self)@.pending is None,
        ensures
            pump_asks(final(self)@, r),
            final(self)@.wf(),
            pump_packet_answered(old(self)@, read, final(self)@, r),
    {
        match read {
            ReadOutcome::Packet(p) => {
                if p.stream == self.stream_index {
                    let ghost before = self@;
                    proof {
                        let log = self.video_log@;
                        self.video_log@ = PacketLog { read: log.read.push(p), ..log };
                    }
                    self.video_backlog.push_back(p);
                    proof {
                        assert(self@ =~= set_aside(before, p));
                        assert(before.held_video() =~= before.video_backlog);
                        assert(self@.held_video() =~= before.held_video().push(p));
                        assert(self@.video_log.read =~= self@.video_log.sent + self@.held_video());
                        assert(self@.held_audio() =~= before.held_audio());
                    }
                    self.pump()
                } else {
                    let wanted = match self.audio {
                        Some(a) => a.index == p.stream,
                        None => false,
                    };
                    if wanted {
                        self.take_in(p);
                        Request::SendAudio
                    } else {
                        self.pump()
                    }
                }
            },
            ReadOutcome::InvalidData => Request::ReadPacket,
            ReadOutcome::Eof | ReadOutcome::Interrupted | ReadOutcome::Failed => Request::Finish(
                Outcome::Nothing,
            ),
        }
    }

    /// The audio decoder answered to a `SendAudio` of the pump.
    pub fn pump_on_sent(&mut self, sent: Sent) -> (r: Request)
        requires
            old(self)@.wf(),
            old(self)@.audio is Some,
            old(self)@.in_flight is Some,
        ensures
            pump_asks(final(self)@, r),
            final(self)@.wf(),
            pump_sent_answered(old(self)@, sent, final(self)@, r),
    {
        match sent {
            Sent::Accepted => {
                self.let_go();
                Request::ReceiveAudio
            },
            Sent::Failed => {
                self.let_go();
                Request::Finish(Outcome::Failed)
            },
            Sent::Full => {
                self.put_back();
                Request::Finish(Outcome::Nothing)
            },
        }
    }

    /// The container answered to a seek. Where it stands at the new place, everything that belongs
    /// to the old one is forgotten, and a source that had reached its end can be read again.
    pub fn seek(&mut self, outcome: SeekOutcome) -> (r: Result<(), SeekError>)
        requires
            old(self)@.wf(),
            old(self)@.in_flight is None,
        ensures
            final(self)@.wf(),
            match outcome {
                SeekOutcome::Done => r is Ok && final(self)@ == moved(old(self)@),
                SeekOutcome::Cancelled => r == Err::<(), SeekError>(
                    SeekError::Cancelled(SeekCancelled),
                ) && final(self)@ == old(self)@,
                SeekOutcome::Failed => r == Err::<(), SeekError>(SeekError::Failed) && final(self)@
                    == old(self)@,
            },
    {
        match outcome {
            SeekOutcome::Done => {
                match self.audio {
                    Some(a) => {
                        self.audio = Some(AudioTrack { index: a.index, flushing_resampler: false });
                    },
                    None => {},
                }
                match self.decoder {
                    Some(d) => {
                        let mut d = d;
                        d.flush();
                        self.decoder = Some(d);
                    },
                    None => {},
                }
                self.pending = None;
                self.video_backlog.clear();
                self.draining = false;
                self.convergence = AUDIO_CONVERGENCE_FRAMES;
                self.discard_line = None;
                proof {
                    self.video_log@ = PacketLog { read: Seq::empty(), sent: Seq::empty() };
                    self.audio_log@ = PacketLog { read: Seq::empty(), sent: Seq::empty() };
                    assert(self@.held_video() =~= Seq::<Packet<P>>::empty());
                    assert(self@.held_audio() =~= Seq::<Packet<P>>::empty());
                    assert(self@ =~= moved(old(self)@));
                }
                Ok(())
            },
            SeekOutcome::Cancelled => Err(SeekError::Cancelled(SeekCancelled)),
            SeekOutcome::Failed => Err(SeekError::Failed),
        }
    }
}

/// The state of a source that was just opened.
pub open spec fn opened<P>(
    s: SourceState<P>,
    video: VideoStream,
    audio: Option<AudioStream>,
    format: Option<AudioFormat>,
) -> bool {
    &&& s.stream_index == video.index
    &&& match (audio, format) {
        (Some(a), Some(f)) => {
            &&& s.audio == Some(AudioTrack { index: a.index, flushing_resampler: false })
            &&& s.decoder matches Some(d)
            &&& d.time_base == a.time_base
            &&& d.target == f
            &&& d.speed == NORMAL_SPEED
            &&& d.output_rate == f.sample_rate
            &&& d.next_pts == 0
            &&& d.info.sample_rate == a.sample_rate
            &&& d.info.channels == a.channels
            &&& d.info.duration@ == a.time_base.nanos(a.ticks())
        },
        _ => s.audio is None && s.decoder is None,
    }
    &&& s.in_flight is None
    &&& s.pending is None
    &&& s.video_backlog.len() == 0
    &&& !s.draining
    &&& s.stalled == 0
    &&& s.pumped == 0
    &&& s.convergence == 0
    &&& s.discard_line is None
    &&& s.video_log.read.len() == 0
    &&& s.video_log.sent.len() == 0
    &&& s.audio_log.read.len() == 0
    &&& s.audio_log.sent.len() == 0
}

/// The state is one in which the driver can answer the request `r` of a read. Every request that a
/// read makes is made in such a state, and every answer asks for no more than this.
pub open spec fn asks<P>(s: SourceState<P>, r: Request) -> bool {
    match r {
        Request::ReceiveVideo | Request::FlushResampler | Request::SendEof | Request::Finish(_) =>
        s.in_flight is None,
        Request::ReceiveAudio => s.in_flight is None && s.audio is Some,
        Request::ReadPacket => {
            &&& s.in_flight is None
            &&& s.pending is None
            &&& s.video_backlog.len() == 0
        },
        Request::SendVideo => s.in_flight matches Some(p) && p.stream == s.stream_index,
        Request::SendAudio => s.in_flight matches Some(p) && s.audio matches Some(a) && p.stream
            == a.index,
    }
}

/// The state is one in which the driver can answer the request `r` of the pump, which never
/// touches the video decoder.
pub open spec fn pump_asks<P>(s: SourceState<P>, r: Request) -> bool {
    match r {
        Request::Finish(_) => s.in_flight is None,
        Request::ReceiveAudio => s.in_flight is None && s.audio is Some,
        Request::ReadPacket => s.in_flight is None && s.pending is None && s.audio is Some,
        Request::SendAudio => s.in_flight matches Some(p) && s.audio matches Some(a) && p.stream
            == a.index,
        _ => false,
    }
}

/// The state after the pump put the video packet `p` aside.
pub open spec fn set_aside<P>(s: SourceState<P>, p: Packet<P>) -> SourceState<P> {
    SourceState { video_backlog: s.video_backlog.push(p), ..s.logged_read(p) }
}

/// What the pump does once the audio decoder has no output.
pub open spec fn pumped_on<P>(before: SourceState<P>, after: SourceState<P>, r: Request) -> bool {
    if before.draining || before.pumped >= MAX_PUMP_VIDEO_HELD {
        after == before && r == Request::Finish(Outcome::Nothing)
    } else {
        let counted = SourceState { pumped: (before.pumped + 1) as u32, pending: None, ..before };
        match before.pending {
            Some(p) => if p.stream == before.stream_index {
                &&& after == (SourceState {
                    video_backlog: seq![p] + before.video_backlog,
                    ..counted
                })
                &&& r == Request::ReadPacket
            } else {
                after == (SourceState { in_flight: Some(p), ..counted }) && r == Request::SendAudio
            },
            None => after == counted && r == Request::ReadPacket,
        }
    }
}

/// What a read does with a packet that its decoder has no room for: it is kept, and offered again
/// after the decoders were asked for output, unless that has happened too often in a row.
pub open spec fn refused<P>(before: SourceState<P>, after: SourceState<P>, r: Request) -> bool {
    let kept = SourceState { in_flight: None, pending: before.in_flight, ..before };
    if before.stalled < MAX_STALLED {
        &&& after == (SourceState { stalled: (before.stalled + 1) as u32, ..kept })
        &&& r == Request::ReceiveVideo
    } else {
        after == kept && r == Request::Finish(Outcome::Nothing)
    }
}

/// The state after the container was put to another place.
pub open spec fn moved<P>(s: SourceState<P>) -> SourceState<P> {
    SourceState {
        decoder: match s.decoder {
            Some(d) => Some(DecoderState { next_pts: 0, ..d }),
            None => None,
        },
        audio: match s.audio {
            Some(a) => Some(AudioTrack { index: a.index, flushing_resampler: false }),
            None => None,
        },
        pending: None,
        video_backlog: Seq::empty(),
        draining: false,
        convergence: AUDIO_CONVERGENCE_FRAMES,
        discard_line: None,
        video_log: PacketLog { read: Seq::empty(), sent: Seq::empty() },
        audio_log: PacketLog { read: Seq::empty(), sent: Seq::empty() },
        ..s
    }
}

/// The state after the audio decoder had no output: at the end of the file the resampler is next.
pub open spec fn audio_ran_dry<P>(s: SourceState<P>) -> SourceState<P> {
    if s.draining {
        SourceState {
            audio: Some(AudioTrack { index: s.audio->0.index, flushing_resampler: true }),
            ..s
        }
    } else {
        s
    }
}

/// What a read does once neither decoder has output.
pub open spec fn fed<P>(before: SourceState<P>, after: SourceState<P>, r: Request) -> bool {
    if before.draining {
        &&& after == before
        &&& r == (if before.audio matches Some(a) && a.flushing_resampler {
            Request::FlushResampler
        } else {
            Request::Finish(Outcome::Nothing)
        })
    } else if before.pending is Some {
        &&& after == (SourceState { in_flight: before.pending, pending: None, ..before })
        &&& r == before.offer(before.pending->0)
    } else if before.video_backlog.len() > 0 {
        &&& after == (SourceState {
            in_flight: Some(before.video_backlog[0]),
            video_backlog: before.video_backlog.drop_first(),
            ..before
        })
        &&& r == Request::SendVideo
    } else {
        after == before && r == Request::ReadPacket
    }
}

/// What a read does with the video decoder's answer. The end of one decoder says nothing of the
/// other one.
pub open spec fn video_answered<P>(
    s: SourceState<P>,
    received: Received,
    t: SourceState<P>,
    r: Request,
) -> bool {
    match received {
        Received::Ready => t == s && r == Request::Finish(Outcome::Video),
        Received::Failed => t == s && r == Request::Finish(Outcome::Failed),
        Received::Again | Received::End => if s.audio is Some {
            t == s && r == Request::ReceiveAudio
        } else {
            fed(s, t, r)
        },
    }
}

/// What a read does with the audio decoder's answer.
pub open spec fn audio_answered<P>(
    s: SourceState<P>,
    received: Received,
    t: SourceState<P>,
    r: Request,
) -> bool {
    match received {
        Received::Ready => chunk_came(s, t, r),
        Received::Failed => t == s && r == Request::Finish(Outcome::Failed),
        Received::Again | Received::End => fed(audio_ran_dry(s), t, r),
    }
}

/// What is done with a chunk of sound: the first ones after a seek are dropped.
pub open spec fn chunk_came<P>(s: SourceState<P>, t: SourceState<P>, r: Request) -> bool {
    if s.convergence > 0 {
        &&& t == (SourceState { convergence: (s.convergence - 1) as u32, ..s })
        &&& r == Request::ReceiveAudio
    } else {
        t == s && r == Request::Finish(Outcome::Audio)
    }
}

/// How a read goes on once the resampler was asked for what it still holds.
pub open spec fn after_tail(samples: bool) -> Request {
    Request::Finish(
        if samples {
            Outcome::Audio
        } else {
            Outcome::Nothing
        },
    )
}

/// What a read does with the container's answer.
pub open spec fn packet_answered<P>(
    s: SourceState<P>,
    read: ReadOutcome<P>,
    t: SourceState<P>,
    r: Request,
) -> bool {
    match read {
        ReadOutcome::Packet(p) => if s.claims(p.stream) {
            t == s.with_read(p) && r == s.offer(p)
        } else {
            t == (SourceState { stalled: 0, ..s }) && r == Request::ReceiveVideo
        },
        ReadOutcome::Eof => t == (SourceState { draining: true, ..s }) && r == Request::SendEof,
        ReadOutcome::InvalidData => t == s && r == Request::ReadPacket,
        ReadOutcome::Interrupted => t == s && r == Request::Finish(Outcome::Cancelled),
        ReadOutcome::Failed => t == s && r == Request::Finish(Outcome::Failed),
    }
}

/// What a read does with a decoder's answer to a packet.
pub open spec fn sent_answered<P>(
    s: SourceState<P>,
    sent: Sent,
    t: SourceState<P>,
    r: Request,
) -> bool {
    match sent {
        Sent::Accepted => t == (SourceState { stalled: 0, ..s.handed_over() }) && r
            == Request::ReceiveVideo,
        Sent::Failed => t == s.handed_over() && r == Request::Finish(Outcome::Failed),
        Sent::Full => refused(s, t, r),
    }
}

/// What the pump asks for first.
pub open spec fn pump_begins<P>(s: SourceState<P>) -> Request {
    if s.audio is Some {
        Request::ReceiveAudio
    } else {
        Request::Finish(Outcome::Nothing)
    }
}

/// What the pump does with the audio decoder's answer.
pub open spec fn pump_audio_answered<P>(
    s: SourceState<P>,
    received: Received,
    t: SourceState<P>,
    r: Request,
) -> bool {
    match received {
        Received::Ready => chunk_came(s, t, r),
        Received::Failed => t == s && r == Request::Finish(Outcome::Failed),
        Received::Again | Received::End => pumped_on(s, t, r),
    }
}

/// What the pump does with the container's answer.
pub open spec fn pump_packet_answered<P>(
    s: SourceState<P>,
    read: ReadOutcome<P>,
    t: SourceState<P>,
    r: Request,
) -> bool {
    match read {
        ReadOutcome::Packet(p) => if p.stream == s.stream_index {
            pumped_on(set_aside(s, p), t, r)
        } else if s.claims(p.stream) {
            t == s.with_read(p) && r == Request::SendAudio
        } else {
            pumped_on(s, t, r)
        },
        ReadOutcome::InvalidData => t == s && r == Request::ReadPacket,
        ReadOutcome::Eof | ReadOutcome::Interrupted | ReadOutcome::Failed => t == s && r
            == Request::Finish(Outcome::Nothing),
    }
}

/// What the pump does with the audio decoder's answer to a packet.
pub open spec fn pump_sent_answered<P>(
    s: SourceState<P>,
    sent: Sent,
    t: SourceState<P>,
    r: Request,
) -> bool {
    match sent {
        Sent::Accepted => t == s.handed_over() && r == Request::ReceiveAudio,
        Sent::Failed => t == s.handed_over() && r == Request::Finish(Outcome::Failed),
        Sent::Full => t == (SourceState { in_flight: None, pending: s.in_flight, ..s }) && r
            == Request::Finish(Outcome::Nothing),
    }
}

/// Packets are never lost and never change their order: what a decoder was given is the beginning
/// of what was read for it, and a packet that is being offered is the oldest one that its decoder
/// has not had.
pub proof fn law_packets_in_order<P>(s: SourceState<P>)
    requires
        s.wf(),
    ensures
        s.video_log.sent.is_prefix_of(s.video_log.read),
        s.audio_log.sent.is_prefix_of(s.audio_log.read),
        s.in_flight matches Some(p) ==> if p.stream == s.stream_index {
            s.video_log.read[s.video_log.sent.len() as int] == p
        } else {
            s.audio_log.read[s.audio_log.sent.len() as int] == p
        },
{
    assert(s.video_log.sent =~= s.video_log.read.take(s.video_log.sent.len() as int));
    assert(s.audio_log.sent =~= s.audio_log.read.take(s.audio_log.sent.len() as int));
    if s.in_flight is Some {
        let p = s.in_flight->0;
        if p.stream == s.stream_index {
            assert(s.held_video()[0] == p);
        } else {
            assert(s.held_audio()[0] == p);
        }
    }
}

/// A packet that found no room goes first: the next one that a read offers is the refused one.
pub proof fn law_refused_packet_goes_first<P>(
    before: SourceState<P>,
    after: SourceState<P>,
    r: Request,
)
    requires
        before.wf(),
        before.in_flight is None,
        before.pending is Some,
        !before.draining,
        fed(before, after, r),
    ensures
        after.in_flight == before.pending,
        r == Request::SendVideo || r == Request::SendAudio,
{
}

/// A seek brings a source that had reached its end back to life: with the decoders empty, the next
/// read asks the container for a packet instead of reporting the end.
pub proof fn law_seek_revives<P>(ended: SourceState<P>, after: SourceState<P>, r: Request)
    requires
        ended.wf(),
        ended.in_flight is None,
        fed(moved(ended), after, r),
    ensures
        r == Request::ReadPacket,
        !after.draining,
{
}

/// Nothing of the place before a seek is left behind it.
pub proof fn law_seek_forgets<P>(s: SourceState<P>)
    requires
        s.wf(),
        s.in_flight is None,
    ensures
        moved(s).wf(),
        moved(s).held_video().len() == 0,
        moved(s).held_audio().len() == 0,
        moved(moved(s)) == moved(s),
{
    assert(moved(s).held_video() =~= Seq::empty());
    assert(moved(s).held_audio() =~= Seq::empty());
}

/// The end of the media stays the end: once both decoders and the resampler are empty, every
/// further read ends without a unit and changes nothing.
pub proof fn law_end_stays_end<P>(s: SourceState<P>, after: SourceState<P>, r: Request)
    requires
        s.wf(),
        s.draining,
        fed(s, after, r),
    ensures
        after == s,
        r == Request::FlushResampler || r == Request::Finish(Outcome::Nothing),
{
}

/// Only a seek makes a source drop decoded sound: no step of a read or of the pump raises the
/// number of chunks that are still to be dropped.
pub proof fn law_only_seek_raises_budget<P>(
    before: SourceState<P>,
    after: SourceState<P>,
    p: Packet<P>,
    r: Request,
)
    ensures
        fed(before, after, r) ==> after.convergence == before.convergence,
        fed(audio_ran_dry(before), after, r) ==> after.convergence == before.convergence,
        pumped_on(before, after, r) ==> after.convergence == before.convergence,
        pumped_on(set_aside(before, p), after, r) ==> after.convergence == before.convergence,
        before.with_read(p).convergence == before.convergence,
        before.handed_over().convergence == before.convergence,
        moved(before).convergence == AUDIO_CONVERGENCE_FRAMES,
{
}

/// Decoders that refuse everything cannot hold a read up for ever: each refusal in a row counts,
/// and behind the last one allowed the read is over. The packet is not lost.
pub proof fn law_stalling_is_bounded<P>(before: SourceState<P>, after: SourceState<P>, r: Request)
    requires
        before.wf(),
        before.in_flight is Some,
        refused(before, after, r),
    ensures
        r == Request::Finish(Outcome::Nothing) || after.stalled == before.stalled + 1
            <= MAX_STALLED,
        after.pending == before.in_flight,
{
}

/// One call of the pump reads a bounded number of packets: each one counts, and at the limit the
/// call is over.
pub proof fn law_pump_is_bounded<P>(before: SourceState<P>, after: SourceState<P>, r: Request)
    requires
        before.wf(),
        pumped_on(before, after, r),
    ensures
        after.pumped <= MAX_PUMP_VIDEO_HELD,
        r == Request::Finish(Outcome::Nothing) || after.pumped == before.pumped + 1,
{
}

} // verus!
