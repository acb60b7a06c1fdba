//! The decoder: a state machine that opens a container and then turns its
//! video packets into pictures, one pull at a time.

use crate::decoder_shim::{Codec, FrameView, VideoDecoder};
use crate::error::{CodecInitStep, DecoderError, EndReason};
use crate::event::{text_view, Action, ActionView, Event, EventView};
use crate::frame::FfmpegFrame;
use crate::stream::{first_video, select_video_stream};
use vstd::prelude::*;
use vstd::string::*;

verus! {

/// The status with which the codec says that it took the input and needs
/// more of it before a picture can come out.
pub const NEEDS_MORE_INPUT: i32 = -11;

/// How often one pull feeds the codec another packet of the video stream on
/// [`NEEDS_MORE_INPUT`].
pub const MAX_RETRIES: usize = 10;

/// What [`VideoDecoder::source`] reports where the backend's text was not UTF-8.
pub open spec fn source_fallback() -> Seq<char> {
    "ERROR GETTING SOURCE!"@
}

/// What [`VideoDecoder::codec`] reports where the backend's text was not UTF-8.
pub open spec fn codec_fallback() -> Seq<char> {
    "ERROR GETTING CODEC!"@
}

/// The text itself, or `fallback` where there is none.
pub open spec fn text_or(text: Option<Seq<char>>, fallback: Seq<char>) -> Seq<char> {
    match text {
        Some(t) => t,
        None => fallback,
    }
}

/// Where the decoder stands: which answer of the backend it waits for.
#[derive(Clone, Copy, Debug, PartialEq, Eq, Structural)]
pub enum Phase {
    /// Nothing was asked of the backend yet.
    Created,
    OpeningInput,
    ProbingStreams,
    ListingStreams,
    ResolvingDecoder,
    AllocatingContext,
    CopyingParameters,
    OpeningCodec,
    /// Open, and between two pictures.
    Idle,
    /// Reading packets until one of the video stream comes.
    Demuxing,
    /// The video packet is on its way to the codec.
    Submitting,
    /// The codec was asked for a picture, after `retries` further packets of
    /// the video stream.
    Draining { retries: usize },
    /// The codec needs more input: packets are read until another one of
    /// the video stream comes.
    RetryReading { retries: usize },
    /// The further video packet is on its way to the codec.
    RetrySubmitting { retries: usize },
    /// The codec's picture is being converted.
    Converting { width: usize, height: usize },
    /// No more pictures will come.
    Ended { reason: EndReason },
    /// Opening failed.
    Failed { error: DecoderError },
}

/// The decoder as a mathematical value.
pub struct DecoderState {
    /// The path that the decoder was made for.
    pub path: Seq<char>,
    /// The source as the backend resolved it.
    pub source: Seq<char>,
    /// The name of the codec bound to the selected stream.
    pub codec_name: Seq<char>,
    /// The index of the selected video stream.
    pub stream_idx: nat,
    pub phase: Phase,
    /// Size of the codec's picture buffer after its last answer.
    pub video_width: nat,
    pub video_height: nat,
    /// Pictures emitted so far; it stops counting at `usize::MAX`.
    pub counter: nat,
}

impl DecoderState {
    /// The decoder before anything happened.
    pub open spec fn created(path: Seq<char>) -> DecoderState {
        DecoderState {
            path,
            source: path,
            codec_name: Seq::empty(),
            stream_idx: 0,
            phase: Phase::Created,
            video_width: 0,
            video_height: 0,
            counter: 0,
        }
    }

    /// The retries never pass their bound, and the picture that is being
    /// converted has the size that the codec reported last.
    pub open spec fn wf(self) -> bool {
        match self.phase {
            Phase::Draining { retries } => retries <= MAX_RETRIES,
            Phase::RetryReading { retries } => retries < MAX_RETRIES,
            Phase::RetrySubmitting { retries } => retries < MAX_RETRIES,
            Phase::Converting { width, height } => self.video_width == width && self.video_height
                == height,
            _ => true,
        }
    }

    /// How far the decoder has come. It never goes back.
    pub open spec fn progress(self) -> nat {
        match self.phase {
            Phase::Created => 0,
            Phase::OpeningInput => 1,
            Phase::ProbingStreams => 2,
            Phase::ListingStreams => 3,
            Phase::ResolvingDecoder => 4,
            Phase::AllocatingContext => 5,
            Phase::CopyingParameters => 6,
            Phase::OpeningCodec => 7,
            Phase::Ended { .. } | Phase::Failed { .. } => 9,
            _ => 8,
        }
    }

    /// No more pictures will come, whatever happens.
    pub open spec fn is_ended(self) -> bool {
        self.phase is Ended
    }

    /// Opening failed.
    pub open spec fn is_failed(self) -> bool {
        self.phase is Failed
    }

    /// The container and the codec are open.
    pub open spec fn is_open(self) -> bool {
        match self.phase {
            Phase::Idle
            | Phase::Demuxing
            | Phase::Submitting
            | Phase::Draining { .. }
            | Phase::RetryReading { .. }
            | Phase::RetrySubmitting { .. }
            | Phase::Converting { .. } => true,
            _ => false,
        }
    }

    pub open spec fn enter(self, phase: Phase) -> DecoderState {
        DecoderState { phase, ..self }
    }

    /// Opening fails for good.
    pub open spec fn fail(self, error: DecoderError) -> (DecoderState, ActionView) {
        (self.enter(Phase::Failed { error }), ActionView::Fail(error))
    }

    /// The stream of pictures ends for good.
    pub open spec fn end(self, reason: EndReason) -> (DecoderState, ActionView) {
        (self.enter(Phase::Ended { reason }), ActionView::Stop)
    }

    /// The backend goes on with `action` while the decoder waits in `phase`.
    pub open spec fn ask(self, phase: Phase, action: ActionView) -> (DecoderState, ActionView) {
        (self.enter(phase), action)
    }
}

/// The path as the backend wants it: with a NUL behind it.
pub open spec fn nul_terminated(path: Seq<char>) -> Seq<char> {
    path.push('\0')
}

/// The counter after one more picture.
pub open spec fn counted(counter: nat) -> nat {
    if counter < usize::MAX {
        counter + 1
    } else {
        counter
    }
}

/// What the decoder does while it opens the container and the codec.
pub open spec fn open_transition(s: DecoderState, e: EventView) -> (DecoderState, ActionView) {
    match (s.phase, e) {
        (Phase::Created, EventView::Open) => s.ask(
            Phase::OpeningInput,
            ActionView::OpenInput { c_path: nul_terminated(s.path) },
        ),
        (Phase::OpeningInput, EventView::InputOpened { status, url }) => if status != 0 {
            s.fail(DecoderError::OpenError { status })
        } else {
            (DecoderState { source: text_or(url, source_fallback()), ..s }).ask(
                Phase::ProbingStreams,
                ActionView::FindStreamInfo,
            )
        },
        (Phase::ProbingStreams, EventView::StreamInfoFound { status }) => if status < 0 {
            s.fail(DecoderError::StreamProbeError { status })
        } else {
            s.ask(Phase::ListingStreams, ActionView::ListStreams)
        },
        (Phase::ListingStreams, EventView::StreamsListed { media_types }) => match first_video(
            media_types,
        ) {
            Some(stream) => (DecoderState { stream_idx: stream, ..s }).ask(
                Phase::ResolvingDecoder,
                ActionView::FindDecoder { stream },
            ),
            None => s.fail(DecoderError::NoVideoStreamError),
        },
        (Phase::ResolvingDecoder, EventView::DecoderResolved { found, name }) => if !found {
            s.fail(DecoderError::UnsupportedCodecError)
        } else {
            (DecoderState { codec_name: text_or(name, codec_fallback()), ..s }).ask(
                Phase::AllocatingContext,
                ActionView::AllocateContext,
            )
        },
        (Phase::AllocatingContext, EventView::ContextAllocated { status }) => if status < 0 {
            s.fail(DecoderError::CodecInitError { step: CodecInitStep::AllocateContext, status })
        } else {
            s.ask(Phase::CopyingParameters, ActionView::CopyParameters { stream: s.stream_idx })
        },
        (Phase::CopyingParameters, EventView::ParametersCopied { status }) => if status < 0 {
            s.fail(DecoderError::CodecInitError { step: CodecInitStep::CopyParameters, status })
        } else {
            s.ask(Phase::OpeningCodec, ActionView::OpenCodec)
        },
        (Phase::OpeningCodec, EventView::CodecOpened { status }) => if status < 0 {
            s.fail(DecoderError::CodecInitError { step: CodecInitStep::OpenCodec, status })
        } else {
            s.ask(Phase::Idle, ActionView::Ready)
        },
        _ => s.end(EndReason::UnexpectedEvent),
    }
}

/// What the decoder does between a pull and the picture that answers it.
pub open spec fn decode_transition(s: DecoderState, e: EventView) -> (DecoderState, ActionView) {
    match (s.phase, e) {
        (Phase::Idle, EventView::Pull) => s.ask(Phase::Demuxing, ActionView::ReadPacket),
        (Phase::Demuxing, EventView::PacketRead { status, stream_index }) => if status < 0 {
            s.end(EndReason::EndOfContainer { status })
        } else if stream_index == s.stream_idx {
            s.ask(Phase::Submitting, ActionView::SendPacket)
        } else {
            s.ask(Phase::Demuxing, ActionView::ReadPacket)
        },
        (Phase::Submitting, EventView::PacketSent { status }) => if status < 0 {
            s.end(EndReason::SubmitFailed { status })
        } else {
            s.ask(Phase::Draining { retries: 0 }, ActionView::ReceiveFrame)
        },
        (Phase::Draining { retries }, EventView::FrameReceived { status, width, height }) => {
            let seen = DecoderState {
                video_width: width as nat,
                video_height: height as nat,
                ..s
            };
            if status == NEEDS_MORE_INPUT {
                if retries < MAX_RETRIES {
                    seen.ask(Phase::RetryReading { retries }, ActionView::ReadPacket)
                } else {
                    seen.end(EndReason::RetriesExhausted)
                }
            } else if status < 0 {
                seen.end(EndReason::DecodeFailed { status })
            } else {
                seen.ask(Phase::Converting { width, height }, ActionView::Convert { width, height })
            }
        },
        (Phase::RetryReading { retries }, EventView::PacketRead { status, stream_index }) => if status
            < 0 {
            s.end(EndReason::EndOfContainer { status })
        } else if stream_index == s.stream_idx {
            s.ask(Phase::RetrySubmitting { retries }, ActionView::SendPacket)
        } else {
            s.ask(Phase::RetryReading { retries }, ActionView::ReadPacket)
        },
        (Phase::RetrySubmitting { retries }, EventView::PacketSent { .. }) => s.ask(
            Phase::Draining { retries: (retries + 1) as usize },
            ActionView::ReceiveFrame,
        ),
        (Phase::Converting { width, height }, EventView::Converted { rgba }) => if rgba.len()
            == width * height * 4 {
            (DecoderState { counter: counted(s.counter), ..s }).ask(
                Phase::Idle,
                ActionView::Emit(
                    FrameView {
                        width: width as nat,
                        height: height as nat,
                        rgba,
                        nanos_from_prev: 0,
                    },
                ),
            )
        } else {
            s.end(EndReason::ConversionFailed)
        },
        _ => s.end(EndReason::UnexpectedEvent),
    }
}

/// The decoder's whole behaviour: the state after `e` and the answer to it.
///
/// A decoder that failed to open repeats its error, and one that ended keeps
/// saying so. An event that answers no request of the decoder ends it.
pub open spec fn transition(s: DecoderState, e: EventView) -> (DecoderState, ActionView) {
    match s.phase {
        Phase::Failed { error } => (s, ActionView::Fail(error)),
        Phase::Ended { .. } => (s, ActionView::Stop),
        _ => if s.is_open() {
            decode_transition(s, e)
        } else {
            open_transition(s, e)
        },
    }
}

/// The decoder of one container.
#[derive(Debug)]
pub struct RawFfmpegDecoder {
    path: String,
    source: String,
    codec: Codec,
    stream_idx: usize,
    phase: Phase,
    video_width: usize,
    video_height: usize,
    counter: usize,
}

impl View for RawFfmpegDecoder {
    type V = DecoderState;

    closed spec fn view(&self) -> DecoderState {
        DecoderState {
            path: self.path@,
            source: self.source@,
            codec_name: self.codec@,
            stream_idx: self.stream_idx as nat,
            phase: self.phase,
            video_width: self.video_width as nat,
            video_height: self.video_height as nat,
            counter: self.counter as nat,
        }
    }
}

fn text_or_else(text: Option<String>, fallback: &str) -> (res: String)
    ensures
        res@ == text_or(text_view(text), fallback@),
{
    match text {
        Some(t) => t,
        None => fallback.to_string(),
    }
}

impl RawFfmpegDecoder {
    #[verifier::type_invariant]
    spec fn bounded(self) -> bool {
        self@.wf()
    }

    /// A decoder for the container at `path`. Nothing is opened yet: the
    /// first event to hand it is [`Event::Open`].
    pub fn new(path: &str) -> (decoder: RawFfmpegDecoder)
        ensures
            decoder@ == DecoderState::created(path@),
    {
        RawFfmpegDecoder {
            path: path.to_string(),
            source: path.to_string(),
            codec: Codec { name: String::new() },
            stream_idx: 0,
            phase: Phase::Created,
            video_width: 0,
            video_height: 0,
            counter: 0,
        }
    }

    fn ask(&mut self, phase: Phase, action: Action) -> (res: Action)
        requires
            old(self)@.enter(phase).wf(),
        ensures
            (final(self)@, res@) == old(self)@.ask(phase, action@),
    {
        self.phase = phase;
        action
    }

    fn fail(&mut self, error: DecoderError) -> (res: Action)
        ensures
            (final(self)@, res@) == old(self)@.fail(error),
    {
        self.phase = Phase::Failed { error };
        Action::Fail(error)
    }

    fn end(&mut self, reason: EndReason) -> (res: Action)
        ensures
            (final(self)@, res@) == old(self)@.end(reason),
    {
        self.phase = Phase::Ended { reason };
        Action::Stop
    }

    fn open_step(&mut self, event: Event) -> (action: Action)
        ensures
            (final(self)@, action@) == open_transition(old(self)@, event@),
    {
        let phase = self.phase;
        match phase {
            Phase::Created => match event {
                Event::Open => {
                    let c_path = self.path.clone().concat("\0");
                    proof {
                        reveal_strlit("\0");
                        assert(c_path@ =~= nul_terminated(self.path@));
                    }
                    self.ask(Phase::OpeningInput, Action::OpenInput { c_path })
                },
                _ => self.end(EndReason::UnexpectedEvent),
            },
            Phase::OpeningInput => match event {
                Event::InputOpened { status, url } => {
                    if status != 0 {
                        self.fail(DecoderError::OpenError { status })
                    } else {
                        self.source = text_or_else(url, "ERROR GETTING SOURCE!");
                        self.ask(Phase::ProbingStreams, Action::FindStreamInfo)
                    }
                },
                _ => self.end(EndReason::UnexpectedEvent),
            },
            Phase::ProbingStreams => match event {
                Event::StreamInfoFound { status } => {
                    if status < 0 {
                        self.fail(DecoderError::StreamProbeError { status })
                    } else {
                        self.ask(Phase::ListingStreams, Action::ListStreams)
                    }
                },
                _ => self.end(EndReason::UnexpectedEvent),
            },
            Phase::ListingStreams => match event {
                Event::StreamsListed { media_types } => {
                    match select_video_stream(&media_types) {
                        Some(stream) => {
                            self.stream_idx = stream;
                            self.ask(Phase::ResolvingDecoder, Action::FindDecoder { stream })
                        },
                        None => self.fail(DecoderError::NoVideoStreamError),
                    }
                },
                _ => self.end(EndReason::UnexpectedEvent),
            },
            Phase::ResolvingDecoder => match event {
                Event::DecoderResolved { found, name } => {
                    if !found {
                        self.fail(DecoderError::UnsupportedCodecError)
                    } else {
                        self.codec = Codec { name: text_or_else(name, "ERROR GETTING CODEC!") };
                        self.ask(Phase::AllocatingContext, Action::AllocateContext)
                    }
                },
                _ => self.end(EndReason::UnexpectedEvent),
            },
            Phase::AllocatingContext => match event {
                Event::ContextAllocated { status } => {
                    if status < 0 {
                        self.fail(
                            DecoderError::CodecInitError {
                                step: CodecInitStep::AllocateContext,
                                status,
                            },
                        )
                    } else {
                        let stream = self.stream_idx;
                        self.ask(Phase::CopyingParameters, Action::CopyParameters { stream })
                    }
                },
                _ => self.end(EndReason::UnexpectedEvent),
            },
            Phase::CopyingParameters => match event {
                Event::ParametersCopied { status } => {
                    if status < 0 {
                        self.fail(
                            DecoderError::CodecInitError {
                                step: CodecInitStep::CopyParameters,
                                status,
                            },
                        )
                    } else {
                        self.ask(Phase::OpeningCodec, Action::OpenCodec)
                    }
                },
                _ => self.end(EndReason::UnexpectedEvent),
            },
            Phase::OpeningCodec => match event {
                Event::CodecOpened { status } => {
                    if status < 0 {
                        self.fail(
                            DecoderError::CodecInitError { step: CodecInitStep::OpenCodec, status },
                        )
                    } else {
                        self.ask(Phase::Idle, Action::Ready)
                    }
                },
                _ => self.end(EndReason::UnexpectedEvent),
            },
            _ => self.end(EndReason::UnexpectedEvent),
        }
    }

    fn decode_step(&mut self, event: Event) -> (action: Action)
        ensures
            (final(self)@, action@) == decode_transition(old(self)@, event@),
    {
        proof {
            use_type_invariant(&*self);
        }
        let phase = self.phase;
        match phase {
            Phase::Idle => match event {
                Event::Pull => self.ask(Phase::Demuxing, Action::ReadPacket),
                _ => self.end(EndReason::UnexpectedEvent),
            },
            Phase::Demuxing => match event {
                Event::PacketRead { status, stream_index } => {
                    if status < 0 {
                        self.end(EndReason::EndOfContainer { status })
                    } else if stream_index >= 0 && stream_index as usize == self.stream_idx {
                        self.ask(Phase::Submitting, Action::SendPacket)
                    } else {
                        self.ask(Phase::Demuxing, Action::ReadPacket)
                    }
                },
                _ => self.end(EndReason::UnexpectedEvent),
            },
            Phase::Submitting => match event {
                Event::PacketSent { status } => {
                    if status < 0 {
                        self.end(EndReason::SubmitFailed { status })
                    } else {
                        self.ask(Phase::Draining { retries: 0 }, Action::ReceiveFrame)
                    }
                },
                _ => self.end(EndReason::UnexpectedEvent),
            },
            Phase::Draining { retries } => match event {
                Event::FrameReceived { status, width, height } => {
                    self.video_width = width;
                    self.video_height = height;
                    if status == NEEDS_MORE_INPUT {
                        if retries < MAX_RETRIES {
                            self.ask(Phase::RetryReading { retries }, Action::ReadPacket)
                        } else {
                            self.end(EndReason::RetriesExhausted)
                        }
                    } else if status < 0 {
                        self.end(EndReason::DecodeFailed { status })
                    } else {
                        self.ask(
                            Phase::Converting { width, height },
                            Action::Convert { width, height },
                        )
                    }
                },
                _ => self.end(EndReason::UnexpectedEvent),
            },
            Phase::RetryReading { retries } => match event {
                Event::PacketRead { status, stream_index } => {
                    if status < 0 {
                        self.end(EndReason::EndOfContainer { status })
                    } else if stream_index >= 0 && stream_index as usize == self.stream_idx {
                        self.ask(Phase::RetrySubmitting { retries }, Action::SendPacket)
                    } else {
                        self.ask(Phase::RetryReading { retries }, Action::ReadPacket)
                    }
                },
                _ => self.end(EndReason::UnexpectedEvent),
            },
            Phase::RetrySubmitting { retries } => match event {
                Event::PacketSent { .. } => self.ask(
                    Phase::Draining { retries: retries + 1 },
                    Action::ReceiveFrame,
                ),
                _ => self.end(EndReason::UnexpectedEvent),
            },
            Phase::Converting { width, height } => match event {
                Event::Converted { rgba } => {
                    match FfmpegFrame::new(width, height, rgba, 0) {
                        Ok(frame) => {
                            if self.counter < usize::MAX {
                                self.counter = self.counter + 1;
                            }
                            self.ask(Phase::Idle, Action::Emit(frame))
                        },
                        Err(_) => self.end(EndReason::ConversionFailed),
                    }
                },
                _ => self.end(EndReason::UnexpectedEvent),
            },
            _ => self.end(EndReason::UnexpectedEvent),
        }
    }

    /// Where the decoder stands.
    pub fn phase(&self) -> (phase: Phase)
        ensures
            phase == self@.phase,
            self@.wf(),
    {
        proof {
            use_type_invariant(self);
        }
        self.phase
    }

    /// The index of the selected video stream, once the streams were listed.
    pub fn stream_index(&self) -> (index: usize)
        ensures
            index == self@.stream_idx,
    {
        self.stream_idx
    }

    /// How many pictures the decoder has emitted.
    pub fn frames_decoded(&self) -> (count: usize)
        ensures
            count == self@.counter,
    {
        self.counter
    }

    /// Takes in what happened and says what is to be done next.
    ///
    /// This is the decoder's only way forward. A caller opens it with
    /// [`Event::Open`] and asks for each picture with [`Event::Pull`]; after
    /// either, the backend performs every request that comes back and
    /// reports its outcome as the next event, until the answer is
    /// [`Action::Ready`] or [`Action::Fail`] for an open, and
    /// [`Action::Emit`] or [`Action::Stop`] for a pull.
    pub fn step(&mut self, event: Event) -> (action: Action)
        ensures
            (final(self)@, action@) == transition(old(self)@, event@),
            old(self)@.wf(),
            final(self)@.wf(),
    {
        proof {
            use_type_invariant(&*self);
        }
        let phase = self.phase;
        match phase {
            Phase::Failed { error } => Action::Fail(error),
            Phase::Ended { .. } => Action::Stop,
            Phase::Idle
            | Phase::Demuxing
            | Phase::Submitting
            | Phase::Draining { .. }
            | Phase::RetryReading { .. }
            | Phase::RetrySubmitting { .. }
            | Phase::Converting { .. } => self.decode_step(event),
            _ => self.open_step(event),
        }
    }
}

impl VideoDecoder for RawFfmpegDecoder {
    fn video_width(&self) -> (width: usize)
        ensures
            width == self@.video_width,
    {
        self.video_width
    }

    fn video_height(&self) -> (height: usize)
        ensures
            height == self@.video_height,
    {
        self.video_height
    }

    fn source(&self) -> (source: &str)
        ensures
            source@ == self@.source,
    {
        self.source.as_str()
    }

    fn codec(&self) -> (codec: Codec)
        ensures
            codec@ == self@.codec_name,
    {
        Codec { name: self.codec.name.clone() }
    }
}

} // verus!
