//! The conversation between the decoder and the native backend.
//!
//! The decoder never touches a container or a codec. It answers each
//! [`Event`] with an [`Action`]: a request to the backend, a picture for the
//! consumer, or the end. The backend performs a request and reports its
//! outcome as the next event.

use crate::decoder_shim::FrameView;
use crate::error::DecoderError;
use crate::frame::FfmpegFrame;
use vstd::prelude::*;

verus! {

/// Text from the backend, absent where its bytes were not valid UTF-8.
pub open spec fn text_view(text: Option<String>) -> Option<Seq<char>> {
    match text {
        Some(t) => Some(t@),
        None => None,
    }
}

/// Something that happened outside the decoder. A `status` is the backend's
/// own code: negative on failure.
#[derive(Debug, PartialEq, Eq)]
pub enum Event {
    /// The caller asks for the container to be opened.
    Open,
    /// The container was opened, or not; `url` is the source as the backend
    /// holds it.
    InputOpened { status: i32, url: Option<String> },
    /// The streams' parameters were probed.
    StreamInfoFound { status: i32 },
    /// The media type code of each stream, in index order.
    StreamsListed { media_types: Vec<i32> },
    /// A decoder for the selected stream's codec was looked up.
    DecoderResolved { found: bool, name: Option<String> },
    /// A codec context was allocated, or not.
    ContextAllocated { status: i32 },
    /// The stream's codec parameters were copied into the context.
    ParametersCopied { status: i32 },
    /// The codec was opened on the context.
    CodecOpened { status: i32 },
    /// The consumer asks for the next picture.
    Pull,
    /// A packet was read from the container; it belongs to `stream_index`.
    PacketRead { status: i32, stream_index: i32 },
    /// The packet read last was handed to the codec.
    PacketSent { status: i32 },
    /// The codec was asked for a picture; `width` and `height` are those of
    /// its picture buffer after the call.
    FrameReceived { status: i32, width: usize, height: usize },
    /// The codec's picture was converted to packed RGBA.
    Converted { rgba: Vec<u8> },
}

/// An [`Event`] as a mathematical value.
pub enum EventView {
    Open,
    InputOpened { status: i32, url: Option<Seq<char>> },
    StreamInfoFound { status: i32 },
    StreamsListed { media_types: Seq<i32> },
    DecoderResolved { found: bool, name: Option<Seq<char>> },
    ContextAllocated { status: i32 },
    ParametersCopied { status: i32 },
    CodecOpened { status: i32 },
    Pull,
    PacketRead { status: i32, stream_index: i32 },
    PacketSent { status: i32 },
    FrameReceived { status: i32, width: usize, height: usize },
    Converted { rgba: Seq<u8> },
}

impl View for Event {
    type V = EventView;

    open spec fn view(&self) -> EventView {
        match *self {
            Event::Open => EventView::Open,
            Event::InputOpened { status, url } => EventView::InputOpened {
                status,
                url: text_view(url),
            },
            Event::StreamInfoFound { status } => EventView::StreamInfoFound { status },
            Event::StreamsListed { media_types } => EventView::StreamsListed {
                media_types: media_types@,
            },
            Event::DecoderResolved { found, name } => EventView::DecoderResolved {
                found,
                name: text_view(name),
            },
            Event::ContextAllocated { status } => EventView::ContextAllocated { status },
            Event::ParametersCopied { status } => EventView::ParametersCopied { status },
            Event::CodecOpened { status } => EventView::CodecOpened { status },
            Event::Pull => EventView::Pull,
            Event::PacketRead { status, stream_index } => EventView::PacketRead {
                status,
                stream_index,
            },
            Event::PacketSent { status } => EventView::PacketSent { status },
            Event::FrameReceived { status, width, height } => EventView::FrameReceived {
                status,
                width,
                height,
            },
            Event::Converted { rgba } => EventView::Converted { rgba: rgba@ },
        }
    }
}

/// What the decoder wants done next.
#[derive(Debug, PartialEq, Eq)]
pub enum Action {
    /// Open the container at `c_path`, the path with a NUL behind it.
    OpenInput { c_path: String },
    /// Probe the streams' parameters.
    FindStreamInfo,
    /// Report each stream's media type.
    ListStreams,
    /// Look up a decoder for the codec of stream `stream`.
    FindDecoder { stream: usize },
    /// Allocate a codec context for the decoder found.
    AllocateContext,
    /// Copy the codec parameters of stream `stream` into the context.
    CopyParameters { stream: usize },
    /// Open the codec on the context.
    OpenCodec,
    /// Opening succeeded: the decoder is ready to be pulled.
    Ready,
    /// Opening failed for good.
    Fail(DecoderError),
    /// Read the next packet from the container.
    ReadPacket,
    /// Hand the packet read last to the codec.
    SendPacket,
    /// Ask the codec for a picture.
    ReceiveFrame,
    /// Convert the codec's picture, of this size, to packed RGBA.
    Convert { width: usize, height: usize },
    /// A picture for the consumer.
    Emit(FfmpegFrame),
    /// No more pictures.
    Stop,
}

/// An [`Action`] as a mathematical value.
pub enum ActionView {
    OpenInput { c_path: Seq<char> },
    FindStreamInfo,
    ListStreams,
    FindDecoder { stream: nat },
    AllocateContext,
    CopyParameters { stream: nat },
    OpenCodec,
    Ready,
    Fail(DecoderError),
    ReadPacket,
    SendPacket,
    ReceiveFrame,
    Convert { width: usize, height: usize },
    Emit(FrameView),
    Stop,
}

impl View for Action {
    type V = ActionView;

    open spec fn view(&self) -> ActionView {
        match *self {
            Action::OpenInput { c_path } => ActionView::OpenInput { c_path: c_path@ },
            Action::FindStreamInfo => ActionView::FindStreamInfo,
            Action::ListStreams => ActionView::ListStreams,
            Action::FindDecoder { stream } => ActionView::FindDecoder { stream: stream as nat },
            Action::AllocateContext => ActionView::AllocateContext,
            Action::CopyParameters { stream } => ActionView::CopyParameters {
                stream: stream as nat,
            },
            Action::OpenCodec => ActionView::OpenCodec,
            Action::Ready => ActionView::Ready,
            Action::Fail(error) => ActionView::Fail(error),
            Action::ReadPacket => ActionView::ReadPacket,
            Action::SendPacket => ActionView::SendPacket,
            Action::ReceiveFrame => ActionView::ReceiveFrame,
            Action::Convert { width, height } => ActionView::Convert { width, height },
            Action::Emit(frame) => ActionView::Emit(frame@),
            Action::Stop => ActionView::Stop,
        }
    }
}

} // verus!
