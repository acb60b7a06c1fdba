//! Why opening a container failed and why a stream of pictures ended.

use crate::text::{decimal, decimal_text};
use vstd::prelude::*;
use vstd::string::*;

verus! {

/// The three steps that set a codec up for the selected stream.
#[derive(Clone, Copy, Debug, PartialEq, Eq, Structural)]
pub enum CodecInitStep {
    AllocateContext,
    CopyParameters,
    OpenCodec,
}

/// A failure while opening. Each one is final: the decoder never decodes.
#[derive(Clone, Copy, Debug, PartialEq, Eq, Structural)]
pub enum DecoderError {
    /// The path could not be read as a container of a known format.
    OpenError { status: i32 },
    /// The container did not yield enough data to tell its streams' parameters.
    StreamProbeError { status: i32 },
    /// The container holds no video stream.
    NoVideoStreamError,
    /// No decoder is registered for the selected stream's codec.
    UnsupportedCodecError,
    /// Setting the codec up failed at `step`, with the backend's negative status.
    CodecInitError { step: CodecInitStep, status: i32 },
}

impl DecoderError {
    /// The error in words, with the backend's status where it gave one.
    pub open spec fn message_text(self) -> Seq<char> {
        match self {
            DecoderError::OpenError { status } => "Could not open input. Errno: "@ + decimal(
                status as int,
            ),
            DecoderError::StreamProbeError { status } => "Could not find stream info. Errno: "@
                + decimal(status as int),
            DecoderError::NoVideoStreamError => "Error getting video stream."@,
            DecoderError::UnsupportedCodecError => "Error finding a decoder (strange)."@,
            DecoderError::CodecInitError { step: CodecInitStep::AllocateContext, status } =>
            "Error allocating ctx_codec: "@ + decimal(status as int) + "."@,
            DecoderError::CodecInitError { step: CodecInitStep::CopyParameters, status } =>
            "Error sending parameters to codec context: "@ + decimal(status as int) + "."@,
            DecoderError::CodecInitError { step: CodecInitStep::OpenCodec, status } =>
            "Error opening codec with context: "@ + decimal(status as int) + "."@,
        }
    }

    /// The error in words, for a log or a user.
    pub fn message(&self) -> (text: String)
        ensures
            text@ == self.message_text(),
    {
        match *self {
            DecoderError::OpenError { status } => "Could not open input. Errno: ".to_string().concat(
                decimal_text(status).as_str(),
            ),
            DecoderError::StreamProbeError { status } =>
            "Could not find stream info. Errno: ".to_string().concat(decimal_text(status).as_str()),
            DecoderError::NoVideoStreamError => "Error getting video stream.".to_string(),
            DecoderError::UnsupportedCodecError => "Error finding a decoder (strange).".to_string(),
            DecoderError::CodecInitError { step, status } => {
                let lead = match step {
                    CodecInitStep::AllocateContext => "Error allocating ctx_codec: ",
                    CodecInitStep::CopyParameters => "Error sending parameters to codec context: ",
                    CodecInitStep::OpenCodec => "Error opening codec with context: ",
                };
                lead.to_string().concat(decimal_text(status).as_str()).concat(".")
            },
        }
    }
}

/// Why no more pictures come. The consumer sees all of these as the end of
/// the stream; the reason is kept for diagnostics.
#[derive(Clone, Copy, Debug, PartialEq, Eq, Structural)]
pub enum EndReason {
    /// The container gave no further packet: a read reported the negative
    /// `status`. The end of the container and a failed read both end the
    /// stream here; the backend's status tells one from the other.
    EndOfContainer { status: i32 },
    /// The codec rejected a packet of the video stream.
    SubmitFailed { status: i32 },
    /// The codec failed to produce a picture.
    DecodeFailed { status: i32 },
    /// The codec still asked for more input when the retries were used up.
    RetriesExhausted,
    /// The converted pixel buffer did not cover the picture exactly.
    ConversionFailed,
    /// An event arrived that answers no request of the decoder.
    UnexpectedEvent,
}

} // verus!
