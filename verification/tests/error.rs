use nxtv::error::{CodecInitStep, DecoderError};
use nxtv::text::decimal_text;

#[test]
fn decimal_of_zero() {
    assert_eq!(decimal_text(0), "0");
}

#[test]
fn decimal_of_single_digits() {
    assert_eq!(decimal_text(7), "7");
    assert_eq!(decimal_text(9), "9");
    assert_eq!(decimal_text(-1), "-1");
}

#[test]
fn decimal_of_longer_numbers() {
    assert_eq!(decimal_text(10), "10");
    assert_eq!(decimal_text(-11), "-11");
    assert_eq!(decimal_text(1234567890), "1234567890");
    assert_eq!(decimal_text(-541478725), "-541478725");
    assert_eq!(decimal_text(100), "100");
}

#[test]
fn decimal_of_the_extremes() {
    assert_eq!(decimal_text(i32::MAX), "2147483647");
    assert_eq!(decimal_text(i32::MIN), "-2147483648");
}

#[test]
fn decimal_agrees_with_the_standard_rendering() {
    for n in [-100000, -4096, -99, -10, -9, 1, 11, 99, 101, 65535, 1000000] {
        assert_eq!(decimal_text(n), n.to_string());
    }
}

#[test]
fn message_of_a_failed_open() {
    assert_eq!(
        DecoderError::OpenError { status: -2 }.message(),
        "Could not open input. Errno: -2"
    );
}

#[test]
fn message_of_a_failed_probe() {
    assert_eq!(
        DecoderError::StreamProbeError { status: -1094995529 }.message(),
        "Could not find stream info. Errno: -1094995529"
    );
}

#[test]
fn message_of_a_missing_video_stream() {
    assert_eq!(DecoderError::NoVideoStreamError.message(), "Error getting video stream.");
}

#[test]
fn message_of_an_unsupported_codec() {
    assert_eq!(
        DecoderError::UnsupportedCodecError.message(),
        "Error finding a decoder (strange)."
    );
}

#[test]
fn messages_of_a_failed_codec_setup() {
    assert_eq!(
        DecoderError::CodecInitError { step: CodecInitStep::AllocateContext, status: -12 }
            .message(),
        "Error allocating ctx_codec: -12."
    );
    assert_eq!(
        DecoderError::CodecInitError { step: CodecInitStep::CopyParameters, status: -22 }
            .message(),
        "Error sending parameters to codec context: -22."
    );
    assert_eq!(
        DecoderError::CodecInitError { step: CodecInitStep::OpenCodec, status: -1 }.message(),
        "Error opening codec with context: -1."
    );
}
