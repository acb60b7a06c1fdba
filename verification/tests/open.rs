use nxtv::decoder::{Phase, RawFfmpegDecoder};
use nxtv::decoder_shim::VideoDecoder;
use nxtv::error::{CodecInitStep, DecoderError, EndReason};
use nxtv::event::{Action, Event};

const VIDEO: i32 = 0;
const AUDIO: i32 = 1;
const SUBTITLE: i32 = 3;

fn text(s: &str) -> Option<String> {
    Some(s.to_string())
}

/// A decoder that has opened its input and probed it, and now waits for the
/// list of streams.
fn probed(path: &str) -> RawFfmpegDecoder {
    let mut decoder = RawFfmpegDecoder::new(path);
    decoder.step(Event::Open);
    decoder.step(Event::InputOpened { status: 0, url: text(path) });
    assert_eq!(decoder.step(Event::StreamInfoFound { status: 0 }), Action::ListStreams);
    decoder
}

/// A decoder that found a decoder for its video stream and now waits for the
/// codec context.
fn resolved(media_types: Vec<i32>) -> RawFfmpegDecoder {
    let mut decoder = probed("clip.mkv");
    decoder.step(Event::StreamsListed { media_types });
    assert_eq!(
        decoder.step(Event::DecoderResolved { found: true, name: text("h264") }),
        Action::AllocateContext
    );
    decoder
}

#[test]
fn new_decoder_waits_to_be_opened() {
    let decoder = RawFfmpegDecoder::new("test.mp4");
    assert_eq!(decoder.phase(), Phase::Created);
    assert_eq!(decoder.source(), "test.mp4");
    assert_eq!(decoder.codec().name, "");
    assert_eq!(decoder.video_width(), 0);
    assert_eq!(decoder.video_height(), 0);
    assert_eq!(decoder.stream_index(), 0);
    assert_eq!(decoder.frames_decoded(), 0);
}

#[test]
fn open_asks_for_the_path_with_a_nul_behind_it() {
    let mut decoder = RawFfmpegDecoder::new("test.mp4");
    assert_eq!(
        decoder.step(Event::Open),
        Action::OpenInput { c_path: "test.mp4\0".to_string() }
    );
    assert_eq!(decoder.phase(), Phase::OpeningInput);
}

#[test]
fn open_of_an_empty_path_asks_for_a_lone_nul() {
    let mut decoder = RawFfmpegDecoder::new("");
    assert_eq!(decoder.step(Event::Open), Action::OpenInput { c_path: "\0".to_string() });
}

#[test]
fn open_walks_through_every_step_in_order() {
    let mut decoder = RawFfmpegDecoder::new("movie.mp4");
    assert_eq!(
        decoder.step(Event::Open),
        Action::OpenInput { c_path: "movie.mp4\0".to_string() }
    );
    assert_eq!(
        decoder.step(Event::InputOpened { status: 0, url: text("movie.mp4") }),
        Action::FindStreamInfo
    );
    assert_eq!(decoder.phase(), Phase::ProbingStreams);
    assert_eq!(decoder.step(Event::StreamInfoFound { status: 0 }), Action::ListStreams);
    assert_eq!(decoder.phase(), Phase::ListingStreams);
    assert_eq!(
        decoder.step(Event::StreamsListed { media_types: vec![AUDIO, SUBTITLE, VIDEO, VIDEO] }),
        Action::FindDecoder { stream: 2 }
    );
    assert_eq!(decoder.phase(), Phase::ResolvingDecoder);
    assert_eq!(
        decoder.step(Event::DecoderResolved { found: true, name: text("h264") }),
        Action::AllocateContext
    );
    assert_eq!(decoder.phase(), Phase::AllocatingContext);
    assert_eq!(
        decoder.step(Event::ContextAllocated { status: 0 }),
        Action::CopyParameters { stream: 2 }
    );
    assert_eq!(decoder.phase(), Phase::CopyingParameters);
    assert_eq!(decoder.step(Event::ParametersCopied { status: 0 }), Action::OpenCodec);
    assert_eq!(decoder.phase(), Phase::OpeningCodec);
    assert_eq!(decoder.step(Event::CodecOpened { status: 0 }), Action::Ready);
    assert_eq!(decoder.phase(), Phase::Idle);
    assert_eq!(decoder.stream_index(), 2);
    assert_eq!(decoder.source(), "movie.mp4");
    assert_eq!(decoder.codec().name, "h264");
    assert_eq!(decoder.frames_decoded(), 0);
}

#[test]
fn open_selects_the_first_video_stream_behind_other_streams() {
    let mut decoder = probed("a.mkv");
    assert_eq!(
        decoder.step(Event::StreamsListed { media_types: vec![AUDIO, AUDIO, SUBTITLE, VIDEO] }),
        Action::FindDecoder { stream: 3 }
    );
    assert_eq!(decoder.stream_index(), 3);
}

#[test]
fn open_selects_stream_zero_of_a_plain_video_file() {
    let mut decoder = probed("a.mkv");
    assert_eq!(
        decoder.step(Event::StreamsListed { media_types: vec![VIDEO, AUDIO] }),
        Action::FindDecoder { stream: 0 }
    );
}

#[test]
fn source_is_what_the_backend_resolved() {
    let mut decoder = RawFfmpegDecoder::new("clip.mp4");
    decoder.step(Event::Open);
    decoder.step(Event::InputOpened { status: 0, url: text("file:clip.mp4") });
    assert_eq!(decoder.source(), "file:clip.mp4");
}

#[test]
fn source_falls_back_where_the_text_is_unreadable() {
    let mut decoder = RawFfmpegDecoder::new("clip.mp4");
    decoder.step(Event::Open);
    assert_eq!(
        decoder.step(Event::InputOpened { status: 0, url: None }),
        Action::FindStreamInfo
    );
    assert_eq!(decoder.source(), "ERROR GETTING SOURCE!");
}

#[test]
fn codec_name_falls_back_where_the_text_is_unreadable() {
    let mut decoder = probed("clip.mp4");
    decoder.step(Event::StreamsListed { media_types: vec![VIDEO] });
    assert_eq!(
        decoder.step(Event::DecoderResolved { found: true, name: None }),
        Action::AllocateContext
    );
    assert_eq!(decoder.codec().name, "ERROR GETTING CODEC!");
}

#[test]
fn open_fails_where_the_input_cannot_be_opened() {
    let mut decoder = RawFfmpegDecoder::new("missing.mp4");
    decoder.step(Event::Open);
    let error = DecoderError::OpenError { status: -2 };
    assert_eq!(
        decoder.step(Event::InputOpened { status: -2, url: None }),
        Action::Fail(error)
    );
    assert_eq!(decoder.phase(), Phase::Failed { error });
    assert_eq!(decoder.source(), "missing.mp4");
}

#[test]
fn open_takes_any_status_but_zero_as_a_failure_to_open() {
    let mut decoder = RawFfmpegDecoder::new("odd.mp4");
    decoder.step(Event::Open);
    assert_eq!(
        decoder.step(Event::InputOpened { status: 1, url: text("odd.mp4") }),
        Action::Fail(DecoderError::OpenError { status: 1 })
    );
}

#[test]
fn open_fails_where_the_streams_cannot_be_probed() {
    let mut decoder = RawFfmpegDecoder::new("cut.mp4");
    decoder.step(Event::Open);
    decoder.step(Event::InputOpened { status: 0, url: text("cut.mp4") });
    let error = DecoderError::StreamProbeError { status: -1 };
    assert_eq!(decoder.step(Event::StreamInfoFound { status: -1 }), Action::Fail(error));
    assert_eq!(decoder.phase(), Phase::Failed { error });
}

#[test]
fn probe_succeeds_on_a_positive_status() {
    let mut decoder = RawFfmpegDecoder::new("ok.mp4");
    decoder.step(Event::Open);
    decoder.step(Event::InputOpened { status: 0, url: text("ok.mp4") });
    assert_eq!(decoder.step(Event::StreamInfoFound { status: 3 }), Action::ListStreams);
}

#[test]
fn open_fails_without_a_video_stream() {
    let mut decoder = probed("song.ogg");
    let error = DecoderError::NoVideoStreamError;
    assert_eq!(
        decoder.step(Event::StreamsListed { media_types: vec![AUDIO, SUBTITLE] }),
        Action::Fail(error)
    );
    assert_eq!(decoder.phase(), Phase::Failed { error });
}

#[test]
fn open_fails_on_a_container_without_streams() {
    let mut decoder = probed("empty.mkv");
    assert_eq!(
        decoder.step(Event::StreamsListed { media_types: Vec::new() }),
        Action::Fail(DecoderError::NoVideoStreamError)
    );
}

#[test]
fn no_codec_context_is_asked_for_without_a_video_stream() {
    let mut decoder = probed("song.ogg");
    let error = DecoderError::NoVideoStreamError;
    decoder.step(Event::StreamsListed { media_types: vec![AUDIO] });
    let later = vec![
        Event::DecoderResolved { found: true, name: text("aac") },
        Event::ContextAllocated { status: 0 },
        Event::ParametersCopied { status: 0 },
        Event::CodecOpened { status: 0 },
        Event::Open,
        Event::Pull,
    ];
    for event in later {
        let action = decoder.step(event);
        assert_ne!(action, Action::AllocateContext);
        assert_eq!(action, Action::Fail(error));
        assert_eq!(decoder.phase(), Phase::Failed { error });
    }
}

#[test]
fn open_fails_where_no_decoder_is_registered() {
    let mut decoder = probed("exotic.mkv");
    decoder.step(Event::StreamsListed { media_types: vec![VIDEO] });
    let error = DecoderError::UnsupportedCodecError;
    assert_eq!(
        decoder.step(Event::DecoderResolved { found: false, name: None }),
        Action::Fail(error)
    );
    assert_eq!(decoder.phase(), Phase::Failed { error });
    assert_eq!(decoder.codec().name, "");
}

#[test]
fn open_fails_where_the_context_cannot_be_allocated() {
    let mut decoder = resolved(vec![VIDEO]);
    let error = DecoderError::CodecInitError { step: CodecInitStep::AllocateContext, status: -12 };
    assert_eq!(decoder.step(Event::ContextAllocated { status: -12 }), Action::Fail(error));
    assert_eq!(decoder.phase(), Phase::Failed { error });
}

#[test]
fn open_fails_where_the_parameters_cannot_be_copied() {
    let mut decoder = resolved(vec![AUDIO, VIDEO]);
    decoder.step(Event::ContextAllocated { status: 0 });
    let error = DecoderError::CodecInitError { step: CodecInitStep::CopyParameters, status: -22 };
    assert_eq!(decoder.step(Event::ParametersCopied { status: -22 }), Action::Fail(error));
    assert_eq!(decoder.phase(), Phase::Failed { error });
}

#[test]
fn open_fails_where_the_codec_cannot_be_opened() {
    let mut decoder = resolved(vec![VIDEO]);
    decoder.step(Event::ContextAllocated { status: 0 });
    decoder.step(Event::ParametersCopied { status: 0 });
    let error = DecoderError::CodecInitError { step: CodecInitStep::OpenCodec, status: -1 };
    assert_eq!(decoder.step(Event::CodecOpened { status: -1 }), Action::Fail(error));
    assert_eq!(decoder.phase(), Phase::Failed { error });
}

#[test]
fn codec_init_errors_of_different_steps_differ() {
    let at_alloc = DecoderError::CodecInitError { step: CodecInitStep::AllocateContext, status: -1 };
    let at_copy = DecoderError::CodecInitError { step: CodecInitStep::CopyParameters, status: -1 };
    let at_open = DecoderError::CodecInitError { step: CodecInitStep::OpenCodec, status: -1 };
    assert_ne!(at_alloc, at_copy);
    assert_ne!(at_copy, at_open);
    assert_ne!(at_alloc, at_open);
}

#[test]
fn a_failed_decoder_repeats_its_error() {
    let mut decoder = RawFfmpegDecoder::new("missing.mp4");
    decoder.step(Event::Open);
    decoder.step(Event::InputOpened { status: -2, url: None });
    let error = DecoderError::OpenError { status: -2 };
    assert_eq!(decoder.step(Event::Pull), Action::Fail(error));
    assert_eq!(decoder.step(Event::Open), Action::Fail(error));
    assert_eq!(decoder.step(Event::StreamInfoFound { status: 0 }), Action::Fail(error));
    assert_eq!(decoder.phase(), Phase::Failed { error });
}

#[test]
fn a_pull_before_open_ends_the_decoder() {
    let mut decoder = RawFfmpegDecoder::new("test.mp4");
    assert_eq!(decoder.step(Event::Pull), Action::Stop);
    assert_eq!(decoder.phase(), Phase::Ended { reason: EndReason::UnexpectedEvent });
    assert_eq!(decoder.step(Event::Open), Action::Stop);
}

#[test]
fn an_answer_out_of_turn_ends_the_decoder() {
    let mut decoder = probed("test.mp4");
    assert_eq!(decoder.step(Event::CodecOpened { status: 0 }), Action::Stop);
    assert_eq!(decoder.phase(), Phase::Ended { reason: EndReason::UnexpectedEvent });
}

#[test]
fn a_second_open_ends_the_decoder() {
    let mut decoder = resolved(vec![VIDEO]);
    decoder.step(Event::ContextAllocated { status: 0 });
    decoder.step(Event::ParametersCopied { status: 0 });
    assert_eq!(decoder.step(Event::CodecOpened { status: 0 }), Action::Ready);
    assert_eq!(decoder.step(Event::Open), Action::Stop);
    assert_eq!(decoder.phase(), Phase::Ended { reason: EndReason::UnexpectedEvent });
}
