//! What holds of the decoder over whole conversations with the backend.

use crate::decoder::{counted, transition, DecoderState, Phase, MAX_RETRIES, NEEDS_MORE_INPUT};
use crate::decoder_shim::FrameView;
use crate::error::{DecoderError, EndReason};
use crate::event::{ActionView, EventView};
use crate::stream::{first_video_is_first, has_video, is_first_video};
use vstd::prelude::*;

verus! {

/// The state after `events`, and the answer to each of them.
pub open spec fn run(s: DecoderState, events: Seq<EventView>) -> (DecoderState, Seq<ActionView>)
    decreases events.len(),
{
    if events.len() == 0 {
        (s, Seq::empty())
    } else {
        let (next, answer) = transition(s, events.first());
        let (last, answers) = run(next, events.drop_first());
        (last, seq![answer] + answers)
    }
}

/// Every event gets one answer.
pub proof fn run_answers_each_event(s: DecoderState, events: Seq<EventView>)
    ensures
        run(s, events).1.len() == events.len(),
    decreases events.len(),
{
    if events.len() > 0 {
        run_answers_each_event(transition(s, events.first()).0, events.drop_first());
    }
}

/// A conversation may be cut anywhere: running its two parts one after the
/// other is running the whole.
pub proof fn run_concat(s: DecoderState, first: Seq<EventView>, second: Seq<EventView>)
    ensures
        run(s, first + second) == ({
            let (mid, head) = run(s, first);
            let (last, tail) = run(mid, second);
            (last, head + tail)
        }),
    decreases first.len(),
{
    let (mid, head) = run(s, first);
    let (last, tail) = run(mid, second);
    if first.len() == 0 {
        assert(first + second =~= second);
        assert(head + tail =~= tail);
    } else {
        let (next, answer) = transition(s, first.first());
        assert((first + second).first() == first.first());
        assert((first + second).drop_first() =~= first.drop_first() + second);
        run_concat(next, first.drop_first(), second);
        let inner = run(next, first.drop_first()).1;
        assert(seq![answer] + (inner + tail) =~= (seq![answer] + inner) + tail);
    }
}

/// The pictures among `answers`, in the order in which they were emitted.
pub open spec fn pictures(answers: Seq<ActionView>) -> Seq<FrameView>
    decreases answers.len(),
{
    if answers.len() == 0 {
        Seq::empty()
    } else {
        match answers.first() {
            ActionView::Emit(frame) => seq![frame] + pictures(answers.drop_first()),
            _ => pictures(answers.drop_first()),
        }
    }
}

/// The pictures of two runs of answers are those of the first followed by
/// those of the second.
pub proof fn pictures_concat(first: Seq<ActionView>, second: Seq<ActionView>)
    ensures
        pictures(first + second) == pictures(first) + pictures(second),
    decreases first.len(),
{
    if first.len() == 0 {
        assert(first + second =~= second);
        assert(pictures(first) + pictures(second) =~= pictures(second));
    } else {
        assert((first + second).first() == first.first());
        assert((first + second).drop_first() =~= first.drop_first() + second);
        pictures_concat(first.drop_first(), second);
        let rest = pictures(first.drop_first());
        match first.first() {
            ActionView::Emit(frame) => {
                assert(seq![frame] + (rest + pictures(second)) =~= (seq![frame] + rest) + pictures(
                    second,
                ));
            },
            _ => {},
        }
    }
}

/// A conversation of one event.
pub proof fn run_of_one(s: DecoderState, e: EventView)
    ensures
        run(s, seq![e]) == (transition(s, e).0, seq![transition(s, e).1]),
{
    let (next, answer) = transition(s, e);
    assert(seq![e].drop_first() =~= Seq::<EventView>::empty());
    assert(run(next, Seq::<EventView>::empty()) == (next, Seq::<ActionView>::empty()));
    assert(seq![answer] + Seq::<ActionView>::empty() =~= seq![answer]);
}

/// A conversation of two events.
pub proof fn run_of_two(s: DecoderState, first: EventView, second: EventView)
    ensures
        run(s, seq![first, second]) == ({
            let (mid, a) = transition(s, first);
            let (last, b) = transition(mid, second);
            (last, seq![a, b])
        }),
{
    let (mid, a) = transition(s, first);
    let (last, b) = transition(mid, second);
    run_of_one(s, first);
    run_of_one(mid, second);
    run_concat(s, seq![first], seq![second]);
    assert(seq![first] + seq![second] =~= seq![first, second]);
    assert(seq![a] + seq![b] =~= seq![a, b]);
}

/// Answers among which no picture is emitted hold no pictures.
pub proof fn requests_hold_no_pictures(answers: Seq<ActionView>)
    requires
        forall|i: int| 0 <= i < answers.len() ==> !(answers[i] is Emit),
    ensures
        pictures(answers) == Seq::<FrameView>::empty(),
    decreases answers.len(),
{
    if answers.len() > 0 {
        let rest = answers.drop_first();
        assert(!(answers[0] is Emit));
        assert forall|i: int| 0 <= i < rest.len() implies !(rest[i] is Emit) by {
            assert(rest[i] == answers[i + 1]);
        }
        requests_hold_no_pictures(rest);
    }
}

/// A packet that was read well and belongs to another stream than the one
/// selected.
pub open spec fn of_another_stream(e: EventView, stream_idx: nat) -> bool {
    e matches EventView::PacketRead { status, stream_index } && status >= 0 && stream_index
        != stream_idx
}

/// Each of `packets` was read well and belongs to another stream than the
/// one selected.
pub open spec fn all_of_other_streams(packets: Seq<EventView>, stream_idx: nat) -> bool {
    forall|i: int| 0 <= i < packets.len() ==> of_another_stream(#[trigger] packets[i], stream_idx)
}

/// As many requests to read on as there are `packets` to pass over.
pub open spec fn reads_on(packets: Seq<EventView>) -> Seq<ActionView> {
    Seq::new(packets.len(), |i: int| ActionView::ReadPacket)
}

/// A decoder that is well formed stays so, whatever the backend reports.
pub proof fn transition_keeps_wf(s: DecoderState, e: EventView)
    requires
        s.wf(),
    ensures
        transition(s, e).0.wf(),
{
}

/// The decoder never goes back: it opens step by step, decodes, and ends,
/// and it cannot be opened or started again.
pub proof fn decoder_never_goes_back(s: DecoderState, e: EventView)
    ensures
        transition(s, e).0.progress() >= s.progress(),
        transition(s, e).0.progress() <= 7 ==> transition(s, e).0.progress() == s.progress() + 1,
{
}

/// How many of `answers` ask for a codec context.
pub open spec fn allocations(answers: Seq<ActionView>) -> nat
    decreases answers.len(),
{
    if answers.len() == 0 {
        0
    } else if answers.first() is AllocateContext {
        1 + allocations(answers.drop_first())
    } else {
        allocations(answers.drop_first())
    }
}

/// Over its whole life a decoder asks for at most one codec context, and for
/// none once it has got past the point of asking.
pub proof fn codec_context_is_allocated_at_most_once(s: DecoderState, events: Seq<EventView>)
    ensures
        allocations(run(s, events).1) <= 1,
        s.progress() > 4 ==> allocations(run(s, events).1) == 0,
    decreases events.len(),
{
    if events.len() > 0 {
        let (next, answer) = transition(s, events.first());
        let rest = run(next, events.drop_first()).1;
        codec_context_is_allocated_at_most_once(next, events.drop_first());
        let all = seq![answer] + rest;
        assert(run(s, events).1 == all);
        assert(all.first() == answer);
        assert(all.drop_first() =~= rest);
    }
}

/// A container with a video stream opens where the backend succeeds at each
/// step, and the stream selected is the first video stream, whatever comes
/// before it.
pub proof fn open_selects_first_video_stream(
    path: Seq<char>,
    url: Option<Seq<char>>,
    probe_status: i32,
    media_types: Seq<i32>,
    name: Option<Seq<char>>,
    alloc_status: i32,
    copy_status: i32,
    codec_status: i32,
)
    requires
        has_video(media_types),
        probe_status >= 0,
        alloc_status >= 0,
        copy_status >= 0,
        codec_status >= 0,
    ensures
        ({
            let (last, answers) = run(
                DecoderState::created(path),
                seq![
                    EventView::Open,
                    EventView::InputOpened { status: 0, url },
                    EventView::StreamInfoFound { status: probe_status },
                    EventView::StreamsListed { media_types },
                    EventView::DecoderResolved { found: true, name },
                    EventView::ContextAllocated { status: alloc_status },
                    EventView::ParametersCopied { status: copy_status },
                    EventView::CodecOpened { status: codec_status },
                ],
            );
            &&& last.phase == Phase::Idle
            &&& is_first_video(media_types, last.stream_idx as int)
            &&& answers.len() == 8
            &&& answers[3] == (ActionView::FindDecoder { stream: last.stream_idx })
            &&& answers[5] == (ActionView::CopyParameters { stream: last.stream_idx })
            &&& answers[7] == ActionView::Ready
        }),
{
    first_video_is_first(media_types);
    let e0 = EventView::Open;
    let e1 = EventView::InputOpened { status: 0, url };
    let e2 = EventView::StreamInfoFound { status: probe_status };
    let e3 = EventView::StreamsListed { media_types };
    let e4 = EventView::DecoderResolved { found: true, name };
    let e5 = EventView::ContextAllocated { status: alloc_status };
    let e6 = EventView::ParametersCopied { status: copy_status };
    let e7 = EventView::CodecOpened { status: codec_status };
    let s0 = DecoderState::created(path);
    let s1 = transition(s0, e0).0;
    let s2 = transition(s1, e1).0;
    let s3 = transition(s2, e2).0;
    let s4 = transition(s3, e3).0;
    let s5 = transition(s4, e4).0;
    let s6 = transition(s5, e5).0;
    let s7 = transition(s6, e6).0;
    let s8 = transition(s7, e7).0;
    let t7 = seq![e7];
    let t6 = seq![e6, e7];
    let t5 = seq![e5, e6, e7];
    let t4 = seq![e4, e5, e6, e7];
    let t3 = seq![e3, e4, e5, e6, e7];
    let t2 = seq![e2, e3, e4, e5, e6, e7];
    let t1 = seq![e1, e2, e3, e4, e5, e6, e7];
    let t0 = seq![e0, e1, e2, e3, e4, e5, e6, e7];
    assert(t7.drop_first() =~= Seq::<EventView>::empty());
    assert(t6.drop_first() =~= t7);
    assert(t5.drop_first() =~= t6);
    assert(t4.drop_first() =~= t5);
    assert(t3.drop_first() =~= t4);
    assert(t2.drop_first() =~= t3);
    assert(t1.drop_first() =~= t2);
    assert(t0.drop_first() =~= t1);
    assert(run(s8, Seq::<EventView>::empty()).0 == s8);
    assert(run(s7, t7).0 == s8);
    assert(run(s6, t6).0 == s8);
    assert(run(s5, t5).0 == s8);
    assert(run(s4, t4).0 == s8);
    assert(run(s3, t3).0 == s8);
    assert(run(s2, t2).0 == s8);
    assert(run(s1, t1).0 == s8);
    assert(run(s0, t0).0 == s8);
    run_answers_each_event(s0, t0);
}

/// A container without a video stream fails to open with
/// `NoVideoStreamError`, and whatever is reported to the decoder afterwards,
/// it only repeats that error: no codec context is ever asked for.
pub proof fn no_video_stream_fails_open(
    s: DecoderState,
    media_types: Seq<i32>,
    later: Seq<EventView>,
)
    requires
        s.phase == Phase::ListingStreams,
        !has_video(media_types),
    ensures
        transition(s, EventView::StreamsListed { media_types }) == s.fail(
            DecoderError::NoVideoStreamError,
        ),
        ({
            let failed = transition(s, EventView::StreamsListed { media_types }).0;
            &&& run(failed, later).0 == failed
            &&& forall|i: int|
                0 <= i < later.len() ==> run(failed, later).1[i] == ActionView::Fail(
                    DecoderError::NoVideoStreamError,
                )
        }),
{
    first_video_is_first(media_types);
    let failed = transition(s, EventView::StreamsListed { media_types }).0;
    failed_stays_failed(failed, later);
}

/// A decoder that failed to open stays as it is and repeats its error.
pub proof fn failed_stays_failed(s: DecoderState, events: Seq<EventView>)
    requires
        s.phase is Failed,
    ensures
        run(s, events).0 == s,
        run(s, events).1.len() == events.len(),
        forall|i: int|
            0 <= i < events.len() ==> run(s, events).1[i] == ActionView::Fail(s.phase->error),
    decreases events.len(),
{
    if events.len() > 0 {
        failed_stays_failed(s, events.drop_first());
    }
}

/// Once the decoder has said that no more pictures come, it says so for
/// ever, and nothing is asked of the backend again.
pub proof fn ended_stays_ended(s: DecoderState, events: Seq<EventView>)
    requires
        s.is_ended(),
    ensures
        run(s, events).0 == s,
        run(s, events).1.len() == events.len(),
        forall|i: int| 0 <= i < events.len() ==> run(s, events).1[i] == ActionView::Stop,
    decreases events.len(),
{
    if events.len() > 0 {
        ended_stays_ended(s, events.drop_first());
    }
}

/// The decoder says that no more pictures come exactly when it ends or has
/// ended, and then it has ended.
pub proof fn stop_means_ended(s: DecoderState, e: EventView)
    ensures
        transition(s, e).1 == ActionView::Stop <==> transition(s, e).0.is_ended(),
        s.is_ended() ==> transition(s, e).0.is_ended(),
{
}

/// Every picture that the decoder emits is packed: four bytes for each of
/// its `width * height` pixels.
pub proof fn emitted_frames_are_packed(s: DecoderState, e: EventView)
    ensures
        transition(s, e).1 matches ActionView::Emit(frame) ==> frame.packed(),
{
}

/// Every picture that the decoder emits reports no delay since the picture
/// before it.
pub proof fn emitted_frames_carry_no_delay(s: DecoderState, e: EventView)
    ensures
        transition(s, e).1 matches ActionView::Emit(frame) ==> frame.nanos_from_prev == 0,
{
}

/// Every picture that the decoder emits has the size that the decoder
/// reports as its video size.
pub proof fn emitted_frame_has_the_video_size(s: DecoderState, e: EventView)
    requires
        s.wf(),
    ensures
        transition(s, e).1 matches ActionView::Emit(frame) ==> {
            &&& frame.width == transition(s, e).0.video_width
            &&& frame.height == transition(s, e).0.video_height
        },
{
}

/// A picture is emitted only for the converted bytes of a picture that the
/// codec produced, and it is those bytes at that size.
pub proof fn emitted_frame_is_the_converted_picture(s: DecoderState, e: EventView)
    ensures
        transition(s, e).1 matches ActionView::Emit(frame) ==> {
            &&& s.phase matches Phase::Converting { width, height }
            &&& e matches EventView::Converted { rgba }
            &&& frame == (FrameView {
                width: width as nat,
                height: height as nat,
                rgba,
                nanos_from_prev: 0,
            })
            &&& transition(s, e).0.phase == Phase::Idle
        },
{
}

/// Packets reach the codec, and pictures the consumer, only while the
/// container and the codec are open; and an open decoder stays open until
/// its stream of pictures ends.
pub proof fn decoding_needs_an_open_codec(s: DecoderState, e: EventView)
    ensures
        ({
            let answer = transition(s, e).1;
            answer is ReadPacket || answer is SendPacket || answer is ReceiveFrame
                || answer is Convert || answer is Emit
        }) ==> s.is_open() && transition(s, e).0.is_open(),
        s.is_open() ==> transition(s, e).0.is_open() || transition(s, e).0.is_ended(),
        transition(s, e).0.is_open() ==> s.is_open() || (s.phase == Phase::OpeningCodec
            && transition(s, e).1 == ActionView::Ready),
{
}

/// Once the decoder is open, the stream that it selected, the source and the
/// codec stay what they are.
pub proof fn open_decoder_keeps_its_stream(s: DecoderState, e: EventView)
    requires
        s.is_open() || s.is_ended() || s.is_failed(),
    ensures
        transition(s, e).0.stream_idx == s.stream_idx,
        transition(s, e).0.source == s.source,
        transition(s, e).0.codec_name == s.codec_name,
{
}

/// The counter counts the pictures emitted: it goes up by one with each of
/// them, until it can count no further, and never otherwise.
pub proof fn counter_counts_emitted_frames(s: DecoderState, e: EventView)
    ensures
        transition(s, e).1 is Emit ==> transition(s, e).0.counter == counted(s.counter),
        !(transition(s, e).1 is Emit) ==> transition(s, e).0.counter == s.counter,
        transition(s, e).0.counter >= s.counter,
{
}

/// A pull that finds a video packet, whose picture the codec gives at once,
/// reads, sends, receives and converts, and emits that picture.
pub proof fn pull_emits_the_next_picture(
    s: DecoderState,
    read_status: i32,
    stream_index: i32,
    sent_status: i32,
    received_status: i32,
    width: usize,
    height: usize,
    rgba: Seq<u8>,
)
    requires
        s.phase == Phase::Idle,
        read_status >= 0,
        stream_index == s.stream_idx,
        sent_status >= 0,
        received_status >= 0,
        rgba.len() == width * height * 4,
    ensures
        run(
            s,
            seq![
                EventView::Pull,
                EventView::PacketRead { status: read_status, stream_index },
                EventView::PacketSent { status: sent_status },
                EventView::FrameReceived { status: received_status, width, height },
                EventView::Converted { rgba },
            ],
        ) == (
            DecoderState {
                video_width: width as nat,
                video_height: height as nat,
                counter: counted(s.counter),
                ..s
            },
            seq![
                ActionView::ReadPacket,
                ActionView::SendPacket,
                ActionView::ReceiveFrame,
                ActionView::Convert { width, height },
                ActionView::Emit(
                    FrameView {
                        width: width as nat,
                        height: height as nat,
                        rgba,
                        nanos_from_prev: 0,
                    },
                ),
            ],
        ),
{
    let e0 = EventView::Pull;
    let e1 = EventView::PacketRead { status: read_status, stream_index };
    let e2 = EventView::PacketSent { status: sent_status };
    let e3 = EventView::FrameReceived { status: received_status, width, height };
    let e4 = EventView::Converted { rgba };
    let t0 = seq![e0, e1, e2, e3, e4];
    let t1 = seq![e1, e2, e3, e4];
    let t2 = seq![e2, e3, e4];
    let t3 = seq![e3, e4];
    let t4 = seq![e4];
    assert(t0.drop_first() =~= t1);
    assert(t1.drop_first() =~= t2);
    assert(t2.drop_first() =~= t3);
    assert(t3.drop_first() =~= t4);
    assert(t4.drop_first() =~= Seq::<EventView>::empty());
    let s1 = transition(s, e0).0;
    let s2 = transition(s1, e1).0;
    let s3 = transition(s2, e2).0;
    let s4 = transition(s3, e3).0;
    let s5 = transition(s4, e4).0;
    let a4 = transition(s4, e4).1;
    assert(run(s5, Seq::<EventView>::empty()) == (s5, Seq::<ActionView>::empty()));
    assert(run(s4, t4).1 =~= seq![a4]);
    assert(run(s3, t3).1 =~= seq![ActionView::Convert { width, height }, a4]);
    assert(run(s2, t2).1 =~= seq![
        ActionView::ReceiveFrame,
        ActionView::Convert { width, height },
        a4,
    ]);
    assert(run(s1, t1).1 =~= seq![
        ActionView::SendPacket,
        ActionView::ReceiveFrame,
        ActionView::Convert { width, height },
        a4,
    ]);
    assert(run(s, t0).1 =~= seq![
        ActionView::ReadPacket,
        ActionView::SendPacket,
        ActionView::ReceiveFrame,
        ActionView::Convert { width, height },
        a4,
    ]);
}

/// A pull whose read fails, be it at the end of the container or on a read
/// error, ends the stream of pictures.
pub proof fn pull_at_the_end_of_the_container(s: DecoderState, status: i32, stream_index: i32)
    requires
        s.phase == Phase::Idle,
        status < 0,
    ensures
        run(s, seq![EventView::Pull, EventView::PacketRead { status, stream_index }]) == (
            s.enter(Phase::Ended { reason: EndReason::EndOfContainer { status } }),
            seq![ActionView::ReadPacket, ActionView::Stop],
        ),
{
    let e0 = EventView::Pull;
    let e1 = EventView::PacketRead { status, stream_index };
    let t0 = seq![e0, e1];
    let t1 = seq![e1];
    assert(t0.drop_first() =~= t1);
    assert(t1.drop_first() =~= Seq::<EventView>::empty());
    let s1 = transition(s, e0).0;
    let s2 = transition(s1, e1).0;
    assert(run(s2, Seq::<EventView>::empty()) == (s2, Seq::<ActionView>::empty()));
    assert(run(s1, t1).1 =~= seq![ActionView::Stop]);
    assert(run(s, t0).1 =~= seq![ActionView::ReadPacket, ActionView::Stop]);
}

/// Packets of other streams are passed over, never sent to the codec:
/// while the decoder looks for a packet of the video stream, at the start of
/// a pull or to feed a codec that needs more input, any number of readable
/// packets of other streams leaves it as it was, and each is answered by
/// reading on.
pub proof fn other_streams_are_skipped(s: DecoderState, packets: Seq<EventView>)
    requires
        s.phase == Phase::Demuxing || s.phase is RetryReading,
        all_of_other_streams(packets, s.stream_idx),
    ensures
        run(s, packets) == (s, reads_on(packets)),
    decreases packets.len(),
{
    if packets.len() > 0 {
        let rest = packets.drop_first();
        assert(of_another_stream(packets[0], s.stream_idx));
        assert(transition(s, packets.first()) == (s, ActionView::ReadPacket));
        assert forall|i: int| 0 <= i < rest.len() implies of_another_stream(
            #[trigger] rest[i],
            s.stream_idx,
        ) by {
            assert(rest[i] == packets[i + 1]);
            assert(of_another_stream(packets[i + 1], s.stream_idx));
        }
        other_streams_are_skipped(s, rest);
        assert(seq![ActionView::ReadPacket] + reads_on(rest) =~= reads_on(packets));
    } else {
        assert(reads_on(packets) =~= Seq::<ActionView>::empty());
    }
}

/// What the backend reports when the codec needs more input and gets it:
/// the codec's wish, the packets of other streams that are read first, the
/// further packet of the video stream, and what came of sending it.
pub open spec fn retry_events(
    width: usize,
    height: usize,
    skipped: Seq<EventView>,
    read_status: i32,
    stream_index: i32,
    sent: EventView,
) -> Seq<EventView> {
    seq![EventView::FrameReceived { status: NEEDS_MORE_INPUT, width, height }] + skipped + seq![
        EventView::PacketRead { status: read_status, stream_index },
        sent,
    ]
}

/// Where the codec needs more input and retries are left, the codec is fed
/// one further packet of the video stream and of no other: packets of other
/// streams are passed over on the way, the video packet is sent, and
/// whatever the sending reports, the codec is asked again with one retry
/// fewer left.
pub proof fn needs_more_input_is_retried(
    s: DecoderState,
    retries: usize,
    width: usize,
    height: usize,
    skipped: Seq<EventView>,
    read_status: i32,
    stream_index: i32,
    sent: EventView,
)
    requires
        s.phase == (Phase::Draining { retries }),
        retries < MAX_RETRIES,
        all_of_other_streams(skipped, s.stream_idx),
        read_status >= 0,
        stream_index == s.stream_idx,
        sent is PacketSent,
    ensures
        run(s, retry_events(width, height, skipped, read_status, stream_index, sent)) == (
            DecoderState {
                video_width: width as nat,
                video_height: height as nat,
                phase: Phase::Draining { retries: (retries + 1) as usize },
                ..s
            },
            seq![ActionView::ReadPacket] + reads_on(skipped) + seq![
                ActionView::SendPacket,
                ActionView::ReceiveFrame,
            ],
        ),
{
    let wish = EventView::FrameReceived { status: NEEDS_MORE_INPUT, width, height };
    let read = EventView::PacketRead { status: read_status, stream_index };
    let reading = transition(s, wish).0;
    run_of_one(s, wish);
    other_streams_are_skipped(reading, skipped);
    run_of_two(reading, read, sent);
    run_concat(s, seq![wish], skipped);
    run_concat(s, seq![wish] + skipped, seq![read, sent]);
}

/// Where the container gives out while the codec waits for more input, the
/// stream of pictures ends: nothing is sent to the codec in place of the
/// missing packet.
pub proof fn failed_retry_read_ends_the_stream(
    s: DecoderState,
    retries: usize,
    width: usize,
    height: usize,
    skipped: Seq<EventView>,
    status: i32,
    stream_index: i32,
)
    requires
        s.phase == (Phase::Draining { retries }),
        retries < MAX_RETRIES,
        all_of_other_streams(skipped, s.stream_idx),
        status < 0,
    ensures
        run(
            s,
            seq![EventView::FrameReceived { status: NEEDS_MORE_INPUT, width, height }] + skipped
                + seq![EventView::PacketRead { status, stream_index }],
        ) == (
            DecoderState {
                video_width: width as nat,
                video_height: height as nat,
                phase: Phase::Ended { reason: EndReason::EndOfContainer { status } },
                ..s
            },
            seq![ActionView::ReadPacket] + reads_on(skipped) + seq![ActionView::Stop],
        ),
{
    let wish = EventView::FrameReceived { status: NEEDS_MORE_INPUT, width, height };
    let read = EventView::PacketRead { status, stream_index };
    let reading = transition(s, wish).0;
    run_of_one(s, wish);
    other_streams_are_skipped(reading, skipped);
    run_of_one(reading, read);
    run_concat(s, seq![wish], skipped);
    run_concat(s, seq![wish] + skipped, seq![read]);
}

/// The codec is sent a packet only where the packet read last was read well
/// and belongs to the selected stream.
pub proof fn only_video_packets_are_sent(s: DecoderState, e: EventView)
    ensures
        transition(s, e).1 is SendPacket ==> {
            &&& s.phase == Phase::Demuxing || s.phase is RetryReading
            &&& e matches EventView::PacketRead { status, stream_index }
            &&& status >= 0
            &&& stream_index == s.stream_idx
        },
{
}

/// Where the codec still needs more input after the last retry, or fails in
/// any other way, the stream of pictures ends.
pub proof fn failed_drain_ends_the_stream(
    s: DecoderState,
    retries: usize,
    status: i32,
    width: usize,
    height: usize,
)
    requires
        s.phase == (Phase::Draining { retries }),
        status < 0,
        status != NEEDS_MORE_INPUT || retries >= MAX_RETRIES,
    ensures
        transition(s, EventView::FrameReceived { status, width, height }).1 == ActionView::Stop,
        transition(s, EventView::FrameReceived { status, width, height }).0.phase == (Phase::Ended {
            reason: if status == NEEDS_MORE_INPUT {
                EndReason::RetriesExhausted
            } else {
                EndReason::DecodeFailed { status }
            },
        }),
{
}

} // verus!
