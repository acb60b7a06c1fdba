//! What whole pulls come to: a consumer's request for the next picture,
//! followed through every answer of the backend until the picture or the
//! end.

use crate::decoder::{counted, transition, DecoderState, Phase, MAX_RETRIES, NEEDS_MORE_INPUT};
use crate::decoder_shim::FrameView;
use crate::error::EndReason;
use crate::event::{ActionView, EventView};
use crate::laws::{
    all_of_other_streams, failed_drain_ends_the_stream, needs_more_input_is_retried,
    other_streams_are_skipped, pictures, pictures_concat, reads_on, requests_hold_no_pictures,
    retry_events, run, run_concat, run_of_one, run_of_two,
};
use vstd::prelude::*;

verus! {

/// One round of feeding the codec: it asks for more input and leaves its
/// picture buffer at `width` by `height`; the packets in `skipped` are read
/// and passed over, a packet of the video stream is read and is sent.
pub struct Round {
    pub width: usize,
    pub height: usize,
    pub skipped: Seq<EventView>,
    pub read_status: i32,
    pub sent: EventView,
}

impl Round {
    /// The packets passed over are of other streams, the video packet was
    /// read well, and the sending reported something, whatever it was.
    pub open spec fn wf(self, stream_idx: nat) -> bool {
        &&& all_of_other_streams(self.skipped, stream_idx)
        &&& self.read_status >= 0
        &&& self.sent is PacketSent
    }

    /// What the backend reports in this round.
    pub open spec fn events(self, stream_index: i32) -> Seq<EventView> {
        retry_events(
            self.width,
            self.height,
            self.skipped,
            self.read_status,
            stream_index,
            self.sent,
        )
    }
}

/// Each of `rounds` is well formed.
pub open spec fn rounds_wf(rounds: Seq<Round>, stream_idx: nat) -> bool {
    forall|i: int| 0 <= i < rounds.len() ==> (#[trigger] rounds[i]).wf(stream_idx)
}

/// What the backend reports over `rounds`, one after the other.
pub open spec fn rounds_events(stream_index: i32, rounds: Seq<Round>) -> Seq<EventView>
    decreases rounds.len(),
{
    if rounds.len() == 0 {
        Seq::empty()
    } else {
        rounds.first().events(stream_index) + rounds_events(stream_index, rounds.drop_first())
    }
}

/// The decoder after `rounds`: it has seen the size that the last of them
/// left, and has made that many retries more.
pub open spec fn after_rounds(s: DecoderState, retries: usize, rounds: Seq<Round>) -> DecoderState {
    if rounds.len() == 0 {
        s
    } else {
        DecoderState {
            video_width: rounds.last().width as nat,
            video_height: rounds.last().height as nat,
            phase: Phase::Draining { retries: (retries + rounds.len()) as usize },
            ..s
        }
    }
}

/// While retries are left, each wish of the codec for more input is met with
/// one more packet of the video stream, and no picture is emitted on the
/// way.
pub proof fn rounds_within_the_bound_are_retried(
    s: DecoderState,
    stream_index: i32,
    retries: usize,
    rounds: Seq<Round>,
)
    requires
        s.phase == (Phase::Draining { retries }),
        stream_index == s.stream_idx,
        retries + rounds.len() <= MAX_RETRIES,
        rounds_wf(rounds, s.stream_idx),
    ensures
        run(s, rounds_events(stream_index, rounds)).0 == after_rounds(s, retries, rounds),
        pictures(run(s, rounds_events(stream_index, rounds)).1) == Seq::<FrameView>::empty(),
    decreases rounds.len(),
{
    if rounds.len() > 0 {
        let round = rounds.first();
        let rest = rounds.drop_first();
        assert(round.wf(s.stream_idx));
        needs_more_input_is_retried(
            s,
            retries,
            round.width,
            round.height,
            round.skipped,
            round.read_status,
            stream_index,
            round.sent,
        );
        let (mid, head) = run(s, round.events(stream_index));
        assert forall|i: int| 0 <= i < rest.len() implies (#[trigger] rest[i]).wf(
            mid.stream_idx,
        ) by {
            assert(rest[i] == rounds[i + 1]);
        }
        rounds_within_the_bound_are_retried(mid, stream_index, (retries + 1) as usize, rest);
        run_concat(s, round.events(stream_index), rounds_events(stream_index, rest));
        pictures_concat(head, run(mid, rounds_events(stream_index, rest)).1);
        requests_hold_no_pictures(head);
        if rest.len() > 0 {
            assert(rest.last() == rounds.last());
        }
    }
}

/// What the backend reports during one pull that ends in a picture.
pub struct Shot {
    /// Packets of other streams that are read before the video packet.
    pub skipped: Seq<EventView>,
    /// What reading the video packet reported.
    pub read_status: i32,
    /// What sending it reported.
    pub sent_status: i32,
    /// The rounds in which the codec asked for more input first.
    pub rounds: Seq<Round>,
    /// What the codec reported with its picture.
    pub received_status: i32,
    pub width: usize,
    pub height: usize,
    /// The picture, converted.
    pub rgba: Seq<u8>,
}

impl Shot {
    /// Every call succeeded, with whatever status that is not negative; the
    /// codec asked for more input no more often than it may; and the
    /// converted bytes cover the picture exactly.
    pub open spec fn wf(self, stream_idx: nat) -> bool {
        &&& all_of_other_streams(self.skipped, stream_idx)
        &&& self.read_status >= 0
        &&& self.sent_status >= 0
        &&& self.rounds.len() <= MAX_RETRIES
        &&& rounds_wf(self.rounds, stream_idx)
        &&& self.received_status >= 0
        &&& self.rgba.len() == self.width * self.height * 4
    }

    /// The events of the pull, from the consumer's request on.
    pub open spec fn events(self, stream_index: i32) -> Seq<EventView> {
        seq![EventView::Pull] + self.skipped + seq![
            EventView::PacketRead { status: self.read_status, stream_index },
            EventView::PacketSent { status: self.sent_status },
        ] + rounds_events(stream_index, self.rounds) + seq![
            EventView::FrameReceived {
                status: self.received_status,
                width: self.width,
                height: self.height,
            },
            EventView::Converted { rgba: self.rgba },
        ]
    }

    /// The picture as the consumer gets it.
    pub open spec fn frame(self) -> FrameView {
        FrameView {
            width: self.width as nat,
            height: self.height as nat,
            rgba: self.rgba,
            nanos_from_prev: 0,
        }
    }
}

/// A pull emits its picture, and that picture alone, whatever packets of
/// other streams lie before the video packets and although the codec first
/// asks for more input, as long as it asks no more than `MAX_RETRIES`
/// times. The decoder is then ready for the next pull.
pub proof fn pull_emits_its_picture(s: DecoderState, stream_index: i32, shot: Shot)
    requires
        s.phase == Phase::Idle,
        stream_index == s.stream_idx,
        shot.wf(s.stream_idx),
    ensures
        run(s, shot.events(stream_index)).0 == (DecoderState {
            video_width: shot.width as nat,
            video_height: shot.height as nat,
            counter: counted(s.counter),
            ..s
        }),
        pictures(run(s, shot.events(stream_index)).1) == seq![shot.frame()],
{
    let pull = seq![EventView::Pull];
    let read = EventView::PacketRead { status: shot.read_status, stream_index };
    let sent = EventView::PacketSent { status: shot.sent_status };
    let received = EventView::FrameReceived {
        status: shot.received_status,
        width: shot.width,
        height: shot.height,
    };
    let converted = EventView::Converted { rgba: shot.rgba };
    let middle = rounds_events(stream_index, shot.rounds);

    // The request, and the packets passed over.
    let s1 = transition(s, EventView::Pull).0;
    run_of_one(s, EventView::Pull);
    other_streams_are_skipped(s1, shot.skipped);
    run_concat(s, pull, shot.skipped);
    let a1 = run(s, pull + shot.skipped).1;
    assert(a1 == seq![ActionView::ReadPacket] + reads_on(shot.skipped));
    requests_hold_no_pictures(a1);

    // The video packet is read and sent.
    run_of_two(s1, read, sent);
    let s2 = run(s1, seq![read, sent]).0;
    let a2 = seq![ActionView::SendPacket, ActionView::ReceiveFrame];
    run_concat(s, pull + shot.skipped, seq![read, sent]);
    requests_hold_no_pictures(a2);
    pictures_concat(a1, a2);

    // The rounds.
    rounds_within_the_bound_are_retried(s2, stream_index, 0, shot.rounds);
    let s3 = run(s2, middle).0;
    let a3 = run(s2, middle).1;
    run_concat(s, pull + shot.skipped + seq![read, sent], middle);
    pictures_concat(a1 + a2, a3);

    // The picture comes and is converted.
    run_of_two(s3, received, converted);
    let a4 = seq![
        ActionView::Convert { width: shot.width, height: shot.height },
        ActionView::Emit(shot.frame()),
    ];
    run_concat(s, pull + shot.skipped + seq![read, sent] + middle, seq![received, converted]);
    pictures_concat(a1 + a2 + a3, a4);
    assert(pictures(a4) =~= seq![shot.frame()]) by {
        reveal_with_fuel(pictures, 3);
        assert(a4.drop_first() =~= seq![ActionView::Emit(shot.frame())]);
        assert(a4.drop_first().drop_first() =~= Seq::<ActionView>::empty());
    }
}

/// A codec that asks for more input once more than `MAX_RETRIES` times in
/// one pull ends the stream of pictures: nothing is emitted.
pub proof fn pull_gives_up_after_the_last_retry(
    s: DecoderState,
    stream_index: i32,
    rounds: Seq<Round>,
    width: usize,
    height: usize,
)
    requires
        s.phase == (Phase::Draining { retries: 0 }),
        stream_index == s.stream_idx,
        rounds.len() == MAX_RETRIES,
        rounds_wf(rounds, s.stream_idx),
    ensures
        ({
            let (last, answers) = run(
                s,
                rounds_events(stream_index, rounds) + seq![
                    EventView::FrameReceived { status: NEEDS_MORE_INPUT, width, height },
                ],
            );
            &&& last.phase == (Phase::Ended { reason: EndReason::RetriesExhausted })
            &&& answers.last() == ActionView::Stop
            &&& pictures(answers) == Seq::<FrameView>::empty()
        }),
{
    let wish = EventView::FrameReceived { status: NEEDS_MORE_INPUT, width, height };
    rounds_within_the_bound_are_retried(s, stream_index, 0, rounds);
    let (mid, head) = run(s, rounds_events(stream_index, rounds));
    failed_drain_ends_the_stream(mid, MAX_RETRIES, NEEDS_MORE_INPUT, width, height);
    run_of_one(mid, wish);
    run_concat(s, rounds_events(stream_index, rounds), seq![wish]);
    pictures_concat(head, seq![ActionView::Stop]);
    requests_hold_no_pictures(seq![ActionView::Stop]);
}

/// Packets of other streams are invisible to the consumer: with any number
/// of them before what else the backend reports, the decoder ends up in the
/// same state and emits the same pictures. This holds wherever the decoder
/// looks for a video packet, at the start of a pull and in a retry.
pub proof fn skipped_packets_change_nothing(
    s: DecoderState,
    skipped: Seq<EventView>,
    rest: Seq<EventView>,
)
    requires
        s.phase == Phase::Demuxing || s.phase is RetryReading,
        all_of_other_streams(skipped, s.stream_idx),
    ensures
        run(s, skipped + rest).0 == run(s, rest).0,
        pictures(run(s, skipped + rest).1) == pictures(run(s, rest).1),
{
    other_streams_are_skipped(s, skipped);
    run_concat(s, skipped, rest);
    pictures_concat(reads_on(skipped), run(s, rest).1);
    requests_hold_no_pictures(reads_on(skipped));
}

/// A pull that finds no further video packet, because a read fails at the
/// end of the container or on a read error, ends the stream of pictures,
/// whatever packets of other streams it reads first.
pub proof fn pull_finds_the_end(
    s: DecoderState,
    trailing: Seq<EventView>,
    status: i32,
    stream_index: i32,
)
    requires
        s.phase == Phase::Idle,
        all_of_other_streams(trailing, s.stream_idx),
        status < 0,
    ensures
        run(
            s,
            seq![EventView::Pull] + trailing + seq![EventView::PacketRead { status, stream_index }],
        ) == (
            s.enter(Phase::Ended { reason: EndReason::EndOfContainer { status } }),
            seq![ActionView::ReadPacket] + reads_on(trailing) + seq![ActionView::Stop],
        ),
{
    let read = EventView::PacketRead { status, stream_index };
    let looking = transition(s, EventView::Pull).0;
    run_of_one(s, EventView::Pull);
    other_streams_are_skipped(looking, trailing);
    run_of_one(looking, read);
    run_concat(s, seq![EventView::Pull], trailing);
    run_concat(s, seq![EventView::Pull] + trailing, seq![read]);
}

/// Each of `shots` is well formed.
pub open spec fn shots_wf(shots: Seq<Shot>, stream_idx: nat) -> bool {
    forall|i: int| 0 <= i < shots.len() ==> (#[trigger] shots[i]).wf(stream_idx)
}

/// What the backend reports while a consumer pulls the pictures of
/// `shots`, one pull for each.
pub open spec fn stream_events(stream_index: i32, shots: Seq<Shot>) -> Seq<EventView>
    decreases shots.len(),
{
    if shots.len() == 0 {
        Seq::empty()
    } else {
        shots.first().events(stream_index) + stream_events(stream_index, shots.drop_first())
    }
}

/// The pictures of `shots` as the consumer gets them.
pub open spec fn frames(shots: Seq<Shot>) -> Seq<FrameView> {
    shots.map_values(|shot: Shot| shot.frame())
}

/// The counter after `n` more pictures.
pub open spec fn counted_times(counter: nat, n: nat) -> nat
    decreases n,
{
    if n == 0 {
        counter
    } else {
        counted_times(counted(counter), (n - 1) as nat)
    }
}

/// A stream of `n` pictures gives the consumer exactly those `n` pictures,
/// in the order of their video packets, one for each pull, and leaves the
/// decoder ready for the next pull. Packets of other streams between the
/// video packets, and a codec that asks for more input within its bound,
/// change nothing of this, nor does any status that is not negative.
pub proof fn stream_is_emitted_in_order(s: DecoderState, stream_index: i32, shots: Seq<Shot>)
    requires
        s.phase == Phase::Idle,
        stream_index == s.stream_idx,
        shots_wf(shots, s.stream_idx),
    ensures
        pictures(run(s, stream_events(stream_index, shots)).1) == frames(shots),
        run(s, stream_events(stream_index, shots)).0.phase == Phase::Idle,
        run(s, stream_events(stream_index, shots)).0.stream_idx == s.stream_idx,
        run(s, stream_events(stream_index, shots)).0.counter == counted_times(
            s.counter,
            shots.len(),
        ),
    decreases shots.len(),
{
    if shots.len() == 0 {
        assert(frames(shots) =~= Seq::<FrameView>::empty());
    } else {
        let shot = shots.first();
        let rest = shots.drop_first();
        assert(shot.wf(s.stream_idx));
        pull_emits_its_picture(s, stream_index, shot);
        let (mid, head) = run(s, shot.events(stream_index));
        assert forall|i: int| 0 <= i < rest.len() implies (#[trigger] rest[i]).wf(
            mid.stream_idx,
        ) by {
            assert(rest[i] == shots[i + 1]);
        }
        stream_is_emitted_in_order(mid, stream_index, rest);
        run_concat(s, shot.events(stream_index), stream_events(stream_index, rest));
        pictures_concat(head, run(mid, stream_events(stream_index, rest)).1);
        assert(frames(shots) =~= seq![shot.frame()] + frames(rest));
    }
}

/// The same stream with and without its packets of other streams.
pub open spec fn without_other_streams(shots: Seq<Shot>) -> Seq<Shot> {
    shots.map_values(
        |shot: Shot|
            Shot {
                skipped: Seq::empty(),
                rounds: shot.rounds.map_values(
                    |round: Round| Round { skipped: Seq::empty(), ..round },
                ),
                ..shot
            },
    )
}

/// Other streams are invisible over a whole stream: a container whose video
/// packets are interleaved with packets of other streams gives the
/// consumer the same pictures, in the same order, as the container with
/// its video packets alone.
pub proof fn interleaved_stream_gives_the_same_pictures(
    s: DecoderState,
    stream_index: i32,
    shots: Seq<Shot>,
)
    requires
        s.phase == Phase::Idle,
        stream_index == s.stream_idx,
        shots_wf(shots, s.stream_idx),
    ensures
        shots_wf(without_other_streams(shots), s.stream_idx),
        pictures(run(s, stream_events(stream_index, shots)).1) == pictures(
            run(s, stream_events(stream_index, without_other_streams(shots))).1,
        ),
        run(s, stream_events(stream_index, shots)).0.counter == run(
            s,
            stream_events(stream_index, without_other_streams(shots)),
        ).0.counter,
{
    let bare = without_other_streams(shots);
    assert forall|i: int| 0 <= i < bare.len() implies (#[trigger] bare[i]).wf(s.stream_idx) by {
        let shot = shots[i];
        assert(shot.wf(s.stream_idx));
        let rounds = bare[i].rounds;
        assert forall|j: int| 0 <= j < rounds.len() implies (#[trigger] rounds[j]).wf(
            s.stream_idx,
        ) by {
            assert(shot.rounds[j].wf(s.stream_idx));
        }
    }
    stream_is_emitted_in_order(s, stream_index, shots);
    stream_is_emitted_in_order(s, stream_index, bare);
    assert(frames(bare) =~= frames(shots));
}

/// Exhausting a stream of `n` pictures: `n` pulls give its pictures in
/// order, and the pull after them finds the end of the container, behind
/// whatever packets of other streams are left, and gives none.
pub proof fn exhausted_stream_ends(
    s: DecoderState,
    stream_index: i32,
    shots: Seq<Shot>,
    trailing: Seq<EventView>,
    end_status: i32,
    end_stream_index: i32,
)
    requires
        s.phase == Phase::Idle,
        stream_index == s.stream_idx,
        shots_wf(shots, s.stream_idx),
        all_of_other_streams(trailing, s.stream_idx),
        end_status < 0,
    ensures
        ({
            let (last, answers) = run(
                s,
                stream_events(stream_index, shots) + (seq![EventView::Pull] + trailing + seq![
                    EventView::PacketRead { status: end_status, stream_index: end_stream_index },
                ]),
            );
            &&& pictures(answers) == frames(shots)
            &&& answers.last() == ActionView::Stop
            &&& last.phase == (Phase::Ended {
                reason: EndReason::EndOfContainer { status: end_status },
            })
            &&& last.counter == counted_times(s.counter, shots.len())
        }),
{
    let body = stream_events(stream_index, shots);
    let tail = seq![EventView::Pull] + trailing + seq![
        EventView::PacketRead { status: end_status, stream_index: end_stream_index },
    ];
    stream_is_emitted_in_order(s, stream_index, shots);
    let (mid, head) = run(s, body);
    pull_finds_the_end(mid, trailing, end_status, end_stream_index);
    run_concat(s, body, tail);
    let tail_answers = run(mid, tail).1;
    pictures_concat(head, tail_answers);
    requests_hold_no_pictures(tail_answers);
    assert(pictures(head) + Seq::<FrameView>::empty() =~= pictures(head));
}

} // verus!
