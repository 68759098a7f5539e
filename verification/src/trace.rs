//! Runs of the pipeline over a sequence of events.
//!
//! [`run`] folds the transition table over the events that a driver reports,
//! [`replay`] does the same with a recorded sequence, and the lemmas of this
//! module say what every run has in common.

use crate::pipeline::{initial, next, Action, Event, Outcome, Phase, Pipeline, PipelineError,
    PipelineState, Step};
use vstd::prelude::*;

verus! {

/// What a run that stands at `outcome` answers to one more event. A run that
/// is over stays as it is.
pub open spec fn advance(outcome: Outcome, event: Event) -> Outcome {
    match outcome {
        Outcome::Continue(state, _) => next(state, event),
        Outcome::Finished(_) => outcome,
    }
}

/// Where a run that stands at `outcome` stands after `events`.
pub open spec fn run(outcome: Outcome, events: Seq<Event>) -> Outcome
    decreases events.len(),
{
    if events.len() == 0 {
        outcome
    } else {
        advance(run(outcome, events.drop_last()), events.last())
    }
}

/// The samples that an event carries.
pub open spec fn plane_of(event: Event) -> Seq<i16> {
    match event {
        Event::Samples(plane) => plane@,
        _ => Seq::empty(),
    }
}

/// The samples that the events carry, one plane after the other.
pub open spec fn planes(events: Seq<Event>) -> Seq<i16>
    decreases events.len(),
{
    if events.len() == 0 {
        Seq::empty()
    } else {
        planes(events.drop_last()) + plane_of(events.last())
    }
}

impl Step {
    /// Hands one more event to a run. A run that is over stays as it is.
    pub fn advance(self, event: Event) -> (step: Step)
        ensures
            step@ == advance(self@, event),
    {
        match self {
            Step::Continue(pipeline, _) => pipeline.step(event),
            Step::Finished(result) => Step::Finished(result),
        }
    }
}

/// Runs a pipeline on `path` over a recorded sequence of events.
pub fn replay(path: String, events: Vec<Event>) -> (end: Step)
    ensures
        end@ == run(initial(path@), events@),
{
    let ghost begin = initial(path@);
    let ghost all = events@;
    let (pipeline, action) = Pipeline::start(path);
    let mut current = Step::Continue(pipeline, action);
    for event in iter: events.into_iter()
        invariant
            iter.seq() == all,
            current@ == run(begin, all.take(iter.index() as int)),
    {
        proof {
            let seen = all.take(iter.index() + 1);
            assert(seen.drop_last() =~= all.take(iter.index() as int));
            assert(seen.last() == event);
        }
        current = current.advance(event);
    }
    assert(all.take(all.len() as int) =~= all);
    current
}

/// The state of a run that is about to read a packet.
pub open spec fn reading(path: Seq<char>, stream: usize, samples: Seq<i16>) -> Outcome {
    Outcome::Continue(
        PipelineState { phase: Phase::ReadingPacket, path, stream, samples },
        Action::ReadPacket,
    )
}

/// What a driver reports up to the first packet of a file that opens, whose
/// best audio stream has the index `stream`, and whose decoder reports
/// `layout` and `channels`.
pub open spec fn setup_events(stream: usize, layout: u64, channels: u16) -> Seq<Event> {
    let opened = seq![
        Event::Completed,
        Event::Completed,
        Event::AudioStream(stream),
        Event::Decoder { layout, channels },
    ];
    if layout == 0 {
        opened.push(Event::Completed).push(Event::Completed)
    } else {
        opened.push(Event::Completed)
    }
}

/// What becomes of one packet.
pub enum Round {
    /// The packet belongs to another stream.
    Foreign { stream: usize },
    /// The packet belongs to the chosen stream and the decoder gives no frame
    /// after it. `taken` tells whether the decoder took the packet.
    Silent { taken: bool },
    /// The packet belongs to the chosen stream, the decoder gives a frame
    /// after it, and the resampler turns the frame into `plane`.
    Audible { taken: bool, plane: Vec<i16> },
}

/// What a driver reports of handing a packet to the decoder.
pub open spec fn sent(taken: bool) -> Event {
    if taken {
        Event::Completed
    } else {
        Event::Failed
    }
}

/// What a driver reports in one round of a run on the stream `chosen`.
pub open spec fn round_events(round: Round, chosen: usize) -> Seq<Event> {
    match round {
        Round::Foreign { stream } => seq![Event::Packet(stream)],
        Round::Silent { taken } => seq![Event::Packet(chosen), sent(taken), Event::Failed],
        Round::Audible { taken, plane } => seq![
            Event::Packet(chosen),
            sent(taken),
            Event::Completed,
            Event::Samples(plane),
        ],
    }
}

/// The samples that one round adds.
pub open spec fn round_samples(round: Round) -> Seq<i16> {
    match round {
        Round::Audible { taken, plane } => plane@,
        _ => Seq::empty(),
    }
}

/// What a driver reports in a sequence of rounds.
pub open spec fn rounds_events(rounds: Seq<Round>, chosen: usize) -> Seq<Event>
    decreases rounds.len(),
{
    if rounds.len() == 0 {
        Seq::empty()
    } else {
        rounds_events(rounds.drop_last(), chosen) + round_events(rounds.last(), chosen)
    }
}

/// The samples that a sequence of rounds adds.
pub open spec fn rounds_samples(rounds: Seq<Round>) -> Seq<i16>
    decreases rounds.len(),
{
    if rounds.len() == 0 {
        Seq::empty()
    } else {
        rounds_samples(rounds.drop_last()) + round_samples(rounds.last())
    }
}

/// Whether the rounds fit a run on the stream `chosen`: a foreign packet is
/// one of another stream.
pub open spec fn rounds_fit(rounds: Seq<Round>, chosen: usize) -> bool {
    forall|i: int|
        0 <= i < rounds.len() ==> (#[trigger] rounds[i] matches Round::Foreign { stream }
            ==> stream != chosen)
}

/// Whether two events tell the same: they are of one kind and carry the same
/// values.
pub open spec fn same_report(a: Event, b: Event) -> bool {
    match (a, b) {
        (Event::Samples(plane_a), Event::Samples(plane_b)) => plane_a@ == plane_b@,
        (Event::Samples(_), _) => false,
        (_, Event::Samples(_)) => false,
        _ => a == b,
    }
}

/// One more event advances the run by one step.
pub proof fn lemma_run_push(outcome: Outcome, events: Seq<Event>, event: Event)
    ensures
        run(outcome, events.push(event)) == advance(run(outcome, events), event),
{
    assert(events.push(event).drop_last() =~= events);
}

/// A run over two sequences of events, one after the other, is the run over
/// the second from where the first one led.
pub proof fn lemma_run_concat(outcome: Outcome, first: Seq<Event>, second: Seq<Event>)
    ensures
        run(outcome, first + second) == run(run(outcome, first), second),
    decreases second.len(),
{
    if second.len() == 0 {
        assert(first + second =~= first);
    } else {
        lemma_run_concat(outcome, first, second.drop_last());
        assert((first + second).drop_last() =~= first + second.drop_last());
    }
}

/// A run that is over takes no notice of further events.
pub proof fn lemma_finished_stays(outcome: Outcome, events: Seq<Event>)
    requires
        outcome is Finished,
    ensures
        run(outcome, events) == outcome,
    decreases events.len(),
{
    if events.len() > 0 {
        lemma_finished_stays(outcome, events.drop_last());
    }
}

/// As long as a run goes on, it holds the planes that were reported, in the
/// order in which they came, and works on the path it began with.
pub proof fn lemma_samples_are_planes(path: Seq<char>, events: Seq<Event>)
    requires
        run(initial(path), events) is Continue,
    ensures
        run(initial(path), events)->Continue_0.samples == planes(events),
        run(initial(path), events)->Continue_0.path == path,
    decreases events.len(),
{
    if events.len() > 0 {
        lemma_samples_are_planes(path, events.drop_last());
    }
}

/// A run ends in success on the end of the input and on nothing else, and
/// its result is made of the planes that were reported, in the order in which
/// they came.
pub proof fn lemma_result_is_planes(path: Seq<char>, events: Seq<Event>, last: Event)
    requires
        run(initial(path), events) is Continue,
        run(initial(path), events.push(last)) matches Outcome::Finished(r) && r is Ok,
    ensures
        last is EndOfInput,
        run(initial(path), events.push(last)) == Outcome::Finished(Ok(planes(events))),
        run(initial(path), events.push(last)) == Outcome::Finished(
            Ok(planes(events.push(last))),
        ),
{
    lemma_run_push(initial(path), events, last);
    lemma_samples_are_planes(path, events);
    assert(events.push(last).drop_last() =~= events);
    assert(planes(events.push(last)) =~= planes(events));
}

/// No step asks to set up the media library: a run asks for it once, when it
/// begins.
pub proof fn lemma_initialize_once(state: PipelineState, event: Event)
    ensures
        next(state, event) matches Outcome::Continue(_, action) ==> action
            != Action::Initialize,
{
}

/// After the set-up a run is about to read the first packet, and holds no
/// samples yet. Whether the decoder reported a channel layout or none makes
/// no difference.
pub proof fn lemma_setup(path: Seq<char>, stream: usize, layout: u64, channels: u16)
    ensures
        run(initial(path), setup_events(stream, layout, channels)) == reading(
            path,
            stream,
            Seq::empty(),
        ),
{
    let begin = initial(path);
    let e0 = Seq::<Event>::empty();
    let e1 = e0.push(Event::Completed);
    let e2 = e1.push(Event::Completed);
    let e3 = e2.push(Event::AudioStream(stream));
    let e4 = e3.push(Event::Decoder { layout, channels });
    let e5 = e4.push(Event::Completed);
    let e6 = e5.push(Event::Completed);
    lemma_run_push(begin, e0, Event::Completed);
    lemma_run_push(begin, e1, Event::Completed);
    lemma_run_push(begin, e2, Event::AudioStream(stream));
    lemma_run_push(begin, e3, Event::Decoder { layout, channels });
    lemma_run_push(begin, e4, Event::Completed);
    lemma_run_push(begin, e5, Event::Completed);
    if layout == 0 {
        assert(setup_events(stream, layout, channels) =~= e6);
    } else {
        assert(setup_events(stream, layout, channels) =~= e5);
    }
}

/// One round leads a run that is about to read a packet back to where it
/// reads the next one, with the samples of the round added.
pub proof fn lemma_round(path: Seq<char>, chosen: usize, samples: Seq<i16>, round: Round)
    requires
        round matches Round::Foreign { stream } ==> stream != chosen,
    ensures
        run(reading(path, chosen, samples), round_events(round, chosen)) == reading(
            path,
            chosen,
            samples + round_samples(round),
        ),
{
    let begin = reading(path, chosen, samples);
    let e0 = Seq::<Event>::empty();
    assert(samples + Seq::<i16>::empty() =~= samples);
    match round {
        Round::Foreign { stream } => {
            lemma_run_push(begin, e0, Event::Packet(stream));
            assert(round_events(round, chosen) =~= e0.push(Event::Packet(stream)));
        },
        Round::Silent { taken } => {
            let e1 = e0.push(Event::Packet(chosen));
            let e2 = e1.push(sent(taken));
            let e3 = e2.push(Event::Failed);
            lemma_run_push(begin, e0, Event::Packet(chosen));
            lemma_run_push(begin, e1, sent(taken));
            lemma_run_push(begin, e2, Event::Failed);
            assert(round_events(round, chosen) =~= e3);
        },
        Round::Audible { taken, plane } => {
            let e1 = e0.push(Event::Packet(chosen));
            let e2 = e1.push(sent(taken));
            let e3 = e2.push(Event::Completed);
            let e4 = e3.push(Event::Samples(plane));
            lemma_run_push(begin, e0, Event::Packet(chosen));
            lemma_run_push(begin, e1, sent(taken));
            lemma_run_push(begin, e2, Event::Completed);
            lemma_run_push(begin, e3, Event::Samples(plane));
            assert(round_events(round, chosen) =~= e4);
        },
    }
}

/// A sequence of rounds leads a run that is about to read a packet back to
/// where it reads the next one, with the samples of all the rounds added in
/// their order.
pub proof fn lemma_rounds(
    path: Seq<char>,
    chosen: usize,
    samples: Seq<i16>,
    rounds: Seq<Round>,
)
    requires
        rounds_fit(rounds, chosen),
    ensures
        run(reading(path, chosen, samples), rounds_events(rounds, chosen)) == reading(
            path,
            chosen,
            samples + rounds_samples(rounds),
        ),
    decreases rounds.len(),
{
    let begin = reading(path, chosen, samples);
    if rounds.len() == 0 {
        assert(samples + Seq::<i16>::empty() =~= samples);
    } else {
        let before = rounds.drop_last();
        let round = rounds.last();
        assert forall|i: int| 0 <= i < before.len() implies (#[trigger] before[i] matches Round::Foreign {
            stream,
        } ==> stream != chosen) by {
            assert(before[i] == rounds[i]);
        }
        lemma_rounds(path, chosen, samples, before);
        lemma_round(path, chosen, samples + rounds_samples(before), round);
        lemma_run_concat(begin, rounds_events(before, chosen), round_events(round, chosen));
        assert(samples + rounds_samples(before) + round_samples(round) =~= samples
            + rounds_samples(rounds));
    }
}

/// A run on a file that opens, has an audio stream and a decoder for it, and
/// whose frames the resampler takes, ends in success, and its result is made
/// of the planes of its frames in their order. Packets of other streams,
/// packets that the decoder refuses and packets after which it gives no frame
/// add nothing, and a decoder that reports no channel layout gives the same
/// result as one that reports a layout.
pub proof fn lemma_clean_run(
    path: Seq<char>,
    chosen: usize,
    layout: u64,
    channels: u16,
    rounds: Seq<Round>,
)
    requires
        rounds_fit(rounds, chosen),
    ensures
        run(
            initial(path),
            setup_events(chosen, layout, channels) + rounds_events(rounds, chosen).push(
                Event::EndOfInput,
            ),
        ) == Outcome::Finished(Ok(rounds_samples(rounds))),
{
    let setup = setup_events(chosen, layout, channels);
    let body = rounds_events(rounds, chosen);
    lemma_setup(path, chosen, layout, channels);
    lemma_rounds(path, chosen, Seq::empty(), rounds);
    lemma_run_push(reading(path, chosen, Seq::empty()), body, Event::EndOfInput);
    lemma_run_concat(initial(path), setup, body.push(Event::EndOfInput));
    assert(Seq::<i16>::empty() + rounds_samples(rounds) =~= rounds_samples(rounds));
}

/// The result of a clean run holds the plane of each of its frames: it is
/// at least as long as any of them, so it is not empty where one of them is
/// not.
pub proof fn lemma_samples_hold_each_plane(rounds: Seq<Round>, i: int)
    requires
        0 <= i < rounds.len(),
    ensures
        rounds_samples(rounds).len() >= round_samples(rounds[i]).len(),
    decreases rounds.len(),
{
    if i < rounds.len() - 1 {
        lemma_samples_hold_each_plane(rounds.drop_last(), i);
    }
}

/// A decoder that reports no channel layout is given the default one, and
/// from there on the run goes as that of a decoder that reported a layout:
/// whatever follows, both runs end alike.
pub proof fn lemma_layout_is_normalized(
    path: Seq<char>,
    stream: usize,
    layout: u64,
    channels: u16,
    rest: Seq<Event>,
)
    ensures
        run(initial(path), setup_events(stream, 0, channels) + rest) == run(
            initial(path),
            setup_events(stream, layout, channels) + rest,
        ),
{
    lemma_setup(path, stream, 0, channels);
    lemma_setup(path, stream, layout, channels);
    lemma_run_concat(initial(path), setup_events(stream, 0, channels), rest);
    lemma_run_concat(initial(path), setup_events(stream, layout, channels), rest);
}

/// A run on a container without an audio stream ends with
/// [`PipelineError::NoAudioStream`], whatever is reported after that.
pub proof fn lemma_no_audio_stream(path: Seq<char>, rest: Seq<Event>)
    ensures
        run(initial(path), seq![Event::Completed, Event::Completed, Event::Failed] + rest)
            == Outcome::Finished(Err(PipelineError::NoAudioStream)),
{
    let begin = initial(path);
    let e0 = Seq::<Event>::empty();
    let e1 = e0.push(Event::Completed);
    let e2 = e1.push(Event::Completed);
    let e3 = e2.push(Event::Failed);
    lemma_run_push(begin, e0, Event::Completed);
    lemma_run_push(begin, e1, Event::Completed);
    lemma_run_push(begin, e2, Event::Failed);
    assert(seq![Event::Completed, Event::Completed, Event::Failed] =~= e3);
    lemma_run_concat(begin, e3, rest);
    lemma_finished_stays(run(begin, e3), rest);
}

/// A run depends on nothing but what is reported to it: two runs on one path
/// to which the same is reported, event by event, stand at the same place.
pub proof fn lemma_same_reports_same_run(path: Seq<char>, first: Seq<Event>, second: Seq<Event>)
    requires
        first.len() == second.len(),
        forall|i: int| 0 <= i < first.len() ==> same_report(#[trigger] first[i], second[i]),
    ensures
        run(initial(path), first) == run(initial(path), second),
    decreases first.len(),
{
    if first.len() > 0 {
        lemma_same_reports_same_run(path, first.drop_last(), second.drop_last());
        assert(same_report(first[first.len() - 1], second[first.len() - 1]));
    }
}

} // verus!
