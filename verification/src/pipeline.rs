//! The decoding pipeline as a state machine.
//!
//! A pipeline turns one media file into mono 16-bit samples at a fixed rate.
//! The work on the file itself (demuxing, decoding, resampling) is done by
//! a media library that a driver calls. The pipeline decides what is done
//! next: it hands the driver an [`Action`], the driver performs it and
//! reports what happened as an [`Event`], and [`Pipeline::step`] answers with
//! the next action or with the result of the run.
//!
//! [`next`] is the whole transition table.

use vstd::prelude::*;

verus! {

/// The sample rate of the output, in samples per second.
pub const TARGET_RATE: u32 = 22050;

/// The number of channels of the output.
pub const TARGET_CHANNELS: u16 = 1;

/// Why a run of the pipeline produced no samples.
#[derive(Clone, Copy, Debug, PartialEq, Eq, Structural)]
pub enum PipelineError {
    /// The path does not lead to a readable media container.
    OpenError,
    /// The container holds no audio stream.
    NoAudioStream,
    /// No decoder could be set up for the audio stream.
    DecoderInitError,
    /// The resampler refused the conversion from the decoder's format.
    ResamplerInitError,
    /// The resampler refused a decoded frame.
    ResampleError,
    /// An operation of the media library ended abnormally.
    PanicIsolationError,
    /// The driver reported an event that the pipeline was not waiting for.
    UnexpectedEvent,
}

/// The operation whose outcome the pipeline is waiting for.
#[derive(Clone, Copy, Debug, PartialEq, Eq, Structural)]
pub enum Phase {
    /// The media library is being set up.
    Initializing,
    /// The container is being opened.
    Opening,
    /// The audio stream is being chosen.
    SelectingStream,
    /// The decoder of the chosen stream is being set up.
    OpeningDecoder,
    /// A decoder without a channel layout is being given the default one.
    NormalizingLayout,
    /// The resampler is being set up.
    OpeningResampler,
    /// The next packet is being read from the container.
    ReadingPacket,
    /// A packet of the chosen stream is being handed to the decoder.
    SendingPacket,
    /// The decoder is being asked for a frame.
    ReceivingFrame,
    /// A decoded frame is being resampled.
    Resampling,
}

/// What the resampler has to produce: signed 16-bit samples in the given
/// number of channels at the given rate.
#[derive(Clone, Copy, Debug, PartialEq, Eq, Structural)]
pub struct ResamplerTarget {
    /// Samples per second.
    pub rate: u32,
    /// Number of channels.
    pub channels: u16,
    /// Whether each channel has a plane of its own.
    pub planar: bool,
}

/// What the driver is asked to do next.
#[derive(Clone, Copy, Debug, PartialEq, Eq, Structural)]
pub enum Action {
    /// Set up the media library, once in the life of the process.
    Initialize,
    /// Open the container at the pipeline's path.
    OpenInput,
    /// Choose the best audio stream of the container.
    FindAudioStream,
    /// Set up a decoder from the parameters of the stream with this index.
    OpenDecoder { stream: usize },
    /// Give the decoder the default layout for this number of channels.
    SetDefaultLayout { channels: i32 },
    /// Set up a resampler from the decoder's format, layout and rate to the
    /// target.
    OpenResampler { target: ResamplerTarget },
    /// Read the next packet of the container.
    ReadPacket,
    /// Hand the packet that was read last to the decoder.
    SendPacket,
    /// Ask the decoder for a frame.
    ReceiveFrame,
    /// Resample the frame that was received last.
    Resample,
}

/// What the driver reports of the action it was asked for.
#[derive(Debug, PartialEq, Eq)]
pub enum Event {
    /// The action was done and has nothing more to tell.
    Completed,
    /// The action was not done: the media library reported an error, or had
    /// nothing to give.
    Failed,
    /// The action ended abnormally.
    Fault,
    /// The best audio stream has this index.
    AudioStream(usize),
    /// The decoder is set up and reports this channel layout, as a bit mask,
    /// and this number of channels.
    Decoder { layout: u64, channels: u16 },
    /// A packet was read that belongs to the stream with this index.
    Packet(usize),
    /// The container has no more packets.
    EndOfInput,
    /// The resampler produced this plane of samples.
    Samples(Vec<i16>),
}

/// A pipeline between two actions.
#[derive(Debug, PartialEq, Eq)]
pub struct Pipeline {
    phase: Phase,
    path: String,
    stream: usize,
    samples: Vec<i16>,
}

/// The state of a pipeline.
pub struct PipelineState {
    /// The operation that is under way.
    pub phase: Phase,
    /// The path of the file.
    pub path: Seq<char>,
    /// The index of the chosen audio stream, once it is chosen.
    pub stream: usize,
    /// The samples produced so far.
    pub samples: Seq<i16>,
}

/// What a pipeline answers to an event.
#[derive(Debug, PartialEq, Eq)]
pub enum Step {
    /// The run goes on: the pipeline, and what the driver is to do next.
    Continue(Pipeline, Action),
    /// The run is over.
    Finished(Result<Vec<i16>, PipelineError>),
}

/// What a pipeline answers to an event, as a mathematical value.
pub enum Outcome {
    /// The run goes on.
    Continue(PipelineState, Action),
    /// The run is over.
    Finished(Result<Seq<i16>, PipelineError>),
}

impl View for Pipeline {
    type V = PipelineState;

    closed spec fn view(&self) -> PipelineState {
        PipelineState {
            phase: self.phase,
            path: self.path@,
            stream: self.stream,
            samples: self.samples@,
        }
    }
}

impl View for Step {
    type V = Outcome;

    open spec fn view(&self) -> Outcome {
        match *self {
            Step::Continue(pipeline, action) => Outcome::Continue(pipeline@, action),
            Step::Finished(Ok(samples)) => Outcome::Finished(Ok(samples@)),
            Step::Finished(Err(error)) => Outcome::Finished(Err(error)),
        }
    }
}

/// The target of every run: mono, planar, at [`TARGET_RATE`].
pub open spec fn target() -> ResamplerTarget {
    ResamplerTarget { rate: TARGET_RATE, channels: TARGET_CHANNELS, planar: true }
}

/// The state in which a run on `path` begins: the driver has been asked to
/// set up the media library.
pub open spec fn initial(path: Seq<char>) -> Outcome {
    Outcome::Continue(
        PipelineState { phase: Phase::Initializing, path, stream: 0, samples: Seq::empty() },
        Action::Initialize,
    )
}

/// The run goes on in `phase` with `action`.
pub open spec fn proceed(state: PipelineState, phase: Phase, action: Action) -> Outcome {
    Outcome::Continue(PipelineState { phase, ..state }, action)
}

/// The transition table: what a pipeline in `state` answers to `event`.
pub open spec fn next(state: PipelineState, event: Event) -> Outcome {
    match (state.phase, event) {
        (_, Event::Fault) => Outcome::Finished(Err(PipelineError::PanicIsolationError)),
        (Phase::Initializing, Event::Completed) => proceed(
            state,
            Phase::Opening,
            Action::OpenInput,
        ),
        (Phase::Opening, Event::Completed) => proceed(
            state,
            Phase::SelectingStream,
            Action::FindAudioStream,
        ),
        (Phase::Opening, Event::Failed) => Outcome::Finished(Err(PipelineError::OpenError)),
        (Phase::SelectingStream, Event::AudioStream(stream)) => Outcome::Continue(
            PipelineState { phase: Phase::OpeningDecoder, stream, ..state },
            Action::OpenDecoder { stream },
        ),
        (Phase::SelectingStream, Event::Failed) => Outcome::Finished(
            Err(PipelineError::NoAudioStream),
        ),
        (Phase::OpeningDecoder, Event::Decoder { layout, channels }) => if layout == 0 {
            proceed(
                state,
                Phase::NormalizingLayout,
                Action::SetDefaultLayout { channels: channels as i32 },
            )
        } else {
            proceed(state, Phase::OpeningResampler, Action::OpenResampler { target: target() })
        },
        (Phase::OpeningDecoder, Event::Failed) => Outcome::Finished(
            Err(PipelineError::DecoderInitError),
        ),
        (Phase::NormalizingLayout, Event::Completed) => proceed(
            state,
            Phase::OpeningResampler,
            Action::OpenResampler { target: target() },
        ),
        (Phase::OpeningResampler, Event::Completed) => proceed(
            state,
            Phase::ReadingPacket,
            Action::ReadPacket,
        ),
        (Phase::OpeningResampler, Event::Failed) => Outcome::Finished(
            Err(PipelineError::ResamplerInitError),
        ),
        (Phase::ReadingPacket, Event::Packet(stream)) => if stream == state.stream {
            proceed(state, Phase::SendingPacket, Action::SendPacket)
        } else {
            proceed(state, Phase::ReadingPacket, Action::ReadPacket)
        },
        (Phase::ReadingPacket, Event::EndOfInput) => Outcome::Finished(Ok(state.samples)),
        (Phase::SendingPacket, Event::Completed) => proceed(
            state,
            Phase::ReceivingFrame,
            Action::ReceiveFrame,
        ),
        (Phase::SendingPacket, Event::Failed) => proceed(
            state,
            Phase::ReceivingFrame,
            Action::ReceiveFrame,
        ),
        (Phase::ReceivingFrame, Event::Completed) => proceed(
            state,
            Phase::Resampling,
            Action::Resample,
        ),
        (Phase::ReceivingFrame, Event::Failed) => proceed(
            state,
            Phase::ReadingPacket,
            Action::ReadPacket,
        ),
        (Phase::Resampling, Event::Samples(plane)) => Outcome::Continue(
            PipelineState {
                phase: Phase::ReadingPacket,
                samples: state.samples + plane@,
                ..state
            },
            Action::ReadPacket,
        ),
        (Phase::Resampling, Event::Failed) => Outcome::Finished(
            Err(PipelineError::ResampleError),
        ),
        _ => Outcome::Finished(Err(PipelineError::UnexpectedEvent)),
    }
}

impl PipelineError {
    /// What went wrong, in words.
    pub open spec fn message_spec(self) -> Seq<char> {
        match self {
            PipelineError::OpenError => "the file cannot be opened as a media container"@,
            PipelineError::NoAudioStream => "the file holds no audio stream"@,
            PipelineError::DecoderInitError => "no decoder can be set up for the audio stream"@,
            PipelineError::ResamplerInitError => "no resampler can be set up for the audio stream"@,
            PipelineError::ResampleError => "a decoded frame cannot be resampled"@,
            PipelineError::PanicIsolationError => "the media library broke down on the audio stream"@,
            PipelineError::UnexpectedEvent => "the driver reported an event out of turn"@,
        }
    }

    /// What went wrong, in words.
    pub fn message(self) -> (message: &'static str)
        ensures
            message@ == self.message_spec(),
    {
        match self {
            PipelineError::OpenError => "the file cannot be opened as a media container",
            PipelineError::NoAudioStream => "the file holds no audio stream",
            PipelineError::DecoderInitError => "no decoder can be set up for the audio stream",
            PipelineError::ResamplerInitError => "no resampler can be set up for the audio stream",
            PipelineError::ResampleError => "a decoded frame cannot be resampled",
            PipelineError::PanicIsolationError => "the media library broke down on the audio stream",
            PipelineError::UnexpectedEvent => "the driver reported an event out of turn",
        }
    }
}

impl Pipeline {
    /// The path of the file that the run works on.
    pub fn path(&self) -> (path: &str)
        ensures
            path@ == self@.path,
    {
        self.path.as_str()
    }

    /// The operation whose outcome the pipeline is waiting for.
    pub fn phase(&self) -> (phase: Phase)
        ensures
            phase == self@.phase,
    {
        self.phase
    }

    /// Begins a run on the file at `path`. The first thing asked of the
    /// driver is to set up the media library.
    pub fn start(path: String) -> (begin: (Pipeline, Action))
        ensures
            Outcome::Continue(begin.0@, begin.1) == initial(path@),
    {
        (
            Pipeline { phase: Phase::Initializing, path, stream: 0, samples: Vec::new() },
            Action::Initialize,
        )
    }

    /// Takes the outcome of the action that was asked for last, and answers
    /// with the next action or with the result of the run.
    pub fn step(self, event: Event) -> (step: Step)
        ensures
            step@ == next(self@, event),
    {
        let Pipeline { phase, path, stream, mut samples } = self;
        let (phase, action): (Phase, Action) = match (phase, event) {
            (_, Event::Fault) => {
                return Step::Finished(Err(PipelineError::PanicIsolationError));
            },
            (Phase::Initializing, Event::Completed) => (Phase::Opening, Action::OpenInput),
            (Phase::Opening, Event::Completed) => (
                Phase::SelectingStream,
                Action::FindAudioStream,
            ),
            (Phase::Opening, Event::Failed) => {
                return Step::Finished(Err(PipelineError::OpenError));
            },
            (Phase::SelectingStream, Event::AudioStream(chosen)) => {
                return Step::Continue(
                    Pipeline { phase: Phase::OpeningDecoder, path, stream: chosen, samples },
                    Action::OpenDecoder { stream: chosen },
                );
            },
            (Phase::SelectingStream, Event::Failed) => {
                return Step::Finished(Err(PipelineError::NoAudioStream));
            },
            (Phase::OpeningDecoder, Event::Decoder { layout, channels }) => {
                if layout == 0 {
                    (
                        Phase::NormalizingLayout,
                        Action::SetDefaultLayout { channels: channels as i32 },
                    )
                } else {
                    (Phase::OpeningResampler, Action::OpenResampler { target: resampler_target() })
                }
            },
            (Phase::OpeningDecoder, Event::Failed) => {
                return Step::Finished(Err(PipelineError::DecoderInitError));
            },
            (Phase::NormalizingLayout, Event::Completed) => (
                Phase::OpeningResampler,
                Action::OpenResampler { target: resampler_target() },
            ),
            (Phase::OpeningResampler, Event::Completed) => (
                Phase::ReadingPacket,
                Action::ReadPacket,
            ),
            (Phase::OpeningResampler, Event::Failed) => {
                return Step::Finished(Err(PipelineError::ResamplerInitError));
            },
            (Phase::ReadingPacket, Event::Packet(index)) => {
                if index == stream {
                    (Phase::SendingPacket, Action::SendPacket)
                } else {
                    (Phase::ReadingPacket, Action::ReadPacket)
                }
            },
            (Phase::ReadingPacket, Event::EndOfInput) => {
                return Step::Finished(Ok(samples));
            },
            (Phase::SendingPacket, Event::Completed) => (
                Phase::ReceivingFrame,
                Action::ReceiveFrame,
            ),
            (Phase::SendingPacket, Event::Failed) => (
                Phase::ReceivingFrame,
                Action::ReceiveFrame,
            ),
            (Phase::ReceivingFrame, Event::Completed) => (Phase::Resampling, Action::Resample),
            (Phase::ReceivingFrame, Event::Failed) => (Phase::ReadingPacket, Action::ReadPacket),
            (Phase::Resampling, Event::Samples(mut plane)) => {
                samples.append(&mut plane);
                (Phase::ReadingPacket, Action::ReadPacket)
            },
            (Phase::Resampling, Event::Failed) => {
                return Step::Finished(Err(PipelineError::ResampleError));
            },
            _ => {
                return Step::Finished(Err(PipelineError::UnexpectedEvent));
            },
        };
        Step::Continue(Pipeline { phase, path, stream, samples }, action)
    }
}

/// The target of every run.
pub fn resampler_target() -> (t: ResamplerTarget)
    ensures
        t == target(),
{
    ResamplerTarget { rate: TARGET_RATE, channels: TARGET_CHANNELS, planar: true }
}

} // verus!
