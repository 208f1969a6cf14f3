//! A run taken one stage at a time, so that whoever drives it can stop it
//! between two stages.

use crate::decode::{decode, decode_spec, DecodedImage, ImageView};
use crate::encode::{encode, encode_spec};
use crate::format::{detect_format, signature_format, Codec};
use crate::outcome::{
    classify, classify_spec, failure_outcome, CompressionOutcome, Failure, FailureView,
    OutcomeView,
};
use crate::pipeline::compress_spec;
use crate::request::{CompressionRequest, RequestView};
use vstd::prelude::*;

verus! {

/// What the driver says before a stage is run.
#[derive(Clone, Copy, Debug, PartialEq, Eq, Structural)]
pub enum Signal {
    /// Run the next stage.
    Proceed,
    /// Give the run up: the deadline has passed, or nobody waits for the
    /// result any more.
    Cancel,
}

/// Where a run stands. A run starts in `Detecting` and moves forward only;
/// `Done`, `Failed` and `Cancelled` are its ends.
#[derive(Debug, PartialEq, Eq)]
pub enum Stage {
    /// Nothing is known of the buffer yet.
    Detecting,
    /// The format is known and has a strategy.
    Decoding { codec: Codec },
    /// The buffer was decoded.
    Encoding { codec: Codec, image: DecodedImage },
    /// The strategy produced bytes.
    Classifying { stream: Vec<u8> },
    /// The produced bytes were classified.
    Done { outcome: CompressionOutcome },
    /// A stage failed.
    Failed { failure: Failure },
    /// The driver gave the run up before it ended.
    Cancelled,
}

/// A `Stage` over sequences.
pub enum StageView {
    Detecting,
    Decoding { codec: Codec },
    Encoding { codec: Codec, image: ImageView },
    Classifying { stream: Seq<u8> },
    Done { outcome: OutcomeView },
    Failed { failure: FailureView },
    Cancelled,
}

impl View for Stage {
    type V = StageView;

    open spec fn view(&self) -> StageView {
        match self {
            Stage::Detecting => StageView::Detecting,
            Stage::Decoding { codec } => StageView::Decoding { codec: *codec },
            Stage::Encoding { codec, image } => StageView::Encoding { codec: *codec, image: image@ },
            Stage::Classifying { stream } => StageView::Classifying { stream: stream@ },
            Stage::Done { outcome } => StageView::Done { outcome: outcome@ },
            Stage::Failed { failure } => StageView::Failed { failure: failure@ },
            Stage::Cancelled => StageView::Cancelled,
        }
    }
}

impl StageView {
    /// The run has ended: no stage is left to run.
    pub open spec fn finished(self) -> bool {
        self is Done || self is Failed || self is Cancelled
    }

    /// How far the run has come: the number of stages behind it, with every
    /// end counted as the last.
    pub open spec fn rank(self) -> nat {
        match self {
            StageView::Detecting => 0,
            StageView::Decoding { .. } => 1,
            StageView::Encoding { .. } => 2,
            StageView::Classifying { .. } => 3,
            StageView::Done { .. } => 4,
            StageView::Failed { .. } => 4,
            StageView::Cancelled => 4,
        }
    }

    /// The outcome of a run that ended by itself: the classified result, or
    /// the outcome that stands for the failure. A run that was cancelled, or
    /// has not ended, has none.
    pub open spec fn outcome(self) -> Option<OutcomeView> {
        match self {
            StageView::Done { outcome } => Some(outcome),
            StageView::Failed { failure } => Some(failure_outcome(failure)),
            _ => None,
        }
    }
}

/// The stage that follows `stage` on `signal`, for a run on `bytes`. An
/// ended run stays as it is. A run that has not ended is cancelled by
/// `Cancel`; on `Proceed` it runs its one stage and moves to the next, or
/// to `Failed` with the stage's failure.
pub open spec fn step_spec(
    stage: StageView,
    signal: Signal,
    bytes: Seq<u8>,
    input_size: nat,
    request: RequestView,
) -> StageView {
    if stage.finished() {
        stage
    } else if signal == Signal::Cancel {
        StageView::Cancelled
    } else {
        match stage {
            StageView::Detecting => match signature_format(bytes) {
                None => StageView::Failed { failure: FailureView::UnrecognizedFormat },
                Some(format) => match format.codec_spec() {
                    None => StageView::Failed { failure: FailureView::UnsupportedFormat },
                    Some(codec) => StageView::Decoding { codec },
                },
            },
            StageView::Decoding { codec } => match decode_spec(bytes, codec) {
                Err(failure) => StageView::Failed { failure },
                Ok(image) => StageView::Encoding { codec, image },
            },
            StageView::Encoding { codec, image } => match encode_spec(
                bytes,
                image,
                codec,
                request,
            ) {
                Err(failure) => StageView::Failed { failure },
                Ok(stream) => StageView::Classifying { stream },
            },
            StageView::Classifying { stream } => StageView::Done {
                outcome: classify_spec(stream, input_size),
            },
            _ => stage,
        }
    }
}

/// Where a run stands after `count` stages that were all let through.
pub open spec fn proceed_spec(
    stage: StageView,
    count: nat,
    bytes: Seq<u8>,
    input_size: nat,
    request: RequestView,
) -> StageView
    decreases count,
{
    if count == 0 {
        stage
    } else {
        step_spec(
            proceed_spec(stage, (count - 1) as nat, bytes, input_size, request),
            Signal::Proceed,
            bytes,
            input_size,
            request,
        )
    }
}

impl Stage {
    /// Whether the run has ended.
    pub fn is_finished(&self) -> (finished: bool)
        ensures
            finished == self@.finished(),
    {
        match self {
            Stage::Done { .. } | Stage::Failed { .. } | Stage::Cancelled => true,
            _ => false,
        }
    }

    /// Runs at most one stage: the one that `self` waits for, unless the run
    /// has ended or `signal` cancels it. The buffer, the declared size and
    /// the request are those of the run and stay the same from step to step.
    pub fn advance(
        self,
        signal: Signal,
        bytes: &[u8],
        input_size: usize,
        request: CompressionRequest,
    ) -> (next: Stage)
        ensures
            next@ == step_spec(self@, signal, bytes@, input_size as nat, request@),
    {
        match self {
            Stage::Done { outcome } => Stage::Done { outcome },
            Stage::Failed { failure } => Stage::Failed { failure },
            Stage::Cancelled => Stage::Cancelled,
            waiting => {
                match signal {
                    Signal::Cancel => {
                        return Stage::Cancelled;
                    },
                    Signal::Proceed => {},
                }
                match waiting {
                    Stage::Detecting => match detect_format(bytes) {
                        Err(failure) => Stage::Failed { failure },
                        Ok(format) => match format.codec() {
                            None => Stage::Failed { failure: Failure::UnsupportedFormat },
                            Some(codec) => Stage::Decoding { codec },
                        },
                    },
                    Stage::Decoding { codec } => match decode(bytes, codec) {
                        Err(failure) => Stage::Failed { failure },
                        Ok(image) => Stage::Encoding { codec, image },
                    },
                    Stage::Encoding { codec, image } => match encode(bytes, &image, codec, request) {
                        Err(failure) => Stage::Failed { failure },
                        Ok(stream) => Stage::Classifying { stream },
                    },
                    Stage::Classifying { stream } => Stage::Done {
                        outcome: classify(stream, input_size),
                    },
                    ended => ended,
                }
            },
        }
    }

    /// The outcome of a run that ended by itself; `None` for a run that was
    /// cancelled or has not ended.
    pub fn into_outcome(self) -> (outcome: Option<CompressionOutcome>)
        ensures
            match outcome {
                Some(found) => self@.outcome() == Some(found@),
                None => self@.outcome() is None,
            },
    {
        match self {
            Stage::Done { outcome } => Some(outcome),
            Stage::Failed { failure } => Some(CompressionOutcome::from_failure(failure)),
            _ => None,
        }
    }
}

/// An ended run stays where it is, whatever is signalled: `Done`, `Failed`
/// and `Cancelled` absorb every step.
pub proof fn lemma_ends_are_absorbing(
    stage: StageView,
    signal: Signal,
    bytes: Seq<u8>,
    input_size: nat,
    request: RequestView,
)
    requires
        stage.finished(),
    ensures
        step_spec(stage, signal, bytes, input_size, request) == stage,
{
}

/// A run that has not ended moves strictly forward with every step, so no
/// stage runs twice and the run ends within four steps.
pub proof fn lemma_every_step_moves_forward(
    stage: StageView,
    signal: Signal,
    bytes: Seq<u8>,
    input_size: nat,
    request: RequestView,
)
    requires
        !stage.finished(),
    ensures
        step_spec(stage, signal, bytes, input_size, request).rank() > stage.rank(),
        step_spec(stage, signal, bytes, input_size, request).rank() <= 4,
        signal == Signal::Cancel ==> step_spec(stage, signal, bytes, input_size, request)
            == StageView::Cancelled,
        signal == Signal::Proceed ==> !(step_spec(stage, signal, bytes, input_size, request)
            is Cancelled),
{
}

/// A run that is let through ends within four stages, and ends in the
/// outcome of `compress`.
pub proof fn lemma_four_steps_reach_the_outcome(
    bytes: Seq<u8>,
    input_size: nat,
    request: RequestView,
)
    ensures
        proceed_spec(StageView::Detecting, 4, bytes, input_size, request).finished(),
        proceed_spec(StageView::Detecting, 4, bytes, input_size, request).outcome() == Some(
            compress_spec(bytes, input_size, request),
        ),
{
    reveal_with_fuel(proceed_spec, 5);
}

} // verus!
