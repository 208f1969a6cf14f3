//! What one compression run ends in: the failures of its stages, and the
//! verdict on a result that was produced.

use vstd::prelude::*;

verus! {

/// The largest attachment the hosting platform takes, in bytes (8 MiB).
/// A result has to stay strictly below it.
pub const MAX_UPLOAD_SIZE: usize = 8_388_608;

/// Why a stage of the pipeline gave up. A failure ends the run: the same
/// input would fail the same way again.
#[derive(Clone, Debug, PartialEq, Eq)]
pub enum Failure {
    /// The leading bytes match no known signature.
    UnrecognizedFormat,
    /// The signature was known, but the stream could not be parsed.
    DecodeFailed { reason: String },
    /// The codec refused the pixels or failed while compressing.
    EncodeFailed { reason: String },
    /// The format is recognised and has no strategy.
    UnsupportedFormat,
}

/// A `Failure` with its reasons as sequences of characters.
pub enum FailureView {
    UnrecognizedFormat,
    DecodeFailed { reason: Seq<char> },
    EncodeFailed { reason: Seq<char> },
    UnsupportedFormat,
}

impl View for Failure {
    type V = FailureView;

    open spec fn view(&self) -> FailureView {
        match self {
            Failure::UnrecognizedFormat => FailureView::UnrecognizedFormat,
            Failure::DecodeFailed { reason } => FailureView::DecodeFailed { reason: reason@ },
            Failure::EncodeFailed { reason } => FailureView::EncodeFailed { reason: reason@ },
            Failure::UnsupportedFormat => FailureView::UnsupportedFormat,
        }
    }
}

/// A stage's result that carries bytes, taken by its views.
pub open spec fn bytes_result_view(result: Result<Vec<u8>, Failure>) -> Result<
    Seq<u8>,
    FailureView,
> {
    match result {
        Ok(bytes) => Ok(bytes@),
        Err(failure) => Err(failure@),
    }
}

/// The single result of one run.
#[derive(Clone, Debug, PartialEq, Eq)]
pub enum CompressionOutcome {
    /// The result is strictly smaller than the input and strictly under the
    /// ceiling; `size` is the length of `bytes`.
    Compressed { bytes: Vec<u8>, size: usize },
    /// The result is not smaller than the input, and is not handed out.
    NoImprovement,
    /// The result is smaller than the input, but not under the ceiling.
    StillTooLarge,
    UnsupportedFormat,
    DecodeFailed { reason: String },
    EncodeFailed { reason: String },
}

/// A `CompressionOutcome` over sequences.
pub enum OutcomeView {
    Compressed { bytes: Seq<u8>, size: nat },
    NoImprovement,
    StillTooLarge,
    UnsupportedFormat,
    DecodeFailed { reason: Seq<char> },
    EncodeFailed { reason: Seq<char> },
}

impl View for CompressionOutcome {
    type V = OutcomeView;

    open spec fn view(&self) -> OutcomeView {
        match self {
            CompressionOutcome::Compressed { bytes, size } => OutcomeView::Compressed {
                bytes: bytes@,
                size: *size as nat,
            },
            CompressionOutcome::NoImprovement => OutcomeView::NoImprovement,
            CompressionOutcome::StillTooLarge => OutcomeView::StillTooLarge,
            CompressionOutcome::UnsupportedFormat => OutcomeView::UnsupportedFormat,
            CompressionOutcome::DecodeFailed { reason } => OutcomeView::DecodeFailed {
                reason: reason@,
            },
            CompressionOutcome::EncodeFailed { reason } => OutcomeView::EncodeFailed {
                reason: reason@,
            },
        }
    }
}

/// The reason given where no signature matched.
pub open spec fn unrecognized_reason() -> Seq<char> {
    "format unrecognized"@
}

/// The verdict on `output`, produced from an input of `input_size` bytes.
/// The checks come in a fixed order: first whether the result is both under
/// the ceiling and smaller than the input, then whether it failed to shrink,
/// and only then whether it is too large. A result can be smaller than the
/// input and still over the ceiling; the order keeps the two apart.
pub open spec fn classify_spec(output: Seq<u8>, input_size: nat) -> OutcomeView {
    if output.len() < MAX_UPLOAD_SIZE && output.len() < input_size {
        OutcomeView::Compressed { bytes: output, size: output.len() }
    } else if output.len() >= input_size {
        OutcomeView::NoImprovement
    } else {
        OutcomeView::StillTooLarge
    }
}

/// The outcome that stands for a failure. An unrecognised format counts as
/// a failed decode.
pub open spec fn failure_outcome(failure: FailureView) -> OutcomeView {
    match failure {
        FailureView::UnrecognizedFormat => OutcomeView::DecodeFailed {
            reason: unrecognized_reason(),
        },
        FailureView::DecodeFailed { reason } => OutcomeView::DecodeFailed { reason },
        FailureView::EncodeFailed { reason } => OutcomeView::EncodeFailed { reason },
        FailureView::UnsupportedFormat => OutcomeView::UnsupportedFormat,
    }
}

/// The outcome of a run whose stages ended in `result`.
pub open spec fn conclude_spec(
    result: Result<Seq<u8>, FailureView>,
    input_size: nat,
) -> OutcomeView {
    match result {
        Ok(output) => classify_spec(output, input_size),
        Err(failure) => failure_outcome(failure),
    }
}

/// Classifies produced bytes against the input's size and the ceiling.
pub fn classify(output: Vec<u8>, input_size: usize) -> (outcome: CompressionOutcome)
    ensures
        outcome@ == classify_spec(output@, input_size as nat),
{
    let size: usize = output.len();
    if size < MAX_UPLOAD_SIZE && size < input_size {
        CompressionOutcome::Compressed { bytes: output, size }
    } else if size >= input_size {
        CompressionOutcome::NoImprovement
    } else {
        CompressionOutcome::StillTooLarge
    }
}

impl CompressionOutcome {
    /// The outcome that stands for a failure.
    pub fn from_failure(failure: Failure) -> (outcome: CompressionOutcome)
        ensures
            outcome@ == failure_outcome(failure@),
    {
        match failure {
            Failure::UnrecognizedFormat => CompressionOutcome::DecodeFailed {
                reason: String::from_str("format unrecognized"),
            },
            Failure::DecodeFailed { reason } => CompressionOutcome::DecodeFailed { reason },
            Failure::EncodeFailed { reason } => CompressionOutcome::EncodeFailed { reason },
            Failure::UnsupportedFormat => CompressionOutcome::UnsupportedFormat,
        }
    }
}

/// Reduces what the stages ended in to the run's outcome: produced bytes are
/// classified, a failure is passed on.
pub fn conclude(result: Result<Vec<u8>, Failure>, input_size: usize) -> (outcome:
    CompressionOutcome)
    ensures
        outcome@ == conclude_spec(bytes_result_view(result), input_size as nat),
{
    match result {
        Ok(output) => classify(output, input_size),
        Err(failure) => CompressionOutcome::from_failure(failure),
    }
}

/// A result that is not smaller than its input is never handed out: it is
/// `NoImprovement`, whatever its size against the ceiling.
pub proof fn lemma_no_gain_is_no_improvement(output: Seq<u8>, input_size: nat)
    requires
        output.len() >= input_size,
    ensures
        classify_spec(output, input_size) == OutcomeView::NoImprovement,
{
}

/// At the ceiling's edge: one byte under it a result that is smaller than
/// its input is `Compressed` and carries its bytes; at the ceiling exactly it
/// is `StillTooLarge`.
pub proof fn lemma_ceiling_is_exclusive(output: Seq<u8>, input_size: nat)
    requires
        output.len() < input_size,
    ensures
        output.len() == MAX_UPLOAD_SIZE - 1 ==> classify_spec(output, input_size)
            == (OutcomeView::Compressed { bytes: output, size: output.len() }),
        output.len() == MAX_UPLOAD_SIZE ==> classify_spec(output, input_size)
            == OutcomeView::StillTooLarge,
{
}

/// The three verdicts split the cases exactly: `Compressed` when the result
/// is under both bounds, `NoImprovement` when it is not under the input's
/// size, `StillTooLarge` in what is left.
pub proof fn lemma_verdicts_partition(output: Seq<u8>, input_size: nat)
    ensures
        classify_spec(output, input_size) is Compressed <==> output.len() < MAX_UPLOAD_SIZE
            && output.len() < input_size,
        classify_spec(output, input_size) is NoImprovement <==> output.len() >= input_size,
        classify_spec(output, input_size) is StillTooLarge <==> MAX_UPLOAD_SIZE <= output.len()
            < input_size,
{
}

} // verus!
