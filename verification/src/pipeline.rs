//! One run from bytes to outcome: detect, decode, encode, classify.

use crate::decode::{decode, decode_spec, decoded};
use crate::format::Codec;
use crate::encode::{encode, encode_spec};
use crate::format::{
    detect_format, is_gif, is_jpeg, is_other_image, is_png, is_webp,
    lemma_signatures_are_disjoint, signature_format,
};
use crate::outcome::{
    bytes_result_view, conclude, conclude_spec, unrecognized_reason, CompressionOutcome, Failure,
    FailureView, OutcomeView, MAX_UPLOAD_SIZE,
};
use crate::request::{CompressionRequest, RequestView};
use vstd::prelude::*;

verus! {

/// What the stages make of a buffer. The format is told from the leading
/// bytes; a format without a strategy ends the run before anything is
/// decoded; the buffer is then decoded, whatever the strategy, so that a
/// broken stream fails as a decode; and the strategy of the format produces
/// the bytes.
pub open spec fn compressed_image_spec(bytes: Seq<u8>, request: RequestView) -> Result<
    Seq<u8>,
    FailureView,
> {
    match signature_format(bytes) {
        None => Err(FailureView::UnrecognizedFormat),
        Some(format) => match format.codec_spec() {
            None => Err(FailureView::UnsupportedFormat),
            Some(codec) => match decode_spec(bytes, codec) {
                Err(failure) => Err(failure),
                Ok(image) => encode_spec(bytes, image, codec, request),
            },
        },
    }
}

/// The outcome of a run on a buffer whose size was declared as
/// `input_size`.
pub open spec fn compress_spec(
    bytes: Seq<u8>,
    input_size: nat,
    request: RequestView,
) -> OutcomeView {
    conclude_spec(compressed_image_spec(bytes, request), input_size)
}

/// Runs the stages up to the produced bytes: detects the format, decodes,
/// and re-encodes with the format's strategy. Each stage runs once; the
/// first failure is returned. What is produced announces the format of the
/// input, and for a PNG it is the input itself or something shorter.
pub fn compressed_image(bytes: &[u8], request: CompressionRequest) -> (stream: Result<
    Vec<u8>,
    Failure,
>)
    ensures
        bytes_result_view(stream) == compressed_image_spec(bytes@, request@),
        is_png(bytes@) ==> (stream matches Ok(found) ==> found@ == bytes@ || found@.len()
            < bytes@.len()),
        stream matches Ok(found) ==> signature_format(found@) == signature_format(bytes@),
{
    let format = match detect_format(bytes) {
        Ok(format) => format,
        Err(failure) => {
            return Err(failure);
        },
    };
    let codec = match format.codec() {
        Some(codec) => codec,
        None => {
            return Err(Failure::UnsupportedFormat);
        },
    };
    let image = match decode(bytes, codec) {
        Ok(image) => image,
        Err(failure) => {
            return Err(failure);
        },
    };
    let stream = encode(bytes, &image, codec, request);
    proof {
        lemma_signatures_are_disjoint(bytes@);
        if stream is Ok {
            lemma_signatures_are_disjoint(stream->Ok_0@);
        }
    }
    stream
}

/// Compresses one image: the bytes, the size they were declared with, and
/// the settings go in; exactly one outcome comes out. Bytes are handed back
/// only with `Compressed`. For a PNG declared with its true size,
/// `NoImprovement` means that the optimizer handed the stream back as it
/// came. The bytes that come back announce the format of the input.
pub fn compress(bytes: &[u8], input_size: usize, request: CompressionRequest) -> (outcome:
    CompressionOutcome)
    ensures
        outcome@ == compress_spec(bytes@, input_size as nat, request@),
        is_png(bytes@) && input_size == bytes@.len() && outcome is NoImprovement
            ==> compressed_image_spec(bytes@, request@) == Ok::<Seq<u8>, FailureView>(bytes@),
        outcome matches CompressionOutcome::Compressed { bytes: carried, .. } ==> signature_format(
            carried@,
        ) == signature_format(bytes@),
{
    let stream = compressed_image(bytes, request);
    conclude(stream, input_size)
}

/// A GIF ends in `UnsupportedFormat`, whatever follows its signature,
/// whatever its declared size and whatever the request holds.
pub proof fn lemma_gif_is_unsupported(bytes: Seq<u8>, input_size: nat, request: RequestView)
    requires
        is_gif(bytes),
    ensures
        compress_spec(bytes, input_size, request) == OutcomeView::UnsupportedFormat,
{
    lemma_signatures_are_disjoint(bytes);
}

/// `UnsupportedFormat` is the end of exactly the buffers whose format is
/// recognised and has no strategy: GIF and the other known image formats.
pub proof fn lemma_unsupported_means_no_strategy(
    bytes: Seq<u8>,
    input_size: nat,
    request: RequestView,
)
    ensures
        compress_spec(bytes, input_size, request) == OutcomeView::UnsupportedFormat <==> is_gif(
            bytes,
        ) || is_other_image(bytes),
{
    lemma_signatures_are_disjoint(bytes);
}

/// A buffer that matches no known signature ends in `DecodeFailed`, with the
/// reason that the format is unrecognized.
pub proof fn lemma_unrecognized_is_decode_failure(
    bytes: Seq<u8>,
    input_size: nat,
    request: RequestView,
)
    requires
        signature_format(bytes) is None,
    ensures
        compress_spec(bytes, input_size, request) == (OutcomeView::DecodeFailed {
            reason: unrecognized_reason(),
        }),
{
}

/// A stream that announces a PNG and that the decoder rejects, as it does a
/// truncated one, ends in `DecodeFailed` with the decoder's reason: the
/// optimizer is never asked, and no bytes come back.
pub proof fn lemma_rejected_png_is_decode_failure(
    bytes: Seq<u8>,
    input_size: nat,
    request: RequestView,
)
    requires
        is_png(bytes),
        decoded(bytes, Codec::Png) is Err,
    ensures
        compress_spec(bytes, input_size, request) == (OutcomeView::DecodeFailed {
            reason: decoded(bytes, Codec::Png)->Err_0,
        }),
{
    lemma_signatures_are_disjoint(bytes);
}

/// Where the stages produce bytes that are not fewer than the input's, the
/// run ends in `NoImprovement`, never in `Compressed`.
pub proof fn lemma_no_gain_is_never_compressed(
    bytes: Seq<u8>,
    input_size: nat,
    request: RequestView,
)
    requires
        compressed_image_spec(bytes, request) matches Ok(stream) && stream.len() >= input_size,
    ensures
        compress_spec(bytes, input_size, request) == OutcomeView::NoImprovement,
{
}

/// Bytes come back only from stages that all succeeded: a `Compressed`
/// outcome carries exactly the bytes that the strategy produced, with their
/// length, and they are strictly fewer than the input's and strictly under
/// the ceiling. A run that failed hands out no bytes.
pub proof fn lemma_compressed_carries_the_result(
    bytes: Seq<u8>,
    input_size: nat,
    request: RequestView,
)
    ensures
        compress_spec(bytes, input_size, request) matches OutcomeView::Compressed {
            bytes: carried,
            size,
        } ==> {
            &&& compressed_image_spec(bytes, request) == Ok::<Seq<u8>, FailureView>(carried)
            &&& size == carried.len()
            &&& size < input_size
            &&& size < MAX_UPLOAD_SIZE
        },
        compressed_image_spec(bytes, request) is Err ==> !(compress_spec(
            bytes,
            input_size,
            request,
        ) is Compressed),
{
}

/// The quality is read by the lossy strategies only: two requests with the
/// same preset end a PNG in the same outcome.
pub proof fn lemma_png_ignores_quality(
    bytes: Seq<u8>,
    input_size: nat,
    first: RequestView,
    second: RequestView,
)
    requires
        is_png(bytes),
        first.preset == second.preset,
    ensures
        compress_spec(bytes, input_size, first) == compress_spec(bytes, input_size, second),
{
    lemma_signatures_are_disjoint(bytes);
}

/// The preset is read by the lossless strategy only: two requests with the
/// same quality end a JPEG or a WebP in the same outcome.
pub proof fn lemma_lossy_ignores_preset(
    bytes: Seq<u8>,
    input_size: nat,
    first: RequestView,
    second: RequestView,
)
    requires
        is_jpeg(bytes) || is_webp(bytes),
        first.quality == second.quality,
    ensures
        compress_spec(bytes, input_size, first) == compress_spec(bytes, input_size, second),
{
    lemma_signatures_are_disjoint(bytes);
}

} // verus!
