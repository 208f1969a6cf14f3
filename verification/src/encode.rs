//! The three strategies and the dispatcher that picks one by format.

use crate::chunks::{chunks_are_sound, png_chunks_sound};
use crate::decode::{ColorModel, DecodedImage, ImageView};
use crate::format::{is_jpeg, is_png, is_webp, Codec};
use crate::outcome::{bytes_result_view, Failure, FailureView};
use crate::request::{CompressionRequest, RequestView};
use vstd::prelude::*;

verus! {

/// The longest side, in pixels, that the JPEG compressor takes.
pub const JPEG_MAX_DIMENSION: u32 = 65500;

/// The longest side, in pixels, that a WebP image can have.
pub const WEBP_MAX_DIMENSION: u32 = 16383;

/// What `oxipng::optimize_from_memory` returns for a buffer, under the
/// options of an effort preset or, for `None`, under the default options:
/// the optimized stream, or the text of the optimizer's error.
pub uninterp spec fn optimized_png(bytes: Seq<u8>, preset: Option<u8>) -> Result<
    Seq<u8>,
    Seq<char>,
>;

/// Calls `oxipng::optimize_from_memory` with `Options::default()`. Trusted:
/// the optimizer works on the buffer and the options alone, under no
/// deadline, so the result is `optimized_png` of them; what it returns opens
/// with the PNG signature; and since the default options do not force a
/// rewrite, a stream that did not get smaller is handed back as it came. The
/// optimizer slices the first four data bytes off every `fcTL` and `fdAT`
/// chunk without a test, takes the dimensions, the depth and the color type
/// of the last `IHDR` chunk and the dimensions of every frame as they stand,
/// and allocates what they ask for: `requires` leaves out the streams on
/// which that fails. Checksums and everything else it tests itself.
#[verifier::external_body]
fn optimize_with_defaults(bytes: &[u8]) -> (optimized: Result<Vec<u8>, String>)
    requires
        png_chunks_sound(bytes@),
    ensures
        match optimized {
            Ok(stream) => optimized_png(bytes@, None) == Ok::<Seq<u8>, Seq<char>>(stream@),
            Err(text) => optimized_png(bytes@, None) == Err::<Seq<u8>, Seq<char>>(text@),
        },
        optimized matches Ok(stream) ==> stream@ == bytes@ || stream@.len() < bytes@.len(),
        optimized matches Ok(stream) ==> is_png(stream@),
{
    match oxipng::optimize_from_memory(bytes, &oxipng::Options::default()) {
        Ok(stream) => Ok(stream),
        Err(error) => Err(error.to_string()),
    }
}

/// Calls `oxipng::optimize_from_memory` with `Options::from_preset(level)`.
/// Trusted as `optimize_with_defaults` is: the result is `optimized_png` of
/// the buffer and the level, it opens with the PNG signature, and a stream
/// that did not get smaller is handed back as it came, since no preset
/// forces a rewrite. `requires` leaves out the same streams.
#[verifier::external_body]
fn optimize_with_preset(bytes: &[u8], level: u8) -> (optimized: Result<Vec<u8>, String>)
    requires
        png_chunks_sound(bytes@),
    ensures
        match optimized {
            Ok(stream) => optimized_png(bytes@, Some(level)) == Ok::<Seq<u8>, Seq<char>>(stream@),
            Err(text) => optimized_png(bytes@, Some(level)) == Err::<Seq<u8>, Seq<char>>(text@),
        },
        optimized matches Ok(stream) ==> stream@ == bytes@ || stream@.len() < bytes@.len(),
        optimized matches Ok(stream) ==> is_png(stream@),
{
    match oxipng::optimize_from_memory(bytes, &oxipng::Options::from_preset(level)) {
        Ok(stream) => Ok(stream),
        Err(error) => Err(error.to_string()),
    }
}

/// The reason given for a stream that the optimizer cannot be handed.
pub open spec fn unsound_chunks_reason() -> Seq<char> {
    "PNG stream holds a chunk that the optimizer cannot read"@
}

/// The result of the lossless strategy where the optimizer returned
/// `optimized`.
pub open spec fn png_result(optimized: Result<Seq<u8>, Seq<char>>) -> Result<
    Seq<u8>,
    FailureView,
> {
    match optimized {
        Ok(stream) => Ok(stream),
        Err(text) => Err(FailureView::EncodeFailed { reason: text }),
    }
}

/// The lossless strategy on an encoded PNG stream: a stream whose chunks
/// are not sound is refused, every other stream goes to the optimizer.
pub open spec fn optimize_png_spec(bytes: Seq<u8>, preset: Option<u8>) -> Result<
    Seq<u8>,
    FailureView,
> {
    if png_chunks_sound(bytes) {
        png_result(optimized_png(bytes, preset))
    } else {
        Err(FailureView::EncodeFailed { reason: unsound_chunks_reason() })
    }
}

/// Settles the lossless strategy on what the optimizer returned: its stream
/// is the result, its error becomes `EncodeFailed` with the optimizer's text.
pub fn settle_png(optimized: Result<Vec<u8>, String>) -> (stream: Result<Vec<u8>, Failure>)
    ensures
        bytes_result_view(stream) == png_result(
            match optimized {
                Ok(bytes) => Ok(bytes@),
                Err(text) => Err(text@),
            },
        ),
{
    match optimized {
        Ok(bytes) => Ok(bytes),
        Err(text) => Err(Failure::EncodeFailed { reason: text }),
    }
}

/// Re-encodes a PNG stream without touching a pixel value, searching for a
/// smaller representation with the effort of `preset`, or with the
/// optimizer's default effort where there is none. Fails with `EncodeFailed`
/// on a stream whose chunks are not sound (a frame chunk too short for its
/// sequence number, a header or a frame of unsound dimensions, a depth that
/// does not suit the color type), before the optimizer is asked, and where
/// the optimizer reports an error. The result opens with the PNG signature
/// and is never longer than the stream: where nothing smaller is found, it
/// is the stream itself.
pub fn optimize_png(bytes: &[u8], preset: Option<u8>) -> (stream: Result<Vec<u8>, Failure>)
    ensures
        bytes_result_view(stream) == optimize_png_spec(bytes@, preset),
        stream matches Ok(found) ==> found@ == bytes@ || found@.len() < bytes@.len(),
        stream matches Ok(found) ==> is_png(found@),
{
    if !chunks_are_sound(bytes) {
        return Err(
            Failure::EncodeFailed {
                reason: String::from_str("PNG stream holds a chunk that the optimizer cannot read"),
            },
        );
    }
    match preset {
        Some(level) => settle_png(optimize_with_preset(bytes, level)),
        None => settle_png(optimize_with_defaults(bytes)),
    }
}

/// The step of the JPEG compressor that reported an error.
#[derive(Clone, Copy, Debug, PartialEq, Eq, Structural)]
pub enum JpegStage {
    Start,
    Write,
    Finish,
}

/// What the mozjpeg compressor writes for RGB pixels of these dimensions at
/// this quality, or the step that failed with the text of its error.
pub uninterp spec fn jpeg_encoded(pixels: Seq<u8>, width: u32, height: u32, quality: u8) -> Result<
    Seq<u8>,
    (JpegStage, Seq<char>),
>;

/// Runs one mozjpeg compression: `Compress::new` for RGB input, `set_size`,
/// `set_quality`, `start_compress` into an empty vector, `write_scanlines`
/// with all rows at once, `finish`. Trusted: the compressor works on the
/// pixels, the dimensions and the quality alone, so the result is
/// `jpeg_encoded` of them; and what it writes opens with the start-of-image
/// marker, with another marker behind it, and closes with the end-of-image
/// marker. The compressor aborts on an empty image, on a
/// side over 65500 pixels and on fewer rows than the height: `requires`
/// leaves those out.
#[verifier::external_body]
fn compress_rgb(pixels: &[u8], width: u32, height: u32, quality: u8) -> (encoded: Result<
    Vec<u8>,
    (JpegStage, String),
>)
    requires
        1 <= width <= JPEG_MAX_DIMENSION,
        1 <= height <= JPEG_MAX_DIMENSION,
        pixels@.len() == width * height * 3,
    ensures
        match encoded {
            Ok(stream) => jpeg_encoded(pixels@, width, height, quality) == Ok::<
                Seq<u8>,
                (JpegStage, Seq<char>),
            >(stream@),
            Err(error) => jpeg_encoded(pixels@, width, height, quality) == Err::<
                Seq<u8>,
                (JpegStage, Seq<char>),
            >((error.0, error.1@)),
        },
        encoded matches Ok(stream) ==> is_jpeg(stream@) && ends_the_image(stream@),
{
    let mut settings = mozjpeg::Compress::new(mozjpeg::ColorSpace::JCS_RGB);
    settings.set_size(width as usize, height as usize);
    settings.set_quality(quality.into());
    let mut writer = match settings.start_compress(Vec::new()) {
        Ok(writer) => writer,
        Err(error) => return Err((JpegStage::Start, error.to_string())),
    };
    if let Err(error) = writer.write_scanlines(pixels) {
        return Err((JpegStage::Write, error.to_string()));
    }
    match writer.finish() {
        Ok(stream) => Ok(stream),
        Err(error) => Err((JpegStage::Finish, error.to_string())),
    }
}

/// The stream closes with the end-of-image marker of a JPEG.
pub open spec fn ends_the_image(bytes: Seq<u8>) -> bool {
    bytes.len() >= 2 && bytes[bytes.len() - 2] == 0xff && bytes[bytes.len() - 1] == 0xd9
}

/// What is said before the error of a step of the JPEG compressor.
pub open spec fn jpeg_stage_prefix(stage: JpegStage) -> Seq<char> {
    match stage {
        JpegStage::Start => "Data did not start compressing: "@,
        JpegStage::Write => "Scanlines were not written: "@,
        JpegStage::Finish => "Data did not finish compressing: "@,
    }
}

/// The reason given for pixels that are not 8-bit RGB.
pub open spec fn jpeg_color_reason() -> Seq<char> {
    "JPEG needs 8-bit RGB pixels"@
}

/// The reason given for an image too large for the JPEG compressor.
pub open spec fn jpeg_size_reason() -> Seq<char> {
    "image is larger than 65500 pixels on a side"@
}

/// The result of the JPEG strategy where the compressor returned `encoded`.
pub open spec fn jpeg_result(encoded: Result<Seq<u8>, (JpegStage, Seq<char>)>) -> Result<
    Seq<u8>,
    FailureView,
> {
    match encoded {
        Ok(stream) => Ok(stream),
        Err(error) => Err(
            FailureView::EncodeFailed { reason: jpeg_stage_prefix(error.0) + error.1 },
        ),
    }
}

/// The JPEG strategy on a decoded image: only 8-bit RGB pixels of at most
/// 65500 pixels on a side reach the compressor.
pub open spec fn encode_jpeg_spec(image: ImageView, quality: u8) -> Result<Seq<u8>, FailureView> {
    if image.color != ColorModel::Rgb8 {
        Err(FailureView::EncodeFailed { reason: jpeg_color_reason() })
    } else if image.width > JPEG_MAX_DIMENSION || image.height > JPEG_MAX_DIMENSION {
        Err(FailureView::EncodeFailed { reason: jpeg_size_reason() })
    } else {
        jpeg_result(jpeg_encoded(image.pixels, image.width as u32, image.height as u32, quality))
    }
}

/// Settles the JPEG strategy on what the compressor returned: its stream is
/// the result, its error becomes `EncodeFailed`, the failed step named
/// before the compressor's text.
pub fn settle_jpeg(encoded: Result<Vec<u8>, (JpegStage, String)>) -> (stream: Result<
    Vec<u8>,
    Failure,
>)
    ensures
        bytes_result_view(stream) == jpeg_result(
            match encoded {
                Ok(bytes) => Ok(bytes@),
                Err(error) => Err((error.0, error.1@)),
            },
        ),
        stream matches Ok(found) ==> encoded == Ok::<Vec<u8>, (JpegStage, String)>(found),
{
    match encoded {
        Ok(bytes) => Ok(bytes),
        Err(error) => {
            let (stage, text) = error;
            let prefix = match stage {
                JpegStage::Start => "Data did not start compressing: ",
                JpegStage::Write => "Scanlines were not written: ",
                JpegStage::Finish => "Data did not finish compressing: ",
            };
            Err(Failure::EncodeFailed { reason: String::from_str(prefix).concat(text.as_str()) })
        },
    }
}

/// Re-encodes decoded pixels as a JPEG at `quality`. Fails with
/// `EncodeFailed` where the pixels are not 8-bit RGB, where a side is over
/// 65500 pixels, and where the compressor reports an error. What is produced
/// opens as a JPEG does and closes with the end-of-image marker.
pub fn encode_jpeg(image: &DecodedImage, quality: u8) -> (stream: Result<Vec<u8>, Failure>)
    ensures
        bytes_result_view(stream) == encode_jpeg_spec(image@, quality),
        stream matches Ok(found) ==> is_jpeg(found@) && ends_the_image(found@),
{
    match image.color() {
        ColorModel::Rgb8 => {},
        _ => {
            return Err(
                Failure::EncodeFailed { reason: String::from_str("JPEG needs 8-bit RGB pixels") },
            );
        },
    }
    let width = image.width();
    let height = image.height();
    if width > JPEG_MAX_DIMENSION || height > JPEG_MAX_DIMENSION {
        return Err(
            Failure::EncodeFailed {
                reason: String::from_str("image is larger than 65500 pixels on a side"),
            },
        );
    }
    let pixels = image.pixels();
    settle_jpeg(compress_rgb(pixels.as_slice(), width, height, quality))
}

/// What libwebp writes for RGB pixels of these dimensions, lossy at this
/// quality, or the name of its error.
pub uninterp spec fn webp_rgb_encoded(pixels: Seq<u8>, width: u32, height: u32, quality: u8) -> Result<
    Seq<u8>,
    Seq<char>,
>;

/// What libwebp writes for RGBA pixels of these dimensions, lossy at this
/// quality, or the name of its error.
pub uninterp spec fn webp_rgba_encoded(
    pixels: Seq<u8>,
    width: u32,
    height: u32,
    quality: u8,
) -> Result<Seq<u8>, Seq<char>>;

/// Calls `webp::Encoder::from_rgb` and, on the encoder, `encode_simple`
/// for a lossy encoding at `quality`. Trusted: the encoder works on the
/// pixels, the dimensions and the quality alone, so the result is
/// `webp_rgb_encoded` of them; and what it writes opens with the RIFF header
/// of a WebP file. `from_rgb` panics on a buffer shorter than
/// width × height × 3: `requires` leaves that out, and keeps the sides within
/// what a WebP image can have.
#[verifier::external_body]
fn encode_rgb(pixels: &[u8], width: u32, height: u32, quality: u8) -> (encoded: Result<
    Vec<u8>,
    String,
>)
    requires
        1 <= width <= WEBP_MAX_DIMENSION,
        1 <= height <= WEBP_MAX_DIMENSION,
        pixels@.len() == width * height * 3,
    ensures
        match encoded {
            Ok(stream) => webp_rgb_encoded(pixels@, width, height, quality) == Ok::<
                Seq<u8>,
                Seq<char>,
            >(stream@),
            Err(text) => webp_rgb_encoded(pixels@, width, height, quality) == Err::<
                Seq<u8>,
                Seq<char>,
            >(text@),
        },
        encoded matches Ok(stream) ==> is_webp(stream@),
{
    match webp::Encoder::from_rgb(pixels, width, height).encode_simple(false, quality.into()) {
        Ok(memory) => Ok(memory.to_vec()),
        Err(error) => Err(format!("{:?}", error)),
    }
}

/// Calls `webp::Encoder::from_rgba` and, on the encoder, `encode_simple`
/// for a lossy encoding at `quality`. Trusted as `encode_rgb` is, with four
/// bytes to the pixel: the result is `webp_rgba_encoded` of the arguments,
/// and opens with the RIFF header of a WebP file.
#[verifier::external_body]
fn encode_rgba(pixels: &[u8], width: u32, height: u32, quality: u8) -> (encoded: Result<
    Vec<u8>,
    String,
>)
    requires
        1 <= width <= WEBP_MAX_DIMENSION,
        1 <= height <= WEBP_MAX_DIMENSION,
        pixels@.len() == width * height * 4,
    ensures
        match encoded {
            Ok(stream) => webp_rgba_encoded(pixels@, width, height, quality) == Ok::<
                Seq<u8>,
                Seq<char>,
            >(stream@),
            Err(text) => webp_rgba_encoded(pixels@, width, height, quality) == Err::<
                Seq<u8>,
                Seq<char>,
            >(text@),
        },
        encoded matches Ok(stream) ==> is_webp(stream@),
{
    match webp::Encoder::from_rgba(pixels, width, height).encode_simple(false, quality.into()) {
        Ok(memory) => Ok(memory.to_vec()),
        Err(error) => Err(format!("{:?}", error)),
    }
}

/// The reason given for pixels that are neither 8-bit RGB nor 8-bit RGBA.
pub open spec fn webp_color_reason() -> Seq<char> {
    "Unimplemented"@
}

/// The reason given for an image too large to be a WebP image.
pub open spec fn webp_size_reason() -> Seq<char> {
    "image is larger than 16383 pixels on a side"@
}

/// The result of the WebP strategy where the encoder returned `encoded`.
pub open spec fn webp_result(encoded: Result<Seq<u8>, Seq<char>>) -> Result<
    Seq<u8>,
    FailureView,
> {
    match encoded {
        Ok(stream) => Ok(stream),
        Err(text) => Err(FailureView::EncodeFailed { reason: text }),
    }
}

/// The WebP strategy on a decoded image: 8-bit RGB and 8-bit RGBA pixels of
/// at most 16383 pixels on a side reach the encoder, each in its own layout.
pub open spec fn encode_webp_spec(image: ImageView, quality: u8) -> Result<Seq<u8>, FailureView> {
    if image.color != ColorModel::Rgb8 && image.color != ColorModel::Rgba8 {
        Err(FailureView::EncodeFailed { reason: webp_color_reason() })
    } else if image.width > WEBP_MAX_DIMENSION || image.height > WEBP_MAX_DIMENSION {
        Err(FailureView::EncodeFailed { reason: webp_size_reason() })
    } else if image.color == ColorModel::Rgb8 {
        webp_result(
            webp_rgb_encoded(image.pixels, image.width as u32, image.height as u32, quality),
        )
    } else {
        webp_result(
            webp_rgba_encoded(image.pixels, image.width as u32, image.height as u32, quality),
        )
    }
}

/// Settles the WebP strategy on what the encoder returned: its stream is the
/// result, its error becomes `EncodeFailed` with the error's name.
pub fn settle_webp(encoded: Result<Vec<u8>, String>) -> (stream: Result<Vec<u8>, Failure>)
    ensures
        bytes_result_view(stream) == webp_result(
            match encoded {
                Ok(bytes) => Ok(bytes@),
                Err(text) => Err(text@),
            },
        ),
        stream matches Ok(found) ==> encoded == Ok::<Vec<u8>, String>(found),
{
    match encoded {
        Ok(bytes) => Ok(bytes),
        Err(text) => Err(Failure::EncodeFailed { reason: text }),
    }
}

/// Re-encodes decoded pixels as a lossy WebP at `quality`. Fails with
/// `EncodeFailed` where the pixels are neither 8-bit RGB nor 8-bit RGBA,
/// where a side is over 16383 pixels, and where the encoder reports an
/// error. What is produced opens as a WebP file does.
pub fn encode_webp(image: &DecodedImage, quality: u8) -> (stream: Result<Vec<u8>, Failure>)
    ensures
        bytes_result_view(stream) == encode_webp_spec(image@, quality),
        stream matches Ok(found) ==> is_webp(found@),
{
    let color = image.color();
    let alpha = match color {
        ColorModel::Rgb8 => false,
        ColorModel::Rgba8 => true,
        _ => {
            return Err(Failure::EncodeFailed { reason: String::from_str("Unimplemented") });
        },
    };
    let width = image.width();
    let height = image.height();
    if width > WEBP_MAX_DIMENSION || height > WEBP_MAX_DIMENSION {
        return Err(
            Failure::EncodeFailed {
                reason: String::from_str("image is larger than 16383 pixels on a side"),
            },
        );
    }
    let pixels = image.pixels();
    if alpha {
        settle_webp(encode_rgba(pixels.as_slice(), width, height, quality))
    } else {
        settle_webp(encode_rgb(pixels.as_slice(), width, height, quality))
    }
}

/// The strategy of `codec` on an input: the lossless strategy reads the
/// encoded bytes and the preset, the lossy ones the decoded image and the
/// quality.
pub open spec fn encode_spec(
    bytes: Seq<u8>,
    image: ImageView,
    codec: Codec,
    request: RequestView,
) -> Result<Seq<u8>, FailureView> {
    match codec {
        Codec::Png => optimize_png_spec(bytes, request.preset),
        Codec::Jpeg => encode_jpeg_spec(image, request.quality),
        Codec::WebP => encode_webp_spec(image, request.quality),
    }
}

/// A stream opens with the signature of the format that `codec` stands for.
pub open spec fn announces(codec: Codec, bytes: Seq<u8>) -> bool {
    match codec {
        Codec::Png => is_png(bytes),
        Codec::Jpeg => is_jpeg(bytes),
        Codec::WebP => is_webp(bytes),
    }
}

/// Runs the one strategy that belongs to `codec`. What it produces opens
/// with the signature of the codec's format.
pub fn encode(bytes: &[u8], image: &DecodedImage, codec: Codec, request: CompressionRequest) -> (stream:
    Result<Vec<u8>, Failure>)
    ensures
        bytes_result_view(stream) == encode_spec(bytes@, image@, codec, request@),
        codec == Codec::Png ==> (stream matches Ok(found) ==> found@ == bytes@ || found@.len()
            < bytes@.len()),
        stream matches Ok(found) ==> announces(codec, found@),
{
    match codec {
        Codec::Png => optimize_png(bytes, request.preset()),
        Codec::Jpeg => encode_jpeg(image, request.quality()),
        Codec::WebP => encode_webp(image, request.quality()),
    }
}

} // verus!
