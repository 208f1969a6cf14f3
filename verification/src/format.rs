//! Telling an image's encoded format from the first bytes of the buffer.

use crate::outcome::Failure;
use vstd::prelude::*;

verus! {

/// The encoded format that a buffer's leading bytes announce.
#[derive(Clone, Copy, Debug, PartialEq, Eq, Structural)]
pub enum DetectedFormat {
    Png,
    Jpeg,
    WebP,
    Gif,
    /// A signature of some other image format.
    Unknown,
}

/// The formats that can be re-encoded, each bound to one strategy.
#[derive(Clone, Copy, Debug, PartialEq, Eq, Structural)]
pub enum Codec {
    /// Lossless re-optimization.
    Png,
    /// Lossy re-encoding under a quality.
    Jpeg,
    /// Lossy re-encoding under a quality.
    WebP,
}

impl DetectedFormat {
    /// The strategy for this format, if it has one.
    pub open spec fn codec_spec(self) -> Option<Codec> {
        match self {
            DetectedFormat::Png => Some(Codec::Png),
            DetectedFormat::Jpeg => Some(Codec::Jpeg),
            DetectedFormat::WebP => Some(Codec::WebP),
            DetectedFormat::Gif => None,
            DetectedFormat::Unknown => None,
        }
    }

    /// The strategy for this format; `None` for GIF and for every format
    /// that has no strategy.
    #[verifier::when_used_as_spec(codec_spec)]
    pub fn codec(self) -> (c: Option<Codec>)
        ensures
            c == self.codec_spec(),
    {
        match self {
            DetectedFormat::Png => Some(Codec::Png),
            DetectedFormat::Jpeg => Some(Codec::Jpeg),
            DetectedFormat::WebP => Some(Codec::WebP),
            DetectedFormat::Gif => None,
            DetectedFormat::Unknown => None,
        }
    }
}

/// `bytes` begins with `signature`.
pub open spec fn begins_with(bytes: Seq<u8>, signature: Seq<u8>) -> bool {
    signature.is_prefix_of(bytes)
}

/// The eight bytes that open every PNG stream.
pub open spec fn png_signature() -> Seq<u8> {
    seq![0x89u8, 0x50u8, 0x4eu8, 0x47u8, 0x0du8, 0x0au8, 0x1au8, 0x0au8]
}

/// The start-of-image marker and the first byte of the next marker.
pub open spec fn jpeg_signature() -> Seq<u8> {
    seq![0xffu8, 0xd8u8, 0xffu8]
}

/// `GIF89a`.
pub open spec fn gif89_signature() -> Seq<u8> {
    seq![0x47u8, 0x49u8, 0x46u8, 0x38u8, 0x39u8, 0x61u8]
}

/// `GIF87a`.
pub open spec fn gif87_signature() -> Seq<u8> {
    seq![0x47u8, 0x49u8, 0x46u8, 0x38u8, 0x37u8, 0x61u8]
}

/// `RIFF`, which opens the container of a WebP image.
pub open spec fn riff_tag() -> Seq<u8> {
    seq![0x52u8, 0x49u8, 0x46u8, 0x46u8]
}

/// `WEBP`, which follows the container's four length bytes.
pub open spec fn webp_tag() -> Seq<u8> {
    seq![0x57u8, 0x45u8, 0x42u8, 0x50u8]
}

pub open spec fn is_png(bytes: Seq<u8>) -> bool {
    begins_with(bytes, png_signature())
}

pub open spec fn is_jpeg(bytes: Seq<u8>) -> bool {
    begins_with(bytes, jpeg_signature())
}

pub open spec fn is_gif(bytes: Seq<u8>) -> bool {
    begins_with(bytes, gif89_signature()) || begins_with(bytes, gif87_signature())
}

/// A RIFF container whose form type is WebP; the four bytes of the
/// container's length may hold anything.
pub open spec fn is_webp(bytes: Seq<u8>) -> bool {
    bytes.len() >= 12 && begins_with(bytes, riff_tag()) && bytes.subrange(8, 12) =~= webp_tag()
}

/// An AVIF file: two zero bytes, two bytes of any value, then `ftypavif`.
pub open spec fn is_avif(bytes: Seq<u8>) -> bool {
    bytes.len() >= 12 && bytes[0] == 0 && bytes[1] == 0 && bytes.subrange(4, 12) =~= seq![
        0x66u8,
        0x74u8,
        0x79u8,
        0x70u8,
        0x61u8,
        0x76u8,
        0x69u8,
        0x66u8,
    ]
}

/// `P1` to `P7`, the netpbm family.
pub open spec fn is_pnm(bytes: Seq<u8>) -> bool {
    bytes.len() >= 2 && bytes[0] == 0x50 && 0x31 <= bytes[1] <= 0x37
}

/// The signature of an image format that is recognised and has no strategy
/// here: TIFF in either byte order, DDS, BMP, ICO, Radiance HDR, AVIF,
/// OpenEXR, QOI, netpbm, farbfeld.
pub open spec fn is_other_image(bytes: Seq<u8>) -> bool {
    ||| begins_with(bytes, seq![0x4du8, 0x4du8, 0x00u8, 0x2au8])
    ||| begins_with(bytes, seq![0x49u8, 0x49u8, 0x2au8, 0x00u8])
    ||| begins_with(bytes, seq![0x44u8, 0x44u8, 0x53u8, 0x20u8])
    ||| begins_with(bytes, seq![0x42u8, 0x4du8])
    ||| begins_with(bytes, seq![0x00u8, 0x00u8, 0x01u8, 0x00u8])
    ||| begins_with(
        bytes,
        seq![0x23u8, 0x3fu8, 0x52u8, 0x41u8, 0x44u8, 0x49u8, 0x41u8, 0x4eu8, 0x43u8, 0x45u8],
    )
    ||| is_avif(bytes)
    ||| begins_with(bytes, seq![0x76u8, 0x2fu8, 0x31u8, 0x01u8])
    ||| begins_with(bytes, seq![0x71u8, 0x6fu8, 0x69u8, 0x66u8])
    ||| is_pnm(bytes)
    ||| begins_with(bytes, seq![0x66u8, 0x61u8, 0x72u8, 0x62u8, 0x66u8, 0x65u8, 0x6cu8, 0x64u8])
}

/// The format that the leading bytes announce, or `None` where they match no
/// known signature. Only a bounded prefix is looked at: no signature is
/// longer than twelve bytes.
pub open spec fn signature_format(bytes: Seq<u8>) -> Option<DetectedFormat> {
    if is_png(bytes) {
        Some(DetectedFormat::Png)
    } else if is_jpeg(bytes) {
        Some(DetectedFormat::Jpeg)
    } else if is_gif(bytes) {
        Some(DetectedFormat::Gif)
    } else if is_webp(bytes) {
        Some(DetectedFormat::WebP)
    } else if is_other_image(bytes) {
        Some(DetectedFormat::Unknown)
    } else {
        None
    }
}

/// A buffer that begins with a signature has the signature's first byte.
pub proof fn lemma_signature_fixes_first_byte(bytes: Seq<u8>, signature: Seq<u8>)
    requires
        begins_with(bytes, signature),
        signature.len() > 0,
    ensures
        bytes.len() > 0,
        bytes[0] == signature[0],
{
    assert(bytes.subrange(0, signature.len() as int)[0] == bytes[0]);
}

/// A buffer announces at most one format: the four supported signatures
/// exclude one another, and each excludes every other known signature.
pub proof fn lemma_signatures_are_disjoint(bytes: Seq<u8>)
    ensures
        is_png(bytes) <==> signature_format(bytes) == Some(DetectedFormat::Png),
        is_jpeg(bytes) <==> signature_format(bytes) == Some(DetectedFormat::Jpeg),
        is_gif(bytes) <==> signature_format(bytes) == Some(DetectedFormat::Gif),
        is_webp(bytes) <==> signature_format(bytes) == Some(DetectedFormat::WebP),
        is_other_image(bytes) <==> signature_format(bytes) == Some(DetectedFormat::Unknown),
        signature_format(bytes) is None <==> !is_png(bytes) && !is_jpeg(bytes) && !is_gif(bytes)
            && !is_webp(bytes) && !is_other_image(bytes),
{
    assert forall|signature: Seq<u8>| #[trigger]
        begins_with(bytes, signature) && signature.len() > 0 implies bytes.len() > 0 && bytes[0]
        == signature[0] by {
        lemma_signature_fixes_first_byte(bytes, signature);
    }
}

/// The longest stretch of leading bytes that a signature spans.
pub const HEADER_LENGTH: usize = 12;

/// The leading bytes of a buffer that detection looks at: the first twelve,
/// or all of a shorter buffer.
pub open spec fn header(bytes: Seq<u8>) -> Seq<u8> {
    if bytes.len() <= HEADER_LENGTH {
        bytes
    } else {
        bytes.subrange(0, HEADER_LENGTH as int)
    }
}

/// Detection reads a bounded prefix: the format of a buffer is the format of
/// its first twelve bytes, so two buffers that agree there announce the same
/// format, whatever follows.
pub proof fn lemma_detection_reads_the_header(bytes: Seq<u8>)
    ensures
        signature_format(bytes) == signature_format(header(bytes)),
{
    let head = header(bytes);
    assert forall|signature: Seq<u8>| signature.len() <= HEADER_LENGTH implies (#[trigger]
        begins_with(bytes, signature) <==> begins_with(head, signature)) by {
        if signature.len() <= bytes.len() {
            assert(head.subrange(0, signature.len() as int) =~= bytes.subrange(
                0,
                signature.len() as int,
            ));
        }
    }
    if bytes.len() >= HEADER_LENGTH {
        assert(head.subrange(8, 12) =~= bytes.subrange(8, 12));
        assert(head.subrange(4, 12) =~= bytes.subrange(4, 12));
    }
}

/// Calls `image::guess_format`, which walks a fixed table of magic bytes
/// and returns the format of the first entry that the buffer begins with,
/// or an error where none does. Trusted: the result is the table's answer,
/// written here as `signature_format`, with every format other than PNG,
/// JPEG, WebP and GIF reported as `Unknown`.
#[verifier::external_body]
fn guess_format(bytes: &[u8]) -> (guess: Option<DetectedFormat>)
    ensures
        guess == signature_format(bytes@),
{
    match image::guess_format(bytes) {
        Ok(image::ImageFormat::Png) => Some(DetectedFormat::Png),
        Ok(image::ImageFormat::Jpeg) => Some(DetectedFormat::Jpeg),
        Ok(image::ImageFormat::WebP) => Some(DetectedFormat::WebP),
        Ok(image::ImageFormat::Gif) => Some(DetectedFormat::Gif),
        Ok(_) => Some(DetectedFormat::Unknown),
        Err(_) => None,
    }
}

/// Reports the format that the buffer's leading bytes announce, or fails
/// with `UnrecognizedFormat` where they match no known signature. The rest
/// of the buffer is not looked at, so a recognised format says nothing of
/// whether the stream is whole.
pub fn detect_format(bytes: &[u8]) -> (format: Result<DetectedFormat, Failure>)
    ensures
        match signature_format(bytes@) {
            Some(found) => format == Ok::<DetectedFormat, Failure>(found),
            None => format == Err::<DetectedFormat, Failure>(Failure::UnrecognizedFormat),
        },
{
    match guess_format(bytes) {
        Some(found) => Ok(found),
        None => Err(Failure::UnrecognizedFormat),
    }
}

} // verus!
