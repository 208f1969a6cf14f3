//! The chunk structure of a PNG stream, as far as the optimizer relies on it.

use crate::format::{is_png, png_signature};
use vstd::prelude::*;

verus! {

/// The four bytes at `at`, read as a big-endian number.
pub open spec fn be32(bytes: Seq<u8>, at: int) -> nat {
    (bytes[at] as nat) * 0x100_0000 + (bytes[at + 1] as nat) * 0x1_0000 + (bytes[at + 2] as nat)
        * 0x100 + (bytes[at + 3] as nat)
}

/// The four bytes at `at` are `first`, `second`, `third`, `fourth`.
pub open spec fn tagged(bytes: Seq<u8>, at: int, first: u8, second: u8, third: u8, fourth: u8) -> bool {
    bytes[at] == first && bytes[at + 1] == second && bytes[at + 2] == third && bytes[at + 3]
        == fourth
}

/// The chunk at `offset` is named `IEND`.
pub open spec fn is_end_chunk(bytes: Seq<u8>, offset: int) -> bool {
    tagged(bytes, offset + 4, 0x49, 0x45, 0x4e, 0x44)
}

/// The chunk at `offset` is named `IHDR`.
pub open spec fn is_header_chunk(bytes: Seq<u8>, offset: int) -> bool {
    tagged(bytes, offset + 4, 0x49, 0x48, 0x44, 0x52)
}

/// The chunk at `offset` is named `fcTL`: the control chunk of a frame of
/// an animation.
pub open spec fn is_frame_control_chunk(bytes: Seq<u8>, offset: int) -> bool {
    tagged(bytes, offset + 4, 0x66, 0x63, 0x54, 0x4c)
}

/// The chunk at `offset` is named `fdAT`: the data of a frame of an
/// animation.
pub open spec fn is_frame_data_chunk(bytes: Seq<u8>, offset: int) -> bool {
    tagged(bytes, offset + 4, 0x66, 0x64, 0x41, 0x54)
}

/// The chunk at `offset` belongs to a frame of an animation; the data of
/// such a chunk open with a sequence number of four bytes.
pub open spec fn is_frame_chunk(bytes: Seq<u8>, offset: int) -> bool {
    is_frame_control_chunk(bytes, offset) || is_frame_data_chunk(bytes, offset)
}

/// An image of these dimensions has at least one pixel, and its rows, at
/// up to 64 bits to the pixel and with the filter byte of every row of every
/// interlacing pass, fit one allocation.
pub open spec fn dimensions_are_sound(width: nat, height: nat) -> bool {
    &&& width >= 1
    &&& height >= 1
    &&& (64 * width + 64) * (height + 8) <= isize::MAX
}

/// The most bytes that a deflate stream can hold for each byte of its own.
pub const MAX_INFLATION: usize = 1032;

/// The number of samples in a pixel of a color type: three for truecolor
/// (2), two for grayscale with alpha (4), four for truecolor with alpha (6),
/// one for grayscale and indexed color.
pub open spec fn samples_of(color: u8) -> nat {
    if color == 2 {
        3
    } else if color == 4 {
        2
    } else if color == 6 {
        4
    } else {
        1
    }
}

/// The bytes that `height` rows of `width` pixels take, at `bits` to the
/// pixel, each row rounded up to whole bytes.
pub open spec fn bitmap_size(bits: nat, width: nat, height: nat) -> nat {
    ((width * bits + 7) / 8) * height
}

/// The bytes that the rows of an image take before compression, with the
/// filter byte in front of every row: of the image as a whole, or, where it
/// is interlaced, of its seven passes, of which the second, the fourth and
/// the sixth are missing from an image too narrow for them.
pub open spec fn rows_size(bits: nat, width: nat, height: nat, interlaced: bool) -> nat {
    if !interlaced {
        bitmap_size(bits, width, height) + height
    } else {
        bitmap_size(bits, (width + 7) / 8, (height + 7) / 8) + (height + 7) / 8 + (if width > 4 {
            bitmap_size(bits, (width + 3) / 8, (height + 7) / 8) + (height + 7) / 8
        } else {
            0
        }) + bitmap_size(bits, (width + 3) / 4, (height + 3) / 8) + (height + 3) / 8 + (if width
            > 2 {
            bitmap_size(bits, (width + 1) / 4, (height + 3) / 4) + (height + 3) / 4
        } else {
            0
        }) + bitmap_size(bits, (width + 1) / 2, (height + 1) / 4) + (height + 1) / 4 + (if width
            > 1 {
            bitmap_size(bits, width / 2, (height + 1) / 2) + (height + 1) / 2
        } else {
            0
        }) + bitmap_size(bits, width, height / 2) + height / 2
    }
}

/// A bit depth that the PNG format allows for a color type: 1 to 16 bits for
/// grayscale (0), 1 to 8 for indexed color (3), and 8 or 16 for truecolor
/// (2) and for either with alpha (4, 6).
pub open spec fn depth_suits_color(color: u8, depth: u8) -> bool {
    ||| color == 0 && (depth == 1 || depth == 2 || depth == 4 || depth == 8 || depth == 16)
    ||| color == 3 && (depth == 1 || depth == 2 || depth == 4 || depth == 8)
    ||| (color == 2 || color == 4 || color == 6) && (depth == 8 || depth == 16)
}

/// The header chunk at `offset`, which holds at least 13 bytes, describes
/// an image of sound dimensions with a bit depth that suits its color type,
/// whose rows are no more than the stream could hold compressed. Its data
/// are the width and the height, four bytes each, then the depth, the color
/// type, two bytes that are not read here, and the interlacing.
pub open spec fn header_is_sound(bytes: Seq<u8>, offset: int) -> bool {
    &&& dimensions_are_sound(be32(bytes, offset + 8), be32(bytes, offset + 12))
    &&& depth_suits_color(bytes[offset + 17], bytes[offset + 16])
    &&& rows_size(
        bytes[offset + 16] as nat * samples_of(bytes[offset + 17]),
        be32(bytes, offset + 8),
        be32(bytes, offset + 12),
        bytes[offset + 20] == 1,
    ) <= MAX_INFLATION * bytes.len()
}

/// The frame control chunk at `offset`, which holds at least 26 bytes,
/// describes a frame of sound dimensions whose rows, taken at 64 bits to the
/// pixel and with room for every pass, are no more than the stream could
/// hold compressed. Its data are the sequence number, then the width and the
/// height, four bytes each.
pub open spec fn frame_is_sound(bytes: Seq<u8>, offset: int) -> bool {
    &&& dimensions_are_sound(be32(bytes, offset + 12), be32(bytes, offset + 16))
    &&& (8 * be32(bytes, offset + 12) + 8) * (be32(bytes, offset + 16) + 8) <= MAX_INFLATION
        * bytes.len()
}

/// The chunk of `length` data bytes at `offset` is one that the optimizer
/// can read: a frame chunk holds its sequence number, and a header or a
/// frame control chunk of full length is sound.
pub open spec fn chunk_is_sound(bytes: Seq<u8>, offset: int, length: nat) -> bool {
    &&& is_frame_chunk(bytes, offset) ==> length >= 4
    &&& is_frame_control_chunk(bytes, offset) && length >= 26 ==> frame_is_sound(bytes, offset)
    &&& is_header_chunk(bytes, offset) && length >= 13 ==> header_is_sound(bytes, offset)
}

/// Every chunk from `offset` on, up to the end chunk or to where the stream
/// breaks off, is one that the optimizer can read, and ends where an offset
/// can point. A chunk takes 12 bytes beside its data: length, name and
/// checksum. The checksums are not looked at.
pub open spec fn chunks_sound_from(bytes: Seq<u8>, offset: int) -> bool
    decreases bytes.len() - offset,
{
    if offset < 0 || offset + 4 > bytes.len() {
        true
    } else {
        let length = be32(bytes, offset);
        let end = offset + 12 + length;
        if end > usize::MAX {
            false
        } else if end > bytes.len() {
            true
        } else if is_end_chunk(bytes, offset) {
            true
        } else {
            chunk_is_sound(bytes, offset, length) && chunks_sound_from(bytes, end)
        }
    }
}

/// The stream is one that the optimizer can be handed: either it does not
/// open with the PNG signature, or every chunk behind the signature is
/// sound.
pub open spec fn png_chunks_sound(bytes: Seq<u8>) -> bool {
    is_png(bytes) ==> chunks_sound_from(bytes, 8)
}

/// Whether the buffer opens with the PNG signature.
pub fn has_png_signature(bytes: &[u8]) -> (found: bool)
    ensures
        found == is_png(bytes@),
{
    if bytes.len() < 8 {
        return false;
    }
    let found = bytes[0] == 0x89 && bytes[1] == 0x50 && bytes[2] == 0x4e && bytes[3] == 0x47
        && bytes[4] == 0x0d && bytes[5] == 0x0a && bytes[6] == 0x1a && bytes[7] == 0x0a;
    proof {
        let head = bytes@.subrange(0, 8);
        let signature = png_signature();
        assert(forall|i: int| 0 <= i < 8 ==> head[i] == bytes@[i]);
        if found {
            assert(signature =~= head);
        } else if signature == head {
            assert(signature[0] == head[0] && signature[1] == head[1] && signature[2] == head[2]
                && signature[3] == head[3] && signature[4] == head[4] && signature[5] == head[5]
                && signature[6] == head[6] && signature[7] == head[7]);
        }
    }
    found
}

/// Reads the big-endian number at `at`.
fn read_be32(bytes: &[u8], at: usize) -> (number: u32)
    requires
        at + 4 <= bytes@.len(),
    ensures
        number == be32(bytes@, at as int),
{
    let first: u32 = bytes[at] as u32;
    let second: u32 = bytes[at + 1] as u32;
    let third: u32 = bytes[at + 2] as u32;
    let fourth: u32 = bytes[at + 3] as u32;
    first * 0x100_0000 + second * 0x1_0000 + third * 0x100 + fourth
}

/// Whether the four bytes at `at` are the given ones.
fn has_tag(bytes: &[u8], at: usize, first: u8, second: u8, third: u8, fourth: u8) -> (found: bool)
    requires
        at + 4 <= bytes@.len(),
    ensures
        found == tagged(bytes@, at as int, first, second, third, fourth),
{
    bytes[at] == first && bytes[at + 1] == second && bytes[at + 2] == third && bytes[at + 3]
        == fourth
}

/// Whether dimensions are sound.
fn sound_dimensions(width: u32, height: u32) -> (sound: bool)
    ensures
        sound == dimensions_are_sound(width as nat, height as nat),
{
    if width == 0 || height == 0 {
        return false;
    }
    let row: u128 = 64 * (width as u128) + 64;
    let rows: u128 = (height as u128) + 8;
    assert(row * rows <= 0x41_0000_0000 * 0x2_0000_0000) by (nonlinear_arith)
        requires
            row <= 0x41_0000_0000,
            rows <= 0x2_0000_0000,
    ;
    row * rows <= isize::MAX as u128
}

/// The bytes of `height` rows of `width` pixels at `bits` to the pixel.
fn bitmap(bits: u128, width: u128, height: u128) -> (size: u128)
    requires
        bits <= 64,
        width <= 0x1_0000_0000,
        height <= 0x1_0000_0000,
    ensures
        size == bitmap_size(bits as nat, width as nat, height as nat),
        size <= 0x8_0000_0001 * 0x1_0000_0000,
{
    assert(width * bits <= 0x1_0000_0000 * 64) by (nonlinear_arith)
        requires
            bits <= 64,
            width <= 0x1_0000_0000,
    ;
    let row: u128 = (width * bits + 7) / 8;
    assert(row * height <= 0x8_0000_0001 * 0x1_0000_0000) by (nonlinear_arith)
        requires
            row <= 0x8_0000_0001,
            height <= 0x1_0000_0000,
    ;
    row * height
}

/// The bytes that the rows of an image take before compression.
fn rows(bits: u128, width: u32, height: u32, interlaced: bool) -> (size: u128)
    requires
        bits <= 64,
    ensures
        size == rows_size(bits as nat, width as nat, height as nat, interlaced),
{
    let w: u128 = width as u128;
    let h: u128 = height as u128;
    if !interlaced {
        return bitmap(bits, w, h) + h;
    }
    let mut size: u128 = bitmap(bits, (w + 7) / 8, (h + 7) / 8) + (h + 7) / 8;
    if w > 4 {
        size = size + bitmap(bits, (w + 3) / 8, (h + 7) / 8) + (h + 7) / 8;
    }
    size = size + bitmap(bits, (w + 3) / 4, (h + 3) / 8) + (h + 3) / 8;
    if w > 2 {
        size = size + bitmap(bits, (w + 1) / 4, (h + 3) / 4) + (h + 3) / 4;
    }
    size = size + bitmap(bits, (w + 1) / 2, (h + 1) / 4) + (h + 1) / 4;
    if w > 1 {
        size = size + bitmap(bits, w / 2, (h + 1) / 2) + (h + 1) / 2;
    }
    size + bitmap(bits, w, h / 2) + h / 2
}

/// The number of samples in a pixel of a color type.
fn samples(color: u8) -> (count: u8)
    ensures
        count == samples_of(color),
{
    match color {
        2 => 3,
        4 => 2,
        6 => 4,
        _ => 1,
    }
}

/// Whether a header of full length at `offset` is sound.
fn sound_header(bytes: &[u8], offset: usize) -> (sound: bool)
    requires
        offset + 21 <= bytes@.len(),
    ensures
        sound == header_is_sound(bytes@, offset as int),
{
    let total: usize = bytes.len();
    let width = read_be32(bytes, offset + 8);
    let height = read_be32(bytes, offset + 12);
    let depth = bytes[offset + 16];
    let color = bytes[offset + 17];
    if !sound_dimensions(width, height) || !suits(color, depth) {
        return false;
    }
    let bits: u128 = (depth as u128) * (samples(color) as u128);
    let size = rows(bits, width, height, bytes[offset + 20] == 1);
    size <= (MAX_INFLATION as u128) * (total as u128)
}

/// Whether a frame control chunk of full length at `offset` is sound.
fn sound_frame(bytes: &[u8], offset: usize) -> (sound: bool)
    requires
        offset + 20 <= bytes@.len(),
    ensures
        sound == frame_is_sound(bytes@, offset as int),
{
    let total: usize = bytes.len();
    let width = read_be32(bytes, offset + 12);
    let height = read_be32(bytes, offset + 16);
    if !sound_dimensions(width, height) {
        return false;
    }
    let row: u128 = 8 * (width as u128) + 8;
    let count: u128 = (height as u128) + 8;
    assert(row * count <= 0x8_0000_0008 * 0x1_0000_0008) by (nonlinear_arith)
        requires
            row <= 0x8_0000_0008,
            count <= 0x1_0000_0008,
    ;
    row * count <= (MAX_INFLATION as u128) * (total as u128)
}

/// Whether a bit depth suits a color type.
fn suits(color: u8, depth: u8) -> (suited: bool)
    ensures
        suited == depth_suits_color(color, depth),
{
    match color {
        0 => depth == 1 || depth == 2 || depth == 4 || depth == 8 || depth == 16,
        3 => depth == 1 || depth == 2 || depth == 4 || depth == 8,
        2 | 4 | 6 => depth == 8 || depth == 16,
        _ => false,
    }
}

/// Walks the chunk headers of a stream and tells whether the optimizer can
/// be handed it.
pub fn chunks_are_sound(bytes: &[u8]) -> (sound: bool)
    ensures
        sound == png_chunks_sound(bytes@),
{
    if !has_png_signature(bytes) {
        return true;
    }
    let mut offset: usize = 8;
    loop
        invariant
            8 <= offset <= bytes@.len(),
            png_chunks_sound(bytes@) == chunks_sound_from(bytes@, offset as int),
        decreases bytes@.len() - offset,
    {
        if bytes.len() - offset < 4 {
            return true;
        }
        let length: u32 = read_be32(bytes, offset);
        let end: u128 = (offset as u128) + 12 + (length as u128);
        if end > usize::MAX as u128 {
            return false;
        }
        if end > bytes.len() as u128 {
            return true;
        }
        if has_tag(bytes, offset + 4, 0x49, 0x45, 0x4e, 0x44) {
            return true;
        }
        let control = has_tag(bytes, offset + 4, 0x66, 0x63, 0x54, 0x4c);
        let data = has_tag(bytes, offset + 4, 0x66, 0x64, 0x41, 0x54);
        if (control || data) && length < 4 {
            return false;
        }
        if control && length >= 26 && !sound_frame(bytes, offset) {
            return false;
        }
        if has_tag(bytes, offset + 4, 0x49, 0x48, 0x44, 0x52) && length >= 13 && !sound_header(
            bytes,
            offset,
        ) {
            return false;
        }
        offset = end as usize;
    }
}

} // verus!
