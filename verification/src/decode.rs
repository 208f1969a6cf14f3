//! Turning an encoded buffer into pixels, and the pixel buffer's invariant.

use crate::format::Codec;
use crate::outcome::{Failure, FailureView};
use vstd::prelude::*;

verus! {

/// How the samples of one pixel are laid out.
#[derive(Clone, Copy, Debug, PartialEq, Eq, Structural)]
pub enum ColorModel {
    /// 8-bit luminance.
    L8,
    /// 8-bit luminance with alpha.
    La8,
    /// 8-bit red, green and blue.
    Rgb8,
    /// 8-bit red, green and blue with alpha.
    Rgba8,
    /// 16-bit luminance.
    L16,
    /// 16-bit luminance with alpha.
    La16,
    /// 16-bit red, green and blue.
    Rgb16,
    /// 16-bit red, green and blue with alpha.
    Rgba16,
    /// 32-bit floating-point red, green and blue.
    Rgb32F,
    /// 32-bit floating-point red, green and blue with alpha.
    Rgba32F,
}

impl ColorModel {
    /// The number of samples in a pixel.
    pub open spec fn channels_spec(self) -> u8 {
        match self {
            ColorModel::L8 | ColorModel::L16 => 1,
            ColorModel::La8 | ColorModel::La16 => 2,
            ColorModel::Rgb8 | ColorModel::Rgb16 | ColorModel::Rgb32F => 3,
            ColorModel::Rgba8 | ColorModel::Rgba16 | ColorModel::Rgba32F => 4,
        }
    }

    /// The number of bytes in a pixel.
    pub open spec fn bytes_per_pixel_spec(self) -> u8 {
        match self {
            ColorModel::L8 => 1,
            ColorModel::La8 | ColorModel::L16 => 2,
            ColorModel::Rgb8 => 3,
            ColorModel::Rgba8 | ColorModel::La16 => 4,
            ColorModel::Rgb16 => 6,
            ColorModel::Rgba16 => 8,
            ColorModel::Rgb32F => 12,
            ColorModel::Rgba32F => 16,
        }
    }

    /// This model has `channels` samples in `bytes_per_pixel` bytes.
    pub open spec fn has_layout(self, channels: u8, bytes_per_pixel: u8) -> bool {
        self.channels_spec() == channels && self.bytes_per_pixel_spec() == bytes_per_pixel
    }

    /// The number of samples in a pixel.
    #[verifier::when_used_as_spec(channels_spec)]
    pub fn channels(self) -> (count: u8)
        ensures
            count == self.channels_spec(),
    {
        match self {
            ColorModel::L8 | ColorModel::L16 => 1,
            ColorModel::La8 | ColorModel::La16 => 2,
            ColorModel::Rgb8 | ColorModel::Rgb16 | ColorModel::Rgb32F => 3,
            ColorModel::Rgba8 | ColorModel::Rgba16 | ColorModel::Rgba32F => 4,
        }
    }

    /// The number of bytes in a pixel.
    #[verifier::when_used_as_spec(bytes_per_pixel_spec)]
    pub fn bytes_per_pixel(self) -> (count: u8)
        ensures
            count == self.bytes_per_pixel_spec(),
    {
        match self {
            ColorModel::L8 => 1,
            ColorModel::La8 | ColorModel::L16 => 2,
            ColorModel::Rgb8 => 3,
            ColorModel::Rgba8 | ColorModel::La16 => 4,
            ColorModel::Rgb16 => 6,
            ColorModel::Rgba16 => 8,
            ColorModel::Rgb32F => 12,
            ColorModel::Rgba32F => 16,
        }
    }

    /// The model with `channels` samples in `bytes_per_pixel` bytes, if
    /// there is one.
    pub open spec fn from_layout_spec(channels: u8, bytes_per_pixel: u8) -> Option<ColorModel> {
        if ColorModel::L8.has_layout(channels, bytes_per_pixel) {
            Some(ColorModel::L8)
        } else if ColorModel::La8.has_layout(channels, bytes_per_pixel) {
            Some(ColorModel::La8)
        } else if ColorModel::Rgb8.has_layout(channels, bytes_per_pixel) {
            Some(ColorModel::Rgb8)
        } else if ColorModel::Rgba8.has_layout(channels, bytes_per_pixel) {
            Some(ColorModel::Rgba8)
        } else if ColorModel::L16.has_layout(channels, bytes_per_pixel) {
            Some(ColorModel::L16)
        } else if ColorModel::La16.has_layout(channels, bytes_per_pixel) {
            Some(ColorModel::La16)
        } else if ColorModel::Rgb16.has_layout(channels, bytes_per_pixel) {
            Some(ColorModel::Rgb16)
        } else if ColorModel::Rgba16.has_layout(channels, bytes_per_pixel) {
            Some(ColorModel::Rgba16)
        } else if ColorModel::Rgb32F.has_layout(channels, bytes_per_pixel) {
            Some(ColorModel::Rgb32F)
        } else if ColorModel::Rgba32F.has_layout(channels, bytes_per_pixel) {
            Some(ColorModel::Rgba32F)
        } else {
            None
        }
    }

    /// The model with `channels` samples in `bytes_per_pixel` bytes, if
    /// there is one.
    #[verifier::when_used_as_spec(from_layout_spec)]
    pub fn from_layout(channels: u8, bytes_per_pixel: u8) -> (model: Option<ColorModel>)
        ensures
            model == Self::from_layout_spec(channels, bytes_per_pixel),
    {
        match (channels, bytes_per_pixel) {
            (1, 1) => Some(ColorModel::L8),
            (2, 2) => Some(ColorModel::La8),
            (3, 3) => Some(ColorModel::Rgb8),
            (4, 4) => Some(ColorModel::Rgba8),
            (1, 2) => Some(ColorModel::L16),
            (2, 4) => Some(ColorModel::La16),
            (3, 6) => Some(ColorModel::Rgb16),
            (4, 8) => Some(ColorModel::Rgba16),
            (3, 12) => Some(ColorModel::Rgb32F),
            (4, 16) => Some(ColorModel::Rgba32F),
            _ => None,
        }
    }
}

/// A layout names the one model that has it, and no model where none has it.
pub proof fn lemma_layout_names_one_model(model: ColorModel, channels: u8, bytes_per_pixel: u8)
    ensures
        ColorModel::from_layout_spec(channels, bytes_per_pixel) == Some(model) <==> model.has_layout(
            channels,
            bytes_per_pixel,
        ),
{
}

/// What a decoder reports of an image, before any of it is checked.
#[derive(Clone, Debug, PartialEq, Eq)]
pub struct Raster {
    pub width: u32,
    pub height: u32,
    /// Samples per pixel.
    pub channels: u8,
    pub bytes_per_pixel: u8,
    /// The samples, row after row, in native byte order.
    pub pixels: Vec<u8>,
}

/// A `Raster` with its pixels as a sequence.
pub struct RasterView {
    pub width: u32,
    pub height: u32,
    pub channels: u8,
    pub bytes_per_pixel: u8,
    pub pixels: Seq<u8>,
}

impl View for Raster {
    type V = RasterView;

    open spec fn view(&self) -> RasterView {
        RasterView {
            width: self.width,
            height: self.height,
            channels: self.channels,
            bytes_per_pixel: self.bytes_per_pixel,
            pixels: self.pixels@,
        }
    }
}

/// An image in memory, as mathematics sees it.
pub struct ImageView {
    pub width: nat,
    pub height: nat,
    pub color: ColorModel,
    pub pixels: Seq<u8>,
}

impl ImageView {
    /// The image has at least one pixel, and its buffer holds exactly
    /// width × height pixels of the color model's size.
    pub open spec fn consistent(self) -> bool {
        &&& self.width >= 1
        &&& self.height >= 1
        &&& self.pixels.len() == self.width * self.height * self.color.bytes_per_pixel_spec()
    }
}

/// A decoded image. Its pixel buffer always agrees with its dimensions and
/// color model: no value of this type is inconsistent.
#[derive(Debug, PartialEq, Eq)]
pub struct DecodedImage {
    width: u32,
    height: u32,
    color: ColorModel,
    pixels: Vec<u8>,
}

impl View for DecodedImage {
    type V = ImageView;

    open spec fn view(&self) -> ImageView {
        self.model()
    }
}

/// A stage's result that carries an image, taken by its views.
pub open spec fn image_result_view(result: Result<DecodedImage, Failure>) -> Result<
    ImageView,
    FailureView,
> {
    match result {
        Ok(image) => Ok(image@),
        Err(failure) => Err(failure@),
    }
}

/// The reason given for a sample layout that no color model has.
pub open spec fn unknown_layout_reason() -> Seq<char> {
    "unsupported color model"@
}

/// The reason given for an image without pixels.
pub open spec fn empty_image_reason() -> Seq<char> {
    "image has no pixels"@
}

/// The reason given for a buffer of the wrong length.
pub open spec fn length_mismatch_reason() -> Seq<char> {
    "pixel buffer does not match the image dimensions"@
}

/// The image that a raster stands for, or why it stands for none: its
/// layout is no color model, it is empty, or its buffer has the wrong
/// length, tested in this order.
pub open spec fn checked_image(raster: RasterView) -> Result<ImageView, FailureView> {
    match ColorModel::from_layout_spec(raster.channels, raster.bytes_per_pixel) {
        None => Err(FailureView::DecodeFailed { reason: unknown_layout_reason() }),
        Some(color) => {
            let image = ImageView {
                width: raster.width as nat,
                height: raster.height as nat,
                color,
                pixels: raster.pixels,
            };
            if raster.width == 0 || raster.height == 0 {
                Err(FailureView::DecodeFailed { reason: empty_image_reason() })
            } else if !image.consistent() {
                Err(FailureView::DecodeFailed { reason: length_mismatch_reason() })
            } else {
                Ok(image)
            }
        },
    }
}

/// The number of bytes that `width` × `height` pixels of `color` take.
fn buffer_length(width: u32, height: u32, color: ColorModel) -> (length: u128)
    ensures
        length == width * height * color.bytes_per_pixel_spec(),
{
    let area: u128 = {
        assert(width * height <= 0xffff_ffff * 0xffff_ffff) by (nonlinear_arith)
            requires
                width <= 0xffff_ffff,
                height <= 0xffff_ffff,
        ;
        (width as u128) * (height as u128)
    };
    let size: u8 = color.bytes_per_pixel();
    assert(area * size <= 0xffff_ffff * 0xffff_ffff * 16) by (nonlinear_arith)
        requires
            area <= 0xffff_ffff * 0xffff_ffff,
            size <= 16,
    ;
    area * (size as u128)
}

impl DecodedImage {
    #[verifier::type_invariant]
    spec fn well_formed(self) -> bool {
        self.model().consistent()
    }

    /// The image this value holds.
    pub closed spec fn model(&self) -> ImageView {
        ImageView {
            width: self.width as nat,
            height: self.height as nat,
            color: self.color,
            pixels: self.pixels@,
        }
    }

    /// An image of these dimensions over `pixels`, or `None` where the
    /// image would be empty or the buffer's length is not
    /// width × height × bytes per pixel.
    pub fn new(width: u32, height: u32, color: ColorModel, pixels: Vec<u8>) -> (image: Option<
        DecodedImage,
    >)
        ensures
            match image {
                Some(made) => made@ == (ImageView {
                    width: width as nat,
                    height: height as nat,
                    color,
                    pixels: pixels@,
                }) && made@.consistent(),
                None => !(ImageView {
                    width: width as nat,
                    height: height as nat,
                    color,
                    pixels: pixels@,
                }).consistent(),
            },
    {
        if width == 0 || height == 0 {
            return None;
        }
        if pixels.len() as u128 != buffer_length(width, height, color) {
            return None;
        }
        Some(DecodedImage { width, height, color, pixels })
    }

    /// Checks what a decoder reported and makes an image of it.
    pub fn from_raster(raster: Raster) -> (image: Result<DecodedImage, Failure>)
        ensures
            image_result_view(image) == checked_image(raster@),
            image matches Ok(made) ==> made@.consistent(),
    {
        let color = match ColorModel::from_layout(raster.channels, raster.bytes_per_pixel) {
            Some(color) => color,
            None => {
                return Err(
                    Failure::DecodeFailed { reason: String::from_str("unsupported color model") },
                );
            },
        };
        if raster.width == 0 || raster.height == 0 {
            return Err(Failure::DecodeFailed { reason: String::from_str("image has no pixels") });
        }
        if raster.pixels.len() as u128 != buffer_length(raster.width, raster.height, color) {
            return Err(
                Failure::DecodeFailed {
                    reason: String::from_str("pixel buffer does not match the image dimensions"),
                },
            );
        }
        Ok(
            DecodedImage {
                width: raster.width,
                height: raster.height,
                color,
                pixels: raster.pixels,
            },
        )
    }

    /// The width in pixels, at least 1.
    pub fn width(&self) -> (width: u32)
        ensures
            width == self@.width,
            self@.consistent(),
    {
        proof {
            use_type_invariant(self);
        }
        self.width
    }

    /// The height in pixels, at least 1.
    pub fn height(&self) -> (height: u32)
        ensures
            height == self@.height,
            self@.consistent(),
    {
        proof {
            use_type_invariant(self);
        }
        self.height
    }

    /// The layout of a pixel's samples.
    pub fn color(&self) -> (color: ColorModel)
        ensures
            color == self@.color,
    {
        self.color
    }

    /// The samples, row after row: width × height × bytes per pixel bytes.
    pub fn pixels(&self) -> (pixels: &Vec<u8>)
        ensures
            pixels@ == self@.pixels,
            self@.consistent(),
    {
        proof {
            use_type_invariant(self);
        }
        &self.pixels
    }
}

/// What `image::load_from_memory_with_format` returns for a buffer and a
/// format: the decoded image's dimensions, sample layout and pixels, or the
/// text of the decoder's error.
pub uninterp spec fn decoded(bytes: Seq<u8>, codec: Codec) -> Result<RasterView, Seq<char>>;

/// Calls `image::load_from_memory_with_format` with the format that `codec`
/// names, and reads off the decoded image its width, height, channel count,
/// bytes per pixel and sample bytes. Trusted: decoding depends on the buffer
/// and the format alone, so the result is `decoded` of them; nothing is
/// claimed of what the decoder reports. The decoder answers malformed input
/// with an error and refuses images over its default allocation limit.
#[verifier::external_body]
fn load_raster(bytes: &[u8], codec: Codec) -> (loaded: Result<Raster, String>)
    ensures
        match loaded {
            Ok(raster) => decoded(bytes@, codec) == Ok::<RasterView, Seq<char>>(raster@),
            Err(text) => decoded(bytes@, codec) == Err::<RasterView, Seq<char>>(text@),
        },
{
    let format = match codec {
        Codec::Png => image::ImageFormat::Png,
        Codec::Jpeg => image::ImageFormat::Jpeg,
        Codec::WebP => image::ImageFormat::WebP,
    };
    match image::load_from_memory_with_format(bytes, format) {
        Ok(picture) => Ok(Raster {
            width: picture.width(),
            height: picture.height(),
            channels: picture.color().channel_count(),
            bytes_per_pixel: picture.color().bytes_per_pixel(),
            pixels: picture.into_bytes(),
        }),
        Err(error) => Err(error.to_string()),
    }
}

/// The result of the decode stage on a buffer whose decoder returned
/// `loaded`.
pub open spec fn decode_result(loaded: Result<RasterView, Seq<char>>) -> Result<
    ImageView,
    FailureView,
> {
    match loaded {
        Ok(raster) => checked_image(raster),
        Err(text) => Err(FailureView::DecodeFailed { reason: text }),
    }
}

/// The decode stage on a buffer of a known format.
pub open spec fn decode_spec(bytes: Seq<u8>, codec: Codec) -> Result<ImageView, FailureView> {
    decode_result(decoded(bytes, codec))
}

/// Settles the decode stage on what the decoder returned: a decoded raster
/// is checked, an error becomes `DecodeFailed` with the decoder's text.
pub fn settle_decode(loaded: Result<Raster, String>) -> (image: Result<DecodedImage, Failure>)
    ensures
        image_result_view(image) == decode_result(
            match loaded {
                Ok(raster) => Ok(raster@),
                Err(text) => Err(text@),
            },
        ),
        image matches Ok(made) ==> made@.consistent(),
{
    match loaded {
        Ok(raster) => DecodedImage::from_raster(raster),
        Err(text) => Err(Failure::DecodeFailed { reason: text }),
    }
}

/// Decodes a buffer of format `codec` into pixels. Fails with
/// `DecodeFailed` on a malformed or truncated stream, and on pixels that no
/// consistent image can hold.
pub fn decode(bytes: &[u8], codec: Codec) -> (image: Result<DecodedImage, Failure>)
    ensures
        image_result_view(image) == decode_spec(bytes@, codec),
        image matches Ok(made) ==> made@.consistent(),
{
    settle_decode(load_raster(bytes, codec))
}

} // verus!
