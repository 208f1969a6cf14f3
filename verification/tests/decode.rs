use std::io::Cursor;

use image::{DynamicImage, GrayImage, ImageFormat, Luma, Rgb, RgbImage, Rgba, RgbaImage};
use imgcompress::decode::{decode, settle_decode, ColorModel, DecodedImage, Raster};
use imgcompress::format::Codec;
use imgcompress::outcome::Failure;

fn gradient(width: u32, height: u32) -> RgbImage {
    RgbImage::from_fn(width, height, |x, y| Rgb([(x * 7) as u8, (y * 5) as u8, (x + y) as u8]))
}

fn encoded(picture: &DynamicImage, format: ImageFormat) -> Vec<u8> {
    let mut bytes = Vec::new();
    picture.write_to(&mut Cursor::new(&mut bytes), format).unwrap();
    bytes
}

fn decode_failure(result: Result<DecodedImage, Failure>) -> String {
    match result {
        Err(Failure::DecodeFailed { reason }) => reason,
        other => panic!("{:?}", other),
    }
}

#[test]
fn color_models_have_their_layouts() {
    let all = [
        (ColorModel::L8, 1, 1),
        (ColorModel::La8, 2, 2),
        (ColorModel::Rgb8, 3, 3),
        (ColorModel::Rgba8, 4, 4),
        (ColorModel::L16, 1, 2),
        (ColorModel::La16, 2, 4),
        (ColorModel::Rgb16, 3, 6),
        (ColorModel::Rgba16, 4, 8),
        (ColorModel::Rgb32F, 3, 12),
        (ColorModel::Rgba32F, 4, 16),
    ];
    for (model, channels, bytes) in all {
        assert_eq!(model.channels(), channels);
        assert_eq!(model.bytes_per_pixel(), bytes);
        assert_eq!(ColorModel::from_layout(channels, bytes), Some(model));
    }
}

#[test]
fn layouts_of_no_model_are_refused() {
    assert_eq!(ColorModel::from_layout(0, 0), None);
    assert_eq!(ColorModel::from_layout(1, 3), None);
    assert_eq!(ColorModel::from_layout(3, 4), None);
    assert_eq!(ColorModel::from_layout(5, 5), None);
    assert_eq!(ColorModel::from_layout(4, 12), None);
}

#[test]
fn new_image_needs_a_buffer_of_the_right_length() {
    let image = DecodedImage::new(2, 3, ColorModel::Rgb8, vec![0; 18]).unwrap();
    assert_eq!(image.width(), 2);
    assert_eq!(image.height(), 3);
    assert_eq!(image.color(), ColorModel::Rgb8);
    assert_eq!(image.pixels(), &vec![0u8; 18]);
    assert_eq!(DecodedImage::new(2, 3, ColorModel::Rgb8, vec![0; 17]), None);
    assert_eq!(DecodedImage::new(2, 3, ColorModel::Rgb8, vec![0; 19]), None);
    assert_eq!(DecodedImage::new(2, 3, ColorModel::Rgba8, vec![0; 18]), None);
    assert!(DecodedImage::new(2, 3, ColorModel::Rgba16, vec![0; 48]).is_some());
}

#[test]
fn new_image_is_never_empty() {
    assert_eq!(DecodedImage::new(0, 3, ColorModel::Rgb8, Vec::new()), None);
    assert_eq!(DecodedImage::new(3, 0, ColorModel::Rgb8, Vec::new()), None);
    assert_eq!(DecodedImage::new(0, 0, ColorModel::L8, Vec::new()), None);
}

#[test]
fn new_image_does_not_wrap_on_huge_dimensions() {
    // 2^32 - 1 squared times 4 wraps to a small number in 64 bits.
    assert_eq!(DecodedImage::new(u32::MAX, u32::MAX, ColorModel::Rgba8, vec![0; 4]), None);
    assert_eq!(DecodedImage::new(u32::MAX, u32::MAX, ColorModel::Rgba32F, vec![0; 16]), None);
}

#[test]
fn raster_is_checked_in_order() {
    let raster = |width, height, channels, bytes_per_pixel, length: usize| Raster {
        width,
        height,
        channels,
        bytes_per_pixel,
        pixels: vec![0; length],
    };
    assert_eq!(
        decode_failure(DecodedImage::from_raster(raster(0, 0, 3, 5, 1))),
        "unsupported color model"
    );
    assert_eq!(
        decode_failure(DecodedImage::from_raster(raster(0, 2, 3, 3, 1))),
        "image has no pixels"
    );
    assert_eq!(
        decode_failure(DecodedImage::from_raster(raster(2, 2, 3, 3, 11))),
        "pixel buffer does not match the image dimensions"
    );
    let image = DecodedImage::from_raster(raster(2, 2, 3, 3, 12)).unwrap();
    assert_eq!(image, DecodedImage::new(2, 2, ColorModel::Rgb8, vec![0; 12]).unwrap());
}

#[test]
fn decoder_error_becomes_decode_failure() {
    assert_eq!(
        settle_decode(Err("broken".to_string())),
        Err(Failure::DecodeFailed { reason: "broken".to_string() })
    );
}

#[test]
fn png_decodes_to_its_pixels() {
    let source = gradient(13, 7);
    let bytes = encoded(&DynamicImage::ImageRgb8(source.clone()), ImageFormat::Png);
    let image = decode(&bytes, Codec::Png).unwrap();
    assert_eq!(image.width(), 13);
    assert_eq!(image.height(), 7);
    assert_eq!(image.color(), ColorModel::Rgb8);
    assert_eq!(image.pixels(), &source.into_raw());
    assert_ne!(image.pixels(), &bytes);
}

#[test]
fn png_with_alpha_decodes_to_four_channels() {
    let source = RgbaImage::from_fn(5, 4, |x, y| Rgba([x as u8, y as u8, 9, (x * y) as u8]));
    let bytes = encoded(&DynamicImage::ImageRgba8(source.clone()), ImageFormat::Png);
    let image = decode(&bytes, Codec::Png).unwrap();
    assert_eq!(image.color(), ColorModel::Rgba8);
    assert_eq!(image.pixels().len(), 5 * 4 * 4);
    assert_eq!(image.pixels(), &source.into_raw());
}

#[test]
fn gray_png_decodes_to_one_channel() {
    let source = GrayImage::from_fn(6, 6, |x, y| Luma([(x * 6 + y) as u8]));
    let bytes = encoded(&DynamicImage::ImageLuma8(source.clone()), ImageFormat::Png);
    let image = decode(&bytes, Codec::Png).unwrap();
    assert_eq!(image.color(), ColorModel::L8);
    assert_eq!(image.pixels(), &source.into_raw());
}

#[test]
fn sixteen_bit_png_decodes_to_two_bytes_a_sample() {
    let source = DynamicImage::ImageRgb8(gradient(4, 4)).into_rgb16();
    let bytes = encoded(&DynamicImage::ImageRgb16(source), ImageFormat::Png);
    let image = decode(&bytes, Codec::Png).unwrap();
    assert_eq!(image.color(), ColorModel::Rgb16);
    assert_eq!(image.pixels().len(), 4 * 4 * 6);
}

#[test]
fn jpeg_decodes_to_its_dimensions() {
    let bytes = encoded(&DynamicImage::ImageRgb8(gradient(24, 16)), ImageFormat::Jpeg);
    let image = decode(&bytes, Codec::Jpeg).unwrap();
    assert_eq!((image.width(), image.height()), (24, 16));
    assert_eq!(image.color(), ColorModel::Rgb8);
    assert_eq!(image.pixels().len(), 24 * 16 * 3);
}

#[test]
fn webp_decodes_to_its_pixels() {
    let source = gradient(10, 9);
    let bytes = encoded(&DynamicImage::ImageRgb8(source.clone()), ImageFormat::WebP);
    let image = decode(&bytes, Codec::WebP).unwrap();
    assert_eq!((image.width(), image.height()), (10, 9));
    assert_eq!(image.color(), ColorModel::Rgb8);
    assert_eq!(image.pixels(), &source.into_raw());
}

#[test]
fn truncated_png_fails_to_decode() {
    let bytes = encoded(&DynamicImage::ImageRgb8(gradient(40, 40)), ImageFormat::Png);
    let cut = &bytes[..bytes.len() / 2];
    let reason = decode_failure(decode(cut, Codec::Png));
    assert!(!reason.is_empty());
    let reason = decode_failure(decode(&bytes[..8], Codec::Png));
    assert!(!reason.is_empty());
}

#[test]
fn stream_of_another_format_fails_to_decode() {
    let bytes = encoded(&DynamicImage::ImageRgb8(gradient(8, 8)), ImageFormat::Png);
    decode_failure(decode(&bytes, Codec::Jpeg));
    decode_failure(decode(&bytes, Codec::WebP));
    decode_failure(decode(b"", Codec::Png));
}
