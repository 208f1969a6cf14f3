use std::io::Cursor;

use image::codecs::jpeg::JpegEncoder;
use image::codecs::png::{CompressionType, FilterType, PngEncoder};
use image::{DynamicImage, ExtendedColorType, ImageEncoder, ImageFormat, Rgb, RgbImage};
use imgcompress::outcome::{CompressionOutcome, Failure, MAX_UPLOAD_SIZE};
use imgcompress::pipeline::{compress, compressed_image};
use imgcompress::request::CompressionRequest;

fn noise(width: u32, height: u32) -> RgbImage {
    let mut state: u32 = 987;
    RgbImage::from_fn(width, height, |x, y| {
        state = state.wrapping_mul(1_664_525).wrapping_add(1_013_904_223);
        let grain = (state >> 24) as u8 / 2;
        Rgb([(x * 3) as u8 ^ grain, (y * 2) as u8 ^ grain, ((x + y) as u8).wrapping_add(grain)])
    })
}

fn loose_png(picture: &RgbImage) -> Vec<u8> {
    let mut bytes = Vec::new();
    PngEncoder::new_with_quality(&mut bytes, CompressionType::Fast, FilterType::NoFilter)
        .write_image(picture.as_raw(), picture.width(), picture.height(), ExtendedColorType::Rgb8)
        .unwrap();
    bytes
}

fn fine_jpeg(picture: &RgbImage) -> Vec<u8> {
    let mut bytes = Vec::new();
    JpegEncoder::new_with_quality(&mut bytes, 100).encode_image(picture).unwrap();
    bytes
}

fn lossless_webp(picture: &RgbImage) -> Vec<u8> {
    let mut bytes = Vec::new();
    DynamicImage::ImageRgb8(picture.clone())
        .write_to(&mut Cursor::new(&mut bytes), ImageFormat::WebP)
        .unwrap();
    bytes
}

fn request(quality: u8, preset: Option<u8>) -> CompressionRequest {
    CompressionRequest::new(quality, preset).unwrap()
}

fn compressed(outcome: CompressionOutcome) -> Vec<u8> {
    match outcome {
        CompressionOutcome::Compressed { bytes, size } => {
            assert_eq!(bytes.len(), size);
            bytes
        }
        other => panic!("{:?}", other),
    }
}

#[test]
fn gif_is_unsupported_whatever_is_asked() {
    let gif: &[u8] = b"GIF89a\x01\x00\x01\x00\x80\x00\x00\x00\x00\x00\xff\xff\xff,\x00\x00\x00\x00\x01\x00\x01\x00\x00\x02\x02D\x01\x00;";
    for quality in [1u8, 70, 100] {
        for preset in [None, Some(1u8), Some(6)] {
            for size in [0usize, gif.len(), 10_000_000] {
                assert_eq!(
                    compress(gif, size, request(quality, preset)),
                    CompressionOutcome::UnsupportedFormat
                );
            }
        }
    }
}

#[test]
fn gif_signature_alone_is_unsupported() {
    assert_eq!(
        compress(b"GIF87a", 6, CompressionRequest::default()),
        CompressionOutcome::UnsupportedFormat
    );
    assert_eq!(
        compressed_image(b"GIF89a and nothing of a gif", CompressionRequest::default()),
        Err(Failure::UnsupportedFormat)
    );
}

#[test]
fn other_image_formats_are_unsupported() {
    assert_eq!(
        compress(b"BM\x00\x00\x00\x00", 6, CompressionRequest::default()),
        CompressionOutcome::UnsupportedFormat
    );
    assert_eq!(
        compress(b"II*\x00\x08\x00\x00\x00", 8, CompressionRequest::default()),
        CompressionOutcome::UnsupportedFormat
    );
}

#[test]
fn unknown_bytes_fail_as_an_unrecognized_format() {
    assert_eq!(
        compress(b"hello, world", 12, CompressionRequest::default()),
        CompressionOutcome::DecodeFailed { reason: "format unrecognized".to_string() }
    );
    assert_eq!(
        compress(b"", 0, CompressionRequest::default()),
        CompressionOutcome::DecodeFailed { reason: "format unrecognized".to_string() }
    );
    assert_eq!(
        compressed_image(b"hello, world", CompressionRequest::default()),
        Err(Failure::UnrecognizedFormat)
    );
}

#[test]
fn truncated_png_fails_to_decode_and_returns_no_bytes() {
    let whole = loose_png(&noise(40, 40));
    for keep in [8usize, 20, whole.len() / 2, whole.len() - 20] {
        let cut = &whole[..keep];
        match compress(cut, cut.len(), CompressionRequest::default()) {
            CompressionOutcome::DecodeFailed { reason } => {
                assert!(!reason.is_empty());
                assert_ne!(reason, "format unrecognized");
            }
            other => panic!("{:?}", other),
        }
        match compressed_image(cut, CompressionRequest::default()) {
            Err(Failure::DecodeFailed { .. }) => {}
            other => panic!("{:?}", other),
        }
    }
}

#[test]
fn corrupt_jpeg_fails_to_decode() {
    let whole = fine_jpeg(&noise(32, 32));
    match compress(&whole[..40], 40, CompressionRequest::default()) {
        CompressionOutcome::DecodeFailed { reason } => assert!(!reason.is_empty()),
        other => panic!("{:?}", other),
    }
}

#[test]
fn large_jpeg_at_quality_seventy_is_compressed() {
    let picture = noise(320, 240);
    let source = fine_jpeg(&picture);
    let bytes = compressed(compress(&source, source.len(), request(70, None)));
    assert!(bytes.len() < source.len());
    assert_eq!(image::guess_format(&bytes).unwrap(), ImageFormat::Jpeg);
    let again = image::load_from_memory(&bytes).unwrap();
    assert_eq!((again.width(), again.height()), (320, 240));
}

#[test]
fn ten_megabyte_jpeg_at_quality_seventy_is_compressed() {
    let mut state: u32 = 4242;
    let picture = RgbImage::from_fn(1880, 1440, |x, y| {
        state = state.wrapping_mul(1_664_525).wrapping_add(1_013_904_223);
        let grain = (state >> 24) as u8;
        Rgb([(x / 8) as u8 ^ grain, (y / 8) as u8 ^ grain, ((x + y) as u8).wrapping_add(grain)])
    });
    let source = fine_jpeg(&picture);
    assert!(source.len() >= 10_000_000, "{}", source.len());
    let bytes = compressed(compress(&source, source.len(), request(70, None)));
    assert!(bytes.len() < MAX_UPLOAD_SIZE);
    assert!(bytes.len() < source.len());
    assert_eq!(image::guess_format(&bytes).unwrap(), ImageFormat::Jpeg);
    let again = image::load_from_memory(&bytes).unwrap();
    assert_eq!((again.width(), again.height()), (1880, 1440));
}

#[test]
fn loose_png_is_compressed_without_losing_a_pixel() {
    let picture = noise(64, 64);
    let source = loose_png(&picture);
    let bytes = compressed(compress(&source, source.len(), CompressionRequest::default()));
    assert!(bytes.len() < source.len());
    assert_eq!(image::guess_format(&bytes).unwrap(), ImageFormat::Png);
    assert_eq!(image::load_from_memory(&bytes).unwrap().into_rgb8(), picture);
}

#[test]
fn png_that_cannot_shrink_is_no_improvement() {
    let source = loose_png(&noise(64, 64));
    let best = compressed(compress(&source, source.len(), request(70, Some(3))));
    assert_eq!(
        compress(&best, best.len(), request(70, Some(3))),
        CompressionOutcome::NoImprovement
    );
    assert_eq!(compressed_image(&best, request(70, Some(3))), Ok(best));
}

#[test]
fn lossless_webp_is_compressed_to_a_lossy_one() {
    let picture = noise(128, 128);
    let source = lossless_webp(&picture);
    let bytes = compressed(compress(&source, source.len(), request(50, None)));
    assert!(bytes.len() < source.len());
    assert_eq!(image::guess_format(&bytes).unwrap(), ImageFormat::WebP);
    let again = image::load_from_memory(&bytes).unwrap();
    assert_eq!((again.width(), again.height()), (128, 128));
}

#[test]
fn result_that_is_not_smaller_than_declared_is_no_improvement() {
    let source = fine_jpeg(&noise(64, 64));
    let stream = compressed_image(&source, request(70, None)).unwrap();
    assert_eq!(
        compress(&source, stream.len(), request(70, None)),
        CompressionOutcome::NoImprovement
    );
    assert_eq!(compress(&source, 0, request(70, None)), CompressionOutcome::NoImprovement);
    assert_eq!(
        compress(&source, stream.len() + 1, request(70, None)),
        CompressionOutcome::Compressed { size: stream.len(), bytes: stream }
    );
}

#[test]
fn result_announces_the_format_of_the_input() {
    let picture = noise(48, 48);
    for source in [loose_png(&picture), fine_jpeg(&picture), lossless_webp(&picture)] {
        for quality in [1u8, 60, 100] {
            let stream = compressed_image(&source, request(quality, Some(2))).unwrap();
            assert_eq!(image::guess_format(&stream).unwrap(), image::guess_format(&source).unwrap());
            let again = image::load_from_memory(&stream).unwrap();
            assert_eq!((again.width(), again.height()), (48, 48));
        }
    }
}

#[test]
fn png_does_not_read_the_quality() {
    let source = loose_png(&noise(32, 32));
    let low = compress(&source, source.len(), request(1, Some(2)));
    let high = compress(&source, source.len(), request(100, Some(2)));
    assert_eq!(low, high);
}

#[test]
fn lossy_formats_do_not_read_the_preset() {
    let jpeg = fine_jpeg(&noise(32, 32));
    assert_eq!(
        compress(&jpeg, jpeg.len(), request(40, None)),
        compress(&jpeg, jpeg.len(), request(40, Some(6)))
    );
    let webp = lossless_webp(&noise(32, 32));
    assert_eq!(
        compress(&webp, webp.len(), request(40, Some(1))),
        compress(&webp, webp.len(), request(40, Some(5)))
    );
}

#[test]
fn lower_quality_never_gives_a_larger_jpeg() {
    let source = fine_jpeg(&noise(96, 96));
    let mut last = 0usize;
    for quality in [5u8, 25, 45, 65, 85, 100] {
        let size = compressed_image(&source, request(quality, None)).unwrap().len();
        assert!(last <= size);
        last = size;
    }
}

#[test]
fn gray_jpeg_is_refused_by_the_jpeg_strategy() {
    let gray = DynamicImage::ImageRgb8(noise(16, 16)).into_luma8();
    let mut source = Vec::new();
    JpegEncoder::new_with_quality(&mut source, 90).encode_image(&gray).unwrap();
    assert_eq!(
        compress(&source, source.len(), CompressionRequest::default()),
        CompressionOutcome::EncodeFailed { reason: "JPEG needs 8-bit RGB pixels".to_string() }
    );
}
