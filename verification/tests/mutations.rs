use std::io::Cursor;

use image::{DynamicImage, GrayImage, ImageFormat, Luma, Rgb, RgbImage, Rgba, RgbaImage};
use imgcompress::chunks::chunks_are_sound;
use imgcompress::encode::optimize_png;
use imgcompress::outcome::Failure;

const REFUSAL: &str = "PNG stream holds a chunk that the optimizer cannot read";

fn checksum(bytes: &[u8]) -> u32 {
    let mut crc: u32 = 0xffff_ffff;
    for byte in bytes {
        crc ^= *byte as u32;
        for _ in 0..8 {
            crc = if crc & 1 == 1 { (crc >> 1) ^ 0xedb8_8320 } else { crc >> 1 };
        }
    }
    !crc
}

fn chunk_of(name: &[u8], data: &[u8]) -> Vec<u8> {
    let mut bytes = (data.len() as u32).to_be_bytes().to_vec();
    bytes.extend_from_slice(name);
    bytes.extend_from_slice(data);
    let mut checked = name.to_vec();
    checked.extend_from_slice(data);
    bytes.extend_from_slice(&checksum(&checked).to_be_bytes());
    bytes
}

fn png_of(picture: DynamicImage) -> Vec<u8> {
    let mut bytes = Vec::new();
    picture.write_to(&mut Cursor::new(&mut bytes), ImageFormat::Png).unwrap();
    bytes
}

fn chunks_of(stream: &[u8]) -> Vec<Vec<u8>> {
    let mut chunks = Vec::new();
    let mut at = 8;
    while at + 12 <= stream.len() {
        let length =
            u32::from_be_bytes([stream[at], stream[at + 1], stream[at + 2], stream[at + 3]]) as usize;
        chunks.push(stream[at..at + 12 + length].to_vec());
        at += 12 + length;
    }
    chunks
}

struct Shuffle(u64);

impl Shuffle {
    fn below(&mut self, bound: usize) -> usize {
        self.0 ^= self.0 << 13;
        self.0 ^= self.0 >> 7;
        self.0 ^= self.0 << 17;
        (self.0 % bound as u64) as usize
    }

    fn byte(&mut self) -> u8 {
        match self.below(3) {
            0 => 0,
            1 => [1u8, 2, 3, 4, 6, 8, 16][self.below(7)],
            _ => self.below(256) as u8,
        }
    }
}

fn sources() -> Vec<Vec<u8>> {
    let plain = vec![
        png_of(DynamicImage::ImageRgb8(RgbImage::from_fn(9, 7, |x, y| Rgb([x as u8, y as u8, 3])))),
        png_of(DynamicImage::ImageRgba8(RgbaImage::from_fn(5, 5, |x, y| {
            Rgba([x as u8, y as u8, 3, (x * 40) as u8])
        }))),
        png_of(DynamicImage::ImageLuma8(GrayImage::from_fn(1, 1, |_, _| Luma([7])))),
        png_of(DynamicImage::ImageLuma8(GrayImage::from_fn(16, 2, |x, _| Luma([(x % 2 * 255) as u8])))),
        png_of(DynamicImage::ImageRgb8(RgbImage::from_fn(12, 10, |x, y| {
            Rgb([((x / 4) * 80) as u8, ((y / 5) * 90) as u8, 3])
        }))),
        png_of(
            DynamicImage::ImageRgb8(RgbImage::from_fn(3, 3, |x, y| Rgb([x as u8, y as u8, 3])))
                .into_rgb16()
                .into(),
        ),
    ];
    let mut woven = oxipng::Options::default();
    woven.interlace = Some(oxipng::Interlacing::Adam7);
    woven.force = true;
    let mut all = Vec::new();
    for stream in plain {
        all.push(oxipng::optimize_from_memory(&stream, &woven).unwrap());
        all.push(optimize_png(&stream, Some(2)).unwrap());
        all.push(stream);
    }
    all
}

/// A stream made of the chunks of a source with some of them altered,
/// replaced or joined by others, every checksum set right.
fn mutated(sources: &[Vec<u8>], shuffle: &mut Shuffle) -> Vec<u8> {
    let names: Vec<&[u8]> = vec![
        b"tRNS", b"PLTE", b"iCCP", b"sRGB", b"bKGD", b"caBX", b"acTL", b"fcTL", b"fdAT", b"IHDR",
        b"hIST", b"sBIT", b"gAMA", b"tEXt", b"IDAT", b"pHYs",
    ];
    let source = &sources[shuffle.below(sources.len())];
    let mut chunks = chunks_of(source);
    for _ in 0..shuffle.below(3) {
        let at = shuffle.below(chunks.len());
        let length = chunks[at].len() - 12;
        if length == 0 {
            continue;
        }
        let name = chunks[at][4..8].to_vec();
        let mut data = chunks[at][8..8 + length].to_vec();
        for _ in 0..1 + shuffle.below(3) {
            let index = shuffle.below(length);
            data[index] = shuffle.byte();
        }
        chunks[at] = chunk_of(&name, &data);
    }
    for _ in 0..shuffle.below(3) {
        let name = names[shuffle.below(names.len())];
        let length = match shuffle.below(4) {
            0 => shuffle.below(5),
            1 => shuffle.below(30),
            2 => 13,
            _ => 26,
        };
        let data: Vec<u8> = (0..length).map(|_| shuffle.byte()).collect();
        let made = chunk_of(name, &data);
        let at = shuffle.below(chunks.len());
        if shuffle.below(2) == 0 {
            chunks.insert(at, made);
        } else {
            chunks[at] = made;
        }
    }
    let mut stream = source[..8].to_vec();
    for chunk in &chunks {
        stream.extend_from_slice(chunk);
    }
    stream
}

#[test]
fn mutated_streams_are_optimized_or_refused_and_never_more() {
    let sources = sources();
    let mut shuffle = Shuffle(0x0bad_cafe_1357_9bdf);
    let (mut optimized, mut refused, mut failed) = (0, 0, 0);
    for _ in 0..3000 {
        let stream = mutated(&sources, &mut shuffle);
        let preset = [None, Some(1u8), Some(3)][shuffle.below(3)];
        let sound = chunks_are_sound(&stream);
        match optimize_png(&stream, preset) {
            Ok(found) => {
                assert!(sound);
                assert!(found == stream || found.len() < stream.len());
                assert_eq!(&found[..8], &stream[..8]);
                optimized += 1;
            }
            Err(Failure::EncodeFailed { reason }) => {
                assert_eq!(reason == REFUSAL, !sound);
                if sound {
                    failed += 1;
                } else {
                    refused += 1;
                }
            }
            other => panic!("{:?}", other),
        }
    }
    assert!(optimized > 300 && refused > 300 && failed > 300, "{} {} {}", optimized, refused, failed);
}
