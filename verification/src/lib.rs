//! Re-encodes an image held in memory so that it takes fewer bytes, and says
//! whether the result is worth sending under a fixed upload ceiling.
//!
//! A run goes through four stages. `format` tells the encoded format from
//! the buffer's leading bytes; `decode` turns the buffer into pixels;
//! `encode` holds the three strategies, lossless re-optimization for PNG and
//! re-encoding under a quality for JPEG and WebP, with `chunks` to tell the
//! PNG streams that the optimizer can be handed; `outcome` classifies what
//! was produced against the input's size and the ceiling. `pipeline` runs the
//! stages in one go and `stage` one at a time. `request` holds the settings of
//! a run, and `command` the chat command that is built on all of it, with
//! `text` for the numbers in its answers.
//!
//! Decoding and encoding are done by the `image`, `oxipng`, `mozjpeg` and
//! `webp` crates. Each call into them stands in one private function whose
//! contract is taken on trust; everything around those calls is verified.

pub mod chunks;
pub mod command;
pub mod decode;
pub mod encode;
pub mod format;
pub mod outcome;
pub mod pipeline;
pub mod request;
pub mod stage;
pub mod text;
