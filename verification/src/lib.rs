//! A benchmark of LZW decoding: one stream is decoded into a scratch
//! buffer over and over, and each pass is reported as one line of text with
//! its count of iterations, its time per iteration and its throughput.
//!
//! `decode` drains one stream, `bench` runs one pass against the clock, and
//! `report` holds the arithmetic and the text of a line. The decoder itself
//! is that of the `lzw` crate, behind `codec`.

pub mod codec;
pub mod clock;
pub mod decode;
pub mod text;
pub mod report;
pub mod bench;
