//! Core logic of a video encoding library built on FFmpeg: tag packing,
//! library version formatting, subtitle payloads, muxer and codec option
//! presets, encoder settings and the encoder's bookkeeping.
use vstd::prelude::*;

pub mod bytes;
pub mod encode;
pub mod error;
pub mod license;
pub mod options;
pub mod subtitle;
pub mod time;
pub mod tx3g;

pub use encode::{Encoder, EncoderBuilder, Settings};
pub use error::Error;
pub use license::{ffmpeg_libraries, LibraryInfo};
pub use options::{CodecOptions, MuxerOptions, Options, ReaderOptions};
pub use subtitle::{SubtitleCue, SubtitleFormat};
pub use time::Time;

verus! {

/// The value of a FourCC tag made of the bytes `a`, `b`, `c`, `d`: `a` is
/// the least significant byte, `d` the most significant one.
pub open spec fn spec_fourcc(a: u8, b: u8, c: u8, d: u8) -> int {
    a + 0x100 * b + 0x1_0000 * c + 0x100_0000 * d
}

/// Create a FourCC tag from four bytes, as FFmpeg's `MKTAG` macro does.
///
/// The four bytes are laid out little-endian in the resulting `u32`: `a`
/// becomes the least significant byte and `d` the most significant one.
pub fn mktag(a: u8, b: u8, c: u8, d: u8) -> (tag: u32)
    ensures
        tag == spec_fourcc(a, b, c, d),
{
    let tag = (a as u32) | ((b as u32) << 8) | ((c as u32) << 16) | ((d as u32) << 24);
    assert(tag == (a as u32) | ((b as u32) << 8) | ((c as u32) << 16) | ((d as u32) << 24)
        ==> tag == a + 0x100 * b + 0x1_0000 * c + 0x100_0000 * d) by (bit_vector);
    tag
}

/// The four bytes of a FourCC tag read back, least significant first, as
/// the bytes it was made of; so distinct byte quadruples give distinct tags.
pub proof fn lemma_fourcc_bytes(a: u8, b: u8, c: u8, d: u8)
    ensures
        spec_fourcc(a, b, c, d) % 0x100 == a,
        (spec_fourcc(a, b, c, d) / 0x100) % 0x100 == b,
        (spec_fourcc(a, b, c, d) / 0x1_0000) % 0x100 == c,
        spec_fourcc(a, b, c, d) / 0x100_0000 == d,
        0 <= spec_fourcc(a, b, c, d) <= u32::MAX,
{
    let t = spec_fourcc(a, b, c, d);
    assert(t == a + 0x100 * (b + 0x100 * (c + 0x100 * d)));
    assert(t % 0x100 == a && t / 0x100 == b + 0x100 * (c + 0x100 * d)) by (nonlinear_arith)
        requires
            t == a + 0x100 * (b + 0x100 * (c + 0x100 * d)),
            0 <= a < 0x100,
            0 <= b,
            0 <= c,
            0 <= d,
    ;
    let t1 = b + 0x100 * (c + 0x100 * d);
    assert(t1 % 0x100 == b && t1 / 0x100 == c + 0x100 * d) by (nonlinear_arith)
        requires
            t1 == b + 0x100 * (c + 0x100 * d),
            0 <= b < 0x100,
            0 <= c,
            0 <= d,
    ;
    let t2 = c + 0x100 * d;
    assert(t2 % 0x100 == c && t2 / 0x100 == d) by (nonlinear_arith)
        requires
            t2 == c + 0x100 * d,
            0 <= c < 0x100,
            0 <= d,
    ;
    assert(t / 0x1_0000 == t1 / 0x100) by (nonlinear_arith)
        requires
            t / 0x100 == t1,
            t >= 0,
    ;
    assert(t / 0x100_0000 == t2 / 0x100) by (nonlinear_arith)
        requires
            t / 0x1_0000 == t2,
            t >= 0,
    ;
}

/// Two FourCC tags are equal only when they are made of the same bytes.
pub proof fn lemma_fourcc_injective(a: u8, b: u8, c: u8, d: u8, e: u8, f: u8, g: u8, h: u8)
    requires
        spec_fourcc(a, b, c, d) == spec_fourcc(e, f, g, h),
    ensures
        a == e && b == f && c == g && d == h,
{
    lemma_fourcc_bytes(a, b, c, d);
    lemma_fourcc_bytes(e, f, g, h);
}

} // verus!
