//! Encoder settings and the encoder's bookkeeping.
//!
//! The encoding work itself (scaling, encoding and muxing) is FFmpeg's. What
//! stands here is what the encoder decides around that work: which settings it
//! uses, which frames it accepts, when the container header and trailer are
//! due, which frames become keyframes, how long it drains the codec, and what
//! the packets of its subtitle track hold.
use vstd::prelude::*;

use std::collections::HashMap;

use crate::error::Error;
use crate::options::{spec_codec_h264, spec_codec_h264_realtime, CodecOptions, MuxerOptions};
use crate::subtitle::{
    lemma_packet_data_reads_back, spec_subtitle_packet_data, subtitle_packet_data, SubtitleCue, SubtitleEncoderState, SubtitleFormat,
};
use crate::time::{spec_before, spec_time_add, spec_time_sub, Rational, Time};
use vstd::utf8::encode_utf8;

verus! {

// =============================================================================
// Settings
// =============================================================================
/// A pixel format, known by its FFmpeg name (e.g. "rgb24", "yuv420p").
#[derive(Clone, Debug)]
pub struct PixelFormat {
    /// The format's name, as FFmpeg's pixel format descriptors give it.
    pub name: String,
}

impl View for PixelFormat {
    type V = Seq<char>;

    open spec fn view(&self) -> Seq<char> {
        self.name@
    }
}

impl PixelFormat {
    /// The pixel format named `name`.
    pub fn named(name: &str) -> (format: PixelFormat)
        ensures
            format@ == name@,
    {
        PixelFormat { name: String::from_str(name) }
    }

    /// Packed RGB 8:8:8, 24 bits per pixel.
    pub fn rgb24() -> (format: PixelFormat)
        ensures
            format@ == "rgb24"@,
    {
        PixelFormat::named("rgb24")
    }

    /// Planar YUV 4:2:0, 12 bits per pixel.
    pub fn yuv420p() -> (format: PixelFormat)
        ensures
            format@ == "yuv420p"@,
    {
        PixelFormat::named("yuv420p")
    }

    /// Whether `self` and `other` are the same format.
    pub fn same_as(&self, other: &PixelFormat) -> (same: bool)
        ensures
            same == (self@ == other@),
    {
        self.name == other.name
    }
}

/// The flags of a software scaler, as FFmpeg's `SWS_*` bits.
#[derive(Clone, Copy, Debug, PartialEq, Eq, Structural)]
pub struct ScalerFlags {
    /// The flag bits.
    pub bits: i32,
}

/// The bit of the fast bilinear scaling algorithm (`SWS_FAST_BILINEAR`).
pub const SWS_FAST_BILINEAR: i32 = 1;

impl ScalerFlags {
    /// Fast bilinear scaling.
    pub fn fast_bilinear() -> (flags: ScalerFlags)
        ensures
            flags.bits == SWS_FAST_BILINEAR,
    {
        ScalerFlags { bits: SWS_FAST_BILINEAR }
    }
}

/// An FFmpeg encoder, known by its name (e.g. "libx264").
#[derive(Clone, Debug)]
pub struct Codec {
    /// The encoder's name.
    pub name: String,
}

impl View for Codec {
    type V = Seq<char>;

    open spec fn view(&self) -> Seq<char> {
        self.name@
    }
}

impl Codec {
    /// The encoder named `name`.
    pub fn named(name: &str) -> (codec: Codec)
        ensures
            codec@ == name@,
    {
        Codec { name: String::from_str(name) }
    }
}

/// The view of an optional codec.
pub open spec fn codec_view(codec: Option<Codec>) -> Option<Seq<char>> {
    match codec {
        Some(c) => Some(c@),
        None => None,
    }
}

/// The codecs whose encoders the presets look up.
#[derive(Debug, Clone, Copy, PartialEq, Eq, Structural)]
pub enum CodecId {
    /// H.264 / AVC.
    H264,
    /// VP9.
    Vp9,
}

/// How a preset looks its encoder up: the encoder named `default_name`
/// where there is one, else the default encoder of codec `id`.
pub struct CodecLookup {
    /// The codec.
    pub id: CodecId,
    /// The name of the preferred encoder.
    pub default_name: String,
}

/// Default keyframe interval.
pub const KEY_FRAME_INTERVAL: u64 = 12;

/// This is the assumed FPS for the encoder to use. Note that this does not need to be correct
/// exactly.
pub const FRAME_RATE: i32 = 30;

/// Holds a logical combination of encoder settings.
#[derive(Clone, Debug)]
pub struct Settings {
    /// Width of the frames handed to the encoder.
    pub source_width: u32,
    /// Height of the frames handed to the encoder.
    pub source_height: u32,
    /// Pixel format of the frames handed to the encoder.
    pub source_format: PixelFormat,
    /// Flags of the scaler that converts source frames.
    pub scaler_flags: ScalerFlags,
    /// Width of the encoded frames.
    pub destination_width: u32,
    /// Height of the encoded frames.
    pub destination_height: u32,
    /// Pixel format of the encoded frames.
    pub destination_format: PixelFormat,
    /// The encoder to use, if one was found.
    pub codec: Option<Codec>,
    /// A keyframe is produced every this many frames.
    pub keyframe_interval: u64,
    /// The frame rate announced to the encoder.
    pub frame_rate: i32,
    /// Metadata of the output container.
    pub metadata: Option<HashMap<String, String>>,
    /// Options of the encoder.
    pub codec_options: CodecOptions,
}

/// The value of a [`Settings`]: its numbers, the names of its pixel formats
/// and codec, its metadata and its codec option assignments.
pub struct SettingsView {
    /// Width of the source frames.
    pub source_width: u32,
    /// Height of the source frames.
    pub source_height: u32,
    /// Name of the source pixel format.
    pub source_format: Seq<char>,
    /// Flags of the scaler.
    pub scaler_flags: ScalerFlags,
    /// Width of the encoded frames.
    pub destination_width: u32,
    /// Height of the encoded frames.
    pub destination_height: u32,
    /// Name of the encoded pixel format.
    pub destination_format: Seq<char>,
    /// Name of the encoder, if one was found.
    pub codec: Option<Seq<char>>,
    /// A keyframe is produced every this many frames.
    pub keyframe_interval: u64,
    /// The frame rate announced to the encoder.
    pub frame_rate: i32,
    /// Metadata of the output container.
    pub metadata: Option<HashMap<String, String>>,
    /// The codec option assignments, in order.
    pub codec_options: Seq<(Seq<char>, Seq<char>)>,
}

impl View for Settings {
    type V = SettingsView;

    open spec fn view(&self) -> SettingsView {
        SettingsView {
            source_width: self.source_width,
            source_height: self.source_height,
            source_format: self.source_format@,
            scaler_flags: self.scaler_flags,
            destination_width: self.destination_width,
            destination_height: self.destination_height,
            destination_format: self.destination_format@,
            codec: codec_view(self.codec),
            keyframe_interval: self.keyframe_interval,
            frame_rate: self.frame_rate,
            metadata: self.metadata,
            codec_options: self.codec_options@,
        }
    }
}

/// The settings of an encoder that takes `width` x `height` RGB24 frames and
/// encodes them, at the same size, in `pixel_format` with `codec` and
/// `codec_options`, with the default keyframe interval and frame rate.
pub open spec fn spec_rgb24_preset(
    width: usize,
    height: usize,
    pixel_format: Seq<char>,
    codec: Option<Seq<char>>,
    codec_options: Seq<(Seq<char>, Seq<char>)>,
    metadata: Option<HashMap<String, String>>,
) -> SettingsView {
    SettingsView {
        source_width: width as u32,
        source_height: height as u32,
        source_format: "rgb24"@,
        scaler_flags: ScalerFlags { bits: SWS_FAST_BILINEAR },
        destination_width: width as u32,
        destination_height: height as u32,
        destination_format: pixel_format,
        codec,
        keyframe_interval: KEY_FRAME_INTERVAL,
        frame_rate: FRAME_RATE,
        metadata,
        codec_options,
    }
}

/// The assignments that tune a VP9 encoder for real-time use: the realtime
/// deadline, row-based multithreading and the fastest speed setting.
pub open spec fn spec_vp9_realtime_tuning() -> Seq<(Seq<char>, Seq<char>)> {
    seq![("deadline"@, "realtime"@), ("row-mt"@, "1"@), ("cpu-used"@, "8"@)]
}

/// The codec option assignments of `options`, or none.
pub open spec fn options_or_default(options: Option<CodecOptions>) -> Seq<(Seq<char>, Seq<char>)> {
    match options {
        Some(o) => o@,
        None => Seq::empty(),
    }
}

impl Settings {
    /// Create encoder settings for an H264 stream with YUV420p pixel format. This will encode to
    /// arguably the most widely compatible video file since H264 is a common codec and YUV420p is
    /// the most commonly used pixel format.
    ///
    /// `codec` is the H264 encoder to use: what [`Settings::find_codec`] finds
    /// for [`Settings::h264_codec_lookup`], that is the encoder named "libx264"
    /// where there is one, else the default H264 encoder.
    pub fn preset_h264_yuv420p(
        width: usize,
        height: usize,
        realtime: bool,
        metadata: Option<HashMap<String, String>>,
        codec: Option<Codec>,
    ) -> (settings: Settings)
        ensures
            settings@ == spec_rgb24_preset(
                width,
                height,
                "yuv420p"@,
                codec_view(codec),
                if realtime {
                    spec_codec_h264_realtime()
                } else {
                    spec_codec_h264()
                },
                metadata,
            ),
    {
        let codec_options = if realtime {
            CodecOptions::preset_h264_realtime()
        } else {
            CodecOptions::preset_h264()
        };
        Self::new(
            width,
            height,
            PixelFormat::rgb24(),
            ScalerFlags::fast_bilinear(),
            width,
            height,
            PixelFormat::yuv420p(),
            KEY_FRAME_INTERVAL,
            FRAME_RATE,
            codec,
            codec_options,
            metadata,
        )
    }

    /// Create encoder settings for an H264 stream with a custom pixel format and options.
    /// This allows for greater flexibility in encoding settings, enabling specific requirements
    /// or optimizations to be set depending on the use case.
    ///
    /// # Arguments
    ///
    /// * `width` - The width of the video stream.
    /// * `height` - The height of the video stream.
    /// * `pixel_format` - The desired pixel format for the video stream.
    /// * `codec_options` - Custom H264 codec options.
    /// * `codec` - The H264 encoder to use (see [`Settings::preset_h264_yuv420p`]).
    pub fn preset_h264_custom(
        width: usize,
        height: usize,
        pixel_format: PixelFormat,
        codec_options: CodecOptions,
        metadata: Option<HashMap<String, String>>,
        codec: Option<Codec>,
    ) -> (settings: Settings)
        ensures
            settings@ == spec_rgb24_preset(
                width,
                height,
                pixel_format@,
                codec_view(codec),
                codec_options@,
                metadata,
            ),
    {
        Self::new(
            width,
            height,
            PixelFormat::rgb24(),
            ScalerFlags::fast_bilinear(),
            width,
            height,
            pixel_format,
            KEY_FRAME_INTERVAL,
            FRAME_RATE,
            codec,
            codec_options,
            metadata,
        )
    }

    /// Create encoder settings for a VP9 stream with YUV420p pixel format. This will encode to
    /// a widely supported video file that is not patent / licensing encumbered and YUV420p is
    /// the most commonly used pixel format.
    ///
    /// `codec` is the VP9 encoder to use: what [`Settings::find_codec`] finds
    /// for [`Settings::vp9_codec_lookup`], that is the encoder named
    /// "libvpx-vp9" where there is one, else the default VP9 encoder.
    pub fn preset_vp9_yuv420p(
        width: usize,
        height: usize,
        codec_options: Option<CodecOptions>,
        metadata: Option<HashMap<String, String>>,
        codec: Option<Codec>,
    ) -> (settings: Settings)
        ensures
            settings@ == spec_rgb24_preset(
                width,
                height,
                "yuv420p"@,
                codec_view(codec),
                options_or_default(codec_options),
                metadata,
            ),
    {
        let opts = match codec_options {
            Some(o) => o,
            None => CodecOptions::default(),
        };
        Self::new(
            width,
            height,
            PixelFormat::rgb24(),
            ScalerFlags::fast_bilinear(),
            width,
            height,
            PixelFormat::yuv420p(),
            KEY_FRAME_INTERVAL,
            FRAME_RATE,
            codec,
            opts,
            metadata,
        )
    }

    /// Create encoder settings for a VP9 stream with YUV420p pixel format, tuned for real-time
    /// encoding: the given codec options (or none) followed by the realtime deadline, row-based
    /// multithreading and the fastest speed setting.
    ///
    /// `codec` is the VP9 encoder to use (see [`Settings::preset_vp9_yuv420p`]).
    pub fn preset_vp9_yuv420p_realtime(
        width: usize,
        height: usize,
        codec_options: Option<CodecOptions>,
        metadata: Option<HashMap<String, String>>,
        codec: Option<Codec>,
    ) -> (settings: Settings)
        ensures
            settings@ == spec_rgb24_preset(
                width,
                height,
                "yuv420p"@,
                codec_view(codec),
                options_or_default(codec_options) + spec_vp9_realtime_tuning(),
                metadata,
            ),
    {
        let mut opts = match codec_options {
            Some(o) => o,
            None => CodecOptions::default(),
        };
        proof {
            reveal_strlit("deadline");
            reveal_strlit("realtime");
            reveal_strlit("row-mt");
            reveal_strlit("1");
            reveal_strlit("cpu-used");
            reveal_strlit("8");
        }
        opts.set("deadline", "realtime");
        opts.set("row-mt", "1");
        opts.set("cpu-used", "8");
        assert(opts@ =~= options_or_default(codec_options) + spec_vp9_realtime_tuning());
        Self::new(
            width,
            height,
            PixelFormat::rgb24(),
            ScalerFlags::fast_bilinear(),
            width,
            height,
            PixelFormat::yuv420p(),
            KEY_FRAME_INTERVAL,
            FRAME_RATE,
            codec,
            opts,
            metadata,
        )
    }

    /// Encoder settings made of the given values. The dimensions are kept to
    /// their low 32 bits.
    pub fn new(
        source_width: usize,
        source_height: usize,
        source_format: PixelFormat,
        scaler_flags: ScalerFlags,
        destination_width: usize,
        destination_height: usize,
        destination_format: PixelFormat,
        keyframe_interval: u64,
        frame_rate: i32,
        codec: Option<Codec>,
        codec_options: CodecOptions,
        metadata: Option<HashMap<String, String>>,
    ) -> (settings: Settings)
        ensures
            settings@ == (SettingsView {
                source_width: source_width as u32,
                source_height: source_height as u32,
                source_format: source_format@,
                scaler_flags,
                destination_width: destination_width as u32,
                destination_height: destination_height as u32,
                destination_format: destination_format@,
                codec: codec_view(codec),
                keyframe_interval,
                frame_rate,
                metadata,
                codec_options: codec_options@,
            }),
    {
        Settings {
            source_width: source_width as u32,
            source_height: source_height as u32,
            source_format,
            scaler_flags,
            destination_width: destination_width as u32,
            destination_height: destination_height as u32,
            destination_format,
            keyframe_interval,
            frame_rate,
            codec,
            metadata,
            codec_options,
        }
    }

    /// Set the keyframe interval.
    pub fn set_keyframe_interval(&mut self, keyframe_interval: u64)
        ensures
            final(self)@ == (SettingsView { keyframe_interval, ..old(self)@ }),
    {
        self.keyframe_interval = keyframe_interval;
    }

    /// Set the keyframe interval.
    pub fn with_keyframe_interval(self, keyframe_interval: u64) -> (settings: Self)
        ensures
            settings@ == (SettingsView { keyframe_interval, ..self@ }),
    {
        let mut settings = self;
        settings.set_keyframe_interval(keyframe_interval);
        settings
    }

    /// Encode at `destination_width` x `destination_height` (kept to their
    /// low 32 bits).
    pub fn resized_to(self, destination_width: usize, destination_height: usize) -> (settings:
        Self)
        ensures
            settings@ == (SettingsView {
                destination_width: destination_width as u32,
                destination_height: destination_height as u32,
                ..self@
            }),
    {
        let mut settings = self;
        settings.destination_width = destination_width as u32;
        settings.destination_height = destination_height as u32;
        settings
    }

    /// Whether source frames must go through a scaler: their pixel format or
    /// their dimensions differ from those of the encoded frames.
    pub fn scaler_needed(&self) -> (needed: bool)
        ensures
            needed == spec_scaler_needed(self@),
    {
        !self.source_format.same_as(&self.destination_format) || self.source_width
            != self.destination_width || self.source_height != self.destination_height
    }

    /// Get codec options.
    pub fn codec_options(&self) -> (options: &CodecOptions)
        ensures
            options@ == self.codec_options@,
    {
        &self.codec_options
    }
}

/// The frame-threading bit of FFmpeg's codec threading types (`FF_THREAD_FRAME`).
pub const THREAD_FRAME: i32 = 1;

/// The slice-threading bit of FFmpeg's codec threading types (`FF_THREAD_SLICE`).
pub const THREAD_SLICE: i32 = 2;

/// The denominator of FFmpeg's global time base (`AV_TIME_BASE`): microseconds.
pub const AV_TIME_BASE: i32 = 1_000_000;

/// The parameters with which the video codec is opened.
pub struct CodecParameters {
    /// Width of the encoded frames.
    pub width: u32,
    /// Height of the encoded frames.
    pub height: u32,
    /// Pixel format of the encoded frames.
    pub format: PixelFormat,
    /// Frame rate, as a fraction of frames per second.
    pub frame_rate: (i32, i32),
    /// Time base of the codec: FFmpeg's global one, precise enough that it
    /// never causes trouble.
    pub time_base: Rational,
    /// Whether the codec is to put its global headers in the extradata, as
    /// some container formats require to be playable.
    pub global_header: bool,
    /// Threading kind (bits of `THREAD_FRAME` and `THREAD_SLICE`).
    pub thread_kind: i32,
    /// Thread count; 0 lets FFmpeg choose.
    pub thread_count: usize,
}

impl Settings {
    /// The parameters with which the video codec is opened under these
    /// settings, for an output whose format `global_header` says needs
    /// global headers: the destination size and format, the frame rate
    /// `(frame_rate, 1)`, FFmpeg's global time base, and the threading kind
    /// `THREAD_SLICE & THREAD_FRAME` (which has no bit set) with a thread count
    /// left to FFmpeg.
    pub fn codec_parameters(&self, global_header: bool) -> (params: CodecParameters)
        ensures
            params.width == self.destination_width,
            params.height == self.destination_height,
            params.format@ == self.destination_format@,
            params.frame_rate == (self.frame_rate, 1i32),
            params.time_base == (Rational { num: 1, den: AV_TIME_BASE }),
            params.global_header == global_header,
            params.thread_kind == THREAD_SLICE & THREAD_FRAME,
            params.thread_kind == 0,
            params.thread_count == 0,
    {
        let thread_kind = THREAD_SLICE & THREAD_FRAME;
        assert(thread_kind == 0) by (bit_vector)
            requires
                thread_kind == 2i32 & 1i32,
        ;
        CodecParameters {
            width: self.destination_width,
            height: self.destination_height,
            format: PixelFormat::named(self.destination_format.name.as_str()),
            frame_rate: (self.frame_rate, 1),
            time_base: Rational::new(1, AV_TIME_BASE),
            global_header,
            thread_kind,
            thread_count: 0,
        }
    }

    /// How the H264 presets look their encoder up: "libx264", else the
    /// default H264 encoder.
    pub fn h264_codec_lookup() -> (lookup: CodecLookup)
        ensures
            lookup.id == CodecId::H264,
            lookup.default_name@ == "libx264"@,
    {
        CodecLookup { id: CodecId::H264, default_name: String::from_str("libx264") }
    }

    /// How the VP9 presets look their encoder up: "libvpx-vp9", else the
    /// default VP9 encoder.
    pub fn vp9_codec_lookup() -> (lookup: CodecLookup)
        ensures
            lookup.id == CodecId::Vp9,
            lookup.default_name@ == "libvpx-vp9"@,
    {
        CodecLookup { id: CodecId::Vp9, default_name: String::from_str("libvpx-vp9") }
    }

    /// The encoder to use, from what the lookups found: the encoder found by
    /// its default name, where a default name was looked up and found, else
    /// the default encoder of the codec.
    pub fn find_codec(found_by_name: Option<Codec>, found_by_id: Option<Codec>) -> (codec: Option<
        Codec,
    >)
        ensures
            codec == (if found_by_name is Some {
                found_by_name
            } else {
                found_by_id
            }),
    {
        match found_by_name {
            Some(codec) => Some(codec),
            None => found_by_id,
        }
    }
}

/// Whether frames under `settings` must be converted before encoding.
pub open spec fn spec_scaler_needed(settings: SettingsView) -> bool {
    ||| settings.source_format != settings.destination_format
    ||| settings.source_width != settings.destination_width
    ||| settings.source_height != settings.destination_height
}

/// The real-time VP9 preset differs from the plain VP9 preset only in its
/// codec options, which it extends with the real-time tuning.
pub proof fn lemma_vp9_realtime_extends_vp9(
    width: usize,
    height: usize,
    codec_options: Option<CodecOptions>,
    metadata: Option<HashMap<String, String>>,
    codec: Option<Codec>,
)
    ensures
        ({
            let plain = spec_rgb24_preset(
                width,
                height,
                "yuv420p"@,
                codec_view(codec),
                options_or_default(codec_options),
                metadata,
            );
            let realtime = spec_rgb24_preset(
                width,
                height,
                "yuv420p"@,
                codec_view(codec),
                options_or_default(codec_options) + spec_vp9_realtime_tuning(),
                metadata,
            );
            &&& realtime == (SettingsView {
                codec_options: plain.codec_options + spec_vp9_realtime_tuning(),
                ..plain
            })
            &&& realtime.codec_options.subrange(0, plain.codec_options.len() as int)
                == plain.codec_options
        }),
{
    let base = options_or_default(codec_options);
    assert((base + spec_vp9_realtime_tuning()).subrange(0, base.len() as int) =~= base);
}

/// The RGB24 presets convert every frame: they encode in another pixel format
/// than "rgb24", so they always need the scaler.
pub proof fn lemma_rgb24_preset_needs_scaler(
    width: usize,
    height: usize,
    pixel_format: Seq<char>,
    codec: Option<Seq<char>>,
    codec_options: Seq<(Seq<char>, Seq<char>)>,
    metadata: Option<HashMap<String, String>>,
)
    requires
        pixel_format != "rgb24"@,
    ensures
        spec_scaler_needed(
            spec_rgb24_preset(width, height, pixel_format, codec, codec_options, metadata),
        ),
        !spec_scaler_needed(
            spec_rgb24_preset(width, height, "rgb24"@, codec, codec_options, metadata),
        ),
{
}

/// The YUV420p presets (H264 and VP9) always need the scaler: their
/// source frames are RGB24.
pub proof fn lemma_yuv420p_presets_need_scaler(
    width: usize,
    height: usize,
    codec: Option<Seq<char>>,
    codec_options: Seq<(Seq<char>, Seq<char>)>,
    metadata: Option<HashMap<String, String>>,
)
    ensures
        spec_scaler_needed(
            spec_rgb24_preset(width, height, "yuv420p"@, codec, codec_options, metadata),
        ),
{
    reveal_strlit("yuv420p");
    reveal_strlit("rgb24");
    assert("yuv420p"@.len() != "rgb24"@.len());
    lemma_rgb24_preset_needs_scaler(width, height, "yuv420p"@, codec, codec_options, metadata);
}

// =============================================================================
// Encoder builder
// =============================================================================
/// The subtitle language of an encoder unless another is set: English.
pub open spec fn spec_default_subtitle_language() -> Seq<char> {
    "eng"@
}

/// Builds an encoder: where to, with which settings and options.
pub struct EncoderBuilder<'a> {
    /// Where to encode to: a file path or a URL.
    pub destination: String,
    /// Encoding settings.
    pub settings: Settings,
    /// Options of the container format, applied when its header is written.
    pub muxer_options: Option<&'a MuxerOptions>,
    /// Container format to use, where it is not to be guessed from the
    /// destination.
    pub format: Option<&'a str>,
    /// Whether packets are written interleaved.
    pub interleaved: bool,
    /// Format of the subtitle track, if there is one.
    pub subtitle_format: Option<SubtitleFormat>,
    /// Language of the subtitle track (ISO 639-2 code).
    pub subtitle_language: String,
}

impl<'a> EncoderBuilder<'a> {
    /// Create an encoder with the specified destination and settings: no muxer
    /// options, the format guessed from the destination, plain (not
    /// interleaved) writes, no subtitle track, and "eng" as the subtitle
    /// language.
    pub fn new(destination: String, settings: Settings) -> (builder: Self)
        ensures
            builder.destination == destination,
            builder.settings == settings,
            builder.muxer_options is None,
            builder.format is None,
            !builder.interleaved,
            builder.subtitle_format is None,
            builder.subtitle_language@ == spec_default_subtitle_language(),
    {
        EncoderBuilder {
            destination,
            settings,
            muxer_options: None,
            format: None,
            interleaved: false,
            subtitle_format: None,
            subtitle_language: String::from_str("eng"),
        }
    }

    /// Set the muxer options for the container format.
    pub fn with_muxer_options(self, options: &'a MuxerOptions) -> (builder: Self)
        ensures
            builder == (EncoderBuilder { muxer_options: Some(options), ..self }),
    {
        let mut builder = self;
        builder.muxer_options = Some(options);
        builder
    }

    /// Set the container format for the encoder.
    pub fn with_format(self, format: &'a str) -> (builder: Self)
        ensures
            builder == (EncoderBuilder { format: Some(format), ..self }),
    {
        let mut builder = self;
        builder.format = Some(format);
        builder
    }

    /// Set interleaved. This will cause the encoder to use interleaved write instead of normal
    /// write.
    pub fn interleaved(self) -> (builder: Self)
        ensures
            builder == (EncoderBuilder { interleaved: true, ..self }),
    {
        let mut builder = self;
        builder.interleaved = true;
        builder
    }

    /// Add a subtitle track with the specified format.
    pub fn with_subtitle_track(self, format: SubtitleFormat) -> (builder: Self)
        ensures
            builder == (EncoderBuilder { subtitle_format: Some(format), ..self }),
    {
        let mut builder = self;
        builder.subtitle_format = Some(format);
        builder
    }

    /// Set the language for the subtitle track (ISO 639-2 code, e.g., "eng", "spa", "fra").
    pub fn subtitle_language(self, language: String) -> (builder: Self)
        ensures
            builder == (EncoderBuilder { subtitle_language: language, ..self }),
    {
        let mut builder = self;
        builder.subtitle_language = language;
        builder
    }
}

// =============================================================================
// Encoder
// =============================================================================
/// Whether frame number `frame_count` (counting from zero) is a keyframe
/// when keyframes are produced every `keyframe_interval` frames: its number
/// is a multiple of the interval. With an interval of zero only the first
/// frame is one.
pub open spec fn spec_is_keyframe(frame_count: u64, keyframe_interval: u64) -> bool {
    if keyframe_interval == 0 {
        frame_count == 0
    } else {
        frame_count % keyframe_interval == 0
    }
}

/// The state of an encoder, as its methods describe it.
pub struct EncoderView {
    /// Index of the video stream in the output.
    pub writer_stream_index: usize,
    /// Time base of the encoder.
    pub encoder_time_base: Rational,
    /// A keyframe is produced every this many frames.
    pub keyframe_interval: u64,
    /// Whether packets are written interleaved.
    pub interleaved: bool,
    /// Width that frames must have.
    pub source_width: u32,
    /// Height that frames must have.
    pub source_height: u32,
    /// Pixel format that frames must have.
    pub source_format: Seq<char>,
    /// Number of frames handed to the codec so far.
    pub frame_count: u64,
    /// Whether the container header has been written.
    pub have_written_header: bool,
    /// Whether the trailer has been (or is being) written.
    pub have_written_trailer: bool,
    /// The subtitle track, if any.
    pub subtitle_state: Option<SubtitleEncoderState>,
}

/// The container header comes first: a trailer is only ever written, and a
/// frame only ever handed to the codec, after the header.
pub open spec fn encoder_wf(v: EncoderView) -> bool {
    &&& v.have_written_trailer ==> v.have_written_header
    &&& v.frame_count > 0 ==> v.have_written_header
}

/// The state after the header has been written.
pub open spec fn spec_after_header(v: EncoderView) -> EncoderView {
    EncoderView { have_written_header: true, ..v }
}

/// The state after a frame has been handed to the codec.
pub open spec fn spec_after_frame(v: EncoderView) -> EncoderView {
    EncoderView { frame_count: (v.frame_count + 1) as u64, ..v }
}

/// Whether finishing in state `v` has work to do: the header was written and
/// the trailer was not.
pub open spec fn spec_finish_has_work(v: EncoderView) -> bool {
    v.have_written_header && !v.have_written_trailer
}

/// The state after finishing in state `v`.
pub open spec fn spec_after_finish(v: EncoderView) -> EncoderView {
    if spec_finish_has_work(v) {
        EncoderView { have_written_trailer: true, ..v }
    } else {
        v
    }
}

/// Whether a frame of `width` x `height` in `format` fits an encoder in
/// state `v`.
pub open spec fn spec_frame_fits(v: EncoderView, width: u32, height: u32, format: Seq<char>) -> bool {
    width == v.source_width && height == v.source_height && format == v.source_format
}

/// A subtitle packet: its data, where it goes and the span it covers.
pub struct SubtitlePacket {
    /// The packet's data.
    pub data: Vec<u8>,
    /// Index of the subtitle stream.
    pub stream_index: usize,
    /// Time base of the packet's timestamps.
    pub time_base: Rational,
    /// When the packet's subtitle starts.
    pub start: Time,
    /// How long the packet's subtitle is shown.
    pub duration: Time,
}

/// Whether `packet` carries `data` on the track of `state`, from `start` for
/// `duration`.
pub open spec fn packet_is(
    packet: SubtitlePacket,
    state: SubtitleEncoderState,
    data: Seq<u8>,
    start: Time,
    duration: Time,
) -> bool {
    &&& packet.data@ == data
    &&& packet.stream_index == state.stream_index
    &&& packet.time_base == state.time_base
    &&& packet.start == start
    &&& packet.duration == duration
}

/// Whether a filler packet is due before `cue` on the track of `state`: the
/// last subtitle ended before `cue` starts, so there is a gap between them.
pub open spec fn spec_gap_before(state: SubtitleEncoderState, cue: SubtitleCue) -> bool {
    state.last_subtitle_end matches Some(end) && spec_before(end, cue.start)
}

/// The state after the subtitle `cue` was encoded: its track tracks the end
/// of `cue`, `cue.start + cue.duration`.
pub open spec fn spec_after_subtitle(v: EncoderView, cue: SubtitleCue) -> EncoderView {
    match v.subtitle_state {
        Some(state) => EncoderView {
            subtitle_state: Some(
                SubtitleEncoderState {
                    last_subtitle_end: Some(spec_time_add(cue.start, cue.duration)),
                    ..state
                },
            ),
            ..v
        },
        None => v,
    }
}

/// The bookkeeping of an encoder: which frames it accepts, when the
/// container header and trailer are due, which frames become keyframes and
/// what its subtitle packets hold.
///
/// The work itself is FFmpeg's and is done by the caller, who reports each
/// step back: [`Encoder::header_written`] once the header is written,
/// [`Encoder::frame_sent`] once a frame was handed to the codec.
pub struct Encoder {
    writer_stream_index: usize,
    encoder_time_base: Rational,
    keyframe_interval: u64,
    interleaved: bool,
    source_width: u32,
    source_height: u32,
    source_format: PixelFormat,
    frame_count: u64,
    have_written_header: bool,
    have_written_trailer: bool,
    subtitle_state: Option<SubtitleEncoderState>,
}

impl View for Encoder {
    type V = EncoderView;

    closed spec fn view(&self) -> EncoderView {
        EncoderView {
            writer_stream_index: self.writer_stream_index,
            encoder_time_base: self.encoder_time_base,
            keyframe_interval: self.keyframe_interval,
            interleaved: self.interleaved,
            source_width: self.source_width,
            source_height: self.source_height,
            source_format: self.source_format@,
            frame_count: self.frame_count,
            have_written_header: self.have_written_header,
            have_written_trailer: self.have_written_trailer,
            subtitle_state: self.subtitle_state,
        }
    }
}

impl Encoder {
    #[verifier::type_invariant]
    closed spec fn inv(self) -> bool {
        encoder_wf(self@)
    }

    /// The bookkeeping of a new encoder whose video stream has index
    /// `writer_stream_index` and whose codec was opened with time base
    /// `encoder_time_base`: it accepts frames as `settings` describes them
    /// and produces keyframes at their interval; it has written nothing yet.
    pub fn from_parts(
        settings: &Settings,
        writer_stream_index: usize,
        encoder_time_base: Rational,
        interleaved: bool,
        subtitle_state: Option<SubtitleEncoderState>,
    ) -> (encoder: Encoder)
        ensures
            encoder@ == (EncoderView {
                writer_stream_index,
                encoder_time_base,
                keyframe_interval: settings.keyframe_interval,
                interleaved,
                source_width: settings.source_width,
                source_height: settings.source_height,
                source_format: settings.source_format@,
                frame_count: 0,
                have_written_header: false,
                have_written_trailer: false,
                subtitle_state,
            }),
    {
        Encoder {
            writer_stream_index,
            encoder_time_base,
            keyframe_interval: settings.keyframe_interval,
            interleaved,
            source_width: settings.source_width,
            source_height: settings.source_height,
            source_format: PixelFormat::named(settings.source_format.name.as_str()),
            frame_count: 0,
            have_written_header: false,
            have_written_trailer: false,
            subtitle_state,
        }
    }

    /// Get encoder time base.
    pub fn time_base(&self) -> (time_base: Rational)
        ensures
            time_base == self@.encoder_time_base,
    {
        self.encoder_time_base
    }

    /// Index of the video stream in the output.
    pub fn writer_stream_index(&self) -> (index: usize)
        ensures
            index == self@.writer_stream_index,
    {
        self.writer_stream_index
    }

    /// Whether packets are written interleaved.
    pub fn interleaved(&self) -> (interleaved: bool)
        ensures
            interleaved == self@.interleaved,
    {
        self.interleaved
    }

    /// Number of frames handed to the codec so far.
    pub fn frame_count(&self) -> (count: u64)
        ensures
            count == self@.frame_count,
    {
        self.frame_count
    }

    /// Checks a raw frame of `width` x `height` in `format` before it is
    /// encoded: it must have the dimensions and pixel format the encoder was
    /// set up for.
    pub fn check_frame(&self, width: u32, height: u32, format: &PixelFormat) -> (r: Result<(), Error>)
        ensures
            r is Ok <==> spec_frame_fits(self@, width, height, format@),
            r is Ok <==> (width == self@.source_width && height == self@.source_height && format@
                == self@.source_format),
            r is Err ==> r == Err::<(), Error>(Error::InvalidFrameFormat),
    {
        if width != self.source_width || height != self.source_height || !format.same_as(
            &self.source_format,
        ) {
            return Err(Error::InvalidFrameFormat);
        }
        Ok(())
    }

    /// Checks the dimensions of an array frame in `HWC` layout before it is
    /// encoded: it must be as high and as wide as the encoder's frames and
    /// have 3 channels.
    pub fn check_frame_dims(&self, height: usize, width: usize, channels: usize) -> (r: Result<
        (),
        Error,
    >)
        ensures
            r is Ok <==> (height == self@.source_height && width == self@.source_width && channels
                == 3),
            r is Err ==> r == Err::<(), Error>(Error::InvalidFrameFormat),
    {
        if height != self.source_height as usize || width != self.source_width as usize
            || channels != 3 {
            return Err(Error::InvalidFrameFormat);
        }
        Ok(())
    }

    /// The plan for a raw frame of `width` x `height` in `format`: it must fit
    /// the encoder (else [`Error::InvalidFrameFormat`]); then the header is
    /// written if it has not been, the frame is scaled, marked as a keyframe
    /// where the cadence asks for one and handed to the codec
    /// ([`Encoder::frame_sent`]), and the codec is asked once for a packet
    /// ([`after_frame_received`]).
    pub fn begin_frame(&self, width: u32, height: u32, format: &PixelFormat) -> (r: Result<
        FramePlan,
        Error,
    >)
        ensures
            r is Ok <==> spec_frame_fits(self@, width, height, format@),
            r is Ok <==> (width == self@.source_width && height == self@.source_height && format@
                == self@.source_format),
            r is Err ==> r == Err::<FramePlan, Error>(Error::InvalidFrameFormat),
            r matches Ok(plan) ==> plan.write_header == !self@.have_written_header && plan.keyframe
                == spec_is_keyframe(self@.frame_count, self@.keyframe_interval),
    {
        match self.check_frame(width, height, format) {
            Err(e) => Err(e),
            Ok(()) => Ok(
                FramePlan {
                    write_header: self.needs_header(),
                    keyframe: self.next_frame_is_keyframe(),
                },
            ),
        }
    }

    /// Whether the container header still has to be written: it is written
    /// once, before the first frame or subtitle, or when asked for.
    pub fn needs_header(&self) -> (needed: bool)
        ensures
            needed == !self@.have_written_header,
    {
        !self.have_written_header
    }

    /// Records that the container header has been written.
    pub fn header_written(&mut self)
        ensures
            final(self)@ == spec_after_header(old(self)@),
    {
        proof {
            use_type_invariant(&*self);
        }
        self.have_written_header = true;
    }

    /// Whether the next frame handed to the codec is to be a keyframe: a
    /// keyframe is produced every `keyframe_interval` frames, starting with
    /// the first.
    pub fn next_frame_is_keyframe(&self) -> (keyframe: bool)
        ensures
            keyframe == spec_is_keyframe(self@.frame_count, self@.keyframe_interval),
    {
        if self.keyframe_interval == 0 {
            self.frame_count == 0
        } else {
            self.frame_count % self.keyframe_interval == 0
        }
    }

    /// Records that a frame has been handed to the codec, whether or not a
    /// packet came out of it. Frames are only handed over once the header is
    /// written.
    pub fn frame_sent(&mut self)
        requires
            old(self)@.have_written_header,
            old(self)@.frame_count < u64::MAX,
        ensures
            final(self)@ == spec_after_frame(old(self)@),
    {
        proof {
            use_type_invariant(&*self);
        }
        self.frame_count = self.frame_count + 1;
    }

    /// Signal to the encoder that writing has finished. Returns whether the
    /// codec is now to be flushed and the trailer written: that is the case
    /// once, and only where the header was written. The trailer counts as
    /// written from here on, whether or not the flush and the trailer succeed.
    pub fn finish(&mut self) -> (has_work: bool)
        ensures
            has_work == spec_finish_has_work(old(self)@),
            final(self)@ == spec_after_finish(old(self)@),
            has_work <==> (old(self)@.have_written_header && !old(self)@.have_written_trailer),
            final(self)@.have_written_trailer == (old(self)@.have_written_header
                || old(self)@.have_written_trailer),
            final(self)@.have_written_header == old(self)@.have_written_header,
            final(self)@.frame_count == old(self)@.frame_count,
    {
        proof {
            use_type_invariant(&*self);
        }
        if self.have_written_header && !self.have_written_trailer {
            self.have_written_trailer = true;
            true
        } else {
            false
        }
    }

    /// Whether the encoder has a subtitle track.
    pub fn has_subtitle_track(&self) -> (has: bool)
        ensures
            has == self@.subtitle_state is Some,
    {
        self.subtitle_state.is_some()
    }

    /// The packets that carry the subtitle of `cue` on the subtitle track.
    ///
    /// Where the last subtitle ended before `cue` starts, a filler packet with
    /// empty text comes first and covers the gap; then comes the packet of
    /// `cue`. The track then tracks the end of `cue`.
    ///
    /// # Errors
    ///
    /// Returns [`Error::SubtitleTrackNotConfigured`] if no subtitle track was configured.
    pub fn subtitle_packet(&mut self, cue: &SubtitleCue) -> (r: Result<Vec<SubtitlePacket>, Error>)
        ensures
            old(self)@.subtitle_state is None ==> r == Err::<Vec<SubtitlePacket>, Error>(
                Error::SubtitleTrackNotConfigured,
            ),
            final(self)@ == spec_after_subtitle(old(self)@, *cue),
            old(self)@.subtitle_state matches Some(state) ==> (r matches Ok(packets) && {
                let n = packets@.len();
                &&& n == (if spec_gap_before(state, *cue) {
                    2int
                } else {
                    1int
                })
                &&& spec_gap_before(state, *cue) ==> packet_is(
                    packets@[0],
                    state,
                    spec_subtitle_packet_data(state.format, Seq::empty()),
                    state.last_subtitle_end.unwrap(),
                    spec_time_sub(cue.start, state.last_subtitle_end.unwrap()),
                )
                &&& packet_is(
                    packets@[n - 1],
                    state,
                    spec_subtitle_packet_data(state.format, encode_utf8(cue.text@)),
                    cue.start,
                    cue.duration,
                )
                &&& state.format != SubtitleFormat::MovText ==> packets@[n - 1].data@
                    == encode_utf8(cue.text@)
                &&& state.format != SubtitleFormat::MovText && spec_gap_before(state, *cue)
                    ==> packets@[0].data@.len() == 0
                &&& state.format == SubtitleFormat::MovText && spec_gap_before(state, *cue)
                    ==> packets@[0].data@ == seq![0u8, 0u8]
            }),
    {
        proof {
            lemma_packet_data_reads_back(SubtitleFormat::MovText, Seq::empty());
            lemma_packet_data_reads_back(SubtitleFormat::Srt, Seq::empty());
            lemma_packet_data_reads_back(SubtitleFormat::WebVtt, Seq::empty());
            lemma_packet_data_reads_back(SubtitleFormat::Ass, Seq::empty());
            lemma_packet_data_reads_back(SubtitleFormat::Srt, encode_utf8(cue.text@));
            lemma_packet_data_reads_back(SubtitleFormat::WebVtt, encode_utf8(cue.text@));
            lemma_packet_data_reads_back(SubtitleFormat::Ass, encode_utf8(cue.text@));
        }
        proof {
            use_type_invariant(&*self);
        }
        let state = match self.subtitle_state {
            None => {
                return Err(Error::SubtitleTrackNotConfigured);
            },
            Some(state) => state,
        };
        let mut packets: Vec<SubtitlePacket> = Vec::new();
        if let Some(end) = state.last_subtitle_end {
            if end.is_before(&cue.start) {
                proof {
                    reveal_strlit("");
                    assert(encode_utf8(""@) =~= Seq::<u8>::empty());
                }
                let data = subtitle_packet_data(state.format, "");
                packets.push(
                    SubtitlePacket {
                        data,
                        stream_index: state.stream_index,
                        time_base: state.time_base,
                        start: end,
                        duration: cue.start.minus(end),
                    },
                );
            }
        }
        let data = subtitle_packet_data(state.format, cue.text.as_str());
        packets.push(
            SubtitlePacket {
                data,
                stream_index: state.stream_index,
                time_base: state.time_base,
                start: cue.start,
                duration: cue.duration,
            },
        );
        self.subtitle_state = Some(
            SubtitleEncoderState {
                stream_index: state.stream_index,
                time_base: state.time_base,
                format: state.format,
                last_subtitle_end: Some(cue.start.plus(cue.duration)),
            },
        );
        Ok(packets)
    }
}

/// Maximum number of packets asked of the codec when it is drained.
pub const MAX_DRAIN_ITERATIONS: u32 = 100;

/// What the codec gave when asked for a packet.
#[derive(Debug, Clone, Copy, PartialEq, Eq, Structural)]
pub enum Received {
    /// A packet.
    Packet,
    /// No packet for now (`EAGAIN`).
    Again,
    /// An error.
    Failed,
}

/// What to do next while draining the codec.
#[derive(Debug, Clone, Copy, PartialEq, Eq, Structural)]
pub enum DrainStep {
    /// Write the packet that came out, then ask again.
    WritePacket,
    /// Ask again.
    ReceiveAgain,
    /// Stop draining.
    Stop,
}

/// What the codec gave when asked for a packet, from the error code of the
/// call (`None` where it gave a packet): `eagain` (the platform's `EAGAIN`)
/// means no packet for now, any other error is a failure.
pub fn received_from(error_code: Option<i32>, eagain: i32) -> (received: Received)
    ensures
        received == (match error_code {
            None => Received::Packet,
            Some(code) => if code == eagain {
                Received::Again
            } else {
                Received::Failed
            },
        }),
{
    match error_code {
        None => Received::Packet,
        Some(code) => if code == eagain {
            Received::Again
        } else {
            Received::Failed
        },
    }
}

/// What to do with a frame once it has been handed to the codec.
pub struct FramePlan {
    /// Whether the container header is to be written first.
    pub write_header: bool,
    /// Whether the frame is to be marked as a keyframe (picture type I);
    /// otherwise it keeps its picture type.
    pub keyframe: bool,
}

/// What to do after a frame was handed to the codec and the codec was asked
/// once for a packet.
#[derive(Debug, Clone, Copy, PartialEq, Eq, Structural)]
pub enum FramePacketStep {
    /// Write the packet that came out.
    WritePacket,
    /// No packet for now: the frame is done.
    NoPacket,
    /// The codec failed: the error is returned.
    Fail,
}

/// What to do with what the codec gave when asked for a packet right after
/// a frame: write a packet, do nothing after `EAGAIN`, fail after an error.
pub fn after_frame_received(received: Received) -> (step: FramePacketStep)
    ensures
        step == (match received {
            Received::Packet => FramePacketStep::WritePacket,
            Received::Again => FramePacketStep::NoPacket,
            Received::Failed => FramePacketStep::Fail,
        }),
{
    match received {
        Received::Packet => FramePacketStep::WritePacket,
        Received::Again => FramePacketStep::NoPacket,
        Received::Failed => FramePacketStep::Fail,
    }
}

/// Draining the codec after the end of the stream was signalled: it is asked
/// for packets until it fails, at most [`MAX_DRAIN_ITERATIONS`] times.
pub struct Drain {
    iterations: u32,
}

impl View for Drain {
    type V = u32;

    closed spec fn view(&self) -> u32 {
        self.iterations
    }
}

impl Drain {
    #[verifier::type_invariant]
    closed spec fn inv(self) -> bool {
        self.iterations <= MAX_DRAIN_ITERATIONS
    }

    /// A drain that has not asked the codec for anything yet.
    pub fn new() -> (drain: Drain)
        ensures
            drain@ == 0,
    {
        Drain { iterations: 0 }
    }

    /// Whether the codec is to be asked for another packet. The number of
    /// packets asked for never exceeds [`MAX_DRAIN_ITERATIONS`].
    pub fn should_receive(&self) -> (ask: bool)
        ensures
            ask == (self@ < MAX_DRAIN_ITERATIONS),
            self@ <= MAX_DRAIN_ITERATIONS,
    {
        proof {
            use_type_invariant(self);
        }
        self.iterations < MAX_DRAIN_ITERATIONS
    }

    /// What to do with what the codec gave when asked for a packet: write a
    /// packet, ask again after `EAGAIN`, stop after an error.
    pub fn on_receive(&mut self, received: Received) -> (step: DrainStep)
        requires
            old(self)@ < MAX_DRAIN_ITERATIONS,
        ensures
            final(self)@ == old(self)@ + 1,
            step == (match received {
                Received::Packet => DrainStep::WritePacket,
                Received::Again => DrainStep::ReceiveAgain,
                Received::Failed => DrainStep::Stop,
            }),
    {
        self.iterations = self.iterations + 1;
        match received {
            Received::Packet => DrainStep::WritePacket,
            Received::Again => DrainStep::ReceiveAgain,
            Received::Failed => DrainStep::Stop,
        }
    }
}

/// Finishing is done once: finishing a second time has no work to do and
/// changes nothing.
pub proof fn lemma_finish_once(v: EncoderView)
    requires
        encoder_wf(v),
    ensures
        encoder_wf(spec_after_finish(v)),
        !spec_finish_has_work(spec_after_finish(v)),
        spec_after_finish(spec_after_finish(v)) == spec_after_finish(v),
{
}

/// An encoder that never wrote its header has handed no frame to the codec
/// and writes no trailer: finishing it has no work to do and changes nothing.
pub proof fn lemma_no_trailer_without_header(v: EncoderView)
    requires
        encoder_wf(v),
        !v.have_written_header,
    ensures
        v.frame_count == 0,
        !spec_finish_has_work(v),
        spec_after_finish(v) == v,
{
}

/// Once written, the header stays written: no step of the encoder asks for
/// it again, and every step keeps the trailer and the frames after the
/// header.
pub proof fn lemma_header_written_once(v: EncoderView)
    requires
        encoder_wf(v),
        v.have_written_header,
        v.frame_count < u64::MAX,
    ensures
        spec_after_header(v).have_written_header,
        spec_after_frame(v).have_written_header,
        spec_after_finish(v).have_written_header,
        encoder_wf(spec_after_header(v)),
        encoder_wf(spec_after_frame(v)),
        encoder_wf(spec_after_finish(v)),
{
}

/// Keyframes come at a fixed cadence: the first frame is one, and with a
/// positive interval `k` frame `n` is one exactly when frame `n + k` is, and
/// no frame strictly between two multiples of `k` is one.
pub proof fn lemma_keyframe_cadence(n: u64, k: u64)
    requires
        n + k <= u64::MAX,
    ensures
        spec_is_keyframe(0, k),
        k > 0 ==> (spec_is_keyframe(n, k) <==> spec_is_keyframe((n + k) as u64, k)),
        k > 0 && n % k != 0 ==> !spec_is_keyframe(n, k),
        k == 1 ==> spec_is_keyframe(n, k),
        k == 0 && n > 0 ==> !spec_is_keyframe(n, k),
{
    if k > 0 {
        vstd::arithmetic::div_mod::lemma_mod_add_multiples_vanish(n as int, k as int);
        assert(((n + k) as u64) % k == n % k);
    }
}

/// Gaps between consecutive subtitles are filled: after `first` is encoded,
/// a filler is due before `next` exactly when `first` ends (at
/// `first.start + first.duration`) before `next` starts, and it then covers
/// the time from that end to the start of `next`.
pub proof fn lemma_filler_covers_gap(v: EncoderView, first: SubtitleCue, next: SubtitleCue)
    requires
        v.subtitle_state is Some,
    ensures
        ({
            let state = spec_after_subtitle(v, first).subtitle_state.unwrap();
            &&& state.last_subtitle_end == Some(spec_time_add(first.start, first.duration))
            &&& spec_gap_before(state, next) == spec_before(
                spec_time_add(first.start, first.duration),
                next.start,
            )
        }),
{
}

/// One raw frame through the encoder: from a state that has sent `k`
/// frames, a frame that fits gets the header written first if needed, is a
/// keyframe exactly when `k` is a multiple of a positive interval (or, with
/// interval 0, when it is the first frame), and once the codec accepts it
/// the count is `k + 1`, whether or not a packet comes out; the header stays
/// before every frame.
pub proof fn lemma_encode_raw_frame(v: EncoderView, width: u32, height: u32, format: Seq<char>)
    requires
        encoder_wf(v),
        spec_frame_fits(v, width, height, format),
        v.frame_count < u64::MAX,
    ensures
        ({
            let with_header = if v.have_written_header {
                v
            } else {
                spec_after_header(v)
            };
            let sent = spec_after_frame(with_header);
            &&& with_header.have_written_header
            &&& with_header.frame_count == v.frame_count
            &&& (v.keyframe_interval > 0 ==> (spec_is_keyframe(
                with_header.frame_count,
                with_header.keyframe_interval,
            ) <==> v.frame_count % v.keyframe_interval == 0))
            &&& (v.keyframe_interval == 0 ==> (spec_is_keyframe(
                with_header.frame_count,
                with_header.keyframe_interval,
            ) <==> v.frame_count == 0))
            &&& sent.frame_count == v.frame_count + 1
            &&& encoder_wf(sent)
            &&& sent.have_written_trailer == v.have_written_trailer
        }),
{
}

/// A frame is accepted exactly when its width, its height and its pixel
/// format all match those the encoder was set up for.
pub proof fn lemma_frame_fits_exactly(v: EncoderView, width: u32, height: u32, format: Seq<char>)
    ensures
        spec_frame_fits(v, width, height, format) <==> (width == v.source_width && height
            == v.source_height && format == v.source_format),
        width != v.source_width ==> !spec_frame_fits(v, width, height, format),
        height != v.source_height ==> !spec_frame_fits(v, width, height, format),
        format != v.source_format ==> !spec_frame_fits(v, width, height, format),
{
}

/// Finishing does its work (flush the codec, write the trailer) exactly when
/// the header was written and the trailer was not, whatever the rest of the
/// state (interleaving, frame count, subtitle track); afterwards the trailer
/// counts as written.
pub proof fn lemma_finish_work_exactly(v: EncoderView)
    ensures
        spec_finish_has_work(v) <==> (v.have_written_header && !v.have_written_trailer),
        v.have_written_header ==> spec_after_finish(v).have_written_trailer,
        spec_after_finish(v).have_written_header == v.have_written_header,
        spec_after_finish(v).interleaved == v.interleaved,
        spec_after_finish(v).frame_count == v.frame_count,
{
}

} // verus!
