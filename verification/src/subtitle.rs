//! Subtitle formats, cues, and the data of subtitle packets.
use vstd::prelude::*;
use vstd::string::StringSliceAdditionalSpecFns;

use crate::bytes::{be_u16, push_all, push_be_u16, read_be_u16};
use crate::spec_fourcc;
use crate::mktag;
use crate::time::{Rational, Time};
use crate::tx3g::{build_tx3g_extradata, spec_tx3g_extradata};

verus! {

/// Subtitle codec format.
///
/// Different containers support different subtitle formats:
/// - MP4: [`SubtitleFormat::MovText`]
/// - MKV: [`SubtitleFormat::Srt`], [`SubtitleFormat::WebVtt`], [`SubtitleFormat::Ass`]
/// - WebM: [`SubtitleFormat::WebVtt`]
#[derive(Debug, Clone, Copy, PartialEq, Eq, Structural)]
pub enum SubtitleFormat {
    /// WebVTT format (for MKV, WebM containers).
    WebVtt,
    /// SubRip/SRT format (for MKV containers).
    Srt,
    /// MOV Text format (for MP4 containers).
    MovText,
    /// ASS/SSA format (for MKV containers).
    Ass,
}

/// A single subtitle cue with text and timing information.
#[derive(Debug, Clone)]
pub struct SubtitleCue {
    /// The subtitle text content.
    pub text: String,
    /// Start time of the subtitle.
    pub start: Time,
    /// Duration of the subtitle display.
    pub duration: Time,
}

impl SubtitleCue {
    /// Create a new subtitle cue.
    ///
    /// # Arguments
    ///
    /// * `text` - The subtitle text content.
    /// * `start` - Start time of the subtitle.
    /// * `duration` - Duration of the subtitle display.
    pub fn new(text: String, start: Time, duration: Time) -> (cue: Self)
        ensures
            cue.text@ == text@,
            cue.start == start,
            cue.duration == duration,
    {
        SubtitleCue { text, start, duration }
    }
}

/// State of the subtitle track of an encoder.
#[derive(Debug, Clone, Copy)]
pub struct SubtitleEncoderState {
    /// Index of the subtitle stream in the output.
    pub stream_index: usize,
    /// Time base of the subtitle packets.
    pub time_base: Rational,
    /// The subtitle format used for format-specific packet encoding.
    pub format: SubtitleFormat,
    /// Tracks the end time of the last subtitle (start + duration).
    /// Used to detect gaps and generate filler packets.
    pub last_subtitle_end: Option<Time>,
}

impl SubtitleEncoderState {
    /// The state of a subtitle track in stream `stream_index`, with no
    /// subtitle written yet.
    pub fn new(stream_index: usize, time_base: Rational, format: SubtitleFormat) -> (state: Self)
        ensures
            state.stream_index == stream_index,
            state.time_base == time_base,
            state.format == format,
            state.last_subtitle_end is None,
    {
        SubtitleEncoderState { stream_index, time_base, format, last_subtitle_end: None }
    }
}

/// The data of the packet that carries a subtitle text in `format`.
///
/// mov_text (tx3g) needs a 16-bit big-endian length prefix: the byte length
/// of the text, kept to its low 16 bits. The other formats carry the raw
/// text.
pub open spec fn spec_subtitle_packet_data(format: SubtitleFormat, text: Seq<u8>) -> Seq<u8> {
    match format {
        SubtitleFormat::MovText => be_u16((text.len() % 0x1_0000) as u16) + text,
        _ => text,
    }
}

/// The data of the packet that carries the subtitle `text` in `format`.
pub fn subtitle_packet_data(format: SubtitleFormat, text: &str) -> (data: Vec<u8>)
    ensures
        data@ == spec_subtitle_packet_data(format, text.spec_bytes()),
        format != SubtitleFormat::MovText ==> data@ == text.spec_bytes(),
        format == SubtitleFormat::MovText ==> {
            &&& data@.len() == text.spec_bytes().len() + 2
            &&& read_be_u16(data@[0], data@[1]) == text.spec_bytes().len() % 0x1_0000
            &&& data@.subrange(2, data@.len() as int) == text.spec_bytes()
        },
{
    proof {
        lemma_packet_data_reads_back(format, text.spec_bytes());
    }
    let text_bytes = text.as_bytes();
    match format {
        SubtitleFormat::MovText => {
            // mov_text (tx3g) format requires a 16-bit big-endian length prefix
            let len = (text_bytes.len() % 0x1_0000) as u16;
            let mut data: Vec<u8> = Vec::new();
            push_be_u16(&mut data, len);
            push_all(&mut data, text_bytes);
            data
        },
        _ => {
            // Other formats: use raw text for now
            let mut data: Vec<u8> = Vec::new();
            push_all(&mut data, text_bytes);
            data
        },
    }
}

/// The time base of subtitle streams: milliseconds.
pub open spec fn spec_subtitle_time_base() -> Rational {
    Rational { num: 1, den: 1000 }
}

/// The codec tag that makes FFmpeg's MOV muxer use the 'sbtl' handler type
/// for a mov_text track: "tx3g".
pub open spec fn spec_tx3g_tag() -> int {
    spec_fourcc(0x74, 0x78, 0x33, 0x67)
}

/// How to set up the output stream of a subtitle track.
pub struct SubtitleStreamSetup {
    /// The stream's time base.
    pub time_base: Rational,
    /// The codec tag of the stream, where the format needs one.
    pub codec_tag: Option<u32>,
    /// The codec extradata of the stream, where the format needs it.
    pub extradata: Option<Vec<u8>>,
    /// The stream's language (its "language" metadata).
    pub language: String,
}

/// How to set up the output stream of a subtitle track in `format` and
/// `language` (an ISO 639-2 code).
///
/// The stream counts time in milliseconds. A mov_text track gets the codec
/// tag 'tx3g', so that QuickTime, VLC and other Apple-compatible players
/// recognize it, and the tx3g sample description as extradata; the other
/// formats need neither.
pub fn subtitle_stream_setup(format: SubtitleFormat, language: String) -> (setup:
    SubtitleStreamSetup)
    ensures
        setup.time_base == spec_subtitle_time_base(),
        setup.language@ == language@,
        format == SubtitleFormat::MovText ==> setup.codec_tag == Some(spec_tx3g_tag() as u32),
        format == SubtitleFormat::MovText ==> (setup.extradata matches Some(e) && e@
            == spec_tx3g_extradata()),
        format != SubtitleFormat::MovText ==> setup.codec_tag is None,
        format != SubtitleFormat::MovText ==> setup.extradata is None,
{
    let time_base = Rational::new(1, 1000);
    match format {
        SubtitleFormat::MovText => {
            let tag = mktag(0x74, 0x78, 0x33, 0x67);  // "tx3g"
            SubtitleStreamSetup {
                time_base,
                codec_tag: Some(tag),
                extradata: Some(build_tx3g_extradata()),
                language,
            }
        },
        _ => SubtitleStreamSetup { time_base, codec_tag: None, extradata: None, language },
    }
}

/// The packet data of a text reads back as the text: the raw text formats
/// (SRT, WebVTT, ASS) carry exactly the text's bytes, and mov_text carries a
/// two-byte big-endian prefix holding the text's byte length (kept to its low
/// 16 bits) followed by exactly the text's bytes.
pub proof fn lemma_packet_data_reads_back(format: SubtitleFormat, text: Seq<u8>)
    ensures
        ({
            let data = spec_subtitle_packet_data(format, text);
            &&& format != SubtitleFormat::MovText ==> data == text
            &&& format == SubtitleFormat::MovText ==> {
                &&& data.len() == text.len() + 2
                &&& read_be_u16(data[0], data[1]) == text.len() % 0x1_0000
                &&& data.subrange(2, data.len() as int) == text
            }
        }),
{
    if format == SubtitleFormat::MovText {
        let data = spec_subtitle_packet_data(format, text);
        let prefix = be_u16((text.len() % 0x1_0000) as u16);
        assert(data == prefix + text);
        assert(data.subrange(2, data.len() as int) =~= text);
        assert(data[0] == prefix[0] && data[1] == prefix[1]);
    }
}

/// The mov_text packet data of a text shorter than 65536 bytes reads back:
/// its first two bytes hold the text's byte length and the rest is the text.
pub proof fn lemma_mov_text_payload_reads_back(text: Seq<u8>)
    requires
        text.len() < 0x1_0000,
    ensures
        ({
            let data = spec_subtitle_packet_data(SubtitleFormat::MovText, text);
            &&& data.len() == text.len() + 2
            &&& read_be_u16(data[0], data[1]) == text.len()
            &&& data.subrange(2, data.len() as int) == text
        }),
{
    lemma_packet_data_reads_back(SubtitleFormat::MovText, text);
}

/// The tag given to mov_text tracks is the FourCC "tx3g": read as four
/// little-endian bytes it spells 't', 'x', '3', 'g'.
pub proof fn lemma_tx3g_tag_value()
    ensures
        spec_tx3g_tag() == 0x6733_7874,
{
}

} // verus!
