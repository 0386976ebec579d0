use video_rs::subtitle::{
    subtitle_packet_data, subtitle_stream_setup, SubtitleCue, SubtitleEncoderState,
    SubtitleFormat,
};
use video_rs::time::{Rational, Time};
use video_rs::tx3g::build_tx3g_extradata;

#[test]
fn subtitle_cue_new_keeps_its_parts() {
    let start = Time::new(Some(1000), Rational::new(1, 1000));
    let duration = Time::new(Some(2500), Rational::new(1, 1000));
    let cue = SubtitleCue::new("Hello, world!".to_string(), start, duration);
    assert_eq!(cue.text, "Hello, world!");
    assert_eq!(cue.start, start);
    assert_eq!(cue.duration, duration);
    assert_eq!(cue.start.into_value(), Some(1000));
    assert_eq!(cue.duration.time_base(), Rational::new(1, 1000));
}

#[test]
fn mov_text_packet_has_length_prefix() {
    let data = subtitle_packet_data(SubtitleFormat::MovText, "Hello");
    assert_eq!(data, vec![0, 5, b'H', b'e', b'l', b'l', b'o']);
}

#[test]
fn mov_text_length_counts_bytes() {
    let data = subtitle_packet_data(SubtitleFormat::MovText, "é");
    assert_eq!(data, vec![0, 2, 0xc3, 0xa9]);
}

#[test]
fn mov_text_length_keeps_low_16_bits() {
    let text = "a".repeat(70000);
    let data = subtitle_packet_data(SubtitleFormat::MovText, &text);
    assert_eq!(data.len(), 70002);
    assert_eq!(u16::from_be_bytes([data[0], data[1]]), (70000 % 65536) as u16);
    assert_eq!(&data[2..], text.as_bytes());
}

#[test]
fn mov_text_empty_text() {
    assert_eq!(subtitle_packet_data(SubtitleFormat::MovText, ""), vec![0, 0]);
}

#[test]
fn other_formats_carry_raw_text() {
    for format in [SubtitleFormat::Srt, SubtitleFormat::WebVtt, SubtitleFormat::Ass] {
        let data = subtitle_packet_data(format, "Hi there");
        assert_eq!(data, b"Hi there".to_vec());
    }
}

#[test]
fn mov_text_stream_setup() {
    let setup = subtitle_stream_setup(SubtitleFormat::MovText, "spa".to_string());
    assert_eq!(setup.time_base, Rational::new(1, 1000));
    assert_eq!(setup.codec_tag, Some(video_rs::mktag(b't', b'x', b'3', b'g')));
    assert_eq!(setup.extradata, Some(build_tx3g_extradata()));
    assert_eq!(setup.language, "spa");
}

#[test]
fn srt_stream_setup() {
    let setup = subtitle_stream_setup(SubtitleFormat::Srt, "eng".to_string());
    assert_eq!(setup.time_base, Rational::new(1, 1000));
    assert_eq!(setup.codec_tag, None);
    assert_eq!(setup.extradata, None);
    assert_eq!(setup.language, "eng");
}

#[test]
fn subtitle_encoder_state_new() {
    let state = SubtitleEncoderState::new(1, Rational::new(1, 1000), SubtitleFormat::WebVtt);
    assert_eq!(state.stream_index, 1);
    assert_eq!(state.time_base, Rational::new(1, 1000));
    assert_eq!(state.format, SubtitleFormat::WebVtt);
    assert!(state.last_subtitle_end.is_none());
}
