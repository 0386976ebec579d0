use std::collections::HashMap;

use video_rs::encode::{
    after_frame_received, received_from, Codec, CodecId, Drain, DrainStep, Encoder,
    EncoderBuilder, FramePacketStep, PixelFormat, Received, ScalerFlags, Settings, FRAME_RATE,
    KEY_FRAME_INTERVAL, MAX_DRAIN_ITERATIONS,
};
use video_rs::error::Error;
use video_rs::options::{CodecOptions, MuxerOptions};
use video_rs::subtitle::{SubtitleCue, SubtitleEncoderState, SubtitleFormat};
use video_rs::time::{Rational, Time};

fn pairs(options: &CodecOptions) -> Vec<(String, String)> {
    options.0.entries().clone()
}

fn h264_settings() -> Settings {
    Settings::preset_h264_yuv420p(640, 480, false, None, Some(Codec::named("libx264")))
}

fn encoder(settings: &Settings, subtitle: Option<SubtitleEncoderState>) -> Encoder {
    Encoder::from_parts(settings, 0, Rational::new(1, 1_000_000), false, subtitle)
}

#[test]
fn h264_preset_settings() {
    let settings = h264_settings();
    assert_eq!(settings.source_width, 640);
    assert_eq!(settings.source_height, 480);
    assert_eq!(settings.source_format.name, "rgb24");
    assert_eq!(settings.destination_width, 640);
    assert_eq!(settings.destination_height, 480);
    assert_eq!(settings.destination_format.name, "yuv420p");
    assert_eq!(settings.scaler_flags, ScalerFlags::fast_bilinear());
    assert_eq!(settings.keyframe_interval, KEY_FRAME_INTERVAL);
    assert_eq!(settings.keyframe_interval, 12);
    assert_eq!(settings.frame_rate, FRAME_RATE);
    assert_eq!(settings.frame_rate, 30);
    assert_eq!(settings.codec.as_ref().map(|c| c.name.clone()), Some("libx264".to_string()));
    assert_eq!(pairs(&settings.codec_options), vec![("preset".to_string(), "medium".to_string())]);
    assert!(settings.metadata.is_none());
    assert!(settings.scaler_needed());
}

#[test]
fn h264_realtime_preset_options() {
    let settings = Settings::preset_h264_yuv420p(16, 16, true, None, None);
    assert_eq!(
        pairs(&settings.codec_options),
        vec![
            ("preset".to_string(), "medium".to_string()),
            ("tune".to_string(), "zerolatency".to_string()),
        ]
    );
    assert!(settings.codec.is_none());
}

#[test]
fn h264_custom_preset() {
    let mut metadata = HashMap::new();
    metadata.insert("title".to_string(), "clip".to_string());
    let mut options = CodecOptions::default();
    options.set("crf", "20");
    let settings = Settings::preset_h264_custom(
        320,
        240,
        PixelFormat::named("rgb24"),
        options,
        Some(metadata.clone()),
        None,
    );
    assert_eq!(settings.destination_format.name, "rgb24");
    assert_eq!(settings.metadata, Some(metadata));
    assert_eq!(pairs(&settings.codec_options), vec![("crf".to_string(), "20".to_string())]);
    assert!(!settings.scaler_needed());
}

#[test]
fn vp9_presets() {
    let plain = Settings::preset_vp9_yuv420p(100, 50, None, None, Some(Codec::named("libvpx-vp9")));
    assert!(pairs(&plain.codec_options).is_empty());
    assert_eq!(plain.destination_format.name, "yuv420p");

    let realtime = Settings::preset_vp9_yuv420p_realtime(100, 50, None, None, None);
    assert_eq!(
        pairs(&realtime.codec_options),
        vec![
            ("deadline".to_string(), "realtime".to_string()),
            ("row-mt".to_string(), "1".to_string()),
            ("cpu-used".to_string(), "8".to_string()),
        ]
    );

    let mut options = CodecOptions::default();
    options.set("lag-in-frames", "0");
    let realtime = Settings::preset_vp9_yuv420p_realtime(100, 50, Some(options), None, None);
    assert_eq!(pairs(&realtime.codec_options).len(), 4);
    assert_eq!(pairs(&realtime.codec_options)[0].0, "lag-in-frames");
}

#[test]
fn settings_new_truncates_dimensions() {
    let big: usize = if usize::BITS > 32 { (1usize << 32) + 7 } else { 7 };
    let settings = Settings::new(
        big,
        3,
        PixelFormat::rgb24(),
        ScalerFlags { bits: 4 },
        big,
        5,
        PixelFormat::rgb24(),
        1,
        25,
        None,
        CodecOptions::default(),
        None,
    );
    assert_eq!(settings.source_width, 7);
    assert_eq!(settings.destination_width, 7);
    assert_eq!(settings.source_height, 3);
    assert_eq!(settings.destination_height, 5);
    assert_eq!(settings.scaler_flags.bits, 4);
    assert_eq!(settings.frame_rate, 25);
    assert!(settings.scaler_needed());
}

#[test]
fn resize_and_keyframe_interval() {
    let settings = h264_settings().resized_to(1280, 720).with_keyframe_interval(5);
    assert_eq!(settings.destination_width, 1280);
    assert_eq!(settings.destination_height, 720);
    assert_eq!(settings.source_width, 640);
    assert_eq!(settings.keyframe_interval, 5);

    let mut settings = settings;
    settings.set_keyframe_interval(7);
    assert_eq!(settings.keyframe_interval, 7);
}

#[test]
fn encoder_checks_frames() {
    let settings = h264_settings();
    let encoder = encoder(&settings, None);
    assert_eq!(encoder.check_frame(640, 480, &PixelFormat::rgb24()), Ok(()));
    assert_eq!(
        encoder.check_frame(640, 481, &PixelFormat::rgb24()),
        Err(Error::InvalidFrameFormat)
    );
    assert_eq!(
        encoder.check_frame(640, 480, &PixelFormat::yuv420p()),
        Err(Error::InvalidFrameFormat)
    );
    assert_eq!(encoder.check_frame_dims(480, 640, 3), Ok(()));
    assert_eq!(encoder.check_frame_dims(640, 480, 3), Err(Error::InvalidFrameFormat));
    assert_eq!(encoder.check_frame_dims(480, 640, 4), Err(Error::InvalidFrameFormat));
}

#[test]
fn header_written_once() {
    let settings = h264_settings();
    let mut encoder = encoder(&settings, None);
    assert!(encoder.needs_header());
    encoder.header_written();
    assert!(!encoder.needs_header());
    encoder.frame_sent();
    assert!(!encoder.needs_header());
}

#[test]
fn keyframe_cadence() {
    let settings = h264_settings().with_keyframe_interval(3);
    let mut encoder = encoder(&settings, None);
    encoder.header_written();
    let mut keyframes = Vec::new();
    for _ in 0..10 {
        keyframes.push(encoder.next_frame_is_keyframe());
        encoder.frame_sent();
    }
    assert_eq!(
        keyframes,
        vec![true, false, false, true, false, false, true, false, false, true]
    );
    assert_eq!(encoder.frame_count(), 10);
}

#[test]
fn keyframe_interval_zero_only_first() {
    let settings = h264_settings().with_keyframe_interval(0);
    let mut encoder = encoder(&settings, None);
    encoder.header_written();
    assert!(encoder.next_frame_is_keyframe());
    encoder.frame_sent();
    for _ in 0..5 {
        assert!(!encoder.next_frame_is_keyframe());
        encoder.frame_sent();
    }
}

#[test]
fn finish_after_header_once() {
    let settings = h264_settings();
    let mut encoder = encoder(&settings, None);
    encoder.header_written();
    assert!(encoder.finish());
    assert!(!encoder.finish());
}

#[test]
fn finish_without_header_does_nothing() {
    let settings = h264_settings();
    let mut encoder = encoder(&settings, None);
    assert!(!encoder.finish());
    assert!(encoder.needs_header());
    encoder.header_written();
    assert!(encoder.finish());
}

#[test]
fn encoder_parts() {
    let settings = h264_settings();
    let encoder = Encoder::from_parts(&settings, 2, Rational::new(1, 90000), true, None);
    assert_eq!(encoder.time_base(), Rational::new(1, 90000));
    assert_eq!(encoder.writer_stream_index(), 2);
    assert!(encoder.interleaved());
    assert_eq!(encoder.frame_count(), 0);
}

fn ms(value: i64) -> Time {
    Time::new(Some(value), Rational::new(1, 1000))
}

#[test]
fn subtitle_without_track_is_an_error() {
    let settings = h264_settings();
    let mut encoder = encoder(&settings, None);
    let cue = SubtitleCue::new("Hello".to_string(), ms(0), ms(1000));
    assert_eq!(
        encoder.subtitle_packet(&cue).err(),
        Some(Error::SubtitleTrackNotConfigured)
    );
}

#[test]
fn subtitle_packet_on_track() {
    let settings = h264_settings();
    let state = SubtitleEncoderState::new(1, Rational::new(1, 1000), SubtitleFormat::MovText);
    let mut encoder = encoder(&settings, Some(state));
    let cue = SubtitleCue::new("Hi".to_string(), ms(1000), ms(2500));
    let packets = encoder.subtitle_packet(&cue).ok().unwrap();
    assert_eq!(packets.len(), 1);
    assert_eq!(packets[0].data, vec![0, 2, b'H', b'i']);
    assert_eq!(packets[0].stream_index, 1);
    assert_eq!(packets[0].time_base, Rational::new(1, 1000));
    assert_eq!(packets[0].start, ms(1000));
    assert_eq!(packets[0].duration, ms(2500));
}

#[test]
fn subtitle_gap_gets_a_filler() {
    let settings = h264_settings();
    let state = SubtitleEncoderState::new(1, Rational::new(1, 1000), SubtitleFormat::MovText);
    let mut encoder = encoder(&settings, Some(state));
    let first = SubtitleCue::new("One".to_string(), ms(1000), ms(1500));
    assert_eq!(encoder.subtitle_packet(&first).ok().unwrap().len(), 1);
    // The first cue ends at 2500 ms; the next starts at 4000 ms.
    let next = SubtitleCue::new("Two".to_string(), ms(4000), ms(500));
    let packets = encoder.subtitle_packet(&next).ok().unwrap();
    assert_eq!(packets.len(), 2);
    assert_eq!(packets[0].data, vec![0, 0]);
    assert_eq!(packets[0].start, ms(2500));
    assert_eq!(packets[0].duration, ms(1500));
    assert_eq!(packets[1].data, vec![0, 3, b'T', b'w', b'o']);
    assert_eq!(packets[1].start, ms(4000));
    // Back to back: no filler.
    let after = SubtitleCue::new("Three".to_string(), ms(4500), ms(500));
    assert_eq!(encoder.subtitle_packet(&after).ok().unwrap().len(), 1);
}

#[test]
fn subtitle_filler_for_raw_text_formats_is_empty() {
    let settings = h264_settings();
    let state = SubtitleEncoderState::new(2, Rational::new(1, 1000), SubtitleFormat::Srt);
    let mut encoder = encoder(&settings, Some(state));
    encoder
        .subtitle_packet(&SubtitleCue::new("a".to_string(), ms(0), ms(100)))
        .ok()
        .unwrap();
    let packets = encoder
        .subtitle_packet(&SubtitleCue::new("b".to_string(), ms(300), ms(100)))
        .ok()
        .unwrap();
    assert_eq!(packets.len(), 2);
    assert!(packets[0].data.is_empty());
    assert_eq!(packets[0].stream_index, 2);
    assert_eq!(packets[0].start, ms(100));
    assert_eq!(packets[0].duration, ms(200));
}

#[test]
fn subtitle_overlap_gets_no_filler() {
    let settings = h264_settings();
    let state = SubtitleEncoderState::new(1, Rational::new(1, 1000), SubtitleFormat::WebVtt);
    let mut encoder = encoder(&settings, Some(state));
    encoder
        .subtitle_packet(&SubtitleCue::new("a".to_string(), ms(0), ms(1000)))
        .ok()
        .unwrap();
    let packets = encoder
        .subtitle_packet(&SubtitleCue::new("b".to_string(), ms(500), ms(100)))
        .ok()
        .unwrap();
    assert_eq!(packets.len(), 1);
    assert_eq!(packets[0].data, b"b".to_vec());
}

#[test]
fn builder_defaults_and_setters() {
    let muxer = MuxerOptions::preset_fragmented_mp4();
    let builder = EncoderBuilder::new("out.mp4".to_string(), h264_settings());
    assert_eq!(builder.destination, "out.mp4");
    assert!(builder.muxer_options.is_none());
    assert!(builder.format.is_none());
    assert!(!builder.interleaved);
    assert!(builder.subtitle_format.is_none());
    assert_eq!(builder.subtitle_language, "eng");
    let builder = builder
        .with_muxer_options(&muxer)
        .with_format("mp4")
        .interleaved()
        .with_subtitle_track(SubtitleFormat::MovText)
        .subtitle_language("spa".to_string());
    assert!(builder.muxer_options.is_some());
    assert_eq!(builder.format, Some("mp4"));
    assert!(builder.interleaved);
    assert_eq!(builder.subtitle_format, Some(SubtitleFormat::MovText));
    assert_eq!(builder.subtitle_language, "spa");
    assert_eq!(builder.settings.source_width, 640);
}

#[test]
fn find_codec_prefers_the_named_encoder() {
    let named = Settings::find_codec(Some(Codec::named("libx264")), Some(Codec::named("h264")));
    assert_eq!(named.map(|c| c.name), Some("libx264".to_string()));
    let by_id = Settings::find_codec(None, Some(Codec::named("h264")));
    assert_eq!(by_id.map(|c| c.name), Some("h264".to_string()));
    assert!(Settings::find_codec(None, None).is_none());
}

#[test]
fn receive_outcomes() {
    assert_eq!(received_from(None, 11), Received::Packet);
    assert_eq!(received_from(Some(11), 11), Received::Again);
    assert_eq!(received_from(Some(22), 11), Received::Failed);
}

#[test]
fn codec_parameters_of_settings() {
    let settings = h264_settings().resized_to(320, 200);
    let params = settings.codec_parameters(true);
    assert_eq!(params.width, 320);
    assert_eq!(params.height, 200);
    assert_eq!(params.format.name, "yuv420p");
    assert_eq!(params.frame_rate, (30, 1));
    assert_eq!(params.time_base, Rational::new(1, 1_000_000));
    assert!(params.global_header);
    assert_eq!(params.thread_kind, 0);
    assert_eq!(params.thread_count, 0);
    assert!(!settings.codec_parameters(false).global_header);
}

#[test]
fn drain_stops_after_limit() {
    let mut drain = Drain::new();
    let mut asked = 0;
    while drain.should_receive() {
        assert_eq!(drain.on_receive(Received::Again), DrainStep::ReceiveAgain);
        asked += 1;
    }
    assert_eq!(asked, MAX_DRAIN_ITERATIONS);
    assert_eq!(asked, 100);
}

#[test]
fn drain_steps() {
    let mut drain = Drain::new();
    assert_eq!(drain.on_receive(Received::Packet), DrainStep::WritePacket);
    assert_eq!(drain.on_receive(Received::Failed), DrainStep::Stop);
}

#[test]
fn preset_codec_lookups() {
    let h264 = Settings::h264_codec_lookup();
    assert_eq!(h264.id, CodecId::H264);
    assert_eq!(h264.default_name, "libx264");
    let vp9 = Settings::vp9_codec_lookup();
    assert_eq!(vp9.id, CodecId::Vp9);
    assert_eq!(vp9.default_name, "libvpx-vp9");
}

#[test]
fn frame_plan() {
    let settings = h264_settings().with_keyframe_interval(2);
    let mut encoder = encoder(&settings, None);
    assert_eq!(
        encoder.begin_frame(640, 480, &PixelFormat::yuv420p()).err(),
        Some(Error::InvalidFrameFormat)
    );
    let plan = encoder.begin_frame(640, 480, &PixelFormat::rgb24()).ok().unwrap();
    assert!(plan.write_header);
    assert!(plan.keyframe);
    encoder.header_written();
    encoder.frame_sent();
    let plan = encoder.begin_frame(640, 480, &PixelFormat::rgb24()).ok().unwrap();
    assert!(!plan.write_header);
    assert!(!plan.keyframe);
    encoder.frame_sent();
    let plan = encoder.begin_frame(640, 480, &PixelFormat::rgb24()).ok().unwrap();
    assert!(plan.keyframe);
}

#[test]
fn frame_packet_steps() {
    assert_eq!(after_frame_received(Received::Packet), FramePacketStep::WritePacket);
    assert_eq!(after_frame_received(Received::Again), FramePacketStep::NoPacket);
    assert_eq!(after_frame_received(Received::Failed), FramePacketStep::Fail);
}

#[test]
fn subtitle_track_presence() {
    let settings = h264_settings();
    assert!(!encoder(&settings, None).has_subtitle_track());
    let state = SubtitleEncoderState::new(1, Rational::new(1, 1000), SubtitleFormat::Ass);
    assert!(encoder(&settings, Some(state)).has_subtitle_track());
}
