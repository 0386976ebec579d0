use video_rs::options::{CodecOptions, MuxerOptions, OptionAssignments, Options, ReaderOptions};

fn pairs(assignments: &OptionAssignments) -> Vec<(String, String)> {
    assignments.entries().clone()
}

fn expected(items: &[(&str, &str)]) -> Vec<(String, String)> {
    items.iter().map(|(k, v)| (k.to_string(), v.to_string())).collect()
}

#[test]
fn reader_rtsp_tcp() {
    let opts = ReaderOptions::preset_rtsp_transport_tcp();
    assert_eq!(pairs(&opts.0), expected(&[("rtsp_transport", "tcp")]));
}

#[test]
fn reader_rtsp_tcp_and_sane_timeouts() {
    let opts = ReaderOptions::preset_rtsp_transport_tcp_and_sane_timeouts();
    assert_eq!(
        pairs(&opts.0),
        expected(&[
            ("rtsp_transport", "tcp"),
            ("rw_timeout", "4000000"),
            ("stimeout", "4000000"),
        ])
    );
}

#[test]
fn codec_h264_presets() {
    assert_eq!(pairs(&CodecOptions::preset_h264().0), expected(&[("preset", "medium")]));
    assert_eq!(
        pairs(&CodecOptions::preset_h264_realtime().0),
        expected(&[("preset", "medium"), ("tune", "zerolatency")])
    );
}

#[test]
fn muxer_fragmented_mp4() {
    assert_eq!(
        pairs(&MuxerOptions::preset_fragmented_mp4().0),
        expected(&[(
            "movflags",
            "faststart+frag_keyframe+frag_custom+empty_moov+omit_tfhd_offset"
        )])
    );
}

#[test]
fn set_appends_in_order() {
    let mut opts = ReaderOptions::default();
    opts.set("a", "1");
    opts.set("b", "2");
    opts.set("a", "3");
    assert_eq!(pairs(&opts.0), expected(&[("a", "1"), ("b", "2"), ("a", "3")]));

    let mut codec = CodecOptions::default();
    codec.set("crf", "23");
    assert_eq!(pairs(&codec.0), expected(&[("crf", "23")]));

    let mut muxer = MuxerOptions::default();
    muxer.set("movflags", "faststart");
    assert_eq!(pairs(&muxer.0), expected(&[("movflags", "faststart")]));

    let mut legacy = Options::default();
    legacy.set("key", "value");
    assert_eq!(pairs(&legacy.0), expected(&[("key", "value")]));
}

#[test]
fn defaults_are_empty() {
    assert!(ReaderOptions::default().0.entries().is_empty());
    assert!(CodecOptions::default().0.entries().is_empty());
    assert!(MuxerOptions::default().0.entries().is_empty());
    assert!(Options::default().0.entries().is_empty());
    assert!(OptionAssignments::new().entries().is_empty());
}

#[test]
fn legacy_presets_match_their_replacements() {
    assert_eq!(
        pairs(&Options::preset_rtsp_transport_tcp().0),
        pairs(&ReaderOptions::preset_rtsp_transport_tcp().0)
    );
    assert_eq!(
        pairs(&Options::preset_fragmented_mov().0),
        pairs(&MuxerOptions::preset_fragmented_mp4().0)
    );
    assert_eq!(
        pairs(&Options::preset_h264().0),
        pairs(&CodecOptions::preset_h264().0)
    );
}

#[test]
fn assignments_from_entries_keep_order() {
    let entries = vec![
        ("b".to_string(), "2".to_string()),
        ("a".to_string(), "1".to_string()),
    ];
    let assignments = OptionAssignments::from_entries(&entries);
    assert_eq!(assignments.entries(), &entries);
    assert!(OptionAssignments::from_entries(&Vec::new()).entries().is_empty());
}
