//! Options handed to FFmpeg: for readers, codecs and muxers.
//!
//! Each options value is the sequence of `key = value` assignments that make
//! up an FFmpeg dictionary, in the order in which they were made. The
//! dictionary itself is FFmpeg's: it is built by applying the assignments in
//! that order (see [`OptionAssignments::entries`]).
use vstd::prelude::*;

verus! {

/// The `(key, value)` pairs of `entries`, as character sequences.
pub open spec fn entries_view(entries: Seq<(String, String)>) -> Seq<(Seq<char>, Seq<char>)> {
    entries.map_values(|e: (String, String)| (e.0@, e.1@))
}

/// Whether `s` can be handed to FFmpeg as a C string: it holds no NUL
/// character.
pub open spec fn is_c_string(s: Seq<char>) -> bool {
    !s.contains('\0')
}

/// `c` in ASCII lower case. FFmpeg compares dictionary keys ignoring ASCII
/// case.
pub open spec fn ascii_lower(c: char) -> char {
    if 'A' <= c <= 'Z' {
        ((c as int) + 32) as char
    } else {
        c
    }
}

/// Whether FFmpeg's dictionary takes `a` and `b` for the same key: they are
/// equal but for ASCII case.
pub open spec fn same_key(a: Seq<char>, b: Seq<char>) -> bool {
    &&& a.len() == b.len()
    &&& forall|i: int| 0 <= i < a.len() ==> ascii_lower(#[trigger] a[i]) == ascii_lower(b[i])
}

/// The value that the dictionary built by `assignments` holds for `key`:
/// that of the last assignment to the same key, if any. FFmpeg's
/// `av_dict_set` replaces the entry of a key that is already there.
pub open spec fn spec_dictionary_get(assignments: Seq<(Seq<char>, Seq<char>)>, key: Seq<char>) -> Option<
    Seq<char>,
>
    decreases assignments.len(),
{
    if assignments.len() == 0 {
        None
    } else if same_key(assignments.last().0, key) {
        Some(assignments.last().1)
    } else {
        spec_dictionary_get(assignments.drop_last(), key)
    }
}

/// The `key = value` assignments of an FFmpeg dictionary, in order.
#[derive(Clone, Debug)]
pub struct OptionAssignments {
    entries: Vec<(String, String)>,
}

impl View for OptionAssignments {
    type V = Seq<(Seq<char>, Seq<char>)>;

    closed spec fn view(&self) -> Self::V {
        entries_view(self.entries@)
    }
}

impl OptionAssignments {
    /// No assignment.
    pub fn new() -> (a: OptionAssignments)
        ensures
            a@ == Seq::<(Seq<char>, Seq<char>)>::empty(),
    {
        let a = OptionAssignments { entries: Vec::new() };
        assert(a@ =~= Seq::<(Seq<char>, Seq<char>)>::empty());
        a
    }

    /// Appends the assignment `key = value`.
    fn push(&mut self, key: &str, value: &str)
        ensures
            final(self)@ == old(self)@.push((key@, value@)),
    {
        let entry = (String::from_str(key), String::from_str(value));
        self.entries.push(entry);
        assert(entries_view(self.entries@) =~= entries_view(old(self).entries@).push(
            (key@, value@),
        ));
    }

    /// Appends the assignment `key = value`. Both must be valid C strings, as
    /// FFmpeg takes them.
    pub fn set(&mut self, key: &str, value: &str)
        requires
            is_c_string(key@),
            is_c_string(value@),
        ensures
            final(self)@ == old(self)@.push((key@, value@)),
    {
        self.push(key, value);
    }

    /// The assignments of `entries`, in order, as setting each `key = value`
    /// in turn makes them. Every key and value must be a valid C string.
    pub fn from_entries(entries: &Vec<(String, String)>) -> (a: OptionAssignments)
        requires
            forall|i: int|
                0 <= i < entries@.len() ==> is_c_string(#[trigger] entries@[i].0@) && is_c_string(
                    entries@[i].1@,
                ),
        ensures
            a@ == entries_view(entries@),
    {
        let mut a = OptionAssignments::new();
        let n = entries.len();
        let mut i: usize = 0;
        while i < n
            invariant
                n == entries@.len(),
                i <= n,
                a@ == entries_view(entries@.subrange(0, i as int)),
            decreases n - i,
        {
            a.push(entries[i].0.as_str(), entries[i].1.as_str());
            assert(entries_view(entries@.subrange(0, i + 1)) =~= entries_view(
                entries@.subrange(0, i as int),
            ).push((entries@[i as int].0@, entries@[i as int].1@)));
            i = i + 1;
        }
        assert(entries@.subrange(0, n as int) =~= entries@);
        a
    }

    /// The assignments, in the order in which they were made.
    pub fn entries(&self) -> (entries: &Vec<(String, String)>)
        ensures
            entries_view(entries@) == self@,
    {
        &self.entries
    }
}

// =============================================================================
// Reader Options (for input/decoding)
// =============================================================================
/// The assignments of [`ReaderOptions::preset_rtsp_transport_tcp`].
pub open spec fn spec_reader_rtsp_transport_tcp() -> Seq<(Seq<char>, Seq<char>)> {
    seq![("rtsp_transport"@, "tcp"@)]
}

/// The assignments of [`ReaderOptions::preset_rtsp_transport_tcp_and_sane_timeouts`].
pub open spec fn spec_reader_rtsp_transport_tcp_and_sane_timeouts() -> Seq<
    (Seq<char>, Seq<char>),
> {
    seq![("rtsp_transport"@, "tcp"@), ("rw_timeout"@, "4000000"@), ("stimeout"@, "4000000"@)]
}

/// Options for input/reader configuration (e.g., RTSP transport settings).
///
/// These options are passed to the input format context when opening a source.
#[derive(Clone, Debug)]
pub struct ReaderOptions(pub OptionAssignments);

impl View for ReaderOptions {
    type V = Seq<(Seq<char>, Seq<char>)>;

    open spec fn view(&self) -> Self::V {
        self.0@
    }
}

impl ReaderOptions {
    /// Creates options such that ffmpeg will prefer TCP transport when reading RTSP stream (over
    /// the default UDP format).
    ///
    /// This sets the `rtsp_transport` to `tcp` in ffmpeg options.
    pub fn preset_rtsp_transport_tcp() -> (opts: Self)
        ensures
            opts@ == spec_reader_rtsp_transport_tcp(),
    {
        let mut opts = OptionAssignments::new();
        opts.push("rtsp_transport", "tcp");
        ReaderOptions(opts)
    }

    /// Creates options such that ffmpeg will prefer TCP transport when reading RTSP stream (over
    /// the default UDP format). It also adds some options to reduce the socket and I/O timeouts to
    /// 4 seconds.
    ///
    /// This sets the `rtsp_transport` to `tcp` in ffmpeg options, it also sets `rw_timeout` and
    /// `stimeout` to lower (more sane) values: 4 seconds, in microseconds.
    pub fn preset_rtsp_transport_tcp_and_sane_timeouts() -> (opts: Self)
        ensures
            opts@ == spec_reader_rtsp_transport_tcp_and_sane_timeouts(),
    {
        let mut opts = OptionAssignments::new();
        opts.push("rtsp_transport", "tcp");
        opts.push("rw_timeout", "4000000");
        opts.push("stimeout", "4000000");
        ReaderOptions(opts)
    }

    /// Sets `key` to `value`.
    pub fn set(&mut self, key: &str, value: &str)
        requires
            is_c_string(key@),
            is_c_string(value@),
        ensures
            final(self)@ == old(self)@.push((key@, value@)),
    {
        self.0.set(key, value);
    }
}

impl Default for ReaderOptions {
    fn default() -> (opts: Self)
        ensures
            opts@ == Seq::<(Seq<char>, Seq<char>)>::empty(),
    {
        ReaderOptions(OptionAssignments::new())
    }
}

// =============================================================================
// Codec Options (for encoder configuration)
// =============================================================================
/// The assignments of [`CodecOptions::preset_h264`].
pub open spec fn spec_codec_h264() -> Seq<(Seq<char>, Seq<char>)> {
    seq![("preset"@, "medium"@)]
}

/// The assignments of [`CodecOptions::preset_h264_realtime`].
pub open spec fn spec_codec_h264_realtime() -> Seq<(Seq<char>, Seq<char>)> {
    seq![("preset"@, "medium"@), ("tune"@, "zerolatency"@)]
}

/// Options for codec/encoder configuration (e.g., preset, quality settings).
///
/// These options are passed to the encoder when opening it.
#[derive(Clone, Debug)]
pub struct CodecOptions(pub OptionAssignments);

impl View for CodecOptions {
    type V = Seq<(Seq<char>, Seq<char>)>;

    open spec fn view(&self) -> Self::V {
        self.0@
    }
}

impl CodecOptions {
    /// Default options for a H264 encoder: the medium preset.
    pub fn preset_h264() -> (opts: Self)
        ensures
            opts@ == spec_codec_h264(),
    {
        let mut opts = OptionAssignments::new();
        // Set H264 encoder to the medium preset.
        opts.push("preset", "medium");
        CodecOptions(opts)
    }

    /// Options for a H264 encoder that are tuned for low-latency encoding such as for real-time
    /// streaming.
    pub fn preset_h264_realtime() -> (opts: Self)
        ensures
            opts@ == spec_codec_h264_realtime(),
    {
        let mut opts = OptionAssignments::new();
        // Set H264 encoder to the medium preset.
        opts.push("preset", "medium");
        // Tune for low latency
        opts.push("tune", "zerolatency");
        CodecOptions(opts)
    }

    /// Sets `key` to `value`.
    pub fn set(&mut self, key: &str, value: &str)
        requires
            is_c_string(key@),
            is_c_string(value@),
        ensures
            final(self)@ == old(self)@.push((key@, value@)),
    {
        self.0.set(key, value);
    }
}

impl Default for CodecOptions {
    fn default() -> (opts: Self)
        ensures
            opts@ == Seq::<(Seq<char>, Seq<char>)>::empty(),
    {
        CodecOptions(OptionAssignments::new())
    }
}

// =============================================================================
// Muxer Options (for container/output format configuration)
// =============================================================================
/// The `movflags` of fragmented MP4 output.
pub open spec fn spec_fragmented_movflags() -> Seq<char> {
    "faststart+frag_keyframe+frag_custom+empty_moov+omit_tfhd_offset"@
}

/// The assignments of [`MuxerOptions::preset_fragmented_mp4`].
pub open spec fn spec_muxer_fragmented_mp4() -> Seq<(Seq<char>, Seq<char>)> {
    seq![("movflags"@, spec_fragmented_movflags())]
}

/// Options for muxer/container configuration (e.g., movflags for MP4).
///
/// These options are passed to `avformat_write_header()` when writing the
/// container header.
#[derive(Clone, Debug)]
pub struct MuxerOptions(pub OptionAssignments);

impl View for MuxerOptions {
    type V = Seq<(Seq<char>, Seq<char>)>;

    open spec fn view(&self) -> Self::V {
        self.0@
    }
}

impl MuxerOptions {
    /// Creates options for fragmented MP4 output suitable for streaming.
    ///
    /// This sets `movflags` to enable:
    /// - `faststart`: Move moov atom to the beginning
    /// - `frag_keyframe`: Start a new fragment at each keyframe
    /// - `frag_custom`: Allow manual fragment boundaries via flush
    /// - `empty_moov`: Write an empty moov atom initially
    /// - `omit_tfhd_offset`: Better compatibility
    ///
    /// The output will be compatible with Media Source Extensions (MSE) for
    /// web streaming and will be playable during encoding.
    pub fn preset_fragmented_mp4() -> (opts: Self)
        ensures
            opts@ == spec_muxer_fragmented_mp4(),
    {
        let mut opts = OptionAssignments::new();
        opts.push("movflags", "faststart+frag_keyframe+frag_custom+empty_moov+omit_tfhd_offset");
        MuxerOptions(opts)
    }

    /// Sets `key` to `value`.
    pub fn set(&mut self, key: &str, value: &str)
        requires
            is_c_string(key@),
            is_c_string(value@),
        ensures
            final(self)@ == old(self)@.push((key@, value@)),
    {
        self.0.set(key, value);
    }
}

impl Default for MuxerOptions {
    fn default() -> (opts: Self)
        ensures
            opts@ == Seq::<(Seq<char>, Seq<char>)>::empty(),
    {
        MuxerOptions(OptionAssignments::new())
    }
}

// =============================================================================
// Legacy Options type (for backwards compatibility)
// =============================================================================
/// The assignments of [`Options::preset_rtsp_transport_tcp`].
pub open spec fn spec_legacy_rtsp_transport_tcp() -> Seq<(Seq<char>, Seq<char>)> {
    seq![("rtsp_transport"@, "tcp"@)]
}

/// The assignments of [`Options::preset_fragmented_mov`].
pub open spec fn spec_legacy_fragmented_mov() -> Seq<(Seq<char>, Seq<char>)> {
    seq![("movflags"@, "faststart+frag_keyframe+frag_custom+empty_moov+omit_tfhd_offset"@)]
}

/// The assignments of [`Options::preset_h264`].
pub open spec fn spec_legacy_h264() -> Seq<(Seq<char>, Seq<char>)> {
    seq![("preset"@, "medium"@)]
}

/// A wrapper type for ffmpeg options.
///
/// **Deprecated**: Prefer using the more specific option types:
/// - [`ReaderOptions`] for input/reader configuration
/// - [`CodecOptions`] for encoder configuration
/// - [`MuxerOptions`] for container/muxer configuration
#[derive(Clone, Debug)]
pub struct Options(pub OptionAssignments);

impl View for Options {
    type V = Seq<(Seq<char>, Seq<char>)>;

    open spec fn view(&self) -> Self::V {
        self.0@
    }
}

impl Options {
    /// Creates options such that ffmpeg will prefer TCP transport when reading RTSP stream.
    /// Deprecated: use `ReaderOptions::preset_rtsp_transport_tcp()` instead.
    pub fn preset_rtsp_transport_tcp() -> (opts: Self)
        ensures
            opts@ == spec_legacy_rtsp_transport_tcp(),
    {
        let mut opts = OptionAssignments::new();
        opts.push("rtsp_transport", "tcp");
        Options(opts)
    }

    /// Creates options for fragmented MP4 output.
    /// Deprecated: use `MuxerOptions::preset_fragmented_mp4()` instead.
    pub fn preset_fragmented_mov() -> (opts: Self)
        ensures
            opts@ == spec_legacy_fragmented_mov(),
    {
        let mut opts = OptionAssignments::new();
        opts.push("movflags", "faststart+frag_keyframe+frag_custom+empty_moov+omit_tfhd_offset");
        Options(opts)
    }

    /// Default options for a H264 encoder.
    /// Deprecated: use `CodecOptions::preset_h264()` instead.
    pub fn preset_h264() -> (opts: Self)
        ensures
            opts@ == spec_legacy_h264(),
    {
        let mut opts = OptionAssignments::new();
        opts.push("preset", "medium");
        Options(opts)
    }

    /// Sets `key` to `value`.
    pub fn set(&mut self, key: &str, value: &str)
        requires
            is_c_string(key@),
            is_c_string(value@),
        ensures
            final(self)@ == old(self)@.push((key@, value@)),
    {
        self.0.set(key, value);
    }
}

impl Default for Options {
    fn default() -> (opts: Self)
        ensures
            opts@ == Seq::<(Seq<char>, Seq<char>)>::empty(),
    {
        Options(OptionAssignments::new())
    }
}

/// The deprecated presets of [`Options`] make the same assignments as the
/// presets that replace them.
pub proof fn lemma_legacy_presets_match_replacements()
    ensures
        spec_legacy_rtsp_transport_tcp() == spec_reader_rtsp_transport_tcp(),
        spec_legacy_fragmented_mov() == spec_muxer_fragmented_mp4(),
        spec_legacy_h264() == spec_codec_h264(),
{
}

/// The presets that add to another preset keep its assignments first: the
/// real-time H264 preset starts with the H264 preset, and the RTSP preset
/// with sane timeouts starts with the plain RTSP preset.
pub proof fn lemma_presets_extend()
    ensures
        spec_codec_h264_realtime().subrange(0, spec_codec_h264().len() as int)
            == spec_codec_h264(),
        spec_reader_rtsp_transport_tcp_and_sane_timeouts().subrange(
            0,
            spec_reader_rtsp_transport_tcp().len() as int,
        ) == spec_reader_rtsp_transport_tcp(),
{
    assert(spec_codec_h264_realtime().subrange(0, 1) =~= spec_codec_h264());
    assert(spec_reader_rtsp_transport_tcp_and_sane_timeouts().subrange(0, 1)
        =~= spec_reader_rtsp_transport_tcp());
}

/// A read gives back the last write: after `key = value` is set, the
/// dictionary holds `value` for `key` and for every key that differs from it
/// only in ASCII case, and what it held for any other key.
pub proof fn lemma_dictionary_read_after_write(
    assignments: Seq<(Seq<char>, Seq<char>)>,
    key: Seq<char>,
    value: Seq<char>,
    other: Seq<char>,
)
    ensures
        spec_dictionary_get(assignments.push((key, value)), key) == Some(value),
        same_key(key, other) ==> spec_dictionary_get(assignments.push((key, value)), other)
            == Some(value),
        !same_key(key, other) ==> spec_dictionary_get(assignments.push((key, value)), other)
            == spec_dictionary_get(assignments, other),
{
    let pushed = assignments.push((key, value));
    assert(pushed.last() == (key, value));
    assert(pushed.drop_last() =~= assignments);
}

/// Keys are looked up ignoring ASCII case: two keys that differ only in
/// ASCII case find the same value.
pub proof fn lemma_dictionary_ignores_case(
    assignments: Seq<(Seq<char>, Seq<char>)>,
    key: Seq<char>,
    other: Seq<char>,
)
    requires
        same_key(key, other),
    ensures
        spec_dictionary_get(assignments, key) == spec_dictionary_get(assignments, other),
    decreases assignments.len(),
{
    if assignments.len() > 0 {
        let k = assignments.last().0;
        if same_key(k, key) {
            assert(same_key(k, other));
        } else if same_key(k, other) {
            assert forall|i: int| 0 <= i < k.len() implies ascii_lower(#[trigger] k[i])
                == ascii_lower(key[i]) by {
                assert(ascii_lower(key[i]) == ascii_lower(other[i]));
            }
        }
        lemma_dictionary_ignores_case(assignments.drop_last(), key, other);
    }
}

/// The RTSP preset with sane timeouts makes a dictionary that asks for TCP
/// transport and socket and I/O timeouts of 4 seconds (in microseconds).
pub proof fn lemma_sane_timeouts_dictionary()
    ensures
        spec_dictionary_get(spec_reader_rtsp_transport_tcp_and_sane_timeouts(), "rtsp_transport"@)
            == Some("tcp"@),
        spec_dictionary_get(spec_reader_rtsp_transport_tcp_and_sane_timeouts(), "rw_timeout"@)
            == Some("4000000"@),
        spec_dictionary_get(spec_reader_rtsp_transport_tcp_and_sane_timeouts(), "stimeout"@)
            == Some("4000000"@),
{
    reveal_strlit("rtsp_transport");
    reveal_strlit("rw_timeout");
    reveal_strlit("stimeout");
    let empty = Seq::<(Seq<char>, Seq<char>)>::empty();
    let a1 = empty.push(("rtsp_transport"@, "tcp"@));
    let a2 = a1.push(("rw_timeout"@, "4000000"@));
    let a3 = a2.push(("stimeout"@, "4000000"@));
    assert(a3 =~= spec_reader_rtsp_transport_tcp_and_sane_timeouts());
    lemma_dictionary_read_after_write(a2, "stimeout"@, "4000000"@, "rw_timeout"@);
    lemma_dictionary_read_after_write(a2, "stimeout"@, "4000000"@, "rtsp_transport"@);
    lemma_dictionary_read_after_write(a1, "rw_timeout"@, "4000000"@, "rw_timeout"@);
    lemma_dictionary_read_after_write(a1, "rw_timeout"@, "4000000"@, "rtsp_transport"@);
    lemma_dictionary_read_after_write(empty, "rtsp_transport"@, "tcp"@, "rtsp_transport"@);
}

/// Keys that differ only in ASCII case are the same key, whichever way round.
proof fn lemma_same_key_symmetric_transitive(a: Seq<char>, b: Seq<char>, c: Seq<char>)
    ensures
        same_key(a, b) ==> same_key(b, a),
        same_key(a, b) && same_key(b, c) ==> same_key(a, c),
{
    if same_key(a, b) && same_key(b, c) {
        assert forall|i: int| 0 <= i < a.len() implies ascii_lower(#[trigger] a[i]) == ascii_lower(
            c[i],
        ) by {
            assert(ascii_lower(a[i]) == ascii_lower(b[i]));
            assert(ascii_lower(b[i]) == ascii_lower(c[i]));
        }
    }
    if same_key(a, b) {
        assert forall|i: int| 0 <= i < b.len() implies ascii_lower(#[trigger] b[i]) == ascii_lower(
            a[i],
        ) by {
            assert(ascii_lower(a[i]) == ascii_lower(b[i]));
        }
    }
}

/// Assignments to keys that are pairwise distinct (ignoring ASCII case), as
/// a map's entries are, give the dictionary of those entries back: each key
/// finds its own value, and a key that matches none finds nothing.
pub proof fn lemma_dictionary_of_distinct_keys(
    assignments: Seq<(Seq<char>, Seq<char>)>,
    key: Seq<char>,
)
    requires
        forall|i: int, j: int|
            0 <= i < j < assignments.len() ==> !same_key(
                #[trigger] assignments[i].0,
                #[trigger] assignments[j].0,
            ),
    ensures
        forall|i: int|
            0 <= i < assignments.len() && same_key(#[trigger] assignments[i].0, key)
                ==> spec_dictionary_get(assignments, key) == Some(assignments[i].1),
        (forall|i: int| 0 <= i < assignments.len() ==> !same_key(#[trigger] assignments[i].0, key))
            ==> spec_dictionary_get(assignments, key) is None,
    decreases assignments.len(),
{
    if assignments.len() > 0 {
        let n = assignments.len() as int;
        let rest = assignments.drop_last();
        let last = assignments.last();
        assert forall|i: int, j: int| 0 <= i < j < rest.len() implies !same_key(
            #[trigger] rest[i].0,
            #[trigger] rest[j].0,
        ) by {
            assert(rest[i] == assignments[i] && rest[j] == assignments[j]);
        }
        lemma_dictionary_of_distinct_keys(rest, key);
        if same_key(last.0, key) {
            assert forall|i: int|
                0 <= i < n && same_key(#[trigger] assignments[i].0, key) implies i == n - 1 by {
                if i < n - 1 {
                    lemma_same_key_symmetric_transitive(last.0, key, assignments[i].0);
                    lemma_same_key_symmetric_transitive(key, assignments[i].0, assignments[i].0);
                    lemma_same_key_symmetric_transitive(assignments[i].0, key, last.0);
                    assert(!same_key(assignments[i].0, assignments[n - 1].0));
                }
            }
        } else {
            assert forall|i: int|
                0 <= i < n && same_key(#[trigger] assignments[i].0, key) implies spec_dictionary_get(
                assignments,
                key,
            ) == Some(assignments[i].1) by {
                assert(i < n - 1);
                assert(rest[i] == assignments[i]);
            }
            if forall|i: int| 0 <= i < n ==> !same_key(#[trigger] assignments[i].0, key) {
                assert forall|i: int| 0 <= i < rest.len() implies !same_key(
                    #[trigger] rest[i].0,
                    key,
                ) by {
                    assert(rest[i] == assignments[i]);
                }
            }
        }
    }
}

} // verus!
