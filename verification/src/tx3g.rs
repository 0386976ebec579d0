//! The tx3g (mov_text) sample description.
//!
//! These values define the default subtitle appearance for QuickTime-compatible
//! players. Reference: 3GPP TS 26.245 (Timed Text Format); the layout follows
//! FFmpeg's mov_text encoder (libavcodec/movtextenc.c).
use vstd::prelude::*;

use crate::bytes::{be_u16, be_u32, push_all, push_be_u16, push_be_u32};

verus! {

/// Display flags - controls scrolling, karaoke, etc. 0 = static text.
pub const DISPLAY_FLAGS: u32 = 0;

/// Horizontal justification: 0=left, 1=center, 2=right
pub const JUSTIFY_CENTER: u8 = 0x01;

/// Vertical justification: 0=top, 1=center, -1(0xFF)=bottom
pub const JUSTIFY_BOTTOM: u8 = 0xFF;

/// Background color (RGBA) - transparent black
pub const BACKGROUND_COLOR: u32 = 0x00000000;

/// Number of bytes of the text box bounds (top, left, bottom, right), all
/// zero, which means: use the full frame.
pub const TEXT_BOX_BOUNDS_LEN: usize = 8;

/// Default font ID referenced in style and font table
pub const DEFAULT_FONT_ID: u16 = 1;

/// Style flags: 0=normal, 1=bold, 2=italic, 4=underline
pub const STYLE_NORMAL: u8 = 0x00;

/// Default font size in points
pub const FONT_SIZE_PT: u8 = 18;

/// Text color (RGBA) - opaque white
pub const TEXT_COLOR_WHITE: u32 = 0xFFFFFFFF;

/// FontTableBox header size (box_size + tag + entry_count = 4 + 4 + 2)
pub const FTAB_HEADER_SIZE: u32 = 10;

/// FontRecord overhead (font_id + name_length = 2 + 1)
pub const FONT_RECORD_OVERHEAD: u32 = 3;

/// The default font name - "Serif" is a standard fallback name.
pub open spec fn spec_font_name() -> Seq<u8> {
    seq![0x53u8, 0x65, 0x72, 0x69, 0x66]  // "Serif"
}

/// The FontTableBox type tag, "ftab".
pub open spec fn spec_ftab_tag() -> Seq<u8> {
    seq![0x66u8, 0x74, 0x61, 0x62]  // "ftab"
}

/// The text box bounds: all zero.
pub open spec fn spec_text_box_bounds() -> Seq<u8> {
    Seq::new(TEXT_BOX_BOUNDS_LEN as nat, |i: int| 0u8)
}

/// The StyleRecord: the default style applies from the first to the last
/// character, with the default font, normal style, default size, white.
pub open spec fn spec_style_record() -> Seq<u8> {
    be_u16(0) + be_u16(0) + be_u16(DEFAULT_FONT_ID) + seq![STYLE_NORMAL, FONT_SIZE_PT] + be_u32(
        TEXT_COLOR_WHITE,
    )
}

/// The size of the FontTableBox, which holds one FontRecord.
pub open spec fn spec_ftab_size() -> int {
    FTAB_HEADER_SIZE + FONT_RECORD_OVERHEAD + spec_font_name().len()
}

/// The FontTableBox: its size, its tag, one entry, and the FontRecord of
/// the default font (id, name length, name).
pub open spec fn spec_font_table_box() -> Seq<u8> {
    be_u32(spec_ftab_size() as u32) + spec_ftab_tag() + be_u16(1) + be_u16(DEFAULT_FONT_ID) + seq![
        spec_font_name().len() as u8,
    ] + spec_font_name()
}

/// The tx3g sample description: display flags, justification, background
/// color, BoxRecord, StyleRecord and FontTableBox.
pub open spec fn spec_tx3g_extradata() -> Seq<u8> {
    be_u32(DISPLAY_FLAGS) + seq![JUSTIFY_CENTER, JUSTIFY_BOTTOM] + be_u32(BACKGROUND_COLOR)
        + spec_text_box_bounds() + spec_style_record() + spec_font_table_box()
}

/// Build the tx3g (mov_text) sample description extradata.
///
/// This contains the display settings, default style, and font table required
/// for QuickTime and other Apple players to properly recognize subtitle tracks.
///
/// Structure (48 bytes for the default "Serif" font):
/// - Display flags (4 bytes)
/// - Justification (2 bytes)
/// - Background color RGBA (4 bytes)
/// - BoxRecord: text box bounds (8 bytes)
/// - StyleRecord: default text style (12 bytes)
/// - FontTableBox: font definitions (variable, 18 bytes for "Serif")
pub fn build_tx3g_extradata() -> (data: Vec<u8>)
    ensures
        data@ == spec_tx3g_extradata(),
        data@.len() == 48,
{
    let font_name: Vec<u8> = vec![0x53, 0x65, 0x72, 0x69, 0x66];  // "Serif"
    let ftab_tag: Vec<u8> = vec![0x66, 0x74, 0x61, 0x62];  // "ftab"
    assert(font_name@ =~= spec_font_name());
    assert(ftab_tag@ =~= spec_ftab_tag());

    let mut data: Vec<u8> = Vec::with_capacity(48);

    // Display flags (4 bytes)
    push_be_u32(&mut data, DISPLAY_FLAGS);
    // Justification (2 bytes)
    data.push(JUSTIFY_CENTER);
    data.push(JUSTIFY_BOTTOM);
    // Background color RGBA (4 bytes)
    push_be_u32(&mut data, BACKGROUND_COLOR);
    let ghost header = data@;
    assert(header =~= be_u32(DISPLAY_FLAGS) + seq![JUSTIFY_CENTER, JUSTIFY_BOTTOM] + be_u32(
        BACKGROUND_COLOR,
    ));

    // BoxRecord (8 bytes): text positioning bounds
    let mut i: usize = 0;
    while i < TEXT_BOX_BOUNDS_LEN
        invariant
            i <= TEXT_BOX_BOUNDS_LEN,
            data@ =~= header + Seq::new(i as nat, |k: int| 0u8),
        decreases TEXT_BOX_BOUNDS_LEN - i,
    {
        data.push(0);
        i = i + 1;
    }
    let ghost with_box = data@;
    assert(with_box =~= header + spec_text_box_bounds());

    // StyleRecord (12 bytes)
    push_be_u16(&mut data, 0);  // startChar (apply from start)
    push_be_u16(&mut data, 0);  // endChar (apply to end)
    push_be_u16(&mut data, DEFAULT_FONT_ID);
    data.push(STYLE_NORMAL);
    data.push(FONT_SIZE_PT);
    push_be_u32(&mut data, TEXT_COLOR_WHITE);
    let ghost with_style = data@;
    assert(with_style =~= with_box + spec_style_record());

    // FontTableBox
    let ftab_size = FTAB_HEADER_SIZE + FONT_RECORD_OVERHEAD + font_name.len() as u32;
    push_be_u32(&mut data, ftab_size);
    push_all(&mut data, ftab_tag.as_slice());
    push_be_u16(&mut data, 1);  // entry-count
    // FontRecord
    push_be_u16(&mut data, DEFAULT_FONT_ID);
    data.push(font_name.len() as u8);
    push_all(&mut data, font_name.as_slice());
    assert(data@ =~= with_style + spec_font_table_box());
    assert(data@ =~= spec_tx3g_extradata());
    data
}

/// The FontTableBox closes the sample description, and the size that it
/// declares in its first four bytes is its actual length.
pub proof fn lemma_font_table_box_size_consistent()
    ensures
        spec_font_table_box().len() == spec_ftab_size(),
        spec_tx3g_extradata().subrange(30, 48) == spec_font_table_box(),
        be_u32(spec_ftab_size() as u32) == spec_tx3g_extradata().subrange(30, 34),
{
    let all = spec_tx3g_extradata();
    let prefix = be_u32(DISPLAY_FLAGS) + seq![JUSTIFY_CENTER, JUSTIFY_BOTTOM] + be_u32(
        BACKGROUND_COLOR,
    ) + spec_text_box_bounds() + spec_style_record();
    assert(prefix.len() == 30);
    assert(all == prefix + spec_font_table_box());
    assert(all.subrange(30, 48) =~= spec_font_table_box());
    assert(all.subrange(30, 34) =~= spec_font_table_box().subrange(0, 4));
    assert(spec_font_table_box().subrange(0, 4) =~= be_u32(spec_ftab_size() as u32));
}

} // verus!
