use video_rs::tx3g::build_tx3g_extradata;

#[test]
fn tx3g_extradata_bytes() {
    let data = build_tx3g_extradata();
    let expected: Vec<u8> = vec![
        0x00, 0x00, 0x00, 0x00, // display flags
        0x01, 0xff, // justification: center, bottom
        0x00, 0x00, 0x00, 0x00, // background color
        0, 0, 0, 0, 0, 0, 0, 0, // box record
        0x00, 0x00, 0x00, 0x00, // start and end char
        0x00, 0x01, // font id
        0x00, // style: normal
        18,   // font size
        0xff, 0xff, 0xff, 0xff, // text color: white
        0x00, 0x00, 0x00, 0x12, // font table box size: 18
        b'f', b't', b'a', b'b', // font table box tag
        0x00, 0x01, // entry count
        0x00, 0x01, // font id
        5,    // font name length
        b'S', b'e', b'r', b'i', b'f',
    ];
    assert_eq!(data, expected);
}

#[test]
fn tx3g_extradata_is_48_bytes() {
    assert_eq!(build_tx3g_extradata().len(), 48);
}

#[test]
fn tx3g_font_table_size_matches_its_length() {
    let data = build_tx3g_extradata();
    let size = u32::from_be_bytes([data[30], data[31], data[32], data[33]]) as usize;
    assert_eq!(size, data.len() - 30);
}
