use video_rs::mktag;

#[test]
fn mktag_avc1() {
    // The 'avc1' tag for H.264.
    let avc1 = mktag(b'a', b'v', b'c', b'1');
    assert_eq!(avc1, 0x31637661);
}

#[test]
fn mktag_is_little_endian() {
    let tag = mktag(b't', b'x', b'3', b'g');
    assert_eq!(tag, 0x67337874);
    assert_eq!(tag.to_le_bytes(), [b't', b'x', b'3', b'g']);
}

#[test]
fn mktag_extremes() {
    assert_eq!(mktag(0, 0, 0, 0), 0);
    assert_eq!(mktag(0xff, 0xff, 0xff, 0xff), u32::MAX);
    assert_eq!(mktag(0, 0, 0, 1), 0x0100_0000);
}
