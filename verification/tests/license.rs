use video_rs::license::{ffmpeg_libraries, LibraryInfo};

fn info(version: u32) -> LibraryInfo {
    LibraryInfo {
        name: "libavutil",
        version,
        license: "LGPL version 2.1 or later",
        configuration: "--enable-gpl",
    }
}

#[test]
fn version_string_major_minor_micro() {
    let version = (58 << 16) | (29 << 8) | 100;
    assert_eq!(info(version).version_string(), "58.29.100");
}

#[test]
fn version_string_zero() {
    assert_eq!(info(0).version_string(), "0.0.0");
}

#[test]
fn version_string_largest_components() {
    assert_eq!(info(0x00ff_ffff).version_string(), "255.255.255");
}

#[test]
fn version_string_ignores_top_byte() {
    assert_eq!(info(0xab01_0203).version_string(), "1.2.3");
}

#[test]
fn version_string_digit_boundaries() {
    let version = (10 << 16) | (9 << 8) | 100;
    assert_eq!(info(version).version_string(), "10.9.100");
}

#[test]
fn ffmpeg_libraries_in_documented_order() {
    let libraries = ffmpeg_libraries(
        (1, "util license", "util config"),
        (2, "codec license", "codec config"),
        (3, "format license", "format config"),
        (4, "scaling license", "scaling config"),
        (5, "resampling license", "resampling config"),
    );
    let names: Vec<&str> = libraries.iter().map(|lib| lib.name).collect();
    assert_eq!(
        names,
        vec!["libavutil", "libavcodec", "libavformat", "libswscale", "libswresample"]
    );
    assert_eq!(libraries[0].version, 1);
    assert_eq!(libraries[0].license, "util license");
    assert_eq!(libraries[0].configuration, "util config");
    assert_eq!(libraries[3].version, 4);
    assert_eq!(libraries[4].license, "resampling license");
    assert_eq!(libraries[4].configuration, "resampling config");
}
