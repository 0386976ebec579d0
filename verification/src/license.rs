//! License and configuration information of the FFmpeg libraries.
//!
//! The information is useful for meeting legal obligations when distributing
//! software that uses FFmpeg. The values themselves come from the linked
//! libraries; this module lays them out and renders packed versions.
use vstd::prelude::*;

verus! {

/// Information about an FFmpeg library's version, license, and build configuration.
#[derive(Debug, Clone, PartialEq, Eq)]
pub struct LibraryInfo {
    /// The name of the library (e.g., "libavutil", "libavcodec").
    pub name: &'static str,
    /// The version of the library as a packed integer.
    /// Use [`version_string`](Self::version_string) for a human-readable format.
    pub version: u32,
    /// The license under which the library was built (e.g., "LGPL version 2.1 or later").
    pub license: &'static str,
    /// The configuration flags used when building the library.
    pub configuration: &'static str,
}

/// What a linked library reports of itself: its packed version, its license
/// and its build configuration.
pub type LibraryReport = (u32, &'static str, &'static str);

/// The decimal digit character for `d` (`d < 10`).
pub open spec fn digit_char(d: nat) -> char {
    seq!['0', '1', '2', '3', '4', '5', '6', '7', '8', '9'][d as int]
}

/// The decimal numeral of `n`, most significant digit first, without
/// leading zeros.
pub open spec fn decimal(n: nat) -> Seq<char>
    decreases n,
{
    if n < 10 {
        seq![digit_char(n)]
    } else {
        decimal(n / 10).push(digit_char(n % 10))
    }
}

/// Major component of a packed version (bits 16..24).
pub open spec fn version_major(version: u32) -> nat {
    ((version >> 16) & 0xff) as nat
}

/// Minor component of a packed version (bits 8..16).
pub open spec fn version_minor(version: u32) -> nat {
    ((version >> 8) & 0xff) as nat
}

/// Micro component of a packed version (bits 0..8).
pub open spec fn version_micro(version: u32) -> nat {
    (version & 0xff) as nat
}

/// The "major.minor.micro" rendering of a packed version.
pub open spec fn spec_version_string(version: u32) -> Seq<char> {
    decimal(version_major(version)) + seq!['.'] + decimal(version_minor(version)) + seq!['.']
        + decimal(version_micro(version))
}

/// The value of a numeral made of decimal digits.
pub open spec fn decimal_value(s: Seq<char>) -> int
    decreases s.len(),
{
    if s.len() == 0 {
        0
    } else {
        decimal_value(s.drop_last()) * 10 + (s.last() as int - '0' as int)
    }
}

/// Whether `c` is one of the characters '0' to '9'.
pub open spec fn is_digit(c: char) -> bool {
    '0' <= c <= '9'
}

/// Whether `info` describes the library `name` as `report` describes it.
pub open spec fn describes(info: LibraryInfo, name: Seq<char>, report: LibraryReport) -> bool {
    &&& info.name@ == name
    &&& info.version == report.0
    &&& info.license == report.1
    &&& info.configuration == report.2
}

/// The one-character string of the decimal digit `d`.
fn digit_str(d: u32) -> (s: &'static str)
    requires
        d < 10,
    ensures
        s@ == seq![digit_char(d as nat)],
{
    match d {
        0 => {
            proof {
                reveal_strlit("0");
            }
            "0"
        },
        1 => {
            proof {
                reveal_strlit("1");
            }
            "1"
        },
        2 => {
            proof {
                reveal_strlit("2");
            }
            "2"
        },
        3 => {
            proof {
                reveal_strlit("3");
            }
            "3"
        },
        4 => {
            proof {
                reveal_strlit("4");
            }
            "4"
        },
        5 => {
            proof {
                reveal_strlit("5");
            }
            "5"
        },
        6 => {
            proof {
                reveal_strlit("6");
            }
            "6"
        },
        7 => {
            proof {
                reveal_strlit("7");
            }
            "7"
        },
        8 => {
            proof {
                reveal_strlit("8");
            }
            "8"
        },
        _ => {
            proof {
                reveal_strlit("9");
            }
            "9"
        },
    }
}

/// Appends the decimal numeral of `n` to `s`.
fn push_decimal(s: &mut String, n: u32)
    ensures
        final(s)@ == old(s)@ + decimal(n as nat),
    decreases n,
{
    if n < 10 {
        s.append(digit_str(n));
    } else {
        push_decimal(s, n / 10);
        s.append(digit_str(n % 10));
        assert(decimal(n as nat) == decimal((n / 10) as nat).push(digit_char((n % 10) as nat)));
        assert(old(s)@ + decimal((n / 10) as nat) + seq![digit_char((n % 10) as nat)] =~= old(s)@
            + decimal(n as nat));
    }
}

/// Appends a '.' to `s`.
fn push_dot(s: &mut String)
    ensures
        final(s)@ == old(s)@ + seq!['.'],
{
    proof {
        reveal_strlit(".");
    }
    s.append(".");
}

impl LibraryInfo {
    /// Returns the version as a human-readable string in "major.minor.micro" format.
    ///
    /// The major component is taken from bits 16 to 24 of the packed version,
    /// the minor one from bits 8 to 16 and the micro one from bits 0 to 8; each
    /// is written in decimal.
    pub fn version_string(&self) -> (s: String)
        ensures
            s@ == spec_version_string(self.version),
    {
        let major = (self.version >> 16) & 0xFF;
        let minor = (self.version >> 8) & 0xFF;
        let micro = self.version & 0xFF;
        let mut s = String::new();
        push_decimal(&mut s, major);
        push_dot(&mut s);
        push_decimal(&mut s, minor);
        push_dot(&mut s);
        push_decimal(&mut s, micro);
        assert(s@ =~= spec_version_string(self.version));
        s
    }
}

/// Lays out license and configuration information for all FFmpeg libraries
/// used by this crate, from what each linked library reports of itself.
///
/// The libraries come in this order:
/// - libavutil (core utilities)
/// - libavcodec (encoding/decoding)
/// - libavformat (muxing/demuxing)
/// - libswscale (video scaling)
/// - libswresample (audio resampling)
pub fn ffmpeg_libraries(
    util: LibraryReport,
    codec: LibraryReport,
    format: LibraryReport,
    scaling: LibraryReport,
    resampling: LibraryReport,
) -> (libraries: Vec<LibraryInfo>)
    ensures
        libraries@.len() == 5,
        describes(libraries@[0], "libavutil"@, util),
        describes(libraries@[1], "libavcodec"@, codec),
        describes(libraries@[2], "libavformat"@, format),
        describes(libraries@[3], "libswscale"@, scaling),
        describes(libraries@[4], "libswresample"@, resampling),
{
    let mut libraries = Vec::with_capacity(5);
    libraries.push(
        LibraryInfo {
            name: "libavutil",
            version: util.0,
            license: util.1,
            configuration: util.2,
        },
    );
    libraries.push(
        LibraryInfo {
            name: "libavcodec",
            version: codec.0,
            license: codec.1,
            configuration: codec.2,
        },
    );
    libraries.push(
        LibraryInfo {
            name: "libavformat",
            version: format.0,
            license: format.1,
            configuration: format.2,
        },
    );
    libraries.push(
        LibraryInfo {
            name: "libswscale",
            version: scaling.0,
            license: scaling.1,
            configuration: scaling.2,
        },
    );
    libraries.push(
        LibraryInfo {
            name: "libswresample",
            version: resampling.0,
            license: resampling.1,
            configuration: resampling.2,
        },
    );
    libraries
}

/// The digit character of `k` is a digit whose value is `k`.
proof fn lemma_digit_char(k: nat)
    requires
        k < 10,
    ensures
        is_digit(digit_char(k)),
        digit_char(k) as int - '0' as int == k,
        k != 0 ==> digit_char(k) != '0',
{
    let digits = seq!['0', '1', '2', '3', '4', '5', '6', '7', '8', '9'];
    assert(digit_char(k) == digits[k as int]);
    if k == 0 {
        assert(digits[0] == '0');
    } else if k == 1 {
        assert(digits[1] == '1');
    } else if k == 2 {
        assert(digits[2] == '2');
    } else if k == 3 {
        assert(digits[3] == '3');
    } else if k == 4 {
        assert(digits[4] == '4');
    } else if k == 5 {
        assert(digits[5] == '5');
    } else if k == 6 {
        assert(digits[6] == '6');
    } else if k == 7 {
        assert(digits[7] == '7');
    } else if k == 8 {
        assert(digits[8] == '8');
    } else {
        assert(digits[9] == '9');
    }
}

/// Every character of the decimal numeral of `n` is a digit, the numeral
/// has no leading zero unless it is "0", and reading it back gives `n`.
pub proof fn lemma_decimal_roundtrip(n: nat)
    ensures
        decimal(n).len() >= 1,
        n >= 10 ==> decimal(n).len() >= 2,
        forall|i: int| 0 <= i < decimal(n).len() ==> is_digit(#[trigger] decimal(n)[i]),
        decimal(n).len() > 1 ==> decimal(n)[0] != '0',
        decimal_value(decimal(n)) == n,
    decreases n,
{
    let d = decimal(n);
    if n < 10 {
        lemma_digit_char(n);
        assert(d.drop_last() =~= Seq::<char>::empty());
        assert(decimal_value(d.drop_last()) == 0);
    } else {
        lemma_decimal_roundtrip(n / 10);
        lemma_digit_char(n % 10);
        assert(d.drop_last() =~= decimal(n / 10));
        assert(d[0] == decimal(n / 10)[0]);
        if n / 10 < 10 {
            lemma_digit_char(n / 10);
            assert(decimal(n / 10) == seq![digit_char(n / 10)]);
        }
        assert(decimal_value(d) == decimal_value(decimal(n / 10)) * 10 + (n % 10));
    }
}

/// Packing a version from its components and rendering it gives the
/// components back: the rendering of `(major << 16) | (minor << 8) | micro`
/// is "major.minor.micro" in decimal, for components below 256.
pub proof fn lemma_version_string_of_components(major: u32, minor: u32, micro: u32)
    requires
        major < 256,
        minor < 256,
        micro < 256,
    ensures
        spec_version_string((major << 16) | (minor << 8) | micro) == decimal(major as nat) + seq![
            '.',
        ] + decimal(minor as nat) + seq!['.'] + decimal(micro as nat),
{
    let v = (major << 16) | (minor << 8) | micro;
    assert(((v >> 16) & 0xff) == major && ((v >> 8) & 0xff) == minor && (v & 0xff) == micro)
        by (bit_vector)
        requires
            v == (major << 16) | (minor << 8) | micro,
            major < 256,
            minor < 256,
            micro < 256,
    ;
}

} // verus!
