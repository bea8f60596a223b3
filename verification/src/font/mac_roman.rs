//! Mac Roman: the legacy single-byte encoding of many Macintosh font names.

use vstd::prelude::*;

use super::face::PlatformId;
use crate::strings::string_push;

verus! {

/// The Macintosh encoding ID of the Roman script.
pub const MAC_ENCODING_ROMAN: u16 = 0;

/// The Macintosh encoding ID of the Japanese script.
pub const MAC_ENCODING_JAPANESE: u16 = 1;

/// The Macintosh language ID of English.
pub const MAC_LANGUAGE_ENGLISH: u16 = 0;

/// The Macintosh language ID of Icelandic.
pub const MAC_LANGUAGE_ICELANDIC: u16 = 15;

/// The Macintosh language ID of Turkish.
pub const MAC_LANGUAGE_TURKISH: u16 = 17;

/// The Macintosh language ID of Croatian.
pub const MAC_LANGUAGE_CROATIAN: u16 = 18;

/// The Macintosh language ID of Lithuanian.
pub const MAC_LANGUAGE_LITHUANIAN: u16 = 24;

/// The Macintosh language ID of Polish.
pub const MAC_LANGUAGE_POLISH: u16 = 25;

/// The Macintosh language ID of Hungarian.
pub const MAC_LANGUAGE_HUNGARIAN: u16 = 26;

/// The Macintosh language ID of Estonian.
pub const MAC_LANGUAGE_ESTONIAN: u16 = 27;

/// The Macintosh language ID of Latvian.
pub const MAC_LANGUAGE_LATVIAN: u16 = 28;

/// The Macintosh language ID of Albanian.
pub const MAC_LANGUAGE_ALBANIAN: u16 = 36;

/// The Macintosh language ID of Romanian.
pub const MAC_LANGUAGE_ROMANIAN: u16 = 37;

/// The Macintosh language ID of Czech.
pub const MAC_LANGUAGE_CZECH: u16 = 38;

/// The Macintosh language ID of Slovak.
pub const MAC_LANGUAGE_SLOVAK: u16 = 39;

/// The Macintosh language ID of Slovenian.
pub const MAC_LANGUAGE_SLOVENIAN: u16 = 40;

/// Languages whose Roman-script names use a modified Mac Roman encoding.
pub open spec fn modified_roman_languages() -> Seq<u16> {
    seq![
        MAC_LANGUAGE_ICELANDIC,
        MAC_LANGUAGE_TURKISH,
        MAC_LANGUAGE_CROATIAN,
        MAC_LANGUAGE_LITHUANIAN,
        MAC_LANGUAGE_POLISH,
        MAC_LANGUAGE_HUNGARIAN,
        MAC_LANGUAGE_ESTONIAN,
        MAC_LANGUAGE_LATVIAN,
        MAC_LANGUAGE_ALBANIAN,
        MAC_LANGUAGE_ROMANIAN,
        MAC_LANGUAGE_CZECH,
        MAC_LANGUAGE_SLOVAK,
        MAC_LANGUAGE_SLOVENIAN,
    ]
}

/// A name record is in standard Mac Roman when it is a Macintosh record in the Roman script
/// whose language does not use one of the modified variants.
pub open spec fn spec_is_mac_roman_encoding(
    platform_id: PlatformId,
    encoding_id: u16,
    language_id: u16,
) -> bool {
    platform_id == PlatformId::Macintosh && encoding_id == MAC_ENCODING_ROMAN
        && !modified_roman_languages().contains(language_id)
}

/// Whether a name record with these IDs is encoded in standard Mac Roman.
pub fn is_mac_roman_encoding(platform_id: PlatformId, encoding_id: u16, language_id: u16) -> (b:
    bool)
    ensures
        b == spec_is_mac_roman_encoding(platform_id, encoding_id, language_id),
{
    let modified: Vec<u16> = vec![
        MAC_LANGUAGE_ICELANDIC,
        MAC_LANGUAGE_TURKISH,
        MAC_LANGUAGE_CROATIAN,
        MAC_LANGUAGE_LITHUANIAN,
        MAC_LANGUAGE_POLISH,
        MAC_LANGUAGE_HUNGARIAN,
        MAC_LANGUAGE_ESTONIAN,
        MAC_LANGUAGE_LATVIAN,
        MAC_LANGUAGE_ALBANIAN,
        MAC_LANGUAGE_ROMANIAN,
        MAC_LANGUAGE_CZECH,
        MAC_LANGUAGE_SLOVAK,
        MAC_LANGUAGE_SLOVENIAN,
    ];
    assert(modified@ =~= modified_roman_languages());
    let is_mac = match platform_id {
        PlatformId::Macintosh => true,
        _ => false,
    };
    if !is_mac || encoding_id != MAC_ENCODING_ROMAN {
        return false;
    }
    let mut i: usize = 0;
    while i < modified.len()
        invariant
            i <= modified@.len(),
            modified@ == modified_roman_languages(),
            forall|j: int| 0 <= j < i ==> modified@[j] != language_id,
        decreases modified@.len() - i,
    {
        if modified[i] == language_id {
            assert(modified_roman_languages().contains(language_id)) by {
                assert(modified_roman_languages()[i as int] == language_id);
            }
            return false;
        }
        i = i + 1;
    }
    true
}

/// The characters that the bytes `0x80..=0xFF` stand for in Mac Roman, in byte order.
pub open spec fn mac_roman_high_table() -> Seq<char> {
    seq![
        '\u{00C4}', '\u{00C5}', '\u{00C7}', '\u{00C9}', '\u{00D1}', '\u{00D6}', '\u{00DC}', '\u{00E1}',
        '\u{00E0}', '\u{00E2}', '\u{00E4}', '\u{00E3}', '\u{00E5}', '\u{00E7}', '\u{00E9}', '\u{00E8}',
        '\u{00EA}', '\u{00EB}', '\u{00ED}', '\u{00EC}', '\u{00EE}', '\u{00EF}', '\u{00F1}', '\u{00F3}',
        '\u{00F2}', '\u{00F4}', '\u{00F6}', '\u{00F5}', '\u{00FA}', '\u{00F9}', '\u{00FB}', '\u{00FC}',
        '\u{2020}', '\u{00B0}', '\u{00A2}', '\u{00A3}', '\u{00A7}', '\u{2022}', '\u{00B6}', '\u{00DF}',
        '\u{00AE}', '\u{00A9}', '\u{2122}', '\u{00B4}', '\u{00A8}', '\u{2260}', '\u{00C6}', '\u{00D8}',
        '\u{221E}', '\u{00B1}', '\u{2264}', '\u{2265}', '\u{00A5}', '\u{00B5}', '\u{2202}', '\u{2211}',
        '\u{220F}', '\u{03C0}', '\u{222B}', '\u{00AA}', '\u{00BA}', '\u{03A9}', '\u{00E6}', '\u{00F8}',
        '\u{00BF}', '\u{00A1}', '\u{00AC}', '\u{221A}', '\u{0192}', '\u{2248}', '\u{2206}', '\u{00AB}',
        '\u{00BB}', '\u{2026}', '\u{00A0}', '\u{00C0}', '\u{00C3}', '\u{00D5}', '\u{0152}', '\u{0153}',
        '\u{2013}', '\u{2014}', '\u{201C}', '\u{201D}', '\u{2018}', '\u{2019}', '\u{00F7}', '\u{25CA}',
        '\u{00FF}', '\u{0178}', '\u{2044}', '\u{20AC}', '\u{2039}', '\u{203A}', '\u{FB01}', '\u{FB02}',
        '\u{2021}', '\u{00B7}', '\u{201A}', '\u{201E}', '\u{2030}', '\u{00C2}', '\u{00CA}', '\u{00C1}',
        '\u{00CB}', '\u{00C8}', '\u{00CD}', '\u{00CE}', '\u{00CF}', '\u{00CC}', '\u{00D3}', '\u{00D4}',
        '\u{F8FF}', '\u{00D2}', '\u{00DA}', '\u{00DB}', '\u{00D9}', '\u{0131}', '\u{02C6}', '\u{02DC}',
        '\u{00AF}', '\u{02D8}', '\u{02D9}', '\u{02DA}', '\u{00B8}', '\u{02DD}', '\u{02DB}', '\u{02C7}',
    ]
}

/// The character a Mac Roman byte stands for: ASCII below `0x80`, the table above.
pub open spec fn mac_roman_char(b: u8) -> char {
    if b < 0x80 {
        b as char
    } else {
        mac_roman_high_table()[b - 0x80]
    }
}

/// Decodes Mac Roman bytes into a string, one character per byte.
pub fn mac_roman_decode(chars: &[u8]) -> (s: String)
    ensures
        s@ == chars@.map_values(|b: u8| mac_roman_char(b)),
{
    let table: Vec<char> = vec![
        '\u{00C4}', '\u{00C5}', '\u{00C7}', '\u{00C9}', '\u{00D1}', '\u{00D6}', '\u{00DC}', '\u{00E1}',
        '\u{00E0}', '\u{00E2}', '\u{00E4}', '\u{00E3}', '\u{00E5}', '\u{00E7}', '\u{00E9}', '\u{00E8}',
        '\u{00EA}', '\u{00EB}', '\u{00ED}', '\u{00EC}', '\u{00EE}', '\u{00EF}', '\u{00F1}', '\u{00F3}',
        '\u{00F2}', '\u{00F4}', '\u{00F6}', '\u{00F5}', '\u{00FA}', '\u{00F9}', '\u{00FB}', '\u{00FC}',
        '\u{2020}', '\u{00B0}', '\u{00A2}', '\u{00A3}', '\u{00A7}', '\u{2022}', '\u{00B6}', '\u{00DF}',
        '\u{00AE}', '\u{00A9}', '\u{2122}', '\u{00B4}', '\u{00A8}', '\u{2260}', '\u{00C6}', '\u{00D8}',
        '\u{221E}', '\u{00B1}', '\u{2264}', '\u{2265}', '\u{00A5}', '\u{00B5}', '\u{2202}', '\u{2211}',
        '\u{220F}', '\u{03C0}', '\u{222B}', '\u{00AA}', '\u{00BA}', '\u{03A9}', '\u{00E6}', '\u{00F8}',
        '\u{00BF}', '\u{00A1}', '\u{00AC}', '\u{221A}', '\u{0192}', '\u{2248}', '\u{2206}', '\u{00AB}',
        '\u{00BB}', '\u{2026}', '\u{00A0}', '\u{00C0}', '\u{00C3}', '\u{00D5}', '\u{0152}', '\u{0153}',
        '\u{2013}', '\u{2014}', '\u{201C}', '\u{201D}', '\u{2018}', '\u{2019}', '\u{00F7}', '\u{25CA}',
        '\u{00FF}', '\u{0178}', '\u{2044}', '\u{20AC}', '\u{2039}', '\u{203A}', '\u{FB01}', '\u{FB02}',
        '\u{2021}', '\u{00B7}', '\u{201A}', '\u{201E}', '\u{2030}', '\u{00C2}', '\u{00CA}', '\u{00C1}',
        '\u{00CB}', '\u{00C8}', '\u{00CD}', '\u{00CE}', '\u{00CF}', '\u{00CC}', '\u{00D3}', '\u{00D4}',
        '\u{F8FF}', '\u{00D2}', '\u{00DA}', '\u{00DB}', '\u{00D9}', '\u{0131}', '\u{02C6}', '\u{02DC}',
        '\u{00AF}', '\u{02D8}', '\u{02D9}', '\u{02DA}', '\u{00B8}', '\u{02DD}', '\u{02DB}', '\u{02C7}',
    ];
    assert(table@ =~= mac_roman_high_table());
    let n = chars.len();
    let mut s = String::new();
    let mut i: usize = 0;
    while i < n
        invariant
            n == chars@.len(),
            i <= n,
            table@ == mac_roman_high_table(),
            s@ =~= chars@.take(i as int).map_values(|b: u8| mac_roman_char(b)),
        decreases n - i,
    {
        let b = chars[i];
        let c = if b < 0x80 {
            b as char
        } else {
            table[(b - 0x80) as usize]
        };
        string_push(&mut s, c);
        i = i + 1;
        assert(chars@.take(i as int) =~= chars@.take((i - 1) as int).push(b));
    }
    assert(chars@.take(n as int) =~= chars@);
    s
}

/// Decoding gives one character per byte, and an ASCII byte is the character of the same code.
pub proof fn law_mac_roman_ascii(bytes: Seq<u8>, i: int)
    requires
        0 <= i < bytes.len(),
        bytes[i] < 0x80,
    ensures
        bytes.map_values(|b: u8| mac_roman_char(b)).len() == bytes.len(),
        bytes.map_values(|b: u8| mac_roman_char(b))[i] == bytes[i] as char,
{
}

/// The position of a character in the high table, or 128 if it is not there.
pub open spec fn high_table_position(c: char) -> int {
    if c == '\u{00C4}' {
        0
    } else if c == '\u{00C5}' {
        1
    } else if c == '\u{00C7}' {
        2
    } else if c == '\u{00C9}' {
        3
    } else if c == '\u{00D1}' {
        4
    } else if c == '\u{00D6}' {
        5
    } else if c == '\u{00DC}' {
        6
    } else if c == '\u{00E1}' {
        7
    } else if c == '\u{00E0}' {
        8
    } else if c == '\u{00E2}' {
        9
    } else if c == '\u{00E4}' {
        10
    } else if c == '\u{00E3}' {
        11
    } else if c == '\u{00E5}' {
        12
    } else if c == '\u{00E7}' {
        13
    } else if c == '\u{00E9}' {
        14
    } else if c == '\u{00E8}' {
        15
    } else if c == '\u{00EA}' {
        16
    } else if c == '\u{00EB}' {
        17
    } else if c == '\u{00ED}' {
        18
    } else if c == '\u{00EC}' {
        19
    } else if c == '\u{00EE}' {
        20
    } else if c == '\u{00EF}' {
        21
    } else if c == '\u{00F1}' {
        22
    } else if c == '\u{00F3}' {
        23
    } else if c == '\u{00F2}' {
        24
    } else if c == '\u{00F4}' {
        25
    } else if c == '\u{00F6}' {
        26
    } else if c == '\u{00F5}' {
        27
    } else if c == '\u{00FA}' {
        28
    } else if c == '\u{00F9}' {
        29
    } else if c == '\u{00FB}' {
        30
    } else if c == '\u{00FC}' {
        31
    } else if c == '\u{2020}' {
        32
    } else if c == '\u{00B0}' {
        33
    } else if c == '\u{00A2}' {
        34
    } else if c == '\u{00A3}' {
        35
    } else if c == '\u{00A7}' {
        36
    } else if c == '\u{2022}' {
        37
    } else if c == '\u{00B6}' {
        38
    } else if c == '\u{00DF}' {
        39
    } else if c == '\u{00AE}' {
        40
    } else if c == '\u{00A9}' {
        41
    } else if c == '\u{2122}' {
        42
    } else if c == '\u{00B4}' {
        43
    } else if c == '\u{00A8}' {
        44
    } else if c == '\u{2260}' {
        45
    } else if c == '\u{00C6}' {
        46
    } else if c == '\u{00D8}' {
        47
    } else if c == '\u{221E}' {
        48
    } else if c == '\u{00B1}' {
        49
    } else if c == '\u{2264}' {
        50
    } else if c == '\u{2265}' {
        51
    } else if c == '\u{00A5}' {
        52
    } else if c == '\u{00B5}' {
        53
    } else if c == '\u{2202}' {
        54
    } else if c == '\u{2211}' {
        55
    } else if c == '\u{220F}' {
        56
    } else if c == '\u{03C0}' {
        57
    } else if c == '\u{222B}' {
        58
    } else if c == '\u{00AA}' {
        59
    } else if c == '\u{00BA}' {
        60
    } else if c == '\u{03A9}' {
        61
    } else if c == '\u{00E6}' {
        62
    } else if c == '\u{00F8}' {
        63
    } else if c == '\u{00BF}' {
        64
    } else if c == '\u{00A1}' {
        65
    } else if c == '\u{00AC}' {
        66
    } else if c == '\u{221A}' {
        67
    } else if c == '\u{0192}' {
        68
    } else if c == '\u{2248}' {
        69
    } else if c == '\u{2206}' {
        70
    } else if c == '\u{00AB}' {
        71
    } else if c == '\u{00BB}' {
        72
    } else if c == '\u{2026}' {
        73
    } else if c == '\u{00A0}' {
        74
    } else if c == '\u{00C0}' {
        75
    } else if c == '\u{00C3}' {
        76
    } else if c == '\u{00D5}' {
        77
    } else if c == '\u{0152}' {
        78
    } else if c == '\u{0153}' {
        79
    } else if c == '\u{2013}' {
        80
    } else if c == '\u{2014}' {
        81
    } else if c == '\u{201C}' {
        82
    } else if c == '\u{201D}' {
        83
    } else if c == '\u{2018}' {
        84
    } else if c == '\u{2019}' {
        85
    } else if c == '\u{00F7}' {
        86
    } else if c == '\u{25CA}' {
        87
    } else if c == '\u{00FF}' {
        88
    } else if c == '\u{0178}' {
        89
    } else if c == '\u{2044}' {
        90
    } else if c == '\u{20AC}' {
        91
    } else if c == '\u{2039}' {
        92
    } else if c == '\u{203A}' {
        93
    } else if c == '\u{FB01}' {
        94
    } else if c == '\u{FB02}' {
        95
    } else if c == '\u{2021}' {
        96
    } else if c == '\u{00B7}' {
        97
    } else if c == '\u{201A}' {
        98
    } else if c == '\u{201E}' {
        99
    } else if c == '\u{2030}' {
        100
    } else if c == '\u{00C2}' {
        101
    } else if c == '\u{00CA}' {
        102
    } else if c == '\u{00C1}' {
        103
    } else if c == '\u{00CB}' {
        104
    } else if c == '\u{00C8}' {
        105
    } else if c == '\u{00CD}' {
        106
    } else if c == '\u{00CE}' {
        107
    } else if c == '\u{00CF}' {
        108
    } else if c == '\u{00CC}' {
        109
    } else if c == '\u{00D3}' {
        110
    } else if c == '\u{00D4}' {
        111
    } else if c == '\u{F8FF}' {
        112
    } else if c == '\u{00D2}' {
        113
    } else if c == '\u{00DA}' {
        114
    } else if c == '\u{00DB}' {
        115
    } else if c == '\u{00D9}' {
        116
    } else if c == '\u{0131}' {
        117
    } else if c == '\u{02C6}' {
        118
    } else if c == '\u{02DC}' {
        119
    } else if c == '\u{00AF}' {
        120
    } else if c == '\u{02D8}' {
        121
    } else if c == '\u{02D9}' {
        122
    } else if c == '\u{02DA}' {
        123
    } else if c == '\u{00B8}' {
        124
    } else if c == '\u{02DD}' {
        125
    } else if c == '\u{02DB}' {
        126
    } else if c == '\u{02C7}' {
        127
    } else {
        128
    }
}

/// Each character of the high table stands at one position only: no two bytes above `0x7F`
/// stand for the same character, and none of them for an ASCII one.
#[verifier::rlimit(100)]
proof fn lemma_high_table_positions(i: int)
    requires
        0 <= i < 128,
    ensures
        high_table_position(mac_roman_high_table()[i]) == i,
        mac_roman_high_table()[i] as u32 >= 0x80,
{
}

/// The text that Mac Roman bytes decode to, one character per byte.
pub open spec fn mac_roman_text(bytes: Seq<u8>) -> Seq<char> {
    bytes.map_values(|b: u8| mac_roman_char(b))
}

/// Mac Roman decoding loses nothing: different bytes stand for different characters, so two
/// byte strings that decode to the same text are the same.
pub proof fn law_mac_roman_injective(a: Seq<u8>, b: Seq<u8>)
    requires
        mac_roman_text(a) == mac_roman_text(b),
    ensures
        a == b,
{
    assert forall|x: u8, y: u8| #[trigger] mac_roman_char(x) == #[trigger] mac_roman_char(y) implies x
        == y by {
        if x >= 0x80 {
            lemma_high_table_positions(x - 0x80);
        }
        if y >= 0x80 {
            lemma_high_table_positions(y - 0x80);
        }
        if x < 0x80 && y < 0x80 {
            assert(x as char as u32 == x);
            assert(y as char as u32 == y);
        }
    }
    assert(a.len() == mac_roman_text(a).len());
    assert(b.len() == mac_roman_text(b).len());
    assert forall|k: int| 0 <= k < a.len() implies a[k] == b[k] by {
        assert(mac_roman_text(a)[k] == mac_roman_char(a[k]));
        assert(mac_roman_text(b)[k] == mac_roman_char(b[k]));
    }
    assert(a =~= b);
}

} // verus!
