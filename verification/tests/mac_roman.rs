use keyset::font::face::PlatformId as Plat;
use keyset::font::mac_roman::{
    is_mac_roman_encoding, mac_roman_decode, MAC_ENCODING_JAPANESE, MAC_ENCODING_ROMAN,
    MAC_LANGUAGE_ENGLISH, MAC_LANGUAGE_ICELANDIC,
};

#[test]
fn test_is_mac_roman_encoding() {
    assert!(!is_mac_roman_encoding(
        Plat::Unicode, // Wrong PlatformId
        MAC_ENCODING_ROMAN,
        MAC_LANGUAGE_ENGLISH,
    ));
    assert!(!is_mac_roman_encoding(
        Plat::Macintosh,
        MAC_ENCODING_JAPANESE, // Wrong EncodingId
        MAC_LANGUAGE_ENGLISH,
    ));
    assert!(!is_mac_roman_encoding(
        Plat::Macintosh,
        u16::MAX, // Invalid EncodingId
        MAC_LANGUAGE_ENGLISH,
    ));
    assert!(!is_mac_roman_encoding(
        Plat::Macintosh,
        MAC_ENCODING_ROMAN,
        MAC_LANGUAGE_ICELANDIC, // Wrong LanguageId
    ));
    assert!(is_mac_roman_encoding(
        Plat::Macintosh,
        MAC_ENCODING_ROMAN,
        u16::MAX, // Invalid LanguageId => default to mac-roman
    ));
    assert!(is_mac_roman_encoding(
        Plat::Macintosh,
        MAC_ENCODING_ROMAN,
        MAC_LANGUAGE_ENGLISH,
    ));
}

#[test]
fn test_mac_roman_decode() {
    // Test data borrowed from https://www.unicode.org/Public/MAPPINGS/VENDORS/APPLE/ROMAN.TXT

    let encoded: Vec<_> = (0..=u8::MAX).collect();
    let expected = "\
        \u{0000}\u{0001}\u{0002}\u{0003}\u{0004}\u{0005}\u{0006}\u{0007}\
        \u{0008}\u{0009}\u{000A}\u{000B}\u{000C}\u{000D}\u{000E}\u{000F}\
        \u{0010}\u{0011}\u{0012}\u{0013}\u{0014}\u{0015}\u{0016}\u{0017}\
        \u{0018}\u{0019}\u{001A}\u{001B}\u{001C}\u{001D}\u{001E}\u{001F}\
        \u{0020}\u{0021}\u{0022}\u{0023}\u{0024}\u{0025}\u{0026}\u{0027}\
        \u{0028}\u{0029}\u{002A}\u{002B}\u{002C}\u{002D}\u{002E}\u{002F}\
        \u{0030}\u{0031}\u{0032}\u{0033}\u{0034}\u{0035}\u{0036}\u{0037}\
        \u{0038}\u{0039}\u{003A}\u{003B}\u{003C}\u{003D}\u{003E}\u{003F}\
        \u{0040}\u{0041}\u{0042}\u{0043}\u{0044}\u{0045}\u{0046}\u{0047}\
        \u{0048}\u{0049}\u{004A}\u{004B}\u{004C}\u{004D}\u{004E}\u{004F}\
        \u{0050}\u{0051}\u{0052}\u{0053}\u{0054}\u{0055}\u{0056}\u{0057}\
        \u{0058}\u{0059}\u{005A}\u{005B}\u{005C}\u{005D}\u{005E}\u{005F}\
        \u{0060}\u{0061}\u{0062}\u{0063}\u{0064}\u{0065}\u{0066}\u{0067}\
        \u{0068}\u{0069}\u{006A}\u{006B}\u{006C}\u{006D}\u{006E}\u{006F}\
        \u{0070}\u{0071}\u{0072}\u{0073}\u{0074}\u{0075}\u{0076}\u{0077}\
        \u{0078}\u{0079}\u{007A}\u{007B}\u{007C}\u{007D}\u{007E}\u{007F}\
        \u{00C4}\u{00C5}\u{00C7}\u{00C9}\u{00D1}\u{00D6}\u{00DC}\u{00E1}\
        \u{00E0}\u{00E2}\u{00E4}\u{00E3}\u{00E5}\u{00E7}\u{00E9}\u{00E8}\
        \u{00EA}\u{00EB}\u{00ED}\u{00EC}\u{00EE}\u{00EF}\u{00F1}\u{00F3}\
        \u{00F2}\u{00F4}\u{00F6}\u{00F5}\u{00FA}\u{00F9}\u{00FB}\u{00FC}\
        \u{2020}\u{00B0}\u{00A2}\u{00A3}\u{00A7}\u{2022}\u{00B6}\u{00DF}\
        \u{00AE}\u{00A9}\u{2122}\u{00B4}\u{00A8}\u{2260}\u{00C6}\u{00D8}\
        \u{221E}\u{00B1}\u{2264}\u{2265}\u{00A5}\u{00B5}\u{2202}\u{2211}\
        \u{220F}\u{03C0}\u{222B}\u{00AA}\u{00BA}\u{03A9}\u{00E6}\u{00F8}\
        \u{00BF}\u{00A1}\u{00AC}\u{221A}\u{0192}\u{2248}\u{2206}\u{00AB}\
        \u{00BB}\u{2026}\u{00A0}\u{00C0}\u{00C3}\u{00D5}\u{0152}\u{0153}\
        \u{2013}\u{2014}\u{201C}\u{201D}\u{2018}\u{2019}\u{00F7}\u{25CA}\
        \u{00FF}\u{0178}\u{2044}\u{20AC}\u{2039}\u{203A}\u{FB01}\u{FB02}\
        \u{2021}\u{00B7}\u{201A}\u{201E}\u{2030}\u{00C2}\u{00CA}\u{00C1}\
        \u{00CB}\u{00C8}\u{00CD}\u{00CE}\u{00CF}\u{00CC}\u{00D3}\u{00D4}\
        \u{F8FF}\u{00D2}\u{00DA}\u{00DB}\u{00D9}\u{0131}\u{02C6}\u{02DC}\
        \u{00AF}\u{02D8}\u{02D9}\u{02DA}\u{00B8}\u{02DD}\u{02DB}\u{02C7}\
    ";

    assert_eq!(mac_roman_decode(&encoded), expected);
}

#[test]
fn mac_roman_decode_preserves_ascii_and_length() {
    assert_eq!(mac_roman_decode(b"Keyset 1.0"), "Keyset 1.0");
    assert_eq!(mac_roman_decode(&[0x80, 0xA5, 0xFF]), "\u{00C4}\u{2022}\u{02C7}");
    assert_eq!(mac_roman_decode(&[]), "");
}
