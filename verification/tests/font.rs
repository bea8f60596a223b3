use keyset::font::error::{Error, FaceParsingError, PermissionError};
use keyset::font::face::{check_permissions, FontFace, Os2Permissions, Permissions};
use keyset::font::layout::{place_glyphs, PlacedGlyph, ShapedGlyph};
use keyset::font::Font;

#[test]
fn error_error_from() {
    let parse_error = match FontFace::from_ttf(b"invalid".to_vec()).unwrap_err() {
        Error::ParsingError(e) => e,
        other => panic!("not a parsing error: {}", other.to_string()),
    };
    assert_eq!(parse_error, FaceParsingError::UnknownMagic);
    let error: Error = parse_error.into();
    assert_eq!(error.to_string(), "error parsing font: unknown magic");

    let perm_error = PermissionError::RestrictedLicense;
    let error: Error = perm_error.into();
    assert_eq!(error.to_string(), "permissions error: restricted license");
}

#[test]
fn font_from_invalid_data() {
    let error = Font::from_ttf(b"invalid".to_vec()).unwrap_err();
    assert_eq!(error.to_string(), "error parsing font: unknown magic");
    assert!(matches!(error, Error::ParsingError(FaceParsingError::UnknownMagic)));

    let error = FontFace::from_ttf(Vec::new()).unwrap_err();
    assert!(matches!(error, Error::ParsingError(_)));
}

#[test]
fn permission_checks() {
    let ok = Os2Permissions {
        permissions: Some(Permissions::Installable),
        subsetting_allowed: true,
        outline_embedding_allowed: true,
    };
    assert_eq!(check_permissions(None), Ok(()));
    assert_eq!(check_permissions(Some(ok)), Ok(()));
    let restricted = Os2Permissions {
        permissions: Some(Permissions::Restricted),
        subsetting_allowed: false,
        outline_embedding_allowed: false,
    };
    assert_eq!(check_permissions(Some(restricted)), Err(PermissionError::RestrictedLicense));
    let no_subset = Os2Permissions { subsetting_allowed: false, outline_embedding_allowed: false, ..ok };
    assert_eq!(check_permissions(Some(no_subset)), Err(PermissionError::NoSubsetting));
    let bitmap_only = Os2Permissions { outline_embedding_allowed: false, ..ok };
    assert_eq!(check_permissions(Some(bitmap_only)), Err(PermissionError::BitmapEmbeddingOnly));

    assert_eq!(PermissionError::NoSubsetting.to_string(), "no subsetting");
    let error: Error = PermissionError::BitmapEmbeddingOnly.into();
    assert_eq!(error.to_string(), "permissions error: bitmap embedding only");
}

#[test]
fn glyphs_follow_advances() {
    let glyph = |glyph_id: u32, x_advance: i32, x_offset: i32, y_offset: i32| ShapedGlyph {
        glyph_id,
        x_advance,
        y_advance: 0,
        x_offset,
        y_offset,
    };
    let placed = place_glyphs(&vec![glyph(3, 600, 0, 0), glyph(70000, 550, -20, 10), glyph(4, 500, 5, 0)]);
    assert_eq!(
        placed,
        vec![
            PlacedGlyph { glyph_id: 3, x: 0, y: 0 },
            PlacedGlyph { glyph_id: 0xffff, x: 580, y: 10 },
            PlacedGlyph { glyph_id: 4, x: 1155, y: 0 },
        ]
    );
    assert!(place_glyphs(&Vec::new()).is_empty());
}

/// A minimal TrueType font: the head, hhea and maxp tables, an OS/2 table (version 2, with the
/// given `fsType`) if asked for, and a naming table of Windows Unicode records.
fn test_font(fs_type: Option<u16>, names: &[(u16, &str)]) -> Vec<u8> {
    fn put16(v: &mut Vec<u8>, at: usize, x: u16) {
        v[at..at + 2].copy_from_slice(&x.to_be_bytes());
    }
    let mut head = vec![0u8; 54];
    head[0..4].copy_from_slice(&0x0001_0000u32.to_be_bytes());
    head[12..16].copy_from_slice(&0x5F0F_3CF5u32.to_be_bytes());
    put16(&mut head, 18, 1000); // units per em
    let mut hhea = vec![0u8; 36];
    hhea[0..4].copy_from_slice(&0x0001_0000u32.to_be_bytes());
    put16(&mut hhea, 4, 800); // ascender
    put16(&mut hhea, 6, (-200i16) as u16); // descender
    put16(&mut hhea, 8, 90); // line gap
    put16(&mut hhea, 34, 1); // number of metrics
    let mut maxp = vec![0u8; 6];
    maxp[0..4].copy_from_slice(&0x0000_5000u32.to_be_bytes());
    put16(&mut maxp, 4, 3); // number of glyphs
    let mut name = vec![0u8; 6 + 12 * names.len()];
    put16(&mut name, 2, names.len() as u16);
    put16(&mut name, 4, (6 + 12 * names.len()) as u16);
    let mut storage = Vec::new();
    for (i, (id, text)) in names.iter().enumerate() {
        let data: Vec<u8> = text.encode_utf16().flat_map(|u| u.to_be_bytes()).collect();
        let at = 6 + 12 * i;
        put16(&mut name, at, 3); // Windows
        put16(&mut name, at + 2, 1); // Unicode BMP
        put16(&mut name, at + 4, 0x409);
        put16(&mut name, at + 6, *id);
        put16(&mut name, at + 8, data.len() as u16);
        put16(&mut name, at + 10, storage.len() as u16);
        storage.extend_from_slice(&data);
    }
    name.extend_from_slice(&storage);
    let mut tables: Vec<(&[u8; 4], Vec<u8>)> = Vec::new();
    if let Some(fs_type) = fs_type {
        let mut os2 = vec![0u8; 96];
        put16(&mut os2, 0, 2); // version
        put16(&mut os2, 8, fs_type);
        put16(&mut os2, 86, 500); // x height
        put16(&mut os2, 88, 700); // capital height
        tables.push((b"OS/2", os2));
    }
    tables.push((b"head", head));
    tables.push((b"hhea", hhea));
    tables.push((b"maxp", maxp));
    tables.push((b"name", name));
    let mut font = vec![0u8; 12 + 16 * tables.len()];
    font[0..4].copy_from_slice(&0x0001_0000u32.to_be_bytes());
    put16(&mut font, 4, tables.len() as u16);
    for (i, (tag, data)) in tables.iter().enumerate() {
        let offset = font.len();
        let at = 12 + 16 * i;
        font[at..at + 4].copy_from_slice(*tag);
        font[at + 8..at + 12].copy_from_slice(&(offset as u32).to_be_bytes());
        font[at + 12..at + 16].copy_from_slice(&(data.len() as u32).to_be_bytes());
        font.extend_from_slice(data);
        while font.len() % 4 != 0 {
            font.push(0);
        }
    }
    font
}

const NAMES: [(u16, &str); 2] = [(1, "Test Family"), (4, "Test Family Regular")];

#[test]
fn font_face_permissions() {
    let face = FontFace::from_ttf(test_font(Some(0), &NAMES)).unwrap();
    assert_eq!(face.name(1), Some("Test Family".to_string()));
    assert_eq!(face.name(4), Some("Test Family Regular".to_string()));
    assert_eq!(face.name(2), None);
    assert!(FontFace::from_ttf(test_font(None, &NAMES)).is_ok());

    let cases = [
        (0x0002, PermissionError::RestrictedLicense),
        (0x0100, PermissionError::NoSubsetting),
        (0x0200, PermissionError::BitmapEmbeddingOnly),
    ];
    for (fs_type, expected) in cases {
        let error = FontFace::from_ttf(test_font(Some(fs_type), &NAMES)).unwrap_err();
        assert!(matches!(error, Error::PermissionError(e) if e == expected));
    }
    let error = FontFace::from_ttf(test_font(Some(0x0002), &NAMES)).unwrap_err();
    assert_eq!(error.to_string(), "permissions error: restricted license");
}

#[test]
fn font_face_metrics() {
    let face = FontFace::from_ttf(test_font(Some(0), &NAMES)).unwrap();
    assert_eq!(face.ascender(), 800);
    assert_eq!(face.descender(), -200);
    assert_eq!(face.line_gap(), 90);
    assert_eq!(face.units_per_em(), 1000);
    assert_eq!(face.x_height(), Some(500));
    assert_eq!(face.capital_height(), Some(700));
    assert_eq!(face.number_of_glyphs(), 3);
    assert_eq!(face.glyph_index('A'), None);
    assert_eq!(face.glyph_bounds(1), None);
}

#[test]
fn font_from_test_font() {
    let font = Font::from_ttf(test_font(Some(0), &NAMES)).unwrap();
    assert_eq!(font.family(), "Test Family");
    assert_eq!(font.name(), "Test Family Regular");
    assert_eq!(font.cap_height(), 700);
    assert_eq!(font.x_height(), 500);
    assert_eq!(font.ascender(), 800);
    assert_eq!(font.descender(), 200);
    assert_eq!(font.line_gap(), 90);
    assert_eq!(font.line_height(), 1090);
    assert_eq!(font.em_size(), 1000);
    assert_eq!(font.num_glyphs(), 3);
    assert!(!font.has_glyph('A'));

    let placed = font.layout_string("ab").unwrap();
    assert_eq!(placed.len(), 2);
    assert!(placed.iter().all(|g| g.glyph_id == 0));
}

#[test]
fn font_missing_properties() {
    let error = Font::from_ttf(test_font(Some(0), &NAMES[1..])).unwrap_err();
    assert_eq!(error.to_string(), "missing property font family");
    assert!(matches!(&error, Error::MissingProperty(p) if p == "font family"));

    let error = Font::from_ttf(test_font(Some(0), &NAMES[..1])).unwrap_err();
    assert_eq!(error.to_string(), "missing property full font name");

    // Without an OS/2 table the capital height is measured on 'H', which this font lacks
    let error = Font::from_ttf(test_font(None, &NAMES)).unwrap_err();
    assert_eq!(error.to_string(), "missing property capital height");
}
